//! Opaque resource identifiers.
//!
//! Stored emails, images and users are referred to by identifiers that
//! carry no meaning beyond equality. The service renders one only when
//! it builds the storage path of an image file, in the usual hyphenated
//! hexadecimal form.

use vstd::prelude::*;
use vstd::string::StringExecFns;

verus! {

/// An opaque identifier of a stored resource: a 128-bit value with no
/// meaning to the service beyond equality.
#[derive(Clone, Copy, PartialEq, Eq, Structural, Debug)]
pub struct ResourceId {
    pub bits: u128,
}

/// The hexadecimal digit character for `d`, lower case.
pub open spec fn hex_char(d: nat) -> char {
    if d == 0 {
        '0'
    } else if d == 1 {
        '1'
    } else if d == 2 {
        '2'
    } else if d == 3 {
        '3'
    } else if d == 4 {
        '4'
    } else if d == 5 {
        '5'
    } else if d == 6 {
        '6'
    } else if d == 7 {
        '7'
    } else if d == 8 {
        '8'
    } else if d == 9 {
        '9'
    } else if d == 10 {
        'a'
    } else if d == 11 {
        'b'
    } else if d == 12 {
        'c'
    } else if d == 13 {
        'd'
    } else if d == 14 {
        'e'
    } else {
        'f'
    }
}

/// The low `width` hexadecimal digits of `n`, most significant first,
/// zero padded.
pub open spec fn hex_rep(n: nat, width: nat) -> Seq<char>
    decreases width,
{
    if width == 0 {
        Seq::empty()
    } else {
        hex_rep(n / 16, (width - 1) as nat).push(hex_char(n % 16))
    }
}

/// The hyphenated rendering of a 128-bit identifier: five groups of
/// lower-case hexadecimal digits of widths 8, 4, 4, 4 and 12.
pub open spec fn hyphenated_rep(n: u128) -> Seq<char> {
    hex_rep(n as nat / 0x1000000000000000000000000, 8) + seq!['-'] + hex_rep(
        (n as nat / 0x100000000000000000000) % 0x10000,
        4,
    ) + seq!['-'] + hex_rep((n as nat / 0x10000000000000000) % 0x10000, 4) + seq!['-'] + hex_rep(
        (n as nat / 0x1000000000000) % 0x10000,
        4,
    ) + seq!['-'] + hex_rep(n as nat % 0x1000000000000, 12)
}

/// The one-character string for the hexadecimal digit `d`.
fn hex_digit(d: u8) -> (r: &'static str)
    requires
        d < 16,
    ensures
        r@ == seq![hex_char(d as nat)],
{
    if d == 0 {
        proof {
            reveal_strlit("0");
            assert("0"@ =~= seq![hex_char(0)]);
        }
        "0"
    } else if d == 1 {
        proof {
            reveal_strlit("1");
            assert("1"@ =~= seq![hex_char(1)]);
        }
        "1"
    } else if d == 2 {
        proof {
            reveal_strlit("2");
            assert("2"@ =~= seq![hex_char(2)]);
        }
        "2"
    } else if d == 3 {
        proof {
            reveal_strlit("3");
            assert("3"@ =~= seq![hex_char(3)]);
        }
        "3"
    } else if d == 4 {
        proof {
            reveal_strlit("4");
            assert("4"@ =~= seq![hex_char(4)]);
        }
        "4"
    } else if d == 5 {
        proof {
            reveal_strlit("5");
            assert("5"@ =~= seq![hex_char(5)]);
        }
        "5"
    } else if d == 6 {
        proof {
            reveal_strlit("6");
            assert("6"@ =~= seq![hex_char(6)]);
        }
        "6"
    } else if d == 7 {
        proof {
            reveal_strlit("7");
            assert("7"@ =~= seq![hex_char(7)]);
        }
        "7"
    } else if d == 8 {
        proof {
            reveal_strlit("8");
            assert("8"@ =~= seq![hex_char(8)]);
        }
        "8"
    } else if d == 9 {
        proof {
            reveal_strlit("9");
            assert("9"@ =~= seq![hex_char(9)]);
        }
        "9"
    } else if d == 10 {
        proof {
            reveal_strlit("a");
            assert("a"@ =~= seq![hex_char(10)]);
        }
        "a"
    } else if d == 11 {
        proof {
            reveal_strlit("b");
            assert("b"@ =~= seq![hex_char(11)]);
        }
        "b"
    } else if d == 12 {
        proof {
            reveal_strlit("c");
            assert("c"@ =~= seq![hex_char(12)]);
        }
        "c"
    } else if d == 13 {
        proof {
            reveal_strlit("d");
            assert("d"@ =~= seq![hex_char(13)]);
        }
        "d"
    } else if d == 14 {
        proof {
            reveal_strlit("e");
            assert("e"@ =~= seq![hex_char(14)]);
        }
        "e"
    } else {
        proof {
            reveal_strlit("f");
            assert("f"@ =~= seq![hex_char(15)]);
        }
        "f"
    }
}

/// Append the low `width` hexadecimal digits of `n` to `out`, most
/// significant first.
fn append_hex(n: u128, width: u8, out: &mut String)
    requires
        width >= 1,
    ensures
        final(out)@ == old(out)@ + hex_rep(n as nat, width as nat),
    decreases width,
{
    if width > 1 {
        append_hex(n / 16, width - 1, out);
    }
    let d: u8 = (n % 16) as u8;
    proof {
        assert(d as nat == n as nat % 16);
        assert((n / 16) as nat == n as nat / 16);
    }
    let ghost before_digit = out@;
    out.append(hex_digit(d));
    proof {
        if width > 1 {
            assert(final(out)@ =~= old(out)@ + hex_rep(n as nat, width as nat));
        } else {
            assert(hex_rep(n as nat / 16, 0) =~= Seq::<char>::empty());
            assert(hex_rep(n as nat, 1) =~= Seq::<char>::empty().push(hex_char(n as nat % 16)));
            assert(final(out)@ =~= old(out)@ + hex_rep(n as nat, 1));
        }
    }
}

impl ResourceId {
    /// The hyphenated rendering of this identifier.
    pub fn hyphenated(&self) -> (r: String)
        ensures
            r@ == hyphenated_rep(self.bits),
    {
        let n = self.bits;
        let mut out = String::new();
        append_hex(n / 0x1000000000000000000000000, 8, &mut out);
        out.append("-");
        append_hex((n / 0x100000000000000000000) % 0x10000, 4, &mut out);
        out.append("-");
        append_hex((n / 0x10000000000000000) % 0x10000, 4, &mut out);
        out.append("-");
        append_hex((n / 0x1000000000000) % 0x10000, 4, &mut out);
        out.append("-");
        append_hex(n % 0x1000000000000, 12, &mut out);
        proof {
            reveal_strlit("-");
            assert("-"@ =~= seq!['-']);
            assert(out@ =~= hyphenated_rep(n));
        }
        out
    }
}

} // verus!
