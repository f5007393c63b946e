//! Error accumulation and the request-level error taxonomy.
//!
//! [`ErrorMap`] collects per-field validation failures across the
//! independent checks of one request: an ordered-insertion multi-map from
//! field name to the list of messages recorded for that field.

use vstd::prelude::*;
use vstd::string::StringExecFns;

verus! {

/// The abstract value of an [`ErrorMap`]: one entry per key, in insertion
/// order of first appearance, each carrying that key's messages in the
/// order they were recorded.
pub type ErrorEntries = Seq<(Seq<char>, Seq<Seq<char>>)>;

/// Whether `k` is a key of the entry list `v`.
pub open spec fn em_contains_key(v: ErrorEntries, k: Seq<char>) -> bool {
    exists|i: int| 0 <= i < v.len() && v[i].0 == k
}

/// The messages recorded under `k`: those of its first entry, or the
/// empty sequence when `k` is absent.
pub open spec fn em_get(v: ErrorEntries, k: Seq<char>) -> Seq<Seq<char>>
    decreases v.len(),
{
    if v.len() == 0 {
        Seq::empty()
    } else if v[0].0 == k {
        v[0].1
    } else {
        em_get(v.drop_first(), k)
    }
}

/// Entry lists are well formed when no key repeats and every entry holds
/// at least one message.
pub open spec fn em_wf(v: ErrorEntries) -> bool {
    &&& forall|i: int, j: int| 0 <= i < j < v.len() ==> v[i].0 != v[j].0
    &&& forall|i: int| 0 <= i < v.len() ==> v[i].1.len() > 0
}

/// The entry list after one more error is recorded under `k`: the message
/// joins the entry of `k`, and an absent key gains a fresh entry at the
/// end.
pub open spec fn em_add(v: ErrorEntries, k: Seq<char>, msg: Seq<char>) -> ErrorEntries {
    if em_contains_key(v, k) {
        Seq::new(
            v.len(),
            |i: int| if v[i].0 == k { (v[i].0, v[i].1.push(msg)) } else { v[i] },
        )
    } else {
        v.push((k, seq![msg]))
    }
}

/// The entry list after every message of `msgs` is recorded under `k`, in
/// order.
pub open spec fn em_add_all(v: ErrorEntries, k: Seq<char>, msgs: Seq<Seq<char>>) -> ErrorEntries
    decreases msgs.len(),
{
    if msgs.len() == 0 {
        v
    } else {
        em_add_all(em_add(v, k, msgs.first()), k, msgs.drop_first())
    }
}

/// The entry list after every message of `b` is recorded into `a`, entry
/// by entry and message by message, in order.
pub open spec fn em_merge(a: ErrorEntries, b: ErrorEntries) -> ErrorEntries
    decreases b.len(),
{
    if b.len() == 0 {
        a
    } else {
        em_merge(em_add_all(a, b.first().0, b.first().1), b.drop_first())
    }
}

/// A multi-map from field name to the error messages recorded for that
/// field, in insertion order. It accumulates validation failures across
/// the independent checks of one request.
#[derive(Debug)]
pub struct ErrorMap {
    entries: Vec<(String, Vec<String>)>,
}

impl View for ErrorMap {
    type V = ErrorEntries;

    closed spec fn view(&self) -> ErrorEntries {
        self.entries@.map_values(|p: (String, Vec<String>)| (p.0@, p.1.deep_view()))
    }
}

impl ErrorMap {
    #[verifier::type_invariant]
    spec fn wf(self) -> bool {
        em_wf(self@)
    }

    /// An empty map.
    pub fn new() -> (m: ErrorMap)
        ensures
            m@ == ErrorEntries::empty(),
    {
        let m = ErrorMap { entries: Vec::new() };
        proof {
            assert(m@ =~= ErrorEntries::empty());
        }
        m
    }

    /// The number of keys that carry at least one error.
    pub fn len(&self) -> (n: usize)
        ensures
            n == self@.len(),
    {
        self.entries.len()
    }

    /// Whether no error has been recorded.
    pub fn is_empty(&self) -> (r: bool)
        ensures
            r == (self@.len() == 0),
    {
        self.entries.len() == 0
    }

    /// Record `value` as one more error message for `key`.
    pub fn add_error(&mut self, key: String, value: String)
        ensures
            final(self)@ == em_add(old(self)@, key@, value@),
    {
        proof {
            use_type_invariant(&*self);
        }
        let mut entries: Vec<(String, Vec<String>)> = Vec::new();
        std::mem::swap(&mut entries, &mut self.entries);
        let ghost e0 = entries@;
        let ghost v0 = e0.map_values(|p: (String, Vec<String>)| (p.0@, p.1.deep_view()));
        proof {
            assert(v0 == old(self)@);
            assert(em_wf(v0));
        }
        let n = entries.len();
        let mut i: usize = 0;
        let mut found: Option<usize> = None;
        while i < n && found.is_none()
            invariant
                n == entries@.len(),
                0 <= i <= n,
                match found {
                    Some(j) => 0 <= j < n && entries@[j as int].0@ == key@ && i == j,
                    None => forall|t: int| 0 <= t < i ==> entries@[t].0@ != key@,
                },
            decreases n - i + (if found.is_none() { 1int } else { 0int }),
        {
            if entries[i].0 == key {
                found = Some(i);
            } else {
                i += 1;
            }
        }
        match found {
            Some(j) => {
                let ghost old_msgs = e0[j as int].1.deep_view();
                let mut entry = entries.remove(j);
                entry.1.push(value);
                entries.insert(j, entry);
                proof {
                    let f = |p: (String, Vec<String>)| (p.0@, p.1.deep_view());
                    let e2 = entries@;
                    let v1 = e2.map_values(f);
                    assert(v0[j as int].0 == key@);
                    assert(em_contains_key(v0, key@));
                    assert(e2 =~= e0.update(j as int, e2[j as int]));
                    assert(e2[j as int].0@ == key@);
                    assert(e2[j as int].1.deep_view() =~= old_msgs.push(value@));
                    assert forall|t: int| 0 <= t < v1.len() implies v1[t] == em_add(
                        v0,
                        key@,
                        value@,
                    )[t] by {
                        if t != j {
                            assert(v0[t].0 != v0[j as int].0);
                            assert(v1[t] == f(e0[t]));
                        }
                    }
                    assert(v1 =~= em_add(v0, key@, value@));
                }
            },
            None => {
                let mut msgs: Vec<String> = Vec::new();
                msgs.push(value);
                entries.push((key, msgs));
                proof {
                    let v1 = entries@.map_values(
                        |p: (String, Vec<String>)| (p.0@, p.1.deep_view()),
                    );
                    assert(!em_contains_key(v0, key@));
                    assert(msgs.deep_view() =~= seq![value@]);
                    assert(v1 =~= em_add(v0, key@, value@));
                }
            },
        }
        self.entries = entries;
        proof {
            lemma_em_add_wf(v0, key@, value@);
        }
    }
}

impl ErrorMap {
    /// The messages recorded for `key`, in the order they were added, or
    /// `None` when the key never received an error.
    pub fn get(&self, key: &str) -> (r: Option<&Vec<String>>)
        ensures
            match r {
                Some(msgs) => em_contains_key(self@, key@) && msgs.deep_view() == em_get(
                    self@,
                    key@,
                ),
                None => !em_contains_key(self@, key@),
            },
    {
        proof {
            use_type_invariant(&*self);
        }
        let owned = key.to_owned();
        let n = self.entries.len();
        let mut i: usize = 0;
        while i < n
            invariant
                n == self.entries@.len(),
                0 <= i <= n,
                owned@ == key@,
                forall|t: int| 0 <= t < i ==> self.entries@[t].0@ != key@,
            decreases n - i,
        {
            if self.entries[i].0 == owned {
                proof {
                    lemma_em_get_at_first(self@, key@, i as int);
                }
                return Some(&self.entries[i].1);
            }
            i += 1;
        }
        proof {
            lemma_em_get_absent(self@, key@);
        }
        None
    }

    /// The entry at position `i` in insertion order of first appearance:
    /// the key and its messages.
    pub fn entry_at(&self, i: usize) -> (r: (&String, &Vec<String>))
        requires
            i < self@.len(),
        ensures
            r.0@ == self@[i as int].0,
            r.1.deep_view() == self@[i as int].1,
    {
        let e = &self.entries[i];
        (&e.0, &e.1)
    }

    /// Record into this map, key by key and message by message in order,
    /// every error of `other`: messages of a shared key land strictly
    /// after the ones already present.
    pub fn merge(&mut self, other: ErrorMap)
        ensures
            final(self)@ == em_merge(old(self)@, other@),
            forall|k: Seq<char>|
                #[trigger] em_get(final(self)@, k) == if em_contains_key(other@, k) {
                    em_get(old(self)@, k) + em_get(other@, k)
                } else {
                    em_get(old(self)@, k)
                },
            forall|k: Seq<char>|
                #[trigger] em_contains_key(final(self)@, k) <==> (em_contains_key(old(self)@, k)
                    || em_contains_key(other@, k)),
    {
        proof {
            use_type_invariant(&*self);
            use_type_invariant(&other);
        }
        let ghost a0 = self@;
        let ghost bv = other@;
        proof {
            assert(bv.skip(0) =~= bv);
        }
        let n = other.entries.len();
        let mut j: usize = 0;
        while j < n
            invariant
                n == other.entries@.len(),
                bv == other@,
                0 <= j <= n,
                em_merge(self@, bv.skip(j as int)) == em_merge(a0, bv),
            decreases n - j,
        {
            let entry = &other.entries[j];
            let ghost s0 = self@;
            let ghost kj = bv[j as int].0;
            let ghost mj = bv[j as int].1;
            proof {
                assert(kj == entry.0@);
                assert(mj == entry.1.deep_view());
                assert(mj.skip(0) =~= mj);
            }
            let m = entry.1.len();
            let mut t: usize = 0;
            while t < m
                invariant
                    m == entry.1@.len(),
                    0 <= t <= m,
                    kj == entry.0@,
                    mj == entry.1.deep_view(),
                    em_add_all(self@, kj, mj.skip(t as int)) == em_add_all(s0, kj, mj),
                decreases m - t,
            {
                let ghost pre = self@;
                self.add_error(entry.0.clone(), entry.1[t].clone());
                proof {
                    assert(mj.skip(t as int).first() == mj[t as int]);
                    assert(mj.skip(t as int).drop_first() =~= mj.skip(t as int + 1));
                }
                t += 1;
            }
            proof {
                assert(mj.skip(m as int) =~= Seq::<Seq<char>>::empty());
                assert(self@ == em_add_all(s0, kj, mj));
                assert(bv.skip(j as int).first() == bv[j as int]);
                assert(bv.skip(j as int).drop_first() =~= bv.skip(j as int + 1));
            }
            j += 1;
        }
        proof {
            assert(bv.skip(n as int) =~= ErrorEntries::empty());
            assert(self@ == em_merge(a0, bv));
            assert(em_wf(a0) && em_wf(bv));
            assert forall|k: Seq<char>|
                #[trigger] em_get(self@, k) == if em_contains_key(bv, k) {
                    em_get(a0, k) + em_get(bv, k)
                } else {
                    em_get(a0, k)
                } by {
                lemma_em_merge_get(a0, bv, k);
            }
            assert forall|k: Seq<char>|
                #[trigger] em_contains_key(self@, k) <==> (em_contains_key(a0, k)
                    || em_contains_key(bv, k)) by {
                lemma_em_merge_get(a0, bv, k);
            }
        }
    }
}

impl Default for ErrorMap {
    /// An empty map.
    fn default() -> (m: Self)
        ensures
            m@ == ErrorEntries::empty(),
    {
        ErrorMap::new()
    }
}

/// Recording an error keeps an entry list well formed.
pub proof fn lemma_em_add_wf(v: ErrorEntries, k: Seq<char>, msg: Seq<char>)
    requires
        em_wf(v),
    ensures
        em_wf(em_add(v, k, msg)),
{
    let out = em_add(v, k, msg);
    if em_contains_key(v, k) {
        assert forall|i: int, j: int| 0 <= i < j < out.len() implies out[i].0 != out[j].0 by {
            assert(v[i].0 != v[j].0);
        }
    }
}

/// The messages under `k` are those of its earliest entry.
pub proof fn lemma_em_get_at_first(v: ErrorEntries, k: Seq<char>, j: int)
    requires
        0 <= j < v.len(),
        v[j].0 == k,
        forall|t: int| 0 <= t < j ==> v[t].0 != k,
    ensures
        em_get(v, k) == v[j].1,
    decreases v.len(),
{
    if j > 0 {
        lemma_em_get_at_first(v.drop_first(), k, j - 1);
    }
}

/// An absent key carries no messages.
pub proof fn lemma_em_get_absent(v: ErrorEntries, k: Seq<char>)
    requires
        forall|t: int| 0 <= t < v.len() ==> v[t].0 != k,
    ensures
        em_get(v, k) == Seq::<Seq<char>>::empty(),
    decreases v.len(),
{
    if v.len() > 0 {
        lemma_em_get_absent(v.drop_first(), k);
    }
}

/// What one recorded error does to the entry list, seen through lookups:
/// the key gains the message at the end of its list, every other key is
/// untouched.
pub proof fn lemma_em_add_get(v: ErrorEntries, k: Seq<char>, msg: Seq<char>, k2: Seq<char>)
    requires
        em_wf(v),
    ensures
        em_contains_key(em_add(v, k, msg), k2) <==> (em_contains_key(v, k2) || k2 == k),
        em_get(em_add(v, k, msg), k2) == if k2 == k {
            em_get(v, k2).push(msg)
        } else {
            em_get(v, k2)
        },
{
    let out = em_add(v, k, msg);
    if em_contains_key(v, k) {
        assert(forall|t: int| 0 <= t < v.len() ==> out[t].0 == v[t].0);
        let j = choose|j: int| 0 <= j < v.len() && v[j].0 == k;
        assert forall|t: int| 0 <= t < j implies v[t].0 != k by {
            assert(v[t].0 != v[j].0);
        }
        lemma_em_get_at_first(v, k, j);
        lemma_em_get_at_first(out, k, j);
        if k2 != k {
            if em_contains_key(v, k2) {
                let j2 = choose|j2: int| 0 <= j2 < v.len() && v[j2].0 == k2;
                assert forall|t: int| 0 <= t < j2 implies v[t].0 != k2 by {
                    assert(v[t].0 != v[j2].0);
                }
                lemma_em_get_at_first(v, k2, j2);
                lemma_em_get_at_first(out, k2, j2);
            } else {
                lemma_em_get_absent(v, k2);
                lemma_em_get_absent(out, k2);
            }
        }
    } else {
        assert(out == v.push((k, seq![msg])));
        assert(forall|t: int| 0 <= t < v.len() ==> out[t] == v[t]);
        if k2 == k {
            lemma_em_get_absent(v, k);
            lemma_em_get_at_first(out, k, v.len() as int);
            assert(em_get(v, k).push(msg) =~= seq![msg]);
        } else {
            if em_contains_key(v, k2) {
                let j2 = choose|j2: int| 0 <= j2 < v.len() && v[j2].0 == k2;
                assert forall|t: int| 0 <= t < j2 implies v[t].0 != k2 by {
                    assert(v[t].0 != v[j2].0);
                }
                lemma_em_get_at_first(v, k2, j2);
                lemma_em_get_at_first(out, k2, j2);
            } else {
                lemma_em_get_absent(v, k2);
                lemma_em_get_absent(out, k2);
            }
        }
    }
}

/// What recording a whole message list under `k` does, seen through
/// lookups: the messages arrive at the end of `k`'s list, in order, and
/// every other key is untouched.
pub proof fn lemma_em_add_all_get(v: ErrorEntries, k: Seq<char>, msgs: Seq<Seq<char>>, k2: Seq<
    char,
>)
    requires
        em_wf(v),
    ensures
        em_wf(em_add_all(v, k, msgs)),
        em_contains_key(em_add_all(v, k, msgs), k2) <==> (em_contains_key(v, k2) || (msgs.len()
            > 0 && k2 == k)),
        em_get(em_add_all(v, k, msgs), k2) == if k2 == k {
            em_get(v, k2) + msgs
        } else {
            em_get(v, k2)
        },
    decreases msgs.len(),
{
    if msgs.len() == 0 {
        assert(em_get(v, k2) + msgs =~= em_get(v, k2));
    } else {
        let v1 = em_add(v, k, msgs.first());
        lemma_em_add_wf(v, k, msgs.first());
        lemma_em_add_get(v, k, msgs.first(), k2);
        lemma_em_add_get(v, k, msgs.first(), k);
        lemma_em_add_all_get(v1, k, msgs.drop_first(), k2);
        if k2 == k {
            assert(em_get(v, k).push(msgs.first()) + msgs.drop_first() =~= em_get(v, k) + msgs);
        }
    }
}

/// The entry list produced by a sequence of `add_error` calls on a map
/// that started empty: each call is a key paired with a message, in call
/// order.
pub open spec fn em_of_calls(calls: Seq<(Seq<char>, Seq<char>)>) -> ErrorEntries
    decreases calls.len(),
{
    if calls.len() == 0 {
        ErrorEntries::empty()
    } else {
        em_add(em_of_calls(calls.drop_last()), calls.last().0, calls.last().1)
    }
}

/// Law: for every sequence of `add_error` calls on a map that started
/// empty, the key set of the result equals the set of keys passed, and
/// the messages under each key are exactly the messages added for that
/// key, in call order.
pub proof fn lemma_error_map_accumulates(calls: Seq<(Seq<char>, Seq<char>)>)
    ensures
        em_wf(em_of_calls(calls)),
        forall|k: Seq<char>|
            #[trigger] em_contains_key(em_of_calls(calls), k) <==> (exists|i: int|
                0 <= i < calls.len() && (#[trigger] calls[i]).0 == k),
        forall|k: Seq<char>|
            #[trigger] em_get(em_of_calls(calls), k) == calls.filter(
                |c: (Seq<char>, Seq<char>)| c.0 == k,
            ).map_values(|c: (Seq<char>, Seq<char>)| c.1),
    decreases calls.len(),
{
    reveal(Seq::filter);
    if calls.len() == 0 {
        assert forall|k: Seq<char>|
            #[trigger] em_get(em_of_calls(calls), k) == calls.filter(
                |c: (Seq<char>, Seq<char>)| c.0 == k,
            ).map_values(|c: (Seq<char>, Seq<char>)| c.1) by {
            let p = |c: (Seq<char>, Seq<char>)| c.0 == k;
            let f = |c: (Seq<char>, Seq<char>)| c.1;
            assert(calls.filter(p).map_values(f) =~= Seq::<Seq<char>>::empty());
        }
    } else {
        let init = calls.drop_last();
        let last = calls.last();
        lemma_error_map_accumulates(init);
        let prev = em_of_calls(init);
        lemma_em_add_wf(prev, last.0, last.1);
        assert forall|k: Seq<char>|
            #[trigger] em_contains_key(em_of_calls(calls), k) <==> (exists|i: int|
                0 <= i < calls.len() && (#[trigger] calls[i]).0 == k) by {
            lemma_em_add_get(prev, last.0, last.1, k);
            if em_contains_key(prev, k) {
                let i = choose|i: int| 0 <= i < init.len() && (#[trigger] init[i]).0 == k;
                assert(calls[i].0 == k);
            } else if last.0 == k {
                assert(calls[calls.len() - 1].0 == k);
            } else {
                assert forall|i: int| 0 <= i < calls.len() implies (#[trigger] calls[i]).0 != k by {
                    if i < calls.len() - 1 {
                        assert(init[i] == calls[i]);
                    }
                }
            }
        }
        assert forall|k: Seq<char>|
            #[trigger] em_get(em_of_calls(calls), k) == calls.filter(
                |c: (Seq<char>, Seq<char>)| c.0 == k,
            ).map_values(|c: (Seq<char>, Seq<char>)| c.1) by {
            let p = |c: (Seq<char>, Seq<char>)| c.0 == k;
            let f = |c: (Seq<char>, Seq<char>)| c.1;
            lemma_em_add_get(prev, last.0, last.1, k);
            assert(calls.drop_last() == init && calls.last() == last);
            assert(em_get(prev, k) == init.filter(p).map_values(f));
            if p(last) {
                assert(calls.filter(p) == init.filter(p).push(last));
                init.filter(p).lemma_push_map_commute(f, last);
                assert(calls.filter(p).map_values(f) =~= init.filter(p).map_values(f).push(
                    last.1,
                ));
            } else {
                assert(calls.filter(p) == init.filter(p));
            }
        }
    }
}

/// What merging `b` into `a` does, seen through lookups: for a key of
/// `b`, the messages of `b` arrive strictly after any messages already in
/// `a`; any other key is untouched.
pub proof fn lemma_em_merge_get(a: ErrorEntries, b: ErrorEntries, k: Seq<char>)
    requires
        em_wf(a),
        em_wf(b),
    ensures
        em_wf(em_merge(a, b)),
        em_contains_key(em_merge(a, b), k) <==> (em_contains_key(a, k) || em_contains_key(b, k)),
        em_get(em_merge(a, b), k) == if em_contains_key(b, k) {
            em_get(a, k) + em_get(b, k)
        } else {
            em_get(a, k)
        },
    decreases b.len(),
{
    if b.len() == 0 {
    } else {
        let k0 = b.first().0;
        let m0 = b.first().1;
        let a1 = em_add_all(a, k0, m0);
        let b1 = b.drop_first();
        assert(em_wf(b1)) by {
            assert(forall|t: int| 0 <= t < b1.len() ==> b1[t] == b[t + 1]);
        }
        lemma_em_add_all_get(a, k0, m0, k);
        lemma_em_merge_get(a1, b1, k);
        assert(forall|t: int| 0 <= t < b1.len() ==> b1[t] == b[t + 1]);
        if k == k0 {
            assert(b[0].0 == k);
            assert(em_contains_key(b, k));
            assert(em_get(b, k) == m0);
            assert(!em_contains_key(b1, k)) by {
                assert forall|t: int| 0 <= t < b1.len() implies b1[t].0 != k by {
                    assert(b[0].0 != b[t + 1].0);
                }
            }
            assert(m0.len() > 0) by {
                assert(b[0].1.len() > 0);
            }
        } else {
            assert(em_get(b, k) == em_get(b1, k));
            assert(em_contains_key(b, k) <==> em_contains_key(b1, k)) by {
                if em_contains_key(b, k) {
                    let t = choose|t: int| 0 <= t < b.len() && b[t].0 == k;
                    assert(t != 0);
                    assert(b1[t - 1].0 == k);
                }
            }
        }
    }
}

/// The decimal digit character for `d`.
pub open spec fn dec_char(d: nat) -> char {
    if d == 0 {
        '0'
    } else if d == 1 {
        '1'
    } else if d == 2 {
        '2'
    } else if d == 3 {
        '3'
    } else if d == 4 {
        '4'
    } else if d == 5 {
        '5'
    } else if d == 6 {
        '6'
    } else if d == 7 {
        '7'
    } else if d == 8 {
        '8'
    } else {
        '9'
    }
}

/// The decimal digits of `n`, most significant first.
pub open spec fn dec_rep(n: nat) -> Seq<char>
    decreases n,
{
    if n < 10 {
        seq![dec_char(n)]
    } else {
        dec_rep(n / 10).push(dec_char(n % 10))
    }
}

/// The one-character string for the decimal digit `d`.
fn dec_digit(d: u8) -> (r: &'static str)
    requires
        d < 10,
    ensures
        r@ == seq![dec_char(d as nat)],
{
    if d == 0 {
        proof {
            reveal_strlit("0");
            assert("0"@ =~= seq![dec_char(0)]);
        }
        "0"
    } else if d == 1 {
        proof {
            reveal_strlit("1");
            assert("1"@ =~= seq![dec_char(1)]);
        }
        "1"
    } else if d == 2 {
        proof {
            reveal_strlit("2");
            assert("2"@ =~= seq![dec_char(2)]);
        }
        "2"
    } else if d == 3 {
        proof {
            reveal_strlit("3");
            assert("3"@ =~= seq![dec_char(3)]);
        }
        "3"
    } else if d == 4 {
        proof {
            reveal_strlit("4");
            assert("4"@ =~= seq![dec_char(4)]);
        }
        "4"
    } else if d == 5 {
        proof {
            reveal_strlit("5");
            assert("5"@ =~= seq![dec_char(5)]);
        }
        "5"
    } else if d == 6 {
        proof {
            reveal_strlit("6");
            assert("6"@ =~= seq![dec_char(6)]);
        }
        "6"
    } else if d == 7 {
        proof {
            reveal_strlit("7");
            assert("7"@ =~= seq![dec_char(7)]);
        }
        "7"
    } else if d == 8 {
        proof {
            reveal_strlit("8");
            assert("8"@ =~= seq![dec_char(8)]);
        }
        "8"
    } else {
        proof {
            reveal_strlit("9");
            assert("9"@ =~= seq![dec_char(9)]);
        }
        "9"
    }
}

/// Append the decimal digits of `n` to `out`, most significant first.
fn append_decimal(n: u16, out: &mut String)
    ensures
        final(out)@ == old(out)@ + dec_rep(n as nat),
    decreases n,
{
    if n >= 10 {
        append_decimal(n / 10, out);
    }
    let d: u8 = (n % 10) as u8;
    proof {
        assert(d as nat == n as nat % 10);
        assert((n / 10) as nat == n as nat / 10);
    }
    out.append(dec_digit(d));
    proof {
        if n >= 10 {
            assert(final(out)@ =~= old(out)@ + dec_rep(n as nat));
        } else {
            assert(final(out)@ =~= old(out)@ + dec_rep(n as nat));
        }
    }
}

/// The information the service reads from a storage-layer failure: the
/// name of the violated constraint when the storage collaborator
/// reported one, and the underlying message, kept for the server-side
/// log only.
#[derive(Debug)]
pub struct PersistenceError {
    pub constraint: Option<String>,
    pub message: String,
}

/// A request-level failure, carrying everything needed to build its
/// response.
#[derive(Debug)]
pub enum AppError {
    /// The request lacked credentials; answered with an authentication
    /// challenge.
    Unauthorized,
    /// The request body violated validation rules; the map carries one
    /// entry per invalid field.
    UnprocessableEntity(ErrorMap),
    /// The storage collaborator failed. The cause is logged on the
    /// server and never shown to the client.
    Sqlx(PersistenceError),
    /// Some other collaborator failed unexpectedly. The cause is logged
    /// on the server and never shown to the client.
    Eyre(String),
}

/// The reason phrase of the status codes this service answers with.
pub open spec fn status_title(code: u16) -> Seq<char> {
    if code == 401 {
        "Unauthorized"@
    } else if code == 422 {
        "Unprocessable Entity"@
    } else {
        "Internal Server Error"@
    }
}

impl AppError {
    /// The status code each failure maps to.
    pub open spec fn spec_status_code(&self) -> u16 {
        match self {
            AppError::Unauthorized => 401,
            AppError::UnprocessableEntity(_) => 422,
            AppError::Sqlx(_) => 500,
            AppError::Eyre(_) => 500,
        }
    }

    /// The status code each failure maps to.
    pub fn status_code(&self) -> (code: u16)
        ensures
            code == self.spec_status_code(),
    {
        match self {
            AppError::Unauthorized => 401,
            AppError::UnprocessableEntity(_) => 422,
            AppError::Sqlx(_) => 500,
            AppError::Eyre(_) => 500,
        }
    }

    /// The human-readable detail of each failure. Storage and internal
    /// failures share fixed wordings that leak nothing of the cause.
    pub open spec fn spec_detail(&self) -> Seq<char> {
        match self {
            AppError::Unauthorized => "Autenticación Requerida"@,
            AppError::UnprocessableEntity(_) => "error in the request body"@,
            AppError::Sqlx(_) => "Un error ocurrió con la base de datos."@,
            AppError::Eyre(_) => "Un error interno ocurrió en el servidor."@,
        }
    }

    /// The human-readable detail of each failure.
    pub fn detail_message(&self) -> (r: String)
        ensures
            r@ == self.spec_detail(),
    {
        match self {
            AppError::Unauthorized => "Autenticación Requerida".to_owned(),
            AppError::UnprocessableEntity(_) => "error in the request body".to_owned(),
            AppError::Sqlx(_) => "Un error ocurrió con la base de datos.".to_owned(),
            AppError::Eyre(_) => "Un error interno ocurrió en el servidor.".to_owned(),
        }
    }

    /// Build the problem-details response for this failure: the status
    /// code and its reason phrase, the reference URL for that status,
    /// the fixed detail wording, one extension entry per invalid field
    /// for a validation failure, the authentication challenge for an
    /// unauthorized request, and — apart from the body — the cause to
    /// log for a storage or internal failure.
    pub fn to_problem(self) -> (p: Problem)
        ensures
            p.status == self.spec_status_code(),
            p.title@ == status_title(self.spec_status_code()),
            p.type_url@ == "https://httpstatuses.io/"@ + dec_rep(self.spec_status_code() as nat),
            p.detail@ == self.spec_detail(),
            match self {
                AppError::Unauthorized => p.errors@ == ErrorEntries::empty() && (
                p.authenticate_challenge matches Some(c) && c@ == "Token"@) && p.log_message
                    is None,
                AppError::UnprocessableEntity(em) => p.errors == em && p.authenticate_challenge
                    is None && p.log_message is None,
                AppError::Sqlx(pe) => p.errors@ == ErrorEntries::empty()
                    && p.authenticate_challenge is None && (p.log_message matches Some(m) && m@
                    == pe.message@),
                AppError::Eyre(msg) => p.errors@ == ErrorEntries::empty()
                    && p.authenticate_challenge is None && (p.log_message matches Some(m) && m@
                    == msg@),
            },
    {
        let status = self.status_code();
        let detail = self.detail_message();
        let mut type_url = "https://httpstatuses.io/".to_owned();
        append_decimal(status, &mut type_url);
        let title = if status == 401 {
            "Unauthorized".to_owned()
        } else if status == 422 {
            "Unprocessable Entity".to_owned()
        } else {
            "Internal Server Error".to_owned()
        };
        match self {
            AppError::Unauthorized => Problem {
                status,
                title,
                type_url,
                detail,
                errors: ErrorMap::new(),
                authenticate_challenge: Some("Token".to_owned()),
                log_message: None,
            },
            AppError::UnprocessableEntity(em) => Problem {
                status,
                title,
                type_url,
                detail,
                errors: em,
                authenticate_challenge: None,
                log_message: None,
            },
            AppError::Sqlx(pe) => Problem {
                status,
                title,
                type_url,
                detail,
                errors: ErrorMap::new(),
                authenticate_challenge: None,
                log_message: Some(pe.message),
            },
            AppError::Eyre(msg) => Problem {
                status,
                title,
                type_url,
                detail,
                errors: ErrorMap::new(),
                authenticate_challenge: None,
                log_message: Some(msg),
            },
        }
    }
}

/// A problem-details response body, ready for the transport layer, plus
/// what the server should log. The cause of a storage or internal
/// failure stands only in `log_message` and is never part of the body.
pub struct Problem {
    /// The response status code.
    pub status: u16,
    /// The reason phrase of the status.
    pub title: String,
    /// The reference URL describing the status.
    pub type_url: String,
    /// The human-readable detail wording.
    pub detail: String,
    /// One extension entry per invalid field, empty except for a
    /// validation failure.
    pub errors: ErrorMap,
    /// The authentication challenge to answer an unauthorized request
    /// with.
    pub authenticate_challenge: Option<String>,
    /// The underlying cause to log at error severity; not part of the
    /// body.
    pub log_message: Option<String>,
}

/// If `r` failed because the storage collaborator reported a violated
/// constraint of the given name, remap that failure through `f` — the
/// caller's chance to turn a named constraint violation into a
/// field-level validation error. Any other value passes through
/// unchanged.
pub fn on_constraint<T, F: FnOnce(PersistenceError) -> AppError>(
    r: Result<T, AppError>,
    name: &str,
    f: F,
) -> (out: Result<T, AppError>)
    requires
        forall|e: PersistenceError| #[trigger] call_requires(f, (e,)),
    ensures
        match r {
            Ok(_) => out == r,
            Err(e) => match e {
                AppError::Sqlx(pe) => {
                    if pe.constraint matches Some(c) && c@ == name@ {
                        out matches Err(e2) && call_ensures(f, (pe,), e2)
                    } else {
                        out == r
                    }
                },
                _ => out == r,
            },
        },
{
    match r {
        Ok(v) => Ok(v),
        Err(e) => match e {
            AppError::Sqlx(pe) => {
                let name_owned = name.to_owned();
                let is_named = match &pe.constraint {
                    Some(c) => *c == name_owned,
                    None => false,
                };
                if is_named {
                    Err(f(pe))
                } else {
                    Err(AppError::Sqlx(pe))
                }
            },
            other => Err(other),
        },
    }
}

} // verus!
