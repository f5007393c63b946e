//! The runtime environment of the service and the decisions the
//! configuration layer takes. Reading configuration files and
//! environment variables happens outside the library; the parsing and
//! the choices live here.

use vstd::prelude::*;
use vstd::string::StringExecFns;

verus! {

/// The possible runtime environments of the service.
#[derive(Clone, Copy, PartialEq, Eq, Structural, Debug)]
pub enum Environment {
    Local,
    Production,
}

/// The name of each environment, as the configuration files use it.
pub open spec fn spec_environment_name(e: Environment) -> Seq<char> {
    match e {
        Environment::Local => "local"@,
        Environment::Production => "production"@,
    }
}

/// The character sequence `str::to_lowercase` produces for `s`.
pub uninterp spec fn lower_of(s: Seq<char>) -> Seq<char>;

/// Relies on str::to_lowercase: the result depends on the characters
/// alone.
#[verifier::external_body]
fn to_lowercase(s: &str) -> (r: String)
    ensures
        r@ == lower_of(s@),
{
    s.to_lowercase()
}

impl Environment {
    /// The name of this environment.
    pub fn as_str(&self) -> (r: &'static str)
        ensures
            r@ == spec_environment_name(*self),
    {
        match self {
            Environment::Local => "local",
            Environment::Production => "production",
        }
    }

    /// Parse a canonical, lower-case environment name.
    pub fn from_canonical(name: &str) -> (r: Option<Environment>)
        ensures
            name@ == "local"@ ==> r == Some(Environment::Local),
            name@ == "production"@ ==> r == Some(Environment::Production),
            name@ != "local"@ && name@ != "production"@ ==> r is None,
    {
        proof {
            reveal_strlit("local");
            reveal_strlit("production");
            assert("local"@.len() != "production"@.len());
        }
        let owned = name.to_owned();
        if owned == "local".to_owned() {
            Some(Environment::Local)
        } else if owned == "production".to_owned() {
            Some(Environment::Production)
        } else {
            None
        }
    }

    /// Parse an environment name without regard to case: the name is
    /// lower-cased first. An unsupported name is rejected with the
    /// wording the service reports.
    pub fn try_from(s: String) -> (r: Result<Environment, String>)
        ensures
            lower_of(s@) == "local"@ ==> r == Ok::<Environment, String>(Environment::Local),
            lower_of(s@) == "production"@ ==> r == Ok::<Environment, String>(
                Environment::Production,
            ),
            lower_of(s@) != "local"@ && lower_of(s@) != "production"@ ==> (r matches Err(m) && m@
                == lower_of(s@) + " is not a supported environment. Use either `local` or `production`"@),
    {
        let lowered = to_lowercase(s.as_str());
        match Environment::from_canonical(lowered.as_str()) {
            Some(e) => Ok(e),
            None => Err(
                lowered.concat(" is not a supported environment. Use either `local` or `production`"),
            ),
        }
    }
}

/// How strongly a database connection insists on transport security.
#[derive(Clone, Copy, PartialEq, Eq, Structural, Debug)]
pub enum SslMode {
    /// The connection must be encrypted.
    Require,
    /// Encryption is attempted but an unencrypted connection is
    /// accepted.
    Prefer,
}

/// The transport-security mode of a database connection: required
/// exactly when the configuration demands it, otherwise preferred but
/// optional.
pub fn ssl_mode_for(require_ssl: bool) -> (r: SslMode)
    ensures
        r == (if require_ssl {
            SslMode::Require
        } else {
            SslMode::Prefer
        }),
{
    if require_ssl {
        SslMode::Require
    } else {
        SslMode::Prefer
    }
}

} // verus!
