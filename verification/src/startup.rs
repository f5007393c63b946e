//! Startup decisions. The connection pool itself is built outside the
//! library; the retry policy it follows is decided here.

use vstd::prelude::*;

verus! {

/// How many times a failed database connection is retried at startup
/// before the service gives up.
pub const MAX_CONNECT_RETRIES: u32 = 5;

/// The startup retry decision: whether one more connection attempt is
/// made after `retries` attempts have already failed.
pub fn should_retry_connect(retries: u32) -> (r: bool)
    ensures
        r == (retries < MAX_CONNECT_RETRIES),
{
    retries < MAX_CONNECT_RETRIES
}

} // verus!
