//! The wall clock, read in whole seconds since the Unix epoch.

use vstd::prelude::*;

verus! {

/// Seconds since the Unix epoch, read from `std::time::SystemTime::now`.
/// Nothing is promised of the value: it is whatever the system clock says
/// (0 if the clock is set before the epoch).
#[verifier::external_body]
pub(crate) fn now_unix_secs() -> (t: u64) {
    match std::time::SystemTime::now().duration_since(std::time::UNIX_EPOCH) {
        Ok(d) => d.as_secs(),
        Err(_) => 0,
    }
}

} // verus!
