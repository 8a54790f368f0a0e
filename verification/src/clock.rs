//! The wall clock, behind a trusted wrapper. Nothing downstream may
//! assume anything about the value it returns.

use vstd::prelude::*;

verus! {

/// Relies on `std::time::SystemTime::now`: seconds since the Unix epoch,
/// zero should the machine clock sit before it. Nothing is assumed about
/// the value.
#[verifier::external_body]
pub fn current_timestamp() -> u64 {
    match std::time::SystemTime::now().duration_since(std::time::UNIX_EPOCH) {
        Ok(elapsed) => elapsed.as_secs(),
        Err(_) => 0,
    }
}

} // verus!
