//! The wall clock, read as whole seconds since the Unix epoch.

use vstd::prelude::*;

verus! {

/// Relies on std's `SystemTime::elapsed`, applied to `UNIX_EPOCH`: the time
/// since the epoch, or an error when the clock reads earlier than the epoch.
#[verifier::external_body]
pub(crate) fn unix_seconds_now() -> (r: Option<u64>) {
    std::time::UNIX_EPOCH.elapsed().ok().map(|d| d.as_secs())
}

} // verus!
