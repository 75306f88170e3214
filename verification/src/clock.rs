//! The present time.

use vstd::prelude::*;

verus! {

/// `std::time::SystemTime::elapsed` on the Unix epoch: the whole seconds
/// since the epoch, `None` where the clock stands before it. Nothing more is
/// said of the result: it is what the clock shows.
#[verifier::external_body]
pub(crate) fn unix_seconds() -> Option<u64> {
    std::time::UNIX_EPOCH.elapsed().ok().map(|elapsed| elapsed.as_secs())
}

} // verus!
