//! The wall clock.

use vstd::prelude::*;

verus! {

/// Reads the clock by `chrono::Utc::now` and gives its `timestamp`: whole
/// seconds since the Unix epoch. Each call may give another time; all that is
/// claimed is that it is not before the epoch, since `Utc::now` does not
/// return where the system clock reads earlier.
#[verifier::external_body]
pub(crate) fn current_timestamp() -> (r: i64)
    ensures
        0 <= r,
{
    chrono::Utc::now().timestamp()
}

} // verus!
