//! The time stamps of messages.
use crate::outside::elapsed_since_epoch;
use vstd::prelude::*;

verus! {

/// The whole seconds of a reading of the clock. A clock that stands before 1970 reads as 0.
pub fn whole_seconds(elapsed: Option<(u64, u32)>) -> (secs: u64)
    ensures
        secs == match elapsed {
            Some((secs, _)) => secs,
            None => 0,
        },
{
    match elapsed {
        Some((secs, _)) => secs,
        None => 0,
    }
}

/// The seconds since 1970 by the system clock, 0 where it stands before that.
///
/// The clock may show anything, so no clause says which number comes back.
pub fn now_secs() -> (secs: u64) {
    whole_seconds(elapsed_since_epoch())
}

} // verus!
