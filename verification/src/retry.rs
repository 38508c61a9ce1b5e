//! How failed steps are retried: a fixed number of attempts, with a pause
//! that grows with each failed attempt.
use vstd::prelude::*;

verus! {

/// The attempts a retried step gets.
pub const RETRY_ATTEMPTS: u32 = 3;

/// After the failed attempt number `attempt` (counted from 1): the pause
/// before the next attempt, `base_ms` times `attempt`, or `None` when that
/// was the last attempt and the step has failed.
pub fn retry_pause_ms(base_ms: u64, attempt: u32) -> (r: Option<u64>)
    requires
        base_ms * attempt <= u64::MAX,
    ensures
        r == (if attempt < RETRY_ATTEMPTS {
            Some((base_ms * attempt) as u64)
        } else {
            None::<u64>
        }),
{
    if attempt < RETRY_ATTEMPTS {
        Some(base_ms * attempt as u64)
    } else {
        None
    }
}

} // verus!
