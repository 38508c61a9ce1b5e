//! Events sent to the interface while an optimization runs.
use vstd::prelude::*;
use crate::text::copy_str;

verus! {

/// Progress of an optimization: step `value` of `total`, named `step`.
#[derive(Debug, Clone)]
pub struct ProgressEvent {
    pub value: u8,
    pub total: u8,
    pub step: String,
}

/// The name of the progress event.
pub fn progress_event_name() -> (r: &'static str)
    ensures
        r@ == "tmc://opt_progress"@,
{
    "tmc://opt_progress"
}

/// The name of the event sent when an optimization ends.
pub fn done_event_name() -> (r: &'static str)
    ensures
        r@ == "tmc://opt_done"@,
{
    "tmc://opt_done"
}

/// The progress event for a step.
pub fn progress_event(value: u8, total: u8, step: &str) -> (r: ProgressEvent)
    ensures
        r.value == value,
        r.total == total,
        r.step@ == step@,
{
    ProgressEvent { value, total, step: copy_str(step) }
}

} // verus!
