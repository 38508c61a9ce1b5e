//! Automatic optimization: every few seconds the background loop asks
//! whether a scheduled run is due, or whether free memory fell under the
//! threshold (with a five-minute cooldown), and how long to wait next.
//!
//! The loop itself (sleeping, reading the clock and the memory counters,
//! starting the runs) belongs to the caller.
use vstd::prelude::*;

verus! {

/// What a check of the background loop starts.
#[derive(Clone, Copy, Debug, PartialEq, Eq, Structural)]
pub enum AutoAction {
    Nothing,
    Scheduled,
    LowMemory,
}

/// Seconds between two low-memory runs at least.
pub open spec fn low_memory_cooldown() -> u64 {
    300
}

/// The shortest wait between checks, in seconds.
pub open spec fn min_check_interval() -> u64 {
    30
}

/// The longest wait between checks, in seconds.
pub open spec fn max_check_interval() -> u64 {
    120
}

/// A scheduled run is due: scheduling is on and at least the configured
/// number of whole hours passed since the last one.
pub open spec fn spec_scheduled_due(interval_hours: u32, secs_since_last: u64) -> bool {
    interval_hours > 0 && secs_since_last / 3600 >= interval_hours
}

/// Whether a scheduled run is due (see `spec_scheduled_due`).
pub fn scheduled_due(interval_hours: u32, secs_since_last: u64) -> (r: bool)
    ensures
        r == spec_scheduled_due(interval_hours, secs_since_last),
{
    interval_hours > 0 && secs_since_last / 3600 >= interval_hours as u64
}

/// Whether free memory has to be read in this check: the low-memory
/// trigger is on and no scheduled run was started.
pub fn wants_memory_reading(free_threshold: u8, scheduled_started: bool) -> (r: bool)
    ensures
        r == (free_threshold > 0 && !scheduled_started),
{
    free_threshold > 0 && !scheduled_started
}

/// The state the background loop keeps between checks.
#[derive(Clone, Copy, Debug, PartialEq, Eq, Structural)]
pub struct AutoOptimizer {
    /// Seconds to wait before the next check.
    pub check_interval_secs: u64,
}

/// The wait is within its bounds.
pub open spec fn interval_ok(s: AutoOptimizer) -> bool {
    min_check_interval() <= s.check_interval_secs <= max_check_interval()
}

impl AutoOptimizer {
    /// The state before the first check: checks every 30 seconds.
    pub fn new() -> (r: AutoOptimizer)
        ensures
            r.check_interval_secs == 30,
            interval_ok(r),
    {
        AutoOptimizer { check_interval_secs: 30 }
    }

    /// Reacts to a reading of free memory: under the threshold the checks
    /// become frequent (30 s) and a run starts when the cooldown is over;
    /// otherwise they slow down (60 s). Returns whether a run starts.
    pub fn low_memory_check(&mut self, free_threshold: u8, free_percent: u8, secs_since_last: u64) -> (r: bool)
        ensures
            r == (free_percent < free_threshold && secs_since_last >= low_memory_cooldown()),
            final(self).check_interval_secs == (if free_percent < free_threshold { 30u64 } else { 60u64 }),
    {
        if free_percent < free_threshold {
            self.check_interval_secs = 30;
            secs_since_last >= 300
        } else {
            self.check_interval_secs = 60;
            false
        }
    }

    /// Ends a check: after a run the next check comes in 30 seconds,
    /// otherwise the wait grows by 10 seconds up to 120.
    pub fn finish_check(&mut self, action_taken: bool)
        requires
            interval_ok(*old(self)),
        ensures
            final(self).check_interval_secs == (if action_taken {
                30
            } else if old(self).check_interval_secs + 10 < 120 {
                (old(self).check_interval_secs + 10) as u64
            } else {
                120
            }),
            interval_ok(*final(self)),
    {
        if action_taken {
            self.check_interval_secs = 30;
        } else {
            let next = self.check_interval_secs + 10;
            self.check_interval_secs = if next < 120 { next } else { 120 };
        }
    }

    /// One whole check: decides the run to start from the configuration,
    /// the time since the last runs and (when it was read) the free memory,
    /// then sets the next wait.
    pub fn check(
        &mut self,
        interval_hours: u32,
        free_threshold: u8,
        secs_since_scheduled: u64,
        secs_since_low_memory: u64,
        free_percent: Option<u8>,
    ) -> (r: AutoAction)
        requires
            interval_ok(*old(self)),
        ensures
            r == tick_action(interval_hours, free_threshold, secs_since_scheduled, secs_since_low_memory, free_percent),
            final(self).check_interval_secs == tick_interval(
                old(self).check_interval_secs,
                interval_hours,
                free_threshold,
                secs_since_scheduled,
                secs_since_low_memory,
                free_percent,
            ),
            interval_ok(*final(self)),
    {
        let mut action = AutoAction::Nothing;
        if scheduled_due(interval_hours, secs_since_scheduled) {
            action = AutoAction::Scheduled;
        }
        if wants_memory_reading(free_threshold, action == AutoAction::Scheduled) {
            if let Some(free) = free_percent {
                if self.low_memory_check(free_threshold, free, secs_since_low_memory) {
                    action = AutoAction::LowMemory;
                }
            }
        }
        let taken = action != AutoAction::Nothing;
        self.finish_check(taken);
        action
    }
}

/// The run a check starts: a due scheduled run first; else, when free
/// memory was read and is under the threshold, a low-memory run once the
/// cooldown is over.
pub open spec fn tick_action(
    interval_hours: u32,
    free_threshold: u8,
    secs_since_scheduled: u64,
    secs_since_low_memory: u64,
    free_percent: Option<u8>,
) -> AutoAction {
    if spec_scheduled_due(interval_hours, secs_since_scheduled) {
        AutoAction::Scheduled
    } else if free_threshold > 0 && (match free_percent {
        Some(f) => f < free_threshold,
        None => false,
    }) && secs_since_low_memory >= low_memory_cooldown() {
        AutoAction::LowMemory
    } else {
        AutoAction::Nothing
    }
}

/// The wait after a check.
pub open spec fn tick_interval(
    before: u64,
    interval_hours: u32,
    free_threshold: u8,
    secs_since_scheduled: u64,
    secs_since_low_memory: u64,
    free_percent: Option<u8>,
) -> u64 {
    if tick_action(interval_hours, free_threshold, secs_since_scheduled, secs_since_low_memory, free_percent)
        != AutoAction::Nothing {
        30
    } else {
        let base: u64 = if free_threshold > 0 && !spec_scheduled_due(interval_hours, secs_since_scheduled) {
            match free_percent {
                Some(f) => if f < free_threshold { 30 } else { 60 },
                None => before,
            }
        } else {
            before
        };
        if base + 10 < 120 { (base + 10) as u64 } else { 120 }
    }
}

/// Two low-memory runs are at least the cooldown apart, and a check never
/// starts both kinds of run: a low-memory run needs the cooldown to be over
/// and no scheduled run to be due.
pub proof fn lemma_low_memory_runs_spaced(
    interval_hours: u32,
    free_threshold: u8,
    secs_since_scheduled: u64,
    secs_since_low_memory: u64,
    free_percent: Option<u8>,
)
    ensures
        tick_action(interval_hours, free_threshold, secs_since_scheduled, secs_since_low_memory, free_percent)
            == AutoAction::LowMemory ==> secs_since_low_memory >= low_memory_cooldown()
            && !spec_scheduled_due(interval_hours, secs_since_scheduled),
        free_threshold == 0 ==> tick_action(
            interval_hours,
            free_threshold,
            secs_since_scheduled,
            secs_since_low_memory,
            free_percent,
        ) != AutoAction::LowMemory,
        interval_hours == 0 ==> tick_action(
            interval_hours,
            free_threshold,
            secs_since_scheduled,
            secs_since_low_memory,
            free_percent,
        ) != AutoAction::Scheduled,
{
}

/// A check starts a scheduled run exactly when scheduling is on and at
/// least the configured number of whole hours (3600 seconds each) passed
/// since the last one, whatever the free memory; a low-memory run needs a
/// reading under the threshold, the cooldown over, and no scheduled run due.
pub proof fn lemma_check_decides_by_hours(
    interval_hours: u32,
    free_threshold: u8,
    secs_since_scheduled: u64,
    secs_since_low_memory: u64,
    free_percent: Option<u8>,
)
    ensures
        (tick_action(interval_hours, free_threshold, secs_since_scheduled, secs_since_low_memory, free_percent)
            == AutoAction::Scheduled) <==> (interval_hours > 0 && secs_since_scheduled >= interval_hours
            * 3600),
        tick_action(interval_hours, free_threshold, secs_since_scheduled, secs_since_low_memory, free_percent)
            == AutoAction::LowMemory <==> ({
            &&& !(interval_hours > 0 && secs_since_scheduled >= interval_hours * 3600)
            &&& free_percent matches Some(f) && f < free_threshold
            &&& secs_since_low_memory >= 300
        }),
{
    let h = interval_hours as int;
    let s = secs_since_scheduled as int;
    assert(s / 3600 >= h <==> s >= h * 3600) by (nonlinear_arith)
        requires
            s >= 0,
            h >= 0,
    ;
}

} // verus!
