//! The periodic update loop: when to go on, when to rerun at once, when to stop.

use vstd::prelude::*;

verus! {

/// Settings of the update loop.
#[derive(Debug, Clone, Copy, PartialEq, Eq, Structural)]
pub struct LoopConfig {
    /// After this many failures in a row the loop stops.
    pub max_consecutive_failures: u8,
    /// Seconds to wait between two cycles.
    pub update_interval_secs: u64,
}

impl Default for LoopConfig {
    /// Three failures in a row, five minutes between cycles.
    fn default() -> (config: LoopConfig)
        ensures
            config.max_consecutive_failures == 3,
            config.update_interval_secs == 300,
    {
        LoopConfig { max_consecutive_failures: 3, update_interval_secs: 300 }
    }
}

/// What the loop does once a cycle has run.
#[derive(Debug, Clone, Copy, PartialEq, Eq, Structural)]
pub enum AfterCycle {
    /// Go on, with this many failures in a row so far.
    Continue(u8),
    /// Stop: the limit of failures in a row was reached.
    Stop,
}

/// What the loop does once the monitors have been checked.
#[derive(Debug, Clone, Copy, PartialEq, Eq, Structural)]
pub enum AfterMonitorCheck {
    /// The monitors changed: run the next cycle at once.
    RunNow,
    /// Wait this many seconds, then run the next cycle.
    SleepSeconds(u64),
}

/// The loop's state after a cycle: the failures in a row, or `None` once it stopped.
pub open spec fn next_state(failures: int, succeeded: bool, max: int) -> Option<int> {
    if succeeded {
        Some(0)
    } else if failures + 1 >= max {
        None
    } else {
        Some(failures + 1)
    }
}

/// The loop's state after a sequence of cycle outcomes (`true` for success), from a
/// fresh start; `None` once it stopped.
pub open spec fn loop_state(outcomes: Seq<bool>, max: int) -> Option<int>
    decreases outcomes.len(),
{
    if outcomes.len() == 0 {
        Some(0)
    } else {
        match loop_state(outcomes.drop_last(), max) {
            None => None,
            Some(failures) => next_state(failures, outcomes.last(), max),
        }
    }
}

/// The number of failures at the end of a sequence of outcomes.
pub open spec fn trailing_failures(outcomes: Seq<bool>) -> int
    decreases outcomes.len(),
{
    if outcomes.len() == 0 || outcomes.last() {
        0
    } else {
        1 + trailing_failures(outcomes.drop_last())
    }
}

/// Drives the update cycles.
#[derive(Debug, Clone, Copy)]
pub struct UpdateLoop;

impl UpdateLoop {
    /// The decision after a cycle that ran with `failures` failures in a row before it:
    /// a success resets the count; a failure adds one, and stops the loop when the count
    /// reaches the limit.
    pub fn after_cycle(&self, config: &LoopConfig, failures: u8, succeeded: bool) -> (next:
        AfterCycle)
        requires
            failures == 0 || failures < config.max_consecutive_failures,
        ensures
            next_state(failures as int, succeeded, config.max_consecutive_failures as int) == (
            match next {
                AfterCycle::Continue(f) => Some(f as int),
                AfterCycle::Stop => None,
            }),
            next matches AfterCycle::Continue(f) ==> (f == 0 || f
                < config.max_consecutive_failures),
    {
        if succeeded {
            AfterCycle::Continue(0)
        } else {
            let count = failures + 1;
            if count >= config.max_consecutive_failures {
                AfterCycle::Stop
            } else {
                AfterCycle::Continue(count)
            }
        }
    }

    /// The decision after the monitors were checked: at once when they changed, else
    /// after the update interval.
    pub fn after_monitor_check(&self, config: &LoopConfig, monitors_changed: bool) -> (next:
        AfterMonitorCheck)
        ensures
            monitors_changed ==> next == AfterMonitorCheck::RunNow,
            !monitors_changed ==> next == AfterMonitorCheck::SleepSeconds(
                config.update_interval_secs,
            ),
    {
        if monitors_changed {
            AfterMonitorCheck::RunNow
        } else {
            AfterMonitorCheck::SleepSeconds(config.update_interval_secs)
        }
    }
}

/// While the loop runs, its count is the number of failures at the end of the outcomes:
/// a success resets it.
pub proof fn lemma_count_is_trailing_failures(outcomes: Seq<bool>, max: int)
    requires
        loop_state(outcomes, max) is Some,
    ensures
        loop_state(outcomes, max) == Some(trailing_failures(outcomes)),
        trailing_failures(outcomes) == 0 || trailing_failures(outcomes) < max,
    decreases outcomes.len(),
{
    if outcomes.len() > 0 {
        lemma_count_is_trailing_failures(outcomes.drop_last(), max);
    }
}

/// The loop stops exactly at the outcome that completes `max` failures in a row.
pub proof fn lemma_stops_at_limit(outcomes: Seq<bool>, max: int)
    requires
        loop_state(outcomes.drop_last(), max) is Some,
        outcomes.len() > 0,
        max >= 1,
    ensures
        (loop_state(outcomes, max) is None) <==> (trailing_failures(outcomes) >= max),
{
    lemma_count_is_trailing_failures(outcomes.drop_last(), max);
}

/// From a fresh start, `n` failures in a row leave the loop running with count `n` while
/// `n` is below the limit, and stop it when `n` reaches the limit.
pub proof fn lemma_consecutive_failures(n: nat, max: int)
    requires
        max >= 1,
        n <= max,
    ensures
        n < max ==> loop_state(Seq::new(n, |i: int| false), max) == Some(n as int),
        n == max ==> loop_state(Seq::new(n, |i: int| false), max) is None,
    decreases n,
{
    if n > 0 {
        lemma_consecutive_failures((n - 1) as nat, max);
        assert(Seq::new(n, |i: int| false).drop_last() =~= Seq::new((n - 1) as nat, |i: int| false));
    }
}

} // verus!
