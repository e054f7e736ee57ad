use dwall::update_loop::{AfterCycle, AfterMonitorCheck, LoopConfig, UpdateLoop};

#[test]
fn loop_config_default() {
    let config = LoopConfig::default();
    assert_eq!(config.max_consecutive_failures, 3);
    assert_eq!(config.update_interval_secs, 300);
}

#[test]
fn success_resets_the_failure_count() {
    let config = LoopConfig::default();
    assert_eq!(UpdateLoop.after_cycle(&config, 2, true), AfterCycle::Continue(0));
}

#[test]
fn loop_stops_after_three_failures_in_a_row() {
    let config = LoopConfig::default();
    let mut failures = 0;
    let mut outcome = AfterCycle::Continue(0);
    for _ in 0..3 {
        outcome = UpdateLoop.after_cycle(&config, failures, false);
        if let AfterCycle::Continue(f) = outcome {
            failures = f;
        }
    }
    assert_eq!(outcome, AfterCycle::Stop);
    assert_eq!(failures, 2);
}

#[test]
fn interleaved_success_keeps_the_loop_running() {
    let config = LoopConfig::default();
    let mut failures = 0;
    for succeeded in [false, false, true, false, false, true] {
        match UpdateLoop.after_cycle(&config, failures, succeeded) {
            AfterCycle::Continue(f) => failures = f,
            AfterCycle::Stop => panic!("stopped early"),
        }
    }
    assert_eq!(failures, 0);
}

#[test]
fn zero_limit_stops_at_the_first_failure() {
    let config = LoopConfig { max_consecutive_failures: 0, update_interval_secs: 5 };
    assert_eq!(UpdateLoop.after_cycle(&config, 0, false), AfterCycle::Stop);
}

#[test]
fn monitor_change_reruns_at_once() {
    let config = LoopConfig { max_consecutive_failures: 3, update_interval_secs: 42 };
    assert_eq!(UpdateLoop.after_monitor_check(&config, true), AfterMonitorCheck::RunNow);
    assert_eq!(UpdateLoop.after_monitor_check(&config, false), AfterMonitorCheck::SleepSeconds(42));
}
