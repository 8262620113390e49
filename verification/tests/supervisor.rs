use retrier::config::RunConfig;
use retrier::machine::Event;
use retrier::machine::LogEvent;
use retrier::machine::Op;
use retrier::machine::Supervisor;

fn config(attempts: u32, delay_ns: u64, multiplier: u32, quiet: bool) -> RunConfig {
    RunConfig {
        attempts,
        initial_delay_ns: delay_ns,
        delay_multiplier: multiplier,
        quiet,
        command: vec!["false".to_string()],
    }
}

/// Drives a run in which every spawn succeeds and every child exits with
/// `code`, and every backoff sleep runs to completion. Returns the number of
/// spawns, the sleep durations in order, the narrated events in order, and
/// the final exit code.
fn drive_always_failing(cfg: RunConfig, code: i32) -> (u32, Vec<u64>, Vec<LogEvent>, i32) {
    let mut sup = Supervisor::new(cfg);
    let mut spawns: u32 = 0;
    let mut sleeps: Vec<u64> = Vec::new();
    let mut logs: Vec<LogEvent> = Vec::new();
    loop {
        let event = match sup.next_op() {
            Op::Spawn => {
                spawns += 1;
                Event::SpawnSucceeded
            }
            Op::AwaitChild => Event::ChildFailed(code),
            Op::Sleep(ns) => {
                sleeps.push(ns);
                Event::SleepCompleted
            }
            Op::Finished(exit) => return (spawns, sleeps, logs, exit),
        };
        let effect = sup.step(event);
        assert_eq!(effect.forward_signal, None);
        if let Some(ev) = effect.log {
            logs.push(ev);
        }
    }
}

#[test]
fn always_failing_command_spawns_once_per_attempt() {
    // attempts=3, delay=1s, multiplier=2, command always exits 7:
    // three spawns, backoffs of 1s then 2s, final exit code 7.
    let (spawns, sleeps, logs, exit) = drive_always_failing(
        config(3, 1_000_000_000, 2, false),
        7,
    );
    assert_eq!(spawns, 3);
    assert_eq!(sleeps, vec![1_000_000_000, 2_000_000_000]);
    assert_eq!(exit, 7);
    assert_eq!(
        logs,
        vec![
            LogEvent::Retrying { code: 7, attempt: 1, delay_ns: 1_000_000_000 },
            LogEvent::Retrying { code: 7, attempt: 2, delay_ns: 2_000_000_000 },
            LogEvent::MaxAttemptsReached { code: 7, attempts: 3 },
        ]
    );
}

#[test]
fn single_attempt_failure_reports_its_code() {
    let (spawns, sleeps, logs, exit) = drive_always_failing(config(1, 1_000_000_000, 1, false), 9);
    assert_eq!(spawns, 1);
    assert!(sleeps.is_empty());
    assert_eq!(exit, 9);
    assert_eq!(logs, vec![LogEvent::MaxAttemptsReached { code: 9, attempts: 1 }]);
}

#[test]
fn immediate_success_spawns_once_without_backoff_or_logging() {
    // attempts=1, command exits 0: one spawn, exit code 0, nothing narrated.
    let mut sup = Supervisor::new(config(1, 1_000_000_000, 1, false));
    assert_eq!(sup.next_op(), Op::Spawn);
    let effect = sup.step(Event::SpawnSucceeded);
    assert_eq!(effect.log, None);
    assert_eq!(sup.next_op(), Op::AwaitChild);
    let effect = sup.step(Event::ChildSucceeded);
    assert_eq!(effect.log, None);
    assert_eq!(effect.forward_signal, None);
    assert_eq!(sup.next_op(), Op::Finished(0));
}

#[test]
fn success_on_second_attempt_spawns_twice_and_exits_zero() {
    let mut sup = Supervisor::new(config(5, 10, 3, false));
    let mut spawns: u32 = 0;
    let mut first_wait = true;
    loop {
        let event = match sup.next_op() {
            Op::Spawn => {
                spawns += 1;
                Event::SpawnSucceeded
            }
            Op::AwaitChild => {
                if first_wait {
                    first_wait = false;
                    Event::ChildFailed(2)
                } else {
                    Event::ChildSucceeded
                }
            }
            Op::Sleep(_) => Event::SleepCompleted,
            Op::Finished(exit) => {
                assert_eq!(exit, 0);
                break;
            }
        };
        sup.step(event);
    }
    assert_eq!(spawns, 2);
}

#[test]
fn spawn_failure_ends_the_run_with_sentinel_and_is_always_reported() {
    let mut sup = Supervisor::new(config(5, 1_000, 2, true));
    assert_eq!(sup.next_op(), Op::Spawn);
    let effect = sup.step(Event::SpawnFailed);
    assert_eq!(effect.log, Some(LogEvent::SpawnFailure));
    // Reported even in quiet mode.
    assert!(Supervisor::should_emit(true, &LogEvent::SpawnFailure));
    assert!(Supervisor::should_emit(false, &LogEvent::SpawnFailure));
    // No retries: the run is over with the fixed sentinel.
    assert_eq!(sup.next_op(), Op::Finished(1));
}

#[test]
fn wait_failure_ends_the_run_with_sentinel_and_is_always_reported() {
    let mut sup = Supervisor::new(config(5, 1_000, 2, true));
    sup.step(Event::SpawnSucceeded);
    let effect = sup.step(Event::WaitFailed);
    assert_eq!(effect.log, Some(LogEvent::WaitFailure));
    assert!(Supervisor::should_emit(true, &LogEvent::WaitFailure));
    assert_eq!(sup.next_op(), Op::Finished(1));
}

#[test]
fn signal_while_running_is_forwarded_and_stops_retries() {
    // Plenty of budget left, yet the signal ends the run once the child exits.
    let mut sup = Supervisor::new(config(10, 1_000, 2, false));
    sup.step(Event::SpawnSucceeded);
    assert_eq!(sup.next_op(), Op::AwaitChild);
    let effect = sup.step(Event::SignalReceived(15));
    assert_eq!(effect.forward_signal, Some(15));
    // Still waiting on the same child, not spawning a new one.
    assert_eq!(sup.next_op(), Op::AwaitChild);
    let effect = sup.step(Event::ChildFailed(3));
    assert_eq!(effect.log, Some(LogEvent::FailedWhileStopping { code: 3 }));
    assert_eq!(sup.next_op(), Op::Finished(3));
}

#[test]
fn every_signal_is_forwarded_only_the_first_sets_stop() {
    let mut sup = Supervisor::new(config(10, 1_000, 2, false));
    sup.step(Event::SpawnSucceeded);
    let first = sup.step(Event::SignalReceived(2));
    assert_eq!(first.forward_signal, Some(2));
    let second = sup.step(Event::SignalReceived(15));
    assert_eq!(second.forward_signal, Some(15));
    assert_eq!(sup.next_op(), Op::AwaitChild);
    sup.step(Event::ChildFailed(130));
    assert_eq!(sup.next_op(), Op::Finished(130));
}

#[test]
fn success_wins_even_after_a_signal_was_forwarded() {
    let mut sup = Supervisor::new(config(10, 1_000, 2, false));
    sup.step(Event::SpawnSucceeded);
    sup.step(Event::SignalReceived(1));
    let effect = sup.step(Event::ChildSucceeded);
    assert_eq!(effect.log, None);
    assert_eq!(sup.next_op(), Op::Finished(0));
}

#[test]
fn signal_during_backoff_ends_the_run_with_last_code() {
    let mut sup = Supervisor::new(config(3, 1_000, 2, false));
    sup.step(Event::SpawnSucceeded);
    sup.step(Event::ChildFailed(5));
    assert_eq!(sup.next_op(), Op::Sleep(1_000));
    let effect = sup.step(Event::SleepInterrupted);
    assert_eq!(effect.log, Some(LogEvent::StoppedDuringSleep { completed_attempts: 1 }));
    // The next attempt never starts; the last recorded code comes out.
    assert_eq!(sup.next_op(), Op::Finished(5));
}

#[test]
fn child_without_reportable_code_counts_as_fallback_failure() {
    let mut sup = Supervisor::new(config(1, 1_000, 2, false));
    sup.step(Event::SpawnSucceeded);
    let effect = sup.step(Event::ChildFailedNoCode);
    assert_eq!(effect.log, Some(LogEvent::MaxAttemptsReached { code: 1, attempts: 1 }));
    assert_eq!(sup.next_op(), Op::Finished(1));
}

#[test]
fn quiet_mode_gates_narration_but_not_failure_reports() {
    let narrated = [
        LogEvent::FailedWhileStopping { code: 4 },
        LogEvent::Retrying { code: 4, attempt: 1, delay_ns: 10 },
        LogEvent::StoppedDuringSleep { completed_attempts: 2 },
        LogEvent::MaxAttemptsReached { code: 4, attempts: 3 },
    ];
    for ev in narrated {
        assert!(!Supervisor::should_emit(true, &ev));
        assert!(Supervisor::should_emit(false, &ev));
    }
    for ev in [LogEvent::SpawnFailure, LogEvent::WaitFailure] {
        assert!(Supervisor::should_emit(true, &ev));
        assert!(Supervisor::should_emit(false, &ev));
    }
}
