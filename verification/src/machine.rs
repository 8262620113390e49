//! The supervision state machine: the decision core of the retry loop.
//!
//! The machine performs no operation itself. The embedding program repeatedly
//! asks [`Supervisor::next_op`] what to do, performs that operation (spawn,
//! wait-or-signal race, interruptible sleep), and reports how it resolved
//! through [`Supervisor::step`]. Every decision — whether to retry, when to
//! give up, what exit code to report, which signal to forward, what to
//! narrate — is made here.

use crate::config::RunConfig;
use crate::delay::sat_mul;
use crate::delay::saturating_mul;
use vstd::prelude::*;

verus! {

/// Exit code of the whole run when the command could not be spawned or when
/// waiting on the child itself failed; also recorded as a child's exit code
/// when it terminated unsuccessfully without a reportable one (for example,
/// killed by an unhandled signal), and the value reported when the run is
/// stopped before any attempt produced a real code.
pub const FALLBACK_EXIT_CODE: i32 = 1;

/// Where the machine stands between operations.
#[derive(Clone, Copy, Debug, PartialEq, Eq, Structural)]
pub enum Phase {
    /// Ready to start the next attempt; the pending operation is a spawn.
    Idle,
    /// A child is running; the pending operation is the race between its
    /// termination and the next incoming signal.
    Running,
    /// Between attempts; the pending operation is the interruptible sleep.
    Backoff,
    /// The run is over; the pending operation reports the exit code.
    Done,
}

/// How the pending operation resolved. Produced by the embedding program,
/// consumed by [`Supervisor::step`].
#[derive(Clone, Copy, Debug, PartialEq, Eq, Structural)]
pub enum Event {
    /// The spawn succeeded; a child is now running.
    SpawnSucceeded,
    /// The spawn failed (command not found, permission denied, ...).
    SpawnFailed,
    /// The child terminated successfully.
    ChildSucceeded,
    /// The child terminated unsuccessfully with the given exit code.
    ChildFailed(i32),
    /// The child terminated unsuccessfully without a reportable exit code
    /// (for example, killed by an unhandled signal).
    ChildFailedNoCode,
    /// Waiting on the child itself failed.
    WaitFailed,
    /// A termination-class signal arrived, identified by its OS number.
    SignalReceived(i32),
    /// The backoff sleep ran to completion.
    SleepCompleted,
    /// A termination-class signal arrived during the backoff sleep.
    SleepInterrupted,
}

/// The operation the embedding program must perform next.
#[derive(Clone, Copy, Debug, PartialEq, Eq, Structural)]
pub enum Op {
    /// Spawn the configured command.
    Spawn,
    /// Race the running child's termination against the next signal.
    AwaitChild,
    /// Sleep for the given number of nanoseconds, or until a signal arrives.
    Sleep(u64),
    /// The run is over with this process exit code.
    Finished(i32),
}

/// A line of narration the machine asks the embedding program to emit.
/// Wording and formatting belong to the embedder; the machine only records
/// what happened. Each event is gated through [`Supervisor::should_emit`].
#[derive(Clone, Copy, Debug, PartialEq, Eq, Structural)]
pub enum LogEvent {
    /// The command could not be spawned; reported even in quiet mode.
    SpawnFailure,
    /// Waiting on the child failed; reported even in quiet mode.
    WaitFailure,
    /// The child failed while a stop signal was being handled.
    FailedWhileStopping { code: i32 },
    /// The child failed on attempt `attempt` and a retry follows after the
    /// given backoff delay.
    Retrying { code: i32, attempt: u32, delay_ns: u64 },
    /// A signal arrived during the backoff sleep; the run ends before the
    /// attempt after `completed_attempts`.
    StoppedDuringSleep { completed_attempts: u32 },
    /// The child failed and the attempt budget is exhausted.
    MaxAttemptsReached { code: i32, attempts: u32 },
}

/// The immediate consequences of one step: at most one signal to forward to
/// the running child, and at most one line to narrate.
#[derive(Clone, Copy, Debug, PartialEq, Eq)]
pub struct StepEffect {
    /// Forward this OS signal to the running child, best effort: failure to
    /// deliver (the child already exited) is ignored.
    pub forward_signal: Option<i32>,
    /// Narrate this, subject to [`Supervisor::should_emit`].
    pub log: Option<LogEvent>,
}

/// An effect that forwards nothing and narrates nothing.
pub open spec fn no_effect() -> StepEffect {
    StepEffect { forward_signal: None, log: None }
}

/// An effect that only narrates `ev`.
pub open spec fn log_effect(ev: LogEvent) -> StepEffect {
    StepEffect { forward_signal: None, log: Some(ev) }
}

/// `a + 1`, saturating at `u32::MAX`. In every reachable state the attempt
/// counter stays strictly below the budget, so saturation never fires; it
/// only keeps the transition function total.
pub open spec fn sat_inc(a: u32) -> u32 {
    if a == u32::MAX {
        u32::MAX
    } else {
        (a + 1) as u32
    }
}

/// The supervision state machine. Fields are public so that contracts can
/// speak of them; the embedding program only reads them.
pub struct Supervisor {
    /// The run's immutable parameters.
    pub config: RunConfig,
    /// Attempts completed so far.
    pub attempt_number: u32,
    /// Delay of the pending or next backoff, in nanoseconds.
    pub current_delay_ns: u64,
    /// The most recent unsuccessful exit code observed, or the fallback
    /// sentinel if none yet.
    pub last_exit_code: i32,
    /// A termination signal has been observed while the current child runs.
    pub stop_requested: bool,
    /// Where the machine stands.
    pub phase: Phase,
    /// The run's exit code; meaningful once `phase` is `Done`.
    pub exit_code: i32,
}

/// The state a run starts in: no attempts completed, the configured initial
/// delay, the fallback sentinel as last exit code, ready to spawn.
pub open spec fn init_state(config: RunConfig) -> Supervisor {
    Supervisor {
        config,
        attempt_number: 0,
        current_delay_ns: config.initial_delay_ns,
        last_exit_code: FALLBACK_EXIT_CODE,
        stop_requested: false,
        phase: Phase::Idle,
        exit_code: FALLBACK_EXIT_CODE,
    }
}

/// Resolution of an unsuccessful child exit whose code is `code` (the
/// fallback sentinel stands in when the child had no reportable code).
///
/// The code is recorded. If a stop signal was being handled, the run ends
/// with that code at once — the operator asked to stop, so no retry. If the
/// budget is now exhausted, the run ends with that code. Otherwise a backoff
/// with the current delay begins.
pub open spec fn child_failed_spec(s: Supervisor, code: i32) -> (Supervisor, StepEffect) {
    if s.stop_requested {
        (
            Supervisor { last_exit_code: code, phase: Phase::Done, exit_code: code, ..s },
            log_effect(LogEvent::FailedWhileStopping { code }),
        )
    } else {
        let done = sat_inc(s.attempt_number);
        if done >= s.config.attempts {
            (
                Supervisor {
                    last_exit_code: code,
                    attempt_number: done,
                    phase: Phase::Done,
                    exit_code: code,
                    ..s
                },
                log_effect(LogEvent::MaxAttemptsReached { code, attempts: s.config.attempts }),
            )
        } else {
            (
                Supervisor {
                    last_exit_code: code,
                    attempt_number: done,
                    phase: Phase::Backoff,
                    ..s
                },
                log_effect(
                    LogEvent::Retrying { code, attempt: done, delay_ns: s.current_delay_ns },
                ),
            )
        }
    }
}

/// The transition function: the state after consuming `e` in state `s`, and
/// the step's immediate effect. An event the current phase did not ask for
/// changes nothing.
pub open spec fn step_spec(s: Supervisor, e: Event) -> (Supervisor, StepEffect) {
    match s.phase {
        Phase::Idle => match e {
            Event::SpawnSucceeded => (Supervisor { phase: Phase::Running, ..s }, no_effect()),
            Event::SpawnFailed => (
                Supervisor { phase: Phase::Done, exit_code: FALLBACK_EXIT_CODE, ..s },
                log_effect(LogEvent::SpawnFailure),
            ),
            _ => (s, no_effect()),
        },
        Phase::Running => match e {
            Event::ChildSucceeded => (
                Supervisor { phase: Phase::Done, exit_code: 0, ..s },
                no_effect(),
            ),
            Event::ChildFailed(code) => child_failed_spec(s, code),
            Event::ChildFailedNoCode => child_failed_spec(s, FALLBACK_EXIT_CODE),
            Event::WaitFailed => (
                Supervisor { phase: Phase::Done, exit_code: FALLBACK_EXIT_CODE, ..s },
                log_effect(LogEvent::WaitFailure),
            ),
            Event::SignalReceived(sig) => (
                Supervisor { stop_requested: true, ..s },
                StepEffect { forward_signal: Some(sig), log: None },
            ),
            _ => (s, no_effect()),
        },
        Phase::Backoff => match e {
            Event::SleepCompleted => (
                Supervisor {
                    phase: Phase::Idle,
                    current_delay_ns: sat_mul(
                        s.current_delay_ns,
                        s.config.delay_multiplier as u64,
                    ),
                    ..s
                },
                no_effect(),
            ),
            Event::SleepInterrupted => (
                Supervisor { phase: Phase::Done, exit_code: s.last_exit_code, ..s },
                log_effect(
                    LogEvent::StoppedDuringSleep { completed_attempts: s.attempt_number },
                ),
            ),
            _ => (s, no_effect()),
        },
        Phase::Done => (s, no_effect()),
    }
}

/// Whether narration `ev` is emitted under `quiet`: quiet mode suppresses
/// everything except spawn-failure and wait-failure reports.
pub open spec fn emitted(quiet: bool, ev: LogEvent) -> bool {
    !quiet || ev is SpawnFailure || ev is WaitFailure
}

impl Supervisor {
    /// Machine invariant: holds of the initial state and is preserved by
    /// every step. While the run is not over, the attempt budget is not
    /// exhausted, so the counter's saturating increment is in fact exact;
    /// and while another attempt can still start (`Idle`, `Backoff`), no
    /// stop is pending.
    pub open spec fn inv(self) -> bool {
        &&& self.config.wf()
        &&& self.attempt_number <= self.config.attempts
        &&& ((self.phase is Idle || self.phase is Running || self.phase is Backoff)
            ==> self.attempt_number < self.config.attempts)
        &&& ((self.phase is Idle || self.phase is Backoff) ==> !self.stop_requested)
    }

    /// The operation pending in this state.
    pub open spec fn pending_op(self) -> Op {
        match self.phase {
            Phase::Idle => Op::Spawn,
            Phase::Running => Op::AwaitChild,
            Phase::Backoff => Op::Sleep(self.current_delay_ns),
            Phase::Done => Op::Finished(self.exit_code),
        }
    }

    /// Start a run.
    pub fn new(config: RunConfig) -> (r: Supervisor)
        requires
            config.wf(),
        ensures
            r == init_state(config),
            r.inv(),
    {
        let initial: u64 = config.initial_delay_ns;
        Supervisor {
            config,
            attempt_number: 0,
            current_delay_ns: initial,
            last_exit_code: FALLBACK_EXIT_CODE,
            stop_requested: false,
            phase: Phase::Idle,
            exit_code: FALLBACK_EXIT_CODE,
        }
    }

    /// What the embedding program must do next.
    pub fn next_op(&self) -> (r: Op)
        ensures
            r == self.pending_op(),
    {
        match self.phase {
            Phase::Idle => Op::Spawn,
            Phase::Running => Op::AwaitChild,
            Phase::Backoff => Op::Sleep(self.current_delay_ns),
            Phase::Done => Op::Finished(self.exit_code),
        }
    }

    /// Consume the outcome of the pending operation and advance, exactly as
    /// [`step_spec`] says.
    pub fn step(&mut self, e: Event) -> (r: StepEffect)
        ensures
            *final(self) == step_spec(*old(self), e).0,
            r == step_spec(*old(self), e).1,
    {
        match self.phase {
            Phase::Idle => match e {
                Event::SpawnSucceeded => {
                    self.phase = Phase::Running;
                    StepEffect { forward_signal: None, log: None }
                },
                Event::SpawnFailed => {
                    self.phase = Phase::Done;
                    self.exit_code = FALLBACK_EXIT_CODE;
                    StepEffect { forward_signal: None, log: Some(LogEvent::SpawnFailure) }
                },
                _ => StepEffect { forward_signal: None, log: None },
            },
            Phase::Running => match e {
                Event::ChildSucceeded => {
                    self.phase = Phase::Done;
                    self.exit_code = 0;
                    StepEffect { forward_signal: None, log: None }
                },
                Event::ChildFailed(code) => self.resolve_child_failure(code),
                Event::ChildFailedNoCode => self.resolve_child_failure(FALLBACK_EXIT_CODE),
                Event::WaitFailed => {
                    self.phase = Phase::Done;
                    self.exit_code = FALLBACK_EXIT_CODE;
                    StepEffect { forward_signal: None, log: Some(LogEvent::WaitFailure) }
                },
                Event::SignalReceived(sig) => {
                    self.stop_requested = true;
                    StepEffect { forward_signal: Some(sig), log: None }
                },
                _ => StepEffect { forward_signal: None, log: None },
            },
            Phase::Backoff => match e {
                Event::SleepCompleted => {
                    self.current_delay_ns = saturating_mul(
                        self.current_delay_ns,
                        self.config.delay_multiplier as u64,
                    );
                    self.phase = Phase::Idle;
                    StepEffect { forward_signal: None, log: None }
                },
                Event::SleepInterrupted => {
                    self.phase = Phase::Done;
                    self.exit_code = self.last_exit_code;
                    StepEffect {
                        forward_signal: None,
                        log: Some(
                            LogEvent::StoppedDuringSleep {
                                completed_attempts: self.attempt_number,
                            },
                        ),
                    }
                },
                _ => StepEffect { forward_signal: None, log: None },
            },
            Phase::Done => StepEffect { forward_signal: None, log: None },
        }
    }

    /// An unsuccessful child exit with (fallback-filled) code `code`.
    fn resolve_child_failure(&mut self, code: i32) -> (r: StepEffect)
        ensures
            *final(self) == child_failed_spec(*old(self), code).0,
            r == child_failed_spec(*old(self), code).1,
    {
        self.last_exit_code = code;
        if self.stop_requested {
            self.phase = Phase::Done;
            self.exit_code = code;
            StepEffect {
                forward_signal: None,
                log: Some(LogEvent::FailedWhileStopping { code }),
            }
        } else {
            let done: u32 = if self.attempt_number == u32::MAX {
                u32::MAX
            } else {
                self.attempt_number + 1
            };
            self.attempt_number = done;
            if done >= self.config.attempts {
                self.phase = Phase::Done;
                self.exit_code = code;
                StepEffect {
                    forward_signal: None,
                    log: Some(
                        LogEvent::MaxAttemptsReached { code, attempts: self.config.attempts },
                    ),
                }
            } else {
                self.phase = Phase::Backoff;
                StepEffect {
                    forward_signal: None,
                    log: Some(
                        LogEvent::Retrying {
                            code,
                            attempt: done,
                            delay_ns: self.current_delay_ns,
                        },
                    ),
                }
            }
        }
    }

    /// Decide whether a narration line is printed: quiet mode gates
    /// everything except spawn-failure and wait-failure reports, which are
    /// printed in either mode.
    pub fn should_emit(quiet: bool, ev: &LogEvent) -> (r: bool)
        ensures
            r == emitted(quiet, *ev),
    {
        match ev {
            LogEvent::SpawnFailure => true,
            LogEvent::WaitFailure => true,
            _ => !quiet,
        }
    }
}

/// Quiet mode suppresses every narration line except spawn-failure and
/// wait-failure reports; without quiet mode every line is emitted.
pub proof fn lemma_quiet_gating(ev: LogEvent)
    ensures
        emitted(false, ev),
        emitted(true, ev) <==> (ev is SpawnFailure || ev is WaitFailure),
{
}

/// Every step preserves the machine invariant.
pub proof fn lemma_step_preserves_inv(s: Supervisor, e: Event)
    requires
        s.inv(),
    ensures
        step_spec(s, e).0.inv(),
{
}

} // verus!
