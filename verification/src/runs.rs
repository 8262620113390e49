//! Whole-run reasoning: the traces of events an embedding loop can feed the
//! machine, the states those traces drive it to, and the guarantees the
//! supervisor gives over complete runs — attempt counts, exit codes, backoff
//! delays, and the consequences of termination signals.

use crate::config::RunConfig;
use crate::delay::delay_at;
use crate::machine::init_state;
use crate::machine::step_spec;
use crate::machine::Event;
use crate::machine::Op;
use crate::machine::Phase;
use crate::machine::Supervisor;
use vstd::prelude::*;

verus! {

/// The state the machine reaches after consuming `events` one by one from
/// `s`.
pub open spec fn run_steps(s: Supervisor, events: Seq<Event>) -> Supervisor
    decreases events.len(),
{
    if events.len() == 0 {
        s
    } else {
        run_steps(step_spec(s, events[0]).0, events.skip(1))
    }
}

/// Whether `e` is an outcome of the operation pending in `s`: the only
/// events an embedding loop that performs the pending operation can feed.
pub open spec fn valid_event(s: Supervisor, e: Event) -> bool {
    match s.phase {
        Phase::Idle => e is SpawnSucceeded || e is SpawnFailed,
        Phase::Running => e is ChildSucceeded || e is ChildFailed || e is ChildFailedNoCode
            || e is WaitFailed || e is SignalReceived,
        Phase::Backoff => e is SleepCompleted || e is SleepInterrupted,
        Phase::Done => false,
    }
}

/// Whether `events` is a trace an embedding loop can produce from `s`.
pub open spec fn valid_trace(s: Supervisor, events: Seq<Event>) -> bool
    decreases events.len(),
{
    events.len() == 0 || (valid_event(s, events[0]) && valid_trace(
        step_spec(s, events[0]).0,
        events.skip(1),
    ))
}

/// How many spawns resolving to `e` took: 1 for the two spawn outcomes,
/// 0 for every other event.
pub open spec fn spawns_in_event(e: Event) -> nat {
    if e is SpawnSucceeded || e is SpawnFailed {
        1nat
    } else {
        0nat
    }
}

/// How many spawns the embedding loop performs while producing `events`:
/// each spawn resolves to exactly one spawn event.
pub open spec fn spawn_count(events: Seq<Event>) -> nat
    decreases events.len(),
{
    if events.len() == 0 {
        0
    } else {
        spawns_in_event(events[0]) + spawn_count(events.skip(1))
    }
}

/// Running a concatenated trace is running its parts in order.
pub proof fn lemma_run_steps_app(s: Supervisor, a: Seq<Event>, b: Seq<Event>)
    ensures
        run_steps(s, a + b) == run_steps(run_steps(s, a), b),
    decreases a.len(),
{
    if a.len() == 0 {
        assert(a + b =~= b);
    } else {
        assert((a + b)[0] == a[0]);
        assert((a + b).skip(1) =~= a.skip(1) + b);
        lemma_run_steps_app(step_spec(s, a[0]).0, a.skip(1), b);
    }
}

/// Spawns in a concatenated trace are the spawns of its parts.
pub proof fn lemma_spawn_count_app(a: Seq<Event>, b: Seq<Event>)
    ensures
        spawn_count(a + b) == spawn_count(a) + spawn_count(b),
    decreases a.len(),
{
    if a.len() == 0 {
        assert(a + b =~= b);
    } else {
        assert((a + b)[0] == a[0]);
        assert((a + b).skip(1) =~= a.skip(1) + b);
        lemma_spawn_count_app(a.skip(1), b);
    }
}

/// A concatenated trace is valid exactly when its first part is valid and
/// its second part is valid from where the first part leads.
pub proof fn lemma_valid_trace_app(s: Supervisor, a: Seq<Event>, b: Seq<Event>)
    ensures
        valid_trace(s, a + b) == (valid_trace(s, a) && valid_trace(run_steps(s, a), b)),
    decreases a.len(),
{
    if a.len() == 0 {
        assert(a + b =~= b);
    } else {
        assert((a + b)[0] == a[0]);
        assert((a + b).skip(1) =~= a.skip(1) + b);
        lemma_valid_trace_app(step_spec(s, a[0]).0, a.skip(1), b);
    }
}

/// A trace of one event, spelled out.
proof fn lemma_one_step(s: Supervisor, e: Event)
    ensures
        run_steps(s, seq![e]) == step_spec(s, e).0,
        valid_trace(s, seq![e]) == valid_event(s, e),
        spawn_count(seq![e]) == spawns_in_event(e),
{
    let s1 = step_spec(s, e).0;
    assert(seq![e][0] == e);
    assert(seq![e].skip(1) =~= Seq::<Event>::empty());
    assert(run_steps(s1, Seq::<Event>::empty()) == s1);
    assert(run_steps(s, seq![e]) == run_steps(s1, seq![e].skip(1)));
    assert(spawn_count(Seq::<Event>::empty()) == 0);
    assert(spawn_count(seq![e]) == spawns_in_event(e) + spawn_count(seq![e].skip(1)));
    assert(valid_trace(s1, Seq::<Event>::empty()));
    assert(valid_trace(s, seq![e]) == (valid_event(s, e) && valid_trace(s1, seq![e].skip(1))));
}

/// A trace of two events, spelled out.
proof fn lemma_two_steps(s: Supervisor, e1: Event, e2: Event)
    ensures
        run_steps(s, seq![e1, e2]) == step_spec(step_spec(s, e1).0, e2).0,
        valid_trace(s, seq![e1, e2]) == (valid_event(s, e1) && valid_event(
            step_spec(s, e1).0,
            e2,
        )),
        spawn_count(seq![e1, e2]) == spawns_in_event(e1) + spawns_in_event(e2),
{
    let s1 = step_spec(s, e1).0;
    assert(seq![e1, e2] =~= seq![e1] + seq![e2]);
    lemma_one_step(s, e1);
    lemma_one_step(s1, e2);
    lemma_run_steps_app(s, seq![e1], seq![e2]);
    lemma_spawn_count_app(seq![e1], seq![e2]);
    lemma_valid_trace_app(s, seq![e1], seq![e2]);
}

/// A trace of three events, spelled out.
proof fn lemma_three_steps(s: Supervisor, e1: Event, e2: Event, e3: Event)
    ensures
        run_steps(s, seq![e1, e2, e3]) == step_spec(
            step_spec(step_spec(s, e1).0, e2).0,
            e3,
        ).0,
        valid_trace(s, seq![e1, e2, e3]) == (valid_event(s, e1) && valid_event(
            step_spec(s, e1).0,
            e2,
        ) && valid_event(step_spec(step_spec(s, e1).0, e2).0, e3)),
        spawn_count(seq![e1, e2, e3]) == spawns_in_event(e1) + spawns_in_event(e2)
            + spawns_in_event(e3),
{
    let s2 = step_spec(step_spec(s, e1).0, e2).0;
    assert(seq![e1, e2, e3] =~= seq![e1, e2] + seq![e3]);
    lemma_two_steps(s, e1, e2);
    lemma_one_step(s2, e3);
    lemma_run_steps_app(s, seq![e1, e2], seq![e3]);
    lemma_spawn_count_app(seq![e1, e2], seq![e3]);
    lemma_valid_trace_app(s, seq![e1, e2], seq![e3]);
}

/// One complete failed attempt followed by a completed backoff: the spawn
/// succeeds, the child fails with `code`, the sleep runs out.
pub open spec fn failed_cycle(code: i32) -> Seq<Event> {
    seq![Event::SpawnSucceeded, Event::ChildFailed(code), Event::SleepCompleted]
}

/// `codes.len()` complete failed attempts, each followed by a completed
/// backoff, the attempt with index `i` failing with `codes[i]`.
pub open spec fn failed_cycles(codes: Seq<i32>) -> Seq<Event>
    decreases codes.len(),
{
    if codes.len() == 0 {
        Seq::empty()
    } else {
        failed_cycle(codes[0]) + failed_cycles(codes.skip(1))
    }
}

/// The trace of a run whose command fails on every attempt with the given
/// codes and which no signal reaches: every attempt but the last is a full
/// cycle; the last failure exhausts the budget, so no backoff follows it.
pub open spec fn all_failing_trace(codes: Seq<i32>) -> Seq<Event>
    recommends
        codes.len() >= 1,
{
    failed_cycles(codes.drop_last()) + seq![
        Event::SpawnSucceeded,
        Event::ChildFailed(codes.last()),
    ]
}

/// The trace of a run that fails `codes.len()` times and then succeeds.
pub open spec fn eventually_succeeding_trace(codes: Seq<i32>) -> Seq<Event> {
    failed_cycles(codes) + seq![Event::SpawnSucceeded, Event::ChildSucceeded]
}

/// Driving the machine through `codes.len()` complete failed cycles from an
/// idle state leaves it idle again: one attempt completed per cycle, the last
/// code recorded, the delay advanced once per cycle, no stop pending, and one
/// spawn per cycle performed.
proof fn lemma_failed_cycles_run(s: Supervisor, codes: Seq<i32>)
    requires
        s.inv(),
        s.phase is Idle,
        s.attempt_number + codes.len() < s.config.attempts,
    ensures
        ({
            let f = run_steps(s, failed_cycles(codes));
            &&& f.inv()
            &&& f.phase is Idle
            &&& f.config == s.config
            &&& f.attempt_number == s.attempt_number + codes.len()
            &&& !f.stop_requested
            &&& f.current_delay_ns == delay_at(
                s.current_delay_ns,
                s.config.delay_multiplier,
                codes.len() as nat,
            )
            &&& f.last_exit_code == if codes.len() == 0 {
                s.last_exit_code
            } else {
                codes.last()
            }
        }),
        valid_trace(s, failed_cycles(codes)),
        spawn_count(failed_cycles(codes)) == codes.len(),
    decreases codes.len(),
{
    if codes.len() == 0 {
    } else {
        let cyc = failed_cycle(codes[0]);
        let rest = failed_cycles(codes.skip(1));
        let s1 = step_spec(s, Event::SpawnSucceeded).0;
        let s2 = step_spec(s1, Event::ChildFailed(codes[0])).0;
        let s3 = step_spec(s2, Event::SleepCompleted).0;
        lemma_three_steps(s, Event::SpawnSucceeded, Event::ChildFailed(codes[0]),
            Event::SleepCompleted);
        assert(run_steps(s, cyc) == s3);
        assert(spawn_count(cyc) == 1);
        assert(valid_trace(s, cyc));
        lemma_run_steps_app(s, cyc, rest);
        lemma_spawn_count_app(cyc, rest);
        lemma_valid_trace_app(s, cyc, rest);
        lemma_failed_cycles_run(s3, codes.skip(1));
        crate::delay::lemma_delay_at_shift(
            s.current_delay_ns,
            s.config.delay_multiplier,
            codes.skip(1).len() as nat,
        );
        if codes.len() > 1 {
            assert(codes.skip(1).last() == codes.last());
        }
    }
}

/// For every attempt budget and a command that fails on every attempt, the
/// run spawns the command exactly `attempts` times and exits with the exit
/// code of the last attempt.
pub proof fn lemma_all_attempts_fail(config: RunConfig, codes: Seq<i32>)
    requires
        config.wf(),
        codes.len() == config.attempts,
    ensures
        ({
            let t = all_failing_trace(codes);
            let f = run_steps(init_state(config), t);
            &&& valid_trace(init_state(config), t)
            &&& spawn_count(t) == config.attempts
            &&& f.phase is Done
            &&& f.exit_code == codes.last()
        }),
{
    let s = init_state(config);
    let pre = codes.drop_last();
    let tail = seq![Event::SpawnSucceeded, Event::ChildFailed(codes.last())];
    lemma_failed_cycles_run(s, pre);
    let m = run_steps(s, failed_cycles(pre));
    lemma_two_steps(m, Event::SpawnSucceeded, Event::ChildFailed(codes.last()));
    assert(spawn_count(tail) == 1);
    assert(valid_trace(m, tail));
    lemma_run_steps_app(s, failed_cycles(pre), tail);
    lemma_spawn_count_app(failed_cycles(pre), tail);
    lemma_valid_trace_app(s, failed_cycles(pre), tail);
}

/// For a command that succeeds on attempt `codes.len() + 1` within the
/// budget, after failing with `codes`, the run spawns the command exactly
/// `codes.len() + 1` times and exits 0 — whatever attempts remain.
pub proof fn lemma_eventual_success(config: RunConfig, codes: Seq<i32>)
    requires
        config.wf(),
        codes.len() < config.attempts,
    ensures
        ({
            let t = eventually_succeeding_trace(codes);
            let f = run_steps(init_state(config), t);
            &&& valid_trace(init_state(config), t)
            &&& spawn_count(t) == codes.len() + 1
            &&& f.phase is Done
            &&& f.exit_code == 0
        }),
{
    let s = init_state(config);
    let tail = seq![Event::SpawnSucceeded, Event::ChildSucceeded];
    lemma_failed_cycles_run(s, codes);
    let m = run_steps(s, failed_cycles(codes));
    lemma_two_steps(m, Event::SpawnSucceeded, Event::ChildSucceeded);
    assert(spawn_count(tail) == 1);
    assert(valid_trace(m, tail));
    lemma_run_steps_app(s, failed_cycles(codes), tail);
    lemma_spawn_count_app(failed_cycles(codes), tail);
    lemma_valid_trace_app(s, failed_cycles(codes), tail);
}

/// In an all-failing run, the backoff after the attempt with index
/// `codes.len()` sleeps for the initial delay with the multiplier applied
/// `codes.len()` times — by [`crate::delay::lemma_delay_exact`], exactly
/// `initial * multiplier^k` whenever that product fits in a `u64`.
pub proof fn lemma_backoff_sequence(config: RunConfig, codes: Seq<i32>, code: i32)
    requires
        config.wf(),
        codes.len() + 1 < config.attempts,
    ensures
        ({
            let t = failed_cycles(codes) + seq![
                Event::SpawnSucceeded,
                Event::ChildFailed(code),
            ];
            let f = run_steps(init_state(config), t);
            &&& f.phase is Backoff
            &&& f.pending_op() == Op::Sleep(
                delay_at(
                    config.initial_delay_ns,
                    config.delay_multiplier,
                    codes.len() as nat,
                ),
            )
        }),
{
    let s = init_state(config);
    let tail = seq![Event::SpawnSucceeded, Event::ChildFailed(code)];
    lemma_failed_cycles_run(s, codes);
    let m = run_steps(s, failed_cycles(codes));
    lemma_two_steps(m, Event::SpawnSucceeded, Event::ChildFailed(code));
    lemma_run_steps_app(s, failed_cycles(codes), tail);
}

/// While the machine is running with a stop pending — or already done — no
/// valid continuation contains a spawn: the run keeps waiting on the same
/// child or ends, and never starts another attempt.
proof fn lemma_no_spawn_while_stopping(s: Supervisor, events: Seq<Event>)
    requires
        s.phase is Running ==> s.stop_requested,
        s.phase is Running || s.phase is Done,
        valid_trace(s, events),
    ensures
        spawn_count(events) == 0,
    decreases events.len(),
{
    if events.len() > 0 {
        lemma_no_spawn_while_stopping(step_spec(s, events[0]).0, events.skip(1));
    }
}

/// A termination signal that arrives while the child runs is forwarded to
/// that child, and no further attempt is ever started: whatever valid events
/// follow, not one is a spawn — regardless of the remaining attempt budget.
pub proof fn lemma_signal_while_running(s: Supervisor, sig: i32, rest: Seq<Event>)
    requires
        s.phase is Running,
        valid_trace(step_spec(s, Event::SignalReceived(sig)).0, rest),
    ensures
        step_spec(s, Event::SignalReceived(sig)).1.forward_signal == Some(sig),
        step_spec(s, Event::SignalReceived(sig)).0.stop_requested,
        spawn_count(rest) == 0,
{
    lemma_no_spawn_while_stopping(step_spec(s, Event::SignalReceived(sig)).0, rest);
}

/// A termination signal during a backoff sleep ends the run at once with the
/// last recorded exit code, and the next attempt is never started: a finished
/// machine accepts no further events.
pub proof fn lemma_signal_during_backoff(s: Supervisor, rest: Seq<Event>)
    requires
        s.phase is Backoff,
        valid_trace(step_spec(s, Event::SleepInterrupted).0, rest),
    ensures
        step_spec(s, Event::SleepInterrupted).0.phase is Done,
        step_spec(s, Event::SleepInterrupted).0.exit_code == s.last_exit_code,
        rest.len() == 0,
{
}

} // verus!
