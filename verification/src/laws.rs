//! What holds of every exchange between the supervisor and its caller.
//!
//! An exchange is a sequence of calls on the supervisor. [`drive`] makes them
//! one by one and collects the actions that come back, so a statement about
//! `drive` is a statement about every series of calls of `Chrome::spawn`,
//! `Chrome::advance` and `Chrome::terminate`.

use vstd::prelude::*;
use crate::error::ChromeError;
use crate::health::Health;
use crate::probe::{verdict_of, Probe, Verdict};
use crate::supervisor::{begin, halt, step, Action, Event, Phase};

verus! {

/// One call on the supervisor.
pub enum Call {
    Spawn { poll: u128, timeout: u128 },
    Advance(Event),
    Terminate,
}

/// What one call does to the phase, and the action that it returns.
pub open spec fn apply(phase: Phase, call: Call) -> (Phase, Action) {
    match call {
        Call::Spawn { poll, timeout } => begin(phase, poll, timeout),
        Call::Advance(event) => step(phase, event),
        Call::Terminate => halt(phase),
    }
}

/// The phase reached from `phase` by `calls`, and the actions given on the way.
pub open spec fn drive(phase: Phase, calls: Seq<Call>) -> (Phase, Seq<Action>)
    decreases calls.len(),
{
    if calls.len() == 0 {
        (phase, Seq::empty())
    } else {
        let before = drive(phase, calls.drop_last());
        let last = apply(before.0, calls.last());
        (last.0, before.1.push(last.1))
    }
}

/// The report of a probe.
pub open spec fn probed(probe: Probe, elapsed: u128) -> Call {
    Call::Advance(Event::Probed { probe, elapsed })
}

/// The call reports a probe that found the driver not listening or not
/// ready, before the deadline.
pub open spec fn early_miss(call: Call, timeout: u128) -> bool {
    match call {
        Call::Advance(Event::Probed { probe, elapsed }) => probe.unsuccessful() && elapsed
            < timeout,
        _ => false,
    }
}

/// `n` pauses of `poll` nanoseconds each.
pub open spec fn pauses(n: nat, poll: u128) -> Seq<Action> {
    Seq::new(n, |i: int| Action::Sleep { nanos: poll })
}

/// One of the actions tells the caller to kill the process `pid`.
pub open spec fn killed_in(actions: Seq<Action>, pid: u32) -> bool {
    exists|j: int| 0 <= j < actions.len() && (#[trigger] actions[j]).kills() == Some(pid)
}

/// Unsuccessful probes before the deadline change nothing: after any number
/// of them the supervisor is still polling the same process, and each was
/// answered by one pause of the poll interval.
pub proof fn lemma_misses_keep_polling(pid: u32, poll: u128, timeout: u128, misses: Seq<Call>)
    requires
        forall|i: int| 0 <= i < misses.len() ==> early_miss(#[trigger] misses[i], timeout),
    ensures
        drive(Phase::Polling { pid, poll, timeout }, misses) == (
            Phase::Polling { pid, poll, timeout },
            pauses(misses.len(), poll),
        ),
    decreases misses.len(),
{
    if misses.len() == 0 {
        assert(pauses(0, poll) =~= Seq::<Action>::empty());
    } else {
        let init = misses.drop_last();
        assert forall|i: int| 0 <= i < init.len() implies early_miss(
            #[trigger] init[i],
            timeout,
        ) by {
            assert(init[i] == misses[i]);
        }
        lemma_misses_keep_polling(pid, poll, timeout, init);
        assert(early_miss(misses[misses.len() - 1], timeout));
        assert(pauses(init.len(), poll).push(Action::Sleep { nanos: poll }) =~= pauses(
            misses.len(),
            poll,
        ));
    }
}

/// Retries are transparent: whatever follows a series of unsuccessful probes
/// before the deadline is answered as if it had come first. A connection
/// that was refused any number of times leaves no trace but the pauses.
pub proof fn lemma_retries_are_transparent(
    pid: u32,
    poll: u128,
    timeout: u128,
    misses: Seq<Call>,
    next: Call,
)
    requires
        forall|i: int| 0 <= i < misses.len() ==> early_miss(#[trigger] misses[i], timeout),
    ensures
        drive(Phase::Polling { pid, poll, timeout }, misses.push(next)) == (
            apply(Phase::Polling { pid, poll, timeout }, next).0,
            pauses(misses.len(), poll).push(apply(Phase::Polling { pid, poll, timeout }, next).1),
        ),
{
    lemma_misses_keep_polling(pid, poll, timeout, misses);
    assert(misses.push(next).drop_last() =~= misses);
    assert(misses.push(next).last() == next);
}

/// A driver that is not ready, or not yet listening, for the first `n`
/// probes and ready at the next is launched after exactly `n` pauses of the
/// poll interval, provided each of those probes ended before the deadline.
/// The supervisor then owns the process.
pub proof fn lemma_ready_after_misses(
    pid: u32,
    poll: u128,
    timeout: u128,
    misses: Seq<Call>,
    health: Health,
    elapsed: u128,
)
    requires
        forall|i: int| 0 <= i < misses.len() ==> early_miss(#[trigger] misses[i], timeout),
        health.ready(),
    ensures
        drive(
            Phase::Polling { pid, poll, timeout },
            misses.push(probed(Probe::Answered(health), elapsed)),
        ) == (Phase::Running { pid }, pauses(misses.len(), poll).push(Action::Done)),
{
    lemma_retries_are_transparent(
        pid,
        poll,
        timeout,
        misses,
        probed(Probe::Answered(health), elapsed),
    );
}

/// With a driver that never becomes ready the launch fails with `Timeout` at
/// the first probe that ends at or after the deadline, and at none before
/// it. The failure names the process to be killed, and the supervisor no
/// longer owns it.
pub proof fn lemma_timeout_at_deadline(
    pid: u32,
    poll: u128,
    timeout: u128,
    misses: Seq<Call>,
    probe: Probe,
    elapsed: u128,
)
    requires
        forall|i: int| 0 <= i < misses.len() ==> early_miss(#[trigger] misses[i], timeout),
        probe.unsuccessful(),
        elapsed >= timeout,
    ensures
        drive(Phase::Polling { pid, poll, timeout }, misses.push(probed(probe, elapsed))) == (
            Phase::Idle,
            pauses(misses.len(), poll).push(
                Action::Fail { kill: Some(pid), error: ChromeError::Timeout },
            ),
        ),
{
    lemma_retries_are_transparent(pid, poll, timeout, misses, probed(probe, elapsed));
}

/// A probe is answered by `Timeout` exactly when it was unsuccessful and
/// the deadline has passed, and by a retry exactly when it was unsuccessful
/// and the deadline has not.
pub proof fn lemma_timeout_iff_late_miss(probe: Probe, elapsed: u128, timeout: u128)
    ensures
        verdict_of(probe, elapsed, timeout) == Verdict::Fail(ChromeError::Timeout) <==> (
        probe.unsuccessful() && elapsed >= timeout),
        verdict_of(probe, elapsed, timeout) == Verdict::Retry <==> (probe.unsuccessful() && elapsed
            < timeout),
{
}

/// A refused connection never comes out as a request error, whatever the
/// time: a request error is given only for a probe that failed otherwise,
/// and carries that probe's cause.
pub proof fn lemma_request_error_has_cause(
    probe: Probe,
    elapsed: u128,
    timeout: u128,
    cause: reqwest::Error,
)
    ensures
        verdict_of(probe, elapsed, timeout) == Verdict::Fail(ChromeError::Request(cause)) <==> probe
            == Probe::Failed(cause),
        verdict_of(Probe::Refused, elapsed, timeout) != Verdict::Fail(ChromeError::Request(cause)),
{
}

/// A malformed response ends the launch at once, whatever the time elapsed
/// and the time allowed.
pub proof fn lemma_malformed_fails_at_once(pid: u32, poll: u128, timeout: u128, elapsed: u128)
    ensures
        step(
            Phase::Polling { pid, poll, timeout },
            Event::Probed { probe: Probe::Malformed, elapsed },
        ) == (
            Phase::Idle,
            Action::Fail { kill: Some(pid), error: ChromeError::MalformedHealthResponse },
        ),
{
}

/// Termination is idempotent. However often it is asked for, the process is
/// killed at most once: a second request right after the first, or after the
/// kill was reported, finds nothing owned and is done.
pub proof fn lemma_terminate_idempotent(phase: Phase, ok: bool)
    ensures
        halt(phase).0.owned().is_none(),
        halt(halt(phase).0) == (halt(phase).0, Action::Done),
        halt(step(halt(phase).0, Event::Killed { ok }).0).1 == Action::Done,
{
}

/// A process that the caller reports as started is owned from then on.
pub proof fn lemma_spawned_is_owned(poll: u128, timeout: u128, pid: u32)
    ensures
        step(Phase::Starting { poll, timeout }, Event::Spawned { pid }).0.owned() == Some(pid),
{
}

/// No call loses a process: one that the supervisor owns before a call is
/// owned after it, or named in the call's action as the one to kill.
pub proof fn lemma_call_keeps_or_kills(phase: Phase, call: Call)
    requires
        phase.owned().is_some(),
    ensures
        apply(phase, call).0.owned() == phase.owned() || apply(phase, call).1.kills()
            == phase.owned(),
{
}

/// No exchange loses a process: one that the supervisor owns is, after any
/// calls whatever, still owned or was named in a kill on the way.
pub proof fn lemma_no_process_is_lost(phase: Phase, calls: Seq<Call>, pid: u32)
    requires
        phase.owned() == Some(pid),
    ensures
        drive(phase, calls).0.owned() == Some(pid) || killed_in(drive(phase, calls).1, pid),
    decreases calls.len(),
{
    if calls.len() > 0 {
        let before = drive(phase, calls.drop_last());
        let last = apply(before.0, calls.last());
        let actions = before.1.push(last.1);
        lemma_no_process_is_lost(phase, calls.drop_last(), pid);
        if before.0.owned() == Some(pid) {
            lemma_call_keeps_or_kills(before.0, calls.last());
            if last.0.owned() != Some(pid) {
                assert(actions[actions.len() - 1].kills() == Some(pid));
            }
        } else {
            let j = choose|j: int| 0 <= j < before.1.len() && (#[trigger] before.1[j]).kills()
                == Some(pid);
            assert(actions[j].kills() == Some(pid));
        }
    }
}

/// Every failure leaves the supervisor idle, and every failure found while
/// polling, a timeout among them, names the polled process as the one to
/// kill.
pub proof fn lemma_failure_cleans_up(phase: Phase, event: Event)
    requires
        step(phase, event).1 is Fail,
    ensures
        step(phase, event).0 == Phase::Idle,
        phase is Polling ==> step(phase, event).1.kills() == phase.owned(),
{
}

} // verus!
