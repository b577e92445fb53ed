//! How long a wait lasts when the world keeps ideal time.
//!
//! In the ideal world a clock reading and a connection attempt take no time,
//! every sleep lasts exactly the polling interval, and a server that has begun
//! to listen keeps listening. Under these assumptions the outcome of a wait is
//! a function of the timeout and of the instant at which the server begins to
//! listen, and the bounds below are theorems about that function.

use vstd::prelude::*;
use crate::prober::{next_action, ProbeAction, ProbeInput, POLL_INTERVAL_NANOS};

verus! {

/// The polling interval as a natural number of nanoseconds.
pub open spec fn interval() -> nat {
    POLL_INTERVAL_NANOS as nat
}

/// Whether a server that begins to listen at `ready_at` (never, if `None`)
/// accepts a connection at `now`.
pub open spec fn listening(ready_at: Option<nat>, now: nat) -> bool {
    ready_at matches Some(since) && since <= now
}

/// What the ideal world reports at `now` to a driver that carries out
/// `pending`.
pub open spec fn ideal_input(pending: ProbeAction, ready_at: Option<nat>, now: nat) -> ProbeInput {
    match pending {
        ProbeAction::ReadClock => ProbeInput::Elapsed(now),
        ProbeAction::Connect => ProbeInput::Connected(listening(ready_at, now)),
        _ => ProbeInput::Woke,
    }
}

/// The time at which carrying out `pending`, begun at `now`, is over.
pub open spec fn ideal_clock_after(pending: ProbeAction, now: nat) -> nat {
    if pending is Sleep {
        now + interval()
    } else {
        now
    }
}

/// A bound on the number of actions still to come, by which the ideal run
/// terminates.
pub open spec fn steps_left(timeout: nat, pending: ProbeAction, now: nat) -> nat {
    if now < timeout {
        let rest = (timeout - now) as nat;
        match pending {
            ProbeAction::ReadClock => 3 * rest + 3,
            ProbeAction::Connect => 3 * rest + 2,
            ProbeAction::Sleep => 3 * rest + 1,
            ProbeAction::Finish(_) => 0,
        }
    } else {
        match pending {
            ProbeAction::Connect => 3,
            ProbeAction::Sleep => 2,
            ProbeAction::ReadClock => 1,
            ProbeAction::Finish(_) => 0,
        }
    }
}

/// How a wait ended.
pub struct WaitResult {
    /// Whether the server answered.
    pub ready: bool,
    /// The time at which the prober said so.
    pub ended_at: nat,
}

/// The result of driving the prober through the ideal world from the state
/// `pending` at time `now`.
pub open spec fn ideal_run(
    timeout: nat,
    ready_at: Option<nat>,
    pending: ProbeAction,
    now: nat,
) -> WaitResult
    decreases steps_left(timeout, pending, now),
{
    match pending {
        ProbeAction::Finish(ready) => WaitResult { ready, ended_at: now },
        _ => ideal_run(
            timeout,
            ready_at,
            next_action(timeout, pending, ideal_input(pending, ready_at, now)),
            ideal_clock_after(pending, now),
        ),
    }
}

/// The result of a whole wait in the ideal world.
pub open spec fn ideal_wait(timeout: nat, ready_at: Option<nat>) -> WaitResult {
    ideal_run(timeout, ready_at, ProbeAction::ReadClock, 0)
}

/// The first polling instant that is not before `t`. Polls happen at the
/// multiples of the interval.
pub open spec fn poll_at_or_after(t: nat) -> nat {
    (((t + interval() - 1) / (interval() as int)) * interval()) as nat
}

/// The outcome of a wait, written out: it succeeds at the first poll at which
/// the server listens, provided that poll comes before the timeout, and fails
/// at the first poll at or after the timeout otherwise.
pub open spec fn wait_in_closed_form(timeout: nat, ready_at: Option<nat>) -> WaitResult {
    match ready_at {
        Some(since) if poll_at_or_after(since) < timeout => WaitResult {
            ready: true,
            ended_at: poll_at_or_after(since),
        },
        _ => WaitResult { ready: false, ended_at: poll_at_or_after(timeout) },
    }
}

/// One round of the loop: a reading at or past the timeout ends the wait, a
/// listening server ends it with success, and otherwise the next round begins
/// one interval later.
proof fn lemma_poll_round(timeout: nat, ready_at: Option<nat>, now: nat)
    ensures
        ideal_run(timeout, ready_at, ProbeAction::ReadClock, now) == if now >= timeout {
            WaitResult { ready: false, ended_at: now }
        } else if listening(ready_at, now) {
            WaitResult { ready: true, ended_at: now }
        } else {
            ideal_run(timeout, ready_at, ProbeAction::ReadClock, now + interval())
        },
{
    reveal_with_fuel(ideal_run, 4);
}

/// `poll_at_or_after(t)` is a polling instant, lies within one interval after
/// `t`, and no polling instant lies between the two.
proof fn lemma_poll_at_or_after(t: nat, poll: nat)
    ensures
        poll_at_or_after(t) % interval() == 0,
        t <= poll_at_or_after(t) < t + interval(),
        poll % interval() == 0 && t <= poll ==> poll_at_or_after(t) <= poll,
{
    assert(interval() == 500_000_000);
}

/// From any polling instant that has not passed the deciding one, the run ends
/// as the closed form says.
proof fn lemma_run_from_poll(timeout: nat, ready_at: Option<nat>, now: nat)
    requires
        now % interval() == 0,
        now <= poll_at_or_after(timeout),
        ready_at matches Some(since) ==> now <= poll_at_or_after(since),
    ensures
        ideal_run(timeout, ready_at, ProbeAction::ReadClock, now) == wait_in_closed_form(
            timeout,
            ready_at,
        ),
    decreases poll_at_or_after(timeout) - now,
{
    assert(interval() == 500_000_000);
    lemma_poll_round(timeout, ready_at, now);
    lemma_poll_at_or_after(timeout, now);
    lemma_poll_at_or_after(timeout, now + interval());
    if let Some(since) = ready_at {
        lemma_poll_at_or_after(since, now);
        lemma_poll_at_or_after(since, now + interval());
    }
    if now < timeout && !listening(ready_at, now) {
        // The next instant is a polling instant too, and two polling instants
        // are at least one interval apart.
        assert(now % 500_000_000 == 0);
        assert((now + 500_000_000) % 500_000_000 == 0);
        assert(poll_at_or_after(timeout) % 500_000_000 == 0);
        lemma_run_from_poll(timeout, ready_at, now + interval());
    }
}

/// Driving the prober through the ideal world gives the closed form.
pub proof fn lemma_ideal_wait_closed_form(timeout: nat, ready_at: Option<nat>)
    ensures
        ideal_wait(timeout, ready_at) == wait_in_closed_form(timeout, ready_at),
{
    lemma_run_from_poll(timeout, ready_at, 0);
}

/// A wait never lasts longer than the timeout plus one polling interval,
/// whether the server answers or not.
pub proof fn lemma_wait_is_bounded(timeout: nat, ready_at: Option<nat>)
    ensures
        ideal_wait(timeout, ready_at).ended_at <= timeout + interval(),
{
    lemma_ideal_wait_closed_form(timeout, ready_at);
    lemma_poll_at_or_after(timeout, 0);
}

/// A server that begins to listen at `since`, early enough for a poll to reach
/// it before the timeout, is reported ready at the first poll that is not
/// before `since`: no earlier than `since`, less than one interval after it,
/// and before the timeout.
pub proof fn lemma_listening_server_is_found(timeout: nat, since: nat)
    requires
        poll_at_or_after(since) < timeout,
    ensures
        ideal_wait(timeout, Some(since)).ready,
        ideal_wait(timeout, Some(since)).ended_at == poll_at_or_after(since),
        since <= ideal_wait(timeout, Some(since)).ended_at < since + interval(),
        ideal_wait(timeout, Some(since)).ended_at < timeout,
{
    lemma_ideal_wait_closed_form(timeout, Some(since));
    lemma_poll_at_or_after(since, 0);
}

/// A server that begins to listen too late for any poll before the timeout is
/// not waited for: the wait fails as if the server had never listened.
pub proof fn lemma_late_server_is_missed(timeout: nat, since: nat)
    requires
        poll_at_or_after(since) >= timeout,
    ensures
        ideal_wait(timeout, Some(since)) == ideal_wait(timeout, None),
{
    lemma_ideal_wait_closed_form(timeout, Some(since));
    lemma_ideal_wait_closed_form(timeout, None);
}

/// A server that never listens makes the wait fail, no earlier than the
/// timeout and less than one polling interval after it.
pub proof fn lemma_silent_server_times_out(timeout: nat)
    ensures
        !ideal_wait(timeout, None).ready,
        ideal_wait(timeout, None).ended_at == poll_at_or_after(timeout),
        timeout <= ideal_wait(timeout, None).ended_at < timeout + interval(),
{
    lemma_ideal_wait_closed_form(timeout, None);
    lemma_poll_at_or_after(timeout, 0);
}

} // verus!
