//! The readiness prober: a polling loop turned inside out.
//!
//! The prober never touches the network or the clock. It tells its driver what
//! to do next (read the clock, try to connect, sleep, stop) and is told what
//! came of it. Times are elapsed nanoseconds since the wait began.

use vstd::prelude::*;

verus! {

/// The pause between two connection attempts: 500 ms, in nanoseconds.
pub const POLL_INTERVAL_NANOS: u64 = 500_000_000;

/// What the driver has to do next.
#[derive(Clone, Copy, Debug, PartialEq, Eq, Structural)]
pub enum ProbeAction {
    /// Read how much time has passed since the wait began.
    ReadClock,
    /// Attempt one connection to the server's address.
    Connect,
    /// Sleep for the polling interval.
    Sleep,
    /// Stop: the server answered (`true`) or the time ran out (`false`).
    Finish(bool),
}

/// What the driver reports back.
#[derive(Clone, Copy, Debug, PartialEq, Eq, Structural)]
pub enum ProbeEvent {
    /// The clock was read: so many nanoseconds have passed.
    Elapsed(u128),
    /// A connection attempt ended, successfully or not.
    Connected(bool),
    /// The sleep is over.
    Woke,
}

/// A report to the prober with its time as a natural number.
pub enum ProbeInput {
    Elapsed(nat),
    Connected(bool),
    Woke,
}

impl View for ProbeEvent {
    type V = ProbeInput;

    open spec fn view(&self) -> ProbeInput {
        match *self {
            ProbeEvent::Elapsed(nanos) => ProbeInput::Elapsed(nanos as nat),
            ProbeEvent::Connected(ok) => ProbeInput::Connected(ok),
            ProbeEvent::Woke => ProbeInput::Woke,
        }
    }
}

/// The action that follows `pending` once `input` is reported, for a wait of
/// at most `timeout` nanoseconds.
///
/// A clock reading below the timeout leads to a connection attempt, any other
/// reading ends the wait without success. A successful attempt ends the wait at
/// once; a failed one leads to a sleep, and waking up to the next clock
/// reading. A finished wait stays finished, and a report that does not answer
/// the pending action is ignored.
pub open spec fn next_action(timeout: nat, pending: ProbeAction, input: ProbeInput) -> ProbeAction {
    match (pending, input) {
        (ProbeAction::ReadClock, ProbeInput::Elapsed(nanos)) => {
            if nanos < timeout {
                ProbeAction::Connect
            } else {
                ProbeAction::Finish(false)
            }
        },
        (ProbeAction::Connect, ProbeInput::Connected(ok)) => {
            if ok {
                ProbeAction::Finish(true)
            } else {
                ProbeAction::Sleep
            }
        },
        (ProbeAction::Sleep, ProbeInput::Woke) => ProbeAction::ReadClock,
        _ => pending,
    }
}

/// Whatever the driver reports, a wait that is still going on ends without
/// success only on a clock reading at or past the timeout.
pub proof fn lemma_failure_only_past_timeout(timeout: nat, pending: ProbeAction, input: ProbeInput)
    requires
        !(pending is Finish),
        next_action(timeout, pending, input) == ProbeAction::Finish(false),
    ensures
        pending is ReadClock,
        input matches ProbeInput::Elapsed(nanos) && nanos >= timeout,
{
}

/// Whatever the driver reports, a wait that is still going on ends with
/// success only on a connection attempt that succeeded, and then at once.
pub proof fn lemma_success_only_on_connection(timeout: nat, pending: ProbeAction, input: ProbeInput)
    ensures
        !(pending is Finish) && next_action(timeout, pending, input) == ProbeAction::Finish(true)
            ==> pending is Connect && input == ProbeInput::Connected(true),
        next_action(timeout, ProbeAction::Connect, ProbeInput::Connected(true))
            == ProbeAction::Finish(true),
{
}

/// A prober as contracts see it.
pub struct ProberState {
    /// The longest wait, in nanoseconds.
    pub timeout: nat,
    /// What the driver was last told to do.
    pub pending: ProbeAction,
}

/// The state of one wait for the server.
pub struct Prober {
    timeout_nanos: u128,
    pending: ProbeAction,
}

impl View for Prober {
    type V = ProberState;

    closed spec fn view(&self) -> ProberState {
        ProberState { timeout: self.timeout_nanos as nat, pending: self.pending }
    }
}

impl Prober {
    /// Begins a wait of at most `timeout_nanos` nanoseconds. The first thing
    /// the driver has to do is read the clock. With a timeout of zero that
    /// first reading already ends the wait, before any connection attempt.
    pub fn new(timeout_nanos: u128) -> (prober: Prober)
        ensures
            prober@.timeout == timeout_nanos,
            prober@.pending == ProbeAction::ReadClock,
    {
        Prober { timeout_nanos, pending: ProbeAction::ReadClock }
    }

    /// The longest wait, in nanoseconds.
    pub fn timeout_nanos(&self) -> (nanos: u128)
        ensures
            nanos == self@.timeout,
    {
        self.timeout_nanos
    }

    /// What the driver has to do now.
    pub fn pending(&self) -> (action: ProbeAction)
        ensures
            action == self@.pending,
    {
        self.pending
    }

    /// The result of the wait, once it is over.
    pub fn verdict(&self) -> (ready: Option<bool>)
        ensures
            ready == match self@.pending {
                ProbeAction::Finish(ready) => Some(ready),
                _ => None,
            },
    {
        match self.pending {
            ProbeAction::Finish(ready) => Some(ready),
            _ => None,
        }
    }

    /// Takes in what the driver reports and says what to do next.
    pub fn advance(&mut self, event: ProbeEvent) -> (next: ProbeAction)
        ensures
            final(self)@.timeout == old(self)@.timeout,
            final(self)@.pending == next_action(old(self)@.timeout, old(self)@.pending, event@),
            next == final(self)@.pending,
    {
        let next: ProbeAction = match (self.pending, event) {
            (ProbeAction::ReadClock, ProbeEvent::Elapsed(nanos)) => {
                if nanos < self.timeout_nanos {
                    ProbeAction::Connect
                } else {
                    ProbeAction::Finish(false)
                }
            },
            (ProbeAction::Connect, ProbeEvent::Connected(ok)) => {
                if ok {
                    ProbeAction::Finish(true)
                } else {
                    ProbeAction::Sleep
                }
            },
            (ProbeAction::Sleep, ProbeEvent::Woke) => ProbeAction::ReadClock,
            (pending, _) => pending,
        };
        self.pending = next;
        next
    }
}

} // verus!
