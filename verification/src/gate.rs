//! The readiness gate: what is known of a descriptor's readiness, and who
//! decides when that knowledge is given up.
//!
//! The reactor reports readiness by level. The readiness gate remembers one report as an
//! open epoch until its holder clears it. While the epoch is open a suspension
//! resolves at once, without the OS; once cleared, only a new report from the
//! reactor opens it again.

use vstd::prelude::*;
use crate::error::Error;

verus! {

/// The state of a gate.
#[derive(Clone, Copy, Debug, PartialEq, Eq, Structural)]
pub enum GateState {
    /// The descriptor is not known to the reactor.
    Unregistered,
    /// Registered; the next suspension waits for the OS.
    AwaitingReady,
    /// A readiness report is held; the next suspension resolves at once.
    ReadyEpochOpen,
}

/// What a readiness query answers: of the reactor when it is asked about the
/// descriptor, and of the readiness gate when it is polled.
#[derive(Clone, Copy, Debug, PartialEq, Eq, Structural)]
pub enum Readiness {
    /// Not readable yet; a wake-up is registered.
    Pending,
    /// Readable.
    Ready,
}

/// The readiness gate's state after a poll in state `state` for which the reactor
/// answered `reactor`. An open epoch stays open whatever the reactor says, and
/// only a report of readiness opens a closed one.
pub open spec fn state_after_poll(state: GateState, reactor: Result<Readiness, Error>) -> GateState {
    if state == GateState::AwaitingReady && reactor == Ok::<Readiness, Error>(Readiness::Ready) {
        GateState::ReadyEpochOpen
    } else {
        state
    }
}

/// What a poll in state `state` resolves to. With an open epoch the reactor's
/// answer is not looked at.
pub open spec fn poll_outcome(state: GateState, reactor: Result<Readiness, Error>) -> Result<
    Readiness,
    Error,
> {
    if state == GateState::ReadyEpochOpen {
        Ok(Readiness::Ready)
    } else {
        reactor
    }
}

/// The readiness gate's state after a clear: an open epoch is closed, any other state
/// stays.
pub open spec fn state_after_clear(state: GateState) -> GateState {
    if state == GateState::ReadyEpochOpen {
        GateState::AwaitingReady
    } else {
        state
    }
}

/// The readiness bookkeeping of one descriptor, owned by one adapter.
#[derive(Debug)]
pub struct ReadinessGate {
    state: GateState,
}

impl View for ReadinessGate {
    type V = GateState;

    closed spec fn view(&self) -> GateState {
        self.state
    }
}

impl ReadinessGate {
    /// A gate for a descriptor that the reactor does not know yet.
    pub fn new() -> (gate: Self)
        ensures
            gate@ == GateState::Unregistered,
    {
        ReadinessGate { state: GateState::Unregistered }
    }

    /// Records that the reactor took the descriptor. A registered gate stays
    /// as it is.
    pub fn register(&mut self)
        ensures
            final(self)@ == if old(self)@ == GateState::Unregistered {
                GateState::AwaitingReady
            } else {
                old(self)@
            },
    {
        if self.state == GateState::Unregistered {
            self.state = GateState::AwaitingReady;
        }
    }

    /// The current state.
    pub fn state(&self) -> (state: GateState)
        ensures
            state == self@,
    {
        self.state
    }

    /// Whether a readiness epoch is open.
    pub fn is_open(&self) -> (open: bool)
        ensures
            open == (self@ == GateState::ReadyEpochOpen),
    {
        self.state == GateState::ReadyEpochOpen
    }

    /// Whether the next suspension has to ask the OS.
    pub fn needs_os_wait(&self) -> (wait: bool)
        ensures
            wait == (self@ == GateState::AwaitingReady),
    {
        self.state == GateState::AwaitingReady
    }

    /// One cooperative poll. `reactor` is what the reactor answered for the
    /// descriptor; with an open epoch it is ignored and the poll is ready at
    /// once. A pending or failed poll leaves the readiness gate as it was, so a
    /// suspension that is dropped changes nothing.
    pub fn poll_readable(&mut self, reactor: Result<Readiness, Error>) -> (outcome: Result<
        Readiness,
        Error,
    >)
        requires
            old(self)@ != GateState::Unregistered,
        ensures
            outcome == poll_outcome(old(self)@, reactor),
            final(self)@ == state_after_poll(old(self)@, reactor),
    {
        if self.state == GateState::ReadyEpochOpen {
            return Ok(Readiness::Ready);
        }
        match reactor {
            Ok(Readiness::Ready) => {
                self.state = GateState::ReadyEpochOpen;
                Ok(Readiness::Ready)
            },
            Ok(Readiness::Pending) => Ok(Readiness::Pending),
            Err(e) => Err(e),
        }
    }

    /// Acknowledges the current epoch: the readiness gate needs a new report from the
    /// reactor before it resolves again. Without an open epoch nothing
    /// changes.
    pub fn clear(&mut self)
        ensures
            final(self)@ == state_after_clear(old(self)@),
    {
        if self.state == GateState::ReadyEpochOpen {
            self.state = GateState::AwaitingReady;
        }
    }
}

} // verus!
