//! The chip adapter: line-info-change events, one at a time or as a stream.

use vstd::prelude::*;
use crate::awaiter::{
    note_terminal, read_one, terminal_error, turn_accounts_for, Progress, Replies,
};
use crate::error::Error;
use crate::gate::{GateState, Readiness, ReadinessGate};
use crate::source::EventSource;

verus! {

/// A chip together with the readiness gate of its descriptor. One task owns
/// it.
pub struct AsyncChip<S: EventSource> {
    chip: S,
    gate: ReadinessGate,
}

impl<S: EventSource> AsyncChip<S> {
    /// The invariant: the descriptor is registered. `new` gives it and every
    /// method keeps it.
    pub open spec fn wf(&self) -> bool {
        self.gate() != GateState::Unregistered
    }

    /// The state of the readiness gate.
    pub closed spec fn gate(&self) -> GateState {
        self.gate@
    }

    /// The wrapped chip.
    pub closed spec fn chip(&self) -> S {
        self.chip
    }

    /// Wraps a chip whose descriptor the reactor has taken. The readiness gate starts
    /// closed: the first read waits for the OS.
    pub fn new(chip: S) -> (achip: Self)
        ensures
            achip.gate() == GateState::AwaitingReady,
            achip.chip() == chip,
            achip.wf(),
    {
        let mut gate = ReadinessGate::new();
        gate.register();
        AsyncChip { chip, gate }
    }

    /// The state of the readiness gate: after a read, whether the epoch was cleared.
    pub fn gate_state(&self) -> (state: GateState)
        ensures
            state == self.gate(),
    {
        self.gate.state()
    }

    /// One turn of reading a single line-info-change event; see `read_one`.
    /// `reactor` is what the reactor answered for the chip's descriptor.
    pub fn read_line_info_change_event(&mut self, reactor: Result<Readiness, Error>) -> (outcome:
        Progress<S::Event>)
        requires
            old(self).wf(),
        ensures
            exists|replies: Replies<S::Event>|
                #[trigger] turn_accounts_for(
                    replies,
                    old(self).gate(),
                    reactor,
                    final(self).gate(),
                    outcome,
                ),
            final(self).wf(),
    {
        read_one(&mut self.chip, &mut self.gate, reactor)
    }

    /// A new stream of the chip's line-info-change events. Any number may be
    /// made; each is polled with the chip it came from.
    pub fn info_change_events(&self) -> (stream: InfoChangeStream)
        ensures
            stream.failed() is None,
    {
        InfoChangeStream { failed: None }
    }
}

impl<S: EventSource> AsRef<S> for AsyncChip<S> {
    fn as_ref(&self) -> (chip: &S)
        ensures
            *chip == self.chip(),
    {
        &self.chip
    }
}

/// The endless sequence of a chip's line-info-change events. It ends only
/// with an I/O error, which every later poll repeats.
#[derive(Debug)]
pub struct InfoChangeStream {
    failed: Option<Error>,
}

impl InfoChangeStream {
    /// The I/O error that ended the stream, if one did.
    pub closed spec fn failed(&self) -> Option<Error> {
        self.failed
    }

    /// The I/O error that ended the stream, if one did.
    pub fn terminal(&self) -> (failed: Option<Error>)
        ensures
            failed == self.failed(),
    {
        self.failed
    }

    /// One poll for the next event of `chip`. A stream that has ended repeats
    /// its error and touches neither gate nor chip. Otherwise the poll is one
    /// turn of the single-event read, and an I/O error that it reports ends
    /// the stream.
    pub fn poll_next<S: EventSource>(
        &mut self,
        chip: &mut AsyncChip<S>,
        reactor: Result<Readiness, Error>,
    ) -> (outcome: Progress<S::Event>)
        requires
            old(chip).wf(),
        ensures
            final(chip).wf(),
            old(self).failed() matches Some(e) ==> {
                &&& outcome == Progress::<S::Event>::Ready(Err(e))
                &&& final(chip).gate() == old(chip).gate()
                &&& final(chip).chip() == old(chip).chip()
                &&& final(self).failed() == old(self).failed()
            },
            old(self).failed() is None ==> {
                &&& exists|replies: Replies<S::Event>|
                    #[trigger] turn_accounts_for(
                        replies,
                        old(chip).gate(),
                        reactor,
                        final(chip).gate(),
                        outcome,
                    )
                &&& final(self).failed() == terminal_error(outcome)
            },
    {
        match self.failed {
            Some(e) => Progress::Ready(Err(e)),
            None => {
                let outcome = chip.read_line_info_change_event(reactor);
                self.failed = note_terminal(&outcome);
                outcome
            },
        }
    }
}

} // verus!
