//! The line-request adapter: edge events, one at a time, in batches into a
//! caller's buffer, or as a stream that may stage batches.

use vstd::prelude::*;
use crate::awaiter::{
    first_look, note_terminal, read_one, settle, takes, terminal_error, turn_accounts_for,
    turn_gate, turn_outcome, Progress, Replies,
};
use crate::buffer::{
    batch_view, byte_capacity, copied, copy_batch, copy_count, StagedBuffer, Staging,
};
use crate::error::Error;
use crate::gate::{poll_outcome, GateState, Readiness, ReadinessGate};
use crate::source::EventSource;

verus! {

/// Whether a turn gets as far as taking from the source: the readiness gate is ready
/// and the source said that data is pending.
pub open spec fn turn_takes(
    before: GateState,
    reactor: Result<Readiness, Error>,
    first: Result<bool, Error>,
) -> bool {
    poll_outcome(before, reactor) == Ok::<Readiness, Error>(Readiness::Ready) && takes(first)
}

/// The source's replies during one turn that reads a batch into a caller's
/// buffer; `batch` counts only where the turn takes.
pub struct SliceReplies {
    pub first: Result<bool, Error>,
    pub batch: Result<Seq<u8>, Error>,
    pub second: Result<bool, Error>,
}

/// That `replies` account for a turn of reading into a buffer that held
/// `buf_before`.
pub open spec fn slice_read_accounts_for(
    replies: SliceReplies,
    buf_before: Seq<u8>,
    buf_after: Seq<u8>,
    before: GateState,
    reactor: Result<Readiness, Error>,
    after: GateState,
    outcome: Progress<usize>,
) -> bool {
    &&& turn_accounts_for(
        Replies {
            first: replies.first,
            taken: Some(copy_count(buf_before.len(), replies.batch)),
            second: replies.second,
        },
        before,
        reactor,
        after,
        outcome,
    )
    &&& buf_after == if turn_takes(before, reactor, replies.first) {
        copied(buf_before, replies.batch)
    } else {
        buf_before
    }
}

/// The source's replies during one poll of a staged stream. `batch` counts
/// only where the poll refills, `decoded` only where a whole record is shown
/// to the decoder.
pub struct StagedReplies<T> {
    pub first: Result<bool, Error>,
    pub batch: Result<Seq<u8>, Error>,
    pub decoded: Result<T, Error>,
    pub second: Result<bool, Error>,
}

/// What a take of the record at the cursor gives, where the decoder said
/// `decoded`: a record cut short gives its own error.
pub open spec fn staged_event<T>(staging: Staging, decoded: Result<T, Error>) -> Result<T, Error> {
    match staging.peeked() {
        Err(e) => Err(e),
        Ok(_) => decoded,
    }
}

/// The buffer after a refill and the take of its first record.
pub open spec fn staging_after_take(staging: Staging, batch: Result<Seq<u8>, Error>) -> Staging {
    let refilled = staging.refilled(batch);
    match staging.refill_count(batch) {
        Ok(count) => if count == 0 {
            refilled
        } else {
            refilled.advanced()
        },
        Err(_) => refilled,
    }
}

/// What that refill and take give: the refill's error, nothing for an empty
/// batch, else the first record's event.
pub open spec fn staged_taken<T>(
    staging: Staging,
    batch: Result<Seq<u8>, Error>,
    decoded: Result<T, Error>,
) -> Option<Result<T, Error>> {
    match staging.refill_count(batch) {
        Ok(count) => if count == 0 {
            None
        } else {
            Some(staged_event(staging.refilled(batch), decoded))
        },
        Err(e) => Some(Err(e)),
    }
}

/// What one poll of a staged stream reports. With unread bytes staged it is
/// the next record's event. With the buffer drained the poll is a turn whose
/// take is a refill and the take of the first record.
pub open spec fn staged_poll_outcome<T>(
    replies: StagedReplies<T>,
    staging: Staging,
    before: GateState,
    reactor: Result<Readiness, Error>,
) -> Progress<T> {
    if staging.has_staged() {
        Progress::Ready(staged_event(staging, replies.decoded))
    } else {
        turn_outcome(
            before,
            reactor,
            Replies {
                first: replies.first,
                taken: staged_taken(staging, replies.batch, replies.decoded),
                second: replies.second,
            },
        )
    }
}

/// The buffer after that poll.
pub open spec fn staged_poll_staging<T>(
    replies: StagedReplies<T>,
    staging: Staging,
    before: GateState,
    reactor: Result<Readiness, Error>,
) -> Staging {
    if staging.has_staged() {
        staging.advanced()
    } else if turn_takes(before, reactor, replies.first) {
        staging_after_take(staging, replies.batch)
    } else {
        staging
    }
}

/// The readiness gate's state after that poll: a poll that serves a staged record
/// leaves the readiness gate alone.
pub open spec fn staged_poll_gate<T>(
    replies: StagedReplies<T>,
    staging: Staging,
    before: GateState,
    reactor: Result<Readiness, Error>,
) -> GateState {
    if staging.has_staged() {
        before
    } else {
        turn_gate(before, reactor, replies.first, replies.second)
    }
}

/// That `replies` account for one poll of a staged stream.
pub open spec fn staged_poll_accounts_for<T>(
    replies: StagedReplies<T>,
    staging_before: Staging,
    staging_after: Staging,
    before: GateState,
    reactor: Result<Readiness, Error>,
    after: GateState,
    outcome: Progress<T>,
) -> bool {
    &&& outcome == staged_poll_outcome(replies, staging_before, before, reactor)
    &&& staging_after == staged_poll_staging(replies, staging_before, before, reactor)
    &&& after == staged_poll_gate(replies, staging_before, before, reactor)
}

/// That the source's replies account for one poll of a stream: one that
/// stages polls as `staged_poll_accounts_for` says, and one that does not
/// makes one turn of the single-event read.
pub open spec fn stream_poll_accounts_for<T>(
    staging_before: Option<Staging>,
    staging_after: Option<Staging>,
    before: GateState,
    reactor: Result<Readiness, Error>,
    after: GateState,
    outcome: Progress<T>,
) -> bool {
    match staging_before {
        Some(staged) => {
            &&& staging_after is Some
            &&& exists|replies: StagedReplies<T>| #[trigger]
                staged_poll_accounts_for(
                    replies,
                    staged,
                    staging_after->0,
                    before,
                    reactor,
                    after,
                    outcome,
                )
        },
        None => {
            &&& staging_after is None
            &&& exists|replies: Replies<T>| #[trigger]
                turn_accounts_for(replies, before, reactor, after, outcome)
        },
    }
}

/// A line request together with the readiness gate of its descriptor. One
/// task owns it.
pub struct AsyncRequest<S: EventSource> {
    req: S,
    gate: ReadinessGate,
}

impl<S: EventSource> AsyncRequest<S> {
    /// The invariant: the descriptor is registered. `new` gives it and every
    /// method keeps it.
    pub open spec fn wf(&self) -> bool {
        self.gate() != GateState::Unregistered
    }

    /// The state of the readiness gate.
    pub closed spec fn gate(&self) -> GateState {
        self.gate@
    }

    /// The wrapped request.
    pub closed spec fn req(&self) -> S {
        self.req
    }

    /// Wraps a request whose descriptor the reactor has taken. The readiness gate
    /// starts closed: the first read waits for the OS.
    pub fn new(req: S) -> (areq: Self)
        ensures
            areq.gate() == GateState::AwaitingReady,
            areq.req() == req,
            areq.wf(),
    {
        let mut gate = ReadinessGate::new();
        gate.register();
        AsyncRequest { req, gate }
    }

    /// The state of the readiness gate: after a read, whether the epoch was cleared.
    pub fn gate_state(&self) -> (state: GateState)
        ensures
            state == self.gate(),
    {
        self.gate.state()
    }

    /// One turn of reading a single edge event; see `read_one`. `reactor` is
    /// what the reactor answered for the request's descriptor.
    pub fn read_edge_event(&mut self, reactor: Result<Readiness, Error>) -> (outcome: Progress<
        S::Event,
    >)
        requires
            old(self).wf(),
        ensures
            exists|replies: Replies<S::Event>|
                #[trigger] turn_accounts_for(
                    replies,
                    old(self).gate(),
                    reactor,
                    final(self).gate(),
                    outcome,
                ),
            final(self).wf(),
    {
        read_one(&mut self.req, &mut self.gate, reactor)
    }

    /// One turn of reading edge events into `buf`: a turn like that of
    /// `read_edge_event`, whose take is one batch read for as many bytes as
    /// `buf` has, copied to the front of `buf`. Reports the count of bytes
    /// read.
    pub fn read_edge_events_into_slice(
        &mut self,
        buf: &mut Vec<u8>,
        reactor: Result<Readiness, Error>,
    ) -> (outcome: Progress<usize>)
        requires
            old(self).wf(),
        ensures
            exists|replies: SliceReplies| #[trigger]
                slice_read_accounts_for(
                    replies,
                    old(buf)@,
                    final(buf)@,
                    old(self).gate(),
                    reactor,
                    final(self).gate(),
                    outcome,
                ),
            final(self).wf(),
    {
        let ghost idle = SliceReplies { first: Ok(false), batch: Ok(Seq::empty()), second: Ok(false) };
        match self.gate.poll_readable(reactor) {
            Err(e) => {
                let outcome = Progress::Ready(Err(e));
                assert(slice_read_accounts_for(
                    idle,
                    old(buf)@,
                    buf@,
                    old(self).gate(),
                    reactor,
                    self.gate(),
                    outcome,
                ));
                outcome
            },
            Ok(Readiness::Pending) => {
                assert(slice_read_accounts_for(
                    idle,
                    old(buf)@,
                    buf@,
                    old(self).gate(),
                    reactor,
                    self.gate(),
                    Progress::Pending,
                ));
                Progress::Pending
            },
            Ok(Readiness::Ready) => {
                let first = self.req.has_pending();
                match first_look(first) {
                    Some(early) => {
                        assert(slice_read_accounts_for(
                            SliceReplies { first, batch: Ok(Seq::empty()), second: first },
                            old(buf)@,
                            buf@,
                            old(self).gate(),
                            reactor,
                            self.gate(),
                            early,
                        ));
                        early
                    },
                    None => {
                        let batch = self.req.take_batch(buf.len());
                        let ghost reply = batch_view(batch);
                        let taken = Some(copy_batch(buf, batch));
                        let second = self.req.has_pending();
                        let outcome = settle(&mut self.gate, taken, second);
                        assert(slice_read_accounts_for(
                            SliceReplies { first, batch: reply, second },
                            old(buf)@,
                            buf@,
                            old(self).gate(),
                            reactor,
                            self.gate(),
                            outcome,
                        ));
                        outcome
                    },
                }
            },
        }
    }

    /// A new stream of the request's edge events that stages up to `capacity`
    /// events per read; a capacity of 0 counts as 1.
    pub fn new_edge_event_stream(&self, capacity: usize) -> (stream: EdgeEventStream)
        ensures
            stream.failed() is None,
            stream.staging() matches Some(staging) && staging.wf() && staging.bytes.len() == 0
                && staging.cursor == 0 && staging.capacity == byte_capacity(
                capacity,
                staging.event_size as usize,
            ),
    {
        let events = StagedBuffer::new(capacity, self.req.event_size());
        EdgeEventStream { events: Some(events), failed: None }
    }

    /// A new stream of the request's edge events that stages nothing: each
    /// event is read by itself.
    pub fn edge_events(&self) -> (stream: EdgeEventStream)
        ensures
            stream.failed() is None,
            stream.staging() is None,
    {
        EdgeEventStream { events: None, failed: None }
    }
}

impl<S: EventSource> AsRef<S> for AsyncRequest<S> {
    fn as_ref(&self) -> (req: &S)
        ensures
            *req == self.req(),
    {
        &self.req
    }
}

/// One poll of a staged stream; see `staged_poll_accounts_for`.
pub fn poll_staged<S: EventSource>(
    events: &mut StagedBuffer,
    source: &mut S,
    gate: &mut ReadinessGate,
    reactor: Result<Readiness, Error>,
) -> (outcome: Progress<S::Event>)
    requires
        old(gate)@ != GateState::Unregistered,
    ensures
        exists|replies: StagedReplies<S::Event>| #[trigger]
            staged_poll_accounts_for(
                replies,
                old(events)@,
                final(events)@,
                old(gate)@,
                reactor,
                final(gate)@,
                outcome,
            ),
        final(gate)@ != GateState::Unregistered,
        final(events)@.wf(),
{
    let ghost nothing: Result<S::Event, Error> = Err(Error::Io(0));
    let ghost idle = StagedReplies::<S::Event> {
        first: Ok(false),
        batch: Ok(Seq::empty()),
        decoded: nothing,
        second: Ok(false),
    };
    if events.has_staged() {
        let event = events.take_staged(source);
        let outcome = Progress::Ready(event);
        assert(staged_poll_accounts_for(
            StagedReplies { decoded: event, ..idle },
            old(events)@,
            events@,
            old(gate)@,
            reactor,
            gate@,
            outcome,
        ));
        return outcome;
    }
    match gate.poll_readable(reactor) {
        Err(e) => {
            let outcome = Progress::Ready(Err(e));
            assert(staged_poll_accounts_for(
                idle,
                old(events)@,
                events@,
                old(gate)@,
                reactor,
                gate@,
                outcome,
            ));
            outcome
        },
        Ok(Readiness::Pending) => {
            assert(staged_poll_accounts_for(
                idle,
                old(events)@,
                events@,
                old(gate)@,
                reactor,
                gate@,
                Progress::<S::Event>::Pending,
            ));
            Progress::Pending
        },
        Ok(Readiness::Ready) => {
            let first = source.has_pending();
            match first_look(first) {
                Some(early) => {
                    assert(staged_poll_accounts_for(
                        StagedReplies { first, second: first, ..idle },
                        old(events)@,
                        events@,
                        old(gate)@,
                        reactor,
                        gate@,
                        early,
                    ));
                    early
                },
                None => {
                    let count = events.refill(source);
                    let ghost batch = choose|batch: Result<Seq<u8>, Error>|
                        {
                            &&& events@ == #[trigger] old(events)@.refilled(batch)
                            &&& count == old(events)@.refill_count(batch)
                        };
                    let ghost mut decoded = nothing;
                    let taken = match count {
                        Err(e) => Some(Err(e)),
                        Ok(staged) => {
                            if staged == 0 {
                                None
                            } else {
                                let event = events.take_staged(source);
                                proof {
                                    decoded = event;
                                }
                                Some(event)
                            }
                        },
                    };
                    let second = source.has_pending();
                    let outcome = settle(gate, taken, second);
                    assert(staged_poll_accounts_for(
                        StagedReplies { first, batch, decoded, second },
                        old(events)@,
                        events@,
                        old(gate)@,
                        reactor,
                        gate@,
                        outcome,
                    ));
                    outcome
                },
            }
        },
    }
}

/// The endless sequence of a request's edge events, read one by one or
/// through a staged buffer. It ends only with an I/O error, which every later
/// poll repeats.
#[derive(Debug)]
pub struct EdgeEventStream {
    events: Option<StagedBuffer>,
    failed: Option<Error>,
}

impl EdgeEventStream {
    /// The I/O error that ended the stream, if one did.
    pub closed spec fn failed(&self) -> Option<Error> {
        self.failed
    }

    /// The content of the staged buffer, if the stream stages.
    pub closed spec fn staging(&self) -> Option<Staging> {
        match self.events {
            Some(events) => Some(events@),
            None => None,
        }
    }

    /// The I/O error that ended the stream, if one did.
    pub fn terminal(&self) -> (failed: Option<Error>)
        ensures
            failed == self.failed(),
    {
        self.failed
    }

    /// Whether a poll can serve an event from the staged buffer, without the
    /// gate and the OS.
    pub fn has_staged(&self) -> (staged: bool)
        ensures
            staged == (self.staging() matches Some(staging) && staging.has_staged()),
    {
        match &self.events {
            Some(events) => events.has_staged(),
            None => false,
        }
    }

    /// One poll for the next event of `request`. A stream that has ended
    /// repeats its error and touches nothing. Otherwise a stream that stages
    /// polls as `staged_poll_accounts_for` says and one that does not makes
    /// one turn of the single-event read; an I/O error that the poll reports
    /// ends the stream.
    pub fn poll_next<S: EventSource>(
        &mut self,
        request: &mut AsyncRequest<S>,
        reactor: Result<Readiness, Error>,
    ) -> (outcome: Progress<S::Event>)
        requires
            old(request).wf(),
        ensures
            final(request).wf(),
            old(self).failed() matches Some(e) ==> {
                &&& outcome == Progress::<S::Event>::Ready(Err(e))
                &&& final(request).gate() == old(request).gate()
                &&& final(request).req() == old(request).req()
                &&& final(self).failed() == old(self).failed()
                &&& final(self).staging() == old(self).staging()
            },
            old(self).failed() is None ==> final(self).failed() == terminal_error(outcome),
            old(self).failed() is None ==> stream_poll_accounts_for(
                old(self).staging(),
                final(self).staging(),
                old(request).gate(),
                reactor,
                final(request).gate(),
                outcome,
            ),
    {
        match self.failed {
            Some(e) => Progress::Ready(Err(e)),
            None => {
                let outcome = match self.events.take() {
                    Some(mut events) => {
                        let ghost before = events@;
                        let outcome = poll_staged(
                            &mut events,
                            &mut request.req,
                            &mut request.gate,
                            reactor,
                        );
                        assert(exists|replies: StagedReplies<S::Event>| #[trigger]
                            staged_poll_accounts_for(
                                replies,
                                before,
                                events@,
                                old(request).gate(),
                                reactor,
                                request.gate(),
                                outcome,
                            ));
                        self.events = Some(events);
                        assert(old(self).staging() is Some && old(self).staging()->0 == before);
                        assert(self.staging() is Some && self.staging()->0 == events@);
                        assert(stream_poll_accounts_for(
                            old(self).staging(),
                            self.staging(),
                            old(request).gate(),
                            reactor,
                            request.gate(),
                            outcome,
                        ));
                        outcome
                    },
                    None => {
                        let outcome = request.read_edge_event(reactor);
                        assert(stream_poll_accounts_for(
                            old(self).staging(),
                            self.staging(),
                            old(request).gate(),
                            reactor,
                            request.gate(),
                            outcome,
                        ));
                        outcome
                    },
                };
                self.failed = note_terminal(&outcome);
                outcome
            },
        }
    }
}

} // verus!
