//! One read attempt, made while a readiness epoch is open.
//!
//! The attempt asks the source whether data is pending, takes what there is,
//! and asks again: the second answer decides whether the epoch is cleared. An
//! epoch cleared while data is left would stall the reader, since the OS does
//! not report that data again; one left open with nothing left would make the
//! reader spin.

use vstd::prelude::*;
use crate::error::Error;
use crate::gate::{
    poll_outcome, state_after_clear, state_after_poll, GateState, Readiness, ReadinessGate,
};
use crate::source::EventSource;

verus! {

/// How far one poll or one read attempt got.
#[derive(Debug, PartialEq, Eq)]
pub enum Progress<T> {
    /// The descriptor is not readable; come back after a wake-up.
    Pending,
    /// Readiness was reported but nothing could be taken. Nothing was
    /// consumed; ask the readiness gate again.
    Retry,
    /// The attempt is over, with what was taken or why not.
    Ready(Result<T, Error>),
}

/// The error that ends a stream for good, if `outcome` carries one: only an
/// I/O error does.
pub open spec fn terminal_error<T>(outcome: Progress<T>) -> Option<Error> {
    match outcome {
        Progress::Ready(Err(Error::Io(errno))) => Some(Error::Io(errno)),
        _ => None,
    }
}

/// The error to remember after a poll that reported `outcome`.
pub fn note_terminal<T>(outcome: &Progress<T>) -> (failed: Option<Error>)
    ensures
        failed == terminal_error(*outcome),
{
    match outcome {
        Progress::Ready(Err(Error::Io(errno))) => Some(Error::Io(*errno)),
        _ => None,
    }
}

/// The source's replies during one attempt, in the order they are asked for.
/// `taken` counts only where `first` is `Ok(true)`, and `second` likewise:
/// otherwise neither is asked for. A `taken` of `None` stands for a take that
/// found nothing.
pub struct Replies<T> {
    pub first: Result<bool, Error>,
    pub taken: Option<Result<T, Error>>,
    pub second: Result<bool, Error>,
}

/// Whether the attempt goes on to take: only after the source said that data
/// is pending.
pub open spec fn takes(first: Result<bool, Error>) -> bool {
    first == Ok::<bool, Error>(true)
}

/// Whether the attempt clears the epoch: it took, and the source then said
/// that nothing is left.
pub open spec fn clears(first: Result<bool, Error>, second: Result<bool, Error>) -> bool {
    takes(first) && second == Ok::<bool, Error>(false)
}

/// What the attempt reports. A failing query is reported as it is, and the
/// second one hides what was taken. A spurious wake (`first` is `Ok(false)`)
/// and an empty take ask for a retry.
pub open spec fn attempt_outcome<T>(replies: Replies<T>) -> Progress<T> {
    match replies.first {
        Err(e) => Progress::Ready(Err(e)),
        Ok(false) => Progress::Retry,
        Ok(true) => match replies.second {
            Err(e) => Progress::Ready(Err(e)),
            Ok(_) => match replies.taken {
                None => Progress::Retry,
                Some(taken) => Progress::Ready(taken),
            },
        },
    }
}

/// The readiness gate's state after the attempt.
pub open spec fn attempt_gate(before: GateState, first: Result<bool, Error>, second: Result<
    bool,
    Error,
>) -> GateState {
    if clears(first, second) {
        state_after_clear(before)
    } else {
        before
    }
}

/// The first decision of an attempt: what to do once the source has said
/// whether data is pending. `None` means: go on and take.
pub fn first_look<T>(first: Result<bool, Error>) -> (early: Option<Progress<T>>)
    ensures
        early is None <==> takes(first),
        early matches Some(p) ==> forall|taken: Option<Result<T, Error>>, second: Result<bool, Error>|
            p == #[trigger] attempt_outcome(Replies { first, taken, second }),
{
    match first {
        Err(e) => Some(Progress::Ready(Err(e))),
        Ok(false) => Some(Progress::Retry),
        Ok(true) => None,
    }
}

/// The last decision of an attempt that took: `still_pending` is the source's
/// answer after the take. The epoch is cleared if and only if that answer is
/// `Ok(false)`, whatever was taken, also a decode error.
pub fn settle<T>(
    gate: &mut ReadinessGate,
    taken: Option<Result<T, Error>>,
    still_pending: Result<bool, Error>,
) -> (outcome: Progress<T>)
    ensures
        outcome == attempt_outcome(Replies { first: Ok(true), taken, second: still_pending }),
        final(gate)@ == attempt_gate(old(gate)@, Ok(true), still_pending),
        !(outcome is Pending),
{
    match still_pending {
        Err(e) => Progress::Ready(Err(e)),
        Ok(pending) => {
            if !pending {
                gate.clear();
            }
            match taken {
                None => Progress::Retry,
                Some(result) => Progress::Ready(result),
            }
        },
    }
}

/// That `replies` account for an attempt that began with the readiness gate in state
/// `before`, ended with it in state `after` and reported `outcome`.
pub open spec fn accounts_for<T>(
    replies: Replies<T>,
    before: GateState,
    after: GateState,
    outcome: Progress<T>,
) -> bool {
    &&& outcome == attempt_outcome(replies)
    &&& after == attempt_gate(before, replies.first, replies.second)
}

/// One attempt to read a single event from `source`, for a caller that holds
/// an open epoch of `gate`. The source's replies decide the outcome as
/// `attempt_outcome` and `attempt_gate` say; the attempt never reports
/// `Pending`.
pub fn read_ready<S: EventSource>(source: &mut S, gate: &mut ReadinessGate) -> (outcome: Progress<
    S::Event,
>)
    ensures
        exists|replies: Replies<S::Event>|
            #[trigger] accounts_for(replies, old(gate)@, final(gate)@, outcome),
        !(outcome is Pending),
{
    let first = source.has_pending();
    match first_look(first) {
        Some(early) => {
            proof {
                let replies = Replies::<S::Event> { first, taken: None, second: first };
                assert(early == attempt_outcome(replies));
                assert(accounts_for(replies, old(gate)@, gate@, early));
            }
            early
        },
        None => {
            let taken = Some(source.take_one());
            let second = source.has_pending();
            let outcome = settle(gate, taken, second);
            proof {
                let replies = Replies { first, taken, second };
                assert(accounts_for(replies, old(gate)@, gate@, outcome));
            }
            outcome
        },
    }
}

/// What one turn reports: a poll of the readiness gate and, if that is ready, an
/// attempt. A gate that fails is reported as it is.
pub open spec fn turn_outcome<T>(
    before: GateState,
    reactor: Result<Readiness, Error>,
    replies: Replies<T>,
) -> Progress<T> {
    match poll_outcome(before, reactor) {
        Err(e) => Progress::Ready(Err(e)),
        Ok(Readiness::Pending) => Progress::Pending,
        Ok(Readiness::Ready) => attempt_outcome(replies),
    }
}

/// The readiness gate's state after that turn.
pub open spec fn turn_gate(
    before: GateState,
    reactor: Result<Readiness, Error>,
    first: Result<bool, Error>,
    second: Result<bool, Error>,
) -> GateState {
    let polled = state_after_poll(before, reactor);
    if poll_outcome(before, reactor) == Ok::<Readiness, Error>(Readiness::Ready) {
        attempt_gate(polled, first, second)
    } else {
        polled
    }
}

/// That `replies` account for a turn.
pub open spec fn turn_accounts_for<T>(
    replies: Replies<T>,
    before: GateState,
    reactor: Result<Readiness, Error>,
    after: GateState,
    outcome: Progress<T>,
) -> bool {
    &&& outcome == turn_outcome(before, reactor, replies)
    &&& after == turn_gate(before, reactor, replies.first, replies.second)
}

/// One turn of the single-event read: polls `gate`, where `reactor` is what
/// the reactor answered for the descriptor, and on readiness makes one
/// attempt on `source`. The caller suspends on `Pending`, turns again on
/// `Retry` and is done on `Ready`. A pending or failed gate leaves the source
/// alone and the readiness gate as it was.
pub fn read_one<S: EventSource>(
    source: &mut S,
    gate: &mut ReadinessGate,
    reactor: Result<Readiness, Error>,
) -> (outcome: Progress<S::Event>)
    requires
        old(gate)@ != GateState::Unregistered,
    ensures
        exists|replies: Replies<S::Event>|
            #[trigger] turn_accounts_for(replies, old(gate)@, reactor, final(gate)@, outcome),
        final(gate)@ != GateState::Unregistered,
{
    match gate.poll_readable(reactor) {
        Err(e) => {
            let outcome = Progress::Ready(Err(e));
            proof {
                let replies = Replies::<S::Event> { first: Ok(false), taken: None, second: Ok(false) };
                assert(turn_accounts_for(replies, old(gate)@, reactor, gate@, outcome));
            }
            outcome
        },
        Ok(Readiness::Pending) => {
            proof {
                let replies = Replies::<S::Event> { first: Ok(false), taken: None, second: Ok(false) };
                assert(turn_accounts_for(replies, old(gate)@, reactor, gate@, Progress::Pending));
            }
            Progress::Pending
        },
        Ok(Readiness::Ready) => {
            let ghost polled = gate@;
            let outcome = read_ready(source, gate);
            proof {
                let replies = choose|replies: Replies<S::Event>|
                    #[trigger] accounts_for(replies, polled, gate@, outcome);
                assert(turn_accounts_for(replies, old(gate)@, reactor, gate@, outcome));
            }
            outcome
        },
    }
}

} // verus!
