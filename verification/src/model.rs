//! A model of the other side: a kernel queue of whole records behind a
//! level-triggered descriptor, and a source that answers from it.
//!
//! The model says how a well-behaved source replies; `World::poll` is then
//! what a stream's poll does against such a source, by the same functions
//! that the polls' contracts use. The laws of the drain are proved of it.

use vstd::prelude::*;
use crate::awaiter::{clears, terminal_error, turn_gate, turn_outcome, Progress, Replies};
use crate::buffer::Staging;
use crate::error::Error;
use crate::gate::{GateState, Readiness};
use crate::request::{
    staged_poll_gate, staged_poll_outcome, staged_poll_staging, turn_takes, StagedReplies,
};

verus! {

/// Whether `len` bytes are a whole number of records of `size` bytes.
pub open spec fn whole(len: nat, size: nat) -> bool
    decreases len,
{
    len == 0 || (size >= 1 && len >= size && whole((len - size) as nat, size))
}

/// The bytes of the whole records that are queued and fit: of `queued` bytes
/// in records of `size` bytes, into `room` bytes.
pub open spec fn fit(queued: nat, room: nat, size: nat) -> nat
    decreases queued,
{
    if size >= 1 && queued >= size && room >= size {
        size + fit((queued - size) as nat, (room - size) as nat, size)
    } else {
        0
    }
}

/// The whole records of `size` bytes that `bytes` holds, first to last.
pub open spec fn records(bytes: Seq<u8>, size: nat) -> Seq<Seq<u8>>
    decreases bytes.len(),
{
    if size >= 1 && bytes.len() >= size {
        seq![bytes.take(size as int)] + records(bytes.skip(size as int), size)
    } else {
        Seq::empty()
    }
}

/// A stream and what it reads from.
pub struct World<T> {
    /// The bytes of the records that the kernel has queued, oldest first.
    pub queue: Seq<u8>,
    /// The size of one record.
    pub size: nat,
    /// What the decode layer makes of a record.
    pub decode: spec_fn(Seq<u8>) -> Result<T, Error>,
    /// The readiness gate of the descriptor.
    pub gate: GateState,
    /// The stream's staged buffer, if it stages.
    pub staging: Option<Staging>,
    /// The error that ended the stream, if one did.
    pub failed: Option<Error>,
}

impl<T> World<T> {
    /// What the reactor answers: readiness is level-triggered, so the
    /// descriptor is readable exactly while records are queued.
    pub open spec fn reactor(self) -> Result<Readiness, Error> {
        if self.queue.len() > 0 {
            Ok(Readiness::Ready)
        } else {
            Ok(Readiness::Pending)
        }
    }

    /// What the source answers when asked whether data is pending.
    pub open spec fn pending(self) -> Result<bool, Error> {
        Ok(self.queue.len() > 0)
    }

    /// How many bytes a take removes from the queue: one record where the
    /// stream stages nothing, else the records that fit the buffer.
    pub open spec fn taken_len(self) -> nat {
        match self.staging {
            Some(staging) => fit(self.queue.len(), staging.capacity, self.size),
            None => if self.queue.len() >= self.size {
                self.size
            } else {
                0
            },
        }
    }

    /// What the source answers to the second query, after the take.
    pub open spec fn pending_after_take(self) -> Result<bool, Error> {
        Ok(self.queue.len() - self.taken_len() > 0)
    }

    /// The source's replies to one turn of a stream that stages nothing.
    pub open spec fn replies(self) -> Replies<T> {
        Replies {
            first: self.pending(),
            taken: Some((self.decode)(self.queue.take(self.size as int))),
            second: self.pending_after_take(),
        }
    }

    /// The source's replies to one poll of a stream that stages in `staging`.
    pub open spec fn staged_replies(self, staging: Staging) -> StagedReplies<T> {
        let batch = Ok::<Seq<u8>, Error>(self.queue.take(self.taken_len() as int));
        let shown = if staging.has_staged() {
            staging.record()
        } else {
            staging.refilled(batch).record()
        };
        StagedReplies {
            first: self.pending(),
            batch,
            decoded: (self.decode)(shown),
            second: self.pending_after_take(),
        }
    }

    /// Whether the poll reads from the kernel: it finds nothing staged, the
    /// gate ready and data pending.
    pub open spec fn takes(self) -> bool {
        &&& self.failed is None
        &&& self.staging matches Some(staging) ==> !staging.has_staged()
        &&& turn_takes(self.gate, self.reactor(), self.pending())
    }

    /// Whether the poll clears the epoch.
    pub open spec fn clears(self) -> bool {
        self.takes() && clears(self.pending(), self.pending_after_take())
    }

    /// What the poll reports.
    pub open spec fn polled(self) -> Progress<T> {
        match self.failed {
            Some(e) => Progress::Ready(Err(e)),
            None => match self.staging {
                Some(staging) => staged_poll_outcome(
                    self.staged_replies(staging),
                    staging,
                    self.gate,
                    self.reactor(),
                ),
                None => turn_outcome(self.gate, self.reactor(), self.replies()),
            },
        }
    }

    /// The world after the poll.
    pub open spec fn poll(self) -> World<T> {
        match self.failed {
            Some(_) => self,
            None => World {
                queue: if self.takes() {
                    self.queue.skip(self.taken_len() as int)
                } else {
                    self.queue
                },
                gate: match self.staging {
                    Some(staging) => staged_poll_gate(
                        self.staged_replies(staging),
                        staging,
                        self.gate,
                        self.reactor(),
                    ),
                    None => turn_gate(
                        self.gate,
                        self.reactor(),
                        self.pending(),
                        self.pending_after_take(),
                    ),
                },
                staging: match self.staging {
                    Some(staging) => Some(
                        staged_poll_staging(
                            self.staged_replies(staging),
                            staging,
                            self.gate,
                            self.reactor(),
                        ),
                    ),
                    None => None,
                },
                failed: terminal_error(self.polled()),
                ..self
            },
        }
    }

    /// The bytes not yet served: what is staged and unread, then the queue.
    pub open spec fn backlog(self) -> Seq<u8> {
        match self.staging {
            Some(staging) => staging.bytes.skip(staging.cursor as int) + self.queue,
            None => self.queue,
        }
    }

    /// What the first `n` polls report, in order.
    pub open spec fn drive(self, n: nat) -> Seq<Progress<T>>
        decreases n,
    {
        if n == 0 {
            Seq::empty()
        } else {
            seq![self.polled()] + self.poll().drive((n - 1) as nat)
        }
    }

    /// The world after `n` polls.
    pub open spec fn after(self, n: nat) -> World<T>
        decreases n,
    {
        if n == 0 {
            self
        } else {
            self.poll().after((n - 1) as nat)
        }
    }

    /// How many of the first `n` polls clear the epoch.
    pub open spec fn clearings(self, n: nat) -> nat
        decreases n,
    {
        if n == 0 {
            0
        } else {
            (if self.clears() { 1nat } else { 0nat }) + self.poll().clearings((n - 1) as nat)
        }
    }

    /// That the decode layer reports no I/O error: it only computes.
    pub open spec fn decodes_without_io(self) -> bool {
        forall|record: Seq<u8>| !(#[trigger] (self.decode)(record) matches Err(Error::Io(_)))
    }

    /// What holds of a live stream between polls: the queue and the unread
    /// staged bytes are whole records, the buffer is well formed, the readiness gate is
    /// registered, and an epoch is open only while records are queued.
    pub open spec fn inv(self) -> bool {
        &&& self.size >= 1
        &&& whole(self.queue.len(), self.size)
        &&& self.gate != GateState::Unregistered
        &&& self.gate == GateState::ReadyEpochOpen ==> self.queue.len() > 0
        &&& self.failed is None
        &&& self.decodes_without_io()
        &&& self.staging matches Some(staging) ==> {
            &&& staging.wf()
            &&& staging.event_size == self.size
            &&& whole((staging.bytes.len() - staging.cursor) as nat, self.size)
        }
    }
}

} // verus!
