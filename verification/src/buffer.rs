//! The staged event buffer: a batch of kernel records held in user space, so
//! that one read serves several events.

use vstd::prelude::*;
use vstd::slice::slice_subrange;
use crate::error::{DecodeError, Error};
use crate::source::EventSource;

verus! {

/// The mathematical content of a staged buffer: the valid bytes of the last
/// batch, the read cursor into them, the byte capacity, and the size of one
/// record.
pub struct Staging {
    pub bytes: Seq<u8>,
    pub cursor: nat,
    pub capacity: nat,
    pub event_size: nat,
}

impl Staging {
    /// The invariant: the cursor is within the valid bytes, the valid bytes
    /// within the capacity, a record has at least one byte, and the capacity
    /// holds at least one record.
    pub open spec fn wf(self) -> bool {
        &&& self.cursor <= self.bytes.len()
        &&& self.bytes.len() <= self.capacity
        &&& 1 <= self.event_size <= self.capacity
        &&& self.capacity <= usize::MAX
    }

    /// Whether unread bytes remain.
    pub open spec fn has_staged(self) -> bool {
        self.cursor < self.bytes.len()
    }

    /// Whether the unread bytes hold a whole record.
    pub open spec fn has_whole_record(self) -> bool {
        self.cursor + self.event_size <= self.bytes.len()
    }

    /// Where the record at the cursor ends: one record further, or at the
    /// end of the valid bytes if less than a record is left.
    pub open spec fn record_end(self) -> nat {
        if self.has_whole_record() {
            self.cursor + self.event_size
        } else {
            self.bytes.len()
        }
    }

    /// The bytes at the cursor that the next take reads.
    pub open spec fn record(self) -> Seq<u8> {
        self.bytes.subrange(self.cursor as int, self.record_end() as int)
    }

    /// What a look at the cursor finds: the record, or that it is cut short.
    pub open spec fn peeked(self) -> Result<Seq<u8>, Error> {
        if self.has_whole_record() {
            Ok(self.record())
        } else {
            Err(
                Error::Decode(
                    DecodeError::Truncated {
                        expected: self.event_size as usize,
                        found: (self.bytes.len() - self.cursor) as usize,
                    },
                ),
            )
        }
    }

    /// The buffer with the cursor moved past the record at it.
    pub open spec fn advanced(self) -> Staging {
        Staging { cursor: self.record_end(), ..self }
    }

    /// Whether a batch fits.
    pub open spec fn admits(self, batch: Seq<u8>) -> bool {
        batch.len() <= self.capacity
    }

    /// The buffer after a refill to which the source replied `batch`: a batch
    /// that fits replaces the content, one that does not is dropped, and a
    /// failed read leaves the buffer as it was.
    pub open spec fn refilled(self, batch: Result<Seq<u8>, Error>) -> Staging {
        match batch {
            Ok(bytes) => if self.admits(bytes) {
                Staging { bytes, cursor: 0, ..self }
            } else {
                Staging { bytes: Seq::empty(), cursor: 0, ..self }
            },
            Err(_) => self,
        }
    }

    /// What that refill returns: the count of valid bytes, or the error.
    pub open spec fn refill_count(self, batch: Result<Seq<u8>, Error>) -> Result<usize, Error> {
        match batch {
            Ok(bytes) => if self.admits(bytes) {
                Ok(bytes.len() as usize)
            } else {
                Err(
                    Error::Decode(
                        DecodeError::Overrun {
                            capacity: self.capacity as usize,
                            found: bytes.len() as usize,
                        },
                    ),
                )
            },
            Err(e) => Err(e),
        }
    }
}

/// The byte capacity of a buffer for `capacity` events of `event_size` bytes:
/// their product, with each factor taken as at least 1, and no more than
/// `usize::MAX`.
pub open spec fn byte_capacity(capacity: usize, event_size: usize) -> nat {
    let events: int = if capacity == 0 { 1 } else { capacity as int };
    let size: int = if event_size == 0 { 1 } else { event_size as int };
    if events * size > usize::MAX {
        usize::MAX as nat
    } else {
        (events * size) as nat
    }
}

/// A batch reply with the bytes as a sequence.
pub open spec fn batch_view(batch: Result<Vec<u8>, Error>) -> Result<Seq<u8>, Error> {
    match batch {
        Ok(bytes) => Ok(bytes@),
        Err(e) => Err(e),
    }
}

/// A record reply with the bytes as a sequence.
pub open spec fn record_view(record: Result<&[u8], Error>) -> Result<Seq<u8>, Error> {
    match record {
        Ok(bytes) => Ok(bytes@),
        Err(e) => Err(e),
    }
}

/// A fixed-capacity staging area for undecoded event records, owned by one
/// stream.
#[derive(Debug)]
pub struct StagedBuffer {
    region: Vec<u8>,
    cursor: usize,
    capacity: usize,
    event_size: usize,
}

impl View for StagedBuffer {
    type V = Staging;

    closed spec fn view(&self) -> Staging {
        Staging {
            bytes: self.region@,
            cursor: self.cursor as nat,
            capacity: self.capacity as nat,
            event_size: self.event_size as nat,
        }
    }
}

impl StagedBuffer {
    #[verifier::type_invariant]
    closed spec fn inv(&self) -> bool {
        self@.wf()
    }

    /// An empty buffer for `capacity` events of `event_size` bytes each. A
    /// capacity or a size of 0 counts as 1.
    pub fn new(capacity: usize, event_size: usize) -> (buffer: Self)
        ensures
            buffer@ == (Staging {
                bytes: Seq::empty(),
                cursor: 0,
                capacity: byte_capacity(capacity, event_size),
                event_size: if event_size == 0 { 1 } else { event_size as nat },
            }),
            buffer@.wf(),
    {
        let events: usize = if capacity == 0 { 1 } else { capacity };
        let size: usize = if event_size == 0 { 1 } else { event_size };
        assert(events * size >= size) by (nonlinear_arith)
            requires
                events >= 1,
                size >= 1,
        ;
        let bytes: usize = match events.checked_mul(size) {
            Some(product) => product,
            None => usize::MAX,
        };
        StagedBuffer { region: Vec::new(), cursor: 0, capacity: bytes, event_size: size }
    }

    /// The byte capacity.
    pub fn capacity(&self) -> (capacity: usize)
        ensures
            capacity == self@.capacity,
            self@.wf(),
    {
        proof {
            use_type_invariant(self);
        }
        self.capacity
    }

    /// The size of one record in bytes.
    pub fn event_size(&self) -> (size: usize)
        ensures
            size == self@.event_size,
            self@.wf(),
    {
        proof {
            use_type_invariant(self);
        }
        self.event_size
    }

    /// The read cursor.
    pub fn cursor(&self) -> (cursor: usize)
        ensures
            cursor == self@.cursor,
            self@.wf(),
    {
        proof {
            use_type_invariant(self);
        }
        self.cursor
    }

    /// The count of valid bytes.
    pub fn valid_count(&self) -> (count: usize)
        ensures
            count == self@.bytes.len(),
            self@.wf(),
    {
        proof {
            use_type_invariant(self);
        }
        self.region.len()
    }

    /// Whether unread bytes remain. No I/O.
    pub fn has_staged(&self) -> (staged: bool)
        ensures
            staged == self@.has_staged(),
            self@.wf(),
    {
        proof {
            use_type_invariant(self);
        }
        self.cursor < self.region.len()
    }

    /// The record at the cursor, for the decoder: `event_size` bytes, or an
    /// error that says how many were left where fewer are.
    pub fn peek_staged(&self) -> (record: Result<&[u8], Error>)
        requires
            self@.has_staged(),
        ensures
            record_view(record) == self@.peeked(),
    {
        proof {
            use_type_invariant(self);
        }
        let left: usize = self.region.len() - self.cursor;
        if left >= self.event_size {
            Ok(slice_subrange(self.region.as_slice(), self.cursor, self.cursor + self.event_size))
        } else {
            Err(Error::Decode(DecodeError::Truncated { expected: self.event_size, found: left }))
        }
    }

    /// Moves the cursor past the record at it.
    pub fn advance(&mut self)
        ensures
            final(self)@ == old(self)@.advanced(),
            final(self)@.wf(),
    {
        proof {
            use_type_invariant(&*self);
        }
        let left: usize = self.region.len() - self.cursor;
        if left >= self.event_size {
            self.cursor = self.cursor + self.event_size;
        } else {
            self.cursor = self.region.len();
        }
    }

    /// Decodes the record at the cursor with `source` and moves the cursor
    /// past it. The cursor moves whatever the decoder says; a record cut
    /// short is not shown to the decoder and gives the error of
    /// `peek_staged`.
    pub fn take_staged<S: EventSource>(&mut self, source: &S) -> (event: Result<S::Event, Error>)
        requires
            old(self)@.has_staged(),
        ensures
            final(self)@ == old(self)@.advanced(),
            final(self)@.wf(),
            old(self)@.peeked() matches Err(e) ==> event == Err::<S::Event, Error>(e),
    {
        let event = match self.peek_staged() {
            Ok(record) => source.decode(record),
            Err(e) => Err(e),
        };
        self.advance();
        event
    }

    /// Takes in the source's reply to one batch read. Only a drained buffer
    /// is refilled.
    pub fn stage(&mut self, batch: Result<Vec<u8>, Error>) -> (count: Result<usize, Error>)
        requires
            !old(self)@.has_staged(),
        ensures
            final(self)@ == old(self)@.refilled(batch_view(batch)),
            count == old(self)@.refill_count(batch_view(batch)),
            final(self)@.wf(),
    {
        proof {
            use_type_invariant(&*self);
        }
        match batch {
            Ok(bytes) => {
                let found: usize = bytes.len();
                self.cursor = 0;
                if found <= self.capacity {
                    self.region = bytes;
                    Ok(found)
                } else {
                    self.region = Vec::new();
                    Err(Error::Decode(DecodeError::Overrun { capacity: self.capacity, found }))
                }
            },
            Err(e) => Err(e),
        }
    }

    /// Refills the drained buffer with one batch read from `source`, for as
    /// many bytes as the capacity. Returns the count of valid bytes; 0 is no
    /// error and means that readiness has to be checked again.
    pub fn refill<S: EventSource>(&mut self, source: &mut S) -> (count: Result<usize, Error>)
        requires
            !old(self)@.has_staged(),
        ensures
            exists|batch: Result<Seq<u8>, Error>|
                {
                    &&& final(self)@ == #[trigger] old(self)@.refilled(batch)
                    &&& count == old(self)@.refill_count(batch)
                },
            final(self)@.wf(),
    {
        let capacity = self.capacity();
        let batch = source.take_batch(capacity);
        let ghost reply = batch_view(batch);
        let count = self.stage(batch);
        assert(self@ == old(self)@.refilled(reply));
        count
    }
}

/// What a caller's buffer holds after a batch was copied to its front: a
/// batch that fits overwrites as many bytes as it has, anything else leaves
/// the buffer as it was.
pub open spec fn copied(buf: Seq<u8>, batch: Result<Seq<u8>, Error>) -> Seq<u8> {
    match batch {
        Ok(bytes) => if bytes.len() <= buf.len() {
            bytes + buf.skip(bytes.len() as int)
        } else {
            buf
        },
        Err(_) => buf,
    }
}

/// What that copy returns: the count of bytes copied, or why none were.
pub open spec fn copy_count(room: nat, batch: Result<Seq<u8>, Error>) -> Result<usize, Error> {
    match batch {
        Ok(bytes) => if bytes.len() <= room {
            Ok(bytes.len() as usize)
        } else {
            Err(
                Error::Decode(
                    DecodeError::Overrun { capacity: room as usize, found: bytes.len() as usize },
                ),
            )
        },
        Err(e) => Err(e),
    }
}

/// Copies the source's reply to one batch read to the front of `buf`, whose
/// length stays.
pub fn copy_batch(buf: &mut Vec<u8>, batch: Result<Vec<u8>, Error>) -> (count: Result<usize, Error>)
    ensures
        final(buf)@ == copied(old(buf)@, batch_view(batch)),
        count == copy_count(old(buf)@.len(), batch_view(batch)),
{
    match batch {
        Ok(bytes) => {
            let found: usize = bytes.len();
            let room: usize = buf.len();
            if found <= room {
                let mut i: usize = 0;
                while i < found
                    invariant
                        i <= found,
                        found == bytes@.len(),
                        found <= room,
                        buf@.len() == room,
                        room == old(buf)@.len(),
                        forall|k: int| 0 <= k < i ==> buf@[k] == bytes@[k],
                        forall|k: int| i <= k < room ==> buf@[k] == old(buf)@[k],
                    decreases found - i,
                {
                    buf.set(i, bytes[i]);
                    i = i + 1;
                }
                assert(buf@ =~= bytes@ + old(buf)@.skip(found as int));
                Ok(found)
            } else {
                Err(Error::Decode(DecodeError::Overrun { capacity: room, found }))
            }
        },
        Err(e) => Err(e),
    }
}

} // verus!
