//! The event source: the device or line request that holds the kernel's queue.

use vstd::prelude::*;
use crate::error::Error;

verus! {

/// What a reader needs of the object that owns the descriptor. The source is
/// borrowed for one call at a time. Nothing is assumed of an implementation:
/// every reply is taken as it comes.
pub trait EventSource {
    /// The decoded event.
    type Event;

    /// Whether an event can be taken now without blocking.
    fn has_pending(&mut self) -> Result<bool, Error>;

    /// Takes one event off the kernel's queue and decodes it.
    fn take_one(&mut self) -> Result<Self::Event, Error>;

    /// The number of bytes of one event record.
    fn event_size(&self) -> usize;

    /// Takes as many whole records as are queued and fit in `capacity` bytes,
    /// oldest first, undecoded.
    fn take_batch(&mut self, capacity: usize) -> Result<Vec<u8>, Error>;

    /// Decodes one record.
    fn decode(&self, record: &[u8]) -> Result<Self::Event, Error>;
}

} // verus!
