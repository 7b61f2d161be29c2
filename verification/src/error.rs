//! Errors surfaced to callers.

use vstd::prelude::*;

verus! {

/// Why an event record could not be interpreted.
#[derive(Clone, Copy, Debug, PartialEq, Eq, Structural)]
pub enum DecodeError {
    /// The decode layer rejected the record, with its own reason code.
    Malformed(u32),
    /// Fewer bytes were left than one record needs.
    Truncated { expected: usize, found: usize },
    /// A batch held more bytes than the capacity it was read for.
    Overrun { capacity: usize, found: usize },
}

/// A failure of one read attempt.
#[derive(Clone, Copy, Debug, PartialEq, Eq, Structural)]
pub enum Error {
    /// The OS failed to register, observe readiness or read; holds the errno.
    Io(i32),
    /// An event record could not be interpreted.
    Decode(DecodeError),
}

impl Error {
    /// Whether the error ends the whole stream: only an I/O error does.
    pub fn is_terminal(&self) -> (terminal: bool)
        ensures
            terminal == (*self is Io),
    {
        match self {
            Error::Io(_) => true,
            Error::Decode(_) => false,
        }
    }
}

} // verus!
