//! Race-free delivery of GPIO character-device events.
//!
//! A kernel descriptor signals readiness by level; consumers want discrete
//! events. This crate holds the bookkeeping that joins the two: the readiness
//! gate, the single-event read, the staged buffer and the event streams.

pub mod error;
pub mod gate;
pub mod source;
pub mod awaiter;
pub mod buffer;
pub mod chip;
pub mod request;
pub mod model;
pub mod laws;
