//! Task and message core of a tick-driven camera pipeline: a fixed-size
//! payload buffer, a single-slot message envelope, a byte codec for the
//! payloads, and the three pipeline stages (source, transform, sink).
use vstd::prelude::*;

pub mod buffer;
pub mod envelope;
pub mod error;
pub mod payload;
pub mod tasks;

verus! {

} // verus!
