//! Shared-state coordinator for a bracket-machine control interface.
//!
//! The library holds the single source of truth for program code, input and
//! output streams, execution speed and the run lifecycle, validates every
//! requested mutation against that state, and records the commands destined
//! for the hardware worker in an ordered queue.

pub mod bytes;
pub mod coordinator;
pub mod errors;
pub mod hw;
pub mod lifecycle;
pub mod ledger;
pub mod nesting;
pub mod session;
