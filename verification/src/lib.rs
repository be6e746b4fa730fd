//! Delayed-durability simulation for write-ahead-log (WAL) files.
//!
//! This library holds the decision logic of a fault-injection layer that
//! intercepts file-descriptor I/O: which descriptors to track, whether a
//! write is buffered, delayed, or passed through, what a sync or close must
//! flush, and when a seek is legal. The layer that actually intercepts the
//! system calls performs the real I/O and the induced delays; it consults
//! this library for every decision and for the buffered state.

pub mod flags;
pub mod laws;
pub mod pattern;
pub mod registry;

pub use pattern::contains;
