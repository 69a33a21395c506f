//! An engine-independent lifecycle harness: a three-phase lifecycle state
//! machine with double-buffered transitions, a monotonic loading-progress
//! aggregator with edge-triggered reporting, and a key binding that turns a
//! quit action into a termination request. A host loop drives it one tick at
//! a time; every rule the harness enforces is stated in its contracts.

pub mod harness;
pub mod input;
pub mod phase;
pub mod progress;
