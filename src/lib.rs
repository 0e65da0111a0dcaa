//! A counter contract: one unsigned 32-bit value held in contract state,
//! read, incremented with wraparound, and set at deployment.
//!
//! The host runtime calls the contract through its exported entry points and
//! marshals arguments and results; that boundary lives outside this library.
//! Here the state and its operations are plain values with proved contracts.
pub mod counter;
pub mod event;

pub use counter::Counter;
pub use event::Event;
