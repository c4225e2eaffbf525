//! Event-driven coordination core for a small interactive device.
//!
//! The crate models the timing- and concurrency-sensitive heart of the
//! firmware: a debounced physical-input classifier, a bounded broadcast
//! event bus, a one-shot subsystem-readiness barrier, an application
//! state machine that reacts to classified input events, and the pure
//! bookkeeping of a scanned key matrix.
//!
//! Hardware access and the cooperative scheduler live outside this
//! crate; the core consumes raw levels and monotonic timestamps as plain
//! values and hands classified events and state transitions back.

pub mod bus;
pub mod button;
pub mod debounce;
pub mod keyboard;
pub mod keys;
pub mod readiness;
pub mod state_machine;
