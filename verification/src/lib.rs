//! Core of a real-time voice-channel audio engine.
//!
//! The engine advances in fixed 20 ms ticks. This crate owns the two pieces of
//! logic that drive it:
//!
//! * [`input`] — the readiness lifecycle of one audio source: a lazily held
//!   capability factory is promoted on demand to a live byte stream and then to
//!   a parsed, playable source, with retryable failure semantics that never
//!   block the tick cadence.
//! * [`voice`] — the inbound tick aggregator: per-speaker packets and decoded
//!   audio are combined into one immutable snapshot per tick, tracking which
//!   known speakers stayed silent.
//!
//! [`error`] holds the shared failure vocabulary through which both components
//! report to the driving loop.

pub mod error;
pub mod input;
pub mod voice;
