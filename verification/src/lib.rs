//! Application bootstrap sequencer.
//!
//! Builds an ordered accumulator of initialization units, conditionally
//! attaching debug-only instrumentation depending on the build mode, and
//! drives a single, unrepeatable handoff to an externally supplied run loop.
//! A startup failure reported by the run loop is propagated as a fatal,
//! non-recoverable outcome.

pub mod builder;
pub mod sequencer;
pub mod units;
