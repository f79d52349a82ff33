//! A synthetic audit-event pipeline.
//!
//! The library models typed audit events, a seeded generator of synthetic
//! events, per-event simulated processing with error injection, a round-robin
//! worker-pool dispatcher, a dashboard aggregator with rolling statistics,
//! and a load-test report builder. Randomness and the monotonic clock are
//! injected capabilities; the asynchronous plumbing around the pipeline
//! (task spawning, channels, rendering) lives with the caller.

pub mod aggregator;
pub mod clock;
pub mod dashboard;
pub mod event;
pub mod generator;
pub mod harness;
pub mod pipeline;
pub mod rng;
pub mod stats;
pub mod text;
pub mod worker;
