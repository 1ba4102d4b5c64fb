//! A real-time fan-out engine: one ordered upstream event stream is
//! demultiplexed into per-instrument topics, each a bounded multicast
//! channel that any number of independent, possibly slow subscribers can
//! read without ever blocking the producer. Slow subscribers are never
//! waited for: when a subscriber falls further behind than a topic's
//! backlog capacity, the oldest frames are dropped and the subscriber is
//! told how many it missed.

pub mod envelope;
pub mod frame;
pub mod pump;
pub mod registry;
pub mod session;
pub mod topic;
