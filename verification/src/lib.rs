//! Host telemetry agent core: the per-core CPU counter sampler with its
//! rollover-tolerant cache, the snapshot aggregator with its
//! required-vs-optional failure policy, the push-session state machine with
//! its reconnect-and-replay protocol, and the fixed-interval scheduler.
//!
//! Everything here works on plain values; reading hardware counters,
//! the transport, and the clock live outside the library and hand their
//! results in as arguments.

pub mod args;
pub mod auth;
pub mod collector;
pub mod config;
pub mod counter;
pub mod network;
pub mod scheduler;
pub mod session;
pub mod strutil;
pub mod types;
pub mod wire;
