//! A terminal dashboard library that samples host CPU and memory utilization
//! and lays the readings out as percentage gauges.
//!
//! The crate separates the verified core — the screen-layout partition, the
//! percentage arithmetic, and the render loop's state machine — from the
//! operating-system provider, which is reached through a small set of trusted
//! calls into the `sysinfo` crate.

pub mod layout;
pub mod metrics;
pub mod control;
pub mod sampler;

pub use crate::sampler::App;
