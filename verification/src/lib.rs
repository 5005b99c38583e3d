//! A periodic host-metrics sampler: raw CPU, memory and disk counters are
//! normalized into bounded integer percentages, formatted into a fixed-schema
//! `key="value"` payload, and handed to an external status-bar consumer on a
//! fixed cadence. This crate holds the verified core: normalization,
//! formatting, command construction, and the sampling loop's state machine.
//! The OS reads, the IPC delivery and the sleeping live in the surrounding
//! binary, which feeds plain values in and carries actions out.

pub mod event;
pub mod metrics;
pub mod normalize;
pub mod sampling;
pub mod sink;
