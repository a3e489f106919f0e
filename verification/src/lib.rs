//! A small host-resource inspector: a snapshot of the machine's CPU identity,
//! per-logical-processor utilization and clock, memory figures, boot time,
//! uptime and process count, with a full initial load and a cheap reload of
//! the volatile fields.

pub mod monitor;
pub mod probe;
