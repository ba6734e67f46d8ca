//! Periodic sampling of a host's network interfaces: an interface
//! allow/deny filter, aggregation of cumulative per-interface counters
//! into host-wide totals, and conversion of those monotone counters into
//! instantaneous bit-per-second rates that stay non-negative across
//! irregular sampling intervals and counter resets.

pub mod filter;
pub mod harvest;
pub mod provider;
pub mod rate;
pub mod sample;
