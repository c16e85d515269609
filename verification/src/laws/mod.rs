//! What holds of every run of a relay.

pub mod closing;
pub mod coalescing;
pub mod invariants;
pub mod lifecycle;
pub mod no_loss;
pub mod redundancy;
pub mod trace;
