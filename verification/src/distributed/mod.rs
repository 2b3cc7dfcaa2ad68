//! Dispatches that are split over several devices.

pub mod activation;
pub mod allocations;
pub mod exclusions;
pub mod launching;
pub mod parameters;
pub mod plan;
pub mod runners;
pub mod sharding;
