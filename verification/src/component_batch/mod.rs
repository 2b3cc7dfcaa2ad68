//! Batches: the launches of a device for many lanes at once.

pub mod kernels;
pub mod runner;
pub mod signals;
pub mod slice;
pub mod steps;
pub mod units;
