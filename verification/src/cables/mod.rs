//! Cables: the signals between placed pedals.

pub mod buffers;
pub mod plan;
pub mod transport;
