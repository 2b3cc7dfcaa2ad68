//! Edges: the signals between placed components.

pub mod buffers;
pub mod plan;
pub mod transport;
