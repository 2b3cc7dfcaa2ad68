//! Planning, binding and validation logic of the Nerve stream-circuit runtime.

pub mod arithmetic;
pub mod batched_projection;
pub mod bound_dispatch;
pub mod cables;
pub mod circuit_binding;
pub mod circuit_mount;
pub mod component_batch;
pub mod component_runner;
pub mod descriptor_resources;
pub mod device;
pub mod digest;
pub mod dispatch_plan;
pub mod dispatch_segment;
pub mod distributed;
pub mod edges;
pub mod feedback_loop;
pub mod in_process;
pub mod input_transducer;
pub mod kernel_interface;
pub mod kernel_signature;
pub mod mounted_dispatch;
pub mod multi_stream_batch;
pub mod ordered;
pub mod output_transducer;
pub mod package;
pub mod pedal_runner;
pub mod pedalboard;
pub mod placement;
pub mod resident_dispatch;
pub mod resident_plan;
pub mod resident_runners;
pub mod reusable_kernels;
pub mod runtime_error;
pub mod sequence;
pub mod prompt_event;
pub mod stream_control;
pub mod stream_plan;
pub mod tensors;
pub mod text;
