//! The transducer that turns the model's output frames into logits.

use crate::circuit_mount::VulkanMountedPlacedStreamCircuit;
use crate::circuit_mount::VulkanMountedPlacedStreamCircuitView;
use crate::device::VulkanComputeDevice;
use crate::device::VulkanError;
use crate::device::VulkanResidentBuffer;
use crate::device::VulkanResidentBufferName;
use crate::device::VulkanResidentBufferView;
use crate::device::VulkanResidentKernelBufferAccess;
use crate::device::VulkanResidentKernelBufferBinding;
use crate::device::VulkanResidentKernelDispatch;
use crate::device::VulkanResidentKernelDispatchView;
use crate::device::VulkanResidentKernelSequenceStep;
use crate::device;
use crate::input_transducer;
use crate::resident_plan::VulkanModelBoundaryBufferAllocation;
use crate::resident_plan::VulkanModelBoundaryBufferAllocationView;
use crate::resident_plan::VulkanPermanentParameterBufferAllocation;
use crate::resident_plan::VulkanPermanentParameterBufferAllocationView;
use crate::resident_plan::VulkanPermanentParameterBuffers;
use crate::resident_plan;
use crate::sequence;
use crate::text::Message;
use crate::text;
use vstd::prelude::*;

verus! {

/// Why the output transducer cannot be made or run.
#[derive(Debug, PartialEq, Eq)]
pub enum VulkanResidentOutputTransducerRunnerError {
    MissingTransducerParameterBuffer { tensor: String },
    InvalidEmbeddingWeight { tensor: String, dtype: Option<String>, shape: Option<Vec<usize>>, byte_capacity: usize },
    InvalidEmbeddingNormWeight { tensor: String, dtype: Option<String>, shape: Option<Vec<usize>>, byte_capacity: usize },
    MissingModelOutputBuffer { signal_id: String },
    InvalidInputFrameByteCapacity { signal_id: String, byte_capacity: usize, expected_byte_capacity: usize },
    InvalidProjectionWorkgroupCount,
    DescriptorCountOverflow,
    PushConstantByteCountOverflow,
    Vulkan(VulkanError),
}

#[verifier::ext_equal]
pub enum VulkanResidentOutputTransducerRunnerErrorView {
    MissingTransducerParameterBuffer { tensor: Seq<char> },
    InvalidEmbeddingWeight { tensor: Seq<char>, dtype: Option<Seq<char>>, shape: Option<Seq<usize>>, byte_capacity: usize },
    InvalidEmbeddingNormWeight { tensor: Seq<char>, dtype: Option<Seq<char>>, shape: Option<Seq<usize>>, byte_capacity: usize },
    MissingModelOutputBuffer { signal_id: Seq<char> },
    InvalidInputFrameByteCapacity { signal_id: Seq<char>, byte_capacity: usize, expected_byte_capacity: usize },
    InvalidProjectionWorkgroupCount,
    DescriptorCountOverflow,
    PushConstantByteCountOverflow,
    Vulkan(Seq<char>),
}

impl DeepView for VulkanResidentOutputTransducerRunnerError {
    type V = VulkanResidentOutputTransducerRunnerErrorView;

    open spec fn deep_view(&self) -> VulkanResidentOutputTransducerRunnerErrorView {
        match self {
            VulkanResidentOutputTransducerRunnerError::MissingTransducerParameterBuffer { tensor } => VulkanResidentOutputTransducerRunnerErrorView::MissingTransducerParameterBuffer { tensor: tensor.deep_view() },
            VulkanResidentOutputTransducerRunnerError::InvalidEmbeddingWeight { tensor, dtype, shape, byte_capacity } => VulkanResidentOutputTransducerRunnerErrorView::InvalidEmbeddingWeight { tensor: tensor.deep_view(), dtype: dtype.deep_view(), shape: shape.deep_view(), byte_capacity: *byte_capacity },
            VulkanResidentOutputTransducerRunnerError::InvalidEmbeddingNormWeight { tensor, dtype, shape, byte_capacity } => VulkanResidentOutputTransducerRunnerErrorView::InvalidEmbeddingNormWeight { tensor: tensor.deep_view(), dtype: dtype.deep_view(), shape: shape.deep_view(), byte_capacity: *byte_capacity },
            VulkanResidentOutputTransducerRunnerError::MissingModelOutputBuffer { signal_id } => VulkanResidentOutputTransducerRunnerErrorView::MissingModelOutputBuffer { signal_id: signal_id.deep_view() },
            VulkanResidentOutputTransducerRunnerError::InvalidInputFrameByteCapacity { signal_id, byte_capacity, expected_byte_capacity } => VulkanResidentOutputTransducerRunnerErrorView::InvalidInputFrameByteCapacity { signal_id: signal_id.deep_view(), byte_capacity: *byte_capacity, expected_byte_capacity: *expected_byte_capacity },
            VulkanResidentOutputTransducerRunnerError::InvalidProjectionWorkgroupCount => VulkanResidentOutputTransducerRunnerErrorView::InvalidProjectionWorkgroupCount,
            VulkanResidentOutputTransducerRunnerError::DescriptorCountOverflow => VulkanResidentOutputTransducerRunnerErrorView::DescriptorCountOverflow,
            VulkanResidentOutputTransducerRunnerError::PushConstantByteCountOverflow => VulkanResidentOutputTransducerRunnerErrorView::PushConstantByteCountOverflow,
            VulkanResidentOutputTransducerRunnerError::Vulkan(value) => VulkanResidentOutputTransducerRunnerErrorView::Vulkan(value.deep_view()),
        }
    }
}

impl View for VulkanResidentOutputTransducerRunnerError {
    type V = VulkanResidentOutputTransducerRunnerErrorView;

    open spec fn view(&self) -> VulkanResidentOutputTransducerRunnerErrorView {
        self.deep_view()
    }
}

impl Clone for VulkanResidentOutputTransducerRunnerError {
    fn clone(&self) -> (r: Self)
        ensures
            r@ == self@,
    {
        match self {
            VulkanResidentOutputTransducerRunnerError::MissingTransducerParameterBuffer { tensor } => VulkanResidentOutputTransducerRunnerError::MissingTransducerParameterBuffer { tensor: tensor.clone() },
            VulkanResidentOutputTransducerRunnerError::InvalidEmbeddingWeight { tensor, dtype, shape, byte_capacity } => VulkanResidentOutputTransducerRunnerError::InvalidEmbeddingWeight { tensor: tensor.clone(), dtype: dtype.clone(), shape: shape.clone(), byte_capacity: *byte_capacity },
            VulkanResidentOutputTransducerRunnerError::InvalidEmbeddingNormWeight { tensor, dtype, shape, byte_capacity } => VulkanResidentOutputTransducerRunnerError::InvalidEmbeddingNormWeight { tensor: tensor.clone(), dtype: dtype.clone(), shape: shape.clone(), byte_capacity: *byte_capacity },
            VulkanResidentOutputTransducerRunnerError::MissingModelOutputBuffer { signal_id } => VulkanResidentOutputTransducerRunnerError::MissingModelOutputBuffer { signal_id: signal_id.clone() },
            VulkanResidentOutputTransducerRunnerError::InvalidInputFrameByteCapacity { signal_id, byte_capacity, expected_byte_capacity } => VulkanResidentOutputTransducerRunnerError::InvalidInputFrameByteCapacity { signal_id: signal_id.clone(), byte_capacity: *byte_capacity, expected_byte_capacity: *expected_byte_capacity },
            VulkanResidentOutputTransducerRunnerError::InvalidProjectionWorkgroupCount => VulkanResidentOutputTransducerRunnerError::InvalidProjectionWorkgroupCount,
            VulkanResidentOutputTransducerRunnerError::DescriptorCountOverflow => VulkanResidentOutputTransducerRunnerError::DescriptorCountOverflow,
            VulkanResidentOutputTransducerRunnerError::PushConstantByteCountOverflow => VulkanResidentOutputTransducerRunnerError::PushConstantByteCountOverflow,
            VulkanResidentOutputTransducerRunnerError::Vulkan(value) => VulkanResidentOutputTransducerRunnerError::Vulkan(value.clone()),
        }
    }
}

/// What is said of it.
pub open spec fn output_transducer_message(error: VulkanResidentOutputTransducerRunnerErrorView) -> Seq<char> {
    match error {
        VulkanResidentOutputTransducerRunnerErrorView::MissingTransducerParameterBuffer { tensor } => {
            "missing transducer parameter buffer for tensor "@ + text::quoted(tensor)
        },
        VulkanResidentOutputTransducerRunnerErrorView::InvalidEmbeddingWeight { tensor, dtype, shape, byte_capacity } => {
            "output projection tensor "@ + text::quoted(tensor) + " has dtype "@ + text::quoted_option(dtype) + ", shape "@ + text::number_list_option(shape) + ", and "@ + text::decimal(byte_capacity as nat) + " bytes"@
        },
        VulkanResidentOutputTransducerRunnerErrorView::InvalidEmbeddingNormWeight { tensor, dtype, shape, byte_capacity } => {
            "output embedding norm tensor "@ + text::quoted(tensor) + " has dtype "@ + text::quoted_option(dtype) + ", shape "@ + text::number_list_option(shape) + ", and "@ + text::decimal(byte_capacity as nat) + " bytes"@
        },
        VulkanResidentOutputTransducerRunnerErrorView::MissingModelOutputBuffer { signal_id } => {
            "missing model output boundary buffer "@ + text::quoted(signal_id)
        },
        VulkanResidentOutputTransducerRunnerErrorView::InvalidInputFrameByteCapacity { signal_id, byte_capacity, expected_byte_capacity } => {
            "model output boundary buffer "@ + text::quoted(signal_id) + " has "@ + text::decimal(byte_capacity as nat) + " bytes, expected "@ + text::decimal(expected_byte_capacity as nat)
        },
        VulkanResidentOutputTransducerRunnerErrorView::InvalidProjectionWorkgroupCount => {
            "output transducer projection workgroup count must be nonzero"@
        },
        VulkanResidentOutputTransducerRunnerErrorView::DescriptorCountOverflow => {
            "output transducer descriptor count overflowed"@
        },
        VulkanResidentOutputTransducerRunnerErrorView::PushConstantByteCountOverflow => {
            "output transducer push constant byte count overflowed"@
        },
        VulkanResidentOutputTransducerRunnerErrorView::Vulkan(error) => error,
    }
}

impl VulkanResidentOutputTransducerRunnerError {
    /// What is wrong.
    pub fn to_string(&self) -> (r: String)
        ensures
            r@ == output_transducer_message(self@),
    {
        match self {
            VulkanResidentOutputTransducerRunnerError::MissingTransducerParameterBuffer { tensor } => {
                Message::new("missing transducer parameter buffer for tensor ").quoted(tensor.as_str()).done()
            },
            VulkanResidentOutputTransducerRunnerError::InvalidEmbeddingWeight { tensor, dtype, shape, byte_capacity } => {
                Message::new("output projection tensor ").quoted(tensor.as_str()).text(" has dtype ").quoted_option(dtype).text(", shape ").number_list_option(shape).text(", and ").number(*byte_capacity).text(" bytes").done()
            },
            VulkanResidentOutputTransducerRunnerError::InvalidEmbeddingNormWeight { tensor, dtype, shape, byte_capacity } => {
                Message::new("output embedding norm tensor ").quoted(tensor.as_str()).text(" has dtype ").quoted_option(dtype).text(", shape ").number_list_option(shape).text(", and ").number(*byte_capacity).text(" bytes").done()
            },
            VulkanResidentOutputTransducerRunnerError::MissingModelOutputBuffer { signal_id } => {
                Message::new("missing model output boundary buffer ").quoted(signal_id.as_str()).done()
            },
            VulkanResidentOutputTransducerRunnerError::InvalidInputFrameByteCapacity { signal_id, byte_capacity, expected_byte_capacity } => {
                Message::new("model output boundary buffer ").quoted(signal_id.as_str()).text(" has ").number(*byte_capacity).text(" bytes, expected ").number(*expected_byte_capacity).done()
            },
            VulkanResidentOutputTransducerRunnerError::InvalidProjectionWorkgroupCount => {
                Message::new("output transducer projection workgroup count must be nonzero").done()
            },
            VulkanResidentOutputTransducerRunnerError::DescriptorCountOverflow => {
                Message::new("output transducer descriptor count overflowed").done()
            },
            VulkanResidentOutputTransducerRunnerError::PushConstantByteCountOverflow => {
                Message::new("output transducer push constant byte count overflowed").done()
            },
            VulkanResidentOutputTransducerRunnerError::Vulkan(error) => error.to_string(),
        }
    }
}

impl vstd::std_specs::convert::FromSpecImpl<VulkanError> for VulkanResidentOutputTransducerRunnerError {
    open spec fn obeys_from_spec() -> bool {
        true
    }

    open spec fn from_spec(error: VulkanError) -> Self {
        VulkanResidentOutputTransducerRunnerError::Vulkan(error)
    }
}

impl From<VulkanError> for VulkanResidentOutputTransducerRunnerError {
    fn from(error: VulkanError) -> (r: Self) {
        VulkanResidentOutputTransducerRunnerError::Vulkan(error)
    }
}

/// What the output transducer reads and writes.
#[derive(Debug, PartialEq, Eq)]
pub struct VulkanResidentOutputTransducerSpec {
    pub transducer_id: String,
    pub input_signal_id: String,
    pub node_ids: Vec<String>,
    pub norm_parameter_tensor: String,
    pub norm_parameter_dtype: String,
    pub norm_parameter_shape: Vec<usize>,
    pub norm_parameter_byte_capacity: usize,
    pub projection_parameter_tensor: String,
    pub projection_parameter_dtype: String,
    pub projection_parameter_shape: Vec<usize>,
    pub projection_parameter_byte_capacity: usize,
    pub input_frame_byte_capacity: usize,
    pub normalized_frame_byte_capacity: usize,
    pub logits_byte_capacity: usize,
    pub projection_workgroup_count_x: u32,
    pub norm_local_size_x: u32,
    pub projection_local_size_x: u32,
}

#[verifier::ext_equal]
pub struct VulkanResidentOutputTransducerSpecView {
    pub transducer_id: Seq<char>,
    pub input_signal_id: Seq<char>,
    pub node_ids: Seq<Seq<char>>,
    pub norm_parameter_tensor: Seq<char>,
    pub norm_parameter_dtype: Seq<char>,
    pub norm_parameter_shape: Seq<usize>,
    pub norm_parameter_byte_capacity: usize,
    pub projection_parameter_tensor: Seq<char>,
    pub projection_parameter_dtype: Seq<char>,
    pub projection_parameter_shape: Seq<usize>,
    pub projection_parameter_byte_capacity: usize,
    pub input_frame_byte_capacity: usize,
    pub normalized_frame_byte_capacity: usize,
    pub logits_byte_capacity: usize,
    pub projection_workgroup_count_x: u32,
    pub norm_local_size_x: u32,
    pub projection_local_size_x: u32,
}

impl DeepView for VulkanResidentOutputTransducerSpec {
    type V = VulkanResidentOutputTransducerSpecView;

    open spec fn deep_view(&self) -> VulkanResidentOutputTransducerSpecView {
        VulkanResidentOutputTransducerSpecView {
            transducer_id: self.transducer_id.deep_view(),
            input_signal_id: self.input_signal_id.deep_view(),
            node_ids: self.node_ids.deep_view(),
            norm_parameter_tensor: self.norm_parameter_tensor.deep_view(),
            norm_parameter_dtype: self.norm_parameter_dtype.deep_view(),
            norm_parameter_shape: self.norm_parameter_shape.deep_view(),
            norm_parameter_byte_capacity: self.norm_parameter_byte_capacity,
            projection_parameter_tensor: self.projection_parameter_tensor.deep_view(),
            projection_parameter_dtype: self.projection_parameter_dtype.deep_view(),
            projection_parameter_shape: self.projection_parameter_shape.deep_view(),
            projection_parameter_byte_capacity: self.projection_parameter_byte_capacity,
            input_frame_byte_capacity: self.input_frame_byte_capacity,
            normalized_frame_byte_capacity: self.normalized_frame_byte_capacity,
            logits_byte_capacity: self.logits_byte_capacity,
            projection_workgroup_count_x: self.projection_workgroup_count_x,
            norm_local_size_x: self.norm_local_size_x,
            projection_local_size_x: self.projection_local_size_x,
        }
    }
}

impl View for VulkanResidentOutputTransducerSpec {
    type V = VulkanResidentOutputTransducerSpecView;

    open spec fn view(&self) -> VulkanResidentOutputTransducerSpecView {
        self.deep_view()
    }
}

impl Clone for VulkanResidentOutputTransducerSpec {
    fn clone(&self) -> (r: Self)
        ensures
            r@ == self@,
    {
        VulkanResidentOutputTransducerSpec {
            transducer_id: self.transducer_id.clone(),
            input_signal_id: self.input_signal_id.clone(),
            node_ids: self.node_ids.clone(),
            norm_parameter_tensor: self.norm_parameter_tensor.clone(),
            norm_parameter_dtype: self.norm_parameter_dtype.clone(),
            norm_parameter_shape: self.norm_parameter_shape.clone(),
            norm_parameter_byte_capacity: self.norm_parameter_byte_capacity,
            projection_parameter_tensor: self.projection_parameter_tensor.clone(),
            projection_parameter_dtype: self.projection_parameter_dtype.clone(),
            projection_parameter_shape: self.projection_parameter_shape.clone(),
            projection_parameter_byte_capacity: self.projection_parameter_byte_capacity,
            input_frame_byte_capacity: self.input_frame_byte_capacity,
            normalized_frame_byte_capacity: self.normalized_frame_byte_capacity,
            logits_byte_capacity: self.logits_byte_capacity,
            projection_workgroup_count_x: self.projection_workgroup_count_x,
            norm_local_size_x: self.norm_local_size_x,
            projection_local_size_x: self.projection_local_size_x,
        }
    }
}

/// The output transducer of a mounted model.
#[derive(Debug, PartialEq, Eq)]
pub struct VulkanResidentOutputTransducerRunner {
    pub transducer_id: String,
    pub input_signal_id: String,
    pub logits_byte_capacity: usize,
    pub dispatch_count: usize,
    pub total_descriptor_count: usize,
    pub total_push_constant_byte_count: u32,
    pub normalized_frame_buffer: VulkanResidentBuffer,
    pub logits_buffer: VulkanResidentBuffer,
    pub embedding_norm_dispatch: VulkanResidentKernelDispatch,
    pub tied_projection_dispatch: VulkanResidentKernelDispatch,
    pub node_ids: Vec<String>,
}

#[verifier::ext_equal]
pub struct VulkanResidentOutputTransducerRunnerView {
    pub transducer_id: Seq<char>,
    pub input_signal_id: Seq<char>,
    pub logits_byte_capacity: usize,
    pub dispatch_count: usize,
    pub total_descriptor_count: usize,
    pub total_push_constant_byte_count: u32,
    pub normalized_frame_buffer: VulkanResidentBufferView,
    pub logits_buffer: VulkanResidentBufferView,
    pub embedding_norm_dispatch: VulkanResidentKernelDispatchView,
    pub tied_projection_dispatch: VulkanResidentKernelDispatchView,
    pub node_ids: Seq<Seq<char>>,
}

impl DeepView for VulkanResidentOutputTransducerRunner {
    type V = VulkanResidentOutputTransducerRunnerView;

    open spec fn deep_view(&self) -> VulkanResidentOutputTransducerRunnerView {
        VulkanResidentOutputTransducerRunnerView {
            transducer_id: self.transducer_id.deep_view(),
            input_signal_id: self.input_signal_id.deep_view(),
            logits_byte_capacity: self.logits_byte_capacity,
            dispatch_count: self.dispatch_count,
            total_descriptor_count: self.total_descriptor_count,
            total_push_constant_byte_count: self.total_push_constant_byte_count,
            normalized_frame_buffer: self.normalized_frame_buffer.deep_view(),
            logits_buffer: self.logits_buffer.deep_view(),
            embedding_norm_dispatch: self.embedding_norm_dispatch.deep_view(),
            tied_projection_dispatch: self.tied_projection_dispatch.deep_view(),
            node_ids: self.node_ids.deep_view(),
        }
    }
}

impl View for VulkanResidentOutputTransducerRunner {
    type V = VulkanResidentOutputTransducerRunnerView;

    open spec fn view(&self) -> VulkanResidentOutputTransducerRunnerView {
        self.deep_view()
    }
}

impl Clone for VulkanResidentOutputTransducerRunner {
    fn clone(&self) -> (r: Self)
        ensures
            r@ == self@,
    {
        VulkanResidentOutputTransducerRunner {
            transducer_id: self.transducer_id.clone(),
            input_signal_id: self.input_signal_id.clone(),
            logits_byte_capacity: self.logits_byte_capacity,
            dispatch_count: self.dispatch_count,
            total_descriptor_count: self.total_descriptor_count,
            total_push_constant_byte_count: self.total_push_constant_byte_count,
            normalized_frame_buffer: self.normalized_frame_buffer.clone(),
            logits_buffer: self.logits_buffer.clone(),
            embedding_norm_dispatch: self.embedding_norm_dispatch.clone(),
            tied_projection_dispatch: self.tied_projection_dispatch.clone(),
            node_ids: self.node_ids.clone(),
        }
    }
}

/// A frame that went through the output transducer.
#[derive(Debug, PartialEq, Eq)]
pub struct VulkanResidentOutputTransducerRun {
    pub transducer_id: String,
    pub input_signal_id: String,
    pub dispatch_count: usize,
    pub node_ids: Vec<String>,
    pub descriptor_counts: Vec<usize>,
    pub workgroup_counts_x: Vec<u32>,
    pub push_constant_byte_counts: Vec<u32>,
    pub logits_byte_capacity: usize,
}

#[verifier::ext_equal]
pub struct VulkanResidentOutputTransducerRunView {
    pub transducer_id: Seq<char>,
    pub input_signal_id: Seq<char>,
    pub dispatch_count: usize,
    pub node_ids: Seq<Seq<char>>,
    pub descriptor_counts: Seq<usize>,
    pub workgroup_counts_x: Seq<u32>,
    pub push_constant_byte_counts: Seq<u32>,
    pub logits_byte_capacity: usize,
}

impl DeepView for VulkanResidentOutputTransducerRun {
    type V = VulkanResidentOutputTransducerRunView;

    open spec fn deep_view(&self) -> VulkanResidentOutputTransducerRunView {
        VulkanResidentOutputTransducerRunView {
            transducer_id: self.transducer_id.deep_view(),
            input_signal_id: self.input_signal_id.deep_view(),
            dispatch_count: self.dispatch_count,
            node_ids: self.node_ids.deep_view(),
            descriptor_counts: self.descriptor_counts.deep_view(),
            workgroup_counts_x: self.workgroup_counts_x.deep_view(),
            push_constant_byte_counts: self.push_constant_byte_counts.deep_view(),
            logits_byte_capacity: self.logits_byte_capacity,
        }
    }
}

impl View for VulkanResidentOutputTransducerRun {
    type V = VulkanResidentOutputTransducerRunView;

    open spec fn view(&self) -> VulkanResidentOutputTransducerRunView {
        self.deep_view()
    }
}

impl Clone for VulkanResidentOutputTransducerRun {
    fn clone(&self) -> (r: Self)
        ensures
            r@ == self@,
    {
        VulkanResidentOutputTransducerRun {
            transducer_id: self.transducer_id.clone(),
            input_signal_id: self.input_signal_id.clone(),
            dispatch_count: self.dispatch_count,
            node_ids: self.node_ids.clone(),
            descriptor_counts: self.descriptor_counts.clone(),
            workgroup_counts_x: self.workgroup_counts_x.clone(),
            push_constant_byte_counts: self.push_constant_byte_counts.clone(),
            logits_byte_capacity: self.logits_byte_capacity,
        }
    }
}

/// The error where the projection tensor is not the one that is expected.
pub open spec fn projection_weight_error(
    allocation: VulkanPermanentParameterBufferAllocationView,
    settings: VulkanResidentOutputTransducerSpecView,
) -> Option<VulkanResidentOutputTransducerRunnerErrorView> {
    if input_transducer::is_expected_tensor(
        allocation,
        settings.projection_parameter_dtype,
        settings.projection_parameter_shape,
        settings.projection_parameter_byte_capacity,
    ) {
        None
    } else {
        Some(
            VulkanResidentOutputTransducerRunnerErrorView::InvalidEmbeddingWeight {
                tensor: allocation.parameter.tensor,
                dtype: allocation.parameter.dtype,
                shape: allocation.parameter.shape,
                byte_capacity: allocation.byte_capacity,
            },
        )
    }
}

/// The error where the norm tensor is not the one that is expected.
pub open spec fn norm_weight_error(
    allocation: VulkanPermanentParameterBufferAllocationView,
    settings: VulkanResidentOutputTransducerSpecView,
) -> Option<VulkanResidentOutputTransducerRunnerErrorView> {
    if input_transducer::is_expected_tensor(
        allocation,
        settings.norm_parameter_dtype,
        settings.norm_parameter_shape,
        settings.norm_parameter_byte_capacity,
    ) {
        None
    } else {
        Some(
            VulkanResidentOutputTransducerRunnerErrorView::InvalidEmbeddingNormWeight {
                tensor: allocation.parameter.tensor,
                dtype: allocation.parameter.dtype,
                shape: allocation.parameter.shape,
                byte_capacity: allocation.byte_capacity,
            },
        )
    }
}

/// Refuses a projection tensor that is not the one that is expected.
pub fn validate_output_projection_weight(
    allocation: &VulkanPermanentParameterBufferAllocation,
    settings: &VulkanResidentOutputTransducerSpec,
) -> (r: Result<(), VulkanResidentOutputTransducerRunnerError>)
    ensures
        sequence::outcome(r) == (match projection_weight_error(allocation@, settings@) {
            Some(error) => Err::<(), VulkanResidentOutputTransducerRunnerErrorView>(error),
            None => Ok(()),
        }),
{
    if input_transducer::matches_tensor(
        allocation,
        &settings.projection_parameter_dtype,
        &settings.projection_parameter_shape,
        settings.projection_parameter_byte_capacity,
    ) {
        return Ok(());
    }
    Err(
        VulkanResidentOutputTransducerRunnerError::InvalidEmbeddingWeight {
            tensor: allocation.parameter.tensor.clone(),
            dtype: input_transducer::copy_optional_text(&allocation.parameter.dtype),
            shape: input_transducer::copy_optional_numbers(&allocation.parameter.shape),
            byte_capacity: allocation.byte_capacity,
        },
    )
}

/// Refuses a norm tensor that is not the one that is expected.
pub fn validate_output_embedding_norm_weight(
    allocation: &VulkanPermanentParameterBufferAllocation,
    settings: &VulkanResidentOutputTransducerSpec,
) -> (r: Result<(), VulkanResidentOutputTransducerRunnerError>)
    ensures
        sequence::outcome(r) == (match norm_weight_error(allocation@, settings@) {
            Some(error) => Err::<(), VulkanResidentOutputTransducerRunnerErrorView>(error),
            None => Ok(()),
        }),
{
    if input_transducer::matches_tensor(
        allocation,
        &settings.norm_parameter_dtype,
        &settings.norm_parameter_shape,
        settings.norm_parameter_byte_capacity,
    ) {
        return Ok(());
    }
    Err(
        VulkanResidentOutputTransducerRunnerError::InvalidEmbeddingNormWeight {
            tensor: allocation.parameter.tensor.clone(),
            dtype: input_transducer::copy_optional_text(&allocation.parameter.dtype),
            shape: input_transducer::copy_optional_numbers(&allocation.parameter.shape),
            byte_capacity: allocation.byte_capacity,
        },
    )
}

/// The kernel that normalizes a frame.
pub open spec fn norm_kernel(
    device_id: Seq<char>,
    frame: VulkanModelBoundaryBufferAllocationView,
    normalized: VulkanResidentBufferView,
    weight: VulkanPermanentParameterBufferAllocationView,
    words: Seq<u32>,
    settings: VulkanResidentOutputTransducerSpecView,
) -> VulkanResidentKernelDispatchView {
    device::kernel(
        device_id,
        words,
        seq![
            device::bound_buffer(
                0,
                frame.buffer,
                frame.byte_capacity,
                VulkanResidentKernelBufferAccess::Read,
            ),
            device::bound_buffer(
                1,
                normalized,
                settings.normalized_frame_byte_capacity,
                VulkanResidentKernelBufferAccess::Write,
            ),
            device::bound_buffer(
                2,
                weight.buffer,
                weight.byte_capacity,
                VulkanResidentKernelBufferAccess::Read,
            ),
        ],
        1,
        1,
        settings.norm_local_size_x,
        0,
    )
}

/// The kernel that projects a normalized frame to logits.
pub open spec fn projection_kernel(
    device_id: Seq<char>,
    normalized: VulkanResidentBufferView,
    logits: VulkanResidentBufferView,
    weight: VulkanPermanentParameterBufferAllocationView,
    words: Seq<u32>,
    settings: VulkanResidentOutputTransducerSpecView,
) -> VulkanResidentKernelDispatchView {
    device::kernel(
        device_id,
        words,
        seq![
            device::bound_buffer(
                0,
                normalized,
                settings.normalized_frame_byte_capacity,
                VulkanResidentKernelBufferAccess::Read,
            ),
            device::bound_buffer(
                1,
                weight.buffer,
                weight.byte_capacity,
                VulkanResidentKernelBufferAccess::Read,
            ),
            device::bound_buffer(
                2,
                logits,
                settings.logits_byte_capacity,
                VulkanResidentKernelBufferAccess::Write,
            ),
        ],
        settings.projection_workgroup_count_x,
        1,
        settings.projection_local_size_x,
        0,
    )
}

/// The output transducer of a mounted model, with given tensors.
#[verifier::opaque]
pub open spec fn output_runner(
    device_id: Seq<char>,
    mounted: VulkanMountedPlacedStreamCircuitView,
    norm_weight: VulkanPermanentParameterBufferAllocationView,
    projection_weight: VulkanPermanentParameterBufferAllocationView,
    norm_words: Seq<u32>,
    projection_words: Seq<u32>,
    settings: VulkanResidentOutputTransducerSpecView,
) -> Result<
    VulkanResidentOutputTransducerRunnerView,
    VulkanResidentOutputTransducerRunnerErrorView,
> {
    match sequence::find_first(
        mounted.boundary_io.outputs,
        resident_plan::boundary_matcher(settings.input_signal_id),
    ) {
        None => Err(
            VulkanResidentOutputTransducerRunnerErrorView::MissingModelOutputBuffer {
                signal_id: settings.input_signal_id,
            },
        ),
        Some(frame) => if frame.byte_capacity != settings.input_frame_byte_capacity {
            Err(
                VulkanResidentOutputTransducerRunnerErrorView::InvalidInputFrameByteCapacity {
                    signal_id: settings.input_signal_id,
                    byte_capacity: frame.byte_capacity,
                    expected_byte_capacity: settings.input_frame_byte_capacity,
                },
            )
        } else if projection_weight_error(projection_weight, settings) is Some {
            Err(projection_weight_error(projection_weight, settings)->Some_0)
        } else if norm_weight_error(norm_weight, settings) is Some {
            Err(norm_weight_error(norm_weight, settings)->Some_0)
        } else if settings.projection_workgroup_count_x == 0 {
            Err(VulkanResidentOutputTransducerRunnerErrorView::InvalidProjectionWorkgroupCount)
        } else {
            let normalized = device::device_buffer(
                VulkanResidentBufferName::NormalizedFrame,
                device_id,
                settings.normalized_frame_byte_capacity,
            );
            let logits = device::device_buffer(VulkanResidentBufferName::Logits, device_id, settings.logits_byte_capacity);
            Ok(
                VulkanResidentOutputTransducerRunnerView {
                    transducer_id: settings.transducer_id,
                    input_signal_id: settings.input_signal_id,
                    logits_byte_capacity: settings.logits_byte_capacity,
                    dispatch_count: 2,
                    total_descriptor_count: 6,
                    total_push_constant_byte_count: 0,
                    normalized_frame_buffer: normalized,
                    logits_buffer: logits,
                    embedding_norm_dispatch: norm_kernel(
                        device_id,
                        frame,
                        normalized,
                        norm_weight,
                        norm_words,
                        settings,
                    ),
                    tied_projection_dispatch: projection_kernel(
                        device_id,
                        normalized,
                        logits,
                        projection_weight,
                        projection_words,
                        settings,
                    ),
                    node_ids: settings.node_ids,
                },
            )
        },
    }
}

/// A frame that went through the transducer.
pub open spec fn projected(
    runner: VulkanResidentOutputTransducerRunnerView,
) -> VulkanResidentOutputTransducerRunView {
    VulkanResidentOutputTransducerRunView {
        transducer_id: runner.transducer_id,
        input_signal_id: runner.input_signal_id,
        dispatch_count: runner.dispatch_count,
        node_ids: runner.node_ids,
        descriptor_counts: seq![
            runner.embedding_norm_dispatch.bindings.len() as usize,
            runner.tied_projection_dispatch.bindings.len() as usize,
        ],
        workgroup_counts_x: seq![
            runner.embedding_norm_dispatch.workgroup_count_x,
            runner.tied_projection_dispatch.workgroup_count_x,
        ],
        push_constant_byte_counts: seq![
            runner.embedding_norm_dispatch.push_constant_byte_count,
            runner.tied_projection_dispatch.push_constant_byte_count,
        ],
        logits_byte_capacity: runner.logits_byte_capacity,
    }
}

impl VulkanResidentOutputTransducerRunner {
    /// The output transducer of a mounted model.
    pub fn from_mounted_output_transducer(
        device: &VulkanComputeDevice,
        mounted: &VulkanMountedPlacedStreamCircuit,
        transducer_parameter_buffers: &VulkanPermanentParameterBuffers,
        embedding_norm_spirv_words: &Vec<u32>,
        tied_projection_spirv_words: &Vec<u32>,
        settings: &VulkanResidentOutputTransducerSpec,
    ) -> (r: Result<Self, VulkanResidentOutputTransducerRunnerError>)
        ensures
            sequence::outcome(r) == (match sequence::find_first(
                transducer_parameter_buffers@.buffers,
                resident_plan::tensor_matcher(settings@.norm_parameter_tensor),
            ) {
                None => Err(
                    VulkanResidentOutputTransducerRunnerErrorView::MissingTransducerParameterBuffer {
                        tensor: settings@.norm_parameter_tensor,
                    },
                ),
                Some(norm_weight) => match sequence::find_first(
                    transducer_parameter_buffers@.buffers,
                    resident_plan::tensor_matcher(settings@.projection_parameter_tensor),
                ) {
                    None => Err(
                        VulkanResidentOutputTransducerRunnerErrorView::MissingTransducerParameterBuffer {
                            tensor: settings@.projection_parameter_tensor,
                        },
                    ),
                    Some(projection_weight) => output_runner(
                        device@.device_id,
                        mounted@,
                        norm_weight,
                        projection_weight,
                        embedding_norm_spirv_words@,
                        tied_projection_spirv_words@,
                        settings@,
                    ),
                },
            }),
    {
        let norm_weight: &VulkanPermanentParameterBufferAllocation =
            match transducer_parameter_buffers.parameter_buffer(
            settings.norm_parameter_tensor.as_str(),
        ) {
            None => {
                return Err(
                    VulkanResidentOutputTransducerRunnerError::MissingTransducerParameterBuffer {
                        tensor: settings.norm_parameter_tensor.clone(),
                    },
                );
            },
            Some(weight) => weight,
        };
        match transducer_parameter_buffers.parameter_buffer(
            settings.projection_parameter_tensor.as_str(),
        ) {
            None => Err(
                VulkanResidentOutputTransducerRunnerError::MissingTransducerParameterBuffer {
                    tensor: settings.projection_parameter_tensor.clone(),
                },
            ),
            Some(projection_weight) => {
                Self::from_mounted_output_transducer_with_parameter_allocations(
                    device,
                    mounted,
                    norm_weight,
                    projection_weight,
                    embedding_norm_spirv_words,
                    tied_projection_spirv_words,
                    settings,
                )
            },
        }
    }

    /// The output transducer of a mounted model, with given tensors.
    pub fn from_mounted_output_transducer_with_parameter_allocations(
        device: &VulkanComputeDevice,
        mounted: &VulkanMountedPlacedStreamCircuit,
        embedding_norm_weight: &VulkanPermanentParameterBufferAllocation,
        embedding_weight: &VulkanPermanentParameterBufferAllocation,
        embedding_norm_spirv_words: &Vec<u32>,
        tied_projection_spirv_words: &Vec<u32>,
        settings: &VulkanResidentOutputTransducerSpec,
    ) -> (r: Result<Self, VulkanResidentOutputTransducerRunnerError>)
        ensures
            sequence::outcome(r) == output_runner(
                device@.device_id,
                mounted@,
                embedding_norm_weight@,
                embedding_weight@,
                embedding_norm_spirv_words@,
                tied_projection_spirv_words@,
                settings@,
            ),
    {
        reveal(output_runner);
        let frame: &VulkanModelBoundaryBufferAllocation = match mounted.boundary_io.output_buffer(
            settings.input_signal_id.as_str(),
        ) {
            None => {
                return Err(
                    VulkanResidentOutputTransducerRunnerError::MissingModelOutputBuffer {
                        signal_id: settings.input_signal_id.clone(),
                    },
                );
            },
            Some(frame) => frame,
        };
        if frame.byte_capacity != settings.input_frame_byte_capacity {
            return Err(
                VulkanResidentOutputTransducerRunnerError::InvalidInputFrameByteCapacity {
                    signal_id: settings.input_signal_id.clone(),
                    byte_capacity: frame.byte_capacity,
                    expected_byte_capacity: settings.input_frame_byte_capacity,
                },
            );
        }
        match validate_output_projection_weight(embedding_weight, settings) {
            Err(error) => {
                return Err(error);
            },
            Ok(()) => {},
        }
        match validate_output_embedding_norm_weight(embedding_norm_weight, settings) {
            Err(error) => {
                return Err(error);
            },
            Ok(()) => {},
        }
        let normalized_frame_buffer: VulkanResidentBuffer = VulkanResidentBuffer::in_device_memory(
            VulkanResidentBufferName::NormalizedFrame,
            device.device_id.as_str(),
            settings.normalized_frame_byte_capacity,
        );
        let logits_buffer: VulkanResidentBuffer = VulkanResidentBuffer::in_device_memory(
            VulkanResidentBufferName::Logits,
            device.device_id.as_str(),
            settings.logits_byte_capacity,
        );
        let norm_bindings: Vec<VulkanResidentKernelBufferBinding> = device::three_bindings(
            VulkanResidentKernelBufferBinding::bind(
                0,
                &frame.buffer,
                frame.byte_capacity,
                VulkanResidentKernelBufferAccess::Read,
            ),
            VulkanResidentKernelBufferBinding::bind(
                1,
                &normalized_frame_buffer,
                settings.normalized_frame_byte_capacity,
                VulkanResidentKernelBufferAccess::Write,
            ),
            VulkanResidentKernelBufferBinding::bind(
                2,
                &embedding_norm_weight.buffer,
                embedding_norm_weight.byte_capacity,
                VulkanResidentKernelBufferAccess::Read,
            ),
        );
        let embedding_norm_dispatch: VulkanResidentKernelDispatch =
            VulkanResidentKernelDispatch::unlabelled(
            device.device_id.as_str(),
            embedding_norm_spirv_words,
            norm_bindings,
            1,
            1,
            settings.norm_local_size_x,
            0,
        );
        if settings.projection_workgroup_count_x == 0 {
            return Err(VulkanResidentOutputTransducerRunnerError::InvalidProjectionWorkgroupCount);
        }
        let projection_bindings: Vec<VulkanResidentKernelBufferBinding> = device::three_bindings(
            VulkanResidentKernelBufferBinding::bind(
                0,
                &normalized_frame_buffer,
                settings.normalized_frame_byte_capacity,
                VulkanResidentKernelBufferAccess::Read,
            ),
            VulkanResidentKernelBufferBinding::bind(
                1,
                &embedding_weight.buffer,
                embedding_weight.byte_capacity,
                VulkanResidentKernelBufferAccess::Read,
            ),
            VulkanResidentKernelBufferBinding::bind(
                2,
                &logits_buffer,
                settings.logits_byte_capacity,
                VulkanResidentKernelBufferAccess::Write,
            ),
        );
        let tied_projection_dispatch: VulkanResidentKernelDispatch =
            VulkanResidentKernelDispatch::unlabelled(
            device.device_id.as_str(),
            tied_projection_spirv_words,
            projection_bindings,
            settings.projection_workgroup_count_x,
            1,
            settings.projection_local_size_x,
            0,
        );
        let total_descriptor_count: usize =
            match embedding_norm_dispatch.descriptor_count().checked_add(
            tied_projection_dispatch.descriptor_count(),
        ) {
            None => {
                return Err(VulkanResidentOutputTransducerRunnerError::DescriptorCountOverflow);
            },
            Some(count) => count,
        };
        let total_push_constant_byte_count: u32 =
            match embedding_norm_dispatch.push_constant_byte_count.checked_add(
            tied_projection_dispatch.push_constant_byte_count,
        ) {
            None => {
                return Err(
                    VulkanResidentOutputTransducerRunnerError::PushConstantByteCountOverflow,
                );
            },
            Some(count) => count,
        };
        Ok(
            VulkanResidentOutputTransducerRunner {
                transducer_id: settings.transducer_id.clone(),
                input_signal_id: settings.input_signal_id.clone(),
                logits_byte_capacity: settings.logits_byte_capacity,
                dispatch_count: 2,
                total_descriptor_count,
                total_push_constant_byte_count,
                normalized_frame_buffer,
                logits_buffer,
                embedding_norm_dispatch,
                tied_projection_dispatch,
                node_ids: sequence::copy_texts(settings.node_ids.as_slice()),
            },
        )
    }

    /// The launches of a run, in order.
    pub fn steps(&self) -> (r: Vec<VulkanResidentKernelSequenceStep>)
        ensures
            r.deep_view() == seq![
                device::plain_step(self@.embedding_norm_dispatch),
                device::plain_step(self@.tied_projection_dispatch),
            ],
    {
        let r: Vec<VulkanResidentKernelSequenceStep> = vec![
            VulkanResidentKernelSequenceStep::plain(&self.embedding_norm_dispatch),
            VulkanResidentKernelSequenceStep::plain(&self.tied_projection_dispatch),
        ];
        assert(r.deep_view() =~= seq![
            device::plain_step(self@.embedding_norm_dispatch),
            device::plain_step(self@.tied_projection_dispatch),
        ]);
        r
    }

    /// The run of a frame, from what came of its launches.
    pub fn run(&self, launched: &Result<(), VulkanError>) -> (r: Result<
        VulkanResidentOutputTransducerRun,
        VulkanResidentOutputTransducerRunnerError,
    >)
        ensures
            sequence::outcome(r) == (match sequence::outcome(*launched) {
                Err(error) => Err(VulkanResidentOutputTransducerRunnerErrorView::Vulkan(error)),
                Ok(_) => Ok(projected(self@)),
            }),
    {
        match launched {
            Err(error) => Err(VulkanResidentOutputTransducerRunnerError::from(error.clone())),
            Ok(_) => Ok(self.completed_run()),
        }
    }

    /// A frame that went through the transducer.
    pub fn completed_run(&self) -> (r: VulkanResidentOutputTransducerRun)
        ensures
            r@ == projected(self@),
    {
        let descriptor_counts: Vec<usize> = vec![
            self.embedding_norm_dispatch.descriptor_count(),
            self.tied_projection_dispatch.descriptor_count(),
        ];
        let workgroup_counts_x: Vec<u32> = vec![
            self.embedding_norm_dispatch.workgroup_count_x,
            self.tied_projection_dispatch.workgroup_count_x,
        ];
        let push_constant_byte_counts: Vec<u32> = vec![
            self.embedding_norm_dispatch.push_constant_byte_count,
            self.tied_projection_dispatch.push_constant_byte_count,
        ];
        assert(descriptor_counts.deep_view() =~= projected(self@).descriptor_counts);
        assert(workgroup_counts_x.deep_view() =~= projected(self@).workgroup_counts_x);
        assert(push_constant_byte_counts.deep_view() =~= projected(self@).push_constant_byte_counts);
        VulkanResidentOutputTransducerRun {
            transducer_id: self.transducer_id.clone(),
            input_signal_id: self.input_signal_id.clone(),
            dispatch_count: self.dispatch_count,
            node_ids: sequence::copy_texts(self.node_ids.as_slice()),
            descriptor_counts,
            workgroup_counts_x,
            push_constant_byte_counts,
            logits_byte_capacity: self.logits_byte_capacity,
        }
    }

    /// The buffer from which logits are read.
    pub fn logits_buffer(&self) -> (r: &VulkanResidentBuffer)
        ensures
            r@ == self@.logits_buffer,
    {
        &self.logits_buffer
    }

    /// The buffer from which the normalized frame is read.
    pub fn normalized_frame_buffer(&self) -> (r: &VulkanResidentBuffer)
        ensures
            r@ == self@.normalized_frame_buffer,
    {
        &self.normalized_frame_buffer
    }
}

/// An output transducer normalizes a frame and projects it onto logits. The norm reads the model's
/// output and its weight and writes only the normalized frame; the projection reads that frame and
/// its weight and writes only the logits. Each of them covers its buffer from the start on.
pub proof fn outputs_are_normalized_and_projected(
    device_id: Seq<char>,
    mounted: VulkanMountedPlacedStreamCircuitView,
    norm_weight: VulkanPermanentParameterBufferAllocationView,
    projection_weight: VulkanPermanentParameterBufferAllocationView,
    norm_words: Seq<u32>,
    projection_words: Seq<u32>,
    settings: VulkanResidentOutputTransducerSpecView,
)
    requires
        output_runner(
            device_id,
            mounted,
            norm_weight,
            projection_weight,
            norm_words,
            projection_words,
            settings,
        ) is Ok,
    ensures
        ({
            let runner = output_runner(
                device_id,
                mounted,
                norm_weight,
                projection_weight,
                norm_words,
                projection_words,
                settings,
            )->Ok_0;
            let norm = runner.embedding_norm_dispatch;
            let projection = runner.tied_projection_dispatch;
            let frame = runner.normalized_frame_buffer;
            let logits = runner.logits_buffer;
            let read = VulkanResidentKernelBufferAccess::Read;
            let write = VulkanResidentKernelBufferAccess::Write;
            &&& runner.transducer_id == settings.transducer_id
            &&& runner.input_signal_id == settings.input_signal_id
            &&& runner.node_ids == settings.node_ids
            &&& runner.logits_byte_capacity == settings.logits_byte_capacity
            &&& runner.dispatch_count == 2
            &&& runner.total_descriptor_count == norm.bindings.len() + projection.bindings.len()
            &&& runner.total_push_constant_byte_count == norm.push_constant_byte_count
                + projection.push_constant_byte_count
            &&& frame.device_id == device_id
            &&& frame.byte_capacity == settings.normalized_frame_byte_capacity
            &&& logits.device_id == device_id
            &&& logits.byte_capacity == settings.logits_byte_capacity
            &&& frame.name != logits.name
            &&& norm.device_id == device_id
            &&& norm.spirv_words == norm_words
            &&& norm.local_size_x == settings.norm_local_size_x
            &&& norm.workgroup_count_x == 1
            &&& norm.workgroup_count_y == 1
            &&& norm.base_workgroup_z == 0
            &&& norm.push_constant_byte_count == 0
            &&& norm.bindings.len() == 3
            &&& device::writes_only(norm.bindings, 1)
            &&& exists|i: int|
                0 <= i < mounted.boundary_io.outputs.len() && {
                    let signal = #[trigger] mounted.boundary_io.outputs[i];
                    &&& signal.signal_id == settings.input_signal_id
                    &&& signal.byte_capacity == settings.input_frame_byte_capacity
                    &&& device::hands(
                        norm.bindings[0],
                        0,
                        signal.buffer,
                        0,
                        signal.byte_capacity as int,
                        read,
                    )
                }
            &&& device::hands(norm.bindings[1], 1, frame, 0, frame.byte_capacity as int, write)
            &&& device::hands(
                norm.bindings[2],
                2,
                norm_weight.buffer,
                0,
                norm_weight.byte_capacity as int,
                read,
            )
            &&& projection.device_id == device_id
            &&& projection.spirv_words == projection_words
            &&& projection.local_size_x == settings.projection_local_size_x
            &&& projection.workgroup_count_x == settings.projection_workgroup_count_x
            &&& projection.workgroup_count_x > 0
            &&& projection.workgroup_count_y == 1
            &&& projection.base_workgroup_z == 0
            &&& projection.push_constant_byte_count == 0
            &&& projection.bindings.len() == 3
            &&& device::writes_only(projection.bindings, 2)
            &&& device::hands(
                projection.bindings[0],
                0,
                frame,
                0,
                frame.byte_capacity as int,
                read,
            )
            &&& device::hands(
                projection.bindings[1],
                1,
                projection_weight.buffer,
                0,
                projection_weight.byte_capacity as int,
                read,
            )
            &&& device::hands(
                projection.bindings[2],
                2,
                logits,
                0,
                logits.byte_capacity as int,
                write,
            )
        }),
{
    reveal(output_runner);
    let i = sequence::lemma_find_first_some(
        mounted.boundary_io.outputs,
        resident_plan::boundary_matcher(settings.input_signal_id),
    );
    assert(mounted.boundary_io.outputs[i].signal_id == settings.input_signal_id);
}

/// The weights of an output transducer have the type, the shape and the size that its settings ask
/// of each of them.
pub proof fn output_weights_are_as_expected(
    device_id: Seq<char>,
    mounted: VulkanMountedPlacedStreamCircuitView,
    norm_weight: VulkanPermanentParameterBufferAllocationView,
    projection_weight: VulkanPermanentParameterBufferAllocationView,
    norm_words: Seq<u32>,
    projection_words: Seq<u32>,
    settings: VulkanResidentOutputTransducerSpecView,
)
    requires
        output_runner(
            device_id,
            mounted,
            norm_weight,
            projection_weight,
            norm_words,
            projection_words,
            settings,
        ) is Ok,
    ensures
        norm_weight.parameter.dtype == Some(settings.norm_parameter_dtype),
        norm_weight.parameter.shape == Some(settings.norm_parameter_shape),
        norm_weight.byte_capacity == settings.norm_parameter_byte_capacity,
        projection_weight.parameter.dtype == Some(settings.projection_parameter_dtype),
        projection_weight.parameter.shape == Some(settings.projection_parameter_shape),
        projection_weight.byte_capacity == settings.projection_parameter_byte_capacity,
{
    reveal(output_runner);
}

/// A run reports the norm before the projection, each as it was launched.
pub proof fn runs_report_both_launches(runner: VulkanResidentOutputTransducerRunnerView)
    ensures
        ({
            let run = projected(runner);
            let norm = runner.embedding_norm_dispatch;
            let projection = runner.tied_projection_dispatch;
            &&& run.transducer_id == runner.transducer_id
            &&& run.input_signal_id == runner.input_signal_id
            &&& run.node_ids == runner.node_ids
            &&& run.dispatch_count == runner.dispatch_count
            &&& run.logits_byte_capacity == runner.logits_byte_capacity
            &&& run.descriptor_counts.len() == 2
            &&& run.workgroup_counts_x.len() == 2
            &&& run.push_constant_byte_counts.len() == 2
            &&& norm.bindings.len() <= usize::MAX ==> run.descriptor_counts[0]
                == norm.bindings.len()
            &&& projection.bindings.len() <= usize::MAX ==> run.descriptor_counts[1]
                == projection.bindings.len()
            &&& run.workgroup_counts_x[0] == norm.workgroup_count_x
            &&& run.workgroup_counts_x[1] == projection.workgroup_count_x
            &&& run.push_constant_byte_counts[0] == norm.push_constant_byte_count
            &&& run.push_constant_byte_counts[1] == projection.push_constant_byte_count
        }),
{
}

} // verus!
