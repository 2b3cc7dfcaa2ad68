//! The transducer that turns token ids into the model's input frames.

use crate::arithmetic;
use crate::circuit_mount::VULKAN_STREAM_CONTROL_BYTE_CAPACITY;
use crate::circuit_mount::VulkanMountedPlacedStreamCircuit;
use crate::circuit_mount::VulkanMountedPlacedStreamCircuitView;
use crate::device::VulkanComputeDevice;
use crate::device::VulkanError;
use crate::device::VulkanResidentBuffer;
use crate::device::VulkanResidentBufferName;
use crate::device::VulkanResidentBufferView;
use crate::device::VulkanResidentKernelBufferAccess;
use crate::device::VulkanResidentKernelBufferBinding;
use crate::device::VulkanResidentKernelBufferBindingView;
use crate::device::VulkanResidentKernelDispatch;
use crate::device::VulkanResidentKernelDispatchView;
use crate::device::VulkanResidentKernelSequenceStep;
use crate::device::VulkanResidentKernelSequenceStepView;
use crate::device;
use crate::resident_plan::VulkanModelBoundaryBufferAllocation;
use crate::resident_plan::VulkanModelBoundaryBufferAllocationView;
use crate::resident_plan::VulkanPermanentParameterBufferAllocation;
use crate::resident_plan::VulkanPermanentParameterBufferAllocationView;
use crate::resident_plan::VulkanPermanentParameterBuffers;
use crate::resident_plan;
use crate::runtime_error::VulkanResidentInProcessPlacedRuntimeError;
use crate::runtime_error::VulkanResidentInProcessPlacedRuntimeErrorView;
use crate::sequence;
use crate::text::Message;
use crate::text;
use vstd::prelude::*;

verus! {

/// Why the input transducer cannot be made or run.
#[derive(Debug, PartialEq, Eq)]
pub enum VulkanResidentInputEmbeddingTransducerRunnerError {
    MissingTransducerParameterBuffer { tensor: String },
    InvalidEmbeddingWeight { tensor: String, dtype: Option<String>, shape: Option<Vec<usize>>, byte_capacity: usize },
    MissingModelInputBuffer { signal_id: String },
    InvalidOutputFrameByteCapacity { signal_id: String, byte_capacity: usize, expected_byte_capacity: usize },
    WorkgroupCountOverflow,
    Vulkan(VulkanError),
}

#[verifier::ext_equal]
pub enum VulkanResidentInputEmbeddingTransducerRunnerErrorView {
    MissingTransducerParameterBuffer { tensor: Seq<char> },
    InvalidEmbeddingWeight { tensor: Seq<char>, dtype: Option<Seq<char>>, shape: Option<Seq<usize>>, byte_capacity: usize },
    MissingModelInputBuffer { signal_id: Seq<char> },
    InvalidOutputFrameByteCapacity { signal_id: Seq<char>, byte_capacity: usize, expected_byte_capacity: usize },
    WorkgroupCountOverflow,
    Vulkan(Seq<char>),
}

impl DeepView for VulkanResidentInputEmbeddingTransducerRunnerError {
    type V = VulkanResidentInputEmbeddingTransducerRunnerErrorView;

    open spec fn deep_view(&self) -> VulkanResidentInputEmbeddingTransducerRunnerErrorView {
        match self {
            VulkanResidentInputEmbeddingTransducerRunnerError::MissingTransducerParameterBuffer { tensor } => VulkanResidentInputEmbeddingTransducerRunnerErrorView::MissingTransducerParameterBuffer { tensor: tensor.deep_view() },
            VulkanResidentInputEmbeddingTransducerRunnerError::InvalidEmbeddingWeight { tensor, dtype, shape, byte_capacity } => VulkanResidentInputEmbeddingTransducerRunnerErrorView::InvalidEmbeddingWeight { tensor: tensor.deep_view(), dtype: dtype.deep_view(), shape: shape.deep_view(), byte_capacity: *byte_capacity },
            VulkanResidentInputEmbeddingTransducerRunnerError::MissingModelInputBuffer { signal_id } => VulkanResidentInputEmbeddingTransducerRunnerErrorView::MissingModelInputBuffer { signal_id: signal_id.deep_view() },
            VulkanResidentInputEmbeddingTransducerRunnerError::InvalidOutputFrameByteCapacity { signal_id, byte_capacity, expected_byte_capacity } => VulkanResidentInputEmbeddingTransducerRunnerErrorView::InvalidOutputFrameByteCapacity { signal_id: signal_id.deep_view(), byte_capacity: *byte_capacity, expected_byte_capacity: *expected_byte_capacity },
            VulkanResidentInputEmbeddingTransducerRunnerError::WorkgroupCountOverflow => VulkanResidentInputEmbeddingTransducerRunnerErrorView::WorkgroupCountOverflow,
            VulkanResidentInputEmbeddingTransducerRunnerError::Vulkan(value) => VulkanResidentInputEmbeddingTransducerRunnerErrorView::Vulkan(value.deep_view()),
        }
    }
}

impl View for VulkanResidentInputEmbeddingTransducerRunnerError {
    type V = VulkanResidentInputEmbeddingTransducerRunnerErrorView;

    open spec fn view(&self) -> VulkanResidentInputEmbeddingTransducerRunnerErrorView {
        self.deep_view()
    }
}

impl Clone for VulkanResidentInputEmbeddingTransducerRunnerError {
    fn clone(&self) -> (r: Self)
        ensures
            r@ == self@,
    {
        match self {
            VulkanResidentInputEmbeddingTransducerRunnerError::MissingTransducerParameterBuffer { tensor } => VulkanResidentInputEmbeddingTransducerRunnerError::MissingTransducerParameterBuffer { tensor: tensor.clone() },
            VulkanResidentInputEmbeddingTransducerRunnerError::InvalidEmbeddingWeight { tensor, dtype, shape, byte_capacity } => VulkanResidentInputEmbeddingTransducerRunnerError::InvalidEmbeddingWeight { tensor: tensor.clone(), dtype: dtype.clone(), shape: shape.clone(), byte_capacity: *byte_capacity },
            VulkanResidentInputEmbeddingTransducerRunnerError::MissingModelInputBuffer { signal_id } => VulkanResidentInputEmbeddingTransducerRunnerError::MissingModelInputBuffer { signal_id: signal_id.clone() },
            VulkanResidentInputEmbeddingTransducerRunnerError::InvalidOutputFrameByteCapacity { signal_id, byte_capacity, expected_byte_capacity } => VulkanResidentInputEmbeddingTransducerRunnerError::InvalidOutputFrameByteCapacity { signal_id: signal_id.clone(), byte_capacity: *byte_capacity, expected_byte_capacity: *expected_byte_capacity },
            VulkanResidentInputEmbeddingTransducerRunnerError::WorkgroupCountOverflow => VulkanResidentInputEmbeddingTransducerRunnerError::WorkgroupCountOverflow,
            VulkanResidentInputEmbeddingTransducerRunnerError::Vulkan(value) => VulkanResidentInputEmbeddingTransducerRunnerError::Vulkan(value.clone()),
        }
    }
}

/// What is said of it.
pub open spec fn input_transducer_message(error: VulkanResidentInputEmbeddingTransducerRunnerErrorView) -> Seq<char> {
    match error {
        VulkanResidentInputEmbeddingTransducerRunnerErrorView::MissingTransducerParameterBuffer { tensor } => {
            "missing transducer parameter buffer for tensor "@ + text::quoted(tensor)
        },
        VulkanResidentInputEmbeddingTransducerRunnerErrorView::InvalidEmbeddingWeight { tensor, dtype, shape, byte_capacity } => {
            "transducer embedding tensor "@ + text::quoted(tensor) + " has dtype "@ + text::quoted_option(dtype) + ", shape "@ + text::number_list_option(shape) + ", and "@ + text::decimal(byte_capacity as nat) + " bytes"@
        },
        VulkanResidentInputEmbeddingTransducerRunnerErrorView::MissingModelInputBuffer { signal_id } => {
            "missing model input boundary buffer "@ + text::quoted(signal_id)
        },
        VulkanResidentInputEmbeddingTransducerRunnerErrorView::InvalidOutputFrameByteCapacity { signal_id, byte_capacity, expected_byte_capacity } => {
            "model input boundary buffer "@ + text::quoted(signal_id) + " has "@ + text::decimal(byte_capacity as nat) + " bytes, expected "@ + text::decimal(expected_byte_capacity as nat)
        },
        VulkanResidentInputEmbeddingTransducerRunnerErrorView::WorkgroupCountOverflow => {
            "input embedding transducer workgroup count overflowed"@
        },
        VulkanResidentInputEmbeddingTransducerRunnerErrorView::Vulkan(error) => error,
    }
}

impl VulkanResidentInputEmbeddingTransducerRunnerError {
    /// What is wrong.
    pub fn to_string(&self) -> (r: String)
        ensures
            r@ == input_transducer_message(self@),
    {
        match self {
            VulkanResidentInputEmbeddingTransducerRunnerError::MissingTransducerParameterBuffer { tensor } => {
                Message::new("missing transducer parameter buffer for tensor ").quoted(tensor.as_str()).done()
            },
            VulkanResidentInputEmbeddingTransducerRunnerError::InvalidEmbeddingWeight { tensor, dtype, shape, byte_capacity } => {
                Message::new("transducer embedding tensor ").quoted(tensor.as_str()).text(" has dtype ").quoted_option(dtype).text(", shape ").number_list_option(shape).text(", and ").number(*byte_capacity).text(" bytes").done()
            },
            VulkanResidentInputEmbeddingTransducerRunnerError::MissingModelInputBuffer { signal_id } => {
                Message::new("missing model input boundary buffer ").quoted(signal_id.as_str()).done()
            },
            VulkanResidentInputEmbeddingTransducerRunnerError::InvalidOutputFrameByteCapacity { signal_id, byte_capacity, expected_byte_capacity } => {
                Message::new("model input boundary buffer ").quoted(signal_id.as_str()).text(" has ").number(*byte_capacity).text(" bytes, expected ").number(*expected_byte_capacity).done()
            },
            VulkanResidentInputEmbeddingTransducerRunnerError::WorkgroupCountOverflow => {
                Message::new("input embedding transducer workgroup count overflowed").done()
            },
            VulkanResidentInputEmbeddingTransducerRunnerError::Vulkan(error) => error.to_string(),
        }
    }
}

impl vstd::std_specs::convert::FromSpecImpl<VulkanError> for VulkanResidentInputEmbeddingTransducerRunnerError {
    open spec fn obeys_from_spec() -> bool {
        true
    }

    open spec fn from_spec(error: VulkanError) -> Self {
        VulkanResidentInputEmbeddingTransducerRunnerError::Vulkan(error)
    }
}

impl From<VulkanError> for VulkanResidentInputEmbeddingTransducerRunnerError {
    fn from(error: VulkanError) -> (r: Self) {
        VulkanResidentInputEmbeddingTransducerRunnerError::Vulkan(error)
    }
}

/// What the input transducer reads and writes.
#[derive(Debug, PartialEq, Eq)]
pub struct VulkanResidentInputEmbeddingTransducerSpec {
    pub transducer_id: String,
    pub parameter_tensor: String,
    pub parameter_dtype: String,
    pub parameter_shape: Vec<usize>,
    pub parameter_byte_capacity: usize,
    pub output_signal_id: String,
    pub output_frame_byte_capacity: usize,
    pub output_frame_word_count: usize,
    pub local_size_x: u32,
}

#[verifier::ext_equal]
pub struct VulkanResidentInputEmbeddingTransducerSpecView {
    pub transducer_id: Seq<char>,
    pub parameter_tensor: Seq<char>,
    pub parameter_dtype: Seq<char>,
    pub parameter_shape: Seq<usize>,
    pub parameter_byte_capacity: usize,
    pub output_signal_id: Seq<char>,
    pub output_frame_byte_capacity: usize,
    pub output_frame_word_count: usize,
    pub local_size_x: u32,
}

impl DeepView for VulkanResidentInputEmbeddingTransducerSpec {
    type V = VulkanResidentInputEmbeddingTransducerSpecView;

    open spec fn deep_view(&self) -> VulkanResidentInputEmbeddingTransducerSpecView {
        VulkanResidentInputEmbeddingTransducerSpecView {
            transducer_id: self.transducer_id.deep_view(),
            parameter_tensor: self.parameter_tensor.deep_view(),
            parameter_dtype: self.parameter_dtype.deep_view(),
            parameter_shape: self.parameter_shape.deep_view(),
            parameter_byte_capacity: self.parameter_byte_capacity,
            output_signal_id: self.output_signal_id.deep_view(),
            output_frame_byte_capacity: self.output_frame_byte_capacity,
            output_frame_word_count: self.output_frame_word_count,
            local_size_x: self.local_size_x,
        }
    }
}

impl View for VulkanResidentInputEmbeddingTransducerSpec {
    type V = VulkanResidentInputEmbeddingTransducerSpecView;

    open spec fn view(&self) -> VulkanResidentInputEmbeddingTransducerSpecView {
        self.deep_view()
    }
}

impl Clone for VulkanResidentInputEmbeddingTransducerSpec {
    fn clone(&self) -> (r: Self)
        ensures
            r@ == self@,
    {
        VulkanResidentInputEmbeddingTransducerSpec {
            transducer_id: self.transducer_id.clone(),
            parameter_tensor: self.parameter_tensor.clone(),
            parameter_dtype: self.parameter_dtype.clone(),
            parameter_shape: self.parameter_shape.clone(),
            parameter_byte_capacity: self.parameter_byte_capacity,
            output_signal_id: self.output_signal_id.clone(),
            output_frame_byte_capacity: self.output_frame_byte_capacity,
            output_frame_word_count: self.output_frame_word_count,
            local_size_x: self.local_size_x,
        }
    }
}

/// The input transducer of a mounted model.
#[derive(Debug, PartialEq, Eq)]
pub struct VulkanResidentInputEmbeddingTransducerRunner {
    pub transducer_id: String,
    pub parameter_tensor: String,
    pub output_signal_id: String,
    pub descriptor_count: usize,
    pub workgroup_count_x: u32,
    pub push_constant_byte_count: u32,
    pub stream_control_buffer: VulkanResidentBuffer,
    pub resident_dispatch: VulkanResidentKernelDispatch,
}

#[verifier::ext_equal]
pub struct VulkanResidentInputEmbeddingTransducerRunnerView {
    pub transducer_id: Seq<char>,
    pub parameter_tensor: Seq<char>,
    pub output_signal_id: Seq<char>,
    pub descriptor_count: usize,
    pub workgroup_count_x: u32,
    pub push_constant_byte_count: u32,
    pub stream_control_buffer: VulkanResidentBufferView,
    pub resident_dispatch: VulkanResidentKernelDispatchView,
}

impl DeepView for VulkanResidentInputEmbeddingTransducerRunner {
    type V = VulkanResidentInputEmbeddingTransducerRunnerView;

    open spec fn deep_view(&self) -> VulkanResidentInputEmbeddingTransducerRunnerView {
        VulkanResidentInputEmbeddingTransducerRunnerView {
            transducer_id: self.transducer_id.deep_view(),
            parameter_tensor: self.parameter_tensor.deep_view(),
            output_signal_id: self.output_signal_id.deep_view(),
            descriptor_count: self.descriptor_count,
            workgroup_count_x: self.workgroup_count_x,
            push_constant_byte_count: self.push_constant_byte_count,
            stream_control_buffer: self.stream_control_buffer.deep_view(),
            resident_dispatch: self.resident_dispatch.deep_view(),
        }
    }
}

impl View for VulkanResidentInputEmbeddingTransducerRunner {
    type V = VulkanResidentInputEmbeddingTransducerRunnerView;

    open spec fn view(&self) -> VulkanResidentInputEmbeddingTransducerRunnerView {
        self.deep_view()
    }
}

impl Clone for VulkanResidentInputEmbeddingTransducerRunner {
    fn clone(&self) -> (r: Self)
        ensures
            r@ == self@,
    {
        VulkanResidentInputEmbeddingTransducerRunner {
            transducer_id: self.transducer_id.clone(),
            parameter_tensor: self.parameter_tensor.clone(),
            output_signal_id: self.output_signal_id.clone(),
            descriptor_count: self.descriptor_count,
            workgroup_count_x: self.workgroup_count_x,
            push_constant_byte_count: self.push_constant_byte_count,
            stream_control_buffer: self.stream_control_buffer.clone(),
            resident_dispatch: self.resident_dispatch.clone(),
        }
    }
}

/// A token that went through the input transducer.
#[derive(Debug, PartialEq, Eq)]
pub struct VulkanResidentInputEmbeddingTransducerRun {
    pub transducer_id: String,
    pub token_id: u32,
    pub output_signal_id: String,
    pub dispatch_count: usize,
    pub descriptor_count: usize,
    pub workgroup_count_x: u32,
    pub push_constant_byte_count: u32,
}

#[verifier::ext_equal]
pub struct VulkanResidentInputEmbeddingTransducerRunView {
    pub transducer_id: Seq<char>,
    pub token_id: u32,
    pub output_signal_id: Seq<char>,
    pub dispatch_count: usize,
    pub descriptor_count: usize,
    pub workgroup_count_x: u32,
    pub push_constant_byte_count: u32,
}

impl DeepView for VulkanResidentInputEmbeddingTransducerRun {
    type V = VulkanResidentInputEmbeddingTransducerRunView;

    open spec fn deep_view(&self) -> VulkanResidentInputEmbeddingTransducerRunView {
        VulkanResidentInputEmbeddingTransducerRunView {
            transducer_id: self.transducer_id.deep_view(),
            token_id: self.token_id,
            output_signal_id: self.output_signal_id.deep_view(),
            dispatch_count: self.dispatch_count,
            descriptor_count: self.descriptor_count,
            workgroup_count_x: self.workgroup_count_x,
            push_constant_byte_count: self.push_constant_byte_count,
        }
    }
}

impl View for VulkanResidentInputEmbeddingTransducerRun {
    type V = VulkanResidentInputEmbeddingTransducerRunView;

    open spec fn view(&self) -> VulkanResidentInputEmbeddingTransducerRunView {
        self.deep_view()
    }
}

impl Clone for VulkanResidentInputEmbeddingTransducerRun {
    fn clone(&self) -> (r: Self)
        ensures
            r@ == self@,
    {
        VulkanResidentInputEmbeddingTransducerRun {
            transducer_id: self.transducer_id.clone(),
            token_id: self.token_id,
            output_signal_id: self.output_signal_id.clone(),
            dispatch_count: self.dispatch_count,
            descriptor_count: self.descriptor_count,
            workgroup_count_x: self.workgroup_count_x,
            push_constant_byte_count: self.push_constant_byte_count,
        }
    }
}

/// Whether a tensor is the one that is expected.
pub open spec fn is_expected_tensor(
    allocation: VulkanPermanentParameterBufferAllocationView,
    dtype: Seq<char>,
    shape: Seq<usize>,
    byte_capacity: usize,
) -> bool {
    &&& allocation.parameter.dtype == Some(dtype)
    &&& allocation.parameter.shape == Some(shape)
    &&& allocation.byte_capacity == byte_capacity
}

/// Whether a tensor is the one that is expected.
pub(crate) fn matches_tensor(
    allocation: &VulkanPermanentParameterBufferAllocation,
    dtype: &String,
    shape: &Vec<usize>,
    byte_capacity: usize,
) -> (r: bool)
    ensures
        r == is_expected_tensor(allocation@, dtype@, shape.deep_view(), byte_capacity),
{
    let same_dtype: bool = match &allocation.parameter.dtype {
        Some(given) => *given == *dtype,
        None => false,
    };
    let same_shape: bool = match &allocation.parameter.shape {
        Some(given) => {
            assert(given.deep_view() =~= given@ && shape.deep_view() =~= shape@);
            sequence::same_numbers(given, shape)
        },
        None => false,
    };
    same_dtype && same_shape && allocation.byte_capacity == byte_capacity
}

/// The error where the embedding tensor is not the one that is expected.
pub open spec fn embedding_weight_error(
    allocation: VulkanPermanentParameterBufferAllocationView,
    settings: VulkanResidentInputEmbeddingTransducerSpecView,
) -> Option<VulkanResidentInputEmbeddingTransducerRunnerErrorView> {
    if is_expected_tensor(
        allocation,
        settings.parameter_dtype,
        settings.parameter_shape,
        settings.parameter_byte_capacity,
    ) {
        None
    } else {
        Some(
            VulkanResidentInputEmbeddingTransducerRunnerErrorView::InvalidEmbeddingWeight {
                tensor: allocation.parameter.tensor,
                dtype: allocation.parameter.dtype,
                shape: allocation.parameter.shape,
                byte_capacity: allocation.byte_capacity,
            },
        )
    }
}

/// A copy of an optional text.
pub(crate) fn copy_optional_text(text: &Option<String>) -> (r: Option<String>)
    ensures
        r.deep_view() == text.deep_view(),
{
    match text {
        Some(text) => Some(text.clone()),
        None => None,
    }
}

/// A copy of an optional list of numbers.
pub(crate) fn copy_optional_numbers(numbers: &Option<Vec<usize>>) -> (r: Option<Vec<usize>>)
    ensures
        r.deep_view() == numbers.deep_view(),
{
    match numbers {
        Some(numbers) => {
            let copy: Vec<usize> = numbers.clone();
            assert(copy.deep_view() =~= numbers.deep_view());
            Some(copy)
        },
        None => None,
    }
}

/// Refuses an embedding tensor that is not the one that is expected.
pub fn validate_input_embedding_weight(
    allocation: &VulkanPermanentParameterBufferAllocation,
    settings: &VulkanResidentInputEmbeddingTransducerSpec,
) -> (r: Result<(), VulkanResidentInputEmbeddingTransducerRunnerError>)
    ensures
        sequence::outcome(r) == (match embedding_weight_error(allocation@, settings@) {
            Some(error) => Err::<(), VulkanResidentInputEmbeddingTransducerRunnerErrorView>(error),
            None => Ok(()),
        }),
{
    if matches_tensor(
        allocation,
        &settings.parameter_dtype,
        &settings.parameter_shape,
        settings.parameter_byte_capacity,
    ) {
        return Ok(());
    }
    Err(
        VulkanResidentInputEmbeddingTransducerRunnerError::InvalidEmbeddingWeight {
            tensor: allocation.parameter.tensor.clone(),
            dtype: copy_optional_text(&allocation.parameter.dtype),
            shape: copy_optional_numbers(&allocation.parameter.shape),
            byte_capacity: allocation.byte_capacity,
        },
    )
}

/// The buffers of the input transducer: the embedding, the frame that it writes and the control
/// buffer that holds the token.
pub open spec fn embedding_bindings(
    weight: VulkanPermanentParameterBufferAllocationView,
    frame: VulkanModelBoundaryBufferAllocationView,
    control: VulkanResidentBufferView,
) -> Seq<VulkanResidentKernelBufferBindingView> {
    seq![
        device::bound_buffer(
            0,
            weight.buffer,
            weight.byte_capacity,
            VulkanResidentKernelBufferAccess::Read,
        ),
        device::bound_buffer(
            1,
            frame.buffer,
            frame.byte_capacity,
            VulkanResidentKernelBufferAccess::Write,
        ),
        device::bound_buffer(
            2,
            control,
            VULKAN_STREAM_CONTROL_BYTE_CAPACITY,
            VulkanResidentKernelBufferAccess::Read,
        ),
    ]
}

/// Whether the embedding tensor and the frame of a model fit the transducer, so that its workgroups
/// are counted.
pub open spec fn embedding_fits(
    mounted: VulkanMountedPlacedStreamCircuitView,
    weight: VulkanPermanentParameterBufferAllocationView,
    settings: VulkanResidentInputEmbeddingTransducerSpecView,
) -> bool {
    &&& embedding_weight_error(weight, settings) is None
    &&& sequence::find_first(
        mounted.boundary_io.inputs,
        resident_plan::boundary_matcher(settings.output_signal_id),
    ) matches Some(frame) && frame.byte_capacity == settings.output_frame_byte_capacity
}

/// The input transducer of a mounted model, with a given embedding tensor.
#[verifier::opaque]
pub open spec fn embedding_runner(
    device_id: Seq<char>,
    mounted: VulkanMountedPlacedStreamCircuitView,
    weight: VulkanPermanentParameterBufferAllocationView,
    words: Seq<u32>,
    settings: VulkanResidentInputEmbeddingTransducerSpecView,
) -> Result<
    VulkanResidentInputEmbeddingTransducerRunnerView,
    VulkanResidentInputEmbeddingTransducerRunnerErrorView,
> {
    match embedding_weight_error(weight, settings) {
        Some(error) => Err(error),
        None => match sequence::find_first(
            mounted.boundary_io.inputs,
            resident_plan::boundary_matcher(settings.output_signal_id),
        ) {
            None => Err(
                VulkanResidentInputEmbeddingTransducerRunnerErrorView::MissingModelInputBuffer {
                    signal_id: settings.output_signal_id,
                },
            ),
            Some(frame) => if frame.byte_capacity != settings.output_frame_byte_capacity {
                Err(
                    VulkanResidentInputEmbeddingTransducerRunnerErrorView::InvalidOutputFrameByteCapacity {
                        signal_id: settings.output_signal_id,
                        byte_capacity: frame.byte_capacity,
                        expected_byte_capacity: settings.output_frame_byte_capacity,
                    },
                )
            } else {
                let groups = arithmetic::ceiling(
                    settings.output_frame_word_count as nat,
                    settings.local_size_x as nat,
                );
                if groups > u32::MAX {
                    Err(
                        VulkanResidentInputEmbeddingTransducerRunnerErrorView::WorkgroupCountOverflow,
                    )
                } else {
                    Ok(
                        VulkanResidentInputEmbeddingTransducerRunnerView {
                            transducer_id: settings.transducer_id,
                            parameter_tensor: settings.parameter_tensor,
                            output_signal_id: settings.output_signal_id,
                            descriptor_count: 3,
                            workgroup_count_x: groups as u32,
                            push_constant_byte_count: 0,
                            stream_control_buffer: mounted.stream_control_buffer,
                            resident_dispatch: device::kernel(
                                device_id,
                                words,
                                embedding_bindings(weight, frame, mounted.stream_control_buffer),
                                groups as u32,
                                1,
                                settings.local_size_x,
                                0,
                            ),
                        },
                    )
                }
            },
        },
    }
}

/// A token that went through the transducer.
pub open spec fn embedded(
    runner: VulkanResidentInputEmbeddingTransducerRunnerView,
    token_id: u32,
) -> VulkanResidentInputEmbeddingTransducerRunView {
    VulkanResidentInputEmbeddingTransducerRunView {
        transducer_id: runner.transducer_id,
        token_id,
        output_signal_id: runner.output_signal_id,
        dispatch_count: 1,
        descriptor_count: runner.descriptor_count,
        workgroup_count_x: runner.workgroup_count_x,
        push_constant_byte_count: runner.push_constant_byte_count,
    }
}

impl VulkanResidentInputEmbeddingTransducerRunner {
    /// The input transducer of a mounted model.
    pub fn from_mounted_token_embedding(
        device: &VulkanComputeDevice,
        mounted: &VulkanMountedPlacedStreamCircuit,
        transducer_parameter_buffers: &VulkanPermanentParameterBuffers,
        spirv_words: &Vec<u32>,
        settings: &VulkanResidentInputEmbeddingTransducerSpec,
    ) -> (r: Result<Self, VulkanResidentInputEmbeddingTransducerRunnerError>)
        requires
            sequence::find_first(
                transducer_parameter_buffers@.buffers,
                resident_plan::tensor_matcher(settings@.parameter_tensor),
            ) matches Some(weight) ==> embedding_fits(mounted@, weight, settings@)
                ==> settings@.local_size_x > 0,
        ensures
            sequence::outcome(r) == (match sequence::find_first(
                transducer_parameter_buffers@.buffers,
                resident_plan::tensor_matcher(settings@.parameter_tensor),
            ) {
                None => Err(
                    VulkanResidentInputEmbeddingTransducerRunnerErrorView::MissingTransducerParameterBuffer {
                        tensor: settings@.parameter_tensor,
                    },
                ),
                Some(weight) => embedding_runner(
                    device@.device_id,
                    mounted@,
                    weight,
                    spirv_words@,
                    settings@,
                ),
            }),
    {
        match transducer_parameter_buffers.parameter_buffer(settings.parameter_tensor.as_str()) {
            None => Err(
                VulkanResidentInputEmbeddingTransducerRunnerError::MissingTransducerParameterBuffer {
                    tensor: settings.parameter_tensor.clone(),
                },
            ),
            Some(weight) => Self::from_mounted_token_embedding_with_parameter_allocation(
                device,
                mounted,
                weight,
                spirv_words,
                settings,
            ),
        }
    }

    /// The input transducer of a mounted model, with a given embedding tensor.
    pub fn from_mounted_token_embedding_with_parameter_allocation(
        device: &VulkanComputeDevice,
        mounted: &VulkanMountedPlacedStreamCircuit,
        embedding_weight: &VulkanPermanentParameterBufferAllocation,
        spirv_words: &Vec<u32>,
        settings: &VulkanResidentInputEmbeddingTransducerSpec,
    ) -> (r: Result<Self, VulkanResidentInputEmbeddingTransducerRunnerError>)
        requires
            embedding_fits(mounted@, embedding_weight@, settings@) ==> settings@.local_size_x > 0,
        ensures
            sequence::outcome(r) == embedding_runner(
                device@.device_id,
                mounted@,
                embedding_weight@,
                spirv_words@,
                settings@,
            ),
    {
        reveal(embedding_runner);
        match validate_input_embedding_weight(embedding_weight, settings) {
            Err(error) => {
                return Err(error);
            },
            Ok(()) => {},
        }
        let frame: &VulkanModelBoundaryBufferAllocation = match mounted.boundary_io.input_buffer(
            settings.output_signal_id.as_str(),
        ) {
            None => {
                return Err(
                    VulkanResidentInputEmbeddingTransducerRunnerError::MissingModelInputBuffer {
                        signal_id: settings.output_signal_id.clone(),
                    },
                );
            },
            Some(frame) => frame,
        };
        if frame.byte_capacity != settings.output_frame_byte_capacity {
            return Err(
                VulkanResidentInputEmbeddingTransducerRunnerError::InvalidOutputFrameByteCapacity {
                    signal_id: settings.output_signal_id.clone(),
                    byte_capacity: frame.byte_capacity,
                    expected_byte_capacity: settings.output_frame_byte_capacity,
                },
            );
        }
        let groups: usize = arithmetic::ceiling_division(
            settings.output_frame_word_count,
            settings.local_size_x as usize,
        );
        if groups > u32::MAX as usize {
            return Err(VulkanResidentInputEmbeddingTransducerRunnerError::WorkgroupCountOverflow);
        }
        let bindings: Vec<VulkanResidentKernelBufferBinding> = device::three_bindings(
            VulkanResidentKernelBufferBinding::bind(
                0,
                &embedding_weight.buffer,
                embedding_weight.byte_capacity,
                VulkanResidentKernelBufferAccess::Read,
            ),
            VulkanResidentKernelBufferBinding::bind(
                1,
                &frame.buffer,
                frame.byte_capacity,
                VulkanResidentKernelBufferAccess::Write,
            ),
            VulkanResidentKernelBufferBinding::bind(
                2,
                &mounted.stream_control_buffer,
                VULKAN_STREAM_CONTROL_BYTE_CAPACITY,
                VulkanResidentKernelBufferAccess::Read,
            ),
        );
        let resident_dispatch: VulkanResidentKernelDispatch =
            VulkanResidentKernelDispatch::unlabelled(
            device.device_id.as_str(),
            spirv_words,
            bindings,
            groups as u32,
            1,
            settings.local_size_x,
            0,
        );
        Ok(
            VulkanResidentInputEmbeddingTransducerRunner {
                transducer_id: settings.transducer_id.clone(),
                parameter_tensor: settings.parameter_tensor.clone(),
                output_signal_id: settings.output_signal_id.clone(),
                descriptor_count: resident_dispatch.descriptor_count(),
                workgroup_count_x: resident_dispatch.workgroup_count_x,
                push_constant_byte_count: resident_dispatch.push_constant_byte_count,
                stream_control_buffer: mounted.stream_control_buffer.clone(),
                resident_dispatch,
            },
        )
    }

    /// The bytes of a token, as they are written to the start of the control buffer.
    pub fn token_bytes(&self, token_id: u32) -> (r: Vec<u8>)
        ensures
            r@ == arithmetic::low_first(token_id),
    {
        arithmetic::little_endian(token_id)
    }

    /// The run of a token, from what came of writing it to the control buffer and of launching the
    /// kernel.
    pub fn run_token_id(
        &self,
        token_id: u32,
        written: &Result<(), VulkanError>,
        launched: &Result<(), VulkanError>,
    ) -> (r: Result<
        VulkanResidentInputEmbeddingTransducerRun,
        VulkanResidentInputEmbeddingTransducerRunnerError,
    >)
        ensures
            sequence::outcome(r) == (match sequence::outcome(*written) {
                Err(error) => Err(
                    VulkanResidentInputEmbeddingTransducerRunnerErrorView::Vulkan(error),
                ),
                Ok(_) => match sequence::outcome(*launched) {
                    Err(error) => Err(
                        VulkanResidentInputEmbeddingTransducerRunnerErrorView::Vulkan(error),
                    ),
                    Ok(_) => Ok(embedded(self@, token_id)),
                },
            }),
    {
        match written {
            Err(error) => {
                return Err(
                    VulkanResidentInputEmbeddingTransducerRunnerError::from(error.clone()),
                );
            },
            Ok(_) => {},
        }
        match launched {
            Err(error) => Err(
                VulkanResidentInputEmbeddingTransducerRunnerError::from(error.clone()),
            ),
            Ok(_) => Ok(self.completed_run(token_id)),
        }
    }

    /// A token that went through the transducer.
    pub fn completed_run(&self, token_id: u32) -> (r: VulkanResidentInputEmbeddingTransducerRun)
        ensures
            r@ == embedded(self@, token_id),
    {
        VulkanResidentInputEmbeddingTransducerRun {
            transducer_id: self.transducer_id.clone(),
            token_id,
            output_signal_id: self.output_signal_id.clone(),
            dispatch_count: 1,
            descriptor_count: self.descriptor_count,
            workgroup_count_x: self.workgroup_count_x,
            push_constant_byte_count: self.push_constant_byte_count,
        }
    }
}

// ---------------------------------------------------------------------------
// Several tokens at once
// ---------------------------------------------------------------------------

/// The input transducer for a batch of tokens.
#[derive(Debug, PartialEq, Eq)]
pub struct VulkanResidentBatchedInputEmbeddingRunner {
    pub batch_capacity: usize,
    pub token_ids_buffer: VulkanResidentBuffer,
    pub dispatch: VulkanResidentKernelDispatch,
}

#[verifier::ext_equal]
pub struct VulkanResidentBatchedInputEmbeddingRunnerView {
    pub batch_capacity: usize,
    pub token_ids_buffer: VulkanResidentBufferView,
    pub dispatch: VulkanResidentKernelDispatchView,
}

impl DeepView for VulkanResidentBatchedInputEmbeddingRunner {
    type V = VulkanResidentBatchedInputEmbeddingRunnerView;

    open spec fn deep_view(&self) -> VulkanResidentBatchedInputEmbeddingRunnerView {
        VulkanResidentBatchedInputEmbeddingRunnerView {
            batch_capacity: self.batch_capacity,
            token_ids_buffer: self.token_ids_buffer.deep_view(),
            dispatch: self.dispatch.deep_view(),
        }
    }
}

impl View for VulkanResidentBatchedInputEmbeddingRunner {
    type V = VulkanResidentBatchedInputEmbeddingRunnerView;

    open spec fn view(&self) -> VulkanResidentBatchedInputEmbeddingRunnerView {
        self.deep_view()
    }
}

impl Clone for VulkanResidentBatchedInputEmbeddingRunner {
    fn clone(&self) -> (r: Self)
        ensures
            r@ == self@,
    {
        VulkanResidentBatchedInputEmbeddingRunner {
            batch_capacity: self.batch_capacity,
            token_ids_buffer: self.token_ids_buffer.clone(),
            dispatch: self.dispatch.clone(),
        }
    }
}

/// A refusal of the backend.
pub open spec fn refused(message: Seq<char>) -> VulkanResidentInProcessPlacedRuntimeErrorView {
    VulkanResidentInProcessPlacedRuntimeErrorView::BackendLoop(message)
}

pub(crate) fn refusal(message: &str) -> (r: VulkanResidentInProcessPlacedRuntimeError)
    ensures
        r@ == refused(message@),
{
    VulkanResidentInProcessPlacedRuntimeError::BackendLoop(VulkanError(message.to_owned()))
}

/// Whether a batch of tokens fits the embedding tensor and the frames, so that its workgroups are
/// counted.
pub open spec fn batched_embedding_fits(
    batch_capacity: usize,
    weight: VulkanPermanentParameterBufferAllocationView,
    frames: VulkanResidentBufferView,
    settings: VulkanResidentInputEmbeddingTransducerSpecView,
) -> bool {
    &&& batch_capacity > 0
    &&& embedding_weight_error(weight, settings) is None
    &&& settings.output_frame_byte_capacity * batch_capacity <= frames.byte_capacity
    &&& batch_capacity * 4 <= usize::MAX
}

/// The input transducer for a batch of tokens.
#[verifier::opaque]
pub open spec fn batched_embedding_runner(
    device_id: Seq<char>,
    batch_capacity: usize,
    weight: VulkanPermanentParameterBufferAllocationView,
    frames: VulkanResidentBufferView,
    words: Seq<u32>,
    settings: VulkanResidentInputEmbeddingTransducerSpecView,
) -> Result<
    VulkanResidentBatchedInputEmbeddingRunnerView,
    VulkanResidentInProcessPlacedRuntimeErrorView,
> {
    let frame_bytes = settings.output_frame_byte_capacity * batch_capacity;
    let token_bytes = batch_capacity * 4;
    let groups = arithmetic::ceiling(
        settings.output_frame_word_count as nat,
        settings.local_size_x as nat,
    );
    if batch_capacity == 0 {
        Err(VulkanResidentInProcessPlacedRuntimeErrorView::ZeroTickBudget)
    } else if embedding_weight_error(weight, settings) is Some {
        Err(
            VulkanResidentInProcessPlacedRuntimeErrorView::InputTransducer(
                embedding_weight_error(weight, settings)->Some_0,
            ),
        )
    } else if frame_bytes > usize::MAX {
        Err(refused("batched input embedding output capacity overflowed"@))
    } else if frames.byte_capacity < frame_bytes {
        Err(
            refused(
                "batched input embedding output has "@ + text::decimal(frames.byte_capacity as nat)
                    + " bytes, requires "@ + text::decimal(frame_bytes as nat),
            ),
        )
    } else if token_bytes > usize::MAX {
        Err(refused("batched input embedding token capacity overflowed"@))
    } else if groups > u32::MAX {
        Err(
            VulkanResidentInProcessPlacedRuntimeErrorView::InputTransducer(
                VulkanResidentInputEmbeddingTransducerRunnerErrorView::WorkgroupCountOverflow,
            ),
        )
    } else if batch_capacity > u32::MAX {
        Err(refused("batched input embedding width exceeds u32"@))
    } else {
        let token_ids_buffer = device::mapped_buffer(VulkanResidentBufferName::TokenIds, device_id, token_bytes as usize);
        Ok(
            VulkanResidentBatchedInputEmbeddingRunnerView {
                batch_capacity,
                token_ids_buffer,
                dispatch: device::kernel(
                    device_id,
                    words,
                    seq![
                        device::bound_buffer(
                            0,
                            weight.buffer,
                            weight.byte_capacity,
                            VulkanResidentKernelBufferAccess::Read,
                        ),
                        device::bound_buffer(
                            1,
                            frames,
                            frame_bytes as usize,
                            VulkanResidentKernelBufferAccess::Write,
                        ),
                        device::bound_buffer(
                            2,
                            token_ids_buffer,
                            token_bytes as usize,
                            VulkanResidentKernelBufferAccess::Read,
                        ),
                    ],
                    groups as u32,
                    batch_capacity as u32,
                    settings.local_size_x,
                    4,
                ),
            },
        )
    }
}

/// The bytes of words, one word after the other.
pub open spec fn words_low_first(words: Seq<u32>) -> Seq<u8>
    decreases words.len(),
{
    if words.len() == 0 {
        Seq::empty()
    } else {
        words_low_first(words.drop_last()) + arithmetic::low_first(words.last())
    }
}

/// The error where a batch does not fit.
pub open spec fn batch_error(batch_capacity: usize, width: nat) -> Option<
    VulkanResidentInProcessPlacedRuntimeErrorView,
> {
    if width == 0 || width > batch_capacity {
        Some(
            refused(
                "batched input embedding capacity "@ + text::decimal(batch_capacity as nat)
                    + " cannot process "@ + text::decimal(width) + " tokens"@,
            ),
        )
    } else {
        None
    }
}

/// What a batch of tokens hands to the device: the bytes to write, and the launch.
#[derive(Debug, PartialEq, Eq)]
pub struct VulkanResidentBatchedInputEmbeddingLaunch {
    pub token_bytes: Vec<u8>,
    pub step: VulkanResidentKernelSequenceStep,
}

#[verifier::ext_equal]
pub struct VulkanResidentBatchedInputEmbeddingLaunchView {
    pub token_bytes: Seq<u8>,
    pub step: VulkanResidentKernelSequenceStepView,
}

impl DeepView for VulkanResidentBatchedInputEmbeddingLaunch {
    type V = VulkanResidentBatchedInputEmbeddingLaunchView;

    open spec fn deep_view(&self) -> VulkanResidentBatchedInputEmbeddingLaunchView {
        VulkanResidentBatchedInputEmbeddingLaunchView {
            token_bytes: self.token_bytes.deep_view(),
            step: self.step.deep_view(),
        }
    }
}

impl View for VulkanResidentBatchedInputEmbeddingLaunch {
    type V = VulkanResidentBatchedInputEmbeddingLaunchView;

    open spec fn view(&self) -> VulkanResidentBatchedInputEmbeddingLaunchView {
        self.deep_view()
    }
}

impl Clone for VulkanResidentBatchedInputEmbeddingLaunch {
    fn clone(&self) -> (r: Self)
        ensures
            r@ == self@,
    {
        VulkanResidentBatchedInputEmbeddingLaunch {
            token_bytes: self.token_bytes.clone(),
            step: self.step.clone(),
        }
    }
}

/// What a batch of tokens hands to the device.
pub open spec fn embedding_launch(
    runner: VulkanResidentBatchedInputEmbeddingRunnerView,
    token_ids: Seq<u32>,
) -> Result<
    VulkanResidentBatchedInputEmbeddingLaunchView,
    VulkanResidentInProcessPlacedRuntimeErrorView,
> {
    match batch_error(runner.batch_capacity, token_ids.len()) {
        Some(error) => Err(error),
        None => if token_ids.len() > u32::MAX {
            Err(refused("batched input embedding width exceeds u32"@))
        } else {
            Ok(
                VulkanResidentBatchedInputEmbeddingLaunchView {
                    token_bytes: words_low_first(token_ids),
                    step: device::word_step(runner.dispatch, token_ids.len() as u32),
                },
            )
        },
    }
}

impl VulkanResidentBatchedInputEmbeddingRunner {
    /// Whether a batch of tokens fits the embedding tensor and the frames, so that its workgroups are
    /// counted.
    pub fn fits(
        batch_capacity: usize,
        embedding_weight: &VulkanPermanentParameterBufferAllocation,
        output_frames: &VulkanResidentBuffer,
        settings: &VulkanResidentInputEmbeddingTransducerSpec,
    ) -> (r: bool)
        ensures
            r == batched_embedding_fits(
                batch_capacity,
                embedding_weight@,
                output_frames@,
                settings@,
            ),
    {
        if batch_capacity == 0 || batch_capacity.checked_mul(4).is_none()
            || validate_input_embedding_weight(embedding_weight, settings).is_err() {
            return false;
        }
        match settings.output_frame_byte_capacity.checked_mul(batch_capacity) {
            None => false,
            Some(bytes) => bytes <= output_frames.byte_capacity,
        }
    }

    /// The input transducer for a batch of tokens.
    pub fn new(
        device: &VulkanComputeDevice,
        batch_capacity: usize,
        embedding_weight: &VulkanPermanentParameterBufferAllocation,
        output_frames: &VulkanResidentBuffer,
        spirv_words: &Vec<u32>,
        settings: &VulkanResidentInputEmbeddingTransducerSpec,
    ) -> (r: Result<Self, VulkanResidentInProcessPlacedRuntimeError>)
        requires
            batched_embedding_fits(batch_capacity, embedding_weight@, output_frames@, settings@)
                ==> settings@.local_size_x > 0,
        ensures
            sequence::outcome(r) == batched_embedding_runner(
                device@.device_id,
                batch_capacity,
                embedding_weight@,
                output_frames@,
                spirv_words@,
                settings@,
            ),
    {
        reveal(batched_embedding_runner);
        if batch_capacity == 0 {
            return Err(VulkanResidentInProcessPlacedRuntimeError::ZeroTickBudget);
        }
        match validate_input_embedding_weight(embedding_weight, settings) {
            Err(error) => {
                return Err(VulkanResidentInProcessPlacedRuntimeError::InputTransducer(error));
            },
            Ok(()) => {},
        }
        let frame_bytes: usize = match settings.output_frame_byte_capacity.checked_mul(
            batch_capacity,
        ) {
            None => {
                return Err(refusal("batched input embedding output capacity overflowed"));
            },
            Some(bytes) => bytes,
        };
        if output_frames.byte_capacity < frame_bytes {
            return Err(
                VulkanResidentInProcessPlacedRuntimeError::BackendLoop(
                    VulkanError(
                        Message::new("batched input embedding output has ").number(
                            output_frames.byte_capacity,
                        ).text(" bytes, requires ").number(frame_bytes).done(),
                    ),
                ),
            );
        }
        let token_bytes: usize = match batch_capacity.checked_mul(4) {
            None => {
                return Err(refusal("batched input embedding token capacity overflowed"));
            },
            Some(bytes) => bytes,
        };
        let groups: usize = arithmetic::ceiling_division(
            settings.output_frame_word_count,
            settings.local_size_x as usize,
        );
        if groups > u32::MAX as usize {
            return Err(
                VulkanResidentInProcessPlacedRuntimeError::InputTransducer(
                    VulkanResidentInputEmbeddingTransducerRunnerError::WorkgroupCountOverflow,
                ),
            );
        }
        if batch_capacity > u32::MAX as usize {
            return Err(refusal("batched input embedding width exceeds u32"));
        }
        let token_ids_buffer: VulkanResidentBuffer = VulkanResidentBuffer::persistently_mapped(
            VulkanResidentBufferName::TokenIds,
            device.device_id.as_str(),
            token_bytes,
        );
        let bindings: Vec<VulkanResidentKernelBufferBinding> = device::three_bindings(
            VulkanResidentKernelBufferBinding::bind(
                0,
                &embedding_weight.buffer,
                embedding_weight.byte_capacity,
                VulkanResidentKernelBufferAccess::Read,
            ),
            VulkanResidentKernelBufferBinding::bind(
                1,
                output_frames,
                frame_bytes,
                VulkanResidentKernelBufferAccess::Write,
            ),
            VulkanResidentKernelBufferBinding::bind(
                2,
                &token_ids_buffer,
                token_bytes,
                VulkanResidentKernelBufferAccess::Read,
            ),
        );
        let dispatch: VulkanResidentKernelDispatch = VulkanResidentKernelDispatch::unlabelled(
            device.device_id.as_str(),
            spirv_words,
            bindings,
            groups as u32,
            batch_capacity as u32,
            settings.local_size_x,
            4,
        );
        Ok(VulkanResidentBatchedInputEmbeddingRunner { batch_capacity, token_ids_buffer, dispatch })
    }

    /// What a batch of tokens hands to the device.
    #[verifier::loop_isolation(false)]
    pub fn launch(&self, token_ids: &Vec<u32>) -> (r: Result<
        VulkanResidentBatchedInputEmbeddingLaunch,
        VulkanResidentInProcessPlacedRuntimeError,
    >)
        ensures
            sequence::outcome(r) == embedding_launch(self@, token_ids@),
    {
        if token_ids.len() == 0 || token_ids.len() > self.batch_capacity {
            return Err(
                VulkanResidentInProcessPlacedRuntimeError::BackendLoop(
                    VulkanError(
                        Message::new("batched input embedding capacity ").number(
                            self.batch_capacity,
                        ).text(" cannot process ").number(token_ids.len()).text(" tokens").done(),
                    ),
                ),
            );
        }
        if token_ids.len() > u32::MAX as usize {
            return Err(refusal("batched input embedding width exceeds u32"));
        }
        let mut token_bytes: Vec<u8> = Vec::new();
        let mut i: usize = 0;
        assert(token_ids@.take(0) =~= Seq::empty());
        while i < token_ids.len()
            invariant
                i <= token_ids.len(),
                token_bytes@ == words_low_first(token_ids@.take(i as int)),
            decreases token_ids.len() - i,
        {
            assert(token_ids@.take(i + 1).drop_last() =~= token_ids@.take(i as int));
            let mut bytes: Vec<u8> = arithmetic::little_endian(token_ids[i]);
            token_bytes.append(&mut bytes);
            i += 1;
        }
        assert(token_ids@.take(token_ids@.len() as int) =~= token_ids@);
        assert(token_bytes.deep_view() =~= token_bytes@);
        Ok(
            VulkanResidentBatchedInputEmbeddingLaunch {
                token_bytes,
                step: VulkanResidentKernelSequenceStep::with_word(
                    &self.dispatch,
                    token_ids.len() as u32,
                ),
            },
        )
    }

    /// The run of a batch of tokens, from what came of writing them and of launching the kernel.
    pub fn run(
        &self,
        token_ids: &Vec<u32>,
        written: &Result<(), VulkanError>,
        launched: &Result<(), VulkanError>,
    ) -> (r: Result<(), VulkanResidentInProcessPlacedRuntimeError>)
        ensures
            sequence::outcome(r) == (match embedding_launch(self@, token_ids@) {
                Err(error) => Err(error),
                Ok(_) => match sequence::outcome(*written) {
                    Err(error) => Err(refused(error)),
                    Ok(_) => match sequence::outcome(*launched) {
                        Err(error) => Err(refused(error)),
                        Ok(_) => Ok(()),
                    },
                },
            }),
    {
        match self.launch(token_ids) {
            Err(error) => {
                return Err(error);
            },
            Ok(_) => {},
        }
        match written {
            Err(error) => {
                return Err(
                    VulkanResidentInProcessPlacedRuntimeError::BackendLoop(error.clone()),
                );
            },
            Ok(_) => {},
        }
        match launched {
            Err(error) => Err(
                VulkanResidentInProcessPlacedRuntimeError::BackendLoop(error.clone()),
            ),
            Ok(_) => Ok(()),
        }
    }
}

/// A batch of tokens is written as four bytes per token.
pub proof fn token_bytes_hold_every_token(words: Seq<u32>, i: int)
    requires
        0 <= i < words.len(),
    ensures
        words_low_first(words).len() == 4 * words.len(),
        words_low_first(words).subrange(4 * i, 4 * i + 4) == arithmetic::low_first(words[i]),
    decreases words.len(),
{
    let front = words_low_first(words.drop_last());
    if words.len() > 1 {
        token_bytes_hold_every_token(
            words.drop_last(),
            if i < words.len() - 1 {
                i
            } else {
                0
            },
        );
    }
    if i < words.len() - 1 {
        assert(words_low_first(words).subrange(4 * i, 4 * i + 4) =~= front.subrange(
            4 * i,
            4 * i + 4,
        ));
    } else {
        assert(words_low_first(words).subrange(4 * i, 4 * i + 4) =~= arithmetic::low_first(
            words[i],
        ));
    }
}

/// An input transducer reads the embedding and the stream's control and writes only the model's
/// input. It launches as many workgroups as cover a frame, and no more.
pub proof fn embeddings_write_only_the_model_input(
    device_id: Seq<char>,
    mounted: VulkanMountedPlacedStreamCircuitView,
    weight: VulkanPermanentParameterBufferAllocationView,
    words: Seq<u32>,
    settings: VulkanResidentInputEmbeddingTransducerSpecView,
)
    requires
        embedding_runner(device_id, mounted, weight, words, settings) is Ok,
        settings.local_size_x > 0,
    ensures
        ({
            let runner = embedding_runner(device_id, mounted, weight, words, settings)->Ok_0;
            let launch = runner.resident_dispatch;
            let read = VulkanResidentKernelBufferAccess::Read;
            &&& weight.parameter.dtype == Some(settings.parameter_dtype)
            &&& weight.parameter.shape == Some(settings.parameter_shape)
            &&& weight.byte_capacity == settings.parameter_byte_capacity
            &&& runner.transducer_id == settings.transducer_id
            &&& runner.parameter_tensor == settings.parameter_tensor
            &&& runner.output_signal_id == settings.output_signal_id
            &&& runner.stream_control_buffer == mounted.stream_control_buffer
            &&& runner.descriptor_count == launch.bindings.len()
            &&& runner.workgroup_count_x == launch.workgroup_count_x
            &&& runner.push_constant_byte_count == launch.push_constant_byte_count
            &&& launch.device_id == device_id
            &&& launch.spirv_words == words
            &&& launch.local_size_x == settings.local_size_x
            &&& launch.workgroup_count_y == 1
            &&& launch.base_workgroup_z == 0
            &&& launch.push_constant_byte_count == 0
            &&& launch.workgroup_count_x * settings.local_size_x >= settings.output_frame_word_count
            &&& settings.output_frame_word_count > 0 ==> (launch.workgroup_count_x - 1)
                * settings.local_size_x < settings.output_frame_word_count
            &&& launch.bindings.len() == 3
            &&& device::writes_only(launch.bindings, 1)
            &&& device::hands(
                launch.bindings[0],
                0,
                weight.buffer,
                0,
                weight.byte_capacity as int,
                read,
            )
            &&& exists|i: int|
                0 <= i < mounted.boundary_io.inputs.len() && {
                    let signal = #[trigger] mounted.boundary_io.inputs[i];
                    &&& signal.signal_id == settings.output_signal_id
                    &&& signal.byte_capacity == settings.output_frame_byte_capacity
                    &&& device::hands(
                        launch.bindings[1],
                        1,
                        signal.buffer,
                        0,
                        signal.byte_capacity as int,
                        VulkanResidentKernelBufferAccess::Write,
                    )
                }
            &&& device::hands(
                launch.bindings[2],
                2,
                mounted.stream_control_buffer,
                0,
                VULKAN_STREAM_CONTROL_BYTE_CAPACITY as int,
                read,
            )
        }),
{
    reveal(embedding_runner);
    arithmetic::rounding_up_is_tight(
        settings.output_frame_word_count as nat,
        settings.local_size_x as nat,
    );
    let i = sequence::lemma_find_first_some(
        mounted.boundary_io.inputs,
        resident_plan::boundary_matcher(settings.output_signal_id),
    );
    assert(mounted.boundary_io.inputs[i].signal_id == settings.output_signal_id);
}

/// A batched input transducer reads the embedding and the tokens of the batch and writes only the
/// frames, with room for every lane: four bytes for a token, and one frame. It launches one row of
/// workgroups for each lane.
pub proof fn batched_embeddings_write_only_the_frames(
    device_id: Seq<char>,
    batch_capacity: usize,
    weight: VulkanPermanentParameterBufferAllocationView,
    frames: VulkanResidentBufferView,
    words: Seq<u32>,
    settings: VulkanResidentInputEmbeddingTransducerSpecView,
)
    requires
        batched_embedding_runner(
            device_id,
            batch_capacity,
            weight,
            frames,
            words,
            settings,
        ) is Ok,
        settings.local_size_x > 0,
    ensures
        ({
            let runner = batched_embedding_runner(
                device_id,
                batch_capacity,
                weight,
                frames,
                words,
                settings,
            )->Ok_0;
            let launch = runner.dispatch;
            let tokens = runner.token_ids_buffer;
            let read = VulkanResidentKernelBufferAccess::Read;
            let frame_bytes = settings.output_frame_byte_capacity * batch_capacity;
            &&& batch_capacity > 0
            &&& runner.batch_capacity == batch_capacity
            &&& weight.parameter.dtype == Some(settings.parameter_dtype)
            &&& weight.parameter.shape == Some(settings.parameter_shape)
            &&& weight.byte_capacity == settings.parameter_byte_capacity
            &&& tokens.device_id == device_id
            &&& tokens.byte_capacity == 4 * batch_capacity
            &&& tokens.persistently_mapped
            &&& frames.byte_capacity >= frame_bytes
            &&& launch.device_id == device_id
            &&& launch.spirv_words == words
            &&& launch.local_size_x == settings.local_size_x
            &&& launch.workgroup_count_y == batch_capacity
            &&& launch.base_workgroup_z == 0
            &&& launch.push_constant_byte_count == 4
            &&& launch.workgroup_count_x * settings.local_size_x >= settings.output_frame_word_count
            &&& settings.output_frame_word_count > 0 ==> (launch.workgroup_count_x - 1)
                * settings.local_size_x < settings.output_frame_word_count
            &&& launch.bindings.len() == 3
            &&& device::writes_only(launch.bindings, 1)
            &&& device::hands(
                launch.bindings[0],
                0,
                weight.buffer,
                0,
                weight.byte_capacity as int,
                read,
            )
            &&& device::hands(
                launch.bindings[1],
                1,
                frames,
                0,
                frame_bytes,
                VulkanResidentKernelBufferAccess::Write,
            )
            &&& device::hands(
                launch.bindings[2],
                2,
                tokens,
                0,
                tokens.byte_capacity as int,
                read,
            )
        }),
{
    reveal(batched_embedding_runner);
    arithmetic::rounding_up_is_tight(
        settings.output_frame_word_count as nat,
        settings.local_size_x as nat,
    );
    assert(0 <= settings.output_frame_byte_capacity * batch_capacity) by (nonlinear_arith);
}

/// A batch of tokens is embedded where it has a token and no more than there is room for. Its launch
/// takes the number of tokens, and each token's word stands at its own place, lowest byte first.
pub proof fn embedding_launches_take_every_token(
    runner: VulkanResidentBatchedInputEmbeddingRunnerView,
    token_ids: Seq<u32>,
    i: int,
)
    ensures
        embedding_launch(runner, token_ids) is Ok <==> 0 < token_ids.len() <= runner.batch_capacity
            && token_ids.len() <= u32::MAX,
        embedding_launch(runner, token_ids) matches Ok(launch) ==> {
            let width = launch.step.push_constants;
            let bytes = launch.token_bytes;
            &&& launch.step.dispatch == runner.dispatch
            &&& width.len() == 4
            &&& width[0] + 256 * width[1] + 65536 * width[2] + 16777216 * width[3]
                == token_ids.len()
            &&& bytes.len() == 4 * token_ids.len()
            &&& 0 <= i < token_ids.len() ==> bytes[4 * i] + 256 * bytes[4 * i + 1] + 65536 * bytes[4
                * i + 2] + 16777216 * bytes[4 * i + 3] == token_ids[i]
        },
{
    if embedding_launch(runner, token_ids) is Ok {
        arithmetic::low_bytes_come_first(token_ids.len() as u32);
        token_bytes_hold_every_token(token_ids, 0);
        if 0 <= i < token_ids.len() {
            token_bytes_hold_every_token(token_ids, i);
            arithmetic::low_bytes_come_first(token_ids[i]);
            let bytes = words_low_first(token_ids);
            let word = bytes.subrange(4 * i, 4 * i + 4);
            assert(word[0] == bytes[4 * i]);
            assert(word[1] == bytes[4 * i + 1]);
            assert(word[2] == bytes[4 * i + 2]);
            assert(word[3] == bytes[4 * i + 3]);
        }
    }
}

/// A run reports the token that it embedded and the launch that it made.
pub proof fn runs_report_their_token(
    runner: VulkanResidentInputEmbeddingTransducerRunnerView,
    token_id: u32,
)
    ensures
        ({
            let run = embedded(runner, token_id);
            &&& run.token_id == token_id
            &&& run.transducer_id == runner.transducer_id
            &&& run.output_signal_id == runner.output_signal_id
            &&& run.dispatch_count == 1
            &&& run.descriptor_count == runner.descriptor_count
            &&& run.workgroup_count_x == runner.workgroup_count_x
            &&& run.push_constant_byte_count == runner.push_constant_byte_count
        }),
{
}

} // verus!
