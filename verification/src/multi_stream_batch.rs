//! Batches of independent streams: one tick of many streams of one model at once.

use crate::batched_projection::BatchedOutputKernels;
use crate::batched_projection::BatchedOutputParts;
use crate::batched_projection::VulkanResidentBatchedOutputProjectionRunner;
use crate::batched_projection::VulkanResidentBatchedOutputProjectionRunnerView;
use crate::batched_projection::VulkanResidentSamplerLogitsRequest;
use crate::batched_projection::VulkanResidentSamplerLogitsRequestView;
use crate::batched_projection;
use crate::component_batch::runner as batch_runner;
use crate::component_batch::signals::VulkanComponentBatchSignalKey;
use crate::component_batch::signals::VulkanComponentBatchSignalKeyView;
use crate::component_batch::slice::VulkanComponentBatchSignalBuffer;
use crate::component_batch::slice::VulkanComponentBatchSignalBufferView;
use crate::component_batch::slice::VulkanResidentComponentBatchSliceRunner;
use crate::component_batch::slice::VulkanResidentComponentBatchSliceRunnerView;
use crate::device::VulkanComputeDevice;
use crate::device::VulkanDeviceDirectory;
use crate::device::VulkanDeviceDirectoryView;
use crate::device::VulkanError;
use crate::device::VulkanResidentBuffer;
use crate::device::VulkanResidentKernelDispatch;
use crate::device::VulkanResidentKernelDispatchView;
use crate::feedback_loop::VulkanResidentSamplerRun;
use crate::feedback_loop::VulkanResidentSamplerRunView;
use crate::input_transducer::VulkanResidentBatchedInputEmbeddingRunner;
use crate::input_transducer::VulkanResidentBatchedInputEmbeddingRunnerView;
use crate::input_transducer::VulkanResidentInputEmbeddingTransducerRunnerError;
use crate::input_transducer::VulkanResidentInputEmbeddingTransducerRunnerErrorView;
use crate::input_transducer::VulkanResidentInputEmbeddingTransducerSpec;
use crate::input_transducer::VulkanResidentInputEmbeddingTransducerSpecView;
use crate::input_transducer;
use crate::output_transducer::VulkanResidentOutputTransducerRunnerError;
use crate::output_transducer::VulkanResidentOutputTransducerRunnerErrorView;
use crate::output_transducer::VulkanResidentOutputTransducerSpec;
use crate::output_transducer::VulkanResidentOutputTransducerSpecView;
use crate::resident_plan::VulkanPermanentParameterBufferAllocation;
use crate::resident_plan::VulkanPermanentParameterBufferAllocationView;
use crate::resident_plan::VulkanPermanentParameterBuffers;
use crate::resident_plan::VulkanPermanentParameterBuffersView;
use crate::resident_plan;
use crate::runtime_error::VulkanResidentInProcessPlacedRuntimeError;
use crate::runtime_error::VulkanResidentInProcessPlacedRuntimeErrorView;
use crate::runtime_error::VulkanResidentSamplerRunnerError;
use crate::sequence;
use crate::text::Message;
use crate::text;
use vstd::prelude::*;

verus! {

/// A mounted model: its transducers and the shaders that run them in batches.
#[derive(Debug, PartialEq, Eq)]
pub struct VulkanResidentPlacedModel {
    /// Which mount of a package this is: streams share a model where they have the same number, and
    /// two mounts of one package have different ones.
    pub mount_id: usize,
    pub dynamic_state_capacity_activations: usize,
    pub input_device_id: String,
    pub output_device_id: String,
    pub input_transducer_parameter_buffers: VulkanPermanentParameterBuffers,
    pub input_transducer_spec: VulkanResidentInputEmbeddingTransducerSpec,
    pub input_transducer_batch_spirv_words: Vec<u32>,
    pub output_transducer_parameter_buffers: VulkanPermanentParameterBuffers,
    pub output_transducer_spec: VulkanResidentOutputTransducerSpec,
    pub embedding_norm_batch_lane_tile_width: u32,
    pub projection_batch_lane_tile_width: u32,
    pub embedding_norm_batch_spirv_words: Vec<u32>,
    pub tied_projection_batch_spirv_words: Vec<u32>,
}

#[verifier::ext_equal]
pub struct VulkanResidentPlacedModelView {
    pub mount_id: usize,
    pub dynamic_state_capacity_activations: usize,
    pub input_device_id: Seq<char>,
    pub output_device_id: Seq<char>,
    pub input_transducer_parameter_buffers: VulkanPermanentParameterBuffersView,
    pub input_transducer_spec: VulkanResidentInputEmbeddingTransducerSpecView,
    pub input_transducer_batch_spirv_words: Seq<u32>,
    pub output_transducer_parameter_buffers: VulkanPermanentParameterBuffersView,
    pub output_transducer_spec: VulkanResidentOutputTransducerSpecView,
    pub embedding_norm_batch_lane_tile_width: u32,
    pub projection_batch_lane_tile_width: u32,
    pub embedding_norm_batch_spirv_words: Seq<u32>,
    pub tied_projection_batch_spirv_words: Seq<u32>,
}

impl DeepView for VulkanResidentPlacedModel {
    type V = VulkanResidentPlacedModelView;

    open spec fn deep_view(&self) -> VulkanResidentPlacedModelView {
        VulkanResidentPlacedModelView {
            mount_id: self.mount_id,
            dynamic_state_capacity_activations: self.dynamic_state_capacity_activations,
            input_device_id: self.input_device_id.deep_view(),
            output_device_id: self.output_device_id.deep_view(),
            input_transducer_parameter_buffers: self.input_transducer_parameter_buffers.deep_view(),
            input_transducer_spec: self.input_transducer_spec.deep_view(),
            input_transducer_batch_spirv_words: self.input_transducer_batch_spirv_words.deep_view(),
            output_transducer_parameter_buffers: self.output_transducer_parameter_buffers.deep_view(),
            output_transducer_spec: self.output_transducer_spec.deep_view(),
            embedding_norm_batch_lane_tile_width: self.embedding_norm_batch_lane_tile_width,
            projection_batch_lane_tile_width: self.projection_batch_lane_tile_width,
            embedding_norm_batch_spirv_words: self.embedding_norm_batch_spirv_words.deep_view(),
            tied_projection_batch_spirv_words: self.tied_projection_batch_spirv_words.deep_view(),
        }
    }
}

impl View for VulkanResidentPlacedModel {
    type V = VulkanResidentPlacedModelView;

    open spec fn view(&self) -> VulkanResidentPlacedModelView {
        self.deep_view()
    }
}

impl Clone for VulkanResidentPlacedModel {
    fn clone(&self) -> (r: Self)
        ensures
            r@ == self@,
    {
        VulkanResidentPlacedModel {
            mount_id: self.mount_id,
            dynamic_state_capacity_activations: self.dynamic_state_capacity_activations,
            input_device_id: self.input_device_id.clone(),
            output_device_id: self.output_device_id.clone(),
            input_transducer_parameter_buffers: self.input_transducer_parameter_buffers.clone(),
            input_transducer_spec: self.input_transducer_spec.clone(),
            input_transducer_batch_spirv_words: self.input_transducer_batch_spirv_words.clone(),
            output_transducer_parameter_buffers: self.output_transducer_parameter_buffers.clone(),
            output_transducer_spec: self.output_transducer_spec.clone(),
            embedding_norm_batch_lane_tile_width: self.embedding_norm_batch_lane_tile_width,
            projection_batch_lane_tile_width: self.projection_batch_lane_tile_width,
            embedding_norm_batch_spirv_words: self.embedding_norm_batch_spirv_words.clone(),
            tied_projection_batch_spirv_words: self.tied_projection_batch_spirv_words.clone(),
        }
    }
}

/// A device's share of a stream: how many launches it has, and the edges that leave it.
#[derive(Debug, PartialEq, Eq)]
pub struct VulkanResidentPlacedDeviceSlice {
    pub device_id: String,
    pub dispatch_count: usize,
    pub outgoing_edge_indices: Vec<usize>,
}

#[verifier::ext_equal]
pub struct VulkanResidentPlacedDeviceSliceView {
    pub device_id: Seq<char>,
    pub dispatch_count: usize,
    pub outgoing_edge_indices: Seq<usize>,
}

impl DeepView for VulkanResidentPlacedDeviceSlice {
    type V = VulkanResidentPlacedDeviceSliceView;

    open spec fn deep_view(&self) -> VulkanResidentPlacedDeviceSliceView {
        VulkanResidentPlacedDeviceSliceView {
            device_id: self.device_id.deep_view(),
            dispatch_count: self.dispatch_count,
            outgoing_edge_indices: self.outgoing_edge_indices.deep_view(),
        }
    }
}

impl View for VulkanResidentPlacedDeviceSlice {
    type V = VulkanResidentPlacedDeviceSliceView;

    open spec fn view(&self) -> VulkanResidentPlacedDeviceSliceView {
        self.deep_view()
    }
}

impl Clone for VulkanResidentPlacedDeviceSlice {
    fn clone(&self) -> (r: Self)
        ensures
            r@ == self@,
    {
        VulkanResidentPlacedDeviceSlice {
            device_id: self.device_id.clone(),
            dispatch_count: self.dispatch_count,
            outgoing_edge_indices: self.outgoing_edge_indices.clone(),
        }
    }
}

/// A stream of a model.
#[derive(Debug, PartialEq, Eq)]
pub struct VulkanResidentInProcessPlacedStreamProcessor {
    pub model: VulkanResidentPlacedModel,
    pub speculative_decoder_count: usize,
    pub activation_turn_count: usize,
    pub device_slices: Vec<VulkanResidentPlacedDeviceSlice>,
}

#[verifier::ext_equal]
pub struct VulkanResidentInProcessPlacedStreamProcessorView {
    pub model: VulkanResidentPlacedModelView,
    pub speculative_decoder_count: usize,
    pub activation_turn_count: usize,
    pub device_slices: Seq<VulkanResidentPlacedDeviceSliceView>,
}

impl DeepView for VulkanResidentInProcessPlacedStreamProcessor {
    type V = VulkanResidentInProcessPlacedStreamProcessorView;

    open spec fn deep_view(&self) -> VulkanResidentInProcessPlacedStreamProcessorView {
        VulkanResidentInProcessPlacedStreamProcessorView {
            model: self.model.deep_view(),
            speculative_decoder_count: self.speculative_decoder_count,
            activation_turn_count: self.activation_turn_count,
            device_slices: self.device_slices.deep_view(),
        }
    }
}

impl View for VulkanResidentInProcessPlacedStreamProcessor {
    type V = VulkanResidentInProcessPlacedStreamProcessorView;

    open spec fn view(&self) -> VulkanResidentInProcessPlacedStreamProcessorView {
        self.deep_view()
    }
}

impl Clone for VulkanResidentInProcessPlacedStreamProcessor {
    fn clone(&self) -> (r: Self)
        ensures
            r@ == self@,
    {
        VulkanResidentInProcessPlacedStreamProcessor {
            model: self.model.clone(),
            speculative_decoder_count: self.speculative_decoder_count,
            activation_turn_count: self.activation_turn_count,
            device_slices: self.device_slices.clone(),
        }
    }
}

/// The launches of all devices of a model for a batch of lanes.
#[derive(Debug, PartialEq, Eq)]
pub struct VulkanResidentPlacedComponentBatchRunner {
    pub slices: Vec<VulkanResidentComponentBatchSliceRunner>,
}

#[verifier::ext_equal]
pub struct VulkanResidentPlacedComponentBatchRunnerView {
    pub slices: Seq<VulkanResidentComponentBatchSliceRunnerView>,
}

impl DeepView for VulkanResidentPlacedComponentBatchRunner {
    type V = VulkanResidentPlacedComponentBatchRunnerView;

    open spec fn deep_view(&self) -> VulkanResidentPlacedComponentBatchRunnerView {
        VulkanResidentPlacedComponentBatchRunnerView {
            slices: self.slices.deep_view(),
        }
    }
}

impl View for VulkanResidentPlacedComponentBatchRunner {
    type V = VulkanResidentPlacedComponentBatchRunnerView;

    open spec fn view(&self) -> VulkanResidentPlacedComponentBatchRunnerView {
        self.deep_view()
    }
}

/// One tick of many streams of one model at once.
#[derive(Debug, PartialEq, Eq)]
pub struct VulkanResidentPlacedMultiStreamBatchRunner {
    pub execution_graph: VulkanResidentPlacedComponentBatchRunner,
    pub input_embedding: VulkanResidentBatchedInputEmbeddingRunner,
    pub output_projection: VulkanResidentBatchedOutputProjectionRunner,
    pub pipeline: Vec<usize>,
    pub dynamic_state_capacity_activations: u32,
    pub scheduler_turn_count_per_tick: usize,
    pub completed_stage_count_per_tick: usize,
}

#[verifier::ext_equal]
pub struct VulkanResidentPlacedMultiStreamBatchRunnerView {
    pub execution_graph: VulkanResidentPlacedComponentBatchRunnerView,
    pub input_embedding: VulkanResidentBatchedInputEmbeddingRunnerView,
    pub output_projection: VulkanResidentBatchedOutputProjectionRunnerView,
    pub pipeline: Seq<usize>,
    pub dynamic_state_capacity_activations: u32,
    pub scheduler_turn_count_per_tick: usize,
    pub completed_stage_count_per_tick: usize,
}

impl DeepView for VulkanResidentPlacedMultiStreamBatchRunner {
    type V = VulkanResidentPlacedMultiStreamBatchRunnerView;

    open spec fn deep_view(&self) -> VulkanResidentPlacedMultiStreamBatchRunnerView {
        VulkanResidentPlacedMultiStreamBatchRunnerView {
            execution_graph: self.execution_graph.deep_view(),
            input_embedding: self.input_embedding.deep_view(),
            output_projection: self.output_projection.deep_view(),
            pipeline: self.pipeline.deep_view(),
            dynamic_state_capacity_activations: self.dynamic_state_capacity_activations,
            scheduler_turn_count_per_tick: self.scheduler_turn_count_per_tick,
            completed_stage_count_per_tick: self.completed_stage_count_per_tick,
        }
    }
}

impl View for VulkanResidentPlacedMultiStreamBatchRunner {
    type V = VulkanResidentPlacedMultiStreamBatchRunnerView;

    open spec fn view(&self) -> VulkanResidentPlacedMultiStreamBatchRunnerView {
        self.deep_view()
    }
}

/// A tick of many streams that has run.
#[derive(Debug, PartialEq, Eq)]
pub struct VulkanResidentPlacedMultiStreamBatchRun {
    pub sampled_token_ids: Vec<u32>,
    pub scheduler_turn_count_per_tick: usize,
    pub completed_stage_count_per_tick: usize,
}

#[verifier::ext_equal]
pub struct VulkanResidentPlacedMultiStreamBatchRunView {
    pub sampled_token_ids: Seq<u32>,
    pub scheduler_turn_count_per_tick: usize,
    pub completed_stage_count_per_tick: usize,
}

impl DeepView for VulkanResidentPlacedMultiStreamBatchRun {
    type V = VulkanResidentPlacedMultiStreamBatchRunView;

    open spec fn deep_view(&self) -> VulkanResidentPlacedMultiStreamBatchRunView {
        VulkanResidentPlacedMultiStreamBatchRunView {
            sampled_token_ids: self.sampled_token_ids.deep_view(),
            scheduler_turn_count_per_tick: self.scheduler_turn_count_per_tick,
            completed_stage_count_per_tick: self.completed_stage_count_per_tick,
        }
    }
}

impl View for VulkanResidentPlacedMultiStreamBatchRun {
    type V = VulkanResidentPlacedMultiStreamBatchRunView;

    open spec fn view(&self) -> VulkanResidentPlacedMultiStreamBatchRunView {
        self.deep_view()
    }
}

impl Clone for VulkanResidentPlacedMultiStreamBatchRun {
    fn clone(&self) -> (r: Self)
        ensures
            r@ == self@,
    {
        VulkanResidentPlacedMultiStreamBatchRun {
            sampled_token_ids: self.sampled_token_ids.clone(),
            scheduler_turn_count_per_tick: self.scheduler_turn_count_per_tick,
            completed_stage_count_per_tick: self.completed_stage_count_per_tick,
        }
    }
}

/// What a tick of many streams does next.
#[derive(Debug, PartialEq, Eq)]
pub enum VulkanMultiStreamTickAction {
    /// Embed the tokens of the lanes.
    EmbedTokens { device_id: String, input_token_ids: Vec<u32> },
    /// Run the launches of one device for all lanes.
    RunStage {
        device_index: usize,
        device_id: String,
        input_token_ids: Vec<u32>,
        stream_ticks: Vec<u64>,
        dynamic_state_capacity_activations: u32,
    },
    /// Hand an edge of one device to the next.
    TransferEdge {
        source_device_index: usize,
        destination_device_index: usize,
        edge_index: usize,
    },
    /// Tell the sampler of a lane which token went in.
    RecordInput { device_id: String, lane_index: usize, input_token_id: u32 },
    /// Project the frames of all lanes onto logits.
    ProjectFrames { device_id: String, batch_width: usize },
    /// Sample a token for every lane.
    SampleStreams {
        device_id: String,
        input_token_ids: Vec<u32>,
        stream_ticks: Vec<u64>,
        dynamic_state_capacities: Vec<u32>,
    },
    /// Take what the sampler of a lane chose at a tick.
    TakeRun { lane_index: usize, stream_tick: u64 },
    /// Go no further.
    Fail { error: VulkanResidentInProcessPlacedRuntimeError },
}

#[verifier::ext_equal]
pub enum VulkanMultiStreamTickActionView {
    EmbedTokens { device_id: Seq<char>, input_token_ids: Seq<u32> },
    RunStage { device_index: usize, device_id: Seq<char>, input_token_ids: Seq<u32>, stream_ticks: Seq<u64>, dynamic_state_capacity_activations: u32 },
    TransferEdge { source_device_index: usize, destination_device_index: usize, edge_index: usize },
    RecordInput { device_id: Seq<char>, lane_index: usize, input_token_id: u32 },
    ProjectFrames { device_id: Seq<char>, batch_width: usize },
    SampleStreams { device_id: Seq<char>, input_token_ids: Seq<u32>, stream_ticks: Seq<u64>, dynamic_state_capacities: Seq<u32> },
    TakeRun { lane_index: usize, stream_tick: u64 },
    Fail { error: VulkanResidentInProcessPlacedRuntimeErrorView },
}

impl DeepView for VulkanMultiStreamTickAction {
    type V = VulkanMultiStreamTickActionView;

    open spec fn deep_view(&self) -> VulkanMultiStreamTickActionView {
        match self {
            VulkanMultiStreamTickAction::EmbedTokens { device_id, input_token_ids } => VulkanMultiStreamTickActionView::EmbedTokens { device_id: device_id.deep_view(), input_token_ids: input_token_ids.deep_view() },
            VulkanMultiStreamTickAction::RunStage { device_index, device_id, input_token_ids, stream_ticks, dynamic_state_capacity_activations } => VulkanMultiStreamTickActionView::RunStage { device_index: *device_index, device_id: device_id.deep_view(), input_token_ids: input_token_ids.deep_view(), stream_ticks: stream_ticks.deep_view(), dynamic_state_capacity_activations: *dynamic_state_capacity_activations },
            VulkanMultiStreamTickAction::TransferEdge { source_device_index, destination_device_index, edge_index } => VulkanMultiStreamTickActionView::TransferEdge { source_device_index: *source_device_index, destination_device_index: *destination_device_index, edge_index: *edge_index },
            VulkanMultiStreamTickAction::RecordInput { device_id, lane_index, input_token_id } => VulkanMultiStreamTickActionView::RecordInput { device_id: device_id.deep_view(), lane_index: *lane_index, input_token_id: *input_token_id },
            VulkanMultiStreamTickAction::ProjectFrames { device_id, batch_width } => VulkanMultiStreamTickActionView::ProjectFrames { device_id: device_id.deep_view(), batch_width: *batch_width },
            VulkanMultiStreamTickAction::SampleStreams { device_id, input_token_ids, stream_ticks, dynamic_state_capacities } => VulkanMultiStreamTickActionView::SampleStreams { device_id: device_id.deep_view(), input_token_ids: input_token_ids.deep_view(), stream_ticks: stream_ticks.deep_view(), dynamic_state_capacities: dynamic_state_capacities.deep_view() },
            VulkanMultiStreamTickAction::TakeRun { lane_index, stream_tick } => VulkanMultiStreamTickActionView::TakeRun { lane_index: *lane_index, stream_tick: *stream_tick },
            VulkanMultiStreamTickAction::Fail { error } => VulkanMultiStreamTickActionView::Fail { error: error.deep_view() },
        }
    }
}

impl View for VulkanMultiStreamTickAction {
    type V = VulkanMultiStreamTickActionView;

    open spec fn view(&self) -> VulkanMultiStreamTickActionView {
        self.deep_view()
    }
}

impl Clone for VulkanMultiStreamTickAction {
    fn clone(&self) -> (r: Self)
        ensures
            r@ == self@,
    {
        match self {
            VulkanMultiStreamTickAction::EmbedTokens { device_id, input_token_ids } => VulkanMultiStreamTickAction::EmbedTokens { device_id: device_id.clone(), input_token_ids: input_token_ids.clone() },
            VulkanMultiStreamTickAction::RunStage { device_index, device_id, input_token_ids, stream_ticks, dynamic_state_capacity_activations } => VulkanMultiStreamTickAction::RunStage { device_index: *device_index, device_id: device_id.clone(), input_token_ids: input_token_ids.clone(), stream_ticks: stream_ticks.clone(), dynamic_state_capacity_activations: *dynamic_state_capacity_activations },
            VulkanMultiStreamTickAction::TransferEdge { source_device_index, destination_device_index, edge_index } => VulkanMultiStreamTickAction::TransferEdge { source_device_index: *source_device_index, destination_device_index: *destination_device_index, edge_index: *edge_index },
            VulkanMultiStreamTickAction::RecordInput { device_id, lane_index, input_token_id } => VulkanMultiStreamTickAction::RecordInput { device_id: device_id.clone(), lane_index: *lane_index, input_token_id: *input_token_id },
            VulkanMultiStreamTickAction::ProjectFrames { device_id, batch_width } => VulkanMultiStreamTickAction::ProjectFrames { device_id: device_id.clone(), batch_width: *batch_width },
            VulkanMultiStreamTickAction::SampleStreams { device_id, input_token_ids, stream_ticks, dynamic_state_capacities } => VulkanMultiStreamTickAction::SampleStreams { device_id: device_id.clone(), input_token_ids: input_token_ids.clone(), stream_ticks: stream_ticks.clone(), dynamic_state_capacities: dynamic_state_capacities.clone() },
            VulkanMultiStreamTickAction::TakeRun { lane_index, stream_tick } => VulkanMultiStreamTickAction::TakeRun { lane_index: *lane_index, stream_tick: *stream_tick },
            VulkanMultiStreamTickAction::Fail { error } => VulkanMultiStreamTickAction::Fail { error: error.clone() },
        }
    }
}

/// Whether a stream cannot run together with the first one.
pub open spec fn stands_apart(first: VulkanResidentInProcessPlacedStreamProcessorView) -> spec_fn(
    VulkanResidentInProcessPlacedStreamProcessorView,
) -> bool {
    |processor: VulkanResidentInProcessPlacedStreamProcessorView|
        processor.model.mount_id != first.model.mount_id
            || processor.model.dynamic_state_capacity_activations
            != first.model.dynamic_state_capacity_activations || processor.speculative_decoder_count
            != 0
}

/// The launches of one device.
pub open spec fn device_launches(
    graph: VulkanResidentPlacedComponentBatchRunnerView,
    device_index: usize,
) -> Result<
    VulkanResidentComponentBatchSliceRunnerView,
    VulkanResidentInProcessPlacedRuntimeErrorView,
> {
    if device_index < graph.slices.len() {
        Ok(graph.slices[device_index as int])
    } else {
        Err(
            input_transducer::refused(
                "component batch has no device slice "@ + text::decimal(device_index as nat),
            ),
        )
    }
}

/// The buffer of a signal on one device.
pub open spec fn device_signal(
    graph: VulkanResidentPlacedComponentBatchRunnerView,
    device_index: usize,
    key: VulkanComponentBatchSignalKeyView,
) -> Result<VulkanComponentBatchSignalBufferView, VulkanResidentInProcessPlacedRuntimeErrorView> {
    match device_launches(graph, device_index) {
        Err(error) => Err(error),
        Ok(slice) => match batch_runner::buffer_of(slice, key) {
            Some(buffer) => Ok(buffer),
            None => Err(input_transducer::refused(batch_runner::no_buffer_text(key))),
        },
    }
}

impl VulkanResidentPlacedComponentBatchRunner {
    /// The launches of one device.
    pub fn slice(&self, device_index: usize) -> (r: Result<
        &VulkanResidentComponentBatchSliceRunner,
        VulkanResidentInProcessPlacedRuntimeError,
    >)
        ensures
            sequence::outcome(r) == device_launches(self@, device_index),
    {
        assert(self@.slices.len() == self.slices@.len());
        if device_index < self.slices.len() {
            Ok(&self.slices[device_index])
        } else {
            Err(
                VulkanResidentInProcessPlacedRuntimeError::BackendLoop(
                    VulkanError(
                        Message::new("component batch has no device slice ").number(
                            device_index,
                        ).done(),
                    ),
                ),
            )
        }
    }

    /// The buffer of a signal on one device.
    pub fn signal_buffer(&self, device_index: usize, key: &VulkanComponentBatchSignalKey) -> (r:
        Result<&VulkanComponentBatchSignalBuffer, VulkanResidentInProcessPlacedRuntimeError>)
        ensures
            sequence::outcome(r) == device_signal(self@, device_index, key@),
    {
        match self.slice(device_index) {
            Err(error) => Err(error),
            Ok(slice) => slice.signal_buffer(key),
        }
    }
}

/// The bound device with this identifier.
pub open spec fn bound_device(directory: VulkanDeviceDirectoryView, device_id: Seq<char>) -> Result<
    Seq<char>,
    VulkanResidentInProcessPlacedRuntimeErrorView,
> {
    match directory.find(device_id) {
        Some(device) => Ok(device.device_id),
        None => Err(VulkanResidentInProcessPlacedRuntimeErrorView::MissingBoundDevice { device_id }),
    }
}

fn resolve_bound<'a>(devices: &'a VulkanDeviceDirectory, device_id: &str) -> (r: Result<
    &'a VulkanComputeDevice,
    VulkanResidentInProcessPlacedRuntimeError,
>)
    ensures
        match (r, bound_device(devices@, device_id@)) {
            (Ok(device), Ok(id)) => device@.device_id == id,
            (Err(error), Err(expected)) => error@ == expected,
            _ => false,
        },
{
    match devices.resolve(device_id) {
        Ok(device) => Ok(device),
        Err(_) => Err(
            VulkanResidentInProcessPlacedRuntimeError::MissingBoundDevice {
                device_id: device_id.to_owned(),
            },
        ),
    }
}

/// The tensor of a transducer.
pub open spec fn tensor_buffer(
    buffers: VulkanPermanentParameterBuffersView,
    tensor: Seq<char>,
) -> Option<VulkanPermanentParameterBufferAllocationView> {
    sequence::find_first(buffers.buffers, resident_plan::tensor_matcher(tensor))
}

/// Whether a batch of streams fits the embedding tensor and the frames of its model.
pub open spec fn input_side_fits(
    directory: VulkanDeviceDirectoryView,
    model: VulkanResidentPlacedModelView,
    graph: VulkanResidentPlacedComponentBatchRunnerView,
    device_index: usize,
    width: usize,
) -> bool {
    &&& bound_device(directory, model.input_device_id) is Ok
    &&& tensor_buffer(
        model.input_transducer_parameter_buffers,
        model.input_transducer_spec.parameter_tensor,
    ) matches Some(weight) && device_signal(
        graph,
        device_index,
        VulkanComponentBatchSignalKeyView::ModelInput(
            model.input_transducer_spec.output_signal_id,
        ),
    ) matches Ok(signal) && input_transducer::batched_embedding_fits(
        width,
        weight,
        signal.buffer,
        model.input_transducer_spec,
    )
}

/// Whether the workgroups of the input side of a batch of streams are counted: nothing before that is
/// refused.
pub open spec fn input_groups_counted(
    directory: VulkanDeviceDirectoryView,
    processors: Seq<VulkanResidentInProcessPlacedStreamProcessorView>,
    pipeline: Result<Seq<usize>, VulkanResidentInProcessPlacedRuntimeErrorView>,
    graph: Result<
        VulkanResidentPlacedComponentBatchRunnerView,
        VulkanResidentInProcessPlacedRuntimeErrorView,
    >,
) -> bool {
    &&& processors.len() > 0
    &&& !sequence::any(processors, stands_apart(processors[0]))
    &&& pipeline is Ok
    &&& pipeline->Ok_0.len() > 0
    &&& graph is Ok
    &&& input_side_fits(
        directory,
        processors[0].model,
        graph->Ok_0,
        pipeline->Ok_0.first(),
        processors.len() as usize,
    )
}

/// The input side of a batch of streams.
#[verifier::opaque]
pub open spec fn input_side(
    directory: VulkanDeviceDirectoryView,
    model: VulkanResidentPlacedModelView,
    graph: VulkanResidentPlacedComponentBatchRunnerView,
    device_index: usize,
    width: usize,
) -> Result<
    VulkanResidentBatchedInputEmbeddingRunnerView,
    VulkanResidentInProcessPlacedRuntimeErrorView,
> {
    match bound_device(directory, model.input_device_id) {
        Err(error) => Err(error),
        Ok(device_id) => match tensor_buffer(
            model.input_transducer_parameter_buffers,
            model.input_transducer_spec.parameter_tensor,
        ) {
            None => Err(
                VulkanResidentInProcessPlacedRuntimeErrorView::InputTransducer(
                    VulkanResidentInputEmbeddingTransducerRunnerErrorView::MissingTransducerParameterBuffer {
                        tensor: model.input_transducer_spec.parameter_tensor,
                    },
                ),
            ),
            Some(weight) => match device_signal(
                graph,
                device_index,
                VulkanComponentBatchSignalKeyView::ModelInput(
                    model.input_transducer_spec.output_signal_id,
                ),
            ) {
                Err(error) => Err(error),
                Ok(signal) => input_transducer::batched_embedding_runner(
                    device_id,
                    width,
                    weight,
                    signal.buffer,
                    model.input_transducer_batch_spirv_words,
                    model.input_transducer_spec,
                ),
            },
        },
    }
}

/// The error where a tensor of the output transducer is missing.
pub open spec fn missing_output_tensor(tensor: Seq<char>) -> VulkanResidentInProcessPlacedRuntimeErrorView {
    VulkanResidentInProcessPlacedRuntimeErrorView::OutputTransducer(
        VulkanResidentOutputTransducerRunnerErrorView::MissingTransducerParameterBuffer { tensor },
    )
}

/// What the output side of a batch of streams is made of.
#[verifier::ext_equal]
pub struct OutputSide {
    pub device_id: Seq<char>,
    pub parts: BatchedOutputParts,
    pub scale: Option<VulkanPermanentParameterBufferAllocationView>,
}

/// What the output side of a batch of streams is made of.
#[verifier::opaque]
pub open spec fn output_side(
    directory: VulkanDeviceDirectoryView,
    model: VulkanResidentPlacedModelView,
    graph: VulkanResidentPlacedComponentBatchRunnerView,
    device_index: usize,
    scale: Result<
        Option<VulkanPermanentParameterBufferAllocationView>,
        VulkanResidentOutputTransducerRunnerErrorView,
    >,
) -> Result<OutputSide, VulkanResidentInProcessPlacedRuntimeErrorView> {
    let settings = model.output_transducer_spec;
    let norm = tensor_buffer(
        model.output_transducer_parameter_buffers,
        settings.norm_parameter_tensor,
    );
    let projection = tensor_buffer(
        model.output_transducer_parameter_buffers,
        settings.projection_parameter_tensor,
    );
    match bound_device(directory, model.output_device_id) {
        Err(error) => Err(error),
        Ok(device_id) => match device_signal(
            graph,
            device_index,
            VulkanComponentBatchSignalKeyView::ModelOutput(settings.input_signal_id),
        ) {
            Err(error) => Err(error),
            Ok(signal) => if norm is None {
                Err(missing_output_tensor(settings.norm_parameter_tensor))
            } else if projection is None {
                Err(missing_output_tensor(settings.projection_parameter_tensor))
            } else {
                match scale {
                    Err(error) => Err(
                        VulkanResidentInProcessPlacedRuntimeErrorView::OutputTransducer(error),
                    ),
                    Ok(scale) => Ok(
                        OutputSide {
                            device_id,
                            parts: BatchedOutputParts {
                                norm_tile_width: model.embedding_norm_batch_lane_tile_width,
                                tile_width: model.projection_batch_lane_tile_width,
                                frames: signal.buffer,
                                norm_weight: norm->Some_0,
                                weight: projection->Some_0,
                            },
                            scale,
                        },
                    ),
                }
            },
        },
    }
}

/// The launches of a device's share.
pub open spec fn slice_dispatches() -> spec_fn(VulkanResidentPlacedDeviceSliceView) -> nat {
    |slice: VulkanResidentPlacedDeviceSliceView| slice.dispatch_count as nat
}

/// What a batch of streams is made of, its samplers apart: the launches of the devices, the devices
/// in order, the input side and what the output side is made of.
#[verifier::ext_equal]
pub struct BatchFrame {
    pub graph: VulkanResidentPlacedComponentBatchRunnerView,
    pub pipeline: Seq<usize>,
    pub input_embedding: VulkanResidentBatchedInputEmbeddingRunnerView,
    pub output: OutputSide,
}

/// What a batch of streams is made of, its samplers apart.
pub open spec fn batch_frame(
    directory: VulkanDeviceDirectoryView,
    processors: Seq<VulkanResidentInProcessPlacedStreamProcessorView>,
    pipeline: Result<Seq<usize>, VulkanResidentInProcessPlacedRuntimeErrorView>,
    graph: Result<
        VulkanResidentPlacedComponentBatchRunnerView,
        VulkanResidentInProcessPlacedRuntimeErrorView,
    >,
    scale: Result<
        Option<VulkanPermanentParameterBufferAllocationView>,
        VulkanResidentOutputTransducerRunnerErrorView,
    >,
) -> Result<BatchFrame, VulkanResidentInProcessPlacedRuntimeErrorView> {
    if processors.len() == 0 {
        Err(VulkanResidentInProcessPlacedRuntimeErrorView::ZeroTickBudget)
    } else if sequence::any(processors, stands_apart(processors[0])) {
        Err(
            input_transducer::refused(
                "multi-stream batch lanes must share one mounted package, context capacity, and non-speculative execution contract"@,
            ),
        )
    } else {
        let model = processors[0].model;
        match pipeline {
            Err(error) => Err(error),
            Ok(pipeline) => if pipeline.len() == 0 {
                Err(input_transducer::refused("multi-stream batch pipeline is empty"@))
            } else {
                match graph {
                    Err(error) => Err(error),
                    Ok(graph) => match input_side(
                        directory,
                        model,
                        graph,
                        pipeline.first(),
                        processors.len() as usize,
                    ) {
                        Err(error) => Err(error),
                        Ok(input_embedding) => match output_side(
                            directory,
                            model,
                            graph,
                            pipeline.last(),
                            scale,
                        ) {
                            Err(error) => Err(error),
                            Ok(output) => Ok(
                                BatchFrame { graph, pipeline, input_embedding, output },
                            ),
                        },
                    },
                }
            },
        }
    }
}

/// What the samplers of a batch of streams are asked for: one for every stream.
pub open spec fn stream_logits_requests(
    directory: VulkanDeviceDirectoryView,
    processors: Seq<VulkanResidentInProcessPlacedStreamProcessorView>,
    pipeline: Result<Seq<usize>, VulkanResidentInProcessPlacedRuntimeErrorView>,
    graph: Result<
        VulkanResidentPlacedComponentBatchRunnerView,
        VulkanResidentInProcessPlacedRuntimeErrorView,
    >,
    scale: Result<
        Option<VulkanPermanentParameterBufferAllocationView>,
        VulkanResidentOutputTransducerRunnerErrorView,
    >,
    scale_checked: Result<(), VulkanResidentOutputTransducerRunnerErrorView>,
) -> Result<
    Seq<VulkanResidentSamplerLogitsRequestView>,
    VulkanResidentInProcessPlacedRuntimeErrorView,
> {
    match batch_frame(directory, processors, pipeline, graph, scale) {
        Err(error) => Err(error),
        Ok(frame) => batched_projection::batched_logits_requests(
            frame.output.device_id,
            processors.len() as usize,
            frame.output.parts,
            processors[0].model.output_transducer_spec,
            scale_checked,
        ),
    }
}

/// One tick of many streams of one model at once, from what the sampler of each stream made.
pub open spec fn multi_stream_runner(
    directory: VulkanDeviceDirectoryView,
    processors: Seq<VulkanResidentInProcessPlacedStreamProcessorView>,
    pipeline: Result<Seq<usize>, VulkanResidentInProcessPlacedRuntimeErrorView>,
    graph: Result<
        VulkanResidentPlacedComponentBatchRunnerView,
        VulkanResidentInProcessPlacedRuntimeErrorView,
    >,
    scale: Result<
        Option<VulkanPermanentParameterBufferAllocationView>,
        VulkanResidentOutputTransducerRunnerErrorView,
    >,
    scale_checked: Result<(), VulkanResidentOutputTransducerRunnerErrorView>,
    samplers: Seq<Result<Seq<VulkanResidentKernelDispatchView>, Seq<char>>>,
) -> Result<
    VulkanResidentPlacedMultiStreamBatchRunnerView,
    VulkanResidentInProcessPlacedRuntimeErrorView,
> {
    match batch_frame(directory, processors, pipeline, graph, scale) {
        Err(error) => Err(error),
        Ok(frame) => {
            let first = processors[0];
            match batched_projection::batched_output_runner(
                frame.output.device_id,
                samplers.len() as usize,
                frame.output.parts,
                BatchedOutputKernels {
                    scale: frame.output.scale,
                    norm_words: first.model.embedding_norm_batch_spirv_words,
                    words: first.model.tied_projection_batch_spirv_words,
                },
                first.model.output_transducer_spec,
                scale_checked,
                samplers,
            ) {
                Err(error) => Err(error),
                Ok(output_projection) => if first.model.dynamic_state_capacity_activations
                    > u32::MAX {
                    Err(
                        input_transducer::refused(
                            "multi-stream batch context capacity exceeds u32"@,
                        ),
                    )
                } else {
                    Ok(
                        VulkanResidentPlacedMultiStreamBatchRunnerView {
                            execution_graph: frame.graph,
                            input_embedding: frame.input_embedding,
                            output_projection,
                            pipeline: frame.pipeline,
                            dynamic_state_capacity_activations:
                                first.model.dynamic_state_capacity_activations as u32,
                            scheduler_turn_count_per_tick: first.activation_turn_count,
                            completed_stage_count_per_tick: sequence::total(
                                first.device_slices,
                                slice_dispatches(),
                            ) as usize,
                        },
                    )
                },
            }
        },
    }
}

/// The error where the tokens and ticks of a batch do not match its streams.
pub open spec fn lanes_error(processors: nat, tokens: nat, ticks: nat) -> Option<
    VulkanResidentInProcessPlacedRuntimeErrorView,
> {
    if tokens != processors || ticks != processors {
        Some(
            input_transducer::refused(
                "multi-stream batch has "@ + text::decimal(processors) + " processors, "@
                    + text::decimal(tokens) + " input tokens, and "@ + text::decimal(ticks)
                    + " stream ticks"@,
            ),
        )
    } else {
        None
    }
}

/// The first `n` stages of the pipeline, from what came of each stage and of each transfer to the
/// next one. A stage that another follows has exactly one outgoing edge.
pub open spec fn stages_run(
    pipeline: Seq<usize>,
    slices: Seq<VulkanResidentPlacedDeviceSliceView>,
    stages: Seq<Result<(), VulkanResidentInProcessPlacedRuntimeErrorView>>,
    transfers: Seq<Result<(), VulkanResidentInProcessPlacedRuntimeErrorView>>,
    n: nat,
) -> Result<(), VulkanResidentInProcessPlacedRuntimeErrorView>
    decreases n,
{
    if n == 0 {
        Ok(())
    } else {
        match stages_run(pipeline, slices, stages, transfers, (n - 1) as nat) {
            Err(error) => Err(error),
            Ok(_) => {
                let slice = slices[pipeline[n - 1] as int];
                match stages[n - 1] {
                    Err(error) => Err(error),
                    Ok(_) => if n == pipeline.len() {
                        Ok(())
                    } else if slice.outgoing_edge_indices.len() != 1 {
                        Err(edges_error(slice))
                    } else {
                        transfers[n - 1]
                    },
                }
            },
        }
    }
}

/// The refusal of a device that another follows and that has not exactly one outgoing edge.
pub open spec fn edges_error(slice: VulkanResidentPlacedDeviceSliceView) -> VulkanResidentInProcessPlacedRuntimeErrorView {
    input_transducer::refused(
        "multi-stream batch device "@ + text::quoted(slice.device_id) + " has "@ + text::decimal(
            slice.outgoing_edge_indices.len(),
        ) + " outgoing edges; expected one"@,
    )
}

/// Whether actions go no further.
pub open spec fn ends_in_failure(actions: Seq<VulkanMultiStreamTickActionView>) -> bool {
    actions.len() > 0 && actions.last() is Fail
}

/// What the first `n` stages of a tick do. Each device runs its launches, and hands its one outgoing
/// edge to the device that follows.
pub open spec fn stage_actions(
    runner: VulkanResidentPlacedMultiStreamBatchRunnerView,
    slices: Seq<VulkanResidentPlacedDeviceSliceView>,
    tokens: Seq<u32>,
    ticks: Seq<u64>,
    n: nat,
) -> Seq<VulkanMultiStreamTickActionView>
    decreases n,
{
    if n == 0 {
        Seq::empty()
    } else {
        let front = stage_actions(runner, slices, tokens, ticks, (n - 1) as nat);
        if ends_in_failure(front) {
            front
        } else {
            let device_index = runner.pipeline[n - 1];
            let slice = slices[device_index as int];
            let staged = front.push(
                VulkanMultiStreamTickActionView::RunStage {
                    device_index,
                    device_id: slice.device_id,
                    input_token_ids: tokens,
                    stream_ticks: ticks,
                    dynamic_state_capacity_activations: runner.dynamic_state_capacity_activations,
                },
            );
            if n == runner.pipeline.len() {
                staged
            } else if slice.outgoing_edge_indices.len() != 1 {
                staged.push(VulkanMultiStreamTickActionView::Fail { error: edges_error(slice) })
            } else {
                staged.push(
                    VulkanMultiStreamTickActionView::TransferEdge {
                        source_device_index: device_index,
                        destination_device_index: runner.pipeline[n as int],
                        edge_index: slice.outgoing_edge_indices[0],
                    },
                )
            }
        }
    }
}

/// What a tick does on the output device: token `k` is recorded on lane `k`, the batch is projected
/// and sampled, and lane `k`'s run is taken at its own tick.
pub open spec fn output_actions(
    runner: VulkanResidentPlacedMultiStreamBatchRunnerView,
    device_id: Seq<char>,
    tokens: Seq<u32>,
    ticks: Seq<u64>,
) -> Seq<VulkanMultiStreamTickActionView> {
    let width = tokens.len();
    Seq::new(
        width,
        |k: int|
            VulkanMultiStreamTickActionView::RecordInput {
                device_id,
                lane_index: k as usize,
                input_token_id: tokens[k],
            },
    ) + seq![
        VulkanMultiStreamTickActionView::ProjectFrames { device_id, batch_width: width as usize },
        VulkanMultiStreamTickActionView::SampleStreams {
            device_id,
            input_token_ids: tokens,
            stream_ticks: ticks,
            dynamic_state_capacities: batched_projection::uniform(
                runner.dynamic_state_capacity_activations,
                width,
            ),
        },
    ] + Seq::new(
        width,
        |k: int|
            VulkanMultiStreamTickActionView::TakeRun {
                lane_index: k as usize,
                stream_tick: ticks[k],
            },
    )
}

/// What a tick of many streams does, in order. Where it comes to a point from which it cannot go on,
/// the last action says why.
pub open spec fn tick_actions(
    runner: VulkanResidentPlacedMultiStreamBatchRunnerView,
    directory: VulkanDeviceDirectoryView,
    processors: Seq<VulkanResidentInProcessPlacedStreamProcessorView>,
    tokens: Seq<u32>,
    ticks: Seq<u64>,
) -> Result<
    Seq<VulkanMultiStreamTickActionView>,
    VulkanResidentInProcessPlacedRuntimeErrorView,
> {
    let width = processors.len();
    if lanes_error(width, tokens.len(), ticks.len()) is Some {
        Err(lanes_error(width, tokens.len(), ticks.len())->Some_0)
    } else if width == 0 {
        Err(VulkanResidentInProcessPlacedRuntimeErrorView::ZeroTickBudget)
    } else {
        let first = processors[0];
        match bound_device(directory, first.model.input_device_id) {
            Err(error) => Err(error),
            Ok(device_id) => {
                let staged = stage_actions(
                    runner,
                    first.device_slices,
                    tokens,
                    ticks,
                    runner.pipeline.len(),
                );
                let front = seq![
                    VulkanMultiStreamTickActionView::EmbedTokens {
                        device_id,
                        input_token_ids: tokens,
                    },
                ] + staged;
                if ends_in_failure(staged) {
                    Ok(front)
                } else {
                    match bound_device(directory, first.model.output_device_id) {
                        Err(error) => Ok(
                            front.push(VulkanMultiStreamTickActionView::Fail { error }),
                        ),
                        Ok(device_id) => Ok(
                            front + output_actions(runner, device_id, tokens, ticks),
                        ),
                    }
                }
            },
        }
    }
}

/// What the samplers chose, or why one of them failed.
pub open spec fn sampled_token() -> spec_fn(Result<VulkanResidentSamplerRunView, Seq<char>>) -> Result<
    u32,
    VulkanResidentInProcessPlacedRuntimeErrorView,
> {
    |answer: Result<VulkanResidentSamplerRunView, Seq<char>>|
        match answer {
            Ok(run) => Ok(run.token_id),
            Err(error) => Err(VulkanResidentInProcessPlacedRuntimeErrorView::Sampler(error)),
        }
}

/// What came of telling a sampler its input, as the runtime reports it.
pub open spec fn recorded_input() -> spec_fn(Result<(), Seq<char>>) -> Result<
    (),
    VulkanResidentInProcessPlacedRuntimeErrorView,
> {
    |answer: Result<(), Seq<char>>|
        match answer {
            Ok(_) => Ok(()),
            Err(error) => Err(VulkanResidentInProcessPlacedRuntimeErrorView::Sampler(error)),
        }
}

/// What came of the parts of a tick that the devices and samplers carry out.
#[verifier::ext_equal]
pub struct TickAnswers {
    pub embedded: Result<(), VulkanResidentInProcessPlacedRuntimeErrorView>,
    pub stages: Seq<Result<(), VulkanResidentInProcessPlacedRuntimeErrorView>>,
    pub transfers: Seq<Result<(), VulkanResidentInProcessPlacedRuntimeErrorView>>,
    pub recorded: Seq<Result<(), Seq<char>>>,
    pub projected: Result<(), VulkanResidentInProcessPlacedRuntimeErrorView>,
    pub sampled: Result<(), VulkanResidentInProcessPlacedRuntimeErrorView>,
    pub completed: Seq<Result<VulkanResidentSamplerRunView, Seq<char>>>,
}

/// A tick of many streams.
pub open spec fn multi_stream_run(
    runner: VulkanResidentPlacedMultiStreamBatchRunnerView,
    directory: VulkanDeviceDirectoryView,
    processors: Seq<VulkanResidentInProcessPlacedStreamProcessorView>,
    tokens: nat,
    ticks: nat,
    answers: TickAnswers,
) -> Result<
    VulkanResidentPlacedMultiStreamBatchRunView,
    VulkanResidentInProcessPlacedRuntimeErrorView,
> {
    let width = processors.len();
    if lanes_error(width, tokens, ticks) is Some {
        Err(lanes_error(width, tokens, ticks)->Some_0)
    } else if width == 0 {
        Err(VulkanResidentInProcessPlacedRuntimeErrorView::ZeroTickBudget)
    } else {
        let first = processors[0];
        match bound_device(directory, first.model.input_device_id) {
            Err(error) => Err(error),
            Ok(_) => match answers.embedded {
                Err(error) => Err(error),
                Ok(_) => match stages_run(
                    runner.pipeline,
                    first.device_slices,
                    answers.stages,
                    answers.transfers,
                    runner.pipeline.len(),
                ) {
                    Err(error) => Err(error),
                    Ok(_) => match bound_device(directory, first.model.output_device_id) {
                        Err(error) => Err(error),
                        Ok(_) => match sequence::try_map(
                            answers.recorded.take(width as int),
                            recorded_input(),
                        ) {
                            Err(error) => Err(error),
                            Ok(_) => match answers.projected {
                                Err(error) => Err(error),
                                Ok(_) => match answers.sampled {
                                    Err(error) => Err(error),
                                    Ok(_) => match sequence::try_map(
                                        answers.completed.take(width as int),
                                        sampled_token(),
                                    ) {
                                        Err(error) => Err(error),
                                        Ok(sampled_token_ids) => Ok(
                                            VulkanResidentPlacedMultiStreamBatchRunView {
                                                sampled_token_ids,
                                                scheduler_turn_count_per_tick:
                                                    runner.scheduler_turn_count_per_tick,
                                                completed_stage_count_per_tick:
                                                    runner.completed_stage_count_per_tick,
                                            },
                                        ),
                                    },
                                },
                            },
                        },
                    },
                },
            },
        }
    }
}

proof fn lemma_stages_run_error(
    pipeline: Seq<usize>,
    slices: Seq<VulkanResidentPlacedDeviceSliceView>,
    stages: Seq<Result<(), VulkanResidentInProcessPlacedRuntimeErrorView>>,
    transfers: Seq<Result<(), VulkanResidentInProcessPlacedRuntimeErrorView>>,
    i: nat,
    n: nat,
)
    requires
        i <= n,
        stages_run(pipeline, slices, stages, transfers, i) is Err,
    ensures
        stages_run(pipeline, slices, stages, transfers, n) == stages_run(
            pipeline,
            slices,
            stages,
            transfers,
            i,
        ),
    decreases n - i,
{
    if i < n {
        lemma_stages_run_error(pipeline, slices, stages, transfers, i + 1, n);
    }
}

proof fn lemma_stage_actions_stop(
    runner: VulkanResidentPlacedMultiStreamBatchRunnerView,
    slices: Seq<VulkanResidentPlacedDeviceSliceView>,
    tokens: Seq<u32>,
    ticks: Seq<u64>,
    i: nat,
    n: nat,
)
    requires
        i <= n,
        ends_in_failure(stage_actions(runner, slices, tokens, ticks, i)),
    ensures
        stage_actions(runner, slices, tokens, ticks, n) == stage_actions(
            runner,
            slices,
            tokens,
            ticks,
            i,
        ),
    decreases n - i,
{
    if i < n {
        lemma_stage_actions_stop(runner, slices, tokens, ticks, i + 1, n);
    }
}

#[verifier::loop_isolation(false)]
fn any_stands_apart(processors: &Vec<VulkanResidentInProcessPlacedStreamProcessor>) -> (r: bool)
    requires
        processors@.len() > 0,
    ensures
        r == sequence::any(processors.deep_view(), stands_apart(processors.deep_view()[0])),
{
    let first = &processors[0];
    assert(processors.deep_view()[0] == first@);
    let ghost all = processors.deep_view();
    let ghost p = stands_apart(first@);
    let mut i: usize = 0;
    while i < processors.len()
        invariant
            i <= processors.len(),
            forall|j: int| 0 <= j < i ==> !p(#[trigger] all[j]),
        decreases processors.len() - i,
    {
        let item = &processors[i];
        assert(all[i as int] == item.deep_view());
        if item.model.mount_id != first.model.mount_id || item.model.dynamic_state_capacity_activations != first.model.dynamic_state_capacity_activations || item.speculative_decoder_count != 0 {
            assert(p(all[i as int]));
            return true;
        }
        i += 1;
    }
    false
}

fn make_input_side(
    devices: &VulkanDeviceDirectory,
    model: &VulkanResidentPlacedModel,
    graph: &VulkanResidentPlacedComponentBatchRunner,
    device_index: usize,
    width: usize,
) -> (r: Result<
    VulkanResidentBatchedInputEmbeddingRunner,
    VulkanResidentInProcessPlacedRuntimeError,
>)
    requires
        input_side_fits(devices@, model@, graph@, device_index, width)
            ==> model@.input_transducer_spec.local_size_x > 0,
    ensures
        sequence::outcome(r) == input_side(devices@, model@, graph@, device_index, width),
{
    reveal(input_side);
    let device: &VulkanComputeDevice = match resolve_bound(
        devices,
        model.input_device_id.as_str(),
    ) {
        Err(error) => {
            return Err(error);
        },
        Ok(device) => device,
    };
    let tensor: &String = &model.input_transducer_spec.parameter_tensor;
    let weight: &VulkanPermanentParameterBufferAllocation =
        match model.input_transducer_parameter_buffers.parameter_buffer(tensor.as_str()) {
        None => {
            return Err(
                VulkanResidentInProcessPlacedRuntimeError::InputTransducer(
                    VulkanResidentInputEmbeddingTransducerRunnerError::MissingTransducerParameterBuffer {
                        tensor: tensor.clone(),
                    },
                ),
            );
        },
        Some(weight) => weight,
    };
    let key: VulkanComponentBatchSignalKey = VulkanComponentBatchSignalKey::ModelInput(
        model.input_transducer_spec.output_signal_id.clone(),
    );
    let signal: &VulkanComponentBatchSignalBuffer = match graph.signal_buffer(device_index, &key) {
        Err(error) => {
            return Err(error);
        },
        Ok(signal) => signal,
    };
    assert(model.input_transducer_batch_spirv_words.deep_view()
        =~= model.input_transducer_batch_spirv_words@);
    VulkanResidentBatchedInputEmbeddingRunner::new(
        device,
        width,
        weight,
        &signal.buffer,
        &model.input_transducer_batch_spirv_words,
        &model.input_transducer_spec,
    )
}

/// What the output side of a batch of streams is made of.
struct OutputSideRefs<'a> {
    device: &'a VulkanComputeDevice,
    frames: &'a VulkanResidentBuffer,
    norm: &'a VulkanPermanentParameterBufferAllocation,
    projection: &'a VulkanPermanentParameterBufferAllocation,
    scale: Option<&'a VulkanPermanentParameterBufferAllocation>,
}

impl<'a> OutputSideRefs<'a> {
    spec fn value(&self, model: VulkanResidentPlacedModelView) -> OutputSide {
        OutputSide {
            device_id: self.device@.device_id,
            parts: BatchedOutputParts {
                norm_tile_width: model.embedding_norm_batch_lane_tile_width,
                tile_width: model.projection_batch_lane_tile_width,
                frames: self.frames@,
                norm_weight: self.norm@,
                weight: self.projection@,
            },
            scale: self.scale.deep_view(),
        }
    }
}

fn find_output_side<'a>(
    devices: &'a VulkanDeviceDirectory,
    model: &'a VulkanResidentPlacedModel,
    graph: &'a VulkanResidentPlacedComponentBatchRunner,
    device_index: usize,
    scale: &'a Result<
        Option<VulkanPermanentParameterBufferAllocation>,
        VulkanResidentOutputTransducerRunnerError,
    >,
) -> (r: Result<OutputSideRefs<'a>, VulkanResidentInProcessPlacedRuntimeError>)
    ensures
        (match r {
            Ok(side) => Ok::<OutputSide, VulkanResidentInProcessPlacedRuntimeErrorView>(
                side.value(model@),
            ),
            Err(error) => Err(error@),
        }) == output_side(devices@, model@, graph@, device_index, sequence::outcome(*scale)),
{
    reveal(output_side);
    let settings: &VulkanResidentOutputTransducerSpec = &model.output_transducer_spec;
    let device: &VulkanComputeDevice = match resolve_bound(
        devices,
        model.output_device_id.as_str(),
    ) {
        Err(error) => {
            return Err(error);
        },
        Ok(device) => device,
    };
    let key: VulkanComponentBatchSignalKey = VulkanComponentBatchSignalKey::ModelOutput(
        settings.input_signal_id.clone(),
    );
    let signal: &VulkanComponentBatchSignalBuffer = match graph.signal_buffer(device_index, &key) {
        Err(error) => {
            return Err(error);
        },
        Ok(signal) => signal,
    };
    let norm: &VulkanPermanentParameterBufferAllocation =
        match model.output_transducer_parameter_buffers.parameter_buffer(
        settings.norm_parameter_tensor.as_str(),
    ) {
        None => {
            return Err(
                VulkanResidentInProcessPlacedRuntimeError::OutputTransducer(
                    VulkanResidentOutputTransducerRunnerError::MissingTransducerParameterBuffer {
                        tensor: settings.norm_parameter_tensor.clone(),
                    },
                ),
            );
        },
        Some(weight) => weight,
    };
    let projection: &VulkanPermanentParameterBufferAllocation =
        match model.output_transducer_parameter_buffers.parameter_buffer(
        settings.projection_parameter_tensor.as_str(),
    ) {
        None => {
            return Err(
                VulkanResidentInProcessPlacedRuntimeError::OutputTransducer(
                    VulkanResidentOutputTransducerRunnerError::MissingTransducerParameterBuffer {
                        tensor: settings.projection_parameter_tensor.clone(),
                    },
                ),
            );
        },
        Some(weight) => weight,
    };
    let found: Option<&VulkanPermanentParameterBufferAllocation> = match scale {
        Err(error) => {
            return Err(VulkanResidentInProcessPlacedRuntimeError::OutputTransducer(error.clone()));
        },
        Ok(None) => None,
        Ok(Some(scale)) => Some(scale),
    };
    Ok(OutputSideRefs { device, frames: &signal.buffer, norm, projection, scale: found })
}

/// The refusal of streams that cannot run together, and of a pipeline without a device.
fn check_streams(
    processors: &Vec<VulkanResidentInProcessPlacedStreamProcessor>,
    pipeline: &Result<Vec<usize>, VulkanResidentInProcessPlacedRuntimeError>,
    graph: &Result<
        VulkanResidentPlacedComponentBatchRunner,
        VulkanResidentInProcessPlacedRuntimeError,
    >,
) -> (r: Option<VulkanResidentInProcessPlacedRuntimeError>)
    ensures
        match r {
            Some(error) => forall|directory, scale|
                #[trigger] batch_frame(
                    directory,
                    processors.deep_view(),
                    sequence::outcome(*pipeline),
                    sequence::outcome(*graph),
                    scale,
                ) == Err::<BatchFrame, VulkanResidentInProcessPlacedRuntimeErrorView>(error@),
            None => {
                &&& processors@.len() > 0
                &&& !sequence::any(
                    processors.deep_view(),
                    stands_apart(processors.deep_view()[0]),
                )
                &&& pipeline is Ok
                &&& pipeline->Ok_0@.len() > 0
                &&& graph is Ok
            },
        },
{
    assert(processors.deep_view().len() == processors@.len());
    if processors.len() == 0 {
        return Some(VulkanResidentInProcessPlacedRuntimeError::ZeroTickBudget);
    }
    if any_stands_apart(processors) {
        return Some(
            input_transducer::refusal(
                "multi-stream batch lanes must share one mounted package, context capacity, and non-speculative execution contract",
            ),
        );
    }
    match pipeline {
        Err(error) => {
            return Some(error.clone());
        },
        Ok(pipeline) => {
            assert(pipeline.deep_view() =~= pipeline@);
            if pipeline.len() == 0 {
                return Some(input_transducer::refusal("multi-stream batch pipeline is empty"));
            }
        },
    }
    match graph {
        Err(error) => Some(error.clone()),
        Ok(_) => None,
    }
}

fn refuse_edges(slice: &VulkanResidentPlacedDeviceSlice) -> (r:
    VulkanResidentInProcessPlacedRuntimeError)
    ensures
        r@ == edges_error(slice@),
{
    assert(slice@.outgoing_edge_indices.len() == slice.outgoing_edge_indices@.len());
    VulkanResidentInProcessPlacedRuntimeError::BackendLoop(
        VulkanError(
            Message::new("multi-stream batch device ").quoted(slice.device_id.as_str()).text(
                " has ",
            ).number(slice.outgoing_edge_indices.len()).text(" outgoing edges; expected one").done(),
        ),
    )
}

fn refuse_lanes(processors: usize, tokens: usize, ticks: usize) -> (r: Option<
    VulkanResidentInProcessPlacedRuntimeError,
>)
    ensures
        r.deep_view() == lanes_error(processors as nat, tokens as nat, ticks as nat),
{
    if tokens == processors && ticks == processors {
        return None;
    }
    Some(
        VulkanResidentInProcessPlacedRuntimeError::BackendLoop(
            VulkanError(
                Message::new("multi-stream batch has ").number(processors).text(
                    " processors, ",
                ).number(tokens).text(" input tokens, and ").number(ticks).text(
                    " stream ticks",
                ).done(),
            ),
        ),
    )
}

#[verifier::loop_isolation(false)]
fn total_dispatches(slices: &Vec<VulkanResidentPlacedDeviceSlice>) -> (r: usize)
    requires
        sequence::total(slices.deep_view(), slice_dispatches()) <= usize::MAX,
    ensures
        r == sequence::total(slices.deep_view(), slice_dispatches()),
{
    let ghost all = slices.deep_view();
    let mut total: usize = 0;
    let mut i: usize = 0;
    assert(all.take(0) =~= Seq::empty());
    while i < slices.len()
        invariant
            i <= slices.len(),
            total == sequence::total(all.take(i as int), slice_dispatches()),
        decreases slices.len() - i,
    {
        proof {
            assert(all[i as int] == slices@[i as int]@);
            sequence::lemma_total_step(all, slice_dispatches(), i as int);
            sequence::lemma_total_prefix(all, slice_dispatches(), i + 1);
        }
        total = total + slices[i].dispatch_count;
        i += 1;
    }
    assert(all.take(all.len() as int) =~= all);
    total
}

impl VulkanResidentPlacedMultiStreamBatchRunner {
    /// Whether the workgroups of the input side are counted, for which its local size must not be
    /// zero.
    pub fn counts_input_groups(
        devices: &VulkanDeviceDirectory,
        processors: &Vec<VulkanResidentInProcessPlacedStreamProcessor>,
        pipeline: &Result<Vec<usize>, VulkanResidentInProcessPlacedRuntimeError>,
        execution_graph: &Result<
            VulkanResidentPlacedComponentBatchRunner,
            VulkanResidentInProcessPlacedRuntimeError,
        >,
    ) -> (r: bool)
        ensures
            r == input_groups_counted(
                devices@,
                processors.deep_view(),
                sequence::outcome(*pipeline),
                sequence::outcome(*execution_graph),
            ),
    {
        assert(processors.deep_view().len() == processors@.len());
        if processors.len() == 0 || any_stands_apart(processors) {
            return false;
        }
        let first = &processors[0];
        assert(processors.deep_view()[0] == first@);
        let settings: &VulkanResidentInputEmbeddingTransducerSpec =
            &first.model.input_transducer_spec;
        match (pipeline, execution_graph) {
            (Ok(pipeline), Ok(graph)) => {
                assert(pipeline.deep_view() =~= pipeline@);
                if pipeline.len() == 0 || resolve_bound(
                    devices,
                    first.model.input_device_id.as_str(),
                ).is_err() {
                    return false;
                }
                let key: VulkanComponentBatchSignalKey = VulkanComponentBatchSignalKey::ModelInput(
                    settings.output_signal_id.clone(),
                );
                match (
                    first.model.input_transducer_parameter_buffers.parameter_buffer(
                        settings.parameter_tensor.as_str(),
                    ),
                    graph.signal_buffer(pipeline[0], &key),
                ) {
                    (Some(weight), Ok(signal)) => VulkanResidentBatchedInputEmbeddingRunner::fits(
                        processors.len(),
                        weight,
                        &signal.buffer,
                        settings,
                    ),
                    _ => false,
                }
            },
            _ => false,
        }
    }

    /// What the samplers of the streams are asked for, before they make anything.
    pub fn sampler_logits_requests(
        devices: &VulkanDeviceDirectory,
        processors: &Vec<VulkanResidentInProcessPlacedStreamProcessor>,
        pipeline: &Result<Vec<usize>, VulkanResidentInProcessPlacedRuntimeError>,
        execution_graph: &Result<
            VulkanResidentPlacedComponentBatchRunner,
            VulkanResidentInProcessPlacedRuntimeError,
        >,
        projection_scale: &Result<
            Option<VulkanPermanentParameterBufferAllocation>,
            VulkanResidentOutputTransducerRunnerError,
        >,
        scale_checked: &Result<(), VulkanResidentOutputTransducerRunnerError>,
    ) -> (r: Result<
        Vec<VulkanResidentSamplerLogitsRequest>,
        VulkanResidentInProcessPlacedRuntimeError,
    >)
        requires
            input_groups_counted(
                devices@,
                processors.deep_view(),
                sequence::outcome(*pipeline),
                sequence::outcome(*execution_graph),
            ) ==> processors.deep_view()[0].model.input_transducer_spec.local_size_x > 0,
        ensures
            sequence::outcome(r) == stream_logits_requests(
                devices@,
                processors.deep_view(),
                sequence::outcome(*pipeline),
                sequence::outcome(*execution_graph),
                sequence::outcome(*projection_scale),
                sequence::outcome(*scale_checked),
            ),
    {
        assert(processors.deep_view().len() == processors@.len());
        let (pipeline, graph): (&Vec<usize>, &VulkanResidentPlacedComponentBatchRunner) = match (
            check_streams(processors, pipeline, execution_graph),
            pipeline,
            execution_graph,
        ) {
            (Some(error), _, _) => {
                return Err(error);
            },
            (None, Err(error), _) => {
                return Err(error.clone());
            },
            (None, Ok(_), Err(error)) => {
                return Err(error.clone());
            },
            (None, Ok(pipeline), Ok(graph)) => (pipeline, graph),
        };
        let first = &processors[0];
        assert(processors.deep_view()[0] == first@);
        assert(pipeline.deep_view() =~= pipeline@);
        match make_input_side(devices, &first.model, graph, pipeline[0], processors.len()) {
            Err(error) => {
                return Err(error);
            },
            Ok(_) => {},
        }
        let output: OutputSideRefs<'_> = match find_output_side(
            devices,
            &first.model,
            graph,
            pipeline[pipeline.len() - 1],
            projection_scale,
        ) {
            Err(error) => {
                return Err(error);
            },
            Ok(output) => output,
        };
        VulkanResidentBatchedOutputProjectionRunner::sampler_logits_requests(
            output.device,
            first.model.embedding_norm_batch_lane_tile_width,
            first.model.projection_batch_lane_tile_width,
            output.frames,
            output.norm,
            output.projection,
            &first.model.output_transducer_spec,
            scale_checked,
            processors.len(),
        )
    }

    /// One tick of many streams of one model at once, from what came of laying out the pipeline, of
    /// making the launches of the devices and of finding and checking the projection's scale, and
    /// from what the sampler of every stream made to read its logits.
    pub fn new(
        devices: &VulkanDeviceDirectory,
        processors: &Vec<VulkanResidentInProcessPlacedStreamProcessor>,
        pipeline: Result<Vec<usize>, VulkanResidentInProcessPlacedRuntimeError>,
        execution_graph: Result<
            VulkanResidentPlacedComponentBatchRunner,
            VulkanResidentInProcessPlacedRuntimeError,
        >,
        projection_scale: &Result<
            Option<VulkanPermanentParameterBufferAllocation>,
            VulkanResidentOutputTransducerRunnerError,
        >,
        scale_checked: &Result<(), VulkanResidentOutputTransducerRunnerError>,
        made: Vec<Result<Vec<VulkanResidentKernelDispatch>, VulkanResidentSamplerRunnerError>>,
    ) -> (r: Result<Self, VulkanResidentInProcessPlacedRuntimeError>)
        requires
            made@.len() == processors@.len(),
            processors@.len() > 0 ==> sequence::total(
                processors.deep_view()[0].device_slices,
                slice_dispatches(),
            ) <= usize::MAX,
            input_groups_counted(
                devices@,
                processors.deep_view(),
                sequence::outcome(pipeline),
                sequence::outcome(execution_graph),
            ) ==> processors.deep_view()[0].model.input_transducer_spec.local_size_x > 0,
        ensures
            sequence::outcome(r) == multi_stream_runner(
                devices@,
                processors.deep_view(),
                sequence::outcome(pipeline),
                sequence::outcome(execution_graph),
                sequence::outcome(*projection_scale),
                sequence::outcome(*scale_checked),
                sequence::outcomes(made@),
            ),
            r matches Ok(runner) ==> batched_projection::reads_lane_by_lane(
                runner@.output_projection,
                processors.deep_view()[0].model.output_transducer_spec,
                sequence::outcomes(made@),
            ),
    {
        assert(processors.deep_view().len() == processors@.len());
        match check_streams(processors, &pipeline, &execution_graph) {
            Some(error) => {
                return Err(error);
            },
            None => {},
        }
        let pipeline: Vec<usize> = match pipeline {
            Err(error) => {
                return Err(error);
            },
            Ok(pipeline) => pipeline,
        };
        let graph: VulkanResidentPlacedComponentBatchRunner = match execution_graph {
            Err(error) => {
                return Err(error);
            },
            Ok(graph) => graph,
        };
        let first = &processors[0];
        assert(processors.deep_view()[0] == first@);
        assert(pipeline.deep_view() =~= pipeline@);
        let input_embedding: VulkanResidentBatchedInputEmbeddingRunner = match make_input_side(
            devices,
            &first.model,
            &graph,
            pipeline[0],
            processors.len(),
        ) {
            Err(error) => {
                return Err(error);
            },
            Ok(input_embedding) => input_embedding,
        };
        let output: OutputSideRefs<'_> = match find_output_side(
            devices,
            &first.model,
            &graph,
            pipeline[pipeline.len() - 1],
            projection_scale,
        ) {
            Err(error) => {
                return Err(error);
            },
            Ok(output) => output,
        };
        assert(first.model.embedding_norm_batch_spirv_words.deep_view()
            =~= first.model.embedding_norm_batch_spirv_words@);
        assert(first.model.tied_projection_batch_spirv_words.deep_view()
            =~= first.model.tied_projection_batch_spirv_words@);
        let output_projection: VulkanResidentBatchedOutputProjectionRunner =
            match VulkanResidentBatchedOutputProjectionRunner::new_for_sampler_lanes(
            output.device,
            first.model.embedding_norm_batch_lane_tile_width,
            first.model.projection_batch_lane_tile_width,
            output.frames,
            output.norm,
            output.projection,
            output.scale,
            &first.model.embedding_norm_batch_spirv_words,
            &first.model.tied_projection_batch_spirv_words,
            &first.model.output_transducer_spec,
            scale_checked,
            made,
        ) {
            Err(error) => {
                return Err(error);
            },
            Ok(output_projection) => output_projection,
        };
        if first.model.dynamic_state_capacity_activations > u32::MAX as usize {
            return Err(
                input_transducer::refusal("multi-stream batch context capacity exceeds u32"),
            );
        }
        let completed_stage_count_per_tick: usize = total_dispatches(&first.device_slices);
        Ok(
            VulkanResidentPlacedMultiStreamBatchRunner {
                execution_graph: graph,
                input_embedding,
                output_projection,
                pipeline,
                dynamic_state_capacity_activations:
                    first.model.dynamic_state_capacity_activations as u32,
                scheduler_turn_count_per_tick: first.activation_turn_count,
                completed_stage_count_per_tick,
            },
        )
    }

    /// The stages of the pipeline.
    #[verifier::loop_isolation(false)]
    fn run_stages(
        &self,
        slices: &Vec<VulkanResidentPlacedDeviceSlice>,
        stages: &Vec<Result<(), VulkanResidentInProcessPlacedRuntimeError>>,
        transfers: &Vec<Result<(), VulkanResidentInProcessPlacedRuntimeError>>,
    ) -> (r: Result<(), VulkanResidentInProcessPlacedRuntimeError>)
        requires
            stages@.len() >= self@.pipeline.len(),
            transfers@.len() + 1 >= self@.pipeline.len(),
            forall|i: int|
                0 <= i < self@.pipeline.len() ==> #[trigger] self@.pipeline[i] < slices@.len(),
        ensures
            sequence::outcome(r) == stages_run(
                self@.pipeline,
                slices.deep_view(),
                sequence::outcomes(stages@),
                sequence::outcomes(transfers@),
                self@.pipeline.len(),
            ),
    {
        let ghost done = sequence::outcomes(stages@);
        let ghost moved = sequence::outcomes(transfers@);
        let ghost all = slices.deep_view();
        assert(self@.pipeline =~= self.pipeline@);
        let mut i: usize = 0;
        while i < self.pipeline.len()
            invariant
                i <= self.pipeline.len(),
                stages_run(self@.pipeline, all, done, moved, i as nat) is Ok,
            decreases self.pipeline.len() - i,
        {
            let slice = &slices[self.pipeline[i]];
            proof {
                assert(all[self@.pipeline[i as int] as int] == slice@);
                assert(done[i as int] == sequence::outcome(stages@[i as int]));
                assert(slice@.outgoing_edge_indices.len() == slice.outgoing_edge_indices@.len());
                if stages_run(self@.pipeline, all, done, moved, (i + 1) as nat) is Err {
                    lemma_stages_run_error(
                        self@.pipeline,
                        all,
                        done,
                        moved,
                        (i + 1) as nat,
                        self@.pipeline.len(),
                    );
                }
            }
            match &stages[i] {
                Err(error) => {
                    return Err(error.clone());
                },
                Ok(_) => {},
            }
            if i + 1 < self.pipeline.len() {
                if slice.outgoing_edge_indices.len() != 1 {
                    return Err(refuse_edges(slice));
                }
                assert(moved[i as int] == sequence::outcome(transfers@[i as int]));
                match &transfers[i] {
                    Err(error) => {
                        return Err(error.clone());
                    },
                    Ok(_) => {},
                }
            }
            i += 1;
        }
        Ok(())
    }

    /// What the stages of the pipeline do.
    #[verifier::loop_isolation(false)]
    fn list_stages(
        &self,
        slices: &Vec<VulkanResidentPlacedDeviceSlice>,
        input_token_ids: &Vec<u32>,
        stream_ticks: &Vec<u64>,
    ) -> (r: Vec<VulkanMultiStreamTickAction>)
        requires
            forall|i: int|
                0 <= i < self@.pipeline.len() ==> #[trigger] self@.pipeline[i] < slices@.len(),
        ensures
            r.deep_view() == stage_actions(
                self@,
                slices.deep_view(),
                input_token_ids@,
                stream_ticks@,
                self@.pipeline.len(),
            ),
    {
        let ghost all = slices.deep_view();
        let ghost tokens = input_token_ids@;
        let ghost ticks = stream_ticks@;
        assert(self@.pipeline =~= self.pipeline@);
        let mut actions: Vec<VulkanMultiStreamTickAction> = Vec::new();
        let mut i: usize = 0;
        assert(actions.deep_view() =~= Seq::empty());
        while i < self.pipeline.len()
            invariant
                i <= self.pipeline.len(),
                actions.deep_view() == stage_actions(self@, all, tokens, ticks, i as nat),
                !ends_in_failure(actions.deep_view()),
            decreases self.pipeline.len() - i,
        {
            let device_index: usize = self.pipeline[i];
            let slice = &slices[device_index];
            assert(all[device_index as int] == slice@);
            assert(slice@.outgoing_edge_indices =~= slice.outgoing_edge_indices@);
            let token_copy: Vec<u32> = input_token_ids.clone();
            let tick_copy: Vec<u64> = stream_ticks.clone();
            assert(token_copy.deep_view() =~= tokens);
            assert(tick_copy.deep_view() =~= ticks);
            let ghost before = actions.deep_view();
            let stage = VulkanMultiStreamTickAction::RunStage {
                device_index,
                device_id: slice.device_id.clone(),
                input_token_ids: token_copy,
                stream_ticks: tick_copy,
                dynamic_state_capacity_activations: self.dynamic_state_capacity_activations,
            };
            let ghost staged = before.push(stage@);
            actions.push(stage);
            assert(actions.deep_view() =~= staged);
            if i + 1 < self.pipeline.len() {
                if slice.outgoing_edge_indices.len() != 1 {
                    let error: VulkanResidentInProcessPlacedRuntimeError = refuse_edges(slice);
                    let failure = VulkanMultiStreamTickAction::Fail { error };
                    let ghost added = failure@;
                    actions.push(failure);
                    assert(actions.deep_view() =~= staged.push(added));
                    proof {
                        lemma_stage_actions_stop(
                            self@,
                            all,
                            tokens,
                            ticks,
                            (i + 1) as nat,
                            self@.pipeline.len(),
                        );
                    }
                    return actions;
                }
                let transfer = VulkanMultiStreamTickAction::TransferEdge {
                    source_device_index: device_index,
                    destination_device_index: self.pipeline[i + 1],
                    edge_index: slice.outgoing_edge_indices[0],
                };
                let ghost added = transfer@;
                actions.push(transfer);
                assert(actions.deep_view() =~= staged.push(added));
            }
            i += 1;
        }
        actions
    }

    /// What a tick does on the output device.
    #[verifier::loop_isolation(false)]
    fn list_output(
        &self,
        device_id: &str,
        input_token_ids: &Vec<u32>,
        stream_ticks: &Vec<u64>,
    ) -> (r: Vec<VulkanMultiStreamTickAction>)
        requires
            input_token_ids@.len() == stream_ticks@.len(),
        ensures
            r.deep_view() == output_actions(self@, device_id@, input_token_ids@, stream_ticks@),
    {
        let ghost tokens = input_token_ids@;
        let ghost ticks = stream_ticks@;
        let ghost expected = output_actions(self@, device_id@, tokens, ticks);
        let width: usize = input_token_ids.len();
        let mut actions: Vec<VulkanMultiStreamTickAction> = Vec::new();
        let mut k: usize = 0;
        assert(actions.deep_view() =~= expected.take(0));
        while k < width
            invariant
                k <= width,
                actions.deep_view() == expected.take(k as int),
            decreases width - k,
        {
            let ghost before = actions.deep_view();
            let action = VulkanMultiStreamTickAction::RecordInput {
                device_id: device_id.to_owned(),
                lane_index: k,
                input_token_id: input_token_ids[k],
            };
            let ghost added = action@;
            actions.push(action);
            assert(actions.deep_view() =~= before.push(added));
            assert(added == expected[k as int]);
            k += 1;
            assert(before.push(added) =~= expected.take(k as int));
        }
        let token_copy: Vec<u32> = input_token_ids.clone();
        let tick_copy: Vec<u64> = stream_ticks.clone();
        let capacities: Vec<u32> = batched_projection::uniform_capacities(
            self.dynamic_state_capacity_activations,
            width,
        );
        assert(token_copy.deep_view() =~= tokens);
        assert(tick_copy.deep_view() =~= ticks);
        assert(capacities.deep_view() =~= capacities@);
        let project = VulkanMultiStreamTickAction::ProjectFrames {
            device_id: device_id.to_owned(),
            batch_width: width,
        };
        let sample = VulkanMultiStreamTickAction::SampleStreams {
            device_id: device_id.to_owned(),
            input_token_ids: token_copy,
            stream_ticks: tick_copy,
            dynamic_state_capacities: capacities,
        };
        let ghost recorded = actions.deep_view();
        let ghost projected = project@;
        let ghost sampled = sample@;
        actions.push(project);
        actions.push(sample);
        assert(actions.deep_view() =~= recorded.push(projected).push(sampled));
        assert(expected[width as int] == projected);
        assert(expected[width + 1] == sampled);
        assert(recorded.push(projected).push(sampled) =~= expected.take(width + 2));
        let mut j: usize = 0;
        while j < width
            invariant
                j <= width,
                actions.deep_view() == expected.take(width + 2 + j),
            decreases width - j,
        {
            let ghost before = actions.deep_view();
            let action = VulkanMultiStreamTickAction::TakeRun {
                lane_index: j,
                stream_tick: stream_ticks[j],
            };
            let ghost added = action@;
            actions.push(action);
            assert(actions.deep_view() =~= before.push(added));
            assert(added == expected[width + 2 + j]);
            assert(before.push(added) =~= expected.take(width + 2 + j + 1));
            j += 1;
        }
        assert(expected.take(expected.len() as int) =~= expected);
        actions
    }

    /// What a tick of many streams does, in order, and what each part of it is handed. Where it comes
    /// to a point from which it cannot go on, the last action says why.
    pub fn tick_actions(
        &self,
        devices: &VulkanDeviceDirectory,
        processors: &Vec<VulkanResidentInProcessPlacedStreamProcessor>,
        input_token_ids: &Vec<u32>,
        stream_ticks: &Vec<u64>,
    ) -> (r: Result<Vec<VulkanMultiStreamTickAction>, VulkanResidentInProcessPlacedRuntimeError>)
        requires
            processors@.len() > 0 ==> forall|i: int|
                0 <= i < self@.pipeline.len() ==> #[trigger] self@.pipeline[i]
                    < processors.deep_view()[0].device_slices.len(),
        ensures
            sequence::outcome(r) == tick_actions(
                self@,
                devices@,
                processors.deep_view(),
                input_token_ids@,
                stream_ticks@,
            ),
    {
        let width: usize = processors.len();
        assert(processors.deep_view().len() == width);
        match refuse_lanes(width, input_token_ids.len(), stream_ticks.len()) {
            Some(error) => {
                return Err(error);
            },
            None => {},
        }
        if width == 0 {
            return Err(VulkanResidentInProcessPlacedRuntimeError::ZeroTickBudget);
        }
        let first = &processors[0];
        assert(processors.deep_view()[0] == first@);
        let input_device: &VulkanComputeDevice = match resolve_bound(
            devices,
            first.model.input_device_id.as_str(),
        ) {
            Err(error) => {
                return Err(error);
            },
            Ok(device) => device,
        };
        let token_copy: Vec<u32> = input_token_ids.clone();
        assert(token_copy.deep_view() =~= input_token_ids@);
        let embed = VulkanMultiStreamTickAction::EmbedTokens {
            device_id: input_device.device_id.clone(),
            input_token_ids: token_copy,
        };
        let ghost embedded = seq![embed@];
        let mut actions: Vec<VulkanMultiStreamTickAction> = vec![embed];
        assert(actions.deep_view() =~= embedded);
        assert(first@.device_slices.len() == first.device_slices@.len());
        let mut staged: Vec<VulkanMultiStreamTickAction> = self.list_stages(
            &first.device_slices,
            input_token_ids,
            stream_ticks,
        );
        let ghost stages = staged.deep_view();
        assert(stages.len() == staged@.len());
        let failed: bool = staged.len() > 0 && match &staged[staged.len() - 1] {
            VulkanMultiStreamTickAction::Fail { .. } => true,
            _ => false,
        };
        assert(staged@.len() > 0 ==> stages.last() == staged@.last()@);
        assert(failed == ends_in_failure(stages));
        actions.append(&mut staged);
        assert(actions.deep_view() =~= embedded + stages);
        if failed {
            return Ok(actions);
        }
        let ghost front = embedded + stages;
        match resolve_bound(devices, first.model.output_device_id.as_str()) {
            Err(error) => {
                let failure = VulkanMultiStreamTickAction::Fail { error };
                let ghost added = failure@;
                actions.push(failure);
                assert(actions.deep_view() =~= front.push(added));
            },
            Ok(output_device) => {
                let mut output: Vec<VulkanMultiStreamTickAction> = self.list_output(
                    output_device.device_id.as_str(),
                    input_token_ids,
                    stream_ticks,
                );
                let ghost added = output.deep_view();
                actions.append(&mut output);
                assert(actions.deep_view() =~= front + added);
            },
        }
        Ok(actions)
    }

    /// A tick of many streams, from what came of the parts that the devices and samplers carry out.
    #[verifier::loop_isolation(false)]
    pub fn run(
        &self,
        devices: &VulkanDeviceDirectory,
        processors: &Vec<VulkanResidentInProcessPlacedStreamProcessor>,
        input_token_ids: &Vec<u32>,
        stream_ticks: &Vec<u64>,
        embedded: &Result<(), VulkanResidentInProcessPlacedRuntimeError>,
        stages: &Vec<Result<(), VulkanResidentInProcessPlacedRuntimeError>>,
        transfers: &Vec<Result<(), VulkanResidentInProcessPlacedRuntimeError>>,
        recorded: &Vec<Result<(), VulkanResidentSamplerRunnerError>>,
        projected: &Result<(), VulkanResidentInProcessPlacedRuntimeError>,
        sampled: &Result<(), VulkanResidentInProcessPlacedRuntimeError>,
        completed: &Vec<Result<VulkanResidentSamplerRun, VulkanResidentSamplerRunnerError>>,
    ) -> (r: Result<
        VulkanResidentPlacedMultiStreamBatchRun,
        VulkanResidentInProcessPlacedRuntimeError,
    >)
        requires
            stages@.len() >= self@.pipeline.len(),
            transfers@.len() + 1 >= self@.pipeline.len(),
            recorded@.len() >= processors@.len(),
            completed@.len() >= processors@.len(),
            processors@.len() > 0 ==> forall|i: int|
                0 <= i < self@.pipeline.len() ==> #[trigger] self@.pipeline[i]
                    < processors.deep_view()[0].device_slices.len(),
        ensures
            sequence::outcome(r) == multi_stream_run(
                self@,
                devices@,
                processors.deep_view(),
                input_token_ids@.len(),
                stream_ticks@.len(),
                (TickAnswers {
                    embedded: sequence::outcome(*embedded),
                    stages: sequence::outcomes(stages@),
                    transfers: sequence::outcomes(transfers@),
                    recorded: sequence::outcomes(recorded@),
                    projected: sequence::outcome(*projected),
                    sampled: sequence::outcome(*sampled),
                    completed: sequence::outcomes(completed@),
                }),
            ),
    {
        let width: usize = processors.len();
        assert(processors.deep_view().len() == width);
        match refuse_lanes(width, input_token_ids.len(), stream_ticks.len()) {
            Some(error) => {
                return Err(error);
            },
            None => {},
        }
        if width == 0 {
            return Err(VulkanResidentInProcessPlacedRuntimeError::ZeroTickBudget);
        }
        let first = &processors[0];
        assert(processors.deep_view()[0] == first@);
        match resolve_bound(devices, first.model.input_device_id.as_str()) {
            Err(error) => {
                return Err(error);
            },
            Ok(_) => {},
        }
        match embedded {
            Err(error) => {
                return Err(error.clone());
            },
            Ok(_) => {},
        }
        assert(first@.device_slices.len() == first.device_slices@.len());
        match self.run_stages(&first.device_slices, stages, transfers) {
            Err(error) => {
                return Err(error);
            },
            Ok(()) => {},
        }
        match resolve_bound(devices, first.model.output_device_id.as_str()) {
            Err(error) => {
                return Err(error);
            },
            Ok(_) => {},
        }
        let ghost inputs = sequence::outcomes(recorded@).take(width as int);
        let mut i: usize = 0;
        assert(inputs.take(0) =~= Seq::empty());
        while i < width
            invariant
                i <= width,
                sequence::try_map(inputs.take(i as int), recorded_input()) is Ok,
            decreases width - i,
        {
            proof {
                sequence::lemma_try_map_step(inputs, recorded_input(), i as int);
                if sequence::try_map(inputs.take(i + 1), recorded_input()) is Err {
                    sequence::lemma_try_map_error(inputs, recorded_input(), i + 1);
                }
                assert(inputs[i as int] == sequence::outcome(recorded@[i as int]));
            }
            match &recorded[i] {
                Err(error) => {
                    return Err(VulkanResidentInProcessPlacedRuntimeError::Sampler(error.clone()));
                },
                Ok(_) => {},
            }
            i += 1;
        }
        assert(inputs.take(width as int) =~= inputs);
        match projected {
            Err(error) => {
                return Err(error.clone());
            },
            Ok(_) => {},
        }
        match sampled {
            Err(error) => {
                return Err(error.clone());
            },
            Ok(_) => {},
        }
        let ghost outputs = sequence::outcomes(completed@).take(width as int);
        let mut sampled_token_ids: Vec<u32> = Vec::new();
        let mut k: usize = 0;
        assert(outputs.take(0) =~= Seq::empty());
        assert(sampled_token_ids.deep_view() =~= Seq::empty());
        while k < width
            invariant
                k <= width,
                sequence::try_map(outputs.take(k as int), sampled_token()) is Ok,
                sequence::try_map(outputs.take(k as int), sampled_token())->Ok_0
                    == sampled_token_ids.deep_view(),
            decreases width - k,
        {
            proof {
                sequence::lemma_try_map_step(outputs, sampled_token(), k as int);
                if sequence::try_map(outputs.take(k + 1), sampled_token()) is Err {
                    sequence::lemma_try_map_error(outputs, sampled_token(), k + 1);
                }
                assert(outputs[k as int] == sequence::outcome(completed@[k as int]));
            }
            match &completed[k] {
                Err(error) => {
                    return Err(VulkanResidentInProcessPlacedRuntimeError::Sampler(error.clone()));
                },
                Ok(run) => {
                    let ghost before = sampled_token_ids.deep_view();
                    sampled_token_ids.push(run.token_id);
                    assert(sampled_token_ids.deep_view() =~= before.push(run.token_id));
                },
            }
            k += 1;
        }
        assert(outputs.take(width as int) =~= outputs);
        Ok(
            VulkanResidentPlacedMultiStreamBatchRun {
                sampled_token_ids,
                scheduler_turn_count_per_tick: self.scheduler_turn_count_per_tick,
                completed_stage_count_per_tick: self.completed_stage_count_per_tick,
            },
        )
    }
}

proof fn lemma_stages_settle(
    runner: VulkanResidentPlacedMultiStreamBatchRunnerView,
    slices: Seq<VulkanResidentPlacedDeviceSliceView>,
    tokens: Seq<u32>,
    ticks: Seq<u64>,
    answers: TickAnswers,
    n: nat,
)
    requires
        n <= runner.pipeline.len() <= answers.stages.len(),
        runner.pipeline.len() <= answers.transfers.len() + 1,
        forall|i: int| 0 <= i < n ==> (#[trigger] answers.stages[i]) is Ok,
        forall|i: int| 0 <= i < n && i + 1 < runner.pipeline.len() ==> (
        #[trigger] answers.transfers[i]) is Ok,
    ensures
        ({
            let actions = stage_actions(runner, slices, tokens, ticks, n);
            stages_run(runner.pipeline, slices, answers.stages, answers.transfers, n) == (
            if ends_in_failure(actions) {
                Err::<(), VulkanResidentInProcessPlacedRuntimeErrorView>(
                    actions.last()->Fail_error,
                )
            } else {
                Ok(())
            })
        }),
    decreases n,
{
    if n > 0 {
        lemma_stages_settle(runner, slices, tokens, ticks, answers, (n - 1) as nat);
        assert(answers.stages[n - 1] is Ok);
        if n < runner.pipeline.len() {
            assert(answers.transfers[n - 1] is Ok);
            assert(answers.transfers[n - 1]->Ok_0 == ());
        }
    }
}

/// Where all parts of a tick were carried out, its result is settled by its actions: it fails as they
/// do, and otherwise gives each stream the token that its sampler chose.
pub proof fn actions_settle_the_tick(
    runner: VulkanResidentPlacedMultiStreamBatchRunnerView,
    directory: VulkanDeviceDirectoryView,
    processors: Seq<VulkanResidentInProcessPlacedStreamProcessorView>,
    tokens: Seq<u32>,
    ticks: Seq<u64>,
    answers: TickAnswers,
)
    requires
        answers.embedded is Ok,
        answers.projected is Ok,
        answers.sampled is Ok,
        answers.stages.len() >= runner.pipeline.len(),
        answers.transfers.len() + 1 >= runner.pipeline.len(),
        answers.recorded.len() >= processors.len(),
        answers.completed.len() >= processors.len(),
        forall|i: int| 0 <= i < runner.pipeline.len() ==> (#[trigger] answers.stages[i]) is Ok,
        forall|i: int| 0 <= i < runner.pipeline.len() - 1 ==> (#[trigger] answers.transfers[i]) is Ok,
        forall|k: int| 0 <= k < processors.len() ==> (#[trigger] answers.recorded[k]) is Ok,
        forall|k: int| 0 <= k < processors.len() ==> (#[trigger] answers.completed[k]) is Ok,
    ensures
        ({
            let run = multi_stream_run(
                runner,
                directory,
                processors,
                tokens.len(),
                ticks.len(),
                answers,
            );
            match tick_actions(runner, directory, processors, tokens, ticks) {
                Err(error) => run == Err::<
                    VulkanResidentPlacedMultiStreamBatchRunView,
                    VulkanResidentInProcessPlacedRuntimeErrorView,
                >(error),
                Ok(actions) => if ends_in_failure(actions) {
                    run == Err::<
                        VulkanResidentPlacedMultiStreamBatchRunView,
                        VulkanResidentInProcessPlacedRuntimeErrorView,
                    >(actions.last()->Fail_error)
                } else {
                    &&& run is Ok
                    &&& run->Ok_0.sampled_token_ids == Seq::new(
                        processors.len(),
                        |k: int| answers.completed[k]->Ok_0.token_id,
                    )
                },
            }
        }),
{
    let width = processors.len();
    if lanes_error(width, tokens.len(), ticks.len()) is None && width > 0 {
        let slices = processors[0].device_slices;
        let n = runner.pipeline.len();
        let staged = stage_actions(runner, slices, tokens, ticks, n);
        lemma_stages_settle(runner, slices, tokens, ticks, answers, n);
        let recorded = answers.recorded.take(width as int);
        let completed = answers.completed.take(width as int);
        lemma_all_taken(recorded, recorded_input());
        lemma_all_taken(completed, sampled_token());
        match bound_device(directory, processors[0].model.input_device_id) {
            Err(_) => {},
            Ok(device_id) => {
                let front = seq![
                    VulkanMultiStreamTickActionView::EmbedTokens {
                        device_id,
                        input_token_ids: tokens,
                    },
                ] + staged;
                assert(ends_in_failure(staged) ==> front.last() == staged.last());
                match bound_device(directory, processors[0].model.output_device_id) {
                    Err(_) => {},
                    Ok(device_id) => {
                        let output = output_actions(runner, device_id, tokens, ticks);
                        assert((front + output).last() == output.last());
                        assert(output.last() is TakeRun);
                    },
                }
                if sequence::try_map(completed, sampled_token()) is Ok {
                    sequence::lemma_try_map_ok(completed, sampled_token());
                    assert(sequence::try_map(completed, sampled_token())->Ok_0 =~= Seq::new(
                        width,
                        |k: int| answers.completed[k]->Ok_0.token_id,
                    )) by {
                        assert forall|k: int| 0 <= k < width implies #[trigger] sequence::try_map(
                            completed,
                            sampled_token(),
                        )->Ok_0[k] == answers.completed[k]->Ok_0.token_id by {
                            assert(completed[k] == answers.completed[k]);
                        }
                    }
                }
            },
        }
    }
}

proof fn lemma_all_taken<A, B, E, F>(s: Seq<Result<A, E>>, f: spec_fn(Result<A, E>) -> Result<B, F>)
    requires
        forall|i: int| 0 <= i < s.len() ==> f(#[trigger] s[i]) is Ok,
    ensures
        sequence::try_map(s, f) is Ok,
    decreases s.len(),
{
    if s.len() > 0 {
        assert(f(s[s.len() - 1]) is Ok);
        assert forall|i: int| 0 <= i < s.drop_last().len() implies f(
            #[trigger] s.drop_last()[i],
        ) is Ok by {
            assert(f(s[i]) is Ok);
        }
        lemma_all_taken(s.drop_last(), f);
    }
}

/// A tick gives every stream exactly one token.
pub proof fn every_stream_gets_a_token(
    runner: VulkanResidentPlacedMultiStreamBatchRunnerView,
    directory: VulkanDeviceDirectoryView,
    processors: Seq<VulkanResidentInProcessPlacedStreamProcessorView>,
    tokens: nat,
    ticks: nat,
    answers: TickAnswers,
)
    requires
        answers.completed.len() >= processors.len(),
        multi_stream_run(runner, directory, processors, tokens, ticks, answers) is Ok,
    ensures
        multi_stream_run(
            runner,
            directory,
            processors,
            tokens,
            ticks,
            answers,
        )->Ok_0.sampled_token_ids.len() == processors.len(),
        tokens == processors.len(),
        ticks == processors.len(),
{
    let outputs = answers.completed.take(processors.len() as int);
    sequence::lemma_try_map_ok(outputs, sampled_token());
}

proof fn lemma_stage_actions(
    runner: VulkanResidentPlacedMultiStreamBatchRunnerView,
    slices: Seq<VulkanResidentPlacedDeviceSliceView>,
    tokens: Seq<u32>,
    ticks: Seq<u64>,
    n: nat,
    s: int,
)
    requires
        n <= runner.pipeline.len(),
    ensures
        ({
            let actions = stage_actions(runner, slices, tokens, ticks, n);
            let last = runner.pipeline.len() as int;
            !ends_in_failure(actions) ==> {
                &&& actions.len() == (if n == 0 {
                    0int
                } else if n == last {
                    2 * n - 1
                } else {
                    2 * n as int
                })
                &&& 0 <= s < n ==> actions[2 * s] == (VulkanMultiStreamTickActionView::RunStage {
                    device_index: runner.pipeline[s],
                    device_id: slices[runner.pipeline[s] as int].device_id,
                    input_token_ids: tokens,
                    stream_ticks: ticks,
                    dynamic_state_capacity_activations: runner.dynamic_state_capacity_activations,
                })
                &&& 0 <= s < n && s < last - 1 ==> {
                    &&& slices[runner.pipeline[s] as int].outgoing_edge_indices.len() == 1
                    &&& actions[2 * s + 1] == (VulkanMultiStreamTickActionView::TransferEdge {
                        source_device_index: runner.pipeline[s],
                        destination_device_index: runner.pipeline[s + 1],
                        edge_index: slices[runner.pipeline[s] as int].outgoing_edge_indices[0],
                    })
                }
            }
        }),
    decreases n,
{
    if n > 0 {
        lemma_stage_actions(runner, slices, tokens, ticks, (n - 1) as nat, s);
    }
}

/// A tick of several streams embeds the tokens on the device of the model's input, runs the stages of
/// its pipeline one after the other, and hands the frames over one edge from each stage to the next.
/// Then, on the device of the model's output, it records every lane's input, projects the frames,
/// samples the streams, and takes every lane's run. Lanes keep their order throughout.
pub proof fn ticks_run_the_pipeline_in_order(
    runner: VulkanResidentPlacedMultiStreamBatchRunnerView,
    directory: VulkanDeviceDirectoryView,
    processors: Seq<VulkanResidentInProcessPlacedStreamProcessorView>,
    tokens: Seq<u32>,
    ticks: Seq<u64>,
    s: int,
    k: int,
)
    requires
        tick_actions(runner, directory, processors, tokens, ticks) is Ok,
        !ends_in_failure(tick_actions(runner, directory, processors, tokens, ticks)->Ok_0),
        runner.pipeline.len() > 0,
        processors.len() <= usize::MAX,
        0 <= s,
        0 <= k,
    ensures
        ({
            let actions = tick_actions(runner, directory, processors, tokens, ticks)->Ok_0;
            let slices = processors[0].device_slices;
            let model = processors[0].model;
            let stages = runner.pipeline.len();
            let width = processors.len() as int;
            let output = 2 * stages as int;
            &&& tokens.len() == width
            &&& ticks.len() == width
            &&& directory.find(model.input_device_id) is Some
            &&& directory.find(model.output_device_id) is Some
            &&& actions.len() == 2 * stages + width + 2 + width
            &&& actions[0] == (VulkanMultiStreamTickActionView::EmbedTokens {
                device_id: directory.find(model.input_device_id)->Some_0.device_id,
                input_token_ids: tokens,
            })
            &&& s < stages ==> actions[1 + 2 * s] == (VulkanMultiStreamTickActionView::RunStage {
                device_index: runner.pipeline[s],
                device_id: slices[runner.pipeline[s] as int].device_id,
                input_token_ids: tokens,
                stream_ticks: ticks,
                dynamic_state_capacity_activations: runner.dynamic_state_capacity_activations,
            })
            &&& s < stages - 1 ==> {
                &&& slices[runner.pipeline[s] as int].outgoing_edge_indices.len() == 1
                &&& actions[2 + 2 * s] == (VulkanMultiStreamTickActionView::TransferEdge {
                    source_device_index: runner.pipeline[s],
                    destination_device_index: runner.pipeline[s + 1],
                    edge_index: slices[runner.pipeline[s] as int].outgoing_edge_indices[0],
                })
            }
            &&& k < width ==> actions[output + k] == (VulkanMultiStreamTickActionView::RecordInput {
                device_id: directory.find(model.output_device_id)->Some_0.device_id,
                lane_index: k as usize,
                input_token_id: tokens[k],
            })
            &&& actions[output + width] == (VulkanMultiStreamTickActionView::ProjectFrames {
                device_id: directory.find(model.output_device_id)->Some_0.device_id,
                batch_width: width as usize,
            })
            &&& actions[output + width + 1] matches VulkanMultiStreamTickActionView::SampleStreams {
                device_id,
                input_token_ids,
                stream_ticks,
                dynamic_state_capacities,
            } && {
                &&& device_id == directory.find(model.output_device_id)->Some_0.device_id
                &&& input_token_ids == tokens
                &&& stream_ticks == ticks
                &&& dynamic_state_capacities.len() == width
                &&& k < width ==> dynamic_state_capacities[k]
                    == runner.dynamic_state_capacity_activations
            }
            &&& k < width ==> actions[output + width + 2 + k] == (
            VulkanMultiStreamTickActionView::TakeRun {
                lane_index: k as usize,
                stream_tick: ticks[k],
            })
        }),
{
    let first = processors[0];
    let stages = runner.pipeline.len();
    let staged = stage_actions(runner, first.device_slices, tokens, ticks, stages);
    let actions = tick_actions(runner, directory, processors, tokens, ticks)->Ok_0;
    if ends_in_failure(staged) {
        assert(actions.last() == staged.last());
    }
    lemma_stage_actions(runner, first.device_slices, tokens, ticks, stages, s);
    if s < stages {
        assert(actions[1 + 2 * s] == staged[2 * s]);
    }
    if s < stages - 1 {
        assert(actions[2 + 2 * s] == staged[2 * s + 1]);
    }
}

/// The input side of a batch embeds with the model's own tensor and kernel, on the device of the
/// model's input, into the frames that the batch has for the model's input on the given device.
pub proof fn input_sides_use_the_model_input(
    directory: VulkanDeviceDirectoryView,
    model: VulkanResidentPlacedModelView,
    graph: VulkanResidentPlacedComponentBatchRunnerView,
    device_index: usize,
    width: usize,
)
    requires
        input_side(directory, model, graph, device_index, width) is Ok,
        model.input_transducer_spec.local_size_x > 0,
    ensures
        ({
            let side = input_side(directory, model, graph, device_index, width)->Ok_0;
            let launch = side.dispatch;
            let key = VulkanComponentBatchSignalKeyView::ModelInput(
                model.input_transducer_spec.output_signal_id,
            );
            &&& side.batch_capacity == width
            &&& directory.find(model.input_device_id) is Some
            &&& launch.device_id == directory.find(model.input_device_id)->Some_0.device_id
            &&& launch.spirv_words == model.input_transducer_batch_spirv_words
            &&& device_index < graph.slices.len()
            &&& batch_runner::buffer_of(graph.slices[device_index as int], key) is Some
            &&& launch.bindings[1].buffer == batch_runner::buffer_of(
                graph.slices[device_index as int],
                key,
            )->Some_0.buffer
            &&& exists|t: int|
                0 <= t < model.input_transducer_parameter_buffers.buffers.len() && {
                    let weight = #[trigger] model.input_transducer_parameter_buffers.buffers[t];
                    &&& weight.parameter.tensor == model.input_transducer_spec.parameter_tensor
                    &&& launch.bindings[0].buffer == weight.buffer
                }
        }),
{
    reveal(input_side);
    let settings = model.input_transducer_spec;
    let t = sequence::lemma_find_first_some(
        model.input_transducer_parameter_buffers.buffers,
        resident_plan::tensor_matcher(settings.parameter_tensor),
    );
    let weight = model.input_transducer_parameter_buffers.buffers[t];
    let signal = device_signal(
        graph,
        device_index,
        VulkanComponentBatchSignalKeyView::ModelInput(settings.output_signal_id),
    )->Ok_0;
    input_transducer::batched_embeddings_write_only_the_frames(
        bound_device(directory, model.input_device_id)->Ok_0,
        width,
        weight,
        signal.buffer,
        model.input_transducer_batch_spirv_words,
        settings,
    );
}

/// The output side of a batch normalizes with the model's norm tensor and projects with its
/// projection tensor, on the device of the model's output, from the frames that the batch has for the
/// model's output on the given device, in the model's own tiles.
pub proof fn output_sides_use_the_model_output(
    directory: VulkanDeviceDirectoryView,
    model: VulkanResidentPlacedModelView,
    graph: VulkanResidentPlacedComponentBatchRunnerView,
    device_index: usize,
    scale: Result<
        Option<VulkanPermanentParameterBufferAllocationView>,
        VulkanResidentOutputTransducerRunnerErrorView,
    >,
)
    requires
        output_side(directory, model, graph, device_index, scale) is Ok,
    ensures
        ({
            let side = output_side(directory, model, graph, device_index, scale)->Ok_0;
            let settings = model.output_transducer_spec;
            let key = VulkanComponentBatchSignalKeyView::ModelOutput(settings.input_signal_id);
            &&& directory.find(model.output_device_id) is Some
            &&& side.device_id == directory.find(model.output_device_id)->Some_0.device_id
            &&& scale is Ok
            &&& side.scale == scale->Ok_0
            &&& side.parts.norm_tile_width == model.embedding_norm_batch_lane_tile_width
            &&& side.parts.tile_width == model.projection_batch_lane_tile_width
            &&& side.parts.norm_weight.parameter.tensor == settings.norm_parameter_tensor
            &&& side.parts.weight.parameter.tensor == settings.projection_parameter_tensor
            &&& model.output_transducer_parameter_buffers.buffers.contains(side.parts.norm_weight)
            &&& model.output_transducer_parameter_buffers.buffers.contains(side.parts.weight)
            &&& device_index < graph.slices.len()
            &&& batch_runner::buffer_of(graph.slices[device_index as int], key) is Some
            &&& side.parts.frames == batch_runner::buffer_of(
                graph.slices[device_index as int],
                key,
            )->Some_0.buffer
        }),
{
    reveal(output_side);
    let settings = model.output_transducer_spec;
    let norm = sequence::lemma_find_first_some(
        model.output_transducer_parameter_buffers.buffers,
        resident_plan::tensor_matcher(settings.norm_parameter_tensor),
    );
    let projection = sequence::lemma_find_first_some(
        model.output_transducer_parameter_buffers.buffers,
        resident_plan::tensor_matcher(settings.projection_parameter_tensor),
    );
}

/// A batch of streams enters at the first stage of its pipeline and leaves at the last. All of its
/// lanes share one mounted model with one capacity, and none decodes speculatively. It has a lane of
/// its output for every sampler.
pub proof fn batches_enter_first_and_leave_last(
    directory: VulkanDeviceDirectoryView,
    processors: Seq<VulkanResidentInProcessPlacedStreamProcessorView>,
    pipeline: Result<Seq<usize>, VulkanResidentInProcessPlacedRuntimeErrorView>,
    graph: Result<
        VulkanResidentPlacedComponentBatchRunnerView,
        VulkanResidentInProcessPlacedRuntimeErrorView,
    >,
    scale: Result<
        Option<VulkanPermanentParameterBufferAllocationView>,
        VulkanResidentOutputTransducerRunnerErrorView,
    >,
    scale_checked: Result<(), VulkanResidentOutputTransducerRunnerErrorView>,
    samplers: Seq<Result<Seq<VulkanResidentKernelDispatchView>, Seq<char>>>,
    i: int,
)
    requires
        multi_stream_runner(
            directory,
            processors,
            pipeline,
            graph,
            scale,
            scale_checked,
            samplers,
        ) is Ok,
        0 <= i < processors.len(),
    ensures
        ({
            let runner = multi_stream_runner(
                directory,
                processors,
                pipeline,
                graph,
                scale,
                scale_checked,
                samplers,
            )->Ok_0;
            let model = processors[0].model;
            let stages = runner.pipeline;
            let output = output_side(
                directory,
                model,
                runner.execution_graph,
                stages[stages.len() - 1],
                scale,
            );
            &&& pipeline is Ok
            &&& stages == pipeline->Ok_0
            &&& stages.len() > 0
            &&& graph is Ok
            &&& runner.execution_graph == graph->Ok_0
            &&& input_side(
                directory,
                model,
                runner.execution_graph,
                stages[0],
                processors.len() as usize,
            ) is Ok
            &&& runner.input_embedding == input_side(
                directory,
                model,
                runner.execution_graph,
                stages[0],
                processors.len() as usize,
            )->Ok_0
            &&& output is Ok
            &&& runner.output_projection.norm_dispatch.spirv_words
                == model.embedding_norm_batch_spirv_words
            &&& runner.output_projection.projection_dispatch.spirv_words
                == model.tied_projection_batch_spirv_words
            &&& runner.output_projection.norm_dispatch.bindings[0].buffer
                == output->Ok_0.parts.frames
            &&& runner.output_projection.projection_dispatch.bindings[1].buffer
                == output->Ok_0.parts.weight.buffer
            &&& runner.output_projection.batch_capacity == samplers.len() as usize
            &&& runner.dynamic_state_capacity_activations
                == model.dynamic_state_capacity_activations
            &&& runner.scheduler_turn_count_per_tick == processors[0].activation_turn_count
            &&& processors[i].model.mount_id == model.mount_id
            &&& processors[i].model.dynamic_state_capacity_activations
                == model.dynamic_state_capacity_activations
            &&& processors[i].speculative_decoder_count == 0
        }),
{
    let frame = batch_frame(directory, processors, pipeline, graph, scale)->Ok_0;
    let model = processors[0].model;
    let kernels = BatchedOutputKernels {
        scale: frame.output.scale,
        norm_words: model.embedding_norm_batch_spirv_words,
        words: model.tied_projection_batch_spirv_words,
    };
    batched_projection::batched_norms_write_only_the_normalized_frames(
        frame.output.device_id,
        samplers.len() as usize,
        frame.output.parts,
        kernels,
        model.output_transducer_spec,
        scale_checked,
        samplers,
    );
    batched_projection::batched_projections_write_only_the_logits(
        frame.output.device_id,
        samplers.len() as usize,
        frame.output.parts,
        kernels,
        model.output_transducer_spec,
        scale_checked,
        samplers,
    );
    assert(!stands_apart(processors[0])(processors[i]));
}

/// A tick that has run gives every lane the token that its own sampler gave, and needs every answer
/// that it asked for.
pub proof fn lanes_get_their_own_token(
    runner: VulkanResidentPlacedMultiStreamBatchRunnerView,
    directory: VulkanDeviceDirectoryView,
    processors: Seq<VulkanResidentInProcessPlacedStreamProcessorView>,
    tokens: nat,
    ticks: nat,
    answers: TickAnswers,
    k: int,
)
    requires
        answers.completed.len() >= processors.len(),
        answers.recorded.len() >= processors.len(),
        multi_stream_run(runner, directory, processors, tokens, ticks, answers) is Ok,
        0 <= k < processors.len(),
    ensures
        ({
            let run = multi_stream_run(
                runner,
                directory,
                processors,
                tokens,
                ticks,
                answers,
            )->Ok_0;
            &&& answers.embedded is Ok
            &&& answers.recorded[k] is Ok
            &&& answers.projected is Ok
            &&& answers.sampled is Ok
            &&& answers.completed[k] is Ok
            &&& run.sampled_token_ids[k] == answers.completed[k]->Ok_0.token_id
            &&& run.scheduler_turn_count_per_tick == runner.scheduler_turn_count_per_tick
            &&& run.completed_stage_count_per_tick == runner.completed_stage_count_per_tick
        }),
{
    let width = processors.len() as int;
    let completed = answers.completed.take(width);
    let recorded = answers.recorded.take(width);
    sequence::lemma_try_map_ok(completed, sampled_token());
    sequence::lemma_try_map_ok(recorded, recorded_input());
    assert(sampled_token()(completed[k]) is Ok);
    assert(recorded_input()(recorded[k]) is Ok);
}

} // verus!
