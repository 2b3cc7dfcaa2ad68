//! The output transducer for a batch of frames, with a sampler for every lane.

use crate::arithmetic;
use crate::circuit_mount::VulkanMountedPlacedStreamCircuitView;
use crate::device::VulkanComputeDevice;
use crate::device::VulkanError;
use crate::device::VulkanResidentBuffer;
use crate::device::VulkanResidentBufferName;
use crate::device::VulkanResidentBufferView;
use crate::device::VulkanResidentKernelBufferAccess;
use crate::device::VulkanResidentKernelBufferBinding;
use crate::device::VulkanResidentKernelDispatch;
use crate::device::VulkanResidentKernelDispatchView;
use crate::device::VulkanResidentKernelSequenceStep;
use crate::device::VulkanResidentKernelSequenceStepView;
use crate::device;
use crate::input_transducer;
use crate::output_transducer::VulkanResidentOutputTransducerRunnerError;
use crate::output_transducer::VulkanResidentOutputTransducerRunnerErrorView;
use crate::output_transducer::VulkanResidentOutputTransducerSpec;
use crate::output_transducer::VulkanResidentOutputTransducerSpecView;
use crate::output_transducer;
use crate::resident_plan::VulkanPermanentParameterBufferAllocation;
use crate::resident_plan::VulkanPermanentParameterBufferAllocationView;
use crate::runtime_error::VulkanResidentInProcessPlacedRuntimeError;
use crate::runtime_error::VulkanResidentInProcessPlacedRuntimeErrorView;
use crate::runtime_error::VulkanResidentSamplerRunnerError;
use crate::sequence;
use crate::text::Message;
use crate::text;
use vstd::prelude::*;

verus! {

/// What a sampler is asked for: to read the logits of a lane out of the batch's logits, from this
/// offset on.
#[derive(Debug, PartialEq, Eq)]
pub struct VulkanResidentSamplerLogitsRequest {
    pub lane_index: usize,
    pub batched_logits_buffer: VulkanResidentBuffer,
    pub logits_byte_offset: usize,
}

#[verifier::ext_equal]
pub struct VulkanResidentSamplerLogitsRequestView {
    pub lane_index: usize,
    pub batched_logits_buffer: VulkanResidentBufferView,
    pub logits_byte_offset: usize,
}

impl DeepView for VulkanResidentSamplerLogitsRequest {
    type V = VulkanResidentSamplerLogitsRequestView;

    open spec fn deep_view(&self) -> VulkanResidentSamplerLogitsRequestView {
        VulkanResidentSamplerLogitsRequestView {
            lane_index: self.lane_index,
            batched_logits_buffer: self.batched_logits_buffer.deep_view(),
            logits_byte_offset: self.logits_byte_offset,
        }
    }
}

impl View for VulkanResidentSamplerLogitsRequest {
    type V = VulkanResidentSamplerLogitsRequestView;

    open spec fn view(&self) -> VulkanResidentSamplerLogitsRequestView {
        self.deep_view()
    }
}

impl Clone for VulkanResidentSamplerLogitsRequest {
    fn clone(&self) -> (r: Self)
        ensures
            r@ == self@,
    {
        VulkanResidentSamplerLogitsRequest {
            lane_index: self.lane_index,
            batched_logits_buffer: self.batched_logits_buffer.clone(),
            logits_byte_offset: self.logits_byte_offset,
        }
    }
}

/// A sampler that reads its logits out of a batch.
#[derive(Debug, PartialEq, Eq)]
pub struct VulkanResidentSamplerLogitsView {
    pub logits_byte_offset: usize,
    pub dispatches: Vec<VulkanResidentKernelDispatch>,
}

#[verifier::ext_equal]
pub struct VulkanResidentSamplerLogitsViewView {
    pub logits_byte_offset: usize,
    pub dispatches: Seq<VulkanResidentKernelDispatchView>,
}

impl DeepView for VulkanResidentSamplerLogitsView {
    type V = VulkanResidentSamplerLogitsViewView;

    open spec fn deep_view(&self) -> VulkanResidentSamplerLogitsViewView {
        VulkanResidentSamplerLogitsViewView {
            logits_byte_offset: self.logits_byte_offset,
            dispatches: self.dispatches.deep_view(),
        }
    }
}

impl View for VulkanResidentSamplerLogitsView {
    type V = VulkanResidentSamplerLogitsViewView;

    open spec fn view(&self) -> VulkanResidentSamplerLogitsViewView {
        self.deep_view()
    }
}

impl Clone for VulkanResidentSamplerLogitsView {
    fn clone(&self) -> (r: Self)
        ensures
            r@ == self@,
    {
        VulkanResidentSamplerLogitsView {
            logits_byte_offset: self.logits_byte_offset,
            dispatches: self.dispatches.clone(),
        }
    }
}

/// The output transducer for a batch of frames.
#[derive(Debug, PartialEq, Eq)]
pub struct VulkanResidentBatchedOutputProjectionRunner {
    pub batch_capacity: usize,
    pub normalized_frames_buffer: VulkanResidentBuffer,
    pub batched_logits_buffer: VulkanResidentBuffer,
    pub norm_dispatch: VulkanResidentKernelDispatch,
    pub projection_dispatch: VulkanResidentKernelDispatch,
    pub sampler_views: Vec<VulkanResidentSamplerLogitsView>,
}

#[verifier::ext_equal]
pub struct VulkanResidentBatchedOutputProjectionRunnerView {
    pub batch_capacity: usize,
    pub normalized_frames_buffer: VulkanResidentBufferView,
    pub batched_logits_buffer: VulkanResidentBufferView,
    pub norm_dispatch: VulkanResidentKernelDispatchView,
    pub projection_dispatch: VulkanResidentKernelDispatchView,
    pub sampler_views: Seq<VulkanResidentSamplerLogitsViewView>,
}

impl DeepView for VulkanResidentBatchedOutputProjectionRunner {
    type V = VulkanResidentBatchedOutputProjectionRunnerView;

    open spec fn deep_view(&self) -> VulkanResidentBatchedOutputProjectionRunnerView {
        VulkanResidentBatchedOutputProjectionRunnerView {
            batch_capacity: self.batch_capacity,
            normalized_frames_buffer: self.normalized_frames_buffer.deep_view(),
            batched_logits_buffer: self.batched_logits_buffer.deep_view(),
            norm_dispatch: self.norm_dispatch.deep_view(),
            projection_dispatch: self.projection_dispatch.deep_view(),
            sampler_views: self.sampler_views.deep_view(),
        }
    }
}

impl View for VulkanResidentBatchedOutputProjectionRunner {
    type V = VulkanResidentBatchedOutputProjectionRunnerView;

    open spec fn view(&self) -> VulkanResidentBatchedOutputProjectionRunnerView {
        self.deep_view()
    }
}

impl Clone for VulkanResidentBatchedOutputProjectionRunner {
    fn clone(&self) -> (r: Self)
        ensures
            r@ == self@,
    {
        VulkanResidentBatchedOutputProjectionRunner {
            batch_capacity: self.batch_capacity,
            normalized_frames_buffer: self.normalized_frames_buffer.clone(),
            batched_logits_buffer: self.batched_logits_buffer.clone(),
            norm_dispatch: self.norm_dispatch.clone(),
            projection_dispatch: self.projection_dispatch.clone(),
            sampler_views: self.sampler_views.clone(),
        }
    }
}

/// What a lane of a batch hands to its sampler.
#[derive(Debug, PartialEq, Eq)]
pub struct VulkanResidentSamplerLane {
    pub lane_index: usize,
    pub token_prefix: Vec<u32>,
    pub stream_tick: u64,
    pub dynamic_state_capacity_activations: u32,
    pub signals_completion: bool,
}

#[verifier::ext_equal]
pub struct VulkanResidentSamplerLaneView {
    pub lane_index: usize,
    pub token_prefix: Seq<u32>,
    pub stream_tick: u64,
    pub dynamic_state_capacity_activations: u32,
    pub signals_completion: bool,
}

impl DeepView for VulkanResidentSamplerLane {
    type V = VulkanResidentSamplerLaneView;

    open spec fn deep_view(&self) -> VulkanResidentSamplerLaneView {
        VulkanResidentSamplerLaneView {
            lane_index: self.lane_index,
            token_prefix: self.token_prefix.deep_view(),
            stream_tick: self.stream_tick,
            dynamic_state_capacity_activations: self.dynamic_state_capacity_activations,
            signals_completion: self.signals_completion,
        }
    }
}

impl View for VulkanResidentSamplerLane {
    type V = VulkanResidentSamplerLaneView;

    open spec fn view(&self) -> VulkanResidentSamplerLaneView {
        self.deep_view()
    }
}

impl Clone for VulkanResidentSamplerLane {
    fn clone(&self) -> (r: Self)
        ensures
            r@ == self@,
    {
        VulkanResidentSamplerLane {
            lane_index: self.lane_index,
            token_prefix: self.token_prefix.clone(),
            stream_tick: self.stream_tick,
            dynamic_state_capacity_activations: self.dynamic_state_capacity_activations,
            signals_completion: self.signals_completion,
        }
    }
}

/// Why a lane could not be prepared.
#[derive(Debug, PartialEq, Eq)]
pub enum VulkanResidentSamplerLaneFailure {
    Sampler(VulkanResidentSamplerRunnerError),
    Device(VulkanError),
}

#[verifier::ext_equal]
pub enum VulkanResidentSamplerLaneFailureView {
    Sampler(Seq<char>),
    Device(Seq<char>),
}

impl DeepView for VulkanResidentSamplerLaneFailure {
    type V = VulkanResidentSamplerLaneFailureView;

    open spec fn deep_view(&self) -> VulkanResidentSamplerLaneFailureView {
        match self {
            VulkanResidentSamplerLaneFailure::Sampler(value) => VulkanResidentSamplerLaneFailureView::Sampler(value.deep_view()),
            VulkanResidentSamplerLaneFailure::Device(value) => VulkanResidentSamplerLaneFailureView::Device(value.deep_view()),
        }
    }
}

impl View for VulkanResidentSamplerLaneFailure {
    type V = VulkanResidentSamplerLaneFailureView;

    open spec fn view(&self) -> VulkanResidentSamplerLaneFailureView {
        self.deep_view()
    }
}

impl Clone for VulkanResidentSamplerLaneFailure {
    fn clone(&self) -> (r: Self)
        ensures
            r@ == self@,
    {
        match self {
            VulkanResidentSamplerLaneFailure::Sampler(value) => VulkanResidentSamplerLaneFailure::Sampler(value.clone()),
            VulkanResidentSamplerLaneFailure::Device(value) => VulkanResidentSamplerLaneFailure::Device(value.clone()),
        }
    }
}

/// How many tiles of `width` lanes a batch takes, if they can be counted.
pub open spec fn tiles(batch_capacity: usize, width: u32) -> Option<u32> {
    if batch_capacity + width - 1 > usize::MAX || arithmetic::ceiling(
        batch_capacity as nat,
        width as nat,
    ) > u32::MAX {
        None
    } else {
        Some(arithmetic::ceiling(batch_capacity as nat, width as nat) as u32)
    }
}

fn tile_count(batch_capacity: usize, width: u32) -> (r: Option<u32>)
    requires
        batch_capacity > 0,
        width > 0,
    ensures
        r == tiles(batch_capacity, width),
{
    match batch_capacity.checked_add(width as usize - 1) {
        None => None,
        Some(_) => {
            let count: usize = arithmetic::ceiling_division(batch_capacity, width as usize);
            if count > u32::MAX as usize {
                None
            } else {
                Some(count as u32)
            }
        },
    }
}

/// The kernel that normalizes a batch of frames.
pub open spec fn batched_norm_kernel(
    device_id: Seq<char>,
    rows: u32,
    frames: VulkanResidentBufferView,
    normalized: VulkanResidentBufferView,
    weight: VulkanPermanentParameterBufferAllocationView,
    words: Seq<u32>,
    settings: VulkanResidentOutputTransducerSpecView,
) -> VulkanResidentKernelDispatchView {
    device::kernel(
        device_id,
        words,
        seq![
            device::bound_buffer(
                0,
                frames,
                normalized.byte_capacity,
                VulkanResidentKernelBufferAccess::Read,
            ),
            device::bound_buffer(
                1,
                normalized,
                normalized.byte_capacity,
                VulkanResidentKernelBufferAccess::Write,
            ),
            device::bound_buffer(
                2,
                weight.buffer,
                weight.byte_capacity,
                VulkanResidentKernelBufferAccess::Read,
            ),
        ],
        1,
        rows,
        settings.norm_local_size_x,
        4,
    )
}

/// The kernel that projects a batch of frames onto logits.
pub open spec fn batched_projection_kernel(
    device_id: Seq<char>,
    rows: u32,
    normalized: VulkanResidentBufferView,
    logits: VulkanResidentBufferView,
    weight: VulkanPermanentParameterBufferAllocationView,
    scale: Option<VulkanPermanentParameterBufferAllocationView>,
    words: Seq<u32>,
    settings: VulkanResidentOutputTransducerSpecView,
) -> VulkanResidentKernelDispatchView {
    let bindings = seq![
        device::bound_buffer(
            0,
            normalized,
            normalized.byte_capacity,
            VulkanResidentKernelBufferAccess::Read,
        ),
        device::bound_buffer(
            1,
            weight.buffer,
            weight.byte_capacity,
            VulkanResidentKernelBufferAccess::Read,
        ),
        device::bound_buffer(
            2,
            logits,
            logits.byte_capacity,
            VulkanResidentKernelBufferAccess::Write,
        ),
    ];
    device::kernel(
        device_id,
        words,
        match scale {
            Some(scale) => bindings.push(
                device::bound_buffer(
                    3,
                    scale.buffer,
                    scale.byte_capacity,
                    VulkanResidentKernelBufferAccess::Read,
                ),
            ),
            None => bindings,
        },
        settings.projection_workgroup_count_x,
        rows,
        settings.projection_local_size_x,
        4,
    )
}

/// What a batched output transducer is made of, besides its settings and its kernels.
#[verifier::ext_equal]
pub struct BatchedOutputParts {
    pub norm_tile_width: u32,
    pub tile_width: u32,
    pub frames: VulkanResidentBufferView,
    pub norm_weight: VulkanPermanentParameterBufferAllocationView,
    pub weight: VulkanPermanentParameterBufferAllocationView,
}

/// The kernels of a batched output transducer, and the scale of its projection.
#[verifier::ext_equal]
pub struct BatchedOutputKernels {
    pub scale: Option<VulkanPermanentParameterBufferAllocationView>,
    pub norm_words: Seq<u32>,
    pub words: Seq<u32>,
}

/// The error where a batched output transducer cannot be made, its samplers apart.
#[verifier::opaque]
pub open spec fn batched_output_error(
    batch_capacity: usize,
    parts: BatchedOutputParts,
    settings: VulkanResidentOutputTransducerSpecView,
    scale_checked: Result<(), VulkanResidentOutputTransducerRunnerErrorView>,
) -> Option<VulkanResidentInProcessPlacedRuntimeErrorView> {
    let frame_bytes = settings.normalized_frame_byte_capacity * batch_capacity;
    if batch_capacity == 0 {
        Some(VulkanResidentInProcessPlacedRuntimeErrorView::ZeroTickBudget)
    } else if parts.norm_tile_width == 0 {
        Some(input_transducer::refused("batched output norm lane tile width is zero"@))
    } else if parts.tile_width == 0 {
        Some(input_transducer::refused("batched output projection lane tile width is zero"@))
    } else if output_transducer::projection_weight_error(parts.weight, settings) is Some {
        Some(
            VulkanResidentInProcessPlacedRuntimeErrorView::OutputTransducer(
                output_transducer::projection_weight_error(parts.weight, settings)->Some_0,
            ),
        )
    } else if scale_checked is Err {
        Some(
            VulkanResidentInProcessPlacedRuntimeErrorView::OutputTransducer(
                scale_checked->Err_0,
            ),
        )
    } else if output_transducer::norm_weight_error(parts.norm_weight, settings) is Some {
        Some(
            VulkanResidentInProcessPlacedRuntimeErrorView::OutputTransducer(
                output_transducer::norm_weight_error(parts.norm_weight, settings)->Some_0,
            ),
        )
    } else if frame_bytes > usize::MAX {
        Some(input_transducer::refused("batched normalized frame capacity overflowed"@))
    } else if settings.logits_byte_capacity * batch_capacity > usize::MAX {
        Some(input_transducer::refused("batched logits capacity overflowed"@))
    } else if parts.frames.byte_capacity < frame_bytes {
        Some(
            input_transducer::refused(
                "batched raw output buffer has "@ + text::decimal(
                    parts.frames.byte_capacity as nat,
                ) + " bytes, requires "@ + text::decimal(frame_bytes as nat),
            ),
        )
    } else if tiles(batch_capacity, parts.norm_tile_width) is None {
        Some(input_transducer::refused("batched output norm workgroup count overflowed"@))
    } else if tiles(batch_capacity, parts.tile_width) is None {
        Some(input_transducer::refused("batched output projection workgroup count overflowed"@))
    } else {
        None
    }
}

/// The logits of a batch, one lane's after the other's.
pub open spec fn batched_logits(
    device_id: Seq<char>,
    batch_capacity: usize,
    settings: VulkanResidentOutputTransducerSpecView,
) -> VulkanResidentBufferView {
    device::device_buffer(
        VulkanResidentBufferName::BatchedLogits,
        device_id,
        (settings.logits_byte_capacity * batch_capacity) as usize,
    )
}

/// What the samplers are asked for: lane `i` reads the logits of the batch from the `i`th lane's on.
pub open spec fn logits_requests(
    device_id: Seq<char>,
    batch_capacity: usize,
    settings: VulkanResidentOutputTransducerSpecView,
) -> Seq<VulkanResidentSamplerLogitsRequestView> {
    Seq::new(
        batch_capacity as nat,
        |i: int|
            VulkanResidentSamplerLogitsRequestView {
                lane_index: i as usize,
                batched_logits_buffer: batched_logits(device_id, batch_capacity, settings),
                logits_byte_offset: (settings.logits_byte_capacity * i) as usize,
            },
    )
}

/// The samplers of a batch, from what each of them made: lane `i` reads its logits from the `i`th
/// lane's on.
pub open spec fn logits_views(
    settings: VulkanResidentOutputTransducerSpecView,
    made: Seq<Seq<VulkanResidentKernelDispatchView>>,
) -> Seq<VulkanResidentSamplerLogitsViewView> {
    Seq::new(
        made.len(),
        |i: int|
            VulkanResidentSamplerLogitsViewView {
                logits_byte_offset: (settings.logits_byte_capacity * i) as usize,
                dispatches: made[i],
            },
    )
}

/// Whether there is a sampler for every answer, and lane `i` reads the batch's logits from the `i`th
/// lane's on, with what its sampler made.
pub open spec fn reads_lane_by_lane(
    runner: VulkanResidentBatchedOutputProjectionRunnerView,
    settings: VulkanResidentOutputTransducerSpecView,
    samplers: Seq<Result<Seq<VulkanResidentKernelDispatchView>, Seq<char>>>,
) -> bool {
    &&& settings.logits_byte_capacity * samplers.len() <= usize::MAX
    &&& runner.batched_logits_buffer.byte_capacity == settings.logits_byte_capacity
        * samplers.len()
    &&& runner.sampler_views.len() == samplers.len()
    &&& forall|i: int|
        0 <= i < samplers.len() ==> {
            let view = #[trigger] runner.sampler_views[i];
            &&& view.logits_byte_offset == settings.logits_byte_capacity * i
            &&& samplers[i] == Ok::<Seq<VulkanResidentKernelDispatchView>, Seq<char>>(
                view.dispatches,
            )
        }
}

/// What the samplers of a batch are asked for, where the rest of the transducer can be made.
pub open spec fn batched_logits_requests(
    device_id: Seq<char>,
    batch_capacity: usize,
    parts: BatchedOutputParts,
    settings: VulkanResidentOutputTransducerSpecView,
    scale_checked: Result<(), VulkanResidentOutputTransducerRunnerErrorView>,
) -> Result<
    Seq<VulkanResidentSamplerLogitsRequestView>,
    VulkanResidentInProcessPlacedRuntimeErrorView,
> {
    match batched_output_error(batch_capacity, parts, settings, scale_checked) {
        Some(error) => Err(error),
        None => Ok(logits_requests(device_id, batch_capacity, settings)),
    }
}

/// A batched output transducer with its samplers.
#[verifier::opaque]
pub open spec fn batched_output(
    device_id: Seq<char>,
    batch_capacity: usize,
    parts: BatchedOutputParts,
    kernels: BatchedOutputKernels,
    settings: VulkanResidentOutputTransducerSpecView,
    sampler_views: Seq<VulkanResidentSamplerLogitsViewView>,
) -> VulkanResidentBatchedOutputProjectionRunnerView {
    let normalized = device::device_buffer(
        VulkanResidentBufferName::BatchedNormalizedFrames,
        device_id,
        (settings.normalized_frame_byte_capacity * batch_capacity) as usize,
    );
    let logits = batched_logits(device_id, batch_capacity, settings);
    VulkanResidentBatchedOutputProjectionRunnerView {
        batch_capacity,
        normalized_frames_buffer: normalized,
        batched_logits_buffer: logits,
        norm_dispatch: batched_norm_kernel(
            device_id,
            tiles(batch_capacity, parts.norm_tile_width)->Some_0,
            parts.frames,
            normalized,
            parts.norm_weight,
            kernels.norm_words,
            settings,
        ),
        projection_dispatch: batched_projection_kernel(
            device_id,
            tiles(batch_capacity, parts.tile_width)->Some_0,
            normalized,
            logits,
            parts.weight,
            kernels.scale,
            kernels.words,
            settings,
        ),
        sampler_views,
    }
}

/// A batched output transducer for as many lanes as there are samplers, from what each sampler made.
pub open spec fn batched_output_runner(
    device_id: Seq<char>,
    batch_capacity: usize,
    parts: BatchedOutputParts,
    kernels: BatchedOutputKernels,
    settings: VulkanResidentOutputTransducerSpecView,
    scale_checked: Result<(), VulkanResidentOutputTransducerRunnerErrorView>,
    samplers: Seq<Result<Seq<VulkanResidentKernelDispatchView>, Seq<char>>>,
) -> Result<
    VulkanResidentBatchedOutputProjectionRunnerView,
    VulkanResidentInProcessPlacedRuntimeErrorView,
> {
    match batched_output_error(batch_capacity, parts, settings, scale_checked) {
        Some(error) => Err(error),
        None => match sequence::try_map(samplers, sequence::as_is()) {
            Err(error) => Err(VulkanResidentInProcessPlacedRuntimeErrorView::Sampler(error)),
            Ok(made) => Ok(
                batched_output(
                    device_id,
                    batch_capacity,
                    parts,
                    kernels,
                    settings,
                    logits_views(settings, made),
                ),
            ),
        },
    }
}

/// The steps of a projection of `batch_width` frames.
pub open spec fn projection_steps(
    runner: VulkanResidentBatchedOutputProjectionRunnerView,
    batch_width: usize,
) -> Result<
    Seq<VulkanResidentKernelSequenceStepView>,
    VulkanResidentInProcessPlacedRuntimeErrorView,
> {
    if batch_width == 0 || batch_width > runner.batch_capacity {
        Err(
            input_transducer::refused(
                "batched output projection capacity "@ + text::decimal(runner.batch_capacity as nat)
                    + " cannot process "@ + text::decimal(batch_width as nat) + " frames"@,
            ),
        )
    } else if batch_width > u32::MAX {
        Err(input_transducer::refused("batched output projection width exceeds u32"@))
    } else {
        Ok(
            seq![
                device::word_step(runner.norm_dispatch, batch_width as u32),
                device::word_step(runner.projection_dispatch, batch_width as u32),
            ],
        )
    }
}

/// Ticks one after the other.
pub open spec fn consecutive_ticks(start_stream_tick: u64, width: nat) -> Result<
    Seq<u64>,
    VulkanResidentInProcessPlacedRuntimeErrorView,
> {
    if width > 0 && start_stream_tick + (width - 1) > u64::MAX {
        Err(VulkanResidentInProcessPlacedRuntimeErrorView::StreamTickOverflow)
    } else {
        Ok(Seq::new(width, |i: int| (start_stream_tick + i) as u64))
    }
}

/// Ticks one after the other.
#[verifier::loop_isolation(false)]
pub fn consecutive_component_batch_stream_ticks(start_stream_tick: u64, width: usize) -> (r: Result<
    Vec<u64>,
    VulkanResidentInProcessPlacedRuntimeError,
>)
    ensures
        sequence::outcome(r) == consecutive_ticks(start_stream_tick, width as nat),
{
    let mut ticks: Vec<u64> = Vec::new();
    if width > 0 {
        match start_stream_tick.checked_add(width as u64 - 1) {
            None => {
                return Err(VulkanResidentInProcessPlacedRuntimeError::StreamTickOverflow);
            },
            Some(_) => {},
        }
    }
    let mut i: usize = 0;
    while i < width
        invariant
            i <= width,
            width > 0 ==> start_stream_tick + (width - 1) <= u64::MAX,
            ticks@ == Seq::new(i as nat, |k: int| (start_stream_tick + k) as u64),
        decreases width - i,
    {
        ticks.push(start_stream_tick + i as u64);
        i += 1;
        assert(ticks@ =~= Seq::new(i as nat, |k: int| (start_stream_tick + k) as u64));
    }
    assert(ticks.deep_view() =~= Seq::new(
        width as nat,
        |k: int| (start_stream_tick + k) as u64,
    ));
    Ok(ticks)
}

/// What a batch hands to its samplers, lane by lane; the last lane signals that the batch is done.
pub open spec fn sampler_lanes(
    prefixes: Seq<Seq<u32>>,
    stream_ticks: Seq<u64>,
    capacities: Seq<u32>,
) -> Seq<VulkanResidentSamplerLaneView> {
    Seq::new(
        prefixes.len(),
        |i: int|
            VulkanResidentSamplerLaneView {
                lane_index: i as usize,
                token_prefix: prefixes[i],
                stream_tick: stream_ticks[i],
                dynamic_state_capacity_activations: capacities[i],
                signals_completion: i + 1 == prefixes.len(),
            },
    )
}

/// What a batch hands to its samplers, if it fits.
pub open spec fn lane_plan(
    runner: VulkanResidentBatchedOutputProjectionRunnerView,
    prefixes: Seq<Seq<u32>>,
    stream_ticks: Seq<u64>,
    capacities: Seq<u32>,
) -> Result<Seq<VulkanResidentSamplerLaneView>, VulkanResidentInProcessPlacedRuntimeErrorView> {
    if prefixes.len() == 0 || prefixes.len() > runner.sampler_views.len() {
        Err(
            input_transducer::refused(
                "batched output projection has "@ + text::decimal(runner.sampler_views.len())
                    + " sampler lanes, cannot sample "@ + text::decimal(prefixes.len()),
            ),
        )
    } else if stream_ticks.len() != prefixes.len() || capacities.len() != prefixes.len() {
        Err(
            input_transducer::refused(
                "batched sampler has "@ + text::decimal(prefixes.len()) + " token lanes, "@
                    + text::decimal(stream_ticks.len()) + " stream ticks, and "@ + text::decimal(
                    capacities.len(),
                ) + " state capacities"@,
            ),
        )
    } else {
        Ok(sampler_lanes(prefixes, stream_ticks, capacities))
    }
}

/// The first `n` tokens, for every `n` from one on.
pub open spec fn growing_prefixes(tokens: Seq<u32>) -> Seq<Seq<u32>> {
    Seq::new(tokens.len(), |i: int| tokens.take(i + 1))
}

/// The same number for every lane.
pub open spec fn uniform(value: u32, width: nat) -> Seq<u32> {
    Seq::new(width, |i: int| value)
}

/// What a batch of consecutive tokens hands to its samplers.
pub open spec fn batch_plan(
    runner: VulkanResidentBatchedOutputProjectionRunnerView,
    tokens: Seq<u32>,
    start_stream_tick: u64,
    capacity: u32,
) -> Result<Seq<VulkanResidentSamplerLaneView>, VulkanResidentInProcessPlacedRuntimeErrorView> {
    match consecutive_ticks(start_stream_tick, tokens.len()) {
        Err(error) => Err(error),
        Ok(ticks) => lane_plan(
            runner,
            growing_prefixes(tokens),
            ticks,
            uniform(capacity, tokens.len()),
        ),
    }
}

/// The error that a lane's failure is.
pub open spec fn lane_error(failure: VulkanResidentSamplerLaneFailureView) -> VulkanResidentInProcessPlacedRuntimeErrorView {
    match failure {
        VulkanResidentSamplerLaneFailureView::Sampler(error) => {
            VulkanResidentInProcessPlacedRuntimeErrorView::Sampler(error)
        },
        VulkanResidentSamplerLaneFailureView::Device(error) => {
            VulkanResidentInProcessPlacedRuntimeErrorView::BackendLoop(error)
        },
    }
}

/// What came of preparing a lane, as the runtime reports it.
pub open spec fn lane_outcome() -> spec_fn(Result<(), VulkanResidentSamplerLaneFailureView>) -> Result<
    (),
    VulkanResidentInProcessPlacedRuntimeErrorView,
> {
    |lane: Result<(), VulkanResidentSamplerLaneFailureView>|
        match lane {
            Ok(_) => Ok(()),
            Err(failure) => Err(lane_error(failure)),
        }
}

/// What came of sampling a batch, from what came of preparing each lane, of submitting the batch and
/// of waiting for it.
pub open spec fn sampled(
    plan: Result<Seq<VulkanResidentSamplerLaneView>, VulkanResidentInProcessPlacedRuntimeErrorView>,
    prepared: Seq<Result<(), VulkanResidentSamplerLaneFailureView>>,
    submitted: Result<(), Seq<char>>,
    waited: Result<(), Seq<char>>,
) -> Result<(), VulkanResidentInProcessPlacedRuntimeErrorView> {
    match plan {
        Err(error) => Err(error),
        Ok(lanes) => match sequence::try_map(prepared.take(lanes.len() as int), lane_outcome()) {
            Err(error) => Err(error),
            Ok(_) => match submitted {
                Err(error) => Err(input_transducer::refused(error)),
                Ok(_) => match waited {
                    Err(error) => Err(input_transducer::refused(error)),
                    Ok(_) => Ok(()),
                },
            },
        },
    }
}

proof fn lemma_lane_offset(capacity: usize, lane_index: usize, batch_capacity: usize)
    requires
        lane_index < batch_capacity,
        capacity * batch_capacity <= usize::MAX,
    ensures
        0 <= capacity * lane_index <= usize::MAX,
{
    assert(0 <= capacity * lane_index <= capacity * batch_capacity) by (nonlinear_arith)
        requires
            lane_index < batch_capacity,
    ;
}

proof fn lemma_reads_lane_by_lane(
    device_id: Seq<char>,
    parts: BatchedOutputParts,
    kernels: BatchedOutputKernels,
    settings: VulkanResidentOutputTransducerSpecView,
    scale_checked: Result<(), VulkanResidentOutputTransducerRunnerErrorView>,
    samplers: Seq<Result<Seq<VulkanResidentKernelDispatchView>, Seq<char>>>,
)
    requires
        samplers.len() <= usize::MAX,
    ensures
        batched_output_runner(
            device_id,
            samplers.len() as usize,
            parts,
            kernels,
            settings,
            scale_checked,
            samplers,
        ) matches Ok(runner) ==> runner.batch_capacity == samplers.len() && reads_lane_by_lane(
            runner,
            settings,
            samplers,
        ),
{
    reveal(batched_output_error);
    reveal(batched_output);
    let lanes = samplers.len() as usize;
    let step = sequence::as_is::<Seq<VulkanResidentKernelDispatchView>, Seq<char>>();
    match batched_output_runner(
        device_id,
        lanes,
        parts,
        kernels,
        settings,
        scale_checked,
        samplers,
    ) {
        Err(_) => {},
        Ok(runner) => {
            sequence::lemma_try_map_ok(samplers, step);
            assert forall|i: int| 0 <= i < samplers.len() implies {
                let view = #[trigger] runner.sampler_views[i];
                &&& view.logits_byte_offset == settings.logits_byte_capacity * i
                &&& samplers[i] == Ok::<Seq<VulkanResidentKernelDispatchView>, Seq<char>>(
                    view.dispatches,
                )
            } by {
                lemma_lane_offset(settings.logits_byte_capacity, i as usize, lanes);
                assert(step(samplers[i]) == samplers[i]);
            }
        },
    }
}

impl VulkanResidentBatchedOutputProjectionRunner {
    fn check(
        batch_capacity: usize,
        norm_tile_width: u32,
        tile_width: u32,
        raw_frames_buffer: &VulkanResidentBuffer,
        norm_weight: &VulkanPermanentParameterBufferAllocation,
        projection_weight: &VulkanPermanentParameterBufferAllocation,
        settings: &VulkanResidentOutputTransducerSpec,
        scale_checked: &Result<(), VulkanResidentOutputTransducerRunnerError>,
    ) -> (r: Result<(), VulkanResidentInProcessPlacedRuntimeError>)
        ensures
            sequence::outcome(r) == (match batched_output_error(
                batch_capacity,
                (BatchedOutputParts {
                    norm_tile_width,
                    tile_width,
                    frames: raw_frames_buffer@,
                    norm_weight: norm_weight@,
                    weight: projection_weight@,
                }),
                settings@,
                sequence::outcome(*scale_checked),
            ) {
                Some(error) => Err::<(), VulkanResidentInProcessPlacedRuntimeErrorView>(error),
                None => Ok(()),
            }),
    {
        reveal(batched_output_error);
        if batch_capacity == 0 {
            return Err(VulkanResidentInProcessPlacedRuntimeError::ZeroTickBudget);
        }
        if norm_tile_width == 0 {
            return Err(
                input_transducer::refusal("batched output norm lane tile width is zero"),
            );
        }
        if tile_width == 0 {
            return Err(
                input_transducer::refusal("batched output projection lane tile width is zero"),
            );
        }
        match output_transducer::validate_output_projection_weight(projection_weight, settings) {
            Err(error) => {
                return Err(VulkanResidentInProcessPlacedRuntimeError::OutputTransducer(error));
            },
            Ok(()) => {},
        }
        match scale_checked {
            Err(error) => {
                return Err(
                    VulkanResidentInProcessPlacedRuntimeError::OutputTransducer(error.clone()),
                );
            },
            Ok(_) => {},
        }
        match output_transducer::validate_output_embedding_norm_weight(norm_weight, settings) {
            Err(error) => {
                return Err(VulkanResidentInProcessPlacedRuntimeError::OutputTransducer(error));
            },
            Ok(()) => {},
        }
        let frame_bytes: usize = match settings.normalized_frame_byte_capacity.checked_mul(
            batch_capacity,
        ) {
            None => {
                return Err(
                    input_transducer::refusal("batched normalized frame capacity overflowed"),
                );
            },
            Some(bytes) => bytes,
        };
        match settings.logits_byte_capacity.checked_mul(batch_capacity) {
            None => {
                return Err(input_transducer::refusal("batched logits capacity overflowed"));
            },
            Some(_) => {},
        }
        if raw_frames_buffer.byte_capacity < frame_bytes {
            return Err(
                VulkanResidentInProcessPlacedRuntimeError::BackendLoop(
                    VulkanError(
                        Message::new("batched raw output buffer has ").number(
                            raw_frames_buffer.byte_capacity,
                        ).text(" bytes, requires ").number(frame_bytes).done(),
                    ),
                ),
            );
        }
        match tile_count(batch_capacity, norm_tile_width) {
            None => {
                return Err(
                    input_transducer::refusal("batched output norm workgroup count overflowed"),
                );
            },
            Some(_) => {},
        }
        match tile_count(batch_capacity, tile_width) {
            None => Err(
                input_transducer::refusal("batched output projection workgroup count overflowed"),
            ),
            Some(_) => Ok(()),
        }
    }

    /// What the samplers of a batch are asked for, before they make anything: which buffer holds the
    /// logits, and from where on each lane reads it. It takes what `new_for_sampler_lanes` checks
    /// before its samplers make anything.
    #[verifier::loop_isolation(false)]
    pub fn sampler_logits_requests(
        device: &VulkanComputeDevice,
        norm_batch_lane_tile_width: u32,
        batch_lane_tile_width: u32,
        raw_frames_buffer: &VulkanResidentBuffer,
        norm_weight: &VulkanPermanentParameterBufferAllocation,
        projection_weight: &VulkanPermanentParameterBufferAllocation,
        settings: &VulkanResidentOutputTransducerSpec,
        scale_checked: &Result<(), VulkanResidentOutputTransducerRunnerError>,
        batch_capacity: usize,
    ) -> (r: Result<
        Vec<VulkanResidentSamplerLogitsRequest>,
        VulkanResidentInProcessPlacedRuntimeError,
    >)
        ensures
            sequence::outcome(r) == batched_logits_requests(
                device@.device_id,
                batch_capacity,
                (BatchedOutputParts {
                    norm_tile_width: norm_batch_lane_tile_width,
                    tile_width: batch_lane_tile_width,
                    frames: raw_frames_buffer@,
                    norm_weight: norm_weight@,
                    weight: projection_weight@,
                }),
                settings@,
                sequence::outcome(*scale_checked),
            ),
    {
        match Self::check(
            batch_capacity,
            norm_batch_lane_tile_width,
            batch_lane_tile_width,
            raw_frames_buffer,
            norm_weight,
            projection_weight,
            settings,
            scale_checked,
        ) {
            Err(error) => {
                return Err(error);
            },
            Ok(()) => {},
        }
        proof {
            reveal(batched_output_error);
        }
        let batched_logits_buffer: VulkanResidentBuffer = VulkanResidentBuffer::in_device_memory(
            VulkanResidentBufferName::BatchedLogits,
            device.device_id.as_str(),
            settings.logits_byte_capacity * batch_capacity,
        );
        let ghost expected = logits_requests(device@.device_id, batch_capacity, settings@);
        let mut requests: Vec<VulkanResidentSamplerLogitsRequest> = Vec::new();
        let mut i: usize = 0;
        assert(requests.deep_view() =~= expected.take(0));
        while i < batch_capacity
            invariant
                i <= batch_capacity,
                requests.deep_view() == expected.take(i as int),
            decreases batch_capacity - i,
        {
            proof {
                lemma_lane_offset(settings.logits_byte_capacity, i, batch_capacity);
            }
            let logits_byte_offset: usize = match Self::logits_byte_offset(settings, i) {
                Err(error) => {
                    return Err(error);
                },
                Ok(offset) => offset,
            };
            let request = VulkanResidentSamplerLogitsRequest {
                lane_index: i,
                batched_logits_buffer: batched_logits_buffer.clone(),
                logits_byte_offset,
            };
            let ghost before = requests.deep_view();
            let ghost added = request@;
            requests.push(request);
            assert(requests.deep_view() =~= before.push(added));
            i += 1;
            assert(before.push(added) =~= expected.take(i as int));
        }
        assert(expected.take(batch_capacity as int) =~= expected);
        Ok(requests)
    }

    /// The samplers of a batch, each with its place in the logits.
    #[verifier::loop_isolation(false)]
    fn place_views(
        settings: &VulkanResidentOutputTransducerSpec,
        made: Vec<Vec<VulkanResidentKernelDispatch>>,
    ) -> (r: Result<
        Vec<VulkanResidentSamplerLogitsView>,
        VulkanResidentInProcessPlacedRuntimeError,
    >)
        requires
            settings@.logits_byte_capacity * made@.len() <= usize::MAX,
        ensures
            r is Ok,
            r->Ok_0.deep_view() == logits_views(settings@, made.deep_view()),
    {
        let ghost given = made@;
        let ghost all = made.deep_view();
        let ghost expected = logits_views(settings@, all);
        let ghost count = made.len();
        let mut views: Vec<VulkanResidentSamplerLogitsView> = Vec::new();
        let mut lane_index: usize = 0;
        assert(views.deep_view() =~= expected.take(0));
        for dispatches in it: made
            invariant
                it.seq() == given,
                lane_index == it.index(),
                views.deep_view() == expected.take(it.index() as int),
        {
            proof {
                lemma_lane_offset(settings.logits_byte_capacity, lane_index, count);
                assert(dispatches.deep_view() == all[lane_index as int]);
            }
            let logits_byte_offset: usize = match Self::logits_byte_offset(settings, lane_index) {
                Err(error) => {
                    return Err(error);
                },
                Ok(offset) => offset,
            };
            let view = VulkanResidentSamplerLogitsView { logits_byte_offset, dispatches };
            let ghost before = views.deep_view();
            let ghost added = view@;
            views.push(view);
            assert(views.deep_view() =~= before.push(added));
            assert(before.push(added) =~= expected.take(lane_index + 1));
            lane_index += 1;
        }
        assert(expected.take(given.len() as int) =~= expected);
        Ok(views)
    }

    /// A batched output transducer for as many lanes as there are samplers, from what came of
    /// checking the projection's scale and from what each lane's sampler made to read its logits.
    pub fn new_for_sampler_lanes(
        device: &VulkanComputeDevice,
        norm_batch_lane_tile_width: u32,
        batch_lane_tile_width: u32,
        raw_frames_buffer: &VulkanResidentBuffer,
        norm_weight: &VulkanPermanentParameterBufferAllocation,
        projection_weight: &VulkanPermanentParameterBufferAllocation,
        projection_scale: Option<&VulkanPermanentParameterBufferAllocation>,
        norm_spirv_words: &Vec<u32>,
        projection_spirv_words: &Vec<u32>,
        settings: &VulkanResidentOutputTransducerSpec,
        scale_checked: &Result<(), VulkanResidentOutputTransducerRunnerError>,
        made: Vec<Result<Vec<VulkanResidentKernelDispatch>, VulkanResidentSamplerRunnerError>>,
    ) -> (r: Result<Self, VulkanResidentInProcessPlacedRuntimeError>)
        ensures
            sequence::outcome(r) == batched_output_runner(
                device@.device_id,
                made@.len() as usize,
                (BatchedOutputParts {
                    norm_tile_width: norm_batch_lane_tile_width,
                    tile_width: batch_lane_tile_width,
                    frames: raw_frames_buffer@,
                    norm_weight: norm_weight@,
                    weight: projection_weight@,
                }),
                (BatchedOutputKernels {
                    scale: projection_scale.deep_view(),
                    norm_words: norm_spirv_words@,
                    words: projection_spirv_words@,
                }),
                settings@,
                sequence::outcome(*scale_checked),
                sequence::outcomes(made@),
            ),
            r matches Ok(runner) ==> {
                &&& runner@.batch_capacity == made@.len()
                &&& reads_lane_by_lane(runner@, settings@, sequence::outcomes(made@))
            },
    {
        let batch_capacity: usize = made.len();
        proof {
            lemma_reads_lane_by_lane(
                device@.device_id,
                BatchedOutputParts {
                    norm_tile_width: norm_batch_lane_tile_width,
                    tile_width: batch_lane_tile_width,
                    frames: raw_frames_buffer@,
                    norm_weight: norm_weight@,
                    weight: projection_weight@,
                },
                BatchedOutputKernels {
                    scale: projection_scale.deep_view(),
                    norm_words: norm_spirv_words@,
                    words: projection_spirv_words@,
                },
                settings@,
                sequence::outcome(*scale_checked),
                sequence::outcomes(made@),
            );
        }
        match Self::check(
            batch_capacity,
            norm_batch_lane_tile_width,
            batch_lane_tile_width,
            raw_frames_buffer,
            norm_weight,
            projection_weight,
            settings,
            scale_checked,
        ) {
            Err(error) => {
                return Err(error);
            },
            Ok(()) => {},
        }
        proof {
            reveal(batched_output_error);
            reveal(batched_output);
            let step = sequence::as_is::<Seq<VulkanResidentKernelDispatchView>, Seq<char>>();
            if sequence::try_map(sequence::outcomes(made@), step) is Ok {
                sequence::lemma_try_map_ok(sequence::outcomes(made@), step);
            }
        }
        let dispatches: Vec<Vec<VulkanResidentKernelDispatch>> = match sequence::collected(made) {
            Err(error) => {
                return Err(VulkanResidentInProcessPlacedRuntimeError::Sampler(error));
            },
            Ok(dispatches) => dispatches,
        };
        assert(dispatches.deep_view().len() == dispatches@.len());
        let views: Vec<VulkanResidentSamplerLogitsView> = match Self::place_views(
            settings,
            dispatches,
        ) {
            Err(error) => {
                return Err(error);
            },
            Ok(views) => views,
        };
        let normalized_frames_buffer: VulkanResidentBuffer = VulkanResidentBuffer::in_device_memory(
            VulkanResidentBufferName::BatchedNormalizedFrames,
            device.device_id.as_str(),
            settings.normalized_frame_byte_capacity * batch_capacity,
        );
        let batched_logits_buffer: VulkanResidentBuffer = VulkanResidentBuffer::in_device_memory(
            VulkanResidentBufferName::BatchedLogits,
            device.device_id.as_str(),
            settings.logits_byte_capacity * batch_capacity,
        );
        let norm_rows: u32 = match tile_count(batch_capacity, norm_batch_lane_tile_width) {
            None => 0,
            Some(rows) => rows,
        };
        let rows: u32 = match tile_count(batch_capacity, batch_lane_tile_width) {
            None => 0,
            Some(rows) => rows,
        };
        let norm_dispatch: VulkanResidentKernelDispatch = VulkanResidentKernelDispatch::unlabelled(
            device.device_id.as_str(),
            norm_spirv_words,
            device::three_bindings(
                VulkanResidentKernelBufferBinding::bind(
                    0,
                    raw_frames_buffer,
                    normalized_frames_buffer.byte_capacity,
                    VulkanResidentKernelBufferAccess::Read,
                ),
                VulkanResidentKernelBufferBinding::bind(
                    1,
                    &normalized_frames_buffer,
                    normalized_frames_buffer.byte_capacity,
                    VulkanResidentKernelBufferAccess::Write,
                ),
                VulkanResidentKernelBufferBinding::bind(
                    2,
                    &norm_weight.buffer,
                    norm_weight.byte_capacity,
                    VulkanResidentKernelBufferAccess::Read,
                ),
            ),
            1,
            norm_rows,
            settings.norm_local_size_x,
            4,
        );
        let mut bindings: Vec<VulkanResidentKernelBufferBinding> = device::three_bindings(
            VulkanResidentKernelBufferBinding::bind(
                0,
                &normalized_frames_buffer,
                normalized_frames_buffer.byte_capacity,
                VulkanResidentKernelBufferAccess::Read,
            ),
            VulkanResidentKernelBufferBinding::bind(
                1,
                &projection_weight.buffer,
                projection_weight.byte_capacity,
                VulkanResidentKernelBufferAccess::Read,
            ),
            VulkanResidentKernelBufferBinding::bind(
                2,
                &batched_logits_buffer,
                batched_logits_buffer.byte_capacity,
                VulkanResidentKernelBufferAccess::Write,
            ),
        );
        match projection_scale {
            None => {},
            Some(scale) => {
                let ghost before = bindings.deep_view();
                let binding: VulkanResidentKernelBufferBinding =
                    VulkanResidentKernelBufferBinding::bind(
                    3,
                    &scale.buffer,
                    scale.byte_capacity,
                    VulkanResidentKernelBufferAccess::Read,
                );
                let ghost added = binding@;
                bindings.push(binding);
                assert(bindings.deep_view() =~= before.push(added));
            },
        }
        let projection_dispatch: VulkanResidentKernelDispatch =
            VulkanResidentKernelDispatch::unlabelled(
            device.device_id.as_str(),
            projection_spirv_words,
            bindings,
            settings.projection_workgroup_count_x,
            rows,
            settings.projection_local_size_x,
            4,
        );
        Ok(
            VulkanResidentBatchedOutputProjectionRunner {
                batch_capacity,
                normalized_frames_buffer,
                batched_logits_buffer,
                norm_dispatch,
                projection_dispatch,
                sampler_views: views,
            },
        )
    }

    /// Where the logits of a lane start in the batch.
    pub fn logits_byte_offset(
        settings: &VulkanResidentOutputTransducerSpec,
        lane_index: usize,
    ) -> (r: Result<usize, VulkanResidentInProcessPlacedRuntimeError>)
        ensures
            sequence::outcome(r) == (if settings@.logits_byte_capacity * lane_index > usize::MAX {
                Err(input_transducer::refused("batched sampler logits offset overflowed"@))
            } else {
                Ok((settings@.logits_byte_capacity * lane_index) as usize)
            }),
    {
        match settings.logits_byte_capacity.checked_mul(lane_index) {
            None => Err(input_transducer::refusal("batched sampler logits offset overflowed")),
            Some(offset) => Ok(offset),
        }
    }

    /// The steps of a projection of `batch_width` frames.
    pub fn projection_steps(&self, batch_width: usize) -> (r: Result<
        Vec<VulkanResidentKernelSequenceStep>,
        VulkanResidentInProcessPlacedRuntimeError,
    >)
        ensures
            sequence::outcome(r) == projection_steps(self@, batch_width),
    {
        if batch_width == 0 || batch_width > self.batch_capacity {
            return Err(
                VulkanResidentInProcessPlacedRuntimeError::BackendLoop(
                    VulkanError(
                        Message::new("batched output projection capacity ").number(
                            self.batch_capacity,
                        ).text(" cannot process ").number(batch_width).text(" frames").done(),
                    ),
                ),
            );
        }
        if batch_width > u32::MAX as usize {
            return Err(
                input_transducer::refusal("batched output projection width exceeds u32"),
            );
        }
        let norm: VulkanResidentKernelSequenceStep = VulkanResidentKernelSequenceStep::with_word(
            &self.norm_dispatch,
            batch_width as u32,
        );
        let projection: VulkanResidentKernelSequenceStep =
            VulkanResidentKernelSequenceStep::with_word(
            &self.projection_dispatch,
            batch_width as u32,
        );
        let ghost expected = seq![norm@, projection@];
        let steps: Vec<VulkanResidentKernelSequenceStep> = vec![norm, projection];
        assert(steps.deep_view() =~= expected);
        Ok(steps)
    }

    /// The projection of `batch_width` frames, from what came of running its steps.
    pub fn project(&self, batch_width: usize, launched: &Result<(), VulkanError>) -> (r: Result<
        (),
        VulkanResidentInProcessPlacedRuntimeError,
    >)
        ensures
            sequence::outcome(r) == (match projection_steps(self@, batch_width) {
                Err(error) => Err(error),
                Ok(_) => match sequence::outcome(*launched) {
                    Err(error) => Err(input_transducer::refused(error)),
                    Ok(_) => Ok(()),
                },
            }),
    {
        match self.projection_steps(batch_width) {
            Err(error) => {
                return Err(error);
            },
            Ok(_) => {},
        }
        match launched {
            Err(error) => Err(
                VulkanResidentInProcessPlacedRuntimeError::BackendLoop(error.clone()),
            ),
            Ok(_) => Ok(()),
        }
    }

    /// What a batch hands to its samplers, lane by lane.
    #[verifier::loop_isolation(false)]
    pub fn sampler_lanes(
        &self,
        token_prefixes: &Vec<Vec<u32>>,
        stream_ticks: &Vec<u64>,
        dynamic_state_capacities: &Vec<u32>,
    ) -> (r: Result<Vec<VulkanResidentSamplerLane>, VulkanResidentInProcessPlacedRuntimeError>)
        ensures
            sequence::outcome(r) == lane_plan(
                self@,
                token_prefixes.deep_view(),
                stream_ticks@,
                dynamic_state_capacities@,
            ),
    {
        let ghost prefixes = token_prefixes.deep_view();
        let batch_width: usize = token_prefixes.len();
        assert(self@.sampler_views.len() == self.sampler_views@.len());
        assert(prefixes.len() == batch_width);
        if batch_width == 0 || batch_width > self.sampler_views.len() {
            return Err(
                VulkanResidentInProcessPlacedRuntimeError::BackendLoop(
                    VulkanError(
                        Message::new("batched output projection has ").number(
                            self.sampler_views.len(),
                        ).text(" sampler lanes, cannot sample ").number(batch_width).done(),
                    ),
                ),
            );
        }
        if stream_ticks.len() != batch_width || dynamic_state_capacities.len() != batch_width {
            return Err(
                VulkanResidentInProcessPlacedRuntimeError::BackendLoop(
                    VulkanError(
                        Message::new("batched sampler has ").number(batch_width).text(
                            " token lanes, ",
                        ).number(stream_ticks.len()).text(" stream ticks, and ").number(
                            dynamic_state_capacities.len(),
                        ).text(" state capacities").done(),
                    ),
                ),
            );
        }
        let ghost expected = sampler_lanes(prefixes, stream_ticks@, dynamic_state_capacities@);
        let mut lanes: Vec<VulkanResidentSamplerLane> = Vec::new();
        let mut i: usize = 0;
        assert(lanes.deep_view() =~= expected.take(0));
        while i < batch_width
            invariant
                i <= batch_width,
                lanes.deep_view() == expected.take(i as int),
            decreases batch_width - i,
        {
            let token_prefix: Vec<u32> = token_prefixes[i].clone();
            assert(token_prefix.deep_view() =~= prefixes[i as int]);
            let lane = VulkanResidentSamplerLane {
                lane_index: i,
                token_prefix,
                stream_tick: stream_ticks[i],
                dynamic_state_capacity_activations: dynamic_state_capacities[i],
                signals_completion: i + 1 == batch_width,
            };
            let ghost before = lanes.deep_view();
            let ghost added = lane@;
            lanes.push(lane);
            assert(lanes.deep_view() =~= before.push(added));
            i += 1;
            assert(before.push(added) =~= expected.take(i as int));
        }
        assert(expected.take(batch_width as int) =~= expected);
        Ok(lanes)
    }

    /// What came of sampling these lanes, from what came of preparing each of them, of submitting them
    /// and of waiting for them.
    #[verifier::loop_isolation(false)]
    fn sample_planned(
        plan: Result<Vec<VulkanResidentSamplerLane>, VulkanResidentInProcessPlacedRuntimeError>,
        prepared: &Vec<Result<(), VulkanResidentSamplerLaneFailure>>,
        submitted: &Result<(), VulkanError>,
        waited: &Result<(), VulkanError>,
    ) -> (r: Result<(), VulkanResidentInProcessPlacedRuntimeError>)
        requires
            plan matches Ok(lanes) ==> lanes@.len() <= prepared@.len(),
        ensures
            sequence::outcome(r) == sampled(
                sequence::outcome(plan),
                sequence::outcomes(prepared@),
                sequence::outcome(*submitted),
                sequence::outcome(*waited),
            ),
    {
        let ghost answers = sequence::outcomes(prepared@);
        let lanes: Vec<VulkanResidentSamplerLane> = match plan {
            Err(error) => {
                return Err(error);
            },
            Ok(lanes) => lanes,
        };
        let width: usize = lanes.len();
        assert(lanes.deep_view().len() == width);
        let ghost all = answers.take(width as int);
        let mut i: usize = 0;
        assert(all.take(0) =~= Seq::empty());
        while i < width
            invariant
                i <= width,
                sequence::try_map(all.take(i as int), lane_outcome()) is Ok,
            decreases width - i,
        {
            proof {
                sequence::lemma_try_map_step(all, lane_outcome(), i as int);
                if sequence::try_map(all.take(i + 1), lane_outcome()) is Err {
                    sequence::lemma_try_map_error(all, lane_outcome(), i + 1);
                }
                assert(all[i as int] == sequence::outcome(prepared@[i as int]));
            }
            match &prepared[i] {
                Err(VulkanResidentSamplerLaneFailure::Sampler(error)) => {
                    return Err(
                        VulkanResidentInProcessPlacedRuntimeError::Sampler(error.clone()),
                    );
                },
                Err(VulkanResidentSamplerLaneFailure::Device(error)) => {
                    return Err(
                        VulkanResidentInProcessPlacedRuntimeError::BackendLoop(error.clone()),
                    );
                },
                Ok(_) => {},
            }
            i += 1;
        }
        assert(all.take(width as int) =~= all);
        match submitted {
            Err(error) => {
                return Err(
                    VulkanResidentInProcessPlacedRuntimeError::BackendLoop(error.clone()),
                );
            },
            Ok(_) => {},
        }
        match waited {
            Err(error) => Err(
                VulkanResidentInProcessPlacedRuntimeError::BackendLoop(error.clone()),
            ),
            Ok(_) => Ok(()),
        }
    }

    /// The samples of a batch, from what came of preparing each lane, of submitting the batch and of
    /// waiting for it.
    pub fn sample_lanes(
        &self,
        token_prefixes: &Vec<Vec<u32>>,
        stream_ticks: &Vec<u64>,
        dynamic_state_capacities: &Vec<u32>,
        prepared: &Vec<Result<(), VulkanResidentSamplerLaneFailure>>,
        submitted: &Result<(), VulkanError>,
        waited: &Result<(), VulkanError>,
    ) -> (r: Result<(), VulkanResidentInProcessPlacedRuntimeError>)
        requires
            token_prefixes@.len() <= prepared@.len(),
        ensures
            sequence::outcome(r) == sampled(
                lane_plan(
                    self@,
                    token_prefixes.deep_view(),
                    stream_ticks@,
                    dynamic_state_capacities@,
                ),
                sequence::outcomes(prepared@),
                sequence::outcome(*submitted),
                sequence::outcome(*waited),
            ),
    {
        let plan: Result<
            Vec<VulkanResidentSamplerLane>,
            VulkanResidentInProcessPlacedRuntimeError,
        > = self.sampler_lanes(token_prefixes, stream_ticks, dynamic_state_capacities);
        proof {
            assert(token_prefixes.deep_view().len() == token_prefixes@.len());
            if plan is Ok {
                assert(plan->Ok_0.deep_view().len() == plan->Ok_0@.len());
            }
        }
        Self::sample_planned(plan, prepared, submitted, waited)
    }

    /// What a batch of consecutive tokens hands to its samplers: each lane sees the tokens up to its
    /// own.
    #[verifier::loop_isolation(false)]
    pub fn batch_lanes(
        &self,
        input_token_ids: &Vec<u32>,
        start_stream_tick: u64,
        dynamic_state_capacity_activations: u32,
    ) -> (r: Result<Vec<VulkanResidentSamplerLane>, VulkanResidentInProcessPlacedRuntimeError>)
        ensures
            sequence::outcome(r) == batch_plan(
                self@,
                input_token_ids@,
                start_stream_tick,
                dynamic_state_capacity_activations,
            ),
    {
        let batch_width: usize = input_token_ids.len();
        let stream_ticks: Vec<u64> = match consecutive_component_batch_stream_ticks(
            start_stream_tick,
            batch_width,
        ) {
            Err(error) => {
                return Err(error);
            },
            Ok(ticks) => ticks,
        };
        assert(stream_ticks.deep_view() =~= stream_ticks@);
        let ghost prefixes = growing_prefixes(input_token_ids@);
        let mut token_prefixes: Vec<Vec<u32>> = Vec::new();
        let mut prefix: Vec<u32> = Vec::new();
        let mut i: usize = 0;
        assert(token_prefixes.deep_view() =~= prefixes.take(0));
        while i < batch_width
            invariant
                i <= batch_width,
                prefix@ == input_token_ids@.take(i as int),
                token_prefixes.deep_view() == prefixes.take(i as int),
            decreases batch_width - i,
        {
            prefix.push(input_token_ids[i]);
            assert(prefix@ =~= input_token_ids@.take(i + 1));
            let copy: Vec<u32> = device::copy_words(&prefix);
            assert(copy.deep_view() =~= prefixes[i as int]);
            let ghost before = token_prefixes.deep_view();
            token_prefixes.push(copy);
            assert(token_prefixes.deep_view() =~= before.push(prefixes[i as int]));
            i += 1;
            assert(token_prefixes.deep_view() =~= prefixes.take(i as int));
        }
        assert(prefixes.take(batch_width as int) =~= prefixes);
        assert(token_prefixes.deep_view().len() == token_prefixes@.len());
        let capacities: Vec<u32> = uniform_capacities(
            dynamic_state_capacity_activations,
            batch_width,
        );
        self.sampler_lanes(&token_prefixes, &stream_ticks, &capacities)
    }

    /// The samples of a batch of consecutive tokens: each lane sees the tokens up to its own.
    pub fn sample_batch(
        &self,
        input_token_ids: &Vec<u32>,
        start_stream_tick: u64,
        dynamic_state_capacity_activations: u32,
        prepared: &Vec<Result<(), VulkanResidentSamplerLaneFailure>>,
        submitted: &Result<(), VulkanError>,
        waited: &Result<(), VulkanError>,
    ) -> (r: Result<(), VulkanResidentInProcessPlacedRuntimeError>)
        requires
            input_token_ids@.len() <= prepared@.len(),
        ensures
            sequence::outcome(r) == sampled(
                batch_plan(
                    self@,
                    input_token_ids@,
                    start_stream_tick,
                    dynamic_state_capacity_activations,
                ),
                sequence::outcomes(prepared@),
                sequence::outcome(*submitted),
                sequence::outcome(*waited),
            ),
    {
        let plan: Result<
            Vec<VulkanResidentSamplerLane>,
            VulkanResidentInProcessPlacedRuntimeError,
        > = self.batch_lanes(
            input_token_ids,
            start_stream_tick,
            dynamic_state_capacity_activations,
        );
        proof {
            if plan is Ok {
                assert(plan->Ok_0.deep_view().len() == plan->Ok_0@.len());
            }
        }
        Self::sample_planned(plan, prepared, submitted, waited)
    }

    /// What a batch of independent streams hands to its samplers, each of which keeps its own tokens.
    #[verifier::loop_isolation(false)]
    pub fn independent_lanes(
        &self,
        input_token_ids: &Vec<u32>,
        stream_ticks: &Vec<u64>,
        dynamic_state_capacities: &Vec<u32>,
    ) -> (r: Result<Vec<VulkanResidentSamplerLane>, VulkanResidentInProcessPlacedRuntimeError>)
        ensures
            sequence::outcome(r) == lane_plan(
                self@,
                Seq::new(input_token_ids@.len(), |i: int| Seq::<u32>::empty()),
                stream_ticks@,
                dynamic_state_capacities@,
            ),
    {
        let mut token_prefixes: Vec<Vec<u32>> = Vec::new();
        let mut i: usize = 0;
        assert(token_prefixes.deep_view() =~= Seq::new(0, |k: int| Seq::<u32>::empty()));
        while i < input_token_ids.len()
            invariant
                i <= input_token_ids.len(),
                token_prefixes.deep_view() == Seq::new(i as nat, |k: int| Seq::<u32>::empty()),
            decreases input_token_ids.len() - i,
        {
            let ghost before = token_prefixes.deep_view();
            let none: Vec<u32> = Vec::new();
            assert(none.deep_view() =~= Seq::<u32>::empty());
            token_prefixes.push(none);
            assert(token_prefixes.deep_view() =~= before.push(Seq::<u32>::empty()));
            i += 1;
            assert(token_prefixes.deep_view() =~= Seq::new(i as nat, |k: int| Seq::<u32>::empty()));
        }
        assert(token_prefixes.deep_view().len() == token_prefixes@.len());
        self.sampler_lanes(&token_prefixes, stream_ticks, dynamic_state_capacities)
    }

    /// The samples of a batch of independent streams, each of which keeps its own tokens.
    pub fn sample_independent_streams(
        &self,
        input_token_ids: &Vec<u32>,
        stream_ticks: &Vec<u64>,
        dynamic_state_capacities: &Vec<u32>,
        prepared: &Vec<Result<(), VulkanResidentSamplerLaneFailure>>,
        submitted: &Result<(), VulkanError>,
        waited: &Result<(), VulkanError>,
    ) -> (r: Result<(), VulkanResidentInProcessPlacedRuntimeError>)
        requires
            input_token_ids@.len() <= prepared@.len(),
        ensures
            sequence::outcome(r) == sampled(
                lane_plan(
                    self@,
                    Seq::new(input_token_ids@.len(), |i: int| Seq::<u32>::empty()),
                    stream_ticks@,
                    dynamic_state_capacities@,
                ),
                sequence::outcomes(prepared@),
                sequence::outcome(*submitted),
                sequence::outcome(*waited),
            ),
    {
        let plan: Result<
            Vec<VulkanResidentSamplerLane>,
            VulkanResidentInProcessPlacedRuntimeError,
        > = self.independent_lanes(input_token_ids, stream_ticks, dynamic_state_capacities);
        proof {
            if plan is Ok {
                assert(plan->Ok_0.deep_view().len() == plan->Ok_0@.len());
            }
        }
        Self::sample_planned(plan, prepared, submitted, waited)
    }
}

/// Each sampler reads where it was asked to, inside the logits of the batch, and no two lanes read the
/// same bytes.
pub proof fn lanes_read_their_own_logits(
    device_id: Seq<char>,
    parts: BatchedOutputParts,
    kernels: BatchedOutputKernels,
    settings: VulkanResidentOutputTransducerSpecView,
    scale_checked: Result<(), VulkanResidentOutputTransducerRunnerErrorView>,
    samplers: Seq<Result<Seq<VulkanResidentKernelDispatchView>, Seq<char>>>,
    i: int,
    j: int,
)
    requires
        samplers.len() <= usize::MAX,
        batched_output_runner(
            device_id,
            samplers.len() as usize,
            parts,
            kernels,
            settings,
            scale_checked,
            samplers,
        ) is Ok,
        0 <= i < j < samplers.len(),
    ensures
        ({
            let lanes = samplers.len() as usize;
            let asked = batched_logits_requests(device_id, lanes, parts, settings, scale_checked);
            let runner = batched_output_runner(
                device_id,
                lanes,
                parts,
                kernels,
                settings,
                scale_checked,
                samplers,
            )->Ok_0;
            let width = settings.logits_byte_capacity;
            let here = runner.sampler_views[i].logits_byte_offset;
            let there = runner.sampler_views[j].logits_byte_offset;
            &&& asked is Ok
            &&& here == asked->Ok_0[i].logits_byte_offset
            &&& there == asked->Ok_0[j].logits_byte_offset
            &&& runner.batched_logits_buffer == asked->Ok_0[i].batched_logits_buffer
            &&& here + width <= there
            &&& there + width <= runner.batched_logits_buffer.byte_capacity
        }),
{
    reveal(batched_output_error);
    reveal(batched_output);
    let lanes = samplers.len() as usize;
    let width = settings.logits_byte_capacity;
    sequence::lemma_try_map_ok(
        samplers,
        sequence::as_is::<Seq<VulkanResidentKernelDispatchView>, Seq<char>>(),
    );
    lemma_lane_offset(width, i as usize, lanes);
    lemma_lane_offset(width, j as usize, lanes);
    assert(width * i + width <= width * j) by (nonlinear_arith)
        requires
            0 <= i < j,
            width >= 0,
    ;
    assert(width * j + width <= width * lanes) by (nonlinear_arith)
        requires
            0 <= j < lanes,
            width >= 0,
    ;
}

/// The same number for every lane.
#[verifier::loop_isolation(false)]
pub fn uniform_capacities(value: u32, width: usize) -> (r: Vec<u32>)
    ensures
        r@ == uniform(value, width as nat),
{
    let mut values: Vec<u32> = Vec::new();
    let mut i: usize = 0;
    while i < width
        invariant
            i <= width,
            values@ == uniform(value, i as nat),
        decreases width - i,
    {
        values.push(value);
        i += 1;
        assert(values@ =~= uniform(value, i as nat));
    }
    values
}

/// In a batch of consecutive tokens, a lane sees the tokens up to its own, at its own tick, and only
/// the last lane signals that the batch is done.
pub proof fn batch_lanes_are_causal(
    runner: VulkanResidentBatchedOutputProjectionRunnerView,
    tokens: Seq<u32>,
    start_stream_tick: u64,
    capacity: u32,
    i: int,
)
    requires
        batch_plan(runner, tokens, start_stream_tick, capacity) is Ok,
        0 <= i < tokens.len(),
    ensures
        ({
            let lanes = batch_plan(runner, tokens, start_stream_tick, capacity)->Ok_0;
            &&& lanes.len() == tokens.len()
            &&& lanes[i].token_prefix == tokens.take(i + 1)
            &&& lanes[i].stream_tick == start_stream_tick + i
            &&& lanes[i].signals_completion == (i + 1 == tokens.len())
        }),
{
}

/// A batched projection normalizes its frames first. The norm reads the raw frames through its
/// first descriptor and its weight through its third, and writes the normalized frames through its
/// second, as the norm of a single lane does; each of these covers every lane.
pub proof fn batched_norms_write_only_the_normalized_frames(
    device_id: Seq<char>,
    batch_capacity: usize,
    parts: BatchedOutputParts,
    kernels: BatchedOutputKernels,
    settings: VulkanResidentOutputTransducerSpecView,
    scale_checked: Result<(), VulkanResidentOutputTransducerRunnerErrorView>,
    samplers: Seq<Result<Seq<VulkanResidentKernelDispatchView>, Seq<char>>>,
)
    requires
        batched_output_runner(
            device_id,
            batch_capacity,
            parts,
            kernels,
            settings,
            scale_checked,
            samplers,
        ) is Ok,
    ensures
        ({
            let runner = batched_output_runner(
                device_id,
                batch_capacity,
                parts,
                kernels,
                settings,
                scale_checked,
                samplers,
            )->Ok_0;
            let norm = runner.norm_dispatch;
            let normalized = runner.normalized_frames_buffer;
            let read = VulkanResidentKernelBufferAccess::Read;
            let frame_bytes = settings.normalized_frame_byte_capacity * batch_capacity;
            &&& runner.batch_capacity == batch_capacity
            &&& normalized.device_id == device_id
            &&& normalized.name == VulkanResidentBufferName::BatchedNormalizedFrames
            &&& normalized.byte_capacity == frame_bytes
            &&& parts.frames.byte_capacity >= frame_bytes
            &&& norm.device_id == device_id
            &&& norm.spirv_words == kernels.norm_words
            &&& norm.local_size_x == settings.norm_local_size_x
            &&& norm.workgroup_count_x == 1
            &&& norm.base_workgroup_z == 0
            &&& norm.push_constant_byte_count == 4
            &&& norm.bindings.len() == 3
            &&& device::writes_only(norm.bindings, 1)
            &&& device::hands(norm.bindings[0], 0, parts.frames, 0, frame_bytes, read)
            &&& device::hands(
                norm.bindings[1],
                1,
                normalized,
                0,
                frame_bytes,
                VulkanResidentKernelBufferAccess::Write,
            )
            &&& device::hands(
                norm.bindings[2],
                2,
                parts.norm_weight.buffer,
                0,
                parts.norm_weight.byte_capacity as int,
                read,
            )
            &&& norm.workgroup_count_y * parts.norm_tile_width >= batch_capacity
            &&& (norm.workgroup_count_y - 1) * parts.norm_tile_width < batch_capacity
        }),
{
    reveal(batched_output_error);
    reveal(batched_output);
    arithmetic::rounding_up_is_tight(batch_capacity as nat, parts.norm_tile_width as nat);
    assert(0 <= settings.normalized_frame_byte_capacity * batch_capacity) by (nonlinear_arith);
}

/// A batched projection reads what its norm has written, through its first descriptor, and the
/// projection weight through its second; it writes the batch's logits through its third, as the
/// projection of a single lane does. Where there is a scale, it is read through the fourth. No
/// parameter stands where the kernel writes.
pub proof fn batched_projections_write_only_the_logits(
    device_id: Seq<char>,
    batch_capacity: usize,
    parts: BatchedOutputParts,
    kernels: BatchedOutputKernels,
    settings: VulkanResidentOutputTransducerSpecView,
    scale_checked: Result<(), VulkanResidentOutputTransducerRunnerErrorView>,
    samplers: Seq<Result<Seq<VulkanResidentKernelDispatchView>, Seq<char>>>,
)
    requires
        batched_output_runner(
            device_id,
            batch_capacity,
            parts,
            kernels,
            settings,
            scale_checked,
            samplers,
        ) is Ok,
    ensures
        ({
            let runner = batched_output_runner(
                device_id,
                batch_capacity,
                parts,
                kernels,
                settings,
                scale_checked,
                samplers,
            )->Ok_0;
            let projection = runner.projection_dispatch;
            let normalized = runner.normalized_frames_buffer;
            let logits = runner.batched_logits_buffer;
            let read = VulkanResidentKernelBufferAccess::Read;
            &&& logits.device_id == device_id
            &&& logits.name == VulkanResidentBufferName::BatchedLogits
            &&& logits.byte_capacity == settings.logits_byte_capacity * batch_capacity
            &&& projection.device_id == device_id
            &&& projection.spirv_words == kernels.words
            &&& projection.local_size_x == settings.projection_local_size_x
            &&& projection.workgroup_count_x == settings.projection_workgroup_count_x
            &&& projection.base_workgroup_z == 0
            &&& projection.push_constant_byte_count == 4
            &&& projection.bindings.len() == (if kernels.scale is Some {
                4int
            } else {
                3int
            })
            &&& device::writes_only(projection.bindings, 2)
            &&& device::hands(
                projection.bindings[0],
                0,
                normalized,
                0,
                normalized.byte_capacity as int,
                read,
            )
            &&& runner.norm_dispatch.bindings[1].buffer == projection.bindings[0].buffer
            &&& device::hands(
                projection.bindings[1],
                1,
                parts.weight.buffer,
                0,
                parts.weight.byte_capacity as int,
                read,
            )
            &&& device::hands(
                projection.bindings[2],
                2,
                logits,
                0,
                logits.byte_capacity as int,
                VulkanResidentKernelBufferAccess::Write,
            )
            &&& kernels.scale matches Some(scale) ==> device::hands(
                projection.bindings[3],
                3,
                scale.buffer,
                0,
                scale.byte_capacity as int,
                read,
            )
            &&& projection.workgroup_count_y * parts.tile_width >= batch_capacity
            &&& (projection.workgroup_count_y - 1) * parts.tile_width < batch_capacity
        }),
{
    reveal(batched_output_error);
    reveal(batched_output);
    arithmetic::rounding_up_is_tight(batch_capacity as nat, parts.tile_width as nat);
    assert(0 <= settings.normalized_frame_byte_capacity * batch_capacity) by (nonlinear_arith);
    assert(0 <= settings.logits_byte_capacity * batch_capacity) by (nonlinear_arith);
}

/// A batched projection works as that of a single lane does: descriptor for descriptor, both give
/// their kernels the same numbers with the same access, and the same weights.
pub proof fn batched_lanes_are_bound_as_a_single_one(
    device_id: Seq<char>,
    batch_capacity: usize,
    parts: BatchedOutputParts,
    kernels: BatchedOutputKernels,
    settings: VulkanResidentOutputTransducerSpecView,
    scale_checked: Result<(), VulkanResidentOutputTransducerRunnerErrorView>,
    samplers: Seq<Result<Seq<VulkanResidentKernelDispatchView>, Seq<char>>>,
    mounted: VulkanMountedPlacedStreamCircuitView,
    k: int,
)
    requires
        batched_output_runner(
            device_id,
            batch_capacity,
            parts,
            kernels,
            settings,
            scale_checked,
            samplers,
        ) is Ok,
        output_transducer::output_runner(
            device_id,
            mounted,
            parts.norm_weight,
            parts.weight,
            kernels.norm_words,
            kernels.words,
            settings,
        ) is Ok,
        0 <= k < 3,
    ensures
        ({
            let batched = batched_output_runner(
                device_id,
                batch_capacity,
                parts,
                kernels,
                settings,
                scale_checked,
                samplers,
            )->Ok_0;
            let single = output_transducer::output_runner(
                device_id,
                mounted,
                parts.norm_weight,
                parts.weight,
                kernels.norm_words,
                kernels.words,
                settings,
            )->Ok_0;
            let norm = batched.norm_dispatch.bindings[k];
            let single_norm = single.embedding_norm_dispatch.bindings[k];
            let projection = batched.projection_dispatch.bindings[k];
            let single_projection = single.tied_projection_dispatch.bindings[k];
            &&& norm.binding == single_norm.binding
            &&& norm.access == single_norm.access
            &&& k == 2 ==> norm == single_norm
            &&& projection.binding == single_projection.binding
            &&& projection.access == single_projection.access
            &&& k == 1 ==> projection == single_projection
        }),
{
    reveal(batched_output_error);
    reveal(batched_output);
    reveal(output_transducer::output_runner);
}

/// A projection of a batch launches the norm and behind it the projection, both with the number of
/// frames as their push constant. It is refused where there is no frame, or no room for them.
pub proof fn batches_are_normalized_before_they_are_projected(
    runner: VulkanResidentBatchedOutputProjectionRunnerView,
    batch_width: usize,
)
    ensures
        projection_steps(runner, batch_width) is Ok <==> 0 < batch_width <= runner.batch_capacity
            && batch_width <= u32::MAX,
        projection_steps(runner, batch_width) matches Ok(steps) ==> {
            &&& steps.len() == 2
            &&& steps[0].dispatch == runner.norm_dispatch
            &&& steps[1].dispatch == runner.projection_dispatch
            &&& forall|k: int|
                0 <= k < 2 ==> {
                    let bytes = (#[trigger] steps[k]).push_constants;
                    &&& bytes.len() == 4
                    &&& bytes[0] + 256 * bytes[1] + 65536 * bytes[2] + 16777216 * bytes[3]
                        == batch_width
                }
        },
{
    if projection_steps(runner, batch_width) is Ok {
        arithmetic::low_bytes_come_first(batch_width as u32);
    }
}

/// Every lane of a batch hands its own tokens, tick and capacity to the sampler of its own number,
/// and only the last lane signals that the batch is done. A batch is refused where it is empty, has
/// more lanes than there are samplers, or lacks the tick or the capacity of a lane.
pub proof fn lanes_hand_over_what_is_theirs(
    runner: VulkanResidentBatchedOutputProjectionRunnerView,
    prefixes: Seq<Seq<u32>>,
    stream_ticks: Seq<u64>,
    capacities: Seq<u32>,
    i: int,
)
    requires
        prefixes.len() <= usize::MAX,
    ensures
        lane_plan(runner, prefixes, stream_ticks, capacities) is Ok <==> {
            &&& 0 < prefixes.len() <= runner.sampler_views.len()
            &&& stream_ticks.len() == prefixes.len()
            &&& capacities.len() == prefixes.len()
        },
        lane_plan(runner, prefixes, stream_ticks, capacities) matches Ok(lanes) ==> {
            &&& lanes.len() == prefixes.len()
            &&& 0 <= i < prefixes.len() ==> {
                &&& lanes[i].lane_index == i
                &&& lanes[i].token_prefix == prefixes[i]
                &&& lanes[i].stream_tick == stream_ticks[i]
                &&& lanes[i].dynamic_state_capacity_activations == capacities[i]
                &&& lanes[i].signals_completion <==> i == prefixes.len() - 1
            }
        },
{
}

/// A batch is sampled where every lane could be prepared, the batch could be submitted and it came
/// to its end; the lanes that the batch does not have do not count.
pub proof fn batches_are_sampled_where_every_step_succeeds(
    lanes: Seq<VulkanResidentSamplerLaneView>,
    prepared: Seq<Result<(), VulkanResidentSamplerLaneFailureView>>,
    submitted: Result<(), Seq<char>>,
    waited: Result<(), Seq<char>>,
)
    requires
        lanes.len() <= prepared.len(),
    ensures
        sampled(
            Ok::<Seq<VulkanResidentSamplerLaneView>, VulkanResidentInProcessPlacedRuntimeErrorView>(
                lanes,
            ),
            prepared,
            submitted,
            waited,
        ) is Ok <==> {
            &&& forall|i: int| 0 <= i < lanes.len() ==> (#[trigger] prepared[i]) is Ok
            &&& submitted is Ok
            &&& waited is Ok
        },
{
    let used = prepared.take(lanes.len() as int);
    match sequence::try_map(used, lane_outcome()) {
        Ok(_) => {
            sequence::lemma_try_map_ok(used, lane_outcome());
            assert forall|i: int| 0 <= i < lanes.len() implies (#[trigger] prepared[i]) is Ok by {
                assert(lane_outcome()(used[i]) is Ok);
            }
        },
        Err(_) => {
            if forall|i: int| 0 <= i < lanes.len() ==> (#[trigger] prepared[i]) is Ok {
                assert forall|i: int| 0 <= i < used.len() implies lane_outcome()(
                    #[trigger] used[i],
                ) is Ok by {
                    assert(prepared[i] is Ok);
                }
                sequence::lemma_try_map_succeeds(used, lane_outcome());
            }
        },
    }
}

} // verus!
