//! Dispatch segments: launches that run one after the other without crossing a cable.

use crate::circuit_mount::VulkanMountedPlacedStreamCircuit;
use crate::circuit_mount::VulkanMountedPlacedStreamCircuitView;
use crate::circuit_mount;
use crate::device::VulkanComputeDevice;
use crate::device::VulkanError;
use crate::device::VulkanResidentBuffer;
use crate::device::VulkanResidentBufferView;
use crate::device::VulkanResidentKernelDispatch;
use crate::device::VulkanResidentKernelDispatchView;
use crate::device::VulkanResidentKernelSequenceStep;
use crate::device::VulkanResidentKernelSequenceStepView;
use crate::device;
use crate::mounted_dispatch::VulkanMountedPlacedBoundDispatch;
use crate::mounted_dispatch::VulkanMountedPlacedBoundDispatchPlan;
use crate::mounted_dispatch::VulkanMountedPlacedBoundDispatchPlanView;
use crate::mounted_dispatch::VulkanMountedPlacedBoundDispatchView;
use crate::ordered::OrderedMap;
use crate::pedal_runner::VulkanMountedPlacedResidentPedalDispatch;
use crate::pedal_runner::VulkanMountedPlacedResidentPedalDispatchRunView;
use crate::pedal_runner::VulkanMountedPlacedResidentPedalDispatchView;
use crate::pedal_runner::VulkanMountedPlacedResidentPedalRun;
use crate::pedal_runner::VulkanMountedPlacedResidentPedalRunView;
use crate::pedal_runner;
use crate::resident_dispatch::VulkanMountedPlacedResidentKernelDispatchError;
use crate::resident_dispatch::VulkanMountedPlacedResidentKernelDispatchErrorView;
use crate::reusable_kernels::VulkanLoadedReusableKernelArtifactManifest;
use crate::reusable_kernels::VulkanLoadedReusableKernelArtifactManifestView;
use crate::sequence;
use crate::stream_control::VulkanMountedPlacedStreamControl;
use crate::stream_control::VulkanStreamControlWrite;
use crate::stream_control;
use crate::text;
use vstd::prelude::*;

verus! {

/// A stage of a tick: a launch, or something at the boundary of the device.
#[derive(Debug, PartialEq, Eq)]
pub enum VulkanMountedPlacedStreamTickStage {
    Dispatch { stage_index: usize, dispatch_index: usize },
    Boundary { stage_index: usize },
}

#[verifier::ext_equal]
pub enum VulkanMountedPlacedStreamTickStageView {
    Dispatch { stage_index: usize, dispatch_index: usize },
    Boundary { stage_index: usize },
}

impl DeepView for VulkanMountedPlacedStreamTickStage {
    type V = VulkanMountedPlacedStreamTickStageView;

    open spec fn deep_view(&self) -> VulkanMountedPlacedStreamTickStageView {
        match self {
            VulkanMountedPlacedStreamTickStage::Dispatch { stage_index, dispatch_index } => VulkanMountedPlacedStreamTickStageView::Dispatch { stage_index: *stage_index, dispatch_index: *dispatch_index },
            VulkanMountedPlacedStreamTickStage::Boundary { stage_index } => VulkanMountedPlacedStreamTickStageView::Boundary { stage_index: *stage_index },
        }
    }
}

impl View for VulkanMountedPlacedStreamTickStage {
    type V = VulkanMountedPlacedStreamTickStageView;

    open spec fn view(&self) -> VulkanMountedPlacedStreamTickStageView {
        self.deep_view()
    }
}

impl Clone for VulkanMountedPlacedStreamTickStage {
    fn clone(&self) -> (r: Self)
        ensures
            r@ == self@,
    {
        match self {
            VulkanMountedPlacedStreamTickStage::Dispatch { stage_index, dispatch_index } => VulkanMountedPlacedStreamTickStage::Dispatch { stage_index: *stage_index, dispatch_index: *dispatch_index },
            VulkanMountedPlacedStreamTickStage::Boundary { stage_index } => VulkanMountedPlacedStreamTickStage::Boundary { stage_index: *stage_index },
        }
    }
}

/// The position of a stage.
pub open spec fn stage_index_of(stage: VulkanMountedPlacedStreamTickStageView) -> usize {
    match stage {
        VulkanMountedPlacedStreamTickStageView::Dispatch { stage_index, .. } => stage_index,
        VulkanMountedPlacedStreamTickStageView::Boundary { stage_index } => stage_index,
    }
}

impl VulkanMountedPlacedStreamTickStage {
    /// The position of the stage.
    pub fn stage_index(&self) -> (r: usize)
        ensures
            r == stage_index_of(self@),
    {
        match self {
            VulkanMountedPlacedStreamTickStage::Dispatch { stage_index, .. } => *stage_index,
            VulkanMountedPlacedStreamTickStage::Boundary { stage_index } => *stage_index,
        }
    }
}

/// A maximal run of launches that executes without crossing a cable. Each of its sequences is kept
/// for the lifetime of the model, with whether its commands are recorded: one per variant of what
/// surrounds the launches, and one per lane that is fed back.
#[derive(Debug, PartialEq, Eq)]
pub struct VulkanMountedPlacedResidentDispatchSegmentRunner {
    pub start_stage_index: usize,
    pub end_stage_index: usize,
    pub dispatch_count: usize,
    pub dispatches: Vec<VulkanMountedPlacedResidentPedalDispatch>,
    pub stream_control_buffer: VulkanResidentBuffer,
    pub sequences: OrderedMap<usize, bool>,
    pub feedback_sequences: Vec<bool>,
}

#[verifier::ext_equal]
pub struct VulkanMountedPlacedResidentDispatchSegmentRunnerView {
    pub start_stage_index: usize,
    pub end_stage_index: usize,
    pub dispatch_count: usize,
    pub dispatches: Seq<VulkanMountedPlacedResidentPedalDispatchView>,
    pub stream_control_buffer: VulkanResidentBufferView,
    pub sequences: Map<usize, bool>,
    pub feedback_sequences: Seq<bool>,
}

impl DeepView for VulkanMountedPlacedResidentDispatchSegmentRunner {
    type V = VulkanMountedPlacedResidentDispatchSegmentRunnerView;

    open spec fn deep_view(&self) -> VulkanMountedPlacedResidentDispatchSegmentRunnerView {
        VulkanMountedPlacedResidentDispatchSegmentRunnerView {
            start_stage_index: self.start_stage_index,
            end_stage_index: self.end_stage_index,
            dispatch_count: self.dispatch_count,
            dispatches: self.dispatches.deep_view(),
            stream_control_buffer: self.stream_control_buffer.deep_view(),
            sequences: self.sequences.deep_view(),
            feedback_sequences: self.feedback_sequences.deep_view(),
        }
    }
}

impl View for VulkanMountedPlacedResidentDispatchSegmentRunner {
    type V = VulkanMountedPlacedResidentDispatchSegmentRunnerView;

    open spec fn view(&self) -> VulkanMountedPlacedResidentDispatchSegmentRunnerView {
        self.deep_view()
    }
}

/// Which sequence of a segment.
#[derive(Clone, Copy, Debug, PartialEq, Eq, Structural)]
pub enum VulkanDispatchSegmentSequence {
    Variant(u8),
    FeedbackLane(usize),
}

impl DeepView for VulkanDispatchSegmentSequence {
    type V = VulkanDispatchSegmentSequence;

    open spec fn deep_view(&self) -> VulkanDispatchSegmentSequence {
        *self
    }
}

/// What is submitted of a segment: a sequence, with the steps that are recorded into it first where
/// it cannot be replayed as it is.
#[derive(Debug, PartialEq, Eq)]
pub struct VulkanDispatchSegmentSubmission {
    pub sequence: VulkanDispatchSegmentSequence,
    pub recorded_steps: Option<Vec<VulkanResidentKernelSequenceStep>>,
}

#[verifier::ext_equal]
pub struct VulkanDispatchSegmentSubmissionView {
    pub sequence: VulkanDispatchSegmentSequence,
    pub recorded_steps: Option<Seq<VulkanResidentKernelSequenceStepView>>,
}

impl DeepView for VulkanDispatchSegmentSubmission {
    type V = VulkanDispatchSegmentSubmissionView;

    open spec fn deep_view(&self) -> VulkanDispatchSegmentSubmissionView {
        VulkanDispatchSegmentSubmissionView {
            sequence: self.sequence,
            recorded_steps: self.recorded_steps.deep_view(),
        }
    }
}

impl View for VulkanDispatchSegmentSubmission {
    type V = VulkanDispatchSegmentSubmissionView;

    open spec fn view(&self) -> VulkanDispatchSegmentSubmissionView {
        self.deep_view()
    }
}

impl Clone for VulkanDispatchSegmentSubmission {
    fn clone(&self) -> (r: Self)
        ensures
            r@ == self@,
    {
        VulkanDispatchSegmentSubmission {
            sequence: self.sequence,
            recorded_steps: self.recorded_steps.clone(),
        }
    }
}

/// How a recorded sequence is handed over: put into a batch, or submitted with or without a fence.
#[derive(Clone, Copy, Debug, PartialEq, Eq, Structural)]
pub enum VulkanRecordedSequenceSubmission {
    Enqueued,
    Fenced,
    Unfenced,
}

impl DeepView for VulkanRecordedSequenceSubmission {
    type V = VulkanRecordedSequenceSubmission;

    open spec fn deep_view(&self) -> VulkanRecordedSequenceSubmission {
        *self
    }
}

/// How a recorded sequence is handed over: a batch takes it where there is one, and otherwise it has a
/// fence where its completion is waited for.
pub fn submit_recorded_sequence(in_batch: bool, signal_completion: bool) -> (r:
    VulkanRecordedSequenceSubmission)
    ensures
        r == (if in_batch {
            VulkanRecordedSequenceSubmission::Enqueued
        } else if signal_completion {
            VulkanRecordedSequenceSubmission::Fenced
        } else {
            VulkanRecordedSequenceSubmission::Unfenced
        }),
{
    if in_batch {
        VulkanRecordedSequenceSubmission::Enqueued
    } else if signal_completion {
        VulkanRecordedSequenceSubmission::Fenced
    } else {
        VulkanRecordedSequenceSubmission::Unfenced
    }
}

/// Whether a launch has this position in its plan.
pub open spec fn has_index(dispatch_index: usize) -> spec_fn(VulkanMountedPlacedBoundDispatchView) -> bool {
    |dispatch: VulkanMountedPlacedBoundDispatchView| dispatch.dispatch_index == dispatch_index
}

/// The launch of a stage.
pub open spec fn stage_launch(
    mounted: VulkanMountedPlacedStreamCircuitView,
    device_id: Seq<char>,
    plan: VulkanMountedPlacedBoundDispatchPlanView,
    loaded: VulkanLoadedReusableKernelArtifactManifestView,
) -> spec_fn(VulkanMountedPlacedStreamTickStageView) -> Result<
    VulkanMountedPlacedResidentPedalDispatchView,
    VulkanMountedPlacedResidentKernelDispatchErrorView,
> {
    |stage: VulkanMountedPlacedStreamTickStageView|
        match stage {
            VulkanMountedPlacedStreamTickStageView::Boundary { stage_index } => Err(
                VulkanMountedPlacedResidentKernelDispatchErrorView::NonDispatchStageInSegment {
                    device_id: mounted.placed_plan.device_id,
                    stage_index,
                },
            ),
            VulkanMountedPlacedStreamTickStageView::Dispatch { stage_index, dispatch_index } => {
                match sequence::find_first(plan.dispatches, has_index(dispatch_index)) {
                    None => Err(
                        VulkanMountedPlacedResidentKernelDispatchErrorView::MissingSegmentDispatch {
                            device_id: mounted.placed_plan.device_id,
                            stage_index,
                            dispatch_index,
                        },
                    ),
                    Some(bound) => match circuit_mount::resident_launch(
                        mounted,
                        device_id,
                        bound,
                        loaded,
                    ) {
                        Err(error) => Err(error),
                        Ok(resident) => Ok(pedal_runner::launch_of(bound, resident)),
                    },
                }
            },
        }
}

/// The segment of a run of stages.
pub open spec fn segment_runner(
    mounted: VulkanMountedPlacedStreamCircuitView,
    device_id: Seq<char>,
    plan: VulkanMountedPlacedBoundDispatchPlanView,
    loaded: VulkanLoadedReusableKernelArtifactManifestView,
    stages: Seq<VulkanMountedPlacedStreamTickStageView>,
) -> Result<
    VulkanMountedPlacedResidentDispatchSegmentRunnerView,
    VulkanMountedPlacedResidentKernelDispatchErrorView,
> {
    if stages.len() == 0 {
        Err(
            VulkanMountedPlacedResidentKernelDispatchErrorView::EmptyDispatchSegment {
                device_id: mounted.placed_plan.device_id,
            },
        )
    } else if stage_index_of(stages.last()) == usize::MAX {
        Err(
            VulkanMountedPlacedResidentKernelDispatchErrorView::DispatchSegmentStageOverflow {
                device_id: mounted.placed_plan.device_id,
            },
        )
    } else {
        match sequence::try_map(stages, stage_launch(mounted, device_id, plan, loaded)) {
            Err(error) => Err(error),
            Ok(dispatches) => Ok(
                VulkanMountedPlacedResidentDispatchSegmentRunnerView {
                    start_stage_index: stage_index_of(stages.first()),
                    end_stage_index: (stage_index_of(stages.last()) + 1) as usize,
                    dispatch_count: dispatches.len() as usize,
                    dispatches,
                    stream_control_buffer: mounted.stream_control_buffer,
                    sequences: Map::empty().insert(0, false),
                    feedback_sequences: Seq::empty(),
                },
            ),
        }
    }
}

/// The segment with a sequence for what is submitted next.
pub open spec fn with_sequence(
    runner: VulkanMountedPlacedResidentDispatchSegmentRunnerView,
    sequence: VulkanDispatchSegmentSequence,
) -> VulkanMountedPlacedResidentDispatchSegmentRunnerView {
    match sequence {
        VulkanDispatchSegmentSequence::FeedbackLane(lane) => if lane
            < runner.feedback_sequences.len() {
            runner
        } else {
            VulkanMountedPlacedResidentDispatchSegmentRunnerView {
                feedback_sequences: runner.feedback_sequences + Seq::new(
                    (lane + 1 - runner.feedback_sequences.len()) as nat,
                    |i: int| false,
                ),
                ..runner
            }
        },
        VulkanDispatchSegmentSequence::Variant(variant) => if runner.sequences.contains_key(
            variant as usize,
        ) {
            runner
        } else {
            VulkanMountedPlacedResidentDispatchSegmentRunnerView {
                sequences: runner.sequences.insert(variant as usize, false),
                ..runner
            }
        },
    }
}

/// The sequence that a submission goes to.
pub open spec fn chosen_sequence(sequence_variant: u8, feedback_lane: Option<usize>) -> VulkanDispatchSegmentSequence {
    match feedback_lane {
        Some(lane) => VulkanDispatchSegmentSequence::FeedbackLane(lane),
        None => VulkanDispatchSegmentSequence::Variant(sequence_variant),
    }
}

/// Whether the segment keeps a sequence.
pub open spec fn keeps(
    runner: VulkanMountedPlacedResidentDispatchSegmentRunnerView,
    sequence: VulkanDispatchSegmentSequence,
) -> bool {
    match sequence {
        VulkanDispatchSegmentSequence::FeedbackLane(lane) => lane < runner.feedback_sequences.len(),
        VulkanDispatchSegmentSequence::Variant(variant) => runner.sequences.contains_key(
            variant as usize,
        ),
    }
}

/// Whether the commands of a sequence are recorded.
pub open spec fn is_recorded(
    runner: VulkanMountedPlacedResidentDispatchSegmentRunnerView,
    sequence: VulkanDispatchSegmentSequence,
) -> bool {
    match sequence {
        VulkanDispatchSegmentSequence::FeedbackLane(lane) => {
            runner.feedback_sequences[lane as int]
        },
        VulkanDispatchSegmentSequence::Variant(variant) => runner.sequences[variant as usize],
    }
}

/// The segment once the commands of a sequence are recorded.
pub open spec fn with_recording(
    runner: VulkanMountedPlacedResidentDispatchSegmentRunnerView,
    sequence: VulkanDispatchSegmentSequence,
) -> VulkanMountedPlacedResidentDispatchSegmentRunnerView {
    match sequence {
        VulkanDispatchSegmentSequence::FeedbackLane(lane) => {
            VulkanMountedPlacedResidentDispatchSegmentRunnerView {
                feedback_sequences: runner.feedback_sequences.update(lane as int, true),
                ..runner
            }
        },
        VulkanDispatchSegmentSequence::Variant(variant) => {
            VulkanMountedPlacedResidentDispatchSegmentRunnerView {
                sequences: runner.sequences.insert(variant as usize, true),
                ..runner
            }
        },
    }
}

/// Whether none of the launches takes push constants.
pub open spec fn takes_no_push_constants(
    dispatches: Seq<VulkanMountedPlacedResidentPedalDispatchView>,
) -> bool {
    forall|i: int| 0 <= i < dispatches.len() ==> (#[trigger] dispatches[i]).push_constants.len() == 0
}

/// Whether none of the kernels takes push constants.
pub open spec fn kernels_take_none(kernels: Seq<VulkanResidentKernelDispatchView>) -> bool {
    forall|i: int|
        0 <= i < kernels.len() ==> (#[trigger] kernels[i]).push_constant_byte_count == 0
}

/// Whether a sequence can be replayed as it is: its commands are recorded, nothing in them depends on
/// where the stream stands, and no measurement asks for a new recording.
pub open spec fn can_replay(
    runner: VulkanMountedPlacedResidentDispatchSegmentRunnerView,
    sequence: VulkanDispatchSegmentSequence,
    prefix: Seq<VulkanResidentKernelDispatchView>,
    suffix: Seq<VulkanResidentKernelDispatchView>,
    measuring: bool,
) -> bool {
    &&& !measuring
    &&& is_recorded(runner, sequence)
    &&& takes_no_push_constants(runner.dispatches)
    &&& kernels_take_none(prefix)
    &&& kernels_take_none(suffix)
}

/// The bytes of a launch's push constants, or why there are none.
pub type SegmentBytes = Result<Seq<u8>, VulkanMountedPlacedResidentKernelDispatchErrorView>;

/// The steps of a segment, with what is launched before and after it.
pub open spec fn segment_steps(
    runner: VulkanMountedPlacedResidentDispatchSegmentRunnerView,
    prefix: Seq<VulkanResidentKernelDispatchView>,
    suffix: Seq<VulkanResidentKernelDispatchView>,
    push_constants: Seq<Seq<u8>>,
) -> Seq<VulkanResidentKernelSequenceStepView> {
    device::plain_steps(prefix) + Seq::new(
        runner.dispatches.len(),
        |i: int|
            VulkanResidentKernelSequenceStepView {
                dispatch: runner.dispatches[i].resident_dispatch,
                push_constants: push_constants[i],
            },
    ) + device::plain_steps(suffix)
}

/// What is submitted of a segment.
pub open spec fn submission(
    runner: VulkanMountedPlacedResidentDispatchSegmentRunnerView,
    sequence: VulkanDispatchSegmentSequence,
    prefix: Seq<VulkanResidentKernelDispatchView>,
    suffix: Seq<VulkanResidentKernelDispatchView>,
    measuring: bool,
    bytes: Seq<SegmentBytes>,
) -> Result<
    VulkanDispatchSegmentSubmissionView,
    VulkanMountedPlacedResidentKernelDispatchErrorView,
> {
    if can_replay(runner, sequence, prefix, suffix, measuring) {
        Ok(VulkanDispatchSegmentSubmissionView { sequence, recorded_steps: None })
    } else {
        match sequence::try_map(bytes, sequence::as_is()) {
            Err(error) => Err(error),
            Ok(push_constants) => Ok(
                VulkanDispatchSegmentSubmissionView {
                    sequence,
                    recorded_steps: Some(segment_steps(runner, prefix, suffix, push_constants)),
                },
            ),
        }
    }
}

/// The runs of the first `n` launches, pedal by pedal. The segment is measured as one: its first
/// launch carries the time.
pub open spec fn pedal_runs(
    dispatches: Seq<VulkanMountedPlacedResidentPedalDispatchView>,
    execution_time_ns: u64,
    n: nat,
) -> Seq<VulkanMountedPlacedResidentPedalRunView>
    decreases n,
{
    if n == 0 {
        Seq::empty()
    } else {
        let done = pedal_runs(dispatches, execution_time_ns, (n - 1) as nat);
        let dispatch = dispatches[n - 1];
        let run = timed_run(dispatches, execution_time_ns, n - 1);
        if done.len() > 0 && done.last().pedal_id == dispatch.pedal_id {
            done.drop_last().push(
                VulkanMountedPlacedResidentPedalRunView {
                    pedal_id: done.last().pedal_id,
                    dispatch_runs: done.last().dispatch_runs.push(run),
                },
            )
        } else {
            done.push(
                VulkanMountedPlacedResidentPedalRunView {
                    pedal_id: dispatch.pedal_id,
                    dispatch_runs: seq![run],
                },
            )
        }
    }
}

/// The run of launch `i`.
pub open spec fn timed_run(
    dispatches: Seq<VulkanMountedPlacedResidentPedalDispatchView>,
    execution_time_ns: u64,
    i: int,
) -> VulkanMountedPlacedResidentPedalDispatchRunView {
    pedal_runner::dispatch_run(
        dispatches[i],
        if i == 0 {
            execution_time_ns
        } else {
            0
        },
    )
}

/// The runs of the launches of all pedals, one after the other.
pub open spec fn flattened(runs: Seq<VulkanMountedPlacedResidentPedalRunView>) -> Seq<
    VulkanMountedPlacedResidentPedalDispatchRunView,
>
    decreases runs.len(),
{
    if runs.len() == 0 {
        Seq::empty()
    } else {
        flattened(runs.drop_last()) + runs.last().dispatch_runs
    }
}

/// The runs of a segment keep every launch, in order, and adjacent runs belong to different pedals.
pub proof fn pedal_runs_keep_every_launch(
    dispatches: Seq<VulkanMountedPlacedResidentPedalDispatchView>,
    execution_time_ns: u64,
    n: nat,
)
    requires
        n <= dispatches.len(),
    ensures
        flattened(pedal_runs(dispatches, execution_time_ns, n)) == Seq::new(
            n,
            |i: int| timed_run(dispatches, execution_time_ns, i),
        ),
        forall|k: int|
            0 < k < pedal_runs(dispatches, execution_time_ns, n).len() ==> pedal_runs(
                dispatches,
                execution_time_ns,
                n,
            )[k - 1].pedal_id != #[trigger] pedal_runs(
                dispatches,
                execution_time_ns,
                n,
            )[k].pedal_id,
        n > 0 ==> pedal_runs(dispatches, execution_time_ns, n).len() > 0 && pedal_runs(
            dispatches,
            execution_time_ns,
            n,
        ).last().pedal_id == dispatches[n - 1].pedal_id,
    decreases n,
{
    if n > 0 {
        let before = (n - 1) as nat;
        pedal_runs_keep_every_launch(dispatches, execution_time_ns, before);
        let done = pedal_runs(dispatches, execution_time_ns, before);
        let runs = pedal_runs(dispatches, execution_time_ns, n);
        let run = timed_run(dispatches, execution_time_ns, n - 1);
        let all = Seq::new(n, |i: int| timed_run(dispatches, execution_time_ns, i));
        assert(all =~= Seq::new(before, |i: int| timed_run(dispatches, execution_time_ns, i)).push(
            run,
        ));
        if done.len() > 0 && done.last().pedal_id == dispatches[n - 1].pedal_id {
            assert(runs.drop_last() =~= done.drop_last());
            assert(flattened(runs) =~= flattened(done).push(run));
            assert forall|k: int| 0 < k < runs.len() implies runs[k - 1].pedal_id
                != #[trigger] runs[k].pedal_id by {
                assert(done[k - 1].pedal_id != done[k].pedal_id);
            }
        } else {
            assert(runs.drop_last() =~= done);
            assert(flattened(runs) =~= flattened(done).push(run));
            assert forall|k: int| 0 < k < runs.len() implies runs[k - 1].pedal_id
                != #[trigger] runs[k].pedal_id by {
                if k < done.len() {
                    assert(done[k - 1].pedal_id != done[k].pedal_id);
                }
            }
        }
    } else {
        assert(flattened(pedal_runs(dispatches, execution_time_ns, n)) =~= Seq::new(
            n,
            |i: int| timed_run(dispatches, execution_time_ns, i),
        ));
    }
}

/// The run of a segment, from what came of writing where the stream stands and of running the
/// sequence (how long it took).
pub open spec fn segment_run(
    runner: VulkanMountedPlacedResidentDispatchSegmentRunnerView,
    submitted: Result<
        VulkanDispatchSegmentSubmissionView,
        VulkanMountedPlacedResidentKernelDispatchErrorView,
    >,
    written: Result<(), Seq<char>>,
    ran: Result<u64, Seq<char>>,
    capture_execution_trace: bool,
) -> Result<
    Seq<VulkanMountedPlacedResidentPedalRunView>,
    VulkanMountedPlacedResidentKernelDispatchErrorView,
> {
    match written {
        Err(error) => Err(VulkanMountedPlacedResidentKernelDispatchErrorView::Vulkan(error)),
        Ok(_) => match submitted {
            Err(error) => Err(error),
            Ok(_) => match ran {
                Err(error) => Err(VulkanMountedPlacedResidentKernelDispatchErrorView::Vulkan(error)),
                Ok(time) => if capture_execution_trace {
                    Ok(pedal_runs(runner.dispatches, time, runner.dispatches.len()))
                } else {
                    Ok(Seq::empty())
                },
            },
        },
    }
}

#[verifier::loop_isolation(false)]
fn find_bound(plan: &VulkanMountedPlacedBoundDispatchPlan, dispatch_index: usize) -> (r: Option<
    &VulkanMountedPlacedBoundDispatch,
>)
    ensures
        r.deep_view() == sequence::find_first(plan@.dispatches, has_index(dispatch_index)),
{
    let ghost all = plan.dispatches.deep_view();
    let ghost p = has_index(dispatch_index);
    let mut i: usize = 0;
    while i < plan.dispatches.len()
        invariant
            i <= plan.dispatches.len(),
            forall|j: int| 0 <= j < i ==> !p(#[trigger] all[j]),
        decreases plan.dispatches.len() - i,
    {
        let item = &plan.dispatches[i];
        assert(all[i as int] == item.deep_view());
        if item.dispatch_index == dispatch_index {
            proof {
                sequence::lemma_find_first_at(all, p, i as int);
            }
            return Some(item);
        }
        i += 1;
    }
    proof {
        sequence::lemma_find_first_none(all, p);
    }
    None
}

fn make_stage_launch(
    device: &VulkanComputeDevice,
    mounted: &VulkanMountedPlacedStreamCircuit,
    plan: &VulkanMountedPlacedBoundDispatchPlan,
    loaded_manifest: &VulkanLoadedReusableKernelArtifactManifest,
    stage: &VulkanMountedPlacedStreamTickStage,
) -> (r: Result<
    VulkanMountedPlacedResidentPedalDispatch,
    VulkanMountedPlacedResidentKernelDispatchError,
>)
    ensures
        sequence::outcome(r) == stage_launch(
            mounted@,
            device@.device_id,
            plan@,
            loaded_manifest@,
        )(stage@),
{
    match stage {
        VulkanMountedPlacedStreamTickStage::Boundary { stage_index } => Err(
            VulkanMountedPlacedResidentKernelDispatchError::NonDispatchStageInSegment {
                device_id: mounted.device_id().to_owned(),
                stage_index: *stage_index,
            },
        ),
        VulkanMountedPlacedStreamTickStage::Dispatch { stage_index, dispatch_index } => {
            match find_bound(plan, *dispatch_index) {
                None => Err(
                    VulkanMountedPlacedResidentKernelDispatchError::MissingSegmentDispatch {
                        device_id: mounted.device_id().to_owned(),
                        stage_index: *stage_index,
                        dispatch_index: *dispatch_index,
                    },
                ),
                Some(bound) => match mounted.create_resident_kernel_dispatch_for_bound_dispatch(
                    device,
                    bound,
                    loaded_manifest,
                ) {
                    Err(error) => Err(error),
                    Ok(resident) => Ok(pedal_runner::launch(bound, resident)),
                },
            }
        },
    }
}

#[verifier::loop_isolation(false)]
fn none_takes_push_constants(kernels: &Vec<VulkanResidentKernelDispatch>) -> (r: bool)
    ensures
        r == kernels_take_none(kernels.deep_view()),
{
    let ghost all = kernels.deep_view();
    let mut i: usize = 0;
    while i < kernels.len()
        invariant
            i <= kernels.len(),
            forall|j: int|
                0 <= j < i ==> (#[trigger] all[j]).push_constant_byte_count == 0,
        decreases kernels.len() - i,
    {
        assert(all[i as int] == kernels@[i as int]@);
        if kernels[i].push_constant_byte_count != 0 {
            return false;
        }
        i += 1;
    }
    true
}

impl VulkanMountedPlacedResidentDispatchSegmentRunner {
    /// Whether the sequences stand in the order of their variants.
    pub open spec fn well_formed(&self) -> bool {
        self.sequences.sorted()
    }

    /// The segment of a run of stages.
    #[verifier::loop_isolation(false)]
    pub fn from_dispatch_stages(
        device: &VulkanComputeDevice,
        mounted: &VulkanMountedPlacedStreamCircuit,
        mounted_bound_plan: &VulkanMountedPlacedBoundDispatchPlan,
        loaded_manifest: &VulkanLoadedReusableKernelArtifactManifest,
        stages: &Vec<VulkanMountedPlacedStreamTickStage>,
    ) -> (r: Result<Self, VulkanMountedPlacedResidentKernelDispatchError>)
        ensures
            sequence::outcome(r) == segment_runner(
                mounted@,
                device@.device_id,
                mounted_bound_plan@,
                loaded_manifest@,
                stages.deep_view(),
            ),
            r matches Ok(runner) ==> runner.well_formed(),
    {
        let ghost all = stages.deep_view();
        assert(all.len() == stages@.len());
        if stages.len() == 0 {
            return Err(
                VulkanMountedPlacedResidentKernelDispatchError::EmptyDispatchSegment {
                    device_id: mounted.device_id().to_owned(),
                },
            );
        }
        let last: usize = stages[stages.len() - 1].stage_index();
        if last == usize::MAX {
            return Err(
                VulkanMountedPlacedResidentKernelDispatchError::DispatchSegmentStageOverflow {
                    device_id: mounted.device_id().to_owned(),
                },
            );
        }
        let ghost all_dispatches = stages.deep_view();
        let ghost step_dispatches = stage_launch(mounted@, device@.device_id, mounted_bound_plan@, loaded_manifest@);
        let mut dispatches: Vec<VulkanMountedPlacedResidentPedalDispatch> = Vec::new();
        let mut i: usize = 0;
        assert(all_dispatches.take(0) =~= Seq::empty());
        assert(dispatches.deep_view() =~= Seq::empty());
        while i < stages.len()
            invariant
                i <= stages.len(),
                sequence::try_map(all_dispatches.take(i as int), step_dispatches) is Ok,
                sequence::try_map(all_dispatches.take(i as int), step_dispatches)->Ok_0 == dispatches.deep_view(),
            decreases stages.len() - i,
        {
            let item = &stages[i];
            assert(all_dispatches[i as int] == item.deep_view());
            proof {
                sequence::lemma_try_map_step(all_dispatches, step_dispatches, i as int);
                if sequence::try_map(all_dispatches.take(i + 1), step_dispatches) is Err {
                    sequence::lemma_try_map_error(all_dispatches, step_dispatches, i + 1);
                }
            }
            match make_stage_launch(device, mounted, mounted_bound_plan, loaded_manifest, item) {
                Ok(added) => {
                    let ghost before = dispatches.deep_view();
                    let ghost value = added.deep_view();
                    dispatches.push(added);
                    assert(dispatches.deep_view() =~= before.push(value));
                },
                Err(error) => {
                    return Err(error);
                },
            }
            i += 1;
        }
        assert(all_dispatches.take(all_dispatches.len() as int) =~= all_dispatches);
        let mut sequences: OrderedMap<usize, bool> = OrderedMap::new();
        sequences.insert(0, false);
        let feedback_sequences: Vec<bool> = Vec::new();
        assert(feedback_sequences.deep_view() =~= Seq::empty());
        assert(dispatches.deep_view().len() == dispatches@.len());
        Ok(
            VulkanMountedPlacedResidentDispatchSegmentRunner {
                start_stage_index: stages[0].stage_index(),
                end_stage_index: last + 1,
                dispatch_count: dispatches.len(),
                dispatches,
                stream_control_buffer: mounted.stream_control_buffer.clone(),
                sequences,
                feedback_sequences,
            },
        )
    }

    /// Keeps a sequence for what is submitted next.
    #[verifier::loop_isolation(false)]
    fn keep_sequence(&mut self, sequence: VulkanDispatchSegmentSequence)
        requires
            old(self).well_formed(),
            sequence matches VulkanDispatchSegmentSequence::FeedbackLane(lane) ==> lane
                < usize::MAX,
        ensures
            final(self).well_formed(),
            final(self)@ == with_sequence(old(self)@, sequence),
            keeps(final(self)@, sequence),
    {
        let ghost before = self@;
        match sequence {
            VulkanDispatchSegmentSequence::FeedbackLane(lane) => {
                let ghost given = self.feedback_sequences@;
                assert(before.feedback_sequences =~= given);
                while self.feedback_sequences.len() <= lane
                    invariant
                        lane < usize::MAX,
                        self.well_formed(),
                        self@.start_stage_index == before.start_stage_index,
                        self@.end_stage_index == before.end_stage_index,
                        self@.dispatch_count == before.dispatch_count,
                        self@.dispatches == before.dispatches,
                        self@.stream_control_buffer == before.stream_control_buffer,
                        self@.sequences == before.sequences,
                        self.feedback_sequences@.len() <= lane + 1 || self.feedback_sequences@
                            == given,
                        given.len() <= self.feedback_sequences@.len(),
                        self.feedback_sequences@ == given + Seq::new(
                            (self.feedback_sequences@.len() - given.len()) as nat,
                            |i: int| false,
                        ),
                    decreases lane + 1 - self.feedback_sequences@.len(),
                {
                    self.feedback_sequences.push(false);
                    assert(self.feedback_sequences@ =~= given + Seq::new(
                        (self.feedback_sequences@.len() - given.len()) as nat,
                        |i: int| false,
                    ));
                }
                assert(self@.feedback_sequences =~= self.feedback_sequences@);
                assert(self@ == with_sequence(before, sequence));
            },
            VulkanDispatchSegmentSequence::Variant(variant) => {
                let key: usize = variant as usize;
                if !self.sequences.contains_key(&key) {
                    self.sequences.insert(key, false);
                }
            },
        }
    }

    /// Whether a sequence can be replayed as it is.
    #[verifier::loop_isolation(false)]
    fn can_replay_recorded_commands(
        &self,
        sequence: VulkanDispatchSegmentSequence,
        prefix_dispatches: &Vec<VulkanResidentKernelDispatch>,
        suffix_dispatches: &Vec<VulkanResidentKernelDispatch>,
        measuring: bool,
    ) -> (r: bool)
        requires
            keeps(self@, sequence),
        ensures
            r == can_replay(
                self@,
                sequence,
                prefix_dispatches.deep_view(),
                suffix_dispatches.deep_view(),
                measuring,
            ),
    {
        assert(self@.feedback_sequences =~= self.feedback_sequences@);
        let recorded: bool = match sequence {
            VulkanDispatchSegmentSequence::FeedbackLane(lane) => self.feedback_sequences[lane],
            VulkanDispatchSegmentSequence::Variant(variant) => match self.sequences.get(
                &(variant as usize),
            ) {
                Some(recorded) => *recorded,
                None => false,
            },
        };
        if measuring || !recorded {
            return false;
        }
        let ghost all = self@.dispatches;
        let mut i: usize = 0;
        while i < self.dispatches.len()
            invariant
                i <= self.dispatches.len(),
                forall|j: int| 0 <= j < i ==> (#[trigger] all[j]).push_constants.len() == 0,
            decreases self.dispatches.len() - i,
        {
            assert(all[i as int] == self.dispatches@[i as int]@);
            assert(all[i as int].push_constants.len()
                == self.dispatches@[i as int].push_constants@.len());
            if self.dispatches[i].push_constants.len() != 0 {
                return false;
            }
            i += 1;
        }
        none_takes_push_constants(prefix_dispatches) && none_takes_push_constants(
            suffix_dispatches,
        )
    }

    /// The steps of the segment, with what is launched before and after it.
    #[verifier::loop_isolation(false)]
    fn steps(
        &self,
        prefix_dispatches: &Vec<VulkanResidentKernelDispatch>,
        suffix_dispatches: &Vec<VulkanResidentKernelDispatch>,
        push_constants: &Vec<Vec<u8>>,
    ) -> (r: Vec<VulkanResidentKernelSequenceStep>)
        requires
            push_constants@.len() == self@.dispatches.len(),
        ensures
            r.deep_view() == segment_steps(
                self@,
                prefix_dispatches.deep_view(),
                suffix_dispatches.deep_view(),
                push_constants.deep_view(),
            ),
    {
        let ghost prefix = prefix_dispatches.deep_view();
        let ghost suffix = suffix_dispatches.deep_view();
        let ghost bytes = push_constants.deep_view();
        let ghost middle = Seq::new(
            self@.dispatches.len(),
            |i: int|
                VulkanResidentKernelSequenceStepView {
                    dispatch: self@.dispatches[i].resident_dispatch,
                    push_constants: bytes[i],
                },
        );
        assert(self@.dispatches.len() == self.dispatches@.len());
        let mut steps: Vec<VulkanResidentKernelSequenceStep> = Vec::new();
        assert(steps.deep_view() =~= device::plain_steps(Seq::empty()));
        assert(Seq::<VulkanResidentKernelDispatchView>::empty() + prefix =~= prefix);
        device::push_plain_steps(&mut steps, prefix_dispatches, Ghost(Seq::empty()));
        let mut i: usize = 0;
        assert(device::plain_steps(prefix) + middle.take(0) =~= device::plain_steps(prefix));
        while i < self.dispatches.len()
            invariant
                i <= self.dispatches.len(),
                steps.deep_view() == device::plain_steps(prefix) + middle.take(i as int),
            decreases self.dispatches.len() - i,
        {
            let copy: Vec<u8> = push_constants[i].clone();
            assert(copy.deep_view() =~= bytes[i as int]);
            assert(self@.dispatches[i as int] == self.dispatches@[i as int]@);
            let step = VulkanResidentKernelSequenceStep {
                dispatch: self.dispatches[i].resident_dispatch.clone(),
                push_constants: copy,
            };
            let ghost before = steps.deep_view();
            let ghost added = step@;
            steps.push(step);
            assert(steps.deep_view() =~= before.push(added));
            i += 1;
            assert(steps.deep_view() =~= device::plain_steps(prefix) + middle.take(i as int));
        }
        assert(middle.take(middle.len() as int) =~= middle);
        let ghost front = steps.deep_view();
        let mut tail: Vec<VulkanResidentKernelSequenceStep> = Vec::new();
        assert(tail.deep_view() =~= device::plain_steps(Seq::empty()));
        assert(Seq::<VulkanResidentKernelDispatchView>::empty() + suffix =~= suffix);
        device::push_plain_steps(&mut tail, suffix_dispatches, Ghost(Seq::empty()));
        steps.append(&mut tail);
        assert(steps.deep_view() =~= front + device::plain_steps(suffix));
        steps
    }

    /// What is submitted of the segment, from what came of writing the push constants of its
    /// launches. The segment keeps a sequence for it.
    pub fn prepare_submission(
        &mut self,
        prefix_dispatches: &Vec<VulkanResidentKernelDispatch>,
        suffix_dispatches: &Vec<VulkanResidentKernelDispatch>,
        sequence_variant: u8,
        feedback_lane: Option<usize>,
        measuring: bool,
        bytes: Vec<Result<Vec<u8>, VulkanMountedPlacedResidentKernelDispatchError>>,
    ) -> (r: Result<VulkanDispatchSegmentSubmission, VulkanMountedPlacedResidentKernelDispatchError>)
        requires
            old(self).well_formed(),
            bytes@.len() == old(self)@.dispatches.len(),
            feedback_lane matches Some(lane) ==> lane < usize::MAX,
        ensures
            final(self).well_formed(),
            final(self)@ == with_sequence(
                old(self)@,
                chosen_sequence(sequence_variant, feedback_lane),
            ),
            keeps(final(self)@, chosen_sequence(sequence_variant, feedback_lane)),
            sequence::outcome(r) == submission(
                final(self)@,
                chosen_sequence(sequence_variant, feedback_lane),
                prefix_dispatches.deep_view(),
                suffix_dispatches.deep_view(),
                measuring,
                sequence::outcomes(bytes@),
            ),
    {
        let sequence: VulkanDispatchSegmentSequence = match feedback_lane {
            Some(lane) => VulkanDispatchSegmentSequence::FeedbackLane(lane),
            None => VulkanDispatchSegmentSequence::Variant(sequence_variant),
        };
        let ghost given = self@;
        self.keep_sequence(sequence);
        if self.can_replay_recorded_commands(
            sequence,
            prefix_dispatches,
            suffix_dispatches,
            measuring,
        ) {
            return Ok(VulkanDispatchSegmentSubmission { sequence, recorded_steps: None });
        }
        let ghost answers = sequence::outcomes(bytes@);
        let push_constants: Vec<Vec<u8>> = match sequence::collected(bytes) {
            Err(error) => {
                return Err(error);
            },
            Ok(push_constants) => push_constants,
        };
        proof {
            sequence::lemma_try_map_ok(
                answers,
                sequence::as_is::<Seq<u8>, VulkanMountedPlacedResidentKernelDispatchErrorView>(),
            );
            assert(push_constants.deep_view().len() == push_constants@.len());
        }
        let steps: Vec<VulkanResidentKernelSequenceStep> = self.steps(
            prefix_dispatches,
            suffix_dispatches,
            &push_constants,
        );
        Ok(VulkanDispatchSegmentSubmission { sequence, recorded_steps: Some(steps) })
    }

    /// Notes that the commands of a sequence are recorded.
    pub fn note_recorded(&mut self, sequence: VulkanDispatchSegmentSequence)
        requires
            old(self).well_formed(),
            keeps(old(self)@, sequence),
        ensures
            final(self).well_formed(),
            final(self)@ == with_recording(old(self)@, sequence),
            is_recorded(final(self)@, sequence),
    {
        match sequence {
            VulkanDispatchSegmentSequence::FeedbackLane(lane) => {
                let ghost before = self.feedback_sequences.deep_view();
                assert(before.len() == self.feedback_sequences@.len());
                self.feedback_sequences.set(lane, true);
                assert(self.feedback_sequences.deep_view() =~= before.update(lane as int, true));
            },
            VulkanDispatchSegmentSequence::Variant(variant) => {
                self.sequences.insert(variant as usize, true);
            },
        }
    }

    /// What came of waiting for a sequence of the segment.
    pub fn wait_submitted(
        &self,
        sequence_variant: u8,
        feedback_lane: Option<usize>,
        waited: &Result<(), VulkanError>,
    ) -> (r: Result<(), VulkanMountedPlacedResidentKernelDispatchError>)
        requires
            keeps(self@, chosen_sequence(sequence_variant, feedback_lane)),
        ensures
            sequence::outcome(r) == (match sequence::outcome(*waited) {
                Err(error) => Err(VulkanMountedPlacedResidentKernelDispatchErrorView::Vulkan(error)),
                Ok(_) => Ok(()),
            }),
    {
        match waited {
            Err(error) => Err(VulkanMountedPlacedResidentKernelDispatchError::Vulkan(error.clone())),
            Ok(_) => Ok(()),
        }
    }

    /// What is written before the launches run under stream control.
    pub fn stream_control_write(&self, control: VulkanMountedPlacedStreamControl) -> (r:
        VulkanStreamControlWrite)
        ensures
            r@ == stream_control::control_write(self@.stream_control_buffer, control),
    {
        VulkanStreamControlWrite::into_buffer(&self.stream_control_buffer, control)
    }

    /// The run of the segment, from what came of writing where the stream stands, of writing the push
    /// constants of its launches and of running the sequence (how long it took).
    pub fn run_with_stream_control(
        &mut self,
        prefix_dispatches: &Vec<VulkanResidentKernelDispatch>,
        suffix_dispatches: &Vec<VulkanResidentKernelDispatch>,
        sequence_variant: u8,
        capture_execution_trace: bool,
        measuring: bool,
        written: &Result<(), VulkanError>,
        bytes: Vec<Result<Vec<u8>, VulkanMountedPlacedResidentKernelDispatchError>>,
        ran: &Result<u64, VulkanError>,
    ) -> (r: Result<
        Vec<VulkanMountedPlacedResidentPedalRun>,
        VulkanMountedPlacedResidentKernelDispatchError,
    >)
        requires
            old(self).well_formed(),
            bytes@.len() == old(self)@.dispatches.len(),
        ensures
            final(self).well_formed(),
            sequence::outcome(r) == segment_run(
                old(self)@,
                submission(
                    with_sequence(old(self)@, chosen_sequence(sequence_variant, None)),
                    chosen_sequence(sequence_variant, None),
                    prefix_dispatches.deep_view(),
                    suffix_dispatches.deep_view(),
                    measuring,
                    sequence::outcomes(bytes@),
                ),
                sequence::outcome(*written),
                sequence::outcome(*ran),
                capture_execution_trace,
            ),
            final(self)@ == (if written is Ok {
                with_sequence(old(self)@, chosen_sequence(sequence_variant, None))
            } else {
                old(self)@
            }),
    {
        match written {
            Err(error) => {
                return Err(
                    VulkanMountedPlacedResidentKernelDispatchError::Vulkan(error.clone()),
                );
            },
            Ok(_) => {},
        }
        match self.prepare_submission(
            prefix_dispatches,
            suffix_dispatches,
            sequence_variant,
            None,
            measuring,
            bytes,
        ) {
            Err(error) => {
                return Err(error);
            },
            Ok(_) => {},
        }
        let time: u64 = match ran {
            Err(error) => {
                return Err(
                    VulkanMountedPlacedResidentKernelDispatchError::Vulkan(error.clone()),
                );
            },
            Ok(time) => *time,
        };
        if capture_execution_trace {
            Ok(self.completed_pedal_runs(time))
        } else {
            let none: Vec<VulkanMountedPlacedResidentPedalRun> = Vec::new();
            assert(none.deep_view() =~= Seq::empty());
            Ok(none)
        }
    }

    /// The runs of the launches, pedal by pedal.
    #[verifier::loop_isolation(false)]
    pub fn completed_pedal_runs(&self, execution_time_ns: u64) -> (r: Vec<
        VulkanMountedPlacedResidentPedalRun,
    >)
        ensures
            r.deep_view() == pedal_runs(
                self@.dispatches,
                execution_time_ns,
                self@.dispatches.len(),
            ),
    {
        let ghost all = self@.dispatches;
        let mut runs: Vec<VulkanMountedPlacedResidentPedalRun> = Vec::new();
        let mut i: usize = 0;
        assert(runs.deep_view() =~= Seq::empty());
        assert(all.len() == self.dispatches@.len());
        while i < self.dispatches.len()
            invariant
                i <= self.dispatches.len(),
                runs.deep_view() == pedal_runs(all, execution_time_ns, i as nat),
            decreases self.dispatches.len() - i,
        {
            let dispatch = &self.dispatches[i];
            assert(all[i as int] == dispatch@);
            let ghost done = runs.deep_view();
            assert(done.len() == runs@.len());
            let run = pedal_runner::run_of(
                dispatch,
                if i == 0 {
                    execution_time_ns
                } else {
                    0
                },
            );
            let ghost added = run@;
            let mut goes_on: bool = false;
            if runs.len() > 0 {
                assert(done.last() == runs@[runs@.len() - 1]@);
                goes_on =
                text::same(runs[runs.len() - 1].pedal_id.as_str(), dispatch.pedal_id.as_str());
            }
            if goes_on {
                match runs.pop() {
                    Some(last) => {
                        let mut grown: VulkanMountedPlacedResidentPedalRun = last;
                        let ghost before = grown@;
                        assert(before == done.last());
                        assert(runs.deep_view() =~= done.drop_last());
                        grown.dispatch_runs.push(run);
                        assert(grown@.dispatch_runs =~= before.dispatch_runs.push(added));
                        let ghost whole = grown@;
                        runs.push(grown);
                        assert(runs.deep_view() =~= done.drop_last().push(whole));
                    },
                    None => {},
                }
            } else {
                let fresh = VulkanMountedPlacedResidentPedalRun {
                    pedal_id: dispatch.pedal_id.clone(),
                    dispatch_runs: vec![run],
                };
                assert(fresh@.dispatch_runs =~= seq![added]);
                let ghost whole = fresh@;
                runs.push(fresh);
                assert(runs.deep_view() =~= done.push(whole));
            }
            i += 1;
        }
        runs
    }
}

/// A segment launches what its stages name, stage by stage: all of them are dispatches, and each
/// launch is that of the first bound dispatch with the stage's number. It spans its stages from the
/// first to the last, and has recorded nothing yet.
pub proof fn segments_launch_their_stages(
    mounted: VulkanMountedPlacedStreamCircuitView,
    device_id: Seq<char>,
    plan: VulkanMountedPlacedBoundDispatchPlanView,
    loaded: VulkanLoadedReusableKernelArtifactManifestView,
    stages: Seq<VulkanMountedPlacedStreamTickStageView>,
    i: int,
)
    requires
        segment_runner(mounted, device_id, plan, loaded, stages) is Ok,
        stages.len() <= usize::MAX,
        0 <= i < stages.len(),
    ensures
        ({
            let runner = segment_runner(mounted, device_id, plan, loaded, stages)->Ok_0;
            &&& runner.start_stage_index == stage_index_of(stages[0])
            &&& runner.end_stage_index == stage_index_of(stages[stages.len() - 1]) + 1
            &&& runner.dispatch_count == stages.len()
            &&& runner.dispatches.len() == stages.len()
            &&& runner.stream_control_buffer == mounted.stream_control_buffer
            &&& forall|variant: u8|
                keeps(runner, VulkanDispatchSegmentSequence::Variant(variant)) ==> !#[trigger] is_recorded(
                    runner,
                    VulkanDispatchSegmentSequence::Variant(variant),
                )
            &&& runner.feedback_sequences.len() == 0
            &&& stages[i] matches VulkanMountedPlacedStreamTickStageView::Dispatch {
                dispatch_index,
                ..
            } && {
                &&& runner.dispatches[i].dispatch_index == dispatch_index
                &&& exists|d: int|
                    0 <= d < plan.dispatches.len() && {
                        let bound = #[trigger] plan.dispatches[d];
                        &&& bound.dispatch_index == dispatch_index
                        &&& pedal_runner::launches(
                            runner.dispatches[i],
                            bound,
                            mounted,
                            device_id,
                            loaded,
                        )
                        &&& forall|e: int|
                            0 <= e < d ==> (#[trigger] plan.dispatches[e]).dispatch_index
                                != dispatch_index
                    }
            }
        }),
{
    let step = stage_launch(mounted, device_id, plan, loaded);
    sequence::lemma_try_map_ok(stages, step);
    assert(step(stages[i]) is Ok);
    match stages[i] {
        VulkanMountedPlacedStreamTickStageView::Dispatch { dispatch_index, .. } => {
            let d = sequence::lemma_find_first_some(plan.dispatches, has_index(dispatch_index));
            assert(plan.dispatches[d].dispatch_index == dispatch_index);
        },
        _ => {},
    }
}

/// The stage of a segment has the number that it was given.
pub proof fn stages_have_their_number(stage_index: usize, dispatch_index: usize)
    ensures
        stage_index_of(
            VulkanMountedPlacedStreamTickStageView::Dispatch { stage_index, dispatch_index },
        ) == stage_index,
        stage_index_of(VulkanMountedPlacedStreamTickStageView::Boundary { stage_index })
            == stage_index,
{
}

/// Keeping a sequence keeps it, and leaves every other one as it is. A sequence that was not kept
/// before has not been recorded.
pub proof fn keeping_a_sequence_keeps_the_others(
    runner: VulkanMountedPlacedResidentDispatchSegmentRunnerView,
    sequence: VulkanDispatchSegmentSequence,
    other: VulkanDispatchSegmentSequence,
)
    ensures
        ({
            let kept = with_sequence(runner, sequence);
            &&& keeps(kept, sequence)
            &&& is_recorded(kept, sequence) <==> keeps(runner, sequence) && is_recorded(
                runner,
                sequence,
            )
            &&& keeps(runner, other) ==> keeps(kept, other) && is_recorded(kept, other)
                == is_recorded(runner, other)
            &&& keeps(kept, other) && !keeps(runner, other) ==> match (sequence, other) {
                (
                    VulkanDispatchSegmentSequence::FeedbackLane(lane),
                    VulkanDispatchSegmentSequence::FeedbackLane(lower),
                ) => lower <= lane && !is_recorded(kept, other),
                _ => other == sequence,
            }
            &&& kept.dispatches == runner.dispatches
            &&& kept.start_stage_index == runner.start_stage_index
            &&& kept.end_stage_index == runner.end_stage_index
        }),
{
}

/// Recording a sequence records that one, and leaves every other one as it is.
pub proof fn recording_a_sequence_keeps_the_others(
    runner: VulkanMountedPlacedResidentDispatchSegmentRunnerView,
    sequence: VulkanDispatchSegmentSequence,
    other: VulkanDispatchSegmentSequence,
)
    requires
        keeps(runner, sequence),
        keeps(runner, other),
    ensures
        ({
            let recorded = with_recording(runner, sequence);
            &&& keeps(recorded, sequence)
            &&& is_recorded(recorded, sequence)
            &&& keeps(recorded, other)
            &&& other != sequence ==> is_recorded(recorded, other) == is_recorded(runner, other)
            &&& recorded.dispatches == runner.dispatches
        }),
{
    if other != sequence {
        match (sequence, other) {
            (
                VulkanDispatchSegmentSequence::Variant(a),
                VulkanDispatchSegmentSequence::Variant(b),
            ) => {
                assert(a as usize != b as usize);
            },
            _ => {},
        }
    }
}

/// A lane of a feedback loop has a sequence of its own; what runs outside of one takes the sequence
/// of its variant.
pub proof fn lanes_have_their_own_sequence(variant: u8, lane: usize)
    ensures
        chosen_sequence(variant, Some(lane)) == VulkanDispatchSegmentSequence::FeedbackLane(lane),
        chosen_sequence(variant, None) == VulkanDispatchSegmentSequence::Variant(variant),
{
}

/// A segment is replayed only where it was recorded, where nothing is measured and where no launch
/// takes push constants. Else it is recorded: what comes before it, its own launches with their own
/// push constants, and what comes after it, in this order.
pub proof fn segments_replay_only_what_cannot_change(
    runner: VulkanMountedPlacedResidentDispatchSegmentRunnerView,
    sequence: VulkanDispatchSegmentSequence,
    prefix: Seq<VulkanResidentKernelDispatchView>,
    suffix: Seq<VulkanResidentKernelDispatchView>,
    measuring: bool,
    bytes: Seq<SegmentBytes>,
    i: int,
)
    requires
        submission(runner, sequence, prefix, suffix, measuring, bytes) is Ok,
        bytes.len() == runner.dispatches.len(),
        0 <= i,
    ensures
        ({
            let made = submission(runner, sequence, prefix, suffix, measuring, bytes)->Ok_0;
            let own = prefix.len() as int;
            let after = own + runner.dispatches.len();
            &&& made.sequence == sequence
            &&& made.recorded_steps is None <==> {
                &&& !measuring
                &&& is_recorded(runner, sequence)
                &&& forall|k: int|
                    0 <= k < runner.dispatches.len() ==> (
                    #[trigger] runner.dispatches[k]).push_constants.len() == 0
                &&& forall|k: int|
                    0 <= k < prefix.len() ==> (#[trigger] prefix[k]).push_constant_byte_count == 0
                &&& forall|k: int|
                    0 <= k < suffix.len() ==> (#[trigger] suffix[k]).push_constant_byte_count == 0
            }
            &&& made.recorded_steps matches Some(steps) ==> {
                &&& steps.len() == prefix.len() + runner.dispatches.len() + suffix.len()
                &&& i < prefix.len() ==> steps[i].dispatch == prefix[i]
                    && steps[i].push_constants.len() == 0
                &&& i < runner.dispatches.len() ==> {
                    &&& steps[own + i].dispatch == runner.dispatches[i].resident_dispatch
                    &&& bytes[i] is Ok
                    &&& steps[own + i].push_constants == bytes[i]->Ok_0
                }
                &&& i < suffix.len() ==> steps[after + i].dispatch == suffix[i]
                    && steps[after + i].push_constants.len() == 0
            }
        }),
{
    if !can_replay(runner, sequence, prefix, suffix, measuring) {
        let as_given = sequence::as_is::<
            Seq<u8>,
            VulkanMountedPlacedResidentKernelDispatchErrorView,
        >();
        sequence::lemma_try_map_ok(bytes, as_given);
        if i < bytes.len() {
            assert(as_given(bytes[i]) is Ok);
        }
    }
}

/// A segment that has run reports every launch once, where it is traced: the first with the whole
/// time of the segment, the others with none.
pub proof fn traced_segments_report_every_launch(
    runner: VulkanMountedPlacedResidentDispatchSegmentRunnerView,
    submitted: Result<
        VulkanDispatchSegmentSubmissionView,
        VulkanMountedPlacedResidentKernelDispatchErrorView,
    >,
    written: Result<(), Seq<char>>,
    ran: Result<u64, Seq<char>>,
    traced: bool,
    i: int,
)
    ensures
        segment_run(runner, submitted, written, ran, traced) is Ok <==> written is Ok
            && submitted is Ok && ran is Ok,
        segment_run(runner, submitted, written, ran, traced) matches Ok(runs) ==> {
            &&& !traced ==> runs.len() == 0
            &&& traced ==> {
                let all = flattened(runs);
                &&& all.len() == runner.dispatches.len()
                &&& 0 <= i < all.len() ==> {
                    &&& all[i].dispatch_index == runner.dispatches[i].dispatch_index
                    &&& all[i].kernel_id == runner.dispatches[i].kernel_id
                    &&& all[i].node_id == runner.dispatches[i].node_id
                    &&& all[i].run_time_ns == (if i == 0 {
                        ran->Ok_0
                    } else {
                        0
                    })
                }
            }
        },
{
    if segment_run(runner, submitted, written, ran, traced) is Ok && traced {
        pedal_runs_keep_every_launch(runner.dispatches, ran->Ok_0, runner.dispatches.len());
    }
}

} // verus!
