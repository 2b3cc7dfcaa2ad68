//! Making and running the launches of a device for a batch of lanes.

use crate::circuit_mount::VULKAN_STREAM_CONTROL_BYTE_CAPACITY;
use crate::component_batch::kernels::VulkanComponentBatchExecutionMode;
use crate::component_batch::signals::SignalUse;
use crate::component_batch::signals::VulkanComponentBatchSignalKey;
use crate::component_batch::signals::VulkanComponentBatchSignalKeyView;
use crate::component_batch::signals::VulkanComponentBatchSignalPlan;
use crate::component_batch::signals::VulkanComponentBatchSignalTarget;
use crate::component_batch::signals;
use crate::component_batch::slice::VulkanComponentBatchDispatchStepView;
use crate::component_batch::slice::VulkanComponentBatchSignalBuffer;
use crate::component_batch::slice::VulkanComponentBatchSignalBufferView;
use crate::component_batch::slice::VulkanComponentBatchSlice;
use crate::component_batch::slice::VulkanComponentBatchSliceView;
use crate::component_batch::slice::VulkanResidentComponentBatchSliceRunner;
use crate::component_batch::slice::VulkanResidentComponentBatchSliceRunnerView;
use crate::component_batch::slice;
use crate::component_batch::steps::BindingAnswer;
use crate::component_batch::steps::VulkanComponentBatchBindingRequest;
use crate::component_batch::steps::VulkanComponentBatchBindingRequestView;
use crate::component_batch::steps::VulkanComponentBatchLaunches;
use crate::component_batch::steps;
use crate::component_batch::units::VulkanComponentBatchExecutionUnit;
use crate::component_batch::units::VulkanComponentBatchExecutionUnitView;
use crate::component_batch::units;
use crate::device::VulkanDeviceDirectory;
use crate::device::VulkanDeviceDirectoryView;
use crate::device::VulkanError;
use crate::device::VulkanResidentBuffer;
use crate::device::VulkanResidentBufferName;
use crate::device::VulkanResidentBufferView;
use crate::device::VulkanResidentKernelBufferBinding;
use crate::device::VulkanResidentKernelSequenceStep;
use crate::device::VulkanResidentKernelSequenceStepView;
use crate::device;
use crate::distributed::plan::VulkanDistributedDispatchGroup;
use crate::distributed::plan::VulkanDistributedDispatchGroupView;
use crate::distributed::plan::VulkanDistributedExecutionPlan;
use crate::distributed::plan::VulkanDistributedExecutionPlanView;
use crate::input_transducer;
use crate::kernel_interface::VulkanKernelScalarBinding;
use crate::kernel_interface::VulkanKernelScalarBindingView;
use crate::kernel_interface;
use crate::ordered::OrderedMap;
use crate::ordered::OrderedSet;
use crate::ordered;
use crate::resident_dispatch::VulkanMountedPlacedResidentKernelDispatchError;
use crate::resident_dispatch::VulkanMountedPlacedResidentKernelDispatchErrorView;
use crate::resident_dispatch;
use crate::runtime_error::VulkanResidentInProcessPlacedRuntimeError;
use crate::runtime_error::VulkanResidentInProcessPlacedRuntimeErrorView;
use crate::sequence;
use crate::stream_control::VulkanMountedPlacedStreamControl;
use crate::text::Message;
use crate::text;
use vstd::prelude::*;

verus! {

// ---------------------------------------------------------------------------
// Making the launches
// ---------------------------------------------------------------------------

/// The launches that lead the distributed groups of a device.
pub open spec fn group_leaders(
    groups: Seq<VulkanDistributedDispatchGroupView>,
    device_id: Seq<char>,
) -> Set<usize>
    decreases groups.len(),
{
    if groups.len() == 0 {
        Set::empty()
    } else if groups.last().owner_device_id == device_id {
        group_leaders(groups.drop_last(), device_id).insert(
            groups.last().dispatches.first().dispatch_index,
        )
    } else {
        group_leaders(groups.drop_last(), device_id)
    }
}

/// Whether a unit runs on the device itself.
pub open spec fn is_local() -> spec_fn(VulkanComponentBatchExecutionUnitView) -> bool {
    |unit: VulkanComponentBatchExecutionUnitView| unit is LocalComponent
}

/// The control buffers of a batch, one per lane.
pub open spec fn control_buffers(device_id: Seq<char>, lane_capacity: usize) -> Seq<
    VulkanResidentBufferView,
> {
    Seq::new(
        lane_capacity as nat,
        |i: int| device::mapped_buffer(
            VulkanResidentBufferName::LaneControl(i as usize),
            device_id,
            VULKAN_STREAM_CONTROL_BYTE_CAPACITY,
        ),
    )
}

/// Whether it is told of every descriptor of a device's launches what it reads or writes.
pub open spec fn every_descriptor_told(
    slice: VulkanComponentBatchSliceView,
    uses: Seq<Seq<SignalUse>>,
) -> bool {
    &&& uses.len() == slice.dispatches.len()
    &&& forall|i: int|
        0 <= i < uses.len() ==> (#[trigger] uses[i]).len() == slice.dispatches[i].descriptors.len()
}

/// The signal buffers of a batch, and which signal lives in which.
pub open spec fn batch_buffers(
    directory: VulkanDeviceDirectoryView,
    slice: VulkanComponentBatchSliceView,
    lane_capacity: usize,
    plan: VulkanDistributedExecutionPlanView,
    uses: Seq<Seq<SignalUse>>,
) -> Result<
    (Seq<VulkanComponentBatchSignalBufferView>, Map<VulkanComponentBatchSignalKeyView, usize>),
    VulkanResidentInProcessPlacedRuntimeErrorView,
> {
    if lane_capacity == 0 {
        Err(input_transducer::refused("component batch lane capacity is zero"@))
    } else {
        match signals::signal_buffer_plan(uses) {
            Err(error) => Err(error),
            Ok(planned) => match slice::first_unplaced(
                plan.dispatches,
                slice.device_id,
                planned.signal_buffer_indices,
            ) {
                Some(activation) => Err(
                    input_transducer::refused(slice::unplaced_text(activation)),
                ),
                None => match slice::signal_buffers(
                    planned.buffers,
                    lane_capacity,
                    slice.device_id,
                    plan.dispatches,
                    planned.signal_buffer_indices,
                    directory,
                    planned.buffers.len(),
                ) {
                    Err(error) => Err(error),
                    Ok(buffers) => Ok((buffers, planned.signal_buffer_indices)),
                },
            },
        }
    }
}

/// Whether the buffers of a batch can be made, so that its launches are.
pub open spec fn launches_reached(
    directory: VulkanDeviceDirectoryView,
    slice: VulkanComponentBatchSliceView,
    lane_capacity: usize,
    plan: VulkanDistributedExecutionPlanView,
    uses: Seq<Seq<SignalUse>>,
) -> bool {
    batch_buffers(directory, slice, lane_capacity, plan, uses) is Ok
}

/// The buffers of a batch, and what the buffers of each launch are bound for.
#[derive(Debug, PartialEq, Eq)]
pub struct VulkanComponentBatchBindingPlan {
    pub signal_buffers: Vec<VulkanComponentBatchSignalBuffer>,
    pub signal_buffer_indices: OrderedMap<VulkanComponentBatchSignalKey, usize>,
    pub stream_control_buffers: Vec<VulkanResidentBuffer>,
    pub requests: Vec<Vec<VulkanComponentBatchBindingRequest>>,
}

#[verifier::ext_equal]
pub struct VulkanComponentBatchBindingPlanView {
    pub signal_buffers: Seq<VulkanComponentBatchSignalBufferView>,
    pub signal_buffer_indices: Map<VulkanComponentBatchSignalKeyView, usize>,
    pub stream_control_buffers: Seq<VulkanResidentBufferView>,
    pub requests: Seq<Seq<VulkanComponentBatchBindingRequestView>>,
}

impl DeepView for VulkanComponentBatchBindingPlan {
    type V = VulkanComponentBatchBindingPlanView;

    open spec fn deep_view(&self) -> VulkanComponentBatchBindingPlanView {
        VulkanComponentBatchBindingPlanView {
            signal_buffers: self.signal_buffers.deep_view(),
            signal_buffer_indices: self.signal_buffer_indices.deep_view(),
            stream_control_buffers: self.stream_control_buffers.deep_view(),
            requests: self.requests.deep_view(),
        }
    }
}

impl View for VulkanComponentBatchBindingPlan {
    type V = VulkanComponentBatchBindingPlanView;

    open spec fn view(&self) -> VulkanComponentBatchBindingPlanView {
        self.deep_view()
    }
}

/// The buffers of a batch, and what the buffers of each launch are bound for.
pub open spec fn planned_bindings(
    directory: VulkanDeviceDirectoryView,
    slice: VulkanComponentBatchSliceView,
    lane_capacity: usize,
    mode: VulkanComponentBatchExecutionMode,
    plan: VulkanDistributedExecutionPlanView,
    uses: Seq<Seq<SignalUse>>,
) -> Result<VulkanComponentBatchBindingPlanView, VulkanResidentInProcessPlacedRuntimeErrorView> {
    match batch_buffers(directory, slice, lane_capacity, plan, uses) {
        Err(error) => Err(error),
        Ok((signal_buffers, signal_buffer_indices)) => {
            let controls = control_buffers(slice.device_id, lane_capacity);
            Ok(
                VulkanComponentBatchBindingPlanView {
                    signal_buffers,
                    signal_buffer_indices,
                    stream_control_buffers: controls,
                    requests: steps::binding_requests(slice, plan.dispatches, mode, controls),
                },
            )
        },
    }
}

/// The launches of a device for a batch of lanes.
pub open spec fn slice_runner(
    directory: VulkanDeviceDirectoryView,
    slice: VulkanComponentBatchSliceView,
    lane_capacity: usize,
    mode: VulkanComponentBatchExecutionMode,
    plan: VulkanDistributedExecutionPlanView,
    uses: Seq<Seq<SignalUse>>,
    bound: Seq<Seq<BindingAnswer>>,
) -> Result<
    VulkanResidentComponentBatchSliceRunnerView,
    VulkanResidentInProcessPlacedRuntimeErrorView,
> {
    match batch_buffers(directory, slice, lane_capacity, plan, uses) {
        Err(error) => Err(error),
        Ok((signal_buffers, signal_buffer_indices)) => match steps::batch_launches(
            slice,
            plan.dispatches,
            mode,
            lane_capacity,
            bound,
            slice.dispatches.len(),
        ) {
            Err(error) => Err(error),
            Ok(launches) => match units::grouped_units(
                launches.spans,
                group_leaders(plan.dispatch_groups, slice.device_id),
            ) {
                Err(error) => Err(input_transducer::refused(error)),
                Ok(units) => Ok(
                    VulkanResidentComponentBatchSliceRunnerView {
                        lane_capacity,
                        signal_buffers,
                        signal_buffer_indices,
                        stream_control_buffers: control_buffers(slice.device_id, lane_capacity),
                        steps: launches.steps,
                        execution_units: units,
                        sequence_count: sequence::count(units, is_local()) as usize,
                    },
                ),
            },
        },
    }
}

#[verifier::loop_isolation(false)]
fn leaders_of(groups: &Vec<VulkanDistributedDispatchGroup>, device_id: &str) -> (r: OrderedSet<
    usize,
>)
    requires
        forall|i: int|
            0 <= i < groups@.len() ==> (#[trigger] groups.deep_view()[i]).dispatches.len() > 0,
    ensures
        r@ == group_leaders(groups.deep_view(), device_id@),
{
    let ghost all = groups.deep_view();
    let mut leaders: OrderedSet<usize> = OrderedSet::new();
    let mut i: usize = 0;
    assert(all.take(0) =~= Seq::empty());
    while i < groups.len()
        invariant
            i <= groups.len(),
            leaders@ == group_leaders(all.take(i as int), device_id@),
        decreases groups.len() - i,
    {
        let group = &groups[i];
        assert(all[i as int] == group@);
        assert(all.take(i + 1).drop_last() =~= all.take(i as int));
        if text::same(group.owner_device_id.as_str(), device_id) {
            leaders.insert(group.leader().dispatch_index);
        }
        i += 1;
    }
    assert(all.take(all.len() as int) =~= all);
    leaders
}

#[verifier::loop_isolation(false)]
fn local_unit_count(list: &Vec<VulkanComponentBatchExecutionUnit>) -> (r: usize)
    ensures
        r == sequence::count(list.deep_view(), is_local()),
{
    let ghost all = list.deep_view();
    let mut count: usize = 0;
    let mut i: usize = 0;
    assert(all.take(0) =~= Seq::empty());
    while i < list.len()
        invariant
            i <= list.len(),
            count <= i,
            count == sequence::count(all.take(i as int), is_local()),
        decreases list.len() - i,
    {
        proof {
            assert(all[i as int] == list@[i as int]@);
            sequence::lemma_count_step(all, is_local(), i as int);
        }
        match &list[i] {
            VulkanComponentBatchExecutionUnit::LocalComponent { .. } => {
                count += 1;
            },
            VulkanComponentBatchExecutionUnit::DistributedDispatch { .. } => {},
        }
        i += 1;
    }
    assert(all.take(all.len() as int) =~= all);
    count
}

#[verifier::loop_isolation(false)]
fn make_control_buffers(device_id: &str, lane_capacity: usize) -> (r: Vec<VulkanResidentBuffer>)
    ensures
        r.deep_view() == control_buffers(device_id@, lane_capacity),
{
    let mut buffers: Vec<VulkanResidentBuffer> = Vec::new();
    let mut i: usize = 0;
    assert(buffers.deep_view() =~= control_buffers(device_id@, 0));
    while i < lane_capacity
        invariant
            i <= lane_capacity,
            buffers.deep_view() == control_buffers(device_id@, i),
        decreases lane_capacity - i,
    {
        let ghost before = buffers.deep_view();
        let buffer: VulkanResidentBuffer = VulkanResidentBuffer::persistently_mapped(
            VulkanResidentBufferName::LaneControl(i),
            device_id,
            VULKAN_STREAM_CONTROL_BYTE_CAPACITY,
        );
        let ghost added = buffer@;
        buffers.push(buffer);
        assert(buffers.deep_view() =~= before.push(added));
        i += 1;
        assert(buffers.deep_view() =~= control_buffers(device_id@, i));
    }
    buffers
}

// ---------------------------------------------------------------------------
// Running the launches
// ---------------------------------------------------------------------------

/// What a batch does next: run the steps of a component, or a distributed launch. Steps that no
/// further local steps follow are submitted and waited for.
#[derive(Debug, PartialEq, Eq)]
pub enum VulkanComponentBatchAction {
    RunSegment {
        component_id: String,
        sequence_index: usize,
        step_start: usize,
        step_end: usize,
        flush_after_segment: bool,
    },
    RunDistributed { dispatch_index: usize },
}

#[verifier::ext_equal]
pub enum VulkanComponentBatchActionView {
    RunSegment { component_id: Seq<char>, sequence_index: usize, step_start: usize, step_end: usize, flush_after_segment: bool },
    RunDistributed { dispatch_index: usize },
}

impl DeepView for VulkanComponentBatchAction {
    type V = VulkanComponentBatchActionView;

    open spec fn deep_view(&self) -> VulkanComponentBatchActionView {
        match self {
            VulkanComponentBatchAction::RunSegment { component_id, sequence_index, step_start, step_end, flush_after_segment } => VulkanComponentBatchActionView::RunSegment { component_id: component_id.deep_view(), sequence_index: *sequence_index, step_start: *step_start, step_end: *step_end, flush_after_segment: *flush_after_segment },
            VulkanComponentBatchAction::RunDistributed { dispatch_index } => VulkanComponentBatchActionView::RunDistributed { dispatch_index: *dispatch_index },
        }
    }
}

impl View for VulkanComponentBatchAction {
    type V = VulkanComponentBatchActionView;

    open spec fn view(&self) -> VulkanComponentBatchActionView {
        self.deep_view()
    }
}

impl Clone for VulkanComponentBatchAction {
    fn clone(&self) -> (r: Self)
        ensures
            r@ == self@,
    {
        match self {
            VulkanComponentBatchAction::RunSegment { component_id, sequence_index, step_start, step_end, flush_after_segment } => VulkanComponentBatchAction::RunSegment { component_id: component_id.clone(), sequence_index: *sequence_index, step_start: *step_start, step_end: *step_end, flush_after_segment: *flush_after_segment },
            VulkanComponentBatchAction::RunDistributed { dispatch_index } => VulkanComponentBatchAction::RunDistributed { dispatch_index: *dispatch_index },
        }
    }
}

/// What a batch does for unit `i`.
pub open spec fn action_at(units: Seq<VulkanComponentBatchExecutionUnitView>, i: int) -> VulkanComponentBatchActionView {
    match units[i] {
        VulkanComponentBatchExecutionUnitView::LocalComponent {
            component_id,
            step_start,
            step_end,
        } => VulkanComponentBatchActionView::RunSegment {
            component_id,
            sequence_index: sequence::count(units.take(i), is_local()) as usize,
            step_start,
            step_end,
            flush_after_segment: i + 1 >= units.len() || !(units[i + 1] is LocalComponent),
        },
        VulkanComponentBatchExecutionUnitView::DistributedDispatch { dispatch_index } => {
            VulkanComponentBatchActionView::RunDistributed { dispatch_index }
        },
    }
}

/// What a batch does, unit by unit.
pub open spec fn actions(units: Seq<VulkanComponentBatchExecutionUnitView>) -> Seq<
    VulkanComponentBatchActionView,
> {
    Seq::new(units.len(), |i: int| action_at(units, i))
}

/// Where the lanes of a batch stand, as a launch for all of them sees it. It is what the push
/// constants of such launches are written from, and what a distributed launch is handed.
#[derive(Clone, Copy, Debug, PartialEq, Eq, Structural)]
pub struct VulkanComponentBatchControl {
    pub batch_width: u32,
    pub start_stream_tick: u64,
    pub dynamic_state_capacity_activations: u32,
}

impl DeepView for VulkanComponentBatchControl {
    type V = VulkanComponentBatchControl;

    open spec fn deep_view(&self) -> VulkanComponentBatchControl {
        *self
    }
}

/// What the push constants of a step are written from: the launch's scalars and where its lane
/// stands, or where all lanes stand.
#[derive(Debug, PartialEq, Eq)]
pub enum VulkanComponentBatchPushConstantRequest {
    StreamControl {
        push_constants: Vec<VulkanKernelScalarBinding>,
        control: VulkanMountedPlacedStreamControl,
    },
    BatchControl { byte_count: u32, control: VulkanComponentBatchControl },
}

#[verifier::ext_equal]
pub enum VulkanComponentBatchPushConstantRequestView {
    StreamControl { push_constants: Seq<VulkanKernelScalarBindingView>, control: VulkanMountedPlacedStreamControl },
    BatchControl { byte_count: u32, control: VulkanComponentBatchControl },
}

impl DeepView for VulkanComponentBatchPushConstantRequest {
    type V = VulkanComponentBatchPushConstantRequestView;

    open spec fn deep_view(&self) -> VulkanComponentBatchPushConstantRequestView {
        match self {
            VulkanComponentBatchPushConstantRequest::StreamControl { push_constants, control } => VulkanComponentBatchPushConstantRequestView::StreamControl { push_constants: push_constants.deep_view(), control: *control },
            VulkanComponentBatchPushConstantRequest::BatchControl { byte_count, control } => VulkanComponentBatchPushConstantRequestView::BatchControl { byte_count: *byte_count, control: *control },
        }
    }
}

impl View for VulkanComponentBatchPushConstantRequest {
    type V = VulkanComponentBatchPushConstantRequestView;

    open spec fn view(&self) -> VulkanComponentBatchPushConstantRequestView {
        self.deep_view()
    }
}

impl Clone for VulkanComponentBatchPushConstantRequest {
    fn clone(&self) -> (r: Self)
        ensures
            r@ == self@,
    {
        match self {
            VulkanComponentBatchPushConstantRequest::StreamControl { push_constants, control } => VulkanComponentBatchPushConstantRequest::StreamControl { push_constants: push_constants.clone(), control: *control },
            VulkanComponentBatchPushConstantRequest::BatchControl { byte_count, control } => VulkanComponentBatchPushConstantRequest::BatchControl { byte_count: *byte_count, control: *control },
        }
    }
}

/// Where the lanes of a batch stand, if the batch fits.
pub open spec fn lanes_control(
    runner: VulkanResidentComponentBatchSliceRunnerView,
    batch_width: usize,
    start_stream_tick: u64,
    capacity: u32,
) -> Result<VulkanComponentBatchControl, VulkanResidentInProcessPlacedRuntimeErrorView> {
    match width_error(runner, batch_width as nat) {
        Some(error) => Err(error),
        None => if batch_width > u32::MAX {
            Err(input_transducer::refused("component batch width exceeds u32"@))
        } else {
            Ok(
                VulkanComponentBatchControl {
                    batch_width: batch_width as u32,
                    start_stream_tick,
                    dynamic_state_capacity_activations: capacity,
                },
            )
        },
    }
}

/// What the push constants of a step are written from; nothing where its lane is not part of the
/// batch. A lane stands as many ticks behind the first as its number says.
pub open spec fn push_constant_request(
    step: VulkanComponentBatchDispatchStepView,
    control: VulkanComponentBatchControl,
) -> Result<
    Option<VulkanComponentBatchPushConstantRequestView>,
    VulkanResidentInProcessPlacedRuntimeErrorView,
> {
    match step.lane_index {
        None => Ok(
            Some(
                VulkanComponentBatchPushConstantRequestView::BatchControl {
                    byte_count: step.batch_control_byte_count,
                    control,
                },
            ),
        ),
        Some(lane) => if lane >= control.batch_width {
            Ok(None)
        } else if control.start_stream_tick + lane > u64::MAX {
            Err(VulkanResidentInProcessPlacedRuntimeErrorView::StreamTickOverflow)
        } else {
            Ok(
                Some(
                    VulkanComponentBatchPushConstantRequestView::StreamControl {
                        push_constants: step.push_constants,
                        control: VulkanMountedPlacedStreamControl {
                            stream_tick: (control.start_stream_tick + lane) as u64,
                            control_flags: 0,
                            dynamic_state_capacity_activations:
                                control.dynamic_state_capacity_activations,
                        },
                    },
                ),
            )
        },
    }
}

/// Why the push constants of a step cannot be written.
#[derive(Debug, PartialEq, Eq)]
pub enum VulkanComponentBatchPushConstantError {
    StreamControl(VulkanMountedPlacedResidentKernelDispatchError),
    BatchControl(VulkanResidentInProcessPlacedRuntimeError),
}

#[verifier::ext_equal]
pub enum VulkanComponentBatchPushConstantErrorView {
    StreamControl(VulkanMountedPlacedResidentKernelDispatchErrorView),
    BatchControl(VulkanResidentInProcessPlacedRuntimeErrorView),
}

impl DeepView for VulkanComponentBatchPushConstantError {
    type V = VulkanComponentBatchPushConstantErrorView;

    open spec fn deep_view(&self) -> VulkanComponentBatchPushConstantErrorView {
        match self {
            VulkanComponentBatchPushConstantError::StreamControl(value) => VulkanComponentBatchPushConstantErrorView::StreamControl(value.deep_view()),
            VulkanComponentBatchPushConstantError::BatchControl(value) => VulkanComponentBatchPushConstantErrorView::BatchControl(value.deep_view()),
        }
    }
}

impl View for VulkanComponentBatchPushConstantError {
    type V = VulkanComponentBatchPushConstantErrorView;

    open spec fn view(&self) -> VulkanComponentBatchPushConstantErrorView {
        self.deep_view()
    }
}

impl Clone for VulkanComponentBatchPushConstantError {
    fn clone(&self) -> (r: Self)
        ensures
            r@ == self@,
    {
        match self {
            VulkanComponentBatchPushConstantError::StreamControl(value) => VulkanComponentBatchPushConstantError::StreamControl(value.clone()),
            VulkanComponentBatchPushConstantError::BatchControl(value) => VulkanComponentBatchPushConstantError::BatchControl(value.clone()),
        }
    }
}

/// The error that such a refusal is.
pub open spec fn push_constant_error(error: VulkanComponentBatchPushConstantErrorView) -> VulkanResidentInProcessPlacedRuntimeErrorView {
    match error {
        VulkanComponentBatchPushConstantErrorView::StreamControl(error) => {
            input_transducer::refused(
                "invalid component batch stream control: "@ + resident_dispatch::launch_message(
                    error,
                ),
            )
        },
        VulkanComponentBatchPushConstantErrorView::BatchControl(error) => error,
    }
}

/// A step of a segment that runs, with its push constants.
#[derive(Debug, PartialEq, Eq)]
pub struct VulkanComponentBatchActiveStep {
    pub step_index: usize,
    pub step: VulkanResidentKernelSequenceStep,
}

#[verifier::ext_equal]
pub struct VulkanComponentBatchActiveStepView {
    pub step_index: usize,
    pub step: VulkanResidentKernelSequenceStepView,
}

impl DeepView for VulkanComponentBatchActiveStep {
    type V = VulkanComponentBatchActiveStepView;

    open spec fn deep_view(&self) -> VulkanComponentBatchActiveStepView {
        VulkanComponentBatchActiveStepView {
            step_index: self.step_index,
            step: self.step.deep_view(),
        }
    }
}

impl View for VulkanComponentBatchActiveStep {
    type V = VulkanComponentBatchActiveStepView;

    open spec fn view(&self) -> VulkanComponentBatchActiveStepView {
        self.deep_view()
    }
}

impl Clone for VulkanComponentBatchActiveStep {
    fn clone(&self) -> (r: Self)
        ensures
            r@ == self@,
    {
        VulkanComponentBatchActiveStep {
            step_index: self.step_index,
            step: self.step.clone(),
        }
    }
}

/// What came of writing the push constants of a step.
pub type PushConstantAnswer = Result<Seq<u8>, VulkanComponentBatchPushConstantErrorView>;

/// The steps from `from` to `to` that run in a batch of `batch_width` lanes.
pub open spec fn active_steps(
    runner: VulkanResidentComponentBatchSliceRunnerView,
    batch_width: usize,
    start_stream_tick: u64,
    bytes: Seq<PushConstantAnswer>,
    from: nat,
    to: nat,
) -> Result<
    Seq<VulkanComponentBatchActiveStepView>,
    VulkanResidentInProcessPlacedRuntimeErrorView,
>
    decreases to,
{
    if to <= from {
        Ok(Seq::empty())
    } else {
        match active_steps(runner, batch_width, start_stream_tick, bytes, from, (to - 1) as nat) {
            Err(error) => Err(error),
            Ok(done) => {
                let step = runner.steps[to - 1];
                if step.lane_index is Some && step.lane_index->Some_0 >= batch_width {
                    Ok(done)
                } else if step.lane_index is Some && start_stream_tick + step.lane_index->Some_0
                    > u64::MAX {
                    Err(VulkanResidentInProcessPlacedRuntimeErrorView::StreamTickOverflow)
                } else {
                    match bytes[to - 1] {
                        Err(error) => Err(push_constant_error(error)),
                        Ok(push_constants) => Ok(
                            done.push(
                                VulkanComponentBatchActiveStepView {
                                    step_index: (to - 1) as usize,
                                    step: VulkanResidentKernelSequenceStepView {
                                        dispatch: step.dispatch,
                                        push_constants,
                                    },
                                },
                            ),
                        ),
                    }
                }
            },
        }
    }
}

/// States that a step changes for one lane, of which a copy is kept.
#[derive(Debug, PartialEq, Eq)]
pub struct VulkanComponentBatchSnapshotRequest {
    pub step_position: usize,
    pub lane_index: usize,
    pub state_buffer_indices: OrderedSet<usize>,
}

#[verifier::ext_equal]
pub struct VulkanComponentBatchSnapshotRequestView {
    pub step_position: usize,
    pub lane_index: usize,
    pub state_buffer_indices: Set<usize>,
}

impl DeepView for VulkanComponentBatchSnapshotRequest {
    type V = VulkanComponentBatchSnapshotRequestView;

    open spec fn deep_view(&self) -> VulkanComponentBatchSnapshotRequestView {
        VulkanComponentBatchSnapshotRequestView {
            step_position: self.step_position,
            lane_index: self.lane_index,
            state_buffer_indices: self.state_buffer_indices.deep_view(),
        }
    }
}

impl View for VulkanComponentBatchSnapshotRequest {
    type V = VulkanComponentBatchSnapshotRequestView;

    open spec fn view(&self) -> VulkanComponentBatchSnapshotRequestView {
        self.deep_view()
    }
}

/// The states of which copies are kept, for the first `n` active steps.
pub open spec fn snapshot_requests(
    runner: VulkanResidentComponentBatchSliceRunnerView,
    active: Seq<VulkanComponentBatchActiveStepView>,
    n: nat,
) -> Seq<VulkanComponentBatchSnapshotRequestView>
    decreases n,
{
    if n == 0 {
        Seq::empty()
    } else {
        let front = snapshot_requests(runner, active, (n - 1) as nat);
        let step = runner.steps[active[n - 1].step_index as int];
        if step.lane_index is Some && step.snapshot_state_buffer_indices
            != Set::<usize>::empty() {
            front.push(
                VulkanComponentBatchSnapshotRequestView {
                    step_position: (n - 1) as usize,
                    lane_index: step.lane_index->Some_0,
                    state_buffer_indices: step.snapshot_state_buffer_indices,
                },
            )
        } else {
            front
        }
    }
}

/// How much a step is expected to cost, and the family of its kernel.
#[derive(Debug, PartialEq, Eq)]
pub struct VulkanKernelEstimate {
    pub work_units: u64,
    pub memory_bytes: u64,
    pub execution_family: String,
}

#[verifier::ext_equal]
pub struct VulkanKernelEstimateView {
    pub work_units: u64,
    pub memory_bytes: u64,
    pub execution_family: Seq<char>,
}

impl DeepView for VulkanKernelEstimate {
    type V = VulkanKernelEstimateView;

    open spec fn deep_view(&self) -> VulkanKernelEstimateView {
        VulkanKernelEstimateView {
            work_units: self.work_units,
            memory_bytes: self.memory_bytes,
            execution_family: self.execution_family.deep_view(),
        }
    }
}

impl View for VulkanKernelEstimate {
    type V = VulkanKernelEstimateView;

    open spec fn view(&self) -> VulkanKernelEstimateView {
        self.deep_view()
    }
}

impl Clone for VulkanKernelEstimate {
    fn clone(&self) -> (r: Self)
        ensures
            r@ == self@,
    {
        VulkanKernelEstimate {
            work_units: self.work_units,
            memory_bytes: self.memory_bytes,
            execution_family: self.execution_family.clone(),
        }
    }
}

/// What a run of steps is expected to cost.
#[derive(Debug, PartialEq, Eq)]
pub struct RuntimeExecutionCost {
    pub work_units: u64,
    pub memory_bytes: u64,
    pub dispatch_count: u64,
}

#[verifier::ext_equal]
pub struct RuntimeExecutionCostView {
    pub work_units: u64,
    pub memory_bytes: u64,
    pub dispatch_count: u64,
}

impl DeepView for RuntimeExecutionCost {
    type V = RuntimeExecutionCostView;

    open spec fn deep_view(&self) -> RuntimeExecutionCostView {
        RuntimeExecutionCostView {
            work_units: self.work_units,
            memory_bytes: self.memory_bytes,
            dispatch_count: self.dispatch_count,
        }
    }
}

impl View for RuntimeExecutionCost {
    type V = RuntimeExecutionCostView;

    open spec fn view(&self) -> RuntimeExecutionCostView {
        self.deep_view()
    }
}

impl Clone for RuntimeExecutionCost {
    fn clone(&self) -> (r: Self)
        ensures
            r@ == self@,
    {
        RuntimeExecutionCost {
            work_units: self.work_units,
            memory_bytes: self.memory_bytes,
            dispatch_count: self.dispatch_count,
        }
    }
}

/// A run of steps that is submitted as one.
#[derive(Debug, PartialEq, Eq)]
pub struct RuntimeExecutionRegion {
    pub region_id: String,
    pub component_id: String,
    pub cost: RuntimeExecutionCost,
    pub kernel_families: Vec<String>,
    pub commits_state_after: bool,
}

#[verifier::ext_equal]
pub struct RuntimeExecutionRegionView {
    pub region_id: Seq<char>,
    pub component_id: Seq<char>,
    pub cost: RuntimeExecutionCostView,
    pub kernel_families: Seq<Seq<char>>,
    pub commits_state_after: bool,
}

impl DeepView for RuntimeExecutionRegion {
    type V = RuntimeExecutionRegionView;

    open spec fn deep_view(&self) -> RuntimeExecutionRegionView {
        RuntimeExecutionRegionView {
            region_id: self.region_id.deep_view(),
            component_id: self.component_id.deep_view(),
            cost: self.cost.deep_view(),
            kernel_families: self.kernel_families.deep_view(),
            commits_state_after: self.commits_state_after,
        }
    }
}

impl View for RuntimeExecutionRegion {
    type V = RuntimeExecutionRegionView;

    open spec fn view(&self) -> RuntimeExecutionRegionView {
        self.deep_view()
    }
}

impl Clone for RuntimeExecutionRegion {
    fn clone(&self) -> (r: Self)
        ensures
            r@ == self@,
    {
        RuntimeExecutionRegion {
            region_id: self.region_id.clone(),
            component_id: self.component_id.clone(),
            cost: self.cost.clone(),
            kernel_families: self.kernel_families.clone(),
            commits_state_after: self.commits_state_after,
        }
    }
}

/// A run of steps with what is kept of the states that they change.
#[derive(Debug, PartialEq, Eq)]
pub struct VulkanComponentBatchSegment {
    pub sequence_index: usize,
    pub steps: Vec<VulkanComponentBatchActiveStep>,
    pub snapshots: Vec<VulkanComponentBatchSnapshotRequest>,
    pub region: RuntimeExecutionRegion,
}

#[verifier::ext_equal]
pub struct VulkanComponentBatchSegmentView {
    pub sequence_index: usize,
    pub steps: Seq<VulkanComponentBatchActiveStepView>,
    pub snapshots: Seq<VulkanComponentBatchSnapshotRequestView>,
    pub region: RuntimeExecutionRegionView,
}

impl DeepView for VulkanComponentBatchSegment {
    type V = VulkanComponentBatchSegmentView;

    open spec fn deep_view(&self) -> VulkanComponentBatchSegmentView {
        VulkanComponentBatchSegmentView {
            sequence_index: self.sequence_index,
            steps: self.steps.deep_view(),
            snapshots: self.snapshots.deep_view(),
            region: self.region.deep_view(),
        }
    }
}

impl View for VulkanComponentBatchSegment {
    type V = VulkanComponentBatchSegmentView;

    open spec fn view(&self) -> VulkanComponentBatchSegmentView {
        self.deep_view()
    }
}

/// A sum that stops at the largest number.
pub open spec fn saturated(a: int) -> u64 {
    if a > u64::MAX {
        u64::MAX
    } else {
        a as u64
    }
}

/// The work of a step.
pub open spec fn work_of(estimates: Seq<VulkanKernelEstimateView>) -> spec_fn(
    VulkanComponentBatchActiveStepView,
) -> nat {
    |step: VulkanComponentBatchActiveStepView|
        estimates[step.step_index as int].work_units as nat
}

/// The memory that a step moves.
pub open spec fn memory_of(estimates: Seq<VulkanKernelEstimateView>) -> spec_fn(
    VulkanComponentBatchActiveStepView,
) -> nat {
    |step: VulkanComponentBatchActiveStepView|
        estimates[step.step_index as int].memory_bytes as nat
}

/// The family of a step's kernel.
pub open spec fn family_of(estimates: Seq<VulkanKernelEstimateView>) -> spec_fn(
    VulkanComponentBatchActiveStepView,
) -> Seq<char> {
    |step: VulkanComponentBatchActiveStepView|
        estimates[step.step_index as int].execution_family
}

/// Whether a step changes a state.
pub open spec fn step_commits(runner: VulkanResidentComponentBatchSliceRunnerView) -> spec_fn(
    VulkanComponentBatchActiveStepView,
) -> bool {
    |step: VulkanComponentBatchActiveStepView|
        runner.steps[step.step_index as int].commits_state
}

/// A run of steps that is submitted as one.
pub open spec fn region_of(
    runner: VulkanResidentComponentBatchSliceRunnerView,
    component_id: Seq<char>,
    step_start: usize,
    step_end: usize,
    active: Seq<VulkanComponentBatchActiveStepView>,
    estimates: Seq<VulkanKernelEstimateView>,
) -> RuntimeExecutionRegionView {
    RuntimeExecutionRegionView {
        region_id: component_id + ":"@ + text::decimal(step_start as nat) + ".."@ + text::decimal(
            step_end as nat,
        ),
        component_id,
        cost: RuntimeExecutionCostView {
            work_units: saturated(sequence::total(active, work_of(estimates)) as int),
            memory_bytes: saturated(sequence::total(active, memory_of(estimates)) as int),
            dispatch_count: active.len() as u64,
        },
        kernel_families: ordered::sorted_elements::<String>(
            active.map_values(family_of(estimates)).to_set(),
        ),
        commits_state_after: sequence::any(active, step_commits(runner)),
    }
}

/// A run of the steps of a component; nothing where none of them is active. Copies of states are
/// kept only where the lanes are candidates for one position.
pub open spec fn segment(
    runner: VulkanResidentComponentBatchSliceRunnerView,
    mode: VulkanComponentBatchExecutionMode,
    batch_width: usize,
    start_stream_tick: u64,
    component_id: Seq<char>,
    sequence_index: usize,
    step_start: usize,
    step_end: usize,
    bytes: Seq<PushConstantAnswer>,
    estimates: Seq<VulkanKernelEstimateView>,
) -> Result<
    Option<VulkanComponentBatchSegmentView>,
    VulkanResidentInProcessPlacedRuntimeErrorView,
> {
    match active_steps(
        runner,
        batch_width,
        start_stream_tick,
        bytes,
        step_start as nat,
        step_end as nat,
    ) {
        Err(error) => Err(error),
        Ok(active) => if active.len() == 0 {
            Ok(None)
        } else {
            Ok(
                Some(
                    VulkanComponentBatchSegmentView {
                        sequence_index,
                        steps: active,
                        snapshots: if mode
                            == VulkanComponentBatchExecutionMode::IndependentCandidates {
                            snapshot_requests(runner, active, active.len())
                        } else {
                            Seq::empty()
                        },
                        region: region_of(
                            runner,
                            component_id,
                            step_start,
                            step_end,
                            active,
                            estimates,
                        ),
                    },
                ),
            )
        },
    }
}

proof fn lemma_active_steps_error(
    runner: VulkanResidentComponentBatchSliceRunnerView,
    batch_width: usize,
    start_stream_tick: u64,
    bytes: Seq<PushConstantAnswer>,
    from: nat,
    i: nat,
    to: nat,
)
    requires
        i <= to,
        active_steps(runner, batch_width, start_stream_tick, bytes, from, i) is Err,
    ensures
        active_steps(runner, batch_width, start_stream_tick, bytes, from, to) == active_steps(
            runner,
            batch_width,
            start_stream_tick,
            bytes,
            from,
            i,
        ),
    decreases to - i,
{
    if i < to {
        assert(from < i) by {
            if i <= from {
                assert(active_steps(runner, batch_width, start_stream_tick, bytes, from, i) is Ok);
            }
        }
        lemma_active_steps_error(runner, batch_width, start_stream_tick, bytes, from, i + 1, to);
    }
}

/// The error where a batch does not fit the lanes.
pub open spec fn width_error(
    runner: VulkanResidentComponentBatchSliceRunnerView,
    batch_width: nat,
) -> Option<VulkanResidentInProcessPlacedRuntimeErrorView> {
    if batch_width == 0 || batch_width > runner.lane_capacity {
        Some(
            input_transducer::refused(
                "component batch tile width "@ + text::decimal(runner.lane_capacity as nat)
                    + " cannot execute "@ + text::decimal(batch_width) + " lanes"@,
            ),
        )
    } else {
        None
    }
}

/// What came of writing to the device, as the runtime reports it.
pub open spec fn reported() -> spec_fn(Result<(), Seq<char>>) -> Result<
    (),
    VulkanResidentInProcessPlacedRuntimeErrorView,
> {
    |answer: Result<(), Seq<char>>|
        match answer {
            Ok(_) => Ok(()),
            Err(error) => Err(input_transducer::refused(error)),
        }
}

/// How many lanes have their controls written.
pub open spec fn written_lanes(
    runner: VulkanResidentComponentBatchSliceRunnerView,
    controls: nat,
) -> nat {
    if controls <= runner.stream_control_buffers.len() {
        controls
    } else {
        runner.stream_control_buffers.len()
    }
}

/// The run of a batch, from what came of encoding the controls of its lanes, of writing them and of
/// each of its actions.
pub open spec fn batch_run(
    runner: VulkanResidentComponentBatchSliceRunnerView,
    batch_width: nat,
    controls: Result<Seq<Seq<u8>>, VulkanResidentInProcessPlacedRuntimeErrorView>,
    written: Seq<Result<(), Seq<char>>>,
    performed: Seq<Result<(), VulkanResidentInProcessPlacedRuntimeErrorView>>,
) -> Result<(), VulkanResidentInProcessPlacedRuntimeErrorView> {
    match width_error(runner, batch_width) {
        Some(error) => Err(error),
        None => match controls {
            Err(error) => Err(error),
            Ok(lanes) => match sequence::try_map(
                written.take(written_lanes(runner, lanes.len()) as int),
                reported(),
            ) {
                Err(error) => Err(error),
                Ok(_) => if batch_width > u32::MAX {
                    Err(input_transducer::refused("component batch width exceeds u32"@))
                } else {
                    match sequence::try_map(
                        performed.take(runner.execution_units.len() as int),
                        sequence::as_is(),
                    ) {
                        Err(error) => Err(error),
                        Ok(_) => Ok(()),
                    }
                },
            },
        },
    }
}

/// What is said of a signal without a buffer.
pub open spec fn no_buffer_text(key: VulkanComponentBatchSignalKeyView) -> Seq<char> {
    "component batch has no signal buffer "@ + signals::key_text(key)
}

/// The buffer of a signal.
pub open spec fn buffer_of(
    runner: VulkanResidentComponentBatchSliceRunnerView,
    key: VulkanComponentBatchSignalKeyView,
) -> Option<VulkanComponentBatchSignalBufferView> {
    if runner.signal_buffer_indices.contains_key(key) && runner.signal_buffer_indices[key]
        < runner.signal_buffers.len() {
        Some(runner.signal_buffers[runner.signal_buffer_indices[key] as int])
    } else {
        None
    }
}

#[verifier::loop_isolation(false)]
fn copy_set(set: &OrderedSet<usize>) -> (r: OrderedSet<usize>)
    ensures
        r@ == set@,
{
    let elements: Vec<usize> = set.elements.clone();
    assert(elements.deep_view() =~= set.elements.deep_view());
    OrderedSet { elements }
}

/// A sum that stops at the largest number.
fn saturating_sum(total: u64, more: u64, Ghost(so_far): Ghost<nat>) -> (r: u64)
    requires
        total == saturated(so_far as int),
    ensures
        r == saturated(so_far + more),
{
    match total.checked_add(more) {
        Some(sum) => sum,
        None => u64::MAX,
    }
}

/// The steps that run are those whose push constants are asked for, and each runs with what was
/// answered.
pub proof fn steps_run_with_what_was_asked(
    runner: VulkanResidentComponentBatchSliceRunnerView,
    control: VulkanComponentBatchControl,
    bytes: Seq<PushConstantAnswer>,
    from: nat,
    to: nat,
    k: int,
)
    requires
        from <= k < to <= runner.steps.len(),
        to <= bytes.len(),
        to <= usize::MAX,
        active_steps(
            runner,
            control.batch_width as usize,
            control.start_stream_tick,
            bytes,
            from,
            to,
        ) is Ok,
    ensures
        ({
            let active = active_steps(
                runner,
                control.batch_width as usize,
                control.start_stream_tick,
                bytes,
                from,
                to,
            )->Ok_0;
            match push_constant_request(runner.steps[k], control) {
                Err(_) => false,
                Ok(None) => forall|i: int|
                    0 <= i < active.len() ==> (#[trigger] active[i]).step_index != k,
                Ok(Some(_)) => bytes[k] is Ok && exists|i: int|
                    0 <= i < active.len() && (#[trigger] active[i]).step_index == k
                        && active[i].step.dispatch == runner.steps[k].dispatch
                        && active[i].step.push_constants == bytes[k]->Ok_0,
            }
        }),
    decreases to,
{
    let width = control.batch_width as usize;
    let tick = control.start_stream_tick;
    let front = active_steps(runner, width, tick, bytes, from, (to - 1) as nat)->Ok_0;
    let active = active_steps(runner, width, tick, bytes, from, to)->Ok_0;
    lemma_active_step_range(runner, width, tick, bytes, from, (to - 1) as nat);
    if k < to - 1 {
        steps_run_with_what_was_asked(runner, control, bytes, from, (to - 1) as nat, k);
        match push_constant_request(runner.steps[k], control) {
            Ok(Some(_)) => {
                let i = choose|i: int|
                    0 <= i < front.len() && (#[trigger] front[i]).step_index == k
                        && front[i].step.dispatch == runner.steps[k].dispatch
                        && front[i].step.push_constants == bytes[k]->Ok_0;
                assert(active[i] == front[i]);
            },
            _ => {
                assert forall|i: int| 0 <= i < active.len() implies (
                #[trigger] active[i]).step_index != k by {
                    if i < front.len() {
                        assert(active[i] == front[i]);
                    }
                }
            },
        }
    } else {
        match push_constant_request(runner.steps[k], control) {
            Ok(Some(_)) => {
                assert(active[active.len() - 1].step_index == k);
            },
            _ => {
                assert(active == front);
            },
        }
    }
}

proof fn lemma_active_step_range(
    runner: VulkanResidentComponentBatchSliceRunnerView,
    batch_width: usize,
    start_stream_tick: u64,
    bytes: Seq<PushConstantAnswer>,
    from: nat,
    to: nat,
)
    requires
        to <= usize::MAX,
        active_steps(runner, batch_width, start_stream_tick, bytes, from, to) is Ok,
    ensures
        forall|i: int|
            0 <= i < active_steps(
                runner,
                batch_width,
                start_stream_tick,
                bytes,
                from,
                to,
            )->Ok_0.len() ==> from <= (#[trigger] active_steps(
                runner,
                batch_width,
                start_stream_tick,
                bytes,
                from,
                to,
            )->Ok_0[i]).step_index < to,
    decreases to,
{
    if to > from {
        lemma_active_step_range(
            runner,
            batch_width,
            start_stream_tick,
            bytes,
            from,
            (to - 1) as nat,
        );
    }
}

impl VulkanResidentComponentBatchSliceRunner {
    /// The signal buffers of a batch, and which signal lives in which.
    fn make_buffers(
        devices: &VulkanDeviceDirectory,
        slice: &VulkanComponentBatchSlice,
        lane_capacity: usize,
        distributed_execution_plan: &VulkanDistributedExecutionPlan,
        targets: &Vec<
            Vec<
                Result<
                    Option<VulkanComponentBatchSignalTarget>,
                    VulkanResidentInProcessPlacedRuntimeError,
                >,
            >,
        >,
    ) -> (r: Result<
        (
            Vec<VulkanComponentBatchSignalBuffer>,
            OrderedMap<VulkanComponentBatchSignalKey, usize>,
        ),
        VulkanResidentInProcessPlacedRuntimeError,
    >)
        ensures
            sequence::outcome(r) == batch_buffers(
                devices@,
                slice@,
                lane_capacity,
                distributed_execution_plan@,
                signals::uses_of(targets@),
            ),
    {
        if lane_capacity == 0 {
            return Err(input_transducer::refusal("component batch lane capacity is zero"));
        }
        let planned: VulkanComponentBatchSignalPlan =
            match signals::component_batch_signal_buffer_plan(targets) {
            Err(error) => {
                return Err(error);
            },
            Ok(planned) => planned,
        };
        let device_id: &str = slice.device_id.as_str();
        match slice::check_activations(
            &distributed_execution_plan.dispatches,
            device_id,
            &planned.signal_buffer_indices,
        ) {
            Err(error) => {
                return Err(error);
            },
            Ok(()) => {},
        }
        assert(planned@.buffers.len() == planned.buffers@.len());
        match slice::make_signal_buffers(
            &planned.buffers,
            lane_capacity,
            device_id,
            &distributed_execution_plan.dispatches,
            &planned.signal_buffer_indices,
            devices,
        ) {
            Err(error) => Err(error),
            Ok(buffers) => Ok((buffers, planned.signal_buffer_indices)),
        }
    }

    /// The buffers of a batch, and what the buffers of its launches are bound for, before any is
    /// bound.
    pub fn binding_plan(
        devices: &VulkanDeviceDirectory,
        slice: &VulkanComponentBatchSlice,
        lane_capacity: usize,
        execution_mode: VulkanComponentBatchExecutionMode,
        distributed_execution_plan: &VulkanDistributedExecutionPlan,
        targets: &Vec<
            Vec<
                Result<
                    Option<VulkanComponentBatchSignalTarget>,
                    VulkanResidentInProcessPlacedRuntimeError,
                >,
            >,
        >,
    ) -> (r: Result<VulkanComponentBatchBindingPlan, VulkanResidentInProcessPlacedRuntimeError>)
        requires
            every_descriptor_told(slice@, signals::uses_of(targets@)),
        ensures
            sequence::outcome(r) == planned_bindings(
                devices@,
                slice@,
                lane_capacity,
                execution_mode,
                distributed_execution_plan@,
                signals::uses_of(targets@),
            ),
    {
        let (signal_buffers, signal_buffer_indices): (
            Vec<VulkanComponentBatchSignalBuffer>,
            OrderedMap<VulkanComponentBatchSignalKey, usize>,
        ) = match Self::make_buffers(
            devices,
            slice,
            lane_capacity,
            distributed_execution_plan,
            targets,
        ) {
            Err(error) => {
                return Err(error);
            },
            Ok(made) => made,
        };
        let stream_control_buffers: Vec<VulkanResidentBuffer> = make_control_buffers(
            slice.device_id.as_str(),
            lane_capacity,
        );
        let requests: Vec<Vec<VulkanComponentBatchBindingRequest>> = steps::list_binding_requests(
            slice,
            &distributed_execution_plan.dispatches,
            execution_mode,
            &stream_control_buffers,
        );
        Ok(
            VulkanComponentBatchBindingPlan {
                signal_buffers,
                signal_buffer_indices,
                stream_control_buffers,
                requests,
            },
        )
    }

    /// The launches of a device for a batch of lanes, from what each descriptor of each launch turned
    /// out to read or write and from what came of binding the buffers of each launch for each lane.
    pub fn new(
        devices: &VulkanDeviceDirectory,
        slice: &VulkanComponentBatchSlice,
        lane_capacity: usize,
        execution_mode: VulkanComponentBatchExecutionMode,
        distributed_execution_plan: &VulkanDistributedExecutionPlan,
        targets: &Vec<
            Vec<
                Result<
                    Option<VulkanComponentBatchSignalTarget>,
                    VulkanResidentInProcessPlacedRuntimeError,
                >,
            >,
        >,
        bound: &Vec<
            Vec<
                Result<
                    Vec<VulkanResidentKernelBufferBinding>,
                    VulkanResidentInProcessPlacedRuntimeError,
                >,
            >,
        >,
    ) -> (r: Result<Self, VulkanResidentInProcessPlacedRuntimeError>)
        requires
            every_descriptor_told(slice@, signals::uses_of(targets@)),
            launches_reached(
                devices@,
                slice@,
                lane_capacity,
                distributed_execution_plan@,
                signals::uses_of(targets@),
            ) ==> steps::reached_kernels_usable(
                slice@,
                distributed_execution_plan@.dispatches,
                execution_mode,
                lane_capacity,
                steps::answers_of(bound@),
            ),
            launches_reached(
                devices@,
                slice@,
                lane_capacity,
                distributed_execution_plan@,
                signals::uses_of(targets@),
            ) ==> steps::requests_answered(
                steps::binding_requests(
                    slice@,
                    distributed_execution_plan@.dispatches,
                    execution_mode,
                    control_buffers(slice@.device_id, lane_capacity),
                ),
                steps::answers_of(bound@),
            ),
            forall|i: int|
                0 <= i < distributed_execution_plan@.dispatch_groups.len() ==> (
                #[trigger] distributed_execution_plan@.dispatch_groups[i]).dispatches.len() > 0,
        ensures
            sequence::outcome(r) == slice_runner(
                devices@,
                slice@,
                lane_capacity,
                execution_mode,
                distributed_execution_plan@,
                signals::uses_of(targets@),
                steps::answers_of(bound@),
            ),
    {
        let (signal_buffers, signal_buffer_indices): (
            Vec<VulkanComponentBatchSignalBuffer>,
            OrderedMap<VulkanComponentBatchSignalKey, usize>,
        ) = match Self::make_buffers(
            devices,
            slice,
            lane_capacity,
            distributed_execution_plan,
            targets,
        ) {
            Err(error) => {
                return Err(error);
            },
            Ok(made) => made,
        };
        let device_id: &str = slice.device_id.as_str();
        let launches: VulkanComponentBatchLaunches = match steps::component_batch_launches(
            slice,
            &distributed_execution_plan.dispatches,
            execution_mode,
            lane_capacity,
            bound,
            Ghost(control_buffers(slice@.device_id, lane_capacity)),
        ) {
            Err(error) => {
                return Err(error);
            },
            Ok(launches) => launches,
        };
        let leaders: OrderedSet<usize> = leaders_of(
            &distributed_execution_plan.dispatch_groups,
            device_id,
        );
        let execution_units: Vec<VulkanComponentBatchExecutionUnit> =
            match units::component_batch_execution_units_for_distributed_groups(
            &launches.spans,
            &leaders,
        ) {
            Err(error) => {
                return Err(VulkanResidentInProcessPlacedRuntimeError::BackendLoop(error));
            },
            Ok(units) => units,
        };
        let sequence_count: usize = local_unit_count(&execution_units);
        Ok(
            VulkanResidentComponentBatchSliceRunner {
                lane_capacity,
                signal_buffers,
                signal_buffer_indices,
                stream_control_buffers: make_control_buffers(device_id, lane_capacity),
                steps: launches.steps,
                execution_units,
                sequence_count,
            },
        )
    }

    /// What a batch does, unit by unit.
    #[verifier::loop_isolation(false)]
    pub fn actions(&self) -> (r: Vec<VulkanComponentBatchAction>)
        ensures
            r.deep_view() == actions(self@.execution_units),
    {
        let ghost all = self@.execution_units;
        let ghost expected = actions(all);
        let mut list: Vec<VulkanComponentBatchAction> = Vec::new();
        let mut sequence_index: usize = 0;
        let mut i: usize = 0;
        assert(all.take(0) =~= Seq::empty());
        assert(list.deep_view() =~= expected.take(0));
        assert(all.len() == self.execution_units@.len());
        while i < self.execution_units.len()
            invariant
                i <= self.execution_units.len(),
                sequence_index <= i,
                sequence_index == sequence::count(all.take(i as int), is_local()),
                list.deep_view() == expected.take(i as int),
            decreases self.execution_units.len() - i,
        {
            let ghost before = list.deep_view();
            proof {
                assert(all[i as int] == self.execution_units@[i as int]@);
                sequence::lemma_count_step(all, is_local(), i as int);
            }
            let action: VulkanComponentBatchAction = match &self.execution_units[i] {
                VulkanComponentBatchExecutionUnit::LocalComponent {
                    component_id,
                    step_start,
                    step_end,
                } => {
                    let flush_after_segment: bool = if i + 1 < self.execution_units.len() {
                        assert(all[i + 1] == self.execution_units@[i + 1]@);
                        match &self.execution_units[i + 1] {
                            VulkanComponentBatchExecutionUnit::LocalComponent { .. } => false,
                            VulkanComponentBatchExecutionUnit::DistributedDispatch { .. } => true,
                        }
                    } else {
                        true
                    };
                    let index: usize = sequence_index;
                    sequence_index += 1;
                    VulkanComponentBatchAction::RunSegment {
                        component_id: component_id.clone(),
                        sequence_index: index,
                        step_start: *step_start,
                        step_end: *step_end,
                        flush_after_segment,
                    }
                },
                VulkanComponentBatchExecutionUnit::DistributedDispatch { dispatch_index } => {
                    VulkanComponentBatchAction::RunDistributed { dispatch_index: *dispatch_index }
                },
            };
            let ghost added = action@;
            list.push(action);
            assert(list.deep_view() =~= before.push(added));
            i += 1;
            assert(before.push(added) =~= expected.take(i as int));
        }
        assert(expected.take(expected.len() as int) =~= expected);
        list
    }

    /// The steps of a segment that run in a batch.
    #[verifier::loop_isolation(false)]
    fn active_steps(
        &self,
        batch_width: usize,
        start_stream_tick: u64,
        step_start: usize,
        step_end: usize,
        bytes: &Vec<Result<Vec<u8>, VulkanComponentBatchPushConstantError>>,
    ) -> (r: Result<
        Vec<VulkanComponentBatchActiveStep>,
        VulkanResidentInProcessPlacedRuntimeError,
    >)
        requires
            step_end <= self@.steps.len(),
            step_end <= bytes@.len(),
        ensures
            sequence::outcome(r) == active_steps(
                self@,
                batch_width,
                start_stream_tick,
                sequence::outcomes(bytes@),
                step_start as nat,
                step_end as nat,
            ),
            r matches Ok(active) ==> forall|k: int|
                0 <= k < active@.len() ==> (#[trigger] active.deep_view()[k]).step_index < step_end,
    {
        let ghost answers = sequence::outcomes(bytes@);
        assert(self@.steps.len() == self.steps@.len());
        let mut active: Vec<VulkanComponentBatchActiveStep> = Vec::new();
        let mut i: usize = step_start;
        assert(active.deep_view() =~= Seq::empty());
        while i < step_end
            invariant
                step_start <= i,
                i <= step_end || i == step_start,
                active_steps(
                    self@,
                    batch_width,
                    start_stream_tick,
                    answers,
                    step_start as nat,
                    i as nat,
                ) is Ok,
                active_steps(
                    self@,
                    batch_width,
                    start_stream_tick,
                    answers,
                    step_start as nat,
                    i as nat,
                )->Ok_0 == active.deep_view(),
                forall|k: int|
                    0 <= k < active@.len() ==> (#[trigger] active.deep_view()[k]).step_index
                        < step_end,
            decreases step_end - i,
        {
            let step = &self.steps[i];
            proof {
                assert(self@.steps[i as int] == step@);
                assert(answers[i as int] == sequence::outcome(bytes@[i as int]));
                if active_steps(
                    self@,
                    batch_width,
                    start_stream_tick,
                    answers,
                    step_start as nat,
                    (i + 1) as nat,
                ) is Err {
                    lemma_active_steps_error(
                        self@,
                        batch_width,
                        start_stream_tick,
                        answers,
                        step_start as nat,
                        (i + 1) as nat,
                        step_end as nat,
                    );
                }
            }
            let runs: bool = match step.lane_index {
                Some(lane_index) => lane_index < batch_width,
                None => true,
            };
            if runs {
                match step.lane_index {
                    Some(lane_index) => {
                        match start_stream_tick.checked_add(lane_index as u64) {
                            None => {
                                return Err(
                                    VulkanResidentInProcessPlacedRuntimeError::StreamTickOverflow,
                                );
                            },
                            Some(_) => {},
                        }
                    },
                    None => {},
                }
                let push_constants: Vec<u8> = match &bytes[i] {
                    Err(VulkanComponentBatchPushConstantError::StreamControl(error)) => {
                        return Err(
                            VulkanResidentInProcessPlacedRuntimeError::BackendLoop(
                                VulkanError(
                                    Message::new("invalid component batch stream control: ").text(
                                        error.to_string().as_str(),
                                    ).done(),
                                ),
                            ),
                        );
                    },
                    Err(VulkanComponentBatchPushConstantError::BatchControl(error)) => {
                        return Err(error.clone());
                    },
                    Ok(bytes) => {
                        let copy: Vec<u8> = bytes.clone();
                        assert(copy.deep_view() =~= bytes.deep_view());
                        copy
                    },
                };
                let active_step = VulkanComponentBatchActiveStep {
                    step_index: i,
                    step: VulkanResidentKernelSequenceStep {
                        dispatch: step.dispatch.clone(),
                        push_constants,
                    },
                };
                let ghost before = active.deep_view();
                let ghost added = active_step@;
                active.push(active_step);
                assert(active.deep_view() =~= before.push(added));
            }
            i += 1;
        }
        Ok(active)
    }

    /// The states of which copies are kept.
    #[verifier::loop_isolation(false)]
    fn snapshot_requests(&self, active: &Vec<VulkanComponentBatchActiveStep>) -> (r: Vec<
        VulkanComponentBatchSnapshotRequest,
    >)
        requires
            forall|k: int|
                0 <= k < active@.len() ==> (#[trigger] active.deep_view()[k]).step_index
                    < self@.steps.len(),
        ensures
            r.deep_view() == snapshot_requests(self@, active.deep_view(), active@.len()),
    {
        let ghost all = active.deep_view();
        assert(self@.steps.len() == self.steps@.len());
        let mut requests: Vec<VulkanComponentBatchSnapshotRequest> = Vec::new();
        let mut i: usize = 0;
        assert(requests.deep_view() =~= Seq::empty());
        while i < active.len()
            invariant
                i <= active.len(),
                requests.deep_view() == snapshot_requests(self@, all, i as nat),
            decreases active.len() - i,
        {
            assert(all[i as int] == active@[i as int]@);
            let step = &self.steps[active[i].step_index];
            assert(self@.steps[all[i as int].step_index as int] == step@);
            let ghost set = step@.snapshot_state_buffer_indices;
            assert((set == Set::<usize>::empty()) == (
            step.snapshot_state_buffer_indices.elements@.len() == 0)) by {
                let elements = step.snapshot_state_buffer_indices.elements.deep_view();
                assert(elements.len() == step.snapshot_state_buffer_indices.elements@.len());
                if elements.len() > 0 {
                    assert(elements.contains(elements[0]));
                    assert(set.contains(elements[0]));
                } else {
                    assert(set =~= Set::empty());
                }
            }
            match step.lane_index {
                Some(lane_index) => {
                    if step.snapshot_state_buffer_indices.elements.len() != 0 {
                        let request = VulkanComponentBatchSnapshotRequest {
                            step_position: i,
                            lane_index,
                            state_buffer_indices: copy_set(&step.snapshot_state_buffer_indices),
                        };
                        let ghost before = requests.deep_view();
                        let ghost added = request@;
                        requests.push(request);
                        assert(requests.deep_view() =~= before.push(added));
                    }
                },
                None => {},
            }
            i += 1;
        }
        requests
    }

    /// A run of steps that is submitted as one.
    #[verifier::loop_isolation(false)]
    fn region(
        &self,
        component_id: &str,
        step_start: usize,
        step_end: usize,
        active: &Vec<VulkanComponentBatchActiveStep>,
        estimates: &Vec<VulkanKernelEstimate>,
    ) -> (r: RuntimeExecutionRegion)
        requires
            forall|k: int|
                0 <= k < active@.len() ==> (#[trigger] active.deep_view()[k]).step_index
                    < self@.steps.len() && active.deep_view()[k].step_index < estimates@.len(),
        ensures
            r@ == region_of(
                self@,
                component_id@,
                step_start,
                step_end,
                active.deep_view(),
                estimates.deep_view(),
            ),
    {
        let ghost all = active.deep_view();
        let ghost costs = estimates.deep_view();
        let ghost families_of = all.map_values(family_of(costs));
        assert(self@.steps.len() == self.steps@.len());
        let mut work_units: u64 = 0;
        let mut memory_bytes: u64 = 0;
        let mut commits: bool = false;
        let mut families: OrderedSet<String> = OrderedSet::new();
        let mut i: usize = 0;
        assert(all.take(0) =~= Seq::empty());
        assert(families_of.take(0).to_set() =~= Set::empty());
        while i < active.len()
            invariant
                i <= active.len(),
                work_units == saturated(
                    sequence::total(all.take(i as int), work_of(costs)) as int,
                ),
                memory_bytes == saturated(
                    sequence::total(all.take(i as int), memory_of(costs)) as int,
                ),
                commits == exists|k: int|
                    0 <= k < i && step_commits(self@)(#[trigger] all[k]),
                families.sorted(),
                families@ == families_of.take(i as int).to_set(),
            decreases active.len() - i,
        {
            let index: usize = active[i].step_index;
            proof {
                assert(all[i as int] == active@[i as int]@);
                assert(self@.steps[index as int] == self.steps@[index as int]@);
                assert(costs[index as int] == estimates@[index as int]@);
                sequence::lemma_total_step(all, work_of(costs), i as int);
                sequence::lemma_total_step(all, memory_of(costs), i as int);
                ordered::lemma_to_set_step(families_of, i as int);
                assert(families_of[i as int] == estimates@[index as int].execution_family@);
            }
            let estimate = &estimates[index];
            work_units =
            saturating_sum(
                work_units,
                estimate.work_units,
                Ghost(sequence::total(all.take(i as int), work_of(costs))),
            );
            memory_bytes =
            saturating_sum(
                memory_bytes,
                estimate.memory_bytes,
                Ghost(sequence::total(all.take(i as int), memory_of(costs))),
            );
            families.insert(estimate.execution_family.clone());
            if self.steps[index].commits_state {
                assert(step_commits(self@)(all[i as int]));
                commits = true;
            }
            i += 1;
        }
        proof {
            assert(all.take(all.len() as int) =~= all);
            assert(families_of.take(families_of.len() as int) =~= families_of);
            ordered::lemma_sorted_elements::<String>(families.elements.deep_view());
        }
        RuntimeExecutionRegion {
            region_id: Message::new(component_id).text(":").number(step_start).text("..").number(
                step_end,
            ).done(),
            component_id: component_id.to_owned(),
            cost: RuntimeExecutionCost {
                work_units,
                memory_bytes,
                dispatch_count: active.len() as u64,
            },
            kernel_families: families.elements,
            commits_state_after: commits,
        }
    }

    /// Where the lanes of a batch stand.
    pub fn batch_control(
        &self,
        batch_width: usize,
        start_stream_tick: u64,
        dynamic_state_capacity_activations: u32,
    ) -> (r: Result<VulkanComponentBatchControl, VulkanResidentInProcessPlacedRuntimeError>)
        ensures
            sequence::outcome(r) == lanes_control(
                self@,
                batch_width,
                start_stream_tick,
                dynamic_state_capacity_activations,
            ),
    {
        if batch_width == 0 || batch_width > self.lane_capacity {
            return Err(self.refuse_width(batch_width));
        }
        if batch_width > u32::MAX as usize {
            return Err(input_transducer::refusal("component batch width exceeds u32"));
        }
        Ok(
            VulkanComponentBatchControl {
                batch_width: batch_width as u32,
                start_stream_tick,
                dynamic_state_capacity_activations,
            },
        )
    }

    /// What the push constants of a step are written from; nothing where its lane is not part of the
    /// batch.
    pub fn step_push_constant_request(
        &self,
        step_index: usize,
        control: VulkanComponentBatchControl,
    ) -> (r: Result<
        Option<VulkanComponentBatchPushConstantRequest>,
        VulkanResidentInProcessPlacedRuntimeError,
    >)
        requires
            step_index < self@.steps.len(),
        ensures
            sequence::outcome(r) == push_constant_request(
                self@.steps[step_index as int],
                control,
            ),
    {
        let step = &self.steps[step_index];
        assert(self@.steps[step_index as int] == step@);
        let lane: usize = match step.lane_index {
            None => {
                return Ok(
                    Some(
                        VulkanComponentBatchPushConstantRequest::BatchControl {
                            byte_count: step.batch_control_byte_count,
                            control,
                        },
                    ),
                );
            },
            Some(lane) => lane,
        };
        if lane >= control.batch_width as usize {
            return Ok(None);
        }
        match control.start_stream_tick.checked_add(lane as u64) {
            None => Err(VulkanResidentInProcessPlacedRuntimeError::StreamTickOverflow),
            Some(stream_tick) => Ok(
                Some(
                    VulkanComponentBatchPushConstantRequest::StreamControl {
                        push_constants: kernel_interface::copy_scalars(&step.push_constants),
                        control: VulkanMountedPlacedStreamControl {
                            stream_tick,
                            control_flags: 0,
                            dynamic_state_capacity_activations:
                                control.dynamic_state_capacity_activations,
                        },
                    },
                ),
            ),
        }
    }

    fn refuse_width(&self, batch_width: usize) -> (r: VulkanResidentInProcessPlacedRuntimeError)
        requires
            batch_width == 0 || batch_width > self@.lane_capacity,
        ensures
            Some(r@) == width_error(self@, batch_width as nat),
    {
        VulkanResidentInProcessPlacedRuntimeError::BackendLoop(
            VulkanError(
                Message::new("component batch tile width ").number(self.lane_capacity).text(
                    " cannot execute ",
                ).number(batch_width).text(" lanes").done(),
            ),
        )
    }

    /// A run of the steps of a component, from what came of writing the push constants of each step
    /// and from what each step is expected to cost.
    pub fn run_segment(
        &self,
        mode: VulkanComponentBatchExecutionMode,
        batch_width: usize,
        start_stream_tick: u64,
        component_id: &str,
        segment_index: usize,
        step_start: usize,
        step_end: usize,
        bytes: &Vec<Result<Vec<u8>, VulkanComponentBatchPushConstantError>>,
        estimates: &Vec<VulkanKernelEstimate>,
    ) -> (r: Result<
        Option<VulkanComponentBatchSegment>,
        VulkanResidentInProcessPlacedRuntimeError,
    >)
        requires
            step_end <= self@.steps.len(),
            step_end <= bytes@.len(),
            step_end <= estimates@.len(),
        ensures
            sequence::outcome(r) == segment(
                self@,
                mode,
                batch_width,
                start_stream_tick,
                component_id@,
                segment_index,
                step_start,
                step_end,
                sequence::outcomes(bytes@),
                estimates.deep_view(),
            ),
    {
        let active: Vec<VulkanComponentBatchActiveStep> = match self.active_steps(
            batch_width,
            start_stream_tick,
            step_start,
            step_end,
            bytes,
        ) {
            Err(error) => {
                return Err(error);
            },
            Ok(active) => active,
        };
        assert(active.deep_view().len() == active@.len());
        if active.len() == 0 {
            return Ok(None);
        }
        let snapshots: Vec<VulkanComponentBatchSnapshotRequest> = match mode {
            VulkanComponentBatchExecutionMode::IndependentCandidates => self.snapshot_requests(
                &active,
            ),
            VulkanComponentBatchExecutionMode::CausalSequence => {
                let none: Vec<VulkanComponentBatchSnapshotRequest> = Vec::new();
                assert(none.deep_view() =~= Seq::empty());
                none
            },
        };
        let region: RuntimeExecutionRegion = self.region(
            component_id,
            step_start,
            step_end,
            &active,
            estimates,
        );
        Ok(
            Some(
                VulkanComponentBatchSegment {
                    sequence_index: segment_index,
                    steps: active,
                    snapshots,
                    region,
                },
            ),
        )
    }

    /// The run of a batch, from what came of encoding the controls of its lanes, of writing them and
    /// of each of its actions.
    #[verifier::loop_isolation(false)]
    pub fn run(
        &self,
        input_token_ids: &Vec<u32>,
        lane_controls: &Result<Vec<Vec<u8>>, VulkanResidentInProcessPlacedRuntimeError>,
        written: &Vec<Result<(), VulkanError>>,
        performed: &Vec<Result<(), VulkanResidentInProcessPlacedRuntimeError>>,
    ) -> (r: Result<(), VulkanResidentInProcessPlacedRuntimeError>)
        requires
            lane_controls matches Ok(lanes) ==> written_lanes(self@, lanes@.len())
                <= written@.len(),
            self@.execution_units.len() <= performed@.len(),
        ensures
            sequence::outcome(r) == batch_run(
                self@,
                input_token_ids@.len(),
                sequence::outcome(*lane_controls),
                sequence::outcomes(written@),
                sequence::outcomes(performed@),
            ),
    {
        let batch_width: usize = input_token_ids.len();
        if batch_width == 0 || batch_width > self.lane_capacity {
            return Err(self.refuse_width(batch_width));
        }
        let lanes: &Vec<Vec<u8>> = match lane_controls {
            Err(error) => {
                return Err(error.clone());
            },
            Ok(lanes) => lanes,
        };
        assert(lanes.deep_view().len() == lanes@.len());
        assert(self@.stream_control_buffers.len() == self.stream_control_buffers@.len());
        assert(self@.execution_units.len() == self.execution_units@.len());
        let count: usize = if lanes.len() <= self.stream_control_buffers.len() {
            lanes.len()
        } else {
            self.stream_control_buffers.len()
        };
        let ghost writes = sequence::outcomes(written@).take(count as int);
        let mut i: usize = 0;
        assert(writes.take(0) =~= Seq::empty());
        while i < count
            invariant
                i <= count,
                sequence::try_map(writes.take(i as int), reported()) is Ok,
            decreases count - i,
        {
            proof {
                sequence::lemma_try_map_step(writes, reported(), i as int);
                if sequence::try_map(writes.take(i + 1), reported()) is Err {
                    sequence::lemma_try_map_error(writes, reported(), i + 1);
                }
                assert(writes[i as int] == sequence::outcome(written@[i as int]));
            }
            match &written[i] {
                Err(error) => {
                    return Err(
                        VulkanResidentInProcessPlacedRuntimeError::BackendLoop(error.clone()),
                    );
                },
                Ok(_) => {},
            }
            i += 1;
        }
        assert(writes.take(count as int) =~= writes);
        if batch_width > u32::MAX as usize {
            return Err(input_transducer::refusal("component batch width exceeds u32"));
        }
        let units: usize = self.execution_units.len();
        let ghost results = sequence::outcomes(performed@).take(units as int);
        let ghost step = sequence::as_is::<(), VulkanResidentInProcessPlacedRuntimeErrorView>();
        let mut k: usize = 0;
        assert(results.take(0) =~= Seq::empty());
        while k < units
            invariant
                k <= units,
                sequence::try_map(results.take(k as int), step) is Ok,
            decreases units - k,
        {
            proof {
                sequence::lemma_try_map_step(results, step, k as int);
                if sequence::try_map(results.take(k + 1), step) is Err {
                    sequence::lemma_try_map_error(results, step, k + 1);
                }
                assert(results[k as int] == sequence::outcome(performed@[k as int]));
            }
            match &performed[k] {
                Err(error) => {
                    return Err(error.clone());
                },
                Ok(_) => {},
            }
            k += 1;
        }
        assert(results.take(units as int) =~= results);
        Ok(())
    }

    /// The buffer of a signal.
    pub fn signal_buffer(&self, key: &VulkanComponentBatchSignalKey) -> (r: Result<
        &VulkanComponentBatchSignalBuffer,
        VulkanResidentInProcessPlacedRuntimeError,
    >)
        ensures
            sequence::outcome(r) == (match buffer_of(self@, key@) {
                Some(buffer) => Ok::<
                    VulkanComponentBatchSignalBufferView,
                    VulkanResidentInProcessPlacedRuntimeErrorView,
                >(buffer),
                None => Err(input_transducer::refused(no_buffer_text(key@))),
            }),
    {
        assert(self@.signal_buffers.len() == self.signal_buffers@.len());
        match self.signal_buffer_indices.get(key) {
            Some(index) => {
                if *index < self.signal_buffers.len() {
                    return Ok(&self.signal_buffers[*index]);
                }
            },
            None => {},
        }
        Err(
            VulkanResidentInProcessPlacedRuntimeError::BackendLoop(
                VulkanError(
                    Message::new("component batch has no signal buffer ").text(
                        key.describe().as_str(),
                    ).done(),
                ),
            ),
        )
    }

    /// The import of a signal's buffer on a device.
    pub fn distributed_signal_buffer(
        &self,
        key: &VulkanComponentBatchSignalKey,
        device_id: &str,
    ) -> (r: Result<&VulkanResidentBuffer, VulkanResidentInProcessPlacedRuntimeError>)
        ensures
            sequence::outcome(r) == (match buffer_of(self@, key@) {
                Some(buffer) if buffer.shared_device_buffers.contains_key(device_id@) => Ok::<
                    VulkanResidentBufferView,
                    VulkanResidentInProcessPlacedRuntimeErrorView,
                >(buffer.shared_device_buffers[device_id@]),
                _ => Err(
                    input_transducer::refused(
                        "distributed component batch signal "@ + signals::key_text(key@)
                            + " is not imported on "@ + text::quoted(device_id@),
                    ),
                ),
            }),
    {
        assert(self@.signal_buffers.len() == self.signal_buffers@.len());
        match self.signal_buffer_indices.get(key) {
            Some(index) => {
                if *index < self.signal_buffers.len() {
                    let wanted: String = device_id.to_owned();
                    assert(self@.signal_buffers[*index as int] == self.signal_buffers@[*index as int]@);
                    match self.signal_buffers[*index].shared_device_buffers.get(&wanted) {
                        Some(buffer) => {
                            return Ok(buffer);
                        },
                        None => {},
                    }
                }
            },
            None => {},
        }
        Err(
            VulkanResidentInProcessPlacedRuntimeError::BackendLoop(
                VulkanError(
                    Message::new("distributed component batch signal ").text(
                        key.describe().as_str(),
                    ).text(" is not imported on ").quoted(device_id).done(),
                ),
            ),
        )
    }
}

/// Every run of local steps is submitted before a distributed launch starts and before the batch
/// ends.
pub proof fn local_steps_are_flushed(units: Seq<VulkanComponentBatchExecutionUnitView>, i: int)
    requires
        0 <= i < units.len(),
        units[i] is LocalComponent,
        i + 1 == units.len() || units[i + 1] is DistributedDispatch,
    ensures
        actions(units)[i] matches VulkanComponentBatchActionView::RunSegment {
            flush_after_segment,
            ..
        } && flush_after_segment,
{
}

/// Every lane of a batch has a control buffer of its own on the device, which stays mapped.
pub proof fn lanes_have_their_own_control(device_id: Seq<char>, lanes: usize, i: int, j: int)
    requires
        0 <= i < lanes,
        0 <= j < lanes,
    ensures
        control_buffers(device_id, lanes).len() == lanes,
        control_buffers(device_id, lanes)[i].device_id == device_id,
        control_buffers(device_id, lanes)[i].byte_capacity == VULKAN_STREAM_CONTROL_BYTE_CAPACITY,
        control_buffers(device_id, lanes)[i].persistently_mapped,
        i != j ==> control_buffers(device_id, lanes)[i].name != control_buffers(
            device_id,
            lanes,
        )[j].name,
{
}

/// The leaders of a device's groups are the first dispatches of the groups that the device owns.
pub proof fn groups_are_led_by_their_first(
    groups: Seq<VulkanDistributedDispatchGroupView>,
    device_id: Seq<char>,
    dispatch_index: usize,
)
    ensures
        group_leaders(groups, device_id).contains(dispatch_index) <==> exists|g: int|
            0 <= g < groups.len() && (#[trigger] groups[g]).owner_device_id == device_id
                && groups[g].dispatches[0].dispatch_index == dispatch_index,
    decreases groups.len(),
{
    if groups.len() > 0 {
        let front = groups.drop_last();
        groups_are_led_by_their_first(front, device_id, dispatch_index);
        if group_leaders(front, device_id).contains(dispatch_index) {
            let g = choose|g: int|
                0 <= g < front.len() && (#[trigger] front[g]).owner_device_id == device_id
                    && front[g].dispatches[0].dispatch_index == dispatch_index;
            assert(groups[g] == front[g]);
        }
        if exists|g: int|
            0 <= g < groups.len() && (#[trigger] groups[g]).owner_device_id == device_id
                && groups[g].dispatches[0].dispatch_index == dispatch_index {
            let g = choose|g: int|
                0 <= g < groups.len() && (#[trigger] groups[g]).owner_device_id == device_id
                    && groups[g].dispatches[0].dispatch_index == dispatch_index;
            if g < front.len() {
                assert(front[g] == groups[g]);
            }
        }
        assert(groups[groups.len() - 1] == groups.last());
    }
}

proof fn lemma_locals_counted(
    units: Seq<VulkanComponentBatchExecutionUnitView>,
    i: int,
    j: int,
)
    requires
        0 <= i < j <= units.len(),
    ensures
        sequence::count(units.take(j), is_local()) >= sequence::count(units.take(i), is_local()) + (
        if units[i] is LocalComponent {
            1nat
        } else {
            0
        }),
        sequence::count(units.take(j), is_local()) <= j,
    decreases j,
{
    sequence::lemma_count_step(units, is_local(), j - 1);
    if i < j - 1 {
        lemma_locals_counted(units, i, j - 1);
    } else if i > 0 {
        lemma_locals_counted(units, i - 1, i);
    } else {
        assert(units.take(0) =~= Seq::empty());
    }
}

/// A batch acts once for each unit, in order. A local unit runs its own steps as a sequence of its
/// own; a distributed one runs its dispatch.
pub proof fn units_are_acted_on_in_order(
    units: Seq<VulkanComponentBatchExecutionUnitView>,
    i: int,
    j: int,
)
    requires
        0 <= i < units.len() <= usize::MAX,
        i < j < units.len(),
    ensures
        actions(units).len() == units.len(),
        match units[i] {
            VulkanComponentBatchExecutionUnitView::LocalComponent {
                component_id,
                step_start,
                step_end,
            } => actions(units)[i] matches VulkanComponentBatchActionView::RunSegment {
                component_id: acted,
                sequence_index,
                step_start: start,
                step_end: end,
                ..
            } && acted == component_id && start == step_start && end == step_end && (
            actions(units)[j] matches VulkanComponentBatchActionView::RunSegment {
                sequence_index: later,
                ..
            } ==> sequence_index < later),
            VulkanComponentBatchExecutionUnitView::DistributedDispatch { dispatch_index } => {
                actions(units)[i] == (VulkanComponentBatchActionView::RunDistributed {
                    dispatch_index,
                })
            },
        },
{
    lemma_locals_counted(units, i, j);
    if i > 0 {
        lemma_locals_counted(units, i - 1, i);
    } else {
        assert(units.take(0) =~= Seq::empty());
    }
}

/// A step of all lanes is told the width, the first tick and the capacity of its batch. A step of one
/// lane is told where that lane stands: at the batch's first tick and as many ticks on as its number
/// says. A lane that the batch does not have is not run.
pub proof fn steps_are_told_where_their_lane_stands(
    runner: VulkanResidentComponentBatchSliceRunnerView,
    step: VulkanComponentBatchDispatchStepView,
    batch_width: usize,
    start_stream_tick: u64,
    capacity: u32,
)
    ensures
        lanes_control(runner, batch_width, start_stream_tick, capacity) is Ok <==> 0 < batch_width
            <= runner.lane_capacity && batch_width <= u32::MAX,
        lanes_control(runner, batch_width, start_stream_tick, capacity) matches Ok(control) ==> {
            &&& control.batch_width == batch_width
            &&& control.start_stream_tick == start_stream_tick
            &&& control.dynamic_state_capacity_activations == capacity
            &&& step.lane_index is None ==> (push_constant_request(step, control) matches Ok(
                Some(VulkanComponentBatchPushConstantRequestView::BatchControl {
                    byte_count,
                    control: told,
                }),
            ) && byte_count == step.batch_control_byte_count && told == control)
            &&& step.lane_index matches Some(lane) ==> {
                &&& lane >= batch_width ==> push_constant_request(step, control) == Ok::<
                    Option<VulkanComponentBatchPushConstantRequestView>,
                    VulkanResidentInProcessPlacedRuntimeErrorView,
                >(None)
                &&& lane < batch_width && start_stream_tick + lane <= u64::MAX ==> (
                push_constant_request(step, control) matches Ok(
                    Some(VulkanComponentBatchPushConstantRequestView::StreamControl {
                        push_constants,
                        control: told,
                    }),
                ) && push_constants == step.push_constants && told.stream_tick == start_stream_tick
                    + lane && told.control_flags == 0 && told.dynamic_state_capacity_activations
                    == capacity)
            }
        },
{
}

proof fn lemma_snapshots(
    runner: VulkanResidentComponentBatchSliceRunnerView,
    active: Seq<VulkanComponentBatchActiveStepView>,
    n: nat,
    k: int,
    p: int,
)
    requires
        n <= active.len() <= usize::MAX,
    ensures
        0 <= k < snapshot_requests(runner, active, n).len() ==> {
            let asked = snapshot_requests(runner, active, n)[k];
            let step = runner.steps[active[asked.step_position as int].step_index as int];
            &&& asked.step_position < n
            &&& step.lane_index == Some(asked.lane_index)
            &&& step.snapshot_state_buffer_indices == asked.state_buffer_indices
        },
        0 <= p < n && runner.steps[active[p].step_index as int].lane_index is Some
            && runner.steps[active[p].step_index as int].snapshot_state_buffer_indices
            != Set::<usize>::empty() ==> exists|k: int|
            0 <= k < snapshot_requests(runner, active, n).len() && (#[trigger] snapshot_requests(
                runner,
                active,
                n,
            )[k]).step_position == p,
    decreases n,
{
    if n > 0 {
        lemma_snapshots(runner, active, (n - 1) as nat, k, p);
        let front = snapshot_requests(runner, active, (n - 1) as nat);
        let after = snapshot_requests(runner, active, n);
        if 0 <= p < n - 1 && exists|k: int|
            0 <= k < front.len() && (#[trigger] front[k]).step_position == p {
            let k = choose|k: int| 0 <= k < front.len() && (#[trigger] front[k]).step_position == p;
            assert(after[k].step_position == p);
        } else if p == n - 1 && after.len() > front.len() {
            assert(after[front.len() as int].step_position == p);
        }
    }
}

/// Where lanes are independent candidates, every step of one lane that changes states of a fixed size
/// has these states kept for its lane; nothing is kept otherwise. The segment reports the component
/// and the steps that it runs.
pub proof fn candidates_keep_the_states_they_change(
    runner: VulkanResidentComponentBatchSliceRunnerView,
    mode: VulkanComponentBatchExecutionMode,
    batch_width: usize,
    start_stream_tick: u64,
    component_id: Seq<char>,
    sequence_index: usize,
    step_start: usize,
    step_end: usize,
    bytes: Seq<PushConstantAnswer>,
    estimates: Seq<VulkanKernelEstimateView>,
    k: int,
    p: int,
)
    requires
        segment(
            runner,
            mode,
            batch_width,
            start_stream_tick,
            component_id,
            sequence_index,
            step_start,
            step_end,
            bytes,
            estimates,
        ) matches Ok(Some(made)) && made.steps.len() <= usize::MAX && made.steps.len() <= u64::MAX,
    ensures
        ({
            let made = segment(
                runner,
                mode,
                batch_width,
                start_stream_tick,
                component_id,
                sequence_index,
                step_start,
                step_end,
                bytes,
                estimates,
            )->Ok_0->Some_0;
            &&& made.sequence_index == sequence_index
            &&& made.steps.len() > 0
            &&& made.region.component_id == component_id
            &&& made.region.cost.dispatch_count == made.steps.len()
            &&& made.region.commits_state_after <==> exists|s: int|
                0 <= s < made.steps.len() && runner.steps[(
                #[trigger] made.steps[s]).step_index as int].commits_state
            &&& mode is CausalSequence ==> made.snapshots.len() == 0
            &&& mode is IndependentCandidates && 0 <= k < made.snapshots.len() ==> {
                let asked = made.snapshots[k];
                let step = runner.steps[made.steps[asked.step_position as int].step_index as int];
                &&& asked.step_position < made.steps.len()
                &&& step.lane_index == Some(asked.lane_index)
                &&& step.snapshot_state_buffer_indices == asked.state_buffer_indices
            }
            &&& mode is IndependentCandidates && 0 <= p < made.steps.len()
                && runner.steps[made.steps[p].step_index as int].lane_index is Some
                && runner.steps[made.steps[p].step_index as int].snapshot_state_buffer_indices
                != Set::<usize>::empty() ==> exists|q: int|
                0 <= q < made.snapshots.len() && (#[trigger] made.snapshots[q]).step_position == p
        }),
{
    let made = segment(
        runner,
        mode,
        batch_width,
        start_stream_tick,
        component_id,
        sequence_index,
        step_start,
        step_end,
        bytes,
        estimates,
    )->Ok_0->Some_0;
    lemma_snapshots(runner, made.steps, made.steps.len(), k, p);
    let commits = step_commits(runner);
    if sequence::any(made.steps, commits) {
        let s = choose|s: int| 0 <= s < made.steps.len() && commits(#[trigger] made.steps[s]);
        assert(runner.steps[made.steps[s].step_index as int].commits_state);
    } else {
        assert forall|s: int| 0 <= s < made.steps.len() implies !runner.steps[(
        #[trigger] made.steps[s]).step_index as int].commits_state by {
            assert(!commits(made.steps[s]));
        }
    }
}

/// A signal is found in the buffer that was planned for it.
pub proof fn signals_are_found_in_their_buffer(
    runner: VulkanResidentComponentBatchSliceRunnerView,
    key: VulkanComponentBatchSignalKeyView,
)
    ensures
        buffer_of(runner, key) matches Some(buffer) ==> {
            &&& runner.signal_buffer_indices.contains_key(key)
            &&& buffer == runner.signal_buffers[runner.signal_buffer_indices[key] as int]
        },
        runner.signal_buffer_indices.contains_key(key) && runner.signal_buffer_indices[key]
            < runner.signal_buffers.len() ==> buffer_of(runner, key) is Some,
{
}

/// A slice of a batch keeps the buffers that its signals were planned for, a control buffer for every
/// lane, and the steps of its dispatches in order.
pub proof fn slices_keep_what_was_planned(
    directory: VulkanDeviceDirectoryView,
    slice: VulkanComponentBatchSliceView,
    lanes: usize,
    mode: VulkanComponentBatchExecutionMode,
    plan: VulkanDistributedExecutionPlanView,
    uses: Seq<Seq<SignalUse>>,
    bound: Seq<Seq<BindingAnswer>>,
)
    requires
        slice_runner(directory, slice, lanes, mode, plan, uses, bound) is Ok,
    ensures
        ({
            let made = slice_runner(directory, slice, lanes, mode, plan, uses, bound)->Ok_0;
            let asked = planned_bindings(directory, slice, lanes, mode, plan, uses);
            let launches = steps::batch_launches(
                slice,
                plan.dispatches,
                mode,
                lanes,
                bound,
                slice.dispatches.len(),
            );
            &&& lanes > 0
            &&& made.lane_capacity == lanes
            &&& asked is Ok
            &&& made.signal_buffers == asked->Ok_0.signal_buffers
            &&& made.signal_buffer_indices == asked->Ok_0.signal_buffer_indices
            &&& made.stream_control_buffers == asked->Ok_0.stream_control_buffers
            &&& made.stream_control_buffers.len() == lanes
            &&& signals::signal_buffer_plan(uses) is Ok
            &&& made.signal_buffer_indices == signals::signal_buffer_plan(
                uses,
            )->Ok_0.signal_buffer_indices
            &&& launches is Ok
            &&& made.steps == launches->Ok_0.steps
            &&& units::execution_units(launches->Ok_0.spans) is Ok
        }),
{
}

/// A batch has run where its width fits, every lane could be told where it stands, and every unit
/// could be run.
pub proof fn batches_run_where_every_unit_does(
    runner: VulkanResidentComponentBatchSliceRunnerView,
    batch_width: nat,
    lanes: Seq<Seq<u8>>,
    written: Seq<Result<(), Seq<char>>>,
    performed: Seq<Result<(), VulkanResidentInProcessPlacedRuntimeErrorView>>,
    i: int,
)
    requires
        batch_run(
            runner,
            batch_width,
            Ok::<Seq<Seq<u8>>, VulkanResidentInProcessPlacedRuntimeErrorView>(lanes),
            written,
            performed,
        ) is Ok,
        written.len() >= lanes.len(),
        performed.len() >= runner.execution_units.len(),
    ensures
        0 < batch_width <= runner.lane_capacity,
        0 <= i < lanes.len() && i < runner.stream_control_buffers.len() ==> written[i] is Ok,
        0 <= i < runner.execution_units.len() ==> performed[i] is Ok,
{
    let first = written.take(written_lanes(runner, lanes.len()) as int);
    let second = performed.take(runner.execution_units.len() as int);
    let as_given = sequence::as_is::<(), VulkanResidentInProcessPlacedRuntimeErrorView>();
    sequence::lemma_try_map_ok(first, reported());
    sequence::lemma_try_map_ok(second, as_given);
    if 0 <= i < lanes.len() && i < runner.stream_control_buffers.len() {
        assert(reported()(first[i]) is Ok);
    }
    if 0 <= i < runner.execution_units.len() {
        assert(as_given(second[i]) is Ok);
    }
}

} // verus!
