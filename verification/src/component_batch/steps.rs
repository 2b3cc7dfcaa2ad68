//! The launches of a batch: one for all lanes where a batch kernel serves the node, and one per lane
//! where none does.

use crate::arithmetic;
use crate::bound_dispatch::VulkanBoundDescriptorTarget;
use crate::bound_dispatch::VulkanBoundDescriptorTargetView;
use crate::component_batch::kernels::VulkanComponentBatchExecutionMode;
use crate::component_batch::kernels::VulkanResidentComponentBatchKernelArtifact;
use crate::component_batch::kernels::VulkanResidentComponentBatchKernelArtifactView;
use crate::component_batch::kernels::VulkanResidentComponentBatchStageArtifact;
use crate::component_batch::kernels::VulkanResidentComponentBatchStageArtifactView;
use crate::component_batch::kernels::VulkanResidentComponentKernelBatchMode;
use crate::component_batch::kernels;
use crate::component_batch::slice::VulkanComponentBatchDispatchStep;
use crate::component_batch::slice::VulkanComponentBatchDispatchStepView;
use crate::component_batch::slice::VulkanComponentBatchSlice;
use crate::component_batch::slice::VulkanComponentBatchSliceView;
use crate::component_batch::units::VulkanComponentBatchDispatchSpan;
use crate::component_batch::units::VulkanComponentBatchDispatchSpanView;
use crate::device::VulkanError;
use crate::device::VulkanResidentBuffer;
use crate::device::VulkanResidentBufferView;
use crate::device::VulkanResidentKernelBufferBinding;
use crate::device::VulkanResidentKernelBufferBindingView;
use crate::device::VulkanResidentKernelDispatch;
use crate::device::VulkanResidentKernelDispatchView;
use crate::distributed::plan::VulkanDistributedDispatchPlan;
use crate::distributed::plan::VulkanDistributedDispatchPlanView;
use crate::input_transducer;
use crate::kernel_interface::VulkanKernelDescriptorUsage;
use crate::kernel_interface::VulkanKernelScalarBinding;
use crate::kernel_interface;
use crate::mounted_dispatch::VulkanMountedPlacedBoundDescriptor;
use crate::mounted_dispatch::VulkanMountedPlacedBoundDescriptorTarget;
use crate::mounted_dispatch::VulkanMountedPlacedBoundDescriptorTargetView;
use crate::mounted_dispatch::VulkanMountedPlacedBoundDescriptorView;
use crate::mounted_dispatch::VulkanMountedPlacedBoundDispatch;
use crate::mounted_dispatch::VulkanMountedPlacedBoundDispatchView;
use crate::mounted_dispatch;
use crate::ordered::OrderedSet;
use crate::resident_dispatch;
use crate::reusable_kernels::VulkanLoadedReusableKernelArtifact;
use crate::reusable_kernels::VulkanLoadedReusableKernelArtifactView;
use crate::reusable_kernels;
use crate::runtime_error::VulkanResidentInProcessPlacedRuntimeError;
use crate::runtime_error::VulkanResidentInProcessPlacedRuntimeErrorView;
use crate::sequence;
use crate::text::Message;
use crate::text;
use vstd::prelude::*;

verus! {

/// What came of binding the buffers of a launch.
pub type BindingAnswer = Result<
    Seq<VulkanResidentKernelBufferBindingView>,
    VulkanResidentInProcessPlacedRuntimeErrorView,
>;

/// Whether a launch is the one that is distributed.
pub open spec fn is_distributed(device_id: Seq<char>, dispatch_index: usize) -> spec_fn(
    VulkanDistributedDispatchPlanView,
) -> bool {
    |plan: VulkanDistributedDispatchPlanView|
        plan.owner_device_id == device_id && plan.dispatch_index == dispatch_index
}

/// The usage of a descriptor.
pub open spec fn usage_of() -> spec_fn(VulkanMountedPlacedBoundDescriptorView) -> VulkanKernelDescriptorUsage {
    |descriptor: VulkanMountedPlacedBoundDescriptorView| descriptor.usage
}

/// Whether a launch changes a state.
pub open spec fn commits_state(dispatch: VulkanMountedPlacedBoundDispatchView) -> bool {
    sequence::any(dispatch.descriptors.map_values(usage_of()), kernels::changes_state())
}

/// Whether a descriptor of this usage reads or changes a state.
pub open spec fn is_state() -> spec_fn(VulkanKernelDescriptorUsage) -> bool {
    |usage: VulkanKernelDescriptorUsage|
        usage == VulkanKernelDescriptorUsage::StateRead || kernels::changes_state()(usage)
}

/// Whether a launch reads or changes a state.
pub open spec fn has_state(dispatch: VulkanMountedPlacedBoundDispatchView) -> bool {
    sequence::any(dispatch.descriptors.map_values(usage_of()), is_state())
}

/// The state buffer of fixed size that a descriptor changes.
pub open spec fn changed_state(descriptor: VulkanMountedPlacedBoundDescriptorView) -> Option<usize> {
    if !kernels::changes_state()(descriptor.usage) {
        None
    } else {
        match descriptor.target {
            VulkanMountedPlacedBoundDescriptorTargetView::Resident { target } => match target {
                VulkanBoundDescriptorTargetView::StreamStateBuffer {
                    buffer_index,
                    static_bytes: Some(_),
                    ..
                } => Some(buffer_index),
                VulkanBoundDescriptorTargetView::StreamStateView {
                    buffer_index,
                    static_bytes: Some(_),
                    ..
                } => Some(buffer_index),
                _ => None,
            },
            _ => None,
        }
    }
}

/// The state buffers of fixed size that a launch changes.
pub open spec fn changed_states(descriptors: Seq<VulkanMountedPlacedBoundDescriptorView>) -> Set<
    usize,
>
    decreases descriptors.len(),
{
    if descriptors.len() == 0 {
        Set::empty()
    } else {
        match changed_state(descriptors.last()) {
            Some(index) => changed_states(descriptors.drop_last()).insert(index),
            None => changed_states(descriptors.drop_last()),
        }
    }
}

/// The error where a batch kernel cannot be used for a launch.
pub open spec fn batch_kernel_error(
    artifact: VulkanResidentComponentBatchKernelArtifactView,
    dispatch: VulkanMountedPlacedBoundDispatchView,
    lane_capacity: usize,
) -> Option<VulkanResidentInProcessPlacedRuntimeErrorView> {
    if artifact.batch_mode == VulkanResidentComponentKernelBatchMode::CausalScan && lane_capacity
        > artifact.lane_tile_width {
        Some(
            input_transducer::refused(
                "causal scan kernel "@ + dispatch.component_id + "."@ + dispatch.node_id
                    + " cannot execute "@ + text::decimal(lane_capacity as nat)
                    + " lanes with tile width "@ + text::decimal(artifact.lane_tile_width as nat),
            ),
        )
    } else if dispatch.push_constants.len() != 0 {
        Some(
            input_transducer::refused(
                "component batch kernel "@ + dispatch.component_id + "."@ + dispatch.node_id
                    + " requires model-specific scalar values"@,
            ),
        )
    } else if artifact.batch_mode == VulkanResidentComponentKernelBatchMode::WeightShared
        && has_state(dispatch) {
        Some(
            input_transducer::refused(
                "weight-shared component batch kernel "@ + dispatch.component_id + "."@
                    + dispatch.node_id + " is not stateless"@,
            ),
        )
    } else {
        None
    }
}

/// How many rows of workgroups a batch kernel takes: one per tile of lanes, or one where the kernel
/// scans the lanes itself.
pub open spec fn batch_rows(
    artifact: VulkanResidentComponentBatchKernelArtifactView,
    lane_capacity: usize,
) -> Result<u32, VulkanResidentInProcessPlacedRuntimeErrorView> {
    if artifact.batch_mode == VulkanResidentComponentKernelBatchMode::WeightShared {
        let rows = arithmetic::ceiling(lane_capacity as nat, artifact.lane_tile_width as nat);
        if lane_capacity + artifact.lane_tile_width - 1 > usize::MAX {
            Err(input_transducer::refused("component batch workgroup count overflowed"@))
        } else if rows > u32::MAX {
            Err(input_transducer::refused("component batch workgroup count exceeds u32"@))
        } else {
            Ok(rows as u32)
        }
    } else {
        Ok(1)
    }
}

/// The launch of a stage for all lanes at once.
pub open spec fn stage_step(
    device_id: Seq<char>,
    dispatch: VulkanMountedPlacedBoundDispatchView,
    bindings: Seq<VulkanResidentKernelBufferBindingView>,
    rows: u32,
) -> spec_fn(VulkanResidentComponentBatchStageArtifactView) -> VulkanComponentBatchDispatchStepView {
    |stage: VulkanResidentComponentBatchStageArtifactView|
        VulkanComponentBatchDispatchStepView {
            dispatch: VulkanResidentKernelDispatchView {
                device_id,
                spirv_words: stage.spirv_words,
                bindings,
                workgroup_count_x: stage.workgroup_count_x,
                workgroup_count_y: rows,
                base_workgroup_z: 0,
                local_size_x: stage.local_size_x,
                push_constant_byte_count: kernels::stage_control_bytes(stage.shader_path),
                label: Some(mounted_dispatch::semantic_label(dispatch, Some("batch"@))),
            },
            batch_control_byte_count: kernels::stage_control_bytes(stage.shader_path),
            push_constants: Seq::empty(),
            lane_index: None,
            commits_state: commits_state(dispatch),
            snapshot_state_buffer_indices: Set::empty(),
        }
}

/// The launches of a node that a batch kernel serves.
pub open spec fn batch_steps(
    device_id: Seq<char>,
    dispatch: VulkanMountedPlacedBoundDispatchView,
    artifact: VulkanResidentComponentBatchKernelArtifactView,
    lane_capacity: usize,
    bound: BindingAnswer,
) -> Result<Seq<VulkanComponentBatchDispatchStepView>, VulkanResidentInProcessPlacedRuntimeErrorView> {
    match batch_kernel_error(artifact, dispatch, lane_capacity) {
        Some(error) => Err(error),
        None => match bound {
            Err(error) => Err(error),
            Ok(bindings) => match batch_rows(artifact, lane_capacity) {
                Err(error) => Err(error),
                Ok(rows) => Ok(
                    artifact.stages.map_values(stage_step(device_id, dispatch, bindings, rows)),
                ),
            },
        },
    }
}

/// The launch of a node for one lane.
pub open spec fn lane_step(
    device_id: Seq<char>,
    dispatch: VulkanMountedPlacedBoundDispatchView,
    artifact: VulkanLoadedReusableKernelArtifactView,
    lane_index: usize,
    bound: BindingAnswer,
) -> Result<VulkanComponentBatchDispatchStepView, VulkanResidentInProcessPlacedRuntimeErrorView> {
    match bound {
        Err(error) => Err(error),
        Ok(bindings) => match resident_dispatch::push_constant_bytes(dispatch.push_constants) {
            Err(error) => Err(
                input_transducer::refused(
                    "invalid component batch push constants: "@ + resident_dispatch::launch_message(
                        error,
                    ),
                ),
            ),
            Ok(bytes) => Ok(
                VulkanComponentBatchDispatchStepView {
                    dispatch: VulkanResidentKernelDispatchView {
                        device_id,
                        spirv_words: artifact.words,
                        bindings,
                        workgroup_count_x: artifact.artifact.workgroup_count_x,
                        workgroup_count_y: 1,
                        base_workgroup_z: 0,
                        local_size_x: artifact.artifact.local_size_x,
                        push_constant_byte_count: bytes,
                        label: Some(
                            mounted_dispatch::semantic_label(
                                dispatch,
                                Some("lane="@ + text::decimal(lane_index as nat)),
                            ),
                        ),
                    },
                    batch_control_byte_count: 0,
                    push_constants: dispatch.push_constants,
                    lane_index: Some(lane_index),
                    commits_state: commits_state(dispatch),
                    snapshot_state_buffer_indices: changed_states(dispatch.descriptors),
                },
            ),
        },
    }
}

/// The launches of a node for the first `n` lanes.
pub open spec fn lane_steps(
    device_id: Seq<char>,
    dispatch: VulkanMountedPlacedBoundDispatchView,
    artifact: VulkanLoadedReusableKernelArtifactView,
    bound: Seq<BindingAnswer>,
    n: nat,
) -> Result<Seq<VulkanComponentBatchDispatchStepView>, VulkanResidentInProcessPlacedRuntimeErrorView>
    decreases n,
{
    if n == 0 {
        Ok(Seq::empty())
    } else {
        match lane_steps(device_id, dispatch, artifact, bound, (n - 1) as nat) {
            Err(error) => Err(error),
            Ok(done) => match lane_step(
                device_id,
                dispatch,
                artifact,
                (n - 1) as usize,
                bound[n - 1],
            ) {
                Err(error) => Err(error),
                Ok(step) => Ok(done.push(step)),
            },
        }
    }
}

/// The launches of a node that is not distributed.
pub open spec fn node_steps(
    slice: VulkanComponentBatchSliceView,
    mode: VulkanComponentBatchExecutionMode,
    lane_capacity: usize,
    dispatch: VulkanMountedPlacedBoundDispatchView,
    bound: Seq<BindingAnswer>,
) -> Result<Seq<VulkanComponentBatchDispatchStepView>, VulkanResidentInProcessPlacedRuntimeErrorView> {
    match kernels::selected(
        slice.batch_kernels,
        kernels::all_compatible(slice.batch_kernels.len()),
        dispatch.component_id,
        dispatch.node_id,
        mode,
        lane_capacity,
    ) {
        Some(artifact) => batch_steps(slice.device_id, dispatch, artifact, lane_capacity, bound[0]),
        None => match reusable_kernels::loaded_artifact(
            slice.loaded_manifest,
            dispatch.reusable_family_id,
        ) {
            None => Err(
                input_transducer::refused(
                    "component batch scalar kernel "@ + dispatch.component_id + "."@
                        + dispatch.node_id + " has no loaded artifact"@,
                ),
            ),
            Some(artifact) => lane_steps(
                slice.device_id,
                dispatch,
                artifact,
                bound,
                lane_capacity as nat,
            ),
        },
    }
}

/// What the buffers of a launch are bound for: all lanes at once, or one of them, whose control buffer
/// is bound too where the launch sees the stream's tick.
#[derive(Debug, PartialEq, Eq)]
pub struct VulkanComponentBatchBindingRequest {
    pub dispatch_position: usize,
    pub lane_index: Option<usize>,
    pub stream_control_buffer: Option<VulkanResidentBuffer>,
}

#[verifier::ext_equal]
pub struct VulkanComponentBatchBindingRequestView {
    pub dispatch_position: usize,
    pub lane_index: Option<usize>,
    pub stream_control_buffer: Option<VulkanResidentBufferView>,
}

impl DeepView for VulkanComponentBatchBindingRequest {
    type V = VulkanComponentBatchBindingRequestView;

    open spec fn deep_view(&self) -> VulkanComponentBatchBindingRequestView {
        VulkanComponentBatchBindingRequestView {
            dispatch_position: self.dispatch_position,
            lane_index: self.lane_index,
            stream_control_buffer: self.stream_control_buffer.deep_view(),
        }
    }
}

impl View for VulkanComponentBatchBindingRequest {
    type V = VulkanComponentBatchBindingRequestView;

    open spec fn view(&self) -> VulkanComponentBatchBindingRequestView {
        self.deep_view()
    }
}

impl Clone for VulkanComponentBatchBindingRequest {
    fn clone(&self) -> (r: Self)
        ensures
            r@ == self@,
    {
        VulkanComponentBatchBindingRequest {
            dispatch_position: self.dispatch_position,
            lane_index: self.lane_index.clone(),
            stream_control_buffer: self.stream_control_buffer.clone(),
        }
    }
}

/// What the buffers of the launch at a position are bound for, one lane after the other.
pub open spec fn lane_requests(
    position: int,
    dispatch: VulkanMountedPlacedBoundDispatchView,
    controls: Seq<VulkanResidentBufferView>,
) -> Seq<VulkanComponentBatchBindingRequestView> {
    Seq::new(
        controls.len(),
        |lane: int|
            VulkanComponentBatchBindingRequestView {
                dispatch_position: position as usize,
                lane_index: Some(lane as usize),
                stream_control_buffer: if dispatch.uses_stream_tick {
                    Some(controls[lane])
                } else {
                    None
                },
            },
    )
}

/// What the buffers of the launch at a position are bound for: nothing where it is distributed or
/// refused, all lanes at once where a batch kernel serves it, and otherwise each lane.
pub open spec fn node_requests(
    slice: VulkanComponentBatchSliceView,
    distributed: Seq<VulkanDistributedDispatchPlanView>,
    mode: VulkanComponentBatchExecutionMode,
    controls: Seq<VulkanResidentBufferView>,
    position: int,
) -> Seq<VulkanComponentBatchBindingRequestView> {
    let dispatch = slice.dispatches[position];
    if sequence::any(distributed, is_distributed(slice.device_id, dispatch.dispatch_index)) {
        Seq::empty()
    } else {
        match kernels::selected(
            slice.batch_kernels,
            kernels::all_compatible(slice.batch_kernels.len()),
            dispatch.component_id,
            dispatch.node_id,
            mode,
            controls.len() as usize,
        ) {
            Some(artifact) => if batch_kernel_error(
                artifact,
                dispatch,
                controls.len() as usize,
            ) is Some {
                Seq::empty()
            } else {
                seq![
                    VulkanComponentBatchBindingRequestView {
                        dispatch_position: position as usize,
                        lane_index: None,
                        stream_control_buffer: None,
                    },
                ]
            },
            None => if reusable_kernels::loaded_artifact(
                slice.loaded_manifest,
                dispatch.reusable_family_id,
            ) is None {
                Seq::empty()
            } else {
                lane_requests(position, dispatch, controls)
            },
        }
    }
}

/// What the buffers of a device's launches are bound for, launch by launch.
pub open spec fn binding_requests(
    slice: VulkanComponentBatchSliceView,
    distributed: Seq<VulkanDistributedDispatchPlanView>,
    mode: VulkanComponentBatchExecutionMode,
    controls: Seq<VulkanResidentBufferView>,
) -> Seq<Seq<VulkanComponentBatchBindingRequestView>> {
    Seq::new(
        slice.dispatches.len(),
        |position: int| node_requests(slice, distributed, mode, controls, position),
    )
}

/// Whether every request has an answer.
pub open spec fn requests_answered(
    requests: Seq<Seq<VulkanComponentBatchBindingRequestView>>,
    bound: Seq<Seq<BindingAnswer>>,
) -> bool {
    &&& bound.len() >= requests.len()
    &&& forall|i: int|
        0 <= i < requests.len() ==> (#[trigger] bound[i]).len() >= requests[i].len()
}

/// The launches of a batch, with the span of every launch of the device.
#[verifier::ext_equal]
pub struct BatchLaunches {
    pub steps: Seq<VulkanComponentBatchDispatchStepView>,
    pub spans: Seq<VulkanComponentBatchDispatchSpanView>,
}

/// The span of a launch.
pub open spec fn span_of(
    dispatch: VulkanMountedPlacedBoundDispatchView,
    start: nat,
    end: nat,
    distributed: bool,
) -> VulkanComponentBatchDispatchSpanView {
    VulkanComponentBatchDispatchSpanView {
        component_id: dispatch.component_id,
        dispatch_index: dispatch.dispatch_index,
        step_start: start as usize,
        step_end: end as usize,
        distributed,
    }
}

/// The launches of a batch for the first `n` launches of the device.
pub open spec fn batch_launches(
    slice: VulkanComponentBatchSliceView,
    distributed: Seq<VulkanDistributedDispatchPlanView>,
    mode: VulkanComponentBatchExecutionMode,
    lane_capacity: usize,
    bound: Seq<Seq<BindingAnswer>>,
    n: nat,
) -> Result<BatchLaunches, VulkanResidentInProcessPlacedRuntimeErrorView>
    decreases n,
{
    if n == 0 {
        Ok(BatchLaunches { steps: Seq::empty(), spans: Seq::empty() })
    } else {
        match batch_launches(slice, distributed, mode, lane_capacity, bound, (n - 1) as nat) {
            Err(error) => Err(error),
            Ok(done) => {
                let dispatch = slice.dispatches[n - 1];
                let start = done.steps.len();
                if sequence::any(
                    distributed,
                    is_distributed(slice.device_id, dispatch.dispatch_index),
                ) {
                    Ok(
                        BatchLaunches {
                            steps: done.steps,
                            spans: done.spans.push(span_of(dispatch, start, start, true)),
                        },
                    )
                } else {
                    match node_steps(slice, mode, lane_capacity, dispatch, bound[n - 1]) {
                        Err(error) => Err(error),
                        Ok(steps) => Ok(
                            BatchLaunches {
                                steps: done.steps + steps,
                                spans: done.spans.push(
                                    span_of(dispatch, start, start + steps.len(), false),
                                ),
                            },
                        ),
                    }
                }
            },
        }
    }
}

/// The values of a table of outcomes.
pub open spec fn answers_of(
    bound: Seq<
        Vec<
            Result<
                Vec<VulkanResidentKernelBufferBinding>,
                VulkanResidentInProcessPlacedRuntimeError,
            >,
        >,
    >,
) -> Seq<Seq<BindingAnswer>> {
    Seq::new(bound.len(), |i: int| sequence::outcomes(bound[i]@))
}

/// Whether a batch kernel treats lanes together, and has a tile where lanes are tiled.
pub open spec fn usable_kernel(artifact: VulkanResidentComponentBatchKernelArtifactView) -> bool {
    match artifact.batch_mode {
        VulkanResidentComponentKernelBatchMode::WeightShared => artifact.lane_tile_width > 0,
        VulkanResidentComponentKernelBatchMode::CausalScan => true,
        VulkanResidentComponentKernelBatchMode::SerialLanes => false,
    }
}

/// Whether the batch kernel of a node is usable, where one is selected and nothing is wrong before
/// its rows are counted.
pub open spec fn node_kernel_usable(
    slice: VulkanComponentBatchSliceView,
    mode: VulkanComponentBatchExecutionMode,
    lane_capacity: usize,
    dispatch: VulkanMountedPlacedBoundDispatchView,
    bound: Seq<BindingAnswer>,
) -> bool {
    kernels::selected(
        slice.batch_kernels,
        kernels::all_compatible(slice.batch_kernels.len()),
        dispatch.component_id,
        dispatch.node_id,
        mode,
        lane_capacity,
    ) matches Some(artifact) ==> batch_kernel_error(artifact, dispatch, lane_capacity) is None
        && bound[0] is Ok ==> usable_kernel(artifact)
}

/// Whether the batch kernels that a device's launches come to are usable.
pub open spec fn reached_kernels_usable(
    slice: VulkanComponentBatchSliceView,
    distributed: Seq<VulkanDistributedDispatchPlanView>,
    mode: VulkanComponentBatchExecutionMode,
    lane_capacity: usize,
    bound: Seq<Seq<BindingAnswer>>,
) -> bool {
    forall|i: nat|
        i < slice.dispatches.len() && (#[trigger] batch_launches(
            slice,
            distributed,
            mode,
            lane_capacity,
            bound,
            i,
        )) is Ok && !sequence::any(
            distributed,
            is_distributed(slice.device_id, slice.dispatches[i as int].dispatch_index),
        ) ==> node_kernel_usable(
            slice,
            mode,
            lane_capacity,
            slice.dispatches[i as int],
            bound[i as int],
        )
}

proof fn lemma_lane_steps_error(
    device_id: Seq<char>,
    dispatch: VulkanMountedPlacedBoundDispatchView,
    artifact: VulkanLoadedReusableKernelArtifactView,
    bound: Seq<BindingAnswer>,
    i: nat,
    n: nat,
)
    requires
        i <= n,
        lane_steps(device_id, dispatch, artifact, bound, i) is Err,
    ensures
        lane_steps(device_id, dispatch, artifact, bound, n) == lane_steps(
            device_id,
            dispatch,
            artifact,
            bound,
            i,
        ),
    decreases n - i,
{
    if i < n {
        lemma_lane_steps_error(device_id, dispatch, artifact, bound, i + 1, n);
    }
}

proof fn lemma_batch_launches_error(
    slice: VulkanComponentBatchSliceView,
    distributed: Seq<VulkanDistributedDispatchPlanView>,
    mode: VulkanComponentBatchExecutionMode,
    lane_capacity: usize,
    bound: Seq<Seq<BindingAnswer>>,
    i: nat,
    n: nat,
)
    requires
        i <= n,
        batch_launches(slice, distributed, mode, lane_capacity, bound, i) is Err,
    ensures
        batch_launches(slice, distributed, mode, lane_capacity, bound, n) == batch_launches(
            slice,
            distributed,
            mode,
            lane_capacity,
            bound,
            i,
        ),
    decreases n - i,
{
    if i < n {
        lemma_batch_launches_error(slice, distributed, mode, lane_capacity, bound, i + 1, n);
    }
}

#[verifier::loop_isolation(false)]
fn is_distributed_launch(
    distributed: &Vec<VulkanDistributedDispatchPlan>,
    device_id: &str,
    dispatch_index: usize,
) -> (r: bool)
    ensures
        r == sequence::any(distributed.deep_view(), is_distributed(device_id@, dispatch_index)),
{
    let ghost all = distributed.deep_view();
    let ghost p = is_distributed(device_id@, dispatch_index);
    let mut i: usize = 0;
    while i < distributed.len()
        invariant
            i <= distributed.len(),
            forall|j: int| 0 <= j < i ==> !p(#[trigger] all[j]),
        decreases distributed.len() - i,
    {
        let item = &distributed[i];
        assert(all[i as int] == item.deep_view());
        if text::same(item.owner_device_id.as_str(), device_id) && item.dispatch_index == dispatch_index {
            assert(p(all[i as int]));
            return true;
        }
        i += 1;
    }
    false
}

/// The usages of the descriptors of a launch.
#[verifier::loop_isolation(false)]
fn usages(dispatch: &VulkanMountedPlacedBoundDispatch) -> (r: Vec<VulkanKernelDescriptorUsage>)
    ensures
        r@ == dispatch@.descriptors.map_values(usage_of()),
{
    let ghost expected = dispatch@.descriptors.map_values(usage_of());
    let mut list: Vec<VulkanKernelDescriptorUsage> = Vec::new();
    let mut i: usize = 0;
    assert(list@ =~= expected.take(0));
    while i < dispatch.descriptors.len()
        invariant
            i <= dispatch.descriptors.len(),
            list@ == expected.take(i as int),
        decreases dispatch.descriptors.len() - i,
    {
        assert(expected[i as int] == dispatch.descriptors@[i as int].usage);
        list.push(dispatch.descriptors[i].usage);
        i += 1;
        assert(list@ =~= expected.take(i as int));
    }
    assert(expected.take(expected.len() as int) =~= expected);
    list
}

#[verifier::loop_isolation(false)]
fn reads_or_changes_state(usages: &Vec<VulkanKernelDescriptorUsage>) -> (r: bool)
    ensures
        r == sequence::any(usages@, is_state()),
{
    let mut i: usize = 0;
    while i < usages.len()
        invariant
            i <= usages.len(),
            forall|j: int| 0 <= j < i ==> !is_state()(#[trigger] usages@[j]),
        decreases usages.len() - i,
    {
        match usages[i] {
            VulkanKernelDescriptorUsage::StateRead | VulkanKernelDescriptorUsage::StateWrite
            | VulkanKernelDescriptorUsage::StateView => {
                assert(is_state()(usages@[i as int]));
                return true;
            },
            _ => {},
        }
        i += 1;
    }
    false
}

fn changed_state_buffer(descriptor: &VulkanMountedPlacedBoundDescriptor) -> (r: Option<usize>)
    ensures
        r == changed_state(descriptor@),
{
    match descriptor.usage {
        VulkanKernelDescriptorUsage::StateWrite | VulkanKernelDescriptorUsage::StateView => {},
        _ => {
            return None;
        },
    }
    match &descriptor.target {
        VulkanMountedPlacedBoundDescriptorTarget::Resident { target } => match target {
            VulkanBoundDescriptorTarget::StreamStateBuffer {
                buffer_index,
                static_bytes: Some(_),
                ..
            } => Some(*buffer_index),
            VulkanBoundDescriptorTarget::StreamStateView {
                buffer_index,
                static_bytes: Some(_),
                ..
            } => Some(*buffer_index),
            _ => None,
        },
        _ => None,
    }
}

#[verifier::loop_isolation(false)]
fn changed_state_buffers(dispatch: &VulkanMountedPlacedBoundDispatch) -> (r: OrderedSet<usize>)
    ensures
        r@ == changed_states(dispatch@.descriptors),
        r.sorted(),
{
    let ghost all = dispatch@.descriptors;
    let mut set: OrderedSet<usize> = OrderedSet::new();
    let mut i: usize = 0;
    assert(all.take(0) =~= Seq::empty());
    while i < dispatch.descriptors.len()
        invariant
            i <= dispatch.descriptors.len(),
            set.sorted(),
            set@ == changed_states(all.take(i as int)),
        decreases dispatch.descriptors.len() - i,
    {
        assert(all[i as int] == dispatch.descriptors@[i as int]@);
        assert(all.take(i + 1).drop_last() =~= all.take(i as int));
        match changed_state_buffer(&dispatch.descriptors[i]) {
            Some(index) => {
                set.insert(index);
            },
            None => {},
        }
        i += 1;
    }
    assert(all.take(all.len() as int) =~= all);
    set
}

fn check_batch_kernel(
    artifact: &VulkanResidentComponentBatchKernelArtifact,
    dispatch: &VulkanMountedPlacedBoundDispatch,
    lane_capacity: usize,
    usages: &Vec<VulkanKernelDescriptorUsage>,
) -> (r: Result<(), VulkanResidentInProcessPlacedRuntimeError>)
    requires
        usages@ == dispatch@.descriptors.map_values(usage_of()),
    ensures
        sequence::outcome(r) == (match batch_kernel_error(artifact@, dispatch@, lane_capacity) {
            Some(error) => Err::<(), VulkanResidentInProcessPlacedRuntimeErrorView>(error),
            None => Ok(()),
        }),
{
    let (scans, shares): (bool, bool) = match artifact.batch_mode {
        VulkanResidentComponentKernelBatchMode::CausalScan => (true, false),
        VulkanResidentComponentKernelBatchMode::WeightShared => (false, true),
        VulkanResidentComponentKernelBatchMode::SerialLanes => (false, false),
    };
    if scans && lane_capacity > artifact.lane_tile_width {
        return Err(
            VulkanResidentInProcessPlacedRuntimeError::BackendLoop(
                VulkanError(
                    Message::new("causal scan kernel ").text(dispatch.component_id.as_str()).text(
                        ".",
                    ).text(dispatch.node_id.as_str()).text(" cannot execute ").number(
                        lane_capacity,
                    ).text(" lanes with tile width ").number(artifact.lane_tile_width).done(),
                ),
            ),
        );
    }
    assert(dispatch@.push_constants.len() == dispatch.push_constants@.len());
    if dispatch.push_constants.len() != 0 {
        return Err(
            VulkanResidentInProcessPlacedRuntimeError::BackendLoop(
                VulkanError(
                    Message::new("component batch kernel ").text(
                        dispatch.component_id.as_str(),
                    ).text(".").text(dispatch.node_id.as_str()).text(
                        " requires model-specific scalar values",
                    ).done(),
                ),
            ),
        );
    }
    if shares && reads_or_changes_state(usages) {
        return Err(
            VulkanResidentInProcessPlacedRuntimeError::BackendLoop(
                VulkanError(
                    Message::new("weight-shared component batch kernel ").text(
                        dispatch.component_id.as_str(),
                    ).text(".").text(dispatch.node_id.as_str()).text(" is not stateless").done(),
                ),
            ),
        );
    }
    Ok(())
}

fn count_batch_rows(
    artifact: &VulkanResidentComponentBatchKernelArtifact,
    lane_capacity: usize,
) -> (r: Result<u32, VulkanResidentInProcessPlacedRuntimeError>)
    requires
        usable_kernel(artifact@),
    ensures
        sequence::outcome(r) == batch_rows(artifact@, lane_capacity),
{
    match artifact.batch_mode {
        VulkanResidentComponentKernelBatchMode::WeightShared => {
            match lane_capacity.checked_add(artifact.lane_tile_width - 1) {
                None => {
                    return Err(
                        input_transducer::refusal("component batch workgroup count overflowed"),
                    );
                },
                Some(_) => {},
            }
            let rows: usize = arithmetic::ceiling_division(lane_capacity, artifact.lane_tile_width);
            if rows > u32::MAX as usize {
                Err(input_transducer::refusal("component batch workgroup count exceeds u32"))
            } else {
                Ok(rows as u32)
            }
        },
        _ => Ok(1),
    }
}

fn make_stage_step(
    device_id: &str,
    dispatch: &VulkanMountedPlacedBoundDispatch,
    stage: &VulkanResidentComponentBatchStageArtifact,
    bindings: &Vec<VulkanResidentKernelBufferBinding>,
    rows: u32,
    commits: bool,
) -> (r: VulkanComponentBatchDispatchStep)
    requires
        commits == commits_state(dispatch@),
    ensures
        r@ == stage_step(device_id@, dispatch@, bindings.deep_view(), rows)(stage@),
{
    let bytes: u32 = kernels::batch_stage_control_byte_count(stage);
    let mut resident: VulkanResidentKernelDispatch = VulkanResidentKernelDispatch::unlabelled(
        device_id,
        &stage.spirv_words,
        copy_bindings(bindings),
        stage.workgroup_count_x,
        rows,
        stage.local_size_x,
        bytes,
    );
    resident.label =
    Some(mounted_dispatch::vulkan_dispatch_semantic_label(dispatch, Some("batch")));
    let push_constants: Vec<VulkanKernelScalarBinding> = Vec::new();
    assert(push_constants.deep_view() =~= Seq::empty());
    assert(stage.spirv_words.deep_view() =~= stage.spirv_words@);
    VulkanComponentBatchDispatchStep {
        dispatch: resident,
        batch_control_byte_count: bytes,
        push_constants,
        lane_index: None,
        commits_state: commits,
        snapshot_state_buffer_indices: OrderedSet::new(),
    }
}

fn copy_bindings(bindings: &Vec<VulkanResidentKernelBufferBinding>) -> (r: Vec<
    VulkanResidentKernelBufferBinding,
>)
    ensures
        r.deep_view() == bindings.deep_view(),
{
    let copy: Vec<VulkanResidentKernelBufferBinding> = bindings.clone();
    assert(copy.deep_view() =~= bindings.deep_view());
    copy
}

/// The launches of a node that a batch kernel serves.
#[verifier::loop_isolation(false)]
fn make_batch_steps(
    device_id: &str,
    dispatch: &VulkanMountedPlacedBoundDispatch,
    artifact: &VulkanResidentComponentBatchKernelArtifact,
    lane_capacity: usize,
    usages: &Vec<VulkanKernelDescriptorUsage>,
    bound: &Result<
        Vec<VulkanResidentKernelBufferBinding>,
        VulkanResidentInProcessPlacedRuntimeError,
    >,
) -> (r: Result<Vec<VulkanComponentBatchDispatchStep>, VulkanResidentInProcessPlacedRuntimeError>)
    requires
        usages@ == dispatch@.descriptors.map_values(usage_of()),
        batch_kernel_error(artifact@, dispatch@, lane_capacity) is None,
        bound is Ok ==> usable_kernel(artifact@),
    ensures
        sequence::outcome(r) == batch_steps(
            device_id@,
            dispatch@,
            artifact@,
            lane_capacity,
            sequence::outcome(*bound),
        ),
{
    let bindings: &Vec<VulkanResidentKernelBufferBinding> = match bound {
        Err(error) => {
            return Err(error.clone());
        },
        Ok(bindings) => bindings,
    };
    let rows: u32 = match count_batch_rows(artifact, lane_capacity) {
        Err(error) => {
            return Err(error);
        },
        Ok(rows) => rows,
    };
    let commits: bool = kernels::component_batch_descriptors_commit_state(usages);
    let ghost f = stage_step(device_id@, dispatch@, bindings.deep_view(), rows);
    let ghost expected = artifact@.stages.map_values(f);
    let mut steps: Vec<VulkanComponentBatchDispatchStep> = Vec::new();
    let mut i: usize = 0;
    assert(steps.deep_view() =~= expected.take(0));
    while i < artifact.stages.len()
        invariant
            i <= artifact.stages.len(),
            steps.deep_view() == expected.take(i as int),
        decreases artifact.stages.len() - i,
    {
        assert(artifact@.stages[i as int] == artifact.stages@[i as int]@);
        let step: VulkanComponentBatchDispatchStep = make_stage_step(
            device_id,
            dispatch,
            &artifact.stages[i],
            bindings,
            rows,
            commits,
        );
        let ghost before = steps.deep_view();
        let ghost added = step@;
        steps.push(step);
        assert(steps.deep_view() =~= before.push(added));
        i += 1;
        assert(before.push(added) =~= expected.take(i as int));
    }
    assert(expected.take(expected.len() as int) =~= expected);
    Ok(steps)
}

fn make_lane_step(
    device_id: &str,
    dispatch: &VulkanMountedPlacedBoundDispatch,
    artifact: &VulkanLoadedReusableKernelArtifact,
    lane_index: usize,
    commits: bool,
    bound: &Result<
        Vec<VulkanResidentKernelBufferBinding>,
        VulkanResidentInProcessPlacedRuntimeError,
    >,
) -> (r: Result<VulkanComponentBatchDispatchStep, VulkanResidentInProcessPlacedRuntimeError>)
    requires
        commits == commits_state(dispatch@),
    ensures
        sequence::outcome(r) == lane_step(
            device_id@,
            dispatch@,
            artifact@,
            lane_index,
            sequence::outcome(*bound),
        ),
{
    let bindings: &Vec<VulkanResidentKernelBufferBinding> = match bound {
        Err(error) => {
            return Err(error.clone());
        },
        Ok(bindings) => bindings,
    };
    let bytes: u32 = match resident_dispatch::push_constant_byte_count(&dispatch.push_constants) {
        Err(error) => {
            return Err(
                VulkanResidentInProcessPlacedRuntimeError::BackendLoop(
                    VulkanError(
                        Message::new("invalid component batch push constants: ").text(
                            error.to_string().as_str(),
                        ).done(),
                    ),
                ),
            );
        },
        Ok(bytes) => bytes,
    };
    let mut resident: VulkanResidentKernelDispatch = VulkanResidentKernelDispatch::unlabelled(
        device_id,
        &artifact.words,
        copy_bindings(bindings),
        artifact.artifact.workgroup_count_x,
        1,
        artifact.artifact.local_size_x,
        bytes,
    );
    let detail: String = Message::new("lane=").number(lane_index).done();
    resident.label =
    Some(mounted_dispatch::vulkan_dispatch_semantic_label(dispatch, Some(detail.as_str())));
    assert(artifact.words.deep_view() =~= artifact.words@);
    Ok(
        VulkanComponentBatchDispatchStep {
            dispatch: resident,
            batch_control_byte_count: 0,
            push_constants: kernel_interface::copy_scalars(&dispatch.push_constants),
            lane_index: Some(lane_index),
            commits_state: commits,
            snapshot_state_buffer_indices: changed_state_buffers(dispatch),
        },
    )
}

/// The launches of a node, lane by lane.
#[verifier::loop_isolation(false)]
fn make_lane_steps(
    device_id: &str,
    dispatch: &VulkanMountedPlacedBoundDispatch,
    artifact: &VulkanLoadedReusableKernelArtifact,
    lane_capacity: usize,
    commits: bool,
    bound: &Vec<
        Result<Vec<VulkanResidentKernelBufferBinding>, VulkanResidentInProcessPlacedRuntimeError>,
    >,
) -> (r: Result<Vec<VulkanComponentBatchDispatchStep>, VulkanResidentInProcessPlacedRuntimeError>)
    requires
        commits == commits_state(dispatch@),
        bound@.len() >= lane_capacity,
    ensures
        sequence::outcome(r) == lane_steps(
            device_id@,
            dispatch@,
            artifact@,
            sequence::outcomes(bound@),
            lane_capacity as nat,
        ),
{
    let ghost answers = sequence::outcomes(bound@);
    let mut steps: Vec<VulkanComponentBatchDispatchStep> = Vec::new();
    let mut i: usize = 0;
    assert(steps.deep_view() =~= Seq::empty());
    while i < lane_capacity
        invariant
            i <= lane_capacity,
            lane_steps(device_id@, dispatch@, artifact@, answers, i as nat) is Ok,
            lane_steps(device_id@, dispatch@, artifact@, answers, i as nat)->Ok_0
                == steps.deep_view(),
        decreases lane_capacity - i,
    {
        proof {
            assert(answers[i as int] == sequence::outcome(bound@[i as int]));
            if lane_steps(device_id@, dispatch@, artifact@, answers, (i + 1) as nat) is Err {
                lemma_lane_steps_error(
                    device_id@,
                    dispatch@,
                    artifact@,
                    answers,
                    (i + 1) as nat,
                    lane_capacity as nat,
                );
            }
        }
        match make_lane_step(device_id, dispatch, artifact, i, commits, &bound[i]) {
            Err(error) => {
                return Err(error);
            },
            Ok(step) => {
                let ghost before = steps.deep_view();
                let ghost added = step@;
                steps.push(step);
                assert(steps.deep_view() =~= before.push(added));
            },
        }
        i += 1;
    }
    Ok(steps)
}

/// The launches of a node that is not distributed.
fn make_node_steps(
    slice: &VulkanComponentBatchSlice,
    mode: VulkanComponentBatchExecutionMode,
    lane_capacity: usize,
    dispatch: &VulkanMountedPlacedBoundDispatch,
    bound: &Vec<
        Result<Vec<VulkanResidentKernelBufferBinding>, VulkanResidentInProcessPlacedRuntimeError>,
    >,
) -> (r: Result<Vec<VulkanComponentBatchDispatchStep>, VulkanResidentInProcessPlacedRuntimeError>)
    requires
        node_kernel_usable(slice@, mode, lane_capacity, dispatch@, sequence::outcomes(bound@)),
        match kernels::selected(
            slice@.batch_kernels,
            kernels::all_compatible(slice@.batch_kernels.len()),
            dispatch@.component_id,
            dispatch@.node_id,
            mode,
            lane_capacity,
        ) {
            Some(artifact) => batch_kernel_error(artifact, dispatch@, lane_capacity) is None
                ==> bound@.len() > 0,
            None => reusable_kernels::loaded_artifact(
                slice@.loaded_manifest,
                dispatch@.reusable_family_id,
            ) is Some ==> bound@.len() >= lane_capacity,
        },
    ensures
        sequence::outcome(r) == node_steps(
            slice@,
            mode,
            lane_capacity,
            dispatch@,
            sequence::outcomes(bound@),
        ),
{
    let list: Vec<VulkanKernelDescriptorUsage> = usages(dispatch);
    assert(slice@.batch_kernels.len() == slice.batch_kernels@.len());
    match kernels::select_component_batch_kernel_artifact(
        &slice.batch_kernels,
        dispatch.component_id.as_str(),
        dispatch.node_id.as_str(),
        mode,
        lane_capacity,
    ) {
        Some(artifact) => {
            proof {
                let p = kernels::serves(dispatch@.component_id, dispatch@.node_id, mode);
                kernels::the_best_kernel_is_selected(
                    slice@.batch_kernels,
                    kernels::all_compatible(slice@.batch_kernels.len()),
                    p,
                    mode,
                    lane_capacity,
                );
            }
            match check_batch_kernel(artifact, dispatch, lane_capacity, &list) {
                Err(error) => {
                    return Err(error);
                },
                Ok(()) => {},
            }
            assert(sequence::outcomes(bound@)[0] == sequence::outcome(bound@[0]));
            return make_batch_steps(
                slice.device_id.as_str(),
                dispatch,
                artifact,
                lane_capacity,
                &list,
                &bound[0],
            );
        },
        None => {},
    }
    match slice.loaded_manifest.artifact(dispatch.reusable_family_id.as_str()) {
        None => Err(
            VulkanResidentInProcessPlacedRuntimeError::BackendLoop(
                VulkanError(
                    Message::new("component batch scalar kernel ").text(
                        dispatch.component_id.as_str(),
                    ).text(".").text(dispatch.node_id.as_str()).text(
                        " has no loaded artifact",
                    ).done(),
                ),
            ),
        ),
        Some(artifact) => {
            let commits: bool = kernels::component_batch_descriptors_commit_state(&list);
            make_lane_steps(
                slice.device_id.as_str(),
                dispatch,
                artifact,
                lane_capacity,
                commits,
                bound,
            )
        },
    }
}

/// The launches of a batch, with the span of every launch of the device.
#[derive(Debug, PartialEq, Eq)]
pub struct VulkanComponentBatchLaunches {
    pub steps: Vec<VulkanComponentBatchDispatchStep>,
    pub spans: Vec<VulkanComponentBatchDispatchSpan>,
}

#[verifier::ext_equal]
pub struct VulkanComponentBatchLaunchesView {
    pub steps: Seq<VulkanComponentBatchDispatchStepView>,
    pub spans: Seq<VulkanComponentBatchDispatchSpanView>,
}

impl DeepView for VulkanComponentBatchLaunches {
    type V = VulkanComponentBatchLaunchesView;

    open spec fn deep_view(&self) -> VulkanComponentBatchLaunchesView {
        VulkanComponentBatchLaunchesView {
            steps: self.steps.deep_view(),
            spans: self.spans.deep_view(),
        }
    }
}

impl View for VulkanComponentBatchLaunches {
    type V = VulkanComponentBatchLaunchesView;

    open spec fn view(&self) -> VulkanComponentBatchLaunchesView {
        self.deep_view()
    }
}

/// What the buffers of a launch are bound for, lane by lane.
#[verifier::loop_isolation(false)]
fn list_lane_requests(
    position: usize,
    dispatch: &VulkanMountedPlacedBoundDispatch,
    controls: &Vec<VulkanResidentBuffer>,
) -> (r: Vec<VulkanComponentBatchBindingRequest>)
    ensures
        r.deep_view() == lane_requests(position as int, dispatch@, controls.deep_view()),
{
    let ghost expected = lane_requests(position as int, dispatch@, controls.deep_view());
    let mut requests: Vec<VulkanComponentBatchBindingRequest> = Vec::new();
    let mut lane: usize = 0;
    assert(requests.deep_view() =~= expected.take(0));
    while lane < controls.len()
        invariant
            lane <= controls.len(),
            requests.deep_view() == expected.take(lane as int),
        decreases controls.len() - lane,
    {
        assert(controls.deep_view()[lane as int] == controls@[lane as int]@);
        let stream_control_buffer: Option<VulkanResidentBuffer> = if dispatch.uses_stream_tick {
            Some(controls[lane].clone())
        } else {
            None
        };
        let request = VulkanComponentBatchBindingRequest {
            dispatch_position: position,
            lane_index: Some(lane),
            stream_control_buffer,
        };
        let ghost before = requests.deep_view();
        let ghost added = request@;
        requests.push(request);
        assert(requests.deep_view() =~= before.push(added));
        assert(added == expected[lane as int]);
        lane += 1;
        assert(before.push(added) =~= expected.take(lane as int));
    }
    assert(expected.take(expected.len() as int) =~= expected);
    requests
}

/// What the buffers of the launch at a position are bound for.
fn list_node_requests(
    slice: &VulkanComponentBatchSlice,
    distributed: &Vec<VulkanDistributedDispatchPlan>,
    mode: VulkanComponentBatchExecutionMode,
    controls: &Vec<VulkanResidentBuffer>,
    position: usize,
) -> (r: Vec<VulkanComponentBatchBindingRequest>)
    requires
        position < slice@.dispatches.len(),
    ensures
        r.deep_view() == node_requests(
            slice@,
            distributed.deep_view(),
            mode,
            controls.deep_view(),
            position as int,
        ),
{
    let none: Vec<VulkanComponentBatchBindingRequest> = Vec::new();
    assert(none.deep_view() =~= Seq::empty());
    let dispatch = &slice.dispatches[position];
    assert(slice@.dispatches[position as int] == dispatch@);
    assert(slice@.batch_kernels.len() == slice.batch_kernels@.len());
    assert(controls.deep_view().len() == controls@.len());
    if is_distributed_launch(distributed, slice.device_id.as_str(), dispatch.dispatch_index) {
        return none;
    }
    match kernels::select_component_batch_kernel_artifact(
        &slice.batch_kernels,
        dispatch.component_id.as_str(),
        dispatch.node_id.as_str(),
        mode,
        controls.len(),
    ) {
        Some(artifact) => {
            let list: Vec<VulkanKernelDescriptorUsage> = usages(dispatch);
            if check_batch_kernel(artifact, dispatch, controls.len(), &list).is_err() {
                return none;
            }
            let request = VulkanComponentBatchBindingRequest {
                dispatch_position: position,
                lane_index: None,
                stream_control_buffer: None,
            };
            let ghost added = request@;
            let requests: Vec<VulkanComponentBatchBindingRequest> = vec![request];
            assert(requests.deep_view() =~= seq![added]);
            return requests;
        },
        None => {},
    }
    match slice.loaded_manifest.artifact(dispatch.reusable_family_id.as_str()) {
        None => none,
        Some(_) => list_lane_requests(position, dispatch, controls),
    }
}

/// What the buffers of a device's launches are bound for, launch by launch.
#[verifier::loop_isolation(false)]
pub(crate) fn list_binding_requests(
    slice: &VulkanComponentBatchSlice,
    distributed: &Vec<VulkanDistributedDispatchPlan>,
    mode: VulkanComponentBatchExecutionMode,
    controls: &Vec<VulkanResidentBuffer>,
) -> (r: Vec<Vec<VulkanComponentBatchBindingRequest>>)
    ensures
        r.deep_view() == binding_requests(
            slice@,
            distributed.deep_view(),
            mode,
            controls.deep_view(),
        ),
{
    let ghost expected = binding_requests(
        slice@,
        distributed.deep_view(),
        mode,
        controls.deep_view(),
    );
    let mut requests: Vec<Vec<VulkanComponentBatchBindingRequest>> = Vec::new();
    let mut i: usize = 0;
    assert(slice@.dispatches.len() == slice.dispatches@.len());
    assert(requests.deep_view() =~= expected.take(0));
    while i < slice.dispatches.len()
        invariant
            i <= slice.dispatches.len(),
            requests.deep_view() == expected.take(i as int),
        decreases slice.dispatches.len() - i,
    {
        let ghost before = requests.deep_view();
        let node: Vec<VulkanComponentBatchBindingRequest> = list_node_requests(
            slice,
            distributed,
            mode,
            controls,
            i,
        );
        let ghost added = node.deep_view();
        requests.push(node);
        assert(requests.deep_view() =~= before.push(added));
        assert(added == expected[i as int]);
        i += 1;
        assert(before.push(added) =~= expected.take(i as int));
    }
    assert(expected.take(expected.len() as int) =~= expected);
    requests
}

/// The launches of a batch.
#[verifier::loop_isolation(false)]
pub(crate) fn component_batch_launches(
    slice: &VulkanComponentBatchSlice,
    distributed: &Vec<VulkanDistributedDispatchPlan>,
    mode: VulkanComponentBatchExecutionMode,
    lane_capacity: usize,
    bound: &Vec<
        Vec<
            Result<
                Vec<VulkanResidentKernelBufferBinding>,
                VulkanResidentInProcessPlacedRuntimeError,
            >,
        >,
    >,
    Ghost(controls): Ghost<Seq<VulkanResidentBufferView>>,
) -> (r: Result<VulkanComponentBatchLaunches, VulkanResidentInProcessPlacedRuntimeError>)
    requires
        reached_kernels_usable(
            slice@,
            distributed.deep_view(),
            mode,
            lane_capacity,
            answers_of(bound@),
        ),
        controls.len() == lane_capacity,
        requests_answered(
            binding_requests(slice@, distributed.deep_view(), mode, controls),
            answers_of(bound@),
        ),
    ensures
        match (r, batch_launches(
            slice@,
            distributed.deep_view(),
            mode,
            lane_capacity,
            answers_of(bound@),
            slice@.dispatches.len(),
        )) {
            (Ok(made), Ok(expected)) => made@.steps == expected.steps && made@.spans
                == expected.spans,
            (Err(error), Err(expected)) => error@ == expected,
            _ => false,
        },
{
    let ghost plans = distributed.deep_view();
    let ghost answers = answers_of(bound@);
    let mut steps: Vec<VulkanComponentBatchDispatchStep> = Vec::new();
    let mut spans: Vec<VulkanComponentBatchDispatchSpan> = Vec::new();
    let mut i: usize = 0;
    assert(steps.deep_view() =~= Seq::empty());
    assert(spans.deep_view() =~= Seq::empty());
    assert(slice@.dispatches.len() == slice.dispatches@.len());
    while i < slice.dispatches.len()
        invariant
            i <= slice.dispatches.len(),
            batch_launches(slice@, plans, mode, lane_capacity, answers, i as nat) is Ok,
            batch_launches(slice@, plans, mode, lane_capacity, answers, i as nat)->Ok_0
                == (BatchLaunches { steps: steps.deep_view(), spans: spans.deep_view() }),
        decreases slice.dispatches.len() - i,
    {
        let dispatch = &slice.dispatches[i];
        proof {
            assert(slice@.dispatches[i as int] == dispatch@);
            assert(answers[i as int] == sequence::outcomes(bound@[i as int]@));
            let asked = binding_requests(slice@, plans, mode, controls);
            assert(asked[i as int] == node_requests(slice@, plans, mode, controls, i as int));
            assert(answers[i as int].len() >= asked[i as int].len());
            if batch_launches(slice@, plans, mode, lane_capacity, answers, (i + 1) as nat) is Err {
                lemma_batch_launches_error(
                    slice@,
                    plans,
                    mode,
                    lane_capacity,
                    answers,
                    (i + 1) as nat,
                    slice@.dispatches.len(),
                );
            }
        }
        let step_start: usize = steps.len();
        let ghost done = steps.deep_view();
        let ghost made = spans.deep_view();
        assert(done.len() == step_start);
        let is_distributed: bool = is_distributed_launch(
            distributed,
            slice.device_id.as_str(),
            dispatch.dispatch_index,
        );
        if !is_distributed {
            match make_node_steps(slice, mode, lane_capacity, dispatch, &bound[i]) {
                Err(error) => {
                    return Err(error);
                },
                Ok(more) => {
                    let ghost added = more.deep_view();
                    let mut rest: Vec<VulkanComponentBatchDispatchStep> = more;
                    steps.append(&mut rest);
                    assert(steps.deep_view() =~= done + added);
                },
            }
        }
        let span = VulkanComponentBatchDispatchSpan {
            component_id: dispatch.component_id.clone(),
            dispatch_index: dispatch.dispatch_index,
            step_start,
            step_end: steps.len(),
            distributed: is_distributed,
        };
        let ghost last = span@;
        assert(steps.deep_view().len() == steps@.len());
        spans.push(span);
        assert(spans.deep_view() =~= made.push(last));
        i += 1;
    }
    Ok(VulkanComponentBatchLaunches { steps, spans })
}

/// The kernel of a batch launches one step for each of its stages, in order, over the same buffers
/// and for all lanes at once: its rows of tiles cover the lanes where it shares its weights, and are
/// one otherwise. A step takes as many bytes of control as its stage.
pub proof fn batches_launch_every_stage(
    device_id: Seq<char>,
    dispatch: VulkanMountedPlacedBoundDispatchView,
    artifact: VulkanResidentComponentBatchKernelArtifactView,
    lanes: usize,
    bound: BindingAnswer,
    i: int,
)
    requires
        batch_steps(device_id, dispatch, artifact, lanes, bound) is Ok,
        0 <= i < artifact.stages.len(),
        artifact.batch_mode is WeightShared ==> artifact.lane_tile_width > 0,
    ensures
        ({
            let steps = batch_steps(device_id, dispatch, artifact, lanes, bound)->Ok_0;
            let step = steps[i];
            let stage = artifact.stages[i];
            let rows = step.dispatch.workgroup_count_y;
            &&& steps.len() == artifact.stages.len()
            &&& bound is Ok
            &&& step.dispatch.bindings == bound->Ok_0
            &&& step.dispatch.device_id == device_id
            &&& step.dispatch.spirv_words == stage.spirv_words
            &&& step.dispatch.workgroup_count_x == stage.workgroup_count_x
            &&& step.dispatch.local_size_x == stage.local_size_x
            &&& step.dispatch.base_workgroup_z == 0
            &&& step.dispatch.push_constant_byte_count == step.batch_control_byte_count
            &&& step.batch_control_byte_count == kernels::stage_control_bytes(stage.shader_path)
            &&& step.push_constants.len() == 0
            &&& step.lane_index is None
            &&& step.snapshot_state_buffer_indices.is_empty()
            &&& step.commits_state <==> exists|d: int|
                0 <= d < dispatch.descriptors.len() && ((
                #[trigger] dispatch.descriptors[d]).usage is StateWrite
                    || dispatch.descriptors[d].usage is StateView)
            &&& artifact.batch_mode is WeightShared ==> rows * artifact.lane_tile_width >= lanes
            &&& artifact.batch_mode is WeightShared && lanes > 0 ==> (rows - 1)
                * artifact.lane_tile_width < lanes
            &&& !(artifact.batch_mode is WeightShared) ==> rows == 1
            &&& artifact.batch_mode is CausalScan ==> lanes <= artifact.lane_tile_width
            &&& dispatch.push_constants.len() == 0
        }),
{
    if artifact.batch_mode is WeightShared {
        arithmetic::rounding_up_is_tight(lanes as nat, artifact.lane_tile_width as nat);
    }
    lemma_commits_state(dispatch);
}

proof fn lemma_commits_state(dispatch: VulkanMountedPlacedBoundDispatchView)
    ensures
        commits_state(dispatch) <==> exists|d: int|
            0 <= d < dispatch.descriptors.len() && ((
            #[trigger] dispatch.descriptors[d]).usage is StateWrite
                || dispatch.descriptors[d].usage is StateView),
{
    let usages = dispatch.descriptors.map_values(usage_of());
    if commits_state(dispatch) {
        let d = choose|d: int|
            0 <= d < usages.len() && kernels::changes_state()(#[trigger] usages[d]);
        assert(dispatch.descriptors[d].usage == usages[d]);
    }
    if exists|d: int|
        0 <= d < dispatch.descriptors.len() && ((
        #[trigger] dispatch.descriptors[d]).usage is StateWrite
            || dispatch.descriptors[d].usage is StateView) {
        let d = choose|d: int|
            0 <= d < dispatch.descriptors.len() && ((
            #[trigger] dispatch.descriptors[d]).usage is StateWrite
                || dispatch.descriptors[d].usage is StateView);
        assert(kernels::changes_state()(usages[d]));
    }
}

/// The state that a descriptor changes, where it has a fixed size.
pub open spec fn names_changed_state(
    descriptor: VulkanMountedPlacedBoundDescriptorView,
    index: usize,
) -> bool {
    &&& descriptor.usage is StateWrite || descriptor.usage is StateView
    &&& {
        ||| descriptor.target matches VulkanMountedPlacedBoundDescriptorTargetView::Resident {
            target: VulkanBoundDescriptorTargetView::StreamStateBuffer {
                buffer_index,
                static_bytes,
                ..
            },
        } && buffer_index == index && static_bytes is Some
        ||| descriptor.target matches VulkanMountedPlacedBoundDescriptorTargetView::Resident {
            target: VulkanBoundDescriptorTargetView::StreamStateView {
                buffer_index,
                static_bytes,
                ..
            },
        } && buffer_index == index && static_bytes is Some
    }
}

/// The states that a launch changes are those that one of its descriptors writes or views, and that
/// have a fixed size.
pub proof fn changed_states_are_named(
    descriptors: Seq<VulkanMountedPlacedBoundDescriptorView>,
    index: usize,
)
    ensures
        changed_states(descriptors).contains(index) <==> exists|d: int|
            0 <= d < descriptors.len() && names_changed_state(#[trigger] descriptors[d], index),
    decreases descriptors.len(),
{
    if descriptors.len() > 0 {
        let front = descriptors.drop_last();
        changed_states_are_named(front, index);
        if changed_states(front).contains(index) {
            let d = choose|d: int|
                0 <= d < front.len() && names_changed_state(#[trigger] front[d], index);
            assert(names_changed_state(descriptors[d], index));
        }
        if changed_state(descriptors.last()) == Some(index) {
            assert(names_changed_state(descriptors[descriptors.len() - 1], index));
        }
        if exists|d: int|
            0 <= d < descriptors.len() && names_changed_state(#[trigger] descriptors[d], index) {
            let d = choose|d: int|
                0 <= d < descriptors.len() && names_changed_state(
                    #[trigger] descriptors[d],
                    index,
                );
            if d < front.len() {
                assert(names_changed_state(front[d], index));
            } else {
                assert(changed_state(descriptors.last()) == Some(index));
            }
        }
    }
}

proof fn lemma_lane_steps(
    device_id: Seq<char>,
    dispatch: VulkanMountedPlacedBoundDispatchView,
    artifact: VulkanLoadedReusableKernelArtifactView,
    bound: Seq<BindingAnswer>,
    n: nat,
    lane: int,
)
    requires
        lane_steps(device_id, dispatch, artifact, bound, n) is Ok,
    ensures
        ({
            let steps = lane_steps(device_id, dispatch, artifact, bound, n)->Ok_0;
            &&& steps.len() == n
            &&& 0 <= lane < n ==> lane_step(
                device_id,
                dispatch,
                artifact,
                lane as usize,
                bound[lane],
            ) is Ok && steps[lane] == lane_step(
                device_id,
                dispatch,
                artifact,
                lane as usize,
                bound[lane],
            )->Ok_0
        }),
    decreases n,
{
    if n > 0 {
        lemma_lane_steps(device_id, dispatch, artifact, bound, (n - 1) as nat, lane);
    }
}

/// Without a kernel for the batch, every lane is launched by itself: in order, over the buffers that
/// were bound for that lane, with the artifact that was loaded for the node, and with the states that
/// it changes noted.
pub proof fn lanes_are_launched_one_by_one(
    device_id: Seq<char>,
    dispatch: VulkanMountedPlacedBoundDispatchView,
    artifact: VulkanLoadedReusableKernelArtifactView,
    bound: Seq<BindingAnswer>,
    lanes: usize,
    lane: int,
)
    requires
        lane_steps(device_id, dispatch, artifact, bound, lanes as nat) is Ok,
        0 <= lane < lanes,
    ensures
        ({
            let steps = lane_steps(device_id, dispatch, artifact, bound, lanes as nat)->Ok_0;
            let step = steps[lane];
            &&& steps.len() == lanes
            &&& step.lane_index == Some(lane as usize)
            &&& bound[lane] is Ok
            &&& step.dispatch.bindings == bound[lane]->Ok_0
            &&& step.dispatch.device_id == device_id
            &&& step.dispatch.spirv_words == artifact.words
            &&& step.dispatch.workgroup_count_x == artifact.artifact.workgroup_count_x
            &&& step.dispatch.workgroup_count_y == 1
            &&& step.dispatch.base_workgroup_z == 0
            &&& step.dispatch.local_size_x == artifact.artifact.local_size_x
            &&& step.batch_control_byte_count == 0
            &&& step.push_constants == dispatch.push_constants
            &&& step.snapshot_state_buffer_indices == changed_states(dispatch.descriptors)
            &&& step.commits_state <==> exists|d: int|
                0 <= d < dispatch.descriptors.len() && ((
                #[trigger] dispatch.descriptors[d]).usage is StateWrite
                    || dispatch.descriptors[d].usage is StateView)
        }),
{
    lemma_lane_steps(device_id, dispatch, artifact, bound, lanes as nat, lane);
    lemma_commits_state(dispatch);
}

/// A node of a batch asks for buffers where it is launched on its own device. With a kernel for the
/// batch it asks once, for all lanes; else it asks for every lane in order, and for the lane's own
/// control where it uses the stream tick.
pub proof fn lanes_ask_for_their_own_control(
    position: int,
    dispatch: VulkanMountedPlacedBoundDispatchView,
    controls: Seq<VulkanResidentBufferView>,
    lane: int,
)
    requires
        0 <= lane < controls.len() <= usize::MAX,
        0 <= position <= usize::MAX,
    ensures
        ({
            let asked = lane_requests(position, dispatch, controls);
            &&& asked.len() == controls.len()
            &&& asked[lane].dispatch_position == position
            &&& asked[lane].lane_index == Some(lane as usize)
            &&& dispatch.uses_stream_tick ==> asked[lane].stream_control_buffer == Some(
                controls[lane],
            )
            &&& !dispatch.uses_stream_tick ==> asked[lane].stream_control_buffer is None
        }),
{
}

/// What a batch launches spans its dispatches one after the other: every span carries the names of
/// its dispatch, begins where the one before ends, and holds the steps of its dispatch. A dispatch
/// that is distributed over devices has none.
pub proof fn spans_hold_the_steps_of_their_dispatch(
    slice: VulkanComponentBatchSliceView,
    distributed: Seq<VulkanDistributedDispatchPlanView>,
    mode: VulkanComponentBatchExecutionMode,
    lanes: usize,
    bound: Seq<Seq<BindingAnswer>>,
    n: nat,
    i: int,
)
    requires
        n <= slice.dispatches.len(),
        batch_launches(slice, distributed, mode, lanes, bound, n) is Ok,
        batch_launches(slice, distributed, mode, lanes, bound, n)->Ok_0.steps.len() <= usize::MAX,
    ensures
        ({
            let made = batch_launches(slice, distributed, mode, lanes, bound, n)->Ok_0;
            &&& made.spans.len() == n
            &&& n > 0 ==> made.spans[n - 1].step_end == made.steps.len()
            &&& n == 0 ==> made.steps.len() == 0
            &&& 0 <= i < n ==> {
                let span = made.spans[i];
                let dispatch = slice.dispatches[i];
                &&& span.component_id == dispatch.component_id
                &&& span.dispatch_index == dispatch.dispatch_index
                &&& span.step_start == (if i == 0 {
                    0
                } else {
                    made.spans[i - 1].step_end
                })
                &&& span.step_start <= span.step_end <= made.steps.len()
                &&& span.distributed <==> exists|p: int|
                    0 <= p < distributed.len() && (#[trigger] distributed[p]).owner_device_id
                        == slice.device_id && distributed[p].dispatch_index
                        == dispatch.dispatch_index
                &&& span.distributed ==> span.step_start == span.step_end
                &&& !span.distributed ==> node_steps(slice, mode, lanes, dispatch, bound[i]) is Ok
                    && made.steps.subrange(span.step_start as int, span.step_end as int)
                    == node_steps(slice, mode, lanes, dispatch, bound[i])->Ok_0
            }
        }),
    decreases n,
{
    if n > 0 {
        let before = batch_launches(slice, distributed, mode, lanes, bound, (n - 1) as nat)->Ok_0;
        let made = batch_launches(slice, distributed, mode, lanes, bound, n)->Ok_0;
        assert(before.steps.len() <= made.steps.len());
        spans_hold_the_steps_of_their_dispatch(
            slice,
            distributed,
            mode,
            lanes,
            bound,
            (n - 1) as nat,
            i,
        );
        if n > 1 {
            spans_hold_the_steps_of_their_dispatch(
                slice,
                distributed,
                mode,
                lanes,
                bound,
                (n - 1) as nat,
                n - 2,
            );
        }
        if 0 <= i < n - 1 {
            let span = made.spans[i];
            assert(span == before.spans[i]);
            assert(made.steps.subrange(span.step_start as int, span.step_end as int)
                =~= before.steps.subrange(span.step_start as int, span.step_end as int));
        } else if i == n - 1 {
            let dispatch = slice.dispatches[i];
            let p = is_distributed(slice.device_id, dispatch.dispatch_index);
            if sequence::any(distributed, p) {
                let k = choose|k: int| 0 <= k < distributed.len() && p(#[trigger] distributed[k]);
                assert(distributed[k].owner_device_id == slice.device_id);
            } else {
                assert forall|k: int| 0 <= k < distributed.len() implies !((
                #[trigger] distributed[k]).owner_device_id == slice.device_id
                    && distributed[k].dispatch_index == dispatch.dispatch_index) by {
                    assert(!p(distributed[k]));
                }
                let steps = node_steps(slice, mode, lanes, dispatch, bound[i])->Ok_0;
                assert(made.steps.subrange(
                    made.spans[i].step_start as int,
                    made.spans[i].step_end as int,
                ) =~= steps);
            }
        }
    }
}

} // verus!
