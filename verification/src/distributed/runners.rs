//! Running distributed dispatches: their resident kernels, their semaphores and their submission.

use crate::device::VulkanComputeDevice;
use crate::device::VulkanComputeDeviceView;
use crate::device::VulkanDeviceDirectory;
use crate::device::VulkanDeviceDirectoryView;
use crate::device::VulkanDeviceObject;
use crate::device::VulkanError;
use crate::device::VulkanResidentKernelBufferAccess;
use crate::device::VulkanResidentKernelBufferBinding;
use crate::device::VulkanResidentKernelBufferBindingView;
use crate::device::VulkanResidentKernelDispatch;
use crate::device::VulkanResidentKernelDispatchView;
use crate::device::VulkanResidentKernelSequence;
use crate::device::VulkanResidentKernelSequenceView;
use crate::device::VulkanTimelineSemaphore;
use crate::device::VulkanTimelineSemaphorePoint;
use crate::device::VulkanTimelineSemaphorePointView;
use crate::device::VulkanTimelineSemaphoreView;
use crate::device::VulkanTimelineSignal;
use crate::device;
use crate::distributed::activation::VulkanDistributedActivationBuffers;
use crate::distributed::activation::VulkanDistributedActivationBuffersView;
use crate::distributed::activation;
use crate::distributed::parameters::VulkanDistributedParameterBuffers;
use crate::distributed::parameters::VulkanDistributedParameterBuffersView;
use crate::distributed::parameters;
use crate::distributed::plan::VulkanDistributedActivationSlot;
use crate::distributed::plan::VulkanDistributedActivationSlotView;
use crate::distributed::plan::VulkanDistributedDispatchDistribution;
use crate::distributed::plan::VulkanDistributedDispatchGroup;
use crate::distributed::plan::VulkanDistributedDispatchGroupView;
use crate::distributed::plan::VulkanDistributedDispatchPlan;
use crate::distributed::plan::VulkanDistributedDispatchPlanView;
use crate::distributed::plan::VulkanDistributedDispatchShard;
use crate::distributed::plan::VulkanDistributedDispatchShardView;
use crate::distributed::plan::VulkanDistributedDispatchSubmission;
use crate::distributed::plan::VulkanDistributedExecutionPlan;
use crate::distributed::plan::VulkanDistributedExecutionPlanView;
use crate::distributed::plan::VulkanDistributedParameterFragment;
use crate::distributed::plan::VulkanDistributedParameterFragmentView;
use crate::distributed::plan;
use crate::reusable_kernels::VulkanLoadedReusableKernelArtifact;
use crate::reusable_kernels::VulkanLoadedReusableKernelArtifactManifest;
use crate::reusable_kernels::VulkanLoadedReusableKernelArtifactManifestView;
use crate::reusable_kernels::VulkanLoadedReusableKernelArtifactView;
use crate::reusable_kernels;
use crate::sequence;
use crate::text::Message;
use crate::text;
use vstd::prelude::*;

verus! {

/// Why a distributed dispatch could not be created or run.
#[derive(Debug, PartialEq, Eq)]
pub struct VulkanDistributedDispatchRunnerError(pub String);

impl DeepView for VulkanDistributedDispatchRunnerError {
    type V = Seq<char>;

    open spec fn deep_view(&self) -> Seq<char> {
        self.0.deep_view()
    }
}

impl View for VulkanDistributedDispatchRunnerError {
    type V = Seq<char>;

    open spec fn view(&self) -> Seq<char> {
        self.deep_view()
    }
}

impl Clone for VulkanDistributedDispatchRunnerError {
    fn clone(&self) -> (r: Self)
        ensures
            r@ == self@,
    {
        VulkanDistributedDispatchRunnerError(self.0.clone())
    }
}

impl VulkanDistributedDispatchRunnerError {
    /// The message.
    pub fn to_string(&self) -> (r: String)
        ensures
            r@ == self@,
    {
        self.0.clone()
    }
}

impl vstd::std_specs::convert::FromSpecImpl<VulkanError> for VulkanDistributedDispatchRunnerError {
    open spec fn obeys_from_spec() -> bool {
        true
    }

    open spec fn from_spec(error: VulkanError) -> Self {
        VulkanDistributedDispatchRunnerError(error.0)
    }
}

impl From<VulkanError> for VulkanDistributedDispatchRunnerError {
    fn from(error: VulkanError) -> (r: Self) {
        VulkanDistributedDispatchRunnerError(error.0)
    }
}

/// The values that a dispatch's semaphores take, one after the other.
#[derive(Debug, PartialEq, Eq)]
pub struct VulkanDistributedDependencyClock {
    pub next_value: u64,
}

#[verifier::ext_equal]
pub struct VulkanDistributedDependencyClockView {
    pub next_value: u64,
}

impl DeepView for VulkanDistributedDependencyClock {
    type V = VulkanDistributedDependencyClockView;

    open spec fn deep_view(&self) -> VulkanDistributedDependencyClockView {
        VulkanDistributedDependencyClockView {
            next_value: self.next_value,
        }
    }
}

impl View for VulkanDistributedDependencyClock {
    type V = VulkanDistributedDependencyClockView;

    open spec fn view(&self) -> VulkanDistributedDependencyClockView {
        self.deep_view()
    }
}

impl Clone for VulkanDistributedDependencyClock {
    fn clone(&self) -> (r: Self)
        ensures
            r@ == self@,
    {
        VulkanDistributedDependencyClock {
            next_value: self.next_value,
        }
    }
}

/// The semaphores between an owner and one helper.
#[derive(Debug, PartialEq, Eq)]
pub struct VulkanDistributedDispatchHelperSynchronization {
    pub device_id: String,
    pub ready_source: VulkanTimelineSemaphore,
    pub ready_wait: VulkanTimelineSemaphore,
    pub done_source: VulkanTimelineSemaphore,
    pub done_wait: VulkanTimelineSemaphore,
}

#[verifier::ext_equal]
pub struct VulkanDistributedDispatchHelperSynchronizationView {
    pub device_id: Seq<char>,
    pub ready_source: VulkanTimelineSemaphoreView,
    pub ready_wait: VulkanTimelineSemaphoreView,
    pub done_source: VulkanTimelineSemaphoreView,
    pub done_wait: VulkanTimelineSemaphoreView,
}

impl DeepView for VulkanDistributedDispatchHelperSynchronization {
    type V = VulkanDistributedDispatchHelperSynchronizationView;

    open spec fn deep_view(&self) -> VulkanDistributedDispatchHelperSynchronizationView {
        VulkanDistributedDispatchHelperSynchronizationView {
            device_id: self.device_id.deep_view(),
            ready_source: self.ready_source.deep_view(),
            ready_wait: self.ready_wait.deep_view(),
            done_source: self.done_source.deep_view(),
            done_wait: self.done_wait.deep_view(),
        }
    }
}

impl View for VulkanDistributedDispatchHelperSynchronization {
    type V = VulkanDistributedDispatchHelperSynchronizationView;

    open spec fn view(&self) -> VulkanDistributedDispatchHelperSynchronizationView {
        self.deep_view()
    }
}

impl Clone for VulkanDistributedDispatchHelperSynchronization {
    fn clone(&self) -> (r: Self)
        ensures
            r@ == self@,
    {
        VulkanDistributedDispatchHelperSynchronization {
            device_id: self.device_id.clone(),
            ready_source: self.ready_source.clone(),
            ready_wait: self.ready_wait.clone(),
            done_source: self.done_source.clone(),
            done_wait: self.done_wait.clone(),
        }
    }
}

/// The shards of a group that run on one device.
#[derive(Debug, PartialEq, Eq)]
pub struct VulkanDistributedDispatchShardRunner {
    pub device_id: String,
    pub planned: Vec<VulkanDistributedDispatchShard>,
    pub resident_dispatches: Vec<VulkanResidentKernelDispatch>,
    pub sequence: VulkanResidentKernelSequence,
}

#[verifier::ext_equal]
pub struct VulkanDistributedDispatchShardRunnerView {
    pub device_id: Seq<char>,
    pub planned: Seq<VulkanDistributedDispatchShardView>,
    pub resident_dispatches: Seq<VulkanResidentKernelDispatchView>,
    pub sequence: VulkanResidentKernelSequenceView,
}

impl DeepView for VulkanDistributedDispatchShardRunner {
    type V = VulkanDistributedDispatchShardRunnerView;

    open spec fn deep_view(&self) -> VulkanDistributedDispatchShardRunnerView {
        VulkanDistributedDispatchShardRunnerView {
            device_id: self.device_id.deep_view(),
            planned: self.planned.deep_view(),
            resident_dispatches: self.resident_dispatches.deep_view(),
            sequence: self.sequence.deep_view(),
        }
    }
}

impl View for VulkanDistributedDispatchShardRunner {
    type V = VulkanDistributedDispatchShardRunnerView;

    open spec fn view(&self) -> VulkanDistributedDispatchShardRunnerView {
        self.deep_view()
    }
}

impl Clone for VulkanDistributedDispatchShardRunner {
    fn clone(&self) -> (r: Self)
        ensures
            r@ == self@,
    {
        VulkanDistributedDispatchShardRunner {
            device_id: self.device_id.clone(),
            planned: self.planned.clone(),
            resident_dispatches: self.resident_dispatches.clone(),
            sequence: self.sequence.clone(),
        }
    }
}

/// A dispatch group that is ready to run.
#[derive(Debug, PartialEq, Eq)]
pub struct VulkanDistributedDispatchRunner {
    pub planned: VulkanDistributedDispatchGroup,
    pub shards: Vec<VulkanDistributedDispatchShardRunner>,
    pub helper_synchronization: Vec<VulkanDistributedDispatchHelperSynchronization>,
    pub dependency_clock: VulkanDistributedDependencyClock,
}

#[verifier::ext_equal]
pub struct VulkanDistributedDispatchRunnerView {
    pub planned: VulkanDistributedDispatchGroupView,
    pub shards: Seq<VulkanDistributedDispatchShardRunnerView>,
    pub helper_synchronization: Seq<VulkanDistributedDispatchHelperSynchronizationView>,
    pub dependency_clock: VulkanDistributedDependencyClockView,
}

impl DeepView for VulkanDistributedDispatchRunner {
    type V = VulkanDistributedDispatchRunnerView;

    open spec fn deep_view(&self) -> VulkanDistributedDispatchRunnerView {
        VulkanDistributedDispatchRunnerView {
            planned: self.planned.deep_view(),
            shards: self.shards.deep_view(),
            helper_synchronization: self.helper_synchronization.deep_view(),
            dependency_clock: self.dependency_clock.deep_view(),
        }
    }
}

impl View for VulkanDistributedDispatchRunner {
    type V = VulkanDistributedDispatchRunnerView;

    open spec fn view(&self) -> VulkanDistributedDispatchRunnerView {
        self.deep_view()
    }
}

impl Clone for VulkanDistributedDispatchRunner {
    fn clone(&self) -> (r: Self)
        ensures
            r@ == self@,
    {
        VulkanDistributedDispatchRunner {
            planned: self.planned.clone(),
            shards: self.shards.clone(),
            helper_synchronization: self.helper_synchronization.clone(),
            dependency_clock: self.dependency_clock.clone(),
        }
    }
}

/// The dispatch groups of an execution plan, ready to run.
#[derive(Debug, PartialEq, Eq)]
pub struct VulkanDistributedDispatchRunners {
    pub dispatches: Vec<VulkanDistributedDispatchRunner>,
    pub dispatch_count: usize,
    pub shard_count: usize,
}

#[verifier::ext_equal]
pub struct VulkanDistributedDispatchRunnersView {
    pub dispatches: Seq<VulkanDistributedDispatchRunnerView>,
    pub dispatch_count: usize,
    pub shard_count: usize,
}

impl DeepView for VulkanDistributedDispatchRunners {
    type V = VulkanDistributedDispatchRunnersView;

    open spec fn deep_view(&self) -> VulkanDistributedDispatchRunnersView {
        VulkanDistributedDispatchRunnersView {
            dispatches: self.dispatches.deep_view(),
            dispatch_count: self.dispatch_count,
            shard_count: self.shard_count,
        }
    }
}

impl View for VulkanDistributedDispatchRunners {
    type V = VulkanDistributedDispatchRunnersView;

    open spec fn view(&self) -> VulkanDistributedDispatchRunnersView {
        self.deep_view()
    }
}

impl Clone for VulkanDistributedDispatchRunners {
    fn clone(&self) -> (r: Self)
        ensures
            r@ == self@,
    {
        VulkanDistributedDispatchRunners {
            dispatches: self.dispatches.clone(),
            dispatch_count: self.dispatch_count,
            shard_count: self.shard_count,
        }
    }
}

/// A distributed dispatch that was run.
#[derive(Debug, PartialEq, Eq)]
pub struct VulkanDistributedDispatchRun {
    pub owner_device_id: String,
    pub dispatch_index: usize,
    pub component_id: String,
    pub node_id: String,
    pub shard_count: usize,
}

#[verifier::ext_equal]
pub struct VulkanDistributedDispatchRunView {
    pub owner_device_id: Seq<char>,
    pub dispatch_index: usize,
    pub component_id: Seq<char>,
    pub node_id: Seq<char>,
    pub shard_count: usize,
}

impl DeepView for VulkanDistributedDispatchRun {
    type V = VulkanDistributedDispatchRunView;

    open spec fn deep_view(&self) -> VulkanDistributedDispatchRunView {
        VulkanDistributedDispatchRunView {
            owner_device_id: self.owner_device_id.deep_view(),
            dispatch_index: self.dispatch_index,
            component_id: self.component_id.deep_view(),
            node_id: self.node_id.deep_view(),
            shard_count: self.shard_count,
        }
    }
}

impl View for VulkanDistributedDispatchRun {
    type V = VulkanDistributedDispatchRunView;

    open spec fn view(&self) -> VulkanDistributedDispatchRunView {
        self.deep_view()
    }
}

impl Clone for VulkanDistributedDispatchRun {
    fn clone(&self) -> (r: Self)
        ensures
            r@ == self@,
    {
        VulkanDistributedDispatchRun {
            owner_device_id: self.owner_device_id.clone(),
            dispatch_index: self.dispatch_index,
            component_id: self.component_id.clone(),
            node_id: self.node_id.clone(),
            shard_count: self.shard_count,
        }
    }
}

// ---------------------------------------------------------------------------
// Resident dispatches
// ---------------------------------------------------------------------------

/// The name of a distribution.
pub open spec fn distribution_name(distribution: VulkanDistributedDispatchDistribution) -> Seq<char> {
    match distribution {
        VulkanDistributedDispatchDistribution::OutputRows => "OutputRows"@,
        VulkanDistributedDispatchDistribution::ExpertRange => "ExpertRange"@,
    }
}

fn name_of_distribution(distribution: VulkanDistributedDispatchDistribution) -> (r: &'static str)
    ensures
        r@ == distribution_name(distribution),
{
    match distribution {
        VulkanDistributedDispatchDistribution::OutputRows => "OutputRows",
        VulkanDistributedDispatchDistribution::ExpertRange => "ExpertRange",
    }
}

/// What the label of a shard's dispatch says.
pub open spec fn shard_label(
    dispatch: VulkanDistributedDispatchPlanView,
    shard: VulkanDistributedDispatchShardView,
) -> Seq<char> {
    "component="@ + dispatch.component_id + " node="@ + dispatch.node_id + " distributed=device:"@
        + shard.device_id + " rows="@ + text::decimal(shard.row_start as nat) + ".."@
        + text::decimal((shard.row_start + shard.row_count) as nat) + " base_z="@ + text::decimal(
        shard.base_workgroup_z as nat,
    ) + " distribution="@ + distribution_name(dispatch.distribution)
}

/// The binding of a dispatch's activation on a device, read up to `bytes`.
pub open spec fn auxiliary_binding(
    activations: VulkanDistributedActivationBuffersView,
    dispatch: VulkanDistributedDispatchPlanView,
    device_id: Seq<char>,
) -> spec_fn(VulkanDistributedActivationSlotView) -> Result<
    VulkanResidentKernelBufferBindingView,
    Seq<char>,
> {
    |auxiliary: VulkanDistributedActivationSlotView|
        match activation::shared_activation_buffer(
            activations,
            dispatch.owner_device_id,
            auxiliary.component_id,
            auxiliary.slot,
            device_id,
        ) {
            None => Err(
                "distributed dispatch "@ + dispatch.component_id + "."@ + dispatch.node_id
                    + " has no auxiliary input "@ + auxiliary.signal_id + " on "@ + text::quoted(
                    device_id,
                ),
            ),
            Some(buffer) => if auxiliary.binding > u32::MAX {
                Err("distributed auxiliary input binding exceeds u32"@)
            } else {
                Ok(
                    device::bound_buffer(
                        auxiliary.binding as u32,
                        buffer,
                        auxiliary.signal_byte_capacity,
                        VulkanResidentKernelBufferAccess::Read,
                    ),
                )
            },
        }
}

/// The binding of a parameter fragment on a device.
pub open spec fn fragment_binding(
    parameters: VulkanDistributedParameterBuffersView,
    dispatch: VulkanDistributedDispatchPlanView,
    device_id: Seq<char>,
) -> spec_fn(VulkanDistributedParameterFragmentView) -> Result<
    VulkanResidentKernelBufferBindingView,
    Seq<char>,
> {
    |fragment: VulkanDistributedParameterFragmentView|
        match sequence::find_first(
            parameters.buffers,
            parameters::range_matcher(
                device_id,
                fragment.tensor,
                fragment.byte_offset,
                fragment.byte_count,
            ),
        ) {
            None => Err(
                "distributed dispatch "@ + dispatch.component_id + "."@ + dispatch.node_id
                    + " has no tensor "@ + text::quoted(fragment.tensor) + " range at byte "@
                    + text::decimal(fragment.byte_offset as nat) + " with length "@ + text::decimal(
                    fragment.byte_count as nat,
                ) + " on "@ + text::quoted(device_id),
            ),
            Some(allocation) => if fragment.binding > u32::MAX {
                Err(
                    "distributed descriptor binding "@ + text::decimal(fragment.binding as nat)
                        + " exceeds u32"@,
                )
            } else {
                Ok(
                    device::bound_buffer(
                        fragment.binding as u32,
                        allocation.buffer,
                        fragment.byte_count,
                        VulkanResidentKernelBufferAccess::Read,
                    ),
                )
            },
        }
}

/// What is said where a dispatch has no activation in this role on a device.
pub open spec fn no_activation(
    dispatch: VulkanDistributedDispatchPlanView,
    role: Seq<char>,
    device_id: Seq<char>,
) -> Seq<char> {
    "distributed dispatch "@ + dispatch.component_id + "."@ + dispatch.node_id + " has no "@ + role
        + " activation on "@ + text::quoted(device_id)
}

/// The bindings of a shard: input, auxiliary inputs, output, parameters.
#[verifier::opaque]
pub open spec fn shard_bindings(
    dispatch: VulkanDistributedDispatchPlanView,
    shard: VulkanDistributedDispatchShardView,
    parameters: VulkanDistributedParameterBuffersView,
    activations: VulkanDistributedActivationBuffersView,
) -> Result<Seq<VulkanResidentKernelBufferBindingView>, Seq<char>> {
    let input = activation::shared_activation_buffer(
        activations,
        dispatch.owner_device_id,
        dispatch.input_activation.component_id,
        dispatch.input_activation.slot,
        shard.device_id,
    );
    let output = activation::shared_activation_buffer(
        activations,
        dispatch.owner_device_id,
        dispatch.output_activation.component_id,
        dispatch.output_activation.slot,
        shard.device_id,
    );
    if input is None {
        Err(no_activation(dispatch, "input"@, shard.device_id))
    } else if output is None {
        Err(no_activation(dispatch, "output"@, shard.device_id))
    } else if dispatch.input_activation.binding > u32::MAX {
        Err("distributed primary input binding exceeds u32"@)
    } else {
        match sequence::try_map(
            dispatch.auxiliary_input_activations,
            auxiliary_binding(activations, dispatch, shard.device_id),
        ) {
            Err(e) => Err(e),
            Ok(auxiliary) => if dispatch.output_activation.binding > u32::MAX {
                Err("distributed output binding exceeds u32"@)
            } else {
                match sequence::try_map(
                    shard.parameters,
                    fragment_binding(parameters, dispatch, shard.device_id),
                ) {
                    Err(e) => Err(e),
                    Ok(fragments) => Ok(
                        seq![
                            device::bound_buffer(
                                dispatch.input_activation.binding as u32,
                                input->Some_0,
                                dispatch.input_byte_capacity,
                                VulkanResidentKernelBufferAccess::Read,
                            ),
                        ] + auxiliary + seq![
                            VulkanResidentKernelBufferBindingView {
                                binding: dispatch.output_activation.binding as u32,
                                buffer: output->Some_0,
                                byte_offset: shard.output_byte_offset,
                                byte_len: shard.output_byte_count,
                                access: VulkanResidentKernelBufferAccess::Write,
                            },
                        ] + fragments,
                    ),
                }
            },
        }
    }
}

/// The resident dispatch of a shard.
pub open spec fn resident_dispatch(
    device_id: Seq<char>,
    dispatch: VulkanDistributedDispatchPlanView,
    shard: VulkanDistributedDispatchShardView,
    parameters: VulkanDistributedParameterBuffersView,
    activations: VulkanDistributedActivationBuffersView,
    artifact: VulkanLoadedReusableKernelArtifactView,
) -> Result<VulkanResidentKernelDispatchView, Seq<char>> {
    match shard_bindings(dispatch, shard, parameters, activations) {
        Err(e) => Err(e),
        Ok(bindings) => Ok(
            VulkanResidentKernelDispatchView {
                device_id,
                spirv_words: artifact.words,
                bindings,
                workgroup_count_x: shard.workgroup_count_x,
                workgroup_count_y: 1,
                base_workgroup_z: shard.base_workgroup_z,
                local_size_x: artifact.artifact.local_size_x,
                push_constant_byte_count: 0,
                label: Some(shard_label(dispatch, shard)),
            },
        ),
    }
}

#[verifier::loop_isolation(false)]
fn bind_auxiliary(
    planned_dispatch: &VulkanDistributedDispatchPlan,
    device_id: &String,
    activation_buffers: &VulkanDistributedActivationBuffers,
) -> (r: Result<Vec<VulkanResidentKernelBufferBinding>, VulkanDistributedDispatchRunnerError>)
    ensures
        sequence::outcome(r) == sequence::try_map(
            planned_dispatch@.auxiliary_input_activations,
            auxiliary_binding(activation_buffers@, planned_dispatch@, device_id@),
        ),
{
    let ghost all = planned_dispatch@.auxiliary_input_activations;
    let ghost f = auxiliary_binding(activation_buffers@, planned_dispatch@, device_id@);
    let mut bindings: Vec<VulkanResidentKernelBufferBinding> = Vec::new();
    let mut i: usize = 0;
    assert(bindings.deep_view() =~= Seq::empty());
    assert(all.take(0) =~= Seq::empty());
    while i < planned_dispatch.auxiliary_input_activations.len()
        invariant
            i <= planned_dispatch.auxiliary_input_activations.len(),
            sequence::try_map(all.take(i as int), f) == Ok::<
                Seq<VulkanResidentKernelBufferBindingView>,
                Seq<char>,
            >(bindings.deep_view()),
        decreases planned_dispatch.auxiliary_input_activations.len() - i,
    {
        let auxiliary: &VulkanDistributedActivationSlot =
            &planned_dispatch.auxiliary_input_activations[i];
        proof {
            sequence::lemma_try_map_step(all, f, i as int);
            assert(all[i as int] == auxiliary@);
            if f(all[i as int]) is Err {
                sequence::lemma_try_map_error(all, f, i + 1);
            }
        }
        match activation_buffers.activation_buffer(
            planned_dispatch.owner_device_id.as_str(),
            auxiliary.component_id.as_str(),
            auxiliary.slot,
            device_id.as_str(),
        ) {
            None => {
                return Err(
                    VulkanDistributedDispatchRunnerError(
                        Message::new("distributed dispatch ").text(
                            planned_dispatch.component_id.as_str(),
                        ).text(".").text(planned_dispatch.node_id.as_str()).text(
                            " has no auxiliary input ",
                        ).text(auxiliary.signal_id.as_str()).text(" on ").quoted(
                            device_id.as_str(),
                        ).done(),
                    ),
                );
            },
            Some(buffer) => {
                if auxiliary.binding > u32::MAX as usize {
                    return Err(
                        VulkanDistributedDispatchRunnerError(
                            "distributed auxiliary input binding exceeds u32".to_owned(),
                        ),
                    );
                }
                let ghost before = bindings.deep_view();
                let binding = VulkanResidentKernelBufferBinding::bind(
                    auxiliary.binding as u32,
                    buffer,
                    auxiliary.signal_byte_capacity,
                    VulkanResidentKernelBufferAccess::Read,
                );
                let ghost added = binding@;
                bindings.push(binding);
                assert(bindings.deep_view() =~= before.push(added));
            },
        }
        i += 1;
    }
    assert(all.take(all.len() as int) =~= all);
    Ok(bindings)
}

#[verifier::loop_isolation(false)]
fn bind_fragments(
    planned_dispatch: &VulkanDistributedDispatchPlan,
    planned_shard: &VulkanDistributedDispatchShard,
    parameter_buffers: &VulkanDistributedParameterBuffers,
) -> (r: Result<Vec<VulkanResidentKernelBufferBinding>, VulkanDistributedDispatchRunnerError>)
    ensures
        sequence::outcome(r) == sequence::try_map(
            planned_shard@.parameters,
            fragment_binding(parameter_buffers@, planned_dispatch@, planned_shard@.device_id),
        ),
{
    let ghost all = planned_shard@.parameters;
    let ghost f = fragment_binding(
        parameter_buffers@,
        planned_dispatch@,
        planned_shard@.device_id,
    );
    let mut bindings: Vec<VulkanResidentKernelBufferBinding> = Vec::new();
    let mut i: usize = 0;
    assert(bindings.deep_view() =~= Seq::empty());
    assert(all.take(0) =~= Seq::empty());
    while i < planned_shard.parameters.len()
        invariant
            i <= planned_shard.parameters.len(),
            sequence::try_map(all.take(i as int), f) == Ok::<
                Seq<VulkanResidentKernelBufferBindingView>,
                Seq<char>,
            >(bindings.deep_view()),
        decreases planned_shard.parameters.len() - i,
    {
        let fragment: &VulkanDistributedParameterFragment = &planned_shard.parameters[i];
        proof {
            sequence::lemma_try_map_step(all, f, i as int);
            assert(all[i as int] == fragment@);
            if f(all[i as int]) is Err {
                sequence::lemma_try_map_error(all, f, i + 1);
            }
        }
        match parameter_buffers.parameter_buffer(
            planned_shard.device_id.as_str(),
            fragment.tensor.as_str(),
            fragment.byte_offset,
            fragment.byte_count,
        ) {
            None => {
                return Err(
                    VulkanDistributedDispatchRunnerError(
                        Message::new("distributed dispatch ").text(
                            planned_dispatch.component_id.as_str(),
                        ).text(".").text(planned_dispatch.node_id.as_str()).text(
                            " has no tensor ",
                        ).quoted(fragment.tensor.as_str()).text(" range at byte ").number(
                            fragment.byte_offset,
                        ).text(" with length ").number(fragment.byte_count).text(" on ").quoted(
                            planned_shard.device_id.as_str(),
                        ).done(),
                    ),
                );
            },
            Some(allocation) => {
                if fragment.binding > u32::MAX as usize {
                    return Err(
                        VulkanDistributedDispatchRunnerError(
                            Message::new("distributed descriptor binding ").number(
                                fragment.binding,
                            ).text(" exceeds u32").done(),
                        ),
                    );
                }
                let ghost before = bindings.deep_view();
                let binding = VulkanResidentKernelBufferBinding::bind(
                    fragment.binding as u32,
                    &allocation.buffer,
                    fragment.byte_count,
                    VulkanResidentKernelBufferAccess::Read,
                );
                let ghost added = binding@;
                bindings.push(binding);
                assert(bindings.deep_view() =~= before.push(added));
            },
        }
        i += 1;
    }
    assert(all.take(all.len() as int) =~= all);
    Ok(bindings)
}

fn missing_activation(
    planned_dispatch: &VulkanDistributedDispatchPlan,
    role: &str,
    device_id: &String,
) -> (r: VulkanDistributedDispatchRunnerError)
    ensures
        r@ == no_activation(planned_dispatch@, role@, device_id@),
{
    VulkanDistributedDispatchRunnerError(
        Message::new("distributed dispatch ").text(planned_dispatch.component_id.as_str()).text(
            ".",
        ).text(planned_dispatch.node_id.as_str()).text(" has no ").text(role).text(
            " activation on ",
        ).quoted(device_id.as_str()).done(),
    )
}

fn bind_shard(
    planned_dispatch: &VulkanDistributedDispatchPlan,
    planned_shard: &VulkanDistributedDispatchShard,
    parameter_buffers: &VulkanDistributedParameterBuffers,
    activation_buffers: &VulkanDistributedActivationBuffers,
) -> (r: Result<Vec<VulkanResidentKernelBufferBinding>, VulkanDistributedDispatchRunnerError>)
    ensures
        sequence::outcome(r) == shard_bindings(
            planned_dispatch@,
            planned_shard@,
            parameter_buffers@,
            activation_buffers@,
        ),
{
    reveal(shard_bindings);
    let input = match activation_buffers.activation_buffer(
        planned_dispatch.owner_device_id.as_str(),
        planned_dispatch.input_activation.component_id.as_str(),
        planned_dispatch.input_activation.slot,
        planned_shard.device_id.as_str(),
    ) {
        Some(buffer) => buffer,
        None => return Err(missing_activation(planned_dispatch, "input", &planned_shard.device_id)),
    };
    let output = match activation_buffers.activation_buffer(
        planned_dispatch.owner_device_id.as_str(),
        planned_dispatch.output_activation.component_id.as_str(),
        planned_dispatch.output_activation.slot,
        planned_shard.device_id.as_str(),
    ) {
        Some(buffer) => buffer,
        None => return Err(
            missing_activation(planned_dispatch, "output", &planned_shard.device_id),
        ),
    };
    if planned_dispatch.input_activation.binding > u32::MAX as usize {
        return Err(
            VulkanDistributedDispatchRunnerError(
                "distributed primary input binding exceeds u32".to_owned(),
            ),
        );
    }
    let mut bindings: Vec<VulkanResidentKernelBufferBinding> = Vec::new();
    assert(bindings.deep_view() =~= Seq::empty());
    let first = VulkanResidentKernelBufferBinding::bind(
        planned_dispatch.input_activation.binding as u32,
        input,
        planned_dispatch.input_byte_capacity,
        VulkanResidentKernelBufferAccess::Read,
    );
    let ghost first_view = first@;
    bindings.push(first);
    assert(bindings.deep_view() =~= seq![first_view]);
    let mut auxiliary: Vec<VulkanResidentKernelBufferBinding> = match bind_auxiliary(
        planned_dispatch,
        &planned_shard.device_id,
        activation_buffers,
    ) {
        Ok(auxiliary) => auxiliary,
        Err(e) => return Err(e),
    };
    if planned_dispatch.output_activation.binding > u32::MAX as usize {
        return Err(
            VulkanDistributedDispatchRunnerError(
                "distributed output binding exceeds u32".to_owned(),
            ),
        );
    }
    let ghost auxiliary_view = auxiliary.deep_view();
    bindings.append(&mut auxiliary);
    assert(bindings.deep_view() =~= seq![first_view] + auxiliary_view);
    let last = VulkanResidentKernelBufferBinding {
        binding: planned_dispatch.output_activation.binding as u32,
        buffer: output.clone(),
        byte_offset: planned_shard.output_byte_offset,
        byte_len: planned_shard.output_byte_count,
        access: VulkanResidentKernelBufferAccess::Write,
    };
    let ghost last_view = last@;
    bindings.push(last);
    assert(bindings.deep_view() =~= seq![first_view] + auxiliary_view + seq![last_view]);
    let mut fragments: Vec<VulkanResidentKernelBufferBinding> = match bind_fragments(
        planned_dispatch,
        planned_shard,
        parameter_buffers,
    ) {
        Ok(fragments) => fragments,
        Err(e) => return Err(e),
    };
    let ghost fragments_view = fragments.deep_view();
    bindings.append(&mut fragments);
    assert(bindings.deep_view() =~= seq![first_view] + auxiliary_view + seq![last_view]
        + fragments_view);
    Ok(bindings)
}

/// The resident dispatch of a shard, unless its device refuses to make it.
pub open spec fn made_dispatch(
    described: Result<VulkanResidentKernelDispatchView, Seq<char>>,
    dispatch: VulkanDistributedDispatchPlanView,
    shard: VulkanDistributedDispatchShardView,
    refusal: Option<Seq<char>>,
) -> Result<VulkanResidentKernelDispatchView, Seq<char>> {
    match (described, refusal) {
        (Err(e), _) => Err(e),
        (Ok(_), Some(error)) => Err(
            shard_failure(
                "failed to create"@,
                dispatch.component_id,
                dispatch.node_id,
                shard.device_id,
                error,
            ),
        ),
        (Ok(described), None) => Ok(described),
    }
}

/// Describes the resident dispatch of a shard on its device, which may refuse to make it.
pub fn create_distributed_resident_dispatch(
    device: &VulkanComputeDevice,
    planned_dispatch: &VulkanDistributedDispatchPlan,
    planned_shard: &VulkanDistributedDispatchShard,
    parameter_buffers: &VulkanDistributedParameterBuffers,
    activation_buffers: &VulkanDistributedActivationBuffers,
    artifact: &VulkanLoadedReusableKernelArtifact,
    refusal: Option<&VulkanError>,
) -> (r: Result<VulkanResidentKernelDispatch, VulkanDistributedDispatchRunnerError>)
    ensures
        sequence::outcome(r) == made_dispatch(
            resident_dispatch(
                device@.device_id,
                planned_dispatch@,
                planned_shard@,
                parameter_buffers@,
                activation_buffers@,
                artifact@,
            ),
            planned_dispatch@,
            planned_shard@,
            refusal.deep_view(),
        ),
{
    let bindings: Vec<VulkanResidentKernelBufferBinding> = match bind_shard(
        planned_dispatch,
        planned_shard,
        parameter_buffers,
        activation_buffers,
    ) {
        Ok(bindings) => bindings,
        Err(e) => return Err(e),
    };
    let label: String = Message::new("component=").text(planned_dispatch.component_id.as_str()).text(
        " node=",
    ).text(planned_dispatch.node_id.as_str()).text(" distributed=device:").text(
        planned_shard.device_id.as_str(),
    ).text(" rows=").number(planned_shard.row_start).text("..").sum(
        planned_shard.row_start,
        planned_shard.row_count,
    ).text(" base_z=").number_u64(planned_shard.base_workgroup_z as u64).text(
        " distribution=",
    ).text(name_of_distribution(planned_dispatch.distribution)).done();
    if let Some(error) = refusal {
        return Err(
            failure_of(
                "failed to create",
                &planned_dispatch.component_id,
                &planned_dispatch.node_id,
                &planned_shard.device_id,
                error,
            ),
        );
    }
    let words: Vec<u32> = device::copy_words(&artifact.words);
    assert(words.deep_view() =~= words@);
    assert(artifact.words.deep_view() =~= artifact.words@);
    Ok(
        VulkanResidentKernelDispatch {
            device_id: device.device_id.clone(),
            spirv_words: words,
            bindings,
            workgroup_count_x: planned_shard.workgroup_count_x,
            workgroup_count_y: 1,
            base_workgroup_z: planned_shard.base_workgroup_z,
            local_size_x: artifact.artifact.local_size_x,
            push_constant_byte_count: 0,
            label: Some(label),
        },
    )
}

// ---------------------------------------------------------------------------
// Creating the runners
// ---------------------------------------------------------------------------

/// What the runners are created from, beside the plan.
#[verifier::ext_equal]
pub struct CreationView {
    pub parameters: VulkanDistributedParameterBuffersView,
    pub activations: VulkanDistributedActivationBuffersView,
    pub manifest: VulkanLoadedReusableKernelArtifactManifestView,
    pub directory: VulkanDeviceDirectoryView,
}

/// What is said where a device cannot be resolved in this role.
pub open spec fn unresolved(role: Seq<char>, device_id: Seq<char>, refusal: Seq<char>) -> Seq<char> {
    "failed to resolve distributed "@ + role + " device "@ + text::quoted(device_id) + ": "@ + refusal
}

/// The name of a group: the indices of its first and its last dispatch.
pub open spec fn group_name(group: VulkanDistributedDispatchGroupView) -> Seq<char> {
    "distributed group "@ + text::decimal(group.dispatches.first().dispatch_index as nat) + ".."@
        + text::decimal(group.dispatches.last().dispatch_index as nat)
}

/// The shard of one dispatch of a group, with its resident dispatch.
#[verifier::opaque]
pub open spec fn member_created(
    c: CreationView,
    group: VulkanDistributedDispatchGroupView,
    group_index: int,
    shard_index: int,
    dispatch: VulkanDistributedDispatchPlanView,
) -> Result<(VulkanDistributedDispatchShardView, VulkanResidentKernelDispatchView), Seq<char>> {
    let leader_shard = group.dispatches.first().shards[shard_index];
    if shard_index >= dispatch.shards.len() {
        Err(
            group_name(group) + " has no shard "@ + text::decimal(shard_index as nat) + " for "@
                + dispatch.component_id + "."@ + dispatch.node_id,
        )
    } else if dispatch.shards[shard_index].device_id != leader_shard.device_id {
        Err(
            group_name(group) + " changes shard "@ + text::decimal(shard_index as nat)
                + " device from "@ + text::quoted(leader_shard.device_id) + " to "@ + text::quoted(
                dispatch.shards[shard_index].device_id,
            ),
        )
    } else {
        match reusable_kernels::loaded_artifact(c.manifest, dispatch.reusable_family_id) {
            None => Err(
                "distributed dispatch "@ + dispatch.component_id + "."@ + dispatch.node_id
                    + " is missing loaded family "@ + text::quoted(dispatch.reusable_family_id),
            ),
            Some(artifact) => match made_dispatch(
                resident_dispatch(
                    leader_shard.device_id,
                    dispatch,
                    dispatch.shards[shard_index],
                    c.parameters,
                    c.activations,
                    artifact,
                ),
                dispatch,
                dispatch.shards[shard_index],
                c.directory.refused(
                    VulkanDeviceObject::DistributedDispatch {
                        group_index: group_index as usize,
                        shard_index: shard_index as usize,
                        dispatch_index: dispatch.dispatch_index,
                    },
                ),
            ) {
                Err(e) => Err(e),
                Ok(resident) => Ok((dispatch.shards[shard_index], resident)),
            },
        }
    }
}

/// The members of a group on one shard.
pub open spec fn member_of(
    c: CreationView,
    group: VulkanDistributedDispatchGroupView,
    group_index: int,
    shard_index: int,
) -> spec_fn(VulkanDistributedDispatchPlanView) -> Result<
    (VulkanDistributedDispatchShardView, VulkanResidentKernelDispatchView),
    Seq<char>,
> {
    |dispatch: VulkanDistributedDispatchPlanView|
        member_created(c, group, group_index, shard_index, dispatch)
}

/// The shard runner of these members.
pub open spec fn shard_runner(
    device_id: Seq<char>,
    members: Seq<(VulkanDistributedDispatchShardView, VulkanResidentKernelDispatchView)>,
) -> VulkanDistributedDispatchShardRunnerView {
    let dispatches = Seq::new(members.len(), |i: int| members[i].1);
    VulkanDistributedDispatchShardRunnerView {
        device_id,
        planned: Seq::new(members.len(), |i: int| members[i].0),
        resident_dispatches: dispatches,
        sequence: device::recorded_sequence(device_id, dispatches),
    }
}

/// The shard runners of a group so far, and the shards counted so far.
#[verifier::ext_equal]
pub struct ShardRunnersView {
    pub shards: Seq<VulkanDistributedDispatchShardRunnerView>,
    pub count: nat,
}

/// Why the device of a shard does not make or record the shard's sequence, where it refuses to.
pub open spec fn sequence_refused(
    directory: VulkanDeviceDirectoryView,
    group: VulkanDistributedDispatchGroupView,
    group_index: int,
    shard_index: int,
    device_id: Seq<char>,
) -> Option<Seq<char>> {
    match directory.refused(
        VulkanDeviceObject::DistributedSequence {
            group_index: group_index as usize,
            shard_index: shard_index as usize,
        },
    ) {
        Some(error) => Some(sequence_failure("failed to create"@, group, device_id, error)),
        None => match directory.refused(
            VulkanDeviceObject::SequenceRecording {
                group_index: group_index as usize,
                shard_index: shard_index as usize,
            },
        ) {
            Some(error) => Some(sequence_failure("failed to record"@, group, device_id, error)),
            None => None,
        },
    }
}

/// The runner of one shard of a group.
pub open spec fn made_shard(
    c: CreationView,
    group: VulkanDistributedDispatchGroupView,
    group_index: int,
    shard_index: int,
) -> Result<VulkanDistributedDispatchShardRunnerView, Seq<char>> {
    let device_id = group.dispatches.first().shards[shard_index].device_id;
    if !c.directory.knows(device_id) {
        Err(unresolved("shard"@, device_id, c.directory.refusal(device_id)))
    } else {
        match sequence::try_map(group.dispatches, member_of(c, group, group_index, shard_index)) {
            Err(e) => Err(e),
            Ok(members) => match sequence_refused(
                c.directory,
                group,
                group_index,
                shard_index,
                device_id,
            ) {
                Some(e) => Err(e),
                None => Ok(shard_runner(device_id, members)),
            },
        }
    }
}

/// Creates one shard of a group.
#[verifier::opaque]
pub open spec fn shard_created(
    c: CreationView,
    group: VulkanDistributedDispatchGroupView,
    group_index: int,
    done: ShardRunnersView,
    shard_index: int,
) -> Result<ShardRunnersView, Seq<char>> {
    match made_shard(c, group, group_index, shard_index) {
        Err(e) => Err(e),
        Ok(shard) => if done.count + group.dispatches.len() > usize::MAX {
            Err("distributed dispatch shard count overflowed"@)
        } else {
            Ok(
                ShardRunnersView {
                    shards: done.shards.push(shard),
                    count: done.count + group.dispatches.len(),
                },
            )
        },
    }
}

/// One step over the shards of a group.
pub open spec fn shard_step(
    c: CreationView,
    group: VulkanDistributedDispatchGroupView,
    group_index: int,
) -> spec_fn(ShardRunnersView, int) -> Result<ShardRunnersView, Seq<char>> {
    |done: ShardRunnersView, shard_index: int|
        shard_created(c, group, group_index, done, shard_index)
}

/// One end of a semaphore.
pub open spec fn semaphore_end(
    device_id: Seq<char>,
    group_index: int,
    helper_index: int,
    signal: VulkanTimelineSignal,
    exported: bool,
) -> VulkanTimelineSemaphoreView {
    VulkanTimelineSemaphoreView {
        device_id,
        group_index: group_index as usize,
        helper_index: helper_index as usize,
        signal,
        exported,
    }
}

/// The semaphores between an owner and a helper.
pub open spec fn helper_semaphores(
    owner: Seq<char>,
    helper: Seq<char>,
    group_index: int,
    helper_index: int,
) -> VulkanDistributedDispatchHelperSynchronizationView {
    VulkanDistributedDispatchHelperSynchronizationView {
        device_id: helper,
        ready_source: semaphore_end(
            owner,
            group_index,
            helper_index,
            VulkanTimelineSignal::OwnerReady,
            true,
        ),
        ready_wait: semaphore_end(
            helper,
            group_index,
            helper_index,
            VulkanTimelineSignal::OwnerReady,
            false,
        ),
        done_source: semaphore_end(
            helper,
            group_index,
            helper_index,
            VulkanTimelineSignal::HelperDone,
            true,
        ),
        done_wait: semaphore_end(
            owner,
            group_index,
            helper_index,
            VulkanTimelineSignal::HelperDone,
            false,
        ),
    }
}

/// The semaphores of the helper at a position, as they are asked of the devices.
pub open spec fn helper_object(group_index: int, helper_index: nat) -> VulkanDeviceObject {
    VulkanDeviceObject::HelperSemaphores {
        group_index: group_index as usize,
        helper_index: helper_index as usize,
    }
}

/// Creates the semaphores of one shard of the leader, unless the owner runs it itself.
#[verifier::opaque]
pub open spec fn helper_created(
    directory: VulkanDeviceDirectoryView,
    group: VulkanDistributedDispatchGroupView,
    group_index: int,
    done: Seq<VulkanDistributedDispatchHelperSynchronizationView>,
    shard: VulkanDistributedDispatchShardView,
) -> Result<Seq<VulkanDistributedDispatchHelperSynchronizationView>, Seq<char>> {
    let owner = directory.find(group.owner_device_id);
    let helper = directory.find(shard.device_id);
    if shard.device_id == group.owner_device_id {
        Ok(done)
    } else if helper is None {
        Err(unresolved("helper"@, shard.device_id, directory.refusal(shard.device_id)))
    } else if !owner->Some_0.supports_opaque_fd_timeline_semaphores
        || !helper->Some_0.supports_opaque_fd_timeline_semaphores {
        Err(
            "distributed dispatch "@ + group.dispatches.first().component_id + "."@
                + group.dispatches.first().node_id
                + " requires persistent opaque-file timeline semaphores on owner "@ + text::quoted(
                group.owner_device_id,
            ) + " and helper "@ + text::quoted(shard.device_id),
        )
    } else if directory.refused(helper_object(group_index, done.len())) is Some {
        Err(directory.refused(helper_object(group_index, done.len()))->Some_0)
    } else {
        Ok(
            done.push(
                helper_semaphores(
                    group.owner_device_id,
                    shard.device_id,
                    group_index,
                    done.len() as int,
                ),
            ),
        )
    }
}

/// One step over the shards of the leader.
pub open spec fn helper_step(
    directory: VulkanDeviceDirectoryView,
    group: VulkanDistributedDispatchGroupView,
    group_index: int,
) -> spec_fn(
    Seq<VulkanDistributedDispatchHelperSynchronizationView>,
    VulkanDistributedDispatchShardView,
) -> Result<Seq<VulkanDistributedDispatchHelperSynchronizationView>, Seq<char>> {
    |
        done: Seq<VulkanDistributedDispatchHelperSynchronizationView>,
        shard: VulkanDistributedDispatchShardView,
    |
        helper_created(directory, group, group_index, done, shard)
}

/// The runners so far, and the shards counted so far.
#[verifier::ext_equal]
pub struct RunnersView {
    pub runners: Seq<VulkanDistributedDispatchRunnerView>,
    pub count: nat,
}

/// No runner yet.
pub open spec fn no_runners() -> RunnersView {
    RunnersView { runners: Seq::empty(), count: 0 }
}

/// Creates the runner of one group.
#[verifier::opaque]
pub open spec fn runner_created(
    c: CreationView,
    done: RunnersView,
    group: VulkanDistributedDispatchGroupView,
) -> Result<RunnersView, Seq<char>> {
    if !c.directory.knows(group.owner_device_id) {
        Err(unresolved("owner"@, group.owner_device_id, c.directory.refusal(group.owner_device_id)))
    } else {
        match sequence::try_fold(
            sequence::positions(group.dispatches.first().shards.len()),
            ShardRunnersView { shards: Seq::empty(), count: done.count },
            shard_step(c, group, done.runners.len() as int),
        ) {
            Err(e) => Err(e),
            Ok(created) => match sequence::try_fold(
                group.dispatches.first().shards,
                Seq::<VulkanDistributedDispatchHelperSynchronizationView>::empty(),
                helper_step(c.directory, group, done.runners.len() as int),
            ) {
                Err(e) => Err(e),
                Ok(helpers) => Ok(
                    RunnersView {
                        runners: done.runners.push(
                            VulkanDistributedDispatchRunnerView {
                                planned: group,
                                shards: created.shards,
                                helper_synchronization: helpers,
                                dependency_clock: new_clock(),
                            },
                        ),
                        count: created.count,
                    },
                ),
            },
        }
    }
}

/// One step over the groups.
pub open spec fn runner_step(c: CreationView) -> spec_fn(
    RunnersView,
    VulkanDistributedDispatchGroupView,
) -> Result<RunnersView, Seq<char>> {
    |done: RunnersView, group: VulkanDistributedDispatchGroupView| runner_created(c, done, group)
}

/// The runners of an execution plan.
pub open spec fn created_runners(plan: VulkanDistributedExecutionPlanView, c: CreationView) -> Result<
    VulkanDistributedDispatchRunnersView,
    Seq<char>,
> {
    match sequence::try_fold(plan.dispatch_groups, no_runners(), runner_step(c)) {
        Err(e) => Err(e),
        Ok(done) => Ok(
            VulkanDistributedDispatchRunnersView {
                dispatches: done.runners,
                dispatch_count: plan.dispatches.len() as usize,
                shard_count: done.count as usize,
            },
        ),
    }
}

/// Whether every group has a dispatch.
pub open spec fn groups_nonempty(groups: Seq<VulkanDistributedDispatchGroupView>) -> bool {
    forall|i: int| 0 <= i < groups.len() ==> (#[trigger] groups[i]).dispatches.len() > 0
}

fn resolve_failure(role: &str, device_id: &String, error: &String) -> (r:
    VulkanDistributedDispatchRunnerError)
    ensures
        r@ == unresolved(role@, device_id@, error@),
{
    VulkanDistributedDispatchRunnerError(
        Message::new("failed to resolve distributed ").text(role).text(" device ").quoted(
            device_id.as_str(),
        ).text(": ").text(error.as_str()).done(),
    )
}

struct Creation<'a> {
    parameters: &'a VulkanDistributedParameterBuffers,
    activations: &'a VulkanDistributedActivationBuffers,
    manifest: &'a VulkanLoadedReusableKernelArtifactManifest,
    directory: &'a VulkanDeviceDirectory,
}

impl<'a> Creation<'a> {
    spec fn value(&self) -> CreationView {
        CreationView {
            parameters: self.parameters@,
            activations: self.activations@,
            manifest: self.manifest@,
            directory: self.directory@,
        }
    }

    fn create_member(
        &self,
        device: &VulkanComputeDevice,
        group: &VulkanDistributedDispatchGroup,
        group_index: usize,
        shard_index: usize,
        dispatch: &VulkanDistributedDispatchPlan,
    ) -> (r: Result<
        (VulkanDistributedDispatchShard, VulkanResidentKernelDispatch),
        VulkanDistributedDispatchRunnerError,
    >)
        requires
            group@.dispatches.len() > 0,
            shard_index < group@.dispatches.first().shards.len(),
            device@.device_id == group@.dispatches.first().shards[shard_index as int].device_id,
        ensures
            sequence::outcome(r) == member_created(
                self.value(),
                group@,
                group_index as int,
                shard_index as int,
                dispatch@,
            ),
    {
        reveal(member_created);
        let leader: &VulkanDistributedDispatchPlan = group.leader();
        let tail: &VulkanDistributedDispatchPlan = group.tail();
        assert(leader@.shards.len() == leader.shards@.len());
        assert(dispatch@.shards.len() == dispatch.shards@.len());
        let leader_shard: &VulkanDistributedDispatchShard = &leader.shards[shard_index];
        assert(leader@.shards[shard_index as int] == leader_shard@);
        if shard_index >= dispatch.shards.len() {
            return Err(
                VulkanDistributedDispatchRunnerError(
                    Message::new("distributed group ").number(leader.dispatch_index).text(
                        "..",
                    ).number(tail.dispatch_index).text(" has no shard ").number(shard_index).text(
                        " for ",
                    ).text(dispatch.component_id.as_str()).text(".").text(
                        dispatch.node_id.as_str(),
                    ).done(),
                ),
            );
        }
        let planned_shard: &VulkanDistributedDispatchShard = &dispatch.shards[shard_index];
        assert(dispatch@.shards[shard_index as int] == planned_shard@);
        if planned_shard.device_id != leader_shard.device_id {
            return Err(
                VulkanDistributedDispatchRunnerError(
                    Message::new("distributed group ").number(leader.dispatch_index).text(
                        "..",
                    ).number(tail.dispatch_index).text(" changes shard ").number(shard_index).text(
                        " device from ",
                    ).quoted(leader_shard.device_id.as_str()).text(" to ").quoted(
                        planned_shard.device_id.as_str(),
                    ).done(),
                ),
            );
        }
        let artifact: &VulkanLoadedReusableKernelArtifact = match self.manifest.artifact(
            dispatch.reusable_family_id.as_str(),
        ) {
            Some(artifact) => artifact,
            None => return Err(
                VulkanDistributedDispatchRunnerError(
                    Message::new("distributed dispatch ").text(dispatch.component_id.as_str()).text(
                        ".",
                    ).text(dispatch.node_id.as_str()).text(" is missing loaded family ").quoted(
                        dispatch.reusable_family_id.as_str(),
                    ).done(),
                ),
            ),
        };
        let refusal: Option<&VulkanError> = self.directory.refused(
            VulkanDeviceObject::DistributedDispatch {
                group_index,
                shard_index,
                dispatch_index: dispatch.dispatch_index,
            },
        );
        match create_distributed_resident_dispatch(
            device,
            dispatch,
            planned_shard,
            self.parameters,
            self.activations,
            artifact,
            refusal,
        ) {
            Ok(resident) => Ok((planned_shard.clone(), resident)),
            Err(e) => Err(e),
        }
    }

    #[verifier::loop_isolation(false)]
    fn create_shard(
        &self,
        group: &VulkanDistributedDispatchGroup,
        group_index: usize,
        shard_index: usize,
    ) -> (r: Result<VulkanDistributedDispatchShardRunner, VulkanDistributedDispatchRunnerError>)
        requires
            group@.dispatches.len() > 0,
            shard_index < group@.dispatches.first().shards.len(),
        ensures
            sequence::outcome(r) == made_shard(
                self.value(),
                group@,
                group_index as int,
                shard_index as int,
            ),
    {
        let leader: &VulkanDistributedDispatchPlan = group.leader();
        assert(leader@.shards.len() == leader.shards@.len());
        let leader_shard: &VulkanDistributedDispatchShard = &leader.shards[shard_index];
        assert(leader@.shards[shard_index as int] == leader_shard@);
        let device: &VulkanComputeDevice = match self.directory.resolve(
            leader_shard.device_id.as_str(),
        ) {
            Ok(device) => device,
            Err(error) => return Err(resolve_failure("shard", &leader_shard.device_id, &error)),
        };
        proof {
            let matches = |device: VulkanComputeDeviceView| device.device_id == leader_shard.device_id@;
            sequence::lemma_find_first_some(self.directory@.devices, matches);
        }
        let ghost all = group@.dispatches;
        let ghost f = member_of(self.value(), group@, group_index as int, shard_index as int);
        let mut planned: Vec<VulkanDistributedDispatchShard> = Vec::new();
        let mut resident_dispatches: Vec<VulkanResidentKernelDispatch> = Vec::new();
        let ghost mut members: Seq<
            (VulkanDistributedDispatchShardView, VulkanResidentKernelDispatchView),
        > = Seq::empty();
        let mut i: usize = 0;
        assert(all.take(0) =~= Seq::empty());
        while i < group.dispatches.len()
            invariant
                i <= group.dispatches.len(),
                sequence::try_map(all.take(i as int), f) == Ok::<
                    Seq<(VulkanDistributedDispatchShardView, VulkanResidentKernelDispatchView)>,
                    Seq<char>,
                >(members),
                planned.deep_view() =~= Seq::new(members.len(), |j: int| members[j].0),
                resident_dispatches.deep_view() =~= Seq::new(members.len(), |j: int| members[j].1),
            decreases group.dispatches.len() - i,
        {
            proof {
                sequence::lemma_try_map_step(all, f, i as int);
                assert(all[i as int] == group.dispatches@[i as int]@);
            }
            match self.create_member(device, group, group_index, shard_index, &group.dispatches[i]) {
                Ok((shard, resident)) => {
                    let ghost planned_before = planned.deep_view();
                    let ghost resident_before = resident_dispatches.deep_view();
                    let ghost added = (shard@, resident@);
                    planned.push(shard);
                    resident_dispatches.push(resident);
                    proof {
                        assert(planned.deep_view() =~= planned_before.push(added.0));
                        assert(resident_dispatches.deep_view() =~= resident_before.push(added.1));
                        members = members.push(added);
                    }
                },
                Err(e) => {
                    proof {
                        sequence::lemma_try_map_error(all, f, i + 1);
                    }
                    return Err(e);
                },
            }
            i += 1;
        }
        assert(all.take(all.len() as int) =~= all);
        let device_id: &str = leader_shard.device_id.as_str();
        if let Some(error) = self.directory.refused(
            VulkanDeviceObject::DistributedSequence { group_index, shard_index },
        ) {
            return Err(sequence_failure_of("failed to create", group, device_id, error));
        }
        if let Some(error) = self.directory.refused(
            VulkanDeviceObject::SequenceRecording { group_index, shard_index },
        ) {
            return Err(sequence_failure_of("failed to record", group, device_id, error));
        }
        let recorded = VulkanResidentKernelSequence::recorded(
            leader_shard.device_id.as_str(),
            &resident_dispatches,
        );
        Ok(
            VulkanDistributedDispatchShardRunner {
                device_id: leader_shard.device_id.clone(),
                planned,
                resident_dispatches,
                sequence: recorded,
            },
        )
    }

    #[verifier::loop_isolation(false)]
    fn create_shards(
        &self,
        group: &VulkanDistributedDispatchGroup,
        group_index: usize,
        shard_count: usize,
    ) -> (r: Result<
        (Vec<VulkanDistributedDispatchShardRunner>, usize),
        VulkanDistributedDispatchRunnerError,
    >)
        requires
            group@.dispatches.len() > 0,
        ensures
            (match r {
                Ok(created) => Ok::<ShardRunnersView, Seq<char>>(
                    ShardRunnersView { shards: created.0.deep_view(), count: created.1 as nat },
                ),
                Err(e) => Err(e@),
            }) == sequence::try_fold(
                sequence::positions(group@.dispatches.first().shards.len()),
                ShardRunnersView { shards: Seq::empty(), count: shard_count as nat },
                shard_step(self.value(), group@, group_index as int),
            ),
    {
        let leader: &VulkanDistributedDispatchPlan = group.leader();
        assert(leader@.shards.len() == leader.shards@.len());
        assert(group@.dispatches.len() == group.dispatches@.len());
        let ghost all = sequence::positions(leader@.shards.len());
        let ghost init = ShardRunnersView { shards: Seq::empty(), count: shard_count as nat };
        let ghost step = shard_step(self.value(), group@, group_index as int);
        let mut shards: Vec<VulkanDistributedDispatchShardRunner> = Vec::new();
        let mut count: usize = shard_count;
        let mut i: usize = 0;
        assert(shards.deep_view() =~= Seq::empty());
        assert(all.take(0) =~= Seq::empty());
        while i < leader.shards.len()
            invariant
                i <= leader.shards.len(),
                sequence::try_fold(all.take(i as int), init, step) == Ok::<
                    ShardRunnersView,
                    Seq<char>,
                >(ShardRunnersView { shards: shards.deep_view(), count: count as nat }),
            decreases leader.shards.len() - i,
        {
            proof {
                reveal(shard_created);
                sequence::lemma_try_fold_step(all, init, step, i as int);
                assert(all[i as int] == i);
                if sequence::try_fold(all.take(i + 1), init, step) is Err {
                    sequence::lemma_try_fold_error(all, init, step, i + 1);
                }
            }
            let shard: VulkanDistributedDispatchShardRunner = match self.create_shard(
                group,
                group_index,
                i,
            ) {
                Ok(shard) => shard,
                Err(e) => return Err(e),
            };
            count = match count.checked_add(group.dispatches.len()) {
                Some(count) => count,
                None => return Err(
                    VulkanDistributedDispatchRunnerError(
                        "distributed dispatch shard count overflowed".to_owned(),
                    ),
                ),
            };
            let ghost before = shards.deep_view();
            let ghost added = shard@;
            shards.push(shard);
            assert(shards.deep_view() =~= before.push(added));
            i += 1;
        }
        assert(all.take(all.len() as int) =~= all);
        Ok((shards, count))
    }

    #[verifier::loop_isolation(false)]
    fn create_helpers(
        &self,
        group: &VulkanDistributedDispatchGroup,
        group_index: usize,
        owner: &VulkanComputeDevice,
    ) -> (r: Result<
        Vec<VulkanDistributedDispatchHelperSynchronization>,
        VulkanDistributedDispatchRunnerError,
    >)
        requires
            group@.dispatches.len() > 0,
            self.directory@.find(group@.owner_device_id) == Some(owner@),
        ensures
            sequence::outcome(r) == sequence::try_fold(
                group@.dispatches.first().shards,
                Seq::<VulkanDistributedDispatchHelperSynchronizationView>::empty(),
                helper_step(self.directory@, group@, group_index as int),
            ),
    {
        let leader: &VulkanDistributedDispatchPlan = group.leader();
        let ghost all = leader@.shards;
        let ghost init = Seq::<VulkanDistributedDispatchHelperSynchronizationView>::empty();
        let ghost step = helper_step(self.directory@, group@, group_index as int);
        let mut helpers: Vec<VulkanDistributedDispatchHelperSynchronization> = Vec::new();
        let mut i: usize = 0;
        assert(helpers.deep_view() =~= init);
        assert(all.take(0) =~= Seq::empty());
        while i < leader.shards.len()
            invariant
                i <= leader.shards.len(),
                sequence::try_fold(all.take(i as int), init, step) == Ok::<
                    Seq<VulkanDistributedDispatchHelperSynchronizationView>,
                    Seq<char>,
                >(helpers.deep_view()),
            decreases leader.shards.len() - i,
        {
            let shard: &VulkanDistributedDispatchShard = &leader.shards[i];
            proof {
                reveal(helper_created);
                sequence::lemma_try_fold_step(all, init, step, i as int);
                assert(all[i as int] == shard@);
                if sequence::try_fold(all.take(i + 1), init, step) is Err {
                    sequence::lemma_try_fold_error(all, init, step, i + 1);
                }
                assert(helpers.deep_view().len() == helpers@.len());
            }
            if shard.device_id != group.owner_device_id {
                let helper: &VulkanComputeDevice = match self.directory.resolve(
                    shard.device_id.as_str(),
                ) {
                    Ok(helper) => helper,
                    Err(error) => return Err(resolve_failure("helper", &shard.device_id, &error)),
                };
                if !owner.supports_opaque_fd_timeline_semaphores
                    || !helper.supports_opaque_fd_timeline_semaphores {
                    return Err(
                        VulkanDistributedDispatchRunnerError(
                            Message::new("distributed dispatch ").text(
                                leader.component_id.as_str(),
                            ).text(".").text(leader.node_id.as_str()).text(
                                " requires persistent opaque-file timeline semaphores on owner ",
                            ).quoted(group.owner_device_id.as_str()).text(" and helper ").quoted(
                                shard.device_id.as_str(),
                            ).done(),
                        ),
                    );
                }
                let helper_index: usize = helpers.len();
                if let Some(error) = self.directory.refused(
                    VulkanDeviceObject::HelperSemaphores { group_index, helper_index },
                ) {
                    return Err(VulkanDistributedDispatchRunnerError(error.0.clone()));
                }
                let helper_sync = VulkanDistributedDispatchHelperSynchronization {
                    device_id: shard.device_id.clone(),
                    ready_source: VulkanTimelineSemaphore {
                        device_id: group.owner_device_id.clone(),
                        group_index,
                        helper_index,
                        signal: VulkanTimelineSignal::OwnerReady,
                        exported: true,
                    },
                    ready_wait: VulkanTimelineSemaphore {
                        device_id: shard.device_id.clone(),
                        group_index,
                        helper_index,
                        signal: VulkanTimelineSignal::OwnerReady,
                        exported: false,
                    },
                    done_source: VulkanTimelineSemaphore {
                        device_id: shard.device_id.clone(),
                        group_index,
                        helper_index,
                        signal: VulkanTimelineSignal::HelperDone,
                        exported: true,
                    },
                    done_wait: VulkanTimelineSemaphore {
                        device_id: group.owner_device_id.clone(),
                        group_index,
                        helper_index,
                        signal: VulkanTimelineSignal::HelperDone,
                        exported: false,
                    },
                };
                let ghost before = helpers.deep_view();
                let ghost added = helper_sync@;
                helpers.push(helper_sync);
                assert(helpers.deep_view() =~= before.push(added));
            }
            i += 1;
        }
        assert(all.take(all.len() as int) =~= all);
        Ok(helpers)
    }
}

impl VulkanDistributedDispatchRunners {
    /// Describes the runners of an execution plan: resident dispatches and recorded sequences on
    /// every device of a group, and the semaphores between its owner and its helpers. A device may
    /// refuse to make any of them.
    #[verifier::loop_isolation(false)]
    pub fn create(
        execution_plan: &VulkanDistributedExecutionPlan,
        parameter_buffers: &VulkanDistributedParameterBuffers,
        activation_buffers: &VulkanDistributedActivationBuffers,
        loaded_manifest: &VulkanLoadedReusableKernelArtifactManifest,
        directory: &VulkanDeviceDirectory,
    ) -> (r: Result<Self, VulkanDistributedDispatchRunnerError>)
        requires
            groups_nonempty(execution_plan@.dispatch_groups),
        ensures
            sequence::outcome(r) == created_runners(
                execution_plan@,
                (CreationView {
                    parameters: parameter_buffers@,
                    activations: activation_buffers@,
                    manifest: loaded_manifest@,
                    directory: directory@,
                }),
            ),
    {
        let creation = Creation {
            parameters: parameter_buffers,
            activations: activation_buffers,
            manifest: loaded_manifest,
            directory,
        };
        let ghost all = execution_plan@.dispatch_groups;
        let ghost step = runner_step(creation.value());
        let mut dispatches: Vec<VulkanDistributedDispatchRunner> = Vec::new();
        let mut shard_count: usize = 0;
        let mut i: usize = 0;
        assert(dispatches.deep_view() =~= Seq::empty());
        assert(all.take(0) =~= Seq::empty());
        while i < execution_plan.dispatch_groups.len()
            invariant
                i <= execution_plan.dispatch_groups.len(),
                dispatches@.len() == i,
                sequence::try_fold(all.take(i as int), no_runners(), step) == Ok::<
                    RunnersView,
                    Seq<char>,
                >(RunnersView { runners: dispatches.deep_view(), count: shard_count as nat }),
            decreases execution_plan.dispatch_groups.len() - i,
        {
            let group: &VulkanDistributedDispatchGroup = &execution_plan.dispatch_groups[i];
            proof {
                reveal(runner_created);
                sequence::lemma_try_fold_step(all, no_runners(), step, i as int);
                assert(all[i as int] == group@);
                if sequence::try_fold(all.take(i + 1), no_runners(), step) is Err {
                    sequence::lemma_try_fold_error(all, no_runners(), step, i + 1);
                }
                assert(dispatches.deep_view().len() == dispatches@.len());
            }
            let owner: &VulkanComputeDevice = match directory.resolve(
                group.owner_device_id.as_str(),
            ) {
                Ok(owner) => owner,
                Err(error) => return Err(resolve_failure("owner", &group.owner_device_id, &error)),
            };
            let (shards, count): (Vec<VulkanDistributedDispatchShardRunner>, usize) =
                match creation.create_shards(group, i, shard_count) {
                Ok(created) => created,
                Err(e) => return Err(e),
            };
            let helper_synchronization: Vec<VulkanDistributedDispatchHelperSynchronization> =
                match creation.create_helpers(group, i, owner) {
                Ok(helpers) => helpers,
                Err(e) => return Err(e),
            };
            let runner = VulkanDistributedDispatchRunner {
                planned: group.clone(),
                shards,
                helper_synchronization,
                dependency_clock: VulkanDistributedDependencyClock::new(),
            };
            let ghost before = dispatches.deep_view();
            let ghost added = runner@;
            dispatches.push(runner);
            assert(dispatches.deep_view() =~= before.push(added));
            shard_count = count;
            i += 1;
        }
        assert(all.take(all.len() as int) =~= all);
        assert(execution_plan@.dispatches.len() == execution_plan.dispatches@.len());
        Ok(
            VulkanDistributedDispatchRunners {
                dispatch_count: execution_plan.dispatches.len(),
                dispatches,
                shard_count,
            },
        )
    }
}

// ---------------------------------------------------------------------------
// The dependency clock
// ---------------------------------------------------------------------------

/// A clock that has handed out no value.
pub open spec fn new_clock() -> VulkanDistributedDependencyClockView {
    VulkanDistributedDependencyClockView { next_value: 1 }
}

/// The name of a dispatch of an owner.
pub open spec fn owned_dispatch(owner: Seq<char>, dispatch_index: usize) -> Seq<char> {
    "distributed dispatch "@ + text::decimal(dispatch_index as nat) + " owned by "@ + text::quoted(
        owner,
    )
}

/// The value that a clock hands out next, and the clock after it.
pub open spec fn reserved(
    clock: VulkanDistributedDependencyClockView,
    owner: Seq<char>,
    dispatch_index: usize,
) -> (Result<u64, Seq<char>>, VulkanDistributedDependencyClockView) {
    if clock.next_value == u64::MAX {
        (
            Err(
                owned_dispatch(owner, dispatch_index)
                    + " exhausted its timeline semaphore values"@,
            ),
            clock,
        )
    } else {
        (
            Ok(clock.next_value),
            VulkanDistributedDependencyClockView { next_value: (clock.next_value + 1) as u64 },
        )
    }
}

/// Whether a clock can be advanced by `count` values.
pub open spec fn advance_check(
    clock: VulkanDistributedDependencyClockView,
    count: u64,
    owner: Seq<char>,
    dispatch_index: usize,
) -> Result<(), Seq<char>> {
    if clock.next_value + count > u64::MAX {
        Err(
            owned_dispatch(owner, dispatch_index)
                + " exhausts its timeline semaphore values during replay"@,
        )
    } else {
        Ok(())
    }
}

/// A clock after `count` more values.
pub open spec fn advanced(
    clock: VulkanDistributedDependencyClockView,
    count: u64,
) -> VulkanDistributedDependencyClockView {
    VulkanDistributedDependencyClockView { next_value: (clock.next_value + count) as u64 }
}

impl VulkanDistributedDependencyClock {
    /// A clock that has handed out no value.
    pub fn new() -> (r: Self)
        ensures
            r@ == new_clock(),
    {
        VulkanDistributedDependencyClock { next_value: 1 }
    }

    /// Hands out the next value.
    pub fn reserve(&mut self, owner_device_id: &str, dispatch_index: usize) -> (r: Result<
        u64,
        VulkanDistributedDispatchRunnerError,
    >)
        ensures
            sequence::outcome(r) == reserved(old(self)@, owner_device_id@, dispatch_index).0,
            final(self)@ == reserved(old(self)@, owner_device_id@, dispatch_index).1,
    {
        let value: u64 = self.next_value;
        match value.checked_add(1) {
            Some(next) => {
                self.next_value = next;
                Ok(value)
            },
            None => Err(
                VulkanDistributedDispatchRunnerError(
                    Message::new("distributed dispatch ").number(dispatch_index).text(
                        " owned by ",
                    ).quoted(owner_device_id).text(" exhausted its timeline semaphore values").done(),
                ),
            ),
        }
    }

    /// Whether the clock can be advanced by `count` values.
    pub fn validate_advance(&self, count: u64, owner_device_id: &str, dispatch_index: usize) -> (r:
        Result<(), VulkanDistributedDispatchRunnerError>)
        ensures
            sequence::outcome(r) == advance_check(self@, count, owner_device_id@, dispatch_index),
    {
        match self.next_value.checked_add(count) {
            Some(_) => Ok(()),
            None => Err(
                VulkanDistributedDispatchRunnerError(
                    Message::new("distributed dispatch ").number(dispatch_index).text(
                        " owned by ",
                    ).quoted(owner_device_id).text(
                        " exhausts its timeline semaphore values during replay",
                    ).done(),
                ),
            ),
        }
    }

    /// Skips `count` values.
    pub fn advance(&mut self, count: u64)
        requires
            old(self)@.next_value + count <= u64::MAX,
        ensures
            final(self)@ == advanced(old(self)@, count),
    {
        self.next_value = self.next_value + count;
    }
}

/// A clock hands out increasing values: the second of two reservations gets a larger one.
pub proof fn reserved_values_increase(
    clock: VulkanDistributedDependencyClockView,
    owner: Seq<char>,
    dispatch_index: usize,
)
    requires
        reserved(clock, owner, dispatch_index).0 is Ok,
        reserved(reserved(clock, owner, dispatch_index).1, owner, dispatch_index).0 is Ok,
    ensures
        reserved(clock, owner, dispatch_index).0->Ok_0 < reserved(
            reserved(clock, owner, dispatch_index).1,
            owner,
            dispatch_index,
        ).0->Ok_0,
{
}

/// Advancing a clock by `count` hands the same value out next as `count` reservations would.
pub proof fn advancing_skips_reservations(
    clock: VulkanDistributedDependencyClockView,
    owner: Seq<char>,
    dispatch_index: usize,
    count: u64,
)
    requires
        count > 0,
        advance_check(clock, count, owner, dispatch_index) is Ok,
    ensures
        reserved(clock, owner, dispatch_index).0 is Ok,
        advanced(reserved(clock, owner, dispatch_index).1, (count - 1) as u64) == advanced(
            clock,
            count,
        ),
{
}

// ---------------------------------------------------------------------------
// Finding a dispatch
// ---------------------------------------------------------------------------

impl VulkanDistributedDispatchRunnersView {
    /// Whether every runner's group has a dispatch.
    pub open spec fn valid(self) -> bool {
        forall|i: int|
            0 <= i < self.dispatches.len() ==> (#[trigger] self.dispatches[i]).planned.dispatches.len()
                > 0
    }
}

/// Whether a runner's group is owned by a device and led by a dispatch.
pub open spec fn led_by(owner: Seq<char>, dispatch_index: usize) -> spec_fn(
    VulkanDistributedDispatchRunnerView,
) -> bool {
    |runner: VulkanDistributedDispatchRunnerView|
        runner.planned.owner_device_id == owner && runner.planned.dispatches.first().dispatch_index
            == dispatch_index
}

/// Whether a runner's group is owned by a device and holds a dispatch.
pub open spec fn holding(owner: Seq<char>, dispatch_index: usize) -> spec_fn(
    VulkanDistributedDispatchRunnerView,
) -> bool {
    |runner: VulkanDistributedDispatchRunnerView|
        runner.planned.owner_device_id == owner && plan::holds_dispatch(
            runner.planned,
            dispatch_index,
        )
}

/// The runner of a group by its owner and its first dispatch.
pub open spec fn find_runner(
    runners: VulkanDistributedDispatchRunnersView,
    owner: Seq<char>,
    dispatch_index: usize,
) -> Option<VulkanDistributedDispatchRunnerView> {
    sequence::find_first(runners.dispatches, led_by(owner, dispatch_index))
}

/// The group that holds a dispatch of an owner.
pub open spec fn find_group(
    runners: VulkanDistributedDispatchRunnersView,
    owner: Seq<char>,
    dispatch_index: usize,
) -> Option<VulkanDistributedDispatchGroupView> {
    match sequence::find_first(runners.dispatches, holding(owner, dispatch_index)) {
        Some(runner) => Some(runner.planned),
        None => None,
    }
}

/// What is said of a dispatch that there is no runner for.
pub open spec fn no_runner(owner: Seq<char>, dispatch_index: usize) -> Seq<char> {
    "distributed runner has no dispatch "@ + text::decimal(dispatch_index as nat) + " owned by "@
        + text::quoted(owner)
}

fn unknown_dispatch(owner_device_id: &str, dispatch_index: usize) -> (r:
    VulkanDistributedDispatchRunnerError)
    ensures
        r@ == no_runner(owner_device_id@, dispatch_index),
{
    VulkanDistributedDispatchRunnerError(
        Message::new("distributed runner has no dispatch ").number(dispatch_index).text(
            " owned by ",
        ).quoted(owner_device_id).done(),
    )
}

/// The clocks of all runners, advanced by `count`.
pub open spec fn clocks_advanced(
    runners: Seq<VulkanDistributedDispatchRunnerView>,
    count: u64,
) -> Seq<VulkanDistributedDispatchRunnerView> {
    Seq::new(
        runners.len(),
        |i: int|
            VulkanDistributedDispatchRunnerView {
                dependency_clock: advanced(runners[i].dependency_clock, count),
                ..runners[i]
            },
    )
}

/// Whether a runner's clock cannot be advanced by `count`.
pub open spec fn cannot_advance(count: u64) -> spec_fn(VulkanDistributedDispatchRunnerView) -> bool {
    |runner: VulkanDistributedDispatchRunnerView| runner.dependency_clock.next_value + count > u64::MAX
}

/// A signal of every helper at a value.
pub open spec fn semaphore_points(
    ends: Seq<VulkanTimelineSemaphoreView>,
    value: u64,
) -> Seq<VulkanTimelineSemaphorePointView> {
    Seq::new(
        ends.len(),
        |i: int| VulkanTimelineSemaphorePointView { semaphore: ends[i], value },
    )
}

/// The ends at which an owner announces its input.
pub open spec fn ready_sources(
    helpers: Seq<VulkanDistributedDispatchHelperSynchronizationView>,
) -> Seq<VulkanTimelineSemaphoreView> {
    Seq::new(helpers.len(), |i: int| helpers[i].ready_source)
}

/// The ends at which an owner awaits its helpers.
pub open spec fn done_waits(
    helpers: Seq<VulkanDistributedDispatchHelperSynchronizationView>,
) -> Seq<VulkanTimelineSemaphoreView> {
    Seq::new(helpers.len(), |i: int| helpers[i].done_wait)
}

impl VulkanDistributedDispatchRunners {
    #[verifier::loop_isolation(false)]
    fn position(&self, owner_device_id: &str, dispatch_index: usize) -> (r: Option<usize>)
        requires
            self@.valid(),
        ensures
            match r {
                Some(i) => {
                    &&& i < self.dispatches@.len()
                    &&& sequence::first_position(
                        self@.dispatches,
                        led_by(owner_device_id@, dispatch_index),
                    ) == Some(i as int)
                    &&& find_runner(self@, owner_device_id@, dispatch_index) == Some(
                        self@.dispatches[i as int],
                    )
                },
                None => {
                    &&& sequence::first_position(
                        self@.dispatches,
                        led_by(owner_device_id@, dispatch_index),
                    ) is None
                    &&& find_runner(self@, owner_device_id@, dispatch_index) is None
                },
            },
    {
        let ghost all = self@.dispatches;
        let ghost p = led_by(owner_device_id@, dispatch_index);
        let mut i: usize = 0;
        while i < self.dispatches.len()
            invariant
                i <= self.dispatches.len(),
                forall|j: int| 0 <= j < i ==> !p(#[trigger] all[j]),
            decreases self.dispatches.len() - i,
        {
            let runner: &VulkanDistributedDispatchRunner = &self.dispatches[i];
            assert(all[i as int] == runner@);
            if text::same(runner.planned.owner_device_id.as_str(), owner_device_id)
                && runner.planned.leader().dispatch_index == dispatch_index {
                proof {
                    sequence::lemma_find_first_at(all, p, i as int);
                }
                return Some(i);
            }
            i += 1;
        }
        proof {
            sequence::lemma_find_first_none(all, p);
        }
        None
    }

    /// The runner of the group that a dispatch of an owner leads.
    pub fn dispatch(&self, owner_device_id: &str, dispatch_index: usize) -> (r: Option<
        &VulkanDistributedDispatchRunner,
    >)
        requires
            self@.valid(),
        ensures
            r.deep_view() == find_runner(self@, owner_device_id@, dispatch_index),
    {
        match self.position(owner_device_id, dispatch_index) {
            Some(i) => {
                assert(self@.dispatches[i as int] == self.dispatches@[i as int]@);
                Some(&self.dispatches[i])
            },
            None => None,
        }
    }

    /// The group that holds a dispatch of an owner.
    #[verifier::loop_isolation(false)]
    pub fn dispatch_group(&self, owner_device_id: &str, dispatch_index: usize) -> (r: Option<
        &VulkanDistributedDispatchGroup,
    >)
        ensures
            r.deep_view() == find_group(self@, owner_device_id@, dispatch_index),
    {
        let ghost all = self@.dispatches;
        let ghost p = holding(owner_device_id@, dispatch_index);
        let mut i: usize = 0;
        while i < self.dispatches.len()
            invariant
                i <= self.dispatches.len(),
                forall|j: int| 0 <= j < i ==> !p(#[trigger] all[j]),
            decreases self.dispatches.len() - i,
        {
            let runner: &VulkanDistributedDispatchRunner = &self.dispatches[i];
            assert(all[i as int] == runner@);
            if text::same(runner.planned.owner_device_id.as_str(), owner_device_id)
                && runner.planned.contains_dispatch(dispatch_index) {
                proof {
                    sequence::lemma_find_first_at(all, p, i as int);
                }
                return Some(&runner.planned);
            }
            i += 1;
        }
        proof {
            sequence::lemma_find_first_none(all, p);
        }
        None
    }

    /// The first dispatch of the group that holds a dispatch of an owner.
    pub fn leader_dispatch_index(&self, owner_device_id: &str, dispatch_index: usize) -> (r: Option<
        usize,
    >)
        ensures
            r == (match find_group(self@, owner_device_id@, dispatch_index) {
                Some(group) => Some(group.dispatches.first().dispatch_index),
                None => None,
            }),
    {
        match self.dispatch_group(owner_device_id, dispatch_index) {
            Some(group) => {
                proof {
                    let p = holding(owner_device_id@, dispatch_index);
                    sequence::lemma_find_first_some(self@.dispatches, p);
                }
                Some(group.leader().dispatch_index)
            },
            None => None,
        }
    }

    /// Hands out the next semaphore value of a dispatch.
    pub fn reserve_dependency_value(&mut self, owner_device_id: &str, dispatch_index: usize) -> (r:
        Result<u64, VulkanDistributedDispatchRunnerError>)
        requires
            old(self)@.valid(),
        ensures
            final(self)@.valid(),
            match sequence::first_position(
                old(self)@.dispatches,
                led_by(owner_device_id@, dispatch_index),
            ) {
                None => {
                    &&& sequence::outcome(r) == Err::<u64, Seq<char>>(
                        no_runner(owner_device_id@, dispatch_index),
                    )
                    &&& final(self)@ == old(self)@
                },
                Some(i) => {
                    let runner = old(self)@.dispatches[i];
                    let next = reserved(runner.dependency_clock, owner_device_id@, dispatch_index);
                    &&& sequence::outcome(r) == next.0
                    &&& final(self)@ == VulkanDistributedDispatchRunnersView {
                        dispatches: old(self)@.dispatches.update(
                            i,
                            VulkanDistributedDispatchRunnerView {
                                dependency_clock: next.1,
                                ..runner
                            },
                        ),
                        ..old(self)@
                    }
                },
            },
    {
        let i: usize = match self.position(owner_device_id, dispatch_index) {
            Some(i) => i,
            None => return Err(unknown_dispatch(owner_device_id, dispatch_index)),
        };
        let ghost before = self@.dispatches;
        assert(before[i as int] == self.dispatches@[i as int]@);
        let runner: &mut VulkanDistributedDispatchRunner = &mut self.dispatches[i];
        let r = runner.dependency_clock.reserve(owner_device_id, dispatch_index);
        proof {
            let next = reserved(before[i as int].dependency_clock, owner_device_id@, dispatch_index);
            assert(self@.dispatches =~= before.update(
                i as int,
                VulkanDistributedDispatchRunnerView {
                    dependency_clock: next.1,
                    ..before[i as int]
                },
            ));
        }
        r
    }

    /// Skips `count` values of every dispatch, or of none where one has too few left.
    #[verifier::loop_isolation(false)]
    pub fn advance_replayed_dependency_values(&mut self, count: usize) -> (r: Result<
        (),
        VulkanDistributedDispatchRunnerError,
    >)
        requires
            old(self)@.valid(),
        ensures
            final(self)@.valid(),
            match sequence::find_first(old(self)@.dispatches, cannot_advance(count as u64)) {
                Some(runner) => {
                    &&& sequence::outcome(r) == advance_check(
                        runner.dependency_clock,
                        count as u64,
                        runner.planned.owner_device_id,
                        runner.planned.dispatches.first().dispatch_index,
                    )
                    &&& final(self)@ == old(self)@
                },
                None => {
                    &&& r is Ok
                    &&& final(self)@ == VulkanDistributedDispatchRunnersView {
                        dispatches: clocks_advanced(old(self)@.dispatches, count as u64),
                        ..old(self)@
                    }
                },
            },
    {
        let step: u64 = count as u64;
        let ghost all = self@.dispatches;
        let ghost p = cannot_advance(step);
        let ghost len = self.dispatches@.len();
        let mut i: usize = 0;
        while i < self.dispatches.len()
            invariant
                i <= self.dispatches.len(),
                self@ == old(self)@,
                forall|j: int| 0 <= j < i ==> !p(#[trigger] all[j]),
            decreases self.dispatches.len() - i,
        {
            let runner: &VulkanDistributedDispatchRunner = &self.dispatches[i];
            assert(all[i as int] == runner@);
            match runner.dependency_clock.validate_advance(
                step,
                runner.planned.owner_device_id.as_str(),
                runner.planned.leader().dispatch_index,
            ) {
                Ok(_) => {},
                Err(e) => {
                    proof {
                        sequence::lemma_find_first_at(all, p, i as int);
                    }
                    return Err(e);
                },
            }
            i += 1;
        }
        proof {
            assert(all.len() == self.dispatches@.len());
            sequence::lemma_find_first_none(all, p);
        }
        let ghost goal = clocks_advanced(all, step);
        let mut k: usize = 0;
        while k < self.dispatches.len()
            invariant
                k <= self.dispatches.len(),
                self.dispatches@.len() == all.len(),
                self.dispatch_count == old(self).dispatch_count,
                self.shard_count == old(self).shard_count,
                forall|j: int| 0 <= j < k ==> (#[trigger] self@.dispatches[j]) == goal[j],
                forall|j: int| k <= j < all.len() ==> (#[trigger] self@.dispatches[j]) == all[j],
            decreases self.dispatches.len() - k,
        {
            let ghost before = self@.dispatches;
            proof {
                assert(before[k as int] == all[k as int]);
                assert(!p(all[k as int]));
                assert(before[k as int] == self.dispatches@[k as int]@);
            }
            let runner: &mut VulkanDistributedDispatchRunner = &mut self.dispatches[k];
            runner.dependency_clock.advance(step);
            assert(self@.dispatches =~= before.update(k as int, goal[k as int]));
            k += 1;
        }
        assert(self@.dispatches =~= goal);
        Ok(())
    }

    /// The points that the owner signals when its input is ready, one for each helper.
    #[verifier::loop_isolation(false)]
    pub fn owner_ready_signal_points(
        &self,
        owner_device_id: &str,
        dispatch_index: usize,
        dependency_value: u64,
    ) -> (r: Result<Vec<VulkanTimelineSemaphorePoint>, VulkanDistributedDispatchRunnerError>)
        requires
            self@.valid(),
        ensures
            sequence::outcome(r) == ready_points(
                self@,
                owner_device_id@,
                dispatch_index,
                dependency_value,
            ),
    {
        let runner: &VulkanDistributedDispatchRunner = match self.dispatch(
            owner_device_id,
            dispatch_index,
        ) {
            Some(runner) => runner,
            None => return Err(unknown_dispatch(owner_device_id, dispatch_index)),
        };
        let ghost goal = semaphore_points(
            ready_sources(runner@.helper_synchronization),
            dependency_value,
        );
        let mut points: Vec<VulkanTimelineSemaphorePoint> = Vec::new();
        let mut i: usize = 0;
        while i < runner.helper_synchronization.len()
            invariant
                i <= runner.helper_synchronization.len(),
                points@.len() == i,
                forall|j: int| 0 <= j < i ==> (#[trigger] points.deep_view()[j]) == goal[j],
            decreases runner.helper_synchronization.len() - i,
        {
            let ghost before = points.deep_view();
            assert(runner@.helper_synchronization[i as int]
                == runner.helper_synchronization@[i as int]@);
            points.push(
                VulkanTimelineSemaphorePoint {
                    semaphore: runner.helper_synchronization[i].ready_source.clone(),
                    value: dependency_value,
                },
            );
            assert(points.deep_view() =~= before.push(goal[i as int]));
            i += 1;
        }
        assert(points.deep_view() =~= goal);
        Ok(points)
    }

    /// The points that the owner waits for before it goes on, one for each helper.
    #[verifier::loop_isolation(false)]
    pub fn owner_completion_wait_points(
        &self,
        owner_device_id: &str,
        dispatch_index: usize,
        dependency_value: u64,
    ) -> (r: Result<Vec<VulkanTimelineSemaphorePoint>, VulkanDistributedDispatchRunnerError>)
        requires
            self@.valid(),
        ensures
            sequence::outcome(r) == completion_points(
                self@,
                owner_device_id@,
                dispatch_index,
                dependency_value,
            ),
    {
        let runner: &VulkanDistributedDispatchRunner = match self.dispatch(
            owner_device_id,
            dispatch_index,
        ) {
            Some(runner) => runner,
            None => return Err(unknown_dispatch(owner_device_id, dispatch_index)),
        };
        let ghost goal = semaphore_points(
            done_waits(runner@.helper_synchronization),
            dependency_value,
        );
        let mut points: Vec<VulkanTimelineSemaphorePoint> = Vec::new();
        let mut i: usize = 0;
        while i < runner.helper_synchronization.len()
            invariant
                i <= runner.helper_synchronization.len(),
                points@.len() == i,
                forall|j: int| 0 <= j < i ==> (#[trigger] points.deep_view()[j]) == goal[j],
            decreases runner.helper_synchronization.len() - i,
        {
            let ghost before = points.deep_view();
            assert(runner@.helper_synchronization[i as int]
                == runner.helper_synchronization@[i as int]@);
            points.push(
                VulkanTimelineSemaphorePoint {
                    semaphore: runner.helper_synchronization[i].done_wait.clone(),
                    value: dependency_value,
                },
            );
            assert(points.deep_view() =~= before.push(goal[i as int]));
            i += 1;
        }
        assert(points.deep_view() =~= goal);
        Ok(points)
    }
}

// ---------------------------------------------------------------------------
// Submitting and waiting
// ---------------------------------------------------------------------------

/// How a shard's sequence is handed to its device.
#[derive(Clone, Copy, Debug, PartialEq, Eq, Structural)]
pub enum VulkanDistributedSubmissionMode {
    /// Collected in a batch.
    Enqueued,
    /// Submitted with a fence.
    Fenced,
    /// Submitted without a fence.
    Unfenced,
}

impl DeepView for VulkanDistributedSubmissionMode {
    type V = VulkanDistributedSubmissionMode;

    open spec fn deep_view(&self) -> VulkanDistributedSubmissionMode {
        *self
    }
}

/// What is handed to a device to submit one shard.
#[derive(Debug, PartialEq, Eq)]
pub struct VulkanDistributedShardSubmission {
    pub sequence: VulkanResidentKernelSequence,
    pub wait_points: Vec<VulkanTimelineSemaphorePoint>,
    pub signal_points: Vec<VulkanTimelineSemaphorePoint>,
    pub mode: VulkanDistributedSubmissionMode,
    pub signal_completion: bool,
}

#[verifier::ext_equal]
pub struct VulkanDistributedShardSubmissionView {
    pub sequence: VulkanResidentKernelSequenceView,
    pub wait_points: Seq<VulkanTimelineSemaphorePointView>,
    pub signal_points: Seq<VulkanTimelineSemaphorePointView>,
    pub mode: VulkanDistributedSubmissionMode,
    pub signal_completion: bool,
}

impl DeepView for VulkanDistributedShardSubmission {
    type V = VulkanDistributedShardSubmissionView;

    open spec fn deep_view(&self) -> VulkanDistributedShardSubmissionView {
        VulkanDistributedShardSubmissionView {
            sequence: self.sequence.deep_view(),
            wait_points: self.wait_points.deep_view(),
            signal_points: self.signal_points.deep_view(),
            mode: self.mode,
            signal_completion: self.signal_completion,
        }
    }
}

impl View for VulkanDistributedShardSubmission {
    type V = VulkanDistributedShardSubmissionView;

    open spec fn view(&self) -> VulkanDistributedShardSubmissionView {
        self.deep_view()
    }
}

impl Clone for VulkanDistributedShardSubmission {
    fn clone(&self) -> (r: Self)
        ensures
            r@ == self@,
    {
        VulkanDistributedShardSubmission {
            sequence: self.sequence.clone(),
            wait_points: self.wait_points.clone(),
            signal_points: self.signal_points.clone(),
            mode: self.mode,
            signal_completion: self.signal_completion,
        }
    }
}

/// The points that the owner of a dispatch signals when its input is ready, one for each helper.
pub open spec fn ready_points(
    runners: VulkanDistributedDispatchRunnersView,
    owner: Seq<char>,
    dispatch_index: usize,
    value: u64,
) -> Result<Seq<VulkanTimelineSemaphorePointView>, Seq<char>> {
    match find_runner(runners, owner, dispatch_index) {
        None => Err(no_runner(owner, dispatch_index)),
        Some(runner) => Ok(semaphore_points(ready_sources(runner.helper_synchronization), value)),
    }
}

/// The points that the owner of a dispatch waits for before it goes on, one for each helper.
pub open spec fn completion_points(
    runners: VulkanDistributedDispatchRunnersView,
    owner: Seq<char>,
    dispatch_index: usize,
    value: u64,
) -> Result<Seq<VulkanTimelineSemaphorePointView>, Seq<char>> {
    match find_runner(runners, owner, dispatch_index) {
        None => Err(no_runner(owner, dispatch_index)),
        Some(runner) => Ok(semaphore_points(done_waits(runner.helper_synchronization), value)),
    }
}

/// Whether semaphores are those of a device.
pub open spec fn helper_on(device_id: Seq<char>) -> spec_fn(
    VulkanDistributedDispatchHelperSynchronizationView,
) -> bool {
    |helper: VulkanDistributedDispatchHelperSynchronizationView| helper.device_id == device_id
}

/// How a submission is handed over.
pub open spec fn submission_mode(
    batched: bool,
    signal_completion: bool,
) -> VulkanDistributedSubmissionMode {
    if batched {
        VulkanDistributedSubmissionMode::Enqueued
    } else if signal_completion {
        VulkanDistributedSubmissionMode::Fenced
    } else {
        VulkanDistributedSubmissionMode::Unfenced
    }
}

/// A single point, if it is wanted.
pub open spec fn wanted_point(
    wanted: bool,
    semaphore: VulkanTimelineSemaphoreView,
    value: u64,
) -> Seq<VulkanTimelineSemaphorePointView> {
    if wanted {
        seq![VulkanTimelineSemaphorePointView { semaphore, value }]
    } else {
        Seq::empty()
    }
}

/// What is handed over for one shard of a runner. A helper waits for its owner and announces its
/// end; the owner's own shard does neither.
pub open spec fn shard_submission(
    runner: VulkanDistributedDispatchRunnerView,
    submission: VulkanDistributedDispatchSubmission,
    batched: bool,
    shard: VulkanDistributedDispatchShardRunnerView,
) -> VulkanDistributedShardSubmissionView {
    let mode = submission_mode(batched, submission.signal_completion);
    match sequence::find_first(runner.helper_synchronization, helper_on(shard.device_id)) {
        None => VulkanDistributedShardSubmissionView {
            sequence: shard.sequence,
            wait_points: Seq::empty(),
            signal_points: Seq::empty(),
            mode,
            signal_completion: submission.signal_completion,
        },
        Some(helper) => VulkanDistributedShardSubmissionView {
            sequence: shard.sequence,
            wait_points: wanted_point(
                submission.consume_owner_ready_signal,
                helper.ready_wait,
                submission.dependency_value,
            ),
            signal_points: wanted_point(
                submission.prepare_owner_continuation,
                helper.done_source,
                submission.dependency_value,
            ),
            mode,
            signal_completion: submission.signal_completion,
        },
    }
}

/// Whether a shard's device is not mounted.
pub open spec fn shard_unresolved(directory: VulkanDeviceDirectoryView) -> spec_fn(
    VulkanDistributedDispatchShardRunnerView,
) -> bool {
    |shard: VulkanDistributedDispatchShardRunnerView| !directory.knows(shard.device_id)
}

/// The runner of a dispatch, with all of its devices mounted.
pub open spec fn resolved_runner(
    runners: VulkanDistributedDispatchRunnersView,
    owner: Seq<char>,
    dispatch_index: usize,
    directory: VulkanDeviceDirectoryView,
) -> Result<VulkanDistributedDispatchRunnerView, Seq<char>> {
    match find_runner(runners, owner, dispatch_index) {
        None => Err(no_runner(owner, dispatch_index)),
        Some(runner) => match sequence::find_first(runner.shards, shard_unresolved(directory)) {
            Some(shard) => Err(unresolved("shard"@, shard.device_id, directory.refusal(shard.device_id))),
            None => Ok(runner),
        },
    }
}

/// What is handed over for every shard of a runner, in order.
pub open spec fn runner_submissions(
    runner: VulkanDistributedDispatchRunnerView,
    submission: VulkanDistributedDispatchSubmission,
    batched: bool,
) -> Seq<VulkanDistributedShardSubmissionView> {
    Seq::new(
        runner.shards.len(),
        |i: int| shard_submission(runner, submission, batched, runner.shards[i]),
    )
}

/// What a run of a group reports.
pub open spec fn group_run(
    runner: VulkanDistributedDispatchRunnerView,
    owner: Seq<char>,
    dispatch_index: usize,
) -> VulkanDistributedDispatchRunView {
    VulkanDistributedDispatchRunView {
        owner_device_id: owner,
        dispatch_index,
        component_id: runner.planned.dispatches.first().component_id,
        node_id: runner.planned.dispatches.last().node_id,
        shard_count: runner.shards.len() as usize,
    }
}

/// What a device call gave.
pub type DeviceOutcome = Result<(), Seq<char>>;

/// The values of what device calls gave.
pub open spec fn device_outcomes(outcomes: Seq<Result<(), VulkanError>>) -> Seq<DeviceOutcome> {
    Seq::new(outcomes.len(), |i: int| sequence::outcome(outcomes[i]))
}

/// Whether the outcomes cover `n` calls, made one after the other up to the first failure.
pub open spec fn reported(outcomes: Seq<DeviceOutcome>, n: nat) -> bool {
    outcomes.len() >= n || exists|j: int| 0 <= j < outcomes.len() && (#[trigger] outcomes[j]) is Err
}

/// The position of the first failure among `n` calls.
pub open spec fn first_failure(outcomes: Seq<DeviceOutcome>, n: nat) -> Option<int> {
    sequence::first_position(
        if outcomes.len() < n {
            outcomes
        } else {
            outcomes.take(n as int)
        },
        is_failure(),
    )
}

/// Whether a call failed.
pub open spec fn is_failure() -> spec_fn(DeviceOutcome) -> bool {
    |outcome: DeviceOutcome| outcome is Err
}

/// What is said where a call for a shard of a group fails.
pub open spec fn shard_failure(
    what: Seq<char>,
    component_id: Seq<char>,
    node_id: Seq<char>,
    device_id: Seq<char>,
    error: Seq<char>,
) -> Seq<char> {
    what + " distributed dispatch "@ + component_id + "."@ + node_id + " shard on "@ + text::quoted(
        device_id,
    ) + ": "@ + error
}

/// The result of submitting every shard of a dispatch.
pub open spec fn submitted_run(
    runners: VulkanDistributedDispatchRunnersView,
    owner: Seq<char>,
    dispatch_index: usize,
    directory: VulkanDeviceDirectoryView,
    outcomes: Seq<DeviceOutcome>,
) -> Result<VulkanDistributedDispatchRunView, Seq<char>> {
    match resolved_runner(runners, owner, dispatch_index, directory) {
        Err(e) => Err(e),
        Ok(runner) => match first_failure(outcomes, runner.shards.len()) {
            Some(i) => Err(
                shard_failure(
                    "failed to submit"@,
                    runner.planned.dispatches.first().component_id,
                    runner.planned.dispatches.first().node_id,
                    runner.shards[i].device_id,
                    outcomes[i]->Err_0,
                ),
            ),
            None => Ok(group_run(runner, owner, dispatch_index)),
        },
    }
}

/// The result of waiting for every shard of a runner.
pub open spec fn waited_shards(
    runner: VulkanDistributedDispatchRunnerView,
    outcomes: Seq<DeviceOutcome>,
) -> Result<(), Seq<char>> {
    match first_failure(outcomes, runner.shards.len()) {
        Some(i) => Err(
            shard_failure(
                "failed waiting for"@,
                runner.planned.dispatches.first().component_id,
                runner.planned.dispatches.last().node_id,
                runner.shards[i].device_id,
                outcomes[i]->Err_0,
            ),
        ),
        None => Ok(()),
    }
}

/// The result of waiting for a dispatch.
pub open spec fn waited_dispatch(
    runners: VulkanDistributedDispatchRunnersView,
    owner: Seq<char>,
    dispatch_index: usize,
    directory: VulkanDeviceDirectoryView,
    outcomes: Seq<DeviceOutcome>,
) -> Result<(), Seq<char>> {
    match resolved_runner(runners, owner, dispatch_index, directory) {
        Err(e) => Err(e),
        Ok(runner) => waited_shards(runner, outcomes),
    }
}

/// The first shard that is not submitted: its device is not mounted, or its submission failed.
pub open spec fn first_unsubmitted(
    runner: VulkanDistributedDispatchRunnerView,
    directory: VulkanDeviceDirectoryView,
    outcomes: Seq<DeviceOutcome>,
) -> Option<int> {
    sequence::first_position(
        sequence::positions(runner.shards.len()),
        not_submitted(runner, directory, outcomes),
    )
}

/// Whether a shard is not submitted.
pub open spec fn not_submitted(
    runner: VulkanDistributedDispatchRunnerView,
    directory: VulkanDeviceDirectoryView,
    outcomes: Seq<DeviceOutcome>,
) -> spec_fn(int) -> bool {
    |i: int| !directory.knows(runner.shards[i].device_id) || (i < outcomes.len() && outcomes[i] is Err)
}

/// The result of running a dispatch: submitting its shards one after the other, then waiting for
/// all of them.
pub open spec fn ran_dispatch(
    runners: VulkanDistributedDispatchRunnersView,
    owner: Seq<char>,
    dispatch_index: usize,
    directory: VulkanDeviceDirectoryView,
    submitted: Seq<DeviceOutcome>,
    waited: Seq<DeviceOutcome>,
) -> Result<VulkanDistributedDispatchRunView, Seq<char>> {
    match find_runner(runners, owner, dispatch_index) {
        None => Err(no_runner(owner, dispatch_index)),
        Some(runner) => match first_unsubmitted(runner, directory, submitted) {
            Some(i) => if !directory.knows(runner.shards[i].device_id) {
                Err(unresolved(
                    "shard"@,
                    runner.shards[i].device_id,
                    directory.refusal(runner.shards[i].device_id),
                ))
            } else {
                Err(
                    shard_failure(
                        "failed to submit"@,
                        runner.planned.dispatches.first().component_id,
                        runner.planned.dispatches.last().node_id,
                        runner.shards[i].device_id,
                        submitted[i]->Err_0,
                    ),
                )
            },
            None => match waited_shards(runner, waited) {
                Err(e) => Err(e),
                Ok(_) => Ok(group_run(runner, owner, dispatch_index)),
            },
        },
    }
}

fn failure_of(
    what: &str,
    component_id: &String,
    node_id: &String,
    device_id: &String,
    error: &VulkanError,
) -> (r: VulkanDistributedDispatchRunnerError)
    ensures
        r@ == shard_failure(what@, component_id@, node_id@, device_id@, error@),
{
    VulkanDistributedDispatchRunnerError(
        Message::new(what).text(" distributed dispatch ").text(component_id.as_str()).text(
            ".",
        ).text(node_id.as_str()).text(" shard on ").quoted(device_id.as_str()).text(": ").text(
            error.0.as_str(),
        ).done(),
    )
}

/// What is said where something failed with the sequence of a group's shard.
pub open spec fn sequence_failure(
    what: Seq<char>,
    group: VulkanDistributedDispatchGroupView,
    device_id: Seq<char>,
    error: Seq<char>,
) -> Seq<char> {
    what + " distributed sequence "@ + text::decimal(
        group.dispatches.first().dispatch_index as nat,
    ) + ".."@ + text::decimal(group.dispatches.last().dispatch_index as nat) + " shard on "@
        + text::quoted(device_id) + ": "@ + error
}

fn sequence_failure_of(
    what: &str,
    group: &VulkanDistributedDispatchGroup,
    device_id: &str,
    error: &VulkanError,
) -> (r: VulkanDistributedDispatchRunnerError)
    requires
        group@.dispatches.len() > 0,
    ensures
        r@ == sequence_failure(what@, group@, device_id@, error@),
{
    VulkanDistributedDispatchRunnerError(
        Message::new(what).text(" distributed sequence ").number(
            group.leader().dispatch_index,
        ).text("..").number(group.tail().dispatch_index).text(" shard on ").quoted(device_id).text(
            ": ",
        ).text(error.0.as_str()).done(),
    )
}

#[verifier::loop_isolation(false)]
fn find_failure(outcomes: &Vec<Result<(), VulkanError>>, n: usize) -> (r: Option<usize>)
    ensures
        (match r {
            Some(i) => Some(i as int),
            None => None,
        }) == first_failure(device_outcomes(outcomes@), n as nat),
        r is Some ==> r->Some_0 < n && r->Some_0 < outcomes@.len() && outcomes@[r->Some_0 as int] is Err,
{
    let ghost views = device_outcomes(outcomes@);
    let ghost all = if views.len() < n {
        views
    } else {
        views.take(n as int)
    };
    let ghost p = is_failure();
    let mut i: usize = 0;
    while i < outcomes.len() && i < n
        invariant
            i <= outcomes.len(),
            i <= n,
            forall|j: int| 0 <= j < i ==> !p(#[trigger] all[j]),
        decreases outcomes.len() - i,
    {
        assert(all[i as int] == sequence::outcome(outcomes@[i as int]));
        if outcomes[i].is_err() {
            proof {
                sequence::lemma_find_first_at(all, p, i as int);
            }
            return Some(i);
        }
        i += 1;
    }
    proof {
        sequence::lemma_find_first_none(all, p);
    }
    None
}

impl VulkanDistributedDispatchRunner {
    #[verifier::loop_isolation(false)]
    fn resolve_shards(&self, directory: &VulkanDeviceDirectory) -> (r: Result<
        (),
        VulkanDistributedDispatchRunnerError,
    >)
        ensures
            sequence::outcome(r) == (match sequence::find_first(
                self@.shards,
                shard_unresolved(directory@),
            ) {
                Some(shard) => Err::<(), Seq<char>>(
                    unresolved("shard"@, shard.device_id, directory@.refusal(shard.device_id)),
                ),
                None => Ok(()),
            }),
    {
        let ghost all = self@.shards;
        let ghost p = shard_unresolved(directory@);
        let mut i: usize = 0;
        while i < self.shards.len()
            invariant
                i <= self.shards.len(),
                forall|j: int| 0 <= j < i ==> !p(#[trigger] all[j]),
            decreases self.shards.len() - i,
        {
            assert(all[i as int] == self.shards@[i as int]@);
            match directory.resolve(self.shards[i].device_id.as_str()) {
                Ok(_) => {},
                Err(error) => {
                    proof {
                        sequence::lemma_find_first_at(all, p, i as int);
                    }
                    return Err(resolve_failure("shard", &self.shards[i].device_id, &error));
                },
            }
            i += 1;
        }
        proof {
            sequence::lemma_find_first_none(all, p);
        }
        Ok(())
    }

    #[verifier::loop_isolation(false)]
    fn helper_for(&self, device_id: &String) -> (r: Option<
        &VulkanDistributedDispatchHelperSynchronization,
    >)
        ensures
            r.deep_view() == sequence::find_first(
                self@.helper_synchronization,
                helper_on(device_id@),
            ),
    {
        let ghost all = self@.helper_synchronization;
        let ghost p = helper_on(device_id@);
        let mut i: usize = 0;
        while i < self.helper_synchronization.len()
            invariant
                i <= self.helper_synchronization.len(),
                forall|j: int| 0 <= j < i ==> !p(#[trigger] all[j]),
            decreases self.helper_synchronization.len() - i,
        {
            assert(all[i as int] == self.helper_synchronization@[i as int]@);
            if self.helper_synchronization[i].device_id == *device_id {
                proof {
                    sequence::lemma_find_first_at(all, p, i as int);
                }
                return Some(&self.helper_synchronization[i]);
            }
            i += 1;
        }
        proof {
            sequence::lemma_find_first_none(all, p);
        }
        None
    }

    fn submission_of(
        &self,
        shard: &VulkanDistributedDispatchShardRunner,
        submission: VulkanDistributedDispatchSubmission,
        batched: bool,
    ) -> (r: VulkanDistributedShardSubmission)
        ensures
            r@ == shard_submission(self@, submission, batched, shard@),
    {
        let mut wait_points: Vec<VulkanTimelineSemaphorePoint> = Vec::new();
        let mut signal_points: Vec<VulkanTimelineSemaphorePoint> = Vec::new();
        assert(wait_points.deep_view() =~= Seq::empty());
        assert(signal_points.deep_view() =~= Seq::empty());
        if let Some(helper) = self.helper_for(&shard.device_id) {
            if submission.consume_owner_ready_signal {
                wait_points.push(
                    VulkanTimelineSemaphorePoint {
                        semaphore: helper.ready_wait.clone(),
                        value: submission.dependency_value,
                    },
                );
            }
            if submission.prepare_owner_continuation {
                signal_points.push(
                    VulkanTimelineSemaphorePoint {
                        semaphore: helper.done_source.clone(),
                        value: submission.dependency_value,
                    },
                );
            }
            assert(wait_points.deep_view() =~= wanted_point(
                submission.consume_owner_ready_signal,
                helper@.ready_wait,
                submission.dependency_value,
            ));
            assert(signal_points.deep_view() =~= wanted_point(
                submission.prepare_owner_continuation,
                helper@.done_source,
                submission.dependency_value,
            ));
        }
        let mode = if batched {
            VulkanDistributedSubmissionMode::Enqueued
        } else if submission.signal_completion {
            VulkanDistributedSubmissionMode::Fenced
        } else {
            VulkanDistributedSubmissionMode::Unfenced
        };
        VulkanDistributedShardSubmission {
            sequence: shard.sequence.clone(),
            wait_points,
            signal_points,
            mode,
            signal_completion: submission.signal_completion,
        }
    }

    fn run_report(&self, owner_device_id: &str, dispatch_index: usize) -> (r:
        VulkanDistributedDispatchRun)
        requires
            self@.planned.dispatches.len() > 0,
        ensures
            r@ == group_run(self@, owner_device_id@, dispatch_index),
    {
        assert(self@.shards.len() == self.shards@.len());
        VulkanDistributedDispatchRun {
            owner_device_id: owner_device_id.to_owned(),
            dispatch_index,
            component_id: self.planned.leader().component_id.clone(),
            node_id: self.planned.tail().node_id.clone(),
            shard_count: self.shards.len(),
        }
    }

    fn waited(&self, outcomes: &Vec<Result<(), VulkanError>>) -> (r: Result<
        (),
        VulkanDistributedDispatchRunnerError,
    >)
        requires
            self@.planned.dispatches.len() > 0,
        ensures
            sequence::outcome(r) == waited_shards(self@, device_outcomes(outcomes@)),
    {
        assert(self@.shards.len() == self.shards@.len());
        match find_failure(outcomes, self.shards.len()) {
            Some(i) => {
                assert(self@.shards[i as int] == self.shards@[i as int]@);
                match &outcomes[i] {
                    Err(error) => Err(
                        failure_of(
                            "failed waiting for",
                            &self.planned.leader().component_id,
                            &self.planned.tail().node_id,
                            &self.shards[i].device_id,
                            error,
                        ),
                    ),
                    Ok(_) => Ok(()),
                }
            },
            None => Ok(()),
        }
    }
}

impl VulkanDistributedDispatchRunners {
    fn resolved(
        &self,
        owner_device_id: &str,
        dispatch_index: usize,
        directory: &VulkanDeviceDirectory,
    ) -> (r: Result<&VulkanDistributedDispatchRunner, VulkanDistributedDispatchRunnerError>)
        requires
            self@.valid(),
        ensures
            sequence::outcome(r) == resolved_runner(
                self@,
                owner_device_id@,
                dispatch_index,
                directory@,
            ),
            r is Ok ==> r->Ok_0@.planned.dispatches.len() > 0,
    {
        match self.position(owner_device_id, dispatch_index) {
            Some(i) => {
                assert(self@.dispatches[i as int] == self.dispatches@[i as int]@);
                let runner: &VulkanDistributedDispatchRunner = &self.dispatches[i];
                match runner.resolve_shards(directory) {
                    Ok(_) => Ok(runner),
                    Err(e) => Err(e),
                }
            },
            None => Err(unknown_dispatch(owner_device_id, dispatch_index)),
        }
    }

    /// What has to be handed to the devices, in order, to submit a dispatch.
    #[verifier::loop_isolation(false)]
    pub fn plan_dispatch_submissions(
        &self,
        owner_device_id: &str,
        dispatch_index: usize,
        submission: VulkanDistributedDispatchSubmission,
        batched: bool,
        directory: &VulkanDeviceDirectory,
    ) -> (r: Result<Vec<VulkanDistributedShardSubmission>, VulkanDistributedDispatchRunnerError>)
        requires
            self@.valid(),
        ensures
            sequence::outcome(r) == (match resolved_runner(
                self@,
                owner_device_id@,
                dispatch_index,
                directory@,
            ) {
                Err(e) => Err::<Seq<VulkanDistributedShardSubmissionView>, Seq<char>>(e),
                Ok(runner) => Ok(runner_submissions(runner, submission, batched)),
            }),
    {
        let runner: &VulkanDistributedDispatchRunner = match self.resolved(
            owner_device_id,
            dispatch_index,
            directory,
        ) {
            Ok(runner) => runner,
            Err(e) => return Err(e),
        };
        let ghost goal = runner_submissions(runner@, submission, batched);
        let mut submissions: Vec<VulkanDistributedShardSubmission> = Vec::new();
        let mut i: usize = 0;
        while i < runner.shards.len()
            invariant
                i <= runner.shards.len(),
                submissions@.len() == i,
                forall|j: int| 0 <= j < i ==> (#[trigger] submissions.deep_view()[j]) == goal[j],
            decreases runner.shards.len() - i,
        {
            let ghost before = submissions.deep_view();
            assert(runner@.shards[i as int] == runner.shards@[i as int]@);
            submissions.push(runner.submission_of(&runner.shards[i], submission, batched));
            assert(submissions.deep_view() =~= before.push(goal[i as int]));
            i += 1;
        }
        assert(submissions.deep_view() =~= goal);
        Ok(submissions)
    }

    /// The result of a submission, from what the devices answered to the planned submissions, up
    /// to the first failure.
    pub fn submit_dispatch_with_device_dependencies(
        &self,
        owner_device_id: &str,
        dispatch_index: usize,
        directory: &VulkanDeviceDirectory,
        outcomes: &Vec<Result<(), VulkanError>>,
    ) -> (r: Result<VulkanDistributedDispatchRun, VulkanDistributedDispatchRunnerError>)
        requires
            self@.valid(),
            match resolved_runner(self@, owner_device_id@, dispatch_index, directory@) {
                Ok(runner) => reported(device_outcomes(outcomes@), runner.shards.len()),
                Err(_) => true,
            },
        ensures
            sequence::outcome(r) == submitted_run(
                self@,
                owner_device_id@,
                dispatch_index,
                directory@,
                device_outcomes(outcomes@),
            ),
    {
        let runner: &VulkanDistributedDispatchRunner = match self.resolved(
            owner_device_id,
            dispatch_index,
            directory,
        ) {
            Ok(runner) => runner,
            Err(e) => return Err(e),
        };
        assert(runner@.shards.len() == runner.shards@.len());
        match find_failure(outcomes, runner.shards.len()) {
            Some(i) => {
                assert(runner@.shards[i as int] == runner.shards@[i as int]@);
                match &outcomes[i] {
                    Err(error) => Err(
                        failure_of(
                            "failed to submit",
                            &runner.planned.leader().component_id,
                            &runner.planned.leader().node_id,
                            &runner.shards[i].device_id,
                            error,
                        ),
                    ),
                    Ok(_) => Ok(runner.run_report(owner_device_id, dispatch_index)),
                }
            },
            None => Ok(runner.run_report(owner_device_id, dispatch_index)),
        }
    }

    /// The result of waiting for a dispatch, from what the devices answered for its shards. Every
    /// shard is waited for; the first failure is reported.
    pub fn wait_dispatch(
        &self,
        owner_device_id: &str,
        dispatch_index: usize,
        directory: &VulkanDeviceDirectory,
        outcomes: &Vec<Result<(), VulkanError>>,
    ) -> (r: Result<(), VulkanDistributedDispatchRunnerError>)
        requires
            self@.valid(),
            match resolved_runner(self@, owner_device_id@, dispatch_index, directory@) {
                Ok(runner) => outcomes@.len() == runner.shards.len(),
                Err(_) => true,
            },
        ensures
            sequence::outcome(r) == waited_dispatch(
                self@,
                owner_device_id@,
                dispatch_index,
                directory@,
                device_outcomes(outcomes@),
            ),
    {
        match self.resolved(owner_device_id, dispatch_index, directory) {
            Ok(runner) => runner.waited(outcomes),
            Err(e) => Err(e),
        }
    }

    /// The result of running a dispatch, from what the devices answered to the submissions, up to
    /// the first failure, and to the waits that follow where every shard was submitted.
    #[verifier::loop_isolation(false)]
    pub fn run_dispatch(
        &self,
        owner_device_id: &str,
        dispatch_index: usize,
        directory: &VulkanDeviceDirectory,
        submitted: &Vec<Result<(), VulkanError>>,
        waited: &Vec<Result<(), VulkanError>>,
    ) -> (r: Result<VulkanDistributedDispatchRun, VulkanDistributedDispatchRunnerError>)
        requires
            self@.valid(),
            match find_runner(self@, owner_device_id@, dispatch_index) {
                Some(runner) => first_unsubmitted(
                    runner,
                    directory@,
                    device_outcomes(submitted@),
                ) is None ==> submitted@.len() >= runner.shards.len() && waited@.len()
                    >= runner.shards.len(),
                None => true,
            },
        ensures
            sequence::outcome(r) == ran_dispatch(
                self@,
                owner_device_id@,
                dispatch_index,
                directory@,
                device_outcomes(submitted@),
                device_outcomes(waited@),
            ),
    {
        let position: usize = match self.position(owner_device_id, dispatch_index) {
            Some(position) => position,
            None => return Err(unknown_dispatch(owner_device_id, dispatch_index)),
        };
        let runner: &VulkanDistributedDispatchRunner = &self.dispatches[position];
        assert(self@.dispatches[position as int] == runner@);
        assert(runner@.shards.len() == runner.shards@.len());
        let ghost views = device_outcomes(submitted@);
        let ghost all = sequence::positions(runner@.shards.len());
        let ghost p = not_submitted(runner@, directory@, views);
        let mut i: usize = 0;
        while i < runner.shards.len()
            invariant
                i <= runner.shards.len(),
                forall|j: int| 0 <= j < i ==> !p(#[trigger] all[j]),
            decreases runner.shards.len() - i,
        {
            let shard: &VulkanDistributedDispatchShardRunner = &runner.shards[i];
            proof {
                assert(runner@.shards[i as int] == shard@);
                assert(all[i as int] == i);
                if p(all[i as int]) {
                    sequence::lemma_find_first_at(all, p, i as int);
                }
            }
            match directory.resolve(shard.device_id.as_str()) {
                Ok(_) => {},
                Err(error) => return Err(resolve_failure("shard", &shard.device_id, &error)),
            }
            if i < submitted.len() {
                assert(views[i as int] == sequence::outcome(submitted@[i as int]));
                match &submitted[i] {
                    Ok(_) => {},
                    Err(error) => return Err(
                        failure_of(
                            "failed to submit",
                            &runner.planned.leader().component_id,
                            &runner.planned.tail().node_id,
                            &shard.device_id,
                            error,
                        ),
                    ),
                }
            }
            i += 1;
        }
        proof {
            sequence::lemma_find_first_none(all, p);
        }
        match runner.waited(waited) {
            Ok(_) => Ok(runner.run_report(owner_device_id, dispatch_index)),
            Err(e) => Err(e),
        }
    }
}

/// The sequences that were submitted before a failure, which have to be waited for.
pub fn submitted_before_failure(
    submissions: &Vec<VulkanDistributedShardSubmission>,
    failed: usize,
) -> (r: Vec<VulkanResidentKernelSequence>)
    requires
        failed <= submissions@.len(),
    ensures
        r.deep_view() == Seq::new(
            failed as nat,
            |i: int| submissions.deep_view()[i].sequence,
        ),
{
    let ghost all = submissions.deep_view();
    let mut sequences: Vec<VulkanResidentKernelSequence> = Vec::new();
    let mut i: usize = 0;
    while i < failed
        invariant
            i <= failed <= submissions@.len(),
            all == submissions.deep_view(),
            sequences@.len() == i,
            forall|j: int| 0 <= j < i ==> (#[trigger] sequences.deep_view()[j]) == all[j].sequence,
        decreases failed - i,
    {
        let ghost before = sequences.deep_view();
        sequences.push(submissions[i].sequence.clone());
        assert(sequences.deep_view() =~= before.push(all[i as int].sequence));
        i += 1;
    }
    sequences
}

/// The semaphores of a helper belong together: its wait for the owner imports the owner's ready
/// signal, and the owner's wait imports its done signal.
pub proof fn helper_semaphores_are_paired(
    owner: Seq<char>,
    helper: Seq<char>,
    group_index: int,
    helper_index: int,
)
    ensures
        ({
            let ends = helper_semaphores(owner, helper, group_index, helper_index);
            &&& device::imports_from(ends.ready_source, ends.ready_wait)
            &&& device::imports_from(ends.done_source, ends.done_wait)
            &&& !device::imports_from(ends.ready_source, ends.done_wait)
            &&& !device::imports_from(ends.done_source, ends.ready_wait)
            &&& ends.ready_source.device_id == owner && ends.ready_wait.device_id == helper
            &&& ends.done_source.device_id == helper && ends.done_wait.device_id == owner
        }),
{
}

} // verus!
