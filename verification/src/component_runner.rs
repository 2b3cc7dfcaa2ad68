//! Runners for the components of a device: their launches, one after the other.

use crate::circuit_mount::VulkanMountedPlacedStreamCircuit;
use crate::circuit_mount::VulkanMountedPlacedStreamCircuitView;
use crate::circuit_mount;
use crate::device::VulkanComputeDevice;
use crate::device::VulkanError;
use crate::device::VulkanResidentBuffer;
use crate::device::VulkanResidentBufferView;
use crate::device::VulkanResidentKernelDispatch;
use crate::device::VulkanResidentKernelDispatchView;
use crate::kernel_interface::VulkanKernelScalarBinding;
use crate::kernel_interface::VulkanKernelScalarBindingView;
use crate::kernel_interface;
use crate::mounted_dispatch::VulkanMountedPlacedBoundDispatch;
use crate::mounted_dispatch::VulkanMountedPlacedBoundDispatchPlan;
use crate::mounted_dispatch::VulkanMountedPlacedBoundDispatchPlanView;
use crate::mounted_dispatch::VulkanMountedPlacedBoundDispatchView;
use crate::resident_dispatch::VulkanMountedPlacedResidentKernelDispatchError;
use crate::resident_dispatch::VulkanMountedPlacedResidentKernelDispatchErrorView;
use crate::reusable_kernels::VulkanLoadedReusableKernelArtifactManifest;
use crate::reusable_kernels::VulkanLoadedReusableKernelArtifactManifestView;
use crate::sequence;
use crate::stream_control::VulkanMountedPlacedStreamControl;
use crate::stream_control::VulkanStreamControlWrite;
use crate::stream_control;
use crate::text;
use vstd::prelude::*;

verus! {

/// A launch of a component with its kernel and buffers.
#[derive(Debug, PartialEq, Eq)]
pub struct VulkanMountedPlacedResidentComponentDispatch {
    pub dispatch_index: usize,
    pub kernel_id: String,
    pub component_id: String,
    pub node_id: String,
    pub op: String,
    pub reusable_family_id: String,
    pub push_constants: Vec<VulkanKernelScalarBinding>,
    pub resident_dispatch: VulkanResidentKernelDispatch,
}

#[verifier::ext_equal]
pub struct VulkanMountedPlacedResidentComponentDispatchView {
    pub dispatch_index: usize,
    pub kernel_id: Seq<char>,
    pub component_id: Seq<char>,
    pub node_id: Seq<char>,
    pub op: Seq<char>,
    pub reusable_family_id: Seq<char>,
    pub push_constants: Seq<VulkanKernelScalarBindingView>,
    pub resident_dispatch: VulkanResidentKernelDispatchView,
}

impl DeepView for VulkanMountedPlacedResidentComponentDispatch {
    type V = VulkanMountedPlacedResidentComponentDispatchView;

    open spec fn deep_view(&self) -> VulkanMountedPlacedResidentComponentDispatchView {
        VulkanMountedPlacedResidentComponentDispatchView {
            dispatch_index: self.dispatch_index,
            kernel_id: self.kernel_id.deep_view(),
            component_id: self.component_id.deep_view(),
            node_id: self.node_id.deep_view(),
            op: self.op.deep_view(),
            reusable_family_id: self.reusable_family_id.deep_view(),
            push_constants: self.push_constants.deep_view(),
            resident_dispatch: self.resident_dispatch.deep_view(),
        }
    }
}

impl View for VulkanMountedPlacedResidentComponentDispatch {
    type V = VulkanMountedPlacedResidentComponentDispatchView;

    open spec fn view(&self) -> VulkanMountedPlacedResidentComponentDispatchView {
        self.deep_view()
    }
}

impl Clone for VulkanMountedPlacedResidentComponentDispatch {
    fn clone(&self) -> (r: Self)
        ensures
            r@ == self@,
    {
        VulkanMountedPlacedResidentComponentDispatch {
            dispatch_index: self.dispatch_index,
            kernel_id: self.kernel_id.clone(),
            component_id: self.component_id.clone(),
            node_id: self.node_id.clone(),
            op: self.op.clone(),
            reusable_family_id: self.reusable_family_id.clone(),
            push_constants: self.push_constants.clone(),
            resident_dispatch: self.resident_dispatch.clone(),
        }
    }
}

/// A launch that has run.
#[derive(Debug, PartialEq, Eq)]
pub struct VulkanMountedPlacedResidentComponentDispatchRun {
    pub dispatch_index: usize,
    pub kernel_id: String,
    pub node_id: String,
    pub op: String,
    pub reusable_family_id: String,
    pub descriptor_count: usize,
    pub workgroup_count_x: u32,
    pub push_constant_byte_count: u32,
    pub run_time_ns: u64,
}

#[verifier::ext_equal]
pub struct VulkanMountedPlacedResidentComponentDispatchRunView {
    pub dispatch_index: usize,
    pub kernel_id: Seq<char>,
    pub node_id: Seq<char>,
    pub op: Seq<char>,
    pub reusable_family_id: Seq<char>,
    pub descriptor_count: usize,
    pub workgroup_count_x: u32,
    pub push_constant_byte_count: u32,
    pub run_time_ns: u64,
}

impl DeepView for VulkanMountedPlacedResidentComponentDispatchRun {
    type V = VulkanMountedPlacedResidentComponentDispatchRunView;

    open spec fn deep_view(&self) -> VulkanMountedPlacedResidentComponentDispatchRunView {
        VulkanMountedPlacedResidentComponentDispatchRunView {
            dispatch_index: self.dispatch_index,
            kernel_id: self.kernel_id.deep_view(),
            node_id: self.node_id.deep_view(),
            op: self.op.deep_view(),
            reusable_family_id: self.reusable_family_id.deep_view(),
            descriptor_count: self.descriptor_count,
            workgroup_count_x: self.workgroup_count_x,
            push_constant_byte_count: self.push_constant_byte_count,
            run_time_ns: self.run_time_ns,
        }
    }
}

impl View for VulkanMountedPlacedResidentComponentDispatchRun {
    type V = VulkanMountedPlacedResidentComponentDispatchRunView;

    open spec fn view(&self) -> VulkanMountedPlacedResidentComponentDispatchRunView {
        self.deep_view()
    }
}

impl Clone for VulkanMountedPlacedResidentComponentDispatchRun {
    fn clone(&self) -> (r: Self)
        ensures
            r@ == self@,
    {
        VulkanMountedPlacedResidentComponentDispatchRun {
            dispatch_index: self.dispatch_index,
            kernel_id: self.kernel_id.clone(),
            node_id: self.node_id.clone(),
            op: self.op.clone(),
            reusable_family_id: self.reusable_family_id.clone(),
            descriptor_count: self.descriptor_count,
            workgroup_count_x: self.workgroup_count_x,
            push_constant_byte_count: self.push_constant_byte_count,
            run_time_ns: self.run_time_ns,
        }
    }
}

/// A run of a component.
#[derive(Debug, PartialEq, Eq)]
pub struct VulkanMountedPlacedResidentComponentRun {
    pub component_id: String,
    pub dispatch_runs: Vec<VulkanMountedPlacedResidentComponentDispatchRun>,
}

#[verifier::ext_equal]
pub struct VulkanMountedPlacedResidentComponentRunView {
    pub component_id: Seq<char>,
    pub dispatch_runs: Seq<VulkanMountedPlacedResidentComponentDispatchRunView>,
}

impl DeepView for VulkanMountedPlacedResidentComponentRun {
    type V = VulkanMountedPlacedResidentComponentRunView;

    open spec fn deep_view(&self) -> VulkanMountedPlacedResidentComponentRunView {
        VulkanMountedPlacedResidentComponentRunView {
            component_id: self.component_id.deep_view(),
            dispatch_runs: self.dispatch_runs.deep_view(),
        }
    }
}

impl View for VulkanMountedPlacedResidentComponentRun {
    type V = VulkanMountedPlacedResidentComponentRunView;

    open spec fn view(&self) -> VulkanMountedPlacedResidentComponentRunView {
        self.deep_view()
    }
}

impl Clone for VulkanMountedPlacedResidentComponentRun {
    fn clone(&self) -> (r: Self)
        ensures
            r@ == self@,
    {
        VulkanMountedPlacedResidentComponentRun {
            component_id: self.component_id.clone(),
            dispatch_runs: self.dispatch_runs.clone(),
        }
    }
}

/// The launches of one component.
#[derive(Debug, PartialEq, Eq)]
pub struct VulkanMountedPlacedResidentComponentRunner {
    pub component_id: String,
    pub dispatches: Vec<VulkanMountedPlacedResidentComponentDispatch>,
    pub total_descriptor_count: usize,
    pub total_push_constant_byte_count: u32,
    pub stream_control_buffer: VulkanResidentBuffer,
}

#[verifier::ext_equal]
pub struct VulkanMountedPlacedResidentComponentRunnerView {
    pub component_id: Seq<char>,
    pub dispatches: Seq<VulkanMountedPlacedResidentComponentDispatchView>,
    pub total_descriptor_count: usize,
    pub total_push_constant_byte_count: u32,
    pub stream_control_buffer: VulkanResidentBufferView,
}

impl DeepView for VulkanMountedPlacedResidentComponentRunner {
    type V = VulkanMountedPlacedResidentComponentRunnerView;

    open spec fn deep_view(&self) -> VulkanMountedPlacedResidentComponentRunnerView {
        VulkanMountedPlacedResidentComponentRunnerView {
            component_id: self.component_id.deep_view(),
            dispatches: self.dispatches.deep_view(),
            total_descriptor_count: self.total_descriptor_count,
            total_push_constant_byte_count: self.total_push_constant_byte_count,
            stream_control_buffer: self.stream_control_buffer.deep_view(),
        }
    }
}

impl View for VulkanMountedPlacedResidentComponentRunner {
    type V = VulkanMountedPlacedResidentComponentRunnerView;

    open spec fn view(&self) -> VulkanMountedPlacedResidentComponentRunnerView {
        self.deep_view()
    }
}

impl Clone for VulkanMountedPlacedResidentComponentRunner {
    fn clone(&self) -> (r: Self)
        ensures
            r@ == self@,
    {
        VulkanMountedPlacedResidentComponentRunner {
            component_id: self.component_id.clone(),
            dispatches: self.dispatches.clone(),
            total_descriptor_count: self.total_descriptor_count,
            total_push_constant_byte_count: self.total_push_constant_byte_count,
            stream_control_buffer: self.stream_control_buffer.clone(),
        }
    }
}

/// The components of a device, in the order in which they run.
#[derive(Debug, PartialEq, Eq)]
pub struct VulkanMountedPlacedResidentExecutionGraphRunner {
    pub device_id: String,
    pub components: Vec<VulkanMountedPlacedResidentComponentRunner>,
    pub total_descriptor_count: usize,
    pub total_push_constant_byte_count: u32,
}

#[verifier::ext_equal]
pub struct VulkanMountedPlacedResidentExecutionGraphRunnerView {
    pub device_id: Seq<char>,
    pub components: Seq<VulkanMountedPlacedResidentComponentRunnerView>,
    pub total_descriptor_count: usize,
    pub total_push_constant_byte_count: u32,
}

impl DeepView for VulkanMountedPlacedResidentExecutionGraphRunner {
    type V = VulkanMountedPlacedResidentExecutionGraphRunnerView;

    open spec fn deep_view(&self) -> VulkanMountedPlacedResidentExecutionGraphRunnerView {
        VulkanMountedPlacedResidentExecutionGraphRunnerView {
            device_id: self.device_id.deep_view(),
            components: self.components.deep_view(),
            total_descriptor_count: self.total_descriptor_count,
            total_push_constant_byte_count: self.total_push_constant_byte_count,
        }
    }
}

impl View for VulkanMountedPlacedResidentExecutionGraphRunner {
    type V = VulkanMountedPlacedResidentExecutionGraphRunnerView;

    open spec fn view(&self) -> VulkanMountedPlacedResidentExecutionGraphRunnerView {
        self.deep_view()
    }
}

impl Clone for VulkanMountedPlacedResidentExecutionGraphRunner {
    fn clone(&self) -> (r: Self)
        ensures
            r@ == self@,
    {
        VulkanMountedPlacedResidentExecutionGraphRunner {
            device_id: self.device_id.clone(),
            components: self.components.clone(),
            total_descriptor_count: self.total_descriptor_count,
            total_push_constant_byte_count: self.total_push_constant_byte_count,
        }
    }
}

/// A run of a device's components.
#[derive(Debug, PartialEq, Eq)]
pub struct VulkanMountedPlacedResidentExecutionGraphRun {
    pub device_id: String,
    pub component_runs: Vec<VulkanMountedPlacedResidentComponentRun>,
}

#[verifier::ext_equal]
pub struct VulkanMountedPlacedResidentExecutionGraphRunView {
    pub device_id: Seq<char>,
    pub component_runs: Seq<VulkanMountedPlacedResidentComponentRunView>,
}

impl DeepView for VulkanMountedPlacedResidentExecutionGraphRun {
    type V = VulkanMountedPlacedResidentExecutionGraphRunView;

    open spec fn deep_view(&self) -> VulkanMountedPlacedResidentExecutionGraphRunView {
        VulkanMountedPlacedResidentExecutionGraphRunView {
            device_id: self.device_id.deep_view(),
            component_runs: self.component_runs.deep_view(),
        }
    }
}

impl View for VulkanMountedPlacedResidentExecutionGraphRun {
    type V = VulkanMountedPlacedResidentExecutionGraphRunView;

    open spec fn view(&self) -> VulkanMountedPlacedResidentExecutionGraphRunView {
        self.deep_view()
    }
}

impl Clone for VulkanMountedPlacedResidentExecutionGraphRun {
    fn clone(&self) -> (r: Self)
        ensures
            r@ == self@,
    {
        VulkanMountedPlacedResidentExecutionGraphRun {
            device_id: self.device_id.clone(),
            component_runs: self.component_runs.clone(),
        }
    }
}

/// A launch with its kernel.
pub open spec fn launch_of(
    dispatch: VulkanMountedPlacedBoundDispatchView,
    resident: VulkanResidentKernelDispatchView,
) -> VulkanMountedPlacedResidentComponentDispatchView {
    VulkanMountedPlacedResidentComponentDispatchView {
        dispatch_index: dispatch.dispatch_index,
        kernel_id: dispatch.kernel_id,
        component_id: dispatch.component_id,
        node_id: dispatch.node_id,
        op: dispatch.op,
        reusable_family_id: dispatch.reusable_family_id,
        push_constants: dispatch.push_constants,
        resident_dispatch: resident,
    }
}

/// A launch with its kernel.
pub(crate) fn launch(
    dispatch: &VulkanMountedPlacedBoundDispatch,
    resident_dispatch: VulkanResidentKernelDispatch,
) -> (r: VulkanMountedPlacedResidentComponentDispatch)
    ensures
        r@ == launch_of(dispatch@, resident_dispatch@),
{
    VulkanMountedPlacedResidentComponentDispatch {
        dispatch_index: dispatch.dispatch_index,
        kernel_id: dispatch.kernel_id.clone(),
        component_id: dispatch.component_id.clone(),
        node_id: dispatch.node_id.clone(),
        op: dispatch.op.clone(),
        reusable_family_id: dispatch.reusable_family_id.clone(),
        push_constants: kernel_interface::copy_scalars(&dispatch.push_constants),
        resident_dispatch,
    }
}

/// The launches of a component that were made so far, with what they add up to.
#[verifier::ext_equal]
pub struct ComponentLaunches {
    pub dispatches: Seq<VulkanMountedPlacedResidentComponentDispatchView>,
    pub descriptors: usize,
    pub push_constant_bytes: u32,
}

/// How a launch is added to those of a component; launches of other components are passed over.
pub open spec fn component_step(
    mounted: VulkanMountedPlacedStreamCircuitView,
    device_id: Seq<char>,
    component_id: Seq<char>,
    loaded: VulkanLoadedReusableKernelArtifactManifestView,
) -> spec_fn(ComponentLaunches, VulkanMountedPlacedBoundDispatchView) -> Result<
    ComponentLaunches,
    VulkanMountedPlacedResidentKernelDispatchErrorView,
> {
    |done: ComponentLaunches, dispatch: VulkanMountedPlacedBoundDispatchView|
        if dispatch.component_id != component_id {
            Ok(done)
        } else {
            match circuit_mount::resident_launch(mounted, device_id, dispatch, loaded) {
                Err(error) => Err(error),
                Ok(resident) => if done.descriptors + resident.bindings.len() > usize::MAX {
                    Err(
                        VulkanMountedPlacedResidentKernelDispatchErrorView::ComponentRunnerDescriptorCountOverflow {
                            component_id,
                        },
                    )
                } else if done.push_constant_bytes + resident.push_constant_byte_count > u32::MAX {
                    Err(
                        VulkanMountedPlacedResidentKernelDispatchErrorView::ComponentRunnerPushConstantByteCountOverflow {
                            component_id,
                        },
                    )
                } else {
                    Ok(
                        ComponentLaunches {
                            dispatches: done.dispatches.push(launch_of(dispatch, resident)),
                            descriptors: (done.descriptors + resident.bindings.len()) as usize,
                            push_constant_bytes: (done.push_constant_bytes
                                + resident.push_constant_byte_count) as u32,
                        },
                    )
                },
            }
        }
}

/// No launches yet.
pub open spec fn no_launches() -> ComponentLaunches {
    ComponentLaunches { dispatches: Seq::empty(), descriptors: 0, push_constant_bytes: 0 }
}

/// The runner of a component.
#[verifier::opaque]
pub open spec fn component_runner(
    mounted: VulkanMountedPlacedStreamCircuitView,
    device_id: Seq<char>,
    plan: VulkanMountedPlacedBoundDispatchPlanView,
    component_id: Seq<char>,
    loaded: VulkanLoadedReusableKernelArtifactManifestView,
) -> Result<
    VulkanMountedPlacedResidentComponentRunnerView,
    VulkanMountedPlacedResidentKernelDispatchErrorView,
> {
    match sequence::try_fold(
        plan.dispatches,
        no_launches(),
        component_step(mounted, device_id, component_id, loaded),
    ) {
        Err(error) => Err(error),
        Ok(done) => if done.dispatches.len() == 0 {
            Err(
                VulkanMountedPlacedResidentKernelDispatchErrorView::MissingComponentDispatches {
                    component_id,
                },
            )
        } else {
            Ok(
                VulkanMountedPlacedResidentComponentRunnerView {
                    component_id,
                    dispatches: done.dispatches,
                    total_descriptor_count: done.descriptors,
                    total_push_constant_byte_count: done.push_constant_bytes,
                    stream_control_buffer: mounted.stream_control_buffer,
                },
            )
        },
    }
}

/// A launch that took this long.
pub open spec fn dispatch_run(
    dispatch: VulkanMountedPlacedResidentComponentDispatchView,
    run_time_ns: u64,
) -> VulkanMountedPlacedResidentComponentDispatchRunView {
    VulkanMountedPlacedResidentComponentDispatchRunView {
        dispatch_index: dispatch.dispatch_index,
        kernel_id: dispatch.kernel_id,
        node_id: dispatch.node_id,
        op: dispatch.op,
        reusable_family_id: dispatch.reusable_family_id,
        descriptor_count: dispatch.resident_dispatch.bindings.len() as usize,
        workgroup_count_x: dispatch.resident_dispatch.workgroup_count_x,
        push_constant_byte_count: dispatch.resident_dispatch.push_constant_byte_count,
        run_time_ns,
    }
}

/// A launch that took this long.
pub(crate) fn run_of(
    dispatch: &VulkanMountedPlacedResidentComponentDispatch,
    run_time_ns: u64,
) -> (r: VulkanMountedPlacedResidentComponentDispatchRun)
    ensures
        r@ == dispatch_run(dispatch@, run_time_ns),
{
    VulkanMountedPlacedResidentComponentDispatchRun {
        dispatch_index: dispatch.dispatch_index,
        kernel_id: dispatch.kernel_id.clone(),
        node_id: dispatch.node_id.clone(),
        op: dispatch.op.clone(),
        reusable_family_id: dispatch.reusable_family_id.clone(),
        descriptor_count: dispatch.resident_dispatch.descriptor_count(),
        workgroup_count_x: dispatch.resident_dispatch.workgroup_count_x,
        push_constant_byte_count: dispatch.resident_dispatch.push_constant_byte_count,
        run_time_ns,
    }
}

/// What a device answers for a launch: how long it took, or why it failed.
pub type LaunchAnswer = Result<u64, Seq<char>>;

/// The bytes of a launch's push constants, or why there are none.
pub type PushConstantBytes = Result<Seq<u8>, VulkanMountedPlacedResidentKernelDispatchErrorView>;

/// The first `n` launches, run one after the other with the given push constants, up to the first
/// failure.
pub open spec fn dispatch_runs(
    dispatches: Seq<VulkanMountedPlacedResidentComponentDispatchView>,
    push_constants: Seq<PushConstantBytes>,
    answers: Seq<LaunchAnswer>,
    n: nat,
) -> Result<
    Seq<VulkanMountedPlacedResidentComponentDispatchRunView>,
    VulkanMountedPlacedResidentKernelDispatchErrorView,
>
    decreases n,
{
    if n == 0 {
        Ok(Seq::empty())
    } else {
        match dispatch_runs(dispatches, push_constants, answers, (n - 1) as nat) {
            Err(error) => Err(error),
            Ok(done) => match push_constants[n - 1] {
                Err(error) => Err(error),
                Ok(_) => match answers[n - 1] {
                    Err(error) => Err(
                        VulkanMountedPlacedResidentKernelDispatchErrorView::Vulkan(error),
                    ),
                    Ok(run_time_ns) => Ok(
                        done.push(dispatch_run(dispatches[n - 1], run_time_ns)),
                    ),
                },
            },
        }
    }
}

proof fn lemma_dispatch_runs_error(
    dispatches: Seq<VulkanMountedPlacedResidentComponentDispatchView>,
    push_constants: Seq<PushConstantBytes>,
    answers: Seq<LaunchAnswer>,
    i: nat,
    n: nat,
)
    requires
        i <= n,
        dispatch_runs(dispatches, push_constants, answers, i) is Err,
    ensures
        dispatch_runs(dispatches, push_constants, answers, n) == dispatch_runs(
            dispatches,
            push_constants,
            answers,
            i,
        ),
    decreases n - i,
{
    if i < n {
        lemma_dispatch_runs_error(dispatches, push_constants, answers, i + 1, n);
    }
}

/// Whether the answers reach as far as the launches get: there are push constants for each launch
/// that is reached, and an answer for each that is launched.
pub open spec fn answered(
    dispatches: Seq<VulkanMountedPlacedResidentComponentDispatchView>,
    push_constants: Seq<PushConstantBytes>,
    answers: Seq<LaunchAnswer>,
) -> bool {
    forall|k: nat|
        k < dispatches.len() && (#[trigger] dispatch_runs(
            dispatches,
            push_constants,
            answers,
            k,
        )) is Ok ==> k < push_constants.len() && (push_constants[k as int] is Ok ==> k
            < answers.len())
}

/// Zeros for the push constants of each launch.
pub open spec fn zeroed(dispatches: Seq<VulkanMountedPlacedResidentComponentDispatchView>) -> Seq<
    PushConstantBytes,
> {
    Seq::new(
        dispatches.len(),
        |i: int|
            Ok(
                Seq::new(
                    dispatches[i].resident_dispatch.push_constant_byte_count as nat,
                    |k: int| 0u8,
                ),
            ),
    )
}

/// A run of a component.
pub open spec fn component_run(
    runner: VulkanMountedPlacedResidentComponentRunnerView,
    push_constants: Seq<PushConstantBytes>,
    answers: Seq<LaunchAnswer>,
) -> Result<
    VulkanMountedPlacedResidentComponentRunView,
    VulkanMountedPlacedResidentKernelDispatchErrorView,
> {
    match dispatch_runs(runner.dispatches, push_constants, answers, runner.dispatches.len()) {
        Err(error) => Err(error),
        Ok(dispatch_runs) => Ok(
            VulkanMountedPlacedResidentComponentRunView {
                component_id: runner.component_id,
                dispatch_runs,
            },
        ),
    }
}

/// A run of a component's recorded launches, none of which is timed.
pub open spec fn sequence_run(
    runner: VulkanMountedPlacedResidentComponentRunnerView,
) -> VulkanMountedPlacedResidentComponentRunView {
    VulkanMountedPlacedResidentComponentRunView {
        component_id: runner.component_id,
        dispatch_runs: runner.dispatches.map_values(untimed()),
    }
}

/// A launch that was not timed.
pub open spec fn untimed() -> spec_fn(VulkanMountedPlacedResidentComponentDispatchView) -> VulkanMountedPlacedResidentComponentDispatchRunView {
    |dispatch: VulkanMountedPlacedResidentComponentDispatchView| dispatch_run(dispatch, 0)
}

/// The time that launches took together, as far as it can be counted.
pub open spec fn total_time(runs: Seq<VulkanMountedPlacedResidentComponentDispatchRunView>) -> u64
    decreases runs.len(),
{
    if runs.len() == 0 {
        0
    } else {
        let front = total_time(runs.drop_last());
        if front + runs.last().run_time_ns > u64::MAX {
            u64::MAX
        } else {
            (front + runs.last().run_time_ns) as u64
        }
    }
}

impl VulkanMountedPlacedResidentComponentRun {
    /// The number of launches.
    pub fn dispatch_count(&self) -> (r: usize)
        ensures
            r == self@.dispatch_runs.len(),
    {
        assert(self@.dispatch_runs.len() == self.dispatch_runs@.len());
        self.dispatch_runs.len()
    }

    /// The time that the launches took together, as far as it can be counted.
    #[verifier::loop_isolation(false)]
    pub fn run_time_ns(&self) -> (r: u64)
        ensures
            r == total_time(self@.dispatch_runs),
    {
        let ghost all = self.dispatch_runs.deep_view();
        let mut total: u64 = 0;
        let mut i: usize = 0;
        assert(all.take(0) =~= Seq::empty());
        while i < self.dispatch_runs.len()
            invariant
                i <= self.dispatch_runs.len(),
                total == total_time(all.take(i as int)),
            decreases self.dispatch_runs.len() - i,
        {
            assert(all.take(i + 1).drop_last() =~= all.take(i as int));
            assert(all[i as int] == self.dispatch_runs@[i as int]@);
            total = total.saturating_add(self.dispatch_runs[i].run_time_ns);
            i += 1;
        }
        assert(all.take(all.len() as int) =~= all);
        total
    }

    /// The nodes that were launched.
    #[verifier::loop_isolation(false)]
    pub fn node_ids(&self) -> (r: Vec<&str>)
        ensures
            r.deep_view() == self@.dispatch_runs.map_values(node_of_run()),
    {
        let ghost all_ids = self.dispatch_runs.deep_view();
        let ghost step_ids = node_of_run();
        let mut ids: Vec<&str> = Vec::new();
        let mut i: usize = 0;
        while i < self.dispatch_runs.len()
            invariant
                i <= self.dispatch_runs.len(),
                ids@.len() == i,
                forall|j: int| 0 <= j < i ==> (#[trigger] ids.deep_view()[j]) == step_ids(all_ids[j]),
            decreases self.dispatch_runs.len() - i,
        {
            let item = &self.dispatch_runs[i];
            assert(all_ids[i as int] == item.deep_view());
            let added = item.node_id.as_str();
            let ghost before = ids.deep_view();
            let ghost value = added.deep_view();
            ids.push(added);
            assert(ids.deep_view() =~= before.push(value));
            i += 1;
        }
        assert(ids.deep_view() =~= all_ids.map_values(step_ids));
        ids
    }
}

/// The node of a launch.
pub open spec fn node_of_run() -> spec_fn(VulkanMountedPlacedResidentComponentDispatchRunView) -> Seq<
    char,
> {
    |run: VulkanMountedPlacedResidentComponentDispatchRunView| run.node_id
}

impl VulkanMountedPlacedResidentComponentRunner {
    /// Gathers the launches of a component.
    #[verifier::loop_isolation(false)]
    pub fn from_mounted_bound_plan(
        device: &VulkanComputeDevice,
        mounted: &VulkanMountedPlacedStreamCircuit,
        mounted_bound_plan: &VulkanMountedPlacedBoundDispatchPlan,
        component_id: &str,
        loaded_manifest: &VulkanLoadedReusableKernelArtifactManifest,
    ) -> (r: Result<Self, VulkanMountedPlacedResidentKernelDispatchError>)
        ensures
            sequence::outcome(r) == component_runner(
                mounted@,
                device@.device_id,
                mounted_bound_plan@,
                component_id@,
                loaded_manifest@,
            ),
    {
        reveal(component_runner);
        let ghost all = mounted_bound_plan.dispatches.deep_view();
        let ghost init = no_launches();
        let ghost step = component_step(
            mounted@,
            device@.device_id,
            component_id@,
            loaded_manifest@,
        );
        let mut dispatches: Vec<VulkanMountedPlacedResidentComponentDispatch> = Vec::new();
        let mut total_descriptor_count: usize = 0;
        let mut total_push_constant_byte_count: u32 = 0;
        let mut i: usize = 0;
        assert(all.take(0) =~= Seq::empty());
        assert(dispatches.deep_view() =~= Seq::empty());
        while i < mounted_bound_plan.dispatches.len()
            invariant
                i <= mounted_bound_plan.dispatches.len(),
                sequence::try_fold(all.take(i as int), init, step) == Ok::<
                    ComponentLaunches,
                    VulkanMountedPlacedResidentKernelDispatchErrorView,
                >(
                    ComponentLaunches {
                        dispatches: dispatches.deep_view(),
                        descriptors: total_descriptor_count,
                        push_constant_bytes: total_push_constant_byte_count,
                    },
                ),
            decreases mounted_bound_plan.dispatches.len() - i,
        {
            let dispatch = &mounted_bound_plan.dispatches[i];
            proof {
                assert(all[i as int] == dispatch@);
                sequence::lemma_try_fold_step(all, init, step, i as int);
                if sequence::try_fold(all.take(i + 1), init, step) is Err {
                    sequence::lemma_try_fold_error(all, init, step, i + 1);
                }
            }
            if text::same(dispatch.component_id.as_str(), component_id) {
                let resident_dispatch: VulkanResidentKernelDispatch =
                    match mounted.create_resident_kernel_dispatch_for_bound_dispatch(
                    device,
                    dispatch,
                    loaded_manifest,
                ) {
                    Err(error) => {
                        return Err(error);
                    },
                    Ok(resident_dispatch) => resident_dispatch,
                };
                match total_descriptor_count.checked_add(resident_dispatch.descriptor_count()) {
                    None => {
                        return Err(
                            VulkanMountedPlacedResidentKernelDispatchError::ComponentRunnerDescriptorCountOverflow {
                                component_id: component_id.to_owned(),
                            },
                        );
                    },
                    Some(sum) => {
                        total_descriptor_count = sum;
                    },
                }
                match total_push_constant_byte_count.checked_add(
                    resident_dispatch.push_constant_byte_count,
                ) {
                    None => {
                        return Err(
                            VulkanMountedPlacedResidentKernelDispatchError::ComponentRunnerPushConstantByteCountOverflow {
                                component_id: component_id.to_owned(),
                            },
                        );
                    },
                    Some(sum) => {
                        total_push_constant_byte_count = sum;
                    },
                }
                let ghost before = dispatches.deep_view();
                let added = launch(dispatch, resident_dispatch);
                let ghost value = added@;
                dispatches.push(added);
                assert(dispatches.deep_view() =~= before.push(value));
            }
            i += 1;
        }
        assert(all.take(all.len() as int) =~= all);
        assert(dispatches.deep_view().len() == dispatches@.len());
        if dispatches.len() == 0 {
            return Err(
                VulkanMountedPlacedResidentKernelDispatchError::MissingComponentDispatches {
                    component_id: component_id.to_owned(),
                },
            );
        }
        Ok(
            VulkanMountedPlacedResidentComponentRunner {
                component_id: component_id.to_owned(),
                dispatches,
                total_descriptor_count,
                total_push_constant_byte_count,
                stream_control_buffer: mounted.stream_control_buffer.clone(),
            },
        )
    }

    /// The number of launches.
    pub fn dispatch_count(&self) -> (r: usize)
        ensures
            r == self@.dispatches.len(),
    {
        assert(self@.dispatches.len() == self.dispatches@.len());
        self.dispatches.len()
    }

    /// The push constants with which a run without stream control launches: zeros.
    #[verifier::loop_isolation(false)]
    pub fn zeroed_push_constants(&self) -> (r: Vec<
        Result<Vec<u8>, VulkanMountedPlacedResidentKernelDispatchError>,
    >)
        ensures
            sequence::outcomes(r@) == zeroed(self@.dispatches),
    {
        let ghost all = self.dispatches.deep_view();
        let mut list: Vec<Result<Vec<u8>, VulkanMountedPlacedResidentKernelDispatchError>> =
            Vec::new();
        let mut i: usize = 0;
        while i < self.dispatches.len()
            invariant
                i <= self.dispatches.len(),
                list@.len() == i,
                forall|k: int|
                    0 <= k < i ==> sequence::outcome(#[trigger] list@[k]) == zeroed(all)[k],
            decreases self.dispatches.len() - i,
        {
            assert(all[i as int] == self.dispatches@[i as int]@);
            let count: u32 = self.dispatches[i].resident_dispatch.push_constant_byte_count;
            let mut bytes: Vec<u8> = Vec::new();
            let mut k: u32 = 0;
            while k < count
                invariant
                    k <= count,
                    bytes@ == Seq::new(k as nat, |j: int| 0u8),
                decreases count - k,
            {
                bytes.push(0);
                k += 1;
                assert(bytes@ =~= Seq::new(k as nat, |j: int| 0u8));
            }
            assert(bytes.deep_view() =~= Seq::new(count as nat, |j: int| 0u8));
            list.push(Ok(bytes));
            i += 1;
        }
        assert(sequence::outcomes(list@) =~= zeroed(all));
        list
    }

    /// The run of the component with zeroed push constants, from what the device answered for its
    /// launches.
    pub fn run_zeroed_push_constants(&self, answers: &Vec<Result<u64, VulkanError>>) -> (r: Result<
        VulkanMountedPlacedResidentComponentRun,
        VulkanMountedPlacedResidentKernelDispatchError,
    >)
        requires
            answered(self@.dispatches, zeroed(self@.dispatches), sequence::outcomes(answers@)),
        ensures
            sequence::outcome(r) == component_run(
                self@,
                zeroed(self@.dispatches),
                sequence::outcomes(answers@),
            ),
    {
        let push_constants: Vec<
            Result<Vec<u8>, VulkanMountedPlacedResidentKernelDispatchError>,
        > = self.zeroed_push_constants();
        self.run_with_push_constant_bytes(&push_constants, answers)
    }

    /// What is written before the launches run under stream control.
    pub fn stream_control_write(&self, control: VulkanMountedPlacedStreamControl) -> (r:
        VulkanStreamControlWrite)
        ensures
            r@ == stream_control::control_write(self@.stream_control_buffer, control),
    {
        VulkanStreamControlWrite::into_buffer(&self.stream_control_buffer, control)
    }

    /// The run of the component under stream control, from what came of writing the control
    /// buffer, the push constants of its launches, and what the device answered for them.
    pub fn run_with_stream_control(
        &self,
        written: &Result<(), VulkanError>,
        push_constants: &Vec<Result<Vec<u8>, VulkanMountedPlacedResidentKernelDispatchError>>,
        answers: &Vec<Result<u64, VulkanError>>,
    ) -> (r: Result<
        VulkanMountedPlacedResidentComponentRun,
        VulkanMountedPlacedResidentKernelDispatchError,
    >)
        requires
            written is Ok ==> answered(
                self@.dispatches,
                sequence::outcomes(push_constants@),
                sequence::outcomes(answers@),
            ),
        ensures
            sequence::outcome(r) == (match sequence::outcome(*written) {
                Err(error) => Err(
                    VulkanMountedPlacedResidentKernelDispatchErrorView::Vulkan(error),
                ),
                Ok(_) => component_run(
                    self@,
                    sequence::outcomes(push_constants@),
                    sequence::outcomes(answers@),
                ),
            }),
    {
        match written {
            Err(error) => Err(VulkanMountedPlacedResidentKernelDispatchError::Vulkan(error.clone())),
            Ok(_) => self.run_with_push_constant_bytes(push_constants, answers),
        }
    }

    #[verifier::loop_isolation(false)]
    fn run_with_push_constant_bytes(
        &self,
        push_constants: &Vec<Result<Vec<u8>, VulkanMountedPlacedResidentKernelDispatchError>>,
        answers: &Vec<Result<u64, VulkanError>>,
    ) -> (r: Result<
        VulkanMountedPlacedResidentComponentRun,
        VulkanMountedPlacedResidentKernelDispatchError,
    >)
        requires
            answered(
                self@.dispatches,
                sequence::outcomes(push_constants@),
                sequence::outcomes(answers@),
            ),
        ensures
            sequence::outcome(r) == component_run(
                self@,
                sequence::outcomes(push_constants@),
                sequence::outcomes(answers@),
            ),
    {
        let ghost all = self.dispatches.deep_view();
        let ghost bytes = sequence::outcomes(push_constants@);
        let ghost replies = sequence::outcomes(answers@);
        let mut runs: Vec<VulkanMountedPlacedResidentComponentDispatchRun> = Vec::new();
        let mut i: usize = 0;
        assert(runs.deep_view() =~= Seq::empty());
        while i < self.dispatches.len()
            invariant
                i <= self.dispatches.len(),
                dispatch_runs(all, bytes, replies, i as nat) == Ok::<
                    Seq<VulkanMountedPlacedResidentComponentDispatchRunView>,
                    VulkanMountedPlacedResidentKernelDispatchErrorView,
                >(runs.deep_view()),
            decreases self.dispatches.len() - i,
        {
            proof {
                assert(all[i as int] == self.dispatches@[i as int]@);
                assert(dispatch_runs(all, bytes, replies, i as nat) is Ok);
                assert(bytes[i as int] == sequence::outcome(push_constants@[i as int]));
                if dispatch_runs(all, bytes, replies, (i + 1) as nat) is Err {
                    lemma_dispatch_runs_error(all, bytes, replies, (i + 1) as nat, all.len());
                }
            }
            match &push_constants[i] {
                Err(error) => {
                    return Err(error.clone());
                },
                Ok(_) => {},
            }
            assert(replies[i as int] == sequence::outcome(answers@[i as int]));
            match &answers[i] {
                Err(error) => {
                    return Err(
                        VulkanMountedPlacedResidentKernelDispatchError::Vulkan(error.clone()),
                    );
                },
                Ok(run_time_ns) => {
                    let ghost before = runs.deep_view();
                    let added = run_of(&self.dispatches[i], *run_time_ns);
                    let ghost value = added@;
                    runs.push(added);
                    assert(runs.deep_view() =~= before.push(value));
                },
            }
            i += 1;
        }
        Ok(
            VulkanMountedPlacedResidentComponentRun {
                component_id: self.component_id.clone(),
                dispatch_runs: runs,
            },
        )
    }

    /// The run of the component's recorded launches. A recorded sequence has one measurable
    /// boundary, so that no launch of it is timed.
    #[verifier::loop_isolation(false)]
    pub fn completed_sequence_run(&self) -> (r: VulkanMountedPlacedResidentComponentRun)
        ensures
            r@ == sequence_run(self@),
    {
        let ghost all_runs = self.dispatches.deep_view();
        let ghost step_runs = untimed();
        let mut runs: Vec<VulkanMountedPlacedResidentComponentDispatchRun> = Vec::new();
        let mut i: usize = 0;
        while i < self.dispatches.len()
            invariant
                i <= self.dispatches.len(),
                runs@.len() == i,
                forall|j: int| 0 <= j < i ==> (#[trigger] runs.deep_view()[j]) == step_runs(all_runs[j]),
            decreases self.dispatches.len() - i,
        {
            let item = &self.dispatches[i];
            assert(all_runs[i as int] == item.deep_view());
            let added = run_of(item, 0);
            let ghost before = runs.deep_view();
            let ghost value = added.deep_view();
            runs.push(added);
            assert(runs.deep_view() =~= before.push(value));
            i += 1;
        }
        assert(runs.deep_view() =~= all_runs.map_values(step_runs));
        VulkanMountedPlacedResidentComponentRun {
            component_id: self.component_id.clone(),
            dispatch_runs: runs,
        }
    }
}

// ---------------------------------------------------------------------------
// The components of a device
// ---------------------------------------------------------------------------

/// The runners of a device's components that were made so far, with what they add up to.
#[verifier::ext_equal]
pub struct ExecutionGraphRunners {
    pub components: Seq<VulkanMountedPlacedResidentComponentRunnerView>,
    pub descriptors: usize,
    pub push_constant_bytes: u32,
}

/// How a component joins a device's runner.
pub open spec fn execution_graph_step(
    mounted: VulkanMountedPlacedStreamCircuitView,
    device_id: Seq<char>,
    plan: VulkanMountedPlacedBoundDispatchPlanView,
    loaded: VulkanLoadedReusableKernelArtifactManifestView,
) -> spec_fn(ExecutionGraphRunners, Seq<char>) -> Result<
    ExecutionGraphRunners,
    VulkanMountedPlacedResidentKernelDispatchErrorView,
> {
    |done: ExecutionGraphRunners, component_id: Seq<char>|
        match component_runner(mounted, device_id, plan, component_id, loaded) {
            Err(error) => Err(error),
            Ok(runner) => if done.descriptors + runner.total_descriptor_count > usize::MAX {
                Err(
                    VulkanMountedPlacedResidentKernelDispatchErrorView::ExecutionGraphRunnerDescriptorCountOverflow {
                        device_id: plan.device_id,
                    },
                )
            } else if done.push_constant_bytes + runner.total_push_constant_byte_count > u32::MAX {
                Err(
                    VulkanMountedPlacedResidentKernelDispatchErrorView::ExecutionGraphRunnerPushConstantByteCountOverflow {
                        device_id: plan.device_id,
                    },
                )
            } else {
                Ok(
                    ExecutionGraphRunners {
                        components: done.components.push(runner),
                        descriptors: (done.descriptors + runner.total_descriptor_count) as usize,
                        push_constant_bytes: (done.push_constant_bytes
                            + runner.total_push_constant_byte_count) as u32,
                    },
                )
            },
        }
}

/// No components yet.
pub open spec fn no_runners() -> ExecutionGraphRunners {
    ExecutionGraphRunners { components: Seq::empty(), descriptors: 0, push_constant_bytes: 0 }
}

/// The runner of a device's components.
pub open spec fn execution_graph_runner(
    mounted: VulkanMountedPlacedStreamCircuitView,
    device_id: Seq<char>,
    plan: VulkanMountedPlacedBoundDispatchPlanView,
    component_ids: Seq<Seq<char>>,
    loaded: VulkanLoadedReusableKernelArtifactManifestView,
) -> Result<
    VulkanMountedPlacedResidentExecutionGraphRunnerView,
    VulkanMountedPlacedResidentKernelDispatchErrorView,
> {
    match sequence::try_fold(
        component_ids,
        no_runners(),
        execution_graph_step(mounted, device_id, plan, loaded),
    ) {
        Err(error) => Err(error),
        Ok(done) => if done.components.len() == 0 {
            Err(
                VulkanMountedPlacedResidentKernelDispatchErrorView::MissingExecutionGraphComponents {
                    device_id: plan.device_id,
                },
            )
        } else {
            Ok(
                VulkanMountedPlacedResidentExecutionGraphRunnerView {
                    device_id: plan.device_id,
                    components: done.components,
                    total_descriptor_count: done.descriptors,
                    total_push_constant_byte_count: done.push_constant_bytes,
                },
            )
        },
    }
}

/// The number of launches of a component.
pub open spec fn launch_count() -> spec_fn(VulkanMountedPlacedResidentComponentRunnerView) -> nat {
    |runner: VulkanMountedPlacedResidentComponentRunnerView| runner.dispatches.len()
}

/// The name of a component.
pub open spec fn name_of_runner() -> spec_fn(VulkanMountedPlacedResidentComponentRunnerView) -> Seq<
    char,
> {
    |runner: VulkanMountedPlacedResidentComponentRunnerView| runner.component_id
}

/// The run of a component, or why it failed.
pub type ComponentRunOutcome = Result<
    VulkanMountedPlacedResidentComponentRunView,
    VulkanMountedPlacedResidentKernelDispatchErrorView,
>;

/// The runs of the first `n` components, one after the other, up to the first failure.
pub open spec fn component_runs(runs: Seq<ComponentRunOutcome>, n: nat) -> Result<
    Seq<VulkanMountedPlacedResidentComponentRunView>,
    VulkanMountedPlacedResidentKernelDispatchErrorView,
>
    decreases n,
{
    if n == 0 {
        Ok(Seq::empty())
    } else {
        match component_runs(runs, (n - 1) as nat) {
            Err(error) => Err(error),
            Ok(done) => match runs[n - 1] {
                Err(error) => Err(error),
                Ok(run) => Ok(done.push(run)),
            },
        }
    }
}

proof fn lemma_component_runs_error(runs: Seq<ComponentRunOutcome>, i: nat, n: nat)
    requires
        i <= n,
        component_runs(runs, i) is Err,
    ensures
        component_runs(runs, n) == component_runs(runs, i),
    decreases n - i,
{
    if i < n {
        lemma_component_runs_error(runs, i + 1, n);
    }
}

/// A run of a device's components, from the runs of the components.
pub open spec fn execution_graph_run(
    runner: VulkanMountedPlacedResidentExecutionGraphRunnerView,
    runs: Seq<ComponentRunOutcome>,
) -> Result<
    VulkanMountedPlacedResidentExecutionGraphRunView,
    VulkanMountedPlacedResidentKernelDispatchErrorView,
> {
    match component_runs(runs, runner.components.len()) {
        Err(error) => Err(error),
        Ok(component_runs) => Ok(
            VulkanMountedPlacedResidentExecutionGraphRunView {
                device_id: runner.device_id,
                component_runs,
            },
        ),
    }
}

/// The runs of components with zeroed push constants.
pub open spec fn zeroed_runs(
    components: Seq<VulkanMountedPlacedResidentComponentRunnerView>,
    answers: Seq<Seq<LaunchAnswer>>,
) -> Seq<ComponentRunOutcome> {
    Seq::new(
        components.len(),
        |i: int| component_run(components[i], zeroed(components[i].dispatches), answers[i]),
    )
}

/// The runs of components under stream control.
pub open spec fn controlled_runs(
    components: Seq<VulkanMountedPlacedResidentComponentRunnerView>,
    written: Seq<Result<(), Seq<char>>>,
    push_constants: Seq<Seq<PushConstantBytes>>,
    answers: Seq<Seq<LaunchAnswer>>,
) -> Seq<ComponentRunOutcome> {
    Seq::new(
        components.len(),
        |i: int|
            match written[i] {
                Err(error) => Err(
                    VulkanMountedPlacedResidentKernelDispatchErrorView::Vulkan(error),
                ),
                Ok(_) => component_run(components[i], push_constants[i], answers[i]),
            },
    )
}

/// The answers for each component.
pub open spec fn answer_lists(answers: Seq<Vec<Result<u64, VulkanError>>>) -> Seq<Seq<LaunchAnswer>> {
    Seq::new(answers.len(), |i: int| sequence::outcomes(answers[i]@))
}

/// The push constants for each component.
pub open spec fn push_constant_lists(
    lists: Seq<Vec<Result<Vec<u8>, VulkanMountedPlacedResidentKernelDispatchError>>>,
) -> Seq<Seq<PushConstantBytes>> {
    Seq::new(lists.len(), |i: int| sequence::outcomes(lists[i]@))
}

impl VulkanMountedPlacedResidentExecutionGraphRunner {
    /// Gathers the runners of a device's components.
    #[verifier::loop_isolation(false)]
    pub fn from_mounted_bound_plan(
        device: &VulkanComputeDevice,
        mounted: &VulkanMountedPlacedStreamCircuit,
        mounted_bound_plan: &VulkanMountedPlacedBoundDispatchPlan,
        component_ids: &Vec<String>,
        loaded_manifest: &VulkanLoadedReusableKernelArtifactManifest,
    ) -> (r: Result<Self, VulkanMountedPlacedResidentKernelDispatchError>)
        ensures
            sequence::outcome(r) == execution_graph_runner(
                mounted@,
                device@.device_id,
                mounted_bound_plan@,
                component_ids.deep_view(),
                loaded_manifest@,
            ),
    {
        let ghost all = component_ids.deep_view();
        let ghost init = no_runners();
        let ghost step = execution_graph_step(
            mounted@,
            device@.device_id,
            mounted_bound_plan@,
            loaded_manifest@,
        );
        let mut components: Vec<VulkanMountedPlacedResidentComponentRunner> = Vec::new();
        let mut total_descriptor_count: usize = 0;
        let mut total_push_constant_byte_count: u32 = 0;
        let mut i: usize = 0;
        assert(all.take(0) =~= Seq::empty());
        assert(components.deep_view() =~= Seq::empty());
        while i < component_ids.len()
            invariant
                i <= component_ids.len(),
                sequence::try_fold(all.take(i as int), init, step) == Ok::<
                    ExecutionGraphRunners,
                    VulkanMountedPlacedResidentKernelDispatchErrorView,
                >(
                    ExecutionGraphRunners {
                        components: components.deep_view(),
                        descriptors: total_descriptor_count,
                        push_constant_bytes: total_push_constant_byte_count,
                    },
                ),
            decreases component_ids.len() - i,
        {
            proof {
                assert(all[i as int] == component_ids@[i as int]@);
                sequence::lemma_try_fold_step(all, init, step, i as int);
                if sequence::try_fold(all.take(i + 1), init, step) is Err {
                    sequence::lemma_try_fold_error(all, init, step, i + 1);
                }
            }
            let runner: VulkanMountedPlacedResidentComponentRunner =
                match VulkanMountedPlacedResidentComponentRunner::from_mounted_bound_plan(
                device,
                mounted,
                mounted_bound_plan,
                component_ids[i].as_str(),
                loaded_manifest,
            ) {
                Err(error) => {
                    return Err(error);
                },
                Ok(runner) => runner,
            };
            match total_descriptor_count.checked_add(runner.total_descriptor_count) {
                None => {
                    return Err(
                        VulkanMountedPlacedResidentKernelDispatchError::ExecutionGraphRunnerDescriptorCountOverflow {
                            device_id: mounted_bound_plan.device_id.clone(),
                        },
                    );
                },
                Some(sum) => {
                    total_descriptor_count = sum;
                },
            }
            match total_push_constant_byte_count.checked_add(
                runner.total_push_constant_byte_count,
            ) {
                None => {
                    return Err(
                        VulkanMountedPlacedResidentKernelDispatchError::ExecutionGraphRunnerPushConstantByteCountOverflow {
                            device_id: mounted_bound_plan.device_id.clone(),
                        },
                    );
                },
                Some(sum) => {
                    total_push_constant_byte_count = sum;
                },
            }
            let ghost before = components.deep_view();
            let ghost value = runner@;
            components.push(runner);
            assert(components.deep_view() =~= before.push(value));
            i += 1;
        }
        assert(all.take(all.len() as int) =~= all);
        assert(components.deep_view().len() == components@.len());
        if components.len() == 0 {
            return Err(
                VulkanMountedPlacedResidentKernelDispatchError::MissingExecutionGraphComponents {
                    device_id: mounted_bound_plan.device_id.clone(),
                },
            );
        }
        Ok(
            VulkanMountedPlacedResidentExecutionGraphRunner {
                device_id: mounted_bound_plan.device_id.clone(),
                components,
                total_descriptor_count,
                total_push_constant_byte_count,
            },
        )
    }

    /// The number of components.
    pub fn component_count(&self) -> (r: usize)
        ensures
            r == self@.components.len(),
    {
        assert(self@.components.len() == self.components@.len());
        self.components.len()
    }

    /// The number of launches of all components.
    #[verifier::loop_isolation(false)]
    pub fn dispatch_count(&self) -> (r: usize)
        requires
            sequence::total(self@.components, launch_count()) <= usize::MAX,
        ensures
            r == sequence::total(self@.components, launch_count()),
    {
        let ghost all_count = self.components.deep_view();
        let ghost size_count = launch_count();
        let mut count: usize = 0;
        let mut i: usize = 0;
        assert(all_count.take(0) =~= Seq::empty());
        while i < self.components.len()
            invariant
                i <= self.components.len(),
                count == sequence::total(all_count.take(i as int), size_count),
            decreases self.components.len() - i,
        {
            let item = &self.components[i];
            proof {
                sequence::lemma_total_step(all_count, size_count, i as int);
                sequence::lemma_total_prefix(all_count, size_count, i + 1);
                assert(all_count[i as int] == item.deep_view());
            }
            count = count + item.dispatch_count();
            i += 1;
        }
        assert(all_count.take(all_count.len() as int) =~= all_count);
        count
    }

    /// The components, in the order in which they run.
    #[verifier::loop_isolation(false)]
    pub fn component_ids(&self) -> (r: Vec<&str>)
        ensures
            r.deep_view() == self@.components.map_values(name_of_runner()),
    {
        let ghost all_ids = self.components.deep_view();
        let ghost step_ids = name_of_runner();
        let mut ids: Vec<&str> = Vec::new();
        let mut i: usize = 0;
        while i < self.components.len()
            invariant
                i <= self.components.len(),
                ids@.len() == i,
                forall|j: int| 0 <= j < i ==> (#[trigger] ids.deep_view()[j]) == step_ids(all_ids[j]),
            decreases self.components.len() - i,
        {
            let item = &self.components[i];
            assert(all_ids[i as int] == item.deep_view());
            let added = item.component_id.as_str();
            let ghost before = ids.deep_view();
            let ghost value = added.deep_view();
            ids.push(added);
            assert(ids.deep_view() =~= before.push(value));
            i += 1;
        }
        assert(ids.deep_view() =~= all_ids.map_values(step_ids));
        ids
    }

    /// The run of the components with zeroed push constants, from what the device answered for the
    /// launches of each, up to the first failure.
    #[verifier::loop_isolation(false)]
    pub fn run_zeroed_push_constants(&self, answers: &Vec<Vec<Result<u64, VulkanError>>>) -> (r:
        Result<
        VulkanMountedPlacedResidentExecutionGraphRun,
        VulkanMountedPlacedResidentKernelDispatchError,
    >)
        requires
            forall|k: nat|
                k < self@.components.len() && (#[trigger] component_runs(
                    zeroed_runs(self@.components, answer_lists(answers@)),
                    k,
                )) is Ok ==> k < answers@.len() && answered(
                    self@.components[k as int].dispatches,
                    zeroed(self@.components[k as int].dispatches),
                    answer_lists(answers@)[k as int],
                ),
        ensures
            sequence::outcome(r) == execution_graph_run(
                self@,
                zeroed_runs(self@.components, answer_lists(answers@)),
            ),
    {
        let ghost all = self.components.deep_view();
        let ghost outcomes = zeroed_runs(all, answer_lists(answers@));
        let mut runs: Vec<VulkanMountedPlacedResidentComponentRun> = Vec::new();
        let mut i: usize = 0;
        assert(runs.deep_view() =~= Seq::empty());
        while i < self.components.len()
            invariant
                i <= self.components.len(),
                component_runs(outcomes, i as nat) == Ok::<
                    Seq<VulkanMountedPlacedResidentComponentRunView>,
                    VulkanMountedPlacedResidentKernelDispatchErrorView,
                >(runs.deep_view()),
            decreases self.components.len() - i,
        {
            proof {
                assert(all[i as int] == self.components@[i as int]@);
                assert(component_runs(outcomes, i as nat) is Ok);
                if component_runs(outcomes, (i + 1) as nat) is Err {
                    lemma_component_runs_error(outcomes, (i + 1) as nat, all.len());
                }
            }
            match self.components[i].run_zeroed_push_constants(&answers[i]) {
                Err(error) => {
                    return Err(error);
                },
                Ok(run) => {
                    let ghost before = runs.deep_view();
                    let ghost value = run@;
                    runs.push(run);
                    assert(runs.deep_view() =~= before.push(value));
                },
            }
            i += 1;
        }
        Ok(
            VulkanMountedPlacedResidentExecutionGraphRun {
                device_id: self.device_id.clone(),
                component_runs: runs,
            },
        )
    }

    /// The run of the components under stream control, from what came of writing the control
    /// buffer for each, the push constants of their launches, and what the device answered for
    /// them, up to the first failure.
    #[verifier::loop_isolation(false)]
    pub fn run_with_stream_control(
        &self,
        written: &Vec<Result<(), VulkanError>>,
        push_constants: &Vec<
            Vec<Result<Vec<u8>, VulkanMountedPlacedResidentKernelDispatchError>>,
        >,
        answers: &Vec<Vec<Result<u64, VulkanError>>>,
    ) -> (r: Result<
        VulkanMountedPlacedResidentExecutionGraphRun,
        VulkanMountedPlacedResidentKernelDispatchError,
    >)
        requires
            written@.len() == self@.components.len(),
            push_constants@.len() == self@.components.len(),
            answers@.len() == self@.components.len(),
            forall|k: nat|
                k < self@.components.len() && (#[trigger] component_runs(
                    controlled_runs(
                        self@.components,
                        sequence::outcomes(written@),
                        push_constant_lists(push_constants@),
                        answer_lists(answers@),
                    ),
                    k,
                )) is Ok && written@[k as int] is Ok ==> answered(
                    self@.components[k as int].dispatches,
                    push_constant_lists(push_constants@)[k as int],
                    answer_lists(answers@)[k as int],
                ),
        ensures
            sequence::outcome(r) == execution_graph_run(
                self@,
                controlled_runs(
                    self@.components,
                    sequence::outcomes(written@),
                    push_constant_lists(push_constants@),
                    answer_lists(answers@),
                ),
            ),
    {
        let ghost all = self.components.deep_view();
        let ghost outcomes = controlled_runs(
            all,
            sequence::outcomes(written@),
            push_constant_lists(push_constants@),
            answer_lists(answers@),
        );
        let mut runs: Vec<VulkanMountedPlacedResidentComponentRun> = Vec::new();
        let mut i: usize = 0;
        assert(runs.deep_view() =~= Seq::empty());
        while i < self.components.len()
            invariant
                i <= self.components.len(),
                component_runs(outcomes, i as nat) == Ok::<
                    Seq<VulkanMountedPlacedResidentComponentRunView>,
                    VulkanMountedPlacedResidentKernelDispatchErrorView,
                >(runs.deep_view()),
            decreases self.components.len() - i,
        {
            proof {
                assert(all[i as int] == self.components@[i as int]@);
                assert(component_runs(outcomes, i as nat) is Ok);
                assert(sequence::outcomes(written@)[i as int] == sequence::outcome(
                    written@[i as int],
                ));
                if component_runs(outcomes, (i + 1) as nat) is Err {
                    lemma_component_runs_error(outcomes, (i + 1) as nat, all.len());
                }
            }
            match self.components[i].run_with_stream_control(
                &written[i],
                &push_constants[i],
                &answers[i],
            ) {
                Err(error) => {
                    return Err(error);
                },
                Ok(run) => {
                    let ghost before = runs.deep_view();
                    let ghost value = run@;
                    runs.push(run);
                    assert(runs.deep_view() =~= before.push(value));
                },
            }
            i += 1;
        }
        Ok(
            VulkanMountedPlacedResidentExecutionGraphRun {
                device_id: self.device_id.clone(),
                component_runs: runs,
            },
        )
    }

    /// The run of the components' recorded launches.
    #[verifier::loop_isolation(false)]
    pub fn completed_sequence_run(&self) -> (r: VulkanMountedPlacedResidentExecutionGraphRun)
        ensures
            r@.device_id == self@.device_id,
            r@.component_runs == self@.components.map_values(run_of_sequence()),
    {
        let ghost all_runs = self.components.deep_view();
        let ghost step_runs = run_of_sequence();
        let mut runs: Vec<VulkanMountedPlacedResidentComponentRun> = Vec::new();
        let mut i: usize = 0;
        while i < self.components.len()
            invariant
                i <= self.components.len(),
                runs@.len() == i,
                forall|j: int| 0 <= j < i ==> (#[trigger] runs.deep_view()[j]) == step_runs(all_runs[j]),
            decreases self.components.len() - i,
        {
            let item = &self.components[i];
            assert(all_runs[i as int] == item.deep_view());
            let added = item.completed_sequence_run();
            let ghost before = runs.deep_view();
            let ghost value = added.deep_view();
            runs.push(added);
            assert(runs.deep_view() =~= before.push(value));
            i += 1;
        }
        assert(runs.deep_view() =~= all_runs.map_values(step_runs));
        VulkanMountedPlacedResidentExecutionGraphRun {
            device_id: self.device_id.clone(),
            component_runs: runs,
        }
    }
}

/// The run of a component's recorded launches.
pub open spec fn run_of_sequence() -> spec_fn(VulkanMountedPlacedResidentComponentRunnerView) -> VulkanMountedPlacedResidentComponentRunView {
    |runner: VulkanMountedPlacedResidentComponentRunnerView| sequence_run(runner)
}

proof fn lemma_component_launches(
    dispatches: Seq<VulkanMountedPlacedBoundDispatchView>,
    mounted: VulkanMountedPlacedStreamCircuitView,
    device_id: Seq<char>,
    component_id: Seq<char>,
    loaded: VulkanLoadedReusableKernelArtifactManifestView,
    i: int,
)
    requires
        sequence::try_fold(
            dispatches,
            no_launches(),
            component_step(mounted, device_id, component_id, loaded),
        ) is Ok,
        0 <= i < sequence::try_fold(
            dispatches,
            no_launches(),
            component_step(mounted, device_id, component_id, loaded),
        )->Ok_0.dispatches.len(),
    ensures
        sequence::try_fold(
            dispatches,
            no_launches(),
            component_step(mounted, device_id, component_id, loaded),
        )->Ok_0.dispatches[i].component_id == component_id,
    decreases dispatches.len(),
{
    if dispatches.len() > 0 {
        let step = component_step(mounted, device_id, component_id, loaded);
        let before = sequence::try_fold(dispatches.drop_last(), no_launches(), step);
        if i < before->Ok_0.dispatches.len() {
            lemma_component_launches(
                dispatches.drop_last(),
                mounted,
                device_id,
                component_id,
                loaded,
                i,
            );
        }
    }
}

/// A component's runner launches that component alone, and at least once.
pub proof fn runners_launch_their_component(
    mounted: VulkanMountedPlacedStreamCircuitView,
    device_id: Seq<char>,
    plan: VulkanMountedPlacedBoundDispatchPlanView,
    component_id: Seq<char>,
    loaded: VulkanLoadedReusableKernelArtifactManifestView,
)
    requires
        component_runner(mounted, device_id, plan, component_id, loaded) is Ok,
    ensures
        ({
            let runner = component_runner(mounted, device_id, plan, component_id, loaded)->Ok_0;
            &&& runner.dispatches.len() > 0
            &&& forall|i: int|
                0 <= i < runner.dispatches.len() ==> (
                #[trigger] runner.dispatches[i]).component_id == component_id
        }),
{
    reveal(component_runner);
    let runner = component_runner(mounted, device_id, plan, component_id, loaded)->Ok_0;
    assert forall|i: int| 0 <= i < runner.dispatches.len() implies (
    #[trigger] runner.dispatches[i]).component_id == component_id by {
        lemma_component_launches(plan.dispatches, mounted, device_id, component_id, loaded, i);
    }
}

/// Whether a launch belongs to a component.
pub open spec fn of_component(component_id: Seq<char>) -> spec_fn(
    VulkanMountedPlacedBoundDispatchView,
) -> bool {
    |dispatch: VulkanMountedPlacedBoundDispatchView| dispatch.component_id == component_id
}

/// The number of descriptors of a launch.
pub open spec fn launch_descriptors() -> spec_fn(
    VulkanMountedPlacedResidentComponentDispatchView,
) -> nat {
    |launch: VulkanMountedPlacedResidentComponentDispatchView|
        launch.resident_dispatch.bindings.len()
}

/// The number of push constant bytes of a launch.
pub open spec fn launch_push_constants() -> spec_fn(
    VulkanMountedPlacedResidentComponentDispatchView,
) -> nat {
    |launch: VulkanMountedPlacedResidentComponentDispatchView|
        launch.resident_dispatch.push_constant_byte_count as nat
}

/// Whether a launch is that of a bound dispatch: it carries its names, and what is launched was made
/// for it.
pub open spec fn launches(
    launch: VulkanMountedPlacedResidentComponentDispatchView,
    dispatch: VulkanMountedPlacedBoundDispatchView,
    mounted: VulkanMountedPlacedStreamCircuitView,
    device_id: Seq<char>,
    loaded: VulkanLoadedReusableKernelArtifactManifestView,
) -> bool {
    let made = circuit_mount::resident_launch(mounted, device_id, dispatch, loaded);
    &&& launch.dispatch_index == dispatch.dispatch_index
    &&& launch.kernel_id == dispatch.kernel_id
    &&& launch.component_id == dispatch.component_id
    &&& launch.node_id == dispatch.node_id
    &&& launch.op == dispatch.op
    &&& launch.reusable_family_id == dispatch.reusable_family_id
    &&& launch.push_constants == dispatch.push_constants
    &&& made is Ok
    &&& launch.resident_dispatch == made->Ok_0
}

proof fn lemma_launches_in_order(
    dispatches: Seq<VulkanMountedPlacedBoundDispatchView>,
    mounted: VulkanMountedPlacedStreamCircuitView,
    device_id: Seq<char>,
    component_id: Seq<char>,
    loaded: VulkanLoadedReusableKernelArtifactManifestView,
    d: int,
)
    requires
        sequence::try_fold(
            dispatches,
            no_launches(),
            component_step(mounted, device_id, component_id, loaded),
        ) is Ok,
    ensures
        ({
            let done = sequence::try_fold(
                dispatches,
                no_launches(),
                component_step(mounted, device_id, component_id, loaded),
            )->Ok_0;
            &&& done.dispatches.len() == sequence::count(dispatches, of_component(component_id))
            &&& done.descriptors == sequence::total(done.dispatches, launch_descriptors())
            &&& done.push_constant_bytes == sequence::total(
                done.dispatches,
                launch_push_constants(),
            )
            &&& 0 <= d < dispatches.len() && of_component(component_id)(dispatches[d]) ==> {
                let at = sequence::count(dispatches.take(d), of_component(component_id));
                &&& at < done.dispatches.len()
                &&& launches(
                    done.dispatches[at as int],
                    dispatches[d],
                    mounted,
                    device_id,
                    loaded,
                )
            }
        }),
    decreases dispatches.len(),
{
    if dispatches.len() > 0 {
        let front = dispatches.drop_last();
        let step = component_step(mounted, device_id, component_id, loaded);
        lemma_launches_in_order(front, mounted, device_id, component_id, loaded, d);
        let before = sequence::try_fold(front, no_launches(), step)->Ok_0;
        let after = sequence::try_fold(dispatches, no_launches(), step)->Ok_0;
        assert(step(before, dispatches.last()) == Ok::<
            ComponentLaunches,
            VulkanMountedPlacedResidentKernelDispatchErrorView,
        >(after));
        if of_component(component_id)(dispatches.last()) {
            assert(after.dispatches.drop_last() =~= before.dispatches);
        }
        if 0 <= d < front.len() {
            assert(front.take(d) =~= dispatches.take(d));
            assert(front[d] == dispatches[d]);
        } else if d == front.len() {
            assert(dispatches.take(d) =~= front);
        }
    }
}

/// A runner launches its component's dispatches, all of them and in their order, and counts their
/// descriptors and push constants.
pub proof fn runners_launch_every_dispatch_of_their_component(
    mounted: VulkanMountedPlacedStreamCircuitView,
    device_id: Seq<char>,
    plan: VulkanMountedPlacedBoundDispatchPlanView,
    component_id: Seq<char>,
    loaded: VulkanLoadedReusableKernelArtifactManifestView,
    d: int,
)
    requires
        component_runner(mounted, device_id, plan, component_id, loaded) is Ok,
        0 <= d < plan.dispatches.len(),
    ensures
        ({
            let runner = component_runner(mounted, device_id, plan, component_id, loaded)->Ok_0;
            let at = sequence::count(plan.dispatches.take(d), of_component(component_id)) as int;
            &&& runner.component_id == component_id
            &&& runner.stream_control_buffer == mounted.stream_control_buffer
            &&& runner.dispatches.len() == sequence::count(
                plan.dispatches,
                of_component(component_id),
            )
            &&& runner.total_descriptor_count == sequence::total(
                runner.dispatches,
                launch_descriptors(),
            )
            &&& runner.total_push_constant_byte_count == sequence::total(
                runner.dispatches,
                launch_push_constants(),
            )
            &&& of_component(component_id)(plan.dispatches[d]) ==> {
                &&& at < runner.dispatches.len()
                &&& launches(
                    runner.dispatches[at],
                    plan.dispatches[d],
                    mounted,
                    device_id,
                    loaded,
                )
            }
        }),
{
    reveal(component_runner);
    lemma_launches_in_order(plan.dispatches, mounted, device_id, component_id, loaded, d);
}

proof fn lemma_runs_in_order(
    dispatches: Seq<VulkanMountedPlacedResidentComponentDispatchView>,
    push_constants: Seq<PushConstantBytes>,
    answers: Seq<LaunchAnswer>,
    n: nat,
    i: int,
)
    requires
        dispatch_runs(dispatches, push_constants, answers, n) is Ok,
    ensures
        ({
            let runs = dispatch_runs(dispatches, push_constants, answers, n)->Ok_0;
            &&& runs.len() == n
            &&& 0 <= i < n ==> push_constants[i] is Ok && answers[i] is Ok && runs[i]
                == dispatch_run(dispatches[i], answers[i]->Ok_0)
        }),
    decreases n,
{
    if n > 0 {
        lemma_runs_in_order(dispatches, push_constants, answers, (n - 1) as nat, i);
    }
}

/// A run of a component reports its launches one after the other, each under its own names and with
/// the time that its launch took.
pub proof fn runs_report_every_launch(
    runner: VulkanMountedPlacedResidentComponentRunnerView,
    push_constants: Seq<PushConstantBytes>,
    answers: Seq<LaunchAnswer>,
    i: int,
)
    requires
        component_run(runner, push_constants, answers) is Ok,
        0 <= i < runner.dispatches.len(),
        runner.dispatches[i].resident_dispatch.bindings.len() <= usize::MAX,
    ensures
        ({
            let run = component_run(runner, push_constants, answers)->Ok_0;
            let launch = runner.dispatches[i];
            let reported = run.dispatch_runs[i];
            &&& run.component_id == runner.component_id
            &&& run.dispatch_runs.len() == runner.dispatches.len()
            &&& push_constants[i] is Ok
            &&& answers[i] is Ok
            &&& reported.run_time_ns == answers[i]->Ok_0
            &&& reported.dispatch_index == launch.dispatch_index
            &&& reported.kernel_id == launch.kernel_id
            &&& reported.node_id == launch.node_id
            &&& reported.op == launch.op
            &&& reported.reusable_family_id == launch.reusable_family_id
            &&& reported.descriptor_count == launch.resident_dispatch.bindings.len()
            &&& reported.workgroup_count_x == launch.resident_dispatch.workgroup_count_x
            &&& reported.push_constant_byte_count
                == launch.resident_dispatch.push_constant_byte_count
        }),
{
    lemma_runs_in_order(
        runner.dispatches,
        push_constants,
        answers,
        runner.dispatches.len(),
        i,
    );
}

/// A sequence reports its launches as a run of them does, without a time.
pub proof fn sequences_report_every_launch(
    runner: VulkanMountedPlacedResidentComponentRunnerView,
    i: int,
)
    requires
        0 <= i < runner.dispatches.len(),
    ensures
        ({
            let run = sequence_run(runner);
            &&& run.component_id == runner.component_id
            &&& run.dispatch_runs.len() == runner.dispatches.len()
            &&& run.dispatch_runs[i].dispatch_index == runner.dispatches[i].dispatch_index
            &&& run.dispatch_runs[i].kernel_id == runner.dispatches[i].kernel_id
            &&& run.dispatch_runs[i].node_id == runner.dispatches[i].node_id
            &&& run.dispatch_runs[i].run_time_ns == 0
        }),
{
}

/// Push constants that nobody has set are zero, and as many bytes as the launch takes.
pub proof fn unset_push_constants_are_zero(
    dispatches: Seq<VulkanMountedPlacedResidentComponentDispatchView>,
    i: int,
    k: int,
)
    requires
        0 <= i < dispatches.len(),
    ensures
        zeroed(dispatches).len() == dispatches.len(),
        zeroed(dispatches)[i] is Ok,
        zeroed(dispatches)[i]->Ok_0.len()
            == dispatches[i].resident_dispatch.push_constant_byte_count,
        0 <= k < zeroed(dispatches)[i]->Ok_0.len() ==> zeroed(dispatches)[i]->Ok_0[k] == 0,
{
}

/// The time of a launch that was run.
pub open spec fn launch_time() -> spec_fn(
    VulkanMountedPlacedResidentComponentDispatchRunView,
) -> nat {
    |run: VulkanMountedPlacedResidentComponentDispatchRunView| run.run_time_ns as nat
}

/// The time of a run is that of its launches together, as long as it can be counted.
pub proof fn times_add_up(runs: Seq<VulkanMountedPlacedResidentComponentDispatchRunView>)
    ensures
        sequence::total(runs, launch_time()) <= u64::MAX ==> total_time(runs) == sequence::total(
            runs,
            launch_time(),
        ),
        sequence::total(runs, launch_time()) > u64::MAX ==> total_time(runs) == u64::MAX,
    decreases runs.len(),
{
    if runs.len() > 0 {
        times_add_up(runs.drop_last());
    }
}

/// The number of descriptors of a component.
pub open spec fn runner_descriptors() -> spec_fn(
    VulkanMountedPlacedResidentComponentRunnerView,
) -> nat {
    |runner: VulkanMountedPlacedResidentComponentRunnerView| runner.total_descriptor_count as nat
}

/// The number of push constant bytes of a component.
pub open spec fn runner_push_constants() -> spec_fn(
    VulkanMountedPlacedResidentComponentRunnerView,
) -> nat {
    |runner: VulkanMountedPlacedResidentComponentRunnerView|
        runner.total_push_constant_byte_count as nat
}

proof fn lemma_runners_in_order(
    mounted: VulkanMountedPlacedStreamCircuitView,
    device_id: Seq<char>,
    plan: VulkanMountedPlacedBoundDispatchPlanView,
    component_ids: Seq<Seq<char>>,
    loaded: VulkanLoadedReusableKernelArtifactManifestView,
    i: int,
)
    requires
        sequence::try_fold(
            component_ids,
            no_runners(),
            execution_graph_step(mounted, device_id, plan, loaded),
        ) is Ok,
    ensures
        ({
            let done = sequence::try_fold(
                component_ids,
                no_runners(),
                execution_graph_step(mounted, device_id, plan, loaded),
            )->Ok_0;
            &&& done.components.len() == component_ids.len()
            &&& done.descriptors == sequence::total(done.components, runner_descriptors())
            &&& done.push_constant_bytes == sequence::total(
                done.components,
                runner_push_constants(),
            )
            &&& 0 <= i < component_ids.len() ==> component_runner(
                mounted,
                device_id,
                plan,
                component_ids[i],
                loaded,
            ) is Ok && done.components[i] == component_runner(
                mounted,
                device_id,
                plan,
                component_ids[i],
                loaded,
            )->Ok_0
        }),
    decreases component_ids.len(),
{
    if component_ids.len() > 0 {
        let front = component_ids.drop_last();
        let step = execution_graph_step(mounted, device_id, plan, loaded);
        lemma_runners_in_order(mounted, device_id, plan, front, loaded, i);
        let before = sequence::try_fold(front, no_runners(), step)->Ok_0;
        let after = sequence::try_fold(component_ids, no_runners(), step)->Ok_0;
        assert(step(before, component_ids.last()) == Ok::<
            ExecutionGraphRunners,
            VulkanMountedPlacedResidentKernelDispatchErrorView,
        >(after));
        assert(after.components.drop_last() =~= before.components);
    }
}

/// The runners of several components are those of each of them, in the given order, and their
/// descriptors and push constants are counted together.
pub proof fn runners_follow_the_given_order(
    mounted: VulkanMountedPlacedStreamCircuitView,
    device_id: Seq<char>,
    plan: VulkanMountedPlacedBoundDispatchPlanView,
    component_ids: Seq<Seq<char>>,
    loaded: VulkanLoadedReusableKernelArtifactManifestView,
    i: int,
)
    requires
        execution_graph_runner(mounted, device_id, plan, component_ids, loaded) is Ok,
    ensures
        ({
            let made = execution_graph_runner(
                mounted,
                device_id,
                plan,
                component_ids,
                loaded,
            )->Ok_0;
            &&& component_ids.len() > 0
            &&& made.device_id == plan.device_id
            &&& made.components.len() == component_ids.len()
            &&& made.total_descriptor_count == sequence::total(
                made.components,
                runner_descriptors(),
            )
            &&& made.total_push_constant_byte_count == sequence::total(
                made.components,
                runner_push_constants(),
            )
            &&& 0 <= i < component_ids.len() ==> {
                &&& made.components[i].component_id == component_ids[i]
                &&& component_runner(mounted, device_id, plan, component_ids[i], loaded) is Ok
                &&& made.components[i] == component_runner(
                    mounted,
                    device_id,
                    plan,
                    component_ids[i],
                    loaded,
                )->Ok_0
            }
        }),
{
    reveal(execution_graph_runner);
    reveal(component_runner);
    lemma_runners_in_order(mounted, device_id, plan, component_ids, loaded, i);
}

proof fn lemma_component_runs_in_order(runs: Seq<ComponentRunOutcome>, n: nat, i: int)
    requires
        component_runs(runs, n) is Ok,
    ensures
        component_runs(runs, n)->Ok_0.len() == n,
        0 <= i < n ==> runs[i] is Ok && component_runs(runs, n)->Ok_0[i] == runs[i]->Ok_0,
    decreases n,
{
    if n > 0 {
        lemma_component_runs_in_order(runs, (n - 1) as nat, i);
    }
}

/// A run of several components is the run of each of them, in order. Where the stream's position is
/// written first, a component runs only once that has been done for it, with its own push constants
/// and its own answers.
pub proof fn components_run_one_by_one(
    runner: VulkanMountedPlacedResidentExecutionGraphRunnerView,
    written: Seq<Result<(), Seq<char>>>,
    push_constants: Seq<Seq<PushConstantBytes>>,
    answers: Seq<Seq<LaunchAnswer>>,
    i: int,
)
    requires
        execution_graph_run(
            runner,
            controlled_runs(runner.components, written, push_constants, answers),
        ) is Ok,
        0 <= i < runner.components.len(),
    ensures
        ({
            let run = execution_graph_run(
                runner,
                controlled_runs(runner.components, written, push_constants, answers),
            )->Ok_0;
            let own = component_run(runner.components[i], push_constants[i], answers[i]);
            &&& run.device_id == runner.device_id
            &&& run.component_runs.len() == runner.components.len()
            &&& written[i] is Ok
            &&& own is Ok
            &&& run.component_runs[i] == own->Ok_0
        }),
{
    lemma_component_runs_in_order(
        controlled_runs(runner.components, written, push_constants, answers),
        runner.components.len(),
        i,
    );
}

} // verus!
