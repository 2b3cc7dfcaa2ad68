//! Runners for the pedals of a device: their launches, one after the other.

use crate::circuit_mount::VulkanMountedPlacedStreamCircuit;
use crate::circuit_mount::VulkanMountedPlacedStreamCircuitView;
use crate::circuit_mount;
use crate::device::VulkanComputeDevice;
use crate::device::VulkanError;
use crate::device::VulkanResidentBuffer;
use crate::device::VulkanResidentBufferView;
use crate::device::VulkanResidentKernelDispatch;
use crate::device::VulkanResidentKernelDispatchView;
use crate::kernel_interface::VulkanKernelScalarBinding;
use crate::kernel_interface::VulkanKernelScalarBindingView;
use crate::kernel_interface;
use crate::mounted_dispatch::VulkanMountedPlacedBoundDispatch;
use crate::mounted_dispatch::VulkanMountedPlacedBoundDispatchPlan;
use crate::mounted_dispatch::VulkanMountedPlacedBoundDispatchPlanView;
use crate::mounted_dispatch::VulkanMountedPlacedBoundDispatchView;
use crate::resident_dispatch::VulkanMountedPlacedResidentKernelDispatchError;
use crate::resident_dispatch::VulkanMountedPlacedResidentKernelDispatchErrorView;
use crate::reusable_kernels::VulkanLoadedReusableKernelArtifactManifest;
use crate::reusable_kernels::VulkanLoadedReusableKernelArtifactManifestView;
use crate::sequence;
use crate::stream_control::VulkanMountedPlacedStreamControl;
use crate::stream_control::VulkanStreamControlWrite;
use crate::stream_control;
use crate::text;
use vstd::prelude::*;

verus! {

/// A launch of a pedal with its kernel and buffers.
#[derive(Debug, PartialEq, Eq)]
pub struct VulkanMountedPlacedResidentPedalDispatch {
    pub dispatch_index: usize,
    pub kernel_id: String,
    pub pedal_id: String,
    pub node_id: String,
    pub op: String,
    pub reusable_family_id: String,
    pub push_constants: Vec<VulkanKernelScalarBinding>,
    pub resident_dispatch: VulkanResidentKernelDispatch,
}

#[verifier::ext_equal]
pub struct VulkanMountedPlacedResidentPedalDispatchView {
    pub dispatch_index: usize,
    pub kernel_id: Seq<char>,
    pub pedal_id: Seq<char>,
    pub node_id: Seq<char>,
    pub op: Seq<char>,
    pub reusable_family_id: Seq<char>,
    pub push_constants: Seq<VulkanKernelScalarBindingView>,
    pub resident_dispatch: VulkanResidentKernelDispatchView,
}

impl DeepView for VulkanMountedPlacedResidentPedalDispatch {
    type V = VulkanMountedPlacedResidentPedalDispatchView;

    open spec fn deep_view(&self) -> VulkanMountedPlacedResidentPedalDispatchView {
        VulkanMountedPlacedResidentPedalDispatchView {
            dispatch_index: self.dispatch_index,
            kernel_id: self.kernel_id.deep_view(),
            pedal_id: self.pedal_id.deep_view(),
            node_id: self.node_id.deep_view(),
            op: self.op.deep_view(),
            reusable_family_id: self.reusable_family_id.deep_view(),
            push_constants: self.push_constants.deep_view(),
            resident_dispatch: self.resident_dispatch.deep_view(),
        }
    }
}

impl View for VulkanMountedPlacedResidentPedalDispatch {
    type V = VulkanMountedPlacedResidentPedalDispatchView;

    open spec fn view(&self) -> VulkanMountedPlacedResidentPedalDispatchView {
        self.deep_view()
    }
}

impl Clone for VulkanMountedPlacedResidentPedalDispatch {
    fn clone(&self) -> (r: Self)
        ensures
            r@ == self@,
    {
        VulkanMountedPlacedResidentPedalDispatch {
            dispatch_index: self.dispatch_index,
            kernel_id: self.kernel_id.clone(),
            pedal_id: self.pedal_id.clone(),
            node_id: self.node_id.clone(),
            op: self.op.clone(),
            reusable_family_id: self.reusable_family_id.clone(),
            push_constants: self.push_constants.clone(),
            resident_dispatch: self.resident_dispatch.clone(),
        }
    }
}

/// A launch that has run.
#[derive(Debug, PartialEq, Eq)]
pub struct VulkanMountedPlacedResidentPedalDispatchRun {
    pub dispatch_index: usize,
    pub kernel_id: String,
    pub node_id: String,
    pub op: String,
    pub reusable_family_id: String,
    pub descriptor_count: usize,
    pub workgroup_count_x: u32,
    pub push_constant_byte_count: u32,
    pub run_time_ns: u64,
}

#[verifier::ext_equal]
pub struct VulkanMountedPlacedResidentPedalDispatchRunView {
    pub dispatch_index: usize,
    pub kernel_id: Seq<char>,
    pub node_id: Seq<char>,
    pub op: Seq<char>,
    pub reusable_family_id: Seq<char>,
    pub descriptor_count: usize,
    pub workgroup_count_x: u32,
    pub push_constant_byte_count: u32,
    pub run_time_ns: u64,
}

impl DeepView for VulkanMountedPlacedResidentPedalDispatchRun {
    type V = VulkanMountedPlacedResidentPedalDispatchRunView;

    open spec fn deep_view(&self) -> VulkanMountedPlacedResidentPedalDispatchRunView {
        VulkanMountedPlacedResidentPedalDispatchRunView {
            dispatch_index: self.dispatch_index,
            kernel_id: self.kernel_id.deep_view(),
            node_id: self.node_id.deep_view(),
            op: self.op.deep_view(),
            reusable_family_id: self.reusable_family_id.deep_view(),
            descriptor_count: self.descriptor_count,
            workgroup_count_x: self.workgroup_count_x,
            push_constant_byte_count: self.push_constant_byte_count,
            run_time_ns: self.run_time_ns,
        }
    }
}

impl View for VulkanMountedPlacedResidentPedalDispatchRun {
    type V = VulkanMountedPlacedResidentPedalDispatchRunView;

    open spec fn view(&self) -> VulkanMountedPlacedResidentPedalDispatchRunView {
        self.deep_view()
    }
}

impl Clone for VulkanMountedPlacedResidentPedalDispatchRun {
    fn clone(&self) -> (r: Self)
        ensures
            r@ == self@,
    {
        VulkanMountedPlacedResidentPedalDispatchRun {
            dispatch_index: self.dispatch_index,
            kernel_id: self.kernel_id.clone(),
            node_id: self.node_id.clone(),
            op: self.op.clone(),
            reusable_family_id: self.reusable_family_id.clone(),
            descriptor_count: self.descriptor_count,
            workgroup_count_x: self.workgroup_count_x,
            push_constant_byte_count: self.push_constant_byte_count,
            run_time_ns: self.run_time_ns,
        }
    }
}

/// A run of a pedal.
#[derive(Debug, PartialEq, Eq)]
pub struct VulkanMountedPlacedResidentPedalRun {
    pub pedal_id: String,
    pub dispatch_runs: Vec<VulkanMountedPlacedResidentPedalDispatchRun>,
}

#[verifier::ext_equal]
pub struct VulkanMountedPlacedResidentPedalRunView {
    pub pedal_id: Seq<char>,
    pub dispatch_runs: Seq<VulkanMountedPlacedResidentPedalDispatchRunView>,
}

impl DeepView for VulkanMountedPlacedResidentPedalRun {
    type V = VulkanMountedPlacedResidentPedalRunView;

    open spec fn deep_view(&self) -> VulkanMountedPlacedResidentPedalRunView {
        VulkanMountedPlacedResidentPedalRunView {
            pedal_id: self.pedal_id.deep_view(),
            dispatch_runs: self.dispatch_runs.deep_view(),
        }
    }
}

impl View for VulkanMountedPlacedResidentPedalRun {
    type V = VulkanMountedPlacedResidentPedalRunView;

    open spec fn view(&self) -> VulkanMountedPlacedResidentPedalRunView {
        self.deep_view()
    }
}

impl Clone for VulkanMountedPlacedResidentPedalRun {
    fn clone(&self) -> (r: Self)
        ensures
            r@ == self@,
    {
        VulkanMountedPlacedResidentPedalRun {
            pedal_id: self.pedal_id.clone(),
            dispatch_runs: self.dispatch_runs.clone(),
        }
    }
}

/// The launches of one pedal.
#[derive(Debug, PartialEq, Eq)]
pub struct VulkanMountedPlacedResidentPedalRunner {
    pub pedal_id: String,
    pub dispatches: Vec<VulkanMountedPlacedResidentPedalDispatch>,
    pub total_descriptor_count: usize,
    pub total_push_constant_byte_count: u32,
    pub stream_control_buffer: VulkanResidentBuffer,
}

#[verifier::ext_equal]
pub struct VulkanMountedPlacedResidentPedalRunnerView {
    pub pedal_id: Seq<char>,
    pub dispatches: Seq<VulkanMountedPlacedResidentPedalDispatchView>,
    pub total_descriptor_count: usize,
    pub total_push_constant_byte_count: u32,
    pub stream_control_buffer: VulkanResidentBufferView,
}

impl DeepView for VulkanMountedPlacedResidentPedalRunner {
    type V = VulkanMountedPlacedResidentPedalRunnerView;

    open spec fn deep_view(&self) -> VulkanMountedPlacedResidentPedalRunnerView {
        VulkanMountedPlacedResidentPedalRunnerView {
            pedal_id: self.pedal_id.deep_view(),
            dispatches: self.dispatches.deep_view(),
            total_descriptor_count: self.total_descriptor_count,
            total_push_constant_byte_count: self.total_push_constant_byte_count,
            stream_control_buffer: self.stream_control_buffer.deep_view(),
        }
    }
}

impl View for VulkanMountedPlacedResidentPedalRunner {
    type V = VulkanMountedPlacedResidentPedalRunnerView;

    open spec fn view(&self) -> VulkanMountedPlacedResidentPedalRunnerView {
        self.deep_view()
    }
}

impl Clone for VulkanMountedPlacedResidentPedalRunner {
    fn clone(&self) -> (r: Self)
        ensures
            r@ == self@,
    {
        VulkanMountedPlacedResidentPedalRunner {
            pedal_id: self.pedal_id.clone(),
            dispatches: self.dispatches.clone(),
            total_descriptor_count: self.total_descriptor_count,
            total_push_constant_byte_count: self.total_push_constant_byte_count,
            stream_control_buffer: self.stream_control_buffer.clone(),
        }
    }
}

/// The pedals of a device, in the order in which they run.
#[derive(Debug, PartialEq, Eq)]
pub struct VulkanMountedPlacedResidentPedalboardRunner {
    pub device_id: String,
    pub pedals: Vec<VulkanMountedPlacedResidentPedalRunner>,
    pub total_descriptor_count: usize,
    pub total_push_constant_byte_count: u32,
}

#[verifier::ext_equal]
pub struct VulkanMountedPlacedResidentPedalboardRunnerView {
    pub device_id: Seq<char>,
    pub pedals: Seq<VulkanMountedPlacedResidentPedalRunnerView>,
    pub total_descriptor_count: usize,
    pub total_push_constant_byte_count: u32,
}

impl DeepView for VulkanMountedPlacedResidentPedalboardRunner {
    type V = VulkanMountedPlacedResidentPedalboardRunnerView;

    open spec fn deep_view(&self) -> VulkanMountedPlacedResidentPedalboardRunnerView {
        VulkanMountedPlacedResidentPedalboardRunnerView {
            device_id: self.device_id.deep_view(),
            pedals: self.pedals.deep_view(),
            total_descriptor_count: self.total_descriptor_count,
            total_push_constant_byte_count: self.total_push_constant_byte_count,
        }
    }
}

impl View for VulkanMountedPlacedResidentPedalboardRunner {
    type V = VulkanMountedPlacedResidentPedalboardRunnerView;

    open spec fn view(&self) -> VulkanMountedPlacedResidentPedalboardRunnerView {
        self.deep_view()
    }
}

impl Clone for VulkanMountedPlacedResidentPedalboardRunner {
    fn clone(&self) -> (r: Self)
        ensures
            r@ == self@,
    {
        VulkanMountedPlacedResidentPedalboardRunner {
            device_id: self.device_id.clone(),
            pedals: self.pedals.clone(),
            total_descriptor_count: self.total_descriptor_count,
            total_push_constant_byte_count: self.total_push_constant_byte_count,
        }
    }
}

/// A run of a device's pedals.
#[derive(Debug, PartialEq, Eq)]
pub struct VulkanMountedPlacedResidentPedalboardRun {
    pub device_id: String,
    pub pedal_runs: Vec<VulkanMountedPlacedResidentPedalRun>,
}

#[verifier::ext_equal]
pub struct VulkanMountedPlacedResidentPedalboardRunView {
    pub device_id: Seq<char>,
    pub pedal_runs: Seq<VulkanMountedPlacedResidentPedalRunView>,
}

impl DeepView for VulkanMountedPlacedResidentPedalboardRun {
    type V = VulkanMountedPlacedResidentPedalboardRunView;

    open spec fn deep_view(&self) -> VulkanMountedPlacedResidentPedalboardRunView {
        VulkanMountedPlacedResidentPedalboardRunView {
            device_id: self.device_id.deep_view(),
            pedal_runs: self.pedal_runs.deep_view(),
        }
    }
}

impl View for VulkanMountedPlacedResidentPedalboardRun {
    type V = VulkanMountedPlacedResidentPedalboardRunView;

    open spec fn view(&self) -> VulkanMountedPlacedResidentPedalboardRunView {
        self.deep_view()
    }
}

impl Clone for VulkanMountedPlacedResidentPedalboardRun {
    fn clone(&self) -> (r: Self)
        ensures
            r@ == self@,
    {
        VulkanMountedPlacedResidentPedalboardRun {
            device_id: self.device_id.clone(),
            pedal_runs: self.pedal_runs.clone(),
        }
    }
}

/// A launch with its kernel.
pub open spec fn launch_of(
    dispatch: VulkanMountedPlacedBoundDispatchView,
    resident: VulkanResidentKernelDispatchView,
) -> VulkanMountedPlacedResidentPedalDispatchView {
    VulkanMountedPlacedResidentPedalDispatchView {
        dispatch_index: dispatch.dispatch_index,
        kernel_id: dispatch.kernel_id,
        pedal_id: dispatch.component_id,
        node_id: dispatch.node_id,
        op: dispatch.op,
        reusable_family_id: dispatch.reusable_family_id,
        push_constants: dispatch.push_constants,
        resident_dispatch: resident,
    }
}

/// A launch with its kernel.
pub(crate) fn launch(
    dispatch: &VulkanMountedPlacedBoundDispatch,
    resident_dispatch: VulkanResidentKernelDispatch,
) -> (r: VulkanMountedPlacedResidentPedalDispatch)
    ensures
        r@ == launch_of(dispatch@, resident_dispatch@),
{
    VulkanMountedPlacedResidentPedalDispatch {
        dispatch_index: dispatch.dispatch_index,
        kernel_id: dispatch.kernel_id.clone(),
        pedal_id: dispatch.component_id.clone(),
        node_id: dispatch.node_id.clone(),
        op: dispatch.op.clone(),
        reusable_family_id: dispatch.reusable_family_id.clone(),
        push_constants: kernel_interface::copy_scalars(&dispatch.push_constants),
        resident_dispatch,
    }
}

/// The launches of a pedal that were made so far, with what they add up to.
#[verifier::ext_equal]
pub struct PedalLaunches {
    pub dispatches: Seq<VulkanMountedPlacedResidentPedalDispatchView>,
    pub descriptors: usize,
    pub push_constant_bytes: u32,
}

/// How a launch is added to those of a pedal; launches of other pedals are passed over.
pub open spec fn pedal_step(
    mounted: VulkanMountedPlacedStreamCircuitView,
    device_id: Seq<char>,
    pedal_id: Seq<char>,
    loaded: VulkanLoadedReusableKernelArtifactManifestView,
) -> spec_fn(PedalLaunches, VulkanMountedPlacedBoundDispatchView) -> Result<
    PedalLaunches,
    VulkanMountedPlacedResidentKernelDispatchErrorView,
> {
    |done: PedalLaunches, dispatch: VulkanMountedPlacedBoundDispatchView|
        if dispatch.component_id != pedal_id {
            Ok(done)
        } else {
            match circuit_mount::resident_launch(mounted, device_id, dispatch, loaded) {
                Err(error) => Err(error),
                Ok(resident) => if done.descriptors + resident.bindings.len() > usize::MAX {
                    Err(
                        VulkanMountedPlacedResidentKernelDispatchErrorView::PedalRunnerDescriptorCountOverflow {
                            pedal_id,
                        },
                    )
                } else if done.push_constant_bytes + resident.push_constant_byte_count > u32::MAX {
                    Err(
                        VulkanMountedPlacedResidentKernelDispatchErrorView::PedalRunnerPushConstantByteCountOverflow {
                            pedal_id,
                        },
                    )
                } else {
                    Ok(
                        PedalLaunches {
                            dispatches: done.dispatches.push(launch_of(dispatch, resident)),
                            descriptors: (done.descriptors + resident.bindings.len()) as usize,
                            push_constant_bytes: (done.push_constant_bytes
                                + resident.push_constant_byte_count) as u32,
                        },
                    )
                },
            }
        }
}

/// No launches yet.
pub open spec fn no_launches() -> PedalLaunches {
    PedalLaunches { dispatches: Seq::empty(), descriptors: 0, push_constant_bytes: 0 }
}

/// The runner of a pedal.
#[verifier::opaque]
pub open spec fn pedal_runner(
    mounted: VulkanMountedPlacedStreamCircuitView,
    device_id: Seq<char>,
    plan: VulkanMountedPlacedBoundDispatchPlanView,
    pedal_id: Seq<char>,
    loaded: VulkanLoadedReusableKernelArtifactManifestView,
) -> Result<
    VulkanMountedPlacedResidentPedalRunnerView,
    VulkanMountedPlacedResidentKernelDispatchErrorView,
> {
    match sequence::try_fold(
        plan.dispatches,
        no_launches(),
        pedal_step(mounted, device_id, pedal_id, loaded),
    ) {
        Err(error) => Err(error),
        Ok(done) => if done.dispatches.len() == 0 {
            Err(
                VulkanMountedPlacedResidentKernelDispatchErrorView::MissingPedalDispatches {
                    pedal_id,
                },
            )
        } else {
            Ok(
                VulkanMountedPlacedResidentPedalRunnerView {
                    pedal_id,
                    dispatches: done.dispatches,
                    total_descriptor_count: done.descriptors,
                    total_push_constant_byte_count: done.push_constant_bytes,
                    stream_control_buffer: mounted.stream_control_buffer,
                },
            )
        },
    }
}

/// A launch that took this long.
pub open spec fn dispatch_run(
    dispatch: VulkanMountedPlacedResidentPedalDispatchView,
    run_time_ns: u64,
) -> VulkanMountedPlacedResidentPedalDispatchRunView {
    VulkanMountedPlacedResidentPedalDispatchRunView {
        dispatch_index: dispatch.dispatch_index,
        kernel_id: dispatch.kernel_id,
        node_id: dispatch.node_id,
        op: dispatch.op,
        reusable_family_id: dispatch.reusable_family_id,
        descriptor_count: dispatch.resident_dispatch.bindings.len() as usize,
        workgroup_count_x: dispatch.resident_dispatch.workgroup_count_x,
        push_constant_byte_count: dispatch.resident_dispatch.push_constant_byte_count,
        run_time_ns,
    }
}

/// A launch that took this long.
pub(crate) fn run_of(
    dispatch: &VulkanMountedPlacedResidentPedalDispatch,
    run_time_ns: u64,
) -> (r: VulkanMountedPlacedResidentPedalDispatchRun)
    ensures
        r@ == dispatch_run(dispatch@, run_time_ns),
{
    VulkanMountedPlacedResidentPedalDispatchRun {
        dispatch_index: dispatch.dispatch_index,
        kernel_id: dispatch.kernel_id.clone(),
        node_id: dispatch.node_id.clone(),
        op: dispatch.op.clone(),
        reusable_family_id: dispatch.reusable_family_id.clone(),
        descriptor_count: dispatch.resident_dispatch.descriptor_count(),
        workgroup_count_x: dispatch.resident_dispatch.workgroup_count_x,
        push_constant_byte_count: dispatch.resident_dispatch.push_constant_byte_count,
        run_time_ns,
    }
}

/// What a device answers for a launch: how long it took, or why it failed.
pub type LaunchAnswer = Result<u64, Seq<char>>;

/// The bytes of a launch's push constants, or why there are none.
pub type PushConstantBytes = Result<Seq<u8>, VulkanMountedPlacedResidentKernelDispatchErrorView>;

/// The first `n` launches, run one after the other with the given push constants, up to the first
/// failure.
pub open spec fn dispatch_runs(
    dispatches: Seq<VulkanMountedPlacedResidentPedalDispatchView>,
    push_constants: Seq<PushConstantBytes>,
    answers: Seq<LaunchAnswer>,
    n: nat,
) -> Result<
    Seq<VulkanMountedPlacedResidentPedalDispatchRunView>,
    VulkanMountedPlacedResidentKernelDispatchErrorView,
>
    decreases n,
{
    if n == 0 {
        Ok(Seq::empty())
    } else {
        match dispatch_runs(dispatches, push_constants, answers, (n - 1) as nat) {
            Err(error) => Err(error),
            Ok(done) => match push_constants[n - 1] {
                Err(error) => Err(error),
                Ok(_) => match answers[n - 1] {
                    Err(error) => Err(
                        VulkanMountedPlacedResidentKernelDispatchErrorView::Vulkan(error),
                    ),
                    Ok(run_time_ns) => Ok(
                        done.push(dispatch_run(dispatches[n - 1], run_time_ns)),
                    ),
                },
            },
        }
    }
}

proof fn lemma_dispatch_runs_error(
    dispatches: Seq<VulkanMountedPlacedResidentPedalDispatchView>,
    push_constants: Seq<PushConstantBytes>,
    answers: Seq<LaunchAnswer>,
    i: nat,
    n: nat,
)
    requires
        i <= n,
        dispatch_runs(dispatches, push_constants, answers, i) is Err,
    ensures
        dispatch_runs(dispatches, push_constants, answers, n) == dispatch_runs(
            dispatches,
            push_constants,
            answers,
            i,
        ),
    decreases n - i,
{
    if i < n {
        lemma_dispatch_runs_error(dispatches, push_constants, answers, i + 1, n);
    }
}

/// Whether the answers reach as far as the launches get: there are push constants for each launch
/// that is reached, and an answer for each that is launched.
pub open spec fn answered(
    dispatches: Seq<VulkanMountedPlacedResidentPedalDispatchView>,
    push_constants: Seq<PushConstantBytes>,
    answers: Seq<LaunchAnswer>,
) -> bool {
    forall|k: nat|
        k < dispatches.len() && (#[trigger] dispatch_runs(
            dispatches,
            push_constants,
            answers,
            k,
        )) is Ok ==> k < push_constants.len() && (push_constants[k as int] is Ok ==> k
            < answers.len())
}

/// Zeros for the push constants of each launch.
pub open spec fn zeroed(dispatches: Seq<VulkanMountedPlacedResidentPedalDispatchView>) -> Seq<
    PushConstantBytes,
> {
    Seq::new(
        dispatches.len(),
        |i: int|
            Ok(
                Seq::new(
                    dispatches[i].resident_dispatch.push_constant_byte_count as nat,
                    |k: int| 0u8,
                ),
            ),
    )
}

/// A run of a pedal.
pub open spec fn pedal_run(
    runner: VulkanMountedPlacedResidentPedalRunnerView,
    push_constants: Seq<PushConstantBytes>,
    answers: Seq<LaunchAnswer>,
) -> Result<
    VulkanMountedPlacedResidentPedalRunView,
    VulkanMountedPlacedResidentKernelDispatchErrorView,
> {
    match dispatch_runs(runner.dispatches, push_constants, answers, runner.dispatches.len()) {
        Err(error) => Err(error),
        Ok(dispatch_runs) => Ok(
            VulkanMountedPlacedResidentPedalRunView {
                pedal_id: runner.pedal_id,
                dispatch_runs,
            },
        ),
    }
}

/// A run of a pedal's recorded launches, none of which is timed.
pub open spec fn sequence_run(
    runner: VulkanMountedPlacedResidentPedalRunnerView,
) -> VulkanMountedPlacedResidentPedalRunView {
    VulkanMountedPlacedResidentPedalRunView {
        pedal_id: runner.pedal_id,
        dispatch_runs: runner.dispatches.map_values(untimed()),
    }
}

/// A launch that was not timed.
pub open spec fn untimed() -> spec_fn(VulkanMountedPlacedResidentPedalDispatchView) -> VulkanMountedPlacedResidentPedalDispatchRunView {
    |dispatch: VulkanMountedPlacedResidentPedalDispatchView| dispatch_run(dispatch, 0)
}

/// The time that launches took together, as far as it can be counted.
pub open spec fn total_time(runs: Seq<VulkanMountedPlacedResidentPedalDispatchRunView>) -> u64
    decreases runs.len(),
{
    if runs.len() == 0 {
        0
    } else {
        let front = total_time(runs.drop_last());
        if front + runs.last().run_time_ns > u64::MAX {
            u64::MAX
        } else {
            (front + runs.last().run_time_ns) as u64
        }
    }
}

impl VulkanMountedPlacedResidentPedalRun {
    /// The number of launches.
    pub fn dispatch_count(&self) -> (r: usize)
        ensures
            r == self@.dispatch_runs.len(),
    {
        assert(self@.dispatch_runs.len() == self.dispatch_runs@.len());
        self.dispatch_runs.len()
    }

    /// The time that the launches took together, as far as it can be counted.
    #[verifier::loop_isolation(false)]
    pub fn run_time_ns(&self) -> (r: u64)
        ensures
            r == total_time(self@.dispatch_runs),
    {
        let ghost all = self.dispatch_runs.deep_view();
        let mut total: u64 = 0;
        let mut i: usize = 0;
        assert(all.take(0) =~= Seq::empty());
        while i < self.dispatch_runs.len()
            invariant
                i <= self.dispatch_runs.len(),
                total == total_time(all.take(i as int)),
            decreases self.dispatch_runs.len() - i,
        {
            assert(all.take(i + 1).drop_last() =~= all.take(i as int));
            assert(all[i as int] == self.dispatch_runs@[i as int]@);
            total = total.saturating_add(self.dispatch_runs[i].run_time_ns);
            i += 1;
        }
        assert(all.take(all.len() as int) =~= all);
        total
    }

    /// The nodes that were launched.
    #[verifier::loop_isolation(false)]
    pub fn node_ids(&self) -> (r: Vec<&str>)
        ensures
            r.deep_view() == self@.dispatch_runs.map_values(node_of_run()),
    {
        let ghost all_ids = self.dispatch_runs.deep_view();
        let ghost step_ids = node_of_run();
        let mut ids: Vec<&str> = Vec::new();
        let mut i: usize = 0;
        while i < self.dispatch_runs.len()
            invariant
                i <= self.dispatch_runs.len(),
                ids@.len() == i,
                forall|j: int| 0 <= j < i ==> (#[trigger] ids.deep_view()[j]) == step_ids(all_ids[j]),
            decreases self.dispatch_runs.len() - i,
        {
            let item = &self.dispatch_runs[i];
            assert(all_ids[i as int] == item.deep_view());
            let added = item.node_id.as_str();
            let ghost before = ids.deep_view();
            let ghost value = added.deep_view();
            ids.push(added);
            assert(ids.deep_view() =~= before.push(value));
            i += 1;
        }
        assert(ids.deep_view() =~= all_ids.map_values(step_ids));
        ids
    }
}

/// The node of a launch.
pub open spec fn node_of_run() -> spec_fn(VulkanMountedPlacedResidentPedalDispatchRunView) -> Seq<
    char,
> {
    |run: VulkanMountedPlacedResidentPedalDispatchRunView| run.node_id
}

impl VulkanMountedPlacedResidentPedalRunner {
    /// Gathers the launches of a pedal.
    #[verifier::loop_isolation(false)]
    pub fn from_mounted_bound_plan(
        device: &VulkanComputeDevice,
        mounted: &VulkanMountedPlacedStreamCircuit,
        mounted_bound_plan: &VulkanMountedPlacedBoundDispatchPlan,
        pedal_id: &str,
        loaded_manifest: &VulkanLoadedReusableKernelArtifactManifest,
    ) -> (r: Result<Self, VulkanMountedPlacedResidentKernelDispatchError>)
        ensures
            sequence::outcome(r) == pedal_runner(
                mounted@,
                device@.device_id,
                mounted_bound_plan@,
                pedal_id@,
                loaded_manifest@,
            ),
    {
        reveal(pedal_runner);
        let ghost all = mounted_bound_plan.dispatches.deep_view();
        let ghost init = no_launches();
        let ghost step = pedal_step(
            mounted@,
            device@.device_id,
            pedal_id@,
            loaded_manifest@,
        );
        let mut dispatches: Vec<VulkanMountedPlacedResidentPedalDispatch> = Vec::new();
        let mut total_descriptor_count: usize = 0;
        let mut total_push_constant_byte_count: u32 = 0;
        let mut i: usize = 0;
        assert(all.take(0) =~= Seq::empty());
        assert(dispatches.deep_view() =~= Seq::empty());
        while i < mounted_bound_plan.dispatches.len()
            invariant
                i <= mounted_bound_plan.dispatches.len(),
                sequence::try_fold(all.take(i as int), init, step) == Ok::<
                    PedalLaunches,
                    VulkanMountedPlacedResidentKernelDispatchErrorView,
                >(
                    PedalLaunches {
                        dispatches: dispatches.deep_view(),
                        descriptors: total_descriptor_count,
                        push_constant_bytes: total_push_constant_byte_count,
                    },
                ),
            decreases mounted_bound_plan.dispatches.len() - i,
        {
            let dispatch = &mounted_bound_plan.dispatches[i];
            proof {
                assert(all[i as int] == dispatch@);
                sequence::lemma_try_fold_step(all, init, step, i as int);
                if sequence::try_fold(all.take(i + 1), init, step) is Err {
                    sequence::lemma_try_fold_error(all, init, step, i + 1);
                }
            }
            if text::same(dispatch.component_id.as_str(), pedal_id) {
                let resident_dispatch: VulkanResidentKernelDispatch =
                    match mounted.create_resident_kernel_dispatch_for_bound_dispatch(
                    device,
                    dispatch,
                    loaded_manifest,
                ) {
                    Err(error) => {
                        return Err(error);
                    },
                    Ok(resident_dispatch) => resident_dispatch,
                };
                match total_descriptor_count.checked_add(resident_dispatch.descriptor_count()) {
                    None => {
                        return Err(
                            VulkanMountedPlacedResidentKernelDispatchError::PedalRunnerDescriptorCountOverflow {
                                pedal_id: pedal_id.to_owned(),
                            },
                        );
                    },
                    Some(sum) => {
                        total_descriptor_count = sum;
                    },
                }
                match total_push_constant_byte_count.checked_add(
                    resident_dispatch.push_constant_byte_count,
                ) {
                    None => {
                        return Err(
                            VulkanMountedPlacedResidentKernelDispatchError::PedalRunnerPushConstantByteCountOverflow {
                                pedal_id: pedal_id.to_owned(),
                            },
                        );
                    },
                    Some(sum) => {
                        total_push_constant_byte_count = sum;
                    },
                }
                let ghost before = dispatches.deep_view();
                let added = launch(dispatch, resident_dispatch);
                let ghost value = added@;
                dispatches.push(added);
                assert(dispatches.deep_view() =~= before.push(value));
            }
            i += 1;
        }
        assert(all.take(all.len() as int) =~= all);
        assert(dispatches.deep_view().len() == dispatches@.len());
        if dispatches.len() == 0 {
            return Err(
                VulkanMountedPlacedResidentKernelDispatchError::MissingPedalDispatches {
                    pedal_id: pedal_id.to_owned(),
                },
            );
        }
        Ok(
            VulkanMountedPlacedResidentPedalRunner {
                pedal_id: pedal_id.to_owned(),
                dispatches,
                total_descriptor_count,
                total_push_constant_byte_count,
                stream_control_buffer: mounted.stream_control_buffer.clone(),
            },
        )
    }

    /// The number of launches.
    pub fn dispatch_count(&self) -> (r: usize)
        ensures
            r == self@.dispatches.len(),
    {
        assert(self@.dispatches.len() == self.dispatches@.len());
        self.dispatches.len()
    }

    /// The push constants with which a run without stream control launches: zeros.
    #[verifier::loop_isolation(false)]
    pub fn zeroed_push_constants(&self) -> (r: Vec<
        Result<Vec<u8>, VulkanMountedPlacedResidentKernelDispatchError>,
    >)
        ensures
            sequence::outcomes(r@) == zeroed(self@.dispatches),
    {
        let ghost all = self.dispatches.deep_view();
        let mut list: Vec<Result<Vec<u8>, VulkanMountedPlacedResidentKernelDispatchError>> =
            Vec::new();
        let mut i: usize = 0;
        while i < self.dispatches.len()
            invariant
                i <= self.dispatches.len(),
                list@.len() == i,
                forall|k: int|
                    0 <= k < i ==> sequence::outcome(#[trigger] list@[k]) == zeroed(all)[k],
            decreases self.dispatches.len() - i,
        {
            assert(all[i as int] == self.dispatches@[i as int]@);
            let count: u32 = self.dispatches[i].resident_dispatch.push_constant_byte_count;
            let mut bytes: Vec<u8> = Vec::new();
            let mut k: u32 = 0;
            while k < count
                invariant
                    k <= count,
                    bytes@ == Seq::new(k as nat, |j: int| 0u8),
                decreases count - k,
            {
                bytes.push(0);
                k += 1;
                assert(bytes@ =~= Seq::new(k as nat, |j: int| 0u8));
            }
            assert(bytes.deep_view() =~= Seq::new(count as nat, |j: int| 0u8));
            list.push(Ok(bytes));
            i += 1;
        }
        assert(sequence::outcomes(list@) =~= zeroed(all));
        list
    }

    /// The run of the pedal with zeroed push constants, from what the device answered for its
    /// launches.
    pub fn run_zeroed_push_constants(&self, answers: &Vec<Result<u64, VulkanError>>) -> (r: Result<
        VulkanMountedPlacedResidentPedalRun,
        VulkanMountedPlacedResidentKernelDispatchError,
    >)
        requires
            answered(self@.dispatches, zeroed(self@.dispatches), sequence::outcomes(answers@)),
        ensures
            sequence::outcome(r) == pedal_run(
                self@,
                zeroed(self@.dispatches),
                sequence::outcomes(answers@),
            ),
    {
        let push_constants: Vec<
            Result<Vec<u8>, VulkanMountedPlacedResidentKernelDispatchError>,
        > = self.zeroed_push_constants();
        self.run_with_push_constant_bytes(&push_constants, answers)
    }

    /// What is written before the launches run under stream control.
    pub fn stream_control_write(&self, control: VulkanMountedPlacedStreamControl) -> (r:
        VulkanStreamControlWrite)
        ensures
            r@ == stream_control::control_write(self@.stream_control_buffer, control),
    {
        VulkanStreamControlWrite::into_buffer(&self.stream_control_buffer, control)
    }

    /// The run of the pedal under stream control, from what came of writing the control
    /// buffer, the push constants of its launches, and what the device answered for them.
    pub fn run_with_stream_control(
        &self,
        written: &Result<(), VulkanError>,
        push_constants: &Vec<Result<Vec<u8>, VulkanMountedPlacedResidentKernelDispatchError>>,
        answers: &Vec<Result<u64, VulkanError>>,
    ) -> (r: Result<
        VulkanMountedPlacedResidentPedalRun,
        VulkanMountedPlacedResidentKernelDispatchError,
    >)
        requires
            written is Ok ==> answered(
                self@.dispatches,
                sequence::outcomes(push_constants@),
                sequence::outcomes(answers@),
            ),
        ensures
            sequence::outcome(r) == (match sequence::outcome(*written) {
                Err(error) => Err(
                    VulkanMountedPlacedResidentKernelDispatchErrorView::Vulkan(error),
                ),
                Ok(_) => pedal_run(
                    self@,
                    sequence::outcomes(push_constants@),
                    sequence::outcomes(answers@),
                ),
            }),
    {
        match written {
            Err(error) => Err(VulkanMountedPlacedResidentKernelDispatchError::Vulkan(error.clone())),
            Ok(_) => self.run_with_push_constant_bytes(push_constants, answers),
        }
    }

    #[verifier::loop_isolation(false)]
    fn run_with_push_constant_bytes(
        &self,
        push_constants: &Vec<Result<Vec<u8>, VulkanMountedPlacedResidentKernelDispatchError>>,
        answers: &Vec<Result<u64, VulkanError>>,
    ) -> (r: Result<
        VulkanMountedPlacedResidentPedalRun,
        VulkanMountedPlacedResidentKernelDispatchError,
    >)
        requires
            answered(
                self@.dispatches,
                sequence::outcomes(push_constants@),
                sequence::outcomes(answers@),
            ),
        ensures
            sequence::outcome(r) == pedal_run(
                self@,
                sequence::outcomes(push_constants@),
                sequence::outcomes(answers@),
            ),
    {
        let ghost all = self.dispatches.deep_view();
        let ghost bytes = sequence::outcomes(push_constants@);
        let ghost replies = sequence::outcomes(answers@);
        let mut runs: Vec<VulkanMountedPlacedResidentPedalDispatchRun> = Vec::new();
        let mut i: usize = 0;
        assert(runs.deep_view() =~= Seq::empty());
        while i < self.dispatches.len()
            invariant
                i <= self.dispatches.len(),
                dispatch_runs(all, bytes, replies, i as nat) == Ok::<
                    Seq<VulkanMountedPlacedResidentPedalDispatchRunView>,
                    VulkanMountedPlacedResidentKernelDispatchErrorView,
                >(runs.deep_view()),
            decreases self.dispatches.len() - i,
        {
            proof {
                assert(all[i as int] == self.dispatches@[i as int]@);
                assert(dispatch_runs(all, bytes, replies, i as nat) is Ok);
                assert(bytes[i as int] == sequence::outcome(push_constants@[i as int]));
                if dispatch_runs(all, bytes, replies, (i + 1) as nat) is Err {
                    lemma_dispatch_runs_error(all, bytes, replies, (i + 1) as nat, all.len());
                }
            }
            match &push_constants[i] {
                Err(error) => {
                    return Err(error.clone());
                },
                Ok(_) => {},
            }
            assert(replies[i as int] == sequence::outcome(answers@[i as int]));
            match &answers[i] {
                Err(error) => {
                    return Err(
                        VulkanMountedPlacedResidentKernelDispatchError::Vulkan(error.clone()),
                    );
                },
                Ok(run_time_ns) => {
                    let ghost before = runs.deep_view();
                    let added = run_of(&self.dispatches[i], *run_time_ns);
                    let ghost value = added@;
                    runs.push(added);
                    assert(runs.deep_view() =~= before.push(value));
                },
            }
            i += 1;
        }
        Ok(
            VulkanMountedPlacedResidentPedalRun {
                pedal_id: self.pedal_id.clone(),
                dispatch_runs: runs,
            },
        )
    }

    /// The run of the pedal's recorded launches. A recorded sequence has one measurable
    /// boundary, so that no launch of it is timed.
    #[verifier::loop_isolation(false)]
    pub fn completed_sequence_run(&self) -> (r: VulkanMountedPlacedResidentPedalRun)
        ensures
            r@ == sequence_run(self@),
    {
        let ghost all_runs = self.dispatches.deep_view();
        let ghost step_runs = untimed();
        let mut runs: Vec<VulkanMountedPlacedResidentPedalDispatchRun> = Vec::new();
        let mut i: usize = 0;
        while i < self.dispatches.len()
            invariant
                i <= self.dispatches.len(),
                runs@.len() == i,
                forall|j: int| 0 <= j < i ==> (#[trigger] runs.deep_view()[j]) == step_runs(all_runs[j]),
            decreases self.dispatches.len() - i,
        {
            let item = &self.dispatches[i];
            assert(all_runs[i as int] == item.deep_view());
            let added = run_of(item, 0);
            let ghost before = runs.deep_view();
            let ghost value = added.deep_view();
            runs.push(added);
            assert(runs.deep_view() =~= before.push(value));
            i += 1;
        }
        assert(runs.deep_view() =~= all_runs.map_values(step_runs));
        VulkanMountedPlacedResidentPedalRun {
            pedal_id: self.pedal_id.clone(),
            dispatch_runs: runs,
        }
    }
}

// ---------------------------------------------------------------------------
// The pedals of a device
// ---------------------------------------------------------------------------

/// The runners of a device's pedals that were made so far, with what they add up to.
#[verifier::ext_equal]
pub struct PedalboardRunners {
    pub pedals: Seq<VulkanMountedPlacedResidentPedalRunnerView>,
    pub descriptors: usize,
    pub push_constant_bytes: u32,
}

/// How a pedal joins a device's runner.
pub open spec fn pedalboard_step(
    mounted: VulkanMountedPlacedStreamCircuitView,
    device_id: Seq<char>,
    plan: VulkanMountedPlacedBoundDispatchPlanView,
    loaded: VulkanLoadedReusableKernelArtifactManifestView,
) -> spec_fn(PedalboardRunners, Seq<char>) -> Result<
    PedalboardRunners,
    VulkanMountedPlacedResidentKernelDispatchErrorView,
> {
    |done: PedalboardRunners, pedal_id: Seq<char>|
        match pedal_runner(mounted, device_id, plan, pedal_id, loaded) {
            Err(error) => Err(error),
            Ok(runner) => if done.descriptors + runner.total_descriptor_count > usize::MAX {
                Err(
                    VulkanMountedPlacedResidentKernelDispatchErrorView::PedalboardRunnerDescriptorCountOverflow {
                        device_id: plan.device_id,
                    },
                )
            } else if done.push_constant_bytes + runner.total_push_constant_byte_count > u32::MAX {
                Err(
                    VulkanMountedPlacedResidentKernelDispatchErrorView::PedalboardRunnerPushConstantByteCountOverflow {
                        device_id: plan.device_id,
                    },
                )
            } else {
                Ok(
                    PedalboardRunners {
                        pedals: done.pedals.push(runner),
                        descriptors: (done.descriptors + runner.total_descriptor_count) as usize,
                        push_constant_bytes: (done.push_constant_bytes
                            + runner.total_push_constant_byte_count) as u32,
                    },
                )
            },
        }
}

/// No pedals yet.
pub open spec fn no_runners() -> PedalboardRunners {
    PedalboardRunners { pedals: Seq::empty(), descriptors: 0, push_constant_bytes: 0 }
}

/// The runner of a device's pedals.
pub open spec fn pedalboard_runner(
    mounted: VulkanMountedPlacedStreamCircuitView,
    device_id: Seq<char>,
    plan: VulkanMountedPlacedBoundDispatchPlanView,
    pedal_ids: Seq<Seq<char>>,
    loaded: VulkanLoadedReusableKernelArtifactManifestView,
) -> Result<
    VulkanMountedPlacedResidentPedalboardRunnerView,
    VulkanMountedPlacedResidentKernelDispatchErrorView,
> {
    match sequence::try_fold(
        pedal_ids,
        no_runners(),
        pedalboard_step(mounted, device_id, plan, loaded),
    ) {
        Err(error) => Err(error),
        Ok(done) => if done.pedals.len() == 0 {
            Err(
                VulkanMountedPlacedResidentKernelDispatchErrorView::MissingPedalboardPedals {
                    device_id: plan.device_id,
                },
            )
        } else {
            Ok(
                VulkanMountedPlacedResidentPedalboardRunnerView {
                    device_id: plan.device_id,
                    pedals: done.pedals,
                    total_descriptor_count: done.descriptors,
                    total_push_constant_byte_count: done.push_constant_bytes,
                },
            )
        },
    }
}

/// The number of launches of a pedal.
pub open spec fn launch_count() -> spec_fn(VulkanMountedPlacedResidentPedalRunnerView) -> nat {
    |runner: VulkanMountedPlacedResidentPedalRunnerView| runner.dispatches.len()
}

/// The name of a pedal.
pub open spec fn name_of_runner() -> spec_fn(VulkanMountedPlacedResidentPedalRunnerView) -> Seq<
    char,
> {
    |runner: VulkanMountedPlacedResidentPedalRunnerView| runner.pedal_id
}

/// The run of a pedal, or why it failed.
pub type PedalRunOutcome = Result<
    VulkanMountedPlacedResidentPedalRunView,
    VulkanMountedPlacedResidentKernelDispatchErrorView,
>;

/// The runs of the first `n` pedals, one after the other, up to the first failure.
pub open spec fn pedal_runs(runs: Seq<PedalRunOutcome>, n: nat) -> Result<
    Seq<VulkanMountedPlacedResidentPedalRunView>,
    VulkanMountedPlacedResidentKernelDispatchErrorView,
>
    decreases n,
{
    if n == 0 {
        Ok(Seq::empty())
    } else {
        match pedal_runs(runs, (n - 1) as nat) {
            Err(error) => Err(error),
            Ok(done) => match runs[n - 1] {
                Err(error) => Err(error),
                Ok(run) => Ok(done.push(run)),
            },
        }
    }
}

proof fn lemma_pedal_runs_error(runs: Seq<PedalRunOutcome>, i: nat, n: nat)
    requires
        i <= n,
        pedal_runs(runs, i) is Err,
    ensures
        pedal_runs(runs, n) == pedal_runs(runs, i),
    decreases n - i,
{
    if i < n {
        lemma_pedal_runs_error(runs, i + 1, n);
    }
}

/// A run of a device's pedals, from the runs of the pedals.
pub open spec fn pedalboard_run(
    runner: VulkanMountedPlacedResidentPedalboardRunnerView,
    runs: Seq<PedalRunOutcome>,
) -> Result<
    VulkanMountedPlacedResidentPedalboardRunView,
    VulkanMountedPlacedResidentKernelDispatchErrorView,
> {
    match pedal_runs(runs, runner.pedals.len()) {
        Err(error) => Err(error),
        Ok(pedal_runs) => Ok(
            VulkanMountedPlacedResidentPedalboardRunView {
                device_id: runner.device_id,
                pedal_runs,
            },
        ),
    }
}

/// The runs of pedals with zeroed push constants.
pub open spec fn zeroed_runs(
    pedals: Seq<VulkanMountedPlacedResidentPedalRunnerView>,
    answers: Seq<Seq<LaunchAnswer>>,
) -> Seq<PedalRunOutcome> {
    Seq::new(
        pedals.len(),
        |i: int| pedal_run(pedals[i], zeroed(pedals[i].dispatches), answers[i]),
    )
}

/// The runs of pedals under stream control.
pub open spec fn controlled_runs(
    pedals: Seq<VulkanMountedPlacedResidentPedalRunnerView>,
    written: Seq<Result<(), Seq<char>>>,
    push_constants: Seq<Seq<PushConstantBytes>>,
    answers: Seq<Seq<LaunchAnswer>>,
) -> Seq<PedalRunOutcome> {
    Seq::new(
        pedals.len(),
        |i: int|
            match written[i] {
                Err(error) => Err(
                    VulkanMountedPlacedResidentKernelDispatchErrorView::Vulkan(error),
                ),
                Ok(_) => pedal_run(pedals[i], push_constants[i], answers[i]),
            },
    )
}

/// The answers for each pedal.
pub open spec fn answer_lists(answers: Seq<Vec<Result<u64, VulkanError>>>) -> Seq<Seq<LaunchAnswer>> {
    Seq::new(answers.len(), |i: int| sequence::outcomes(answers[i]@))
}

/// The push constants for each pedal.
pub open spec fn push_constant_lists(
    lists: Seq<Vec<Result<Vec<u8>, VulkanMountedPlacedResidentKernelDispatchError>>>,
) -> Seq<Seq<PushConstantBytes>> {
    Seq::new(lists.len(), |i: int| sequence::outcomes(lists[i]@))
}

impl VulkanMountedPlacedResidentPedalboardRunner {
    /// Gathers the runners of a device's pedals.
    #[verifier::loop_isolation(false)]
    pub fn from_mounted_bound_plan(
        device: &VulkanComputeDevice,
        mounted: &VulkanMountedPlacedStreamCircuit,
        mounted_bound_plan: &VulkanMountedPlacedBoundDispatchPlan,
        pedal_ids: &Vec<String>,
        loaded_manifest: &VulkanLoadedReusableKernelArtifactManifest,
    ) -> (r: Result<Self, VulkanMountedPlacedResidentKernelDispatchError>)
        ensures
            sequence::outcome(r) == pedalboard_runner(
                mounted@,
                device@.device_id,
                mounted_bound_plan@,
                pedal_ids.deep_view(),
                loaded_manifest@,
            ),
    {
        let ghost all = pedal_ids.deep_view();
        let ghost init = no_runners();
        let ghost step = pedalboard_step(
            mounted@,
            device@.device_id,
            mounted_bound_plan@,
            loaded_manifest@,
        );
        let mut pedals: Vec<VulkanMountedPlacedResidentPedalRunner> = Vec::new();
        let mut total_descriptor_count: usize = 0;
        let mut total_push_constant_byte_count: u32 = 0;
        let mut i: usize = 0;
        assert(all.take(0) =~= Seq::empty());
        assert(pedals.deep_view() =~= Seq::empty());
        while i < pedal_ids.len()
            invariant
                i <= pedal_ids.len(),
                sequence::try_fold(all.take(i as int), init, step) == Ok::<
                    PedalboardRunners,
                    VulkanMountedPlacedResidentKernelDispatchErrorView,
                >(
                    PedalboardRunners {
                        pedals: pedals.deep_view(),
                        descriptors: total_descriptor_count,
                        push_constant_bytes: total_push_constant_byte_count,
                    },
                ),
            decreases pedal_ids.len() - i,
        {
            proof {
                assert(all[i as int] == pedal_ids@[i as int]@);
                sequence::lemma_try_fold_step(all, init, step, i as int);
                if sequence::try_fold(all.take(i + 1), init, step) is Err {
                    sequence::lemma_try_fold_error(all, init, step, i + 1);
                }
            }
            let runner: VulkanMountedPlacedResidentPedalRunner =
                match VulkanMountedPlacedResidentPedalRunner::from_mounted_bound_plan(
                device,
                mounted,
                mounted_bound_plan,
                pedal_ids[i].as_str(),
                loaded_manifest,
            ) {
                Err(error) => {
                    return Err(error);
                },
                Ok(runner) => runner,
            };
            match total_descriptor_count.checked_add(runner.total_descriptor_count) {
                None => {
                    return Err(
                        VulkanMountedPlacedResidentKernelDispatchError::PedalboardRunnerDescriptorCountOverflow {
                            device_id: mounted_bound_plan.device_id.clone(),
                        },
                    );
                },
                Some(sum) => {
                    total_descriptor_count = sum;
                },
            }
            match total_push_constant_byte_count.checked_add(
                runner.total_push_constant_byte_count,
            ) {
                None => {
                    return Err(
                        VulkanMountedPlacedResidentKernelDispatchError::PedalboardRunnerPushConstantByteCountOverflow {
                            device_id: mounted_bound_plan.device_id.clone(),
                        },
                    );
                },
                Some(sum) => {
                    total_push_constant_byte_count = sum;
                },
            }
            let ghost before = pedals.deep_view();
            let ghost value = runner@;
            pedals.push(runner);
            assert(pedals.deep_view() =~= before.push(value));
            i += 1;
        }
        assert(all.take(all.len() as int) =~= all);
        assert(pedals.deep_view().len() == pedals@.len());
        if pedals.len() == 0 {
            return Err(
                VulkanMountedPlacedResidentKernelDispatchError::MissingPedalboardPedals {
                    device_id: mounted_bound_plan.device_id.clone(),
                },
            );
        }
        Ok(
            VulkanMountedPlacedResidentPedalboardRunner {
                device_id: mounted_bound_plan.device_id.clone(),
                pedals,
                total_descriptor_count,
                total_push_constant_byte_count,
            },
        )
    }

    /// The number of pedals.
    pub fn pedal_count(&self) -> (r: usize)
        ensures
            r == self@.pedals.len(),
    {
        assert(self@.pedals.len() == self.pedals@.len());
        self.pedals.len()
    }

    /// The number of launches of all pedals.
    #[verifier::loop_isolation(false)]
    pub fn dispatch_count(&self) -> (r: usize)
        requires
            sequence::total(self@.pedals, launch_count()) <= usize::MAX,
        ensures
            r == sequence::total(self@.pedals, launch_count()),
    {
        let ghost all_count = self.pedals.deep_view();
        let ghost size_count = launch_count();
        let mut count: usize = 0;
        let mut i: usize = 0;
        assert(all_count.take(0) =~= Seq::empty());
        while i < self.pedals.len()
            invariant
                i <= self.pedals.len(),
                count == sequence::total(all_count.take(i as int), size_count),
            decreases self.pedals.len() - i,
        {
            let item = &self.pedals[i];
            proof {
                sequence::lemma_total_step(all_count, size_count, i as int);
                sequence::lemma_total_prefix(all_count, size_count, i + 1);
                assert(all_count[i as int] == item.deep_view());
            }
            count = count + item.dispatch_count();
            i += 1;
        }
        assert(all_count.take(all_count.len() as int) =~= all_count);
        count
    }

    /// The pedals, in the order in which they run.
    #[verifier::loop_isolation(false)]
    pub fn pedal_ids(&self) -> (r: Vec<&str>)
        ensures
            r.deep_view() == self@.pedals.map_values(name_of_runner()),
    {
        let ghost all_ids = self.pedals.deep_view();
        let ghost step_ids = name_of_runner();
        let mut ids: Vec<&str> = Vec::new();
        let mut i: usize = 0;
        while i < self.pedals.len()
            invariant
                i <= self.pedals.len(),
                ids@.len() == i,
                forall|j: int| 0 <= j < i ==> (#[trigger] ids.deep_view()[j]) == step_ids(all_ids[j]),
            decreases self.pedals.len() - i,
        {
            let item = &self.pedals[i];
            assert(all_ids[i as int] == item.deep_view());
            let added = item.pedal_id.as_str();
            let ghost before = ids.deep_view();
            let ghost value = added.deep_view();
            ids.push(added);
            assert(ids.deep_view() =~= before.push(value));
            i += 1;
        }
        assert(ids.deep_view() =~= all_ids.map_values(step_ids));
        ids
    }

    /// The run of the pedals with zeroed push constants, from what the device answered for the
    /// launches of each, up to the first failure.
    #[verifier::loop_isolation(false)]
    pub fn run_zeroed_push_constants(&self, answers: &Vec<Vec<Result<u64, VulkanError>>>) -> (r:
        Result<
        VulkanMountedPlacedResidentPedalboardRun,
        VulkanMountedPlacedResidentKernelDispatchError,
    >)
        requires
            forall|k: nat|
                k < self@.pedals.len() && (#[trigger] pedal_runs(
                    zeroed_runs(self@.pedals, answer_lists(answers@)),
                    k,
                )) is Ok ==> k < answers@.len() && answered(
                    self@.pedals[k as int].dispatches,
                    zeroed(self@.pedals[k as int].dispatches),
                    answer_lists(answers@)[k as int],
                ),
        ensures
            sequence::outcome(r) == pedalboard_run(
                self@,
                zeroed_runs(self@.pedals, answer_lists(answers@)),
            ),
    {
        let ghost all = self.pedals.deep_view();
        let ghost outcomes = zeroed_runs(all, answer_lists(answers@));
        let mut runs: Vec<VulkanMountedPlacedResidentPedalRun> = Vec::new();
        let mut i: usize = 0;
        assert(runs.deep_view() =~= Seq::empty());
        while i < self.pedals.len()
            invariant
                i <= self.pedals.len(),
                pedal_runs(outcomes, i as nat) == Ok::<
                    Seq<VulkanMountedPlacedResidentPedalRunView>,
                    VulkanMountedPlacedResidentKernelDispatchErrorView,
                >(runs.deep_view()),
            decreases self.pedals.len() - i,
        {
            proof {
                assert(all[i as int] == self.pedals@[i as int]@);
                assert(pedal_runs(outcomes, i as nat) is Ok);
                if pedal_runs(outcomes, (i + 1) as nat) is Err {
                    lemma_pedal_runs_error(outcomes, (i + 1) as nat, all.len());
                }
            }
            match self.pedals[i].run_zeroed_push_constants(&answers[i]) {
                Err(error) => {
                    return Err(error);
                },
                Ok(run) => {
                    let ghost before = runs.deep_view();
                    let ghost value = run@;
                    runs.push(run);
                    assert(runs.deep_view() =~= before.push(value));
                },
            }
            i += 1;
        }
        Ok(
            VulkanMountedPlacedResidentPedalboardRun {
                device_id: self.device_id.clone(),
                pedal_runs: runs,
            },
        )
    }

    /// The run of the pedals under stream control, from what came of writing the control
    /// buffer for each, the push constants of their launches, and what the device answered for
    /// them, up to the first failure.
    #[verifier::loop_isolation(false)]
    pub fn run_with_stream_control(
        &self,
        written: &Vec<Result<(), VulkanError>>,
        push_constants: &Vec<
            Vec<Result<Vec<u8>, VulkanMountedPlacedResidentKernelDispatchError>>,
        >,
        answers: &Vec<Vec<Result<u64, VulkanError>>>,
    ) -> (r: Result<
        VulkanMountedPlacedResidentPedalboardRun,
        VulkanMountedPlacedResidentKernelDispatchError,
    >)
        requires
            written@.len() == self@.pedals.len(),
            push_constants@.len() == self@.pedals.len(),
            answers@.len() == self@.pedals.len(),
            forall|k: nat|
                k < self@.pedals.len() && (#[trigger] pedal_runs(
                    controlled_runs(
                        self@.pedals,
                        sequence::outcomes(written@),
                        push_constant_lists(push_constants@),
                        answer_lists(answers@),
                    ),
                    k,
                )) is Ok && written@[k as int] is Ok ==> answered(
                    self@.pedals[k as int].dispatches,
                    push_constant_lists(push_constants@)[k as int],
                    answer_lists(answers@)[k as int],
                ),
        ensures
            sequence::outcome(r) == pedalboard_run(
                self@,
                controlled_runs(
                    self@.pedals,
                    sequence::outcomes(written@),
                    push_constant_lists(push_constants@),
                    answer_lists(answers@),
                ),
            ),
    {
        let ghost all = self.pedals.deep_view();
        let ghost outcomes = controlled_runs(
            all,
            sequence::outcomes(written@),
            push_constant_lists(push_constants@),
            answer_lists(answers@),
        );
        let mut runs: Vec<VulkanMountedPlacedResidentPedalRun> = Vec::new();
        let mut i: usize = 0;
        assert(runs.deep_view() =~= Seq::empty());
        while i < self.pedals.len()
            invariant
                i <= self.pedals.len(),
                pedal_runs(outcomes, i as nat) == Ok::<
                    Seq<VulkanMountedPlacedResidentPedalRunView>,
                    VulkanMountedPlacedResidentKernelDispatchErrorView,
                >(runs.deep_view()),
            decreases self.pedals.len() - i,
        {
            proof {
                assert(all[i as int] == self.pedals@[i as int]@);
                assert(pedal_runs(outcomes, i as nat) is Ok);
                assert(sequence::outcomes(written@)[i as int] == sequence::outcome(
                    written@[i as int],
                ));
                if pedal_runs(outcomes, (i + 1) as nat) is Err {
                    lemma_pedal_runs_error(outcomes, (i + 1) as nat, all.len());
                }
            }
            match self.pedals[i].run_with_stream_control(
                &written[i],
                &push_constants[i],
                &answers[i],
            ) {
                Err(error) => {
                    return Err(error);
                },
                Ok(run) => {
                    let ghost before = runs.deep_view();
                    let ghost value = run@;
                    runs.push(run);
                    assert(runs.deep_view() =~= before.push(value));
                },
            }
            i += 1;
        }
        Ok(
            VulkanMountedPlacedResidentPedalboardRun {
                device_id: self.device_id.clone(),
                pedal_runs: runs,
            },
        )
    }

    /// The run of the pedals' recorded launches.
    #[verifier::loop_isolation(false)]
    pub fn completed_sequence_run(&self) -> (r: VulkanMountedPlacedResidentPedalboardRun)
        ensures
            r@.device_id == self@.device_id,
            r@.pedal_runs == self@.pedals.map_values(run_of_sequence()),
    {
        let ghost all_runs = self.pedals.deep_view();
        let ghost step_runs = run_of_sequence();
        let mut runs: Vec<VulkanMountedPlacedResidentPedalRun> = Vec::new();
        let mut i: usize = 0;
        while i < self.pedals.len()
            invariant
                i <= self.pedals.len(),
                runs@.len() == i,
                forall|j: int| 0 <= j < i ==> (#[trigger] runs.deep_view()[j]) == step_runs(all_runs[j]),
            decreases self.pedals.len() - i,
        {
            let item = &self.pedals[i];
            assert(all_runs[i as int] == item.deep_view());
            let added = item.completed_sequence_run();
            let ghost before = runs.deep_view();
            let ghost value = added.deep_view();
            runs.push(added);
            assert(runs.deep_view() =~= before.push(value));
            i += 1;
        }
        assert(runs.deep_view() =~= all_runs.map_values(step_runs));
        VulkanMountedPlacedResidentPedalboardRun {
            device_id: self.device_id.clone(),
            pedal_runs: runs,
        }
    }
}

/// The run of a pedal's recorded launches.
pub open spec fn run_of_sequence() -> spec_fn(VulkanMountedPlacedResidentPedalRunnerView) -> VulkanMountedPlacedResidentPedalRunView {
    |runner: VulkanMountedPlacedResidentPedalRunnerView| sequence_run(runner)
}

proof fn lemma_pedal_launches(
    dispatches: Seq<VulkanMountedPlacedBoundDispatchView>,
    mounted: VulkanMountedPlacedStreamCircuitView,
    device_id: Seq<char>,
    pedal_id: Seq<char>,
    loaded: VulkanLoadedReusableKernelArtifactManifestView,
    i: int,
)
    requires
        sequence::try_fold(
            dispatches,
            no_launches(),
            pedal_step(mounted, device_id, pedal_id, loaded),
        ) is Ok,
        0 <= i < sequence::try_fold(
            dispatches,
            no_launches(),
            pedal_step(mounted, device_id, pedal_id, loaded),
        )->Ok_0.dispatches.len(),
    ensures
        sequence::try_fold(
            dispatches,
            no_launches(),
            pedal_step(mounted, device_id, pedal_id, loaded),
        )->Ok_0.dispatches[i].pedal_id == pedal_id,
    decreases dispatches.len(),
{
    if dispatches.len() > 0 {
        let step = pedal_step(mounted, device_id, pedal_id, loaded);
        let before = sequence::try_fold(dispatches.drop_last(), no_launches(), step);
        if i < before->Ok_0.dispatches.len() {
            lemma_pedal_launches(
                dispatches.drop_last(),
                mounted,
                device_id,
                pedal_id,
                loaded,
                i,
            );
        }
    }
}

/// A pedal's runner launches that pedal alone, and at least once.
pub proof fn runners_launch_their_pedal(
    mounted: VulkanMountedPlacedStreamCircuitView,
    device_id: Seq<char>,
    plan: VulkanMountedPlacedBoundDispatchPlanView,
    pedal_id: Seq<char>,
    loaded: VulkanLoadedReusableKernelArtifactManifestView,
)
    requires
        pedal_runner(mounted, device_id, plan, pedal_id, loaded) is Ok,
    ensures
        ({
            let runner = pedal_runner(mounted, device_id, plan, pedal_id, loaded)->Ok_0;
            &&& runner.dispatches.len() > 0
            &&& forall|i: int|
                0 <= i < runner.dispatches.len() ==> (
                #[trigger] runner.dispatches[i]).pedal_id == pedal_id
        }),
{
    reveal(pedal_runner);
    let runner = pedal_runner(mounted, device_id, plan, pedal_id, loaded)->Ok_0;
    assert forall|i: int| 0 <= i < runner.dispatches.len() implies (
    #[trigger] runner.dispatches[i]).pedal_id == pedal_id by {
        lemma_pedal_launches(plan.dispatches, mounted, device_id, pedal_id, loaded, i);
    }
}

/// Whether a launch belongs to a pedal.
pub open spec fn of_pedal(pedal_id: Seq<char>) -> spec_fn(
    VulkanMountedPlacedBoundDispatchView,
) -> bool {
    |dispatch: VulkanMountedPlacedBoundDispatchView| dispatch.component_id == pedal_id
}

/// The number of descriptors of a launch.
pub open spec fn launch_descriptors() -> spec_fn(
    VulkanMountedPlacedResidentPedalDispatchView,
) -> nat {
    |launch: VulkanMountedPlacedResidentPedalDispatchView|
        launch.resident_dispatch.bindings.len()
}

/// The number of push constant bytes of a launch.
pub open spec fn launch_push_constants() -> spec_fn(
    VulkanMountedPlacedResidentPedalDispatchView,
) -> nat {
    |launch: VulkanMountedPlacedResidentPedalDispatchView|
        launch.resident_dispatch.push_constant_byte_count as nat
}

/// Whether a launch is that of a bound dispatch: it carries its names, and what is launched was made
/// for it.
pub open spec fn launches(
    launch: VulkanMountedPlacedResidentPedalDispatchView,
    dispatch: VulkanMountedPlacedBoundDispatchView,
    mounted: VulkanMountedPlacedStreamCircuitView,
    device_id: Seq<char>,
    loaded: VulkanLoadedReusableKernelArtifactManifestView,
) -> bool {
    let made = circuit_mount::resident_launch(mounted, device_id, dispatch, loaded);
    &&& launch.dispatch_index == dispatch.dispatch_index
    &&& launch.kernel_id == dispatch.kernel_id
    &&& launch.pedal_id == dispatch.component_id
    &&& launch.node_id == dispatch.node_id
    &&& launch.op == dispatch.op
    &&& launch.reusable_family_id == dispatch.reusable_family_id
    &&& launch.push_constants == dispatch.push_constants
    &&& made is Ok
    &&& launch.resident_dispatch == made->Ok_0
}

proof fn lemma_launches_in_order(
    dispatches: Seq<VulkanMountedPlacedBoundDispatchView>,
    mounted: VulkanMountedPlacedStreamCircuitView,
    device_id: Seq<char>,
    pedal_id: Seq<char>,
    loaded: VulkanLoadedReusableKernelArtifactManifestView,
    d: int,
)
    requires
        sequence::try_fold(
            dispatches,
            no_launches(),
            pedal_step(mounted, device_id, pedal_id, loaded),
        ) is Ok,
    ensures
        ({
            let done = sequence::try_fold(
                dispatches,
                no_launches(),
                pedal_step(mounted, device_id, pedal_id, loaded),
            )->Ok_0;
            &&& done.dispatches.len() == sequence::count(dispatches, of_pedal(pedal_id))
            &&& done.descriptors == sequence::total(done.dispatches, launch_descriptors())
            &&& done.push_constant_bytes == sequence::total(
                done.dispatches,
                launch_push_constants(),
            )
            &&& 0 <= d < dispatches.len() && of_pedal(pedal_id)(dispatches[d]) ==> {
                let at = sequence::count(dispatches.take(d), of_pedal(pedal_id));
                &&& at < done.dispatches.len()
                &&& launches(
                    done.dispatches[at as int],
                    dispatches[d],
                    mounted,
                    device_id,
                    loaded,
                )
            }
        }),
    decreases dispatches.len(),
{
    if dispatches.len() > 0 {
        let front = dispatches.drop_last();
        let step = pedal_step(mounted, device_id, pedal_id, loaded);
        lemma_launches_in_order(front, mounted, device_id, pedal_id, loaded, d);
        let before = sequence::try_fold(front, no_launches(), step)->Ok_0;
        let after = sequence::try_fold(dispatches, no_launches(), step)->Ok_0;
        assert(step(before, dispatches.last()) == Ok::<
            PedalLaunches,
            VulkanMountedPlacedResidentKernelDispatchErrorView,
        >(after));
        if of_pedal(pedal_id)(dispatches.last()) {
            assert(after.dispatches.drop_last() =~= before.dispatches);
        }
        if 0 <= d < front.len() {
            assert(front.take(d) =~= dispatches.take(d));
            assert(front[d] == dispatches[d]);
        } else if d == front.len() {
            assert(dispatches.take(d) =~= front);
        }
    }
}

/// A runner launches its pedal's dispatches, all of them and in their order, and counts their
/// descriptors and push constants.
pub proof fn runners_launch_every_dispatch_of_their_pedal(
    mounted: VulkanMountedPlacedStreamCircuitView,
    device_id: Seq<char>,
    plan: VulkanMountedPlacedBoundDispatchPlanView,
    pedal_id: Seq<char>,
    loaded: VulkanLoadedReusableKernelArtifactManifestView,
    d: int,
)
    requires
        pedal_runner(mounted, device_id, plan, pedal_id, loaded) is Ok,
        0 <= d < plan.dispatches.len(),
    ensures
        ({
            let runner = pedal_runner(mounted, device_id, plan, pedal_id, loaded)->Ok_0;
            let at = sequence::count(plan.dispatches.take(d), of_pedal(pedal_id)) as int;
            &&& runner.pedal_id == pedal_id
            &&& runner.stream_control_buffer == mounted.stream_control_buffer
            &&& runner.dispatches.len() == sequence::count(
                plan.dispatches,
                of_pedal(pedal_id),
            )
            &&& runner.total_descriptor_count == sequence::total(
                runner.dispatches,
                launch_descriptors(),
            )
            &&& runner.total_push_constant_byte_count == sequence::total(
                runner.dispatches,
                launch_push_constants(),
            )
            &&& of_pedal(pedal_id)(plan.dispatches[d]) ==> {
                &&& at < runner.dispatches.len()
                &&& launches(
                    runner.dispatches[at],
                    plan.dispatches[d],
                    mounted,
                    device_id,
                    loaded,
                )
            }
        }),
{
    reveal(pedal_runner);
    lemma_launches_in_order(plan.dispatches, mounted, device_id, pedal_id, loaded, d);
}

proof fn lemma_runs_in_order(
    dispatches: Seq<VulkanMountedPlacedResidentPedalDispatchView>,
    push_constants: Seq<PushConstantBytes>,
    answers: Seq<LaunchAnswer>,
    n: nat,
    i: int,
)
    requires
        dispatch_runs(dispatches, push_constants, answers, n) is Ok,
    ensures
        ({
            let runs = dispatch_runs(dispatches, push_constants, answers, n)->Ok_0;
            &&& runs.len() == n
            &&& 0 <= i < n ==> push_constants[i] is Ok && answers[i] is Ok && runs[i]
                == dispatch_run(dispatches[i], answers[i]->Ok_0)
        }),
    decreases n,
{
    if n > 0 {
        lemma_runs_in_order(dispatches, push_constants, answers, (n - 1) as nat, i);
    }
}

/// A run of a pedal reports its launches one after the other, each under its own names and with
/// the time that its launch took.
pub proof fn runs_report_every_launch(
    runner: VulkanMountedPlacedResidentPedalRunnerView,
    push_constants: Seq<PushConstantBytes>,
    answers: Seq<LaunchAnswer>,
    i: int,
)
    requires
        pedal_run(runner, push_constants, answers) is Ok,
        0 <= i < runner.dispatches.len(),
        runner.dispatches[i].resident_dispatch.bindings.len() <= usize::MAX,
    ensures
        ({
            let run = pedal_run(runner, push_constants, answers)->Ok_0;
            let launch = runner.dispatches[i];
            let reported = run.dispatch_runs[i];
            &&& run.pedal_id == runner.pedal_id
            &&& run.dispatch_runs.len() == runner.dispatches.len()
            &&& push_constants[i] is Ok
            &&& answers[i] is Ok
            &&& reported.run_time_ns == answers[i]->Ok_0
            &&& reported.dispatch_index == launch.dispatch_index
            &&& reported.kernel_id == launch.kernel_id
            &&& reported.node_id == launch.node_id
            &&& reported.op == launch.op
            &&& reported.reusable_family_id == launch.reusable_family_id
            &&& reported.descriptor_count == launch.resident_dispatch.bindings.len()
            &&& reported.workgroup_count_x == launch.resident_dispatch.workgroup_count_x
            &&& reported.push_constant_byte_count
                == launch.resident_dispatch.push_constant_byte_count
        }),
{
    lemma_runs_in_order(
        runner.dispatches,
        push_constants,
        answers,
        runner.dispatches.len(),
        i,
    );
}

/// A sequence reports its launches as a run of them does, without a time.
pub proof fn sequences_report_every_launch(
    runner: VulkanMountedPlacedResidentPedalRunnerView,
    i: int,
)
    requires
        0 <= i < runner.dispatches.len(),
    ensures
        ({
            let run = sequence_run(runner);
            &&& run.pedal_id == runner.pedal_id
            &&& run.dispatch_runs.len() == runner.dispatches.len()
            &&& run.dispatch_runs[i].dispatch_index == runner.dispatches[i].dispatch_index
            &&& run.dispatch_runs[i].kernel_id == runner.dispatches[i].kernel_id
            &&& run.dispatch_runs[i].node_id == runner.dispatches[i].node_id
            &&& run.dispatch_runs[i].run_time_ns == 0
        }),
{
}

/// Push constants that nobody has set are zero, and as many bytes as the launch takes.
pub proof fn unset_push_constants_are_zero(
    dispatches: Seq<VulkanMountedPlacedResidentPedalDispatchView>,
    i: int,
    k: int,
)
    requires
        0 <= i < dispatches.len(),
    ensures
        zeroed(dispatches).len() == dispatches.len(),
        zeroed(dispatches)[i] is Ok,
        zeroed(dispatches)[i]->Ok_0.len()
            == dispatches[i].resident_dispatch.push_constant_byte_count,
        0 <= k < zeroed(dispatches)[i]->Ok_0.len() ==> zeroed(dispatches)[i]->Ok_0[k] == 0,
{
}

/// The time of a launch that was run.
pub open spec fn launch_time() -> spec_fn(
    VulkanMountedPlacedResidentPedalDispatchRunView,
) -> nat {
    |run: VulkanMountedPlacedResidentPedalDispatchRunView| run.run_time_ns as nat
}

/// The time of a run is that of its launches together, as long as it can be counted.
pub proof fn times_add_up(runs: Seq<VulkanMountedPlacedResidentPedalDispatchRunView>)
    ensures
        sequence::total(runs, launch_time()) <= u64::MAX ==> total_time(runs) == sequence::total(
            runs,
            launch_time(),
        ),
        sequence::total(runs, launch_time()) > u64::MAX ==> total_time(runs) == u64::MAX,
    decreases runs.len(),
{
    if runs.len() > 0 {
        times_add_up(runs.drop_last());
    }
}

/// The number of descriptors of a pedal.
pub open spec fn runner_descriptors() -> spec_fn(
    VulkanMountedPlacedResidentPedalRunnerView,
) -> nat {
    |runner: VulkanMountedPlacedResidentPedalRunnerView| runner.total_descriptor_count as nat
}

/// The number of push constant bytes of a pedal.
pub open spec fn runner_push_constants() -> spec_fn(
    VulkanMountedPlacedResidentPedalRunnerView,
) -> nat {
    |runner: VulkanMountedPlacedResidentPedalRunnerView|
        runner.total_push_constant_byte_count as nat
}

proof fn lemma_runners_in_order(
    mounted: VulkanMountedPlacedStreamCircuitView,
    device_id: Seq<char>,
    plan: VulkanMountedPlacedBoundDispatchPlanView,
    pedal_ids: Seq<Seq<char>>,
    loaded: VulkanLoadedReusableKernelArtifactManifestView,
    i: int,
)
    requires
        sequence::try_fold(
            pedal_ids,
            no_runners(),
            pedalboard_step(mounted, device_id, plan, loaded),
        ) is Ok,
    ensures
        ({
            let done = sequence::try_fold(
                pedal_ids,
                no_runners(),
                pedalboard_step(mounted, device_id, plan, loaded),
            )->Ok_0;
            &&& done.pedals.len() == pedal_ids.len()
            &&& done.descriptors == sequence::total(done.pedals, runner_descriptors())
            &&& done.push_constant_bytes == sequence::total(
                done.pedals,
                runner_push_constants(),
            )
            &&& 0 <= i < pedal_ids.len() ==> pedal_runner(
                mounted,
                device_id,
                plan,
                pedal_ids[i],
                loaded,
            ) is Ok && done.pedals[i] == pedal_runner(
                mounted,
                device_id,
                plan,
                pedal_ids[i],
                loaded,
            )->Ok_0
        }),
    decreases pedal_ids.len(),
{
    if pedal_ids.len() > 0 {
        let front = pedal_ids.drop_last();
        let step = pedalboard_step(mounted, device_id, plan, loaded);
        lemma_runners_in_order(mounted, device_id, plan, front, loaded, i);
        let before = sequence::try_fold(front, no_runners(), step)->Ok_0;
        let after = sequence::try_fold(pedal_ids, no_runners(), step)->Ok_0;
        assert(step(before, pedal_ids.last()) == Ok::<
            PedalboardRunners,
            VulkanMountedPlacedResidentKernelDispatchErrorView,
        >(after));
        assert(after.pedals.drop_last() =~= before.pedals);
    }
}

/// The runners of several pedals are those of each of them, in the given order, and their
/// descriptors and push constants are counted together.
pub proof fn runners_follow_the_given_order(
    mounted: VulkanMountedPlacedStreamCircuitView,
    device_id: Seq<char>,
    plan: VulkanMountedPlacedBoundDispatchPlanView,
    pedal_ids: Seq<Seq<char>>,
    loaded: VulkanLoadedReusableKernelArtifactManifestView,
    i: int,
)
    requires
        pedalboard_runner(mounted, device_id, plan, pedal_ids, loaded) is Ok,
    ensures
        ({
            let made = pedalboard_runner(
                mounted,
                device_id,
                plan,
                pedal_ids,
                loaded,
            )->Ok_0;
            &&& pedal_ids.len() > 0
            &&& made.device_id == plan.device_id
            &&& made.pedals.len() == pedal_ids.len()
            &&& made.total_descriptor_count == sequence::total(
                made.pedals,
                runner_descriptors(),
            )
            &&& made.total_push_constant_byte_count == sequence::total(
                made.pedals,
                runner_push_constants(),
            )
            &&& 0 <= i < pedal_ids.len() ==> {
                &&& made.pedals[i].pedal_id == pedal_ids[i]
                &&& pedal_runner(mounted, device_id, plan, pedal_ids[i], loaded) is Ok
                &&& made.pedals[i] == pedal_runner(
                    mounted,
                    device_id,
                    plan,
                    pedal_ids[i],
                    loaded,
                )->Ok_0
            }
        }),
{
    reveal(pedalboard_runner);
    reveal(pedal_runner);
    lemma_runners_in_order(mounted, device_id, plan, pedal_ids, loaded, i);
}

proof fn lemma_pedal_runs_in_order(runs: Seq<PedalRunOutcome>, n: nat, i: int)
    requires
        pedal_runs(runs, n) is Ok,
    ensures
        pedal_runs(runs, n)->Ok_0.len() == n,
        0 <= i < n ==> runs[i] is Ok && pedal_runs(runs, n)->Ok_0[i] == runs[i]->Ok_0,
    decreases n,
{
    if n > 0 {
        lemma_pedal_runs_in_order(runs, (n - 1) as nat, i);
    }
}

/// A run of several pedals is the run of each of them, in order. Where the stream's position is
/// written first, a pedal runs only once that has been done for it, with its own push constants
/// and its own answers.
pub proof fn pedals_run_one_by_one(
    runner: VulkanMountedPlacedResidentPedalboardRunnerView,
    written: Seq<Result<(), Seq<char>>>,
    push_constants: Seq<Seq<PushConstantBytes>>,
    answers: Seq<Seq<LaunchAnswer>>,
    i: int,
)
    requires
        pedalboard_run(
            runner,
            controlled_runs(runner.pedals, written, push_constants, answers),
        ) is Ok,
        0 <= i < runner.pedals.len(),
    ensures
        ({
            let run = pedalboard_run(
                runner,
                controlled_runs(runner.pedals, written, push_constants, answers),
            )->Ok_0;
            let own = pedal_run(runner.pedals[i], push_constants[i], answers[i]);
            &&& run.device_id == runner.device_id
            &&& run.pedal_runs.len() == runner.pedals.len()
            &&& written[i] is Ok
            &&& own is Ok
            &&& run.pedal_runs[i] == own->Ok_0
        }),
{
    lemma_pedal_runs_in_order(
        controlled_runs(runner.pedals, written, push_constants, answers),
        runner.pedals.len(),
        i,
    );
}

} // verus!
