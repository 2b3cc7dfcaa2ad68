//! Circuits mounted on a device: the plans with the buffers that they run on.

use crate::bound_dispatch::VulkanBoundDescriptorTarget;
use crate::bound_dispatch::VulkanBoundDescriptorTargetView;
use crate::bound_dispatch::VulkanBoundDispatchPlan;
use crate::bound_dispatch::VulkanBoundDispatchPlanError;
use crate::bound_dispatch::VulkanBoundDispatchPlanErrorView;
use crate::bound_dispatch::VulkanBoundDispatchPlanView;
use crate::bound_dispatch::VulkanPlacedBoundDispatchPlan;
use crate::bound_dispatch::VulkanPlacedBoundDispatchPlanView;
use crate::bound_dispatch;
use crate::cables::buffers::VulkanPlacedCableEndpointBufferOverride;
use crate::cables::buffers::VulkanPlacedCableEndpointBufferOverrideView;
use crate::cables::buffers::VulkanPlacedCableIoBuffers;
use crate::cables::buffers::VulkanPlacedCableIoBuffersView;
use crate::cables::plan as cable_plan;
use crate::cables::plan::VulkanPlacedCableIoPlan;
use crate::cables::plan::VulkanPlacedCableIoPlanError;
use crate::circuit_binding::VulkanBindingPlanError;
use crate::circuit_binding::VulkanStreamCircuitBindingPlan;
use crate::circuit_binding::VulkanStreamCircuitBindingPlanView;
use crate::circuit_binding;
use crate::descriptor_resources::VulkanDescriptorResourceAddressView;
use crate::descriptor_resources::VulkanDescriptorResourcePlan;
use crate::descriptor_resources::VulkanDescriptorResourcePlanError;
use crate::descriptor_resources;
use crate::device::VulkanComputeDevice;
use crate::device::VulkanError;
use crate::device::VulkanResidentBuffer;
use crate::device::VulkanResidentBufferName;
use crate::device::VulkanResidentBufferView;
use crate::device::VulkanResidentKernelBufferAccess;
use crate::device::VulkanResidentKernelBufferBinding;
use crate::device::VulkanResidentKernelBufferBindingView;
use crate::device::VulkanResidentKernelDispatch;
use crate::device::VulkanResidentKernelDispatchView;
use crate::device;
use crate::dispatch_plan::VulkanPreparedDispatchPlan;
use crate::dispatch_plan::VulkanPreparedDispatchPlanError;
use crate::dispatch_plan::VulkanPreparedDispatchPlanErrorView;
use crate::dispatch_plan::VulkanPreparedDispatchPlanView;
use crate::dispatch_plan;
use crate::kernel_interface::VulkanKernelDescriptorUsage;
use crate::kernel_interface::VulkanKernelDispatchPlan;
use crate::kernel_interface::VulkanKernelDispatchPlanView;
use crate::kernel_interface::VulkanKernelInterfacePlan;
use crate::kernel_interface::VulkanKernelInterfacePlanView;
use crate::kernel_interface;
use crate::mounted_dispatch::VulkanMountedPlacedBoundDescriptor;
use crate::mounted_dispatch::VulkanMountedPlacedBoundDescriptorTarget;
use crate::mounted_dispatch::VulkanMountedPlacedBoundDescriptorTargetView;
use crate::mounted_dispatch::VulkanMountedPlacedBoundDescriptorView;
use crate::mounted_dispatch::VulkanMountedPlacedBoundDispatch;
use crate::mounted_dispatch::VulkanMountedPlacedBoundDispatchPlan;
use crate::mounted_dispatch::VulkanMountedPlacedBoundDispatchPlanView;
use crate::mounted_dispatch::VulkanMountedPlacedBoundDispatchView;
use crate::mounted_dispatch;
use crate::resident_dispatch::VulkanMountedPlacedResidentKernelDispatchError;
use crate::resident_dispatch::VulkanMountedPlacedResidentKernelDispatchErrorView;
use crate::resident_dispatch;
use crate::resident_plan::VULKAN_STREAM_CIRCUIT_BACKEND_ID;
use crate::resident_plan::VulkanModelBoundaryBufferPlanError;
use crate::resident_plan::VulkanModelBoundaryBuffers;
use crate::resident_plan::VulkanModelBoundaryBuffersView;
use crate::resident_plan::VulkanModelBoundaryDirection;
use crate::resident_plan::VulkanPermanentParameterBufferPlanError;
use crate::resident_plan::VulkanPermanentParameterBuffers;
use crate::resident_plan::VulkanPermanentParameterBuffersView;
use crate::resident_plan::VulkanPlacedStreamCircuitResidentPlan;
use crate::resident_plan::VulkanPlacedStreamCircuitResidentPlanView;
use crate::resident_plan::VulkanStreamCircuitResidentPlan;
use crate::resident_plan::VulkanStreamCircuitResidentPlanView;
use crate::resident_plan::VulkanStreamCircuitStreamBuffers;
use crate::resident_plan::VulkanStreamCircuitStreamBuffersView;
use crate::resident_plan::VulkanTransientStateBufferLayout;
use crate::resident_plan::VulkanTransientStateBufferLayoutView;
use crate::resident_plan;
use crate::reusable_kernels::VulkanLinkedReusableKernelPlan;
use crate::reusable_kernels::VulkanLoadedReusableKernelArtifactManifest;
use crate::reusable_kernels::VulkanLoadedReusableKernelArtifactManifestView;
use crate::reusable_kernels::VulkanReusableKernelArtifactManifest;
use crate::reusable_kernels::VulkanReusableKernelArtifactManifestView;
use crate::reusable_kernels::VulkanReusableKernelCoverageReport;
use crate::reusable_kernels::VulkanReusableKernelPlan;
use crate::reusable_kernels::VulkanReusableKernelPlanView;
use crate::reusable_kernels;
use crate::sequence;
use crate::stream_plan::StreamCircuitExecutionPlan;
use crate::stream_plan::StreamCircuitExecutionPlanView;
use crate::stream_plan::StreamCircuitResourcePlan;
use crate::stream_plan::StreamCircuitResourcePlanView;
use crate::text::Message;
use crate::text;
use vstd::prelude::*;

verus! {

/// The number of bytes that tell the kernels of a stream where it stands.
pub const VULKAN_STREAM_CONTROL_BYTE_CAPACITY: usize = 20;

/// Where the metadata of a stream starts among these bytes.
pub const VULKAN_STREAM_CONTROL_METADATA_OFFSET: usize = 4;

/// Why a circuit cannot be mounted on a device.
#[derive(Debug, PartialEq, Eq)]
pub enum VulkanStreamCircuitMountError {
    Binding(VulkanBindingPlanError),
    BoundaryIo(VulkanModelBoundaryBufferPlanError),
    CableIo(VulkanPlacedCableIoPlanError),
    PermanentParameters(VulkanPermanentParameterBufferPlanError),
    Vulkan(VulkanError),
}

#[verifier::ext_equal]
pub enum VulkanStreamCircuitMountErrorView {
    Binding(Seq<char>),
    BoundaryIo(Seq<char>),
    CableIo(Seq<char>),
    PermanentParameters(Seq<char>),
    Vulkan(Seq<char>),
}

impl DeepView for VulkanStreamCircuitMountError {
    type V = VulkanStreamCircuitMountErrorView;

    open spec fn deep_view(&self) -> VulkanStreamCircuitMountErrorView {
        match self {
            VulkanStreamCircuitMountError::Binding(value) => VulkanStreamCircuitMountErrorView::Binding(value.deep_view()),
            VulkanStreamCircuitMountError::BoundaryIo(value) => VulkanStreamCircuitMountErrorView::BoundaryIo(value.deep_view()),
            VulkanStreamCircuitMountError::CableIo(value) => VulkanStreamCircuitMountErrorView::CableIo(value.deep_view()),
            VulkanStreamCircuitMountError::PermanentParameters(value) => VulkanStreamCircuitMountErrorView::PermanentParameters(value.deep_view()),
            VulkanStreamCircuitMountError::Vulkan(value) => VulkanStreamCircuitMountErrorView::Vulkan(value.deep_view()),
        }
    }
}

impl View for VulkanStreamCircuitMountError {
    type V = VulkanStreamCircuitMountErrorView;

    open spec fn view(&self) -> VulkanStreamCircuitMountErrorView {
        self.deep_view()
    }
}

impl Clone for VulkanStreamCircuitMountError {
    fn clone(&self) -> (r: Self)
        ensures
            r@ == self@,
    {
        match self {
            VulkanStreamCircuitMountError::Binding(value) => VulkanStreamCircuitMountError::Binding(value.clone()),
            VulkanStreamCircuitMountError::BoundaryIo(value) => VulkanStreamCircuitMountError::BoundaryIo(value.clone()),
            VulkanStreamCircuitMountError::CableIo(value) => VulkanStreamCircuitMountError::CableIo(value.clone()),
            VulkanStreamCircuitMountError::PermanentParameters(value) => VulkanStreamCircuitMountError::PermanentParameters(value.clone()),
            VulkanStreamCircuitMountError::Vulkan(value) => VulkanStreamCircuitMountError::Vulkan(value.clone()),
        }
    }
}

/// What is said of a mount that failed.
pub open spec fn mount_message(error: VulkanStreamCircuitMountErrorView) -> Seq<char> {
    match error {
        VulkanStreamCircuitMountErrorView::Binding(message) => message,
        VulkanStreamCircuitMountErrorView::BoundaryIo(message) => message,
        VulkanStreamCircuitMountErrorView::CableIo(message) => message,
        VulkanStreamCircuitMountErrorView::PermanentParameters(message) => message,
        VulkanStreamCircuitMountErrorView::Vulkan(message) => message,
    }
}

impl VulkanStreamCircuitMountError {
    /// What is wrong.
    pub fn to_string(&self) -> (r: String)
        ensures
            r@ == mount_message(self@),
    {
        match self {
            VulkanStreamCircuitMountError::Binding(error) => error.0.clone(),
            VulkanStreamCircuitMountError::BoundaryIo(error) => error.0.clone(),
            VulkanStreamCircuitMountError::CableIo(error) => error.0.clone(),
            VulkanStreamCircuitMountError::PermanentParameters(error) => error.0.clone(),
            VulkanStreamCircuitMountError::Vulkan(error) => error.0.clone(),
        }
    }
}

impl vstd::std_specs::convert::FromSpecImpl<VulkanBindingPlanError> for VulkanStreamCircuitMountError {
    open spec fn obeys_from_spec() -> bool {
        true
    }

    open spec fn from_spec(error: VulkanBindingPlanError) -> Self {
        VulkanStreamCircuitMountError::Binding(error)
    }
}

impl From<VulkanBindingPlanError> for VulkanStreamCircuitMountError {
    fn from(error: VulkanBindingPlanError) -> (r: Self) {
        VulkanStreamCircuitMountError::Binding(error)
    }
}

impl vstd::std_specs::convert::FromSpecImpl<VulkanModelBoundaryBufferPlanError> for VulkanStreamCircuitMountError {
    open spec fn obeys_from_spec() -> bool {
        true
    }

    open spec fn from_spec(error: VulkanModelBoundaryBufferPlanError) -> Self {
        VulkanStreamCircuitMountError::BoundaryIo(error)
    }
}

impl From<VulkanModelBoundaryBufferPlanError> for VulkanStreamCircuitMountError {
    fn from(error: VulkanModelBoundaryBufferPlanError) -> (r: Self) {
        VulkanStreamCircuitMountError::BoundaryIo(error)
    }
}

impl vstd::std_specs::convert::FromSpecImpl<VulkanPlacedCableIoPlanError> for VulkanStreamCircuitMountError {
    open spec fn obeys_from_spec() -> bool {
        true
    }

    open spec fn from_spec(error: VulkanPlacedCableIoPlanError) -> Self {
        VulkanStreamCircuitMountError::CableIo(error)
    }
}

impl From<VulkanPlacedCableIoPlanError> for VulkanStreamCircuitMountError {
    fn from(error: VulkanPlacedCableIoPlanError) -> (r: Self) {
        VulkanStreamCircuitMountError::CableIo(error)
    }
}

impl vstd::std_specs::convert::FromSpecImpl<VulkanPermanentParameterBufferPlanError> for VulkanStreamCircuitMountError {
    open spec fn obeys_from_spec() -> bool {
        true
    }

    open spec fn from_spec(error: VulkanPermanentParameterBufferPlanError) -> Self {
        VulkanStreamCircuitMountError::PermanentParameters(error)
    }
}

impl From<VulkanPermanentParameterBufferPlanError> for VulkanStreamCircuitMountError {
    fn from(error: VulkanPermanentParameterBufferPlanError) -> (r: Self) {
        VulkanStreamCircuitMountError::PermanentParameters(error)
    }
}

impl vstd::std_specs::convert::FromSpecImpl<VulkanError> for VulkanStreamCircuitMountError {
    open spec fn obeys_from_spec() -> bool {
        true
    }

    open spec fn from_spec(error: VulkanError) -> Self {
        VulkanStreamCircuitMountError::Vulkan(error)
    }
}

impl From<VulkanError> for VulkanStreamCircuitMountError {
    fn from(error: VulkanError) -> (r: Self) {
        VulkanStreamCircuitMountError::Vulkan(error)
    }
}

/// The plans of the circuits that one device hosts.
#[derive(Debug, PartialEq, Eq)]
pub struct VulkanPlacedStreamCircuitPlan {
    pub backend_id: String,
    pub device_id: String,
    pub placed_resident_plan: VulkanPlacedStreamCircuitResidentPlan,
    pub binding_plan: VulkanStreamCircuitBindingPlan,
    pub kernel_interface_plan: VulkanKernelInterfacePlan,
    pub dispatch_plan: VulkanKernelDispatchPlan,
    pub reusable_kernel_plan: VulkanReusableKernelPlan,
}

#[verifier::ext_equal]
pub struct VulkanPlacedStreamCircuitPlanView {
    pub backend_id: Seq<char>,
    pub device_id: Seq<char>,
    pub placed_resident_plan: VulkanPlacedStreamCircuitResidentPlanView,
    pub binding_plan: VulkanStreamCircuitBindingPlanView,
    pub kernel_interface_plan: VulkanKernelInterfacePlanView,
    pub dispatch_plan: VulkanKernelDispatchPlanView,
    pub reusable_kernel_plan: VulkanReusableKernelPlanView,
}

impl DeepView for VulkanPlacedStreamCircuitPlan {
    type V = VulkanPlacedStreamCircuitPlanView;

    open spec fn deep_view(&self) -> VulkanPlacedStreamCircuitPlanView {
        VulkanPlacedStreamCircuitPlanView {
            backend_id: self.backend_id.deep_view(),
            device_id: self.device_id.deep_view(),
            placed_resident_plan: self.placed_resident_plan.deep_view(),
            binding_plan: self.binding_plan.deep_view(),
            kernel_interface_plan: self.kernel_interface_plan.deep_view(),
            dispatch_plan: self.dispatch_plan.deep_view(),
            reusable_kernel_plan: self.reusable_kernel_plan.deep_view(),
        }
    }
}

impl View for VulkanPlacedStreamCircuitPlan {
    type V = VulkanPlacedStreamCircuitPlanView;

    open spec fn view(&self) -> VulkanPlacedStreamCircuitPlanView {
        self.deep_view()
    }
}

impl Clone for VulkanPlacedStreamCircuitPlan {
    fn clone(&self) -> (r: Self)
        ensures
            r@ == self@,
    {
        VulkanPlacedStreamCircuitPlan {
            backend_id: self.backend_id.clone(),
            device_id: self.device_id.clone(),
            placed_resident_plan: self.placed_resident_plan.clone(),
            binding_plan: self.binding_plan.clone(),
            kernel_interface_plan: self.kernel_interface_plan.clone(),
            dispatch_plan: self.dispatch_plan.clone(),
            reusable_kernel_plan: self.reusable_kernel_plan.clone(),
        }
    }
}

/// The families of a stream's launches.
pub open spec fn kernel_families(plan: VulkanKernelDispatchPlanView) -> VulkanReusableKernelPlanView {
    VulkanReusableKernelPlanView { families: reusable_kernels::families_of(plan.commands) }
}

/// The plans of the circuits that one device hosts.
pub open spec fn placed_circuit_plan(
    execution: StreamCircuitExecutionPlanView,
    resources: StreamCircuitResourcePlanView,
    placed: VulkanPlacedStreamCircuitResidentPlanView,
) -> Result<VulkanPlacedStreamCircuitPlanView, Seq<char>> {
    match circuit_binding::binding_plan(
        execution,
        resources,
        placed.resident_plan,
        Some(circuit_binding::placed_components(placed)),
    ) {
        Err(error) => Err(error),
        Ok(binding_plan) => {
            let kernel_interface_plan = kernel_interface::kernel_interfaces(binding_plan);
            let dispatch_plan = kernel_interface::dispatch_commands(kernel_interface_plan);
            Ok(
                VulkanPlacedStreamCircuitPlanView {
                    backend_id: VULKAN_STREAM_CIRCUIT_BACKEND_ID@,
                    device_id: placed.device_id,
                    placed_resident_plan: placed,
                    binding_plan,
                    kernel_interface_plan,
                    dispatch_plan,
                    reusable_kernel_plan: kernel_families(dispatch_plan),
                },
            )
        },
    }
}

/// The launches of a stream, resolved and prepared.
pub open spec fn prepared_launches(
    dispatch_plan: VulkanKernelDispatchPlanView,
    reusable_plan: VulkanReusableKernelPlanView,
    resident: VulkanStreamCircuitResidentPlanView,
    capacity: usize,
    layouts: Seq<VulkanTransientStateBufferLayoutView>,
    manifest: VulkanReusableKernelArtifactManifestView,
) -> Result<VulkanPreparedDispatchPlanView, VulkanPreparedDispatchPlanErrorView> {
    match descriptor_resources::descriptor_resources(dispatch_plan, resident, capacity, layouts) {
        Err(error) => Err(VulkanPreparedDispatchPlanErrorView::DescriptorResource(error)),
        Ok(resolved) => dispatch_plan::prepared_plan(
            dispatch_plan,
            reusable_plan,
            resolved,
            manifest,
        ),
    }
}

/// Whether the descriptors of a stream can be counted: there is a layout for each state, and the
/// number of descriptors fits.
pub open spec fn countable(
    dispatch_plan: VulkanKernelDispatchPlanView,
    reusable_plan: VulkanReusableKernelPlanView,
    resident: VulkanStreamCircuitResidentPlanView,
    capacity: usize,
    layouts: Seq<VulkanTransientStateBufferLayoutView>,
    manifest: VulkanReusableKernelArtifactManifestView,
) -> bool {
    &&& resident.stream_state_buffers.len() == layouts.len()
    &&& sequence::total(dispatch_plan.commands, descriptor_resources::binding_count())
        <= usize::MAX
    &&& (descriptor_resources::descriptor_resources(
        dispatch_plan,
        resident,
        capacity,
        layouts,
    ) matches Ok(resolved) ==> (dispatch_plan::prepared_dispatches(
        dispatch_plan,
        reusable_plan,
        resolved,
        manifest,
    ) matches Ok(dispatches) ==> sequence::total(
        dispatches,
        dispatch_plan::prepared_descriptor_count(),
    ) <= usize::MAX))
}

fn prepare_launches(
    dispatch_plan: &VulkanKernelDispatchPlan,
    reusable_plan: &VulkanReusableKernelPlan,
    resident: &VulkanStreamCircuitResidentPlan,
    capacity: usize,
    layouts: &Vec<VulkanTransientStateBufferLayout>,
    manifest: &VulkanReusableKernelArtifactManifest,
) -> (r: Result<VulkanPreparedDispatchPlan, VulkanPreparedDispatchPlanError>)
    requires
        countable(
            dispatch_plan@,
            reusable_plan@,
            resident@,
            capacity,
            layouts.deep_view(),
            manifest@,
        ),
    ensures
        sequence::outcome(r) == prepared_launches(
            dispatch_plan@,
            reusable_plan@,
            resident@,
            capacity,
            layouts.deep_view(),
            manifest@,
        ),
        r matches Ok(plan) ==> sequence::total(
            plan@.dispatches,
            dispatch_plan::prepared_descriptor_count(),
        ) <= usize::MAX,
{
    assert(layouts.deep_view().len() == layouts@.len());
    match VulkanDescriptorResourcePlan::from_plans(dispatch_plan, resident, capacity, layouts) {
        Err(error) => Err(VulkanPreparedDispatchPlanError::DescriptorResource(error)),
        Ok(resolved) => {
            reveal(dispatch_plan::prepared_plan);
            VulkanPreparedDispatchPlan::from_plans(
                dispatch_plan,
                reusable_plan,
                &resolved,
                manifest,
            )
        },
    }
}

impl VulkanPlacedStreamCircuitPlan {
    /// Plans the circuits that one device hosts.
    pub fn from_plans(
        execution_plan: &StreamCircuitExecutionPlan,
        resource_plan: &StreamCircuitResourcePlan,
        placed_resident_plan: VulkanPlacedStreamCircuitResidentPlan,
    ) -> (r: Result<Self, VulkanBindingPlanError>)
        ensures
            sequence::outcome(r) == placed_circuit_plan(
                execution_plan@,
                resource_plan@,
                placed_resident_plan@,
            ),
    {
        let binding_plan: VulkanStreamCircuitBindingPlan =
            match VulkanStreamCircuitBindingPlan::from_placed_resident_plan(
            execution_plan,
            resource_plan,
            &placed_resident_plan,
        ) {
            Err(error) => {
                return Err(error);
            },
            Ok(binding_plan) => binding_plan,
        };
        let kernel_interface_plan: VulkanKernelInterfacePlan =
            VulkanKernelInterfacePlan::from_binding_plan(&binding_plan);
        let dispatch_plan: VulkanKernelDispatchPlan =
            VulkanKernelDispatchPlan::from_kernel_interfaces(&kernel_interface_plan);
        let reusable_kernel_plan: VulkanReusableKernelPlan =
            VulkanReusableKernelPlan::from_dispatch_plan(&dispatch_plan);
        assert(reusable_kernel_plan@ == kernel_families(dispatch_plan@));
        Ok(
            VulkanPlacedStreamCircuitPlan {
                backend_id: VULKAN_STREAM_CIRCUIT_BACKEND_ID.to_owned(),
                device_id: placed_resident_plan.device_id.clone(),
                placed_resident_plan,
                binding_plan,
                kernel_interface_plan,
                dispatch_plan,
                reusable_kernel_plan,
            },
        )
    }

    /// Prepares the launches with the artifacts of a manifest. `layouts` holds the layout of each
    /// of the plan's states for this capacity.
    pub fn prepared_dispatch_plan(
        &self,
        manifest: &VulkanReusableKernelArtifactManifest,
        dynamic_state_capacity_activations: usize,
        layouts: &Vec<VulkanTransientStateBufferLayout>,
    ) -> (r: Result<VulkanPreparedDispatchPlan, VulkanPreparedDispatchPlanError>)
        requires
            countable(
                self@.dispatch_plan,
                self@.reusable_kernel_plan,
                self@.placed_resident_plan.resident_plan,
                dynamic_state_capacity_activations,
                layouts.deep_view(),
                manifest@,
            ),
        ensures
            sequence::outcome(r) == prepared_launches(
                self@.dispatch_plan,
                self@.reusable_kernel_plan,
                self@.placed_resident_plan.resident_plan,
                dynamic_state_capacity_activations,
                layouts.deep_view(),
                manifest@,
            ),
    {
        prepare_launches(
            &self.dispatch_plan,
            &self.reusable_kernel_plan,
            &self.placed_resident_plan.resident_plan,
            dynamic_state_capacity_activations,
            layouts,
            manifest,
        )
    }
}

/// The launches of a stream, bound to its buffers.
pub open spec fn bound_launches(
    prepared: Result<VulkanPreparedDispatchPlanView, VulkanPreparedDispatchPlanErrorView>,
    buffers: VulkanStreamCircuitStreamBuffersView,
) -> Result<VulkanBoundDispatchPlanView, VulkanBoundDispatchPlanErrorView> {
    match prepared {
        Err(error) => Err(VulkanBoundDispatchPlanErrorView::PreparedDispatch(error)),
        Ok(plan) => bound_dispatch::bound_plan(plan, buffers),
    }
}

/// A stream's circuits, mounted with their buffers.
#[derive(Debug, PartialEq, Eq)]
pub struct VulkanMountedStreamCircuit {
    pub resident_plan: VulkanStreamCircuitResidentPlan,
    pub binding_plan: VulkanStreamCircuitBindingPlan,
    pub kernel_interface_plan: VulkanKernelInterfacePlan,
    pub dispatch_plan: VulkanKernelDispatchPlan,
    pub reusable_kernel_plan: VulkanReusableKernelPlan,
    pub buffers: VulkanStreamCircuitStreamBuffers,
}

#[verifier::ext_equal]
pub struct VulkanMountedStreamCircuitView {
    pub resident_plan: VulkanStreamCircuitResidentPlanView,
    pub binding_plan: VulkanStreamCircuitBindingPlanView,
    pub kernel_interface_plan: VulkanKernelInterfacePlanView,
    pub dispatch_plan: VulkanKernelDispatchPlanView,
    pub reusable_kernel_plan: VulkanReusableKernelPlanView,
    pub buffers: VulkanStreamCircuitStreamBuffersView,
}

impl DeepView for VulkanMountedStreamCircuit {
    type V = VulkanMountedStreamCircuitView;

    open spec fn deep_view(&self) -> VulkanMountedStreamCircuitView {
        VulkanMountedStreamCircuitView {
            resident_plan: self.resident_plan.deep_view(),
            binding_plan: self.binding_plan.deep_view(),
            kernel_interface_plan: self.kernel_interface_plan.deep_view(),
            dispatch_plan: self.dispatch_plan.deep_view(),
            reusable_kernel_plan: self.reusable_kernel_plan.deep_view(),
            buffers: self.buffers.deep_view(),
        }
    }
}

impl View for VulkanMountedStreamCircuit {
    type V = VulkanMountedStreamCircuitView;

    open spec fn view(&self) -> VulkanMountedStreamCircuitView {
        self.deep_view()
    }
}

impl Clone for VulkanMountedStreamCircuit {
    fn clone(&self) -> (r: Self)
        ensures
            r@ == self@,
    {
        VulkanMountedStreamCircuit {
            resident_plan: self.resident_plan.clone(),
            binding_plan: self.binding_plan.clone(),
            kernel_interface_plan: self.kernel_interface_plan.clone(),
            dispatch_plan: self.dispatch_plan.clone(),
            reusable_kernel_plan: self.reusable_kernel_plan.clone(),
            buffers: self.buffers.clone(),
        }
    }
}

/// A stream's circuits, mounted. A plan that does not bind is refused before the buffers count.
pub open spec fn mounted_circuit(
    execution: StreamCircuitExecutionPlanView,
    resources: StreamCircuitResourcePlanView,
    resident: VulkanStreamCircuitResidentPlanView,
    buffers: Result<VulkanStreamCircuitStreamBuffersView, Seq<char>>,
) -> Result<VulkanMountedStreamCircuitView, VulkanStreamCircuitMountErrorView> {
    match circuit_binding::binding_plan(execution, resources, resident, None) {
        Err(error) => Err(VulkanStreamCircuitMountErrorView::Binding(error)),
        Ok(binding_plan) => match buffers {
            Err(error) => Err(VulkanStreamCircuitMountErrorView::Vulkan(error)),
            Ok(buffers) => {
                let kernel_interface_plan = kernel_interface::kernel_interfaces(binding_plan);
                let dispatch_plan = kernel_interface::dispatch_commands(kernel_interface_plan);
                Ok(
                    VulkanMountedStreamCircuitView {
                        resident_plan: resident,
                        binding_plan,
                        kernel_interface_plan,
                        dispatch_plan,
                        reusable_kernel_plan: kernel_families(dispatch_plan),
                        buffers,
                    },
                )
            },
        },
    }
}

impl VulkanMountedStreamCircuit {
    /// Mounts a stream's circuits. `buffers` is what came of allocating the stream's buffers.
    pub fn from_plans(
        execution_plan: &StreamCircuitExecutionPlan,
        resource_plan: &StreamCircuitResourcePlan,
        resident_plan: VulkanStreamCircuitResidentPlan,
        buffers: Result<VulkanStreamCircuitStreamBuffers, VulkanError>,
    ) -> (r: Result<Self, VulkanStreamCircuitMountError>)
        ensures
            sequence::outcome(r) == mounted_circuit(
                execution_plan@,
                resource_plan@,
                resident_plan@,
                sequence::outcome(buffers),
            ),
    {
        let binding_plan: VulkanStreamCircuitBindingPlan =
            match VulkanStreamCircuitBindingPlan::from_plans(
            execution_plan,
            resource_plan,
            &resident_plan,
        ) {
            Err(error) => {
                return Err(VulkanStreamCircuitMountError::from(error));
            },
            Ok(binding_plan) => binding_plan,
        };
        let kernel_interface_plan: VulkanKernelInterfacePlan =
            VulkanKernelInterfacePlan::from_binding_plan(&binding_plan);
        let dispatch_plan: VulkanKernelDispatchPlan =
            VulkanKernelDispatchPlan::from_kernel_interfaces(&kernel_interface_plan);
        let reusable_kernel_plan: VulkanReusableKernelPlan =
            VulkanReusableKernelPlan::from_dispatch_plan(&dispatch_plan);
        assert(reusable_kernel_plan@ == kernel_families(dispatch_plan@));
        match buffers {
            Err(error) => Err(VulkanStreamCircuitMountError::from(error)),
            Ok(buffers) => Ok(
                VulkanMountedStreamCircuit {
                    resident_plan,
                    binding_plan,
                    kernel_interface_plan,
                    dispatch_plan,
                    reusable_kernel_plan,
                    buffers,
                },
            ),
        }
    }

    /// A mounted circuit is a plan; it takes a runner to execute it.
    pub fn can_execute(&self) -> (r: bool)
        ensures
            !r,
    {
        false
    }

    /// Tells which kernel families of the stream are available.
    pub fn reusable_kernel_coverage_report(&self, available_family_ids: &Vec<String>) -> (r:
        VulkanReusableKernelCoverageReport)
        ensures
            r@ == reusable_kernels::coverage(
                self@.reusable_kernel_plan,
                available_family_ids.deep_view(),
            ),
    {
        self.reusable_kernel_plan.coverage_report(available_family_ids)
    }

    /// Links the kernel families of the stream to the artifacts of a manifest.
    pub fn link_reusable_kernels(&self, manifest: &VulkanReusableKernelArtifactManifest) -> (r:
        VulkanLinkedReusableKernelPlan)
        ensures
            r@ == reusable_kernels::linked_plan(self@.reusable_kernel_plan, manifest@),
    {
        self.reusable_kernel_plan.link_artifacts(manifest)
    }

    /// Resolves the descriptors of the stream's launches.
    pub fn descriptor_resource_plan(&self, layouts: &Vec<VulkanTransientStateBufferLayout>) -> (r:
        Result<VulkanDescriptorResourcePlan, VulkanDescriptorResourcePlanError>)
        requires
            self@.resident_plan.stream_state_buffers.len() == layouts@.len(),
            sequence::total(self@.dispatch_plan.commands, descriptor_resources::binding_count())
                <= usize::MAX,
        ensures
            sequence::outcome(r) == descriptor_resources::descriptor_resources(
                self@.dispatch_plan,
                self@.resident_plan,
                self@.buffers.dynamic_state_capacity_activations,
                layouts.deep_view(),
            ),
    {
        VulkanDescriptorResourcePlan::from_plans(
            &self.dispatch_plan,
            &self.resident_plan,
            self.buffers.dynamic_state_capacity_activations,
            layouts,
        )
    }

    /// Prepares the stream's launches with the artifacts of a manifest.
    pub fn prepared_dispatch_plan(
        &self,
        manifest: &VulkanReusableKernelArtifactManifest,
        layouts: &Vec<VulkanTransientStateBufferLayout>,
    ) -> (r: Result<VulkanPreparedDispatchPlan, VulkanPreparedDispatchPlanError>)
        requires
            countable(
                self@.dispatch_plan,
                self@.reusable_kernel_plan,
                self@.resident_plan,
                self@.buffers.dynamic_state_capacity_activations,
                layouts.deep_view(),
                manifest@,
            ),
        ensures
            sequence::outcome(r) == prepared_launches(
                self@.dispatch_plan,
                self@.reusable_kernel_plan,
                self@.resident_plan,
                self@.buffers.dynamic_state_capacity_activations,
                layouts.deep_view(),
                manifest@,
            ),
    {
        prepare_launches(
            &self.dispatch_plan,
            &self.reusable_kernel_plan,
            &self.resident_plan,
            self.buffers.dynamic_state_capacity_activations,
            layouts,
            manifest,
        )
    }

    /// Binds the stream's launches to its buffers.
    pub fn bound_dispatch_plan(
        &self,
        manifest: &VulkanReusableKernelArtifactManifest,
        layouts: &Vec<VulkanTransientStateBufferLayout>,
    ) -> (r: Result<VulkanBoundDispatchPlan, VulkanBoundDispatchPlanError>)
        requires
            countable(
                self@.dispatch_plan,
                self@.reusable_kernel_plan,
                self@.resident_plan,
                self@.buffers.dynamic_state_capacity_activations,
                layouts.deep_view(),
                manifest@,
            ),
        ensures
            sequence::outcome(r) == bound_launches(
                prepared_launches(
                    self@.dispatch_plan,
                    self@.reusable_kernel_plan,
                    self@.resident_plan,
                    self@.buffers.dynamic_state_capacity_activations,
                    layouts.deep_view(),
                    manifest@,
                ),
                self@.buffers,
            ),
    {
        match prepare_launches(
            &self.dispatch_plan,
            &self.reusable_kernel_plan,
            &self.resident_plan,
            self.buffers.dynamic_state_capacity_activations,
            layouts,
            manifest,
        ) {
            Err(error) => Err(VulkanBoundDispatchPlanError::PreparedDispatch(error)),
            Ok(plan) => VulkanBoundDispatchPlan::from_prepared_plan(&plan, &self.buffers),
        }
    }
}

/// The circuits of one device, mounted with their buffers.
#[derive(Debug, PartialEq, Eq)]
pub struct VulkanMountedPlacedStreamCircuit {
    pub placed_plan: VulkanPlacedStreamCircuitPlan,
    pub parameter_buffers: VulkanPermanentParameterBuffers,
    pub buffers: VulkanStreamCircuitStreamBuffers,
    pub boundary_io: VulkanModelBoundaryBuffers,
    pub cable_io: VulkanPlacedCableIoBuffers,
    pub stream_control_buffer: VulkanResidentBuffer,
}

#[verifier::ext_equal]
pub struct VulkanMountedPlacedStreamCircuitView {
    pub placed_plan: VulkanPlacedStreamCircuitPlanView,
    pub parameter_buffers: VulkanPermanentParameterBuffersView,
    pub buffers: VulkanStreamCircuitStreamBuffersView,
    pub boundary_io: VulkanModelBoundaryBuffersView,
    pub cable_io: VulkanPlacedCableIoBuffersView,
    pub stream_control_buffer: VulkanResidentBufferView,
}

impl DeepView for VulkanMountedPlacedStreamCircuit {
    type V = VulkanMountedPlacedStreamCircuitView;

    open spec fn deep_view(&self) -> VulkanMountedPlacedStreamCircuitView {
        VulkanMountedPlacedStreamCircuitView {
            placed_plan: self.placed_plan.deep_view(),
            parameter_buffers: self.parameter_buffers.deep_view(),
            buffers: self.buffers.deep_view(),
            boundary_io: self.boundary_io.deep_view(),
            cable_io: self.cable_io.deep_view(),
            stream_control_buffer: self.stream_control_buffer.deep_view(),
        }
    }
}

impl View for VulkanMountedPlacedStreamCircuit {
    type V = VulkanMountedPlacedStreamCircuitView;

    open spec fn view(&self) -> VulkanMountedPlacedStreamCircuitView {
        self.deep_view()
    }
}

impl Clone for VulkanMountedPlacedStreamCircuit {
    fn clone(&self) -> (r: Self)
        ensures
            r@ == self@,
    {
        VulkanMountedPlacedStreamCircuit {
            placed_plan: self.placed_plan.clone(),
            parameter_buffers: self.parameter_buffers.clone(),
            buffers: self.buffers.clone(),
            boundary_io: self.boundary_io.clone(),
            cable_io: self.cable_io.clone(),
            stream_control_buffer: self.stream_control_buffer.clone(),
        }
    }
}

/// The buffer through which a stream is controlled: a given one that the device owns, that is large
/// enough and that is mapped, or a new one.
pub open spec fn control_buffer(
    device_id: Seq<char>,
    given: Option<VulkanResidentBufferView>,
) -> Result<VulkanResidentBufferView, Seq<char>> {
    match given {
        None => Ok(device::mapped_buffer(
            VulkanResidentBufferName::StreamControl,
            device_id,
            VULKAN_STREAM_CONTROL_BYTE_CAPACITY,
        )),
        Some(buffer) => if buffer.device_id != device_id {
            Err(
                "stream-control buffer override belongs to a different Vulkan logical device"@,
            )
        } else if buffer.byte_capacity < VULKAN_STREAM_CONTROL_BYTE_CAPACITY {
            Err(
                "stream-control buffer override has "@ + text::decimal(buffer.byte_capacity as nat)
                    + " bytes, needs 20"@,
            )
        } else if !buffer.persistently_mapped {
            Err("stream-control buffer override is not persistently host mapped"@)
        } else {
            Ok(buffer)
        },
    }
}

/// The circuits of one device, mounted: the stream's buffers, the boundary buffers, the cable
/// buffers and the control buffer are needed in this order.
pub open spec fn mounted_placed_circuit(
    device_id: Seq<char>,
    placed_plan: VulkanPlacedStreamCircuitPlanView,
    parameter_buffers: VulkanPermanentParameterBuffersView,
    buffers: Result<VulkanStreamCircuitStreamBuffersView, Seq<char>>,
    boundary_io: Result<VulkanModelBoundaryBuffersView, VulkanStreamCircuitMountErrorView>,
    overrides: Seq<VulkanPlacedCableEndpointBufferOverrideView>,
    control: Option<VulkanResidentBufferView>,
) -> Result<VulkanMountedPlacedStreamCircuitView, VulkanStreamCircuitMountErrorView> {
    match buffers {
        Err(error) => Err(VulkanStreamCircuitMountErrorView::Vulkan(error)),
        Ok(buffers) => match boundary_io {
            Err(error) => Err(error),
            Ok(boundary_io) => match cable_plan::cable_io_plan(placed_plan.placed_resident_plan) {
                Err(error) => Err(VulkanStreamCircuitMountErrorView::CableIo(error)),
                Ok(plan) => match cable_plan::cable_io_buffers(plan, device_id, overrides) {
                    Err(error) => Err(VulkanStreamCircuitMountErrorView::Vulkan(error)),
                    Ok(cable_io) => match control_buffer(device_id, control) {
                        Err(error) => Err(VulkanStreamCircuitMountErrorView::Vulkan(error)),
                        Ok(stream_control_buffer) => Ok(
                            VulkanMountedPlacedStreamCircuitView {
                                placed_plan,
                                parameter_buffers,
                                buffers,
                                boundary_io,
                                cable_io,
                                stream_control_buffer,
                            },
                        ),
                    },
                },
            },
        },
    }
}

/// What a control buffer holds before anything is known of the stream.
pub open spec fn cleared_control() -> Seq<u8> {
    Seq::new(VULKAN_STREAM_CONTROL_BYTE_CAPACITY as nat, |i: int| 0u8)
}

/// The bytes that the control buffer of a mounted circuit is first written with: zeros where the
/// buffer is a new one, and none where it was given.
#[verifier::loop_isolation(false)]
pub fn initial_stream_control_bytes(given: &Option<VulkanResidentBuffer>) -> (r: Option<Vec<u8>>)
    ensures
        r.deep_view() == (if given is None {
            Some(cleared_control())
        } else {
            None
        }),
{
    if given.is_some() {
        return None;
    }
    let mut bytes: Vec<u8> = Vec::new();
    let mut i: usize = 0;
    while i < VULKAN_STREAM_CONTROL_BYTE_CAPACITY
        invariant
            i <= VULKAN_STREAM_CONTROL_BYTE_CAPACITY,
            bytes@.len() == i,
            forall|j: int| 0 <= j < i ==> #[trigger] bytes@[j] == 0,
        decreases VULKAN_STREAM_CONTROL_BYTE_CAPACITY - i,
    {
        bytes.push(0);
        i += 1;
    }
    assert(bytes.deep_view() =~= cleared_control());
    Some(bytes)
}

fn choose_control_buffer(
    device: &VulkanComputeDevice,
    given: Option<VulkanResidentBuffer>,
) -> (r: Result<VulkanResidentBuffer, VulkanError>)
    ensures
        sequence::outcome(r) == control_buffer(device@.device_id, given.deep_view()),
{
    match given {
        None => Ok(
            VulkanResidentBuffer::persistently_mapped(
                VulkanResidentBufferName::StreamControl,
                device.device_id.as_str(),
                VULKAN_STREAM_CONTROL_BYTE_CAPACITY,
            ),
        ),
        Some(buffer) => {
            if buffer.device_id != device.device_id {
                return Err(
                    VulkanError(
                        "stream-control buffer override belongs to a different Vulkan logical device".to_owned(),
                    ),
                );
            }
            if buffer.byte_capacity < VULKAN_STREAM_CONTROL_BYTE_CAPACITY {
                return Err(
                    VulkanError(
                        Message::new("stream-control buffer override has ").number(
                            buffer.byte_capacity,
                        ).text(" bytes, needs 20").done(),
                    ),
                );
            }
            if !buffer.persistently_mapped {
                return Err(
                    VulkanError(
                        "stream-control buffer override is not persistently host mapped".to_owned(),
                    ),
                );
            }
            Ok(buffer)
        },
    }
}

/// How a kernel accesses a descriptor of this usage.
pub open spec fn access_of(usage: VulkanKernelDescriptorUsage) -> VulkanResidentKernelBufferAccess {
    match usage {
        VulkanKernelDescriptorUsage::InputSignal => VulkanResidentKernelBufferAccess::Read,
        VulkanKernelDescriptorUsage::Parameter => VulkanResidentKernelBufferAccess::Read,
        VulkanKernelDescriptorUsage::StateRead => VulkanResidentKernelBufferAccess::Read,
        VulkanKernelDescriptorUsage::OutputSignal => VulkanResidentKernelBufferAccess::Write,
        VulkanKernelDescriptorUsage::StateWrite => VulkanResidentKernelBufferAccess::Write,
        VulkanKernelDescriptorUsage::StateView => VulkanResidentKernelBufferAccess::ReadWrite,
    }
}

/// The error where a bound buffer is not mounted.
pub open spec fn missing_mounted(
    dispatch: VulkanMountedPlacedBoundDispatchView,
    descriptor: VulkanMountedPlacedBoundDescriptorView,
    kind: Seq<char>,
    buffer_index: usize,
) -> VulkanMountedPlacedResidentKernelDispatchErrorView {
    VulkanMountedPlacedResidentKernelDispatchErrorView::MissingMountedBuffer {
        dispatch_index: dispatch.dispatch_index,
        binding: descriptor.binding,
        buffer_kind: kind,
        buffer_index,
    }
}

/// The buffer of a resident target, with the number of its bytes that are bound.
pub open spec fn resident_buffer(
    mounted: VulkanMountedPlacedStreamCircuitView,
    dispatch: VulkanMountedPlacedBoundDispatchView,
    descriptor: VulkanMountedPlacedBoundDescriptorView,
    target: VulkanBoundDescriptorTargetView,
) -> Result<(VulkanResidentBufferView, usize), VulkanMountedPlacedResidentKernelDispatchErrorView> {
    match target {
        VulkanBoundDescriptorTargetView::PermanentParameter { param_id, tensor, byte_count } => {
            match sequence::find_first(
                mounted.parameter_buffers.buffers,
                resident_plan::tensor_matcher(tensor),
            ) {
                None => Err(
                    VulkanMountedPlacedResidentKernelDispatchErrorView::MissingPermanentParameterBuffer {
                        dispatch_index: dispatch.dispatch_index,
                        binding: descriptor.binding,
                        param_id,
                        tensor,
                        byte_count,
                    },
                ),
                Some(allocation) => Ok((allocation.buffer, allocation.byte_capacity)),
            }
        },
        VulkanBoundDescriptorTargetView::BoundaryInput { signal_id } => Err(
            VulkanMountedPlacedResidentKernelDispatchErrorView::ModelBoundaryBufferUnavailable {
                dispatch_index: dispatch.dispatch_index,
                binding: descriptor.binding,
                signal_id,
            },
        ),
        VulkanBoundDescriptorTargetView::BoundaryOutput { signal_id } => Err(
            VulkanMountedPlacedResidentKernelDispatchErrorView::ModelBoundaryBufferUnavailable {
                dispatch_index: dispatch.dispatch_index,
                binding: descriptor.binding,
                signal_id,
            },
        ),
        VulkanBoundDescriptorTargetView::ActivationSlot { buffer_index, byte_capacity, .. } => {
            if buffer_index < mounted.buffers.activation_slot_buffers.len() {
                Ok(
                    (
                        mounted.buffers.activation_slot_buffers[buffer_index as int].buffer,
                        byte_capacity,
                    ),
                )
            } else {
                Err(missing_mounted(dispatch, descriptor, "activation_slot"@, buffer_index))
            }
        },
        VulkanBoundDescriptorTargetView::StreamStateBuffer { buffer_index, byte_capacity, .. } => {
            if buffer_index < mounted.buffers.state_buffers.len() {
                Ok((mounted.buffers.state_buffers[buffer_index as int].buffer, byte_capacity))
            } else {
                Err(missing_mounted(dispatch, descriptor, "stream_state"@, buffer_index))
            }
        },
        VulkanBoundDescriptorTargetView::StreamStateView { buffer_index, byte_capacity, .. } => {
            if buffer_index < mounted.buffers.state_buffers.len() {
                Ok((mounted.buffers.state_buffers[buffer_index as int].buffer, byte_capacity))
            } else {
                Err(missing_mounted(dispatch, descriptor, "stream_state"@, buffer_index))
            }
        },
    }
}

/// The buffer of a descriptor, with the number of its bytes that are bound.
pub open spec fn descriptor_buffer(
    mounted: VulkanMountedPlacedStreamCircuitView,
    dispatch: VulkanMountedPlacedBoundDispatchView,
    descriptor: VulkanMountedPlacedBoundDescriptorView,
) -> Result<(VulkanResidentBufferView, usize), VulkanMountedPlacedResidentKernelDispatchErrorView> {
    match descriptor.target {
        VulkanMountedPlacedBoundDescriptorTargetView::Resident { target } => resident_buffer(
            mounted,
            dispatch,
            descriptor,
            target,
        ),
        VulkanMountedPlacedBoundDescriptorTargetView::ModelInput { signal_id } => {
            match sequence::find_first(
                mounted.boundary_io.inputs,
                resident_plan::boundary_matcher(signal_id),
            ) {
                None => Err(
                    VulkanMountedPlacedResidentKernelDispatchErrorView::MissingModelBoundaryBuffer {
                        dispatch_index: dispatch.dispatch_index,
                        binding: descriptor.binding,
                        direction: VulkanModelBoundaryDirection::Input,
                        signal_id,
                    },
                ),
                Some(allocation) => Ok((allocation.buffer, allocation.byte_capacity)),
            }
        },
        VulkanMountedPlacedBoundDescriptorTargetView::ModelOutput { signal_id } => {
            match sequence::find_first(
                mounted.boundary_io.outputs,
                resident_plan::boundary_matcher(signal_id),
            ) {
                None => Err(
                    VulkanMountedPlacedResidentKernelDispatchErrorView::MissingModelBoundaryBuffer {
                        dispatch_index: dispatch.dispatch_index,
                        binding: descriptor.binding,
                        direction: VulkanModelBoundaryDirection::Output,
                        signal_id,
                    },
                ),
                Some(allocation) => Ok((allocation.buffer, allocation.byte_capacity)),
            }
        },
        VulkanMountedPlacedBoundDescriptorTargetView::LocalCableInputBuffer { cable } => {
            if cable.buffer_index < mounted.cable_io.local_buffers.len() {
                Ok(
                    (
                        mounted.cable_io.local_buffers[cable.buffer_index as int].buffer,
                        cable.byte_capacity,
                    ),
                )
            } else {
                Err(missing_mounted(dispatch, descriptor, "local_cable"@, cable.buffer_index))
            }
        },
        VulkanMountedPlacedBoundDescriptorTargetView::LocalCableOutputBuffer { cable } => {
            if cable.buffer_index < mounted.cable_io.local_buffers.len() {
                Ok(
                    (
                        mounted.cable_io.local_buffers[cable.buffer_index as int].buffer,
                        cable.byte_capacity,
                    ),
                )
            } else {
                Err(missing_mounted(dispatch, descriptor, "local_cable"@, cable.buffer_index))
            }
        },
        VulkanMountedPlacedBoundDescriptorTargetView::IncomingCableBuffer { endpoint } => {
            if endpoint.buffer_index < mounted.cable_io.incoming_buffers.len() {
                Ok(
                    (
                        mounted.cable_io.incoming_buffers[endpoint.buffer_index as int].buffer,
                        endpoint.byte_capacity,
                    ),
                )
            } else {
                Err(missing_mounted(dispatch, descriptor, "incoming_cable"@, endpoint.buffer_index))
            }
        },
        VulkanMountedPlacedBoundDescriptorTargetView::OutgoingCableBuffer { endpoint } => {
            if endpoint.buffer_index < mounted.cable_io.outgoing_buffers.len() {
                Ok(
                    (
                        mounted.cable_io.outgoing_buffers[endpoint.buffer_index as int].buffer,
                        endpoint.byte_capacity,
                    ),
                )
            } else {
                Err(missing_mounted(dispatch, descriptor, "outgoing_cable"@, endpoint.buffer_index))
            }
        },
    }
}

/// How a descriptor is bound to its buffer.
pub open spec fn buffer_step(
    mounted: VulkanMountedPlacedStreamCircuitView,
    dispatch: VulkanMountedPlacedBoundDispatchView,
) -> spec_fn(VulkanMountedPlacedBoundDescriptorView) -> Result<
    VulkanResidentKernelBufferBindingView,
    VulkanMountedPlacedResidentKernelDispatchErrorView,
> {
    |descriptor: VulkanMountedPlacedBoundDescriptorView|
        if descriptor.binding > u32::MAX {
            Err(
                VulkanMountedPlacedResidentKernelDispatchErrorView::DescriptorBindingOverflow {
                    dispatch_index: dispatch.dispatch_index,
                    binding: descriptor.binding,
                },
            )
        } else {
            match descriptor_buffer(mounted, dispatch, descriptor) {
                Err(error) => Err(error),
                Ok((buffer, bytes)) => Ok(
                    device::bound_buffer(
                        descriptor.binding as u32,
                        buffer,
                        bytes,
                        access_of(descriptor.usage),
                    ),
                ),
            }
        }
}

/// The buffers of a launch: those of its descriptors and, where it depends on the stream's
/// position, the control buffer behind them.
#[verifier::opaque]
pub open spec fn buffer_bindings(
    mounted: VulkanMountedPlacedStreamCircuitView,
    dispatch: VulkanMountedPlacedBoundDispatchView,
) -> Result<
    Seq<VulkanResidentKernelBufferBindingView>,
    VulkanMountedPlacedResidentKernelDispatchErrorView,
> {
    match sequence::try_map(dispatch.descriptors, buffer_step(mounted, dispatch)) {
        Err(error) => Err(error),
        Ok(bindings) => if !dispatch.uses_stream_tick {
            Ok(bindings)
        } else if dispatch.descriptors.len() > u32::MAX {
            Err(
                VulkanMountedPlacedResidentKernelDispatchErrorView::DescriptorBindingOverflow {
                    dispatch_index: dispatch.dispatch_index,
                    binding: dispatch.descriptors.len() as usize,
                },
            )
        } else {
            Ok(
                bindings.push(
                    device::bound_buffer(
                        dispatch.descriptors.len() as u32,
                        mounted.stream_control_buffer,
                        VULKAN_STREAM_CONTROL_BYTE_CAPACITY,
                        VulkanResidentKernelBufferAccess::Read,
                    ),
                ),
            )
        },
    }
}

/// Whether a launch can be made.
#[derive(Debug, PartialEq, Eq)]
pub enum VulkanMountedPlacedResidentKernelDispatchStatus {
    Instantiable {
        descriptor_count: usize,
        workgroup_count_x: u32,
        local_size_x: u32,
        push_constant_byte_count: u32,
    },
    Blocked { error: VulkanMountedPlacedResidentKernelDispatchError },
}

#[verifier::ext_equal]
pub enum VulkanMountedPlacedResidentKernelDispatchStatusView {
    Instantiable { descriptor_count: usize, workgroup_count_x: u32, local_size_x: u32, push_constant_byte_count: u32 },
    Blocked { error: VulkanMountedPlacedResidentKernelDispatchErrorView },
}

impl DeepView for VulkanMountedPlacedResidentKernelDispatchStatus {
    type V = VulkanMountedPlacedResidentKernelDispatchStatusView;

    open spec fn deep_view(&self) -> VulkanMountedPlacedResidentKernelDispatchStatusView {
        match self {
            VulkanMountedPlacedResidentKernelDispatchStatus::Instantiable { descriptor_count, workgroup_count_x, local_size_x, push_constant_byte_count } => VulkanMountedPlacedResidentKernelDispatchStatusView::Instantiable { descriptor_count: *descriptor_count, workgroup_count_x: *workgroup_count_x, local_size_x: *local_size_x, push_constant_byte_count: *push_constant_byte_count },
            VulkanMountedPlacedResidentKernelDispatchStatus::Blocked { error } => VulkanMountedPlacedResidentKernelDispatchStatusView::Blocked { error: error.deep_view() },
        }
    }
}

impl View for VulkanMountedPlacedResidentKernelDispatchStatus {
    type V = VulkanMountedPlacedResidentKernelDispatchStatusView;

    open spec fn view(&self) -> VulkanMountedPlacedResidentKernelDispatchStatusView {
        self.deep_view()
    }
}

impl Clone for VulkanMountedPlacedResidentKernelDispatchStatus {
    fn clone(&self) -> (r: Self)
        ensures
            r@ == self@,
    {
        match self {
            VulkanMountedPlacedResidentKernelDispatchStatus::Instantiable { descriptor_count, workgroup_count_x, local_size_x, push_constant_byte_count } => VulkanMountedPlacedResidentKernelDispatchStatus::Instantiable { descriptor_count: *descriptor_count, workgroup_count_x: *workgroup_count_x, local_size_x: *local_size_x, push_constant_byte_count: *push_constant_byte_count },
            VulkanMountedPlacedResidentKernelDispatchStatus::Blocked { error } => VulkanMountedPlacedResidentKernelDispatchStatus::Blocked { error: error.clone() },
        }
    }
}

/// A launch, and whether it can be made.
#[derive(Debug, PartialEq, Eq)]
pub struct VulkanMountedPlacedResidentKernelDispatchReadiness {
    pub dispatch_index: usize,
    pub kernel_id: String,
    pub component_id: String,
    pub node_id: String,
    pub op: String,
    pub reusable_family_id: String,
    pub status: VulkanMountedPlacedResidentKernelDispatchStatus,
}

#[verifier::ext_equal]
pub struct VulkanMountedPlacedResidentKernelDispatchReadinessView {
    pub dispatch_index: usize,
    pub kernel_id: Seq<char>,
    pub component_id: Seq<char>,
    pub node_id: Seq<char>,
    pub op: Seq<char>,
    pub reusable_family_id: Seq<char>,
    pub status: VulkanMountedPlacedResidentKernelDispatchStatusView,
}

impl DeepView for VulkanMountedPlacedResidentKernelDispatchReadiness {
    type V = VulkanMountedPlacedResidentKernelDispatchReadinessView;

    open spec fn deep_view(&self) -> VulkanMountedPlacedResidentKernelDispatchReadinessView {
        VulkanMountedPlacedResidentKernelDispatchReadinessView {
            dispatch_index: self.dispatch_index,
            kernel_id: self.kernel_id.deep_view(),
            component_id: self.component_id.deep_view(),
            node_id: self.node_id.deep_view(),
            op: self.op.deep_view(),
            reusable_family_id: self.reusable_family_id.deep_view(),
            status: self.status.deep_view(),
        }
    }
}

impl View for VulkanMountedPlacedResidentKernelDispatchReadiness {
    type V = VulkanMountedPlacedResidentKernelDispatchReadinessView;

    open spec fn view(&self) -> VulkanMountedPlacedResidentKernelDispatchReadinessView {
        self.deep_view()
    }
}

impl Clone for VulkanMountedPlacedResidentKernelDispatchReadiness {
    fn clone(&self) -> (r: Self)
        ensures
            r@ == self@,
    {
        VulkanMountedPlacedResidentKernelDispatchReadiness {
            dispatch_index: self.dispatch_index,
            kernel_id: self.kernel_id.clone(),
            component_id: self.component_id.clone(),
            node_id: self.node_id.clone(),
            op: self.op.clone(),
            reusable_family_id: self.reusable_family_id.clone(),
            status: self.status.clone(),
        }
    }
}

/// Which launches of a device can be made.
#[derive(Debug, PartialEq, Eq)]
pub struct VulkanMountedPlacedResidentKernelDispatchReadinessPlan {
    pub backend_id: String,
    pub device_id: String,
    pub dispatches: Vec<VulkanMountedPlacedResidentKernelDispatchReadiness>,
    pub dispatch_count: usize,
    pub instantiable_count: usize,
    pub blocked_count: usize,
    pub missing_loaded_artifact_count: usize,
    pub descriptor_binding_blocked_count: usize,
    pub push_constant_blocked_count: usize,
    pub instantiable_descriptor_count: usize,
}

#[verifier::ext_equal]
pub struct VulkanMountedPlacedResidentKernelDispatchReadinessPlanView {
    pub backend_id: Seq<char>,
    pub device_id: Seq<char>,
    pub dispatches: Seq<VulkanMountedPlacedResidentKernelDispatchReadinessView>,
    pub dispatch_count: usize,
    pub instantiable_count: usize,
    pub blocked_count: usize,
    pub missing_loaded_artifact_count: usize,
    pub descriptor_binding_blocked_count: usize,
    pub push_constant_blocked_count: usize,
    pub instantiable_descriptor_count: usize,
}

impl DeepView for VulkanMountedPlacedResidentKernelDispatchReadinessPlan {
    type V = VulkanMountedPlacedResidentKernelDispatchReadinessPlanView;

    open spec fn deep_view(&self) -> VulkanMountedPlacedResidentKernelDispatchReadinessPlanView {
        VulkanMountedPlacedResidentKernelDispatchReadinessPlanView {
            backend_id: self.backend_id.deep_view(),
            device_id: self.device_id.deep_view(),
            dispatches: self.dispatches.deep_view(),
            dispatch_count: self.dispatch_count,
            instantiable_count: self.instantiable_count,
            blocked_count: self.blocked_count,
            missing_loaded_artifact_count: self.missing_loaded_artifact_count,
            descriptor_binding_blocked_count: self.descriptor_binding_blocked_count,
            push_constant_blocked_count: self.push_constant_blocked_count,
            instantiable_descriptor_count: self.instantiable_descriptor_count,
        }
    }
}

impl View for VulkanMountedPlacedResidentKernelDispatchReadinessPlan {
    type V = VulkanMountedPlacedResidentKernelDispatchReadinessPlanView;

    open spec fn view(&self) -> VulkanMountedPlacedResidentKernelDispatchReadinessPlanView {
        self.deep_view()
    }
}

impl Clone for VulkanMountedPlacedResidentKernelDispatchReadinessPlan {
    fn clone(&self) -> (r: Self)
        ensures
            r@ == self@,
    {
        VulkanMountedPlacedResidentKernelDispatchReadinessPlan {
            backend_id: self.backend_id.clone(),
            device_id: self.device_id.clone(),
            dispatches: self.dispatches.clone(),
            dispatch_count: self.dispatch_count,
            instantiable_count: self.instantiable_count,
            blocked_count: self.blocked_count,
            missing_loaded_artifact_count: self.missing_loaded_artifact_count,
            descriptor_binding_blocked_count: self.descriptor_binding_blocked_count,
            push_constant_blocked_count: self.push_constant_blocked_count,
            instantiable_descriptor_count: self.instantiable_descriptor_count,
        }
    }
}

/// The error where an artifact was not loaded.
pub open spec fn not_loaded(
    dispatch: VulkanMountedPlacedBoundDispatchView,
) -> VulkanMountedPlacedResidentKernelDispatchErrorView {
    VulkanMountedPlacedResidentKernelDispatchErrorView::MissingLoadedArtifact {
        dispatch_index: dispatch.dispatch_index,
        family_id: dispatch.reusable_family_id,
    }
}

/// Whether a launch can be made: its artifact is loaded, its buffers are mounted and its push
/// constants have a size.
#[verifier::opaque]
pub open spec fn launch_status(
    mounted: VulkanMountedPlacedStreamCircuitView,
    dispatch: VulkanMountedPlacedBoundDispatchView,
    loaded: VulkanLoadedReusableKernelArtifactManifestView,
) -> VulkanMountedPlacedResidentKernelDispatchStatusView {
    match reusable_kernels::loaded_artifact(loaded, dispatch.reusable_family_id) {
        None => VulkanMountedPlacedResidentKernelDispatchStatusView::Blocked {
            error: not_loaded(dispatch),
        },
        Some(artifact) => match buffer_bindings(mounted, dispatch) {
            Err(error) => VulkanMountedPlacedResidentKernelDispatchStatusView::Blocked { error },
            Ok(bindings) => match resident_dispatch::push_constant_bytes(dispatch.push_constants) {
                Err(error) => {
                    VulkanMountedPlacedResidentKernelDispatchStatusView::Blocked { error }
                },
                Ok(bytes) => VulkanMountedPlacedResidentKernelDispatchStatusView::Instantiable {
                    descriptor_count: bindings.len() as usize,
                    workgroup_count_x: artifact.artifact.workgroup_count_x,
                    local_size_x: artifact.artifact.local_size_x,
                    push_constant_byte_count: bytes,
                },
            },
        },
    }
}

/// A launch, and whether it can be made.
pub open spec fn readiness_step(
    mounted: VulkanMountedPlacedStreamCircuitView,
    loaded: VulkanLoadedReusableKernelArtifactManifestView,
) -> spec_fn(VulkanMountedPlacedBoundDispatchView) -> VulkanMountedPlacedResidentKernelDispatchReadinessView {
    |dispatch: VulkanMountedPlacedBoundDispatchView|
        VulkanMountedPlacedResidentKernelDispatchReadinessView {
            dispatch_index: dispatch.dispatch_index,
            kernel_id: dispatch.kernel_id,
            component_id: dispatch.component_id,
            node_id: dispatch.node_id,
            op: dispatch.op,
            reusable_family_id: dispatch.reusable_family_id,
            status: launch_status(mounted, dispatch, loaded),
        }
}

/// Whether a launch can be made.
pub open spec fn is_instantiable() -> spec_fn(VulkanMountedPlacedResidentKernelDispatchReadinessView) -> bool {
    |d: VulkanMountedPlacedResidentKernelDispatchReadinessView| d.status is Instantiable
}

/// Whether a launch is blocked.
pub open spec fn is_blocked() -> spec_fn(VulkanMountedPlacedResidentKernelDispatchReadinessView) -> bool {
    |d: VulkanMountedPlacedResidentKernelDispatchReadinessView| d.status is Blocked
}

/// Whether a launch is blocked for want of its artifact.
pub open spec fn lacks_loaded_artifact() -> spec_fn(
    VulkanMountedPlacedResidentKernelDispatchReadinessView,
) -> bool {
    |d: VulkanMountedPlacedResidentKernelDispatchReadinessView|
        d.status is Blocked && d.status->error is MissingLoadedArtifact
}

/// Whether a launch is blocked by its push constants.
pub open spec fn has_bad_push_constants() -> spec_fn(
    VulkanMountedPlacedResidentKernelDispatchReadinessView,
) -> bool {
    |d: VulkanMountedPlacedResidentKernelDispatchReadinessView|
        d.status is Blocked && (d.status->error is UnsupportedPushConstantScalar
            || d.status->error is UnsupportedPushConstantBinding
            || d.status->error is PushConstantByteCountOverflow)
}

/// Whether a launch is blocked by its descriptors.
pub open spec fn has_bad_descriptors() -> spec_fn(
    VulkanMountedPlacedResidentKernelDispatchReadinessView,
) -> bool {
    |d: VulkanMountedPlacedResidentKernelDispatchReadinessView|
        is_blocked()(d) && !lacks_loaded_artifact()(d) && !has_bad_push_constants()(d)
}

/// The number of descriptors of a launch that can be made.
pub open spec fn ready_descriptors() -> spec_fn(
    VulkanMountedPlacedResidentKernelDispatchReadinessView,
) -> nat {
    |d: VulkanMountedPlacedResidentKernelDispatchReadinessView|
        match d.status {
            VulkanMountedPlacedResidentKernelDispatchStatusView::Instantiable {
                descriptor_count,
                ..
            } => descriptor_count as nat,
            _ => 0,
        }
}

/// Which launches of a device can be made.
pub open spec fn readiness_plan(
    mounted: VulkanMountedPlacedStreamCircuitView,
    plan: VulkanMountedPlacedBoundDispatchPlanView,
    loaded: VulkanLoadedReusableKernelArtifactManifestView,
) -> VulkanMountedPlacedResidentKernelDispatchReadinessPlanView {
    let dispatches = plan.dispatches.map_values(readiness_step(mounted, loaded));
    VulkanMountedPlacedResidentKernelDispatchReadinessPlanView {
        backend_id: plan.backend_id,
        device_id: plan.device_id,
        dispatches,
        dispatch_count: dispatches.len() as usize,
        instantiable_count: sequence::count(dispatches, is_instantiable()) as usize,
        blocked_count: sequence::count(dispatches, is_blocked()) as usize,
        missing_loaded_artifact_count: sequence::count(
            dispatches,
            lacks_loaded_artifact(),
        ) as usize,
        descriptor_binding_blocked_count: sequence::count(
            dispatches,
            has_bad_descriptors(),
        ) as usize,
        push_constant_blocked_count: sequence::count(
            dispatches,
            has_bad_push_constants(),
        ) as usize,
        instantiable_descriptor_count: sequence::total(dispatches, ready_descriptors()) as usize,
    }
}

/// The kernel of a launch with its buffers bound.
pub open spec fn resident_launch(
    mounted: VulkanMountedPlacedStreamCircuitView,
    device_id: Seq<char>,
    dispatch: VulkanMountedPlacedBoundDispatchView,
    loaded: VulkanLoadedReusableKernelArtifactManifestView,
) -> Result<VulkanResidentKernelDispatchView, VulkanMountedPlacedResidentKernelDispatchErrorView> {
    match reusable_kernels::loaded_artifact(loaded, dispatch.reusable_family_id) {
        None => Err(not_loaded(dispatch)),
        Some(artifact) => match buffer_bindings(mounted, dispatch) {
            Err(error) => Err(error),
            Ok(bindings) => match resident_dispatch::push_constant_bytes(dispatch.push_constants) {
                Err(error) => Err(error),
                Ok(bytes) => Ok(
                    VulkanResidentKernelDispatchView {
                        device_id,
                        spirv_words: artifact.words,
                        bindings,
                        workgroup_count_x: artifact.artifact.workgroup_count_x,
                        workgroup_count_y: 1,
                        base_workgroup_z: 0,
                        local_size_x: artifact.artifact.local_size_x,
                        push_constant_byte_count: bytes,
                        label: Some(mounted_dispatch::semantic_label(dispatch, None)),
                    },
                ),
            },
        },
    }
}

/// The launches of a mounted circuit, prepared.
pub open spec fn mounted_prepared(
    mounted: VulkanMountedPlacedStreamCircuitView,
    manifest: VulkanReusableKernelArtifactManifestView,
    layouts: Seq<VulkanTransientStateBufferLayoutView>,
) -> Result<VulkanPreparedDispatchPlanView, VulkanPreparedDispatchPlanErrorView> {
    prepared_launches(
        mounted.placed_plan.dispatch_plan,
        mounted.placed_plan.reusable_kernel_plan,
        mounted.placed_plan.placed_resident_plan.resident_plan,
        mounted.buffers.dynamic_state_capacity_activations,
        layouts,
        manifest,
    )
}

/// The launches of a mounted circuit, bound to its buffers.
pub open spec fn mounted_bound(
    mounted: VulkanMountedPlacedStreamCircuitView,
    manifest: VulkanReusableKernelArtifactManifestView,
    layouts: Seq<VulkanTransientStateBufferLayoutView>,
) -> Result<VulkanBoundDispatchPlanView, VulkanBoundDispatchPlanErrorView> {
    bound_launches(mounted_prepared(mounted, manifest, layouts), mounted.buffers)
}

/// The launches of a mounted circuit, with the edges that carry their boundary signals.
pub open spec fn mounted_placed(
    mounted: VulkanMountedPlacedStreamCircuitView,
    manifest: VulkanReusableKernelArtifactManifestView,
    layouts: Seq<VulkanTransientStateBufferLayoutView>,
) -> Result<VulkanPlacedBoundDispatchPlanView, VulkanBoundDispatchPlanErrorView> {
    match mounted_bound(mounted, manifest, layouts) {
        Err(error) => Err(error),
        Ok(plan) => Ok(
            bound_dispatch::placed_plan(plan, mounted.placed_plan.placed_resident_plan),
        ),
    }
}

/// The launches of a mounted circuit, with the buffers of those edges.
pub open spec fn mounted_launches(
    mounted: VulkanMountedPlacedStreamCircuitView,
    manifest: VulkanReusableKernelArtifactManifestView,
    layouts: Seq<VulkanTransientStateBufferLayoutView>,
) -> Result<VulkanMountedPlacedBoundDispatchPlanView, VulkanBoundDispatchPlanErrorView> {
    match mounted_placed(mounted, manifest, layouts) {
        Err(error) => Err(error),
        Ok(plan) => mounted_dispatch::mounted_plan(plan, mounted.cable_io),
    }
}

/// Whether the descriptors of a mounted circuit can be counted.
pub open spec fn mounted_countable(
    mounted: VulkanMountedPlacedStreamCircuitView,
    manifest: VulkanReusableKernelArtifactManifestView,
    layouts: Seq<VulkanTransientStateBufferLayoutView>,
) -> bool {
    countable(
        mounted.placed_plan.dispatch_plan,
        mounted.placed_plan.reusable_kernel_plan,
        mounted.placed_plan.placed_resident_plan.resident_plan,
        mounted.buffers.dynamic_state_capacity_activations,
        layouts,
        manifest,
    )
}

fn missing_buffer(
    dispatch: &VulkanMountedPlacedBoundDispatch,
    descriptor: &VulkanMountedPlacedBoundDescriptor,
    kind: &str,
    buffer_index: usize,
) -> (r: VulkanMountedPlacedResidentKernelDispatchError)
    ensures
        r@ == missing_mounted(dispatch@, descriptor@, kind@, buffer_index),
{
    VulkanMountedPlacedResidentKernelDispatchError::MissingMountedBuffer {
        dispatch_index: dispatch.dispatch_index,
        binding: descriptor.binding,
        buffer_kind: kind.to_owned(),
        buffer_index,
    }
}

impl VulkanMountedPlacedStreamCircuit {
    /// Mounts the circuits of a device. `parameter_buffers`, `buffers` and `boundary_io` are what
    /// came of allocating the buffers of the parameters, of the stream and of the model's boundary.
    pub fn from_placed_plan(
        device: &VulkanComputeDevice,
        placed_plan: VulkanPlacedStreamCircuitPlan,
        parameter_buffers: Result<VulkanPermanentParameterBuffers, VulkanStreamCircuitMountError>,
        buffers: Result<VulkanStreamCircuitStreamBuffers, VulkanError>,
        boundary_io: Result<VulkanModelBoundaryBuffers, VulkanStreamCircuitMountError>,
    ) -> (r: Result<Self, VulkanStreamCircuitMountError>)
        requires
            placed_plan@.placed_resident_plan.local_edges.len()
                + placed_plan@.placed_resident_plan.incoming_edges.len()
                + placed_plan@.placed_resident_plan.outgoing_edges.len() <= usize::MAX,
        ensures
            sequence::outcome(r) == (match sequence::outcome(parameter_buffers) {
                Err(error) => Err(error),
                Ok(parameters) => mounted_placed_circuit(
                    device@.device_id,
                    placed_plan@,
                    parameters,
                    sequence::outcome(buffers),
                    sequence::outcome(boundary_io),
                    Seq::empty(),
                    None,
                ),
            }),
    {
        match parameter_buffers {
            Err(error) => Err(error),
            Ok(parameter_buffers) => Self::from_placed_plan_with_parameter_buffers(
                device,
                placed_plan,
                parameter_buffers,
                buffers,
                boundary_io,
            ),
        }
    }

    /// Mounts the circuits of a device with given parameter buffers.
    pub fn from_placed_plan_with_parameter_buffers(
        device: &VulkanComputeDevice,
        placed_plan: VulkanPlacedStreamCircuitPlan,
        parameter_buffers: VulkanPermanentParameterBuffers,
        buffers: Result<VulkanStreamCircuitStreamBuffers, VulkanError>,
        boundary_io: Result<VulkanModelBoundaryBuffers, VulkanStreamCircuitMountError>,
    ) -> (r: Result<Self, VulkanStreamCircuitMountError>)
        requires
            placed_plan@.placed_resident_plan.local_edges.len()
                + placed_plan@.placed_resident_plan.incoming_edges.len()
                + placed_plan@.placed_resident_plan.outgoing_edges.len() <= usize::MAX,
        ensures
            sequence::outcome(r) == mounted_placed_circuit(
                device@.device_id,
                placed_plan@,
                parameter_buffers@,
                sequence::outcome(buffers),
                sequence::outcome(boundary_io),
                Seq::empty(),
                None,
            ),
    {
        Self::from_placed_plan_with_parameter_buffers_and_activation_overrides(
            device,
            placed_plan,
            parameter_buffers,
            buffers,
            boundary_io,
        )
    }

    /// Mounts the circuits of a device with given parameter buffers. Given activation buffers are
    /// among `buffers`, which is what came of allocating the stream's buffers around them.
    pub fn from_placed_plan_with_parameter_buffers_and_activation_overrides(
        device: &VulkanComputeDevice,
        placed_plan: VulkanPlacedStreamCircuitPlan,
        parameter_buffers: VulkanPermanentParameterBuffers,
        buffers: Result<VulkanStreamCircuitStreamBuffers, VulkanError>,
        boundary_io: Result<VulkanModelBoundaryBuffers, VulkanStreamCircuitMountError>,
    ) -> (r: Result<Self, VulkanStreamCircuitMountError>)
        requires
            placed_plan@.placed_resident_plan.local_edges.len()
                + placed_plan@.placed_resident_plan.incoming_edges.len()
                + placed_plan@.placed_resident_plan.outgoing_edges.len() <= usize::MAX,
        ensures
            sequence::outcome(r) == mounted_placed_circuit(
                device@.device_id,
                placed_plan@,
                parameter_buffers@,
                sequence::outcome(buffers),
                sequence::outcome(boundary_io),
                Seq::empty(),
                None,
            ),
    {
        let none: Vec<VulkanPlacedCableEndpointBufferOverride> = Vec::new();
        assert(none.deep_view() =~= Seq::empty());
        Self::from_placed_plan_with_parameter_buffers_and_buffer_overrides(
            device,
            placed_plan,
            parameter_buffers,
            buffers,
            boundary_io,
            none.as_slice(),
            None,
        )
    }

    /// Mounts the circuits of a device with given buffers.
    pub fn from_placed_plan_with_parameter_buffers_and_buffer_overrides(
        device: &VulkanComputeDevice,
        placed_plan: VulkanPlacedStreamCircuitPlan,
        parameter_buffers: VulkanPermanentParameterBuffers,
        buffers: Result<VulkanStreamCircuitStreamBuffers, VulkanError>,
        boundary_io: Result<VulkanModelBoundaryBuffers, VulkanStreamCircuitMountError>,
        cable_endpoint_overrides: &[VulkanPlacedCableEndpointBufferOverride],
        stream_control_override: Option<VulkanResidentBuffer>,
    ) -> (r: Result<Self, VulkanStreamCircuitMountError>)
        requires
            placed_plan@.placed_resident_plan.local_edges.len()
                + placed_plan@.placed_resident_plan.incoming_edges.len()
                + placed_plan@.placed_resident_plan.outgoing_edges.len() <= usize::MAX,
        ensures
            sequence::outcome(r) == mounted_placed_circuit(
                device@.device_id,
                placed_plan@,
                parameter_buffers@,
                sequence::outcome(buffers),
                sequence::outcome(boundary_io),
                cable_endpoint_overrides.deep_view(),
                stream_control_override.deep_view(),
            ),
    {
        let buffers: VulkanStreamCircuitStreamBuffers = match buffers {
            Err(error) => {
                return Err(VulkanStreamCircuitMountError::from(error));
            },
            Ok(buffers) => buffers,
        };
        let boundary_io: VulkanModelBoundaryBuffers = match boundary_io {
            Err(error) => {
                return Err(error);
            },
            Ok(boundary_io) => boundary_io,
        };
        let plan: VulkanPlacedCableIoPlan = match VulkanPlacedCableIoPlan::from_placed_resident_plan(
            &placed_plan.placed_resident_plan,
        ) {
            Err(error) => {
                return Err(VulkanStreamCircuitMountError::from(error));
            },
            Ok(plan) => plan,
        };
        let cable_io: VulkanPlacedCableIoBuffers =
            match plan.allocate_buffers_with_endpoint_overrides(device, cable_endpoint_overrides) {
            Err(error) => {
                return Err(VulkanStreamCircuitMountError::from(error));
            },
            Ok(cable_io) => cable_io,
        };
        match choose_control_buffer(device, stream_control_override) {
            Err(error) => Err(VulkanStreamCircuitMountError::from(error)),
            Ok(stream_control_buffer) => Ok(
                VulkanMountedPlacedStreamCircuit {
                    placed_plan,
                    parameter_buffers,
                    buffers,
                    boundary_io,
                    cable_io,
                    stream_control_buffer,
                },
            ),
        }
    }

    /// A mounted circuit is a plan; it takes a runner to execute it.
    pub fn can_execute(&self) -> (r: bool)
        ensures
            !r,
    {
        false
    }

    /// The device that hosts the circuits.
    pub fn device_id(&self) -> (r: &str)
        ensures
            r@ == self@.placed_plan.device_id,
    {
        self.placed_plan.device_id.as_str()
    }

    /// Resolves the descriptors of the circuits' launches.
    pub fn descriptor_resource_plan(&self, layouts: &Vec<VulkanTransientStateBufferLayout>) -> (r:
        Result<VulkanDescriptorResourcePlan, VulkanDescriptorResourcePlanError>)
        requires
            self@.placed_plan.placed_resident_plan.resident_plan.stream_state_buffers.len()
                == layouts@.len(),
            sequence::total(
                self@.placed_plan.dispatch_plan.commands,
                descriptor_resources::binding_count(),
            ) <= usize::MAX,
        ensures
            sequence::outcome(r) == descriptor_resources::descriptor_resources(
                self@.placed_plan.dispatch_plan,
                self@.placed_plan.placed_resident_plan.resident_plan,
                self@.buffers.dynamic_state_capacity_activations,
                layouts.deep_view(),
            ),
    {
        VulkanDescriptorResourcePlan::from_plans(
            &self.placed_plan.dispatch_plan,
            &self.placed_plan.placed_resident_plan.resident_plan,
            self.buffers.dynamic_state_capacity_activations,
            layouts,
        )
    }

    /// Prepares the circuits' launches with the artifacts of a manifest.
    pub fn prepared_dispatch_plan(
        &self,
        manifest: &VulkanReusableKernelArtifactManifest,
        layouts: &Vec<VulkanTransientStateBufferLayout>,
    ) -> (r: Result<VulkanPreparedDispatchPlan, VulkanPreparedDispatchPlanError>)
        requires
            mounted_countable(self@, manifest@, layouts.deep_view()),
        ensures
            sequence::outcome(r) == mounted_prepared(self@, manifest@, layouts.deep_view()),
            r matches Ok(plan) ==> sequence::total(
                plan@.dispatches,
                dispatch_plan::prepared_descriptor_count(),
            ) <= usize::MAX,
    {
        prepare_launches(
            &self.placed_plan.dispatch_plan,
            &self.placed_plan.reusable_kernel_plan,
            &self.placed_plan.placed_resident_plan.resident_plan,
            self.buffers.dynamic_state_capacity_activations,
            layouts,
            manifest,
        )
    }

    /// Binds the circuits' launches to the stream's buffers.
    pub fn bound_dispatch_plan(
        &self,
        manifest: &VulkanReusableKernelArtifactManifest,
        layouts: &Vec<VulkanTransientStateBufferLayout>,
    ) -> (r: Result<VulkanBoundDispatchPlan, VulkanBoundDispatchPlanError>)
        requires
            mounted_countable(self@, manifest@, layouts.deep_view()),
        ensures
            sequence::outcome(r) == mounted_bound(self@, manifest@, layouts.deep_view()),
            r matches Ok(plan) ==> sequence::nested_len(
                plan@.dispatches,
                bound_dispatch::bound_descriptors(),
            ) <= usize::MAX,
    {
        match self.prepared_dispatch_plan(manifest, layouts) {
            Err(error) => Err(VulkanBoundDispatchPlanError::PreparedDispatch(error)),
            Ok(plan) => {
                VulkanBoundDispatchPlan::from_prepared_plan(&plan, &self.buffers)
            },
        }
    }

    /// Binds the circuits' launches to the stream's buffers and the device's edges.
    pub fn placed_bound_dispatch_plan(
        &self,
        manifest: &VulkanReusableKernelArtifactManifest,
        layouts: &Vec<VulkanTransientStateBufferLayout>,
    ) -> (r: Result<VulkanPlacedBoundDispatchPlan, VulkanBoundDispatchPlanError>)
        requires
            mounted_countable(self@, manifest@, layouts.deep_view()),
        ensures
            sequence::outcome(r) == mounted_placed(self@, manifest@, layouts.deep_view()),
            r matches Ok(plan) ==> sequence::nested_len(
                plan@.dispatches,
                bound_dispatch::placed_descriptors(),
            ) <= usize::MAX,
    {
        match self.bound_dispatch_plan(manifest, layouts) {
            Err(error) => Err(error),
            Ok(plan) => {
                proof {
                    bound_dispatch::lemma_placed_plan_length(
                        plan@,
                        self@.placed_plan.placed_resident_plan,
                    );
                }
                Ok(
                    VulkanPlacedBoundDispatchPlan::from_bound_plan(
                        &plan,
                        &self.placed_plan.placed_resident_plan,
                    ),
                )
            },
        }
    }

    /// Binds the circuits' launches to the stream's buffers and the device's cable buffers.
    pub fn mounted_placed_bound_dispatch_plan(
        &self,
        manifest: &VulkanReusableKernelArtifactManifest,
        layouts: &Vec<VulkanTransientStateBufferLayout>,
    ) -> (r: Result<VulkanMountedPlacedBoundDispatchPlan, VulkanBoundDispatchPlanError>)
        requires
            mounted_countable(self@, manifest@, layouts.deep_view()),
        ensures
            sequence::outcome(r) == mounted_launches(self@, manifest@, layouts.deep_view()),
    {
        match self.placed_bound_dispatch_plan(manifest, layouts) {
            Err(error) => Err(error),
            Ok(plan) => VulkanMountedPlacedBoundDispatchPlan::from_placed_bound_plan(
                &plan,
                &self.cable_io,
            ),
        }
    }

    /// Tells which of the circuits' launches can be made.
    pub fn resident_kernel_dispatch_readiness_plan(
        &self,
        manifest: &VulkanReusableKernelArtifactManifest,
        loaded_manifest: &VulkanLoadedReusableKernelArtifactManifest,
        layouts: &Vec<VulkanTransientStateBufferLayout>,
    ) -> (r: Result<
        VulkanMountedPlacedResidentKernelDispatchReadinessPlan,
        VulkanBoundDispatchPlanError,
    >)
        requires
            mounted_countable(self@, manifest@, layouts.deep_view()),
            mounted_launches(self@, manifest@, layouts.deep_view()) matches Ok(plan)
                ==> sequence::total(
                plan.dispatches.map_values(readiness_step(self@, loaded_manifest@)),
                ready_descriptors(),
            ) <= usize::MAX,
        ensures
            sequence::outcome(r) == (match mounted_launches(
                self@,
                manifest@,
                layouts.deep_view(),
            ) {
                Err(error) => Err(error),
                Ok(plan) => Ok(readiness_plan(self@, plan, loaded_manifest@)),
            }),
    {
        match self.mounted_placed_bound_dispatch_plan(manifest, layouts) {
            Err(error) => Err(error),
            Ok(plan) => Ok(
                VulkanMountedPlacedResidentKernelDispatchReadinessPlan::from_mounted_bound_plan(
                    self,
                    &plan,
                    loaded_manifest,
                ),
            ),
        }
    }

    /// Tells whether a launch can be made.
    pub fn resident_kernel_dispatch_readiness_for_bound_dispatch(
        &self,
        dispatch: &VulkanMountedPlacedBoundDispatch,
        loaded_manifest: &VulkanLoadedReusableKernelArtifactManifest,
    ) -> (r: VulkanMountedPlacedResidentKernelDispatchStatus)
        ensures
            r@ == launch_status(self@, dispatch@, loaded_manifest@),
    {
        reveal(launch_status);
        let artifact = match loaded_manifest.artifact(dispatch.reusable_family_id.as_str()) {
            None => {
                return VulkanMountedPlacedResidentKernelDispatchStatus::Blocked {
                    error: VulkanMountedPlacedResidentKernelDispatchError::MissingLoadedArtifact {
                        dispatch_index: dispatch.dispatch_index,
                        family_id: dispatch.reusable_family_id.clone(),
                    },
                };
            },
            Some(artifact) => artifact,
        };
        let descriptor_count: usize =
            match self.resident_kernel_buffer_bindings_for_bound_dispatch(dispatch) {
            Err(error) => {
                return VulkanMountedPlacedResidentKernelDispatchStatus::Blocked { error };
            },
            Ok(bindings) => {
                assert(bindings.deep_view().len() == bindings@.len());
                bindings.len()
            },
        };
        match resident_dispatch::push_constant_byte_count(&dispatch.push_constants) {
            Err(error) => VulkanMountedPlacedResidentKernelDispatchStatus::Blocked { error },
            Ok(bytes) => VulkanMountedPlacedResidentKernelDispatchStatus::Instantiable {
                descriptor_count,
                workgroup_count_x: artifact.artifact.workgroup_count_x,
                local_size_x: artifact.artifact.local_size_x,
                push_constant_byte_count: bytes,
            },
        }
    }

    /// The buffers of a launch.
    #[verifier::loop_isolation(false)]
    pub fn resident_kernel_buffer_bindings_for_bound_dispatch(
        &self,
        dispatch: &VulkanMountedPlacedBoundDispatch,
    ) -> (r: Result<
        Vec<VulkanResidentKernelBufferBinding>,
        VulkanMountedPlacedResidentKernelDispatchError,
    >)
        ensures
            sequence::outcome(r) == buffer_bindings(self@, dispatch@),
    {
        reveal(buffer_bindings);
        let ghost all_bindings = dispatch.descriptors.deep_view();
        let ghost step_bindings = buffer_step(self@, dispatch@);
        let mut bindings: Vec<VulkanResidentKernelBufferBinding> = Vec::new();
        let mut i: usize = 0;
        assert(all_bindings.take(0) =~= Seq::empty());
        assert(bindings.deep_view() =~= Seq::empty());
        while i < dispatch.descriptors.len()
            invariant
                i <= dispatch.descriptors.len(),
                sequence::try_map(all_bindings.take(i as int), step_bindings) is Ok,
                sequence::try_map(all_bindings.take(i as int), step_bindings)->Ok_0 == bindings.deep_view(),
            decreases dispatch.descriptors.len() - i,
        {
            let item = &dispatch.descriptors[i];
            assert(all_bindings[i as int] == item.deep_view());
            proof {
                sequence::lemma_try_map_step(all_bindings, step_bindings, i as int);
                if sequence::try_map(all_bindings.take(i + 1), step_bindings) is Err {
                    sequence::lemma_try_map_error(all_bindings, step_bindings, i + 1);
                }
            }
            match self.resident_kernel_buffer_binding(dispatch, item) {
                Ok(added) => {
                    let ghost before = bindings.deep_view();
                    let ghost value = added.deep_view();
                    bindings.push(added);
                    assert(bindings.deep_view() =~= before.push(value));
                },
                Err(error) => {
                    return Err(error);
                },
            }
            i += 1;
        }
        assert(all_bindings.take(all_bindings.len() as int) =~= all_bindings);
        if dispatch.uses_stream_tick {
            assert(dispatch@.descriptors.len() == dispatch.descriptors.len());
            if dispatch.descriptors.len() > u32::MAX as usize {
                return Err(
                    VulkanMountedPlacedResidentKernelDispatchError::DescriptorBindingOverflow {
                        dispatch_index: dispatch.dispatch_index,
                        binding: dispatch.descriptors.len(),
                    },
                );
            }
            let ghost before = bindings.deep_view();
            let control: VulkanResidentKernelBufferBinding = VulkanResidentKernelBufferBinding::bind(
                dispatch.descriptors.len() as u32,
                &self.stream_control_buffer,
                VULKAN_STREAM_CONTROL_BYTE_CAPACITY,
                VulkanResidentKernelBufferAccess::Read,
            );
            let ghost added = control@;
            bindings.push(control);
            assert(bindings.deep_view() =~= before.push(added));
        }
        Ok(bindings)
    }

    /// The kernel of a launch with its buffers bound.
    pub fn create_resident_kernel_dispatch_for_bound_dispatch(
        &self,
        device: &VulkanComputeDevice,
        dispatch: &VulkanMountedPlacedBoundDispatch,
        loaded_manifest: &VulkanLoadedReusableKernelArtifactManifest,
    ) -> (r: Result<
        VulkanResidentKernelDispatch,
        VulkanMountedPlacedResidentKernelDispatchError,
    >)
        ensures
            sequence::outcome(r) == resident_launch(
                self@,
                device@.device_id,
                dispatch@,
                loaded_manifest@,
            ),
    {
        let artifact = match loaded_manifest.artifact(dispatch.reusable_family_id.as_str()) {
            None => {
                return Err(
                    VulkanMountedPlacedResidentKernelDispatchError::MissingLoadedArtifact {
                        dispatch_index: dispatch.dispatch_index,
                        family_id: dispatch.reusable_family_id.clone(),
                    },
                );
            },
            Some(artifact) => artifact,
        };
        let bindings: Vec<VulkanResidentKernelBufferBinding> =
            match self.resident_kernel_buffer_bindings_for_bound_dispatch(dispatch) {
            Err(error) => {
                return Err(error);
            },
            Ok(bindings) => bindings,
        };
        match resident_dispatch::push_constant_byte_count(&dispatch.push_constants) {
            Err(error) => Err(error),
            Ok(bytes) => {
                let spirv_words: Vec<u32> = device::copy_words(&artifact.words);
                assert(spirv_words.deep_view() =~= artifact.words.deep_view());
                Ok(
                    VulkanResidentKernelDispatch {
                        device_id: device.device_id.clone(),
                        spirv_words,
                        bindings,
                        workgroup_count_x: artifact.artifact.workgroup_count_x,
                        workgroup_count_y: 1,
                        base_workgroup_z: 0,
                        local_size_x: artifact.artifact.local_size_x,
                        push_constant_byte_count: bytes,
                        label: Some(
                            mounted_dispatch::vulkan_dispatch_semantic_label(dispatch, None),
                        ),
                    },
                )
            },
        }
    }

    fn resident_kernel_buffer_binding(
        &self,
        dispatch: &VulkanMountedPlacedBoundDispatch,
        descriptor: &VulkanMountedPlacedBoundDescriptor,
    ) -> (r: Result<
        VulkanResidentKernelBufferBinding,
        VulkanMountedPlacedResidentKernelDispatchError,
    >)
        ensures
            sequence::outcome(r) == buffer_step(self@, dispatch@)(descriptor@),
    {
        if descriptor.binding > u32::MAX as usize {
            return Err(
                VulkanMountedPlacedResidentKernelDispatchError::DescriptorBindingOverflow {
                    dispatch_index: dispatch.dispatch_index,
                    binding: descriptor.binding,
                },
            );
        }
        let access: VulkanResidentKernelBufferAccess = match descriptor.usage {
            VulkanKernelDescriptorUsage::InputSignal => VulkanResidentKernelBufferAccess::Read,
            VulkanKernelDescriptorUsage::Parameter => VulkanResidentKernelBufferAccess::Read,
            VulkanKernelDescriptorUsage::StateRead => VulkanResidentKernelBufferAccess::Read,
            VulkanKernelDescriptorUsage::OutputSignal => VulkanResidentKernelBufferAccess::Write,
            VulkanKernelDescriptorUsage::StateWrite => VulkanResidentKernelBufferAccess::Write,
            VulkanKernelDescriptorUsage::StateView => VulkanResidentKernelBufferAccess::ReadWrite,
        };
        match self.buffer_for_descriptor(dispatch, descriptor) {
            Err(error) => Err(error),
            Ok((buffer, byte_len)) => Ok(
                VulkanResidentKernelBufferBinding::bind(
                    descriptor.binding as u32,
                    buffer,
                    byte_len,
                    access,
                ),
            ),
        }
    }

    fn buffer_for_descriptor(
        &self,
        dispatch: &VulkanMountedPlacedBoundDispatch,
        descriptor: &VulkanMountedPlacedBoundDescriptor,
    ) -> (r: Result<
        (&VulkanResidentBuffer, usize),
        VulkanMountedPlacedResidentKernelDispatchError,
    >)
        ensures
            sequence::outcome(r) == descriptor_buffer(self@, dispatch@, descriptor@),
    {
        match &descriptor.target {
            VulkanMountedPlacedBoundDescriptorTarget::Resident { target } => {
                self.resident_kernel_buffer_for_resident_target(dispatch, descriptor, target)
            },
            VulkanMountedPlacedBoundDescriptorTarget::ModelInput { signal_id } => {
                match self.boundary_io.input_buffer(signal_id.as_str()) {
                    None => Err(
                        VulkanMountedPlacedResidentKernelDispatchError::MissingModelBoundaryBuffer {
                            dispatch_index: dispatch.dispatch_index,
                            binding: descriptor.binding,
                            direction: VulkanModelBoundaryDirection::Input,
                            signal_id: signal_id.clone(),
                        },
                    ),
                    Some(allocation) => Ok((&allocation.buffer, allocation.byte_capacity)),
                }
            },
            VulkanMountedPlacedBoundDescriptorTarget::ModelOutput { signal_id } => {
                match self.boundary_io.output_buffer(signal_id.as_str()) {
                    None => Err(
                        VulkanMountedPlacedResidentKernelDispatchError::MissingModelBoundaryBuffer {
                            dispatch_index: dispatch.dispatch_index,
                            binding: descriptor.binding,
                            direction: VulkanModelBoundaryDirection::Output,
                            signal_id: signal_id.clone(),
                        },
                    ),
                    Some(allocation) => Ok((&allocation.buffer, allocation.byte_capacity)),
                }
            },
            VulkanMountedPlacedBoundDescriptorTarget::LocalCableInputBuffer { cable } => {
                assert(self@.cable_io.local_buffers.len() == self.cable_io.local_buffers@.len());
                if cable.buffer_index < self.cable_io.local_buffers.len() {
                    Ok(
                        (
                            &self.cable_io.local_buffers[cable.buffer_index].buffer,
                            cable.byte_capacity,
                        ),
                    )
                } else {
                    Err(missing_buffer(dispatch, descriptor, "local_cable", cable.buffer_index))
                }
            },
            VulkanMountedPlacedBoundDescriptorTarget::LocalCableOutputBuffer { cable } => {
                assert(self@.cable_io.local_buffers.len() == self.cable_io.local_buffers@.len());
                if cable.buffer_index < self.cable_io.local_buffers.len() {
                    Ok(
                        (
                            &self.cable_io.local_buffers[cable.buffer_index].buffer,
                            cable.byte_capacity,
                        ),
                    )
                } else {
                    Err(missing_buffer(dispatch, descriptor, "local_cable", cable.buffer_index))
                }
            },
            VulkanMountedPlacedBoundDescriptorTarget::IncomingCableBuffer { endpoint } => {
                assert(self@.cable_io.incoming_buffers.len()
                    == self.cable_io.incoming_buffers@.len());
                if endpoint.buffer_index < self.cable_io.incoming_buffers.len() {
                    Ok(
                        (
                            &self.cable_io.incoming_buffers[endpoint.buffer_index].buffer,
                            endpoint.byte_capacity,
                        ),
                    )
                } else {
                    Err(
                        missing_buffer(
                            dispatch,
                            descriptor,
                            "incoming_cable",
                            endpoint.buffer_index,
                        ),
                    )
                }
            },
            VulkanMountedPlacedBoundDescriptorTarget::OutgoingCableBuffer { endpoint } => {
                assert(self@.cable_io.outgoing_buffers.len()
                    == self.cable_io.outgoing_buffers@.len());
                if endpoint.buffer_index < self.cable_io.outgoing_buffers.len() {
                    Ok(
                        (
                            &self.cable_io.outgoing_buffers[endpoint.buffer_index].buffer,
                            endpoint.byte_capacity,
                        ),
                    )
                } else {
                    Err(
                        missing_buffer(
                            dispatch,
                            descriptor,
                            "outgoing_cable",
                            endpoint.buffer_index,
                        ),
                    )
                }
            },
        }
    }

    fn resident_kernel_buffer_for_resident_target(
        &self,
        dispatch: &VulkanMountedPlacedBoundDispatch,
        descriptor: &VulkanMountedPlacedBoundDescriptor,
        target: &VulkanBoundDescriptorTarget,
    ) -> (r: Result<
        (&VulkanResidentBuffer, usize),
        VulkanMountedPlacedResidentKernelDispatchError,
    >)
        ensures
            sequence::outcome(r) == resident_buffer(self@, dispatch@, descriptor@, target@),
    {
        match target {
            VulkanBoundDescriptorTarget::PermanentParameter { param_id, tensor, byte_count } => {
                match self.parameter_buffers.parameter_buffer(tensor.as_str()) {
                    None => Err(
                        VulkanMountedPlacedResidentKernelDispatchError::MissingPermanentParameterBuffer {
                            dispatch_index: dispatch.dispatch_index,
                            binding: descriptor.binding,
                            param_id: param_id.clone(),
                            tensor: tensor.clone(),
                            byte_count: *byte_count,
                        },
                    ),
                    Some(allocation) => Ok((&allocation.buffer, allocation.byte_capacity)),
                }
            },
            VulkanBoundDescriptorTarget::BoundaryInput { signal_id } => Err(
                VulkanMountedPlacedResidentKernelDispatchError::ModelBoundaryBufferUnavailable {
                    dispatch_index: dispatch.dispatch_index,
                    binding: descriptor.binding,
                    signal_id: signal_id.clone(),
                },
            ),
            VulkanBoundDescriptorTarget::BoundaryOutput { signal_id } => Err(
                VulkanMountedPlacedResidentKernelDispatchError::ModelBoundaryBufferUnavailable {
                    dispatch_index: dispatch.dispatch_index,
                    binding: descriptor.binding,
                    signal_id: signal_id.clone(),
                },
            ),
            VulkanBoundDescriptorTarget::ActivationSlot { buffer_index, byte_capacity, .. } => {
                assert(self@.buffers.activation_slot_buffers.len()
                    == self.buffers.activation_slot_buffers@.len());
                if *buffer_index < self.buffers.activation_slot_buffers.len() {
                    Ok(
                        (
                            &self.buffers.activation_slot_buffers[*buffer_index].buffer,
                            *byte_capacity,
                        ),
                    )
                } else {
                    Err(missing_buffer(dispatch, descriptor, "activation_slot", *buffer_index))
                }
            },
            VulkanBoundDescriptorTarget::StreamStateBuffer { buffer_index, byte_capacity, .. } => {
                assert(self@.buffers.state_buffers.len() == self.buffers.state_buffers@.len());
                if *buffer_index < self.buffers.state_buffers.len() {
                    Ok((&self.buffers.state_buffers[*buffer_index].buffer, *byte_capacity))
                } else {
                    Err(missing_buffer(dispatch, descriptor, "stream_state", *buffer_index))
                }
            },
            VulkanBoundDescriptorTarget::StreamStateView { buffer_index, byte_capacity, .. } => {
                assert(self@.buffers.state_buffers.len() == self.buffers.state_buffers@.len());
                if *buffer_index < self.buffers.state_buffers.len() {
                    Ok((&self.buffers.state_buffers[*buffer_index].buffer, *byte_capacity))
                } else {
                    Err(missing_buffer(dispatch, descriptor, "stream_state", *buffer_index))
                }
            },
        }
    }
}

/// Whether a launch is that of a node.
pub open spec fn readiness_named(component_id: Seq<char>, node_id: Seq<char>) -> spec_fn(
    VulkanMountedPlacedResidentKernelDispatchReadinessView,
) -> bool {
    |dispatch: VulkanMountedPlacedResidentKernelDispatchReadinessView|
        dispatch.component_id == component_id && dispatch.node_id == node_id
}

fn readiness_of(
    mounted: &VulkanMountedPlacedStreamCircuit,
    dispatch: &VulkanMountedPlacedBoundDispatch,
    loaded_manifest: &VulkanLoadedReusableKernelArtifactManifest,
) -> (r: VulkanMountedPlacedResidentKernelDispatchReadiness)
    ensures
        r@ == readiness_step(mounted@, loaded_manifest@)(dispatch@),
{
    VulkanMountedPlacedResidentKernelDispatchReadiness {
        dispatch_index: dispatch.dispatch_index,
        kernel_id: dispatch.kernel_id.clone(),
        component_id: dispatch.component_id.clone(),
        node_id: dispatch.node_id.clone(),
        op: dispatch.op.clone(),
        reusable_family_id: dispatch.reusable_family_id.clone(),
        status: mounted.resident_kernel_dispatch_readiness_for_bound_dispatch(
            dispatch,
            loaded_manifest,
        ),
    }
}

impl VulkanMountedPlacedResidentKernelDispatchReadinessPlan {
    /// Tells which launches can be made.
    #[verifier::loop_isolation(false)]
    pub fn from_mounted_bound_plan(
        mounted: &VulkanMountedPlacedStreamCircuit,
        mounted_bound_plan: &VulkanMountedPlacedBoundDispatchPlan,
        loaded_manifest: &VulkanLoadedReusableKernelArtifactManifest,
    ) -> (r: Self)
        requires
            sequence::total(
                mounted_bound_plan@.dispatches.map_values(
                    readiness_step(mounted@, loaded_manifest@),
                ),
                ready_descriptors(),
            ) <= usize::MAX,
        ensures
            r@ == readiness_plan(mounted@, mounted_bound_plan@, loaded_manifest@),
    {
        let ghost all_dispatches = mounted_bound_plan.dispatches.deep_view();
        let ghost step_dispatches = readiness_step(mounted@, loaded_manifest@);
        let mut dispatches: Vec<VulkanMountedPlacedResidentKernelDispatchReadiness> = Vec::new();
        let mut i: usize = 0;
        while i < mounted_bound_plan.dispatches.len()
            invariant
                i <= mounted_bound_plan.dispatches.len(),
                dispatches@.len() == i,
                forall|j: int| 0 <= j < i ==> (#[trigger] dispatches.deep_view()[j]) == step_dispatches(all_dispatches[j]),
            decreases mounted_bound_plan.dispatches.len() - i,
        {
            let item = &mounted_bound_plan.dispatches[i];
            assert(all_dispatches[i as int] == item.deep_view());
            let added = readiness_of(mounted, item, loaded_manifest);
            let ghost before = dispatches.deep_view();
            let ghost value = added.deep_view();
            dispatches.push(added);
            assert(dispatches.deep_view() =~= before.push(value));
            i += 1;
        }
        assert(dispatches.deep_view() =~= all_dispatches.map_values(step_dispatches));
        let ghost all = dispatches.deep_view();
        let mut instantiable_count: usize = 0;
        let mut blocked_count: usize = 0;
        let mut missing_loaded_artifact_count: usize = 0;
        let mut descriptor_binding_blocked_count: usize = 0;
        let mut push_constant_blocked_count: usize = 0;
        let mut instantiable_descriptor_count: usize = 0;
        let mut j: usize = 0;
        assert(all.take(0) =~= Seq::empty());
        while j < dispatches.len()
            invariant
                j <= dispatches.len(),
                instantiable_count == sequence::count(all.take(j as int), is_instantiable()),
                blocked_count == sequence::count(all.take(j as int), is_blocked()),
                missing_loaded_artifact_count == sequence::count(
                    all.take(j as int),
                    lacks_loaded_artifact(),
                ),
                descriptor_binding_blocked_count == sequence::count(
                    all.take(j as int),
                    has_bad_descriptors(),
                ),
                push_constant_blocked_count == sequence::count(
                    all.take(j as int),
                    has_bad_push_constants(),
                ),
                instantiable_count + blocked_count == j,
                missing_loaded_artifact_count + descriptor_binding_blocked_count
                    + push_constant_blocked_count == blocked_count,
                instantiable_descriptor_count == sequence::total(
                    all.take(j as int),
                    ready_descriptors(),
                ),
            decreases dispatches.len() - j,
        {
            let dispatch = &dispatches[j];
            proof {
                assert(all[j as int] == dispatch@);
                sequence::lemma_count_step(all, is_instantiable(), j as int);
                sequence::lemma_count_step(all, is_blocked(), j as int);
                sequence::lemma_count_step(all, lacks_loaded_artifact(), j as int);
                sequence::lemma_count_step(all, has_bad_descriptors(), j as int);
                sequence::lemma_count_step(all, has_bad_push_constants(), j as int);
                sequence::lemma_total_step(all, ready_descriptors(), j as int);
                sequence::lemma_total_prefix(all, ready_descriptors(), j + 1);
            }
            match &dispatch.status {
                VulkanMountedPlacedResidentKernelDispatchStatus::Instantiable {
                    descriptor_count,
                    ..
                } => {
                    instantiable_count += 1;
                    instantiable_descriptor_count = instantiable_descriptor_count
                        + *descriptor_count;
                },
                VulkanMountedPlacedResidentKernelDispatchStatus::Blocked { error } => {
                    blocked_count += 1;
                    match error {
                        VulkanMountedPlacedResidentKernelDispatchError::MissingLoadedArtifact {
                            ..
                        } => {
                            missing_loaded_artifact_count += 1;
                        },
                        VulkanMountedPlacedResidentKernelDispatchError::UnsupportedPushConstantScalar {
                            ..
                        } => {
                            push_constant_blocked_count += 1;
                        },
                        VulkanMountedPlacedResidentKernelDispatchError::UnsupportedPushConstantBinding {
                            ..
                        } => {
                            push_constant_blocked_count += 1;
                        },
                        VulkanMountedPlacedResidentKernelDispatchError::PushConstantByteCountOverflow => {
                            push_constant_blocked_count += 1;
                        },
                        _ => {
                            descriptor_binding_blocked_count += 1;
                        },
                    }
                },
            }
            j += 1;
        }
        assert(all.take(all.len() as int) =~= all);
        let dispatch_count: usize = dispatches.len();
        VulkanMountedPlacedResidentKernelDispatchReadinessPlan {
            backend_id: mounted_bound_plan.backend_id.clone(),
            device_id: mounted_bound_plan.device_id.clone(),
            dispatches,
            dispatch_count,
            instantiable_count,
            blocked_count,
            missing_loaded_artifact_count,
            descriptor_binding_blocked_count,
            push_constant_blocked_count,
            instantiable_descriptor_count,
        }
    }

    /// The first launch of a node.
    #[verifier::loop_isolation(false)]
    pub fn dispatch(&self, component_id: &str, node_id: &str) -> (r: Option<&VulkanMountedPlacedResidentKernelDispatchReadiness>)
        ensures
            r.deep_view() == sequence::find_first(
                self@.dispatches,
                readiness_named(component_id@, node_id@),
            ),
    {
        let ghost all = self.dispatches.deep_view();
        let ghost p = readiness_named(component_id@, node_id@);
        let mut i: usize = 0;
        while i < self.dispatches.len()
            invariant
                i <= self.dispatches.len(),
                forall|j: int| 0 <= j < i ==> !p(#[trigger] all[j]),
            decreases self.dispatches.len() - i,
        {
            let item = &self.dispatches[i];
            assert(all[i as int] == item.deep_view());
            if text::same(item.component_id.as_str(), component_id) && text::same(item.node_id.as_str(), node_id) {
                proof {
                    sequence::lemma_find_first_at(all, p, i as int);
                }
                return Some(item);
            }
            i += 1;
        }
        proof {
            sequence::lemma_find_first_none(all, p);
        }
        None
    }
}

/// A launch can be made exactly where its status says so, with the same launch shape.
pub proof fn ready_launches_can_be_made(
    mounted: VulkanMountedPlacedStreamCircuitView,
    device_id: Seq<char>,
    dispatch: VulkanMountedPlacedBoundDispatchView,
    loaded: VulkanLoadedReusableKernelArtifactManifestView,
)
    ensures
        match launch_status(mounted, dispatch, loaded) {
            VulkanMountedPlacedResidentKernelDispatchStatusView::Blocked { error } => {
                resident_launch(mounted, device_id, dispatch, loaded) == Err::<
                    VulkanResidentKernelDispatchView,
                    VulkanMountedPlacedResidentKernelDispatchErrorView,
                >(error)
            },
            VulkanMountedPlacedResidentKernelDispatchStatusView::Instantiable {
                workgroup_count_x,
                local_size_x,
                push_constant_byte_count,
                ..
            } => {
                &&& resident_launch(mounted, device_id, dispatch, loaded) is Ok
                &&& resident_launch(mounted, device_id, dispatch, loaded)->Ok_0.workgroup_count_x
                    == workgroup_count_x
                &&& resident_launch(mounted, device_id, dispatch, loaded)->Ok_0.local_size_x
                    == local_size_x
                &&& resident_launch(
                    mounted,
                    device_id,
                    dispatch,
                    loaded,
                )->Ok_0.push_constant_byte_count == push_constant_byte_count
            },
        },
{
    reveal(launch_status);
}

/// Whether a buffer is the one that was mounted for a target, with the number of its bytes that the
/// target takes: the buffer of a parameter's tensor, of a slot or a state by its number, of a signal
/// at the model's boundary on its side, or of a cable by its number and on its side.
pub open spec fn mounted_for(
    mounted: VulkanMountedPlacedStreamCircuitView,
    target: VulkanMountedPlacedBoundDescriptorTargetView,
    buffer: VulkanResidentBufferView,
    bytes: usize,
) -> bool {
    match target {
        VulkanMountedPlacedBoundDescriptorTargetView::Resident { target } => match target {
            VulkanBoundDescriptorTargetView::PermanentParameter { tensor, .. } => exists|i: int|
                0 <= i < mounted.parameter_buffers.buffers.len() && {
                    let allocation = #[trigger] mounted.parameter_buffers.buffers[i];
                    &&& allocation.parameter.tensor == tensor
                    &&& allocation.buffer == buffer
                    &&& allocation.byte_capacity == bytes
                    &&& forall|j: int|
                        0 <= j < i ==> (
                        #[trigger] mounted.parameter_buffers.buffers[j]).parameter.tensor != tensor
                },
            VulkanBoundDescriptorTargetView::BoundaryInput { .. } => false,
            VulkanBoundDescriptorTargetView::BoundaryOutput { .. } => false,
            VulkanBoundDescriptorTargetView::ActivationSlot { buffer_index, byte_capacity, .. } => {
                &&& buffer_index < mounted.buffers.activation_slot_buffers.len()
                &&& buffer
                    == mounted.buffers.activation_slot_buffers[buffer_index as int].buffer
                &&& bytes == byte_capacity
            },
            VulkanBoundDescriptorTargetView::StreamStateBuffer {
                buffer_index,
                byte_capacity,
                ..
            } => {
                &&& buffer_index < mounted.buffers.state_buffers.len()
                &&& buffer == mounted.buffers.state_buffers[buffer_index as int].buffer
                &&& bytes == byte_capacity
            },
            VulkanBoundDescriptorTargetView::StreamStateView { buffer_index, byte_capacity, .. } => {
                &&& buffer_index < mounted.buffers.state_buffers.len()
                &&& buffer == mounted.buffers.state_buffers[buffer_index as int].buffer
                &&& bytes == byte_capacity
            },
        },
        VulkanMountedPlacedBoundDescriptorTargetView::ModelInput { signal_id } => exists|i: int|
            0 <= i < mounted.boundary_io.inputs.len() && {
                let allocation = #[trigger] mounted.boundary_io.inputs[i];
                &&& allocation.signal_id == signal_id
                &&& allocation.buffer == buffer
                &&& allocation.byte_capacity == bytes
            },
        VulkanMountedPlacedBoundDescriptorTargetView::ModelOutput { signal_id } => exists|i: int|
            0 <= i < mounted.boundary_io.outputs.len() && {
                let allocation = #[trigger] mounted.boundary_io.outputs[i];
                &&& allocation.signal_id == signal_id
                &&& allocation.buffer == buffer
                &&& allocation.byte_capacity == bytes
            },
        VulkanMountedPlacedBoundDescriptorTargetView::LocalCableInputBuffer { cable } => {
            &&& cable.buffer_index < mounted.cable_io.local_buffers.len()
            &&& buffer == mounted.cable_io.local_buffers[cable.buffer_index as int].buffer
            &&& bytes == cable.byte_capacity
        },
        VulkanMountedPlacedBoundDescriptorTargetView::LocalCableOutputBuffer { cable } => {
            &&& cable.buffer_index < mounted.cable_io.local_buffers.len()
            &&& buffer == mounted.cable_io.local_buffers[cable.buffer_index as int].buffer
            &&& bytes == cable.byte_capacity
        },
        VulkanMountedPlacedBoundDescriptorTargetView::IncomingCableBuffer { endpoint } => {
            &&& endpoint.buffer_index < mounted.cable_io.incoming_buffers.len()
            &&& buffer == mounted.cable_io.incoming_buffers[endpoint.buffer_index as int].buffer
            &&& bytes == endpoint.byte_capacity
        },
        VulkanMountedPlacedBoundDescriptorTargetView::OutgoingCableBuffer { endpoint } => {
            &&& endpoint.buffer_index < mounted.cable_io.outgoing_buffers.len()
            &&& buffer == mounted.cable_io.outgoing_buffers[endpoint.buffer_index as int].buffer
            &&& bytes == endpoint.byte_capacity
        },
    }
}

/// A launch is bound descriptor by descriptor, each under its own number and to the buffer that was
/// mounted for its target, from the buffer's start on. What a kernel reads is bound for reading, what
/// it writes for writing, and a view of a state for both. Where the launch uses the stream tick, the
/// control buffer stands behind its descriptors, for reading; else nothing does.
pub proof fn launches_are_bound_to_their_own_buffers(
    mounted: VulkanMountedPlacedStreamCircuitView,
    dispatch: VulkanMountedPlacedBoundDispatchView,
    i: int,
)
    requires
        buffer_bindings(mounted, dispatch) is Ok,
    ensures
        ({
            let bindings = buffer_bindings(mounted, dispatch)->Ok_0;
            let count = dispatch.descriptors.len();
            &&& bindings.len() == (if dispatch.uses_stream_tick {
                count + 1
            } else {
                count
            })
            &&& dispatch.uses_stream_tick ==> device::hands(
                bindings[count as int],
                count as int,
                mounted.stream_control_buffer,
                0,
                VULKAN_STREAM_CONTROL_BYTE_CAPACITY as int,
                VulkanResidentKernelBufferAccess::Read,
            )
            &&& 0 <= i < count ==> {
                let descriptor = dispatch.descriptors[i];
                &&& bindings[i].binding == descriptor.binding
                &&& bindings[i].byte_offset == 0
                &&& mounted_for(
                    mounted,
                    descriptor.target,
                    bindings[i].buffer,
                    bindings[i].byte_len,
                )
                &&& descriptor.usage is InputSignal ==> bindings[i].access
                    == VulkanResidentKernelBufferAccess::Read
                &&& descriptor.usage is Parameter ==> bindings[i].access
                    == VulkanResidentKernelBufferAccess::Read
                &&& descriptor.usage is StateRead ==> bindings[i].access
                    == VulkanResidentKernelBufferAccess::Read
                &&& descriptor.usage is OutputSignal ==> bindings[i].access
                    == VulkanResidentKernelBufferAccess::Write
                &&& descriptor.usage is StateWrite ==> bindings[i].access
                    == VulkanResidentKernelBufferAccess::Write
                &&& descriptor.usage is StateView ==> bindings[i].access
                    == VulkanResidentKernelBufferAccess::ReadWrite
            }
        }),
{
    reveal(buffer_bindings);
    let step = buffer_step(mounted, dispatch);
    sequence::lemma_try_map_ok(dispatch.descriptors, step);
    if 0 <= i < dispatch.descriptors.len() {
        let descriptor = dispatch.descriptors[i];
        assert(step(dispatch.descriptors[i]) is Ok);
        match descriptor.target {
            VulkanMountedPlacedBoundDescriptorTargetView::Resident { target } => match target {
                VulkanBoundDescriptorTargetView::PermanentParameter { tensor, .. } => {
                    let k = sequence::lemma_find_first_some(
                        mounted.parameter_buffers.buffers,
                        resident_plan::tensor_matcher(tensor),
                    );
                },
                _ => {},
            },
            VulkanMountedPlacedBoundDescriptorTargetView::ModelInput { signal_id } => {
                let k = sequence::lemma_find_first_some(
                    mounted.boundary_io.inputs,
                    resident_plan::boundary_matcher(signal_id),
                );
            },
            VulkanMountedPlacedBoundDescriptorTargetView::ModelOutput { signal_id } => {
                let k = sequence::lemma_find_first_some(
                    mounted.boundary_io.outputs,
                    resident_plan::boundary_matcher(signal_id),
                );
            },
            _ => {},
        }
    }
}

/// Descriptors of a launch whose targets are slots, states, cables or endpoints with different
/// numbers are bound to different buffers, wherever the mounted buffers of that sort are told apart.
pub proof fn different_targets_have_different_buffers(
    mounted: VulkanMountedPlacedStreamCircuitView,
    dispatch: VulkanMountedPlacedBoundDispatchView,
    i: int,
    j: int,
)
    requires
        buffer_bindings(mounted, dispatch) is Ok,
        0 <= i < dispatch.descriptors.len(),
        0 <= j < dispatch.descriptors.len(),
        forall|a: int, b: int|
            0 <= a < b < mounted.buffers.activation_slot_buffers.len() ==> (
            #[trigger] mounted.buffers.activation_slot_buffers[a]).buffer != (
            #[trigger] mounted.buffers.activation_slot_buffers[b]).buffer,
        forall|a: int, b: int|
            0 <= a < b < mounted.buffers.state_buffers.len() ==> (
            #[trigger] mounted.buffers.state_buffers[a]).buffer != (
            #[trigger] mounted.buffers.state_buffers[b]).buffer,
        forall|a: int, b: int|
            0 <= a < b < mounted.cable_io.local_buffers.len() ==> (
            #[trigger] mounted.cable_io.local_buffers[a]).buffer != (
            #[trigger] mounted.cable_io.local_buffers[b]).buffer,
    ensures
        ({
            let bindings = buffer_bindings(mounted, dispatch)->Ok_0;
            let one = dispatch.descriptors[i].target;
            let other = dispatch.descriptors[j].target;
            &&& one matches VulkanMountedPlacedBoundDescriptorTargetView::Resident {
                target: VulkanBoundDescriptorTargetView::ActivationSlot { buffer_index: a, .. },
            } ==> other matches VulkanMountedPlacedBoundDescriptorTargetView::Resident {
                target: VulkanBoundDescriptorTargetView::ActivationSlot { buffer_index: b, .. },
            } ==> (a == b <==> bindings[i].buffer == bindings[j].buffer)
            &&& one matches VulkanMountedPlacedBoundDescriptorTargetView::Resident {
                target: VulkanBoundDescriptorTargetView::StreamStateBuffer { buffer_index: a, .. },
            } ==> other matches VulkanMountedPlacedBoundDescriptorTargetView::Resident {
                target: VulkanBoundDescriptorTargetView::StreamStateBuffer { buffer_index: b, .. },
            } ==> (a == b <==> bindings[i].buffer == bindings[j].buffer)
            &&& one matches VulkanMountedPlacedBoundDescriptorTargetView::Resident {
                target: VulkanBoundDescriptorTargetView::StreamStateView { buffer_index: a, .. },
            } ==> other matches VulkanMountedPlacedBoundDescriptorTargetView::Resident {
                target: VulkanBoundDescriptorTargetView::StreamStateView { buffer_index: b, .. },
            } ==> (a == b <==> bindings[i].buffer == bindings[j].buffer)
            &&& one matches VulkanMountedPlacedBoundDescriptorTargetView::LocalCableInputBuffer {
                cable: a,
            } ==> other
                matches VulkanMountedPlacedBoundDescriptorTargetView::LocalCableOutputBuffer {
                cable: b,
            } ==> (a.buffer_index == b.buffer_index <==> bindings[i].buffer == bindings[j].buffer)
        }),
{
    launches_are_bound_to_their_own_buffers(mounted, dispatch, i);
    launches_are_bound_to_their_own_buffers(mounted, dispatch, j);
}

/// A mounted launch reads and writes the slots and states that its descriptors name: the buffer that
/// is bound for a slot or a state is the one that was allocated for that slot or state of that
/// component, whole.
pub proof fn named_slots_and_states_are_bound(
    mounted: VulkanMountedPlacedStreamCircuitView,
    manifest: VulkanReusableKernelArtifactManifestView,
    layouts: Seq<VulkanTransientStateBufferLayoutView>,
    d: int,
    k: int,
)
    requires
        mounted_launches(mounted, manifest, layouts) is Ok,
        0 <= d < mounted_launches(mounted, manifest, layouts)->Ok_0.dispatches.len(),
        buffer_bindings(
            mounted,
            mounted_launches(mounted, manifest, layouts)->Ok_0.dispatches[d],
        ) is Ok,
        0 <= k < mounted_launches(
            mounted,
            manifest,
            layouts,
        )->Ok_0.dispatches[d].descriptors.len(),
        mounted.buffers.activation_slot_buffers.len() <= usize::MAX,
        mounted.buffers.state_buffers.len() <= usize::MAX,
        mounted.cable_io.local_buffers.len() <= usize::MAX,
        mounted.cable_io.incoming_buffers.len() <= usize::MAX,
        mounted.cable_io.outgoing_buffers.len() <= usize::MAX,
    ensures
        ({
            let launch = mounted_launches(mounted, manifest, layouts)->Ok_0.dispatches[d];
            let prepared = mounted_prepared(mounted, manifest, layouts)->Ok_0.dispatches[d];
            let bound = buffer_bindings(mounted, launch)->Ok_0[k];
            &&& launch.uses_stream_tick == prepared.uses_stream_tick
            &&& k < prepared.descriptors.len()
            &&& bound.binding == prepared.descriptors[k].binding
            &&& match prepared.descriptors[k].resource {
                VulkanDescriptorResourceAddressView::ActivationSlot {
                    component_id,
                    slot,
                    byte_capacity,
                    ..
                } => exists|a: int|
                    0 <= a < mounted.buffers.activation_slot_buffers.len() && {
                        let allocation = #[trigger] mounted.buffers.activation_slot_buffers[a];
                        &&& allocation.component_id == component_id
                        &&& allocation.slot == slot
                        &&& allocation.byte_capacity == byte_capacity
                        &&& bound.buffer == allocation.buffer
                        &&& bound.byte_len == allocation.byte_capacity
                    },
                VulkanDescriptorResourceAddressView::StateBuffer {
                    component_id,
                    state_id,
                    byte_capacity,
                    ..
                } => exists|a: int|
                    0 <= a < mounted.buffers.state_buffers.len() && {
                        let allocation = #[trigger] mounted.buffers.state_buffers[a];
                        &&& allocation.component_id == component_id
                        &&& allocation.state_id == state_id
                        &&& allocation.byte_capacity == byte_capacity
                        &&& bound.buffer == allocation.buffer
                        &&& bound.byte_len == allocation.byte_capacity
                    },
                VulkanDescriptorResourceAddressView::StateView {
                    component_id,
                    state_id,
                    byte_capacity,
                    ..
                } => exists|a: int|
                    0 <= a < mounted.buffers.state_buffers.len() && {
                        let allocation = #[trigger] mounted.buffers.state_buffers[a];
                        &&& allocation.component_id == component_id
                        &&& allocation.state_id == state_id
                        &&& allocation.byte_capacity == byte_capacity
                        &&& bound.buffer == allocation.buffer
                        &&& bound.byte_len == allocation.byte_capacity
                    },
                VulkanDescriptorResourceAddressView::PermanentParameter { tensor, .. } => exists|
                    a: int,
                |
                    0 <= a < mounted.parameter_buffers.buffers.len() && {
                        let allocation = #[trigger] mounted.parameter_buffers.buffers[a];
                        &&& allocation.parameter.tensor == tensor
                        &&& bound.buffer == allocation.buffer
                        &&& bound.byte_len == allocation.byte_capacity
                    },
                _ => true,
            }
        }),
{
    let prepared = mounted_prepared(mounted, manifest, layouts)->Ok_0;
    let bound = mounted_bound(mounted, manifest, layouts)->Ok_0;
    let resident = mounted.placed_plan.placed_resident_plan;
    let placed = mounted_placed(mounted, manifest, layouts)->Ok_0;
    let launch = mounted_launches(mounted, manifest, layouts)->Ok_0.dispatches[d];
    assert(prepared.dispatches.len() == bound.dispatches.len()) by {
        reveal(bound_dispatch::bound_plan);
        sequence::lemma_try_map_ok(
            prepared.dispatches,
            bound_dispatch::bind_dispatch(mounted.buffers),
        );
    }
    assert(bound.dispatches.len() == placed.dispatches.len()) by {
        reveal(bound_dispatch::placed_plan);
    }
    assert(placed.dispatches.len() == mounted_launches(
        mounted,
        manifest,
        layouts,
    )->Ok_0.dispatches.len()) by {
        reveal(mounted_dispatch::mounted_plan);
        sequence::lemma_try_map_ok(
            placed.dispatches,
            mounted_dispatch::mount_dispatch(mounted.cable_io),
        );
    }
    bound_dispatch::binding_keeps_the_launches(prepared, mounted.buffers, d);
    bound_dispatch::placing_follows_the_edges(bound, resident, d, k);
    mounted_dispatch::mounting_uses_the_buffers_of_the_edges(placed, mounted.cable_io, d, k);
    bound_dispatch::descriptors_are_bound_as_named(prepared, mounted.buffers, d, k);
    launches_are_bound_to_their_own_buffers(mounted, launch, k);
    let before = prepared.dispatches[d].descriptors[k];
    let after = bound.dispatches[d].descriptors[k];
    assert(after.binding == before.binding);
}

/// A launch is made from the first artifact that was loaded for its family: it has the artifact's
/// words and shape, on the given device, and its own buffers.
pub proof fn launches_are_made_from_their_artifact(
    mounted: VulkanMountedPlacedStreamCircuitView,
    device_id: Seq<char>,
    dispatch: VulkanMountedPlacedBoundDispatchView,
    loaded: VulkanLoadedReusableKernelArtifactManifestView,
)
    requires
        resident_launch(mounted, device_id, dispatch, loaded) is Ok,
    ensures
        ({
            let launch = resident_launch(mounted, device_id, dispatch, loaded)->Ok_0;
            &&& launch.device_id == device_id
            &&& buffer_bindings(mounted, dispatch) is Ok
            &&& launch.bindings == buffer_bindings(mounted, dispatch)->Ok_0
            &&& launch.workgroup_count_y == 1
            &&& launch.base_workgroup_z == 0
            &&& launch.label is Some
            &&& exists|a: int|
                0 <= a < loaded.artifacts.len() && {
                    let artifact = #[trigger] loaded.artifacts[a];
                    &&& artifact.artifact.family_id == dispatch.reusable_family_id
                    &&& launch.spirv_words == artifact.words
                    &&& launch.workgroup_count_x == artifact.artifact.workgroup_count_x
                    &&& launch.local_size_x == artifact.artifact.local_size_x
                    &&& forall|b: int|
                        0 <= b < a ==> (#[trigger] loaded.artifacts[b]).artifact.family_id
                            != dispatch.reusable_family_id
                }
        }),
{
    let a = sequence::lemma_find_first_some(
        loaded.artifacts,
        reusable_kernels::serves_family(dispatch.reusable_family_id),
    );
    assert(loaded.artifacts[a].artifact.family_id == dispatch.reusable_family_id);
}

/// The readiness of a device lists its launches in order under their own names, and counts each of
/// them once: as one that can be made or as one that is blocked, and a blocked one by its reason.
pub proof fn readiness_counts_every_launch_once(
    mounted: VulkanMountedPlacedStreamCircuitView,
    plan: VulkanMountedPlacedBoundDispatchPlanView,
    loaded: VulkanLoadedReusableKernelArtifactManifestView,
    i: int,
)
    requires
        plan.dispatches.len() <= usize::MAX,
    ensures
        ({
            let ready = readiness_plan(mounted, plan, loaded);
            &&& ready.backend_id == plan.backend_id
            &&& ready.device_id == plan.device_id
            &&& ready.dispatches.len() == plan.dispatches.len()
            &&& ready.dispatch_count == plan.dispatches.len()
            &&& ready.instantiable_count + ready.blocked_count == ready.dispatch_count
            &&& ready.missing_loaded_artifact_count + ready.descriptor_binding_blocked_count
                + ready.push_constant_blocked_count == ready.blocked_count
            &&& 0 <= i < plan.dispatches.len() ==> {
                &&& ready.dispatches[i].dispatch_index == plan.dispatches[i].dispatch_index
                &&& ready.dispatches[i].kernel_id == plan.dispatches[i].kernel_id
                &&& ready.dispatches[i].component_id == plan.dispatches[i].component_id
                &&& ready.dispatches[i].node_id == plan.dispatches[i].node_id
                &&& ready.dispatches[i].op == plan.dispatches[i].op
                &&& ready.dispatches[i].reusable_family_id
                    == plan.dispatches[i].reusable_family_id
                &&& ready.dispatches[i].status is Instantiable <==> resident_launch(
                    mounted,
                    plan.device_id,
                    plan.dispatches[i],
                    loaded,
                ) is Ok
            }
        }),
{
    let all = readiness_plan(mounted, plan, loaded).dispatches;
    lemma_readiness_split(all);
    if 0 <= i < plan.dispatches.len() {
        ready_launches_can_be_made(mounted, plan.device_id, plan.dispatches[i], loaded);
    }
}

proof fn lemma_readiness_split(
    all: Seq<VulkanMountedPlacedResidentKernelDispatchReadinessView>,
)
    ensures
        sequence::count(all, is_instantiable()) + sequence::count(all, is_blocked()) == all.len(),
        sequence::count(all, lacks_loaded_artifact()) + sequence::count(all, has_bad_descriptors())
            + sequence::count(all, has_bad_push_constants()) == sequence::count(
            all,
            is_blocked(),
        ),
    decreases all.len(),
{
    if all.len() > 0 {
        lemma_readiness_split(all.drop_last());
    }
}

/// A control buffer belongs to the device, is large enough and stays mapped, whether it was given or
/// is new. A given one is taken as it is.
pub proof fn control_buffers_can_be_written(
    device_id: Seq<char>,
    given: Option<VulkanResidentBufferView>,
)
    ensures
        control_buffer(device_id, given) matches Ok(buffer) ==> {
            &&& buffer.device_id == device_id
            &&& buffer.byte_capacity >= VULKAN_STREAM_CONTROL_BYTE_CAPACITY
            &&& buffer.persistently_mapped
            &&& given is Some ==> buffer == given->Some_0
        },
        given is None ==> control_buffer(device_id, given) is Ok,
        given matches Some(buffer) ==> (control_buffer(device_id, given) is Ok <==> {
            &&& buffer.device_id == device_id
            &&& buffer.byte_capacity >= VULKAN_STREAM_CONTROL_BYTE_CAPACITY
            &&& buffer.persistently_mapped
        }),
        cleared_control().len() == VULKAN_STREAM_CONTROL_BYTE_CAPACITY,
        forall|i: int| 0 <= i < cleared_control().len() ==> (#[trigger] cleared_control()[i]) == 0,
{
}

/// The readiness of a dispatch is found by its component and its node: the first that has both, and none where
/// none has.
pub proof fn readiness_is_found_by_name(
    all: Seq<VulkanMountedPlacedResidentKernelDispatchReadinessView>,
    component_id: Seq<char>,
    node_id: Seq<char>,
    j: int,
)
    ensures
        match sequence::find_first(all, readiness_named(component_id, node_id)) {
            Some(found) => exists|i: int|
                {
                    &&& 0 <= i < all.len()
                    &&& found == #[trigger] all[i]
                    &&& all[i].component_id == component_id
                    &&& all[i].node_id == node_id
                    &&& 0 <= j < i ==> !(all[j].component_id == component_id && all[j].node_id == node_id)
                },
            None => 0 <= j < all.len() ==> !(all[j].component_id == component_id && all[j].node_id == node_id),
        },
{
    let p = readiness_named(component_id, node_id);
    if 0 <= j < all.len() {
        assert(p(all[j]) <==> all[j].component_id == component_id && all[j].node_id == node_id);
    }
    if sequence::find_first(all, p) is Some {
        let i = sequence::lemma_find_first_some(all, p);
        assert(p(all[i]));
        assert(sequence::find_first(all, p)->Some_0 == all[i]);
    } else {
        sequence::lemma_find_none_all(all, p);
    }
}

} // verus!
