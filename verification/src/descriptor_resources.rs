//! The device resource behind each kernel descriptor.

use crate::circuit_binding::VulkanParameterBinding;
use crate::circuit_binding::VulkanParameterBindingView;
use crate::circuit_binding::VulkanSignalBinding;
use crate::circuit_binding::VulkanSignalBindingView;
use crate::circuit_binding::VulkanSignalResource;
use crate::circuit_binding::VulkanSignalResourceView;
use crate::circuit_binding::VulkanStateBinding;
use crate::circuit_binding::VulkanStateBindingView;
use crate::kernel_interface::VulkanKernelDescriptorBinding;
use crate::kernel_interface::VulkanKernelDescriptorBindingView;
use crate::kernel_interface::VulkanKernelDescriptorUsage;
use crate::kernel_interface::VulkanKernelDispatchCommand;
use crate::kernel_interface::VulkanKernelDispatchCommandView;
use crate::kernel_interface::VulkanKernelDispatchPlan;
use crate::kernel_interface::VulkanKernelDispatchPlanView;
use crate::resident_plan::VulkanResidentActivationBank;
use crate::resident_plan::VulkanResidentActivationBankView;
use crate::resident_plan::VulkanResidentActivationSlot;
use crate::resident_plan::VulkanResidentActivationSlotView;
use crate::resident_plan::VulkanResidentParameter;
use crate::resident_plan::VulkanResidentParameterView;
use crate::resident_plan::VulkanResidentStateBuffer;
use crate::resident_plan::VulkanResidentStateBufferView;
use crate::resident_plan::VulkanStreamCircuitResidentPlan;
use crate::resident_plan::VulkanStreamCircuitResidentPlanView;
use crate::resident_plan::VulkanTransientStateBufferLayout;
use crate::resident_plan::VulkanTransientStateBufferLayoutView;
use crate::resident_plan::VULKAN_STREAM_CIRCUIT_BACKEND_ID;
use crate::sequence;
use crate::text;
use crate::text::Message;
use vstd::prelude::*;

verus! {

/// What a descriptor of a kernel stands for.
#[derive(Debug, PartialEq, Eq)]
pub enum VulkanKernelDescriptorResource {
    Signal(VulkanSignalBinding),
    Parameter(VulkanParameterBinding),
    State { component_id: String, binding: VulkanStateBinding },
}

#[verifier::ext_equal]
pub enum VulkanKernelDescriptorResourceView {
    Signal(VulkanSignalBindingView),
    Parameter(VulkanParameterBindingView),
    State { component_id: Seq<char>, binding: VulkanStateBindingView },
}

impl DeepView for VulkanKernelDescriptorResource {
    type V = VulkanKernelDescriptorResourceView;

    open spec fn deep_view(&self) -> VulkanKernelDescriptorResourceView {
        match self {
            VulkanKernelDescriptorResource::Signal(value) => VulkanKernelDescriptorResourceView::Signal(value.deep_view()),
            VulkanKernelDescriptorResource::Parameter(value) => VulkanKernelDescriptorResourceView::Parameter(value.deep_view()),
            VulkanKernelDescriptorResource::State { component_id, binding } => VulkanKernelDescriptorResourceView::State { component_id: component_id.deep_view(), binding: binding.deep_view() },
        }
    }
}

impl View for VulkanKernelDescriptorResource {
    type V = VulkanKernelDescriptorResourceView;

    open spec fn view(&self) -> VulkanKernelDescriptorResourceView {
        self.deep_view()
    }
}

impl Clone for VulkanKernelDescriptorResource {
    fn clone(&self) -> (r: Self)
        ensures
            r@ == self@,
    {
        match self {
            VulkanKernelDescriptorResource::Signal(value) => VulkanKernelDescriptorResource::Signal(value.clone()),
            VulkanKernelDescriptorResource::Parameter(value) => VulkanKernelDescriptorResource::Parameter(value.clone()),
            VulkanKernelDescriptorResource::State { component_id, binding } => VulkanKernelDescriptorResource::State { component_id: component_id.clone(), binding: binding.clone() },
        }
    }
}

/// The address of a resource that a descriptor binds.
#[derive(Debug, PartialEq, Eq)]
pub enum VulkanDescriptorResourceAddress {
    BoundaryInput { signal_id: String },
    BoundaryOutput { signal_id: String },
    PermanentParameter { param_id: String, tensor: String, byte_count: Option<usize> },
    ActivationSlot {
        component_id: String,
        signal_id: String,
        slot: usize,
        byte_capacity: usize,
        signal_byte_capacity: usize,
    },
    StateBuffer {
        component_id: String,
        state_id: String,
        state_type: String,
        byte_capacity: usize,
        static_bytes: Option<usize>,
        bytes_per_activation: Option<usize>,
    },
    StateView {
        component_id: String,
        state_id: String,
        state_type: String,
        byte_capacity: usize,
        static_bytes: Option<usize>,
        bytes_per_activation: Option<usize>,
    },
}

#[verifier::ext_equal]
pub enum VulkanDescriptorResourceAddressView {
    BoundaryInput { signal_id: Seq<char> },
    BoundaryOutput { signal_id: Seq<char> },
    PermanentParameter { param_id: Seq<char>, tensor: Seq<char>, byte_count: Option<usize> },
    ActivationSlot { component_id: Seq<char>, signal_id: Seq<char>, slot: usize, byte_capacity: usize, signal_byte_capacity: usize },
    StateBuffer { component_id: Seq<char>, state_id: Seq<char>, state_type: Seq<char>, byte_capacity: usize, static_bytes: Option<usize>, bytes_per_activation: Option<usize> },
    StateView { component_id: Seq<char>, state_id: Seq<char>, state_type: Seq<char>, byte_capacity: usize, static_bytes: Option<usize>, bytes_per_activation: Option<usize> },
}

impl DeepView for VulkanDescriptorResourceAddress {
    type V = VulkanDescriptorResourceAddressView;

    open spec fn deep_view(&self) -> VulkanDescriptorResourceAddressView {
        match self {
            VulkanDescriptorResourceAddress::BoundaryInput { signal_id } => VulkanDescriptorResourceAddressView::BoundaryInput { signal_id: signal_id.deep_view() },
            VulkanDescriptorResourceAddress::BoundaryOutput { signal_id } => VulkanDescriptorResourceAddressView::BoundaryOutput { signal_id: signal_id.deep_view() },
            VulkanDescriptorResourceAddress::PermanentParameter { param_id, tensor, byte_count } => VulkanDescriptorResourceAddressView::PermanentParameter { param_id: param_id.deep_view(), tensor: tensor.deep_view(), byte_count: *byte_count },
            VulkanDescriptorResourceAddress::ActivationSlot { component_id, signal_id, slot, byte_capacity, signal_byte_capacity } => VulkanDescriptorResourceAddressView::ActivationSlot { component_id: component_id.deep_view(), signal_id: signal_id.deep_view(), slot: *slot, byte_capacity: *byte_capacity, signal_byte_capacity: *signal_byte_capacity },
            VulkanDescriptorResourceAddress::StateBuffer { component_id, state_id, state_type, byte_capacity, static_bytes, bytes_per_activation } => VulkanDescriptorResourceAddressView::StateBuffer { component_id: component_id.deep_view(), state_id: state_id.deep_view(), state_type: state_type.deep_view(), byte_capacity: *byte_capacity, static_bytes: *static_bytes, bytes_per_activation: *bytes_per_activation },
            VulkanDescriptorResourceAddress::StateView { component_id, state_id, state_type, byte_capacity, static_bytes, bytes_per_activation } => VulkanDescriptorResourceAddressView::StateView { component_id: component_id.deep_view(), state_id: state_id.deep_view(), state_type: state_type.deep_view(), byte_capacity: *byte_capacity, static_bytes: *static_bytes, bytes_per_activation: *bytes_per_activation },
        }
    }
}

impl View for VulkanDescriptorResourceAddress {
    type V = VulkanDescriptorResourceAddressView;

    open spec fn view(&self) -> VulkanDescriptorResourceAddressView {
        self.deep_view()
    }
}

impl Clone for VulkanDescriptorResourceAddress {
    fn clone(&self) -> (r: Self)
        ensures
            r@ == self@,
    {
        match self {
            VulkanDescriptorResourceAddress::BoundaryInput { signal_id } => VulkanDescriptorResourceAddress::BoundaryInput { signal_id: signal_id.clone() },
            VulkanDescriptorResourceAddress::BoundaryOutput { signal_id } => VulkanDescriptorResourceAddress::BoundaryOutput { signal_id: signal_id.clone() },
            VulkanDescriptorResourceAddress::PermanentParameter { param_id, tensor, byte_count } => VulkanDescriptorResourceAddress::PermanentParameter { param_id: param_id.clone(), tensor: tensor.clone(), byte_count: byte_count.clone() },
            VulkanDescriptorResourceAddress::ActivationSlot { component_id, signal_id, slot, byte_capacity, signal_byte_capacity } => VulkanDescriptorResourceAddress::ActivationSlot { component_id: component_id.clone(), signal_id: signal_id.clone(), slot: *slot, byte_capacity: *byte_capacity, signal_byte_capacity: *signal_byte_capacity },
            VulkanDescriptorResourceAddress::StateBuffer { component_id, state_id, state_type, byte_capacity, static_bytes, bytes_per_activation } => VulkanDescriptorResourceAddress::StateBuffer { component_id: component_id.clone(), state_id: state_id.clone(), state_type: state_type.clone(), byte_capacity: *byte_capacity, static_bytes: static_bytes.clone(), bytes_per_activation: bytes_per_activation.clone() },
            VulkanDescriptorResourceAddress::StateView { component_id, state_id, state_type, byte_capacity, static_bytes, bytes_per_activation } => VulkanDescriptorResourceAddress::StateView { component_id: component_id.clone(), state_id: state_id.clone(), state_type: state_type.clone(), byte_capacity: *byte_capacity, static_bytes: static_bytes.clone(), bytes_per_activation: bytes_per_activation.clone() },
        }
    }
}

/// A descriptor with the resource that it resolves to.
#[derive(Debug, PartialEq, Eq)]
pub struct VulkanResolvedDescriptorBinding {
    pub binding: usize,
    pub usage: VulkanKernelDescriptorUsage,
    pub name: String,
    pub resource: VulkanDescriptorResourceAddress,
}

#[verifier::ext_equal]
pub struct VulkanResolvedDescriptorBindingView {
    pub binding: usize,
    pub usage: VulkanKernelDescriptorUsage,
    pub name: Seq<char>,
    pub resource: VulkanDescriptorResourceAddressView,
}

impl DeepView for VulkanResolvedDescriptorBinding {
    type V = VulkanResolvedDescriptorBindingView;

    open spec fn deep_view(&self) -> VulkanResolvedDescriptorBindingView {
        VulkanResolvedDescriptorBindingView {
            binding: self.binding,
            usage: self.usage,
            name: self.name.deep_view(),
            resource: self.resource.deep_view(),
        }
    }
}

impl View for VulkanResolvedDescriptorBinding {
    type V = VulkanResolvedDescriptorBindingView;

    open spec fn view(&self) -> VulkanResolvedDescriptorBindingView {
        self.deep_view()
    }
}

impl Clone for VulkanResolvedDescriptorBinding {
    fn clone(&self) -> (r: Self)
        ensures
            r@ == self@,
    {
        VulkanResolvedDescriptorBinding {
            binding: self.binding,
            usage: self.usage,
            name: self.name.clone(),
            resource: self.resource.clone(),
        }
    }
}

/// Why descriptors cannot be resolved.
#[derive(Debug, PartialEq, Eq)]
pub struct VulkanDescriptorResourcePlanError(pub String);

impl DeepView for VulkanDescriptorResourcePlanError {
    type V = Seq<char>;

    open spec fn deep_view(&self) -> Seq<char> {
        self.0.deep_view()
    }
}

impl View for VulkanDescriptorResourcePlanError {
    type V = Seq<char>;

    open spec fn view(&self) -> Seq<char> {
        self.deep_view()
    }
}

impl Clone for VulkanDescriptorResourcePlanError {
    fn clone(&self) -> (r: Self)
        ensures
            r@ == self@,
    {
        VulkanDescriptorResourcePlanError(self.0.clone())
    }
}

impl VulkanDescriptorResourcePlanError {
    /// What is wrong.
    pub fn to_string(&self) -> (r: String)
        ensures
            r@ == self@,
    {
        self.0.clone()
    }
}

/// The resolved descriptors of a launch.
#[derive(Debug, PartialEq, Eq)]
pub struct VulkanDispatchDescriptorResourcePlan {
    pub dispatch_index: usize,
    pub kernel_id: String,
    pub component_id: String,
    pub node_id: String,
    pub op: String,
    pub descriptors: Vec<VulkanResolvedDescriptorBinding>,
}

#[verifier::ext_equal]
pub struct VulkanDispatchDescriptorResourcePlanView {
    pub dispatch_index: usize,
    pub kernel_id: Seq<char>,
    pub component_id: Seq<char>,
    pub node_id: Seq<char>,
    pub op: Seq<char>,
    pub descriptors: Seq<VulkanResolvedDescriptorBindingView>,
}

impl DeepView for VulkanDispatchDescriptorResourcePlan {
    type V = VulkanDispatchDescriptorResourcePlanView;

    open spec fn deep_view(&self) -> VulkanDispatchDescriptorResourcePlanView {
        VulkanDispatchDescriptorResourcePlanView {
            dispatch_index: self.dispatch_index,
            kernel_id: self.kernel_id.deep_view(),
            component_id: self.component_id.deep_view(),
            node_id: self.node_id.deep_view(),
            op: self.op.deep_view(),
            descriptors: self.descriptors.deep_view(),
        }
    }
}

impl View for VulkanDispatchDescriptorResourcePlan {
    type V = VulkanDispatchDescriptorResourcePlanView;

    open spec fn view(&self) -> VulkanDispatchDescriptorResourcePlanView {
        self.deep_view()
    }
}

impl Clone for VulkanDispatchDescriptorResourcePlan {
    fn clone(&self) -> (r: Self)
        ensures
            r@ == self@,
    {
        VulkanDispatchDescriptorResourcePlan {
            dispatch_index: self.dispatch_index,
            kernel_id: self.kernel_id.clone(),
            component_id: self.component_id.clone(),
            node_id: self.node_id.clone(),
            op: self.op.clone(),
            descriptors: self.descriptors.clone(),
        }
    }
}

/// The resolved descriptors of a stream's launches.
#[derive(Debug, PartialEq, Eq)]
pub struct VulkanDescriptorResourcePlan {
    pub backend_id: String,
    pub dynamic_state_capacity_activations: usize,
    pub dispatches: Vec<VulkanDispatchDescriptorResourcePlan>,
    pub total_descriptor_count: usize,
}

#[verifier::ext_equal]
pub struct VulkanDescriptorResourcePlanView {
    pub backend_id: Seq<char>,
    pub dynamic_state_capacity_activations: usize,
    pub dispatches: Seq<VulkanDispatchDescriptorResourcePlanView>,
    pub total_descriptor_count: usize,
}

impl DeepView for VulkanDescriptorResourcePlan {
    type V = VulkanDescriptorResourcePlanView;

    open spec fn deep_view(&self) -> VulkanDescriptorResourcePlanView {
        VulkanDescriptorResourcePlanView {
            backend_id: self.backend_id.deep_view(),
            dynamic_state_capacity_activations: self.dynamic_state_capacity_activations,
            dispatches: self.dispatches.deep_view(),
            total_descriptor_count: self.total_descriptor_count,
        }
    }
}

impl View for VulkanDescriptorResourcePlan {
    type V = VulkanDescriptorResourcePlanView;

    open spec fn view(&self) -> VulkanDescriptorResourcePlanView {
        self.deep_view()
    }
}

impl Clone for VulkanDescriptorResourcePlan {
    fn clone(&self) -> (r: Self)
        ensures
            r@ == self@,
    {
        VulkanDescriptorResourcePlan {
            backend_id: self.backend_id.clone(),
            dynamic_state_capacity_activations: self.dynamic_state_capacity_activations,
            dispatches: self.dispatches.clone(),
            total_descriptor_count: self.total_descriptor_count,
        }
    }
}

/// Whether a resident parameter holds this tensor.
pub open spec fn parameter_of(tensor: Seq<char>) -> spec_fn(VulkanResidentParameterView) -> bool {
    |parameter: VulkanResidentParameterView| parameter.tensor == tensor
}

/// Whether a slot has this number.
pub open spec fn slot_numbered(slot: usize) -> spec_fn(VulkanResidentActivationSlotView) -> bool {
    |resident: VulkanResidentActivationSlotView| resident.slot == slot
}

/// The slot that is resident for a component; of several with one number the last counts.
pub open spec fn resident_slot(
    banks: Seq<VulkanResidentActivationBankView>,
    component_id: Seq<char>,
    slot: usize,
) -> Option<VulkanResidentActivationSlotView>
    decreases banks.len(),
{
    if banks.len() == 0 {
        None
    } else {
        let bank = banks.last();
        let found = sequence::find_last(bank.slots, slot_numbered(slot));
        if bank.component_id == component_id && found is Some {
            found
        } else {
            resident_slot(banks.drop_last(), component_id, slot)
        }
    }
}

/// The resident state with its layout; of several with one name the last counts.
pub open spec fn resident_state(
    states: Seq<VulkanResidentStateBufferView>,
    layouts: Seq<VulkanTransientStateBufferLayoutView>,
    component_id: Seq<char>,
    state_id: Seq<char>,
) -> Option<(VulkanResidentStateBufferView, VulkanTransientStateBufferLayoutView)>
    decreases states.len(),
{
    if states.len() == 0 {
        None
    } else {
        let state = states.last();
        if state.component_id == component_id && state.state_id == state_id {
            Some((state, layouts[states.len() - 1]))
        } else {
            resident_state(states.drop_last(), layouts, component_id, state_id)
        }
    }
}

/// The start of what is said of a descriptor.
pub open spec fn of_descriptor(
    command: VulkanKernelDispatchCommandView,
    descriptor: VulkanKernelDescriptorBindingView,
) -> Seq<char> {
    command.kernel_id + " descriptor "@ + text::decimal(descriptor.binding as nat)
}

/// The address of a parameter.
pub open spec fn parameter_address(
    command: VulkanKernelDispatchCommandView,
    descriptor: VulkanKernelDescriptorBindingView,
    parameter: VulkanParameterBindingView,
    plan: VulkanStreamCircuitResidentPlanView,
) -> Result<VulkanDescriptorResourceAddressView, Seq<char>> {
    match sequence::find_last(plan.permanent_parameters, parameter_of(parameter.tensor)) {
        None => Err(
            of_descriptor(command, descriptor) + " parameter tensor "@ + text::quoted(
                parameter.tensor,
            ) + " is not resident"@,
        ),
        Some(resident) => if parameter.byte_count != resident.byte_count {
            Err(
                of_descriptor(command, descriptor) + " parameter "@ + text::quoted(parameter.tensor)
                    + " byte count "@ + text::number_option(parameter.byte_count)
                    + " does not match resident "@ + text::number_option(resident.byte_count),
            )
        } else {
            Ok(
                VulkanDescriptorResourceAddressView::PermanentParameter {
                    param_id: parameter.param_id,
                    tensor: parameter.tensor,
                    byte_count: resident.byte_count,
                },
            )
        },
    }
}

/// The address of an activation slot: the slot is resident with exactly the bytes that the signal
/// expects of it, and the signal fits.
pub open spec fn slot_address(
    command: VulkanKernelDispatchCommandView,
    descriptor: VulkanKernelDescriptorBindingView,
    signal_id: Seq<char>,
    component_id: Seq<char>,
    slot: usize,
    bytes: Option<usize>,
    signal_bytes: Option<usize>,
    plan: VulkanStreamCircuitResidentPlanView,
) -> Result<VulkanDescriptorResourceAddressView, Seq<char>> {
    let place = of_descriptor(command, descriptor) + " activation slot "@ + component_id + "."@
        + text::decimal(slot as nat);
    let signal = of_descriptor(command, descriptor) + " activation signal "@ + text::quoted(
        signal_id,
    );
    match resident_slot(plan.activation_banks, component_id, slot) {
        None => Err(place + " is not resident"@),
        Some(resident) => match resident.bytes {
            None => Err(place + " has unknown byte capacity"@),
            Some(byte_capacity) => if bytes != Some(byte_capacity) {
                Err(
                    place + " byte count "@ + text::number_option(bytes)
                        + " does not match resident "@ + text::decimal(byte_capacity as nat),
                )
            } else {
                match signal_bytes {
                    None => Err(signal + " has unknown byte capacity"@),
                    Some(signal_byte_capacity) => if signal_byte_capacity > byte_capacity {
                        Err(
                            signal + " byte count "@ + text::decimal(signal_byte_capacity as nat)
                                + " exceeds resident slot capacity "@ + text::decimal(
                                byte_capacity as nat,
                            ),
                        )
                    } else {
                        Ok(
                            VulkanDescriptorResourceAddressView::ActivationSlot {
                                component_id,
                                signal_id,
                                slot,
                                byte_capacity,
                                signal_byte_capacity,
                            },
                        )
                    },
                }
            },
        },
    }
}

/// The address of a state that a signal stands for.
pub open spec fn signal_state_address(
    command: VulkanKernelDispatchCommandView,
    descriptor: VulkanKernelDescriptorBindingView,
    component_id: Seq<char>,
    state_id: Seq<char>,
    static_bytes: Option<usize>,
    bytes_per_activation: Option<usize>,
    is_view: bool,
    plan: VulkanStreamCircuitResidentPlanView,
    layouts: Seq<VulkanTransientStateBufferLayoutView>,
) -> Result<VulkanDescriptorResourceAddressView, Seq<char>> {
    let place = of_descriptor(command, descriptor) + " state "@ + component_id + "."@ + state_id;
    match resident_state(plan.stream_state_buffers, layouts, component_id, state_id) {
        None => Err(place + " is not resident"@),
        Some((resident, layout)) => if static_bytes != resident.static_bytes || bytes_per_activation
            != resident.bytes_per_activation {
            Err(
                place + " byte shape "@ + text::number_option(static_bytes) + "/"@
                    + text::number_option(bytes_per_activation) + " does not match resident "@
                    + text::number_option(resident.static_bytes) + "/"@ + text::number_option(
                    resident.bytes_per_activation,
                ),
            )
        } else {
            match layout {
                VulkanTransientStateBufferLayoutView::Refused { reason } => Err(reason),
                VulkanTransientStateBufferLayoutView::Laid { byte_capacity } => if is_view {
                    Ok(
                        VulkanDescriptorResourceAddressView::StateView {
                            component_id,
                            state_id,
                            state_type: resident.state_type,
                            byte_capacity,
                            static_bytes: resident.static_bytes,
                            bytes_per_activation: resident.bytes_per_activation,
                        },
                    )
                } else {
                    Ok(
                        VulkanDescriptorResourceAddressView::StateBuffer {
                            component_id,
                            state_id,
                            state_type: resident.state_type,
                            byte_capacity,
                            static_bytes: resident.static_bytes,
                            bytes_per_activation: resident.bytes_per_activation,
                        },
                    )
                },
            }
        },
    }
}

/// The address of a state that a kernel reads or writes.
pub open spec fn state_address(
    command: VulkanKernelDispatchCommandView,
    descriptor: VulkanKernelDescriptorBindingView,
    component_id: Seq<char>,
    binding: VulkanStateBindingView,
    plan: VulkanStreamCircuitResidentPlanView,
    layouts: Seq<VulkanTransientStateBufferLayoutView>,
) -> Result<VulkanDescriptorResourceAddressView, Seq<char>> {
    let place = of_descriptor(command, descriptor) + " state "@ + component_id + "."@
        + binding.state_id;
    match resident_state(plan.stream_state_buffers, layouts, component_id, binding.state_id) {
        None => Err(place + " is not resident"@),
        Some((resident, layout)) => if binding.state_type != resident.state_type
            || binding.static_bytes != resident.static_bytes || binding.bytes_per_activation
            != resident.bytes_per_activation {
            Err(place + " binding does not match resident allocation"@)
        } else {
            match layout {
                VulkanTransientStateBufferLayoutView::Refused { reason } => Err(reason),
                VulkanTransientStateBufferLayoutView::Laid { byte_capacity } => Ok(
                    VulkanDescriptorResourceAddressView::StateBuffer {
                        component_id,
                        state_id: binding.state_id,
                        state_type: binding.state_type,
                        byte_capacity,
                        static_bytes: binding.static_bytes,
                        bytes_per_activation: binding.bytes_per_activation,
                    },
                ),
            }
        },
    }
}

/// The address of what a descriptor stands for.
#[verifier::opaque]
pub open spec fn resource_address(
    command: VulkanKernelDispatchCommandView,
    descriptor: VulkanKernelDescriptorBindingView,
    plan: VulkanStreamCircuitResidentPlanView,
    layouts: Seq<VulkanTransientStateBufferLayoutView>,
) -> Result<VulkanDescriptorResourceAddressView, Seq<char>> {
    match descriptor.resource {
        VulkanKernelDescriptorResourceView::Parameter(parameter) => parameter_address(
            command,
            descriptor,
            parameter,
            plan,
        ),
        VulkanKernelDescriptorResourceView::State { component_id, binding } => state_address(
            command,
            descriptor,
            component_id,
            binding,
            plan,
            layouts,
        ),
        VulkanKernelDescriptorResourceView::Signal(signal) => match signal.resource {
            VulkanSignalResourceView::BoundaryInput => Ok(
                VulkanDescriptorResourceAddressView::BoundaryInput { signal_id: signal.signal_id },
            ),
            VulkanSignalResourceView::BoundaryOutput => Ok(
                VulkanDescriptorResourceAddressView::BoundaryOutput { signal_id: signal.signal_id },
            ),
            VulkanSignalResourceView::ActivationSlot {
                component_id,
                slot,
                bytes,
                signal_bytes,
            } => slot_address(
                command,
                descriptor,
                signal.signal_id,
                component_id,
                slot,
                bytes,
                signal_bytes,
                plan,
            ),
            VulkanSignalResourceView::StateBuffer {
                component_id,
                state_id,
                static_bytes,
                bytes_per_activation,
            } => signal_state_address(
                command,
                descriptor,
                component_id,
                state_id,
                static_bytes,
                bytes_per_activation,
                false,
                plan,
                layouts,
            ),
            VulkanSignalResourceView::StateView {
                component_id,
                state_id,
                static_bytes,
                bytes_per_activation,
            } => signal_state_address(
                command,
                descriptor,
                component_id,
                state_id,
                static_bytes,
                bytes_per_activation,
                true,
                plan,
                layouts,
            ),
        },
    }
}

/// How a descriptor of a launch is resolved.
pub open spec fn resolve_step(
    command: VulkanKernelDispatchCommandView,
    plan: VulkanStreamCircuitResidentPlanView,
    layouts: Seq<VulkanTransientStateBufferLayoutView>,
) -> spec_fn(VulkanKernelDescriptorBindingView) -> Result<
    VulkanResolvedDescriptorBindingView,
    Seq<char>,
> {
    |descriptor: VulkanKernelDescriptorBindingView|
        match resource_address(command, descriptor, plan, layouts) {
            Err(error) => Err(error),
            Ok(resource) => Ok(
                VulkanResolvedDescriptorBindingView {
                    binding: descriptor.binding,
                    usage: descriptor.usage,
                    name: descriptor.name,
                    resource,
                },
            ),
        }
}

/// How the descriptors of a launch are resolved.
pub open spec fn resolve_command(
    plan: VulkanStreamCircuitResidentPlanView,
    layouts: Seq<VulkanTransientStateBufferLayoutView>,
) -> spec_fn(VulkanKernelDispatchCommandView) -> Result<
    VulkanDispatchDescriptorResourcePlanView,
    Seq<char>,
> {
    |command: VulkanKernelDispatchCommandView|
        match sequence::try_map(
            command.descriptor_bindings,
            resolve_step(command, plan, layouts),
        ) {
            Err(error) => Err(error),
            Ok(descriptors) => Ok(
                VulkanDispatchDescriptorResourcePlanView {
                    dispatch_index: command.dispatch_index,
                    kernel_id: command.kernel_id,
                    component_id: command.component_id,
                    node_id: command.node_id,
                    op: command.op,
                    descriptors,
                },
            ),
        }
}

/// The number of descriptors of a launch.
pub open spec fn binding_count() -> spec_fn(VulkanKernelDispatchCommandView) -> nat {
    |command: VulkanKernelDispatchCommandView| command.descriptor_bindings.len()
}

/// The resolved descriptors of a stream's launches.
#[verifier::opaque]
pub open spec fn descriptor_resources(
    dispatch_plan: VulkanKernelDispatchPlanView,
    plan: VulkanStreamCircuitResidentPlanView,
    capacity: usize,
    layouts: Seq<VulkanTransientStateBufferLayoutView>,
) -> Result<VulkanDescriptorResourcePlanView, Seq<char>> {
    match sequence::try_map(dispatch_plan.commands, resolve_command(plan, layouts)) {
        Err(error) => Err(error),
        Ok(dispatches) => Ok(
            VulkanDescriptorResourcePlanView {
                backend_id: VULKAN_STREAM_CIRCUIT_BACKEND_ID@,
                dynamic_state_capacity_activations: capacity,
                dispatches,
                total_descriptor_count: sequence::total(
                    dispatch_plan.commands,
                    binding_count(),
                ) as usize,
            },
        ),
    }
}

#[verifier::loop_isolation(false)]
fn find_parameter<'a>(
    parameters: &'a Vec<VulkanResidentParameter>,
    tensor: &str,
) -> (r: Option<&'a VulkanResidentParameter>)
    ensures
        r.deep_view() == sequence::find_last(parameters.deep_view(), parameter_of(tensor@)),
{
    let ghost all = parameters.deep_view();
    let ghost p = parameter_of(tensor@);
    let mut i: usize = parameters.len();
    while i > 0
        invariant
            i <= parameters.len(),
            forall|j: int| i <= j < all.len() ==> !p(#[trigger] all[j]),
        decreases i,
    {
        i -= 1;
        let item = &parameters[i];
        assert(all[i as int] == item.deep_view());
        if text::same(item.tensor.as_str(), tensor) {
            proof {
                sequence::lemma_find_last_at(all, p, i as int);
            }
            return Some(item);
        }
    }
    proof {
        sequence::lemma_find_last_none(all, p);
    }
    None
}

#[verifier::loop_isolation(false)]
fn find_slot<'a>(
    slots: &'a Vec<VulkanResidentActivationSlot>,
    slot: usize,
) -> (r: Option<&'a VulkanResidentActivationSlot>)
    ensures
        r.deep_view() == sequence::find_last(slots.deep_view(), slot_numbered(slot)),
{
    let ghost all = slots.deep_view();
    let ghost p = slot_numbered(slot);
    let mut i: usize = slots.len();
    while i > 0
        invariant
            i <= slots.len(),
            forall|j: int| i <= j < all.len() ==> !p(#[trigger] all[j]),
        decreases i,
    {
        i -= 1;
        let item = &slots[i];
        assert(all[i as int] == item.deep_view());
        if item.slot == slot {
            proof {
                sequence::lemma_find_last_at(all, p, i as int);
            }
            return Some(item);
        }
    }
    proof {
        sequence::lemma_find_last_none(all, p);
    }
    None
}

#[verifier::loop_isolation(false)]
fn find_resident_slot<'a>(
    banks: &'a Vec<VulkanResidentActivationBank>,
    component_id: &str,
    slot: usize,
) -> (r: Option<&'a VulkanResidentActivationSlot>)
    ensures
        r.deep_view() == resident_slot(banks.deep_view(), component_id@, slot),
{
    let ghost all = banks.deep_view();
    let mut i: usize = banks.len();
    assert(all.take(all.len() as int) =~= all);
    while i > 0
        invariant
            i <= banks.len(),
            resident_slot(all, component_id@, slot) == resident_slot(
                all.take(i as int),
                component_id@,
                slot,
            ),
        decreases i,
    {
        assert(all.take(i as int).drop_last() =~= all.take(i - 1));
        i -= 1;
        let bank = &banks[i];
        assert(all[i as int] == bank@);
        if text::same(bank.component_id.as_str(), component_id) {
            match find_slot(&bank.slots, slot) {
                Some(found) => {
                    return Some(found);
                },
                None => {},
            }
        }
    }
    None
}

#[verifier::loop_isolation(false)]
fn find_resident_state<'a>(
    states: &'a Vec<VulkanResidentStateBuffer>,
    layouts: &'a Vec<VulkanTransientStateBufferLayout>,
    component_id: &str,
    state_id: &str,
) -> (r: Option<(&'a VulkanResidentStateBuffer, &'a VulkanTransientStateBufferLayout)>)
    requires
        states@.len() == layouts@.len(),
    ensures
        r.deep_view() == resident_state(
            states.deep_view(),
            layouts.deep_view(),
            component_id@,
            state_id@,
        ),
{
    let ghost all = states.deep_view();
    let ghost all_layouts = layouts.deep_view();
    let mut i: usize = states.len();
    assert(all.take(all.len() as int) =~= all);
    while i > 0
        invariant
            i <= states.len(),
            resident_state(all, all_layouts, component_id@, state_id@) == resident_state(
                all.take(i as int),
                all_layouts,
                component_id@,
                state_id@,
            ),
        decreases i,
    {
        assert(all.take(i as int).drop_last() =~= all.take(i - 1));
        i -= 1;
        let state = &states[i];
        assert(all[i as int] == state@);
        if text::same(state.component_id.as_str(), component_id) && text::same(
            state.state_id.as_str(),
            state_id,
        ) {
            assert(all_layouts[i as int] == layouts@[i as int]@);
            return Some((state, &layouts[i]));
        }
    }
    None
}

fn start_of_message(
    command: &VulkanKernelDispatchCommand,
    descriptor: &VulkanKernelDescriptorBinding,
) -> (r: Message)
    ensures
        r@ == of_descriptor(command@, descriptor@),
{
    Message::new(command.kernel_id.as_str()).text(" descriptor ").number(descriptor.binding)
}

fn resolve_parameter(
    command: &VulkanKernelDispatchCommand,
    descriptor: &VulkanKernelDescriptorBinding,
    parameter: &VulkanParameterBinding,
    plan: &VulkanStreamCircuitResidentPlan,
) -> (r: Result<VulkanDescriptorResourceAddress, VulkanDescriptorResourcePlanError>)
    ensures
        sequence::outcome(r) == parameter_address(command@, descriptor@, parameter@, plan@),
{
    match find_parameter(&plan.permanent_parameters, parameter.tensor.as_str()) {
        None => Err(
            VulkanDescriptorResourcePlanError(
                start_of_message(command, descriptor).text(" parameter tensor ").quoted(
                    parameter.tensor.as_str(),
                ).text(" is not resident").done(),
            ),
        ),
        Some(resident) => {
            if parameter.byte_count != resident.byte_count {
                return Err(
                    VulkanDescriptorResourcePlanError(
                        start_of_message(command, descriptor).text(" parameter ").quoted(
                            parameter.tensor.as_str(),
                        ).text(" byte count ").number_option(parameter.byte_count).text(
                            " does not match resident ",
                        ).number_option(resident.byte_count).done(),
                    ),
                );
            }
            Ok(
                VulkanDescriptorResourceAddress::PermanentParameter {
                    param_id: parameter.param_id.clone(),
                    tensor: parameter.tensor.clone(),
                    byte_count: resident.byte_count,
                },
            )
        },
    }
}

fn resolve_slot(
    command: &VulkanKernelDispatchCommand,
    descriptor: &VulkanKernelDescriptorBinding,
    signal_id: &String,
    component_id: &String,
    slot: usize,
    bytes: Option<usize>,
    signal_bytes: Option<usize>,
    plan: &VulkanStreamCircuitResidentPlan,
) -> (r: Result<VulkanDescriptorResourceAddress, VulkanDescriptorResourcePlanError>)
    ensures
        sequence::outcome(r) == slot_address(
            command@,
            descriptor@,
            signal_id@,
            component_id@,
            slot,
            bytes,
            signal_bytes,
            plan@,
        ),
{
    let place: Message = start_of_message(command, descriptor).text(" activation slot ").text(
        component_id.as_str(),
    ).text(".").number(slot);
    let signal: Message = start_of_message(command, descriptor).text(
        " activation signal ",
    ).quoted(signal_id.as_str());
    let resident: &VulkanResidentActivationSlot = match find_resident_slot(
        &plan.activation_banks,
        component_id.as_str(),
        slot,
    ) {
        None => {
            return Err(VulkanDescriptorResourcePlanError(place.text(" is not resident").done()));
        },
        Some(resident) => resident,
    };
    let byte_capacity: usize = match resident.bytes {
        None => {
            return Err(
                VulkanDescriptorResourcePlanError(place.text(" has unknown byte capacity").done()),
            );
        },
        Some(byte_capacity) => byte_capacity,
    };
    if bytes != Some(byte_capacity) {
        return Err(
            VulkanDescriptorResourcePlanError(
                place.text(" byte count ").number_option(bytes).text(
                    " does not match resident ",
                ).number(byte_capacity).done(),
            ),
        );
    }
    match signal_bytes {
        None => Err(
            VulkanDescriptorResourcePlanError(signal.text(" has unknown byte capacity").done()),
        ),
        Some(signal_byte_capacity) => if signal_byte_capacity > byte_capacity {
            Err(
                VulkanDescriptorResourcePlanError(
                    signal.text(" byte count ").number(signal_byte_capacity).text(
                        " exceeds resident slot capacity ",
                    ).number(byte_capacity).done(),
                ),
            )
        } else {
            Ok(
                VulkanDescriptorResourceAddress::ActivationSlot {
                    component_id: component_id.clone(),
                    signal_id: signal_id.clone(),
                    slot,
                    byte_capacity,
                    signal_byte_capacity,
                },
            )
        },
    }
}

fn resolve_signal_state_descriptor_resource(
    command: &VulkanKernelDispatchCommand,
    descriptor: &VulkanKernelDescriptorBinding,
    component_id: &String,
    state_id: &String,
    static_bytes: Option<usize>,
    bytes_per_activation: Option<usize>,
    is_view: bool,
    plan: &VulkanStreamCircuitResidentPlan,
    layouts: &Vec<VulkanTransientStateBufferLayout>,
) -> (r: Result<VulkanDescriptorResourceAddress, VulkanDescriptorResourcePlanError>)
    requires
        plan@.stream_state_buffers.len() == layouts@.len(),
    ensures
        sequence::outcome(r) == signal_state_address(
            command@,
            descriptor@,
            component_id@,
            state_id@,
            static_bytes,
            bytes_per_activation,
            is_view,
            plan@,
            layouts.deep_view(),
        ),
{
    let place: Message = start_of_message(command, descriptor).text(" state ").text(
        component_id.as_str(),
    ).text(".").text(state_id.as_str());
    assert(plan@.stream_state_buffers.len() == plan.stream_state_buffers@.len());
    match find_resident_state(
        &plan.stream_state_buffers,
        layouts,
        component_id.as_str(),
        state_id.as_str(),
    ) {
        None => Err(VulkanDescriptorResourcePlanError(place.text(" is not resident").done())),
        Some((resident, layout)) => {
            if static_bytes != resident.static_bytes || bytes_per_activation
                != resident.bytes_per_activation {
                return Err(
                    VulkanDescriptorResourcePlanError(
                        place.text(" byte shape ").number_option(static_bytes).text(
                            "/",
                        ).number_option(bytes_per_activation).text(
                            " does not match resident ",
                        ).number_option(resident.static_bytes).text("/").number_option(
                            resident.bytes_per_activation,
                        ).done(),
                    ),
                );
            }
            match layout {
                VulkanTransientStateBufferLayout::Refused { reason } => Err(
                    VulkanDescriptorResourcePlanError(reason.clone()),
                ),
                VulkanTransientStateBufferLayout::Laid { byte_capacity } => if is_view {
                    Ok(
                        VulkanDescriptorResourceAddress::StateView {
                            component_id: component_id.clone(),
                            state_id: state_id.clone(),
                            state_type: resident.state_type.clone(),
                            byte_capacity: *byte_capacity,
                            static_bytes: resident.static_bytes,
                            bytes_per_activation: resident.bytes_per_activation,
                        },
                    )
                } else {
                    Ok(
                        VulkanDescriptorResourceAddress::StateBuffer {
                            component_id: component_id.clone(),
                            state_id: state_id.clone(),
                            state_type: resident.state_type.clone(),
                            byte_capacity: *byte_capacity,
                            static_bytes: resident.static_bytes,
                            bytes_per_activation: resident.bytes_per_activation,
                        },
                    )
                },
            }
        },
    }
}

fn resolve_state_descriptor_resource(
    command: &VulkanKernelDispatchCommand,
    descriptor: &VulkanKernelDescriptorBinding,
    component_id: &String,
    binding: &VulkanStateBinding,
    plan: &VulkanStreamCircuitResidentPlan,
    layouts: &Vec<VulkanTransientStateBufferLayout>,
) -> (r: Result<VulkanDescriptorResourceAddress, VulkanDescriptorResourcePlanError>)
    requires
        plan@.stream_state_buffers.len() == layouts@.len(),
    ensures
        sequence::outcome(r) == state_address(
            command@,
            descriptor@,
            component_id@,
            binding@,
            plan@,
            layouts.deep_view(),
        ),
{
    let place: Message = start_of_message(command, descriptor).text(" state ").text(
        component_id.as_str(),
    ).text(".").text(binding.state_id.as_str());
    assert(plan@.stream_state_buffers.len() == plan.stream_state_buffers@.len());
    match find_resident_state(
        &plan.stream_state_buffers,
        layouts,
        component_id.as_str(),
        binding.state_id.as_str(),
    ) {
        None => Err(VulkanDescriptorResourcePlanError(place.text(" is not resident").done())),
        Some((resident, layout)) => {
            if binding.state_type != resident.state_type || binding.static_bytes
                != resident.static_bytes || binding.bytes_per_activation
                != resident.bytes_per_activation {
                return Err(
                    VulkanDescriptorResourcePlanError(
                        place.text(" binding does not match resident allocation").done(),
                    ),
                );
            }
            match layout {
                VulkanTransientStateBufferLayout::Refused { reason } => Err(
                    VulkanDescriptorResourcePlanError(reason.clone()),
                ),
                VulkanTransientStateBufferLayout::Laid { byte_capacity } => Ok(
                    VulkanDescriptorResourceAddress::StateBuffer {
                        component_id: component_id.clone(),
                        state_id: binding.state_id.clone(),
                        state_type: binding.state_type.clone(),
                        byte_capacity: *byte_capacity,
                        static_bytes: binding.static_bytes,
                        bytes_per_activation: binding.bytes_per_activation,
                    },
                ),
            }
        },
    }
}

/// The address of what the descriptor of a signal stands for.
fn resolve_signal_descriptor_resource(
    command: &VulkanKernelDispatchCommand,
    descriptor: &VulkanKernelDescriptorBinding,
    signal: &VulkanSignalBinding,
    plan: &VulkanStreamCircuitResidentPlan,
    layouts: &Vec<VulkanTransientStateBufferLayout>,
) -> (r: Result<VulkanDescriptorResourceAddress, VulkanDescriptorResourcePlanError>)
    requires
        plan@.stream_state_buffers.len() == layouts@.len(),
        descriptor@.resource == VulkanKernelDescriptorResourceView::Signal(signal@),
    ensures
        sequence::outcome(r) == resource_address(command@, descriptor@, plan@, layouts.deep_view()),
{
    reveal(resource_address);
    match &signal.resource {
        VulkanSignalResource::BoundaryInput => Ok(
            VulkanDescriptorResourceAddress::BoundaryInput {
                signal_id: signal.signal_id.clone(),
            },
        ),
        VulkanSignalResource::BoundaryOutput => Ok(
            VulkanDescriptorResourceAddress::BoundaryOutput {
                signal_id: signal.signal_id.clone(),
            },
        ),
        VulkanSignalResource::ActivationSlot { component_id, slot, bytes, signal_bytes } => {
            resolve_slot(
                command,
                descriptor,
                &signal.signal_id,
                component_id,
                *slot,
                *bytes,
                *signal_bytes,
                plan,
            )
        },
        VulkanSignalResource::StateBuffer {
            component_id,
            state_id,
            static_bytes,
            bytes_per_activation,
        } => resolve_signal_state_descriptor_resource(
            command,
            descriptor,
            component_id,
            state_id,
            *static_bytes,
            *bytes_per_activation,
            false,
            plan,
            layouts,
        ),
        VulkanSignalResource::StateView {
            component_id,
            state_id,
            static_bytes,
            bytes_per_activation,
        } => resolve_signal_state_descriptor_resource(
            command,
            descriptor,
            component_id,
            state_id,
            *static_bytes,
            *bytes_per_activation,
            true,
            plan,
            layouts,
        ),
    }
}

/// The address of what a descriptor stands for.
pub fn resolve_descriptor_resource(
    command: &VulkanKernelDispatchCommand,
    descriptor: &VulkanKernelDescriptorBinding,
    plan: &VulkanStreamCircuitResidentPlan,
    layouts: &Vec<VulkanTransientStateBufferLayout>,
) -> (r: Result<VulkanDescriptorResourceAddress, VulkanDescriptorResourcePlanError>)
    requires
        plan@.stream_state_buffers.len() == layouts@.len(),
    ensures
        sequence::outcome(r) == resource_address(command@, descriptor@, plan@, layouts.deep_view()),
{
    reveal(resource_address);
    match &descriptor.resource {
        VulkanKernelDescriptorResource::Parameter(parameter) => resolve_parameter(
            command,
            descriptor,
            parameter,
            plan,
        ),
        VulkanKernelDescriptorResource::State { component_id, binding } => resolve_state_descriptor_resource(
            command,
            descriptor,
            component_id,
            binding,
            plan,
            layouts,
        ),
        VulkanKernelDescriptorResource::Signal(signal) => resolve_signal_descriptor_resource(
            command,
            descriptor,
            signal,
            plan,
            layouts,
        ),
    }
}

impl VulkanResolvedDescriptorBinding {
    /// A descriptor with its resource.
    pub fn from_binding(
        command: &VulkanKernelDispatchCommand,
        descriptor: &VulkanKernelDescriptorBinding,
        plan: &VulkanStreamCircuitResidentPlan,
        layouts: &Vec<VulkanTransientStateBufferLayout>,
    ) -> (r: Result<Self, VulkanDescriptorResourcePlanError>)
        requires
            plan@.stream_state_buffers.len() == layouts@.len(),
        ensures
            sequence::outcome(r) == resolve_step(command@, plan@, layouts.deep_view())(descriptor@),
    {
        match resolve_descriptor_resource(command, descriptor, plan, layouts) {
            Err(error) => Err(error),
            Ok(resource) => Ok(
                VulkanResolvedDescriptorBinding {
                    binding: descriptor.binding,
                    usage: descriptor.usage,
                    name: descriptor.name.clone(),
                    resource,
                },
            ),
        }
    }
}

impl VulkanDispatchDescriptorResourcePlan {
    /// A launch with its resolved descriptors.
    #[verifier::loop_isolation(false)]
    pub fn from_command(
        command: &VulkanKernelDispatchCommand,
        plan: &VulkanStreamCircuitResidentPlan,
        layouts: &Vec<VulkanTransientStateBufferLayout>,
    ) -> (r: Result<Self, VulkanDescriptorResourcePlanError>)
        requires
            plan@.stream_state_buffers.len() == layouts@.len(),
        ensures
            sequence::outcome(r) == resolve_command(plan@, layouts.deep_view())(command@),
    {
        let ghost all_descriptors = command.descriptor_bindings.deep_view();
        let ghost step_descriptors = resolve_step(command@, plan@, layouts.deep_view());
        let mut descriptors: Vec<VulkanResolvedDescriptorBinding> = Vec::new();
        let mut i: usize = 0;
        assert(all_descriptors.take(0) =~= Seq::empty());
        assert(descriptors.deep_view() =~= Seq::empty());
        while i < command.descriptor_bindings.len()
            invariant
                i <= command.descriptor_bindings.len(),
                sequence::try_map(all_descriptors.take(i as int), step_descriptors) is Ok,
                sequence::try_map(all_descriptors.take(i as int), step_descriptors)->Ok_0 == descriptors.deep_view(),
            decreases command.descriptor_bindings.len() - i,
        {
            let item = &command.descriptor_bindings[i];
            assert(all_descriptors[i as int] == item.deep_view());
            proof {
                sequence::lemma_try_map_step(all_descriptors, step_descriptors, i as int);
                if sequence::try_map(all_descriptors.take(i + 1), step_descriptors) is Err {
                    sequence::lemma_try_map_error(all_descriptors, step_descriptors, i + 1);
                }
            }
            match VulkanResolvedDescriptorBinding::from_binding(command, item, plan, layouts) {
                Ok(added) => {
                    let ghost before = descriptors.deep_view();
                    let ghost value = added.deep_view();
                    descriptors.push(added);
                    assert(descriptors.deep_view() =~= before.push(value));
                },
                Err(error) => {
                    return Err(error);
                },
            }
            i += 1;
        }
        assert(all_descriptors.take(all_descriptors.len() as int) =~= all_descriptors);
        Ok(
            VulkanDispatchDescriptorResourcePlan {
                dispatch_index: command.dispatch_index,
                kernel_id: command.kernel_id.clone(),
                component_id: command.component_id.clone(),
                node_id: command.node_id.clone(),
                op: command.op.clone(),
                descriptors,
            },
        )
    }
}

/// Whether a launch is that of a node.
pub open spec fn resolved_dispatch_named(component_id: Seq<char>, node_id: Seq<char>) -> spec_fn(
    VulkanDispatchDescriptorResourcePlanView,
) -> bool {
    |dispatch: VulkanDispatchDescriptorResourcePlanView|
        dispatch.component_id == component_id && dispatch.node_id == node_id
}

impl VulkanDescriptorResourcePlan {
    /// Resolves the descriptors of a stream's launches. `layouts` holds the layout of each of the
    /// plan's states for this capacity.
    #[verifier::loop_isolation(false)]
    pub fn from_plans(
        dispatch_plan: &VulkanKernelDispatchPlan,
        resident_plan: &VulkanStreamCircuitResidentPlan,
        dynamic_state_capacity_activations: usize,
        layouts: &Vec<VulkanTransientStateBufferLayout>,
    ) -> (r: Result<Self, VulkanDescriptorResourcePlanError>)
        requires
            resident_plan@.stream_state_buffers.len() == layouts@.len(),
            sequence::total(dispatch_plan@.commands, binding_count()) <= usize::MAX,
        ensures
            sequence::outcome(r) == descriptor_resources(
                dispatch_plan@,
                resident_plan@,
                dynamic_state_capacity_activations,
                layouts.deep_view(),
            ),
    {
        reveal(descriptor_resources);
        let ghost all_dispatches = dispatch_plan.commands.deep_view();
        let ghost step_dispatches = resolve_command(resident_plan@, layouts.deep_view());
        let mut dispatches: Vec<VulkanDispatchDescriptorResourcePlan> = Vec::new();
        let mut i: usize = 0;
        assert(all_dispatches.take(0) =~= Seq::empty());
        assert(dispatches.deep_view() =~= Seq::empty());
        while i < dispatch_plan.commands.len()
            invariant
                i <= dispatch_plan.commands.len(),
                sequence::try_map(all_dispatches.take(i as int), step_dispatches) is Ok,
                sequence::try_map(all_dispatches.take(i as int), step_dispatches)->Ok_0 == dispatches.deep_view(),
            decreases dispatch_plan.commands.len() - i,
        {
            let item = &dispatch_plan.commands[i];
            assert(all_dispatches[i as int] == item.deep_view());
            proof {
                sequence::lemma_try_map_step(all_dispatches, step_dispatches, i as int);
                if sequence::try_map(all_dispatches.take(i + 1), step_dispatches) is Err {
                    sequence::lemma_try_map_error(all_dispatches, step_dispatches, i + 1);
                }
            }
            match VulkanDispatchDescriptorResourcePlan::from_command(item, resident_plan, layouts) {
                Ok(added) => {
                    let ghost before = dispatches.deep_view();
                    let ghost value = added.deep_view();
                    dispatches.push(added);
                    assert(dispatches.deep_view() =~= before.push(value));
                },
                Err(error) => {
                    return Err(error);
                },
            }
            i += 1;
        }
        assert(all_dispatches.take(all_dispatches.len() as int) =~= all_dispatches);
        proof {
            sequence::lemma_try_map_ok(all_dispatches, step_dispatches);
        }
        let ghost all_total_descriptor_count = dispatch_plan.commands.deep_view();
        let ghost size_total_descriptor_count = binding_count();
        let mut total_descriptor_count: usize = 0;
        let mut j: usize = 0;
        assert(all_total_descriptor_count.take(0) =~= Seq::empty());
        while j < dispatch_plan.commands.len()
            invariant
                j <= dispatch_plan.commands.len(),
                total_descriptor_count == sequence::total(all_total_descriptor_count.take(j as int), size_total_descriptor_count),
            decreases dispatch_plan.commands.len() - j,
        {
            let item = &dispatch_plan.commands[j];
            proof {
                sequence::lemma_total_step(all_total_descriptor_count, size_total_descriptor_count, j as int);
                sequence::lemma_total_prefix(all_total_descriptor_count, size_total_descriptor_count, j + 1);
                assert(all_total_descriptor_count[j as int] == item.deep_view());
                assert(step_dispatches(all_dispatches[j as int]) == Ok::<
                 VulkanDispatchDescriptorResourcePlanView,
                 Seq<char>,
                >(dispatches.deep_view()[j as int]));
                sequence::lemma_try_map_ok(
                 item@.descriptor_bindings,
                 resolve_step(item@, resident_plan@, layouts.deep_view()),
                );
                assert(dispatches@[j as int]@.descriptors.len() == dispatches@[j as int].descriptors@.len());
            }
            total_descriptor_count = total_descriptor_count + dispatches[j].descriptors.len();
            j += 1;
        }
        assert(all_total_descriptor_count.take(all_total_descriptor_count.len() as int) =~= all_total_descriptor_count);
        Ok(
            VulkanDescriptorResourcePlan {
                backend_id: VULKAN_STREAM_CIRCUIT_BACKEND_ID.to_owned(),
                dynamic_state_capacity_activations,
                dispatches,
                total_descriptor_count,
            },
        )
    }

    /// The first launch of a node.
    #[verifier::loop_isolation(false)]
    pub fn dispatch(&self, component_id: &str, node_id: &str) -> (r: Option<
        &VulkanDispatchDescriptorResourcePlan,
    >)
        ensures
            r.deep_view() == sequence::find_first(
                self@.dispatches,
                resolved_dispatch_named(component_id@, node_id@),
            ),
    {
        let ghost all = self.dispatches.deep_view();
        let ghost p = resolved_dispatch_named(component_id@, node_id@);
        let mut i: usize = 0;
        while i < self.dispatches.len()
            invariant
                i <= self.dispatches.len(),
                forall|j: int| 0 <= j < i ==> !p(#[trigger] all[j]),
            decreases self.dispatches.len() - i,
        {
            let item = &self.dispatches[i];
            assert(all[i as int] == item.deep_view());
            if text::same(item.component_id.as_str(), component_id) && text::same(item.node_id.as_str(), node_id) {
                proof {
                    sequence::lemma_find_first_at(all, p, i as int);
                }
                return Some(item);
            }
            i += 1;
        }
        proof {
            sequence::lemma_find_first_none(all, p);
        }
        None
    }
}

/// A resolved plan keeps the launches and their descriptors in order, and counts them all.
pub proof fn resolving_keeps_the_descriptors(
    dispatch_plan: VulkanKernelDispatchPlanView,
    plan: VulkanStreamCircuitResidentPlanView,
    capacity: usize,
    layouts: Seq<VulkanTransientStateBufferLayoutView>,
    i: int,
    j: int,
)
    requires
        descriptor_resources(dispatch_plan, plan, capacity, layouts) is Ok,
        0 <= i < dispatch_plan.commands.len(),
        0 <= j < dispatch_plan.commands[i].descriptor_bindings.len(),
    ensures
        ({
            let resolved = descriptor_resources(dispatch_plan, plan, capacity, layouts)->Ok_0;
            let command = dispatch_plan.commands[i];
            &&& resolved.dispatches.len() == dispatch_plan.commands.len()
            &&& resolved.dispatches[i].dispatch_index == command.dispatch_index
            &&& resolved.dispatches[i].descriptors.len() == command.descriptor_bindings.len()
            &&& resolved.dispatches[i].descriptors[j].binding
                == command.descriptor_bindings[j].binding
            &&& resource_address(command, command.descriptor_bindings[j], plan, layouts) == Ok::<
                VulkanDescriptorResourceAddressView,
                Seq<char>,
            >(resolved.dispatches[i].descriptors[j].resource)
        }),
{
    reveal(descriptor_resources);
    let command = dispatch_plan.commands[i];
    sequence::lemma_try_map_ok(dispatch_plan.commands, resolve_command(plan, layouts));
    assert(resolve_command(plan, layouts)(dispatch_plan.commands[i]) is Ok);
    sequence::lemma_try_map_ok(
        command.descriptor_bindings,
        resolve_step(command, plan, layouts),
    );
    assert(resolve_step(command, plan, layouts)(command.descriptor_bindings[j]) is Ok);
}

/// Whether a state of a component is resident with these bytes, and laid out with a capacity.
pub open spec fn state_is_resident(
    plan: VulkanStreamCircuitResidentPlanView,
    layouts: Seq<VulkanTransientStateBufferLayoutView>,
    component_id: Seq<char>,
    state_id: Seq<char>,
    state_type: Seq<char>,
    static_bytes: Option<usize>,
    bytes_per_activation: Option<usize>,
    byte_capacity: usize,
) -> bool {
    exists|i: int|
        0 <= i < plan.stream_state_buffers.len() && {
            let state = #[trigger] plan.stream_state_buffers[i];
            &&& state.component_id == component_id
            &&& state.state_id == state_id
            &&& state.state_type == state_type
            &&& state.static_bytes == static_bytes
            &&& state.bytes_per_activation == bytes_per_activation
            &&& layouts[i] == (VulkanTransientStateBufferLayoutView::Laid { byte_capacity })
        }
}

/// Whether a slot of a component is resident with a number of bytes.
pub open spec fn slot_is_resident(
    plan: VulkanStreamCircuitResidentPlanView,
    component_id: Seq<char>,
    slot: usize,
    bytes: usize,
) -> bool {
    exists|b: int, s: int|
        0 <= b < plan.activation_banks.len() && 0 <= s < plan.activation_banks[b].slots.len() && {
            let resident = #[trigger] plan.activation_banks[b].slots[s];
            &&& plan.activation_banks[b].component_id == component_id
            &&& resident.slot == slot
            &&& resident.bytes == Some(bytes)
        }
}

/// Whether an address is that of what a descriptor stands for, and what is found there has the size
/// that the descriptor asks for.
pub open spec fn is_address_of(
    resource: VulkanKernelDescriptorResourceView,
    address: VulkanDescriptorResourceAddressView,
    plan: VulkanStreamCircuitResidentPlanView,
    layouts: Seq<VulkanTransientStateBufferLayoutView>,
) -> bool {
    match resource {
        VulkanKernelDescriptorResourceView::Parameter(parameter) => {
            &&& address == (VulkanDescriptorResourceAddressView::PermanentParameter {
                param_id: parameter.param_id,
                tensor: parameter.tensor,
                byte_count: parameter.byte_count,
            })
            &&& exists|i: int|
                0 <= i < plan.permanent_parameters.len() && {
                    let resident = #[trigger] plan.permanent_parameters[i];
                    &&& resident.tensor == parameter.tensor
                    &&& resident.byte_count == parameter.byte_count
                }
        },
        VulkanKernelDescriptorResourceView::State { component_id, binding } => {
            &&& address matches VulkanDescriptorResourceAddressView::StateBuffer {
                component_id: addressed,
                state_id,
                state_type,
                byte_capacity,
                static_bytes,
                bytes_per_activation,
            }
            &&& addressed == component_id
            &&& state_id == binding.state_id
            &&& state_type == binding.state_type
            &&& static_bytes == binding.static_bytes
            &&& bytes_per_activation == binding.bytes_per_activation
            &&& state_is_resident(
                plan,
                layouts,
                component_id,
                state_id,
                state_type,
                static_bytes,
                bytes_per_activation,
                byte_capacity,
            )
        },
        VulkanKernelDescriptorResourceView::Signal(signal) => match signal.resource {
            VulkanSignalResourceView::BoundaryInput => address
                == (VulkanDescriptorResourceAddressView::BoundaryInput {
                signal_id: signal.signal_id,
            }),
            VulkanSignalResourceView::BoundaryOutput => address
                == (VulkanDescriptorResourceAddressView::BoundaryOutput {
                signal_id: signal.signal_id,
            }),
            VulkanSignalResourceView::ActivationSlot {
                component_id,
                slot,
                bytes,
                signal_bytes,
            } => {
                &&& bytes is Some
                &&& signal_bytes is Some
                &&& signal_bytes->Some_0 <= bytes->Some_0
                &&& address == (VulkanDescriptorResourceAddressView::ActivationSlot {
                    component_id,
                    signal_id: signal.signal_id,
                    slot,
                    byte_capacity: bytes->Some_0,
                    signal_byte_capacity: signal_bytes->Some_0,
                })
                &&& slot_is_resident(plan, component_id, slot, bytes->Some_0)
            },
            VulkanSignalResourceView::StateBuffer {
                component_id,
                state_id,
                static_bytes,
                bytes_per_activation,
            } => {
                &&& address matches VulkanDescriptorResourceAddressView::StateBuffer {
                    component_id: addressed,
                    state_id: state,
                    state_type,
                    byte_capacity,
                    static_bytes: fixed,
                    bytes_per_activation: growing,
                }
                &&& addressed == component_id
                &&& state == state_id
                &&& fixed == static_bytes
                &&& growing == bytes_per_activation
                &&& state_is_resident(
                    plan,
                    layouts,
                    component_id,
                    state_id,
                    state_type,
                    static_bytes,
                    bytes_per_activation,
                    byte_capacity,
                )
            },
            VulkanSignalResourceView::StateView {
                component_id,
                state_id,
                static_bytes,
                bytes_per_activation,
            } => {
                &&& address matches VulkanDescriptorResourceAddressView::StateView {
                    component_id: addressed,
                    state_id: state,
                    state_type,
                    byte_capacity,
                    static_bytes: fixed,
                    bytes_per_activation: growing,
                }
                &&& addressed == component_id
                &&& state == state_id
                &&& fixed == static_bytes
                &&& growing == bytes_per_activation
                &&& state_is_resident(
                    plan,
                    layouts,
                    component_id,
                    state_id,
                    state_type,
                    static_bytes,
                    bytes_per_activation,
                    byte_capacity,
                )
            },
        },
    }
}

proof fn lemma_resident_state_found(
    states: Seq<VulkanResidentStateBufferView>,
    layouts: Seq<VulkanTransientStateBufferLayoutView>,
    component_id: Seq<char>,
    state_id: Seq<char>,
)
    ensures
        resident_state(states, layouts, component_id, state_id) matches Some((state, layout))
            ==> exists|i: int|
            0 <= i < states.len() && (#[trigger] states[i]) == state && layouts[i] == layout
                && state.component_id == component_id && state.state_id == state_id,
    decreases states.len(),
{
    if states.len() > 0 {
        let last = states.last();
        assert(states[states.len() - 1] == last);
        if !(last.component_id == component_id && last.state_id == state_id) {
            let front = states.drop_last();
            lemma_resident_state_found(front, layouts, component_id, state_id);
            if resident_state(front, layouts, component_id, state_id) is Some {
                let (state, layout) = resident_state(
                    front,
                    layouts,
                    component_id,
                    state_id,
                )->Some_0;
                let i = choose|i: int|
                    0 <= i < front.len() && (#[trigger] front[i]) == state && layouts[i] == layout
                        && state.component_id == component_id && state.state_id == state_id;
                assert(states[i] == state);
            }
        }
    }
}

proof fn lemma_resident_slot_found(
    banks: Seq<VulkanResidentActivationBankView>,
    component_id: Seq<char>,
    slot: usize,
)
    ensures
        resident_slot(banks, component_id, slot) matches Some(found) ==> exists|b: int, s: int|
            0 <= b < banks.len() && 0 <= s < banks[b].slots.len() && (#[trigger] banks[b].slots[s])
                == found && banks[b].component_id == component_id && found.slot == slot,
    decreases banks.len(),
{
    if banks.len() > 0 {
        let bank = banks.last();
        let p = slot_numbered(slot);
        if bank.component_id == component_id && sequence::find_last(bank.slots, p) is Some {
            let s = sequence::lemma_find_last_some(bank.slots, p);
            assert(banks[banks.len() - 1].slots[s].slot == slot);
        } else {
            let front = banks.drop_last();
            lemma_resident_slot_found(front, component_id, slot);
            if resident_slot(front, component_id, slot) is Some {
                let found = resident_slot(front, component_id, slot)->Some_0;
                let (b, s) = choose|b: int, s: int|
                    0 <= b < front.len() && 0 <= s < front[b].slots.len() && (
                    #[trigger] front[b].slots[s]) == found && front[b].component_id == component_id
                        && found.slot == slot;
                assert(banks[b].slots[s] == found);
            }
        }
    }
}

/// A descriptor resolves to the address of what it stands for.
pub proof fn descriptors_resolve_to_what_they_stand_for(
    command: VulkanKernelDispatchCommandView,
    descriptor: VulkanKernelDescriptorBindingView,
    plan: VulkanStreamCircuitResidentPlanView,
    layouts: Seq<VulkanTransientStateBufferLayoutView>,
)
    requires
        resource_address(command, descriptor, plan, layouts) is Ok,
    ensures
        is_address_of(
            descriptor.resource,
            resource_address(command, descriptor, plan, layouts)->Ok_0,
            plan,
            layouts,
        ),
{
    reveal(resource_address);
    match descriptor.resource {
        VulkanKernelDescriptorResourceView::Parameter(parameter) => {
            let i = sequence::lemma_find_last_some(
                plan.permanent_parameters,
                parameter_of(parameter.tensor),
            );
            assert(plan.permanent_parameters[i].tensor == parameter.tensor);
        },
        VulkanKernelDescriptorResourceView::State { component_id, binding } => {
            lemma_resident_state_found(
                plan.stream_state_buffers,
                layouts,
                component_id,
                binding.state_id,
            );
        },
        VulkanKernelDescriptorResourceView::Signal(signal) => match signal.resource {
            VulkanSignalResourceView::ActivationSlot { component_id, slot, .. } => {
                lemma_resident_slot_found(plan.activation_banks, component_id, slot);
            },
            VulkanSignalResourceView::StateBuffer { component_id, state_id, .. } => {
                lemma_resident_state_found(
                    plan.stream_state_buffers,
                    layouts,
                    component_id,
                    state_id,
                );
            },
            VulkanSignalResourceView::StateView { component_id, state_id, .. } => {
                lemma_resident_state_found(
                    plan.stream_state_buffers,
                    layouts,
                    component_id,
                    state_id,
                );
            },
            _ => {},
        },
    }
}

/// The resolved descriptors of a launch carry its names, and each of them its own number, usage and
/// name; all of them are counted.
pub proof fn resolving_keeps_the_names(
    dispatch_plan: VulkanKernelDispatchPlanView,
    plan: VulkanStreamCircuitResidentPlanView,
    capacity: usize,
    layouts: Seq<VulkanTransientStateBufferLayoutView>,
    i: int,
    j: int,
)
    requires
        descriptor_resources(dispatch_plan, plan, capacity, layouts) is Ok,
        0 <= i < dispatch_plan.commands.len(),
        0 <= j < dispatch_plan.commands[i].descriptor_bindings.len(),
        sequence::total(dispatch_plan.commands, binding_count()) <= usize::MAX,
    ensures
        ({
            let resolved = descriptor_resources(dispatch_plan, plan, capacity, layouts)->Ok_0;
            let command = dispatch_plan.commands[i];
            let launch = resolved.dispatches[i];
            &&& resolved.dynamic_state_capacity_activations == capacity
            &&& resolved.total_descriptor_count == sequence::total(
                dispatch_plan.commands,
                binding_count(),
            )
            &&& launch.kernel_id == command.kernel_id
            &&& launch.component_id == command.component_id
            &&& launch.node_id == command.node_id
            &&& launch.op == command.op
            &&& launch.descriptors[j].usage == command.descriptor_bindings[j].usage
            &&& launch.descriptors[j].name == command.descriptor_bindings[j].name
        }),
{
    reveal(descriptor_resources);
    let command = dispatch_plan.commands[i];
    sequence::lemma_try_map_ok(dispatch_plan.commands, resolve_command(plan, layouts));
    assert(resolve_command(plan, layouts)(dispatch_plan.commands[i]) is Ok);
    sequence::lemma_try_map_ok(
        command.descriptor_bindings,
        resolve_step(command, plan, layouts),
    );
    assert(resolve_step(command, plan, layouts)(command.descriptor_bindings[j]) is Ok);
}

/// A resolved dispatch is found by its component and its node: the first that has both, and none where
/// none has.
pub proof fn resolved_dispatches_are_found_by_name(
    all: Seq<VulkanDispatchDescriptorResourcePlanView>,
    component_id: Seq<char>,
    node_id: Seq<char>,
    j: int,
)
    ensures
        match sequence::find_first(all, resolved_dispatch_named(component_id, node_id)) {
            Some(found) => exists|i: int|
                {
                    &&& 0 <= i < all.len()
                    &&& found == #[trigger] all[i]
                    &&& all[i].component_id == component_id
                    &&& all[i].node_id == node_id
                    &&& 0 <= j < i ==> !(all[j].component_id == component_id && all[j].node_id == node_id)
                },
            None => 0 <= j < all.len() ==> !(all[j].component_id == component_id && all[j].node_id == node_id),
        },
{
    let p = resolved_dispatch_named(component_id, node_id);
    if 0 <= j < all.len() {
        assert(p(all[j]) <==> all[j].component_id == component_id && all[j].node_id == node_id);
    }
    if sequence::find_first(all, p) is Some {
        let i = sequence::lemma_find_first_some(all, p);
        assert(p(all[i]));
        assert(sequence::find_first(all, p)->Some_0 == all[i]);
    } else {
        sequence::lemma_find_none_all(all, p);
    }
}

} // verus!
