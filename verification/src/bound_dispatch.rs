//! Launches bound to the buffers of a stream, and to the edges of the device that hosts them.

use crate::descriptor_resources::VulkanDescriptorResourceAddress;
use crate::descriptor_resources::VulkanDescriptorResourceAddressView;
use crate::descriptor_resources::VulkanResolvedDescriptorBinding;
use crate::descriptor_resources::VulkanResolvedDescriptorBindingView;
use crate::dispatch_plan;
use crate::dispatch_plan::VulkanPreparedDispatch;
use crate::dispatch_plan::VulkanPreparedDispatchPlan;
use crate::dispatch_plan::VulkanPreparedDispatchPlanError;
use crate::dispatch_plan::VulkanPreparedDispatchPlanErrorView;
use crate::dispatch_plan::VulkanPreparedDispatchPlanView;
use crate::dispatch_plan::VulkanPreparedDispatchView;
use crate::edges::buffers::VulkanPlacedEdgeDirection;
use crate::edges::plan as edge_plan;
use crate::kernel_interface;
use crate::kernel_interface::VulkanKernelDescriptorUsage;
use crate::kernel_interface::VulkanKernelScalarBinding;
use crate::kernel_interface::VulkanKernelScalarBindingView;
use crate::placement::ComponentEdgePlacement;
use crate::placement::ComponentEdgePlacementView;
use crate::resident_plan;
use crate::resident_plan::VulkanPlacedStreamCircuitResidentPlan;
use crate::resident_plan::VulkanPlacedStreamCircuitResidentPlanView;
use crate::resident_plan::VulkanStreamCircuitStreamBuffers;
use crate::resident_plan::VulkanStreamCircuitStreamBuffersView;
use crate::sequence;
use crate::text;
use crate::text::Message;
use vstd::prelude::*;

verus! {

/// What a descriptor is bound to on the device.
#[derive(Debug, PartialEq, Eq)]
pub enum VulkanBoundDescriptorTarget {
    BoundaryInput { signal_id: String },
    BoundaryOutput { signal_id: String },
    PermanentParameter { param_id: String, tensor: String, byte_count: Option<usize> },
    ActivationSlot {
        buffer_index: usize,
        component_id: String,
        signal_id: String,
        circuit_id: String,
        slot: usize,
        byte_capacity: usize,
        signal_byte_capacity: usize,
    },
    StreamStateBuffer {
        buffer_index: usize,
        component_id: String,
        state_id: String,
        state_type: String,
        byte_capacity: usize,
        static_bytes: Option<usize>,
        bytes_per_activation: Option<usize>,
    },
    StreamStateView {
        buffer_index: usize,
        component_id: String,
        state_id: String,
        state_type: String,
        byte_capacity: usize,
        static_bytes: Option<usize>,
        bytes_per_activation: Option<usize>,
    },
}

#[verifier::ext_equal]
pub enum VulkanBoundDescriptorTargetView {
    BoundaryInput { signal_id: Seq<char> },
    BoundaryOutput { signal_id: Seq<char> },
    PermanentParameter { param_id: Seq<char>, tensor: Seq<char>, byte_count: Option<usize> },
    ActivationSlot { buffer_index: usize, component_id: Seq<char>, signal_id: Seq<char>, circuit_id: Seq<char>, slot: usize, byte_capacity: usize, signal_byte_capacity: usize },
    StreamStateBuffer { buffer_index: usize, component_id: Seq<char>, state_id: Seq<char>, state_type: Seq<char>, byte_capacity: usize, static_bytes: Option<usize>, bytes_per_activation: Option<usize> },
    StreamStateView { buffer_index: usize, component_id: Seq<char>, state_id: Seq<char>, state_type: Seq<char>, byte_capacity: usize, static_bytes: Option<usize>, bytes_per_activation: Option<usize> },
}

impl DeepView for VulkanBoundDescriptorTarget {
    type V = VulkanBoundDescriptorTargetView;

    open spec fn deep_view(&self) -> VulkanBoundDescriptorTargetView {
        match self {
            VulkanBoundDescriptorTarget::BoundaryInput { signal_id } => VulkanBoundDescriptorTargetView::BoundaryInput { signal_id: signal_id.deep_view() },
            VulkanBoundDescriptorTarget::BoundaryOutput { signal_id } => VulkanBoundDescriptorTargetView::BoundaryOutput { signal_id: signal_id.deep_view() },
            VulkanBoundDescriptorTarget::PermanentParameter { param_id, tensor, byte_count } => VulkanBoundDescriptorTargetView::PermanentParameter { param_id: param_id.deep_view(), tensor: tensor.deep_view(), byte_count: *byte_count },
            VulkanBoundDescriptorTarget::ActivationSlot { buffer_index, component_id, signal_id, circuit_id, slot, byte_capacity, signal_byte_capacity } => VulkanBoundDescriptorTargetView::ActivationSlot { buffer_index: *buffer_index, component_id: component_id.deep_view(), signal_id: signal_id.deep_view(), circuit_id: circuit_id.deep_view(), slot: *slot, byte_capacity: *byte_capacity, signal_byte_capacity: *signal_byte_capacity },
            VulkanBoundDescriptorTarget::StreamStateBuffer { buffer_index, component_id, state_id, state_type, byte_capacity, static_bytes, bytes_per_activation } => VulkanBoundDescriptorTargetView::StreamStateBuffer { buffer_index: *buffer_index, component_id: component_id.deep_view(), state_id: state_id.deep_view(), state_type: state_type.deep_view(), byte_capacity: *byte_capacity, static_bytes: *static_bytes, bytes_per_activation: *bytes_per_activation },
            VulkanBoundDescriptorTarget::StreamStateView { buffer_index, component_id, state_id, state_type, byte_capacity, static_bytes, bytes_per_activation } => VulkanBoundDescriptorTargetView::StreamStateView { buffer_index: *buffer_index, component_id: component_id.deep_view(), state_id: state_id.deep_view(), state_type: state_type.deep_view(), byte_capacity: *byte_capacity, static_bytes: *static_bytes, bytes_per_activation: *bytes_per_activation },
        }
    }
}

impl View for VulkanBoundDescriptorTarget {
    type V = VulkanBoundDescriptorTargetView;

    open spec fn view(&self) -> VulkanBoundDescriptorTargetView {
        self.deep_view()
    }
}

impl Clone for VulkanBoundDescriptorTarget {
    fn clone(&self) -> (r: Self)
        ensures
            r@ == self@,
    {
        match self {
            VulkanBoundDescriptorTarget::BoundaryInput { signal_id } => VulkanBoundDescriptorTarget::BoundaryInput { signal_id: signal_id.clone() },
            VulkanBoundDescriptorTarget::BoundaryOutput { signal_id } => VulkanBoundDescriptorTarget::BoundaryOutput { signal_id: signal_id.clone() },
            VulkanBoundDescriptorTarget::PermanentParameter { param_id, tensor, byte_count } => VulkanBoundDescriptorTarget::PermanentParameter { param_id: param_id.clone(), tensor: tensor.clone(), byte_count: byte_count.clone() },
            VulkanBoundDescriptorTarget::ActivationSlot { buffer_index, component_id, signal_id, circuit_id, slot, byte_capacity, signal_byte_capacity } => VulkanBoundDescriptorTarget::ActivationSlot { buffer_index: *buffer_index, component_id: component_id.clone(), signal_id: signal_id.clone(), circuit_id: circuit_id.clone(), slot: *slot, byte_capacity: *byte_capacity, signal_byte_capacity: *signal_byte_capacity },
            VulkanBoundDescriptorTarget::StreamStateBuffer { buffer_index, component_id, state_id, state_type, byte_capacity, static_bytes, bytes_per_activation } => VulkanBoundDescriptorTarget::StreamStateBuffer { buffer_index: *buffer_index, component_id: component_id.clone(), state_id: state_id.clone(), state_type: state_type.clone(), byte_capacity: *byte_capacity, static_bytes: static_bytes.clone(), bytes_per_activation: bytes_per_activation.clone() },
            VulkanBoundDescriptorTarget::StreamStateView { buffer_index, component_id, state_id, state_type, byte_capacity, static_bytes, bytes_per_activation } => VulkanBoundDescriptorTarget::StreamStateView { buffer_index: *buffer_index, component_id: component_id.clone(), state_id: state_id.clone(), state_type: state_type.clone(), byte_capacity: *byte_capacity, static_bytes: static_bytes.clone(), bytes_per_activation: bytes_per_activation.clone() },
        }
    }
}

/// A descriptor with what it is bound to.
#[derive(Debug, PartialEq, Eq)]
pub struct VulkanBoundDescriptor {
    pub binding: usize,
    pub usage: VulkanKernelDescriptorUsage,
    pub name: String,
    pub target: VulkanBoundDescriptorTarget,
}

#[verifier::ext_equal]
pub struct VulkanBoundDescriptorView {
    pub binding: usize,
    pub usage: VulkanKernelDescriptorUsage,
    pub name: Seq<char>,
    pub target: VulkanBoundDescriptorTargetView,
}

impl DeepView for VulkanBoundDescriptor {
    type V = VulkanBoundDescriptorView;

    open spec fn deep_view(&self) -> VulkanBoundDescriptorView {
        VulkanBoundDescriptorView {
            binding: self.binding,
            usage: self.usage,
            name: self.name.deep_view(),
            target: self.target.deep_view(),
        }
    }
}

impl View for VulkanBoundDescriptor {
    type V = VulkanBoundDescriptorView;

    open spec fn view(&self) -> VulkanBoundDescriptorView {
        self.deep_view()
    }
}

impl Clone for VulkanBoundDescriptor {
    fn clone(&self) -> (r: Self)
        ensures
            r@ == self@,
    {
        VulkanBoundDescriptor {
            binding: self.binding,
            usage: self.usage,
            name: self.name.clone(),
            target: self.target.clone(),
        }
    }
}

/// A launch with its bound descriptors.
#[derive(Debug, PartialEq, Eq)]
pub struct VulkanBoundDispatch {
    pub dispatch_index: usize,
    pub kernel_id: String,
    pub component_id: String,
    pub circuit_id: String,
    pub node_index: usize,
    pub node_id: String,
    pub op: String,
    pub reusable_family_id: String,
    pub artifact_path: String,
    pub entry_point: String,
    pub local_size_x: u32,
    pub descriptors: Vec<VulkanBoundDescriptor>,
    pub push_constants: Vec<VulkanKernelScalarBinding>,
    pub uses_stream_tick: bool,
}

#[verifier::ext_equal]
pub struct VulkanBoundDispatchView {
    pub dispatch_index: usize,
    pub kernel_id: Seq<char>,
    pub component_id: Seq<char>,
    pub circuit_id: Seq<char>,
    pub node_index: usize,
    pub node_id: Seq<char>,
    pub op: Seq<char>,
    pub reusable_family_id: Seq<char>,
    pub artifact_path: Seq<char>,
    pub entry_point: Seq<char>,
    pub local_size_x: u32,
    pub descriptors: Seq<VulkanBoundDescriptorView>,
    pub push_constants: Seq<VulkanKernelScalarBindingView>,
    pub uses_stream_tick: bool,
}

impl DeepView for VulkanBoundDispatch {
    type V = VulkanBoundDispatchView;

    open spec fn deep_view(&self) -> VulkanBoundDispatchView {
        VulkanBoundDispatchView {
            dispatch_index: self.dispatch_index,
            kernel_id: self.kernel_id.deep_view(),
            component_id: self.component_id.deep_view(),
            circuit_id: self.circuit_id.deep_view(),
            node_index: self.node_index,
            node_id: self.node_id.deep_view(),
            op: self.op.deep_view(),
            reusable_family_id: self.reusable_family_id.deep_view(),
            artifact_path: self.artifact_path.deep_view(),
            entry_point: self.entry_point.deep_view(),
            local_size_x: self.local_size_x,
            descriptors: self.descriptors.deep_view(),
            push_constants: self.push_constants.deep_view(),
            uses_stream_tick: self.uses_stream_tick,
        }
    }
}

impl View for VulkanBoundDispatch {
    type V = VulkanBoundDispatchView;

    open spec fn view(&self) -> VulkanBoundDispatchView {
        self.deep_view()
    }
}

impl Clone for VulkanBoundDispatch {
    fn clone(&self) -> (r: Self)
        ensures
            r@ == self@,
    {
        VulkanBoundDispatch {
            dispatch_index: self.dispatch_index,
            kernel_id: self.kernel_id.clone(),
            component_id: self.component_id.clone(),
            circuit_id: self.circuit_id.clone(),
            node_index: self.node_index,
            node_id: self.node_id.clone(),
            op: self.op.clone(),
            reusable_family_id: self.reusable_family_id.clone(),
            artifact_path: self.artifact_path.clone(),
            entry_point: self.entry_point.clone(),
            local_size_x: self.local_size_x,
            descriptors: self.descriptors.clone(),
            push_constants: self.push_constants.clone(),
            uses_stream_tick: self.uses_stream_tick,
        }
    }
}

/// Why launches cannot be bound to buffers.
#[derive(Debug, PartialEq, Eq)]
pub enum VulkanBoundDispatchPlanError {
    PreparedDispatch(VulkanPreparedDispatchPlanError),
    EdgeIoDeviceMismatch {
        plan_device_id: String,
        edge_io_device_id: String,
    },
    MissingStateBuffer {
        dispatch_index: usize,
        binding: usize,
        component_id: String,
        state_id: String,
    },
    MissingActivationSlotBuffer {
        dispatch_index: usize,
        binding: usize,
        component_id: String,
        slot: usize,
    },
    MissingEdgeEndpointBuffer {
        dispatch_index: usize,
        binding: usize,
        direction: VulkanPlacedEdgeDirection,
        edge_index: usize,
    },
    MissingLocalEdgeBuffer {
        dispatch_index: usize,
        binding: usize,
        edge_index: usize,
    },
    ByteCapacityMismatch {
        dispatch_index: usize,
        binding: usize,
        expected_byte_capacity: usize,
        mounted_byte_capacity: usize,
    },
    LocalEdgeByteCapacityMismatch {
        dispatch_index: usize,
        binding: usize,
        edge_index: usize,
        edge_byte_capacity: Option<usize>,
        mounted_byte_capacity: usize,
    },
    EdgeEndpointByteCapacityMismatch {
        dispatch_index: usize,
        binding: usize,
        edge_index: usize,
        endpoint_byte_capacity: Option<usize>,
        mounted_byte_capacity: usize,
    },
}

#[verifier::ext_equal]
pub enum VulkanBoundDispatchPlanErrorView {
    PreparedDispatch(VulkanPreparedDispatchPlanErrorView),
    EdgeIoDeviceMismatch { plan_device_id: Seq<char>, edge_io_device_id: Seq<char> },
    MissingStateBuffer { dispatch_index: usize, binding: usize, component_id: Seq<char>, state_id: Seq<char> },
    MissingActivationSlotBuffer { dispatch_index: usize, binding: usize, component_id: Seq<char>, slot: usize },
    MissingEdgeEndpointBuffer { dispatch_index: usize, binding: usize, direction: VulkanPlacedEdgeDirection, edge_index: usize },
    MissingLocalEdgeBuffer { dispatch_index: usize, binding: usize, edge_index: usize },
    ByteCapacityMismatch { dispatch_index: usize, binding: usize, expected_byte_capacity: usize, mounted_byte_capacity: usize },
    LocalEdgeByteCapacityMismatch { dispatch_index: usize, binding: usize, edge_index: usize, edge_byte_capacity: Option<usize>, mounted_byte_capacity: usize },
    EdgeEndpointByteCapacityMismatch { dispatch_index: usize, binding: usize, edge_index: usize, endpoint_byte_capacity: Option<usize>, mounted_byte_capacity: usize },
}

impl DeepView for VulkanBoundDispatchPlanError {
    type V = VulkanBoundDispatchPlanErrorView;

    open spec fn deep_view(&self) -> VulkanBoundDispatchPlanErrorView {
        match self {
            VulkanBoundDispatchPlanError::PreparedDispatch(value) => VulkanBoundDispatchPlanErrorView::PreparedDispatch(value.deep_view()),
            VulkanBoundDispatchPlanError::EdgeIoDeviceMismatch { plan_device_id, edge_io_device_id } => VulkanBoundDispatchPlanErrorView::EdgeIoDeviceMismatch { plan_device_id: plan_device_id.deep_view(), edge_io_device_id: edge_io_device_id.deep_view() },
            VulkanBoundDispatchPlanError::MissingStateBuffer { dispatch_index, binding, component_id, state_id } => VulkanBoundDispatchPlanErrorView::MissingStateBuffer { dispatch_index: *dispatch_index, binding: *binding, component_id: component_id.deep_view(), state_id: state_id.deep_view() },
            VulkanBoundDispatchPlanError::MissingActivationSlotBuffer { dispatch_index, binding, component_id, slot } => VulkanBoundDispatchPlanErrorView::MissingActivationSlotBuffer { dispatch_index: *dispatch_index, binding: *binding, component_id: component_id.deep_view(), slot: *slot },
            VulkanBoundDispatchPlanError::MissingEdgeEndpointBuffer { dispatch_index, binding, direction, edge_index } => VulkanBoundDispatchPlanErrorView::MissingEdgeEndpointBuffer { dispatch_index: *dispatch_index, binding: *binding, direction: *direction, edge_index: *edge_index },
            VulkanBoundDispatchPlanError::MissingLocalEdgeBuffer { dispatch_index, binding, edge_index } => VulkanBoundDispatchPlanErrorView::MissingLocalEdgeBuffer { dispatch_index: *dispatch_index, binding: *binding, edge_index: *edge_index },
            VulkanBoundDispatchPlanError::ByteCapacityMismatch { dispatch_index, binding, expected_byte_capacity, mounted_byte_capacity } => VulkanBoundDispatchPlanErrorView::ByteCapacityMismatch { dispatch_index: *dispatch_index, binding: *binding, expected_byte_capacity: *expected_byte_capacity, mounted_byte_capacity: *mounted_byte_capacity },
            VulkanBoundDispatchPlanError::LocalEdgeByteCapacityMismatch { dispatch_index, binding, edge_index, edge_byte_capacity, mounted_byte_capacity } => VulkanBoundDispatchPlanErrorView::LocalEdgeByteCapacityMismatch { dispatch_index: *dispatch_index, binding: *binding, edge_index: *edge_index, edge_byte_capacity: *edge_byte_capacity, mounted_byte_capacity: *mounted_byte_capacity },
            VulkanBoundDispatchPlanError::EdgeEndpointByteCapacityMismatch { dispatch_index, binding, edge_index, endpoint_byte_capacity, mounted_byte_capacity } => VulkanBoundDispatchPlanErrorView::EdgeEndpointByteCapacityMismatch { dispatch_index: *dispatch_index, binding: *binding, edge_index: *edge_index, endpoint_byte_capacity: *endpoint_byte_capacity, mounted_byte_capacity: *mounted_byte_capacity },
        }
    }
}

impl View for VulkanBoundDispatchPlanError {
    type V = VulkanBoundDispatchPlanErrorView;

    open spec fn view(&self) -> VulkanBoundDispatchPlanErrorView {
        self.deep_view()
    }
}

impl Clone for VulkanBoundDispatchPlanError {
    fn clone(&self) -> (r: Self)
        ensures
            r@ == self@,
    {
        match self {
            VulkanBoundDispatchPlanError::PreparedDispatch(value) => VulkanBoundDispatchPlanError::PreparedDispatch(value.clone()),
            VulkanBoundDispatchPlanError::EdgeIoDeviceMismatch { plan_device_id, edge_io_device_id } => VulkanBoundDispatchPlanError::EdgeIoDeviceMismatch { plan_device_id: plan_device_id.clone(), edge_io_device_id: edge_io_device_id.clone() },
            VulkanBoundDispatchPlanError::MissingStateBuffer { dispatch_index, binding, component_id, state_id } => VulkanBoundDispatchPlanError::MissingStateBuffer { dispatch_index: *dispatch_index, binding: *binding, component_id: component_id.clone(), state_id: state_id.clone() },
            VulkanBoundDispatchPlanError::MissingActivationSlotBuffer { dispatch_index, binding, component_id, slot } => VulkanBoundDispatchPlanError::MissingActivationSlotBuffer { dispatch_index: *dispatch_index, binding: *binding, component_id: component_id.clone(), slot: *slot },
            VulkanBoundDispatchPlanError::MissingEdgeEndpointBuffer { dispatch_index, binding, direction, edge_index } => VulkanBoundDispatchPlanError::MissingEdgeEndpointBuffer { dispatch_index: *dispatch_index, binding: *binding, direction: *direction, edge_index: *edge_index },
            VulkanBoundDispatchPlanError::MissingLocalEdgeBuffer { dispatch_index, binding, edge_index } => VulkanBoundDispatchPlanError::MissingLocalEdgeBuffer { dispatch_index: *dispatch_index, binding: *binding, edge_index: *edge_index },
            VulkanBoundDispatchPlanError::ByteCapacityMismatch { dispatch_index, binding, expected_byte_capacity, mounted_byte_capacity } => VulkanBoundDispatchPlanError::ByteCapacityMismatch { dispatch_index: *dispatch_index, binding: *binding, expected_byte_capacity: *expected_byte_capacity, mounted_byte_capacity: *mounted_byte_capacity },
            VulkanBoundDispatchPlanError::LocalEdgeByteCapacityMismatch { dispatch_index, binding, edge_index, edge_byte_capacity, mounted_byte_capacity } => VulkanBoundDispatchPlanError::LocalEdgeByteCapacityMismatch { dispatch_index: *dispatch_index, binding: *binding, edge_index: *edge_index, edge_byte_capacity: edge_byte_capacity.clone(), mounted_byte_capacity: *mounted_byte_capacity },
            VulkanBoundDispatchPlanError::EdgeEndpointByteCapacityMismatch { dispatch_index, binding, edge_index, endpoint_byte_capacity, mounted_byte_capacity } => VulkanBoundDispatchPlanError::EdgeEndpointByteCapacityMismatch { dispatch_index: *dispatch_index, binding: *binding, edge_index: *edge_index, endpoint_byte_capacity: endpoint_byte_capacity.clone(), mounted_byte_capacity: *mounted_byte_capacity },
        }
    }
}

/// What is said of a binding that failed.
pub open spec fn binding_message(error: VulkanBoundDispatchPlanErrorView) -> Seq<char> {
    match error {
        VulkanBoundDispatchPlanErrorView::PreparedDispatch(error) => dispatch_plan::preparation_message(error),
        VulkanBoundDispatchPlanErrorView::EdgeIoDeviceMismatch { plan_device_id, edge_io_device_id } => {
            "placed bound plan for device "@ + text::quoted(plan_device_id) + " cannot bind edge I/O for device "@ + text::quoted(edge_io_device_id)
        },
        VulkanBoundDispatchPlanErrorView::MissingStateBuffer { dispatch_index, binding, component_id, state_id } => {
            "dispatch "@ + text::decimal(dispatch_index as nat) + " descriptor "@ + text::decimal(binding as nat) + " references missing stream state buffer "@ + component_id + "."@ + state_id
        },
        VulkanBoundDispatchPlanErrorView::MissingActivationSlotBuffer { dispatch_index, binding, component_id, slot } => {
            "dispatch "@ + text::decimal(dispatch_index as nat) + " descriptor "@ + text::decimal(binding as nat) + " references missing activation slot buffer "@ + component_id + ".slot_"@ + text::decimal(slot as nat)
        },
        VulkanBoundDispatchPlanErrorView::MissingEdgeEndpointBuffer { dispatch_index, binding, direction, edge_index } => {
            "dispatch "@ + text::decimal(dispatch_index as nat) + " descriptor "@ + text::decimal(binding as nat) + " references missing "@ + edge_plan::direction_name(direction) + " edge endpoint buffer for edge "@ + text::decimal(edge_index as nat)
        },
        VulkanBoundDispatchPlanErrorView::MissingLocalEdgeBuffer { dispatch_index, binding, edge_index } => {
            "dispatch "@ + text::decimal(dispatch_index as nat) + " descriptor "@ + text::decimal(binding as nat) + " references missing local edge buffer for edge "@ + text::decimal(edge_index as nat)
        },
        VulkanBoundDispatchPlanErrorView::ByteCapacityMismatch { dispatch_index, binding, expected_byte_capacity, mounted_byte_capacity } => {
            "dispatch "@ + text::decimal(dispatch_index as nat) + " descriptor "@ + text::decimal(binding as nat) + " expects "@ + text::decimal(expected_byte_capacity as nat) + " bytes but mounted buffer has "@ + text::decimal(mounted_byte_capacity as nat) + " bytes"@
        },
        VulkanBoundDispatchPlanErrorView::LocalEdgeByteCapacityMismatch { dispatch_index, binding, edge_index, edge_byte_capacity, mounted_byte_capacity } => {
            "dispatch "@ + text::decimal(dispatch_index as nat) + " descriptor "@ + text::decimal(binding as nat) + " local edge "@ + text::decimal(edge_index as nat) + " expects "@ + text::number_option(edge_byte_capacity) + " bytes but mounted buffer has "@ + text::decimal(mounted_byte_capacity as nat) + " bytes"@
        },
        VulkanBoundDispatchPlanErrorView::EdgeEndpointByteCapacityMismatch { dispatch_index, binding, edge_index, endpoint_byte_capacity, mounted_byte_capacity } => {
            "dispatch "@ + text::decimal(dispatch_index as nat) + " descriptor "@ + text::decimal(binding as nat) + " edge "@ + text::decimal(edge_index as nat) + " endpoint expects "@ + text::number_option(endpoint_byte_capacity) + " bytes but mounted buffer has "@ + text::decimal(mounted_byte_capacity as nat) + " bytes"@
        },
    }
}

impl VulkanBoundDispatchPlanError {
    /// What is wrong.
    pub fn to_string(&self) -> (r: String)
        ensures
            r@ == binding_message(self@),
    {
        match self {
            VulkanBoundDispatchPlanError::PreparedDispatch(error) => error.to_string(),
            VulkanBoundDispatchPlanError::EdgeIoDeviceMismatch { plan_device_id, edge_io_device_id } => {
                Message::new("placed bound plan for device ").quoted(plan_device_id.as_str()).text(" cannot bind edge I/O for device ").quoted(edge_io_device_id.as_str()).done()
            },
            VulkanBoundDispatchPlanError::MissingStateBuffer { dispatch_index, binding, component_id, state_id } => {
                Message::new("dispatch ").number(*dispatch_index).text(" descriptor ").number(*binding).text(" references missing stream state buffer ").text(component_id.as_str()).text(".").text(state_id.as_str()).done()
            },
            VulkanBoundDispatchPlanError::MissingActivationSlotBuffer { dispatch_index, binding, component_id, slot } => {
                Message::new("dispatch ").number(*dispatch_index).text(" descriptor ").number(*binding).text(" references missing activation slot buffer ").text(component_id.as_str()).text(".slot_").number(*slot).done()
            },
            VulkanBoundDispatchPlanError::MissingEdgeEndpointBuffer { dispatch_index, binding, direction, edge_index } => {
                Message::new("dispatch ").number(*dispatch_index).text(" descriptor ").number(*binding).text(" references missing ").text(edge_plan::name_of_direction(*direction)).text(" edge endpoint buffer for edge ").number(*edge_index).done()
            },
            VulkanBoundDispatchPlanError::MissingLocalEdgeBuffer { dispatch_index, binding, edge_index } => {
                Message::new("dispatch ").number(*dispatch_index).text(" descriptor ").number(*binding).text(" references missing local edge buffer for edge ").number(*edge_index).done()
            },
            VulkanBoundDispatchPlanError::ByteCapacityMismatch { dispatch_index, binding, expected_byte_capacity, mounted_byte_capacity } => {
                Message::new("dispatch ").number(*dispatch_index).text(" descriptor ").number(*binding).text(" expects ").number(*expected_byte_capacity).text(" bytes but mounted buffer has ").number(*mounted_byte_capacity).text(" bytes").done()
            },
            VulkanBoundDispatchPlanError::LocalEdgeByteCapacityMismatch { dispatch_index, binding, edge_index, edge_byte_capacity, mounted_byte_capacity } => {
                Message::new("dispatch ").number(*dispatch_index).text(" descriptor ").number(*binding).text(" local edge ").number(*edge_index).text(" expects ").number_option(*edge_byte_capacity).text(" bytes but mounted buffer has ").number(*mounted_byte_capacity).text(" bytes").done()
            },
            VulkanBoundDispatchPlanError::EdgeEndpointByteCapacityMismatch { dispatch_index, binding, edge_index, endpoint_byte_capacity, mounted_byte_capacity } => {
                Message::new("dispatch ").number(*dispatch_index).text(" descriptor ").number(*binding).text(" edge ").number(*edge_index).text(" endpoint expects ").number_option(*endpoint_byte_capacity).text(" bytes but mounted buffer has ").number(*mounted_byte_capacity).text(" bytes").done()
            },
        }
    }
}

/// The bound launches of a stream, with the number of descriptors of each sort.
#[derive(Debug, PartialEq, Eq)]
pub struct VulkanBoundDispatchPlan {
    pub backend_id: String,
    pub dispatches: Vec<VulkanBoundDispatch>,
    pub total_descriptor_count: usize,
    pub boundary_descriptor_count: usize,
    pub permanent_parameter_descriptor_count: usize,
    pub stream_state_descriptor_count: usize,
    pub activation_slot_descriptor_count: usize,
}

#[verifier::ext_equal]
pub struct VulkanBoundDispatchPlanView {
    pub backend_id: Seq<char>,
    pub dispatches: Seq<VulkanBoundDispatchView>,
    pub total_descriptor_count: usize,
    pub boundary_descriptor_count: usize,
    pub permanent_parameter_descriptor_count: usize,
    pub stream_state_descriptor_count: usize,
    pub activation_slot_descriptor_count: usize,
}

impl DeepView for VulkanBoundDispatchPlan {
    type V = VulkanBoundDispatchPlanView;

    open spec fn deep_view(&self) -> VulkanBoundDispatchPlanView {
        VulkanBoundDispatchPlanView {
            backend_id: self.backend_id.deep_view(),
            dispatches: self.dispatches.deep_view(),
            total_descriptor_count: self.total_descriptor_count,
            boundary_descriptor_count: self.boundary_descriptor_count,
            permanent_parameter_descriptor_count: self.permanent_parameter_descriptor_count,
            stream_state_descriptor_count: self.stream_state_descriptor_count,
            activation_slot_descriptor_count: self.activation_slot_descriptor_count,
        }
    }
}

impl View for VulkanBoundDispatchPlan {
    type V = VulkanBoundDispatchPlanView;

    open spec fn view(&self) -> VulkanBoundDispatchPlanView {
        self.deep_view()
    }
}

impl Clone for VulkanBoundDispatchPlan {
    fn clone(&self) -> (r: Self)
        ensures
            r@ == self@,
    {
        VulkanBoundDispatchPlan {
            backend_id: self.backend_id.clone(),
            dispatches: self.dispatches.clone(),
            total_descriptor_count: self.total_descriptor_count,
            boundary_descriptor_count: self.boundary_descriptor_count,
            permanent_parameter_descriptor_count: self.permanent_parameter_descriptor_count,
            stream_state_descriptor_count: self.stream_state_descriptor_count,
            activation_slot_descriptor_count: self.activation_slot_descriptor_count,
        }
    }
}

/// The error where a buffer does not have the expected size.
pub open spec fn capacity_mismatch(
    dispatch: VulkanPreparedDispatchView,
    descriptor: VulkanResolvedDescriptorBindingView,
    expected: usize,
    mounted: usize,
) -> Option<VulkanBoundDispatchPlanErrorView> {
    if expected != mounted {
        Some(
            VulkanBoundDispatchPlanErrorView::ByteCapacityMismatch {
                dispatch_index: dispatch.dispatch_index,
                binding: descriptor.binding,
                expected_byte_capacity: expected,
                mounted_byte_capacity: mounted,
            },
        )
    } else {
        None
    }
}

/// What a resolved descriptor is bound to.
#[verifier::opaque]
pub open spec fn bound_target(
    dispatch: VulkanPreparedDispatchView,
    descriptor: VulkanResolvedDescriptorBindingView,
    buffers: VulkanStreamCircuitStreamBuffersView,
) -> Result<VulkanBoundDescriptorTargetView, VulkanBoundDispatchPlanErrorView> {
    match descriptor.resource {
        VulkanDescriptorResourceAddressView::BoundaryInput { signal_id } => Ok(
            VulkanBoundDescriptorTargetView::BoundaryInput { signal_id },
        ),
        VulkanDescriptorResourceAddressView::BoundaryOutput { signal_id } => Ok(
            VulkanBoundDescriptorTargetView::BoundaryOutput { signal_id },
        ),
        VulkanDescriptorResourceAddressView::PermanentParameter { param_id, tensor, byte_count } => Ok(
            VulkanBoundDescriptorTargetView::PermanentParameter { param_id, tensor, byte_count },
        ),
        VulkanDescriptorResourceAddressView::ActivationSlot {
            component_id,
            signal_id,
            slot,
            byte_capacity,
            signal_byte_capacity,
        } => match sequence::first_position(
            buffers.activation_slot_buffers,
            resident_plan::slot_matcher(component_id, slot),
        ) {
            None => Err(
                VulkanBoundDispatchPlanErrorView::MissingActivationSlotBuffer {
                    dispatch_index: dispatch.dispatch_index,
                    binding: descriptor.binding,
                    component_id,
                    slot,
                },
            ),
            Some(i) => match capacity_mismatch(
                dispatch,
                descriptor,
                byte_capacity,
                buffers.activation_slot_buffers[i].byte_capacity,
            ) {
                Some(error) => Err(error),
                None => Ok(
                    VulkanBoundDescriptorTargetView::ActivationSlot {
                        buffer_index: i as usize,
                        component_id,
                        signal_id,
                        circuit_id: buffers.activation_slot_buffers[i].circuit_id,
                        slot,
                        byte_capacity,
                        signal_byte_capacity,
                    },
                ),
            },
        },
        VulkanDescriptorResourceAddressView::StateBuffer {
            component_id,
            state_id,
            state_type,
            byte_capacity,
            static_bytes,
            bytes_per_activation,
        } => match sequence::first_position(
            buffers.state_buffers,
            resident_plan::state_matcher(component_id, state_id),
        ) {
            None => Err(
                VulkanBoundDispatchPlanErrorView::MissingStateBuffer {
                    dispatch_index: dispatch.dispatch_index,
                    binding: descriptor.binding,
                    component_id,
                    state_id,
                },
            ),
            Some(i) => match capacity_mismatch(
                dispatch,
                descriptor,
                byte_capacity,
                buffers.state_buffers[i].byte_capacity,
            ) {
                Some(error) => Err(error),
                None => Ok(
                    VulkanBoundDescriptorTargetView::StreamStateBuffer {
                        buffer_index: i as usize,
                        component_id,
                        state_id,
                        state_type,
                        byte_capacity,
                        static_bytes,
                        bytes_per_activation,
                    },
                ),
            },
        },
        VulkanDescriptorResourceAddressView::StateView {
            component_id,
            state_id,
            state_type,
            byte_capacity,
            static_bytes,
            bytes_per_activation,
        } => match sequence::first_position(
            buffers.state_buffers,
            resident_plan::state_matcher(component_id, state_id),
        ) {
            None => Err(
                VulkanBoundDispatchPlanErrorView::MissingStateBuffer {
                    dispatch_index: dispatch.dispatch_index,
                    binding: descriptor.binding,
                    component_id,
                    state_id,
                },
            ),
            Some(i) => match capacity_mismatch(
                dispatch,
                descriptor,
                byte_capacity,
                buffers.state_buffers[i].byte_capacity,
            ) {
                Some(error) => Err(error),
                None => Ok(
                    VulkanBoundDescriptorTargetView::StreamStateView {
                        buffer_index: i as usize,
                        component_id,
                        state_id,
                        state_type,
                        byte_capacity,
                        static_bytes,
                        bytes_per_activation,
                    },
                ),
            },
        },
    }
}

fn validate_bound_byte_capacity(
    dispatch: &VulkanPreparedDispatch,
    descriptor: &VulkanResolvedDescriptorBinding,
    expected_byte_capacity: usize,
    mounted_byte_capacity: usize,
) -> (r: Result<(), VulkanBoundDispatchPlanError>)
    ensures
        sequence::outcome(r) == (match capacity_mismatch(
            dispatch@,
            descriptor@,
            expected_byte_capacity,
            mounted_byte_capacity,
        ) {
            Some(error) => Err::<(), VulkanBoundDispatchPlanErrorView>(error),
            None => Ok(()),
        }),
{
    if expected_byte_capacity != mounted_byte_capacity {
        return Err(
            VulkanBoundDispatchPlanError::ByteCapacityMismatch {
                dispatch_index: dispatch.dispatch_index,
                binding: descriptor.binding,
                expected_byte_capacity,
                mounted_byte_capacity,
            },
        );
    }
    Ok(())
}

impl VulkanBoundDescriptorTarget {
    /// What a resolved descriptor is bound to.
    pub fn from_resource(
        dispatch: &VulkanPreparedDispatch,
        descriptor: &VulkanResolvedDescriptorBinding,
        buffers: &VulkanStreamCircuitStreamBuffers,
    ) -> (r: Result<Self, VulkanBoundDispatchPlanError>)
        ensures
            sequence::outcome(r) == bound_target(dispatch@, descriptor@, buffers@),
    {
        reveal(bound_target);
        match &descriptor.resource {
            VulkanDescriptorResourceAddress::BoundaryInput { signal_id } => Ok(
                VulkanBoundDescriptorTarget::BoundaryInput { signal_id: signal_id.clone() },
            ),
            VulkanDescriptorResourceAddress::BoundaryOutput { signal_id } => Ok(
                VulkanBoundDescriptorTarget::BoundaryOutput { signal_id: signal_id.clone() },
            ),
            VulkanDescriptorResourceAddress::PermanentParameter { param_id, tensor, byte_count } => Ok(
                VulkanBoundDescriptorTarget::PermanentParameter {
                    param_id: param_id.clone(),
                    tensor: tensor.clone(),
                    byte_count: *byte_count,
                },
            ),
            VulkanDescriptorResourceAddress::ActivationSlot {
                component_id,
                signal_id,
                slot,
                byte_capacity,
                signal_byte_capacity,
            } => {
                let buffer_index: usize = match buffers.activation_slot_buffer_index(
                    component_id.as_str(),
                    *slot,
                ) {
                    None => {
                        return Err(
                            VulkanBoundDispatchPlanError::MissingActivationSlotBuffer {
                                dispatch_index: dispatch.dispatch_index,
                                binding: descriptor.binding,
                                component_id: component_id.clone(),
                                slot: *slot,
                            },
                        );
                    },
                    Some(buffer_index) => buffer_index,
                };
                let buffer = &buffers.activation_slot_buffers[buffer_index];
                proof {
                    sequence::lemma_first_position(
                        buffers@.activation_slot_buffers,
                        resident_plan::slot_matcher(component_id@, *slot),
                    );
                    assert(buffers@.activation_slot_buffers[buffer_index as int] == buffer@);
                    assert(buffers@.activation_slot_buffers.len() == buffers.activation_slot_buffers.len());
                }
                match validate_bound_byte_capacity(
                    dispatch,
                    descriptor,
                    *byte_capacity,
                    buffer.byte_capacity,
                ) {
                    Err(error) => {
                        return Err(error);
                    },
                    Ok(()) => {},
                }
                Ok(
                    VulkanBoundDescriptorTarget::ActivationSlot {
                        buffer_index,
                        component_id: component_id.clone(),
                        signal_id: signal_id.clone(),
                        circuit_id: buffer.circuit_id.clone(),
                        slot: *slot,
                        byte_capacity: *byte_capacity,
                        signal_byte_capacity: *signal_byte_capacity,
                    },
                )
            },
            VulkanDescriptorResourceAddress::StateBuffer {
                component_id,
                state_id,
                state_type,
                byte_capacity,
                static_bytes,
                bytes_per_activation,
            } => {
                let buffer_index: usize = match buffers.state_buffer_index(
                    component_id.as_str(),
                    state_id.as_str(),
                ) {
                    None => {
                        return Err(
                            VulkanBoundDispatchPlanError::MissingStateBuffer {
                                dispatch_index: dispatch.dispatch_index,
                                binding: descriptor.binding,
                                component_id: component_id.clone(),
                                state_id: state_id.clone(),
                            },
                        );
                    },
                    Some(buffer_index) => buffer_index,
                };
                let buffer = &buffers.state_buffers[buffer_index];
                proof {
                    sequence::lemma_first_position(
                        buffers@.state_buffers,
                        resident_plan::state_matcher(component_id@, state_id@),
                    );
                    assert(buffers@.state_buffers[buffer_index as int] == buffer@);
                    assert(buffers@.state_buffers.len() == buffers.state_buffers.len());
                }
                match validate_bound_byte_capacity(
                    dispatch,
                    descriptor,
                    *byte_capacity,
                    buffer.byte_capacity,
                ) {
                    Err(error) => {
                        return Err(error);
                    },
                    Ok(()) => {},
                }
                Ok(
                    VulkanBoundDescriptorTarget::StreamStateBuffer {
                        buffer_index,
                        component_id: component_id.clone(),
                        state_id: state_id.clone(),
                        state_type: state_type.clone(),
                        byte_capacity: *byte_capacity,
                        static_bytes: *static_bytes,
                        bytes_per_activation: *bytes_per_activation,
                    },
                )
            },
            VulkanDescriptorResourceAddress::StateView {
                component_id,
                state_id,
                state_type,
                byte_capacity,
                static_bytes,
                bytes_per_activation,
            } => {
                let buffer_index: usize = match buffers.state_buffer_index(
                    component_id.as_str(),
                    state_id.as_str(),
                ) {
                    None => {
                        return Err(
                            VulkanBoundDispatchPlanError::MissingStateBuffer {
                                dispatch_index: dispatch.dispatch_index,
                                binding: descriptor.binding,
                                component_id: component_id.clone(),
                                state_id: state_id.clone(),
                            },
                        );
                    },
                    Some(buffer_index) => buffer_index,
                };
                let buffer = &buffers.state_buffers[buffer_index];
                proof {
                    sequence::lemma_first_position(
                        buffers@.state_buffers,
                        resident_plan::state_matcher(component_id@, state_id@),
                    );
                    assert(buffers@.state_buffers[buffer_index as int] == buffer@);
                    assert(buffers@.state_buffers.len() == buffers.state_buffers.len());
                }
                match validate_bound_byte_capacity(
                    dispatch,
                    descriptor,
                    *byte_capacity,
                    buffer.byte_capacity,
                ) {
                    Err(error) => {
                        return Err(error);
                    },
                    Ok(()) => {},
                }
                Ok(
                    VulkanBoundDescriptorTarget::StreamStateView {
                        buffer_index,
                        component_id: component_id.clone(),
                        state_id: state_id.clone(),
                        state_type: state_type.clone(),
                        byte_capacity: *byte_capacity,
                        static_bytes: *static_bytes,
                        bytes_per_activation: *bytes_per_activation,
                    },
                )
            },
        }
    }
}

/// How a descriptor of a launch is bound.
pub open spec fn bind_step(
    dispatch: VulkanPreparedDispatchView,
    buffers: VulkanStreamCircuitStreamBuffersView,
) -> spec_fn(VulkanResolvedDescriptorBindingView) -> Result<
    VulkanBoundDescriptorView,
    VulkanBoundDispatchPlanErrorView,
> {
    |descriptor: VulkanResolvedDescriptorBindingView|
        match bound_target(dispatch, descriptor, buffers) {
            Err(error) => Err(error),
            Ok(target) => Ok(
                VulkanBoundDescriptorView {
                    binding: descriptor.binding,
                    usage: descriptor.usage,
                    name: descriptor.name,
                    target,
                },
            ),
        }
}

/// How a launch is bound.
pub open spec fn bind_dispatch(buffers: VulkanStreamCircuitStreamBuffersView) -> spec_fn(
    VulkanPreparedDispatchView,
) -> Result<VulkanBoundDispatchView, VulkanBoundDispatchPlanErrorView> {
    |prepared: VulkanPreparedDispatchView|
        match sequence::try_map(prepared.descriptors, bind_step(prepared, buffers)) {
            Err(error) => Err(error),
            Ok(descriptors) => Ok(
                VulkanBoundDispatchView {
                    dispatch_index: prepared.dispatch_index,
                    kernel_id: prepared.kernel_id,
                    component_id: prepared.component_id,
                    circuit_id: prepared.circuit_id,
                    node_index: prepared.node_index,
                    node_id: prepared.node_id,
                    op: prepared.op,
                    reusable_family_id: prepared.reusable_family_id,
                    artifact_path: prepared.artifact_path,
                    entry_point: prepared.entry_point,
                    local_size_x: prepared.local_size_x,
                    descriptors,
                    push_constants: prepared.push_constants,
                    uses_stream_tick: prepared.uses_stream_tick,
                },
            ),
        }
}

/// The descriptors of a bound launch.
pub open spec fn bound_descriptors() -> spec_fn(VulkanBoundDispatchView) -> Seq<
    VulkanBoundDescriptorView,
> {
    |dispatch: VulkanBoundDispatchView| dispatch.descriptors
}

/// Whether a descriptor is bound to a signal at the circuit's boundary.
pub open spec fn is_boundary() -> spec_fn(VulkanBoundDescriptorView) -> bool {
    |d: VulkanBoundDescriptorView| d.target is BoundaryInput || d.target is BoundaryOutput
}

/// Whether a descriptor is bound to a parameter.
pub open spec fn is_parameter() -> spec_fn(VulkanBoundDescriptorView) -> bool {
    |d: VulkanBoundDescriptorView| d.target is PermanentParameter
}

/// Whether a descriptor is bound to a state.
pub open spec fn is_state() -> spec_fn(VulkanBoundDescriptorView) -> bool {
    |d: VulkanBoundDescriptorView| d.target is StreamStateBuffer || d.target is StreamStateView
}

/// Whether a descriptor is bound to an activation slot.
pub open spec fn is_slot() -> spec_fn(VulkanBoundDescriptorView) -> bool {
    |d: VulkanBoundDescriptorView| d.target is ActivationSlot
}

/// The bound launches with their counts.
pub open spec fn counted_bound_plan(
    backend_id: Seq<char>,
    dispatches: Seq<VulkanBoundDispatchView>,
) -> VulkanBoundDispatchPlanView {
    VulkanBoundDispatchPlanView {
        backend_id,
        dispatches,
        total_descriptor_count: sequence::nested_len(dispatches, bound_descriptors()) as usize,
        boundary_descriptor_count: sequence::nested_count(
            dispatches,
            bound_descriptors(),
            is_boundary(),
        ) as usize,
        permanent_parameter_descriptor_count: sequence::nested_count(
            dispatches,
            bound_descriptors(),
            is_parameter(),
        ) as usize,
        stream_state_descriptor_count: sequence::nested_count(
            dispatches,
            bound_descriptors(),
            is_state(),
        ) as usize,
        activation_slot_descriptor_count: sequence::nested_count(
            dispatches,
            bound_descriptors(),
            is_slot(),
        ) as usize,
    }
}

/// Whether the counts of a bound plan are those of its descriptors, which can be counted.
pub open spec fn is_counted(bound: VulkanBoundDispatchPlanView) -> bool {
    &&& sequence::nested_len(bound.dispatches, bound_descriptors()) <= usize::MAX
    &&& bound == counted_bound_plan(bound.backend_id, bound.dispatches)
}

/// The launches of a prepared plan, bound to the buffers of a stream.
#[verifier::opaque]
pub open spec fn bound_plan(
    prepared: VulkanPreparedDispatchPlanView,
    buffers: VulkanStreamCircuitStreamBuffersView,
) -> Result<VulkanBoundDispatchPlanView, VulkanBoundDispatchPlanErrorView> {
    match sequence::try_map(prepared.dispatches, bind_dispatch(buffers)) {
        Err(error) => Err(error),
        Ok(dispatches) => Ok(counted_bound_plan(prepared.backend_id, dispatches)),
    }
}

#[verifier::loop_isolation(false)]
fn bind_prepared_dispatch(
    prepared: &VulkanPreparedDispatch,
    buffers: &VulkanStreamCircuitStreamBuffers,
) -> (r: Result<VulkanBoundDispatch, VulkanBoundDispatchPlanError>)
    ensures
        sequence::outcome(r) == bind_dispatch(buffers@)(prepared@),
{
    let ghost all_descriptors = prepared.descriptors.deep_view();
    let ghost step_descriptors = bind_step(prepared@, buffers@);
    let mut descriptors: Vec<VulkanBoundDescriptor> = Vec::new();
    let mut i: usize = 0;
    assert(all_descriptors.take(0) =~= Seq::empty());
    assert(descriptors.deep_view() =~= Seq::empty());
    while i < prepared.descriptors.len()
        invariant
            i <= prepared.descriptors.len(),
            sequence::try_map(all_descriptors.take(i as int), step_descriptors) is Ok,
            sequence::try_map(all_descriptors.take(i as int), step_descriptors)->Ok_0 == descriptors.deep_view(),
        decreases prepared.descriptors.len() - i,
    {
        let item = &prepared.descriptors[i];
        assert(all_descriptors[i as int] == item.deep_view());
        proof {
            sequence::lemma_try_map_step(all_descriptors, step_descriptors, i as int);
            if sequence::try_map(all_descriptors.take(i + 1), step_descriptors) is Err {
                sequence::lemma_try_map_error(all_descriptors, step_descriptors, i + 1);
            }
        }
        match bind_descriptor(prepared, item, buffers) {
            Ok(added) => {
                let ghost before = descriptors.deep_view();
                let ghost value = added.deep_view();
                descriptors.push(added);
                assert(descriptors.deep_view() =~= before.push(value));
            },
            Err(error) => {
                return Err(error);
            },
        }
        i += 1;
    }
    assert(all_descriptors.take(all_descriptors.len() as int) =~= all_descriptors);
    Ok(
        VulkanBoundDispatch {
            dispatch_index: prepared.dispatch_index,
            kernel_id: prepared.kernel_id.clone(),
            component_id: prepared.component_id.clone(),
            circuit_id: prepared.circuit_id.clone(),
            node_index: prepared.node_index,
            node_id: prepared.node_id.clone(),
            op: prepared.op.clone(),
            reusable_family_id: prepared.reusable_family_id.clone(),
            artifact_path: prepared.artifact_path.clone(),
            entry_point: prepared.entry_point.clone(),
            local_size_x: prepared.local_size_x,
            descriptors,
            push_constants: kernel_interface::copy_scalars(&prepared.push_constants),
            uses_stream_tick: prepared.uses_stream_tick,
        },
    )
}

fn bind_descriptor(
    prepared: &VulkanPreparedDispatch,
    descriptor: &VulkanResolvedDescriptorBinding,
    buffers: &VulkanStreamCircuitStreamBuffers,
) -> (r: Result<VulkanBoundDescriptor, VulkanBoundDispatchPlanError>)
    ensures
        sequence::outcome(r) == bind_step(prepared@, buffers@)(descriptor@),
{
    match VulkanBoundDescriptorTarget::from_resource(prepared, descriptor, buffers) {
        Err(error) => Err(error),
        Ok(target) => Ok(
            VulkanBoundDescriptor {
                binding: descriptor.binding,
                usage: descriptor.usage,
                name: descriptor.name.clone(),
                target,
            },
        ),
    }
}

/// The number of descriptors does not change when launches are bound.
proof fn lemma_bound_lengths(
    prepared: Seq<VulkanPreparedDispatchView>,
    buffers: VulkanStreamCircuitStreamBuffersView,
)
    requires
        sequence::try_map(prepared, bind_dispatch(buffers)) is Ok,
    ensures
        sequence::nested_len(
            sequence::try_map(prepared, bind_dispatch(buffers))->Ok_0,
            bound_descriptors(),
        ) == sequence::total(prepared, dispatch_plan::prepared_descriptor_count()),
    decreases prepared.len(),
{
    if prepared.len() > 0 {
        lemma_bound_lengths(prepared.drop_last(), buffers);
        let done = sequence::try_map(prepared, bind_dispatch(buffers))->Ok_0;
        sequence::lemma_try_map_ok(prepared.last().descriptors, bind_step(prepared.last(), buffers));
        assert(done.drop_last() =~= sequence::try_map(prepared.drop_last(), bind_dispatch(buffers))->Ok_0);
    }
}

/// Whether a launch is that of a node.
pub open spec fn bound_dispatch_named(component_id: Seq<char>, node_id: Seq<char>) -> spec_fn(
    VulkanBoundDispatchView,
) -> bool {
    |dispatch: VulkanBoundDispatchView|
        dispatch.component_id == component_id && dispatch.node_id == node_id
}

impl VulkanBoundDispatchPlan {
    /// Binds the launches of a prepared plan to the buffers of a stream.
    #[verifier::loop_isolation(false)]
    pub fn from_prepared_plan(
        prepared_plan: &VulkanPreparedDispatchPlan,
        buffers: &VulkanStreamCircuitStreamBuffers,
    ) -> (r: Result<Self, VulkanBoundDispatchPlanError>)
        requires
            sequence::total(prepared_plan@.dispatches, dispatch_plan::prepared_descriptor_count())
                <= usize::MAX,
        ensures
            sequence::outcome(r) == bound_plan(prepared_plan@, buffers@),
            r matches Ok(bound) ==> is_counted(bound@),
    {
        proof {
            if bound_plan(prepared_plan@, buffers@) is Ok {
                lemma_bound_plan_counted(prepared_plan@, buffers@);
            }
        }
        reveal(bound_plan);
        let ghost all_dispatches = prepared_plan.dispatches.deep_view();
        let ghost step_dispatches = bind_dispatch(buffers@);
        let mut dispatches: Vec<VulkanBoundDispatch> = Vec::new();
        let mut i: usize = 0;
        assert(all_dispatches.take(0) =~= Seq::empty());
        assert(dispatches.deep_view() =~= Seq::empty());
        while i < prepared_plan.dispatches.len()
            invariant
                i <= prepared_plan.dispatches.len(),
                sequence::try_map(all_dispatches.take(i as int), step_dispatches) is Ok,
                sequence::try_map(all_dispatches.take(i as int), step_dispatches)->Ok_0 == dispatches.deep_view(),
            decreases prepared_plan.dispatches.len() - i,
        {
            let item = &prepared_plan.dispatches[i];
            assert(all_dispatches[i as int] == item.deep_view());
            proof {
                sequence::lemma_try_map_step(all_dispatches, step_dispatches, i as int);
                if sequence::try_map(all_dispatches.take(i + 1), step_dispatches) is Err {
                    sequence::lemma_try_map_error(all_dispatches, step_dispatches, i + 1);
                }
            }
            match bind_prepared_dispatch(item, buffers) {
                Ok(added) => {
                    let ghost before = dispatches.deep_view();
                    let ghost value = added.deep_view();
                    dispatches.push(added);
                    assert(dispatches.deep_view() =~= before.push(value));
                },
                Err(error) => {
                    return Err(error);
                },
            }
            i += 1;
        }
        assert(all_dispatches.take(all_dispatches.len() as int) =~= all_dispatches);
        proof {
            lemma_bound_lengths(prepared_plan@.dispatches, buffers@);
        }
        Ok(count_bound_dispatches(prepared_plan.backend_id.clone(), dispatches))
    }

    /// The first launch of a node.
    #[verifier::loop_isolation(false)]
    pub fn dispatch(&self, component_id: &str, node_id: &str) -> (r: Option<&VulkanBoundDispatch>)
        ensures
            r.deep_view() == sequence::find_first(
                self@.dispatches,
                bound_dispatch_named(component_id@, node_id@),
            ),
    {
        let ghost all = self.dispatches.deep_view();
        let ghost p = bound_dispatch_named(component_id@, node_id@);
        let mut i: usize = 0;
        while i < self.dispatches.len()
            invariant
                i <= self.dispatches.len(),
                forall|j: int| 0 <= j < i ==> !p(#[trigger] all[j]),
            decreases self.dispatches.len() - i,
        {
            let item = &self.dispatches[i];
            assert(all[i as int] == item.deep_view());
            if text::same(item.component_id.as_str(), component_id) && text::same(item.node_id.as_str(), node_id) {
                proof {
                    sequence::lemma_find_first_at(all, p, i as int);
                }
                return Some(item);
            }
            i += 1;
        }
        proof {
            sequence::lemma_find_first_none(all, p);
        }
        None
    }
}

#[verifier::loop_isolation(false)]
fn count_bound_dispatches(backend_id: String, dispatches: Vec<VulkanBoundDispatch>) -> (r:
    VulkanBoundDispatchPlan)
    requires
        sequence::nested_len(dispatches.deep_view(), bound_descriptors()) <= usize::MAX,
    ensures
        r@ == counted_bound_plan(backend_id@, dispatches.deep_view()),
{
    let ghost all = dispatches.deep_view();
    let ghost parts = bound_descriptors();
    let mut boundary_descriptor_count: usize = 0;
    let mut permanent_parameter_descriptor_count: usize = 0;
    let mut stream_state_descriptor_count: usize = 0;
    let mut activation_slot_descriptor_count: usize = 0;
    let mut i: usize = 0;
    assert(all.take(0) =~= Seq::empty());
    while i < dispatches.len()
        invariant
            i <= dispatches.len(),
            boundary_descriptor_count == sequence::nested_count(all.take(i as int), parts, is_boundary()),
            permanent_parameter_descriptor_count == sequence::nested_count(all.take(i as int), parts, is_parameter()),
            stream_state_descriptor_count == sequence::nested_count(all.take(i as int), parts, is_state()),
            activation_slot_descriptor_count == sequence::nested_count(all.take(i as int), parts, is_slot()),
            boundary_descriptor_count + permanent_parameter_descriptor_count + stream_state_descriptor_count + activation_slot_descriptor_count == sequence::nested_len(all.take(i as int), parts),
        decreases dispatches.len() - i,
    {
        let item = &dispatches[i];
        let ghost here = item@.descriptors;
        let ghost boundary_descriptor_count_before = boundary_descriptor_count;
        let ghost permanent_parameter_descriptor_count_before = permanent_parameter_descriptor_count;
        let ghost stream_state_descriptor_count_before = stream_state_descriptor_count;
        let ghost activation_slot_descriptor_count_before = activation_slot_descriptor_count;
        proof {
            assert(all[i as int] == item.deep_view());
            assert(here.take(0) =~= Seq::empty());
            assert(here.len() == item.descriptors@.len());
            sequence::lemma_nested_len_step(all, parts, i as int);
            sequence::lemma_nested_len_prefix(all, parts, i + 1);
            sequence::lemma_nested_count_step(all, parts, is_boundary(), i as int);
            sequence::lemma_nested_count_step(all, parts, is_parameter(), i as int);
            sequence::lemma_nested_count_step(all, parts, is_state(), i as int);
            sequence::lemma_nested_count_step(all, parts, is_slot(), i as int);
        }
        let mut j: usize = 0;
        while j < item.descriptors.len()
            invariant
                j <= item.descriptors.len(),
                boundary_descriptor_count == boundary_descriptor_count_before + sequence::count(here.take(j as int), is_boundary()),
                permanent_parameter_descriptor_count == permanent_parameter_descriptor_count_before + sequence::count(here.take(j as int), is_parameter()),
                stream_state_descriptor_count == stream_state_descriptor_count_before + sequence::count(here.take(j as int), is_state()),
                activation_slot_descriptor_count == activation_slot_descriptor_count_before + sequence::count(here.take(j as int), is_slot()),
                boundary_descriptor_count + permanent_parameter_descriptor_count + stream_state_descriptor_count + activation_slot_descriptor_count == sequence::nested_len(all.take(i as int), parts) + j,
            decreases item.descriptors.len() - j,
        {
            let part = &item.descriptors[j];
            proof {
                assert(here[j as int] == part.deep_view());
                sequence::lemma_count_step(here, is_boundary(), j as int);
                sequence::lemma_count_step(here, is_parameter(), j as int);
                sequence::lemma_count_step(here, is_state(), j as int);
                sequence::lemma_count_step(here, is_slot(), j as int);
            }
            match &part.target {
                 VulkanBoundDescriptorTarget::BoundaryInput { .. } => {
                     boundary_descriptor_count += 1;
                 },
                 VulkanBoundDescriptorTarget::BoundaryOutput { .. } => {
                     boundary_descriptor_count += 1;
                 },
                 VulkanBoundDescriptorTarget::PermanentParameter { .. } => {
                     permanent_parameter_descriptor_count += 1;
                 },
                 VulkanBoundDescriptorTarget::StreamStateBuffer { .. } => {
                     stream_state_descriptor_count += 1;
                 },
                 VulkanBoundDescriptorTarget::StreamStateView { .. } => {
                     stream_state_descriptor_count += 1;
                 },
                 VulkanBoundDescriptorTarget::ActivationSlot { .. } => {
                     activation_slot_descriptor_count += 1;
                 },
             }
            j += 1;
        }
        assert(here.take(here.len() as int) =~= here);
        i += 1;
    }
    assert(all.take(all.len() as int) =~= all);
    let total_descriptor_count: usize = boundary_descriptor_count
        + permanent_parameter_descriptor_count + stream_state_descriptor_count
        + activation_slot_descriptor_count;
    VulkanBoundDispatchPlan {
        backend_id,
        dispatches,
        total_descriptor_count,
        boundary_descriptor_count,
        permanent_parameter_descriptor_count,
        stream_state_descriptor_count,
        activation_slot_descriptor_count,
    }
}

// ---------------------------------------------------------------------------
// On a device
// ---------------------------------------------------------------------------

/// What a descriptor is bound to on the device that hosts its circuit.
#[derive(Debug, PartialEq, Eq)]
pub enum VulkanPlacedBoundDescriptorTarget {
    Resident { target: VulkanBoundDescriptorTarget },
    ModelInput { signal_id: String },
    ModelOutput { signal_id: String },
    LocalEdgeInput { edge: ComponentEdgePlacement },
    LocalEdgeOutput { edge: ComponentEdgePlacement },
    IncomingEdge { edge: ComponentEdgePlacement },
    OutgoingEdge { edge: ComponentEdgePlacement },
}

#[verifier::ext_equal]
pub enum VulkanPlacedBoundDescriptorTargetView {
    Resident { target: VulkanBoundDescriptorTargetView },
    ModelInput { signal_id: Seq<char> },
    ModelOutput { signal_id: Seq<char> },
    LocalEdgeInput { edge: ComponentEdgePlacementView },
    LocalEdgeOutput { edge: ComponentEdgePlacementView },
    IncomingEdge { edge: ComponentEdgePlacementView },
    OutgoingEdge { edge: ComponentEdgePlacementView },
}

impl DeepView for VulkanPlacedBoundDescriptorTarget {
    type V = VulkanPlacedBoundDescriptorTargetView;

    open spec fn deep_view(&self) -> VulkanPlacedBoundDescriptorTargetView {
        match self {
            VulkanPlacedBoundDescriptorTarget::Resident { target } => VulkanPlacedBoundDescriptorTargetView::Resident { target: target.deep_view() },
            VulkanPlacedBoundDescriptorTarget::ModelInput { signal_id } => VulkanPlacedBoundDescriptorTargetView::ModelInput { signal_id: signal_id.deep_view() },
            VulkanPlacedBoundDescriptorTarget::ModelOutput { signal_id } => VulkanPlacedBoundDescriptorTargetView::ModelOutput { signal_id: signal_id.deep_view() },
            VulkanPlacedBoundDescriptorTarget::LocalEdgeInput { edge } => VulkanPlacedBoundDescriptorTargetView::LocalEdgeInput { edge: edge.deep_view() },
            VulkanPlacedBoundDescriptorTarget::LocalEdgeOutput { edge } => VulkanPlacedBoundDescriptorTargetView::LocalEdgeOutput { edge: edge.deep_view() },
            VulkanPlacedBoundDescriptorTarget::IncomingEdge { edge } => VulkanPlacedBoundDescriptorTargetView::IncomingEdge { edge: edge.deep_view() },
            VulkanPlacedBoundDescriptorTarget::OutgoingEdge { edge } => VulkanPlacedBoundDescriptorTargetView::OutgoingEdge { edge: edge.deep_view() },
        }
    }
}

impl View for VulkanPlacedBoundDescriptorTarget {
    type V = VulkanPlacedBoundDescriptorTargetView;

    open spec fn view(&self) -> VulkanPlacedBoundDescriptorTargetView {
        self.deep_view()
    }
}

impl Clone for VulkanPlacedBoundDescriptorTarget {
    fn clone(&self) -> (r: Self)
        ensures
            r@ == self@,
    {
        match self {
            VulkanPlacedBoundDescriptorTarget::Resident { target } => VulkanPlacedBoundDescriptorTarget::Resident { target: target.clone() },
            VulkanPlacedBoundDescriptorTarget::ModelInput { signal_id } => VulkanPlacedBoundDescriptorTarget::ModelInput { signal_id: signal_id.clone() },
            VulkanPlacedBoundDescriptorTarget::ModelOutput { signal_id } => VulkanPlacedBoundDescriptorTarget::ModelOutput { signal_id: signal_id.clone() },
            VulkanPlacedBoundDescriptorTarget::LocalEdgeInput { edge } => VulkanPlacedBoundDescriptorTarget::LocalEdgeInput { edge: edge.clone() },
            VulkanPlacedBoundDescriptorTarget::LocalEdgeOutput { edge } => VulkanPlacedBoundDescriptorTarget::LocalEdgeOutput { edge: edge.clone() },
            VulkanPlacedBoundDescriptorTarget::IncomingEdge { edge } => VulkanPlacedBoundDescriptorTarget::IncomingEdge { edge: edge.clone() },
            VulkanPlacedBoundDescriptorTarget::OutgoingEdge { edge } => VulkanPlacedBoundDescriptorTarget::OutgoingEdge { edge: edge.clone() },
        }
    }
}

/// A descriptor with what it is bound to on its device.
#[derive(Debug, PartialEq, Eq)]
pub struct VulkanPlacedBoundDescriptor {
    pub binding: usize,
    pub usage: VulkanKernelDescriptorUsage,
    pub name: String,
    pub target: VulkanPlacedBoundDescriptorTarget,
}

#[verifier::ext_equal]
pub struct VulkanPlacedBoundDescriptorView {
    pub binding: usize,
    pub usage: VulkanKernelDescriptorUsage,
    pub name: Seq<char>,
    pub target: VulkanPlacedBoundDescriptorTargetView,
}

impl DeepView for VulkanPlacedBoundDescriptor {
    type V = VulkanPlacedBoundDescriptorView;

    open spec fn deep_view(&self) -> VulkanPlacedBoundDescriptorView {
        VulkanPlacedBoundDescriptorView {
            binding: self.binding,
            usage: self.usage,
            name: self.name.deep_view(),
            target: self.target.deep_view(),
        }
    }
}

impl View for VulkanPlacedBoundDescriptor {
    type V = VulkanPlacedBoundDescriptorView;

    open spec fn view(&self) -> VulkanPlacedBoundDescriptorView {
        self.deep_view()
    }
}

impl Clone for VulkanPlacedBoundDescriptor {
    fn clone(&self) -> (r: Self)
        ensures
            r@ == self@,
    {
        VulkanPlacedBoundDescriptor {
            binding: self.binding,
            usage: self.usage,
            name: self.name.clone(),
            target: self.target.clone(),
        }
    }
}

/// A launch with its bound descriptors, on its device.
#[derive(Debug, PartialEq, Eq)]
pub struct VulkanPlacedBoundDispatch {
    pub dispatch_index: usize,
    pub kernel_id: String,
    pub component_id: String,
    pub circuit_id: String,
    pub node_index: usize,
    pub node_id: String,
    pub op: String,
    pub reusable_family_id: String,
    pub artifact_path: String,
    pub entry_point: String,
    pub local_size_x: u32,
    pub descriptors: Vec<VulkanPlacedBoundDescriptor>,
    pub push_constants: Vec<VulkanKernelScalarBinding>,
    pub uses_stream_tick: bool,
}

#[verifier::ext_equal]
pub struct VulkanPlacedBoundDispatchView {
    pub dispatch_index: usize,
    pub kernel_id: Seq<char>,
    pub component_id: Seq<char>,
    pub circuit_id: Seq<char>,
    pub node_index: usize,
    pub node_id: Seq<char>,
    pub op: Seq<char>,
    pub reusable_family_id: Seq<char>,
    pub artifact_path: Seq<char>,
    pub entry_point: Seq<char>,
    pub local_size_x: u32,
    pub descriptors: Seq<VulkanPlacedBoundDescriptorView>,
    pub push_constants: Seq<VulkanKernelScalarBindingView>,
    pub uses_stream_tick: bool,
}

impl DeepView for VulkanPlacedBoundDispatch {
    type V = VulkanPlacedBoundDispatchView;

    open spec fn deep_view(&self) -> VulkanPlacedBoundDispatchView {
        VulkanPlacedBoundDispatchView {
            dispatch_index: self.dispatch_index,
            kernel_id: self.kernel_id.deep_view(),
            component_id: self.component_id.deep_view(),
            circuit_id: self.circuit_id.deep_view(),
            node_index: self.node_index,
            node_id: self.node_id.deep_view(),
            op: self.op.deep_view(),
            reusable_family_id: self.reusable_family_id.deep_view(),
            artifact_path: self.artifact_path.deep_view(),
            entry_point: self.entry_point.deep_view(),
            local_size_x: self.local_size_x,
            descriptors: self.descriptors.deep_view(),
            push_constants: self.push_constants.deep_view(),
            uses_stream_tick: self.uses_stream_tick,
        }
    }
}

impl View for VulkanPlacedBoundDispatch {
    type V = VulkanPlacedBoundDispatchView;

    open spec fn view(&self) -> VulkanPlacedBoundDispatchView {
        self.deep_view()
    }
}

impl Clone for VulkanPlacedBoundDispatch {
    fn clone(&self) -> (r: Self)
        ensures
            r@ == self@,
    {
        VulkanPlacedBoundDispatch {
            dispatch_index: self.dispatch_index,
            kernel_id: self.kernel_id.clone(),
            component_id: self.component_id.clone(),
            circuit_id: self.circuit_id.clone(),
            node_index: self.node_index,
            node_id: self.node_id.clone(),
            op: self.op.clone(),
            reusable_family_id: self.reusable_family_id.clone(),
            artifact_path: self.artifact_path.clone(),
            entry_point: self.entry_point.clone(),
            local_size_x: self.local_size_x,
            descriptors: self.descriptors.clone(),
            push_constants: self.push_constants.clone(),
            uses_stream_tick: self.uses_stream_tick,
        }
    }
}

/// The bound launches of a device, with the number of descriptors of each sort.
#[derive(Debug, PartialEq, Eq)]
pub struct VulkanPlacedBoundDispatchPlan {
    pub backend_id: String,
    pub device_id: String,
    pub dispatches: Vec<VulkanPlacedBoundDispatch>,
    pub total_descriptor_count: usize,
    pub resident_descriptor_count: usize,
    pub model_boundary_descriptor_count: usize,
    pub local_cable_descriptor_count: usize,
    pub incoming_cable_descriptor_count: usize,
    pub outgoing_cable_descriptor_count: usize,
}

#[verifier::ext_equal]
pub struct VulkanPlacedBoundDispatchPlanView {
    pub backend_id: Seq<char>,
    pub device_id: Seq<char>,
    pub dispatches: Seq<VulkanPlacedBoundDispatchView>,
    pub total_descriptor_count: usize,
    pub resident_descriptor_count: usize,
    pub model_boundary_descriptor_count: usize,
    pub local_cable_descriptor_count: usize,
    pub incoming_cable_descriptor_count: usize,
    pub outgoing_cable_descriptor_count: usize,
}

impl DeepView for VulkanPlacedBoundDispatchPlan {
    type V = VulkanPlacedBoundDispatchPlanView;

    open spec fn deep_view(&self) -> VulkanPlacedBoundDispatchPlanView {
        VulkanPlacedBoundDispatchPlanView {
            backend_id: self.backend_id.deep_view(),
            device_id: self.device_id.deep_view(),
            dispatches: self.dispatches.deep_view(),
            total_descriptor_count: self.total_descriptor_count,
            resident_descriptor_count: self.resident_descriptor_count,
            model_boundary_descriptor_count: self.model_boundary_descriptor_count,
            local_cable_descriptor_count: self.local_cable_descriptor_count,
            incoming_cable_descriptor_count: self.incoming_cable_descriptor_count,
            outgoing_cable_descriptor_count: self.outgoing_cable_descriptor_count,
        }
    }
}

impl View for VulkanPlacedBoundDispatchPlan {
    type V = VulkanPlacedBoundDispatchPlanView;

    open spec fn view(&self) -> VulkanPlacedBoundDispatchPlanView {
        self.deep_view()
    }
}

impl Clone for VulkanPlacedBoundDispatchPlan {
    fn clone(&self) -> (r: Self)
        ensures
            r@ == self@,
    {
        VulkanPlacedBoundDispatchPlan {
            backend_id: self.backend_id.clone(),
            device_id: self.device_id.clone(),
            dispatches: self.dispatches.clone(),
            total_descriptor_count: self.total_descriptor_count,
            resident_descriptor_count: self.resident_descriptor_count,
            model_boundary_descriptor_count: self.model_boundary_descriptor_count,
            local_cable_descriptor_count: self.local_cable_descriptor_count,
            incoming_cable_descriptor_count: self.incoming_cable_descriptor_count,
            outgoing_cable_descriptor_count: self.outgoing_cable_descriptor_count,
        }
    }
}

/// Whether an edge ends at a port.
pub open spec fn ends_at(component_id: Seq<char>, port_id: Seq<char>) -> spec_fn(
    ComponentEdgePlacementView,
) -> bool {
    |edge: ComponentEdgePlacementView|
        edge.destination_component_id == component_id && edge.destination_port_id == port_id
}

/// Whether an edge starts at a port.
pub open spec fn starts_at(component_id: Seq<char>, port_id: Seq<char>) -> spec_fn(
    ComponentEdgePlacementView,
) -> bool {
    |edge: ComponentEdgePlacementView|
        edge.source_component_id == component_id && edge.source_port_id == port_id
}

/// Where a boundary input comes from: a local edge, else an incoming edge, else the model's input.
pub open spec fn input_target(
    component_id: Seq<char>,
    signal_id: Seq<char>,
    placed: VulkanPlacedStreamCircuitResidentPlanView,
) -> VulkanPlacedBoundDescriptorTargetView {
    match sequence::find_first(placed.local_edges, ends_at(component_id, signal_id)) {
        Some(edge) => VulkanPlacedBoundDescriptorTargetView::LocalEdgeInput { edge },
        None => match sequence::find_first(
            placed.incoming_edges,
            ends_at(component_id, signal_id),
        ) {
            Some(edge) => VulkanPlacedBoundDescriptorTargetView::IncomingEdge { edge },
            None => VulkanPlacedBoundDescriptorTargetView::ModelInput { signal_id },
        },
    }
}

/// Where a boundary output goes: to a local edge, else an outgoing edge, else the model's output.
pub open spec fn output_target(
    component_id: Seq<char>,
    signal_id: Seq<char>,
    placed: VulkanPlacedStreamCircuitResidentPlanView,
) -> VulkanPlacedBoundDescriptorTargetView {
    match sequence::find_first(placed.local_edges, starts_at(component_id, signal_id)) {
        Some(edge) => VulkanPlacedBoundDescriptorTargetView::LocalEdgeOutput { edge },
        None => match sequence::find_first(
            placed.outgoing_edges,
            starts_at(component_id, signal_id),
        ) {
            Some(edge) => VulkanPlacedBoundDescriptorTargetView::OutgoingEdge { edge },
            None => VulkanPlacedBoundDescriptorTargetView::ModelOutput { signal_id },
        },
    }
}

/// What a bound descriptor stands for on its device.
pub open spec fn placed_target(
    component_id: Seq<char>,
    target: VulkanBoundDescriptorTargetView,
    placed: VulkanPlacedStreamCircuitResidentPlanView,
) -> VulkanPlacedBoundDescriptorTargetView {
    match target {
        VulkanBoundDescriptorTargetView::BoundaryInput { signal_id } => input_target(
            component_id,
            signal_id,
            placed,
        ),
        VulkanBoundDescriptorTargetView::BoundaryOutput { signal_id } => output_target(
            component_id,
            signal_id,
            placed,
        ),
        _ => VulkanPlacedBoundDescriptorTargetView::Resident { target },
    }
}

#[verifier::loop_isolation(false)]
fn edge_ending_at(
    edges: &Vec<ComponentEdgePlacement>,
    component_id: &str,
    port_id: &str,
) -> (r: Option<ComponentEdgePlacement>)
    ensures
        r.deep_view() == sequence::find_first(edges.deep_view(), ends_at(component_id@, port_id@)),
{
    let ghost all = edges.deep_view();
    let ghost p = ends_at(component_id@, port_id@);
    let mut i: usize = 0;
    while i < edges.len()
        invariant
            i <= edges.len(),
            forall|j: int| 0 <= j < i ==> !p(#[trigger] all[j]),
        decreases edges.len() - i,
    {
        let item = &edges[i];
        assert(all[i as int] == item.deep_view());
        if text::same(item.destination_component_id.as_str(), component_id) && text::same(item.destination_port_id.as_str(), port_id) {
            proof {
                sequence::lemma_find_first_at(all, p, i as int);
            }
            return Some(item.clone());
        }
        i += 1;
    }
    proof {
        sequence::lemma_find_first_none(all, p);
    }
    None
}

#[verifier::loop_isolation(false)]
fn edge_starting_at(
    edges: &Vec<ComponentEdgePlacement>,
    component_id: &str,
    port_id: &str,
) -> (r: Option<ComponentEdgePlacement>)
    ensures
        r.deep_view() == sequence::find_first(edges.deep_view(), starts_at(component_id@, port_id@)),
{
    let ghost all = edges.deep_view();
    let ghost p = starts_at(component_id@, port_id@);
    let mut i: usize = 0;
    while i < edges.len()
        invariant
            i <= edges.len(),
            forall|j: int| 0 <= j < i ==> !p(#[trigger] all[j]),
        decreases edges.len() - i,
    {
        let item = &edges[i];
        assert(all[i as int] == item.deep_view());
        if text::same(item.source_component_id.as_str(), component_id) && text::same(item.source_port_id.as_str(), port_id) {
            proof {
                sequence::lemma_find_first_at(all, p, i as int);
            }
            return Some(item.clone());
        }
        i += 1;
    }
    proof {
        sequence::lemma_find_first_none(all, p);
    }
    None
}

fn classify_boundary_input(
    component_id: &str,
    signal_id: &String,
    placed_resident_plan: &VulkanPlacedStreamCircuitResidentPlan,
) -> (r: VulkanPlacedBoundDescriptorTarget)
    ensures
        r@ == input_target(component_id@, signal_id@, placed_resident_plan@),
{
    match edge_ending_at(&placed_resident_plan.local_edges, component_id, signal_id.as_str()) {
        Some(edge) => {
            return VulkanPlacedBoundDescriptorTarget::LocalEdgeInput { edge };
        },
        None => {},
    }
    match edge_ending_at(&placed_resident_plan.incoming_edges, component_id, signal_id.as_str()) {
        Some(edge) => VulkanPlacedBoundDescriptorTarget::IncomingEdge { edge },
        None => VulkanPlacedBoundDescriptorTarget::ModelInput { signal_id: signal_id.clone() },
    }
}

fn classify_boundary_output(
    component_id: &str,
    signal_id: &String,
    placed_resident_plan: &VulkanPlacedStreamCircuitResidentPlan,
) -> (r: VulkanPlacedBoundDescriptorTarget)
    ensures
        r@ == output_target(component_id@, signal_id@, placed_resident_plan@),
{
    match edge_starting_at(&placed_resident_plan.local_edges, component_id, signal_id.as_str()) {
        Some(edge) => {
            return VulkanPlacedBoundDescriptorTarget::LocalEdgeOutput { edge };
        },
        None => {},
    }
    match edge_starting_at(&placed_resident_plan.outgoing_edges, component_id, signal_id.as_str()) {
        Some(edge) => VulkanPlacedBoundDescriptorTarget::OutgoingEdge { edge },
        None => VulkanPlacedBoundDescriptorTarget::ModelOutput { signal_id: signal_id.clone() },
    }
}

impl VulkanPlacedBoundDescriptorTarget {
    /// What a bound descriptor stands for on its device.
    pub fn from_bound_target(
        component_id: &str,
        target: &VulkanBoundDescriptorTarget,
        placed_resident_plan: &VulkanPlacedStreamCircuitResidentPlan,
    ) -> (r: Self)
        ensures
            r@ == placed_target(component_id@, target@, placed_resident_plan@),
    {
        match target {
            VulkanBoundDescriptorTarget::BoundaryInput { signal_id } => classify_boundary_input(
                component_id,
                signal_id,
                placed_resident_plan,
            ),
            VulkanBoundDescriptorTarget::BoundaryOutput { signal_id } => classify_boundary_output(
                component_id,
                signal_id,
                placed_resident_plan,
            ),
            _ => VulkanPlacedBoundDescriptorTarget::Resident { target: target.clone() },
        }
    }
}

/// How a descriptor is placed.
pub open spec fn place_step(
    component_id: Seq<char>,
    placed: VulkanPlacedStreamCircuitResidentPlanView,
) -> spec_fn(VulkanBoundDescriptorView) -> VulkanPlacedBoundDescriptorView {
    |descriptor: VulkanBoundDescriptorView|
        VulkanPlacedBoundDescriptorView {
            binding: descriptor.binding,
            usage: descriptor.usage,
            name: descriptor.name,
            target: placed_target(component_id, descriptor.target, placed),
        }
}

/// How a launch is placed.
pub open spec fn place_dispatch(placed: VulkanPlacedStreamCircuitResidentPlanView) -> spec_fn(
    VulkanBoundDispatchView,
) -> VulkanPlacedBoundDispatchView {
    |dispatch: VulkanBoundDispatchView|
        {
            let descriptors = dispatch.descriptors.map_values(
                place_step(dispatch.component_id, placed),
            );
            VulkanPlacedBoundDispatchView {
                dispatch_index: dispatch.dispatch_index,
                kernel_id: dispatch.kernel_id,
                component_id: dispatch.component_id,
                circuit_id: dispatch.circuit_id,
                node_index: dispatch.node_index,
                node_id: dispatch.node_id,
                op: dispatch.op,
                reusable_family_id: dispatch.reusable_family_id,
                artifact_path: dispatch.artifact_path,
                entry_point: dispatch.entry_point,
                local_size_x: dispatch.local_size_x,
                descriptors,
                push_constants: dispatch.push_constants,
                uses_stream_tick: dispatch.uses_stream_tick,
            }
        }
}

/// The descriptors of a placed launch.
pub open spec fn placed_descriptors() -> spec_fn(VulkanPlacedBoundDispatchView) -> Seq<
    VulkanPlacedBoundDescriptorView,
> {
    |dispatch: VulkanPlacedBoundDispatchView| dispatch.descriptors
}

/// Whether a descriptor is bound to a resident resource.
pub open spec fn placed_resident() -> spec_fn(VulkanPlacedBoundDescriptorView) -> bool {
    |d: VulkanPlacedBoundDescriptorView| d.target is Resident
}

/// Whether a descriptor is bound to the model's boundary.
pub open spec fn placed_boundary() -> spec_fn(VulkanPlacedBoundDescriptorView) -> bool {
    |d: VulkanPlacedBoundDescriptorView| d.target is ModelInput || d.target is ModelOutput
}

/// Whether a descriptor is bound to a local edge.
pub open spec fn placed_local() -> spec_fn(VulkanPlacedBoundDescriptorView) -> bool {
    |d: VulkanPlacedBoundDescriptorView| d.target is LocalEdgeInput || d.target is LocalEdgeOutput
}

/// Whether a descriptor is bound to an incoming edge.
pub open spec fn placed_incoming() -> spec_fn(VulkanPlacedBoundDescriptorView) -> bool {
    |d: VulkanPlacedBoundDescriptorView| d.target is IncomingEdge
}

/// Whether a descriptor is bound to an outgoing edge.
pub open spec fn placed_outgoing() -> spec_fn(VulkanPlacedBoundDescriptorView) -> bool {
    |d: VulkanPlacedBoundDescriptorView| d.target is OutgoingEdge
}

/// The bound launches of a device.
#[verifier::opaque]
pub open spec fn placed_plan(
    bound: VulkanBoundDispatchPlanView,
    placed: VulkanPlacedStreamCircuitResidentPlanView,
) -> VulkanPlacedBoundDispatchPlanView {
    let dispatches = bound.dispatches.map_values(place_dispatch(placed));
    VulkanPlacedBoundDispatchPlanView {
        backend_id: bound.backend_id,
        device_id: placed.device_id,
        dispatches,
        total_descriptor_count: sequence::nested_len(dispatches, placed_descriptors()) as usize,
        resident_descriptor_count: sequence::nested_count(
            dispatches,
            placed_descriptors(),
            placed_resident(),
        ) as usize,
        model_boundary_descriptor_count: sequence::nested_count(
            dispatches,
            placed_descriptors(),
            placed_boundary(),
        ) as usize,
        local_cable_descriptor_count: sequence::nested_count(
            dispatches,
            placed_descriptors(),
            placed_local(),
        ) as usize,
        incoming_cable_descriptor_count: sequence::nested_count(
            dispatches,
            placed_descriptors(),
            placed_incoming(),
        ) as usize,
        outgoing_cable_descriptor_count: sequence::nested_count(
            dispatches,
            placed_descriptors(),
            placed_outgoing(),
        ) as usize,
    }
}

fn place_descriptor(
    component_id: &str,
    descriptor: &VulkanBoundDescriptor,
    placed: &VulkanPlacedStreamCircuitResidentPlan,
) -> (r: VulkanPlacedBoundDescriptor)
    ensures
        r@ == place_step(component_id@, placed@)(descriptor@),
{
    VulkanPlacedBoundDescriptor {
        binding: descriptor.binding,
        usage: descriptor.usage,
        name: descriptor.name.clone(),
        target: VulkanPlacedBoundDescriptorTarget::from_bound_target(
            component_id,
            &descriptor.target,
            placed,
        ),
    }
}

#[verifier::loop_isolation(false)]
fn place_bound_dispatch(
    dispatch: &VulkanBoundDispatch,
    placed: &VulkanPlacedStreamCircuitResidentPlan,
) -> (r: VulkanPlacedBoundDispatch)
    ensures
        r@ == place_dispatch(placed@)(dispatch@),
{
    let ghost all_descriptors = dispatch.descriptors.deep_view();
    let ghost step_descriptors = place_step(dispatch@.component_id, placed@);
    let mut descriptors: Vec<VulkanPlacedBoundDescriptor> = Vec::new();
    let mut i: usize = 0;
    while i < dispatch.descriptors.len()
        invariant
            i <= dispatch.descriptors.len(),
            descriptors@.len() == i,
            forall|j: int| 0 <= j < i ==> (#[trigger] descriptors.deep_view()[j]) == step_descriptors(all_descriptors[j]),
        decreases dispatch.descriptors.len() - i,
    {
        let item = &dispatch.descriptors[i];
        assert(all_descriptors[i as int] == item.deep_view());
        let added = place_descriptor(dispatch.component_id.as_str(), item, placed);
        let ghost before = descriptors.deep_view();
        let ghost value = added.deep_view();
        descriptors.push(added);
        assert(descriptors.deep_view() =~= before.push(value));
        i += 1;
    }
    assert(descriptors.deep_view() =~= all_descriptors.map_values(step_descriptors));
    VulkanPlacedBoundDispatch {
        dispatch_index: dispatch.dispatch_index,
        kernel_id: dispatch.kernel_id.clone(),
        component_id: dispatch.component_id.clone(),
        circuit_id: dispatch.circuit_id.clone(),
        node_index: dispatch.node_index,
        node_id: dispatch.node_id.clone(),
        op: dispatch.op.clone(),
        reusable_family_id: dispatch.reusable_family_id.clone(),
        artifact_path: dispatch.artifact_path.clone(),
        entry_point: dispatch.entry_point.clone(),
        local_size_x: dispatch.local_size_x,
        descriptors,
        push_constants: kernel_interface::copy_scalars(&dispatch.push_constants),
        uses_stream_tick: dispatch.uses_stream_tick,
    }
}

proof fn lemma_placed_lengths(
    bound: Seq<VulkanBoundDispatchView>,
    placed: VulkanPlacedStreamCircuitResidentPlanView,
)
    ensures
        sequence::nested_len(bound.map_values(place_dispatch(placed)), placed_descriptors())
            == sequence::nested_len(bound, bound_descriptors()),
    decreases bound.len(),
{
    if bound.len() > 0 {
        lemma_placed_lengths(bound.drop_last(), placed);
        assert(bound.map_values(place_dispatch(placed)).drop_last() =~= bound.drop_last().map_values(
            place_dispatch(placed),
        ));
    }
}

/// Whether a launch is that of a node.
pub open spec fn placed_dispatch_named(component_id: Seq<char>, node_id: Seq<char>) -> spec_fn(
    VulkanPlacedBoundDispatchView,
) -> bool {
    |dispatch: VulkanPlacedBoundDispatchView|
        dispatch.component_id == component_id && dispatch.node_id == node_id
}

/// Whether a placed plan holds what a bound plan holds: the same launches in order, of each
/// descriptor the binding, the usage and the name, and the same number of descriptors. Those that were
/// bound to resident resources stay so, and those at the boundary of a circuit lie at the model's
/// boundary, on a local, an incoming or an outgoing edge.
pub open spec fn splits_the_boundary(
    bound: VulkanBoundDispatchPlanView,
    plan: VulkanPlacedBoundDispatchPlanView,
) -> bool {
    &&& plan.total_descriptor_count == bound.total_descriptor_count
    &&& plan.resident_descriptor_count == bound.permanent_parameter_descriptor_count
        + bound.stream_state_descriptor_count + bound.activation_slot_descriptor_count
    &&& plan.model_boundary_descriptor_count + plan.local_cable_descriptor_count
        + plan.incoming_cable_descriptor_count + plan.outgoing_cable_descriptor_count
        == bound.boundary_descriptor_count
    &&& plan.dispatches.len() == bound.dispatches.len()
    &&& forall|i: int|
        0 <= i < plan.dispatches.len() ==> (#[trigger] plan.dispatches[i]).dispatch_index
            == bound.dispatches[i].dispatch_index && plan.dispatches[i].kernel_id
            == bound.dispatches[i].kernel_id && plan.dispatches[i].descriptors.len()
            == bound.dispatches[i].descriptors.len()
    &&& forall|i: int, j: int|
        0 <= i < plan.dispatches.len() && 0 <= j < plan.dispatches[i].descriptors.len() ==> {
            let after = #[trigger] plan.dispatches[i].descriptors[j];
            let before = bound.dispatches[i].descriptors[j];
            &&& after.binding == before.binding
            &&& after.usage == before.usage
            &&& after.name == before.name
        }
}

impl VulkanPlacedBoundDispatchPlan {
    /// Tells for each boundary signal of a bound plan whether an edge of the device carries it.
    #[verifier::loop_isolation(false)]
    pub fn from_bound_plan(
        bound_plan: &VulkanBoundDispatchPlan,
        placed_resident_plan: &VulkanPlacedStreamCircuitResidentPlan,
    ) -> (r: Self)
        requires
            sequence::nested_len(bound_plan@.dispatches, bound_descriptors()) <= usize::MAX,
        ensures
            r@ == placed_plan(bound_plan@, placed_resident_plan@),
            is_counted(bound_plan@) ==> splits_the_boundary(bound_plan@, r@),
    {
        reveal(placed_plan);
        proof {
            if is_counted(bound_plan@) {
                lemma_placed_plan_splits(bound_plan@, placed_resident_plan@);
            }
        }
        let ghost all_dispatches = bound_plan.dispatches.deep_view();
        let ghost step_dispatches = place_dispatch(placed_resident_plan@);
        let mut dispatches: Vec<VulkanPlacedBoundDispatch> = Vec::new();
        let mut i: usize = 0;
        while i < bound_plan.dispatches.len()
            invariant
                i <= bound_plan.dispatches.len(),
                dispatches@.len() == i,
                forall|j: int| 0 <= j < i ==> (#[trigger] dispatches.deep_view()[j]) == step_dispatches(all_dispatches[j]),
            decreases bound_plan.dispatches.len() - i,
        {
            let item = &bound_plan.dispatches[i];
            assert(all_dispatches[i as int] == item.deep_view());
            let added = place_bound_dispatch(item, placed_resident_plan);
            let ghost before = dispatches.deep_view();
            let ghost value = added.deep_view();
            dispatches.push(added);
            assert(dispatches.deep_view() =~= before.push(value));
            i += 1;
        }
        assert(dispatches.deep_view() =~= all_dispatches.map_values(step_dispatches));
        proof {
            lemma_placed_lengths(bound_plan@.dispatches, placed_resident_plan@);
        }
        count_placed_dispatches(
            bound_plan.backend_id.clone(),
            placed_resident_plan.device_id.clone(),
            dispatches,
        )
    }

    /// The first launch of a node.
    #[verifier::loop_isolation(false)]
    pub fn dispatch(&self, component_id: &str, node_id: &str) -> (r: Option<&VulkanPlacedBoundDispatch>)
        ensures
            r.deep_view() == sequence::find_first(
                self@.dispatches,
                placed_dispatch_named(component_id@, node_id@),
            ),
    {
        let ghost all = self.dispatches.deep_view();
        let ghost p = placed_dispatch_named(component_id@, node_id@);
        let mut i: usize = 0;
        while i < self.dispatches.len()
            invariant
                i <= self.dispatches.len(),
                forall|j: int| 0 <= j < i ==> !p(#[trigger] all[j]),
            decreases self.dispatches.len() - i,
        {
            let item = &self.dispatches[i];
            assert(all[i as int] == item.deep_view());
            if text::same(item.component_id.as_str(), component_id) && text::same(item.node_id.as_str(), node_id) {
                proof {
                    sequence::lemma_find_first_at(all, p, i as int);
                }
                return Some(item);
            }
            i += 1;
        }
        proof {
            sequence::lemma_find_first_none(all, p);
        }
        None
    }
}

#[verifier::loop_isolation(false)]
fn count_placed_dispatches(
    backend_id: String,
    device_id: String,
    dispatches: Vec<VulkanPlacedBoundDispatch>,
) -> (r: VulkanPlacedBoundDispatchPlan)
    requires
        sequence::nested_len(dispatches.deep_view(), placed_descriptors()) <= usize::MAX,
    ensures
        r@.backend_id == backend_id@,
        r@.device_id == device_id@,
        r@.dispatches == dispatches.deep_view(),
        r@.total_descriptor_count == sequence::nested_len(r@.dispatches, placed_descriptors()),
        r@.resident_descriptor_count == sequence::nested_count(
            r@.dispatches,
            placed_descriptors(),
            placed_resident(),
        ),
        r@.model_boundary_descriptor_count == sequence::nested_count(
            r@.dispatches,
            placed_descriptors(),
            placed_boundary(),
        ),
        r@.local_cable_descriptor_count == sequence::nested_count(
            r@.dispatches,
            placed_descriptors(),
            placed_local(),
        ),
        r@.incoming_cable_descriptor_count == sequence::nested_count(
            r@.dispatches,
            placed_descriptors(),
            placed_incoming(),
        ),
        r@.outgoing_cable_descriptor_count == sequence::nested_count(
            r@.dispatches,
            placed_descriptors(),
            placed_outgoing(),
        ),
{
    let ghost all = dispatches.deep_view();
    let ghost parts = placed_descriptors();
    let mut resident_descriptor_count: usize = 0;
    let mut model_boundary_descriptor_count: usize = 0;
    let mut local_cable_descriptor_count: usize = 0;
    let mut incoming_cable_descriptor_count: usize = 0;
    let mut outgoing_cable_descriptor_count: usize = 0;
    let mut i: usize = 0;
    assert(all.take(0) =~= Seq::empty());
    while i < dispatches.len()
        invariant
            i <= dispatches.len(),
            resident_descriptor_count == sequence::nested_count(all.take(i as int), parts, placed_resident()),
            model_boundary_descriptor_count == sequence::nested_count(all.take(i as int), parts, placed_boundary()),
            local_cable_descriptor_count == sequence::nested_count(all.take(i as int), parts, placed_local()),
            incoming_cable_descriptor_count == sequence::nested_count(all.take(i as int), parts, placed_incoming()),
            outgoing_cable_descriptor_count == sequence::nested_count(all.take(i as int), parts, placed_outgoing()),
            resident_descriptor_count + model_boundary_descriptor_count + local_cable_descriptor_count + incoming_cable_descriptor_count + outgoing_cable_descriptor_count == sequence::nested_len(all.take(i as int), parts),
        decreases dispatches.len() - i,
    {
        let item = &dispatches[i];
        let ghost here = item@.descriptors;
        let ghost resident_descriptor_count_before = resident_descriptor_count;
        let ghost model_boundary_descriptor_count_before = model_boundary_descriptor_count;
        let ghost local_cable_descriptor_count_before = local_cable_descriptor_count;
        let ghost incoming_cable_descriptor_count_before = incoming_cable_descriptor_count;
        let ghost outgoing_cable_descriptor_count_before = outgoing_cable_descriptor_count;
        proof {
            assert(all[i as int] == item.deep_view());
            assert(here.take(0) =~= Seq::empty());
            assert(here.len() == item.descriptors@.len());
            sequence::lemma_nested_len_step(all, parts, i as int);
            sequence::lemma_nested_len_prefix(all, parts, i + 1);
            sequence::lemma_nested_count_step(all, parts, placed_resident(), i as int);
            sequence::lemma_nested_count_step(all, parts, placed_boundary(), i as int);
            sequence::lemma_nested_count_step(all, parts, placed_local(), i as int);
            sequence::lemma_nested_count_step(all, parts, placed_incoming(), i as int);
            sequence::lemma_nested_count_step(all, parts, placed_outgoing(), i as int);
        }
        let mut j: usize = 0;
        while j < item.descriptors.len()
            invariant
                j <= item.descriptors.len(),
                resident_descriptor_count == resident_descriptor_count_before + sequence::count(here.take(j as int), placed_resident()),
                model_boundary_descriptor_count == model_boundary_descriptor_count_before + sequence::count(here.take(j as int), placed_boundary()),
                local_cable_descriptor_count == local_cable_descriptor_count_before + sequence::count(here.take(j as int), placed_local()),
                incoming_cable_descriptor_count == incoming_cable_descriptor_count_before + sequence::count(here.take(j as int), placed_incoming()),
                outgoing_cable_descriptor_count == outgoing_cable_descriptor_count_before + sequence::count(here.take(j as int), placed_outgoing()),
                resident_descriptor_count + model_boundary_descriptor_count + local_cable_descriptor_count + incoming_cable_descriptor_count + outgoing_cable_descriptor_count == sequence::nested_len(all.take(i as int), parts) + j,
            decreases item.descriptors.len() - j,
        {
            let part = &item.descriptors[j];
            proof {
                assert(here[j as int] == part.deep_view());
                sequence::lemma_count_step(here, placed_resident(), j as int);
                sequence::lemma_count_step(here, placed_boundary(), j as int);
                sequence::lemma_count_step(here, placed_local(), j as int);
                sequence::lemma_count_step(here, placed_incoming(), j as int);
                sequence::lemma_count_step(here, placed_outgoing(), j as int);
            }
            match &part.target {
                 VulkanPlacedBoundDescriptorTarget::Resident { .. } => {
                     resident_descriptor_count += 1;
                 },
                 VulkanPlacedBoundDescriptorTarget::ModelInput { .. } => {
                     model_boundary_descriptor_count += 1;
                 },
                 VulkanPlacedBoundDescriptorTarget::ModelOutput { .. } => {
                     model_boundary_descriptor_count += 1;
                 },
                 VulkanPlacedBoundDescriptorTarget::LocalEdgeInput { .. } => {
                     local_cable_descriptor_count += 1;
                 },
                 VulkanPlacedBoundDescriptorTarget::LocalEdgeOutput { .. } => {
                     local_cable_descriptor_count += 1;
                 },
                 VulkanPlacedBoundDescriptorTarget::IncomingEdge { .. } => {
                     incoming_cable_descriptor_count += 1;
                 },
                 VulkanPlacedBoundDescriptorTarget::OutgoingEdge { .. } => {
                     outgoing_cable_descriptor_count += 1;
                 },
             }
            j += 1;
        }
        assert(here.take(here.len() as int) =~= here);
        i += 1;
    }
    assert(all.take(all.len() as int) =~= all);
    let total_descriptor_count: usize = resident_descriptor_count + model_boundary_descriptor_count
        + local_cable_descriptor_count + incoming_cable_descriptor_count
        + outgoing_cable_descriptor_count;
    VulkanPlacedBoundDispatchPlan {
        backend_id,
        device_id,
        dispatches,
        total_descriptor_count,
        resident_descriptor_count,
        model_boundary_descriptor_count,
        local_cable_descriptor_count,
        incoming_cable_descriptor_count,
        outgoing_cable_descriptor_count,
    }
}

proof fn lemma_bound_sorts_add_up(dispatches: Seq<VulkanBoundDispatchView>)
    ensures
        sequence::nested_len(dispatches, bound_descriptors()) == sequence::nested_count(
            dispatches,
            bound_descriptors(),
            is_boundary(),
        ) + sequence::nested_count(dispatches, bound_descriptors(), is_parameter())
            + sequence::nested_count(dispatches, bound_descriptors(), is_state())
            + sequence::nested_count(dispatches, bound_descriptors(), is_slot()),
    decreases dispatches.len(),
{
    if dispatches.len() > 0 {
        lemma_bound_sorts_add_up(dispatches.drop_last());
        lemma_descriptor_sorts_add_up(dispatches.last().descriptors);
    }
}

proof fn lemma_descriptor_sorts_add_up(descriptors: Seq<VulkanBoundDescriptorView>)
    ensures
        descriptors.len() == sequence::count(descriptors, is_boundary()) + sequence::count(
            descriptors,
            is_parameter(),
        ) + sequence::count(descriptors, is_state()) + sequence::count(descriptors, is_slot()),
    decreases descriptors.len(),
{
    if descriptors.len() > 0 {
        lemma_descriptor_sorts_add_up(descriptors.drop_last());
    }
}

/// A placed plan has as many descriptors as the plan that it places.
pub proof fn lemma_placed_plan_length(
    bound: VulkanBoundDispatchPlanView,
    placed: VulkanPlacedStreamCircuitResidentPlanView,
)
    ensures
        sequence::nested_len(placed_plan(bound, placed).dispatches, placed_descriptors())
            == sequence::nested_len(bound.dispatches, bound_descriptors()),
{
    reveal(placed_plan);
    lemma_placed_lengths(bound.dispatches, placed);
}

/// Every descriptor of a bound plan is of exactly one sort: the counts of the sorts add up to the
/// number of descriptors.
pub proof fn descriptor_counts_add_up(
    prepared: VulkanPreparedDispatchPlanView,
    buffers: VulkanStreamCircuitStreamBuffersView,
)
    requires
        bound_plan(prepared, buffers) is Ok,
        sequence::total(prepared.dispatches, dispatch_plan::prepared_descriptor_count())
            <= usize::MAX,
    ensures
        ({
            let plan = bound_plan(prepared, buffers)->Ok_0;
            &&& plan.total_descriptor_count == plan.boundary_descriptor_count
                + plan.permanent_parameter_descriptor_count + plan.stream_state_descriptor_count
                + plan.activation_slot_descriptor_count
            &&& plan.total_descriptor_count == sequence::total(
                prepared.dispatches,
                dispatch_plan::prepared_descriptor_count(),
            )
        }),
{
    reveal(bound_plan);
    lemma_bound_lengths(prepared.dispatches, buffers);
    lemma_bound_sorts_add_up(bound_plan(prepared, buffers)->Ok_0.dispatches);
}

proof fn lemma_placed_descriptors_split(
    descriptors: Seq<VulkanBoundDescriptorView>,
    component_id: Seq<char>,
    placed: VulkanPlacedStreamCircuitResidentPlanView,
)
    ensures
        ({
            let step = place_step(component_id, placed);
            let after = descriptors.map_values(step);
            &&& sequence::count(after, placed_resident()) == sequence::count(
                descriptors,
                is_parameter(),
            ) + sequence::count(descriptors, is_state()) + sequence::count(descriptors, is_slot())
            &&& sequence::count(after, placed_boundary()) + sequence::count(after, placed_local())
                + sequence::count(after, placed_incoming()) + sequence::count(
                after,
                placed_outgoing(),
            ) == sequence::count(descriptors, is_boundary())
        }),
    decreases descriptors.len(),
{
    if descriptors.len() > 0 {
        let step = place_step(component_id, placed);
        lemma_placed_descriptors_split(descriptors.drop_last(), component_id, placed);
        assert(descriptors.map_values(step).drop_last() =~= descriptors.drop_last().map_values(step));
        assert(descriptors.map_values(step).last() == step(descriptors.last()));
    }
}

proof fn lemma_placed_sorts_split(
    bound: Seq<VulkanBoundDispatchView>,
    placed: VulkanPlacedStreamCircuitResidentPlanView,
)
    ensures
        ({
            let after = bound.map_values(place_dispatch(placed));
            let parts = bound_descriptors();
            &&& sequence::nested_count(after, placed_descriptors(), placed_resident())
                == sequence::nested_count(bound, parts, is_parameter()) + sequence::nested_count(
                bound,
                parts,
                is_state(),
            ) + sequence::nested_count(bound, parts, is_slot())
            &&& sequence::nested_count(after, placed_descriptors(), placed_boundary())
                + sequence::nested_count(after, placed_descriptors(), placed_local())
                + sequence::nested_count(after, placed_descriptors(), placed_incoming())
                + sequence::nested_count(after, placed_descriptors(), placed_outgoing())
                == sequence::nested_count(bound, parts, is_boundary())
        }),
    decreases bound.len(),
{
    if bound.len() > 0 {
        lemma_placed_sorts_split(bound.drop_last(), placed);
        assert(bound.map_values(place_dispatch(placed)).drop_last() =~= bound.drop_last().map_values(
            place_dispatch(placed),
        ));
        let last = bound.last();
        lemma_placed_descriptors_split(last.descriptors, last.component_id, placed);
    }
}

proof fn lemma_bound_plan_counted(
    prepared: VulkanPreparedDispatchPlanView,
    buffers: VulkanStreamCircuitStreamBuffersView,
)
    requires
        bound_plan(prepared, buffers) is Ok,
        sequence::total(prepared.dispatches, dispatch_plan::prepared_descriptor_count())
            <= usize::MAX,
    ensures
        is_counted(bound_plan(prepared, buffers)->Ok_0),
{
    reveal(bound_plan);
    lemma_bound_lengths(prepared.dispatches, buffers);
}

proof fn lemma_placed_plan_splits(
    bound: VulkanBoundDispatchPlanView,
    placed: VulkanPlacedStreamCircuitResidentPlanView,
)
    requires
        is_counted(bound),
    ensures
        splits_the_boundary(bound, placed_plan(bound, placed)),
{
    reveal(placed_plan);
    lemma_bound_sorts_add_up(bound.dispatches);
    lemma_placed_lengths(bound.dispatches, placed);
    lemma_placed_sorts_split(bound.dispatches, placed);
}

/// Placing a bound plan keeps its launches in order, and of each descriptor the binding, the usage
/// and the name. It keeps the number of descriptors: those that were bound to resident resources
/// stay so, and those at the boundary of a circuit turn out to lie at the model's boundary, on a
/// local, an incoming or an outgoing edge.
pub proof fn placing_splits_the_boundary(
    prepared: VulkanPreparedDispatchPlanView,
    buffers: VulkanStreamCircuitStreamBuffersView,
    placed: VulkanPlacedStreamCircuitResidentPlanView,
)
    requires
        bound_plan(prepared, buffers) is Ok,
        sequence::total(prepared.dispatches, dispatch_plan::prepared_descriptor_count())
            <= usize::MAX,
    ensures
        splits_the_boundary(
            bound_plan(prepared, buffers)->Ok_0,
            placed_plan(bound_plan(prepared, buffers)->Ok_0, placed),
        ),
{
    lemma_bound_plan_counted(prepared, buffers);
    lemma_placed_plan_splits(bound_plan(prepared, buffers)->Ok_0, placed);
}

/// Whether a descriptor is bound to the buffer that was allocated for what it names: the slot of its
/// component, or the state of its component. The buffer has exactly the size that the descriptor
/// expects. Signals at the boundary and parameters stay what they are.
pub open spec fn bound_as_named(
    resource: VulkanDescriptorResourceAddressView,
    target: VulkanBoundDescriptorTargetView,
    buffers: VulkanStreamCircuitStreamBuffersView,
) -> bool {
    match target {
        VulkanBoundDescriptorTargetView::BoundaryInput { signal_id } => resource
            == (VulkanDescriptorResourceAddressView::BoundaryInput { signal_id }),
        VulkanBoundDescriptorTargetView::BoundaryOutput { signal_id } => resource
            == (VulkanDescriptorResourceAddressView::BoundaryOutput { signal_id }),
        VulkanBoundDescriptorTargetView::PermanentParameter { param_id, tensor, byte_count } => {
            resource == (VulkanDescriptorResourceAddressView::PermanentParameter {
                param_id,
                tensor,
                byte_count,
            })
        },
        VulkanBoundDescriptorTargetView::ActivationSlot {
            buffer_index,
            component_id,
            signal_id,
            circuit_id,
            slot,
            byte_capacity,
            signal_byte_capacity,
        } => {
            &&& resource == (VulkanDescriptorResourceAddressView::ActivationSlot {
                component_id,
                signal_id,
                slot,
                byte_capacity,
                signal_byte_capacity,
            })
            &&& buffer_index < buffers.activation_slot_buffers.len()
            &&& buffers.activation_slot_buffers[buffer_index as int].component_id == component_id
            &&& buffers.activation_slot_buffers[buffer_index as int].circuit_id == circuit_id
            &&& buffers.activation_slot_buffers[buffer_index as int].slot == slot
            &&& buffers.activation_slot_buffers[buffer_index as int].byte_capacity == byte_capacity
        },
        VulkanBoundDescriptorTargetView::StreamStateBuffer {
            buffer_index,
            component_id,
            state_id,
            state_type,
            byte_capacity,
            static_bytes,
            bytes_per_activation,
        } => {
            &&& resource == (VulkanDescriptorResourceAddressView::StateBuffer {
                component_id,
                state_id,
                state_type,
                byte_capacity,
                static_bytes,
                bytes_per_activation,
            })
            &&& buffer_index < buffers.state_buffers.len()
            &&& buffers.state_buffers[buffer_index as int].component_id == component_id
            &&& buffers.state_buffers[buffer_index as int].state_id == state_id
            &&& buffers.state_buffers[buffer_index as int].byte_capacity == byte_capacity
        },
        VulkanBoundDescriptorTargetView::StreamStateView {
            buffer_index,
            component_id,
            state_id,
            state_type,
            byte_capacity,
            static_bytes,
            bytes_per_activation,
        } => {
            &&& resource == (VulkanDescriptorResourceAddressView::StateView {
                component_id,
                state_id,
                state_type,
                byte_capacity,
                static_bytes,
                bytes_per_activation,
            })
            &&& buffer_index < buffers.state_buffers.len()
            &&& buffers.state_buffers[buffer_index as int].component_id == component_id
            &&& buffers.state_buffers[buffer_index as int].state_id == state_id
            &&& buffers.state_buffers[buffer_index as int].byte_capacity == byte_capacity
        },
    }
}

/// Binding keeps the launches in order with all that they carry, and of each descriptor the number,
/// the usage and the name.
pub proof fn binding_keeps_the_launches(
    prepared: VulkanPreparedDispatchPlanView,
    buffers: VulkanStreamCircuitStreamBuffersView,
    d: int,
)
    requires
        bound_plan(prepared, buffers) is Ok,
        0 <= d < prepared.dispatches.len(),
    ensures
        ({
            let plan = bound_plan(prepared, buffers)->Ok_0;
            let before = prepared.dispatches[d];
            let after = plan.dispatches[d];
            &&& plan.backend_id == prepared.backend_id
            &&& plan.dispatches.len() == prepared.dispatches.len()
            &&& after.dispatch_index == before.dispatch_index
            &&& after.kernel_id == before.kernel_id
            &&& after.component_id == before.component_id
            &&& after.circuit_id == before.circuit_id
            &&& after.node_index == before.node_index
            &&& after.node_id == before.node_id
            &&& after.op == before.op
            &&& after.reusable_family_id == before.reusable_family_id
            &&& after.artifact_path == before.artifact_path
            &&& after.entry_point == before.entry_point
            &&& after.local_size_x == before.local_size_x
            &&& after.push_constants == before.push_constants
            &&& after.uses_stream_tick == before.uses_stream_tick
            &&& after.descriptors.len() == before.descriptors.len()
            &&& forall|k: int|
                0 <= k < before.descriptors.len() ==> {
                    let bound = #[trigger] after.descriptors[k];
                    &&& bound.binding == before.descriptors[k].binding
                    &&& bound.usage == before.descriptors[k].usage
                    &&& bound.name == before.descriptors[k].name
                }
        }),
{
    reveal(bound_plan);
    let step = bind_dispatch(buffers);
    sequence::lemma_try_map_ok(prepared.dispatches, step);
    let before = prepared.dispatches[d];
    assert(step(prepared.dispatches[d]) is Ok);
    sequence::lemma_try_map_ok(before.descriptors, bind_step(before, buffers));
    assert forall|k: int| 0 <= k < before.descriptors.len() implies ({
        let bound = #[trigger] bound_plan(prepared, buffers)->Ok_0.dispatches[d].descriptors[k];
        &&& bound.binding == before.descriptors[k].binding
        &&& bound.usage == before.descriptors[k].usage
        &&& bound.name == before.descriptors[k].name
    }) by {
        assert(bind_step(before, buffers)(before.descriptors[k]) is Ok);
    }
}

/// Every descriptor of a bound launch is bound to the buffer of what it names.
pub proof fn descriptors_are_bound_as_named(
    prepared: VulkanPreparedDispatchPlanView,
    buffers: VulkanStreamCircuitStreamBuffersView,
    d: int,
    k: int,
)
    requires
        bound_plan(prepared, buffers) is Ok,
        buffers.activation_slot_buffers.len() <= usize::MAX,
        buffers.state_buffers.len() <= usize::MAX,
        0 <= d < prepared.dispatches.len(),
        0 <= k < prepared.dispatches[d].descriptors.len(),
    ensures
        bound_as_named(
            prepared.dispatches[d].descriptors[k].resource,
            bound_plan(prepared, buffers)->Ok_0.dispatches[d].descriptors[k].target,
            buffers,
        ),
{
    reveal(bound_plan);
    reveal(bound_target);
    let step = bind_dispatch(buffers);
    sequence::lemma_try_map_ok(prepared.dispatches, step);
    let before = prepared.dispatches[d];
    assert(step(prepared.dispatches[d]) is Ok);
    sequence::lemma_try_map_ok(before.descriptors, bind_step(before, buffers));
    assert(bind_step(before, buffers)(before.descriptors[k]) is Ok);
    match before.descriptors[k].resource {
        VulkanDescriptorResourceAddressView::ActivationSlot { component_id, slot, .. } => {
            sequence::lemma_first_position(
                buffers.activation_slot_buffers,
                resident_plan::slot_matcher(component_id, slot),
            );
        },
        VulkanDescriptorResourceAddressView::StateBuffer { component_id, state_id, .. } => {
            sequence::lemma_first_position(
                buffers.state_buffers,
                resident_plan::state_matcher(component_id, state_id),
            );
        },
        VulkanDescriptorResourceAddressView::StateView { component_id, state_id, .. } => {
            sequence::lemma_first_position(
                buffers.state_buffers,
                resident_plan::state_matcher(component_id, state_id),
            );
        },
        _ => {},
    }
}

/// Whether no edge ends at a port.
pub open spec fn none_ends_at(
    edges: Seq<ComponentEdgePlacementView>,
    component_id: Seq<char>,
    port_id: Seq<char>,
) -> bool {
    forall|e: int|
        0 <= e < edges.len() ==> !((#[trigger] edges[e]).destination_component_id == component_id
            && edges[e].destination_port_id == port_id)
}

/// Whether no edge starts at a port.
pub open spec fn none_starts_at(
    edges: Seq<ComponentEdgePlacementView>,
    component_id: Seq<char>,
    port_id: Seq<char>,
) -> bool {
    forall|e: int|
        0 <= e < edges.len() ==> !((#[trigger] edges[e]).source_component_id == component_id
            && edges[e].source_port_id == port_id)
}

/// Whether a signal at the boundary of a circuit is led where the device's edges lead it. An input
/// comes over a local edge that ends at its port, over an incoming edge where no local one does, and
/// from the model's input where no edge does. An output goes over a local edge that starts at its
/// port, over an outgoing edge where no local one does, and to the model's output where no edge
/// does. What is resident stays so.
pub open spec fn led_by_edges(
    component_id: Seq<char>,
    target: VulkanBoundDescriptorTargetView,
    led: VulkanPlacedBoundDescriptorTargetView,
    placed: VulkanPlacedStreamCircuitResidentPlanView,
) -> bool {
    match led {
        VulkanPlacedBoundDescriptorTargetView::Resident { target: kept } => {
            &&& kept == target
            &&& !(target is BoundaryInput)
            &&& !(target is BoundaryOutput)
        },
        VulkanPlacedBoundDescriptorTargetView::LocalEdgeInput { edge } => {
            &&& target == (VulkanBoundDescriptorTargetView::BoundaryInput {
                signal_id: edge.destination_port_id,
            })
            &&& edge.destination_component_id == component_id
            &&& placed.local_edges.contains(edge)
        },
        VulkanPlacedBoundDescriptorTargetView::IncomingEdge { edge } => {
            &&& target == (VulkanBoundDescriptorTargetView::BoundaryInput {
                signal_id: edge.destination_port_id,
            })
            &&& edge.destination_component_id == component_id
            &&& placed.incoming_edges.contains(edge)
            &&& none_ends_at(placed.local_edges, component_id, edge.destination_port_id)
        },
        VulkanPlacedBoundDescriptorTargetView::ModelInput { signal_id } => {
            &&& target == (VulkanBoundDescriptorTargetView::BoundaryInput { signal_id })
            &&& none_ends_at(placed.local_edges, component_id, signal_id)
            &&& none_ends_at(placed.incoming_edges, component_id, signal_id)
        },
        VulkanPlacedBoundDescriptorTargetView::LocalEdgeOutput { edge } => {
            &&& target == (VulkanBoundDescriptorTargetView::BoundaryOutput {
                signal_id: edge.source_port_id,
            })
            &&& edge.source_component_id == component_id
            &&& placed.local_edges.contains(edge)
        },
        VulkanPlacedBoundDescriptorTargetView::OutgoingEdge { edge } => {
            &&& target == (VulkanBoundDescriptorTargetView::BoundaryOutput {
                signal_id: edge.source_port_id,
            })
            &&& edge.source_component_id == component_id
            &&& placed.outgoing_edges.contains(edge)
            &&& none_starts_at(placed.local_edges, component_id, edge.source_port_id)
        },
        VulkanPlacedBoundDescriptorTargetView::ModelOutput { signal_id } => {
            &&& target == (VulkanBoundDescriptorTargetView::BoundaryOutput { signal_id })
            &&& none_starts_at(placed.local_edges, component_id, signal_id)
            &&& none_starts_at(placed.outgoing_edges, component_id, signal_id)
        },
    }
}

proof fn lemma_edge_found(
    edges: Seq<ComponentEdgePlacementView>,
    p: spec_fn(ComponentEdgePlacementView) -> bool,
)
    ensures
        sequence::find_first(edges, p) matches Some(edge) ==> edges.contains(edge) && p(edge),
        sequence::find_first(edges, p) is None ==> forall|e: int|
            0 <= e < edges.len() ==> !p(#[trigger] edges[e]),
{
    if sequence::find_first(edges, p) is Some {
        let i = sequence::lemma_find_first_some(edges, p);
        assert(edges[i] == sequence::find_first(edges, p)->Some_0);
    } else {
        sequence::lemma_find_none_all(edges, p);
    }
}

/// Placing keeps the launches in order with all that they carry, and leads the signals at the
/// boundary of their circuits over the edges of the device.
pub proof fn placing_follows_the_edges(
    bound: VulkanBoundDispatchPlanView,
    placed: VulkanPlacedStreamCircuitResidentPlanView,
    d: int,
    k: int,
)
    requires
        0 <= d < bound.dispatches.len(),
    ensures
        ({
            let plan = placed_plan(bound, placed);
            let before = bound.dispatches[d];
            let after = plan.dispatches[d];
            &&& plan.backend_id == bound.backend_id
            &&& plan.device_id == placed.device_id
            &&& plan.dispatches.len() == bound.dispatches.len()
            &&& after.dispatch_index == before.dispatch_index
            &&& after.kernel_id == before.kernel_id
            &&& after.component_id == before.component_id
            &&& after.circuit_id == before.circuit_id
            &&& after.node_index == before.node_index
            &&& after.node_id == before.node_id
            &&& after.op == before.op
            &&& after.reusable_family_id == before.reusable_family_id
            &&& after.artifact_path == before.artifact_path
            &&& after.entry_point == before.entry_point
            &&& after.local_size_x == before.local_size_x
            &&& after.push_constants == before.push_constants
            &&& after.uses_stream_tick == before.uses_stream_tick
            &&& after.descriptors.len() == before.descriptors.len()
            &&& 0 <= k < before.descriptors.len() ==> {
                &&& after.descriptors[k].binding == before.descriptors[k].binding
                &&& after.descriptors[k].usage == before.descriptors[k].usage
                &&& after.descriptors[k].name == before.descriptors[k].name
                &&& led_by_edges(
                    before.component_id,
                    before.descriptors[k].target,
                    after.descriptors[k].target,
                    placed,
                )
            }
        }),
{
    reveal(placed_plan);
    let before = bound.dispatches[d];
    if 0 <= k < before.descriptors.len() {
        match before.descriptors[k].target {
            VulkanBoundDescriptorTargetView::BoundaryInput { signal_id } => {
                lemma_edge_found(placed.local_edges, ends_at(before.component_id, signal_id));
                lemma_edge_found(placed.incoming_edges, ends_at(before.component_id, signal_id));
            },
            VulkanBoundDescriptorTargetView::BoundaryOutput { signal_id } => {
                lemma_edge_found(placed.local_edges, starts_at(before.component_id, signal_id));
                lemma_edge_found(placed.outgoing_edges, starts_at(before.component_id, signal_id));
            },
            _ => {},
        }
    }
}

/// A bound dispatch is found by its component and its node: the first that has both, and none where
/// none has.
pub proof fn bound_dispatches_are_found_by_name(
    all: Seq<VulkanBoundDispatchView>,
    component_id: Seq<char>,
    node_id: Seq<char>,
    j: int,
)
    ensures
        match sequence::find_first(all, bound_dispatch_named(component_id, node_id)) {
            Some(found) => exists|i: int|
                {
                    &&& 0 <= i < all.len()
                    &&& found == #[trigger] all[i]
                    &&& all[i].component_id == component_id
                    &&& all[i].node_id == node_id
                    &&& 0 <= j < i ==> !(all[j].component_id == component_id && all[j].node_id == node_id)
                },
            None => 0 <= j < all.len() ==> !(all[j].component_id == component_id && all[j].node_id == node_id),
        },
{
    let p = bound_dispatch_named(component_id, node_id);
    if 0 <= j < all.len() {
        assert(p(all[j]) <==> all[j].component_id == component_id && all[j].node_id == node_id);
    }
    if sequence::find_first(all, p) is Some {
        let i = sequence::lemma_find_first_some(all, p);
        assert(p(all[i]));
        assert(sequence::find_first(all, p)->Some_0 == all[i]);
    } else {
        sequence::lemma_find_none_all(all, p);
    }
}

/// A placed dispatch is found by its component and its node: the first that has both, and none where
/// none has.
pub proof fn placed_dispatches_are_found_by_name(
    all: Seq<VulkanPlacedBoundDispatchView>,
    component_id: Seq<char>,
    node_id: Seq<char>,
    j: int,
)
    ensures
        match sequence::find_first(all, placed_dispatch_named(component_id, node_id)) {
            Some(found) => exists|i: int|
                {
                    &&& 0 <= i < all.len()
                    &&& found == #[trigger] all[i]
                    &&& all[i].component_id == component_id
                    &&& all[i].node_id == node_id
                    &&& 0 <= j < i ==> !(all[j].component_id == component_id && all[j].node_id == node_id)
                },
            None => 0 <= j < all.len() ==> !(all[j].component_id == component_id && all[j].node_id == node_id),
        },
{
    let p = placed_dispatch_named(component_id, node_id);
    if 0 <= j < all.len() {
        assert(p(all[j]) <==> all[j].component_id == component_id && all[j].node_id == node_id);
    }
    if sequence::find_first(all, p) is Some {
        let i = sequence::lemma_find_first_some(all, p);
        assert(p(all[i]));
        assert(sequence::find_first(all, p)->Some_0 == all[i]);
    } else {
        sequence::lemma_find_none_all(all, p);
    }
}

} // verus!
