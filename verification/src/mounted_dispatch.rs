//! Bound launches with the edge buffers of their device.

use crate::bound_dispatch::VulkanBoundDescriptorTarget;
use crate::bound_dispatch::VulkanBoundDescriptorTargetView;
use crate::bound_dispatch::VulkanBoundDispatchPlanError;
use crate::bound_dispatch::VulkanBoundDispatchPlanErrorView;
use crate::bound_dispatch::VulkanPlacedBoundDescriptor;
use crate::bound_dispatch::VulkanPlacedBoundDescriptorTarget;
use crate::bound_dispatch::VulkanPlacedBoundDescriptorTargetView;
use crate::bound_dispatch::VulkanPlacedBoundDescriptorView;
use crate::bound_dispatch::VulkanPlacedBoundDispatch;
use crate::bound_dispatch::VulkanPlacedBoundDispatchPlan;
use crate::bound_dispatch::VulkanPlacedBoundDispatchPlanView;
use crate::bound_dispatch::VulkanPlacedBoundDispatchView;
use crate::bound_dispatch;
use crate::cables::buffers as cable_buffers;
use crate::cables::buffers::VulkanPlacedCableBufferAllocationView;
use crate::cables::buffers::VulkanPlacedCableDirection;
use crate::cables::buffers::VulkanPlacedCableIoBuffers;
use crate::cables::buffers::VulkanPlacedCableIoBuffersView;
use crate::cables::plan::VulkanPlacedCableEndpoint;
use crate::cables::plan::VulkanPlacedCableEndpointView;
use crate::cables::plan::VulkanPlacedLocalCable;
use crate::cables::plan::VulkanPlacedLocalCableView;
use crate::edges::buffers::VulkanPlacedEdgeDirection;
use crate::kernel_interface::VulkanKernelDescriptorUsage;
use crate::kernel_interface::VulkanKernelScalarBinding;
use crate::kernel_interface::VulkanKernelScalarBindingView;
use crate::kernel_interface;
use crate::sequence;
use crate::text::Message;
use crate::text;
use vstd::prelude::*;

verus! {

/// The buffer of a local cable that a descriptor is bound to.
#[derive(Debug, PartialEq, Eq)]
pub struct VulkanPlacedLocalCableBufferBinding {
    pub buffer_index: usize,
    pub cable: VulkanPlacedLocalCable,
    pub byte_capacity: usize,
}

#[verifier::ext_equal]
pub struct VulkanPlacedLocalCableBufferBindingView {
    pub buffer_index: usize,
    pub cable: VulkanPlacedLocalCableView,
    pub byte_capacity: usize,
}

impl DeepView for VulkanPlacedLocalCableBufferBinding {
    type V = VulkanPlacedLocalCableBufferBindingView;

    open spec fn deep_view(&self) -> VulkanPlacedLocalCableBufferBindingView {
        VulkanPlacedLocalCableBufferBindingView {
            buffer_index: self.buffer_index,
            cable: self.cable.deep_view(),
            byte_capacity: self.byte_capacity,
        }
    }
}

impl View for VulkanPlacedLocalCableBufferBinding {
    type V = VulkanPlacedLocalCableBufferBindingView;

    open spec fn view(&self) -> VulkanPlacedLocalCableBufferBindingView {
        self.deep_view()
    }
}

impl Clone for VulkanPlacedLocalCableBufferBinding {
    fn clone(&self) -> (r: Self)
        ensures
            r@ == self@,
    {
        VulkanPlacedLocalCableBufferBinding {
            buffer_index: self.buffer_index,
            cable: self.cable.clone(),
            byte_capacity: self.byte_capacity,
        }
    }
}

/// The buffer of a cable's endpoint that a descriptor is bound to.
#[derive(Debug, PartialEq, Eq)]
pub struct VulkanPlacedCableEndpointBufferBinding {
    pub buffer_index: usize,
    pub endpoint: VulkanPlacedCableEndpoint,
    pub byte_capacity: usize,
}

#[verifier::ext_equal]
pub struct VulkanPlacedCableEndpointBufferBindingView {
    pub buffer_index: usize,
    pub endpoint: VulkanPlacedCableEndpointView,
    pub byte_capacity: usize,
}

impl DeepView for VulkanPlacedCableEndpointBufferBinding {
    type V = VulkanPlacedCableEndpointBufferBindingView;

    open spec fn deep_view(&self) -> VulkanPlacedCableEndpointBufferBindingView {
        VulkanPlacedCableEndpointBufferBindingView {
            buffer_index: self.buffer_index,
            endpoint: self.endpoint.deep_view(),
            byte_capacity: self.byte_capacity,
        }
    }
}

impl View for VulkanPlacedCableEndpointBufferBinding {
    type V = VulkanPlacedCableEndpointBufferBindingView;

    open spec fn view(&self) -> VulkanPlacedCableEndpointBufferBindingView {
        self.deep_view()
    }
}

impl Clone for VulkanPlacedCableEndpointBufferBinding {
    fn clone(&self) -> (r: Self)
        ensures
            r@ == self@,
    {
        VulkanPlacedCableEndpointBufferBinding {
            buffer_index: self.buffer_index,
            endpoint: self.endpoint.clone(),
            byte_capacity: self.byte_capacity,
        }
    }
}

/// What a descriptor is bound to on a device whose cable buffers are mounted.
#[derive(Debug, PartialEq, Eq)]
pub enum VulkanMountedPlacedBoundDescriptorTarget {
    Resident { target: VulkanBoundDescriptorTarget },
    ModelInput { signal_id: String },
    ModelOutput { signal_id: String },
    LocalCableInputBuffer { cable: VulkanPlacedLocalCableBufferBinding },
    LocalCableOutputBuffer { cable: VulkanPlacedLocalCableBufferBinding },
    IncomingCableBuffer { endpoint: VulkanPlacedCableEndpointBufferBinding },
    OutgoingCableBuffer { endpoint: VulkanPlacedCableEndpointBufferBinding },
}

#[verifier::ext_equal]
pub enum VulkanMountedPlacedBoundDescriptorTargetView {
    Resident { target: VulkanBoundDescriptorTargetView },
    ModelInput { signal_id: Seq<char> },
    ModelOutput { signal_id: Seq<char> },
    LocalCableInputBuffer { cable: VulkanPlacedLocalCableBufferBindingView },
    LocalCableOutputBuffer { cable: VulkanPlacedLocalCableBufferBindingView },
    IncomingCableBuffer { endpoint: VulkanPlacedCableEndpointBufferBindingView },
    OutgoingCableBuffer { endpoint: VulkanPlacedCableEndpointBufferBindingView },
}

impl DeepView for VulkanMountedPlacedBoundDescriptorTarget {
    type V = VulkanMountedPlacedBoundDescriptorTargetView;

    open spec fn deep_view(&self) -> VulkanMountedPlacedBoundDescriptorTargetView {
        match self {
            VulkanMountedPlacedBoundDescriptorTarget::Resident { target } => VulkanMountedPlacedBoundDescriptorTargetView::Resident { target: target.deep_view() },
            VulkanMountedPlacedBoundDescriptorTarget::ModelInput { signal_id } => VulkanMountedPlacedBoundDescriptorTargetView::ModelInput { signal_id: signal_id.deep_view() },
            VulkanMountedPlacedBoundDescriptorTarget::ModelOutput { signal_id } => VulkanMountedPlacedBoundDescriptorTargetView::ModelOutput { signal_id: signal_id.deep_view() },
            VulkanMountedPlacedBoundDescriptorTarget::LocalCableInputBuffer { cable } => VulkanMountedPlacedBoundDescriptorTargetView::LocalCableInputBuffer { cable: cable.deep_view() },
            VulkanMountedPlacedBoundDescriptorTarget::LocalCableOutputBuffer { cable } => VulkanMountedPlacedBoundDescriptorTargetView::LocalCableOutputBuffer { cable: cable.deep_view() },
            VulkanMountedPlacedBoundDescriptorTarget::IncomingCableBuffer { endpoint } => VulkanMountedPlacedBoundDescriptorTargetView::IncomingCableBuffer { endpoint: endpoint.deep_view() },
            VulkanMountedPlacedBoundDescriptorTarget::OutgoingCableBuffer { endpoint } => VulkanMountedPlacedBoundDescriptorTargetView::OutgoingCableBuffer { endpoint: endpoint.deep_view() },
        }
    }
}

impl View for VulkanMountedPlacedBoundDescriptorTarget {
    type V = VulkanMountedPlacedBoundDescriptorTargetView;

    open spec fn view(&self) -> VulkanMountedPlacedBoundDescriptorTargetView {
        self.deep_view()
    }
}

impl Clone for VulkanMountedPlacedBoundDescriptorTarget {
    fn clone(&self) -> (r: Self)
        ensures
            r@ == self@,
    {
        match self {
            VulkanMountedPlacedBoundDescriptorTarget::Resident { target } => VulkanMountedPlacedBoundDescriptorTarget::Resident { target: target.clone() },
            VulkanMountedPlacedBoundDescriptorTarget::ModelInput { signal_id } => VulkanMountedPlacedBoundDescriptorTarget::ModelInput { signal_id: signal_id.clone() },
            VulkanMountedPlacedBoundDescriptorTarget::ModelOutput { signal_id } => VulkanMountedPlacedBoundDescriptorTarget::ModelOutput { signal_id: signal_id.clone() },
            VulkanMountedPlacedBoundDescriptorTarget::LocalCableInputBuffer { cable } => VulkanMountedPlacedBoundDescriptorTarget::LocalCableInputBuffer { cable: cable.clone() },
            VulkanMountedPlacedBoundDescriptorTarget::LocalCableOutputBuffer { cable } => VulkanMountedPlacedBoundDescriptorTarget::LocalCableOutputBuffer { cable: cable.clone() },
            VulkanMountedPlacedBoundDescriptorTarget::IncomingCableBuffer { endpoint } => VulkanMountedPlacedBoundDescriptorTarget::IncomingCableBuffer { endpoint: endpoint.clone() },
            VulkanMountedPlacedBoundDescriptorTarget::OutgoingCableBuffer { endpoint } => VulkanMountedPlacedBoundDescriptorTarget::OutgoingCableBuffer { endpoint: endpoint.clone() },
        }
    }
}

/// A descriptor with the buffer that it is bound to.
#[derive(Debug, PartialEq, Eq)]
pub struct VulkanMountedPlacedBoundDescriptor {
    pub binding: usize,
    pub usage: VulkanKernelDescriptorUsage,
    pub name: String,
    pub target: VulkanMountedPlacedBoundDescriptorTarget,
}

#[verifier::ext_equal]
pub struct VulkanMountedPlacedBoundDescriptorView {
    pub binding: usize,
    pub usage: VulkanKernelDescriptorUsage,
    pub name: Seq<char>,
    pub target: VulkanMountedPlacedBoundDescriptorTargetView,
}

impl DeepView for VulkanMountedPlacedBoundDescriptor {
    type V = VulkanMountedPlacedBoundDescriptorView;

    open spec fn deep_view(&self) -> VulkanMountedPlacedBoundDescriptorView {
        VulkanMountedPlacedBoundDescriptorView {
            binding: self.binding,
            usage: self.usage,
            name: self.name.deep_view(),
            target: self.target.deep_view(),
        }
    }
}

impl View for VulkanMountedPlacedBoundDescriptor {
    type V = VulkanMountedPlacedBoundDescriptorView;

    open spec fn view(&self) -> VulkanMountedPlacedBoundDescriptorView {
        self.deep_view()
    }
}

impl Clone for VulkanMountedPlacedBoundDescriptor {
    fn clone(&self) -> (r: Self)
        ensures
            r@ == self@,
    {
        VulkanMountedPlacedBoundDescriptor {
            binding: self.binding,
            usage: self.usage,
            name: self.name.clone(),
            target: self.target.clone(),
        }
    }
}

/// A launch with the buffers that its descriptors are bound to.
#[derive(Debug, PartialEq, Eq)]
pub struct VulkanMountedPlacedBoundDispatch {
    pub dispatch_index: usize,
    pub kernel_id: String,
    pub component_id: String,
    pub circuit_id: String,
    pub node_index: usize,
    pub node_id: String,
    pub op: String,
    pub reusable_family_id: String,
    pub artifact_path: String,
    pub entry_point: String,
    pub local_size_x: u32,
    pub descriptors: Vec<VulkanMountedPlacedBoundDescriptor>,
    pub push_constants: Vec<VulkanKernelScalarBinding>,
    pub uses_stream_tick: bool,
}

#[verifier::ext_equal]
pub struct VulkanMountedPlacedBoundDispatchView {
    pub dispatch_index: usize,
    pub kernel_id: Seq<char>,
    pub component_id: Seq<char>,
    pub circuit_id: Seq<char>,
    pub node_index: usize,
    pub node_id: Seq<char>,
    pub op: Seq<char>,
    pub reusable_family_id: Seq<char>,
    pub artifact_path: Seq<char>,
    pub entry_point: Seq<char>,
    pub local_size_x: u32,
    pub descriptors: Seq<VulkanMountedPlacedBoundDescriptorView>,
    pub push_constants: Seq<VulkanKernelScalarBindingView>,
    pub uses_stream_tick: bool,
}

impl DeepView for VulkanMountedPlacedBoundDispatch {
    type V = VulkanMountedPlacedBoundDispatchView;

    open spec fn deep_view(&self) -> VulkanMountedPlacedBoundDispatchView {
        VulkanMountedPlacedBoundDispatchView {
            dispatch_index: self.dispatch_index,
            kernel_id: self.kernel_id.deep_view(),
            component_id: self.component_id.deep_view(),
            circuit_id: self.circuit_id.deep_view(),
            node_index: self.node_index,
            node_id: self.node_id.deep_view(),
            op: self.op.deep_view(),
            reusable_family_id: self.reusable_family_id.deep_view(),
            artifact_path: self.artifact_path.deep_view(),
            entry_point: self.entry_point.deep_view(),
            local_size_x: self.local_size_x,
            descriptors: self.descriptors.deep_view(),
            push_constants: self.push_constants.deep_view(),
            uses_stream_tick: self.uses_stream_tick,
        }
    }
}

impl View for VulkanMountedPlacedBoundDispatch {
    type V = VulkanMountedPlacedBoundDispatchView;

    open spec fn view(&self) -> VulkanMountedPlacedBoundDispatchView {
        self.deep_view()
    }
}

impl Clone for VulkanMountedPlacedBoundDispatch {
    fn clone(&self) -> (r: Self)
        ensures
            r@ == self@,
    {
        VulkanMountedPlacedBoundDispatch {
            dispatch_index: self.dispatch_index,
            kernel_id: self.kernel_id.clone(),
            component_id: self.component_id.clone(),
            circuit_id: self.circuit_id.clone(),
            node_index: self.node_index,
            node_id: self.node_id.clone(),
            op: self.op.clone(),
            reusable_family_id: self.reusable_family_id.clone(),
            artifact_path: self.artifact_path.clone(),
            entry_point: self.entry_point.clone(),
            local_size_x: self.local_size_x,
            descriptors: self.descriptors.clone(),
            push_constants: self.push_constants.clone(),
            uses_stream_tick: self.uses_stream_tick,
        }
    }
}

/// The launches of a device with mounted cable buffers, and the number of descriptors of each sort.
#[derive(Debug, PartialEq, Eq)]
pub struct VulkanMountedPlacedBoundDispatchPlan {
    pub backend_id: String,
    pub device_id: String,
    pub dispatches: Vec<VulkanMountedPlacedBoundDispatch>,
    pub total_descriptor_count: usize,
    pub resident_descriptor_count: usize,
    pub model_boundary_descriptor_count: usize,
    pub local_cable_descriptor_count: usize,
    pub cable_endpoint_descriptor_count: usize,
    pub incoming_cable_descriptor_count: usize,
    pub outgoing_cable_descriptor_count: usize,
}

#[verifier::ext_equal]
pub struct VulkanMountedPlacedBoundDispatchPlanView {
    pub backend_id: Seq<char>,
    pub device_id: Seq<char>,
    pub dispatches: Seq<VulkanMountedPlacedBoundDispatchView>,
    pub total_descriptor_count: usize,
    pub resident_descriptor_count: usize,
    pub model_boundary_descriptor_count: usize,
    pub local_cable_descriptor_count: usize,
    pub cable_endpoint_descriptor_count: usize,
    pub incoming_cable_descriptor_count: usize,
    pub outgoing_cable_descriptor_count: usize,
}

impl DeepView for VulkanMountedPlacedBoundDispatchPlan {
    type V = VulkanMountedPlacedBoundDispatchPlanView;

    open spec fn deep_view(&self) -> VulkanMountedPlacedBoundDispatchPlanView {
        VulkanMountedPlacedBoundDispatchPlanView {
            backend_id: self.backend_id.deep_view(),
            device_id: self.device_id.deep_view(),
            dispatches: self.dispatches.deep_view(),
            total_descriptor_count: self.total_descriptor_count,
            resident_descriptor_count: self.resident_descriptor_count,
            model_boundary_descriptor_count: self.model_boundary_descriptor_count,
            local_cable_descriptor_count: self.local_cable_descriptor_count,
            cable_endpoint_descriptor_count: self.cable_endpoint_descriptor_count,
            incoming_cable_descriptor_count: self.incoming_cable_descriptor_count,
            outgoing_cable_descriptor_count: self.outgoing_cable_descriptor_count,
        }
    }
}

impl View for VulkanMountedPlacedBoundDispatchPlan {
    type V = VulkanMountedPlacedBoundDispatchPlanView;

    open spec fn view(&self) -> VulkanMountedPlacedBoundDispatchPlanView {
        self.deep_view()
    }
}

impl Clone for VulkanMountedPlacedBoundDispatchPlan {
    fn clone(&self) -> (r: Self)
        ensures
            r@ == self@,
    {
        VulkanMountedPlacedBoundDispatchPlan {
            backend_id: self.backend_id.clone(),
            device_id: self.device_id.clone(),
            dispatches: self.dispatches.clone(),
            total_descriptor_count: self.total_descriptor_count,
            resident_descriptor_count: self.resident_descriptor_count,
            model_boundary_descriptor_count: self.model_boundary_descriptor_count,
            local_cable_descriptor_count: self.local_cable_descriptor_count,
            cable_endpoint_descriptor_count: self.cable_endpoint_descriptor_count,
            incoming_cable_descriptor_count: self.incoming_cable_descriptor_count,
            outgoing_cable_descriptor_count: self.outgoing_cable_descriptor_count,
        }
    }
}

/// The label of a launch, with a detail of how it is executed where there is one.
pub open spec fn semantic_label(
    dispatch: VulkanMountedPlacedBoundDispatchView,
    detail: Option<Seq<char>>,
) -> Seq<char> {
    let label = "kernel="@ + dispatch.kernel_id + " pedal="@ + dispatch.component_id + " node="@
        + dispatch.node_id + " op="@ + dispatch.op;
    match detail {
        Some(text) => label + " "@ + text,
        None => label,
    }
}

/// The label of a launch, with a detail of how it is executed where there is one.
pub fn vulkan_dispatch_semantic_label(
    dispatch: &VulkanMountedPlacedBoundDispatch,
    execution_detail: Option<&str>,
) -> (r: String)
    ensures
        r@ == semantic_label(dispatch@, execution_detail.deep_view()),
{
    let label: Message = Message::new("kernel=").text(dispatch.kernel_id.as_str()).text(
        " pedal=",
    ).text(dispatch.component_id.as_str()).text(" node=").text(dispatch.node_id.as_str()).text(
        " op=",
    ).text(dispatch.op.as_str());
    match execution_detail {
        Some(detail) => label.text(" ").text(detail).done(),
        None => label.done(),
    }
}

/// The buffer of a local cable, which has exactly the size of the cable's signal.
pub open spec fn local_cable_binding(
    dispatch: VulkanPlacedBoundDispatchView,
    descriptor: VulkanPlacedBoundDescriptorView,
    cable_index: usize,
    cable_io: VulkanPlacedCableIoBuffersView,
) -> Result<VulkanPlacedLocalCableBufferBindingView, VulkanBoundDispatchPlanErrorView> {
    match cable_buffers::local_buffer_of(cable_io.local_buffers, cable_index) {
        None => Err(
            VulkanBoundDispatchPlanErrorView::MissingLocalEdgeBuffer {
                dispatch_index: dispatch.dispatch_index,
                binding: descriptor.binding,
                edge_index: cable_index,
            },
        ),
        Some((buffer_index, allocation)) => if allocation.cable.byte_capacity != Some(
            allocation.byte_capacity,
        ) {
            Err(
                VulkanBoundDispatchPlanErrorView::LocalEdgeByteCapacityMismatch {
                    dispatch_index: dispatch.dispatch_index,
                    binding: descriptor.binding,
                    edge_index: cable_index,
                    edge_byte_capacity: allocation.cable.byte_capacity,
                    mounted_byte_capacity: allocation.byte_capacity,
                },
            )
        } else {
            Ok(
                VulkanPlacedLocalCableBufferBindingView {
                    buffer_index,
                    cable: allocation.cable,
                    byte_capacity: allocation.byte_capacity,
                },
            )
        },
    }
}

/// The direction of an edge that a cable stands for.
pub open spec fn edge_direction(direction: VulkanPlacedCableDirection) -> VulkanPlacedEdgeDirection {
    match direction {
        VulkanPlacedCableDirection::Incoming => VulkanPlacedEdgeDirection::Incoming,
        VulkanPlacedCableDirection::Outgoing => VulkanPlacedEdgeDirection::Outgoing,
    }
}

/// The buffer of a cable's endpoint, which has exactly the size of the cable's signal.
pub open spec fn cable_endpoint_binding(
    dispatch: VulkanPlacedBoundDispatchView,
    descriptor: VulkanPlacedBoundDescriptorView,
    direction: VulkanPlacedCableDirection,
    cable_index: usize,
    cable_io: VulkanPlacedCableIoBuffersView,
) -> Result<VulkanPlacedCableEndpointBufferBindingView, VulkanBoundDispatchPlanErrorView> {
    let found = match direction {
        VulkanPlacedCableDirection::Incoming => cable_buffers::endpoint_buffer_of(
            cable_io.incoming_buffers,
            cable_index,
        ),
        VulkanPlacedCableDirection::Outgoing => cable_buffers::endpoint_buffer_of(
            cable_io.outgoing_buffers,
            cable_index,
        ),
    };
    match found {
        None => Err(
            VulkanBoundDispatchPlanErrorView::MissingEdgeEndpointBuffer {
                dispatch_index: dispatch.dispatch_index,
                binding: descriptor.binding,
                direction: edge_direction(direction),
                edge_index: cable_index,
            },
        ),
        Some((buffer_index, allocation)) => if allocation.endpoint.byte_capacity != Some(
            allocation.byte_capacity,
        ) {
            Err(
                VulkanBoundDispatchPlanErrorView::EdgeEndpointByteCapacityMismatch {
                    dispatch_index: dispatch.dispatch_index,
                    binding: descriptor.binding,
                    edge_index: cable_index,
                    endpoint_byte_capacity: allocation.endpoint.byte_capacity,
                    mounted_byte_capacity: allocation.byte_capacity,
                },
            )
        } else {
            Ok(
                VulkanPlacedCableEndpointBufferBindingView {
                    buffer_index,
                    endpoint: allocation.endpoint,
                    byte_capacity: allocation.byte_capacity,
                },
            )
        },
    }
}

fn bind_local_cable_buffer(
    dispatch: &VulkanPlacedBoundDispatch,
    descriptor: &VulkanPlacedBoundDescriptor,
    cable_index: usize,
    cable_io: &VulkanPlacedCableIoBuffers,
) -> (r: Result<VulkanPlacedLocalCableBufferBinding, VulkanBoundDispatchPlanError>)
    ensures
        sequence::outcome(r) == local_cable_binding(
            dispatch@,
            descriptor@,
            cable_index,
            cable_io@,
        ),
{
    match cable_io.local_buffer(cable_index) {
        None => Err(
            VulkanBoundDispatchPlanError::MissingLocalEdgeBuffer {
                dispatch_index: dispatch.dispatch_index,
                binding: descriptor.binding,
                edge_index: cable_index,
            },
        ),
        Some((buffer_index, allocation)) => {
            if allocation.cable.byte_capacity != Some(allocation.byte_capacity) {
                return Err(
                    VulkanBoundDispatchPlanError::LocalEdgeByteCapacityMismatch {
                        dispatch_index: dispatch.dispatch_index,
                        binding: descriptor.binding,
                        edge_index: cable_index,
                        edge_byte_capacity: allocation.cable.byte_capacity,
                        mounted_byte_capacity: allocation.byte_capacity,
                    },
                );
            }
            Ok(
                VulkanPlacedLocalCableBufferBinding {
                    buffer_index,
                    cable: allocation.cable.clone(),
                    byte_capacity: allocation.byte_capacity,
                },
            )
        },
    }
}

fn bind_cable_endpoint_buffer(
    dispatch: &VulkanPlacedBoundDispatch,
    descriptor: &VulkanPlacedBoundDescriptor,
    direction: VulkanPlacedCableDirection,
    cable_index: usize,
    cable_io: &VulkanPlacedCableIoBuffers,
) -> (r: Result<VulkanPlacedCableEndpointBufferBinding, VulkanBoundDispatchPlanError>)
    ensures
        sequence::outcome(r) == cable_endpoint_binding(
            dispatch@,
            descriptor@,
            direction,
            cable_index,
            cable_io@,
        ),
{
    match cable_io.buffer(direction, cable_index) {
        None => Err(
            VulkanBoundDispatchPlanError::MissingEdgeEndpointBuffer {
                dispatch_index: dispatch.dispatch_index,
                binding: descriptor.binding,
                direction: match direction {
                    VulkanPlacedCableDirection::Incoming => VulkanPlacedEdgeDirection::Incoming,
                    VulkanPlacedCableDirection::Outgoing => VulkanPlacedEdgeDirection::Outgoing,
                },
                edge_index: cable_index,
            },
        ),
        Some((buffer_index, allocation)) => {
            if allocation.endpoint.byte_capacity != Some(allocation.byte_capacity) {
                return Err(
                    VulkanBoundDispatchPlanError::EdgeEndpointByteCapacityMismatch {
                        dispatch_index: dispatch.dispatch_index,
                        binding: descriptor.binding,
                        edge_index: cable_index,
                        endpoint_byte_capacity: allocation.endpoint.byte_capacity,
                        mounted_byte_capacity: allocation.byte_capacity,
                    },
                );
            }
            Ok(
                VulkanPlacedCableEndpointBufferBinding {
                    buffer_index,
                    endpoint: allocation.endpoint.clone(),
                    byte_capacity: allocation.byte_capacity,
                },
            )
        },
    }
}

/// The buffer that a placed descriptor is bound to.
#[verifier::opaque]
pub open spec fn mounted_target(
    dispatch: VulkanPlacedBoundDispatchView,
    descriptor: VulkanPlacedBoundDescriptorView,
    cable_io: VulkanPlacedCableIoBuffersView,
) -> Result<VulkanMountedPlacedBoundDescriptorTargetView, VulkanBoundDispatchPlanErrorView> {
    match descriptor.target {
        VulkanPlacedBoundDescriptorTargetView::Resident { target } => Ok(
            VulkanMountedPlacedBoundDescriptorTargetView::Resident { target },
        ),
        VulkanPlacedBoundDescriptorTargetView::ModelInput { signal_id } => Ok(
            VulkanMountedPlacedBoundDescriptorTargetView::ModelInput { signal_id },
        ),
        VulkanPlacedBoundDescriptorTargetView::ModelOutput { signal_id } => Ok(
            VulkanMountedPlacedBoundDescriptorTargetView::ModelOutput { signal_id },
        ),
        VulkanPlacedBoundDescriptorTargetView::LocalEdgeInput { edge } => {
            match local_cable_binding(dispatch, descriptor, edge.edge_index, cable_io) {
                Err(error) => Err(error),
                Ok(cable) => Ok(
                    VulkanMountedPlacedBoundDescriptorTargetView::LocalCableInputBuffer { cable },
                ),
            }
        },
        VulkanPlacedBoundDescriptorTargetView::LocalEdgeOutput { edge } => {
            match local_cable_binding(dispatch, descriptor, edge.edge_index, cable_io) {
                Err(error) => Err(error),
                Ok(cable) => Ok(
                    VulkanMountedPlacedBoundDescriptorTargetView::LocalCableOutputBuffer { cable },
                ),
            }
        },
        VulkanPlacedBoundDescriptorTargetView::IncomingEdge { edge } => {
            match cable_endpoint_binding(
                dispatch,
                descriptor,
                VulkanPlacedCableDirection::Incoming,
                edge.edge_index,
                cable_io,
            ) {
                Err(error) => Err(error),
                Ok(endpoint) => Ok(
                    VulkanMountedPlacedBoundDescriptorTargetView::IncomingCableBuffer { endpoint },
                ),
            }
        },
        VulkanPlacedBoundDescriptorTargetView::OutgoingEdge { edge } => {
            match cable_endpoint_binding(
                dispatch,
                descriptor,
                VulkanPlacedCableDirection::Outgoing,
                edge.edge_index,
                cable_io,
            ) {
                Err(error) => Err(error),
                Ok(endpoint) => Ok(
                    VulkanMountedPlacedBoundDescriptorTargetView::OutgoingCableBuffer { endpoint },
                ),
            }
        },
    }
}

impl VulkanMountedPlacedBoundDescriptorTarget {
    /// The buffer that a placed descriptor is bound to.
    pub fn from_placed_target(
        dispatch: &VulkanPlacedBoundDispatch,
        descriptor: &VulkanPlacedBoundDescriptor,
        cable_io: &VulkanPlacedCableIoBuffers,
    ) -> (r: Result<Self, VulkanBoundDispatchPlanError>)
        ensures
            sequence::outcome(r) == mounted_target(dispatch@, descriptor@, cable_io@),
    {
        reveal(mounted_target);
        match &descriptor.target {
            VulkanPlacedBoundDescriptorTarget::Resident { target } => Ok(
                VulkanMountedPlacedBoundDescriptorTarget::Resident { target: target.clone() },
            ),
            VulkanPlacedBoundDescriptorTarget::ModelInput { signal_id } => Ok(
                VulkanMountedPlacedBoundDescriptorTarget::ModelInput {
                    signal_id: signal_id.clone(),
                },
            ),
            VulkanPlacedBoundDescriptorTarget::ModelOutput { signal_id } => Ok(
                VulkanMountedPlacedBoundDescriptorTarget::ModelOutput {
                    signal_id: signal_id.clone(),
                },
            ),
            VulkanPlacedBoundDescriptorTarget::LocalEdgeInput { edge } => {
                match bind_local_cable_buffer(dispatch, descriptor, edge.edge_index, cable_io) {
                    Err(error) => Err(error),
                    Ok(cable) => Ok(
                        VulkanMountedPlacedBoundDescriptorTarget::LocalCableInputBuffer { cable },
                    ),
                }
            },
            VulkanPlacedBoundDescriptorTarget::LocalEdgeOutput { edge } => {
                match bind_local_cable_buffer(dispatch, descriptor, edge.edge_index, cable_io) {
                    Err(error) => Err(error),
                    Ok(cable) => Ok(
                        VulkanMountedPlacedBoundDescriptorTarget::LocalCableOutputBuffer { cable },
                    ),
                }
            },
            VulkanPlacedBoundDescriptorTarget::IncomingEdge { edge } => {
                match bind_cable_endpoint_buffer(
                    dispatch,
                    descriptor,
                    VulkanPlacedCableDirection::Incoming,
                    edge.edge_index,
                    cable_io,
                ) {
                    Err(error) => Err(error),
                    Ok(endpoint) => Ok(
                        VulkanMountedPlacedBoundDescriptorTarget::IncomingCableBuffer { endpoint },
                    ),
                }
            },
            VulkanPlacedBoundDescriptorTarget::OutgoingEdge { edge } => {
                match bind_cable_endpoint_buffer(
                    dispatch,
                    descriptor,
                    VulkanPlacedCableDirection::Outgoing,
                    edge.edge_index,
                    cable_io,
                ) {
                    Err(error) => Err(error),
                    Ok(endpoint) => Ok(
                        VulkanMountedPlacedBoundDescriptorTarget::OutgoingCableBuffer { endpoint },
                    ),
                }
            },
        }
    }
}

/// How a descriptor is bound to a mounted buffer.
pub open spec fn mount_step(
    dispatch: VulkanPlacedBoundDispatchView,
    cable_io: VulkanPlacedCableIoBuffersView,
) -> spec_fn(VulkanPlacedBoundDescriptorView) -> Result<
    VulkanMountedPlacedBoundDescriptorView,
    VulkanBoundDispatchPlanErrorView,
> {
    |descriptor: VulkanPlacedBoundDescriptorView|
        match mounted_target(dispatch, descriptor, cable_io) {
            Err(error) => Err(error),
            Ok(target) => Ok(
                VulkanMountedPlacedBoundDescriptorView {
                    binding: descriptor.binding,
                    usage: descriptor.usage,
                    name: descriptor.name,
                    target,
                },
            ),
        }
}

/// How a launch is bound to mounted buffers.
pub open spec fn mount_dispatch(cable_io: VulkanPlacedCableIoBuffersView) -> spec_fn(
    VulkanPlacedBoundDispatchView,
) -> Result<VulkanMountedPlacedBoundDispatchView, VulkanBoundDispatchPlanErrorView> {
    |dispatch: VulkanPlacedBoundDispatchView|
        match sequence::try_map(dispatch.descriptors, mount_step(dispatch, cable_io)) {
            Err(error) => Err(error),
            Ok(descriptors) => Ok(
                VulkanMountedPlacedBoundDispatchView {
                    dispatch_index: dispatch.dispatch_index,
                    kernel_id: dispatch.kernel_id,
                    component_id: dispatch.component_id,
                    circuit_id: dispatch.circuit_id,
                    node_index: dispatch.node_index,
                    node_id: dispatch.node_id,
                    op: dispatch.op,
                    reusable_family_id: dispatch.reusable_family_id,
                    artifact_path: dispatch.artifact_path,
                    entry_point: dispatch.entry_point,
                    local_size_x: dispatch.local_size_x,
                    descriptors,
                    push_constants: dispatch.push_constants,
                    uses_stream_tick: dispatch.uses_stream_tick,
                },
            ),
        }
}

/// The descriptors of a mounted launch.
pub open spec fn mounted_descriptors() -> spec_fn(VulkanMountedPlacedBoundDispatchView) -> Seq<
    VulkanMountedPlacedBoundDescriptorView,
> {
    |dispatch: VulkanMountedPlacedBoundDispatchView| dispatch.descriptors
}

/// Whether a descriptor is bound to a resident resource.
pub open spec fn mounted_resident() -> spec_fn(VulkanMountedPlacedBoundDescriptorView) -> bool {
    |d: VulkanMountedPlacedBoundDescriptorView| d.target is Resident
}

/// Whether a descriptor is bound to the model's boundary.
pub open spec fn mounted_boundary() -> spec_fn(VulkanMountedPlacedBoundDescriptorView) -> bool {
    |d: VulkanMountedPlacedBoundDescriptorView| d.target is ModelInput || d.target is ModelOutput
}

/// Whether a descriptor is bound to a local cable.
pub open spec fn mounted_local() -> spec_fn(VulkanMountedPlacedBoundDescriptorView) -> bool {
    |d: VulkanMountedPlacedBoundDescriptorView|
        d.target is LocalCableInputBuffer || d.target is LocalCableOutputBuffer
}

/// Whether a descriptor is bound to an incoming cable.
pub open spec fn mounted_incoming() -> spec_fn(VulkanMountedPlacedBoundDescriptorView) -> bool {
    |d: VulkanMountedPlacedBoundDescriptorView| d.target is IncomingCableBuffer
}

/// Whether a descriptor is bound to an outgoing cable.
pub open spec fn mounted_outgoing() -> spec_fn(VulkanMountedPlacedBoundDescriptorView) -> bool {
    |d: VulkanMountedPlacedBoundDescriptorView| d.target is OutgoingCableBuffer
}

/// The number of descriptors of one sort.
pub open spec fn mounted_count(
    dispatches: Seq<VulkanMountedPlacedBoundDispatchView>,
    sort: spec_fn(VulkanMountedPlacedBoundDescriptorView) -> bool,
) -> nat {
    sequence::nested_count(dispatches, mounted_descriptors(), sort)
}

/// Mounted launches with their counts.
pub open spec fn counted_mounted_plan(
    backend_id: Seq<char>,
    device_id: Seq<char>,
    dispatches: Seq<VulkanMountedPlacedBoundDispatchView>,
) -> VulkanMountedPlacedBoundDispatchPlanView {
    VulkanMountedPlacedBoundDispatchPlanView {
        backend_id,
        device_id,
        dispatches,
        total_descriptor_count: sequence::nested_len(dispatches, mounted_descriptors()) as usize,
        resident_descriptor_count: mounted_count(dispatches, mounted_resident()) as usize,
        model_boundary_descriptor_count: mounted_count(dispatches, mounted_boundary()) as usize,
        local_cable_descriptor_count: mounted_count(dispatches, mounted_local()) as usize,
        cable_endpoint_descriptor_count: (mounted_count(dispatches, mounted_incoming())
            + mounted_count(dispatches, mounted_outgoing())) as usize,
        incoming_cable_descriptor_count: mounted_count(dispatches, mounted_incoming()) as usize,
        outgoing_cable_descriptor_count: mounted_count(dispatches, mounted_outgoing()) as usize,
    }
}

/// The launches of a placed plan, bound to the cable buffers of the same device.
#[verifier::opaque]
pub open spec fn mounted_plan(
    placed: VulkanPlacedBoundDispatchPlanView,
    cable_io: VulkanPlacedCableIoBuffersView,
) -> Result<VulkanMountedPlacedBoundDispatchPlanView, VulkanBoundDispatchPlanErrorView> {
    if placed.device_id != cable_io.plan.device_id {
        Err(
            VulkanBoundDispatchPlanErrorView::EdgeIoDeviceMismatch {
                plan_device_id: placed.device_id,
                edge_io_device_id: cable_io.plan.device_id,
            },
        )
    } else {
        match sequence::try_map(placed.dispatches, mount_dispatch(cable_io)) {
            Err(error) => Err(error),
            Ok(dispatches) => Ok(
                counted_mounted_plan(placed.backend_id, placed.device_id, dispatches),
            ),
        }
    }
}

fn mount_descriptor(
    dispatch: &VulkanPlacedBoundDispatch,
    descriptor: &VulkanPlacedBoundDescriptor,
    cable_io: &VulkanPlacedCableIoBuffers,
) -> (r: Result<VulkanMountedPlacedBoundDescriptor, VulkanBoundDispatchPlanError>)
    ensures
        sequence::outcome(r) == mount_step(dispatch@, cable_io@)(descriptor@),
{
    match VulkanMountedPlacedBoundDescriptorTarget::from_placed_target(
        dispatch,
        descriptor,
        cable_io,
    ) {
        Err(error) => Err(error),
        Ok(target) => Ok(
            VulkanMountedPlacedBoundDescriptor {
                binding: descriptor.binding,
                usage: descriptor.usage,
                name: descriptor.name.clone(),
                target,
            },
        ),
    }
}

#[verifier::loop_isolation(false)]
fn mount_placed_dispatch(
    dispatch: &VulkanPlacedBoundDispatch,
    cable_io: &VulkanPlacedCableIoBuffers,
) -> (r: Result<VulkanMountedPlacedBoundDispatch, VulkanBoundDispatchPlanError>)
    ensures
        sequence::outcome(r) == mount_dispatch(cable_io@)(dispatch@),
{
    let ghost all_descriptors = dispatch.descriptors.deep_view();
    let ghost step_descriptors = mount_step(dispatch@, cable_io@);
    let mut descriptors: Vec<VulkanMountedPlacedBoundDescriptor> = Vec::new();
    let mut i: usize = 0;
    assert(all_descriptors.take(0) =~= Seq::empty());
    assert(descriptors.deep_view() =~= Seq::empty());
    while i < dispatch.descriptors.len()
        invariant
            i <= dispatch.descriptors.len(),
            sequence::try_map(all_descriptors.take(i as int), step_descriptors) is Ok,
            sequence::try_map(all_descriptors.take(i as int), step_descriptors)->Ok_0 == descriptors.deep_view(),
        decreases dispatch.descriptors.len() - i,
    {
        let item = &dispatch.descriptors[i];
        assert(all_descriptors[i as int] == item.deep_view());
        proof {
            sequence::lemma_try_map_step(all_descriptors, step_descriptors, i as int);
            if sequence::try_map(all_descriptors.take(i + 1), step_descriptors) is Err {
                sequence::lemma_try_map_error(all_descriptors, step_descriptors, i + 1);
            }
        }
        match mount_descriptor(dispatch, item, cable_io) {
            Ok(added) => {
                let ghost before = descriptors.deep_view();
                let ghost value = added.deep_view();
                descriptors.push(added);
                assert(descriptors.deep_view() =~= before.push(value));
            },
            Err(error) => {
                return Err(error);
            },
        }
        i += 1;
    }
    assert(all_descriptors.take(all_descriptors.len() as int) =~= all_descriptors);
    Ok(
        VulkanMountedPlacedBoundDispatch {
            dispatch_index: dispatch.dispatch_index,
            kernel_id: dispatch.kernel_id.clone(),
            component_id: dispatch.component_id.clone(),
            circuit_id: dispatch.circuit_id.clone(),
            node_index: dispatch.node_index,
            node_id: dispatch.node_id.clone(),
            op: dispatch.op.clone(),
            reusable_family_id: dispatch.reusable_family_id.clone(),
            artifact_path: dispatch.artifact_path.clone(),
            entry_point: dispatch.entry_point.clone(),
            local_size_x: dispatch.local_size_x,
            descriptors,
            push_constants: kernel_interface::copy_scalars(&dispatch.push_constants),
            uses_stream_tick: dispatch.uses_stream_tick,
        },
    )
}

proof fn lemma_mounted_lengths(
    placed: Seq<VulkanPlacedBoundDispatchView>,
    cable_io: VulkanPlacedCableIoBuffersView,
)
    requires
        sequence::try_map(placed, mount_dispatch(cable_io)) is Ok,
    ensures
        sequence::nested_len(
            sequence::try_map(placed, mount_dispatch(cable_io))->Ok_0,
            mounted_descriptors(),
        ) == sequence::nested_len(placed, bound_dispatch::placed_descriptors()),
    decreases placed.len(),
{
    if placed.len() > 0 {
        lemma_mounted_lengths(placed.drop_last(), cable_io);
        let done = sequence::try_map(placed, mount_dispatch(cable_io))->Ok_0;
        sequence::lemma_try_map_ok(placed.last().descriptors, mount_step(placed.last(), cable_io));
        assert(done.drop_last() =~= sequence::try_map(
            placed.drop_last(),
            mount_dispatch(cable_io),
        )->Ok_0);
    }
}

#[verifier::loop_isolation(false)]
fn count_mounted_dispatches(
    backend_id: String,
    device_id: String,
    dispatches: Vec<VulkanMountedPlacedBoundDispatch>,
) -> (r: VulkanMountedPlacedBoundDispatchPlan)
    requires
        sequence::nested_len(dispatches.deep_view(), mounted_descriptors()) <= usize::MAX,
    ensures
        r@ == counted_mounted_plan(backend_id@, device_id@, dispatches.deep_view()),
{
    let ghost all = dispatches.deep_view();
    let ghost parts = mounted_descriptors();
    let mut resident_descriptor_count: usize = 0;
    let mut model_boundary_descriptor_count: usize = 0;
    let mut local_cable_descriptor_count: usize = 0;
    let mut incoming_cable_descriptor_count: usize = 0;
    let mut outgoing_cable_descriptor_count: usize = 0;
    let mut i: usize = 0;
    assert(all.take(0) =~= Seq::empty());
    while i < dispatches.len()
        invariant
            i <= dispatches.len(),
            resident_descriptor_count == sequence::nested_count(all.take(i as int), parts, mounted_resident()),
            model_boundary_descriptor_count == sequence::nested_count(all.take(i as int), parts, mounted_boundary()),
            local_cable_descriptor_count == sequence::nested_count(all.take(i as int), parts, mounted_local()),
            incoming_cable_descriptor_count == sequence::nested_count(all.take(i as int), parts, mounted_incoming()),
            outgoing_cable_descriptor_count == sequence::nested_count(all.take(i as int), parts, mounted_outgoing()),
            resident_descriptor_count + model_boundary_descriptor_count + local_cable_descriptor_count + incoming_cable_descriptor_count + outgoing_cable_descriptor_count == sequence::nested_len(all.take(i as int), parts),
        decreases dispatches.len() - i,
    {
        let item = &dispatches[i];
        let ghost here = item@.descriptors;
        let ghost resident_descriptor_count_before = resident_descriptor_count;
        let ghost model_boundary_descriptor_count_before = model_boundary_descriptor_count;
        let ghost local_cable_descriptor_count_before = local_cable_descriptor_count;
        let ghost incoming_cable_descriptor_count_before = incoming_cable_descriptor_count;
        let ghost outgoing_cable_descriptor_count_before = outgoing_cable_descriptor_count;
        proof {
            assert(all[i as int] == item.deep_view());
            assert(here.take(0) =~= Seq::empty());
            assert(here.len() == item.descriptors@.len());
            sequence::lemma_nested_len_step(all, parts, i as int);
            sequence::lemma_nested_len_prefix(all, parts, i + 1);
            sequence::lemma_nested_count_step(all, parts, mounted_resident(), i as int);
            sequence::lemma_nested_count_step(all, parts, mounted_boundary(), i as int);
            sequence::lemma_nested_count_step(all, parts, mounted_local(), i as int);
            sequence::lemma_nested_count_step(all, parts, mounted_incoming(), i as int);
            sequence::lemma_nested_count_step(all, parts, mounted_outgoing(), i as int);
        }
        let mut j: usize = 0;
        while j < item.descriptors.len()
            invariant
                j <= item.descriptors.len(),
                resident_descriptor_count == resident_descriptor_count_before + sequence::count(here.take(j as int), mounted_resident()),
                model_boundary_descriptor_count == model_boundary_descriptor_count_before + sequence::count(here.take(j as int), mounted_boundary()),
                local_cable_descriptor_count == local_cable_descriptor_count_before + sequence::count(here.take(j as int), mounted_local()),
                incoming_cable_descriptor_count == incoming_cable_descriptor_count_before + sequence::count(here.take(j as int), mounted_incoming()),
                outgoing_cable_descriptor_count == outgoing_cable_descriptor_count_before + sequence::count(here.take(j as int), mounted_outgoing()),
                resident_descriptor_count + model_boundary_descriptor_count + local_cable_descriptor_count + incoming_cable_descriptor_count + outgoing_cable_descriptor_count == sequence::nested_len(all.take(i as int), parts) + j,
            decreases item.descriptors.len() - j,
        {
            let part = &item.descriptors[j];
            proof {
                assert(here[j as int] == part.deep_view());
                sequence::lemma_count_step(here, mounted_resident(), j as int);
                sequence::lemma_count_step(here, mounted_boundary(), j as int);
                sequence::lemma_count_step(here, mounted_local(), j as int);
                sequence::lemma_count_step(here, mounted_incoming(), j as int);
                sequence::lemma_count_step(here, mounted_outgoing(), j as int);
            }
            match &part.target {
                 VulkanMountedPlacedBoundDescriptorTarget::Resident { .. } => {
                     resident_descriptor_count += 1;
                 },
                 VulkanMountedPlacedBoundDescriptorTarget::ModelInput { .. } => {
                     model_boundary_descriptor_count += 1;
                 },
                 VulkanMountedPlacedBoundDescriptorTarget::ModelOutput { .. } => {
                     model_boundary_descriptor_count += 1;
                 },
                 VulkanMountedPlacedBoundDescriptorTarget::LocalCableInputBuffer { .. } => {
                     local_cable_descriptor_count += 1;
                 },
                 VulkanMountedPlacedBoundDescriptorTarget::LocalCableOutputBuffer { .. } => {
                     local_cable_descriptor_count += 1;
                 },
                 VulkanMountedPlacedBoundDescriptorTarget::IncomingCableBuffer { .. } => {
                     incoming_cable_descriptor_count += 1;
                 },
                 VulkanMountedPlacedBoundDescriptorTarget::OutgoingCableBuffer { .. } => {
                     outgoing_cable_descriptor_count += 1;
                 },
             }
            j += 1;
        }
        assert(here.take(here.len() as int) =~= here);
        i += 1;
    }
    assert(all.take(all.len() as int) =~= all);
    let cable_endpoint_descriptor_count: usize = incoming_cable_descriptor_count
        + outgoing_cable_descriptor_count;
    let total_descriptor_count: usize = resident_descriptor_count + model_boundary_descriptor_count
        + local_cable_descriptor_count + cable_endpoint_descriptor_count;
    VulkanMountedPlacedBoundDispatchPlan {
        backend_id,
        device_id,
        dispatches,
        total_descriptor_count,
        resident_descriptor_count,
        model_boundary_descriptor_count,
        local_cable_descriptor_count,
        cable_endpoint_descriptor_count,
        incoming_cable_descriptor_count,
        outgoing_cable_descriptor_count,
    }
}

/// Whether a launch is that of a node.
pub open spec fn mounted_dispatch_named(component_id: Seq<char>, node_id: Seq<char>) -> spec_fn(
    VulkanMountedPlacedBoundDispatchView,
) -> bool {
    |dispatch: VulkanMountedPlacedBoundDispatchView|
        dispatch.component_id == component_id && dispatch.node_id == node_id
}

impl VulkanMountedPlacedBoundDispatchPlan {
    /// Binds the launches of a placed plan to the cable buffers of its device.
    #[verifier::loop_isolation(false)]
    pub fn from_placed_bound_plan(
        placed_bound_plan: &VulkanPlacedBoundDispatchPlan,
        cable_io: &VulkanPlacedCableIoBuffers,
    ) -> (r: Result<Self, VulkanBoundDispatchPlanError>)
        requires
            sequence::nested_len(
                placed_bound_plan@.dispatches,
                bound_dispatch::placed_descriptors(),
            ) <= usize::MAX,
        ensures
            sequence::outcome(r) == mounted_plan(placed_bound_plan@, cable_io@),
    {
        reveal(mounted_plan);
        if placed_bound_plan.device_id != cable_io.plan.device_id {
            return Err(
                VulkanBoundDispatchPlanError::EdgeIoDeviceMismatch {
                    plan_device_id: placed_bound_plan.device_id.clone(),
                    edge_io_device_id: cable_io.plan.device_id.clone(),
                },
            );
        }
        let ghost all_dispatches = placed_bound_plan.dispatches.deep_view();
        let ghost step_dispatches = mount_dispatch(cable_io@);
        let mut dispatches: Vec<VulkanMountedPlacedBoundDispatch> = Vec::new();
        let mut i: usize = 0;
        assert(all_dispatches.take(0) =~= Seq::empty());
        assert(dispatches.deep_view() =~= Seq::empty());
        while i < placed_bound_plan.dispatches.len()
            invariant
                i <= placed_bound_plan.dispatches.len(),
                sequence::try_map(all_dispatches.take(i as int), step_dispatches) is Ok,
                sequence::try_map(all_dispatches.take(i as int), step_dispatches)->Ok_0 == dispatches.deep_view(),
            decreases placed_bound_plan.dispatches.len() - i,
        {
            let item = &placed_bound_plan.dispatches[i];
            assert(all_dispatches[i as int] == item.deep_view());
            proof {
                sequence::lemma_try_map_step(all_dispatches, step_dispatches, i as int);
                if sequence::try_map(all_dispatches.take(i + 1), step_dispatches) is Err {
                    sequence::lemma_try_map_error(all_dispatches, step_dispatches, i + 1);
                }
            }
            match mount_placed_dispatch(item, cable_io) {
                Ok(added) => {
                    let ghost before = dispatches.deep_view();
                    let ghost value = added.deep_view();
                    dispatches.push(added);
                    assert(dispatches.deep_view() =~= before.push(value));
                },
                Err(error) => {
                    return Err(error);
                },
            }
            i += 1;
        }
        assert(all_dispatches.take(all_dispatches.len() as int) =~= all_dispatches);
        proof {
            lemma_mounted_lengths(placed_bound_plan@.dispatches, cable_io@);
        }
        Ok(
            count_mounted_dispatches(
                placed_bound_plan.backend_id.clone(),
                placed_bound_plan.device_id.clone(),
                dispatches,
            ),
        )
    }

    /// The first launch of a node.
    #[verifier::loop_isolation(false)]
    pub fn dispatch(&self, component_id: &str, node_id: &str) -> (r: Option<&VulkanMountedPlacedBoundDispatch>)
        ensures
            r.deep_view() == sequence::find_first(
                self@.dispatches,
                mounted_dispatch_named(component_id@, node_id@),
            ),
    {
        let ghost all = self.dispatches.deep_view();
        let ghost p = mounted_dispatch_named(component_id@, node_id@);
        let mut i: usize = 0;
        while i < self.dispatches.len()
            invariant
                i <= self.dispatches.len(),
                forall|j: int| 0 <= j < i ==> !p(#[trigger] all[j]),
            decreases self.dispatches.len() - i,
        {
            let item = &self.dispatches[i];
            assert(all[i as int] == item.deep_view());
            if text::same(item.component_id.as_str(), component_id) && text::same(item.node_id.as_str(), node_id) {
                proof {
                    sequence::lemma_find_first_at(all, p, i as int);
                }
                return Some(item);
            }
            i += 1;
        }
        proof {
            sequence::lemma_find_first_none(all, p);
        }
        None
    }
}

/// Whether a cable leads to the buffer that was allocated for its edge on the same side, which has
/// exactly the size of the edge's signal. What lies on no edge stays what it is.
pub open spec fn mounted_as_placed(
    target: VulkanPlacedBoundDescriptorTargetView,
    mounted: VulkanMountedPlacedBoundDescriptorTargetView,
    cable_io: VulkanPlacedCableIoBuffersView,
) -> bool {
    match mounted {
        VulkanMountedPlacedBoundDescriptorTargetView::Resident { target: kept } => target
            == (VulkanPlacedBoundDescriptorTargetView::Resident { target: kept }),
        VulkanMountedPlacedBoundDescriptorTargetView::ModelInput { signal_id } => target
            == (VulkanPlacedBoundDescriptorTargetView::ModelInput { signal_id }),
        VulkanMountedPlacedBoundDescriptorTargetView::ModelOutput { signal_id } => target
            == (VulkanPlacedBoundDescriptorTargetView::ModelOutput { signal_id }),
        VulkanMountedPlacedBoundDescriptorTargetView::LocalCableInputBuffer { cable } => {
            &&& target matches VulkanPlacedBoundDescriptorTargetView::LocalEdgeInput { edge }
            &&& edge.edge_index == cable.cable.cable_index
            &&& allocated_local_cable(cable, cable_io)
        },
        VulkanMountedPlacedBoundDescriptorTargetView::LocalCableOutputBuffer { cable } => {
            &&& target matches VulkanPlacedBoundDescriptorTargetView::LocalEdgeOutput { edge }
            &&& edge.edge_index == cable.cable.cable_index
            &&& allocated_local_cable(cable, cable_io)
        },
        VulkanMountedPlacedBoundDescriptorTargetView::IncomingCableBuffer { endpoint } => {
            &&& target matches VulkanPlacedBoundDescriptorTargetView::IncomingEdge { edge }
            &&& edge.edge_index == endpoint.endpoint.cable_index
            &&& allocated_endpoint(endpoint, cable_io.incoming_buffers)
        },
        VulkanMountedPlacedBoundDescriptorTargetView::OutgoingCableBuffer { endpoint } => {
            &&& target matches VulkanPlacedBoundDescriptorTargetView::OutgoingEdge { edge }
            &&& edge.edge_index == endpoint.endpoint.cable_index
            &&& allocated_endpoint(endpoint, cable_io.outgoing_buffers)
        },
    }
}

/// Whether a local cable has the buffer of its number, with the size of its signal.
pub open spec fn allocated_local_cable(
    cable: VulkanPlacedLocalCableBufferBindingView,
    cable_io: VulkanPlacedCableIoBuffersView,
) -> bool {
    &&& cable.buffer_index < cable_io.local_buffers.len()
    &&& cable_io.local_buffers[cable.buffer_index as int].cable == cable.cable
    &&& cable_io.local_buffers[cable.buffer_index as int].byte_capacity == cable.byte_capacity
    &&& cable.cable.byte_capacity == Some(cable.byte_capacity)
}

/// Whether an endpoint has the buffer of its number, with the size of its signal.
pub open spec fn allocated_endpoint(
    endpoint: VulkanPlacedCableEndpointBufferBindingView,
    buffers: Seq<VulkanPlacedCableBufferAllocationView>,
) -> bool {
    &&& endpoint.buffer_index < buffers.len()
    &&& buffers[endpoint.buffer_index as int].endpoint == endpoint.endpoint
    &&& buffers[endpoint.buffer_index as int].byte_capacity == endpoint.byte_capacity
    &&& endpoint.endpoint.byte_capacity == Some(endpoint.byte_capacity)
}

/// Mounting keeps the launches in order with all that they carry, and binds the edges of a device to
/// the buffers that it has for them.
pub proof fn mounting_uses_the_buffers_of_the_edges(
    placed: VulkanPlacedBoundDispatchPlanView,
    cable_io: VulkanPlacedCableIoBuffersView,
    d: int,
    k: int,
)
    requires
        mounted_plan(placed, cable_io) is Ok,
        cable_io.local_buffers.len() <= usize::MAX,
        cable_io.incoming_buffers.len() <= usize::MAX,
        cable_io.outgoing_buffers.len() <= usize::MAX,
        0 <= d < placed.dispatches.len(),
    ensures
        ({
            let plan = mounted_plan(placed, cable_io)->Ok_0;
            let before = placed.dispatches[d];
            let after = plan.dispatches[d];
            &&& plan.backend_id == placed.backend_id
            &&& plan.device_id == placed.device_id
            &&& plan.device_id == cable_io.plan.device_id
            &&& plan.dispatches.len() == placed.dispatches.len()
            &&& after.dispatch_index == before.dispatch_index
            &&& after.kernel_id == before.kernel_id
            &&& after.component_id == before.component_id
            &&& after.circuit_id == before.circuit_id
            &&& after.node_index == before.node_index
            &&& after.node_id == before.node_id
            &&& after.op == before.op
            &&& after.reusable_family_id == before.reusable_family_id
            &&& after.artifact_path == before.artifact_path
            &&& after.entry_point == before.entry_point
            &&& after.local_size_x == before.local_size_x
            &&& after.push_constants == before.push_constants
            &&& after.uses_stream_tick == before.uses_stream_tick
            &&& after.descriptors.len() == before.descriptors.len()
            &&& 0 <= k < before.descriptors.len() ==> {
                &&& after.descriptors[k].binding == before.descriptors[k].binding
                &&& after.descriptors[k].usage == before.descriptors[k].usage
                &&& after.descriptors[k].name == before.descriptors[k].name
                &&& mounted_as_placed(
                    before.descriptors[k].target,
                    after.descriptors[k].target,
                    cable_io,
                )
            }
        }),
{
    reveal(mounted_plan);
    reveal(mounted_target);
    let step = mount_dispatch(cable_io);
    sequence::lemma_try_map_ok(placed.dispatches, step);
    let before = placed.dispatches[d];
    assert(step(placed.dispatches[d]) is Ok);
    sequence::lemma_try_map_ok(before.descriptors, mount_step(before, cable_io));
    if 0 <= k < before.descriptors.len() {
        assert(mount_step(before, cable_io)(before.descriptors[k]) is Ok);
        match before.descriptors[k].target {
            VulkanPlacedBoundDescriptorTargetView::LocalEdgeInput { edge } => {
                sequence::lemma_first_position(
                    cable_io.local_buffers,
                    cable_buffers::of_local_cable(edge.edge_index),
                );
            },
            VulkanPlacedBoundDescriptorTargetView::LocalEdgeOutput { edge } => {
                sequence::lemma_first_position(
                    cable_io.local_buffers,
                    cable_buffers::of_local_cable(edge.edge_index),
                );
            },
            VulkanPlacedBoundDescriptorTargetView::IncomingEdge { edge } => {
                sequence::lemma_first_position(
                    cable_io.incoming_buffers,
                    cable_buffers::of_cable(edge.edge_index),
                );
            },
            VulkanPlacedBoundDescriptorTargetView::OutgoingEdge { edge } => {
                sequence::lemma_first_position(
                    cable_io.outgoing_buffers,
                    cable_buffers::of_cable(edge.edge_index),
                );
            },
            _ => {},
        }
    }
}

/// A mounted dispatch is found by its component and its node: the first that has both, and none where
/// none has.
pub proof fn mounted_dispatches_are_found_by_name(
    all: Seq<VulkanMountedPlacedBoundDispatchView>,
    component_id: Seq<char>,
    node_id: Seq<char>,
    j: int,
)
    ensures
        match sequence::find_first(all, mounted_dispatch_named(component_id, node_id)) {
            Some(found) => exists|i: int|
                {
                    &&& 0 <= i < all.len()
                    &&& found == #[trigger] all[i]
                    &&& all[i].component_id == component_id
                    &&& all[i].node_id == node_id
                    &&& 0 <= j < i ==> !(all[j].component_id == component_id && all[j].node_id == node_id)
                },
            None => 0 <= j < all.len() ==> !(all[j].component_id == component_id && all[j].node_id == node_id),
        },
{
    let p = mounted_dispatch_named(component_id, node_id);
    if 0 <= j < all.len() {
        assert(p(all[j]) <==> all[j].component_id == component_id && all[j].node_id == node_id);
    }
    if sequence::find_first(all, p) is Some {
        let i = sequence::lemma_find_first_some(all, p);
        assert(p(all[i]));
        assert(sequence::find_first(all, p)->Some_0 == all[i]);
    } else {
        sequence::lemma_find_none_all(all, p);
    }
}

} // verus!
