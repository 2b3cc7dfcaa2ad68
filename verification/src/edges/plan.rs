//! The edge plan of one device: which edges it holds, and how large their buffers are.

use crate::arithmetic;
use crate::device::VulkanComputeDevice;
use crate::device::VulkanError;
use crate::device::VulkanResidentBuffer;
use crate::device::VulkanResidentBufferName;
use crate::device::VulkanResidentBufferView;
use crate::device;
use crate::edges::buffers::VulkanPlacedEdgeBufferAllocation;
use crate::edges::buffers::VulkanPlacedEdgeBufferAllocationView;
use crate::edges::buffers::VulkanPlacedEdgeDirection;
use crate::edges::buffers::VulkanPlacedEdgeEndpointBufferOverride;
use crate::edges::buffers::VulkanPlacedEdgeEndpointBufferOverrideView;
use crate::edges::buffers::VulkanPlacedEdgeIoBuffers;
use crate::edges::buffers::VulkanPlacedEdgeIoBuffersView;
use crate::edges::buffers::VulkanPlacedLocalEdgeBufferAllocation;
use crate::edges::buffers::VulkanPlacedLocalEdgeBufferAllocationView;
use crate::edges::buffers;
use crate::placement::ComponentEdgePlacement;
use crate::placement::ComponentEdgePlacementView;
use crate::placement::EdgeTransport;
use crate::placement::EdgeTransportView;
use crate::resident_plan::VULKAN_STREAM_CIRCUIT_BACKEND_ID;
use crate::resident_plan::VulkanPlacedStreamCircuitResidentPlan;
use crate::resident_plan::VulkanPlacedStreamCircuitResidentPlanView;
use crate::sequence;
use crate::text::Message;
use crate::text;
use vstd::prelude::*;

verus! {

/// Why an edge plan was refused.
#[derive(Debug, PartialEq, Eq)]
pub struct VulkanPlacedEdgeIoPlanError(pub String);

impl DeepView for VulkanPlacedEdgeIoPlanError {
    type V = Seq<char>;

    open spec fn deep_view(&self) -> Seq<char> {
        self.0.deep_view()
    }
}

impl View for VulkanPlacedEdgeIoPlanError {
    type V = Seq<char>;

    open spec fn view(&self) -> Seq<char> {
        self.deep_view()
    }
}

impl Clone for VulkanPlacedEdgeIoPlanError {
    fn clone(&self) -> (r: Self)
        ensures
            r@ == self@,
    {
        VulkanPlacedEdgeIoPlanError(self.0.clone())
    }
}

impl VulkanPlacedEdgeIoPlanError {
    /// The message.
    pub fn to_string(&self) -> (r: String)
        ensures
            r@ == self@,
    {
        self.0.clone()
    }
}

/// An edge with both of its ends on one device.
#[derive(Debug, PartialEq, Eq)]
pub struct VulkanPlacedLocalEdge {
    pub buffer_index: usize,
    pub edge_id: String,
    pub edge_index: usize,
    pub signal: String,
    pub shape: Vec<usize>,
    pub element_count: usize,
    pub byte_capacity: Option<usize>,
    pub device_id: String,
    pub source_component_id: String,
    pub source_port_id: String,
    pub source_component_port: Option<String>,
    pub destination_component_id: String,
    pub destination_port_id: String,
    pub destination_component_port: Option<String>,
    pub transport: EdgeTransport,
}

#[verifier::ext_equal]
pub struct VulkanPlacedLocalEdgeView {
    pub buffer_index: usize,
    pub edge_id: Seq<char>,
    pub edge_index: usize,
    pub signal: Seq<char>,
    pub shape: Seq<usize>,
    pub element_count: usize,
    pub byte_capacity: Option<usize>,
    pub device_id: Seq<char>,
    pub source_component_id: Seq<char>,
    pub source_port_id: Seq<char>,
    pub source_component_port: Option<Seq<char>>,
    pub destination_component_id: Seq<char>,
    pub destination_port_id: Seq<char>,
    pub destination_component_port: Option<Seq<char>>,
    pub transport: EdgeTransportView,
}

impl DeepView for VulkanPlacedLocalEdge {
    type V = VulkanPlacedLocalEdgeView;

    open spec fn deep_view(&self) -> VulkanPlacedLocalEdgeView {
        VulkanPlacedLocalEdgeView {
            buffer_index: self.buffer_index,
            edge_id: self.edge_id.deep_view(),
            edge_index: self.edge_index,
            signal: self.signal.deep_view(),
            shape: self.shape.deep_view(),
            element_count: self.element_count,
            byte_capacity: self.byte_capacity,
            device_id: self.device_id.deep_view(),
            source_component_id: self.source_component_id.deep_view(),
            source_port_id: self.source_port_id.deep_view(),
            source_component_port: self.source_component_port.deep_view(),
            destination_component_id: self.destination_component_id.deep_view(),
            destination_port_id: self.destination_port_id.deep_view(),
            destination_component_port: self.destination_component_port.deep_view(),
            transport: self.transport.deep_view(),
        }
    }
}

impl View for VulkanPlacedLocalEdge {
    type V = VulkanPlacedLocalEdgeView;

    open spec fn view(&self) -> VulkanPlacedLocalEdgeView {
        self.deep_view()
    }
}

impl Clone for VulkanPlacedLocalEdge {
    fn clone(&self) -> (r: Self)
        ensures
            r@ == self@,
    {
        VulkanPlacedLocalEdge {
            buffer_index: self.buffer_index,
            edge_id: self.edge_id.clone(),
            edge_index: self.edge_index,
            signal: self.signal.clone(),
            shape: self.shape.clone(),
            element_count: self.element_count,
            byte_capacity: self.byte_capacity.clone(),
            device_id: self.device_id.clone(),
            source_component_id: self.source_component_id.clone(),
            source_port_id: self.source_port_id.clone(),
            source_component_port: self.source_component_port.clone(),
            destination_component_id: self.destination_component_id.clone(),
            destination_port_id: self.destination_port_id.clone(),
            destination_component_port: self.destination_component_port.clone(),
            transport: self.transport.clone(),
        }
    }
}

/// The end of a cross-device edge that lies on this device.
#[derive(Debug, PartialEq, Eq)]
pub struct VulkanPlacedEdgeEndpoint {
    pub endpoint_index: usize,
    pub endpoint_id: String,
    pub direction: VulkanPlacedEdgeDirection,
    pub edge_index: usize,
    pub signal: String,
    pub shape: Vec<usize>,
    pub element_count: usize,
    pub byte_capacity: Option<usize>,
    pub local_device_id: String,
    pub remote_device_id: String,
    pub local_component_id: String,
    pub remote_component_id: String,
    pub local_port_id: String,
    pub remote_port_id: String,
    pub local_component_port: Option<String>,
    pub remote_component_port: Option<String>,
    pub transport: EdgeTransport,
}

#[verifier::ext_equal]
pub struct VulkanPlacedEdgeEndpointView {
    pub endpoint_index: usize,
    pub endpoint_id: Seq<char>,
    pub direction: VulkanPlacedEdgeDirection,
    pub edge_index: usize,
    pub signal: Seq<char>,
    pub shape: Seq<usize>,
    pub element_count: usize,
    pub byte_capacity: Option<usize>,
    pub local_device_id: Seq<char>,
    pub remote_device_id: Seq<char>,
    pub local_component_id: Seq<char>,
    pub remote_component_id: Seq<char>,
    pub local_port_id: Seq<char>,
    pub remote_port_id: Seq<char>,
    pub local_component_port: Option<Seq<char>>,
    pub remote_component_port: Option<Seq<char>>,
    pub transport: EdgeTransportView,
}

impl DeepView for VulkanPlacedEdgeEndpoint {
    type V = VulkanPlacedEdgeEndpointView;

    open spec fn deep_view(&self) -> VulkanPlacedEdgeEndpointView {
        VulkanPlacedEdgeEndpointView {
            endpoint_index: self.endpoint_index,
            endpoint_id: self.endpoint_id.deep_view(),
            direction: self.direction,
            edge_index: self.edge_index,
            signal: self.signal.deep_view(),
            shape: self.shape.deep_view(),
            element_count: self.element_count,
            byte_capacity: self.byte_capacity,
            local_device_id: self.local_device_id.deep_view(),
            remote_device_id: self.remote_device_id.deep_view(),
            local_component_id: self.local_component_id.deep_view(),
            remote_component_id: self.remote_component_id.deep_view(),
            local_port_id: self.local_port_id.deep_view(),
            remote_port_id: self.remote_port_id.deep_view(),
            local_component_port: self.local_component_port.deep_view(),
            remote_component_port: self.remote_component_port.deep_view(),
            transport: self.transport.deep_view(),
        }
    }
}

impl View for VulkanPlacedEdgeEndpoint {
    type V = VulkanPlacedEdgeEndpointView;

    open spec fn view(&self) -> VulkanPlacedEdgeEndpointView {
        self.deep_view()
    }
}

impl Clone for VulkanPlacedEdgeEndpoint {
    fn clone(&self) -> (r: Self)
        ensures
            r@ == self@,
    {
        VulkanPlacedEdgeEndpoint {
            endpoint_index: self.endpoint_index,
            endpoint_id: self.endpoint_id.clone(),
            direction: self.direction,
            edge_index: self.edge_index,
            signal: self.signal.clone(),
            shape: self.shape.clone(),
            element_count: self.element_count,
            byte_capacity: self.byte_capacity.clone(),
            local_device_id: self.local_device_id.clone(),
            remote_device_id: self.remote_device_id.clone(),
            local_component_id: self.local_component_id.clone(),
            remote_component_id: self.remote_component_id.clone(),
            local_port_id: self.local_port_id.clone(),
            remote_port_id: self.remote_port_id.clone(),
            local_component_port: self.local_component_port.clone(),
            remote_component_port: self.remote_component_port.clone(),
            transport: self.transport.clone(),
        }
    }
}

/// The edges of one device.
#[derive(Debug, PartialEq, Eq)]
pub struct VulkanPlacedEdgeIoPlan {
    pub backend_id: String,
    pub device_id: String,
    pub signal_element_bytes: Option<usize>,
    pub local_edges: Vec<VulkanPlacedLocalEdge>,
    pub endpoints: Vec<VulkanPlacedEdgeEndpoint>,
    pub local_edge_count: usize,
    pub incoming_endpoint_count: usize,
    pub outgoing_endpoint_count: usize,
    pub total_buffer_count: usize,
    pub total_endpoint_count: usize,
    pub total_byte_capacity: Option<usize>,
    pub unresolved_byte_edges: Vec<usize>,
}

#[verifier::ext_equal]
pub struct VulkanPlacedEdgeIoPlanView {
    pub backend_id: Seq<char>,
    pub device_id: Seq<char>,
    pub signal_element_bytes: Option<usize>,
    pub local_edges: Seq<VulkanPlacedLocalEdgeView>,
    pub endpoints: Seq<VulkanPlacedEdgeEndpointView>,
    pub local_edge_count: usize,
    pub incoming_endpoint_count: usize,
    pub outgoing_endpoint_count: usize,
    pub total_buffer_count: usize,
    pub total_endpoint_count: usize,
    pub total_byte_capacity: Option<usize>,
    pub unresolved_byte_edges: Seq<usize>,
}

impl DeepView for VulkanPlacedEdgeIoPlan {
    type V = VulkanPlacedEdgeIoPlanView;

    open spec fn deep_view(&self) -> VulkanPlacedEdgeIoPlanView {
        VulkanPlacedEdgeIoPlanView {
            backend_id: self.backend_id.deep_view(),
            device_id: self.device_id.deep_view(),
            signal_element_bytes: self.signal_element_bytes,
            local_edges: self.local_edges.deep_view(),
            endpoints: self.endpoints.deep_view(),
            local_edge_count: self.local_edge_count,
            incoming_endpoint_count: self.incoming_endpoint_count,
            outgoing_endpoint_count: self.outgoing_endpoint_count,
            total_buffer_count: self.total_buffer_count,
            total_endpoint_count: self.total_endpoint_count,
            total_byte_capacity: self.total_byte_capacity,
            unresolved_byte_edges: self.unresolved_byte_edges.deep_view(),
        }
    }
}

impl View for VulkanPlacedEdgeIoPlan {
    type V = VulkanPlacedEdgeIoPlanView;

    open spec fn view(&self) -> VulkanPlacedEdgeIoPlanView {
        self.deep_view()
    }
}

impl Clone for VulkanPlacedEdgeIoPlan {
    fn clone(&self) -> (r: Self)
        ensures
            r@ == self@,
    {
        VulkanPlacedEdgeIoPlan {
            backend_id: self.backend_id.clone(),
            device_id: self.device_id.clone(),
            signal_element_bytes: self.signal_element_bytes.clone(),
            local_edges: self.local_edges.clone(),
            endpoints: self.endpoints.clone(),
            local_edge_count: self.local_edge_count,
            incoming_endpoint_count: self.incoming_endpoint_count,
            outgoing_endpoint_count: self.outgoing_endpoint_count,
            total_buffer_count: self.total_buffer_count,
            total_endpoint_count: self.total_endpoint_count,
            total_byte_capacity: self.total_byte_capacity.clone(),
            unresolved_byte_edges: self.unresolved_byte_edges.clone(),
        }
    }
}

// ---------------------------------------------------------------------------
// Planning
// ---------------------------------------------------------------------------

/// The number of elements of an edge's signal.
pub open spec fn edge_elements(placement: ComponentEdgePlacementView) -> Result<usize, Seq<char>> {
    match arithmetic::checked_product(1, placement.shape) {
        None => Err(
            "edge "@ + text::decimal(placement.edge_index as nat) + " signal shape "@
                + text::number_list(placement.shape) + " overflows"@,
        ),
        Some(elements) => if elements == 0 {
            Err(
                "edge "@ + text::decimal(placement.edge_index as nat) + " signal shape "@
                    + text::number_list(placement.shape) + " has zero elements"@,
            )
        } else {
            Ok(elements as usize)
        },
    }
}

/// The number of bytes of an edge's signal, where the size of an element is known.
pub open spec fn edge_bytes(
    placement: ComponentEdgePlacementView,
    elements: usize,
    element_bytes: Option<usize>,
) -> Result<Option<usize>, Seq<char>> {
    match element_bytes {
        None => Ok(None),
        Some(bytes) => if elements * bytes > usize::MAX {
            Err("edge "@ + text::decimal(placement.edge_index as nat) + " byte capacity overflowed"@)
        } else {
            Ok(Some((elements * bytes) as usize))
        },
    }
}

/// Elements and bytes of an edge's signal.
pub open spec fn edge_size(
    placement: ComponentEdgePlacementView,
    element_bytes: Option<usize>,
) -> Result<(usize, Option<usize>), Seq<char>> {
    match edge_elements(placement) {
        Err(e) => Err(e),
        Ok(elements) => match edge_bytes(placement, elements, element_bytes) {
            Err(e) => Err(e),
            Ok(bytes) => Ok((elements, bytes)),
        },
    }
}

/// A local edge of a device.
#[verifier::opaque]
pub open spec fn local_edge(
    buffer_index: int,
    device_id: Seq<char>,
    placement: ComponentEdgePlacementView,
    element_bytes: Option<usize>,
) -> Result<VulkanPlacedLocalEdgeView, Seq<char>> {
    match placement.transport {
        EdgeTransportView::LocalBuffer { device_id: transport_device_id } => {
            if transport_device_id != device_id || placement.source_device_id != device_id
                || placement.destination_device_id != device_id {
                Err(
                    "local edge "@ + text::decimal(placement.edge_index as nat)
                        + " is not fully resident on device "@ + text::quoted(device_id),
                )
            } else {
                match edge_size(placement, element_bytes) {
                    Err(e) => Err(e),
                    Ok((element_count, byte_capacity)) => Ok(
                        VulkanPlacedLocalEdgeView {
                            buffer_index: buffer_index as usize,
                            edge_id: "edge_"@ + text::decimal(placement.edge_index as nat)
                                + "_local"@,
                            edge_index: placement.edge_index,
                            signal: placement.signal,
                            shape: placement.shape,
                            element_count,
                            byte_capacity,
                            device_id,
                            source_component_id: placement.source_component_id,
                            source_port_id: placement.source_port_id,
                            source_component_port: placement.source_component_port,
                            destination_component_id: placement.destination_component_id,
                            destination_port_id: placement.destination_port_id,
                            destination_component_port: placement.destination_component_port,
                            transport: placement.transport,
                        },
                    ),
                }
            }
        },
        _ => Err(
            "edge "@ + text::decimal(placement.edge_index as nat) + " is not a local edge"@,
        ),
    }
}

/// An endpoint of a device.
#[verifier::opaque]
pub open spec fn edge_endpoint(
    endpoint_index: int,
    direction: VulkanPlacedEdgeDirection,
    device_id: Seq<char>,
    placement: ComponentEdgePlacementView,
    element_bytes: Option<usize>,
) -> Result<VulkanPlacedEdgeEndpointView, Seq<char>> {
    match placement.transport {
        EdgeTransportView::CrossDevice { from_device_id, to_device_id } => {
            if direction is Incoming && (to_device_id != device_id
                || placement.destination_device_id != device_id) {
                Err(
                    "incoming edge "@ + text::decimal(placement.edge_index as nat)
                        + " does not terminate on device "@ + text::quoted(device_id),
                )
            } else if direction is Outgoing && (from_device_id != device_id
                || placement.source_device_id != device_id) {
                Err(
                    "outgoing edge "@ + text::decimal(placement.edge_index as nat)
                        + " does not originate on device "@ + text::quoted(device_id),
                )
            } else {
                match edge_size(placement, element_bytes) {
                    Err(e) => Err(e),
                    Ok((element_count, byte_capacity)) => Ok(
                        if direction is Incoming {
                            VulkanPlacedEdgeEndpointView {
                                endpoint_index: endpoint_index as usize,
                                endpoint_id: "edge_"@ + text::decimal(placement.edge_index as nat)
                                    + "_in"@,
                                direction,
                                edge_index: placement.edge_index,
                                signal: placement.signal,
                                shape: placement.shape,
                                element_count,
                                byte_capacity,
                                local_device_id: placement.destination_device_id,
                                remote_device_id: placement.source_device_id,
                                local_component_id: placement.destination_component_id,
                                remote_component_id: placement.source_component_id,
                                local_port_id: placement.destination_port_id,
                                remote_port_id: placement.source_port_id,
                                local_component_port: placement.destination_component_port,
                                remote_component_port: placement.source_component_port,
                                transport: placement.transport,
                            }
                        } else {
                            VulkanPlacedEdgeEndpointView {
                                endpoint_index: endpoint_index as usize,
                                endpoint_id: "edge_"@ + text::decimal(placement.edge_index as nat)
                                    + "_out"@,
                                direction,
                                edge_index: placement.edge_index,
                                signal: placement.signal,
                                shape: placement.shape,
                                element_count,
                                byte_capacity,
                                local_device_id: placement.source_device_id,
                                remote_device_id: placement.destination_device_id,
                                local_component_id: placement.source_component_id,
                                remote_component_id: placement.destination_component_id,
                                local_port_id: placement.source_port_id,
                                remote_port_id: placement.destination_port_id,
                                local_component_port: placement.source_component_port,
                                remote_component_port: placement.destination_component_port,
                                transport: placement.transport,
                            }
                        },
                    ),
                }
            }
        },
        _ => Err(
            "edge "@ + text::decimal(placement.edge_index as nat) + " is not a cross-device edge"@,
        ),
    }
}

/// One step over the local edges.
pub open spec fn local_step(device_id: Seq<char>, element_bytes: Option<usize>) -> spec_fn(
    Seq<VulkanPlacedLocalEdgeView>,
    ComponentEdgePlacementView,
) -> Result<Seq<VulkanPlacedLocalEdgeView>, Seq<char>> {
    |done: Seq<VulkanPlacedLocalEdgeView>, placement: ComponentEdgePlacementView|
        match local_edge(done.len() as int, device_id, placement, element_bytes) {
            Err(e) => Err(e),
            Ok(edge) => Ok(done.push(edge)),
        }
}

/// One step over the cross-device edges of a direction.
pub open spec fn endpoint_step(
    direction: VulkanPlacedEdgeDirection,
    device_id: Seq<char>,
    element_bytes: Option<usize>,
) -> spec_fn(Seq<VulkanPlacedEdgeEndpointView>, ComponentEdgePlacementView) -> Result<
    Seq<VulkanPlacedEdgeEndpointView>,
    Seq<char>,
> {
    |done: Seq<VulkanPlacedEdgeEndpointView>, placement: ComponentEdgePlacementView|
        match edge_endpoint(done.len() as int, direction, device_id, placement, element_bytes) {
            Err(e) => Err(e),
            Ok(endpoint) => Ok(done.push(endpoint)),
        }
}

/// The byte capacity of every buffer, with the edge that it is for.
pub open spec fn edge_capacities(
    local_edges: Seq<VulkanPlacedLocalEdgeView>,
    endpoints: Seq<VulkanPlacedEdgeEndpointView>,
) -> Seq<(usize, Option<usize>)> {
    Seq::new(
        local_edges.len(),
        |i: int| (local_edges[i].edge_index, local_edges[i].byte_capacity),
    ) + Seq::new(
        endpoints.len(),
        |i: int| (endpoints[i].edge_index, endpoints[i].byte_capacity),
    )
}

/// The edges whose byte capacity is unknown.
pub open spec fn unresolved_edges(capacities: Seq<(usize, Option<usize>)>) -> Seq<usize>
    decreases capacities.len(),
{
    if capacities.len() == 0 {
        Seq::empty()
    } else {
        let front = unresolved_edges(capacities.drop_last());
        if capacities.last().1 is None {
            front.push(capacities.last().0)
        } else {
            front
        }
    }
}

/// Adds a byte capacity; one that is unknown makes the sum unknown.
pub open spec fn capacity_step() -> spec_fn(Option<usize>, (usize, Option<usize>)) -> Result<
    Option<usize>,
    Seq<char>,
> {
    |total: Option<usize>, capacity: (usize, Option<usize>)|
        match (total, capacity.1) {
            (Some(total), Some(bytes)) => if total + bytes > usize::MAX {
                Err("placed edge buffer byte capacity overflowed"@)
            } else {
                Ok(Some((total + bytes) as usize))
            },
            _ => Ok(None),
        }
}

/// The edge plan of a device.
pub open spec fn edge_io_plan(placed: VulkanPlacedStreamCircuitResidentPlanView) -> Result<
    VulkanPlacedEdgeIoPlanView,
    Seq<char>,
> {
    let element_bytes = placed.signal_element_bytes;
    match sequence::try_fold(
        placed.local_edges,
        Seq::<VulkanPlacedLocalEdgeView>::empty(),
        local_step(placed.device_id, element_bytes),
    ) {
        Err(e) => Err(e),
        Ok(local_edges) => match sequence::try_fold(
            placed.incoming_edges,
            Seq::<VulkanPlacedEdgeEndpointView>::empty(),
            endpoint_step(VulkanPlacedEdgeDirection::Incoming, placed.device_id, element_bytes),
        ) {
            Err(e) => Err(e),
            Ok(incoming) => match sequence::try_fold(
                placed.outgoing_edges,
                incoming,
                endpoint_step(VulkanPlacedEdgeDirection::Outgoing, placed.device_id, element_bytes),
            ) {
                Err(e) => Err(e),
                Ok(endpoints) => edge_io_plan_of(placed, local_edges, endpoints),
            },
        },
    }
}

/// The edge plan of these edges and endpoints.
pub open spec fn edge_io_plan_of(
    placed: VulkanPlacedStreamCircuitResidentPlanView,
    local_edges: Seq<VulkanPlacedLocalEdgeView>,
    endpoints: Seq<VulkanPlacedEdgeEndpointView>,
) -> Result<VulkanPlacedEdgeIoPlanView, Seq<char>> {
    let capacities = edge_capacities(local_edges, endpoints);
    match sequence::try_fold(capacities, Some(0usize), capacity_step()) {
        Err(e) => Err(e),
        Ok(total_byte_capacity) => Ok(
            VulkanPlacedEdgeIoPlanView {
                backend_id: VULKAN_STREAM_CIRCUIT_BACKEND_ID@,
                device_id: placed.device_id,
                signal_element_bytes: placed.signal_element_bytes,
                local_edges,
                endpoints,
                local_edge_count: local_edges.len() as usize,
                incoming_endpoint_count: placed.incoming_edges.len() as usize,
                outgoing_endpoint_count: placed.outgoing_edges.len() as usize,
                total_buffer_count: (local_edges.len() + endpoints.len()) as usize,
                total_endpoint_count: endpoints.len() as usize,
                total_byte_capacity,
                unresolved_byte_edges: unresolved_edges(capacities),
            },
        ),
    }
}

fn measure(placement: &ComponentEdgePlacement, element_bytes: Option<usize>) -> (r: Result<
    (usize, Option<usize>),
    VulkanPlacedEdgeIoPlanError,
>)
    ensures
        sequence::outcome(r) == edge_size(placement@, element_bytes),
{
    assert(placement.shape.deep_view() =~= placement.shape@);
    let element_count: usize = match arithmetic::product(&placement.shape) {
        Some(count) => count,
        None => return Err(
            VulkanPlacedEdgeIoPlanError(
                Message::new("edge ").number(placement.edge_index).text(
                    " signal shape ",
                ).number_list(&placement.shape).text(" overflows").done(),
            ),
        ),
    };
    if element_count == 0 {
        return Err(
            VulkanPlacedEdgeIoPlanError(
                Message::new("edge ").number(placement.edge_index).text(
                    " signal shape ",
                ).number_list(&placement.shape).text(" has zero elements").done(),
            ),
        );
    }
    match element_bytes {
        None => Ok((element_count, None)),
        Some(bytes) => match element_count.checked_mul(bytes) {
            Some(capacity) => Ok((element_count, Some(capacity))),
            None => Err(
                VulkanPlacedEdgeIoPlanError(
                    Message::new("edge ").number(placement.edge_index).text(
                        " byte capacity overflowed",
                    ).done(),
                ),
            ),
        },
    }
}

impl VulkanPlacedLocalEdge {
    fn from_edge(
        buffer_index: usize,
        device_id: &String,
        placement: &ComponentEdgePlacement,
        element_bytes: Option<usize>,
    ) -> (r: Result<Self, VulkanPlacedEdgeIoPlanError>)
        ensures
            sequence::outcome(r) == local_edge(
                buffer_index as int,
                device_id@,
                placement@,
                element_bytes,
            ),
    {
        reveal(local_edge);
        match &placement.transport {
            EdgeTransport::LocalBuffer { device_id: transport_device_id } => {
                if *transport_device_id != *device_id || placement.source_device_id != *device_id
                    || placement.destination_device_id != *device_id {
                    return Err(
                        VulkanPlacedEdgeIoPlanError(
                            Message::new("local edge ").number(placement.edge_index).text(
                                " is not fully resident on device ",
                            ).quoted(device_id.as_str()).done(),
                        ),
                    );
                }
            },
            _ => return Err(
                VulkanPlacedEdgeIoPlanError(
                    Message::new("edge ").number(placement.edge_index).text(
                        " is not a local edge",
                    ).done(),
                ),
            ),
        }
        let (element_count, byte_capacity): (usize, Option<usize>) = match measure(
            placement,
            element_bytes,
        ) {
            Ok(size) => size,
            Err(e) => return Err(e),
        };
        Ok(
            VulkanPlacedLocalEdge {
                buffer_index,
                edge_id: Message::new("edge_").number(placement.edge_index).text("_local").done(),
                edge_index: placement.edge_index,
                signal: placement.signal.clone(),
                shape: placement.shape.clone(),
                element_count,
                byte_capacity,
                device_id: device_id.clone(),
                source_component_id: placement.source_component_id.clone(),
                source_port_id: placement.source_port_id.clone(),
                source_component_port: placement.source_component_port.clone(),
                destination_component_id: placement.destination_component_id.clone(),
                destination_port_id: placement.destination_port_id.clone(),
                destination_component_port: placement.destination_component_port.clone(),
                transport: placement.transport.clone(),
            },
        )
    }
}

impl VulkanPlacedEdgeEndpoint {
    fn from_edge(
        endpoint_index: usize,
        direction: VulkanPlacedEdgeDirection,
        device_id: &String,
        placement: &ComponentEdgePlacement,
        element_bytes: Option<usize>,
    ) -> (r: Result<Self, VulkanPlacedEdgeIoPlanError>)
        ensures
            sequence::outcome(r) == edge_endpoint(
                endpoint_index as int,
                direction,
                device_id@,
                placement@,
                element_bytes,
            ),
    {
        reveal(edge_endpoint);
        match &placement.transport {
            EdgeTransport::CrossDevice { from_device_id, to_device_id } => match direction {
                VulkanPlacedEdgeDirection::Incoming => {
                    if *to_device_id != *device_id || placement.destination_device_id
                        != *device_id {
                        return Err(
                            VulkanPlacedEdgeIoPlanError(
                                Message::new("incoming edge ").number(placement.edge_index).text(
                                    " does not terminate on device ",
                                ).quoted(device_id.as_str()).done(),
                            ),
                        );
                    }
                },
                VulkanPlacedEdgeDirection::Outgoing => {
                    if *from_device_id != *device_id || placement.source_device_id != *device_id {
                        return Err(
                            VulkanPlacedEdgeIoPlanError(
                                Message::new("outgoing edge ").number(placement.edge_index).text(
                                    " does not originate on device ",
                                ).quoted(device_id.as_str()).done(),
                            ),
                        );
                    }
                },
            },
            _ => return Err(
                VulkanPlacedEdgeIoPlanError(
                    Message::new("edge ").number(placement.edge_index).text(
                        " is not a cross-device edge",
                    ).done(),
                ),
            ),
        }
        let (element_count, byte_capacity): (usize, Option<usize>) = match measure(
            placement,
            element_bytes,
        ) {
            Ok(size) => size,
            Err(e) => return Err(e),
        };
        match direction {
            VulkanPlacedEdgeDirection::Incoming => Ok(
                VulkanPlacedEdgeEndpoint {
                    endpoint_index,
                    endpoint_id: Message::new("edge_").number(placement.edge_index).text(
                        "_in",
                    ).done(),
                    direction,
                    edge_index: placement.edge_index,
                    signal: placement.signal.clone(),
                    shape: placement.shape.clone(),
                    element_count,
                    byte_capacity,
                    local_device_id: placement.destination_device_id.clone(),
                    remote_device_id: placement.source_device_id.clone(),
                    local_component_id: placement.destination_component_id.clone(),
                    remote_component_id: placement.source_component_id.clone(),
                    local_port_id: placement.destination_port_id.clone(),
                    remote_port_id: placement.source_port_id.clone(),
                    local_component_port: placement.destination_component_port.clone(),
                    remote_component_port: placement.source_component_port.clone(),
                    transport: placement.transport.clone(),
                },
            ),
            VulkanPlacedEdgeDirection::Outgoing => Ok(
                VulkanPlacedEdgeEndpoint {
                    endpoint_index,
                    endpoint_id: Message::new("edge_").number(placement.edge_index).text(
                        "_out",
                    ).done(),
                    direction,
                    edge_index: placement.edge_index,
                    signal: placement.signal.clone(),
                    shape: placement.shape.clone(),
                    element_count,
                    byte_capacity,
                    local_device_id: placement.source_device_id.clone(),
                    remote_device_id: placement.destination_device_id.clone(),
                    local_component_id: placement.source_component_id.clone(),
                    remote_component_id: placement.destination_component_id.clone(),
                    local_port_id: placement.source_port_id.clone(),
                    remote_port_id: placement.destination_port_id.clone(),
                    local_component_port: placement.source_component_port.clone(),
                    remote_component_port: placement.destination_component_port.clone(),
                    transport: placement.transport.clone(),
                },
            ),
        }
    }
}

#[verifier::loop_isolation(false)]
fn plan_local(
    placements: &Vec<ComponentEdgePlacement>,
    device_id: &String,
    element_bytes: Option<usize>,
) -> (r: Result<Vec<VulkanPlacedLocalEdge>, VulkanPlacedEdgeIoPlanError>)
    ensures
        sequence::outcome(r) == sequence::try_fold(
            placements.deep_view(),
            Seq::<VulkanPlacedLocalEdgeView>::empty(),
            local_step(device_id@, element_bytes),
        ),
        r is Ok ==> r->Ok_0@.len() == placements@.len(),
{
    let ghost all = placements.deep_view();
    let ghost init = Seq::<VulkanPlacedLocalEdgeView>::empty();
    let ghost step = local_step(device_id@, element_bytes);
    let mut local_edges: Vec<VulkanPlacedLocalEdge> = Vec::new();
    let mut i: usize = 0;
    assert(local_edges.deep_view() =~= init);
    assert(all.take(0) =~= Seq::empty());
    while i < placements.len()
        invariant
            i <= placements.len(),
            local_edges@.len() == i,
            sequence::try_fold(all.take(i as int), init, step) == Ok::<
                Seq<VulkanPlacedLocalEdgeView>,
                Seq<char>,
            >(local_edges.deep_view()),
        decreases placements.len() - i,
    {
        proof {
            sequence::lemma_try_fold_step(all, init, step, i as int);
            assert(all[i as int] == placements@[i as int]@);
            assert(local_edges.deep_view().len() == i);
        }
        match VulkanPlacedLocalEdge::from_edge(i, device_id, &placements[i], element_bytes) {
            Ok(edge) => {
                let ghost before = local_edges.deep_view();
                let ghost added = edge@;
                local_edges.push(edge);
                assert(local_edges.deep_view() =~= before.push(added));
            },
            Err(e) => {
                proof {
                    sequence::lemma_try_fold_error(all, init, step, i + 1);
                }
                return Err(e);
            },
        }
        i += 1;
    }
    assert(all.take(all.len() as int) =~= all);
    Ok(local_edges)
}

#[verifier::loop_isolation(false)]
fn plan_endpoints(
    earlier: Vec<VulkanPlacedEdgeEndpoint>,
    placements: &Vec<ComponentEdgePlacement>,
    direction: VulkanPlacedEdgeDirection,
    device_id: &String,
    element_bytes: Option<usize>,
) -> (r: Result<Vec<VulkanPlacedEdgeEndpoint>, VulkanPlacedEdgeIoPlanError>)
    requires
        earlier@.len() + placements@.len() <= usize::MAX,
    ensures
        sequence::outcome(r) == sequence::try_fold(
            placements.deep_view(),
            earlier.deep_view(),
            endpoint_step(direction, device_id@, element_bytes),
        ),
        r is Ok ==> r->Ok_0@.len() == earlier@.len() + placements@.len(),
{
    let ghost all = placements.deep_view();
    let ghost init = earlier.deep_view();
    let ghost step = endpoint_step(direction, device_id@, element_bytes);
    let start: usize = earlier.len();
    let mut endpoints: Vec<VulkanPlacedEdgeEndpoint> = earlier;
    let mut i: usize = 0;
    assert(all.take(0) =~= Seq::empty());
    while i < placements.len()
        invariant
            i <= placements.len(),
            endpoints@.len() == start + i,
            sequence::try_fold(all.take(i as int), init, step) == Ok::<
                Seq<VulkanPlacedEdgeEndpointView>,
                Seq<char>,
            >(endpoints.deep_view()),
        decreases placements.len() - i,
    {
        proof {
            sequence::lemma_try_fold_step(all, init, step, i as int);
            assert(all[i as int] == placements@[i as int]@);
            assert(endpoints.deep_view().len() == endpoints@.len());
        }
        match VulkanPlacedEdgeEndpoint::from_edge(
            start + i,
            direction,
            device_id,
            &placements[i],
            element_bytes,
        ) {
            Ok(endpoint) => {
                let ghost before = endpoints.deep_view();
                let ghost added = endpoint@;
                endpoints.push(endpoint);
                assert(endpoints.deep_view() =~= before.push(added));
            },
            Err(e) => {
                proof {
                    sequence::lemma_try_fold_error(all, init, step, i + 1);
                }
                return Err(e);
            },
        }
        i += 1;
    }
    assert(all.take(all.len() as int) =~= all);
    Ok(endpoints)
}

#[verifier::loop_isolation(false)]
fn list_capacities(
    local_edges: &Vec<VulkanPlacedLocalEdge>,
    endpoints: &Vec<VulkanPlacedEdgeEndpoint>,
) -> (r: Vec<(usize, Option<usize>)>)
    ensures
        r@ == edge_capacities(local_edges.deep_view(), endpoints.deep_view()),
{
    let ghost local_views = local_edges.deep_view();
    let ghost endpoint_views = endpoints.deep_view();
    let ghost goal = edge_capacities(local_views, endpoint_views);
    let mut capacities: Vec<(usize, Option<usize>)> = Vec::new();
    let mut i: usize = 0;
    while i < local_edges.len()
        invariant
            i <= local_edges.len(),
            capacities@ =~= goal.take(i as int),
        decreases local_edges.len() - i,
    {
        assert(local_views[i as int] == local_edges@[i as int]@);
        capacities.push((local_edges[i].edge_index, local_edges[i].byte_capacity));
        i += 1;
    }
    let mut k: usize = 0;
    while k < endpoints.len()
        invariant
            k <= endpoints.len(),
            capacities@ =~= goal.take(local_views.len() + k as int),
        decreases endpoints.len() - k,
    {
        assert(endpoint_views[k as int] == endpoints@[k as int]@);
        assert(goal[local_views.len() + k as int] == (
            endpoint_views[k as int].edge_index,
            endpoint_views[k as int].byte_capacity,
        ));
        capacities.push((endpoints[k].edge_index, endpoints[k].byte_capacity));
        k += 1;
    }
    assert(goal.take(goal.len() as int) =~= goal);
    capacities
}

#[verifier::loop_isolation(false)]
fn sum_capacities(capacities: &Vec<(usize, Option<usize>)>) -> (r: Result<
    (Option<usize>, Vec<usize>),
    VulkanPlacedEdgeIoPlanError,
>)
    ensures
        sequence::outcome(r) == (match sequence::try_fold(
            capacities@,
            Some(0usize),
            capacity_step(),
        ) {
            Err(e) => Err::<(Option<usize>, Seq<usize>), Seq<char>>(e),
            Ok(total) => Ok((total, unresolved_edges(capacities@))),
        }),
{
    let ghost all = capacities@;
    let ghost step = capacity_step();
    let mut total: Option<usize> = Some(0);
    let mut unresolved: Vec<usize> = Vec::new();
    let mut i: usize = 0;
    assert(all.take(0) =~= Seq::empty());
    while i < capacities.len()
        invariant
            i <= capacities.len(),
            sequence::try_fold(all.take(i as int), Some(0usize), step) == Ok::<
                Option<usize>,
                Seq<char>,
            >(total),
            unresolved@ == unresolved_edges(all.take(i as int)),
        decreases capacities.len() - i,
    {
        proof {
            sequence::lemma_try_fold_step(all, Some(0usize), step, i as int);
            assert(all.take(i + 1).drop_last() =~= all.take(i as int));
            if sequence::try_fold(all.take(i + 1), Some(0usize), step) is Err {
                sequence::lemma_try_fold_error(all, Some(0usize), step, i + 1);
            }
        }
        total = match (total, capacities[i].1) {
            (Some(sum), Some(bytes)) => match sum.checked_add(bytes) {
                Some(sum) => Some(sum),
                None => return Err(
                    VulkanPlacedEdgeIoPlanError(
                        "placed edge buffer byte capacity overflowed".to_owned(),
                    ),
                ),
            },
            _ => None,
        };
        if capacities[i].1.is_none() {
            unresolved.push(capacities[i].0);
        }
        i += 1;
    }
    assert(all.take(all.len() as int) =~= all);
    assert(unresolved.deep_view() =~= unresolved@);
    Ok((total, unresolved))
}

impl VulkanPlacedEdgeIoPlan {
    /// The edge plan of a device.
    pub fn from_placed_resident_plan(placed: &VulkanPlacedStreamCircuitResidentPlan) -> (r: Result<
        Self,
        VulkanPlacedEdgeIoPlanError,
    >)
        requires
            placed@.local_edges.len() + placed@.incoming_edges.len() + placed@.outgoing_edges.len()
                <= usize::MAX,
        ensures
            sequence::outcome(r) == edge_io_plan(placed@),
    {
        assert(placed@.local_edges.len() == placed.local_edges@.len());
        assert(placed@.incoming_edges.len() == placed.incoming_edges@.len());
        assert(placed@.outgoing_edges.len() == placed.outgoing_edges@.len());
        let local_edges: Vec<VulkanPlacedLocalEdge> = match plan_local(
            &placed.local_edges,
            &placed.device_id,
            placed.signal_element_bytes,
        ) {
            Ok(local_edges) => local_edges,
            Err(e) => return Err(e),
        };
        let none: Vec<VulkanPlacedEdgeEndpoint> = Vec::new();
        assert(none.deep_view() =~= Seq::empty());
        let incoming: Vec<VulkanPlacedEdgeEndpoint> = match plan_endpoints(
            none,
            &placed.incoming_edges,
            VulkanPlacedEdgeDirection::Incoming,
            &placed.device_id,
            placed.signal_element_bytes,
        ) {
            Ok(endpoints) => endpoints,
            Err(e) => return Err(e),
        };
        let endpoints: Vec<VulkanPlacedEdgeEndpoint> = match plan_endpoints(
            incoming,
            &placed.outgoing_edges,
            VulkanPlacedEdgeDirection::Outgoing,
            &placed.device_id,
            placed.signal_element_bytes,
        ) {
            Ok(endpoints) => endpoints,
            Err(e) => return Err(e),
        };
        let capacities: Vec<(usize, Option<usize>)> = list_capacities(&local_edges, &endpoints);
        let (total_byte_capacity, unresolved_byte_edges): (Option<usize>, Vec<usize>) =
            match sum_capacities(&capacities) {
            Ok(sums) => sums,
            Err(e) => return Err(e),
        };
        assert(local_edges.deep_view().len() == local_edges@.len());
        assert(endpoints.deep_view().len() == endpoints@.len());
        Ok(
            VulkanPlacedEdgeIoPlan {
                backend_id: VULKAN_STREAM_CIRCUIT_BACKEND_ID.to_owned(),
                device_id: placed.device_id.clone(),
                signal_element_bytes: placed.signal_element_bytes,
                local_edge_count: local_edges.len(),
                incoming_endpoint_count: placed.incoming_edges.len(),
                outgoing_endpoint_count: placed.outgoing_edges.len(),
                total_buffer_count: local_edges.len() + endpoints.len(),
                total_endpoint_count: endpoints.len(),
                local_edges,
                endpoints,
                total_byte_capacity,
                unresolved_byte_edges,
            },
        )
    }

    /// The endpoint of an edge in a direction.
    #[verifier::loop_isolation(false)]
    pub fn endpoint(&self, direction: VulkanPlacedEdgeDirection, edge_index: usize) -> (r: Option<
        &VulkanPlacedEdgeEndpoint,
    >)
        ensures
            r.deep_view() == find_endpoint(self@, direction, edge_index),
    {
        let ghost all = self@.endpoints;
        let ghost p = endpoint_matcher(direction, edge_index);
        let mut i: usize = 0;
        while i < self.endpoints.len()
            invariant
                i <= self.endpoints.len(),
                forall|j: int| 0 <= j < i ==> !p(#[trigger] all[j]),
            decreases self.endpoints.len() - i,
        {
            let endpoint: &VulkanPlacedEdgeEndpoint = &self.endpoints[i];
            assert(all[i as int] == endpoint@);
            if endpoint.direction == direction && endpoint.edge_index == edge_index {
                proof {
                    sequence::lemma_find_first_at(all, p, i as int);
                }
                return Some(endpoint);
            }
            i += 1;
        }
        proof {
            sequence::lemma_find_first_none(all, p);
        }
        None
    }
}

/// Whether an endpoint is that of an edge in a direction.
pub open spec fn endpoint_matcher(
    direction: VulkanPlacedEdgeDirection,
    edge_index: usize,
) -> spec_fn(VulkanPlacedEdgeEndpointView) -> bool {
    |endpoint: VulkanPlacedEdgeEndpointView|
        endpoint.direction == direction && endpoint.edge_index == edge_index
}

/// The endpoint of an edge in a direction.
pub open spec fn find_endpoint(
    plan: VulkanPlacedEdgeIoPlanView,
    direction: VulkanPlacedEdgeDirection,
    edge_index: usize,
) -> Option<VulkanPlacedEdgeEndpointView> {
    sequence::find_first(plan.endpoints, endpoint_matcher(direction, edge_index))
}

// ---------------------------------------------------------------------------
// Buffers
// ---------------------------------------------------------------------------

/// The name of a direction.
pub open spec fn direction_name(direction: VulkanPlacedEdgeDirection) -> Seq<char> {
    match direction {
        VulkanPlacedEdgeDirection::Incoming => "Incoming"@,
        VulkanPlacedEdgeDirection::Outgoing => "Outgoing"@,
    }
}

pub(crate) fn name_of_direction(direction: VulkanPlacedEdgeDirection) -> (r: &'static str)
    ensures
        r@ == direction_name(direction),
{
    match direction {
        VulkanPlacedEdgeDirection::Incoming => "Incoming",
        VulkanPlacedEdgeDirection::Outgoing => "Outgoing",
    }
}

/// Whether an override is for an edge in a direction.
pub open spec fn override_matcher(
    direction: VulkanPlacedEdgeDirection,
    edge_index: usize,
) -> spec_fn(VulkanPlacedEdgeEndpointBufferOverrideView) -> bool {
    |stand_in: VulkanPlacedEdgeEndpointBufferOverrideView|
        stand_in.direction == direction && stand_in.edge_index == edge_index
}

/// What is said of an endpoint whose byte capacity is unknown.
pub open spec fn unknown_capacity(
    device_id: Seq<char>,
    endpoint: VulkanPlacedEdgeEndpointView,
) -> Seq<char> {
    device_id + " endpoint "@ + endpoint.endpoint_id + " for edge "@ + text::decimal(
        endpoint.edge_index as nat,
    ) + " has unknown byte capacity"@
}

/// Accepts one override: it is the only one for its endpoint, its buffer lies on the device, and
/// the buffer is large enough.
#[verifier::opaque]
pub open spec fn override_accepted(
    plan: VulkanPlacedEdgeIoPlanView,
    device_id: Seq<char>,
    done: Seq<VulkanPlacedEdgeEndpointBufferOverrideView>,
    stand_in: VulkanPlacedEdgeEndpointBufferOverrideView,
) -> Result<Seq<VulkanPlacedEdgeEndpointBufferOverrideView>, Seq<char>> {
    let index = text::decimal(stand_in.edge_index as nat);
    let owner = text::quoted(plan.device_id);
    if sequence::find_first(
        done,
        override_matcher(stand_in.direction, stand_in.edge_index),
    ) is Some {
        Err(
            "edge endpoint buffer override repeats "@ + direction_name(stand_in.direction)
                + " edge "@ + index + " on "@ + owner,
        )
    } else if stand_in.buffer.device_id != device_id {
        Err(
            "edge endpoint buffer override for edge "@ + index + " on "@ + owner
                + " belongs to a different Vulkan logical device"@,
        )
    } else {
        match find_endpoint(plan, stand_in.direction, stand_in.edge_index) {
            None => Err(
                "edge endpoint buffer override does not address "@ + direction_name(
                    stand_in.direction,
                ) + " edge "@ + index + " on "@ + owner,
            ),
            Some(endpoint) => match endpoint.byte_capacity {
                None => Err(unknown_capacity(plan.device_id, endpoint)),
                Some(needed) => if stand_in.buffer.byte_capacity < needed {
                    Err(
                        "edge endpoint buffer override for edge "@ + index + " on "@ + owner
                            + " has "@ + text::decimal(stand_in.buffer.byte_capacity as nat)
                            + " bytes, needs "@ + text::decimal(needed as nat),
                    )
                } else {
                    Ok(done.push(stand_in))
                },
            },
        }
    }
}

/// One step over the overrides.
pub open spec fn override_step(plan: VulkanPlacedEdgeIoPlanView, device_id: Seq<char>) -> spec_fn(
    Seq<VulkanPlacedEdgeEndpointBufferOverrideView>,
    VulkanPlacedEdgeEndpointBufferOverrideView,
) -> Result<Seq<VulkanPlacedEdgeEndpointBufferOverrideView>, Seq<char>> {
    |
        done: Seq<VulkanPlacedEdgeEndpointBufferOverrideView>,
        stand_in: VulkanPlacedEdgeEndpointBufferOverrideView,
    |
        override_accepted(plan, device_id, done, stand_in)
}

/// The buffers described so far.
#[verifier::ext_equal]
pub struct EdgeBuffersView {
    pub local: Seq<VulkanPlacedLocalEdgeBufferAllocationView>,
    pub incoming: Seq<VulkanPlacedEdgeBufferAllocationView>,
    pub outgoing: Seq<VulkanPlacedEdgeBufferAllocationView>,
    pub bytes: nat,
}

/// No buffer yet.
pub open spec fn no_edge_buffers() -> EdgeBuffersView {
    EdgeBuffersView {
        local: Seq::empty(),
        incoming: Seq::empty(),
        outgoing: Seq::empty(),
        bytes: 0,
    }
}

/// Describes the buffer of a local edge.
#[verifier::opaque]
pub open spec fn local_described(
    plan: VulkanPlacedEdgeIoPlanView,
    device_id: Seq<char>,
    done: EdgeBuffersView,
    edge: VulkanPlacedLocalEdgeView,
) -> Result<EdgeBuffersView, Seq<char>> {
    match edge.byte_capacity {
        None => Err(
            plan.device_id + " local edge "@ + text::decimal(edge.edge_index as nat)
                + " has unknown byte capacity"@,
        ),
        Some(bytes) => if done.bytes + bytes > usize::MAX {
            Err(device::capacity_overflow("placed local edge buffer allocation"@))
        } else {
            Ok(
                EdgeBuffersView {
                    local: done.local.push(
                        VulkanPlacedLocalEdgeBufferAllocationView {
                            edge,
                            byte_capacity: bytes,
                            buffer: device::device_buffer(
                                VulkanResidentBufferName::LocalSignal(edge.edge_index),
                                device_id,
                                bytes,
                            ),
                        },
                    ),
                    bytes: (done.bytes + bytes) as nat,
                    ..done
                },
            )
        },
    }
}

/// One step over the local edges.
pub open spec fn local_buffer_step(
    plan: VulkanPlacedEdgeIoPlanView,
    device_id: Seq<char>,
) -> spec_fn(EdgeBuffersView, VulkanPlacedLocalEdgeView) -> Result<EdgeBuffersView, Seq<char>> {
    |done: EdgeBuffersView, edge: VulkanPlacedLocalEdgeView|
        local_described(plan, device_id, done, edge)
}

/// The name of an endpoint's own buffer.
pub open spec fn endpoint_name(direction: VulkanPlacedEdgeDirection, edge_index: usize) -> VulkanResidentBufferName {
    match direction {
        VulkanPlacedEdgeDirection::Incoming => VulkanResidentBufferName::IncomingSignal(edge_index),
        VulkanPlacedEdgeDirection::Outgoing => VulkanResidentBufferName::OutgoingSignal(edge_index),
    }
}

fn name_of_endpoint(direction: VulkanPlacedEdgeDirection, edge_index: usize) -> (r:
    VulkanResidentBufferName)
    ensures
        r == endpoint_name(direction, edge_index),
{
    match direction {
        VulkanPlacedEdgeDirection::Incoming => VulkanResidentBufferName::IncomingSignal(edge_index),
        VulkanPlacedEdgeDirection::Outgoing => VulkanResidentBufferName::OutgoingSignal(edge_index),
    }
}

/// The buffer of an endpoint: its override, or a mapped one of its own.
pub open spec fn endpoint_buffer(
    overrides: Seq<VulkanPlacedEdgeEndpointBufferOverrideView>,
    device_id: Seq<char>,
    endpoint: VulkanPlacedEdgeEndpointView,
    bytes: usize,
) -> VulkanResidentBufferView {
    match sequence::find_first(
        overrides,
        override_matcher(endpoint.direction, endpoint.edge_index),
    ) {
        Some(stand_in) => stand_in.buffer,
        None => device::mapped_buffer(
            endpoint_name(endpoint.direction, endpoint.edge_index),
            device_id,
            bytes,
        ),
    }
}

/// Describes the buffer of an endpoint.
#[verifier::opaque]
pub open spec fn endpoint_described(
    plan: VulkanPlacedEdgeIoPlanView,
    device_id: Seq<char>,
    overrides: Seq<VulkanPlacedEdgeEndpointBufferOverrideView>,
    done: EdgeBuffersView,
    endpoint: VulkanPlacedEdgeEndpointView,
) -> Result<EdgeBuffersView, Seq<char>> {
    match endpoint.byte_capacity {
        None => Err(unknown_capacity(plan.device_id, endpoint)),
        Some(bytes) => if done.bytes + bytes > usize::MAX {
            Err(device::capacity_overflow("placed edge endpoint buffer allocation"@))
        } else {
            let allocation = VulkanPlacedEdgeBufferAllocationView {
                endpoint,
                byte_capacity: bytes,
                buffer: endpoint_buffer(overrides, device_id, endpoint, bytes),
            };
            Ok(
                match endpoint.direction {
                    VulkanPlacedEdgeDirection::Incoming => EdgeBuffersView {
                        incoming: done.incoming.push(allocation),
                        bytes: (done.bytes + bytes) as nat,
                        ..done
                    },
                    VulkanPlacedEdgeDirection::Outgoing => EdgeBuffersView {
                        outgoing: done.outgoing.push(allocation),
                        bytes: (done.bytes + bytes) as nat,
                        ..done
                    },
                },
            )
        },
    }
}

/// One step over the endpoints.
pub open spec fn endpoint_buffer_step(
    plan: VulkanPlacedEdgeIoPlanView,
    device_id: Seq<char>,
    overrides: Seq<VulkanPlacedEdgeEndpointBufferOverrideView>,
) -> spec_fn(EdgeBuffersView, VulkanPlacedEdgeEndpointView) -> Result<EdgeBuffersView, Seq<char>> {
    |done: EdgeBuffersView, endpoint: VulkanPlacedEdgeEndpointView|
        endpoint_described(plan, device_id, overrides, done, endpoint)
}

/// The buffers of an edge plan on a device.
pub open spec fn edge_io_buffers(
    plan: VulkanPlacedEdgeIoPlanView,
    device_id: Seq<char>,
    overrides: Seq<VulkanPlacedEdgeEndpointBufferOverrideView>,
) -> Result<VulkanPlacedEdgeIoBuffersView, Seq<char>> {
    match sequence::try_fold(
        overrides,
        Seq::<VulkanPlacedEdgeEndpointBufferOverrideView>::empty(),
        override_step(plan, device_id),
    ) {
        Err(e) => Err(e),
        Ok(accepted) => match sequence::try_fold(
            plan.local_edges,
            no_edge_buffers(),
            local_buffer_step(plan, device_id),
        ) {
            Err(e) => Err(e),
            Ok(local) => match sequence::try_fold(
                plan.endpoints,
                local,
                endpoint_buffer_step(plan, device_id, overrides),
            ) {
                Err(e) => Err(e),
                Ok(done) => Ok(
                    VulkanPlacedEdgeIoBuffersView {
                        plan,
                        local_buffers: done.local,
                        incoming_buffers: done.incoming,
                        outgoing_buffers: done.outgoing,
                        total_byte_capacity: done.bytes as usize,
                    },
                ),
            },
        },
    }
}

#[verifier::loop_isolation(false)]
fn find_override<'a>(
    overrides: &'a [VulkanPlacedEdgeEndpointBufferOverride],
    count: usize,
    direction: VulkanPlacedEdgeDirection,
    edge_index: usize,
) -> (r: Option<&'a VulkanPlacedEdgeEndpointBufferOverride>)
    requires
        count <= overrides@.len(),
    ensures
        r.deep_view() == sequence::find_first(
            overrides.deep_view().take(count as int),
            override_matcher(direction, edge_index),
        ),
{
    let ghost all = overrides.deep_view().take(count as int);
    let ghost p = override_matcher(direction, edge_index);
    let mut i: usize = 0;
    while i < count
        invariant
            i <= count,
            forall|j: int| 0 <= j < i ==> !p(#[trigger] all[j]),
        decreases count - i,
    {
        assert(all[i as int] == overrides@[i as int]@);
        if overrides[i].direction == direction && overrides[i].edge_index == edge_index {
            proof {
                sequence::lemma_find_first_at(all, p, i as int);
            }
            return Some(&overrides[i]);
        }
        i += 1;
    }
    proof {
        sequence::lemma_find_first_none(all, p);
    }
    None
}

impl VulkanPlacedEdgeIoPlan {
    fn accept_override(
        &self,
        device: &VulkanComputeDevice,
        overrides: &[VulkanPlacedEdgeEndpointBufferOverride],
        i: usize,
    ) -> (r: Result<(), VulkanError>)
        requires
            i < overrides@.len(),
        ensures
            (match r {
                Ok(_) => Ok::<Seq<VulkanPlacedEdgeEndpointBufferOverrideView>, Seq<char>>(
                    overrides.deep_view().take(i + 1),
                ),
                Err(e) => Err(e@),
            }) == override_accepted(
                self@,
                device@.device_id,
                overrides.deep_view().take(i as int),
                overrides.deep_view()[i as int],
            ),
    {
        reveal(override_accepted);
        let stand_in: &VulkanPlacedEdgeEndpointBufferOverride = &overrides[i];
        assert(overrides.deep_view()[i as int] == stand_in@);
        assert(overrides.deep_view().take(i + 1) =~= overrides.deep_view().take(i as int).push(
            stand_in@,
        ));
        if find_override(overrides, i, stand_in.direction, stand_in.edge_index).is_some() {
            return Err(
                VulkanError(
                    Message::new("edge endpoint buffer override repeats ").text(
                        name_of_direction(stand_in.direction),
                    ).text(" edge ").number(stand_in.edge_index).text(" on ").quoted(
                        self.device_id.as_str(),
                    ).done(),
                ),
            );
        }
        if stand_in.buffer.device_id != device.device_id {
            return Err(
                VulkanError(
                    Message::new("edge endpoint buffer override for edge ").number(
                        stand_in.edge_index,
                    ).text(" on ").quoted(self.device_id.as_str()).text(
                        " belongs to a different Vulkan logical device",
                    ).done(),
                ),
            );
        }
        let endpoint: &VulkanPlacedEdgeEndpoint = match self.endpoint(
            stand_in.direction,
            stand_in.edge_index,
        ) {
            Some(endpoint) => endpoint,
            None => return Err(
                VulkanError(
                    Message::new("edge endpoint buffer override does not address ").text(
                        name_of_direction(stand_in.direction),
                    ).text(" edge ").number(stand_in.edge_index).text(" on ").quoted(
                        self.device_id.as_str(),
                    ).done(),
                ),
            ),
        };
        match endpoint.byte_capacity {
            None => Err(self.unknown_endpoint_capacity(endpoint)),
            Some(needed) => {
                if stand_in.buffer.byte_capacity < needed {
                    return Err(
                        VulkanError(
                            Message::new("edge endpoint buffer override for edge ").number(
                                stand_in.edge_index,
                            ).text(" on ").quoted(self.device_id.as_str()).text(" has ").number(
                                stand_in.buffer.byte_capacity,
                            ).text(" bytes, needs ").number(needed).done(),
                        ),
                    );
                }
                Ok(())
            },
        }
    }

    fn unknown_endpoint_capacity(&self, endpoint: &VulkanPlacedEdgeEndpoint) -> (r: VulkanError)
        ensures
            r@ == unknown_capacity(self@.device_id, endpoint@),
    {
        VulkanError(
            Message::new(self.device_id.as_str()).text(" endpoint ").text(
                endpoint.endpoint_id.as_str(),
            ).text(" for edge ").number(endpoint.edge_index).text(
                " has unknown byte capacity",
            ).done(),
        )
    }

    #[verifier::loop_isolation(false)]
    fn accept_overrides(
        &self,
        device: &VulkanComputeDevice,
        overrides: &[VulkanPlacedEdgeEndpointBufferOverride],
    ) -> (r: Result<(), VulkanError>)
        ensures
            (match r {
                Ok(_) => Ok::<Seq<VulkanPlacedEdgeEndpointBufferOverrideView>, Seq<char>>(
                    overrides.deep_view(),
                ),
                Err(e) => Err(e@),
            }) == sequence::try_fold(
                overrides.deep_view(),
                Seq::<VulkanPlacedEdgeEndpointBufferOverrideView>::empty(),
                override_step(self@, device@.device_id),
            ),
    {
        let ghost all = overrides.deep_view();
        let ghost init = Seq::<VulkanPlacedEdgeEndpointBufferOverrideView>::empty();
        let ghost step = override_step(self@, device@.device_id);
        let mut i: usize = 0;
        assert(all.take(0) =~= Seq::empty());
        while i < overrides.len()
            invariant
                i <= overrides.len(),
                sequence::try_fold(all.take(i as int), init, step) == Ok::<
                    Seq<VulkanPlacedEdgeEndpointBufferOverrideView>,
                    Seq<char>,
                >(all.take(i as int)),
            decreases overrides.len() - i,
        {
            proof {
                sequence::lemma_try_fold_step(all, init, step, i as int);
                assert(all[i as int] == overrides@[i as int]@);
            }
            match self.accept_override(device, overrides, i) {
                Ok(_) => {},
                Err(e) => {
                    proof {
                        sequence::lemma_try_fold_error(all, init, step, i + 1);
                    }
                    return Err(e);
                },
            }
            i += 1;
        }
        assert(all.take(all.len() as int) =~= all);
        Ok(())
    }

    /// Describes the buffers of the plan on a device.
    pub fn allocate_buffers(&self, device: &VulkanComputeDevice) -> (r: Result<
        VulkanPlacedEdgeIoBuffers,
        VulkanError,
    >)
        ensures
            sequence::outcome(r) == edge_io_buffers(self@, device@.device_id, Seq::empty()),
    {
        let none: Vec<VulkanPlacedEdgeEndpointBufferOverride> = Vec::new();
        assert(none.deep_view() =~= Seq::empty());
        self.allocate_buffers_with_endpoint_overrides(device, none.as_slice())
    }

    /// Describes the buffers of the plan on a device, with given buffers for some endpoints.
    #[verifier::loop_isolation(false)]
    pub fn allocate_buffers_with_endpoint_overrides(
        &self,
        device: &VulkanComputeDevice,
        endpoint_overrides: &[VulkanPlacedEdgeEndpointBufferOverride],
    ) -> (r: Result<VulkanPlacedEdgeIoBuffers, VulkanError>)
        ensures
            sequence::outcome(r) == edge_io_buffers(
                self@,
                device@.device_id,
                endpoint_overrides.deep_view(),
            ),
    {
        match self.accept_overrides(device, endpoint_overrides) {
            Ok(_) => {},
            Err(e) => return Err(e),
        }
        let ghost overrides = endpoint_overrides.deep_view();
        let ghost edges = self@.local_edges;
        let ghost edge_step = local_buffer_step(self@, device@.device_id);
        let mut local_buffers: Vec<VulkanPlacedLocalEdgeBufferAllocation> = Vec::new();
        let mut incoming_buffers: Vec<VulkanPlacedEdgeBufferAllocation> = Vec::new();
        let mut outgoing_buffers: Vec<VulkanPlacedEdgeBufferAllocation> = Vec::new();
        let mut total: usize = 0;
        let mut i: usize = 0;
        assert(local_buffers.deep_view() =~= Seq::empty());
        assert(incoming_buffers.deep_view() =~= Seq::empty());
        assert(outgoing_buffers.deep_view() =~= Seq::empty());
        assert(edges.take(0) =~= Seq::empty());
        while i < self.local_edges.len()
            invariant
                i <= self.local_edges.len(),
                incoming_buffers.deep_view() == Seq::<VulkanPlacedEdgeBufferAllocationView>::empty(),
                outgoing_buffers.deep_view() == Seq::<VulkanPlacedEdgeBufferAllocationView>::empty(),
                sequence::try_fold(edges.take(i as int), no_edge_buffers(), edge_step) == Ok::<
                    EdgeBuffersView,
                    Seq<char>,
                >(
                    EdgeBuffersView {
                        local: local_buffers.deep_view(),
                        incoming: incoming_buffers.deep_view(),
                        outgoing: outgoing_buffers.deep_view(),
                        bytes: total as nat,
                    },
                ),
            decreases self.local_edges.len() - i,
        {
            let edge: &VulkanPlacedLocalEdge = &self.local_edges[i];
            proof {
                reveal(local_described);
                sequence::lemma_try_fold_step(edges, no_edge_buffers(), edge_step, i as int);
                assert(edges[i as int] == edge@);
                if sequence::try_fold(edges.take(i + 1), no_edge_buffers(), edge_step) is Err {
                    sequence::lemma_try_fold_error(edges, no_edge_buffers(), edge_step, i + 1);
                }
            }
            let byte_capacity: usize = match edge.byte_capacity {
                Some(bytes) => bytes,
                None => return Err(
                    VulkanError(
                        Message::new(self.device_id.as_str()).text(" local edge ").number(
                            edge.edge_index,
                        ).text(" has unknown byte capacity").done(),
                    ),
                ),
            };
            total = match device::checked_add_bytes(
                total,
                byte_capacity,
                "placed local edge buffer allocation",
            ) {
                Ok(total) => total,
                Err(e) => return Err(e),
            };
            let ghost before = local_buffers.deep_view();
            let allocation = VulkanPlacedLocalEdgeBufferAllocation {
                edge: edge.clone(),
                byte_capacity,
                buffer: VulkanResidentBuffer::in_device_memory(
                    VulkanResidentBufferName::LocalSignal(edge.edge_index),
                    device.device_id.as_str(),
                    byte_capacity,
                ),
            };
            let ghost added = allocation@;
            local_buffers.push(allocation);
            assert(local_buffers.deep_view() =~= before.push(added));
            i += 1;
        }
        assert(edges.take(edges.len() as int) =~= edges);
        let ghost local = EdgeBuffersView {
            local: local_buffers.deep_view(),
            incoming: Seq::empty(),
            outgoing: Seq::empty(),
            bytes: total as nat,
        };
        let ghost ends = self@.endpoints;
        let ghost end_step = endpoint_buffer_step(self@, device@.device_id, overrides);
        let mut k: usize = 0;
        assert(ends.take(0) =~= Seq::empty());
        while k < self.endpoints.len()
            invariant
                k <= self.endpoints.len(),
                sequence::try_fold(ends.take(k as int), local, end_step) == Ok::<
                    EdgeBuffersView,
                    Seq<char>,
                >(
                    EdgeBuffersView {
                        local: local_buffers.deep_view(),
                        incoming: incoming_buffers.deep_view(),
                        outgoing: outgoing_buffers.deep_view(),
                        bytes: total as nat,
                    },
                ),
            decreases self.endpoints.len() - k,
        {
            let endpoint: &VulkanPlacedEdgeEndpoint = &self.endpoints[k];
            proof {
                reveal(endpoint_described);
                sequence::lemma_try_fold_step(ends, local, end_step, k as int);
                assert(ends[k as int] == endpoint@);
                if sequence::try_fold(ends.take(k + 1), local, end_step) is Err {
                    sequence::lemma_try_fold_error(ends, local, end_step, k + 1);
                }
                assert(overrides.take(overrides.len() as int) =~= overrides);
            }
            let byte_capacity: usize = match endpoint.byte_capacity {
                Some(bytes) => bytes,
                None => return Err(self.unknown_endpoint_capacity(endpoint)),
            };
            total = match device::checked_add_bytes(
                total,
                byte_capacity,
                "placed edge endpoint buffer allocation",
            ) {
                Ok(total) => total,
                Err(e) => return Err(e),
            };
            let buffer: VulkanResidentBuffer = match find_override(
                endpoint_overrides,
                endpoint_overrides.len(),
                endpoint.direction,
                endpoint.edge_index,
            ) {
                Some(stand_in) => stand_in.buffer.clone(),
                None => VulkanResidentBuffer::persistently_mapped(
                    name_of_endpoint(endpoint.direction, endpoint.edge_index),
                    device.device_id.as_str(),
                    byte_capacity,
                ),
            };
            let allocation = VulkanPlacedEdgeBufferAllocation {
                endpoint: endpoint.clone(),
                byte_capacity,
                buffer,
            };
            let ghost added = allocation@;
            let ghost incoming_before = incoming_buffers.deep_view();
            let ghost outgoing_before = outgoing_buffers.deep_view();
            match endpoint.direction {
                VulkanPlacedEdgeDirection::Incoming => {
                    incoming_buffers.push(allocation);
                    assert(incoming_buffers.deep_view() =~= incoming_before.push(added));
                },
                VulkanPlacedEdgeDirection::Outgoing => {
                    outgoing_buffers.push(allocation);
                    assert(outgoing_buffers.deep_view() =~= outgoing_before.push(added));
                },
            }
            k += 1;
        }
        assert(ends.take(ends.len() as int) =~= ends);
        Ok(
            VulkanPlacedEdgeIoBuffers {
                plan: self.clone(),
                local_buffers,
                incoming_buffers,
                outgoing_buffers,
                total_byte_capacity: total,
            },
        )
    }
}

/// A local edge stays on its device and keeps what its placement says of its ends and its signal. It
/// has as many bytes as its elements take, where it is known what an element takes.
pub proof fn local_edges_keep_their_ends(
    buffer_index: int,
    device_id: Seq<char>,
    placement: ComponentEdgePlacementView,
    element_bytes: Option<usize>,
)
    requires
        local_edge(buffer_index, device_id, placement, element_bytes) is Ok,
        0 <= buffer_index <= usize::MAX,
    ensures
        ({
            let edge = local_edge(buffer_index, device_id, placement, element_bytes)->Ok_0;
            &&& placement.transport is LocalBuffer
            &&& placement.source_device_id == device_id
            &&& placement.destination_device_id == device_id
            &&& edge.device_id == device_id
            &&& edge.buffer_index == buffer_index
            &&& edge.edge_index == placement.edge_index
            &&& edge.signal == placement.signal
            &&& edge.shape == placement.shape
            &&& edge.transport == placement.transport
            &&& edge.source_component_id == placement.source_component_id
            &&& edge.source_port_id == placement.source_port_id
            &&& edge.source_component_port == placement.source_component_port
            &&& edge.destination_component_id == placement.destination_component_id
            &&& edge.destination_port_id == placement.destination_port_id
            &&& edge.destination_component_port == placement.destination_component_port
            &&& edge.element_count > 0
            &&& arithmetic::checked_product(1, placement.shape) == Some(edge.element_count as nat)
            &&& element_bytes is None ==> edge.byte_capacity is None
            &&& element_bytes matches Some(bytes) ==> edge.byte_capacity matches Some(capacity)
                && capacity == edge.element_count * bytes
        }),
{
    reveal(local_edge);
    assert(arithmetic::checked_product(1, placement.shape) is Some);
    lemma_elements_fit(placement.shape);
}

proof fn lemma_elements_fit(shape: Seq<usize>)
    requires
        arithmetic::checked_product(1, shape) is Some,
    ensures
        arithmetic::checked_product(1, shape)->Some_0 <= usize::MAX,
{
}

/// The two ends of an edge between devices meet. The outgoing end lies on the device of the edge's
/// source and the incoming end on that of its destination, each with its own component and port; what
/// is remote to one is local to the other. Both carry the same signal in the same number of bytes,
/// and their packets have the same key.
pub proof fn both_ends_of_edges_meet(
    outgoing_index: int,
    incoming_index: int,
    from_device_id: Seq<char>,
    to_device_id: Seq<char>,
    placement: ComponentEdgePlacementView,
    element_bytes: Option<usize>,
)
    requires
        edge_endpoint(
            outgoing_index,
            VulkanPlacedEdgeDirection::Outgoing,
            from_device_id,
            placement,
            element_bytes,
        ) is Ok,
        edge_endpoint(
            incoming_index,
            VulkanPlacedEdgeDirection::Incoming,
            to_device_id,
            placement,
            element_bytes,
        ) is Ok,
        0 <= outgoing_index <= usize::MAX,
        0 <= incoming_index <= usize::MAX,
    ensures
        ({
            let outgoing = edge_endpoint(
                outgoing_index,
                VulkanPlacedEdgeDirection::Outgoing,
                from_device_id,
                placement,
                element_bytes,
            )->Ok_0;
            let incoming = edge_endpoint(
                incoming_index,
                VulkanPlacedEdgeDirection::Incoming,
                to_device_id,
                placement,
                element_bytes,
            )->Ok_0;
            &&& placement.transport == (EdgeTransportView::CrossDevice {
                from_device_id,
                to_device_id,
            })
            &&& outgoing.direction is Outgoing
            &&& incoming.direction is Incoming
            &&& outgoing.endpoint_index == outgoing_index
            &&& incoming.endpoint_index == incoming_index
            &&& outgoing.edge_index == placement.edge_index
            &&& outgoing.signal == placement.signal
            &&& outgoing.shape == placement.shape
            &&& outgoing.local_device_id == from_device_id
            &&& outgoing.local_component_id == placement.source_component_id
            &&& outgoing.local_port_id == placement.source_port_id
            &&& outgoing.local_component_port == placement.source_component_port
            &&& incoming.local_device_id == to_device_id
            &&& incoming.local_component_id == placement.destination_component_id
            &&& incoming.local_port_id == placement.destination_port_id
            &&& incoming.local_component_port == placement.destination_component_port
            &&& outgoing.remote_device_id == incoming.local_device_id
            &&& outgoing.remote_component_id == incoming.local_component_id
            &&& outgoing.remote_port_id == incoming.local_port_id
            &&& outgoing.remote_component_port == incoming.local_component_port
            &&& incoming.remote_device_id == outgoing.local_device_id
            &&& incoming.remote_component_id == outgoing.local_component_id
            &&& incoming.remote_port_id == outgoing.local_port_id
            &&& incoming.remote_component_port == outgoing.local_component_port
            &&& incoming.edge_index == outgoing.edge_index
            &&& incoming.signal == outgoing.signal
            &&& incoming.shape == outgoing.shape
            &&& incoming.transport == outgoing.transport
            &&& incoming.element_count == outgoing.element_count
            &&& incoming.byte_capacity == outgoing.byte_capacity
            &&& arithmetic::checked_product(1, placement.shape) == Some(
                outgoing.element_count as nat,
            )
            &&& element_bytes matches Some(bytes) ==> outgoing.byte_capacity matches Some(capacity)
                && capacity == outgoing.element_count * bytes
            &&& element_bytes is None ==> outgoing.byte_capacity is None
            &&& buffers::outgoing_key(outgoing) == buffers::incoming_key(incoming)
            &&& buffers::outgoing_key(outgoing).edge_index == placement.edge_index
            &&& buffers::outgoing_key(outgoing).from_device_id == from_device_id
            &&& buffers::outgoing_key(outgoing).to_device_id == to_device_id
        }),
{
    reveal(edge_endpoint);
    lemma_elements_fit(placement.shape);
}

proof fn lemma_local_edges_planned(
    placements: Seq<ComponentEdgePlacementView>,
    device_id: Seq<char>,
    element_bytes: Option<usize>,
    i: int,
)
    requires
        sequence::try_fold(
            placements,
            Seq::<VulkanPlacedLocalEdgeView>::empty(),
            local_step(device_id, element_bytes),
        ) is Ok,
    ensures
        ({
            let done = sequence::try_fold(
                placements,
                Seq::<VulkanPlacedLocalEdgeView>::empty(),
                local_step(device_id, element_bytes),
            )->Ok_0;
            &&& done.len() == placements.len()
            &&& 0 <= i < placements.len() ==> local_edge(
                i,
                device_id,
                placements[i],
                element_bytes,
            ) == Ok::<VulkanPlacedLocalEdgeView, Seq<char>>(done[i])
        }),
    decreases placements.len(),
{
    if placements.len() > 0 {
        lemma_local_edges_planned(placements.drop_last(), device_id, element_bytes, i);
    }
}

proof fn lemma_endpoints_planned(
    given: Seq<VulkanPlacedEdgeEndpointView>,
    placements: Seq<ComponentEdgePlacementView>,
    direction: VulkanPlacedEdgeDirection,
    device_id: Seq<char>,
    element_bytes: Option<usize>,
    i: int,
)
    requires
        sequence::try_fold(
            placements,
            given,
            endpoint_step(direction, device_id, element_bytes),
        ) is Ok,
    ensures
        ({
            let done = sequence::try_fold(
                placements,
                given,
                endpoint_step(direction, device_id, element_bytes),
            )->Ok_0;
            &&& done.len() == given.len() + placements.len()
            &&& 0 <= i < given.len() ==> done[i] == given[i]
            &&& 0 <= i < placements.len() ==> edge_endpoint(
                given.len() + i,
                direction,
                device_id,
                placements[i],
                element_bytes,
            ) == Ok::<VulkanPlacedEdgeEndpointView, Seq<char>>(done[given.len() + i])
        }),
    decreases placements.len(),
{
    if placements.len() > 0 {
        lemma_endpoints_planned(
            given,
            placements.drop_last(),
            direction,
            device_id,
            element_bytes,
            i,
        );
    }
}

/// The bytes of an edge, as far as they are known.
pub open spec fn known_bytes() -> spec_fn((usize, Option<usize>)) -> nat {
    |capacity: (usize, Option<usize>)|
        match capacity.1 {
            Some(bytes) => bytes as nat,
            None => 0,
        }
}

proof fn lemma_capacities_add_up(capacities: Seq<(usize, Option<usize>)>)
    requires
        sequence::try_fold(capacities, Some(0usize), capacity_step()) is Ok,
    ensures
        ({
            let total = sequence::try_fold(capacities, Some(0usize), capacity_step())->Ok_0;
            &&& total is Some <==> unresolved_edges(capacities).len() == 0
            &&& total matches Some(bytes) ==> bytes == sequence::total(capacities, known_bytes())
        }),
    decreases capacities.len(),
{
    if capacities.len() > 0 {
        lemma_capacities_add_up(capacities.drop_last());
    }
}

/// A device plans its edges in the given order, the incoming ends before the outgoing ones. It counts
/// each sort by itself, and knows how many bytes all of them take exactly where it knows that of each.
pub proof fn edges_are_planned_in_order(
    placed: VulkanPlacedStreamCircuitResidentPlanView,
    i: int,
)
    requires
        edge_io_plan(placed) is Ok,
        0 <= i,
        placed.local_edges.len() + placed.incoming_edges.len() + placed.outgoing_edges.len()
            <= usize::MAX,
    ensures
        ({
            let plan = edge_io_plan(placed)->Ok_0;
            let incoming = placed.incoming_edges.len();
            let capacities = edge_capacities(plan.local_edges, plan.endpoints);
            &&& plan.device_id == placed.device_id
            &&& plan.signal_element_bytes == placed.signal_element_bytes
            &&& plan.local_edges.len() == placed.local_edges.len()
            &&& plan.endpoints.len() == incoming + placed.outgoing_edges.len()
            &&& plan.local_edge_count == placed.local_edges.len()
            &&& plan.incoming_endpoint_count == incoming
            &&& plan.outgoing_endpoint_count == placed.outgoing_edges.len()
            &&& plan.total_endpoint_count == plan.incoming_endpoint_count
                + plan.outgoing_endpoint_count
            &&& plan.total_buffer_count == plan.local_edge_count + plan.total_endpoint_count
            &&& i < placed.local_edges.len() ==> {
                let placement = placed.local_edges[i];
                &&& plan.local_edges[i].edge_index == placement.edge_index
                &&& plan.local_edges[i].buffer_index == i
                &&& plan.local_edges[i].device_id == placed.device_id
            }
            &&& i < incoming ==> {
                let placement = placed.incoming_edges[i];
                &&& plan.endpoints[i].edge_index == placement.edge_index
                &&& plan.endpoints[i].endpoint_index == i
                &&& plan.endpoints[i].direction is Incoming
                &&& plan.endpoints[i].local_device_id == placed.device_id
            }
            &&& i < placed.outgoing_edges.len() ==> {
                let placement = placed.outgoing_edges[i];
                &&& plan.endpoints[incoming + i].edge_index == placement.edge_index
                &&& plan.endpoints[incoming + i].endpoint_index == incoming + i
                &&& plan.endpoints[incoming + i].direction is Outgoing
                &&& plan.endpoints[incoming + i].local_device_id == placed.device_id
            }
            &&& plan.total_byte_capacity is Some <==> plan.unresolved_byte_edges.len() == 0
            &&& plan.total_byte_capacity matches Some(bytes) ==> bytes == sequence::total(
                capacities,
                known_bytes(),
            )
        }),
{
    reveal(local_edge);
    reveal(edge_endpoint);
    let bytes = placed.signal_element_bytes;
    let plan = edge_io_plan(placed)->Ok_0;
    let none = Seq::<VulkanPlacedEdgeEndpointView>::empty();
    let incoming = sequence::try_fold(
        placed.incoming_edges,
        none,
        endpoint_step(VulkanPlacedEdgeDirection::Incoming, placed.device_id, bytes),
    )->Ok_0;
    lemma_local_edges_planned(placed.local_edges, placed.device_id, bytes, i);
    lemma_endpoints_planned(
        none,
        placed.incoming_edges,
        VulkanPlacedEdgeDirection::Incoming,
        placed.device_id,
        bytes,
        i,
    );
    lemma_endpoints_planned(
        incoming,
        placed.outgoing_edges,
        VulkanPlacedEdgeDirection::Outgoing,
        placed.device_id,
        bytes,
        i,
    );
    lemma_capacities_add_up(edge_capacities(plan.local_edges, plan.endpoints));
}

proof fn lemma_local_buffers_made(
    plan: VulkanPlacedEdgeIoPlanView,
    device_id: Seq<char>,
    edges: Seq<VulkanPlacedLocalEdgeView>,
    i: int,
)
    requires
        sequence::try_fold(edges, no_edge_buffers(), local_buffer_step(plan, device_id)) is Ok,
    ensures
        ({
            let done = sequence::try_fold(
                edges,
                no_edge_buffers(),
                local_buffer_step(plan, device_id),
            )->Ok_0;
            &&& done.local.len() == edges.len()
            &&& done.incoming.len() == 0
            &&& done.outgoing.len() == 0
            &&& 0 <= i < edges.len() ==> {
                &&& done.local[i].edge == edges[i]
                &&& edges[i].byte_capacity == Some(done.local[i].byte_capacity)
                &&& done.local[i].buffer.device_id == device_id
                &&& done.local[i].buffer.byte_capacity == done.local[i].byte_capacity
                &&& done.local[i].buffer.name == VulkanResidentBufferName::LocalSignal(
                    edges[i].edge_index,
                )
            }
        }),
    decreases edges.len(),
{
    if edges.len() > 0 {
        let front = edges.drop_last();
        lemma_local_buffers_made(plan, device_id, front, i);
        reveal(local_described);
        let step = local_buffer_step(plan, device_id);
        let before = sequence::try_fold(front, no_edge_buffers(), step)->Ok_0;
        let after = sequence::try_fold(edges, no_edge_buffers(), step)->Ok_0;
        assert(local_described(plan, device_id, before, edges.last()) == Ok::<
            EdgeBuffersView,
            Seq<char>,
        >(after));
    }
}

/// Whether an endpoint goes this way.
pub open spec fn goes(direction: VulkanPlacedEdgeDirection) -> spec_fn(
    VulkanPlacedEdgeEndpointView,
) -> bool {
    |endpoint: VulkanPlacedEdgeEndpointView| endpoint.direction == direction
}

/// Whether a buffer is that of an endpoint: it has the endpoint's bytes, and it is the first one that
/// was given for the endpoint's edge and direction, or a new one of the endpoint's own that stays
/// mapped.
pub open spec fn is_buffer_of(
    made: VulkanPlacedEdgeBufferAllocationView,
    endpoint: VulkanPlacedEdgeEndpointView,
    device_id: Seq<char>,
    overrides: Seq<VulkanPlacedEdgeEndpointBufferOverrideView>,
) -> bool {
    &&& made.endpoint == endpoint
    &&& endpoint.byte_capacity == Some(made.byte_capacity)
    &&& {
        ||| exists|k: int|
            0 <= k < overrides.len() && {
                let given = #[trigger] overrides[k];
                &&& given.direction == endpoint.direction
                &&& given.edge_index == endpoint.edge_index
                &&& made.buffer == given.buffer
            }
        ||| {
            &&& forall|k: int|
                0 <= k < overrides.len() ==> !((#[trigger] overrides[k]).direction
                    == endpoint.direction && overrides[k].edge_index == endpoint.edge_index)
            &&& made.buffer.device_id == device_id
            &&& made.buffer.byte_capacity == made.byte_capacity
            &&& made.buffer.persistently_mapped
            &&& endpoint.direction is Incoming ==> made.buffer.name
                == VulkanResidentBufferName::IncomingSignal(endpoint.edge_index)
            &&& endpoint.direction is Outgoing ==> made.buffer.name
                == VulkanResidentBufferName::OutgoingSignal(endpoint.edge_index)
        }
    }
}

proof fn lemma_endpoint_buffers_made(
    plan: VulkanPlacedEdgeIoPlanView,
    device_id: Seq<char>,
    overrides: Seq<VulkanPlacedEdgeEndpointBufferOverrideView>,
    given: EdgeBuffersView,
    endpoints: Seq<VulkanPlacedEdgeEndpointView>,
    i: int,
)
    requires
        given.incoming.len() == 0,
        given.outgoing.len() == 0,
        sequence::try_fold(
            endpoints,
            given,
            endpoint_buffer_step(plan, device_id, overrides),
        ) is Ok,
    ensures
        ({
            let done = sequence::try_fold(
                endpoints,
                given,
                endpoint_buffer_step(plan, device_id, overrides),
            )->Ok_0;
            let into = goes(VulkanPlacedEdgeDirection::Incoming);
            let out = goes(VulkanPlacedEdgeDirection::Outgoing);
            &&& done.local == given.local
            &&& done.incoming.len() == sequence::count(endpoints, into)
            &&& done.outgoing.len() == sequence::count(endpoints, out)
            &&& 0 <= i < endpoints.len() && endpoints[i].direction is Incoming ==> {
                let at = sequence::count(endpoints.take(i), into) as int;
                &&& at < done.incoming.len()
                &&& is_buffer_of(done.incoming[at], endpoints[i], device_id, overrides)
            }
            &&& 0 <= i < endpoints.len() && endpoints[i].direction is Outgoing ==> {
                let at = sequence::count(endpoints.take(i), out) as int;
                &&& at < done.outgoing.len()
                &&& is_buffer_of(done.outgoing[at], endpoints[i], device_id, overrides)
            }
        }),
    decreases endpoints.len(),
{
    if endpoints.len() > 0 {
        let front = endpoints.drop_last();
        let last = endpoints.last();
        lemma_endpoint_buffers_made(plan, device_id, overrides, given, front, i);
        reveal(endpoint_described);
        let step = endpoint_buffer_step(plan, device_id, overrides);
        let before = sequence::try_fold(front, given, step)->Ok_0;
        let after = sequence::try_fold(endpoints, given, step)->Ok_0;
        assert(endpoint_described(plan, device_id, overrides, before, last) == Ok::<
            EdgeBuffersView,
            Seq<char>,
        >(after));
        if 0 <= i < front.len() {
            assert(front.take(i) =~= endpoints.take(i));
            assert(front[i] == endpoints[i]);
        } else if i == front.len() {
            assert(endpoints.take(i) =~= front);
            let p = override_matcher(last.direction, last.edge_index);
            if sequence::find_first(overrides, p) is Some {
                let k = sequence::lemma_find_first_some(overrides, p);
                assert(overrides[k].direction == last.direction);
            } else {
                sequence::lemma_find_none_all(overrides, p);
                assert forall|k: int| 0 <= k < overrides.len() implies !((
                #[trigger] overrides[k]).direction == last.direction && overrides[k].edge_index
                    == last.edge_index) by {
                    assert(!p(overrides[k]));
                }
            }
        }
    }
}

/// Every planned edge of a device has its buffer, in the planned order: a local edge one of its own on
/// the device, an incoming or an outgoing end the one that was given for it or one of its own.
pub proof fn every_edge_has_its_buffer(
    plan: VulkanPlacedEdgeIoPlanView,
    device_id: Seq<char>,
    overrides: Seq<VulkanPlacedEdgeEndpointBufferOverrideView>,
    i: int,
)
    requires
        edge_io_buffers(plan, device_id, overrides) is Ok,
        0 <= i,
    ensures
        ({
            let made = edge_io_buffers(plan, device_id, overrides)->Ok_0;
            let into = goes(VulkanPlacedEdgeDirection::Incoming);
            let out = goes(VulkanPlacedEdgeDirection::Outgoing);
            &&& made.plan == plan
            &&& made.local_buffers.len() == plan.local_edges.len()
            &&& made.incoming_buffers.len() == sequence::count(plan.endpoints, into)
            &&& made.outgoing_buffers.len() == sequence::count(plan.endpoints, out)
            &&& i < plan.local_edges.len() ==> {
                let local = made.local_buffers[i];
                &&& local.edge == plan.local_edges[i]
                &&& plan.local_edges[i].byte_capacity == Some(local.byte_capacity)
                &&& local.buffer.device_id == device_id
                &&& local.buffer.byte_capacity == local.byte_capacity
                &&& local.buffer.name == VulkanResidentBufferName::LocalSignal(
                    plan.local_edges[i].edge_index,
                )
            }
            &&& i < plan.endpoints.len() && plan.endpoints[i].direction is Incoming ==> {
                let at = sequence::count(plan.endpoints.take(i), into) as int;
                &&& at < made.incoming_buffers.len()
                &&& is_buffer_of(made.incoming_buffers[at], plan.endpoints[i], device_id, overrides)
            }
            &&& i < plan.endpoints.len() && plan.endpoints[i].direction is Outgoing ==> {
                let at = sequence::count(plan.endpoints.take(i), out) as int;
                &&& at < made.outgoing_buffers.len()
                &&& is_buffer_of(made.outgoing_buffers[at], plan.endpoints[i], device_id, overrides)
            }
        }),
{
    let local = sequence::try_fold(
        plan.local_edges,
        no_edge_buffers(),
        local_buffer_step(plan, device_id),
    )->Ok_0;
    lemma_local_buffers_made(plan, device_id, plan.local_edges, i);
    lemma_endpoint_buffers_made(plan, device_id, overrides, local, plan.endpoints, i);
}

/// An endpoint is found by its direction and its index: the first that has both, and none where
/// none has.
pub proof fn endpoints_are_found_by_direction(
    all: Seq<VulkanPlacedEdgeEndpointView>,
    direction: VulkanPlacedEdgeDirection,
    edge_index: usize,
    j: int,
)
    ensures
        match sequence::find_first(all, endpoint_matcher(direction, edge_index)) {
            Some(found) => exists|i: int|
                {
                    &&& 0 <= i < all.len()
                    &&& found == #[trigger] all[i]
                    &&& all[i].direction == direction
                    &&& all[i].edge_index == edge_index
                    &&& 0 <= j < i ==> !(all[j].direction == direction && all[j].edge_index == edge_index)
                },
            None => 0 <= j < all.len() ==> !(all[j].direction == direction && all[j].edge_index == edge_index),
        },
{
    let p = endpoint_matcher(direction, edge_index);
    if 0 <= j < all.len() {
        assert(p(all[j]) <==> all[j].direction == direction && all[j].edge_index == edge_index);
    }
    if sequence::find_first(all, p) is Some {
        let i = sequence::lemma_find_first_some(all, p);
        assert(p(all[i]));
        assert(sequence::find_first(all, p)->Some_0 == all[i]);
    } else {
        sequence::lemma_find_none_all(all, p);
    }
}

} // verus!
