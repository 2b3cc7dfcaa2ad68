//! The cable plan of one device: which cables it holds, and how large their buffers are.

use crate::arithmetic;
use crate::device::VulkanComputeDevice;
use crate::device::VulkanError;
use crate::device::VulkanResidentBuffer;
use crate::device::VulkanResidentBufferName;
use crate::device::VulkanResidentBufferView;
use crate::device;
use crate::cables::buffers::VulkanPlacedCableBufferAllocation;
use crate::cables::buffers::VulkanPlacedCableBufferAllocationView;
use crate::cables::buffers::VulkanPlacedCableDirection;
use crate::cables::buffers::VulkanPlacedCableEndpointBufferOverride;
use crate::cables::buffers::VulkanPlacedCableEndpointBufferOverrideView;
use crate::cables::buffers::VulkanPlacedCableIoBuffers;
use crate::cables::buffers::VulkanPlacedCableIoBuffersView;
use crate::cables::buffers::VulkanPlacedLocalCableBufferAllocation;
use crate::cables::buffers::VulkanPlacedLocalCableBufferAllocationView;
use crate::cables::buffers;
use crate::placement::ComponentEdgePlacement;
use crate::placement::ComponentEdgePlacementView;
use crate::placement::EdgeTransport;
use crate::placement::EdgeTransportView;
use crate::resident_plan::VULKAN_STREAM_CIRCUIT_BACKEND_ID;
use crate::resident_plan::VulkanPlacedStreamCircuitResidentPlan;
use crate::resident_plan::VulkanPlacedStreamCircuitResidentPlanView;
use crate::sequence;
use crate::text::Message;
use crate::text;
use vstd::prelude::*;

verus! {

/// Why a cable plan was refused.
#[derive(Debug, PartialEq, Eq)]
pub struct VulkanPlacedCableIoPlanError(pub String);

impl DeepView for VulkanPlacedCableIoPlanError {
    type V = Seq<char>;

    open spec fn deep_view(&self) -> Seq<char> {
        self.0.deep_view()
    }
}

impl View for VulkanPlacedCableIoPlanError {
    type V = Seq<char>;

    open spec fn view(&self) -> Seq<char> {
        self.deep_view()
    }
}

impl Clone for VulkanPlacedCableIoPlanError {
    fn clone(&self) -> (r: Self)
        ensures
            r@ == self@,
    {
        VulkanPlacedCableIoPlanError(self.0.clone())
    }
}

impl VulkanPlacedCableIoPlanError {
    /// The message.
    pub fn to_string(&self) -> (r: String)
        ensures
            r@ == self@,
    {
        self.0.clone()
    }
}

/// A cable with both of its ends on one device.
#[derive(Debug, PartialEq, Eq)]
pub struct VulkanPlacedLocalCable {
    pub buffer_index: usize,
    pub cable_id: String,
    pub cable_index: usize,
    pub signal: String,
    pub shape: Vec<usize>,
    pub element_count: usize,
    pub byte_capacity: Option<usize>,
    pub device_id: String,
    pub source_pedal_id: String,
    pub source_port_id: String,
    pub source_pedal_port: Option<String>,
    pub destination_pedal_id: String,
    pub destination_port_id: String,
    pub destination_pedal_port: Option<String>,
    pub transport: EdgeTransport,
}

#[verifier::ext_equal]
pub struct VulkanPlacedLocalCableView {
    pub buffer_index: usize,
    pub cable_id: Seq<char>,
    pub cable_index: usize,
    pub signal: Seq<char>,
    pub shape: Seq<usize>,
    pub element_count: usize,
    pub byte_capacity: Option<usize>,
    pub device_id: Seq<char>,
    pub source_pedal_id: Seq<char>,
    pub source_port_id: Seq<char>,
    pub source_pedal_port: Option<Seq<char>>,
    pub destination_pedal_id: Seq<char>,
    pub destination_port_id: Seq<char>,
    pub destination_pedal_port: Option<Seq<char>>,
    pub transport: EdgeTransportView,
}

impl DeepView for VulkanPlacedLocalCable {
    type V = VulkanPlacedLocalCableView;

    open spec fn deep_view(&self) -> VulkanPlacedLocalCableView {
        VulkanPlacedLocalCableView {
            buffer_index: self.buffer_index,
            cable_id: self.cable_id.deep_view(),
            cable_index: self.cable_index,
            signal: self.signal.deep_view(),
            shape: self.shape.deep_view(),
            element_count: self.element_count,
            byte_capacity: self.byte_capacity,
            device_id: self.device_id.deep_view(),
            source_pedal_id: self.source_pedal_id.deep_view(),
            source_port_id: self.source_port_id.deep_view(),
            source_pedal_port: self.source_pedal_port.deep_view(),
            destination_pedal_id: self.destination_pedal_id.deep_view(),
            destination_port_id: self.destination_port_id.deep_view(),
            destination_pedal_port: self.destination_pedal_port.deep_view(),
            transport: self.transport.deep_view(),
        }
    }
}

impl View for VulkanPlacedLocalCable {
    type V = VulkanPlacedLocalCableView;

    open spec fn view(&self) -> VulkanPlacedLocalCableView {
        self.deep_view()
    }
}

impl Clone for VulkanPlacedLocalCable {
    fn clone(&self) -> (r: Self)
        ensures
            r@ == self@,
    {
        VulkanPlacedLocalCable {
            buffer_index: self.buffer_index,
            cable_id: self.cable_id.clone(),
            cable_index: self.cable_index,
            signal: self.signal.clone(),
            shape: self.shape.clone(),
            element_count: self.element_count,
            byte_capacity: self.byte_capacity.clone(),
            device_id: self.device_id.clone(),
            source_pedal_id: self.source_pedal_id.clone(),
            source_port_id: self.source_port_id.clone(),
            source_pedal_port: self.source_pedal_port.clone(),
            destination_pedal_id: self.destination_pedal_id.clone(),
            destination_port_id: self.destination_port_id.clone(),
            destination_pedal_port: self.destination_pedal_port.clone(),
            transport: self.transport.clone(),
        }
    }
}

/// The end of a cross-device cable that lies on this device.
#[derive(Debug, PartialEq, Eq)]
pub struct VulkanPlacedCableEndpoint {
    pub endpoint_index: usize,
    pub endpoint_id: String,
    pub direction: VulkanPlacedCableDirection,
    pub cable_index: usize,
    pub signal: String,
    pub shape: Vec<usize>,
    pub element_count: usize,
    pub byte_capacity: Option<usize>,
    pub local_device_id: String,
    pub remote_device_id: String,
    pub local_pedal_id: String,
    pub remote_pedal_id: String,
    pub local_port_id: String,
    pub remote_port_id: String,
    pub local_pedal_port: Option<String>,
    pub remote_pedal_port: Option<String>,
    pub transport: EdgeTransport,
}

#[verifier::ext_equal]
pub struct VulkanPlacedCableEndpointView {
    pub endpoint_index: usize,
    pub endpoint_id: Seq<char>,
    pub direction: VulkanPlacedCableDirection,
    pub cable_index: usize,
    pub signal: Seq<char>,
    pub shape: Seq<usize>,
    pub element_count: usize,
    pub byte_capacity: Option<usize>,
    pub local_device_id: Seq<char>,
    pub remote_device_id: Seq<char>,
    pub local_pedal_id: Seq<char>,
    pub remote_pedal_id: Seq<char>,
    pub local_port_id: Seq<char>,
    pub remote_port_id: Seq<char>,
    pub local_pedal_port: Option<Seq<char>>,
    pub remote_pedal_port: Option<Seq<char>>,
    pub transport: EdgeTransportView,
}

impl DeepView for VulkanPlacedCableEndpoint {
    type V = VulkanPlacedCableEndpointView;

    open spec fn deep_view(&self) -> VulkanPlacedCableEndpointView {
        VulkanPlacedCableEndpointView {
            endpoint_index: self.endpoint_index,
            endpoint_id: self.endpoint_id.deep_view(),
            direction: self.direction,
            cable_index: self.cable_index,
            signal: self.signal.deep_view(),
            shape: self.shape.deep_view(),
            element_count: self.element_count,
            byte_capacity: self.byte_capacity,
            local_device_id: self.local_device_id.deep_view(),
            remote_device_id: self.remote_device_id.deep_view(),
            local_pedal_id: self.local_pedal_id.deep_view(),
            remote_pedal_id: self.remote_pedal_id.deep_view(),
            local_port_id: self.local_port_id.deep_view(),
            remote_port_id: self.remote_port_id.deep_view(),
            local_pedal_port: self.local_pedal_port.deep_view(),
            remote_pedal_port: self.remote_pedal_port.deep_view(),
            transport: self.transport.deep_view(),
        }
    }
}

impl View for VulkanPlacedCableEndpoint {
    type V = VulkanPlacedCableEndpointView;

    open spec fn view(&self) -> VulkanPlacedCableEndpointView {
        self.deep_view()
    }
}

impl Clone for VulkanPlacedCableEndpoint {
    fn clone(&self) -> (r: Self)
        ensures
            r@ == self@,
    {
        VulkanPlacedCableEndpoint {
            endpoint_index: self.endpoint_index,
            endpoint_id: self.endpoint_id.clone(),
            direction: self.direction,
            cable_index: self.cable_index,
            signal: self.signal.clone(),
            shape: self.shape.clone(),
            element_count: self.element_count,
            byte_capacity: self.byte_capacity.clone(),
            local_device_id: self.local_device_id.clone(),
            remote_device_id: self.remote_device_id.clone(),
            local_pedal_id: self.local_pedal_id.clone(),
            remote_pedal_id: self.remote_pedal_id.clone(),
            local_port_id: self.local_port_id.clone(),
            remote_port_id: self.remote_port_id.clone(),
            local_pedal_port: self.local_pedal_port.clone(),
            remote_pedal_port: self.remote_pedal_port.clone(),
            transport: self.transport.clone(),
        }
    }
}

/// The cables of one device.
#[derive(Debug, PartialEq, Eq)]
pub struct VulkanPlacedCableIoPlan {
    pub backend_id: String,
    pub device_id: String,
    pub signal_element_bytes: Option<usize>,
    pub local_cables: Vec<VulkanPlacedLocalCable>,
    pub endpoints: Vec<VulkanPlacedCableEndpoint>,
    pub local_cable_count: usize,
    pub incoming_endpoint_count: usize,
    pub outgoing_endpoint_count: usize,
    pub total_buffer_count: usize,
    pub total_endpoint_count: usize,
    pub total_byte_capacity: Option<usize>,
    pub unresolved_byte_cables: Vec<usize>,
}

#[verifier::ext_equal]
pub struct VulkanPlacedCableIoPlanView {
    pub backend_id: Seq<char>,
    pub device_id: Seq<char>,
    pub signal_element_bytes: Option<usize>,
    pub local_cables: Seq<VulkanPlacedLocalCableView>,
    pub endpoints: Seq<VulkanPlacedCableEndpointView>,
    pub local_cable_count: usize,
    pub incoming_endpoint_count: usize,
    pub outgoing_endpoint_count: usize,
    pub total_buffer_count: usize,
    pub total_endpoint_count: usize,
    pub total_byte_capacity: Option<usize>,
    pub unresolved_byte_cables: Seq<usize>,
}

impl DeepView for VulkanPlacedCableIoPlan {
    type V = VulkanPlacedCableIoPlanView;

    open spec fn deep_view(&self) -> VulkanPlacedCableIoPlanView {
        VulkanPlacedCableIoPlanView {
            backend_id: self.backend_id.deep_view(),
            device_id: self.device_id.deep_view(),
            signal_element_bytes: self.signal_element_bytes,
            local_cables: self.local_cables.deep_view(),
            endpoints: self.endpoints.deep_view(),
            local_cable_count: self.local_cable_count,
            incoming_endpoint_count: self.incoming_endpoint_count,
            outgoing_endpoint_count: self.outgoing_endpoint_count,
            total_buffer_count: self.total_buffer_count,
            total_endpoint_count: self.total_endpoint_count,
            total_byte_capacity: self.total_byte_capacity,
            unresolved_byte_cables: self.unresolved_byte_cables.deep_view(),
        }
    }
}

impl View for VulkanPlacedCableIoPlan {
    type V = VulkanPlacedCableIoPlanView;

    open spec fn view(&self) -> VulkanPlacedCableIoPlanView {
        self.deep_view()
    }
}

impl Clone for VulkanPlacedCableIoPlan {
    fn clone(&self) -> (r: Self)
        ensures
            r@ == self@,
    {
        VulkanPlacedCableIoPlan {
            backend_id: self.backend_id.clone(),
            device_id: self.device_id.clone(),
            signal_element_bytes: self.signal_element_bytes.clone(),
            local_cables: self.local_cables.clone(),
            endpoints: self.endpoints.clone(),
            local_cable_count: self.local_cable_count,
            incoming_endpoint_count: self.incoming_endpoint_count,
            outgoing_endpoint_count: self.outgoing_endpoint_count,
            total_buffer_count: self.total_buffer_count,
            total_endpoint_count: self.total_endpoint_count,
            total_byte_capacity: self.total_byte_capacity.clone(),
            unresolved_byte_cables: self.unresolved_byte_cables.clone(),
        }
    }
}

// ---------------------------------------------------------------------------
// Planning
// ---------------------------------------------------------------------------

/// The number of elements of a cable's signal.
pub open spec fn cable_elements(placement: ComponentEdgePlacementView) -> Result<usize, Seq<char>> {
    match arithmetic::checked_product(1, placement.shape) {
        None => Err(
            "cable "@ + text::decimal(placement.edge_index as nat) + " signal shape "@
                + text::number_list(placement.shape) + " overflows"@,
        ),
        Some(elements) => if elements == 0 {
            Err(
                "cable "@ + text::decimal(placement.edge_index as nat) + " signal shape "@
                    + text::number_list(placement.shape) + " has zero elements"@,
            )
        } else {
            Ok(elements as usize)
        },
    }
}

/// The number of bytes of a cable's signal, where the size of an element is known.
pub open spec fn cable_bytes(
    placement: ComponentEdgePlacementView,
    elements: usize,
    element_bytes: Option<usize>,
) -> Result<Option<usize>, Seq<char>> {
    match element_bytes {
        None => Ok(None),
        Some(bytes) => if elements * bytes > usize::MAX {
            Err("cable "@ + text::decimal(placement.edge_index as nat) + " byte capacity overflowed"@)
        } else {
            Ok(Some((elements * bytes) as usize))
        },
    }
}

/// Elements and bytes of a cable's signal.
pub open spec fn cable_size(
    placement: ComponentEdgePlacementView,
    element_bytes: Option<usize>,
) -> Result<(usize, Option<usize>), Seq<char>> {
    match cable_elements(placement) {
        Err(e) => Err(e),
        Ok(elements) => match cable_bytes(placement, elements, element_bytes) {
            Err(e) => Err(e),
            Ok(bytes) => Ok((elements, bytes)),
        },
    }
}

/// A local cable of a device.
#[verifier::opaque]
pub open spec fn local_cable(
    buffer_index: int,
    device_id: Seq<char>,
    placement: ComponentEdgePlacementView,
    element_bytes: Option<usize>,
) -> Result<VulkanPlacedLocalCableView, Seq<char>> {
    match placement.transport {
        EdgeTransportView::LocalBuffer { device_id: transport_device_id } => {
            if transport_device_id != device_id || placement.source_device_id != device_id
                || placement.destination_device_id != device_id {
                Err(
                    "local cable "@ + text::decimal(placement.edge_index as nat)
                        + " is not fully resident on device "@ + text::quoted(device_id),
                )
            } else {
                match cable_size(placement, element_bytes) {
                    Err(e) => Err(e),
                    Ok((element_count, byte_capacity)) => Ok(
                        VulkanPlacedLocalCableView {
                            buffer_index: buffer_index as usize,
                            cable_id: "cable_"@ + text::decimal(placement.edge_index as nat)
                                + "_local"@,
                            cable_index: placement.edge_index,
                            signal: placement.signal,
                            shape: placement.shape,
                            element_count,
                            byte_capacity,
                            device_id,
                            source_pedal_id: placement.source_component_id,
                            source_port_id: placement.source_port_id,
                            source_pedal_port: placement.source_component_port,
                            destination_pedal_id: placement.destination_component_id,
                            destination_port_id: placement.destination_port_id,
                            destination_pedal_port: placement.destination_component_port,
                            transport: placement.transport,
                        },
                    ),
                }
            }
        },
        _ => Err(
            "cable "@ + text::decimal(placement.edge_index as nat) + " is not a local cable"@,
        ),
    }
}

/// An endpoint of a device.
#[verifier::opaque]
pub open spec fn cable_endpoint(
    endpoint_index: int,
    direction: VulkanPlacedCableDirection,
    device_id: Seq<char>,
    placement: ComponentEdgePlacementView,
    element_bytes: Option<usize>,
) -> Result<VulkanPlacedCableEndpointView, Seq<char>> {
    match placement.transport {
        EdgeTransportView::CrossDevice { from_device_id, to_device_id } => {
            if direction is Incoming && (to_device_id != device_id
                || placement.destination_device_id != device_id) {
                Err(
                    "incoming cable "@ + text::decimal(placement.edge_index as nat)
                        + " does not terminate on device "@ + text::quoted(device_id),
                )
            } else if direction is Outgoing && (from_device_id != device_id
                || placement.source_device_id != device_id) {
                Err(
                    "outgoing cable "@ + text::decimal(placement.edge_index as nat)
                        + " does not originate on device "@ + text::quoted(device_id),
                )
            } else {
                match cable_size(placement, element_bytes) {
                    Err(e) => Err(e),
                    Ok((element_count, byte_capacity)) => Ok(
                        if direction is Incoming {
                            VulkanPlacedCableEndpointView {
                                endpoint_index: endpoint_index as usize,
                                endpoint_id: "cable_"@ + text::decimal(placement.edge_index as nat)
                                    + "_in"@,
                                direction,
                                cable_index: placement.edge_index,
                                signal: placement.signal,
                                shape: placement.shape,
                                element_count,
                                byte_capacity,
                                local_device_id: placement.destination_device_id,
                                remote_device_id: placement.source_device_id,
                                local_pedal_id: placement.destination_component_id,
                                remote_pedal_id: placement.source_component_id,
                                local_port_id: placement.destination_port_id,
                                remote_port_id: placement.source_port_id,
                                local_pedal_port: placement.destination_component_port,
                                remote_pedal_port: placement.source_component_port,
                                transport: placement.transport,
                            }
                        } else {
                            VulkanPlacedCableEndpointView {
                                endpoint_index: endpoint_index as usize,
                                endpoint_id: "cable_"@ + text::decimal(placement.edge_index as nat)
                                    + "_out"@,
                                direction,
                                cable_index: placement.edge_index,
                                signal: placement.signal,
                                shape: placement.shape,
                                element_count,
                                byte_capacity,
                                local_device_id: placement.source_device_id,
                                remote_device_id: placement.destination_device_id,
                                local_pedal_id: placement.source_component_id,
                                remote_pedal_id: placement.destination_component_id,
                                local_port_id: placement.source_port_id,
                                remote_port_id: placement.destination_port_id,
                                local_pedal_port: placement.source_component_port,
                                remote_pedal_port: placement.destination_component_port,
                                transport: placement.transport,
                            }
                        },
                    ),
                }
            }
        },
        _ => Err(
            "cable "@ + text::decimal(placement.edge_index as nat) + " is not a cross-device cable"@,
        ),
    }
}

/// One step over the local cables.
pub open spec fn local_step(device_id: Seq<char>, element_bytes: Option<usize>) -> spec_fn(
    Seq<VulkanPlacedLocalCableView>,
    ComponentEdgePlacementView,
) -> Result<Seq<VulkanPlacedLocalCableView>, Seq<char>> {
    |done: Seq<VulkanPlacedLocalCableView>, placement: ComponentEdgePlacementView|
        match local_cable(done.len() as int, device_id, placement, element_bytes) {
            Err(e) => Err(e),
            Ok(cable) => Ok(done.push(cable)),
        }
}

/// One step over the cross-device cables of a direction.
pub open spec fn endpoint_step(
    direction: VulkanPlacedCableDirection,
    device_id: Seq<char>,
    element_bytes: Option<usize>,
) -> spec_fn(Seq<VulkanPlacedCableEndpointView>, ComponentEdgePlacementView) -> Result<
    Seq<VulkanPlacedCableEndpointView>,
    Seq<char>,
> {
    |done: Seq<VulkanPlacedCableEndpointView>, placement: ComponentEdgePlacementView|
        match cable_endpoint(done.len() as int, direction, device_id, placement, element_bytes) {
            Err(e) => Err(e),
            Ok(endpoint) => Ok(done.push(endpoint)),
        }
}

/// The byte capacity of every buffer, with the cable that it is for.
pub open spec fn cable_capacities(
    local_cables: Seq<VulkanPlacedLocalCableView>,
    endpoints: Seq<VulkanPlacedCableEndpointView>,
) -> Seq<(usize, Option<usize>)> {
    Seq::new(
        local_cables.len(),
        |i: int| (local_cables[i].cable_index, local_cables[i].byte_capacity),
    ) + Seq::new(
        endpoints.len(),
        |i: int| (endpoints[i].cable_index, endpoints[i].byte_capacity),
    )
}

/// The cables whose byte capacity is unknown.
pub open spec fn unresolved_cables(capacities: Seq<(usize, Option<usize>)>) -> Seq<usize>
    decreases capacities.len(),
{
    if capacities.len() == 0 {
        Seq::empty()
    } else {
        let front = unresolved_cables(capacities.drop_last());
        if capacities.last().1 is None {
            front.push(capacities.last().0)
        } else {
            front
        }
    }
}

/// Adds a byte capacity; one that is unknown makes the sum unknown.
pub open spec fn capacity_step() -> spec_fn(Option<usize>, (usize, Option<usize>)) -> Result<
    Option<usize>,
    Seq<char>,
> {
    |total: Option<usize>, capacity: (usize, Option<usize>)|
        match (total, capacity.1) {
            (Some(total), Some(bytes)) => if total + bytes > usize::MAX {
                Err("placed cable buffer byte capacity overflowed"@)
            } else {
                Ok(Some((total + bytes) as usize))
            },
            _ => Ok(None),
        }
}

/// The cable plan of a device.
pub open spec fn cable_io_plan(placed: VulkanPlacedStreamCircuitResidentPlanView) -> Result<
    VulkanPlacedCableIoPlanView,
    Seq<char>,
> {
    let element_bytes = placed.signal_element_bytes;
    match sequence::try_fold(
        placed.local_edges,
        Seq::<VulkanPlacedLocalCableView>::empty(),
        local_step(placed.device_id, element_bytes),
    ) {
        Err(e) => Err(e),
        Ok(local_cables) => match sequence::try_fold(
            placed.incoming_edges,
            Seq::<VulkanPlacedCableEndpointView>::empty(),
            endpoint_step(VulkanPlacedCableDirection::Incoming, placed.device_id, element_bytes),
        ) {
            Err(e) => Err(e),
            Ok(incoming) => match sequence::try_fold(
                placed.outgoing_edges,
                incoming,
                endpoint_step(VulkanPlacedCableDirection::Outgoing, placed.device_id, element_bytes),
            ) {
                Err(e) => Err(e),
                Ok(endpoints) => cable_io_plan_of(placed, local_cables, endpoints),
            },
        },
    }
}

/// The cable plan of these cables and endpoints.
pub open spec fn cable_io_plan_of(
    placed: VulkanPlacedStreamCircuitResidentPlanView,
    local_cables: Seq<VulkanPlacedLocalCableView>,
    endpoints: Seq<VulkanPlacedCableEndpointView>,
) -> Result<VulkanPlacedCableIoPlanView, Seq<char>> {
    let capacities = cable_capacities(local_cables, endpoints);
    match sequence::try_fold(capacities, Some(0usize), capacity_step()) {
        Err(e) => Err(e),
        Ok(total_byte_capacity) => Ok(
            VulkanPlacedCableIoPlanView {
                backend_id: VULKAN_STREAM_CIRCUIT_BACKEND_ID@,
                device_id: placed.device_id,
                signal_element_bytes: placed.signal_element_bytes,
                local_cables,
                endpoints,
                local_cable_count: local_cables.len() as usize,
                incoming_endpoint_count: placed.incoming_edges.len() as usize,
                outgoing_endpoint_count: placed.outgoing_edges.len() as usize,
                total_buffer_count: (local_cables.len() + endpoints.len()) as usize,
                total_endpoint_count: endpoints.len() as usize,
                total_byte_capacity,
                unresolved_byte_cables: unresolved_cables(capacities),
            },
        ),
    }
}

fn measure(placement: &ComponentEdgePlacement, element_bytes: Option<usize>) -> (r: Result<
    (usize, Option<usize>),
    VulkanPlacedCableIoPlanError,
>)
    ensures
        sequence::outcome(r) == cable_size(placement@, element_bytes),
{
    assert(placement.shape.deep_view() =~= placement.shape@);
    let element_count: usize = match arithmetic::product(&placement.shape) {
        Some(count) => count,
        None => return Err(
            VulkanPlacedCableIoPlanError(
                Message::new("cable ").number(placement.edge_index).text(
                    " signal shape ",
                ).number_list(&placement.shape).text(" overflows").done(),
            ),
        ),
    };
    if element_count == 0 {
        return Err(
            VulkanPlacedCableIoPlanError(
                Message::new("cable ").number(placement.edge_index).text(
                    " signal shape ",
                ).number_list(&placement.shape).text(" has zero elements").done(),
            ),
        );
    }
    match element_bytes {
        None => Ok((element_count, None)),
        Some(bytes) => match element_count.checked_mul(bytes) {
            Some(capacity) => Ok((element_count, Some(capacity))),
            None => Err(
                VulkanPlacedCableIoPlanError(
                    Message::new("cable ").number(placement.edge_index).text(
                        " byte capacity overflowed",
                    ).done(),
                ),
            ),
        },
    }
}

impl VulkanPlacedLocalCable {
    fn from_cable(
        buffer_index: usize,
        device_id: &String,
        placement: &ComponentEdgePlacement,
        element_bytes: Option<usize>,
    ) -> (r: Result<Self, VulkanPlacedCableIoPlanError>)
        ensures
            sequence::outcome(r) == local_cable(
                buffer_index as int,
                device_id@,
                placement@,
                element_bytes,
            ),
    {
        reveal(local_cable);
        match &placement.transport {
            EdgeTransport::LocalBuffer { device_id: transport_device_id } => {
                if *transport_device_id != *device_id || placement.source_device_id != *device_id
                    || placement.destination_device_id != *device_id {
                    return Err(
                        VulkanPlacedCableIoPlanError(
                            Message::new("local cable ").number(placement.edge_index).text(
                                " is not fully resident on device ",
                            ).quoted(device_id.as_str()).done(),
                        ),
                    );
                }
            },
            _ => return Err(
                VulkanPlacedCableIoPlanError(
                    Message::new("cable ").number(placement.edge_index).text(
                        " is not a local cable",
                    ).done(),
                ),
            ),
        }
        let (element_count, byte_capacity): (usize, Option<usize>) = match measure(
            placement,
            element_bytes,
        ) {
            Ok(size) => size,
            Err(e) => return Err(e),
        };
        Ok(
            VulkanPlacedLocalCable {
                buffer_index,
                cable_id: Message::new("cable_").number(placement.edge_index).text("_local").done(),
                cable_index: placement.edge_index,
                signal: placement.signal.clone(),
                shape: placement.shape.clone(),
                element_count,
                byte_capacity,
                device_id: device_id.clone(),
                source_pedal_id: placement.source_component_id.clone(),
                source_port_id: placement.source_port_id.clone(),
                source_pedal_port: placement.source_component_port.clone(),
                destination_pedal_id: placement.destination_component_id.clone(),
                destination_port_id: placement.destination_port_id.clone(),
                destination_pedal_port: placement.destination_component_port.clone(),
                transport: placement.transport.clone(),
            },
        )
    }
}

impl VulkanPlacedCableEndpoint {
    fn from_cable(
        endpoint_index: usize,
        direction: VulkanPlacedCableDirection,
        device_id: &String,
        placement: &ComponentEdgePlacement,
        element_bytes: Option<usize>,
    ) -> (r: Result<Self, VulkanPlacedCableIoPlanError>)
        ensures
            sequence::outcome(r) == cable_endpoint(
                endpoint_index as int,
                direction,
                device_id@,
                placement@,
                element_bytes,
            ),
    {
        reveal(cable_endpoint);
        match &placement.transport {
            EdgeTransport::CrossDevice { from_device_id, to_device_id } => match direction {
                VulkanPlacedCableDirection::Incoming => {
                    if *to_device_id != *device_id || placement.destination_device_id
                        != *device_id {
                        return Err(
                            VulkanPlacedCableIoPlanError(
                                Message::new("incoming cable ").number(placement.edge_index).text(
                                    " does not terminate on device ",
                                ).quoted(device_id.as_str()).done(),
                            ),
                        );
                    }
                },
                VulkanPlacedCableDirection::Outgoing => {
                    if *from_device_id != *device_id || placement.source_device_id != *device_id {
                        return Err(
                            VulkanPlacedCableIoPlanError(
                                Message::new("outgoing cable ").number(placement.edge_index).text(
                                    " does not originate on device ",
                                ).quoted(device_id.as_str()).done(),
                            ),
                        );
                    }
                },
            },
            _ => return Err(
                VulkanPlacedCableIoPlanError(
                    Message::new("cable ").number(placement.edge_index).text(
                        " is not a cross-device cable",
                    ).done(),
                ),
            ),
        }
        let (element_count, byte_capacity): (usize, Option<usize>) = match measure(
            placement,
            element_bytes,
        ) {
            Ok(size) => size,
            Err(e) => return Err(e),
        };
        match direction {
            VulkanPlacedCableDirection::Incoming => Ok(
                VulkanPlacedCableEndpoint {
                    endpoint_index,
                    endpoint_id: Message::new("cable_").number(placement.edge_index).text(
                        "_in",
                    ).done(),
                    direction,
                    cable_index: placement.edge_index,
                    signal: placement.signal.clone(),
                    shape: placement.shape.clone(),
                    element_count,
                    byte_capacity,
                    local_device_id: placement.destination_device_id.clone(),
                    remote_device_id: placement.source_device_id.clone(),
                    local_pedal_id: placement.destination_component_id.clone(),
                    remote_pedal_id: placement.source_component_id.clone(),
                    local_port_id: placement.destination_port_id.clone(),
                    remote_port_id: placement.source_port_id.clone(),
                    local_pedal_port: placement.destination_component_port.clone(),
                    remote_pedal_port: placement.source_component_port.clone(),
                    transport: placement.transport.clone(),
                },
            ),
            VulkanPlacedCableDirection::Outgoing => Ok(
                VulkanPlacedCableEndpoint {
                    endpoint_index,
                    endpoint_id: Message::new("cable_").number(placement.edge_index).text(
                        "_out",
                    ).done(),
                    direction,
                    cable_index: placement.edge_index,
                    signal: placement.signal.clone(),
                    shape: placement.shape.clone(),
                    element_count,
                    byte_capacity,
                    local_device_id: placement.source_device_id.clone(),
                    remote_device_id: placement.destination_device_id.clone(),
                    local_pedal_id: placement.source_component_id.clone(),
                    remote_pedal_id: placement.destination_component_id.clone(),
                    local_port_id: placement.source_port_id.clone(),
                    remote_port_id: placement.destination_port_id.clone(),
                    local_pedal_port: placement.source_component_port.clone(),
                    remote_pedal_port: placement.destination_component_port.clone(),
                    transport: placement.transport.clone(),
                },
            ),
        }
    }
}

#[verifier::loop_isolation(false)]
fn plan_local(
    placements: &Vec<ComponentEdgePlacement>,
    device_id: &String,
    element_bytes: Option<usize>,
) -> (r: Result<Vec<VulkanPlacedLocalCable>, VulkanPlacedCableIoPlanError>)
    ensures
        sequence::outcome(r) == sequence::try_fold(
            placements.deep_view(),
            Seq::<VulkanPlacedLocalCableView>::empty(),
            local_step(device_id@, element_bytes),
        ),
        r is Ok ==> r->Ok_0@.len() == placements@.len(),
{
    let ghost all = placements.deep_view();
    let ghost init = Seq::<VulkanPlacedLocalCableView>::empty();
    let ghost step = local_step(device_id@, element_bytes);
    let mut local_cables: Vec<VulkanPlacedLocalCable> = Vec::new();
    let mut i: usize = 0;
    assert(local_cables.deep_view() =~= init);
    assert(all.take(0) =~= Seq::empty());
    while i < placements.len()
        invariant
            i <= placements.len(),
            local_cables@.len() == i,
            sequence::try_fold(all.take(i as int), init, step) == Ok::<
                Seq<VulkanPlacedLocalCableView>,
                Seq<char>,
            >(local_cables.deep_view()),
        decreases placements.len() - i,
    {
        proof {
            sequence::lemma_try_fold_step(all, init, step, i as int);
            assert(all[i as int] == placements@[i as int]@);
            assert(local_cables.deep_view().len() == i);
        }
        match VulkanPlacedLocalCable::from_cable(i, device_id, &placements[i], element_bytes) {
            Ok(cable) => {
                let ghost before = local_cables.deep_view();
                let ghost added = cable@;
                local_cables.push(cable);
                assert(local_cables.deep_view() =~= before.push(added));
            },
            Err(e) => {
                proof {
                    sequence::lemma_try_fold_error(all, init, step, i + 1);
                }
                return Err(e);
            },
        }
        i += 1;
    }
    assert(all.take(all.len() as int) =~= all);
    Ok(local_cables)
}

#[verifier::loop_isolation(false)]
fn plan_endpoints(
    earlier: Vec<VulkanPlacedCableEndpoint>,
    placements: &Vec<ComponentEdgePlacement>,
    direction: VulkanPlacedCableDirection,
    device_id: &String,
    element_bytes: Option<usize>,
) -> (r: Result<Vec<VulkanPlacedCableEndpoint>, VulkanPlacedCableIoPlanError>)
    requires
        earlier@.len() + placements@.len() <= usize::MAX,
    ensures
        sequence::outcome(r) == sequence::try_fold(
            placements.deep_view(),
            earlier.deep_view(),
            endpoint_step(direction, device_id@, element_bytes),
        ),
        r is Ok ==> r->Ok_0@.len() == earlier@.len() + placements@.len(),
{
    let ghost all = placements.deep_view();
    let ghost init = earlier.deep_view();
    let ghost step = endpoint_step(direction, device_id@, element_bytes);
    let start: usize = earlier.len();
    let mut endpoints: Vec<VulkanPlacedCableEndpoint> = earlier;
    let mut i: usize = 0;
    assert(all.take(0) =~= Seq::empty());
    while i < placements.len()
        invariant
            i <= placements.len(),
            endpoints@.len() == start + i,
            sequence::try_fold(all.take(i as int), init, step) == Ok::<
                Seq<VulkanPlacedCableEndpointView>,
                Seq<char>,
            >(endpoints.deep_view()),
        decreases placements.len() - i,
    {
        proof {
            sequence::lemma_try_fold_step(all, init, step, i as int);
            assert(all[i as int] == placements@[i as int]@);
            assert(endpoints.deep_view().len() == endpoints@.len());
        }
        match VulkanPlacedCableEndpoint::from_cable(
            start + i,
            direction,
            device_id,
            &placements[i],
            element_bytes,
        ) {
            Ok(endpoint) => {
                let ghost before = endpoints.deep_view();
                let ghost added = endpoint@;
                endpoints.push(endpoint);
                assert(endpoints.deep_view() =~= before.push(added));
            },
            Err(e) => {
                proof {
                    sequence::lemma_try_fold_error(all, init, step, i + 1);
                }
                return Err(e);
            },
        }
        i += 1;
    }
    assert(all.take(all.len() as int) =~= all);
    Ok(endpoints)
}

#[verifier::loop_isolation(false)]
fn list_capacities(
    local_cables: &Vec<VulkanPlacedLocalCable>,
    endpoints: &Vec<VulkanPlacedCableEndpoint>,
) -> (r: Vec<(usize, Option<usize>)>)
    ensures
        r@ == cable_capacities(local_cables.deep_view(), endpoints.deep_view()),
{
    let ghost local_views = local_cables.deep_view();
    let ghost endpoint_views = endpoints.deep_view();
    let ghost goal = cable_capacities(local_views, endpoint_views);
    let mut capacities: Vec<(usize, Option<usize>)> = Vec::new();
    let mut i: usize = 0;
    while i < local_cables.len()
        invariant
            i <= local_cables.len(),
            capacities@ =~= goal.take(i as int),
        decreases local_cables.len() - i,
    {
        assert(local_views[i as int] == local_cables@[i as int]@);
        capacities.push((local_cables[i].cable_index, local_cables[i].byte_capacity));
        i += 1;
    }
    let mut k: usize = 0;
    while k < endpoints.len()
        invariant
            k <= endpoints.len(),
            capacities@ =~= goal.take(local_views.len() + k as int),
        decreases endpoints.len() - k,
    {
        assert(endpoint_views[k as int] == endpoints@[k as int]@);
        assert(goal[local_views.len() + k as int] == (
            endpoint_views[k as int].cable_index,
            endpoint_views[k as int].byte_capacity,
        ));
        capacities.push((endpoints[k].cable_index, endpoints[k].byte_capacity));
        k += 1;
    }
    assert(goal.take(goal.len() as int) =~= goal);
    capacities
}

#[verifier::loop_isolation(false)]
fn sum_capacities(capacities: &Vec<(usize, Option<usize>)>) -> (r: Result<
    (Option<usize>, Vec<usize>),
    VulkanPlacedCableIoPlanError,
>)
    ensures
        sequence::outcome(r) == (match sequence::try_fold(
            capacities@,
            Some(0usize),
            capacity_step(),
        ) {
            Err(e) => Err::<(Option<usize>, Seq<usize>), Seq<char>>(e),
            Ok(total) => Ok((total, unresolved_cables(capacities@))),
        }),
{
    let ghost all = capacities@;
    let ghost step = capacity_step();
    let mut total: Option<usize> = Some(0);
    let mut unresolved: Vec<usize> = Vec::new();
    let mut i: usize = 0;
    assert(all.take(0) =~= Seq::empty());
    while i < capacities.len()
        invariant
            i <= capacities.len(),
            sequence::try_fold(all.take(i as int), Some(0usize), step) == Ok::<
                Option<usize>,
                Seq<char>,
            >(total),
            unresolved@ == unresolved_cables(all.take(i as int)),
        decreases capacities.len() - i,
    {
        proof {
            sequence::lemma_try_fold_step(all, Some(0usize), step, i as int);
            assert(all.take(i + 1).drop_last() =~= all.take(i as int));
            if sequence::try_fold(all.take(i + 1), Some(0usize), step) is Err {
                sequence::lemma_try_fold_error(all, Some(0usize), step, i + 1);
            }
        }
        total = match (total, capacities[i].1) {
            (Some(sum), Some(bytes)) => match sum.checked_add(bytes) {
                Some(sum) => Some(sum),
                None => return Err(
                    VulkanPlacedCableIoPlanError(
                        "placed cable buffer byte capacity overflowed".to_owned(),
                    ),
                ),
            },
            _ => None,
        };
        if capacities[i].1.is_none() {
            unresolved.push(capacities[i].0);
        }
        i += 1;
    }
    assert(all.take(all.len() as int) =~= all);
    assert(unresolved.deep_view() =~= unresolved@);
    Ok((total, unresolved))
}

impl VulkanPlacedCableIoPlan {
    /// The cable plan of a device.
    pub fn from_placed_resident_plan(placed: &VulkanPlacedStreamCircuitResidentPlan) -> (r: Result<
        Self,
        VulkanPlacedCableIoPlanError,
    >)
        requires
            placed@.local_edges.len() + placed@.incoming_edges.len() + placed@.outgoing_edges.len()
                <= usize::MAX,
        ensures
            sequence::outcome(r) == cable_io_plan(placed@),
    {
        assert(placed@.local_edges.len() == placed.local_edges@.len());
        assert(placed@.incoming_edges.len() == placed.incoming_edges@.len());
        assert(placed@.outgoing_edges.len() == placed.outgoing_edges@.len());
        let local_cables: Vec<VulkanPlacedLocalCable> = match plan_local(
            &placed.local_edges,
            &placed.device_id,
            placed.signal_element_bytes,
        ) {
            Ok(local_cables) => local_cables,
            Err(e) => return Err(e),
        };
        let none: Vec<VulkanPlacedCableEndpoint> = Vec::new();
        assert(none.deep_view() =~= Seq::empty());
        let incoming: Vec<VulkanPlacedCableEndpoint> = match plan_endpoints(
            none,
            &placed.incoming_edges,
            VulkanPlacedCableDirection::Incoming,
            &placed.device_id,
            placed.signal_element_bytes,
        ) {
            Ok(endpoints) => endpoints,
            Err(e) => return Err(e),
        };
        let endpoints: Vec<VulkanPlacedCableEndpoint> = match plan_endpoints(
            incoming,
            &placed.outgoing_edges,
            VulkanPlacedCableDirection::Outgoing,
            &placed.device_id,
            placed.signal_element_bytes,
        ) {
            Ok(endpoints) => endpoints,
            Err(e) => return Err(e),
        };
        let capacities: Vec<(usize, Option<usize>)> = list_capacities(&local_cables, &endpoints);
        let (total_byte_capacity, unresolved_byte_cables): (Option<usize>, Vec<usize>) =
            match sum_capacities(&capacities) {
            Ok(sums) => sums,
            Err(e) => return Err(e),
        };
        assert(local_cables.deep_view().len() == local_cables@.len());
        assert(endpoints.deep_view().len() == endpoints@.len());
        Ok(
            VulkanPlacedCableIoPlan {
                backend_id: VULKAN_STREAM_CIRCUIT_BACKEND_ID.to_owned(),
                device_id: placed.device_id.clone(),
                signal_element_bytes: placed.signal_element_bytes,
                local_cable_count: local_cables.len(),
                incoming_endpoint_count: placed.incoming_edges.len(),
                outgoing_endpoint_count: placed.outgoing_edges.len(),
                total_buffer_count: local_cables.len() + endpoints.len(),
                total_endpoint_count: endpoints.len(),
                local_cables,
                endpoints,
                total_byte_capacity,
                unresolved_byte_cables,
            },
        )
    }

    /// The endpoint of a cable in a direction.
    #[verifier::loop_isolation(false)]
    pub fn endpoint(&self, direction: VulkanPlacedCableDirection, cable_index: usize) -> (r: Option<
        &VulkanPlacedCableEndpoint,
    >)
        ensures
            r.deep_view() == find_endpoint(self@, direction, cable_index),
    {
        let ghost all = self@.endpoints;
        let ghost p = endpoint_matcher(direction, cable_index);
        let mut i: usize = 0;
        while i < self.endpoints.len()
            invariant
                i <= self.endpoints.len(),
                forall|j: int| 0 <= j < i ==> !p(#[trigger] all[j]),
            decreases self.endpoints.len() - i,
        {
            let endpoint: &VulkanPlacedCableEndpoint = &self.endpoints[i];
            assert(all[i as int] == endpoint@);
            if endpoint.direction == direction && endpoint.cable_index == cable_index {
                proof {
                    sequence::lemma_find_first_at(all, p, i as int);
                }
                return Some(endpoint);
            }
            i += 1;
        }
        proof {
            sequence::lemma_find_first_none(all, p);
        }
        None
    }
}

/// Whether an endpoint is that of a cable in a direction.
pub open spec fn endpoint_matcher(
    direction: VulkanPlacedCableDirection,
    cable_index: usize,
) -> spec_fn(VulkanPlacedCableEndpointView) -> bool {
    |endpoint: VulkanPlacedCableEndpointView|
        endpoint.direction == direction && endpoint.cable_index == cable_index
}

/// The endpoint of a cable in a direction.
pub open spec fn find_endpoint(
    plan: VulkanPlacedCableIoPlanView,
    direction: VulkanPlacedCableDirection,
    cable_index: usize,
) -> Option<VulkanPlacedCableEndpointView> {
    sequence::find_first(plan.endpoints, endpoint_matcher(direction, cable_index))
}

// ---------------------------------------------------------------------------
// Buffers
// ---------------------------------------------------------------------------

/// The name of a direction.
pub open spec fn direction_name(direction: VulkanPlacedCableDirection) -> Seq<char> {
    match direction {
        VulkanPlacedCableDirection::Incoming => "Incoming"@,
        VulkanPlacedCableDirection::Outgoing => "Outgoing"@,
    }
}

pub(crate) fn name_of_direction(direction: VulkanPlacedCableDirection) -> (r: &'static str)
    ensures
        r@ == direction_name(direction),
{
    match direction {
        VulkanPlacedCableDirection::Incoming => "Incoming",
        VulkanPlacedCableDirection::Outgoing => "Outgoing",
    }
}

/// Whether an override is for a cable in a direction.
pub open spec fn override_matcher(
    direction: VulkanPlacedCableDirection,
    cable_index: usize,
) -> spec_fn(VulkanPlacedCableEndpointBufferOverrideView) -> bool {
    |stand_in: VulkanPlacedCableEndpointBufferOverrideView|
        stand_in.direction == direction && stand_in.cable_index == cable_index
}

/// What is said of an endpoint whose byte capacity is unknown.
pub open spec fn unknown_capacity(
    device_id: Seq<char>,
    endpoint: VulkanPlacedCableEndpointView,
) -> Seq<char> {
    device_id + " endpoint "@ + endpoint.endpoint_id + " for cable "@ + text::decimal(
        endpoint.cable_index as nat,
    ) + " has unknown byte capacity"@
}

/// Accepts one override: it is the only one for its endpoint, its buffer lies on the device, and
/// the buffer is large enough.
#[verifier::opaque]
pub open spec fn override_accepted(
    plan: VulkanPlacedCableIoPlanView,
    device_id: Seq<char>,
    done: Seq<VulkanPlacedCableEndpointBufferOverrideView>,
    stand_in: VulkanPlacedCableEndpointBufferOverrideView,
) -> Result<Seq<VulkanPlacedCableEndpointBufferOverrideView>, Seq<char>> {
    let index = text::decimal(stand_in.cable_index as nat);
    let owner = text::quoted(plan.device_id);
    if sequence::find_first(
        done,
        override_matcher(stand_in.direction, stand_in.cable_index),
    ) is Some {
        Err(
            "cable endpoint buffer override repeats "@ + direction_name(stand_in.direction)
                + " cable "@ + index + " on "@ + owner,
        )
    } else if stand_in.buffer.device_id != device_id {
        Err(
            "cable endpoint buffer override for cable "@ + index + " on "@ + owner
                + " belongs to a different Vulkan logical device"@,
        )
    } else {
        match find_endpoint(plan, stand_in.direction, stand_in.cable_index) {
            None => Err(
                "cable endpoint buffer override does not address "@ + direction_name(
                    stand_in.direction,
                ) + " cable "@ + index + " on "@ + owner,
            ),
            Some(endpoint) => match endpoint.byte_capacity {
                None => Err(unknown_capacity(plan.device_id, endpoint)),
                Some(needed) => if stand_in.buffer.byte_capacity < needed {
                    Err(
                        "cable endpoint buffer override for cable "@ + index + " on "@ + owner
                            + " has "@ + text::decimal(stand_in.buffer.byte_capacity as nat)
                            + " bytes, needs "@ + text::decimal(needed as nat),
                    )
                } else {
                    Ok(done.push(stand_in))
                },
            },
        }
    }
}

/// One step over the overrides.
pub open spec fn override_step(plan: VulkanPlacedCableIoPlanView, device_id: Seq<char>) -> spec_fn(
    Seq<VulkanPlacedCableEndpointBufferOverrideView>,
    VulkanPlacedCableEndpointBufferOverrideView,
) -> Result<Seq<VulkanPlacedCableEndpointBufferOverrideView>, Seq<char>> {
    |
        done: Seq<VulkanPlacedCableEndpointBufferOverrideView>,
        stand_in: VulkanPlacedCableEndpointBufferOverrideView,
    |
        override_accepted(plan, device_id, done, stand_in)
}

/// The buffers described so far.
#[verifier::ext_equal]
pub struct CableBuffersView {
    pub local: Seq<VulkanPlacedLocalCableBufferAllocationView>,
    pub incoming: Seq<VulkanPlacedCableBufferAllocationView>,
    pub outgoing: Seq<VulkanPlacedCableBufferAllocationView>,
    pub bytes: nat,
}

/// No buffer yet.
pub open spec fn no_cable_buffers() -> CableBuffersView {
    CableBuffersView {
        local: Seq::empty(),
        incoming: Seq::empty(),
        outgoing: Seq::empty(),
        bytes: 0,
    }
}

/// Describes the buffer of a local cable.
#[verifier::opaque]
pub open spec fn local_described(
    plan: VulkanPlacedCableIoPlanView,
    device_id: Seq<char>,
    done: CableBuffersView,
    cable: VulkanPlacedLocalCableView,
) -> Result<CableBuffersView, Seq<char>> {
    match cable.byte_capacity {
        None => Err(
            plan.device_id + " local cable "@ + text::decimal(cable.cable_index as nat)
                + " has unknown byte capacity"@,
        ),
        Some(bytes) => if done.bytes + bytes > usize::MAX {
            Err(device::capacity_overflow("placed local cable buffer allocation"@))
        } else {
            Ok(
                CableBuffersView {
                    local: done.local.push(
                        VulkanPlacedLocalCableBufferAllocationView {
                            cable,
                            byte_capacity: bytes,
                            buffer: device::device_buffer(
                                VulkanResidentBufferName::LocalSignal(cable.cable_index),
                                device_id,
                                bytes,
                            ),
                        },
                    ),
                    bytes: (done.bytes + bytes) as nat,
                    ..done
                },
            )
        },
    }
}

/// One step over the local cables.
pub open spec fn local_buffer_step(
    plan: VulkanPlacedCableIoPlanView,
    device_id: Seq<char>,
) -> spec_fn(CableBuffersView, VulkanPlacedLocalCableView) -> Result<CableBuffersView, Seq<char>> {
    |done: CableBuffersView, cable: VulkanPlacedLocalCableView|
        local_described(plan, device_id, done, cable)
}

/// The name of an endpoint's own buffer.
pub open spec fn endpoint_name(direction: VulkanPlacedCableDirection, cable_index: usize) -> VulkanResidentBufferName {
    match direction {
        VulkanPlacedCableDirection::Incoming => VulkanResidentBufferName::IncomingSignal(cable_index),
        VulkanPlacedCableDirection::Outgoing => VulkanResidentBufferName::OutgoingSignal(cable_index),
    }
}

fn name_of_endpoint(direction: VulkanPlacedCableDirection, cable_index: usize) -> (r:
    VulkanResidentBufferName)
    ensures
        r == endpoint_name(direction, cable_index),
{
    match direction {
        VulkanPlacedCableDirection::Incoming => VulkanResidentBufferName::IncomingSignal(cable_index),
        VulkanPlacedCableDirection::Outgoing => VulkanResidentBufferName::OutgoingSignal(cable_index),
    }
}

/// The buffer of an endpoint: its override, or a mapped one of its own.
pub open spec fn endpoint_buffer(
    overrides: Seq<VulkanPlacedCableEndpointBufferOverrideView>,
    device_id: Seq<char>,
    endpoint: VulkanPlacedCableEndpointView,
    bytes: usize,
) -> VulkanResidentBufferView {
    match sequence::find_first(
        overrides,
        override_matcher(endpoint.direction, endpoint.cable_index),
    ) {
        Some(stand_in) => stand_in.buffer,
        None => device::mapped_buffer(
            endpoint_name(endpoint.direction, endpoint.cable_index),
            device_id,
            bytes,
        ),
    }
}

/// Describes the buffer of an endpoint.
#[verifier::opaque]
pub open spec fn endpoint_described(
    plan: VulkanPlacedCableIoPlanView,
    device_id: Seq<char>,
    overrides: Seq<VulkanPlacedCableEndpointBufferOverrideView>,
    done: CableBuffersView,
    endpoint: VulkanPlacedCableEndpointView,
) -> Result<CableBuffersView, Seq<char>> {
    match endpoint.byte_capacity {
        None => Err(unknown_capacity(plan.device_id, endpoint)),
        Some(bytes) => if done.bytes + bytes > usize::MAX {
            Err(device::capacity_overflow("placed cable endpoint buffer allocation"@))
        } else {
            let allocation = VulkanPlacedCableBufferAllocationView {
                endpoint,
                byte_capacity: bytes,
                buffer: endpoint_buffer(overrides, device_id, endpoint, bytes),
            };
            Ok(
                match endpoint.direction {
                    VulkanPlacedCableDirection::Incoming => CableBuffersView {
                        incoming: done.incoming.push(allocation),
                        bytes: (done.bytes + bytes) as nat,
                        ..done
                    },
                    VulkanPlacedCableDirection::Outgoing => CableBuffersView {
                        outgoing: done.outgoing.push(allocation),
                        bytes: (done.bytes + bytes) as nat,
                        ..done
                    },
                },
            )
        },
    }
}

/// One step over the endpoints.
pub open spec fn endpoint_buffer_step(
    plan: VulkanPlacedCableIoPlanView,
    device_id: Seq<char>,
    overrides: Seq<VulkanPlacedCableEndpointBufferOverrideView>,
) -> spec_fn(CableBuffersView, VulkanPlacedCableEndpointView) -> Result<CableBuffersView, Seq<char>> {
    |done: CableBuffersView, endpoint: VulkanPlacedCableEndpointView|
        endpoint_described(plan, device_id, overrides, done, endpoint)
}

/// The buffers of a cable plan on a device.
pub open spec fn cable_io_buffers(
    plan: VulkanPlacedCableIoPlanView,
    device_id: Seq<char>,
    overrides: Seq<VulkanPlacedCableEndpointBufferOverrideView>,
) -> Result<VulkanPlacedCableIoBuffersView, Seq<char>> {
    match sequence::try_fold(
        overrides,
        Seq::<VulkanPlacedCableEndpointBufferOverrideView>::empty(),
        override_step(plan, device_id),
    ) {
        Err(e) => Err(e),
        Ok(accepted) => match sequence::try_fold(
            plan.local_cables,
            no_cable_buffers(),
            local_buffer_step(plan, device_id),
        ) {
            Err(e) => Err(e),
            Ok(local) => match sequence::try_fold(
                plan.endpoints,
                local,
                endpoint_buffer_step(plan, device_id, overrides),
            ) {
                Err(e) => Err(e),
                Ok(done) => Ok(
                    VulkanPlacedCableIoBuffersView {
                        plan,
                        local_buffers: done.local,
                        incoming_buffers: done.incoming,
                        outgoing_buffers: done.outgoing,
                        total_byte_capacity: done.bytes as usize,
                    },
                ),
            },
        },
    }
}

#[verifier::loop_isolation(false)]
fn find_override<'a>(
    overrides: &'a [VulkanPlacedCableEndpointBufferOverride],
    count: usize,
    direction: VulkanPlacedCableDirection,
    cable_index: usize,
) -> (r: Option<&'a VulkanPlacedCableEndpointBufferOverride>)
    requires
        count <= overrides@.len(),
    ensures
        r.deep_view() == sequence::find_first(
            overrides.deep_view().take(count as int),
            override_matcher(direction, cable_index),
        ),
{
    let ghost all = overrides.deep_view().take(count as int);
    let ghost p = override_matcher(direction, cable_index);
    let mut i: usize = 0;
    while i < count
        invariant
            i <= count,
            forall|j: int| 0 <= j < i ==> !p(#[trigger] all[j]),
        decreases count - i,
    {
        assert(all[i as int] == overrides@[i as int]@);
        if overrides[i].direction == direction && overrides[i].cable_index == cable_index {
            proof {
                sequence::lemma_find_first_at(all, p, i as int);
            }
            return Some(&overrides[i]);
        }
        i += 1;
    }
    proof {
        sequence::lemma_find_first_none(all, p);
    }
    None
}

impl VulkanPlacedCableIoPlan {
    fn accept_override(
        &self,
        device: &VulkanComputeDevice,
        overrides: &[VulkanPlacedCableEndpointBufferOverride],
        i: usize,
    ) -> (r: Result<(), VulkanError>)
        requires
            i < overrides@.len(),
        ensures
            (match r {
                Ok(_) => Ok::<Seq<VulkanPlacedCableEndpointBufferOverrideView>, Seq<char>>(
                    overrides.deep_view().take(i + 1),
                ),
                Err(e) => Err(e@),
            }) == override_accepted(
                self@,
                device@.device_id,
                overrides.deep_view().take(i as int),
                overrides.deep_view()[i as int],
            ),
    {
        reveal(override_accepted);
        let stand_in: &VulkanPlacedCableEndpointBufferOverride = &overrides[i];
        assert(overrides.deep_view()[i as int] == stand_in@);
        assert(overrides.deep_view().take(i + 1) =~= overrides.deep_view().take(i as int).push(
            stand_in@,
        ));
        if find_override(overrides, i, stand_in.direction, stand_in.cable_index).is_some() {
            return Err(
                VulkanError(
                    Message::new("cable endpoint buffer override repeats ").text(
                        name_of_direction(stand_in.direction),
                    ).text(" cable ").number(stand_in.cable_index).text(" on ").quoted(
                        self.device_id.as_str(),
                    ).done(),
                ),
            );
        }
        if stand_in.buffer.device_id != device.device_id {
            return Err(
                VulkanError(
                    Message::new("cable endpoint buffer override for cable ").number(
                        stand_in.cable_index,
                    ).text(" on ").quoted(self.device_id.as_str()).text(
                        " belongs to a different Vulkan logical device",
                    ).done(),
                ),
            );
        }
        let endpoint: &VulkanPlacedCableEndpoint = match self.endpoint(
            stand_in.direction,
            stand_in.cable_index,
        ) {
            Some(endpoint) => endpoint,
            None => return Err(
                VulkanError(
                    Message::new("cable endpoint buffer override does not address ").text(
                        name_of_direction(stand_in.direction),
                    ).text(" cable ").number(stand_in.cable_index).text(" on ").quoted(
                        self.device_id.as_str(),
                    ).done(),
                ),
            ),
        };
        match endpoint.byte_capacity {
            None => Err(self.unknown_endpoint_capacity(endpoint)),
            Some(needed) => {
                if stand_in.buffer.byte_capacity < needed {
                    return Err(
                        VulkanError(
                            Message::new("cable endpoint buffer override for cable ").number(
                                stand_in.cable_index,
                            ).text(" on ").quoted(self.device_id.as_str()).text(" has ").number(
                                stand_in.buffer.byte_capacity,
                            ).text(" bytes, needs ").number(needed).done(),
                        ),
                    );
                }
                Ok(())
            },
        }
    }

    fn unknown_endpoint_capacity(&self, endpoint: &VulkanPlacedCableEndpoint) -> (r: VulkanError)
        ensures
            r@ == unknown_capacity(self@.device_id, endpoint@),
    {
        VulkanError(
            Message::new(self.device_id.as_str()).text(" endpoint ").text(
                endpoint.endpoint_id.as_str(),
            ).text(" for cable ").number(endpoint.cable_index).text(
                " has unknown byte capacity",
            ).done(),
        )
    }

    #[verifier::loop_isolation(false)]
    fn accept_overrides(
        &self,
        device: &VulkanComputeDevice,
        overrides: &[VulkanPlacedCableEndpointBufferOverride],
    ) -> (r: Result<(), VulkanError>)
        ensures
            (match r {
                Ok(_) => Ok::<Seq<VulkanPlacedCableEndpointBufferOverrideView>, Seq<char>>(
                    overrides.deep_view(),
                ),
                Err(e) => Err(e@),
            }) == sequence::try_fold(
                overrides.deep_view(),
                Seq::<VulkanPlacedCableEndpointBufferOverrideView>::empty(),
                override_step(self@, device@.device_id),
            ),
    {
        let ghost all = overrides.deep_view();
        let ghost init = Seq::<VulkanPlacedCableEndpointBufferOverrideView>::empty();
        let ghost step = override_step(self@, device@.device_id);
        let mut i: usize = 0;
        assert(all.take(0) =~= Seq::empty());
        while i < overrides.len()
            invariant
                i <= overrides.len(),
                sequence::try_fold(all.take(i as int), init, step) == Ok::<
                    Seq<VulkanPlacedCableEndpointBufferOverrideView>,
                    Seq<char>,
                >(all.take(i as int)),
            decreases overrides.len() - i,
        {
            proof {
                sequence::lemma_try_fold_step(all, init, step, i as int);
                assert(all[i as int] == overrides@[i as int]@);
            }
            match self.accept_override(device, overrides, i) {
                Ok(_) => {},
                Err(e) => {
                    proof {
                        sequence::lemma_try_fold_error(all, init, step, i + 1);
                    }
                    return Err(e);
                },
            }
            i += 1;
        }
        assert(all.take(all.len() as int) =~= all);
        Ok(())
    }

    /// Describes the buffers of the plan on a device.
    pub fn allocate_buffers(&self, device: &VulkanComputeDevice) -> (r: Result<
        VulkanPlacedCableIoBuffers,
        VulkanError,
    >)
        ensures
            sequence::outcome(r) == cable_io_buffers(self@, device@.device_id, Seq::empty()),
    {
        let none: Vec<VulkanPlacedCableEndpointBufferOverride> = Vec::new();
        assert(none.deep_view() =~= Seq::empty());
        self.allocate_buffers_with_endpoint_overrides(device, none.as_slice())
    }

    /// Describes the buffers of the plan on a device, with given buffers for some endpoints.
    #[verifier::loop_isolation(false)]
    pub fn allocate_buffers_with_endpoint_overrides(
        &self,
        device: &VulkanComputeDevice,
        endpoint_overrides: &[VulkanPlacedCableEndpointBufferOverride],
    ) -> (r: Result<VulkanPlacedCableIoBuffers, VulkanError>)
        ensures
            sequence::outcome(r) == cable_io_buffers(
                self@,
                device@.device_id,
                endpoint_overrides.deep_view(),
            ),
    {
        match self.accept_overrides(device, endpoint_overrides) {
            Ok(_) => {},
            Err(e) => return Err(e),
        }
        let ghost overrides = endpoint_overrides.deep_view();
        let ghost cables = self@.local_cables;
        let ghost cable_step = local_buffer_step(self@, device@.device_id);
        let mut local_buffers: Vec<VulkanPlacedLocalCableBufferAllocation> = Vec::new();
        let mut incoming_buffers: Vec<VulkanPlacedCableBufferAllocation> = Vec::new();
        let mut outgoing_buffers: Vec<VulkanPlacedCableBufferAllocation> = Vec::new();
        let mut total: usize = 0;
        let mut i: usize = 0;
        assert(local_buffers.deep_view() =~= Seq::empty());
        assert(incoming_buffers.deep_view() =~= Seq::empty());
        assert(outgoing_buffers.deep_view() =~= Seq::empty());
        assert(cables.take(0) =~= Seq::empty());
        while i < self.local_cables.len()
            invariant
                i <= self.local_cables.len(),
                incoming_buffers.deep_view() == Seq::<VulkanPlacedCableBufferAllocationView>::empty(),
                outgoing_buffers.deep_view() == Seq::<VulkanPlacedCableBufferAllocationView>::empty(),
                sequence::try_fold(cables.take(i as int), no_cable_buffers(), cable_step) == Ok::<
                    CableBuffersView,
                    Seq<char>,
                >(
                    CableBuffersView {
                        local: local_buffers.deep_view(),
                        incoming: incoming_buffers.deep_view(),
                        outgoing: outgoing_buffers.deep_view(),
                        bytes: total as nat,
                    },
                ),
            decreases self.local_cables.len() - i,
        {
            let cable: &VulkanPlacedLocalCable = &self.local_cables[i];
            proof {
                reveal(local_described);
                sequence::lemma_try_fold_step(cables, no_cable_buffers(), cable_step, i as int);
                assert(cables[i as int] == cable@);
                if sequence::try_fold(cables.take(i + 1), no_cable_buffers(), cable_step) is Err {
                    sequence::lemma_try_fold_error(cables, no_cable_buffers(), cable_step, i + 1);
                }
            }
            let byte_capacity: usize = match cable.byte_capacity {
                Some(bytes) => bytes,
                None => return Err(
                    VulkanError(
                        Message::new(self.device_id.as_str()).text(" local cable ").number(
                            cable.cable_index,
                        ).text(" has unknown byte capacity").done(),
                    ),
                ),
            };
            total = match device::checked_add_bytes(
                total,
                byte_capacity,
                "placed local cable buffer allocation",
            ) {
                Ok(total) => total,
                Err(e) => return Err(e),
            };
            let ghost before = local_buffers.deep_view();
            let allocation = VulkanPlacedLocalCableBufferAllocation {
                cable: cable.clone(),
                byte_capacity,
                buffer: VulkanResidentBuffer::in_device_memory(
                    VulkanResidentBufferName::LocalSignal(cable.cable_index),
                    device.device_id.as_str(),
                    byte_capacity,
                ),
            };
            let ghost added = allocation@;
            local_buffers.push(allocation);
            assert(local_buffers.deep_view() =~= before.push(added));
            i += 1;
        }
        assert(cables.take(cables.len() as int) =~= cables);
        let ghost local = CableBuffersView {
            local: local_buffers.deep_view(),
            incoming: Seq::empty(),
            outgoing: Seq::empty(),
            bytes: total as nat,
        };
        let ghost ends = self@.endpoints;
        let ghost end_step = endpoint_buffer_step(self@, device@.device_id, overrides);
        let mut k: usize = 0;
        assert(ends.take(0) =~= Seq::empty());
        while k < self.endpoints.len()
            invariant
                k <= self.endpoints.len(),
                sequence::try_fold(ends.take(k as int), local, end_step) == Ok::<
                    CableBuffersView,
                    Seq<char>,
                >(
                    CableBuffersView {
                        local: local_buffers.deep_view(),
                        incoming: incoming_buffers.deep_view(),
                        outgoing: outgoing_buffers.deep_view(),
                        bytes: total as nat,
                    },
                ),
            decreases self.endpoints.len() - k,
        {
            let endpoint: &VulkanPlacedCableEndpoint = &self.endpoints[k];
            proof {
                reveal(endpoint_described);
                sequence::lemma_try_fold_step(ends, local, end_step, k as int);
                assert(ends[k as int] == endpoint@);
                if sequence::try_fold(ends.take(k + 1), local, end_step) is Err {
                    sequence::lemma_try_fold_error(ends, local, end_step, k + 1);
                }
                assert(overrides.take(overrides.len() as int) =~= overrides);
            }
            let byte_capacity: usize = match endpoint.byte_capacity {
                Some(bytes) => bytes,
                None => return Err(self.unknown_endpoint_capacity(endpoint)),
            };
            total = match device::checked_add_bytes(
                total,
                byte_capacity,
                "placed cable endpoint buffer allocation",
            ) {
                Ok(total) => total,
                Err(e) => return Err(e),
            };
            let buffer: VulkanResidentBuffer = match find_override(
                endpoint_overrides,
                endpoint_overrides.len(),
                endpoint.direction,
                endpoint.cable_index,
            ) {
                Some(stand_in) => stand_in.buffer.clone(),
                None => VulkanResidentBuffer::persistently_mapped(
                    name_of_endpoint(endpoint.direction, endpoint.cable_index),
                    device.device_id.as_str(),
                    byte_capacity,
                ),
            };
            let allocation = VulkanPlacedCableBufferAllocation {
                endpoint: endpoint.clone(),
                byte_capacity,
                buffer,
            };
            let ghost added = allocation@;
            let ghost incoming_before = incoming_buffers.deep_view();
            let ghost outgoing_before = outgoing_buffers.deep_view();
            match endpoint.direction {
                VulkanPlacedCableDirection::Incoming => {
                    incoming_buffers.push(allocation);
                    assert(incoming_buffers.deep_view() =~= incoming_before.push(added));
                },
                VulkanPlacedCableDirection::Outgoing => {
                    outgoing_buffers.push(allocation);
                    assert(outgoing_buffers.deep_view() =~= outgoing_before.push(added));
                },
            }
            k += 1;
        }
        assert(ends.take(ends.len() as int) =~= ends);
        Ok(
            VulkanPlacedCableIoBuffers {
                plan: self.clone(),
                local_buffers,
                incoming_buffers,
                outgoing_buffers,
                total_byte_capacity: total,
            },
        )
    }
}

/// A local cable stays on its device and keeps what its placement says of its ends and its signal. It
/// has as many bytes as its elements take, where it is known what an element takes.
pub proof fn local_cables_keep_their_ends(
    buffer_index: int,
    device_id: Seq<char>,
    placement: ComponentEdgePlacementView,
    element_bytes: Option<usize>,
)
    requires
        local_cable(buffer_index, device_id, placement, element_bytes) is Ok,
        0 <= buffer_index <= usize::MAX,
    ensures
        ({
            let cable = local_cable(buffer_index, device_id, placement, element_bytes)->Ok_0;
            &&& placement.transport is LocalBuffer
            &&& placement.source_device_id == device_id
            &&& placement.destination_device_id == device_id
            &&& cable.device_id == device_id
            &&& cable.buffer_index == buffer_index
            &&& cable.cable_index == placement.edge_index
            &&& cable.signal == placement.signal
            &&& cable.shape == placement.shape
            &&& cable.transport == placement.transport
            &&& cable.source_pedal_id == placement.source_component_id
            &&& cable.source_port_id == placement.source_port_id
            &&& cable.source_pedal_port == placement.source_component_port
            &&& cable.destination_pedal_id == placement.destination_component_id
            &&& cable.destination_port_id == placement.destination_port_id
            &&& cable.destination_pedal_port == placement.destination_component_port
            &&& cable.element_count > 0
            &&& arithmetic::checked_product(1, placement.shape) == Some(cable.element_count as nat)
            &&& element_bytes is None ==> cable.byte_capacity is None
            &&& element_bytes matches Some(bytes) ==> cable.byte_capacity matches Some(capacity)
                && capacity == cable.element_count * bytes
        }),
{
    reveal(local_cable);
    assert(arithmetic::checked_product(1, placement.shape) is Some);
    lemma_elements_fit(placement.shape);
}

proof fn lemma_elements_fit(shape: Seq<usize>)
    requires
        arithmetic::checked_product(1, shape) is Some,
    ensures
        arithmetic::checked_product(1, shape)->Some_0 <= usize::MAX,
{
}

/// The two ends of a cable between devices meet. The outgoing end lies on the device of the cable's
/// source and the incoming end on that of its destination, each with its own pedal and port; what
/// is remote to one is local to the other. Both carry the same signal in the same number of bytes,
/// and their packets have the same key.
pub proof fn both_ends_of_cables_meet(
    outgoing_index: int,
    incoming_index: int,
    from_device_id: Seq<char>,
    to_device_id: Seq<char>,
    placement: ComponentEdgePlacementView,
    element_bytes: Option<usize>,
)
    requires
        cable_endpoint(
            outgoing_index,
            VulkanPlacedCableDirection::Outgoing,
            from_device_id,
            placement,
            element_bytes,
        ) is Ok,
        cable_endpoint(
            incoming_index,
            VulkanPlacedCableDirection::Incoming,
            to_device_id,
            placement,
            element_bytes,
        ) is Ok,
        0 <= outgoing_index <= usize::MAX,
        0 <= incoming_index <= usize::MAX,
    ensures
        ({
            let outgoing = cable_endpoint(
                outgoing_index,
                VulkanPlacedCableDirection::Outgoing,
                from_device_id,
                placement,
                element_bytes,
            )->Ok_0;
            let incoming = cable_endpoint(
                incoming_index,
                VulkanPlacedCableDirection::Incoming,
                to_device_id,
                placement,
                element_bytes,
            )->Ok_0;
            &&& placement.transport == (EdgeTransportView::CrossDevice {
                from_device_id,
                to_device_id,
            })
            &&& outgoing.direction is Outgoing
            &&& incoming.direction is Incoming
            &&& outgoing.endpoint_index == outgoing_index
            &&& incoming.endpoint_index == incoming_index
            &&& outgoing.cable_index == placement.edge_index
            &&& outgoing.signal == placement.signal
            &&& outgoing.shape == placement.shape
            &&& outgoing.local_device_id == from_device_id
            &&& outgoing.local_pedal_id == placement.source_component_id
            &&& outgoing.local_port_id == placement.source_port_id
            &&& outgoing.local_pedal_port == placement.source_component_port
            &&& incoming.local_device_id == to_device_id
            &&& incoming.local_pedal_id == placement.destination_component_id
            &&& incoming.local_port_id == placement.destination_port_id
            &&& incoming.local_pedal_port == placement.destination_component_port
            &&& outgoing.remote_device_id == incoming.local_device_id
            &&& outgoing.remote_pedal_id == incoming.local_pedal_id
            &&& outgoing.remote_port_id == incoming.local_port_id
            &&& outgoing.remote_pedal_port == incoming.local_pedal_port
            &&& incoming.remote_device_id == outgoing.local_device_id
            &&& incoming.remote_pedal_id == outgoing.local_pedal_id
            &&& incoming.remote_port_id == outgoing.local_port_id
            &&& incoming.remote_pedal_port == outgoing.local_pedal_port
            &&& incoming.cable_index == outgoing.cable_index
            &&& incoming.signal == outgoing.signal
            &&& incoming.shape == outgoing.shape
            &&& incoming.transport == outgoing.transport
            &&& incoming.element_count == outgoing.element_count
            &&& incoming.byte_capacity == outgoing.byte_capacity
            &&& arithmetic::checked_product(1, placement.shape) == Some(
                outgoing.element_count as nat,
            )
            &&& element_bytes matches Some(bytes) ==> outgoing.byte_capacity matches Some(capacity)
                && capacity == outgoing.element_count * bytes
            &&& element_bytes is None ==> outgoing.byte_capacity is None
            &&& buffers::outgoing_key(outgoing) == buffers::incoming_key(incoming)
            &&& buffers::outgoing_key(outgoing).cable_index == placement.edge_index
            &&& buffers::outgoing_key(outgoing).from_device_id == from_device_id
            &&& buffers::outgoing_key(outgoing).to_device_id == to_device_id
        }),
{
    reveal(cable_endpoint);
    lemma_elements_fit(placement.shape);
}

proof fn lemma_local_cables_planned(
    placements: Seq<ComponentEdgePlacementView>,
    device_id: Seq<char>,
    element_bytes: Option<usize>,
    i: int,
)
    requires
        sequence::try_fold(
            placements,
            Seq::<VulkanPlacedLocalCableView>::empty(),
            local_step(device_id, element_bytes),
        ) is Ok,
    ensures
        ({
            let done = sequence::try_fold(
                placements,
                Seq::<VulkanPlacedLocalCableView>::empty(),
                local_step(device_id, element_bytes),
            )->Ok_0;
            &&& done.len() == placements.len()
            &&& 0 <= i < placements.len() ==> local_cable(
                i,
                device_id,
                placements[i],
                element_bytes,
            ) == Ok::<VulkanPlacedLocalCableView, Seq<char>>(done[i])
        }),
    decreases placements.len(),
{
    if placements.len() > 0 {
        lemma_local_cables_planned(placements.drop_last(), device_id, element_bytes, i);
    }
}

proof fn lemma_endpoints_planned(
    given: Seq<VulkanPlacedCableEndpointView>,
    placements: Seq<ComponentEdgePlacementView>,
    direction: VulkanPlacedCableDirection,
    device_id: Seq<char>,
    element_bytes: Option<usize>,
    i: int,
)
    requires
        sequence::try_fold(
            placements,
            given,
            endpoint_step(direction, device_id, element_bytes),
        ) is Ok,
    ensures
        ({
            let done = sequence::try_fold(
                placements,
                given,
                endpoint_step(direction, device_id, element_bytes),
            )->Ok_0;
            &&& done.len() == given.len() + placements.len()
            &&& 0 <= i < given.len() ==> done[i] == given[i]
            &&& 0 <= i < placements.len() ==> cable_endpoint(
                given.len() + i,
                direction,
                device_id,
                placements[i],
                element_bytes,
            ) == Ok::<VulkanPlacedCableEndpointView, Seq<char>>(done[given.len() + i])
        }),
    decreases placements.len(),
{
    if placements.len() > 0 {
        lemma_endpoints_planned(
            given,
            placements.drop_last(),
            direction,
            device_id,
            element_bytes,
            i,
        );
    }
}

/// The bytes of a cable, as far as they are known.
pub open spec fn known_bytes() -> spec_fn((usize, Option<usize>)) -> nat {
    |capacity: (usize, Option<usize>)|
        match capacity.1 {
            Some(bytes) => bytes as nat,
            None => 0,
        }
}

proof fn lemma_capacities_add_up(capacities: Seq<(usize, Option<usize>)>)
    requires
        sequence::try_fold(capacities, Some(0usize), capacity_step()) is Ok,
    ensures
        ({
            let total = sequence::try_fold(capacities, Some(0usize), capacity_step())->Ok_0;
            &&& total is Some <==> unresolved_cables(capacities).len() == 0
            &&& total matches Some(bytes) ==> bytes == sequence::total(capacities, known_bytes())
        }),
    decreases capacities.len(),
{
    if capacities.len() > 0 {
        lemma_capacities_add_up(capacities.drop_last());
    }
}

/// A device plans its cables in the given order, the incoming ends before the outgoing ones. It counts
/// each sort by itself, and knows how many bytes all of them take exactly where it knows that of each.
pub proof fn cables_are_planned_in_order(
    placed: VulkanPlacedStreamCircuitResidentPlanView,
    i: int,
)
    requires
        cable_io_plan(placed) is Ok,
        0 <= i,
        placed.local_edges.len() + placed.incoming_edges.len() + placed.outgoing_edges.len()
            <= usize::MAX,
    ensures
        ({
            let plan = cable_io_plan(placed)->Ok_0;
            let incoming = placed.incoming_edges.len();
            let capacities = cable_capacities(plan.local_cables, plan.endpoints);
            &&& plan.device_id == placed.device_id
            &&& plan.signal_element_bytes == placed.signal_element_bytes
            &&& plan.local_cables.len() == placed.local_edges.len()
            &&& plan.endpoints.len() == incoming + placed.outgoing_edges.len()
            &&& plan.local_cable_count == placed.local_edges.len()
            &&& plan.incoming_endpoint_count == incoming
            &&& plan.outgoing_endpoint_count == placed.outgoing_edges.len()
            &&& plan.total_endpoint_count == plan.incoming_endpoint_count
                + plan.outgoing_endpoint_count
            &&& plan.total_buffer_count == plan.local_cable_count + plan.total_endpoint_count
            &&& i < placed.local_edges.len() ==> {
                let placement = placed.local_edges[i];
                &&& plan.local_cables[i].cable_index == placement.edge_index
                &&& plan.local_cables[i].buffer_index == i
                &&& plan.local_cables[i].device_id == placed.device_id
            }
            &&& i < incoming ==> {
                let placement = placed.incoming_edges[i];
                &&& plan.endpoints[i].cable_index == placement.edge_index
                &&& plan.endpoints[i].endpoint_index == i
                &&& plan.endpoints[i].direction is Incoming
                &&& plan.endpoints[i].local_device_id == placed.device_id
            }
            &&& i < placed.outgoing_edges.len() ==> {
                let placement = placed.outgoing_edges[i];
                &&& plan.endpoints[incoming + i].cable_index == placement.edge_index
                &&& plan.endpoints[incoming + i].endpoint_index == incoming + i
                &&& plan.endpoints[incoming + i].direction is Outgoing
                &&& plan.endpoints[incoming + i].local_device_id == placed.device_id
            }
            &&& plan.total_byte_capacity is Some <==> plan.unresolved_byte_cables.len() == 0
            &&& plan.total_byte_capacity matches Some(bytes) ==> bytes == sequence::total(
                capacities,
                known_bytes(),
            )
        }),
{
    reveal(local_cable);
    reveal(cable_endpoint);
    let bytes = placed.signal_element_bytes;
    let plan = cable_io_plan(placed)->Ok_0;
    let none = Seq::<VulkanPlacedCableEndpointView>::empty();
    let incoming = sequence::try_fold(
        placed.incoming_edges,
        none,
        endpoint_step(VulkanPlacedCableDirection::Incoming, placed.device_id, bytes),
    )->Ok_0;
    lemma_local_cables_planned(placed.local_edges, placed.device_id, bytes, i);
    lemma_endpoints_planned(
        none,
        placed.incoming_edges,
        VulkanPlacedCableDirection::Incoming,
        placed.device_id,
        bytes,
        i,
    );
    lemma_endpoints_planned(
        incoming,
        placed.outgoing_edges,
        VulkanPlacedCableDirection::Outgoing,
        placed.device_id,
        bytes,
        i,
    );
    lemma_capacities_add_up(cable_capacities(plan.local_cables, plan.endpoints));
}

proof fn lemma_local_buffers_made(
    plan: VulkanPlacedCableIoPlanView,
    device_id: Seq<char>,
    cables: Seq<VulkanPlacedLocalCableView>,
    i: int,
)
    requires
        sequence::try_fold(cables, no_cable_buffers(), local_buffer_step(plan, device_id)) is Ok,
    ensures
        ({
            let done = sequence::try_fold(
                cables,
                no_cable_buffers(),
                local_buffer_step(plan, device_id),
            )->Ok_0;
            &&& done.local.len() == cables.len()
            &&& done.incoming.len() == 0
            &&& done.outgoing.len() == 0
            &&& 0 <= i < cables.len() ==> {
                &&& done.local[i].cable == cables[i]
                &&& cables[i].byte_capacity == Some(done.local[i].byte_capacity)
                &&& done.local[i].buffer.device_id == device_id
                &&& done.local[i].buffer.byte_capacity == done.local[i].byte_capacity
                &&& done.local[i].buffer.name == VulkanResidentBufferName::LocalSignal(
                    cables[i].cable_index,
                )
            }
        }),
    decreases cables.len(),
{
    if cables.len() > 0 {
        let front = cables.drop_last();
        lemma_local_buffers_made(plan, device_id, front, i);
        reveal(local_described);
        let step = local_buffer_step(plan, device_id);
        let before = sequence::try_fold(front, no_cable_buffers(), step)->Ok_0;
        let after = sequence::try_fold(cables, no_cable_buffers(), step)->Ok_0;
        assert(local_described(plan, device_id, before, cables.last()) == Ok::<
            CableBuffersView,
            Seq<char>,
        >(after));
    }
}

/// Whether an endpoint goes this way.
pub open spec fn goes(direction: VulkanPlacedCableDirection) -> spec_fn(
    VulkanPlacedCableEndpointView,
) -> bool {
    |endpoint: VulkanPlacedCableEndpointView| endpoint.direction == direction
}

/// Whether a buffer is that of an endpoint: it has the endpoint's bytes, and it is the first one that
/// was given for the endpoint's cable and direction, or a new one of the endpoint's own that stays
/// mapped.
pub open spec fn is_buffer_of(
    made: VulkanPlacedCableBufferAllocationView,
    endpoint: VulkanPlacedCableEndpointView,
    device_id: Seq<char>,
    overrides: Seq<VulkanPlacedCableEndpointBufferOverrideView>,
) -> bool {
    &&& made.endpoint == endpoint
    &&& endpoint.byte_capacity == Some(made.byte_capacity)
    &&& {
        ||| exists|k: int|
            0 <= k < overrides.len() && {
                let given = #[trigger] overrides[k];
                &&& given.direction == endpoint.direction
                &&& given.cable_index == endpoint.cable_index
                &&& made.buffer == given.buffer
            }
        ||| {
            &&& forall|k: int|
                0 <= k < overrides.len() ==> !((#[trigger] overrides[k]).direction
                    == endpoint.direction && overrides[k].cable_index == endpoint.cable_index)
            &&& made.buffer.device_id == device_id
            &&& made.buffer.byte_capacity == made.byte_capacity
            &&& made.buffer.persistently_mapped
            &&& endpoint.direction is Incoming ==> made.buffer.name
                == VulkanResidentBufferName::IncomingSignal(endpoint.cable_index)
            &&& endpoint.direction is Outgoing ==> made.buffer.name
                == VulkanResidentBufferName::OutgoingSignal(endpoint.cable_index)
        }
    }
}

proof fn lemma_endpoint_buffers_made(
    plan: VulkanPlacedCableIoPlanView,
    device_id: Seq<char>,
    overrides: Seq<VulkanPlacedCableEndpointBufferOverrideView>,
    given: CableBuffersView,
    endpoints: Seq<VulkanPlacedCableEndpointView>,
    i: int,
)
    requires
        given.incoming.len() == 0,
        given.outgoing.len() == 0,
        sequence::try_fold(
            endpoints,
            given,
            endpoint_buffer_step(plan, device_id, overrides),
        ) is Ok,
    ensures
        ({
            let done = sequence::try_fold(
                endpoints,
                given,
                endpoint_buffer_step(plan, device_id, overrides),
            )->Ok_0;
            let into = goes(VulkanPlacedCableDirection::Incoming);
            let out = goes(VulkanPlacedCableDirection::Outgoing);
            &&& done.local == given.local
            &&& done.incoming.len() == sequence::count(endpoints, into)
            &&& done.outgoing.len() == sequence::count(endpoints, out)
            &&& 0 <= i < endpoints.len() && endpoints[i].direction is Incoming ==> {
                let at = sequence::count(endpoints.take(i), into) as int;
                &&& at < done.incoming.len()
                &&& is_buffer_of(done.incoming[at], endpoints[i], device_id, overrides)
            }
            &&& 0 <= i < endpoints.len() && endpoints[i].direction is Outgoing ==> {
                let at = sequence::count(endpoints.take(i), out) as int;
                &&& at < done.outgoing.len()
                &&& is_buffer_of(done.outgoing[at], endpoints[i], device_id, overrides)
            }
        }),
    decreases endpoints.len(),
{
    if endpoints.len() > 0 {
        let front = endpoints.drop_last();
        let last = endpoints.last();
        lemma_endpoint_buffers_made(plan, device_id, overrides, given, front, i);
        reveal(endpoint_described);
        let step = endpoint_buffer_step(plan, device_id, overrides);
        let before = sequence::try_fold(front, given, step)->Ok_0;
        let after = sequence::try_fold(endpoints, given, step)->Ok_0;
        assert(endpoint_described(plan, device_id, overrides, before, last) == Ok::<
            CableBuffersView,
            Seq<char>,
        >(after));
        if 0 <= i < front.len() {
            assert(front.take(i) =~= endpoints.take(i));
            assert(front[i] == endpoints[i]);
        } else if i == front.len() {
            assert(endpoints.take(i) =~= front);
            let p = override_matcher(last.direction, last.cable_index);
            if sequence::find_first(overrides, p) is Some {
                let k = sequence::lemma_find_first_some(overrides, p);
                assert(overrides[k].direction == last.direction);
            } else {
                sequence::lemma_find_none_all(overrides, p);
                assert forall|k: int| 0 <= k < overrides.len() implies !((
                #[trigger] overrides[k]).direction == last.direction && overrides[k].cable_index
                    == last.cable_index) by {
                    assert(!p(overrides[k]));
                }
            }
        }
    }
}

/// Every planned cable of a device has its buffer, in the planned order: a local cable one of its own on
/// the device, an incoming or an outgoing end the one that was given for it or one of its own.
pub proof fn every_cable_has_its_buffer(
    plan: VulkanPlacedCableIoPlanView,
    device_id: Seq<char>,
    overrides: Seq<VulkanPlacedCableEndpointBufferOverrideView>,
    i: int,
)
    requires
        cable_io_buffers(plan, device_id, overrides) is Ok,
        0 <= i,
    ensures
        ({
            let made = cable_io_buffers(plan, device_id, overrides)->Ok_0;
            let into = goes(VulkanPlacedCableDirection::Incoming);
            let out = goes(VulkanPlacedCableDirection::Outgoing);
            &&& made.plan == plan
            &&& made.local_buffers.len() == plan.local_cables.len()
            &&& made.incoming_buffers.len() == sequence::count(plan.endpoints, into)
            &&& made.outgoing_buffers.len() == sequence::count(plan.endpoints, out)
            &&& i < plan.local_cables.len() ==> {
                let local = made.local_buffers[i];
                &&& local.cable == plan.local_cables[i]
                &&& plan.local_cables[i].byte_capacity == Some(local.byte_capacity)
                &&& local.buffer.device_id == device_id
                &&& local.buffer.byte_capacity == local.byte_capacity
                &&& local.buffer.name == VulkanResidentBufferName::LocalSignal(
                    plan.local_cables[i].cable_index,
                )
            }
            &&& i < plan.endpoints.len() && plan.endpoints[i].direction is Incoming ==> {
                let at = sequence::count(plan.endpoints.take(i), into) as int;
                &&& at < made.incoming_buffers.len()
                &&& is_buffer_of(made.incoming_buffers[at], plan.endpoints[i], device_id, overrides)
            }
            &&& i < plan.endpoints.len() && plan.endpoints[i].direction is Outgoing ==> {
                let at = sequence::count(plan.endpoints.take(i), out) as int;
                &&& at < made.outgoing_buffers.len()
                &&& is_buffer_of(made.outgoing_buffers[at], plan.endpoints[i], device_id, overrides)
            }
        }),
{
    let local = sequence::try_fold(
        plan.local_cables,
        no_cable_buffers(),
        local_buffer_step(plan, device_id),
    )->Ok_0;
    lemma_local_buffers_made(plan, device_id, plan.local_cables, i);
    lemma_endpoint_buffers_made(plan, device_id, overrides, local, plan.endpoints, i);
}

/// An endpoint is found by its direction and its index: the first that has both, and none where
/// none has.
pub proof fn endpoints_are_found_by_direction(
    all: Seq<VulkanPlacedCableEndpointView>,
    direction: VulkanPlacedCableDirection,
    cable_index: usize,
    j: int,
)
    ensures
        match sequence::find_first(all, endpoint_matcher(direction, cable_index)) {
            Some(found) => exists|i: int|
                {
                    &&& 0 <= i < all.len()
                    &&& found == #[trigger] all[i]
                    &&& all[i].direction == direction
                    &&& all[i].cable_index == cable_index
                    &&& 0 <= j < i ==> !(all[j].direction == direction && all[j].cable_index == cable_index)
                },
            None => 0 <= j < all.len() ==> !(all[j].direction == direction && all[j].cable_index == cable_index),
        },
{
    let p = endpoint_matcher(direction, cable_index);
    if 0 <= j < all.len() {
        assert(p(all[j]) <==> all[j].direction == direction && all[j].cable_index == cable_index);
    }
    if sequence::find_first(all, p) is Some {
        let i = sequence::lemma_find_first_some(all, p);
        assert(p(all[i]));
        assert(sequence::find_first(all, p)->Some_0 == all[i]);
    } else {
        sequence::lemma_find_none_all(all, p);
    }
}

} // verus!
