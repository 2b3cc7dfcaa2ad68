//! Moving signals between devices of one process.
//!
//! A signal either travels as a packet, or lies in memory that both ends share or that is copied
//! directly. What a device has to do (read a buffer, run a copy, write a buffer) is asked for by
//! one function, and its answer handed to another.

use crate::device::VulkanError;
use crate::device::VulkanResidentMappedBufferCopy;
use crate::device::VulkanResidentMappedBufferCopyView;
use crate::device;
use crate::edges::buffers;
use crate::edges::buffers::VulkanPlacedEdgeBufferAllocation;
use crate::edges::buffers::VulkanPlacedEdgeBufferAllocationView;
use crate::edges::buffers::VulkanPlacedEdgeIoBuffers;
use crate::edges::buffers::VulkanPlacedEdgeIoBuffersView;
use crate::edges::buffers::VulkanPlacedEdgePacket;
use crate::edges::buffers::VulkanPlacedEdgePacketKey;
use crate::edges::buffers::VulkanPlacedEdgePacketKeyView;
use crate::edges::buffers::VulkanPlacedEdgePacketView;
use crate::edges::buffers::VulkanPlacedEdgeTransportReceipt;
use crate::edges::buffers::VulkanPlacedEdgeTransportReceiptView;
use crate::edges::buffers::VulkanPlacedEdgeTransportReceiveBatch;
use crate::edges::buffers::VulkanPlacedEdgeTransportReceiveBatchView;
use crate::edges::buffers::VulkanPlacedEdgeTransportStats;
use crate::edges::buffers::VulkanPlacedEdgeTransportStatsView;
use crate::ordered;
use crate::ordered::OrderedMap;
use crate::ordered::OrderedSet;
use crate::ordered::SortKey;
use crate::sequence;
use crate::text;
use crate::text::Message;
use vstd::prelude::*;

verus! {

/// Why a signal was not moved.
#[derive(Debug, PartialEq, Eq)]
pub enum VulkanPlacedEdgeTransportError {
    MissingOutgoingEdge { device_id: String, edge_index: usize },
    MissingIncomingEdge { device_id: String, edge_index: usize },
    MissingPacket { key: VulkanPlacedEdgePacketKey },
    ByteCapacityMismatch {
        key: VulkanPlacedEdgePacketKey,
        packet_byte_count: usize,
        incoming_byte_capacity: usize,
    },
    EndpointMismatch {
        outgoing_key: VulkanPlacedEdgePacketKey,
        incoming_key: VulkanPlacedEdgePacketKey,
    },
    Vulkan { operation: String, error: VulkanError },
}

#[verifier::ext_equal]
pub enum VulkanPlacedEdgeTransportErrorView {
    MissingOutgoingEdge { device_id: Seq<char>, edge_index: usize },
    MissingIncomingEdge { device_id: Seq<char>, edge_index: usize },
    MissingPacket { key: VulkanPlacedEdgePacketKeyView },
    ByteCapacityMismatch { key: VulkanPlacedEdgePacketKeyView, packet_byte_count: usize, incoming_byte_capacity: usize },
    EndpointMismatch { outgoing_key: VulkanPlacedEdgePacketKeyView, incoming_key: VulkanPlacedEdgePacketKeyView },
    Vulkan { operation: Seq<char>, error: Seq<char> },
}

impl DeepView for VulkanPlacedEdgeTransportError {
    type V = VulkanPlacedEdgeTransportErrorView;

    open spec fn deep_view(&self) -> VulkanPlacedEdgeTransportErrorView {
        match self {
            VulkanPlacedEdgeTransportError::MissingOutgoingEdge { device_id, edge_index } => VulkanPlacedEdgeTransportErrorView::MissingOutgoingEdge { device_id: device_id.deep_view(), edge_index: *edge_index },
            VulkanPlacedEdgeTransportError::MissingIncomingEdge { device_id, edge_index } => VulkanPlacedEdgeTransportErrorView::MissingIncomingEdge { device_id: device_id.deep_view(), edge_index: *edge_index },
            VulkanPlacedEdgeTransportError::MissingPacket { key } => VulkanPlacedEdgeTransportErrorView::MissingPacket { key: key.deep_view() },
            VulkanPlacedEdgeTransportError::ByteCapacityMismatch { key, packet_byte_count, incoming_byte_capacity } => VulkanPlacedEdgeTransportErrorView::ByteCapacityMismatch { key: key.deep_view(), packet_byte_count: *packet_byte_count, incoming_byte_capacity: *incoming_byte_capacity },
            VulkanPlacedEdgeTransportError::EndpointMismatch { outgoing_key, incoming_key } => VulkanPlacedEdgeTransportErrorView::EndpointMismatch { outgoing_key: outgoing_key.deep_view(), incoming_key: incoming_key.deep_view() },
            VulkanPlacedEdgeTransportError::Vulkan { operation, error } => VulkanPlacedEdgeTransportErrorView::Vulkan { operation: operation.deep_view(), error: error.deep_view() },
        }
    }
}

impl View for VulkanPlacedEdgeTransportError {
    type V = VulkanPlacedEdgeTransportErrorView;

    open spec fn view(&self) -> VulkanPlacedEdgeTransportErrorView {
        self.deep_view()
    }
}

impl Clone for VulkanPlacedEdgeTransportError {
    fn clone(&self) -> (r: Self)
        ensures
            r@ == self@,
    {
        match self {
            VulkanPlacedEdgeTransportError::MissingOutgoingEdge { device_id, edge_index } => VulkanPlacedEdgeTransportError::MissingOutgoingEdge { device_id: device_id.clone(), edge_index: *edge_index },
            VulkanPlacedEdgeTransportError::MissingIncomingEdge { device_id, edge_index } => VulkanPlacedEdgeTransportError::MissingIncomingEdge { device_id: device_id.clone(), edge_index: *edge_index },
            VulkanPlacedEdgeTransportError::MissingPacket { key } => VulkanPlacedEdgeTransportError::MissingPacket { key: key.clone() },
            VulkanPlacedEdgeTransportError::ByteCapacityMismatch { key, packet_byte_count, incoming_byte_capacity } => VulkanPlacedEdgeTransportError::ByteCapacityMismatch { key: key.clone(), packet_byte_count: *packet_byte_count, incoming_byte_capacity: *incoming_byte_capacity },
            VulkanPlacedEdgeTransportError::EndpointMismatch { outgoing_key, incoming_key } => VulkanPlacedEdgeTransportError::EndpointMismatch { outgoing_key: outgoing_key.clone(), incoming_key: incoming_key.clone() },
            VulkanPlacedEdgeTransportError::Vulkan { operation, error } => VulkanPlacedEdgeTransportError::Vulkan { operation: operation.clone(), error: error.clone() },
        }
    }
}

/// An edge and its two devices, as a message names them.
pub open spec fn key_text(key: VulkanPlacedEdgePacketKeyView) -> Seq<char> {
    "edge "@ + text::decimal(key.edge_index as nat) + " from "@ + text::quoted(key.from_device_id)
        + " to "@ + text::quoted(key.to_device_id)
}

/// What an error says.
pub open spec fn transport_message(error: VulkanPlacedEdgeTransportErrorView) -> Seq<char> {
    match error {
        VulkanPlacedEdgeTransportErrorView::MissingOutgoingEdge { device_id, edge_index } => {
            "device "@ + text::quoted(device_id) + " has no outgoing edge buffer for edge "@
                + text::decimal(edge_index as nat)
        },
        VulkanPlacedEdgeTransportErrorView::MissingIncomingEdge { device_id, edge_index } => {
            "device "@ + text::quoted(device_id) + " has no incoming edge buffer for edge "@
                + text::decimal(edge_index as nat)
        },
        VulkanPlacedEdgeTransportErrorView::MissingPacket { key } => {
            "no in-process edge packet for "@ + key_text(key)
        },
        VulkanPlacedEdgeTransportErrorView::ByteCapacityMismatch {
            key,
            packet_byte_count,
            incoming_byte_capacity,
        } => {
            "in-process edge packet for "@ + key_text(key) + " has "@ + text::decimal(
                packet_byte_count as nat,
            ) + " bytes, but incoming buffer has "@ + text::decimal(incoming_byte_capacity as nat)
                + " bytes"@
        },
        VulkanPlacedEdgeTransportErrorView::EndpointMismatch { outgoing_key, incoming_key } => {
            "direct in-process edge endpoint mismatch: outgoing "@ + key_text(outgoing_key)
                + ", incoming "@ + key_text(incoming_key)
        },
        VulkanPlacedEdgeTransportErrorView::Vulkan { operation, error } => {
            operation + " failed: "@ + error
        },
    }
}

fn write_key(key: &VulkanPlacedEdgePacketKey) -> (r: String)
    ensures
        r@ == key_text(key@),
{
    Message::new("edge ").number(key.edge_index).text(" from ").quoted(
        key.from_device_id.as_str(),
    ).text(" to ").quoted(key.to_device_id.as_str()).done()
}

impl VulkanPlacedEdgeTransportError {
    /// The message.
    pub fn to_string(&self) -> (r: String)
        ensures
            r@ == transport_message(self@),
    {
        match self {
            VulkanPlacedEdgeTransportError::MissingOutgoingEdge { device_id, edge_index } => {
                Message::new("device ").quoted(device_id.as_str()).text(
                    " has no outgoing edge buffer for edge ",
                ).number(*edge_index).done()
            },
            VulkanPlacedEdgeTransportError::MissingIncomingEdge { device_id, edge_index } => {
                Message::new("device ").quoted(device_id.as_str()).text(
                    " has no incoming edge buffer for edge ",
                ).number(*edge_index).done()
            },
            VulkanPlacedEdgeTransportError::MissingPacket { key } => {
                Message::new("no in-process edge packet for ").text(write_key(key).as_str()).done()
            },
            VulkanPlacedEdgeTransportError::ByteCapacityMismatch {
                key,
                packet_byte_count,
                incoming_byte_capacity,
            } => {
                Message::new("in-process edge packet for ").text(write_key(key).as_str()).text(
                    " has ",
                ).number(*packet_byte_count).text(" bytes, but incoming buffer has ").number(
                    *incoming_byte_capacity,
                ).text(" bytes").done()
            },
            VulkanPlacedEdgeTransportError::EndpointMismatch { outgoing_key, incoming_key } => {
                Message::new("direct in-process edge endpoint mismatch: outgoing ").text(
                    write_key(outgoing_key).as_str(),
                ).text(", incoming ").text(write_key(incoming_key).as_str()).done()
            },
            VulkanPlacedEdgeTransportError::Vulkan { operation, error } => {
                Message::new(operation.as_str()).text(" failed: ").text(error.0.as_str()).done()
            },
        }
    }
}

/// An edge whose signal needs no packet: it is copied directly, or both ends share its memory.
#[derive(Debug, PartialEq, Eq)]
pub struct VulkanPlacedEdgeDirectCopy {
    pub key: VulkanPlacedEdgePacketKey,
    pub signal: String,
    pub source_component_id: String,
    pub destination_component_id: String,
    pub byte_count: usize,
    pub copy: Option<VulkanResidentMappedBufferCopy>,
}

#[verifier::ext_equal]
pub struct VulkanPlacedEdgeDirectCopyView {
    pub key: VulkanPlacedEdgePacketKeyView,
    pub signal: Seq<char>,
    pub source_component_id: Seq<char>,
    pub destination_component_id: Seq<char>,
    pub byte_count: usize,
    pub copy: Option<VulkanResidentMappedBufferCopyView>,
}

impl DeepView for VulkanPlacedEdgeDirectCopy {
    type V = VulkanPlacedEdgeDirectCopyView;

    open spec fn deep_view(&self) -> VulkanPlacedEdgeDirectCopyView {
        VulkanPlacedEdgeDirectCopyView {
            key: self.key.deep_view(),
            signal: self.signal.deep_view(),
            source_component_id: self.source_component_id.deep_view(),
            destination_component_id: self.destination_component_id.deep_view(),
            byte_count: self.byte_count,
            copy: self.copy.deep_view(),
        }
    }
}

impl View for VulkanPlacedEdgeDirectCopy {
    type V = VulkanPlacedEdgeDirectCopyView;

    open spec fn view(&self) -> VulkanPlacedEdgeDirectCopyView {
        self.deep_view()
    }
}

impl Clone for VulkanPlacedEdgeDirectCopy {
    fn clone(&self) -> (r: Self)
        ensures
            r@ == self@,
    {
        VulkanPlacedEdgeDirectCopy {
            key: self.key.clone(),
            signal: self.signal.clone(),
            source_component_id: self.source_component_id.clone(),
            destination_component_id: self.destination_component_id.clone(),
            byte_count: self.byte_count,
            copy: self.copy.clone(),
        }
    }
}

/// The signals on their way, and the counts of those that were moved.
#[derive(Debug, PartialEq, Eq)]
pub struct VulkanInProcessPlacedEdgeTransport {
    pub packets: OrderedMap<VulkanPlacedEdgePacketKey, VulkanPlacedEdgePacket>,
    pub direct_copies: OrderedMap<VulkanPlacedEdgePacketKey, VulkanPlacedEdgeDirectCopy>,
    pub ready_direct_edges: OrderedSet<VulkanPlacedEdgePacketKey>,
    pub published_packet_count: usize,
    pub published_byte_count: usize,
    pub received_packet_count: usize,
    pub received_byte_count: usize,
    pub direct_copy_count: usize,
    pub direct_copy_byte_count: usize,
    pub direct_receive_count: usize,
    pub direct_receive_byte_count: usize,
}

#[verifier::ext_equal]
pub struct VulkanInProcessPlacedEdgeTransportView {
    pub packets: Map<VulkanPlacedEdgePacketKeyView, VulkanPlacedEdgePacketView>,
    pub direct_copies: Map<VulkanPlacedEdgePacketKeyView, VulkanPlacedEdgeDirectCopyView>,
    pub ready_direct_edges: Set<VulkanPlacedEdgePacketKeyView>,
    pub published_packet_count: usize,
    pub published_byte_count: usize,
    pub received_packet_count: usize,
    pub received_byte_count: usize,
    pub direct_copy_count: usize,
    pub direct_copy_byte_count: usize,
    pub direct_receive_count: usize,
    pub direct_receive_byte_count: usize,
}

impl DeepView for VulkanInProcessPlacedEdgeTransport {
    type V = VulkanInProcessPlacedEdgeTransportView;

    open spec fn deep_view(&self) -> VulkanInProcessPlacedEdgeTransportView {
        VulkanInProcessPlacedEdgeTransportView {
            packets: self.packets.deep_view(),
            direct_copies: self.direct_copies.deep_view(),
            ready_direct_edges: self.ready_direct_edges.deep_view(),
            published_packet_count: self.published_packet_count,
            published_byte_count: self.published_byte_count,
            received_packet_count: self.received_packet_count,
            received_byte_count: self.received_byte_count,
            direct_copy_count: self.direct_copy_count,
            direct_copy_byte_count: self.direct_copy_byte_count,
            direct_receive_count: self.direct_receive_count,
            direct_receive_byte_count: self.direct_receive_byte_count,
        }
    }
}

impl View for VulkanInProcessPlacedEdgeTransport {
    type V = VulkanInProcessPlacedEdgeTransportView;

    open spec fn view(&self) -> VulkanInProcessPlacedEdgeTransportView {
        self.deep_view()
    }
}

/// A transport that has moved nothing.
pub open spec fn idle_transport(
    direct_copies: Map<VulkanPlacedEdgePacketKeyView, VulkanPlacedEdgeDirectCopyView>,
) -> VulkanInProcessPlacedEdgeTransportView {
    VulkanInProcessPlacedEdgeTransportView {
        packets: Map::empty(),
        direct_copies,
        ready_direct_edges: Set::empty(),
        published_packet_count: 0,
        published_byte_count: 0,
        received_packet_count: 0,
        received_byte_count: 0,
        direct_copy_count: 0,
        direct_copy_byte_count: 0,
        direct_receive_count: 0,
        direct_receive_byte_count: 0,
    }
}

/// The bytes of a packet.
pub open spec fn packet_bytes() -> spec_fn(
    (VulkanPlacedEdgePacketKeyView, VulkanPlacedEdgePacketView),
) -> nat {
    |entry: (VulkanPlacedEdgePacketKeyView, VulkanPlacedEdgePacketView)| entry.1.byte_count as nat
}

/// The bytes of a direct edge.
pub open spec fn direct_bytes(
    direct_copies: Map<VulkanPlacedEdgePacketKeyView, VulkanPlacedEdgeDirectCopyView>,
) -> spec_fn(VulkanPlacedEdgePacketKeyView) -> nat {
    |key: VulkanPlacedEdgePacketKeyView|
        if direct_copies.contains_key(key) {
            direct_copies[key].byte_count as nat
        } else {
            0
        }
}

impl VulkanInProcessPlacedEdgeTransportView {
    /// The packets on their way, in the order of their keys.
    pub open spec fn pending(self) -> Seq<
        (VulkanPlacedEdgePacketKeyView, VulkanPlacedEdgePacketView),
    > {
        ordered::sorted_entries::<VulkanPlacedEdgePacketKey, VulkanPlacedEdgePacketView>(
            self.packets,
        )
    }

    /// The direct edges that are ready, in the order of their keys.
    pub open spec fn ready(self) -> Seq<VulkanPlacedEdgePacketKeyView> {
        ordered::sorted_elements::<VulkanPlacedEdgePacketKey>(self.ready_direct_edges)
    }

    /// The bytes of the packets on their way.
    pub open spec fn pending_bytes(self) -> nat {
        sequence::total(self.pending(), packet_bytes())
    }

    /// The bytes of the direct edges that are ready.
    pub open spec fn ready_bytes(self) -> nat {
        sequence::total(self.ready(), direct_bytes(self.direct_copies))
    }
}

/// What a transport's counts say.
pub open spec fn transport_stats(
    t: VulkanInProcessPlacedEdgeTransportView,
) -> VulkanPlacedEdgeTransportStatsView {
    VulkanPlacedEdgeTransportStatsView {
        pending_packet_count: t.pending().len() as usize,
        pending_byte_count: t.pending_bytes() as usize,
        pending_direct_edge_count: t.ready().len() as usize,
        pending_direct_byte_count: t.ready_bytes() as usize,
        published_packet_count: t.published_packet_count,
        published_byte_count: t.published_byte_count,
        received_packet_count: t.received_packet_count,
        received_byte_count: t.received_byte_count,
        direct_copy_count: t.direct_copy_count,
        direct_copy_byte_count: t.direct_copy_byte_count,
        direct_receive_count: t.direct_receive_count,
        direct_receive_byte_count: t.direct_receive_byte_count,
    }
}

/// What moving a signal gives: a receipt, or why it was not moved.
pub type Moved = Result<VulkanPlacedEdgeTransportReceiptView, VulkanPlacedEdgeTransportErrorView>;

/// The receipt of a direct edge.
pub open spec fn direct_receipt(
    direct: VulkanPlacedEdgeDirectCopyView,
) -> VulkanPlacedEdgeTransportReceiptView {
    VulkanPlacedEdgeTransportReceiptView {
        key: direct.key,
        signal: direct.signal,
        byte_count: direct.byte_count,
    }
}

/// The packet of an outgoing edge.
pub open spec fn outgoing_packet(
    outgoing: VulkanPlacedEdgeBufferAllocationView,
    bytes: Seq<u8>,
) -> VulkanPlacedEdgePacketView {
    VulkanPlacedEdgePacketView {
        key: buffers::outgoing_key(outgoing.endpoint),
        signal: outgoing.endpoint.signal,
        source_component_id: outgoing.endpoint.local_component_id,
        destination_component_id: outgoing.endpoint.remote_component_id,
        byte_count: bytes.len() as usize,
        bytes,
    }
}

/// The receipt of a packet.
pub open spec fn packet_receipt(
    packet: VulkanPlacedEdgePacketView,
) -> VulkanPlacedEdgeTransportReceiptView {
    VulkanPlacedEdgeTransportReceiptView {
        key: packet.key,
        signal: packet.signal,
        byte_count: packet.byte_count,
    }
}

/// Whether both ends of an edge need no copy between them.
pub open spec fn shares_memory(
    outgoing: VulkanPlacedEdgeBufferAllocationView,
    incoming: VulkanPlacedEdgeBufferAllocationView,
    same_buffer: bool,
) -> bool {
    same_buffer || device::shares_host_allocation(outgoing.buffer, incoming.buffer)
}

/// The direct edge between two endpoints.
pub open spec fn direct_edge(
    outgoing: VulkanPlacedEdgeBufferAllocationView,
    incoming: VulkanPlacedEdgeBufferAllocationView,
    same_buffer: bool,
) -> VulkanPlacedEdgeDirectCopyView {
    VulkanPlacedEdgeDirectCopyView {
        key: buffers::outgoing_key(outgoing.endpoint),
        signal: outgoing.endpoint.signal,
        source_component_id: outgoing.endpoint.local_component_id,
        destination_component_id: outgoing.endpoint.remote_component_id,
        byte_count: outgoing.byte_capacity,
        copy: if shares_memory(outgoing, incoming, same_buffer) {
            None
        } else {
            Some(
                VulkanResidentMappedBufferCopyView {
                    source: outgoing.buffer,
                    destination: incoming.buffer,
                    byte_capacity: outgoing.byte_capacity,
                },
            )
        },
    }
}

/// A transport after an edge was registered as direct.
pub open spec fn registered(
    t: VulkanInProcessPlacedEdgeTransportView,
    outgoing: VulkanPlacedEdgeBufferAllocationView,
    incoming: VulkanPlacedEdgeBufferAllocationView,
    same_buffer: bool,
    created: Result<(), Seq<char>>,
) -> (Result<(), VulkanPlacedEdgeTransportErrorView>, VulkanInProcessPlacedEdgeTransportView) {
    let outgoing_key = buffers::outgoing_key(outgoing.endpoint);
    let incoming_key = buffers::incoming_key(incoming.endpoint);
    if outgoing_key != incoming_key {
        (
            Err(
                VulkanPlacedEdgeTransportErrorView::EndpointMismatch { outgoing_key, incoming_key },
            ),
            t,
        )
    } else if t.direct_copies.contains_key(outgoing_key) {
        (Ok(()), t)
    } else if outgoing.byte_capacity != incoming.byte_capacity {
        (
            Err(
                VulkanPlacedEdgeTransportErrorView::ByteCapacityMismatch {
                    key: outgoing_key,
                    packet_byte_count: outgoing.byte_capacity,
                    incoming_byte_capacity: incoming.byte_capacity,
                },
            ),
            t,
        )
    } else if !shares_memory(outgoing, incoming, same_buffer) && created is Err {
        (
            Err(
                VulkanPlacedEdgeTransportErrorView::Vulkan {
                    operation: "create persistently mapped edge buffer copy"@,
                    error: created->Err_0,
                },
            ),
            t,
        )
    } else {
        (
            Ok(()),
            VulkanInProcessPlacedEdgeTransportView {
                direct_copies: t.direct_copies.insert(
                    outgoing_key,
                    direct_edge(outgoing, incoming, same_buffer),
                ),
                ..t
            },
        )
    }
}

/// A transport after an outgoing edge was published. The answer is that of the device: to the copy
/// that a direct edge needs, or else to reading the edge's buffer.
pub open spec fn published(
    t: VulkanInProcessPlacedEdgeTransportView,
    device_id: Seq<char>,
    io: VulkanPlacedEdgeIoBuffersView,
    edge_index: usize,
    answer: Result<Seq<u8>, Seq<char>>,
) -> (Moved, VulkanInProcessPlacedEdgeTransportView) {
    match buffers::endpoint_allocation_of(io.outgoing_buffers, edge_index) {
        None => (
            Err(VulkanPlacedEdgeTransportErrorView::MissingOutgoingEdge { device_id, edge_index }),
            t,
        ),
        Some(outgoing) => {
            let key = buffers::outgoing_key(outgoing.endpoint);
            if t.direct_copies.contains_key(key) {
                let direct = t.direct_copies[key];
                if direct.copy is Some && answer is Err {
                    (
                        Err(
                            VulkanPlacedEdgeTransportErrorView::Vulkan {
                                operation: "run direct edge buffer copy"@,
                                error: answer->Err_0,
                            },
                        ),
                        t,
                    )
                } else {
                    (
                        Ok(direct_receipt(direct)),
                        VulkanInProcessPlacedEdgeTransportView {
                            ready_direct_edges: t.ready_direct_edges.insert(key),
                            direct_copy_count: (t.direct_copy_count + 1) as usize,
                            direct_copy_byte_count: (t.direct_copy_byte_count
                                + direct.byte_count) as usize,
                            ..t
                        },
                    )
                }
            } else {
                match answer {
                    Err(error) => (
                        Err(
                            VulkanPlacedEdgeTransportErrorView::Vulkan {
                                operation: "read outgoing edge buffer"@,
                                error,
                            },
                        ),
                        t,
                    ),
                    Ok(bytes) => (
                        Ok(packet_receipt(outgoing_packet(outgoing, bytes))),
                        VulkanInProcessPlacedEdgeTransportView {
                            packets: t.packets.insert(key, outgoing_packet(outgoing, bytes)),
                            published_packet_count: (t.published_packet_count + 1) as usize,
                            published_byte_count: (t.published_byte_count + bytes.len()) as usize,
                            ..t
                        },
                    ),
                }
            }
        },
    }
}

/// Whether the counts of a transport have room for a publication, where it is counted: one that fails
/// is not.
pub open spec fn publication_fits(
    t: VulkanInProcessPlacedEdgeTransportView,
    io: VulkanPlacedEdgeIoBuffersView,
    edge_index: usize,
    answer: Result<Seq<u8>, Seq<char>>,
) -> bool {
    match buffers::endpoint_allocation_of(io.outgoing_buffers, edge_index) {
        None => true,
        Some(outgoing) => {
            let key = buffers::outgoing_key(outgoing.endpoint);
            if t.direct_copies.contains_key(key) {
                t.direct_copies[key].copy is None || answer is Ok ==> {
                    &&& t.direct_copy_count < usize::MAX
                    &&& t.direct_copy_byte_count + t.direct_copies[key].byte_count <= usize::MAX
                }
            } else {
                answer is Ok ==> {
                    &&& t.published_packet_count < usize::MAX
                    &&& t.published_byte_count + answer->Ok_0.len() <= usize::MAX
                }
            }
        },
    }
}

/// A transport after the first `n` outgoing edges of a device were published, one after the other
/// up to the first failure.
pub open spec fn published_all(
    t: VulkanInProcessPlacedEdgeTransportView,
    device_id: Seq<char>,
    io: VulkanPlacedEdgeIoBuffersView,
    answers: Seq<Result<Seq<u8>, Seq<char>>>,
    n: nat,
) -> (
    Result<Seq<VulkanPlacedEdgeTransportReceiptView>, VulkanPlacedEdgeTransportErrorView>,
    VulkanInProcessPlacedEdgeTransportView,
)
    decreases n,
{
    if n == 0 {
        (Ok(Seq::empty()), t)
    } else {
        let k = (n - 1) as nat;
        let (done, before) = published_all(t, device_id, io, answers, k);
        match done {
            Err(e) => (Err(e), before),
            Ok(receipts) => {
                let (moved, after) = published(
                    before,
                    device_id,
                    io,
                    io.outgoing_buffers[k as int].endpoint.edge_index,
                    answers[k as int],
                );
                match moved {
                    Err(e) => (Err(e), after),
                    Ok(receipt) => (Ok(receipts.push(receipt)), after),
                }
            },
        }
    }
}

/// The bytes that have to be written into the buffer of an incoming edge.
pub open spec fn bytes_to_write(
    t: VulkanInProcessPlacedEdgeTransportView,
    io: VulkanPlacedEdgeIoBuffersView,
    edge_index: usize,
) -> Option<Seq<u8>> {
    match buffers::endpoint_allocation_of(io.incoming_buffers, edge_index) {
        None => None,
        Some(incoming) => {
            let key = buffers::incoming_key(incoming.endpoint);
            if t.direct_copies.contains_key(key) || !t.packets.contains_key(key)
                || t.packets[key].byte_count != incoming.byte_capacity {
                None
            } else {
                Some(t.packets[key].bytes)
            }
        },
    }
}

/// A transport after an incoming edge was taken. The answer is that of the device to writing the
/// edge's buffer, where there was something to write.
pub open spec fn received(
    t: VulkanInProcessPlacedEdgeTransportView,
    device_id: Seq<char>,
    io: VulkanPlacedEdgeIoBuffersView,
    edge_index: usize,
    written: Result<(), Seq<char>>,
) -> (Moved, VulkanInProcessPlacedEdgeTransportView) {
    match buffers::endpoint_allocation_of(io.incoming_buffers, edge_index) {
        None => (
            Err(VulkanPlacedEdgeTransportErrorView::MissingIncomingEdge { device_id, edge_index }),
            t,
        ),
        Some(incoming) => {
            let key = buffers::incoming_key(incoming.endpoint);
            if t.direct_copies.contains_key(key) {
                let direct = t.direct_copies[key];
                if !t.ready_direct_edges.contains(key) {
                    (Err(VulkanPlacedEdgeTransportErrorView::MissingPacket { key }), t)
                } else {
                    (
                        Ok(direct_receipt(direct)),
                        VulkanInProcessPlacedEdgeTransportView {
                            ready_direct_edges: t.ready_direct_edges.remove(key),
                            direct_receive_count: (t.direct_receive_count + 1) as usize,
                            direct_receive_byte_count: (t.direct_receive_byte_count
                                + direct.byte_count) as usize,
                            ..t
                        },
                    )
                }
            } else if !t.packets.contains_key(key) {
                (Err(VulkanPlacedEdgeTransportErrorView::MissingPacket { key }), t)
            } else {
                let packet = t.packets[key];
                let taken = VulkanInProcessPlacedEdgeTransportView {
                    packets: t.packets.remove(key),
                    ..t
                };
                if packet.byte_count != incoming.byte_capacity {
                    (
                        Err(
                            VulkanPlacedEdgeTransportErrorView::ByteCapacityMismatch {
                                key,
                                packet_byte_count: packet.byte_count,
                                incoming_byte_capacity: incoming.byte_capacity,
                            },
                        ),
                        taken,
                    )
                } else {
                    match written {
                        Err(error) => (
                            Err(
                                VulkanPlacedEdgeTransportErrorView::Vulkan {
                                    operation: "write incoming edge buffer"@,
                                    error,
                                },
                            ),
                            taken,
                        ),
                        Ok(_) => (
                            Ok(packet_receipt(packet)),
                            VulkanInProcessPlacedEdgeTransportView {
                                received_packet_count: (t.received_packet_count + 1) as usize,
                                received_byte_count: (t.received_byte_count
                                    + packet.byte_count) as usize,
                                ..taken
                            },
                        ),
                    }
                }
            }
        },
    }
}

/// Whether the counts of a transport have room for a reception, where it is counted: one that fails
/// is not.
pub open spec fn reception_fits(
    t: VulkanInProcessPlacedEdgeTransportView,
    io: VulkanPlacedEdgeIoBuffersView,
    edge_index: usize,
    written: Result<(), Seq<char>>,
) -> bool {
    match buffers::endpoint_allocation_of(io.incoming_buffers, edge_index) {
        None => true,
        Some(incoming) => {
            let key = buffers::incoming_key(incoming.endpoint);
            if t.direct_copies.contains_key(key) {
                t.ready_direct_edges.contains(key) ==> {
                    &&& t.direct_receive_count < usize::MAX
                    &&& t.direct_receive_byte_count + t.direct_copies[key].byte_count <= usize::MAX
                }
            } else {
                t.packets.contains_key(key) && t.packets[key].byte_count == incoming.byte_capacity
                    && written is Ok ==> {
                    &&& t.received_packet_count < usize::MAX
                    &&& t.received_byte_count + t.packets[key].byte_count <= usize::MAX
                }
            }
        },
    }
}

/// A transport after the first `n` incoming edges of a device were taken where they were there, one
/// after the other up to the first failure.
pub open spec fn received_available(
    t: VulkanInProcessPlacedEdgeTransportView,
    device_id: Seq<char>,
    io: VulkanPlacedEdgeIoBuffersView,
    written: Seq<Result<(), Seq<char>>>,
    n: nat,
) -> (
    Result<VulkanPlacedEdgeTransportReceiveBatchView, VulkanPlacedEdgeTransportErrorView>,
    VulkanInProcessPlacedEdgeTransportView,
)
    decreases n,
{
    if n == 0 {
        (
            Ok(
                VulkanPlacedEdgeTransportReceiveBatchView {
                    received: Seq::empty(),
                    missing_packets: Seq::empty(),
                },
            ),
            t,
        )
    } else {
        let k = (n - 1) as nat;
        let (done, before) = received_available(t, device_id, io, written, k);
        match done {
            Err(e) => (Err(e), before),
            Ok(batch) => {
                let (moved, after) = received(
                    before,
                    device_id,
                    io,
                    io.incoming_buffers[k as int].endpoint.edge_index,
                    written[k as int],
                );
                match moved {
                    Ok(receipt) => (
                        Ok(
                            VulkanPlacedEdgeTransportReceiveBatchView {
                                received: batch.received.push(receipt),
                                ..batch
                            },
                        ),
                        after,
                    ),
                    Err(VulkanPlacedEdgeTransportErrorView::MissingPacket { key }) => (
                        Ok(
                            VulkanPlacedEdgeTransportReceiveBatchView {
                                missing_packets: batch.missing_packets.push(key),
                                ..batch
                            },
                        ),
                        after,
                    ),
                    Err(e) => (Err(e), after),
                }
            },
        }
    }
}

/// The values of what reading buffers gave.
pub open spec fn read_answers(answers: Seq<Result<Vec<u8>, VulkanError>>) -> Seq<
    Result<Seq<u8>, Seq<char>>,
> {
    Seq::new(answers.len(), |i: int| sequence::outcome(answers[i]))
}

/// The values of what writing buffers gave.
pub open spec fn write_answers(answers: Seq<Result<(), VulkanError>>) -> Seq<
    Result<(), Seq<char>>,
> {
    Seq::new(answers.len(), |i: int| sequence::outcome(answers[i]))
}

/// What a device has to do before an outgoing edge can be published.
#[derive(Debug, PartialEq, Eq)]
pub enum VulkanPlacedEdgePublication {
    /// Nothing: both ends share the memory.
    Shared,
    /// Run this copy over so many bytes.
    Copy { copy: VulkanResidentMappedBufferCopy, byte_count: usize },
    /// Read so many bytes of the edge's buffer.
    Read { byte_count: usize },
}

#[verifier::ext_equal]
pub enum VulkanPlacedEdgePublicationView {
    Shared,
    Copy { copy: VulkanResidentMappedBufferCopyView, byte_count: usize },
    Read { byte_count: usize },
}

impl DeepView for VulkanPlacedEdgePublication {
    type V = VulkanPlacedEdgePublicationView;

    open spec fn deep_view(&self) -> VulkanPlacedEdgePublicationView {
        match self {
            VulkanPlacedEdgePublication::Shared => VulkanPlacedEdgePublicationView::Shared,
            VulkanPlacedEdgePublication::Copy { copy, byte_count } => VulkanPlacedEdgePublicationView::Copy { copy: copy.deep_view(), byte_count: *byte_count },
            VulkanPlacedEdgePublication::Read { byte_count } => VulkanPlacedEdgePublicationView::Read { byte_count: *byte_count },
        }
    }
}

impl View for VulkanPlacedEdgePublication {
    type V = VulkanPlacedEdgePublicationView;

    open spec fn view(&self) -> VulkanPlacedEdgePublicationView {
        self.deep_view()
    }
}

impl Clone for VulkanPlacedEdgePublication {
    fn clone(&self) -> (r: Self)
        ensures
            r@ == self@,
    {
        match self {
            VulkanPlacedEdgePublication::Shared => VulkanPlacedEdgePublication::Shared,
            VulkanPlacedEdgePublication::Copy { copy, byte_count } => VulkanPlacedEdgePublication::Copy { copy: copy.clone(), byte_count: *byte_count },
            VulkanPlacedEdgePublication::Read { byte_count } => VulkanPlacedEdgePublication::Read { byte_count: *byte_count },
        }
    }
}

/// What a device has to do before an outgoing edge can be published.
pub open spec fn publication(
    t: VulkanInProcessPlacedEdgeTransportView,
    device_id: Seq<char>,
    io: VulkanPlacedEdgeIoBuffersView,
    edge_index: usize,
) -> Result<VulkanPlacedEdgePublicationView, VulkanPlacedEdgeTransportErrorView> {
    match buffers::endpoint_allocation_of(io.outgoing_buffers, edge_index) {
        None => Err(
            VulkanPlacedEdgeTransportErrorView::MissingOutgoingEdge { device_id, edge_index },
        ),
        Some(outgoing) => {
            let key = buffers::outgoing_key(outgoing.endpoint);
            if t.direct_copies.contains_key(key) {
                match t.direct_copies[key].copy {
                    None => Ok(VulkanPlacedEdgePublicationView::Shared),
                    Some(copy) => Ok(
                        VulkanPlacedEdgePublicationView::Copy {
                            copy,
                            byte_count: t.direct_copies[key].byte_count,
                        },
                    ),
                }
            } else {
                Ok(VulkanPlacedEdgePublicationView::Read { byte_count: outgoing.byte_capacity })
            }
        },
    }
}

impl VulkanInProcessPlacedEdgeTransport {
    /// The maps and the set stand in order.
    pub open spec fn valid(&self) -> bool {
        self.packets.sorted() && self.direct_copies.sorted() && self.ready_direct_edges.sorted()
    }

    /// A transport without direct edges.
    pub fn new() -> (r: Self)
        ensures
            r.valid(),
            r@ == idle_transport(Map::empty()),
    {
        VulkanInProcessPlacedEdgeTransport {
            packets: OrderedMap::new(),
            direct_copies: OrderedMap::new(),
            ready_direct_edges: OrderedSet::new(),
            published_packet_count: 0,
            published_byte_count: 0,
            received_packet_count: 0,
            received_byte_count: 0,
            direct_copy_count: 0,
            direct_copy_byte_count: 0,
            direct_receive_count: 0,
            direct_receive_byte_count: 0,
        }
    }

    /// The number of packets on their way.
    pub fn packet_count(&self) -> (r: usize)
        requires
            self.valid(),
        ensures
            r == self@.pending().len(),
    {
        self.packets.len()
    }

    #[verifier::loop_isolation(false)]
    fn pending_byte_count(&self) -> (r: usize)
        requires
            self.valid(),
            self@.pending_bytes() <= usize::MAX,
        ensures
            r == self@.pending_bytes(),
    {
        let ghost all = self.packets.entries.deep_view();
        let ghost f = packet_bytes();
        proof {
            ordered::lemma_sorted_entries::<VulkanPlacedEdgePacketKey, VulkanPlacedEdgePacketView>(
                all,
            );
        }
        let mut total: usize = 0;
        let mut i: usize = 0;
        assert(all.take(0) =~= Seq::empty());
        while i < self.packets.entries.len()
            invariant
                i <= self.packets.entries.len(),
                total == sequence::total(all.take(i as int), f),
            decreases self.packets.entries.len() - i,
        {
            proof {
                sequence::lemma_total_step(all, f, i as int);
                sequence::lemma_total_prefix(all, f, i + 1);
                assert(all[i as int].1 == self.packets.entries@[i as int].1@);
            }
            total = total + self.packets.entries[i].1.byte_count;
            i += 1;
        }
        assert(all.take(all.len() as int) =~= all);
        total
    }

    #[verifier::loop_isolation(false)]
    fn ready_byte_count(&self) -> (r: usize)
        requires
            self.valid(),
            self@.ready_bytes() <= usize::MAX,
        ensures
            r == self@.ready_bytes(),
    {
        let ghost all = self.ready_direct_edges.elements.deep_view();
        let ghost f = direct_bytes(self.direct_copies@);
        proof {
            ordered::lemma_sorted_elements::<VulkanPlacedEdgePacketKey>(all);
        }
        let mut total: usize = 0;
        let mut i: usize = 0;
        assert(all.take(0) =~= Seq::empty());
        while i < self.ready_direct_edges.elements.len()
            invariant
                i <= self.ready_direct_edges.elements.len(),
                total == sequence::total(all.take(i as int), f),
            decreases self.ready_direct_edges.elements.len() - i,
        {
            proof {
                sequence::lemma_total_step(all, f, i as int);
                sequence::lemma_total_prefix(all, f, i + 1);
                assert(all[i as int] == self.ready_direct_edges.elements@[i as int]@);
            }
            if let Some(direct) = self.direct_copies.get(&self.ready_direct_edges.elements[i]) {
                total = total + direct.byte_count;
            }
            i += 1;
        }
        assert(all.take(all.len() as int) =~= all);
        total
    }

    /// The counts.
    pub fn stats(&self) -> (r: VulkanPlacedEdgeTransportStats)
        requires
            self.valid(),
            self@.pending_bytes() <= usize::MAX,
            self@.ready_bytes() <= usize::MAX,
        ensures
            r@ == transport_stats(self@),
    {
        VulkanPlacedEdgeTransportStats {
            pending_packet_count: self.packets.len(),
            pending_byte_count: self.pending_byte_count(),
            pending_direct_edge_count: self.ready_direct_edges.len(),
            pending_direct_byte_count: self.ready_byte_count(),
            published_packet_count: self.published_packet_count,
            published_byte_count: self.published_byte_count,
            received_packet_count: self.received_packet_count,
            received_byte_count: self.received_byte_count,
            direct_copy_count: self.direct_copy_count,
            direct_copy_byte_count: self.direct_copy_byte_count,
            direct_receive_count: self.direct_receive_count,
            direct_receive_byte_count: self.direct_receive_byte_count,
        }
    }

    /// Whether a packet is on its way.
    pub fn contains_packet(&self, key: &VulkanPlacedEdgePacketKey) -> (r: bool)
        ensures
            r == self@.packets.contains_key(key@),
    {
        self.packets.contains_key(key)
    }

    /// Whether a direct edge is ready.
    pub fn contains_ready_direct_edge(&self, key: &VulkanPlacedEdgePacketKey) -> (r: bool)
        ensures
            r == self@.ready_direct_edges.contains(key@),
    {
        self.ready_direct_edges.contains(key)
    }

    /// The number of direct edges.
    pub fn direct_edge_binding_count(&self) -> (r: usize)
        requires
            self.valid(),
        ensures
            r == ordered::sorted_entries::<
                VulkanPlacedEdgePacketKey,
                VulkanPlacedEdgeDirectCopyView,
            >(self@.direct_copies).len(),
    {
        self.direct_copies.len()
    }

    /// Whether both ends of an edge share its memory.
    pub fn edge_uses_shared_allocation(&self, key: &VulkanPlacedEdgePacketKey) -> (r: bool)
        ensures
            r == (self@.direct_copies.contains_key(key@) && self@.direct_copies[key@].copy is None),
    {
        match self.direct_copies.get(key) {
            Some(direct) => direct.copy.is_none(),
            None => false,
        }
    }

    /// Forgets what was moved and what is on its way; direct edges stay registered.
    pub fn reset_tick_state(&mut self)
        requires
            old(self).valid(),
        ensures
            final(self).valid(),
            final(self)@ == idle_transport(old(self)@.direct_copies),
    {
        self.packets = OrderedMap::new();
        self.ready_direct_edges = OrderedSet::new();
        self.published_packet_count = 0;
        self.published_byte_count = 0;
        self.received_packet_count = 0;
        self.received_byte_count = 0;
        self.direct_copy_count = 0;
        self.direct_copy_byte_count = 0;
        self.direct_receive_count = 0;
        self.direct_receive_byte_count = 0;
    }

    /// Registers the edge between two endpoints as direct. `same_buffer` tells whether both
    /// endpoints were given one and the same buffer; `created` is the device's answer to creating
    /// the copy, where the ends share no memory.
    pub fn register_direct_edge_copy(
        &mut self,
        outgoing: &VulkanPlacedEdgeBufferAllocation,
        incoming: &VulkanPlacedEdgeBufferAllocation,
        same_buffer: bool,
        created: &Result<(), VulkanError>,
    ) -> (r: Result<(), VulkanPlacedEdgeTransportError>)
        requires
            old(self).valid(),
        ensures
            final(self).valid(),
            sequence::outcome(r) == registered(
                old(self)@,
                outgoing@,
                incoming@,
                same_buffer,
                sequence::outcome(*created),
            ).0,
            final(self)@ == registered(
                old(self)@,
                outgoing@,
                incoming@,
                same_buffer,
                sequence::outcome(*created),
            ).1,
    {
        let outgoing_key = VulkanPlacedEdgePacketKey::from_outgoing_endpoint(&outgoing.endpoint);
        let incoming_key = VulkanPlacedEdgePacketKey::from_incoming_endpoint(&incoming.endpoint);
        if !outgoing_key.is_same(&incoming_key) {
            return Err(
                VulkanPlacedEdgeTransportError::EndpointMismatch { outgoing_key, incoming_key },
            );
        }
        if self.direct_copies.contains_key(&outgoing_key) {
            return Ok(());
        }
        if outgoing.byte_capacity != incoming.byte_capacity {
            return Err(
                VulkanPlacedEdgeTransportError::ByteCapacityMismatch {
                    key: outgoing_key,
                    packet_byte_count: outgoing.byte_capacity,
                    incoming_byte_capacity: incoming.byte_capacity,
                },
            );
        }
        let copy: Option<VulkanResidentMappedBufferCopy> = if same_buffer
            || outgoing.buffer.shares_host_allocation_with(&incoming.buffer) {
            None
        } else {
            if let Err(error) = created {
                return Err(
                    VulkanPlacedEdgeTransportError::Vulkan {
                        operation: "create persistently mapped edge buffer copy".to_owned(),
                        error: error.clone(),
                    },
                );
            }
            Some(
                VulkanResidentMappedBufferCopy {
                    source: outgoing.buffer.clone(),
                    destination: incoming.buffer.clone(),
                    byte_capacity: outgoing.byte_capacity,
                },
            )
        };
        let direct = VulkanPlacedEdgeDirectCopy {
            key: outgoing_key.clone(),
            signal: outgoing.endpoint.signal.clone(),
            source_component_id: outgoing.endpoint.local_component_id.clone(),
            destination_component_id: outgoing.endpoint.remote_component_id.clone(),
            byte_count: outgoing.byte_capacity,
            copy,
        };
        self.direct_copies.insert(outgoing_key, direct);
        Ok(())
    }

    /// What a device has to do before an outgoing edge can be published.
    pub fn outgoing_edge_publication(
        &self,
        device_id: &str,
        io: &VulkanPlacedEdgeIoBuffers,
        edge_index: usize,
    ) -> (r: Result<VulkanPlacedEdgePublication, VulkanPlacedEdgeTransportError>)
        ensures
            sequence::outcome(r) == publication(self@, device_id@, io@, edge_index),
    {
        let outgoing: &VulkanPlacedEdgeBufferAllocation = match io.outgoing_buffer(edge_index) {
            Some(outgoing) => outgoing,
            None => return Err(
                VulkanPlacedEdgeTransportError::MissingOutgoingEdge {
                    device_id: device_id.to_owned(),
                    edge_index,
                },
            ),
        };
        let key = VulkanPlacedEdgePacketKey::from_outgoing_endpoint(&outgoing.endpoint);
        match self.direct_copies.get(&key) {
            Some(direct) => match &direct.copy {
                None => Ok(VulkanPlacedEdgePublication::Shared),
                Some(copy) => Ok(
                    VulkanPlacedEdgePublication::Copy {
                        copy: copy.clone(),
                        byte_count: direct.byte_count,
                    },
                ),
            },
            None => Ok(VulkanPlacedEdgePublication::Read { byte_count: outgoing.byte_capacity }),
        }
    }

    /// Whether an outgoing edge can be published, given the device's answer, without a count running
    /// over.
    pub fn can_publish(
        &self,
        io: &VulkanPlacedEdgeIoBuffers,
        edge_index: usize,
        answer: &Result<Vec<u8>, VulkanError>,
    ) -> (r: bool)
        ensures
            r == publication_fits(self@, io@, edge_index, sequence::outcome(*answer)),
    {
        let outgoing: &VulkanPlacedEdgeBufferAllocation = match io.outgoing_buffer(edge_index) {
            Some(outgoing) => outgoing,
            None => return true,
        };
        let key = VulkanPlacedEdgePacketKey::from_outgoing_endpoint(&outgoing.endpoint);
        match self.direct_copies.get(&key) {
            Some(direct) => (direct.copy.is_some() && answer.is_err()) || (self.direct_copy_count
                < usize::MAX && self.direct_copy_byte_count <= usize::MAX - direct.byte_count),
            None => match answer {
                Ok(bytes) => {
                    assert(bytes.deep_view().len() == bytes@.len());
                    self.published_packet_count < usize::MAX && self.published_byte_count
                        <= usize::MAX - bytes.len()
                },
                Err(_) => true,
            },
        }
    }

    /// Publishes an outgoing edge, given the device's answer.
    pub fn publish_outgoing_edge(
        &mut self,
        device_id: &str,
        io: &VulkanPlacedEdgeIoBuffers,
        edge_index: usize,
        answer: &Result<Vec<u8>, VulkanError>,
    ) -> (r: Result<VulkanPlacedEdgeTransportReceipt, VulkanPlacedEdgeTransportError>)
        requires
            old(self).valid(),
            publication_fits(old(self)@, io@, edge_index, sequence::outcome(*answer)),
        ensures
            final(self).valid(),
            sequence::outcome(r) == published(
                old(self)@,
                device_id@,
                io@,
                edge_index,
                sequence::outcome(*answer),
            ).0,
            final(self)@ == published(
                old(self)@,
                device_id@,
                io@,
                edge_index,
                sequence::outcome(*answer),
            ).1,
    {
        let outgoing: &VulkanPlacedEdgeBufferAllocation = match io.outgoing_buffer(edge_index) {
            Some(outgoing) => outgoing,
            None => return Err(
                VulkanPlacedEdgeTransportError::MissingOutgoingEdge {
                    device_id: device_id.to_owned(),
                    edge_index,
                },
            ),
        };
        let key = VulkanPlacedEdgePacketKey::from_outgoing_endpoint(&outgoing.endpoint);
        if let Some(direct) = self.direct_copies.get(&key) {
            if direct.copy.is_some() {
                if let Err(error) = answer {
                    return Err(
                        VulkanPlacedEdgeTransportError::Vulkan {
                            operation: "run direct edge buffer copy".to_owned(),
                            error: error.clone(),
                        },
                    );
                }
            }
            let receipt = VulkanPlacedEdgeTransportReceipt {
                key: direct.key.clone(),
                signal: direct.signal.clone(),
                byte_count: direct.byte_count,
            };
            let byte_count: usize = direct.byte_count;
            self.ready_direct_edges.insert(key);
            self.direct_copy_count = self.direct_copy_count + 1;
            self.direct_copy_byte_count = self.direct_copy_byte_count + byte_count;
            return Ok(receipt);
        }
        let bytes: Vec<u8> = match answer {
            Ok(bytes) => bytes.clone(),
            Err(error) => return Err(
                VulkanPlacedEdgeTransportError::Vulkan {
                    operation: "read outgoing edge buffer".to_owned(),
                    error: error.clone(),
                },
            ),
        };
        proof {
            assert(bytes.deep_view() =~= answer->Ok_0.deep_view());
            assert(bytes.deep_view().len() == bytes@.len());
        }
        let byte_count: usize = bytes.len();
        let packet = VulkanPlacedEdgePacket {
            key: key.clone(),
            signal: outgoing.endpoint.signal.clone(),
            source_component_id: outgoing.endpoint.local_component_id.clone(),
            destination_component_id: outgoing.endpoint.remote_component_id.clone(),
            byte_count,
            bytes,
        };
        let receipt = VulkanPlacedEdgeTransportReceipt {
            key: key.clone(),
            signal: packet.signal.clone(),
            byte_count,
        };
        self.packets.insert(key, packet);
        self.published_packet_count = self.published_packet_count + 1;
        self.published_byte_count = self.published_byte_count + byte_count;
        Ok(receipt)
    }

    /// Publishes every outgoing edge of a device, given the device's answers up to the first
    /// failure.
    #[verifier::loop_isolation(false)]
    pub fn publish_all_outgoing_edges(
        &mut self,
        device_id: &str,
        io: &VulkanPlacedEdgeIoBuffers,
        answers: &Vec<Result<Vec<u8>, VulkanError>>,
    ) -> (r: Result<Vec<VulkanPlacedEdgeTransportReceipt>, VulkanPlacedEdgeTransportError>)
        requires
            old(self).valid(),
            forall|k: nat|
                k < io@.outgoing_buffers.len() && (#[trigger] published_all(
                    old(self)@,
                    device_id@,
                    io@,
                    read_answers(answers@),
                    k,
                )).0 is Ok ==> k < answers@.len() && publication_fits(
                    published_all(old(self)@, device_id@, io@, read_answers(answers@), k).1,
                    io@,
                    io@.outgoing_buffers[k as int].endpoint.edge_index,
                    read_answers(answers@)[k as int],
                ),
        ensures
            final(self).valid(),
            sequence::outcome(r) == published_all(
                old(self)@,
                device_id@,
                io@,
                read_answers(answers@),
                io@.outgoing_buffers.len(),
            ).0,
            final(self)@ == published_all(
                old(self)@,
                device_id@,
                io@,
                read_answers(answers@),
                io@.outgoing_buffers.len(),
            ).1,
    {
        let ghost start = self@;
        let ghost views = read_answers(answers@);
        let mut receipts: Vec<VulkanPlacedEdgeTransportReceipt> = Vec::new();
        let mut i: usize = 0;
        assert(receipts.deep_view() =~= Seq::empty());
        assert(io@.outgoing_buffers.len() == io.outgoing_buffers@.len());
        while i < io.outgoing_buffers.len()
            invariant
                i <= io.outgoing_buffers.len(),
                self.valid(),
                published_all(start, device_id@, io@, views, i as nat) == (
                    Ok::<
                        Seq<VulkanPlacedEdgeTransportReceiptView>,
                        VulkanPlacedEdgeTransportErrorView,
                    >(receipts.deep_view()),
                    self@,
                ),
            decreases io.outgoing_buffers.len() - i,
        {
            let ghost step = published_all(start, device_id@, io@, views, i as nat);
            assert(step.0 is Ok);
            assert(io@.outgoing_buffers[i as int] == io.outgoing_buffers@[i as int]@);
            assert(views[i as int] == sequence::outcome(answers@[i as int]));
            let edge_index: usize = io.outgoing_buffers[i].endpoint.edge_index;
            match self.publish_outgoing_edge(device_id, io, edge_index, &answers[i]) {
                Ok(receipt) => {
                    let ghost before = receipts.deep_view();
                    let ghost added = receipt@;
                    receipts.push(receipt);
                    assert(receipts.deep_view() =~= before.push(added));
                },
                Err(e) => {
                    proof {
                        lemma_published_error(
                            start,
                            device_id@,
                            io@,
                            views,
                            (i + 1) as nat,
                            io@.outgoing_buffers.len(),
                        );
                    }
                    return Err(e);
                },
            }
            i += 1;
        }
        Ok(receipts)
    }

    /// The bytes that have to be written into the buffer of an incoming edge, before it is taken.
    pub fn incoming_edge_bytes(&self, io: &VulkanPlacedEdgeIoBuffers, edge_index: usize) -> (r:
        Option<&Vec<u8>>)
        ensures
            r.deep_view() == bytes_to_write(self@, io@, edge_index),
    {
        let incoming: &VulkanPlacedEdgeBufferAllocation = match io.incoming_buffer(edge_index) {
            Some(incoming) => incoming,
            None => return None,
        };
        let key = VulkanPlacedEdgePacketKey::from_incoming_endpoint(&incoming.endpoint);
        if self.direct_copies.contains_key(&key) {
            return None;
        }
        match self.packets.get(&key) {
            Some(packet) => if packet.byte_count == incoming.byte_capacity {
                Some(&packet.bytes)
            } else {
                None
            },
            None => None,
        }
    }

    /// Whether an incoming edge can be taken, given the device's answer to writing its buffer, without
    /// a count running over.
    pub fn can_receive(
        &self,
        io: &VulkanPlacedEdgeIoBuffers,
        edge_index: usize,
        written: &Result<(), VulkanError>,
    ) -> (r: bool)
        ensures
            r == reception_fits(self@, io@, edge_index, sequence::outcome(*written)),
    {
        let incoming: &VulkanPlacedEdgeBufferAllocation = match io.incoming_buffer(edge_index) {
            Some(incoming) => incoming,
            None => return true,
        };
        let key = VulkanPlacedEdgePacketKey::from_incoming_endpoint(&incoming.endpoint);
        match self.direct_copies.get(&key) {
            Some(direct) => !self.ready_direct_edges.contains(&key) || (self.direct_receive_count
                < usize::MAX && self.direct_receive_byte_count <= usize::MAX - direct.byte_count),
            None => match self.packets.get(&key) {
                Some(packet) => packet.byte_count != incoming.byte_capacity || written.is_err()
                    || (self.received_packet_count < usize::MAX && self.received_byte_count
                    <= usize::MAX - packet.byte_count),
                None => true,
            },
        }
    }

    /// Takes an incoming edge, given the device's answer to writing its buffer.
    pub fn receive_incoming_edge(
        &mut self,
        device_id: &str,
        io: &VulkanPlacedEdgeIoBuffers,
        edge_index: usize,
        written: &Result<(), VulkanError>,
    ) -> (r: Result<VulkanPlacedEdgeTransportReceipt, VulkanPlacedEdgeTransportError>)
        requires
            old(self).valid(),
            reception_fits(old(self)@, io@, edge_index, sequence::outcome(*written)),
        ensures
            final(self).valid(),
            sequence::outcome(r) == received(
                old(self)@,
                device_id@,
                io@,
                edge_index,
                sequence::outcome(*written),
            ).0,
            final(self)@ == received(
                old(self)@,
                device_id@,
                io@,
                edge_index,
                sequence::outcome(*written),
            ).1,
    {
        let incoming: &VulkanPlacedEdgeBufferAllocation = match io.incoming_buffer(edge_index) {
            Some(incoming) => incoming,
            None => return Err(
                VulkanPlacedEdgeTransportError::MissingIncomingEdge {
                    device_id: device_id.to_owned(),
                    edge_index,
                },
            ),
        };
        let key = VulkanPlacedEdgePacketKey::from_incoming_endpoint(&incoming.endpoint);
        if let Some(direct) = self.direct_copies.get(&key) {
            let receipt = VulkanPlacedEdgeTransportReceipt {
                key: direct.key.clone(),
                signal: direct.signal.clone(),
                byte_count: direct.byte_count,
            };
            let byte_count: usize = direct.byte_count;
            let ghost ready = self.ready_direct_edges@;
            if !self.ready_direct_edges.remove(&key) {
                assert(ready.remove(key@) =~= ready);
                return Err(VulkanPlacedEdgeTransportError::MissingPacket { key });
            }
            self.direct_receive_count = self.direct_receive_count + 1;
            self.direct_receive_byte_count = self.direct_receive_byte_count + byte_count;
            return Ok(receipt);
        }
        let ghost packets = self.packets@;
        let packet: VulkanPlacedEdgePacket = match self.packets.remove(&key) {
            Some(packet) => packet,
            None => {
                assert(packets.remove(key@) =~= packets);
                return Err(VulkanPlacedEdgeTransportError::MissingPacket { key });
            },
        };
        if packet.byte_count != incoming.byte_capacity {
            return Err(
                VulkanPlacedEdgeTransportError::ByteCapacityMismatch {
                    key,
                    packet_byte_count: packet.byte_count,
                    incoming_byte_capacity: incoming.byte_capacity,
                },
            );
        }
        if let Err(error) = written {
            return Err(
                VulkanPlacedEdgeTransportError::Vulkan {
                    operation: "write incoming edge buffer".to_owned(),
                    error: error.clone(),
                },
            );
        }
        self.received_packet_count = self.received_packet_count + 1;
        self.received_byte_count = self.received_byte_count + packet.byte_count;
        Ok(
            VulkanPlacedEdgeTransportReceipt {
                key: packet.key,
                signal: packet.signal,
                byte_count: packet.byte_count,
            },
        )
    }

    /// Takes every incoming edge of a device that is there, given the device's answers to writing
    /// their buffers, up to the first failure.
    #[verifier::loop_isolation(false)]
    pub fn receive_available_incoming_edges(
        &mut self,
        device_id: &str,
        io: &VulkanPlacedEdgeIoBuffers,
        written: &Vec<Result<(), VulkanError>>,
    ) -> (r: Result<VulkanPlacedEdgeTransportReceiveBatch, VulkanPlacedEdgeTransportError>)
        requires
            old(self).valid(),
            forall|k: nat|
                k < io@.incoming_buffers.len() && (#[trigger] received_available(
                    old(self)@,
                    device_id@,
                    io@,
                    write_answers(written@),
                    k,
                )).0 is Ok ==> k < written@.len() && reception_fits(
                    received_available(old(self)@, device_id@, io@, write_answers(written@), k).1,
                    io@,
                    io@.incoming_buffers[k as int].endpoint.edge_index,
                    write_answers(written@)[k as int],
                ),
        ensures
            final(self).valid(),
            sequence::outcome(r) == received_available(
                old(self)@,
                device_id@,
                io@,
                write_answers(written@),
                io@.incoming_buffers.len(),
            ).0,
            final(self)@ == received_available(
                old(self)@,
                device_id@,
                io@,
                write_answers(written@),
                io@.incoming_buffers.len(),
            ).1,
    {
        let ghost start = self@;
        let ghost views = write_answers(written@);
        let mut received_receipts: Vec<VulkanPlacedEdgeTransportReceipt> = Vec::new();
        let mut missing_packets: Vec<VulkanPlacedEdgePacketKey> = Vec::new();
        let mut i: usize = 0;
        assert(received_receipts.deep_view() =~= Seq::empty());
        assert(missing_packets.deep_view() =~= Seq::empty());
        assert(io@.incoming_buffers.len() == io.incoming_buffers@.len());
        while i < io.incoming_buffers.len()
            invariant
                i <= io.incoming_buffers.len(),
                self.valid(),
                received_available(start, device_id@, io@, views, i as nat) == (
                    Ok::<
                        VulkanPlacedEdgeTransportReceiveBatchView,
                        VulkanPlacedEdgeTransportErrorView,
                    >(
                        VulkanPlacedEdgeTransportReceiveBatchView {
                            received: received_receipts.deep_view(),
                            missing_packets: missing_packets.deep_view(),
                        },
                    ),
                    self@,
                ),
            decreases io.incoming_buffers.len() - i,
        {
            let ghost step = received_available(start, device_id@, io@, views, i as nat);
            assert(step.0 is Ok);
            assert(io@.incoming_buffers[i as int] == io.incoming_buffers@[i as int]@);
            assert(views[i as int] == sequence::outcome(written@[i as int]));
            let edge_index: usize = io.incoming_buffers[i].endpoint.edge_index;
            match self.receive_incoming_edge(device_id, io, edge_index, &written[i]) {
                Ok(receipt) => {
                    let ghost before = received_receipts.deep_view();
                    let ghost added = receipt@;
                    received_receipts.push(receipt);
                    assert(received_receipts.deep_view() =~= before.push(added));
                },
                Err(VulkanPlacedEdgeTransportError::MissingPacket { key }) => {
                    let ghost before = missing_packets.deep_view();
                    let ghost added = key@;
                    missing_packets.push(key);
                    assert(missing_packets.deep_view() =~= before.push(added));
                },
                Err(e) => {
                    proof {
                        lemma_received_error(
                            start,
                            device_id@,
                            io@,
                            views,
                            (i + 1) as nat,
                            io@.incoming_buffers.len(),
                        );
                    }
                    return Err(e);
                },
            }
            i += 1;
        }
        Ok(
            VulkanPlacedEdgeTransportReceiveBatch {
                received: received_receipts,
                missing_packets,
            },
        )
    }
}

proof fn lemma_published_error(
    t: VulkanInProcessPlacedEdgeTransportView,
    device_id: Seq<char>,
    io: VulkanPlacedEdgeIoBuffersView,
    answers: Seq<Result<Seq<u8>, Seq<char>>>,
    k: nat,
    n: nat,
)
    requires
        k <= n,
        published_all(t, device_id, io, answers, k).0 is Err,
    ensures
        published_all(t, device_id, io, answers, n) == published_all(t, device_id, io, answers, k),
    decreases n - k,
{
    if k < n {
        lemma_published_error(t, device_id, io, answers, k, (n - 1) as nat);
    }
}

proof fn lemma_received_error(
    t: VulkanInProcessPlacedEdgeTransportView,
    device_id: Seq<char>,
    io: VulkanPlacedEdgeIoBuffersView,
    written: Seq<Result<(), Seq<char>>>,
    k: nat,
    n: nat,
)
    requires
        k <= n,
        received_available(t, device_id, io, written, k).0 is Err,
    ensures
        received_available(t, device_id, io, written, n) == received_available(
            t,
            device_id,
            io,
            written,
            k,
        ),
    decreases n - k,
{
    if k < n {
        lemma_received_error(t, device_id, io, written, k, (n - 1) as nat);
    }
}

// ---------------------------------------------------------------------------
// Laws
// ---------------------------------------------------------------------------

/// What was published is what is taken: the other end of the edge is handed exactly the published
/// bytes, its receipt is the publisher's, the packet is gone, and a second reception finds none. The
/// reception is counted, where the counts have room.
pub proof fn published_bytes_are_received(
    t: VulkanInProcessPlacedEdgeTransportView,
    from: Seq<char>,
    source: VulkanPlacedEdgeIoBuffersView,
    to: Seq<char>,
    destination: VulkanPlacedEdgeIoBuffersView,
    outgoing: VulkanPlacedEdgeBufferAllocationView,
    incoming: VulkanPlacedEdgeBufferAllocationView,
    edge_index: usize,
    bytes: Seq<u8>,
)
    requires
        buffers::endpoint_allocation_of(source.outgoing_buffers, edge_index) == Some(outgoing),
        buffers::endpoint_allocation_of(destination.incoming_buffers, edge_index) == Some(incoming),
        buffers::outgoing_key(outgoing.endpoint) == buffers::incoming_key(incoming.endpoint),
        !t.direct_copies.contains_key(buffers::outgoing_key(outgoing.endpoint)),
        bytes.len() == incoming.byte_capacity,
    ensures
        ({
            let key = buffers::outgoing_key(outgoing.endpoint);
            let (sent, after) = published(t, from, source, edge_index, Ok(bytes));
            let (taken, end) = received(after, to, destination, edge_index, Ok(()));
            &&& sent is Ok
            &&& bytes_to_write(after, destination, edge_index) == Some(bytes)
            &&& taken == sent
            &&& end.packets == t.packets.remove(key)
            &&& !end.packets.contains_key(key)
            &&& t.received_packet_count < usize::MAX && t.received_byte_count + bytes.len()
                <= usize::MAX ==> end.received_packet_count == t.received_packet_count + 1
                && end.received_byte_count == t.received_byte_count + bytes.len()
            &&& end.ready_direct_edges == t.ready_direct_edges
            &&& received(end, to, destination, edge_index, Ok(())).0 == Err::<
                VulkanPlacedEdgeTransportReceiptView,
                VulkanPlacedEdgeTransportErrorView,
            >(VulkanPlacedEdgeTransportErrorView::MissingPacket { key })
        }),
{
    let key = buffers::outgoing_key(outgoing.endpoint);
    let (sent, after) = published(t, from, source, edge_index, Ok(bytes));
    let (taken, end) = received(after, to, destination, edge_index, Ok(()));
    assert(end.packets =~= t.packets.remove(key));
}

/// A direct edge that was published is taken once, with the publisher's receipt.
pub proof fn direct_edges_are_received_once(
    t: VulkanInProcessPlacedEdgeTransportView,
    from: Seq<char>,
    source: VulkanPlacedEdgeIoBuffersView,
    to: Seq<char>,
    destination: VulkanPlacedEdgeIoBuffersView,
    outgoing: VulkanPlacedEdgeBufferAllocationView,
    incoming: VulkanPlacedEdgeBufferAllocationView,
    edge_index: usize,
    answer: Result<Seq<u8>, Seq<char>>,
    written: Result<(), Seq<char>>,
)
    requires
        buffers::endpoint_allocation_of(source.outgoing_buffers, edge_index) == Some(outgoing),
        buffers::endpoint_allocation_of(destination.incoming_buffers, edge_index) == Some(incoming),
        buffers::outgoing_key(outgoing.endpoint) == buffers::incoming_key(incoming.endpoint),
        t.direct_copies.contains_key(buffers::outgoing_key(outgoing.endpoint)),
        published(t, from, source, edge_index, answer).0 is Ok,
    ensures
        ({
            let key = buffers::outgoing_key(outgoing.endpoint);
            let (sent, after) = published(t, from, source, edge_index, answer);
            let (taken, end) = received(after, to, destination, edge_index, written);
            &&& taken == sent
            &&& bytes_to_write(after, destination, edge_index) is None
            &&& end.packets == t.packets
            &&& !end.ready_direct_edges.contains(key)
            &&& received(end, to, destination, edge_index, written).0 == Err::<
                VulkanPlacedEdgeTransportReceiptView,
                VulkanPlacedEdgeTransportErrorView,
            >(VulkanPlacedEdgeTransportErrorView::MissingPacket { key })
        }),
{
}

/// A transport that was reset has nothing pending and has moved nothing, and its direct edges stay.
pub proof fn reset_leaves_nothing_pending(t: VulkanInProcessPlacedEdgeTransportView)
    ensures
        ({
            let reset = idle_transport(t.direct_copies);
            let stats = transport_stats(reset);
            &&& reset.direct_copies == t.direct_copies
            &&& stats.pending_packet_count == 0
            &&& stats.pending_byte_count == 0
            &&& stats.pending_direct_edge_count == 0
            &&& stats.pending_direct_byte_count == 0
            &&& stats.published_packet_count == 0
            &&& stats.received_packet_count == 0
            &&& stats.direct_copy_count == 0
            &&& stats.direct_receive_count == 0
        }),
{
    let no_entries = Seq::<(VulkanPlacedEdgePacketKeyView, VulkanPlacedEdgePacketView)>::empty();
    let no_keys = Seq::<VulkanPlacedEdgePacketKeyView>::empty();
    assert(ordered::keys_of(no_entries) =~= Seq::empty());
    ordered::lemma_sorted_entries::<VulkanPlacedEdgePacketKey, VulkanPlacedEdgePacketView>(
        no_entries,
    );
    ordered::lemma_sorted_elements::<VulkanPlacedEdgePacketKey>(no_keys);
    assert(no_keys.to_set() =~= Set::empty());
}

/// An edge is registered for direct copies only where its two ends have the same key and the same
/// number of bytes. It then copies from the outgoing buffer to the incoming one, all of its bytes, or
/// copies nothing where both ends are one memory. An edge that is known stays as it is, and so does
/// every other edge.
pub proof fn registered_edges_copy_from_end_to_end(
    t: VulkanInProcessPlacedEdgeTransportView,
    outgoing: VulkanPlacedEdgeBufferAllocationView,
    incoming: VulkanPlacedEdgeBufferAllocationView,
    same_buffer: bool,
    created: Result<(), Seq<char>>,
    other: VulkanPlacedEdgePacketKeyView,
)
    ensures
        ({
            let (outcome, after) = registered(t, outgoing, incoming, same_buffer, created);
            let key = buffers::outgoing_key(outgoing.endpoint);
            let one_memory = same_buffer || (outgoing.buffer.host_allocation is Some
                && outgoing.buffer.host_allocation == incoming.buffer.host_allocation);
            &&& outcome is Err ==> after == t
            &&& outcome is Ok ==> {
                &&& key == buffers::incoming_key(incoming.endpoint)
                &&& after.direct_copies.contains_key(key)
                &&& t.direct_copies.contains_key(key) ==> after == t
                &&& !t.direct_copies.contains_key(key) ==> {
                    let direct = after.direct_copies[key];
                    &&& outgoing.byte_capacity == incoming.byte_capacity
                    &&& direct.key == key
                    &&& direct.signal == outgoing.endpoint.signal
                    &&& direct.source_component_id == outgoing.endpoint.local_component_id
                    &&& direct.destination_component_id == outgoing.endpoint.remote_component_id
                    &&& direct.byte_count == outgoing.byte_capacity
                    &&& direct.copy is None <==> one_memory
                    &&& direct.copy matches Some(copy) ==> {
                        &&& copy.source == outgoing.buffer
                        &&& copy.destination == incoming.buffer
                        &&& copy.byte_capacity == outgoing.byte_capacity
                    }
                }
            }
            &&& other != key ==> {
                &&& after.direct_copies.contains_key(other) == t.direct_copies.contains_key(other)
                &&& t.direct_copies.contains_key(other) ==> after.direct_copies[other]
                    == t.direct_copies[other]
            }
            &&& after.packets == t.packets
            &&& after.ready_direct_edges == t.ready_direct_edges
        }),
{
}

/// Publishing an edge leaves the other edges alone. A direct edge becomes ready and is counted with
/// its bytes; any other edge has its bytes packed under its key, from its own component to that of its
/// other end, and is counted with them. A failure changes nothing.
pub proof fn publishing_leaves_other_edges_alone(
    t: VulkanInProcessPlacedEdgeTransportView,
    device_id: Seq<char>,
    io: VulkanPlacedEdgeIoBuffersView,
    edge_index: usize,
    answer: Result<Seq<u8>, Seq<char>>,
    other: VulkanPlacedEdgePacketKeyView,
)
    requires
        publication_fits(t, io, edge_index, answer),
        answer matches Ok(bytes) ==> bytes.len() <= usize::MAX,
    ensures
        ({
            let (moved, after) = published(t, device_id, io, edge_index, answer);
            &&& moved is Err ==> after == t
            &&& moved matches Ok(receipt) ==> exists|i: int|
                0 <= i < io.outgoing_buffers.len() && {
                    let outgoing = #[trigger] io.outgoing_buffers[i];
                    let key = buffers::outgoing_key(outgoing.endpoint);
                    &&& outgoing.endpoint.edge_index == edge_index
                    &&& other != key ==> {
                        &&& after.packets.contains_key(other) == t.packets.contains_key(other)
                        &&& t.packets.contains_key(other) ==> after.packets[other]
                            == t.packets[other]
                        &&& after.ready_direct_edges.contains(other)
                            == t.ready_direct_edges.contains(other)
                    }
                    &&& t.direct_copies.contains_key(key) ==> {
                        &&& after.ready_direct_edges.contains(key)
                        &&& after.packets == t.packets
                        &&& after.direct_copy_count == t.direct_copy_count + 1
                        &&& after.direct_copy_byte_count == t.direct_copy_byte_count
                            + t.direct_copies[key].byte_count
                        &&& receipt.byte_count == t.direct_copies[key].byte_count
                        &&& receipt.signal == t.direct_copies[key].signal
                    }
                    &&& !t.direct_copies.contains_key(key) ==> {
                        &&& answer is Ok
                        &&& after.packets.contains_key(key)
                        &&& after.packets[key].key == key
                        &&& after.packets[key].bytes == answer->Ok_0
                        &&& after.packets[key].byte_count == answer->Ok_0.len()
                        &&& after.packets[key].signal == outgoing.endpoint.signal
                        &&& after.packets[key].source_component_id
                            == outgoing.endpoint.local_component_id
                        &&& after.packets[key].destination_component_id
                            == outgoing.endpoint.remote_component_id
                        &&& after.ready_direct_edges == t.ready_direct_edges
                        &&& after.published_packet_count == t.published_packet_count + 1
                        &&& after.published_byte_count == t.published_byte_count
                            + answer->Ok_0.len()
                        &&& receipt.key == key
                        &&& receipt.byte_count == answer->Ok_0.len()
                        &&& receipt.signal == outgoing.endpoint.signal
                    }
                }
        }),
{
    let p = buffers::of_edge(edge_index);
    if sequence::find_first(io.outgoing_buffers, p) is Some {
        let i = sequence::lemma_find_first_some(io.outgoing_buffers, p);
        assert(io.outgoing_buffers[i].endpoint.edge_index == edge_index);
    }
}

/// What is to be done to publish an edge: nothing but to announce it where both ends are one memory,
/// a copy where it was registered with one, and a read of the whole buffer otherwise.
pub proof fn publications_follow_the_registration(
    t: VulkanInProcessPlacedEdgeTransportView,
    device_id: Seq<char>,
    io: VulkanPlacedEdgeIoBuffersView,
    edge_index: usize,
)
    requires
        publication(t, device_id, io, edge_index) is Ok,
    ensures
        exists|i: int|
            0 <= i < io.outgoing_buffers.len() && {
                let outgoing = #[trigger] io.outgoing_buffers[i];
                let key = buffers::outgoing_key(outgoing.endpoint);
                &&& outgoing.endpoint.edge_index == edge_index
                &&& match publication(t, device_id, io, edge_index)->Ok_0 {
                    VulkanPlacedEdgePublicationView::Shared => t.direct_copies.contains_key(key)
                        && t.direct_copies[key].copy is None,
                    VulkanPlacedEdgePublicationView::Copy { copy, byte_count } => {
                        &&& t.direct_copies.contains_key(key)
                        &&& t.direct_copies[key].copy == Some(copy)
                        &&& byte_count == t.direct_copies[key].byte_count
                    },
                    VulkanPlacedEdgePublicationView::Read { byte_count } => {
                        &&& !t.direct_copies.contains_key(key)
                        &&& byte_count == outgoing.byte_capacity
                    },
                }
            },
{
    let p = buffers::of_edge(edge_index);
    let i = sequence::lemma_find_first_some(io.outgoing_buffers, p);
    assert(io.outgoing_buffers[i].endpoint.edge_index == edge_index);
}

/// Receiving an edge leaves the other edges alone. A packet is taken whether or not it can be
/// written, and a direct edge is no longer ready; each is counted with its bytes where it was
/// received.
pub proof fn receiving_leaves_other_edges_alone(
    t: VulkanInProcessPlacedEdgeTransportView,
    device_id: Seq<char>,
    io: VulkanPlacedEdgeIoBuffersView,
    edge_index: usize,
    written: Result<(), Seq<char>>,
    other: VulkanPlacedEdgePacketKeyView,
)
    requires
        reception_fits(t, io, edge_index, written),
    ensures
        ({
            let (moved, after) = received(t, device_id, io, edge_index, written);
            &&& after.direct_copies == t.direct_copies
            &&& moved matches Ok(receipt) ==> exists|i: int|
                0 <= i < io.incoming_buffers.len() && {
                    let incoming = #[trigger] io.incoming_buffers[i];
                    let key = buffers::incoming_key(incoming.endpoint);
                    &&& incoming.endpoint.edge_index == edge_index
                    &&& other != key ==> {
                        &&& after.packets.contains_key(other) == t.packets.contains_key(other)
                        &&& t.packets.contains_key(other) ==> after.packets[other]
                            == t.packets[other]
                        &&& after.ready_direct_edges.contains(other)
                            == t.ready_direct_edges.contains(other)
                    }
                    &&& t.direct_copies.contains_key(key) ==> {
                        &&& t.ready_direct_edges.contains(key)
                        &&& !after.ready_direct_edges.contains(key)
                        &&& after.direct_receive_count == t.direct_receive_count + 1
                        &&& after.direct_receive_byte_count == t.direct_receive_byte_count
                            + t.direct_copies[key].byte_count
                    }
                    &&& !t.direct_copies.contains_key(key) ==> {
                        &&& t.packets.contains_key(key)
                        &&& !after.packets.contains_key(key)
                        &&& t.packets[key].byte_count == incoming.byte_capacity
                        &&& written is Ok
                        &&& receipt.byte_count == t.packets[key].byte_count
                        &&& receipt.key == t.packets[key].key
                        &&& receipt.signal == t.packets[key].signal
                        &&& after.received_packet_count == t.received_packet_count + 1
                        &&& after.received_byte_count == t.received_byte_count
                            + t.packets[key].byte_count
                    }
                }
        }),
{
    let p = buffers::of_edge(edge_index);
    if sequence::find_first(io.incoming_buffers, p) is Some {
        let i = sequence::lemma_find_first_some(io.incoming_buffers, p);
        assert(io.incoming_buffers[i].endpoint.edge_index == edge_index);
    }
}

/// The statistics say what the transport has counted, and count what is pending.
pub proof fn statistics_say_what_was_counted(t: VulkanInProcessPlacedEdgeTransportView)
    requires
        t.packets.dom().finite(),
        t.pending().len() <= usize::MAX,
        t.ready().len() <= usize::MAX,
    ensures
        ({
            let stats = transport_stats(t);
            &&& stats.published_packet_count == t.published_packet_count
            &&& stats.published_byte_count == t.published_byte_count
            &&& stats.received_packet_count == t.received_packet_count
            &&& stats.received_byte_count == t.received_byte_count
            &&& stats.direct_copy_count == t.direct_copy_count
            &&& stats.direct_copy_byte_count == t.direct_copy_byte_count
            &&& stats.direct_receive_count == t.direct_receive_count
            &&& stats.direct_receive_byte_count == t.direct_receive_byte_count
            &&& stats.pending_packet_count == t.pending().len()
            &&& stats.pending_direct_edge_count == t.ready().len()
            &&& forall|key: VulkanPlacedEdgePacketKeyView|
                t.packets.contains_key(key) ==> exists|i: int|
                    0 <= i < t.pending().len() && (#[trigger] t.pending()[i]).0 == key
                        && t.pending()[i].1 == #[trigger] t.packets[key]
        }),
{
    ordered::sorting_keeps_the_entries::<VulkanPlacedEdgePacketKey, VulkanPlacedEdgePacketView>(
        t.packets,
    );
    ordered::lemma_increasing_entries::<VulkanPlacedEdgePacketKey, VulkanPlacedEdgePacketView>(
        t.pending(),
    );
}

} // verus!
