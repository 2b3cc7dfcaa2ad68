//! Moving signals between devices of one process.
//!
//! A signal either travels as a packet, or lies in memory that both ends share or that is copied
//! directly. What a device has to do (read a buffer, run a copy, write a buffer) is asked for by
//! one function, and its answer handed to another.

use crate::device::VulkanError;
use crate::device::VulkanResidentMappedBufferCopy;
use crate::device::VulkanResidentMappedBufferCopyView;
use crate::device;
use crate::cables::buffers;
use crate::cables::buffers::VulkanPlacedCableBufferAllocation;
use crate::cables::buffers::VulkanPlacedCableBufferAllocationView;
use crate::cables::buffers::VulkanPlacedCableIoBuffers;
use crate::cables::buffers::VulkanPlacedCableIoBuffersView;
use crate::cables::buffers::VulkanPlacedCablePacket;
use crate::cables::buffers::VulkanPlacedCablePacketKey;
use crate::cables::buffers::VulkanPlacedCablePacketKeyView;
use crate::cables::buffers::VulkanPlacedCablePacketView;
use crate::cables::buffers::VulkanPlacedCableTransportReceipt;
use crate::cables::buffers::VulkanPlacedCableTransportReceiptView;
use crate::cables::buffers::VulkanPlacedCableTransportReceiveBatch;
use crate::cables::buffers::VulkanPlacedCableTransportReceiveBatchView;
use crate::cables::buffers::VulkanPlacedCableTransportStats;
use crate::cables::buffers::VulkanPlacedCableTransportStatsView;
use crate::ordered;
use crate::ordered::OrderedMap;
use crate::ordered::OrderedSet;
use crate::ordered::SortKey;
use crate::sequence;
use crate::text;
use crate::text::Message;
use vstd::prelude::*;

verus! {

/// Why a signal was not moved.
#[derive(Debug, PartialEq, Eq)]
pub enum VulkanPlacedCableTransportError {
    MissingOutgoingCable { device_id: String, cable_index: usize },
    MissingIncomingCable { device_id: String, cable_index: usize },
    MissingPacket { key: VulkanPlacedCablePacketKey },
    ByteCapacityMismatch {
        key: VulkanPlacedCablePacketKey,
        packet_byte_count: usize,
        incoming_byte_capacity: usize,
    },
    EndpointMismatch {
        outgoing_key: VulkanPlacedCablePacketKey,
        incoming_key: VulkanPlacedCablePacketKey,
    },
    Vulkan { operation: String, error: VulkanError },
}

#[verifier::ext_equal]
pub enum VulkanPlacedCableTransportErrorView {
    MissingOutgoingCable { device_id: Seq<char>, cable_index: usize },
    MissingIncomingCable { device_id: Seq<char>, cable_index: usize },
    MissingPacket { key: VulkanPlacedCablePacketKeyView },
    ByteCapacityMismatch { key: VulkanPlacedCablePacketKeyView, packet_byte_count: usize, incoming_byte_capacity: usize },
    EndpointMismatch { outgoing_key: VulkanPlacedCablePacketKeyView, incoming_key: VulkanPlacedCablePacketKeyView },
    Vulkan { operation: Seq<char>, error: Seq<char> },
}

impl DeepView for VulkanPlacedCableTransportError {
    type V = VulkanPlacedCableTransportErrorView;

    open spec fn deep_view(&self) -> VulkanPlacedCableTransportErrorView {
        match self {
            VulkanPlacedCableTransportError::MissingOutgoingCable { device_id, cable_index } => VulkanPlacedCableTransportErrorView::MissingOutgoingCable { device_id: device_id.deep_view(), cable_index: *cable_index },
            VulkanPlacedCableTransportError::MissingIncomingCable { device_id, cable_index } => VulkanPlacedCableTransportErrorView::MissingIncomingCable { device_id: device_id.deep_view(), cable_index: *cable_index },
            VulkanPlacedCableTransportError::MissingPacket { key } => VulkanPlacedCableTransportErrorView::MissingPacket { key: key.deep_view() },
            VulkanPlacedCableTransportError::ByteCapacityMismatch { key, packet_byte_count, incoming_byte_capacity } => VulkanPlacedCableTransportErrorView::ByteCapacityMismatch { key: key.deep_view(), packet_byte_count: *packet_byte_count, incoming_byte_capacity: *incoming_byte_capacity },
            VulkanPlacedCableTransportError::EndpointMismatch { outgoing_key, incoming_key } => VulkanPlacedCableTransportErrorView::EndpointMismatch { outgoing_key: outgoing_key.deep_view(), incoming_key: incoming_key.deep_view() },
            VulkanPlacedCableTransportError::Vulkan { operation, error } => VulkanPlacedCableTransportErrorView::Vulkan { operation: operation.deep_view(), error: error.deep_view() },
        }
    }
}

impl View for VulkanPlacedCableTransportError {
    type V = VulkanPlacedCableTransportErrorView;

    open spec fn view(&self) -> VulkanPlacedCableTransportErrorView {
        self.deep_view()
    }
}

impl Clone for VulkanPlacedCableTransportError {
    fn clone(&self) -> (r: Self)
        ensures
            r@ == self@,
    {
        match self {
            VulkanPlacedCableTransportError::MissingOutgoingCable { device_id, cable_index } => VulkanPlacedCableTransportError::MissingOutgoingCable { device_id: device_id.clone(), cable_index: *cable_index },
            VulkanPlacedCableTransportError::MissingIncomingCable { device_id, cable_index } => VulkanPlacedCableTransportError::MissingIncomingCable { device_id: device_id.clone(), cable_index: *cable_index },
            VulkanPlacedCableTransportError::MissingPacket { key } => VulkanPlacedCableTransportError::MissingPacket { key: key.clone() },
            VulkanPlacedCableTransportError::ByteCapacityMismatch { key, packet_byte_count, incoming_byte_capacity } => VulkanPlacedCableTransportError::ByteCapacityMismatch { key: key.clone(), packet_byte_count: *packet_byte_count, incoming_byte_capacity: *incoming_byte_capacity },
            VulkanPlacedCableTransportError::EndpointMismatch { outgoing_key, incoming_key } => VulkanPlacedCableTransportError::EndpointMismatch { outgoing_key: outgoing_key.clone(), incoming_key: incoming_key.clone() },
            VulkanPlacedCableTransportError::Vulkan { operation, error } => VulkanPlacedCableTransportError::Vulkan { operation: operation.clone(), error: error.clone() },
        }
    }
}

/// A cable and its two devices, as a message names them.
pub open spec fn key_text(key: VulkanPlacedCablePacketKeyView) -> Seq<char> {
    "cable "@ + text::decimal(key.cable_index as nat) + " from "@ + text::quoted(key.from_device_id)
        + " to "@ + text::quoted(key.to_device_id)
}

/// What an error says.
pub open spec fn transport_message(error: VulkanPlacedCableTransportErrorView) -> Seq<char> {
    match error {
        VulkanPlacedCableTransportErrorView::MissingOutgoingCable { device_id, cable_index } => {
            "device "@ + text::quoted(device_id) + " has no outgoing cable buffer for cable "@
                + text::decimal(cable_index as nat)
        },
        VulkanPlacedCableTransportErrorView::MissingIncomingCable { device_id, cable_index } => {
            "device "@ + text::quoted(device_id) + " has no incoming cable buffer for cable "@
                + text::decimal(cable_index as nat)
        },
        VulkanPlacedCableTransportErrorView::MissingPacket { key } => {
            "no in-process cable packet for "@ + key_text(key)
        },
        VulkanPlacedCableTransportErrorView::ByteCapacityMismatch {
            key,
            packet_byte_count,
            incoming_byte_capacity,
        } => {
            "in-process cable packet for "@ + key_text(key) + " has "@ + text::decimal(
                packet_byte_count as nat,
            ) + " bytes, but incoming buffer has "@ + text::decimal(incoming_byte_capacity as nat)
                + " bytes"@
        },
        VulkanPlacedCableTransportErrorView::EndpointMismatch { outgoing_key, incoming_key } => {
            "direct in-process cable endpoint mismatch: outgoing "@ + key_text(outgoing_key)
                + ", incoming "@ + key_text(incoming_key)
        },
        VulkanPlacedCableTransportErrorView::Vulkan { operation, error } => {
            operation + " failed: "@ + error
        },
    }
}

fn write_key(key: &VulkanPlacedCablePacketKey) -> (r: String)
    ensures
        r@ == key_text(key@),
{
    Message::new("cable ").number(key.cable_index).text(" from ").quoted(
        key.from_device_id.as_str(),
    ).text(" to ").quoted(key.to_device_id.as_str()).done()
}

impl VulkanPlacedCableTransportError {
    /// The message.
    pub fn to_string(&self) -> (r: String)
        ensures
            r@ == transport_message(self@),
    {
        match self {
            VulkanPlacedCableTransportError::MissingOutgoingCable { device_id, cable_index } => {
                Message::new("device ").quoted(device_id.as_str()).text(
                    " has no outgoing cable buffer for cable ",
                ).number(*cable_index).done()
            },
            VulkanPlacedCableTransportError::MissingIncomingCable { device_id, cable_index } => {
                Message::new("device ").quoted(device_id.as_str()).text(
                    " has no incoming cable buffer for cable ",
                ).number(*cable_index).done()
            },
            VulkanPlacedCableTransportError::MissingPacket { key } => {
                Message::new("no in-process cable packet for ").text(write_key(key).as_str()).done()
            },
            VulkanPlacedCableTransportError::ByteCapacityMismatch {
                key,
                packet_byte_count,
                incoming_byte_capacity,
            } => {
                Message::new("in-process cable packet for ").text(write_key(key).as_str()).text(
                    " has ",
                ).number(*packet_byte_count).text(" bytes, but incoming buffer has ").number(
                    *incoming_byte_capacity,
                ).text(" bytes").done()
            },
            VulkanPlacedCableTransportError::EndpointMismatch { outgoing_key, incoming_key } => {
                Message::new("direct in-process cable endpoint mismatch: outgoing ").text(
                    write_key(outgoing_key).as_str(),
                ).text(", incoming ").text(write_key(incoming_key).as_str()).done()
            },
            VulkanPlacedCableTransportError::Vulkan { operation, error } => {
                Message::new(operation.as_str()).text(" failed: ").text(error.0.as_str()).done()
            },
        }
    }
}

/// A cable whose signal needs no packet: it is copied directly, or both ends share its memory.
#[derive(Debug, PartialEq, Eq)]
pub struct VulkanPlacedCableDirectCopy {
    pub key: VulkanPlacedCablePacketKey,
    pub signal: String,
    pub source_pedal_id: String,
    pub destination_pedal_id: String,
    pub byte_count: usize,
    pub copy: Option<VulkanResidentMappedBufferCopy>,
}

#[verifier::ext_equal]
pub struct VulkanPlacedCableDirectCopyView {
    pub key: VulkanPlacedCablePacketKeyView,
    pub signal: Seq<char>,
    pub source_pedal_id: Seq<char>,
    pub destination_pedal_id: Seq<char>,
    pub byte_count: usize,
    pub copy: Option<VulkanResidentMappedBufferCopyView>,
}

impl DeepView for VulkanPlacedCableDirectCopy {
    type V = VulkanPlacedCableDirectCopyView;

    open spec fn deep_view(&self) -> VulkanPlacedCableDirectCopyView {
        VulkanPlacedCableDirectCopyView {
            key: self.key.deep_view(),
            signal: self.signal.deep_view(),
            source_pedal_id: self.source_pedal_id.deep_view(),
            destination_pedal_id: self.destination_pedal_id.deep_view(),
            byte_count: self.byte_count,
            copy: self.copy.deep_view(),
        }
    }
}

impl View for VulkanPlacedCableDirectCopy {
    type V = VulkanPlacedCableDirectCopyView;

    open spec fn view(&self) -> VulkanPlacedCableDirectCopyView {
        self.deep_view()
    }
}

impl Clone for VulkanPlacedCableDirectCopy {
    fn clone(&self) -> (r: Self)
        ensures
            r@ == self@,
    {
        VulkanPlacedCableDirectCopy {
            key: self.key.clone(),
            signal: self.signal.clone(),
            source_pedal_id: self.source_pedal_id.clone(),
            destination_pedal_id: self.destination_pedal_id.clone(),
            byte_count: self.byte_count,
            copy: self.copy.clone(),
        }
    }
}

/// The signals on their way, and the counts of those that were moved.
#[derive(Debug, PartialEq, Eq)]
pub struct VulkanInProcessPlacedCableTransport {
    pub packets: OrderedMap<VulkanPlacedCablePacketKey, VulkanPlacedCablePacket>,
    pub direct_copies: OrderedMap<VulkanPlacedCablePacketKey, VulkanPlacedCableDirectCopy>,
    pub ready_direct_cables: OrderedSet<VulkanPlacedCablePacketKey>,
    pub published_packet_count: usize,
    pub published_byte_count: usize,
    pub received_packet_count: usize,
    pub received_byte_count: usize,
    pub direct_copy_count: usize,
    pub direct_copy_byte_count: usize,
    pub direct_receive_count: usize,
    pub direct_receive_byte_count: usize,
}

#[verifier::ext_equal]
pub struct VulkanInProcessPlacedCableTransportView {
    pub packets: Map<VulkanPlacedCablePacketKeyView, VulkanPlacedCablePacketView>,
    pub direct_copies: Map<VulkanPlacedCablePacketKeyView, VulkanPlacedCableDirectCopyView>,
    pub ready_direct_cables: Set<VulkanPlacedCablePacketKeyView>,
    pub published_packet_count: usize,
    pub published_byte_count: usize,
    pub received_packet_count: usize,
    pub received_byte_count: usize,
    pub direct_copy_count: usize,
    pub direct_copy_byte_count: usize,
    pub direct_receive_count: usize,
    pub direct_receive_byte_count: usize,
}

impl DeepView for VulkanInProcessPlacedCableTransport {
    type V = VulkanInProcessPlacedCableTransportView;

    open spec fn deep_view(&self) -> VulkanInProcessPlacedCableTransportView {
        VulkanInProcessPlacedCableTransportView {
            packets: self.packets.deep_view(),
            direct_copies: self.direct_copies.deep_view(),
            ready_direct_cables: self.ready_direct_cables.deep_view(),
            published_packet_count: self.published_packet_count,
            published_byte_count: self.published_byte_count,
            received_packet_count: self.received_packet_count,
            received_byte_count: self.received_byte_count,
            direct_copy_count: self.direct_copy_count,
            direct_copy_byte_count: self.direct_copy_byte_count,
            direct_receive_count: self.direct_receive_count,
            direct_receive_byte_count: self.direct_receive_byte_count,
        }
    }
}

impl View for VulkanInProcessPlacedCableTransport {
    type V = VulkanInProcessPlacedCableTransportView;

    open spec fn view(&self) -> VulkanInProcessPlacedCableTransportView {
        self.deep_view()
    }
}

/// A transport that has moved nothing.
pub open spec fn idle_transport(
    direct_copies: Map<VulkanPlacedCablePacketKeyView, VulkanPlacedCableDirectCopyView>,
) -> VulkanInProcessPlacedCableTransportView {
    VulkanInProcessPlacedCableTransportView {
        packets: Map::empty(),
        direct_copies,
        ready_direct_cables: Set::empty(),
        published_packet_count: 0,
        published_byte_count: 0,
        received_packet_count: 0,
        received_byte_count: 0,
        direct_copy_count: 0,
        direct_copy_byte_count: 0,
        direct_receive_count: 0,
        direct_receive_byte_count: 0,
    }
}

/// The bytes of a packet.
pub open spec fn packet_bytes() -> spec_fn(
    (VulkanPlacedCablePacketKeyView, VulkanPlacedCablePacketView),
) -> nat {
    |entry: (VulkanPlacedCablePacketKeyView, VulkanPlacedCablePacketView)| entry.1.byte_count as nat
}

/// The bytes of a direct cable.
pub open spec fn direct_bytes(
    direct_copies: Map<VulkanPlacedCablePacketKeyView, VulkanPlacedCableDirectCopyView>,
) -> spec_fn(VulkanPlacedCablePacketKeyView) -> nat {
    |key: VulkanPlacedCablePacketKeyView|
        if direct_copies.contains_key(key) {
            direct_copies[key].byte_count as nat
        } else {
            0
        }
}

impl VulkanInProcessPlacedCableTransportView {
    /// The packets on their way, in the order of their keys.
    pub open spec fn pending(self) -> Seq<
        (VulkanPlacedCablePacketKeyView, VulkanPlacedCablePacketView),
    > {
        ordered::sorted_entries::<VulkanPlacedCablePacketKey, VulkanPlacedCablePacketView>(
            self.packets,
        )
    }

    /// The direct cables that are ready, in the order of their keys.
    pub open spec fn ready(self) -> Seq<VulkanPlacedCablePacketKeyView> {
        ordered::sorted_elements::<VulkanPlacedCablePacketKey>(self.ready_direct_cables)
    }

    /// The bytes of the packets on their way.
    pub open spec fn pending_bytes(self) -> nat {
        sequence::total(self.pending(), packet_bytes())
    }

    /// The bytes of the direct cables that are ready.
    pub open spec fn ready_bytes(self) -> nat {
        sequence::total(self.ready(), direct_bytes(self.direct_copies))
    }
}

/// What a transport's counts say.
pub open spec fn transport_stats(
    t: VulkanInProcessPlacedCableTransportView,
) -> VulkanPlacedCableTransportStatsView {
    VulkanPlacedCableTransportStatsView {
        pending_packet_count: t.pending().len() as usize,
        pending_byte_count: t.pending_bytes() as usize,
        pending_direct_cable_count: t.ready().len() as usize,
        pending_direct_byte_count: t.ready_bytes() as usize,
        published_packet_count: t.published_packet_count,
        published_byte_count: t.published_byte_count,
        received_packet_count: t.received_packet_count,
        received_byte_count: t.received_byte_count,
        direct_copy_count: t.direct_copy_count,
        direct_copy_byte_count: t.direct_copy_byte_count,
        direct_receive_count: t.direct_receive_count,
        direct_receive_byte_count: t.direct_receive_byte_count,
    }
}

/// What moving a signal gives: a receipt, or why it was not moved.
pub type Moved = Result<VulkanPlacedCableTransportReceiptView, VulkanPlacedCableTransportErrorView>;

/// The receipt of a direct cable.
pub open spec fn direct_receipt(
    direct: VulkanPlacedCableDirectCopyView,
) -> VulkanPlacedCableTransportReceiptView {
    VulkanPlacedCableTransportReceiptView {
        key: direct.key,
        signal: direct.signal,
        byte_count: direct.byte_count,
    }
}

/// The packet of an outgoing cable.
pub open spec fn outgoing_packet(
    outgoing: VulkanPlacedCableBufferAllocationView,
    bytes: Seq<u8>,
) -> VulkanPlacedCablePacketView {
    VulkanPlacedCablePacketView {
        key: buffers::outgoing_key(outgoing.endpoint),
        signal: outgoing.endpoint.signal,
        source_pedal_id: outgoing.endpoint.local_pedal_id,
        destination_pedal_id: outgoing.endpoint.remote_pedal_id,
        byte_count: bytes.len() as usize,
        bytes,
    }
}

/// The receipt of a packet.
pub open spec fn packet_receipt(
    packet: VulkanPlacedCablePacketView,
) -> VulkanPlacedCableTransportReceiptView {
    VulkanPlacedCableTransportReceiptView {
        key: packet.key,
        signal: packet.signal,
        byte_count: packet.byte_count,
    }
}

/// Whether both ends of a cable need no copy between them.
pub open spec fn shares_memory(
    outgoing: VulkanPlacedCableBufferAllocationView,
    incoming: VulkanPlacedCableBufferAllocationView,
    same_buffer: bool,
) -> bool {
    same_buffer || device::shares_host_allocation(outgoing.buffer, incoming.buffer)
}

/// The direct cable between two endpoints.
pub open spec fn direct_cable(
    outgoing: VulkanPlacedCableBufferAllocationView,
    incoming: VulkanPlacedCableBufferAllocationView,
    same_buffer: bool,
) -> VulkanPlacedCableDirectCopyView {
    VulkanPlacedCableDirectCopyView {
        key: buffers::outgoing_key(outgoing.endpoint),
        signal: outgoing.endpoint.signal,
        source_pedal_id: outgoing.endpoint.local_pedal_id,
        destination_pedal_id: outgoing.endpoint.remote_pedal_id,
        byte_count: outgoing.byte_capacity,
        copy: if shares_memory(outgoing, incoming, same_buffer) {
            None
        } else {
            Some(
                VulkanResidentMappedBufferCopyView {
                    source: outgoing.buffer,
                    destination: incoming.buffer,
                    byte_capacity: outgoing.byte_capacity,
                },
            )
        },
    }
}

/// A transport after a cable was registered as direct.
pub open spec fn registered(
    t: VulkanInProcessPlacedCableTransportView,
    outgoing: VulkanPlacedCableBufferAllocationView,
    incoming: VulkanPlacedCableBufferAllocationView,
    same_buffer: bool,
    created: Result<(), Seq<char>>,
) -> (Result<(), VulkanPlacedCableTransportErrorView>, VulkanInProcessPlacedCableTransportView) {
    let outgoing_key = buffers::outgoing_key(outgoing.endpoint);
    let incoming_key = buffers::incoming_key(incoming.endpoint);
    if outgoing_key != incoming_key {
        (
            Err(
                VulkanPlacedCableTransportErrorView::EndpointMismatch { outgoing_key, incoming_key },
            ),
            t,
        )
    } else if t.direct_copies.contains_key(outgoing_key) {
        (Ok(()), t)
    } else if outgoing.byte_capacity != incoming.byte_capacity {
        (
            Err(
                VulkanPlacedCableTransportErrorView::ByteCapacityMismatch {
                    key: outgoing_key,
                    packet_byte_count: outgoing.byte_capacity,
                    incoming_byte_capacity: incoming.byte_capacity,
                },
            ),
            t,
        )
    } else if !shares_memory(outgoing, incoming, same_buffer) && created is Err {
        (
            Err(
                VulkanPlacedCableTransportErrorView::Vulkan {
                    operation: "create persistently mapped cable buffer copy"@,
                    error: created->Err_0,
                },
            ),
            t,
        )
    } else {
        (
            Ok(()),
            VulkanInProcessPlacedCableTransportView {
                direct_copies: t.direct_copies.insert(
                    outgoing_key,
                    direct_cable(outgoing, incoming, same_buffer),
                ),
                ..t
            },
        )
    }
}

/// A transport after an outgoing cable was published. The answer is that of the device: to the copy
/// that a direct cable needs, or else to reading the cable's buffer.
pub open spec fn published(
    t: VulkanInProcessPlacedCableTransportView,
    device_id: Seq<char>,
    io: VulkanPlacedCableIoBuffersView,
    cable_index: usize,
    answer: Result<Seq<u8>, Seq<char>>,
) -> (Moved, VulkanInProcessPlacedCableTransportView) {
    match buffers::endpoint_allocation_of(io.outgoing_buffers, cable_index) {
        None => (
            Err(VulkanPlacedCableTransportErrorView::MissingOutgoingCable { device_id, cable_index }),
            t,
        ),
        Some(outgoing) => {
            let key = buffers::outgoing_key(outgoing.endpoint);
            if t.direct_copies.contains_key(key) {
                let direct = t.direct_copies[key];
                if direct.copy is Some && answer is Err {
                    (
                        Err(
                            VulkanPlacedCableTransportErrorView::Vulkan {
                                operation: "run direct cable buffer copy"@,
                                error: answer->Err_0,
                            },
                        ),
                        t,
                    )
                } else {
                    (
                        Ok(direct_receipt(direct)),
                        VulkanInProcessPlacedCableTransportView {
                            ready_direct_cables: t.ready_direct_cables.insert(key),
                            direct_copy_count: (t.direct_copy_count + 1) as usize,
                            direct_copy_byte_count: (t.direct_copy_byte_count
                                + direct.byte_count) as usize,
                            ..t
                        },
                    )
                }
            } else {
                match answer {
                    Err(error) => (
                        Err(
                            VulkanPlacedCableTransportErrorView::Vulkan {
                                operation: "read outgoing cable buffer"@,
                                error,
                            },
                        ),
                        t,
                    ),
                    Ok(bytes) => (
                        Ok(packet_receipt(outgoing_packet(outgoing, bytes))),
                        VulkanInProcessPlacedCableTransportView {
                            packets: t.packets.insert(key, outgoing_packet(outgoing, bytes)),
                            published_packet_count: (t.published_packet_count + 1) as usize,
                            published_byte_count: (t.published_byte_count + bytes.len()) as usize,
                            ..t
                        },
                    ),
                }
            }
        },
    }
}

/// Whether the counts of a transport have room for a publication, where it is counted: one that fails
/// is not.
pub open spec fn publication_fits(
    t: VulkanInProcessPlacedCableTransportView,
    io: VulkanPlacedCableIoBuffersView,
    cable_index: usize,
    answer: Result<Seq<u8>, Seq<char>>,
) -> bool {
    match buffers::endpoint_allocation_of(io.outgoing_buffers, cable_index) {
        None => true,
        Some(outgoing) => {
            let key = buffers::outgoing_key(outgoing.endpoint);
            if t.direct_copies.contains_key(key) {
                t.direct_copies[key].copy is None || answer is Ok ==> {
                    &&& t.direct_copy_count < usize::MAX
                    &&& t.direct_copy_byte_count + t.direct_copies[key].byte_count <= usize::MAX
                }
            } else {
                answer is Ok ==> {
                    &&& t.published_packet_count < usize::MAX
                    &&& t.published_byte_count + answer->Ok_0.len() <= usize::MAX
                }
            }
        },
    }
}

/// A transport after the first `n` outgoing cables of a device were published, one after the other
/// up to the first failure.
pub open spec fn published_all(
    t: VulkanInProcessPlacedCableTransportView,
    device_id: Seq<char>,
    io: VulkanPlacedCableIoBuffersView,
    answers: Seq<Result<Seq<u8>, Seq<char>>>,
    n: nat,
) -> (
    Result<Seq<VulkanPlacedCableTransportReceiptView>, VulkanPlacedCableTransportErrorView>,
    VulkanInProcessPlacedCableTransportView,
)
    decreases n,
{
    if n == 0 {
        (Ok(Seq::empty()), t)
    } else {
        let k = (n - 1) as nat;
        let (done, before) = published_all(t, device_id, io, answers, k);
        match done {
            Err(e) => (Err(e), before),
            Ok(receipts) => {
                let (moved, after) = published(
                    before,
                    device_id,
                    io,
                    io.outgoing_buffers[k as int].endpoint.cable_index,
                    answers[k as int],
                );
                match moved {
                    Err(e) => (Err(e), after),
                    Ok(receipt) => (Ok(receipts.push(receipt)), after),
                }
            },
        }
    }
}

/// The bytes that have to be written into the buffer of an incoming cable.
pub open spec fn bytes_to_write(
    t: VulkanInProcessPlacedCableTransportView,
    io: VulkanPlacedCableIoBuffersView,
    cable_index: usize,
) -> Option<Seq<u8>> {
    match buffers::endpoint_allocation_of(io.incoming_buffers, cable_index) {
        None => None,
        Some(incoming) => {
            let key = buffers::incoming_key(incoming.endpoint);
            if t.direct_copies.contains_key(key) || !t.packets.contains_key(key)
                || t.packets[key].byte_count != incoming.byte_capacity {
                None
            } else {
                Some(t.packets[key].bytes)
            }
        },
    }
}

/// A transport after an incoming cable was taken. The answer is that of the device to writing the
/// cable's buffer, where there was something to write.
pub open spec fn received(
    t: VulkanInProcessPlacedCableTransportView,
    device_id: Seq<char>,
    io: VulkanPlacedCableIoBuffersView,
    cable_index: usize,
    written: Result<(), Seq<char>>,
) -> (Moved, VulkanInProcessPlacedCableTransportView) {
    match buffers::endpoint_allocation_of(io.incoming_buffers, cable_index) {
        None => (
            Err(VulkanPlacedCableTransportErrorView::MissingIncomingCable { device_id, cable_index }),
            t,
        ),
        Some(incoming) => {
            let key = buffers::incoming_key(incoming.endpoint);
            if t.direct_copies.contains_key(key) {
                let direct = t.direct_copies[key];
                if !t.ready_direct_cables.contains(key) {
                    (Err(VulkanPlacedCableTransportErrorView::MissingPacket { key }), t)
                } else {
                    (
                        Ok(direct_receipt(direct)),
                        VulkanInProcessPlacedCableTransportView {
                            ready_direct_cables: t.ready_direct_cables.remove(key),
                            direct_receive_count: (t.direct_receive_count + 1) as usize,
                            direct_receive_byte_count: (t.direct_receive_byte_count
                                + direct.byte_count) as usize,
                            ..t
                        },
                    )
                }
            } else if !t.packets.contains_key(key) {
                (Err(VulkanPlacedCableTransportErrorView::MissingPacket { key }), t)
            } else {
                let packet = t.packets[key];
                let taken = VulkanInProcessPlacedCableTransportView {
                    packets: t.packets.remove(key),
                    ..t
                };
                if packet.byte_count != incoming.byte_capacity {
                    (
                        Err(
                            VulkanPlacedCableTransportErrorView::ByteCapacityMismatch {
                                key,
                                packet_byte_count: packet.byte_count,
                                incoming_byte_capacity: incoming.byte_capacity,
                            },
                        ),
                        taken,
                    )
                } else {
                    match written {
                        Err(error) => (
                            Err(
                                VulkanPlacedCableTransportErrorView::Vulkan {
                                    operation: "write incoming cable buffer"@,
                                    error,
                                },
                            ),
                            taken,
                        ),
                        Ok(_) => (
                            Ok(packet_receipt(packet)),
                            VulkanInProcessPlacedCableTransportView {
                                received_packet_count: (t.received_packet_count + 1) as usize,
                                received_byte_count: (t.received_byte_count
                                    + packet.byte_count) as usize,
                                ..taken
                            },
                        ),
                    }
                }
            }
        },
    }
}

/// Whether the counts of a transport have room for a reception, where it is counted: one that fails
/// is not.
pub open spec fn reception_fits(
    t: VulkanInProcessPlacedCableTransportView,
    io: VulkanPlacedCableIoBuffersView,
    cable_index: usize,
    written: Result<(), Seq<char>>,
) -> bool {
    match buffers::endpoint_allocation_of(io.incoming_buffers, cable_index) {
        None => true,
        Some(incoming) => {
            let key = buffers::incoming_key(incoming.endpoint);
            if t.direct_copies.contains_key(key) {
                t.ready_direct_cables.contains(key) ==> {
                    &&& t.direct_receive_count < usize::MAX
                    &&& t.direct_receive_byte_count + t.direct_copies[key].byte_count <= usize::MAX
                }
            } else {
                t.packets.contains_key(key) && t.packets[key].byte_count == incoming.byte_capacity
                    && written is Ok ==> {
                    &&& t.received_packet_count < usize::MAX
                    &&& t.received_byte_count + t.packets[key].byte_count <= usize::MAX
                }
            }
        },
    }
}

/// A transport after the first `n` incoming cables of a device were taken where they were there, one
/// after the other up to the first failure.
pub open spec fn received_available(
    t: VulkanInProcessPlacedCableTransportView,
    device_id: Seq<char>,
    io: VulkanPlacedCableIoBuffersView,
    written: Seq<Result<(), Seq<char>>>,
    n: nat,
) -> (
    Result<VulkanPlacedCableTransportReceiveBatchView, VulkanPlacedCableTransportErrorView>,
    VulkanInProcessPlacedCableTransportView,
)
    decreases n,
{
    if n == 0 {
        (
            Ok(
                VulkanPlacedCableTransportReceiveBatchView {
                    received: Seq::empty(),
                    missing_packets: Seq::empty(),
                },
            ),
            t,
        )
    } else {
        let k = (n - 1) as nat;
        let (done, before) = received_available(t, device_id, io, written, k);
        match done {
            Err(e) => (Err(e), before),
            Ok(batch) => {
                let (moved, after) = received(
                    before,
                    device_id,
                    io,
                    io.incoming_buffers[k as int].endpoint.cable_index,
                    written[k as int],
                );
                match moved {
                    Ok(receipt) => (
                        Ok(
                            VulkanPlacedCableTransportReceiveBatchView {
                                received: batch.received.push(receipt),
                                ..batch
                            },
                        ),
                        after,
                    ),
                    Err(VulkanPlacedCableTransportErrorView::MissingPacket { key }) => (
                        Ok(
                            VulkanPlacedCableTransportReceiveBatchView {
                                missing_packets: batch.missing_packets.push(key),
                                ..batch
                            },
                        ),
                        after,
                    ),
                    Err(e) => (Err(e), after),
                }
            },
        }
    }
}

/// The values of what reading buffers gave.
pub open spec fn read_answers(answers: Seq<Result<Vec<u8>, VulkanError>>) -> Seq<
    Result<Seq<u8>, Seq<char>>,
> {
    Seq::new(answers.len(), |i: int| sequence::outcome(answers[i]))
}

/// The values of what writing buffers gave.
pub open spec fn write_answers(answers: Seq<Result<(), VulkanError>>) -> Seq<
    Result<(), Seq<char>>,
> {
    Seq::new(answers.len(), |i: int| sequence::outcome(answers[i]))
}

/// What a device has to do before an outgoing cable can be published.
#[derive(Debug, PartialEq, Eq)]
pub enum VulkanPlacedCablePublication {
    /// Nothing: both ends share the memory.
    Shared,
    /// Run this copy over so many bytes.
    Copy { copy: VulkanResidentMappedBufferCopy, byte_count: usize },
    /// Read so many bytes of the cable's buffer.
    Read { byte_count: usize },
}

#[verifier::ext_equal]
pub enum VulkanPlacedCablePublicationView {
    Shared,
    Copy { copy: VulkanResidentMappedBufferCopyView, byte_count: usize },
    Read { byte_count: usize },
}

impl DeepView for VulkanPlacedCablePublication {
    type V = VulkanPlacedCablePublicationView;

    open spec fn deep_view(&self) -> VulkanPlacedCablePublicationView {
        match self {
            VulkanPlacedCablePublication::Shared => VulkanPlacedCablePublicationView::Shared,
            VulkanPlacedCablePublication::Copy { copy, byte_count } => VulkanPlacedCablePublicationView::Copy { copy: copy.deep_view(), byte_count: *byte_count },
            VulkanPlacedCablePublication::Read { byte_count } => VulkanPlacedCablePublicationView::Read { byte_count: *byte_count },
        }
    }
}

impl View for VulkanPlacedCablePublication {
    type V = VulkanPlacedCablePublicationView;

    open spec fn view(&self) -> VulkanPlacedCablePublicationView {
        self.deep_view()
    }
}

impl Clone for VulkanPlacedCablePublication {
    fn clone(&self) -> (r: Self)
        ensures
            r@ == self@,
    {
        match self {
            VulkanPlacedCablePublication::Shared => VulkanPlacedCablePublication::Shared,
            VulkanPlacedCablePublication::Copy { copy, byte_count } => VulkanPlacedCablePublication::Copy { copy: copy.clone(), byte_count: *byte_count },
            VulkanPlacedCablePublication::Read { byte_count } => VulkanPlacedCablePublication::Read { byte_count: *byte_count },
        }
    }
}

/// What a device has to do before an outgoing cable can be published.
pub open spec fn publication(
    t: VulkanInProcessPlacedCableTransportView,
    device_id: Seq<char>,
    io: VulkanPlacedCableIoBuffersView,
    cable_index: usize,
) -> Result<VulkanPlacedCablePublicationView, VulkanPlacedCableTransportErrorView> {
    match buffers::endpoint_allocation_of(io.outgoing_buffers, cable_index) {
        None => Err(
            VulkanPlacedCableTransportErrorView::MissingOutgoingCable { device_id, cable_index },
        ),
        Some(outgoing) => {
            let key = buffers::outgoing_key(outgoing.endpoint);
            if t.direct_copies.contains_key(key) {
                match t.direct_copies[key].copy {
                    None => Ok(VulkanPlacedCablePublicationView::Shared),
                    Some(copy) => Ok(
                        VulkanPlacedCablePublicationView::Copy {
                            copy,
                            byte_count: t.direct_copies[key].byte_count,
                        },
                    ),
                }
            } else {
                Ok(VulkanPlacedCablePublicationView::Read { byte_count: outgoing.byte_capacity })
            }
        },
    }
}

impl VulkanInProcessPlacedCableTransport {
    /// The maps and the set stand in order.
    pub open spec fn valid(&self) -> bool {
        self.packets.sorted() && self.direct_copies.sorted() && self.ready_direct_cables.sorted()
    }

    /// A transport without direct cables.
    pub fn new() -> (r: Self)
        ensures
            r.valid(),
            r@ == idle_transport(Map::empty()),
    {
        VulkanInProcessPlacedCableTransport {
            packets: OrderedMap::new(),
            direct_copies: OrderedMap::new(),
            ready_direct_cables: OrderedSet::new(),
            published_packet_count: 0,
            published_byte_count: 0,
            received_packet_count: 0,
            received_byte_count: 0,
            direct_copy_count: 0,
            direct_copy_byte_count: 0,
            direct_receive_count: 0,
            direct_receive_byte_count: 0,
        }
    }

    /// The number of packets on their way.
    pub fn packet_count(&self) -> (r: usize)
        requires
            self.valid(),
        ensures
            r == self@.pending().len(),
    {
        self.packets.len()
    }

    #[verifier::loop_isolation(false)]
    fn pending_byte_count(&self) -> (r: usize)
        requires
            self.valid(),
            self@.pending_bytes() <= usize::MAX,
        ensures
            r == self@.pending_bytes(),
    {
        let ghost all = self.packets.entries.deep_view();
        let ghost f = packet_bytes();
        proof {
            ordered::lemma_sorted_entries::<VulkanPlacedCablePacketKey, VulkanPlacedCablePacketView>(
                all,
            );
        }
        let mut total: usize = 0;
        let mut i: usize = 0;
        assert(all.take(0) =~= Seq::empty());
        while i < self.packets.entries.len()
            invariant
                i <= self.packets.entries.len(),
                total == sequence::total(all.take(i as int), f),
            decreases self.packets.entries.len() - i,
        {
            proof {
                sequence::lemma_total_step(all, f, i as int);
                sequence::lemma_total_prefix(all, f, i + 1);
                assert(all[i as int].1 == self.packets.entries@[i as int].1@);
            }
            total = total + self.packets.entries[i].1.byte_count;
            i += 1;
        }
        assert(all.take(all.len() as int) =~= all);
        total
    }

    #[verifier::loop_isolation(false)]
    fn ready_byte_count(&self) -> (r: usize)
        requires
            self.valid(),
            self@.ready_bytes() <= usize::MAX,
        ensures
            r == self@.ready_bytes(),
    {
        let ghost all = self.ready_direct_cables.elements.deep_view();
        let ghost f = direct_bytes(self.direct_copies@);
        proof {
            ordered::lemma_sorted_elements::<VulkanPlacedCablePacketKey>(all);
        }
        let mut total: usize = 0;
        let mut i: usize = 0;
        assert(all.take(0) =~= Seq::empty());
        while i < self.ready_direct_cables.elements.len()
            invariant
                i <= self.ready_direct_cables.elements.len(),
                total == sequence::total(all.take(i as int), f),
            decreases self.ready_direct_cables.elements.len() - i,
        {
            proof {
                sequence::lemma_total_step(all, f, i as int);
                sequence::lemma_total_prefix(all, f, i + 1);
                assert(all[i as int] == self.ready_direct_cables.elements@[i as int]@);
            }
            if let Some(direct) = self.direct_copies.get(&self.ready_direct_cables.elements[i]) {
                total = total + direct.byte_count;
            }
            i += 1;
        }
        assert(all.take(all.len() as int) =~= all);
        total
    }

    /// The counts.
    pub fn stats(&self) -> (r: VulkanPlacedCableTransportStats)
        requires
            self.valid(),
            self@.pending_bytes() <= usize::MAX,
            self@.ready_bytes() <= usize::MAX,
        ensures
            r@ == transport_stats(self@),
    {
        VulkanPlacedCableTransportStats {
            pending_packet_count: self.packets.len(),
            pending_byte_count: self.pending_byte_count(),
            pending_direct_cable_count: self.ready_direct_cables.len(),
            pending_direct_byte_count: self.ready_byte_count(),
            published_packet_count: self.published_packet_count,
            published_byte_count: self.published_byte_count,
            received_packet_count: self.received_packet_count,
            received_byte_count: self.received_byte_count,
            direct_copy_count: self.direct_copy_count,
            direct_copy_byte_count: self.direct_copy_byte_count,
            direct_receive_count: self.direct_receive_count,
            direct_receive_byte_count: self.direct_receive_byte_count,
        }
    }

    /// Whether a packet is on its way.
    pub fn contains_packet(&self, key: &VulkanPlacedCablePacketKey) -> (r: bool)
        ensures
            r == self@.packets.contains_key(key@),
    {
        self.packets.contains_key(key)
    }

    /// Whether a direct cable is ready.
    pub fn contains_ready_direct_cable(&self, key: &VulkanPlacedCablePacketKey) -> (r: bool)
        ensures
            r == self@.ready_direct_cables.contains(key@),
    {
        self.ready_direct_cables.contains(key)
    }

    /// The number of direct cables.
    pub fn direct_cable_binding_count(&self) -> (r: usize)
        requires
            self.valid(),
        ensures
            r == ordered::sorted_entries::<
                VulkanPlacedCablePacketKey,
                VulkanPlacedCableDirectCopyView,
            >(self@.direct_copies).len(),
    {
        self.direct_copies.len()
    }

    /// Whether both ends of a cable share its memory.
    pub fn cable_uses_shared_allocation(&self, key: &VulkanPlacedCablePacketKey) -> (r: bool)
        ensures
            r == (self@.direct_copies.contains_key(key@) && self@.direct_copies[key@].copy is None),
    {
        match self.direct_copies.get(key) {
            Some(direct) => direct.copy.is_none(),
            None => false,
        }
    }

    /// Forgets what was moved and what is on its way; direct cables stay registered.
    pub fn reset_tick_state(&mut self)
        requires
            old(self).valid(),
        ensures
            final(self).valid(),
            final(self)@ == idle_transport(old(self)@.direct_copies),
    {
        self.packets = OrderedMap::new();
        self.ready_direct_cables = OrderedSet::new();
        self.published_packet_count = 0;
        self.published_byte_count = 0;
        self.received_packet_count = 0;
        self.received_byte_count = 0;
        self.direct_copy_count = 0;
        self.direct_copy_byte_count = 0;
        self.direct_receive_count = 0;
        self.direct_receive_byte_count = 0;
    }

    /// Registers the cable between two endpoints as direct. `same_buffer` tells whether both
    /// endpoints were given one and the same buffer; `created` is the device's answer to creating
    /// the copy, where the ends share no memory.
    pub fn register_direct_cable_copy(
        &mut self,
        outgoing: &VulkanPlacedCableBufferAllocation,
        incoming: &VulkanPlacedCableBufferAllocation,
        same_buffer: bool,
        created: &Result<(), VulkanError>,
    ) -> (r: Result<(), VulkanPlacedCableTransportError>)
        requires
            old(self).valid(),
        ensures
            final(self).valid(),
            sequence::outcome(r) == registered(
                old(self)@,
                outgoing@,
                incoming@,
                same_buffer,
                sequence::outcome(*created),
            ).0,
            final(self)@ == registered(
                old(self)@,
                outgoing@,
                incoming@,
                same_buffer,
                sequence::outcome(*created),
            ).1,
    {
        let outgoing_key = VulkanPlacedCablePacketKey::from_outgoing_endpoint(&outgoing.endpoint);
        let incoming_key = VulkanPlacedCablePacketKey::from_incoming_endpoint(&incoming.endpoint);
        if !outgoing_key.is_same(&incoming_key) {
            return Err(
                VulkanPlacedCableTransportError::EndpointMismatch { outgoing_key, incoming_key },
            );
        }
        if self.direct_copies.contains_key(&outgoing_key) {
            return Ok(());
        }
        if outgoing.byte_capacity != incoming.byte_capacity {
            return Err(
                VulkanPlacedCableTransportError::ByteCapacityMismatch {
                    key: outgoing_key,
                    packet_byte_count: outgoing.byte_capacity,
                    incoming_byte_capacity: incoming.byte_capacity,
                },
            );
        }
        let copy: Option<VulkanResidentMappedBufferCopy> = if same_buffer
            || outgoing.buffer.shares_host_allocation_with(&incoming.buffer) {
            None
        } else {
            if let Err(error) = created {
                return Err(
                    VulkanPlacedCableTransportError::Vulkan {
                        operation: "create persistently mapped cable buffer copy".to_owned(),
                        error: error.clone(),
                    },
                );
            }
            Some(
                VulkanResidentMappedBufferCopy {
                    source: outgoing.buffer.clone(),
                    destination: incoming.buffer.clone(),
                    byte_capacity: outgoing.byte_capacity,
                },
            )
        };
        let direct = VulkanPlacedCableDirectCopy {
            key: outgoing_key.clone(),
            signal: outgoing.endpoint.signal.clone(),
            source_pedal_id: outgoing.endpoint.local_pedal_id.clone(),
            destination_pedal_id: outgoing.endpoint.remote_pedal_id.clone(),
            byte_count: outgoing.byte_capacity,
            copy,
        };
        self.direct_copies.insert(outgoing_key, direct);
        Ok(())
    }

    /// What a device has to do before an outgoing cable can be published.
    pub fn outgoing_cable_publication(
        &self,
        device_id: &str,
        io: &VulkanPlacedCableIoBuffers,
        cable_index: usize,
    ) -> (r: Result<VulkanPlacedCablePublication, VulkanPlacedCableTransportError>)
        ensures
            sequence::outcome(r) == publication(self@, device_id@, io@, cable_index),
    {
        let outgoing: &VulkanPlacedCableBufferAllocation = match io.outgoing_buffer(cable_index) {
            Some(outgoing) => outgoing,
            None => return Err(
                VulkanPlacedCableTransportError::MissingOutgoingCable {
                    device_id: device_id.to_owned(),
                    cable_index,
                },
            ),
        };
        let key = VulkanPlacedCablePacketKey::from_outgoing_endpoint(&outgoing.endpoint);
        match self.direct_copies.get(&key) {
            Some(direct) => match &direct.copy {
                None => Ok(VulkanPlacedCablePublication::Shared),
                Some(copy) => Ok(
                    VulkanPlacedCablePublication::Copy {
                        copy: copy.clone(),
                        byte_count: direct.byte_count,
                    },
                ),
            },
            None => Ok(VulkanPlacedCablePublication::Read { byte_count: outgoing.byte_capacity }),
        }
    }

    /// Whether an outgoing cable can be published, given the device's answer, without a count running
    /// over.
    pub fn can_publish(
        &self,
        io: &VulkanPlacedCableIoBuffers,
        cable_index: usize,
        answer: &Result<Vec<u8>, VulkanError>,
    ) -> (r: bool)
        ensures
            r == publication_fits(self@, io@, cable_index, sequence::outcome(*answer)),
    {
        let outgoing: &VulkanPlacedCableBufferAllocation = match io.outgoing_buffer(cable_index) {
            Some(outgoing) => outgoing,
            None => return true,
        };
        let key = VulkanPlacedCablePacketKey::from_outgoing_endpoint(&outgoing.endpoint);
        match self.direct_copies.get(&key) {
            Some(direct) => (direct.copy.is_some() && answer.is_err()) || (self.direct_copy_count
                < usize::MAX && self.direct_copy_byte_count <= usize::MAX - direct.byte_count),
            None => match answer {
                Ok(bytes) => {
                    assert(bytes.deep_view().len() == bytes@.len());
                    self.published_packet_count < usize::MAX && self.published_byte_count
                        <= usize::MAX - bytes.len()
                },
                Err(_) => true,
            },
        }
    }

    /// Publishes an outgoing cable, given the device's answer.
    pub fn publish_outgoing_cable(
        &mut self,
        device_id: &str,
        io: &VulkanPlacedCableIoBuffers,
        cable_index: usize,
        answer: &Result<Vec<u8>, VulkanError>,
    ) -> (r: Result<VulkanPlacedCableTransportReceipt, VulkanPlacedCableTransportError>)
        requires
            old(self).valid(),
            publication_fits(old(self)@, io@, cable_index, sequence::outcome(*answer)),
        ensures
            final(self).valid(),
            sequence::outcome(r) == published(
                old(self)@,
                device_id@,
                io@,
                cable_index,
                sequence::outcome(*answer),
            ).0,
            final(self)@ == published(
                old(self)@,
                device_id@,
                io@,
                cable_index,
                sequence::outcome(*answer),
            ).1,
    {
        let outgoing: &VulkanPlacedCableBufferAllocation = match io.outgoing_buffer(cable_index) {
            Some(outgoing) => outgoing,
            None => return Err(
                VulkanPlacedCableTransportError::MissingOutgoingCable {
                    device_id: device_id.to_owned(),
                    cable_index,
                },
            ),
        };
        let key = VulkanPlacedCablePacketKey::from_outgoing_endpoint(&outgoing.endpoint);
        if let Some(direct) = self.direct_copies.get(&key) {
            if direct.copy.is_some() {
                if let Err(error) = answer {
                    return Err(
                        VulkanPlacedCableTransportError::Vulkan {
                            operation: "run direct cable buffer copy".to_owned(),
                            error: error.clone(),
                        },
                    );
                }
            }
            let receipt = VulkanPlacedCableTransportReceipt {
                key: direct.key.clone(),
                signal: direct.signal.clone(),
                byte_count: direct.byte_count,
            };
            let byte_count: usize = direct.byte_count;
            self.ready_direct_cables.insert(key);
            self.direct_copy_count = self.direct_copy_count + 1;
            self.direct_copy_byte_count = self.direct_copy_byte_count + byte_count;
            return Ok(receipt);
        }
        let bytes: Vec<u8> = match answer {
            Ok(bytes) => bytes.clone(),
            Err(error) => return Err(
                VulkanPlacedCableTransportError::Vulkan {
                    operation: "read outgoing cable buffer".to_owned(),
                    error: error.clone(),
                },
            ),
        };
        proof {
            assert(bytes.deep_view() =~= answer->Ok_0.deep_view());
            assert(bytes.deep_view().len() == bytes@.len());
        }
        let byte_count: usize = bytes.len();
        let packet = VulkanPlacedCablePacket {
            key: key.clone(),
            signal: outgoing.endpoint.signal.clone(),
            source_pedal_id: outgoing.endpoint.local_pedal_id.clone(),
            destination_pedal_id: outgoing.endpoint.remote_pedal_id.clone(),
            byte_count,
            bytes,
        };
        let receipt = VulkanPlacedCableTransportReceipt {
            key: key.clone(),
            signal: packet.signal.clone(),
            byte_count,
        };
        self.packets.insert(key, packet);
        self.published_packet_count = self.published_packet_count + 1;
        self.published_byte_count = self.published_byte_count + byte_count;
        Ok(receipt)
    }

    /// Publishes every outgoing cable of a device, given the device's answers up to the first
    /// failure.
    #[verifier::loop_isolation(false)]
    pub fn publish_all_outgoing_cables(
        &mut self,
        device_id: &str,
        io: &VulkanPlacedCableIoBuffers,
        answers: &Vec<Result<Vec<u8>, VulkanError>>,
    ) -> (r: Result<Vec<VulkanPlacedCableTransportReceipt>, VulkanPlacedCableTransportError>)
        requires
            old(self).valid(),
            forall|k: nat|
                k < io@.outgoing_buffers.len() && (#[trigger] published_all(
                    old(self)@,
                    device_id@,
                    io@,
                    read_answers(answers@),
                    k,
                )).0 is Ok ==> k < answers@.len() && publication_fits(
                    published_all(old(self)@, device_id@, io@, read_answers(answers@), k).1,
                    io@,
                    io@.outgoing_buffers[k as int].endpoint.cable_index,
                    read_answers(answers@)[k as int],
                ),
        ensures
            final(self).valid(),
            sequence::outcome(r) == published_all(
                old(self)@,
                device_id@,
                io@,
                read_answers(answers@),
                io@.outgoing_buffers.len(),
            ).0,
            final(self)@ == published_all(
                old(self)@,
                device_id@,
                io@,
                read_answers(answers@),
                io@.outgoing_buffers.len(),
            ).1,
    {
        let ghost start = self@;
        let ghost views = read_answers(answers@);
        let mut receipts: Vec<VulkanPlacedCableTransportReceipt> = Vec::new();
        let mut i: usize = 0;
        assert(receipts.deep_view() =~= Seq::empty());
        assert(io@.outgoing_buffers.len() == io.outgoing_buffers@.len());
        while i < io.outgoing_buffers.len()
            invariant
                i <= io.outgoing_buffers.len(),
                self.valid(),
                published_all(start, device_id@, io@, views, i as nat) == (
                    Ok::<
                        Seq<VulkanPlacedCableTransportReceiptView>,
                        VulkanPlacedCableTransportErrorView,
                    >(receipts.deep_view()),
                    self@,
                ),
            decreases io.outgoing_buffers.len() - i,
        {
            let ghost step = published_all(start, device_id@, io@, views, i as nat);
            assert(step.0 is Ok);
            assert(io@.outgoing_buffers[i as int] == io.outgoing_buffers@[i as int]@);
            assert(views[i as int] == sequence::outcome(answers@[i as int]));
            let cable_index: usize = io.outgoing_buffers[i].endpoint.cable_index;
            match self.publish_outgoing_cable(device_id, io, cable_index, &answers[i]) {
                Ok(receipt) => {
                    let ghost before = receipts.deep_view();
                    let ghost added = receipt@;
                    receipts.push(receipt);
                    assert(receipts.deep_view() =~= before.push(added));
                },
                Err(e) => {
                    proof {
                        lemma_published_error(
                            start,
                            device_id@,
                            io@,
                            views,
                            (i + 1) as nat,
                            io@.outgoing_buffers.len(),
                        );
                    }
                    return Err(e);
                },
            }
            i += 1;
        }
        Ok(receipts)
    }

    /// The bytes that have to be written into the buffer of an incoming cable, before it is taken.
    pub fn incoming_cable_bytes(&self, io: &VulkanPlacedCableIoBuffers, cable_index: usize) -> (r:
        Option<&Vec<u8>>)
        ensures
            r.deep_view() == bytes_to_write(self@, io@, cable_index),
    {
        let incoming: &VulkanPlacedCableBufferAllocation = match io.incoming_buffer(cable_index) {
            Some(incoming) => incoming,
            None => return None,
        };
        let key = VulkanPlacedCablePacketKey::from_incoming_endpoint(&incoming.endpoint);
        if self.direct_copies.contains_key(&key) {
            return None;
        }
        match self.packets.get(&key) {
            Some(packet) => if packet.byte_count == incoming.byte_capacity {
                Some(&packet.bytes)
            } else {
                None
            },
            None => None,
        }
    }

    /// Whether an incoming cable can be taken, given the device's answer to writing its buffer, without
    /// a count running over.
    pub fn can_receive(
        &self,
        io: &VulkanPlacedCableIoBuffers,
        cable_index: usize,
        written: &Result<(), VulkanError>,
    ) -> (r: bool)
        ensures
            r == reception_fits(self@, io@, cable_index, sequence::outcome(*written)),
    {
        let incoming: &VulkanPlacedCableBufferAllocation = match io.incoming_buffer(cable_index) {
            Some(incoming) => incoming,
            None => return true,
        };
        let key = VulkanPlacedCablePacketKey::from_incoming_endpoint(&incoming.endpoint);
        match self.direct_copies.get(&key) {
            Some(direct) => !self.ready_direct_cables.contains(&key) || (self.direct_receive_count
                < usize::MAX && self.direct_receive_byte_count <= usize::MAX - direct.byte_count),
            None => match self.packets.get(&key) {
                Some(packet) => packet.byte_count != incoming.byte_capacity || written.is_err()
                    || (self.received_packet_count < usize::MAX && self.received_byte_count
                    <= usize::MAX - packet.byte_count),
                None => true,
            },
        }
    }

    /// Takes an incoming cable, given the device's answer to writing its buffer.
    pub fn receive_incoming_cable(
        &mut self,
        device_id: &str,
        io: &VulkanPlacedCableIoBuffers,
        cable_index: usize,
        written: &Result<(), VulkanError>,
    ) -> (r: Result<VulkanPlacedCableTransportReceipt, VulkanPlacedCableTransportError>)
        requires
            old(self).valid(),
            reception_fits(old(self)@, io@, cable_index, sequence::outcome(*written)),
        ensures
            final(self).valid(),
            sequence::outcome(r) == received(
                old(self)@,
                device_id@,
                io@,
                cable_index,
                sequence::outcome(*written),
            ).0,
            final(self)@ == received(
                old(self)@,
                device_id@,
                io@,
                cable_index,
                sequence::outcome(*written),
            ).1,
    {
        let incoming: &VulkanPlacedCableBufferAllocation = match io.incoming_buffer(cable_index) {
            Some(incoming) => incoming,
            None => return Err(
                VulkanPlacedCableTransportError::MissingIncomingCable {
                    device_id: device_id.to_owned(),
                    cable_index,
                },
            ),
        };
        let key = VulkanPlacedCablePacketKey::from_incoming_endpoint(&incoming.endpoint);
        if let Some(direct) = self.direct_copies.get(&key) {
            let receipt = VulkanPlacedCableTransportReceipt {
                key: direct.key.clone(),
                signal: direct.signal.clone(),
                byte_count: direct.byte_count,
            };
            let byte_count: usize = direct.byte_count;
            let ghost ready = self.ready_direct_cables@;
            if !self.ready_direct_cables.remove(&key) {
                assert(ready.remove(key@) =~= ready);
                return Err(VulkanPlacedCableTransportError::MissingPacket { key });
            }
            self.direct_receive_count = self.direct_receive_count + 1;
            self.direct_receive_byte_count = self.direct_receive_byte_count + byte_count;
            return Ok(receipt);
        }
        let ghost packets = self.packets@;
        let packet: VulkanPlacedCablePacket = match self.packets.remove(&key) {
            Some(packet) => packet,
            None => {
                assert(packets.remove(key@) =~= packets);
                return Err(VulkanPlacedCableTransportError::MissingPacket { key });
            },
        };
        if packet.byte_count != incoming.byte_capacity {
            return Err(
                VulkanPlacedCableTransportError::ByteCapacityMismatch {
                    key,
                    packet_byte_count: packet.byte_count,
                    incoming_byte_capacity: incoming.byte_capacity,
                },
            );
        }
        if let Err(error) = written {
            return Err(
                VulkanPlacedCableTransportError::Vulkan {
                    operation: "write incoming cable buffer".to_owned(),
                    error: error.clone(),
                },
            );
        }
        self.received_packet_count = self.received_packet_count + 1;
        self.received_byte_count = self.received_byte_count + packet.byte_count;
        Ok(
            VulkanPlacedCableTransportReceipt {
                key: packet.key,
                signal: packet.signal,
                byte_count: packet.byte_count,
            },
        )
    }

    /// Takes every incoming cable of a device that is there, given the device's answers to writing
    /// their buffers, up to the first failure.
    #[verifier::loop_isolation(false)]
    pub fn receive_available_incoming_cables(
        &mut self,
        device_id: &str,
        io: &VulkanPlacedCableIoBuffers,
        written: &Vec<Result<(), VulkanError>>,
    ) -> (r: Result<VulkanPlacedCableTransportReceiveBatch, VulkanPlacedCableTransportError>)
        requires
            old(self).valid(),
            forall|k: nat|
                k < io@.incoming_buffers.len() && (#[trigger] received_available(
                    old(self)@,
                    device_id@,
                    io@,
                    write_answers(written@),
                    k,
                )).0 is Ok ==> k < written@.len() && reception_fits(
                    received_available(old(self)@, device_id@, io@, write_answers(written@), k).1,
                    io@,
                    io@.incoming_buffers[k as int].endpoint.cable_index,
                    write_answers(written@)[k as int],
                ),
        ensures
            final(self).valid(),
            sequence::outcome(r) == received_available(
                old(self)@,
                device_id@,
                io@,
                write_answers(written@),
                io@.incoming_buffers.len(),
            ).0,
            final(self)@ == received_available(
                old(self)@,
                device_id@,
                io@,
                write_answers(written@),
                io@.incoming_buffers.len(),
            ).1,
    {
        let ghost start = self@;
        let ghost views = write_answers(written@);
        let mut received_receipts: Vec<VulkanPlacedCableTransportReceipt> = Vec::new();
        let mut missing_packets: Vec<VulkanPlacedCablePacketKey> = Vec::new();
        let mut i: usize = 0;
        assert(received_receipts.deep_view() =~= Seq::empty());
        assert(missing_packets.deep_view() =~= Seq::empty());
        assert(io@.incoming_buffers.len() == io.incoming_buffers@.len());
        while i < io.incoming_buffers.len()
            invariant
                i <= io.incoming_buffers.len(),
                self.valid(),
                received_available(start, device_id@, io@, views, i as nat) == (
                    Ok::<
                        VulkanPlacedCableTransportReceiveBatchView,
                        VulkanPlacedCableTransportErrorView,
                    >(
                        VulkanPlacedCableTransportReceiveBatchView {
                            received: received_receipts.deep_view(),
                            missing_packets: missing_packets.deep_view(),
                        },
                    ),
                    self@,
                ),
            decreases io.incoming_buffers.len() - i,
        {
            let ghost step = received_available(start, device_id@, io@, views, i as nat);
            assert(step.0 is Ok);
            assert(io@.incoming_buffers[i as int] == io.incoming_buffers@[i as int]@);
            assert(views[i as int] == sequence::outcome(written@[i as int]));
            let cable_index: usize = io.incoming_buffers[i].endpoint.cable_index;
            match self.receive_incoming_cable(device_id, io, cable_index, &written[i]) {
                Ok(receipt) => {
                    let ghost before = received_receipts.deep_view();
                    let ghost added = receipt@;
                    received_receipts.push(receipt);
                    assert(received_receipts.deep_view() =~= before.push(added));
                },
                Err(VulkanPlacedCableTransportError::MissingPacket { key }) => {
                    let ghost before = missing_packets.deep_view();
                    let ghost added = key@;
                    missing_packets.push(key);
                    assert(missing_packets.deep_view() =~= before.push(added));
                },
                Err(e) => {
                    proof {
                        lemma_received_error(
                            start,
                            device_id@,
                            io@,
                            views,
                            (i + 1) as nat,
                            io@.incoming_buffers.len(),
                        );
                    }
                    return Err(e);
                },
            }
            i += 1;
        }
        Ok(
            VulkanPlacedCableTransportReceiveBatch {
                received: received_receipts,
                missing_packets,
            },
        )
    }
}

proof fn lemma_published_error(
    t: VulkanInProcessPlacedCableTransportView,
    device_id: Seq<char>,
    io: VulkanPlacedCableIoBuffersView,
    answers: Seq<Result<Seq<u8>, Seq<char>>>,
    k: nat,
    n: nat,
)
    requires
        k <= n,
        published_all(t, device_id, io, answers, k).0 is Err,
    ensures
        published_all(t, device_id, io, answers, n) == published_all(t, device_id, io, answers, k),
    decreases n - k,
{
    if k < n {
        lemma_published_error(t, device_id, io, answers, k, (n - 1) as nat);
    }
}

proof fn lemma_received_error(
    t: VulkanInProcessPlacedCableTransportView,
    device_id: Seq<char>,
    io: VulkanPlacedCableIoBuffersView,
    written: Seq<Result<(), Seq<char>>>,
    k: nat,
    n: nat,
)
    requires
        k <= n,
        received_available(t, device_id, io, written, k).0 is Err,
    ensures
        received_available(t, device_id, io, written, n) == received_available(
            t,
            device_id,
            io,
            written,
            k,
        ),
    decreases n - k,
{
    if k < n {
        lemma_received_error(t, device_id, io, written, k, (n - 1) as nat);
    }
}

// ---------------------------------------------------------------------------
// Laws
// ---------------------------------------------------------------------------

/// What was published is what is taken: the other end of the cable is handed exactly the published
/// bytes, its receipt is the publisher's, the packet is gone, and a second reception finds none. The
/// reception is counted, where the counts have room.
pub proof fn published_bytes_are_received(
    t: VulkanInProcessPlacedCableTransportView,
    from: Seq<char>,
    source: VulkanPlacedCableIoBuffersView,
    to: Seq<char>,
    destination: VulkanPlacedCableIoBuffersView,
    outgoing: VulkanPlacedCableBufferAllocationView,
    incoming: VulkanPlacedCableBufferAllocationView,
    cable_index: usize,
    bytes: Seq<u8>,
)
    requires
        buffers::endpoint_allocation_of(source.outgoing_buffers, cable_index) == Some(outgoing),
        buffers::endpoint_allocation_of(destination.incoming_buffers, cable_index) == Some(incoming),
        buffers::outgoing_key(outgoing.endpoint) == buffers::incoming_key(incoming.endpoint),
        !t.direct_copies.contains_key(buffers::outgoing_key(outgoing.endpoint)),
        bytes.len() == incoming.byte_capacity,
    ensures
        ({
            let key = buffers::outgoing_key(outgoing.endpoint);
            let (sent, after) = published(t, from, source, cable_index, Ok(bytes));
            let (taken, end) = received(after, to, destination, cable_index, Ok(()));
            &&& sent is Ok
            &&& bytes_to_write(after, destination, cable_index) == Some(bytes)
            &&& taken == sent
            &&& end.packets == t.packets.remove(key)
            &&& !end.packets.contains_key(key)
            &&& t.received_packet_count < usize::MAX && t.received_byte_count + bytes.len()
                <= usize::MAX ==> end.received_packet_count == t.received_packet_count + 1
                && end.received_byte_count == t.received_byte_count + bytes.len()
            &&& end.ready_direct_cables == t.ready_direct_cables
            &&& received(end, to, destination, cable_index, Ok(())).0 == Err::<
                VulkanPlacedCableTransportReceiptView,
                VulkanPlacedCableTransportErrorView,
            >(VulkanPlacedCableTransportErrorView::MissingPacket { key })
        }),
{
    let key = buffers::outgoing_key(outgoing.endpoint);
    let (sent, after) = published(t, from, source, cable_index, Ok(bytes));
    let (taken, end) = received(after, to, destination, cable_index, Ok(()));
    assert(end.packets =~= t.packets.remove(key));
}

/// A direct cable that was published is taken once, with the publisher's receipt.
pub proof fn direct_cables_are_received_once(
    t: VulkanInProcessPlacedCableTransportView,
    from: Seq<char>,
    source: VulkanPlacedCableIoBuffersView,
    to: Seq<char>,
    destination: VulkanPlacedCableIoBuffersView,
    outgoing: VulkanPlacedCableBufferAllocationView,
    incoming: VulkanPlacedCableBufferAllocationView,
    cable_index: usize,
    answer: Result<Seq<u8>, Seq<char>>,
    written: Result<(), Seq<char>>,
)
    requires
        buffers::endpoint_allocation_of(source.outgoing_buffers, cable_index) == Some(outgoing),
        buffers::endpoint_allocation_of(destination.incoming_buffers, cable_index) == Some(incoming),
        buffers::outgoing_key(outgoing.endpoint) == buffers::incoming_key(incoming.endpoint),
        t.direct_copies.contains_key(buffers::outgoing_key(outgoing.endpoint)),
        published(t, from, source, cable_index, answer).0 is Ok,
    ensures
        ({
            let key = buffers::outgoing_key(outgoing.endpoint);
            let (sent, after) = published(t, from, source, cable_index, answer);
            let (taken, end) = received(after, to, destination, cable_index, written);
            &&& taken == sent
            &&& bytes_to_write(after, destination, cable_index) is None
            &&& end.packets == t.packets
            &&& !end.ready_direct_cables.contains(key)
            &&& received(end, to, destination, cable_index, written).0 == Err::<
                VulkanPlacedCableTransportReceiptView,
                VulkanPlacedCableTransportErrorView,
            >(VulkanPlacedCableTransportErrorView::MissingPacket { key })
        }),
{
}

/// A transport that was reset has nothing pending and has moved nothing, and its direct cables stay.
pub proof fn reset_leaves_nothing_pending(t: VulkanInProcessPlacedCableTransportView)
    ensures
        ({
            let reset = idle_transport(t.direct_copies);
            let stats = transport_stats(reset);
            &&& reset.direct_copies == t.direct_copies
            &&& stats.pending_packet_count == 0
            &&& stats.pending_byte_count == 0
            &&& stats.pending_direct_cable_count == 0
            &&& stats.pending_direct_byte_count == 0
            &&& stats.published_packet_count == 0
            &&& stats.received_packet_count == 0
            &&& stats.direct_copy_count == 0
            &&& stats.direct_receive_count == 0
        }),
{
    let no_entries = Seq::<(VulkanPlacedCablePacketKeyView, VulkanPlacedCablePacketView)>::empty();
    let no_keys = Seq::<VulkanPlacedCablePacketKeyView>::empty();
    assert(ordered::keys_of(no_entries) =~= Seq::empty());
    ordered::lemma_sorted_entries::<VulkanPlacedCablePacketKey, VulkanPlacedCablePacketView>(
        no_entries,
    );
    ordered::lemma_sorted_elements::<VulkanPlacedCablePacketKey>(no_keys);
    assert(no_keys.to_set() =~= Set::empty());
}

/// A cable is registered for direct copies only where its two ends have the same key and the same
/// number of bytes. It then copies from the outgoing buffer to the incoming one, all of its bytes, or
/// copies nothing where both ends are one memory. A cable that is known stays as it is, and so does
/// every other cable.
pub proof fn registered_cables_copy_from_end_to_end(
    t: VulkanInProcessPlacedCableTransportView,
    outgoing: VulkanPlacedCableBufferAllocationView,
    incoming: VulkanPlacedCableBufferAllocationView,
    same_buffer: bool,
    created: Result<(), Seq<char>>,
    other: VulkanPlacedCablePacketKeyView,
)
    ensures
        ({
            let (outcome, after) = registered(t, outgoing, incoming, same_buffer, created);
            let key = buffers::outgoing_key(outgoing.endpoint);
            let one_memory = same_buffer || (outgoing.buffer.host_allocation is Some
                && outgoing.buffer.host_allocation == incoming.buffer.host_allocation);
            &&& outcome is Err ==> after == t
            &&& outcome is Ok ==> {
                &&& key == buffers::incoming_key(incoming.endpoint)
                &&& after.direct_copies.contains_key(key)
                &&& t.direct_copies.contains_key(key) ==> after == t
                &&& !t.direct_copies.contains_key(key) ==> {
                    let direct = after.direct_copies[key];
                    &&& outgoing.byte_capacity == incoming.byte_capacity
                    &&& direct.key == key
                    &&& direct.signal == outgoing.endpoint.signal
                    &&& direct.source_pedal_id == outgoing.endpoint.local_pedal_id
                    &&& direct.destination_pedal_id == outgoing.endpoint.remote_pedal_id
                    &&& direct.byte_count == outgoing.byte_capacity
                    &&& direct.copy is None <==> one_memory
                    &&& direct.copy matches Some(copy) ==> {
                        &&& copy.source == outgoing.buffer
                        &&& copy.destination == incoming.buffer
                        &&& copy.byte_capacity == outgoing.byte_capacity
                    }
                }
            }
            &&& other != key ==> {
                &&& after.direct_copies.contains_key(other) == t.direct_copies.contains_key(other)
                &&& t.direct_copies.contains_key(other) ==> after.direct_copies[other]
                    == t.direct_copies[other]
            }
            &&& after.packets == t.packets
            &&& after.ready_direct_cables == t.ready_direct_cables
        }),
{
}

/// Publishing a cable leaves the other cables alone. A direct cable becomes ready and is counted with
/// its bytes; any other cable has its bytes packed under its key, from its own pedal to that of its
/// other end, and is counted with them. A failure changes nothing.
pub proof fn publishing_leaves_other_cables_alone(
    t: VulkanInProcessPlacedCableTransportView,
    device_id: Seq<char>,
    io: VulkanPlacedCableIoBuffersView,
    cable_index: usize,
    answer: Result<Seq<u8>, Seq<char>>,
    other: VulkanPlacedCablePacketKeyView,
)
    requires
        publication_fits(t, io, cable_index, answer),
        answer matches Ok(bytes) ==> bytes.len() <= usize::MAX,
    ensures
        ({
            let (moved, after) = published(t, device_id, io, cable_index, answer);
            &&& moved is Err ==> after == t
            &&& moved matches Ok(receipt) ==> exists|i: int|
                0 <= i < io.outgoing_buffers.len() && {
                    let outgoing = #[trigger] io.outgoing_buffers[i];
                    let key = buffers::outgoing_key(outgoing.endpoint);
                    &&& outgoing.endpoint.cable_index == cable_index
                    &&& other != key ==> {
                        &&& after.packets.contains_key(other) == t.packets.contains_key(other)
                        &&& t.packets.contains_key(other) ==> after.packets[other]
                            == t.packets[other]
                        &&& after.ready_direct_cables.contains(other)
                            == t.ready_direct_cables.contains(other)
                    }
                    &&& t.direct_copies.contains_key(key) ==> {
                        &&& after.ready_direct_cables.contains(key)
                        &&& after.packets == t.packets
                        &&& after.direct_copy_count == t.direct_copy_count + 1
                        &&& after.direct_copy_byte_count == t.direct_copy_byte_count
                            + t.direct_copies[key].byte_count
                        &&& receipt.byte_count == t.direct_copies[key].byte_count
                        &&& receipt.signal == t.direct_copies[key].signal
                    }
                    &&& !t.direct_copies.contains_key(key) ==> {
                        &&& answer is Ok
                        &&& after.packets.contains_key(key)
                        &&& after.packets[key].key == key
                        &&& after.packets[key].bytes == answer->Ok_0
                        &&& after.packets[key].byte_count == answer->Ok_0.len()
                        &&& after.packets[key].signal == outgoing.endpoint.signal
                        &&& after.packets[key].source_pedal_id
                            == outgoing.endpoint.local_pedal_id
                        &&& after.packets[key].destination_pedal_id
                            == outgoing.endpoint.remote_pedal_id
                        &&& after.ready_direct_cables == t.ready_direct_cables
                        &&& after.published_packet_count == t.published_packet_count + 1
                        &&& after.published_byte_count == t.published_byte_count
                            + answer->Ok_0.len()
                        &&& receipt.key == key
                        &&& receipt.byte_count == answer->Ok_0.len()
                        &&& receipt.signal == outgoing.endpoint.signal
                    }
                }
        }),
{
    let p = buffers::of_cable(cable_index);
    if sequence::find_first(io.outgoing_buffers, p) is Some {
        let i = sequence::lemma_find_first_some(io.outgoing_buffers, p);
        assert(io.outgoing_buffers[i].endpoint.cable_index == cable_index);
    }
}

/// What is to be done to publish a cable: nothing but to announce it where both ends are one memory,
/// a copy where it was registered with one, and a read of the whole buffer otherwise.
pub proof fn publications_follow_the_registration(
    t: VulkanInProcessPlacedCableTransportView,
    device_id: Seq<char>,
    io: VulkanPlacedCableIoBuffersView,
    cable_index: usize,
)
    requires
        publication(t, device_id, io, cable_index) is Ok,
    ensures
        exists|i: int|
            0 <= i < io.outgoing_buffers.len() && {
                let outgoing = #[trigger] io.outgoing_buffers[i];
                let key = buffers::outgoing_key(outgoing.endpoint);
                &&& outgoing.endpoint.cable_index == cable_index
                &&& match publication(t, device_id, io, cable_index)->Ok_0 {
                    VulkanPlacedCablePublicationView::Shared => t.direct_copies.contains_key(key)
                        && t.direct_copies[key].copy is None,
                    VulkanPlacedCablePublicationView::Copy { copy, byte_count } => {
                        &&& t.direct_copies.contains_key(key)
                        &&& t.direct_copies[key].copy == Some(copy)
                        &&& byte_count == t.direct_copies[key].byte_count
                    },
                    VulkanPlacedCablePublicationView::Read { byte_count } => {
                        &&& !t.direct_copies.contains_key(key)
                        &&& byte_count == outgoing.byte_capacity
                    },
                }
            },
{
    let p = buffers::of_cable(cable_index);
    let i = sequence::lemma_find_first_some(io.outgoing_buffers, p);
    assert(io.outgoing_buffers[i].endpoint.cable_index == cable_index);
}

/// Receiving a cable leaves the other cables alone. A packet is taken whether or not it can be
/// written, and a direct cable is no longer ready; each is counted with its bytes where it was
/// received.
pub proof fn receiving_leaves_other_cables_alone(
    t: VulkanInProcessPlacedCableTransportView,
    device_id: Seq<char>,
    io: VulkanPlacedCableIoBuffersView,
    cable_index: usize,
    written: Result<(), Seq<char>>,
    other: VulkanPlacedCablePacketKeyView,
)
    requires
        reception_fits(t, io, cable_index, written),
    ensures
        ({
            let (moved, after) = received(t, device_id, io, cable_index, written);
            &&& after.direct_copies == t.direct_copies
            &&& moved matches Ok(receipt) ==> exists|i: int|
                0 <= i < io.incoming_buffers.len() && {
                    let incoming = #[trigger] io.incoming_buffers[i];
                    let key = buffers::incoming_key(incoming.endpoint);
                    &&& incoming.endpoint.cable_index == cable_index
                    &&& other != key ==> {
                        &&& after.packets.contains_key(other) == t.packets.contains_key(other)
                        &&& t.packets.contains_key(other) ==> after.packets[other]
                            == t.packets[other]
                        &&& after.ready_direct_cables.contains(other)
                            == t.ready_direct_cables.contains(other)
                    }
                    &&& t.direct_copies.contains_key(key) ==> {
                        &&& t.ready_direct_cables.contains(key)
                        &&& !after.ready_direct_cables.contains(key)
                        &&& after.direct_receive_count == t.direct_receive_count + 1
                        &&& after.direct_receive_byte_count == t.direct_receive_byte_count
                            + t.direct_copies[key].byte_count
                    }
                    &&& !t.direct_copies.contains_key(key) ==> {
                        &&& t.packets.contains_key(key)
                        &&& !after.packets.contains_key(key)
                        &&& t.packets[key].byte_count == incoming.byte_capacity
                        &&& written is Ok
                        &&& receipt.byte_count == t.packets[key].byte_count
                        &&& receipt.key == t.packets[key].key
                        &&& receipt.signal == t.packets[key].signal
                        &&& after.received_packet_count == t.received_packet_count + 1
                        &&& after.received_byte_count == t.received_byte_count
                            + t.packets[key].byte_count
                    }
                }
        }),
{
    let p = buffers::of_cable(cable_index);
    if sequence::find_first(io.incoming_buffers, p) is Some {
        let i = sequence::lemma_find_first_some(io.incoming_buffers, p);
        assert(io.incoming_buffers[i].endpoint.cable_index == cable_index);
    }
}

/// The statistics say what the transport has counted, and count what is pending.
pub proof fn statistics_say_what_was_counted(t: VulkanInProcessPlacedCableTransportView)
    requires
        t.packets.dom().finite(),
        t.pending().len() <= usize::MAX,
        t.ready().len() <= usize::MAX,
    ensures
        ({
            let stats = transport_stats(t);
            &&& stats.published_packet_count == t.published_packet_count
            &&& stats.published_byte_count == t.published_byte_count
            &&& stats.received_packet_count == t.received_packet_count
            &&& stats.received_byte_count == t.received_byte_count
            &&& stats.direct_copy_count == t.direct_copy_count
            &&& stats.direct_copy_byte_count == t.direct_copy_byte_count
            &&& stats.direct_receive_count == t.direct_receive_count
            &&& stats.direct_receive_byte_count == t.direct_receive_byte_count
            &&& stats.pending_packet_count == t.pending().len()
            &&& stats.pending_direct_cable_count == t.ready().len()
            &&& forall|key: VulkanPlacedCablePacketKeyView|
                t.packets.contains_key(key) ==> exists|i: int|
                    0 <= i < t.pending().len() && (#[trigger] t.pending()[i]).0 == key
                        && t.pending()[i].1 == #[trigger] t.packets[key]
        }),
{
    ordered::sorting_keeps_the_entries::<VulkanPlacedCablePacketKey, VulkanPlacedCablePacketView>(
        t.packets,
    );
    ordered::lemma_increasing_entries::<VulkanPlacedCablePacketKey, VulkanPlacedCablePacketView>(
        t.pending(),
    );
}

} // verus!
