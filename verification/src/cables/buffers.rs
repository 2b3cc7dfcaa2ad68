//! The cable buffers of one device.

use crate::device::VulkanResidentBuffer;
use crate::device::VulkanResidentBufferView;
use crate::cables::plan::VulkanPlacedCableEndpoint;
use crate::cables::plan::VulkanPlacedCableEndpointView;
use crate::cables::plan::VulkanPlacedCableIoPlan;
use crate::cables::plan::VulkanPlacedCableIoPlanView;
use crate::cables::plan::VulkanPlacedLocalCable;
use crate::cables::plan::VulkanPlacedLocalCableView;
use crate::ordered::SortKey;
use crate::sequence;
use crate::text;
use vstd::prelude::*;

verus! {

/// In which direction a cable crosses the device's border.
#[derive(Clone, Copy, Debug, PartialEq, Eq, Structural)]
pub enum VulkanPlacedCableDirection {
    Incoming,
    Outgoing,
}

impl DeepView for VulkanPlacedCableDirection {
    type V = VulkanPlacedCableDirection;

    open spec fn deep_view(&self) -> VulkanPlacedCableDirection {
        *self
    }
}

/// The buffer of a local cable.
#[derive(Debug, PartialEq, Eq)]
pub struct VulkanPlacedLocalCableBufferAllocation {
    pub cable: VulkanPlacedLocalCable,
    pub byte_capacity: usize,
    pub buffer: VulkanResidentBuffer,
}

#[verifier::ext_equal]
pub struct VulkanPlacedLocalCableBufferAllocationView {
    pub cable: VulkanPlacedLocalCableView,
    pub byte_capacity: usize,
    pub buffer: VulkanResidentBufferView,
}

impl DeepView for VulkanPlacedLocalCableBufferAllocation {
    type V = VulkanPlacedLocalCableBufferAllocationView;

    open spec fn deep_view(&self) -> VulkanPlacedLocalCableBufferAllocationView {
        VulkanPlacedLocalCableBufferAllocationView {
            cable: self.cable.deep_view(),
            byte_capacity: self.byte_capacity,
            buffer: self.buffer.deep_view(),
        }
    }
}

impl View for VulkanPlacedLocalCableBufferAllocation {
    type V = VulkanPlacedLocalCableBufferAllocationView;

    open spec fn view(&self) -> VulkanPlacedLocalCableBufferAllocationView {
        self.deep_view()
    }
}

impl Clone for VulkanPlacedLocalCableBufferAllocation {
    fn clone(&self) -> (r: Self)
        ensures
            r@ == self@,
    {
        VulkanPlacedLocalCableBufferAllocation {
            cable: self.cable.clone(),
            byte_capacity: self.byte_capacity,
            buffer: self.buffer.clone(),
        }
    }
}

/// The buffer of an endpoint.
#[derive(Debug, PartialEq, Eq)]
pub struct VulkanPlacedCableBufferAllocation {
    pub endpoint: VulkanPlacedCableEndpoint,
    pub byte_capacity: usize,
    pub buffer: VulkanResidentBuffer,
}

#[verifier::ext_equal]
pub struct VulkanPlacedCableBufferAllocationView {
    pub endpoint: VulkanPlacedCableEndpointView,
    pub byte_capacity: usize,
    pub buffer: VulkanResidentBufferView,
}

impl DeepView for VulkanPlacedCableBufferAllocation {
    type V = VulkanPlacedCableBufferAllocationView;

    open spec fn deep_view(&self) -> VulkanPlacedCableBufferAllocationView {
        VulkanPlacedCableBufferAllocationView {
            endpoint: self.endpoint.deep_view(),
            byte_capacity: self.byte_capacity,
            buffer: self.buffer.deep_view(),
        }
    }
}

impl View for VulkanPlacedCableBufferAllocation {
    type V = VulkanPlacedCableBufferAllocationView;

    open spec fn view(&self) -> VulkanPlacedCableBufferAllocationView {
        self.deep_view()
    }
}

impl Clone for VulkanPlacedCableBufferAllocation {
    fn clone(&self) -> (r: Self)
        ensures
            r@ == self@,
    {
        VulkanPlacedCableBufferAllocation {
            endpoint: self.endpoint.clone(),
            byte_capacity: self.byte_capacity,
            buffer: self.buffer.clone(),
        }
    }
}

/// A given buffer for an endpoint.
#[derive(Debug, PartialEq, Eq)]
pub struct VulkanPlacedCableEndpointBufferOverride {
    pub direction: VulkanPlacedCableDirection,
    pub cable_index: usize,
    pub buffer: VulkanResidentBuffer,
}

#[verifier::ext_equal]
pub struct VulkanPlacedCableEndpointBufferOverrideView {
    pub direction: VulkanPlacedCableDirection,
    pub cable_index: usize,
    pub buffer: VulkanResidentBufferView,
}

impl DeepView for VulkanPlacedCableEndpointBufferOverride {
    type V = VulkanPlacedCableEndpointBufferOverrideView;

    open spec fn deep_view(&self) -> VulkanPlacedCableEndpointBufferOverrideView {
        VulkanPlacedCableEndpointBufferOverrideView {
            direction: self.direction,
            cable_index: self.cable_index,
            buffer: self.buffer.deep_view(),
        }
    }
}

impl View for VulkanPlacedCableEndpointBufferOverride {
    type V = VulkanPlacedCableEndpointBufferOverrideView;

    open spec fn view(&self) -> VulkanPlacedCableEndpointBufferOverrideView {
        self.deep_view()
    }
}

impl Clone for VulkanPlacedCableEndpointBufferOverride {
    fn clone(&self) -> (r: Self)
        ensures
            r@ == self@,
    {
        VulkanPlacedCableEndpointBufferOverride {
            direction: self.direction,
            cable_index: self.cable_index,
            buffer: self.buffer.clone(),
        }
    }
}

/// The cable buffers of a device.
#[derive(Debug, PartialEq, Eq)]
pub struct VulkanPlacedCableIoBuffers {
    pub plan: VulkanPlacedCableIoPlan,
    pub local_buffers: Vec<VulkanPlacedLocalCableBufferAllocation>,
    pub incoming_buffers: Vec<VulkanPlacedCableBufferAllocation>,
    pub outgoing_buffers: Vec<VulkanPlacedCableBufferAllocation>,
    pub total_byte_capacity: usize,
}

#[verifier::ext_equal]
pub struct VulkanPlacedCableIoBuffersView {
    pub plan: VulkanPlacedCableIoPlanView,
    pub local_buffers: Seq<VulkanPlacedLocalCableBufferAllocationView>,
    pub incoming_buffers: Seq<VulkanPlacedCableBufferAllocationView>,
    pub outgoing_buffers: Seq<VulkanPlacedCableBufferAllocationView>,
    pub total_byte_capacity: usize,
}

impl DeepView for VulkanPlacedCableIoBuffers {
    type V = VulkanPlacedCableIoBuffersView;

    open spec fn deep_view(&self) -> VulkanPlacedCableIoBuffersView {
        VulkanPlacedCableIoBuffersView {
            plan: self.plan.deep_view(),
            local_buffers: self.local_buffers.deep_view(),
            incoming_buffers: self.incoming_buffers.deep_view(),
            outgoing_buffers: self.outgoing_buffers.deep_view(),
            total_byte_capacity: self.total_byte_capacity,
        }
    }
}

impl View for VulkanPlacedCableIoBuffers {
    type V = VulkanPlacedCableIoBuffersView;

    open spec fn view(&self) -> VulkanPlacedCableIoBuffersView {
        self.deep_view()
    }
}

impl Clone for VulkanPlacedCableIoBuffers {
    fn clone(&self) -> (r: Self)
        ensures
            r@ == self@,
    {
        VulkanPlacedCableIoBuffers {
            plan: self.plan.clone(),
            local_buffers: self.local_buffers.clone(),
            incoming_buffers: self.incoming_buffers.clone(),
            outgoing_buffers: self.outgoing_buffers.clone(),
            total_byte_capacity: self.total_byte_capacity,
        }
    }
}

/// Whether a buffer is that of a local cable.
pub open spec fn of_local_cable(cable_index: usize) -> spec_fn(
    VulkanPlacedLocalCableBufferAllocationView,
) -> bool {
    |b: VulkanPlacedLocalCableBufferAllocationView| b.cable.cable_index == cable_index
}

/// Whether a buffer is that of a cable's endpoint.
pub open spec fn of_cable(cable_index: usize) -> spec_fn(VulkanPlacedCableBufferAllocationView) -> bool {
    |b: VulkanPlacedCableBufferAllocationView| b.endpoint.cable_index == cable_index
}

/// The first local buffer of a cable, with its position.
pub open spec fn local_buffer_of(
    buffers: Seq<VulkanPlacedLocalCableBufferAllocationView>,
    cable_index: usize,
) -> Option<(usize, VulkanPlacedLocalCableBufferAllocationView)> {
    match sequence::first_position(buffers, of_local_cable(cable_index)) {
        Some(i) => Some((i as usize, buffers[i])),
        None => None,
    }
}

/// The first endpoint buffer of a cable, with its position.
pub open spec fn endpoint_buffer_of(
    buffers: Seq<VulkanPlacedCableBufferAllocationView>,
    cable_index: usize,
) -> Option<(usize, VulkanPlacedCableBufferAllocationView)> {
    match sequence::first_position(buffers, of_cable(cable_index)) {
        Some(i) => Some((i as usize, buffers[i])),
        None => None,
    }
}

/// The first endpoint buffer of a cable.
pub open spec fn endpoint_allocation_of(
    buffers: Seq<VulkanPlacedCableBufferAllocationView>,
    cable_index: usize,
) -> Option<VulkanPlacedCableBufferAllocationView> {
    sequence::find_first(buffers, of_cable(cable_index))
}

#[verifier::loop_isolation(false)]
fn find_endpoint_buffer<'a>(
    buffers: &'a Vec<VulkanPlacedCableBufferAllocation>,
    cable_index: usize,
) -> (r: Option<(usize, &'a VulkanPlacedCableBufferAllocation)>)
    ensures
        r.deep_view() == endpoint_buffer_of(buffers.deep_view(), cable_index),
        (match r {
            Some((i, buffer)) => Some(buffer@),
            None => None,
        }) == endpoint_allocation_of(buffers.deep_view(), cable_index),
{
    let ghost all = buffers.deep_view();
    let ghost p = of_cable(cable_index);
    let mut i: usize = 0;
    while i < buffers.len()
        invariant
            i <= buffers.len(),
            forall|j: int| 0 <= j < i ==> !p(#[trigger] all[j]),
        decreases buffers.len() - i,
    {
        assert(all[i as int] == buffers@[i as int]@);
        if buffers[i].endpoint.cable_index == cable_index {
            proof {
                sequence::lemma_find_first_at(all, p, i as int);
            }
            return Some((i, &buffers[i]));
        }
        i += 1;
    }
    proof {
        sequence::lemma_find_first_none(all, p);
    }
    None
}

impl VulkanPlacedCableIoBuffers {
    /// The buffer of a local cable, with its position.
    #[verifier::loop_isolation(false)]
    pub fn local_buffer(&self, cable_index: usize) -> (r: Option<
        (usize, &VulkanPlacedLocalCableBufferAllocation),
    >)
        ensures
            r.deep_view() == local_buffer_of(self@.local_buffers, cable_index),
            (match r {
                Some((i, buffer)) => Some(buffer@),
                None => None,
            }) == sequence::find_first(self@.local_buffers, of_local_cable(cable_index)),
            r is Some ==> r->Some_0.0 < self.local_buffers@.len(),
    {
        let ghost all = self.local_buffers.deep_view();
        let ghost p = of_local_cable(cable_index);
        let mut i: usize = 0;
        while i < self.local_buffers.len()
            invariant
                i <= self.local_buffers.len(),
                forall|j: int| 0 <= j < i ==> !p(#[trigger] all[j]),
            decreases self.local_buffers.len() - i,
        {
            assert(all[i as int] == self.local_buffers@[i as int]@);
            if self.local_buffers[i].cable.cable_index == cable_index {
                proof {
                    sequence::lemma_find_first_at(all, p, i as int);
                }
                return Some((i, &self.local_buffers[i]));
            }
            i += 1;
        }
        proof {
            sequence::lemma_find_first_none(all, p);
        }
        None
    }

    /// The buffer of a local cable.
    pub fn local_cable_buffer(&self, cable_index: usize) -> (r: Option<
        &VulkanPlacedLocalCableBufferAllocation,
    >)
        ensures
            r.deep_view() == sequence::find_first(self@.local_buffers, of_local_cable(cable_index)),
    {
        match self.local_buffer(cable_index) {
            Some((_, buffer)) => Some(buffer),
            None => None,
        }
    }

    /// The buffer of a cable in a direction, with its position.
    pub fn buffer(&self, direction: VulkanPlacedCableDirection, cable_index: usize) -> (r: Option<
        (usize, &VulkanPlacedCableBufferAllocation),
    >)
        ensures
            r.deep_view() == (match direction {
                VulkanPlacedCableDirection::Incoming => endpoint_buffer_of(
                    self@.incoming_buffers,
                    cable_index,
                ),
                VulkanPlacedCableDirection::Outgoing => endpoint_buffer_of(
                    self@.outgoing_buffers,
                    cable_index,
                ),
            }),
    {
        match direction {
            VulkanPlacedCableDirection::Incoming => find_endpoint_buffer(
                &self.incoming_buffers,
                cable_index,
            ),
            VulkanPlacedCableDirection::Outgoing => find_endpoint_buffer(
                &self.outgoing_buffers,
                cable_index,
            ),
        }
    }

    /// The buffer of an incoming cable.
    pub fn incoming_buffer(&self, cable_index: usize) -> (r: Option<
        &VulkanPlacedCableBufferAllocation,
    >)
        ensures
            r.deep_view() == endpoint_allocation_of(self@.incoming_buffers, cable_index),
    {
        match find_endpoint_buffer(&self.incoming_buffers, cable_index) {
            Some((_, buffer)) => Some(buffer),
            None => None,
        }
    }

    /// The buffer of an outgoing cable.
    pub fn outgoing_buffer(&self, cable_index: usize) -> (r: Option<
        &VulkanPlacedCableBufferAllocation,
    >)
        ensures
            r.deep_view() == endpoint_allocation_of(self@.outgoing_buffers, cable_index),
    {
        match find_endpoint_buffer(&self.outgoing_buffers, cable_index) {
            Some((_, buffer)) => Some(buffer),
            None => None,
        }
    }
}

/// What a packet is found by.
#[derive(Debug, PartialEq, Eq)]
pub struct VulkanPlacedCablePacketKey {
    pub cable_index: usize,
    pub from_device_id: String,
    pub to_device_id: String,
}

#[verifier::ext_equal]
pub struct VulkanPlacedCablePacketKeyView {
    pub cable_index: usize,
    pub from_device_id: Seq<char>,
    pub to_device_id: Seq<char>,
}

impl DeepView for VulkanPlacedCablePacketKey {
    type V = VulkanPlacedCablePacketKeyView;

    open spec fn deep_view(&self) -> VulkanPlacedCablePacketKeyView {
        VulkanPlacedCablePacketKeyView {
            cable_index: self.cable_index,
            from_device_id: self.from_device_id.deep_view(),
            to_device_id: self.to_device_id.deep_view(),
        }
    }
}

impl View for VulkanPlacedCablePacketKey {
    type V = VulkanPlacedCablePacketKeyView;

    open spec fn view(&self) -> VulkanPlacedCablePacketKeyView {
        self.deep_view()
    }
}

impl Clone for VulkanPlacedCablePacketKey {
    fn clone(&self) -> (r: Self)
        ensures
            r@ == self@,
    {
        VulkanPlacedCablePacketKey {
            cable_index: self.cable_index,
            from_device_id: self.from_device_id.clone(),
            to_device_id: self.to_device_id.clone(),
        }
    }
}

/// The key of what an outgoing endpoint sends.
pub open spec fn outgoing_key(endpoint: VulkanPlacedCableEndpointView) -> VulkanPlacedCablePacketKeyView {
    VulkanPlacedCablePacketKeyView {
        cable_index: endpoint.cable_index,
        from_device_id: endpoint.local_device_id,
        to_device_id: endpoint.remote_device_id,
    }
}

/// The key of what an incoming endpoint takes.
pub open spec fn incoming_key(endpoint: VulkanPlacedCableEndpointView) -> VulkanPlacedCablePacketKeyView {
    VulkanPlacedCablePacketKeyView {
        cable_index: endpoint.cable_index,
        from_device_id: endpoint.remote_device_id,
        to_device_id: endpoint.local_device_id,
    }
}

impl VulkanPlacedCablePacketKey {
    /// The key of what an outgoing endpoint sends.
    pub fn from_outgoing_endpoint(endpoint: &VulkanPlacedCableEndpoint) -> (r: Self)
        ensures
            r@ == outgoing_key(endpoint@),
    {
        VulkanPlacedCablePacketKey {
            cable_index: endpoint.cable_index,
            from_device_id: endpoint.local_device_id.clone(),
            to_device_id: endpoint.remote_device_id.clone(),
        }
    }

    /// The key of what an incoming endpoint takes.
    pub fn from_incoming_endpoint(endpoint: &VulkanPlacedCableEndpoint) -> (r: Self)
        ensures
            r@ == incoming_key(endpoint@),
    {
        VulkanPlacedCablePacketKey {
            cable_index: endpoint.cable_index,
            from_device_id: endpoint.remote_device_id.clone(),
            to_device_id: endpoint.local_device_id.clone(),
        }
    }
}

impl SortKey for VulkanPlacedCablePacketKey {
    open spec fn before(
        a: VulkanPlacedCablePacketKeyView,
        b: VulkanPlacedCablePacketKeyView,
    ) -> bool {
        a.cable_index < b.cable_index || (a.cable_index == b.cable_index && (text::text_before(
            a.from_device_id,
            b.from_device_id,
        ) || (a.from_device_id == b.from_device_id && text::text_before(
            a.to_device_id,
            b.to_device_id,
        ))))
    }

    proof fn irreflexive(a: VulkanPlacedCablePacketKeyView) {
        text::lemma_text_before_irreflexive(a.from_device_id);
        text::lemma_text_before_irreflexive(a.to_device_id);
    }

    proof fn transitive(
        a: VulkanPlacedCablePacketKeyView,
        b: VulkanPlacedCablePacketKeyView,
        c: VulkanPlacedCablePacketKeyView,
    ) {
        if text::text_before(a.from_device_id, b.from_device_id) && text::text_before(
            b.from_device_id,
            c.from_device_id,
        ) {
            text::lemma_text_before_transitive(
                a.from_device_id,
                b.from_device_id,
                c.from_device_id,
            );
        }
        if text::text_before(a.to_device_id, b.to_device_id) && text::text_before(
            b.to_device_id,
            c.to_device_id,
        ) {
            text::lemma_text_before_transitive(a.to_device_id, b.to_device_id, c.to_device_id);
        }
    }

    proof fn total(a: VulkanPlacedCablePacketKeyView, b: VulkanPlacedCablePacketKeyView) {
        text::lemma_text_before_total(a.from_device_id, b.from_device_id);
        text::lemma_text_before_total(a.to_device_id, b.to_device_id);
        assert(a.cable_index == b.cable_index && a.from_device_id == b.from_device_id
            && a.to_device_id == b.to_device_id ==> a =~= b);
    }

    fn is_before(&self, other: &Self) -> (r: bool) {
        if self.cable_index != other.cable_index {
            return self.cable_index < other.cable_index;
        }
        if text::is_before(self.from_device_id.as_str(), other.from_device_id.as_str()) {
            return true;
        }
        self.from_device_id == other.from_device_id && text::is_before(
            self.to_device_id.as_str(),
            other.to_device_id.as_str(),
        )
    }

    fn is_same(&self, other: &Self) -> (r: bool) {
        self.cable_index == other.cable_index && self.from_device_id == other.from_device_id
            && self.to_device_id == other.to_device_id
    }
}

/// A signal on its way between two devices.
#[derive(Debug, PartialEq, Eq)]
pub struct VulkanPlacedCablePacket {
    pub key: VulkanPlacedCablePacketKey,
    pub signal: String,
    pub source_pedal_id: String,
    pub destination_pedal_id: String,
    pub byte_count: usize,
    pub bytes: Vec<u8>,
}

#[verifier::ext_equal]
pub struct VulkanPlacedCablePacketView {
    pub key: VulkanPlacedCablePacketKeyView,
    pub signal: Seq<char>,
    pub source_pedal_id: Seq<char>,
    pub destination_pedal_id: Seq<char>,
    pub byte_count: usize,
    pub bytes: Seq<u8>,
}

impl DeepView for VulkanPlacedCablePacket {
    type V = VulkanPlacedCablePacketView;

    open spec fn deep_view(&self) -> VulkanPlacedCablePacketView {
        VulkanPlacedCablePacketView {
            key: self.key.deep_view(),
            signal: self.signal.deep_view(),
            source_pedal_id: self.source_pedal_id.deep_view(),
            destination_pedal_id: self.destination_pedal_id.deep_view(),
            byte_count: self.byte_count,
            bytes: self.bytes.deep_view(),
        }
    }
}

impl View for VulkanPlacedCablePacket {
    type V = VulkanPlacedCablePacketView;

    open spec fn view(&self) -> VulkanPlacedCablePacketView {
        self.deep_view()
    }
}

impl Clone for VulkanPlacedCablePacket {
    fn clone(&self) -> (r: Self)
        ensures
            r@ == self@,
    {
        VulkanPlacedCablePacket {
            key: self.key.clone(),
            signal: self.signal.clone(),
            source_pedal_id: self.source_pedal_id.clone(),
            destination_pedal_id: self.destination_pedal_id.clone(),
            byte_count: self.byte_count,
            bytes: self.bytes.clone(),
        }
    }
}

/// What was sent or taken.
#[derive(Debug, PartialEq, Eq)]
pub struct VulkanPlacedCableTransportReceipt {
    pub key: VulkanPlacedCablePacketKey,
    pub signal: String,
    pub byte_count: usize,
}

#[verifier::ext_equal]
pub struct VulkanPlacedCableTransportReceiptView {
    pub key: VulkanPlacedCablePacketKeyView,
    pub signal: Seq<char>,
    pub byte_count: usize,
}

impl DeepView for VulkanPlacedCableTransportReceipt {
    type V = VulkanPlacedCableTransportReceiptView;

    open spec fn deep_view(&self) -> VulkanPlacedCableTransportReceiptView {
        VulkanPlacedCableTransportReceiptView {
            key: self.key.deep_view(),
            signal: self.signal.deep_view(),
            byte_count: self.byte_count,
        }
    }
}

impl View for VulkanPlacedCableTransportReceipt {
    type V = VulkanPlacedCableTransportReceiptView;

    open spec fn view(&self) -> VulkanPlacedCableTransportReceiptView {
        self.deep_view()
    }
}

impl Clone for VulkanPlacedCableTransportReceipt {
    fn clone(&self) -> (r: Self)
        ensures
            r@ == self@,
    {
        VulkanPlacedCableTransportReceipt {
            key: self.key.clone(),
            signal: self.signal.clone(),
            byte_count: self.byte_count,
        }
    }
}

/// What was taken, and what was not there.
#[derive(Debug, PartialEq, Eq)]
pub struct VulkanPlacedCableTransportReceiveBatch {
    pub received: Vec<VulkanPlacedCableTransportReceipt>,
    pub missing_packets: Vec<VulkanPlacedCablePacketKey>,
}

#[verifier::ext_equal]
pub struct VulkanPlacedCableTransportReceiveBatchView {
    pub received: Seq<VulkanPlacedCableTransportReceiptView>,
    pub missing_packets: Seq<VulkanPlacedCablePacketKeyView>,
}

impl DeepView for VulkanPlacedCableTransportReceiveBatch {
    type V = VulkanPlacedCableTransportReceiveBatchView;

    open spec fn deep_view(&self) -> VulkanPlacedCableTransportReceiveBatchView {
        VulkanPlacedCableTransportReceiveBatchView {
            received: self.received.deep_view(),
            missing_packets: self.missing_packets.deep_view(),
        }
    }
}

impl View for VulkanPlacedCableTransportReceiveBatch {
    type V = VulkanPlacedCableTransportReceiveBatchView;

    open spec fn view(&self) -> VulkanPlacedCableTransportReceiveBatchView {
        self.deep_view()
    }
}

impl Clone for VulkanPlacedCableTransportReceiveBatch {
    fn clone(&self) -> (r: Self)
        ensures
            r@ == self@,
    {
        VulkanPlacedCableTransportReceiveBatch {
            received: self.received.clone(),
            missing_packets: self.missing_packets.clone(),
        }
    }
}

/// How much was sent and taken.
#[derive(Debug, PartialEq, Eq)]
pub struct VulkanPlacedCableTransportStats {
    pub pending_packet_count: usize,
    pub pending_byte_count: usize,
    pub pending_direct_cable_count: usize,
    pub pending_direct_byte_count: usize,
    pub published_packet_count: usize,
    pub published_byte_count: usize,
    pub received_packet_count: usize,
    pub received_byte_count: usize,
    pub direct_copy_count: usize,
    pub direct_copy_byte_count: usize,
    pub direct_receive_count: usize,
    pub direct_receive_byte_count: usize,
}

#[verifier::ext_equal]
pub struct VulkanPlacedCableTransportStatsView {
    pub pending_packet_count: usize,
    pub pending_byte_count: usize,
    pub pending_direct_cable_count: usize,
    pub pending_direct_byte_count: usize,
    pub published_packet_count: usize,
    pub published_byte_count: usize,
    pub received_packet_count: usize,
    pub received_byte_count: usize,
    pub direct_copy_count: usize,
    pub direct_copy_byte_count: usize,
    pub direct_receive_count: usize,
    pub direct_receive_byte_count: usize,
}

impl DeepView for VulkanPlacedCableTransportStats {
    type V = VulkanPlacedCableTransportStatsView;

    open spec fn deep_view(&self) -> VulkanPlacedCableTransportStatsView {
        VulkanPlacedCableTransportStatsView {
            pending_packet_count: self.pending_packet_count,
            pending_byte_count: self.pending_byte_count,
            pending_direct_cable_count: self.pending_direct_cable_count,
            pending_direct_byte_count: self.pending_direct_byte_count,
            published_packet_count: self.published_packet_count,
            published_byte_count: self.published_byte_count,
            received_packet_count: self.received_packet_count,
            received_byte_count: self.received_byte_count,
            direct_copy_count: self.direct_copy_count,
            direct_copy_byte_count: self.direct_copy_byte_count,
            direct_receive_count: self.direct_receive_count,
            direct_receive_byte_count: self.direct_receive_byte_count,
        }
    }
}

impl View for VulkanPlacedCableTransportStats {
    type V = VulkanPlacedCableTransportStatsView;

    open spec fn view(&self) -> VulkanPlacedCableTransportStatsView {
        self.deep_view()
    }
}

impl Clone for VulkanPlacedCableTransportStats {
    fn clone(&self) -> (r: Self)
        ensures
            r@ == self@,
    {
        VulkanPlacedCableTransportStats {
            pending_packet_count: self.pending_packet_count,
            pending_byte_count: self.pending_byte_count,
            pending_direct_cable_count: self.pending_direct_cable_count,
            pending_direct_byte_count: self.pending_direct_byte_count,
            published_packet_count: self.published_packet_count,
            published_byte_count: self.published_byte_count,
            received_packet_count: self.received_packet_count,
            received_byte_count: self.received_byte_count,
            direct_copy_count: self.direct_copy_count,
            direct_copy_byte_count: self.direct_copy_byte_count,
            direct_receive_count: self.direct_receive_count,
            direct_receive_byte_count: self.direct_receive_byte_count,
        }
    }
}

/// The sum, or the largest number where it does not fit.
pub open spec fn saturated(a: usize, b: usize) -> usize {
    if a + b > usize::MAX {
        usize::MAX
    } else {
        (a + b) as usize
    }
}

impl VulkanPlacedCableTransportStats {
    /// Adds the counts of a tick. What is pending is what the tick left pending.
    pub fn accumulate(&mut self, tick: &Self)
        ensures
            final(self)@ == (VulkanPlacedCableTransportStatsView {
                pending_packet_count: tick@.pending_packet_count,
                pending_byte_count: tick@.pending_byte_count,
                pending_direct_cable_count: tick@.pending_direct_cable_count,
                pending_direct_byte_count: tick@.pending_direct_byte_count,
                published_packet_count: saturated(
                    old(self)@.published_packet_count,
                    tick@.published_packet_count,
                ),
                published_byte_count: saturated(
                    old(self)@.published_byte_count,
                    tick@.published_byte_count,
                ),
                received_packet_count: saturated(
                    old(self)@.received_packet_count,
                    tick@.received_packet_count,
                ),
                received_byte_count: saturated(
                    old(self)@.received_byte_count,
                    tick@.received_byte_count,
                ),
                direct_copy_count: saturated(
                    old(self)@.direct_copy_count,
                    tick@.direct_copy_count,
                ),
                direct_copy_byte_count: saturated(
                    old(self)@.direct_copy_byte_count,
                    tick@.direct_copy_byte_count,
                ),
                direct_receive_count: saturated(
                    old(self)@.direct_receive_count,
                    tick@.direct_receive_count,
                ),
                direct_receive_byte_count: saturated(
                    old(self)@.direct_receive_byte_count,
                    tick@.direct_receive_byte_count,
                ),
            }),
    {
        self.pending_packet_count = tick.pending_packet_count;
        self.pending_byte_count = tick.pending_byte_count;
        self.pending_direct_cable_count = tick.pending_direct_cable_count;
        self.pending_direct_byte_count = tick.pending_direct_byte_count;
        self.published_packet_count = self.published_packet_count.saturating_add(
            tick.published_packet_count,
        );
        self.published_byte_count = self.published_byte_count.saturating_add(
            tick.published_byte_count,
        );
        self.received_packet_count = self.received_packet_count.saturating_add(
            tick.received_packet_count,
        );
        self.received_byte_count = self.received_byte_count.saturating_add(
            tick.received_byte_count,
        );
        self.direct_copy_count = self.direct_copy_count.saturating_add(tick.direct_copy_count);
        self.direct_copy_byte_count = self.direct_copy_byte_count.saturating_add(
            tick.direct_copy_byte_count,
        );
        self.direct_receive_count = self.direct_receive_count.saturating_add(
            tick.direct_receive_count,
        );
        self.direct_receive_byte_count = self.direct_receive_byte_count.saturating_add(
            tick.direct_receive_byte_count,
        );
    }
}

/// A buffer that is found for a cable is the first that belongs to it, and stands at the position
/// that is given with it. Where none is found, none belongs to the cable.
pub proof fn buffers_are_found_by_their_cable(
    local: Seq<VulkanPlacedLocalCableBufferAllocationView>,
    ends: Seq<VulkanPlacedCableBufferAllocationView>,
    cable_index: usize,
    j: int,
)
    requires
        local.len() <= usize::MAX,
        ends.len() <= usize::MAX,
    ensures
        match local_buffer_of(local, cable_index) {
            Some((i, buffer)) => {
                &&& i < local.len()
                &&& buffer == local[i as int]
                &&& buffer.cable.cable_index == cable_index
                &&& 0 <= j < i ==> local[j].cable.cable_index != cable_index
            },
            None => 0 <= j < local.len() ==> local[j].cable.cable_index != cable_index,
        },
        match endpoint_buffer_of(ends, cable_index) {
            Some((i, buffer)) => {
                &&& i < ends.len()
                &&& buffer == ends[i as int]
                &&& buffer.endpoint.cable_index == cable_index
                &&& 0 <= j < i ==> ends[j].endpoint.cable_index != cable_index
                &&& endpoint_allocation_of(ends, cable_index) == Some(buffer)
            },
            None => {
                &&& 0 <= j < ends.len() ==> ends[j].endpoint.cable_index != cable_index
                &&& endpoint_allocation_of(ends, cable_index) is None
            },
        },
{
    sequence::lemma_first_position_is_first(local, of_local_cable(cable_index));
    sequence::lemma_first_position_is_first(ends, of_cable(cable_index));
    sequence::lemma_first_position(local, of_local_cable(cable_index));
    sequence::lemma_first_position(ends, of_cable(cable_index));
    if endpoint_allocation_of(ends, cable_index) is Some {
        sequence::lemma_find_first_some(ends, of_cable(cable_index));
    } else {
        sequence::lemma_find_none_all(ends, of_cable(cable_index));
    }
    if 0 <= j < local.len() && local_buffer_of(local, cable_index) is None {
        assert(!of_local_cable(cable_index)(local[j]));
    }
    if 0 <= j < ends.len() && endpoint_buffer_of(ends, cable_index) is None {
        assert(!of_cable(cable_index)(ends[j]));
    }
}

/// What an end sends and another takes is one packet exactly where they are the two ends of one cable:
/// the sender's device is the one that the taker hears from, and the other way round.
pub proof fn both_ends_name_the_same_packet(
    outgoing: VulkanPlacedCableEndpointView,
    incoming: VulkanPlacedCableEndpointView,
)
    ensures
        outgoing_key(outgoing).from_device_id == outgoing.local_device_id,
        incoming_key(incoming).to_device_id == incoming.local_device_id,
        outgoing_key(outgoing) == incoming_key(incoming) <==> {
            &&& outgoing.cable_index == incoming.cable_index
            &&& outgoing.local_device_id == incoming.remote_device_id
            &&& outgoing.remote_device_id == incoming.local_device_id
        },
{
}

} // verus!
