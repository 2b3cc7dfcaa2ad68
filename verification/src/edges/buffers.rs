//! The edge buffers of one device.

use crate::device::VulkanResidentBuffer;
use crate::device::VulkanResidentBufferView;
use crate::edges::plan::VulkanPlacedEdgeEndpoint;
use crate::edges::plan::VulkanPlacedEdgeEndpointView;
use crate::edges::plan::VulkanPlacedEdgeIoPlan;
use crate::edges::plan::VulkanPlacedEdgeIoPlanView;
use crate::edges::plan::VulkanPlacedLocalEdge;
use crate::edges::plan::VulkanPlacedLocalEdgeView;
use crate::ordered::SortKey;
use crate::sequence;
use crate::text;
use vstd::prelude::*;

verus! {

/// In which direction an edge crosses the device's border.
#[derive(Clone, Copy, Debug, PartialEq, Eq, Structural)]
pub enum VulkanPlacedEdgeDirection {
    Incoming,
    Outgoing,
}

impl DeepView for VulkanPlacedEdgeDirection {
    type V = VulkanPlacedEdgeDirection;

    open spec fn deep_view(&self) -> VulkanPlacedEdgeDirection {
        *self
    }
}

/// The buffer of a local edge.
#[derive(Debug, PartialEq, Eq)]
pub struct VulkanPlacedLocalEdgeBufferAllocation {
    pub edge: VulkanPlacedLocalEdge,
    pub byte_capacity: usize,
    pub buffer: VulkanResidentBuffer,
}

#[verifier::ext_equal]
pub struct VulkanPlacedLocalEdgeBufferAllocationView {
    pub edge: VulkanPlacedLocalEdgeView,
    pub byte_capacity: usize,
    pub buffer: VulkanResidentBufferView,
}

impl DeepView for VulkanPlacedLocalEdgeBufferAllocation {
    type V = VulkanPlacedLocalEdgeBufferAllocationView;

    open spec fn deep_view(&self) -> VulkanPlacedLocalEdgeBufferAllocationView {
        VulkanPlacedLocalEdgeBufferAllocationView {
            edge: self.edge.deep_view(),
            byte_capacity: self.byte_capacity,
            buffer: self.buffer.deep_view(),
        }
    }
}

impl View for VulkanPlacedLocalEdgeBufferAllocation {
    type V = VulkanPlacedLocalEdgeBufferAllocationView;

    open spec fn view(&self) -> VulkanPlacedLocalEdgeBufferAllocationView {
        self.deep_view()
    }
}

impl Clone for VulkanPlacedLocalEdgeBufferAllocation {
    fn clone(&self) -> (r: Self)
        ensures
            r@ == self@,
    {
        VulkanPlacedLocalEdgeBufferAllocation {
            edge: self.edge.clone(),
            byte_capacity: self.byte_capacity,
            buffer: self.buffer.clone(),
        }
    }
}

/// The buffer of an endpoint.
#[derive(Debug, PartialEq, Eq)]
pub struct VulkanPlacedEdgeBufferAllocation {
    pub endpoint: VulkanPlacedEdgeEndpoint,
    pub byte_capacity: usize,
    pub buffer: VulkanResidentBuffer,
}

#[verifier::ext_equal]
pub struct VulkanPlacedEdgeBufferAllocationView {
    pub endpoint: VulkanPlacedEdgeEndpointView,
    pub byte_capacity: usize,
    pub buffer: VulkanResidentBufferView,
}

impl DeepView for VulkanPlacedEdgeBufferAllocation {
    type V = VulkanPlacedEdgeBufferAllocationView;

    open spec fn deep_view(&self) -> VulkanPlacedEdgeBufferAllocationView {
        VulkanPlacedEdgeBufferAllocationView {
            endpoint: self.endpoint.deep_view(),
            byte_capacity: self.byte_capacity,
            buffer: self.buffer.deep_view(),
        }
    }
}

impl View for VulkanPlacedEdgeBufferAllocation {
    type V = VulkanPlacedEdgeBufferAllocationView;

    open spec fn view(&self) -> VulkanPlacedEdgeBufferAllocationView {
        self.deep_view()
    }
}

impl Clone for VulkanPlacedEdgeBufferAllocation {
    fn clone(&self) -> (r: Self)
        ensures
            r@ == self@,
    {
        VulkanPlacedEdgeBufferAllocation {
            endpoint: self.endpoint.clone(),
            byte_capacity: self.byte_capacity,
            buffer: self.buffer.clone(),
        }
    }
}

/// A given buffer for an endpoint.
#[derive(Debug, PartialEq, Eq)]
pub struct VulkanPlacedEdgeEndpointBufferOverride {
    pub direction: VulkanPlacedEdgeDirection,
    pub edge_index: usize,
    pub buffer: VulkanResidentBuffer,
}

#[verifier::ext_equal]
pub struct VulkanPlacedEdgeEndpointBufferOverrideView {
    pub direction: VulkanPlacedEdgeDirection,
    pub edge_index: usize,
    pub buffer: VulkanResidentBufferView,
}

impl DeepView for VulkanPlacedEdgeEndpointBufferOverride {
    type V = VulkanPlacedEdgeEndpointBufferOverrideView;

    open spec fn deep_view(&self) -> VulkanPlacedEdgeEndpointBufferOverrideView {
        VulkanPlacedEdgeEndpointBufferOverrideView {
            direction: self.direction,
            edge_index: self.edge_index,
            buffer: self.buffer.deep_view(),
        }
    }
}

impl View for VulkanPlacedEdgeEndpointBufferOverride {
    type V = VulkanPlacedEdgeEndpointBufferOverrideView;

    open spec fn view(&self) -> VulkanPlacedEdgeEndpointBufferOverrideView {
        self.deep_view()
    }
}

impl Clone for VulkanPlacedEdgeEndpointBufferOverride {
    fn clone(&self) -> (r: Self)
        ensures
            r@ == self@,
    {
        VulkanPlacedEdgeEndpointBufferOverride {
            direction: self.direction,
            edge_index: self.edge_index,
            buffer: self.buffer.clone(),
        }
    }
}

/// The edge buffers of a device.
#[derive(Debug, PartialEq, Eq)]
pub struct VulkanPlacedEdgeIoBuffers {
    pub plan: VulkanPlacedEdgeIoPlan,
    pub local_buffers: Vec<VulkanPlacedLocalEdgeBufferAllocation>,
    pub incoming_buffers: Vec<VulkanPlacedEdgeBufferAllocation>,
    pub outgoing_buffers: Vec<VulkanPlacedEdgeBufferAllocation>,
    pub total_byte_capacity: usize,
}

#[verifier::ext_equal]
pub struct VulkanPlacedEdgeIoBuffersView {
    pub plan: VulkanPlacedEdgeIoPlanView,
    pub local_buffers: Seq<VulkanPlacedLocalEdgeBufferAllocationView>,
    pub incoming_buffers: Seq<VulkanPlacedEdgeBufferAllocationView>,
    pub outgoing_buffers: Seq<VulkanPlacedEdgeBufferAllocationView>,
    pub total_byte_capacity: usize,
}

impl DeepView for VulkanPlacedEdgeIoBuffers {
    type V = VulkanPlacedEdgeIoBuffersView;

    open spec fn deep_view(&self) -> VulkanPlacedEdgeIoBuffersView {
        VulkanPlacedEdgeIoBuffersView {
            plan: self.plan.deep_view(),
            local_buffers: self.local_buffers.deep_view(),
            incoming_buffers: self.incoming_buffers.deep_view(),
            outgoing_buffers: self.outgoing_buffers.deep_view(),
            total_byte_capacity: self.total_byte_capacity,
        }
    }
}

impl View for VulkanPlacedEdgeIoBuffers {
    type V = VulkanPlacedEdgeIoBuffersView;

    open spec fn view(&self) -> VulkanPlacedEdgeIoBuffersView {
        self.deep_view()
    }
}

impl Clone for VulkanPlacedEdgeIoBuffers {
    fn clone(&self) -> (r: Self)
        ensures
            r@ == self@,
    {
        VulkanPlacedEdgeIoBuffers {
            plan: self.plan.clone(),
            local_buffers: self.local_buffers.clone(),
            incoming_buffers: self.incoming_buffers.clone(),
            outgoing_buffers: self.outgoing_buffers.clone(),
            total_byte_capacity: self.total_byte_capacity,
        }
    }
}

/// Whether a buffer is that of a local edge.
pub open spec fn of_local_edge(edge_index: usize) -> spec_fn(
    VulkanPlacedLocalEdgeBufferAllocationView,
) -> bool {
    |b: VulkanPlacedLocalEdgeBufferAllocationView| b.edge.edge_index == edge_index
}

/// Whether a buffer is that of an edge's endpoint.
pub open spec fn of_edge(edge_index: usize) -> spec_fn(VulkanPlacedEdgeBufferAllocationView) -> bool {
    |b: VulkanPlacedEdgeBufferAllocationView| b.endpoint.edge_index == edge_index
}

/// The first local buffer of an edge, with its position.
pub open spec fn local_buffer_of(
    buffers: Seq<VulkanPlacedLocalEdgeBufferAllocationView>,
    edge_index: usize,
) -> Option<(usize, VulkanPlacedLocalEdgeBufferAllocationView)> {
    match sequence::first_position(buffers, of_local_edge(edge_index)) {
        Some(i) => Some((i as usize, buffers[i])),
        None => None,
    }
}

/// The first endpoint buffer of an edge, with its position.
pub open spec fn endpoint_buffer_of(
    buffers: Seq<VulkanPlacedEdgeBufferAllocationView>,
    edge_index: usize,
) -> Option<(usize, VulkanPlacedEdgeBufferAllocationView)> {
    match sequence::first_position(buffers, of_edge(edge_index)) {
        Some(i) => Some((i as usize, buffers[i])),
        None => None,
    }
}

/// The first endpoint buffer of an edge.
pub open spec fn endpoint_allocation_of(
    buffers: Seq<VulkanPlacedEdgeBufferAllocationView>,
    edge_index: usize,
) -> Option<VulkanPlacedEdgeBufferAllocationView> {
    sequence::find_first(buffers, of_edge(edge_index))
}

#[verifier::loop_isolation(false)]
fn find_endpoint_buffer<'a>(
    buffers: &'a Vec<VulkanPlacedEdgeBufferAllocation>,
    edge_index: usize,
) -> (r: Option<(usize, &'a VulkanPlacedEdgeBufferAllocation)>)
    ensures
        r.deep_view() == endpoint_buffer_of(buffers.deep_view(), edge_index),
        (match r {
            Some((i, buffer)) => Some(buffer@),
            None => None,
        }) == endpoint_allocation_of(buffers.deep_view(), edge_index),
{
    let ghost all = buffers.deep_view();
    let ghost p = of_edge(edge_index);
    let mut i: usize = 0;
    while i < buffers.len()
        invariant
            i <= buffers.len(),
            forall|j: int| 0 <= j < i ==> !p(#[trigger] all[j]),
        decreases buffers.len() - i,
    {
        assert(all[i as int] == buffers@[i as int]@);
        if buffers[i].endpoint.edge_index == edge_index {
            proof {
                sequence::lemma_find_first_at(all, p, i as int);
            }
            return Some((i, &buffers[i]));
        }
        i += 1;
    }
    proof {
        sequence::lemma_find_first_none(all, p);
    }
    None
}

impl VulkanPlacedEdgeIoBuffers {
    /// The buffer of a local edge, with its position.
    #[verifier::loop_isolation(false)]
    pub fn local_buffer(&self, edge_index: usize) -> (r: Option<
        (usize, &VulkanPlacedLocalEdgeBufferAllocation),
    >)
        ensures
            r.deep_view() == local_buffer_of(self@.local_buffers, edge_index),
            (match r {
                Some((i, buffer)) => Some(buffer@),
                None => None,
            }) == sequence::find_first(self@.local_buffers, of_local_edge(edge_index)),
            r is Some ==> r->Some_0.0 < self.local_buffers@.len(),
    {
        let ghost all = self.local_buffers.deep_view();
        let ghost p = of_local_edge(edge_index);
        let mut i: usize = 0;
        while i < self.local_buffers.len()
            invariant
                i <= self.local_buffers.len(),
                forall|j: int| 0 <= j < i ==> !p(#[trigger] all[j]),
            decreases self.local_buffers.len() - i,
        {
            assert(all[i as int] == self.local_buffers@[i as int]@);
            if self.local_buffers[i].edge.edge_index == edge_index {
                proof {
                    sequence::lemma_find_first_at(all, p, i as int);
                }
                return Some((i, &self.local_buffers[i]));
            }
            i += 1;
        }
        proof {
            sequence::lemma_find_first_none(all, p);
        }
        None
    }

    /// The buffer of a local edge.
    pub fn local_edge_buffer(&self, edge_index: usize) -> (r: Option<
        &VulkanPlacedLocalEdgeBufferAllocation,
    >)
        ensures
            r.deep_view() == sequence::find_first(self@.local_buffers, of_local_edge(edge_index)),
    {
        match self.local_buffer(edge_index) {
            Some((_, buffer)) => Some(buffer),
            None => None,
        }
    }

    /// The buffer of an edge in a direction, with its position.
    pub fn buffer(&self, direction: VulkanPlacedEdgeDirection, edge_index: usize) -> (r: Option<
        (usize, &VulkanPlacedEdgeBufferAllocation),
    >)
        ensures
            r.deep_view() == (match direction {
                VulkanPlacedEdgeDirection::Incoming => endpoint_buffer_of(
                    self@.incoming_buffers,
                    edge_index,
                ),
                VulkanPlacedEdgeDirection::Outgoing => endpoint_buffer_of(
                    self@.outgoing_buffers,
                    edge_index,
                ),
            }),
    {
        match direction {
            VulkanPlacedEdgeDirection::Incoming => find_endpoint_buffer(
                &self.incoming_buffers,
                edge_index,
            ),
            VulkanPlacedEdgeDirection::Outgoing => find_endpoint_buffer(
                &self.outgoing_buffers,
                edge_index,
            ),
        }
    }

    /// The buffer of an incoming edge.
    pub fn incoming_buffer(&self, edge_index: usize) -> (r: Option<
        &VulkanPlacedEdgeBufferAllocation,
    >)
        ensures
            r.deep_view() == endpoint_allocation_of(self@.incoming_buffers, edge_index),
    {
        match find_endpoint_buffer(&self.incoming_buffers, edge_index) {
            Some((_, buffer)) => Some(buffer),
            None => None,
        }
    }

    /// The buffer of an outgoing edge.
    pub fn outgoing_buffer(&self, edge_index: usize) -> (r: Option<
        &VulkanPlacedEdgeBufferAllocation,
    >)
        ensures
            r.deep_view() == endpoint_allocation_of(self@.outgoing_buffers, edge_index),
    {
        match find_endpoint_buffer(&self.outgoing_buffers, edge_index) {
            Some((_, buffer)) => Some(buffer),
            None => None,
        }
    }
}

/// What a packet is found by.
#[derive(Debug, PartialEq, Eq)]
pub struct VulkanPlacedEdgePacketKey {
    pub edge_index: usize,
    pub from_device_id: String,
    pub to_device_id: String,
}

#[verifier::ext_equal]
pub struct VulkanPlacedEdgePacketKeyView {
    pub edge_index: usize,
    pub from_device_id: Seq<char>,
    pub to_device_id: Seq<char>,
}

impl DeepView for VulkanPlacedEdgePacketKey {
    type V = VulkanPlacedEdgePacketKeyView;

    open spec fn deep_view(&self) -> VulkanPlacedEdgePacketKeyView {
        VulkanPlacedEdgePacketKeyView {
            edge_index: self.edge_index,
            from_device_id: self.from_device_id.deep_view(),
            to_device_id: self.to_device_id.deep_view(),
        }
    }
}

impl View for VulkanPlacedEdgePacketKey {
    type V = VulkanPlacedEdgePacketKeyView;

    open spec fn view(&self) -> VulkanPlacedEdgePacketKeyView {
        self.deep_view()
    }
}

impl Clone for VulkanPlacedEdgePacketKey {
    fn clone(&self) -> (r: Self)
        ensures
            r@ == self@,
    {
        VulkanPlacedEdgePacketKey {
            edge_index: self.edge_index,
            from_device_id: self.from_device_id.clone(),
            to_device_id: self.to_device_id.clone(),
        }
    }
}

/// The key of what an outgoing endpoint sends.
pub open spec fn outgoing_key(endpoint: VulkanPlacedEdgeEndpointView) -> VulkanPlacedEdgePacketKeyView {
    VulkanPlacedEdgePacketKeyView {
        edge_index: endpoint.edge_index,
        from_device_id: endpoint.local_device_id,
        to_device_id: endpoint.remote_device_id,
    }
}

/// The key of what an incoming endpoint takes.
pub open spec fn incoming_key(endpoint: VulkanPlacedEdgeEndpointView) -> VulkanPlacedEdgePacketKeyView {
    VulkanPlacedEdgePacketKeyView {
        edge_index: endpoint.edge_index,
        from_device_id: endpoint.remote_device_id,
        to_device_id: endpoint.local_device_id,
    }
}

impl VulkanPlacedEdgePacketKey {
    /// The key of what an outgoing endpoint sends.
    pub fn from_outgoing_endpoint(endpoint: &VulkanPlacedEdgeEndpoint) -> (r: Self)
        ensures
            r@ == outgoing_key(endpoint@),
    {
        VulkanPlacedEdgePacketKey {
            edge_index: endpoint.edge_index,
            from_device_id: endpoint.local_device_id.clone(),
            to_device_id: endpoint.remote_device_id.clone(),
        }
    }

    /// The key of what an incoming endpoint takes.
    pub fn from_incoming_endpoint(endpoint: &VulkanPlacedEdgeEndpoint) -> (r: Self)
        ensures
            r@ == incoming_key(endpoint@),
    {
        VulkanPlacedEdgePacketKey {
            edge_index: endpoint.edge_index,
            from_device_id: endpoint.remote_device_id.clone(),
            to_device_id: endpoint.local_device_id.clone(),
        }
    }
}

impl SortKey for VulkanPlacedEdgePacketKey {
    open spec fn before(
        a: VulkanPlacedEdgePacketKeyView,
        b: VulkanPlacedEdgePacketKeyView,
    ) -> bool {
        a.edge_index < b.edge_index || (a.edge_index == b.edge_index && (text::text_before(
            a.from_device_id,
            b.from_device_id,
        ) || (a.from_device_id == b.from_device_id && text::text_before(
            a.to_device_id,
            b.to_device_id,
        ))))
    }

    proof fn irreflexive(a: VulkanPlacedEdgePacketKeyView) {
        text::lemma_text_before_irreflexive(a.from_device_id);
        text::lemma_text_before_irreflexive(a.to_device_id);
    }

    proof fn transitive(
        a: VulkanPlacedEdgePacketKeyView,
        b: VulkanPlacedEdgePacketKeyView,
        c: VulkanPlacedEdgePacketKeyView,
    ) {
        if text::text_before(a.from_device_id, b.from_device_id) && text::text_before(
            b.from_device_id,
            c.from_device_id,
        ) {
            text::lemma_text_before_transitive(
                a.from_device_id,
                b.from_device_id,
                c.from_device_id,
            );
        }
        if text::text_before(a.to_device_id, b.to_device_id) && text::text_before(
            b.to_device_id,
            c.to_device_id,
        ) {
            text::lemma_text_before_transitive(a.to_device_id, b.to_device_id, c.to_device_id);
        }
    }

    proof fn total(a: VulkanPlacedEdgePacketKeyView, b: VulkanPlacedEdgePacketKeyView) {
        text::lemma_text_before_total(a.from_device_id, b.from_device_id);
        text::lemma_text_before_total(a.to_device_id, b.to_device_id);
        assert(a.edge_index == b.edge_index && a.from_device_id == b.from_device_id
            && a.to_device_id == b.to_device_id ==> a =~= b);
    }

    fn is_before(&self, other: &Self) -> (r: bool) {
        if self.edge_index != other.edge_index {
            return self.edge_index < other.edge_index;
        }
        if text::is_before(self.from_device_id.as_str(), other.from_device_id.as_str()) {
            return true;
        }
        self.from_device_id == other.from_device_id && text::is_before(
            self.to_device_id.as_str(),
            other.to_device_id.as_str(),
        )
    }

    fn is_same(&self, other: &Self) -> (r: bool) {
        self.edge_index == other.edge_index && self.from_device_id == other.from_device_id
            && self.to_device_id == other.to_device_id
    }
}

/// A signal on its way between two devices.
#[derive(Debug, PartialEq, Eq)]
pub struct VulkanPlacedEdgePacket {
    pub key: VulkanPlacedEdgePacketKey,
    pub signal: String,
    pub source_component_id: String,
    pub destination_component_id: String,
    pub byte_count: usize,
    pub bytes: Vec<u8>,
}

#[verifier::ext_equal]
pub struct VulkanPlacedEdgePacketView {
    pub key: VulkanPlacedEdgePacketKeyView,
    pub signal: Seq<char>,
    pub source_component_id: Seq<char>,
    pub destination_component_id: Seq<char>,
    pub byte_count: usize,
    pub bytes: Seq<u8>,
}

impl DeepView for VulkanPlacedEdgePacket {
    type V = VulkanPlacedEdgePacketView;

    open spec fn deep_view(&self) -> VulkanPlacedEdgePacketView {
        VulkanPlacedEdgePacketView {
            key: self.key.deep_view(),
            signal: self.signal.deep_view(),
            source_component_id: self.source_component_id.deep_view(),
            destination_component_id: self.destination_component_id.deep_view(),
            byte_count: self.byte_count,
            bytes: self.bytes.deep_view(),
        }
    }
}

impl View for VulkanPlacedEdgePacket {
    type V = VulkanPlacedEdgePacketView;

    open spec fn view(&self) -> VulkanPlacedEdgePacketView {
        self.deep_view()
    }
}

impl Clone for VulkanPlacedEdgePacket {
    fn clone(&self) -> (r: Self)
        ensures
            r@ == self@,
    {
        VulkanPlacedEdgePacket {
            key: self.key.clone(),
            signal: self.signal.clone(),
            source_component_id: self.source_component_id.clone(),
            destination_component_id: self.destination_component_id.clone(),
            byte_count: self.byte_count,
            bytes: self.bytes.clone(),
        }
    }
}

/// What was sent or taken.
#[derive(Debug, PartialEq, Eq)]
pub struct VulkanPlacedEdgeTransportReceipt {
    pub key: VulkanPlacedEdgePacketKey,
    pub signal: String,
    pub byte_count: usize,
}

#[verifier::ext_equal]
pub struct VulkanPlacedEdgeTransportReceiptView {
    pub key: VulkanPlacedEdgePacketKeyView,
    pub signal: Seq<char>,
    pub byte_count: usize,
}

impl DeepView for VulkanPlacedEdgeTransportReceipt {
    type V = VulkanPlacedEdgeTransportReceiptView;

    open spec fn deep_view(&self) -> VulkanPlacedEdgeTransportReceiptView {
        VulkanPlacedEdgeTransportReceiptView {
            key: self.key.deep_view(),
            signal: self.signal.deep_view(),
            byte_count: self.byte_count,
        }
    }
}

impl View for VulkanPlacedEdgeTransportReceipt {
    type V = VulkanPlacedEdgeTransportReceiptView;

    open spec fn view(&self) -> VulkanPlacedEdgeTransportReceiptView {
        self.deep_view()
    }
}

impl Clone for VulkanPlacedEdgeTransportReceipt {
    fn clone(&self) -> (r: Self)
        ensures
            r@ == self@,
    {
        VulkanPlacedEdgeTransportReceipt {
            key: self.key.clone(),
            signal: self.signal.clone(),
            byte_count: self.byte_count,
        }
    }
}

/// What was taken, and what was not there.
#[derive(Debug, PartialEq, Eq)]
pub struct VulkanPlacedEdgeTransportReceiveBatch {
    pub received: Vec<VulkanPlacedEdgeTransportReceipt>,
    pub missing_packets: Vec<VulkanPlacedEdgePacketKey>,
}

#[verifier::ext_equal]
pub struct VulkanPlacedEdgeTransportReceiveBatchView {
    pub received: Seq<VulkanPlacedEdgeTransportReceiptView>,
    pub missing_packets: Seq<VulkanPlacedEdgePacketKeyView>,
}

impl DeepView for VulkanPlacedEdgeTransportReceiveBatch {
    type V = VulkanPlacedEdgeTransportReceiveBatchView;

    open spec fn deep_view(&self) -> VulkanPlacedEdgeTransportReceiveBatchView {
        VulkanPlacedEdgeTransportReceiveBatchView {
            received: self.received.deep_view(),
            missing_packets: self.missing_packets.deep_view(),
        }
    }
}

impl View for VulkanPlacedEdgeTransportReceiveBatch {
    type V = VulkanPlacedEdgeTransportReceiveBatchView;

    open spec fn view(&self) -> VulkanPlacedEdgeTransportReceiveBatchView {
        self.deep_view()
    }
}

impl Clone for VulkanPlacedEdgeTransportReceiveBatch {
    fn clone(&self) -> (r: Self)
        ensures
            r@ == self@,
    {
        VulkanPlacedEdgeTransportReceiveBatch {
            received: self.received.clone(),
            missing_packets: self.missing_packets.clone(),
        }
    }
}

/// How much was sent and taken.
#[derive(Debug, PartialEq, Eq)]
pub struct VulkanPlacedEdgeTransportStats {
    pub pending_packet_count: usize,
    pub pending_byte_count: usize,
    pub pending_direct_edge_count: usize,
    pub pending_direct_byte_count: usize,
    pub published_packet_count: usize,
    pub published_byte_count: usize,
    pub received_packet_count: usize,
    pub received_byte_count: usize,
    pub direct_copy_count: usize,
    pub direct_copy_byte_count: usize,
    pub direct_receive_count: usize,
    pub direct_receive_byte_count: usize,
}

#[verifier::ext_equal]
pub struct VulkanPlacedEdgeTransportStatsView {
    pub pending_packet_count: usize,
    pub pending_byte_count: usize,
    pub pending_direct_edge_count: usize,
    pub pending_direct_byte_count: usize,
    pub published_packet_count: usize,
    pub published_byte_count: usize,
    pub received_packet_count: usize,
    pub received_byte_count: usize,
    pub direct_copy_count: usize,
    pub direct_copy_byte_count: usize,
    pub direct_receive_count: usize,
    pub direct_receive_byte_count: usize,
}

impl DeepView for VulkanPlacedEdgeTransportStats {
    type V = VulkanPlacedEdgeTransportStatsView;

    open spec fn deep_view(&self) -> VulkanPlacedEdgeTransportStatsView {
        VulkanPlacedEdgeTransportStatsView {
            pending_packet_count: self.pending_packet_count,
            pending_byte_count: self.pending_byte_count,
            pending_direct_edge_count: self.pending_direct_edge_count,
            pending_direct_byte_count: self.pending_direct_byte_count,
            published_packet_count: self.published_packet_count,
            published_byte_count: self.published_byte_count,
            received_packet_count: self.received_packet_count,
            received_byte_count: self.received_byte_count,
            direct_copy_count: self.direct_copy_count,
            direct_copy_byte_count: self.direct_copy_byte_count,
            direct_receive_count: self.direct_receive_count,
            direct_receive_byte_count: self.direct_receive_byte_count,
        }
    }
}

impl View for VulkanPlacedEdgeTransportStats {
    type V = VulkanPlacedEdgeTransportStatsView;

    open spec fn view(&self) -> VulkanPlacedEdgeTransportStatsView {
        self.deep_view()
    }
}

impl Clone for VulkanPlacedEdgeTransportStats {
    fn clone(&self) -> (r: Self)
        ensures
            r@ == self@,
    {
        VulkanPlacedEdgeTransportStats {
            pending_packet_count: self.pending_packet_count,
            pending_byte_count: self.pending_byte_count,
            pending_direct_edge_count: self.pending_direct_edge_count,
            pending_direct_byte_count: self.pending_direct_byte_count,
            published_packet_count: self.published_packet_count,
            published_byte_count: self.published_byte_count,
            received_packet_count: self.received_packet_count,
            received_byte_count: self.received_byte_count,
            direct_copy_count: self.direct_copy_count,
            direct_copy_byte_count: self.direct_copy_byte_count,
            direct_receive_count: self.direct_receive_count,
            direct_receive_byte_count: self.direct_receive_byte_count,
        }
    }
}

/// The sum, or the largest number where it does not fit.
pub open spec fn saturated(a: usize, b: usize) -> usize {
    if a + b > usize::MAX {
        usize::MAX
    } else {
        (a + b) as usize
    }
}

impl VulkanPlacedEdgeTransportStats {
    /// Adds the counts of a tick. What is pending is what the tick left pending.
    pub fn accumulate(&mut self, tick: &Self)
        ensures
            final(self)@ == (VulkanPlacedEdgeTransportStatsView {
                pending_packet_count: tick@.pending_packet_count,
                pending_byte_count: tick@.pending_byte_count,
                pending_direct_edge_count: tick@.pending_direct_edge_count,
                pending_direct_byte_count: tick@.pending_direct_byte_count,
                published_packet_count: saturated(
                    old(self)@.published_packet_count,
                    tick@.published_packet_count,
                ),
                published_byte_count: saturated(
                    old(self)@.published_byte_count,
                    tick@.published_byte_count,
                ),
                received_packet_count: saturated(
                    old(self)@.received_packet_count,
                    tick@.received_packet_count,
                ),
                received_byte_count: saturated(
                    old(self)@.received_byte_count,
                    tick@.received_byte_count,
                ),
                direct_copy_count: saturated(
                    old(self)@.direct_copy_count,
                    tick@.direct_copy_count,
                ),
                direct_copy_byte_count: saturated(
                    old(self)@.direct_copy_byte_count,
                    tick@.direct_copy_byte_count,
                ),
                direct_receive_count: saturated(
                    old(self)@.direct_receive_count,
                    tick@.direct_receive_count,
                ),
                direct_receive_byte_count: saturated(
                    old(self)@.direct_receive_byte_count,
                    tick@.direct_receive_byte_count,
                ),
            }),
    {
        self.pending_packet_count = tick.pending_packet_count;
        self.pending_byte_count = tick.pending_byte_count;
        self.pending_direct_edge_count = tick.pending_direct_edge_count;
        self.pending_direct_byte_count = tick.pending_direct_byte_count;
        self.published_packet_count = self.published_packet_count.saturating_add(
            tick.published_packet_count,
        );
        self.published_byte_count = self.published_byte_count.saturating_add(
            tick.published_byte_count,
        );
        self.received_packet_count = self.received_packet_count.saturating_add(
            tick.received_packet_count,
        );
        self.received_byte_count = self.received_byte_count.saturating_add(
            tick.received_byte_count,
        );
        self.direct_copy_count = self.direct_copy_count.saturating_add(tick.direct_copy_count);
        self.direct_copy_byte_count = self.direct_copy_byte_count.saturating_add(
            tick.direct_copy_byte_count,
        );
        self.direct_receive_count = self.direct_receive_count.saturating_add(
            tick.direct_receive_count,
        );
        self.direct_receive_byte_count = self.direct_receive_byte_count.saturating_add(
            tick.direct_receive_byte_count,
        );
    }
}

/// A buffer that is found for an edge is the first that belongs to it, and stands at the position
/// that is given with it. Where none is found, none belongs to the edge.
pub proof fn buffers_are_found_by_their_edge(
    local: Seq<VulkanPlacedLocalEdgeBufferAllocationView>,
    ends: Seq<VulkanPlacedEdgeBufferAllocationView>,
    edge_index: usize,
    j: int,
)
    requires
        local.len() <= usize::MAX,
        ends.len() <= usize::MAX,
    ensures
        match local_buffer_of(local, edge_index) {
            Some((i, buffer)) => {
                &&& i < local.len()
                &&& buffer == local[i as int]
                &&& buffer.edge.edge_index == edge_index
                &&& 0 <= j < i ==> local[j].edge.edge_index != edge_index
            },
            None => 0 <= j < local.len() ==> local[j].edge.edge_index != edge_index,
        },
        match endpoint_buffer_of(ends, edge_index) {
            Some((i, buffer)) => {
                &&& i < ends.len()
                &&& buffer == ends[i as int]
                &&& buffer.endpoint.edge_index == edge_index
                &&& 0 <= j < i ==> ends[j].endpoint.edge_index != edge_index
                &&& endpoint_allocation_of(ends, edge_index) == Some(buffer)
            },
            None => {
                &&& 0 <= j < ends.len() ==> ends[j].endpoint.edge_index != edge_index
                &&& endpoint_allocation_of(ends, edge_index) is None
            },
        },
{
    sequence::lemma_first_position_is_first(local, of_local_edge(edge_index));
    sequence::lemma_first_position_is_first(ends, of_edge(edge_index));
    sequence::lemma_first_position(local, of_local_edge(edge_index));
    sequence::lemma_first_position(ends, of_edge(edge_index));
    if endpoint_allocation_of(ends, edge_index) is Some {
        sequence::lemma_find_first_some(ends, of_edge(edge_index));
    } else {
        sequence::lemma_find_none_all(ends, of_edge(edge_index));
    }
    if 0 <= j < local.len() && local_buffer_of(local, edge_index) is None {
        assert(!of_local_edge(edge_index)(local[j]));
    }
    if 0 <= j < ends.len() && endpoint_buffer_of(ends, edge_index) is None {
        assert(!of_edge(edge_index)(ends[j]));
    }
}

/// What an end sends and another takes is one packet exactly where they are the two ends of one edge:
/// the sender's device is the one that the taker hears from, and the other way round.
pub proof fn both_ends_name_the_same_packet(
    outgoing: VulkanPlacedEdgeEndpointView,
    incoming: VulkanPlacedEdgeEndpointView,
)
    ensures
        outgoing_key(outgoing).from_device_id == outgoing.local_device_id,
        incoming_key(incoming).to_device_id == incoming.local_device_id,
        outgoing_key(outgoing) == incoming_key(incoming) <==> {
            &&& outgoing.edge_index == incoming.edge_index
            &&& outgoing.local_device_id == incoming.remote_device_id
            &&& outgoing.remote_device_id == incoming.local_device_id
        },
{
}

} // verus!
