use nerve_runtime::device::VulkanComputeDevice;
use nerve_runtime::device::VulkanError;
use nerve_runtime::device::VulkanHostAllocationId;
use nerve_runtime::device::VulkanResidentBuffer;
use nerve_runtime::device::VulkanResidentBufferName;
use nerve_runtime::cables::buffers::VulkanPlacedCableDirection;
use nerve_runtime::cables::buffers::VulkanPlacedCableEndpointBufferOverride;
use nerve_runtime::cables::buffers::VulkanPlacedCableIoBuffers;
use nerve_runtime::cables::buffers::VulkanPlacedCablePacketKey;
use nerve_runtime::cables::plan::VulkanPlacedCableIoPlan;
use nerve_runtime::cables::transport::VulkanInProcessPlacedCableTransport;
use nerve_runtime::cables::transport::VulkanPlacedCablePublication;
use nerve_runtime::cables::transport::VulkanPlacedCableTransportError;
use nerve_runtime::placement::ComponentEdgePlacement;
use nerve_runtime::placement::EdgeTransport;
use nerve_runtime::resident_plan::VulkanPlacedStreamCircuitResidentPlan;
use nerve_runtime::resident_plan::VulkanStreamCircuitResidentPlan;

fn device(id: &str) -> VulkanComputeDevice {
    VulkanComputeDevice {
        device_id: id.to_string(),
        device_name: id.to_string(),
        supports_opaque_fd_timeline_semaphores: true,
    }
}

fn edge(index: usize, from: &str, to: &str, shape: &[usize]) -> ComponentEdgePlacement {
    ComponentEdgePlacement {
        edge_index: index,
        signal: format!("signal{index}"),
        shape: shape.to_vec(),
        source_device_id: from.to_string(),
        source_component_id: "producer".to_string(),
        source_port_id: "out".to_string(),
        source_component_port: None,
        destination_device_id: to.to_string(),
        destination_component_id: "consumer".to_string(),
        destination_port_id: "in".to_string(),
        destination_component_port: None,
        transport: if from == to {
            EdgeTransport::LocalBuffer {
                device_id: from.to_string(),
            }
        } else {
            EdgeTransport::CrossDevice {
                from_device_id: from.to_string(),
                to_device_id: to.to_string(),
            }
        },
    }
}

fn placed(id: &str, edges: &[ComponentEdgePlacement]) -> VulkanPlacedStreamCircuitResidentPlan {
    let pick = |local: bool, incoming: bool| {
        edges
            .iter()
            .filter(|edge| {
                let here = edge.source_device_id == id;
                let there = edge.destination_device_id == id;
                if local {
                    here && there
                } else if incoming {
                    !here && there
                } else {
                    here && !there
                }
            })
            .cloned()
            .collect::<Vec<_>>()
    };
    VulkanPlacedStreamCircuitResidentPlan {
        device_id: id.to_string(),
        signal_element_bytes: Some(2),
        hosted_component_ids: vec![],
        resident_plan: VulkanStreamCircuitResidentPlan {
            circuit_count: 0,
            permanent_parameters: vec![],
            stream_state_buffers: vec![],
            activation_banks: vec![],
        },
        local_edges: pick(true, false),
        incoming_edges: pick(false, true),
        outgoing_edges: pick(false, false),
    }
}

fn io(id: &str) -> VulkanPlacedCableIoBuffers {
    let cables = [edge(0, "gpu0", "gpu0", &[4]), edge(1, "gpu0", "gpu1", &[3, 2])];
    VulkanPlacedCableIoPlan::from_placed_resident_plan(&placed(id, &cables))
        .unwrap()
        .allocate_buffers(&device(id))
        .unwrap()
}

fn key() -> VulkanPlacedCablePacketKey {
    VulkanPlacedCablePacketKey {
        cable_index: 1,
        from_device_id: "gpu0".to_string(),
        to_device_id: "gpu1".to_string(),
    }
}

#[test]
fn cables_are_planned_with_their_sizes() {
    let plan = io("gpu0").plan;
    assert_eq!(plan.device_id, "gpu0");
    assert_eq!(plan.local_cable_count, 1);
    assert_eq!(plan.local_cables[0].element_count, 4);
    assert_eq!(plan.local_cables[0].byte_capacity, Some(8));
    assert_eq!(plan.outgoing_endpoint_count, 1);
    assert_eq!(plan.incoming_endpoint_count, 0);
    assert_eq!(plan.total_byte_capacity, Some(20));
    assert!(plan.unresolved_byte_cables.is_empty());
    let endpoint = plan
        .endpoint(VulkanPlacedCableDirection::Outgoing, 1)
        .unwrap();
    assert_eq!(endpoint.byte_capacity, Some(12));
    assert_eq!(endpoint.remote_device_id, "gpu1");
    assert!(plan
        .endpoint(VulkanPlacedCableDirection::Incoming, 1)
        .is_none());
}

#[test]
fn cables_of_unknown_size_are_not_allocated() {
    let mut unsized_plan = placed("gpu0", &[edge(1, "gpu0", "gpu1", &[3])]);
    unsized_plan.signal_element_bytes = None;
    let plan = VulkanPlacedCableIoPlan::from_placed_resident_plan(&unsized_plan).unwrap();
    assert_eq!(plan.total_byte_capacity, None);
    assert_eq!(plan.unresolved_byte_cables, vec![1]);
    assert!(plan.allocate_buffers(&device("gpu0")).is_err());
    let vast = placed("gpu0", &[edge(1, "gpu0", "gpu1", &[usize::MAX, 2])]);
    assert!(VulkanPlacedCableIoPlan::from_placed_resident_plan(&vast).is_err());
}

#[test]
fn published_bytes_reach_the_other_device_by_cable() {
    let (from, to) = (io("gpu0"), io("gpu1"));
    let mut transport = VulkanInProcessPlacedCableTransport::new();
    assert_eq!(
        transport.outgoing_cable_publication("gpu0", &from, 1).unwrap(),
        VulkanPlacedCablePublication::Read { byte_count: 12 }
    );
    let bytes: Vec<u8> = (0..12).collect();
    let receipt = transport
        .publish_outgoing_cable("gpu0", &from, 1, &Ok(bytes.clone()))
        .unwrap();
    assert_eq!(receipt.key, key());
    assert_eq!(receipt.byte_count, 12);
    assert!(transport.contains_packet(&key()));
    assert_eq!(transport.packet_count(), 1);
    assert_eq!(transport.incoming_cable_bytes(&to, 1), Some(&bytes));
    let receipt = transport
        .receive_incoming_cable("gpu1", &to, 1, &Ok(()))
        .unwrap();
    assert_eq!(receipt.byte_count, 12);
    assert_eq!(transport.packet_count(), 0);
    let stats = transport.stats();
    assert_eq!(stats.published_packet_count, 1);
    assert_eq!(stats.published_byte_count, 12);
    assert_eq!(stats.received_packet_count, 1);
    assert_eq!(stats.received_byte_count, 12);
    assert_eq!(stats.pending_byte_count, 0);
}

#[test]
fn transports_refuse_what_is_not_there_by_cable() {
    let (from, to) = (io("gpu0"), io("gpu1"));
    let mut transport = VulkanInProcessPlacedCableTransport::new();
    assert_eq!(
        transport
            .publish_outgoing_cable("gpu0", &from, 7, &Ok(vec![]))
            .unwrap_err(),
        VulkanPlacedCableTransportError::MissingOutgoingCable {
            device_id: "gpu0".to_string(),
            cable_index: 7
        }
    );
    assert_eq!(
        transport
            .receive_incoming_cable("gpu1", &to, 7, &Ok(()))
            .unwrap_err(),
        VulkanPlacedCableTransportError::MissingIncomingCable {
            device_id: "gpu1".to_string(),
            cable_index: 7
        }
    );
    assert_eq!(
        transport
            .receive_incoming_cable("gpu1", &to, 1, &Ok(()))
            .unwrap_err(),
        VulkanPlacedCableTransportError::MissingPacket { key: key() }
    );
    let lost = VulkanError("lost".to_string());
    assert!(matches!(
        transport
            .publish_outgoing_cable("gpu0", &from, 1, &Err(lost))
            .unwrap_err(),
        VulkanPlacedCableTransportError::Vulkan { .. }
    ));
    let batch = transport
        .receive_available_incoming_cables("gpu1", &to, &vec![Ok(())])
        .unwrap();
    assert!(batch.received.is_empty());
    assert_eq!(batch.missing_packets, vec![key()]);
}

#[test]
fn counts_that_are_full_stop_only_what_is_counted_by_cable() {
    let (from, to) = (io("gpu0"), io("gpu1"));
    let mut transport = VulkanInProcessPlacedCableTransport::new();
    let lost = || VulkanError("lost".to_string());
    transport.published_packet_count = usize::MAX;
    assert!(!transport.can_publish(&from, 1, &Ok(vec![0; 12])));
    assert!(transport.can_publish(&from, 1, &Err(lost())));
    assert!(transport
        .publish_outgoing_cable("gpu0", &from, 1, &Err(lost()))
        .is_err());
    transport.published_packet_count = 0;
    transport
        .publish_outgoing_cable("gpu0", &from, 1, &Ok(vec![0; 12]))
        .unwrap();
    transport.received_byte_count = usize::MAX - 11;
    assert!(!transport.can_receive(&to, 1, &Ok(())));
    assert!(transport.can_receive(&to, 1, &Err(lost())));
    assert!(transport
        .receive_incoming_cable("gpu1", &to, 1, &Err(lost()))
        .is_err());
    assert!(transport.can_receive(&to, 1, &Ok(())));
}

#[test]
fn direct_copies_are_received_once_by_cable() {
    let (from, to) = (io("gpu0"), io("gpu1"));
    let mut transport = VulkanInProcessPlacedCableTransport::new();
    let outgoing = from.outgoing_buffer(1).unwrap();
    let incoming = to.incoming_buffer(1).unwrap();
    transport
        .register_direct_cable_copy(outgoing, incoming, false, &Ok(()))
        .unwrap();
    assert_eq!(transport.direct_cable_binding_count(), 1);
    assert!(!transport.cable_uses_shared_allocation(&key()));
    transport
        .publish_outgoing_cable("gpu0", &from, 1, &Ok(vec![]))
        .unwrap();
    assert!(transport.contains_ready_direct_cable(&key()));
    assert_eq!(transport.packet_count(), 0);
    transport
        .receive_incoming_cable("gpu1", &to, 1, &Ok(()))
        .unwrap();
    assert!(!transport.contains_ready_direct_cable(&key()));
    assert_eq!(transport.stats().direct_receive_count, 1);
    assert!(transport
        .receive_incoming_cable("gpu1", &to, 1, &Ok(()))
        .is_err());
    transport.reset_tick_state();
    assert_eq!(transport.stats().direct_receive_count, 0);
    assert_eq!(transport.direct_cable_binding_count(), 1);
}

#[test]
fn mismatched_endpoints_are_not_joined_by_cable() {
    let (from, to) = (io("gpu0"), io("gpu1"));
    let mut transport = VulkanInProcessPlacedCableTransport::new();
    let outgoing = from.outgoing_buffer(1).unwrap();
    let mut other = to.incoming_buffer(1).unwrap().clone();
    other.endpoint.cable_index = 2;
    assert!(matches!(
        transport
            .register_direct_cable_copy(outgoing, &other, false, &Ok(()))
            .unwrap_err(),
        VulkanPlacedCableTransportError::EndpointMismatch { .. }
    ));
    let mut small = to.incoming_buffer(1).unwrap().clone();
    small.byte_capacity = 4;
    assert_eq!(
        transport
            .register_direct_cable_copy(outgoing, &small, false, &Ok(()))
            .unwrap_err(),
        VulkanPlacedCableTransportError::ByteCapacityMismatch {
            key: key(),
            packet_byte_count: 12,
            incoming_byte_capacity: 4
        }
    );
}

#[test]
fn endpoint_buffers_can_be_overridden_by_cable() {
    let cables = [edge(1, "gpu0", "gpu1", &[3, 2])];
    let plan = VulkanPlacedCableIoPlan::from_placed_resident_plan(&placed("gpu0", &cables)).unwrap();
    let shared = VulkanResidentBuffer::imported(
        VulkanResidentBufferName::OutgoingSignal(0),
        "gpu0",
        12,
        VulkanHostAllocationId::Host(5),
    );
    let overridden = plan
        .allocate_buffers_with_endpoint_overrides(
            &device("gpu0"),
            &[VulkanPlacedCableEndpointBufferOverride {
                direction: VulkanPlacedCableDirection::Outgoing,
                cable_index: 1,
                buffer: shared.clone(),
            }],
        )
        .unwrap();
    assert_eq!(overridden.outgoing_buffer(1).unwrap().buffer, shared);
    let unknown = plan.allocate_buffers_with_endpoint_overrides(
        &device("gpu0"),
        &[VulkanPlacedCableEndpointBufferOverride {
            direction: VulkanPlacedCableDirection::Incoming,
            cable_index: 1,
            buffer: shared,
        }],
    );
    assert!(unknown.is_err());
}
