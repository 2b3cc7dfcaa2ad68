use nerve_runtime::bound_dispatch::VulkanBoundDescriptorTarget;
use nerve_runtime::bound_dispatch::VulkanBoundDispatchPlan;
use nerve_runtime::bound_dispatch::VulkanBoundDispatchPlanError;
use nerve_runtime::circuit_binding::VulkanSignalResource;
use nerve_runtime::circuit_binding::VulkanStreamCircuitBindingPlan;
use nerve_runtime::circuit_binding::parse_state_source;
use nerve_runtime::circuit_binding::shared_state_source;
use nerve_runtime::circuit_mount::VulkanMountedPlacedResidentKernelDispatchStatus;
use nerve_runtime::circuit_mount::VulkanMountedPlacedStreamCircuit;
use nerve_runtime::circuit_mount::VulkanMountedStreamCircuit;
use nerve_runtime::circuit_mount::VulkanPlacedStreamCircuitPlan;
use nerve_runtime::descriptor_resources::VulkanDescriptorResourceAddress;
use nerve_runtime::descriptor_resources::VulkanDescriptorResourcePlan;
use nerve_runtime::device::VulkanComputeDevice;
use nerve_runtime::device::VulkanError;
use nerve_runtime::circuit_mount::initial_stream_control_bytes;
use nerve_runtime::device::VulkanHostAllocationId;
use nerve_runtime::device::VulkanResidentBuffer;
use nerve_runtime::device::VulkanResidentBufferName;
use nerve_runtime::dispatch_plan::VulkanPreparedDispatchPlan;
use nerve_runtime::dispatch_plan::VulkanPreparedDispatchPlanError;
use nerve_runtime::kernel_interface::VulkanKernelDescriptorUsage;
use nerve_runtime::kernel_interface::VulkanKernelDispatchPlan;
use nerve_runtime::kernel_interface::VulkanKernelScalarBinding;
use nerve_runtime::kernel_interface::VulkanKernelScalarSource;
use nerve_runtime::kernel_signature::VulkanKernelDescriptorResourceClass;
use nerve_runtime::kernel_signature::VulkanKernelDescriptorSlotSignature;
use nerve_runtime::kernel_signature::VulkanReusableKernelKey;
use nerve_runtime::resident_plan::VulkanActivationSlotBufferAllocation;
use nerve_runtime::resident_plan::VulkanModelBoundaryBufferAllocation;
use nerve_runtime::resident_plan::VulkanModelBoundaryBuffers;
use nerve_runtime::resident_plan::VulkanPermanentParameter;
use nerve_runtime::resident_plan::VulkanPermanentParameterBufferAllocation;
use nerve_runtime::resident_plan::VulkanPermanentParameterBuffers;
use nerve_runtime::resident_plan::VulkanPlacedStreamCircuitResidentPlan;
use nerve_runtime::resident_plan::VulkanResidentActivationBank;
use nerve_runtime::resident_plan::VulkanResidentActivationSlot;
use nerve_runtime::resident_plan::VulkanResidentParameter;
use nerve_runtime::resident_plan::VulkanResidentStateBuffer;
use nerve_runtime::resident_plan::VulkanStreamCircuitResidentPlan;
use nerve_runtime::resident_plan::VulkanStreamCircuitStreamBuffers;
use nerve_runtime::resident_plan::VulkanStreamStateBufferAllocation;
use nerve_runtime::resident_plan::VulkanTransientStateBufferLayout;
use nerve_runtime::reusable_kernels::VulkanLoadedReusableKernelArtifact;
use nerve_runtime::reusable_kernels::VulkanLoadedReusableKernelArtifactManifest;
use nerve_runtime::reusable_kernels::VulkanReusableKernelArtifact;
use nerve_runtime::reusable_kernels::VulkanReusableKernelArtifactManifest;
use nerve_runtime::reusable_kernels::VulkanReusableKernelPlan;
use nerve_runtime::stream_plan::CircuitActivationPlan;
use nerve_runtime::stream_plan::PlannedNode;
use nerve_runtime::stream_plan::PlannedParameterResource;
use nerve_runtime::stream_plan::PlannedParameterUse;
use nerve_runtime::stream_plan::PlannedSignal;
use nerve_runtime::stream_plan::PlannedStateAllocation;
use nerve_runtime::stream_plan::SignalProducer;
use nerve_runtime::stream_plan::SignalStorage;
use nerve_runtime::stream_plan::StreamCircuitExecutionPlan;
use nerve_runtime::stream_plan::StreamCircuitResourcePlan;

fn texts(items: &[&str]) -> Vec<String> {
    items.iter().map(|item| item.to_string()).collect()
}

fn signal(id: &str, storage: SignalStorage, node: Option<&str>, output: bool) -> PlannedSignal {
    PlannedSignal {
        id: id.to_string(),
        shape: Some(vec![3]),
        storage,
        producer: match node {
            Some(node) => SignalProducer::Node {
                node_id: node.to_string(),
            },
            None => SignalProducer::BoundaryInput,
        },
        is_boundary_output: output,
    }
}

fn circuit(component: &str) -> CircuitActivationPlan {
    CircuitActivationPlan {
        component_id: component.to_string(),
        circuit_id: "block".to_string(),
        input_ports: vec![],
        output_ports: vec![],
        nodes: vec![
            PlannedNode {
                index: 0,
                id: "project".to_string(),
                op: "linear".to_string(),
                specialization: "f16".to_string(),
                inputs: texts(&["x"]),
                outputs: texts(&["h"]),
                params: texts(&["w"]),
                state_reads: vec![],
                state_writes: vec![],
            },
            PlannedNode {
                index: 1,
                id: "remember".to_string(),
                op: "append_state_update".to_string(),
                specialization: String::new(),
                inputs: texts(&["h"]),
                outputs: texts(&["y"]),
                params: vec![],
                state_reads: vec![],
                state_writes: texts(&["kv"]),
            },
        ],
        signals: vec![
            signal("x", SignalStorage::Boundary, None, false),
            signal("h", SignalStorage::Activation, Some("project"), false),
            signal("y", SignalStorage::Boundary, Some("remember"), true),
        ],
    }
}

fn execution(components: &[&str]) -> StreamCircuitExecutionPlan {
    StreamCircuitExecutionPlan {
        circuits: components.iter().map(|id| circuit(id)).collect(),
    }
}

fn resources(components: &[&str]) -> StreamCircuitResourcePlan {
    StreamCircuitResourcePlan {
        circuit_count: components.len(),
        parameters: vec![PlannedParameterResource {
            tensor: "shared.weight".to_string(),
            uses: components
                .iter()
                .map(|id| PlannedParameterUse {
                    component_id: id.to_string(),
                    param_id: "w".to_string(),
                })
                .collect(),
        }],
        state_allocations: components
            .iter()
            .enumerate()
            .map(|(index, id)| PlannedStateAllocation {
                component_id: id.to_string(),
                state_id: "kv".to_string(),
                state_type: "kv_cache".to_string(),
                sharing: if index == 0 {
                    None
                } else {
                    Some(format!("shared_from:{}.kv", components[0]))
                },
                shape: None,
                elements_per_activation: Some(4),
                element_bytes: Some(2),
            })
            .collect(),
    }
}

fn resident(components: &[&str]) -> VulkanStreamCircuitResidentPlan {
    VulkanStreamCircuitResidentPlan {
        circuit_count: components.len(),
        permanent_parameters: vec![VulkanResidentParameter {
            tensor: "shared.weight".to_string(),
            byte_count: Some(24),
            shape: Some(vec![4, 3]),
        }],
        stream_state_buffers: vec![VulkanResidentStateBuffer {
            component_id: components[0].to_string(),
            state_id: "kv".to_string(),
            state_type: "kv_cache".to_string(),
            static_bytes: None,
            bytes_per_activation: Some(8),
        }],
        activation_banks: components
            .iter()
            .map(|id| VulkanResidentActivationBank {
                component_id: id.to_string(),
                circuit_id: "block".to_string(),
                slots: vec![VulkanResidentActivationSlot {
                    slot: 0,
                    bytes: Some(8),
                    max_elements: Some(4),
                    signal_ids: texts(&["h"]),
                }],
            })
            .collect(),
    }
}

fn layouts() -> Vec<VulkanTransientStateBufferLayout> {
    vec![VulkanTransientStateBufferLayout::Laid { byte_capacity: 64 }]
}

const BOTH: [&str; 2] = ["layer1", "layer2"];

fn bindings() -> VulkanStreamCircuitBindingPlan {
    VulkanStreamCircuitBindingPlan::from_plans(
        &execution(&BOTH),
        &resources(&BOTH),
        &resident(&BOTH),
    )
    .unwrap()
}

fn dispatches() -> VulkanKernelDispatchPlan {
    VulkanKernelDispatchPlan::from_binding_plan(&bindings())
}

fn artifact(key: &VulkanReusableKernelKey) -> VulkanReusableKernelArtifact {
    VulkanReusableKernelArtifact {
        family_id: key.family_id(),
        op: key.op.clone(),
        path: format!("{}.spv", key.op),
        entry_point: "main".to_string(),
        local_size_x: 64,
        workgroup_count_x: 1,
        descriptor_signature: key.descriptor_signature.clone(),
        push_constants: key.push_constants.clone(),
        uses_stream_tick: key.uses_stream_tick,
    }
}

fn key() -> VulkanReusableKernelKey {
    VulkanReusableKernelKey {
        op: "linear".to_string(),
        specialization: "say \"hi\"".to_string(),
        descriptor_signature: vec![
            VulkanKernelDescriptorSlotSignature {
                binding: 0,
                usage: VulkanKernelDescriptorUsage::InputSignal,
                resource_class: VulkanKernelDescriptorResourceClass::SignalBuffer,
                byte_capacity: None,
                shape: None,
            },
            VulkanKernelDescriptorSlotSignature {
                binding: 1,
                usage: VulkanKernelDescriptorUsage::Parameter,
                resource_class: VulkanKernelDescriptorResourceClass::ParameterBuffer,
                byte_capacity: Some(24),
                shape: Some(vec![4, 3]),
            },
        ],
        push_constants: vec![VulkanKernelScalarBinding {
            name: "expert_start".to_string(),
            scalar_type: "u32".to_string(),
            source: VulkanKernelScalarSource::PushConstant,
        }],
        uses_stream_tick: false,
    }
}

#[test]
fn nodes_are_bound_to_their_resources() {
    let plan = bindings();
    assert_eq!(plan.total_node_count(), 4);
    let node = plan.circuit("layer1").unwrap().node("project").unwrap();
    assert_eq!(
        node.input("x").unwrap().resource,
        VulkanSignalResource::BoundaryInput
    );
    assert_eq!(
        node.output("h").unwrap().resource,
        VulkanSignalResource::ActivationSlot {
            component_id: "layer1".to_string(),
            slot: 0,
            bytes: Some(8),
            signal_bytes: Some(6)
        }
    );
    assert_eq!(node.parameter("w").unwrap().tensor, "shared.weight");
    assert_eq!(node.parameter("w").unwrap().byte_count, Some(24));
    assert!(plan.circuit("layer3").is_none());
}

#[test]
fn shared_states_lead_to_their_owner() {
    let plan = bindings();
    let written = &plan
        .circuit("layer2")
        .unwrap()
        .node("remember")
        .unwrap()
        .state_writes[0];
    assert_eq!(written.component_id, "layer1");
    assert_eq!(written.state_id, "kv");
    assert_eq!(written.bytes_per_activation, Some(8));
}

#[test]
fn state_sources_are_read() {
    assert_eq!(
        parse_state_source("a.b.kv").unwrap(),
        ("a.b".to_string(), "kv".to_string())
    );
    assert_eq!(
        parse_state_source("kv").unwrap_err().to_string(),
        "shared state source \"kv\" must be PEDAL_ID.STATE_ID"
    );
    assert_eq!(
        parse_state_source(".kv").unwrap_err().to_string(),
        "shared state source \".kv\" must contain non-empty pedal and state ids"
    );
    assert_eq!(shared_state_source("clone_from:a.kv").unwrap(), None);
    assert_eq!(
        shared_state_source("shared_from:a.kv").unwrap(),
        Some(("a".to_string(), "kv".to_string()))
    );
}

#[test]
fn plans_that_do_not_fit_are_refused() {
    let refused = |resources: &StreamCircuitResourcePlan,
                   resident: &VulkanStreamCircuitResidentPlan| {
        VulkanStreamCircuitBindingPlan::from_plans(&execution(&BOTH), resources, resident)
            .unwrap_err()
            .to_string()
    };
    let mut counts = resident(&BOTH);
    counts.circuit_count = 3;
    assert_eq!(
        refused(&resources(&BOTH), &counts),
        "execution/resource/resident circuit counts do not match: 2/2/3"
    );
    let mut without = resident(&BOTH);
    without.permanent_parameters.clear();
    assert_eq!(
        refused(&resources(&BOTH), &without),
        "resident plan has no permanent parameter for tensor \"shared.weight\""
    );
    let mut twice = resources(&BOTH);
    let again = twice.parameters[0].clone();
    twice.parameters.push(again);
    assert!(refused(&twice, &resident(&BOTH)).starts_with("duplicate parameter binding for "));
    let mut circle = resources(&BOTH);
    circle.state_allocations[0].sharing = Some("shared_from:layer2.kv".to_string());
    assert!(refused(&circle, &resident(&BOTH)).starts_with("shared state alias cycle reaches "));
    let mut uneven = resident(&BOTH);
    uneven.activation_banks[0].slots[0].bytes = Some(9);
    assert_eq!(
        refused(&resources(&BOTH), &uneven),
        "layer1 node project activation signal \"h\" slot capacity 9 is not divisible by 4 elements"
    );
    let mut narrow = resident(&BOTH);
    narrow.activation_banks[0].slots[0].bytes = Some(4);
    narrow.activation_banks[0].slots[0].max_elements = Some(2);
    assert_eq!(
        refused(&resources(&BOTH), &narrow),
        "layer1 node project activation signal \"h\" requires 6 bytes, exceeding slot capacity 4"
    );
}

#[test]
fn launches_and_descriptors_are_numbered() {
    let plan = dispatches();
    assert_eq!(plan.total_dispatch_count(), 4);
    let indices: Vec<usize> = plan
        .commands
        .iter()
        .map(|command| command.dispatch_index)
        .collect();
    assert_eq!(indices, vec![0, 1, 2, 3]);
    let command = plan.command("layer1", "project").unwrap();
    assert_eq!(command.kernel_id, "layer1.project");
    assert!(!command.uses_stream_tick);
    let descriptors: Vec<(usize, VulkanKernelDescriptorUsage, &str)> = command
        .descriptor_bindings
        .iter()
        .map(|binding| (binding.binding, binding.usage, binding.name.as_str()))
        .collect();
    assert_eq!(
        descriptors,
        vec![
            (0, VulkanKernelDescriptorUsage::InputSignal, "x"),
            (1, VulkanKernelDescriptorUsage::OutputSignal, "h"),
            (2, VulkanKernelDescriptorUsage::Parameter, "w"),
        ]
    );
    assert!(plan.command("layer2", "remember").unwrap().uses_stream_tick);
    assert_eq!(
        plan.op_counts().entries,
        vec![
            ("append_state_update".to_string(), 2),
            ("linear".to_string(), 2)
        ]
    );
}

#[test]
fn contracts_are_written_as_json() {
    assert_eq!(
        key().contract(),
        "{\"op\":\"linear\",\"specialization\":\"say \\\"hi\\\"\",\"descriptor_signature\":[{\"binding\":0,\"usage\":\"input_signal\",\"resource_class\":\"signal_buffer\"},{\"binding\":1,\"usage\":\"parameter\",\"resource_class\":\"parameter_buffer\",\"byte_capacity\":24,\"shape\":[4,3]}],\"push_constants\":[{\"name\":\"expert_start\",\"scalar_type\":\"u32\",\"source\":\"push_constant\"}],\"uses_stream_tick\":false}"
    );
    assert_eq!(key().family_id(), "linear.d93441e0e691704a94f0b238");
}

#[test]
fn control_characters_are_escaped_in_contracts() {
    let mut odd = key();
    odd.specialization = "\u{8}\u{9}\u{a}\u{c}\u{d}\u{1}\u{1f}\\\u{7f}é".to_string();
    assert!(odd
        .contract()
        .contains("\"specialization\":\"\\b\\t\\n\\f\\r\\u0001\\u001f\\\\\u{7f}é\""));
}

#[test]
fn new_stream_controls_start_as_zeros() {
    assert_eq!(initial_stream_control_bytes(&None), Some(vec![0u8; 20]));
    let given = VulkanResidentBuffer::persistently_mapped(
        VulkanResidentBufferName::StreamControl,
        "gpu0",
        20,
    );
    assert_eq!(initial_stream_control_bytes(&Some(given)), None);
}

#[test]
fn buffers_of_one_device_are_told_apart() {
    let buffer = |name: VulkanResidentBufferName| {
        VulkanResidentBuffer::in_device_memory(name, "gpu0", 64)
    };
    assert_ne!(
        buffer(VulkanResidentBufferName::PermanentParameter(0)),
        buffer(VulkanResidentBufferName::PermanentParameter(1))
    );
    assert_ne!(
        buffer(VulkanResidentBufferName::PermanentParameter(0)),
        buffer(VulkanResidentBufferName::StreamState(0))
    );
    let shared = |allocation: VulkanHostAllocationId| {
        VulkanResidentBuffer::imported(
            VulkanResidentBufferName::SharedActivation(0),
            "gpu0",
            64,
            allocation,
        )
    };
    let activation = shared(VulkanHostAllocationId::Activation(0));
    assert!(activation.shares_host_allocation_with(&shared(VulkanHostAllocationId::Activation(0))));
    assert!(!activation.shares_host_allocation_with(&shared(VulkanHostAllocationId::BatchSignal(0))));
}

#[test]
fn equal_launches_share_a_family() {
    let plan = dispatches();
    let reusable = VulkanReusableKernelPlan::from_dispatch_plan(&plan);
    assert_eq!(reusable.total_family_count(), 2);
    for family in &reusable.families {
        assert_eq!(family.command_refs.len(), 2);
        assert_eq!(family.family_id, family.key.family_id());
    }
    let mut manifest = VulkanReusableKernelArtifactManifest::new(
        reusable.families.iter().map(|family| artifact(&family.key)).collect(),
    );
    let linked = reusable.link_artifacts(&manifest);
    assert_eq!(linked.linked_family_count, 2);
    assert!(linked.is_fully_linked());
    manifest.artifacts[0].uses_stream_tick = !manifest.artifacts[0].uses_stream_tick;
    manifest.artifacts.remove(1);
    let broken = reusable.link_artifacts(&manifest);
    assert_eq!(broken.linked_family_count, 0);
    assert_eq!(broken.missing_family_count, 1);
    assert_eq!(broken.incompatible_family_count, 1);
    assert!(!broken.is_fully_linked());
    let report = reusable.coverage_report(&vec![reusable.families[0].family_id.clone()]);
    assert_eq!(report.total_family_count, 2);
    assert_eq!(report.covered_family_count, 1);
    assert_eq!(
        report.missing_family_ids,
        vec![reusable.families[1].family_id.clone()]
    );
}

#[test]
fn launches_are_prepared_with_their_artifacts() {
    let plan = dispatches();
    let reusable = VulkanReusableKernelPlan::from_dispatch_plan(&plan);
    let descriptors =
        VulkanDescriptorResourcePlan::from_plans(&plan, &resident(&BOTH), 8, &layouts()).unwrap();
    assert_eq!(descriptors.dispatches.len(), 4);
    assert_eq!(descriptors.total_descriptor_count, 12);
    let written = descriptors
        .dispatch("layer2", "remember")
        .unwrap()
        .descriptors
        .iter()
        .find(|descriptor| descriptor.usage == VulkanKernelDescriptorUsage::StateWrite)
        .unwrap();
    assert_eq!(
        written.resource,
        VulkanDescriptorResourceAddress::StateBuffer {
            component_id: "layer1".to_string(),
            state_id: "kv".to_string(),
            state_type: "kv_cache".to_string(),
            byte_capacity: 64,
            static_bytes: None,
            bytes_per_activation: Some(8)
        }
    );
    let manifest = VulkanReusableKernelArtifactManifest::new(
        reusable.families.iter().map(|family| artifact(&family.key)).collect(),
    );
    let prepared =
        VulkanPreparedDispatchPlan::from_plans(&plan, &reusable, &descriptors, &manifest).unwrap();
    assert_eq!(prepared.dispatches.len(), 4);
    assert_eq!(prepared.total_descriptor_count, 12);
    assert_eq!(prepared.reusable_family_count, 2);
    let launch = prepared.dispatch("layer2", "project").unwrap();
    assert_eq!(launch.artifact_path, "linear.spv");
    assert_eq!(launch.dispatch_index, 2);
    assert_eq!(launch.local_size_x, 64);
    let empty = VulkanReusableKernelArtifactManifest::new(vec![]);
    assert!(matches!(
        VulkanPreparedDispatchPlan::from_plans(&plan, &reusable, &descriptors, &empty),
        Err(VulkanPreparedDispatchPlanError::Link(_))
    ));
}

#[test]
fn states_that_cannot_be_laid_out_are_refused() {
    let refused = vec![VulkanTransientStateBufferLayout::Refused {
        reason: "too wide".to_string(),
    }];
    let error =
        VulkanDescriptorResourcePlan::from_plans(&dispatches(), &resident(&BOTH), 8, &refused)
            .unwrap_err()
            .to_string();
    assert!(error.contains("too wide"), "{}", error);
}

#[test]
fn placed_plans_hold_what_their_device_hosts() {
    let placed = VulkanPlacedStreamCircuitResidentPlan {
        device_id: "gpu1".to_string(),
        signal_element_bytes: Some(2),
        hosted_component_ids: texts(&["layer1"]),
        resident_plan: resident(&["layer1"]),
        local_edges: vec![],
        incoming_edges: vec![],
        outgoing_edges: vec![],
    };
    let plan =
        VulkanPlacedStreamCircuitPlan::from_plans(&execution(&BOTH), &resources(&BOTH), placed)
            .unwrap();
    assert_eq!(plan.device_id, "gpu1");
    assert_eq!(plan.binding_plan.circuits.len(), 1);
    assert_eq!(plan.dispatch_plan.total_dispatch_count(), 2);
    assert_eq!(plan.reusable_kernel_plan.total_family_count(), 2);
}

#[test]
fn circuits_without_buffers_are_not_mounted() {
    let refused = VulkanMountedStreamCircuit::from_plans(
        &execution(&BOTH),
        &resources(&BOTH),
        resident(&BOTH),
        Err(VulkanError("out of memory".to_string())),
    );
    assert!(refused.is_err());
}

fn stream_buffers() -> VulkanStreamCircuitStreamBuffers {
    VulkanStreamCircuitStreamBuffers {
        dynamic_state_capacity_activations: 8,
        state_buffers: vec![VulkanStreamStateBufferAllocation {
            component_id: "layer1".to_string(),
            state_id: "kv".to_string(),
            byte_capacity: 64,
            buffer: VulkanResidentBuffer::in_device_memory(VulkanResidentBufferName::PermanentParameter(0), "gpu0", 64),
        }],
        activation_slot_buffers: BOTH
            .iter()
            .map(|id| VulkanActivationSlotBufferAllocation {
                component_id: id.to_string(),
                circuit_id: "block".to_string(),
                slot: 0,
                byte_capacity: 8,
                buffer: VulkanResidentBuffer::in_device_memory(VulkanResidentBufferName::StreamState(0), "gpu0", 8),
            })
            .collect(),
    }
}

#[test]
fn launches_are_bound_to_the_buffers_of_a_stream() {
    let plan = dispatches();
    let reusable = VulkanReusableKernelPlan::from_dispatch_plan(&plan);
    let descriptors =
        VulkanDescriptorResourcePlan::from_plans(&plan, &resident(&BOTH), 8, &layouts()).unwrap();
    let manifest = VulkanReusableKernelArtifactManifest::new(
        reusable.families.iter().map(|family| artifact(&family.key)).collect(),
    );
    let prepared =
        VulkanPreparedDispatchPlan::from_plans(&plan, &reusable, &descriptors, &manifest).unwrap();
    let bound = VulkanBoundDispatchPlan::from_prepared_plan(&prepared, &stream_buffers()).unwrap();
    assert_eq!(bound.total_descriptor_count, 12);
    assert_eq!(bound.boundary_descriptor_count, 4);
    assert_eq!(bound.permanent_parameter_descriptor_count, 2);
    assert_eq!(bound.stream_state_descriptor_count, 2);
    assert_eq!(bound.activation_slot_descriptor_count, 4);
    let target = &bound.dispatch("layer2", "project").unwrap().descriptors[1].target;
    assert_eq!(
        *target,
        VulkanBoundDescriptorTarget::ActivationSlot {
            buffer_index: 1,
            component_id: "layer2".to_string(),
            signal_id: "h".to_string(),
            circuit_id: "block".to_string(),
            slot: 0,
            byte_capacity: 8,
            signal_byte_capacity: 6
        }
    );
    let mut stateless = stream_buffers();
    stateless.state_buffers.clear();
    assert!(matches!(
        VulkanBoundDispatchPlan::from_prepared_plan(&prepared, &stateless),
        Err(VulkanBoundDispatchPlanError::MissingStateBuffer { dispatch_index: 1, .. })
    ));
    let mut slotless = stream_buffers();
    slotless.activation_slot_buffers.clear();
    assert!(matches!(
        VulkanBoundDispatchPlan::from_prepared_plan(&prepared, &slotless),
        Err(VulkanBoundDispatchPlanError::MissingActivationSlotBuffer { dispatch_index: 0, .. })
    ));
    let mut small = stream_buffers();
    small.state_buffers[0].byte_capacity = 32;
    assert_eq!(
        VulkanBoundDispatchPlan::from_prepared_plan(&prepared, &small).unwrap_err(),
        VulkanBoundDispatchPlanError::ByteCapacityMismatch {
            dispatch_index: 1,
            binding: 2,
            expected_byte_capacity: 64,
            mounted_byte_capacity: 32
        }
    );
}

fn boundary_buffer(signal: &str) -> VulkanModelBoundaryBufferAllocation {
    VulkanModelBoundaryBufferAllocation {
        signal_id: signal.to_string(),
        byte_capacity: 6,
        buffer: VulkanResidentBuffer::persistently_mapped(VulkanResidentBufferName::ModelInput(0), "gpu0", 6),
    }
}

fn mounted(device: &VulkanComputeDevice) -> VulkanMountedPlacedStreamCircuit {
    let placed = VulkanPlacedStreamCircuitResidentPlan {
        device_id: "gpu0".to_string(),
        signal_element_bytes: Some(2),
        hosted_component_ids: texts(&["layer1"]),
        resident_plan: resident(&["layer1"]),
        local_edges: vec![],
        incoming_edges: vec![],
        outgoing_edges: vec![],
    };
    let plan = VulkanPlacedStreamCircuitPlan::from_plans(
        &execution(&["layer1"]),
        &resources(&["layer1"]),
        placed,
    )
    .unwrap();
    VulkanMountedPlacedStreamCircuit::from_placed_plan(
        device,
        plan,
        Ok(VulkanPermanentParameterBuffers {
            buffers: vec![VulkanPermanentParameterBufferAllocation {
                parameter: VulkanPermanentParameter {
                    tensor: "shared.weight".to_string(),
                    dtype: None,
                    shape: Some(vec![4, 3]),
                },
                byte_capacity: 24,
                buffer: VulkanResidentBuffer::in_device_memory(VulkanResidentBufferName::ActivationSlot(0), "gpu0", 24),
            }],
        }),
        Ok(stream_buffers()),
        Ok(VulkanModelBoundaryBuffers {
            inputs: vec![boundary_buffer("x")],
            outputs: vec![boundary_buffer("y")],
        }),
    )
    .unwrap()
}

#[test]
fn mounted_launches_can_be_made() {
    let device = VulkanComputeDevice {
        device_id: "gpu0".to_string(),
        device_name: "gpu0".to_string(),
        supports_opaque_fd_timeline_semaphores: true,
    };
    let circuit = mounted(&device);
    assert_eq!(circuit.device_id(), "gpu0");
    assert!(!circuit.can_execute());
    let manifest = VulkanReusableKernelArtifactManifest::new(
        circuit
            .placed_plan
            .reusable_kernel_plan
            .families
            .iter()
            .map(|family| artifact(&family.key))
            .collect(),
    );
    let mut loaded = VulkanLoadedReusableKernelArtifactManifest {
        schema: manifest.schema.clone(),
        artifacts: manifest
            .artifacts
            .iter()
            .map(|artifact| VulkanLoadedReusableKernelArtifact {
                artifact: artifact.clone(),
                words: vec![7],
            })
            .collect(),
    };
    let plan = circuit
        .mounted_placed_bound_dispatch_plan(&manifest, &layouts())
        .unwrap();
    let ready = circuit
        .resident_kernel_dispatch_readiness_plan(&manifest, &loaded, &layouts())
        .unwrap();
    assert_eq!(ready.dispatch_count, 2);
    assert_eq!(ready.instantiable_count, 2);
    assert_eq!(ready.blocked_count, 0);
    assert_eq!(ready.instantiable_descriptor_count, 7);
    assert_eq!(
        plan.total_descriptor_count,
        plan.resident_descriptor_count
            + plan.model_boundary_descriptor_count
            + plan.local_cable_descriptor_count
            + plan.incoming_cable_descriptor_count
            + plan.outgoing_cable_descriptor_count
    );
    let project = plan.dispatch("layer1", "project").unwrap();
    let launch = circuit
        .create_resident_kernel_dispatch_for_bound_dispatch(&device, project, &loaded)
        .unwrap();
    assert_eq!(launch.spirv_words, vec![7]);
    assert_eq!(launch.bindings.len(), 3);
    assert_eq!(launch.local_size_x, 64);

    loaded.artifacts.retain(|loaded| loaded.artifact.op != "linear");
    let blocked = circuit
        .resident_kernel_dispatch_readiness_plan(&manifest, &loaded, &layouts())
        .unwrap();
    assert_eq!(blocked.instantiable_count, 1);
    assert_eq!(blocked.missing_loaded_artifact_count, 1);
    assert!(matches!(
        blocked.dispatch("layer1", "project").unwrap().status,
        VulkanMountedPlacedResidentKernelDispatchStatus::Blocked { .. }
    ));
    assert!(circuit
        .create_resident_kernel_dispatch_for_bound_dispatch(&device, project, &loaded)
        .is_err());
}
