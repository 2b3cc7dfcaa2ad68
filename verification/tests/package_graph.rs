use nerve_runtime::ordered::OrderedMap;
use nerve_runtime::package::graph::CircuitRuntimeRole;
use nerve_runtime::package::graph::StreamCircuitConnection;
use nerve_runtime::package::graph::StreamCircuitGraphBoundary;
use nerve_runtime::package::graph::StreamCircuitGraphBoundaryPort;
use nerve_runtime::package::graph::StreamCircuitGraphCable;
use nerve_runtime::package::graph::StreamCircuitGraphEndpoint;
use nerve_runtime::package::graph::StreamCircuitPlacementSpec;
use nerve_runtime::package::graph::VulkanResidentPackageCircuit;
use nerve_runtime::package::graph::VulkanResidentPackageCircuitGraph;
use nerve_runtime::package::graph::VulkanResidentPackagePedalCircuit;
use nerve_runtime::package::graph::VulkanResidentPackageState;
use nerve_runtime::package::graph::VulkanResidentPackageStatePort;
use nerve_runtime::package::manifest::VulkanResidentModelPackageManifest;
use nerve_runtime::package::manifest::VulkanResidentPackageArtifactIntegrity;
use nerve_runtime::package::manifest::VulkanResidentPackageComponentExecution;
use nerve_runtime::package::manifest::VulkanResidentPackageInputTransducer;
use nerve_runtime::package::manifest::VulkanResidentPackageOutputTransducer;
use nerve_runtime::package::manifest::VulkanResidentPackageTokenizer;
use nerve_runtime::package::mount::runtime_graph_controls;
use nerve_runtime::package::mount::MountAnswers;
use nerve_runtime::package::mount::MountChecks;
use nerve_runtime::package::mount::RuntimeGraphControl;
use nerve_runtime::package::processors::GraphChecks;
use nerve_runtime::package::runtime_graph::apply_runtime_graph_state_policy;
use nerve_runtime::package::runtime_graph::attach_generation_node_devices_for_vulkan;
use nerve_runtime::package::runtime_graph::StreamCircuitNodeInstance;
use nerve_runtime::package::runtime_graph::StreamCircuitNodeInstanceStatePolicy;
use nerve_runtime::package::runtime_graph::StreamCircuitRuntimeGraph;

const PEDALS: [&str; 5] = ["embed", "layer1", "layer2", "head", "sampler"];

fn role(id: &str) -> CircuitRuntimeRole {
    match id {
        "embed" => CircuitRuntimeRole::InputTransducer,
        "head" => CircuitRuntimeRole::OutputTransducer,
        "sampler" => CircuitRuntimeRole::Sampler,
        _ => CircuitRuntimeRole::SignalProcessor,
    }
}

fn pedal(id: &str) -> VulkanResidentPackagePedalCircuit {
    let state = || VulkanResidentPackageStatePort {
        id: "kv".to_string(),
        sharing: None,
    };
    VulkanResidentPackagePedalCircuit {
        pedal_id: id.to_string(),
        operator_type: if id.starts_with("layer") { "block" } else { id }.to_string(),
        runtime_role: role(id),
        implementation: "vulkan".to_string(),
        behavioral_role: "reference".to_string(),
        circuit: VulkanResidentPackageCircuit {
            source_component_id: id.to_string(),
            runtime_role: role(id),
            state_ports: vec![state()],
            nodes: "[]".to_string(),
        },
        params: "{}".to_string(),
        state: VulkanResidentPackageState {
            state_ports: vec![state()],
        },
    }
}

fn cable(id: &str, from: &str, to: &str, connection: StreamCircuitConnection) -> StreamCircuitGraphCable {
    let end = |pedal: &str, port: &str| StreamCircuitGraphEndpoint {
        pedal_id: pedal.to_string(),
        port_id: port.to_string(),
    };
    StreamCircuitGraphCable {
        id: id.to_string(),
        connection,
        source: end(from, "out"),
        destination: end(to, "in"),
    }
}

fn cables() -> Vec<StreamCircuitGraphCable> {
    vec![
        cable("c0", "embed", "layer1", StreamCircuitConnection::Forward),
        cable("c1", "layer1", "layer2", StreamCircuitConnection::Forward),
        cable("c2", "layer2", "head", StreamCircuitConnection::Forward),
        cable("c3", "head", "sampler", StreamCircuitConnection::Forward),
        cable("c4", "sampler", "embed", StreamCircuitConnection::Feedback),
        cable("c5", "layer2", "layer1", StreamCircuitConnection::Feedback),
    ]
}

fn boundary() -> StreamCircuitGraphBoundary {
    StreamCircuitGraphBoundary {
        external_inputs: vec![StreamCircuitGraphBoundaryPort {
            id: "prompt".to_string(),
            endpoint: StreamCircuitGraphEndpoint {
                pedal_id: "embed".to_string(),
                port_id: "in".to_string(),
            },
        }],
        public_outputs: vec![],
    }
}

fn graph() -> VulkanResidentPackageCircuitGraph {
    VulkanResidentPackageCircuitGraph {
        wiring: "series".to_string(),
        cables: cables(),
        boundary: boundary(),
        architecture: "\"decoder\"".to_string(),
        dimensions: "{}".to_string(),
        input_transducer: "null".to_string(),
        output_transducer: "null".to_string(),
        pedals: PEDALS.iter().map(|id| pedal(id)).collect(),
    }
}

fn all_ok(count: usize) -> Vec<Result<(), String>> {
    (0..count).map(|_| Ok(())).collect()
}

fn graph_checks() -> GraphChecks {
    GraphChecks {
        pedals: all_ok(5),
        index: Ok(()),
        processor_index: Ok(()),
    }
}

fn mount_checks() -> MountChecks {
    MountChecks {
        pedals: all_ok(5),
        index: Ok(()),
        before: Ok(()),
        after: Ok(()),
    }
}

fn placement(devices: &[(&str, &str)]) -> StreamCircuitPlacementSpec {
    StreamCircuitPlacementSpec {
        schema: "placement".to_string(),
        default_device_id: "gpu0".to_string(),
        pedal_devices: OrderedMap::from_entries(
            devices
                .iter()
                .map(|pair| (pair.0.to_string(), pair.1.to_string()))
                .collect(),
        ),
    }
}

fn instance(id: &str, source: &str, device: &str) -> StreamCircuitNodeInstance {
    StreamCircuitNodeInstance {
        instance_id: id.to_string(),
        source_component_id: source.to_string(),
        device_id: device.to_string(),
        state_policy: StreamCircuitNodeInstanceStatePolicy::Fresh,
    }
}

fn runtime_graph() -> StreamCircuitRuntimeGraph {
    StreamCircuitRuntimeGraph {
        default_device_id: "gpu0".to_string(),
        wiring: "series".to_string(),
        instances: vec![
            instance("embed", "embed", "gpu0"),
            instance("layer1", "layer1", "gpu1"),
            instance("layer2", "layer2", "gpu2"),
            instance("head", "head", "gpu0"),
            instance("sampler", "sampler", "gpu0"),
        ],
        cables: cables(),
        boundary: boundary(),
    }
}

fn manifest() -> VulkanResidentModelPackageManifest {
    VulkanResidentModelPackageManifest {
        package_id: "package".to_string(),
        tensor_index_path: String::new(),
        behavioral_validation_path: String::new(),
        config_path: String::new(),
        tokenizer: VulkanResidentPackageTokenizer {
            path: String::new(),
            files: vec![],
        },
        input_transducer: VulkanResidentPackageInputTransducer {
            shader_path: String::new(),
            batch_shader_path: String::new(),
        },
        output_transducer: VulkanResidentPackageOutputTransducer {
            embedding_norm_shader_path: String::new(),
            embedding_norm_batch_shader_path: String::new(),
            projection_shader_path: String::new(),
            projection_batch_shader_path: String::new(),
        },
        sampler_kernels: vec![],
        component_executions: ["layer1", "layer2"]
            .iter()
            .map(|id| VulkanResidentPackageComponentExecution {
                component_id: id.to_string(),
                kernels: vec![],
            })
            .collect(),
        speculative_decoders: vec![],
        artifact_integrity: VulkanResidentPackageArtifactIntegrity {
            schema: String::new(),
            algorithm: String::new(),
            files: OrderedMap::new(),
        },
        required_vulkan_features: vec![],
        required_vulkan_subgroup_operations: vec![],
        circuit_graph: graph(),
    }
}

fn mount_answers(ids: &[&str]) -> MountAnswers {
    MountAnswers {
        validated: Ok(()),
        ordered_instance_ids: Ok(ids.iter().map(|id| id.to_string()).collect()),
        effective_cables: Ok(cables()),
        generation_contract: Ok(()),
    }
}

fn devices_of(graph: &StreamCircuitRuntimeGraph) -> Vec<&str> {
    graph
        .instances
        .iter()
        .map(|instance| instance.device_id.as_str())
        .collect()
}

#[test]
fn packages_resolve_to_pedalboards() {
    let board = graph()
        .to_resolved_lowered_pedalboard("root", "lowered", &all_ok(5), &Ok(()))
        .unwrap();
    assert_eq!(board.artifact_root, "root");
    assert_eq!(board.index.schema, "lowered");
    assert_eq!(
        board.index.source_format,
        "nerve.vulkan_resident_model_package.v3"
    );
    assert_eq!(board.circuits[1].pedal.circuit, "package://layer1/circuit");
    assert_eq!(board.circuits[1].pedal.params, "package://layer1/params");
    assert_eq!(board.circuits[1].pedal.state, "package://layer1/state");
    assert_eq!(board.index.summary.circuit_count, 5);
    assert_eq!(
        board.index.summary.operator_counts.entries,
        vec![
            ("block".to_string(), 2),
            ("embed".to_string(), 1),
            ("head".to_string(), 1),
            ("sampler".to_string(), 1)
        ]
    );
    assert_eq!(
        board.index.notes,
        vec!["resolved from resident model package manifest"]
    );
}

#[test]
fn invalid_pedals_are_refused() {
    let mut pedals = all_ok(5);
    pedals[2] = Err("no nodes".to_string());
    assert_eq!(
        graph()
            .to_resolved_lowered_pedalboard("root", "lowered", &pedals, &Ok(()))
            .unwrap_err()
            .to_string(),
        "resident package circuit graph pedal layer2 is invalid: no nodes"
    );
    assert_eq!(
        graph()
            .to_resolved_lowered_pedalboard(
                "root",
                "lowered",
                &all_ok(5),
                &Err("no wiring".to_string())
            )
            .unwrap_err()
            .to_string(),
        "resident package circuit graph is invalid: no wiring"
    );
}

#[test]
fn processors_are_cut_out_of_the_graph() {
    let board = graph()
        .to_signal_processor_graph("root", "lowered", &graph_checks())
        .unwrap();
    let ids: Vec<&str> = board
        .circuits
        .iter()
        .map(|circuit| circuit.pedal.id.as_str())
        .collect();
    assert_eq!(ids, vec!["layer1", "layer2"]);
    assert_eq!(board.index.graph.circuits.len(), 2);
    assert_eq!(board.index.graph.cables, vec![cables()[1].clone()]);
    assert_eq!(board.index.graph.boundary.external_inputs.len(), 1);
    assert_eq!(board.index.graph.boundary.external_inputs[0].id, "c0_input");
    assert_eq!(
        board.index.graph.boundary.external_inputs[0].endpoint,
        cables()[0].destination
    );
    assert_eq!(board.index.graph.boundary.public_outputs[0].id, "c2_output");
    assert_eq!(
        board.index.graph.boundary.public_outputs[0].endpoint,
        cables()[2].source
    );
    assert_eq!(
        board.index.summary.operator_counts.entries,
        vec![("block".to_string(), 2)]
    );
    assert_eq!(
        graph()
            .signal_processor_endpoint_pedal_ids("lowered", &graph_checks())
            .unwrap(),
        ("layer1".to_string(), "layer2".to_string())
    );
}

#[test]
fn graphs_without_one_way_through_are_refused() {
    let mut none = graph();
    none.pedals.retain(|pedal| !pedal.pedal_id.starts_with("layer"));
    assert_eq!(
        none.to_signal_processor_graph("root", "lowered", &graph_checks())
            .unwrap_err()
            .to_string(),
        "resident package pedalboard contains no signal processors"
    );
    let mut wrong = graph_checks();
    wrong.processor_index = Err("loop".to_string());
    assert_eq!(
        graph()
            .to_signal_processor_graph("root", "lowered", &wrong)
            .unwrap_err()
            .to_string(),
        "resident package signal-processor graph is invalid: loop"
    );
    let mut closed = graph();
    closed.cables.remove(0);
    assert_eq!(
        closed
            .signal_processor_endpoint_pedal_ids("lowered", &graph_checks())
            .unwrap_err()
            .to_string(),
        "Vulkan generation currently requires exactly one signal-processor input boundary, found 0"
    );
    let mut wide = graph();
    wide.cables
        .push(cable("c6", "layer1", "head", StreamCircuitConnection::Forward));
    assert_eq!(
        wide.signal_processor_endpoint_pedal_ids("lowered", &graph_checks())
            .unwrap_err()
            .to_string(),
        "Vulkan generation currently requires exactly one signal-processor output boundary, found 2"
    );
}

#[test]
fn placements_are_those_of_the_processors() {
    let placed = placement(&[("embed", "gpu9"), ("layer2", "gpu1"), ("other", "gpu7")]);
    let kept = graph().signal_processor_placement(&placed);
    assert_eq!(
        kept.pedal_devices.entries,
        vec![("layer2".to_string(), "gpu1".to_string())]
    );
    assert_eq!(kept.default_device_id, "gpu0");
    assert_eq!(
        graph().signal_processor_device_ids(&placed),
        vec!["gpu0", "gpu1"]
    );
}

#[test]
fn transducers_are_attached_to_their_processors() {
    let circuits = graph()
        .to_resolved_lowered_pedalboard(".", "lowered", &all_ok(5), &Ok(()))
        .unwrap()
        .circuits;
    let moved =
        attach_generation_node_devices_for_vulkan(runtime_graph(), &circuits, &Ok(()), &Ok(()))
            .unwrap();
    assert_eq!(
        devices_of(&moved),
        vec!["gpu1", "gpu1", "gpu2", "gpu2", "gpu2"]
    );
    let again =
        attach_generation_node_devices_for_vulkan(moved.clone(), &circuits, &Ok(()), &Ok(()))
            .unwrap();
    assert_eq!(again, moved);

    let refused = |graph: StreamCircuitRuntimeGraph| {
        attach_generation_node_devices_for_vulkan(graph, &circuits, &Ok(()), &Ok(())).unwrap_err()
    };
    for (removed, what) in [
        (0, "Vulkan generation placement requires exactly one input transducer"),
        (3, "Vulkan generation placement requires exactly one output transducer"),
        (4, "Vulkan generation placement requires exactly one sampler"),
    ] {
        let mut graph = runtime_graph();
        graph.instances.remove(removed);
        assert_eq!(refused(graph), what);
    }
    let mut graph = runtime_graph();
    graph.cables.remove(2);
    assert_eq!(
        refused(graph),
        "Vulkan generation placement requires one processor input and output boundary"
    );
    assert_eq!(
        attach_generation_node_devices_for_vulkan(
            runtime_graph(),
            &circuits,
            &Err("unknown".to_string()),
            &Ok(())
        )
        .unwrap_err(),
        "unknown"
    );
    assert_eq!(
        attach_generation_node_devices_for_vulkan(
            runtime_graph(),
            &circuits,
            &Ok(()),
            &Err("later".to_string())
        )
        .unwrap_err(),
        "later"
    );
}

#[test]
fn states_are_shared_and_cloned() {
    let mut instances = runtime_graph().instances;
    instances[2].state_policy = StreamCircuitNodeInstanceStatePolicy::ShareWith {
        instance_id: "layer1".to_string(),
    };
    let sharing = |pedal: &VulkanResidentPackagePedalCircuit| {
        (
            pedal.state.state_ports[0].sharing.clone(),
            pedal.circuit.state_ports[0].sharing.clone(),
        )
    };
    let mut fresh = pedal("layer2");
    apply_runtime_graph_state_policy(
        &mut fresh,
        &instances,
        &StreamCircuitNodeInstanceStatePolicy::Fresh,
    );
    assert_eq!(sharing(&fresh), (None, None));
    let mut shared = pedal("layer2");
    apply_runtime_graph_state_policy(&mut shared, &instances, &instances[2].state_policy);
    let from = Some("shared_from:layer1.kv".to_string());
    assert_eq!(sharing(&shared), (from.clone(), from));
    let mut cloned = pedal("layer2");
    apply_runtime_graph_state_policy(
        &mut cloned,
        &instances,
        &StreamCircuitNodeInstanceStatePolicy::CloneFrom {
            instance_id: "layer2".to_string(),
        },
    );
    let from = Some("clone_from:layer1.kv".to_string());
    assert_eq!(sharing(&cloned), (from.clone(), from));
}

#[test]
fn controls_are_taken_in_order() {
    let devices = OrderedMap::from_entries(vec![
        ("b".to_string(), "gpu1".to_string()),
        ("a".to_string(), "gpu2".to_string()),
    ]);
    let chain = vec![("layer1".to_string(), "one".to_string())];
    let steps = runtime_graph_controls(
        None,
        "auto",
        &devices,
        &vec![("one".to_string(), "two".to_string())],
        Some(&chain),
    );
    assert_eq!(
        steps,
        vec![
            RuntimeGraphControl::SourceSeries {
                default_device_id: "auto".to_string()
            },
            RuntimeGraphControl::ProcessorChain { chain },
            RuntimeGraphControl::DuplicateAfter {
                after_instance_id: "one".to_string(),
                new_instance_id: "two".to_string()
            },
            RuntimeGraphControl::PlaceInstance {
                instance_id: "a".to_string(),
                device_id: "gpu2".to_string()
            },
            RuntimeGraphControl::PlaceInstance {
                instance_id: "b".to_string(),
                device_id: "gpu1".to_string()
            },
        ]
    );
}

#[test]
fn controls_give_a_graph() {
    let place = |id: &str| OrderedMap::from_entries(vec![(id.to_string(), "gpu2".to_string())]);
    let mut series = runtime_graph();
    for instance in series.instances.iter_mut() {
        instance.device_id = "gpu0".to_string();
    }
    let mut placed = series.clone();
    placed.instances[2].device_id = "gpu2".to_string();
    let answers = vec![Ok(series.clone()), Ok(placed)];
    let graph = manifest()
        .runtime_graph_from_controls(
            Some("gpu0"),
            "auto",
            &place("layer2"),
            &vec![],
            None,
            "lowered",
            &mount_checks(),
            &answers,
        )
        .unwrap();
    assert_eq!(
        devices_of(&graph),
        vec!["gpu0", "gpu0", "gpu2", "gpu2", "gpu2"]
    );

    let refused = |id: &str| {
        manifest()
            .runtime_graph_from_controls(
                Some("gpu0"),
                "auto",
                &place(id),
                &vec![],
                None,
                "lowered",
                &mount_checks(),
                &answers,
            )
            .unwrap_err()
            .to_string()
    };
    assert_eq!(refused("nobody"), "runtime graph has no node instance \"nobody\"");
    assert_eq!(
        refused("head"),
        "component \"head\" is attached to the processor boundary and cannot be placed independently by the Vulkan backend"
    );
    let failed = vec![Err("no series".to_string()), Ok(series)];
    assert_eq!(
        manifest()
            .runtime_graph_from_controls(
                None,
                "gpu0",
                &place("layer2"),
                &vec![],
                None,
                "lowered",
                &mount_checks(),
                &failed,
            )
            .unwrap_err()
            .to_string(),
        "no series"
    );
}

#[test]
fn mounted_graphs_keep_their_devices() {
    let model = manifest()
        .mount_runtime_graph(
            &runtime_graph(),
            "lowered",
            "placement",
            &mount_checks(),
            mount_answers(&PEDALS),
        )
        .unwrap();
    let ids: Vec<&str> = model
        .circuit_graph
        .pedals
        .iter()
        .map(|pedal| pedal.pedal_id.as_str())
        .collect();
    assert_eq!(ids, PEDALS.to_vec());
    assert_eq!(model.component_executions.len(), 2);
    for (id, device) in [
        ("embed", "gpu1"),
        ("layer1", "gpu1"),
        ("layer2", "gpu2"),
        ("head", "gpu2"),
    ] {
        assert_eq!(model.placement.device_for_pedal(&id.to_string()), device);
    }
    assert_eq!(model.placement_device_ids(), vec!["gpu1", "gpu2"]);
    assert_eq!(
        model
            .resolved_graph(".", "lowered", &mount_checks())
            .unwrap()
            .circuits
            .len(),
        5
    );
    let one = model.coalesce_placement_to_device("cpu", "placement");
    assert_eq!(one.placement_device_ids(), vec!["cpu"]);
}

#[test]
fn duplicated_instances_are_mounted_under_their_own_names() {
    let mut graph = runtime_graph();
    let mut copy = instance("layer1b", "layer1", "gpu1");
    copy.state_policy = StreamCircuitNodeInstanceStatePolicy::CloneFrom {
        instance_id: "layer1".to_string(),
    };
    graph.instances.push(copy);
    let model = manifest()
        .mount_runtime_graph(
            &graph,
            "lowered",
            "placement",
            &mount_checks(),
            mount_answers(&["layer1b"]),
        )
        .unwrap();
    let mounted = &model.circuit_graph.pedals[0];
    assert_eq!(mounted.pedal_id, "layer1b");
    assert_eq!(mounted.circuit.source_component_id, "layer1b");
    assert_eq!(
        mounted.state.state_ports[0].sharing,
        Some("clone_from:layer1.kv".to_string())
    );
    assert_eq!(model.component_executions[0].component_id, "layer1b");
}

#[test]
fn graphs_that_cannot_be_mounted_are_refused() {
    let refused = |manifest: VulkanResidentModelPackageManifest, answers: MountAnswers| {
        manifest
            .mount_runtime_graph(
                &runtime_graph(),
                "lowered",
                "placement",
                &mount_checks(),
                answers,
            )
            .err()
            .unwrap()
            .to_string()
    };
    let mut bare = manifest();
    bare.component_executions.clear();
    assert_eq!(
        refused(bare, mount_answers(&["layer1"])),
        "runtime graph signal processor layer1 has no execution spec"
    );
    let mut answers = mount_answers(&PEDALS);
    answers.validated = Err("cycle".to_string());
    assert_eq!(refused(manifest(), answers), "cycle");
    let mut answers = mount_answers(&PEDALS);
    answers.ordered_instance_ids = Err("no order".to_string());
    assert_eq!(refused(manifest(), answers), "no order");
    let mut answers = mount_answers(&PEDALS);
    answers.effective_cables = Err("no cables".to_string());
    assert_eq!(refused(manifest(), answers), "no cables");
    let mut answers = mount_answers(&PEDALS);
    answers.generation_contract = Err("no contract".to_string());
    assert_eq!(refused(manifest(), answers), "no contract");
}

#[test]
fn controls_are_mounted() {
    let model = manifest()
        .mount_runtime_graph_controls(
            Some("gpu0"),
            "auto",
            &OrderedMap::new(),
            &vec![],
            None,
            "lowered",
            "placement",
            &mount_checks(),
            &vec![Ok(runtime_graph())],
            &mount_checks(),
            mount_answers(&PEDALS),
        )
        .ok()
        .unwrap();
    assert_eq!(
        devices_of(&model.runtime_graph),
        vec!["gpu1", "gpu1", "gpu2", "gpu2", "gpu2"]
    );
}
