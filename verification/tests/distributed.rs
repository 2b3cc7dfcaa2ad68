use nerve_runtime::descriptor_resources::VulkanDescriptorResourceAddress;
use nerve_runtime::descriptor_resources::VulkanResolvedDescriptorBinding;
use nerve_runtime::device::VulkanComputeDevice;
use nerve_runtime::device::VulkanDeviceDirectory;
use nerve_runtime::device::VulkanDeviceObject;
use nerve_runtime::device::VulkanDeviceRefusal;
use nerve_runtime::device::VulkanError;
use nerve_runtime::dispatch_plan::VulkanPreparedDispatch;
use nerve_runtime::dispatch_plan::VulkanPreparedDispatchPlan;
use nerve_runtime::distributed::activation::VulkanDistributedActivationBufferAllocation;
use nerve_runtime::distributed::activation::VulkanDistributedActivationBufferPlan;
use nerve_runtime::distributed::activation::VulkanDistributedActivationBuffers;
use nerve_runtime::distributed::exclusions::VulkanDistributedParameterExclusionPlan;
use nerve_runtime::distributed::parameters::VulkanDistributedParameterAllocationPlan;
use nerve_runtime::distributed::parameters::VulkanDistributedParameterBuffers;
use nerve_runtime::distributed::parameters::VulkanDistributedParameterLoadError;
use nerve_runtime::distributed::parameters::VulkanDistributedTensorPayload;
use nerve_runtime::distributed::plan::distributed_dispatch_groups;
use nerve_runtime::distributed::plan::VulkanDistributedDispatchDistribution;
use nerve_runtime::distributed::plan::VulkanDistributedExecutionPlan;
use nerve_runtime::distributed::plan::VulkanDistributedPlanError;
use nerve_runtime::distributed::plan::DISTRIBUTABLE_PARALLEL_PROJECTION_OP;
use nerve_runtime::distributed::runners::VulkanDistributedDependencyClock;
use nerve_runtime::distributed::runners::VulkanDistributedDispatchRunnerError;
use nerve_runtime::distributed::runners::VulkanDistributedDispatchRunners;
use nerve_runtime::in_process::compact_slice_submitted_wait;
use nerve_runtime::in_process::wait_for_compact_execution_plan_terminal_work;
use nerve_runtime::in_process::wait_for_compact_slice_submitted_work;
use nerve_runtime::in_process::VulkanCompactSliceWait;
use nerve_runtime::in_process::VulkanMountedPlacedResidentInProcessStreamTickError;
use nerve_runtime::in_process::VulkanMountedPlacedResidentStreamTickExecutionPlan;
use nerve_runtime::kernel_interface::VulkanKernelDescriptorUsage;
use nerve_runtime::kernel_interface::VulkanKernelScalarBinding;
use nerve_runtime::kernel_interface::VulkanKernelScalarSource;
use nerve_runtime::ordered::OrderedMap;
use nerve_runtime::reusable_kernels::VulkanLoadedReusableKernelArtifact;
use nerve_runtime::reusable_kernels::VulkanLoadedReusableKernelArtifactManifest;
use nerve_runtime::reusable_kernels::VulkanReusableKernelArtifact;
use nerve_runtime::reusable_kernels::VulkanReusableKernelArtifactManifest;
use nerve_runtime::tensors::TensorIndex;
use nerve_runtime::tensors::TensorMetadata;

#[test]
fn placed_components_do_not_implicitly_shard_their_internal_dispatches() {
    let device_ids = vec!["gpu0".to_string(), "gpu1".to_string()];
    let plan = VulkanDistributedExecutionPlan::for_placed_components(&device_ids, 256).unwrap();

    assert_eq!(plan.device_ids, device_ids);
    assert!(plan.dispatches.is_empty());
    assert!(plan.dispatch_groups.is_empty());
    assert_eq!(plan.shared_input_byte_capacity, 0);
    assert_eq!(plan.shared_output_byte_capacity, 0);
    assert_eq!(plan.distributed_parameter_byte_count, 0);
}

#[test]
fn timeline_dependency_clock_is_monotonic_and_refuses_wraparound() {
    let mut clock = VulkanDistributedDependencyClock::new();

    assert_eq!(clock.reserve("owner", 7).unwrap(), 1);
    assert_eq!(clock.reserve("owner", 7).unwrap(), 2);
    clock.validate_advance(64, "owner", 7).unwrap();
    clock.advance(64);
    assert_eq!(clock.reserve("owner", 7).unwrap(), 67);

    clock.next_value = u64::MAX;
    let error = clock.reserve("owner", 7).unwrap_err();
    assert!(error.to_string().contains("exhausted its timeline"));
    assert_eq!(clock.next_value, u64::MAX);
}

#[test]
fn plans_balanced_parameter_and_output_shards_from_compiled_contracts() {
    let plan = fixture_plan("row_major");

    assert_eq!(plan.dispatches.len(), 1);
    assert_eq!(plan.shared_input_byte_capacity, 8);
    assert_eq!(plan.shared_output_byte_capacity, 24);
    assert_eq!(plan.storage_buffer_offset_alignment, 4);
    assert_eq!(plan.distributed_parameter_byte_count, 192);
    let dispatch = &plan.dispatches[0];
    assert_eq!(dispatch.owner_device_id, "owner");
    assert_eq!(dispatch.row_alignment, 2);
    assert_eq!(dispatch.input_activation.component_id, "component");
    assert_eq!(dispatch.input_activation.signal_id, "normalized");
    assert_eq!(dispatch.input_activation.slot, 0);
    assert_eq!(dispatch.output_activation.component_id, "component");
    assert_eq!(dispatch.output_activation.signal_id, "hidden");
    assert_eq!(dispatch.output_activation.slot, 1);
    assert_eq!(
        dispatch
            .shards
            .iter()
            .map(|shard| (
                shard.device_id.as_str(),
                shard.row_start,
                shard.row_count,
                shard.workgroup_count_x,
                shard.output_byte_offset,
                shard.output_byte_count,
            ))
            .collect::<Vec<_>>(),
        vec![
            ("owner", 0, 4, 2, 0, 8),
            ("helper-a", 4, 4, 2, 8, 8),
            ("helper-b", 8, 2, 1, 16, 4),
            ("helper-c", 10, 2, 1, 20, 4),
        ]
    );
    assert_eq!(
        dispatch.shards[1]
            .parameters
            .iter()
            .map(|fragment| (
                fragment.binding,
                fragment.tensor.as_str(),
                fragment.byte_offset,
                fragment.byte_count,
            ))
            .collect::<Vec<_>>(),
        vec![(2, "gate", 32, 32), (3, "up", 32, 32)]
    );
}

#[test]
fn plans_sparse_expert_ranges_with_shared_routes_and_full_outputs() {
    let activation = |binding: usize, signal: &str, slot: usize, bytes: usize| {
        VulkanResolvedDescriptorBinding {
            binding,
            usage: if binding == 2 {
                VulkanKernelDescriptorUsage::OutputSignal
            } else {
                VulkanKernelDescriptorUsage::InputSignal
            },
            name: signal.to_string(),
            resource: VulkanDescriptorResourceAddress::ActivationSlot {
                component_id: "moe".to_string(),
                signal_id: signal.to_string(),
                slot,
                byte_capacity: bytes,
                signal_byte_capacity: bytes,
            },
        }
    };
    let parameter = |binding: usize, tensor: &str, bytes: usize| VulkanResolvedDescriptorBinding {
        binding,
        usage: VulkanKernelDescriptorUsage::Parameter,
        name: tensor.to_string(),
        resource: VulkanDescriptorResourceAddress::PermanentParameter {
            param_id: tensor.to_string(),
            tensor: tensor.to_string(),
            byte_count: Some(bytes),
        },
    };
    let mut prepared = VulkanPreparedDispatchPlan {
        backend_id: "vulkan_stream_circuit".to_string(),
        reusable_family_count: 1,
        dispatches: vec![VulkanPreparedDispatch {
            dispatch_index: 9,
            kernel_id: "moe.sparse-down".to_string(),
            component_id: "moe".to_string(),
            circuit_id: "moe-circuit".to_string(),
            node_index: 4,
            node_id: "sparse-down".to_string(),
            op: "sparse_moe_down".to_string(),
            reusable_family_id: "sparse-family".to_string(),
            artifact_path: "sparse.spv".to_string(),
            entry_point: "main".to_string(),
            local_size_x: 64,
            descriptors: vec![
                activation(0, "intermediates", 0, 8192),
                activation(1, "routes", 1, 32),
                activation(2, "outputs", 2, 32768),
                parameter(3, "expert-weight", 256 * 2048 * 512),
                parameter(4, "expert-scale", 256 * 16 * 4 * 2),
            ],
            push_constants: vec![VulkanKernelScalarBinding {
                name: "expert_start".to_string(),
                scalar_type: "u32".to_string(),
                source: VulkanKernelScalarSource::PushConstant,
            }],
            uses_stream_tick: false,
        }],
        total_descriptor_count: 5,
    };
    let tensor_index = TensorIndex {
        schema: "nerve.tensor_index.v1".to_string(),
        tensors: OrderedMap::from_entries(vec![
            (
                "expert-weight".to_string(),
                TensorMetadata {
                    dtype: "F8_E4M3".to_string(),
                    shape: vec![256, 2048, 512],
                    logical_shape: None,
                    parameter_count: Some(256 * 2048 * 512),
                    byte_count: Some(256 * 2048 * 512),
                    data_offsets: Some(vec![0, 256 * 2048 * 512]),
                    source_file: Some("weights.safetensors".to_string()),
                    data_sha256: None,
                    layout: Some("row_major".to_string()),
                },
            ),
            (
                "expert-scale".to_string(),
                TensorMetadata {
                    dtype: "BF16".to_string(),
                    shape: vec![256, 16, 4],
                    logical_shape: None,
                    parameter_count: Some(256 * 16 * 4),
                    byte_count: Some(256 * 16 * 4 * 2),
                    data_offsets: Some(vec![0, 256 * 16 * 4 * 2]),
                    source_file: Some("weights.safetensors".to_string()),
                    data_sha256: None,
                    layout: Some("row_major".to_string()),
                },
            ),
        ]),
    };
    let artifacts =
        VulkanReusableKernelArtifactManifest::new(vec![VulkanReusableKernelArtifact {
            family_id: "sparse-family".to_string(),
            op: "sparse_moe_down".to_string(),
            path: "sparse.spv".to_string(),
            entry_point: "main".to_string(),
            local_size_x: 64,
            workgroup_count_x: 8192,
            descriptor_signature: Vec::new(),
            push_constants: vec![VulkanKernelScalarBinding {
                name: "expert_start".to_string(),
                scalar_type: "u32".to_string(),
                source: VulkanKernelScalarSource::PushConstant,
            }],
            uses_stream_tick: false,
        }]);

    let plan = VulkanDistributedExecutionPlan::from_prepared_plans(
        &[("owner", &prepared)],
        &tensor_index,
        &artifacts,
        &["owner".to_string(), "helper".to_string()],
        256,
    )
    .unwrap();

    assert_eq!(plan.dispatches.len(), 1);
    let dispatch = &plan.dispatches[0];
    assert_eq!(
        dispatch.distribution,
        VulkanDistributedDispatchDistribution::ExpertRange
    );
    assert_eq!(dispatch.input_activation.binding, 0);
    assert_eq!(dispatch.auxiliary_input_activations[0].binding, 1);
    assert_eq!(dispatch.output_activation.binding, 2);
    assert_eq!(dispatch.shards.len(), 2);
    assert_eq!(dispatch.shards[0].device_id, "owner");
    assert_eq!(dispatch.shards[0].row_start, 0);
    assert_eq!(dispatch.shards[0].row_count, 128);
    assert_eq!(dispatch.shards[0].base_workgroup_z, 0);
    assert_eq!(dispatch.shards[1].device_id, "helper");
    assert_eq!(dispatch.shards[1].row_start, 128);
    assert_eq!(dispatch.shards[1].row_count, 128);
    assert_eq!(dispatch.shards[1].base_workgroup_z, 128);
    assert!(dispatch
        .shards
        .iter()
        .all(|shard| shard.workgroup_count_x == 8192
            && shard.output_byte_offset == 0
            && shard.output_byte_count == 32768));
    assert_eq!(
        dispatch.shards[1].parameters[0].byte_offset,
        128 * 2048 * 512
    );
    assert_eq!(
        dispatch.shards[1].parameters[0].byte_count,
        128 * 2048 * 512
    );
    assert_eq!(
        dispatch.shards[1].parameters[1].byte_offset,
        128 * 16 * 4 * 2
    );
    assert_eq!(
        dispatch.shards[1].parameters[1].byte_count,
        128 * 16 * 4 * 2
    );

    prepared.dispatches[0].push_constants.clear();
    let legacy_plan = VulkanDistributedExecutionPlan::from_prepared_plans(
        &[("owner", &prepared)],
        &tensor_index,
        &artifacts,
        &["owner".to_string(), "helper".to_string()],
        256,
    )
    .unwrap();
    assert!(
        legacy_plan.dispatches.is_empty(),
        "sparse expert sharding requires the explicit expert_start contract"
    );
}

#[test]
fn groups_only_adjacent_dataflow_compatible_expert_dispatches() {
    let mut producer = fixture_plan("row_major").dispatches.remove(0);
    producer.dispatch_index = 7;
    producer.distribution = VulkanDistributedDispatchDistribution::ExpertRange;
    producer.output_activation = producer.input_activation.clone();
    producer.output_activation.binding = 1;
    let mut consumer = producer.clone();
    consumer.dispatch_index = 8;
    consumer.node_id = "consumer".to_string();
    consumer.input_activation = producer.output_activation.clone();
    consumer.input_activation.binding = 0;

    let groups = distributed_dispatch_groups(&[producer.clone(), consumer.clone()]);
    assert_eq!(groups.len(), 1);
    assert_eq!(groups[0].dispatch_indices(), vec![7, 8]);

    let mut non_adjacent = consumer.clone();
    non_adjacent.dispatch_index = 9;
    assert_eq!(
        distributed_dispatch_groups(&[producer.clone(), non_adjacent]).len(),
        2
    );

    let mut different_dataflow = consumer.clone();
    different_dataflow.input_activation.signal_id = "another-signal".to_string();
    assert_eq!(
        distributed_dispatch_groups(&[producer.clone(), different_dataflow]).len(),
        2
    );

    let mut different_shards = consumer.clone();
    different_shards.shards[1].row_start += 1;
    assert_eq!(
        distributed_dispatch_groups(&[producer.clone(), different_shards]).len(),
        2
    );

    let mut row_distributed = consumer;
    row_distributed.distribution = VulkanDistributedDispatchDistribution::OutputRows;
    assert_eq!(
        distributed_dispatch_groups(&[producer, row_distributed]).len(),
        2
    );
}

#[test]
fn distributed_shards_always_start_with_the_dispatch_owner() {
    let tensor_index = fixture_tensor_index("row_major");
    let prepared_plan = fixture_prepared_plan();
    let artifact_manifest = fixture_artifact_manifest();
    let plan = VulkanDistributedExecutionPlan::from_prepared_plans(
        &[("owner", &prepared_plan)],
        &tensor_index,
        &artifact_manifest,
        &[
            "helper-a".to_string(),
            "helper-b".to_string(),
            "owner".to_string(),
        ],
        4,
    )
    .unwrap();

    assert_eq!(plan.dispatches.len(), 1);
    assert_eq!(plan.dispatches[0].shards[0].device_id, "owner");
    assert!(plan.dispatches[0]
        .shards
        .iter()
        .any(|shard| shard.device_id != "owner"));
}

#[test]
fn distributed_planner_keeps_unsplittable_dispatch_on_its_owner() {
    let tensor_index = fixture_tensor_index("row_major");
    let prepared_plan = fixture_prepared_plan();
    let artifact_manifest = fixture_artifact_manifest();
    let plan = VulkanDistributedExecutionPlan::from_prepared_plans(
        &[("owner", &prepared_plan)],
        &tensor_index,
        &artifact_manifest,
        &["helper".to_string(), "owner".to_string()],
        1024,
    )
    .unwrap();

    assert!(plan.dispatches.is_empty());
    assert_eq!(plan.distributed_parameter_byte_count, 0);
}

#[test]
fn preserves_packed_row_pairs_at_shard_boundaries() {
    let plan = fixture_plan("vulkan_bf16_row_pair_u32");

    assert_eq!(plan.dispatches[0].row_alignment, 2);
    assert!(plan.dispatches[0]
        .shards
        .iter()
        .all(|shard| shard.row_start % 2 == 0 && shard.row_count % 2 == 0));
}

#[test]
fn aligns_shared_output_offsets_and_keeps_a_workgroup_aligned_tail() {
    let plan = fixture_plan_result_with_alignment("row_major", 16).unwrap();
    let dispatch = &plan.dispatches[0];

    assert_eq!(dispatch.row_alignment, 8);
    assert_eq!(
        dispatch
            .shards
            .iter()
            .map(|shard| (
                shard.device_id.as_str(),
                shard.row_start,
                shard.row_count,
                shard.workgroup_count_x,
                shard.output_byte_offset,
            ))
            .collect::<Vec<_>>(),
        vec![("owner", 0, 8, 4, 0), ("helper-a", 8, 4, 2, 16)]
    );
    assert!(dispatch
        .shards
        .iter()
        .all(|shard| shard.output_byte_offset % plan.storage_buffer_offset_alignment == 0));
}

#[test]
fn plans_one_shared_allocation_per_owner_activation_slot() {
    let execution_plan = fixture_plan("row_major");

    let activation_plan =
        VulkanDistributedActivationBufferPlan::from_execution_plan(&execution_plan).unwrap();

    assert_eq!(activation_plan.allocation_count, 2);
    assert_eq!(activation_plan.import_count, 8);
    assert_eq!(activation_plan.reference_count, 2);
    assert_eq!(activation_plan.total_shared_byte_capacity, 32);
    assert_eq!(
        activation_plan.allocation("owner", "component", 0).unwrap(),
        &VulkanDistributedActivationBufferAllocation {
            owner_device_id: "owner".to_string(),
            component_id: "component".to_string(),
            slot: 0,
            byte_capacity: 8,
            signal_ids: vec!["normalized".to_string()],
            device_ids: vec![
                "helper-a".to_string(),
                "helper-b".to_string(),
                "helper-c".to_string(),
                "owner".to_string(),
            ],
            input_use_count: 1,
            output_use_count: 0,
        }
    );
    assert_eq!(
        activation_plan
            .allocation("owner", "component", 1)
            .unwrap()
            .output_use_count,
        1
    );
}

#[test]
fn rejects_zero_lane_shared_activation_allocations_before_device_access() {
    let execution_plan = fixture_plan("row_major");
    let activation_plan =
        VulkanDistributedActivationBufferPlan::from_execution_plan(&execution_plan).unwrap();

    let error = VulkanDistributedActivationBuffers::allocate_for_lanes(
        &activation_plan,
        0,
        &VulkanDeviceDirectory {
            devices: vec![],
            noun: "device".to_string(),
            refusals: vec![],
        },
    )
    .err()
    .unwrap();

    assert_eq!(
        error.to_string(),
        "distributed activation lane capacity must not be zero"
    );
}

#[test]
fn reuses_shared_activation_allocations_across_repeated_dispatches() {
    let mut execution_plan = fixture_plan("row_major");
    let mut repeated = execution_plan.dispatches[0].clone();
    repeated.dispatch_index = 8;
    repeated.input_activation.signal_id = "normalized-again".to_string();
    execution_plan.dispatches.push(repeated);

    let activation_plan =
        VulkanDistributedActivationBufferPlan::from_execution_plan(&execution_plan).unwrap();

    assert_eq!(activation_plan.allocation_count, 2);
    assert_eq!(activation_plan.import_count, 8);
    assert_eq!(activation_plan.reference_count, 4);
    assert_eq!(activation_plan.total_shared_byte_capacity, 32);
    let input = activation_plan.allocation("owner", "component", 0).unwrap();
    assert_eq!(input.input_use_count, 2);
    assert_eq!(
        input.signal_ids,
        vec!["normalized".to_string(), "normalized-again".to_string()]
    );
}

#[test]
fn rejects_conflicting_capacities_for_the_same_activation_slot() {
    let mut execution_plan = fixture_plan("row_major");
    let mut repeated = execution_plan.dispatches[0].clone();
    repeated.dispatch_index = 8;
    repeated.input_activation.byte_capacity = 16;
    execution_plan.dispatches.push(repeated);

    let error =
        VulkanDistributedActivationBufferPlan::from_execution_plan(&execution_plan).unwrap_err();

    assert!(error
        .to_string()
        .contains("activation component.slot_0 has conflicting capacities 8 and 16"));
}

#[test]
fn rejects_non_contiguous_projection_layouts() {
    let error = fixture_plan_result("column_major").unwrap_err();

    assert!(error
        .to_string()
        .contains("tensor \"gate\" has non-shardable layout Some(\"column_major\")"));
}

#[test]
fn keeps_push_constant_dispatches_on_their_owner_device() {
    let mut prepared_plan = fixture_prepared_plan();
    prepared_plan.dispatches[0].push_constants = vec![VulkanKernelScalarBinding {
        name: "stream_tick".to_string(),
        scalar_type: "u64".to_string(),
        source: VulkanKernelScalarSource::PushConstant,
    }];

    let plan = VulkanDistributedExecutionPlan::from_prepared_plans(
        &[("owner", &prepared_plan)],
        &fixture_tensor_index("row_major"),
        &fixture_artifact_manifest(),
        &["owner".to_string(), "helper".to_string()],
        4,
    )
    .unwrap();

    assert!(plan.dispatches.is_empty());
    assert_eq!(plan.distributed_parameter_byte_count, 0);
}

#[test]
fn keeps_quantized_parallel_projections_on_their_owner_device() {
    let mut prepared_plan = fixture_prepared_plan();
    let gate = prepared_plan.dispatches[0].descriptors[2].clone();
    let up = prepared_plan.dispatches[0].descriptors[3].clone();
    let parameter = |binding: usize, param_id: &str, tensor: &str, byte_count: usize| {
        VulkanResolvedDescriptorBinding {
            binding,
            usage: VulkanKernelDescriptorUsage::Parameter,
            name: param_id.to_string(),
            resource: VulkanDescriptorResourceAddress::PermanentParameter {
                param_id: param_id.to_string(),
                tensor: tensor.to_string(),
                byte_count: Some(byte_count),
            },
        }
    };
    prepared_plan.dispatches[0].descriptors = vec![
        prepared_plan.dispatches[0].descriptors[0].clone(),
        prepared_plan.dispatches[0].descriptors[1].clone(),
        VulkanResolvedDescriptorBinding { binding: 2, ..gate },
        parameter(3, "gate_scale", "gate_scale", 2),
        VulkanResolvedDescriptorBinding { binding: 4, ..up },
        parameter(5, "up_scale", "up_scale", 2),
    ];
    let mut tensor_index = fixture_tensor_index("row_major");
    for (name, metadata) in tensor_index.tensors.entries.iter_mut() {
        assert!(name == "gate" || name == "up");
        metadata.dtype = "F8_E4M3".to_string();
        metadata.byte_count = Some(48);
    }
    let scale = TensorMetadata {
        dtype: "BF16".to_string(),
        shape: vec![1, 1],
        logical_shape: None,
        parameter_count: Some(1),
        byte_count: Some(2),
        data_offsets: Some(vec![0, 2]),
        source_file: Some("weights.safetensors".to_string()),
        data_sha256: None,
        layout: Some("row_major".to_string()),
    };
    tensor_index
        .tensors
        .insert("gate_scale".to_string(), scale.clone());
    tensor_index.tensors.insert("up_scale".to_string(), scale);

    let plan = VulkanDistributedExecutionPlan::from_prepared_plans(
        &[("owner", &prepared_plan)],
        &tensor_index,
        &fixture_artifact_manifest(),
        &["owner".to_string(), "helper".to_string()],
        4,
    )
    .unwrap();

    assert!(plan.dispatches.is_empty());
    assert_eq!(plan.distributed_parameter_byte_count, 0);
}

#[test]
fn immutable_parameter_shards_are_reused_by_duplicated_components() {
    let mut execution_plan = fixture_plan("row_major");
    let mut duplicate = execution_plan.dispatches[0].clone();
    duplicate.dispatch_index = 8;
    duplicate.component_id = "duplicated-component".to_string();
    duplicate.node_id = "duplicated-ffn".to_string();
    execution_plan.dispatches.push(duplicate);

    let allocation_plan = VulkanDistributedParameterAllocationPlan::from_execution_plan(
        &execution_plan,
        &fixture_tensor_index("row_major"),
    )
    .unwrap();

    assert_eq!(allocation_plan.allocation_count, 8);
    assert_eq!(allocation_plan.tensor_count, 2);
    assert_eq!(allocation_plan.total_byte_capacity, 192);
    assert!(allocation_plan
        .allocations
        .iter()
        .all(|allocation| allocation.use_count == 2));
}

#[test]
fn loads_each_tensor_once_and_streams_verified_shards_to_devices() {
    let execution_plan = fixture_plan("row_major");
    let allocation_plan = VulkanDistributedParameterAllocationPlan::from_execution_plan(
        &execution_plan,
        &fixture_tensor_index("row_major"),
    )
    .unwrap();

    let (writes, report) = allocation_plan
        .load_from_tensor_index(&fixture_payloads(&allocation_plan))
        .unwrap();

    assert_eq!(report.tensor_count, 2);
    assert_eq!(report.source_file_count, 1);
    assert_eq!(report.allocation_count, 8);
    assert_eq!(report.write_count, 8);
    assert_eq!(report.total_bytes_read, 192);
    assert_eq!(report.total_bytes_written, 192);
    let write = writes
        .iter()
        .find(|write| {
            let allocation = &allocation_plan.allocations[write.allocation_index];
            allocation.device_id == "helper-a" && allocation.tensor == "gate"
        })
        .unwrap();
    let allocation = &allocation_plan.allocations[write.allocation_index];
    assert_eq!(allocation.byte_offset, 32);
    assert_eq!(allocation.byte_count, 32);
    assert_eq!(write.bytes, tensor_bytes("gate")[32..64].to_vec());
}

#[test]
fn excludes_full_parameters_only_when_all_prepared_uses_are_distributed() {
    let execution_plan = fixture_plan("row_major");
    let prepared_plan = fixture_prepared_plan();

    let exclusions = VulkanDistributedParameterExclusionPlan::from_execution_and_prepared_plans(
        &execution_plan,
        &[("owner", &prepared_plan)],
        &fixture_tensor_index("row_major"),
    )
    .unwrap();

    assert_eq!(exclusions.device_count, 1);
    assert_eq!(exclusions.unique_tensor_count, 2);
    assert_eq!(exclusions.excluded_full_allocation_count, 2);
    assert_eq!(exclusions.excluded_full_byte_capacity, 192);
    assert_eq!(
        exclusions.tensors_for_device("owner").elements,
        vec!["gate".to_string(), "up".to_string()]
    );
    assert!(exclusions.tensors_for_device("helper-a").elements.is_empty());
}

#[test]
fn refuses_to_exclude_a_tensor_still_used_by_a_canonical_dispatch() {
    let execution_plan = fixture_plan("row_major");
    let mut prepared_plan = fixture_prepared_plan();
    let mut canonical = prepared_plan.dispatches[0].clone();
    canonical.dispatch_index = 8;
    canonical.node_index = 4;
    canonical.node_id = "canonical-use".to_string();
    canonical.op = "linear".to_string();
    canonical.descriptors.retain(|descriptor| {
        matches!(
            descriptor.resource,
            VulkanDescriptorResourceAddress::PermanentParameter { .. }
        )
    });
    prepared_plan.dispatches.push(canonical);

    let error = VulkanDistributedParameterExclusionPlan::from_execution_and_prepared_plans(
        &execution_plan,
        &[("owner", &prepared_plan)],
        &fixture_tensor_index("row_major"),
    )
    .unwrap_err();

    assert!(error
        .to_string()
        .contains("canonical dispatch component.canonical-use still uses it"));
}

#[test]
fn alignments_that_are_no_powers_of_two_are_refused() {
    for alignment in [0, 3, 48] {
        assert!(fixture_plan_result_with_alignment("row_major", alignment).is_err());
    }
}

#[test]
fn shards_cover_every_row_once() {
    let plan = fixture_plan("row_major");
    let dispatch = &plan.dispatches[0];
    let mut row = 0;
    for shard in &dispatch.shards {
        assert_eq!(shard.row_start, row);
        row += shard.row_count;
    }
    assert_eq!(row, dispatch.output_rows);
    assert_eq!(dispatch.output_rows, 12);
}

#[test]
fn activations_are_shared_by_every_device_of_a_dispatch() {
    let execution_plan = fixture_plan("row_major");
    let plan =
        VulkanDistributedActivationBufferPlan::from_execution_plan(&execution_plan).unwrap();
    let buffers =
        VulkanDistributedActivationBuffers::allocate_for_lanes(&plan, 3, &fixture_devices())
            .unwrap();

    assert_eq!(buffers.lane_capacity, 3);
    assert_eq!(buffers.allocation_count, 2);
    assert_eq!(buffers.import_count, 8);
    assert_eq!(buffers.total_shared_byte_capacity, 96);
    let on_owner = buffers
        .activation_buffer("owner", "component", 0, "owner")
        .unwrap();
    let on_helper = buffers
        .activation_buffer("owner", "component", 0, "helper-c")
        .unwrap();
    assert!(on_owner.shares_host_allocation_with(on_helper));
    assert!(buffers
        .activation_buffer("owner", "component", 0, "elsewhere")
        .is_none());
    assert_eq!(
        buffers.activation_overrides_for_owner_device("owner").len(),
        2
    );
    assert_eq!(
        buffers
            .activation_overrides_for_owner_device("helper-a")
            .len(),
        0
    );
}

#[test]
fn refusals_of_devices_are_reported() {
    let group_index = 0;
    let refused = |object: VulkanDeviceObject| {
        fixture_runners_result(&refusing(object))
            .err()
            .unwrap()
            .to_string()
    };
    assert_eq!(
        refused(VulkanDeviceObject::DistributedDispatch {
            group_index,
            shard_index: 1,
            dispatch_index: 7
        }),
        "failed to create distributed dispatch component.ffn shard on \"helper-a\": out of memory"
    );
    assert_eq!(
        refused(VulkanDeviceObject::DistributedSequence {
            group_index,
            shard_index: 1
        }),
        "failed to create distributed sequence 7..7 shard on \"helper-a\": out of memory"
    );
    assert_eq!(
        refused(VulkanDeviceObject::SequenceRecording {
            group_index,
            shard_index: 0
        }),
        "failed to record distributed sequence 7..7 shard on \"owner\": out of memory"
    );
    assert_eq!(
        refused(VulkanDeviceObject::HelperSemaphores {
            group_index,
            helper_index: 2
        }),
        "out of memory"
    );
}

#[test]
fn refusals_of_memory_are_reported() {
    let plan = fixture_plan("row_major");
    let activations = VulkanDistributedActivationBufferPlan::from_execution_plan(&plan).unwrap();
    let refused = |object: VulkanDeviceObject| {
        VulkanDistributedActivationBuffers::allocate_for_lanes(&activations, 2, &refusing(object))
            .err()
            .unwrap()
            .to_string()
    };
    assert_eq!(
        refused(VulkanDeviceObject::SharedActivation(1)),
        "failed to allocate 48 shared activation bytes for component.slot_1: out of memory"
    );
    assert_eq!(
        refused(VulkanDeviceObject::ActivationImport {
            allocation: 1,
            participant: 1
        }),
        "failed to import component.slot_1 on \"helper-b\": out of memory"
    );
    let parameters = VulkanDistributedParameterAllocationPlan::from_execution_plan(
        &plan,
        &fixture_tensor_index("row_major"),
    )
    .unwrap();
    let position = parameters
        .allocations
        .iter()
        .position(|allocation| allocation.device_id == "helper-b" && allocation.tensor == "up")
        .unwrap();
    let error = VulkanDistributedParameterBuffers::allocate_and_load(
        &parameters,
        &fixture_payloads(&parameters),
        &refusing(VulkanDeviceObject::DistributedParameter(position)),
    )
    .err()
    .unwrap();
    assert_eq!(
        error.to_string(),
        "failed to allocate 16 distributed bytes for tensor \"up\" on \"helper-b\": out of memory"
    );
}

fn refusing(object: VulkanDeviceObject) -> VulkanDeviceDirectory {
    let mut devices = fixture_devices();
    devices.refusals.push(VulkanDeviceRefusal {
        object,
        error: VulkanError("out of memory".to_string()),
    });
    devices
}

#[test]
fn waits_need_the_devices_of_every_shard() {
    let runners = fixture_runners();
    let idle = Ok(());
    let wait = |devices: &Vec<VulkanComputeDevice>, shards: Vec<Result<(), VulkanError>>| {
        wait_for_compact_slice_submitted_work(
            "owner",
            devices,
            &runners,
            true,
            Some(7),
            true,
            &shards,
            &idle,
        )
        .map_err(|error| match error {
            VulkanMountedPlacedResidentInProcessStreamTickError::Distributed(error) => {
                error.to_string()
            }
            _ => panic!("the wait is for a distributed launch"),
        })
    };
    let devices = fixture_devices().devices;
    let shard_count = runners.dispatch("owner", 7).unwrap().shards.len();
    assert_eq!(shard_count, 4);
    assert_eq!(
        wait(&devices[..2].to_vec(), vec![]),
        Err(
            "failed to resolve distributed shard device \"helper-b\": distributed shard device \"helper-b\" is not mounted"
                .to_string()
        )
    );
    let done = || (0..shard_count).map(|_| Ok(())).collect::<Vec<_>>();
    assert_eq!(wait(&devices, done()), Ok(()));
    let mut failed = done();
    failed[1] = Err(VulkanError("lost".to_string()));
    failed[2] = Err(VulkanError("late".to_string()));
    assert_eq!(
        wait(&devices, failed),
        Err(
            "failed waiting for distributed dispatch component.ffn shard on \"helper-a\": lost"
                .to_string()
        )
    );
    assert_eq!(
        compact_slice_submitted_wait(true, Some(7), true),
        VulkanCompactSliceWait::DistributedDispatch { dispatch_index: 7 }
    );
    assert_eq!(
        compact_slice_submitted_wait(true, None, true),
        VulkanCompactSliceWait::LastSegment
    );
    assert_eq!(
        compact_slice_submitted_wait(false, Some(7), true),
        VulkanCompactSliceWait::Nothing
    );
}

#[test]
fn terminal_waits_name_the_device_that_is_not_mounted() {
    let runners = fixture_runners();
    let plan = VulkanMountedPlacedResidentStreamTickExecutionPlan {
        dispatch_segments: vec![],
        distributed_dispatch_stages: OrderedMap::from_entries(vec![(2, 7)]),
    };
    let error = wait_for_compact_execution_plan_terminal_work(
        "owner",
        &vec![],
        &plan,
        &runners,
        &vec![],
        &Ok(()),
    )
    .unwrap_err();
    match error {
        VulkanMountedPlacedResidentInProcessStreamTickError::Distributed(error) => assert_eq!(
            error.to_string(),
            "failed to resolve distributed shard device \"owner\": distributed shard device \"owner\" is not mounted"
        ),
        _ => panic!("the wait is for a distributed launch"),
    }
}

#[test]
fn shards_differ_by_no_more_than_a_unit() {
    let plan = fixture_plan("row_major");
    let dispatch = &plan.dispatches[0];
    let counts: Vec<usize> = dispatch.shards.iter().map(|shard| shard.row_count).collect();
    assert_eq!(counts.iter().sum::<usize>(), 12);
    let most = counts.iter().max().unwrap();
    let least = counts.iter().min().unwrap();
    assert!(most - least <= 2);
    assert!(counts.iter().all(|count| count % 2 == 0));
}

fn fixture_runners() -> VulkanDistributedDispatchRunners {
    fixture_runners_result(&fixture_devices()).unwrap()
}

fn fixture_runners_result(
    devices: &VulkanDeviceDirectory,
) -> Result<VulkanDistributedDispatchRunners, VulkanDistributedDispatchRunnerError> {
    let plan = fixture_plan("row_major");
    let parameters = VulkanDistributedParameterAllocationPlan::from_execution_plan(
        &plan,
        &fixture_tensor_index("row_major"),
    )
    .unwrap();
    let (parameter_buffers, _) = VulkanDistributedParameterBuffers::allocate_and_load(
        &parameters,
        &fixture_payloads(&parameters),
        devices,
    )
    .unwrap();
    let activations = VulkanDistributedActivationBufferPlan::from_execution_plan(&plan).unwrap();
    let activation_buffers =
        VulkanDistributedActivationBuffers::allocate(&activations, devices).unwrap();
    let manifest = fixture_artifact_manifest();
    let loaded = VulkanLoadedReusableKernelArtifactManifest {
        schema: manifest.schema.clone(),
        artifacts: manifest
            .artifacts
            .iter()
            .map(|artifact| VulkanLoadedReusableKernelArtifact {
                artifact: artifact.clone(),
                words: vec![7],
            })
            .collect(),
    };
    VulkanDistributedDispatchRunners::create(
        &plan,
        &parameter_buffers,
        &activation_buffers,
        &loaded,
        devices,
    )
}

#[test]
fn activations_need_every_device() {
    let plan = VulkanDistributedActivationBufferPlan::from_execution_plan(&fixture_plan(
        "row_major",
    ))
    .unwrap();
    let error = VulkanDistributedActivationBuffers::allocate(
        &plan,
        &VulkanDeviceDirectory {
            devices: vec![],
            noun: "device".to_string(),
            refusals: vec![],
        },
    )
    .err()
    .unwrap();
    assert!(error.to_string().contains("is not mounted"));
}

#[test]
fn parameter_buffers_hold_the_ranges_that_were_written() {
    let plan = VulkanDistributedParameterAllocationPlan::from_execution_plan(
        &fixture_plan("row_major"),
        &fixture_tensor_index("row_major"),
    )
    .unwrap();
    let (buffers, writes) = VulkanDistributedParameterBuffers::allocate_and_load(
        &plan,
        &fixture_payloads(&plan),
        &fixture_devices(),
    )
    .unwrap();

    assert_eq!(buffers.total_byte_capacity, 192);
    assert_eq!(writes.len(), 8);
    let found = buffers
        .parameter_buffer("helper-b", "up", 64, 16)
        .unwrap();
    assert_eq!(found.buffer.byte_capacity, 16);
    assert_eq!(found.buffer.device_id, "helper-b");
    assert!(buffers.parameter_buffer("helper-b", "up", 0, 16).is_none());
}

#[test]
fn a_tensor_that_cannot_be_read_is_not_loaded() {
    let plan = VulkanDistributedParameterAllocationPlan::from_execution_plan(
        &fixture_plan("row_major"),
        &fixture_tensor_index("row_major"),
    )
    .unwrap();
    let payloads = vec![
        Err(VulkanDistributedParameterLoadError("no such file".to_string())),
        Err(VulkanDistributedParameterLoadError("not reached".to_string())),
    ];
    let error = plan.load_from_tensor_index(&payloads).unwrap_err();
    assert_eq!(error.to_string(), "no such file");
}

#[test]
fn clocks_refuse_to_be_advanced_past_their_end() {
    let mut clock = VulkanDistributedDependencyClock::new();
    assert!(clock.validate_advance(u64::MAX, "owner", 3).is_err());
    clock.next_value = u64::MAX - 5;
    assert!(clock.validate_advance(5, "owner", 3).is_ok());
    assert!(clock.validate_advance(6, "owner", 3).is_err());
}

fn tensor_bytes(tensor: &str) -> Vec<u8> {
    (0..96u32)
        .map(|value| {
            if tensor == "gate" {
                value as u8
            } else {
                255u8.wrapping_sub(value as u8)
            }
        })
        .collect()
}

fn fixture_payloads(
    plan: &VulkanDistributedParameterAllocationPlan,
) -> Vec<Result<VulkanDistributedTensorPayload, VulkanDistributedParameterLoadError>> {
    plan.tensor_loads()
        .iter()
        .map(|load| {
            let bytes = tensor_bytes(&load.tensor);
            Ok(VulkanDistributedTensorPayload {
                source_file: "weights.safetensors".to_string(),
                byte_count: bytes.len(),
                payloads: load
                    .ranges
                    .iter()
                    .map(|range| {
                        bytes[range.byte_offset..range.byte_offset + range.byte_count].to_vec()
                    })
                    .collect(),
            })
        })
        .collect()
}

fn fixture_devices() -> VulkanDeviceDirectory {
    VulkanDeviceDirectory {
        devices: ["owner", "helper-a", "helper-b", "helper-c"]
            .iter()
            .map(|id| VulkanComputeDevice {
                device_id: id.to_string(),
                device_name: format!("{id} device"),
                supports_opaque_fd_timeline_semaphores: true,
            })
            .collect(),
        noun: "device".to_string(),
        refusals: vec![],
    }
}

fn fixture_plan(layout: &str) -> VulkanDistributedExecutionPlan {
    fixture_plan_result(layout).unwrap()
}

fn fixture_plan_result(
    layout: &str,
) -> Result<VulkanDistributedExecutionPlan, VulkanDistributedPlanError> {
    fixture_plan_result_with_alignment(layout, 4)
}

fn fixture_plan_result_with_alignment(
    layout: &str,
    storage_buffer_offset_alignment: usize,
) -> Result<VulkanDistributedExecutionPlan, VulkanDistributedPlanError> {
    let tensor_index = fixture_tensor_index(layout);
    let prepared_plan = fixture_prepared_plan();
    let artifact_manifest = fixture_artifact_manifest();
    VulkanDistributedExecutionPlan::from_prepared_plans(
        &[("owner", &prepared_plan)],
        &tensor_index,
        &artifact_manifest,
        &[
            "owner".to_string(),
            "helper-a".to_string(),
            "helper-b".to_string(),
            "helper-c".to_string(),
        ],
        storage_buffer_offset_alignment,
    )
}

fn fixture_prepared_plan() -> VulkanPreparedDispatchPlan {
    let activation = |binding: usize, name: &str, signal: &str, bytes: usize| {
        VulkanResolvedDescriptorBinding {
            binding,
            usage: if binding == 0 {
                VulkanKernelDescriptorUsage::InputSignal
            } else {
                VulkanKernelDescriptorUsage::OutputSignal
            },
            name: name.to_string(),
            resource: VulkanDescriptorResourceAddress::ActivationSlot {
                component_id: "component".to_string(),
                signal_id: signal.to_string(),
                slot: binding,
                byte_capacity: bytes,
                signal_byte_capacity: bytes,
            },
        }
    };
    let parameter = |binding: usize, tensor: &str| VulkanResolvedDescriptorBinding {
        binding,
        usage: VulkanKernelDescriptorUsage::Parameter,
        name: tensor.to_string(),
        resource: VulkanDescriptorResourceAddress::PermanentParameter {
            param_id: tensor.to_string(),
            tensor: tensor.to_string(),
            byte_count: Some(96),
        },
    };
    VulkanPreparedDispatchPlan {
        backend_id: "vulkan_stream_circuit".to_string(),
        reusable_family_count: 1,
        dispatches: vec![VulkanPreparedDispatch {
            dispatch_index: 7,
            kernel_id: "component.ffn".to_string(),
            component_id: "component".to_string(),
            circuit_id: "circuit".to_string(),
            node_index: 3,
            node_id: "ffn".to_string(),
            op: DISTRIBUTABLE_PARALLEL_PROJECTION_OP.to_string(),
            reusable_family_id: "family".to_string(),
            artifact_path: "ffn.spv".to_string(),
            entry_point: "main".to_string(),
            local_size_x: 64,
            descriptors: vec![
                activation(0, "input", "normalized", 8),
                activation(1, "output", "hidden", 24),
                parameter(2, "gate"),
                parameter(3, "up"),
            ],
            push_constants: Vec::new(),
            uses_stream_tick: false,
        }],
        total_descriptor_count: 4,
    }
}

fn fixture_artifact_manifest() -> VulkanReusableKernelArtifactManifest {
    VulkanReusableKernelArtifactManifest::new(vec![VulkanReusableKernelArtifact {
        family_id: "family".to_string(),
        op: DISTRIBUTABLE_PARALLEL_PROJECTION_OP.to_string(),
        path: "ffn.spv".to_string(),
        entry_point: "main".to_string(),
        local_size_x: 64,
        workgroup_count_x: 6,
        descriptor_signature: Vec::new(),
        push_constants: Vec::new(),
        uses_stream_tick: false,
    }])
}

fn fixture_tensor_index(layout: &str) -> TensorIndex {
    let metadata = |layout: &str| TensorMetadata {
        dtype: "BF16".to_string(),
        shape: vec![12, 4],
        logical_shape: None,
        parameter_count: Some(48),
        byte_count: Some(96),
        data_offsets: Some(vec![0, 96]),
        source_file: Some("weights.safetensors".to_string()),
        data_sha256: None,
        layout: Some(layout.to_string()),
    };
    TensorIndex {
        schema: "nerve.tensor_index.v1".to_string(),
        tensors: OrderedMap::from_entries(vec![
            ("gate".to_string(), metadata(layout)),
            ("up".to_string(), metadata(layout)),
        ]),
    }
}
