use nerve_runtime::component_batch::kernels::VulkanComponentBatchExecutionMode;
use nerve_runtime::component_batch::kernels::VulkanComponentBatchModes;
use nerve_runtime::component_batch::kernels::VulkanResidentComponentBatchKernelArtifact;
use nerve_runtime::component_batch::kernels::VulkanResidentComponentBatchStageArtifact;
use nerve_runtime::component_batch::kernels::VulkanResidentComponentKernelBatchMode;
use nerve_runtime::component_batch::runner::VulkanComponentBatchBindingPlan;
use nerve_runtime::component_batch::signals::VulkanComponentBatchSignalKey;
use nerve_runtime::component_batch::signals::VulkanComponentBatchSignalTarget;
use nerve_runtime::component_batch::slice::VulkanComponentBatchSlice;
use nerve_runtime::component_batch::slice::VulkanResidentComponentBatchSliceRunner;
use nerve_runtime::component_batch::steps::VulkanComponentBatchBindingRequest;
use nerve_runtime::component_batch::units::VulkanComponentBatchExecutionUnit;
use nerve_runtime::device::VulkanComputeDevice;
use nerve_runtime::device::VulkanDeviceDirectory;
use nerve_runtime::device::VulkanError;
use nerve_runtime::device::VulkanResidentBuffer;
use nerve_runtime::device::VulkanResidentBufferName;
use nerve_runtime::device::VulkanResidentKernelBufferAccess;
use nerve_runtime::device::VulkanResidentKernelBufferBinding;
use nerve_runtime::distributed::plan::VulkanDistributedExecutionPlan;
use nerve_runtime::kernel_interface::VulkanKernelDescriptorUsage;
use nerve_runtime::mounted_dispatch::VulkanMountedPlacedBoundDescriptor;
use nerve_runtime::mounted_dispatch::VulkanMountedPlacedBoundDescriptorTarget;
use nerve_runtime::mounted_dispatch::VulkanMountedPlacedBoundDispatch;
use nerve_runtime::reusable_kernels::VulkanLoadedReusableKernelArtifact;
use nerve_runtime::reusable_kernels::VulkanLoadedReusableKernelArtifactManifest;
use nerve_runtime::reusable_kernels::VulkanReusableKernelArtifact;
use nerve_runtime::runtime_error::VulkanResidentInProcessPlacedRuntimeError;

type Bound = Vec<
    Vec<Result<Vec<VulkanResidentKernelBufferBinding>, VulkanResidentInProcessPlacedRuntimeError>>,
>;

type Targets = Vec<
    Vec<
        Result<Option<VulkanComponentBatchSignalTarget>, VulkanResidentInProcessPlacedRuntimeError>,
    >,
>;

fn launch(index: usize, node: &str, family: &str) -> VulkanMountedPlacedBoundDispatch {
    VulkanMountedPlacedBoundDispatch {
        dispatch_index: index,
        kernel_id: format!("layer.{node}"),
        component_id: "layer".to_string(),
        circuit_id: "circuit".to_string(),
        node_index: index,
        node_id: node.to_string(),
        op: "linear".to_string(),
        reusable_family_id: family.to_string(),
        artifact_path: "linear.spv".to_string(),
        entry_point: "main".to_string(),
        local_size_x: 64,
        descriptors: vec![VulkanMountedPlacedBoundDescriptor {
            binding: 0,
            usage: VulkanKernelDescriptorUsage::InputSignal,
            name: "x".to_string(),
            target: VulkanMountedPlacedBoundDescriptorTarget::ModelInput {
                signal_id: "x".to_string(),
            },
        }],
        push_constants: vec![],
        uses_stream_tick: node == "timed",
    }
}

fn slice() -> VulkanComponentBatchSlice {
    let both = VulkanComponentBatchModes {
        independent_candidates: true,
        causal_sequence: true,
    };
    VulkanComponentBatchSlice {
        device_id: "gpu0".to_string(),
        dispatches: vec![
            launch(0, "batched", "family"),
            launch(1, "timed", "family"),
            launch(2, "plain", "family"),
        ],
        batch_kernels: vec![VulkanResidentComponentBatchKernelArtifact {
            component_id: "layer".to_string(),
            node_id: "batched".to_string(),
            batch_mode: VulkanResidentComponentKernelBatchMode::WeightShared,
            lane_tile_width: 2,
            execution_domain: both,
            exact_modes: both,
            stages: vec![VulkanResidentComponentBatchStageArtifact {
                shader_path: "batch.spv".to_string(),
                spirv_words: vec![9],
                workgroup_count_x: 5,
                local_size_x: 32,
            }],
        }],
        loaded_manifest: VulkanLoadedReusableKernelArtifactManifest {
            schema: "schema".to_string(),
            artifacts: vec![VulkanLoadedReusableKernelArtifact {
                artifact: VulkanReusableKernelArtifact {
                    family_id: "family".to_string(),
                    op: "linear".to_string(),
                    path: "linear.spv".to_string(),
                    entry_point: "main".to_string(),
                    local_size_x: 64,
                    workgroup_count_x: 3,
                    descriptor_signature: vec![],
                    push_constants: vec![],
                    uses_stream_tick: false,
                },
                words: vec![7],
            }],
        },
    }
}

fn devices() -> VulkanDeviceDirectory {
    VulkanDeviceDirectory {
        devices: vec![VulkanComputeDevice {
            device_id: "gpu0".to_string(),
            device_name: "gpu0".to_string(),
            supports_opaque_fd_timeline_semaphores: true,
        }],
        noun: "device".to_string(),
        refusals: vec![],
    }
}

fn plan() -> VulkanDistributedExecutionPlan {
    VulkanDistributedExecutionPlan::for_placed_components(&["gpu0".to_string()], 256).unwrap()
}

fn targets() -> Targets {
    (0..3)
        .map(|_| {
            vec![Ok(Some(VulkanComponentBatchSignalTarget {
                key: VulkanComponentBatchSignalKey::ModelInput("x".to_string()),
                frame_byte_capacity: 8,
            }))]
        })
        .collect()
}

const MODE: VulkanComponentBatchExecutionMode =
    VulkanComponentBatchExecutionMode::IndependentCandidates;

fn binding_plan(
    slice: &VulkanComponentBatchSlice,
    lanes: usize,
) -> Result<VulkanComponentBatchBindingPlan, VulkanResidentInProcessPlacedRuntimeError> {
    VulkanResidentComponentBatchSliceRunner::binding_plan(
        &devices(),
        slice,
        lanes,
        MODE,
        &plan(),
        &targets(),
    )
}

/// Binds the signal buffer, at the frame of the lane, and the lane's control buffer.
fn bind(plan: &VulkanComponentBatchBindingPlan) -> Bound {
    let one = |request: &VulkanComponentBatchBindingRequest| {
        let mut bindings = vec![VulkanResidentKernelBufferBinding {
            binding: 0,
            buffer: plan.signal_buffers[0].buffer.clone(),
            byte_offset: request.lane_index.unwrap_or(0) * 8,
            byte_len: 8,
            access: VulkanResidentKernelBufferAccess::Read,
        }];
        if let Some(control) = &request.stream_control_buffer {
            bindings.push(VulkanResidentKernelBufferBinding {
                binding: 1,
                buffer: control.clone(),
                byte_offset: 0,
                byte_len: 20,
                access: VulkanResidentKernelBufferAccess::Read,
            });
        }
        Ok(bindings)
    };
    plan.requests
        .iter()
        .map(|node| node.iter().map(one).collect())
        .collect()
}

#[test]
fn launches_are_bound_for_their_lanes() {
    let plan = binding_plan(&slice(), 3).unwrap();
    let request = |position: usize, lane: Option<usize>, control: Option<VulkanResidentBuffer>| {
        VulkanComponentBatchBindingRequest {
            dispatch_position: position,
            lane_index: lane,
            stream_control_buffer: control,
        }
    };
    let control = |lane: usize| {
        VulkanResidentBuffer::persistently_mapped(
            VulkanResidentBufferName::LaneControl(lane),
            "gpu0",
            20,
        )
    };
    assert_eq!(plan.requests[0], vec![request(0, None, None)]);
    assert_eq!(
        plan.requests[1],
        (0..3)
            .map(|lane| request(1, Some(lane), Some(control(lane))))
            .collect::<Vec<_>>()
    );
    assert_eq!(
        plan.requests[2],
        (0..3)
            .map(|lane| request(2, Some(lane), None))
            .collect::<Vec<_>>()
    );
    assert_eq!(plan.signal_buffers.len(), 1);
    assert_eq!(plan.signal_buffers[0].buffer.byte_capacity, 24);
    assert_eq!(
        plan.stream_control_buffers,
        vec![control(0), control(1), control(2)]
    );
}

#[test]
fn batches_are_made_of_what_was_bound() {
    let asked = binding_plan(&slice(), 3).unwrap();
    let runner = VulkanResidentComponentBatchSliceRunner::new(
        &devices(),
        &slice(),
        3,
        MODE,
        &plan(),
        &targets(),
        &bind(&asked),
    )
    .ok()
    .unwrap();
    assert_eq!(runner.lane_capacity, 3);
    assert_eq!(runner.steps.len(), 7);
    let batched = &runner.steps[0];
    assert_eq!(batched.lane_index, None);
    assert_eq!(batched.dispatch.spirv_words, vec![9]);
    assert_eq!(batched.dispatch.workgroup_count_x, 5);
    assert_eq!(batched.dispatch.workgroup_count_y, 2);
    assert_eq!(
        batched.dispatch.label,
        Some("kernel=layer.batched pedal=layer node=batched op=linear batch".to_string())
    );
    for lane in 0..3 {
        let timed = &runner.steps[1 + lane];
        assert_eq!(timed.lane_index, Some(lane));
        assert_eq!(timed.dispatch.bindings.len(), 2);
        assert_eq!(timed.dispatch.bindings[0].byte_offset, lane * 8);
        assert_eq!(
            timed.dispatch.bindings[1].buffer,
            runner.stream_control_buffers[lane]
        );
        let plain = &runner.steps[4 + lane];
        assert_eq!(plain.dispatch.bindings.len(), 1);
        assert_eq!(
            plain.dispatch.label,
            Some(format!(
                "kernel=layer.plain pedal=layer node=plain op=linear lane={lane}"
            ))
        );
    }
    assert_eq!(
        runner.execution_units,
        vec![VulkanComponentBatchExecutionUnit::LocalComponent {
            component_id: "layer".to_string(),
            step_start: 0,
            step_end: 7,
        }]
    );
    assert_eq!(runner.sequence_count, 1);
    assert_eq!(runner.stream_control_buffers, asked.stream_control_buffers);
}

#[test]
fn batches_that_cannot_be_made_are_refused() {
    let refused = |message: &str| {
        Some(VulkanResidentInProcessPlacedRuntimeError::BackendLoop(
            VulkanError(message.to_string()),
        ))
    };
    assert_eq!(
        binding_plan(&slice(), 0).err(),
        refused("component batch lane capacity is zero")
    );
    let mut bare = slice();
    bare.loaded_manifest.artifacts.clear();
    let asked = binding_plan(&bare, 2).unwrap();
    assert_eq!(asked.requests[0].len(), 1);
    assert!(asked.requests[1].is_empty());
    assert_eq!(
        VulkanResidentComponentBatchSliceRunner::new(
            &devices(),
            &bare,
            2,
            MODE,
            &plan(),
            &targets(),
            &bind(&asked),
        )
        .err(),
        refused("component batch scalar kernel layer.timed has no loaded artifact")
    );
    let asked = binding_plan(&slice(), 2).unwrap();
    let mut bound = bind(&asked);
    bound[2][1] = Err(VulkanResidentInProcessPlacedRuntimeError::StreamTickOverflow);
    assert_eq!(
        VulkanResidentComponentBatchSliceRunner::new(
            &devices(),
            &slice(),
            2,
            MODE,
            &plan(),
            &targets(),
            &bound,
        )
        .err(),
        Some(VulkanResidentInProcessPlacedRuntimeError::StreamTickOverflow)
    );
}
