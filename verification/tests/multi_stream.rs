use nerve_runtime::batched_projection::VulkanResidentBatchedOutputProjectionRunner;
use nerve_runtime::batched_projection::VulkanResidentSamplerLogitsRequest;
use nerve_runtime::component_batch::signals::VulkanComponentBatchSignalKey;
use nerve_runtime::component_batch::slice::VulkanComponentBatchSignalBuffer;
use nerve_runtime::component_batch::slice::VulkanResidentComponentBatchSliceRunner;
use nerve_runtime::device::VulkanComputeDevice;
use nerve_runtime::device::VulkanDeviceDirectory;
use nerve_runtime::device::VulkanError;
use nerve_runtime::device::VulkanResidentBuffer;
use nerve_runtime::device::VulkanResidentBufferName;
use nerve_runtime::device::VulkanResidentKernelDispatch;
use nerve_runtime::feedback_loop::VulkanResidentSamplerRun;
use nerve_runtime::input_transducer::VulkanResidentInputEmbeddingTransducerSpec;
use nerve_runtime::multi_stream_batch::VulkanMultiStreamTickAction;
use nerve_runtime::multi_stream_batch::VulkanResidentInProcessPlacedStreamProcessor;
use nerve_runtime::multi_stream_batch::VulkanResidentPlacedComponentBatchRunner;
use nerve_runtime::multi_stream_batch::VulkanResidentPlacedDeviceSlice;
use nerve_runtime::multi_stream_batch::VulkanResidentPlacedModel;
use nerve_runtime::multi_stream_batch::VulkanResidentPlacedMultiStreamBatchRunner;
use nerve_runtime::ordered::OrderedMap;
use nerve_runtime::output_transducer::VulkanResidentOutputTransducerSpec;
use nerve_runtime::resident_plan::VulkanPermanentParameter;
use nerve_runtime::resident_plan::VulkanPermanentParameterBufferAllocation;
use nerve_runtime::resident_plan::VulkanPermanentParameterBuffers;
use nerve_runtime::runtime_error::VulkanResidentInProcessPlacedRuntimeError;
use nerve_runtime::runtime_error::VulkanResidentSamplerRunnerError;

fn device(id: &str) -> VulkanComputeDevice {
    VulkanComputeDevice {
        device_id: id.to_string(),
        device_name: format!("{id} device"),
        supports_opaque_fd_timeline_semaphores: true,
    }
}

fn devices(ids: &[&str]) -> VulkanDeviceDirectory {
    VulkanDeviceDirectory {
        devices: ids.iter().map(|id| device(id)).collect(),
        noun: "device".to_string(),
        refusals: vec![],
    }
}

fn buffer(name: VulkanResidentBufferName, bytes: usize) -> VulkanResidentBuffer {
    VulkanResidentBuffer::in_device_memory(name, "gpu1", bytes)
}

fn weight(tensor: &str, shape: &[usize], bytes: usize) -> VulkanPermanentParameterBufferAllocation {
    VulkanPermanentParameterBufferAllocation {
        parameter: VulkanPermanentParameter {
            tensor: tensor.to_string(),
            dtype: Some("BF16".to_string()),
            shape: Some(shape.to_vec()),
        },
        byte_capacity: bytes,
        buffer: buffer(VulkanResidentBufferName::PermanentParameter(0), bytes),
    }
}

fn norm_weight() -> VulkanPermanentParameterBufferAllocation {
    weight("norm", &[4], 8)
}

fn projection_weight() -> VulkanPermanentParameterBufferAllocation {
    weight("head", &[10, 4], 80)
}

fn output_spec() -> VulkanResidentOutputTransducerSpec {
    VulkanResidentOutputTransducerSpec {
        transducer_id: "output".to_string(),
        input_signal_id: "y".to_string(),
        node_ids: vec!["norm".to_string(), "head".to_string()],
        norm_parameter_tensor: "norm".to_string(),
        norm_parameter_dtype: "BF16".to_string(),
        norm_parameter_shape: vec![4],
        norm_parameter_byte_capacity: 8,
        projection_parameter_tensor: "head".to_string(),
        projection_parameter_dtype: "BF16".to_string(),
        projection_parameter_shape: vec![10, 4],
        projection_parameter_byte_capacity: 80,
        input_frame_byte_capacity: 8,
        normalized_frame_byte_capacity: 8,
        logits_byte_capacity: 40,
        projection_workgroup_count_x: 5,
        norm_local_size_x: 4,
        projection_local_size_x: 64,
    }
}

fn input_spec() -> VulkanResidentInputEmbeddingTransducerSpec {
    VulkanResidentInputEmbeddingTransducerSpec {
        transducer_id: "input".to_string(),
        parameter_tensor: "embedding".to_string(),
        parameter_dtype: "BF16".to_string(),
        parameter_shape: vec![10, 4],
        parameter_byte_capacity: 80,
        output_signal_id: "x".to_string(),
        output_frame_byte_capacity: 8,
        output_frame_word_count: 2,
        local_size_x: 64,
    }
}

fn kernel(label: &str) -> VulkanResidentKernelDispatch {
    VulkanResidentKernelDispatch {
        device_id: "gpu1".to_string(),
        spirv_words: vec![],
        bindings: vec![],
        workgroup_count_x: 1,
        workgroup_count_y: 1,
        base_workgroup_z: 0,
        local_size_x: 1,
        push_constant_byte_count: 0,
        label: Some(label.to_string()),
    }
}

type Made = Vec<Result<Vec<VulkanResidentKernelDispatch>, VulkanResidentSamplerRunnerError>>;

fn made(lanes: usize) -> Made {
    (0..lanes)
        .map(|lane| Ok(vec![kernel(&format!("lane{lane}"))]))
        .collect()
}

fn requests(
    tile_width: u32,
    lanes: usize,
) -> Result<Vec<VulkanResidentSamplerLogitsRequest>, VulkanResidentInProcessPlacedRuntimeError> {
    VulkanResidentBatchedOutputProjectionRunner::sampler_logits_requests(
        &device("gpu1"),
        2,
        tile_width,
        &buffer(VulkanResidentBufferName::BatchSignal(0), 24),
        &norm_weight(),
        &projection_weight(),
        &output_spec(),
        &Ok(()),
        lanes,
    )
}

fn projection(
    tile_width: u32,
    made: Made,
) -> Result<VulkanResidentBatchedOutputProjectionRunner, VulkanResidentInProcessPlacedRuntimeError> {
    VulkanResidentBatchedOutputProjectionRunner::new_for_sampler_lanes(
        &device("gpu1"),
        2,
        tile_width,
        &buffer(VulkanResidentBufferName::BatchSignal(0), 24),
        &norm_weight(),
        &projection_weight(),
        None,
        &vec![1],
        &vec![2],
        &output_spec(),
        &Ok(()),
        made,
    )
}

fn refused(message: &str) -> VulkanResidentInProcessPlacedRuntimeError {
    VulkanResidentInProcessPlacedRuntimeError::BackendLoop(VulkanError(message.to_string()))
}

#[test]
fn every_lane_reads_its_own_logits() {
    let asked = requests(4, 3).unwrap();
    let runner = projection(4, made(3)).unwrap();
    assert_eq!(runner.batch_capacity, 3);
    assert_eq!(runner.sampler_views.len(), 3);
    assert_eq!(runner.batched_logits_buffer.byte_capacity, 120);
    assert_eq!(
        runner.batched_logits_buffer.name,
        VulkanResidentBufferName::BatchedLogits
    );
    for (lane, request) in asked.iter().enumerate() {
        assert_eq!(request.lane_index, lane);
        assert_eq!(request.logits_byte_offset, lane * 40);
        assert_eq!(request.batched_logits_buffer, runner.batched_logits_buffer);
        let view = &runner.sampler_views[lane];
        assert_eq!(view.logits_byte_offset, lane * 40);
        assert_eq!(view.dispatches, vec![kernel(&format!("lane{lane}"))]);
    }
    assert_eq!(runner.norm_dispatch.workgroup_count_y, 2);
    assert_eq!(runner.projection_dispatch.workgroup_count_y, 1);
    assert_eq!(runner.projection_dispatch.workgroup_count_x, 5);
}

#[test]
fn batches_that_cannot_be_projected_ask_for_no_sampler() {
    let zero = refused("batched output projection lane tile width is zero");
    assert_eq!(requests(0, 3).unwrap_err(), zero);
    assert_eq!(projection(0, made(3)).unwrap_err(), zero);
    assert_eq!(
        requests(4, 0).unwrap_err(),
        VulkanResidentInProcessPlacedRuntimeError::ZeroTickBudget
    );
    assert_eq!(
        projection(4, vec![]).unwrap_err(),
        VulkanResidentInProcessPlacedRuntimeError::ZeroTickBudget
    );
    let short = refused("batched raw output buffer has 24 bytes, requires 32");
    assert_eq!(requests(4, 4).unwrap_err(), short);
    let mut lanes = made(3);
    lanes[1] = Err(VulkanResidentSamplerRunnerError("no sampler".to_string()));
    assert_eq!(
        projection(4, lanes).unwrap_err(),
        VulkanResidentInProcessPlacedRuntimeError::Sampler(VulkanResidentSamplerRunnerError(
            "no sampler".to_string()
        ))
    );
}

fn slice(id: &str, edges: &[usize]) -> VulkanResidentPlacedDeviceSlice {
    VulkanResidentPlacedDeviceSlice {
        device_id: id.to_string(),
        dispatch_count: 2,
        outgoing_edge_indices: edges.to_vec(),
    }
}

fn processor(mount_id: usize) -> VulkanResidentInProcessPlacedStreamProcessor {
    VulkanResidentInProcessPlacedStreamProcessor {
        model: VulkanResidentPlacedModel {
            mount_id,
            dynamic_state_capacity_activations: 64,
            input_device_id: "gpu0".to_string(),
            output_device_id: "gpu1".to_string(),
            input_transducer_parameter_buffers: VulkanPermanentParameterBuffers {
                buffers: vec![weight("embedding", &[10, 4], 80)],
            },
            input_transducer_spec: input_spec(),
            input_transducer_batch_spirv_words: vec![3],
            output_transducer_parameter_buffers: VulkanPermanentParameterBuffers {
                buffers: vec![norm_weight(), projection_weight()],
            },
            output_transducer_spec: output_spec(),
            embedding_norm_batch_lane_tile_width: 2,
            projection_batch_lane_tile_width: 4,
            embedding_norm_batch_spirv_words: vec![1],
            tied_projection_batch_spirv_words: vec![2],
        },
        speculative_decoder_count: 0,
        activation_turn_count: 3,
        device_slices: vec![slice("gpu1", &[]), slice("gpu0", &[9])],
    }
}

fn launches(key: VulkanComponentBatchSignalKey) -> VulkanResidentComponentBatchSliceRunner {
    VulkanResidentComponentBatchSliceRunner {
        lane_capacity: 2,
        signal_buffers: vec![VulkanComponentBatchSignalBuffer {
            frame_byte_capacity: 8,
            buffer: buffer(VulkanResidentBufferName::BatchSignal(0), 16),
            shared_device_buffers: OrderedMap::new(),
        }],
        signal_buffer_indices: OrderedMap::from_entries(vec![(key, 0)]),
        stream_control_buffers: vec![],
        steps: vec![],
        execution_units: vec![],
        sequence_count: 0,
    }
}

fn graph() -> VulkanResidentPlacedComponentBatchRunner {
    VulkanResidentPlacedComponentBatchRunner {
        slices: vec![
            launches(VulkanComponentBatchSignalKey::ModelOutput("y".to_string())),
            launches(VulkanComponentBatchSignalKey::ModelInput("x".to_string())),
        ],
    }
}

fn runner() -> VulkanResidentPlacedMultiStreamBatchRunner {
    VulkanResidentPlacedMultiStreamBatchRunner::new(
        &devices(&["gpu0", "gpu1"]),
        &vec![processor(1), processor(1)],
        Ok(vec![1, 0]),
        Ok(graph()),
        &Ok(None),
        &Ok(()),
        made(2),
    )
    .ok()
    .unwrap()
}

#[test]
fn streams_of_one_mount_are_batched() {
    let asked = VulkanResidentPlacedMultiStreamBatchRunner::sampler_logits_requests(
        &devices(&["gpu0", "gpu1"]),
        &vec![processor(1), processor(1)],
        &Ok(vec![1, 0]),
        &Ok(graph()),
        &Ok(None),
        &Ok(()),
    )
    .unwrap();
    let offsets: Vec<usize> = asked
        .iter()
        .map(|request| request.logits_byte_offset)
        .collect();
    assert_eq!(offsets, vec![0, 40]);
    let runner = runner();
    let offsets: Vec<usize> = runner
        .output_projection
        .sampler_views
        .iter()
        .map(|view| view.logits_byte_offset)
        .collect();
    assert_eq!(offsets, vec![0, 40]);
    assert_eq!(
        asked[0].batched_logits_buffer,
        runner.output_projection.batched_logits_buffer
    );
    assert_eq!(runner.pipeline, vec![1, 0]);
    assert_eq!(runner.completed_stage_count_per_tick, 4);
    assert_eq!(runner.scheduler_turn_count_per_tick, 3);

    let apart = "multi-stream batch lanes must share one mounted package, context capacity, and non-speculative execution contract";
    assert_eq!(
        VulkanResidentPlacedMultiStreamBatchRunner::new(
            &devices(&["gpu0", "gpu1"]),
            &vec![processor(1), processor(2)],
            Ok(vec![1, 0]),
            Ok(graph()),
            &Ok(None),
            &Ok(()),
            made(2),
        )
        .err(),
        Some(refused(apart))
    );
}

#[test]
fn a_tick_hands_every_part_what_it_needs() {
    let actions = runner()
        .tick_actions(
            &devices(&["gpu0", "gpu1"]),
            &vec![processor(1), processor(1)],
            &vec![5, 6],
            &vec![10, 20],
        )
        .unwrap();
    let stage = |device_index: usize, device_id: &str| VulkanMultiStreamTickAction::RunStage {
        device_index,
        device_id: device_id.to_string(),
        input_token_ids: vec![5, 6],
        stream_ticks: vec![10, 20],
        dynamic_state_capacity_activations: 64,
    };
    let record = |lane_index: usize, input_token_id: u32| VulkanMultiStreamTickAction::RecordInput {
        device_id: "gpu1".to_string(),
        lane_index,
        input_token_id,
    };
    let take = |lane_index: usize, stream_tick: u64| VulkanMultiStreamTickAction::TakeRun {
        lane_index,
        stream_tick,
    };
    assert_eq!(
        actions,
        vec![
            VulkanMultiStreamTickAction::EmbedTokens {
                device_id: "gpu0".to_string(),
                input_token_ids: vec![5, 6],
            },
            stage(1, "gpu0"),
            VulkanMultiStreamTickAction::TransferEdge {
                source_device_index: 1,
                destination_device_index: 0,
                edge_index: 9,
            },
            stage(0, "gpu1"),
            record(0, 5),
            record(1, 6),
            VulkanMultiStreamTickAction::ProjectFrames {
                device_id: "gpu1".to_string(),
                batch_width: 2,
            },
            VulkanMultiStreamTickAction::SampleStreams {
                device_id: "gpu1".to_string(),
                input_token_ids: vec![5, 6],
                stream_ticks: vec![10, 20],
                dynamic_state_capacities: vec![64, 64],
            },
            take(0, 10),
            take(1, 20),
        ]
    );
}

fn run(
    ids: &[&str],
    processors: &Vec<VulkanResidentInProcessPlacedStreamProcessor>,
    tokens: &Vec<u32>,
) -> Result<Vec<u32>, VulkanResidentInProcessPlacedRuntimeError> {
    let sampled = |token_id: u32| {
        Ok(VulkanResidentSamplerRun {
            sampler_id: "sampler".to_string(),
            token_id,
        })
    };
    runner()
        .run(
            &devices(ids),
            processors,
            tokens,
            &vec![10, 20],
            &Ok(()),
            &vec![Ok(()), Ok(())],
            &vec![Ok(())],
            &vec![Ok(()), Ok(())],
            &Ok(()),
            &Ok(()),
            &vec![sampled(7), sampled(8)],
        )
        .map(|run| run.sampled_token_ids)
}

#[test]
fn ticks_fail_as_their_actions_do() {
    let streams = vec![processor(1), processor(1)];
    assert_eq!(run(&["gpu0", "gpu1"], &streams, &vec![5, 6]), Ok(vec![7, 8]));

    let mut forked = streams.clone();
    forked[0].device_slices[1].outgoing_edge_indices.push(3);
    let fork = refused("multi-stream batch device \"gpu0\" has 2 outgoing edges; expected one");
    let actions = runner()
        .tick_actions(
            &devices(&["gpu0", "gpu1"]),
            &forked,
            &vec![5, 6],
            &vec![10, 20],
        )
        .unwrap();
    assert_eq!(actions.len(), 3);
    assert_eq!(
        actions[2],
        VulkanMultiStreamTickAction::Fail {
            error: fork.clone()
        }
    );
    assert_eq!(run(&["gpu0", "gpu1"], &forked, &vec![5, 6]), Err(fork));

    let missing = VulkanResidentInProcessPlacedRuntimeError::MissingBoundDevice {
        device_id: "gpu1".to_string(),
    };
    let actions = runner()
        .tick_actions(&devices(&["gpu0"]), &streams, &vec![5, 6], &vec![10, 20])
        .unwrap();
    assert_eq!(actions.len(), 5);
    assert_eq!(
        actions[4],
        VulkanMultiStreamTickAction::Fail {
            error: missing.clone()
        }
    );
    assert_eq!(run(&["gpu0"], &streams, &vec![5, 6]), Err(missing));

    let lanes = refused("multi-stream batch has 2 processors, 1 input tokens, and 2 stream ticks");
    assert_eq!(
        runner()
            .tick_actions(
                &devices(&["gpu0", "gpu1"]),
                &streams,
                &vec![5],
                &vec![10, 20]
            )
            .unwrap_err(),
        lanes
    );
    assert_eq!(run(&["gpu0", "gpu1"], &streams, &vec![5]), Err(lanes));
    assert_eq!(
        runner()
            .tick_actions(&devices(&[]), &streams, &vec![5, 6], &vec![10, 20])
            .unwrap_err(),
        VulkanResidentInProcessPlacedRuntimeError::MissingBoundDevice {
            device_id: "gpu0".to_string(),
        }
    );
}
