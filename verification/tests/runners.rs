use nerve_runtime::batched_projection::VulkanResidentBatchedOutputProjectionRunner;
use nerve_runtime::batched_projection::VulkanResidentSamplerLogitsView;
use nerve_runtime::component_batch::runner::VulkanComponentBatchAction;
use nerve_runtime::component_batch::runner::VulkanComponentBatchControl;
use nerve_runtime::component_batch::runner::VulkanComponentBatchPushConstantRequest;
use nerve_runtime::component_batch::slice::VulkanComponentBatchDispatchStep;
use nerve_runtime::component_batch::slice::VulkanResidentComponentBatchSliceRunner;
use nerve_runtime::component_batch::units::VulkanComponentBatchExecutionUnit;
use nerve_runtime::component_runner::VulkanMountedPlacedResidentComponentDispatch;
use nerve_runtime::component_runner::VulkanMountedPlacedResidentComponentRunner;
use nerve_runtime::component_runner::VulkanMountedPlacedResidentExecutionGraphRunner;
use nerve_runtime::device::VulkanDeviceDirectory;
use nerve_runtime::device::VulkanError;
use nerve_runtime::device::VulkanResidentBuffer;
use nerve_runtime::device::VulkanResidentBufferName;
use nerve_runtime::device::VulkanResidentKernelDispatch;
use nerve_runtime::dispatch_segment::VulkanDispatchSegmentSequence;
use nerve_runtime::dispatch_segment::VulkanMountedPlacedResidentDispatchSegmentRunner;
use nerve_runtime::dispatch_segment::VulkanMountedPlacedStreamTickStage;
use nerve_runtime::kernel_interface::VulkanKernelScalarBinding;
use nerve_runtime::kernel_interface::VulkanKernelScalarSource;
use nerve_runtime::multi_stream_batch::VulkanResidentPlacedMultiStreamBatchRunner;
use nerve_runtime::ordered::OrderedMap;
use nerve_runtime::ordered::OrderedSet;
use nerve_runtime::pedal_runner::VulkanMountedPlacedResidentPedalDispatch;
use nerve_runtime::resident_dispatch::push_constant_byte_count;
use nerve_runtime::runtime_error::VulkanResidentInProcessPlacedRuntimeError;
use nerve_runtime::stream_control::VulkanMountedPlacedStreamControl;

fn buffer() -> VulkanResidentBuffer {
    VulkanResidentBuffer::in_device_memory(VulkanResidentBufferName::Logits, "gpu0", 64)
}

fn kernel(label: &str) -> VulkanResidentKernelDispatch {
    VulkanResidentKernelDispatch {
        device_id: "gpu0".to_string(),
        spirv_words: vec![],
        bindings: vec![],
        workgroup_count_x: 3,
        workgroup_count_y: 1,
        base_workgroup_z: 0,
        local_size_x: 1,
        push_constant_byte_count: 0,
        label: Some(label.to_string()),
    }
}

fn pedal_dispatch(index: usize, pedal: &str) -> VulkanMountedPlacedResidentPedalDispatch {
    VulkanMountedPlacedResidentPedalDispatch {
        dispatch_index: index,
        kernel_id: format!("{pedal}.n{index}"),
        pedal_id: pedal.to_string(),
        node_id: format!("n{index}"),
        op: "linear".to_string(),
        reusable_family_id: "linear.0".to_string(),
        push_constants: vec![],
        resident_dispatch: kernel(pedal),
    }
}

fn segment() -> VulkanMountedPlacedResidentDispatchSegmentRunner {
    VulkanMountedPlacedResidentDispatchSegmentRunner {
        start_stage_index: 0,
        end_stage_index: 3,
        dispatch_count: 3,
        dispatches: vec![
            pedal_dispatch(0, "a"),
            pedal_dispatch(1, "a"),
            pedal_dispatch(2, "b"),
        ],
        stream_control_buffer: buffer(),
        sequences: OrderedMap::new(),
        feedback_sequences: vec![],
    }
}

#[test]
fn segments_group_their_runs_by_pedal() {
    let runs = segment().completed_pedal_runs(9);
    let groups: Vec<(&str, Vec<usize>)> = runs
        .iter()
        .map(|run| {
            (
                run.pedal_id.as_str(),
                run.dispatch_runs
                    .iter()
                    .map(|run| run.dispatch_index)
                    .collect(),
            )
        })
        .collect();
    assert_eq!(groups, vec![("a", vec![0, 1]), ("b", vec![2])]);
}

#[test]
fn recorded_segments_are_replayed() {
    let mut segment = segment();
    let bytes = || vec![Ok(vec![]), Ok(vec![]), Ok(vec![])];
    let first = segment
        .prepare_submission(&vec![kernel("before")], &vec![kernel("after")], 1, None, false, bytes())
        .unwrap();
    assert_eq!(first.sequence, VulkanDispatchSegmentSequence::Variant(1));
    let labels: Vec<Option<String>> = first
        .recorded_steps
        .unwrap()
        .into_iter()
        .map(|step| step.dispatch.label)
        .collect();
    let expected: Vec<Option<String>> = ["before", "a", "a", "b", "after"]
        .iter()
        .map(|label| Some(label.to_string()))
        .collect();
    assert_eq!(labels, expected);
    segment.note_recorded(first.sequence);
    let again = segment
        .prepare_submission(&vec![kernel("before")], &vec![kernel("after")], 1, None, false, bytes())
        .unwrap();
    assert!(again.recorded_steps.is_none());
    let measured = segment
        .prepare_submission(&vec![], &vec![], 1, None, true, bytes())
        .unwrap();
    assert!(measured.recorded_steps.is_some());
    let lane = segment
        .prepare_submission(&vec![], &vec![], 1, Some(2), false, bytes())
        .unwrap();
    assert_eq!(lane.sequence, VulkanDispatchSegmentSequence::FeedbackLane(2));
    assert!(lane.recorded_steps.is_some());
}

#[test]
fn stages_know_their_index() {
    assert_eq!(
        VulkanMountedPlacedStreamTickStage::Dispatch {
            stage_index: 4,
            dispatch_index: 1
        }
        .stage_index(),
        4
    );
    assert_eq!(
        VulkanMountedPlacedStreamTickStage::Boundary { stage_index: 5 }.stage_index(),
        5
    );
}

fn component(id: &str) -> VulkanMountedPlacedResidentComponentRunner {
    let dispatch = |index: usize| VulkanMountedPlacedResidentComponentDispatch {
        dispatch_index: index,
        kernel_id: format!("{id}.n{index}"),
        component_id: id.to_string(),
        node_id: format!("n{index}"),
        op: "linear".to_string(),
        reusable_family_id: "linear.0".to_string(),
        push_constants: vec![],
        resident_dispatch: kernel(id),
    };
    VulkanMountedPlacedResidentComponentRunner {
        component_id: id.to_string(),
        dispatches: vec![dispatch(0), dispatch(1)],
        total_descriptor_count: 0,
        total_push_constant_byte_count: 0,
        stream_control_buffer: buffer(),
    }
}

#[test]
fn components_launch_in_order() {
    let runner = component("layer");
    assert_eq!(runner.dispatch_count(), 2);
    let run = runner.run_zeroed_push_constants(&vec![Ok(5), Ok(6)]).unwrap();
    assert_eq!(run.dispatch_count(), 2);
    assert_eq!(run.run_time_ns(), 11);
    assert_eq!(run.node_ids(), vec!["n0", "n1"]);
    assert_eq!(run.dispatch_runs[1].workgroup_count_x, 3);
    let lost = VulkanError("lost".to_string());
    assert!(runner
        .run_zeroed_push_constants(&vec![Ok(5), Err(lost.clone())])
        .is_err());
    assert!(runner
        .run_with_stream_control(&Err(lost), &vec![], &vec![])
        .is_err());
    assert_eq!(runner.completed_sequence_run().run_time_ns(), 0);
}

#[test]
fn graphs_run_their_components() {
    let graph = VulkanMountedPlacedResidentExecutionGraphRunner {
        device_id: "gpu0".to_string(),
        components: vec![component("one"), component("two")],
        total_descriptor_count: 0,
        total_push_constant_byte_count: 0,
    };
    assert_eq!(graph.component_count(), 2);
    assert_eq!(graph.dispatch_count(), 4);
    assert_eq!(graph.component_ids(), vec!["one", "two"]);
    let run = graph
        .run_zeroed_push_constants(&vec![vec![Ok(1), Ok(2)], vec![Ok(3), Ok(4)]])
        .unwrap();
    assert_eq!(run.component_runs[1].component_id, "two");
    assert_eq!(run.component_runs[1].run_time_ns(), 7);
}

#[test]
fn push_constants_are_measured() {
    let scalar = |scalar_type: &str| VulkanKernelScalarBinding {
        name: "value".to_string(),
        scalar_type: scalar_type.to_string(),
        source: VulkanKernelScalarSource::PushConstant,
    };
    assert_eq!(
        push_constant_byte_count(&vec![scalar("u32"), scalar("u64")]).unwrap(),
        12
    );
    assert!(push_constant_byte_count(&vec![scalar("f16")]).is_err());
}

fn projection() -> VulkanResidentBatchedOutputProjectionRunner {
    VulkanResidentBatchedOutputProjectionRunner {
        batch_capacity: 4,
        normalized_frames_buffer: buffer(),
        batched_logits_buffer: buffer(),
        norm_dispatch: kernel("norm"),
        projection_dispatch: kernel("projection"),
        sampler_views: (0..4)
            .map(|lane| VulkanResidentSamplerLogitsView {
                logits_byte_offset: lane * 16,
                dispatches: vec![],
            })
            .collect(),
    }
}

#[test]
fn projections_are_told_their_width() {
    let steps = projection().projection_steps(3).unwrap();
    assert_eq!(steps.len(), 2);
    assert_eq!(steps[0].dispatch.label, Some("norm".to_string()));
    assert_eq!(steps[1].push_constants, vec![3, 0, 0, 0]);
    assert!(projection().projection_steps(0).is_err());
    assert_eq!(
        projection().project(5, &Ok(())).unwrap_err(),
        VulkanResidentInProcessPlacedRuntimeError::BackendLoop(VulkanError(
            "batched output projection capacity 4 cannot process 5 frames".to_string()
        ))
    );
    assert!(projection()
        .project(2, &Err(VulkanError("lost".to_string())))
        .is_err());
}

#[test]
fn lanes_see_the_tokens_before_them() {
    let lanes = projection()
        .sampler_lanes(
            &vec![vec![1], vec![1, 2]],
            &vec![10, 11],
            &vec![64, 64],
        )
        .unwrap();
    assert_eq!(lanes.len(), 2);
    assert_eq!(lanes[1].token_prefix, vec![1, 2]);
    assert_eq!(lanes[1].stream_tick, 11);
    assert!(!lanes[0].signals_completion);
    assert!(lanes[1].signals_completion);
    projection()
        .sample_batch(&vec![1, 2], 10, 64, &vec![Ok(()), Ok(())], &Ok(()), &Ok(()))
        .unwrap();
    assert!(projection()
        .sample_batch(&vec![1, 2], u64::MAX, 64, &vec![Ok(()), Ok(())], &Ok(()), &Ok(()))
        .is_err());
}

#[test]
fn batches_flush_before_distributed_work() {
    let local = |step_start: usize, step_end: usize| {
        VulkanComponentBatchExecutionUnit::LocalComponent {
            component_id: "layer".to_string(),
            step_start,
            step_end,
        }
    };
    let runner = VulkanResidentComponentBatchSliceRunner {
        lane_capacity: 1,
        signal_buffers: vec![],
        signal_buffer_indices: OrderedMap::new(),
        stream_control_buffers: vec![buffer()],
        steps: vec![],
        execution_units: vec![
            local(0, 1),
            local(1, 2),
            VulkanComponentBatchExecutionUnit::DistributedDispatch { dispatch_index: 2 },
            local(2, 3),
        ],
        sequence_count: 3,
    };
    let segment = |sequence_index: usize, step_start: usize, flush_after_segment: bool| {
        VulkanComponentBatchAction::RunSegment {
            component_id: "layer".to_string(),
            sequence_index,
            step_start,
            step_end: step_start + 1,
            flush_after_segment,
        }
    };
    assert_eq!(
        runner.actions(),
        vec![
            segment(0, 0, false),
            segment(1, 1, true),
            VulkanComponentBatchAction::RunDistributed { dispatch_index: 2 },
            segment(2, 2, true),
        ]
    );
}

#[test]
fn batches_without_streams_are_refused() {
    assert_eq!(
        VulkanResidentPlacedMultiStreamBatchRunner::new(
            &VulkanDeviceDirectory {
                devices: vec![],
                noun: "device".to_string(),
                refusals: vec![],
            },
            &vec![],
            Ok(vec![0]),
            Err(VulkanResidentInProcessPlacedRuntimeError::StreamTickOverflow),
            &Ok(None),
            &Ok(()),
            vec![],
        )
        .err(),
        Some(VulkanResidentInProcessPlacedRuntimeError::ZeroTickBudget)
    );
}

fn batch_step(lane_index: Option<usize>, batch_control_byte_count: u32) -> VulkanComponentBatchDispatchStep {
    VulkanComponentBatchDispatchStep {
        dispatch: kernel("step"),
        batch_control_byte_count,
        push_constants: vec![VulkanKernelScalarBinding {
            name: "value".to_string(),
            scalar_type: "u32".to_string(),
            source: VulkanKernelScalarSource::PushConstant,
        }],
        lane_index,
        commits_state: false,
        snapshot_state_buffer_indices: OrderedSet::new(),
    }
}

#[test]
fn steps_are_told_where_their_lane_stands() {
    let runner = VulkanResidentComponentBatchSliceRunner {
        lane_capacity: 3,
        signal_buffers: vec![],
        signal_buffer_indices: OrderedMap::new(),
        stream_control_buffers: vec![buffer()],
        steps: vec![batch_step(None, 12), batch_step(Some(1), 0), batch_step(Some(2), 0)],
        execution_units: vec![],
        sequence_count: 0,
    };
    let control = runner.batch_control(2, 10, 64).unwrap();
    assert_eq!(
        control,
        VulkanComponentBatchControl {
            batch_width: 2,
            start_stream_tick: 10,
            dynamic_state_capacity_activations: 64,
        }
    );
    assert_eq!(
        runner.step_push_constant_request(0, control).unwrap(),
        Some(VulkanComponentBatchPushConstantRequest::BatchControl {
            byte_count: 12,
            control
        })
    );
    assert_eq!(
        runner.step_push_constant_request(1, control).unwrap(),
        Some(VulkanComponentBatchPushConstantRequest::StreamControl {
            push_constants: batch_step(None, 0).push_constants,
            control: VulkanMountedPlacedStreamControl {
                stream_tick: 11,
                control_flags: 0,
                dynamic_state_capacity_activations: 64,
            },
        })
    );
    assert_eq!(runner.step_push_constant_request(2, control).unwrap(), None);
    let late = runner.batch_control(2, u64::MAX, 64).unwrap();
    assert_eq!(
        runner.step_push_constant_request(1, late).unwrap_err(),
        VulkanResidentInProcessPlacedRuntimeError::StreamTickOverflow
    );
    assert_eq!(
        runner.batch_control(4, 10, 64).unwrap_err(),
        VulkanResidentInProcessPlacedRuntimeError::BackendLoop(VulkanError(
            "component batch tile width 3 cannot execute 4 lanes".to_string()
        ))
    );
}
