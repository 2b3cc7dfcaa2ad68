use nerve_runtime::device::VulkanError;
use nerve_runtime::device::VulkanResidentBuffer;
use nerve_runtime::device::VulkanResidentBufferName;
use nerve_runtime::device::VulkanResidentKernelDispatch;
use nerve_runtime::feedback_loop::VulkanResidentFeedbackLoopRunner;
use nerve_runtime::feedback_loop::VulkanResidentFeedbackLoopRunnerError;
use nerve_runtime::feedback_loop::VulkanResidentSamplerRun;
use nerve_runtime::feedback_loop::VulkanResidentSamplerRunner;
use nerve_runtime::feedback_loop::VulkanResidentSingleTokenTickRun;
use nerve_runtime::feedback_loop::VulkanResidentSingleTokenTickRunner;
use nerve_runtime::feedback_loop::VulkanResidentSingleTokenTickRunnerError;
use nerve_runtime::input_transducer::VulkanResidentInputEmbeddingTransducerRun;
use nerve_runtime::input_transducer::VulkanResidentInputEmbeddingTransducerRunner;
use nerve_runtime::output_transducer::VulkanResidentOutputTransducerRun;
use nerve_runtime::output_transducer::VulkanResidentOutputTransducerRunner;
use nerve_runtime::pedal_runner::VulkanMountedPlacedResidentPedalboardRun;
use nerve_runtime::pedal_runner::VulkanMountedPlacedResidentPedalboardRunner;
use nerve_runtime::prompt_event::VulkanResidentPromptEventInputRoute;
use nerve_runtime::prompt_event::VulkanResidentPromptEventRun;

fn buffer() -> VulkanResidentBuffer {
    VulkanResidentBuffer::in_device_memory(VulkanResidentBufferName::TokenIds, "gpu0", 16)
}

fn dispatch(label: &str) -> VulkanResidentKernelDispatch {
    VulkanResidentKernelDispatch {
        device_id: "gpu0".to_string(),
        spirv_words: vec![],
        bindings: vec![],
        workgroup_count_x: 1,
        workgroup_count_y: 1,
        base_workgroup_z: 0,
        local_size_x: 1,
        push_constant_byte_count: 0,
        label: Some(label.to_string()),
    }
}

fn board_run() -> VulkanMountedPlacedResidentPedalboardRun {
    VulkanMountedPlacedResidentPedalboardRun {
        device_id: "gpu0".to_string(),
        pedal_runs: vec![],
    }
}

fn output_run() -> VulkanResidentOutputTransducerRun {
    VulkanResidentOutputTransducerRun {
        transducer_id: "head".to_string(),
        input_signal_id: "hidden".to_string(),
        dispatch_count: 2,
        node_ids: vec![],
        descriptor_counts: vec![],
        workgroup_counts_x: vec![],
        push_constant_byte_counts: vec![],
        logits_byte_capacity: 16,
    }
}

fn tick_runner(dispatch_count: usize) -> VulkanResidentSingleTokenTickRunner {
    VulkanResidentSingleTokenTickRunner {
        device_id: "gpu0".to_string(),
        pedal_count: 0,
        dispatch_count,
        total_descriptor_count: 7,
        total_push_constant_byte_count: 0,
        input_transducer: VulkanResidentInputEmbeddingTransducerRunner {
            transducer_id: "embed".to_string(),
            parameter_tensor: "embed.weight".to_string(),
            output_signal_id: "hidden".to_string(),
            descriptor_count: 3,
            workgroup_count_x: 1,
            push_constant_byte_count: 0,
            stream_control_buffer: buffer(),
            resident_dispatch: dispatch("embed"),
        },
        pedalboard: VulkanMountedPlacedResidentPedalboardRunner {
            device_id: "gpu0".to_string(),
            pedals: vec![],
            total_descriptor_count: 0,
            total_push_constant_byte_count: 0,
        },
        output_transducer: VulkanResidentOutputTransducerRunner {
            transducer_id: "head".to_string(),
            input_signal_id: "hidden".to_string(),
            logits_byte_capacity: 16,
            dispatch_count: 2,
            total_descriptor_count: 4,
            total_push_constant_byte_count: 0,
            normalized_frame_buffer: buffer(),
            logits_buffer: buffer(),
            embedding_norm_dispatch: dispatch("norm"),
            tied_projection_dispatch: dispatch("projection"),
            node_ids: vec![],
        },
        completed_pedalboard_run: board_run(),
        completed_output_run: output_run(),
    }
}

fn sampler() -> VulkanResidentSamplerRunner {
    VulkanResidentSamplerRunner {
        sampler_id: "sampler".to_string(),
        dispatch_count: 1,
        descriptor_count: 2,
        push_constant_byte_count: 0,
        history_capacity_activations: 4,
        input_tracking_dispatches: vec![dispatch("tracking")],
        resident_dispatches: vec![dispatch("sample")],
    }
}

fn feedback_runner() -> VulkanResidentFeedbackLoopRunner {
    VulkanResidentFeedbackLoopRunner::new(tick_runner(3), sampler()).unwrap()
}

fn tick(
    token_id: u32,
) -> Result<VulkanResidentSingleTokenTickRun, VulkanResidentSingleTokenTickRunnerError> {
    Ok(VulkanResidentSingleTokenTickRun {
        device_id: "gpu0".to_string(),
        token_id,
        input_run: VulkanResidentInputEmbeddingTransducerRun {
            transducer_id: "embed".to_string(),
            token_id,
            output_signal_id: "hidden".to_string(),
            dispatch_count: 1,
            descriptor_count: 3,
            workgroup_count_x: 1,
            push_constant_byte_count: 0,
        },
        pedalboard_run: board_run(),
        output_run: None,
        dispatch_count: 3,
        total_descriptor_count: 7,
        total_push_constant_byte_count: 0,
        execution_time_ns: 1,
    })
}

fn sample(token_id: u32) -> VulkanResidentSamplerRun {
    VulkanResidentSamplerRun {
        sampler_id: "sampler".to_string(),
        token_id,
    }
}

fn prompt(
    prompt: &[u32],
    max_new_tokens: usize,
    eos: Option<u32>,
    sampled: &[u32],
) -> VulkanResidentPromptEventRun {
    let ticks = prompt.iter().chain(sampled).map(|id| tick(*id)).collect();
    let samples = sampled.iter().map(|id| Ok(sample(*id))).collect();
    feedback_runner()
        .run_prompt_event_bounded(&prompt.to_vec(), 10, max_new_tokens, eos, &ticks, &samples)
        .unwrap()
}

#[test]
fn loops_add_up_their_launches() {
    let runner = feedback_runner();
    assert_eq!(runner.per_tick_dispatch_count, 4);
    assert_eq!(runner.per_tick_descriptor_count, 9);
    assert_eq!(runner.per_tick_push_constant_byte_count, 0);
    assert!(matches!(
        VulkanResidentFeedbackLoopRunner::new(tick_runner(usize::MAX), sampler()),
        Err(VulkanResidentFeedbackLoopRunnerError::DispatchCountOverflow)
    ));
    let mut wide = tick_runner(3);
    wide.total_descriptor_count = usize::MAX;
    assert!(matches!(
        VulkanResidentFeedbackLoopRunner::new(wide, sampler()),
        Err(VulkanResidentFeedbackLoopRunnerError::DescriptorCountOverflow)
    ));
    let mut pushing = sampler();
    pushing.push_constant_byte_count = 4;
    let mut full = tick_runner(3);
    full.total_push_constant_byte_count = u32::MAX;
    assert!(matches!(
        VulkanResidentFeedbackLoopRunner::new(full, pushing),
        Err(VulkanResidentFeedbackLoopRunnerError::PushConstantByteCountOverflow)
    ));
}

#[test]
fn samples_are_the_next_inputs() {
    let run = feedback_runner()
        .run_bounded(
            7,
            100,
            3,
            &vec![tick(7), tick(8), tick(9)],
            &vec![Ok(sample(8)), Ok(sample(9)), Ok(sample(10))],
        )
        .unwrap();
    assert_eq!(run.initial_token_id, 7);
    assert_eq!(run.sampled_token_ids, vec![8, 9, 10]);
    let inputs: Vec<u32> = run.tick_runs.iter().map(|tick| tick.input_token_id).collect();
    assert_eq!(inputs, vec![7, 8, 9]);
    let ticks: Vec<u64> = run.tick_runs.iter().map(|tick| tick.stream_tick).collect();
    assert_eq!(ticks, vec![100, 101, 102]);
}

#[test]
fn loops_stop_at_the_first_failure() {
    let runner = feedback_runner();
    assert_eq!(
        runner.run_bounded(7, 0, 0, &vec![], &vec![]).unwrap_err(),
        VulkanResidentFeedbackLoopRunnerError::ZeroTickBudget
    );
    assert_eq!(
        runner
            .run_bounded(7, u64::MAX, 2, &vec![tick(7)], &vec![Ok(sample(8))])
            .unwrap_err(),
        VulkanResidentFeedbackLoopRunnerError::StreamTickOverflow
    );
    let lost = VulkanResidentSingleTokenTickRunnerError("lost".to_string());
    assert_eq!(
        runner
            .run_bounded(7, 0, 2, &vec![Err(lost.clone())], &vec![])
            .unwrap_err(),
        VulkanResidentFeedbackLoopRunnerError::Tick(lost)
    );
}

#[test]
fn ticks_after_the_first_take_resident_tokens() {
    let runner = feedback_runner();
    let first = runner.bounded_tick_input(7, 100, 64, 0, None).unwrap();
    assert_eq!(first.input_token_id, 7);
    assert!(!first.input_token_is_resident);
    let second = runner.bounded_tick_input(7, 100, 64, 1, Some(8)).unwrap();
    assert_eq!(second.input_token_id, 8);
    assert!(second.input_token_is_resident);
    assert_eq!(second.control.stream_tick, 101);
    assert_eq!(second.control.dynamic_state_capacity_activations, 64);
}

#[test]
fn cycles_record_every_tick() {
    let runner = feedback_runner();
    let steps = runner.cycle_steps(2, 4).unwrap();
    let request = runner.cycle_snapshot_request(2, 4).unwrap();
    assert_eq!(request.steps_per_tick, runner.per_tick_dispatch_count);
    assert_eq!(request.tick_count, 2);
    assert_eq!(
        VulkanResidentFeedbackLoopRunner::cycle_sample_tick(10, 1).unwrap(),
        11
    );
    assert!(VulkanResidentFeedbackLoopRunner::cycle_sample_tick(u64::MAX, 1).is_err());
    assert_eq!(steps.len(), 10);
    assert_eq!(
        runner.cycle_steps(5, 8).unwrap_err(),
        VulkanResidentFeedbackLoopRunnerError::FeedbackCycleWidthExceeded {
            requested: 5,
            snapshot_capacity: 8,
            sampler_history_capacity: 4
        }
    );
    assert_eq!(
        runner.cycle_steps(0, 8).unwrap_err(),
        VulkanResidentFeedbackLoopRunnerError::ZeroTickBudget
    );
    let run = runner
        .run_resident_feedback_cycle(
            7,
            20,
            2,
            4,
            &Ok(()),
            &Ok(9),
            &vec![Ok(sample(8)), Ok(sample(9))],
        )
        .unwrap();
    assert_eq!(run.sampled_token_ids, vec![8, 9]);
    assert_eq!(run.tick_runs[1].input_token_id, 8);
    assert_eq!(run.tick_runs[1].stream_tick, 21);
    assert_eq!(run.tick_runs[1].tick_run.execution_time_ns, 4);
    let lost = VulkanError("lost".to_string());
    assert_eq!(
        runner
            .run_resident_feedback_cycle(7, 20, 2, 4, &Err(lost.clone()), &Ok(9), &vec![])
            .unwrap_err(),
        VulkanResidentFeedbackLoopRunnerError::Vulkan(lost)
    );
}

#[test]
fn prompts_go_in_before_anything_comes_out() {
    let run = prompt(&[1, 2], 2, None, &[5, 6]);
    assert_eq!(run.generated_token_ids, vec![5, 6]);
    assert_eq!(run.output_token_ids, vec![1, 2, 5, 6]);
    assert_eq!(run.stop_reason, "max_new_tokens");
    let inputs: Vec<(u64, u32)> = run
        .tick_runs
        .iter()
        .map(|tick| (tick.stream_tick, tick.input_token_id))
        .collect();
    assert_eq!(inputs, vec![(10, 1), (11, 2), (12, 5), (13, 6)]);
    assert_eq!(
        run.tick_runs[1].input_route,
        VulkanResidentPromptEventInputRoute::ExternalInput
    );
    assert_eq!(run.tick_runs[0].public_output_token_id, None);
    assert_eq!(run.tick_runs[1].public_output_token_id, Some(5));
    assert_eq!(
        run.tick_runs[3].input_route,
        VulkanResidentPromptEventInputRoute::PrivateFeedback
    );
    assert_eq!(run.tick_runs[3].input_feedback_depth, 2);
    assert!(run.tick_runs[3].input_closes_loop_after_processing);
    assert_eq!(run.tick_runs[3].public_output_token_id, None);
}

#[test]
fn the_end_token_closes_the_loop() {
    let run = prompt(&[1], 8, Some(6), &[5, 6]);
    assert_eq!(run.generated_token_ids, vec![5, 6]);
    assert_eq!(run.stop_reason, "eos");
    assert_eq!(run.tick_runs.len(), 3);
    assert_eq!(run.tick_runs[2].input_token_id, 6);
}

#[test]
fn prompts_without_a_budget_only_go_in() {
    let run = prompt(&[1, 2, 3], 0, None, &[]);
    assert_eq!(run.output_token_ids, vec![1, 2, 3]);
    assert_eq!(run.stop_reason, "max_new_tokens");
    assert_eq!(run.tick_runs.len(), 3);
    assert_eq!(
        feedback_runner()
            .run_prompt_event_bounded(&vec![], 0, 1, None, &vec![], &vec![])
            .unwrap_err(),
        VulkanResidentFeedbackLoopRunnerError::EmptyPromptEvent
    );
}

#[test]
fn tokens_are_written_in_little_endian_order() {
    assert_eq!(
        tick_runner(3).input_transducer.token_bytes(0x0102_0304),
        vec![4, 3, 2, 1]
    );
}
