use nerve_runtime::batched_projection::consecutive_component_batch_stream_ticks;
use nerve_runtime::batched_projection::uniform_capacities;
use nerve_runtime::component_batch::kernels::component_batch_descriptors_commit_state;
use nerve_runtime::component_batch::kernels::select_component_batch_kernel_artifact;
use nerve_runtime::component_batch::kernels::select_component_batch_kernel_artifact_where;
use nerve_runtime::component_batch::kernels::RuntimeStreamActivationBatchKind;
use nerve_runtime::component_batch::kernels::VulkanComponentBatchExecutionMode;
use nerve_runtime::component_batch::kernels::VulkanComponentBatchModes;
use nerve_runtime::component_batch::kernels::VulkanResidentComponentBatchKernelArtifact;
use nerve_runtime::component_batch::kernels::VulkanResidentComponentKernelBatchMode;
use nerve_runtime::component_batch::signals::allocate_component_batch_signal_lifetimes;
use nerve_runtime::component_batch::signals::component_batch_signal_buffer_plan;
use nerve_runtime::component_batch::signals::VulkanComponentBatchSignalKey;
use nerve_runtime::component_batch::signals::VulkanComponentBatchSignalLifetime;
use nerve_runtime::component_batch::signals::VulkanComponentBatchSignalTarget;
use nerve_runtime::component_batch::units::component_batch_execution_units;
use nerve_runtime::component_batch::units::component_batch_execution_units_for_distributed_groups;
use nerve_runtime::component_batch::units::VulkanComponentBatchDispatchSpan;
use nerve_runtime::component_batch::units::VulkanComponentBatchExecutionUnit;
use nerve_runtime::device::VulkanResidentBuffer;
use nerve_runtime::device::VulkanResidentBufferName;
use nerve_runtime::dispatch_segment::submit_recorded_sequence;
use nerve_runtime::dispatch_segment::VulkanRecordedSequenceSubmission;
use nerve_runtime::in_process::compact_shared_stream_control;
use nerve_runtime::in_process::compact_shared_stream_control_write;
use nerve_runtime::in_process::compact_slice_submitted_wait;
use nerve_runtime::in_process::VulkanCompactSliceControl;
use nerve_runtime::in_process::VulkanCompactSliceWait;
use nerve_runtime::in_process::VulkanPlacedSubmissionPolicy;
use nerve_runtime::kernel_interface::VulkanKernelDescriptorUsage;
use nerve_runtime::ordered::OrderedSet;
use nerve_runtime::runtime_error::VulkanResidentInProcessPlacedRuntimeError;

fn activation(signal: &str) -> VulkanComponentBatchSignalKey {
    VulkanComponentBatchSignalKey::Activation {
        component_id: "layer".to_string(),
        signal_id: signal.to_string(),
    }
}

fn lifetime(
    signal: &str,
    bytes: usize,
    first_dispatch: usize,
    last_dispatch: usize,
) -> VulkanComponentBatchSignalLifetime {
    VulkanComponentBatchSignalLifetime {
        key: activation(signal),
        frame_byte_capacity: bytes,
        host_visible: false,
        first_dispatch,
        last_dispatch,
    }
}

#[test]
fn buffers_are_shared_by_signals_that_do_not_overlap() {
    let plan = allocate_component_batch_signal_lifetimes(vec![
        lifetime("c", 16, 3, 4),
        lifetime("a", 16, 0, 1),
        lifetime("b", 16, 1, 2),
        lifetime("d", 32, 3, 3),
    ]);
    assert_eq!(plan.buffers.len(), 3);
    let index = |signal: &str| *plan.signal_buffer_indices.get(&activation(signal)).unwrap();
    assert_eq!(index("a"), 0);
    assert_eq!(index("b"), 1);
    assert_eq!(index("d"), 2);
    assert_eq!(index("c"), 0);
    assert_eq!(plan.buffers[0].last_dispatch, 4);
}

#[test]
fn the_order_of_lifetimes_is_of_no_matter_and_no_buffer_is_wasted() {
    let given = vec![
        lifetime("a", 16, 0, 3),
        lifetime("b", 16, 1, 1),
        lifetime("c", 16, 2, 5),
        lifetime("d", 16, 4, 6),
        lifetime("e", 8, 0, 9),
    ];
    let mut turned = given.clone();
    turned.reverse();
    turned.swap(0, 2);
    let plan = allocate_component_batch_signal_lifetimes(given);
    let other = allocate_component_batch_signal_lifetimes(turned);
    assert_eq!(plan.buffers, other.buffers);
    assert_eq!(plan.signal_buffer_indices, other.signal_buffer_indices);
    // At most two signals of 16 bytes live at once, and one of 8.
    assert_eq!(plan.buffers.len(), 3);
}

#[test]
fn signals_live_from_their_first_use_to_their_last() {
    let target = |key: VulkanComponentBatchSignalKey| {
        Ok(Some(VulkanComponentBatchSignalTarget {
            key,
            frame_byte_capacity: 8,
        }))
    };
    let plan = component_batch_signal_buffer_plan(&vec![
        vec![
            target(VulkanComponentBatchSignalKey::ModelInput("in".to_string())),
            target(activation("x")),
        ],
        vec![target(activation("x")), target(activation("y"))],
        vec![
            target(activation("y")),
            target(VulkanComponentBatchSignalKey::OutgoingEdge(3)),
            Ok(None),
        ],
    ])
    .unwrap();
    let index = |key: &VulkanComponentBatchSignalKey| *plan.signal_buffer_indices.get(key).unwrap();
    assert_eq!(
        index(&VulkanComponentBatchSignalKey::ModelInput("in".to_string())),
        index(&activation("y"))
    );
    assert_ne!(index(&activation("x")), index(&activation("y")));
    let edge = index(&VulkanComponentBatchSignalKey::OutgoingEdge(3));
    assert!(plan.buffers[edge].host_visible);
    assert_eq!(plan.buffers.len(), 3);
}

#[test]
fn signals_with_two_sizes_are_refused() {
    let target = |bytes: usize| {
        Ok(Some(VulkanComponentBatchSignalTarget {
            key: activation("x"),
            frame_byte_capacity: bytes,
        }))
    };
    assert!(component_batch_signal_buffer_plan(&vec![vec![target(8), target(16)]]).is_err());
    let refused: Result<
        Option<VulkanComponentBatchSignalTarget>,
        VulkanResidentInProcessPlacedRuntimeError,
    > = Err(VulkanResidentInProcessPlacedRuntimeError::ZeroTickBudget);
    assert!(component_batch_signal_buffer_plan(&vec![vec![refused]]).is_err());
}

fn artifact(
    tile: usize,
    batch_mode: VulkanResidentComponentKernelBatchMode,
) -> VulkanResidentComponentBatchKernelArtifact {
    let both = VulkanComponentBatchModes {
        independent_candidates: true,
        causal_sequence: true,
    };
    VulkanResidentComponentBatchKernelArtifact {
        component_id: "layer".to_string(),
        node_id: "node".to_string(),
        batch_mode,
        lane_tile_width: tile,
        execution_domain: both,
        exact_modes: both,
        stages: vec![],
    }
}

#[test]
fn kernels_are_selected_by_their_width() {
    let shared = VulkanResidentComponentKernelBatchMode::WeightShared;
    let scan = VulkanResidentComponentKernelBatchMode::CausalScan;
    let artifacts = vec![
        artifact(2, shared),
        artifact(8, shared),
        artifact(16, shared),
        artifact(64, scan),
    ];
    let selected = |mode: VulkanComponentBatchExecutionMode, lanes: usize| {
        select_component_batch_kernel_artifact(&artifacts, "layer", "node", mode, lanes)
            .map(|artifact| artifact.lane_tile_width)
    };
    let independent = VulkanComponentBatchExecutionMode::IndependentCandidates;
    let causal = VulkanComponentBatchExecutionMode::CausalSequence;
    assert_eq!(selected(independent, 4), Some(8));
    assert_eq!(selected(independent, 16), Some(16));
    assert_eq!(selected(independent, 32), Some(16));
    assert_eq!(selected(causal, 4), Some(64));
    assert_eq!(
        select_component_batch_kernel_artifact(&artifacts, "layer", "other", causal, 4),
        None
    );
    assert_eq!(
        select_component_batch_kernel_artifact_where(
            &artifacts,
            "layer",
            "node",
            causal,
            4,
            &vec![true, true, false, false]
        )
        .map(|artifact| artifact.lane_tile_width),
        Some(8)
    );
}

#[test]
fn modes_follow_the_kind_of_batch() {
    assert_eq!(
        VulkanComponentBatchExecutionMode::from_runtime_activation_batch_kind(
            &RuntimeStreamActivationBatchKind::PrefillChunk
        ),
        VulkanComponentBatchExecutionMode::CausalSequence
    );
    assert!(component_batch_descriptors_commit_state(&vec![
        VulkanKernelDescriptorUsage::InputSignal,
        VulkanKernelDescriptorUsage::StateWrite
    ]));
    assert!(!component_batch_descriptors_commit_state(&vec![
        VulkanKernelDescriptorUsage::InputSignal
    ]));
}

fn span(
    component: &str,
    dispatch_index: usize,
    step_start: usize,
    step_end: usize,
    distributed: bool,
) -> VulkanComponentBatchDispatchSpan {
    VulkanComponentBatchDispatchSpan {
        component_id: component.to_string(),
        dispatch_index,
        step_start,
        step_end,
        distributed,
    }
}

#[test]
fn steps_are_cut_at_components_and_distributed_dispatches() {
    let spans = vec![
        span("a", 0, 0, 1, false),
        span("a", 1, 1, 3, false),
        span("a", 2, 3, 3, true),
        span("a", 3, 3, 3, true),
        span("a", 4, 3, 4, false),
        span("b", 5, 4, 5, false),
    ];
    let local = |id: &str, step_start: usize, step_end: usize| {
        VulkanComponentBatchExecutionUnit::LocalComponent {
            component_id: id.to_string(),
            step_start,
            step_end,
        }
    };
    let far =
        |dispatch_index: usize| VulkanComponentBatchExecutionUnit::DistributedDispatch {
            dispatch_index,
        };
    assert_eq!(
        component_batch_execution_units(&spans).unwrap(),
        vec![local("a", 0, 3), far(2), far(3), local("a", 3, 4), local("b", 4, 5)]
    );
    let mut leaders: OrderedSet<usize> = OrderedSet::new();
    leaders.insert(2);
    assert_eq!(
        component_batch_execution_units_for_distributed_groups(&spans, &leaders).unwrap(),
        vec![local("a", 0, 3), far(2), local("a", 3, 4), local("b", 4, 5)]
    );
    assert!(component_batch_execution_units(&vec![span("a", 0, 2, 1, false)]).is_err());
    assert!(component_batch_execution_units(&vec![span("a", 0, 1, 2, false)]).is_err());
}

#[test]
fn batch_ticks_are_consecutive() {
    assert_eq!(
        consecutive_component_batch_stream_ticks(7, 3).unwrap(),
        vec![7, 8, 9]
    );
    assert!(consecutive_component_batch_stream_ticks(u64::MAX, 2).is_err());
    assert_eq!(uniform_capacities(4, 2), vec![4, 4]);
}

#[test]
fn submitted_work_is_waited_for_once() {
    assert_eq!(
        compact_slice_submitted_wait(false, Some(3), true),
        VulkanCompactSliceWait::Nothing
    );
    assert_eq!(
        compact_slice_submitted_wait(true, Some(3), true),
        VulkanCompactSliceWait::DistributedDispatch { dispatch_index: 3 }
    );
    assert_eq!(
        compact_slice_submitted_wait(true, None, true),
        VulkanCompactSliceWait::LastSegment
    );
    assert_eq!(
        compact_slice_submitted_wait(true, None, false),
        VulkanCompactSliceWait::Nothing
    );
    let policy = VulkanPlacedSubmissionPolicy::synchronous();
    assert!(policy.write_stream_control && policy.signal_completion);
    assert!(policy.wait_for_completion && policy.feedback_lane.is_none());
}

#[test]
fn recorded_sequences_are_handed_over() {
    assert_eq!(
        submit_recorded_sequence(true, true),
        VulkanRecordedSequenceSubmission::Enqueued
    );
    assert_eq!(
        submit_recorded_sequence(false, true),
        VulkanRecordedSequenceSubmission::Fenced
    );
    assert_eq!(
        submit_recorded_sequence(false, false),
        VulkanRecordedSequenceSubmission::Unfenced
    );
}

fn slice(tick: u64, capacity: usize) -> VulkanCompactSliceControl {
    VulkanCompactSliceControl {
        capture_execution_trace: false,
        stream_tick: tick,
        dynamic_state_capacity_activations: capacity,
        buffer_id: 1,
        stream_control_buffer: VulkanResidentBuffer::persistently_mapped(VulkanResidentBufferName::LaneControl(0), "gpu0", 16),
    }
}

#[test]
fn slices_share_one_tick() {
    let control = compact_shared_stream_control(&vec![slice(5, 8), slice(5, 8)])
        .unwrap()
        .unwrap();
    assert_eq!(control.stream_tick, 5);
    assert_eq!(control.dynamic_state_capacity_activations, 8);
    assert!(compact_shared_stream_control(&vec![slice(5, 8), slice(6, 8)]).is_err());
}

#[test]
fn the_shared_control_is_written_behind_the_token() {
    let write = compact_shared_stream_control_write(&vec![slice(5, 8), slice(5, 8)])
        .unwrap()
        .unwrap();
    assert_eq!(write.buffer, slice(5, 8).stream_control_buffer);
    assert_eq!(write.byte_offset, 4);
    assert_eq!(write.control.stream_tick, 5);
    assert_eq!(write.control.control_flags, 0);
    let mut traced = slice(5, 8);
    traced.capture_execution_trace = true;
    assert_eq!(
        compact_shared_stream_control_write(&vec![traced]).unwrap(),
        None
    );
    assert!(compact_shared_stream_control_write(&vec![slice(5, 8), slice(6, 8)]).is_err());
}
