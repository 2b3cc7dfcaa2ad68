//! A prompt event: a prompt goes through the model, and what is sampled after it is fed back until
//! an end token is sampled or the budget is spent.

use crate::feedback_loop::VulkanResidentFeedbackLoopRunner;
use crate::feedback_loop::VulkanResidentFeedbackLoopRunnerError;
use crate::feedback_loop::VulkanResidentFeedbackLoopRunnerErrorView;
use crate::feedback_loop::VulkanResidentFeedbackLoopRunnerView;
use crate::feedback_loop::VulkanResidentSamplerRun;
use crate::feedback_loop::VulkanResidentSamplerRunView;
use crate::feedback_loop::VulkanResidentSingleTokenTickRun;
use crate::feedback_loop::VulkanResidentSingleTokenTickRunView;
use crate::feedback_loop::VulkanResidentSingleTokenTickRunnerError;
use crate::runtime_error::VulkanResidentSamplerRunnerError;
use crate::sequence;
use vstd::prelude::*;

verus! {

/// Where a token came from.
#[derive(Clone, Copy, Debug, PartialEq, Eq, Structural)]
pub enum VulkanResidentPromptEventInputRoute {
    ExternalInput,
    PrivateFeedback,
}

impl DeepView for VulkanResidentPromptEventInputRoute {
    type V = VulkanResidentPromptEventInputRoute;

    open spec fn deep_view(&self) -> VulkanResidentPromptEventInputRoute {
        *self
    }
}

/// A sampled token that waits to be fed back.
#[derive(Clone, Copy, Debug, PartialEq, Eq, Structural)]
pub struct VulkanResidentPendingPrivateFeedback {
    pub token_id: u32,
    pub feedback_depth: u32,
    pub closes_loop_after_processing: bool,
}

impl DeepView for VulkanResidentPendingPrivateFeedback {
    type V = VulkanResidentPendingPrivateFeedback;

    open spec fn deep_view(&self) -> VulkanResidentPendingPrivateFeedback {
        *self
    }
}

/// A tick of a prompt event.
#[derive(Debug, PartialEq, Eq)]
pub struct VulkanResidentPromptEventTickRun {
    pub stream_tick: u64,
    pub input_token_id: u32,
    pub input_route: VulkanResidentPromptEventInputRoute,
    pub input_feedback_depth: u32,
    pub input_closes_loop_after_processing: bool,
    pub public_output_token_id: Option<u32>,
    pub private_feedback_token_id: Option<u32>,
    pub private_feedback_closes_loop_after_processing: Option<bool>,
    pub tick_run: VulkanResidentSingleTokenTickRun,
    pub sampler_run: Option<VulkanResidentSamplerRun>,
}

#[verifier::ext_equal]
pub struct VulkanResidentPromptEventTickRunView {
    pub stream_tick: u64,
    pub input_token_id: u32,
    pub input_route: VulkanResidentPromptEventInputRoute,
    pub input_feedback_depth: u32,
    pub input_closes_loop_after_processing: bool,
    pub public_output_token_id: Option<u32>,
    pub private_feedback_token_id: Option<u32>,
    pub private_feedback_closes_loop_after_processing: Option<bool>,
    pub tick_run: VulkanResidentSingleTokenTickRunView,
    pub sampler_run: Option<VulkanResidentSamplerRunView>,
}

impl DeepView for VulkanResidentPromptEventTickRun {
    type V = VulkanResidentPromptEventTickRunView;

    open spec fn deep_view(&self) -> VulkanResidentPromptEventTickRunView {
        VulkanResidentPromptEventTickRunView {
            stream_tick: self.stream_tick,
            input_token_id: self.input_token_id,
            input_route: self.input_route,
            input_feedback_depth: self.input_feedback_depth,
            input_closes_loop_after_processing: self.input_closes_loop_after_processing,
            public_output_token_id: self.public_output_token_id,
            private_feedback_token_id: self.private_feedback_token_id,
            private_feedback_closes_loop_after_processing: self.private_feedback_closes_loop_after_processing,
            tick_run: self.tick_run.deep_view(),
            sampler_run: self.sampler_run.deep_view(),
        }
    }
}

impl View for VulkanResidentPromptEventTickRun {
    type V = VulkanResidentPromptEventTickRunView;

    open spec fn view(&self) -> VulkanResidentPromptEventTickRunView {
        self.deep_view()
    }
}

impl Clone for VulkanResidentPromptEventTickRun {
    fn clone(&self) -> (r: Self)
        ensures
            r@ == self@,
    {
        VulkanResidentPromptEventTickRun {
            stream_tick: self.stream_tick,
            input_token_id: self.input_token_id,
            input_route: self.input_route,
            input_feedback_depth: self.input_feedback_depth,
            input_closes_loop_after_processing: self.input_closes_loop_after_processing,
            public_output_token_id: self.public_output_token_id.clone(),
            private_feedback_token_id: self.private_feedback_token_id.clone(),
            private_feedback_closes_loop_after_processing: self.private_feedback_closes_loop_after_processing.clone(),
            tick_run: self.tick_run.clone(),
            sampler_run: self.sampler_run.clone(),
        }
    }
}

/// A prompt event that has run.
#[derive(Debug, PartialEq, Eq)]
pub struct VulkanResidentPromptEventRun {
    pub device_id: String,
    pub prompt_token_ids: Vec<u32>,
    pub generated_token_ids: Vec<u32>,
    pub output_token_ids: Vec<u32>,
    pub stop_reason: String,
    pub tick_runs: Vec<VulkanResidentPromptEventTickRun>,
    pub per_tick_dispatch_count: usize,
    pub per_tick_descriptor_count: usize,
    pub per_tick_push_constant_byte_count: u32,
}

#[verifier::ext_equal]
pub struct VulkanResidentPromptEventRunView {
    pub device_id: Seq<char>,
    pub prompt_token_ids: Seq<u32>,
    pub generated_token_ids: Seq<u32>,
    pub output_token_ids: Seq<u32>,
    pub stop_reason: Seq<char>,
    pub tick_runs: Seq<VulkanResidentPromptEventTickRunView>,
    pub per_tick_dispatch_count: usize,
    pub per_tick_descriptor_count: usize,
    pub per_tick_push_constant_byte_count: u32,
}

impl DeepView for VulkanResidentPromptEventRun {
    type V = VulkanResidentPromptEventRunView;

    open spec fn deep_view(&self) -> VulkanResidentPromptEventRunView {
        VulkanResidentPromptEventRunView {
            device_id: self.device_id.deep_view(),
            prompt_token_ids: self.prompt_token_ids.deep_view(),
            generated_token_ids: self.generated_token_ids.deep_view(),
            output_token_ids: self.output_token_ids.deep_view(),
            stop_reason: self.stop_reason.deep_view(),
            tick_runs: self.tick_runs.deep_view(),
            per_tick_dispatch_count: self.per_tick_dispatch_count,
            per_tick_descriptor_count: self.per_tick_descriptor_count,
            per_tick_push_constant_byte_count: self.per_tick_push_constant_byte_count,
        }
    }
}

impl View for VulkanResidentPromptEventRun {
    type V = VulkanResidentPromptEventRunView;

    open spec fn view(&self) -> VulkanResidentPromptEventRunView {
        self.deep_view()
    }
}

impl Clone for VulkanResidentPromptEventRun {
    fn clone(&self) -> (r: Self)
        ensures
            r@ == self@,
    {
        VulkanResidentPromptEventRun {
            device_id: self.device_id.clone(),
            prompt_token_ids: self.prompt_token_ids.clone(),
            generated_token_ids: self.generated_token_ids.clone(),
            output_token_ids: self.output_token_ids.clone(),
            stop_reason: self.stop_reason.clone(),
            tick_runs: self.tick_runs.clone(),
            per_tick_dispatch_count: self.per_tick_dispatch_count,
            per_tick_descriptor_count: self.per_tick_descriptor_count,
            per_tick_push_constant_byte_count: self.per_tick_push_constant_byte_count,
        }
    }
}

/// The next tick of a prompt event: the token and where it came from, where the stream stands, and
/// whether the tick samples.
#[derive(Clone, Copy, Debug, PartialEq, Eq, Structural)]
pub struct VulkanResidentPromptEventTick {
    pub stream_tick: u64,
    pub input_token_id: u32,
    pub input_route: VulkanResidentPromptEventInputRoute,
    pub input_feedback_depth: u32,
    pub input_closes_loop: bool,
    pub emit_output: bool,
}

impl DeepView for VulkanResidentPromptEventTick {
    type V = VulkanResidentPromptEventTick;

    open spec fn deep_view(&self) -> VulkanResidentPromptEventTick {
        *self
    }
}

/// A prompt event that is running.
#[derive(Debug, PartialEq, Eq)]
pub struct VulkanResidentPromptEvent {
    pub prompt_token_ids: Vec<u32>,
    pub start_stream_tick: u64,
    pub max_new_tokens: usize,
    pub eos_token_id: Option<u32>,
    pub external_input_index: usize,
    pub pending_feedback: Option<VulkanResidentPendingPrivateFeedback>,
    pub tick_runs: Vec<VulkanResidentPromptEventTickRun>,
    pub generated_token_ids: Vec<u32>,
    pub remaining_public_outputs: usize,
    pub stop_reason: Option<String>,
}

#[verifier::ext_equal]
pub struct VulkanResidentPromptEventView {
    pub prompt_token_ids: Seq<u32>,
    pub start_stream_tick: u64,
    pub max_new_tokens: usize,
    pub eos_token_id: Option<u32>,
    pub external_input_index: usize,
    pub pending_feedback: Option<VulkanResidentPendingPrivateFeedback>,
    pub tick_runs: Seq<VulkanResidentPromptEventTickRunView>,
    pub generated_token_ids: Seq<u32>,
    pub remaining_public_outputs: usize,
    pub stop_reason: Option<Seq<char>>,
}

impl DeepView for VulkanResidentPromptEvent {
    type V = VulkanResidentPromptEventView;

    open spec fn deep_view(&self) -> VulkanResidentPromptEventView {
        VulkanResidentPromptEventView {
            prompt_token_ids: self.prompt_token_ids.deep_view(),
            start_stream_tick: self.start_stream_tick,
            max_new_tokens: self.max_new_tokens,
            eos_token_id: self.eos_token_id,
            external_input_index: self.external_input_index,
            pending_feedback: self.pending_feedback,
            tick_runs: self.tick_runs.deep_view(),
            generated_token_ids: self.generated_token_ids.deep_view(),
            remaining_public_outputs: self.remaining_public_outputs,
            stop_reason: self.stop_reason.deep_view(),
        }
    }
}

impl View for VulkanResidentPromptEvent {
    type V = VulkanResidentPromptEventView;

    open spec fn view(&self) -> VulkanResidentPromptEventView {
        self.deep_view()
    }
}

/// The tokens that go through the model: the prompt, then what was generated.
pub open spec fn inputs(event: VulkanResidentPromptEventView) -> Seq<u32> {
    event.prompt_token_ids + event.generated_token_ids
}

/// Whether the last generated token is the end token.
pub open spec fn at_end_token(event: VulkanResidentPromptEventView) -> bool {
    event.generated_token_ids.len() > 0 && event.eos_token_id == Some(
        event.generated_token_ids.last(),
    )
}

/// Whether nothing is left to go through the model.
pub open spec fn is_finished(event: VulkanResidentPromptEventView) -> bool {
    event.external_input_index >= event.prompt_token_ids.len() && event.pending_feedback is None
}

/// What holds of every prompt event that is running.
pub open spec fn running(event: VulkanResidentPromptEventView) -> bool {
    &&& event.external_input_index <= event.prompt_token_ids.len()
    &&& event.generated_token_ids.len() <= event.max_new_tokens
    &&& event.remaining_public_outputs == (if at_end_token(event) {
        0
    } else {
        event.max_new_tokens - event.generated_token_ids.len()
    })
    &&& event.stop_reason == (if at_end_token(event) {
        Some("eos"@)
    } else if event.remaining_public_outputs == 0 {
        Some("max_new_tokens"@)
    } else {
        None
    })
    &&& forall|k: int|
        0 <= k < event.generated_token_ids.len() - 1 ==> event.eos_token_id != Some(
            #[trigger] event.generated_token_ids[k],
        )
    &&& event.external_input_index < event.prompt_token_ids.len()
        ==> event.generated_token_ids.len() == 0 && event.pending_feedback is None
    &&& event.pending_feedback matches Some(feedback) ==> {
        &&& event.generated_token_ids.len() > 0
        &&& feedback.token_id == event.generated_token_ids.last()
        &&& feedback.feedback_depth == event.generated_token_ids.len()
        &&& feedback.closes_loop_after_processing == (event.remaining_public_outputs == 0)
    }
    &&& event.external_input_index == event.prompt_token_ids.len() && event.pending_feedback is None
        ==> event.remaining_public_outputs == 0
    &&& event.tick_runs.len() == event.external_input_index + event.generated_token_ids.len() - (if
    event.pending_feedback is Some {
        1int
    } else {
        0int
    })
    &&& 0 < event.prompt_token_ids.len() <= usize::MAX
    &&& forall|i: int|
        0 <= i < event.tick_runs.len() ==> ran_in_order(event, i, #[trigger] event.tick_runs[i])
}

/// Whether `run` is tick `i` of an event: the stream moves by one with each tick, the prompt comes
/// from outside and goes first, and each generated token is fed back one level deeper.
pub open spec fn ran_in_order(
    event: VulkanResidentPromptEventView,
    i: int,
    run: VulkanResidentPromptEventTickRunView,
) -> bool {
    let prompt = event.prompt_token_ids.len();
    let sampled = i + 1 - prompt;
    &&& run.stream_tick == event.start_stream_tick + i
    &&& run.input_token_id == inputs(event)[i]
    &&& run.input_route == (if i < prompt {
        VulkanResidentPromptEventInputRoute::ExternalInput
    } else {
        VulkanResidentPromptEventInputRoute::PrivateFeedback
    })
    &&& run.input_feedback_depth == (if i < prompt {
        0
    } else {
        i - prompt + 1
    })
    &&& run.public_output_token_id == (if 0 <= sampled < event.generated_token_ids.len() {
        Some(event.generated_token_ids[sampled])
    } else {
        None
    })
    &&& run.private_feedback_token_id == run.public_output_token_id
}

/// How many ticks a prompt event can still take.
pub open spec fn ticks_left(event: VulkanResidentPromptEventView) -> nat {
    (event.prompt_token_ids.len() - event.external_input_index + event.remaining_public_outputs
        + (if event.pending_feedback is Some {
        1int
    } else {
        0int
    })) as nat
}

/// A prompt event that is about to run.
pub open spec fn started(
    prompt_token_ids: Seq<u32>,
    start_stream_tick: u64,
    max_new_tokens: usize,
    eos_token_id: Option<u32>,
) -> Result<VulkanResidentPromptEventView, VulkanResidentFeedbackLoopRunnerErrorView> {
    if prompt_token_ids.len() == 0 {
        Err(VulkanResidentFeedbackLoopRunnerErrorView::EmptyPromptEvent)
    } else {
        Ok(
            VulkanResidentPromptEventView {
                prompt_token_ids,
                start_stream_tick,
                max_new_tokens,
                eos_token_id,
                external_input_index: 0,
                pending_feedback: None,
                tick_runs: Seq::empty(),
                generated_token_ids: Seq::empty(),
                remaining_public_outputs: max_new_tokens,
                stop_reason: if max_new_tokens == 0 {
                    Some("max_new_tokens"@)
                } else {
                    None
                },
            },
        )
    }
}

/// The next tick of a prompt event, if anything is left to go through the model. A tick samples
/// where the budget is not spent and no more of the prompt follows.
pub open spec fn next_tick(event: VulkanResidentPromptEventView) -> Result<
    Option<VulkanResidentPromptEventTick>,
    VulkanResidentFeedbackLoopRunnerErrorView,
> {
    if is_finished(event) {
        Ok(None)
    } else if event.start_stream_tick + event.tick_runs.len() > u64::MAX {
        Err(VulkanResidentFeedbackLoopRunnerErrorView::StreamTickOverflow)
    } else {
        let stream_tick = (event.start_stream_tick + event.tick_runs.len()) as u64;
        if event.external_input_index < event.prompt_token_ids.len() {
            Ok(
                Some(
                    VulkanResidentPromptEventTick {
                        stream_tick,
                        input_token_id: event.prompt_token_ids[event.external_input_index as int],
                        input_route: VulkanResidentPromptEventInputRoute::ExternalInput,
                        input_feedback_depth: 0,
                        input_closes_loop: false,
                        emit_output: event.remaining_public_outputs > 0
                            && event.external_input_index + 1 == event.prompt_token_ids.len(),
                    },
                ),
            )
        } else {
            Ok(
                Some(
                    VulkanResidentPromptEventTick {
                        stream_tick,
                        input_token_id: event.pending_feedback->Some_0.token_id,
                        input_route: VulkanResidentPromptEventInputRoute::PrivateFeedback,
                        input_feedback_depth: event.pending_feedback->Some_0.feedback_depth,
                        input_closes_loop:
                            event.pending_feedback->Some_0.closes_loop_after_processing,
                        emit_output: event.remaining_public_outputs > 0,
                    },
                ),
            )
        }
    }
}

/// Whether a sampled token is the last one: it is the end token, or it spends the budget.
pub open spec fn is_last(event: VulkanResidentPromptEventView, token_id: u32) -> bool {
    event.eos_token_id == Some(token_id) || event.remaining_public_outputs == 1
}

/// The record of a tick.
pub open spec fn tick_record(
    event: VulkanResidentPromptEventView,
    tick: VulkanResidentPromptEventTick,
    tick_run: VulkanResidentSingleTokenTickRunView,
    sampler_run: Option<VulkanResidentSamplerRunView>,
) -> VulkanResidentPromptEventTickRunView {
    let sampled = match sampler_run {
        Some(run) => Some(run.token_id),
        None => None,
    };
    VulkanResidentPromptEventTickRunView {
        stream_tick: tick.stream_tick,
        input_token_id: tick.input_token_id,
        input_route: tick.input_route,
        input_feedback_depth: tick.input_feedback_depth,
        input_closes_loop_after_processing: tick.input_closes_loop,
        public_output_token_id: sampled,
        private_feedback_token_id: sampled,
        private_feedback_closes_loop_after_processing: match sampled {
            Some(token_id) => Some(is_last(event, token_id)),
            None => None,
        },
        tick_run,
        sampler_run,
    }
}

/// The prompt event after a tick, which sampled `sampler_run` where it samples at all.
pub open spec fn after_tick(
    event: VulkanResidentPromptEventView,
    tick: VulkanResidentPromptEventTick,
    tick_run: VulkanResidentSingleTokenTickRunView,
    sampler_run: Option<VulkanResidentSamplerRunView>,
) -> Result<VulkanResidentPromptEventView, VulkanResidentFeedbackLoopRunnerErrorView> {
    let external_input_index = if tick.input_route
        == VulkanResidentPromptEventInputRoute::ExternalInput {
        (event.external_input_index + 1) as usize
    } else {
        event.external_input_index
    };
    let tick_runs = event.tick_runs.push(tick_record(event, tick, tick_run, sampler_run));
    match sampler_run {
        None => Ok(
            VulkanResidentPromptEventView {
                external_input_index,
                tick_runs,
                pending_feedback: None,
                ..event
            },
        ),
        Some(run) => if tick.input_feedback_depth == u32::MAX {
            Err(VulkanResidentFeedbackLoopRunnerErrorView::FeedbackDepthOverflow)
        } else {
            let last = is_last(event, run.token_id);
            Ok(
                VulkanResidentPromptEventView {
                    external_input_index,
                    tick_runs,
                    pending_feedback: if tick.input_closes_loop {
                        None
                    } else {
                        Some(
                            VulkanResidentPendingPrivateFeedback {
                                token_id: run.token_id,
                                feedback_depth: (tick.input_feedback_depth + 1) as u32,
                                closes_loop_after_processing: last,
                            },
                        )
                    },
                    generated_token_ids: event.generated_token_ids.push(run.token_id),
                    remaining_public_outputs: if last {
                        0
                    } else {
                        (event.remaining_public_outputs - 1) as usize
                    },
                    stop_reason: if event.eos_token_id == Some(run.token_id) {
                        Some("eos"@)
                    } else if last {
                        Some("max_new_tokens"@)
                    } else {
                        event.stop_reason
                    },
                    ..event
                },
            )
        },
    }
}

/// What came of the ticks and of the samples, in the order in which they were asked for.
pub type TickAnswers = Seq<Result<VulkanResidentSingleTokenTickRunView, Seq<char>>>;

/// What came of the samples, in the order in which they were asked for.
pub type SamplerAnswers = Seq<Result<VulkanResidentSamplerRunView, Seq<char>>>;

/// A prompt event after one more tick; one that is finished stays as it is.
pub open spec fn ticked(
    event: VulkanResidentPromptEventView,
    ticks: TickAnswers,
    samples: SamplerAnswers,
) -> Result<VulkanResidentPromptEventView, VulkanResidentFeedbackLoopRunnerErrorView> {
    match next_tick(event) {
        Err(error) => Err(error),
        Ok(None) => Ok(event),
        Ok(Some(tick)) => match ticks[event.tick_runs.len() as int] {
            Err(error) => Err(VulkanResidentFeedbackLoopRunnerErrorView::Tick(error)),
            Ok(tick_run) => if tick.emit_output {
                match samples[event.generated_token_ids.len() as int] {
                    Err(error) => Err(VulkanResidentFeedbackLoopRunnerErrorView::Sampler(error)),
                    Ok(sampler_run) => after_tick(event, tick, tick_run, Some(sampler_run)),
                }
            } else {
                after_tick(event, tick, tick_run, None)
            },
        },
    }
}

/// A prompt event after `n` ticks.
pub open spec fn after_ticks(
    event: VulkanResidentPromptEventView,
    ticks: TickAnswers,
    samples: SamplerAnswers,
    n: nat,
) -> Result<VulkanResidentPromptEventView, VulkanResidentFeedbackLoopRunnerErrorView>
    decreases n,
{
    if n == 0 {
        Ok(event)
    } else {
        match after_ticks(event, ticks, samples, (n - 1) as nat) {
            Err(error) => Err(error),
            Ok(before) => ticked(before, ticks, samples),
        }
    }
}

/// A prompt event that has run.
pub open spec fn finished(
    event: VulkanResidentPromptEventView,
    runner: VulkanResidentFeedbackLoopRunnerView,
) -> VulkanResidentPromptEventRunView {
    VulkanResidentPromptEventRunView {
        device_id: runner.device_id,
        prompt_token_ids: event.prompt_token_ids,
        generated_token_ids: event.generated_token_ids,
        output_token_ids: event.prompt_token_ids + event.generated_token_ids,
        stop_reason: match event.stop_reason {
            Some(reason) => reason,
            None => "max_new_tokens"@,
        },
        tick_runs: event.tick_runs,
        per_tick_dispatch_count: runner.per_tick_dispatch_count,
        per_tick_descriptor_count: runner.per_tick_descriptor_count,
        per_tick_push_constant_byte_count: runner.per_tick_push_constant_byte_count,
    }
}

/// The run of a prompt event: its ticks, as many as the prompt and the budget allow.
pub open spec fn prompt_run(
    runner: VulkanResidentFeedbackLoopRunnerView,
    prompt_token_ids: Seq<u32>,
    start_stream_tick: u64,
    max_new_tokens: usize,
    eos_token_id: Option<u32>,
    ticks: TickAnswers,
    samples: SamplerAnswers,
) -> Result<VulkanResidentPromptEventRunView, VulkanResidentFeedbackLoopRunnerErrorView> {
    match started(prompt_token_ids, start_stream_tick, max_new_tokens, eos_token_id) {
        Err(error) => Err(error),
        Ok(event) => match after_ticks(event, ticks, samples, ticks_left(event)) {
            Err(error) => Err(error),
            Ok(done) => Ok(finished(done, runner)),
        },
    }
}

/// Whether the answers reach as far as a prompt event gets.
pub open spec fn answered(
    event: VulkanResidentPromptEventView,
    ticks: TickAnswers,
    samples: SamplerAnswers,
) -> bool {
    forall|n: nat|
        {
            let state = #[trigger] after_ticks(event, ticks, samples, n);
            state is Ok && next_tick(state->Ok_0) is Ok ==> match next_tick(state->Ok_0)->Ok_0 {
                None => true,
                Some(tick) => {
                    &&& state->Ok_0.tick_runs.len() < ticks.len()
                    &&& tick.emit_output && ticks[state->Ok_0.tick_runs.len() as int] is Ok
                        ==> state->Ok_0.generated_token_ids.len() < samples.len()
                },
            }
        }
}

proof fn lemma_running_kept(
    event: VulkanResidentPromptEventView,
    tick: VulkanResidentPromptEventTick,
    tick_run: VulkanResidentSingleTokenTickRunView,
    sampler_run: Option<VulkanResidentSamplerRunView>,
)
    requires
        running(event),
        next_tick(event) == Ok::<_, VulkanResidentFeedbackLoopRunnerErrorView>(Some(tick)),
        tick.emit_output <==> sampler_run is Some,
        after_tick(event, tick, tick_run, sampler_run) is Ok,
    ensures
        running(after_tick(event, tick, tick_run, sampler_run)->Ok_0),
        ticks_left(after_tick(event, tick, tick_run, sampler_run)->Ok_0) < ticks_left(event),
{
    let next = after_tick(event, tick, tick_run, sampler_run)->Ok_0;
    let n = event.tick_runs.len() as int;
    assert(next.tick_runs.take(n) =~= event.tick_runs);
    if let Some(run) = sampler_run {
        assert(next.generated_token_ids.last() == run.token_id);
        assert forall|k: int| 0 <= k < next.generated_token_ids.len() - 1 implies next.eos_token_id
            != Some(#[trigger] next.generated_token_ids[k]) by {
            assert(next.generated_token_ids[k] == event.generated_token_ids[k]);
            if k == event.generated_token_ids.len() - 1 {
                assert(event.generated_token_ids[k] == event.generated_token_ids.last());
            }
        }
    }
    assert forall|i: int| 0 <= i < next.tick_runs.len() implies ran_in_order(
        next,
        i,
        #[trigger] next.tick_runs[i],
    ) by {
        if i < n {
            assert(next.tick_runs[i] == event.tick_runs[i]);
            assert(ran_in_order(event, i, event.tick_runs[i]));
            assert(inputs(next)[i] == inputs(event)[i]);
        } else {
            assert(i == n);
        }
    }
}

proof fn lemma_after_ticks_running(
    event: VulkanResidentPromptEventView,
    ticks: TickAnswers,
    samples: SamplerAnswers,
    n: nat,
)
    requires
        running(event),
        after_ticks(event, ticks, samples, n) is Ok,
    ensures
        ({
            let state = after_ticks(event, ticks, samples, n)->Ok_0;
            &&& running(state)
            &&& is_finished(state) || ticks_left(state) + n <= ticks_left(event)
            &&& state.prompt_token_ids == event.prompt_token_ids
            &&& state.start_stream_tick == event.start_stream_tick
            &&& state.max_new_tokens == event.max_new_tokens
            &&& state.eos_token_id == event.eos_token_id
        }),
    decreases n,
{
    if n > 0 {
        lemma_after_ticks_running(event, ticks, samples, (n - 1) as nat);
        let before = after_ticks(event, ticks, samples, (n - 1) as nat)->Ok_0;
        match next_tick(before)->Ok_0 {
            None => {},
            Some(tick) => {
                let tick_run = ticks[before.tick_runs.len() as int]->Ok_0;
                if tick.emit_output {
                    let sample = samples[before.generated_token_ids.len() as int]->Ok_0;
                    lemma_running_kept(before, tick, tick_run, Some(sample));
                } else {
                    lemma_running_kept(before, tick, tick_run, None);
                }
            },
        }
    }
}

proof fn lemma_after_ticks_settled(
    event: VulkanResidentPromptEventView,
    ticks: TickAnswers,
    samples: SamplerAnswers,
    n: nat,
    m: nat,
)
    requires
        n <= m,
        after_ticks(event, ticks, samples, n) is Ok ==> is_finished(
            after_ticks(event, ticks, samples, n)->Ok_0,
        ),
    ensures
        after_ticks(event, ticks, samples, m) == after_ticks(event, ticks, samples, n),
    decreases m - n,
{
    if n < m {
        lemma_after_ticks_settled(event, ticks, samples, n, (m - 1) as nat);
    }
}

impl VulkanResidentPromptEvent {
    /// A prompt event that is about to run.
    pub fn start(
        prompt_token_ids: &Vec<u32>,
        start_stream_tick: u64,
        max_new_tokens: usize,
        eos_token_id: Option<u32>,
    ) -> (r: Result<Self, VulkanResidentFeedbackLoopRunnerError>)
        ensures
            sequence::outcome(r) == started(
                prompt_token_ids@,
                start_stream_tick,
                max_new_tokens,
                eos_token_id,
            ),
            r matches Ok(event) ==> running(event@),
    {
        if prompt_token_ids.len() == 0 {
            return Err(VulkanResidentFeedbackLoopRunnerError::EmptyPromptEvent);
        }
        let stop_reason: Option<String> = if max_new_tokens == 0 {
            Some("max_new_tokens".to_string())
        } else {
            None
        };
        let copied: Vec<u32> = prompt_token_ids.clone();
        assert(copied.deep_view() =~= prompt_token_ids@);
        let event = VulkanResidentPromptEvent {
            prompt_token_ids: copied,
            start_stream_tick,
            max_new_tokens,
            eos_token_id,
            external_input_index: 0,
            pending_feedback: None,
            tick_runs: Vec::new(),
            generated_token_ids: Vec::new(),
            remaining_public_outputs: max_new_tokens,
            stop_reason,
        };
        assert(event@.tick_runs =~= Seq::empty());
        assert(event@.generated_token_ids =~= Seq::empty());
        Ok(event)
    }

    /// The next tick, if anything is left to go through the model.
    pub fn next_tick(&self) -> (r: Result<
        Option<VulkanResidentPromptEventTick>,
        VulkanResidentFeedbackLoopRunnerError,
    >)
        requires
            running(self@),
        ensures
            sequence::outcome(r) == next_tick(self@),
    {
        assert(self@.prompt_token_ids =~= self.prompt_token_ids@);
        assert(self@.tick_runs.len() == self.tick_runs@.len());
        let external: bool = self.external_input_index < self.prompt_token_ids.len();
        if !external && self.pending_feedback.is_none() {
            return Ok(None);
        }
        let stream_tick: u64 = match self.start_stream_tick.checked_add(
            self.tick_runs.len() as u64,
        ) {
            None => {
                return Err(VulkanResidentFeedbackLoopRunnerError::StreamTickOverflow);
            },
            Some(stream_tick) => stream_tick,
        };
        if external {
            let remaining: usize = self.prompt_token_ids.len() - self.external_input_index - 1;
            return Ok(
                Some(
                    VulkanResidentPromptEventTick {
                        stream_tick,
                        input_token_id: self.prompt_token_ids[self.external_input_index],
                        input_route: VulkanResidentPromptEventInputRoute::ExternalInput,
                        input_feedback_depth: 0,
                        input_closes_loop: false,
                        emit_output: self.remaining_public_outputs > 0 && remaining == 0,
                    },
                ),
            );
        }
        match self.pending_feedback {
            None => Err(VulkanResidentFeedbackLoopRunnerError::MissingPrivateFeedback),
            Some(feedback) => Ok(
                Some(
                    VulkanResidentPromptEventTick {
                        stream_tick,
                        input_token_id: feedback.token_id,
                        input_route: VulkanResidentPromptEventInputRoute::PrivateFeedback,
                        input_feedback_depth: feedback.feedback_depth,
                        input_closes_loop: feedback.closes_loop_after_processing,
                        emit_output: self.remaining_public_outputs > 0,
                    },
                ),
            ),
        }
    }

    /// The prompt event after its next tick.
    pub fn after_tick(
        self,
        tick: VulkanResidentPromptEventTick,
        tick_run: VulkanResidentSingleTokenTickRun,
        sampler_run: Option<VulkanResidentSamplerRun>,
    ) -> (r: Result<Self, VulkanResidentFeedbackLoopRunnerError>)
        requires
            running(self@),
            next_tick(self@) == Ok::<_, VulkanResidentFeedbackLoopRunnerErrorView>(Some(tick)),
            tick.emit_output <==> sampler_run is Some,
        ensures
            sequence::outcome(r) == after_tick(self@, tick, tick_run@, sampler_run.deep_view()),
            r matches Ok(event) ==> running(event@),
    {
        let mut event: Self = self;
        let ghost given = event@;
        let ghost sampled = sampler_run.deep_view();
        let ghost ran = tick_run@;
        proof {
            if after_tick(given, tick, ran, sampled) is Ok {
                lemma_running_kept(given, tick, ran, sampled);
            }
        }
        let external_input_index: usize = match tick.input_route {
            VulkanResidentPromptEventInputRoute::ExternalInput => event.external_input_index + 1,
            VulkanResidentPromptEventInputRoute::PrivateFeedback => event.external_input_index,
        };
        let mut pending_feedback: Option<VulkanResidentPendingPrivateFeedback> = None;
        let mut output_token_id: Option<u32> = None;
        let mut closes_loop: Option<bool> = None;
        let ghost ids = event.generated_token_ids@;
        match &sampler_run {
            None => {},
            Some(run) => {
                let token_id: u32 = run.token_id;
                let ended: bool = match event.eos_token_id {
                    Some(eos_token_id) => eos_token_id == token_id,
                    None => false,
                };
                let close_after_feedback: bool = ended || event.remaining_public_outputs == 1;
                if tick.input_feedback_depth == u32::MAX {
                    return Err(VulkanResidentFeedbackLoopRunnerError::FeedbackDepthOverflow);
                }
                event.generated_token_ids.push(token_id);
                output_token_id = Some(token_id);
                closes_loop = Some(close_after_feedback);
                if close_after_feedback {
                    event.remaining_public_outputs = 0;
                } else {
                    event.remaining_public_outputs = event.remaining_public_outputs - 1;
                }
                if ended {
                    event.stop_reason = Some("eos".to_string());
                } else if close_after_feedback {
                    event.stop_reason = Some("max_new_tokens".to_string());
                }
                if !tick.input_closes_loop {
                    pending_feedback =
                    Some(
                        VulkanResidentPendingPrivateFeedback {
                            token_id,
                            feedback_depth: tick.input_feedback_depth + 1,
                            closes_loop_after_processing: close_after_feedback,
                        },
                    );
                }
            },
        }
        event.pending_feedback = pending_feedback;
        event.external_input_index = external_input_index;
        let run = VulkanResidentPromptEventTickRun {
            stream_tick: tick.stream_tick,
            input_token_id: tick.input_token_id,
            input_route: tick.input_route,
            input_feedback_depth: tick.input_feedback_depth,
            input_closes_loop_after_processing: tick.input_closes_loop,
            public_output_token_id: output_token_id,
            private_feedback_token_id: output_token_id,
            private_feedback_closes_loop_after_processing: closes_loop,
            tick_run,
            sampler_run,
        };
        let ghost added = run@;
        assert(added == tick_record(given, tick, ran, sampled));
        let ghost runs = event.tick_runs.deep_view();
        event.tick_runs.push(run);
        assert(event@.tick_runs =~= runs.push(added));
        assert(event@.prompt_token_ids =~= given.prompt_token_ids);
        assert(sampled is Some ==> event@.generated_token_ids =~= given.generated_token_ids.push(
            sampled->Some_0.token_id,
        ));
        assert(sampled is None ==> event@.generated_token_ids =~= given.generated_token_ids);
        assert(event@ == after_tick(given, tick, ran, sampled)->Ok_0);
        Ok(event)
    }

    /// The run of a prompt event that has finished.
    #[verifier::loop_isolation(false)]
    pub fn finish(self, runner: &VulkanResidentFeedbackLoopRunner) -> (r:
        VulkanResidentPromptEventRun)
        ensures
            r@ == finished(self@, runner@),
    {
        let ghost given = self@;
        let mut output_token_ids: Vec<u32> = self.prompt_token_ids.clone();
        let mut i: usize = 0;
        assert(output_token_ids@ =~= self.prompt_token_ids@);
        while i < self.generated_token_ids.len()
            invariant
                i <= self.generated_token_ids.len(),
                output_token_ids@ == self.prompt_token_ids@ + self.generated_token_ids@.take(
                    i as int,
                ),
            decreases self.generated_token_ids.len() - i,
        {
            output_token_ids.push(self.generated_token_ids[i]);
            i += 1;
            assert(output_token_ids@ =~= self.prompt_token_ids@ + self.generated_token_ids@.take(
                i as int,
            ));
        }
        assert(output_token_ids.deep_view() =~= given.prompt_token_ids + given.generated_token_ids);
        VulkanResidentPromptEventRun {
            device_id: runner.device_id.clone(),
            prompt_token_ids: self.prompt_token_ids,
            generated_token_ids: self.generated_token_ids,
            output_token_ids,
            stop_reason: match self.stop_reason {
                Some(reason) => reason,
                None => "max_new_tokens".to_string(),
            },
            tick_runs: self.tick_runs,
            per_tick_dispatch_count: runner.per_tick_dispatch_count,
            per_tick_descriptor_count: runner.per_tick_descriptor_count,
            per_tick_push_constant_byte_count: runner.per_tick_push_constant_byte_count,
        }
    }
}

impl VulkanResidentFeedbackLoopRunner {
    /// The run of a prompt event, from what came of its ticks and of its samples.
    #[verifier::loop_isolation(false)]
    pub fn run_prompt_event_bounded(
        &self,
        prompt_token_ids: &Vec<u32>,
        start_stream_tick: u64,
        max_new_tokens: usize,
        eos_token_id: Option<u32>,
        ticks: &Vec<
            Result<VulkanResidentSingleTokenTickRun, VulkanResidentSingleTokenTickRunnerError>,
        >,
        samples: &Vec<Result<VulkanResidentSamplerRun, VulkanResidentSamplerRunnerError>>,
    ) -> (r: Result<VulkanResidentPromptEventRun, VulkanResidentFeedbackLoopRunnerError>)
        requires
            started(prompt_token_ids@, start_stream_tick, max_new_tokens, eos_token_id) matches Ok(
                event,
            ) ==> answered(event, sequence::outcomes(ticks@), sequence::outcomes(samples@)),
        ensures
            sequence::outcome(r) == prompt_run(
                self@,
                prompt_token_ids@,
                start_stream_tick,
                max_new_tokens,
                eos_token_id,
                sequence::outcomes(ticks@),
                sequence::outcomes(samples@),
            ),
    {
        let ghost tick_answers = sequence::outcomes(ticks@);
        let ghost sample_answers = sequence::outcomes(samples@);
        let mut event: VulkanResidentPromptEvent = match VulkanResidentPromptEvent::start(
            prompt_token_ids,
            start_stream_tick,
            max_new_tokens,
            eos_token_id,
        ) {
            Err(error) => {
                return Err(error);
            },
            Ok(event) => event,
        };
        let ghost first = event@;
        let ghost mut n: nat = 0;
        loop
            invariant
                after_ticks(first, tick_answers, sample_answers, n) == Ok::<
                    VulkanResidentPromptEventView,
                    VulkanResidentFeedbackLoopRunnerErrorView,
                >(event@),
                running(event@),
                ticks_left(event@) + n <= ticks_left(first),
            decreases ticks_left(event@),
        {
            let ghost all = ticks_left(first);
            assert(event@.tick_runs.len() == event.tick_runs@.len());
            assert(event@.generated_token_ids.len() == event.generated_token_ids@.len());
            proof {
                if is_finished(event@) {
                    lemma_after_ticks_settled(first, tick_answers, sample_answers, n, all);
                } else {
                    assert(ticks_left(event@) > 0);
                    if after_ticks(first, tick_answers, sample_answers, n + 1) is Err {
                        lemma_after_ticks_settled(first, tick_answers, sample_answers, n + 1, all);
                    }
                }
            }
            let tick: VulkanResidentPromptEventTick = match event.next_tick() {
                Err(error) => {
                    return Err(error);
                },
                Ok(None) => {
                    return Ok(event.finish(self));
                },
                Ok(Some(tick)) => tick,
            };
            let k: usize = event.tick_runs.len();
            assert(tick_answers[k as int] == sequence::outcome(ticks@[k as int]));
            let tick_run: VulkanResidentSingleTokenTickRun = match &ticks[k] {
                Err(error) => {
                    return Err(VulkanResidentFeedbackLoopRunnerError::from(error.clone()));
                },
                Ok(tick_run) => tick_run.clone(),
            };
            let sampler_run: Option<VulkanResidentSamplerRun> = if tick.emit_output {
                let j: usize = event.generated_token_ids.len();
                assert(sample_answers[j as int] == sequence::outcome(samples@[j as int]));
                match &samples[j] {
                    Err(error) => {
                        return Err(VulkanResidentFeedbackLoopRunnerError::from(error.clone()));
                    },
                    Ok(sampler_run) => Some(sampler_run.clone()),
                }
            } else {
                None
            };
            proof {
                let sampled = sampler_run.deep_view();
                if after_tick(event@, tick, tick_run@, sampled) is Ok {
                    lemma_running_kept(event@, tick, tick_run@, sampled);
                }
            }
            event = match event.after_tick(tick, tick_run, sampler_run) {
                Err(error) => {
                    return Err(error);
                },
                Ok(event) => event,
            };
            proof {
                n = n + 1;
            }
        }
    }
}

/// What a prompt event gives back. The output is the prompt and what was generated. Every token of
/// the prompt and every generated token went through the model once, in that order, each in its own
/// tick of the stream. What was generated stays within the budget, and ends early only with the
/// end token, which occurs nowhere but at the end.
pub proof fn prompt_events_feed_every_token(
    runner: VulkanResidentFeedbackLoopRunnerView,
    prompt_token_ids: Seq<u32>,
    start_stream_tick: u64,
    max_new_tokens: usize,
    eos_token_id: Option<u32>,
    ticks: TickAnswers,
    samples: SamplerAnswers,
)
    requires
        prompt_token_ids.len() <= usize::MAX,
        prompt_run(
            runner,
            prompt_token_ids,
            start_stream_tick,
            max_new_tokens,
            eos_token_id,
            ticks,
            samples,
        ) is Ok,
    ensures
        ({
            let run = prompt_run(
                runner,
                prompt_token_ids,
                start_stream_tick,
                max_new_tokens,
                eos_token_id,
                ticks,
                samples,
            )->Ok_0;
            let generated = run.generated_token_ids;
            let ended = generated.len() > 0 && eos_token_id == Some(generated.last());
            &&& run.prompt_token_ids == prompt_token_ids
            &&& run.output_token_ids == prompt_token_ids + generated
            &&& run.tick_runs.len() == run.output_token_ids.len()
            &&& forall|i: int|
                0 <= i < run.tick_runs.len() ==> (#[trigger] run.tick_runs[i]).input_token_id
                    == run.output_token_ids[i] && run.tick_runs[i].stream_tick == start_stream_tick
                    + i
            &&& generated.len() <= max_new_tokens
            &&& ended || generated.len() == max_new_tokens
            &&& run.stop_reason == (if ended {
                "eos"@
            } else {
                "max_new_tokens"@
            })
            &&& forall|k: int|
                0 <= k < generated.len() - 1 ==> eos_token_id != Some(#[trigger] generated[k])
        }),
{
    let first = started(
        prompt_token_ids,
        start_stream_tick,
        max_new_tokens,
        eos_token_id,
    )->Ok_0;
    lemma_after_ticks_running(first, ticks, samples, ticks_left(first));
    let event = after_ticks(first, ticks, samples, ticks_left(first))->Ok_0;
    assert(is_finished(event));
    assert forall|i: int| 0 <= i < event.tick_runs.len() implies (
    #[trigger] event.tick_runs[i]).input_token_id == inputs(event)[i]
        && event.tick_runs[i].stream_tick == start_stream_tick + i by {
        assert(ran_in_order(event, i, event.tick_runs[i]));
    }
}

/// The prompt is fed from outside, token by token, and what is generated is fed back behind it. The
/// tick of the last prompt token is the first to give a token out, and every later one gives out the
/// next until the event stops; what is given out is what is fed back. A fed back token knows how many
/// tokens were generated up to it.
pub proof fn generated_tokens_are_given_out_and_fed_back(
    runner: VulkanResidentFeedbackLoopRunnerView,
    prompt_token_ids: Seq<u32>,
    start_stream_tick: u64,
    max_new_tokens: usize,
    eos_token_id: Option<u32>,
    ticks: TickAnswers,
    samples: SamplerAnswers,
    i: int,
)
    requires
        prompt_token_ids.len() <= usize::MAX,
        prompt_run(
            runner,
            prompt_token_ids,
            start_stream_tick,
            max_new_tokens,
            eos_token_id,
            ticks,
            samples,
        ) is Ok,
        0 <= i < prompt_run(
            runner,
            prompt_token_ids,
            start_stream_tick,
            max_new_tokens,
            eos_token_id,
            ticks,
            samples,
        )->Ok_0.tick_runs.len(),
    ensures
        ({
            let run = prompt_run(
                runner,
                prompt_token_ids,
                start_stream_tick,
                max_new_tokens,
                eos_token_id,
                ticks,
                samples,
            )->Ok_0;
            let tick = run.tick_runs[i];
            let prompt = prompt_token_ids.len();
            let given = i - (prompt - 1);
            &&& run.device_id == runner.device_id
            &&& run.per_tick_dispatch_count == runner.per_tick_dispatch_count
            &&& run.per_tick_descriptor_count == runner.per_tick_descriptor_count
            &&& run.per_tick_push_constant_byte_count == runner.per_tick_push_constant_byte_count
            &&& i < prompt ==> {
                &&& tick.input_token_id == prompt_token_ids[i]
                &&& tick.input_route is ExternalInput
                &&& tick.input_feedback_depth == 0
            }
            &&& i >= prompt ==> {
                &&& tick.input_token_id == run.generated_token_ids[i - prompt]
                &&& tick.input_route is PrivateFeedback
                &&& tick.input_feedback_depth == i - prompt + 1
            }
            &&& given < 0 ==> tick.public_output_token_id is None
            &&& 0 <= given < run.generated_token_ids.len() ==> tick.public_output_token_id == Some(
                run.generated_token_ids[given],
            )
            &&& given >= run.generated_token_ids.len() ==> tick.public_output_token_id is None
            &&& tick.private_feedback_token_id == tick.public_output_token_id
        }),
{
    let first = started(
        prompt_token_ids,
        start_stream_tick,
        max_new_tokens,
        eos_token_id,
    )->Ok_0;
    lemma_after_ticks_running(first, ticks, samples, ticks_left(first));
    let event = after_ticks(first, ticks, samples, ticks_left(first))->Ok_0;
    assert(is_finished(event));
    assert(ran_in_order(event, i, event.tick_runs[i]));
}

proof fn lemma_ticks_answered(
    event: VulkanResidentPromptEventView,
    ticks: TickAnswers,
    samples: SamplerAnswers,
    n: nat,
    i: int,
)
    requires
        after_ticks(event, ticks, samples, n) is Ok,
        event.tick_runs.len() == 0,
        event.generated_token_ids.len() == 0,
    ensures
        ({
            let after = after_ticks(event, ticks, samples, n)->Ok_0;
            &&& 0 <= i < after.tick_runs.len() ==> ticks[i] is Ok && after.tick_runs[i].tick_run
                == ticks[i]->Ok_0
            &&& 0 <= i < after.generated_token_ids.len() ==> samples[i] is Ok
                && after.generated_token_ids[i] == samples[i]->Ok_0.token_id
        }),
    decreases n,
{
    if n > 0 {
        lemma_ticks_answered(event, ticks, samples, (n - 1) as nat, i);
    }
}

/// Every tick of a prompt event runs what its tick runner answered, and every generated token is the
/// one that its sampler answered, in the order of the answers.
pub proof fn events_run_what_was_answered(
    runner: VulkanResidentFeedbackLoopRunnerView,
    prompt_token_ids: Seq<u32>,
    start_stream_tick: u64,
    max_new_tokens: usize,
    eos_token_id: Option<u32>,
    ticks: TickAnswers,
    samples: SamplerAnswers,
    i: int,
)
    requires
        prompt_run(
            runner,
            prompt_token_ids,
            start_stream_tick,
            max_new_tokens,
            eos_token_id,
            ticks,
            samples,
        ) is Ok,
    ensures
        ({
            let run = prompt_run(
                runner,
                prompt_token_ids,
                start_stream_tick,
                max_new_tokens,
                eos_token_id,
                ticks,
                samples,
            )->Ok_0;
            &&& prompt_token_ids.len() > 0
            &&& 0 <= i < run.tick_runs.len() ==> ticks[i] is Ok && run.tick_runs[i].tick_run
                == ticks[i]->Ok_0
            &&& 0 <= i < run.generated_token_ids.len() ==> samples[i] is Ok
                && run.generated_token_ids[i] == samples[i]->Ok_0.token_id
        }),
{
    let first = started(
        prompt_token_ids,
        start_stream_tick,
        max_new_tokens,
        eos_token_id,
    )->Ok_0;
    lemma_ticks_answered(first, ticks, samples, ticks_left(first), i);
}

} // verus!
