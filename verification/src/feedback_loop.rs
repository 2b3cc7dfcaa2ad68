//! The loop that feeds sampled tokens back to the model.

use crate::device;
use crate::device::VulkanError;
use crate::device::VulkanResidentKernelDispatch;
use crate::device::VulkanResidentKernelDispatchView;
use crate::device::VulkanResidentKernelSequenceStep;
use crate::device::VulkanResidentKernelSequenceStepView;
use crate::input_transducer;
use crate::input_transducer::VulkanResidentInputEmbeddingTransducerRun;
use crate::input_transducer::VulkanResidentInputEmbeddingTransducerRunView;
use crate::input_transducer::VulkanResidentInputEmbeddingTransducerRunner;
use crate::input_transducer::VulkanResidentInputEmbeddingTransducerRunnerView;
use crate::output_transducer;
use crate::output_transducer::VulkanResidentOutputTransducerRun;
use crate::output_transducer::VulkanResidentOutputTransducerRunView;
use crate::output_transducer::VulkanResidentOutputTransducerRunner;
use crate::output_transducer::VulkanResidentOutputTransducerRunnerView;
use crate::pedal_runner::VulkanMountedPlacedResidentPedalDispatchView;
use crate::pedal_runner::VulkanMountedPlacedResidentPedalRunnerView;
use crate::pedal_runner::VulkanMountedPlacedResidentPedalboardRun;
use crate::pedal_runner::VulkanMountedPlacedResidentPedalboardRunView;
use crate::pedal_runner::VulkanMountedPlacedResidentPedalboardRunner;
use crate::pedal_runner::VulkanMountedPlacedResidentPedalboardRunnerView;
use crate::runtime_error::VulkanResidentSamplerRunnerError;
use crate::sequence;
use crate::stream_control::VulkanMountedPlacedStreamControl;
use crate::text;
use crate::text::Message;
use vstd::prelude::*;

verus! {

/// Why a tick failed.
#[derive(Debug, PartialEq, Eq)]
pub struct VulkanResidentSingleTokenTickRunnerError(pub String);

impl DeepView for VulkanResidentSingleTokenTickRunnerError {
    type V = Seq<char>;

    open spec fn deep_view(&self) -> Seq<char> {
        self.0.deep_view()
    }
}

impl View for VulkanResidentSingleTokenTickRunnerError {
    type V = Seq<char>;

    open spec fn view(&self) -> Seq<char> {
        self.deep_view()
    }
}

impl Clone for VulkanResidentSingleTokenTickRunnerError {
    fn clone(&self) -> (r: Self)
        ensures
            r@ == self@,
    {
        VulkanResidentSingleTokenTickRunnerError(self.0.clone())
    }
}

impl VulkanResidentSingleTokenTickRunnerError {
    /// What is wrong.
    pub fn to_string(&self) -> (r: String)
        ensures
            r@ == self@,
    {
        self.0.clone()
    }
}

/// Why a feedback loop cannot be made or run.
#[derive(Debug, PartialEq, Eq)]
pub enum VulkanResidentFeedbackLoopRunnerError {
    ZeroTickBudget,
    EmptyPromptEvent,
    MissingPrivateFeedback,
    StreamTickOverflow,
    DynamicStateCapacityOverflow,
    OutputBudgetOverflow,
    FeedbackDepthOverflow,
    DispatchCountOverflow,
    DescriptorCountOverflow,
    PushConstantByteCountOverflow,
    FeedbackCycleWidthExceeded { requested: usize, snapshot_capacity: usize, sampler_history_capacity: usize },
    FeedbackCyclePushConstants { byte_count: u32 },
    Tick(VulkanResidentSingleTokenTickRunnerError),
    Sampler(VulkanResidentSamplerRunnerError),
    Vulkan(VulkanError),
}

#[verifier::ext_equal]
pub enum VulkanResidentFeedbackLoopRunnerErrorView {
    ZeroTickBudget,
    EmptyPromptEvent,
    MissingPrivateFeedback,
    StreamTickOverflow,
    DynamicStateCapacityOverflow,
    OutputBudgetOverflow,
    FeedbackDepthOverflow,
    DispatchCountOverflow,
    DescriptorCountOverflow,
    PushConstantByteCountOverflow,
    FeedbackCycleWidthExceeded { requested: usize, snapshot_capacity: usize, sampler_history_capacity: usize },
    FeedbackCyclePushConstants { byte_count: u32 },
    Tick(Seq<char>),
    Sampler(Seq<char>),
    Vulkan(Seq<char>),
}

impl DeepView for VulkanResidentFeedbackLoopRunnerError {
    type V = VulkanResidentFeedbackLoopRunnerErrorView;

    open spec fn deep_view(&self) -> VulkanResidentFeedbackLoopRunnerErrorView {
        match self {
            VulkanResidentFeedbackLoopRunnerError::ZeroTickBudget => VulkanResidentFeedbackLoopRunnerErrorView::ZeroTickBudget,
            VulkanResidentFeedbackLoopRunnerError::EmptyPromptEvent => VulkanResidentFeedbackLoopRunnerErrorView::EmptyPromptEvent,
            VulkanResidentFeedbackLoopRunnerError::MissingPrivateFeedback => VulkanResidentFeedbackLoopRunnerErrorView::MissingPrivateFeedback,
            VulkanResidentFeedbackLoopRunnerError::StreamTickOverflow => VulkanResidentFeedbackLoopRunnerErrorView::StreamTickOverflow,
            VulkanResidentFeedbackLoopRunnerError::DynamicStateCapacityOverflow => VulkanResidentFeedbackLoopRunnerErrorView::DynamicStateCapacityOverflow,
            VulkanResidentFeedbackLoopRunnerError::OutputBudgetOverflow => VulkanResidentFeedbackLoopRunnerErrorView::OutputBudgetOverflow,
            VulkanResidentFeedbackLoopRunnerError::FeedbackDepthOverflow => VulkanResidentFeedbackLoopRunnerErrorView::FeedbackDepthOverflow,
            VulkanResidentFeedbackLoopRunnerError::DispatchCountOverflow => VulkanResidentFeedbackLoopRunnerErrorView::DispatchCountOverflow,
            VulkanResidentFeedbackLoopRunnerError::DescriptorCountOverflow => VulkanResidentFeedbackLoopRunnerErrorView::DescriptorCountOverflow,
            VulkanResidentFeedbackLoopRunnerError::PushConstantByteCountOverflow => VulkanResidentFeedbackLoopRunnerErrorView::PushConstantByteCountOverflow,
            VulkanResidentFeedbackLoopRunnerError::FeedbackCycleWidthExceeded { requested, snapshot_capacity, sampler_history_capacity } => VulkanResidentFeedbackLoopRunnerErrorView::FeedbackCycleWidthExceeded { requested: *requested, snapshot_capacity: *snapshot_capacity, sampler_history_capacity: *sampler_history_capacity },
            VulkanResidentFeedbackLoopRunnerError::FeedbackCyclePushConstants { byte_count } => VulkanResidentFeedbackLoopRunnerErrorView::FeedbackCyclePushConstants { byte_count: *byte_count },
            VulkanResidentFeedbackLoopRunnerError::Tick(value) => VulkanResidentFeedbackLoopRunnerErrorView::Tick(value.deep_view()),
            VulkanResidentFeedbackLoopRunnerError::Sampler(value) => VulkanResidentFeedbackLoopRunnerErrorView::Sampler(value.deep_view()),
            VulkanResidentFeedbackLoopRunnerError::Vulkan(value) => VulkanResidentFeedbackLoopRunnerErrorView::Vulkan(value.deep_view()),
        }
    }
}

impl View for VulkanResidentFeedbackLoopRunnerError {
    type V = VulkanResidentFeedbackLoopRunnerErrorView;

    open spec fn view(&self) -> VulkanResidentFeedbackLoopRunnerErrorView {
        self.deep_view()
    }
}

impl Clone for VulkanResidentFeedbackLoopRunnerError {
    fn clone(&self) -> (r: Self)
        ensures
            r@ == self@,
    {
        match self {
            VulkanResidentFeedbackLoopRunnerError::ZeroTickBudget => VulkanResidentFeedbackLoopRunnerError::ZeroTickBudget,
            VulkanResidentFeedbackLoopRunnerError::EmptyPromptEvent => VulkanResidentFeedbackLoopRunnerError::EmptyPromptEvent,
            VulkanResidentFeedbackLoopRunnerError::MissingPrivateFeedback => VulkanResidentFeedbackLoopRunnerError::MissingPrivateFeedback,
            VulkanResidentFeedbackLoopRunnerError::StreamTickOverflow => VulkanResidentFeedbackLoopRunnerError::StreamTickOverflow,
            VulkanResidentFeedbackLoopRunnerError::DynamicStateCapacityOverflow => VulkanResidentFeedbackLoopRunnerError::DynamicStateCapacityOverflow,
            VulkanResidentFeedbackLoopRunnerError::OutputBudgetOverflow => VulkanResidentFeedbackLoopRunnerError::OutputBudgetOverflow,
            VulkanResidentFeedbackLoopRunnerError::FeedbackDepthOverflow => VulkanResidentFeedbackLoopRunnerError::FeedbackDepthOverflow,
            VulkanResidentFeedbackLoopRunnerError::DispatchCountOverflow => VulkanResidentFeedbackLoopRunnerError::DispatchCountOverflow,
            VulkanResidentFeedbackLoopRunnerError::DescriptorCountOverflow => VulkanResidentFeedbackLoopRunnerError::DescriptorCountOverflow,
            VulkanResidentFeedbackLoopRunnerError::PushConstantByteCountOverflow => VulkanResidentFeedbackLoopRunnerError::PushConstantByteCountOverflow,
            VulkanResidentFeedbackLoopRunnerError::FeedbackCycleWidthExceeded { requested, snapshot_capacity, sampler_history_capacity } => VulkanResidentFeedbackLoopRunnerError::FeedbackCycleWidthExceeded { requested: *requested, snapshot_capacity: *snapshot_capacity, sampler_history_capacity: *sampler_history_capacity },
            VulkanResidentFeedbackLoopRunnerError::FeedbackCyclePushConstants { byte_count } => VulkanResidentFeedbackLoopRunnerError::FeedbackCyclePushConstants { byte_count: *byte_count },
            VulkanResidentFeedbackLoopRunnerError::Tick(value) => VulkanResidentFeedbackLoopRunnerError::Tick(value.clone()),
            VulkanResidentFeedbackLoopRunnerError::Sampler(value) => VulkanResidentFeedbackLoopRunnerError::Sampler(value.clone()),
            VulkanResidentFeedbackLoopRunnerError::Vulkan(value) => VulkanResidentFeedbackLoopRunnerError::Vulkan(value.clone()),
        }
    }
}

/// What is said of it.
pub open spec fn feedback_loop_message(error: VulkanResidentFeedbackLoopRunnerErrorView) -> Seq<char> {
    match error {
        VulkanResidentFeedbackLoopRunnerErrorView::ZeroTickBudget => {
            "feedback loop tick budget must not be zero"@
        },
        VulkanResidentFeedbackLoopRunnerErrorView::EmptyPromptEvent => {
            "prompt event must contain input"@
        },
        VulkanResidentFeedbackLoopRunnerErrorView::MissingPrivateFeedback => {
            "prompt event expected private feedback"@
        },
        VulkanResidentFeedbackLoopRunnerErrorView::StreamTickOverflow => {
            "feedback loop stream tick overflowed"@
        },
        VulkanResidentFeedbackLoopRunnerErrorView::DynamicStateCapacityOverflow => {
            "feedback loop dynamic state capacity overflowed"@
        },
        VulkanResidentFeedbackLoopRunnerErrorView::OutputBudgetOverflow => {
            "running stream output budget overflowed"@
        },
        VulkanResidentFeedbackLoopRunnerErrorView::FeedbackDepthOverflow => {
            "feedback loop feedback depth overflowed"@
        },
        VulkanResidentFeedbackLoopRunnerErrorView::DispatchCountOverflow => {
            "feedback loop dispatch count overflowed"@
        },
        VulkanResidentFeedbackLoopRunnerErrorView::DescriptorCountOverflow => {
            "feedback loop descriptor count overflowed"@
        },
        VulkanResidentFeedbackLoopRunnerErrorView::PushConstantByteCountOverflow => {
            "feedback loop push constant byte count overflowed"@
        },
        VulkanResidentFeedbackLoopRunnerErrorView::FeedbackCycleWidthExceeded { requested, snapshot_capacity, sampler_history_capacity } => {
            "resident feedback cycle requests "@ + text::decimal(requested as nat) + " ticks, snapshot capacity is "@ + text::decimal(snapshot_capacity as nat) + " and sampler history capacity is "@ + text::decimal(sampler_history_capacity as nat)
        },
        VulkanResidentFeedbackLoopRunnerErrorView::FeedbackCyclePushConstants { byte_count } => {
            "resident feedback cycle requires buffer-backed control, but the compiled tick ABI still declares "@ + text::decimal(byte_count as nat) + " push-constant bytes"@
        },
        VulkanResidentFeedbackLoopRunnerErrorView::Tick(error) => error,
        VulkanResidentFeedbackLoopRunnerErrorView::Sampler(error) => error,
        VulkanResidentFeedbackLoopRunnerErrorView::Vulkan(error) => error,
    }
}

impl VulkanResidentFeedbackLoopRunnerError {
    /// What is wrong.
    pub fn to_string(&self) -> (r: String)
        ensures
            r@ == feedback_loop_message(self@),
    {
        match self {
            VulkanResidentFeedbackLoopRunnerError::ZeroTickBudget => {
                Message::new("feedback loop tick budget must not be zero").done()
            },
            VulkanResidentFeedbackLoopRunnerError::EmptyPromptEvent => {
                Message::new("prompt event must contain input").done()
            },
            VulkanResidentFeedbackLoopRunnerError::MissingPrivateFeedback => {
                Message::new("prompt event expected private feedback").done()
            },
            VulkanResidentFeedbackLoopRunnerError::StreamTickOverflow => {
                Message::new("feedback loop stream tick overflowed").done()
            },
            VulkanResidentFeedbackLoopRunnerError::DynamicStateCapacityOverflow => {
                Message::new("feedback loop dynamic state capacity overflowed").done()
            },
            VulkanResidentFeedbackLoopRunnerError::OutputBudgetOverflow => {
                Message::new("running stream output budget overflowed").done()
            },
            VulkanResidentFeedbackLoopRunnerError::FeedbackDepthOverflow => {
                Message::new("feedback loop feedback depth overflowed").done()
            },
            VulkanResidentFeedbackLoopRunnerError::DispatchCountOverflow => {
                Message::new("feedback loop dispatch count overflowed").done()
            },
            VulkanResidentFeedbackLoopRunnerError::DescriptorCountOverflow => {
                Message::new("feedback loop descriptor count overflowed").done()
            },
            VulkanResidentFeedbackLoopRunnerError::PushConstantByteCountOverflow => {
                Message::new("feedback loop push constant byte count overflowed").done()
            },
            VulkanResidentFeedbackLoopRunnerError::FeedbackCycleWidthExceeded { requested, snapshot_capacity, sampler_history_capacity } => {
                Message::new("resident feedback cycle requests ").number(*requested).text(" ticks, snapshot capacity is ").number(*snapshot_capacity).text(" and sampler history capacity is ").number(*sampler_history_capacity).done()
            },
            VulkanResidentFeedbackLoopRunnerError::FeedbackCyclePushConstants { byte_count } => {
                Message::new("resident feedback cycle requires buffer-backed control, but the compiled tick ABI still declares ").number(*byte_count as usize).text(" push-constant bytes").done()
            },
            VulkanResidentFeedbackLoopRunnerError::Tick(error) => error.to_string(),
            VulkanResidentFeedbackLoopRunnerError::Sampler(error) => error.to_string(),
            VulkanResidentFeedbackLoopRunnerError::Vulkan(error) => error.to_string(),
        }
    }
}

impl vstd::std_specs::convert::FromSpecImpl<VulkanResidentSingleTokenTickRunnerError> for VulkanResidentFeedbackLoopRunnerError {
    open spec fn obeys_from_spec() -> bool {
        true
    }

    open spec fn from_spec(error: VulkanResidentSingleTokenTickRunnerError) -> Self {
        VulkanResidentFeedbackLoopRunnerError::Tick(error)
    }
}

impl From<VulkanResidentSingleTokenTickRunnerError> for VulkanResidentFeedbackLoopRunnerError {
    fn from(error: VulkanResidentSingleTokenTickRunnerError) -> (r: Self) {
        VulkanResidentFeedbackLoopRunnerError::Tick(error)
    }
}

impl vstd::std_specs::convert::FromSpecImpl<VulkanResidentSamplerRunnerError> for VulkanResidentFeedbackLoopRunnerError {
    open spec fn obeys_from_spec() -> bool {
        true
    }

    open spec fn from_spec(error: VulkanResidentSamplerRunnerError) -> Self {
        VulkanResidentFeedbackLoopRunnerError::Sampler(error)
    }
}

impl From<VulkanResidentSamplerRunnerError> for VulkanResidentFeedbackLoopRunnerError {
    fn from(error: VulkanResidentSamplerRunnerError) -> (r: Self) {
        VulkanResidentFeedbackLoopRunnerError::Sampler(error)
    }
}

impl vstd::std_specs::convert::FromSpecImpl<VulkanError> for VulkanResidentFeedbackLoopRunnerError {
    open spec fn obeys_from_spec() -> bool {
        true
    }

    open spec fn from_spec(error: VulkanError) -> Self {
        VulkanResidentFeedbackLoopRunnerError::Vulkan(error)
    }
}

impl From<VulkanError> for VulkanResidentFeedbackLoopRunnerError {
    fn from(error: VulkanError) -> (r: Self) {
        VulkanResidentFeedbackLoopRunnerError::Vulkan(error)
    }
}

/// What a sampler chose.
#[derive(Debug, PartialEq, Eq)]
pub struct VulkanResidentSamplerRun {
    pub sampler_id: String,
    pub token_id: u32,
}

#[verifier::ext_equal]
pub struct VulkanResidentSamplerRunView {
    pub sampler_id: Seq<char>,
    pub token_id: u32,
}

impl DeepView for VulkanResidentSamplerRun {
    type V = VulkanResidentSamplerRunView;

    open spec fn deep_view(&self) -> VulkanResidentSamplerRunView {
        VulkanResidentSamplerRunView {
            sampler_id: self.sampler_id.deep_view(),
            token_id: self.token_id,
        }
    }
}

impl View for VulkanResidentSamplerRun {
    type V = VulkanResidentSamplerRunView;

    open spec fn view(&self) -> VulkanResidentSamplerRunView {
        self.deep_view()
    }
}

impl Clone for VulkanResidentSamplerRun {
    fn clone(&self) -> (r: Self)
        ensures
            r@ == self@,
    {
        VulkanResidentSamplerRun {
            sampler_id: self.sampler_id.clone(),
            token_id: self.token_id,
        }
    }
}

/// The sampler of a model: the launches that keep track of the input, and those that sample.
#[derive(Debug, PartialEq, Eq)]
pub struct VulkanResidentSamplerRunner {
    pub sampler_id: String,
    pub dispatch_count: usize,
    pub descriptor_count: usize,
    pub push_constant_byte_count: u32,
    pub history_capacity_activations: usize,
    pub input_tracking_dispatches: Vec<VulkanResidentKernelDispatch>,
    pub resident_dispatches: Vec<VulkanResidentKernelDispatch>,
}

#[verifier::ext_equal]
pub struct VulkanResidentSamplerRunnerView {
    pub sampler_id: Seq<char>,
    pub dispatch_count: usize,
    pub descriptor_count: usize,
    pub push_constant_byte_count: u32,
    pub history_capacity_activations: usize,
    pub input_tracking_dispatches: Seq<VulkanResidentKernelDispatchView>,
    pub resident_dispatches: Seq<VulkanResidentKernelDispatchView>,
}

impl DeepView for VulkanResidentSamplerRunner {
    type V = VulkanResidentSamplerRunnerView;

    open spec fn deep_view(&self) -> VulkanResidentSamplerRunnerView {
        VulkanResidentSamplerRunnerView {
            sampler_id: self.sampler_id.deep_view(),
            dispatch_count: self.dispatch_count,
            descriptor_count: self.descriptor_count,
            push_constant_byte_count: self.push_constant_byte_count,
            history_capacity_activations: self.history_capacity_activations,
            input_tracking_dispatches: self.input_tracking_dispatches.deep_view(),
            resident_dispatches: self.resident_dispatches.deep_view(),
        }
    }
}

impl View for VulkanResidentSamplerRunner {
    type V = VulkanResidentSamplerRunnerView;

    open spec fn view(&self) -> VulkanResidentSamplerRunnerView {
        self.deep_view()
    }
}

impl Clone for VulkanResidentSamplerRunner {
    fn clone(&self) -> (r: Self)
        ensures
            r@ == self@,
    {
        VulkanResidentSamplerRunner {
            sampler_id: self.sampler_id.clone(),
            dispatch_count: self.dispatch_count,
            descriptor_count: self.descriptor_count,
            push_constant_byte_count: self.push_constant_byte_count,
            history_capacity_activations: self.history_capacity_activations,
            input_tracking_dispatches: self.input_tracking_dispatches.clone(),
            resident_dispatches: self.resident_dispatches.clone(),
        }
    }
}

/// The launches that take one token through the model.
#[derive(Debug, PartialEq, Eq)]
pub struct VulkanResidentSingleTokenTickRunner {
    pub device_id: String,
    pub pedal_count: usize,
    pub dispatch_count: usize,
    pub total_descriptor_count: usize,
    pub total_push_constant_byte_count: u32,
    pub input_transducer: VulkanResidentInputEmbeddingTransducerRunner,
    pub pedalboard: VulkanMountedPlacedResidentPedalboardRunner,
    pub output_transducer: VulkanResidentOutputTransducerRunner,
    pub completed_pedalboard_run: VulkanMountedPlacedResidentPedalboardRun,
    pub completed_output_run: VulkanResidentOutputTransducerRun,
}

#[verifier::ext_equal]
pub struct VulkanResidentSingleTokenTickRunnerView {
    pub device_id: Seq<char>,
    pub pedal_count: usize,
    pub dispatch_count: usize,
    pub total_descriptor_count: usize,
    pub total_push_constant_byte_count: u32,
    pub input_transducer: VulkanResidentInputEmbeddingTransducerRunnerView,
    pub pedalboard: VulkanMountedPlacedResidentPedalboardRunnerView,
    pub output_transducer: VulkanResidentOutputTransducerRunnerView,
    pub completed_pedalboard_run: VulkanMountedPlacedResidentPedalboardRunView,
    pub completed_output_run: VulkanResidentOutputTransducerRunView,
}

impl DeepView for VulkanResidentSingleTokenTickRunner {
    type V = VulkanResidentSingleTokenTickRunnerView;

    open spec fn deep_view(&self) -> VulkanResidentSingleTokenTickRunnerView {
        VulkanResidentSingleTokenTickRunnerView {
            device_id: self.device_id.deep_view(),
            pedal_count: self.pedal_count,
            dispatch_count: self.dispatch_count,
            total_descriptor_count: self.total_descriptor_count,
            total_push_constant_byte_count: self.total_push_constant_byte_count,
            input_transducer: self.input_transducer.deep_view(),
            pedalboard: self.pedalboard.deep_view(),
            output_transducer: self.output_transducer.deep_view(),
            completed_pedalboard_run: self.completed_pedalboard_run.deep_view(),
            completed_output_run: self.completed_output_run.deep_view(),
        }
    }
}

impl View for VulkanResidentSingleTokenTickRunner {
    type V = VulkanResidentSingleTokenTickRunnerView;

    open spec fn view(&self) -> VulkanResidentSingleTokenTickRunnerView {
        self.deep_view()
    }
}

impl Clone for VulkanResidentSingleTokenTickRunner {
    fn clone(&self) -> (r: Self)
        ensures
            r@ == self@,
    {
        VulkanResidentSingleTokenTickRunner {
            device_id: self.device_id.clone(),
            pedal_count: self.pedal_count,
            dispatch_count: self.dispatch_count,
            total_descriptor_count: self.total_descriptor_count,
            total_push_constant_byte_count: self.total_push_constant_byte_count,
            input_transducer: self.input_transducer.clone(),
            pedalboard: self.pedalboard.clone(),
            output_transducer: self.output_transducer.clone(),
            completed_pedalboard_run: self.completed_pedalboard_run.clone(),
            completed_output_run: self.completed_output_run.clone(),
        }
    }
}

/// A token that went through the model.
#[derive(Debug, PartialEq, Eq)]
pub struct VulkanResidentSingleTokenTickRun {
    pub device_id: String,
    pub token_id: u32,
    pub input_run: VulkanResidentInputEmbeddingTransducerRun,
    pub pedalboard_run: VulkanMountedPlacedResidentPedalboardRun,
    pub output_run: Option<VulkanResidentOutputTransducerRun>,
    pub dispatch_count: usize,
    pub total_descriptor_count: usize,
    pub total_push_constant_byte_count: u32,
    pub execution_time_ns: u64,
}

#[verifier::ext_equal]
pub struct VulkanResidentSingleTokenTickRunView {
    pub device_id: Seq<char>,
    pub token_id: u32,
    pub input_run: VulkanResidentInputEmbeddingTransducerRunView,
    pub pedalboard_run: VulkanMountedPlacedResidentPedalboardRunView,
    pub output_run: Option<VulkanResidentOutputTransducerRunView>,
    pub dispatch_count: usize,
    pub total_descriptor_count: usize,
    pub total_push_constant_byte_count: u32,
    pub execution_time_ns: u64,
}

impl DeepView for VulkanResidentSingleTokenTickRun {
    type V = VulkanResidentSingleTokenTickRunView;

    open spec fn deep_view(&self) -> VulkanResidentSingleTokenTickRunView {
        VulkanResidentSingleTokenTickRunView {
            device_id: self.device_id.deep_view(),
            token_id: self.token_id,
            input_run: self.input_run.deep_view(),
            pedalboard_run: self.pedalboard_run.deep_view(),
            output_run: self.output_run.deep_view(),
            dispatch_count: self.dispatch_count,
            total_descriptor_count: self.total_descriptor_count,
            total_push_constant_byte_count: self.total_push_constant_byte_count,
            execution_time_ns: self.execution_time_ns,
        }
    }
}

impl View for VulkanResidentSingleTokenTickRun {
    type V = VulkanResidentSingleTokenTickRunView;

    open spec fn view(&self) -> VulkanResidentSingleTokenTickRunView {
        self.deep_view()
    }
}

impl Clone for VulkanResidentSingleTokenTickRun {
    fn clone(&self) -> (r: Self)
        ensures
            r@ == self@,
    {
        VulkanResidentSingleTokenTickRun {
            device_id: self.device_id.clone(),
            token_id: self.token_id,
            input_run: self.input_run.clone(),
            pedalboard_run: self.pedalboard_run.clone(),
            output_run: self.output_run.clone(),
            dispatch_count: self.dispatch_count,
            total_descriptor_count: self.total_descriptor_count,
            total_push_constant_byte_count: self.total_push_constant_byte_count,
            execution_time_ns: self.execution_time_ns,
        }
    }
}

/// A model whose samples are fed back to it.
#[derive(Debug, PartialEq, Eq)]
pub struct VulkanResidentFeedbackLoopRunner {
    pub device_id: String,
    pub pedal_count: usize,
    pub per_tick_dispatch_count: usize,
    pub per_tick_descriptor_count: usize,
    pub per_tick_push_constant_byte_count: u32,
    pub tick_runner: VulkanResidentSingleTokenTickRunner,
    pub sampler: VulkanResidentSamplerRunner,
}

#[verifier::ext_equal]
pub struct VulkanResidentFeedbackLoopRunnerView {
    pub device_id: Seq<char>,
    pub pedal_count: usize,
    pub per_tick_dispatch_count: usize,
    pub per_tick_descriptor_count: usize,
    pub per_tick_push_constant_byte_count: u32,
    pub tick_runner: VulkanResidentSingleTokenTickRunnerView,
    pub sampler: VulkanResidentSamplerRunnerView,
}

impl DeepView for VulkanResidentFeedbackLoopRunner {
    type V = VulkanResidentFeedbackLoopRunnerView;

    open spec fn deep_view(&self) -> VulkanResidentFeedbackLoopRunnerView {
        VulkanResidentFeedbackLoopRunnerView {
            device_id: self.device_id.deep_view(),
            pedal_count: self.pedal_count,
            per_tick_dispatch_count: self.per_tick_dispatch_count,
            per_tick_descriptor_count: self.per_tick_descriptor_count,
            per_tick_push_constant_byte_count: self.per_tick_push_constant_byte_count,
            tick_runner: self.tick_runner.deep_view(),
            sampler: self.sampler.deep_view(),
        }
    }
}

impl View for VulkanResidentFeedbackLoopRunner {
    type V = VulkanResidentFeedbackLoopRunnerView;

    open spec fn view(&self) -> VulkanResidentFeedbackLoopRunnerView {
        self.deep_view()
    }
}

impl Clone for VulkanResidentFeedbackLoopRunner {
    fn clone(&self) -> (r: Self)
        ensures
            r@ == self@,
    {
        VulkanResidentFeedbackLoopRunner {
            device_id: self.device_id.clone(),
            pedal_count: self.pedal_count,
            per_tick_dispatch_count: self.per_tick_dispatch_count,
            per_tick_descriptor_count: self.per_tick_descriptor_count,
            per_tick_push_constant_byte_count: self.per_tick_push_constant_byte_count,
            tick_runner: self.tick_runner.clone(),
            sampler: self.sampler.clone(),
        }
    }
}

/// A tick of the loop.
#[derive(Debug, PartialEq, Eq)]
pub struct VulkanResidentFeedbackTickRun {
    pub stream_tick: u64,
    pub input_token_id: u32,
    pub sampled_token_id: u32,
    pub tick_run: VulkanResidentSingleTokenTickRun,
    pub sampler_run: VulkanResidentSamplerRun,
}

#[verifier::ext_equal]
pub struct VulkanResidentFeedbackTickRunView {
    pub stream_tick: u64,
    pub input_token_id: u32,
    pub sampled_token_id: u32,
    pub tick_run: VulkanResidentSingleTokenTickRunView,
    pub sampler_run: VulkanResidentSamplerRunView,
}

impl DeepView for VulkanResidentFeedbackTickRun {
    type V = VulkanResidentFeedbackTickRunView;

    open spec fn deep_view(&self) -> VulkanResidentFeedbackTickRunView {
        VulkanResidentFeedbackTickRunView {
            stream_tick: self.stream_tick,
            input_token_id: self.input_token_id,
            sampled_token_id: self.sampled_token_id,
            tick_run: self.tick_run.deep_view(),
            sampler_run: self.sampler_run.deep_view(),
        }
    }
}

impl View for VulkanResidentFeedbackTickRun {
    type V = VulkanResidentFeedbackTickRunView;

    open spec fn view(&self) -> VulkanResidentFeedbackTickRunView {
        self.deep_view()
    }
}

impl Clone for VulkanResidentFeedbackTickRun {
    fn clone(&self) -> (r: Self)
        ensures
            r@ == self@,
    {
        VulkanResidentFeedbackTickRun {
            stream_tick: self.stream_tick,
            input_token_id: self.input_token_id,
            sampled_token_id: self.sampled_token_id,
            tick_run: self.tick_run.clone(),
            sampler_run: self.sampler_run.clone(),
        }
    }
}

/// A run of the loop.
#[derive(Debug, PartialEq, Eq)]
pub struct VulkanResidentFeedbackLoopRun {
    pub device_id: String,
    pub initial_token_id: u32,
    pub sampled_token_ids: Vec<u32>,
    pub tick_runs: Vec<VulkanResidentFeedbackTickRun>,
    pub per_tick_dispatch_count: usize,
    pub per_tick_descriptor_count: usize,
    pub per_tick_push_constant_byte_count: u32,
}

#[verifier::ext_equal]
pub struct VulkanResidentFeedbackLoopRunView {
    pub device_id: Seq<char>,
    pub initial_token_id: u32,
    pub sampled_token_ids: Seq<u32>,
    pub tick_runs: Seq<VulkanResidentFeedbackTickRunView>,
    pub per_tick_dispatch_count: usize,
    pub per_tick_descriptor_count: usize,
    pub per_tick_push_constant_byte_count: u32,
}

impl DeepView for VulkanResidentFeedbackLoopRun {
    type V = VulkanResidentFeedbackLoopRunView;

    open spec fn deep_view(&self) -> VulkanResidentFeedbackLoopRunView {
        VulkanResidentFeedbackLoopRunView {
            device_id: self.device_id.deep_view(),
            initial_token_id: self.initial_token_id,
            sampled_token_ids: self.sampled_token_ids.deep_view(),
            tick_runs: self.tick_runs.deep_view(),
            per_tick_dispatch_count: self.per_tick_dispatch_count,
            per_tick_descriptor_count: self.per_tick_descriptor_count,
            per_tick_push_constant_byte_count: self.per_tick_push_constant_byte_count,
        }
    }
}

impl View for VulkanResidentFeedbackLoopRun {
    type V = VulkanResidentFeedbackLoopRunView;

    open spec fn view(&self) -> VulkanResidentFeedbackLoopRunView {
        self.deep_view()
    }
}

impl Clone for VulkanResidentFeedbackLoopRun {
    fn clone(&self) -> (r: Self)
        ensures
            r@ == self@,
    {
        VulkanResidentFeedbackLoopRun {
            device_id: self.device_id.clone(),
            initial_token_id: self.initial_token_id,
            sampled_token_ids: self.sampled_token_ids.clone(),
            tick_runs: self.tick_runs.clone(),
            per_tick_dispatch_count: self.per_tick_dispatch_count,
            per_tick_descriptor_count: self.per_tick_descriptor_count,
            per_tick_push_constant_byte_count: self.per_tick_push_constant_byte_count,
        }
    }
}

/// A model whose samples are fed back to it.
pub open spec fn feedback_loop(
    tick_runner: VulkanResidentSingleTokenTickRunnerView,
    sampler: VulkanResidentSamplerRunnerView,
) -> Result<VulkanResidentFeedbackLoopRunnerView, VulkanResidentFeedbackLoopRunnerErrorView> {
    if tick_runner.dispatch_count + sampler.dispatch_count > usize::MAX {
        Err(VulkanResidentFeedbackLoopRunnerErrorView::DispatchCountOverflow)
    } else if tick_runner.total_descriptor_count + sampler.descriptor_count > usize::MAX {
        Err(VulkanResidentFeedbackLoopRunnerErrorView::DescriptorCountOverflow)
    } else if tick_runner.total_push_constant_byte_count + sampler.push_constant_byte_count
        > u32::MAX {
        Err(VulkanResidentFeedbackLoopRunnerErrorView::PushConstantByteCountOverflow)
    } else {
        Ok(
            VulkanResidentFeedbackLoopRunnerView {
                device_id: tick_runner.device_id,
                pedal_count: tick_runner.pedal_count,
                per_tick_dispatch_count: (tick_runner.dispatch_count
                    + sampler.dispatch_count) as usize,
                per_tick_descriptor_count: (tick_runner.total_descriptor_count
                    + sampler.descriptor_count) as usize,
                per_tick_push_constant_byte_count: (tick_runner.total_push_constant_byte_count
                    + sampler.push_constant_byte_count) as u32,
                tick_runner,
                sampler,
            },
        )
    }
}

/// What came of a tick, or why it failed.
pub type TickAnswer = Result<VulkanResidentSingleTokenTickRunView, Seq<char>>;

/// What the sampler chose, or why it failed.
pub type SamplerAnswer = Result<VulkanResidentSamplerRunView, Seq<char>>;

/// The token that goes into tick `n`: the initial token, then what was sampled in the tick before.
pub open spec fn fed_token(
    initial_token_id: u32,
    ticks: Seq<VulkanResidentFeedbackTickRunView>,
) -> u32 {
    if ticks.len() == 0 {
        initial_token_id
    } else {
        ticks.last().sampled_token_id
    }
}

/// The first `n` ticks of the loop, up to the first failure.
pub open spec fn feedback_ticks(
    initial_token_id: u32,
    start_stream_tick: u64,
    ticks: Seq<TickAnswer>,
    samples: Seq<SamplerAnswer>,
    n: nat,
) -> Result<Seq<VulkanResidentFeedbackTickRunView>, VulkanResidentFeedbackLoopRunnerErrorView>
    decreases n,
{
    if n == 0 {
        Ok(Seq::empty())
    } else {
        match feedback_ticks(
            initial_token_id,
            start_stream_tick,
            ticks,
            samples,
            (n - 1) as nat,
        ) {
            Err(error) => Err(error),
            Ok(done) => if start_stream_tick + (n - 1) > u64::MAX {
                Err(VulkanResidentFeedbackLoopRunnerErrorView::StreamTickOverflow)
            } else {
                match ticks[n - 1] {
                    Err(error) => Err(VulkanResidentFeedbackLoopRunnerErrorView::Tick(error)),
                    Ok(tick_run) => match samples[n - 1] {
                        Err(error) => Err(
                            VulkanResidentFeedbackLoopRunnerErrorView::Sampler(error),
                        ),
                        Ok(sampler_run) => Ok(
                            done.push(
                                VulkanResidentFeedbackTickRunView {
                                    stream_tick: (start_stream_tick + (n - 1)) as u64,
                                    input_token_id: fed_token(initial_token_id, done),
                                    sampled_token_id: sampler_run.token_id,
                                    tick_run,
                                    sampler_run,
                                },
                            ),
                        ),
                    },
                }
            },
        }
    }
}

proof fn lemma_feedback_ticks_error(
    initial_token_id: u32,
    start_stream_tick: u64,
    ticks: Seq<TickAnswer>,
    samples: Seq<SamplerAnswer>,
    i: nat,
    n: nat,
)
    requires
        i <= n,
        feedback_ticks(initial_token_id, start_stream_tick, ticks, samples, i) is Err,
    ensures
        feedback_ticks(initial_token_id, start_stream_tick, ticks, samples, n) == feedback_ticks(
            initial_token_id,
            start_stream_tick,
            ticks,
            samples,
            i,
        ),
    decreases n - i,
{
    if i < n {
        lemma_feedback_ticks_error(initial_token_id, start_stream_tick, ticks, samples, i + 1, n);
    }
}

/// The token that was sampled in a tick.
pub open spec fn sampled_token() -> spec_fn(VulkanResidentFeedbackTickRunView) -> u32 {
    |tick: VulkanResidentFeedbackTickRunView| tick.sampled_token_id
}

/// A run of the loop with these ticks.
pub open spec fn loop_run(
    runner: VulkanResidentFeedbackLoopRunnerView,
    initial_token_id: u32,
    ticks: Seq<VulkanResidentFeedbackTickRunView>,
) -> VulkanResidentFeedbackLoopRunView {
    VulkanResidentFeedbackLoopRunView {
        device_id: runner.device_id,
        initial_token_id,
        sampled_token_ids: ticks.map_values(sampled_token()),
        tick_runs: ticks,
        per_tick_dispatch_count: runner.per_tick_dispatch_count,
        per_tick_descriptor_count: runner.per_tick_descriptor_count,
        per_tick_push_constant_byte_count: runner.per_tick_push_constant_byte_count,
    }
}

/// A run of the loop over `max_ticks` ticks.
pub open spec fn bounded_run(
    runner: VulkanResidentFeedbackLoopRunnerView,
    initial_token_id: u32,
    start_stream_tick: u64,
    max_ticks: usize,
    ticks: Seq<TickAnswer>,
    samples: Seq<SamplerAnswer>,
) -> Result<VulkanResidentFeedbackLoopRunView, VulkanResidentFeedbackLoopRunnerErrorView> {
    if max_ticks == 0 {
        Err(VulkanResidentFeedbackLoopRunnerErrorView::ZeroTickBudget)
    } else {
        match feedback_ticks(
            initial_token_id,
            start_stream_tick,
            ticks,
            samples,
            max_ticks as nat,
        ) {
            Err(error) => Err(error),
            Ok(done) => Ok(loop_run(runner, initial_token_id, done)),
        }
    }
}

/// Whether the answers reach as far as the ticks get.
pub open spec fn ticks_answered(
    initial_token_id: u32,
    start_stream_tick: u64,
    max_ticks: usize,
    ticks: Seq<TickAnswer>,
    samples: Seq<SamplerAnswer>,
) -> bool {
    forall|k: nat|
        k < max_ticks && (#[trigger] feedback_ticks(
            initial_token_id,
            start_stream_tick,
            ticks,
            samples,
            k,
        )) is Ok && start_stream_tick + k <= u64::MAX ==> k < ticks.len() && (ticks[k as int] is Ok
            ==> k < samples.len())
}

/// What a tick hands to the device: the token, where the stream stands, whether the token is
/// already resident, and whether the tick samples.
#[derive(Clone, Copy, Debug, PartialEq, Eq, Structural)]
pub struct VulkanResidentFeedbackTickInput {
    pub input_token_id: u32,
    pub control: VulkanMountedPlacedStreamControl,
    pub input_token_is_resident: bool,
    pub emit_output: bool,
}

impl DeepView for VulkanResidentFeedbackTickInput {
    type V = VulkanResidentFeedbackTickInput;

    open spec fn deep_view(&self) -> VulkanResidentFeedbackTickInput {
        *self
    }
}

// ---------------------------------------------------------------------------
// Many ticks in one recording
// ---------------------------------------------------------------------------

/// The kernel of a pedal's launch.
pub open spec fn pedal_kernel() -> spec_fn(VulkanMountedPlacedResidentPedalDispatchView) -> VulkanResidentKernelDispatchView {
    |dispatch: VulkanMountedPlacedResidentPedalDispatchView| dispatch.resident_dispatch
}

/// The kernels of the pedals, pedal by pedal.
pub open spec fn pedal_kernels(pedals: Seq<VulkanMountedPlacedResidentPedalRunnerView>) -> Seq<
    VulkanResidentKernelDispatchView,
>
    decreases pedals.len(),
{
    if pedals.len() == 0 {
        Seq::empty()
    } else {
        pedal_kernels(pedals.drop_last()) + pedals.last().dispatches.map_values(pedal_kernel())
    }
}

/// The kernels of one tick: the input transducer, the launches that keep track of the input, the
/// pedals, the output transducer and the sampler.
pub open spec fn tick_kernels(runner: VulkanResidentFeedbackLoopRunnerView) -> Seq<
    VulkanResidentKernelDispatchView,
> {
    seq![runner.tick_runner.input_transducer.resident_dispatch]
        + runner.sampler.input_tracking_dispatches + pedal_kernels(
        runner.tick_runner.pedalboard.pedals,
    ) + seq![
        runner.tick_runner.output_transducer.embedding_norm_dispatch,
        runner.tick_runner.output_transducer.tied_projection_dispatch,
    ] + runner.sampler.resident_dispatches
}

/// A list, `n` times over.
pub open spec fn repeated<A>(s: Seq<A>, n: nat) -> Seq<A>
    decreases n,
{
    if n == 0 {
        Seq::empty()
    } else {
        repeated(s, (n - 1) as nat) + s
    }
}

/// What the state snapshots of a cycle of ticks are planned from: how many launches a tick has, and
/// how many ticks there are.
#[derive(Clone, Copy, Debug, PartialEq, Eq, Structural)]
pub struct VulkanResidentCycleSnapshotRequest {
    pub steps_per_tick: usize,
    pub tick_count: usize,
}

impl DeepView for VulkanResidentCycleSnapshotRequest {
    type V = VulkanResidentCycleSnapshotRequest;

    open spec fn deep_view(&self) -> VulkanResidentCycleSnapshotRequest {
        *self
    }
}

/// The error where a cycle of ticks cannot be recorded.
pub open spec fn cycle_error(
    runner: VulkanResidentFeedbackLoopRunnerView,
    tick_count: usize,
    snapshot_capacity: usize,
) -> Option<VulkanResidentFeedbackLoopRunnerErrorView> {
    if tick_count == 0 {
        Some(VulkanResidentFeedbackLoopRunnerErrorView::ZeroTickBudget)
    } else if tick_count > snapshot_capacity || tick_count
        > runner.sampler.history_capacity_activations {
        Some(
            VulkanResidentFeedbackLoopRunnerErrorView::FeedbackCycleWidthExceeded {
                requested: tick_count,
                snapshot_capacity,
                sampler_history_capacity: runner.sampler.history_capacity_activations,
            },
        )
    } else if runner.per_tick_push_constant_byte_count != 0 {
        Some(
            VulkanResidentFeedbackLoopRunnerErrorView::FeedbackCyclePushConstants {
                byte_count: runner.per_tick_push_constant_byte_count,
            },
        )
    } else if runner.per_tick_dispatch_count * tick_count > usize::MAX {
        Some(VulkanResidentFeedbackLoopRunnerErrorView::DispatchCountOverflow)
    } else {
        None
    }
}

/// The launches of a cycle of ticks.
pub open spec fn cycle_steps(
    runner: VulkanResidentFeedbackLoopRunnerView,
    tick_count: usize,
    snapshot_capacity: usize,
) -> Result<Seq<VulkanResidentKernelSequenceStepView>, VulkanResidentFeedbackLoopRunnerErrorView> {
    match cycle_error(runner, tick_count, snapshot_capacity) {
        Some(error) => Err(error),
        None => Ok(device::plain_steps(repeated(tick_kernels(runner), tick_count as nat))),
    }
}

/// A tick of a recorded cycle.
pub open spec fn cycle_tick_run(
    runner: VulkanResidentSingleTokenTickRunnerView,
    token_id: u32,
    execution_time_ns: u64,
) -> VulkanResidentSingleTokenTickRunView {
    VulkanResidentSingleTokenTickRunView {
        device_id: runner.device_id,
        token_id,
        input_run: input_transducer::embedded(runner.input_transducer, token_id),
        pedalboard_run: runner.completed_pedalboard_run,
        output_run: Some(runner.completed_output_run),
        dispatch_count: runner.dispatch_count,
        total_descriptor_count: runner.total_descriptor_count,
        total_push_constant_byte_count: runner.total_push_constant_byte_count,
        execution_time_ns,
    }
}

/// The first `n` ticks of a recorded cycle, each of which took `time`.
pub open spec fn cycle_ticks(
    runner: VulkanResidentSingleTokenTickRunnerView,
    initial_token_id: u32,
    start_stream_tick: u64,
    time: u64,
    samples: Seq<SamplerAnswer>,
    n: nat,
) -> Result<Seq<VulkanResidentFeedbackTickRunView>, VulkanResidentFeedbackLoopRunnerErrorView>
    decreases n,
{
    if n == 0 {
        Ok(Seq::empty())
    } else {
        match cycle_ticks(
            runner,
            initial_token_id,
            start_stream_tick,
            time,
            samples,
            (n - 1) as nat,
        ) {
            Err(error) => Err(error),
            Ok(done) => if start_stream_tick + (n - 1) > u64::MAX {
                Err(VulkanResidentFeedbackLoopRunnerErrorView::StreamTickOverflow)
            } else {
                match samples[n - 1] {
                    Err(error) => Err(VulkanResidentFeedbackLoopRunnerErrorView::Sampler(error)),
                    Ok(sampler_run) => {
                        let input_token_id = fed_token(initial_token_id, done);
                        Ok(
                            done.push(
                                VulkanResidentFeedbackTickRunView {
                                    stream_tick: (start_stream_tick + (n - 1)) as u64,
                                    input_token_id,
                                    sampled_token_id: sampler_run.token_id,
                                    tick_run: cycle_tick_run(runner, input_token_id, time),
                                    sampler_run,
                                },
                            ),
                        )
                    },
                }
            },
        }
    }
}

proof fn lemma_cycle_ticks_error(
    runner: VulkanResidentSingleTokenTickRunnerView,
    initial_token_id: u32,
    start_stream_tick: u64,
    time: u64,
    samples: Seq<SamplerAnswer>,
    i: nat,
    n: nat,
)
    requires
        i <= n,
        cycle_ticks(runner, initial_token_id, start_stream_tick, time, samples, i) is Err,
    ensures
        cycle_ticks(runner, initial_token_id, start_stream_tick, time, samples, n) == cycle_ticks(
            runner,
            initial_token_id,
            start_stream_tick,
            time,
            samples,
            i,
        ),
    decreases n - i,
{
    if i < n {
        lemma_cycle_ticks_error(
            runner,
            initial_token_id,
            start_stream_tick,
            time,
            samples,
            i + 1,
            n,
        );
    }
}

/// A recorded cycle of ticks, from what came of planning the snapshots, of running the recording
/// and of reading the samples.
pub open spec fn cycle_run(
    runner: VulkanResidentFeedbackLoopRunnerView,
    initial_token_id: u32,
    start_stream_tick: u64,
    tick_count: usize,
    snapshot_capacity: usize,
    snapshots: Result<(), Seq<char>>,
    ran: Result<u64, Seq<char>>,
    samples: Seq<SamplerAnswer>,
) -> Result<VulkanResidentFeedbackLoopRunView, VulkanResidentFeedbackLoopRunnerErrorView> {
    match cycle_error(runner, tick_count, snapshot_capacity) {
        Some(error) => Err(error),
        None => match snapshots {
            Err(error) => Err(VulkanResidentFeedbackLoopRunnerErrorView::Vulkan(error)),
            Ok(_) => match ran {
                Err(error) => Err(VulkanResidentFeedbackLoopRunnerErrorView::Vulkan(error)),
                Ok(time) => match cycle_ticks(
                    runner.tick_runner,
                    initial_token_id,
                    start_stream_tick,
                    (time / tick_count as u64) as u64,
                    samples,
                    tick_count as nat,
                ) {
                    Err(error) => Err(error),
                    Ok(done) => Ok(loop_run(runner, initial_token_id, done)),
                },
            },
        },
    }
}

/// Whether the samples of a cycle reach as far as its ticks get.
pub open spec fn cycle_answered(
    runner: VulkanResidentSingleTokenTickRunnerView,
    initial_token_id: u32,
    start_stream_tick: u64,
    time: u64,
    tick_count: usize,
    samples: Seq<SamplerAnswer>,
) -> bool {
    forall|k: nat|
        k < tick_count && (#[trigger] cycle_ticks(
            runner,
            initial_token_id,
            start_stream_tick,
            time,
            samples,
            k,
        )) is Ok && start_stream_tick + k <= u64::MAX ==> k < samples.len()
}

impl VulkanResidentFeedbackLoopRunner {
    /// A model whose samples are fed back to it.
    pub fn new(
        tick_runner: VulkanResidentSingleTokenTickRunner,
        sampler: VulkanResidentSamplerRunner,
    ) -> (r: Result<Self, VulkanResidentFeedbackLoopRunnerError>)
        ensures
            sequence::outcome(r) == feedback_loop(tick_runner@, sampler@),
    {
        let per_tick_dispatch_count: usize = match tick_runner.dispatch_count.checked_add(
            sampler.dispatch_count,
        ) {
            None => {
                return Err(VulkanResidentFeedbackLoopRunnerError::DispatchCountOverflow);
            },
            Some(count) => count,
        };
        let per_tick_descriptor_count: usize = match tick_runner.total_descriptor_count.checked_add(
            sampler.descriptor_count,
        ) {
            None => {
                return Err(VulkanResidentFeedbackLoopRunnerError::DescriptorCountOverflow);
            },
            Some(count) => count,
        };
        let per_tick_push_constant_byte_count: u32 =
            match tick_runner.total_push_constant_byte_count.checked_add(
            sampler.push_constant_byte_count,
        ) {
            None => {
                return Err(VulkanResidentFeedbackLoopRunnerError::PushConstantByteCountOverflow);
            },
            Some(count) => count,
        };
        Ok(
            VulkanResidentFeedbackLoopRunner {
                device_id: tick_runner.device_id.clone(),
                pedal_count: tick_runner.pedal_count,
                per_tick_dispatch_count,
                per_tick_descriptor_count,
                per_tick_push_constant_byte_count,
                tick_runner,
                sampler,
            },
        )
    }

    /// What tick `tick_index` of a run hands to the device, where `previous` was sampled in the tick
    /// before.
    pub fn bounded_tick_input(
        &self,
        initial_token_id: u32,
        start_stream_tick: u64,
        dynamic_state_capacity_activations: u32,
        tick_index: usize,
        previous: Option<u32>,
    ) -> (r: Result<VulkanResidentFeedbackTickInput, VulkanResidentFeedbackLoopRunnerError>)
        requires
            tick_index > 0 ==> previous is Some,
        ensures
            sequence::outcome(r) == (if start_stream_tick + tick_index > u64::MAX {
                Err(VulkanResidentFeedbackLoopRunnerErrorView::StreamTickOverflow)
            } else {
                Ok(
                    VulkanResidentFeedbackTickInput {
                        input_token_id: if tick_index == 0 {
                            initial_token_id
                        } else {
                            previous->Some_0
                        },
                        control: VulkanMountedPlacedStreamControl {
                            stream_tick: (start_stream_tick + tick_index) as u64,
                            control_flags: 0,
                            dynamic_state_capacity_activations,
                        },
                        input_token_is_resident: tick_index != 0,
                        emit_output: true,
                    },
                )
            }),
    {
        let stream_tick: u64 = match start_stream_tick.checked_add(tick_index as u64) {
            None => {
                return Err(VulkanResidentFeedbackLoopRunnerError::StreamTickOverflow);
            },
            Some(stream_tick) => stream_tick,
        };
        let input_token_id: u32 = match previous {
            Some(token_id) => if tick_index == 0 {
                initial_token_id
            } else {
                token_id
            },
            None => initial_token_id,
        };
        Ok(
            VulkanResidentFeedbackTickInput {
                input_token_id,
                control: VulkanMountedPlacedStreamControl {
                    stream_tick,
                    control_flags: 0,
                    dynamic_state_capacity_activations,
                },
                input_token_is_resident: tick_index != 0,
                emit_output: true,
            },
        )
    }

    /// The run of the loop over `max_ticks` ticks, from what came of each tick and of each sample,
    /// up to the first failure.
    #[verifier::loop_isolation(false)]
    pub fn run_bounded(
        &self,
        initial_token_id: u32,
        start_stream_tick: u64,
        max_ticks: usize,
        ticks: &Vec<
            Result<VulkanResidentSingleTokenTickRun, VulkanResidentSingleTokenTickRunnerError>,
        >,
        samples: &Vec<Result<VulkanResidentSamplerRun, VulkanResidentSamplerRunnerError>>,
    ) -> (r: Result<VulkanResidentFeedbackLoopRun, VulkanResidentFeedbackLoopRunnerError>)
        requires
            ticks_answered(
                initial_token_id,
                start_stream_tick,
                max_ticks,
                sequence::outcomes(ticks@),
                sequence::outcomes(samples@),
            ),
        ensures
            sequence::outcome(r) == bounded_run(
                self@,
                initial_token_id,
                start_stream_tick,
                max_ticks,
                sequence::outcomes(ticks@),
                sequence::outcomes(samples@),
            ),
    {
        if max_ticks == 0 {
            return Err(VulkanResidentFeedbackLoopRunnerError::ZeroTickBudget);
        }
        let ghost all_ticks = sequence::outcomes(ticks@);
        let ghost all_samples = sequence::outcomes(samples@);
        let mut input_token_id: u32 = initial_token_id;
        let mut tick_runs: Vec<VulkanResidentFeedbackTickRun> = Vec::new();
        let mut sampled_token_ids: Vec<u32> = Vec::new();
        let mut i: usize = 0;
        assert(tick_runs.deep_view() =~= Seq::empty());
        assert(sampled_token_ids.deep_view() =~= tick_runs.deep_view().map_values(
            sampled_token(),
        ));
        while i < max_ticks
            invariant
                i <= max_ticks,
                feedback_ticks(
                    initial_token_id,
                    start_stream_tick,
                    all_ticks,
                    all_samples,
                    i as nat,
                ) == Ok::<
                    Seq<VulkanResidentFeedbackTickRunView>,
                    VulkanResidentFeedbackLoopRunnerErrorView,
                >(tick_runs.deep_view()),
                input_token_id == fed_token(initial_token_id, tick_runs.deep_view()),
                sampled_token_ids.deep_view() == tick_runs.deep_view().map_values(
                    sampled_token(),
                ),
            decreases max_ticks - i,
        {
            proof {
                assert(feedback_ticks(
                    initial_token_id,
                    start_stream_tick,
                    all_ticks,
                    all_samples,
                    i as nat,
                ) is Ok);
                if feedback_ticks(
                    initial_token_id,
                    start_stream_tick,
                    all_ticks,
                    all_samples,
                    (i + 1) as nat,
                ) is Err {
                    lemma_feedback_ticks_error(
                        initial_token_id,
                        start_stream_tick,
                        all_ticks,
                        all_samples,
                        (i + 1) as nat,
                        max_ticks as nat,
                    );
                }
            }
            let stream_tick: u64 = match start_stream_tick.checked_add(i as u64) {
                None => {
                    return Err(VulkanResidentFeedbackLoopRunnerError::StreamTickOverflow);
                },
                Some(stream_tick) => stream_tick,
            };
            assert(all_ticks[i as int] == sequence::outcome(ticks@[i as int]));
            let tick_run: VulkanResidentSingleTokenTickRun = match &ticks[i] {
                Err(error) => {
                    return Err(VulkanResidentFeedbackLoopRunnerError::from(error.clone()));
                },
                Ok(tick_run) => tick_run.clone(),
            };
            assert(all_samples[i as int] == sequence::outcome(samples@[i as int]));
            let sampler_run: VulkanResidentSamplerRun = match &samples[i] {
                Err(error) => {
                    return Err(VulkanResidentFeedbackLoopRunnerError::from(error.clone()));
                },
                Ok(sampler_run) => sampler_run.clone(),
            };
            let sampled_token_id: u32 = sampler_run.token_id;
            let ghost before = tick_runs.deep_view();
            let ghost ids = sampled_token_ids.deep_view();
            let run = VulkanResidentFeedbackTickRun {
                stream_tick,
                input_token_id,
                sampled_token_id,
                tick_run,
                sampler_run,
            };
            let ghost added = run@;
            tick_runs.push(run);
            sampled_token_ids.push(sampled_token_id);
            assert(tick_runs.deep_view() =~= before.push(added));
            assert(sampled_token_ids.deep_view() =~= ids.push(sampled_token_id));
            assert(sampled_token_ids.deep_view() =~= tick_runs.deep_view().map_values(
                sampled_token(),
            ));
            input_token_id = sampled_token_id;
            i += 1;
        }
        Ok(
            VulkanResidentFeedbackLoopRun {
                device_id: self.device_id.clone(),
                initial_token_id,
                sampled_token_ids,
                tick_runs,
                per_tick_dispatch_count: self.per_tick_dispatch_count,
                per_tick_descriptor_count: self.per_tick_descriptor_count,
                per_tick_push_constant_byte_count: self.per_tick_push_constant_byte_count,
            },
        )
    }

    fn check_cycle(&self, tick_count: usize, snapshot_capacity: usize) -> (r: Result<
        (),
        VulkanResidentFeedbackLoopRunnerError,
    >)
        ensures
            sequence::outcome(r) == (match cycle_error(self@, tick_count, snapshot_capacity) {
                Some(error) => Err::<(), VulkanResidentFeedbackLoopRunnerErrorView>(error),
                None => Ok(()),
            }),
    {
        if tick_count == 0 {
            return Err(VulkanResidentFeedbackLoopRunnerError::ZeroTickBudget);
        }
        if tick_count > snapshot_capacity || tick_count
            > self.sampler.history_capacity_activations {
            return Err(
                VulkanResidentFeedbackLoopRunnerError::FeedbackCycleWidthExceeded {
                    requested: tick_count,
                    snapshot_capacity,
                    sampler_history_capacity: self.sampler.history_capacity_activations,
                },
            );
        }
        if self.per_tick_push_constant_byte_count != 0 {
            return Err(
                VulkanResidentFeedbackLoopRunnerError::FeedbackCyclePushConstants {
                    byte_count: self.per_tick_push_constant_byte_count,
                },
            );
        }
        match self.per_tick_dispatch_count.checked_mul(tick_count) {
            None => Err(VulkanResidentFeedbackLoopRunnerError::DispatchCountOverflow),
            Some(_) => Ok(()),
        }
    }

    #[verifier::loop_isolation(false)]
    fn push_pedal_steps(
        &self,
        steps: &mut Vec<VulkanResidentKernelSequenceStep>,
        Ghost(done): Ghost<Seq<VulkanResidentKernelDispatchView>>,
    )
        requires
            old(steps).deep_view() == device::plain_steps(done),
        ensures
            final(steps).deep_view() == device::plain_steps(
                done + pedal_kernels(self@.tick_runner.pedalboard.pedals),
            ),
    {
        let pedals = &self.tick_runner.pedalboard.pedals;
        let ghost all = pedals.deep_view();
        let mut i: usize = 0;
        assert(all.take(0) =~= Seq::empty());
        assert(done + pedal_kernels(all.take(0)) =~= done);
        while i < pedals.len()
            invariant
                i <= pedals.len(),
                steps.deep_view() == device::plain_steps(done + pedal_kernels(all.take(i as int))),
            decreases pedals.len() - i,
        {
            let pedal = &pedals[i];
            let ghost here = done + pedal_kernels(all.take(i as int));
            let ghost kernels = pedal@.dispatches.map_values(pedal_kernel());
            assert(all[i as int] == pedal@);
            assert(all.take(i + 1).drop_last() =~= all.take(i as int));
            assert(pedal@.dispatches.len() == pedal.dispatches@.len());
            let mut j: usize = 0;
            assert(here + kernels.take(0) =~= here);
            while j < pedal.dispatches.len()
                invariant
                    j <= pedal.dispatches.len(),
                    steps.deep_view() == device::plain_steps(here + kernels.take(j as int)),
                decreases pedal.dispatches.len() - j,
            {
                assert(kernels[j as int] == pedal.dispatches@[j as int].resident_dispatch@);
                device::push_plain_step(
                    steps,
                    &pedal.dispatches[j].resident_dispatch,
                    Ghost(here + kernels.take(j as int)),
                );
                assert((here + kernels.take(j as int)).push(kernels[j as int]) =~= here
                    + kernels.take(j + 1));
                j += 1;
            }
            assert(kernels.take(kernels.len() as int) =~= kernels);
            assert(here + kernels =~= done + pedal_kernels(all.take(i + 1)));
            i += 1;
        }
        assert(all.take(all.len() as int) =~= all);
    }

    /// The launches of a cycle of ticks, which are recorded together.
    #[verifier::loop_isolation(false)]
    pub fn cycle_steps(&self, tick_count: usize, snapshot_capacity: usize) -> (r: Result<
        Vec<VulkanResidentKernelSequenceStep>,
        VulkanResidentFeedbackLoopRunnerError,
    >)
        ensures
            sequence::outcome(r) == cycle_steps(self@, tick_count, snapshot_capacity),
    {
        match self.check_cycle(tick_count, snapshot_capacity) {
            Err(error) => {
                return Err(error);
            },
            Ok(()) => {},
        }
        let ghost kernels = tick_kernels(self@);
        let mut steps: Vec<VulkanResidentKernelSequenceStep> = Vec::new();
        let mut i: usize = 0;
        assert(steps.deep_view() =~= device::plain_steps(repeated(kernels, 0)));
        while i < tick_count
            invariant
                i <= tick_count,
                steps.deep_view() == device::plain_steps(repeated(kernels, i as nat)),
            decreases tick_count - i,
        {
            let ghost first = repeated(kernels, i as nat);
            device::push_plain_step(
                &mut steps,
                &self.tick_runner.input_transducer.resident_dispatch,
                Ghost(first),
            );
            let ghost second = first.push(self@.tick_runner.input_transducer.resident_dispatch);
            device::push_plain_steps(&mut steps, &self.sampler.input_tracking_dispatches, Ghost(second));
            let ghost third = second + self@.sampler.input_tracking_dispatches;
            self.push_pedal_steps(&mut steps, Ghost(third));
            let ghost fourth = third + pedal_kernels(self@.tick_runner.pedalboard.pedals);
            device::push_plain_step(
                &mut steps,
                &self.tick_runner.output_transducer.embedding_norm_dispatch,
                Ghost(fourth),
            );
            let ghost fifth = fourth.push(
                self@.tick_runner.output_transducer.embedding_norm_dispatch,
            );
            device::push_plain_step(
                &mut steps,
                &self.tick_runner.output_transducer.tied_projection_dispatch,
                Ghost(fifth),
            );
            let ghost sixth = fifth.push(
                self@.tick_runner.output_transducer.tied_projection_dispatch,
            );
            device::push_plain_steps(&mut steps, &self.sampler.resident_dispatches, Ghost(sixth));
            i += 1;
            assert(sixth + self@.sampler.resident_dispatches =~= repeated(kernels, i as nat));
        }
        Ok(steps)
    }

    /// What the state snapshots of a cycle of ticks are planned from.
    pub fn cycle_snapshot_request(&self, tick_count: usize, snapshot_capacity: usize) -> (r: Result<
        VulkanResidentCycleSnapshotRequest,
        VulkanResidentFeedbackLoopRunnerError,
    >)
        ensures
            sequence::outcome(r) == (match cycle_error(self@, tick_count, snapshot_capacity) {
                Some(error) => Err::<
                    VulkanResidentCycleSnapshotRequest,
                    VulkanResidentFeedbackLoopRunnerErrorView,
                >(error),
                None => Ok(
                    VulkanResidentCycleSnapshotRequest {
                        steps_per_tick: self@.per_tick_dispatch_count,
                        tick_count,
                    },
                ),
            }),
    {
        match self.check_cycle(tick_count, snapshot_capacity) {
            Err(error) => Err(error),
            Ok(()) => Ok(
                VulkanResidentCycleSnapshotRequest {
                    steps_per_tick: self.per_tick_dispatch_count,
                    tick_count,
                },
            ),
        }
    }

    /// The tick at which the sample of a cycle's tick is read.
    pub fn cycle_sample_tick(start_stream_tick: u64, tick_index: usize) -> (r: Result<
        u64,
        VulkanResidentFeedbackLoopRunnerError,
    >)
        ensures
            sequence::outcome(r) == (if start_stream_tick + tick_index > u64::MAX {
                Err::<u64, VulkanResidentFeedbackLoopRunnerErrorView>(
                    VulkanResidentFeedbackLoopRunnerErrorView::StreamTickOverflow,
                )
            } else {
                Ok((start_stream_tick + tick_index) as u64)
            }),
    {
        match start_stream_tick.checked_add(tick_index as u64) {
            None => Err(VulkanResidentFeedbackLoopRunnerError::StreamTickOverflow),
            Some(tick) => Ok(tick),
        }
    }

    /// The run of a recorded cycle of ticks, from what came of planning the state snapshots, of
    /// running the recording (how long it took) and of reading the samples.
    #[verifier::loop_isolation(false)]
    pub fn run_resident_feedback_cycle(
        &self,
        initial_token_id: u32,
        start_stream_tick: u64,
        tick_count: usize,
        snapshot_capacity: usize,
        snapshots: &Result<(), VulkanError>,
        ran: &Result<u64, VulkanError>,
        samples: &Vec<Result<VulkanResidentSamplerRun, VulkanResidentSamplerRunnerError>>,
    ) -> (r: Result<VulkanResidentFeedbackLoopRun, VulkanResidentFeedbackLoopRunnerError>)
        requires
            tick_count > 0 && ran is Ok ==> cycle_answered(
                self@.tick_runner,
                initial_token_id,
                start_stream_tick,
                (ran->Ok_0 / tick_count as u64) as u64,
                tick_count,
                sequence::outcomes(samples@),
            ),
        ensures
            sequence::outcome(r) == cycle_run(
                self@,
                initial_token_id,
                start_stream_tick,
                tick_count,
                snapshot_capacity,
                sequence::outcome(*snapshots),
                sequence::outcome(*ran),
                sequence::outcomes(samples@),
            ),
    {
        match self.check_cycle(tick_count, snapshot_capacity) {
            Err(error) => {
                return Err(error);
            },
            Ok(()) => {},
        }
        match snapshots {
            Err(error) => {
                return Err(VulkanResidentFeedbackLoopRunnerError::from(error.clone()));
            },
            Ok(_) => {},
        }
        let time: u64 = match ran {
            Err(error) => {
                return Err(VulkanResidentFeedbackLoopRunnerError::from(error.clone()));
            },
            Ok(time) => *time / tick_count as u64,
        };
        let ghost all_samples = sequence::outcomes(samples@);
        let mut input_token_id: u32 = initial_token_id;
        let mut tick_runs: Vec<VulkanResidentFeedbackTickRun> = Vec::new();
        let mut sampled_token_ids: Vec<u32> = Vec::new();
        let mut i: usize = 0;
        assert(tick_runs.deep_view() =~= Seq::empty());
        assert(sampled_token_ids.deep_view() =~= tick_runs.deep_view().map_values(
            sampled_token(),
        ));
        while i < tick_count
            invariant
                i <= tick_count,
                cycle_ticks(
                    self@.tick_runner,
                    initial_token_id,
                    start_stream_tick,
                    time,
                    all_samples,
                    i as nat,
                ) == Ok::<
                    Seq<VulkanResidentFeedbackTickRunView>,
                    VulkanResidentFeedbackLoopRunnerErrorView,
                >(tick_runs.deep_view()),
                input_token_id == fed_token(initial_token_id, tick_runs.deep_view()),
                sampled_token_ids.deep_view() == tick_runs.deep_view().map_values(
                    sampled_token(),
                ),
            decreases tick_count - i,
        {
            proof {
                assert(cycle_ticks(
                    self@.tick_runner,
                    initial_token_id,
                    start_stream_tick,
                    time,
                    all_samples,
                    i as nat,
                ) is Ok);
                if cycle_ticks(
                    self@.tick_runner,
                    initial_token_id,
                    start_stream_tick,
                    time,
                    all_samples,
                    (i + 1) as nat,
                ) is Err {
                    lemma_cycle_ticks_error(
                        self@.tick_runner,
                        initial_token_id,
                        start_stream_tick,
                        time,
                        all_samples,
                        (i + 1) as nat,
                        tick_count as nat,
                    );
                }
            }
            let stream_tick: u64 = match start_stream_tick.checked_add(i as u64) {
                None => {
                    return Err(VulkanResidentFeedbackLoopRunnerError::StreamTickOverflow);
                },
                Some(stream_tick) => stream_tick,
            };
            assert(all_samples[i as int] == sequence::outcome(samples@[i as int]));
            let sampler_run: VulkanResidentSamplerRun = match &samples[i] {
                Err(error) => {
                    return Err(VulkanResidentFeedbackLoopRunnerError::from(error.clone()));
                },
                Ok(sampler_run) => sampler_run.clone(),
            };
            let sampled_token_id: u32 = sampler_run.token_id;
            let tick_run = VulkanResidentSingleTokenTickRun {
                device_id: self.tick_runner.device_id.clone(),
                token_id: input_token_id,
                input_run: self.tick_runner.input_transducer.completed_run(input_token_id),
                pedalboard_run: self.tick_runner.completed_pedalboard_run.clone(),
                output_run: Some(self.tick_runner.completed_output_run.clone()),
                dispatch_count: self.tick_runner.dispatch_count,
                total_descriptor_count: self.tick_runner.total_descriptor_count,
                total_push_constant_byte_count: self.tick_runner.total_push_constant_byte_count,
                execution_time_ns: time,
            };
            let ghost before = tick_runs.deep_view();
            let ghost ids = sampled_token_ids.deep_view();
            let run = VulkanResidentFeedbackTickRun {
                stream_tick,
                input_token_id,
                sampled_token_id,
                tick_run,
                sampler_run,
            };
            let ghost added = run@;
            tick_runs.push(run);
            sampled_token_ids.push(sampled_token_id);
            assert(tick_runs.deep_view() =~= before.push(added));
            assert(sampled_token_ids.deep_view() =~= ids.push(sampled_token_id));
            assert(sampled_token_ids.deep_view() =~= tick_runs.deep_view().map_values(
                sampled_token(),
            ));
            input_token_id = sampled_token_id;
            i += 1;
        }
        Ok(
            VulkanResidentFeedbackLoopRun {
                device_id: self.device_id.clone(),
                initial_token_id,
                sampled_token_ids,
                tick_runs,
                per_tick_dispatch_count: self.per_tick_dispatch_count,
                per_tick_descriptor_count: self.per_tick_descriptor_count,
                per_tick_push_constant_byte_count: self.per_tick_push_constant_byte_count,
            },
        )
    }
}

/// Every tick but the first takes what was sampled in the tick before, and the stream moves by one
/// with each tick.
pub proof fn samples_are_fed_back(
    initial_token_id: u32,
    start_stream_tick: u64,
    ticks: Seq<TickAnswer>,
    samples: Seq<SamplerAnswer>,
    n: nat,
    i: int,
)
    requires
        feedback_ticks(initial_token_id, start_stream_tick, ticks, samples, n) is Ok,
        0 <= i < n,
    ensures
        ({
            let done = feedback_ticks(
                initial_token_id,
                start_stream_tick,
                ticks,
                samples,
                n,
            )->Ok_0;
            &&& done.len() == n
            &&& done[i].stream_tick == start_stream_tick + i
            &&& done[i].input_token_id == (if i == 0 {
                initial_token_id
            } else {
                done[i - 1].sampled_token_id
            })
        }),
    decreases n,
{
    let before = feedback_ticks(
        initial_token_id,
        start_stream_tick,
        ticks,
        samples,
        (n - 1) as nat,
    );
    if n > 1 {
        samples_are_fed_back(
            initial_token_id,
            start_stream_tick,
            ticks,
            samples,
            (n - 1) as nat,
            if i < n - 1 {
                i
            } else {
                0
            },
        );
    }
}

proof fn lemma_repeated_length<A>(s: Seq<A>, n: nat)
    ensures
        repeated(s, n).len() == s.len() * n,
    decreases n,
{
    if n > 0 {
        lemma_repeated_length(s, (n - 1) as nat);
        assert(s.len() * n == s.len() * (n - 1) + s.len()) by (nonlinear_arith)
            requires
                n > 0,
        ;
    } else {
        assert(s.len() * n == 0) by (nonlinear_arith)
            requires
                n == 0,
        ;
    }
}

/// A cycle launches each kernel of a tick once per tick.
pub proof fn cycles_launch_every_tick(
    runner: VulkanResidentFeedbackLoopRunnerView,
    tick_count: usize,
    snapshot_capacity: usize,
)
    requires
        cycle_steps(runner, tick_count, snapshot_capacity) is Ok,
    ensures
        cycle_steps(runner, tick_count, snapshot_capacity)->Ok_0.len() == tick_kernels(runner).len()
            * tick_count,
{
    lemma_repeated_length(tick_kernels(runner), tick_count as nat);
}

proof fn lemma_repeated_at<A>(s: Seq<A>, n: nat, t: int, i: int)
    requires
        0 <= t < n,
        0 <= i < s.len(),
    ensures
        0 <= s.len() * t + i < repeated(s, n).len(),
        repeated(s, n)[s.len() * t + i] == s[i],
    decreases n,
{
    let before = repeated(s, (n - 1) as nat);
    lemma_repeated_length(s, n);
    lemma_repeated_length(s, (n - 1) as nat);
    assert(0 <= s.len() * t) by (nonlinear_arith)
        requires
            0 <= t,
    ;
    if t < n - 1 {
        lemma_repeated_at(s, (n - 1) as nat, t, i);
    } else {
        assert(s.len() * t == before.len());
    }
    assert(s.len() * t + s.len() <= s.len() * n) by (nonlinear_arith)
        requires
            0 <= t < n,
    ;
}

/// The number of launches of a pedal.
pub open spec fn pedal_launches() -> spec_fn(VulkanMountedPlacedResidentPedalRunnerView) -> nat {
    |pedal: VulkanMountedPlacedResidentPedalRunnerView| pedal.dispatches.len()
}

proof fn lemma_pedal_kernels(
    pedals: Seq<VulkanMountedPlacedResidentPedalRunnerView>,
    p: int,
    k: int,
)
    ensures
        pedal_kernels(pedals).len() == sequence::total(pedals, pedal_launches()),
        0 <= p < pedals.len() && 0 <= k < pedals[p].dispatches.len() ==> {
            let at = sequence::total(pedals.take(p), pedal_launches()) + k;
            &&& at < pedal_kernels(pedals).len()
            &&& pedal_kernels(pedals)[at] == pedals[p].dispatches[k].resident_dispatch
        },
    decreases pedals.len(),
{
    if pedals.len() > 0 {
        let front = pedals.drop_last();
        lemma_pedal_kernels(front, p, k);
        if 0 <= p < pedals.len() && 0 <= k < pedals[p].dispatches.len() {
            if p < front.len() {
                assert(front.take(p) =~= pedals.take(p));
                assert(front[p] == pedals[p]);
            } else {
                assert(pedals.take(p) =~= front);
            }
        }
    }
}

/// In every tick of a recorded cycle the launches stand in the order in which they feed one another:
/// the input transducer, the tracking of the input, the pedals one after the other, the norm of the
/// output, directly behind it the tied projection, and behind that the sampler. Every tick launches
/// the same, nothing else is launched, and no launch takes push constants.
pub proof fn ticks_launch_in_dataflow_order(
    runner: VulkanResidentFeedbackLoopRunnerView,
    tick_count: usize,
    snapshot_capacity: usize,
    tick: int,
    pedal: int,
    k: int,
)
    requires
        cycle_steps(runner, tick_count, snapshot_capacity) is Ok,
        0 <= tick < tick_count,
        0 <= k,
    ensures
        ({
            let steps = cycle_steps(runner, tick_count, snapshot_capacity)->Ok_0;
            let tracking = runner.sampler.input_tracking_dispatches;
            let pedals = runner.tick_runner.pedalboard.pedals;
            let sampling = runner.sampler.resident_dispatches;
            let launched = sequence::total(pedals, pedal_launches());
            let per_tick = 1 + tracking.len() + launched + 2 + sampling.len();
            let start = per_tick * tick;
            let norm = start + 1 + tracking.len() + launched;
            let before = sequence::total(pedals.take(pedal), pedal_launches());
            &&& steps.len() == per_tick * tick_count
            &&& 0 <= start
            &&& start + per_tick <= steps.len()
            &&& steps[start].dispatch == runner.tick_runner.input_transducer.resident_dispatch
            &&& k < tracking.len() ==> steps[start + 1 + k].dispatch == tracking[k]
            &&& 0 <= pedal < pedals.len() && k < pedals[pedal].dispatches.len() ==> {
                &&& start + 1 + tracking.len() + before + k < norm
                &&& steps[start + 1 + tracking.len() + before + k].dispatch
                    == pedals[pedal].dispatches[k].resident_dispatch
            }
            &&& steps[norm].dispatch
                == runner.tick_runner.output_transducer.embedding_norm_dispatch
            &&& steps[norm + 1].dispatch
                == runner.tick_runner.output_transducer.tied_projection_dispatch
            &&& k < sampling.len() ==> steps[norm + 2 + k].dispatch == sampling[k]
            &&& k < steps.len() ==> steps[k].push_constants.len() == 0
        }),
{
    let kernels = tick_kernels(runner);
    let tracking = runner.sampler.input_tracking_dispatches;
    let pedals = runner.tick_runner.pedalboard.pedals;
    let sampling = runner.sampler.resident_dispatches;
    let n = tick_count as nat;
    lemma_pedal_kernels(pedals, pedal, k);
    let launched = sequence::total(pedals, pedal_launches());
    let norm: int = 1 + tracking.len() + launched as int;
    lemma_repeated_length(kernels, n);
    assert(kernels.len() == norm + 2 + sampling.len());
    assert(kernels.len() * tick + kernels.len() <= kernels.len() * n) by (nonlinear_arith)
        requires
            0 <= tick < n,
    ;
    lemma_repeated_at(kernels, n, tick, 0);
    lemma_repeated_at(kernels, n, tick, norm);
    lemma_repeated_at(kernels, n, tick, norm + 1);
    if k < tracking.len() {
        lemma_repeated_at(kernels, n, tick, 1 + k);
    }
    if 0 <= pedal < pedals.len() && k < pedals[pedal].dispatches.len() {
        let before = sequence::total(pedals.take(pedal), pedal_launches());
        lemma_repeated_at(kernels, n, tick, 1 + tracking.len() + before + k);
    }
    if k < sampling.len() {
        lemma_repeated_at(kernels, n, tick, norm + 2 + k);
    }
}

/// A cycle is recorded exactly where it has a tick, where its ticks fit in the snapshots and in the
/// sampler's history, and where no launch takes push constants.
pub proof fn recorded_cycles_fit(
    runner: VulkanResidentFeedbackLoopRunnerView,
    tick_count: usize,
    snapshot_capacity: usize,
)
    ensures
        cycle_steps(runner, tick_count, snapshot_capacity) is Ok <==> {
            &&& 0 < tick_count <= snapshot_capacity
            &&& tick_count <= runner.sampler.history_capacity_activations
            &&& runner.per_tick_push_constant_byte_count == 0
            &&& runner.per_tick_dispatch_count * tick_count <= usize::MAX
        },
{
}

/// Every tick of a loop runs what its tick runner and its sampler answered, and hands on the token
/// that was sampled.
pub proof fn ticks_run_what_was_answered(
    initial_token_id: u32,
    start_stream_tick: u64,
    ticks: Seq<TickAnswer>,
    samples: Seq<SamplerAnswer>,
    n: nat,
    i: int,
)
    requires
        feedback_ticks(initial_token_id, start_stream_tick, ticks, samples, n) is Ok,
        0 <= i < n,
    ensures
        ({
            let done = feedback_ticks(
                initial_token_id,
                start_stream_tick,
                ticks,
                samples,
                n,
            )->Ok_0;
            &&& done.len() == n
            &&& ticks[i] is Ok
            &&& samples[i] is Ok
            &&& done[i].tick_run == ticks[i]->Ok_0
            &&& done[i].sampler_run == samples[i]->Ok_0
            &&& done[i].sampled_token_id == samples[i]->Ok_0.token_id
        }),
    decreases n,
{
    let before = feedback_ticks(
        initial_token_id,
        start_stream_tick,
        ticks,
        samples,
        (n - 1) as nat,
    );
    if n > 1 {
        ticks_run_what_was_answered(
            initial_token_id,
            start_stream_tick,
            ticks,
            samples,
            (n - 1) as nat,
            if i < n - 1 {
                i
            } else {
                0
            },
        );
    }
}

/// A loop reports the tokens that its ticks have sampled, one for each tick and in their order.
pub proof fn loops_report_every_sample(
    runner: VulkanResidentFeedbackLoopRunnerView,
    initial_token_id: u32,
    start_stream_tick: u64,
    max_ticks: usize,
    ticks: Seq<TickAnswer>,
    samples: Seq<SamplerAnswer>,
    i: int,
)
    requires
        bounded_run(runner, initial_token_id, start_stream_tick, max_ticks, ticks, samples) is Ok,
        0 <= i < max_ticks,
    ensures
        ({
            let run = bounded_run(
                runner,
                initial_token_id,
                start_stream_tick,
                max_ticks,
                ticks,
                samples,
            )->Ok_0;
            &&& max_ticks > 0
            &&& run.device_id == runner.device_id
            &&& run.initial_token_id == initial_token_id
            &&& run.tick_runs.len() == max_ticks
            &&& run.sampled_token_ids.len() == max_ticks
            &&& run.sampled_token_ids[i] == run.tick_runs[i].sampled_token_id
            &&& run.tick_runs[i].stream_tick == start_stream_tick + i
            &&& run.tick_runs[i].input_token_id == (if i == 0 {
                initial_token_id
            } else {
                run.sampled_token_ids[i - 1]
            })
            &&& run.per_tick_dispatch_count == runner.per_tick_dispatch_count
            &&& run.per_tick_descriptor_count == runner.per_tick_descriptor_count
            &&& run.per_tick_push_constant_byte_count == runner.per_tick_push_constant_byte_count
        }),
{
    samples_are_fed_back(
        initial_token_id,
        start_stream_tick,
        ticks,
        samples,
        max_ticks as nat,
        i,
    );
}

proof fn lemma_cycle_ticks(
    runner: VulkanResidentSingleTokenTickRunnerView,
    initial_token_id: u32,
    start_stream_tick: u64,
    time: u64,
    samples: Seq<SamplerAnswer>,
    n: nat,
    i: int,
)
    requires
        cycle_ticks(runner, initial_token_id, start_stream_tick, time, samples, n) is Ok,
        0 <= i < n,
    ensures
        ({
            let done = cycle_ticks(
                runner,
                initial_token_id,
                start_stream_tick,
                time,
                samples,
                n,
            )->Ok_0;
            &&& done.len() == n
            &&& samples[i] is Ok
            &&& done[i].stream_tick == start_stream_tick + i
            &&& done[i].sampler_run == samples[i]->Ok_0
            &&& done[i].sampled_token_id == samples[i]->Ok_0.token_id
            &&& done[i].input_token_id == (if i == 0 {
                initial_token_id
            } else {
                done[i - 1].sampled_token_id
            })
            &&& done[i].tick_run.token_id == done[i].input_token_id
            &&& done[i].tick_run.input_run.token_id == done[i].input_token_id
            &&& done[i].tick_run.execution_time_ns == time
            &&& done[i].tick_run.device_id == runner.device_id
            &&& done[i].tick_run.dispatch_count == runner.dispatch_count
            &&& done[i].tick_run.total_descriptor_count == runner.total_descriptor_count
            &&& done[i].tick_run.total_push_constant_byte_count
                == runner.total_push_constant_byte_count
            &&& done[i].tick_run.pedalboard_run == runner.completed_pedalboard_run
            &&& done[i].tick_run.output_run == Some(runner.completed_output_run)
        }),
    decreases n,
{
    let before = cycle_ticks(
        runner,
        initial_token_id,
        start_stream_tick,
        time,
        samples,
        (n - 1) as nat,
    );
    if n > 1 {
        lemma_cycle_ticks(
            runner,
            initial_token_id,
            start_stream_tick,
            time,
            samples,
            (n - 1) as nat,
            if i < n - 1 {
                i
            } else {
                0
            },
        );
    }
}

/// A recorded cycle feeds each sampled token to the next tick, as a loop of single ticks does. It
/// reports one tick after the other with its share of the time that the whole cycle took: the
/// shares are equal, and together they fall short of that time by less than a nanosecond a tick.
pub proof fn cycles_feed_their_samples_back(
    runner: VulkanResidentFeedbackLoopRunnerView,
    initial_token_id: u32,
    start_stream_tick: u64,
    tick_count: usize,
    snapshot_capacity: usize,
    snapshots: Result<(), Seq<char>>,
    ran: Result<u64, Seq<char>>,
    samples: Seq<SamplerAnswer>,
    i: int,
)
    requires
        cycle_run(
            runner,
            initial_token_id,
            start_stream_tick,
            tick_count,
            snapshot_capacity,
            snapshots,
            ran,
            samples,
        ) is Ok,
        0 <= i < tick_count <= u64::MAX,
    ensures
        ({
            let run = cycle_run(
                runner,
                initial_token_id,
                start_stream_tick,
                tick_count,
                snapshot_capacity,
                snapshots,
                ran,
                samples,
            )->Ok_0;
            let tick = run.tick_runs[i];
            &&& cycle_steps(runner, tick_count, snapshot_capacity) is Ok
            &&& ran is Ok
            &&& run.device_id == runner.device_id
            &&& run.initial_token_id == initial_token_id
            &&& run.tick_runs.len() == tick_count
            &&& run.sampled_token_ids.len() == tick_count
            &&& run.sampled_token_ids[i] == tick.sampled_token_id
            &&& samples[i] is Ok
            &&& tick.sampler_run == samples[i]->Ok_0
            &&& tick.sampled_token_id == samples[i]->Ok_0.token_id
            &&& tick.stream_tick == start_stream_tick + i
            &&& tick.input_token_id == (if i == 0 {
                initial_token_id
            } else {
                run.sampled_token_ids[i - 1]
            })
            &&& tick.tick_run.token_id == tick.input_token_id
            &&& tick.tick_run.execution_time_ns * tick_count <= ran->Ok_0
            &&& ran->Ok_0 < (tick.tick_run.execution_time_ns + 1) * tick_count
            &&& run.per_tick_dispatch_count == runner.per_tick_dispatch_count
            &&& run.per_tick_descriptor_count == runner.per_tick_descriptor_count
            &&& run.per_tick_push_constant_byte_count == runner.per_tick_push_constant_byte_count
        }),
{
    let total = ran->Ok_0;
    let share = (total / tick_count as u64) as u64;
    lemma_cycle_ticks(
        runner.tick_runner,
        initial_token_id,
        start_stream_tick,
        share,
        samples,
        tick_count as nat,
        i,
    );
    if i > 0 {
        lemma_cycle_ticks(
            runner.tick_runner,
            initial_token_id,
            start_stream_tick,
            share,
            samples,
            tick_count as nat,
            i - 1,
        );
    }
    let count = tick_count as int;
    assert(share * count <= total < (share + 1) * count) by (nonlinear_arith)
        requires
            count > 0,
            total >= 0,
            share == total as int / count,
    ;
}

/// A feedback loop counts what its tick runner and its sampler launch together.
pub proof fn loops_count_ticks_and_samples(
    tick_runner: VulkanResidentSingleTokenTickRunnerView,
    sampler: VulkanResidentSamplerRunnerView,
)
    ensures
        feedback_loop(tick_runner, sampler) is Ok <==> {
            &&& tick_runner.dispatch_count + sampler.dispatch_count <= usize::MAX
            &&& tick_runner.total_descriptor_count + sampler.descriptor_count <= usize::MAX
            &&& tick_runner.total_push_constant_byte_count + sampler.push_constant_byte_count
                <= u32::MAX
        },
        feedback_loop(tick_runner, sampler) matches Ok(made) ==> {
            &&& made.tick_runner == tick_runner
            &&& made.sampler == sampler
            &&& made.device_id == tick_runner.device_id
            &&& made.pedal_count == tick_runner.pedal_count
            &&& made.per_tick_dispatch_count - sampler.dispatch_count == tick_runner.dispatch_count
            &&& made.per_tick_descriptor_count - sampler.descriptor_count
                == tick_runner.total_descriptor_count
            &&& made.per_tick_push_constant_byte_count - sampler.push_constant_byte_count
                == tick_runner.total_push_constant_byte_count
        },
{
}

} // verus!
