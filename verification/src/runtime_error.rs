//! Why a placed runtime cannot go on.

use crate::device::VulkanError;
use crate::input_transducer::VulkanResidentInputEmbeddingTransducerRunnerError;
use crate::input_transducer::VulkanResidentInputEmbeddingTransducerRunnerErrorView;
use crate::output_transducer::VulkanResidentOutputTransducerRunnerError;
use crate::output_transducer::VulkanResidentOutputTransducerRunnerErrorView;
use vstd::prelude::*;

verus! {

/// Why a sampler failed.
#[derive(Debug, PartialEq, Eq)]
pub struct VulkanResidentSamplerRunnerError(pub String);

impl DeepView for VulkanResidentSamplerRunnerError {
    type V = Seq<char>;

    open spec fn deep_view(&self) -> Seq<char> {
        self.0.deep_view()
    }
}

impl View for VulkanResidentSamplerRunnerError {
    type V = Seq<char>;

    open spec fn view(&self) -> Seq<char> {
        self.deep_view()
    }
}

impl Clone for VulkanResidentSamplerRunnerError {
    fn clone(&self) -> (r: Self)
        ensures
            r@ == self@,
    {
        VulkanResidentSamplerRunnerError(self.0.clone())
    }
}

impl VulkanResidentSamplerRunnerError {
    /// What is wrong.
    pub fn to_string(&self) -> (r: String)
        ensures
            r@ == self@,
    {
        self.0.clone()
    }
}

/// Why a placed runtime cannot go on.
#[derive(Debug, PartialEq, Eq)]
pub enum VulkanResidentInProcessPlacedRuntimeError {
    ZeroTickBudget,
    StreamTickOverflow,
    MissingBoundDevice { device_id: String },
    InputTransducer(VulkanResidentInputEmbeddingTransducerRunnerError),
    OutputTransducer(VulkanResidentOutputTransducerRunnerError),
    Sampler(VulkanResidentSamplerRunnerError),
    BackendLoop(VulkanError),
}

#[verifier::ext_equal]
pub enum VulkanResidentInProcessPlacedRuntimeErrorView {
    ZeroTickBudget,
    StreamTickOverflow,
    MissingBoundDevice { device_id: Seq<char> },
    InputTransducer(VulkanResidentInputEmbeddingTransducerRunnerErrorView),
    OutputTransducer(VulkanResidentOutputTransducerRunnerErrorView),
    Sampler(Seq<char>),
    BackendLoop(Seq<char>),
}

impl DeepView for VulkanResidentInProcessPlacedRuntimeError {
    type V = VulkanResidentInProcessPlacedRuntimeErrorView;

    open spec fn deep_view(&self) -> VulkanResidentInProcessPlacedRuntimeErrorView {
        match self {
            VulkanResidentInProcessPlacedRuntimeError::ZeroTickBudget => VulkanResidentInProcessPlacedRuntimeErrorView::ZeroTickBudget,
            VulkanResidentInProcessPlacedRuntimeError::StreamTickOverflow => VulkanResidentInProcessPlacedRuntimeErrorView::StreamTickOverflow,
            VulkanResidentInProcessPlacedRuntimeError::MissingBoundDevice { device_id } => VulkanResidentInProcessPlacedRuntimeErrorView::MissingBoundDevice { device_id: device_id.deep_view() },
            VulkanResidentInProcessPlacedRuntimeError::InputTransducer(value) => VulkanResidentInProcessPlacedRuntimeErrorView::InputTransducer(value.deep_view()),
            VulkanResidentInProcessPlacedRuntimeError::OutputTransducer(value) => VulkanResidentInProcessPlacedRuntimeErrorView::OutputTransducer(value.deep_view()),
            VulkanResidentInProcessPlacedRuntimeError::Sampler(value) => VulkanResidentInProcessPlacedRuntimeErrorView::Sampler(value.deep_view()),
            VulkanResidentInProcessPlacedRuntimeError::BackendLoop(value) => VulkanResidentInProcessPlacedRuntimeErrorView::BackendLoop(value.deep_view()),
        }
    }
}

impl View for VulkanResidentInProcessPlacedRuntimeError {
    type V = VulkanResidentInProcessPlacedRuntimeErrorView;

    open spec fn view(&self) -> VulkanResidentInProcessPlacedRuntimeErrorView {
        self.deep_view()
    }
}

impl Clone for VulkanResidentInProcessPlacedRuntimeError {
    fn clone(&self) -> (r: Self)
        ensures
            r@ == self@,
    {
        match self {
            VulkanResidentInProcessPlacedRuntimeError::ZeroTickBudget => VulkanResidentInProcessPlacedRuntimeError::ZeroTickBudget,
            VulkanResidentInProcessPlacedRuntimeError::StreamTickOverflow => VulkanResidentInProcessPlacedRuntimeError::StreamTickOverflow,
            VulkanResidentInProcessPlacedRuntimeError::MissingBoundDevice { device_id } => VulkanResidentInProcessPlacedRuntimeError::MissingBoundDevice { device_id: device_id.clone() },
            VulkanResidentInProcessPlacedRuntimeError::InputTransducer(value) => VulkanResidentInProcessPlacedRuntimeError::InputTransducer(value.clone()),
            VulkanResidentInProcessPlacedRuntimeError::OutputTransducer(value) => VulkanResidentInProcessPlacedRuntimeError::OutputTransducer(value.clone()),
            VulkanResidentInProcessPlacedRuntimeError::Sampler(value) => VulkanResidentInProcessPlacedRuntimeError::Sampler(value.clone()),
            VulkanResidentInProcessPlacedRuntimeError::BackendLoop(value) => VulkanResidentInProcessPlacedRuntimeError::BackendLoop(value.clone()),
        }
    }
}

} // verus!
