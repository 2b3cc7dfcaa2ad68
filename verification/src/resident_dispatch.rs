//! The bytes that a launch takes as push constants, and why launches fail.

use crate::device::VulkanError;
use crate::kernel_interface::VulkanKernelScalarBinding;
use crate::kernel_interface::VulkanKernelScalarBindingView;
use crate::resident_plan::VulkanModelBoundaryDirection;
use crate::sequence;
use crate::text;
use crate::text::Message;
use vstd::prelude::*;

verus! {

/// Why a launch cannot be made, recorded or run.
#[derive(Debug, PartialEq, Eq)]
pub enum VulkanMountedPlacedResidentKernelDispatchError {
    MissingLoadedArtifact { dispatch_index: usize, family_id: String },
    DescriptorBindingOverflow { dispatch_index: usize, binding: usize },
    MissingModelBoundaryBuffer { dispatch_index: usize, binding: usize, direction: VulkanModelBoundaryDirection, signal_id: String },
    MissingMountedBuffer { dispatch_index: usize, binding: usize, buffer_kind: String, buffer_index: usize },
    MissingPermanentParameterBuffer { dispatch_index: usize, binding: usize, param_id: String, tensor: String, byte_count: Option<usize> },
    ModelBoundaryBufferUnavailable { dispatch_index: usize, binding: usize, signal_id: String },
    UnsupportedPushConstantScalar { name: String, scalar_type: String },
    UnsupportedPushConstantBinding { name: String },
    PushConstantByteCountOverflow,
    MissingPedalDispatches { pedal_id: String },
    PedalRunnerDescriptorCountOverflow { pedal_id: String },
    PedalRunnerPushConstantByteCountOverflow { pedal_id: String },
    MissingPedalboardPedals { device_id: String },
    PedalboardRunnerDescriptorCountOverflow { device_id: String },
    PedalboardRunnerPushConstantByteCountOverflow { device_id: String },
    MissingComponentDispatches { component_id: String },
    ComponentRunnerDescriptorCountOverflow { component_id: String },
    ComponentRunnerPushConstantByteCountOverflow { component_id: String },
    MissingExecutionGraphComponents { device_id: String },
    ExecutionGraphRunnerDescriptorCountOverflow { device_id: String },
    ExecutionGraphRunnerPushConstantByteCountOverflow { device_id: String },
    EmptyDispatchSegment { device_id: String },
    DispatchSegmentStageOverflow { device_id: String },
    NonDispatchStageInSegment { device_id: String, stage_index: usize },
    MissingSegmentDispatch { device_id: String, stage_index: usize, dispatch_index: usize },
    Vulkan(VulkanError),
}

#[verifier::ext_equal]
pub enum VulkanMountedPlacedResidentKernelDispatchErrorView {
    MissingLoadedArtifact { dispatch_index: usize, family_id: Seq<char> },
    DescriptorBindingOverflow { dispatch_index: usize, binding: usize },
    MissingModelBoundaryBuffer { dispatch_index: usize, binding: usize, direction: VulkanModelBoundaryDirection, signal_id: Seq<char> },
    MissingMountedBuffer { dispatch_index: usize, binding: usize, buffer_kind: Seq<char>, buffer_index: usize },
    MissingPermanentParameterBuffer { dispatch_index: usize, binding: usize, param_id: Seq<char>, tensor: Seq<char>, byte_count: Option<usize> },
    ModelBoundaryBufferUnavailable { dispatch_index: usize, binding: usize, signal_id: Seq<char> },
    UnsupportedPushConstantScalar { name: Seq<char>, scalar_type: Seq<char> },
    UnsupportedPushConstantBinding { name: Seq<char> },
    PushConstantByteCountOverflow,
    MissingPedalDispatches { pedal_id: Seq<char> },
    PedalRunnerDescriptorCountOverflow { pedal_id: Seq<char> },
    PedalRunnerPushConstantByteCountOverflow { pedal_id: Seq<char> },
    MissingPedalboardPedals { device_id: Seq<char> },
    PedalboardRunnerDescriptorCountOverflow { device_id: Seq<char> },
    PedalboardRunnerPushConstantByteCountOverflow { device_id: Seq<char> },
    MissingComponentDispatches { component_id: Seq<char> },
    ComponentRunnerDescriptorCountOverflow { component_id: Seq<char> },
    ComponentRunnerPushConstantByteCountOverflow { component_id: Seq<char> },
    MissingExecutionGraphComponents { device_id: Seq<char> },
    ExecutionGraphRunnerDescriptorCountOverflow { device_id: Seq<char> },
    ExecutionGraphRunnerPushConstantByteCountOverflow { device_id: Seq<char> },
    EmptyDispatchSegment { device_id: Seq<char> },
    DispatchSegmentStageOverflow { device_id: Seq<char> },
    NonDispatchStageInSegment { device_id: Seq<char>, stage_index: usize },
    MissingSegmentDispatch { device_id: Seq<char>, stage_index: usize, dispatch_index: usize },
    Vulkan(Seq<char>),
}

impl DeepView for VulkanMountedPlacedResidentKernelDispatchError {
    type V = VulkanMountedPlacedResidentKernelDispatchErrorView;

    open spec fn deep_view(&self) -> VulkanMountedPlacedResidentKernelDispatchErrorView {
        match self {
            VulkanMountedPlacedResidentKernelDispatchError::MissingLoadedArtifact { dispatch_index, family_id } => VulkanMountedPlacedResidentKernelDispatchErrorView::MissingLoadedArtifact { dispatch_index: *dispatch_index, family_id: family_id.deep_view() },
            VulkanMountedPlacedResidentKernelDispatchError::DescriptorBindingOverflow { dispatch_index, binding } => VulkanMountedPlacedResidentKernelDispatchErrorView::DescriptorBindingOverflow { dispatch_index: *dispatch_index, binding: *binding },
            VulkanMountedPlacedResidentKernelDispatchError::MissingModelBoundaryBuffer { dispatch_index, binding, direction, signal_id } => VulkanMountedPlacedResidentKernelDispatchErrorView::MissingModelBoundaryBuffer { dispatch_index: *dispatch_index, binding: *binding, direction: *direction, signal_id: signal_id.deep_view() },
            VulkanMountedPlacedResidentKernelDispatchError::MissingMountedBuffer { dispatch_index, binding, buffer_kind, buffer_index } => VulkanMountedPlacedResidentKernelDispatchErrorView::MissingMountedBuffer { dispatch_index: *dispatch_index, binding: *binding, buffer_kind: buffer_kind.deep_view(), buffer_index: *buffer_index },
            VulkanMountedPlacedResidentKernelDispatchError::MissingPermanentParameterBuffer { dispatch_index, binding, param_id, tensor, byte_count } => VulkanMountedPlacedResidentKernelDispatchErrorView::MissingPermanentParameterBuffer { dispatch_index: *dispatch_index, binding: *binding, param_id: param_id.deep_view(), tensor: tensor.deep_view(), byte_count: *byte_count },
            VulkanMountedPlacedResidentKernelDispatchError::ModelBoundaryBufferUnavailable { dispatch_index, binding, signal_id } => VulkanMountedPlacedResidentKernelDispatchErrorView::ModelBoundaryBufferUnavailable { dispatch_index: *dispatch_index, binding: *binding, signal_id: signal_id.deep_view() },
            VulkanMountedPlacedResidentKernelDispatchError::UnsupportedPushConstantScalar { name, scalar_type } => VulkanMountedPlacedResidentKernelDispatchErrorView::UnsupportedPushConstantScalar { name: name.deep_view(), scalar_type: scalar_type.deep_view() },
            VulkanMountedPlacedResidentKernelDispatchError::UnsupportedPushConstantBinding { name } => VulkanMountedPlacedResidentKernelDispatchErrorView::UnsupportedPushConstantBinding { name: name.deep_view() },
            VulkanMountedPlacedResidentKernelDispatchError::PushConstantByteCountOverflow => VulkanMountedPlacedResidentKernelDispatchErrorView::PushConstantByteCountOverflow,
            VulkanMountedPlacedResidentKernelDispatchError::MissingPedalDispatches { pedal_id } => VulkanMountedPlacedResidentKernelDispatchErrorView::MissingPedalDispatches { pedal_id: pedal_id.deep_view() },
            VulkanMountedPlacedResidentKernelDispatchError::PedalRunnerDescriptorCountOverflow { pedal_id } => VulkanMountedPlacedResidentKernelDispatchErrorView::PedalRunnerDescriptorCountOverflow { pedal_id: pedal_id.deep_view() },
            VulkanMountedPlacedResidentKernelDispatchError::PedalRunnerPushConstantByteCountOverflow { pedal_id } => VulkanMountedPlacedResidentKernelDispatchErrorView::PedalRunnerPushConstantByteCountOverflow { pedal_id: pedal_id.deep_view() },
            VulkanMountedPlacedResidentKernelDispatchError::MissingPedalboardPedals { device_id } => VulkanMountedPlacedResidentKernelDispatchErrorView::MissingPedalboardPedals { device_id: device_id.deep_view() },
            VulkanMountedPlacedResidentKernelDispatchError::PedalboardRunnerDescriptorCountOverflow { device_id } => VulkanMountedPlacedResidentKernelDispatchErrorView::PedalboardRunnerDescriptorCountOverflow { device_id: device_id.deep_view() },
            VulkanMountedPlacedResidentKernelDispatchError::PedalboardRunnerPushConstantByteCountOverflow { device_id } => VulkanMountedPlacedResidentKernelDispatchErrorView::PedalboardRunnerPushConstantByteCountOverflow { device_id: device_id.deep_view() },
            VulkanMountedPlacedResidentKernelDispatchError::MissingComponentDispatches { component_id } => VulkanMountedPlacedResidentKernelDispatchErrorView::MissingComponentDispatches { component_id: component_id.deep_view() },
            VulkanMountedPlacedResidentKernelDispatchError::ComponentRunnerDescriptorCountOverflow { component_id } => VulkanMountedPlacedResidentKernelDispatchErrorView::ComponentRunnerDescriptorCountOverflow { component_id: component_id.deep_view() },
            VulkanMountedPlacedResidentKernelDispatchError::ComponentRunnerPushConstantByteCountOverflow { component_id } => VulkanMountedPlacedResidentKernelDispatchErrorView::ComponentRunnerPushConstantByteCountOverflow { component_id: component_id.deep_view() },
            VulkanMountedPlacedResidentKernelDispatchError::MissingExecutionGraphComponents { device_id } => VulkanMountedPlacedResidentKernelDispatchErrorView::MissingExecutionGraphComponents { device_id: device_id.deep_view() },
            VulkanMountedPlacedResidentKernelDispatchError::ExecutionGraphRunnerDescriptorCountOverflow { device_id } => VulkanMountedPlacedResidentKernelDispatchErrorView::ExecutionGraphRunnerDescriptorCountOverflow { device_id: device_id.deep_view() },
            VulkanMountedPlacedResidentKernelDispatchError::ExecutionGraphRunnerPushConstantByteCountOverflow { device_id } => VulkanMountedPlacedResidentKernelDispatchErrorView::ExecutionGraphRunnerPushConstantByteCountOverflow { device_id: device_id.deep_view() },
            VulkanMountedPlacedResidentKernelDispatchError::EmptyDispatchSegment { device_id } => VulkanMountedPlacedResidentKernelDispatchErrorView::EmptyDispatchSegment { device_id: device_id.deep_view() },
            VulkanMountedPlacedResidentKernelDispatchError::DispatchSegmentStageOverflow { device_id } => VulkanMountedPlacedResidentKernelDispatchErrorView::DispatchSegmentStageOverflow { device_id: device_id.deep_view() },
            VulkanMountedPlacedResidentKernelDispatchError::NonDispatchStageInSegment { device_id, stage_index } => VulkanMountedPlacedResidentKernelDispatchErrorView::NonDispatchStageInSegment { device_id: device_id.deep_view(), stage_index: *stage_index },
            VulkanMountedPlacedResidentKernelDispatchError::MissingSegmentDispatch { device_id, stage_index, dispatch_index } => VulkanMountedPlacedResidentKernelDispatchErrorView::MissingSegmentDispatch { device_id: device_id.deep_view(), stage_index: *stage_index, dispatch_index: *dispatch_index },
            VulkanMountedPlacedResidentKernelDispatchError::Vulkan(value) => VulkanMountedPlacedResidentKernelDispatchErrorView::Vulkan(value.deep_view()),
        }
    }
}

impl View for VulkanMountedPlacedResidentKernelDispatchError {
    type V = VulkanMountedPlacedResidentKernelDispatchErrorView;

    open spec fn view(&self) -> VulkanMountedPlacedResidentKernelDispatchErrorView {
        self.deep_view()
    }
}

impl Clone for VulkanMountedPlacedResidentKernelDispatchError {
    fn clone(&self) -> (r: Self)
        ensures
            r@ == self@,
    {
        match self {
            VulkanMountedPlacedResidentKernelDispatchError::MissingLoadedArtifact { dispatch_index, family_id } => VulkanMountedPlacedResidentKernelDispatchError::MissingLoadedArtifact { dispatch_index: *dispatch_index, family_id: family_id.clone() },
            VulkanMountedPlacedResidentKernelDispatchError::DescriptorBindingOverflow { dispatch_index, binding } => VulkanMountedPlacedResidentKernelDispatchError::DescriptorBindingOverflow { dispatch_index: *dispatch_index, binding: *binding },
            VulkanMountedPlacedResidentKernelDispatchError::MissingModelBoundaryBuffer { dispatch_index, binding, direction, signal_id } => VulkanMountedPlacedResidentKernelDispatchError::MissingModelBoundaryBuffer { dispatch_index: *dispatch_index, binding: *binding, direction: *direction, signal_id: signal_id.clone() },
            VulkanMountedPlacedResidentKernelDispatchError::MissingMountedBuffer { dispatch_index, binding, buffer_kind, buffer_index } => VulkanMountedPlacedResidentKernelDispatchError::MissingMountedBuffer { dispatch_index: *dispatch_index, binding: *binding, buffer_kind: buffer_kind.clone(), buffer_index: *buffer_index },
            VulkanMountedPlacedResidentKernelDispatchError::MissingPermanentParameterBuffer { dispatch_index, binding, param_id, tensor, byte_count } => VulkanMountedPlacedResidentKernelDispatchError::MissingPermanentParameterBuffer { dispatch_index: *dispatch_index, binding: *binding, param_id: param_id.clone(), tensor: tensor.clone(), byte_count: byte_count.clone() },
            VulkanMountedPlacedResidentKernelDispatchError::ModelBoundaryBufferUnavailable { dispatch_index, binding, signal_id } => VulkanMountedPlacedResidentKernelDispatchError::ModelBoundaryBufferUnavailable { dispatch_index: *dispatch_index, binding: *binding, signal_id: signal_id.clone() },
            VulkanMountedPlacedResidentKernelDispatchError::UnsupportedPushConstantScalar { name, scalar_type } => VulkanMountedPlacedResidentKernelDispatchError::UnsupportedPushConstantScalar { name: name.clone(), scalar_type: scalar_type.clone() },
            VulkanMountedPlacedResidentKernelDispatchError::UnsupportedPushConstantBinding { name } => VulkanMountedPlacedResidentKernelDispatchError::UnsupportedPushConstantBinding { name: name.clone() },
            VulkanMountedPlacedResidentKernelDispatchError::PushConstantByteCountOverflow => VulkanMountedPlacedResidentKernelDispatchError::PushConstantByteCountOverflow,
            VulkanMountedPlacedResidentKernelDispatchError::MissingPedalDispatches { pedal_id } => VulkanMountedPlacedResidentKernelDispatchError::MissingPedalDispatches { pedal_id: pedal_id.clone() },
            VulkanMountedPlacedResidentKernelDispatchError::PedalRunnerDescriptorCountOverflow { pedal_id } => VulkanMountedPlacedResidentKernelDispatchError::PedalRunnerDescriptorCountOverflow { pedal_id: pedal_id.clone() },
            VulkanMountedPlacedResidentKernelDispatchError::PedalRunnerPushConstantByteCountOverflow { pedal_id } => VulkanMountedPlacedResidentKernelDispatchError::PedalRunnerPushConstantByteCountOverflow { pedal_id: pedal_id.clone() },
            VulkanMountedPlacedResidentKernelDispatchError::MissingPedalboardPedals { device_id } => VulkanMountedPlacedResidentKernelDispatchError::MissingPedalboardPedals { device_id: device_id.clone() },
            VulkanMountedPlacedResidentKernelDispatchError::PedalboardRunnerDescriptorCountOverflow { device_id } => VulkanMountedPlacedResidentKernelDispatchError::PedalboardRunnerDescriptorCountOverflow { device_id: device_id.clone() },
            VulkanMountedPlacedResidentKernelDispatchError::PedalboardRunnerPushConstantByteCountOverflow { device_id } => VulkanMountedPlacedResidentKernelDispatchError::PedalboardRunnerPushConstantByteCountOverflow { device_id: device_id.clone() },
            VulkanMountedPlacedResidentKernelDispatchError::MissingComponentDispatches { component_id } => VulkanMountedPlacedResidentKernelDispatchError::MissingComponentDispatches { component_id: component_id.clone() },
            VulkanMountedPlacedResidentKernelDispatchError::ComponentRunnerDescriptorCountOverflow { component_id } => VulkanMountedPlacedResidentKernelDispatchError::ComponentRunnerDescriptorCountOverflow { component_id: component_id.clone() },
            VulkanMountedPlacedResidentKernelDispatchError::ComponentRunnerPushConstantByteCountOverflow { component_id } => VulkanMountedPlacedResidentKernelDispatchError::ComponentRunnerPushConstantByteCountOverflow { component_id: component_id.clone() },
            VulkanMountedPlacedResidentKernelDispatchError::MissingExecutionGraphComponents { device_id } => VulkanMountedPlacedResidentKernelDispatchError::MissingExecutionGraphComponents { device_id: device_id.clone() },
            VulkanMountedPlacedResidentKernelDispatchError::ExecutionGraphRunnerDescriptorCountOverflow { device_id } => VulkanMountedPlacedResidentKernelDispatchError::ExecutionGraphRunnerDescriptorCountOverflow { device_id: device_id.clone() },
            VulkanMountedPlacedResidentKernelDispatchError::ExecutionGraphRunnerPushConstantByteCountOverflow { device_id } => VulkanMountedPlacedResidentKernelDispatchError::ExecutionGraphRunnerPushConstantByteCountOverflow { device_id: device_id.clone() },
            VulkanMountedPlacedResidentKernelDispatchError::EmptyDispatchSegment { device_id } => VulkanMountedPlacedResidentKernelDispatchError::EmptyDispatchSegment { device_id: device_id.clone() },
            VulkanMountedPlacedResidentKernelDispatchError::DispatchSegmentStageOverflow { device_id } => VulkanMountedPlacedResidentKernelDispatchError::DispatchSegmentStageOverflow { device_id: device_id.clone() },
            VulkanMountedPlacedResidentKernelDispatchError::NonDispatchStageInSegment { device_id, stage_index } => VulkanMountedPlacedResidentKernelDispatchError::NonDispatchStageInSegment { device_id: device_id.clone(), stage_index: *stage_index },
            VulkanMountedPlacedResidentKernelDispatchError::MissingSegmentDispatch { device_id, stage_index, dispatch_index } => VulkanMountedPlacedResidentKernelDispatchError::MissingSegmentDispatch { device_id: device_id.clone(), stage_index: *stage_index, dispatch_index: *dispatch_index },
            VulkanMountedPlacedResidentKernelDispatchError::Vulkan(value) => VulkanMountedPlacedResidentKernelDispatchError::Vulkan(value.clone()),
        }
    }
}

/// What is said of it.
pub open spec fn launch_message(error: VulkanMountedPlacedResidentKernelDispatchErrorView) -> Seq<char> {
    match error {
        VulkanMountedPlacedResidentKernelDispatchErrorView::MissingLoadedArtifact { dispatch_index, family_id } => {
            "dispatch "@ + text::decimal(dispatch_index as nat) + " has no loaded artifact for kernel family "@ + text::quoted(family_id)
        },
        VulkanMountedPlacedResidentKernelDispatchErrorView::DescriptorBindingOverflow { dispatch_index, binding } => {
            "dispatch "@ + text::decimal(dispatch_index as nat) + " descriptor binding "@ + text::decimal(binding as nat) + " exceeds u32"@
        },
        VulkanMountedPlacedResidentKernelDispatchErrorView::MissingModelBoundaryBuffer { dispatch_index, binding, direction, signal_id } => {
            "dispatch "@ + text::decimal(dispatch_index as nat) + " binding "@ + text::decimal(binding as nat) + " has no model boundary buffer for signal "@ + text::quoted(signal_id)
        },
        VulkanMountedPlacedResidentKernelDispatchErrorView::MissingMountedBuffer { dispatch_index, binding, buffer_kind, buffer_index } => {
            "dispatch "@ + text::decimal(dispatch_index as nat) + " binding "@ + text::decimal(binding as nat) + " has no mounted "@ + buffer_kind + " buffer "@ + text::decimal(buffer_index as nat)
        },
        VulkanMountedPlacedResidentKernelDispatchErrorView::MissingPermanentParameterBuffer { dispatch_index, binding, param_id, tensor, byte_count } => {
            "dispatch "@ + text::decimal(dispatch_index as nat) + " binding "@ + text::decimal(binding as nat) + " has no permanent parameter buffer for "@ + text::quoted(param_id) + " tensor "@ + text::quoted(tensor)
        },
        VulkanMountedPlacedResidentKernelDispatchErrorView::ModelBoundaryBufferUnavailable { dispatch_index, binding, signal_id } => {
            "dispatch "@ + text::decimal(dispatch_index as nat) + " binding "@ + text::decimal(binding as nat) + " model boundary buffer "@ + text::quoted(signal_id) + " is unavailable"@
        },
        VulkanMountedPlacedResidentKernelDispatchErrorView::UnsupportedPushConstantScalar { name, scalar_type } => {
            "push constant "@ + text::quoted(name) + " has unsupported scalar type "@ + text::quoted(scalar_type)
        },
        VulkanMountedPlacedResidentKernelDispatchErrorView::UnsupportedPushConstantBinding { name } => {
            "push constant "@ + text::quoted(name) + " has no supported binding"@
        },
        VulkanMountedPlacedResidentKernelDispatchErrorView::PushConstantByteCountOverflow => {
            "push constant byte count overflowed"@
        },
        VulkanMountedPlacedResidentKernelDispatchErrorView::MissingPedalDispatches { pedal_id } => {
            "pedal "@ + text::quoted(pedal_id) + " has no dispatches"@
        },
        VulkanMountedPlacedResidentKernelDispatchErrorView::PedalRunnerDescriptorCountOverflow { pedal_id } => {
            "pedal "@ + text::quoted(pedal_id) + " descriptor count overflowed"@
        },
        VulkanMountedPlacedResidentKernelDispatchErrorView::PedalRunnerPushConstantByteCountOverflow { pedal_id } => {
            "pedal "@ + text::quoted(pedal_id) + " push constant byte count overflowed"@
        },
        VulkanMountedPlacedResidentKernelDispatchErrorView::MissingPedalboardPedals { device_id } => {
            "device "@ + text::quoted(device_id) + " has no pedals"@
        },
        VulkanMountedPlacedResidentKernelDispatchErrorView::PedalboardRunnerDescriptorCountOverflow { device_id } => {
            "device "@ + text::quoted(device_id) + " pedalboard descriptor count overflowed"@
        },
        VulkanMountedPlacedResidentKernelDispatchErrorView::PedalboardRunnerPushConstantByteCountOverflow { device_id } => {
            "device "@ + text::quoted(device_id) + " pedalboard push constant byte count overflowed"@
        },
        VulkanMountedPlacedResidentKernelDispatchErrorView::MissingComponentDispatches { component_id } => {
            "component "@ + text::quoted(component_id) + " has no dispatches"@
        },
        VulkanMountedPlacedResidentKernelDispatchErrorView::ComponentRunnerDescriptorCountOverflow { component_id } => {
            "component "@ + text::quoted(component_id) + " descriptor count overflowed"@
        },
        VulkanMountedPlacedResidentKernelDispatchErrorView::ComponentRunnerPushConstantByteCountOverflow { component_id } => {
            "component "@ + text::quoted(component_id) + " push constant byte count overflowed"@
        },
        VulkanMountedPlacedResidentKernelDispatchErrorView::MissingExecutionGraphComponents { device_id } => {
            "device "@ + text::quoted(device_id) + " has no components"@
        },
        VulkanMountedPlacedResidentKernelDispatchErrorView::ExecutionGraphRunnerDescriptorCountOverflow { device_id } => {
            "device "@ + text::quoted(device_id) + " execution graph descriptor count overflowed"@
        },
        VulkanMountedPlacedResidentKernelDispatchErrorView::ExecutionGraphRunnerPushConstantByteCountOverflow { device_id } => {
            "device "@ + text::quoted(device_id) + " execution graph push constant byte count overflowed"@
        },
        VulkanMountedPlacedResidentKernelDispatchErrorView::EmptyDispatchSegment { device_id } => {
            "device "@ + text::quoted(device_id) + " has an empty dispatch segment"@
        },
        VulkanMountedPlacedResidentKernelDispatchErrorView::DispatchSegmentStageOverflow { device_id } => {
            "device "@ + text::quoted(device_id) + " dispatch segment stage index overflowed"@
        },
        VulkanMountedPlacedResidentKernelDispatchErrorView::NonDispatchStageInSegment { device_id, stage_index } => {
            "device "@ + text::quoted(device_id) + " stage "@ + text::decimal(stage_index as nat) + " of a dispatch segment is not a dispatch"@
        },
        VulkanMountedPlacedResidentKernelDispatchErrorView::MissingSegmentDispatch { device_id, stage_index, dispatch_index } => {
            "device "@ + text::quoted(device_id) + " stage "@ + text::decimal(stage_index as nat) + " has no dispatch "@ + text::decimal(dispatch_index as nat)
        },
        VulkanMountedPlacedResidentKernelDispatchErrorView::Vulkan(error) => error,
    }
}

impl VulkanMountedPlacedResidentKernelDispatchError {
    /// What is wrong.
    pub fn to_string(&self) -> (r: String)
        ensures
            r@ == launch_message(self@),
    {
        match self {
            VulkanMountedPlacedResidentKernelDispatchError::MissingLoadedArtifact { dispatch_index, family_id } => {
                Message::new("dispatch ").number(*dispatch_index).text(" has no loaded artifact for kernel family ").quoted(family_id.as_str()).done()
            },
            VulkanMountedPlacedResidentKernelDispatchError::DescriptorBindingOverflow { dispatch_index, binding } => {
                Message::new("dispatch ").number(*dispatch_index).text(" descriptor binding ").number(*binding).text(" exceeds u32").done()
            },
            VulkanMountedPlacedResidentKernelDispatchError::MissingModelBoundaryBuffer { dispatch_index, binding, direction, signal_id } => {
                Message::new("dispatch ").number(*dispatch_index).text(" binding ").number(*binding).text(" has no model boundary buffer for signal ").quoted(signal_id.as_str()).done()
            },
            VulkanMountedPlacedResidentKernelDispatchError::MissingMountedBuffer { dispatch_index, binding, buffer_kind, buffer_index } => {
                Message::new("dispatch ").number(*dispatch_index).text(" binding ").number(*binding).text(" has no mounted ").text(buffer_kind.as_str()).text(" buffer ").number(*buffer_index).done()
            },
            VulkanMountedPlacedResidentKernelDispatchError::MissingPermanentParameterBuffer { dispatch_index, binding, param_id, tensor, byte_count } => {
                Message::new("dispatch ").number(*dispatch_index).text(" binding ").number(*binding).text(" has no permanent parameter buffer for ").quoted(param_id.as_str()).text(" tensor ").quoted(tensor.as_str()).done()
            },
            VulkanMountedPlacedResidentKernelDispatchError::ModelBoundaryBufferUnavailable { dispatch_index, binding, signal_id } => {
                Message::new("dispatch ").number(*dispatch_index).text(" binding ").number(*binding).text(" model boundary buffer ").quoted(signal_id.as_str()).text(" is unavailable").done()
            },
            VulkanMountedPlacedResidentKernelDispatchError::UnsupportedPushConstantScalar { name, scalar_type } => {
                Message::new("push constant ").quoted(name.as_str()).text(" has unsupported scalar type ").quoted(scalar_type.as_str()).done()
            },
            VulkanMountedPlacedResidentKernelDispatchError::UnsupportedPushConstantBinding { name } => {
                Message::new("push constant ").quoted(name.as_str()).text(" has no supported binding").done()
            },
            VulkanMountedPlacedResidentKernelDispatchError::PushConstantByteCountOverflow => {
                Message::new("push constant byte count overflowed").done()
            },
            VulkanMountedPlacedResidentKernelDispatchError::MissingPedalDispatches { pedal_id } => {
                Message::new("pedal ").quoted(pedal_id.as_str()).text(" has no dispatches").done()
            },
            VulkanMountedPlacedResidentKernelDispatchError::PedalRunnerDescriptorCountOverflow { pedal_id } => {
                Message::new("pedal ").quoted(pedal_id.as_str()).text(" descriptor count overflowed").done()
            },
            VulkanMountedPlacedResidentKernelDispatchError::PedalRunnerPushConstantByteCountOverflow { pedal_id } => {
                Message::new("pedal ").quoted(pedal_id.as_str()).text(" push constant byte count overflowed").done()
            },
            VulkanMountedPlacedResidentKernelDispatchError::MissingPedalboardPedals { device_id } => {
                Message::new("device ").quoted(device_id.as_str()).text(" has no pedals").done()
            },
            VulkanMountedPlacedResidentKernelDispatchError::PedalboardRunnerDescriptorCountOverflow { device_id } => {
                Message::new("device ").quoted(device_id.as_str()).text(" pedalboard descriptor count overflowed").done()
            },
            VulkanMountedPlacedResidentKernelDispatchError::PedalboardRunnerPushConstantByteCountOverflow { device_id } => {
                Message::new("device ").quoted(device_id.as_str()).text(" pedalboard push constant byte count overflowed").done()
            },
            VulkanMountedPlacedResidentKernelDispatchError::MissingComponentDispatches { component_id } => {
                Message::new("component ").quoted(component_id.as_str()).text(" has no dispatches").done()
            },
            VulkanMountedPlacedResidentKernelDispatchError::ComponentRunnerDescriptorCountOverflow { component_id } => {
                Message::new("component ").quoted(component_id.as_str()).text(" descriptor count overflowed").done()
            },
            VulkanMountedPlacedResidentKernelDispatchError::ComponentRunnerPushConstantByteCountOverflow { component_id } => {
                Message::new("component ").quoted(component_id.as_str()).text(" push constant byte count overflowed").done()
            },
            VulkanMountedPlacedResidentKernelDispatchError::MissingExecutionGraphComponents { device_id } => {
                Message::new("device ").quoted(device_id.as_str()).text(" has no components").done()
            },
            VulkanMountedPlacedResidentKernelDispatchError::ExecutionGraphRunnerDescriptorCountOverflow { device_id } => {
                Message::new("device ").quoted(device_id.as_str()).text(" execution graph descriptor count overflowed").done()
            },
            VulkanMountedPlacedResidentKernelDispatchError::ExecutionGraphRunnerPushConstantByteCountOverflow { device_id } => {
                Message::new("device ").quoted(device_id.as_str()).text(" execution graph push constant byte count overflowed").done()
            },
            VulkanMountedPlacedResidentKernelDispatchError::EmptyDispatchSegment { device_id } => {
                Message::new("device ").quoted(device_id.as_str()).text(" has an empty dispatch segment").done()
            },
            VulkanMountedPlacedResidentKernelDispatchError::DispatchSegmentStageOverflow { device_id } => {
                Message::new("device ").quoted(device_id.as_str()).text(" dispatch segment stage index overflowed").done()
            },
            VulkanMountedPlacedResidentKernelDispatchError::NonDispatchStageInSegment { device_id, stage_index } => {
                Message::new("device ").quoted(device_id.as_str()).text(" stage ").number(*stage_index).text(" of a dispatch segment is not a dispatch").done()
            },
            VulkanMountedPlacedResidentKernelDispatchError::MissingSegmentDispatch { device_id, stage_index, dispatch_index } => {
                Message::new("device ").quoted(device_id.as_str()).text(" stage ").number(*stage_index).text(" has no dispatch ").number(*dispatch_index).done()
            },
            VulkanMountedPlacedResidentKernelDispatchError::Vulkan(error) => error.to_string(),
        }
    }
}

/// The number of bytes of a scalar.
pub open spec fn scalar_bytes(scalar: VulkanKernelScalarBindingView) -> Result<
    u32,
    VulkanMountedPlacedResidentKernelDispatchErrorView,
> {
    if scalar.scalar_type == "u32"@ {
        Ok(4)
    } else if scalar.scalar_type == "u64"@ {
        Ok(8)
    } else {
        Err(
            VulkanMountedPlacedResidentKernelDispatchErrorView::UnsupportedPushConstantScalar {
                name: scalar.name,
                scalar_type: scalar.scalar_type,
            },
        )
    }
}

/// How a scalar adds to the number of bytes.
pub open spec fn scalar_step() -> spec_fn(u32, VulkanKernelScalarBindingView) -> Result<
    u32,
    VulkanMountedPlacedResidentKernelDispatchErrorView,
> {
    |total: u32, scalar: VulkanKernelScalarBindingView|
        match scalar_bytes(scalar) {
            Err(error) => Err(error),
            Ok(bytes) => if total + bytes > u32::MAX {
                Err(
                    VulkanMountedPlacedResidentKernelDispatchErrorView::PushConstantByteCountOverflow,
                )
            } else {
                Ok((total + bytes) as u32)
            },
        }
}

/// The number of bytes of a launch's push constants.
pub open spec fn push_constant_bytes(scalars: Seq<VulkanKernelScalarBindingView>) -> Result<
    u32,
    VulkanMountedPlacedResidentKernelDispatchErrorView,
> {
    sequence::try_fold(scalars, 0u32, scalar_step())
}

/// The number of bytes of a launch's push constants. How many bytes a scalar of each kind takes, and
/// which kinds there are, is a rule of this library.
#[verifier::loop_isolation(false)]
pub fn push_constant_byte_count(scalars: &Vec<VulkanKernelScalarBinding>) -> (r: Result<
    u32,
    VulkanMountedPlacedResidentKernelDispatchError,
>)
    ensures
        sequence::outcome(r) == push_constant_bytes(scalars.deep_view()),
{
    let ghost all = scalars.deep_view();
    let mut total: u32 = 0;
    let mut i: usize = 0;
    assert(all.take(0) =~= Seq::empty());
    while i < scalars.len()
        invariant
            i <= scalars.len(),
            sequence::try_fold(all.take(i as int), 0u32, scalar_step()) == Ok::<
                u32,
                VulkanMountedPlacedResidentKernelDispatchErrorView,
            >(total),
        decreases scalars.len() - i,
    {
        let scalar = &scalars[i];
        proof {
            assert(all[i as int] == scalar@);
            sequence::lemma_try_fold_step(all, 0u32, scalar_step(), i as int);
            if sequence::try_fold(all.take(i + 1), 0u32, scalar_step()) is Err {
                sequence::lemma_try_fold_error(all, 0u32, scalar_step(), i + 1);
            }
        }
        let bytes: u32 = if text::same(scalar.scalar_type.as_str(), "u32") {
            4
        } else if text::same(scalar.scalar_type.as_str(), "u64") {
            8
        } else {
            return Err(
                VulkanMountedPlacedResidentKernelDispatchError::UnsupportedPushConstantScalar {
                    name: scalar.name.clone(),
                    scalar_type: scalar.scalar_type.clone(),
                },
            );
        };
        match total.checked_add(bytes) {
            None => {
                return Err(
                    VulkanMountedPlacedResidentKernelDispatchError::PushConstantByteCountOverflow,
                );
            },
            Some(sum) => {
                total = sum;
            },
        }
        i += 1;
    }
    assert(all.take(all.len() as int) =~= all);
    Ok(total)
}

/// Whether a scalar has this type.
pub open spec fn scalar_of(scalar_type: Seq<char>) -> spec_fn(VulkanKernelScalarBindingView) -> bool {
    |scalar: VulkanKernelScalarBindingView| scalar.scalar_type == scalar_type
}

/// Push constants take four bytes for every `u32` and eight for every `u64`. They are refused where
/// one has another type, or where their bytes cannot be counted.
pub proof fn push_constants_take_their_scalars(scalars: Seq<VulkanKernelScalarBindingView>)
    ensures
        ({
            let bytes = 4 * sequence::count(scalars, scalar_of("u32"@)) + 8 * sequence::count(
                scalars,
                scalar_of("u64"@),
            );
            let typed = forall|i: int|
                0 <= i < scalars.len() ==> (#[trigger] scalars[i]).scalar_type == "u32"@
                    || scalars[i].scalar_type == "u64"@;
            &&& push_constant_bytes(scalars) is Ok <==> typed && bytes <= u32::MAX
            &&& push_constant_bytes(scalars) is Ok ==> push_constant_bytes(scalars)->Ok_0 == bytes
        }),
    decreases scalars.len(),
{
    reveal_strlit("u32");
    reveal_strlit("u64");
    assert("u32"@[1] != "u64"@[1]);
    if scalars.len() > 0 {
        let front = scalars.drop_last();
        push_constants_take_their_scalars(front);
        let typed = forall|i: int|
            0 <= i < scalars.len() ==> (#[trigger] scalars[i]).scalar_type == "u32"@
                || scalars[i].scalar_type == "u64"@;
        if typed {
            assert forall|i: int| 0 <= i < front.len() implies (#[trigger] front[i]).scalar_type
                == "u32"@ || front[i].scalar_type == "u64"@ by {
                assert(front[i] == scalars[i]);
            }
            assert(scalars[scalars.len() - 1] == scalars.last());
        } else {
            let i = choose|i: int|
                0 <= i < scalars.len() && !((#[trigger] scalars[i]).scalar_type == "u32"@
                    || scalars[i].scalar_type == "u64"@);
            if i < front.len() {
                assert(front[i] == scalars[i]);
            }
        }
    }
}

} // verus!
