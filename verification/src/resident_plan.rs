//! What a circuit keeps resident: parameters, state and activation slots.

use crate::device::VulkanResidentBuffer;
use crate::device::VulkanResidentBufferView;
use crate::placement::ComponentEdgePlacement;
use crate::placement::ComponentEdgePlacementView;
use crate::sequence;
use crate::text;
use vstd::prelude::*;

verus! {

/// The name of this backend.
pub const VULKAN_STREAM_CIRCUIT_BACKEND_ID: &'static str = "vulkan_stream_circuit_ir";

/// A parameter tensor that stays resident.
#[derive(Debug, PartialEq, Eq)]
pub struct VulkanResidentParameter {
    pub tensor: String,
    pub byte_count: Option<usize>,
    pub shape: Option<Vec<usize>>,
}

#[verifier::ext_equal]
pub struct VulkanResidentParameterView {
    pub tensor: Seq<char>,
    pub byte_count: Option<usize>,
    pub shape: Option<Seq<usize>>,
}

impl DeepView for VulkanResidentParameter {
    type V = VulkanResidentParameterView;

    open spec fn deep_view(&self) -> VulkanResidentParameterView {
        VulkanResidentParameterView {
            tensor: self.tensor.deep_view(),
            byte_count: self.byte_count,
            shape: self.shape.deep_view(),
        }
    }
}

impl View for VulkanResidentParameter {
    type V = VulkanResidentParameterView;

    open spec fn view(&self) -> VulkanResidentParameterView {
        self.deep_view()
    }
}

impl Clone for VulkanResidentParameter {
    fn clone(&self) -> (r: Self)
        ensures
            r@ == self@,
    {
        VulkanResidentParameter {
            tensor: self.tensor.clone(),
            byte_count: self.byte_count.clone(),
            shape: self.shape.clone(),
        }
    }
}

/// A state of a component that lives as long as its stream.
#[derive(Debug, PartialEq, Eq)]
pub struct VulkanResidentStateBuffer {
    pub component_id: String,
    pub state_id: String,
    pub state_type: String,
    pub static_bytes: Option<usize>,
    pub bytes_per_activation: Option<usize>,
}

#[verifier::ext_equal]
pub struct VulkanResidentStateBufferView {
    pub component_id: Seq<char>,
    pub state_id: Seq<char>,
    pub state_type: Seq<char>,
    pub static_bytes: Option<usize>,
    pub bytes_per_activation: Option<usize>,
}

impl DeepView for VulkanResidentStateBuffer {
    type V = VulkanResidentStateBufferView;

    open spec fn deep_view(&self) -> VulkanResidentStateBufferView {
        VulkanResidentStateBufferView {
            component_id: self.component_id.deep_view(),
            state_id: self.state_id.deep_view(),
            state_type: self.state_type.deep_view(),
            static_bytes: self.static_bytes,
            bytes_per_activation: self.bytes_per_activation,
        }
    }
}

impl View for VulkanResidentStateBuffer {
    type V = VulkanResidentStateBufferView;

    open spec fn view(&self) -> VulkanResidentStateBufferView {
        self.deep_view()
    }
}

impl Clone for VulkanResidentStateBuffer {
    fn clone(&self) -> (r: Self)
        ensures
            r@ == self@,
    {
        VulkanResidentStateBuffer {
            component_id: self.component_id.clone(),
            state_id: self.state_id.clone(),
            state_type: self.state_type.clone(),
            static_bytes: self.static_bytes.clone(),
            bytes_per_activation: self.bytes_per_activation.clone(),
        }
    }
}

/// How the bytes of a state are laid out for a capacity of activations, or why they cannot be.
#[derive(Debug, PartialEq, Eq)]
pub enum VulkanTransientStateBufferLayout {
    Laid { byte_capacity: usize },
    Refused { reason: String },
}

#[verifier::ext_equal]
pub enum VulkanTransientStateBufferLayoutView {
    Laid { byte_capacity: usize },
    Refused { reason: Seq<char> },
}

impl DeepView for VulkanTransientStateBufferLayout {
    type V = VulkanTransientStateBufferLayoutView;

    open spec fn deep_view(&self) -> VulkanTransientStateBufferLayoutView {
        match self {
            VulkanTransientStateBufferLayout::Laid { byte_capacity } => VulkanTransientStateBufferLayoutView::Laid { byte_capacity: *byte_capacity },
            VulkanTransientStateBufferLayout::Refused { reason } => VulkanTransientStateBufferLayoutView::Refused { reason: reason.deep_view() },
        }
    }
}

impl View for VulkanTransientStateBufferLayout {
    type V = VulkanTransientStateBufferLayoutView;

    open spec fn view(&self) -> VulkanTransientStateBufferLayoutView {
        self.deep_view()
    }
}

impl Clone for VulkanTransientStateBufferLayout {
    fn clone(&self) -> (r: Self)
        ensures
            r@ == self@,
    {
        match self {
            VulkanTransientStateBufferLayout::Laid { byte_capacity } => VulkanTransientStateBufferLayout::Laid { byte_capacity: *byte_capacity },
            VulkanTransientStateBufferLayout::Refused { reason } => VulkanTransientStateBufferLayout::Refused { reason: reason.clone() },
        }
    }
}

/// A slot that several signals of a component take in turn.
#[derive(Debug, PartialEq, Eq)]
pub struct VulkanResidentActivationSlot {
    pub slot: usize,
    pub bytes: Option<usize>,
    pub max_elements: Option<usize>,
    pub signal_ids: Vec<String>,
}

#[verifier::ext_equal]
pub struct VulkanResidentActivationSlotView {
    pub slot: usize,
    pub bytes: Option<usize>,
    pub max_elements: Option<usize>,
    pub signal_ids: Seq<Seq<char>>,
}

impl DeepView for VulkanResidentActivationSlot {
    type V = VulkanResidentActivationSlotView;

    open spec fn deep_view(&self) -> VulkanResidentActivationSlotView {
        VulkanResidentActivationSlotView {
            slot: self.slot,
            bytes: self.bytes,
            max_elements: self.max_elements,
            signal_ids: self.signal_ids.deep_view(),
        }
    }
}

impl View for VulkanResidentActivationSlot {
    type V = VulkanResidentActivationSlotView;

    open spec fn view(&self) -> VulkanResidentActivationSlotView {
        self.deep_view()
    }
}

impl Clone for VulkanResidentActivationSlot {
    fn clone(&self) -> (r: Self)
        ensures
            r@ == self@,
    {
        VulkanResidentActivationSlot {
            slot: self.slot,
            bytes: self.bytes.clone(),
            max_elements: self.max_elements.clone(),
            signal_ids: self.signal_ids.clone(),
        }
    }
}

/// The activation slots of a component.
#[derive(Debug, PartialEq, Eq)]
pub struct VulkanResidentActivationBank {
    pub component_id: String,
    pub circuit_id: String,
    pub slots: Vec<VulkanResidentActivationSlot>,
}

#[verifier::ext_equal]
pub struct VulkanResidentActivationBankView {
    pub component_id: Seq<char>,
    pub circuit_id: Seq<char>,
    pub slots: Seq<VulkanResidentActivationSlotView>,
}

impl DeepView for VulkanResidentActivationBank {
    type V = VulkanResidentActivationBankView;

    open spec fn deep_view(&self) -> VulkanResidentActivationBankView {
        VulkanResidentActivationBankView {
            component_id: self.component_id.deep_view(),
            circuit_id: self.circuit_id.deep_view(),
            slots: self.slots.deep_view(),
        }
    }
}

impl View for VulkanResidentActivationBank {
    type V = VulkanResidentActivationBankView;

    open spec fn view(&self) -> VulkanResidentActivationBankView {
        self.deep_view()
    }
}

impl Clone for VulkanResidentActivationBank {
    fn clone(&self) -> (r: Self)
        ensures
            r@ == self@,
    {
        VulkanResidentActivationBank {
            component_id: self.component_id.clone(),
            circuit_id: self.circuit_id.clone(),
            slots: self.slots.clone(),
        }
    }
}

/// The resident resources of a set of circuits.
#[derive(Debug, PartialEq, Eq)]
pub struct VulkanStreamCircuitResidentPlan {
    pub circuit_count: usize,
    pub permanent_parameters: Vec<VulkanResidentParameter>,
    pub stream_state_buffers: Vec<VulkanResidentStateBuffer>,
    pub activation_banks: Vec<VulkanResidentActivationBank>,
}

#[verifier::ext_equal]
pub struct VulkanStreamCircuitResidentPlanView {
    pub circuit_count: usize,
    pub permanent_parameters: Seq<VulkanResidentParameterView>,
    pub stream_state_buffers: Seq<VulkanResidentStateBufferView>,
    pub activation_banks: Seq<VulkanResidentActivationBankView>,
}

impl DeepView for VulkanStreamCircuitResidentPlan {
    type V = VulkanStreamCircuitResidentPlanView;

    open spec fn deep_view(&self) -> VulkanStreamCircuitResidentPlanView {
        VulkanStreamCircuitResidentPlanView {
            circuit_count: self.circuit_count,
            permanent_parameters: self.permanent_parameters.deep_view(),
            stream_state_buffers: self.stream_state_buffers.deep_view(),
            activation_banks: self.activation_banks.deep_view(),
        }
    }
}

impl View for VulkanStreamCircuitResidentPlan {
    type V = VulkanStreamCircuitResidentPlanView;

    open spec fn view(&self) -> VulkanStreamCircuitResidentPlanView {
        self.deep_view()
    }
}

impl Clone for VulkanStreamCircuitResidentPlan {
    fn clone(&self) -> (r: Self)
        ensures
            r@ == self@,
    {
        VulkanStreamCircuitResidentPlan {
            circuit_count: self.circuit_count,
            permanent_parameters: self.permanent_parameters.clone(),
            stream_state_buffers: self.stream_state_buffers.clone(),
            activation_banks: self.activation_banks.clone(),
        }
    }
}

/// The resident resources of one device, and the edges that touch it.
#[derive(Debug, PartialEq, Eq)]
pub struct VulkanPlacedStreamCircuitResidentPlan {
    pub device_id: String,
    pub signal_element_bytes: Option<usize>,
    pub hosted_component_ids: Vec<String>,
    pub resident_plan: VulkanStreamCircuitResidentPlan,
    pub local_edges: Vec<ComponentEdgePlacement>,
    pub incoming_edges: Vec<ComponentEdgePlacement>,
    pub outgoing_edges: Vec<ComponentEdgePlacement>,
}

#[verifier::ext_equal]
pub struct VulkanPlacedStreamCircuitResidentPlanView {
    pub device_id: Seq<char>,
    pub signal_element_bytes: Option<usize>,
    pub hosted_component_ids: Seq<Seq<char>>,
    pub resident_plan: VulkanStreamCircuitResidentPlanView,
    pub local_edges: Seq<ComponentEdgePlacementView>,
    pub incoming_edges: Seq<ComponentEdgePlacementView>,
    pub outgoing_edges: Seq<ComponentEdgePlacementView>,
}

impl DeepView for VulkanPlacedStreamCircuitResidentPlan {
    type V = VulkanPlacedStreamCircuitResidentPlanView;

    open spec fn deep_view(&self) -> VulkanPlacedStreamCircuitResidentPlanView {
        VulkanPlacedStreamCircuitResidentPlanView {
            device_id: self.device_id.deep_view(),
            signal_element_bytes: self.signal_element_bytes,
            hosted_component_ids: self.hosted_component_ids.deep_view(),
            resident_plan: self.resident_plan.deep_view(),
            local_edges: self.local_edges.deep_view(),
            incoming_edges: self.incoming_edges.deep_view(),
            outgoing_edges: self.outgoing_edges.deep_view(),
        }
    }
}

impl View for VulkanPlacedStreamCircuitResidentPlan {
    type V = VulkanPlacedStreamCircuitResidentPlanView;

    open spec fn view(&self) -> VulkanPlacedStreamCircuitResidentPlanView {
        self.deep_view()
    }
}

impl Clone for VulkanPlacedStreamCircuitResidentPlan {
    fn clone(&self) -> (r: Self)
        ensures
            r@ == self@,
    {
        VulkanPlacedStreamCircuitResidentPlan {
            device_id: self.device_id.clone(),
            signal_element_bytes: self.signal_element_bytes.clone(),
            hosted_component_ids: self.hosted_component_ids.clone(),
            resident_plan: self.resident_plan.clone(),
            local_edges: self.local_edges.clone(),
            incoming_edges: self.incoming_edges.clone(),
            outgoing_edges: self.outgoing_edges.clone(),
        }
    }
}

/// The buffer of a state.
#[derive(Debug, PartialEq, Eq)]
pub struct VulkanStreamStateBufferAllocation {
    pub component_id: String,
    pub state_id: String,
    pub byte_capacity: usize,
    pub buffer: VulkanResidentBuffer,
}

#[verifier::ext_equal]
pub struct VulkanStreamStateBufferAllocationView {
    pub component_id: Seq<char>,
    pub state_id: Seq<char>,
    pub byte_capacity: usize,
    pub buffer: VulkanResidentBufferView,
}

impl DeepView for VulkanStreamStateBufferAllocation {
    type V = VulkanStreamStateBufferAllocationView;

    open spec fn deep_view(&self) -> VulkanStreamStateBufferAllocationView {
        VulkanStreamStateBufferAllocationView {
            component_id: self.component_id.deep_view(),
            state_id: self.state_id.deep_view(),
            byte_capacity: self.byte_capacity,
            buffer: self.buffer.deep_view(),
        }
    }
}

impl View for VulkanStreamStateBufferAllocation {
    type V = VulkanStreamStateBufferAllocationView;

    open spec fn view(&self) -> VulkanStreamStateBufferAllocationView {
        self.deep_view()
    }
}

impl Clone for VulkanStreamStateBufferAllocation {
    fn clone(&self) -> (r: Self)
        ensures
            r@ == self@,
    {
        VulkanStreamStateBufferAllocation {
            component_id: self.component_id.clone(),
            state_id: self.state_id.clone(),
            byte_capacity: self.byte_capacity,
            buffer: self.buffer.clone(),
        }
    }
}

/// The buffer of an activation slot.
#[derive(Debug, PartialEq, Eq)]
pub struct VulkanActivationSlotBufferAllocation {
    pub component_id: String,
    pub circuit_id: String,
    pub slot: usize,
    pub byte_capacity: usize,
    pub buffer: VulkanResidentBuffer,
}

#[verifier::ext_equal]
pub struct VulkanActivationSlotBufferAllocationView {
    pub component_id: Seq<char>,
    pub circuit_id: Seq<char>,
    pub slot: usize,
    pub byte_capacity: usize,
    pub buffer: VulkanResidentBufferView,
}

impl DeepView for VulkanActivationSlotBufferAllocation {
    type V = VulkanActivationSlotBufferAllocationView;

    open spec fn deep_view(&self) -> VulkanActivationSlotBufferAllocationView {
        VulkanActivationSlotBufferAllocationView {
            component_id: self.component_id.deep_view(),
            circuit_id: self.circuit_id.deep_view(),
            slot: self.slot,
            byte_capacity: self.byte_capacity,
            buffer: self.buffer.deep_view(),
        }
    }
}

impl View for VulkanActivationSlotBufferAllocation {
    type V = VulkanActivationSlotBufferAllocationView;

    open spec fn view(&self) -> VulkanActivationSlotBufferAllocationView {
        self.deep_view()
    }
}

impl Clone for VulkanActivationSlotBufferAllocation {
    fn clone(&self) -> (r: Self)
        ensures
            r@ == self@,
    {
        VulkanActivationSlotBufferAllocation {
            component_id: self.component_id.clone(),
            circuit_id: self.circuit_id.clone(),
            slot: self.slot,
            byte_capacity: self.byte_capacity,
            buffer: self.buffer.clone(),
        }
    }
}

/// The buffers of a stream.
#[derive(Debug, PartialEq, Eq)]
pub struct VulkanStreamCircuitStreamBuffers {
    pub dynamic_state_capacity_activations: usize,
    pub state_buffers: Vec<VulkanStreamStateBufferAllocation>,
    pub activation_slot_buffers: Vec<VulkanActivationSlotBufferAllocation>,
}

#[verifier::ext_equal]
pub struct VulkanStreamCircuitStreamBuffersView {
    pub dynamic_state_capacity_activations: usize,
    pub state_buffers: Seq<VulkanStreamStateBufferAllocationView>,
    pub activation_slot_buffers: Seq<VulkanActivationSlotBufferAllocationView>,
}

impl DeepView for VulkanStreamCircuitStreamBuffers {
    type V = VulkanStreamCircuitStreamBuffersView;

    open spec fn deep_view(&self) -> VulkanStreamCircuitStreamBuffersView {
        VulkanStreamCircuitStreamBuffersView {
            dynamic_state_capacity_activations: self.dynamic_state_capacity_activations,
            state_buffers: self.state_buffers.deep_view(),
            activation_slot_buffers: self.activation_slot_buffers.deep_view(),
        }
    }
}

impl View for VulkanStreamCircuitStreamBuffers {
    type V = VulkanStreamCircuitStreamBuffersView;

    open spec fn view(&self) -> VulkanStreamCircuitStreamBuffersView {
        self.deep_view()
    }
}

impl Clone for VulkanStreamCircuitStreamBuffers {
    fn clone(&self) -> (r: Self)
        ensures
            r@ == self@,
    {
        VulkanStreamCircuitStreamBuffers {
            dynamic_state_capacity_activations: self.dynamic_state_capacity_activations,
            state_buffers: self.state_buffers.clone(),
            activation_slot_buffers: self.activation_slot_buffers.clone(),
        }
    }
}

/// Whether a buffer is that of a state.
pub open spec fn state_matcher(component_id: Seq<char>, state_id: Seq<char>) -> spec_fn(
    VulkanStreamStateBufferAllocationView,
) -> bool {
    |b: VulkanStreamStateBufferAllocationView| b.component_id == component_id && b.state_id == state_id
}

/// Whether a buffer is that of an activation slot.
pub open spec fn slot_matcher(component_id: Seq<char>, slot: usize) -> spec_fn(
    VulkanActivationSlotBufferAllocationView,
) -> bool {
    |b: VulkanActivationSlotBufferAllocationView| b.component_id == component_id && b.slot == slot
}

/// A position as a machine number.
pub open spec fn as_index(position: Option<int>) -> Option<usize> {
    match position {
        Some(i) => Some(i as usize),
        None => None,
    }
}

impl VulkanStreamCircuitStreamBuffers {
    /// The position of the buffer of a state.
    #[verifier::loop_isolation(false)]
    pub fn state_buffer_index(&self, component_id: &str, state_id: &str) -> (r: Option<usize>)
        ensures
            r == as_index(
                sequence::first_position(
                    self@.state_buffers,
                    state_matcher(component_id@, state_id@),
                ),
            ),
            r is Some ==> r->Some_0 < self@.state_buffers.len(),
    {
        let ghost all = self.state_buffers.deep_view();
        let ghost p = state_matcher(component_id@, state_id@);
        let mut i: usize = 0;
        while i < self.state_buffers.len()
            invariant
                i <= self.state_buffers.len(),
                forall|j: int| 0 <= j < i ==> !p(#[trigger] all[j]),
            decreases self.state_buffers.len() - i,
        {
            let allocation: &VulkanStreamStateBufferAllocation = &self.state_buffers[i];
            assert(all[i as int] == allocation@);
            if text::same(allocation.component_id.as_str(), component_id) && text::same(
                allocation.state_id.as_str(),
                state_id,
            ) {
                proof {
                    sequence::lemma_find_first_at(all, p, i as int);
                }
                return Some(i);
            }
            i += 1;
        }
        proof {
            sequence::lemma_find_first_none(all, p);
        }
        None
    }

    /// The position of the buffer of an activation slot.
    #[verifier::loop_isolation(false)]
    pub fn activation_slot_buffer_index(&self, component_id: &str, slot: usize) -> (r: Option<usize>)
        ensures
            r == as_index(
                sequence::first_position(
                    self@.activation_slot_buffers,
                    slot_matcher(component_id@, slot),
                ),
            ),
            r is Some ==> r->Some_0 < self@.activation_slot_buffers.len(),
    {
        let ghost all = self.activation_slot_buffers.deep_view();
        let ghost p = slot_matcher(component_id@, slot);
        let mut i: usize = 0;
        while i < self.activation_slot_buffers.len()
            invariant
                i <= self.activation_slot_buffers.len(),
                forall|j: int| 0 <= j < i ==> !p(#[trigger] all[j]),
            decreases self.activation_slot_buffers.len() - i,
        {
            let allocation: &VulkanActivationSlotBufferAllocation =
                &self.activation_slot_buffers[i];
            assert(all[i as int] == allocation@);
            if text::same(allocation.component_id.as_str(), component_id) && allocation.slot == slot {
                proof {
                    sequence::lemma_find_first_at(all, p, i as int);
                }
                return Some(i);
            }
            i += 1;
        }
        proof {
            sequence::lemma_find_first_none(all, p);
        }
        None
    }
}

/// A parameter tensor.
#[derive(Debug, PartialEq, Eq)]
pub struct VulkanPermanentParameter {
    pub tensor: String,
    pub dtype: Option<String>,
    pub shape: Option<Vec<usize>>,
}

#[verifier::ext_equal]
pub struct VulkanPermanentParameterView {
    pub tensor: Seq<char>,
    pub dtype: Option<Seq<char>>,
    pub shape: Option<Seq<usize>>,
}

impl DeepView for VulkanPermanentParameter {
    type V = VulkanPermanentParameterView;

    open spec fn deep_view(&self) -> VulkanPermanentParameterView {
        VulkanPermanentParameterView {
            tensor: self.tensor.deep_view(),
            dtype: self.dtype.deep_view(),
            shape: self.shape.deep_view(),
        }
    }
}

impl View for VulkanPermanentParameter {
    type V = VulkanPermanentParameterView;

    open spec fn view(&self) -> VulkanPermanentParameterView {
        self.deep_view()
    }
}

impl Clone for VulkanPermanentParameter {
    fn clone(&self) -> (r: Self)
        ensures
            r@ == self@,
    {
        VulkanPermanentParameter {
            tensor: self.tensor.clone(),
            dtype: self.dtype.clone(),
            shape: self.shape.clone(),
        }
    }
}

/// The buffer of a parameter tensor.
#[derive(Debug, PartialEq, Eq)]
pub struct VulkanPermanentParameterBufferAllocation {
    pub parameter: VulkanPermanentParameter,
    pub byte_capacity: usize,
    pub buffer: VulkanResidentBuffer,
}

#[verifier::ext_equal]
pub struct VulkanPermanentParameterBufferAllocationView {
    pub parameter: VulkanPermanentParameterView,
    pub byte_capacity: usize,
    pub buffer: VulkanResidentBufferView,
}

impl DeepView for VulkanPermanentParameterBufferAllocation {
    type V = VulkanPermanentParameterBufferAllocationView;

    open spec fn deep_view(&self) -> VulkanPermanentParameterBufferAllocationView {
        VulkanPermanentParameterBufferAllocationView {
            parameter: self.parameter.deep_view(),
            byte_capacity: self.byte_capacity,
            buffer: self.buffer.deep_view(),
        }
    }
}

impl View for VulkanPermanentParameterBufferAllocation {
    type V = VulkanPermanentParameterBufferAllocationView;

    open spec fn view(&self) -> VulkanPermanentParameterBufferAllocationView {
        self.deep_view()
    }
}

impl Clone for VulkanPermanentParameterBufferAllocation {
    fn clone(&self) -> (r: Self)
        ensures
            r@ == self@,
    {
        VulkanPermanentParameterBufferAllocation {
            parameter: self.parameter.clone(),
            byte_capacity: self.byte_capacity,
            buffer: self.buffer.clone(),
        }
    }
}

/// The buffers of the parameter tensors.
#[derive(Debug, PartialEq, Eq)]
pub struct VulkanPermanentParameterBuffers {
    pub buffers: Vec<VulkanPermanentParameterBufferAllocation>,
}

#[verifier::ext_equal]
pub struct VulkanPermanentParameterBuffersView {
    pub buffers: Seq<VulkanPermanentParameterBufferAllocationView>,
}

impl DeepView for VulkanPermanentParameterBuffers {
    type V = VulkanPermanentParameterBuffersView;

    open spec fn deep_view(&self) -> VulkanPermanentParameterBuffersView {
        VulkanPermanentParameterBuffersView {
            buffers: self.buffers.deep_view(),
        }
    }
}

impl View for VulkanPermanentParameterBuffers {
    type V = VulkanPermanentParameterBuffersView;

    open spec fn view(&self) -> VulkanPermanentParameterBuffersView {
        self.deep_view()
    }
}

impl Clone for VulkanPermanentParameterBuffers {
    fn clone(&self) -> (r: Self)
        ensures
            r@ == self@,
    {
        VulkanPermanentParameterBuffers {
            buffers: self.buffers.clone(),
        }
    }
}

/// Whether a buffer is that of a tensor.
pub open spec fn tensor_matcher(tensor: Seq<char>) -> spec_fn(
    VulkanPermanentParameterBufferAllocationView,
) -> bool {
    |b: VulkanPermanentParameterBufferAllocationView| b.parameter.tensor == tensor
}

impl VulkanPermanentParameterBuffers {
    /// The buffer of a tensor.
    #[verifier::loop_isolation(false)]
    pub fn parameter_buffer(&self, tensor: &str) -> (r: Option<
        &VulkanPermanentParameterBufferAllocation,
    >)
        ensures
            r.deep_view() == sequence::find_first(self@.buffers, tensor_matcher(tensor@)),
    {
        let ghost all = self.buffers.deep_view();
        let ghost p = tensor_matcher(tensor@);
        let mut i: usize = 0;
        while i < self.buffers.len()
            invariant
                i <= self.buffers.len(),
                forall|j: int| 0 <= j < i ==> !p(#[trigger] all[j]),
            decreases self.buffers.len() - i,
        {
            assert(all[i as int] == self.buffers@[i as int]@);
            if text::same(self.buffers[i].parameter.tensor.as_str(), tensor) {
                proof {
                    sequence::lemma_find_first_at(all, p, i as int);
                }
                return Some(&self.buffers[i]);
            }
            i += 1;
        }
        proof {
            sequence::lemma_find_first_none(all, p);
        }
        None
    }
}

/// Why the buffers of parameter tensors cannot be planned.
#[derive(Debug, PartialEq, Eq)]
pub struct VulkanPermanentParameterBufferPlanError(pub String);

impl DeepView for VulkanPermanentParameterBufferPlanError {
    type V = Seq<char>;

    open spec fn deep_view(&self) -> Seq<char> {
        self.0.deep_view()
    }
}

impl View for VulkanPermanentParameterBufferPlanError {
    type V = Seq<char>;

    open spec fn view(&self) -> Seq<char> {
        self.deep_view()
    }
}

impl Clone for VulkanPermanentParameterBufferPlanError {
    fn clone(&self) -> (r: Self)
        ensures
            r@ == self@,
    {
        VulkanPermanentParameterBufferPlanError(self.0.clone())
    }
}

/// Why the buffers of boundary signals cannot be planned.
#[derive(Debug, PartialEq, Eq)]
pub struct VulkanModelBoundaryBufferPlanError(pub String);

impl DeepView for VulkanModelBoundaryBufferPlanError {
    type V = Seq<char>;

    open spec fn deep_view(&self) -> Seq<char> {
        self.0.deep_view()
    }
}

impl View for VulkanModelBoundaryBufferPlanError {
    type V = Seq<char>;

    open spec fn view(&self) -> Seq<char> {
        self.deep_view()
    }
}

impl Clone for VulkanModelBoundaryBufferPlanError {
    fn clone(&self) -> (r: Self)
        ensures
            r@ == self@,
    {
        VulkanModelBoundaryBufferPlanError(self.0.clone())
    }
}

/// On which side of a model a boundary signal lies.
#[derive(Clone, Copy, Debug, PartialEq, Eq, Structural)]
pub enum VulkanModelBoundaryDirection {
    Input,
    Output,
}

impl DeepView for VulkanModelBoundaryDirection {
    type V = VulkanModelBoundaryDirection;

    open spec fn deep_view(&self) -> VulkanModelBoundaryDirection {
        *self
    }
}

/// The buffer of a boundary signal.
#[derive(Debug, PartialEq, Eq)]
pub struct VulkanModelBoundaryBufferAllocation {
    pub signal_id: String,
    pub byte_capacity: usize,
    pub buffer: VulkanResidentBuffer,
}

#[verifier::ext_equal]
pub struct VulkanModelBoundaryBufferAllocationView {
    pub signal_id: Seq<char>,
    pub byte_capacity: usize,
    pub buffer: VulkanResidentBufferView,
}

impl DeepView for VulkanModelBoundaryBufferAllocation {
    type V = VulkanModelBoundaryBufferAllocationView;

    open spec fn deep_view(&self) -> VulkanModelBoundaryBufferAllocationView {
        VulkanModelBoundaryBufferAllocationView {
            signal_id: self.signal_id.deep_view(),
            byte_capacity: self.byte_capacity,
            buffer: self.buffer.deep_view(),
        }
    }
}

impl View for VulkanModelBoundaryBufferAllocation {
    type V = VulkanModelBoundaryBufferAllocationView;

    open spec fn view(&self) -> VulkanModelBoundaryBufferAllocationView {
        self.deep_view()
    }
}

impl Clone for VulkanModelBoundaryBufferAllocation {
    fn clone(&self) -> (r: Self)
        ensures
            r@ == self@,
    {
        VulkanModelBoundaryBufferAllocation {
            signal_id: self.signal_id.clone(),
            byte_capacity: self.byte_capacity,
            buffer: self.buffer.clone(),
        }
    }
}

/// The buffers of the boundary signals.
#[derive(Debug, PartialEq, Eq)]
pub struct VulkanModelBoundaryBuffers {
    pub inputs: Vec<VulkanModelBoundaryBufferAllocation>,
    pub outputs: Vec<VulkanModelBoundaryBufferAllocation>,
}

#[verifier::ext_equal]
pub struct VulkanModelBoundaryBuffersView {
    pub inputs: Seq<VulkanModelBoundaryBufferAllocationView>,
    pub outputs: Seq<VulkanModelBoundaryBufferAllocationView>,
}

impl DeepView for VulkanModelBoundaryBuffers {
    type V = VulkanModelBoundaryBuffersView;

    open spec fn deep_view(&self) -> VulkanModelBoundaryBuffersView {
        VulkanModelBoundaryBuffersView {
            inputs: self.inputs.deep_view(),
            outputs: self.outputs.deep_view(),
        }
    }
}

impl View for VulkanModelBoundaryBuffers {
    type V = VulkanModelBoundaryBuffersView;

    open spec fn view(&self) -> VulkanModelBoundaryBuffersView {
        self.deep_view()
    }
}

impl Clone for VulkanModelBoundaryBuffers {
    fn clone(&self) -> (r: Self)
        ensures
            r@ == self@,
    {
        VulkanModelBoundaryBuffers {
            inputs: self.inputs.clone(),
            outputs: self.outputs.clone(),
        }
    }
}

/// Whether a buffer is that of a boundary signal.
pub open spec fn boundary_matcher(signal_id: Seq<char>) -> spec_fn(
    VulkanModelBoundaryBufferAllocationView,
) -> bool {
    |b: VulkanModelBoundaryBufferAllocationView| b.signal_id == signal_id
}

#[verifier::loop_isolation(false)]
fn find_boundary<'a>(
    buffers: &'a Vec<VulkanModelBoundaryBufferAllocation>,
    signal_id: &str,
) -> (r: Option<&'a VulkanModelBoundaryBufferAllocation>)
    ensures
        r.deep_view() == sequence::find_first(buffers.deep_view(), boundary_matcher(signal_id@)),
{
    let ghost all = buffers.deep_view();
    let ghost p = boundary_matcher(signal_id@);
    let mut i: usize = 0;
    while i < buffers.len()
        invariant
            i <= buffers.len(),
            forall|j: int| 0 <= j < i ==> !p(#[trigger] all[j]),
        decreases buffers.len() - i,
    {
        assert(all[i as int] == buffers@[i as int]@);
        if text::same(buffers[i].signal_id.as_str(), signal_id) {
            proof {
                sequence::lemma_find_first_at(all, p, i as int);
            }
            return Some(&buffers[i]);
        }
        i += 1;
    }
    proof {
        sequence::lemma_find_first_none(all, p);
    }
    None
}

impl VulkanModelBoundaryBuffers {
    /// The buffer of an input signal.
    pub fn input_buffer(&self, signal_id: &str) -> (r: Option<&VulkanModelBoundaryBufferAllocation>)
        ensures
            r.deep_view() == sequence::find_first(self@.inputs, boundary_matcher(signal_id@)),
    {
        find_boundary(&self.inputs, signal_id)
    }

    /// The buffer of an output signal.
    pub fn output_buffer(&self, signal_id: &str) -> (r: Option<&VulkanModelBoundaryBufferAllocation>)
        ensures
            r.deep_view() == sequence::find_first(self@.outputs, boundary_matcher(signal_id@)),
    {
        find_boundary(&self.outputs, signal_id)
    }
}

/// A state's buffer is found by the names of its component and of the state, and an activation slot's
/// by the name of its component and its number: the first that has both, and none where none has.
pub proof fn stream_buffers_are_found_by_what_they_hold(
    buffers: VulkanStreamCircuitStreamBuffersView,
    component_id: Seq<char>,
    state_id: Seq<char>,
    slot: usize,
    j: int,
)
    ensures
        match sequence::first_position(
            buffers.state_buffers,
            state_matcher(component_id, state_id),
        ) {
            Some(i) => {
                &&& 0 <= i < buffers.state_buffers.len()
                &&& buffers.state_buffers[i].component_id == component_id
                &&& buffers.state_buffers[i].state_id == state_id
                &&& 0 <= j < i ==> buffers.state_buffers[j].component_id != component_id
                    || buffers.state_buffers[j].state_id != state_id
            },
            None => 0 <= j < buffers.state_buffers.len() ==> buffers.state_buffers[j].component_id
                != component_id || buffers.state_buffers[j].state_id != state_id,
        },
        match sequence::first_position(
            buffers.activation_slot_buffers,
            slot_matcher(component_id, slot),
        ) {
            Some(i) => {
                &&& 0 <= i < buffers.activation_slot_buffers.len()
                &&& buffers.activation_slot_buffers[i].component_id == component_id
                &&& buffers.activation_slot_buffers[i].slot == slot
                &&& 0 <= j < i ==> buffers.activation_slot_buffers[j].component_id != component_id
                    || buffers.activation_slot_buffers[j].slot != slot
            },
            None => 0 <= j < buffers.activation_slot_buffers.len()
                ==> buffers.activation_slot_buffers[j].component_id != component_id
                || buffers.activation_slot_buffers[j].slot != slot,
        },
{
    let state = state_matcher(component_id, state_id);
    let activation = slot_matcher(component_id, slot);
    sequence::lemma_first_position_is_first(buffers.state_buffers, state);
    sequence::lemma_first_position_is_first(buffers.activation_slot_buffers, activation);
    sequence::lemma_first_position(buffers.state_buffers, state);
    sequence::lemma_first_position(buffers.activation_slot_buffers, activation);
    if 0 <= j < buffers.state_buffers.len() {
        assert(state(buffers.state_buffers[j]) == (buffers.state_buffers[j].component_id
            == component_id && buffers.state_buffers[j].state_id == state_id));
    }
    if 0 <= j < buffers.activation_slot_buffers.len() {
        assert(activation(buffers.activation_slot_buffers[j]) == (
        buffers.activation_slot_buffers[j].component_id == component_id
            && buffers.activation_slot_buffers[j].slot == slot));
    }
}

/// A parameter's buffer is found by its tensor, and a boundary's by its signal: one that has the name,
/// and none where none has.
pub proof fn permanent_and_boundary_buffers_are_found_by_name(
    parameters: Seq<VulkanPermanentParameterBufferAllocationView>,
    boundary: Seq<VulkanModelBoundaryBufferAllocationView>,
    name: Seq<char>,
    j: int,
)
    ensures
        match sequence::find_first(parameters, tensor_matcher(name)) {
            Some(buffer) => parameters.contains(buffer) && buffer.parameter.tensor == name,
            None => 0 <= j < parameters.len() ==> parameters[j].parameter.tensor != name,
        },
        match sequence::find_first(boundary, boundary_matcher(name)) {
            Some(buffer) => boundary.contains(buffer) && buffer.signal_id == name,
            None => 0 <= j < boundary.len() ==> boundary[j].signal_id != name,
        },
{
    let tensor = tensor_matcher(name);
    let signal = boundary_matcher(name);
    if sequence::find_first(parameters, tensor) is Some {
        sequence::lemma_find_first_some(parameters, tensor);
    } else {
        sequence::lemma_find_none_all(parameters, tensor);
        if 0 <= j < parameters.len() {
            assert(!tensor(parameters[j]));
        }
    }
    if sequence::find_first(boundary, signal) is Some {
        sequence::lemma_find_first_some(boundary, signal);
    } else {
        sequence::lemma_find_none_all(boundary, signal);
        if 0 <= j < boundary.len() {
            assert(!signal(boundary[j]));
        }
    }
}

} // verus!
