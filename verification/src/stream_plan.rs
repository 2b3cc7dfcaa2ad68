//! What is planned for a stream: the circuits with their nodes and signals, and the resources.

use crate::sequence;
use crate::text;
use vstd::prelude::*;

verus! {

/// Where a signal lives.
#[derive(Clone, Copy, Debug, PartialEq, Eq, Structural)]
pub enum SignalStorage {
    Boundary,
    State,
    Activation,
    StateView,
}

impl DeepView for SignalStorage {
    type V = SignalStorage;

    open spec fn deep_view(&self) -> SignalStorage {
        *self
    }
}

/// Where a signal comes from.
#[derive(Debug, PartialEq, Eq)]
pub enum SignalProducer {
    BoundaryInput,
    State { state_id: String },
    Node { node_id: String },
}

#[verifier::ext_equal]
pub enum SignalProducerView {
    BoundaryInput,
    State { state_id: Seq<char> },
    Node { node_id: Seq<char> },
}

impl DeepView for SignalProducer {
    type V = SignalProducerView;

    open spec fn deep_view(&self) -> SignalProducerView {
        match self {
            SignalProducer::BoundaryInput => SignalProducerView::BoundaryInput,
            SignalProducer::State { state_id } => SignalProducerView::State { state_id: state_id.deep_view() },
            SignalProducer::Node { node_id } => SignalProducerView::Node { node_id: node_id.deep_view() },
        }
    }
}

impl View for SignalProducer {
    type V = SignalProducerView;

    open spec fn view(&self) -> SignalProducerView {
        self.deep_view()
    }
}

impl Clone for SignalProducer {
    fn clone(&self) -> (r: Self)
        ensures
            r@ == self@,
    {
        match self {
            SignalProducer::BoundaryInput => SignalProducer::BoundaryInput,
            SignalProducer::State { state_id } => SignalProducer::State { state_id: state_id.clone() },
            SignalProducer::Node { node_id } => SignalProducer::Node { node_id: node_id.clone() },
        }
    }
}

/// A port of a circuit.
#[derive(Debug, PartialEq, Eq)]
pub struct PlannedPort {
    pub port_id: String,
    pub signal_id: String,
    pub shape: Option<Vec<usize>>,
}

#[verifier::ext_equal]
pub struct PlannedPortView {
    pub port_id: Seq<char>,
    pub signal_id: Seq<char>,
    pub shape: Option<Seq<usize>>,
}

impl DeepView for PlannedPort {
    type V = PlannedPortView;

    open spec fn deep_view(&self) -> PlannedPortView {
        PlannedPortView {
            port_id: self.port_id.deep_view(),
            signal_id: self.signal_id.deep_view(),
            shape: self.shape.deep_view(),
        }
    }
}

impl View for PlannedPort {
    type V = PlannedPortView;

    open spec fn view(&self) -> PlannedPortView {
        self.deep_view()
    }
}

impl Clone for PlannedPort {
    fn clone(&self) -> (r: Self)
        ensures
            r@ == self@,
    {
        PlannedPort {
            port_id: self.port_id.clone(),
            signal_id: self.signal_id.clone(),
            shape: self.shape.clone(),
        }
    }
}

/// A signal of a circuit.
#[derive(Debug, PartialEq, Eq)]
pub struct PlannedSignal {
    pub id: String,
    pub shape: Option<Vec<usize>>,
    pub storage: SignalStorage,
    pub producer: SignalProducer,
    pub is_boundary_output: bool,
}

#[verifier::ext_equal]
pub struct PlannedSignalView {
    pub id: Seq<char>,
    pub shape: Option<Seq<usize>>,
    pub storage: SignalStorage,
    pub producer: SignalProducerView,
    pub is_boundary_output: bool,
}

impl DeepView for PlannedSignal {
    type V = PlannedSignalView;

    open spec fn deep_view(&self) -> PlannedSignalView {
        PlannedSignalView {
            id: self.id.deep_view(),
            shape: self.shape.deep_view(),
            storage: self.storage,
            producer: self.producer.deep_view(),
            is_boundary_output: self.is_boundary_output,
        }
    }
}

impl View for PlannedSignal {
    type V = PlannedSignalView;

    open spec fn view(&self) -> PlannedSignalView {
        self.deep_view()
    }
}

impl Clone for PlannedSignal {
    fn clone(&self) -> (r: Self)
        ensures
            r@ == self@,
    {
        PlannedSignal {
            id: self.id.clone(),
            shape: self.shape.clone(),
            storage: self.storage,
            producer: self.producer.clone(),
            is_boundary_output: self.is_boundary_output,
        }
    }
}

/// A node of a circuit.
#[derive(Debug, PartialEq, Eq)]
pub struct PlannedNode {
    pub index: usize,
    pub id: String,
    pub op: String,
    pub specialization: String,
    pub inputs: Vec<String>,
    pub outputs: Vec<String>,
    pub params: Vec<String>,
    pub state_reads: Vec<String>,
    pub state_writes: Vec<String>,
}

#[verifier::ext_equal]
pub struct PlannedNodeView {
    pub index: usize,
    pub id: Seq<char>,
    pub op: Seq<char>,
    pub specialization: Seq<char>,
    pub inputs: Seq<Seq<char>>,
    pub outputs: Seq<Seq<char>>,
    pub params: Seq<Seq<char>>,
    pub state_reads: Seq<Seq<char>>,
    pub state_writes: Seq<Seq<char>>,
}

impl DeepView for PlannedNode {
    type V = PlannedNodeView;

    open spec fn deep_view(&self) -> PlannedNodeView {
        PlannedNodeView {
            index: self.index,
            id: self.id.deep_view(),
            op: self.op.deep_view(),
            specialization: self.specialization.deep_view(),
            inputs: self.inputs.deep_view(),
            outputs: self.outputs.deep_view(),
            params: self.params.deep_view(),
            state_reads: self.state_reads.deep_view(),
            state_writes: self.state_writes.deep_view(),
        }
    }
}

impl View for PlannedNode {
    type V = PlannedNodeView;

    open spec fn view(&self) -> PlannedNodeView {
        self.deep_view()
    }
}

impl Clone for PlannedNode {
    fn clone(&self) -> (r: Self)
        ensures
            r@ == self@,
    {
        PlannedNode {
            index: self.index,
            id: self.id.clone(),
            op: self.op.clone(),
            specialization: self.specialization.clone(),
            inputs: self.inputs.clone(),
            outputs: self.outputs.clone(),
            params: self.params.clone(),
            state_reads: self.state_reads.clone(),
            state_writes: self.state_writes.clone(),
        }
    }
}

/// A circuit with its nodes and signals.
#[derive(Debug, PartialEq, Eq)]
pub struct CircuitActivationPlan {
    pub component_id: String,
    pub circuit_id: String,
    pub input_ports: Vec<PlannedPort>,
    pub output_ports: Vec<PlannedPort>,
    pub nodes: Vec<PlannedNode>,
    pub signals: Vec<PlannedSignal>,
}

#[verifier::ext_equal]
pub struct CircuitActivationPlanView {
    pub component_id: Seq<char>,
    pub circuit_id: Seq<char>,
    pub input_ports: Seq<PlannedPortView>,
    pub output_ports: Seq<PlannedPortView>,
    pub nodes: Seq<PlannedNodeView>,
    pub signals: Seq<PlannedSignalView>,
}

impl DeepView for CircuitActivationPlan {
    type V = CircuitActivationPlanView;

    open spec fn deep_view(&self) -> CircuitActivationPlanView {
        CircuitActivationPlanView {
            component_id: self.component_id.deep_view(),
            circuit_id: self.circuit_id.deep_view(),
            input_ports: self.input_ports.deep_view(),
            output_ports: self.output_ports.deep_view(),
            nodes: self.nodes.deep_view(),
            signals: self.signals.deep_view(),
        }
    }
}

impl View for CircuitActivationPlan {
    type V = CircuitActivationPlanView;

    open spec fn view(&self) -> CircuitActivationPlanView {
        self.deep_view()
    }
}

impl Clone for CircuitActivationPlan {
    fn clone(&self) -> (r: Self)
        ensures
            r@ == self@,
    {
        CircuitActivationPlan {
            component_id: self.component_id.clone(),
            circuit_id: self.circuit_id.clone(),
            input_ports: self.input_ports.clone(),
            output_ports: self.output_ports.clone(),
            nodes: self.nodes.clone(),
            signals: self.signals.clone(),
        }
    }
}

/// Whether a signal has this name.
pub open spec fn signal_named(id: Seq<char>) -> spec_fn(PlannedSignalView) -> bool {
    |signal: PlannedSignalView| signal.id == id
}

/// The first signal with this name.
pub open spec fn planned_signal(circuit: CircuitActivationPlanView, id: Seq<char>) -> Option<
    PlannedSignalView,
> {
    sequence::find_first(circuit.signals, signal_named(id))
}

impl CircuitActivationPlan {
    /// The first signal with this name.
    #[verifier::loop_isolation(false)]
    pub fn signal(&self, id: &str) -> (r: Option<&PlannedSignal>)
        ensures
            r.deep_view() == planned_signal(self@, id@),
    {
        let ghost all = self.signals.deep_view();
        let ghost p = signal_named(id@);
        let mut i: usize = 0;
        while i < self.signals.len()
            invariant
                i <= self.signals.len(),
                forall|j: int| 0 <= j < i ==> !p(#[trigger] all[j]),
            decreases self.signals.len() - i,
        {
            assert(all[i as int] == self.signals@[i as int]@);
            if text::same(self.signals[i].id.as_str(), id) {
                proof {
                    sequence::lemma_find_first_at(all, p, i as int);
                }
                return Some(&self.signals[i]);
            }
            i += 1;
        }
        proof {
            sequence::lemma_find_first_none(all, p);
        }
        None
    }
}

/// The circuits of a stream.
#[derive(Debug, PartialEq, Eq)]
pub struct StreamCircuitExecutionPlan {
    pub circuits: Vec<CircuitActivationPlan>,
}

#[verifier::ext_equal]
pub struct StreamCircuitExecutionPlanView {
    pub circuits: Seq<CircuitActivationPlanView>,
}

impl DeepView for StreamCircuitExecutionPlan {
    type V = StreamCircuitExecutionPlanView;

    open spec fn deep_view(&self) -> StreamCircuitExecutionPlanView {
        StreamCircuitExecutionPlanView {
            circuits: self.circuits.deep_view(),
        }
    }
}

impl View for StreamCircuitExecutionPlan {
    type V = StreamCircuitExecutionPlanView;

    open spec fn view(&self) -> StreamCircuitExecutionPlanView {
        self.deep_view()
    }
}

impl Clone for StreamCircuitExecutionPlan {
    fn clone(&self) -> (r: Self)
        ensures
            r@ == self@,
    {
        StreamCircuitExecutionPlan {
            circuits: self.circuits.clone(),
        }
    }
}

/// A parameter of a component that a tensor serves.
#[derive(Debug, PartialEq, Eq)]
pub struct PlannedParameterUse {
    pub component_id: String,
    pub param_id: String,
}

#[verifier::ext_equal]
pub struct PlannedParameterUseView {
    pub component_id: Seq<char>,
    pub param_id: Seq<char>,
}

impl DeepView for PlannedParameterUse {
    type V = PlannedParameterUseView;

    open spec fn deep_view(&self) -> PlannedParameterUseView {
        PlannedParameterUseView {
            component_id: self.component_id.deep_view(),
            param_id: self.param_id.deep_view(),
        }
    }
}

impl View for PlannedParameterUse {
    type V = PlannedParameterUseView;

    open spec fn view(&self) -> PlannedParameterUseView {
        self.deep_view()
    }
}

impl Clone for PlannedParameterUse {
    fn clone(&self) -> (r: Self)
        ensures
            r@ == self@,
    {
        PlannedParameterUse {
            component_id: self.component_id.clone(),
            param_id: self.param_id.clone(),
        }
    }
}

/// A parameter tensor with its uses.
#[derive(Debug, PartialEq, Eq)]
pub struct PlannedParameterResource {
    pub tensor: String,
    pub uses: Vec<PlannedParameterUse>,
}

#[verifier::ext_equal]
pub struct PlannedParameterResourceView {
    pub tensor: Seq<char>,
    pub uses: Seq<PlannedParameterUseView>,
}

impl DeepView for PlannedParameterResource {
    type V = PlannedParameterResourceView;

    open spec fn deep_view(&self) -> PlannedParameterResourceView {
        PlannedParameterResourceView {
            tensor: self.tensor.deep_view(),
            uses: self.uses.deep_view(),
        }
    }
}

impl View for PlannedParameterResource {
    type V = PlannedParameterResourceView;

    open spec fn view(&self) -> PlannedParameterResourceView {
        self.deep_view()
    }
}

impl Clone for PlannedParameterResource {
    fn clone(&self) -> (r: Self)
        ensures
            r@ == self@,
    {
        PlannedParameterResource {
            tensor: self.tensor.clone(),
            uses: self.uses.clone(),
        }
    }
}

/// A state that a component needs.
#[derive(Debug, PartialEq, Eq)]
pub struct PlannedStateAllocation {
    pub component_id: String,
    pub state_id: String,
    pub state_type: String,
    pub sharing: Option<String>,
    pub shape: Option<Vec<usize>>,
    pub elements_per_activation: Option<usize>,
    pub element_bytes: Option<usize>,
}

#[verifier::ext_equal]
pub struct PlannedStateAllocationView {
    pub component_id: Seq<char>,
    pub state_id: Seq<char>,
    pub state_type: Seq<char>,
    pub sharing: Option<Seq<char>>,
    pub shape: Option<Seq<usize>>,
    pub elements_per_activation: Option<usize>,
    pub element_bytes: Option<usize>,
}

impl DeepView for PlannedStateAllocation {
    type V = PlannedStateAllocationView;

    open spec fn deep_view(&self) -> PlannedStateAllocationView {
        PlannedStateAllocationView {
            component_id: self.component_id.deep_view(),
            state_id: self.state_id.deep_view(),
            state_type: self.state_type.deep_view(),
            sharing: self.sharing.deep_view(),
            shape: self.shape.deep_view(),
            elements_per_activation: self.elements_per_activation,
            element_bytes: self.element_bytes,
        }
    }
}

impl View for PlannedStateAllocation {
    type V = PlannedStateAllocationView;

    open spec fn view(&self) -> PlannedStateAllocationView {
        self.deep_view()
    }
}

impl Clone for PlannedStateAllocation {
    fn clone(&self) -> (r: Self)
        ensures
            r@ == self@,
    {
        PlannedStateAllocation {
            component_id: self.component_id.clone(),
            state_id: self.state_id.clone(),
            state_type: self.state_type.clone(),
            sharing: self.sharing.clone(),
            shape: self.shape.clone(),
            elements_per_activation: self.elements_per_activation.clone(),
            element_bytes: self.element_bytes.clone(),
        }
    }
}

/// The resources of a stream.
#[derive(Debug, PartialEq, Eq)]
pub struct StreamCircuitResourcePlan {
    pub circuit_count: usize,
    pub parameters: Vec<PlannedParameterResource>,
    pub state_allocations: Vec<PlannedStateAllocation>,
}

#[verifier::ext_equal]
pub struct StreamCircuitResourcePlanView {
    pub circuit_count: usize,
    pub parameters: Seq<PlannedParameterResourceView>,
    pub state_allocations: Seq<PlannedStateAllocationView>,
}

impl DeepView for StreamCircuitResourcePlan {
    type V = StreamCircuitResourcePlanView;

    open spec fn deep_view(&self) -> StreamCircuitResourcePlanView {
        StreamCircuitResourcePlanView {
            circuit_count: self.circuit_count,
            parameters: self.parameters.deep_view(),
            state_allocations: self.state_allocations.deep_view(),
        }
    }
}

impl View for StreamCircuitResourcePlan {
    type V = StreamCircuitResourcePlanView;

    open spec fn view(&self) -> StreamCircuitResourcePlanView {
        self.deep_view()
    }
}

impl Clone for StreamCircuitResourcePlan {
    fn clone(&self) -> (r: Self)
        ensures
            r@ == self@,
    {
        StreamCircuitResourcePlan {
            circuit_count: self.circuit_count,
            parameters: self.parameters.clone(),
            state_allocations: self.state_allocations.clone(),
        }
    }
}

/// A signal is found by its name: one of the circuit's that has it, and none where none has.
pub proof fn signals_are_found_by_name(circuit: CircuitActivationPlanView, id: Seq<char>, j: int)
    ensures
        match planned_signal(circuit, id) {
            Some(signal) => circuit.signals.contains(signal) && signal.id == id,
            None => 0 <= j < circuit.signals.len() ==> circuit.signals[j].id != id,
        },
{
    let p = signal_named(id);
    if planned_signal(circuit, id) is Some {
        sequence::lemma_find_first_some(circuit.signals, p);
    } else {
        sequence::lemma_find_none_all(circuit.signals, p);
        if 0 <= j < circuit.signals.len() {
            assert(!p(circuit.signals[j]));
        }
    }
}

} // verus!
