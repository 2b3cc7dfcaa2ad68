//! Binding circuits: which resident resource stands behind each signal, parameter and state.

use crate::arithmetic;
use crate::ordered;
use crate::ordered::OrderedMap;
use crate::ordered::OrderedSet;
use crate::resident_plan::VULKAN_STREAM_CIRCUIT_BACKEND_ID;
use crate::resident_plan::VulkanPlacedStreamCircuitResidentPlan;
use crate::resident_plan::VulkanPlacedStreamCircuitResidentPlanView;
use crate::resident_plan::VulkanResidentActivationBank;
use crate::resident_plan::VulkanResidentActivationBankView;
use crate::resident_plan::VulkanResidentActivationSlot;
use crate::resident_plan::VulkanResidentActivationSlotView;
use crate::resident_plan::VulkanResidentParameter;
use crate::resident_plan::VulkanResidentParameterView;
use crate::resident_plan::VulkanResidentStateBuffer;
use crate::resident_plan::VulkanResidentStateBufferView;
use crate::resident_plan::VulkanStreamCircuitResidentPlan;
use crate::resident_plan::VulkanStreamCircuitResidentPlanView;
use crate::sequence;
use crate::stream_plan;
use crate::stream_plan::CircuitActivationPlan;
use crate::stream_plan::CircuitActivationPlanView;
use crate::stream_plan::PlannedNode;
use crate::stream_plan::PlannedNodeView;
use crate::stream_plan::PlannedParameterResource;
use crate::stream_plan::PlannedParameterResourceView;
use crate::stream_plan::PlannedParameterUse;
use crate::stream_plan::PlannedParameterUseView;
use crate::stream_plan::PlannedPort;
use crate::stream_plan::PlannedPortView;
use crate::stream_plan::PlannedSignal;
use crate::stream_plan::PlannedSignalView;
use crate::stream_plan::PlannedStateAllocation;
use crate::stream_plan::PlannedStateAllocationView;
use crate::stream_plan::SignalProducer;
use crate::stream_plan::SignalProducerView;
use crate::stream_plan::SignalStorage;
use crate::stream_plan::StreamCircuitExecutionPlan;
use crate::stream_plan::StreamCircuitExecutionPlanView;
use crate::stream_plan::StreamCircuitResourcePlan;
use crate::stream_plan::StreamCircuitResourcePlanView;
use crate::text;
use crate::text::Message;
use vstd::prelude::*;

verus! {

/// Why a binding plan was refused.
#[derive(Debug, PartialEq, Eq)]
pub struct VulkanBindingPlanError(pub String);

impl DeepView for VulkanBindingPlanError {
    type V = Seq<char>;

    open spec fn deep_view(&self) -> Seq<char> {
        self.0.deep_view()
    }
}

impl View for VulkanBindingPlanError {
    type V = Seq<char>;

    open spec fn view(&self) -> Seq<char> {
        self.deep_view()
    }
}

impl Clone for VulkanBindingPlanError {
    fn clone(&self) -> (r: Self)
        ensures
            r@ == self@,
    {
        VulkanBindingPlanError(self.0.clone())
    }
}

impl VulkanBindingPlanError {
    /// The message.
    pub fn to_string(&self) -> (r: String)
        ensures
            r@ == self@,
    {
        self.0.clone()
    }
}

/// The resource behind a signal.
#[derive(Debug, PartialEq, Eq)]
pub enum VulkanSignalResource {
    BoundaryInput,
    BoundaryOutput,
    StateBuffer {
        component_id: String,
        state_id: String,
        static_bytes: Option<usize>,
        bytes_per_activation: Option<usize>,
    },
    StateView {
        component_id: String,
        state_id: String,
        static_bytes: Option<usize>,
        bytes_per_activation: Option<usize>,
    },
    ActivationSlot {
        component_id: String,
        slot: usize,
        bytes: Option<usize>,
        signal_bytes: Option<usize>,
    },
}

#[verifier::ext_equal]
pub enum VulkanSignalResourceView {
    BoundaryInput,
    BoundaryOutput,
    StateBuffer { component_id: Seq<char>, state_id: Seq<char>, static_bytes: Option<usize>, bytes_per_activation: Option<usize> },
    StateView { component_id: Seq<char>, state_id: Seq<char>, static_bytes: Option<usize>, bytes_per_activation: Option<usize> },
    ActivationSlot { component_id: Seq<char>, slot: usize, bytes: Option<usize>, signal_bytes: Option<usize> },
}

impl DeepView for VulkanSignalResource {
    type V = VulkanSignalResourceView;

    open spec fn deep_view(&self) -> VulkanSignalResourceView {
        match self {
            VulkanSignalResource::BoundaryInput => VulkanSignalResourceView::BoundaryInput,
            VulkanSignalResource::BoundaryOutput => VulkanSignalResourceView::BoundaryOutput,
            VulkanSignalResource::StateBuffer { component_id, state_id, static_bytes, bytes_per_activation } => VulkanSignalResourceView::StateBuffer { component_id: component_id.deep_view(), state_id: state_id.deep_view(), static_bytes: *static_bytes, bytes_per_activation: *bytes_per_activation },
            VulkanSignalResource::StateView { component_id, state_id, static_bytes, bytes_per_activation } => VulkanSignalResourceView::StateView { component_id: component_id.deep_view(), state_id: state_id.deep_view(), static_bytes: *static_bytes, bytes_per_activation: *bytes_per_activation },
            VulkanSignalResource::ActivationSlot { component_id, slot, bytes, signal_bytes } => VulkanSignalResourceView::ActivationSlot { component_id: component_id.deep_view(), slot: *slot, bytes: *bytes, signal_bytes: *signal_bytes },
        }
    }
}

impl View for VulkanSignalResource {
    type V = VulkanSignalResourceView;

    open spec fn view(&self) -> VulkanSignalResourceView {
        self.deep_view()
    }
}

impl Clone for VulkanSignalResource {
    fn clone(&self) -> (r: Self)
        ensures
            r@ == self@,
    {
        match self {
            VulkanSignalResource::BoundaryInput => VulkanSignalResource::BoundaryInput,
            VulkanSignalResource::BoundaryOutput => VulkanSignalResource::BoundaryOutput,
            VulkanSignalResource::StateBuffer { component_id, state_id, static_bytes, bytes_per_activation } => VulkanSignalResource::StateBuffer { component_id: component_id.clone(), state_id: state_id.clone(), static_bytes: static_bytes.clone(), bytes_per_activation: bytes_per_activation.clone() },
            VulkanSignalResource::StateView { component_id, state_id, static_bytes, bytes_per_activation } => VulkanSignalResource::StateView { component_id: component_id.clone(), state_id: state_id.clone(), static_bytes: static_bytes.clone(), bytes_per_activation: bytes_per_activation.clone() },
            VulkanSignalResource::ActivationSlot { component_id, slot, bytes, signal_bytes } => VulkanSignalResource::ActivationSlot { component_id: component_id.clone(), slot: *slot, bytes: bytes.clone(), signal_bytes: signal_bytes.clone() },
        }
    }
}

/// A signal with its resource.
#[derive(Debug, PartialEq, Eq)]
pub struct VulkanSignalBinding {
    pub signal_id: String,
    pub resource: VulkanSignalResource,
}

#[verifier::ext_equal]
pub struct VulkanSignalBindingView {
    pub signal_id: Seq<char>,
    pub resource: VulkanSignalResourceView,
}

impl DeepView for VulkanSignalBinding {
    type V = VulkanSignalBindingView;

    open spec fn deep_view(&self) -> VulkanSignalBindingView {
        VulkanSignalBindingView {
            signal_id: self.signal_id.deep_view(),
            resource: self.resource.deep_view(),
        }
    }
}

impl View for VulkanSignalBinding {
    type V = VulkanSignalBindingView;

    open spec fn view(&self) -> VulkanSignalBindingView {
        self.deep_view()
    }
}

impl Clone for VulkanSignalBinding {
    fn clone(&self) -> (r: Self)
        ensures
            r@ == self@,
    {
        VulkanSignalBinding {
            signal_id: self.signal_id.clone(),
            resource: self.resource.clone(),
        }
    }
}

/// A parameter with its tensor.
#[derive(Debug, PartialEq, Eq)]
pub struct VulkanParameterBinding {
    pub param_id: String,
    pub tensor: String,
    pub byte_count: Option<usize>,
    pub shape: Option<Vec<usize>>,
}

#[verifier::ext_equal]
pub struct VulkanParameterBindingView {
    pub param_id: Seq<char>,
    pub tensor: Seq<char>,
    pub byte_count: Option<usize>,
    pub shape: Option<Seq<usize>>,
}

impl DeepView for VulkanParameterBinding {
    type V = VulkanParameterBindingView;

    open spec fn deep_view(&self) -> VulkanParameterBindingView {
        VulkanParameterBindingView {
            param_id: self.param_id.deep_view(),
            tensor: self.tensor.deep_view(),
            byte_count: self.byte_count,
            shape: self.shape.deep_view(),
        }
    }
}

impl View for VulkanParameterBinding {
    type V = VulkanParameterBindingView;

    open spec fn view(&self) -> VulkanParameterBindingView {
        self.deep_view()
    }
}

impl Clone for VulkanParameterBinding {
    fn clone(&self) -> (r: Self)
        ensures
            r@ == self@,
    {
        VulkanParameterBinding {
            param_id: self.param_id.clone(),
            tensor: self.tensor.clone(),
            byte_count: self.byte_count.clone(),
            shape: self.shape.clone(),
        }
    }
}

/// A state with its size.
#[derive(Debug, PartialEq, Eq)]
pub struct VulkanStateBinding {
    pub component_id: String,
    pub state_id: String,
    pub state_type: String,
    pub static_bytes: Option<usize>,
    pub bytes_per_activation: Option<usize>,
}

#[verifier::ext_equal]
pub struct VulkanStateBindingView {
    pub component_id: Seq<char>,
    pub state_id: Seq<char>,
    pub state_type: Seq<char>,
    pub static_bytes: Option<usize>,
    pub bytes_per_activation: Option<usize>,
}

impl DeepView for VulkanStateBinding {
    type V = VulkanStateBindingView;

    open spec fn deep_view(&self) -> VulkanStateBindingView {
        VulkanStateBindingView {
            component_id: self.component_id.deep_view(),
            state_id: self.state_id.deep_view(),
            state_type: self.state_type.deep_view(),
            static_bytes: self.static_bytes,
            bytes_per_activation: self.bytes_per_activation,
        }
    }
}

impl View for VulkanStateBinding {
    type V = VulkanStateBindingView;

    open spec fn view(&self) -> VulkanStateBindingView {
        self.deep_view()
    }
}

impl Clone for VulkanStateBinding {
    fn clone(&self) -> (r: Self)
        ensures
            r@ == self@,
    {
        VulkanStateBinding {
            component_id: self.component_id.clone(),
            state_id: self.state_id.clone(),
            state_type: self.state_type.clone(),
            static_bytes: self.static_bytes.clone(),
            bytes_per_activation: self.bytes_per_activation.clone(),
        }
    }
}

/// A node with everything that it is bound to.
#[derive(Debug, PartialEq, Eq)]
pub struct VulkanNodeBinding {
    pub node_index: usize,
    pub node_id: String,
    pub op: String,
    pub specialization: String,
    pub inputs: Vec<VulkanSignalBinding>,
    pub outputs: Vec<VulkanSignalBinding>,
    pub parameters: Vec<VulkanParameterBinding>,
    pub state_reads: Vec<VulkanStateBinding>,
    pub state_writes: Vec<VulkanStateBinding>,
}

#[verifier::ext_equal]
pub struct VulkanNodeBindingView {
    pub node_index: usize,
    pub node_id: Seq<char>,
    pub op: Seq<char>,
    pub specialization: Seq<char>,
    pub inputs: Seq<VulkanSignalBindingView>,
    pub outputs: Seq<VulkanSignalBindingView>,
    pub parameters: Seq<VulkanParameterBindingView>,
    pub state_reads: Seq<VulkanStateBindingView>,
    pub state_writes: Seq<VulkanStateBindingView>,
}

impl DeepView for VulkanNodeBinding {
    type V = VulkanNodeBindingView;

    open spec fn deep_view(&self) -> VulkanNodeBindingView {
        VulkanNodeBindingView {
            node_index: self.node_index,
            node_id: self.node_id.deep_view(),
            op: self.op.deep_view(),
            specialization: self.specialization.deep_view(),
            inputs: self.inputs.deep_view(),
            outputs: self.outputs.deep_view(),
            parameters: self.parameters.deep_view(),
            state_reads: self.state_reads.deep_view(),
            state_writes: self.state_writes.deep_view(),
        }
    }
}

impl View for VulkanNodeBinding {
    type V = VulkanNodeBindingView;

    open spec fn view(&self) -> VulkanNodeBindingView {
        self.deep_view()
    }
}

impl Clone for VulkanNodeBinding {
    fn clone(&self) -> (r: Self)
        ensures
            r@ == self@,
    {
        VulkanNodeBinding {
            node_index: self.node_index,
            node_id: self.node_id.clone(),
            op: self.op.clone(),
            specialization: self.specialization.clone(),
            inputs: self.inputs.clone(),
            outputs: self.outputs.clone(),
            parameters: self.parameters.clone(),
            state_reads: self.state_reads.clone(),
            state_writes: self.state_writes.clone(),
        }
    }
}

/// A circuit with its bound nodes.
#[derive(Debug, PartialEq, Eq)]
pub struct VulkanCircuitBindingPlan {
    pub component_id: String,
    pub circuit_id: String,
    pub input_ports: Vec<PlannedPort>,
    pub output_ports: Vec<PlannedPort>,
    pub nodes: Vec<VulkanNodeBinding>,
}

#[verifier::ext_equal]
pub struct VulkanCircuitBindingPlanView {
    pub component_id: Seq<char>,
    pub circuit_id: Seq<char>,
    pub input_ports: Seq<PlannedPortView>,
    pub output_ports: Seq<PlannedPortView>,
    pub nodes: Seq<VulkanNodeBindingView>,
}

impl DeepView for VulkanCircuitBindingPlan {
    type V = VulkanCircuitBindingPlanView;

    open spec fn deep_view(&self) -> VulkanCircuitBindingPlanView {
        VulkanCircuitBindingPlanView {
            component_id: self.component_id.deep_view(),
            circuit_id: self.circuit_id.deep_view(),
            input_ports: self.input_ports.deep_view(),
            output_ports: self.output_ports.deep_view(),
            nodes: self.nodes.deep_view(),
        }
    }
}

impl View for VulkanCircuitBindingPlan {
    type V = VulkanCircuitBindingPlanView;

    open spec fn view(&self) -> VulkanCircuitBindingPlanView {
        self.deep_view()
    }
}

impl Clone for VulkanCircuitBindingPlan {
    fn clone(&self) -> (r: Self)
        ensures
            r@ == self@,
    {
        VulkanCircuitBindingPlan {
            component_id: self.component_id.clone(),
            circuit_id: self.circuit_id.clone(),
            input_ports: self.input_ports.clone(),
            output_ports: self.output_ports.clone(),
            nodes: self.nodes.clone(),
        }
    }
}

/// The bound circuits of a stream.
#[derive(Debug, PartialEq, Eq)]
pub struct VulkanStreamCircuitBindingPlan {
    pub backend_id: String,
    pub circuits: Vec<VulkanCircuitBindingPlan>,
}

#[verifier::ext_equal]
pub struct VulkanStreamCircuitBindingPlanView {
    pub backend_id: Seq<char>,
    pub circuits: Seq<VulkanCircuitBindingPlanView>,
}

impl DeepView for VulkanStreamCircuitBindingPlan {
    type V = VulkanStreamCircuitBindingPlanView;

    open spec fn deep_view(&self) -> VulkanStreamCircuitBindingPlanView {
        VulkanStreamCircuitBindingPlanView {
            backend_id: self.backend_id.deep_view(),
            circuits: self.circuits.deep_view(),
        }
    }
}

impl View for VulkanStreamCircuitBindingPlan {
    type V = VulkanStreamCircuitBindingPlanView;

    open spec fn view(&self) -> VulkanStreamCircuitBindingPlanView {
        self.deep_view()
    }
}

impl Clone for VulkanStreamCircuitBindingPlan {
    fn clone(&self) -> (r: Self)
        ensures
            r@ == self@,
    {
        VulkanStreamCircuitBindingPlan {
            backend_id: self.backend_id.clone(),
            circuits: self.circuits.clone(),
        }
    }
}

/// Component and name: what a parameter, a state or a signal is found by.
pub type Key = (String, String);

/// The value of a key.
pub type KeyView = (Seq<char>, Seq<char>);

/// The slot of a signal: its number, its bytes and its elements.
pub type Slot = (usize, Option<usize>, Option<usize>);

/// A key as a message names it.
pub open spec fn key_text(key: KeyView) -> Seq<char> {
    key.0 + "."@ + key.1
}

fn write_key(key: &Key) -> (r: String)
    ensures
        r@ == key_text(key.deep_view()),
{
    Message::new(key.0.as_str()).text(".").text(key.1.as_str()).done()
}

fn copy_key(key: &Key) -> (r: Key)
    ensures
        r.deep_view() == key.deep_view(),
{
    (key.0.clone(), key.1.clone())
}

/// Whether a component is hosted; without a list every component is.
pub open spec fn hosts(hosted: Option<Set<Seq<char>>>, component_id: Seq<char>) -> bool {
    match hosted {
        Some(components) => components.contains(component_id),
        None => true,
    }
}

fn is_hosted(hosted: Option<&OrderedSet<String>>, component_id: &String) -> (r: bool)
    ensures
        r == hosts(hosted.deep_view(), component_id@),
{
    match hosted {
        Some(components) => components.contains(component_id),
        None => true,
    }
}

// ---------------------------------------------------------------------------
// Parameters
// ---------------------------------------------------------------------------

/// Parameter bindings by their keys.
pub type ParameterMap = Map<KeyView, VulkanParameterBindingView>;

/// Whether a use is of a hosted component.
pub open spec fn hosted_use(hosted: Option<Set<Seq<char>>>) -> spec_fn(
    PlannedParameterUseView,
) -> bool {
    |use_ref: PlannedParameterUseView| hosts(hosted, use_ref.component_id)
}

/// Whether a resident parameter is a tensor.
pub open spec fn of_tensor(tensor: Seq<char>) -> spec_fn(VulkanResidentParameterView) -> bool {
    |parameter: VulkanResidentParameterView| parameter.tensor == tensor
}

/// Binds one use of a tensor, unless its component is not hosted.
pub open spec fn use_step(
    hosted: Option<Set<Seq<char>>>,
    tensor: Seq<char>,
    resident: VulkanResidentParameterView,
) -> spec_fn(ParameterMap, PlannedParameterUseView) -> Result<ParameterMap, Seq<char>> {
    |done: ParameterMap, use_ref: PlannedParameterUseView|
        {
            let key = (use_ref.component_id, use_ref.param_id);
            if !hosts(hosted, use_ref.component_id) {
                Ok(done)
            } else if done.contains_key(key) {
                Err("duplicate parameter binding for "@ + key_text(key))
            } else {
                Ok(
                    done.insert(
                        key,
                        VulkanParameterBindingView {
                            param_id: use_ref.param_id,
                            tensor,
                            byte_count: resident.byte_count,
                            shape: resident.shape,
                        },
                    ),
                )
            }
        }
}

/// Binds the hosted uses of one tensor.
#[verifier::opaque]
pub open spec fn parameter_bound(
    residents: Seq<VulkanResidentParameterView>,
    hosted: Option<Set<Seq<char>>>,
    done: ParameterMap,
    parameter: PlannedParameterResourceView,
) -> Result<ParameterMap, Seq<char>> {
    if !sequence::any(parameter.uses, hosted_use(hosted)) {
        Ok(done)
    } else {
        match sequence::find_last(residents, of_tensor(parameter.tensor)) {
            None => Err(
                "resident plan has no permanent parameter for tensor "@ + text::quoted(
                    parameter.tensor,
                ),
            ),
            Some(resident) => sequence::try_fold(
                parameter.uses,
                done,
                use_step(hosted, parameter.tensor, resident),
            ),
        }
    }
}

/// One step over the tensors.
pub open spec fn parameter_step(
    residents: Seq<VulkanResidentParameterView>,
    hosted: Option<Set<Seq<char>>>,
) -> spec_fn(ParameterMap, PlannedParameterResourceView) -> Result<ParameterMap, Seq<char>> {
    |done: ParameterMap, parameter: PlannedParameterResourceView|
        parameter_bound(residents, hosted, done, parameter)
}

/// The bindings of all hosted parameters.
pub open spec fn parameter_index(
    resources: StreamCircuitResourcePlanView,
    resident: VulkanStreamCircuitResidentPlanView,
    hosted: Option<Set<Seq<char>>>,
) -> Result<ParameterMap, Seq<char>> {
    sequence::try_fold(
        resources.parameters,
        Map::<KeyView, VulkanParameterBindingView>::empty(),
        parameter_step(resident.permanent_parameters, hosted),
    )
}

#[verifier::loop_isolation(false)]
fn find_resident<'a>(residents: &'a Vec<VulkanResidentParameter>, tensor: &String) -> (r: Option<
    &'a VulkanResidentParameter,
>)
    ensures
        r.deep_view() == sequence::find_last(residents.deep_view(), of_tensor(tensor@)),
{
    let ghost all = residents.deep_view();
    let ghost p = of_tensor(tensor@);
    let mut i: usize = residents.len();
    while i > 0
        invariant
            i <= residents.len(),
            forall|j: int| i <= j < all.len() ==> !p(#[trigger] all[j]),
        decreases i,
    {
        i -= 1;
        assert(all[i as int] == residents@[i as int]@);
        if residents[i].tensor == *tensor {
            proof {
                sequence::lemma_find_last_at(all, p, i as int);
            }
            return Some(&residents[i]);
        }
    }
    proof {
        sequence::lemma_find_last_none(all, p);
    }
    None
}

#[verifier::loop_isolation(false)]
fn has_hosted_use(uses: &Vec<PlannedParameterUse>, hosted: Option<&OrderedSet<String>>) -> (r: bool)
    ensures
        r == sequence::any(uses.deep_view(), hosted_use(hosted.deep_view())),
{
    let ghost all = uses.deep_view();
    let ghost p = hosted_use(hosted.deep_view());
    let mut i: usize = 0;
    while i < uses.len()
        invariant
            i <= uses.len(),
            forall|j: int| 0 <= j < i ==> !p(#[trigger] all[j]),
        decreases uses.len() - i,
    {
        assert(all[i as int] == uses@[i as int]@);
        if is_hosted(hosted, &uses[i].component_id) {
            assert(p(all[i as int]));
            return true;
        }
        i += 1;
    }
    false
}

#[verifier::loop_isolation(false)]
fn bind_uses(
    done: OrderedMap<Key, VulkanParameterBinding>,
    parameter: &PlannedParameterResource,
    resident: &VulkanResidentParameter,
    hosted: Option<&OrderedSet<String>>,
) -> (r: Result<OrderedMap<Key, VulkanParameterBinding>, VulkanBindingPlanError>)
    requires
        done.sorted(),
    ensures
        sequence::outcome(r) == sequence::try_fold(
            parameter@.uses,
            done@,
            use_step(hosted.deep_view(), parameter@.tensor, resident@),
        ),
        r is Ok ==> r->Ok_0.sorted(),
{
    let ghost all = parameter@.uses;
    let ghost init = done@;
    let ghost step = use_step(hosted.deep_view(), parameter@.tensor, resident@);
    let mut bindings: OrderedMap<Key, VulkanParameterBinding> = done;
    let mut i: usize = 0;
    assert(all.take(0) =~= Seq::empty());
    while i < parameter.uses.len()
        invariant
            i <= parameter.uses.len(),
            bindings.sorted(),
            sequence::try_fold(all.take(i as int), init, step) == Ok::<ParameterMap, Seq<char>>(
                bindings@,
            ),
        decreases parameter.uses.len() - i,
    {
        let use_ref: &PlannedParameterUse = &parameter.uses[i];
        proof {
            sequence::lemma_try_fold_step(all, init, step, i as int);
            assert(all[i as int] == use_ref@);
        }
        if is_hosted(hosted, &use_ref.component_id) {
            let key: Key = (use_ref.component_id.clone(), use_ref.param_id.clone());
            if bindings.contains_key(&key) {
                proof {
                    sequence::lemma_try_fold_error(all, init, step, i + 1);
                }
                return Err(
                    VulkanBindingPlanError(
                        Message::new("duplicate parameter binding for ").text(
                            write_key(&key).as_str(),
                        ).done(),
                    ),
                );
            }
            bindings.insert(
                key,
                VulkanParameterBinding {
                    param_id: use_ref.param_id.clone(),
                    tensor: parameter.tensor.clone(),
                    byte_count: resident.byte_count,
                    shape: resident.shape.clone(),
                },
            );
        }
        i += 1;
    }
    assert(all.take(all.len() as int) =~= all);
    Ok(bindings)
}

/// The bindings of all hosted parameters.
#[verifier::loop_isolation(false)]
pub fn parameter_binding_index(
    resource_plan: &StreamCircuitResourcePlan,
    resident_plan: &VulkanStreamCircuitResidentPlan,
    hosted_components: Option<&OrderedSet<String>>,
) -> (r: Result<OrderedMap<Key, VulkanParameterBinding>, VulkanBindingPlanError>)
    ensures
        sequence::outcome(r) == parameter_index(
            resource_plan@,
            resident_plan@,
            hosted_components.deep_view(),
        ),
        r is Ok ==> r->Ok_0.sorted(),
{
    let ghost all = resource_plan@.parameters;
    let ghost init = Map::<KeyView, VulkanParameterBindingView>::empty();
    let ghost step = parameter_step(
        resident_plan@.permanent_parameters,
        hosted_components.deep_view(),
    );
    let mut bindings: OrderedMap<Key, VulkanParameterBinding> = OrderedMap::new();
    let mut i: usize = 0;
    assert(all.take(0) =~= Seq::empty());
    while i < resource_plan.parameters.len()
        invariant
            i <= resource_plan.parameters.len(),
            bindings.sorted(),
            sequence::try_fold(all.take(i as int), init, step) == Ok::<ParameterMap, Seq<char>>(
                bindings@,
            ),
        decreases resource_plan.parameters.len() - i,
    {
        let parameter: &PlannedParameterResource = &resource_plan.parameters[i];
        proof {
            reveal(parameter_bound);
            sequence::lemma_try_fold_step(all, init, step, i as int);
            assert(all[i as int] == parameter@);
            if sequence::try_fold(all.take(i + 1), init, step) is Err {
                sequence::lemma_try_fold_error(all, init, step, i + 1);
            }
        }
        if has_hosted_use(&parameter.uses, hosted_components) {
            let resident: &VulkanResidentParameter = match find_resident(
                &resident_plan.permanent_parameters,
                &parameter.tensor,
            ) {
                Some(resident) => resident,
                None => return Err(
                    VulkanBindingPlanError(
                        Message::new("resident plan has no permanent parameter for tensor ").quoted(
                            parameter.tensor.as_str(),
                        ).done(),
                    ),
                ),
            };
            bindings = match bind_uses(bindings, parameter, resident, hosted_components) {
                Ok(bindings) => bindings,
                Err(e) => return Err(e),
            };
        }
        i += 1;
    }
    assert(all.take(all.len() as int) =~= all);
    Ok(bindings)
}

// ---------------------------------------------------------------------------
// States
// ---------------------------------------------------------------------------

/// State bindings by their keys.
pub type StateMap = Map<KeyView, VulkanStateBindingView>;

/// What a shared state points to.
pub type AliasMap = Map<KeyView, KeyView>;

/// The binding of a resident state.
pub open spec fn resident_state_binding(
    state: VulkanResidentStateBufferView,
) -> VulkanStateBindingView {
    VulkanStateBindingView {
        component_id: state.component_id,
        state_id: state.state_id,
        state_type: state.state_type,
        static_bytes: state.static_bytes,
        bytes_per_activation: state.bytes_per_activation,
    }
}

/// Binds one resident state.
pub open spec fn state_step() -> spec_fn(StateMap, VulkanResidentStateBufferView) -> Result<
    StateMap,
    Seq<char>,
> {
    |done: StateMap, state: VulkanResidentStateBufferView|
        {
            let key = (state.component_id, state.state_id);
            if done.contains_key(key) {
                Err("duplicate state binding for "@ + key_text(key))
            } else {
                Ok(done.insert(key, resident_state_binding(state)))
            }
        }
}

/// The source that a text of the form `component.state` names.
pub open spec fn state_source(source: Seq<char>) -> Result<KeyView, Seq<char>> {
    match text::split_at_last(source, '.') {
        None => Err(
            "shared state source "@ + text::quoted(source) + " must be PEDAL_ID.STATE_ID"@,
        ),
        Some((component_id, state_id)) => if component_id.len() == 0 || state_id.len() == 0 {
            Err(
                "shared state source "@ + text::quoted(source)
                    + " must contain non-empty pedal and state ids"@,
            )
        } else {
            Ok((component_id, state_id))
        },
    }
}

/// The source that a sharing rule names, if it names one.
pub open spec fn shared_source(sharing: Option<Seq<char>>) -> Result<Option<KeyView>, Seq<char>> {
    match sharing {
        None => Ok(None),
        Some(rule) => match text::after_prefix(rule, "shared_from:"@) {
            None => Ok(None),
            Some(source) => match state_source(source) {
                Err(e) => Err(e),
                Ok(key) => Ok(Some(key)),
            },
        },
    }
}

/// Records what one planned state points to.
pub open spec fn alias_step(hosted: Set<Seq<char>>) -> spec_fn(
    AliasMap,
    PlannedStateAllocationView,
) -> Result<AliasMap, Seq<char>> {
    |done: AliasMap, state: PlannedStateAllocationView|
        if !hosted.contains(state.component_id) {
            Ok(done)
        } else {
            match shared_source(state.sharing) {
                Err(e) => Err(e),
                Ok(None) => Ok(done),
                Ok(Some(source)) => Ok(done.insert((state.component_id, state.state_id), source)),
            }
        }
}

/// The components that have activation banks.
pub open spec fn bank_components(banks: Seq<VulkanResidentActivationBankView>) -> Set<Seq<char>> {
    Seq::new(banks.len(), |i: int| banks[i].component_id).to_set()
}

/// Follows aliases until a state that is none.
pub open spec fn resolve_alias(
    aliases: AliasMap,
    source: KeyView,
    visited: Set<KeyView>,
) -> Result<KeyView, Seq<char>>
    decreases aliases.dom().difference(visited).len(),
    when aliases.dom().finite()
{
    if visited.contains(source) {
        Err("shared state alias cycle reaches "@ + key_text(source))
    } else if aliases.contains_key(source) {
        proof {
            lemma_visit_shrinks(aliases, source, visited);
        }
        resolve_alias(aliases, aliases[source], visited.insert(source))
    } else {
        Ok(source)
    }
}

/// Visiting an alias leaves fewer to visit.
pub proof fn lemma_visit_shrinks(aliases: AliasMap, source: KeyView, visited: Set<KeyView>)
    requires
        aliases.dom().finite(),
        aliases.contains_key(source),
        !visited.contains(source),
    ensures
        aliases.dom().difference(visited.insert(source)).len() < aliases.dom().difference(
            visited,
        ).len(),
{
    let before = aliases.dom().difference(visited);
    assert(aliases.dom().difference(visited.insert(source)) =~= before.remove(source));
    assert(before.contains(source));
    vstd::set_lib::lemma_set_subset_finite(aliases.dom(), before);
}

/// Whether a planned state has this key.
pub open spec fn state_keyed(key: KeyView) -> spec_fn(PlannedStateAllocationView) -> bool {
    |state: PlannedStateAllocationView| state.component_id == key.0 && state.state_id == key.1
}

/// Whether two states can share memory.
pub open spec fn compatible_states(
    a: PlannedStateAllocationView,
    b: PlannedStateAllocationView,
) -> bool {
    &&& a.state_type == b.state_type
    &&& a.shape == b.shape
    &&& a.elements_per_activation == b.elements_per_activation
    &&& a.element_bytes == b.element_bytes
}

/// Binds one shared state to what it points to in the end.
#[verifier::opaque]
pub open spec fn alias_bound(
    aliases: AliasMap,
    planned: Seq<PlannedStateAllocationView>,
    done: StateMap,
    alias: (KeyView, KeyView),
) -> Result<StateMap, Seq<char>> {
    let target = alias.0;
    match resolve_alias(aliases, alias.1, set![target]) {
        Err(e) => Err(e),
        Ok(source) => match sequence::find_last(planned, state_keyed(target)) {
            None => Err("shared state target "@ + key_text(target) + " is not planned"@),
            Some(target_state) => match sequence::find_last(planned, state_keyed(source)) {
                None => Err(
                    "shared state "@ + key_text(target) + " references unplanned source "@
                        + key_text(source),
                ),
                Some(source_state) => if !done.contains_key(source) {
                    Err(
                        "shared state "@ + key_text(target) + " references non-resident source "@
                            + key_text(source),
                    )
                } else if !compatible_states(target_state, source_state) {
                    Err(
                        "shared state "@ + key_text(target) + " is incompatible with source "@
                            + key_text(source),
                    )
                } else {
                    Ok(done.insert(target, done[source]))
                },
            },
        },
    }
}

/// One step over the aliases.
pub open spec fn alias_bind_step(
    aliases: AliasMap,
    planned: Seq<PlannedStateAllocationView>,
) -> spec_fn(StateMap, (KeyView, KeyView)) -> Result<StateMap, Seq<char>> {
    |done: StateMap, alias: (KeyView, KeyView)| alias_bound(aliases, planned, done, alias)
}

/// The bindings of all resident states and of the states that share them.
pub open spec fn state_index(
    resources: StreamCircuitResourcePlanView,
    resident: VulkanStreamCircuitResidentPlanView,
) -> Result<StateMap, Seq<char>> {
    match sequence::try_fold(
        resident.stream_state_buffers,
        Map::<KeyView, VulkanStateBindingView>::empty(),
        state_step(),
    ) {
        Err(e) => Err(e),
        Ok(own) => match sequence::try_fold(
            resources.state_allocations,
            Map::<KeyView, KeyView>::empty(),
            alias_step(bank_components(resident.activation_banks)),
        ) {
            Err(e) => Err(e),
            Ok(aliases) => sequence::try_fold(
                ordered::sorted_entries::<Key, KeyView>(aliases),
                own,
                alias_bind_step(aliases, resources.state_allocations),
            ),
        },
    }
}

#[verifier::loop_isolation(false)]
fn bind_resident_states(states: &Vec<VulkanResidentStateBuffer>) -> (r: Result<
    OrderedMap<Key, VulkanStateBinding>,
    VulkanBindingPlanError,
>)
    ensures
        sequence::outcome(r) == sequence::try_fold(
            states.deep_view(),
            Map::<KeyView, VulkanStateBindingView>::empty(),
            state_step(),
        ),
        r is Ok ==> r->Ok_0.sorted(),
{
    let ghost all = states.deep_view();
    let ghost init = Map::<KeyView, VulkanStateBindingView>::empty();
    let ghost step = state_step();
    let mut bindings: OrderedMap<Key, VulkanStateBinding> = OrderedMap::new();
    let mut i: usize = 0;
    assert(all.take(0) =~= Seq::empty());
    while i < states.len()
        invariant
            i <= states.len(),
            bindings.sorted(),
            sequence::try_fold(all.take(i as int), init, step) == Ok::<StateMap, Seq<char>>(
                bindings@,
            ),
        decreases states.len() - i,
    {
        let state: &VulkanResidentStateBuffer = &states[i];
        proof {
            sequence::lemma_try_fold_step(all, init, step, i as int);
            assert(all[i as int] == state@);
        }
        let key: Key = (state.component_id.clone(), state.state_id.clone());
        if bindings.contains_key(&key) {
            proof {
                sequence::lemma_try_fold_error(all, init, step, i + 1);
            }
            return Err(
                VulkanBindingPlanError(
                    Message::new("duplicate state binding for ").text(
                        write_key(&key).as_str(),
                    ).done(),
                ),
            );
        }
        bindings.insert(
            key,
            VulkanStateBinding {
                component_id: state.component_id.clone(),
                state_id: state.state_id.clone(),
                state_type: state.state_type.clone(),
                static_bytes: state.static_bytes,
                bytes_per_activation: state.bytes_per_activation,
            },
        );
        i += 1;
    }
    assert(all.take(all.len() as int) =~= all);
    Ok(bindings)
}

/// The source that a text of the form `component.state` names.
pub fn parse_state_source(source: &str) -> (r: Result<Key, VulkanBindingPlanError>)
    ensures
        sequence::outcome(r) == state_source(source@),
{
    let (component_id, state_id): (&str, &str) = match text::rsplit_once(source, '.') {
        Some(parts) => parts,
        None => return Err(
            VulkanBindingPlanError(
                Message::new("shared state source ").quoted(source).text(
                    " must be PEDAL_ID.STATE_ID",
                ).done(),
            ),
        ),
    };
    if text::characters(component_id).len() == 0 || text::characters(state_id).len() == 0 {
        return Err(
            VulkanBindingPlanError(
                Message::new("shared state source ").quoted(source).text(
                    " must contain non-empty pedal and state ids",
                ).done(),
            ),
        );
    }
    Ok((component_id.to_owned(), state_id.to_owned()))
}

/// The source that a sharing rule names, if it names one.
pub fn shared_state_source(sharing: &str) -> (r: Result<Option<Key>, VulkanBindingPlanError>)
    ensures
        sequence::outcome(r) == shared_source(Some(sharing@)),
{
    match text::strip_prefix(sharing, "shared_from:") {
        None => Ok(None),
        Some(source) => match parse_state_source(source) {
            Ok(key) => Ok(Some(key)),
            Err(e) => Err(e),
        },
    }
}

#[verifier::loop_isolation(false)]
fn list_bank_components(banks: &Vec<VulkanResidentActivationBank>) -> (r: OrderedSet<String>)
    ensures
        r@ == bank_components(banks.deep_view()),
{
    let ghost all = banks.deep_view();
    let ghost goal = Seq::new(all.len(), |i: int| all[i].component_id);
    let mut names: Vec<String> = Vec::new();
    let mut i: usize = 0;
    while i < banks.len()
        invariant
            i <= banks.len(),
            names@.len() == i,
            forall|j: int| 0 <= j < i ==> (#[trigger] names.deep_view()[j]) == goal[j],
        decreases banks.len() - i,
    {
        let ghost before = names.deep_view();
        assert(all[i as int] == banks@[i as int]@);
        names.push(banks[i].component_id.clone());
        assert(names.deep_view() =~= before.push(goal[i as int]));
        i += 1;
    }
    assert(names.deep_view() =~= goal);
    ordered::distinct_texts(&names)
}

#[verifier::loop_isolation(false)]
fn collect_aliases(states: &Vec<PlannedStateAllocation>, hosted: &OrderedSet<String>) -> (r: Result<
    OrderedMap<Key, Key>,
    VulkanBindingPlanError,
>)
    ensures
        sequence::outcome(r) == sequence::try_fold(
            states.deep_view(),
            Map::<KeyView, KeyView>::empty(),
            alias_step(hosted@),
        ),
        r is Ok ==> r->Ok_0.sorted() && r->Ok_0@.dom().finite(),
{
    let ghost all = states.deep_view();
    let ghost init = Map::<KeyView, KeyView>::empty();
    let ghost step = alias_step(hosted@);
    let mut aliases: OrderedMap<Key, Key> = OrderedMap::new();
    let mut i: usize = 0;
    assert(all.take(0) =~= Seq::empty());
    while i < states.len()
        invariant
            i <= states.len(),
            aliases.sorted(),
            aliases@.dom().finite(),
            sequence::try_fold(all.take(i as int), init, step) == Ok::<AliasMap, Seq<char>>(
                aliases@,
            ),
        decreases states.len() - i,
    {
        let state: &PlannedStateAllocation = &states[i];
        proof {
            sequence::lemma_try_fold_step(all, init, step, i as int);
            assert(all[i as int] == state@);
        }
        if hosted.contains(&state.component_id) {
            if let Some(sharing) = &state.sharing {
                match shared_state_source(sharing.as_str()) {
                    Ok(Some(source)) => {
                        aliases.insert(
                            (state.component_id.clone(), state.state_id.clone()),
                            source,
                        );
                    },
                    Ok(None) => {},
                    Err(e) => {
                        proof {
                            sequence::lemma_try_fold_error(all, init, step, i + 1);
                        }
                        return Err(e);
                    },
                }
            }
        }
        i += 1;
    }
    assert(all.take(all.len() as int) =~= all);
    Ok(aliases)
}

#[verifier::loop_isolation(false)]
fn follow_alias(aliases: &OrderedMap<Key, Key>, target: &Key, initial: &Key) -> (r: Result<
    Key,
    VulkanBindingPlanError,
>)
    requires
        aliases@.dom().finite(),
    ensures
        sequence::outcome(r) == resolve_alias(
            aliases@,
            initial.deep_view(),
            set![target.deep_view()],
        ),
{
    let ghost map = aliases@;
    let ghost goal = resolve_alias(map, initial.deep_view(), set![target.deep_view()]);
    let mut source: Key = copy_key(initial);
    let mut visited: OrderedSet<Key> = OrderedSet::new();
    visited.insert(copy_key(target));
    assert(visited@ =~= set![target.deep_view()]);
    loop
        invariant
            resolve_alias(map, source.deep_view(), visited@) == goal,
        decreases map.dom().difference(visited@).len(),
    {
        if visited.contains(&source) {
            return Err(
                VulkanBindingPlanError(
                    Message::new("shared state alias cycle reaches ").text(
                        write_key(&source).as_str(),
                    ).done(),
                ),
            );
        }
        match aliases.get(&source) {
            Some(next) => {
                proof {
                    lemma_visit_shrinks(map, source.deep_view(), visited@);
                }
                let following: Key = copy_key(next);
                visited.insert(source);
                source = following;
            },
            None => return Ok(source),
        }
    }
}

#[verifier::loop_isolation(false)]
fn find_planned<'a>(states: &'a Vec<PlannedStateAllocation>, key: &Key) -> (r: Option<
    &'a PlannedStateAllocation,
>)
    ensures
        r.deep_view() == sequence::find_last(states.deep_view(), state_keyed(key.deep_view())),
{
    let ghost all = states.deep_view();
    let ghost p = state_keyed(key.deep_view());
    let mut i: usize = states.len();
    while i > 0
        invariant
            i <= states.len(),
            forall|j: int| i <= j < all.len() ==> !p(#[trigger] all[j]),
        decreases i,
    {
        i -= 1;
        assert(all[i as int] == states@[i as int]@);
        if states[i].component_id == key.0 && states[i].state_id == key.1 {
            proof {
                sequence::lemma_find_last_at(all, p, i as int);
            }
            return Some(&states[i]);
        }
    }
    proof {
        sequence::lemma_find_last_none(all, p);
    }
    None
}

fn same_shape(a: &Option<Vec<usize>>, b: &Option<Vec<usize>>) -> (r: bool)
    ensures
        r == (a.deep_view() == b.deep_view()),
{
    match (a, b) {
        (Some(left), Some(right)) => {
            assert(left.deep_view() =~= left@);
            assert(right.deep_view() =~= right@);
            sequence::same_numbers(left, right)
        },
        (None, None) => true,
        _ => false,
    }
}

fn are_compatible(a: &PlannedStateAllocation, b: &PlannedStateAllocation) -> (r: bool)
    ensures
        r == compatible_states(a@, b@),
{
    a.state_type == b.state_type && same_shape(&a.shape, &b.shape) && a.elements_per_activation
        == b.elements_per_activation && a.element_bytes == b.element_bytes
}

fn bind_alias(
    aliases: &OrderedMap<Key, Key>,
    planned: &Vec<PlannedStateAllocation>,
    done: OrderedMap<Key, VulkanStateBinding>,
    target: &Key,
    initial: &Key,
) -> (r: Result<OrderedMap<Key, VulkanStateBinding>, VulkanBindingPlanError>)
    requires
        aliases@.dom().finite(),
        done.sorted(),
    ensures
        sequence::outcome(r) == alias_bound(
            aliases@,
            planned.deep_view(),
            done@,
            (target.deep_view(), initial.deep_view()),
        ),
        r is Ok ==> r->Ok_0.sorted(),
{
    reveal(alias_bound);
    let source: Key = match follow_alias(aliases, target, initial) {
        Ok(source) => source,
        Err(e) => return Err(e),
    };
    let target_state: &PlannedStateAllocation = match find_planned(planned, target) {
        Some(state) => state,
        None => return Err(
            VulkanBindingPlanError(
                Message::new("shared state target ").text(write_key(target).as_str()).text(
                    " is not planned",
                ).done(),
            ),
        ),
    };
    let source_state: &PlannedStateAllocation = match find_planned(planned, &source) {
        Some(state) => state,
        None => return Err(
            VulkanBindingPlanError(
                Message::new("shared state ").text(write_key(target).as_str()).text(
                    " references unplanned source ",
                ).text(write_key(&source).as_str()).done(),
            ),
        ),
    };
    let binding: VulkanStateBinding = match done.get(&source) {
        Some(binding) => binding.clone(),
        None => return Err(
            VulkanBindingPlanError(
                Message::new("shared state ").text(write_key(target).as_str()).text(
                    " references non-resident source ",
                ).text(write_key(&source).as_str()).done(),
            ),
        ),
    };
    if !are_compatible(target_state, source_state) {
        return Err(
            VulkanBindingPlanError(
                Message::new("shared state ").text(write_key(target).as_str()).text(
                    " is incompatible with source ",
                ).text(write_key(&source).as_str()).done(),
            ),
        );
    }
    let mut bindings: OrderedMap<Key, VulkanStateBinding> = done;
    bindings.insert(copy_key(target), binding);
    Ok(bindings)
}

/// The bindings of all resident states and of the states that share them.
#[verifier::loop_isolation(false)]
pub fn state_binding_index(
    resource_plan: &StreamCircuitResourcePlan,
    resident_plan: &VulkanStreamCircuitResidentPlan,
) -> (r: Result<OrderedMap<Key, VulkanStateBinding>, VulkanBindingPlanError>)
    ensures
        sequence::outcome(r) == state_index(resource_plan@, resident_plan@),
        r is Ok ==> r->Ok_0.sorted(),
{
    let own: OrderedMap<Key, VulkanStateBinding> = match bind_resident_states(
        &resident_plan.stream_state_buffers,
    ) {
        Ok(own) => own,
        Err(e) => return Err(e),
    };
    let hosted: OrderedSet<String> = list_bank_components(&resident_plan.activation_banks);
    let aliases: OrderedMap<Key, Key> = match collect_aliases(
        &resource_plan.state_allocations,
        &hosted,
    ) {
        Ok(aliases) => aliases,
        Err(e) => return Err(e),
    };
    let ghost all = aliases.entries.deep_view();
    let ghost init = own@;
    let ghost step = alias_bind_step(aliases@, resource_plan@.state_allocations);
    proof {
        ordered::lemma_sorted_entries::<Key, KeyView>(all);
    }
    let mut bindings: OrderedMap<Key, VulkanStateBinding> = own;
    let mut i: usize = 0;
    assert(all.take(0) =~= Seq::empty());
    while i < aliases.entries.len()
        invariant
            i <= aliases.entries.len(),
            bindings.sorted(),
            sequence::try_fold(all.take(i as int), init, step) == Ok::<StateMap, Seq<char>>(
                bindings@,
            ),
        decreases aliases.entries.len() - i,
    {
        proof {
            sequence::lemma_try_fold_step(all, init, step, i as int);
            assert(all[i as int] == (
                aliases.entries@[i as int].0.deep_view(),
                aliases.entries@[i as int].1.deep_view(),
            ));
        }
        bindings = match bind_alias(
            &aliases,
            &resource_plan.state_allocations,
            bindings,
            &aliases.entries[i].0,
            &aliases.entries[i].1,
        ) {
            Ok(bindings) => bindings,
            Err(e) => {
                proof {
                    sequence::lemma_try_fold_error(all, init, step, i + 1);
                }
                return Err(e);
            },
        };
        i += 1;
    }
    assert(all.take(all.len() as int) =~= all);
    Ok(bindings)
}

// ---------------------------------------------------------------------------
// Activations
// ---------------------------------------------------------------------------

/// Activation slots by signal.
pub type SlotMap = Map<KeyView, Slot>;

/// Binds one signal to a slot.
pub open spec fn slot_signal_step(
    component_id: Seq<char>,
    slot: VulkanResidentActivationSlotView,
) -> spec_fn(SlotMap, Seq<char>) -> Result<SlotMap, Seq<char>> {
    |done: SlotMap, signal_id: Seq<char>|
        {
            let key = (component_id, signal_id);
            if done.contains_key(key) {
                Err("duplicate activation binding for "@ + key_text(key))
            } else {
                Ok(done.insert(key, (slot.slot, slot.bytes, slot.max_elements)))
            }
        }
}

/// Binds the signals of one slot.
pub open spec fn slot_step(component_id: Seq<char>) -> spec_fn(
    SlotMap,
    VulkanResidentActivationSlotView,
) -> Result<SlotMap, Seq<char>> {
    |done: SlotMap, slot: VulkanResidentActivationSlotView|
        sequence::try_fold(slot.signal_ids, done, slot_signal_step(component_id, slot))
}

/// Binds the signals of one bank.
pub open spec fn bank_step() -> spec_fn(SlotMap, VulkanResidentActivationBankView) -> Result<
    SlotMap,
    Seq<char>,
> {
    |done: SlotMap, bank: VulkanResidentActivationBankView|
        sequence::try_fold(bank.slots, done, slot_step(bank.component_id))
}

/// The slots of all signals.
pub open spec fn activation_index(resident: VulkanStreamCircuitResidentPlanView) -> Result<
    SlotMap,
    Seq<char>,
> {
    sequence::try_fold(resident.activation_banks, Map::<KeyView, Slot>::empty(), bank_step())
}

#[verifier::loop_isolation(false)]
fn bind_slot_signals(
    done: OrderedMap<Key, Slot>,
    component_id: &String,
    slot: &VulkanResidentActivationSlot,
) -> (r: Result<OrderedMap<Key, Slot>, VulkanBindingPlanError>)
    requires
        done.sorted(),
    ensures
        sequence::outcome(r) == sequence::try_fold(
            slot@.signal_ids,
            done@,
            slot_signal_step(component_id@, slot@),
        ),
        r is Ok ==> r->Ok_0.sorted(),
{
    let ghost all = slot@.signal_ids;
    let ghost init = done@;
    let ghost step = slot_signal_step(component_id@, slot@);
    let mut bindings: OrderedMap<Key, Slot> = done;
    let mut i: usize = 0;
    assert(all.take(0) =~= Seq::empty());
    while i < slot.signal_ids.len()
        invariant
            i <= slot.signal_ids.len(),
            bindings.sorted(),
            sequence::try_fold(all.take(i as int), init, step) == Ok::<SlotMap, Seq<char>>(
                bindings@,
            ),
        decreases slot.signal_ids.len() - i,
    {
        proof {
            sequence::lemma_try_fold_step(all, init, step, i as int);
            assert(all[i as int] == slot.signal_ids@[i as int]@);
        }
        let key: Key = (component_id.clone(), slot.signal_ids[i].clone());
        if bindings.contains_key(&key) {
            proof {
                sequence::lemma_try_fold_error(all, init, step, i + 1);
            }
            return Err(
                VulkanBindingPlanError(
                    Message::new("duplicate activation binding for ").text(
                        write_key(&key).as_str(),
                    ).done(),
                ),
            );
        }
        bindings.insert(key, (slot.slot, slot.bytes, slot.max_elements));
        i += 1;
    }
    assert(all.take(all.len() as int) =~= all);
    Ok(bindings)
}

#[verifier::loop_isolation(false)]
fn bind_bank(done: OrderedMap<Key, Slot>, bank: &VulkanResidentActivationBank) -> (r: Result<
    OrderedMap<Key, Slot>,
    VulkanBindingPlanError,
>)
    requires
        done.sorted(),
    ensures
        sequence::outcome(r) == sequence::try_fold(
            bank@.slots,
            done@,
            slot_step(bank@.component_id),
        ),
        r is Ok ==> r->Ok_0.sorted(),
{
    let ghost all = bank@.slots;
    let ghost init = done@;
    let ghost step = slot_step(bank@.component_id);
    let mut bindings: OrderedMap<Key, Slot> = done;
    let mut i: usize = 0;
    assert(all.take(0) =~= Seq::empty());
    while i < bank.slots.len()
        invariant
            i <= bank.slots.len(),
            bindings.sorted(),
            sequence::try_fold(all.take(i as int), init, step) == Ok::<SlotMap, Seq<char>>(
                bindings@,
            ),
        decreases bank.slots.len() - i,
    {
        proof {
            sequence::lemma_try_fold_step(all, init, step, i as int);
            assert(all[i as int] == bank.slots@[i as int]@);
        }
        bindings = match bind_slot_signals(bindings, &bank.component_id, &bank.slots[i]) {
            Ok(bindings) => bindings,
            Err(e) => {
                proof {
                    sequence::lemma_try_fold_error(all, init, step, i + 1);
                }
                return Err(e);
            },
        };
        i += 1;
    }
    assert(all.take(all.len() as int) =~= all);
    Ok(bindings)
}

/// The slots of all signals.
#[verifier::loop_isolation(false)]
pub fn activation_binding_index(resident_plan: &VulkanStreamCircuitResidentPlan) -> (r: Result<
    OrderedMap<Key, Slot>,
    VulkanBindingPlanError,
>)
    ensures
        sequence::outcome(r) == activation_index(resident_plan@),
        r is Ok ==> r->Ok_0.sorted(),
{
    let ghost all = resident_plan@.activation_banks;
    let ghost init = Map::<KeyView, Slot>::empty();
    let ghost step = bank_step();
    let mut bindings: OrderedMap<Key, Slot> = OrderedMap::new();
    let mut i: usize = 0;
    assert(all.take(0) =~= Seq::empty());
    while i < resident_plan.activation_banks.len()
        invariant
            i <= resident_plan.activation_banks.len(),
            bindings.sorted(),
            sequence::try_fold(all.take(i as int), init, step) == Ok::<SlotMap, Seq<char>>(
                bindings@,
            ),
        decreases resident_plan.activation_banks.len() - i,
    {
        proof {
            sequence::lemma_try_fold_step(all, init, step, i as int);
            assert(all[i as int] == resident_plan.activation_banks@[i as int]@);
        }
        bindings = match bind_bank(bindings, &resident_plan.activation_banks[i]) {
            Ok(bindings) => bindings,
            Err(e) => {
                proof {
                    sequence::lemma_try_fold_error(all, init, step, i + 1);
                }
                return Err(e);
            },
        };
        i += 1;
    }
    assert(all.take(all.len() as int) =~= all);
    Ok(bindings)
}

/// A chain of aliases ends at a state that shares nothing and that the chain has not passed.
pub proof fn aliases_end_at_an_unshared_state(
    aliases: AliasMap,
    source: KeyView,
    visited: Set<KeyView>,
)
    requires
        aliases.dom().finite(),
        resolve_alias(aliases, source, visited) is Ok,
    ensures
        !aliases.contains_key(resolve_alias(aliases, source, visited)->Ok_0),
        !visited.contains(resolve_alias(aliases, source, visited)->Ok_0),
    decreases aliases.dom().difference(visited).len(),
{
    if aliases.contains_key(source) {
        lemma_visit_shrinks(aliases, source, visited);
        aliases_end_at_an_unshared_state(aliases, aliases[source], visited.insert(source));
    }
}

// ---------------------------------------------------------------------------
// Nodes and circuits
// ---------------------------------------------------------------------------

/// What circuits are bound against.
#[verifier::ext_equal]
pub struct BindingsView {
    pub parameters: ParameterMap,
    pub states: StateMap,
    pub activations: SlotMap,
}

/// The name of a node's signal in a message.
pub open spec fn node_signal_text(
    circuit: CircuitActivationPlanView,
    node: PlannedNodeView,
    signal_id: Seq<char>,
) -> Seq<char> {
    circuit.component_id + " node "@ + node.id + " activation signal "@ + text::quoted(signal_id)
}

/// The bytes that a signal takes of its slot, where all sizes are known.
#[verifier::opaque]
pub open spec fn signal_bytes(
    circuit: CircuitActivationPlanView,
    node: PlannedNodeView,
    signal: PlannedSignalView,
    slot_bytes: Option<usize>,
    slot_elements: Option<usize>,
) -> Result<Option<usize>, Seq<char>> {
    let name = node_signal_text(circuit, node, signal.id);
    let elements = match signal.shape {
        Some(shape) => arithmetic::checked_product(1, shape),
        None => None,
    };
    match (elements, slot_bytes, slot_elements) {
        (Some(elements), Some(bytes), Some(slots)) => if slots == 0 {
            if bytes == 0 && elements == 0 {
                Ok(Some(0usize))
            } else {
                Err(
                    name + " has an invalid zero-element slot of "@ + text::decimal(bytes as nat)
                        + " bytes"@,
                )
            }
        } else if bytes % slots != 0 {
            Err(
                name + " slot capacity "@ + text::decimal(bytes as nat) + " is not divisible by "@
                    + text::decimal(slots as nat) + " elements"@,
            )
        } else if elements * (bytes / slots) > usize::MAX {
            Err(name + " byte capacity overflowed"@)
        } else if elements * (bytes / slots) > bytes {
            Err(
                name + " requires "@ + text::decimal((elements * (bytes / slots)) as nat)
                    + " bytes, exceeding slot capacity "@ + text::decimal(bytes as nat),
            )
        } else {
            Ok(Some((elements * (bytes / slots)) as usize))
        },
        _ => Ok(None),
    }
}

/// Whether a node has this name.
pub open spec fn node_named(id: Seq<char>) -> spec_fn(PlannedNodeView) -> bool {
    |node: PlannedNodeView| node.id == id
}

/// The state behind a state view: the first that its producer writes, or else reads.
#[verifier::opaque]
pub open spec fn viewed_state(circuit: CircuitActivationPlanView, signal: PlannedSignalView) -> Result<
    Seq<char>,
    Seq<char>,
> {
    let name = circuit.component_id + " state-view signal "@ + text::quoted(signal.id);
    match signal.producer {
        SignalProducerView::Node { node_id } => match sequence::find_first(
            circuit.nodes,
            node_named(node_id),
        ) {
            None => Err(name + " producer "@ + text::quoted(node_id) + " is not planned"@),
            Some(producer) => if producer.state_writes.len() > 0 {
                Ok(producer.state_writes[0])
            } else if producer.state_reads.len() > 0 {
                Ok(producer.state_reads[0])
            } else {
                Err(name + " producer "@ + text::quoted(node_id) + " does not reference state"@)
            },
        },
        _ => Err(name + " is not produced by a node"@),
    }
}

/// The resource behind a signal of a node.
#[verifier::opaque]
pub open spec fn signal_resource(
    b: BindingsView,
    circuit: CircuitActivationPlanView,
    node: PlannedNodeView,
    signal: PlannedSignalView,
) -> Result<VulkanSignalResourceView, Seq<char>> {
    let key = (circuit.component_id, signal.id);
    if signal.is_boundary_output {
        Ok(VulkanSignalResourceView::BoundaryOutput)
    } else {
        match signal.storage {
            SignalStorage::Boundary => Ok(VulkanSignalResourceView::BoundaryInput),
            SignalStorage::State => if !b.states.contains_key(key) {
                Err(
                    circuit.component_id + " signal "@ + text::quoted(signal.id)
                        + " has no state buffer binding"@,
                )
            } else {
                let state = b.states[key];
                Ok(
                    VulkanSignalResourceView::StateBuffer {
                        component_id: state.component_id,
                        state_id: state.state_id,
                        static_bytes: state.static_bytes,
                        bytes_per_activation: state.bytes_per_activation,
                    },
                )
            },
            SignalStorage::Activation => if !b.activations.contains_key(key) {
                Err(
                    circuit.component_id + " signal "@ + text::quoted(signal.id)
                        + " has no activation slot binding"@,
                )
            } else {
                let slot = b.activations[key];
                match signal_bytes(circuit, node, signal, slot.1, slot.2) {
                    Err(e) => Err(e),
                    Ok(signal_bytes) => Ok(
                        VulkanSignalResourceView::ActivationSlot {
                            component_id: circuit.component_id,
                            slot: slot.0,
                            bytes: slot.1,
                            signal_bytes,
                        },
                    ),
                }
            },
            SignalStorage::StateView => match viewed_state(circuit, signal) {
                Err(e) => Err(e),
                Ok(state_id) => if !b.states.contains_key((circuit.component_id, state_id)) {
                    Err(
                        circuit.component_id + " state-view signal "@ + text::quoted(signal.id)
                            + " has no state buffer binding for "@ + text::quoted(state_id),
                    )
                } else {
                    let state = b.states[(circuit.component_id, state_id)];
                    Ok(
                        VulkanSignalResourceView::StateView {
                            component_id: state.component_id,
                            state_id: state.state_id,
                            static_bytes: state.static_bytes,
                            bytes_per_activation: state.bytes_per_activation,
                        },
                    )
                },
            },
        }
    }
}

/// The binding of a signal of a node.
pub open spec fn signal_binding(
    b: BindingsView,
    circuit: CircuitActivationPlanView,
    node: PlannedNodeView,
) -> spec_fn(Seq<char>) -> Result<VulkanSignalBindingView, Seq<char>> {
    |signal_id: Seq<char>|
        match stream_plan::planned_signal(circuit, signal_id) {
            None => Err(
                circuit.component_id + " node "@ + node.id + " signal "@ + text::quoted(signal_id)
                    + " is not planned"@,
            ),
            Some(signal) => match signal_resource(b, circuit, node, signal) {
                Err(e) => Err(e),
                Ok(resource) => Ok(VulkanSignalBindingView { signal_id, resource }),
            },
        }
}

/// The binding of a parameter of a node.
pub open spec fn parameter_binding(
    b: BindingsView,
    circuit: CircuitActivationPlanView,
    node: PlannedNodeView,
) -> spec_fn(Seq<char>) -> Result<VulkanParameterBindingView, Seq<char>> {
    |param_id: Seq<char>|
        if b.parameters.contains_key((circuit.component_id, param_id)) {
            Ok(b.parameters[(circuit.component_id, param_id)])
        } else {
            Err(
                circuit.component_id + " node "@ + node.id + " parameter "@ + text::quoted(param_id)
                    + " is not bound"@,
            )
        }
}

/// The binding of a state of a node.
pub open spec fn state_binding(
    b: BindingsView,
    circuit: CircuitActivationPlanView,
    node: PlannedNodeView,
) -> spec_fn(Seq<char>) -> Result<VulkanStateBindingView, Seq<char>> {
    |state_id: Seq<char>|
        if b.states.contains_key((circuit.component_id, state_id)) {
            Ok(b.states[(circuit.component_id, state_id)])
        } else {
            Err(
                circuit.component_id + " node "@ + node.id + " state "@ + text::quoted(state_id)
                    + " is not bound"@,
            )
        }
}

/// The binding of a node.
#[verifier::opaque]
pub open spec fn node_bound(
    b: BindingsView,
    circuit: CircuitActivationPlanView,
    node: PlannedNodeView,
) -> Result<VulkanNodeBindingView, Seq<char>> {
    match sequence::try_map(node.inputs, signal_binding(b, circuit, node)) {
        Err(e) => Err(e),
        Ok(inputs) => match sequence::try_map(node.outputs, signal_binding(b, circuit, node)) {
            Err(e) => Err(e),
            Ok(outputs) => match sequence::try_map(
                node.params,
                parameter_binding(b, circuit, node),
            ) {
                Err(e) => Err(e),
                Ok(parameters) => match sequence::try_map(
                    node.state_reads,
                    state_binding(b, circuit, node),
                ) {
                    Err(e) => Err(e),
                    Ok(state_reads) => match sequence::try_map(
                        node.state_writes,
                        state_binding(b, circuit, node),
                    ) {
                        Err(e) => Err(e),
                        Ok(state_writes) => Ok(
                            VulkanNodeBindingView {
                                node_index: node.index,
                                node_id: node.id,
                                op: node.op,
                                specialization: node.specialization,
                                inputs,
                                outputs,
                                parameters,
                                state_reads,
                                state_writes,
                            },
                        ),
                    },
                },
            },
        },
    }
}

/// The binding of a node of a circuit.
pub open spec fn node_binding(b: BindingsView, circuit: CircuitActivationPlanView) -> spec_fn(
    PlannedNodeView,
) -> Result<VulkanNodeBindingView, Seq<char>> {
    |node: PlannedNodeView| node_bound(b, circuit, node)
}

/// The binding of a circuit.
#[verifier::opaque]
pub open spec fn circuit_bound(b: BindingsView, circuit: CircuitActivationPlanView) -> Result<
    VulkanCircuitBindingPlanView,
    Seq<char>,
> {
    match sequence::try_map(circuit.nodes, node_binding(b, circuit)) {
        Err(e) => Err(e),
        Ok(nodes) => Ok(
            VulkanCircuitBindingPlanView {
                component_id: circuit.component_id,
                circuit_id: circuit.circuit_id,
                input_ports: circuit.input_ports,
                output_ports: circuit.output_ports,
                nodes,
            },
        ),
    }
}

/// One step over the circuits: a circuit that is not hosted is left out.
pub open spec fn circuit_step(b: BindingsView, hosted: Option<Set<Seq<char>>>) -> spec_fn(
    Seq<VulkanCircuitBindingPlanView>,
    CircuitActivationPlanView,
) -> Result<Seq<VulkanCircuitBindingPlanView>, Seq<char>> {
    |done: Seq<VulkanCircuitBindingPlanView>, circuit: CircuitActivationPlanView|
        if !hosts(hosted, circuit.component_id) {
            Ok(done)
        } else {
            match circuit_bound(b, circuit) {
                Err(e) => Err(e),
                Ok(bound) => Ok(done.push(bound)),
            }
        }
}

/// One for a hosted circuit.
pub open spec fn hosted_one(hosted: Option<Set<Seq<char>>>) -> spec_fn(
    CircuitActivationPlanView,
) -> nat {
    |circuit: CircuitActivationPlanView|
        if hosts(hosted, circuit.component_id) {
            1nat
        } else {
            0nat
        }
}

/// Whether the plans speak of the same number of circuits.
pub open spec fn circuit_counts_check(
    execution: StreamCircuitExecutionPlanView,
    resources: StreamCircuitResourcePlanView,
    resident: VulkanStreamCircuitResidentPlanView,
    hosted: Option<Set<Seq<char>>>,
) -> Result<(), Seq<char>> {
    let hosted_count = sequence::total(execution.circuits, hosted_one(hosted));
    if hosted is None && (execution.circuits.len() != resident.circuit_count
        || resources.circuit_count != resident.circuit_count) {
        Err(
            "execution/resource/resident circuit counts do not match: "@ + text::decimal(
                execution.circuits.len(),
            ) + "/"@ + text::decimal(resources.circuit_count as nat) + "/"@ + text::decimal(
                resident.circuit_count as nat,
            ),
        )
    } else if hosted_count != resident.circuit_count {
        Err(
            "hosted execution/resident circuit counts do not match: "@ + text::decimal(hosted_count)
                + "/"@ + text::decimal(resident.circuit_count as nat),
        )
    } else {
        Ok(())
    }
}

/// The binding plan of a stream, or of the hosted part of it.
pub open spec fn binding_plan(
    execution: StreamCircuitExecutionPlanView,
    resources: StreamCircuitResourcePlanView,
    resident: VulkanStreamCircuitResidentPlanView,
    hosted: Option<Set<Seq<char>>>,
) -> Result<VulkanStreamCircuitBindingPlanView, Seq<char>> {
    match circuit_counts_check(execution, resources, resident, hosted) {
        Err(e) => Err(e),
        Ok(_) => match parameter_index(resources, resident, hosted) {
            Err(e) => Err(e),
            Ok(parameters) => match state_index(resources, resident) {
                Err(e) => Err(e),
                Ok(states) => match activation_index(resident) {
                    Err(e) => Err(e),
                    Ok(activations) => match sequence::try_fold(
                        execution.circuits,
                        Seq::<VulkanCircuitBindingPlanView>::empty(),
                        circuit_step(BindingsView { parameters, states, activations }, hosted),
                    ) {
                        Err(e) => Err(e),
                        Ok(circuits) => Ok(
                            VulkanStreamCircuitBindingPlanView {
                                backend_id: VULKAN_STREAM_CIRCUIT_BACKEND_ID@,
                                circuits,
                            },
                        ),
                    },
                },
            },
        },
    }
}

/// The hosted components of a placed plan.
pub open spec fn placed_components(placed: VulkanPlacedStreamCircuitResidentPlanView) -> Set<
    Seq<char>,
> {
    placed.hosted_component_ids.to_set()
}

struct Bindings {
    parameters: OrderedMap<Key, VulkanParameterBinding>,
    states: OrderedMap<Key, VulkanStateBinding>,
    activations: OrderedMap<Key, Slot>,
}

/// The bytes that a signal takes of its slot, where all sizes are known.
pub fn activation_signal_byte_capacity(
    circuit: &CircuitActivationPlan,
    node: &PlannedNode,
    signal: &PlannedSignal,
    slot_bytes: Option<usize>,
    slot_max_elements: Option<usize>,
) -> (r: Result<Option<usize>, VulkanBindingPlanError>)
    ensures
        sequence::outcome(r) == signal_bytes(
            circuit@,
            node@,
            signal@,
            slot_bytes,
            slot_max_elements,
        ),
{
    reveal(signal_bytes);
    let elements: usize = match &signal.shape {
        Some(shape) => {
            assert(shape.deep_view() =~= shape@);
            match arithmetic::product(shape) {
                Some(elements) => elements,
                None => return Ok(None),
            }
        },
        None => return Ok(None),
    };
    let bytes: usize = match slot_bytes {
        Some(bytes) => bytes,
        None => return Ok(None),
    };
    let slots: usize = match slot_max_elements {
        Some(slots) => slots,
        None => return Ok(None),
    };
    let name: Message = Message::new(circuit.component_id.as_str()).text(" node ").text(
        node.id.as_str(),
    ).text(" activation signal ").quoted(signal.id.as_str());
    if slots == 0 {
        if bytes == 0 && elements == 0 {
            return Ok(Some(0));
        }
        return Err(
            VulkanBindingPlanError(
                name.text(" has an invalid zero-element slot of ").number(bytes).text(
                    " bytes",
                ).done(),
            ),
        );
    }
    if bytes % slots != 0 {
        return Err(
            VulkanBindingPlanError(
                name.text(" slot capacity ").number(bytes).text(" is not divisible by ").number(
                    slots,
                ).text(" elements").done(),
            ),
        );
    }
    let element_bytes: usize = bytes / slots;
    let needed: usize = match elements.checked_mul(element_bytes) {
        Some(needed) => needed,
        None => return Err(
            VulkanBindingPlanError(name.text(" byte capacity overflowed").done()),
        ),
    };
    if needed > bytes {
        return Err(
            VulkanBindingPlanError(
                name.text(" requires ").number(needed).text(
                    " bytes, exceeding slot capacity ",
                ).number(bytes).done(),
            ),
        );
    }
    Ok(Some(needed))
}

#[verifier::loop_isolation(false)]
fn find_node<'a>(nodes: &'a Vec<PlannedNode>, id: &String) -> (r: Option<&'a PlannedNode>)
    ensures
        r.deep_view() == sequence::find_first(nodes.deep_view(), node_named(id@)),
{
    let ghost all = nodes.deep_view();
    let ghost p = node_named(id@);
    let mut i: usize = 0;
    while i < nodes.len()
        invariant
            i <= nodes.len(),
            forall|j: int| 0 <= j < i ==> !p(#[trigger] all[j]),
        decreases nodes.len() - i,
    {
        assert(all[i as int] == nodes@[i as int]@);
        if nodes[i].id == *id {
            proof {
                sequence::lemma_find_first_at(all, p, i as int);
            }
            return Some(&nodes[i]);
        }
        i += 1;
    }
    proof {
        sequence::lemma_find_first_none(all, p);
    }
    None
}

/// The state behind a state view: the first that its producer writes, or else reads.
pub fn state_view_state_id(circuit: &CircuitActivationPlan, signal: &PlannedSignal) -> (r: Result<
    String,
    VulkanBindingPlanError,
>)
    ensures
        sequence::outcome(r) == viewed_state(circuit@, signal@),
{
    reveal(viewed_state);
    let name: Message = Message::new(circuit.component_id.as_str()).text(
        " state-view signal ",
    ).quoted(signal.id.as_str());
    let node_id: &String = match &signal.producer {
        SignalProducer::Node { node_id } => node_id,
        _ => return Err(
            VulkanBindingPlanError(name.text(" is not produced by a node").done()),
        ),
    };
    let producer: &PlannedNode = match find_node(&circuit.nodes, node_id) {
        Some(producer) => producer,
        None => return Err(
            VulkanBindingPlanError(
                name.text(" producer ").quoted(node_id.as_str()).text(" is not planned").done(),
            ),
        ),
    };
    assert(producer@.state_writes.len() == producer.state_writes@.len());
    assert(producer@.state_reads.len() == producer.state_reads@.len());
    if producer.state_writes.len() > 0 {
        assert(producer@.state_writes[0] == producer.state_writes@[0]@);
        return Ok(producer.state_writes[0].clone());
    }
    if producer.state_reads.len() > 0 {
        assert(producer@.state_reads[0] == producer.state_reads@[0]@);
        return Ok(producer.state_reads[0].clone());
    }
    Err(
        VulkanBindingPlanError(
            name.text(" producer ").quoted(node_id.as_str()).text(
                " does not reference state",
            ).done(),
        ),
    )
}

impl Bindings {
    spec fn value(&self) -> BindingsView {
        BindingsView {
            parameters: self.parameters@,
            states: self.states@,
            activations: self.activations@,
        }
    }

    fn bind_signal(
        &self,
        circuit: &CircuitActivationPlan,
        node: &PlannedNode,
        signal: &PlannedSignal,
    ) -> (r: Result<VulkanSignalResource, VulkanBindingPlanError>)
        ensures
            sequence::outcome(r) == signal_resource(self.value(), circuit@, node@, signal@),
    {
        reveal(signal_resource);
        if signal.is_boundary_output {
            return Ok(VulkanSignalResource::BoundaryOutput);
        }
        let key: Key = (circuit.component_id.clone(), signal.id.clone());
        match signal.storage {
            SignalStorage::Boundary => Ok(VulkanSignalResource::BoundaryInput),
            SignalStorage::State => match self.states.get(&key) {
                Some(state) => Ok(
                    VulkanSignalResource::StateBuffer {
                        component_id: state.component_id.clone(),
                        state_id: state.state_id.clone(),
                        static_bytes: state.static_bytes,
                        bytes_per_activation: state.bytes_per_activation,
                    },
                ),
                None => Err(
                    VulkanBindingPlanError(
                        Message::new(circuit.component_id.as_str()).text(" signal ").quoted(
                            signal.id.as_str(),
                        ).text(" has no state buffer binding").done(),
                    ),
                ),
            },
            SignalStorage::Activation => match self.activations.get(&key) {
                Some(slot) => {
                    let (number, bytes, elements): (usize, Option<usize>, Option<usize>) = *slot;
                    match activation_signal_byte_capacity(circuit, node, signal, bytes, elements) {
                        Ok(signal_bytes) => Ok(
                            VulkanSignalResource::ActivationSlot {
                                component_id: circuit.component_id.clone(),
                                slot: number,
                                bytes,
                                signal_bytes,
                            },
                        ),
                        Err(e) => Err(e),
                    }
                },
                None => Err(
                    VulkanBindingPlanError(
                        Message::new(circuit.component_id.as_str()).text(" signal ").quoted(
                            signal.id.as_str(),
                        ).text(" has no activation slot binding").done(),
                    ),
                ),
            },
            SignalStorage::StateView => {
                let state_id: String = match state_view_state_id(circuit, signal) {
                    Ok(state_id) => state_id,
                    Err(e) => return Err(e),
                };
                let state_key: Key = (circuit.component_id.clone(), state_id);
                match self.states.get(&state_key) {
                    Some(state) => Ok(
                        VulkanSignalResource::StateView {
                            component_id: state.component_id.clone(),
                            state_id: state.state_id.clone(),
                            static_bytes: state.static_bytes,
                            bytes_per_activation: state.bytes_per_activation,
                        },
                    ),
                    None => Err(
                        VulkanBindingPlanError(
                            Message::new(circuit.component_id.as_str()).text(
                                " state-view signal ",
                            ).quoted(signal.id.as_str()).text(
                                " has no state buffer binding for ",
                            ).quoted(state_key.1.as_str()).done(),
                        ),
                    ),
                }
            },
        }
    }

    #[verifier::loop_isolation(false)]
    fn bind_signals(
        &self,
        circuit: &CircuitActivationPlan,
        node: &PlannedNode,
        signal_ids: &Vec<String>,
    ) -> (r: Result<Vec<VulkanSignalBinding>, VulkanBindingPlanError>)
        ensures
            sequence::outcome(r) == sequence::try_map(
                signal_ids.deep_view(),
                signal_binding(self.value(), circuit@, node@),
            ),
    {
        let ghost all = signal_ids.deep_view();
        let ghost f = signal_binding(self.value(), circuit@, node@);
        let mut bindings: Vec<VulkanSignalBinding> = Vec::new();
        let mut i: usize = 0;
        assert(bindings.deep_view() =~= Seq::empty());
        assert(all.take(0) =~= Seq::empty());
        while i < signal_ids.len()
            invariant
                i <= signal_ids.len(),
                sequence::try_map(all.take(i as int), f) == Ok::<
                    Seq<VulkanSignalBindingView>,
                    Seq<char>,
                >(bindings.deep_view()),
            decreases signal_ids.len() - i,
        {
            let signal_id: &String = &signal_ids[i];
            proof {
                sequence::lemma_try_map_step(all, f, i as int);
                assert(all[i as int] == signal_id@);
                if f(all[i as int]) is Err {
                    sequence::lemma_try_map_error(all, f, i + 1);
                }
            }
            let signal: &PlannedSignal = match circuit.signal(signal_id.as_str()) {
                Some(signal) => signal,
                None => return Err(
                    VulkanBindingPlanError(
                        Message::new(circuit.component_id.as_str()).text(" node ").text(
                            node.id.as_str(),
                        ).text(" signal ").quoted(signal_id.as_str()).text(
                            " is not planned",
                        ).done(),
                    ),
                ),
            };
            let resource: VulkanSignalResource = match self.bind_signal(circuit, node, signal) {
                Ok(resource) => resource,
                Err(e) => return Err(e),
            };
            let binding = VulkanSignalBinding { signal_id: signal_id.clone(), resource };
            let ghost before = bindings.deep_view();
            let ghost added = binding@;
            bindings.push(binding);
            assert(bindings.deep_view() =~= before.push(added));
            i += 1;
        }
        assert(all.take(all.len() as int) =~= all);
        Ok(bindings)
    }

    #[verifier::loop_isolation(false)]
    fn bind_parameters(&self, circuit: &CircuitActivationPlan, node: &PlannedNode) -> (r: Result<
        Vec<VulkanParameterBinding>,
        VulkanBindingPlanError,
    >)
        ensures
            sequence::outcome(r) == sequence::try_map(
                node@.params,
                parameter_binding(self.value(), circuit@, node@),
            ),
    {
        let ghost all = node@.params;
        let ghost f = parameter_binding(self.value(), circuit@, node@);
        let mut bindings: Vec<VulkanParameterBinding> = Vec::new();
        let mut i: usize = 0;
        assert(bindings.deep_view() =~= Seq::empty());
        assert(all.take(0) =~= Seq::empty());
        while i < node.params.len()
            invariant
                i <= node.params.len(),
                sequence::try_map(all.take(i as int), f) == Ok::<
                    Seq<VulkanParameterBindingView>,
                    Seq<char>,
                >(bindings.deep_view()),
            decreases node.params.len() - i,
        {
            let param_id: &String = &node.params[i];
            proof {
                sequence::lemma_try_map_step(all, f, i as int);
                assert(all[i as int] == param_id@);
                if f(all[i as int]) is Err {
                    sequence::lemma_try_map_error(all, f, i + 1);
                }
            }
            match self.parameters.get(&(circuit.component_id.clone(), param_id.clone())) {
                Some(binding) => {
                    let ghost before = bindings.deep_view();
                    let ghost added = binding@;
                    bindings.push(binding.clone());
                    assert(bindings.deep_view() =~= before.push(added));
                },
                None => return Err(
                    VulkanBindingPlanError(
                        Message::new(circuit.component_id.as_str()).text(" node ").text(
                            node.id.as_str(),
                        ).text(" parameter ").quoted(param_id.as_str()).text(
                            " is not bound",
                        ).done(),
                    ),
                ),
            }
            i += 1;
        }
        assert(all.take(all.len() as int) =~= all);
        Ok(bindings)
    }

    #[verifier::loop_isolation(false)]
    fn bind_state_refs(
        &self,
        circuit: &CircuitActivationPlan,
        node: &PlannedNode,
        state_ids: &Vec<String>,
    ) -> (r: Result<Vec<VulkanStateBinding>, VulkanBindingPlanError>)
        ensures
            sequence::outcome(r) == sequence::try_map(
                state_ids.deep_view(),
                state_binding(self.value(), circuit@, node@),
            ),
    {
        let ghost all = state_ids.deep_view();
        let ghost f = state_binding(self.value(), circuit@, node@);
        let mut bindings: Vec<VulkanStateBinding> = Vec::new();
        let mut i: usize = 0;
        assert(bindings.deep_view() =~= Seq::empty());
        assert(all.take(0) =~= Seq::empty());
        while i < state_ids.len()
            invariant
                i <= state_ids.len(),
                sequence::try_map(all.take(i as int), f) == Ok::<
                    Seq<VulkanStateBindingView>,
                    Seq<char>,
                >(bindings.deep_view()),
            decreases state_ids.len() - i,
        {
            let state_id: &String = &state_ids[i];
            proof {
                sequence::lemma_try_map_step(all, f, i as int);
                assert(all[i as int] == state_id@);
                if f(all[i as int]) is Err {
                    sequence::lemma_try_map_error(all, f, i + 1);
                }
            }
            match self.states.get(&(circuit.component_id.clone(), state_id.clone())) {
                Some(binding) => {
                    let ghost before = bindings.deep_view();
                    let ghost added = binding@;
                    bindings.push(binding.clone());
                    assert(bindings.deep_view() =~= before.push(added));
                },
                None => return Err(
                    VulkanBindingPlanError(
                        Message::new(circuit.component_id.as_str()).text(" node ").text(
                            node.id.as_str(),
                        ).text(" state ").quoted(state_id.as_str()).text(" is not bound").done(),
                    ),
                ),
            }
            i += 1;
        }
        assert(all.take(all.len() as int) =~= all);
        Ok(bindings)
    }

    fn bind_node(&self, circuit: &CircuitActivationPlan, node: &PlannedNode) -> (r: Result<
        VulkanNodeBinding,
        VulkanBindingPlanError,
    >)
        ensures
            sequence::outcome(r) == node_bound(self.value(), circuit@, node@),
    {
        reveal(node_bound);
        let inputs: Vec<VulkanSignalBinding> = match self.bind_signals(
            circuit,
            node,
            &node.inputs,
        ) {
            Ok(inputs) => inputs,
            Err(e) => return Err(e),
        };
        let outputs: Vec<VulkanSignalBinding> = match self.bind_signals(
            circuit,
            node,
            &node.outputs,
        ) {
            Ok(outputs) => outputs,
            Err(e) => return Err(e),
        };
        let parameters: Vec<VulkanParameterBinding> = match self.bind_parameters(circuit, node) {
            Ok(parameters) => parameters,
            Err(e) => return Err(e),
        };
        let state_reads: Vec<VulkanStateBinding> = match self.bind_state_refs(
            circuit,
            node,
            &node.state_reads,
        ) {
            Ok(states) => states,
            Err(e) => return Err(e),
        };
        let state_writes: Vec<VulkanStateBinding> = match self.bind_state_refs(
            circuit,
            node,
            &node.state_writes,
        ) {
            Ok(states) => states,
            Err(e) => return Err(e),
        };
        Ok(
            VulkanNodeBinding {
                node_index: node.index,
                node_id: node.id.clone(),
                op: node.op.clone(),
                specialization: node.specialization.clone(),
                inputs,
                outputs,
                parameters,
                state_reads,
                state_writes,
            },
        )
    }

    #[verifier::loop_isolation(false)]
    fn bind_circuit(&self, circuit: &CircuitActivationPlan) -> (r: Result<
        VulkanCircuitBindingPlan,
        VulkanBindingPlanError,
    >)
        ensures
            sequence::outcome(r) == circuit_bound(self.value(), circuit@),
    {
        reveal(circuit_bound);
        let ghost all = circuit@.nodes;
        let ghost f = node_binding(self.value(), circuit@);
        let mut nodes: Vec<VulkanNodeBinding> = Vec::new();
        let mut i: usize = 0;
        assert(nodes.deep_view() =~= Seq::empty());
        assert(all.take(0) =~= Seq::empty());
        while i < circuit.nodes.len()
            invariant
                i <= circuit.nodes.len(),
                sequence::try_map(all.take(i as int), f) == Ok::<
                    Seq<VulkanNodeBindingView>,
                    Seq<char>,
                >(nodes.deep_view()),
            decreases circuit.nodes.len() - i,
        {
            proof {
                sequence::lemma_try_map_step(all, f, i as int);
                assert(all[i as int] == circuit.nodes@[i as int]@);
            }
            match self.bind_node(circuit, &circuit.nodes[i]) {
                Ok(node) => {
                    let ghost before = nodes.deep_view();
                    let ghost added = node@;
                    nodes.push(node);
                    assert(nodes.deep_view() =~= before.push(added));
                },
                Err(e) => {
                    proof {
                        sequence::lemma_try_map_error(all, f, i + 1);
                    }
                    return Err(e);
                },
            }
            i += 1;
        }
        assert(all.take(all.len() as int) =~= all);
        Ok(
            VulkanCircuitBindingPlan {
                component_id: circuit.component_id.clone(),
                circuit_id: circuit.circuit_id.clone(),
                input_ports: circuit.input_ports.clone(),
                output_ports: circuit.output_ports.clone(),
                nodes,
            },
        )
    }
}

#[verifier::loop_isolation(false)]
fn count_hosted(circuits: &Vec<CircuitActivationPlan>, hosted: Option<&OrderedSet<String>>) -> (r:
    usize)
    ensures
        r == sequence::total(circuits.deep_view(), hosted_one(hosted.deep_view())),
{
    let ghost all = circuits.deep_view();
    let ghost f = hosted_one(hosted.deep_view());
    let mut count: usize = 0;
    let mut i: usize = 0;
    assert(all.take(0) =~= Seq::empty());
    while i < circuits.len()
        invariant
            i <= circuits.len(),
            count <= i,
            count == sequence::total(all.take(i as int), f),
        decreases circuits.len() - i,
    {
        proof {
            sequence::lemma_total_step(all, f, i as int);
            assert(all[i as int] == circuits@[i as int]@);
        }
        if is_hosted(hosted, &circuits[i].component_id) {
            count += 1;
        }
        i += 1;
    }
    assert(all.take(all.len() as int) =~= all);
    count
}

impl VulkanStreamCircuitBindingPlan {
    /// The binding plan of a whole stream.
    pub fn from_plans(
        execution_plan: &StreamCircuitExecutionPlan,
        resource_plan: &StreamCircuitResourcePlan,
        resident_plan: &VulkanStreamCircuitResidentPlan,
    ) -> (r: Result<Self, VulkanBindingPlanError>)
        ensures
            sequence::outcome(r) == binding_plan(
                execution_plan@,
                resource_plan@,
                resident_plan@,
                None,
            ),
    {
        Self::from_plans_with_hosted_components(execution_plan, resource_plan, resident_plan, None)
    }

    /// The binding plan of the components that a device hosts.
    pub fn from_placed_resident_plan(
        execution_plan: &StreamCircuitExecutionPlan,
        resource_plan: &StreamCircuitResourcePlan,
        placed_resident_plan: &VulkanPlacedStreamCircuitResidentPlan,
    ) -> (r: Result<Self, VulkanBindingPlanError>)
        ensures
            sequence::outcome(r) == binding_plan(
                execution_plan@,
                resource_plan@,
                placed_resident_plan@.resident_plan,
                Some(placed_components(placed_resident_plan@)),
            ),
    {
        let hosted: OrderedSet<String> = ordered::distinct_texts(
            &placed_resident_plan.hosted_component_ids,
        );
        Self::from_plans_with_hosted_components(
            execution_plan,
            resource_plan,
            &placed_resident_plan.resident_plan,
            Some(&hosted),
        )
    }

    #[verifier::loop_isolation(false)]
    fn from_plans_with_hosted_components(
        execution_plan: &StreamCircuitExecutionPlan,
        resource_plan: &StreamCircuitResourcePlan,
        resident_plan: &VulkanStreamCircuitResidentPlan,
        hosted_components: Option<&OrderedSet<String>>,
    ) -> (r: Result<Self, VulkanBindingPlanError>)
        ensures
            sequence::outcome(r) == binding_plan(
                execution_plan@,
                resource_plan@,
                resident_plan@,
                hosted_components.deep_view(),
            ),
    {
        let ghost hosted = hosted_components.deep_view();
        let hosted_count: usize = count_hosted(&execution_plan.circuits, hosted_components);
        assert(execution_plan@.circuits.len() == execution_plan.circuits@.len());
        if hosted_components.is_none() && (execution_plan.circuits.len()
            != resident_plan.circuit_count || resource_plan.circuit_count
            != resident_plan.circuit_count) {
            return Err(
                VulkanBindingPlanError(
                    Message::new(
                        "execution/resource/resident circuit counts do not match: ",
                    ).number(execution_plan.circuits.len()).text("/").number(
                        resource_plan.circuit_count,
                    ).text("/").number(resident_plan.circuit_count).done(),
                ),
            );
        }
        if hosted_count != resident_plan.circuit_count {
            return Err(
                VulkanBindingPlanError(
                    Message::new("hosted execution/resident circuit counts do not match: ").number(
                        hosted_count,
                    ).text("/").number(resident_plan.circuit_count).done(),
                ),
            );
        }
        let parameters: OrderedMap<Key, VulkanParameterBinding> = match parameter_binding_index(
            resource_plan,
            resident_plan,
            hosted_components,
        ) {
            Ok(parameters) => parameters,
            Err(e) => return Err(e),
        };
        let states: OrderedMap<Key, VulkanStateBinding> = match state_binding_index(
            resource_plan,
            resident_plan,
        ) {
            Ok(states) => states,
            Err(e) => return Err(e),
        };
        let activations: OrderedMap<Key, Slot> = match activation_binding_index(resident_plan) {
            Ok(activations) => activations,
            Err(e) => return Err(e),
        };
        let bindings = Bindings { parameters, states, activations };
        let ghost all = execution_plan@.circuits;
        let ghost init = Seq::<VulkanCircuitBindingPlanView>::empty();
        let ghost step = circuit_step(bindings.value(), hosted);
        let mut circuits: Vec<VulkanCircuitBindingPlan> = Vec::new();
        let mut i: usize = 0;
        assert(circuits.deep_view() =~= init);
        assert(all.take(0) =~= Seq::empty());
        while i < execution_plan.circuits.len()
            invariant
                i <= execution_plan.circuits.len(),
                sequence::try_fold(all.take(i as int), init, step) == Ok::<
                    Seq<VulkanCircuitBindingPlanView>,
                    Seq<char>,
                >(circuits.deep_view()),
            decreases execution_plan.circuits.len() - i,
        {
            let circuit: &CircuitActivationPlan = &execution_plan.circuits[i];
            proof {
                sequence::lemma_try_fold_step(all, init, step, i as int);
                assert(all[i as int] == circuit@);
            }
            if is_hosted(hosted_components, &circuit.component_id) {
                match bindings.bind_circuit(circuit) {
                    Ok(bound) => {
                        let ghost before = circuits.deep_view();
                        let ghost added = bound@;
                        circuits.push(bound);
                        assert(circuits.deep_view() =~= before.push(added));
                    },
                    Err(e) => {
                        proof {
                            sequence::lemma_try_fold_error(all, init, step, i + 1);
                        }
                        return Err(e);
                    },
                }
            }
            i += 1;
        }
        assert(all.take(all.len() as int) =~= all);
        Ok(
            VulkanStreamCircuitBindingPlan {
                backend_id: VULKAN_STREAM_CIRCUIT_BACKEND_ID.to_owned(),
                circuits,
            },
        )
    }

    /// The number of bound nodes.
    #[verifier::loop_isolation(false)]
    pub fn total_node_count(&self) -> (r: usize)
        requires
            node_total(self@) <= usize::MAX,
        ensures
            r == node_total(self@),
    {
        let ghost all = self@.circuits;
        let ghost f = node_count();
        let mut total: usize = 0;
        let mut i: usize = 0;
        assert(all.take(0) =~= Seq::empty());
        while i < self.circuits.len()
            invariant
                i <= self.circuits.len(),
                total == sequence::total(all.take(i as int), f),
            decreases self.circuits.len() - i,
        {
            proof {
                sequence::lemma_total_step(all, f, i as int);
                sequence::lemma_total_prefix(all, f, i + 1);
                assert(all[i as int] == self.circuits@[i as int]@);
                assert(all[i as int].nodes.len() == self.circuits@[i as int].nodes@.len());
            }
            total = total + self.circuits[i].nodes.len();
            i += 1;
        }
        assert(all.take(all.len() as int) =~= all);
        total
    }

    /// The first circuit of a component.
    #[verifier::loop_isolation(false)]
    pub fn circuit(&self, component_id: &str) -> (r: Option<&VulkanCircuitBindingPlan>)
        ensures
            r.deep_view() == sequence::find_first(self@.circuits, circuit_of(component_id@)),
    {
        let ghost all = self@.circuits;
        let ghost p = circuit_of(component_id@);
        let mut i: usize = 0;
        while i < self.circuits.len()
            invariant
                i <= self.circuits.len(),
                forall|j: int| 0 <= j < i ==> !p(#[trigger] all[j]),
            decreases self.circuits.len() - i,
        {
            assert(all[i as int] == self.circuits@[i as int]@);
            if text::same(self.circuits[i].component_id.as_str(), component_id) {
                proof {
                    sequence::lemma_find_first_at(all, p, i as int);
                }
                return Some(&self.circuits[i]);
            }
            i += 1;
        }
        proof {
            sequence::lemma_find_first_none(all, p);
        }
        None
    }
}

/// The number of nodes of a circuit.
pub open spec fn node_count() -> spec_fn(VulkanCircuitBindingPlanView) -> nat {
    |circuit: VulkanCircuitBindingPlanView| circuit.nodes.len()
}

/// The number of nodes of a plan.
pub open spec fn node_total(plan: VulkanStreamCircuitBindingPlanView) -> nat {
    sequence::total(plan.circuits, node_count())
}

/// Whether a circuit is that of a component.
pub open spec fn circuit_of(component_id: Seq<char>) -> spec_fn(VulkanCircuitBindingPlanView) -> bool {
    |circuit: VulkanCircuitBindingPlanView| circuit.component_id == component_id
}

/// Whether a bound node has this name.
pub open spec fn bound_node_named(node_id: Seq<char>) -> spec_fn(VulkanNodeBindingView) -> bool {
    |node: VulkanNodeBindingView| node.node_id == node_id
}

/// Whether a binding is of this signal.
pub open spec fn binds_signal(signal_id: Seq<char>) -> spec_fn(VulkanSignalBindingView) -> bool {
    |binding: VulkanSignalBindingView| binding.signal_id == signal_id
}

/// Whether a binding is of this parameter.
pub open spec fn binds_parameter(param_id: Seq<char>) -> spec_fn(VulkanParameterBindingView) -> bool {
    |binding: VulkanParameterBindingView| binding.param_id == param_id
}

impl VulkanCircuitBindingPlan {
    /// The first node with this name.
    #[verifier::loop_isolation(false)]
    pub fn node(&self, node_id: &str) -> (r: Option<&VulkanNodeBinding>)
        ensures
            r.deep_view() == sequence::find_first(self@.nodes, bound_node_named(node_id@)),
    {
        let ghost all = self@.nodes;
        let ghost p = bound_node_named(node_id@);
        let mut i: usize = 0;
        while i < self.nodes.len()
            invariant
                i <= self.nodes.len(),
                forall|j: int| 0 <= j < i ==> !p(#[trigger] all[j]),
            decreases self.nodes.len() - i,
        {
            assert(all[i as int] == self.nodes@[i as int]@);
            if text::same(self.nodes[i].node_id.as_str(), node_id) {
                proof {
                    sequence::lemma_find_first_at(all, p, i as int);
                }
                return Some(&self.nodes[i]);
            }
            i += 1;
        }
        proof {
            sequence::lemma_find_first_none(all, p);
        }
        None
    }
}

#[verifier::loop_isolation(false)]
fn find_signal<'a>(bindings: &'a Vec<VulkanSignalBinding>, signal_id: &str) -> (r: Option<
    &'a VulkanSignalBinding,
>)
    ensures
        r.deep_view() == sequence::find_first(bindings.deep_view(), binds_signal(signal_id@)),
{
    let ghost all = bindings.deep_view();
    let ghost p = binds_signal(signal_id@);
    let mut i: usize = 0;
    while i < bindings.len()
        invariant
            i <= bindings.len(),
            forall|j: int| 0 <= j < i ==> !p(#[trigger] all[j]),
        decreases bindings.len() - i,
    {
        assert(all[i as int] == bindings@[i as int]@);
        if text::same(bindings[i].signal_id.as_str(), signal_id) {
            proof {
                sequence::lemma_find_first_at(all, p, i as int);
            }
            return Some(&bindings[i]);
        }
        i += 1;
    }
    proof {
        sequence::lemma_find_first_none(all, p);
    }
    None
}

impl VulkanNodeBinding {
    /// The first input with this name.
    pub fn input(&self, signal_id: &str) -> (r: Option<&VulkanSignalBinding>)
        ensures
            r.deep_view() == sequence::find_first(self@.inputs, binds_signal(signal_id@)),
    {
        find_signal(&self.inputs, signal_id)
    }

    /// The first output with this name.
    pub fn output(&self, signal_id: &str) -> (r: Option<&VulkanSignalBinding>)
        ensures
            r.deep_view() == sequence::find_first(self@.outputs, binds_signal(signal_id@)),
    {
        find_signal(&self.outputs, signal_id)
    }

    /// The first parameter with this name.
    #[verifier::loop_isolation(false)]
    pub fn parameter(&self, param_id: &str) -> (r: Option<&VulkanParameterBinding>)
        ensures
            r.deep_view() == sequence::find_first(self@.parameters, binds_parameter(param_id@)),
    {
        let ghost all = self@.parameters;
        let ghost p = binds_parameter(param_id@);
        let mut i: usize = 0;
        while i < self.parameters.len()
            invariant
                i <= self.parameters.len(),
                forall|j: int| 0 <= j < i ==> !p(#[trigger] all[j]),
            decreases self.parameters.len() - i,
        {
            assert(all[i as int] == self.parameters@[i as int]@);
            if text::same(self.parameters[i].param_id.as_str(), param_id) {
                proof {
                    sequence::lemma_find_first_at(all, p, i as int);
                }
                return Some(&self.parameters[i]);
            }
            i += 1;
        }
        proof {
            sequence::lemma_find_first_none(all, p);
        }
        None
    }
}

/// Whether a binding says where a signal is kept. A signal that leaves its circuit goes to the
/// boundary, and one that comes from outside comes from there. Any other lies in the slot or the state
/// of its own name, or views the state that its producer writes, or else reads.
pub open spec fn is_kept_in(
    b: BindingsView,
    circuit: CircuitActivationPlanView,
    signal: PlannedSignalView,
    resource: VulkanSignalResourceView,
) -> bool {
    match resource {
        VulkanSignalResourceView::BoundaryOutput => signal.is_boundary_output,
        VulkanSignalResourceView::BoundaryInput => !signal.is_boundary_output
            && signal.storage is Boundary,
        VulkanSignalResourceView::StateBuffer {
            component_id,
            state_id,
            static_bytes,
            bytes_per_activation,
        } => {
            &&& !signal.is_boundary_output
            &&& signal.storage is State
            &&& b.states.contains_key((circuit.component_id, signal.id))
            &&& b.states[(circuit.component_id, signal.id)].component_id == component_id
            &&& b.states[(circuit.component_id, signal.id)].state_id == state_id
            &&& b.states[(circuit.component_id, signal.id)].static_bytes == static_bytes
            &&& b.states[(circuit.component_id, signal.id)].bytes_per_activation
                == bytes_per_activation
        },
        VulkanSignalResourceView::ActivationSlot { component_id, slot, bytes, signal_bytes } => {
            &&& !signal.is_boundary_output
            &&& signal.storage is Activation
            &&& component_id == circuit.component_id
            &&& b.activations.contains_key((component_id, signal.id))
            &&& b.activations[(component_id, signal.id)].0 == slot
            &&& b.activations[(component_id, signal.id)].1 == bytes
            &&& signal_bytes matches Some(own) ==> bytes matches Some(all) && own <= all
        },
        VulkanSignalResourceView::StateView {
            component_id,
            state_id,
            static_bytes,
            bytes_per_activation,
        } => {
            &&& !signal.is_boundary_output
            &&& signal.storage is StateView
            &&& signal.producer is Node
            &&& exists|n: int|
                0 <= n < circuit.nodes.len() && {
                    let producer = #[trigger] circuit.nodes[n];
                    let viewed = if producer.state_writes.len() > 0 {
                        producer.state_writes[0]
                    } else {
                        producer.state_reads[0]
                    };
                    &&& producer.id == signal.producer->Node_node_id
                    &&& producer.state_writes.len() + producer.state_reads.len() > 0
                    &&& b.states.contains_key((circuit.component_id, viewed))
                    &&& b.states[(circuit.component_id, viewed)].component_id == component_id
                    &&& b.states[(circuit.component_id, viewed)].state_id == state_id
                    &&& b.states[(circuit.component_id, viewed)].static_bytes == static_bytes
                    &&& b.states[(circuit.component_id, viewed)].bytes_per_activation
                        == bytes_per_activation
                }
        },
    }
}

/// A signal is bound to where it is kept.
pub proof fn signals_are_bound_where_they_are_kept(
    b: BindingsView,
    circuit: CircuitActivationPlanView,
    node: PlannedNodeView,
    signal: PlannedSignalView,
)
    requires
        signal_resource(b, circuit, node, signal) is Ok,
    ensures
        is_kept_in(b, circuit, signal, signal_resource(b, circuit, node, signal)->Ok_0),
{
    reveal(signal_resource);
    reveal(signal_bytes);
    reveal(viewed_state);
    if !signal.is_boundary_output && signal.storage is StateView {
        match signal.producer {
            SignalProducerView::Node { node_id } => {
                let n = sequence::lemma_find_first_some(circuit.nodes, node_named(node_id));
                assert(circuit.nodes[n].id == node_id);
            },
            _ => {},
        }
    }
}

/// A signal takes its share of a slot: as many bytes for each of its elements as the slot has for
/// each of its own.
pub proof fn signals_take_their_share_of_a_slot(
    circuit: CircuitActivationPlanView,
    node: PlannedNodeView,
    signal: PlannedSignalView,
    slot_bytes: usize,
    slot_elements: usize,
)
    requires
        signal.shape is Some,
        arithmetic::checked_product(1, signal.shape->Some_0) is Some,
        slot_elements > 0,
        signal_bytes(circuit, node, signal, Some(slot_bytes), Some(slot_elements)) is Ok,
    ensures
        ({
            let elements = arithmetic::checked_product(1, signal.shape->Some_0)->Some_0;
            let own = signal_bytes(circuit, node, signal, Some(slot_bytes), Some(slot_elements));
            &&& own->Ok_0 is Some
            &&& own->Ok_0->Some_0 * slot_elements == elements * slot_bytes
            &&& own->Ok_0->Some_0 <= slot_bytes
        }),
{
    reveal(signal_bytes);
    let elements = arithmetic::checked_product(1, signal.shape->Some_0)->Some_0;
    let each = slot_bytes as nat / slot_elements as nat;
    vstd::arithmetic::div_mod::lemma_fundamental_div_mod(slot_bytes as int, slot_elements as int);
    assert((elements * each) * slot_elements == elements * (slot_elements * each))
        by (nonlinear_arith);
}

/// A bound node carries the names of its node. It binds the node's signals, parameters and states,
/// each under its own name, in the node's order, and as those of its own component.
pub proof fn bound_nodes_use_what_they_name(
    b: BindingsView,
    circuit: CircuitActivationPlanView,
    node: PlannedNodeView,
    i: int,
)
    requires
        node_bound(b, circuit, node) is Ok,
        0 <= i,
    ensures
        ({
            let bound = node_bound(b, circuit, node)->Ok_0;
            let component = circuit.component_id;
            &&& bound.node_index == node.index
            &&& bound.node_id == node.id
            &&& bound.op == node.op
            &&& bound.specialization == node.specialization
            &&& bound.inputs.len() == node.inputs.len()
            &&& bound.outputs.len() == node.outputs.len()
            &&& bound.parameters.len() == node.params.len()
            &&& bound.state_reads.len() == node.state_reads.len()
            &&& bound.state_writes.len() == node.state_writes.len()
            &&& i < node.inputs.len() ==> {
                let signal = stream_plan::planned_signal(circuit, node.inputs[i]);
                &&& bound.inputs[i].signal_id == node.inputs[i]
                &&& signal is Some
                &&& signal_resource(b, circuit, node, signal->Some_0) == Ok::<
                    VulkanSignalResourceView,
                    Seq<char>,
                >(bound.inputs[i].resource)
            }
            &&& i < node.outputs.len() ==> {
                let signal = stream_plan::planned_signal(circuit, node.outputs[i]);
                &&& bound.outputs[i].signal_id == node.outputs[i]
                &&& signal is Some
                &&& signal_resource(b, circuit, node, signal->Some_0) == Ok::<
                    VulkanSignalResourceView,
                    Seq<char>,
                >(bound.outputs[i].resource)
            }
            &&& i < node.params.len() ==> {
                &&& b.parameters.contains_key((component, node.params[i]))
                &&& bound.parameters[i] == b.parameters[(component, node.params[i])]
            }
            &&& i < node.state_reads.len() ==> {
                &&& b.states.contains_key((component, node.state_reads[i]))
                &&& bound.state_reads[i] == b.states[(component, node.state_reads[i])]
            }
            &&& i < node.state_writes.len() ==> {
                &&& b.states.contains_key((component, node.state_writes[i]))
                &&& bound.state_writes[i] == b.states[(component, node.state_writes[i])]
            }
        }),
{
    reveal(node_bound);
    let signals = signal_binding(b, circuit, node);
    let parameters = parameter_binding(b, circuit, node);
    let states = state_binding(b, circuit, node);
    sequence::lemma_try_map_ok(node.inputs, signals);
    sequence::lemma_try_map_ok(node.outputs, signals);
    sequence::lemma_try_map_ok(node.params, parameters);
    sequence::lemma_try_map_ok(node.state_reads, states);
    sequence::lemma_try_map_ok(node.state_writes, states);
    if i < node.inputs.len() {
        assert(signals(node.inputs[i]) is Ok);
    }
    if i < node.outputs.len() {
        assert(signals(node.outputs[i]) is Ok);
    }
    if i < node.params.len() {
        assert(parameters(node.params[i]) is Ok);
    }
    if i < node.state_reads.len() {
        assert(states(node.state_reads[i]) is Ok);
    }
    if i < node.state_writes.len() {
        assert(states(node.state_writes[i]) is Ok);
    }
}

proof fn lemma_uses_bound(
    hosted: Option<Set<Seq<char>>>,
    tensor: Seq<char>,
    resident: VulkanResidentParameterView,
    uses: Seq<PlannedParameterUseView>,
    done: ParameterMap,
    k: int,
    key: KeyView,
)
    requires
        sequence::try_fold(uses, done, use_step(hosted, tensor, resident)) is Ok,
    ensures
        ({
            let after = sequence::try_fold(uses, done, use_step(hosted, tensor, resident))->Ok_0;
            &&& done.contains_key(key) ==> after.contains_key(key) && after[key] == done[key]
            &&& 0 <= k < uses.len() && hosts(hosted, uses[k].component_id) ==> {
                let bound = after[(uses[k].component_id, uses[k].param_id)];
                &&& after.contains_key((uses[k].component_id, uses[k].param_id))
                &&& bound.param_id == uses[k].param_id
                &&& bound.tensor == tensor
                &&& bound.byte_count == resident.byte_count
                &&& bound.shape == resident.shape
            }
        }),
    decreases uses.len(),
{
    if uses.len() > 0 {
        lemma_uses_bound(hosted, tensor, resident, uses.drop_last(), done, k, key);
    }
}

proof fn lemma_parameters_bound(
    residents: Seq<VulkanResidentParameterView>,
    hosted: Option<Set<Seq<char>>>,
    parameters: Seq<PlannedParameterResourceView>,
    p: int,
    k: int,
)
    requires
        sequence::try_fold(
            parameters,
            Map::<KeyView, VulkanParameterBindingView>::empty(),
            parameter_step(residents, hosted),
        ) is Ok,
        0 <= p < parameters.len(),
        0 <= k < parameters[p].uses.len(),
        hosts(hosted, parameters[p].uses[k].component_id),
    ensures
        ({
            let after = sequence::try_fold(
                parameters,
                Map::<KeyView, VulkanParameterBindingView>::empty(),
                parameter_step(residents, hosted),
            )->Ok_0;
            let use_ref = parameters[p].uses[k];
            let bound = after[(use_ref.component_id, use_ref.param_id)];
            let resident = sequence::find_last(residents, of_tensor(parameters[p].tensor));
            &&& after.contains_key((use_ref.component_id, use_ref.param_id))
            &&& bound.param_id == use_ref.param_id
            &&& bound.tensor == parameters[p].tensor
            &&& resident is Some
            &&& bound.byte_count == resident->Some_0.byte_count
            &&& bound.shape == resident->Some_0.shape
        }),
    decreases parameters.len(),
{
    let none = Map::<KeyView, VulkanParameterBindingView>::empty();
    let step = parameter_step(residents, hosted);
    let front = parameters.drop_last();
    let last = parameters.last();
    let use_ref = parameters[p].uses[k];
    let key = (use_ref.component_id, use_ref.param_id);
    let before = sequence::try_fold(front, none, step)->Ok_0;
    let after = sequence::try_fold(parameters, none, step)->Ok_0;
    assert(parameter_bound(residents, hosted, before, last) == Ok::<ParameterMap, Seq<char>>(
        after,
    ));
    reveal(parameter_bound);
    if p < front.len() {
        lemma_parameters_bound(residents, hosted, front, p, k);
        if sequence::any(last.uses, hosted_use(hosted)) {
            let resident = sequence::find_last(residents, of_tensor(last.tensor))->Some_0;
            lemma_uses_bound(hosted, last.tensor, resident, last.uses, before, 0, key);
        }
    } else {
        assert(hosted_use(hosted)(last.uses[k]));
        let resident = sequence::find_last(residents, of_tensor(last.tensor))->Some_0;
        lemma_uses_bound(hosted, last.tensor, resident, last.uses, before, k, key);
    }
}

/// A parameter of a hosted component is bound to the tensor that the component uses it from, with the
/// size and the shape that the resident tensor has.
pub proof fn parameters_are_bound_to_their_tensor(
    resources: StreamCircuitResourcePlanView,
    resident: VulkanStreamCircuitResidentPlanView,
    hosted: Option<Set<Seq<char>>>,
    p: int,
    k: int,
)
    requires
        parameter_index(resources, resident, hosted) is Ok,
        0 <= p < resources.parameters.len(),
        0 <= k < resources.parameters[p].uses.len(),
        hosted is Some ==> hosted->Some_0.contains(resources.parameters[p].uses[k].component_id),
    ensures
        ({
            let index = parameter_index(resources, resident, hosted)->Ok_0;
            let use_ref = resources.parameters[p].uses[k];
            let bound = index[(use_ref.component_id, use_ref.param_id)];
            &&& index.contains_key((use_ref.component_id, use_ref.param_id))
            &&& bound.param_id == use_ref.param_id
            &&& bound.tensor == resources.parameters[p].tensor
            &&& exists|r: int|
                0 <= r < resident.permanent_parameters.len() && {
                    let held = #[trigger] resident.permanent_parameters[r];
                    &&& held.tensor == resources.parameters[p].tensor
                    &&& bound.byte_count == held.byte_count
                    &&& bound.shape == held.shape
                }
        }),
{
    lemma_parameters_bound(resident.permanent_parameters, hosted, resources.parameters, p, k);
    let r = sequence::lemma_find_last_some(
        resident.permanent_parameters,
        of_tensor(resources.parameters[p].tensor),
    );
    assert(resident.permanent_parameters[r].tensor == resources.parameters[p].tensor);
}

proof fn lemma_slot_signals(
    component_id: Seq<char>,
    slot: VulkanResidentActivationSlotView,
    signals: Seq<Seq<char>>,
    done: SlotMap,
    k: int,
    key: KeyView,
)
    requires
        sequence::try_fold(signals, done, slot_signal_step(component_id, slot)) is Ok,
    ensures
        ({
            let after = sequence::try_fold(
                signals,
                done,
                slot_signal_step(component_id, slot),
            )->Ok_0;
            &&& done.contains_key(key) ==> after.contains_key(key) && after[key] == done[key]
            &&& 0 <= k < signals.len() ==> after.contains_key((component_id, signals[k]))
                && after[(component_id, signals[k])] == (slot.slot, slot.bytes, slot.max_elements)
        }),
    decreases signals.len(),
{
    if signals.len() > 0 {
        lemma_slot_signals(component_id, slot, signals.drop_last(), done, k, key);
    }
}

proof fn lemma_bank_slots(
    component_id: Seq<char>,
    slots: Seq<VulkanResidentActivationSlotView>,
    done: SlotMap,
    s: int,
    k: int,
    key: KeyView,
)
    requires
        sequence::try_fold(slots, done, slot_step(component_id)) is Ok,
    ensures
        ({
            let after = sequence::try_fold(slots, done, slot_step(component_id))->Ok_0;
            &&& done.contains_key(key) ==> after.contains_key(key) && after[key] == done[key]
            &&& 0 <= s < slots.len() && 0 <= k < slots[s].signal_ids.len() ==> after.contains_key(
                (component_id, slots[s].signal_ids[k]),
            ) && after[(component_id, slots[s].signal_ids[k])] == (
                slots[s].slot,
                slots[s].bytes,
                slots[s].max_elements,
            )
        }),
    decreases slots.len(),
{
    if slots.len() > 0 {
        let front = slots.drop_last();
        let last = slots.last();
        lemma_bank_slots(component_id, front, done, s, k, key);
        let before = sequence::try_fold(front, done, slot_step(component_id))->Ok_0;
        lemma_slot_signals(component_id, last, last.signal_ids, before, k, key);
        if 0 <= s < front.len() && 0 <= k < slots[s].signal_ids.len() {
            lemma_slot_signals(
                component_id,
                last,
                last.signal_ids,
                before,
                0,
                (component_id, slots[s].signal_ids[k]),
            );
        }
    }
}

proof fn lemma_banks(
    banks: Seq<VulkanResidentActivationBankView>,
    b: int,
    s: int,
    k: int,
)
    requires
        sequence::try_fold(banks, Map::<KeyView, Slot>::empty(), bank_step()) is Ok,
        0 <= b < banks.len(),
        0 <= s < banks[b].slots.len(),
        0 <= k < banks[b].slots[s].signal_ids.len(),
    ensures
        ({
            let after = sequence::try_fold(banks, Map::<KeyView, Slot>::empty(), bank_step())->Ok_0;
            let slot = banks[b].slots[s];
            let key = (banks[b].component_id, slot.signal_ids[k]);
            &&& after.contains_key(key)
            &&& after[key] == (slot.slot, slot.bytes, slot.max_elements)
        }),
    decreases banks.len(),
{
    let front = banks.drop_last();
    let last = banks.last();
    let before = sequence::try_fold(front, Map::<KeyView, Slot>::empty(), bank_step())->Ok_0;
    let key = (banks[b].component_id, banks[b].slots[s].signal_ids[k]);
    if b < front.len() {
        lemma_banks(front, b, s, k);
        lemma_bank_slots(last.component_id, last.slots, before, 0, 0, key);
    } else {
        lemma_bank_slots(last.component_id, last.slots, before, s, k, key);
    }
}

/// A signal that a bank keeps in a slot is bound to that slot, for the bank's own component.
pub proof fn signals_are_bound_to_their_slot(
    resident: VulkanStreamCircuitResidentPlanView,
    b: int,
    s: int,
    k: int,
)
    requires
        activation_index(resident) is Ok,
        0 <= b < resident.activation_banks.len(),
        0 <= s < resident.activation_banks[b].slots.len(),
        0 <= k < resident.activation_banks[b].slots[s].signal_ids.len(),
    ensures
        ({
            let index = activation_index(resident)->Ok_0;
            let slot = resident.activation_banks[b].slots[s];
            let key = (resident.activation_banks[b].component_id, slot.signal_ids[k]);
            &&& index.contains_key(key)
            &&& index[key].0 == slot.slot
            &&& index[key].1 == slot.bytes
            &&& index[key].2 == slot.max_elements
        }),
{
    lemma_banks(resident.activation_banks, b, s, k);
}

proof fn lemma_states_bound(states: Seq<VulkanResidentStateBufferView>, i: int)
    requires
        sequence::try_fold(states, Map::<KeyView, VulkanStateBindingView>::empty(), state_step())
            is Ok,
        0 <= i < states.len(),
    ensures
        ({
            let after = sequence::try_fold(
                states,
                Map::<KeyView, VulkanStateBindingView>::empty(),
                state_step(),
            )->Ok_0;
            let key = (states[i].component_id, states[i].state_id);
            &&& after.contains_key(key)
            &&& after[key] == resident_state_binding(states[i])
        }),
    decreases states.len(),
{
    if i < states.len() - 1 {
        lemma_states_bound(states.drop_last(), i);
    }
}

proof fn lemma_aliases_keep(
    aliases: AliasMap,
    planned: Seq<PlannedStateAllocationView>,
    entries: Seq<(KeyView, KeyView)>,
    own: StateMap,
    key: KeyView,
)
    requires
        sequence::try_fold(entries, own, alias_bind_step(aliases, planned)) is Ok,
        forall|e: int| 0 <= e < entries.len() ==> (#[trigger] entries[e]).0 != key,
    ensures
        ({
            let after = sequence::try_fold(entries, own, alias_bind_step(aliases, planned))->Ok_0;
            &&& after.contains_key(key) == own.contains_key(key)
            &&& own.contains_key(key) ==> after[key] == own[key]
        }),
    decreases entries.len(),
{
    if entries.len() > 0 {
        let front = entries.drop_last();
        assert forall|e: int| 0 <= e < front.len() implies (#[trigger] front[e]).0 != key by {
            assert(front[e] == entries[e]);
        }
        lemma_aliases_keep(aliases, planned, front, own, key);
        let before = sequence::try_fold(front, own, alias_bind_step(aliases, planned))->Ok_0;
        let after = sequence::try_fold(entries, own, alias_bind_step(aliases, planned))->Ok_0;
        assert(entries[entries.len() - 1].0 != key);
        assert(alias_bound(aliases, planned, before, entries.last()) == Ok::<StateMap, Seq<char>>(
            after,
        ));
        reveal(alias_bound);
    }
}

/// A resident state that is no alias of another is bound to its own buffer, with its own type and
/// sizes.
pub proof fn states_are_bound_to_their_own_buffer(
    resources: StreamCircuitResourcePlanView,
    resident: VulkanStreamCircuitResidentPlanView,
    aliases: AliasMap,
    i: int,
)
    requires
        state_index(resources, resident) is Ok,
        sequence::try_fold(
            resources.state_allocations,
            Map::<KeyView, KeyView>::empty(),
            alias_step(bank_components(resident.activation_banks)),
        ) == Ok::<AliasMap, Seq<char>>(aliases),
        aliases.dom().finite(),
        0 <= i < resident.stream_state_buffers.len(),
        !aliases.contains_key(
            (
                resident.stream_state_buffers[i].component_id,
                resident.stream_state_buffers[i].state_id,
            ),
        ),
    ensures
        ({
            let index = state_index(resources, resident)->Ok_0;
            let state = resident.stream_state_buffers[i];
            let bound = index[(state.component_id, state.state_id)];
            &&& index.contains_key((state.component_id, state.state_id))
            &&& bound.component_id == state.component_id
            &&& bound.state_id == state.state_id
            &&& bound.state_type == state.state_type
            &&& bound.static_bytes == state.static_bytes
            &&& bound.bytes_per_activation == state.bytes_per_activation
        }),
{
    let states = resident.stream_state_buffers;
    let state = states[i];
    let own = sequence::try_fold(
        states,
        Map::<KeyView, VulkanStateBindingView>::empty(),
        state_step(),
    )->Ok_0;
    let entries = ordered::sorted_entries::<Key, KeyView>(aliases);
    let key = (state.component_id, state.state_id);
    lemma_states_bound(states, i);
    ordered::sorting_keeps_the_entries::<Key, KeyView>(aliases);
    ordered::lemma_increasing_entries::<Key, KeyView>(entries);
    assert forall|e: int| 0 <= e < entries.len() implies (#[trigger] entries[e]).0 != key by {
        assert(aliases.contains_key(entries[e].0));
    }
    lemma_aliases_keep(aliases, resources.state_allocations, entries, own, key);
}

/// Whether a circuit is hosted.
pub open spec fn hosted_circuit(hosted: Option<Set<Seq<char>>>) -> spec_fn(
    CircuitActivationPlanView,
) -> bool {
    |circuit: CircuitActivationPlanView|
        hosted is None || hosted->Some_0.contains(circuit.component_id)
}

proof fn lemma_circuits_bound(
    b: BindingsView,
    hosted: Option<Set<Seq<char>>>,
    circuits: Seq<CircuitActivationPlanView>,
    c: int,
)
    requires
        sequence::try_fold(
            circuits,
            Seq::<VulkanCircuitBindingPlanView>::empty(),
            circuit_step(b, hosted),
        ) is Ok,
    ensures
        ({
            let bound = sequence::try_fold(
                circuits,
                Seq::<VulkanCircuitBindingPlanView>::empty(),
                circuit_step(b, hosted),
            )->Ok_0;
            &&& bound.len() == sequence::count(circuits, hosted_circuit(hosted))
            &&& 0 <= c < circuits.len() && hosted_circuit(hosted)(circuits[c]) ==> {
                let at = sequence::count(circuits.take(c), hosted_circuit(hosted)) as int;
                &&& at < bound.len()
                &&& circuit_bound(b, circuits[c]) == Ok::<VulkanCircuitBindingPlanView, Seq<char>>(
                    bound[at],
                )
            }
        }),
    decreases circuits.len(),
{
    if circuits.len() > 0 {
        let front = circuits.drop_last();
        lemma_circuits_bound(b, hosted, front, c);
        if 0 <= c < front.len() {
            assert(front.take(c) =~= circuits.take(c));
            assert(front[c] == circuits[c]);
        } else if c == front.len() {
            assert(circuits.take(c) =~= front);
        }
    }
}

/// A binding plan binds the hosted circuits, all of them and in their order, and nothing else. A bound
/// circuit keeps its names and its ports, and binds its nodes in their order.
pub proof fn hosted_circuits_are_bound_in_order(
    execution: StreamCircuitExecutionPlanView,
    resources: StreamCircuitResourcePlanView,
    resident: VulkanStreamCircuitResidentPlanView,
    hosted: Option<Set<Seq<char>>>,
    c: int,
    n: int,
)
    requires
        binding_plan(execution, resources, resident, hosted) is Ok,
        0 <= c < execution.circuits.len(),
        hosted_circuit(hosted)(execution.circuits[c]),
    ensures
        ({
            let plan = binding_plan(execution, resources, resident, hosted)->Ok_0;
            let circuit = execution.circuits[c];
            let at = sequence::count(execution.circuits.take(c), hosted_circuit(hosted)) as int;
            let bound = plan.circuits[at];
            let b = BindingsView {
                parameters: parameter_index(resources, resident, hosted)->Ok_0,
                states: state_index(resources, resident)->Ok_0,
                activations: activation_index(resident)->Ok_0,
            };
            &&& plan.circuits.len() == sequence::count(execution.circuits, hosted_circuit(hosted))
            &&& at < plan.circuits.len()
            &&& bound.component_id == circuit.component_id
            &&& bound.circuit_id == circuit.circuit_id
            &&& bound.input_ports == circuit.input_ports
            &&& bound.output_ports == circuit.output_ports
            &&& bound.nodes.len() == circuit.nodes.len()
            &&& 0 <= n < circuit.nodes.len() ==> node_bound(b, circuit, circuit.nodes[n]) == Ok::<
                VulkanNodeBindingView,
                Seq<char>,
            >(bound.nodes[n])
        }),
{
    let b = BindingsView {
        parameters: parameter_index(resources, resident, hosted)->Ok_0,
        states: state_index(resources, resident)->Ok_0,
        activations: activation_index(resident)->Ok_0,
    };
    let circuit = execution.circuits[c];
    lemma_circuits_bound(b, hosted, execution.circuits, c);
    reveal(circuit_bound);
    sequence::lemma_try_map_ok(circuit.nodes, node_binding(b, circuit));
    if 0 <= n < circuit.nodes.len() {
        assert(node_binding(b, circuit)(circuit.nodes[n]) is Ok);
    }
}

/// A bound circuit is found by its component: the first that has it, and none where none has.
pub proof fn bound_circuits_are_found_by_component(
    all: Seq<VulkanCircuitBindingPlanView>,
    component_id: Seq<char>,
    j: int,
)
    ensures
        match sequence::find_first(all, circuit_of(component_id)) {
            Some(found) => exists|i: int|
                {
                    &&& 0 <= i < all.len()
                    &&& found == #[trigger] all[i]
                    &&& all[i].component_id == component_id
                    &&& 0 <= j < i ==> !(all[j].component_id == component_id)
                },
            None => 0 <= j < all.len() ==> !(all[j].component_id == component_id),
        },
{
    let p = circuit_of(component_id);
    if 0 <= j < all.len() {
        assert(p(all[j]) <==> all[j].component_id == component_id);
    }
    if sequence::find_first(all, p) is Some {
        let i = sequence::lemma_find_first_some(all, p);
        assert(p(all[i]));
        assert(sequence::find_first(all, p)->Some_0 == all[i]);
    } else {
        sequence::lemma_find_none_all(all, p);
    }
}

/// A bound node is found by its name: the first that has it, and none where none has.
pub proof fn bound_nodes_are_found_by_name(
    all: Seq<VulkanNodeBindingView>,
    node_id: Seq<char>,
    j: int,
)
    ensures
        match sequence::find_first(all, bound_node_named(node_id)) {
            Some(found) => exists|i: int|
                {
                    &&& 0 <= i < all.len()
                    &&& found == #[trigger] all[i]
                    &&& all[i].node_id == node_id
                    &&& 0 <= j < i ==> !(all[j].node_id == node_id)
                },
            None => 0 <= j < all.len() ==> !(all[j].node_id == node_id),
        },
{
    let p = bound_node_named(node_id);
    if 0 <= j < all.len() {
        assert(p(all[j]) <==> all[j].node_id == node_id);
    }
    if sequence::find_first(all, p) is Some {
        let i = sequence::lemma_find_first_some(all, p);
        assert(p(all[i]));
        assert(sequence::find_first(all, p)->Some_0 == all[i]);
    } else {
        sequence::lemma_find_none_all(all, p);
    }
}

/// A bound signal is found by its name: the first that has it, and none where none has.
pub proof fn bound_signals_are_found_by_name(
    all: Seq<VulkanSignalBindingView>,
    signal_id: Seq<char>,
    j: int,
)
    ensures
        match sequence::find_first(all, binds_signal(signal_id)) {
            Some(found) => exists|i: int|
                {
                    &&& 0 <= i < all.len()
                    &&& found == #[trigger] all[i]
                    &&& all[i].signal_id == signal_id
                    &&& 0 <= j < i ==> !(all[j].signal_id == signal_id)
                },
            None => 0 <= j < all.len() ==> !(all[j].signal_id == signal_id),
        },
{
    let p = binds_signal(signal_id);
    if 0 <= j < all.len() {
        assert(p(all[j]) <==> all[j].signal_id == signal_id);
    }
    if sequence::find_first(all, p) is Some {
        let i = sequence::lemma_find_first_some(all, p);
        assert(p(all[i]));
        assert(sequence::find_first(all, p)->Some_0 == all[i]);
    } else {
        sequence::lemma_find_none_all(all, p);
    }
}

/// A bound parameter is found by its name: the first that has it, and none where none has.
pub proof fn bound_parameters_are_found_by_name(
    all: Seq<VulkanParameterBindingView>,
    param_id: Seq<char>,
    j: int,
)
    ensures
        match sequence::find_first(all, binds_parameter(param_id)) {
            Some(found) => exists|i: int|
                {
                    &&& 0 <= i < all.len()
                    &&& found == #[trigger] all[i]
                    &&& all[i].param_id == param_id
                    &&& 0 <= j < i ==> !(all[j].param_id == param_id)
                },
            None => 0 <= j < all.len() ==> !(all[j].param_id == param_id),
        },
{
    let p = binds_parameter(param_id);
    if 0 <= j < all.len() {
        assert(p(all[j]) <==> all[j].param_id == param_id);
    }
    if sequence::find_first(all, p) is Some {
        let i = sequence::lemma_find_first_some(all, p);
        assert(p(all[i]));
        assert(sequence::find_first(all, p)->Some_0 == all[i]);
    } else {
        sequence::lemma_find_none_all(all, p);
    }
}

} // verus!
