//! Kernel interfaces and the dispatch commands made from them.

use crate::circuit_binding::VulkanCircuitBindingPlan;
use crate::circuit_binding::VulkanCircuitBindingPlanView;
use crate::circuit_binding::VulkanNodeBinding;
use crate::circuit_binding::VulkanNodeBindingView;
use crate::circuit_binding::VulkanParameterBinding;
use crate::circuit_binding::VulkanParameterBindingView;
use crate::circuit_binding::VulkanSignalBinding;
use crate::circuit_binding::VulkanSignalBindingView;
use crate::circuit_binding::VulkanSignalResource;
use crate::circuit_binding::VulkanStateBinding;
use crate::circuit_binding::VulkanStateBindingView;
use crate::circuit_binding::VulkanStreamCircuitBindingPlan;
use crate::circuit_binding::VulkanStreamCircuitBindingPlanView;
use crate::circuit_binding;
use crate::descriptor_resources::VulkanKernelDescriptorResource;
use crate::descriptor_resources::VulkanKernelDescriptorResourceView;
use crate::ordered::OrderedMap;
use crate::resident_plan::VULKAN_STREAM_CIRCUIT_BACKEND_ID;
use crate::sequence;
use crate::text::Message;
use crate::text;
use vstd::prelude::*;

verus! {

/// Where a scalar argument of a kernel comes from.
#[derive(Clone, Copy, Debug, PartialEq, Eq, Structural)]
pub enum VulkanKernelScalarSource {
    PushConstant,
}

impl DeepView for VulkanKernelScalarSource {
    type V = VulkanKernelScalarSource;

    open spec fn deep_view(&self) -> VulkanKernelScalarSource {
        *self
    }
}

/// A scalar argument of a kernel.
#[derive(Debug, PartialEq, Eq)]
pub struct VulkanKernelScalarBinding {
    pub name: String,
    pub scalar_type: String,
    pub source: VulkanKernelScalarSource,
}

#[verifier::ext_equal]
pub struct VulkanKernelScalarBindingView {
    pub name: Seq<char>,
    pub scalar_type: Seq<char>,
    pub source: VulkanKernelScalarSource,
}

impl DeepView for VulkanKernelScalarBinding {
    type V = VulkanKernelScalarBindingView;

    open spec fn deep_view(&self) -> VulkanKernelScalarBindingView {
        VulkanKernelScalarBindingView {
            name: self.name.deep_view(),
            scalar_type: self.scalar_type.deep_view(),
            source: self.source,
        }
    }
}

impl View for VulkanKernelScalarBinding {
    type V = VulkanKernelScalarBindingView;

    open spec fn view(&self) -> VulkanKernelScalarBindingView {
        self.deep_view()
    }
}

impl Clone for VulkanKernelScalarBinding {
    fn clone(&self) -> (r: Self)
        ensures
            r@ == self@,
    {
        VulkanKernelScalarBinding {
            name: self.name.clone(),
            scalar_type: self.scalar_type.clone(),
            source: self.source,
        }
    }
}

/// A scalar that is handed over as a push constant.
pub open spec fn pushed_scalar(name: Seq<char>, scalar_type: Seq<char>) -> VulkanKernelScalarBindingView {
    VulkanKernelScalarBindingView {
        name,
        scalar_type,
        source: VulkanKernelScalarSource::PushConstant,
    }
}

impl VulkanKernelScalarBinding {
    fn push_constant(name: &str, scalar_type: &str) -> (r: Self)
        ensures
            r@ == pushed_scalar(name@, scalar_type@),
    {
        VulkanKernelScalarBinding {
            name: name.to_owned(),
            scalar_type: scalar_type.to_owned(),
            source: VulkanKernelScalarSource::PushConstant,
        }
    }
}

/// What a kernel uses a descriptor for.
#[derive(Clone, Copy, Debug, PartialEq, Eq, Structural)]
pub enum VulkanKernelDescriptorUsage {
    InputSignal,
    OutputSignal,
    Parameter,
    StateRead,
    StateWrite,
    StateView,
}

impl DeepView for VulkanKernelDescriptorUsage {
    type V = VulkanKernelDescriptorUsage;

    open spec fn deep_view(&self) -> VulkanKernelDescriptorUsage {
        *self
    }
}

/// The scalars that tell a kernel where its stream stands.
#[derive(Debug, PartialEq, Eq)]
pub struct VulkanKernelStreamMetadata {
    pub stream_tick: VulkanKernelScalarBinding,
    pub control_flags: VulkanKernelScalarBinding,
    pub dynamic_state_capacity_activations: VulkanKernelScalarBinding,
    pub uses_stream_tick: bool,
    pub push_constants: Vec<VulkanKernelScalarBinding>,
}

#[verifier::ext_equal]
pub struct VulkanKernelStreamMetadataView {
    pub stream_tick: VulkanKernelScalarBindingView,
    pub control_flags: VulkanKernelScalarBindingView,
    pub dynamic_state_capacity_activations: VulkanKernelScalarBindingView,
    pub uses_stream_tick: bool,
    pub push_constants: Seq<VulkanKernelScalarBindingView>,
}

impl DeepView for VulkanKernelStreamMetadata {
    type V = VulkanKernelStreamMetadataView;

    open spec fn deep_view(&self) -> VulkanKernelStreamMetadataView {
        VulkanKernelStreamMetadataView {
            stream_tick: self.stream_tick.deep_view(),
            control_flags: self.control_flags.deep_view(),
            dynamic_state_capacity_activations: self.dynamic_state_capacity_activations.deep_view(),
            uses_stream_tick: self.uses_stream_tick,
            push_constants: self.push_constants.deep_view(),
        }
    }
}

impl View for VulkanKernelStreamMetadata {
    type V = VulkanKernelStreamMetadataView;

    open spec fn view(&self) -> VulkanKernelStreamMetadataView {
        self.deep_view()
    }
}

impl Clone for VulkanKernelStreamMetadata {
    fn clone(&self) -> (r: Self)
        ensures
            r@ == self@,
    {
        VulkanKernelStreamMetadata {
            stream_tick: self.stream_tick.clone(),
            control_flags: self.control_flags.clone(),
            dynamic_state_capacity_activations: self.dynamic_state_capacity_activations.clone(),
            uses_stream_tick: self.uses_stream_tick,
            push_constants: self.push_constants.clone(),
        }
    }
}

/// Whether an operation depends on the stream's position.
pub open spec fn reads_stream_tick(op: Seq<char>) -> bool {
    ||| op == "rotary_position_embedding"@
    ||| op == "parallel_head_norm_rope_2way"@
    ||| op == "append_state_update"@
    ||| op == "scaled_dot_product_attention"@
    ||| op == "append_scaled_dot_product_attention"@
    ||| op == "per_layer_embedding"@
    ||| op == "rg_lru_step"@
}

/// Whether an operation runs over a range of experts.
pub open spec fn runs_expert_range(op: Seq<char>) -> bool {
    op == "sparse_moe_gate_up"@ || op == "sparse_moe_down"@
}

/// The scalars of an operation.
pub open spec fn stream_metadata(op: Seq<char>) -> VulkanKernelStreamMetadataView {
    VulkanKernelStreamMetadataView {
        stream_tick: pushed_scalar("stream_tick"@, "u64"@),
        control_flags: pushed_scalar("control_flags"@, "u32"@),
        dynamic_state_capacity_activations: pushed_scalar(
            "dynamic_state_capacity_activations"@,
            "u32"@,
        ),
        uses_stream_tick: reads_stream_tick(op),
        push_constants: if runs_expert_range(op) {
            seq![pushed_scalar("expert_start"@, "u32"@)]
        } else {
            Seq::empty()
        },
    }
}

impl VulkanKernelStreamMetadata {
    fn for_op(op: &str) -> (r: Self)
        ensures
            r@ == stream_metadata(op@),
    {
        let uses_stream_tick = text::same(op, "rotary_position_embedding") || text::same(
            op,
            "parallel_head_norm_rope_2way",
        ) || text::same(op, "append_state_update") || text::same(
            op,
            "scaled_dot_product_attention",
        ) || text::same(op, "append_scaled_dot_product_attention") || text::same(
            op,
            "per_layer_embedding",
        ) || text::same(op, "rg_lru_step");
        let mut push_constants: Vec<VulkanKernelScalarBinding> = Vec::new();
        if text::same(op, "sparse_moe_gate_up") || text::same(op, "sparse_moe_down") {
            push_constants.push(VulkanKernelScalarBinding::push_constant("expert_start", "u32"));
        }
        assert(push_constants.deep_view() =~= stream_metadata(op@).push_constants);
        VulkanKernelStreamMetadata {
            stream_tick: VulkanKernelScalarBinding::push_constant("stream_tick", "u64"),
            control_flags: VulkanKernelScalarBinding::push_constant("control_flags", "u32"),
            dynamic_state_capacity_activations: VulkanKernelScalarBinding::push_constant(
                "dynamic_state_capacity_activations",
                "u32",
            ),
            uses_stream_tick,
            push_constants,
        }
    }

    /// The scalars that the kernel takes as push constants.
    pub fn push_constants(&self) -> (r: Vec<VulkanKernelScalarBinding>)
        ensures
            r.deep_view() == self@.push_constants,
    {
        copy_scalars(&self.push_constants)
    }
}

/// An exact copy of a list of scalars.
pub(crate) fn copy_scalars(scalars: &Vec<VulkanKernelScalarBinding>) -> (r: Vec<
    VulkanKernelScalarBinding,
>)
    ensures
        r.deep_view() == scalars.deep_view(),
{
    let copy: Vec<VulkanKernelScalarBinding> = scalars.clone();
    assert(copy.deep_view() =~= scalars.deep_view());
    copy
}

/// Equality of scalar lists.
#[verifier::loop_isolation(false)]
pub(crate) fn same_scalars(
    a: &Vec<VulkanKernelScalarBinding>,
    b: &Vec<VulkanKernelScalarBinding>,
) -> (r: bool)
    ensures
        r == (a.deep_view() == b.deep_view()),
{
    assert(a.deep_view().len() == a@.len() && b.deep_view().len() == b@.len());
    if a.len() != b.len() {
        return false;
    }
    let mut i: usize = 0;
    while i < a.len()
        invariant
            i <= a.len(),
            forall|j: int| 0 <= j < i ==> a.deep_view()[j] == b.deep_view()[j],
        decreases a.len() - i,
    {
        assert(a.deep_view()[i as int] == a@[i as int]@);
        assert(b.deep_view()[i as int] == b@[i as int]@);
        if a[i].name != b[i].name || a[i].scalar_type != b[i].scalar_type {
            return false;
        }
        i += 1;
    }
    assert(a.deep_view() =~= b.deep_view());
    true
}

/// What a kernel reads and writes.
#[derive(Debug, PartialEq, Eq)]
pub struct VulkanKernelInterface {
    pub kernel_id: String,
    pub component_id: String,
    pub node_index: usize,
    pub node_id: String,
    pub op: String,
    pub specialization: String,
    pub inputs: Vec<VulkanSignalBinding>,
    pub outputs: Vec<VulkanSignalBinding>,
    pub parameters: Vec<VulkanParameterBinding>,
    pub state_reads: Vec<VulkanStateBinding>,
    pub state_writes: Vec<VulkanStateBinding>,
    pub state_views: Vec<VulkanSignalBinding>,
    pub stream_metadata: VulkanKernelStreamMetadata,
}

#[verifier::ext_equal]
pub struct VulkanKernelInterfaceView {
    pub kernel_id: Seq<char>,
    pub component_id: Seq<char>,
    pub node_index: usize,
    pub node_id: Seq<char>,
    pub op: Seq<char>,
    pub specialization: Seq<char>,
    pub inputs: Seq<VulkanSignalBindingView>,
    pub outputs: Seq<VulkanSignalBindingView>,
    pub parameters: Seq<VulkanParameterBindingView>,
    pub state_reads: Seq<VulkanStateBindingView>,
    pub state_writes: Seq<VulkanStateBindingView>,
    pub state_views: Seq<VulkanSignalBindingView>,
    pub stream_metadata: VulkanKernelStreamMetadataView,
}

impl DeepView for VulkanKernelInterface {
    type V = VulkanKernelInterfaceView;

    open spec fn deep_view(&self) -> VulkanKernelInterfaceView {
        VulkanKernelInterfaceView {
            kernel_id: self.kernel_id.deep_view(),
            component_id: self.component_id.deep_view(),
            node_index: self.node_index,
            node_id: self.node_id.deep_view(),
            op: self.op.deep_view(),
            specialization: self.specialization.deep_view(),
            inputs: self.inputs.deep_view(),
            outputs: self.outputs.deep_view(),
            parameters: self.parameters.deep_view(),
            state_reads: self.state_reads.deep_view(),
            state_writes: self.state_writes.deep_view(),
            state_views: self.state_views.deep_view(),
            stream_metadata: self.stream_metadata.deep_view(),
        }
    }
}

impl View for VulkanKernelInterface {
    type V = VulkanKernelInterfaceView;

    open spec fn view(&self) -> VulkanKernelInterfaceView {
        self.deep_view()
    }
}

impl Clone for VulkanKernelInterface {
    fn clone(&self) -> (r: Self)
        ensures
            r@ == self@,
    {
        VulkanKernelInterface {
            kernel_id: self.kernel_id.clone(),
            component_id: self.component_id.clone(),
            node_index: self.node_index,
            node_id: self.node_id.clone(),
            op: self.op.clone(),
            specialization: self.specialization.clone(),
            inputs: self.inputs.clone(),
            outputs: self.outputs.clone(),
            parameters: self.parameters.clone(),
            state_reads: self.state_reads.clone(),
            state_writes: self.state_writes.clone(),
            state_views: self.state_views.clone(),
            stream_metadata: self.stream_metadata.clone(),
        }
    }
}

/// The state views among the signals.
pub open spec fn state_views(bindings: Seq<VulkanSignalBindingView>) -> Seq<VulkanSignalBindingView>
    decreases bindings.len(),
{
    if bindings.len() == 0 {
        Seq::empty()
    } else {
        let front = state_views(bindings.drop_last());
        if bindings.last().resource is StateView {
            front.push(bindings.last())
        } else {
            front
        }
    }
}

/// The interface of a node's kernel.
pub open spec fn kernel_of_node(
    component_id: Seq<char>,
    node: VulkanNodeBindingView,
) -> VulkanKernelInterfaceView {
    VulkanKernelInterfaceView {
        kernel_id: component_id + "."@ + node.node_id,
        component_id,
        node_index: node.node_index,
        node_id: node.node_id,
        op: node.op,
        specialization: node.specialization,
        inputs: node.inputs,
        outputs: node.outputs,
        parameters: node.parameters,
        state_reads: node.state_reads,
        state_writes: node.state_writes,
        state_views: state_views(node.inputs) + state_views(node.outputs),
        stream_metadata: stream_metadata(node.op),
    }
}

#[verifier::loop_isolation(false)]
fn list_state_views(bindings: &Vec<VulkanSignalBinding>) -> (r: Vec<VulkanSignalBinding>)
    ensures
        r.deep_view() == state_views(bindings.deep_view()),
{
    let ghost all = bindings.deep_view();
    let mut views: Vec<VulkanSignalBinding> = Vec::new();
    let mut i: usize = 0;
    assert(views.deep_view() =~= state_views(all.take(0)));
    while i < bindings.len()
        invariant
            i <= bindings.len(),
            views.deep_view() == state_views(all.take(i as int)),
        decreases bindings.len() - i,
    {
        assert(all.take(i + 1).drop_last() =~= all.take(i as int));
        assert(all[i as int] == bindings@[i as int]@);
        let ghost before = views.deep_view();
        match &bindings[i].resource {
            VulkanSignalResource::StateView { .. } => {
                views.push(bindings[i].clone());
                assert(views.deep_view() =~= before.push(all[i as int]));
            },
            _ => {},
        }
        i += 1;
    }
    assert(all.take(all.len() as int) =~= all);
    views
}

fn copy_signals(signals: &Vec<VulkanSignalBinding>) -> (r: Vec<VulkanSignalBinding>)
    ensures
        r.deep_view() == signals.deep_view(),
{
    let copy: Vec<VulkanSignalBinding> = signals.clone();
    assert(copy.deep_view() =~= signals.deep_view());
    copy
}

fn copy_states(states: &Vec<VulkanStateBinding>) -> (r: Vec<VulkanStateBinding>)
    ensures
        r.deep_view() == states.deep_view(),
{
    let copy: Vec<VulkanStateBinding> = states.clone();
    assert(copy.deep_view() =~= states.deep_view());
    copy
}

impl VulkanKernelInterface {
    fn from_node_binding(component_id: &String, node: &VulkanNodeBinding) -> (r: Self)
        ensures
            r@ == kernel_of_node(component_id@, node@),
    {
        let mut views: Vec<VulkanSignalBinding> = list_state_views(&node.inputs);
        let mut output_views: Vec<VulkanSignalBinding> = list_state_views(&node.outputs);
        let ghost first = views.deep_view();
        let ghost second = output_views.deep_view();
        views.append(&mut output_views);
        assert(views.deep_view() =~= first + second);
        let parameters: Vec<VulkanParameterBinding> = node.parameters.clone();
        assert(parameters.deep_view() =~= node.parameters.deep_view());
        VulkanKernelInterface {
            kernel_id: Message::new(component_id.as_str()).text(".").text(
                node.node_id.as_str(),
            ).done(),
            component_id: component_id.clone(),
            node_index: node.node_index,
            node_id: node.node_id.clone(),
            op: node.op.clone(),
            specialization: node.specialization.clone(),
            inputs: copy_signals(&node.inputs),
            outputs: copy_signals(&node.outputs),
            parameters,
            state_reads: copy_states(&node.state_reads),
            state_writes: copy_states(&node.state_writes),
            state_views: views,
            stream_metadata: VulkanKernelStreamMetadata::for_op(node.op.as_str()),
        }
    }
}

/// The kernels of a circuit.
#[derive(Debug, PartialEq, Eq)]
pub struct VulkanCircuitKernelInterface {
    pub component_id: String,
    pub circuit_id: String,
    pub kernels: Vec<VulkanKernelInterface>,
}

#[verifier::ext_equal]
pub struct VulkanCircuitKernelInterfaceView {
    pub component_id: Seq<char>,
    pub circuit_id: Seq<char>,
    pub kernels: Seq<VulkanKernelInterfaceView>,
}

impl DeepView for VulkanCircuitKernelInterface {
    type V = VulkanCircuitKernelInterfaceView;

    open spec fn deep_view(&self) -> VulkanCircuitKernelInterfaceView {
        VulkanCircuitKernelInterfaceView {
            component_id: self.component_id.deep_view(),
            circuit_id: self.circuit_id.deep_view(),
            kernels: self.kernels.deep_view(),
        }
    }
}

impl View for VulkanCircuitKernelInterface {
    type V = VulkanCircuitKernelInterfaceView;

    open spec fn view(&self) -> VulkanCircuitKernelInterfaceView {
        self.deep_view()
    }
}

impl Clone for VulkanCircuitKernelInterface {
    fn clone(&self) -> (r: Self)
        ensures
            r@ == self@,
    {
        VulkanCircuitKernelInterface {
            component_id: self.component_id.clone(),
            circuit_id: self.circuit_id.clone(),
            kernels: self.kernels.clone(),
        }
    }
}

/// The kernels of a bound circuit.
pub open spec fn kernels_of_circuit(
    circuit: VulkanCircuitBindingPlanView,
) -> VulkanCircuitKernelInterfaceView {
    VulkanCircuitKernelInterfaceView {
        component_id: circuit.component_id,
        circuit_id: circuit.circuit_id,
        kernels: Seq::new(
            circuit.nodes.len(),
            |i: int| kernel_of_node(circuit.component_id, circuit.nodes[i]),
        ),
    }
}

/// Whether a kernel is that of a node.
pub open spec fn kernel_named(node_id: Seq<char>) -> spec_fn(VulkanKernelInterfaceView) -> bool {
    |kernel: VulkanKernelInterfaceView| kernel.node_id == node_id
}

/// Whether a circuit is that of a component.
pub open spec fn interface_of(component_id: Seq<char>) -> spec_fn(
    VulkanCircuitKernelInterfaceView,
) -> bool {
    |circuit: VulkanCircuitKernelInterfaceView| circuit.component_id == component_id
}

impl VulkanCircuitKernelInterface {
    #[verifier::loop_isolation(false)]
    fn from_binding_plan(circuit: &VulkanCircuitBindingPlan) -> (r: Self)
        ensures
            r@ == kernels_of_circuit(circuit@),
    {
        let ghost goal = kernels_of_circuit(circuit@).kernels;
        let mut kernels: Vec<VulkanKernelInterface> = Vec::new();
        let mut i: usize = 0;
        while i < circuit.nodes.len()
            invariant
                i <= circuit.nodes.len(),
                kernels@.len() == i,
                forall|j: int| 0 <= j < i ==> (#[trigger] kernels.deep_view()[j]) == goal[j],
            decreases circuit.nodes.len() - i,
        {
            let ghost before = kernels.deep_view();
            assert(circuit@.nodes[i as int] == circuit.nodes@[i as int]@);
            kernels.push(
                VulkanKernelInterface::from_node_binding(&circuit.component_id, &circuit.nodes[i]),
            );
            assert(kernels.deep_view() =~= before.push(goal[i as int]));
            i += 1;
        }
        assert(kernels.deep_view() =~= goal);
        VulkanCircuitKernelInterface {
            component_id: circuit.component_id.clone(),
            circuit_id: circuit.circuit_id.clone(),
            kernels,
        }
    }

    /// The kernel of a node.
    #[verifier::loop_isolation(false)]
    pub fn kernel(&self, node_id: &str) -> (r: Option<&VulkanKernelInterface>)
        ensures
            r.deep_view() == sequence::find_first(self@.kernels, kernel_named(node_id@)),
    {
        let ghost all = self@.kernels;
        let ghost p = kernel_named(node_id@);
        let mut i: usize = 0;
        while i < self.kernels.len()
            invariant
                i <= self.kernels.len(),
                forall|j: int| 0 <= j < i ==> !p(#[trigger] all[j]),
            decreases self.kernels.len() - i,
        {
            assert(all[i as int] == self.kernels@[i as int]@);
            if text::same(self.kernels[i].node_id.as_str(), node_id) {
                proof {
                    sequence::lemma_find_first_at(all, p, i as int);
                }
                return Some(&self.kernels[i]);
            }
            i += 1;
        }
        proof {
            sequence::lemma_find_first_none(all, p);
        }
        None
    }
}

/// The kernels of a stream.
#[derive(Debug, PartialEq, Eq)]
pub struct VulkanKernelInterfacePlan {
    pub backend_id: String,
    pub circuits: Vec<VulkanCircuitKernelInterface>,
}

#[verifier::ext_equal]
pub struct VulkanKernelInterfacePlanView {
    pub backend_id: Seq<char>,
    pub circuits: Seq<VulkanCircuitKernelInterfaceView>,
}

impl DeepView for VulkanKernelInterfacePlan {
    type V = VulkanKernelInterfacePlanView;

    open spec fn deep_view(&self) -> VulkanKernelInterfacePlanView {
        VulkanKernelInterfacePlanView {
            backend_id: self.backend_id.deep_view(),
            circuits: self.circuits.deep_view(),
        }
    }
}

impl View for VulkanKernelInterfacePlan {
    type V = VulkanKernelInterfacePlanView;

    open spec fn view(&self) -> VulkanKernelInterfacePlanView {
        self.deep_view()
    }
}

impl Clone for VulkanKernelInterfacePlan {
    fn clone(&self) -> (r: Self)
        ensures
            r@ == self@,
    {
        VulkanKernelInterfacePlan {
            backend_id: self.backend_id.clone(),
            circuits: self.circuits.clone(),
        }
    }
}

/// The kernels of a bound stream.
pub open spec fn kernel_interfaces(
    plan: VulkanStreamCircuitBindingPlanView,
) -> VulkanKernelInterfacePlanView {
    VulkanKernelInterfacePlanView {
        backend_id: VULKAN_STREAM_CIRCUIT_BACKEND_ID@,
        circuits: Seq::new(plan.circuits.len(), |i: int| kernels_of_circuit(plan.circuits[i])),
    }
}

/// The number of kernels of a circuit.
pub open spec fn kernel_count() -> spec_fn(VulkanCircuitKernelInterfaceView) -> nat {
    |circuit: VulkanCircuitKernelInterfaceView| circuit.kernels.len()
}

/// The number of kernels of a stream.
pub open spec fn kernel_total(plan: VulkanKernelInterfacePlanView) -> nat {
    sequence::total(plan.circuits, kernel_count())
}

impl VulkanKernelInterfacePlan {
    /// The kernels of a bound stream.
    #[verifier::loop_isolation(false)]
    pub fn from_binding_plan(binding_plan: &VulkanStreamCircuitBindingPlan) -> (r: Self)
        ensures
            r@ == kernel_interfaces(binding_plan@),
    {
        let ghost goal = kernel_interfaces(binding_plan@).circuits;
        let mut circuits: Vec<VulkanCircuitKernelInterface> = Vec::new();
        let mut i: usize = 0;
        while i < binding_plan.circuits.len()
            invariant
                i <= binding_plan.circuits.len(),
                circuits@.len() == i,
                forall|j: int| 0 <= j < i ==> (#[trigger] circuits.deep_view()[j]) == goal[j],
            decreases binding_plan.circuits.len() - i,
        {
            let ghost before = circuits.deep_view();
            assert(binding_plan@.circuits[i as int] == binding_plan.circuits@[i as int]@);
            circuits.push(
                VulkanCircuitKernelInterface::from_binding_plan(&binding_plan.circuits[i]),
            );
            assert(circuits.deep_view() =~= before.push(goal[i as int]));
            i += 1;
        }
        assert(circuits.deep_view() =~= goal);
        VulkanKernelInterfacePlan {
            backend_id: VULKAN_STREAM_CIRCUIT_BACKEND_ID.to_owned(),
            circuits,
        }
    }

    /// The number of kernels.
    #[verifier::loop_isolation(false)]
    pub fn total_kernel_count(&self) -> (r: usize)
        requires
            kernel_total(self@) <= usize::MAX,
        ensures
            r == kernel_total(self@),
    {
        let ghost all = self@.circuits;
        let ghost f = kernel_count();
        let mut total: usize = 0;
        let mut i: usize = 0;
        assert(all.take(0) =~= Seq::empty());
        while i < self.circuits.len()
            invariant
                i <= self.circuits.len(),
                total == sequence::total(all.take(i as int), f),
            decreases self.circuits.len() - i,
        {
            proof {
                sequence::lemma_total_step(all, f, i as int);
                sequence::lemma_total_prefix(all, f, i + 1);
                assert(all[i as int] == self.circuits@[i as int]@);
                assert(all[i as int].kernels.len() == self.circuits@[i as int].kernels@.len());
            }
            total = total + self.circuits[i].kernels.len();
            i += 1;
        }
        assert(all.take(all.len() as int) =~= all);
        total
    }

    /// The kernel of a component's node.
    #[verifier::loop_isolation(false)]
    pub fn kernel(&self, component_id: &str, node_id: &str) -> (r: Option<&VulkanKernelInterface>)
        ensures
            r.deep_view() == (match sequence::find_first(
                self@.circuits,
                interface_of(component_id@),
            ) {
                Some(circuit) => sequence::find_first(circuit.kernels, kernel_named(node_id@)),
                None => None,
            }),
    {
        let ghost all = self@.circuits;
        let ghost p = interface_of(component_id@);
        let mut i: usize = 0;
        while i < self.circuits.len()
            invariant
                i <= self.circuits.len(),
                forall|j: int| 0 <= j < i ==> !p(#[trigger] all[j]),
            decreases self.circuits.len() - i,
        {
            assert(all[i as int] == self.circuits@[i as int]@);
            if text::same(self.circuits[i].component_id.as_str(), component_id) {
                proof {
                    sequence::lemma_find_first_at(all, p, i as int);
                }
                return self.circuits[i].kernel(node_id);
            }
            i += 1;
        }
        proof {
            sequence::lemma_find_first_none(all, p);
        }
        None
    }
}

// ---------------------------------------------------------------------------
// Dispatch commands
// ---------------------------------------------------------------------------

/// A numbered descriptor of a kernel.
#[derive(Debug, PartialEq, Eq)]
pub struct VulkanKernelDescriptorBinding {
    pub binding: usize,
    pub usage: VulkanKernelDescriptorUsage,
    pub name: String,
    pub resource: VulkanKernelDescriptorResource,
}

#[verifier::ext_equal]
pub struct VulkanKernelDescriptorBindingView {
    pub binding: usize,
    pub usage: VulkanKernelDescriptorUsage,
    pub name: Seq<char>,
    pub resource: VulkanKernelDescriptorResourceView,
}

impl DeepView for VulkanKernelDescriptorBinding {
    type V = VulkanKernelDescriptorBindingView;

    open spec fn deep_view(&self) -> VulkanKernelDescriptorBindingView {
        VulkanKernelDescriptorBindingView {
            binding: self.binding,
            usage: self.usage,
            name: self.name.deep_view(),
            resource: self.resource.deep_view(),
        }
    }
}

impl View for VulkanKernelDescriptorBinding {
    type V = VulkanKernelDescriptorBindingView;

    open spec fn view(&self) -> VulkanKernelDescriptorBindingView {
        self.deep_view()
    }
}

impl Clone for VulkanKernelDescriptorBinding {
    fn clone(&self) -> (r: Self)
        ensures
            r@ == self@,
    {
        VulkanKernelDescriptorBinding {
            binding: self.binding,
            usage: self.usage,
            name: self.name.clone(),
            resource: self.resource.clone(),
        }
    }
}

/// The launch of a kernel.
#[derive(Debug, PartialEq, Eq)]
pub struct VulkanKernelDispatchCommand {
    pub dispatch_index: usize,
    pub circuit_index: usize,
    pub kernel_id: String,
    pub component_id: String,
    pub circuit_id: String,
    pub node_index: usize,
    pub node_id: String,
    pub op: String,
    pub specialization: String,
    pub descriptor_bindings: Vec<VulkanKernelDescriptorBinding>,
    pub push_constants: Vec<VulkanKernelScalarBinding>,
    pub uses_stream_tick: bool,
}

#[verifier::ext_equal]
pub struct VulkanKernelDispatchCommandView {
    pub dispatch_index: usize,
    pub circuit_index: usize,
    pub kernel_id: Seq<char>,
    pub component_id: Seq<char>,
    pub circuit_id: Seq<char>,
    pub node_index: usize,
    pub node_id: Seq<char>,
    pub op: Seq<char>,
    pub specialization: Seq<char>,
    pub descriptor_bindings: Seq<VulkanKernelDescriptorBindingView>,
    pub push_constants: Seq<VulkanKernelScalarBindingView>,
    pub uses_stream_tick: bool,
}

impl DeepView for VulkanKernelDispatchCommand {
    type V = VulkanKernelDispatchCommandView;

    open spec fn deep_view(&self) -> VulkanKernelDispatchCommandView {
        VulkanKernelDispatchCommandView {
            dispatch_index: self.dispatch_index,
            circuit_index: self.circuit_index,
            kernel_id: self.kernel_id.deep_view(),
            component_id: self.component_id.deep_view(),
            circuit_id: self.circuit_id.deep_view(),
            node_index: self.node_index,
            node_id: self.node_id.deep_view(),
            op: self.op.deep_view(),
            specialization: self.specialization.deep_view(),
            descriptor_bindings: self.descriptor_bindings.deep_view(),
            push_constants: self.push_constants.deep_view(),
            uses_stream_tick: self.uses_stream_tick,
        }
    }
}

impl View for VulkanKernelDispatchCommand {
    type V = VulkanKernelDispatchCommandView;

    open spec fn view(&self) -> VulkanKernelDispatchCommandView {
        self.deep_view()
    }
}

impl Clone for VulkanKernelDispatchCommand {
    fn clone(&self) -> (r: Self)
        ensures
            r@ == self@,
    {
        VulkanKernelDispatchCommand {
            dispatch_index: self.dispatch_index,
            circuit_index: self.circuit_index,
            kernel_id: self.kernel_id.clone(),
            component_id: self.component_id.clone(),
            circuit_id: self.circuit_id.clone(),
            node_index: self.node_index,
            node_id: self.node_id.clone(),
            op: self.op.clone(),
            specialization: self.specialization.clone(),
            descriptor_bindings: self.descriptor_bindings.clone(),
            push_constants: self.push_constants.clone(),
            uses_stream_tick: self.uses_stream_tick,
        }
    }
}

/// The launches of a stream, in order.
#[derive(Debug, PartialEq, Eq)]
pub struct VulkanKernelDispatchPlan {
    pub backend_id: String,
    pub commands: Vec<VulkanKernelDispatchCommand>,
}

#[verifier::ext_equal]
pub struct VulkanKernelDispatchPlanView {
    pub backend_id: Seq<char>,
    pub commands: Seq<VulkanKernelDispatchCommandView>,
}

impl DeepView for VulkanKernelDispatchPlan {
    type V = VulkanKernelDispatchPlanView;

    open spec fn deep_view(&self) -> VulkanKernelDispatchPlanView {
        VulkanKernelDispatchPlanView {
            backend_id: self.backend_id.deep_view(),
            commands: self.commands.deep_view(),
        }
    }
}

impl View for VulkanKernelDispatchPlan {
    type V = VulkanKernelDispatchPlanView;

    open spec fn view(&self) -> VulkanKernelDispatchPlanView {
        self.deep_view()
    }
}

impl Clone for VulkanKernelDispatchPlan {
    fn clone(&self) -> (r: Self)
        ensures
            r@ == self@,
    {
        VulkanKernelDispatchPlan {
            backend_id: self.backend_id.clone(),
            commands: self.commands.clone(),
        }
    }
}

/// A descriptor before it is numbered.
pub type Unnumbered = (VulkanKernelDescriptorUsage, Seq<char>, VulkanKernelDescriptorResourceView);

/// Signals as descriptors.
pub open spec fn signal_descriptors(
    usage: VulkanKernelDescriptorUsage,
    signals: Seq<VulkanSignalBindingView>,
) -> Seq<Unnumbered> {
    Seq::new(
        signals.len(),
        |i: int|
            (
                usage,
                signals[i].signal_id,
                VulkanKernelDescriptorResourceView::Signal(signals[i]),
            ),
    )
}

/// Parameters as descriptors.
pub open spec fn parameter_descriptors(parameters: Seq<VulkanParameterBindingView>) -> Seq<
    Unnumbered,
> {
    Seq::new(
        parameters.len(),
        |i: int|
            (
                VulkanKernelDescriptorUsage::Parameter,
                parameters[i].param_id,
                VulkanKernelDescriptorResourceView::Parameter(parameters[i]),
            ),
    )
}

/// States as descriptors.
pub open spec fn state_descriptors(
    usage: VulkanKernelDescriptorUsage,
    states: Seq<VulkanStateBindingView>,
) -> Seq<Unnumbered> {
    Seq::new(
        states.len(),
        |i: int|
            (
                usage,
                states[i].state_id,
                VulkanKernelDescriptorResourceView::State {
                    component_id: states[i].component_id,
                    binding: states[i],
                },
            ),
    )
}

/// The descriptors of a kernel: inputs, outputs, parameters, states read, states written, state
/// views.
pub open spec fn kernel_descriptors(kernel: VulkanKernelInterfaceView) -> Seq<Unnumbered> {
    signal_descriptors(VulkanKernelDescriptorUsage::InputSignal, kernel.inputs)
        + signal_descriptors(VulkanKernelDescriptorUsage::OutputSignal, kernel.outputs)
        + parameter_descriptors(kernel.parameters) + state_descriptors(
        VulkanKernelDescriptorUsage::StateRead,
        kernel.state_reads,
    ) + state_descriptors(VulkanKernelDescriptorUsage::StateWrite, kernel.state_writes)
        + signal_descriptors(VulkanKernelDescriptorUsage::StateView, kernel.state_views)
}

/// Descriptors, numbered in order.
pub open spec fn numbered(descriptors: Seq<Unnumbered>) -> Seq<VulkanKernelDescriptorBindingView> {
    Seq::new(
        descriptors.len(),
        |i: int|
            VulkanKernelDescriptorBindingView {
                binding: i as usize,
                usage: descriptors[i].0,
                name: descriptors[i].1,
                resource: descriptors[i].2,
            },
    )
}

/// The launch of a kernel.
pub open spec fn command_of_kernel(
    dispatch_index: int,
    circuit_index: int,
    circuit_id: Seq<char>,
    kernel: VulkanKernelInterfaceView,
) -> VulkanKernelDispatchCommandView {
    VulkanKernelDispatchCommandView {
        dispatch_index: dispatch_index as usize,
        circuit_index: circuit_index as usize,
        kernel_id: kernel.kernel_id,
        component_id: kernel.component_id,
        circuit_id,
        node_index: kernel.node_index,
        node_id: kernel.node_id,
        op: kernel.op,
        specialization: kernel.specialization,
        descriptor_bindings: numbered(kernel_descriptors(kernel)),
        push_constants: kernel.stream_metadata.push_constants,
        uses_stream_tick: kernel.stream_metadata.uses_stream_tick,
    }
}

/// The launches of the first `n` circuits.
pub open spec fn commands_of(circuits: Seq<VulkanCircuitKernelInterfaceView>, n: nat) -> Seq<
    VulkanKernelDispatchCommandView,
>
    decreases n,
{
    if n == 0 {
        Seq::empty()
    } else {
        let front = commands_of(circuits, (n - 1) as nat);
        let circuit = circuits[n - 1];
        front + Seq::new(
            circuit.kernels.len(),
            |k: int|
                command_of_kernel(front.len() + k, n - 1, circuit.circuit_id, circuit.kernels[k]),
        )
    }
}

/// The launches of a stream.
pub open spec fn dispatch_commands(
    plan: VulkanKernelInterfacePlanView,
) -> VulkanKernelDispatchPlanView {
    VulkanKernelDispatchPlanView {
        backend_id: VULKAN_STREAM_CIRCUIT_BACKEND_ID@,
        commands: commands_of(plan.circuits, plan.circuits.len()),
    }
}

/// Launches are numbered in order.
pub proof fn dispatch_indices_are_consecutive(plan: VulkanKernelInterfacePlanView, i: int)
    requires
        0 <= i < dispatch_commands(plan).commands.len() <= usize::MAX,
    ensures
        dispatch_commands(plan).commands[i].dispatch_index == i,
{
    lemma_commands_numbered(plan.circuits, plan.circuits.len(), i);
}

proof fn lemma_commands_numbered(
    circuits: Seq<VulkanCircuitKernelInterfaceView>,
    n: nat,
    i: int,
)
    requires
        0 <= i < commands_of(circuits, n).len() <= usize::MAX,
    ensures
        commands_of(circuits, n)[i].dispatch_index == i,
    decreases n,
{
    if n > 0 {
        let front = commands_of(circuits, (n - 1) as nat);
        if i < front.len() {
            lemma_commands_numbered(circuits, (n - 1) as nat, i);
        }
    }
}

proof fn lemma_commands_counted(circuits: Seq<VulkanCircuitKernelInterfaceView>, n: nat)
    requires
        n <= circuits.len(),
    ensures
        commands_of(circuits, n).len() == sequence::total(circuits.take(n as int), kernel_count()),
    decreases n,
{
    if n > 0 {
        lemma_commands_counted(circuits, (n - 1) as nat);
        assert(circuits.take(n as int).drop_last() =~= circuits.take(n - 1));
    }
}

proof fn lemma_commands_kept(circuits: Seq<VulkanCircuitKernelInterfaceView>, n: nat, m: nat)
    requires
        n <= m,
    ensures
        commands_of(circuits, n).is_prefix_of(commands_of(circuits, m)),
    decreases m,
{
    if n < m {
        lemma_commands_kept(circuits, n, (m - 1) as nat);
        assert(commands_of(circuits, m).take(commands_of(circuits, n).len() as int)
            =~= commands_of(circuits, (m - 1) as nat).take(commands_of(circuits, n).len() as int));
    }
    assert(commands_of(circuits, m).take(commands_of(circuits, n).len() as int)
        =~= commands_of(circuits, n));
}

/// Launches go circuit by circuit. A circuit's launches follow those of the circuits before it, one
/// for each of its kernels and in their order, and nothing else is launched.
pub proof fn launches_follow_the_circuits(plan: VulkanKernelInterfacePlanView, c: int, k: int)
    requires
        0 <= c < plan.circuits.len(),
        0 <= k < plan.circuits[c].kernels.len(),
    ensures
        ({
            let commands = dispatch_commands(plan).commands;
            let start = sequence::total(plan.circuits.take(c), kernel_count());
            let circuit = plan.circuits[c];
            &&& commands.len() == sequence::total(plan.circuits, kernel_count())
            &&& start + k < commands.len()
            &&& commands[start + k] == command_of_kernel(
                start + k,
                c,
                circuit.circuit_id,
                circuit.kernels[k],
            )
        }),
{
    let n = plan.circuits.len();
    lemma_commands_counted(plan.circuits, n);
    lemma_commands_counted(plan.circuits, c as nat);
    assert(plan.circuits.take(n as int) =~= plan.circuits);
    lemma_commands_kept(plan.circuits, (c + 1) as nat, n);
    let start = commands_of(plan.circuits, c as nat).len();
    let front = commands_of(plan.circuits, (c + 1) as nat);
    assert(front[start + k] == command_of_kernel(
        start + k,
        c,
        plan.circuits[c].circuit_id,
        plan.circuits[c].kernels[k],
    ));
    assert(front[start + k] == commands_of(plan.circuits, n)[start + k]);
}

proof fn lemma_kernels_match_nodes(plan: VulkanStreamCircuitBindingPlanView, n: nat)
    requires
        n <= plan.circuits.len(),
    ensures
        sequence::total(kernel_interfaces(plan).circuits.take(n as int), kernel_count())
            == sequence::total(plan.circuits.take(n as int), circuit_binding::node_count()),
    decreases n,
{
    let kernels = kernel_interfaces(plan).circuits;
    if n > 0 {
        lemma_kernels_match_nodes(plan, (n - 1) as nat);
        sequence::lemma_total_step(kernels, kernel_count(), n - 1);
        sequence::lemma_total_step(plan.circuits, circuit_binding::node_count(), n - 1);
    } else {
        assert(kernels.take(0) =~= Seq::empty());
        assert(plan.circuits.take(0) =~= Seq::empty());
    }
}

/// Every node of a bound stream has one launch, and there is no other: the nodes are launched
/// circuit by circuit, in their order. A launch carries the names of its node.
pub proof fn every_node_is_launched(plan: VulkanStreamCircuitBindingPlanView, c: int, n: int)
    requires
        0 <= c < plan.circuits.len(),
        0 <= n < plan.circuits[c].nodes.len(),
        circuit_binding::node_total(plan) <= usize::MAX,
        plan.circuits.len() <= usize::MAX,
    ensures
        ({
            let commands = dispatch_commands(kernel_interfaces(plan)).commands;
            let index = sequence::total(plan.circuits.take(c), circuit_binding::node_count()) + n;
            let node = plan.circuits[c].nodes[n];
            &&& commands.len() == circuit_binding::node_total(plan)
            &&& index < commands.len()
            &&& commands[index].dispatch_index == index
            &&& commands[index].circuit_index == c
            &&& commands[index].circuit_id == plan.circuits[c].circuit_id
            &&& commands[index].component_id == plan.circuits[c].component_id
            &&& commands[index].kernel_id == plan.circuits[c].component_id + "."@ + node.node_id
            &&& commands[index].node_index == node.node_index
            &&& commands[index].node_id == node.node_id
            &&& commands[index].op == node.op
            &&& commands[index].specialization == node.specialization
        }),
{
    let interfaces = kernel_interfaces(plan);
    launches_follow_the_circuits(interfaces, c, n);
    lemma_kernels_match_nodes(plan, c as nat);
    lemma_kernels_match_nodes(plan, plan.circuits.len());
    assert(plan.circuits.take(plan.circuits.len() as int) =~= plan.circuits);
    assert(interfaces.circuits.take(plan.circuits.len() as int) =~= interfaces.circuits);
}

/// The launches that depend on the stream's position use the stream tick: those of rotary
/// embeddings, of fused head norms with rotary embeddings, of appended states, of attention, of
/// attention over appended states, of per-layer embeddings and of recurrent units. No other launch
/// uses it.
pub proof fn position_dependent_launches_use_the_stream_tick(
    plan: VulkanStreamCircuitBindingPlanView,
    c: int,
    n: int,
)
    requires
        0 <= c < plan.circuits.len(),
        0 <= n < plan.circuits[c].nodes.len(),
        circuit_binding::node_total(plan) <= usize::MAX,
        plan.circuits.len() <= usize::MAX,
    ensures
        ({
            let commands = dispatch_commands(kernel_interfaces(plan)).commands;
            let index = sequence::total(plan.circuits.take(c), circuit_binding::node_count()) + n;
            let op = plan.circuits[c].nodes[n].op;
            &&& op == "rotary_position_embedding"@ ==> commands[index].uses_stream_tick
            &&& op == "parallel_head_norm_rope_2way"@ ==> commands[index].uses_stream_tick
            &&& op == "append_state_update"@ ==> commands[index].uses_stream_tick
            &&& op == "scaled_dot_product_attention"@ ==> commands[index].uses_stream_tick
            &&& op == "append_scaled_dot_product_attention"@ ==> commands[index].uses_stream_tick
            &&& op == "per_layer_embedding"@ ==> commands[index].uses_stream_tick
            &&& op == "rg_lru_step"@ ==> commands[index].uses_stream_tick
            &&& commands[index].uses_stream_tick ==> {
                ||| op == "rotary_position_embedding"@
                ||| op == "parallel_head_norm_rope_2way"@
                ||| op == "append_state_update"@
                ||| op == "scaled_dot_product_attention"@
                ||| op == "append_scaled_dot_product_attention"@
                ||| op == "per_layer_embedding"@
                ||| op == "rg_lru_step"@
            }
        }),
{
    launches_follow_the_circuits(kernel_interfaces(plan), c, n);
    lemma_kernels_match_nodes(plan, c as nat);
}

/// The launches of sparse experts take one push constant, the first expert of their range, as a
/// word. No other launch takes any.
pub proof fn expert_launches_take_their_first_expert(
    plan: VulkanStreamCircuitBindingPlanView,
    c: int,
    n: int,
)
    requires
        0 <= c < plan.circuits.len(),
        0 <= n < plan.circuits[c].nodes.len(),
        circuit_binding::node_total(plan) <= usize::MAX,
        plan.circuits.len() <= usize::MAX,
    ensures
        ({
            let commands = dispatch_commands(kernel_interfaces(plan)).commands;
            let index = sequence::total(plan.circuits.take(c), circuit_binding::node_count()) + n;
            let op = plan.circuits[c].nodes[n].op;
            let scalars = commands[index].push_constants;
            let one = {
                &&& scalars.len() == 1
                &&& scalars[0].name == "expert_start"@
                &&& scalars[0].scalar_type == "u32"@
                &&& scalars[0].source == VulkanKernelScalarSource::PushConstant
            };
            &&& op == "sparse_moe_gate_up"@ ==> one
            &&& op == "sparse_moe_down"@ ==> one
            &&& op != "sparse_moe_gate_up"@ && op != "sparse_moe_down"@ ==> scalars.len() == 0
        }),
{
    launches_follow_the_circuits(kernel_interfaces(plan), c, n);
    lemma_kernels_match_nodes(plan, c as nat);
}

proof fn lemma_views_are_signals(signals: Seq<VulkanSignalBindingView>, k: int)
    requires
        0 <= k < state_views(signals).len(),
    ensures
        state_views(signals)[k].resource is StateView,
        signals.contains(state_views(signals)[k]),
    decreases signals.len(),
{
    let front = state_views(signals.drop_last());
    if k < front.len() {
        lemma_views_are_signals(signals.drop_last(), k);
        let i = choose|i: int|
            0 <= i < signals.drop_last().len() && #[trigger] signals.drop_last()[i] == front[k];
        assert(signals[i] == front[k]);
    } else {
        assert(signals[signals.len() - 1] == state_views(signals)[k]);
    }
}

proof fn lemma_signals_are_viewed(signals: Seq<VulkanSignalBindingView>, i: int)
    requires
        0 <= i < signals.len(),
        signals[i].resource is StateView,
    ensures
        state_views(signals).contains(signals[i]),
    decreases signals.len(),
{
    let front = state_views(signals.drop_last());
    if i < signals.len() - 1 {
        lemma_signals_are_viewed(signals.drop_last(), i);
        let k = choose|k: int| 0 <= k < front.len() && #[trigger] front[k] == signals[i];
        assert(state_views(signals)[k] == signals[i]);
    } else {
        assert(state_views(signals)[front.len() as int] == signals[i]);
    }
}

/// A launch binds what its node uses, each thing under the usage that the node has for it: first
/// the input signals, behind them the output signals, the parameters, the states read and the
/// states written, in the node's order. The descriptors are numbered from zero on.
pub proof fn launches_bind_what_their_node_uses(
    plan: VulkanStreamCircuitBindingPlanView,
    c: int,
    n: int,
    i: int,
)
    requires
        0 <= c < plan.circuits.len(),
        0 <= n < plan.circuits[c].nodes.len(),
        circuit_binding::node_total(plan) <= usize::MAX,
        plan.circuits.len() <= usize::MAX,
        0 <= i < usize::MAX,
    ensures
        ({
            let commands = dispatch_commands(kernel_interfaces(plan)).commands;
            let index = sequence::total(plan.circuits.take(c), circuit_binding::node_count()) + n;
            let node = plan.circuits[c].nodes[n];
            let bindings = commands[index].descriptor_bindings;
            let outputs = node.inputs.len();
            let parameters = outputs + node.outputs.len();
            let reads = parameters + node.parameters.len();
            let writes = reads + node.state_reads.len();
            let views = writes + node.state_writes.len();
            &&& views <= bindings.len()
            &&& i < bindings.len() ==> bindings[i].binding == i
            &&& i < node.inputs.len() ==> {
                &&& bindings[i].usage == VulkanKernelDescriptorUsage::InputSignal
                &&& bindings[i].name == node.inputs[i].signal_id
                &&& bindings[i].resource == VulkanKernelDescriptorResourceView::Signal(
                    node.inputs[i],
                )
            }
            &&& i < node.outputs.len() ==> {
                &&& bindings[outputs + i].usage == VulkanKernelDescriptorUsage::OutputSignal
                &&& bindings[outputs + i].name == node.outputs[i].signal_id
                &&& bindings[outputs + i].resource == VulkanKernelDescriptorResourceView::Signal(
                    node.outputs[i],
                )
            }
            &&& i < node.parameters.len() ==> {
                &&& bindings[parameters + i].usage == VulkanKernelDescriptorUsage::Parameter
                &&& bindings[parameters + i].name == node.parameters[i].param_id
                &&& bindings[parameters + i].resource
                    == VulkanKernelDescriptorResourceView::Parameter(node.parameters[i])
            }
            &&& i < node.state_reads.len() ==> {
                &&& bindings[reads + i].usage == VulkanKernelDescriptorUsage::StateRead
                &&& bindings[reads + i].name == node.state_reads[i].state_id
                &&& bindings[reads + i].resource == (VulkanKernelDescriptorResourceView::State {
                    component_id: node.state_reads[i].component_id,
                    binding: node.state_reads[i],
                })
            }
            &&& i < node.state_writes.len() ==> {
                &&& bindings[writes + i].usage == VulkanKernelDescriptorUsage::StateWrite
                &&& bindings[writes + i].name == node.state_writes[i].state_id
                &&& bindings[writes + i].resource == (VulkanKernelDescriptorResourceView::State {
                    component_id: node.state_writes[i].component_id,
                    binding: node.state_writes[i],
                })
            }
        }),
{
    launches_follow_the_circuits(kernel_interfaces(plan), c, n);
    lemma_kernels_match_nodes(plan, c as nat);
}

/// Behind everything else a launch binds the signals of its node that are views of a state, all of
/// them and no other signal.
pub proof fn launches_bind_their_state_views(
    plan: VulkanStreamCircuitBindingPlanView,
    c: int,
    n: int,
    i: int,
)
    requires
        0 <= c < plan.circuits.len(),
        0 <= n < plan.circuits[c].nodes.len(),
        circuit_binding::node_total(plan) <= usize::MAX,
        plan.circuits.len() <= usize::MAX,
        0 <= i,
    ensures
        ({
            let commands = dispatch_commands(kernel_interfaces(plan)).commands;
            let index = sequence::total(plan.circuits.take(c), circuit_binding::node_count()) + n;
            let node = plan.circuits[c].nodes[n];
            let bindings = commands[index].descriptor_bindings;
            let views = node.inputs.len() + node.outputs.len() + node.parameters.len()
                + node.state_reads.len() + node.state_writes.len();
            &&& views + i < bindings.len() ==> {
                &&& bindings[views + i].usage == VulkanKernelDescriptorUsage::StateView
                &&& bindings[views + i].resource is Signal
                &&& bindings[views + i].name == bindings[views + i].resource->Signal_0.signal_id
                &&& bindings[views + i].resource->Signal_0.resource is StateView
                &&& (node.inputs + node.outputs).contains(bindings[views + i].resource->Signal_0)
            }
            &&& i < (node.inputs + node.outputs).len() && (node.inputs
                + node.outputs)[i].resource is StateView ==> exists|k: int|
                views <= k < bindings.len() && (#[trigger] bindings[k]).resource
                    == VulkanKernelDescriptorResourceView::Signal((node.inputs + node.outputs)[i])
        }),
{
    launches_follow_the_circuits(kernel_interfaces(plan), c, n);
    lemma_kernels_match_nodes(plan, c as nat);
    let commands = dispatch_commands(kernel_interfaces(plan)).commands;
    let index = sequence::total(plan.circuits.take(c), circuit_binding::node_count()) + n;
    let node = plan.circuits[c].nodes[n];
    let bindings = commands[index].descriptor_bindings;
    let views = node.inputs.len() + node.outputs.len() + node.parameters.len()
        + node.state_reads.len() + node.state_writes.len();
    let all = node.inputs + node.outputs;
    let first = state_views(node.inputs);
    let second = state_views(node.outputs);
    assert(bindings.len() == views + first.len() + second.len());
    assert forall|k: int| 0 <= k < first.len() + second.len() implies (
    #[trigger] bindings[views + k]).resource == VulkanKernelDescriptorResourceView::Signal(
        (first + second)[k],
    ) && bindings[views + k].name == (first + second)[k].signal_id && bindings[views + k].usage
        == VulkanKernelDescriptorUsage::StateView by {}
    if views + i < bindings.len() {
        assert(bindings[views + i].resource == VulkanKernelDescriptorResourceView::Signal(
            (first + second)[i],
        ));
        if i < first.len() {
            lemma_views_are_signals(node.inputs, i);
            let k = choose|k: int| 0 <= k < node.inputs.len() && #[trigger] node.inputs[k]
                == first[i];
            assert(all[k] == first[i]);
        } else {
            lemma_views_are_signals(node.outputs, i - first.len());
            let k = choose|k: int| 0 <= k < node.outputs.len() && #[trigger] node.outputs[k]
                == second[i - first.len()];
            assert(all[node.inputs.len() + k] == second[i - first.len()]);
        }
    }
    if i < all.len() && all[i].resource is StateView {
        if i < node.inputs.len() {
            lemma_signals_are_viewed(node.inputs, i);
            let k = choose|k: int| 0 <= k < first.len() && #[trigger] first[k] == all[i];
            assert((first + second)[k] == all[i]);
            assert(bindings[views + k].resource == VulkanKernelDescriptorResourceView::Signal(
                all[i],
            ));
        } else {
            lemma_signals_are_viewed(node.outputs, i - node.inputs.len());
            let k = choose|k: int| 0 <= k < second.len() && #[trigger] second[k] == all[i];
            assert((first + second)[first.len() + k] == all[i]);
            assert(bindings[views + (first.len() + k)].resource
                == VulkanKernelDescriptorResourceView::Signal(all[i]));
        }
    }
}

/// The descriptors of a launch are numbered in order.
pub proof fn descriptor_bindings_are_consecutive(
    dispatch_index: int,
    circuit_index: int,
    circuit_id: Seq<char>,
    kernel: VulkanKernelInterfaceView,
    i: int,
)
    requires
        0 <= i < command_of_kernel(
            dispatch_index,
            circuit_index,
            circuit_id,
            kernel,
        ).descriptor_bindings.len() <= usize::MAX,
    ensures
        command_of_kernel(
            dispatch_index,
            circuit_index,
            circuit_id,
            kernel,
        ).descriptor_bindings[i].binding == i,
{
}

fn push_descriptor_binding(
    bindings: &mut Vec<VulkanKernelDescriptorBinding>,
    usage: VulkanKernelDescriptorUsage,
    name: &String,
    resource: VulkanKernelDescriptorResource,
)
    ensures
        final(bindings).deep_view() == old(bindings).deep_view().push(
            VulkanKernelDescriptorBindingView {
                binding: old(bindings)@.len() as usize,
                usage,
                name: name@,
                resource: resource@,
            },
        ),
{
    let ghost before = bindings.deep_view();
    let binding = VulkanKernelDescriptorBinding {
        binding: bindings.len(),
        usage,
        name: name.clone(),
        resource,
    };
    let ghost added = binding@;
    bindings.push(binding);
    assert(bindings.deep_view() =~= before.push(added));
}

#[verifier::loop_isolation(false)]
fn push_signals(
    bindings: &mut Vec<VulkanKernelDescriptorBinding>,
    usage: VulkanKernelDescriptorUsage,
    signals: &Vec<VulkanSignalBinding>,
    Ghost(done): Ghost<Seq<Unnumbered>>,
)
    requires
        old(bindings).deep_view() == numbered(done),
    ensures
        final(bindings).deep_view() == numbered(
            done + signal_descriptors(usage, signals.deep_view()),
        ),
{
    let ghost added = signal_descriptors(usage, signals.deep_view());
    let mut i: usize = 0;
    assert(done + added.take(0) =~= done);
    while i < signals.len()
        invariant
            i <= signals.len(),
            bindings.deep_view() == numbered(done + added.take(i as int)),
        decreases signals.len() - i,
    {
        let signal: &VulkanSignalBinding = &signals[i];
        assert(signals.deep_view()[i as int] == signal@);
        assert(bindings.deep_view().len() == bindings@.len());
        push_descriptor_binding(
            bindings,
            usage,
            &signal.signal_id,
            VulkanKernelDescriptorResource::Signal(signal.clone()),
        );
        proof {
            assert(added.take(i + 1) =~= added.take(i as int).push(added[i as int]));
            assert(bindings.deep_view() =~= numbered(done + added.take(i + 1)));
        }
        i += 1;
    }
    assert(added.take(added.len() as int) =~= added);
}

#[verifier::loop_isolation(false)]
fn push_parameters(
    bindings: &mut Vec<VulkanKernelDescriptorBinding>,
    parameters: &Vec<VulkanParameterBinding>,
    Ghost(done): Ghost<Seq<Unnumbered>>,
)
    requires
        old(bindings).deep_view() == numbered(done),
    ensures
        final(bindings).deep_view() == numbered(
            done + parameter_descriptors(parameters.deep_view()),
        ),
{
    let ghost added = parameter_descriptors(parameters.deep_view());
    let mut i: usize = 0;
    assert(done + added.take(0) =~= done);
    while i < parameters.len()
        invariant
            i <= parameters.len(),
            bindings.deep_view() == numbered(done + added.take(i as int)),
        decreases parameters.len() - i,
    {
        let parameter: &VulkanParameterBinding = &parameters[i];
        assert(parameters.deep_view()[i as int] == parameter@);
        assert(bindings.deep_view().len() == bindings@.len());
        push_descriptor_binding(
            bindings,
            VulkanKernelDescriptorUsage::Parameter,
            &parameter.param_id,
            VulkanKernelDescriptorResource::Parameter(parameter.clone()),
        );
        proof {
            assert(added.take(i + 1) =~= added.take(i as int).push(added[i as int]));
            assert(bindings.deep_view() =~= numbered(done + added.take(i + 1)));
        }
        i += 1;
    }
    assert(added.take(added.len() as int) =~= added);
}

#[verifier::loop_isolation(false)]
fn push_states(
    bindings: &mut Vec<VulkanKernelDescriptorBinding>,
    usage: VulkanKernelDescriptorUsage,
    states: &Vec<VulkanStateBinding>,
    Ghost(done): Ghost<Seq<Unnumbered>>,
)
    requires
        old(bindings).deep_view() == numbered(done),
    ensures
        final(bindings).deep_view() == numbered(
            done + state_descriptors(usage, states.deep_view()),
        ),
{
    let ghost added = state_descriptors(usage, states.deep_view());
    let mut i: usize = 0;
    assert(done + added.take(0) =~= done);
    while i < states.len()
        invariant
            i <= states.len(),
            bindings.deep_view() == numbered(done + added.take(i as int)),
        decreases states.len() - i,
    {
        let state: &VulkanStateBinding = &states[i];
        assert(states.deep_view()[i as int] == state@);
        assert(bindings.deep_view().len() == bindings@.len());
        push_descriptor_binding(
            bindings,
            usage,
            &state.state_id,
            VulkanKernelDescriptorResource::State {
                component_id: state.component_id.clone(),
                binding: state.clone(),
            },
        );
        proof {
            assert(added.take(i + 1) =~= added.take(i as int).push(added[i as int]));
            assert(bindings.deep_view() =~= numbered(done + added.take(i + 1)));
        }
        i += 1;
    }
    assert(added.take(added.len() as int) =~= added);
}

/// The numbered descriptors of a kernel.
pub fn descriptor_bindings_for_kernel(kernel: &VulkanKernelInterface) -> (r: Vec<
    VulkanKernelDescriptorBinding,
>)
    ensures
        r.deep_view() == numbered(kernel_descriptors(kernel@)),
{
    let mut bindings: Vec<VulkanKernelDescriptorBinding> = Vec::new();
    let ghost k = kernel@;
    let ghost none = Seq::<Unnumbered>::empty();
    assert(bindings.deep_view() =~= numbered(none));
    push_signals(
        &mut bindings,
        VulkanKernelDescriptorUsage::InputSignal,
        &kernel.inputs,
        Ghost(none),
    );
    let ghost one = signal_descriptors(VulkanKernelDescriptorUsage::InputSignal, k.inputs);
    assert(none + one =~= one);
    push_signals(
        &mut bindings,
        VulkanKernelDescriptorUsage::OutputSignal,
        &kernel.outputs,
        Ghost(one),
    );
    let ghost two = one + signal_descriptors(VulkanKernelDescriptorUsage::OutputSignal, k.outputs);
    push_parameters(&mut bindings, &kernel.parameters, Ghost(two));
    let ghost three = two + parameter_descriptors(k.parameters);
    push_states(
        &mut bindings,
        VulkanKernelDescriptorUsage::StateRead,
        &kernel.state_reads,
        Ghost(three),
    );
    let ghost four = three + state_descriptors(
        VulkanKernelDescriptorUsage::StateRead,
        k.state_reads,
    );
    push_states(
        &mut bindings,
        VulkanKernelDescriptorUsage::StateWrite,
        &kernel.state_writes,
        Ghost(four),
    );
    let ghost five = four + state_descriptors(
        VulkanKernelDescriptorUsage::StateWrite,
        k.state_writes,
    );
    push_signals(
        &mut bindings,
        VulkanKernelDescriptorUsage::StateView,
        &kernel.state_views,
        Ghost(five),
    );
    bindings
}

impl VulkanKernelDispatchCommand {
    fn from_kernel(
        dispatch_index: usize,
        circuit_index: usize,
        circuit_id: &String,
        kernel: &VulkanKernelInterface,
    ) -> (r: Self)
        ensures
            r@ == command_of_kernel(
                dispatch_index as int,
                circuit_index as int,
                circuit_id@,
                kernel@,
            ),
    {
        VulkanKernelDispatchCommand {
            dispatch_index,
            circuit_index,
            kernel_id: kernel.kernel_id.clone(),
            component_id: kernel.component_id.clone(),
            circuit_id: circuit_id.clone(),
            node_index: kernel.node_index,
            node_id: kernel.node_id.clone(),
            op: kernel.op.clone(),
            specialization: kernel.specialization.clone(),
            descriptor_bindings: descriptor_bindings_for_kernel(kernel),
            push_constants: kernel.stream_metadata.push_constants(),
            uses_stream_tick: kernel.stream_metadata.uses_stream_tick,
        }
    }
}

/// Whether a launch is that of a component's node.
pub open spec fn command_named(component_id: Seq<char>, node_id: Seq<char>) -> spec_fn(
    VulkanKernelDispatchCommandView,
) -> bool {
    |command: VulkanKernelDispatchCommandView|
        command.component_id == component_id && command.node_id == node_id
}

/// How often each operation is launched.
pub open spec fn op_counts(commands: Seq<VulkanKernelDispatchCommandView>) -> Map<Seq<char>, usize>
    decreases commands.len(),
{
    if commands.len() == 0 {
        Map::empty()
    } else {
        let front = op_counts(commands.drop_last());
        let op = commands.last().op;
        front.insert(
            op,
            if front.contains_key(op) {
                (front[op] + 1) as usize
            } else {
                1
            },
        )
    }
}

proof fn lemma_op_count_bounded(commands: Seq<VulkanKernelDispatchCommandView>, op: Seq<char>)
    requires
        op_counts(commands).contains_key(op),
        commands.len() <= usize::MAX,
    ensures
        op_counts(commands)[op] <= commands.len(),
    decreases commands.len(),
{
    if commands.len() > 0 {
        let front = op_counts(commands.drop_last());
        if front.contains_key(op) {
            lemma_op_count_bounded(commands.drop_last(), op);
        }
    }
}

impl VulkanKernelDispatchPlan {
    /// The launches of a bound stream.
    pub fn from_binding_plan(binding_plan: &VulkanStreamCircuitBindingPlan) -> (r: Self)
        ensures
            r@ == dispatch_commands(kernel_interfaces(binding_plan@)),
    {
        Self::from_kernel_interfaces(&VulkanKernelInterfacePlan::from_binding_plan(binding_plan))
    }

    /// The launches of a stream's kernels.
    #[verifier::loop_isolation(false)]
    pub fn from_kernel_interfaces(interface_plan: &VulkanKernelInterfacePlan) -> (r: Self)
        ensures
            r@ == dispatch_commands(interface_plan@),
    {
        let ghost circuits = interface_plan@.circuits;
        let mut commands: Vec<VulkanKernelDispatchCommand> = Vec::new();
        let mut i: usize = 0;
        assert(commands.deep_view() =~= commands_of(circuits, 0));
        while i < interface_plan.circuits.len()
            invariant
                i <= interface_plan.circuits.len(),
                commands.deep_view() == commands_of(circuits, i as nat),
            decreases interface_plan.circuits.len() - i,
        {
            let circuit: &VulkanCircuitKernelInterface = &interface_plan.circuits[i];
            let ghost front = commands.deep_view();
            let ghost added = Seq::new(
                circuits[i as int].kernels.len(),
                |k: int|
                    command_of_kernel(
                        front.len() + k,
                        i as int,
                        circuits[i as int].circuit_id,
                        circuits[i as int].kernels[k],
                    ),
            );
            assert(circuits[i as int] == circuit@);
            assert(circuit@.kernels.len() == circuit.kernels@.len());
            let mut k: usize = 0;
            assert(front + added.take(0) =~= front);
            while k < circuit.kernels.len()
                invariant
                    k <= circuit.kernels.len(),
                    commands.deep_view() == front + added.take(k as int),
                decreases circuit.kernels.len() - k,
            {
                let ghost before = commands.deep_view();
                assert(circuit@.kernels[k as int] == circuit.kernels@[k as int]@);
                assert(commands.deep_view().len() == commands@.len());
                let index: usize = commands.len();
                commands.push(
                    VulkanKernelDispatchCommand::from_kernel(
                        index,
                        i,
                        &circuit.circuit_id,
                        &circuit.kernels[k],
                    ),
                );
                assert(commands.deep_view() =~= before.push(added[k as int]));
                assert(front + added.take(k + 1) =~= (front + added.take(k as int)).push(
                    added[k as int],
                ));
                k += 1;
            }
            assert(added.take(added.len() as int) =~= added);
            assert(commands_of(circuits, (i + 1) as nat) =~= front + added);
            i += 1;
        }
        VulkanKernelDispatchPlan {
            backend_id: VULKAN_STREAM_CIRCUIT_BACKEND_ID.to_owned(),
            commands,
        }
    }

    /// The number of launches.
    pub fn total_dispatch_count(&self) -> (r: usize)
        ensures
            r == self@.commands.len(),
    {
        assert(self@.commands.len() == self.commands@.len());
        self.commands.len()
    }

    /// The launch of a component's node.
    #[verifier::loop_isolation(false)]
    pub fn command(&self, component_id: &str, node_id: &str) -> (r: Option<
        &VulkanKernelDispatchCommand,
    >)
        ensures
            r.deep_view() == sequence::find_first(
                self@.commands,
                command_named(component_id@, node_id@),
            ),
    {
        let ghost all = self@.commands;
        let ghost p = command_named(component_id@, node_id@);
        let mut i: usize = 0;
        while i < self.commands.len()
            invariant
                i <= self.commands.len(),
                forall|j: int| 0 <= j < i ==> !p(#[trigger] all[j]),
            decreases self.commands.len() - i,
        {
            assert(all[i as int] == self.commands@[i as int]@);
            if text::same(self.commands[i].component_id.as_str(), component_id) && text::same(
                self.commands[i].node_id.as_str(),
                node_id,
            ) {
                proof {
                    sequence::lemma_find_first_at(all, p, i as int);
                }
                return Some(&self.commands[i]);
            }
            i += 1;
        }
        proof {
            sequence::lemma_find_first_none(all, p);
        }
        None
    }

    /// How often each operation is launched.
    #[verifier::loop_isolation(false)]
    pub fn op_counts(&self) -> (r: OrderedMap<String, usize>)
        ensures
            r.sorted(),
            r@ == op_counts(self@.commands),
    {
        let ghost all = self@.commands;
        let mut counts: OrderedMap<String, usize> = OrderedMap::new();
        let mut i: usize = 0;
        while i < self.commands.len()
            invariant
                i <= self.commands.len(),
                counts.sorted(),
                counts@ == op_counts(all.take(i as int)),
            decreases self.commands.len() - i,
        {
            let command: &VulkanKernelDispatchCommand = &self.commands[i];
            assert(all.take(i + 1).drop_last() =~= all.take(i as int));
            assert(all[i as int] == command@);
            let next: usize = match counts.get(&command.op) {
                Some(count) => {
                    proof {
                        lemma_op_count_bounded(all.take(i as int), command@.op);
                    }
                    *count + 1
                },
                None => 1,
            };
            counts.insert(command.op.clone(), next);
            i += 1;
        }
        assert(all.take(all.len() as int) =~= all);
        counts
    }
}

/// A kernel is found by its node: the first that has it, and none where none has.
pub proof fn kernels_are_found_by_node(
    all: Seq<VulkanKernelInterfaceView>,
    node_id: Seq<char>,
    j: int,
)
    ensures
        match sequence::find_first(all, kernel_named(node_id)) {
            Some(found) => exists|i: int|
                {
                    &&& 0 <= i < all.len()
                    &&& found == #[trigger] all[i]
                    &&& all[i].node_id == node_id
                    &&& 0 <= j < i ==> !(all[j].node_id == node_id)
                },
            None => 0 <= j < all.len() ==> !(all[j].node_id == node_id),
        },
{
    let p = kernel_named(node_id);
    if 0 <= j < all.len() {
        assert(p(all[j]) <==> all[j].node_id == node_id);
    }
    if sequence::find_first(all, p) is Some {
        let i = sequence::lemma_find_first_some(all, p);
        assert(p(all[i]));
        assert(sequence::find_first(all, p)->Some_0 == all[i]);
    } else {
        sequence::lemma_find_none_all(all, p);
    }
}

/// A command is found by its component and its node: the first that has both, and none where
/// none has.
pub proof fn commands_are_found_by_name(
    all: Seq<VulkanKernelDispatchCommandView>,
    component_id: Seq<char>,
    node_id: Seq<char>,
    j: int,
)
    ensures
        match sequence::find_first(all, command_named(component_id, node_id)) {
            Some(found) => exists|i: int|
                {
                    &&& 0 <= i < all.len()
                    &&& found == #[trigger] all[i]
                    &&& all[i].component_id == component_id
                    &&& all[i].node_id == node_id
                    &&& 0 <= j < i ==> !(all[j].component_id == component_id && all[j].node_id == node_id)
                },
            None => 0 <= j < all.len() ==> !(all[j].component_id == component_id && all[j].node_id == node_id),
        },
{
    let p = command_named(component_id, node_id);
    if 0 <= j < all.len() {
        assert(p(all[j]) <==> all[j].component_id == component_id && all[j].node_id == node_id);
    }
    if sequence::find_first(all, p) is Some {
        let i = sequence::lemma_find_first_some(all, p);
        assert(p(all[i]));
        assert(sequence::find_first(all, p)->Some_0 == all[i]);
    } else {
        sequence::lemma_find_none_all(all, p);
    }
}

} // verus!
