//! The graph that a package is run as: instances of its pedals, each on a device.

use crate::ordered;
use crate::ordered::OrderedSet;
use crate::package::graph::CircuitRuntimeRole;
use crate::package::graph::ResolvedCircuitArtifact;
use crate::package::graph::ResolvedCircuitArtifactView;
use crate::package::graph::StreamCircuitConnection;
use crate::package::graph::StreamCircuitGraphBoundary;
use crate::package::graph::StreamCircuitGraphBoundaryView;
use crate::package::graph::StreamCircuitGraphCable;
use crate::package::graph::StreamCircuitGraphCableView;
use crate::package::graph::VulkanResidentPackagePedalCircuit;
use crate::package::graph::VulkanResidentPackagePedalCircuitView;
use crate::package::graph::VulkanResidentPackageStatePort;
use crate::package::graph::VulkanResidentPackageStatePortView;
use crate::package::graph::VulkanResidentPackageCircuitView;
use crate::package::graph::VulkanResidentPackageStateView;
use crate::sequence;
use crate::text;
use crate::text::Message;
use vstd::prelude::*;

verus! {

/// Where the state of an instance comes from.
#[derive(Debug, PartialEq, Eq)]
pub enum StreamCircuitNodeInstanceStatePolicy {
    Fresh,
    CloneFrom { instance_id: String },
    ShareWith { instance_id: String },
}

#[verifier::ext_equal]
pub enum StreamCircuitNodeInstanceStatePolicyView {
    Fresh,
    CloneFrom { instance_id: Seq<char> },
    ShareWith { instance_id: Seq<char> },
}

impl DeepView for StreamCircuitNodeInstanceStatePolicy {
    type V = StreamCircuitNodeInstanceStatePolicyView;

    open spec fn deep_view(&self) -> StreamCircuitNodeInstanceStatePolicyView {
        match self {
            StreamCircuitNodeInstanceStatePolicy::Fresh => StreamCircuitNodeInstanceStatePolicyView::Fresh,
            StreamCircuitNodeInstanceStatePolicy::CloneFrom { instance_id } => StreamCircuitNodeInstanceStatePolicyView::CloneFrom { instance_id: instance_id.deep_view() },
            StreamCircuitNodeInstanceStatePolicy::ShareWith { instance_id } => StreamCircuitNodeInstanceStatePolicyView::ShareWith { instance_id: instance_id.deep_view() },
        }
    }
}

impl View for StreamCircuitNodeInstanceStatePolicy {
    type V = StreamCircuitNodeInstanceStatePolicyView;

    open spec fn view(&self) -> StreamCircuitNodeInstanceStatePolicyView {
        self.deep_view()
    }
}

impl Clone for StreamCircuitNodeInstanceStatePolicy {
    fn clone(&self) -> (r: Self)
        ensures
            r@ == self@,
    {
        match self {
            StreamCircuitNodeInstanceStatePolicy::Fresh => StreamCircuitNodeInstanceStatePolicy::Fresh,
            StreamCircuitNodeInstanceStatePolicy::CloneFrom { instance_id } => StreamCircuitNodeInstanceStatePolicy::CloneFrom { instance_id: instance_id.clone() },
            StreamCircuitNodeInstanceStatePolicy::ShareWith { instance_id } => StreamCircuitNodeInstanceStatePolicy::ShareWith { instance_id: instance_id.clone() },
        }
    }
}

/// An instance of a pedal.
#[derive(Debug, PartialEq, Eq)]
pub struct StreamCircuitNodeInstance {
    pub instance_id: String,
    pub source_component_id: String,
    pub device_id: String,
    pub state_policy: StreamCircuitNodeInstanceStatePolicy,
}

#[verifier::ext_equal]
pub struct StreamCircuitNodeInstanceView {
    pub instance_id: Seq<char>,
    pub source_component_id: Seq<char>,
    pub device_id: Seq<char>,
    pub state_policy: StreamCircuitNodeInstanceStatePolicyView,
}

impl DeepView for StreamCircuitNodeInstance {
    type V = StreamCircuitNodeInstanceView;

    open spec fn deep_view(&self) -> StreamCircuitNodeInstanceView {
        StreamCircuitNodeInstanceView {
            instance_id: self.instance_id.deep_view(),
            source_component_id: self.source_component_id.deep_view(),
            device_id: self.device_id.deep_view(),
            state_policy: self.state_policy.deep_view(),
        }
    }
}

impl View for StreamCircuitNodeInstance {
    type V = StreamCircuitNodeInstanceView;

    open spec fn view(&self) -> StreamCircuitNodeInstanceView {
        self.deep_view()
    }
}

impl Clone for StreamCircuitNodeInstance {
    fn clone(&self) -> (r: Self)
        ensures
            r@ == self@,
    {
        StreamCircuitNodeInstance {
            instance_id: self.instance_id.clone(),
            source_component_id: self.source_component_id.clone(),
            device_id: self.device_id.clone(),
            state_policy: self.state_policy.clone(),
        }
    }
}

/// A graph of instances.
#[derive(Debug, PartialEq, Eq)]
pub struct StreamCircuitRuntimeGraph {
    pub default_device_id: String,
    pub wiring: String,
    pub instances: Vec<StreamCircuitNodeInstance>,
    pub cables: Vec<StreamCircuitGraphCable>,
    pub boundary: StreamCircuitGraphBoundary,
}

#[verifier::ext_equal]
pub struct StreamCircuitRuntimeGraphView {
    pub default_device_id: Seq<char>,
    pub wiring: Seq<char>,
    pub instances: Seq<StreamCircuitNodeInstanceView>,
    pub cables: Seq<StreamCircuitGraphCableView>,
    pub boundary: StreamCircuitGraphBoundaryView,
}

impl DeepView for StreamCircuitRuntimeGraph {
    type V = StreamCircuitRuntimeGraphView;

    open spec fn deep_view(&self) -> StreamCircuitRuntimeGraphView {
        StreamCircuitRuntimeGraphView {
            default_device_id: self.default_device_id.deep_view(),
            wiring: self.wiring.deep_view(),
            instances: self.instances.deep_view(),
            cables: self.cables.deep_view(),
            boundary: self.boundary.deep_view(),
        }
    }
}

impl View for StreamCircuitRuntimeGraph {
    type V = StreamCircuitRuntimeGraphView;

    open spec fn view(&self) -> StreamCircuitRuntimeGraphView {
        self.deep_view()
    }
}

impl Clone for StreamCircuitRuntimeGraph {
    fn clone(&self) -> (r: Self)
        ensures
            r@ == self@,
    {
        StreamCircuitRuntimeGraph {
            default_device_id: self.default_device_id.clone(),
            wiring: self.wiring.clone(),
            instances: self.instances.clone(),
            cables: self.cables.clone(),
            boundary: self.boundary.clone(),
        }
    }
}

/// Whether an instance has this name.
pub open spec fn is_instance(id: Seq<char>) -> spec_fn(StreamCircuitNodeInstanceView) -> bool {
    |instance: StreamCircuitNodeInstanceView| instance.instance_id == id
}

/// The name of an instance.
pub open spec fn instance_name() -> spec_fn(StreamCircuitNodeInstanceView) -> Seq<char> {
    |instance: StreamCircuitNodeInstanceView| instance.instance_id
}

/// Whether a pedal has this name.
pub open spec fn is_artifact(id: Seq<char>) -> spec_fn(ResolvedCircuitArtifactView) -> bool {
    |artifact: ResolvedCircuitArtifactView| artifact.pedal.id == id
}

/// Whether every instance has a pedal that it is an instance of.
pub open spec fn has_sources(
    instances: Seq<StreamCircuitNodeInstanceView>,
    circuits: Seq<ResolvedCircuitArtifactView>,
) -> bool {
    forall|i: int|
        0 <= i < instances.len() ==> sequence::find_last(
            circuits,
            is_artifact((#[trigger] instances[i]).source_component_id),
        ) is Some
}

/// What an instance is for.
pub open spec fn role_of(
    circuits: Seq<ResolvedCircuitArtifactView>,
    instance: StreamCircuitNodeInstanceView,
) -> CircuitRuntimeRole {
    sequence::find_last(
        circuits,
        is_artifact(instance.source_component_id),
    )->Some_0.pedal.runtime_role
}

/// Whether an instance is for this.
pub open spec fn has_role(
    circuits: Seq<ResolvedCircuitArtifactView>,
    role: CircuitRuntimeRole,
) -> spec_fn(StreamCircuitNodeInstanceView) -> bool {
    |instance: StreamCircuitNodeInstanceView| role_of(circuits, instance) == role
}

/// The names of the instances that are for this.
pub open spec fn ids_with_role(
    instances: Seq<StreamCircuitNodeInstanceView>,
    circuits: Seq<ResolvedCircuitArtifactView>,
    role: CircuitRuntimeRole,
) -> Seq<Seq<char>> {
    instances.filter(has_role(circuits, role)).map_values(instance_name())
}

/// Whether a cable carries a signal on from this instance to one of these.
pub open spec fn feeds(from: Seq<char>, to: Set<Seq<char>>) -> spec_fn(StreamCircuitGraphCableView) -> bool {
    |cable: StreamCircuitGraphCableView|
        cable.connection == StreamCircuitConnection::Forward && cable.source.pedal_id == from
            && to.contains(cable.destination.pedal_id)
}

/// Whether a cable carries a signal on from one of these to this instance.
pub open spec fn drains(from: Set<Seq<char>>, to: Seq<char>) -> spec_fn(StreamCircuitGraphCableView) -> bool {
    |cable: StreamCircuitGraphCableView|
        cable.connection == StreamCircuitConnection::Forward && from.contains(cable.source.pedal_id)
            && cable.destination.pedal_id == to
}

/// The device of an instance.
pub open spec fn device_of_instance(
    instances: Seq<StreamCircuitNodeInstanceView>,
    id: Seq<char>,
) -> Seq<char> {
    sequence::find_last(instances, is_instance(id))->Some_0.device_id
}

/// Moves the input transducer to one device, and the output transducer and the sampler to another.
pub open spec fn attached(
    input: Seq<char>,
    output: Seq<char>,
    sampler: Seq<char>,
    input_device: Seq<char>,
    output_device: Seq<char>,
) -> spec_fn(StreamCircuitNodeInstanceView) -> StreamCircuitNodeInstanceView {
    |instance: StreamCircuitNodeInstanceView|
        if instance.instance_id == input {
            StreamCircuitNodeInstanceView { device_id: input_device, ..instance }
        } else if instance.instance_id == output || instance.instance_id == sampler {
            StreamCircuitNodeInstanceView { device_id: output_device, ..instance }
        } else {
            instance
        }
}

/// The graph with the transducers and the sampler on the devices of the processors that they are
/// joined to.
pub open spec fn attached_graph(
    graph: StreamCircuitRuntimeGraphView,
    circuits: Seq<ResolvedCircuitArtifactView>,
) -> Result<StreamCircuitRuntimeGraphView, Seq<char>> {
    let inputs = ids_with_role(graph.instances, circuits, CircuitRuntimeRole::InputTransducer);
    let outputs = ids_with_role(graph.instances, circuits, CircuitRuntimeRole::OutputTransducer);
    let samplers = ids_with_role(graph.instances, circuits, CircuitRuntimeRole::Sampler);
    let processors = ids_with_role(
        graph.instances,
        circuits,
        CircuitRuntimeRole::SignalProcessor,
    ).to_set();
    if inputs.len() != 1 {
        Err("Vulkan generation placement requires exactly one input transducer"@)
    } else if outputs.len() != 1 {
        Err("Vulkan generation placement requires exactly one output transducer"@)
    } else if samplers.len() != 1 {
        Err("Vulkan generation placement requires exactly one sampler"@)
    } else {
        let entering = graph.cables.filter(feeds(inputs[0], processors));
        let leaving = graph.cables.filter(drains(processors, outputs[0]));
        if entering.len() != 1 || leaving.len() != 1 {
            Err("Vulkan generation placement requires one processor input and output boundary"@)
        } else {
            Ok(
                StreamCircuitRuntimeGraphView {
                    instances: graph.instances.map_values(
                        attached(
                            inputs[0],
                            outputs[0],
                            samplers[0],
                            device_of_instance(
                                graph.instances,
                                entering[0].destination.pedal_id,
                            ),
                            device_of_instance(graph.instances, leaving[0].source.pedal_id),
                        ),
                    ),
                    ..graph
                },
            )
        }
    }
}

/// The same, from what came of checking the graph before and after.
pub open spec fn attached_checked(
    graph: StreamCircuitRuntimeGraphView,
    circuits: Seq<ResolvedCircuitArtifactView>,
    before: Result<(), Seq<char>>,
    after: Result<(), Seq<char>>,
) -> Result<StreamCircuitRuntimeGraphView, Seq<char>> {
    match before {
        Err(error) => Err(error),
        Ok(_) => match attached_graph(graph, circuits) {
            Err(error) => Err(error),
            Ok(moved) => match after {
                Err(error) => Err(error),
                Ok(_) => Ok(moved),
            },
        },
    }
}

// ---------------------------------------------------------------------------
// Computing it
// ---------------------------------------------------------------------------

#[verifier::loop_isolation(false)]
fn role_for(circuits: &Vec<ResolvedCircuitArtifact>, instance: &StreamCircuitNodeInstance) -> (r:
    CircuitRuntimeRole)
    requires
        sequence::find_last(
            circuits.deep_view(),
            is_artifact(instance@.source_component_id),
        ) is Some,
    ensures
        r == role_of(circuits.deep_view(), instance@),
{
    let ghost all = circuits.deep_view();
    let ghost p = is_artifact(instance@.source_component_id);
    let mut i: usize = circuits.len();
    while i > 0
        invariant
            i <= circuits.len(),
            forall|j: int| i <= j < all.len() ==> !p(#[trigger] all[j]),
        decreases i,
    {
        i -= 1;
        let item = &circuits[i];
        assert(all[i as int] == item.deep_view());
        if text::same(item.pedal.id.as_str(), instance.source_component_id.as_str()) {
            proof {
                sequence::lemma_find_last_at(all, p, i as int);
            }
            return item.pedal.runtime_role;
        }
    }
    proof {
        sequence::lemma_find_last_none(all, p);
    }
    CircuitRuntimeRole::Sampler
}

fn same_role(a: CircuitRuntimeRole, b: CircuitRuntimeRole) -> (r: bool)
    ensures
        r == (a == b),
{
    match (a, b) {
        (CircuitRuntimeRole::InputTransducer, CircuitRuntimeRole::InputTransducer) => true,
        (CircuitRuntimeRole::SignalProcessor, CircuitRuntimeRole::SignalProcessor) => true,
        (CircuitRuntimeRole::OutputTransducer, CircuitRuntimeRole::OutputTransducer) => true,
        (CircuitRuntimeRole::Sampler, CircuitRuntimeRole::Sampler) => true,
        _ => false,
    }
}

#[verifier::loop_isolation(false)]
fn instances_with_role(
    instances: &Vec<StreamCircuitNodeInstance>,
    circuits: &Vec<ResolvedCircuitArtifact>,
    role: CircuitRuntimeRole,
) -> (r: Vec<String>)
    requires
        has_sources(instances.deep_view(), circuits.deep_view()),
    ensures
        r.deep_view() == ids_with_role(instances.deep_view(), circuits.deep_view(), role),
{
    let ghost all_found = instances.deep_view();
    let ghost kept_found = has_role(circuits.deep_view(), role);
    let mut found: Vec<StreamCircuitNodeInstance> = Vec::new();
    let mut i: usize = 0;
    proof {
        reveal(Seq::filter);
        assert(all_found.take(0) =~= Seq::empty());
        assert(found.deep_view() =~= all_found.take(0).filter(kept_found));
    }
    while i < instances.len()
        invariant
            i <= instances.len(),
            found.deep_view() == all_found.take(i as int).filter(kept_found),
        decreases instances.len() - i,
    {
        let item = &instances[i];
        proof {
            assert(all_found[i as int] == item.deep_view());
            sequence::lemma_filter_step(all_found, kept_found, i as int);
        }
        if same_role(role_for(circuits, item), role) {
            let ghost before = found.deep_view();
            found.push(item.clone());
            assert(found.deep_view() =~= before.push(item.deep_view()));
        }
        i += 1;
    }
    assert(all_found.take(all_found.len() as int) =~= all_found);
    let ghost all_ids = found.deep_view();
    let ghost step_ids = instance_name();
    let mut ids: Vec<String> = Vec::new();
    let mut i: usize = 0;
    while i < found.len()
        invariant
            i <= found.len(),
            ids@.len() == i,
            forall|j: int| 0 <= j < i ==> (#[trigger] ids.deep_view()[j]) == step_ids(all_ids[j]),
        decreases found.len() - i,
    {
        let item = &found[i];
        assert(all_ids[i as int] == item.deep_view());
        let added = item.instance_id.clone();
        let ghost before = ids.deep_view();
        let ghost value = added.deep_view();
        ids.push(added);
        assert(ids.deep_view() =~= before.push(value));
        i += 1;
    }
    assert(ids.deep_view() =~= all_ids.map_values(step_ids));
    ids
}

#[verifier::loop_isolation(false)]
fn cables_feeding(cables: &Vec<StreamCircuitGraphCable>, from: &String, to: &OrderedSet<String>) -> (r:
    Vec<StreamCircuitGraphCable>)
    requires
        to.sorted(),
    ensures
        r.deep_view() == cables.deep_view().filter(feeds(from@, to@)),
{
    let ghost all_found = cables.deep_view();
    let ghost kept_found = feeds(from@, to@);
    let mut found: Vec<StreamCircuitGraphCable> = Vec::new();
    let mut i: usize = 0;
    proof {
        reveal(Seq::filter);
        assert(all_found.take(0) =~= Seq::empty());
        assert(found.deep_view() =~= all_found.take(0).filter(kept_found));
    }
    while i < cables.len()
        invariant
            i <= cables.len(),
            found.deep_view() == all_found.take(i as int).filter(kept_found),
        decreases cables.len() - i,
    {
        let item = &cables[i];
        proof {
            assert(all_found[i as int] == item.deep_view());
            sequence::lemma_filter_step(all_found, kept_found, i as int);
        }
        if item.connection.is_forward() && text::same(item.source.pedal_id.as_str(), from.as_str()) && to.contains(&item.destination.pedal_id) {
            let ghost before = found.deep_view();
            found.push(item.clone());
            assert(found.deep_view() =~= before.push(item.deep_view()));
        }
        i += 1;
    }
    assert(all_found.take(all_found.len() as int) =~= all_found);
    found
}

#[verifier::loop_isolation(false)]
fn cables_draining(cables: &Vec<StreamCircuitGraphCable>, from: &OrderedSet<String>, to: &String) -> (r:
    Vec<StreamCircuitGraphCable>)
    requires
        from.sorted(),
    ensures
        r.deep_view() == cables.deep_view().filter(drains(from@, to@)),
{
    let ghost all_found = cables.deep_view();
    let ghost kept_found = drains(from@, to@);
    let mut found: Vec<StreamCircuitGraphCable> = Vec::new();
    let mut i: usize = 0;
    proof {
        reveal(Seq::filter);
        assert(all_found.take(0) =~= Seq::empty());
        assert(found.deep_view() =~= all_found.take(0).filter(kept_found));
    }
    while i < cables.len()
        invariant
            i <= cables.len(),
            found.deep_view() == all_found.take(i as int).filter(kept_found),
        decreases cables.len() - i,
    {
        let item = &cables[i];
        proof {
            assert(all_found[i as int] == item.deep_view());
            sequence::lemma_filter_step(all_found, kept_found, i as int);
        }
        if item.connection.is_forward() && from.contains(&item.source.pedal_id) && text::same(item.destination.pedal_id.as_str(), to.as_str()) {
            let ghost before = found.deep_view();
            found.push(item.clone());
            assert(found.deep_view() =~= before.push(item.deep_view()));
        }
        i += 1;
    }
    assert(all_found.take(all_found.len() as int) =~= all_found);
    found
}

#[verifier::loop_isolation(false)]
fn find_device(instances: &Vec<StreamCircuitNodeInstance>, id: &String) -> (r: String)
    requires
        sequence::find_last(instances.deep_view(), is_instance(id@)) is Some,
    ensures
        r@ == device_of_instance(instances.deep_view(), id@),
{
    let ghost all = instances.deep_view();
    let ghost p = is_instance(id@);
    let mut i: usize = instances.len();
    while i > 0
        invariant
            i <= instances.len(),
            forall|j: int| i <= j < all.len() ==> !p(#[trigger] all[j]),
        decreases i,
    {
        i -= 1;
        let item = &instances[i];
        assert(all[i as int] == item.deep_view());
        if text::same(item.instance_id.as_str(), id.as_str()) {
            proof {
                sequence::lemma_find_last_at(all, p, i as int);
            }
            return item.device_id.clone();
        }
    }
    proof {
        sequence::lemma_find_last_none(all, p);
    }
    String::new()
}

proof fn lemma_has_instance(
    instances: Seq<StreamCircuitNodeInstanceView>,
    circuits: Seq<ResolvedCircuitArtifactView>,
    role: CircuitRuntimeRole,
    id: Seq<char>,
)
    requires
        ids_with_role(instances, circuits, role).contains(id),
    ensures
        sequence::find_last(instances, is_instance(id)) is Some,
{
    let found = instances.filter(has_role(circuits, role));
    let ids = ids_with_role(instances, circuits, role);
    let k = choose|k: int| 0 <= k < ids.len() && ids[k] == id;
    sequence::lemma_kept_is_given(instances, has_role(circuits, role), k);
    let i = choose|i: int| 0 <= i < instances.len() && instances[i] == found[k];
    if sequence::find_last(instances, is_instance(id)) is None {
        sequence::lemma_find_last_none_all(instances, is_instance(id));
        assert(!is_instance(id)(instances[i]));
    }
}

#[verifier::loop_isolation(false)]
fn move_instances(
    instances: &Vec<StreamCircuitNodeInstance>,
    input: &String,
    output: &String,
    sampler: &String,
    input_device: &String,
    output_device: &String,
) -> (r: Vec<StreamCircuitNodeInstance>)
    ensures
        r.deep_view() == instances.deep_view().map_values(
            attached(input@, output@, sampler@, input_device@, output_device@),
        ),
{
    let ghost all_moved = instances.deep_view();
    let ghost step_moved = attached(input@, output@, sampler@, input_device@, output_device@);
    let mut moved: Vec<StreamCircuitNodeInstance> = Vec::new();
    let mut i: usize = 0;
    while i < instances.len()
        invariant
            i <= instances.len(),
            moved@.len() == i,
            forall|j: int| 0 <= j < i ==> (#[trigger] moved.deep_view()[j]) == step_moved(all_moved[j]),
        decreases instances.len() - i,
    {
        let item = &instances[i];
        assert(all_moved[i as int] == item.deep_view());
        let added = move_instance(item, input, output, sampler, input_device, output_device);
        let ghost before = moved.deep_view();
        let ghost value = added.deep_view();
        moved.push(added);
        assert(moved.deep_view() =~= before.push(value));
        i += 1;
    }
    assert(moved.deep_view() =~= all_moved.map_values(step_moved));
    moved
}

fn move_instance(
    instance: &StreamCircuitNodeInstance,
    input: &String,
    output: &String,
    sampler: &String,
    input_device: &String,
    output_device: &String,
) -> (r: StreamCircuitNodeInstance)
    ensures
        r@ == attached(input@, output@, sampler@, input_device@, output_device@)(instance@),
{
    let id: &str = instance.instance_id.as_str();
    let device: &String = if text::same(id, input.as_str()) {
        input_device
    } else if text::same(id, output.as_str()) || text::same(id, sampler.as_str()) {
        output_device
    } else {
        &instance.device_id
    };
    StreamCircuitNodeInstance {
        instance_id: instance.instance_id.clone(),
        source_component_id: instance.source_component_id.clone(),
        device_id: device.clone(),
        state_policy: instance.state_policy.clone(),
    }
}

/// The graph with the transducers and the sampler on the devices of the processors that they are
/// joined to, from what came of checking the graph before and after.
pub fn attach_generation_node_devices_for_vulkan(
    runtime_graph: StreamCircuitRuntimeGraph,
    circuits: &Vec<ResolvedCircuitArtifact>,
    before: &Result<(), String>,
    after: &Result<(), String>,
) -> (r: Result<StreamCircuitRuntimeGraph, String>)
    requires
        *before is Ok ==> has_sources(runtime_graph@.instances, circuits.deep_view()),
    ensures
        sequence::outcome(r) == attached_checked(
            runtime_graph@,
            circuits.deep_view(),
            sequence::outcome(*before),
            sequence::outcome(*after),
        ),
{
    match before {
        Err(error) => {
            return Err(error.clone());
        },
        Ok(_) => {},
    }
    let instances: &Vec<StreamCircuitNodeInstance> = &runtime_graph.instances;
    let inputs: Vec<String> = instances_with_role(
        instances,
        circuits,
        CircuitRuntimeRole::InputTransducer,
    );
    if inputs.len() != 1 {
        return Err(
            "Vulkan generation placement requires exactly one input transducer".to_owned(),
        );
    }
    let outputs: Vec<String> = instances_with_role(
        instances,
        circuits,
        CircuitRuntimeRole::OutputTransducer,
    );
    if outputs.len() != 1 {
        return Err(
            "Vulkan generation placement requires exactly one output transducer".to_owned(),
        );
    }
    let samplers: Vec<String> = instances_with_role(
        instances,
        circuits,
        CircuitRuntimeRole::Sampler,
    );
    if samplers.len() != 1 {
        return Err("Vulkan generation placement requires exactly one sampler".to_owned());
    }
    assert(inputs.deep_view()[0] == inputs@[0]@);
    assert(outputs.deep_view()[0] == outputs@[0]@);
    assert(samplers.deep_view()[0] == samplers@[0]@);
    let processor_ids: Vec<String> = instances_with_role(
        instances,
        circuits,
        CircuitRuntimeRole::SignalProcessor,
    );
    let processors: OrderedSet<String> = ordered::distinct_texts(&processor_ids);
    let entering: Vec<StreamCircuitGraphCable> = cables_feeding(
        &runtime_graph.cables,
        &inputs[0],
        &processors,
    );
    let leaving: Vec<StreamCircuitGraphCable> = cables_draining(
        &runtime_graph.cables,
        &processors,
        &outputs[0],
    );
    if entering.len() != 1 || leaving.len() != 1 {
        return Err(
            "Vulkan generation placement requires one processor input and output boundary".to_owned(),
        );
    }
    proof {
        broadcast use vstd::seq_lib::group_filter_ensures;

        assert(entering.deep_view()[0] == entering@[0]@);
        assert(leaving.deep_view()[0] == leaving@[0]@);
        assert(feeds(inputs@[0]@, processors@)(entering.deep_view()[0]));
        assert(drains(processors@, outputs@[0]@)(leaving.deep_view()[0]));
        lemma_has_instance(
            instances.deep_view(),
            circuits.deep_view(),
            CircuitRuntimeRole::SignalProcessor,
            entering@[0]@.destination.pedal_id,
        );
        lemma_has_instance(
            instances.deep_view(),
            circuits.deep_view(),
            CircuitRuntimeRole::SignalProcessor,
            leaving@[0]@.source.pedal_id,
        );
    }
    let input_device: String = find_device(instances, &entering[0].destination.pedal_id);
    let output_device: String = find_device(instances, &leaving[0].source.pedal_id);
    let moved: Vec<StreamCircuitNodeInstance> = move_instances(
        instances,
        &inputs[0],
        &outputs[0],
        &samplers[0],
        &input_device,
        &output_device,
    );
    match after {
        Err(error) => {
            return Err(error.clone());
        },
        Ok(_) => {},
    }
    Ok(
        StreamCircuitRuntimeGraph {
            default_device_id: runtime_graph.default_device_id,
            wiring: runtime_graph.wiring,
            instances: moved,
            cables: runtime_graph.cables,
            boundary: runtime_graph.boundary,
        },
    )
}

// ---------------------------------------------------------------------------
// Shared and cloned states
// ---------------------------------------------------------------------------

/// The instance at the end of a chain of shared states, within this many steps.
pub open spec fn share_root(
    instances: Seq<StreamCircuitNodeInstanceView>,
    id: Seq<char>,
    steps: nat,
) -> Option<Seq<char>>
    decreases steps,
{
    match sequence::find_first(instances, is_instance(id)) {
        None => None,
        Some(instance) => match instance.state_policy {
            StreamCircuitNodeInstanceStatePolicyView::ShareWith { instance_id } => if steps == 0 {
                None
            } else {
                share_root(instances, instance_id, (steps - 1) as nat)
            },
            _ => Some(id),
        },
    }
}

/// Whether the state of an instance has a source: a chain of shared states ends within as many steps
/// as there are instances.
pub open spec fn state_has_source(
    instances: Seq<StreamCircuitNodeInstanceView>,
    policy: StreamCircuitNodeInstanceStatePolicyView,
) -> bool {
    policy matches StreamCircuitNodeInstanceStatePolicyView::CloneFrom { instance_id }
        ==> share_root(instances, instance_id, instances.len()) is Some
}

/// What the name of a state's source starts with.
pub open spec fn source_prefix(
    instances: Seq<StreamCircuitNodeInstanceView>,
    policy: StreamCircuitNodeInstanceStatePolicyView,
) -> Option<Seq<char>> {
    match policy {
        StreamCircuitNodeInstanceStatePolicyView::Fresh => None,
        StreamCircuitNodeInstanceStatePolicyView::CloneFrom { instance_id } => Some(
            "clone_from:"@ + share_root(instances, instance_id, instances.len())->Some_0 + "."@,
        ),
        StreamCircuitNodeInstanceStatePolicyView::ShareWith { instance_id } => Some(
            "shared_from:"@ + instance_id + "."@,
        ),
    }
}

/// A state with its source.
pub open spec fn sourced(prefix: Seq<char>) -> spec_fn(VulkanResidentPackageStatePortView) -> VulkanResidentPackageStatePortView {
    |state: VulkanResidentPackageStatePortView|
        VulkanResidentPackageStatePortView { sharing: Some(prefix + state.id), ..state }
}

/// A pedal with the states of an instance.
pub open spec fn with_state_policy(
    pedal: VulkanResidentPackagePedalCircuitView,
    instances: Seq<StreamCircuitNodeInstanceView>,
    policy: StreamCircuitNodeInstanceStatePolicyView,
) -> VulkanResidentPackagePedalCircuitView {
    match source_prefix(instances, policy) {
        None => pedal,
        Some(prefix) => VulkanResidentPackagePedalCircuitView {
            circuit: VulkanResidentPackageCircuitView {
                state_ports: pedal.circuit.state_ports.map_values(sourced(prefix)),
                ..pedal.circuit
            },
            state: VulkanResidentPackageStateView {
                state_ports: pedal.state.state_ports.map_values(sourced(prefix)),
            },
            ..pedal
        },
    }
}

#[verifier::loop_isolation(false)]
pub(crate) fn find_instance<'a>(instances: &'a Vec<StreamCircuitNodeInstance>, id: &str) -> (r: Option<
    &'a StreamCircuitNodeInstance,
>)
    ensures
        r.deep_view() == sequence::find_first(instances.deep_view(), is_instance(id@)),
{
    let ghost all = instances.deep_view();
    let ghost p = is_instance(id@);
    let mut i: usize = 0;
    while i < instances.len()
        invariant
            i <= instances.len(),
            forall|j: int| 0 <= j < i ==> !p(#[trigger] all[j]),
        decreases instances.len() - i,
    {
        let item = &instances[i];
        assert(all[i as int] == item.deep_view());
        if text::same(item.instance_id.as_str(), id) {
            proof {
                sequence::lemma_find_first_at(all, p, i as int);
            }
            return Some(item);
        }
        i += 1;
    }
    proof {
        sequence::lemma_find_first_none(all, p);
    }
    None
}

#[verifier::loop_isolation(false)]
fn find_share_root(instances: &Vec<StreamCircuitNodeInstance>, start: &String) -> (r: String)
    requires
        share_root(instances.deep_view(), start@, instances@.len()) is Some,
    ensures
        r@ == share_root(instances.deep_view(), start@, instances@.len())->Some_0,
{
    let ghost all = instances.deep_view();
    let mut current: String = start.clone();
    let mut steps: usize = instances.len();
    while steps > 0
        invariant
            share_root(all, current@, steps as nat) == share_root(all, start@, all.len()),
        decreases steps,
    {
        match find_instance(instances, current.as_str()) {
            Some(instance) => match &instance.state_policy {
                StreamCircuitNodeInstanceStatePolicy::ShareWith { instance_id } => {
                    current = instance_id.clone();
                },
                _ => {
                    return current;
                },
            },
            None => {
                return current;
            },
        }
        steps -= 1;
    }
    current
}

fn prefix_of(
    instances: &Vec<StreamCircuitNodeInstance>,
    policy: &StreamCircuitNodeInstanceStatePolicy,
) -> (r: Option<String>)
    requires
        state_has_source(instances.deep_view(), policy@),
    ensures
        r.deep_view() == source_prefix(instances.deep_view(), policy@),
{
    match policy {
        StreamCircuitNodeInstanceStatePolicy::Fresh => None,
        StreamCircuitNodeInstanceStatePolicy::CloneFrom { instance_id } => {
            let root: String = find_share_root(instances, instance_id);
            Some(Message::new("clone_from:").text(root.as_str()).text(".").done())
        },
        StreamCircuitNodeInstanceStatePolicy::ShareWith { instance_id } => Some(
            Message::new("shared_from:").text(instance_id.as_str()).text(".").done(),
        ),
    }
}

#[verifier::loop_isolation(false)]
fn source_ports(ports: &Vec<VulkanResidentPackageStatePort>, prefix: &String) -> (r: Vec<
    VulkanResidentPackageStatePort,
>)
    ensures
        r.deep_view() == ports.deep_view().map_values(sourced(prefix@)),
{
    let ghost all_sourced_ports = ports.deep_view();
    let ghost step_sourced_ports = sourced(prefix@);
    let mut sourced_ports: Vec<VulkanResidentPackageStatePort> = Vec::new();
    let mut i: usize = 0;
    while i < ports.len()
        invariant
            i <= ports.len(),
            sourced_ports@.len() == i,
            forall|j: int| 0 <= j < i ==> (#[trigger] sourced_ports.deep_view()[j]) == step_sourced_ports(all_sourced_ports[j]),
        decreases ports.len() - i,
    {
        let item = &ports[i];
        assert(all_sourced_ports[i as int] == item.deep_view());
        let added = VulkanResidentPackageStatePort { id: item.id.clone(), sharing: Some(Message::new(prefix.as_str()).text(item.id.as_str()).done()) };
        let ghost before = sourced_ports.deep_view();
        let ghost value = added.deep_view();
        sourced_ports.push(added);
        assert(sourced_ports.deep_view() =~= before.push(value));
        i += 1;
    }
    assert(sourced_ports.deep_view() =~= all_sourced_ports.map_values(step_sourced_ports));
    sourced_ports
}

/// Gives a pedal the states of an instance.
pub fn apply_runtime_graph_state_policy(
    pedal: &mut VulkanResidentPackagePedalCircuit,
    instances: &Vec<StreamCircuitNodeInstance>,
    policy: &StreamCircuitNodeInstanceStatePolicy,
)
    requires
        state_has_source(instances.deep_view(), policy@),
    ensures
        final(pedal)@ == with_state_policy(old(pedal)@, instances.deep_view(), policy@),
{
    match prefix_of(instances, policy) {
        None => {},
        Some(prefix) => {
            let states: Vec<VulkanResidentPackageStatePort> = source_ports(
                &pedal.state.state_ports,
                &prefix,
            );
            let circuit_states: Vec<VulkanResidentPackageStatePort> = source_ports(
                &pedal.circuit.state_ports,
                &prefix,
            );
            pedal.state.state_ports = states;
            pedal.circuit.state_ports = circuit_states;
        },
    }
}

// ---------------------------------------------------------------------------
// Laws
// ---------------------------------------------------------------------------

/// Attaching moves only the transducers and the sampler: every other instance keeps its device, and
/// every instance keeps its name, its source and its state.
pub proof fn attaching_keeps_the_processors(
    graph: StreamCircuitRuntimeGraphView,
    circuits: Seq<ResolvedCircuitArtifactView>,
    i: int,
)
    requires
        attached_graph(graph, circuits) is Ok,
        0 <= i < graph.instances.len(),
    ensures
        ({
            let moved = attached_graph(graph, circuits)->Ok_0;
            let inputs = ids_with_role(
                graph.instances,
                circuits,
                CircuitRuntimeRole::InputTransducer,
            );
            let outputs = ids_with_role(
                graph.instances,
                circuits,
                CircuitRuntimeRole::OutputTransducer,
            );
            let samplers = ids_with_role(graph.instances, circuits, CircuitRuntimeRole::Sampler);
            let instance = graph.instances[i];
            &&& moved.instances.len() == graph.instances.len()
            &&& moved.instances[i].instance_id == instance.instance_id
            &&& moved.instances[i].source_component_id == instance.source_component_id
            &&& moved.instances[i].state_policy == instance.state_policy
            &&& moved.cables == graph.cables
            &&& moved.boundary == graph.boundary
            &&& instance.instance_id != inputs[0] && instance.instance_id != outputs[0]
                && instance.instance_id != samplers[0] ==> moved.instances[i] == instance
        }),
{
}

proof fn lemma_filter_moved(
    s: Seq<StreamCircuitNodeInstanceView>,
    f: spec_fn(StreamCircuitNodeInstanceView) -> StreamCircuitNodeInstanceView,
    p: spec_fn(StreamCircuitNodeInstanceView) -> bool,
)
    requires
        forall|x: StreamCircuitNodeInstanceView| #[trigger]
            p(f(x)) == p(x) && f(x).instance_id == x.instance_id,
    ensures
        s.map_values(f).filter(p).map_values(instance_name()) == s.filter(p).map_values(
            instance_name(),
        ),
    decreases s.len(),
{
    reveal(Seq::filter);
    if s.len() > 0 {
        lemma_filter_moved(s.drop_last(), f, p);
        assert(s.map_values(f).drop_last() =~= s.drop_last().map_values(f));
        let kept = s.drop_last().filter(p);
        let moved = s.drop_last().map_values(f).filter(p);
        let x = s.last();
        assert(s.map_values(f).last() == f(x));
        assert(p(f(x)) == p(x));
        assert(kept.push(x).map_values(instance_name()) =~= kept.map_values(instance_name()).push(
            x.instance_id,
        ));
        assert(moved.push(f(x)).map_values(instance_name()) =~= moved.map_values(
            instance_name(),
        ).push(x.instance_id));
    } else {
        assert(s.map_values(f) =~= s);
    }
}

proof fn lemma_find_last_moved(
    s: Seq<StreamCircuitNodeInstanceView>,
    f: spec_fn(StreamCircuitNodeInstanceView) -> StreamCircuitNodeInstanceView,
    id: Seq<char>,
)
    requires
        forall|x: StreamCircuitNodeInstanceView| (#[trigger] f(x)).instance_id == x.instance_id,
        sequence::find_last(s, is_instance(id)) is Some,
    ensures
        sequence::find_last(s.map_values(f), is_instance(id)) == Some(
            f(sequence::find_last(s, is_instance(id))->Some_0),
        ),
    decreases s.len(),
{
    if s.len() > 0 {
        assert(s.map_values(f).drop_last() =~= s.drop_last().map_values(f));
        assert(s.map_values(f).last() == f(s.last()));
        if !is_instance(id)(s.last()) {
            lemma_find_last_moved(s.drop_last(), f, id);
        }
    }
}

/// Attaching twice changes nothing more, where no processor has the name of a transducer or of the
/// sampler.
pub proof fn attaching_twice_changes_nothing_more(
    graph: StreamCircuitRuntimeGraphView,
    circuits: Seq<ResolvedCircuitArtifactView>,
)
    requires
        attached_graph(graph, circuits) is Ok,
        ({
            let inputs = ids_with_role(
                graph.instances,
                circuits,
                CircuitRuntimeRole::InputTransducer,
            );
            let outputs = ids_with_role(
                graph.instances,
                circuits,
                CircuitRuntimeRole::OutputTransducer,
            );
            let samplers = ids_with_role(graph.instances, circuits, CircuitRuntimeRole::Sampler);
            let processors = ids_with_role(
                graph.instances,
                circuits,
                CircuitRuntimeRole::SignalProcessor,
            );
            !processors.contains(inputs[0]) && !processors.contains(outputs[0])
                && !processors.contains(samplers[0])
        }),
    ensures
        attached_graph(attached_graph(graph, circuits)->Ok_0, circuits) == attached_graph(
            graph,
            circuits,
        ),
{
    broadcast use vstd::seq_lib::group_filter_ensures;

    let moved = attached_graph(graph, circuits)->Ok_0;
    let inputs = ids_with_role(graph.instances, circuits, CircuitRuntimeRole::InputTransducer);
    let outputs = ids_with_role(graph.instances, circuits, CircuitRuntimeRole::OutputTransducer);
    let samplers = ids_with_role(graph.instances, circuits, CircuitRuntimeRole::Sampler);
    let names = ids_with_role(graph.instances, circuits, CircuitRuntimeRole::SignalProcessor);
    let processors = names.to_set();
    let entering = graph.cables.filter(feeds(inputs[0], processors));
    let leaving = graph.cables.filter(drains(processors, outputs[0]));
    let near = entering[0].destination.pedal_id;
    let far = leaving[0].source.pedal_id;
    let f = attached(
        inputs[0],
        outputs[0],
        samplers[0],
        device_of_instance(graph.instances, near),
        device_of_instance(graph.instances, far),
    );
    assert(moved.instances == graph.instances.map_values(f));
    lemma_filter_moved(
        graph.instances,
        f,
        has_role(circuits, CircuitRuntimeRole::InputTransducer),
    );
    lemma_filter_moved(
        graph.instances,
        f,
        has_role(circuits, CircuitRuntimeRole::OutputTransducer),
    );
    lemma_filter_moved(graph.instances, f, has_role(circuits, CircuitRuntimeRole::Sampler));
    lemma_filter_moved(
        graph.instances,
        f,
        has_role(circuits, CircuitRuntimeRole::SignalProcessor),
    );
    assert(feeds(inputs[0], processors)(entering[0]));
    assert(drains(processors, outputs[0])(leaving[0]));
    assert(names.contains(near) && names.contains(far));
    lemma_has_instance(graph.instances, circuits, CircuitRuntimeRole::SignalProcessor, near);
    lemma_has_instance(graph.instances, circuits, CircuitRuntimeRole::SignalProcessor, far);
    lemma_find_last_moved(graph.instances, f, near);
    lemma_find_last_moved(graph.instances, f, far);
    sequence::lemma_find_last_some(graph.instances, is_instance(near));
    sequence::lemma_find_last_some(graph.instances, is_instance(far));
    assert(device_of_instance(moved.instances, near) == device_of_instance(graph.instances, near));
    assert(device_of_instance(moved.instances, far) == device_of_instance(graph.instances, far));
    assert(moved.instances.map_values(f) =~= moved.instances);
}

/// A cloned state is never taken from a state that is itself shared: its source is the end of the
/// chain.
pub proof fn cloned_states_have_their_own_source(
    instances: Seq<StreamCircuitNodeInstanceView>,
    id: Seq<char>,
    steps: nat,
)
    requires
        share_root(instances, id, steps) is Some,
    ensures
        ({
            let root = share_root(instances, id, steps)->Some_0;
            &&& sequence::find_first(instances, is_instance(root)) matches Some(source)
            &&& !(source.state_policy is ShareWith)
        }),
    decreases steps,
{
    match sequence::find_first(instances, is_instance(id)) {
        Some(instance) => match instance.state_policy {
            StreamCircuitNodeInstanceStatePolicyView::ShareWith { instance_id } => {
                cloned_states_have_their_own_source(instances, instance_id, (steps - 1) as nat);
            },
            _ => {},
        },
        None => {},
    }
}

/// A graph is attached to its processors: its input transducer moves to the device of the processor
/// that it feeds, and its output transducer and its sampler move to that of the processor which feeds
/// the output. There is one of each, and one cable on either side.
pub proof fn transducers_stand_beside_their_processors(
    graph: StreamCircuitRuntimeGraphView,
    circuits: Seq<ResolvedCircuitArtifactView>,
    i: int,
)
    requires
        attached_graph(graph, circuits) is Ok,
        0 <= i < graph.instances.len(),
        ({
            let inputs = ids_with_role(
                graph.instances,
                circuits,
                CircuitRuntimeRole::InputTransducer,
            );
            let outputs = ids_with_role(
                graph.instances,
                circuits,
                CircuitRuntimeRole::OutputTransducer,
            );
            let samplers = ids_with_role(graph.instances, circuits, CircuitRuntimeRole::Sampler);
            inputs[0] != outputs[0] && inputs[0] != samplers[0]
        }),
    ensures
        ({
            let moved = attached_graph(graph, circuits)->Ok_0;
            let inputs = ids_with_role(
                graph.instances,
                circuits,
                CircuitRuntimeRole::InputTransducer,
            );
            let outputs = ids_with_role(
                graph.instances,
                circuits,
                CircuitRuntimeRole::OutputTransducer,
            );
            let samplers = ids_with_role(graph.instances, circuits, CircuitRuntimeRole::Sampler);
            let processors = ids_with_role(
                graph.instances,
                circuits,
                CircuitRuntimeRole::SignalProcessor,
            );
            let instance = graph.instances[i];
            &&& inputs.len() == 1
            &&& outputs.len() == 1
            &&& samplers.len() == 1
            &&& exists|c: int|
                0 <= c < graph.cables.len() && {
                    let cable = #[trigger] graph.cables[c];
                    &&& cable.connection == StreamCircuitConnection::Forward
                    &&& cable.source.pedal_id == inputs[0]
                    &&& processors.contains(cable.destination.pedal_id)
                    &&& instance.instance_id == inputs[0] ==> moved.instances[i].device_id
                        == device_of_instance(graph.instances, cable.destination.pedal_id)
                }
            &&& exists|c: int|
                0 <= c < graph.cables.len() && {
                    let cable = #[trigger] graph.cables[c];
                    &&& cable.connection == StreamCircuitConnection::Forward
                    &&& processors.contains(cable.source.pedal_id)
                    &&& cable.destination.pedal_id == outputs[0]
                    &&& instance.instance_id == outputs[0] || instance.instance_id == samplers[0]
                        ==> moved.instances[i].device_id == device_of_instance(
                        graph.instances,
                        cable.source.pedal_id,
                    )
                }
        }),
{
    let inputs = ids_with_role(graph.instances, circuits, CircuitRuntimeRole::InputTransducer);
    let outputs = ids_with_role(graph.instances, circuits, CircuitRuntimeRole::OutputTransducer);
    let processors = ids_with_role(
        graph.instances,
        circuits,
        CircuitRuntimeRole::SignalProcessor,
    );
    let into = feeds(inputs[0], processors.to_set());
    let out = drains(processors.to_set(), outputs[0]);
    let entering = graph.cables.filter(into);
    let leaving = graph.cables.filter(out);
    sequence::lemma_kept_is_given(graph.cables, into, 0);
    graph.cables.lemma_filter_pred(into, 0);
    sequence::lemma_kept_is_given(graph.cables, out, 0);
    graph.cables.lemma_filter_pred(out, 0);
    let c = choose|c: int| 0 <= c < graph.cables.len() && graph.cables[c] == entering[0];
    let d = choose|d: int| 0 <= d < graph.cables.len() && graph.cables[d] == leaving[0];
    assert(graph.cables[c].source.pedal_id == inputs[0]);
    assert(graph.cables[d].destination.pedal_id == outputs[0]);
    assert(processors.contains(entering[0].destination.pedal_id));
    assert(processors.contains(leaving[0].source.pedal_id));
}

/// An instance with fresh states keeps its pedal as it is. One that shares the states of another
/// names that one as the source of each of its states, and one that clones them names the one that
/// these states are ultimately kept by. Nothing else of the pedal changes.
pub proof fn instances_name_the_source_of_their_states(
    pedal: VulkanResidentPackagePedalCircuitView,
    instances: Seq<StreamCircuitNodeInstanceView>,
    policy: StreamCircuitNodeInstanceStatePolicyView,
    i: int,
)
    requires
        0 <= i,
    ensures
        ({
            let made = with_state_policy(pedal, instances, policy);
            &&& policy is Fresh ==> made == pedal
            &&& made.pedal_id == pedal.pedal_id
            &&& made.operator_type == pedal.operator_type
            &&& made.runtime_role == pedal.runtime_role
            &&& made.params == pedal.params
            &&& made.circuit.source_component_id == pedal.circuit.source_component_id
            &&& made.circuit.nodes == pedal.circuit.nodes
            &&& made.circuit.state_ports.len() == pedal.circuit.state_ports.len()
            &&& made.state.state_ports.len() == pedal.state.state_ports.len()
            &&& i < pedal.state.state_ports.len() ==> {
                let port = pedal.state.state_ports[i];
                &&& made.state.state_ports[i].id == port.id
                &&& policy matches StreamCircuitNodeInstanceStatePolicyView::ShareWith {
                    instance_id,
                } ==> made.state.state_ports[i].sharing == Some(
                    "shared_from:"@ + instance_id + "."@ + port.id,
                )
                &&& policy matches StreamCircuitNodeInstanceStatePolicyView::CloneFrom {
                    instance_id,
                } ==> made.state.state_ports[i].sharing == Some(
                    "clone_from:"@ + share_root(instances, instance_id, instances.len())->Some_0
                        + "."@ + port.id,
                )
            }
            &&& i < pedal.circuit.state_ports.len() ==> {
                let port = pedal.circuit.state_ports[i];
                &&& made.circuit.state_ports[i].id == port.id
                &&& policy matches StreamCircuitNodeInstanceStatePolicyView::ShareWith {
                    instance_id,
                } ==> made.circuit.state_ports[i].sharing == Some(
                    "shared_from:"@ + instance_id + "."@ + port.id,
                )
                &&& policy matches StreamCircuitNodeInstanceStatePolicyView::CloneFrom {
                    instance_id,
                } ==> made.circuit.state_ports[i].sharing == Some(
                    "clone_from:"@ + share_root(instances, instance_id, instances.len())->Some_0
                        + "."@ + port.id,
                )
            }
        }),
{
}

/// An instance has the role of the last circuit that has the name of the instance's source.
pub proof fn roles_are_those_of_the_source(
    circuits: Seq<ResolvedCircuitArtifactView>,
    instance: StreamCircuitNodeInstanceView,
    c: int,
)
    requires
        0 <= c < circuits.len(),
        circuits[c].pedal.id == instance.source_component_id,
        forall|d: int|
            c < d < circuits.len() ==> (#[trigger] circuits[d]).pedal.id
                != instance.source_component_id,
    ensures
        role_of(circuits, instance) == circuits[c].pedal.runtime_role,
{
    let wanted = is_artifact(instance.source_component_id);
    assert(wanted(circuits[c]));
    if sequence::find_last(circuits, wanted) is None {
        sequence::lemma_find_last_none_all(circuits, wanted);
    }
    let e = sequence::lemma_find_last_some(circuits, wanted);
    assert(wanted(circuits[e]));
}

} // verus!
