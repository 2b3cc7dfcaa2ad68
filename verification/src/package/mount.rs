//! Mounting a package: from the controls of a run to the graph that is run.

use crate::ordered;
use crate::ordered::OrderedMap;
use crate::package::graph;
use crate::package::graph::CircuitRuntimeRole;
use crate::package::graph::ResolvedCircuitArtifactView;
use crate::package::graph::ResolvedLoweredPedalboard;
use crate::package::graph::ResolvedLoweredPedalboardView;
use crate::package::graph::StreamCircuitGraphCable;
use crate::package::graph::StreamCircuitGraphCableView;
use crate::package::graph::StreamCircuitPlacementSpec;
use crate::package::graph::StreamCircuitPlacementSpecView;
use crate::package::graph::VulkanResidentPackageCircuitGraph;
use crate::package::graph::VulkanResidentPackageCircuitGraphView;
use crate::package::graph::VulkanResidentPackageCircuitView;
use crate::package::graph::VulkanResidentPackagePedalCircuit;
use crate::package::graph::VulkanResidentPackagePedalCircuitView;
use crate::package::manifest::VulkanResidentModelPackageManifest;
use crate::package::manifest::VulkanResidentModelPackageManifestView;
use crate::package::manifest::VulkanResidentPackageComponentExecution;
use crate::package::manifest::VulkanResidentPackageComponentExecutionView;
use crate::package::manifest::VulkanResidentTokenModelPackageError;
use crate::package::processors;
use crate::package::runtime_graph;
use crate::package::runtime_graph::StreamCircuitNodeInstance;
use crate::package::runtime_graph::StreamCircuitNodeInstanceView;
use crate::package::runtime_graph::StreamCircuitRuntimeGraph;
use crate::package::runtime_graph::StreamCircuitRuntimeGraphView;
use crate::sequence;
use crate::text;
use crate::text::Message;
use vstd::prelude::*;

verus! {

// ---------------------------------------------------------------------------
// The controls of a run
// ---------------------------------------------------------------------------

/// A step towards the graph of a run.
#[derive(Debug, PartialEq, Eq)]
pub enum RuntimeGraphControl {
    /// The pedals of the package one after the other, all on one device.
    SourceSeries { default_device_id: String },
    /// The processors replaced by this chain of instances.
    ProcessorChain { chain: Vec<(String, String)> },
    /// An instance doubled.
    DuplicateAfter { after_instance_id: String, new_instance_id: String },
    /// An instance moved to a device.
    PlaceInstance { instance_id: String, device_id: String },
}

#[verifier::ext_equal]
pub enum RuntimeGraphControlView {
    SourceSeries { default_device_id: Seq<char> },
    ProcessorChain { chain: Seq<(Seq<char>, Seq<char>)> },
    DuplicateAfter { after_instance_id: Seq<char>, new_instance_id: Seq<char> },
    PlaceInstance { instance_id: Seq<char>, device_id: Seq<char> },
}

impl DeepView for RuntimeGraphControl {
    type V = RuntimeGraphControlView;

    open spec fn deep_view(&self) -> RuntimeGraphControlView {
        match self {
            RuntimeGraphControl::SourceSeries { default_device_id } => RuntimeGraphControlView::SourceSeries { default_device_id: default_device_id.deep_view() },
            RuntimeGraphControl::ProcessorChain { chain } => RuntimeGraphControlView::ProcessorChain { chain: chain.deep_view() },
            RuntimeGraphControl::DuplicateAfter { after_instance_id, new_instance_id } => RuntimeGraphControlView::DuplicateAfter { after_instance_id: after_instance_id.deep_view(), new_instance_id: new_instance_id.deep_view() },
            RuntimeGraphControl::PlaceInstance { instance_id, device_id } => RuntimeGraphControlView::PlaceInstance { instance_id: instance_id.deep_view(), device_id: device_id.deep_view() },
        }
    }
}

impl View for RuntimeGraphControl {
    type V = RuntimeGraphControlView;

    open spec fn view(&self) -> RuntimeGraphControlView {
        self.deep_view()
    }
}

/// The doubling of an instance.
pub open spec fn duplicate_step() -> spec_fn((Seq<char>, Seq<char>)) -> RuntimeGraphControlView {
    |pair: (Seq<char>, Seq<char>)|
        RuntimeGraphControlView::DuplicateAfter {
            after_instance_id: pair.0,
            new_instance_id: pair.1,
        }
}

/// The placing of an instance.
pub open spec fn place_step() -> spec_fn((Seq<char>, Seq<char>)) -> RuntimeGraphControlView {
    |pair: (Seq<char>, Seq<char>)|
        RuntimeGraphControlView::PlaceInstance { instance_id: pair.0, device_id: pair.1 }
}

/// The steps that the controls of a run ask for: the series, the chain where there is one, the
/// doublings, then the placings in the order of the instances' names.
pub open spec fn control_steps(
    default_device_id: Seq<char>,
    node_devices: Seq<(Seq<char>, Seq<char>)>,
    duplicate_after: Seq<(Seq<char>, Seq<char>)>,
    source_chain: Option<Seq<(Seq<char>, Seq<char>)>>,
) -> Seq<RuntimeGraphControlView> {
    seq![RuntimeGraphControlView::SourceSeries { default_device_id }] + (match source_chain {
        Some(chain) => seq![RuntimeGraphControlView::ProcessorChain { chain }],
        None => Seq::empty(),
    }) + duplicate_after.map_values(duplicate_step()) + node_devices.map_values(place_step())
}

/// The steps that the controls of a run ask for. Where no device is named, the pedals stand on the
/// runtime's own.
pub open spec fn controls_of(
    default_device_id: Option<Seq<char>>,
    runtime_default_device_id: Seq<char>,
    node_devices: Map<Seq<char>, Seq<char>>,
    duplicate_after: Seq<(Seq<char>, Seq<char>)>,
    source_chain: Option<Seq<(Seq<char>, Seq<char>)>>,
) -> Seq<RuntimeGraphControlView> {
    control_steps(
        match default_device_id {
            Some(id) => id,
            None => runtime_default_device_id,
        },
        ordered::sorted_entries::<String, Seq<char>>(node_devices),
        duplicate_after,
        source_chain,
    )
}

/// The value of an optional text.
pub open spec fn text_option(text: Option<&str>) -> Option<Seq<char>> {
    match text {
        Some(text) => Some(text@),
        None => None,
    }
}

/// What is wrong with a step on the graph so far.
pub open spec fn step_error(
    circuits: Seq<ResolvedCircuitArtifactView>,
    current: StreamCircuitRuntimeGraphView,
    step: RuntimeGraphControlView,
) -> Option<Seq<char>> {
    match step {
        RuntimeGraphControlView::PlaceInstance { instance_id, device_id } =>
            match sequence::find_first(
            current.instances,
            runtime_graph::is_instance(instance_id),
        ) {
            None => Some("runtime graph has no node instance "@ + text::quoted(instance_id)),
            Some(instance) => if first_role(circuits, instance)
                != CircuitRuntimeRole::SignalProcessor {
                Some(
                    "component "@ + text::quoted(instance_id)
                        + " is attached to the processor boundary and cannot be placed independently by the Vulkan backend"@,
                )
            } else {
                None
            },
        },
        _ => None,
    }
}

/// What an instance is for.
pub open spec fn first_role(
    circuits: Seq<ResolvedCircuitArtifactView>,
    instance: StreamCircuitNodeInstanceView,
) -> CircuitRuntimeRole {
    sequence::find_first(
        circuits,
        runtime_graph::is_artifact(instance.source_component_id),
    )->Some_0.pedal.runtime_role
}

/// The graph after the first `n` steps, where these came of the steps.
pub open spec fn graph_after(
    circuits: Seq<ResolvedCircuitArtifactView>,
    steps: Seq<RuntimeGraphControlView>,
    answers: Seq<Result<StreamCircuitRuntimeGraphView, Seq<char>>>,
    n: nat,
) -> Result<StreamCircuitRuntimeGraphView, Seq<char>>
    decreases n,
{
    if n <= 1 {
        answers[0]
    } else {
        match graph_after(circuits, steps, answers, (n - 1) as nat) {
            Err(error) => Err(error),
            Ok(current) => match step_error(circuits, current, steps[n - 1]) {
                Some(error) => Err(error),
                None => answers[n - 1],
            },
        }
    }
}

/// Whether every instance of every graph that came of a step has a pedal that it is an instance of.
pub open spec fn answers_have_sources(
    circuits: Seq<ResolvedCircuitArtifactView>,
    answers: Seq<Result<StreamCircuitRuntimeGraphView, Seq<char>>>,
) -> bool {
    forall|i: int|
        0 <= i < answers.len() ==> ((#[trigger] answers[i]) matches Ok(answer)
            ==> runtime_graph::has_sources(answer.instances, circuits))
}

proof fn lemma_graph_after_error(
    circuits: Seq<ResolvedCircuitArtifactView>,
    steps: Seq<RuntimeGraphControlView>,
    answers: Seq<Result<StreamCircuitRuntimeGraphView, Seq<char>>>,
    i: nat,
    n: nat,
)
    requires
        1 <= i <= n,
        graph_after(circuits, steps, answers, i) is Err,
    ensures
        graph_after(circuits, steps, answers, n) == graph_after(circuits, steps, answers, i),
    decreases n - i,
{
    if i < n {
        lemma_graph_after_error(circuits, steps, answers, i + 1, n);
    }
}

/// What came of checking the parts that a graph is made from.
pub struct MountChecks {
    /// Each pedal of the package.
    pub pedals: Vec<Result<(), String>>,
    /// The index of the package's pedalboard.
    pub index: Result<(), String>,
    /// The graph before the transducers and the sampler were attached.
    pub before: Result<(), String>,
    /// The graph after that.
    pub after: Result<(), String>,
}

/// The pedalboard that a package's graph is checked against.
pub open spec fn source_pedalboard(
    manifest: VulkanResidentModelPackageManifestView,
    package_root: Seq<char>,
    schema: Seq<char>,
    checks: MountChecks,
) -> Result<ResolvedLoweredPedalboardView, Seq<char>> {
    graph::resolved_pedalboard(
        manifest.circuit_graph,
        package_root,
        schema,
        sequence::outcomes(checks.pedals@),
        sequence::outcome(checks.index),
    )
}

/// The pedals of a package with their artifacts.
pub open spec fn source_circuits(manifest: VulkanResidentModelPackageManifestView) -> Seq<
    ResolvedCircuitArtifactView,
> {
    manifest.circuit_graph.pedals.map_values(graph::artifact_of())
}

/// The graph that the controls of a run ask for.
pub open spec fn controlled_graph(
    manifest: VulkanResidentModelPackageManifestView,
    schema: Seq<char>,
    checks: MountChecks,
    steps: Seq<RuntimeGraphControlView>,
    answers: Seq<Result<StreamCircuitRuntimeGraphView, Seq<char>>>,
) -> Result<StreamCircuitRuntimeGraphView, Seq<char>> {
    match source_pedalboard(manifest, "."@, schema, checks) {
        Err(error) => Err(error),
        Ok(source) => match graph_after(source.circuits, steps, answers, steps.len()) {
            Err(error) => Err(error),
            Ok(current) => runtime_graph::attached_checked(
                current,
                source.circuits,
                sequence::outcome(checks.before),
                sequence::outcome(checks.after),
            ),
        },
    }
}

fn pair_of(pair: &(String, String)) -> (r: (String, String))
    ensures
        r.deep_view() == pair.deep_view(),
{
    (pair.0.clone(), pair.1.clone())
}

#[verifier::loop_isolation(false)]
fn copy_pairs(pairs: &Vec<(String, String)>) -> (r: Vec<(String, String)>)
    ensures
        r.deep_view() == pairs.deep_view(),
{
    let ghost all = pairs.deep_view();
    let mut copy: Vec<(String, String)> = Vec::new();
    let mut i: usize = 0;
    assert(copy.deep_view() =~= all.take(0));
    while i < pairs.len()
        invariant
            i <= pairs.len(),
            copy.deep_view() == all.take(i as int),
        decreases pairs.len() - i,
    {
        let ghost before = copy.deep_view();
        copy.push(pair_of(&pairs[i]));
        assert(copy.deep_view() =~= before.push(all[i as int]));
        assert(all.take(i + 1) =~= all.take(i as int).push(all[i as int]));
        i += 1;
    }
    assert(all.take(all.len() as int) =~= all);
    copy
}

/// The steps that the controls of a run ask for. Where no device is named, the pedals stand on the
/// runtime's own.
#[verifier::loop_isolation(false)]
pub fn runtime_graph_controls(
    default_device_id: Option<&str>,
    runtime_default_device_id: &str,
    node_devices: &OrderedMap<String, String>,
    duplicate_after: &Vec<(String, String)>,
    source_chain: Option<&Vec<(String, String)>>,
) -> (r: Vec<RuntimeGraphControl>)
    requires
        node_devices.sorted(),
    ensures
        r.deep_view() == controls_of(
            text_option(default_device_id),
            runtime_default_device_id@,
            node_devices@,
            duplicate_after.deep_view(),
            source_chain.deep_view(),
        ),
{
    let device: String = match default_device_id {
        Some(id) => id.to_owned(),
        None => runtime_default_device_id.to_owned(),
    };
    let mut steps: Vec<RuntimeGraphControl> = vec![
        RuntimeGraphControl::SourceSeries { default_device_id: device },
    ];
    assert(steps.deep_view() =~= seq![steps@[0]@]);
    match source_chain {
        Some(chain) => {
            let ghost before = steps.deep_view();
            steps.push(RuntimeGraphControl::ProcessorChain { chain: copy_pairs(chain) });
            assert(steps.deep_view() =~= before + seq![
                RuntimeGraphControlView::ProcessorChain { chain: chain.deep_view() },
            ]);
        },
        None => {
            assert(steps.deep_view() + Seq::<RuntimeGraphControlView>::empty()
                =~= steps.deep_view());
        },
    }
    let ghost all_doubled = duplicate_after.deep_view();
    let ghost step_doubled = duplicate_step();
    let mut doubled: Vec<RuntimeGraphControl> = Vec::new();
    let mut i: usize = 0;
    while i < duplicate_after.len()
        invariant
            i <= duplicate_after.len(),
            doubled@.len() == i,
            forall|j: int| 0 <= j < i ==> (#[trigger] doubled.deep_view()[j]) == step_doubled(all_doubled[j]),
        decreases duplicate_after.len() - i,
    {
        let item = &duplicate_after[i];
        assert(all_doubled[i as int] == item.deep_view());
        let added = RuntimeGraphControl::DuplicateAfter { after_instance_id: item.0.clone(), new_instance_id: item.1.clone() };
        let ghost before = doubled.deep_view();
        let ghost value = added.deep_view();
        doubled.push(added);
        assert(doubled.deep_view() =~= before.push(value));
        i += 1;
    }
    assert(doubled.deep_view() =~= all_doubled.map_values(step_doubled));
    sequence::append(&mut steps, doubled);
    let devices: &Vec<(String, String)> = &node_devices.entries;
    proof {
        ordered::lemma_sorted_entries::<String, Seq<char>>(devices.deep_view());
    }
    let ghost all_placed = devices.deep_view();
    let ghost step_placed = place_step();
    let mut placed: Vec<RuntimeGraphControl> = Vec::new();
    let mut i: usize = 0;
    while i < devices.len()
        invariant
            i <= devices.len(),
            placed@.len() == i,
            forall|j: int| 0 <= j < i ==> (#[trigger] placed.deep_view()[j]) == step_placed(all_placed[j]),
        decreases devices.len() - i,
    {
        let item = &devices[i];
        assert(all_placed[i as int] == item.deep_view());
        let added = RuntimeGraphControl::PlaceInstance { instance_id: item.0.clone(), device_id: item.1.clone() };
        let ghost before = placed.deep_view();
        let ghost value = added.deep_view();
        placed.push(added);
        assert(placed.deep_view() =~= before.push(value));
        i += 1;
    }
    assert(placed.deep_view() =~= all_placed.map_values(step_placed));
    sequence::append(&mut steps, placed);
    steps
}

#[verifier::loop_isolation(false)]
fn find_role(
    circuits: &Vec<graph::ResolvedCircuitArtifact>,
    instance: &StreamCircuitNodeInstance,
) -> (r: CircuitRuntimeRole)
    requires
        sequence::find_first(
            circuits.deep_view(),
            runtime_graph::is_artifact(instance@.source_component_id),
        ) is Some,
    ensures
        r == first_role(circuits.deep_view(), instance@),
{
    let ghost all = circuits.deep_view();
    let ghost p = runtime_graph::is_artifact(instance@.source_component_id);
    let mut i: usize = 0;
    while i < circuits.len()
        invariant
            i <= circuits.len(),
            forall|j: int| 0 <= j < i ==> !p(#[trigger] all[j]),
        decreases circuits.len() - i,
    {
        let item = &circuits[i];
        assert(all[i as int] == item.deep_view());
        if text::same(item.pedal.id.as_str(), instance.source_component_id.as_str()) {
            proof {
                sequence::lemma_find_first_at(all, p, i as int);
            }
            return item.pedal.runtime_role;
        }
        i += 1;
    }
    proof {
        sequence::lemma_find_first_none(all, p);
    }
    CircuitRuntimeRole::Sampler
}

/// Refuses a step that the graph so far does not allow.
pub fn check_control_step(
    circuits: &Vec<graph::ResolvedCircuitArtifact>,
    current: &StreamCircuitRuntimeGraph,
    step: &RuntimeGraphControl,
) -> (r: Result<(), String>)
    requires
        runtime_graph::has_sources(current@.instances, circuits.deep_view()),
    ensures
        sequence::outcome(r) == (match step_error(circuits.deep_view(), current@, step@) {
            Some(error) => Err::<(), Seq<char>>(error),
            None => Ok(()),
        }),
{
    match step {
        RuntimeGraphControl::PlaceInstance { instance_id, device_id } => {
            let instance: &StreamCircuitNodeInstance = match runtime_graph::find_instance(
                &current.instances,
                instance_id.as_str(),
            ) {
                Some(instance) => instance,
                None => {
                    return Err(
                        Message::new("runtime graph has no node instance ").quoted(
                            instance_id.as_str(),
                        ).done(),
                    );
                },
            };
            proof {
                let id = instance_id@;
                let k = sequence::lemma_find_first_some(
                    current@.instances,
                    runtime_graph::is_instance(id),
                );
                let wanted = runtime_graph::is_artifact(current@.instances[k].source_component_id);
                let all = circuits.deep_view();
                let j = sequence::lemma_find_last_some(all, wanted);
                if sequence::find_first(all, wanted) is None {
                    sequence::lemma_find_none_all(all, wanted);
                    assert(!wanted(all[j]));
                }
            }
            if !find_role(circuits, instance).is_signal_processor() {
                return Err(
                    Message::new("component ").quoted(instance_id.as_str()).text(
                        " is attached to the processor boundary and cannot be placed independently by the Vulkan backend",
                    ).done(),
                );
            }
            Ok(())
        },
        _ => Ok(()),
    }
}

// ---------------------------------------------------------------------------
// Mounting
// ---------------------------------------------------------------------------

/// A package as it is run.
#[derive(Debug, PartialEq, Eq)]
pub struct VulkanResidentRuntimeModel {
    pub package: VulkanResidentModelPackageManifest,
    pub runtime_graph: StreamCircuitRuntimeGraph,
    pub placement: StreamCircuitPlacementSpec,
    pub circuit_graph: VulkanResidentPackageCircuitGraph,
    pub component_executions: Vec<VulkanResidentPackageComponentExecution>,
}

#[verifier::ext_equal]
pub struct VulkanResidentRuntimeModelView {
    pub package: VulkanResidentModelPackageManifestView,
    pub runtime_graph: StreamCircuitRuntimeGraphView,
    pub placement: StreamCircuitPlacementSpecView,
    pub circuit_graph: VulkanResidentPackageCircuitGraphView,
    pub component_executions: Seq<VulkanResidentPackageComponentExecutionView>,
}

impl DeepView for VulkanResidentRuntimeModel {
    type V = VulkanResidentRuntimeModelView;

    open spec fn deep_view(&self) -> VulkanResidentRuntimeModelView {
        VulkanResidentRuntimeModelView {
            package: self.package.deep_view(),
            runtime_graph: self.runtime_graph.deep_view(),
            placement: self.placement.deep_view(),
            circuit_graph: self.circuit_graph.deep_view(),
            component_executions: self.component_executions.deep_view(),
        }
    }
}

impl View for VulkanResidentRuntimeModel {
    type V = VulkanResidentRuntimeModelView;

    open spec fn view(&self) -> VulkanResidentRuntimeModelView {
        self.deep_view()
    }
}

/// What came of the graph's own computations.
pub struct MountAnswers {
    /// Checking the graph against the pedalboard of the package.
    pub validated: Result<(), String>,
    /// The names of the instances, each behind those that feed it.
    pub ordered_instance_ids: Result<Vec<String>, String>,
    /// The cables between the instances that are run.
    pub effective_cables: Result<Vec<StreamCircuitGraphCable>, String>,
    /// Checking that the graph can generate.
    pub generation_contract: Result<(), String>,
}

/// Whether a pedal has this name.
pub open spec fn is_pedal(id: Seq<char>) -> spec_fn(VulkanResidentPackagePedalCircuitView) -> bool {
    |pedal: VulkanResidentPackagePedalCircuitView| pedal.pedal_id == id
}

/// Whether these are the kernels of a component.
pub open spec fn is_execution(id: Seq<char>) -> spec_fn(VulkanResidentPackageComponentExecutionView) -> bool {
    |execution: VulkanResidentPackageComponentExecutionView| execution.component_id == id
}

/// A pedal as an instance of it: under the instance's name, with the instance's states.
pub open spec fn pedal_of_instance(
    pedal: VulkanResidentPackagePedalCircuitView,
    instances: Seq<StreamCircuitNodeInstanceView>,
    instance: StreamCircuitNodeInstanceView,
) -> VulkanResidentPackagePedalCircuitView {
    runtime_graph::with_state_policy(
        VulkanResidentPackagePedalCircuitView {
            pedal_id: instance.instance_id,
            circuit: VulkanResidentPackageCircuitView {
                source_component_id: instance.instance_id,
                ..pedal.circuit
            },
            ..pedal
        },
        instances,
        instance.state_policy,
    )
}

/// What has been mounted so far: the pedals, the kernels of the processors among them, and the
/// devices of those that do not stand on the default device.
pub ghost struct Mounted {
    pub pedals: Seq<VulkanResidentPackagePedalCircuitView>,
    pub executions: Seq<VulkanResidentPackageComponentExecutionView>,
    pub devices: Map<Seq<char>, Seq<char>>,
}

/// Mounts an instance.
pub open spec fn with_instance(
    runtime: StreamCircuitRuntimeGraphView,
    pedals: Seq<VulkanResidentPackagePedalCircuitView>,
    executions: Seq<VulkanResidentPackageComponentExecutionView>,
) -> spec_fn(Mounted, Seq<char>) -> Result<Mounted, Seq<char>> {
    |done: Mounted, id: Seq<char>|
        {
            let instance = sequence::find_first(
                runtime.instances,
                runtime_graph::is_instance(id),
            )->Some_0;
            let source_id = instance.source_component_id;
            match sequence::find_last(pedals, is_pedal(source_id)) {
                None => Err(
                    "runtime graph instance "@ + instance.instance_id
                        + " references unknown source component "@ + source_id,
                ),
                Some(pedal) => {
                    let devices = if instance.device_id != runtime.default_device_id {
                        done.devices.insert(instance.instance_id, instance.device_id)
                    } else {
                        done.devices
                    };
                    let mounted = done.pedals.push(
                        pedal_of_instance(pedal, runtime.instances, instance),
                    );
                    if pedal.runtime_role != CircuitRuntimeRole::SignalProcessor {
                        Ok(Mounted { pedals: mounted, executions: done.executions, devices })
                    } else {
                        match sequence::find_last(executions, is_execution(source_id)) {
                            None => Err(
                                "runtime graph signal processor "@ + source_id
                                    + " has no execution spec"@,
                            ),
                            Some(execution) => Ok(
                                Mounted {
                                    pedals: mounted,
                                    executions: done.executions.push(
                                        VulkanResidentPackageComponentExecutionView {
                                            component_id: instance.instance_id,
                                            ..execution
                                        },
                                    ),
                                    devices,
                                },
                            ),
                        }
                    }
                },
            }
        }
}

/// What is mounted of these instances.
pub open spec fn mounted(
    runtime: StreamCircuitRuntimeGraphView,
    pedals: Seq<VulkanResidentPackagePedalCircuitView>,
    executions: Seq<VulkanResidentPackageComponentExecutionView>,
    ids: Seq<Seq<char>>,
) -> Result<Mounted, Seq<char>> {
    sequence::try_fold(
        ids,
        Mounted { pedals: Seq::empty(), executions: Seq::empty(), devices: Map::empty() },
        with_instance(runtime, pedals, executions),
    )
}

/// Whether these instances are in the graph, and their states have sources.
pub open spec fn mountable(runtime: StreamCircuitRuntimeGraphView, ids: Seq<Seq<char>>) -> bool {
    forall|i: int|
        #![trigger ids[i]]
        0 <= i < ids.len() ==> {
            &&& sequence::find_first(
                runtime.instances,
                runtime_graph::is_instance(ids[i]),
            ) matches Some(instance)
            &&& runtime_graph::state_has_source(runtime.instances, instance.state_policy)
        }
}

/// The package mounted as a graph whose transducers and sampler are attached.
pub open spec fn mounted_model(
    manifest: VulkanResidentModelPackageManifestView,
    runtime: StreamCircuitRuntimeGraphView,
    placement_schema: Seq<char>,
    validated: Result<(), Seq<char>>,
    ordered_ids: Result<Seq<Seq<char>>, Seq<char>>,
    effective: Result<Seq<StreamCircuitGraphCableView>, Seq<char>>,
    contract: Result<(), Seq<char>>,
) -> Result<VulkanResidentRuntimeModelView, Seq<char>> {
    match validated {
        Err(error) => Err(error),
        Ok(_) => match ordered_ids {
            Err(error) => Err(error),
            Ok(ids) => match mounted(
                runtime,
                manifest.circuit_graph.pedals,
                manifest.component_executions,
                ids,
            ) {
                Err(error) => Err(error),
                Ok(done) => match effective {
                    Err(error) => Err(error),
                    Ok(cables) => match contract {
                        Err(error) => Err(error),
                        Ok(_) => Ok(
                            VulkanResidentRuntimeModelView {
                                package: manifest,
                                runtime_graph: runtime,
                                placement: StreamCircuitPlacementSpecView {
                                    schema: placement_schema,
                                    default_device_id: runtime.default_device_id,
                                    pedal_devices: done.devices,
                                },
                                circuit_graph: VulkanResidentPackageCircuitGraphView {
                                    wiring: runtime.wiring,
                                    cables,
                                    boundary: runtime.boundary,
                                    pedals: done.pedals,
                                    ..manifest.circuit_graph
                                },
                                component_executions: done.executions,
                            },
                        ),
                    },
                },
            },
        },
    }
}

/// The package mounted as a graph.
pub open spec fn attached_model(
    manifest: VulkanResidentModelPackageManifestView,
    runtime: StreamCircuitRuntimeGraphView,
    schema: Seq<char>,
    placement_schema: Seq<char>,
    checks: MountChecks,
    answers: MountAnswers,
) -> Result<VulkanResidentRuntimeModelView, Seq<char>> {
    match source_pedalboard(manifest, "."@, schema, checks) {
        Err(error) => Err(error),
        Ok(source) => match runtime_graph::attached_checked(
            runtime,
            source.circuits,
            sequence::outcome(checks.before),
            sequence::outcome(checks.after),
        ) {
            Err(error) => Err(error),
            Ok(moved) => mounted_model(
                manifest,
                moved,
                placement_schema,
                sequence::outcome(answers.validated),
                sequence::outcome(answers.ordered_instance_ids),
                sequence::outcome(answers.effective_cables),
                sequence::outcome(answers.generation_contract),
            ),
        },
    }
}

/// Whether what came of ordering a graph names instances that can be mounted.
pub open spec fn answers_mountable(
    manifest: VulkanResidentModelPackageManifestView,
    runtime: StreamCircuitRuntimeGraphView,
    checks: MountChecks,
    answers: MountAnswers,
) -> bool {
    &&& checks.before is Ok ==> runtime_graph::has_sources(
        runtime.instances,
        source_circuits(manifest),
    )
    &&& runtime_graph::attached_graph(runtime, source_circuits(manifest)) matches Ok(moved) ==> (
    answers.ordered_instance_ids matches Ok(ids) ==> mountable(moved, ids.deep_view()))
}

#[verifier::loop_isolation(false)]
fn find_pedal<'a>(pedals: &'a Vec<VulkanResidentPackagePedalCircuit>, id: &str) -> (r: Option<
    &'a VulkanResidentPackagePedalCircuit,
>)
    ensures
        r.deep_view() == sequence::find_last(pedals.deep_view(), is_pedal(id@)),
{
    let ghost all = pedals.deep_view();
    let ghost p = is_pedal(id@);
    let mut i: usize = pedals.len();
    while i > 0
        invariant
            i <= pedals.len(),
            forall|j: int| i <= j < all.len() ==> !p(#[trigger] all[j]),
        decreases i,
    {
        i -= 1;
        let item = &pedals[i];
        assert(all[i as int] == item.deep_view());
        if text::same(item.pedal_id.as_str(), id) {
            proof {
                sequence::lemma_find_last_at(all, p, i as int);
            }
            return Some(item);
        }
    }
    proof {
        sequence::lemma_find_last_none(all, p);
    }
    None
}

#[verifier::loop_isolation(false)]
fn find_execution<'a>(executions: &'a Vec<VulkanResidentPackageComponentExecution>, id: &str) -> (r:
    Option<&'a VulkanResidentPackageComponentExecution>)
    ensures
        r.deep_view() == sequence::find_last(executions.deep_view(), is_execution(id@)),
{
    let ghost all = executions.deep_view();
    let ghost p = is_execution(id@);
    let mut i: usize = executions.len();
    while i > 0
        invariant
            i <= executions.len(),
            forall|j: int| i <= j < all.len() ==> !p(#[trigger] all[j]),
        decreases i,
    {
        i -= 1;
        let item = &executions[i];
        assert(all[i as int] == item.deep_view());
        if text::same(item.component_id.as_str(), id) {
            proof {
                sequence::lemma_find_last_at(all, p, i as int);
            }
            return Some(item);
        }
    }
    proof {
        sequence::lemma_find_last_none(all, p);
    }
    None
}

fn instantiate(
    pedal: &VulkanResidentPackagePedalCircuit,
    instances: &Vec<StreamCircuitNodeInstance>,
    instance: &StreamCircuitNodeInstance,
) -> (r: VulkanResidentPackagePedalCircuit)
    requires
        runtime_graph::state_has_source(instances.deep_view(), instance@.state_policy),
    ensures
        r@ == pedal_of_instance(pedal@, instances.deep_view(), instance@),
{
    let mut copy: VulkanResidentPackagePedalCircuit = pedal.clone();
    copy.pedal_id = instance.instance_id.clone();
    copy.circuit.source_component_id = instance.instance_id.clone();
    runtime_graph::apply_runtime_graph_state_policy(&mut copy, instances, &instance.state_policy);
    copy
}

/// The pedals that are mounted, the kernels of the processors among them, and the devices of those
/// that do not stand on the default device.
pub struct MountedParts {
    pub pedals: Vec<VulkanResidentPackagePedalCircuit>,
    pub executions: Vec<VulkanResidentPackageComponentExecution>,
    pub devices: OrderedMap<String, String>,
}

impl MountedParts {
    /// What has been mounted.
    pub open spec fn parts(&self) -> Mounted {
        Mounted {
            pedals: self.pedals.deep_view(),
            executions: self.executions.deep_view(),
            devices: self.devices@,
        }
    }
}

#[verifier::loop_isolation(false)]
#[verifier::rlimit(60)]
fn mount_instances(
    runtime: &StreamCircuitRuntimeGraph,
    pedals: &Vec<VulkanResidentPackagePedalCircuit>,
    executions: &Vec<VulkanResidentPackageComponentExecution>,
    ids: &Vec<String>,
) -> (r: Result<MountedParts, String>)
    requires
        mountable(runtime@, ids.deep_view()),
    ensures
        match r {
            Ok(done) => done.devices.sorted() && mounted(
                runtime@,
                pedals.deep_view(),
                executions.deep_view(),
                ids.deep_view(),
            ) == Ok::<Mounted, Seq<char>>(done.parts()),
            Err(error) => mounted(
                runtime@,
                pedals.deep_view(),
                executions.deep_view(),
                ids.deep_view(),
            ) == Err::<Mounted, Seq<char>>(error@),
        },
{
    let ghost all = ids.deep_view();
    let ghost step = with_instance(runtime@, pedals.deep_view(), executions.deep_view());
    let ghost init = Mounted {
        pedals: Seq::empty(),
        executions: Seq::empty(),
        devices: Map::empty(),
    };
    let mut done: MountedParts = MountedParts {
        pedals: Vec::new(),
        executions: Vec::new(),
        devices: OrderedMap::new(),
    };
    let mut i: usize = 0;
    assert(all.take(0) =~= Seq::<Seq<char>>::empty());
    assert(done.pedals.deep_view() =~= Seq::empty());
    assert(done.executions.deep_view() =~= Seq::empty());
    while i < ids.len()
        invariant
            i <= ids.len(),
            done.devices.sorted(),
            sequence::try_fold(all.take(i as int), init, step) == Ok::<Mounted, Seq<char>>(
                done.parts(),
            ),
        decreases ids.len() - i,
    {
        proof {
            assert(all[i as int] == ids@[i as int]@);
            sequence::lemma_try_fold_step(all, init, step, i as int);
            if sequence::try_fold(all.take(i + 1), init, step) is Err {
                sequence::lemma_try_fold_error(all, init, step, i + 1);
            }
        }
        let ghost before = done.parts();
        let found: Option<&StreamCircuitNodeInstance> = runtime_graph::find_instance(
            &runtime.instances,
            ids[i].as_str(),
        );
        assert(found is Some);
        let instance: &StreamCircuitNodeInstance = found.unwrap();
        let source_id: &str = instance.source_component_id.as_str();
        let pedal: &VulkanResidentPackagePedalCircuit = match find_pedal(pedals, source_id) {
            Some(pedal) => pedal,
            None => {
                return Err(
                    Message::new("runtime graph instance ").text(
                        instance.instance_id.as_str(),
                    ).text(" references unknown source component ").text(source_id).done(),
                );
            },
        };
        done.pedals.push(instantiate(pedal, &runtime.instances, instance));
        assert(done.pedals.deep_view() =~= before.pedals.push(
            pedal_of_instance(pedal@, runtime@.instances, instance@),
        ));
        if pedal.runtime_role.is_signal_processor() {
            match find_execution(executions, source_id) {
                Some(execution) => {
                    let mut copy: VulkanResidentPackageComponentExecution = execution.clone();
                    copy.component_id = instance.instance_id.clone();
                    let ghost view = copy@;
                    done.executions.push(copy);
                    assert(done.executions.deep_view() =~= before.executions.push(view));
                },
                None => {
                    return Err(
                        Message::new("runtime graph signal processor ").text(source_id).text(
                            " has no execution spec",
                        ).done(),
                    );
                },
            }
        }
        if !text::same(instance.device_id.as_str(), runtime.default_device_id.as_str()) {
            done.devices.insert(instance.instance_id.clone(), instance.device_id.clone());
        }
        i += 1;
    }
    assert(all.take(all.len() as int) =~= all);
    Ok(done)
}

impl VulkanResidentModelPackageManifest {
    /// The pedalboard of the package.
    pub fn resolved_source_graph(&self, package_root: &str, schema: &str, checks: &MountChecks) -> (r:
        Result<ResolvedLoweredPedalboard, VulkanResidentTokenModelPackageError>)
        requires
            checks.pedals@.len() >= self@.circuit_graph.pedals.len(),
        ensures
            sequence::outcome(r) == source_pedalboard(self@, package_root@, schema@, *checks),
    {
        self.circuit_graph.to_resolved_lowered_pedalboard(
            package_root,
            schema,
            &checks.pedals,
            &checks.index,
        )
    }

    /// The graph that these steps lead to, where these came of them.
    #[verifier::loop_isolation(false)]
    fn runtime_graph_from_steps(
        &self,
        schema: &str,
        checks: &MountChecks,
        steps: &Vec<RuntimeGraphControl>,
        answers: &Vec<Result<StreamCircuitRuntimeGraph, String>>,
    ) -> (r: Result<StreamCircuitRuntimeGraph, VulkanResidentTokenModelPackageError>)
        requires
            checks.pedals@.len() >= self@.circuit_graph.pedals.len(),
            steps@.len() >= 1,
            answers@.len() >= steps@.len(),
            answers_have_sources(source_circuits(self@), sequence::outcomes(answers@)),
        ensures
            sequence::outcome(r) == controlled_graph(
                self@,
                schema@,
                *checks,
                steps.deep_view(),
                sequence::outcomes(answers@),
            ),
    {
        let source: ResolvedLoweredPedalboard = match self.resolved_source_graph(
            ".",
            schema,
            checks,
        ) {
            Ok(source) => source,
            Err(error) => {
                return Err(error);
            },
        };
        let ghost circuits = source@.circuits;
        let ghost all = steps.deep_view();
        let ghost given = sequence::outcomes(answers@);
        assert(circuits == source_circuits(self@));
        assert(given[0] == sequence::outcome(answers@[0]));
        let mut k: usize = 1;
        while k < steps.len()
            invariant
                1 <= k <= steps.len(),
                graph_after(circuits, all, given, (k - 1) as nat) is Ok || k == 1,
                graph_after(circuits, all, given, k as nat) == given[k - 1],
            decreases steps.len() - k,
        {
            assert(given[k - 1] == sequence::outcome(answers@[k - 1]));
            let current: &StreamCircuitRuntimeGraph = match &answers[k - 1] {
                Ok(current) => current,
                Err(error) => {
                    proof {
                        lemma_graph_after_error(circuits, all, given, k as nat, all.len());
                    }
                    return Err(VulkanResidentTokenModelPackageError(error.clone()));
                },
            };
            assert(all[k as int] == steps@[k as int]@);
            match check_control_step(&source.circuits, current, &steps[k]) {
                Ok(_) => {},
                Err(error) => {
                    proof {
                        lemma_graph_after_error(circuits, all, given, (k + 1) as nat, all.len());
                    }
                    return Err(VulkanResidentTokenModelPackageError(error));
                },
            }
            k += 1;
        }
        assert(given[k - 1] == sequence::outcome(answers@[k - 1]));
        match &answers[steps.len() - 1] {
            Err(error) => Err(VulkanResidentTokenModelPackageError(error.clone())),
            Ok(current) => match runtime_graph::attach_generation_node_devices_for_vulkan(
                current.clone(),
                &source.circuits,
                &checks.before,
                &checks.after,
            ) {
                Ok(moved) => Ok(moved),
                Err(error) => Err(VulkanResidentTokenModelPackageError(error)),
            },
        }
    }

    /// The package mounted as this graph, where these came of checking and ordering it.
    pub fn mount_runtime_graph(
        self,
        runtime_graph: &StreamCircuitRuntimeGraph,
        schema: &str,
        placement_schema: &str,
        checks: &MountChecks,
        answers: MountAnswers,
    ) -> (r: Result<VulkanResidentRuntimeModel, VulkanResidentTokenModelPackageError>)
        requires
            checks.pedals@.len() >= self@.circuit_graph.pedals.len(),
            answers_mountable(self@, runtime_graph@, *checks, answers),
        ensures
            sequence::outcome(r) == attached_model(
                self@,
                runtime_graph@,
                schema@,
                placement_schema@,
                *checks,
                answers,
            ),
            r matches Ok(model) ==> model.placement.pedal_devices.sorted(),
    {
        let source: ResolvedLoweredPedalboard = match self.resolved_source_graph(
            ".",
            schema,
            checks,
        ) {
            Ok(source) => source,
            Err(error) => {
                return Err(error);
            },
        };
        let moved: StreamCircuitRuntimeGraph =
            match runtime_graph::attach_generation_node_devices_for_vulkan(
            runtime_graph.clone(),
            &source.circuits,
            &checks.before,
            &checks.after,
        ) {
            Ok(moved) => moved,
            Err(error) => {
                return Err(VulkanResidentTokenModelPackageError(error));
            },
        };
        match answers.validated {
            Ok(_) => {},
            Err(error) => {
                return Err(VulkanResidentTokenModelPackageError(error));
            },
        }
        let ids: Vec<String> = match answers.ordered_instance_ids {
            Ok(ids) => ids,
            Err(error) => {
                return Err(VulkanResidentTokenModelPackageError(error));
            },
        };
        let done: MountedParts = match mount_instances(
            &moved,
            &self.circuit_graph.pedals,
            &self.component_executions,
            &ids,
        ) {
            Ok(done) => done,
            Err(error) => {
                return Err(VulkanResidentTokenModelPackageError(error));
            },
        };
        let cables: Vec<StreamCircuitGraphCable> = match answers.effective_cables {
            Ok(cables) => cables,
            Err(error) => {
                return Err(VulkanResidentTokenModelPackageError(error));
            },
        };
        match answers.generation_contract {
            Ok(_) => {},
            Err(error) => {
                return Err(VulkanResidentTokenModelPackageError(error));
            },
        }
        let circuit_graph: VulkanResidentPackageCircuitGraph = VulkanResidentPackageCircuitGraph {
            wiring: moved.wiring.clone(),
            cables,
            boundary: moved.boundary.clone(),
            architecture: self.circuit_graph.architecture.clone(),
            dimensions: self.circuit_graph.dimensions.clone(),
            input_transducer: self.circuit_graph.input_transducer.clone(),
            output_transducer: self.circuit_graph.output_transducer.clone(),
            pedals: done.pedals,
        };
        let placement: StreamCircuitPlacementSpec = StreamCircuitPlacementSpec {
            schema: placement_schema.to_owned(),
            default_device_id: moved.default_device_id.clone(),
            pedal_devices: done.devices,
        };
        Ok(
            VulkanResidentRuntimeModel {
                package: self,
                runtime_graph: moved,
                placement,
                circuit_graph,
                component_executions: done.executions,
            },
        )
    }

    /// The graph that the controls of a run ask for, where these came of their steps.
    pub fn runtime_graph_from_controls(
        &self,
        default_device_id: Option<&str>,
        runtime_default_device_id: &str,
        node_devices: &OrderedMap<String, String>,
        duplicate_after: &Vec<(String, String)>,
        source_chain: Option<&Vec<(String, String)>>,
        schema: &str,
        checks: &MountChecks,
        answers: &Vec<Result<StreamCircuitRuntimeGraph, String>>,
    ) -> (r: Result<StreamCircuitRuntimeGraph, VulkanResidentTokenModelPackageError>)
        requires
            node_devices.sorted(),
            checks.pedals@.len() >= self@.circuit_graph.pedals.len(),
            answers@.len() >= controls_of(
                text_option(default_device_id),
                runtime_default_device_id@,
                node_devices@,
                duplicate_after.deep_view(),
                source_chain.deep_view(),
            ).len(),
            answers_have_sources(source_circuits(self@), sequence::outcomes(answers@)),
        ensures
            sequence::outcome(r) == controlled_graph(
                self@,
                schema@,
                *checks,
                controls_of(
                    text_option(default_device_id),
                    runtime_default_device_id@,
                    node_devices@,
                    duplicate_after.deep_view(),
                    source_chain.deep_view(),
                ),
                sequence::outcomes(answers@),
            ),
    {
        let steps: Vec<RuntimeGraphControl> = runtime_graph_controls(
            default_device_id,
            runtime_default_device_id,
            node_devices,
            duplicate_after,
            source_chain,
        );
        assert(steps.deep_view().len() == steps@.len());
        self.runtime_graph_from_steps(schema, checks, &steps, answers)
    }

    /// The package mounted as the graph that the controls of a run ask for.
    pub fn mount_runtime_graph_controls(
        self,
        default_device_id: Option<&str>,
        runtime_default_device_id: &str,
        node_devices: &OrderedMap<String, String>,
        duplicate_after: &Vec<(String, String)>,
        source_chain: Option<&Vec<(String, String)>>,
        schema: &str,
        placement_schema: &str,
        control_checks: &MountChecks,
        control_answers: &Vec<Result<StreamCircuitRuntimeGraph, String>>,
        checks: &MountChecks,
        answers: MountAnswers,
    ) -> (r: Result<VulkanResidentRuntimeModel, VulkanResidentTokenModelPackageError>)
        requires
            control_checks.pedals@.len() >= self@.circuit_graph.pedals.len(),
            checks.pedals@.len() >= self@.circuit_graph.pedals.len(),
            node_devices.sorted(),
            control_answers@.len() >= controls_of(
                    text_option(default_device_id),
                    runtime_default_device_id@,
                    node_devices@,
                    duplicate_after.deep_view(),
                    source_chain.deep_view(),
                ).len(),
            answers_have_sources(source_circuits(self@), sequence::outcomes(control_answers@)),
            controlled_graph(
                self@,
                schema@,
                *control_checks,
                controls_of(
                    text_option(default_device_id),
                    runtime_default_device_id@,
                    node_devices@,
                    duplicate_after.deep_view(),
                    source_chain.deep_view(),
                ),
                sequence::outcomes(control_answers@),
            ) matches Ok(runtime) ==> answers_mountable(self@, runtime, *checks, answers),
        ensures
            sequence::outcome(r) == (match controlled_graph(
                self@,
                schema@,
                *control_checks,
                controls_of(
                    text_option(default_device_id),
                    runtime_default_device_id@,
                    node_devices@,
                    duplicate_after.deep_view(),
                    source_chain.deep_view(),
                ),
                sequence::outcomes(control_answers@),
            ) {
                Err(error) => Err(error),
                Ok(runtime) => attached_model(
                    self@,
                    runtime,
                    schema@,
                    placement_schema@,
                    *checks,
                    answers,
                ),
            }),
            r matches Ok(model) ==> model.placement.pedal_devices.sorted(),
    {
        match self.runtime_graph_from_controls(
            default_device_id,
            runtime_default_device_id,
            node_devices,
            duplicate_after,
            source_chain,
            schema,
            control_checks,
            control_answers,
        ) {
            Ok(runtime) => self.mount_runtime_graph(
                &runtime,
                schema,
                placement_schema,
                checks,
                answers,
            ),
            Err(error) => Err(error),
        }
    }
}

impl VulkanResidentRuntimeModel {
    /// The devices that the mounted pedals stand on, in order.
    #[verifier::loop_isolation(false)]
    pub fn placement_device_ids(&self) -> (r: Vec<String>)
        requires
            self.placement.pedal_devices.sorted(),
        ensures
            r.deep_view() == ordered::sorted_elements::<String>(
                self@.circuit_graph.pedals.map_values(
                    processors::device_of_pedal(self@.placement),
                ).to_set(),
            ),
    {
        let pedals: &Vec<VulkanResidentPackagePedalCircuit> = &self.circuit_graph.pedals;
        let ghost all_devices = pedals.deep_view();
        let ghost step_devices = processors::device_of_pedal(self@.placement);
        let mut devices: Vec<String> = Vec::new();
        let mut i: usize = 0;
        while i < pedals.len()
            invariant
                i <= pedals.len(),
                devices@.len() == i,
                forall|j: int| 0 <= j < i ==> (#[trigger] devices.deep_view()[j]) == step_devices(all_devices[j]),
            decreases pedals.len() - i,
        {
            let item = &pedals[i];
            assert(all_devices[i as int] == item.deep_view());
            let added = self.placement.device_for_pedal(&item.pedal_id).clone();
            let ghost before = devices.deep_view();
            let ghost value = added.deep_view();
            devices.push(added);
            assert(devices.deep_view() =~= before.push(value));
            i += 1;
        }
        assert(devices.deep_view() =~= all_devices.map_values(step_devices));
        ordered::distinct_texts(&devices).elements
    }

    /// The pedalboard of the mounted graph.
    pub fn resolved_graph(&self, package_root: &str, schema: &str, checks: &MountChecks) -> (r: Result<
        ResolvedLoweredPedalboard,
        VulkanResidentTokenModelPackageError,
    >)
        requires
            checks.pedals@.len() >= self@.circuit_graph.pedals.len(),
        ensures
            sequence::outcome(r) == graph::resolved_pedalboard(
                self@.circuit_graph,
                package_root@,
                schema@,
                sequence::outcomes(checks.pedals@),
                sequence::outcome(checks.index),
            ),
    {
        self.circuit_graph.to_resolved_lowered_pedalboard(
            package_root,
            schema,
            &checks.pedals,
            &checks.index,
        )
    }

    /// The model with every pedal on one device.
    pub fn coalesce_placement_to_device(self, device_id: &str, placement_schema: &str) -> (r: Self)
        ensures
            r@ == (VulkanResidentRuntimeModelView {
                placement: StreamCircuitPlacementSpecView {
                    schema: placement_schema@,
                    default_device_id: device_id@,
                    pedal_devices: Map::empty(),
                },
                ..self@
            }),
            r.placement.pedal_devices.sorted(),
    {
        VulkanResidentRuntimeModel {
            package: self.package,
            runtime_graph: self.runtime_graph,
            placement: StreamCircuitPlacementSpec {
                schema: placement_schema.to_owned(),
                default_device_id: device_id.to_owned(),
                pedal_devices: OrderedMap::new(),
            },
            circuit_graph: self.circuit_graph,
            component_executions: self.component_executions,
        }
    }
}

// ---------------------------------------------------------------------------
// Laws
// ---------------------------------------------------------------------------

proof fn lemma_mounted_prefix(
    runtime: StreamCircuitRuntimeGraphView,
    pedals: Seq<VulkanResidentPackagePedalCircuitView>,
    executions: Seq<VulkanResidentPackageComponentExecutionView>,
    ids: Seq<Seq<char>>,
)
    requires
        mountable(runtime, ids),
        mounted(runtime, pedals, executions, ids) is Ok,
    ensures
        ({
            let done = mounted(runtime, pedals, executions, ids)->Ok_0;
            &&& done.pedals.len() == ids.len()
            &&& forall|i: int| 0 <= i < ids.len() ==> (#[trigger] done.pedals[i]).pedal_id == ids[i]
            &&& forall|id: Seq<char>| #[trigger]
                done.devices.contains_key(id) ==> {
                    let device = sequence::find_first(
                        runtime.instances,
                        runtime_graph::is_instance(id),
                    )->Some_0.device_id;
                    &&& done.devices[id] == device
                    &&& device != runtime.default_device_id
                }
            &&& forall|i: int|
                0 <= i < ids.len() && sequence::find_first(
                    runtime.instances,
                    runtime_graph::is_instance(#[trigger] ids[i]),
                )->Some_0.device_id != runtime.default_device_id ==> done.devices.contains_key(
                    ids[i],
                )
        }),
    decreases ids.len(),
{
    if ids.len() > 0 {
        let front = ids.drop_last();
        let last = ids.last();
        assert forall|i: int|
            #![trigger front[i]]
            0 <= i < front.len() implies sequence::find_first(
            runtime.instances,
            runtime_graph::is_instance(front[i]),
        ) is Some && runtime_graph::state_has_source(
            runtime.instances,
            sequence::find_first(
                runtime.instances,
                runtime_graph::is_instance(front[i]),
            )->Some_0.state_policy,
        ) by {
            assert(front[i] == ids[i]);
        }
        lemma_mounted_prefix(runtime, pedals, executions, front);
        let before = mounted(runtime, pedals, executions, front)->Ok_0;
        let done = mounted(runtime, pedals, executions, ids)->Ok_0;
        let instance = sequence::find_first(
            runtime.instances,
            runtime_graph::is_instance(last),
        )->Some_0;
        assert(ids[ids.len() - 1] == last);
        sequence::lemma_find_first_some(runtime.instances, runtime_graph::is_instance(last));
        assert(instance.instance_id == last);
        assert forall|i: int| 0 <= i < ids.len() implies (#[trigger] done.pedals[i]).pedal_id
            == ids[i] by {
            if i < front.len() {
                assert(before.pedals[i].pedal_id == front[i]);
            }
        }
        assert forall|i: int|
            0 <= i < ids.len() && sequence::find_first(
                runtime.instances,
                runtime_graph::is_instance(#[trigger] ids[i]),
            )->Some_0.device_id != runtime.default_device_id implies done.devices.contains_key(
            ids[i],
        ) by {
            if i < front.len() {
                assert(front[i] == ids[i]);
            }
        }
    }
}

/// Mounting keeps the order and the devices of the instances: the pedals stand under the instances'
/// names, in their order, each on its instance's device.
pub proof fn mounted_pedals_keep_their_devices(
    manifest: VulkanResidentModelPackageManifestView,
    runtime: StreamCircuitRuntimeGraphView,
    placement_schema: Seq<char>,
    ids: Seq<Seq<char>>,
    effective: Result<Seq<StreamCircuitGraphCableView>, Seq<char>>,
    contract: Result<(), Seq<char>>,
    i: int,
)
    requires
        mountable(runtime, ids),
        mounted_model(
            manifest,
            runtime,
            placement_schema,
            Ok(()),
            Ok(ids),
            effective,
            contract,
        ) is Ok,
        0 <= i < ids.len(),
    ensures
        ({
            let model = mounted_model(
                manifest,
                runtime,
                placement_schema,
                Ok(()),
                Ok(ids),
                effective,
                contract,
            )->Ok_0;
            let pedal = model.circuit_graph.pedals[i];
            &&& model.circuit_graph.pedals.len() == ids.len()
            &&& pedal.pedal_id == ids[i]
            &&& processors::device_of(model.placement, pedal.pedal_id) == sequence::find_first(
                runtime.instances,
                runtime_graph::is_instance(ids[i]),
            )->Some_0.device_id
        }),
{
    lemma_mounted_prefix(
        runtime,
        manifest.circuit_graph.pedals,
        manifest.component_executions,
        ids,
    );
}

/// A model with every pedal on one device uses that device alone.
pub proof fn coalesced_models_use_one_device(
    placement_schema: Seq<char>,
    device_id: Seq<char>,
    pedal_id: Seq<char>,
)
    ensures
        processors::device_of(
            StreamCircuitPlacementSpecView {
                schema: placement_schema,
                default_device_id: device_id,
                pedal_devices: Map::empty(),
            },
            pedal_id,
        ) == device_id,
{
}

/// The controls of a graph start from the source series on the given default device. Then comes the
/// processor chain, if there is one, then the duplications and then the placements, each list in its
/// own order.
pub proof fn controls_come_in_order(
    default_device_id: Seq<char>,
    node_devices: Seq<(Seq<char>, Seq<char>)>,
    duplicate_after: Seq<(Seq<char>, Seq<char>)>,
    source_chain: Option<Seq<(Seq<char>, Seq<char>)>>,
    i: int,
)
    requires
        0 <= i,
    ensures
        ({
            let steps = control_steps(
                default_device_id,
                node_devices,
                duplicate_after,
                source_chain,
            );
            let doubled = if source_chain is Some {
                2int
            } else {
                1int
            };
            let placed = doubled + duplicate_after.len();
            &&& steps.len() == placed + node_devices.len()
            &&& steps[0] == (RuntimeGraphControlView::SourceSeries { default_device_id })
            &&& source_chain matches Some(chain) ==> steps[1]
                == (RuntimeGraphControlView::ProcessorChain { chain })
            &&& i < duplicate_after.len() ==> steps[doubled + i]
                == (RuntimeGraphControlView::DuplicateAfter {
                after_instance_id: duplicate_after[i].0,
                new_instance_id: duplicate_after[i].1,
            })
            &&& i < node_devices.len() ==> steps[placed + i]
                == (RuntimeGraphControlView::PlaceInstance {
                instance_id: node_devices[i].0,
                device_id: node_devices[i].1,
            })
        }),
{
}

proof fn lemma_mounted_sources(
    runtime: StreamCircuitRuntimeGraphView,
    pedals: Seq<VulkanResidentPackagePedalCircuitView>,
    executions: Seq<VulkanResidentPackageComponentExecutionView>,
    ids: Seq<Seq<char>>,
    i: int,
)
    requires
        mounted(runtime, pedals, executions, ids) is Ok,
        0 <= i < ids.len(),
    ensures
        ({
            let done = mounted(runtime, pedals, executions, ids)->Ok_0;
            let instance = sequence::find_first(
                runtime.instances,
                runtime_graph::is_instance(ids[i]),
            )->Some_0;
            let source = sequence::find_last(pedals, is_pedal(instance.source_component_id));
            &&& done.pedals.len() == ids.len()
            &&& source is Some
            &&& done.pedals[i] == pedal_of_instance(source->Some_0, runtime.instances, instance)
            &&& source->Some_0.runtime_role == CircuitRuntimeRole::SignalProcessor ==> exists|
                e: int,
            |
                0 <= e < done.executions.len() && executes(
                    #[trigger] done.executions[e],
                    instance,
                    executions,
                )
        }),
    decreases ids.len(),
{
    let none = Mounted { pedals: Seq::empty(), executions: Seq::empty(), devices: Map::empty() };
    let front = ids.drop_last();
    let step = with_instance(runtime, pedals, executions);
    let before = sequence::try_fold(front, none, step)->Ok_0;
    let after = sequence::try_fold(ids, none, step)->Ok_0;
    lemma_mounted_count(runtime, pedals, executions, front);
    if i < front.len() {
        lemma_mounted_sources(runtime, pedals, executions, front, i);
        assert(front[i] == ids[i]);
        let instance = sequence::find_first(
            runtime.instances,
            runtime_graph::is_instance(ids[i]),
        )->Some_0;
        if exists|e: int|
            0 <= e < before.executions.len() && executes(
                #[trigger] before.executions[e],
                instance,
                executions,
            ) {
            let e = choose|e: int|
                0 <= e < before.executions.len() && executes(
                    #[trigger] before.executions[e],
                    instance,
                    executions,
                );
            assert(after.executions[e] == before.executions[e]);
        }
    } else {
        let instance = sequence::find_first(
            runtime.instances,
            runtime_graph::is_instance(ids[i]),
        )->Some_0;
        let source = sequence::find_last(pedals, is_pedal(instance.source_component_id))->Some_0;
        if source.runtime_role == CircuitRuntimeRole::SignalProcessor {
            let e = sequence::lemma_find_last_some(
                executions,
                is_execution(instance.source_component_id),
            );
            assert(executions[e].component_id == instance.source_component_id);
            assert(executes(
                after.executions[before.executions.len() as int],
                instance,
                executions,
            ));
        }
    }
}

proof fn lemma_mounted_count(
    runtime: StreamCircuitRuntimeGraphView,
    pedals: Seq<VulkanResidentPackagePedalCircuitView>,
    executions: Seq<VulkanResidentPackageComponentExecutionView>,
    ids: Seq<Seq<char>>,
)
    requires
        mounted(runtime, pedals, executions, ids) is Ok,
    ensures
        mounted(runtime, pedals, executions, ids)->Ok_0.pedals.len() == ids.len(),
    decreases ids.len(),
{
    if ids.len() > 0 {
        lemma_mounted_count(runtime, pedals, executions, ids.drop_last());
    }
}

/// Whether an execution runs an instance with the kernels that the package has for its source.
pub open spec fn executes(
    execution: VulkanResidentPackageComponentExecutionView,
    instance: StreamCircuitNodeInstanceView,
    executions: Seq<VulkanResidentPackageComponentExecutionView>,
) -> bool {
    &&& execution.component_id == instance.instance_id
    &&& exists|k: int|
        0 <= k < executions.len() && (#[trigger] executions[k]).component_id
            == instance.source_component_id && executions[k].kernels == execution.kernels
}

/// Every instance of a mounted graph is a pedal of its own, made from the pedal of the package that it
/// comes from and under its own name; one that processes a signal runs with the kernels that the
/// package has for that pedal. The model keeps its package and its graph.
pub proof fn instances_are_made_from_their_source(
    manifest: VulkanResidentModelPackageManifestView,
    runtime: StreamCircuitRuntimeGraphView,
    placement_schema: Seq<char>,
    ids: Seq<Seq<char>>,
    cables: Seq<StreamCircuitGraphCableView>,
    i: int,
)
    requires
        mountable(runtime, ids),
        mounted_model(
            manifest,
            runtime,
            placement_schema,
            Ok(()),
            Ok(ids),
            Ok(cables),
            Ok(()),
        ) is Ok,
        0 <= i < ids.len(),
    ensures
        ({
            let model = mounted_model(
                manifest,
                runtime,
                placement_schema,
                Ok(()),
                Ok(ids),
                Ok(cables),
                Ok(()),
            )->Ok_0;
            let made = model.circuit_graph.pedals[i];
            let instance = sequence::find_first(
                runtime.instances,
                runtime_graph::is_instance(ids[i]),
            )->Some_0;
            &&& model.package == manifest
            &&& model.runtime_graph == runtime
            &&& model.placement.schema == placement_schema
            &&& model.placement.default_device_id == runtime.default_device_id
            &&& model.circuit_graph.wiring == runtime.wiring
            &&& model.circuit_graph.boundary == runtime.boundary
            &&& model.circuit_graph.cables == cables
            &&& model.circuit_graph.architecture == manifest.circuit_graph.architecture
            &&& made.pedal_id == instance.instance_id
            &&& made.circuit.source_component_id == instance.instance_id
            &&& exists|k: int|
                0 <= k < manifest.circuit_graph.pedals.len() && {
                    let source = #[trigger] manifest.circuit_graph.pedals[k];
                    &&& source.pedal_id == instance.source_component_id
                    &&& made.operator_type == source.operator_type
                    &&& made.runtime_role == source.runtime_role
                    &&& made.implementation == source.implementation
                    &&& made.behavioral_role == source.behavioral_role
                    &&& made.params == source.params
                    &&& made.circuit.nodes == source.circuit.nodes
                    &&& source.runtime_role == CircuitRuntimeRole::SignalProcessor ==> exists|
                        e: int,
                    |
                        0 <= e < model.component_executions.len() && executes(
                            #[trigger] model.component_executions[e],
                            instance,
                            manifest.component_executions,
                        )
                }
        }),
{
    let pedals = manifest.circuit_graph.pedals;
    let instance = sequence::find_first(
        runtime.instances,
        runtime_graph::is_instance(ids[i]),
    )->Some_0;
    lemma_mounted_sources(runtime, pedals, manifest.component_executions, ids, i);
    let k = sequence::lemma_find_last_some(pedals, is_pedal(instance.source_component_id));
    let source = pedals[k];
    let model = mounted_model(
        manifest,
        runtime,
        placement_schema,
        Ok(()),
        Ok(ids),
        Ok(cables),
        Ok(()),
    )->Ok_0;
    let made = model.circuit_graph.pedals[i];
    assert(made == pedal_of_instance(source, runtime.instances, instance));
    assert(made.operator_type == source.operator_type);
    assert(made.implementation == source.implementation);
    assert(made.behavioral_role == source.behavioral_role);
    assert(made.circuit.nodes == source.circuit.nodes);
    if source.runtime_role == CircuitRuntimeRole::SignalProcessor {
        let e = choose|e: int|
            0 <= e < model.component_executions.len() && executes(
                #[trigger] model.component_executions[e],
                instance,
                manifest.component_executions,
            );
        assert(executes(model.component_executions[e], instance, manifest.component_executions));
    }
    assert(manifest.circuit_graph.pedals[k].pedal_id == instance.source_component_id);
}

} // verus!
