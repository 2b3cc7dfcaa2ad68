//! The part of a package's graph that processes signals.

use crate::ordered;
use crate::ordered::OrderedMap;
use crate::ordered::OrderedSet;
use crate::package::graph;
use crate::package::graph::CircuitRuntimeRole;
use crate::package::graph::LoweredCircuitRef;
use crate::package::graph::LoweredPedalboard;
use crate::package::graph::LoweredPedalboardGraph;
use crate::package::graph::LoweredPedalboardGraphView;
use crate::package::graph::LoweredPedalboardSummary;
use crate::package::graph::LoweredPedalboardSummaryView;
use crate::package::graph::LoweredPedalboardView;
use crate::package::graph::ResolvedCircuitArtifact;
use crate::package::graph::ResolvedCircuitArtifactView;
use crate::package::graph::ResolvedLoweredPedalboard;
use crate::package::graph::ResolvedLoweredPedalboardView;
use crate::package::graph::StreamCircuitConnection;
use crate::package::graph::StreamCircuitGraphBoundary;
use crate::package::graph::StreamCircuitGraphBoundaryPort;
use crate::package::graph::StreamCircuitGraphBoundaryPortView;
use crate::package::graph::StreamCircuitGraphBoundaryView;
use crate::package::graph::StreamCircuitGraphCable;
use crate::package::graph::StreamCircuitGraphCableView;
use crate::package::graph::StreamCircuitPlacementSpec;
use crate::package::graph::StreamCircuitPlacementSpecView;
use crate::package::graph::VulkanResidentPackageCircuitGraph;
use crate::package::graph::VulkanResidentPackagePedalCircuit;
use crate::package::graph::VulkanResidentPackagePedalCircuitView;
use crate::package::manifest::VulkanResidentTokenModelPackageError;
use crate::sequence;
use crate::text::Message;
use vstd::prelude::*;

verus! {

// ---------------------------------------------------------------------------
// Which pedals process signals
// ---------------------------------------------------------------------------

/// Whether a pedal's circuit processes signals.
pub open spec fn processes() -> spec_fn(ResolvedCircuitArtifactView) -> bool {
    |artifact: ResolvedCircuitArtifactView|
        artifact.circuit.runtime_role == CircuitRuntimeRole::SignalProcessor
}

/// The name of a pedal.
pub open spec fn id_of() -> spec_fn(ResolvedCircuitArtifactView) -> Seq<char> {
    |artifact: ResolvedCircuitArtifactView| artifact.pedal.id
}

/// The names of the pedals that process signals.
pub open spec fn processor_ids(circuits: Seq<ResolvedCircuitArtifactView>) -> Set<Seq<char>> {
    circuits.filter(processes()).map_values(id_of()).to_set()
}

/// Whether a pedal is among these.
pub open spec fn is_among(ids: Set<Seq<char>>) -> spec_fn(ResolvedCircuitArtifactView) -> bool {
    |artifact: ResolvedCircuitArtifactView| ids.contains(artifact.pedal.id)
}

/// Whether a cable carries a signal on, from one of these pedals to one of them.
pub open spec fn joins(ids: Set<Seq<char>>) -> spec_fn(StreamCircuitGraphCableView) -> bool {
    |cable: StreamCircuitGraphCableView|
        cable.connection == StreamCircuitConnection::Forward && ids.contains(cable.source.pedal_id)
            && ids.contains(cable.destination.pedal_id)
}

/// Whether a cable carries a signal on, from another pedal to one of these.
pub open spec fn enters(ids: Set<Seq<char>>) -> spec_fn(StreamCircuitGraphCableView) -> bool {
    |cable: StreamCircuitGraphCableView|
        cable.connection == StreamCircuitConnection::Forward && !ids.contains(cable.source.pedal_id)
            && ids.contains(cable.destination.pedal_id)
}

/// Whether a cable carries a signal on, from one of these pedals to another.
pub open spec fn leaves(ids: Set<Seq<char>>) -> spec_fn(StreamCircuitGraphCableView) -> bool {
    |cable: StreamCircuitGraphCableView|
        cable.connection == StreamCircuitConnection::Forward && ids.contains(cable.source.pedal_id)
            && !ids.contains(cable.destination.pedal_id)
}

/// Whether a boundary port belongs to one of these pedals.
pub open spec fn port_of(ids: Set<Seq<char>>) -> spec_fn(StreamCircuitGraphBoundaryPortView) -> bool {
    |port: StreamCircuitGraphBoundaryPortView| ids.contains(port.endpoint.pedal_id)
}

/// The boundary port where a cable comes in.
pub open spec fn input_port() -> spec_fn(StreamCircuitGraphCableView) -> StreamCircuitGraphBoundaryPortView {
    |cable: StreamCircuitGraphCableView|
        StreamCircuitGraphBoundaryPortView {
            id: cable.id + "_input"@,
            endpoint: cable.destination,
        }
}

/// The boundary port where a cable goes out.
pub open spec fn output_port() -> spec_fn(StreamCircuitGraphCableView) -> StreamCircuitGraphBoundaryPortView {
    |cable: StreamCircuitGraphCableView|
        StreamCircuitGraphBoundaryPortView { id: cable.id + "_output"@, endpoint: cable.source }
}

/// Where signals come in: the inputs of these pedals, and the cables from other pedals.
pub open spec fn boundary_inputs(
    graph: LoweredPedalboardGraphView,
    ids: Set<Seq<char>>,
) -> Seq<StreamCircuitGraphBoundaryPortView> {
    graph.boundary.external_inputs.filter(port_of(ids)) + graph.cables.filter(
        enters(ids),
    ).map_values(input_port())
}

/// Where signals go out: the outputs of these pedals, and the cables to other pedals.
pub open spec fn boundary_outputs(
    graph: LoweredPedalboardGraphView,
    ids: Set<Seq<char>>,
) -> Seq<StreamCircuitGraphBoundaryPortView> {
    graph.boundary.public_outputs.filter(port_of(ids)) + graph.cables.filter(
        leaves(ids),
    ).map_values(output_port())
}

/// The part of a pedalboard that processes signals.
pub open spec fn processors_of(full: ResolvedLoweredPedalboardView) -> ResolvedLoweredPedalboardView {
    let ids = processor_ids(full.circuits);
    let circuits = full.circuits.filter(is_among(ids));
    ResolvedLoweredPedalboardView {
        artifact_root: full.artifact_root,
        index: LoweredPedalboardView {
            graph: LoweredPedalboardGraphView {
                circuits: circuits.map_values(graph::ref_of()),
                cables: full.index.graph.cables.filter(joins(ids)),
                boundary: StreamCircuitGraphBoundaryView {
                    external_inputs: boundary_inputs(full.index.graph, ids),
                    public_outputs: boundary_outputs(full.index.graph, ids),
                },
                ..full.index.graph
            },
            summary: LoweredPedalboardSummaryView {
                circuit_count: circuits.len() as usize,
                operator_counts: graph::operator_counts(circuits.map_values(graph::operator_of())),
            },
            ..full.index
        },
        circuits,
    }
}

/// The part that processes signals, from what came of checking its index.
pub open spec fn processor_graph(
    full: ResolvedLoweredPedalboardView,
    index_validated: Result<(), Seq<char>>,
) -> Result<ResolvedLoweredPedalboardView, Seq<char>> {
    if full.circuits.filter(processes()).len() == 0 {
        Err("resident package pedalboard contains no signal processors"@)
    } else {
        match index_validated {
            Err(error) => Err(
                "resident package signal-processor graph is invalid: "@ + error,
            ),
            Ok(_) => Ok(processors_of(full)),
        }
    }
}

/// The names of the two pedals at the ends of the part that processes signals.
pub open spec fn endpoint_ids(board: ResolvedLoweredPedalboardView) -> Result<
    (Seq<char>, Seq<char>),
    Seq<char>,
> {
    let boundary = board.index.graph.boundary;
    if boundary.external_inputs.len() != 1 {
        Err(
            "Vulkan generation currently requires exactly one signal-processor input boundary, found "@
                + crate::text::decimal(boundary.external_inputs.len()),
        )
    } else if boundary.public_outputs.len() != 1 {
        Err(
            "Vulkan generation currently requires exactly one signal-processor output boundary, found "@
                + crate::text::decimal(boundary.public_outputs.len()),
        )
    } else {
        Ok(
            (
                boundary.external_inputs[0].endpoint.pedal_id,
                boundary.public_outputs[0].endpoint.pedal_id,
            ),
        )
    }
}

// ---------------------------------------------------------------------------
// Computing it
// ---------------------------------------------------------------------------

#[verifier::loop_isolation(false)]
fn ids_of_processors(circuits: &Vec<ResolvedCircuitArtifact>) -> (r: OrderedSet<String>)
    ensures
        r.sorted(),
        r@ == processor_ids(circuits.deep_view()),
        r.elements@.len() == 0 <==> circuits.deep_view().filter(processes()).len() == 0,
{
    let ghost all_found = circuits.deep_view();
    let ghost kept_found = processes();
    let mut found: Vec<ResolvedCircuitArtifact> = Vec::new();
    let mut i: usize = 0;
    proof {
        reveal(Seq::filter);
        assert(all_found.take(0) =~= Seq::empty());
        assert(found.deep_view() =~= all_found.take(0).filter(kept_found));
    }
    while i < circuits.len()
        invariant
            i <= circuits.len(),
            found.deep_view() == all_found.take(i as int).filter(kept_found),
        decreases circuits.len() - i,
    {
        let item = &circuits[i];
        proof {
            assert(all_found[i as int] == item.deep_view());
            sequence::lemma_filter_step(all_found, kept_found, i as int);
        }
        if item.circuit.runtime_role.is_signal_processor() {
            let ghost before = found.deep_view();
            found.push(item.clone());
            assert(found.deep_view() =~= before.push(item.deep_view()));
        }
        i += 1;
    }
    assert(all_found.take(all_found.len() as int) =~= all_found);
    let ghost all_ids = found.deep_view();
    let ghost step_ids = id_of();
    let mut ids: Vec<String> = Vec::new();
    let mut i: usize = 0;
    while i < found.len()
        invariant
            i <= found.len(),
            ids@.len() == i,
            forall|j: int| 0 <= j < i ==> (#[trigger] ids.deep_view()[j]) == step_ids(all_ids[j]),
        decreases found.len() - i,
    {
        let item = &found[i];
        assert(all_ids[i as int] == item.deep_view());
        let added = item.pedal.id.clone();
        let ghost before = ids.deep_view();
        let ghost value = added.deep_view();
        ids.push(added);
        assert(ids.deep_view() =~= before.push(value));
        i += 1;
    }
    assert(ids.deep_view() =~= all_ids.map_values(step_ids));
    let set: OrderedSet<String> = ordered::distinct_texts(&ids);
    proof {
        let list = ids.deep_view();
        if list.len() > 0 {
            assert(list.contains(list[0]));
            assert(list.to_set().contains(list[0]));
            assert(set.elements.deep_view().to_set().contains(list[0]));
        } else {
            assert(list.to_set() =~= Set::<Seq<char>>::empty());
            if set.elements@.len() > 0 {
                let x = set.elements.deep_view()[0];
                assert(set.elements.deep_view().contains(x));
                assert(set.elements.deep_view().to_set().contains(x));
            }
        }
    }
    set
}

#[verifier::loop_isolation(false)]
fn boundary_ports(
    own: &Vec<StreamCircuitGraphBoundaryPort>,
    ids: &OrderedSet<String>,
    crossing: &Vec<StreamCircuitGraphBoundaryPort>,
) -> (r: Vec<StreamCircuitGraphBoundaryPort>)
    requires
        ids.sorted(),
    ensures
        r.deep_view() == own.deep_view().filter(port_of(ids@)) + crossing.deep_view(),
{
    let ghost all_ports = own.deep_view();
    let ghost kept_ports = port_of(ids@);
    let mut ports: Vec<StreamCircuitGraphBoundaryPort> = Vec::new();
    let mut i: usize = 0;
    proof {
        reveal(Seq::filter);
        assert(all_ports.take(0) =~= Seq::empty());
        assert(ports.deep_view() =~= all_ports.take(0).filter(kept_ports));
    }
    while i < own.len()
        invariant
            i <= own.len(),
            ports.deep_view() == all_ports.take(i as int).filter(kept_ports),
        decreases own.len() - i,
    {
        let item = &own[i];
        proof {
            assert(all_ports[i as int] == item.deep_view());
            sequence::lemma_filter_step(all_ports, kept_ports, i as int);
        }
        if ids.contains(&item.endpoint.pedal_id) {
            let ghost before = ports.deep_view();
            ports.push(item.clone());
            assert(ports.deep_view() =~= before.push(item.deep_view()));
        }
        i += 1;
    }
    assert(all_ports.take(all_ports.len() as int) =~= all_ports);
    let ghost first = ports.deep_view();
    let mut k: usize = 0;
    assert(first + crossing.deep_view().take(0) =~= first);
    while k < crossing.len()
        invariant
            k <= crossing.len(),
            ports.deep_view() == first + crossing.deep_view().take(k as int),
        decreases crossing.len() - k,
    {
        let ghost before = ports.deep_view();
        ports.push(crossing[k].clone());
        assert(ports.deep_view() =~= before.push(crossing.deep_view()[k as int]));
        assert(crossing.deep_view().take(k + 1) =~= crossing.deep_view().take(k as int).push(
            crossing.deep_view()[k as int],
        ));
        k += 1;
    }
    assert(crossing.deep_view().take(crossing@.len() as int) =~= crossing.deep_view());
    ports
}

/// Where signals come in: the inputs of these pedals, and the cables from other pedals.
#[verifier::loop_isolation(false)]
pub fn execution_boundary_inputs(graph: &LoweredPedalboardGraph, ids: &OrderedSet<String>) -> (r: Vec<
    StreamCircuitGraphBoundaryPort,
>)
    requires
        ids.sorted(),
    ensures
        r.deep_view() == boundary_inputs(graph@, ids@),
{
    let cables: &Vec<StreamCircuitGraphCable> = &graph.cables;
    let ghost all_entering = cables.deep_view();
    let ghost kept_entering = enters(ids@);
    let mut entering: Vec<StreamCircuitGraphCable> = Vec::new();
    let mut i: usize = 0;
    proof {
        reveal(Seq::filter);
        assert(all_entering.take(0) =~= Seq::empty());
        assert(entering.deep_view() =~= all_entering.take(0).filter(kept_entering));
    }
    while i < cables.len()
        invariant
            i <= cables.len(),
            entering.deep_view() == all_entering.take(i as int).filter(kept_entering),
        decreases cables.len() - i,
    {
        let item = &cables[i];
        proof {
            assert(all_entering[i as int] == item.deep_view());
            sequence::lemma_filter_step(all_entering, kept_entering, i as int);
        }
        if item.connection.is_forward() && !ids.contains(&item.source.pedal_id) && ids.contains(&item.destination.pedal_id) {
            let ghost before = entering.deep_view();
            entering.push(item.clone());
            assert(entering.deep_view() =~= before.push(item.deep_view()));
        }
        i += 1;
    }
    assert(all_entering.take(all_entering.len() as int) =~= all_entering);
    let ghost all_ports = entering.deep_view();
    let ghost step_ports = input_port();
    let mut ports: Vec<StreamCircuitGraphBoundaryPort> = Vec::new();
    let mut i: usize = 0;
    while i < entering.len()
        invariant
            i <= entering.len(),
            ports@.len() == i,
            forall|j: int| 0 <= j < i ==> (#[trigger] ports.deep_view()[j]) == step_ports(all_ports[j]),
        decreases entering.len() - i,
    {
        let item = &entering[i];
        assert(all_ports[i as int] == item.deep_view());
        let added = StreamCircuitGraphBoundaryPort { id: Message::new(item.id.as_str()).text("_input").done(), endpoint: item.destination.clone() };
        let ghost before = ports.deep_view();
        let ghost value = added.deep_view();
        ports.push(added);
        assert(ports.deep_view() =~= before.push(value));
        i += 1;
    }
    assert(ports.deep_view() =~= all_ports.map_values(step_ports));
    boundary_ports(&graph.boundary.external_inputs, ids, &ports)
}

/// Where signals go out: the outputs of these pedals, and the cables to other pedals.
#[verifier::loop_isolation(false)]
pub fn execution_boundary_outputs(
    graph: &LoweredPedalboardGraph,
    ids: &OrderedSet<String>,
) -> (r: Vec<StreamCircuitGraphBoundaryPort>)
    requires
        ids.sorted(),
    ensures
        r.deep_view() == boundary_outputs(graph@, ids@),
{
    let cables: &Vec<StreamCircuitGraphCable> = &graph.cables;
    let ghost all_leaving = cables.deep_view();
    let ghost kept_leaving = leaves(ids@);
    let mut leaving: Vec<StreamCircuitGraphCable> = Vec::new();
    let mut i: usize = 0;
    proof {
        reveal(Seq::filter);
        assert(all_leaving.take(0) =~= Seq::empty());
        assert(leaving.deep_view() =~= all_leaving.take(0).filter(kept_leaving));
    }
    while i < cables.len()
        invariant
            i <= cables.len(),
            leaving.deep_view() == all_leaving.take(i as int).filter(kept_leaving),
        decreases cables.len() - i,
    {
        let item = &cables[i];
        proof {
            assert(all_leaving[i as int] == item.deep_view());
            sequence::lemma_filter_step(all_leaving, kept_leaving, i as int);
        }
        if item.connection.is_forward() && ids.contains(&item.source.pedal_id) && !ids.contains(&item.destination.pedal_id) {
            let ghost before = leaving.deep_view();
            leaving.push(item.clone());
            assert(leaving.deep_view() =~= before.push(item.deep_view()));
        }
        i += 1;
    }
    assert(all_leaving.take(all_leaving.len() as int) =~= all_leaving);
    let ghost all_ports = leaving.deep_view();
    let ghost step_ports = output_port();
    let mut ports: Vec<StreamCircuitGraphBoundaryPort> = Vec::new();
    let mut i: usize = 0;
    while i < leaving.len()
        invariant
            i <= leaving.len(),
            ports@.len() == i,
            forall|j: int| 0 <= j < i ==> (#[trigger] ports.deep_view()[j]) == step_ports(all_ports[j]),
        decreases leaving.len() - i,
    {
        let item = &leaving[i];
        assert(all_ports[i as int] == item.deep_view());
        let added = StreamCircuitGraphBoundaryPort { id: Message::new(item.id.as_str()).text("_output").done(), endpoint: item.source.clone() };
        let ghost before = ports.deep_view();
        let ghost value = added.deep_view();
        ports.push(added);
        assert(ports.deep_view() =~= before.push(value));
        i += 1;
    }
    assert(ports.deep_view() =~= all_ports.map_values(step_ports));
    boundary_ports(&graph.boundary.public_outputs, ids, &ports)
}

#[verifier::loop_isolation(false)]
fn cables_joining(cables: &Vec<StreamCircuitGraphCable>, ids: &OrderedSet<String>) -> (r: Vec<
    StreamCircuitGraphCable,
>)
    requires
        ids.sorted(),
    ensures
        r.deep_view() == cables.deep_view().filter(joins(ids@)),
{
    let ghost all_joining = cables.deep_view();
    let ghost kept_joining = joins(ids@);
    let mut joining: Vec<StreamCircuitGraphCable> = Vec::new();
    let mut i: usize = 0;
    proof {
        reveal(Seq::filter);
        assert(all_joining.take(0) =~= Seq::empty());
        assert(joining.deep_view() =~= all_joining.take(0).filter(kept_joining));
    }
    while i < cables.len()
        invariant
            i <= cables.len(),
            joining.deep_view() == all_joining.take(i as int).filter(kept_joining),
        decreases cables.len() - i,
    {
        let item = &cables[i];
        proof {
            assert(all_joining[i as int] == item.deep_view());
            sequence::lemma_filter_step(all_joining, kept_joining, i as int);
        }
        if item.connection.is_forward() && ids.contains(&item.source.pedal_id) && ids.contains(&item.destination.pedal_id) {
            let ghost before = joining.deep_view();
            joining.push(item.clone());
            assert(joining.deep_view() =~= before.push(item.deep_view()));
        }
        i += 1;
    }
    assert(all_joining.take(all_joining.len() as int) =~= all_joining);
    joining
}

#[verifier::loop_isolation(false)]
fn circuits_among(circuits: &Vec<ResolvedCircuitArtifact>, ids: &OrderedSet<String>) -> (r: Vec<
    ResolvedCircuitArtifact,
>)
    requires
        ids.sorted(),
    ensures
        r.deep_view() == circuits.deep_view().filter(is_among(ids@)),
{
    let ghost all_among = circuits.deep_view();
    let ghost kept_among = is_among(ids@);
    let mut among: Vec<ResolvedCircuitArtifact> = Vec::new();
    let mut i: usize = 0;
    proof {
        reveal(Seq::filter);
        assert(all_among.take(0) =~= Seq::empty());
        assert(among.deep_view() =~= all_among.take(0).filter(kept_among));
    }
    while i < circuits.len()
        invariant
            i <= circuits.len(),
            among.deep_view() == all_among.take(i as int).filter(kept_among),
        decreases circuits.len() - i,
    {
        let item = &circuits[i];
        proof {
            assert(all_among[i as int] == item.deep_view());
            sequence::lemma_filter_step(all_among, kept_among, i as int);
        }
        if ids.contains(&item.pedal.id) {
            let ghost before = among.deep_view();
            among.push(item.clone());
            assert(among.deep_view() =~= before.push(item.deep_view()));
        }
        i += 1;
    }
    assert(all_among.take(all_among.len() as int) =~= all_among);
    among
}

/// The part of a pedalboard that processes signals, from what came of checking its index.
pub fn signal_processors(
    full: ResolvedLoweredPedalboard,
    index_validated: &Result<(), String>,
) -> (r: Result<ResolvedLoweredPedalboard, VulkanResidentTokenModelPackageError>)
    ensures
        sequence::outcome(r) == processor_graph(full@, sequence::outcome(*index_validated)),
{
    let ids: OrderedSet<String> = ids_of_processors(&full.circuits);
    if ids.elements.len() == 0 {
        return Err(
            VulkanResidentTokenModelPackageError(
                "resident package pedalboard contains no signal processors".to_owned(),
            ),
        );
    }
    match index_validated {
        Err(error) => {
            return Err(
                VulkanResidentTokenModelPackageError(
                    Message::new("resident package signal-processor graph is invalid: ").text(
                        error.as_str(),
                    ).done(),
                ),
            );
        },
        Ok(_) => {},
    }
    let circuits: Vec<ResolvedCircuitArtifact> = circuits_among(&full.circuits, &ids);
    let circuit_refs: Vec<LoweredCircuitRef> = graph::refs_of(&circuits);
    let cables: Vec<StreamCircuitGraphCable> = cables_joining(&full.index.graph.cables, &ids);
    let external_inputs: Vec<StreamCircuitGraphBoundaryPort> = execution_boundary_inputs(
        &full.index.graph,
        &ids,
    );
    let public_outputs: Vec<StreamCircuitGraphBoundaryPort> = execution_boundary_outputs(
        &full.index.graph,
        &ids,
    );
    let operator_counts: OrderedMap<String, usize> = graph::count_operators(&circuits);
    let circuit_count: usize = circuits.len();
    Ok(
        ResolvedLoweredPedalboard {
            artifact_root: full.artifact_root,
            index: LoweredPedalboard {
                schema: full.index.schema,
                source_format: full.index.source_format,
                source_artifact_root: full.index.source_artifact_root,
                architecture: full.index.architecture,
                dimensions: full.index.dimensions,
                graph: LoweredPedalboardGraph {
                    wiring: full.index.graph.wiring,
                    circuits: circuit_refs,
                    cables,
                    boundary: StreamCircuitGraphBoundary { external_inputs, public_outputs },
                    input_transducer: full.index.graph.input_transducer,
                    output_transducer: full.index.graph.output_transducer,
                },
                summary: LoweredPedalboardSummary { circuit_count, operator_counts },
                notes: full.index.notes,
            },
            circuits,
        },
    )
}

/// The names of the pedals at the ends of the part that processes signals.
pub fn endpoint_pedal_ids(board: &ResolvedLoweredPedalboard) -> (r: Result<
    (String, String),
    VulkanResidentTokenModelPackageError,
>)
    ensures
        sequence::outcome(r) == endpoint_ids(board@),
{
    let boundary: &StreamCircuitGraphBoundary = &board.index.graph.boundary;
    if boundary.external_inputs.len() != 1 {
        return Err(
            VulkanResidentTokenModelPackageError(
                Message::new(
                    "Vulkan generation currently requires exactly one signal-processor input boundary, found ",
                ).number(boundary.external_inputs.len()).done(),
            ),
        );
    }
    if boundary.public_outputs.len() != 1 {
        return Err(
            VulkanResidentTokenModelPackageError(
                Message::new(
                    "Vulkan generation currently requires exactly one signal-processor output boundary, found ",
                ).number(boundary.public_outputs.len()).done(),
            ),
        );
    }
    assert(board@.index.graph.boundary.external_inputs[0] == boundary.external_inputs@[0]@);
    assert(board@.index.graph.boundary.public_outputs[0] == boundary.public_outputs@[0]@);
    Ok(
        (
            boundary.external_inputs[0].endpoint.pedal_id.clone(),
            boundary.public_outputs[0].endpoint.pedal_id.clone(),
        ),
    )
}

/// What came of checking the parts of a package's graph: each pedal, its index, and the index of
/// the part that processes signals.
pub struct GraphChecks {
    pub pedals: Vec<Result<(), String>>,
    pub index: Result<(), String>,
    pub processor_index: Result<(), String>,
}

/// The part of a package's graph that processes signals, from what came of checking it.
pub open spec fn package_processors(
    graph: crate::package::graph::VulkanResidentPackageCircuitGraphView,
    package_root: Seq<char>,
    schema: Seq<char>,
    checks: GraphChecks,
) -> Result<ResolvedLoweredPedalboardView, Seq<char>> {
    match graph::resolved_pedalboard(
        graph,
        package_root,
        schema,
        sequence::outcomes(checks.pedals@),
        sequence::outcome(checks.index),
    ) {
        Err(error) => Err(error),
        Ok(full) => processor_graph(full, sequence::outcome(checks.processor_index)),
    }
}

/// Whether a pedal processes signals.
pub open spec fn pedal_processes() -> spec_fn(VulkanResidentPackagePedalCircuitView) -> bool {
    |pedal: VulkanResidentPackagePedalCircuitView|
        pedal.runtime_role == CircuitRuntimeRole::SignalProcessor
}

/// The name of a pedal.
pub open spec fn pedal_name() -> spec_fn(VulkanResidentPackagePedalCircuitView) -> Seq<char> {
    |pedal: VulkanResidentPackagePedalCircuitView| pedal.pedal_id
}

/// The device that a pedal is placed on.
pub open spec fn device_of(placement: StreamCircuitPlacementSpecView, pedal_id: Seq<char>) -> Seq<char> {
    if placement.pedal_devices.contains_key(pedal_id) {
        placement.pedal_devices[pedal_id]
    } else {
        placement.default_device_id
    }
}

/// The device that each pedal is placed on.
pub open spec fn device_of_pedal(placement: StreamCircuitPlacementSpecView) -> spec_fn(
    VulkanResidentPackagePedalCircuitView,
) -> Seq<char> {
    |pedal: VulkanResidentPackagePedalCircuitView| device_of(placement, pedal.pedal_id)
}

/// The placement of the pedals that process signals.
pub open spec fn processor_placement(
    pedals: Seq<VulkanResidentPackagePedalCircuitView>,
    placement: StreamCircuitPlacementSpecView,
) -> StreamCircuitPlacementSpecView {
    StreamCircuitPlacementSpecView {
        pedal_devices: placement.pedal_devices.restrict(
            pedals.filter(pedal_processes()).map_values(pedal_name()).to_set(),
        ),
        ..placement
    }
}

/// The devices of the pedals that process signals, in order.
pub open spec fn processor_devices(
    pedals: Seq<VulkanResidentPackagePedalCircuitView>,
    placement: StreamCircuitPlacementSpecView,
) -> Seq<Seq<char>> {
    ordered::sorted_elements::<String>(
        pedals.filter(pedal_processes()).map_values(device_of_pedal(placement)).to_set(),
    )
}

impl StreamCircuitPlacementSpec {
    /// The device that a pedal is placed on.
    pub fn device_for_pedal(&self, pedal_id: &String) -> (r: &String)
        requires
            self.pedal_devices.sorted(),
        ensures
            r@ == device_of(self@, pedal_id@),
    {
        match self.pedal_devices.get(pedal_id) {
            Some(device) => device,
            None => &self.default_device_id,
        }
    }
}

#[verifier::loop_isolation(false)]
fn pedals_that_process(pedals: &Vec<VulkanResidentPackagePedalCircuit>) -> (r: Vec<
    VulkanResidentPackagePedalCircuit,
>)
    ensures
        r.deep_view() == pedals.deep_view().filter(pedal_processes()),
{
    let ghost all_found = pedals.deep_view();
    let ghost kept_found = pedal_processes();
    let mut found: Vec<VulkanResidentPackagePedalCircuit> = Vec::new();
    let mut i: usize = 0;
    proof {
        reveal(Seq::filter);
        assert(all_found.take(0) =~= Seq::empty());
        assert(found.deep_view() =~= all_found.take(0).filter(kept_found));
    }
    while i < pedals.len()
        invariant
            i <= pedals.len(),
            found.deep_view() == all_found.take(i as int).filter(kept_found),
        decreases pedals.len() - i,
    {
        let item = &pedals[i];
        proof {
            assert(all_found[i as int] == item.deep_view());
            sequence::lemma_filter_step(all_found, kept_found, i as int);
        }
        if item.runtime_role.is_signal_processor() {
            let ghost before = found.deep_view();
            found.push(item.clone());
            assert(found.deep_view() =~= before.push(item.deep_view()));
        }
        i += 1;
    }
    assert(all_found.take(all_found.len() as int) =~= all_found);
    found
}

/// The entries of these keys.
#[verifier::loop_isolation(false)]
fn restricted(devices: &OrderedMap<String, String>, ids: &OrderedSet<String>) -> (r: OrderedMap<
    String,
    String,
>)
    requires
        devices.sorted(),
        ids.sorted(),
    ensures
        r.sorted(),
        r@ == devices@.restrict(ids@),
{
    let ghost all = devices.entries.deep_view();
    proof {
        ordered::lemma_increasing_entries::<String, Seq<char>>(all);
    }
    let mut kept: OrderedMap<String, String> = OrderedMap::new();
    let mut i: usize = 0;
    while i < devices.entries.len()
        invariant
            i <= devices.entries.len(),
            kept.sorted(),
            forall|k: Seq<char>| #[trigger]
                kept@.contains_key(k) <==> ids@.contains(k) && exists|j: int|
                    0 <= j < i && (#[trigger] all[j]).0 == k,
            forall|j: int|
                0 <= j < i && ids@.contains((#[trigger] all[j]).0) ==> kept@[all[j].0] == all[j].1,
        decreases devices.entries.len() - i,
    {
        let entry: &(String, String) = &devices.entries[i];
        assert(all[i as int] == (entry.0@, entry.1@));
        if ids.contains(&entry.0) {
            kept.insert(entry.0.clone(), entry.1.clone());
        }
        i += 1;
    }
    proof {
        assert(kept@ =~= devices@.restrict(ids@));
    }
    kept
}

impl VulkanResidentPackageCircuitGraph {
    /// The part of the package's graph that processes signals, from what came of checking it.
    pub fn to_signal_processor_graph(
        &self,
        package_root: &str,
        schema: &str,
        checks: &GraphChecks,
    ) -> (r: Result<ResolvedLoweredPedalboard, VulkanResidentTokenModelPackageError>)
        requires
            checks.pedals@.len() >= self@.pedals.len(),
        ensures
            sequence::outcome(r) == package_processors(self@, package_root@, schema@, *checks),
    {
        match self.to_resolved_lowered_pedalboard(
            package_root,
            schema,
            &checks.pedals,
            &checks.index,
        ) {
            Err(error) => Err(error),
            Ok(full) => signal_processors(full, &checks.processor_index),
        }
    }

    /// The placement of the pedals that process signals.
    #[verifier::loop_isolation(false)]
    pub fn signal_processor_placement(&self, placement: &StreamCircuitPlacementSpec) -> (r:
        StreamCircuitPlacementSpec)
        requires
            placement.pedal_devices.sorted(),
        ensures
            r.pedal_devices.sorted(),
            r@ == processor_placement(self@.pedals, placement@),
    {
        let found: Vec<VulkanResidentPackagePedalCircuit> = pedals_that_process(&self.pedals);
        let ghost all_ids = found.deep_view();
        let ghost step_ids = pedal_name();
        let mut ids: Vec<String> = Vec::new();
        let mut i: usize = 0;
        while i < found.len()
            invariant
                i <= found.len(),
                ids@.len() == i,
                forall|j: int| 0 <= j < i ==> (#[trigger] ids.deep_view()[j]) == step_ids(all_ids[j]),
            decreases found.len() - i,
        {
            let item = &found[i];
            assert(all_ids[i as int] == item.deep_view());
            let added = item.pedal_id.clone();
            let ghost before = ids.deep_view();
            let ghost value = added.deep_view();
            ids.push(added);
            assert(ids.deep_view() =~= before.push(value));
            i += 1;
        }
        assert(ids.deep_view() =~= all_ids.map_values(step_ids));
        let processor_ids: OrderedSet<String> = ordered::distinct_texts(&ids);
        StreamCircuitPlacementSpec {
            schema: placement.schema.clone(),
            default_device_id: placement.default_device_id.clone(),
            pedal_devices: restricted(&placement.pedal_devices, &processor_ids),
        }
    }

    /// The names of the pedals at the ends of the part that processes signals.
    pub fn signal_processor_endpoint_pedal_ids(&self, schema: &str, checks: &GraphChecks) -> (r: Result<
        (String, String),
        VulkanResidentTokenModelPackageError,
    >)
        requires
            checks.pedals@.len() >= self@.pedals.len(),
        ensures
            sequence::outcome(r) == (match package_processors(self@, "."@, schema@, *checks) {
                Err(error) => Err(error),
                Ok(board) => endpoint_ids(board),
            }),
    {
        match self.to_signal_processor_graph(".", schema, checks) {
            Err(error) => Err(error),
            Ok(board) => endpoint_pedal_ids(&board),
        }
    }

    /// The devices of the pedals that process signals, in order.
    #[verifier::loop_isolation(false)]
    pub fn signal_processor_device_ids(&self, placement: &StreamCircuitPlacementSpec) -> (r: Vec<
        String,
    >)
        requires
            placement.pedal_devices.sorted(),
        ensures
            r.deep_view() == processor_devices(self@.pedals, placement@),
    {
        let found: Vec<VulkanResidentPackagePedalCircuit> = pedals_that_process(&self.pedals);
        let ghost all_devices = found.deep_view();
        let ghost step_devices = device_of_pedal(placement@);
        let mut devices: Vec<String> = Vec::new();
        let mut i: usize = 0;
        while i < found.len()
            invariant
                i <= found.len(),
                devices@.len() == i,
                forall|j: int| 0 <= j < i ==> (#[trigger] devices.deep_view()[j]) == step_devices(all_devices[j]),
            decreases found.len() - i,
        {
            let item = &found[i];
            assert(all_devices[i as int] == item.deep_view());
            let added = placement.device_for_pedal(&item.pedal_id).clone();
            let ghost before = devices.deep_view();
            let ghost value = added.deep_view();
            devices.push(added);
            assert(devices.deep_view() =~= before.push(value));
            i += 1;
        }
        assert(devices.deep_view() =~= all_devices.map_values(step_devices));
        ordered::distinct_texts(&devices).elements
    }
}

// ---------------------------------------------------------------------------
// Laws
// ---------------------------------------------------------------------------

/// Whether a pedalboard has a pedal of this name.
pub open spec fn has_pedal(board: ResolvedLoweredPedalboardView, id: Seq<char>) -> bool {
    exists|i: int| 0 <= i < board.circuits.len() && (#[trigger] board.circuits[i]).pedal.id == id
}

/// The part of a pedalboard that processes signals is closed: its cables run forward between its
/// own pedals, and its boundary ports belong to them.
pub proof fn processors_are_joined_among_themselves(full: ResolvedLoweredPedalboardView)
    ensures
        ({
            let part = processors_of(full);
            &&& forall|i: int|
                0 <= i < part.index.graph.cables.len() ==> {
                    let cable = #[trigger] part.index.graph.cables[i];
                    &&& cable.connection == StreamCircuitConnection::Forward
                    &&& has_pedal(part, cable.source.pedal_id)
                    &&& has_pedal(part, cable.destination.pedal_id)
                }
            &&& forall|i: int|
                0 <= i < part.index.graph.boundary.external_inputs.len() ==> has_pedal(
                    part,
                    (#[trigger] part.index.graph.boundary.external_inputs[i]).endpoint.pedal_id,
                )
            &&& forall|i: int|
                0 <= i < part.index.graph.boundary.public_outputs.len() ==> has_pedal(
                    part,
                    (#[trigger] part.index.graph.boundary.public_outputs[i]).endpoint.pedal_id,
                )
        }),
{
    broadcast use vstd::seq_lib::group_filter_ensures;

    let part = processors_of(full);
    let ids = processor_ids(full.circuits);
    assert forall|id: Seq<char>| ids.contains(id) implies #[trigger] has_pedal(part, id) by {
        let found = full.circuits.filter(processes());
        let names = found.map_values(id_of());
        assert(names.contains(id));
        let k = choose|k: int| 0 <= k < names.len() && names[k] == id;
        assert(found[k].pedal.id == id);
        sequence::lemma_kept_is_given(full.circuits, processes(), k);
        let i = choose|i: int| 0 <= i < full.circuits.len() && full.circuits[i] == found[k];
        assert(is_among(ids)(full.circuits[i]));
        assert(part.circuits.contains(full.circuits[i]));
        let j = choose|j: int| 0 <= j < part.circuits.len() && part.circuits[j] == full.circuits[i];
        assert(part.circuits[j].pedal.id == id);
    }
    assert forall|i: int| 0 <= i < part.index.graph.cables.len() implies joins(ids)(
        #[trigger] part.index.graph.cables[i],
    ) by {
        assert(part.index.graph.cables[i] == full.index.graph.cables.filter(joins(ids))[i]);
    }
    let inputs = full.index.graph.boundary.external_inputs.filter(port_of(ids));
    let entering = full.index.graph.cables.filter(enters(ids));
    assert forall|i: int| 0 <= i < part.index.graph.boundary.external_inputs.len() implies has_pedal(
        part,
        (#[trigger] part.index.graph.boundary.external_inputs[i]).endpoint.pedal_id,
    ) by {
        if i < inputs.len() {
            assert(part.index.graph.boundary.external_inputs[i] == inputs[i]);
            assert(port_of(ids)(inputs[i]));
        } else {
            assert(enters(ids)(entering[i - inputs.len()]));
        }
    }
    let outputs = full.index.graph.boundary.public_outputs.filter(port_of(ids));
    let leaving = full.index.graph.cables.filter(leaves(ids));
    assert forall|i: int| 0 <= i < part.index.graph.boundary.public_outputs.len() implies has_pedal(
        part,
        (#[trigger] part.index.graph.boundary.public_outputs[i]).endpoint.pedal_id,
    ) by {
        if i < outputs.len() {
            assert(part.index.graph.boundary.public_outputs[i] == outputs[i]);
            assert(port_of(ids)(outputs[i]));
        } else {
            assert(leaves(ids)(leaving[i - outputs.len()]));
        }
    }
}

/// The processors of a board are its circuits whose role is to process a signal, and no others; its
/// refs and its summary follow them.
pub proof fn processor_boards_hold_the_processors(full: ResolvedLoweredPedalboardView, i: int)
    requires
        full.circuits.len() <= usize::MAX,
    ensures
        ({
            let part = processors_of(full);
            &&& part.artifact_root == full.artifact_root
            &&& part.index.schema == full.index.schema
            &&& part.index.architecture == full.index.architecture
            &&& part.index.dimensions == full.index.dimensions
            &&& part.index.graph.wiring == full.index.graph.wiring
            &&& part.index.summary.circuit_count == part.circuits.len()
            &&& part.index.graph.circuits.len() == part.circuits.len()
            &&& 0 <= i < part.circuits.len() ==> {
                &&& full.circuits.contains(part.circuits[i])
                &&& part.index.graph.circuits[i] == part.circuits[i].pedal
                &&& exists|k: int|
                    0 <= k < full.circuits.len() && (#[trigger] full.circuits[k]).pedal.id
                        == part.circuits[i].pedal.id && full.circuits[k].circuit.runtime_role
                        == CircuitRuntimeRole::SignalProcessor
            }
            &&& 0 <= i < full.circuits.len() && full.circuits[i].circuit.runtime_role
                == CircuitRuntimeRole::SignalProcessor ==> part.circuits.contains(full.circuits[i])
        }),
{
    let ids = processor_ids(full.circuits);
    let kept = full.circuits.filter(processes());
    let names = kept.map_values(id_of());
    let part = processors_of(full);
    full.circuits.lemma_filter_len(is_among(ids));
    if 0 <= i < part.circuits.len() {
        sequence::lemma_kept_is_given(full.circuits, is_among(ids), i);
        full.circuits.lemma_filter_pred(is_among(ids), i);
        let n = choose|n: int| 0 <= n < names.len() && names[n] == part.circuits[i].pedal.id;
        sequence::lemma_kept_is_given(full.circuits, processes(), n);
        full.circuits.lemma_filter_pred(processes(), n);
        let k = choose|k: int| 0 <= k < full.circuits.len() && full.circuits[k] == kept[n];
        assert(full.circuits[k].pedal.id == part.circuits[i].pedal.id);
    }
    if 0 <= i < full.circuits.len() && processes()(full.circuits[i]) {
        full.circuits.lemma_filter_contains(processes(), i);
        let n = choose|n: int| 0 <= n < kept.len() && kept[n] == full.circuits[i];
        assert(names[n] == full.circuits[i].pedal.id);
        assert(is_among(ids)(full.circuits[i]));
        full.circuits.lemma_filter_contains(is_among(ids), i);
    }
}

/// A cable that comes to a processor from outside becomes an input of the processors' board, at its
/// destination; one that leads from a processor to the outside becomes an output, at its source.
pub proof fn cut_cables_become_ports(full: ResolvedLoweredPedalboardView, c: int)
    requires
        0 <= c < full.index.graph.cables.len(),
        full.index.graph.cables[c].connection == StreamCircuitConnection::Forward,
    ensures
        ({
            let part = processors_of(full);
            let ids = processor_ids(full.circuits);
            let cable = full.index.graph.cables[c];
            let from_inside = ids.contains(cable.source.pedal_id);
            let to_inside = ids.contains(cable.destination.pedal_id);
            let inputs = part.index.graph.boundary.external_inputs;
            let outputs = part.index.graph.boundary.public_outputs;
            &&& from_inside && to_inside ==> part.index.graph.cables.contains(cable)
            &&& !from_inside && to_inside ==> exists|k: int|
                0 <= k < inputs.len() && (#[trigger] inputs[k]).endpoint == cable.destination
                    && inputs[k].id == cable.id + "_input"@
            &&& from_inside && !to_inside ==> exists|k: int|
                0 <= k < outputs.len() && (#[trigger] outputs[k]).endpoint == cable.source
                    && outputs[k].id == cable.id + "_output"@
        }),
{
    let ids = processor_ids(full.circuits);
    let graph = full.index.graph;
    let cable = graph.cables[c];
    let part = processors_of(full);
    if joins(ids)(cable) {
        graph.cables.lemma_filter_contains(joins(ids), c);
    } else if enters(ids)(cable) {
        let kept = graph.cables.filter(enters(ids));
        graph.cables.lemma_filter_contains(enters(ids), c);
        let k = choose|k: int| 0 <= k < kept.len() && kept[k] == cable;
        let before = graph.boundary.external_inputs.filter(port_of(ids)).len();
        assert(part.index.graph.boundary.external_inputs[before + k].endpoint
            == cable.destination);
    } else if leaves(ids)(cable) {
        let kept = graph.cables.filter(leaves(ids));
        graph.cables.lemma_filter_contains(leaves(ids), c);
        let k = choose|k: int| 0 <= k < kept.len() && kept[k] == cable;
        let before = graph.boundary.public_outputs.filter(port_of(ids)).len();
        assert(part.index.graph.boundary.public_outputs[before + k].endpoint == cable.source);
    }
}

/// The board of the processors has one way in and one way out: they are named by the pedals that the
/// two boundary ports lie on.
pub proof fn ends_are_the_boundary_pedals(board: ResolvedLoweredPedalboardView)
    ensures
        ({
            let boundary = board.index.graph.boundary;
            &&& endpoint_ids(board) is Ok <==> boundary.external_inputs.len() == 1
                && boundary.public_outputs.len() == 1
            &&& endpoint_ids(board) matches Ok((first, last)) ==> first
                == boundary.external_inputs[0].endpoint.pedal_id && last
                == boundary.public_outputs[0].endpoint.pedal_id
        }),
{
}

/// The placement of the processors places each of them as before, and its devices are those that a
/// processor is placed on.
pub proof fn processors_stay_on_their_devices(
    pedals: Seq<VulkanResidentPackagePedalCircuitView>,
    placement: StreamCircuitPlacementSpecView,
    i: int,
)
    requires
        0 <= i < pedals.len(),
        pedals[i].runtime_role == CircuitRuntimeRole::SignalProcessor,
    ensures
        device_of(processor_placement(pedals, placement), pedals[i].pedal_id) == device_of(
            placement,
            pedals[i].pedal_id,
        ),
        processor_placement(pedals, placement).default_device_id == placement.default_device_id,
        processor_devices(pedals, placement).contains(device_of(placement, pedals[i].pedal_id)),
        placement.pedal_devices.contains_key(pedals[i].pedal_id) ==> device_of(
            placement,
            pedals[i].pedal_id,
        ) == placement.pedal_devices[pedals[i].pedal_id],
        !placement.pedal_devices.contains_key(pedals[i].pedal_id) ==> device_of(
            placement,
            pedals[i].pedal_id,
        ) == placement.default_device_id,
{
    let kept = pedals.filter(pedal_processes());
    let names = kept.map_values(pedal_name());
    let devices = kept.map_values(device_of_pedal(placement));
    pedals.lemma_filter_contains(pedal_processes(), i);
    let k = choose|k: int| 0 <= k < kept.len() && kept[k] == pedals[i];
    assert(names[k] == pedals[i].pedal_id);
    assert(names.to_set().contains(pedals[i].pedal_id));
    assert(devices[k] == device_of(placement, pedals[i].pedal_id));
    vstd::seq_lib::seq_to_set_is_finite(devices);
    ordered::sorting_keeps_the_elements::<String>(devices.to_set());
    let sorted = processor_devices(pedals, placement);
    assert(devices.to_set().contains(devices[k]));
    assert(sorted.to_set().contains(devices[k]));
}

} // verus!
