//! The circuit graph of a package, and the part of it that processes signals.

use crate::ordered::OrderedMap;
use crate::package::manifest::VULKAN_RESIDENT_MODEL_PACKAGE_MANIFEST_SCHEMA;
use crate::package::manifest::VulkanResidentTokenModelPackageError;
use crate::sequence;
use crate::text;
use crate::text::Message;
use vstd::prelude::*;

verus! {

/// What a pedal is for.
#[derive(Clone, Copy, Debug, PartialEq, Eq, Structural)]
pub enum CircuitRuntimeRole {
    InputTransducer,
    SignalProcessor,
    OutputTransducer,
    Sampler,
}

impl DeepView for CircuitRuntimeRole {
    type V = CircuitRuntimeRole;

    open spec fn deep_view(&self) -> CircuitRuntimeRole {
        *self
    }
}

impl CircuitRuntimeRole {
    /// Whether the pedal processes signals.
    pub fn is_signal_processor(&self) -> (r: bool)
        ensures
            r == (*self == CircuitRuntimeRole::SignalProcessor),
    {
        match self {
            CircuitRuntimeRole::SignalProcessor => true,
            _ => false,
        }
    }
}

/// Whether a cable carries a signal on, or back to an earlier pedal.
#[derive(Clone, Copy, Debug, PartialEq, Eq, Structural)]
pub enum StreamCircuitConnection {
    Forward,
    Feedback,
}

impl DeepView for StreamCircuitConnection {
    type V = StreamCircuitConnection;

    open spec fn deep_view(&self) -> StreamCircuitConnection {
        *self
    }
}

impl StreamCircuitConnection {
    /// Whether the cable carries its signal on.
    pub fn is_forward(&self) -> (r: bool)
        ensures
            r == (*self == StreamCircuitConnection::Forward),
    {
        match self {
            StreamCircuitConnection::Forward => true,
            StreamCircuitConnection::Feedback => false,
        }
    }
}

/// A port of a pedal.
#[derive(Debug, PartialEq, Eq)]
pub struct StreamCircuitGraphEndpoint {
    pub pedal_id: String,
    pub port_id: String,
}

#[verifier::ext_equal]
pub struct StreamCircuitGraphEndpointView {
    pub pedal_id: Seq<char>,
    pub port_id: Seq<char>,
}

impl DeepView for StreamCircuitGraphEndpoint {
    type V = StreamCircuitGraphEndpointView;

    open spec fn deep_view(&self) -> StreamCircuitGraphEndpointView {
        StreamCircuitGraphEndpointView {
            pedal_id: self.pedal_id.deep_view(),
            port_id: self.port_id.deep_view(),
        }
    }
}

impl View for StreamCircuitGraphEndpoint {
    type V = StreamCircuitGraphEndpointView;

    open spec fn view(&self) -> StreamCircuitGraphEndpointView {
        self.deep_view()
    }
}

impl Clone for StreamCircuitGraphEndpoint {
    fn clone(&self) -> (r: Self)
        ensures
            r@ == self@,
    {
        StreamCircuitGraphEndpoint {
            pedal_id: self.pedal_id.clone(),
            port_id: self.port_id.clone(),
        }
    }
}

/// A cable between two pedals.
#[derive(Debug, PartialEq, Eq)]
pub struct StreamCircuitGraphCable {
    pub id: String,
    pub connection: StreamCircuitConnection,
    pub source: StreamCircuitGraphEndpoint,
    pub destination: StreamCircuitGraphEndpoint,
}

#[verifier::ext_equal]
pub struct StreamCircuitGraphCableView {
    pub id: Seq<char>,
    pub connection: StreamCircuitConnection,
    pub source: StreamCircuitGraphEndpointView,
    pub destination: StreamCircuitGraphEndpointView,
}

impl DeepView for StreamCircuitGraphCable {
    type V = StreamCircuitGraphCableView;

    open spec fn deep_view(&self) -> StreamCircuitGraphCableView {
        StreamCircuitGraphCableView {
            id: self.id.deep_view(),
            connection: self.connection,
            source: self.source.deep_view(),
            destination: self.destination.deep_view(),
        }
    }
}

impl View for StreamCircuitGraphCable {
    type V = StreamCircuitGraphCableView;

    open spec fn view(&self) -> StreamCircuitGraphCableView {
        self.deep_view()
    }
}

impl Clone for StreamCircuitGraphCable {
    fn clone(&self) -> (r: Self)
        ensures
            r@ == self@,
    {
        StreamCircuitGraphCable {
            id: self.id.clone(),
            connection: self.connection,
            source: self.source.clone(),
            destination: self.destination.clone(),
        }
    }
}

/// A port at the boundary of a graph.
#[derive(Debug, PartialEq, Eq)]
pub struct StreamCircuitGraphBoundaryPort {
    pub id: String,
    pub endpoint: StreamCircuitGraphEndpoint,
}

#[verifier::ext_equal]
pub struct StreamCircuitGraphBoundaryPortView {
    pub id: Seq<char>,
    pub endpoint: StreamCircuitGraphEndpointView,
}

impl DeepView for StreamCircuitGraphBoundaryPort {
    type V = StreamCircuitGraphBoundaryPortView;

    open spec fn deep_view(&self) -> StreamCircuitGraphBoundaryPortView {
        StreamCircuitGraphBoundaryPortView {
            id: self.id.deep_view(),
            endpoint: self.endpoint.deep_view(),
        }
    }
}

impl View for StreamCircuitGraphBoundaryPort {
    type V = StreamCircuitGraphBoundaryPortView;

    open spec fn view(&self) -> StreamCircuitGraphBoundaryPortView {
        self.deep_view()
    }
}

impl Clone for StreamCircuitGraphBoundaryPort {
    fn clone(&self) -> (r: Self)
        ensures
            r@ == self@,
    {
        StreamCircuitGraphBoundaryPort {
            id: self.id.clone(),
            endpoint: self.endpoint.clone(),
        }
    }
}

/// The boundary of a graph.
#[derive(Debug, PartialEq, Eq)]
pub struct StreamCircuitGraphBoundary {
    pub external_inputs: Vec<StreamCircuitGraphBoundaryPort>,
    pub public_outputs: Vec<StreamCircuitGraphBoundaryPort>,
}

#[verifier::ext_equal]
pub struct StreamCircuitGraphBoundaryView {
    pub external_inputs: Seq<StreamCircuitGraphBoundaryPortView>,
    pub public_outputs: Seq<StreamCircuitGraphBoundaryPortView>,
}

impl DeepView for StreamCircuitGraphBoundary {
    type V = StreamCircuitGraphBoundaryView;

    open spec fn deep_view(&self) -> StreamCircuitGraphBoundaryView {
        StreamCircuitGraphBoundaryView {
            external_inputs: self.external_inputs.deep_view(),
            public_outputs: self.public_outputs.deep_view(),
        }
    }
}

impl View for StreamCircuitGraphBoundary {
    type V = StreamCircuitGraphBoundaryView;

    open spec fn view(&self) -> StreamCircuitGraphBoundaryView {
        self.deep_view()
    }
}

impl Clone for StreamCircuitGraphBoundary {
    fn clone(&self) -> (r: Self)
        ensures
            r@ == self@,
    {
        StreamCircuitGraphBoundary {
            external_inputs: self.external_inputs.clone(),
            public_outputs: self.public_outputs.clone(),
        }
    }
}

/// A state of a pedal, and which state of another pedal it is shared with or copied from.
#[derive(Debug, PartialEq, Eq)]
pub struct VulkanResidentPackageStatePort {
    pub id: String,
    pub sharing: Option<String>,
}

#[verifier::ext_equal]
pub struct VulkanResidentPackageStatePortView {
    pub id: Seq<char>,
    pub sharing: Option<Seq<char>>,
}

impl DeepView for VulkanResidentPackageStatePort {
    type V = VulkanResidentPackageStatePortView;

    open spec fn deep_view(&self) -> VulkanResidentPackageStatePortView {
        VulkanResidentPackageStatePortView {
            id: self.id.deep_view(),
            sharing: self.sharing.deep_view(),
        }
    }
}

impl View for VulkanResidentPackageStatePort {
    type V = VulkanResidentPackageStatePortView;

    open spec fn view(&self) -> VulkanResidentPackageStatePortView {
        self.deep_view()
    }
}

impl Clone for VulkanResidentPackageStatePort {
    fn clone(&self) -> (r: Self)
        ensures
            r@ == self@,
    {
        VulkanResidentPackageStatePort {
            id: self.id.clone(),
            sharing: self.sharing.clone(),
        }
    }
}

/// The circuit of a pedal.
#[derive(Debug, PartialEq, Eq)]
pub struct VulkanResidentPackageCircuit {
    pub source_component_id: String,
    pub runtime_role: CircuitRuntimeRole,
    pub state_ports: Vec<VulkanResidentPackageStatePort>,
    pub nodes: String,
}

#[verifier::ext_equal]
pub struct VulkanResidentPackageCircuitView {
    pub source_component_id: Seq<char>,
    pub runtime_role: CircuitRuntimeRole,
    pub state_ports: Seq<VulkanResidentPackageStatePortView>,
    pub nodes: Seq<char>,
}

impl DeepView for VulkanResidentPackageCircuit {
    type V = VulkanResidentPackageCircuitView;

    open spec fn deep_view(&self) -> VulkanResidentPackageCircuitView {
        VulkanResidentPackageCircuitView {
            source_component_id: self.source_component_id.deep_view(),
            runtime_role: self.runtime_role,
            state_ports: self.state_ports.deep_view(),
            nodes: self.nodes.deep_view(),
        }
    }
}

impl View for VulkanResidentPackageCircuit {
    type V = VulkanResidentPackageCircuitView;

    open spec fn view(&self) -> VulkanResidentPackageCircuitView {
        self.deep_view()
    }
}

impl Clone for VulkanResidentPackageCircuit {
    fn clone(&self) -> (r: Self)
        ensures
            r@ == self@,
    {
        VulkanResidentPackageCircuit {
            source_component_id: self.source_component_id.clone(),
            runtime_role: self.runtime_role,
            state_ports: self.state_ports.clone(),
            nodes: self.nodes.clone(),
        }
    }
}

/// The states of a pedal.
#[derive(Debug, PartialEq, Eq)]
pub struct VulkanResidentPackageState {
    pub state_ports: Vec<VulkanResidentPackageStatePort>,
}

#[verifier::ext_equal]
pub struct VulkanResidentPackageStateView {
    pub state_ports: Seq<VulkanResidentPackageStatePortView>,
}

impl DeepView for VulkanResidentPackageState {
    type V = VulkanResidentPackageStateView;

    open spec fn deep_view(&self) -> VulkanResidentPackageStateView {
        VulkanResidentPackageStateView {
            state_ports: self.state_ports.deep_view(),
        }
    }
}

impl View for VulkanResidentPackageState {
    type V = VulkanResidentPackageStateView;

    open spec fn view(&self) -> VulkanResidentPackageStateView {
        self.deep_view()
    }
}

impl Clone for VulkanResidentPackageState {
    fn clone(&self) -> (r: Self)
        ensures
            r@ == self@,
    {
        VulkanResidentPackageState {
            state_ports: self.state_ports.clone(),
        }
    }
}

/// A pedal of a package.
#[derive(Debug, PartialEq, Eq)]
pub struct VulkanResidentPackagePedalCircuit {
    pub pedal_id: String,
    pub operator_type: String,
    pub runtime_role: CircuitRuntimeRole,
    pub implementation: String,
    pub behavioral_role: String,
    pub circuit: VulkanResidentPackageCircuit,
    pub params: String,
    pub state: VulkanResidentPackageState,
}

#[verifier::ext_equal]
pub struct VulkanResidentPackagePedalCircuitView {
    pub pedal_id: Seq<char>,
    pub operator_type: Seq<char>,
    pub runtime_role: CircuitRuntimeRole,
    pub implementation: Seq<char>,
    pub behavioral_role: Seq<char>,
    pub circuit: VulkanResidentPackageCircuitView,
    pub params: Seq<char>,
    pub state: VulkanResidentPackageStateView,
}

impl DeepView for VulkanResidentPackagePedalCircuit {
    type V = VulkanResidentPackagePedalCircuitView;

    open spec fn deep_view(&self) -> VulkanResidentPackagePedalCircuitView {
        VulkanResidentPackagePedalCircuitView {
            pedal_id: self.pedal_id.deep_view(),
            operator_type: self.operator_type.deep_view(),
            runtime_role: self.runtime_role,
            implementation: self.implementation.deep_view(),
            behavioral_role: self.behavioral_role.deep_view(),
            circuit: self.circuit.deep_view(),
            params: self.params.deep_view(),
            state: self.state.deep_view(),
        }
    }
}

impl View for VulkanResidentPackagePedalCircuit {
    type V = VulkanResidentPackagePedalCircuitView;

    open spec fn view(&self) -> VulkanResidentPackagePedalCircuitView {
        self.deep_view()
    }
}

impl Clone for VulkanResidentPackagePedalCircuit {
    fn clone(&self) -> (r: Self)
        ensures
            r@ == self@,
    {
        VulkanResidentPackagePedalCircuit {
            pedal_id: self.pedal_id.clone(),
            operator_type: self.operator_type.clone(),
            runtime_role: self.runtime_role,
            implementation: self.implementation.clone(),
            behavioral_role: self.behavioral_role.clone(),
            circuit: self.circuit.clone(),
            params: self.params.clone(),
            state: self.state.clone(),
        }
    }
}

/// The circuit graph of a package. What only describes the model is kept as it was written.
#[derive(Debug, PartialEq, Eq)]
pub struct VulkanResidentPackageCircuitGraph {
    pub wiring: String,
    pub cables: Vec<StreamCircuitGraphCable>,
    pub boundary: StreamCircuitGraphBoundary,
    pub architecture: String,
    pub dimensions: String,
    pub input_transducer: String,
    pub output_transducer: String,
    pub pedals: Vec<VulkanResidentPackagePedalCircuit>,
}

#[verifier::ext_equal]
pub struct VulkanResidentPackageCircuitGraphView {
    pub wiring: Seq<char>,
    pub cables: Seq<StreamCircuitGraphCableView>,
    pub boundary: StreamCircuitGraphBoundaryView,
    pub architecture: Seq<char>,
    pub dimensions: Seq<char>,
    pub input_transducer: Seq<char>,
    pub output_transducer: Seq<char>,
    pub pedals: Seq<VulkanResidentPackagePedalCircuitView>,
}

impl DeepView for VulkanResidentPackageCircuitGraph {
    type V = VulkanResidentPackageCircuitGraphView;

    open spec fn deep_view(&self) -> VulkanResidentPackageCircuitGraphView {
        VulkanResidentPackageCircuitGraphView {
            wiring: self.wiring.deep_view(),
            cables: self.cables.deep_view(),
            boundary: self.boundary.deep_view(),
            architecture: self.architecture.deep_view(),
            dimensions: self.dimensions.deep_view(),
            input_transducer: self.input_transducer.deep_view(),
            output_transducer: self.output_transducer.deep_view(),
            pedals: self.pedals.deep_view(),
        }
    }
}

impl View for VulkanResidentPackageCircuitGraph {
    type V = VulkanResidentPackageCircuitGraphView;

    open spec fn view(&self) -> VulkanResidentPackageCircuitGraphView {
        self.deep_view()
    }
}

impl Clone for VulkanResidentPackageCircuitGraph {
    fn clone(&self) -> (r: Self)
        ensures
            r@ == self@,
    {
        VulkanResidentPackageCircuitGraph {
            wiring: self.wiring.clone(),
            cables: self.cables.clone(),
            boundary: self.boundary.clone(),
            architecture: self.architecture.clone(),
            dimensions: self.dimensions.clone(),
            input_transducer: self.input_transducer.clone(),
            output_transducer: self.output_transducer.clone(),
            pedals: self.pedals.clone(),
        }
    }
}

/// Where the artifacts of a pedal are found.
#[derive(Debug, PartialEq, Eq)]
pub struct LoweredCircuitRef {
    pub id: String,
    pub operator_type: String,
    pub runtime_role: CircuitRuntimeRole,
    pub circuit: String,
    pub params: String,
    pub state: String,
    pub implementation: String,
    pub behavioral_role: String,
}

#[verifier::ext_equal]
pub struct LoweredCircuitRefView {
    pub id: Seq<char>,
    pub operator_type: Seq<char>,
    pub runtime_role: CircuitRuntimeRole,
    pub circuit: Seq<char>,
    pub params: Seq<char>,
    pub state: Seq<char>,
    pub implementation: Seq<char>,
    pub behavioral_role: Seq<char>,
}

impl DeepView for LoweredCircuitRef {
    type V = LoweredCircuitRefView;

    open spec fn deep_view(&self) -> LoweredCircuitRefView {
        LoweredCircuitRefView {
            id: self.id.deep_view(),
            operator_type: self.operator_type.deep_view(),
            runtime_role: self.runtime_role,
            circuit: self.circuit.deep_view(),
            params: self.params.deep_view(),
            state: self.state.deep_view(),
            implementation: self.implementation.deep_view(),
            behavioral_role: self.behavioral_role.deep_view(),
        }
    }
}

impl View for LoweredCircuitRef {
    type V = LoweredCircuitRefView;

    open spec fn view(&self) -> LoweredCircuitRefView {
        self.deep_view()
    }
}

impl Clone for LoweredCircuitRef {
    fn clone(&self) -> (r: Self)
        ensures
            r@ == self@,
    {
        LoweredCircuitRef {
            id: self.id.clone(),
            operator_type: self.operator_type.clone(),
            runtime_role: self.runtime_role,
            circuit: self.circuit.clone(),
            params: self.params.clone(),
            state: self.state.clone(),
            implementation: self.implementation.clone(),
            behavioral_role: self.behavioral_role.clone(),
        }
    }
}

/// A pedal with its artifacts.
#[derive(Debug, PartialEq, Eq)]
pub struct ResolvedCircuitArtifact {
    pub pedal: LoweredCircuitRef,
    pub circuit: VulkanResidentPackageCircuit,
    pub params: String,
    pub state: VulkanResidentPackageState,
}

#[verifier::ext_equal]
pub struct ResolvedCircuitArtifactView {
    pub pedal: LoweredCircuitRefView,
    pub circuit: VulkanResidentPackageCircuitView,
    pub params: Seq<char>,
    pub state: VulkanResidentPackageStateView,
}

impl DeepView for ResolvedCircuitArtifact {
    type V = ResolvedCircuitArtifactView;

    open spec fn deep_view(&self) -> ResolvedCircuitArtifactView {
        ResolvedCircuitArtifactView {
            pedal: self.pedal.deep_view(),
            circuit: self.circuit.deep_view(),
            params: self.params.deep_view(),
            state: self.state.deep_view(),
        }
    }
}

impl View for ResolvedCircuitArtifact {
    type V = ResolvedCircuitArtifactView;

    open spec fn view(&self) -> ResolvedCircuitArtifactView {
        self.deep_view()
    }
}

impl Clone for ResolvedCircuitArtifact {
    fn clone(&self) -> (r: Self)
        ensures
            r@ == self@,
    {
        ResolvedCircuitArtifact {
            pedal: self.pedal.clone(),
            circuit: self.circuit.clone(),
            params: self.params.clone(),
            state: self.state.clone(),
        }
    }
}

/// The graph of a pedalboard.
#[derive(Debug, PartialEq, Eq)]
pub struct LoweredPedalboardGraph {
    pub wiring: String,
    pub circuits: Vec<LoweredCircuitRef>,
    pub cables: Vec<StreamCircuitGraphCable>,
    pub boundary: StreamCircuitGraphBoundary,
    pub input_transducer: String,
    pub output_transducer: String,
}

#[verifier::ext_equal]
pub struct LoweredPedalboardGraphView {
    pub wiring: Seq<char>,
    pub circuits: Seq<LoweredCircuitRefView>,
    pub cables: Seq<StreamCircuitGraphCableView>,
    pub boundary: StreamCircuitGraphBoundaryView,
    pub input_transducer: Seq<char>,
    pub output_transducer: Seq<char>,
}

impl DeepView for LoweredPedalboardGraph {
    type V = LoweredPedalboardGraphView;

    open spec fn deep_view(&self) -> LoweredPedalboardGraphView {
        LoweredPedalboardGraphView {
            wiring: self.wiring.deep_view(),
            circuits: self.circuits.deep_view(),
            cables: self.cables.deep_view(),
            boundary: self.boundary.deep_view(),
            input_transducer: self.input_transducer.deep_view(),
            output_transducer: self.output_transducer.deep_view(),
        }
    }
}

impl View for LoweredPedalboardGraph {
    type V = LoweredPedalboardGraphView;

    open spec fn view(&self) -> LoweredPedalboardGraphView {
        self.deep_view()
    }
}

impl Clone for LoweredPedalboardGraph {
    fn clone(&self) -> (r: Self)
        ensures
            r@ == self@,
    {
        LoweredPedalboardGraph {
            wiring: self.wiring.clone(),
            circuits: self.circuits.clone(),
            cables: self.cables.clone(),
            boundary: self.boundary.clone(),
            input_transducer: self.input_transducer.clone(),
            output_transducer: self.output_transducer.clone(),
        }
    }
}

/// How many pedals a pedalboard has, of each operator.
#[derive(Debug, PartialEq, Eq)]
pub struct LoweredPedalboardSummary {
    pub circuit_count: usize,
    pub operator_counts: OrderedMap<String, usize>,
}

#[verifier::ext_equal]
pub struct LoweredPedalboardSummaryView {
    pub circuit_count: usize,
    pub operator_counts: Map<Seq<char>, usize>,
}

impl DeepView for LoweredPedalboardSummary {
    type V = LoweredPedalboardSummaryView;

    open spec fn deep_view(&self) -> LoweredPedalboardSummaryView {
        LoweredPedalboardSummaryView {
            circuit_count: self.circuit_count,
            operator_counts: self.operator_counts.deep_view(),
        }
    }
}

impl View for LoweredPedalboardSummary {
    type V = LoweredPedalboardSummaryView;

    open spec fn view(&self) -> LoweredPedalboardSummaryView {
        self.deep_view()
    }
}

/// The index of a pedalboard.
#[derive(Debug, PartialEq, Eq)]
pub struct LoweredPedalboard {
    pub schema: String,
    pub source_format: String,
    pub source_artifact_root: String,
    pub architecture: String,
    pub dimensions: String,
    pub graph: LoweredPedalboardGraph,
    pub summary: LoweredPedalboardSummary,
    pub notes: Vec<String>,
}

#[verifier::ext_equal]
pub struct LoweredPedalboardView {
    pub schema: Seq<char>,
    pub source_format: Seq<char>,
    pub source_artifact_root: Seq<char>,
    pub architecture: Seq<char>,
    pub dimensions: Seq<char>,
    pub graph: LoweredPedalboardGraphView,
    pub summary: LoweredPedalboardSummaryView,
    pub notes: Seq<Seq<char>>,
}

impl DeepView for LoweredPedalboard {
    type V = LoweredPedalboardView;

    open spec fn deep_view(&self) -> LoweredPedalboardView {
        LoweredPedalboardView {
            schema: self.schema.deep_view(),
            source_format: self.source_format.deep_view(),
            source_artifact_root: self.source_artifact_root.deep_view(),
            architecture: self.architecture.deep_view(),
            dimensions: self.dimensions.deep_view(),
            graph: self.graph.deep_view(),
            summary: self.summary.deep_view(),
            notes: self.notes.deep_view(),
        }
    }
}

impl View for LoweredPedalboard {
    type V = LoweredPedalboardView;

    open spec fn view(&self) -> LoweredPedalboardView {
        self.deep_view()
    }
}

/// A pedalboard with the artifacts of its pedals.
#[derive(Debug, PartialEq, Eq)]
pub struct ResolvedLoweredPedalboard {
    pub artifact_root: String,
    pub index: LoweredPedalboard,
    pub circuits: Vec<ResolvedCircuitArtifact>,
}

#[verifier::ext_equal]
pub struct ResolvedLoweredPedalboardView {
    pub artifact_root: Seq<char>,
    pub index: LoweredPedalboardView,
    pub circuits: Seq<ResolvedCircuitArtifactView>,
}

impl DeepView for ResolvedLoweredPedalboard {
    type V = ResolvedLoweredPedalboardView;

    open spec fn deep_view(&self) -> ResolvedLoweredPedalboardView {
        ResolvedLoweredPedalboardView {
            artifact_root: self.artifact_root.deep_view(),
            index: self.index.deep_view(),
            circuits: self.circuits.deep_view(),
        }
    }
}

impl View for ResolvedLoweredPedalboard {
    type V = ResolvedLoweredPedalboardView;

    open spec fn view(&self) -> ResolvedLoweredPedalboardView {
        self.deep_view()
    }
}

/// Which device each pedal is placed on; the others stand on the default device.
#[derive(Debug, PartialEq, Eq)]
pub struct StreamCircuitPlacementSpec {
    pub schema: String,
    pub default_device_id: String,
    pub pedal_devices: OrderedMap<String, String>,
}

#[verifier::ext_equal]
pub struct StreamCircuitPlacementSpecView {
    pub schema: Seq<char>,
    pub default_device_id: Seq<char>,
    pub pedal_devices: Map<Seq<char>, Seq<char>>,
}

impl DeepView for StreamCircuitPlacementSpec {
    type V = StreamCircuitPlacementSpecView;

    open spec fn deep_view(&self) -> StreamCircuitPlacementSpecView {
        StreamCircuitPlacementSpecView {
            schema: self.schema.deep_view(),
            default_device_id: self.default_device_id.deep_view(),
            pedal_devices: self.pedal_devices.deep_view(),
        }
    }
}

impl View for StreamCircuitPlacementSpec {
    type V = StreamCircuitPlacementSpecView;

    open spec fn view(&self) -> StreamCircuitPlacementSpecView {
        self.deep_view()
    }
}

// ---------------------------------------------------------------------------
// The pedalboard of a package
// ---------------------------------------------------------------------------

/// A part of a pedal, by where it is found in the package.
pub open spec fn part_uri(pedal_id: Seq<char>, part: Seq<char>) -> Seq<char> {
    "package://"@ + pedal_id + "/"@ + part
}

/// A pedal with its artifacts.
pub open spec fn artifact_of() -> spec_fn(VulkanResidentPackagePedalCircuitView) -> ResolvedCircuitArtifactView {
    |pedal: VulkanResidentPackagePedalCircuitView|
        ResolvedCircuitArtifactView {
            pedal: LoweredCircuitRefView {
                id: pedal.pedal_id,
                operator_type: pedal.operator_type,
                runtime_role: pedal.runtime_role,
                circuit: part_uri(pedal.pedal_id, "circuit"@),
                params: part_uri(pedal.pedal_id, "params"@),
                state: part_uri(pedal.pedal_id, "state"@),
                implementation: pedal.implementation,
                behavioral_role: pedal.behavioral_role,
            },
            circuit: pedal.circuit,
            params: pedal.params,
            state: pedal.state,
        }
}

/// Where the artifacts of a pedal are found.
pub open spec fn ref_of() -> spec_fn(ResolvedCircuitArtifactView) -> LoweredCircuitRefView {
    |artifact: ResolvedCircuitArtifactView| artifact.pedal
}

/// The operator of a pedal.
pub open spec fn operator_of() -> spec_fn(ResolvedCircuitArtifactView) -> Seq<char> {
    |artifact: ResolvedCircuitArtifactView| artifact.pedal.operator_type
}

/// Whether an operator is this one.
pub open spec fn is_operator(operator: Seq<char>) -> spec_fn(Seq<char>) -> bool {
    |other: Seq<char>| other == operator
}

/// How often each operator occurs.
pub open spec fn operator_counts(operators: Seq<Seq<char>>) -> Map<Seq<char>, usize> {
    Map::new(
        |operator: Seq<char>| operators.contains(operator),
        |operator: Seq<char>|
            sequence::count(operators, is_operator(operator)) as usize,
    )
}

/// The first refusal among the first `n` pedals.
pub open spec fn pedals_checked(
    pedals: Seq<VulkanResidentPackagePedalCircuitView>,
    validated: Seq<Result<(), Seq<char>>>,
    n: nat,
) -> Result<(), Seq<char>>
    decreases n,
{
    if n == 0 {
        Ok(())
    } else {
        match pedals_checked(pedals, validated, (n - 1) as nat) {
            Err(error) => Err(error),
            Ok(_) => match validated[n - 1] {
                Err(error) => Err(
                    "resident package circuit graph pedal "@ + pedals[n - 1].pedal_id
                        + " is invalid: "@ + error,
                ),
                Ok(_) => Ok(()),
            },
        }
    }
}

/// The index of a package's pedalboard.
pub open spec fn package_index(
    graph: VulkanResidentPackageCircuitGraphView,
    schema: Seq<char>,
) -> LoweredPedalboardView {
    let circuits = graph.pedals.map_values(artifact_of());
    LoweredPedalboardView {
        schema,
        source_format: VULKAN_RESIDENT_MODEL_PACKAGE_MANIFEST_SCHEMA@,
        source_artifact_root: "package"@,
        architecture: graph.architecture,
        dimensions: graph.dimensions,
        graph: LoweredPedalboardGraphView {
            wiring: graph.wiring,
            circuits: circuits.map_values(ref_of()),
            cables: graph.cables,
            boundary: graph.boundary,
            input_transducer: graph.input_transducer,
            output_transducer: graph.output_transducer,
        },
        summary: LoweredPedalboardSummaryView {
            circuit_count: graph.pedals.len() as usize,
            operator_counts: operator_counts(circuits.map_values(operator_of())),
        },
        notes: seq!["resolved from resident model package manifest"@],
    }
}

/// The pedalboard of a package, from what came of checking each pedal and the index.
pub open spec fn resolved_pedalboard(
    graph: VulkanResidentPackageCircuitGraphView,
    package_root: Seq<char>,
    schema: Seq<char>,
    validated: Seq<Result<(), Seq<char>>>,
    index_validated: Result<(), Seq<char>>,
) -> Result<ResolvedLoweredPedalboardView, Seq<char>> {
    match pedals_checked(graph.pedals, validated, graph.pedals.len()) {
        Err(error) => Err(error),
        Ok(_) => match index_validated {
            Err(error) => Err("resident package circuit graph is invalid: "@ + error),
            Ok(_) => Ok(
                ResolvedLoweredPedalboardView {
                    artifact_root: package_root,
                    index: package_index(graph, schema),
                    circuits: graph.pedals.map_values(artifact_of()),
                },
            ),
        },
    }
}

proof fn lemma_pedals_checked_error(
    pedals: Seq<VulkanResidentPackagePedalCircuitView>,
    validated: Seq<Result<(), Seq<char>>>,
    i: nat,
    n: nat,
)
    requires
        i <= n,
        pedals_checked(pedals, validated, i) is Err,
    ensures
        pedals_checked(pedals, validated, n) == pedals_checked(pedals, validated, i),
    decreases n - i,
{
    if i < n {
        lemma_pedals_checked_error(pedals, validated, i + 1, n);
    }
}

fn part_text(pedal_id: &str, part: &str) -> (r: String)
    ensures
        r@ == part_uri(pedal_id@, part@),
{
    Message::new("package://").text(pedal_id).text("/").text(part).done()
}

fn resolve_pedal(pedal: &VulkanResidentPackagePedalCircuit) -> (r: ResolvedCircuitArtifact)
    ensures
        r@ == artifact_of()(pedal@),
{
    let id: &str = pedal.pedal_id.as_str();
    ResolvedCircuitArtifact {
        pedal: LoweredCircuitRef {
            id: pedal.pedal_id.clone(),
            operator_type: pedal.operator_type.clone(),
            runtime_role: pedal.runtime_role,
            circuit: part_text(id, "circuit"),
            params: part_text(id, "params"),
            state: part_text(id, "state"),
            implementation: pedal.implementation.clone(),
            behavioral_role: pedal.behavioral_role.clone(),
        },
        circuit: pedal.circuit.clone(),
        params: pedal.params.clone(),
        state: pedal.state.clone(),
    }
}

/// How often each operator occurs.
#[verifier::loop_isolation(false)]
pub fn count_operators(circuits: &Vec<ResolvedCircuitArtifact>) -> (r: OrderedMap<String, usize>)
    ensures
        r@ == operator_counts(circuits.deep_view().map_values(operator_of())),
{
    let ghost all = circuits.deep_view().map_values(operator_of());
    let mut counts: OrderedMap<String, usize> = OrderedMap::new();
    let mut i: usize = 0;
    assert(counts@ =~= operator_counts(all.take(0)));
    while i < circuits.len()
        invariant
            i <= circuits.len(),
            counts@ == operator_counts(all.take(i as int)),
        decreases circuits.len() - i,
    {
        let operator: String = circuits[i].pedal.operator_type.clone();
        let ghost key = operator@;
        let ghost front = all.take(i as int);
        let ghost whole = all.take(i + 1);
        proof {
            assert(circuits.deep_view()[i as int] == circuits@[i as int]@);
            assert(all[i as int] == key);
            assert(whole =~= front.push(key));
            assert forall|x: Seq<char>| #[trigger]
                whole.contains(x) == (front.contains(x) || x == key) by {
                if front.contains(x) {
                    let k = choose|k: int| 0 <= k < front.len() && front[k] == x;
                    assert(whole[k] == x);
                }
                assert(whole[i as int] == key);
                if whole.contains(x) {
                    let k = choose|k: int| 0 <= k < whole.len() && whole[k] == x;
                    if k < i {
                        assert(front[k] == x);
                    }
                }
            }
            assert forall|x: Seq<char>| #[trigger]
                sequence::count(whole, is_operator(x)) == sequence::count(front, is_operator(x)) + (
            if x == key {
                1nat
            } else {
                0nat
            }) by {
                sequence::lemma_count_step(all, is_operator(x), i as int);
            }
            lemma_count_bound(front, is_operator(key));
            if !front.contains(key) {
                lemma_count_absent(front, key);
            }
        }
        let count: usize = match counts.get(&operator) {
            Some(count) => *count + 1,
            None => 1,
        };
        counts.insert(operator, count);
        assert(counts@ =~= operator_counts(whole));
        i += 1;
    }
    assert(all.take(all.len() as int) =~= all);
    counts
}

proof fn lemma_count_bound<A>(s: Seq<A>, p: spec_fn(A) -> bool)
    ensures
        sequence::count(s, p) <= s.len(),
    decreases s.len(),
{
    if s.len() > 0 {
        lemma_count_bound(s.drop_last(), p);
    }
}

proof fn lemma_count_absent(s: Seq<Seq<char>>, key: Seq<char>)
    requires
        !s.contains(key),
    ensures
        sequence::count(s, is_operator(key)) == 0,
    decreases s.len(),
{
    if s.len() > 0 {
        assert forall|x: Seq<char>| s.drop_last().contains(x) implies s.contains(x) by {
            let k = choose|k: int| 0 <= k < s.drop_last().len() && s.drop_last()[k] == x;
            assert(s[k] == x);
        }
        assert(s.contains(s.last()));
        lemma_count_absent(s.drop_last(), key);
    }
}

/// Where the artifacts of the pedals are found.
#[verifier::loop_isolation(false)]
pub fn refs_of(circuits: &Vec<ResolvedCircuitArtifact>) -> (r: Vec<LoweredCircuitRef>)
    ensures
        r.deep_view() == circuits.deep_view().map_values(ref_of()),
{
    let ghost all_refs = circuits.deep_view();
    let ghost step_refs = ref_of();
    let mut refs: Vec<LoweredCircuitRef> = Vec::new();
    let mut i: usize = 0;
    while i < circuits.len()
        invariant
            i <= circuits.len(),
            refs@.len() == i,
            forall|j: int| 0 <= j < i ==> (#[trigger] refs.deep_view()[j]) == step_refs(all_refs[j]),
        decreases circuits.len() - i,
    {
        let item = &circuits[i];
        assert(all_refs[i as int] == item.deep_view());
        let added = item.pedal.clone();
        let ghost before = refs.deep_view();
        let ghost value = added.deep_view();
        refs.push(added);
        assert(refs.deep_view() =~= before.push(value));
        i += 1;
    }
    assert(refs.deep_view() =~= all_refs.map_values(step_refs));
    refs
}

fn copy_cables(cables: &Vec<StreamCircuitGraphCable>) -> (r: Vec<StreamCircuitGraphCable>)
    ensures
        r.deep_view() == cables.deep_view(),
{
    let copy: Vec<StreamCircuitGraphCable> = cables.clone();
    assert(copy.deep_view() =~= cables.deep_view());
    copy
}

impl VulkanResidentPackageCircuitGraph {
    /// The pedalboard of the package, from what came of checking each pedal and the index.
    #[verifier::loop_isolation(false)]
    pub fn to_resolved_lowered_pedalboard(
        &self,
        package_root: &str,
        schema: &str,
        validated: &Vec<Result<(), String>>,
        index_validated: &Result<(), String>,
    ) -> (r: Result<ResolvedLoweredPedalboard, VulkanResidentTokenModelPackageError>)
        requires
            validated@.len() >= self@.pedals.len(),
        ensures
            sequence::outcome(r) == resolved_pedalboard(
                self@,
                package_root@,
                schema@,
                sequence::outcomes(validated@),
                sequence::outcome(*index_validated),
            ),
    {
        let ghost answers = sequence::outcomes(validated@);
        assert(self@.pedals.len() == self.pedals@.len());
        let mut k: usize = 0;
        while k < self.pedals.len()
            invariant
                k <= self.pedals.len(),
                pedals_checked(self@.pedals, answers, k as nat) is Ok,
            decreases self.pedals.len() - k,
        {
            proof {
                assert(self@.pedals[k as int] == self.pedals@[k as int]@);
                assert(answers[k as int] == sequence::outcome(validated@[k as int]));
                if pedals_checked(self@.pedals, answers, (k + 1) as nat) is Err {
                    lemma_pedals_checked_error(
                        self@.pedals,
                        answers,
                        (k + 1) as nat,
                        self@.pedals.len(),
                    );
                }
            }
            match &validated[k] {
                Err(error) => {
                    return Err(
                        VulkanResidentTokenModelPackageError(
                            Message::new("resident package circuit graph pedal ").text(
                                self.pedals[k].pedal_id.as_str(),
                            ).text(" is invalid: ").text(error.as_str()).done(),
                        ),
                    );
                },
                Ok(_) => {},
            }
            k += 1;
        }
        match index_validated {
            Err(error) => {
                return Err(
                    VulkanResidentTokenModelPackageError(
                        Message::new("resident package circuit graph is invalid: ").text(
                            error.as_str(),
                        ).done(),
                    ),
                );
            },
            Ok(_) => {},
        }
        let ghost all_circuits = self.pedals.deep_view();
        let ghost step_circuits = artifact_of();
        let mut circuits: Vec<ResolvedCircuitArtifact> = Vec::new();
        let mut i: usize = 0;
        while i < self.pedals.len()
            invariant
                i <= self.pedals.len(),
                circuits@.len() == i,
                forall|j: int| 0 <= j < i ==> (#[trigger] circuits.deep_view()[j]) == step_circuits(all_circuits[j]),
            decreases self.pedals.len() - i,
        {
            let item = &self.pedals[i];
            assert(all_circuits[i as int] == item.deep_view());
            let added = resolve_pedal(item);
            let ghost before = circuits.deep_view();
            let ghost value = added.deep_view();
            circuits.push(added);
            assert(circuits.deep_view() =~= before.push(value));
            i += 1;
        }
        assert(circuits.deep_view() =~= all_circuits.map_values(step_circuits));
        let note: String = "resolved from resident model package manifest".to_owned();
        let notes: Vec<String> = vec![note];
        assert(notes.deep_view() =~= seq!["resolved from resident model package manifest"@]);
        let operator_counts: OrderedMap<String, usize> = count_operators(&circuits);
        Ok(
            ResolvedLoweredPedalboard {
                artifact_root: package_root.to_owned(),
                index: LoweredPedalboard {
                    schema: schema.to_owned(),
                    source_format: VULKAN_RESIDENT_MODEL_PACKAGE_MANIFEST_SCHEMA.to_owned(),
                    source_artifact_root: "package".to_owned(),
                    architecture: self.architecture.clone(),
                    dimensions: self.dimensions.clone(),
                    graph: LoweredPedalboardGraph {
                        wiring: self.wiring.clone(),
                        circuits: refs_of(&circuits),
                        cables: copy_cables(&self.cables),
                        boundary: self.boundary.clone(),
                        input_transducer: self.input_transducer.clone(),
                        output_transducer: self.output_transducer.clone(),
                    },
                    summary: LoweredPedalboardSummary {
                        circuit_count: self.pedals.len(),
                        operator_counts,
                    },
                    notes,
                },
                circuits,
            },
        )
    }
}

/// Every pedal is counted once.
pub proof fn operators_are_counted(operators: Seq<Seq<char>>, operator: Seq<char>)
    requires
        operators.len() <= usize::MAX,
    ensures
        operators.contains(operator) ==> operator_counts(operators)[operator] == sequence::count(
            operators,
            is_operator(operator),
        ),
        !operators.contains(operator) ==> !operator_counts(operators).contains_key(operator)
            && sequence::count(operators, is_operator(operator)) == 0,
{
    lemma_count_bound(operators, is_operator(operator));
    if !operators.contains(operator) {
        lemma_count_absent(operators, operator);
    }
}

/// A package's board lists its pedals in their order, each under its own name with its own operator,
/// role and parts, and counts them. The graph around them is the package's own.
pub proof fn boards_list_every_pedal(
    graph: VulkanResidentPackageCircuitGraphView,
    package_root: Seq<char>,
    schema: Seq<char>,
    validated: Seq<Result<(), Seq<char>>>,
    index_validated: Result<(), Seq<char>>,
    i: int,
)
    requires
        resolved_pedalboard(graph, package_root, schema, validated, index_validated) is Ok,
        graph.pedals.len() <= usize::MAX,
        0 <= i < graph.pedals.len(),
    ensures
        ({
            let board = resolved_pedalboard(
                graph,
                package_root,
                schema,
                validated,
                index_validated,
            )->Ok_0;
            let pedal = graph.pedals[i];
            let artifact = board.circuits[i];
            &&& index_validated is Ok
            &&& validated[i] is Ok
            &&& board.artifact_root == package_root
            &&& board.index.schema == schema
            &&& board.index.architecture == graph.architecture
            &&& board.index.dimensions == graph.dimensions
            &&& board.index.graph.wiring == graph.wiring
            &&& board.index.graph.cables == graph.cables
            &&& board.index.graph.boundary == graph.boundary
            &&& board.index.graph.input_transducer == graph.input_transducer
            &&& board.index.graph.output_transducer == graph.output_transducer
            &&& board.index.summary.circuit_count == graph.pedals.len()
            &&& board.circuits.len() == graph.pedals.len()
            &&& board.index.graph.circuits.len() == graph.pedals.len()
            &&& board.index.graph.circuits[i] == artifact.pedal
            &&& artifact.pedal.id == pedal.pedal_id
            &&& artifact.pedal.operator_type == pedal.operator_type
            &&& artifact.pedal.runtime_role == pedal.runtime_role
            &&& artifact.pedal.implementation == pedal.implementation
            &&& artifact.pedal.behavioral_role == pedal.behavioral_role
            &&& artifact.circuit == pedal.circuit
            &&& artifact.params == pedal.params
            &&& artifact.state == pedal.state
            &&& artifact.pedal.circuit == "package://"@ + pedal.pedal_id + "/"@ + "circuit"@
            &&& artifact.pedal.params == "package://"@ + pedal.pedal_id + "/"@ + "params"@
            &&& artifact.pedal.state == "package://"@ + pedal.pedal_id + "/"@ + "state"@
        }),
{
    lemma_every_pedal_checked(graph.pedals, validated, graph.pedals.len(), i);
}

proof fn lemma_every_pedal_checked(
    pedals: Seq<VulkanResidentPackagePedalCircuitView>,
    validated: Seq<Result<(), Seq<char>>>,
    n: nat,
    i: int,
)
    requires
        pedals_checked(pedals, validated, n) is Ok,
        0 <= i < n,
    ensures
        validated[i] is Ok,
    decreases n,
{
    if i < n - 1 {
        lemma_every_pedal_checked(pedals, validated, (n - 1) as nat, i);
    }
}

} // verus!
