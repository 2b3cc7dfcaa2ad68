//! The manifest of a model package, and where its paths may lead.

use crate::ordered::OrderedMap;
use crate::package::graph::VulkanResidentPackageCircuitGraph;
use crate::package::graph::VulkanResidentPackageCircuitGraphView;
use crate::sequence;
use crate::text;
use crate::text::Message;
use vstd::prelude::*;

verus! {

/// The format that manifests are written in.
pub const VULKAN_RESIDENT_MODEL_PACKAGE_MANIFEST_SCHEMA: &'static str =
    "nerve.vulkan_resident_model_package.v3";

/// Why a package cannot be used: its data are invalid, or one of its files cannot be read.
#[derive(Debug, PartialEq, Eq)]
pub enum VulkanResidentPackageError {
    InvalidData(String),
    Unreadable(String),
}

#[verifier::ext_equal]
pub enum VulkanResidentPackageErrorView {
    InvalidData(Seq<char>),
    Unreadable(Seq<char>),
}

impl DeepView for VulkanResidentPackageError {
    type V = VulkanResidentPackageErrorView;

    open spec fn deep_view(&self) -> VulkanResidentPackageErrorView {
        match self {
            VulkanResidentPackageError::InvalidData(value) => VulkanResidentPackageErrorView::InvalidData(value.deep_view()),
            VulkanResidentPackageError::Unreadable(value) => VulkanResidentPackageErrorView::Unreadable(value.deep_view()),
        }
    }
}

impl View for VulkanResidentPackageError {
    type V = VulkanResidentPackageErrorView;

    open spec fn view(&self) -> VulkanResidentPackageErrorView {
        self.deep_view()
    }
}

impl Clone for VulkanResidentPackageError {
    fn clone(&self) -> (r: Self)
        ensures
            r@ == self@,
    {
        match self {
            VulkanResidentPackageError::InvalidData(value) => VulkanResidentPackageError::InvalidData(value.clone()),
            VulkanResidentPackageError::Unreadable(value) => VulkanResidentPackageError::Unreadable(value.clone()),
        }
    }
}

/// What is said of it.
pub open spec fn package_message(error: VulkanResidentPackageErrorView) -> Seq<char> {
    match error {
        VulkanResidentPackageErrorView::InvalidData(message) => message,
        VulkanResidentPackageErrorView::Unreadable(message) => message,
    }
}

impl VulkanResidentPackageError {
    /// What is wrong.
    pub fn to_string(&self) -> (r: String)
        ensures
            r@ == package_message(self@),
    {
        match self {
            VulkanResidentPackageError::InvalidData(message) => message.clone(),
            VulkanResidentPackageError::Unreadable(message) => message.clone(),
        }
    }
}

/// Why a package cannot be mounted.
#[derive(Debug, PartialEq, Eq)]
pub struct VulkanResidentTokenModelPackageError(pub String);

impl DeepView for VulkanResidentTokenModelPackageError {
    type V = Seq<char>;

    open spec fn deep_view(&self) -> Seq<char> {
        self.0.deep_view()
    }
}

impl View for VulkanResidentTokenModelPackageError {
    type V = Seq<char>;

    open spec fn view(&self) -> Seq<char> {
        self.deep_view()
    }
}

impl Clone for VulkanResidentTokenModelPackageError {
    fn clone(&self) -> (r: Self)
        ensures
            r@ == self@,
    {
        VulkanResidentTokenModelPackageError(self.0.clone())
    }
}

impl VulkanResidentTokenModelPackageError {
    /// What is wrong.
    pub fn to_string(&self) -> (r: String)
        ensures
            r@ == self@,
    {
        self.0.clone()
    }
}

/// The tokenizer of a package.
#[derive(Debug, PartialEq, Eq)]
pub struct VulkanResidentPackageTokenizer {
    pub path: String,
    pub files: Vec<String>,
}

#[verifier::ext_equal]
pub struct VulkanResidentPackageTokenizerView {
    pub path: Seq<char>,
    pub files: Seq<Seq<char>>,
}

impl DeepView for VulkanResidentPackageTokenizer {
    type V = VulkanResidentPackageTokenizerView;

    open spec fn deep_view(&self) -> VulkanResidentPackageTokenizerView {
        VulkanResidentPackageTokenizerView {
            path: self.path.deep_view(),
            files: self.files.deep_view(),
        }
    }
}

impl View for VulkanResidentPackageTokenizer {
    type V = VulkanResidentPackageTokenizerView;

    open spec fn view(&self) -> VulkanResidentPackageTokenizerView {
        self.deep_view()
    }
}

impl Clone for VulkanResidentPackageTokenizer {
    fn clone(&self) -> (r: Self)
        ensures
            r@ == self@,
    {
        VulkanResidentPackageTokenizer {
            path: self.path.clone(),
            files: self.files.clone(),
        }
    }
}

/// The shaders of the input transducer.
#[derive(Debug, PartialEq, Eq)]
pub struct VulkanResidentPackageInputTransducer {
    pub shader_path: String,
    pub batch_shader_path: String,
}

#[verifier::ext_equal]
pub struct VulkanResidentPackageInputTransducerView {
    pub shader_path: Seq<char>,
    pub batch_shader_path: Seq<char>,
}

impl DeepView for VulkanResidentPackageInputTransducer {
    type V = VulkanResidentPackageInputTransducerView;

    open spec fn deep_view(&self) -> VulkanResidentPackageInputTransducerView {
        VulkanResidentPackageInputTransducerView {
            shader_path: self.shader_path.deep_view(),
            batch_shader_path: self.batch_shader_path.deep_view(),
        }
    }
}

impl View for VulkanResidentPackageInputTransducer {
    type V = VulkanResidentPackageInputTransducerView;

    open spec fn view(&self) -> VulkanResidentPackageInputTransducerView {
        self.deep_view()
    }
}

impl Clone for VulkanResidentPackageInputTransducer {
    fn clone(&self) -> (r: Self)
        ensures
            r@ == self@,
    {
        VulkanResidentPackageInputTransducer {
            shader_path: self.shader_path.clone(),
            batch_shader_path: self.batch_shader_path.clone(),
        }
    }
}

/// The shaders of the output transducer.
#[derive(Debug, PartialEq, Eq)]
pub struct VulkanResidentPackageOutputTransducer {
    pub embedding_norm_shader_path: String,
    pub embedding_norm_batch_shader_path: String,
    pub projection_shader_path: String,
    pub projection_batch_shader_path: String,
}

#[verifier::ext_equal]
pub struct VulkanResidentPackageOutputTransducerView {
    pub embedding_norm_shader_path: Seq<char>,
    pub embedding_norm_batch_shader_path: Seq<char>,
    pub projection_shader_path: Seq<char>,
    pub projection_batch_shader_path: Seq<char>,
}

impl DeepView for VulkanResidentPackageOutputTransducer {
    type V = VulkanResidentPackageOutputTransducerView;

    open spec fn deep_view(&self) -> VulkanResidentPackageOutputTransducerView {
        VulkanResidentPackageOutputTransducerView {
            embedding_norm_shader_path: self.embedding_norm_shader_path.deep_view(),
            embedding_norm_batch_shader_path: self.embedding_norm_batch_shader_path.deep_view(),
            projection_shader_path: self.projection_shader_path.deep_view(),
            projection_batch_shader_path: self.projection_batch_shader_path.deep_view(),
        }
    }
}

impl View for VulkanResidentPackageOutputTransducer {
    type V = VulkanResidentPackageOutputTransducerView;

    open spec fn view(&self) -> VulkanResidentPackageOutputTransducerView {
        self.deep_view()
    }
}

impl Clone for VulkanResidentPackageOutputTransducer {
    fn clone(&self) -> (r: Self)
        ensures
            r@ == self@,
    {
        VulkanResidentPackageOutputTransducer {
            embedding_norm_shader_path: self.embedding_norm_shader_path.clone(),
            embedding_norm_batch_shader_path: self.embedding_norm_batch_shader_path.clone(),
            projection_shader_path: self.projection_shader_path.clone(),
            projection_batch_shader_path: self.projection_batch_shader_path.clone(),
        }
    }
}

/// A shader.
#[derive(Debug, PartialEq, Eq)]
pub struct VulkanResidentPackageShader {
    pub shader_path: String,
}

#[verifier::ext_equal]
pub struct VulkanResidentPackageShaderView {
    pub shader_path: Seq<char>,
}

impl DeepView for VulkanResidentPackageShader {
    type V = VulkanResidentPackageShaderView;

    open spec fn deep_view(&self) -> VulkanResidentPackageShaderView {
        VulkanResidentPackageShaderView {
            shader_path: self.shader_path.deep_view(),
        }
    }
}

impl View for VulkanResidentPackageShader {
    type V = VulkanResidentPackageShaderView;

    open spec fn view(&self) -> VulkanResidentPackageShaderView {
        self.deep_view()
    }
}

impl Clone for VulkanResidentPackageShader {
    fn clone(&self) -> (r: Self)
        ensures
            r@ == self@,
    {
        VulkanResidentPackageShader {
            shader_path: self.shader_path.clone(),
        }
    }
}

/// What a shader needs of its device.
#[derive(Debug, PartialEq, Eq)]
pub struct VulkanShaderDeviceRequirements {
    pub vulkan_features: Vec<String>,
    pub subgroup_operations: Vec<String>,
}

#[verifier::ext_equal]
pub struct VulkanShaderDeviceRequirementsView {
    pub vulkan_features: Seq<Seq<char>>,
    pub subgroup_operations: Seq<Seq<char>>,
}

impl DeepView for VulkanShaderDeviceRequirements {
    type V = VulkanShaderDeviceRequirementsView;

    open spec fn deep_view(&self) -> VulkanShaderDeviceRequirementsView {
        VulkanShaderDeviceRequirementsView {
            vulkan_features: self.vulkan_features.deep_view(),
            subgroup_operations: self.subgroup_operations.deep_view(),
        }
    }
}

impl View for VulkanShaderDeviceRequirements {
    type V = VulkanShaderDeviceRequirementsView;

    open spec fn view(&self) -> VulkanShaderDeviceRequirementsView {
        self.deep_view()
    }
}

impl Clone for VulkanShaderDeviceRequirements {
    fn clone(&self) -> (r: Self)
        ensures
            r@ == self@,
    {
        VulkanShaderDeviceRequirements {
            vulkan_features: self.vulkan_features.clone(),
            subgroup_operations: self.subgroup_operations.clone(),
        }
    }
}

/// A way to run a node for many lanes: shaders one after the other, and what they need.
#[derive(Debug, PartialEq, Eq)]
pub struct VulkanResidentPackageBatchImplementation {
    pub stages: Vec<VulkanResidentPackageShader>,
    pub device_requirements: VulkanShaderDeviceRequirements,
}

#[verifier::ext_equal]
pub struct VulkanResidentPackageBatchImplementationView {
    pub stages: Seq<VulkanResidentPackageShaderView>,
    pub device_requirements: VulkanShaderDeviceRequirementsView,
}

impl DeepView for VulkanResidentPackageBatchImplementation {
    type V = VulkanResidentPackageBatchImplementationView;

    open spec fn deep_view(&self) -> VulkanResidentPackageBatchImplementationView {
        VulkanResidentPackageBatchImplementationView {
            stages: self.stages.deep_view(),
            device_requirements: self.device_requirements.deep_view(),
        }
    }
}

impl View for VulkanResidentPackageBatchImplementation {
    type V = VulkanResidentPackageBatchImplementationView;

    open spec fn view(&self) -> VulkanResidentPackageBatchImplementationView {
        self.deep_view()
    }
}

impl Clone for VulkanResidentPackageBatchImplementation {
    fn clone(&self) -> (r: Self)
        ensures
            r@ == self@,
    {
        VulkanResidentPackageBatchImplementation {
            stages: self.stages.clone(),
            device_requirements: self.device_requirements.clone(),
        }
    }
}

/// The kernel of a node.
#[derive(Debug, PartialEq, Eq)]
pub struct VulkanResidentPackageKernel {
    pub node_id: String,
    pub shader_path: String,
    pub batch_implementations: Vec<VulkanResidentPackageBatchImplementation>,
}

#[verifier::ext_equal]
pub struct VulkanResidentPackageKernelView {
    pub node_id: Seq<char>,
    pub shader_path: Seq<char>,
    pub batch_implementations: Seq<VulkanResidentPackageBatchImplementationView>,
}

impl DeepView for VulkanResidentPackageKernel {
    type V = VulkanResidentPackageKernelView;

    open spec fn deep_view(&self) -> VulkanResidentPackageKernelView {
        VulkanResidentPackageKernelView {
            node_id: self.node_id.deep_view(),
            shader_path: self.shader_path.deep_view(),
            batch_implementations: self.batch_implementations.deep_view(),
        }
    }
}

impl View for VulkanResidentPackageKernel {
    type V = VulkanResidentPackageKernelView;

    open spec fn view(&self) -> VulkanResidentPackageKernelView {
        self.deep_view()
    }
}

impl Clone for VulkanResidentPackageKernel {
    fn clone(&self) -> (r: Self)
        ensures
            r@ == self@,
    {
        VulkanResidentPackageKernel {
            node_id: self.node_id.clone(),
            shader_path: self.shader_path.clone(),
            batch_implementations: self.batch_implementations.clone(),
        }
    }
}

/// The kernels of a component.
#[derive(Debug, PartialEq, Eq)]
pub struct VulkanResidentPackageComponentExecution {
    pub component_id: String,
    pub kernels: Vec<VulkanResidentPackageKernel>,
}

#[verifier::ext_equal]
pub struct VulkanResidentPackageComponentExecutionView {
    pub component_id: Seq<char>,
    pub kernels: Seq<VulkanResidentPackageKernelView>,
}

impl DeepView for VulkanResidentPackageComponentExecution {
    type V = VulkanResidentPackageComponentExecutionView;

    open spec fn deep_view(&self) -> VulkanResidentPackageComponentExecutionView {
        VulkanResidentPackageComponentExecutionView {
            component_id: self.component_id.deep_view(),
            kernels: self.kernels.deep_view(),
        }
    }
}

impl View for VulkanResidentPackageComponentExecution {
    type V = VulkanResidentPackageComponentExecutionView;

    open spec fn view(&self) -> VulkanResidentPackageComponentExecutionView {
        self.deep_view()
    }
}

impl Clone for VulkanResidentPackageComponentExecution {
    fn clone(&self) -> (r: Self)
        ensures
            r@ == self@,
    {
        VulkanResidentPackageComponentExecution {
            component_id: self.component_id.clone(),
            kernels: self.kernels.clone(),
        }
    }
}

/// The shaders of a draft's output transducer.
#[derive(Debug, PartialEq, Eq)]
pub struct VulkanResidentPackageDraftOutputTransducer {
    pub norm_shader_path: String,
    pub projection_shader_path: String,
}

#[verifier::ext_equal]
pub struct VulkanResidentPackageDraftOutputTransducerView {
    pub norm_shader_path: Seq<char>,
    pub projection_shader_path: Seq<char>,
}

impl DeepView for VulkanResidentPackageDraftOutputTransducer {
    type V = VulkanResidentPackageDraftOutputTransducerView;

    open spec fn deep_view(&self) -> VulkanResidentPackageDraftOutputTransducerView {
        VulkanResidentPackageDraftOutputTransducerView {
            norm_shader_path: self.norm_shader_path.deep_view(),
            projection_shader_path: self.projection_shader_path.deep_view(),
        }
    }
}

impl View for VulkanResidentPackageDraftOutputTransducer {
    type V = VulkanResidentPackageDraftOutputTransducerView;

    open spec fn view(&self) -> VulkanResidentPackageDraftOutputTransducerView {
        self.deep_view()
    }
}

impl Clone for VulkanResidentPackageDraftOutputTransducer {
    fn clone(&self) -> (r: Self)
        ensures
            r@ == self@,
    {
        VulkanResidentPackageDraftOutputTransducer {
            norm_shader_path: self.norm_shader_path.clone(),
            projection_shader_path: self.projection_shader_path.clone(),
        }
    }
}

/// A model that drafts tokens for the packaged one.
#[derive(Debug, PartialEq, Eq)]
pub struct VulkanResidentPackageSpeculativeDecoder {
    pub output_transducer: VulkanResidentPackageDraftOutputTransducer,
    pub component_executions: Vec<VulkanResidentPackageComponentExecution>,
}

#[verifier::ext_equal]
pub struct VulkanResidentPackageSpeculativeDecoderView {
    pub output_transducer: VulkanResidentPackageDraftOutputTransducerView,
    pub component_executions: Seq<VulkanResidentPackageComponentExecutionView>,
}

impl DeepView for VulkanResidentPackageSpeculativeDecoder {
    type V = VulkanResidentPackageSpeculativeDecoderView;

    open spec fn deep_view(&self) -> VulkanResidentPackageSpeculativeDecoderView {
        VulkanResidentPackageSpeculativeDecoderView {
            output_transducer: self.output_transducer.deep_view(),
            component_executions: self.component_executions.deep_view(),
        }
    }
}

impl View for VulkanResidentPackageSpeculativeDecoder {
    type V = VulkanResidentPackageSpeculativeDecoderView;

    open spec fn view(&self) -> VulkanResidentPackageSpeculativeDecoderView {
        self.deep_view()
    }
}

impl Clone for VulkanResidentPackageSpeculativeDecoder {
    fn clone(&self) -> (r: Self)
        ensures
            r@ == self@,
    {
        VulkanResidentPackageSpeculativeDecoder {
            output_transducer: self.output_transducer.clone(),
            component_executions: self.component_executions.clone(),
        }
    }
}

/// What a file of the package has to be.
#[derive(Debug, PartialEq, Eq)]
pub struct VulkanResidentPackageArtifactContract {
    pub sha256: String,
    pub byte_count: usize,
}

#[verifier::ext_equal]
pub struct VulkanResidentPackageArtifactContractView {
    pub sha256: Seq<char>,
    pub byte_count: usize,
}

impl DeepView for VulkanResidentPackageArtifactContract {
    type V = VulkanResidentPackageArtifactContractView;

    open spec fn deep_view(&self) -> VulkanResidentPackageArtifactContractView {
        VulkanResidentPackageArtifactContractView {
            sha256: self.sha256.deep_view(),
            byte_count: self.byte_count,
        }
    }
}

impl View for VulkanResidentPackageArtifactContract {
    type V = VulkanResidentPackageArtifactContractView;

    open spec fn view(&self) -> VulkanResidentPackageArtifactContractView {
        self.deep_view()
    }
}

impl Clone for VulkanResidentPackageArtifactContract {
    fn clone(&self) -> (r: Self)
        ensures
            r@ == self@,
    {
        VulkanResidentPackageArtifactContract {
            sha256: self.sha256.clone(),
            byte_count: self.byte_count,
        }
    }
}

/// What the files of a package have to be.
#[derive(Debug, PartialEq, Eq)]
pub struct VulkanResidentPackageArtifactIntegrity {
    pub schema: String,
    pub algorithm: String,
    pub files: OrderedMap<String, VulkanResidentPackageArtifactContract>,
}

#[verifier::ext_equal]
pub struct VulkanResidentPackageArtifactIntegrityView {
    pub schema: Seq<char>,
    pub algorithm: Seq<char>,
    pub files: Map<Seq<char>, VulkanResidentPackageArtifactContractView>,
}

impl DeepView for VulkanResidentPackageArtifactIntegrity {
    type V = VulkanResidentPackageArtifactIntegrityView;

    open spec fn deep_view(&self) -> VulkanResidentPackageArtifactIntegrityView {
        VulkanResidentPackageArtifactIntegrityView {
            schema: self.schema.deep_view(),
            algorithm: self.algorithm.deep_view(),
            files: self.files.deep_view(),
        }
    }
}

impl View for VulkanResidentPackageArtifactIntegrity {
    type V = VulkanResidentPackageArtifactIntegrityView;

    open spec fn view(&self) -> VulkanResidentPackageArtifactIntegrityView {
        self.deep_view()
    }
}

/// The manifest of a model package.
#[derive(Debug, PartialEq, Eq)]
pub struct VulkanResidentModelPackageManifest {
    pub package_id: String,
    pub tensor_index_path: String,
    pub behavioral_validation_path: String,
    pub config_path: String,
    pub tokenizer: VulkanResidentPackageTokenizer,
    pub input_transducer: VulkanResidentPackageInputTransducer,
    pub output_transducer: VulkanResidentPackageOutputTransducer,
    pub sampler_kernels: Vec<VulkanResidentPackageShader>,
    pub component_executions: Vec<VulkanResidentPackageComponentExecution>,
    pub speculative_decoders: Vec<VulkanResidentPackageSpeculativeDecoder>,
    pub artifact_integrity: VulkanResidentPackageArtifactIntegrity,
    pub required_vulkan_features: Vec<String>,
    pub required_vulkan_subgroup_operations: Vec<String>,
    pub circuit_graph: VulkanResidentPackageCircuitGraph,
}

#[verifier::ext_equal]
pub struct VulkanResidentModelPackageManifestView {
    pub package_id: Seq<char>,
    pub tensor_index_path: Seq<char>,
    pub behavioral_validation_path: Seq<char>,
    pub config_path: Seq<char>,
    pub tokenizer: VulkanResidentPackageTokenizerView,
    pub input_transducer: VulkanResidentPackageInputTransducerView,
    pub output_transducer: VulkanResidentPackageOutputTransducerView,
    pub sampler_kernels: Seq<VulkanResidentPackageShaderView>,
    pub component_executions: Seq<VulkanResidentPackageComponentExecutionView>,
    pub speculative_decoders: Seq<VulkanResidentPackageSpeculativeDecoderView>,
    pub artifact_integrity: VulkanResidentPackageArtifactIntegrityView,
    pub required_vulkan_features: Seq<Seq<char>>,
    pub required_vulkan_subgroup_operations: Seq<Seq<char>>,
    pub circuit_graph: VulkanResidentPackageCircuitGraphView,
}

impl DeepView for VulkanResidentModelPackageManifest {
    type V = VulkanResidentModelPackageManifestView;

    open spec fn deep_view(&self) -> VulkanResidentModelPackageManifestView {
        VulkanResidentModelPackageManifestView {
            package_id: self.package_id.deep_view(),
            tensor_index_path: self.tensor_index_path.deep_view(),
            behavioral_validation_path: self.behavioral_validation_path.deep_view(),
            config_path: self.config_path.deep_view(),
            tokenizer: self.tokenizer.deep_view(),
            input_transducer: self.input_transducer.deep_view(),
            output_transducer: self.output_transducer.deep_view(),
            sampler_kernels: self.sampler_kernels.deep_view(),
            component_executions: self.component_executions.deep_view(),
            speculative_decoders: self.speculative_decoders.deep_view(),
            artifact_integrity: self.artifact_integrity.deep_view(),
            required_vulkan_features: self.required_vulkan_features.deep_view(),
            required_vulkan_subgroup_operations: self.required_vulkan_subgroup_operations.deep_view(),
            circuit_graph: self.circuit_graph.deep_view(),
        }
    }
}

impl View for VulkanResidentModelPackageManifest {
    type V = VulkanResidentModelPackageManifestView;

    open spec fn view(&self) -> VulkanResidentModelPackageManifestView {
        self.deep_view()
    }
}

// ---------------------------------------------------------------------------
// Paths that stay inside the package
// ---------------------------------------------------------------------------

/// Whether a part of a path starts at this position.
pub open spec fn part_starts(path: Seq<char>, i: int) -> bool {
    i == 0 || path[i - 1] == '/'
}

/// Whether the part of a path at this position leads to the directory above.
pub open spec fn leads_up_at(path: Seq<char>, i: int) -> bool {
    &&& 0 <= i
    &&& i + 2 <= path.len()
    &&& part_starts(path, i)
    &&& path[i] == '.' && path[i + 1] == '.'
    &&& i + 2 == path.len() || path[i + 2] == '/'
}

/// Whether a path leads out of the directory that it is taken in: it starts at the root, or one of
/// its parts leads to the directory above.
pub open spec fn leads_out(path: Seq<char>) -> bool {
    (path.len() > 0 && path[0] == '/') || exists|i: int| #[trigger] leads_up_at(path, i)
}

/// Whether a path leads out of the directory that it is taken in.
#[verifier::loop_isolation(false)]
pub fn path_leads_out(path: &str) -> (r: bool)
    ensures
        r == leads_out(path@),
{
    let all: Vec<char> = text::characters(path);
    if all.len() > 0 && all[0] == '/' {
        return true;
    }
    let mut i: usize = 0;
    while i < all.len()
        invariant
            i <= all.len(),
            forall|j: int| 0 <= j < i ==> !#[trigger] leads_up_at(path@, j),
        decreases all.len() - i,
    {
        let starts: bool = i == 0 || all[i - 1] == '/';
        if starts && all.len() - i >= 2 && all[i] == '.' && all[i + 1] == '.' && (all.len() - i
            == 2 || all[i + 2] == '/') {
            assert(leads_up_at(path@, i as int));
            return true;
        }
        i += 1;
    }
    assert forall|j: int| !#[trigger] leads_up_at(path@, j) by {
        if 0 <= j < all@.len() {
        }
    }
    false
}

/// The error where a path does not stay inside the package.
pub open spec fn path_error(label: Seq<char>, path: Seq<char>) -> Option<
    VulkanResidentPackageErrorView,
> {
    if path.len() == 0 || leads_out(path) {
        Some(
            VulkanResidentPackageErrorView::InvalidData(
                "resident model package "@ + label + " path "@ + text::quoted(path)
                    + " must stay inside the package"@,
            ),
        )
    } else {
        None
    }
}

/// Refuses a path that does not stay inside the package.
pub fn validate_resident_package_relative_path(label: &str, value: &str) -> (r: Result<
    (),
    VulkanResidentPackageError,
>)
    ensures
        sequence::outcome(r) == (match path_error(label@, value@) {
            Some(error) => Err::<(), VulkanResidentPackageErrorView>(error),
            None => Ok(()),
        }),
{
    let all: Vec<char> = text::characters(value);
    if all.len() == 0 || path_leads_out(value) {
        return Err(
            VulkanResidentPackageError::InvalidData(
                Message::new("resident model package ").text(label).text(" path ").quoted(
                    value,
                ).text(" must stay inside the package").done(),
            ),
        );
    }
    Ok(())
}

/// A path that a manifest names, with what it is called.
#[derive(Debug, PartialEq, Eq)]
pub struct VulkanResidentPackagePath {
    pub label: String,
    pub path: String,
}

#[verifier::ext_equal]
pub struct VulkanResidentPackagePathView {
    pub label: Seq<char>,
    pub path: Seq<char>,
}

impl DeepView for VulkanResidentPackagePath {
    type V = VulkanResidentPackagePathView;

    open spec fn deep_view(&self) -> VulkanResidentPackagePathView {
        VulkanResidentPackagePathView {
            label: self.label.deep_view(),
            path: self.path.deep_view(),
        }
    }
}

impl View for VulkanResidentPackagePath {
    type V = VulkanResidentPackagePathView;

    open spec fn view(&self) -> VulkanResidentPackagePathView {
        self.deep_view()
    }
}

impl Clone for VulkanResidentPackagePath {
    fn clone(&self) -> (r: Self)
        ensures
            r@ == self@,
    {
        VulkanResidentPackagePath {
            label: self.label.clone(),
            path: self.path.clone(),
        }
    }
}

/// A path with its label.
pub open spec fn labelled(label: Seq<char>, path: Seq<char>) -> VulkanResidentPackagePathView {
    VulkanResidentPackagePathView { label, path }
}

/// A shader with its label.
pub open spec fn shader_path(label: Seq<char>) -> spec_fn(VulkanResidentPackageShaderView) -> VulkanResidentPackagePathView {
    |shader: VulkanResidentPackageShaderView| labelled(label, shader.shader_path)
}

/// A file with its label.
pub open spec fn file_path(label: Seq<char>) -> spec_fn(Seq<char>) -> VulkanResidentPackagePathView {
    |file: Seq<char>| labelled(label, file)
}

/// The shaders of a batch implementation.
pub open spec fn implementation_paths(label: Seq<char>) -> spec_fn(
    VulkanResidentPackageBatchImplementationView,
) -> Seq<VulkanResidentPackagePathView> {
    |implementation: VulkanResidentPackageBatchImplementationView|
        implementation.stages.map_values(shader_path(label))
}

/// The shaders of a kernel.
pub open spec fn kernel_paths(label: Seq<char>, stage_label: Seq<char>) -> spec_fn(
    VulkanResidentPackageKernelView,
) -> Seq<VulkanResidentPackagePathView> {
    |kernel: VulkanResidentPackageKernelView|
        seq![labelled(label, kernel.shader_path)] + sequence::joined(
            kernel.batch_implementations,
            implementation_paths(stage_label),
        )
}

/// The shaders of a component.
pub open spec fn execution_paths(label: Seq<char>, stage_label: Seq<char>) -> spec_fn(
    VulkanResidentPackageComponentExecutionView,
) -> Seq<VulkanResidentPackagePathView> {
    |execution: VulkanResidentPackageComponentExecutionView|
        sequence::joined(execution.kernels, kernel_paths(label, stage_label))
}

/// The shaders of a draft.
pub open spec fn decoder_paths() -> spec_fn(VulkanResidentPackageSpeculativeDecoderView) -> Seq<
    VulkanResidentPackagePathView,
> {
    |decoder: VulkanResidentPackageSpeculativeDecoderView|
        seq![
            labelled("draft output norm shader"@, decoder.output_transducer.norm_shader_path),
            labelled(
                "draft output projection shader"@,
                decoder.output_transducer.projection_shader_path,
            ),
        ] + sequence::joined(
            decoder.component_executions,
            execution_paths(
                "draft component kernel shader"@,
                "draft component batch implementation stage shader"@,
            ),
        )
}

/// The paths that every manifest names.
pub open spec fn fixed_paths(manifest: VulkanResidentModelPackageManifestView) -> Seq<
    VulkanResidentPackagePathView,
> {
    seq![
        labelled("tensor index"@, manifest.tensor_index_path),
        labelled("behavioral validation"@, manifest.behavioral_validation_path),
        labelled("config"@, manifest.config_path),
        labelled("tokenizer"@, manifest.tokenizer.path),
        labelled("input transducer shader"@, manifest.input_transducer.shader_path),
        labelled("batched input transducer shader"@, manifest.input_transducer.batch_shader_path),
        labelled(
            "output embedding norm shader"@,
            manifest.output_transducer.embedding_norm_shader_path,
        ),
        labelled(
            "batched output embedding norm shader"@,
            manifest.output_transducer.embedding_norm_batch_shader_path,
        ),
        labelled("output projection shader"@, manifest.output_transducer.projection_shader_path),
        labelled(
            "batched output projection shader"@,
            manifest.output_transducer.projection_batch_shader_path,
        ),
    ]
}

/// The paths that a manifest names, in the order in which they are checked.
pub open spec fn package_paths(manifest: VulkanResidentModelPackageManifestView) -> Seq<
    VulkanResidentPackagePathView,
> {
    fixed_paths(manifest) + manifest.sampler_kernels.map_values(
        shader_path("sampler kernel shader"@),
    ) + manifest.tokenizer.files.map_values(file_path("tokenizer file"@)) + sequence::joined(
        manifest.component_executions,
        execution_paths(
            "component kernel shader"@,
            "component batch implementation stage shader"@,
        ),
    ) + sequence::joined(manifest.speculative_decoders, decoder_paths())
}

/// Whether a path does not stay inside the package.
pub open spec fn strays() -> spec_fn(VulkanResidentPackagePathView) -> bool {
    |path: VulkanResidentPackagePathView| path_error(path.label, path.path) is Some
}

/// The error where a path of a manifest does not stay inside the package.
pub open spec fn paths_error(manifest: VulkanResidentModelPackageManifestView) -> Option<
    VulkanResidentPackageErrorView,
> {
    match sequence::find_first(package_paths(manifest), strays()) {
        Some(path) => path_error(path.label, path.path),
        None => None,
    }
}

fn label_path(label: &str, path: &String) -> (r: VulkanResidentPackagePath)
    ensures
        r@ == labelled(label@, path@),
{
    VulkanResidentPackagePath { label: label.to_owned(), path: path.clone() }
}

pub(crate) fn push_path(
    paths: &mut Vec<VulkanResidentPackagePath>,
    label: &str,
    path: &String,
)
    ensures
        final(paths).deep_view() == old(paths).deep_view().push(labelled(label@, path@)),
{
    let ghost before = paths.deep_view();
    paths.push(label_path(label, path));
    assert(paths.deep_view() =~= before.push(labelled(label@, path@)));
}

#[verifier::loop_isolation(false)]
pub(crate) fn push_shaders(
    paths: &mut Vec<VulkanResidentPackagePath>,
    label: &str,
    shaders: &Vec<VulkanResidentPackageShader>,
)
    ensures
        final(paths).deep_view() == old(paths).deep_view() + shaders.deep_view().map_values(
            shader_path(label@),
        ),
{
    let ghost start = paths.deep_view();
    let ghost more = shaders.deep_view().map_values(shader_path(label@));
    let mut i: usize = 0;
    assert(start + more.take(0) =~= start);
    while i < shaders.len()
        invariant
            i <= shaders.len(),
            paths.deep_view() == start + more.take(i as int),
        decreases shaders.len() - i,
    {
        assert(more[i as int] == labelled(label@, shaders@[i as int].shader_path@));
        push_path(paths, label, &shaders[i].shader_path);
        i += 1;
        assert(paths.deep_view() =~= start + more.take(i as int));
    }
    assert(more.take(more.len() as int) =~= more);
}

#[verifier::loop_isolation(false)]
fn push_files(paths: &mut Vec<VulkanResidentPackagePath>, label: &str, files: &Vec<String>)
    ensures
        final(paths).deep_view() == old(paths).deep_view() + files.deep_view().map_values(
            file_path(label@),
        ),
{
    let ghost start = paths.deep_view();
    let ghost more = files.deep_view().map_values(file_path(label@));
    let mut i: usize = 0;
    assert(start + more.take(0) =~= start);
    while i < files.len()
        invariant
            i <= files.len(),
            paths.deep_view() == start + more.take(i as int),
        decreases files.len() - i,
    {
        assert(more[i as int] == labelled(label@, files@[i as int]@));
        push_path(paths, label, &files[i]);
        i += 1;
        assert(paths.deep_view() =~= start + more.take(i as int));
    }
    assert(more.take(more.len() as int) =~= more);
}

#[verifier::loop_isolation(false)]
fn push_kernel(
    paths: &mut Vec<VulkanResidentPackagePath>,
    label: &str,
    stage_label: &str,
    kernel: &VulkanResidentPackageKernel,
)
    ensures
        final(paths).deep_view() == old(paths).deep_view() + kernel_paths(label@, stage_label@)(
            kernel@,
        ),
{
    let ghost start = paths.deep_view();
    let ghost all = kernel@.batch_implementations;
    let ghost f = implementation_paths(stage_label@);
    push_path(paths, label, &kernel.shader_path);
    let ghost head = paths.deep_view();
    let mut i: usize = 0;
    assert(all.take(0) =~= Seq::empty());
    assert(head + sequence::joined(all.take(0), f) =~= head);
    while i < kernel.batch_implementations.len()
        invariant
            i <= kernel.batch_implementations.len(),
            paths.deep_view() == head + sequence::joined(all.take(i as int), f),
        decreases kernel.batch_implementations.len() - i,
    {
        let ghost before = paths.deep_view();
        proof {
            assert(all[i as int] == kernel.batch_implementations@[i as int]@);
            sequence::lemma_joined_step(all, f, i as int);
        }
        push_shaders(paths, stage_label, &kernel.batch_implementations[i].stages);
        assert(paths.deep_view() =~= head + sequence::joined(all.take(i + 1), f));
        i += 1;
    }
    assert(all.take(all.len() as int) =~= all);
    assert(paths.deep_view() =~= start + kernel_paths(label@, stage_label@)(kernel@));
}

#[verifier::loop_isolation(false)]
fn push_execution(
    paths: &mut Vec<VulkanResidentPackagePath>,
    label: &str,
    stage_label: &str,
    execution: &VulkanResidentPackageComponentExecution,
)
    ensures
        final(paths).deep_view() == old(paths).deep_view() + execution_paths(
            label@,
            stage_label@,
        )(execution@),
{
    let ghost head = paths.deep_view();
    let ghost all = execution@.kernels;
    let ghost f = kernel_paths(label@, stage_label@);
    let mut i: usize = 0;
    assert(all.take(0) =~= Seq::empty());
    assert(head + sequence::joined(all.take(0), f) =~= head);
    while i < execution.kernels.len()
        invariant
            i <= execution.kernels.len(),
            paths.deep_view() == head + sequence::joined(all.take(i as int), f),
        decreases execution.kernels.len() - i,
    {
        proof {
            assert(all[i as int] == execution.kernels@[i as int]@);
            sequence::lemma_joined_step(all, f, i as int);
        }
        push_kernel(paths, label, stage_label, &execution.kernels[i]);
        assert(paths.deep_view() =~= head + sequence::joined(all.take(i + 1), f));
        i += 1;
    }
    assert(all.take(all.len() as int) =~= all);
}

#[verifier::loop_isolation(false)]
pub(crate) fn push_executions(
    paths: &mut Vec<VulkanResidentPackagePath>,
    label: &str,
    stage_label: &str,
    executions: &Vec<VulkanResidentPackageComponentExecution>,
)
    ensures
        final(paths).deep_view() == old(paths).deep_view() + sequence::joined(
            executions.deep_view(),
            execution_paths(label@, stage_label@),
        ),
{
    let ghost head = paths.deep_view();
    let ghost all = executions.deep_view();
    let ghost f = execution_paths(label@, stage_label@);
    let mut i: usize = 0;
    assert(all.take(0) =~= Seq::empty());
    assert(head + sequence::joined(all.take(0), f) =~= head);
    while i < executions.len()
        invariant
            i <= executions.len(),
            paths.deep_view() == head + sequence::joined(all.take(i as int), f),
        decreases executions.len() - i,
    {
        proof {
            assert(all[i as int] == executions@[i as int]@);
            sequence::lemma_joined_step(all, f, i as int);
        }
        push_execution(paths, label, stage_label, &executions[i]);
        assert(paths.deep_view() =~= head + sequence::joined(all.take(i + 1), f));
        i += 1;
    }
    assert(all.take(all.len() as int) =~= all);
}

#[verifier::loop_isolation(false)]
pub(crate) fn push_decoders(
    paths: &mut Vec<VulkanResidentPackagePath>,
    decoders: &Vec<VulkanResidentPackageSpeculativeDecoder>,
)
    ensures
        final(paths).deep_view() == old(paths).deep_view() + sequence::joined(
            decoders.deep_view(),
            decoder_paths(),
        ),
{
    let ghost head = paths.deep_view();
    let ghost all = decoders.deep_view();
    let ghost f = decoder_paths();
    let mut i: usize = 0;
    assert(all.take(0) =~= Seq::empty());
    assert(head + sequence::joined(all.take(0), f) =~= head);
    while i < decoders.len()
        invariant
            i <= decoders.len(),
            paths.deep_view() == head + sequence::joined(all.take(i as int), f),
        decreases decoders.len() - i,
    {
        let decoder = &decoders[i];
        let ghost before = paths.deep_view();
        proof {
            assert(all[i as int] == decoder@);
            sequence::lemma_joined_step(all, f, i as int);
        }
        push_path(paths, "draft output norm shader", &decoder.output_transducer.norm_shader_path);
        push_path(
            paths,
            "draft output projection shader",
            &decoder.output_transducer.projection_shader_path,
        );
        push_executions(
            paths,
            "draft component kernel shader",
            "draft component batch implementation stage shader",
            &decoder.component_executions,
        );
        assert(paths.deep_view() =~= before + f(all[i as int]));
        assert(paths.deep_view() =~= head + sequence::joined(all.take(i + 1), f));
        i += 1;
    }
    assert(all.take(all.len() as int) =~= all);
}

impl VulkanResidentModelPackageManifest {
    /// The paths that the manifest names, in the order in which they are checked.
    pub fn paths(&self) -> (r: Vec<VulkanResidentPackagePath>)
        ensures
            r.deep_view() == package_paths(self@),
    {
        let mut paths: Vec<VulkanResidentPackagePath> = Vec::new();
        assert(paths.deep_view() =~= Seq::empty());
        push_path(&mut paths, "tensor index", &self.tensor_index_path);
        push_path(&mut paths, "behavioral validation", &self.behavioral_validation_path);
        push_path(&mut paths, "config", &self.config_path);
        push_path(&mut paths, "tokenizer", &self.tokenizer.path);
        push_path(&mut paths, "input transducer shader", &self.input_transducer.shader_path);
        push_path(
            &mut paths,
            "batched input transducer shader",
            &self.input_transducer.batch_shader_path,
        );
        push_path(
            &mut paths,
            "output embedding norm shader",
            &self.output_transducer.embedding_norm_shader_path,
        );
        push_path(
            &mut paths,
            "batched output embedding norm shader",
            &self.output_transducer.embedding_norm_batch_shader_path,
        );
        push_path(
            &mut paths,
            "output projection shader",
            &self.output_transducer.projection_shader_path,
        );
        push_path(
            &mut paths,
            "batched output projection shader",
            &self.output_transducer.projection_batch_shader_path,
        );
        assert(paths.deep_view() =~= fixed_paths(self@));
        push_shaders(&mut paths, "sampler kernel shader", &self.sampler_kernels);
        push_files(&mut paths, "tokenizer file", &self.tokenizer.files);
        push_executions(
            &mut paths,
            "component kernel shader",
            "component batch implementation stage shader",
            &self.component_executions,
        );
        push_decoders(&mut paths, &self.speculative_decoders);
        paths
    }
}

/// Refuses a manifest with a path that does not stay inside the package.
#[verifier::loop_isolation(false)]
pub fn validate_resident_package_paths(manifest: &VulkanResidentModelPackageManifest) -> (r: Result<
    (),
    VulkanResidentPackageError,
>)
    ensures
        sequence::outcome(r) == (match paths_error(manifest@) {
            Some(error) => Err::<(), VulkanResidentPackageErrorView>(error),
            None => Ok(()),
        }),
{
    let paths: Vec<VulkanResidentPackagePath> = manifest.paths();
    let ghost all = paths.deep_view();
    let ghost p = strays();
    let mut i: usize = 0;
    while i < paths.len()
        invariant
            i <= paths.len(),
            forall|j: int| 0 <= j < i ==> !p(#[trigger] all[j]),
        decreases paths.len() - i,
    {
        assert(all[i as int] == paths@[i as int]@);
        match validate_resident_package_relative_path(
            paths[i].label.as_str(),
            paths[i].path.as_str(),
        ) {
            Err(error) => {
                proof {
                    sequence::lemma_find_first_at(all, p, i as int);
                }
                return Err(error);
            },
            Ok(()) => {},
        }
        i += 1;
    }
    proof {
        sequence::lemma_find_first_none(all, p);
    }
    Ok(())
}

/// A manifest is accepted only where every path that it names stays inside the package.
pub proof fn accepted_paths_stay_inside(manifest: VulkanResidentModelPackageManifestView, i: int)
    requires
        paths_error(manifest) is None,
        0 <= i < package_paths(manifest).len(),
    ensures
        package_paths(manifest)[i].path.len() > 0,
        !leads_out(package_paths(manifest)[i].path),
{
    let all = package_paths(manifest);
    if sequence::find_first(all, strays()) is Some {
        sequence::lemma_find_first_some(all, strays());
    }
    sequence::lemma_find_none_all(all, strays());
    assert(!strays()(all[i]));
}

/// Whether a path stays inside its package: it is not empty and does not lead out.
pub open spec fn stays_inside(path: Seq<char>) -> bool {
    path.len() > 0 && !leads_out(path)
}

proof fn lemma_listed_inside(
    manifest: VulkanResidentModelPackageManifestView,
    path: VulkanResidentPackagePathView,
)
    requires
        paths_error(manifest) is None,
        package_paths(manifest).contains(path),
    ensures
        stays_inside(path.path),
{
    let all = package_paths(manifest);
    let i = choose|i: int| 0 <= i < all.len() && all[i] == path;
    accepted_paths_stay_inside(manifest, i);
}

proof fn lemma_part_listed(
    manifest: VulkanResidentModelPackageManifestView,
    front: Seq<VulkanResidentPackagePathView>,
    part: Seq<VulkanResidentPackagePathView>,
    back: Seq<VulkanResidentPackagePathView>,
    path: VulkanResidentPackagePathView,
)
    requires
        package_paths(manifest) == front + part + back,
        part.contains(path),
    ensures
        package_paths(manifest).contains(path),
{
    let i = choose|i: int| 0 <= i < part.len() && part[i] == path;
    assert((front + part + back)[front.len() + i] == path);
}

/// Every path that an accepted manifest declares stays inside the package: those of its index, its
/// evidence, its configuration and its tokenizer, those of its transducers' and samplers' shaders, and
/// those of its components' kernels and of the stages of their batch implementations.
pub proof fn every_declared_path_stays_inside(
    manifest: VulkanResidentModelPackageManifestView,
    i: int,
    k: int,
    b: int,
    s: int,
)
    requires
        paths_error(manifest) is None,
    ensures
        stays_inside(manifest.tensor_index_path),
        stays_inside(manifest.behavioral_validation_path),
        stays_inside(manifest.config_path),
        stays_inside(manifest.tokenizer.path),
        stays_inside(manifest.input_transducer.shader_path),
        stays_inside(manifest.input_transducer.batch_shader_path),
        stays_inside(manifest.output_transducer.embedding_norm_shader_path),
        stays_inside(manifest.output_transducer.embedding_norm_batch_shader_path),
        stays_inside(manifest.output_transducer.projection_shader_path),
        stays_inside(manifest.output_transducer.projection_batch_shader_path),
        0 <= i < manifest.sampler_kernels.len() ==> stays_inside(
            manifest.sampler_kernels[i].shader_path,
        ),
        0 <= i < manifest.tokenizer.files.len() ==> stays_inside(manifest.tokenizer.files[i]),
        0 <= i < manifest.component_executions.len() ==> {
            let kernels = manifest.component_executions[i].kernels;
            0 <= k < kernels.len() ==> {
                let stages = kernels[k].batch_implementations[b].stages;
                &&& stays_inside(kernels[k].shader_path)
                &&& 0 <= b < kernels[k].batch_implementations.len() && 0 <= s < stages.len()
                    ==> stays_inside(stages[s].shader_path)
            }
        },
        0 <= i < manifest.speculative_decoders.len() ==> {
            &&& stays_inside(manifest.speculative_decoders[i].output_transducer.norm_shader_path)
            &&& stays_inside(
                manifest.speculative_decoders[i].output_transducer.projection_shader_path,
            )
        },
{
    let fixed = fixed_paths(manifest);
    let samplers = manifest.sampler_kernels.map_values(shader_path("sampler kernel shader"@));
    let files = manifest.tokenizer.files.map_values(file_path("tokenizer file"@));
    let paths_of = execution_paths(
        "component kernel shader"@,
        "component batch implementation stage shader"@,
    );
    let executions = sequence::joined(manifest.component_executions, paths_of);
    let decoders = sequence::joined(manifest.speculative_decoders, decoder_paths());
    let all = package_paths(manifest);
    assert(all[0] == fixed[0] && all[1] == fixed[1] && all[2] == fixed[2] && all[3] == fixed[3]);
    assert(all[4] == fixed[4] && all[5] == fixed[5] && all[6] == fixed[6] && all[7] == fixed[7]);
    assert(all[8] == fixed[8] && all[9] == fixed[9]);
    accepted_paths_stay_inside(manifest, 0);
    accepted_paths_stay_inside(manifest, 1);
    accepted_paths_stay_inside(manifest, 2);
    accepted_paths_stay_inside(manifest, 3);
    accepted_paths_stay_inside(manifest, 4);
    accepted_paths_stay_inside(manifest, 5);
    accepted_paths_stay_inside(manifest, 6);
    accepted_paths_stay_inside(manifest, 7);
    accepted_paths_stay_inside(manifest, 8);
    accepted_paths_stay_inside(manifest, 9);
    if 0 <= i < manifest.sampler_kernels.len() {
        assert(samplers.contains(samplers[i]));
        assert(all =~= fixed + samplers + (files + executions + decoders));
        lemma_part_listed(manifest, fixed, samplers, files + executions + decoders, samplers[i]);
        lemma_listed_inside(manifest, samplers[i]);
    }
    if 0 <= i < manifest.tokenizer.files.len() {
        assert(files.contains(files[i]));
        assert(all =~= (fixed + samplers) + files + (executions + decoders));
        lemma_part_listed(manifest, fixed + samplers, files, executions + decoders, files[i]);
        lemma_listed_inside(manifest, files[i]);
    }
    if 0 <= i < manifest.component_executions.len() {
        let execution = manifest.component_executions[i];
        if 0 <= k < execution.kernels.len() {
            let kernel = execution.kernels[k];
            let of_kernel = kernel_paths(
                "component kernel shader"@,
                "component batch implementation stage shader"@,
            );
            assert(all =~= (fixed + samplers + files) + executions + decoders);
            assert(of_kernel(kernel)[0].path == kernel.shader_path);
            lemma_kernel_listed(manifest, i, k, 0);
            lemma_part_listed(
                manifest,
                fixed + samplers + files,
                executions,
                decoders,
                of_kernel(kernel)[0],
            );
            lemma_listed_inside(manifest, of_kernel(kernel)[0]);
            if 0 <= b < kernel.batch_implementations.len() && 0 <= s
                < kernel.batch_implementations[b].stages.len() {
                let of_stage = implementation_paths("component batch implementation stage shader"@);
                let stage = of_stage(kernel.batch_implementations[b])[s];
                let stages = sequence::joined(kernel.batch_implementations, of_stage);
                sequence::lemma_joined_holds(kernel.batch_implementations, of_stage, b, s);
                let at = choose|at: int| 0 <= at < stages.len() && stages[at] == stage;
                assert(of_kernel(kernel)[1 + at] == stage);
                lemma_kernel_listed(manifest, i, k, 1 + at);
                lemma_part_listed(
                    manifest,
                    fixed + samplers + files,
                    executions,
                    decoders,
                    stage,
                );
                lemma_listed_inside(manifest, stage);
            }
        }
    }
    if 0 <= i < manifest.speculative_decoders.len() {
        let decoder = manifest.speculative_decoders[i];
        let own = decoder_paths()(decoder);
        let none = Seq::<VulkanResidentPackagePathView>::empty();
        assert(all =~= (fixed + samplers + files + executions) + decoders + none);
        sequence::lemma_joined_holds(manifest.speculative_decoders, decoder_paths(), i, 0);
        sequence::lemma_joined_holds(manifest.speculative_decoders, decoder_paths(), i, 1);
        lemma_part_listed(
            manifest,
            fixed + samplers + files + executions,
            decoders,
            none,
            own[0],
        );
        lemma_part_listed(
            manifest,
            fixed + samplers + files + executions,
            decoders,
            none,
            own[1],
        );
        lemma_listed_inside(manifest, own[0]);
        lemma_listed_inside(manifest, own[1]);
    }
}

proof fn lemma_kernel_listed(
    manifest: VulkanResidentModelPackageManifestView,
    i: int,
    k: int,
    at: int,
)
    requires
        0 <= i < manifest.component_executions.len(),
        0 <= k < manifest.component_executions[i].kernels.len(),
        0 <= at < kernel_paths(
            "component kernel shader"@,
            "component batch implementation stage shader"@,
        )(manifest.component_executions[i].kernels[k]).len(),
    ensures
        sequence::joined(
            manifest.component_executions,
            execution_paths(
                "component kernel shader"@,
                "component batch implementation stage shader"@,
            ),
        ).contains(
            kernel_paths(
                "component kernel shader"@,
                "component batch implementation stage shader"@,
            )(manifest.component_executions[i].kernels[k])[at],
        ),
{
    let of_kernel = kernel_paths(
        "component kernel shader"@,
        "component batch implementation stage shader"@,
    );
    let of_execution = execution_paths(
        "component kernel shader"@,
        "component batch implementation stage shader"@,
    );
    let execution = manifest.component_executions[i];
    let path = of_kernel(execution.kernels[k])[at];
    let own = of_execution(execution);
    sequence::lemma_joined_holds(execution.kernels, of_kernel, k, at);
    let j = choose|j: int| 0 <= j < own.len() && own[j] == path;
    sequence::lemma_joined_holds(manifest.component_executions, of_execution, i, j);
}

/// A path leads out where it is absolute, or where one of its parts is two dots: the first, the last,
/// one between others, or the only one.
pub proof fn paths_lead_out_over_the_top(a: Seq<char>, b: Seq<char>)
    ensures
        leads_out("/"@ + b),
        leads_out(".."@),
        leads_out("../"@ + b),
        leads_out(a + "/.."@),
        leads_out(a + "/../"@ + b),
{
    reveal_strlit("/");
    reveal_strlit("..");
    reveal_strlit("../");
    reveal_strlit("/..");
    reveal_strlit("/../");
    assert(("/"@ + b)[0] == '/');
    assert(leads_up_at(".."@, 0));
    assert(leads_up_at("../"@ + b, 0));
    let last = a + "/.."@;
    assert(last[a.len() as int] == '/');
    assert(leads_up_at(last, a.len() as int + 1));
    let middle = a + "/../"@ + b;
    assert(middle[a.len() as int] == '/');
    assert(middle[a.len() as int + 3] == '/');
    assert(leads_up_at(middle, a.len() as int + 1));
}

/// A relative path without two dots in a row stays inside.
pub proof fn plain_paths_stay_inside(path: Seq<char>)
    requires
        path.len() > 0,
        path[0] != '/',
        forall|i: int| 0 <= i < path.len() - 1 ==> !((#[trigger] path[i]) == '.' && path[i + 1] == '.'),
    ensures
        stays_inside(path),
{
    assert forall|i: int| !(#[trigger] leads_up_at(path, i)) by {
        if leads_up_at(path, i) {
            assert(path[i] == '.' && path[i + 1] == '.');
        }
    }
}

} // verus!
