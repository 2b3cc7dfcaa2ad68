//! What the shaders of a package need of a device, and what its manifest declares of it.

use crate::ordered;
use crate::ordered::OrderedSet;
use crate::package::manifest::VulkanResidentModelPackageManifest;
use crate::package::manifest::VulkanResidentModelPackageManifestView;
use crate::package::manifest::VulkanResidentPackageBatchImplementation;
use crate::package::manifest::VulkanResidentPackageBatchImplementationView;
use crate::package::manifest::VulkanResidentPackageComponentExecution;
use crate::package::manifest::VulkanResidentPackageComponentExecutionView;
use crate::package::manifest::VulkanResidentPackageError;
use crate::package::manifest::VulkanResidentPackageErrorView;
use crate::package::manifest::VulkanResidentPackageKernel;
use crate::package::manifest::VulkanResidentPackageKernelView;
use crate::package::manifest::VulkanResidentPackageShader;
use crate::package::manifest::VulkanResidentPackageShaderView;
use crate::package::manifest::VulkanResidentPackageSpeculativeDecoder;
use crate::package::manifest::VulkanResidentPackageSpeculativeDecoderView;
use crate::package::manifest::VulkanShaderDeviceRequirements;
use crate::package::manifest::VulkanShaderDeviceRequirementsView;
use crate::sequence;
use crate::text;
use crate::text::Message;
use vstd::prelude::*;

verus! {

/// Why a shader tells nothing of what it needs: its file cannot be read, or it has no valid contract.
#[derive(Debug, PartialEq, Eq)]
pub enum VulkanShaderInspectionFailure {
    Unreadable(String),
    Invalid(String),
}

#[verifier::ext_equal]
pub enum VulkanShaderInspectionFailureView {
    Unreadable(Seq<char>),
    Invalid(Seq<char>),
}

impl DeepView for VulkanShaderInspectionFailure {
    type V = VulkanShaderInspectionFailureView;

    open spec fn deep_view(&self) -> VulkanShaderInspectionFailureView {
        match self {
            VulkanShaderInspectionFailure::Unreadable(value) => VulkanShaderInspectionFailureView::Unreadable(value.deep_view()),
            VulkanShaderInspectionFailure::Invalid(value) => VulkanShaderInspectionFailureView::Invalid(value.deep_view()),
        }
    }
}

impl View for VulkanShaderInspectionFailure {
    type V = VulkanShaderInspectionFailureView;

    open spec fn view(&self) -> VulkanShaderInspectionFailureView {
        self.deep_view()
    }
}

impl Clone for VulkanShaderInspectionFailure {
    fn clone(&self) -> (r: Self)
        ensures
            r@ == self@,
    {
        match self {
            VulkanShaderInspectionFailure::Unreadable(value) => VulkanShaderInspectionFailure::Unreadable(value.clone()),
            VulkanShaderInspectionFailure::Invalid(value) => VulkanShaderInspectionFailure::Invalid(value.clone()),
        }
    }
}

/// What came of inspecting a shader.
#[derive(Debug, PartialEq, Eq)]
pub struct VulkanShaderInspection {
    pub shader_path: String,
    pub resolved_path: String,
    pub failure: Option<VulkanShaderInspectionFailure>,
    pub requirements: VulkanShaderDeviceRequirements,
}

#[verifier::ext_equal]
pub struct VulkanShaderInspectionView {
    pub shader_path: Seq<char>,
    pub resolved_path: Seq<char>,
    pub failure: Option<VulkanShaderInspectionFailureView>,
    pub requirements: VulkanShaderDeviceRequirementsView,
}

impl DeepView for VulkanShaderInspection {
    type V = VulkanShaderInspectionView;

    open spec fn deep_view(&self) -> VulkanShaderInspectionView {
        VulkanShaderInspectionView {
            shader_path: self.shader_path.deep_view(),
            resolved_path: self.resolved_path.deep_view(),
            failure: self.failure.deep_view(),
            requirements: self.requirements.deep_view(),
        }
    }
}

impl View for VulkanShaderInspection {
    type V = VulkanShaderInspectionView;

    open spec fn view(&self) -> VulkanShaderInspectionView {
        self.deep_view()
    }
}

impl Clone for VulkanShaderInspection {
    fn clone(&self) -> (r: Self)
        ensures
            r@ == self@,
    {
        VulkanShaderInspection {
            shader_path: self.shader_path.clone(),
            resolved_path: self.resolved_path.clone(),
            failure: self.failure.clone(),
            requirements: self.requirements.clone(),
        }
    }
}

/// A batch implementation, and the node that it is for.
#[derive(Debug, PartialEq, Eq)]
pub struct VulkanDeclaredImplementation {
    pub component_id: String,
    pub node_id: String,
    pub implementation: VulkanResidentPackageBatchImplementation,
}

#[verifier::ext_equal]
pub struct VulkanDeclaredImplementationView {
    pub component_id: Seq<char>,
    pub node_id: Seq<char>,
    pub implementation: VulkanResidentPackageBatchImplementationView,
}

impl DeepView for VulkanDeclaredImplementation {
    type V = VulkanDeclaredImplementationView;

    open spec fn deep_view(&self) -> VulkanDeclaredImplementationView {
        VulkanDeclaredImplementationView {
            component_id: self.component_id.deep_view(),
            node_id: self.node_id.deep_view(),
            implementation: self.implementation.deep_view(),
        }
    }
}

impl View for VulkanDeclaredImplementation {
    type V = VulkanDeclaredImplementationView;

    open spec fn view(&self) -> VulkanDeclaredImplementationView {
        self.deep_view()
    }
}

impl Clone for VulkanDeclaredImplementation {
    fn clone(&self) -> (r: Self)
        ensures
            r@ == self@,
    {
        VulkanDeclaredImplementation {
            component_id: self.component_id.clone(),
            node_id: self.node_id.clone(),
            implementation: self.implementation.clone(),
        }
    }
}

/// Whether this is what came of inspecting the shader.
pub open spec fn inspects(path: Seq<char>) -> spec_fn(VulkanShaderInspectionView) -> bool {
    |inspection: VulkanShaderInspectionView| inspection.shader_path == path
}

/// Adds what a shader needs.
pub open spec fn with_shader(inspections: Seq<VulkanShaderInspectionView>) -> spec_fn(
    (Set<Seq<char>>, Set<Seq<char>>),
    Seq<char>,
) -> Result<(Set<Seq<char>>, Set<Seq<char>>), Seq<char>> {
    |needs: (Set<Seq<char>>, Set<Seq<char>>), path: Seq<char>|
        {
            let inspection = sequence::find_first(inspections, inspects(path))->Some_0;
            match inspection.failure {
                Some(VulkanShaderInspectionFailureView::Unreadable(error)) => Err(
                    "failed to inspect compiled Vulkan shader "@ + text::quoted(
                        inspection.resolved_path,
                    ) + ": "@ + error,
                ),
                Some(VulkanShaderInspectionFailureView::Invalid(error)) => Err(
                    "compiled Vulkan shader "@ + text::quoted(inspection.resolved_path)
                        + " has no valid runtime device contract: "@ + error,
                ),
                None => Ok(
                    (
                        needs.0.union(inspection.requirements.vulkan_features.to_set()),
                        needs.1.union(inspection.requirements.subgroup_operations.to_set()),
                    ),
                ),
            }
        }
}

/// The features and the subgroup operations that these shaders need together.
pub open spec fn needs_of(
    inspections: Seq<VulkanShaderInspectionView>,
    paths: Seq<Seq<char>>,
) -> Result<(Set<Seq<char>>, Set<Seq<char>>), Seq<char>> {
    sequence::try_fold(
        paths,
        (Set::<Seq<char>>::empty(), Set::<Seq<char>>::empty()),
        with_shader(inspections),
    )
}

/// Whether these shaders were inspected.
pub open spec fn inspected(
    inspections: Seq<VulkanShaderInspectionView>,
    paths: Seq<Seq<char>>,
) -> bool {
    forall|i: int|
        0 <= i < paths.len() ==> sequence::find_first(
            inspections,
            inspects(#[trigger] paths[i]),
        ) is Some
}

/// What is wrong where these shaders do not need what is declared.
pub open spec fn declaration_error(
    inspections: Seq<VulkanShaderInspectionView>,
    paths: Seq<Seq<char>>,
    features: Seq<Seq<char>>,
    operations: Seq<Seq<char>>,
    message: Seq<char>,
) -> Option<Seq<char>> {
    match needs_of(inspections, paths) {
        Err(error) => Some(error),
        Ok(needs) => if features.to_set() != needs.0 || operations.to_set() != needs.1 {
            Some(message)
        } else {
            None
        },
    }
}

/// The path of a shader.
pub open spec fn shader_text() -> spec_fn(VulkanResidentPackageShaderView) -> Seq<char> {
    |shader: VulkanResidentPackageShaderView| shader.shader_path
}

/// What is wrong with what a batch implementation declares.
pub open spec fn implementation_error(
    inspections: Seq<VulkanShaderInspectionView>,
    declared: VulkanDeclaredImplementationView,
) -> Option<Seq<char>> {
    declaration_error(
        inspections,
        declared.implementation.stages.map_values(shader_text()),
        declared.implementation.device_requirements.vulkan_features,
        declared.implementation.device_requirements.subgroup_operations,
        "compiled batch implementation "@ + declared.component_id + "."@ + declared.node_id
            + " does not declare the Vulkan requirements of its SPIR-V artifacts"@,
    )
}

/// Whether a batch implementation declares the wrong needs.
pub open spec fn misdeclares(inspections: Seq<VulkanShaderInspectionView>) -> spec_fn(
    VulkanDeclaredImplementationView,
) -> bool {
    |declared: VulkanDeclaredImplementationView|
        implementation_error(inspections, declared) is Some
}

/// The components of a draft.
pub open spec fn decoder_executions() -> spec_fn(VulkanResidentPackageSpeculativeDecoderView) -> Seq<
    VulkanResidentPackageComponentExecutionView,
> {
    |decoder: VulkanResidentPackageSpeculativeDecoderView| decoder.component_executions
}

/// The components of a package: those of its model, then those of its drafts.
pub open spec fn all_executions(manifest: VulkanResidentModelPackageManifestView) -> Seq<
    VulkanResidentPackageComponentExecutionView,
> {
    manifest.component_executions + sequence::joined(
        manifest.speculative_decoders,
        decoder_executions(),
    )
}

/// A batch implementation of a node.
pub open spec fn declared_by(component_id: Seq<char>, node_id: Seq<char>) -> spec_fn(
    VulkanResidentPackageBatchImplementationView,
) -> VulkanDeclaredImplementationView {
    |implementation: VulkanResidentPackageBatchImplementationView|
        VulkanDeclaredImplementationView { component_id, node_id, implementation }
}

/// The batch implementations of a node.
pub open spec fn kernel_implementations(component_id: Seq<char>) -> spec_fn(
    VulkanResidentPackageKernelView,
) -> Seq<VulkanDeclaredImplementationView> {
    |kernel: VulkanResidentPackageKernelView|
        kernel.batch_implementations.map_values(declared_by(component_id, kernel.node_id))
}

/// The batch implementations of a component.
pub open spec fn execution_implementations() -> spec_fn(VulkanResidentPackageComponentExecutionView) -> Seq<
    VulkanDeclaredImplementationView,
> {
    |execution: VulkanResidentPackageComponentExecutionView|
        sequence::joined(execution.kernels, kernel_implementations(execution.component_id))
}

/// The batch implementations of a package.
pub open spec fn all_implementations(manifest: VulkanResidentModelPackageManifestView) -> Seq<
    VulkanDeclaredImplementationView,
> {
    sequence::joined(all_executions(manifest), execution_implementations())
}

/// The path of a kernel's shader.
pub open spec fn kernel_text() -> spec_fn(VulkanResidentPackageKernelView) -> Seq<char> {
    |kernel: VulkanResidentPackageKernelView| kernel.shader_path
}

/// The shaders of a component's kernels.
pub open spec fn execution_kernels() -> spec_fn(VulkanResidentPackageComponentExecutionView) -> Seq<
    Seq<char>,
> {
    |execution: VulkanResidentPackageComponentExecutionView|
        execution.kernels.map_values(kernel_text())
}

/// The shaders of a draft's output transducer.
pub open spec fn decoder_transducer() -> spec_fn(VulkanResidentPackageSpeculativeDecoderView) -> Seq<
    Seq<char>,
> {
    |decoder: VulkanResidentPackageSpeculativeDecoderView|
        seq![
            decoder.output_transducer.norm_shader_path,
            decoder.output_transducer.projection_shader_path,
        ]
}

/// The shaders that every run of the package needs.
pub open spec fn mandatory_shaders(manifest: VulkanResidentModelPackageManifestView) -> Seq<Seq<char>> {
    seq![
        manifest.input_transducer.shader_path,
        manifest.input_transducer.batch_shader_path,
        manifest.output_transducer.embedding_norm_shader_path,
        manifest.output_transducer.embedding_norm_batch_shader_path,
        manifest.output_transducer.projection_shader_path,
        manifest.output_transducer.projection_batch_shader_path,
    ] + manifest.sampler_kernels.map_values(shader_text()) + sequence::joined(
        manifest.speculative_decoders,
        decoder_transducer(),
    ) + sequence::joined(all_executions(manifest), execution_kernels())
}

/// Those shaders, in the order of their paths.
pub open spec fn mandatory_in_order(manifest: VulkanResidentModelPackageManifestView) -> Seq<Seq<char>> {
    ordered::sorted_elements::<String>(mandatory_shaders(manifest).to_set())
}

/// What is wrong with what a manifest declares of its shaders.
pub open spec fn shaders_error(
    manifest: VulkanResidentModelPackageManifestView,
    inspections: Seq<VulkanShaderInspectionView>,
) -> Option<Seq<char>> {
    match sequence::find_first(all_implementations(manifest), misdeclares(inspections)) {
        Some(declared) => implementation_error(inspections, declared),
        None => declaration_error(
            inspections,
            mandatory_in_order(manifest),
            manifest.required_vulkan_features,
            manifest.required_vulkan_subgroup_operations,
            "resident model package "@ + text::quoted(manifest.package_id)
                + " does not declare the Vulkan requirements of its mandatory SPIR-V artifacts"@,
        ),
    }
}

/// Whether every shader of a package was inspected.
pub open spec fn all_inspected(
    manifest: VulkanResidentModelPackageManifestView,
    inspections: Seq<VulkanShaderInspectionView>,
) -> bool {
    &&& inspected(inspections, mandatory_in_order(manifest))
    &&& forall|i: int|
        0 <= i < all_implementations(manifest).len() ==> inspected(
            inspections,
            (#[trigger] all_implementations(manifest)[i]).implementation.stages.map_values(
                shader_text(),
            ),
        )
}

// ---------------------------------------------------------------------------
// Computing it
// ---------------------------------------------------------------------------

#[verifier::loop_isolation(false)]
fn find_inspection<'a>(inspections: &'a Vec<VulkanShaderInspection>, path: &str) -> (r: Option<
    &'a VulkanShaderInspection,
>)
    ensures
        r.deep_view() == sequence::find_first(inspections.deep_view(), inspects(path@)),
{
    let ghost all = inspections.deep_view();
    let ghost p = inspects(path@);
    let mut i: usize = 0;
    while i < inspections.len()
        invariant
            i <= inspections.len(),
            forall|j: int| 0 <= j < i ==> !p(#[trigger] all[j]),
        decreases inspections.len() - i,
    {
        let item = &inspections[i];
        assert(all[i as int] == item.deep_view());
        if text::same(item.shader_path.as_str(), path) {
            proof {
                sequence::lemma_find_first_at(all, p, i as int);
            }
            return Some(item);
        }
        i += 1;
    }
    proof {
        sequence::lemma_find_first_none(all, p);
    }
    None
}

#[verifier::loop_isolation(false)]
fn insert_all(set: &mut OrderedSet<String>, more: &Vec<String>)
    requires
        old(set).sorted(),
    ensures
        final(set).sorted(),
        final(set)@ == old(set)@.union(more.deep_view().to_set()),
{
    let ghost start = set@;
    let ghost all = more.deep_view();
    let mut i: usize = 0;
    assert(all.take(0).to_set() =~= Set::empty());
    assert(start.union(all.take(0).to_set()) =~= start);
    while i < more.len()
        invariant
            i <= more.len(),
            set.sorted(),
            set@ == start.union(all.take(i as int).to_set()),
        decreases more.len() - i,
    {
        proof {
            ordered::lemma_to_set_step(all, i as int);
        }
        set.insert(more[i].clone());
        assert(set@ =~= start.union(all.take(i + 1).to_set()));
        i += 1;
    }
    assert(all.take(all.len() as int) =~= all);
}

/// The features and the subgroup operations that these shaders need together.
#[verifier::loop_isolation(false)]
pub fn resident_package_spirv_requirements(
    inspections: &Vec<VulkanShaderInspection>,
    shader_paths: &Vec<String>,
) -> (r: Result<(OrderedSet<String>, OrderedSet<String>), String>)
    requires
        inspected(inspections.deep_view(), shader_paths.deep_view()),
    ensures
        sequence::outcome(r) == needs_of(inspections.deep_view(), shader_paths.deep_view()),
        r matches Ok(needs) ==> needs.0.sorted() && needs.1.sorted(),
{
    let ghost all = shader_paths.deep_view();
    let ghost step = with_shader(inspections.deep_view());
    let ghost init = (Set::<Seq<char>>::empty(), Set::<Seq<char>>::empty());
    let mut features: OrderedSet<String> = OrderedSet::new();
    let mut operations: OrderedSet<String> = OrderedSet::new();
    let mut i: usize = 0;
    assert(all.take(0) =~= Seq::<Seq<char>>::empty());
    while i < shader_paths.len()
        invariant
            i <= shader_paths.len(),
            features.sorted(),
            operations.sorted(),
            sequence::try_fold(all.take(i as int), init, step) == Ok::<
                (Set<Seq<char>>, Set<Seq<char>>),
                Seq<char>,
            >((features@, operations@)),
        decreases shader_paths.len() - i,
    {
        proof {
            assert(all[i as int] == shader_paths@[i as int]@);
            sequence::lemma_try_fold_step(all, init, step, i as int);
            if sequence::try_fold(all.take(i + 1), init, step) is Err {
                sequence::lemma_try_fold_error(all, init, step, i + 1);
            }
        }
        match find_inspection(inspections, shader_paths[i].as_str()) {
            Some(inspection) => match &inspection.failure {
                Some(VulkanShaderInspectionFailure::Unreadable(error)) => {
                    return Err(
                        Message::new("failed to inspect compiled Vulkan shader ").quoted(
                            inspection.resolved_path.as_str(),
                        ).text(": ").text(error.as_str()).done(),
                    );
                },
                Some(VulkanShaderInspectionFailure::Invalid(error)) => {
                    return Err(
                        Message::new("compiled Vulkan shader ").quoted(
                            inspection.resolved_path.as_str(),
                        ).text(" has no valid runtime device contract: ").text(
                            error.as_str(),
                        ).done(),
                    );
                },
                None => {
                    insert_all(&mut features, &inspection.requirements.vulkan_features);
                    insert_all(&mut operations, &inspection.requirements.subgroup_operations);
                },
            },
            None => {
                assert(false);
            },
        }
        i += 1;
    }
    assert(all.take(all.len() as int) =~= all);
    Ok((features, operations))
}

fn check_declaration(
    inspections: &Vec<VulkanShaderInspection>,
    shader_paths: &Vec<String>,
    features: &Vec<String>,
    operations: &Vec<String>,
    message: String,
) -> (r: Result<(), String>)
    requires
        inspected(inspections.deep_view(), shader_paths.deep_view()),
    ensures
        sequence::outcome(r) == (match declaration_error(
            inspections.deep_view(),
            shader_paths.deep_view(),
            features.deep_view(),
            operations.deep_view(),
            message@,
        ) {
            Some(error) => Err::<(), Seq<char>>(error),
            None => Ok(()),
        }),
{
    match resident_package_spirv_requirements(inspections, shader_paths) {
        Err(error) => Err(error),
        Ok((needed_features, needed_operations)) => {
            if !ordered::distinct_texts(features).is_same(&needed_features)
                || !ordered::distinct_texts(operations).is_same(&needed_operations) {
                return Err(message);
            }
            Ok(())
        },
    }
}

#[verifier::loop_isolation(false)]
fn texts_of_shaders(shaders: &Vec<VulkanResidentPackageShader>) -> (r: Vec<String>)
    ensures
        r.deep_view() == shaders.deep_view().map_values(shader_text()),
{
    let ghost all_texts = shaders.deep_view();
    let ghost step_texts = shader_text();
    let mut texts: Vec<String> = Vec::new();
    let mut i: usize = 0;
    while i < shaders.len()
        invariant
            i <= shaders.len(),
            texts@.len() == i,
            forall|j: int| 0 <= j < i ==> (#[trigger] texts.deep_view()[j]) == step_texts(all_texts[j]),
        decreases shaders.len() - i,
    {
        let item = &shaders[i];
        assert(all_texts[i as int] == item.deep_view());
        let added = item.shader_path.clone();
        let ghost before = texts.deep_view();
        let ghost value = added.deep_view();
        texts.push(added);
        assert(texts.deep_view() =~= before.push(value));
        i += 1;
    }
    assert(texts.deep_view() =~= all_texts.map_values(step_texts));
    texts
}

#[verifier::loop_isolation(false)]
fn texts_of_kernels(execution: &VulkanResidentPackageComponentExecution) -> (r: Vec<String>)
    ensures
        r.deep_view() == execution_kernels()(execution@),
{
    let kernels: &Vec<VulkanResidentPackageKernel> = &execution.kernels;
    let ghost all_texts = kernels.deep_view();
    let ghost step_texts = kernel_text();
    let mut texts: Vec<String> = Vec::new();
    let mut i: usize = 0;
    while i < kernels.len()
        invariant
            i <= kernels.len(),
            texts@.len() == i,
            forall|j: int| 0 <= j < i ==> (#[trigger] texts.deep_view()[j]) == step_texts(all_texts[j]),
        decreases kernels.len() - i,
    {
        let item = &kernels[i];
        assert(all_texts[i as int] == item.deep_view());
        let added = item.shader_path.clone();
        let ghost before = texts.deep_view();
        let ghost value = added.deep_view();
        texts.push(added);
        assert(texts.deep_view() =~= before.push(value));
        i += 1;
    }
    assert(texts.deep_view() =~= all_texts.map_values(step_texts));
    texts
}

/// Refuses a batch implementation that declares other needs than its shaders have.
pub fn check_implementation(
    inspections: &Vec<VulkanShaderInspection>,
    declared: &VulkanDeclaredImplementation,
) -> (r: Result<(), String>)
    requires
        inspected(
            inspections.deep_view(),
            declared@.implementation.stages.map_values(shader_text()),
        ),
    ensures
        sequence::outcome(r) == (match implementation_error(inspections.deep_view(), declared@) {
            Some(error) => Err::<(), Seq<char>>(error),
            None => Ok(()),
        }),
{
    let paths: Vec<String> = texts_of_shaders(&declared.implementation.stages);
    check_declaration(
        inspections,
        &paths,
        &declared.implementation.device_requirements.vulkan_features,
        &declared.implementation.device_requirements.subgroup_operations,
        Message::new("compiled batch implementation ").text(declared.component_id.as_str()).text(
            ".",
        ).text(declared.node_id.as_str()).text(
            " does not declare the Vulkan requirements of its SPIR-V artifacts",
        ).done(),
    )
}

#[verifier::loop_isolation(false)]
fn implementations_of(execution: &VulkanResidentPackageComponentExecution) -> (r: Vec<
    VulkanDeclaredImplementation,
>)
    ensures
        r.deep_view() == execution_implementations()(execution@),
{
    let ghost all = execution@.kernels;
    let ghost f = kernel_implementations(execution@.component_id);
    let mut list: Vec<VulkanDeclaredImplementation> = Vec::new();
    let mut k: usize = 0;
    assert(all.take(0) =~= Seq::empty());
    assert(list.deep_view() =~= sequence::joined(all.take(0), f));
    while k < execution.kernels.len()
        invariant
            k <= execution.kernels.len(),
            list.deep_view() == sequence::joined(all.take(k as int), f),
        decreases execution.kernels.len() - k,
    {
        let kernel: &VulkanResidentPackageKernel = &execution.kernels[k];
        proof {
            assert(all[k as int] == kernel@);
            sequence::lemma_joined_step(all, f, k as int);
        }
        let implementations: &Vec<VulkanResidentPackageBatchImplementation> =
            &kernel.batch_implementations;
        let ghost all_more = implementations.deep_view();
        let ghost step_more = declared_by(execution@.component_id, kernel@.node_id);
        let mut more: Vec<VulkanDeclaredImplementation> = Vec::new();
        let mut i: usize = 0;
        while i < implementations.len()
            invariant
                i <= implementations.len(),
                more@.len() == i,
                forall|j: int| 0 <= j < i ==> (#[trigger] more.deep_view()[j]) == step_more(all_more[j]),
            decreases implementations.len() - i,
        {
            let item = &implementations[i];
            assert(all_more[i as int] == item.deep_view());
            let added = VulkanDeclaredImplementation { component_id: execution.component_id.clone(), node_id: kernel.node_id.clone(), implementation: item.clone() };
            let ghost before = more.deep_view();
            let ghost value = added.deep_view();
            more.push(added);
            assert(more.deep_view() =~= before.push(value));
            i += 1;
        }
        assert(more.deep_view() =~= all_more.map_values(step_more));
        sequence::append(&mut list, more);
        k += 1;
    }
    assert(all.take(all.len() as int) =~= all);
    list
}

impl VulkanResidentModelPackageManifest {
    /// The components of the package: those of its model, then those of its drafts.
    #[verifier::loop_isolation(false)]
    pub fn executions(&self) -> (r: Vec<VulkanResidentPackageComponentExecution>)
        ensures
            r.deep_view() == all_executions(self@),
    {
        let own: Vec<VulkanResidentPackageComponentExecution> = self.component_executions.clone();
        let mut list: Vec<VulkanResidentPackageComponentExecution> = own;
        assert(list.deep_view() =~= self@.component_executions);
        let ghost head = list.deep_view();
        let ghost all = self@.speculative_decoders;
        let ghost f = decoder_executions();
        let mut i: usize = 0;
        assert(all.take(0) =~= Seq::empty());
        assert(head + sequence::joined(all.take(0), f) =~= head);
        while i < self.speculative_decoders.len()
            invariant
                i <= self.speculative_decoders.len(),
                list.deep_view() == head + sequence::joined(all.take(i as int), f),
            decreases self.speculative_decoders.len() - i,
        {
            let decoder: &VulkanResidentPackageSpeculativeDecoder = &self.speculative_decoders[i];
            proof {
                assert(all[i as int] == decoder@);
                sequence::lemma_joined_step(all, f, i as int);
            }
            let more: Vec<VulkanResidentPackageComponentExecution> =
                decoder.component_executions.clone();
            assert(more.deep_view() =~= decoder@.component_executions);
            sequence::append(&mut list, more);
            assert(list.deep_view() =~= head + sequence::joined(all.take(i + 1), f));
            i += 1;
        }
        assert(all.take(all.len() as int) =~= all);
        list
    }

    /// The batch implementations of the package.
    #[verifier::loop_isolation(false)]
    pub fn batch_implementations(&self) -> (r: Vec<VulkanDeclaredImplementation>)
        ensures
            r.deep_view() == all_implementations(self@),
    {
        let executions: Vec<VulkanResidentPackageComponentExecution> = self.executions();
        let ghost all = executions.deep_view();
        let ghost f = execution_implementations();
        let mut list: Vec<VulkanDeclaredImplementation> = Vec::new();
        let mut i: usize = 0;
        assert(all.take(0) =~= Seq::empty());
        assert(list.deep_view() =~= sequence::joined(all.take(0), f));
        while i < executions.len()
            invariant
                i <= executions.len(),
                list.deep_view() == sequence::joined(all.take(i as int), f),
            decreases executions.len() - i,
        {
            proof {
                assert(all[i as int] == executions@[i as int]@);
                sequence::lemma_joined_step(all, f, i as int);
            }
            let more: Vec<VulkanDeclaredImplementation> = implementations_of(&executions[i]);
            sequence::append(&mut list, more);
            i += 1;
        }
        assert(all.take(all.len() as int) =~= all);
        list
    }

    /// The shaders that every run of the package needs, in the order of their paths.
    #[verifier::loop_isolation(false)]
    pub fn mandatory_shader_paths(&self) -> (r: Vec<String>)
        ensures
            r.deep_view() == mandatory_in_order(self@),
    {
        let mut list: Vec<String> = Vec::new();
        list.push(self.input_transducer.shader_path.clone());
        list.push(self.input_transducer.batch_shader_path.clone());
        list.push(self.output_transducer.embedding_norm_shader_path.clone());
        list.push(self.output_transducer.embedding_norm_batch_shader_path.clone());
        list.push(self.output_transducer.projection_shader_path.clone());
        list.push(self.output_transducer.projection_batch_shader_path.clone());
        assert(list.deep_view() =~= seq![
            self@.input_transducer.shader_path,
            self@.input_transducer.batch_shader_path,
            self@.output_transducer.embedding_norm_shader_path,
            self@.output_transducer.embedding_norm_batch_shader_path,
            self@.output_transducer.projection_shader_path,
            self@.output_transducer.projection_batch_shader_path,
        ]);
        let samplers: Vec<String> = texts_of_shaders(&self.sampler_kernels);
        sequence::append(&mut list, samplers);
        let ghost head = list.deep_view();
        let ghost decoders = self@.speculative_decoders;
        let ghost f = decoder_transducer();
        let mut i: usize = 0;
        assert(decoders.take(0) =~= Seq::empty());
        assert(head + sequence::joined(decoders.take(0), f) =~= head);
        while i < self.speculative_decoders.len()
            invariant
                i <= self.speculative_decoders.len(),
                list.deep_view() == head + sequence::joined(decoders.take(i as int), f),
            decreases self.speculative_decoders.len() - i,
        {
            let decoder: &VulkanResidentPackageSpeculativeDecoder = &self.speculative_decoders[i];
            proof {
                assert(decoders[i as int] == decoder@);
                sequence::lemma_joined_step(decoders, f, i as int);
            }
            let more: Vec<String> = vec![
                decoder.output_transducer.norm_shader_path.clone(),
                decoder.output_transducer.projection_shader_path.clone(),
            ];
            assert(more.deep_view() =~= f(decoder@));
            sequence::append(&mut list, more);
            assert(list.deep_view() =~= head + sequence::joined(decoders.take(i + 1), f));
            i += 1;
        }
        assert(decoders.take(decoders.len() as int) =~= decoders);
        let executions: Vec<VulkanResidentPackageComponentExecution> = self.executions();
        let ghost middle = list.deep_view();
        let ghost all = executions.deep_view();
        let ghost g = execution_kernels();
        let mut k: usize = 0;
        assert(all.take(0) =~= Seq::empty());
        assert(middle + sequence::joined(all.take(0), g) =~= middle);
        while k < executions.len()
            invariant
                k <= executions.len(),
                list.deep_view() == middle + sequence::joined(all.take(k as int), g),
            decreases executions.len() - k,
        {
            proof {
                assert(all[k as int] == executions@[k as int]@);
                sequence::lemma_joined_step(all, g, k as int);
            }
            let more: Vec<String> = texts_of_kernels(&executions[k]);
            sequence::append(&mut list, more);
            assert(list.deep_view() =~= middle + sequence::joined(all.take(k + 1), g));
            k += 1;
        }
        assert(all.take(all.len() as int) =~= all);
        assert(list.deep_view() =~= mandatory_shaders(self@));
        ordered::distinct_texts(&list).elements
    }
}

/// Refuses a manifest that declares other needs than its shaders have, from what came of inspecting
/// them.
#[verifier::loop_isolation(false)]
pub fn validate_resident_package_spirv_requirements(
    manifest: &VulkanResidentModelPackageManifest,
    inspections: &Vec<VulkanShaderInspection>,
) -> (r: Result<(), VulkanResidentPackageError>)
    requires
        all_inspected(manifest@, inspections.deep_view()),
    ensures
        sequence::outcome(r) == (match shaders_error(manifest@, inspections.deep_view()) {
            Some(error) => Err::<(), VulkanResidentPackageErrorView>(
                VulkanResidentPackageErrorView::InvalidData(error),
            ),
            None => Ok(()),
        }),
{
    let declared: Vec<VulkanDeclaredImplementation> = manifest.batch_implementations();
    let ghost all = declared.deep_view();
    let ghost p = misdeclares(inspections.deep_view());
    let mut i: usize = 0;
    while i < declared.len()
        invariant
            i <= declared.len(),
            forall|j: int| 0 <= j < i ==> !p(#[trigger] all[j]),
        decreases declared.len() - i,
    {
        assert(all[i as int] == declared@[i as int]@);
        assert(all[i as int] == all_implementations(manifest@)[i as int]);
        match check_implementation(inspections, &declared[i]) {
            Err(error) => {
                proof {
                    sequence::lemma_find_first_at(all, p, i as int);
                }
                return Err(VulkanResidentPackageError::InvalidData(error));
            },
            Ok(_) => {},
        }
        i += 1;
    }
    proof {
        sequence::lemma_find_first_none(all, p);
    }
    let paths: Vec<String> = manifest.mandatory_shader_paths();
    match check_declaration(
        inspections,
        &paths,
        &manifest.required_vulkan_features,
        &manifest.required_vulkan_subgroup_operations,
        Message::new("resident model package ").quoted(manifest.package_id.as_str()).text(
            " does not declare the Vulkan requirements of its mandatory SPIR-V artifacts",
        ).done(),
    ) {
        Ok(_) => Ok(()),
        Err(error) => Err(VulkanResidentPackageError::InvalidData(error)),
    }
}

// ---------------------------------------------------------------------------
// Laws
// ---------------------------------------------------------------------------

proof fn lemma_needs_hold(
    inspections: Seq<VulkanShaderInspectionView>,
    paths: Seq<Seq<char>>,
    i: int,
)
    requires
        needs_of(inspections, paths) is Ok,
        0 <= i < paths.len(),
    ensures
        ({
            let needs = needs_of(inspections, paths)->Ok_0;
            let found = sequence::find_first(inspections, inspects(paths[i]))->Some_0;
            &&& found.failure is None
            &&& found.requirements.vulkan_features.to_set().subset_of(needs.0)
            &&& found.requirements.subgroup_operations.to_set().subset_of(needs.1)
        }),
    decreases paths.len(),
{
    let front = paths.drop_last();
    if i < front.len() {
        lemma_needs_hold(inspections, front, i);
        assert(front[i] == paths[i]);
    }
}

/// A manifest that is accepted declares every feature and every subgroup operation that one of its
/// mandatory shaders needs.
pub proof fn accepted_manifests_declare_what_is_needed(
    manifest: VulkanResidentModelPackageManifestView,
    inspections: Seq<VulkanShaderInspectionView>,
    i: int,
)
    requires
        shaders_error(manifest, inspections) is None,
        0 <= i < mandatory_in_order(manifest).len(),
    ensures
        ({
            let found = sequence::find_first(
                inspections,
                inspects(mandatory_in_order(manifest)[i]),
            )->Some_0;
            &&& found.failure is None
            &&& found.requirements.vulkan_features.to_set().subset_of(
                manifest.required_vulkan_features.to_set(),
            )
            &&& found.requirements.subgroup_operations.to_set().subset_of(
                manifest.required_vulkan_subgroup_operations.to_set(),
            )
        }),
{
    let all = all_implementations(manifest);
    if sequence::find_first(all, misdeclares(inspections)) is Some {
        sequence::lemma_find_first_some(all, misdeclares(inspections));
    }
    lemma_needs_hold(inspections, mandatory_in_order(manifest), i);
}

proof fn lemma_needs_come_from_a_shader(
    inspections: Seq<VulkanShaderInspectionView>,
    paths: Seq<Seq<char>>,
    need: Seq<char>,
)
    requires
        needs_of(inspections, paths) is Ok,
    ensures
        needs_of(inspections, paths)->Ok_0.0.contains(need) ==> exists|i: int|
            0 <= i < paths.len() && sequence::find_first(
                inspections,
                inspects(#[trigger] paths[i]),
            )->Some_0.requirements.vulkan_features.contains(need),
        needs_of(inspections, paths)->Ok_0.1.contains(need) ==> exists|i: int|
            0 <= i < paths.len() && sequence::find_first(
                inspections,
                inspects(#[trigger] paths[i]),
            )->Some_0.requirements.subgroup_operations.contains(need),
    decreases paths.len(),
{
    if paths.len() > 0 {
        let front = paths.drop_last();
        lemma_needs_come_from_a_shader(inspections, front, need);
        let before = needs_of(inspections, front)->Ok_0;
        let n = front.len() as int;
        let last = sequence::find_first(inspections, inspects(paths[n]))->Some_0;
        assert(paths.last() == paths[n]);
        if before.0.contains(need) {
            let i = choose|i: int|
                0 <= i < n && sequence::find_first(
                    inspections,
                    inspects(#[trigger] front[i]),
                )->Some_0.requirements.vulkan_features.contains(need);
            assert(paths[i] == front[i]);
        }
        if before.1.contains(need) {
            let i = choose|i: int|
                0 <= i < n && sequence::find_first(
                    inspections,
                    inspects(#[trigger] front[i]),
                )->Some_0.requirements.subgroup_operations.contains(need);
            assert(paths[i] == front[i]);
        }
    }
}

/// Whether a declaration names exactly what the shaders under these paths need: all of it, and
/// nothing that none of them needs. Each of the shaders could be inspected.
pub open spec fn declares_exactly(
    inspections: Seq<VulkanShaderInspectionView>,
    paths: Seq<Seq<char>>,
    features: Seq<Seq<char>>,
    operations: Seq<Seq<char>>,
) -> bool {
    &&& forall|i: int|
        0 <= i < paths.len() ==> {
            let found = sequence::find_first(inspections, inspects(#[trigger] paths[i]))->Some_0;
            &&& found.failure is None
            &&& forall|need: Seq<char>|
                found.requirements.vulkan_features.contains(need) ==> #[trigger] features.contains(
                    need,
                )
            &&& forall|need: Seq<char>|
                found.requirements.subgroup_operations.contains(need)
                    ==> #[trigger] operations.contains(need)
        }
    &&& forall|need: Seq<char>| #[trigger]
        features.contains(need) ==> exists|i: int|
            0 <= i < paths.len() && sequence::find_first(
                inspections,
                inspects(#[trigger] paths[i]),
            )->Some_0.requirements.vulkan_features.contains(need)
    &&& forall|need: Seq<char>| #[trigger]
        operations.contains(need) ==> exists|i: int|
            0 <= i < paths.len() && sequence::find_first(
                inspections,
                inspects(#[trigger] paths[i]),
            )->Some_0.requirements.subgroup_operations.contains(need)
}

proof fn lemma_declared_exactly(
    inspections: Seq<VulkanShaderInspectionView>,
    paths: Seq<Seq<char>>,
    features: Seq<Seq<char>>,
    operations: Seq<Seq<char>>,
    message: Seq<char>,
)
    requires
        declaration_error(inspections, paths, features, operations, message) is None,
    ensures
        declares_exactly(inspections, paths, features, operations),
{
    let needs = needs_of(inspections, paths)->Ok_0;
    assert forall|i: int| 0 <= i < paths.len() implies ({
        let found = sequence::find_first(inspections, inspects(#[trigger] paths[i]))->Some_0;
        &&& found.failure is None
        &&& forall|need: Seq<char>|
            found.requirements.vulkan_features.contains(need) ==> #[trigger] features.contains(need)
        &&& forall|need: Seq<char>|
            found.requirements.subgroup_operations.contains(need)
                ==> #[trigger] operations.contains(need)
    }) by {
        lemma_needs_hold(inspections, paths, i);
        let found = sequence::find_first(inspections, inspects(paths[i]))->Some_0;
        assert forall|need: Seq<char>|
            found.requirements.vulkan_features.contains(need) implies #[trigger] features.contains(
            need,
        ) by {
            assert(found.requirements.vulkan_features.to_set().contains(need));
            assert(features.to_set().contains(need));
        }
        assert forall|need: Seq<char>|
            found.requirements.subgroup_operations.contains(
                need,
            ) implies #[trigger] operations.contains(need) by {
            assert(found.requirements.subgroup_operations.to_set().contains(need));
            assert(operations.to_set().contains(need));
        }
    }
    assert forall|need: Seq<char>| #[trigger] features.contains(need) implies exists|i: int|
        0 <= i < paths.len() && sequence::find_first(
            inspections,
            inspects(#[trigger] paths[i]),
        )->Some_0.requirements.vulkan_features.contains(need) by {
        assert(features.to_set().contains(need));
        lemma_needs_come_from_a_shader(inspections, paths, need);
    }
    assert forall|need: Seq<char>| #[trigger] operations.contains(need) implies exists|i: int|
        0 <= i < paths.len() && sequence::find_first(
            inspections,
            inspects(#[trigger] paths[i]),
        )->Some_0.requirements.subgroup_operations.contains(need) by {
        assert(operations.to_set().contains(need));
        lemma_needs_come_from_a_shader(inspections, paths, need);
    }
}

/// An accepted manifest declares exactly what its mandatory shaders need, and each batch
/// implementation of its components' kernels declares exactly what its stages need.
pub proof fn accepted_manifests_declare_no_more_and_no_less(
    manifest: VulkanResidentModelPackageManifestView,
    inspections: Seq<VulkanShaderInspectionView>,
    e: int,
    k: int,
    b: int,
)
    requires
        shaders_error(manifest, inspections) is None,
    ensures
        declares_exactly(
            inspections,
            mandatory_in_order(manifest),
            manifest.required_vulkan_features,
            manifest.required_vulkan_subgroup_operations,
        ),
        0 <= e < manifest.component_executions.len() && 0 <= k
            < manifest.component_executions[e].kernels.len() && 0 <= b
            < manifest.component_executions[e].kernels[k].batch_implementations.len() ==> {
            let implementation =
                manifest.component_executions[e].kernels[k].batch_implementations[b];
            declares_exactly(
                inspections,
                Seq::new(
                    implementation.stages.len(),
                    |s: int| implementation.stages[s].shader_path,
                ),
                implementation.device_requirements.vulkan_features,
                implementation.device_requirements.subgroup_operations,
            )
        },
{
    let all = all_implementations(manifest);
    if sequence::find_first(all, misdeclares(inspections)) is Some {
        sequence::lemma_find_first_some(all, misdeclares(inspections));
    }
    lemma_declared_exactly(
        inspections,
        mandatory_in_order(manifest),
        manifest.required_vulkan_features,
        manifest.required_vulkan_subgroup_operations,
        "resident model package "@ + text::quoted(manifest.package_id)
            + " does not declare the Vulkan requirements of its mandatory SPIR-V artifacts"@,
    );
    if 0 <= e < manifest.component_executions.len() && 0 <= k
        < manifest.component_executions[e].kernels.len() && 0 <= b
        < manifest.component_executions[e].kernels[k].batch_implementations.len() {
        let execution = manifest.component_executions[e];
        let kernel = execution.kernels[k];
        let implementation = kernel.batch_implementations[b];
        let of_kernel = kernel_implementations(execution.component_id);
        let own = execution_implementations()(execution);
        let declared = of_kernel(kernel)[b];
        assert(all_executions(manifest)[e] == execution);
        sequence::lemma_joined_holds(execution.kernels, of_kernel, k, b);
        let j = choose|j: int| 0 <= j < own.len() && own[j] == declared;
        sequence::lemma_joined_holds(all_executions(manifest), execution_implementations(), e, j);
        let at = choose|at: int| 0 <= at < all.len() && all[at] == declared;
        sequence::lemma_find_none_all(all, misdeclares(inspections));
        assert(!misdeclares(inspections)(all[at]));
        let paths = Seq::new(
            implementation.stages.len(),
            |s: int| implementation.stages[s].shader_path,
        );
        assert(implementation.stages.map_values(shader_text()) =~= paths);
        lemma_declared_exactly(
            inspections,
            paths,
            implementation.device_requirements.vulkan_features,
            implementation.device_requirements.subgroup_operations,
            "compiled batch implementation "@ + execution.component_id + "."@ + kernel.node_id
                + " does not declare the Vulkan requirements of its SPIR-V artifacts"@,
        );
    }
}

/// The mandatory shaders of a manifest are those of its transducers, of its samplers and of its
/// components' kernels.
pub proof fn every_plain_shader_is_mandatory(
    manifest: VulkanResidentModelPackageManifestView,
    i: int,
    k: int,
)
    ensures
        ({
            let mandatory = mandatory_shaders(manifest);
            &&& mandatory.contains(manifest.input_transducer.shader_path)
            &&& mandatory.contains(manifest.input_transducer.batch_shader_path)
            &&& mandatory.contains(manifest.output_transducer.embedding_norm_shader_path)
            &&& mandatory.contains(manifest.output_transducer.embedding_norm_batch_shader_path)
            &&& mandatory.contains(manifest.output_transducer.projection_shader_path)
            &&& mandatory.contains(manifest.output_transducer.projection_batch_shader_path)
            &&& 0 <= i < manifest.sampler_kernels.len() ==> mandatory.contains(
                manifest.sampler_kernels[i].shader_path,
            )
            &&& 0 <= i < manifest.component_executions.len() && 0 <= k
                < manifest.component_executions[i].kernels.len() ==> mandatory.contains(
                manifest.component_executions[i].kernels[k].shader_path,
            )
            &&& forall|path: Seq<char>| #[trigger]
                mandatory_in_order(manifest).contains(path) <==> mandatory.contains(path)
        }),
{
    let mandatory = mandatory_shaders(manifest);
    let samplers = manifest.sampler_kernels.map_values(shader_text());
    let decoders = sequence::joined(manifest.speculative_decoders, decoder_transducer());
    let kernels = sequence::joined(all_executions(manifest), execution_kernels());
    assert(mandatory[0] == manifest.input_transducer.shader_path);
    assert(mandatory[1] == manifest.input_transducer.batch_shader_path);
    assert(mandatory[2] == manifest.output_transducer.embedding_norm_shader_path);
    assert(mandatory[3] == manifest.output_transducer.embedding_norm_batch_shader_path);
    assert(mandatory[4] == manifest.output_transducer.projection_shader_path);
    assert(mandatory[5] == manifest.output_transducer.projection_batch_shader_path);
    if 0 <= i < manifest.sampler_kernels.len() {
        assert(mandatory[6 + i] == samplers[i]);
    }
    if 0 <= i < manifest.component_executions.len() && 0 <= k
        < manifest.component_executions[i].kernels.len() {
        let execution = manifest.component_executions[i];
        assert(all_executions(manifest)[i] == execution);
        sequence::lemma_joined_holds(all_executions(manifest), execution_kernels(), i, k);
        let path = execution_kernels()(execution)[k];
        let at = choose|at: int| 0 <= at < kernels.len() && kernels[at] == path;
        assert(mandatory[6 + samplers.len() + decoders.len() + at] == path);
    }
    assert forall|path: Seq<char>| #[trigger]
        mandatory_in_order(manifest).contains(path) <==> mandatory.contains(path) by {
        vstd::seq_lib::seq_to_set_is_finite(mandatory);
        ordered::sorting_keeps_the_elements::<String>(mandatory.to_set());
        assert(mandatory_in_order(manifest).to_set().contains(path) <==> mandatory.to_set().contains(
            path,
        ));
    }
}

} // verus!
