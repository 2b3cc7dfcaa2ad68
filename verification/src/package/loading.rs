//! Loading a package: what its manifest has to say first, and what has to hold of its files.

use crate::package::evidence;
use crate::package::graph;
use crate::package::integrity;
use crate::package::json;
use crate::package::json::JsonTree;
use crate::package::json::JsonTreeView;
use crate::package::manifest;
use crate::package::manifest::VULKAN_RESIDENT_MODEL_PACKAGE_MANIFEST_SCHEMA;
use crate::package::manifest::VulkanResidentModelPackageManifest;
use crate::package::manifest::VulkanResidentModelPackageManifestView;
use crate::package::manifest::VulkanResidentPackageError;
use crate::package::manifest::VulkanResidentPackageErrorView;
use crate::package::mount;
use crate::package::mount::MountChecks;
use crate::package::shaders;
use crate::package::shaders::VulkanShaderInspection;
use crate::sequence;
use crate::text;
use crate::text::Message;
use vstd::prelude::*;

verus! {

/// The text of a field, or that it is missing.
pub open spec fn text_or_missing(raw: JsonTreeView, name: Seq<char>) -> Seq<char> {
    match json::text_field(raw, name) {
        Some(value) => value,
        None => "<missing>"@,
    }
}

/// The placement fields that a manifest contains.
pub open spec fn placement_fields(raw: JsonTreeView) -> Seq<char> {
    let device = json::field(raw, "device_id"@) is Some;
    let placement = json::field(raw, "placement"@) is Some;
    if device && placement {
        "["@ + text::quoted("device_id"@) + ", "@ + text::quoted("placement"@) + "]"@
    } else if device {
        "["@ + text::quoted("device_id"@) + "]"@
    } else {
        "["@ + text::quoted("placement"@) + "]"@
    }
}

/// What is wrong with the head of a manifest: another format, another compiler, or a placement, which
/// is the run's to choose.
pub open spec fn header_error(raw: JsonTreeView, fingerprint: Seq<char>) -> Option<Seq<char>> {
    if text_or_missing(raw, "schema"@) != VULKAN_RESIDENT_MODEL_PACKAGE_MANIFEST_SCHEMA@ {
        Some(
            "unsupported resident model package manifest schema "@ + text::quoted(
                text_or_missing(raw, "schema"@),
            ) + "; recompile the model"@,
        )
    } else if text_or_missing(raw, "compiler_fingerprint"@) != fingerprint {
        Some(
            "compiled package fingerprint "@ + text::quoted(
                text_or_missing(raw, "compiler_fingerprint"@),
            ) + " does not match runtime fingerprint "@ + text::quoted(fingerprint)
                + "; recompile the model"@,
        )
    } else if json::field(raw, "device_id"@) is Some || json::field(raw, "placement"@) is Some {
        Some(
            "compiled model package must not contain runtime placement fields "@ + placement_fields(
                raw,
            ),
        )
    } else {
        None
    }
}

/// The tree of a manifest, where its head is right.
pub open spec fn manifest_tree(bytes: Seq<u8>, fingerprint: Seq<char>) -> Result<
    JsonTreeView,
    VulkanResidentPackageErrorView,
> {
    match json::json_of(bytes) {
        Err(error) => Err(VulkanResidentPackageErrorView::InvalidData(error)),
        Ok(raw) => match header_error(raw, fingerprint) {
            Some(error) => Err(VulkanResidentPackageErrorView::InvalidData(error)),
            None => Ok(raw),
        },
    }
}

fn field_or_missing<'a>(raw: &'a JsonTree, name: &str) -> (r: &'a str)
    ensures
        r@ == text_or_missing(raw@, name@),
{
    match raw.text_field(name) {
        Some(value) => value,
        None => "<missing>",
    }
}

/// Refuses a manifest whose head is not right.
pub fn check_manifest_header(raw: &JsonTree, fingerprint: &str) -> (r: Result<(), String>)
    ensures
        sequence::outcome(r) == (match header_error(raw@, fingerprint@) {
            Some(error) => Err::<(), Seq<char>>(error),
            None => Ok(()),
        }),
{
    let schema: &str = field_or_missing(raw, "schema");
    if !text::same(schema, VULKAN_RESIDENT_MODEL_PACKAGE_MANIFEST_SCHEMA) {
        return Err(
            Message::new("unsupported resident model package manifest schema ").quoted(schema).text(
                "; recompile the model",
            ).done(),
        );
    }
    let compiler: &str = field_or_missing(raw, "compiler_fingerprint");
    if !text::same(compiler, fingerprint) {
        return Err(
            Message::new("compiled package fingerprint ").quoted(compiler).text(
                " does not match runtime fingerprint ",
            ).quoted(fingerprint).text("; recompile the model").done(),
        );
    }
    let device: bool = raw.get("device_id").is_some();
    let placement: bool = raw.get("placement").is_some();
    if device || placement {
        let fields: String = if device && placement {
            Message::new("[").quoted("device_id").text(", ").quoted("placement").text("]").done()
        } else if device {
            Message::new("[").quoted("device_id").text("]").done()
        } else {
            Message::new("[").quoted("placement").text("]").done()
        };
        return Err(
            Message::new("compiled model package must not contain runtime placement fields ").text(
                fields.as_str(),
            ).done(),
        );
    }
    Ok(())
}

/// The tree of a manifest, where its head is right.
pub fn read_manifest(bytes: &Vec<u8>, fingerprint: &str) -> (r: Result<
    JsonTree,
    VulkanResidentPackageError,
>)
    ensures
        sequence::outcome(r) == manifest_tree(bytes@, fingerprint@),
{
    let raw: JsonTree = match json::parse_json(bytes) {
        Ok(raw) => raw,
        Err(error) => {
            return Err(VulkanResidentPackageError::InvalidData(error));
        },
    };
    match check_manifest_header(&raw, fingerprint) {
        Ok(_) => Ok(raw),
        Err(error) => Err(VulkanResidentPackageError::InvalidData(error)),
    }
}

/// What came of reading and inspecting the files of a package, and of checking its graph.
pub struct PackageAnswers {
    /// Reading the evidence.
    pub evidence: Result<Vec<u8>, String>,
    /// Reading the files under contract, in the order of their paths.
    pub artifacts: Vec<Result<Vec<u8>, String>>,
    /// Inspecting the shaders.
    pub shaders: Vec<VulkanShaderInspection>,
    /// Checking the pedals of the graph and its index.
    pub graph: MountChecks,
    /// Checking the kernels against the graph.
    pub executions: Result<(), String>,
    /// Checking that the graph can generate.
    pub generation_contract: Result<(), String>,
}

/// What is wrong with a package.
pub open spec fn package_error(
    package_root: Seq<char>,
    manifest: VulkanResidentModelPackageManifestView,
    raw: JsonTreeView,
    schema: Seq<char>,
    answers: PackageAnswers,
) -> Option<VulkanResidentPackageErrorView> {
    match manifest::paths_error(manifest) {
        Some(error) => Some(error),
        None => match evidence::artifact_outcome(
            package_root,
            manifest,
            raw,
            sequence::outcome(answers.evidence),
        ) {
            Err(error) => Some(error),
            Ok(_) => match integrity::integrity_error(
                package_root,
                manifest,
                sequence::outcomes(answers.artifacts@),
            ) {
                Some(error) => Some(error),
                None => match shaders::shaders_error(manifest, answers.shaders.deep_view()) {
                    Some(error) => Some(VulkanResidentPackageErrorView::InvalidData(error)),
                    None => match mount::source_pedalboard(
                        manifest,
                        package_root,
                        schema,
                        answers.graph,
                    ) {
                        Err(error) => Some(VulkanResidentPackageErrorView::InvalidData(error)),
                        Ok(_) => match sequence::outcome(answers.executions) {
                            Err(error) => Some(
                                VulkanResidentPackageErrorView::InvalidData(error),
                            ),
                            Ok(_) => match sequence::outcome(answers.generation_contract) {
                                Err(error) => Some(
                                    VulkanResidentPackageErrorView::InvalidData(error),
                                ),
                                Ok(_) => None,
                            },
                        },
                    },
                },
            },
        },
    }
}

/// Refuses a package that is not what it says, from what came of reading its files.
pub fn validate_package(
    package_root: &str,
    manifest: &VulkanResidentModelPackageManifest,
    raw_manifest: &JsonTree,
    schema: &str,
    answers: &PackageAnswers,
) -> (r: Result<(), VulkanResidentPackageError>)
    requires
        manifest.artifact_integrity.files.sorted(),
        answers.artifacts@.len() >= manifest.artifact_integrity.files.entries@.len(),
        shaders::all_inspected(manifest@, answers.shaders.deep_view()),
        answers.graph.pedals@.len() >= manifest@.circuit_graph.pedals.len(),
    ensures
        sequence::outcome(r) == (match package_error(
            package_root@,
            manifest@,
            raw_manifest@,
            schema@,
            *answers,
        ) {
            Some(error) => Err::<(), VulkanResidentPackageErrorView>(error),
            None => Ok(()),
        }),
{
    match manifest::validate_resident_package_paths(manifest) {
        Ok(_) => {},
        Err(error) => {
            return Err(error);
        },
    }
    match evidence::validate_behavioral_validation_artifact(
        package_root,
        manifest,
        raw_manifest,
        &answers.evidence,
    ) {
        Ok(_) => {},
        Err(error) => {
            return Err(error);
        },
    }
    match integrity::validate_resident_package_artifact_integrity(
        package_root,
        manifest,
        &answers.artifacts,
    ) {
        Ok(_) => {},
        Err(error) => {
            return Err(error);
        },
    }
    match shaders::validate_resident_package_spirv_requirements(manifest, &answers.shaders) {
        Ok(_) => {},
        Err(error) => {
            return Err(error);
        },
    }
    match manifest.resolved_source_graph(package_root, schema, &answers.graph) {
        Ok(_) => {},
        Err(error) => {
            return Err(VulkanResidentPackageError::InvalidData(error.0));
        },
    }
    match &answers.executions {
        Ok(_) => {},
        Err(error) => {
            return Err(VulkanResidentPackageError::InvalidData(error.clone()));
        },
    }
    match &answers.generation_contract {
        Ok(_) => Ok(()),
        Err(error) => Err(VulkanResidentPackageError::InvalidData(error.clone())),
    }
}

/// A manifest is read only where it is in this format, from this compiler, and chooses no placement.
pub proof fn read_manifests_have_a_right_head(bytes: Seq<u8>, fingerprint: Seq<char>)
    requires
        manifest_tree(bytes, fingerprint) is Ok,
        fingerprint != "<missing>"@,
    ensures
        ({
            let raw = manifest_tree(bytes, fingerprint)->Ok_0;
            &&& json::text_field(raw, "compiler_fingerprint"@) == Some(fingerprint)
            &&& json::field(raw, "device_id"@) is None
            &&& json::field(raw, "placement"@) is None
            &&& text_or_missing(raw, "schema"@) == VULKAN_RESIDENT_MODEL_PACKAGE_MANIFEST_SCHEMA@
        }),
{
}

/// A package is accepted exactly where its paths stay inside, its evidence is accepted, its files meet
/// their contracts, its shaders are declared, its graph can be resolved, and its executions and its
/// generation contract hold.
pub proof fn accepted_packages_pass_every_check(
    package_root: Seq<char>,
    manifest: VulkanResidentModelPackageManifestView,
    raw: JsonTreeView,
    schema: Seq<char>,
    answers: PackageAnswers,
)
    ensures
        package_error(package_root, manifest, raw, schema, answers) is None <==> {
            &&& manifest::paths_error(manifest) is None
            &&& evidence::artifact_outcome(
                package_root,
                manifest,
                raw,
                sequence::outcome(answers.evidence),
            ) is Ok
            &&& integrity::integrity_error(
                package_root,
                manifest,
                sequence::outcomes(answers.artifacts@),
            ) is None
            &&& shaders::shaders_error(manifest, answers.shaders.deep_view()) is None
            &&& mount::source_pedalboard(manifest, package_root, schema, answers.graph) is Ok
            &&& answers.executions is Ok
            &&& answers.generation_contract is Ok
        },
{
}

} // verus!
