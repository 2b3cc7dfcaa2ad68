//! The contract on the files of a package.

use crate::digest;
use crate::ordered;
use crate::ordered::OrderedSet;
use crate::package::evidence;
use crate::package::manifest;
use crate::package::manifest::VulkanResidentModelPackageManifest;
use crate::package::manifest::VulkanResidentModelPackageManifestView;
use crate::package::manifest::VulkanResidentPackageArtifactContract;
use crate::package::manifest::VulkanResidentPackageArtifactContractView;
use crate::package::manifest::VulkanResidentPackageError;
use crate::package::manifest::VulkanResidentPackageErrorView;
use crate::package::manifest::VulkanResidentPackagePath;
use crate::package::manifest::VulkanResidentPackagePathView;
use crate::sequence;
use crate::text;
use crate::text::Message;
use vstd::prelude::*;

verus! {

/// A file of the tokenizer, by its path in the package.
pub open spec fn tokenizer_file(directory: Seq<char>) -> spec_fn(Seq<char>) -> VulkanResidentPackagePathView {
    |file: Seq<char>|
        manifest::labelled("tokenizer file"@, evidence::path_join(directory, file))
}

/// The files that every package has under contract.
pub open spec fn fixed_artifacts(manifest: VulkanResidentModelPackageManifestView) -> Seq<
    VulkanResidentPackagePathView,
> {
    seq![
        manifest::labelled("tensor index"@, manifest.tensor_index_path),
        manifest::labelled("behavioral validation"@, manifest.behavioral_validation_path),
        manifest::labelled("config"@, manifest.config_path),
        manifest::labelled("input transducer shader"@, manifest.input_transducer.shader_path),
        manifest::labelled(
            "batched input transducer shader"@,
            manifest.input_transducer.batch_shader_path,
        ),
        manifest::labelled(
            "output embedding norm shader"@,
            manifest.output_transducer.embedding_norm_shader_path,
        ),
        manifest::labelled(
            "output projection shader"@,
            manifest.output_transducer.projection_shader_path,
        ),
        manifest::labelled(
            "batched output projection shader"@,
            manifest.output_transducer.projection_batch_shader_path,
        ),
    ]
}

/// The files that a package has under contract.
pub open spec fn artifact_paths(manifest: VulkanResidentModelPackageManifestView) -> Seq<
    VulkanResidentPackagePathView,
> {
    fixed_artifacts(manifest) + manifest.tokenizer.files.map_values(
        tokenizer_file(manifest.tokenizer.path),
    ) + manifest.sampler_kernels.map_values(manifest::shader_path("sampler kernel shader"@))
        + sequence::joined(
        manifest.component_executions,
        manifest::execution_paths(
            "component kernel shader"@,
            "component batch implementation stage shader"@,
        ),
    ) + sequence::joined(manifest.speculative_decoders, manifest::decoder_paths())
}

/// A path without its label.
pub open spec fn path_text() -> spec_fn(VulkanResidentPackagePathView) -> Seq<char> {
    |path: VulkanResidentPackagePathView| path.path
}

/// The paths of the files that a package has under contract.
pub open spec fn required_files(manifest: VulkanResidentModelPackageManifestView) -> Set<Seq<char>> {
    artifact_paths(manifest).map_values(path_text()).to_set()
}

/// The files under contract, in the order of their paths.
pub open spec fn contracts(manifest: VulkanResidentModelPackageManifestView) -> Seq<
    (Seq<char>, VulkanResidentPackageArtifactContractView),
> {
    ordered::sorted_entries::<String, VulkanResidentPackageArtifactContractView>(
        manifest.artifact_integrity.files,
    )
}

/// What is said of a file under contract.
pub open spec fn of_artifact(path: Seq<char>, what: Seq<char>) -> Seq<char> {
    "resident model package artifact "@ + text::quoted(path) + what
}

/// Whether these bytes are what the contract says.
pub open spec fn meets_contract(
    contract: VulkanResidentPackageArtifactContractView,
    bytes: Seq<u8>,
) -> bool {
    bytes.len() == contract.byte_count && digest::hex(digest::sha256(bytes)) == contract.sha256
}

/// The error of a file under contract, from what came of reading it.
pub open spec fn artifact_error(
    package_root: Seq<char>,
    path: Seq<char>,
    contract: VulkanResidentPackageArtifactContractView,
    read: Result<Seq<u8>, Seq<char>>,
) -> Option<VulkanResidentPackageErrorView> {
    match manifest::path_error("integrity artifact"@, path) {
        Some(error) => Some(error),
        None => if !evidence::lower_hex_sha256(contract.sha256) {
            Some(
                VulkanResidentPackageErrorView::InvalidData(
                    of_artifact(path, " has an invalid SHA-256"@),
                ),
            )
        } else {
            match read {
                Err(error) => Some(
                    VulkanResidentPackageErrorView::Unreadable(
                        "failed to read resident model package integrity artifact "@
                            + evidence::path_join(package_root, path) + ": "@ + error,
                    ),
                ),
                Ok(bytes) => if !meets_contract(contract, bytes) {
                    Some(
                        VulkanResidentPackageErrorView::InvalidData(
                            of_artifact(path, " does not match its integrity contract"@),
                        ),
                    )
                } else {
                    None
                },
            }
        },
    }
}

/// The first error among the first `n` files under contract.
pub open spec fn artifacts_error(
    package_root: Seq<char>,
    files: Seq<(Seq<char>, VulkanResidentPackageArtifactContractView)>,
    reads: Seq<Result<Seq<u8>, Seq<char>>>,
    n: nat,
) -> Option<VulkanResidentPackageErrorView>
    decreases n,
{
    if n == 0 {
        None
    } else {
        match artifacts_error(package_root, files, reads, (n - 1) as nat) {
            Some(error) => Some(error),
            None => artifact_error(package_root, files[n - 1].0, files[n - 1].1, reads[n - 1]),
        }
    }
}

/// The error of the contract itself.
pub open spec fn contract_error(manifest: VulkanResidentModelPackageManifestView) -> Option<
    VulkanResidentPackageErrorView,
> {
    let integrity = manifest.artifact_integrity;
    if integrity.schema != "nerve.package_artifact_integrity.v1"@ || integrity.algorithm
        != "sha256"@ || contracts(manifest).len() == 0 {
        Some(
            VulkanResidentPackageErrorView::InvalidData(
                "resident model package artifact integrity contract is invalid"@,
            ),
        )
    } else if integrity.files.dom() != required_files(manifest) {
        Some(
            VulkanResidentPackageErrorView::InvalidData(
                "resident model package artifact integrity contract does not cover its declared non-weight artifacts"@,
            ),
        )
    } else {
        None
    }
}

/// The error of the files of a package, from what came of reading those under contract, in the order
/// of their paths.
pub open spec fn integrity_error(
    package_root: Seq<char>,
    manifest: VulkanResidentModelPackageManifestView,
    reads: Seq<Result<Seq<u8>, Seq<char>>>,
) -> Option<VulkanResidentPackageErrorView> {
    match contract_error(manifest) {
        Some(error) => Some(error),
        None => artifacts_error(
            package_root,
            contracts(manifest),
            reads,
            contracts(manifest).len(),
        ),
    }
}

proof fn lemma_artifacts_error_kept(
    package_root: Seq<char>,
    files: Seq<(Seq<char>, VulkanResidentPackageArtifactContractView)>,
    reads: Seq<Result<Seq<u8>, Seq<char>>>,
    i: nat,
    n: nat,
)
    requires
        i <= n,
        artifacts_error(package_root, files, reads, i) is Some,
    ensures
        artifacts_error(package_root, files, reads, n) == artifacts_error(
            package_root,
            files,
            reads,
            i,
        ),
    decreases n - i,
{
    if i < n {
        lemma_artifacts_error_kept(package_root, files, reads, i + 1, n);
    }
}

#[verifier::loop_isolation(false)]
fn push_tokenizer_files(
    paths: &mut Vec<VulkanResidentPackagePath>,
    directory: &str,
    files: &Vec<String>,
)
    ensures
        final(paths).deep_view() == old(paths).deep_view() + files.deep_view().map_values(
            tokenizer_file(directory@),
        ),
{
    let ghost start = paths.deep_view();
    let ghost more = files.deep_view().map_values(tokenizer_file(directory@));
    let mut i: usize = 0;
    assert(start + more.take(0) =~= start);
    while i < files.len()
        invariant
            i <= files.len(),
            paths.deep_view() == start + more.take(i as int),
        decreases files.len() - i,
    {
        let path: String = evidence::join_path(directory, files[i].as_str());
        assert(more[i as int] == manifest::labelled("tokenizer file"@, path@));
        manifest::push_path(paths, "tokenizer file", &path);
        i += 1;
        assert(paths.deep_view() =~= start + more.take(i as int));
    }
    assert(more.take(more.len() as int) =~= more);
}

impl VulkanResidentModelPackageManifest {
    /// The paths of the files that the package has under contract.
    #[verifier::loop_isolation(false)]
    pub fn required_artifacts(&self) -> (r: OrderedSet<String>)
        ensures
            r.sorted(),
            r@ == required_files(self@),
    {
        let mut paths: Vec<VulkanResidentPackagePath> = Vec::new();
        assert(paths.deep_view() =~= Seq::empty());
        manifest::push_path(&mut paths, "tensor index", &self.tensor_index_path);
        manifest::push_path(&mut paths, "behavioral validation", &self.behavioral_validation_path);
        manifest::push_path(&mut paths, "config", &self.config_path);
        manifest::push_path(
            &mut paths,
            "input transducer shader",
            &self.input_transducer.shader_path,
        );
        manifest::push_path(
            &mut paths,
            "batched input transducer shader",
            &self.input_transducer.batch_shader_path,
        );
        manifest::push_path(
            &mut paths,
            "output embedding norm shader",
            &self.output_transducer.embedding_norm_shader_path,
        );
        manifest::push_path(
            &mut paths,
            "output projection shader",
            &self.output_transducer.projection_shader_path,
        );
        manifest::push_path(
            &mut paths,
            "batched output projection shader",
            &self.output_transducer.projection_batch_shader_path,
        );
        assert(paths.deep_view() =~= fixed_artifacts(self@));
        push_tokenizer_files(&mut paths, self.tokenizer.path.as_str(), &self.tokenizer.files);
        manifest::push_shaders(&mut paths, "sampler kernel shader", &self.sampler_kernels);
        manifest::push_executions(
            &mut paths,
            "component kernel shader",
            "component batch implementation stage shader",
            &self.component_executions,
        );
        manifest::push_decoders(&mut paths, &self.speculative_decoders);
        let ghost all_texts = paths.deep_view();
        let ghost step_texts = path_text();
        let mut texts: Vec<String> = Vec::new();
        let mut i: usize = 0;
        while i < paths.len()
            invariant
                i <= paths.len(),
                texts@.len() == i,
                forall|j: int| 0 <= j < i ==> (#[trigger] texts.deep_view()[j]) == step_texts(all_texts[j]),
            decreases paths.len() - i,
        {
            let item = &paths[i];
            assert(all_texts[i as int] == item.deep_view());
            let added = item.path.clone();
            let ghost before = texts.deep_view();
            let ghost value = added.deep_view();
            texts.push(added);
            assert(texts.deep_view() =~= before.push(value));
            i += 1;
        }
        assert(texts.deep_view() =~= all_texts.map_values(step_texts));
        ordered::distinct_texts(&texts)
    }
}

/// Refuses a file that is not what its contract says, from what came of reading it.
pub fn check_artifact(
    package_root: &str,
    path: &str,
    contract: &VulkanResidentPackageArtifactContract,
    read: &Result<Vec<u8>, String>,
) -> (r: Result<(), VulkanResidentPackageError>)
    ensures
        sequence::outcome(r) == (match artifact_error(
            package_root@,
            path@,
            contract@,
            sequence::outcome(*read),
        ) {
            Some(error) => Err::<(), VulkanResidentPackageErrorView>(error),
            None => Ok(()),
        }),
{
    match manifest::validate_resident_package_relative_path("integrity artifact", path) {
        Err(error) => {
            return Err(error);
        },
        Ok(_) => {},
    }
    if !evidence::is_lower_hex_sha256(contract.sha256.as_str()) {
        return Err(
            VulkanResidentPackageError::InvalidData(
                Message::new("resident model package artifact ").quoted(path).text(
                    " has an invalid SHA-256",
                ).done(),
            ),
        );
    }
    let bytes: &Vec<u8> = match read {
        Ok(bytes) => bytes,
        Err(error) => {
            return Err(
                VulkanResidentPackageError::Unreadable(
                    Message::new("failed to read resident model package integrity artifact ").text(
                        evidence::join_path(package_root, path).as_str(),
                    ).text(": ").text(error.as_str()).done(),
                ),
            );
        },
    };
    assert(bytes.deep_view() =~= bytes@);
    let actual: String = digest::sha256_hex(bytes.as_slice());
    if bytes.len() != contract.byte_count || !text::same(
        actual.as_str(),
        contract.sha256.as_str(),
    ) {
        return Err(
            VulkanResidentPackageError::InvalidData(
                Message::new("resident model package artifact ").quoted(path).text(
                    " does not match its integrity contract",
                ).done(),
            ),
        );
    }
    Ok(())
}

/// Refuses a contract that is not on the files of the package.
pub fn check_artifact_contract(manifest: &VulkanResidentModelPackageManifest) -> (r: Result<
    (),
    VulkanResidentPackageError,
>)
    requires
        manifest.artifact_integrity.files.sorted(),
    ensures
        sequence::outcome(r) == (match contract_error(manifest@) {
            Some(error) => Err::<(), VulkanResidentPackageErrorView>(error),
            None => Ok(()),
        }),
{
    let integrity = &manifest.artifact_integrity;
    proof {
        ordered::lemma_sorted_entries::<String, VulkanResidentPackageArtifactContractView>(
            integrity.files.entries.deep_view(),
        );
    }
    if !text::same(integrity.schema.as_str(), "nerve.package_artifact_integrity.v1")
        || !text::same(integrity.algorithm.as_str(), "sha256") || integrity.files.entries.len()
        == 0 {
        return Err(
            VulkanResidentPackageError::InvalidData(
                "resident model package artifact integrity contract is invalid".to_owned(),
            ),
        );
    }
    let required: OrderedSet<String> = manifest.required_artifacts();
    if !integrity.files.has_keys(&required) {
        return Err(
            VulkanResidentPackageError::InvalidData(
                "resident model package artifact integrity contract does not cover its declared non-weight artifacts".to_owned(),
            ),
        );
    }
    Ok(())
}

/// Refuses a package whose files are not those under contract, from what came of reading them, in the
/// order of their paths.
#[verifier::loop_isolation(false)]
pub fn validate_resident_package_artifact_integrity(
    package_root: &str,
    manifest: &VulkanResidentModelPackageManifest,
    reads: &Vec<Result<Vec<u8>, String>>,
) -> (r: Result<(), VulkanResidentPackageError>)
    requires
        manifest.artifact_integrity.files.sorted(),
        reads@.len() >= manifest.artifact_integrity.files.entries@.len(),
    ensures
        sequence::outcome(r) == (match integrity_error(
            package_root@,
            manifest@,
            sequence::outcomes(reads@),
        ) {
            Some(error) => Err::<(), VulkanResidentPackageErrorView>(error),
            None => Ok(()),
        }),
{
    match check_artifact_contract(manifest) {
        Err(error) => {
            return Err(error);
        },
        Ok(_) => {},
    }
    let files = &manifest.artifact_integrity.files;
    let ghost all = files.entries.deep_view();
    let ghost answers = sequence::outcomes(reads@);
    proof {
        ordered::lemma_sorted_entries::<String, VulkanResidentPackageArtifactContractView>(all);
        assert(all == contracts(manifest@));
    }
    let mut i: usize = 0;
    while i < files.entries.len()
        invariant
            i <= files.entries.len(),
            artifacts_error(package_root@, all, answers, i as nat) is None,
        decreases files.entries.len() - i,
    {
        proof {
            assert(all[i as int] == (files.entries@[i as int].0@, files.entries@[i as int].1@));
            assert(answers[i as int] == sequence::outcome(reads@[i as int]));
            if artifacts_error(package_root@, all, answers, (i + 1) as nat) is Some {
                lemma_artifacts_error_kept(package_root@, all, answers, (i + 1) as nat, all.len());
            }
        }
        match check_artifact(
            package_root,
            files.entries[i].0.as_str(),
            &files.entries[i].1,
            &reads[i],
        ) {
            Err(error) => {
                return Err(error);
            },
            Ok(_) => {},
        }
        i += 1;
    }
    Ok(())
}

/// A package is accepted only where every file under contract was read, and is what its contract
/// says.
pub proof fn accepted_files_meet_their_contracts(
    package_root: Seq<char>,
    manifest: VulkanResidentModelPackageManifestView,
    reads: Seq<Result<Seq<u8>, Seq<char>>>,
    i: int,
)
    requires
        integrity_error(package_root, manifest, reads) is None,
        0 <= i < contracts(manifest).len(),
    ensures
        reads[i] matches Ok(bytes) && meets_contract(contracts(manifest)[i].1, bytes),
        manifest.artifact_integrity.files.dom() == required_files(manifest),
{
    let all = contracts(manifest);
    if artifacts_error(package_root, all, reads, (i + 1) as nat) is Some {
        lemma_artifacts_error_kept(package_root, all, reads, (i + 1) as nat, all.len());
    }
    assert(artifact_error(package_root, all[i].0, all[i].1, reads[i]) is None) by {
        assert(artifacts_error(package_root, all, reads, (i + 1) as nat) is None);
    }
}

/// An accepted file has exactly the bytes of its contract: their number, and their digest as it is
/// written in the contract.
pub proof fn accepted_files_have_the_contracted_bytes(
    package_root: Seq<char>,
    manifest: VulkanResidentModelPackageManifestView,
    reads: Seq<Result<Seq<u8>, Seq<char>>>,
    i: int,
)
    requires
        integrity_error(package_root, manifest, reads) is None,
        0 <= i < contracts(manifest).len(),
    ensures
        ({
            let contract = contracts(manifest)[i].1;
            &&& manifest.artifact_integrity.schema == "nerve.package_artifact_integrity.v1"@
            &&& manifest.artifact_integrity.algorithm == "sha256"@
            &&& reads[i] is Ok
            &&& reads[i]->Ok_0.len() == contract.byte_count
            &&& digest::hex(digest::sha256(reads[i]->Ok_0)) == contract.sha256
        }),
{
    accepted_files_meet_their_contracts(package_root, manifest, reads, i);
}

/// Every artifact that an accepted manifest declares, its weights apart, has a contract: its index,
/// its evidence, its configuration, its transducers' and samplers' shaders, its tokenizer's files and
/// its components' kernels.
pub proof fn every_artifact_has_a_contract(
    package_root: Seq<char>,
    manifest: VulkanResidentModelPackageManifestView,
    reads: Seq<Result<Seq<u8>, Seq<char>>>,
    i: int,
    k: int,
)
    requires
        integrity_error(package_root, manifest, reads) is None,
    ensures
        ({
            let files = manifest.artifact_integrity.files;
            &&& files.contains_key(manifest.tensor_index_path)
            &&& files.contains_key(manifest.behavioral_validation_path)
            &&& files.contains_key(manifest.config_path)
            &&& files.contains_key(manifest.input_transducer.shader_path)
            &&& files.contains_key(manifest.input_transducer.batch_shader_path)
            &&& files.contains_key(manifest.output_transducer.embedding_norm_shader_path)
            &&& files.contains_key(manifest.output_transducer.projection_shader_path)
            &&& files.contains_key(manifest.output_transducer.projection_batch_shader_path)
            &&& 0 <= i < manifest.tokenizer.files.len() ==> files.contains_key(
                evidence::path_join(manifest.tokenizer.path, manifest.tokenizer.files[i]),
            )
            &&& 0 <= i < manifest.sampler_kernels.len() ==> files.contains_key(
                manifest.sampler_kernels[i].shader_path,
            )
            &&& 0 <= i < manifest.component_executions.len() && 0 <= k
                < manifest.component_executions[i].kernels.len() ==> files.contains_key(
                manifest.component_executions[i].kernels[k].shader_path,
            )
        }),
{
    let files = manifest.artifact_integrity.files;
    let all = artifact_paths(manifest);
    let texts = all.map_values(path_text());
    let fixed = fixed_artifacts(manifest);
    let tokens = manifest.tokenizer.files.map_values(tokenizer_file(manifest.tokenizer.path));
    let samplers = manifest.sampler_kernels.map_values(
        manifest::shader_path("sampler kernel shader"@),
    );
    let of_execution = manifest::execution_paths(
        "component kernel shader"@,
        "component batch implementation stage shader"@,
    );
    let of_kernel = manifest::kernel_paths(
        "component kernel shader"@,
        "component batch implementation stage shader"@,
    );
    let executions = sequence::joined(manifest.component_executions, of_execution);
    assert(files.dom() == texts.to_set());
    assert forall|j: int| 0 <= j < all.len() implies files.contains_key(
        (#[trigger] all[j]).path,
    ) by {
        assert(texts[j] == all[j].path);
        assert(texts.to_set().contains(texts[j]));
        assert(files.dom().contains(texts[j]));
    }
    assert(all[0] == fixed[0] && all[1] == fixed[1] && all[2] == fixed[2] && all[3] == fixed[3]);
    assert(all[4] == fixed[4] && all[5] == fixed[5] && all[6] == fixed[6] && all[7] == fixed[7]);
    if 0 <= i < manifest.tokenizer.files.len() {
        assert(all[fixed.len() + i] == tokens[i]);
    }
    if 0 <= i < manifest.sampler_kernels.len() {
        assert(all[fixed.len() + tokens.len() + i] == samplers[i]);
    }
    if 0 <= i < manifest.component_executions.len() && 0 <= k
        < manifest.component_executions[i].kernels.len() {
        let execution = manifest.component_executions[i];
        let path = of_kernel(execution.kernels[k])[0];
        let own = of_execution(execution);
        sequence::lemma_joined_holds(execution.kernels, of_kernel, k, 0);
        let j = choose|j: int| 0 <= j < own.len() && own[j] == path;
        sequence::lemma_joined_holds(manifest.component_executions, of_execution, i, j);
        let at = choose|at: int| 0 <= at < executions.len() && executions[at] == path;
        assert(all[fixed.len() + tokens.len() + samplers.len() + at] == path);
    }
}

} // verus!
