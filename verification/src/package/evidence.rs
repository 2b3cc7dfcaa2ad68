//! The evidence that a package behaves as the model that it was compiled from.

use crate::ordered::OrderedMap;
use crate::ordered::OrderedSet;
use crate::package::json;
use crate::package::json::CONTRACT_DIGEST_ALGORITHM;
use crate::package::json::JsonTree;
use crate::package::json::JsonTreeView;
use crate::package::manifest;
use crate::package::manifest::VulkanResidentModelPackageManifest;
use crate::package::manifest::VulkanResidentModelPackageManifestView;
use crate::package::manifest::VulkanResidentPackageError;
use crate::package::manifest::VulkanResidentPackageErrorView;
use crate::sequence;
use crate::text;
use crate::text::Message;
use vstd::prelude::*;

verus! {

/// A digit, or one of the letters from a to f.
pub open spec fn lower_hex(c: char) -> bool {
    ('0' <= c && c <= '9') || ('a' <= c && c <= 'f')
}

/// Whether a text is a SHA-256 in lower case.
pub open spec fn lower_hex_sha256(value: Seq<char>) -> bool {
    value.len() == 64 && forall|i: int| 0 <= i < value.len() ==> lower_hex(#[trigger] value[i])
}

/// Whether a text is a SHA-256 in lower case.
pub fn is_lower_hex_sha256(value: &str) -> (r: bool)
    ensures
        r == lower_hex_sha256(value@),
{
    let all: Vec<char> = text::characters(value);
    if all.len() != 64 {
        return false;
    }
    let mut i: usize = 0;
    while i < all.len()
        invariant
            i <= all.len(),
            all@ == value@,
            forall|j: int| 0 <= j < i ==> lower_hex(#[trigger] value@[j]),
        decreases all.len() - i,
    {
        let c: char = all[i];
        if !(('0' <= c && c <= '9') || ('a' <= c && c <= 'f')) {
            assert(!lower_hex(value@[i as int]));
            return false;
        }
        i += 1;
    }
    true
}

// ---------------------------------------------------------------------------
// What the evidence has to say
// ---------------------------------------------------------------------------

/// What is said of the evidence in this file.
pub open spec fn of_evidence(path: Seq<char>, what: Seq<char>) -> Seq<char> {
    "behavioral validation evidence "@ + path + what
}

/// What is said of the evidence in this file, on a component.
pub open spec fn of_component(path: Seq<char>, what: Seq<char>, component_id: Seq<char>) -> Seq<char> {
    of_evidence(path, what) + text::quoted(component_id)
}

/// Whether the evidence names the model that it was measured against.
pub open spec fn complete_oracle(oracle: JsonTreeView) -> bool {
    &&& json::text_field(oracle, "model_contract_digest"@) matches Some(digest)
    &&& lower_hex_sha256(digest)
    &&& json::number_field(oracle, "tensor_count"@) is Some
    &&& json::number_field(oracle, "parameter_count"@) is Some
    &&& json::number_field(oracle, "byte_count"@) is Some
}

/// How the candidate relates to the model, or what is wrong with the head of the evidence.
pub open spec fn candidate_kind(path: Seq<char>, evidence: JsonTreeView) -> Result<
    Seq<char>,
    Seq<char>,
> {
    if json::text_field(evidence, "schema"@) != Some("nerve.behavioral_validation.v1"@)
        || json::text_field(evidence, "status"@) != Some("passed"@) {
        Err(of_evidence(path, " has not passed"@))
    } else {
        match json::text_field(evidence, "candidate_kind"@) {
            None => Err(of_evidence(path, " has no candidate kind"@)),
            Some(kind) => if kind != "exact_reference"@ && kind != "approximate"@ {
                Err(
                    of_evidence(path, " has unsupported candidate kind "@) + text::quoted(kind),
                )
            } else if json::text_field(evidence, "candidate_contract_digest_algorithm"@) != Some(
                CONTRACT_DIGEST_ALGORITHM@,
            ) {
                Err(
                    of_evidence(
                        path,
                        " uses an unsupported candidate contract digest algorithm"@,
                    ),
                )
            } else {
                match json::field(evidence, "source_oracle"@) {
                    Some(JsonTreeView::Object(fields)) => if complete_oracle(
                        JsonTreeView::Object(fields),
                    ) {
                        Ok(kind)
                    } else {
                        Err(
                            of_evidence(path, " has an incomplete source oracle contract"@),
                        )
                    },
                    _ => Err(of_evidence(path, " has no source oracle contract"@)),
                }
            },
        }
    }
}

/// Whether a field is no finite number.
pub open spec fn not_measured() -> spec_fn((Seq<char>, JsonTreeView)) -> bool {
    |field: (Seq<char>, JsonTreeView)| !json::is_finite_number(field.1)
}

/// Whether a mode was measured and passed.
pub open spec fn measured(mode: JsonTreeView) -> bool {
    &&& json::text_field(mode, "status"@) == Some("passed"@)
    &&& json::number_field(mode, "sample_count"@) matches Some(count)
    &&& count != 0
    &&& json::object(json::field(mode, "metrics"@)) matches Some(metrics)
    &&& metrics.len() > 0
    &&& !sequence::any(metrics, not_measured())
}

/// What is wrong with the validation of a mode.
pub open spec fn mode_error(
    path: Seq<char>,
    evidence: JsonTreeView,
    kind: Seq<char>,
    mode: Seq<char>,
) -> Option<Seq<char>> {
    match json::field(evidence, mode) {
        Some(JsonTreeView::Object(fields)) => {
            let found = JsonTreeView::Object(fields);
            if kind == "exact_reference"@ {
                if json::text_field(found, "status"@) != Some("not_required"@) {
                    Some(
                        "exact candidate evidence "@ + path + " must mark "@ + mode
                            + " validation not_required"@,
                    )
                } else {
                    None
                }
            } else if !measured(found) {
                Some(
                    "approximate candidate evidence "@ + path + " lacks measured passing "@ + mode
                        + " validation"@,
                )
            } else {
                None
            }
        },
        _ => Some(of_evidence(path, " lacks "@) + mode + " validation"@),
    }
}

/// Adds the components of a draft.
pub open spec fn with_decoder() -> spec_fn(Seq<JsonTreeView>, JsonTreeView) -> Result<
    Seq<JsonTreeView>,
    Seq<char>,
> {
    |components: Seq<JsonTreeView>, decoder: JsonTreeView|
        match json::list(json::inner_field(decoder, "circuit_graph"@, "components"@)) {
            None => Err(
                "resident model package speculative decoder has no raw circuit graph components"@,
            ),
            Some(more) => Ok(components + more),
        }
}

/// The components that a manifest packages: those of its model, then those of its drafts.
pub open spec fn raw_components(raw: JsonTreeView) -> Result<Seq<JsonTreeView>, Seq<char>> {
    match json::list(json::inner_field(raw, "circuit_graph"@, "components"@)) {
        None => Err("resident model package has no raw circuit graph components"@),
        Some(components) => match json::list(json::field(raw, "speculative_decoders"@)) {
            None => Ok(components),
            Some(decoders) => sequence::try_fold(decoders, components, with_decoder()),
        },
    }
}

/// Adds a component to those that have to be proven: how many nodes it has, and its circuit.
pub open spec fn with_component() -> spec_fn(
    Map<Seq<char>, (usize, JsonTreeView)>,
    JsonTreeView,
) -> Result<Map<Seq<char>, (usize, JsonTreeView)>, Seq<char>> {
    |expected: Map<Seq<char>, (usize, JsonTreeView)>, component: JsonTreeView|
        match json::text_field(component, "component_id"@) {
            None => Err(
                "resident model package contains a raw circuit without a component id"@,
            ),
            Some(id) => match json::field(component, "circuit"@) {
                None => Err(
                    "resident model package component "@ + text::quoted(id) + " has no raw circuit"@,
                ),
                Some(circuit) => match json::list(json::field(circuit, "nodes"@)) {
                    None => Err(
                        "resident model package component "@ + text::quoted(id)
                            + " has no raw circuit nodes"@,
                    ),
                    Some(nodes) => if expected.contains_key(id) {
                        Err(
                            "resident model package repeats raw component "@ + text::quoted(id),
                        )
                    } else {
                        Ok(expected.insert(id, (nodes.len() as usize, circuit)))
                    },
                },
            },
        }
}

/// The components that have to be proven.
pub open spec fn expected_components(raw: JsonTreeView) -> Result<
    Map<Seq<char>, (usize, JsonTreeView)>,
    Seq<char>,
> {
    match raw_components(raw) {
        Err(error) => Err(error),
        Ok(components) => sequence::try_fold(components, Map::empty(), with_component()),
    }
}

/// Whether a proof is about the circuit that is packaged.
pub open spec fn proof_holds(
    kind: Seq<char>,
    proof_tree: JsonTreeView,
    node_count: usize,
    digest: Seq<char>,
) -> bool {
    let proof_kind = json::text_field(proof_tree, "candidate_kind"@);
    &&& json::text_field(proof_tree, "status"@) == Some("passed"@)
    &&& proof_kind == Some("exact_reference"@) || proof_kind == Some("approximate"@)
    &&& kind == "exact_reference"@ ==> proof_kind == Some("exact_reference"@)
    &&& json::number_field(proof_tree, "candidate_node_count"@) matches Some(count)
    &&& count as int == node_count as int
    &&& json::text_field(proof_tree, "candidate_contract_digest"@) == Some(digest)
}

/// The component that a proof proves, and whether approximately.
pub open spec fn proven(
    path: Seq<char>,
    kind: Seq<char>,
    expected: Map<Seq<char>, (usize, JsonTreeView)>,
    done: Set<Seq<char>>,
    proof_tree: JsonTreeView,
) -> Result<(Seq<char>, bool), Seq<char>> {
    match json::text_field(proof_tree, "component_id"@) {
        None => Err(of_evidence(path, " contains a proof without a component id"@)),
        Some(id) => if done.contains(id) {
            Err(of_component(path, " repeats component "@, id))
        } else if !expected.contains_key(id) {
            Err(of_component(path, " proves unknown component "@, id))
        } else {
            match json::tree_digest(expected[id].1) {
                Err(error) => Err(error),
                Ok(digest) => if !proof_holds(kind, proof_tree, expected[id].0, digest) {
                    Err(
                        of_component(
                            path,
                            " has an incomplete or stale proof for component "@,
                            id,
                        ),
                    )
                } else if json::text_field(proof_tree, "candidate_kind"@) == Some("approximate"@) {
                    Ok((id, true))
                } else if json::number_field(proof_tree, "source_node_count"@)
                    != json::number_field(proof_tree, "covered_source_node_count"@) {
                    Err(of_component(path, " does not completely cover component "@, id))
                } else {
                    Ok((id, false))
                },
            }
        },
    }
}

/// Takes a proof: which components are proven, and how many of them approximately.
pub open spec fn with_proof(
    path: Seq<char>,
    kind: Seq<char>,
    expected: Map<Seq<char>, (usize, JsonTreeView)>,
) -> spec_fn((Set<Seq<char>>, nat), JsonTreeView) -> Result<(Set<Seq<char>>, nat), Seq<char>> {
    |done: (Set<Seq<char>>, nat), proof_tree: JsonTreeView|
        match proven(path, kind, expected, done.0, proof_tree) {
            Err(error) => Err(error),
            Ok((id, approximate)) => Ok(
                (
                    done.0.insert(id),
                    if approximate {
                        done.1 + 1
                    } else {
                        done.1
                    },
                ),
            ),
        }
}

/// What came of taking the proofs of the evidence.
pub open spec fn proofs_taken(
    path: Seq<char>,
    evidence: JsonTreeView,
    kind: Seq<char>,
    expected: Map<Seq<char>, (usize, JsonTreeView)>,
) -> Result<(Set<Seq<char>>, nat), Seq<char>> {
    match json::list(json::field(evidence, "circuits"@)) {
        None => Err(of_evidence(path, " has no circuit proofs"@)),
        Some(proofs) => sequence::try_fold(
            proofs,
            (Set::<Seq<char>>::empty(), 0nat),
            with_proof(path, kind, expected),
        ),
    }
}

/// What is wrong with the proofs of the evidence.
pub open spec fn proofs_outcome(
    path: Seq<char>,
    evidence: JsonTreeView,
    kind: Seq<char>,
    expected: Map<Seq<char>, (usize, JsonTreeView)>,
) -> Result<(), Seq<char>> {
    match proofs_taken(path, evidence, kind, expected) {
        Err(error) => Err(error),
        Ok((done, approximate)) => if kind == "approximate"@ && approximate == 0 {
            Err(
                "approximate behavioral validation evidence "@ + path
                    + " contains no approximate component proof"@,
            )
        } else if expected.dom() != done {
            Err(of_evidence(path, " does not prove every packaged component"@))
        } else {
            Ok(())
        },
    }
}

/// What is wrong with the evidence of a package, read beside its manifest.
pub open spec fn evidence_outcome(path: Seq<char>, evidence: JsonTreeView, raw: JsonTreeView) -> Result<
    (),
    Seq<char>,
> {
    match candidate_kind(path, evidence) {
        Err(error) => Err(error),
        Ok(kind) => match mode_error(path, evidence, kind, "teacher_forced"@) {
            Some(error) => Err(error),
            None => match mode_error(path, evidence, kind, "free_running"@) {
                Some(error) => Err(error),
                None => match expected_components(raw) {
                    Err(error) => Err(error),
                    Ok(expected) => proofs_outcome(path, evidence, kind, expected),
                },
            },
        },
    }
}

/// Where a path leads, taken in a directory.
pub open spec fn path_join(base: Seq<char>, path: Seq<char>) -> Seq<char> {
    if base.len() == 0 || (path.len() > 0 && path[0] == '/') {
        path
    } else if base.last() == '/' {
        base + path
    } else {
        base + "/"@ + path
    }
}

/// What came of validating the evidence that a manifest names.
pub open spec fn artifact_outcome(
    package_root: Seq<char>,
    manifest: VulkanResidentModelPackageManifestView,
    raw: JsonTreeView,
    read: Result<Seq<u8>, Seq<char>>,
) -> Result<(), VulkanResidentPackageErrorView> {
    let relative = manifest.behavioral_validation_path;
    let path = path_join(package_root, relative);
    if relative.len() == 0 {
        Err(
            VulkanResidentPackageErrorView::InvalidData(
                "resident model package does not declare behavioral validation evidence"@,
            ),
        )
    } else if manifest::leads_out(relative) {
        Err(
            VulkanResidentPackageErrorView::InvalidData(
                "behavioral validation path "@ + text::quoted(relative)
                    + " must stay inside the package"@,
            ),
        )
    } else {
        match read {
            Err(error) => Err(VulkanResidentPackageErrorView::Unreadable(error)),
            Ok(bytes) => match json::json_of(bytes) {
                Err(error) => Err(
                    VulkanResidentPackageErrorView::InvalidData(
                        "invalid behavioral validation evidence "@ + path + ": "@ + error,
                    ),
                ),
                Ok(evidence) => match evidence_outcome(path, evidence, raw) {
                    Err(error) => Err(VulkanResidentPackageErrorView::InvalidData(error)),
                    Ok(_) => Ok(()),
                },
            },
        }
    }
}

// ---------------------------------------------------------------------------
// Checking it
// ---------------------------------------------------------------------------

fn is_text(value: Option<&str>, wanted: &str) -> (r: bool)
    ensures
        r == (value.deep_view() == Some(wanted@)),
{
    match value {
        Some(value) => text::same(value, wanted),
        None => false,
    }
}

fn evidence_text(path: &str, what: &str) -> (r: String)
    ensures
        r@ == of_evidence(path@, what@),
{
    Message::new("behavioral validation evidence ").text(path).text(what).done()
}

fn component_text(path: &str, what: &str, id: &str) -> (r: String)
    ensures
        r@ == of_component(path@, what@, id@),
{
    Message::new("behavioral validation evidence ").text(path).text(what).quoted(id).done()
}

fn oracle_is_complete(oracle: &JsonTree) -> (r: bool)
    ensures
        r == complete_oracle(oracle@),
{
    match oracle.text_field("model_contract_digest") {
        None => false,
        Some(digest) => is_lower_hex_sha256(digest) && oracle.number_field("tensor_count").is_some()
            && oracle.number_field("parameter_count").is_some() && oracle.number_field(
            "byte_count",
        ).is_some(),
    }
}

/// How the candidate relates to the model, or what is wrong with the head of the evidence.
pub fn evidence_candidate_kind<'a>(path: &str, evidence: &'a JsonTree) -> (r: Result<&'a str, String>)
    ensures
        sequence::outcome(r) == candidate_kind(path@, evidence@),
{
    if !is_text(evidence.text_field("schema"), "nerve.behavioral_validation.v1") || !is_text(
        evidence.text_field("status"),
        "passed",
    ) {
        return Err(evidence_text(path, " has not passed"));
    }
    let kind: &str = match evidence.text_field("candidate_kind") {
        Some(kind) => kind,
        None => {
            return Err(evidence_text(path, " has no candidate kind"));
        },
    };
    if !text::same(kind, "exact_reference") && !text::same(kind, "approximate") {
        return Err(component_text(path, " has unsupported candidate kind ", kind));
    }
    if !is_text(
        evidence.text_field("candidate_contract_digest_algorithm"),
        CONTRACT_DIGEST_ALGORITHM,
    ) {
        return Err(
            evidence_text(path, " uses an unsupported candidate contract digest algorithm"),
        );
    }
    match evidence.get("source_oracle") {
        Some(oracle) => match oracle.as_object() {
            Some(_) => {
                if !oracle_is_complete(oracle) {
                    return Err(
                        evidence_text(path, " has an incomplete source oracle contract"),
                    );
                }
                Ok(kind)
            },
            None => Err(evidence_text(path, " has no source oracle contract")),
        },
        None => Err(evidence_text(path, " has no source oracle contract")),
    }
}

#[verifier::loop_isolation(false)]
fn mode_is_measured(mode: &JsonTree) -> (r: bool)
    ensures
        r == measured(mode@),
{
    if !is_text(mode.text_field("status"), "passed") {
        return false;
    }
    match mode.number_field("sample_count") {
        None => {
            return false;
        },
        Some(count) => {
            if count == 0 {
                return false;
            }
        },
    }
    match mode.get("metrics") {
        None => false,
        Some(found) => match found.as_object() {
            None => false,
            Some(metrics) => {
                let ghost all = metrics.deep_view();
                let ghost p = not_measured();
                let mut i: usize = 0;
                while i < metrics.len()
                    invariant
                        i <= metrics.len(),
                        forall|j: int| 0 <= j < i ==> !p(#[trigger] all[j]),
                    decreases metrics.len() - i,
                {
                    let item = &metrics[i];
                    assert(all[i as int] == item.deep_view());
                    if !item.1.is_finite_number() {
                        assert(p(all[i as int]));
                        return false;
                    }
                    i += 1;
                }
                metrics.len() > 0
            },
        },
    }
}

/// Refuses evidence that does not validate a mode.
pub fn check_mode(path: &str, evidence: &JsonTree, kind: &str, mode: &str) -> (r: Result<(), String>)
    ensures
        sequence::outcome(r) == (match mode_error(path@, evidence@, kind@, mode@) {
            Some(error) => Err::<(), Seq<char>>(error),
            None => Ok(()),
        }),
{
    let found: &JsonTree = match evidence.get(mode) {
        Some(found) => found,
        None => {
            return Err(
                Message::new("behavioral validation evidence ").text(path).text(" lacks ").text(
                    mode,
                ).text(" validation").done(),
            );
        },
    };
    if found.as_object().is_none() {
        return Err(
            Message::new("behavioral validation evidence ").text(path).text(" lacks ").text(
                mode,
            ).text(" validation").done(),
        );
    }
    if text::same(kind, "exact_reference") {
        if !is_text(found.text_field("status"), "not_required") {
            return Err(
                Message::new("exact candidate evidence ").text(path).text(" must mark ").text(
                    mode,
                ).text(" validation not_required").done(),
            );
        }
    } else if !mode_is_measured(found) {
        return Err(
            Message::new("approximate candidate evidence ").text(path).text(
                " lacks measured passing ",
            ).text(mode).text(" validation").done(),
        );
    }
    Ok(())
}

fn push_components<'a>(components: &mut Vec<&'a JsonTree>, more: &'a Vec<JsonTree>)
    ensures
        final(components).deep_view() == old(components).deep_view() + more.deep_view(),
{
    let ghost start = components.deep_view();
    let mut i: usize = 0;
    assert(start + more.deep_view().take(0) =~= start);
    while i < more.len()
        invariant
            i <= more.len(),
            components.deep_view() == start + more.deep_view().take(i as int),
        decreases more.len() - i,
    {
        let ghost before = components.deep_view();
        components.push(&more[i]);
        assert(components.deep_view() =~= before.push(more.deep_view()[i as int]));
        assert(more.deep_view().take(i + 1) =~= more.deep_view().take(i as int).push(
            more.deep_view()[i as int],
        ));
        i += 1;
    }
    assert(more.deep_view().take(more@.len() as int) =~= more.deep_view());
}

/// The components that a manifest packages: those of its model, then those of its drafts.
#[verifier::loop_isolation(false)]
pub fn packaged_components<'a>(raw: &'a JsonTree) -> (r: Result<Vec<&'a JsonTree>, String>)
    ensures
        sequence::outcome(r) == raw_components(raw@),
{
    let own: &'a Vec<JsonTree> = match raw.inner_list("circuit_graph", "components") {
        Some(own) => own,
        None => {
            return Err("resident model package has no raw circuit graph components".to_owned());
        },
    };
    let mut components: Vec<&'a JsonTree> = Vec::new();
    let ghost none = components.deep_view();
    push_components(&mut components, own);
    assert(none + own.deep_view() =~= own.deep_view());
    let decoders: &'a Vec<JsonTree> = match raw.list_field("speculative_decoders") {
        Some(decoders) => decoders,
        None => {
            return Ok(components);
        },
    };
    let ghost all = decoders.deep_view();
    let ghost init = own.deep_view();
    let mut i: usize = 0;
    assert(all.take(0) =~= Seq::<JsonTreeView>::empty());
    while i < decoders.len()
        invariant
            i <= decoders.len(),
            sequence::try_fold(all.take(i as int), init, with_decoder()) == Ok::<
                Seq<JsonTreeView>,
                Seq<char>,
            >(components.deep_view()),
        decreases decoders.len() - i,
    {
        proof {
            assert(all[i as int] == decoders@[i as int]@);
            sequence::lemma_try_fold_step(all, init, with_decoder(), i as int);
            if sequence::try_fold(all.take(i + 1), init, with_decoder()) is Err {
                sequence::lemma_try_fold_error(all, init, with_decoder(), i + 1);
            }
        }
        match decoders[i].inner_list("circuit_graph", "components") {
            Some(more) => push_components(&mut components, more),
            None => {
                return Err(
                    "resident model package speculative decoder has no raw circuit graph components".to_owned(),
                );
            },
        }
        i += 1;
    }
    assert(all.take(all.len() as int) =~= all);
    Ok(components)
}

/// The components that have to be proven: how many nodes each has, and its circuit.
#[verifier::loop_isolation(false)]
pub fn components_to_prove<'a>(raw: &'a JsonTree) -> (r: Result<
    OrderedMap<String, (usize, &'a JsonTree)>,
    String,
>)
    ensures
        sequence::outcome(r) == expected_components(raw@),
        r matches Ok(expected) ==> expected.sorted(),
{
    let components: Vec<&'a JsonTree> = match packaged_components(raw) {
        Ok(components) => components,
        Err(error) => {
            return Err(error);
        },
    };
    let ghost all = components.deep_view();
    let ghost init = Map::<Seq<char>, (usize, JsonTreeView)>::empty();
    let mut expected: OrderedMap<String, (usize, &'a JsonTree)> = OrderedMap::new();
    let mut i: usize = 0;
    assert(all.take(0) =~= Seq::<JsonTreeView>::empty());
    while i < components.len()
        invariant
            i <= components.len(),
            expected.sorted(),
            sequence::try_fold(all.take(i as int), init, with_component()) == Ok::<
                Map<Seq<char>, (usize, JsonTreeView)>,
                Seq<char>,
            >(expected@),
        decreases components.len() - i,
    {
        proof {
            assert(all[i as int] == components@[i as int]@);
            sequence::lemma_try_fold_step(all, init, with_component(), i as int);
            if sequence::try_fold(all.take(i + 1), init, with_component()) is Err {
                sequence::lemma_try_fold_error(all, init, with_component(), i + 1);
            }
        }
        let component: &'a JsonTree = components[i];
        let id: &str = match component.text_field("component_id") {
            Some(id) => id,
            None => {
                return Err(
                    "resident model package contains a raw circuit without a component id".to_owned(),
                );
            },
        };
        let circuit: &'a JsonTree = match component.get("circuit") {
            Some(circuit) => circuit,
            None => {
                return Err(
                    Message::new("resident model package component ").quoted(id).text(
                        " has no raw circuit",
                    ).done(),
                );
            },
        };
        let node_count: usize = match circuit.list_field("nodes") {
            Some(nodes) => nodes.len(),
            None => {
                return Err(
                    Message::new("resident model package component ").quoted(id).text(
                        " has no raw circuit nodes",
                    ).done(),
                );
            },
        };
        let key: String = id.to_owned();
        if expected.contains_key(&key) {
            return Err(
                Message::new("resident model package repeats raw component ").quoted(id).done(),
            );
        }
        expected.insert(key, (node_count, circuit));
        i += 1;
    }
    assert(all.take(all.len() as int) =~= all);
    Ok(expected)
}

fn proof_is_current(kind: &str, proof_tree: &JsonTree, node_count: usize, digest: &str) -> (r: bool)
    ensures
        r == proof_holds(kind@, proof_tree@, node_count, digest@),
{
    let proof_kind: Option<&str> = proof_tree.text_field("candidate_kind");
    let exact: bool = is_text(proof_kind, "exact_reference");
    if !is_text(proof_tree.text_field("status"), "passed") || !(exact || is_text(
        proof_kind,
        "approximate",
    )) || (text::same(kind, "exact_reference") && !exact) {
        return false;
    }
    match proof_tree.number_field("candidate_node_count") {
        None => false,
        Some(count) => count as u128 == node_count as u128 && is_text(
            proof_tree.text_field("candidate_contract_digest"),
            digest,
        ),
    }
}

fn same_count(a: Option<u64>, b: Option<u64>) -> (r: bool)
    ensures
        r == (a == b),
{
    match (a, b) {
        (Some(a), Some(b)) => a == b,
        (None, None) => true,
        _ => false,
    }
}

/// The component that a proof proves, and whether approximately.
pub fn take_proof(
    path: &str,
    kind: &str,
    expected: &OrderedMap<String, (usize, &JsonTree)>,
    done: &OrderedSet<String>,
    proof_tree: &JsonTree,
) -> (r: Result<(String, bool), String>)
    requires
        done.sorted(),
    ensures
        sequence::outcome(r) == proven(path@, kind@, expected@, done@, proof_tree@),
{
    let id: String = match proof_tree.text_field("component_id") {
        Some(id) => id.to_owned(),
        None => {
            return Err(evidence_text(path, " contains a proof without a component id"));
        },
    };
    if done.contains(&id) {
        return Err(component_text(path, " repeats component ", id.as_str()));
    }
    let (node_count, circuit): (usize, &JsonTree) = match expected.get(&id) {
        Some(entry) => (entry.0, entry.1),
        None => {
            return Err(component_text(path, " proves unknown component ", id.as_str()));
        },
    };
    let digest: String = match json::json_tree_sha256(circuit) {
        Ok(digest) => digest,
        Err(error) => {
            return Err(error);
        },
    };
    if !proof_is_current(kind, proof_tree, node_count, digest.as_str()) {
        return Err(
            component_text(
                path,
                " has an incomplete or stale proof for component ",
                id.as_str(),
            ),
        );
    }
    if is_text(proof_tree.text_field("candidate_kind"), "approximate") {
        return Ok((id, true));
    }
    if !same_count(
        proof_tree.number_field("source_node_count"),
        proof_tree.number_field("covered_source_node_count"),
    ) {
        return Err(
            component_text(path, " does not completely cover component ", id.as_str()),
        );
    }
    Ok((id, false))
}

/// Refuses evidence whose proofs do not prove every packaged component.
#[verifier::loop_isolation(false)]
pub fn check_proofs(
    path: &str,
    evidence: &JsonTree,
    kind: &str,
    expected: &OrderedMap<String, (usize, &JsonTree)>,
) -> (r: Result<(), String>)
    requires
        expected.sorted(),
    ensures
        sequence::outcome(r) == proofs_outcome(path@, evidence@, kind@, expected@),
{
    let proofs: &Vec<JsonTree> = match evidence.list_field("circuits") {
        Some(proofs) => proofs,
        None => {
            return Err(evidence_text(path, " has no circuit proofs"));
        },
    };
    let ghost all = proofs.deep_view();
    let ghost init = (Set::<Seq<char>>::empty(), 0nat);
    let ghost step = with_proof(path@, kind@, expected@);
    let mut done: OrderedSet<String> = OrderedSet::new();
    let mut approximate: usize = 0;
    let mut i: usize = 0;
    assert(all.take(0) =~= Seq::<JsonTreeView>::empty());
    while i < proofs.len()
        invariant
            i <= proofs.len(),
            done.sorted(),
            approximate <= i,
            sequence::try_fold(all.take(i as int), init, step) == Ok::<
                (Set<Seq<char>>, nat),
                Seq<char>,
            >((done@, approximate as nat)),
        decreases proofs.len() - i,
    {
        proof {
            assert(all[i as int] == proofs@[i as int]@);
            sequence::lemma_try_fold_step(all, init, step, i as int);
            if sequence::try_fold(all.take(i + 1), init, step) is Err {
                sequence::lemma_try_fold_error(all, init, step, i + 1);
            }
        }
        match take_proof(path, kind, expected, &done, &proofs[i]) {
            Err(error) => {
                return Err(error);
            },
            Ok((id, is_approximate)) => {
                done.insert(id);
                if is_approximate {
                    approximate += 1;
                }
            },
        }
        i += 1;
    }
    assert(all.take(all.len() as int) =~= all);
    if text::same(kind, "approximate") && approximate == 0 {
        return Err(
            Message::new("approximate behavioral validation evidence ").text(path).text(
                " contains no approximate component proof",
            ).done(),
        );
    }
    if !expected.has_keys(&done) {
        return Err(evidence_text(path, " does not prove every packaged component"));
    }
    Ok(())
}

/// Refuses evidence that does not show that the package behaves as its model.
pub fn validate_evidence(path: &str, evidence: &JsonTree, raw_manifest: &JsonTree) -> (r: Result<
    (),
    String,
>)
    ensures
        sequence::outcome(r) == evidence_outcome(path@, evidence@, raw_manifest@),
{
    let kind: &str = match evidence_candidate_kind(path, evidence) {
        Ok(kind) => kind,
        Err(error) => {
            return Err(error);
        },
    };
    match check_mode(path, evidence, kind, "teacher_forced") {
        Ok(_) => {},
        Err(error) => {
            return Err(error);
        },
    }
    match check_mode(path, evidence, kind, "free_running") {
        Ok(_) => {},
        Err(error) => {
            return Err(error);
        },
    }
    match components_to_prove(raw_manifest) {
        Ok(expected) => check_proofs(path, evidence, kind, &expected),
        Err(error) => Err(error),
    }
}

/// Where a path leads, taken in a directory.
pub fn join_path(base: &str, path: &str) -> (r: String)
    ensures
        r@ == path_join(base@, path@),
{
    let directory: Vec<char> = text::characters(base);
    let parts: Vec<char> = text::characters(path);
    if directory.len() == 0 || (parts.len() > 0 && parts[0] == '/') {
        return path.to_owned();
    }
    if directory[directory.len() - 1] == '/' {
        return Message::new(base).text(path).done();
    }
    Message::new(base).text("/").text(path).done()
}

/// Refuses a package whose evidence does not show that it behaves as its model, from what came of
/// reading the file that the manifest names.
pub fn validate_behavioral_validation_artifact(
    package_root: &str,
    manifest: &VulkanResidentModelPackageManifest,
    raw_manifest: &JsonTree,
    read: &Result<Vec<u8>, String>,
) -> (r: Result<(), VulkanResidentPackageError>)
    ensures
        sequence::outcome(r) == artifact_outcome(
            package_root@,
            manifest@,
            raw_manifest@,
            sequence::outcome(*read),
        ),
{
    let relative: &str = manifest.behavioral_validation_path.as_str();
    if text::characters(relative).len() == 0 {
        return Err(
            VulkanResidentPackageError::InvalidData(
                "resident model package does not declare behavioral validation evidence".to_owned(),
            ),
        );
    }
    if manifest::path_leads_out(relative) {
        return Err(
            VulkanResidentPackageError::InvalidData(
                Message::new("behavioral validation path ").quoted(relative).text(
                    " must stay inside the package",
                ).done(),
            ),
        );
    }
    let path: String = join_path(package_root, relative);
    let bytes: &Vec<u8> = match read {
        Ok(bytes) => bytes,
        Err(error) => {
            return Err(VulkanResidentPackageError::Unreadable(error.clone()));
        },
    };
    assert(bytes.deep_view() =~= bytes@);
    let evidence: JsonTree = match json::parse_json(bytes) {
        Ok(evidence) => evidence,
        Err(error) => {
            return Err(
                VulkanResidentPackageError::InvalidData(
                    Message::new("invalid behavioral validation evidence ").text(
                        path.as_str(),
                    ).text(": ").text(error.as_str()).done(),
                ),
            );
        },
    };
    match validate_evidence(path.as_str(), &evidence, raw_manifest) {
        Ok(_) => Ok(()),
        Err(error) => Err(VulkanResidentPackageError::InvalidData(error)),
    }
}

// ---------------------------------------------------------------------------
// Laws
// ---------------------------------------------------------------------------

/// Whether a component is proven by one of these proofs, for the circuit that is packaged.
pub open spec fn is_proven(
    kind: Seq<char>,
    expected: Map<Seq<char>, (usize, JsonTreeView)>,
    proofs: Seq<JsonTreeView>,
    id: Seq<char>,
) -> bool {
    exists|i: int|
        0 <= i < proofs.len() && json::text_field(#[trigger] proofs[i], "component_id"@) == Some(id)
            && json::tree_digest(expected[id].1) is Ok && proof_holds(
            kind,
            proofs[i],
            expected[id].0,
            json::tree_digest(expected[id].1)->Ok_0,
        )
}

proof fn lemma_taken_are_proven(
    path: Seq<char>,
    kind: Seq<char>,
    expected: Map<Seq<char>, (usize, JsonTreeView)>,
    proofs: Seq<JsonTreeView>,
    id: Seq<char>,
)
    requires
        sequence::try_fold(
            proofs,
            (Set::<Seq<char>>::empty(), 0nat),
            with_proof(path, kind, expected),
        ) matches Ok(taken) && taken.0.contains(id),
    ensures
        is_proven(kind, expected, proofs, id),
    decreases proofs.len(),
{
    let init = (Set::<Seq<char>>::empty(), 0nat);
    let step = with_proof(path, kind, expected);
    if proofs.len() > 0 {
        let front = proofs.drop_last();
        let before = sequence::try_fold(front, init, step)->Ok_0;
        if before.0.contains(id) {
            lemma_taken_are_proven(path, kind, expected, front, id);
            let i = choose|i: int|
                0 <= i < front.len() && json::text_field(#[trigger] front[i], "component_id"@)
                    == Some(id) && json::tree_digest(expected[id].1) is Ok && proof_holds(
                    kind,
                    front[i],
                    expected[id].0,
                    json::tree_digest(expected[id].1)->Ok_0,
                );
            assert(proofs[i] == front[i]);
        } else {
            assert(proofs[proofs.len() - 1] == proofs.last());
            assert(proven(path, kind, expected, before.0, proofs.last())->Ok_0.0 == id);
        }
    }
}

/// Evidence that is accepted proves every packaged component, for the circuit that is packaged: its
/// nodes are counted and its digest is the one that was proven.
pub proof fn accepted_evidence_proves_every_component(
    path: Seq<char>,
    evidence: JsonTreeView,
    raw: JsonTreeView,
    id: Seq<char>,
)
    requires
        evidence_outcome(path, evidence, raw) is Ok,
        expected_components(raw)->Ok_0.contains_key(id),
    ensures
        expected_components(raw) is Ok,
        is_proven(
            candidate_kind(path, evidence)->Ok_0,
            expected_components(raw)->Ok_0,
            json::list(json::field(evidence, "circuits"@))->Some_0,
            id,
        ),
{
    let kind = candidate_kind(path, evidence)->Ok_0;
    let expected = expected_components(raw)->Ok_0;
    let proofs = json::list(json::field(evidence, "circuits"@))->Some_0;
    assert(expected.dom().contains(id));
    lemma_taken_are_proven(path, kind, expected, proofs, id);
}

/// Accepted evidence has passed, for an exact or an approximate candidate, against an oracle whose
/// contract digest is complete. An exact candidate needs no further validation; an approximate one was
/// measured and has passed in both modes, teacher-forced and free-running.
pub proof fn accepted_evidence_has_passed(
    path: Seq<char>,
    evidence: JsonTreeView,
    raw: JsonTreeView,
)
    requires
        evidence_outcome(path, evidence, raw) is Ok,
    ensures
        ({
            let kind = json::text_field(evidence, "candidate_kind"@);
            let oracle = json::field(evidence, "source_oracle"@);
            let digest = json::text_field(oracle->Some_0, "model_contract_digest"@);
            let forced = json::field(evidence, "teacher_forced"@);
            let free = json::field(evidence, "free_running"@);
            let approximate = kind == Some("approximate"@);
            &&& json::text_field(evidence, "schema"@) == Some("nerve.behavioral_validation.v1"@)
            &&& json::text_field(evidence, "status"@) == Some("passed"@)
            &&& kind == Some("exact_reference"@) || approximate
            &&& json::text_field(evidence, "candidate_contract_digest_algorithm"@) == Some(
                CONTRACT_DIGEST_ALGORITHM@,
            )
            &&& oracle is Some
            &&& digest matches Some(text) && text.len() == 64
            &&& json::number_field(oracle->Some_0, "tensor_count"@) is Some
            &&& json::number_field(oracle->Some_0, "parameter_count"@) is Some
            &&& json::number_field(oracle->Some_0, "byte_count"@) is Some
            &&& forced is Some
            &&& free is Some
            &&& !approximate ==> {
                &&& json::text_field(forced->Some_0, "status"@) == Some("not_required"@)
                &&& json::text_field(free->Some_0, "status"@) == Some("not_required"@)
            }
            &&& approximate ==> {
                &&& json::text_field(forced->Some_0, "status"@) == Some("passed"@)
                &&& json::text_field(free->Some_0, "status"@) == Some("passed"@)
                &&& json::number_field(forced->Some_0, "sample_count"@) is Some
                &&& json::number_field(free->Some_0, "sample_count"@) is Some
                &&& json::number_field(forced->Some_0, "sample_count"@)->Some_0 != 0
                &&& json::number_field(free->Some_0, "sample_count"@)->Some_0 != 0
            }
        }),
{
    reveal_strlit("exact_reference");
    reveal_strlit("approximate");
    assert("exact_reference"@.len() == 15);
    assert("approximate"@.len() == 11);
}

proof fn lemma_exact_is_covered(
    path: Seq<char>,
    kind: Seq<char>,
    expected: Map<Seq<char>, (usize, JsonTreeView)>,
    proofs: Seq<JsonTreeView>,
    i: int,
)
    requires
        sequence::try_fold(
            proofs,
            (Set::<Seq<char>>::empty(), 0nat),
            with_proof(path, kind, expected),
        ) is Ok,
        0 <= i < proofs.len(),
    ensures
        ({
            let id = json::text_field(proofs[i], "component_id"@);
            let digest = json::tree_digest(expected[id->Some_0].1);
            &&& id is Some
            &&& expected.contains_key(id->Some_0)
            &&& digest is Ok
            &&& proof_holds(kind, proofs[i], expected[id->Some_0].0, digest->Ok_0)
            &&& json::text_field(proofs[i], "candidate_kind"@) != Some("approximate"@)
                ==> json::number_field(proofs[i], "source_node_count"@) == json::number_field(
                proofs[i],
                "covered_source_node_count"@,
            )
        }),
    decreases proofs.len(),
{
    let init = (Set::<Seq<char>>::empty(), 0nat);
    let step = with_proof(path, kind, expected);
    let front = proofs.drop_last();
    let before = sequence::try_fold(front, init, step)->Ok_0;
    if i < front.len() {
        lemma_exact_is_covered(path, kind, expected, front, i);
        assert(front[i] == proofs[i]);
    } else {
        assert(proven(path, kind, expected, before.0, proofs.last()) is Ok);
    }
}

/// Every proof of accepted evidence has passed for a component of the package, over as many nodes as
/// the packaged circuit has, and for exactly that circuit by its digest. Where the whole evidence is
/// exact, so is the proof, and an exact proof covers every node of its source.
pub proof fn accepted_proofs_are_complete(
    path: Seq<char>,
    evidence: JsonTreeView,
    raw: JsonTreeView,
    i: int,
)
    requires
        evidence_outcome(path, evidence, raw) is Ok,
        0 <= i < json::list(json::field(evidence, "circuits"@))->Some_0.len(),
    ensures
        ({
            let expected = expected_components(raw)->Ok_0;
            let given = json::list(json::field(evidence, "circuits"@))->Some_0[i];
            let id = json::text_field(given, "component_id"@);
            let circuit = expected[id->Some_0];
            let kind = json::text_field(given, "candidate_kind"@);
            &&& id is Some
            &&& expected.contains_key(id->Some_0)
            &&& json::text_field(given, "status"@) == Some("passed"@)
            &&& kind == Some("exact_reference"@) || kind == Some("approximate"@)
            &&& json::text_field(evidence, "candidate_kind"@) == Some("exact_reference"@) ==> kind
                == Some("exact_reference"@)
            &&& json::number_field(given, "candidate_node_count"@) matches Some(count)
                && count as int == circuit.0 as int
            &&& json::tree_digest(circuit.1) is Ok
            &&& json::text_field(given, "candidate_contract_digest"@) == Some(
                json::tree_digest(circuit.1)->Ok_0,
            )
            &&& kind == Some("exact_reference"@) ==> json::number_field(
                given,
                "source_node_count"@,
            ) == json::number_field(given, "covered_source_node_count"@)
        }),
{
    reveal_strlit("exact_reference");
    reveal_strlit("approximate");
    assert("exact_reference"@.len() == 15);
    assert("approximate"@.len() == 11);
    let kind = candidate_kind(path, evidence)->Ok_0;
    let expected = expected_components(raw)->Ok_0;
    let proofs = json::list(json::field(evidence, "circuits"@))->Some_0;
    lemma_exact_is_covered(path, kind, expected, proofs, i);
}

/// A joined path begins with its base and ends with the path that is joined to it, which stands by
/// itself where it is absolute or there is no base. There is one separator between them.
pub proof fn joined_paths_end_with_the_path(base: Seq<char>, path: Seq<char>)
    ensures
        path.is_suffix_of(path_join(base, path)),
        base.len() == 0 ==> path_join(base, path) == path,
        path.len() > 0 && path[0] == '/' ==> path_join(base, path) == path,
        base.len() > 0 && !(path.len() > 0 && path[0] == '/') ==> {
            let joined = path_join(base, path);
            &&& base.is_prefix_of(joined)
            &&& joined[joined.len() - path.len() - 1] == '/'
            &&& joined.len() == base.len() + path.len() + (if base.last() == '/' {
                0int
            } else {
                1int
            })
        },
{
    reveal_strlit("/");
    let joined = path_join(base, path);
    assert(joined.subrange(joined.len() - path.len(), joined.len() as int) =~= path);
    if base.len() > 0 && !(path.len() > 0 && path[0] == '/') {
        assert(joined.subrange(0, base.len() as int) =~= base);
    }
}

} // verus!
