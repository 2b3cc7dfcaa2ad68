use nerve_runtime::ordered::OrderedMap;
use nerve_runtime::ordered::OrderedSet;
use nerve_runtime::package::evidence;
use nerve_runtime::package::graph::StreamCircuitGraphBoundary;
use nerve_runtime::package::graph::VulkanResidentPackageCircuitGraph;
use nerve_runtime::package::integrity;
use nerve_runtime::package::json;
use nerve_runtime::package::json::JsonTree;
use nerve_runtime::package::loading;
use nerve_runtime::package::loading::PackageAnswers;
use nerve_runtime::package::manifest;
use nerve_runtime::package::manifest::VulkanResidentModelPackageManifest;
use nerve_runtime::package::manifest::VulkanResidentPackageArtifactContract;
use nerve_runtime::package::manifest::VulkanResidentPackageArtifactIntegrity;
use nerve_runtime::package::manifest::VulkanResidentPackageBatchImplementation;
use nerve_runtime::package::manifest::VulkanResidentPackageComponentExecution;
use nerve_runtime::package::manifest::VulkanResidentPackageDraftOutputTransducer;
use nerve_runtime::package::manifest::VulkanResidentPackageError;
use nerve_runtime::package::manifest::VulkanResidentPackageInputTransducer;
use nerve_runtime::package::manifest::VulkanResidentPackageKernel;
use nerve_runtime::package::manifest::VulkanResidentPackageOutputTransducer;
use nerve_runtime::package::manifest::VulkanResidentPackageShader;
use nerve_runtime::package::manifest::VulkanResidentPackageSpeculativeDecoder;
use nerve_runtime::package::manifest::VulkanResidentPackageTokenizer;
use nerve_runtime::package::manifest::VulkanShaderDeviceRequirements;
use nerve_runtime::package::mount::MountChecks;
use nerve_runtime::package::shaders;
use nerve_runtime::package::shaders::VulkanShaderInspection;
use nerve_runtime::package::shaders::VulkanShaderInspectionFailure;

const FINGERPRINT: &str = "compiler-7";

fn text(value: &str) -> JsonTree {
    JsonTree::Text(value.to_string())
}

fn number(value: u64) -> JsonTree {
    JsonTree::Unsigned(value)
}

fn object(fields: Vec<(&str, JsonTree)>) -> JsonTree {
    let mut fields: Vec<(String, JsonTree)> = fields
        .into_iter()
        .map(|(name, value)| (name.to_string(), value))
        .collect();
    fields.sort_by(|a, b| a.0.cmp(&b.0));
    JsonTree::Object(fields)
}

fn with(tree: JsonTree, name: &str, value: JsonTree) -> JsonTree {
    match tree {
        JsonTree::Object(fields) => {
            let mut fields: Vec<(String, JsonTree)> = fields
                .into_iter()
                .filter(|field| field.0 != name)
                .collect();
            fields.push((name.to_string(), value));
            fields.sort_by(|a, b| a.0.cmp(&b.0));
            JsonTree::Object(fields)
        }
        other => other,
    }
}

fn without(tree: JsonTree, name: &str) -> JsonTree {
    match tree {
        JsonTree::Object(fields) => {
            JsonTree::Object(fields.into_iter().filter(|field| field.0 != name).collect())
        }
        other => other,
    }
}

fn tree(source: &str) -> JsonTree {
    let manifest = format!(
        "{{\"schema\":\"nerve.vulkan_resident_model_package.v3\",\"compiler_fingerprint\":\"{FINGERPRINT}\",\"value\":{source}}}"
    );
    match loading::read_manifest(&manifest.into_bytes(), FINGERPRINT).unwrap() {
        JsonTree::Object(fields) => {
            fields
                .into_iter()
                .find(|field| field.0 == "value")
                .unwrap()
                .1
        }
        other => other,
    }
}

fn circuit(nodes: usize) -> JsonTree {
    object(vec![
        ("id", text("circuit")),
        (
            "nodes",
            JsonTree::List((0..nodes).map(|_| JsonTree::Null).collect()),
        ),
    ])
}

fn component(id: &str, nodes: usize) -> JsonTree {
    object(vec![("component_id", text(id)), ("circuit", circuit(nodes))])
}

fn raw_manifest() -> JsonTree {
    object(vec![
        (
            "circuit_graph",
            object(vec![(
                "components",
                JsonTree::List(vec![component("a", 2), component("b", 3)]),
            )]),
        ),
        (
            "speculative_decoders",
            JsonTree::List(vec![object(vec![(
                "circuit_graph",
                object(vec![("components", JsonTree::List(vec![component("d", 1)]))]),
            )])]),
        ),
    ])
}

fn proof_of(id: &str, nodes: usize, kind: &str) -> JsonTree {
    object(vec![
        ("component_id", text(id)),
        ("status", text("passed")),
        ("candidate_kind", text(kind)),
        ("candidate_node_count", number(nodes as u64)),
        (
            "candidate_contract_digest",
            text(&json::json_tree_sha256(&circuit(nodes)).unwrap()),
        ),
        ("source_node_count", number(4)),
        ("covered_source_node_count", number(4)),
    ])
}

fn evidence_with(kind: &str, proofs: Vec<JsonTree>) -> JsonTree {
    let mode = if kind == "exact_reference" {
        || object(vec![("status", text("not_required"))])
    } else {
        || {
            object(vec![
                ("status", text("passed")),
                ("sample_count", number(8)),
                ("metrics", object(vec![("loss", JsonTree::Double(1.5f64.to_bits()))])),
            ])
        }
    };
    object(vec![
        ("schema", text("nerve.behavioral_validation.v1")),
        ("status", text("passed")),
        ("candidate_kind", text(kind)),
        (
            "candidate_contract_digest_algorithm",
            text("nerve.json_tree_sha256.v1"),
        ),
        (
            "source_oracle",
            object(vec![
                ("model_contract_digest", text(&"0f".repeat(32))),
                ("tensor_count", number(1)),
                ("parameter_count", number(2)),
                ("byte_count", number(3)),
            ]),
        ),
        ("teacher_forced", mode()),
        ("free_running", mode()),
        ("circuits", JsonTree::List(proofs)),
    ])
}

fn exact_proofs() -> Vec<JsonTree> {
    vec![
        proof_of("b", 3, "exact_reference"),
        proof_of("a", 2, "exact_reference"),
        proof_of("d", 1, "exact_reference"),
    ]
}

fn refusal(evidence: JsonTree) -> String {
    evidence::validate_evidence("e.json", &evidence, &raw_manifest()).unwrap_err()
}

fn shader(path: &str) -> VulkanResidentPackageShader {
    VulkanResidentPackageShader {
        shader_path: path.to_string(),
    }
}

fn needs(features: &[&str], operations: &[&str]) -> VulkanShaderDeviceRequirements {
    VulkanShaderDeviceRequirements {
        vulkan_features: features.iter().map(|item| item.to_string()).collect(),
        subgroup_operations: operations.iter().map(|item| item.to_string()).collect(),
    }
}

fn execution(id: &str, kernel: &str, stage: &str) -> VulkanResidentPackageComponentExecution {
    VulkanResidentPackageComponentExecution {
        component_id: id.to_string(),
        kernels: vec![VulkanResidentPackageKernel {
            node_id: "node".to_string(),
            shader_path: kernel.to_string(),
            batch_implementations: vec![VulkanResidentPackageBatchImplementation {
                stages: vec![shader(stage)],
                device_requirements: needs(&["float16"], &["arithmetic"]),
            }],
        }],
    }
}

fn graph() -> VulkanResidentPackageCircuitGraph {
    VulkanResidentPackageCircuitGraph {
        wiring: "series".to_string(),
        cables: vec![],
        boundary: StreamCircuitGraphBoundary {
            external_inputs: vec![],
            public_outputs: vec![],
        },
        architecture: "null".to_string(),
        dimensions: "null".to_string(),
        input_transducer: "null".to_string(),
        output_transducer: "null".to_string(),
        pedals: vec![],
    }
}

fn package() -> VulkanResidentModelPackageManifest {
    let mut manifest = VulkanResidentModelPackageManifest {
        package_id: "package".to_string(),
        tensor_index_path: "tensors.json".to_string(),
        behavioral_validation_path: "evidence.json".to_string(),
        config_path: "config.json".to_string(),
        tokenizer: VulkanResidentPackageTokenizer {
            path: "tokenizer".to_string(),
            files: vec!["vocab.json".to_string()],
        },
        input_transducer: VulkanResidentPackageInputTransducer {
            shader_path: "in.spv".to_string(),
            batch_shader_path: "in_batch.spv".to_string(),
        },
        output_transducer: VulkanResidentPackageOutputTransducer {
            embedding_norm_shader_path: "norm.spv".to_string(),
            embedding_norm_batch_shader_path: "norm_batch.spv".to_string(),
            projection_shader_path: "out.spv".to_string(),
            projection_batch_shader_path: "out_batch.spv".to_string(),
        },
        sampler_kernels: vec![shader("sample.spv")],
        component_executions: vec![execution("a", "a.spv", "a_stage.spv")],
        speculative_decoders: vec![VulkanResidentPackageSpeculativeDecoder {
            output_transducer: VulkanResidentPackageDraftOutputTransducer {
                norm_shader_path: "draft_norm.spv".to_string(),
                projection_shader_path: "draft_out.spv".to_string(),
            },
            component_executions: vec![execution("d", "d.spv", "d_stage.spv")],
        }],
        artifact_integrity: VulkanResidentPackageArtifactIntegrity {
            schema: "nerve.package_artifact_integrity.v1".to_string(),
            algorithm: "sha256".to_string(),
            files: OrderedMap::new(),
        },
        required_vulkan_features: vec!["int8".to_string()],
        required_vulkan_subgroup_operations: vec!["basic".to_string()],
        circuit_graph: graph(),
    };
    for path in manifest.required_artifacts().elements {
        let bytes = contents(&path);
        manifest.artifact_integrity.files.insert(
            path,
            VulkanResidentPackageArtifactContract {
                sha256: nerve_runtime::digest::sha256_hex(&bytes),
                byte_count: bytes.len(),
            },
        );
    }
    manifest
}

fn contents(path: &str) -> Vec<u8> {
    format!("contents of {path}").into_bytes()
}

fn reads(manifest: &VulkanResidentModelPackageManifest) -> Vec<Result<Vec<u8>, String>> {
    manifest
        .artifact_integrity
        .files
        .entries
        .iter()
        .map(|entry| Ok(contents(&entry.0)))
        .collect()
}

fn inspections(manifest: &VulkanResidentModelPackageManifest) -> Vec<VulkanShaderInspection> {
    let mut found: Vec<VulkanShaderInspection> = manifest
        .mandatory_shader_paths()
        .into_iter()
        .map(|path| VulkanShaderInspection {
            resolved_path: format!("/package/{path}"),
            failure: None,
            requirements: if path == "sample.spv" {
                needs(&["int8"], &["basic"])
            } else {
                needs(&[], &[])
            },
            shader_path: path,
        })
        .collect();
    for path in ["a_stage.spv", "d_stage.spv"] {
        found.push(VulkanShaderInspection {
            shader_path: path.to_string(),
            resolved_path: format!("/package/{path}"),
            failure: None,
            requirements: needs(&["float16"], &["arithmetic"]),
        });
    }
    found
}

#[test]
fn json_is_read_variant_by_variant() {
    assert_eq!(tree("null"), JsonTree::Null);
    assert_eq!(tree("true"), JsonTree::Bool(true));
    assert_eq!(tree("-3"), JsonTree::Signed(-3));
    assert_eq!(tree("3"), JsonTree::Signed(3));
    assert_eq!(
        tree("18446744073709551615"),
        JsonTree::Unsigned(u64::MAX)
    );
    assert_eq!(tree("1.5"), JsonTree::Double(1.5f64.to_bits()));
    assert_eq!(tree("\"a\\nb\""), text("a\nb"));
    assert_eq!(
        tree("[1,{\"b\":2,\"a\":[]}]"),
        JsonTree::List(vec![
            JsonTree::Signed(1),
            object(vec![("a", JsonTree::List(vec![])), ("b", JsonTree::Signed(2))])
        ])
    );
}

#[test]
fn fields_are_found_by_name() {
    let value = tree("{\"a\":{\"b\":[7]},\"n\":5,\"t\":\"x\",\"m\":-5}");
    assert_eq!(value.text_field("t"), Some("x"));
    assert_eq!(value.text_field("n"), None);
    assert_eq!(value.number_field("n"), Some(5));
    assert_eq!(value.number_field("m"), None);
    assert_eq!(value.inner_list("a", "b"), Some(&vec![JsonTree::Signed(7)]));
    assert!(value.inner_list("b", "a").is_none());
    assert!(value.list_field("a").is_none());
    assert!(value.get("z").is_none());
    assert!(value.as_object().is_some());
    assert!(JsonTree::Null.as_list().is_none());
}

#[test]
fn finite_numbers_are_told() {
    assert!(tree("0").is_finite_number());
    assert!(tree("1e300").is_finite_number());
    assert!(!tree("\"1\"").is_finite_number());
    assert!(!JsonTree::Double(f64::INFINITY.to_bits()).is_finite_number());
    assert!(!JsonTree::Double(f64::NAN.to_bits()).is_finite_number());
    assert!(JsonTree::Double((-0.0f64).to_bits()).is_finite_number());
}

#[test]
fn trees_have_digests() {
    let mut bytes = vec![];
    json::update_json_tree_digest(&mut bytes, &tree("[null,true,false,-12,\"ab\",{\"k\":1.0}]"))
        .unwrap();
    let mut expected: Vec<u8> = b"l".to_vec();
    expected.extend(6u64.to_be_bytes());
    expected.extend(b"ntfi");
    expected.extend(3u64.to_be_bytes());
    expected.extend(b"-12s");
    expected.extend(2u64.to_be_bytes());
    expected.extend(b"abo");
    expected.extend(1u64.to_be_bytes());
    expected.extend(b"s");
    expected.extend(1u64.to_be_bytes());
    expected.extend(b"kd");
    expected.extend(1.0f64.to_be_bytes());
    assert_eq!(bytes, expected);
    assert_eq!(
        json::json_tree_sha256(&JsonTree::Null).unwrap(),
        nerve_runtime::digest::sha256_hex(b"n")
    );
    assert_eq!(
        json::json_tree_sha256(&JsonTree::Double(f64::NAN.to_bits())).unwrap_err(),
        "contract digest cannot encode a non-finite number"
    );
}

#[test]
fn digests_do_not_depend_on_the_layout() {
    let one = tree("{\"a\": 1, \"b\": [true]}");
    let other = tree("{\"b\":[true],\"a\":1}");
    assert_eq!(
        json::json_tree_sha256(&one).unwrap(),
        json::json_tree_sha256(&other).unwrap()
    );
    assert_ne!(
        json::json_tree_sha256(&one).unwrap(),
        json::json_tree_sha256(&tree("{\"a\":1}")).unwrap()
    );
}

#[test]
fn manifests_with_another_head_are_refused() {
    let header = |fields: Vec<(&str, JsonTree)>| {
        loading::check_manifest_header(&object(fields), FINGERPRINT)
    };
    let schema = || text("nerve.vulkan_resident_model_package.v3");
    assert_eq!(
        header(vec![]).unwrap_err(),
        "unsupported resident model package manifest schema \"<missing>\"; recompile the model"
    );
    assert_eq!(
        header(vec![("schema", schema()), ("compiler_fingerprint", text("old"))]).unwrap_err(),
        "compiled package fingerprint \"old\" does not match runtime fingerprint \"compiler-7\"; recompile the model"
    );
    let placed = |fields: Vec<(&str, JsonTree)>| {
        let mut all = vec![
            ("schema", schema()),
            ("compiler_fingerprint", text(FINGERPRINT)),
        ];
        all.extend(fields);
        header(all)
    };
    assert!(placed(vec![]).is_ok());
    assert_eq!(
        placed(vec![("placement", JsonTree::Null), ("device_id", text("x"))]).unwrap_err(),
        "compiled model package must not contain runtime placement fields [\"device_id\", \"placement\"]"
    );
    assert_eq!(
        placed(vec![("placement", JsonTree::Null)]).unwrap_err(),
        "compiled model package must not contain runtime placement fields [\"placement\"]"
    );
    assert_eq!(
        placed(vec![("device_id", JsonTree::Null)]).unwrap_err(),
        "compiled model package must not contain runtime placement fields [\"device_id\"]"
    );
    let unreadable = loading::read_manifest(&b"{".to_vec(), FINGERPRINT).unwrap_err();
    assert!(matches!(
        unreadable,
        VulkanResidentPackageError::InvalidData(_)
    ));
}

#[test]
fn exact_evidence_is_accepted() {
    let evidence = evidence_with("exact_reference", exact_proofs());
    assert_eq!(
        evidence::validate_evidence("e.json", &evidence, &raw_manifest()),
        Ok(())
    );
}

#[test]
fn approximate_evidence_needs_measurements() {
    let mut proofs = exact_proofs();
    proofs[1] = proof_of("a", 2, "approximate");
    let evidence = evidence_with("approximate", proofs);
    assert_eq!(
        evidence::validate_evidence("e.json", &evidence, &raw_manifest()),
        Ok(())
    );
    for measured in [
        object(vec![("status", text("failed"))]),
        object(vec![
            ("status", text("passed")),
            ("sample_count", number(0)),
            ("metrics", object(vec![("loss", number(1))])),
        ]),
        object(vec![
            ("status", text("passed")),
            ("sample_count", number(1)),
            ("metrics", object(vec![])),
        ]),
        object(vec![
            ("status", text("passed")),
            ("sample_count", number(1)),
            ("metrics", object(vec![("loss", text("low"))])),
        ]),
    ] {
        let mut proofs = exact_proofs();
        proofs[1] = proof_of("a", 2, "approximate");
        let evidence = with(evidence_with("approximate", proofs), "free_running", measured);
        assert_eq!(
            refusal(evidence),
            "approximate candidate evidence e.json lacks measured passing free_running validation"
        );
    }
    assert_eq!(
        refusal(evidence_with("approximate", exact_proofs())),
        "approximate behavioral validation evidence e.json contains no approximate component proof"
    );
}

#[test]
fn heads_of_evidence_are_checked() {
    let good = || evidence_with("exact_reference", exact_proofs());
    let starts = "behavioral validation evidence e.json";
    assert_eq!(
        refusal(with(good(), "schema", text("v0"))),
        format!("{starts} has not passed")
    );
    assert_eq!(
        refusal(with(good(), "status", text("failed"))),
        format!("{starts} has not passed")
    );
    assert_eq!(
        refusal(without(good(), "candidate_kind")),
        format!("{starts} has no candidate kind")
    );
    assert_eq!(
        refusal(with(good(), "candidate_kind", text("guess"))),
        format!("{starts} has unsupported candidate kind \"guess\"")
    );
    assert_eq!(
        refusal(without(good(), "candidate_contract_digest_algorithm")),
        format!("{starts} uses an unsupported candidate contract digest algorithm")
    );
    assert_eq!(
        refusal(with(good(), "source_oracle", text("none"))),
        format!("{starts} has no source oracle contract")
    );
    assert_eq!(
        refusal(with(
            good(),
            "source_oracle",
            object(vec![("model_contract_digest", text(&"0f".repeat(32)))])
        )),
        format!("{starts} has an incomplete source oracle contract")
    );
    assert_eq!(
        refusal(without(good(), "teacher_forced")),
        format!("{starts} lacks teacher_forced validation")
    );
    assert_eq!(
        refusal(with(good(), "free_running", object(vec![]))),
        "exact candidate evidence e.json must mark free_running validation not_required"
    );
    assert_eq!(
        refusal(without(good(), "circuits")),
        format!("{starts} has no circuit proofs")
    );
}

#[test]
fn proofs_are_checked_against_the_package() {
    let starts = "behavioral validation evidence e.json";
    let refused = |proofs: Vec<JsonTree>| refusal(evidence_with("exact_reference", proofs));
    assert_eq!(
        refused(vec![object(vec![])]),
        format!("{starts} contains a proof without a component id")
    );
    let twice = vec![
        proof_of("a", 2, "exact_reference"),
        proof_of("a", 2, "exact_reference"),
    ];
    assert_eq!(refused(twice), format!("{starts} repeats component \"a\""));
    assert_eq!(
        refused(vec![proof_of("z", 2, "exact_reference")]),
        format!("{starts} proves unknown component \"z\"")
    );
    assert_eq!(
        refused(vec![proof_of("a", 3, "exact_reference")]),
        format!("{starts} has an incomplete or stale proof for component \"a\"")
    );
    assert_eq!(
        refused(vec![proof_of("a", 2, "approximate")]),
        format!("{starts} has an incomplete or stale proof for component \"a\"")
    );
    assert_eq!(
        refused(vec![with(
            proof_of("a", 2, "exact_reference"),
            "covered_source_node_count",
            number(3)
        )]),
        format!("{starts} does not completely cover component \"a\"")
    );
    assert_eq!(
        refused(vec![proof_of("a", 2, "exact_reference")]),
        format!("{starts} does not prove every packaged component")
    );
}

#[test]
fn raw_components_have_to_be_complete() {
    let evidence = evidence_with("exact_reference", exact_proofs());
    let refused = |raw: JsonTree| evidence::validate_evidence("e.json", &evidence, &raw).unwrap_err();
    let graph_of = |components: Vec<JsonTree>| {
        object(vec![(
            "circuit_graph",
            object(vec![("components", JsonTree::List(components))]),
        )])
    };
    assert_eq!(
        refused(object(vec![])),
        "resident model package has no raw circuit graph components"
    );
    assert_eq!(
        refused(with(
            graph_of(vec![]),
            "speculative_decoders",
            JsonTree::List(vec![JsonTree::Null])
        )),
        "resident model package speculative decoder has no raw circuit graph components"
    );
    assert_eq!(
        refused(graph_of(vec![object(vec![])])),
        "resident model package contains a raw circuit without a component id"
    );
    assert_eq!(
        refused(graph_of(vec![object(vec![("component_id", text("a"))])])),
        "resident model package component \"a\" has no raw circuit"
    );
    assert_eq!(
        refused(graph_of(vec![object(vec![
            ("component_id", text("a")),
            ("circuit", object(vec![]))
        ])])),
        "resident model package component \"a\" has no raw circuit nodes"
    );
    assert_eq!(
        refused(graph_of(vec![component("a", 1), component("a", 2)])),
        "resident model package repeats raw component \"a\""
    );
}

#[test]
fn evidence_is_read_from_inside_the_package() {
    let raw = raw_manifest();
    let mut manifest = package();
    let read = Err("not found".to_string());
    let error =
        evidence::validate_behavioral_validation_artifact("root", &manifest, &raw, &read)
            .unwrap_err();
    assert_eq!(
        error,
        VulkanResidentPackageError::Unreadable("not found".to_string())
    );
    let garbled = Ok(b"{".to_vec());
    let error =
        evidence::validate_behavioral_validation_artifact("root", &manifest, &raw, &garbled)
            .unwrap_err();
    assert!(error
        .to_string()
        .starts_with("invalid behavioral validation evidence root/evidence.json: "));
    manifest.behavioral_validation_path = "../evidence.json".to_string();
    let error =
        evidence::validate_behavioral_validation_artifact("root", &manifest, &raw, &read)
            .unwrap_err();
    assert_eq!(
        error.to_string(),
        "behavioral validation path \"../evidence.json\" must stay inside the package"
    );
    manifest.behavioral_validation_path = String::new();
    let error =
        evidence::validate_behavioral_validation_artifact("root", &manifest, &raw, &read)
            .unwrap_err();
    assert_eq!(
        error.to_string(),
        "resident model package does not declare behavioral validation evidence"
    );
}

#[test]
fn hexadecimal_digests_are_told() {
    assert!(evidence::is_lower_hex_sha256(&"a9".repeat(32)));
    assert!(!evidence::is_lower_hex_sha256(&"A9".repeat(32)));
    assert!(!evidence::is_lower_hex_sha256(&"a9".repeat(31)));
    assert!(!evidence::is_lower_hex_sha256(&"g9".repeat(32)));
}

#[test]
fn paths_are_joined() {
    for (base, path) in [
        ("a", "b"),
        ("a/", "b"),
        ("", "b"),
        ("a", "/b"),
        ("a", ""),
        ("", ""),
    ] {
        assert_eq!(
            evidence::join_path(base, path),
            std::path::Path::new(base).join(path).to_string_lossy()
        );
    }
}

#[test]
fn paths_that_lead_out_are_told() {
    for path in ["a", "a/b", "a..b", "..a/b", "./a", "a/..b", "a//b", "..."] {
        assert!(!manifest::path_leads_out(path), "{path}");
    }
    for path in ["/a", "..", "../a", "a/..", "a/../b", "/"] {
        assert!(manifest::path_leads_out(path), "{path}");
    }
}

#[test]
fn every_path_of_a_manifest_is_checked() {
    assert_eq!(
        manifest::validate_resident_package_paths(&package()),
        Ok(())
    );
    let count = package().paths().len();
    assert_eq!(count, 18);
    let mut stray = package();
    stray.tokenizer.files = vec!["../vocab.json".to_string()];
    assert_eq!(
        manifest::validate_resident_package_paths(&stray)
            .unwrap_err()
            .to_string(),
        "resident model package tokenizer file path \"../vocab.json\" must stay inside the package"
    );
    let mut empty = package();
    empty.speculative_decoders[0].component_executions[0].kernels[0].batch_implementations[0]
        .stages = vec![shader("")];
    assert_eq!(
        manifest::validate_resident_package_paths(&empty)
            .unwrap_err()
            .to_string(),
        "resident model package draft component batch implementation stage shader path \"\" must stay inside the package"
    );
}

#[test]
fn files_meet_their_contracts() {
    let manifest = package();
    let reads = reads(&manifest);
    assert_eq!(
        integrity::validate_resident_package_artifact_integrity("root", &manifest, &reads),
        Ok(())
    );
    assert!(manifest
        .artifact_integrity
        .files
        .contains_key(&"tokenizer/vocab.json".to_string()));
    assert!(!manifest
        .artifact_integrity
        .files
        .contains_key(&"norm_batch.spv".to_string()));
}

#[test]
fn files_that_break_their_contracts_are_refused() {
    let manifest = package();
    let mut changed = reads(&manifest);
    changed[0] = Ok(b"something else".to_vec());
    let first = manifest.artifact_integrity.files.entries[0].0.clone();
    assert_eq!(
        integrity::validate_resident_package_artifact_integrity("root", &manifest, &changed)
            .unwrap_err()
            .to_string(),
        format!("resident model package artifact {first:?} does not match its integrity contract")
    );
    let mut missing = reads(&manifest);
    missing[0] = Err("gone".to_string());
    assert_eq!(
        integrity::validate_resident_package_artifact_integrity("root", &manifest, &missing)
            .unwrap_err(),
        VulkanResidentPackageError::Unreadable(format!(
            "failed to read resident model package integrity artifact root/{first}: gone"
        ))
    );
}

#[test]
fn contracts_have_to_fit_the_package() {
    let wrong = "resident model package artifact integrity contract is invalid";
    for change in 0..3 {
        let mut manifest = package();
        match change {
            0 => manifest.artifact_integrity.schema = "v0".to_string(),
            1 => manifest.artifact_integrity.algorithm = "md5".to_string(),
            _ => manifest.artifact_integrity.files = OrderedMap::new(),
        }
        assert_eq!(
            integrity::check_artifact_contract(&manifest)
                .unwrap_err()
                .to_string(),
            wrong
        );
    }
    let mut manifest = package();
    manifest
        .artifact_integrity
        .files
        .remove(&"config.json".to_string());
    assert_eq!(
        integrity::check_artifact_contract(&manifest)
            .unwrap_err()
            .to_string(),
        "resident model package artifact integrity contract does not cover its declared non-weight artifacts"
    );
    let contract = VulkanResidentPackageArtifactContract {
        sha256: "ABC".to_string(),
        byte_count: 0,
    };
    assert_eq!(
        integrity::check_artifact("root", "x", &contract, &Ok(vec![]))
            .unwrap_err()
            .to_string(),
        "resident model package artifact \"x\" has an invalid SHA-256"
    );
    assert_eq!(
        integrity::check_artifact("root", "/x", &contract, &Ok(vec![]))
            .unwrap_err()
            .to_string(),
        "resident model package integrity artifact path \"/x\" must stay inside the package"
    );
}

#[test]
fn declared_requirements_are_those_of_the_shaders() {
    let manifest = package();
    let found = inspections(&manifest);
    assert_eq!(
        shaders::validate_resident_package_spirv_requirements(&manifest, &found),
        Ok(())
    );
    assert_eq!(
        manifest.mandatory_shader_paths(),
        vec![
            "a.spv",
            "d.spv",
            "draft_norm.spv",
            "draft_out.spv",
            "in.spv",
            "in_batch.spv",
            "norm.spv",
            "norm_batch.spv",
            "out.spv",
            "out_batch.spv",
            "sample.spv"
        ]
    );
    let stages = vec!["a_stage.spv".to_string(), "sample.spv".to_string()];
    let (features, operations): (OrderedSet<String>, OrderedSet<String>) =
        shaders::resident_package_spirv_requirements(&found, &stages).unwrap();
    assert_eq!(features.elements, vec!["float16", "int8"]);
    assert_eq!(operations.elements, vec!["arithmetic", "basic"]);
}

#[test]
fn undeclared_requirements_are_refused() {
    let mut manifest = package();
    let found = inspections(&manifest);
    manifest.required_vulkan_features = vec![];
    assert_eq!(
        shaders::validate_resident_package_spirv_requirements(&manifest, &found)
            .unwrap_err()
            .to_string(),
        "resident model package \"package\" does not declare the Vulkan requirements of its mandatory SPIR-V artifacts"
    );
    let mut manifest = package();
    manifest.component_executions[0].kernels[0].batch_implementations[0].device_requirements =
        needs(&["float16"], &[]);
    assert_eq!(
        shaders::validate_resident_package_spirv_requirements(&manifest, &found)
            .unwrap_err()
            .to_string(),
        "compiled batch implementation a.node does not declare the Vulkan requirements of its SPIR-V artifacts"
    );
    let mut unread = found.clone();
    unread[0].failure = Some(VulkanShaderInspectionFailure::Unreadable("gone".to_string()));
    assert_eq!(
        shaders::validate_resident_package_spirv_requirements(&package(), &unread)
            .unwrap_err()
            .to_string(),
        "failed to inspect compiled Vulkan shader \"/package/a.spv\": gone"
    );
    let mut invalid = found;
    invalid[0].failure = Some(VulkanShaderInspectionFailure::Invalid("no words".to_string()));
    assert_eq!(
        shaders::validate_resident_package_spirv_requirements(&package(), &invalid)
            .unwrap_err()
            .to_string(),
        "compiled Vulkan shader \"/package/a.spv\" has no valid runtime device contract: no words"
    );
}

fn answers(manifest: &VulkanResidentModelPackageManifest, evidence: Vec<u8>) -> PackageAnswers {
    PackageAnswers {
        evidence: Ok(evidence),
        artifacts: reads(manifest),
        shaders: inspections(manifest),
        graph: MountChecks {
            pedals: vec![],
            index: Ok(()),
            before: Ok(()),
            after: Ok(()),
        },
        executions: Ok(()),
        generation_contract: Ok(()),
    }
}

#[test]
fn packages_are_validated_step_by_step() {
    let manifest = package();
    let raw = object(vec![(
        "circuit_graph",
        object(vec![("components", JsonTree::List(vec![]))]),
    )]);
    let evidence = format!(
        "{{\"schema\":\"nerve.behavioral_validation.v1\",\"status\":\"passed\",\"candidate_kind\":\"exact_reference\",\"candidate_contract_digest_algorithm\":\"nerve.json_tree_sha256.v1\",\"source_oracle\":{{\"model_contract_digest\":\"{}\",\"tensor_count\":1,\"parameter_count\":1,\"byte_count\":1}},\"teacher_forced\":{{\"status\":\"not_required\"}},\"free_running\":{{\"status\":\"not_required\"}},\"circuits\":[]}}",
        "0a".repeat(32)
    )
    .into_bytes();
    let good = answers(&manifest, evidence.clone());
    assert_eq!(
        loading::validate_package("root", &manifest, &raw, "schema", &good),
        Ok(())
    );
    let mut index = answers(&manifest, evidence.clone());
    index.graph.index = Err("no pedals".to_string());
    assert_eq!(
        loading::validate_package("root", &manifest, &raw, "schema", &index)
            .unwrap_err()
            .to_string(),
        "resident package circuit graph is invalid: no pedals"
    );
    let mut executions = answers(&manifest, evidence.clone());
    executions.executions = Err("wrong kernels".to_string());
    assert_eq!(
        loading::validate_package("root", &manifest, &raw, "schema", &executions)
            .unwrap_err()
            .to_string(),
        "wrong kernels"
    );
    let mut contract = answers(&manifest, evidence);
    contract.generation_contract = Err("no sampler".to_string());
    assert_eq!(
        loading::validate_package("root", &manifest, &raw, "schema", &contract)
            .unwrap_err()
            .to_string(),
        "no sampler"
    );
}
