use tenant_tail_core::bindings::{SbomFiles, SBOM_AUDIT_RELPATH, SBOM_BOM_RELPATH};
use tenant_tail_core::canonical::write_certificate_form;
use tenant_tail_core::certificate::{
    compute_certificate_hash, AgenticPostureBinding, BuildSpecRecord, CertAgenticSurface, CertificateStatus,
    ChainIntegrity, GovernanceCertificate, IntentRecord, ProofChainSummary, SigningAttestation,
    VerificationOutcome, VerificationRecord, VerificationResult, CERTIFICATE_VERSION,
};
use tenant_tail_core::json::JsonValue;
use tenant_tail_core::posture::{
    adjudicate_agentic_posture, agentic_posture_binding_inconsistencies, append_posture_binding_findings,
    first_watchlist_match_in_bom, first_watchlist_match_in_json, purl_matches, validate_governance_envelope_shape, PostureCrossCheckOutcome,
};

fn s(text: &str) -> JsonValue {
    JsonValue::Str(text.to_string())
}

fn obj(members: Vec<(&str, JsonValue)>) -> JsonValue {
    JsonValue::Object(members.into_iter().map(|(k, v)| (k.to_string(), v)).collect())
}

fn surface(kind: &str, envelope: Option<JsonValue>) -> CertAgenticSurface {
    CertAgenticSurface { kind: kind.to_string(), description: None, governance_envelope: envelope }
}

fn posture(level: &str, defaulted: bool, surfaces: Vec<CertAgenticSurface>) -> AgenticPostureBinding {
    AgenticPostureBinding { posture: level.to_string(), defaulted, surfaces }
}

fn valid_envelope() -> JsonValue {
    obj(vec![
        ("ceilings", obj(vec![])),
        ("constituents", obj(vec![])),
        ("emits", JsonValue::Array(vec![])),
        ("gates", JsonValue::Array(vec![])),
        ("overrides", obj(vec![])),
        ("process", obj(vec![("id", s("app-agent"))])),
        ("schema_version", s("1.3.0")),
    ])
}

fn component(name: &str, purl: &str) -> JsonValue {
    obj(vec![("name", s(name)), ("purl", s(purl))])
}

fn bom(components: Vec<JsonValue>) -> JsonValue {
    obj(vec![
        ("bomFormat", s("CycloneDX")),
        ("components", JsonValue::Array(components)),
        ("specVersion", s("1.5")),
    ])
}

/// A CycloneDX BOM's bytes with top-level components given as
/// `(name, purl)` pairs.
fn bom_bytes(components: &[(&str, &str)]) -> Vec<u8> {
    let items: Vec<String> =
        components.iter().map(|(n, p)| format!("{{\"name\":\"{n}\",\"purl\":\"{p}\"}}")).collect();
    format!("{{\"bomFormat\":\"CycloneDX\",\"specVersion\":\"1.5\",\"components\":[{}]}}", items.join(","))
        .into_bytes()
}

fn sbom_files(bom: Vec<u8>) -> SbomFiles {
    SbomFiles {
        bom_path: format!("/app/{SBOM_BOM_RELPATH}"),
        bom: Ok(bom),
        audit_path: format!("/app/{SBOM_AUDIT_RELPATH}"),
        audit: Ok(b"{}".to_vec()),
    }
}

fn minimal_cert() -> GovernanceCertificate {
    GovernanceCertificate {
        certificate_version: CERTIFICATE_VERSION.to_string(),
        pipeline_run_id: "test-run".to_string(),
        timestamp: "2026-07-01T00:00:00Z".to_string(),
        status: CertificateStatus::Complete,
        intent: IntentRecord { requirements_hash: String::new(), spec_id: None, spec_hash: None },
        build_spec: BuildSpecRecord { hash: String::new(), approval_record: None },
        stages: Vec::new(),
        verification: VerificationRecord {
            compile: VerificationOutcome::Skipped,
            test: VerificationOutcome::Skipped,
            lint: VerificationOutcome::Skipped,
            typecheck: VerificationOutcome::Skipped,
            security_scan: VerificationOutcome::Skipped,
        },
        proof_chain: ProofChainSummary {
            record_count: 0,
            first_record_hash: None,
            last_record_hash: None,
            chain_integrity: ChainIntegrity::Empty,
        },
        compliance: None,
        signer: None,
        inter_stage_chain: None,
        admitted_envelope_hash: None,
        goal_id: None,
        intent_capsule_hash: None,
        consumed_overrides: Vec::new(),
        corpus_binding: None,
        sbom_artifact_binding: None,
        agentic_posture_binding: None,
        certificate_hash: String::new(),
        signing_public_key: String::new(),
        cert_signature: String::new(),
        signing_attestation: SigningAttestation::default(),
        platform_countersign: None,
    }
}

fn empty_result() -> VerificationResult {
    VerificationResult { valid: true, errors: Vec::new(), notices: Vec::new() }
}

// Internal consistency (no BOM).

#[test]
fn posture_none_with_no_surfaces_is_consistent() {
    assert!(agentic_posture_binding_inconsistencies(&posture("none", true, vec![])).is_empty());
}

#[test]
fn posture_none_with_a_surface_is_inconsistent() {
    assert!(!agentic_posture_binding_inconsistencies(&posture("none", false, vec![surface("model-api", None)]))
        .is_empty());
}

#[test]
fn posture_declared_with_no_surfaces_is_inconsistent() {
    assert!(!agentic_posture_binding_inconsistencies(&posture("declared", false, vec![])).is_empty());
}

#[test]
fn posture_unknown_level_is_inconsistent() {
    assert!(!agentic_posture_binding_inconsistencies(&posture("maybe", false, vec![])).is_empty());
}

#[test]
fn posture_governed_missing_envelope_is_inconsistent() {
    let b = posture("governed", false, vec![surface("tool-surface", None)]);
    let errs = agentic_posture_binding_inconsistencies(&b);
    assert!(errs.iter().any(|e| e.contains("missing its")), "errs: {errs:?}");
}

#[test]
fn posture_governed_malformed_envelope_is_inconsistent() {
    let b = posture("governed", false, vec![surface("tool-surface", Some(obj(vec![("schema_version", s("1.3.0"))])))]);
    let errs = agentic_posture_binding_inconsistencies(&b);
    assert!(errs.iter().any(|e| e.contains("non-conformant")), "errs: {errs:?}");
}

#[test]
fn posture_governed_conformant_envelope_is_consistent() {
    let b = posture("governed", false, vec![surface("tool-surface", Some(valid_envelope()))]);
    assert!(agentic_posture_binding_inconsistencies(&b).is_empty());
}

// SBOM cross-check.

#[test]
fn crosscheck_unbound_when_no_binding() {
    assert_eq!(adjudicate_agentic_posture(None, None), PostureCrossCheckOutcome::Unbound);
}

#[test]
fn crosscheck_declared_is_not_falsifiable() {
    let b = posture("declared", false, vec![surface("model-api", None)]);
    assert_eq!(adjudicate_agentic_posture(Some(&b), None), PostureCrossCheckOutcome::Declared);
}

#[test]
fn crosscheck_none_without_dir_is_unverified() {
    let b = posture("none", true, vec![]);
    assert_eq!(adjudicate_agentic_posture(Some(&b), None), PostureCrossCheckOutcome::UnverifiedNoDir);
}

#[test]
fn crosscheck_none_contradicted_by_watchlisted_sdk() {
    let files = sbom_files(bom_bytes(&[("@anthropic-ai/sdk", "pkg:npm/%40anthropic-ai/sdk@0.20.0")]));
    let b = posture("none", true, vec![]);
    match adjudicate_agentic_posture(Some(&b), Some(&files)) {
        PostureCrossCheckOutcome::Contradicted { package, posture } => {
            assert_eq!(package, "@anthropic-ai/sdk");
            assert_eq!(posture, "none");
        }
        other => panic!("expected Contradicted, got {other:?}"),
    }
}

#[test]
fn crosscheck_none_consistent_with_plain_deps() {
    let files = sbom_files(bom_bytes(&[("react", "pkg:npm/react@18.3.0"), ("zod", "pkg:npm/zod@3.23.0")]));
    let b = posture("none", true, vec![]);
    assert_eq!(adjudicate_agentic_posture(Some(&b), Some(&files)), PostureCrossCheckOutcome::ConsistentNone);
}

#[test]
fn crosscheck_none_bom_unreadable_when_absent() {
    let files = SbomFiles {
        bom_path: format!("/tmp/app/{SBOM_BOM_RELPATH}"),
        bom: Err("No such file or directory (os error 2)".to_string()),
        audit_path: format!("/tmp/app/{SBOM_AUDIT_RELPATH}"),
        audit: Err("No such file or directory (os error 2)".to_string()),
    };
    let b = posture("none", true, vec![]);
    assert!(matches!(
        adjudicate_agentic_posture(Some(&b), Some(&files)),
        PostureCrossCheckOutcome::BomUnreadable { .. }
    ));
}

// The purl-matching anchor.

#[test]
fn purl_matcher_anchors_on_the_name_segment() {
    assert!(purl_matches("pkg:npm/ai@3.0.0", "ai", "npm"));
    assert!(!purl_matches("pkg:npm/%40langchain/ai@0.3.0", "ai", "npm"));
    assert!(!purl_matches("pkg:npm/@langchain/ai@0.3.0", "ai", "npm"));
    assert!(purl_matches("pkg:npm/%40anthropic-ai/sdk@0.20.0", "@anthropic-ai/sdk", "npm"));
    assert!(purl_matches("pkg:npm/@anthropic-ai/sdk@0.20.0", "@anthropic-ai/sdk", "npm"));
    assert!(purl_matches("pkg:npm/ai", "ai", "npm"));
    assert!(purl_matches("pkg:npm/openai@4.0.0?foo=bar", "openai", "npm"));
    assert!(!purl_matches("pkg:npm/aims@1.0.0", "ai", "npm"));
}

#[test]
fn purl_matcher_gates_on_ecosystem() {
    assert!(!purl_matches("pkg:pypi/openai@1.0.0", "openai", "npm"));
    assert!(!purl_matches("pkg:cargo/ai@0.1.0", "ai", "npm"));
    assert!(purl_matches("pkg:npm/openai@4.0.0", "openai", "npm"));
    assert!(purl_matches("pkg:NPM/openai@4.0.0", "openai", "npm"));
}

// Through the append hook.

#[test]
fn posture_findings_unbound_cert_is_notice_not_error() {
    let cert = minimal_cert();
    let mut result = empty_result();
    append_posture_binding_findings(&cert, None, &mut result);
    assert!(result.errors.is_empty());
    assert!(result.notices.iter().any(|n| n.contains("UNSTATED")), "{:?}", result.notices);
}

#[test]
fn posture_findings_contradicted_none_is_fatal() {
    let files = sbom_files(bom_bytes(&[("openai", "pkg:npm/openai@4.0.0")]));
    let mut cert = minimal_cert();
    cert.agentic_posture_binding = Some(posture("none", true, vec![]));
    let mut result = empty_result();
    append_posture_binding_findings(&cert, Some(&files), &mut result);
    assert!(
        result.errors.iter().any(|e| e.contains("contradicted") && e.contains("openai")),
        "{:?}",
        result.errors
    );
}

#[test]
fn posture_findings_unknown_posture_errors_without_declared_notice() {
    let mut cert = minimal_cert();
    cert.agentic_posture_binding = Some(posture("maybe", false, vec![]));
    let mut result = empty_result();
    append_posture_binding_findings(&cert, None, &mut result);
    assert!(result.errors.iter().any(|e| e.contains("unknown posture")), "{:?}", result.errors);
    assert!(!result.notices.iter().any(|n| n.contains("DECLARED")), "{:?}", result.notices);
}

#[test]
fn posture_binding_participates_in_certificate_hash() {
    let mut cert = minimal_cert();
    cert.agentic_posture_binding = Some(posture("none", true, vec![]));
    let h_none = compute_certificate_hash(&cert);
    cert.agentic_posture_binding = Some(posture("declared", false, vec![surface("model-api", None)]));
    let h_declared = compute_certificate_hash(&cert);
    assert_ne!(h_none, h_declared, "the posture binding must be inside the certificate hash");
}

#[test]
fn posture_binding_omitted_serialises_without_key() {
    let cert = minimal_cert();
    let mut json = String::new();
    write_certificate_form(&mut json, &cert, &String::new());
    assert!(!json.contains("agenticPostureBinding"));
}

#[test]
fn posture_binding_wire_form_is_camel_case() {
    let mut cert = minimal_cert();
    cert.agentic_posture_binding =
        Some(posture("governed", false, vec![surface("tool-surface", Some(valid_envelope()))]));
    let mut json = String::new();
    write_certificate_form(&mut json, &cert, &String::new());
    assert!(json.contains("\"posture\":\"governed\""));
    assert!(json.contains("\"defaulted\":false"));
    assert!(json.contains("\"kind\":\"tool-surface\""));
    assert!(json.contains("\"governanceEnvelope\":"));
}

// ---------- further cases ----------

#[test]
fn inconsistency_messages_are_exact() {
    assert_eq!(
        agentic_posture_binding_inconsistencies(&posture("none", false, vec![surface("a", None), surface("b", None)])),
        vec!["agentic_posture_binding: `none` must enumerate no surfaces, found 2".to_string()]
    );
    assert_eq!(
        agentic_posture_binding_inconsistencies(&posture("governed", false, vec![])),
        vec!["agentic_posture_binding: `governed` requires a non-empty surface enumeration".to_string()]
    );
    assert_eq!(
        agentic_posture_binding_inconsistencies(&posture(
            "governed",
            false,
            vec![surface("x", Some(valid_envelope())), surface("tool-surface", None)]
        )),
        vec!["agentic_posture_binding: `governed` surface #1 (tool-surface) is missing its governance_envelope"
            .to_string()]
    );
}

#[test]
fn envelope_shape_diagnostics() {
    assert_eq!(validate_governance_envelope_shape(&valid_envelope()), Ok(()));
    assert_eq!(
        validate_governance_envelope_shape(&obj(vec![("schema_version", s("1.3.0"))])),
        Err("missing field `process`".to_string())
    );
    assert_eq!(
        validate_governance_envelope_shape(&obj(vec![("gates", obj(vec![]))])),
        Err("invalid type: map, expected a sequence".to_string())
    );
    assert_eq!(
        validate_governance_envelope_shape(&obj(vec![("schema_version", JsonValue::Number("5".to_string()))])),
        Err("invalid type: integer `5`, expected a string".to_string())
    );
    assert_eq!(
        validate_governance_envelope_shape(&obj(vec![("process", JsonValue::Null)])),
        Err("invalid type: null, expected a map".to_string())
    );
    assert_eq!(
        validate_governance_envelope_shape(&s("x")),
        Err("invalid type: string \"x\", expected struct GovernanceEnvelopeShape".to_string())
    );
    assert_eq!(
        validate_governance_envelope_shape(&JsonValue::Array(vec![
            s("1.3.0"),
            obj(vec![]),
            obj(vec![]),
            JsonValue::Array(vec![]),
            JsonValue::Array(vec![]),
            obj(vec![]),
            obj(vec![])
        ])),
        Err("invalid type: sequence, expected struct GovernanceEnvelopeShape".to_string())
    );
    assert_eq!(
        validate_governance_envelope_shape(&JsonValue::Bool(true)),
        Err("invalid type: boolean `true`, expected struct GovernanceEnvelopeShape".to_string())
    );
}

#[test]
fn bom_walk_finds_nested_components_and_name_fallback() {
    let nested = obj(vec![
        ("name", s("wrapper")),
        ("purl", s("pkg:npm/wrapper@1.0.0")),
        ("components", JsonValue::Array(vec![component("langchain", "pkg:npm/langchain@0.2.0")])),
    ]);
    let found = first_watchlist_match_in_json(&bom(vec![component("react", "pkg:npm/react@18.0.0"), nested]));
    assert_eq!(found.as_deref(), Some("langchain"));
    let by_name = bom(vec![obj(vec![("name", s("ollama"))])]);
    assert_eq!(first_watchlist_match_in_json(&by_name).as_deref(), Some("ollama"));
    let pypi = bom(vec![component("openai", "pkg:pypi/openai@1.0.0")]);
    assert_eq!(first_watchlist_match_in_json(&pypi), None);
    assert_eq!(first_watchlist_match_in_bom(b"not json"), None);
    assert_eq!(
        first_watchlist_match_in_bom(&bom_bytes(&[("x", "pkg:npm/%40google/genai@1.0.0")])).as_deref(),
        Some("@google/genai")
    );
}

#[test]
fn bom_walk_gives_up_below_depth_64() {
    let mut node = bom(vec![component("openai", "pkg:npm/openai@4.0.0")]);
    for _ in 0..65 {
        node = obj(vec![("components", JsonValue::Array(vec![node]))]);
    }
    assert_eq!(first_watchlist_match_in_json(&node), None);
    let mut shallow = bom(vec![component("openai", "pkg:npm/openai@4.0.0")]);
    for _ in 0..64 {
        shallow = obj(vec![("components", JsonValue::Array(vec![shallow]))]);
    }
    assert_eq!(first_watchlist_match_in_json(&shallow).as_deref(), Some("openai"));
}

#[test]
fn posture_notice_texts() {
    let mut cert = minimal_cert();
    cert.agentic_posture_binding = Some(posture("none", true, vec![]));
    let mut result = empty_result();
    append_posture_binding_findings(&cert, None, &mut result);
    assert_eq!(
        result.notices,
        vec!["agentic posture: none, PRESENT-BUT-UNVERIFIED (supply --sbom-dir to cross-check against the BOM)"
            .to_string()]
    );
    let files = sbom_files(bom_bytes(&[]));
    let mut result = empty_result();
    append_posture_binding_findings(&cert, Some(&files), &mut result);
    assert!(result.notices[0].starts_with("agentic posture: none, no watchlisted"), "{:?}", result.notices);
    assert!(result.errors.is_empty());
}
