use tenant_tail_core::bindings::{
    adjudicate_corpus_binding_state, adjudicate_sbom_binding_state, append_corpus_binding_findings,
    append_sbom_binding_findings, CorpusBindingState, SbomBindingState, SbomFiles, SBOM_AUDIT_RELPATH,
    SBOM_BOM_RELPATH,
};
use tenant_tail_core::canonical::write_certificate_form;
use tenant_tail_core::certificate::{
    BuildSpecRecord, CertificateStatus, ChainIntegrity, CorpusBinding, GovernanceCertificate, IntentRecord,
    ProofChainSummary, SbomArtifactBinding, SigningAttestation, VerificationOutcome, VerificationRecord,
    VerificationResult, CERTIFICATE_VERSION,
};
use tenant_tail_core::digest::sha256_bytes;

fn binding_for(attestation: &[u8]) -> CorpusBinding {
    CorpusBinding { corpus_attestation_hash: sha256_bytes(attestation), spec_spine_version: "0.4.0".to_string() }
}

fn sbom_binding_for(bom: &[u8], audit: &[u8]) -> SbomArtifactBinding {
    SbomArtifactBinding {
        bom_hash: sha256_bytes(bom),
        audit_hash: sha256_bytes(audit),
        bom_tool_version: "4.0.0".to_string(),
    }
}

fn files(bom: Result<&[u8], &str>, audit: Result<&[u8], &str>) -> SbomFiles {
    SbomFiles {
        bom_path: format!("/app/{SBOM_BOM_RELPATH}"),
        bom: bom.map(|b| b.to_vec()).map_err(|e| e.to_string()),
        audit_path: format!("/app/{SBOM_AUDIT_RELPATH}"),
        audit: audit.map(|b| b.to_vec()).map_err(|e| e.to_string()),
    }
}

fn minimal_cert(sbom_artifact_binding: Option<SbomArtifactBinding>) -> GovernanceCertificate {
    GovernanceCertificate {
        certificate_version: CERTIFICATE_VERSION.to_string(),
        pipeline_run_id: "test-run".to_string(),
        timestamp: "2026-07-01T00:00:00Z".to_string(),
        status: CertificateStatus::Complete,
        intent: IntentRecord { requirements_hash: String::new(), spec_id: None, spec_hash: None },
        build_spec: BuildSpecRecord { hash: String::new(), approval_record: None },
        stages: Vec::new(),
        verification: VerificationRecord {
            compile: VerificationOutcome::Skipped,
            test: VerificationOutcome::Skipped,
            lint: VerificationOutcome::Skipped,
            typecheck: VerificationOutcome::Skipped,
            security_scan: VerificationOutcome::Skipped,
        },
        proof_chain: ProofChainSummary {
            record_count: 0,
            first_record_hash: None,
            last_record_hash: None,
            chain_integrity: ChainIntegrity::Empty,
        },
        compliance: None,
        signer: None,
        inter_stage_chain: None,
        admitted_envelope_hash: None,
        goal_id: None,
        intent_capsule_hash: None,
        consumed_overrides: Vec::new(),
        corpus_binding: None,
        sbom_artifact_binding,
        agentic_posture_binding: None,
        certificate_hash: String::new(),
        signing_public_key: String::new(),
        cert_signature: String::new(),
        signing_attestation: SigningAttestation::default(),
        platform_countersign: None,
    }
}

fn empty_result() -> VerificationResult {
    VerificationResult { valid: true, errors: Vec::new(), notices: Vec::new() }
}

fn canonical(cert: &GovernanceCertificate) -> String {
    let mut out = String::new();
    write_certificate_form(&mut out, cert, &String::new());
    out
}

#[test]
fn corpus_binding_absent_is_unbound() {
    assert_eq!(adjudicate_corpus_binding_state(None, None), CorpusBindingState::Unbound);
    assert_eq!(adjudicate_corpus_binding_state(None, Some(b"anything")), CorpusBindingState::Unbound);
}

#[test]
fn corpus_binding_present_no_attestation_is_present_but_unverified() {
    let binding = binding_for(b"corpus-attestation-bytes");
    assert_eq!(adjudicate_corpus_binding_state(Some(&binding), None), CorpusBindingState::PresentButUnverified);
}

#[test]
fn corpus_binding_matching_attestation_is_verified() {
    let attestation = b"the upstream corpus attestation artifact";
    let binding = binding_for(attestation);
    assert_eq!(adjudicate_corpus_binding_state(Some(&binding), Some(attestation)), CorpusBindingState::Verified);
}

#[test]
fn corpus_binding_mismatched_attestation_is_mismatch() {
    let binding = binding_for(b"the attestation the cert was bound to");
    let supplied = b"a different attestation entirely";
    match adjudicate_corpus_binding_state(Some(&binding), Some(supplied)) {
        CorpusBindingState::Mismatch { claimed, actual } => {
            assert_eq!(claimed, binding.corpus_attestation_hash);
            assert_eq!(actual, sha256_bytes(supplied));
            assert_ne!(claimed, actual, "the whole point is they differ");
        }
        other => panic!("expected Mismatch, got {other:?}"),
    }
}

#[test]
fn corpus_binding_is_omitted_when_absent() {
    let mut cert = minimal_cert(None);
    assert!(!canonical(&cert).contains("corpusBinding"));
    cert.corpus_binding = Some(binding_for(b"x"));
    let json = canonical(&cert);
    assert!(json.contains("corpusAttestationHash"));
    assert!(json.contains("specSpineVersion"));
}

#[test]
fn sbom_binding_absent_is_unbound() {
    assert_eq!(adjudicate_sbom_binding_state(None, None), SbomBindingState::Unbound);
    let f = files(Ok(b"bom"), Ok(b"audit"));
    assert_eq!(adjudicate_sbom_binding_state(None, Some(&f)), SbomBindingState::Unbound);
}

#[test]
fn sbom_binding_present_no_dir_is_present_but_unverified() {
    let binding = sbom_binding_for(b"bom-bytes", b"audit-bytes");
    assert_eq!(adjudicate_sbom_binding_state(Some(&binding), None), SbomBindingState::PresentButUnverified);
}

#[test]
fn sbom_binding_matching_artifacts_is_verified() {
    let bom = b"cyclonedx-bom-bytes";
    let audit = b"npm-audit-bytes";
    let binding = sbom_binding_for(bom, audit);
    let f = files(Ok(bom), Ok(audit));
    assert_eq!(adjudicate_sbom_binding_state(Some(&binding), Some(&f)), SbomBindingState::Verified);
}

#[test]
fn sbom_binding_tampered_bom_is_bom_mismatch() {
    let bom = b"cyclonedx-bom-bytes";
    let audit = b"npm-audit-bytes";
    let binding = sbom_binding_for(bom, audit);
    let f = files(Ok(b"TAMPERED BOM CONTENT"), Ok(audit));
    match adjudicate_sbom_binding_state(Some(&binding), Some(&f)) {
        SbomBindingState::BomMismatch { claimed, actual } => {
            assert_eq!(claimed, binding.bom_hash);
            assert_ne!(claimed, actual, "the whole point is they differ");
        }
        other => panic!("expected BomMismatch, got {other:?}"),
    }
}

#[test]
fn sbom_binding_tampered_audit_is_audit_mismatch() {
    let bom = b"cyclonedx-bom-bytes";
    let audit = b"npm-audit-bytes";
    let binding = sbom_binding_for(bom, audit);
    let f = files(Ok(bom), Ok(b"TAMPERED AUDIT CONTENT"));
    match adjudicate_sbom_binding_state(Some(&binding), Some(&f)) {
        SbomBindingState::AuditMismatch { claimed, actual } => {
            assert_eq!(claimed, binding.audit_hash);
            assert_ne!(claimed, actual, "the whole point is they differ");
        }
        other => panic!("expected AuditMismatch, got {other:?}"),
    }
}

#[test]
fn sbom_binding_missing_artifact_is_unreadable() {
    let binding = sbom_binding_for(b"bom", b"audit");
    let f = files(Err("No such file or directory (os error 2)"), Err("No such file or directory (os error 2)"));
    match adjudicate_sbom_binding_state(Some(&binding), Some(&f)) {
        SbomBindingState::Unreadable { path, .. } => {
            assert!(path.ends_with("sbom.cdx.json"), "path: {path}");
        }
        other => panic!("expected Unreadable, got {other:?}"),
    }
}

#[test]
fn sbom_binding_is_omitted_when_absent() {
    let mut cert = minimal_cert(None);
    assert!(!canonical(&cert).contains("sbomArtifactBinding"));
    cert.sbom_artifact_binding = Some(sbom_binding_for(b"x", b"y"));
    let json = canonical(&cert);
    assert!(json.contains("bomHash"));
    assert!(json.contains("auditHash"));
    assert!(json.contains("bomToolVersion"));
}

#[test]
fn sbom_findings_unbound_cert_is_notice_not_error() {
    let cert = minimal_cert(None);
    let mut result = empty_result();
    append_sbom_binding_findings(&cert, None, &mut result);
    assert!(result.errors.is_empty(), "unbound must not error");
    assert!(result.notices.iter().any(|n| n.contains("sbom-UNBOUND")), "{:?}", result.notices);
}

#[test]
fn sbom_findings_matching_artifacts_pass_with_sbom_dir() {
    let bom = b"cyclonedx-bom-bytes";
    let audit = b"npm-audit-bytes";
    let cert = minimal_cert(Some(sbom_binding_for(bom, audit)));
    let f = files(Ok(bom), Ok(audit));
    let mut result = empty_result();
    append_sbom_binding_findings(&cert, Some(&f), &mut result);
    assert!(result.errors.is_empty(), "matching artifacts must not error: {:?}", result.errors);
    assert!(result.notices.iter().any(|n| n.contains("VERIFIED")), "{:?}", result.notices);
}

#[test]
fn sbom_findings_tampered_bom_fails_with_bom_mismatch_finding() {
    let bom = b"cyclonedx-bom-bytes";
    let audit = b"npm-audit-bytes";
    let cert = minimal_cert(Some(sbom_binding_for(bom, audit)));
    let f = files(Ok(b"TAMPERED BOM"), Ok(audit));
    let mut result = empty_result();
    append_sbom_binding_findings(&cert, Some(&f), &mut result);
    assert!(
        result.errors.iter().any(|e| e.contains("sbom binding MISMATCH") && e.contains("bomHash")),
        "{:?}",
        result.errors
    );
}

// ---------- further cases ----------

#[test]
fn corpus_findings_text_for_each_state() {
    let mut cert = minimal_cert(None);
    let mut result = empty_result();
    append_corpus_binding_findings(&cert, None, &mut result);
    assert_eq!(
        result.notices,
        vec!["certificate is corpus-UNBOUND: no corpus_binding present -- the run is not bound by reference to a corpus attestation".to_string()]
    );
    assert!(result.errors.is_empty());

    let attestation = b"attestation";
    cert.corpus_binding = Some(binding_for(attestation));
    let mut result = empty_result();
    append_corpus_binding_findings(&cert, Some(b"other bytes"), &mut result);
    assert_eq!(result.errors.len(), 1);
    assert!(result.errors[0].starts_with("corpus binding MISMATCH"), "{:?}", result.errors);
    assert!(result.errors[0].contains(&sha256_bytes(b"other bytes")));
    assert!(result.valid, "recording a finding leaves `valid` to the caller");

    let mut result = empty_result();
    append_corpus_binding_findings(&cert, Some(attestation), &mut result);
    assert!(result.errors.is_empty());
    assert!(result.notices[0].starts_with("corpus binding VERIFIED"), "{:?}", result.notices);
}

#[test]
fn sbom_audit_unreadable_names_the_audit_path() {
    let bom = b"bom";
    let binding = sbom_binding_for(bom, b"audit");
    let f = files(Ok(bom), Err("permission denied"));
    assert_eq!(
        adjudicate_sbom_binding_state(Some(&binding), Some(&f)),
        SbomBindingState::Unreadable {
            path: format!("/app/{SBOM_AUDIT_RELPATH}"),
            error: "permission denied".to_string()
        }
    );
}
