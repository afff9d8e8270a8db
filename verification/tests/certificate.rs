use base64::engine::general_purpose::STANDARD as B64;
use base64::engine::general_purpose::URL_SAFE_NO_PAD as B64URL;
use base64::Engine;
use ed25519_dalek::{Signer, SigningKey};
use tenant_tail_core::canonical::write_certificate_form;
use tenant_tail_core::certificate::{
    artifact_reads, compute_certificate_hash, ensure_in_tree, verify_certificate, verify_certificate_signature,
    ArtifactFile, BuildSpecRecord, CertificateStatus, ChainIntegrity, GovernanceCertificate, IntentRecord,
    PlatformCountersign, ProofChainSummary, SigningAttestation, StageOutcome, StageRecord, VerificationOutcome,
    VerificationRecord, CERTIFICATE_VERSION,
};
use tenant_tail_core::digest::sha256_bytes;
use tenant_tail_core::sorted_map::SortedMap;
use tenant_tail_core::jws::{PlatformJwk, PlatformJwks};
use tenant_tail_core::platform::verify_certificate_with_platform;
use tenant_tail_core::report::{certificate_report, provenance_exit, verify_certificate_command};
use tenant_tail_core::validation::{require_spec_id_resolution_enabled, validate_spec_id_resolution, ValidationWarning};

fn minimal_cert() -> GovernanceCertificate {
    GovernanceCertificate {
        certificate_version: CERTIFICATE_VERSION.to_string(),
        pipeline_run_id: "test-run".to_string(),
        timestamp: "2026-07-01T00:00:00Z".to_string(),
        status: CertificateStatus::Complete,
        intent: IntentRecord { requirements_hash: "req".to_string(), spec_id: None, spec_hash: None },
        build_spec: BuildSpecRecord { hash: "spec".to_string(), approval_record: None },
        stages: Vec::new(),
        verification: VerificationRecord {
            compile: VerificationOutcome::Passed,
            test: VerificationOutcome::Passed,
            lint: VerificationOutcome::Skipped,
            typecheck: VerificationOutcome::Passed,
            security_scan: VerificationOutcome::Skipped,
        },
        proof_chain: ProofChainSummary {
            record_count: 3,
            first_record_hash: Some("first".to_string()),
            last_record_hash: Some("last".to_string()),
            chain_integrity: ChainIntegrity::Verified,
        },
        compliance: None,
        signer: None,
        inter_stage_chain: None,
        admitted_envelope_hash: None,
        goal_id: None,
        intent_capsule_hash: None,
        consumed_overrides: Vec::new(),
        corpus_binding: None,
        sbom_artifact_binding: None,
        agentic_posture_binding: None,
        certificate_hash: String::new(),
        signing_public_key: String::new(),
        cert_signature: String::new(),
        signing_attestation: SigningAttestation::default(),
        platform_countersign: None,
    }
}

fn key() -> SigningKey {
    SigningKey::from_bytes(&[7u8; 32])
}

/// Record the public key, the self-hash and the engine signature, as an
/// emitter does.
fn sign(cert: &mut GovernanceCertificate) {
    let k = key();
    cert.signing_public_key = B64.encode(k.verifying_key().to_bytes());
    cert.certificate_hash = compute_certificate_hash(cert);
    let mut canonical = String::new();
    let hash = cert.certificate_hash.clone();
    write_certificate_form(&mut canonical, cert, &hash);
    cert.cert_signature = B64.encode(k.sign(canonical.as_bytes()).to_bytes());
}

fn stage_with_artifact(stage_id: &str, artifact_name: &str, hash: &str) -> StageRecord {
    StageRecord {
        stage_id: stage_id.to_string(),
        status: StageOutcome::Passed,
        artifact_hashes: SortedMap::from_entries(vec![(artifact_name.to_string(), hash.to_string())]),
        gate_result: None,
        duration_ms: None,
        sandbox_execution: None,
    }
}

fn seal() -> PlatformCountersign {
    PlatformCountersign {
        countersign_jws: "header.payload.signature".to_string(),
        kid: "platform-1".to_string(),
        countersigned_at: "2026-07-02T00:00:00Z".to_string(),
    }
}

#[test]
fn certificate_verifies_without_artifact_dir() {
    let mut cert = minimal_cert();
    sign(&mut cert);
    let result = verify_certificate(&cert, None);
    assert!(result.valid, "errors: {:?}", result.errors);
    assert!(result.errors.is_empty());
    assert!(result.notices.is_empty());
}

#[test]
fn tampered_field_breaks_signature_and_hash() {
    let mut cert = minimal_cert();
    sign(&mut cert);
    cert.pipeline_run_id = "tampered-run".to_string();
    let result = verify_certificate(&cert, None);
    assert!(!result.valid);
    assert!(result.errors.iter().any(|e| e.contains("signature")), "{:?}", result.errors);
    assert!(result.errors.iter().any(|e| e.contains("hash mismatch")), "{:?}", result.errors);
}

#[test]
fn tampered_artifact_on_disk_is_rejected() {
    let mut cert = minimal_cert();
    cert.stages.push(stage_with_artifact("s0", "out.txt", &sha256_bytes(b"built output")));
    sign(&mut cert);
    assert_eq!(artifact_reads(&cert), vec![("s0".to_string(), "out.txt".to_string())]);
    let good = vec![ArtifactFile { stage_id: "s0".into(), artifact_name: "out.txt".into(), contents: Ok(b"built output".to_vec()) }];
    assert!(verify_certificate(&cert, Some(&good)).valid);
    let bad = vec![ArtifactFile { stage_id: "s0".into(), artifact_name: "out.txt".into(), contents: Ok(b"tampered".to_vec()) }];
    let result = verify_certificate(&cert, Some(&bad));
    assert!(!result.valid);
    assert_eq!(
        result.errors,
        vec![format!(
            "artifact hash mismatch: s0/out.txt: expected {}, got {}",
            sha256_bytes(b"built output"),
            sha256_bytes(b"tampered")
        )]
    );
}

#[test]
fn unsealed_fixture_fails_closed_when_seal_required() {
    let mut cert = minimal_cert();
    sign(&mut cert);
    let result = verify_certificate_with_platform(&cert, None, None, true, None, None);
    assert!(!result.valid);
    assert!(result.errors.iter().any(|e| e.contains("UNSEALED")), "{:?}", result.errors);
}

#[test]
fn unsealed_fixture_is_a_notice_when_unsealed_allowed() {
    let mut cert = minimal_cert();
    sign(&mut cert);
    let result = verify_certificate_with_platform(&cert, None, None, false, None, None);
    assert!(result.valid, "{:?}", result.errors);
    assert!(result.notices.iter().any(|n| n.contains("verifiable-but-UNSEALED")), "{:?}", result.notices);
}

#[test]
fn artifact_name_traversal_is_refused_not_read() {
    let mut cert = minimal_cert();
    cert.stages.push(stage_with_artifact("s0", "../../../../etc/passwd", "deadbeef"));
    assert!(artifact_reads(&cert).is_empty());
    let result = verify_certificate(&cert, Some(&Vec::new()));
    assert!(result.errors.iter().any(|e| e.contains("escapes --artifact-dir")), "{:?}", result.errors);
}

#[test]
fn absolute_artifact_name_is_refused() {
    let mut cert = minimal_cert();
    cert.stages.push(stage_with_artifact("s0", "/etc/passwd", "deadbeef"));
    let result = verify_certificate(&cert, Some(&Vec::new()));
    assert!(result.errors.iter().any(|e| e.contains("escapes --artifact-dir")), "{:?}", result.errors);
}

#[test]
fn absolute_stage_id_is_refused() {
    let mut cert = minimal_cert();
    cert.stages.push(stage_with_artifact("/abs-stage", "ok.txt", "deadbeef"));
    let result = verify_certificate(&cert, Some(&Vec::new()));
    assert!(result.errors.iter().any(|e| e.contains("escapes --artifact-dir")), "{:?}", result.errors);
}

// ---------- further cases ----------

#[test]
fn ensure_in_tree_accepts_plain_relative_paths() {
    assert_eq!(ensure_in_tree("artifact name", "a/b.txt"), Ok(()));
    assert_eq!(ensure_in_tree("artifact name", "./a..b/c"), Ok(()));
    assert_eq!(
        ensure_in_tree("stage id", "a/../b"),
        Err("refusing to read stage id \"a/../b\": path escapes --artifact-dir (absolute path or `..` traversal in an untrusted certificate field)".to_string())
    );
    assert!(ensure_in_tree("stage id", "..").is_err());
}

#[test]
fn unsigned_certificate_is_rejected() {
    let cert = minimal_cert();
    assert_eq!(
        verify_certificate_signature(&cert),
        Err("certificate is unsigned (signing_public_key empty) -- rejected".to_string())
    );
    let mut cert = minimal_cert();
    cert.signing_public_key = B64.encode(key().verifying_key().to_bytes());
    assert_eq!(
        verify_certificate_signature(&cert),
        Err("certificate is unsigned (cert_signature empty) -- rejected".to_string())
    );
    cert.cert_signature = B64.encode([1u8; 10]);
    assert_eq!(verify_certificate_signature(&cert), Err("cert_signature length 10 != 64".to_string()));
    cert.signing_public_key = "!!".to_string();
    assert!(verify_certificate_signature(&cert).unwrap_err().starts_with("signing_public_key base64 decode: "));
}

#[test]
fn hash_ignores_signature_and_seal() {
    let mut cert = minimal_cert();
    sign(&mut cert);
    let h = compute_certificate_hash(&cert);
    assert_eq!(h, cert.certificate_hash);
    cert.cert_signature = "changed".to_string();
    cert.platform_countersign = Some(seal());
    assert_eq!(compute_certificate_hash(&cert), h);
}

#[test]
fn sealing_keeps_the_offline_chain_valid() {
    let mut cert = minimal_cert();
    sign(&mut cert);
    cert.platform_countersign = Some(seal());
    assert!(verify_certificate(&cert, None).valid);
}

#[test]
fn wrong_version_is_reported() {
    let mut cert = minimal_cert();
    cert.certificate_version = "9.9.9".to_string();
    sign(&mut cert);
    assert_eq!(verify_certificate(&cert, None).errors, vec!["unsupported certificate version: 9.9.9".to_string()]);
}

fn platform_key() -> SigningKey {
    SigningKey::from_bytes(&[5u8; 32])
}

fn platform_jwks() -> PlatformJwks {
    PlatformJwks {
        keys: vec![PlatformJwk {
            kty: "OKP".to_string(),
            crv: Some("Ed25519".to_string()),
            kid: "platform-1".to_string(),
            x: B64URL.encode(platform_key().verifying_key().to_bytes()),
        }],
    }
}

const SEAL_HEADER: &str = r#"{"alg":"EdDSA","kid":"platform-1","typ":"oap-cert-countersign+jws"}"#;

/// A compact JWS over `header` and `payload`, signed by the platform key.
fn compact_jws(header: &str, payload: &str) -> String {
    let input = format!("{}.{}", B64URL.encode(header), B64URL.encode(payload));
    let sig = platform_key().sign(input.as_bytes());
    format!("{input}.{}", B64URL.encode(sig.to_bytes()))
}

/// A countersign whose payload claims `claim` as the certificate hash.
fn countersign(claim: Option<&str>) -> PlatformCountersign {
    let payload = match claim {
        Some(h) => format!(r#"{{"certificate_sha256":"{h}","run_id":"plat-run","grant_count":4}}"#),
        None => r#"{"run_id":"plat-run","grant_count":4}"#.to_string(),
    };
    PlatformCountersign {
        countersign_jws: compact_jws(SEAL_HEADER, &payload),
        kid: "platform-1".to_string(),
        countersigned_at: "2026-07-02T00:00:00Z".to_string(),
    }
}

/// A signed certificate sealed by a countersign claiming its own hash.
fn sealed_cert() -> GovernanceCertificate {
    let mut cert = minimal_cert();
    sign(&mut cert);
    let hash = cert.certificate_hash.clone();
    cert.platform_countersign = Some(countersign(Some(&hash)));
    cert
}

#[test]
fn seal_binding_this_certificate_is_verified() {
    let cert = sealed_cert();
    let jwks = platform_jwks();
    let result = verify_certificate_with_platform(&cert, None, Some(&jwks), true, None, None);
    assert!(result.valid, "{:?}", result.errors);
    assert_eq!(result.notices[0], "platform countersign VERIFIED (kid platform-1, platform run plat-run, 4 grant(s) in chain)");
}

#[test]
fn seal_for_another_certificate_or_none_fails() {
    let jwks = platform_jwks();
    let mut cert = sealed_cert();
    cert.platform_countersign = Some(countersign(Some(&"0".repeat(64))));
    let result = verify_certificate_with_platform(&cert, None, Some(&jwks), false, None, None);
    assert!(!result.valid);
    assert!(result.errors[0].starts_with("platform countersign binds certificate hash 000"), "{:?}", result.errors);
    cert.platform_countersign = Some(countersign(None));
    let result = verify_certificate_with_platform(&cert, None, Some(&jwks), false, None, None);
    assert_eq!(
        result.errors,
        vec!["platform countersign carries no certificate_sha256 claim -- it binds no certificate".to_string()]
    );
    let mut forged = sealed_cert();
    let mut jws = forged.platform_countersign.as_ref().unwrap().countersign_jws.clone();
    let last = jws.pop().unwrap();
    jws.push(if last == 'A' { 'B' } else { 'A' });
    forged.platform_countersign.as_mut().unwrap().countersign_jws = jws;
    let result = verify_certificate_with_platform(&forged, None, Some(&jwks), false, None, None);
    assert_eq!(result.errors.len(), 1);
    assert!(result.errors[0].starts_with("platform countersign invalid: "), "{:?}", result.errors);
}

#[test]
fn seal_envelope_hash_must_agree_with_the_certificate() {
    let jwks = platform_jwks();
    let mut cert = minimal_cert();
    cert.admitted_envelope_hash = Some("env-a".to_string());
    sign(&mut cert);
    let payload = format!(r#"{{"certificate_sha256":"{}","envelope_hash":"env-b"}}"#, cert.certificate_hash);
    cert.platform_countersign = Some(PlatformCountersign {
        countersign_jws: compact_jws(SEAL_HEADER, &payload),
        kid: "platform-1".to_string(),
        countersigned_at: "2026-07-02T00:00:00Z".to_string(),
    });
    let result = verify_certificate_with_platform(&cert, None, Some(&jwks), true, None, None);
    assert_eq!(
        result.errors,
        vec!["platform countersign binds envelope hash env-b but the certificate's admittedEnvelopeHash is env-a"
            .to_string()]
    );
}

#[test]
fn seal_without_keyset_fails_closed_unless_allowed() {
    let mut cert = minimal_cert();
    cert.platform_countersign = Some(seal());
    sign(&mut cert);
    let strict = verify_certificate_with_platform(&cert, None, None, true, None, None);
    assert!(!strict.valid);
    assert!(strict.errors[0].contains("no JWKS was provided"), "{:?}", strict.errors);
    let lax = verify_certificate_with_platform(&cert, None, None, false, None, None);
    assert!(lax.valid);
    assert!(lax.notices[0].contains("NOT verified"), "{:?}", lax.notices);
}

#[test]
fn report_for_valid_and_invalid_results() {
    let mut cert = sealed_cert();
    let jwks = platform_jwks();
    let result = verify_certificate_with_platform(&cert, None, Some(&jwks), true, None, None);
    let report = certificate_report(&cert, &result);
    assert_eq!(report.exit_code, 0);
    assert_eq!(report.headline, "governance certificate VERIFIED (pipeline: test-run, status: Complete)\n");
    assert_eq!(report.detail_lines[0], "  stages: 0");
    assert_eq!(report.detail_lines[1], "  proof chain records: 3");
    assert_eq!(report.detail_lines[2], format!("  certificate hash: {}", &cert.certificate_hash[..16]));
    assert_eq!(report.detail_lines[3], "  platform seal: present");
    assert!(report.notice_lines[0].starts_with("notice: platform countersign VERIFIED"));

    cert.pipeline_run_id = "other".to_string();
    let result = verify_certificate_with_platform(&cert, None, None, true, None, None);
    let report = certificate_report(&cert, &result);
    assert_eq!(report.exit_code, 1);
    assert_eq!(report.headline, format!("governance certificate INVALID ({} error(s))\n", result.errors.len()));
    assert_eq!(report.detail_lines.len(), result.errors.len());
    assert!(report.detail_lines.iter().all(|l| l.starts_with("  - ")));
}

#[test]
fn provenance_exit_rules() {
    assert_eq!(provenance_exit(None, false, true, 5), (0, None));
    assert_eq!(provenance_exit(Some("boom"), false, false, 0), (1, Some("error: validator panic (fail-closed) -- boom".to_string())));
    assert_eq!(
        provenance_exit(None, true, true, 0).1.unwrap(),
        "provenance verification FAILED: no BRD found under the project; nothing was verified (--fail-on-rejected)"
    );
    assert_eq!(
        provenance_exit(None, true, false, 2),
        (1, Some("provenance verification FAILED: 2 rejected claim(s) (--fail-on-rejected)".to_string()))
    );
    assert_eq!(provenance_exit(None, true, false, 0), (0, None));
}

#[test]
fn validation_warning_kinds_and_opt_in() {
    let w = ValidationWarning::SpecIdNotResolved { spec_id: "S-1".into(), registry_path: "r.json".into() };
    assert_eq!(w.kind(), "spec-id-not-resolved");
    let w = ValidationWarning::RegistryNotLoadable { registry_path: "r.json".into(), error: "gone".into() };
    assert_eq!(w.kind(), "registry-not-loadable");
    assert!(require_spec_id_resolution_enabled(Some("1")));
    assert!(require_spec_id_resolution_enabled(Some("true")));
    assert!(require_spec_id_resolution_enabled(Some("yes")));
    assert!(!require_spec_id_resolution_enabled(Some("TRUE")));
    assert!(!require_spec_id_resolution_enabled(None));
}

#[test]
fn allowing_unsealed_only_drops_the_refusal() {
    let mut cert = minimal_cert();
    sign(&mut cert);
    cert.pipeline_run_id = "tampered".to_string();
    let strict = verify_certificate_with_platform(&cert, None, None, true, None, None);
    let lax = verify_certificate_with_platform(&cert, None, None, false, None, None);
    let chain_errors = verify_certificate(&cert, None).errors;
    let mut expected = lax.errors.clone();
    expected.insert(chain_errors.len(), strict.errors[chain_errors.len()].clone());
    assert!(strict.errors[chain_errors.len()].contains("UNSEALED"));
    assert_eq!(strict.errors, expected);
    assert_eq!(lax.notices[0], "certificate is verifiable-but-UNSEALED: the offline chain holds, but no platform countersign binds this run to its admission contract; accepted under --allow-unsealed");
    assert_eq!(&lax.notices[1..], &strict.notices[..]);
}

#[test]
fn checked_seal_is_judged_the_same_either_way() {
    let jwks = platform_jwks();
    let good = sealed_cert();
    let mut unbound = sealed_cert();
    unbound.platform_countersign = Some(countersign(None));
    let mut garbled = sealed_cert();
    garbled.platform_countersign.as_mut().unwrap().countersign_jws = "x".to_string();
    for cert in [good, unbound, garbled] {
        let strict = verify_certificate_with_platform(&cert, None, Some(&jwks), true, None, None);
        let lax = verify_certificate_with_platform(&cert, None, Some(&jwks), false, None, None);
        assert_eq!(strict.errors, lax.errors);
        assert_eq!(strict.notices, lax.notices);
        assert_eq!(strict.valid, lax.valid);
    }
}

#[test]
fn report_of_invalid_result_with_multibyte_hash() {
    let mut cert = minimal_cert();
    sign(&mut cert);
    cert.certificate_hash = format!("{}é{}", "a".repeat(15), "b".repeat(40));
    let result = verify_certificate_with_platform(&cert, None, None, true, None, None);
    assert!(!result.valid);
    let report = certificate_report(&cert, &result);
    assert_eq!(report.exit_code, 1);
    assert_eq!(report.headline, format!("governance certificate INVALID ({} error(s))\n", result.errors.len()));
}

#[test]
fn spec_id_resolution_findings() {
    let path = "repo/.derived/spec-registry/registry.json";
    let mut cert = minimal_cert();
    let ids = Ok(vec!["S-1".to_string(), "S-2".to_string()]);
    assert!(validate_spec_id_resolution(&cert, path, &ids).is_empty());
    cert.intent.spec_id = Some("S-2".to_string());
    assert!(validate_spec_id_resolution(&cert, path, &ids).is_empty());
    cert.intent.spec_id = Some("S-9".to_string());
    assert_eq!(
        validate_spec_id_resolution(&cert, path, &ids),
        vec![ValidationWarning::SpecIdNotResolved { spec_id: "S-9".into(), registry_path: path.into() }]
    );
    let missing: Result<Vec<String>, String> = Err("no such file".to_string());
    assert_eq!(
        validate_spec_id_resolution(&cert, path, &missing),
        vec![ValidationWarning::RegistryNotLoadable { registry_path: path.into(), error: "no such file".into() }]
    );
}

#[test]
fn certificate_command_reports_the_verdict() {
    let cert = sealed_cert();
    let jwks = platform_jwks();
    let report = verify_certificate_command(&cert, None, Some(&jwks), false, None, None);
    assert_eq!(report.exit_code, 0);
    assert_eq!(report.headline, "governance certificate VERIFIED (pipeline: test-run, status: Complete)\n");
    assert_eq!(report.detail_lines[2], format!("  certificate hash: {}", &cert.certificate_hash[..16]));

    let mut unsealed = minimal_cert();
    sign(&mut unsealed);
    let strict = verify_certificate_command(&unsealed, None, None, false, None, None);
    assert_eq!(strict.exit_code, 1);
    assert_eq!(strict.headline, "governance certificate INVALID (1 error(s))\n");
    assert!(strict.detail_lines[0].starts_with("  - certificate is verifiable-but-UNSEALED"));
    let lax = verify_certificate_command(&unsealed, None, None, true, None, None);
    assert_eq!(lax.exit_code, 0);
    assert!(lax.notice_lines[0].starts_with("notice: certificate is verifiable-but-UNSEALED"));
}

#[test]
fn computed_hash_is_lowercase_hex() {
    let h = compute_certificate_hash(&minimal_cert());
    assert_eq!(h.len(), 64);
    assert!(h.chars().all(|c| c.is_ascii_digit() || ('a'..='f').contains(&c)));
}
