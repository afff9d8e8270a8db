use base64::engine::general_purpose::STANDARD as B64;
use base64::Engine;
use ed25519_dalek::{Signer, SigningKey};
use sha2::{Digest, Sha256};
use tenant_tail_core::canonical::write_manifest_form;
use tenant_tail_core::sorted_map::SortedMap;
use tenant_tail_core::inter_stage_manifest::{
    fingerprint_of_pubkey, verify_manifest, InterStageManifest, ManifestError, ManifestSigner, RunKeyChain,
    StageKeyRecord,
};

fn stage_key() -> SigningKey {
    SigningKey::from_bytes(&[3u8; 32])
}

fn chain(run_id: &str) -> RunKeyChain {
    let k = stage_key();
    let pk = k.verifying_key().to_bytes();
    RunKeyChain {
        run_id: run_id.to_string(),
        root_public_key_b64: B64.encode(SigningKey::from_bytes(&[9u8; 32]).verifying_key().to_bytes()),
        stage_keys: SortedMap::from_entries(vec![(
            "build".to_string(),
            StageKeyRecord {
                stage_id: "build".to_string(),
                ephemeral_public_key_b64: B64.encode(pk),
                key_fingerprint: fingerprint_of_pubkey(&pk),
            },
        )]),
    }
}

fn signed_manifest(run_id: &str) -> InterStageManifest {
    let k = stage_key();
    let mut m = InterStageManifest {
        run_id: run_id.to_string(),
        from_stage: "build".to_string(),
        to_stage: "test".to_string(),
        produced_at: "2026-07-01T00:00:00Z".to_string(),
        artifact_hashes: SortedMap::from_entries(vec![("a.txt".to_string(), "00ff".to_string())]),
        metadata: SortedMap::new(),
        signer: ManifestSigner {
            agent_id: "agent://build".to_string(),
            ephemeral_key_id: fingerprint_of_pubkey(&k.verifying_key().to_bytes()),
        },
        signature: String::new(),
    };
    let mut canonical = String::new();
    write_manifest_form(&mut canonical, &m, &String::new());
    m.signature = B64.encode(k.sign(canonical.as_bytes()).to_bytes());
    m
}

#[test]
fn fingerprint_is_base64_of_sha256() {
    let pk = stage_key().verifying_key().to_bytes();
    assert_eq!(fingerprint_of_pubkey(&pk), B64.encode(Sha256::digest(pk)));
}

#[test]
fn signed_manifest_verifies_against_its_chain() {
    let m = signed_manifest("run-1");
    assert_eq!(verify_manifest(&m, &chain("run-1"), None), Ok(()));
    assert_eq!(verify_manifest(&m, &chain("run-1"), Some("test")), Ok(()));
}

#[test]
fn cross_run_manifest_is_rejected() {
    let m = signed_manifest("run-1");
    let err = verify_manifest(&m, &chain("run-2"), None).unwrap_err();
    assert_eq!(
        err,
        ManifestError::RunIdMismatch { expected_run_id: "run-2".to_string(), manifest_run_id: "run-1".to_string() }
    );
    assert_eq!(err.message(), "manifest's run_id run-1 does not match expected run run-2 (cross-run swap)");
}

#[test]
fn unexpected_receiver_is_rejected() {
    let m = signed_manifest("run-1");
    assert_eq!(
        verify_manifest(&m, &chain("run-1"), Some("deploy")),
        Err(ManifestError::StageMismatch {
            expected_to_stage: "deploy".to_string(),
            actual_to_stage: "test".to_string()
        })
    );
}

#[test]
fn tampered_manifest_fails_signature() {
    let mut m = signed_manifest("run-1");
    m.to_stage = "deploy".to_string();
    assert!(matches!(verify_manifest(&m, &chain("run-1"), None), Err(ManifestError::SignatureInvalid(_))));
}

#[test]
fn unknown_signer_is_rejected() {
    let mut m = signed_manifest("run-1");
    m.signer.ephemeral_key_id = "nobody".to_string();
    assert_eq!(
        verify_manifest(&m, &chain("run-1"), None),
        Err(ManifestError::UnknownSigner { run_id: "run-1".to_string(), fingerprint: "nobody".to_string() })
    );
}

#[test]
fn short_signature_is_rejected() {
    let mut m = signed_manifest("run-1");
    m.signature = B64.encode([0u8; 12]);
    assert_eq!(
        verify_manifest(&m, &chain("run-1"), None),
        Err(ManifestError::SignatureInvalid("signature length 12 != 64".to_string()))
    );
}

#[test]
fn resolve_fingerprint_finds_the_stage() {
    let c = chain("run-1");
    let fp = c.stage_keys.entries()[0].1.key_fingerprint.clone();
    match c.resolve_fingerprint(&fp) {
        Ok((_key, stage)) => assert_eq!(stage, "build"),
        Err(e) => panic!("unexpected {e:?}"),
    }
    assert!(c.resolve_fingerprint("missing").is_err());
}

#[test]
fn malformed_stage_key_is_key_material_error() {
    let m = signed_manifest("run-1");
    let mut c = chain("run-1");
    let mut record = c.stage_keys.entries()[0].1.clone();
    record.ephemeral_public_key_b64 = B64.encode([1u8; 5]);
    c.stage_keys.insert("build".to_string(), record);
    assert_eq!(
        verify_manifest(&m, &c, None),
        Err(ManifestError::KeyMaterial("ephemeral_public_key length 5 != 32".to_string()))
    );
    assert_eq!(
        ManifestError::KeyMaterial("x".to_string()).message(),
        "invalid key material: x"
    );
}
