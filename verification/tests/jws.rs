use base64::engine::general_purpose::URL_SAFE_NO_PAD as B64URL;
use base64::Engine;
use ed25519_dalek::{Signer, SigningKey};
use tenant_tail_core::jws::{check_countersign, PlatformJwk, PlatformJwks, SealCheck, TYP_CERT_COUNTERSIGN};

fn platform_key() -> SigningKey {
    SigningKey::from_bytes(&[9u8; 32])
}

fn okp(kid: &str, x: String) -> PlatformJwk {
    PlatformJwk { kty: "OKP".to_string(), crv: Some("Ed25519".to_string()), kid: kid.to_string(), x }
}

fn keyset() -> PlatformJwks {
    let x = B64URL.encode(platform_key().verifying_key().to_bytes());
    PlatformJwks { keys: vec![okp("other", B64URL.encode([1u8; 32])), okp("k1", x)] }
}

fn header(kid: &str) -> String {
    format!(r#"{{"alg":"EdDSA","kid":"{kid}","typ":"{TYP_CERT_COUNTERSIGN}"}}"#)
}

fn jws(header: &str, payload: &str) -> String {
    let input = format!("{}.{}", B64URL.encode(header), B64URL.encode(payload));
    let sig = platform_key().sign(input.as_bytes());
    format!("{input}.{}", B64URL.encode(sig.to_bytes()))
}

fn invalid(res: SealCheck) -> String {
    match res {
        SealCheck::Invalid(e) => e,
        SealCheck::Verified(v) => panic!("unexpectedly verified: {v:?}"),
    }
}

const PAYLOAD: &str = r#"{"certificate_sha256":"abc","envelope_hash":"env","run_id":"r-7","grant_count":12}"#;

#[test]
fn countersign_verifies_and_yields_claims() {
    match check_countersign(&jws(&header("k1"), PAYLOAD), &keyset()) {
        SealCheck::Verified(v) => {
            assert_eq!(v.kid, "k1");
            assert_eq!(v.certificate_sha256.as_deref(), Some("abc"));
            assert_eq!(v.envelope_hash.as_deref(), Some("env"));
            assert_eq!(v.run_id.as_deref(), Some("r-7"));
            assert_eq!(v.grant_count, Some(12));
        }
        SealCheck::Invalid(e) => panic!("{e}"),
    }
}

#[test]
fn countersign_claims_of_the_wrong_kind_are_absent() {
    let payload = r#"{"certificate_sha256":7,"grant_count":-1,"run_id":null}"#;
    match check_countersign(&jws(&header("k1"), payload), &keyset()) {
        SealCheck::Verified(v) => {
            assert_eq!(v.certificate_sha256, None);
            assert_eq!(v.envelope_hash, None);
            assert_eq!(v.run_id, None);
            assert_eq!(v.grant_count, None);
        }
        SealCheck::Invalid(e) => panic!("{e}"),
    }
}

#[test]
fn countersign_needs_three_parts() {
    assert_eq!(invalid(check_countersign("a.b", &keyset())), "compact JWS must have 3 parts, found 2");
    assert_eq!(invalid(check_countersign("a.b.c.d", &keyset())), "compact JWS must have 3 parts, found 4");
}

#[test]
fn countersign_header_must_decode_and_parse() {
    assert!(invalid(check_countersign("!!.b.c", &keyset())).starts_with("header base64url: "));
    let not_json = format!("{}.b.c", B64URL.encode("not json"));
    assert_eq!(invalid(check_countersign(&not_json, &keyset())), "header is not JSON");
    let no_kid = jws(r#"{"alg":"EdDSA"}"#, PAYLOAD);
    assert_eq!(invalid(check_countersign(&no_kid, &keyset())), "header needs string alg and kid");
}

#[test]
fn countersign_alg_and_typ_are_enforced() {
    let rs = jws(r#"{"alg":"RS256","kid":"k1","typ":"oap-cert-countersign+jws"}"#, PAYLOAD);
    assert_eq!(invalid(check_countersign(&rs, &keyset())), "unsupported alg RS256");
    let other_typ = jws(r#"{"alg":"EdDSA","kid":"k1","typ":"JWT"}"#, PAYLOAD);
    assert_eq!(invalid(check_countersign(&other_typ, &keyset())), "typ is not oap-cert-countersign+jws");
    let no_typ = jws(r#"{"alg":"EdDSA","kid":"k1"}"#, PAYLOAD);
    assert_eq!(invalid(check_countersign(&no_typ, &keyset())), "typ is not oap-cert-countersign+jws");
}

#[test]
fn countersign_key_must_be_a_known_ed25519_key() {
    let token = jws(&header("k2"), PAYLOAD);
    assert_eq!(invalid(check_countersign(&token, &keyset())), "kid k2 is not in the platform JWKS");
    let mut ks = keyset();
    ks.keys[1].kty = "RSA".to_string();
    let token = jws(&header("k1"), PAYLOAD);
    assert_eq!(invalid(check_countersign(&token, &ks)), "kid k1 is not an Ed25519 (OKP) key");
    let mut ks = keyset();
    ks.keys[1].crv = Some("X25519".to_string());
    assert_eq!(invalid(check_countersign(&token, &ks)), "kid k1 is not an Ed25519 (OKP) key");
    let mut ks = keyset();
    ks.keys[1].x = B64URL.encode([3u8; 16]);
    assert_eq!(invalid(check_countersign(&token, &ks)), "key length 16 != 32");
    let mut ks = keyset();
    ks.keys[1].x = "***".to_string();
    assert!(invalid(check_countersign(&token, &ks)).starts_with("key base64url: "));
    let mut ks = keyset();
    ks.keys[1].crv = None;
    assert!(matches!(check_countersign(&token, &ks), SealCheck::Verified(_)));
}

#[test]
fn countersign_signature_must_verify() {
    let token = jws(&header("k1"), PAYLOAD);
    let (signed, _) = token.rsplit_once('.').unwrap();
    let short = format!("{signed}.{}", B64URL.encode([0u8; 10]));
    assert_eq!(invalid(check_countersign(&short, &keyset())), "signature length 10 != 64");
    let zeros = format!("{signed}.{}", B64URL.encode([0u8; 64]));
    assert!(invalid(check_countersign(&zeros, &keyset())).starts_with("Ed25519: "));
    let mut ks = keyset();
    ks.keys[1].x = B64URL.encode(SigningKey::from_bytes(&[4u8; 32]).verifying_key().to_bytes());
    assert!(invalid(check_countersign(&token, &ks)).starts_with("Ed25519: "));
}

#[test]
fn countersign_payload_must_be_json() {
    let token = jws(&header("k1"), "plain text");
    assert_eq!(invalid(check_countersign(&token, &keyset())), "payload is not JSON");
}
