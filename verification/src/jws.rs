//! Offline verification of a platform countersign: a compact JWS
//! (`header.payload.signature`, each part base64url without padding) signed
//! with EdDSA by a key of the saved platform JWKS.

use crate::crypto::{b64url_decode, base64_url_decode, ed25519_check, ed25519_key, ed25519_point, ed25519_verify};
use crate::json::{json_parse, parse_json, JsonValue};
use crate::posture::{
    get_str_member, json_get, json_get_str, member_position, opt_str_view,
};
use crate::text::{chars_of, concat2, concat3, dec, dec_string, split_on, split_text, str_eq, views};
use vstd::prelude::*;
use vstd::utf8::encode_utf8;

verus! {

/// The `typ` header a certificate countersign carries.
pub const TYP_CERT_COUNTERSIGN: &'static str = "oap-cert-countersign+jws";

/// One public key of the platform keyset.
#[derive(Debug, Clone)]
pub struct PlatformJwk {
    /// Key type; an Ed25519 key is `OKP`.
    pub kty: String,
    /// Curve; `Ed25519` when present.
    pub crv: Option<String>,
    pub kid: String,
    /// The public key bytes, base64url without padding.
    pub x: String,
}

/// A saved platform JWKS: the keys a countersign may be signed with.
#[derive(Debug, Clone)]
pub struct PlatformJwks {
    pub keys: Vec<PlatformJwk>,
}

/// The claims of a platform countersign whose JWS verified against the
/// platform keyset: the signing key id and the payload claims the verdict
/// reads (`None` where the claim is absent or not of the expected kind).
#[derive(Debug, Clone)]
pub struct VerifiedSeal {
    pub kid: String,
    /// The `certificate_sha256` claim, when it is a string.
    pub certificate_sha256: Option<String>,
    /// The `envelope_hash` claim, when it is a string.
    pub envelope_hash: Option<String>,
    /// The `run_id` claim (the platform run), when it is a string.
    pub run_id: Option<String>,
    /// The `grant_count` claim, when it is a non-negative integer.
    pub grant_count: Option<u64>,
}

/// The result of checking a countersign's JWS against the platform keyset.
#[derive(Debug, Clone)]
pub enum SealCheck {
    Verified(VerifiedSeal),
    /// The JWS did not verify; the diagnostic says why.
    Invalid(String),
}

/// The abstract claims of a verified seal.
pub ghost struct SealClaims {
    pub kid: Seq<char>,
    pub certificate_sha256: Option<Seq<char>>,
    pub envelope_hash: Option<Seq<char>>,
    pub run_id: Option<Seq<char>>,
    pub grant_count: Option<u64>,
}

/// The abstract seal verdict.
pub ghost enum SealVerdict {
    Verified(SealClaims),
    Invalid(Seq<char>),
}

impl View for VerifiedSeal {
    type V = SealClaims;

    open spec fn view(&self) -> SealClaims {
        SealClaims {
            kid: self.kid@,
            certificate_sha256: opt_str_view(self.certificate_sha256),
            envelope_hash: opt_str_view(self.envelope_hash),
            run_id: opt_str_view(self.run_id),
            grant_count: self.grant_count,
        }
    }
}

impl View for SealCheck {
    type V = SealVerdict;

    open spec fn view(&self) -> SealVerdict {
        match self {
            SealCheck::Verified(v) => SealVerdict::Verified(v@),
            SealCheck::Invalid(e) => SealVerdict::Invalid(e@),
        }
    }
}

// ── Claims ───────────────────────────────────────────────────────────

/// An ASCII decimal digit.
pub open spec fn is_digit(c: char) -> bool {
    48 <= (c as u32) && (c as u32) <= 57
}

/// The value of a run of decimal digits.
pub open spec fn digits_value(t: Seq<char>) -> int
    decreases t.len(),
{
    if t.len() == 0 {
        0
    } else {
        digits_value(t.drop_last()) * 10 + ((t.last() as u32) - 48)
    }
}

/// A number's text as a `u64`: non-empty, all digits, and in range (so a
/// negative, fractional or exponent form is not one).
pub open spec fn u64_of_text(t: Seq<char>) -> Option<u64> {
    if t.len() > 0 && (forall|i: int| 0 <= i < t.len() ==> is_digit(#[trigger] t[i])) && digits_value(t)
        <= u64::MAX {
        Some(digits_value(t) as u64)
    } else {
        None
    }
}

/// The member `key` of an object when it is a number that is a `u64`.
pub open spec fn json_get_u64(v: JsonValue, key: Seq<char>) -> Option<u64> {
    match json_get(v, key) {
        Some(JsonValue::Number(t)) => u64_of_text(t@),
        _ => None,
    }
}

/// The claims read from a verified countersign's payload.
pub open spec fn claims_of(kid: Seq<char>, payload: JsonValue) -> SealClaims {
    SealClaims {
        kid,
        certificate_sha256: json_get_str(payload, "certificate_sha256"@),
        envelope_hash: json_get_str(payload, "envelope_hash"@),
        run_id: json_get_str(payload, "run_id"@),
        grant_count: json_get_u64(payload, "grant_count"@),
    }
}

// ── Keys ─────────────────────────────────────────────────────────────

/// The position of the first key with id `kid`, or the number of keys.
pub open spec fn kid_index(keys: Seq<PlatformJwk>, kid: Seq<char>) -> int
    decreases keys.len(),
{
    if keys.len() == 0 {
        0
    } else if keys[0].kid@ == kid {
        0
    } else {
        1 + kid_index(keys.drop_first(), kid)
    }
}

/// The verifying-key bytes for `kid`: the first key with that id must be an
/// `OKP` key (curve `Ed25519` when one is named) whose `x` decodes to 32
/// bytes that are an Ed25519 point.
pub open spec fn jwk_key(jwks: PlatformJwks, kid: Seq<char>) -> Result<Seq<u8>, Seq<char>> {
    let k = kid_index(jwks.keys@, kid);
    if k >= jwks.keys@.len() {
        Err("kid "@ + kid + " is not in the platform JWKS"@)
    } else {
        let jwk = jwks.keys@[k];
        if jwk.kty@ != "OKP"@ || (jwk.crv is Some && jwk.crv->0@ != "Ed25519"@) {
            Err("kid "@ + kid + " is not an Ed25519 (OKP) key"@)
        } else {
            match base64_url_decode(jwk.x@) {
                Err(e) => Err("key base64url: "@ + e),
                Ok(bytes) => if bytes.len() != 32 {
                    Err("key length "@ + dec(bytes.len()) + " != 32"@)
                } else {
                    match ed25519_point(bytes) {
                        Err(e) => Err("key is not a valid Ed25519 point: "@ + e),
                        Ok(()) => Ok(bytes),
                    }
                },
            }
        }
    }
}

// ── The verdict ──────────────────────────────────────────────────────

/// The verdict after the signature verified: the payload must be JSON.
pub open spec fn payload_verdict(kid: Seq<char>, payload_part: Seq<char>) -> SealVerdict {
    match base64_url_decode(payload_part) {
        Err(e) => SealVerdict::Invalid("payload base64url: "@ + e),
        Ok(pb) => match json_parse(pb) {
            None => SealVerdict::Invalid("payload is not JSON"@),
            Some(p) => SealVerdict::Verified(claims_of(kid, p)),
        },
    }
}

/// The verdict once the header is read: algorithm and type, the key, the
/// signature's length and its EdDSA verification over `header.payload`.
pub open spec fn signed_verdict(jwks: PlatformJwks, parts: Seq<Seq<char>>, header: JsonValue) -> SealVerdict {
    match (json_get_str(header, "alg"@), json_get_str(header, "kid"@)) {
        (Some(alg), Some(kid)) => if alg != "EdDSA"@ {
            SealVerdict::Invalid("unsupported alg "@ + alg)
        } else if json_get_str(header, "typ"@) != Some(TYP_CERT_COUNTERSIGN@) {
            SealVerdict::Invalid("typ is not "@ + TYP_CERT_COUNTERSIGN@)
        } else {
            match jwk_key(jwks, kid) {
                Err(m) => SealVerdict::Invalid(m),
                Ok(key) => match base64_url_decode(parts[2]) {
                    Err(e) => SealVerdict::Invalid("signature base64url: "@ + e),
                    Ok(sig) => if sig.len() != 64 {
                        SealVerdict::Invalid("signature length "@ + dec(sig.len()) + " != 64"@)
                    } else {
                        match ed25519_verify(key, encode_utf8(parts[0] + "."@ + parts[1]), sig) {
                            Err(e) => SealVerdict::Invalid("Ed25519: "@ + e),
                            Ok(()) => payload_verdict(kid, parts[1]),
                        }
                    },
                },
            }
        },
        _ => SealVerdict::Invalid("header needs string alg and kid"@),
    }
}

/// The verdict on a countersign's compact JWS against the platform keyset.
pub open spec fn seal_check_of(jws: Seq<char>, jwks: PlatformJwks) -> SealVerdict {
    let parts = split_on(jws, '.');
    if parts.len() != 3 {
        SealVerdict::Invalid("compact JWS must have 3 parts, found "@ + dec(parts.len()))
    } else {
        match base64_url_decode(parts[0]) {
            Err(e) => SealVerdict::Invalid("header base64url: "@ + e),
            Ok(hb) => match json_parse(hb) {
                None => SealVerdict::Invalid("header is not JSON"@),
                Some(header) => signed_verdict(jwks, parts, header),
            },
        }
    }
}

proof fn lemma_digits_monotone(t: Seq<char>, k: int)
    requires
        0 <= k <= t.len(),
        forall|i: int| 0 <= i < t.len() ==> is_digit(#[trigger] t[i]),
    ensures
        digits_value(t) >= digits_value(t.take(k)),
        digits_value(t) >= 0,
    decreases t.len(),
{
    if t.len() > 0 {
        let p = t.drop_last();
        assert forall|i: int| 0 <= i < p.len() implies is_digit(#[trigger] p[i]) by {
            assert(p[i] == t[i]);
        }
        if k == t.len() {
            assert(t.take(k) =~= t);
            lemma_digits_monotone(p, 0);
        } else {
            assert(p.take(k) =~= t.take(k));
            lemma_digits_monotone(p, k);
        }
        assert(is_digit(t.last()));
    } else {
        assert(t.take(k) =~= t);
    }
}

fn parse_u64(t: &str) -> (res: Option<u64>)
    ensures
        res == u64_of_text(t@),
{
    let cs = chars_of(t);
    let n = cs.len();
    if n == 0 {
        return None;
    }
    let mut acc: u64 = 0;
    let mut i: usize = 0;
    while i < n
        invariant
            n == cs@.len(),
            cs@ == t@,
            i <= n,
            forall|q: int| 0 <= q < i ==> is_digit(#[trigger] t@[q]),
            acc == digits_value(t@.take(i as int)),
        decreases n - i,
    {
        let c = cs[i];
        let ghost nt = t@.take(i + 1);
        assert(nt.drop_last() =~= t@.take(i as int));
        assert(nt.last() == c);
        let v = c as u32;
        if v < 48 || v > 57 {
            assert(!is_digit(t@[i as int]));
            return None;
        }
        let d = (v - 48) as u64;
        let next = match acc.checked_mul(10) {
            Some(m) => m.checked_add(d),
            None => None,
        };
        match next {
            Some(x) => {
                acc = x;
            },
            None => {
                proof {
                    if forall|q: int| 0 <= q < t@.len() ==> is_digit(#[trigger] t@[q]) {
                        lemma_digits_monotone(t@, i + 1);
                    }
                }
                return None;
            },
        }
        i = i + 1;
    }
    assert(t@.take(n as int) =~= t@);
    Some(acc)
}

fn get_u64_member(v: &JsonValue, key: &str) -> (res: Option<u64>)
    ensures
        res == json_get_u64(*v, key@),
{
    match v {
        JsonValue::Object(ms) => {
            let k = member_position(ms, key);
            if k < ms.len() {
                match &ms[k].1 {
                    JsonValue::Number(t) => parse_u64(t.as_str()),
                    _ => None,
                }
            } else {
                None
            }
        },
        _ => None,
    }
}

fn key_for(jwks: &PlatformJwks, kid: &str) -> (res: Result<crate::crypto::Ed25519Key, String>)
    ensures
        match jwk_key(*jwks, kid@) {
            Ok(bytes) => res matches Ok(k) && k.key_bytes() == bytes,
            Err(m) => res matches Err(e) && e@ == m,
        },
{
    let n = jwks.keys.len();
    let mut i: usize = 0;
    assert(jwks.keys@.skip(0) =~= jwks.keys@);
    while i < n
        invariant
            n == jwks.keys@.len(),
            i <= n,
            kid_index(jwks.keys@, kid@) == i + kid_index(jwks.keys@.skip(i as int), kid@),
        ensures
            i <= n,
            kid_index(jwks.keys@, kid@) == i + kid_index(jwks.keys@.skip(i as int), kid@),
            i < n ==> jwks.keys@[i as int].kid@ == kid@,
        decreases n - i,
    {
        let ghost rest = jwks.keys@.skip(i as int);
        assert(rest[0] == jwks.keys@[i as int]);
        if str_eq(jwks.keys[i].kid.as_str(), kid) {
            break;
        }
        assert(rest.drop_first() =~= jwks.keys@.skip(i + 1));
        i = i + 1;
    }
    if i == n {
        assert(jwks.keys@.skip(n as int) =~= Seq::<PlatformJwk>::empty());
        return Err(concat3("kid ", kid, " is not in the platform JWKS"));
    }
    let jwk = &jwks.keys[i];
    assert(jwks.keys@.skip(i as int)[0] == jwks.keys@[i as int]);
    assert(kid_index(jwks.keys@, kid@) == i);
    let curve_ok = match &jwk.crv {
        Some(c) => str_eq(c.as_str(), "Ed25519"),
        None => true,
    };
    if !str_eq(jwk.kty.as_str(), "OKP") || !curve_ok {
        return Err(concat3("kid ", kid, " is not an Ed25519 (OKP) key"));
    }
    let bytes = match b64url_decode(jwk.x.as_str()) {
        Ok(b) => b,
        Err(e) => {
            return Err(concat2("key base64url: ", e.as_str()));
        },
    };
    if bytes.len() != 32 {
        let len_text = dec_string(bytes.len() as u64);
        return Err(concat3("key length ", len_text.as_str(), " != 32"));
    }
    match ed25519_key(bytes.as_slice()) {
        Ok(k) => Ok(k),
        Err(e) => Err(concat2("key is not a valid Ed25519 point: ", e.as_str())),
    }
}

fn payload_check(kid: String, payload_part: &str) -> (res: SealCheck)
    ensures
        res@ == payload_verdict(kid@, payload_part@),
{
    let pb = match b64url_decode(payload_part) {
        Ok(b) => b,
        Err(e) => {
            return SealCheck::Invalid(concat2("payload base64url: ", e.as_str()));
        },
    };
    let payload = match parse_json(pb.as_slice()) {
        Some(p) => p,
        None => {
            return SealCheck::Invalid(String::from_str("payload is not JSON"));
        },
    };
    SealCheck::Verified(
        VerifiedSeal {
            kid,
            certificate_sha256: get_str_member(&payload, "certificate_sha256"),
            envelope_hash: get_str_member(&payload, "envelope_hash"),
            run_id: get_str_member(&payload, "run_id"),
            grant_count: get_u64_member(&payload, "grant_count"),
        },
    )
}

fn signed_check(jwks: &PlatformJwks, parts: &Vec<String>, header: &JsonValue) -> (res: SealCheck)
    requires
        parts@.len() == 3,
    ensures
        res@ == signed_verdict(*jwks, views(parts@), *header),
{
    let alg = get_str_member(header, "alg");
    let kid = get_str_member(header, "kid");
    let (alg, kid) = match (alg, kid) {
        (Some(a), Some(k)) => (a, k),
        _ => {
            return SealCheck::Invalid(String::from_str("header needs string alg and kid"));
        },
    };
    if !str_eq(alg.as_str(), "EdDSA") {
        return SealCheck::Invalid(concat2("unsupported alg ", alg.as_str()));
    }
    let typ_ok = match get_str_member(header, "typ") {
        Some(t) => str_eq(t.as_str(), TYP_CERT_COUNTERSIGN),
        None => false,
    };
    if !typ_ok {
        return SealCheck::Invalid(concat2("typ is not ", TYP_CERT_COUNTERSIGN));
    }
    let key = match key_for(jwks, kid.as_str()) {
        Ok(k) => k,
        Err(m) => {
            return SealCheck::Invalid(m);
        },
    };
    let sig = match b64url_decode(parts[2].as_str()) {
        Ok(b) => b,
        Err(e) => {
            return SealCheck::Invalid(concat2("signature base64url: ", e.as_str()));
        },
    };
    if sig.len() != 64 {
        let len_text = dec_string(sig.len() as u64);
        return SealCheck::Invalid(concat3("signature length ", len_text.as_str(), " != 64"));
    }
    let signing_input = concat3(parts[0].as_str(), ".", parts[1].as_str());
    match ed25519_check(&key, signing_input.as_str().as_bytes(), sig.as_slice()) {
        Ok(()) => payload_check(kid, parts[1].as_str()),
        Err(e) => SealCheck::Invalid(concat2("Ed25519: ", e.as_str())),
    }
}

/// Check a countersign's compact JWS against the platform keyset: a verified
/// JWS yields its claims, any failure the diagnostic.
pub fn check_countersign(jws: &str, jwks: &PlatformJwks) -> (res: SealCheck)
    ensures
        res@ == seal_check_of(jws@, *jwks),
{
    let parts = split_text(jws, '.');
    if parts.len() != 3 {
        let n = dec_string(parts.len() as u64);
        return SealCheck::Invalid(concat2("compact JWS must have 3 parts, found ", n.as_str()));
    }
    let hb = match b64url_decode(parts[0].as_str()) {
        Ok(b) => b,
        Err(e) => {
            return SealCheck::Invalid(concat2("header base64url: ", e.as_str()));
        },
    };
    match parse_json(hb.as_slice()) {
        Some(header) => signed_check(jwks, &parts, &header),
        None => SealCheck::Invalid(String::from_str("header is not JSON")),
    }
}

// ── Laws ─────────────────────────────────────────────────────────────

/// A countersign is accepted only when it was signed by the keyset: a
/// verified verdict means the JWS has three parts, its header names an
/// Ed25519 key of the keyset by its id, and the signature (64 bytes)
/// verifies under that key over `header.payload`.
pub proof fn law_verified_seal_was_signed_by_the_keyset(jws: Seq<char>, jwks: PlatformJwks, v: SealClaims)
    requires
        seal_check_of(jws, jwks) == SealVerdict::Verified(v),
    ensures
        split_on(jws, '.').len() == 3,
        kid_index(jwks.keys@, v.kid) < jwks.keys@.len(),
        jwk_key(jwks, v.kid) is Ok,
        base64_url_decode(split_on(jws, '.')[2]) is Ok,
        base64_url_decode(split_on(jws, '.')[2])->Ok_0.len() == 64,
        ed25519_verify(
            jwk_key(jwks, v.kid)->Ok_0,
            encode_utf8(split_on(jws, '.')[0] + "."@ + split_on(jws, '.')[1]),
            base64_url_decode(split_on(jws, '.')[2])->Ok_0,
        ) is Ok,
{
}

} // verus!
