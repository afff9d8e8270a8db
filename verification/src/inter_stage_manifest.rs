//! Signed inter-stage manifests: the verify-only half. A manifest names the
//! producing and receiving stages of one hand-off, the artifact hashes handed
//! over, and carries an Ed25519 signature by the dispatching stage's
//! ephemeral key, which resolves through the run's key chain.

use crate::canonical::{entry_canon, manifest_canon, map_canon, nonempty_map_canon, write_manifest_form};
use crate::json::{enc_json, join_comma, json_str};
use crate::crypto::{
    b64_decode, b64_encode, base64_standard_decode, base64_standard_encode, ed25519_check, ed25519_key,
    ed25519_point, ed25519_verify, Ed25519Key,
};
use crate::digest::sha256;
use crate::json::JsonValue;
use crate::sorted_map::SortedMap;
use crate::text::{concat2, concat3, concat4, concat5, dec, dec_string, str_eq};
use vstd::utf8::encode_utf8;
use vstd::prelude::*;

verus! {

/// One inter-stage manifest. `signature` is the base64 Ed25519 signature over
/// the canonical JSON of the manifest with `signature` set to the empty string.
/// `produced_at` is the RFC 3339 timestamp text. Map-valued fields hold their
/// entries in key order.
#[derive(Debug)]
pub struct InterStageManifest {
    pub run_id: String,
    pub from_stage: String,
    pub to_stage: String,
    pub produced_at: String,
    pub artifact_hashes: SortedMap<String>,
    pub metadata: SortedMap<JsonValue>,
    pub signer: ManifestSigner,
    pub signature: String,
}

/// Identity of the agent that signed a manifest.
#[derive(Debug, Clone, PartialEq, Eq)]
pub struct ManifestSigner {
    /// Agent identifier (URI).
    pub agent_id: String,
    /// Fingerprint of the ephemeral key: base64 of the SHA-256 of the
    /// public-key bytes.
    pub ephemeral_key_id: String,
}

/// Why a manifest failed verification.
#[derive(Debug, Clone, PartialEq, Eq)]
pub enum ManifestError {
    SignatureInvalid(String),
    UnknownSigner { run_id: String, fingerprint: String },
    RunIdMismatch { expected_run_id: String, manifest_run_id: String },
    StageMismatch { expected_to_stage: String, actual_to_stage: String },
    KeyMaterial(String),
    Serialization(String),
    Io(String),
}

/// Per-run key chain: the root verifying key plus the registered stage
/// ephemeral keys, in key order of their stage names.
#[derive(Debug, Clone, PartialEq, Eq)]
pub struct RunKeyChain {
    pub run_id: String,
    /// Base64 Ed25519 verifying key (32 bytes).
    pub root_public_key_b64: String,
    pub stage_keys: SortedMap<StageKeyRecord>,
}

/// One stage's registered ephemeral public key.
#[derive(Debug, Clone, PartialEq, Eq)]
pub struct StageKeyRecord {
    pub stage_id: String,
    /// Base64 Ed25519 verifying key.
    pub ephemeral_public_key_b64: String,
    /// Base64 SHA-256 of the verifying-key bytes.
    pub key_fingerprint: String,
}


/// The abstract content of a [`ManifestError`].
pub ghost enum ManifestFault {
    SignatureInvalid(Seq<char>),
    UnknownSigner { run_id: Seq<char>, fingerprint: Seq<char> },
    RunIdMismatch { expected_run_id: Seq<char>, manifest_run_id: Seq<char> },
    StageMismatch { expected_to_stage: Seq<char>, actual_to_stage: Seq<char> },
    KeyMaterial(Seq<char>),
    Serialization(Seq<char>),
    Io(Seq<char>),
}

impl View for ManifestError {
    type V = ManifestFault;

    open spec fn view(&self) -> ManifestFault {
        match self {
            ManifestError::SignatureInvalid(s) => ManifestFault::SignatureInvalid(s@),
            ManifestError::UnknownSigner { run_id, fingerprint } => ManifestFault::UnknownSigner {
                run_id: run_id@,
                fingerprint: fingerprint@,
            },
            ManifestError::RunIdMismatch { expected_run_id, manifest_run_id } =>
                ManifestFault::RunIdMismatch {
                expected_run_id: expected_run_id@,
                manifest_run_id: manifest_run_id@,
            },
            ManifestError::StageMismatch { expected_to_stage, actual_to_stage } =>
                ManifestFault::StageMismatch {
                expected_to_stage: expected_to_stage@,
                actual_to_stage: actual_to_stage@,
            },
            ManifestError::KeyMaterial(s) => ManifestFault::KeyMaterial(s@),
            ManifestError::Serialization(s) => ManifestFault::Serialization(s@),
            ManifestError::Io(s) => ManifestFault::Io(s@),
        }
    }
}

/// The human-readable text of a manifest fault.
pub open spec fn fault_text(f: ManifestFault) -> Seq<char> {
    match f {
        ManifestFault::SignatureInvalid(s) => "manifest signature verification failed: "@ + s,
        ManifestFault::UnknownSigner { run_id, fingerprint } => "signer's ephemeral_key_id "@
            + fingerprint + " is not registered in run "@ + run_id + "'s key chain"@,
        ManifestFault::RunIdMismatch { expected_run_id, manifest_run_id } => "manifest's run_id "@
            + manifest_run_id + " does not match expected run "@ + expected_run_id
            + " (cross-run swap)"@,
        ManifestFault::StageMismatch { expected_to_stage, actual_to_stage } =>
            "manifest's to_stage "@ + actual_to_stage + " does not match expected receiver "@
            + expected_to_stage,
        ManifestFault::KeyMaterial(s) => "invalid key material: "@ + s,
        ManifestFault::Serialization(s) => "serialization failed: "@ + s,
        ManifestFault::Io(s) => "I/O error: "@ + s,
    }
}

impl ManifestError {
    /// The human-readable text of this error.
    pub fn message(&self) -> (res: String)
        ensures
            res@ == fault_text(self@),
    {
        match self {
            ManifestError::SignatureInvalid(s) => concat2("manifest signature verification failed: ", s.as_str()),
            ManifestError::UnknownSigner { run_id, fingerprint } => concat5(
                "signer's ephemeral_key_id ",
                fingerprint.as_str(),
                " is not registered in run ",
                run_id.as_str(),
                "'s key chain",
            ),
            ManifestError::RunIdMismatch { expected_run_id, manifest_run_id } => concat5(
                "manifest's run_id ",
                manifest_run_id.as_str(),
                " does not match expected run ",
                expected_run_id.as_str(),
                " (cross-run swap)",
            ),
            ManifestError::StageMismatch { expected_to_stage, actual_to_stage } => concat4(
                "manifest's to_stage ",
                actual_to_stage.as_str(),
                " does not match expected receiver ",
                expected_to_stage.as_str(),
            ),
            ManifestError::KeyMaterial(s) => concat2("invalid key material: ", s.as_str()),
            ManifestError::Serialization(s) => concat2("serialization failed: ", s.as_str()),
            ManifestError::Io(s) => concat2("I/O error: ", s.as_str()),
        }
    }
}

/// Index of the first registered stage key (in key order) whose fingerprint
/// is `fp`, searching from `i`.
pub open spec fn find_fingerprint(keys: Seq<(String, StageKeyRecord)>, fp: Seq<char>, i: int) -> Option<
    int,
>
    decreases keys.len() - i,
{
    if i < 0 || i >= keys.len() {
        None
    } else if keys[i].1.key_fingerprint@ == fp {
        Some(i)
    } else {
        find_fingerprint(keys, fp, i + 1)
    }
}

/// The outcome of resolving `fp` in a key chain: the verifying-key bytes and
/// the stage they belong to, or the fault.
pub open spec fn resolution(chain: RunKeyChain, fp: Seq<char>) -> Result<(Seq<u8>, Seq<char>), ManifestFault> {
    match find_fingerprint(chain.stage_keys@, fp, 0) {
        None => Err(ManifestFault::UnknownSigner { run_id: chain.run_id@, fingerprint: fp }),
        Some(i) => {
            let rec = chain.stage_keys@[i].1;
            match base64_standard_decode(rec.ephemeral_public_key_b64@) {
                Err(e) => Err(ManifestFault::KeyMaterial("base64: "@ + e)),
                Ok(bytes) => if bytes.len() != 32 {
                    Err(
                        ManifestFault::KeyMaterial(
                            "ephemeral_public_key length "@ + dec(bytes.len()) + " != 32"@,
                        ),
                    )
                } else {
                    match ed25519_point(bytes) {
                        Err(e) => Err(ManifestFault::KeyMaterial("not Ed25519: "@ + e)),
                        Ok(()) => Ok((bytes, rec.stage_id@)),
                    }
                },
            }
        },
    }
}

impl RunKeyChain {
    /// Resolve a fingerprint to a verifying key by a scan of the registered
    /// stage keys in key order; returns the key and the stage it belongs to.
    pub fn resolve_fingerprint(&self, fingerprint: &str) -> (res: Result<(Ed25519Key, String), ManifestError>)
        ensures
            match resolution(*self, fingerprint@) {
                Ok((bytes, stage)) => res matches Ok((k, s)) && k.key_bytes() == bytes && s@ == stage,
                Err(f) => res matches Err(e) && e@ == f,
            },
    {
        let n = self.stage_keys.len();
        let mut i: usize = 0;
        while i < n
            invariant
                n == self.stage_keys@.len(),
                i <= n,
                find_fingerprint(self.stage_keys@, fingerprint@, 0) == find_fingerprint(
                    self.stage_keys@,
                    fingerprint@,
                    i as int,
                ),
            decreases n - i,
        {
            let record = &self.stage_keys.entries()[i].1;
            if str_eq(record.key_fingerprint.as_str(), fingerprint) {
                let bytes = match b64_decode(record.ephemeral_public_key_b64.as_str()) {
                    Ok(b) => b,
                    Err(e) => {
                        return Err(ManifestError::KeyMaterial(concat2("base64: ", e.as_str())));
                    },
                };
                if bytes.len() != 32 {
                    let len_text = dec_string(bytes.len() as u64);
                    return Err(
                        ManifestError::KeyMaterial(
                            concat3("ephemeral_public_key length ", len_text.as_str(), " != 32"),
                        ),
                    );
                }
                let key = match ed25519_key(bytes.as_slice()) {
                    Ok(k) => k,
                    Err(e) => {
                        return Err(ManifestError::KeyMaterial(concat2("not Ed25519: ", e.as_str())));
                    },
                };
                return Ok((key, record.stage_id.clone()));
            }
            i = i + 1;
        }
        Err(
            ManifestError::UnknownSigner {
                run_id: self.run_id.clone(),
                fingerprint: String::from_str(fingerprint),
            },
        )
    }
}

/// Base64 of the SHA-256 of an Ed25519 public-key payload.
pub fn fingerprint_of_pubkey(pubkey_bytes: &[u8; 32]) -> (res: String)
    ensures
        res@ == base64_standard_encode(sha256(pubkey_bytes@)),
{
    let d = crate::digest::sha256_digest(pubkey_bytes.as_slice());
    b64_encode(d.as_slice())
}

/// The bytes a manifest's signature covers: its canonical JSON with an empty
/// `signature`.
pub open spec fn manifest_signing_bytes(m: InterStageManifest) -> Seq<u8> {
    encode_utf8(manifest_canon(m, Seq::<char>::empty()))
}

/// The outcome of verifying a manifest against a key chain, checking in
/// order: the run id, the expected receiver (when given), the signer's
/// fingerprint, and the Ed25519 signature over the canonical bytes.
pub open spec fn manifest_outcome(m: InterStageManifest, chain: RunKeyChain, expected_to_stage: Option<Seq<char>>) -> Result<
    (),
    ManifestFault,
> {
    if m.run_id@ != chain.run_id@ {
        Err(ManifestFault::RunIdMismatch { expected_run_id: chain.run_id@, manifest_run_id: m.run_id@ })
    } else if expected_to_stage is Some && m.to_stage@ != expected_to_stage->0 {
        Err(
            ManifestFault::StageMismatch {
                expected_to_stage: expected_to_stage->0,
                actual_to_stage: m.to_stage@,
            },
        )
    } else {
        match resolution(chain, m.signer.ephemeral_key_id@) {
            Err(f) => Err(f),
            Ok((key, _stage)) => match base64_standard_decode(m.signature@) {
                Err(e) => Err(ManifestFault::SignatureInvalid("base64: "@ + e)),
                Ok(sig) => if sig.len() != 64 {
                    Err(ManifestFault::SignatureInvalid("signature length "@ + dec(sig.len()) + " != 64"@))
                } else {
                    match ed25519_verify(key, manifest_signing_bytes(m), sig) {
                        Err(e) => Err(ManifestFault::SignatureInvalid("Ed25519: "@ + e)),
                        Ok(()) => Ok(()),
                    }
                },
            },
        }
    }
}

/// The canonical JSON a manifest's signature covers (its `signature`
/// emptied); its UTF-8 is [`manifest_signing_bytes`].
fn canonical_bytes_for_signing(manifest: &InterStageManifest) -> (res: String)
    ensures
        encode_utf8(res@) == manifest_signing_bytes(*manifest),
{
    let mut canonical = String::new();
    let empty = String::new();
    write_manifest_form(&mut canonical, manifest, &empty);
    assert(canonical@ =~= manifest_canon(*manifest, Seq::<char>::empty()));
    canonical
}

/// Verify a manifest against the run's key chain.
pub fn verify_manifest(manifest: &InterStageManifest, key_chain: &RunKeyChain, expected_to_stage: Option<&str>) -> (res:
    Result<(), ManifestError>)
    ensures
        match manifest_outcome(
            *manifest,
            *key_chain,
            match expected_to_stage {
                Some(s) => Some(s@),
                None => None,
            },
        ) {
            Ok(()) => res is Ok,
            Err(f) => res matches Err(e) && e@ == f,
        },
{
    if !str_eq(manifest.run_id.as_str(), key_chain.run_id.as_str()) {
        return Err(
            ManifestError::RunIdMismatch {
                expected_run_id: key_chain.run_id.clone(),
                manifest_run_id: manifest.run_id.clone(),
            },
        );
    }
    if let Some(expected) = expected_to_stage {
        if !str_eq(manifest.to_stage.as_str(), expected) {
            return Err(
                ManifestError::StageMismatch {
                    expected_to_stage: String::from_str(expected),
                    actual_to_stage: manifest.to_stage.clone(),
                },
            );
        }
    }
    let (verifying_key, _stage_id) = key_chain.resolve_fingerprint(manifest.signer.ephemeral_key_id.as_str())?;
    let sig_bytes = match b64_decode(manifest.signature.as_str()) {
        Ok(b) => b,
        Err(e) => {
            return Err(ManifestError::SignatureInvalid(concat2("base64: ", e.as_str())));
        },
    };
    if sig_bytes.len() != 64 {
        let len_text = dec_string(sig_bytes.len() as u64);
        return Err(
            ManifestError::SignatureInvalid(concat3("signature length ", len_text.as_str(), " != 64")),
        );
    }
    let canonical = canonical_bytes_for_signing(manifest);
    match ed25519_check(&verifying_key, canonical.as_str().as_bytes(), sig_bytes.as_slice()) {
        Ok(()) => Ok(()),
        Err(e) => Err(ManifestError::SignatureInvalid(concat2("Ed25519: ", e.as_str()))),
    }
}


/// A manifest from another run is rejected as a cross-run swap, whatever its
/// receiver, signer or signature.
pub proof fn law_cross_run_manifest_is_rejected(
    m: InterStageManifest,
    chain: RunKeyChain,
    expected_to_stage: Option<Seq<char>>,
)
    requires
        m.run_id@ != chain.run_id@,
    ensures
        manifest_outcome(m, chain, expected_to_stage) == Err::<(), ManifestFault>(
            ManifestFault::RunIdMismatch { expected_run_id: chain.run_id@, manifest_run_id: m.run_id@ },
        ),
{
}

/// How a manifest's JSON text opens: its run id, sending and receiving
/// stages and production time, in that order, then its artifact hashes.
pub open spec fn manifest_text_head(m: InterStageManifest) -> Seq<char> {
    "{\"runId\":"@ + json_str(m.run_id@) + ",\"fromStage\":"@ + json_str(m.from_stage@) + ",\"toStage\":"@
        + json_str(m.to_stage@) + ",\"producedAt\":"@ + json_str(m.produced_at@) + ",\"artifactHashes\":"@
}

/// How a manifest's JSON text closes: its signer and the signature text.
pub open spec fn manifest_text_tail(m: InterStageManifest, sig: Seq<char>) -> Seq<char> {
    ",\"signer\":"@ + ("{\"agentId\":"@ + json_str(m.signer.agent_id@) + ",\"ephemeralKeyId\":"@ + json_str(
        m.signer.ephemeral_key_id@,
    ) + "}"@) + ",\"signature\":"@ + json_str(sig) + "}"@
}

/// The JSON object text of string-to-string entries, in their order.
pub open spec fn text_map_text(es: Seq<(String, String)>) -> Seq<char> {
    "{"@ + join_comma(es.map_values(|e: (String, String)| json_str(e.0@) + ":"@ + json_str(e.1@))) + "}"@
}

/// The metadata member's text: absent when there is no metadata, else the
/// JSON object of its entries, in their order.
pub open spec fn metadata_member_text(es: Seq<(String, JsonValue)>) -> Seq<char> {
    if es.len() == 0 {
        Seq::<char>::empty()
    } else {
        ",\"metadata\":{"@ + join_comma(es.map_values(|e: (String, JsonValue)| json_str(e.0@) + ":"@ + enc_json(e.1)))
            + "}"@
    }
}

/// The bytes a manifest's signature covers are the UTF-8 of its JSON text
/// with an empty signature, and that text carries every field but the
/// signature, in order: the run id, the stages, the production time, the
/// artifact hashes, the metadata when there is any, and the signer.
pub proof fn law_signed_manifest_text_binds_its_fields(m: InterStageManifest)
    ensures
        manifest_signing_bytes(m) == encode_utf8(manifest_canon(m, Seq::<char>::empty())),
        manifest_canon(m, Seq::<char>::empty()) == manifest_text_head(m) + text_map_text(m.artifact_hashes@)
            + metadata_member_text(m.metadata@) + manifest_text_tail(m, Seq::<char>::empty()),
{
    reveal_strlit(":");
    reveal_strlit("{");
    reveal_strlit("}");
    let sig = Seq::<char>::empty();
    let t = manifest_canon(m, sig);
    assert(":"@ =~= seq![':']);
    assert(m.artifact_hashes@.map_values(|e: (String, String)| entry_canon(e)) =~= m.artifact_hashes@.map_values(
        |e: (String, String)| json_str(e.0@) + ":"@ + json_str(e.1@),
    ));
    assert(m.metadata@.map_values(|e: (String, JsonValue)| entry_canon(e)) =~= m.metadata@.map_values(
        |e: (String, JsonValue)| json_str(e.0@) + ":"@ + enc_json(e.1),
    ));
    assert(map_canon(m.artifact_hashes@) =~= text_map_text(m.artifact_hashes@));
    if m.metadata@.len() > 0 {
        reveal_strlit(",\"metadata\":{");
        reveal_strlit(",\"metadata\":");
        assert(nonempty_map_canon(",\"metadata\":"@, m.metadata@) =~= metadata_member_text(m.metadata@));
    } else {
        assert(nonempty_map_canon(",\"metadata\":"@, m.metadata@) =~= metadata_member_text(m.metadata@));
    }
    assert(t =~= manifest_text_head(m) + text_map_text(m.artifact_hashes@) + metadata_member_text(m.metadata@)
        + manifest_text_tail(m, sig));
}

} // verus!
