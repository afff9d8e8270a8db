//! The governance certificate: the data model of the single JSON artifact
//! that proves a factory pipeline run's chain from intent to audited output.
//!
//! Map-valued fields hold their entries in key order; timestamps are held as
//! their RFC 3339 text; inline JSON documents are [`JsonValue`]s.

use crate::canonical::{array_canon, certificate_canon, nonempty_array_canon, opt_canon, Canonical};
use crate::json::json_str;
use crate::crypto::{
    b64_decode, base64_standard_decode, ed25519_check_strict, ed25519_key, ed25519_point,
    ed25519_verify_strict,
};
use crate::digest::sha256_hex;
use crate::inter_stage_manifest::{
    fault_text, manifest_outcome, verify_manifest, InterStageManifest, RunKeyChain,
};
use crate::json::JsonValue;
use crate::sorted_map::SortedMap;
use crate::text::{
    chars_of, concat2, concat3, concat4, concat5, concat6, dec, dec_string, debug_quoted, lemma_seq_add_empty,
    lemma_seq_assoc, push_msg, push_msgs, str_debug, str_eq, views,
};
use vstd::utf8::encode_utf8;
use vstd::prelude::*;

pub use crate::bindings::{
    adjudicate_corpus_binding_state, adjudicate_sbom_binding_state, CorpusBindingState, SbomBindingState,
    SBOM_AUDIT_RELPATH, SBOM_BOM_RELPATH,
};
pub use crate::digest::sha256_bytes;
pub use crate::platform::verify_certificate_with_platform;
pub use crate::posture::{adjudicate_agentic_posture, agentic_posture_binding_inconsistencies, PostureCrossCheckOutcome};

verus! {

/// The only certificate format version the verifier accepts.
pub const CERTIFICATE_VERSION: &'static str = "1.5.0";

/// A governance certificate.
#[derive(Debug)]
pub struct GovernanceCertificate {
    pub certificate_version: String,
    pub pipeline_run_id: String,
    pub timestamp: String,
    pub status: CertificateStatus,
    pub intent: IntentRecord,
    pub build_spec: BuildSpecRecord,
    pub stages: Vec<StageRecord>,
    pub verification: VerificationRecord,
    pub proof_chain: ProofChainSummary,
    pub compliance: Option<ComplianceRecord>,
    pub signer: Option<Signer>,
    pub inter_stage_chain: Option<InterStageChainRecord>,
    pub admitted_envelope_hash: Option<String>,
    pub goal_id: Option<String>,
    pub intent_capsule_hash: Option<String>,
    pub consumed_overrides: Vec<ConsumedOverride>,
    pub corpus_binding: Option<CorpusBinding>,
    pub sbom_artifact_binding: Option<SbomArtifactBinding>,
    pub agentic_posture_binding: Option<AgenticPostureBinding>,
    /// Lowercase hex SHA-256 of the canonical JSON with `certificate_hash` and
    /// `cert_signature` emptied and `platform_countersign` removed.
    pub certificate_hash: String,
    /// Base64 Ed25519 public key (32 bytes).
    pub signing_public_key: String,
    /// Base64 Ed25519 signature (64 bytes) over the canonical JSON with
    /// `cert_signature` emptied and `platform_countersign` removed.
    pub cert_signature: String,
    pub signing_attestation: SigningAttestation,
    /// The platform seal applied after emission; outside the hash and the
    /// engine signature.
    pub platform_countersign: Option<PlatformCountersign>,
}

/// The platform seal on an emitted certificate.
#[derive(Debug, Clone, PartialEq, Eq)]
pub struct PlatformCountersign {
    pub countersign_jws: String,
    pub kid: String,
    pub countersigned_at: String,
}

/// The corpus attestation in effect at the run, by reference.
#[derive(Debug, Clone, PartialEq, Eq)]
pub struct CorpusBinding {
    pub corpus_attestation_hash: String,
    pub spec_spine_version: String,
}

/// The produced application's BOM and dependency-audit binding, by hash.
#[derive(Debug, Clone, PartialEq, Eq)]
pub struct SbomArtifactBinding {
    pub bom_hash: String,
    pub audit_hash: String,
    pub bom_tool_version: String,
}

/// The produced application's declared agentic posture.
#[derive(Debug)]
pub struct AgenticPostureBinding {
    /// `none`, `declared`, or `governed`.
    pub posture: String,
    /// Whether the posture was defaulted rather than authored.
    pub defaulted: bool,
    pub surfaces: Vec<CertAgenticSurface>,
}

/// One enumerated agentic surface.
#[derive(Debug)]
pub struct CertAgenticSurface {
    pub kind: String,
    pub description: Option<String>,
    /// Inline governance envelope for a `governed` surface.
    pub governance_envelope: Option<JsonValue>,
}

/// One consumed override of admitted factory content.
#[derive(Debug, Clone, PartialEq, Eq)]
pub struct ConsumedOverride {
    pub artifact_id: String,
    pub path: String,
    pub content_hash: String,
    pub author: Option<String>,
    pub modified_at: Option<String>,
    pub verified: bool,
    pub verified_by: Option<String>,
}

/// Trust posture for the signing public key.
#[derive(Debug, Clone, PartialEq, Eq)]
pub struct SigningAttestation {
    pub kind: SigningAttestationKind,
    pub note: Option<String>,
}

#[derive(Debug, Clone, Copy, PartialEq, Eq)]
pub enum SigningAttestationKind {
    Unsigned,
    Ephemeral,
    Operator,
    SigstoreRekor,
}

impl Default for SigningAttestationKind {
    /// `Unsigned`: no signing key was recorded.
    fn default() -> (res: SigningAttestationKind)
        ensures
            res == SigningAttestationKind::Unsigned,
    {
        SigningAttestationKind::Unsigned
    }
}

impl Default for SigningAttestation {
    /// An `Unsigned` attestation with no note.
    fn default() -> (res: SigningAttestation)
        ensures
            res.kind == SigningAttestationKind::Unsigned,
            res.note is None,
    {
        SigningAttestation { kind: SigningAttestationKind::Unsigned, note: None }
    }
}

#[derive(Debug, Clone, Copy, PartialEq, Eq)]
pub enum CertificateStatus {
    Complete,
    Incomplete,
}

/// The run's signed inter-stage manifest chain and the key chain it replays
/// against.
#[derive(Debug)]
pub struct InterStageChainRecord {
    pub key_chain: RunKeyChain,
    pub manifests: Vec<InterStageManifest>,
}

/// Identity attribution for the principal that drove the run.
#[derive(Debug, Clone, PartialEq, Eq)]
pub struct Signer {
    pub subject: String,
    pub identity_provider: String,
    pub session_id: Option<String>,
}

/// The intent that initiated the pipeline.
#[derive(Debug, Clone, PartialEq, Eq)]
pub struct IntentRecord {
    pub requirements_hash: String,
    pub spec_id: Option<String>,
    pub spec_hash: Option<String>,
}

/// The frozen Build Spec and its approval.
#[derive(Debug, Clone, PartialEq, Eq)]
pub struct BuildSpecRecord {
    pub hash: String,
    pub approval_record: Option<ApprovalRecord>,
}

#[derive(Debug, Clone, PartialEq, Eq)]
pub struct ApprovalRecord {
    pub approved_by: Option<String>,
    pub approved_at: String,
    pub gate_type: String,
}

/// Per-stage record.
#[derive(Debug, Clone, PartialEq, Eq)]
pub struct StageRecord {
    pub stage_id: String,
    pub status: StageOutcome,
    /// SHA-256 hashes of the output artifacts, keyed by artifact name.
    pub artifact_hashes: SortedMap<String>,
    pub gate_result: Option<GateResultRecord>,
    pub duration_ms: Option<u64>,
    pub sandbox_execution: Option<SandboxExecutionRecord>,
}

/// Per-stage sandbox-execution binding.
#[derive(Debug, Clone, PartialEq, Eq)]
pub struct SandboxExecutionRecord {
    pub command: Vec<String>,
    pub input_artifact_hashes: SortedMap<String>,
    pub output_artifact_hashes: SortedMap<String>,
    pub resource_peak: SandboxResourcePeak,
    pub isolation_tier: u8,
    pub runtime_descriptor: String,
    pub deadline_hit: bool,
    pub exit_code: i32,
}

#[derive(Debug, Clone, Copy, PartialEq, Eq)]
pub struct SandboxResourcePeak {
    pub cpu_milli_peak: u32,
    pub memory_bytes_peak: u64,
    pub pid_peak: u32,
}

#[derive(Debug, Clone, Copy, PartialEq, Eq)]
pub enum StageOutcome {
    Passed,
    Failed,
    Skipped,
}

#[derive(Debug, Clone, Copy, PartialEq, Eq)]
pub struct GateResultRecord {
    pub passed: bool,
    pub checks_run: u32,
    pub checks_failed: u32,
}

/// Aggregate verification outcomes.
#[derive(Debug, Clone, Copy, PartialEq, Eq)]
pub struct VerificationRecord {
    pub compile: VerificationOutcome,
    pub test: VerificationOutcome,
    pub lint: VerificationOutcome,
    pub typecheck: VerificationOutcome,
    pub security_scan: VerificationOutcome,
}

#[derive(Debug, Clone, Copy, PartialEq, Eq)]
pub enum VerificationOutcome {
    Passed,
    Failed,
    Skipped,
}

/// Summary of the proof chain.
#[derive(Debug, Clone, PartialEq, Eq)]
pub struct ProofChainSummary {
    pub record_count: u64,
    pub first_record_hash: Option<String>,
    pub last_record_hash: Option<String>,
    pub chain_integrity: ChainIntegrity,
}

#[derive(Debug, Clone, Copy, PartialEq, Eq)]
pub enum ChainIntegrity {
    Verified,
    Unverified,
    Empty,
}

/// Compliance mapping for the run.
#[derive(Debug, Clone, PartialEq, Eq)]
pub struct ComplianceRecord {
    pub frameworks: Vec<String>,
    pub mappings: Vec<ComplianceMapping>,
}

#[derive(Debug, Clone, PartialEq, Eq)]
pub struct ComplianceMapping {
    pub control: String,
    pub mechanism: String,
    pub status: String,
}


// ── Hash and signature ───────────────────────────────────────────────

/// The content-binding hash of a certificate: lowercase hex SHA-256 of the
/// UTF-8 canonical JSON with `certificate_hash` and `cert_signature` emptied
/// and the platform countersign removed.
pub open spec fn certificate_hash_of(c: GovernanceCertificate) -> Seq<char> {
    sha256_hex(encode_utf8(certificate_canon(c, Seq::<char>::empty())))
}

/// The bytes the engine signature covers: the UTF-8 canonical JSON with
/// `cert_signature` emptied and the platform countersign removed.
pub open spec fn certificate_signing_bytes(c: GovernanceCertificate) -> Seq<u8> {
    encode_utf8(certificate_canon(c, c.certificate_hash@))
}

/// Compute the content-binding SHA-256 hash of a certificate: 64 lowercase
/// hex digits.
pub fn compute_certificate_hash(cert: &GovernanceCertificate) -> (res: String)
    ensures
        res@ == certificate_hash_of(*cert),
        res@.len() == 64,
        crate::digest::is_lower_hex(res@),
{
    let mut canonical = String::new();
    let empty = String::new();
    crate::canonical::write_certificate_form(&mut canonical, cert, &empty);
    assert(canonical@ =~= certificate_canon(*cert, Seq::<char>::empty()));
    sha256_bytes(canonical.as_str().as_bytes())
}

/// The outcome of the Ed25519 engine-signature check, with the diagnostic on
/// failure: both key and signature must be present, decode as base64 to 32
/// and 64 bytes, the key must be a valid point, and the signature must verify
/// strictly over [`certificate_signing_bytes`].
pub open spec fn signature_outcome(c: GovernanceCertificate) -> Result<(), Seq<char>> {
    if c.signing_public_key@.len() == 0 {
        Err("certificate is unsigned (signing_public_key empty) -- rejected"@)
    } else if c.cert_signature@.len() == 0 {
        Err("certificate is unsigned (cert_signature empty) -- rejected"@)
    } else {
        match base64_standard_decode(c.signing_public_key@) {
            Err(e) => Err("signing_public_key base64 decode: "@ + e),
            Ok(pk) => if pk.len() != 32 {
                Err("signing_public_key length "@ + dec(pk.len()) + " != 32"@)
            } else {
                match ed25519_point(pk) {
                    Err(e) => Err("signing_public_key not a valid Ed25519 point: "@ + e),
                    Ok(()) => match base64_standard_decode(c.cert_signature@) {
                        Err(e) => Err("cert_signature base64 decode: "@ + e),
                        Ok(sig) => if sig.len() != 64 {
                            Err("cert_signature length "@ + dec(sig.len()) + " != 64"@)
                        } else {
                            match ed25519_verify_strict(pk, certificate_signing_bytes(c), sig) {
                                Err(e) => Err("Ed25519 signature verification failed: "@ + e),
                                Ok(()) => Ok(()),
                            }
                        },
                    },
                }
            },
        }
    }
}

/// Verify the Ed25519 engine signature on a certificate.
pub fn verify_certificate_signature(cert: &GovernanceCertificate) -> (res: Result<(), String>)
    ensures
        match signature_outcome(*cert) {
            Ok(()) => res is Ok,
            Err(m) => res matches Err(e) && e@ == m,
        },
{
    if cert.signing_public_key.as_str().is_empty() {
        return Err(String::from_str("certificate is unsigned (signing_public_key empty) -- rejected"));
    }
    if cert.cert_signature.as_str().is_empty() {
        return Err(String::from_str("certificate is unsigned (cert_signature empty) -- rejected"));
    }
    let pk = match b64_decode(cert.signing_public_key.as_str()) {
        Ok(b) => b,
        Err(e) => {
            return Err(concat2("signing_public_key base64 decode: ", e.as_str()));
        },
    };
    if pk.len() != 32 {
        let n = dec_string(pk.len() as u64);
        return Err(concat3("signing_public_key length ", n.as_str(), " != 32"));
    }
    let key = match ed25519_key(pk.as_slice()) {
        Ok(k) => k,
        Err(e) => {
            return Err(concat2("signing_public_key not a valid Ed25519 point: ", e.as_str()));
        },
    };
    let sig = match b64_decode(cert.cert_signature.as_str()) {
        Ok(b) => b,
        Err(e) => {
            return Err(concat2("cert_signature base64 decode: ", e.as_str()));
        },
    };
    if sig.len() != 64 {
        let n = dec_string(sig.len() as u64);
        return Err(concat3("cert_signature length ", n.as_str(), " != 64"));
    }
    let mut canonical = String::new();
    crate::canonical::write_certificate_form(&mut canonical, cert, &cert.certificate_hash);
    assert(canonical@ =~= certificate_canon(*cert, cert.certificate_hash@));
    match ed25519_check_strict(&key, canonical.as_str().as_bytes(), sig.as_slice()) {
        Ok(()) => Ok(()),
        Err(e) => Err(concat2("Ed25519 signature verification failed: ", e.as_str())),
    }
}

// ── Path confinement ─────────────────────────────────────────────────

/// `v[i..i+2]` is a `..` path segment (bounded by `/` or the string's ends).
pub open spec fn is_parent_segment(v: Seq<char>, i: int) -> bool {
    &&& 0 <= i
    &&& i + 2 <= v.len()
    &&& v[i] == '.'
    &&& v[i + 1] == '.'
    &&& (i == 0 || v[i - 1] == '/')
    &&& (i + 2 == v.len() || v[i + 2] == '/')
}

/// A relative path fragment escapes its base directory when it is absolute
/// (starts with `/`) or has a `..` component.
pub open spec fn path_escapes(v: Seq<char>) -> bool {
    (v.len() > 0 && v[0] == '/') || exists|i: int| is_parent_segment(v, i)
}

/// The refusal diagnostic for an escaping path fragment.
pub open spec fn escape_message(label: Seq<char>, value: Seq<char>) -> Seq<char> {
    "refusing to read "@ + label + " "@ + str_debug(value)
        + ": path escapes --artifact-dir (absolute path or `..` traversal in an untrusted certificate field)"@
}

/// Refuse a path fragment (from the untrusted certificate) that would escape
/// the artifact directory.
pub fn ensure_in_tree(label: &str, value: &str) -> (res: Result<(), String>)
    ensures
        res is Ok <==> !path_escapes(value@),
        res matches Err(e) ==> e@ == escape_message(label@, value@),
{
    let v = chars_of(value);
    let n = v.len();
    let mut escapes = n > 0 && v[0] == '/';
    if !escapes {
        let mut i: usize = 0;
        while i < n && n - i >= 2
            invariant
                v@ == value@,
                i <= n,
                n == v@.len(),
                !escapes ==> forall|j: int| 0 <= j < i ==> !is_parent_segment(value@, j),
                escapes ==> path_escapes(value@),
            decreases n - i,
        {
            if v[i] == '.' && v[i + 1] == '.' && (i == 0 || v[i - 1] == '/') && (i + 2 == n || v[i + 2]
                == '/') {
                assert(is_parent_segment(value@, i as int));
                escapes = true;
            }
            i = i + 1;
        }
        if !escapes {
            assert forall|j: int| !is_parent_segment(value@, j) by {
                if 0 <= j && j + 2 <= n {
                    assert(j < i || n - i < 2);
                }
            }
        }
    }
    if escapes {
        let q = debug_quoted(value);
        Err(
            concat5(
                "refusing to read ",
                label,
                " ",
                q.as_str(),
                ": path escapes --artifact-dir (absolute path or `..` traversal in an untrusted certificate field)",
            ),
        )
    } else {
        Ok(())
    }
}


// ── Stage artifacts ──────────────────────────────────────────────────

/// The outcome of reading one recorded stage artifact,
/// `<artifact dir>/<stage_id>/<artifact_name>`: its bytes, or the read error.
#[derive(Debug)]
pub struct ArtifactFile {
    pub stage_id: String,
    pub artifact_name: String,
    pub contents: Result<Vec<u8>, String>,
}

/// The `(stage_id, artifact_name)` pairs whose files the verifier reads: every
/// recorded artifact of a stage whose id, and whose own name, stay inside the
/// artifact directory, in stage then key order.
pub open spec fn planned_reads(stages: Seq<StageRecord>) -> Seq<(Seq<char>, Seq<char>)>
    decreases stages.len(),
{
    if stages.len() == 0 {
        seq![]
    } else {
        planned_reads(stages.drop_last()) + stage_reads(stages.last())
    }
}

/// The reads of one stage.
pub open spec fn stage_reads(s: StageRecord) -> Seq<(Seq<char>, Seq<char>)> {
    if path_escapes(s.stage_id@) {
        seq![]
    } else {
        entry_reads(s.stage_id@, s.artifact_hashes@)
    }
}

/// The reads of a stage's recorded artifacts.
pub open spec fn entry_reads(stage: Seq<char>, entries: Seq<(String, String)>) -> Seq<(Seq<char>, Seq<char>)>
    decreases entries.len(),
{
    if entries.len() == 0 {
        seq![]
    } else {
        entry_reads(stage, entries.drop_last()) + (if path_escapes(entries.last().0@) {
            Seq::<(Seq<char>, Seq<char>)>::empty()
        } else {
            seq![(stage, entries.last().0@)]
        })
    }
}

/// Index of the first supplied file for `(stage, name)`, from `i` on.
pub open spec fn find_artifact(fs: Seq<ArtifactFile>, stage: Seq<char>, name: Seq<char>, i: int) -> Option<int>
    decreases fs.len() - i,
{
    if i < 0 || i >= fs.len() {
        None
    } else if fs[i].stage_id@ == stage && fs[i].artifact_name@ == name {
        Some(i)
    } else {
        find_artifact(fs, stage, name, i + 1)
    }
}

/// The finding for one recorded artifact: a refusal if its name escapes, a
/// read failure if its file is missing or unreadable, a mismatch if the file's
/// SHA-256 differs from the recorded hash, nothing otherwise.
pub open spec fn artifact_entry_errors(stage: Seq<char>, name: Seq<char>, recorded: Seq<char>, fs: Seq<
    ArtifactFile,
>) -> Seq<Seq<char>> {
    if path_escapes(name) {
        seq![escape_message("artifact name"@, name)]
    } else {
        match find_artifact(fs, stage, name, 0) {
            None => seq!["cannot read artifact "@ + stage + "/"@ + name + ": not supplied"@],
            Some(i) => match fs[i].contents {
                Ok(bytes) => if sha256_hex(bytes@) != recorded {
                    seq![
                        "artifact hash mismatch: "@ + stage + "/"@ + name + ": expected "@ + recorded
                            + ", got "@ + sha256_hex(bytes@),
                    ]
                } else {
                    seq![]
                },
                Err(e) => seq!["cannot read artifact "@ + stage + "/"@ + name + ": "@ + e@],
            },
        }
    }
}

/// The findings for a stage's recorded artifacts.
pub open spec fn entry_errors(stage: Seq<char>, entries: Seq<(String, String)>, fs: Seq<ArtifactFile>) -> Seq<
    Seq<char>,
>
    decreases entries.len(),
{
    if entries.len() == 0 {
        seq![]
    } else {
        entry_errors(stage, entries.drop_last(), fs) + artifact_entry_errors(
            stage,
            entries.last().0@,
            entries.last().1@,
            fs,
        )
    }
}

/// The findings for one stage.
pub open spec fn stage_errors(s: StageRecord, fs: Seq<ArtifactFile>) -> Seq<Seq<char>> {
    if path_escapes(s.stage_id@) {
        seq![escape_message("stage id"@, s.stage_id@)]
    } else {
        entry_errors(s.stage_id@, s.artifact_hashes@, fs)
    }
}

/// The findings for all stages, in order.
pub open spec fn stages_errors(stages: Seq<StageRecord>, fs: Seq<ArtifactFile>) -> Seq<Seq<char>>
    decreases stages.len(),
{
    if stages.len() == 0 {
        seq![]
    } else {
        stages_errors(stages.drop_last(), fs) + stage_errors(stages.last(), fs)
    }
}

/// The `(stage_id, artifact_name)` pairs whose files the verifier reads, for
/// the caller to read from `<artifact dir>/<stage_id>/<artifact_name>`.
pub fn artifact_reads(cert: &GovernanceCertificate) -> (res: Vec<(String, String)>)
    ensures
        res@.map_values(|p: (String, String)| (p.0@, p.1@)) == planned_reads(cert.stages@),
{
    let mut res: Vec<(String, String)> = Vec::new();
    let n = cert.stages.len();
    let mut i: usize = 0;
    while i < n
        invariant
            n == cert.stages@.len(),
            i <= n,
            res@.map_values(|p: (String, String)| (p.0@, p.1@)) == planned_reads(cert.stages@.take(i as int)),
        decreases n - i,
    {
        let stage = &cert.stages[i];
        let ghost before = res@.map_values(|p: (String, String)| (p.0@, p.1@));
        if ensure_in_tree("stage id", stage.stage_id.as_str()).is_ok() {
            let m = stage.artifact_hashes.len();
            let mut j: usize = 0;
            while j < m
                invariant
                    m == stage.artifact_hashes@.len(),
                    j <= m,
                    res@.map_values(|p: (String, String)| (p.0@, p.1@)) == before + entry_reads(
                        stage.stage_id@,
                        stage.artifact_hashes@.take(j as int),
                    ),
                decreases m - j,
            {
                let name = &stage.artifact_hashes.entries()[j].0;
                let ghost mid = res@.map_values(|p: (String, String)| (p.0@, p.1@));
                let ok = ensure_in_tree("artifact name", name.as_str()).is_ok();
                if ok {
                    res.push((stage.stage_id.clone(), name.clone()));
                }
                proof {
                    let t = stage.artifact_hashes@.take(j + 1);
                    assert(t.drop_last() =~= stage.artifact_hashes@.take(j as int));
                    assert(t.last() == stage.artifact_hashes@[j as int]);
                    let piece = if path_escapes(t.last().0@) {
                        Seq::<(Seq<char>, Seq<char>)>::empty()
                    } else {
                        seq![(stage.stage_id@, t.last().0@)]
                    };
                    assert(res@.map_values(|p: (String, String)| (p.0@, p.1@)) =~= mid + piece);
                    lemma_seq_assoc(before, entry_reads(stage.stage_id@, stage.artifact_hashes@.take(j as int)), piece);
                }
                j = j + 1;
            }
            assert(stage.artifact_hashes@.take(m as int) =~= stage.artifact_hashes@);
        } else {
            proof { lemma_seq_add_empty(before); }
        }
        proof {
            let t = cert.stages@.take(i + 1);
            assert(t.drop_last() =~= cert.stages@.take(i as int));
            assert(t.last() == cert.stages@[i as int]);
        }
        i = i + 1;
    }
    assert(cert.stages@.take(n as int) =~= cert.stages@);
    res
}

/// Index of the first supplied file for `(stage, name)`.
fn lookup_artifact(files: &Vec<ArtifactFile>, stage: &str, name: &str) -> (res: Option<usize>)
    ensures
        match find_artifact(files@, stage@, name@, 0) {
            Some(i) => res == Some(i as usize),
            None => res is None,
        },
        res matches Some(i) ==> i < files@.len() && find_artifact(files@, stage@, name@, 0) == Some(
            i as int,
        ),
{
    let n = files.len();
    let mut i: usize = 0;
    while i < n
        invariant
            n == files@.len(),
            i <= n,
            find_artifact(files@, stage@, name@, 0) == find_artifact(files@, stage@, name@, i as int),
        decreases n - i,
    {
        assert(files@[i as int] == files[i as int]);
        if str_eq(files[i].stage_id.as_str(), stage) && str_eq(files[i].artifact_name.as_str(), name) {
            return Some(i);
        }
        i = i + 1;
    }
    None
}

/// The finding (if any) for one recorded artifact.
fn check_artifact_entry(stage: &str, name: &str, recorded: &str, files: &Vec<ArtifactFile>) -> (res: Vec<
    String,
>)
    ensures
        views(res@) == artifact_entry_errors(stage@, name@, recorded@, files@),
{
    let mut res: Vec<String> = Vec::new();
    assert(views(res@) =~= Seq::<Seq<char>>::empty());
    match ensure_in_tree("artifact name", name) {
        Err(e) => {
            push_msg(&mut res, e);
            assert(views(res@) =~= seq![escape_message("artifact name"@, name@)]);
            return res;
        },
        Ok(()) => {},
    }
    match lookup_artifact(files, stage, name) {
        None => {
            push_msg(&mut res, concat5("cannot read artifact ", stage, "/", name, ": not supplied"));
            assert(views(res@) =~= artifact_entry_errors(stage@, name@, recorded@, files@));
        },
        Some(i) => {
            assert(find_artifact(files@, stage@, name@, 0) == Some(i as int));
            let ghost entry = files@[i as int];
            match &files[i].contents {
                Ok(bytes) => {
                    assert(entry.contents == Ok::<Vec<u8>, String>(*bytes));
                    let actual = sha256_bytes(bytes.as_slice());
                    if !str_eq(actual.as_str(), recorded) {
                        let mut m = concat5("artifact hash mismatch: ", stage, "/", name, ": expected ");
                        m.append(recorded);
                        m.append(", got ");
                        m.append(actual.as_str());
                        push_msg(&mut res, m);
                    }
                    assert(views(res@) =~= artifact_entry_errors(stage@, name@, recorded@, files@));
                },
                Err(e) => {
                    assert(entry.contents == Err::<Vec<u8>, String>(*e));
                    let mut m = concat5("cannot read artifact ", stage, "/", name, ": ");
                    m.append(e.as_str());
                    push_msg(&mut res, m);
                    assert(views(res@) =~= artifact_entry_errors(stage@, name@, recorded@, files@));
                },
            }
        },
    }
    assert(views(res@) =~= artifact_entry_errors(stage@, name@, recorded@, files@));
    res
}

/// The findings for all stages' recorded artifacts.
fn check_stage_artifacts(stages: &Vec<StageRecord>, files: &Vec<ArtifactFile>) -> (res: Vec<String>)
    ensures
        views(res@) == stages_errors(stages@, files@),
{
    let mut res: Vec<String> = Vec::new();
    let n = stages.len();
    let mut i: usize = 0;
    while i < n
        invariant
            n == stages@.len(),
            i <= n,
            views(res@) == stages_errors(stages@.take(i as int), files@),
        decreases n - i,
    {
        let stage = &stages[i];
        let ghost before = views(res@);
        match ensure_in_tree("stage id", stage.stage_id.as_str()) {
            Err(e) => {
                push_msg(&mut res, e);
                assert(seq![escape_message("stage id"@, stage.stage_id@)] =~= Seq::<Seq<char>>::empty().push(
                    escape_message("stage id"@, stage.stage_id@),
                ));
                assert(views(res@) =~= before + stage_errors(*stage, files@));
            },
            Ok(()) => {
                let m = stage.artifact_hashes.len();
                let mut j: usize = 0;
                while j < m
                    invariant
                        m == stage.artifact_hashes@.len(),
                        j <= m,
                        views(res@) == before + entry_errors(
                            stage.stage_id@,
                            stage.artifact_hashes@.take(j as int),
                            files@,
                        ),
                    decreases m - j,
                {
                    let (name, recorded) = &stage.artifact_hashes.entries()[j];
                    let found = check_artifact_entry(stage.stage_id.as_str(), name.as_str(), recorded.as_str(), files);
                    let ghost mid = views(res@);
                    push_msgs(&mut res, found);
                    proof {
                        let t = stage.artifact_hashes@.take(j + 1);
                        assert(t.drop_last() =~= stage.artifact_hashes@.take(j as int));
                        assert(t.last() == stage.artifact_hashes@[j as int]);
                        lemma_seq_assoc(
                            before,
                            entry_errors(stage.stage_id@, stage.artifact_hashes@.take(j as int), files@),
                            artifact_entry_errors(stage.stage_id@, name@, recorded@, files@),
                        );
                    }
                    j = j + 1;
                }
                assert(stage.artifact_hashes@.take(m as int) =~= stage.artifact_hashes@);
            },
        }
        proof {
            let t = stages@.take(i + 1);
            assert(t.drop_last() =~= stages@.take(i as int));
            assert(t.last() == stages@[i as int]);
        }
        i = i + 1;
    }
    assert(stages@.take(n as int) =~= stages@);
    res
}


// ── Certificate verification ─────────────────────────────────────────

/// Result of certificate verification.
#[derive(Debug)]
pub struct VerificationResult {
    pub valid: bool,
    pub errors: Vec<String>,
    /// Non-fatal observations, visible but never equivalent to a pass.
    pub notices: Vec<String>,
}

/// The signature finding.
pub open spec fn signature_errors(c: GovernanceCertificate) -> Seq<Seq<char>> {
    match signature_outcome(c) {
        Ok(()) => seq![],
        Err(m) => seq![m],
    }
}

/// The self-hash finding.
pub open spec fn hash_errors(c: GovernanceCertificate) -> Seq<Seq<char>> {
    if c.certificate_hash@ != certificate_hash_of(c) {
        seq!["certificate hash mismatch: expected "@ + certificate_hash_of(c) + ", got "@ + c.certificate_hash@]
    } else {
        seq![]
    }
}

/// The stage-artifact findings (none when no artifact directory is given).
pub open spec fn artifact_errors(c: GovernanceCertificate, files: Option<Seq<ArtifactFile>>) -> Seq<Seq<char>> {
    match files {
        None => seq![],
        Some(fs) => stages_errors(c.stages@, fs),
    }
}

/// The format-version finding.
pub open spec fn version_errors(c: GovernanceCertificate) -> Seq<Seq<char>> {
    if c.certificate_version@ != CERTIFICATE_VERSION@ {
        seq!["unsupported certificate version: "@ + c.certificate_version@]
    } else {
        seq![]
    }
}

/// The finding for one manifest of the inter-stage chain.
pub open spec fn manifest_errors(m: InterStageManifest, chain: RunKeyChain) -> Seq<Seq<char>> {
    match manifest_outcome(m, chain, None) {
        Ok(()) => seq![],
        Err(f) => seq![
            "inter-stage manifest "@ + m.from_stage@ + "→"@ + m.to_stage@ + " failed verification: "@
                + fault_text(f),
        ],
    }
}

/// The findings for a list of manifests, in order.
pub open spec fn manifests_errors(ms: Seq<InterStageManifest>, chain: RunKeyChain) -> Seq<Seq<char>>
    decreases ms.len(),
{
    if ms.len() == 0 {
        seq![]
    } else {
        manifests_errors(ms.drop_last(), chain) + manifest_errors(ms.last(), chain)
    }
}

/// The inter-stage chain findings: a run-id mismatch between the key chain
/// and the certificate, then each manifest's replay.
pub open spec fn chain_errors(c: GovernanceCertificate) -> Seq<Seq<char>> {
    match c.inter_stage_chain {
        None => seq![],
        Some(ch) => (if ch.key_chain.run_id@ != c.pipeline_run_id@ {
            seq![
                "inter-stage chain run_id "@ + ch.key_chain.run_id@
                    + " does not match certificate pipeline_run_id "@ + c.pipeline_run_id@,
            ]
        } else {
            Seq::<Seq<char>>::empty()
        }) + manifests_errors(ch.manifests@, ch.key_chain),
    }
}

/// Every finding of the offline chain, in the order they are reported:
/// signature, self-hash, stage artifacts, version, inter-stage chain.
pub open spec fn certificate_errors(c: GovernanceCertificate, files: Option<Seq<ArtifactFile>>) -> Seq<Seq<char>> {
    signature_errors(c) + hash_errors(c) + artifact_errors(c, files) + version_errors(c) + chain_errors(c)
}

/// The views of optional artifact files.
pub open spec fn files_view(files: Option<&Vec<ArtifactFile>>) -> Option<Seq<ArtifactFile>> {
    match files {
        Some(f) => Some(f@),
        None => None,
    }
}

fn check_manifests(ms: &Vec<InterStageManifest>, chain: &RunKeyChain) -> (res: Vec<String>)
    ensures
        views(res@) == manifests_errors(ms@, *chain),
{
    let mut res: Vec<String> = Vec::new();
    let n = ms.len();
    let mut i: usize = 0;
    while i < n
        invariant
            n == ms@.len(),
            i <= n,
            views(res@) == manifests_errors(ms@.take(i as int), *chain),
        decreases n - i,
    {
        let m = &ms[i];
        let ghost before = views(res@);
        let found = manifest_findings(m, chain);
        push_msgs(&mut res, found);
        proof {
            let t = ms@.take(i + 1);
            assert(t.drop_last() =~= ms@.take(i as int));
            assert(t.last() == ms@[i as int]);
        }
        i = i + 1;
    }
    assert(ms@.take(n as int) =~= ms@);
    res
}

fn manifest_findings(m: &InterStageManifest, chain: &RunKeyChain) -> (res: Vec<String>)
    ensures
        views(res@) == manifest_errors(*m, *chain),
{
    let mut res: Vec<String> = Vec::new();
    assert(views(res@) =~= Seq::<Seq<char>>::empty());
    match verify_manifest(m, chain, None) {
        Ok(()) => {},
        Err(e) => {
            let text = e.message();
            push_msg(
                &mut res,
                concat6(
                    "inter-stage manifest ",
                    m.from_stage.as_str(),
                    "→",
                    m.to_stage.as_str(),
                    " failed verification: ",
                    text.as_str(),
                ),
            );
        },
    }
    assert(views(res@) =~= manifest_errors(*m, *chain));
    res
}

fn signature_findings(cert: &GovernanceCertificate) -> (res: Vec<String>)
    ensures
        views(res@) == signature_errors(*cert),
{
    let mut res: Vec<String> = Vec::new();
    assert(views(res@) =~= Seq::<Seq<char>>::empty());
    match verify_certificate_signature(cert) {
        Err(d) => {
            push_msg(&mut res, d);
        },
        Ok(()) => {},
    }
    assert(views(res@) =~= signature_errors(*cert));
    res
}

fn hash_findings(cert: &GovernanceCertificate) -> (res: Vec<String>)
    ensures
        views(res@) == hash_errors(*cert),
        res@.len() == 0 ==> cert.certificate_hash@.len() == 64 && crate::digest::is_lower_hex(cert.certificate_hash@),
{
    let mut res: Vec<String> = Vec::new();
    assert(views(res@) =~= Seq::<Seq<char>>::empty());
    let expected = compute_certificate_hash(cert);
    if !str_eq(cert.certificate_hash.as_str(), expected.as_str()) {
        push_msg(
            &mut res,
            concat4("certificate hash mismatch: expected ", expected.as_str(), ", got ", cert.certificate_hash.as_str()),
        );
    }
    assert(views(res@) =~= hash_errors(*cert));
    res
}

fn version_findings(cert: &GovernanceCertificate) -> (res: Vec<String>)
    ensures
        views(res@) == version_errors(*cert),
{
    let mut res: Vec<String> = Vec::new();
    assert(views(res@) =~= Seq::<Seq<char>>::empty());
    if !str_eq(cert.certificate_version.as_str(), CERTIFICATE_VERSION) {
        push_msg(&mut res, concat2("unsupported certificate version: ", cert.certificate_version.as_str()));
    }
    assert(views(res@) =~= version_errors(*cert));
    res
}

fn chain_findings(cert: &GovernanceCertificate) -> (res: Vec<String>)
    ensures
        views(res@) == chain_errors(*cert),
{
    let mut res: Vec<String> = Vec::new();
    assert(views(res@) =~= Seq::<Seq<char>>::empty());
    match &cert.inter_stage_chain {
        Some(chain_record) => {
            if !str_eq(chain_record.key_chain.run_id.as_str(), cert.pipeline_run_id.as_str()) {
                push_msg(
                    &mut res,
                    concat4(
                        "inter-stage chain run_id ",
                        chain_record.key_chain.run_id.as_str(),
                        " does not match certificate pipeline_run_id ",
                        cert.pipeline_run_id.as_str(),
                    ),
                );
            }
            let ghost head = views(res@);
            let found = check_manifests(&chain_record.manifests, &chain_record.key_chain);
            push_msgs(&mut res, found);
            assert(head =~= (if chain_record.key_chain.run_id@ != cert.pipeline_run_id@ {
                seq![
                    "inter-stage chain run_id "@ + chain_record.key_chain.run_id@
                        + " does not match certificate pipeline_run_id "@ + cert.pipeline_run_id@,
                ]
            } else {
                Seq::<Seq<char>>::empty()
            }));
        },
        None => {},
    }
    res
}

fn artifact_findings(cert: &GovernanceCertificate, artifact_files: Option<&Vec<ArtifactFile>>) -> (res: Vec<
    String,
>)
    ensures
        views(res@) == artifact_errors(*cert, files_view(artifact_files)),
{
    match artifact_files {
        Some(files) => check_stage_artifacts(&cert.stages, files),
        None => {
            let res: Vec<String> = Vec::new();
            assert(views(res@) =~= Seq::<Seq<char>>::empty());
            res
        },
    }
}

/// Verify a governance certificate's offline chain: the Ed25519 signature
/// (first, the authoritative check), the self-hash, the stage artifact hashes
/// against the supplied files (when an artifact directory was given), the
/// format version, and the inter-stage manifest chain.
pub fn verify_certificate(cert: &GovernanceCertificate, artifact_files: Option<&Vec<ArtifactFile>>) -> (res:
    VerificationResult)
    ensures
        views(res.errors@) == certificate_errors(*cert, files_view(artifact_files)),
        res.notices@.len() == 0,
        res.valid == (res.errors@.len() == 0),
        res.valid ==> cert.certificate_hash@.len() == 64 && crate::digest::is_lower_hex(cert.certificate_hash@),
{
    let mut errors = signature_findings(cert);
    let ghost e1 = views(errors@);
    let hashes = hash_findings(cert);
    let ghost hash_count = hashes@.len();
    push_msgs(&mut errors, hashes);
    let ghost e2 = views(errors@);
    assert(e2.len() == e1.len() + hash_count);
    push_msgs(&mut errors, artifact_findings(cert, artifact_files));
    let ghost e3 = views(errors@);
    push_msgs(&mut errors, version_findings(cert));
    let ghost e4 = views(errors@);
    push_msgs(&mut errors, chain_findings(cert));
    let valid = errors.len() == 0;
    proof {
        assert(views(errors@).len() == errors@.len());
        assert(views(errors@).len() >= e4.len() && e4.len() >= e3.len() && e3.len() >= e2.len());
    }
    VerificationResult { valid, errors, notices: Vec::new() }
}


// ── Laws ─────────────────────────────────────────────────────────────

/// The content-binding hash is invariant under signing: it does not depend on
/// the recorded hash, the engine signature or the platform countersign, so a
/// certificate can be signed, and sealed after emission, without changing it.
pub proof fn law_hash_ignores_signing_and_seal(
    c: GovernanceCertificate,
    recorded_hash: String,
    signature: String,
    seal: Option<PlatformCountersign>,
)
    ensures
        certificate_hash_of(
            (GovernanceCertificate {
                certificate_hash: recorded_hash,
                cert_signature: signature,
                platform_countersign: seal,
                ..c
            }),
        ) == certificate_hash_of(c),
{
    let d = GovernanceCertificate {
        certificate_hash: recorded_hash,
        cert_signature: signature,
        platform_countersign: seal,
        ..c
    };
    assert(certificate_canon(d, Seq::<char>::empty()) == certificate_canon(c, Seq::<char>::empty())) by {
        reveal(certificate_canon);
    }
}

/// The engine signature covers neither itself nor the platform countersign:
/// the signed bytes are unchanged by either.
pub proof fn law_signed_bytes_ignore_signature_and_seal(
    c: GovernanceCertificate,
    signature: String,
    seal: Option<PlatformCountersign>,
)
    ensures
        certificate_signing_bytes(
            (GovernanceCertificate { cert_signature: signature, platform_countersign: seal, ..c }),
        ) == certificate_signing_bytes(c),
{
    let d = GovernanceCertificate { cert_signature: signature, platform_countersign: seal, ..c };
    assert(certificate_canon(d, d.certificate_hash@) == certificate_canon(c, c.certificate_hash@)) by {
        reveal(certificate_canon);
    }
}

/// Sealing keeps the offline chain valid: every finding of
/// [`verify_certificate`] is the same whatever platform countersign the
/// certificate carries.
pub proof fn law_offline_chain_ignores_seal(
    c: GovernanceCertificate,
    seal: Option<PlatformCountersign>,
    files: Option<Seq<ArtifactFile>>,
)
    ensures
        certificate_errors((GovernanceCertificate { platform_countersign: seal, ..c }), files)
            == certificate_errors(c, files),
{
    let d = GovernanceCertificate { platform_countersign: seal, ..c };
    assert(signature_errors(d) == signature_errors(c)) by {
        law_signed_bytes_ignore_signature_and_seal(c, c.cert_signature, seal);
    }
    assert(hash_errors(d) == hash_errors(c)) by {
        law_hash_ignores_signing_and_seal(c, c.certificate_hash, c.cert_signature, seal);
    }
    assert(artifact_errors(d, files) == artifact_errors(c, files));
    assert(version_errors(d) == version_errors(c));
    assert(chain_errors(d) == chain_errors(c));
}

/// The supplied file of stage `stage` named `name`.
pub open spec fn is_file_of(f: ArtifactFile, stage: Seq<char>, name: Seq<char>) -> bool {
    f.stage_id@ == stage && f.artifact_name@ == name
}

proof fn lemma_find_artifact_from(fs: Seq<ArtifactFile>, stage: Seq<char>, name: Seq<char>, k: int)
    requires
        0 <= k <= fs.len(),
    ensures
        match find_artifact(fs, stage, name, k) {
            Some(i) => k <= i < fs.len() && is_file_of(fs[i], stage, name) && forall|j: int|
                k <= j < i ==> !is_file_of(#[trigger] fs[j], stage, name),
            None => forall|j: int| k <= j < fs.len() ==> !is_file_of(#[trigger] fs[j], stage, name),
        },
    decreases fs.len() - k,
{
    if k < fs.len() {
        lemma_find_artifact_from(fs, stage, name, k + 1);
    }
}

/// A recorded artifact is looked up among the supplied files by its stage id
/// and its name together: the file found is the first one of that stage with
/// that name, and none is found exactly when no file of that stage has it.
pub proof fn law_artifact_lookup_matches_stage_and_name(fs: Seq<ArtifactFile>, stage: Seq<char>, name: Seq<char>)
    ensures
        match find_artifact(fs, stage, name, 0) {
            Some(i) => 0 <= i < fs.len() && fs[i].stage_id@ == stage && fs[i].artifact_name@ == name && forall|j: int|
                0 <= j < i ==> !is_file_of(#[trigger] fs[j], stage, name),
            None => forall|j: int| 0 <= j < fs.len() ==> !is_file_of(#[trigger] fs[j], stage, name),
        },
{
    lemma_find_artifact_from(fs, stage, name, 0);
}

/// A recorded artifact for which no file of its stage and name was supplied
/// is reported unreadable, whatever files other stages or names supplied.
pub proof fn law_unsupplied_artifact_is_unreadable(
    stage: Seq<char>,
    name: Seq<char>,
    recorded: Seq<char>,
    fs: Seq<ArtifactFile>,
)
    requires
        !path_escapes(name),
        forall|j: int| 0 <= j < fs.len() ==> !is_file_of(#[trigger] fs[j], stage, name),
    ensures
        artifact_entry_errors(stage, name, recorded, fs) == seq![
            "cannot read artifact "@ + stage + "/"@ + name + ": not supplied"@,
        ],
{
    lemma_find_artifact_from(fs, stage, name, 0);
}

/// A recorded artifact is judged by the file supplied for its own stage and
/// name, whatever files other stages supplied: when that file's bytes hash to
/// the recorded value there is no finding, when they hash otherwise the
/// finding is a mismatch naming the recorded and the actual hash, and when
/// the file could not be read the finding says why.
pub proof fn law_artifact_judged_by_its_own_stage_file(
    stage: Seq<char>,
    name: Seq<char>,
    recorded: Seq<char>,
    fs: Seq<ArtifactFile>,
    k: int,
)
    requires
        !path_escapes(name),
        0 <= k < fs.len(),
        fs[k].stage_id@ == stage,
        fs[k].artifact_name@ == name,
        forall|j: int| 0 <= j < fs.len() && j != k ==> !is_file_of(#[trigger] fs[j], stage, name),
    ensures
        fs[k].contents is Ok && sha256_hex(fs[k].contents->Ok_0@) == recorded ==> artifact_entry_errors(
            stage,
            name,
            recorded,
            fs,
        ) == Seq::<Seq<char>>::empty(),
        fs[k].contents is Ok && sha256_hex(fs[k].contents->Ok_0@) != recorded ==> artifact_entry_errors(
            stage,
            name,
            recorded,
            fs,
        ) == seq![
            "artifact hash mismatch: "@ + stage + "/"@ + name + ": expected "@ + recorded + ", got "@ + sha256_hex(
                fs[k].contents->Ok_0@,
            ),
        ],
        fs[k].contents is Err ==> artifact_entry_errors(stage, name, recorded, fs) == seq![
            "cannot read artifact "@ + stage + "/"@ + name + ": "@ + fs[k].contents->Err_0@,
        ],
{
    lemma_find_artifact_from(fs, stage, name, 0);
    match find_artifact(fs, stage, name, 0) {
        Some(i) => {
            if i != k {
                assert(!is_file_of(fs[i], stage, name));
            }
        },
        None => {
            assert(!is_file_of(fs[k], stage, name));
        },
    }
}

proof fn lemma_prefix_of_sum(a: Seq<char>, b: Seq<char>)
    ensures
        a.len() <= (a + b).len(),
        (a + b).subrange(0, a.len() as int) == a,
{
    assert((a + b).subrange(0, a.len() as int) =~= a);
}

proof fn lemma_prefix_trans(a: Seq<char>, b: Seq<char>, c: Seq<char>)
    requires
        a.len() <= b.len(),
        b.subrange(0, a.len() as int) == a,
        b.len() <= c.len(),
        c.subrange(0, b.len() as int) == b,
    ensures
        a.len() <= c.len(),
        c.subrange(0, a.len() as int) == a,
{
    assert(c.subrange(0, a.len() as int) =~= b.subrange(0, a.len() as int));
}

proof fn lemma_suffix_of_sum(a: Seq<char>, b: Seq<char>)
    ensures
        b.len() <= (a + b).len(),
        (a + b).subrange((a + b).len() - b.len(), (a + b).len() as int) == b,
{
    assert((a + b).subrange((a + b).len() - b.len(), (a + b).len() as int) =~= b);
}

/// How a certificate's JSON text opens: its version, pipeline run id,
/// timestamp and status members, in that order.
pub open spec fn certificate_text_head(c: GovernanceCertificate) -> Seq<char> {
    "{\"certificateVersion\":"@ + json_str(c.certificate_version@) + ",\"pipelineRunId\":"@ + json_str(
        c.pipeline_run_id@,
    ) + ",\"timestamp\":"@ + json_str(c.timestamp@) + ",\"status\":"@ + json_str(
        match c.status {
            CertificateStatus::Complete => "complete"@,
            CertificateStatus::Incomplete => "incomplete"@,
        },
    )
}

/// How a certificate's JSON text closes: the hash text, the signing key, an
/// empty signature and the signing attestation.
pub open spec fn certificate_text_tail(c: GovernanceCertificate, hash_text: Seq<char>) -> Seq<char> {
    ",\"certificateHash\":"@ + json_str(hash_text) + ",\"signingPublicKey\":"@ + json_str(c.signing_public_key@)
        + ",\"certSignature\":"@ + json_str(Seq::<char>::empty()) + ",\"signingAttestation\":"@ + c.signing_attestation.canon() + "}"@
}

/// How a certificate's JSON text goes on from its status: the intent, build
/// spec, stages, verification and proof chain members, in that order.
pub open spec fn certificate_text_front(c: GovernanceCertificate) -> Seq<char> {
    certificate_text_head(c) + ",\"intent\":"@ + c.intent.canon() + ",\"buildSpec\":"@ + c.build_spec.canon()
        + ",\"stages\":"@ + array_canon(c.stages@) + ",\"verification\":"@ + c.verification.canon()
        + ",\"proofChain\":"@ + c.proof_chain.canon()
}

/// The certificate carries none of its optional members.
pub open spec fn optional_members_absent(c: GovernanceCertificate) -> bool {
    &&& c.compliance is None
    &&& c.signer is None
    &&& c.inter_stage_chain is None
    &&& c.admitted_envelope_hash is None
    &&& c.goal_id is None
    &&& c.intent_capsule_hash is None
    &&& c.consumed_overrides@.len() == 0
    &&& c.corpus_binding is None
    &&& c.sbom_artifact_binding is None
    &&& c.agentic_posture_binding is None
}

/// The certificate's canonical text, which its hash and engine signature
/// cover, opens with its version, pipeline run id, timestamp and status, in
/// that order, and closes with the hash text, the signing key, an empty
/// signature and the signing attestation: each of these fields is written
/// into the text the hash is taken of.
#[verifier::rlimit(100)]
pub proof fn law_certificate_text_binds_its_fields(c: GovernanceCertificate, hash_text: Seq<char>)
    ensures
        ({
            let t = certificate_canon(c, hash_text);
            let head = certificate_text_head(c);
            let tail = certificate_text_tail(c, hash_text);
            &&& head.len() + tail.len() <= t.len()
            &&& t.subrange(0, head.len() as int) == head
            &&& t.subrange(t.len() - tail.len(), t.len() as int) == tail
        }),
        certificate_hash_of(c) == sha256_hex(encode_utf8(certificate_canon(c, Seq::<char>::empty()))),
{
    let p0 = "{\"certificateVersion\":"@;
    let p1 = p0 + c.certificate_version.canon();
    let p2 = p1 + ",\"pipelineRunId\":"@;
    let p3 = p2 + c.pipeline_run_id.canon();
    let p4 = p3 + ",\"timestamp\":"@;
    let p5 = p4 + c.timestamp.canon();
    let p6 = p5 + ",\"status\":"@;
    let p7 = p6 + c.status.canon();
    let p8 = p7 + ",\"intent\":"@;
    let p9 = p8 + c.intent.canon();
    let p10 = p9 + ",\"buildSpec\":"@;
    let p11 = p10 + c.build_spec.canon();
    let p12 = p11 + ",\"stages\":"@;
    let p13 = p12 + array_canon(c.stages@);
    let p14 = p13 + ",\"verification\":"@;
    let p15 = p14 + c.verification.canon();
    let p16 = p15 + ",\"proofChain\":"@;
    let p17 = p16 + c.proof_chain.canon();
    let p18 = p17 + opt_canon(",\"compliance\":"@, c.compliance);
    let p19 = p18 + opt_canon(",\"signer\":"@, c.signer);
    let p20 = p19 + opt_canon(",\"interStageChain\":"@, c.inter_stage_chain);
    let p21 = p20 + opt_canon(",\"admittedEnvelopeHash\":"@, c.admitted_envelope_hash);
    let p22 = p21 + opt_canon(",\"goalId\":"@, c.goal_id);
    let p23 = p22 + opt_canon(",\"intentCapsuleHash\":"@, c.intent_capsule_hash);
    let p24 = p23 + nonempty_array_canon(",\"consumedOverrides\":"@, c.consumed_overrides@);
    let p25 = p24 + opt_canon(",\"corpusBinding\":"@, c.corpus_binding);
    let p26 = p25 + opt_canon(",\"sbomArtifactBinding\":"@, c.sbom_artifact_binding);
    let p27 = p26 + opt_canon(",\"agenticPostureBinding\":"@, c.agentic_posture_binding);
    let p28 = p27 + ",\"certificateHash\":"@;
    let p29 = p28 + json_str(hash_text);
    let p30 = p29 + ",\"signingPublicKey\":"@;
    let p31 = p30 + c.signing_public_key.canon();
    let p32 = p31 + ",\"certSignature\":"@;
    let p33 = p32 + json_str(Seq::<char>::empty());
    let p34 = p33 + ",\"signingAttestation\":"@;
    let p35 = p34 + c.signing_attestation.canon();
    let p36 = p35 + "}"@;
    reveal(certificate_canon);
    assert(certificate_canon(c, hash_text) == p36);
    assert(p7 == certificate_text_head(c));
    lemma_prefix_of_sum(p7, ",\"intent\":"@);
    lemma_prefix_of_sum(p8, c.intent.canon());
    lemma_prefix_trans(p7, p8, p9);
    lemma_prefix_of_sum(p9, ",\"buildSpec\":"@);
    lemma_prefix_trans(p7, p9, p10);
    lemma_prefix_of_sum(p10, c.build_spec.canon());
    lemma_prefix_trans(p7, p10, p11);
    lemma_prefix_of_sum(p11, ",\"stages\":"@);
    lemma_prefix_trans(p7, p11, p12);
    lemma_prefix_of_sum(p12, array_canon(c.stages@));
    lemma_prefix_trans(p7, p12, p13);
    lemma_prefix_of_sum(p13, ",\"verification\":"@);
    lemma_prefix_trans(p7, p13, p14);
    lemma_prefix_of_sum(p14, c.verification.canon());
    lemma_prefix_trans(p7, p14, p15);
    lemma_prefix_of_sum(p15, ",\"proofChain\":"@);
    lemma_prefix_trans(p7, p15, p16);
    lemma_prefix_of_sum(p16, c.proof_chain.canon());
    lemma_prefix_trans(p7, p16, p17);
    lemma_prefix_of_sum(p17, opt_canon(",\"compliance\":"@, c.compliance));
    lemma_prefix_trans(p7, p17, p18);
    lemma_prefix_of_sum(p18, opt_canon(",\"signer\":"@, c.signer));
    lemma_prefix_trans(p7, p18, p19);
    lemma_prefix_of_sum(p19, opt_canon(",\"interStageChain\":"@, c.inter_stage_chain));
    lemma_prefix_trans(p7, p19, p20);
    lemma_prefix_of_sum(p20, opt_canon(",\"admittedEnvelopeHash\":"@, c.admitted_envelope_hash));
    lemma_prefix_trans(p7, p20, p21);
    lemma_prefix_of_sum(p21, opt_canon(",\"goalId\":"@, c.goal_id));
    lemma_prefix_trans(p7, p21, p22);
    lemma_prefix_of_sum(p22, opt_canon(",\"intentCapsuleHash\":"@, c.intent_capsule_hash));
    lemma_prefix_trans(p7, p22, p23);
    lemma_prefix_of_sum(p23, nonempty_array_canon(",\"consumedOverrides\":"@, c.consumed_overrides@));
    lemma_prefix_trans(p7, p23, p24);
    lemma_prefix_of_sum(p24, opt_canon(",\"corpusBinding\":"@, c.corpus_binding));
    lemma_prefix_trans(p7, p24, p25);
    lemma_prefix_of_sum(p25, opt_canon(",\"sbomArtifactBinding\":"@, c.sbom_artifact_binding));
    lemma_prefix_trans(p7, p25, p26);
    lemma_prefix_of_sum(p26, opt_canon(",\"agenticPostureBinding\":"@, c.agentic_posture_binding));
    lemma_prefix_trans(p7, p26, p27);
    lemma_prefix_of_sum(p27, ",\"certificateHash\":"@);
    lemma_prefix_trans(p7, p27, p28);
    lemma_prefix_of_sum(p28, json_str(hash_text));
    lemma_prefix_trans(p7, p28, p29);
    lemma_prefix_of_sum(p29, ",\"signingPublicKey\":"@);
    lemma_prefix_trans(p7, p29, p30);
    lemma_prefix_of_sum(p30, c.signing_public_key.canon());
    lemma_prefix_trans(p7, p30, p31);
    lemma_prefix_of_sum(p31, ",\"certSignature\":"@);
    lemma_prefix_trans(p7, p31, p32);
    lemma_prefix_of_sum(p32, json_str(Seq::<char>::empty()));
    lemma_prefix_trans(p7, p32, p33);
    lemma_prefix_of_sum(p33, ",\"signingAttestation\":"@);
    lemma_prefix_trans(p7, p33, p34);
    lemma_prefix_of_sum(p34, c.signing_attestation.canon());
    lemma_prefix_trans(p7, p34, p35);
    lemma_prefix_of_sum(p35, "}"@);
    lemma_prefix_trans(p7, p35, p36);
    let l0 = ",\"certificateHash\":"@;
    let l1 = l0 + json_str(hash_text);
    lemma_seq_assoc(p27, l0, json_str(hash_text));
    let l2 = l1 + ",\"signingPublicKey\":"@;
    lemma_seq_assoc(p27, l1, ",\"signingPublicKey\":"@);
    let l3 = l2 + c.signing_public_key.canon();
    lemma_seq_assoc(p27, l2, c.signing_public_key.canon());
    let l4 = l3 + ",\"certSignature\":"@;
    lemma_seq_assoc(p27, l3, ",\"certSignature\":"@);
    let l5 = l4 + json_str(Seq::<char>::empty());
    lemma_seq_assoc(p27, l4, json_str(Seq::<char>::empty()));
    let l6 = l5 + ",\"signingAttestation\":"@;
    lemma_seq_assoc(p27, l5, ",\"signingAttestation\":"@);
    let l7 = l6 + c.signing_attestation.canon();
    lemma_seq_assoc(p27, l6, c.signing_attestation.canon());
    let l8 = l7 + "}"@;
    lemma_seq_assoc(p27, l7, "}"@);
    assert(l8 == certificate_text_tail(c, hash_text));
    lemma_suffix_of_sum(p27, l8);
}

/// A certificate without optional members has exactly the text of its
/// head, its required members and its tail, in that order: nothing is left
/// out and nothing is added.
#[verifier::rlimit(100)]
pub proof fn law_certificate_text_without_optional_members(c: GovernanceCertificate, hash_text: Seq<char>)
    requires
        optional_members_absent(c),
    ensures
        certificate_canon(c, hash_text) == certificate_text_front(c) + certificate_text_tail(c, hash_text),
{
    let p0 = "{\"certificateVersion\":"@;
    let p1 = p0 + c.certificate_version.canon();
    let p2 = p1 + ",\"pipelineRunId\":"@;
    let p3 = p2 + c.pipeline_run_id.canon();
    let p4 = p3 + ",\"timestamp\":"@;
    let p5 = p4 + c.timestamp.canon();
    let p6 = p5 + ",\"status\":"@;
    let p7 = p6 + c.status.canon();
    let p8 = p7 + ",\"intent\":"@;
    let p9 = p8 + c.intent.canon();
    let p10 = p9 + ",\"buildSpec\":"@;
    let p11 = p10 + c.build_spec.canon();
    let p12 = p11 + ",\"stages\":"@;
    let p13 = p12 + array_canon(c.stages@);
    let p14 = p13 + ",\"verification\":"@;
    let p15 = p14 + c.verification.canon();
    let p16 = p15 + ",\"proofChain\":"@;
    let p17 = p16 + c.proof_chain.canon();
    let p18 = p17 + opt_canon(",\"compliance\":"@, c.compliance);
    let p19 = p18 + opt_canon(",\"signer\":"@, c.signer);
    let p20 = p19 + opt_canon(",\"interStageChain\":"@, c.inter_stage_chain);
    let p21 = p20 + opt_canon(",\"admittedEnvelopeHash\":"@, c.admitted_envelope_hash);
    let p22 = p21 + opt_canon(",\"goalId\":"@, c.goal_id);
    let p23 = p22 + opt_canon(",\"intentCapsuleHash\":"@, c.intent_capsule_hash);
    let p24 = p23 + nonempty_array_canon(",\"consumedOverrides\":"@, c.consumed_overrides@);
    let p25 = p24 + opt_canon(",\"corpusBinding\":"@, c.corpus_binding);
    let p26 = p25 + opt_canon(",\"sbomArtifactBinding\":"@, c.sbom_artifact_binding);
    let p27 = p26 + opt_canon(",\"agenticPostureBinding\":"@, c.agentic_posture_binding);
    let p28 = p27 + ",\"certificateHash\":"@;
    let p29 = p28 + json_str(hash_text);
    let p30 = p29 + ",\"signingPublicKey\":"@;
    let p31 = p30 + c.signing_public_key.canon();
    let p32 = p31 + ",\"certSignature\":"@;
    let p33 = p32 + json_str(Seq::<char>::empty());
    let p34 = p33 + ",\"signingAttestation\":"@;
    let p35 = p34 + c.signing_attestation.canon();
    let p36 = p35 + "}"@;
    reveal(certificate_canon);
    assert(certificate_canon(c, hash_text) == p36);
    assert(p7 == certificate_text_head(c));
    assert(p17 == certificate_text_front(c));
    lemma_seq_add_empty(p17);
    lemma_seq_add_empty(p18);
    lemma_seq_add_empty(p19);
    lemma_seq_add_empty(p20);
    lemma_seq_add_empty(p21);
    lemma_seq_add_empty(p22);
    lemma_seq_add_empty(p23);
    lemma_seq_add_empty(p24);
    lemma_seq_add_empty(p25);
    lemma_seq_add_empty(p26);
    assert(p27 == p17);
    let l0 = ",\"certificateHash\":"@;
    let l1 = l0 + json_str(hash_text);
    lemma_seq_assoc(p27, l0, json_str(hash_text));
    let l2 = l1 + ",\"signingPublicKey\":"@;
    lemma_seq_assoc(p27, l1, ",\"signingPublicKey\":"@);
    let l3 = l2 + c.signing_public_key.canon();
    lemma_seq_assoc(p27, l2, c.signing_public_key.canon());
    let l4 = l3 + ",\"certSignature\":"@;
    lemma_seq_assoc(p27, l3, ",\"certSignature\":"@);
    let l5 = l4 + json_str(Seq::<char>::empty());
    lemma_seq_assoc(p27, l4, json_str(Seq::<char>::empty()));
    let l6 = l5 + ",\"signingAttestation\":"@;
    lemma_seq_assoc(p27, l5, ",\"signingAttestation\":"@);
    let l7 = l6 + c.signing_attestation.canon();
    lemma_seq_assoc(p27, l6, c.signing_attestation.canon());
    let l8 = l7 + "}"@;
    lemma_seq_assoc(p27, l7, "}"@);
    assert(l8 == certificate_text_tail(c, hash_text));
}

} // verus!
