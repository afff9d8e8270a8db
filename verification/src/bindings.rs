//! Adjudication of the certificate's by-reference bindings: the corpus
//! attestation link and the SBOM artifact hashes. Every state is legible; only
//! a mismatch (or an unreadable SBOM artifact) is an error.

use crate::certificate::{CorpusBinding, GovernanceCertificate, SbomArtifactBinding, VerificationResult};
use crate::digest::{sha256_bytes, sha256_hex};
use crate::json::JsonValue;
use crate::text::{concat2, concat4, concat5, push_msg, str_eq, views};
use vstd::prelude::*;

verus! {

/// Relative path of the produced app's CycloneDX BOM under the SBOM directory.
pub const SBOM_BOM_RELPATH: &'static str = ".factory/sbom.cdx.json";

/// Relative path of the produced app's dependency-audit artifact under the
/// SBOM directory.
pub const SBOM_AUDIT_RELPATH: &'static str = ".factory/audit.json";

/// A non-fatal notice or a fatal error, as a finding is reported.
pub ghost enum Finding {
    Notice(Seq<char>),
    Error(Seq<char>),
}

/// The notices after recording `f`.
pub open spec fn notices_after(notices: Seq<Seq<char>>, f: Finding) -> Seq<Seq<char>> {
    match f {
        Finding::Notice(m) => notices.push(m),
        Finding::Error(_) => notices,
    }
}

/// The errors after recording `f`.
pub open spec fn errors_after(errors: Seq<Seq<char>>, f: Finding) -> Seq<Seq<char>> {
    match f {
        Finding::Notice(_) => errors,
        Finding::Error(m) => errors.push(m),
    }
}

/// Record one finding on a verification result.
pub fn record_finding(result: &mut VerificationResult, is_error: bool, m: String)
    ensures
        final(result).valid == old(result).valid,
        views(final(result).errors@) == errors_after(
            views(old(result).errors@),
            if is_error { Finding::Error(m@) } else { Finding::Notice(m@) },
        ),
        views(final(result).notices@) == notices_after(
            views(old(result).notices@),
            if is_error { Finding::Error(m@) } else { Finding::Notice(m@) },
        ),
{
    if is_error {
        push_msg(&mut result.errors, m);
    } else {
        push_msg(&mut result.notices, m);
    }
}

// ── Corpus binding ───────────────────────────────────────────────────

/// The adjudicated state of a certificate's corpus binding.
#[derive(Debug, Clone, PartialEq, Eq)]
pub enum CorpusBindingState {
    /// No corpus binding on the certificate.
    Unbound,
    /// A binding, but no attestation was supplied to check the link.
    PresentButUnverified,
    /// The supplied attestation hashes to the claimed value.
    Verified,
    /// The supplied attestation does not hash to the claimed value.
    Mismatch { claimed: String, actual: String },
}

/// The link check: the claimed `corpus_attestation_hash` against the SHA-256
/// of the supplied attestation, never recomputing the corpus itself.
pub fn adjudicate_corpus_binding_state(binding: Option<&CorpusBinding>, corpus_attestation: Option<&[u8]>) -> (res:
    CorpusBindingState)
    ensures
        match (binding, corpus_attestation) {
            (None, _) => res is Unbound,
            (Some(_), None) => res is PresentButUnverified,
            (Some(b), Some(a)) => if sha256_hex(a@) == b.corpus_attestation_hash@ {
                res is Verified
            } else {
                res matches CorpusBindingState::Mismatch { claimed, actual } && claimed@
                    == b.corpus_attestation_hash@ && actual@ == sha256_hex(a@)
            },
        },
{
    match (binding, corpus_attestation) {
        (None, _) => CorpusBindingState::Unbound,
        (Some(_), None) => CorpusBindingState::PresentButUnverified,
        (Some(binding), Some(attestation)) => {
            let actual = sha256_bytes(attestation);
            if str_eq(actual.as_str(), binding.corpus_attestation_hash.as_str()) {
                CorpusBindingState::Verified
            } else {
                CorpusBindingState::Mismatch { claimed: binding.corpus_attestation_hash.clone(), actual }
            }
        },
    }
}

/// The finding reported for a certificate's corpus binding.
pub open spec fn corpus_finding(binding: Option<CorpusBinding>, attestation: Option<Seq<u8>>) -> Finding {
    match (binding, attestation) {
        (None, _) => Finding::Notice(
            "certificate is corpus-UNBOUND: no corpus_binding present -- the run is not bound by reference to a corpus attestation"@,
        ),
        (Some(b), None) => Finding::Notice(
            "corpus binding present-but-UNVERIFIED: certificate claims corpus attestation hash "@
                + b.corpus_attestation_hash@ + " (spec-spine "@ + b.spec_spine_version@
                + ") but no attestation was supplied to check the link -- supply --corpus-attestation <file>"@,
        ),
        (Some(b), Some(a)) => if sha256_hex(a) == b.corpus_attestation_hash@ {
            Finding::Notice(
                "corpus binding VERIFIED: supplied attestation hashes to the claimed corpus_attestation_hash "@
                    + b.corpus_attestation_hash@ + " (spec-spine "@ + b.spec_spine_version@
                    + "); the attestation's own truth is delegated to spec-spine verify-attestation"@,
            )
        } else {
            Finding::Error(
                "corpus binding MISMATCH: certificate claims corpus_attestation_hash "@
                    + b.corpus_attestation_hash@ + " but the supplied attestation hashes to "@
                    + sha256_hex(a),
            )
        },
    }
}

/// The view of an optional byte slice.
pub open spec fn bytes_view(b: Option<&[u8]>) -> Option<Seq<u8>> {
    match b {
        Some(s) => Some(s@),
        None => None,
    }
}

/// Report the corpus binding's state on `result`: `Mismatch` is an error,
/// every other state a visible notice.
pub fn append_corpus_binding_findings(
    cert: &GovernanceCertificate,
    corpus_attestation: Option<&[u8]>,
    result: &mut VerificationResult,
)
    ensures
        final(result).valid == old(result).valid,
        views(final(result).errors@) == errors_after(
            views(old(result).errors@),
            corpus_finding(cert.corpus_binding, bytes_view(corpus_attestation)),
        ),
        views(final(result).notices@) == notices_after(
            views(old(result).notices@),
            corpus_finding(cert.corpus_binding, bytes_view(corpus_attestation)),
        ),
{
    match (&cert.corpus_binding, corpus_attestation) {
        (None, _) => {
            record_finding(
                result,
                false,
                String::from_str(
                    "certificate is corpus-UNBOUND: no corpus_binding present -- the run is not bound by reference to a corpus attestation",
                ),
            );
        },
        (Some(b), None) => {
            let m = concat5(
                "corpus binding present-but-UNVERIFIED: certificate claims corpus attestation hash ",
                b.corpus_attestation_hash.as_str(),
                " (spec-spine ",
                b.spec_spine_version.as_str(),
                ") but no attestation was supplied to check the link -- supply --corpus-attestation <file>",
            );
            record_finding(result, false, m);
        },
        (Some(b), Some(attestation)) => {
            let actual = sha256_bytes(attestation);
            if str_eq(actual.as_str(), b.corpus_attestation_hash.as_str()) {
                let m = concat5(
                    "corpus binding VERIFIED: supplied attestation hashes to the claimed corpus_attestation_hash ",
                    b.corpus_attestation_hash.as_str(),
                    " (spec-spine ",
                    b.spec_spine_version.as_str(),
                    "); the attestation's own truth is delegated to spec-spine verify-attestation",
                );
                record_finding(result, false, m);
            } else {
                let m = concat4(
                    "corpus binding MISMATCH: certificate claims corpus_attestation_hash ",
                    b.corpus_attestation_hash.as_str(),
                    " but the supplied attestation hashes to ",
                    actual.as_str(),
                );
                record_finding(result, true, m);
            }
        },
    }
}


// ── SBOM artifact binding ────────────────────────────────────────────

/// What was read under the SBOM directory: the BOM and the dependency-audit
/// artifact (their displayed paths, and their bytes or read errors).
#[derive(Debug)]
pub struct SbomFiles {
    pub bom_path: String,
    pub bom: Result<Vec<u8>, String>,
    pub audit_path: String,
    pub audit: Result<Vec<u8>, String>,
}

/// The adjudicated state of a certificate's SBOM artifact binding.
#[derive(Debug, Clone, PartialEq, Eq)]
pub enum SbomBindingState {
    /// No SBOM binding on the certificate.
    Unbound,
    /// A binding, but no SBOM directory was supplied.
    PresentButUnverified,
    /// Both artifacts hash to the claimed values.
    Verified,
    /// The BOM does not hash to the claimed value.
    BomMismatch { claimed: String, actual: String },
    /// The audit artifact does not hash to the claimed value.
    AuditMismatch { claimed: String, actual: String },
    /// A required artifact could not be read.
    Unreadable { path: String, error: String },
}

/// The abstract SBOM binding state.
pub ghost enum SbomState {
    Unbound,
    PresentButUnverified,
    Verified,
    BomMismatch { claimed: Seq<char>, actual: Seq<char> },
    AuditMismatch { claimed: Seq<char>, actual: Seq<char> },
    Unreadable { path: Seq<char>, error: Seq<char> },
}

impl View for SbomBindingState {
    type V = SbomState;

    open spec fn view(&self) -> SbomState {
        match self {
            SbomBindingState::Unbound => SbomState::Unbound,
            SbomBindingState::PresentButUnverified => SbomState::PresentButUnverified,
            SbomBindingState::Verified => SbomState::Verified,
            SbomBindingState::BomMismatch { claimed, actual } => SbomState::BomMismatch {
                claimed: claimed@,
                actual: actual@,
            },
            SbomBindingState::AuditMismatch { claimed, actual } => SbomState::AuditMismatch {
                claimed: claimed@,
                actual: actual@,
            },
            SbomBindingState::Unreadable { path, error } => SbomState::Unreadable {
                path: path@,
                error: error@,
            },
        }
    }
}

/// The SBOM binding state: the BOM is checked first (unreadable, then
/// mismatch), then the audit artifact.
pub open spec fn sbom_state(binding: Option<SbomArtifactBinding>, files: Option<SbomFiles>) -> SbomState {
    match (binding, files) {
        (None, _) => SbomState::Unbound,
        (Some(_), None) => SbomState::PresentButUnverified,
        (Some(b), Some(f)) => match f.bom {
            Err(e) => SbomState::Unreadable { path: f.bom_path@, error: e@ },
            Ok(bom) => if sha256_hex(bom@) != b.bom_hash@ {
                SbomState::BomMismatch { claimed: b.bom_hash@, actual: sha256_hex(bom@) }
            } else {
                match f.audit {
                    Err(e) => SbomState::Unreadable { path: f.audit_path@, error: e@ },
                    Ok(audit) => if sha256_hex(audit@) != b.audit_hash@ {
                        SbomState::AuditMismatch { claimed: b.audit_hash@, actual: sha256_hex(audit@) }
                    } else {
                        SbomState::Verified
                    },
                }
            },
        },
    }
}

/// The view of optional SBOM files.
pub open spec fn sbom_view(files: Option<&SbomFiles>) -> Option<SbomFiles> {
    match files {
        Some(f) => Some(*f),
        None => None,
    }
}

/// The link check for the SBOM binding: re-hash the supplied BOM and audit
/// artifact and compare against the claimed hashes, never regenerating the
/// BOM.
pub fn adjudicate_sbom_binding_state(binding: Option<&SbomArtifactBinding>, sbom: Option<&SbomFiles>) -> (res:
    SbomBindingState)
    ensures
        res@ == sbom_state(
            match binding {
                Some(b) => Some(*b),
                None => None,
            },
            sbom_view(sbom),
        ),
{
    let (binding, files) = match (binding, sbom) {
        (None, _) => {
            return SbomBindingState::Unbound;
        },
        (Some(_), None) => {
            return SbomBindingState::PresentButUnverified;
        },
        (Some(b), Some(f)) => (b, f),
    };
    let bom = match &files.bom {
        Ok(b) => b,
        Err(e) => {
            return SbomBindingState::Unreadable { path: files.bom_path.clone(), error: e.clone() };
        },
    };
    let bom_hash = sha256_bytes(bom.as_slice());
    if !str_eq(bom_hash.as_str(), binding.bom_hash.as_str()) {
        return SbomBindingState::BomMismatch { claimed: binding.bom_hash.clone(), actual: bom_hash };
    }
    let audit = match &files.audit {
        Ok(a) => a,
        Err(e) => {
            return SbomBindingState::Unreadable { path: files.audit_path.clone(), error: e.clone() };
        },
    };
    let audit_hash = sha256_bytes(audit.as_slice());
    if !str_eq(audit_hash.as_str(), binding.audit_hash.as_str()) {
        return SbomBindingState::AuditMismatch { claimed: binding.audit_hash.clone(), actual: audit_hash };
    }
    SbomBindingState::Verified
}

/// The finding reported for a certificate's SBOM binding.
pub open spec fn sbom_finding(binding: Option<SbomArtifactBinding>, files: Option<SbomFiles>) -> Finding {
    match sbom_state(binding, files) {
        SbomState::Unbound => Finding::Notice(
            "certificate is sbom-UNBOUND: no sbom_artifact_binding present -- the run is not bound by hash to a CycloneDX BOM or dependency-audit artifact"@,
        ),
        SbomState::PresentButUnverified => Finding::Notice(
            "sbom artifact binding present-but-UNVERIFIED: certificate claims bomHash "@
                + binding->0.bom_hash@ + " / auditHash "@ + binding->0.audit_hash@ + " (bom tool "@
                + binding->0.bom_tool_version@ + ") but no --sbom-dir was supplied to check the artifacts"@,
        ),
        SbomState::Verified => Finding::Notice(
            "sbom artifact binding VERIFIED: on-disk .factory/sbom.cdx.json and .factory/audit.json hash to the claimed values (bom tool "@
                + binding->0.bom_tool_version@ + ")"@,
        ),
        SbomState::BomMismatch { claimed, actual } => Finding::Error(
            "sbom binding MISMATCH: certificate claims bomHash "@ + claimed
                + " but .factory/sbom.cdx.json hashes to "@ + actual,
        ),
        SbomState::AuditMismatch { claimed, actual } => Finding::Error(
            "sbom binding MISMATCH: certificate claims auditHash "@ + claimed
                + " but .factory/audit.json hashes to "@ + actual,
        ),
        SbomState::Unreadable { path, error } => Finding::Error(
            "sbom artifact binding present but "@ + path + " could not be read: "@ + error,
        ),
    }
}

/// Report the SBOM binding's state on `result`: mismatches and unreadable
/// artifacts are errors, every other state a visible notice.
pub fn append_sbom_binding_findings(cert: &GovernanceCertificate, sbom: Option<&SbomFiles>, result: &mut VerificationResult)
    ensures
        final(result).valid == old(result).valid,
        views(final(result).errors@) == errors_after(
            views(old(result).errors@),
            sbom_finding(cert.sbom_artifact_binding, sbom_view(sbom)),
        ),
        views(final(result).notices@) == notices_after(
            views(old(result).notices@),
            sbom_finding(cert.sbom_artifact_binding, sbom_view(sbom)),
        ),
{
    let state = adjudicate_sbom_binding_state(cert.sbom_artifact_binding.as_ref(), sbom);
    match state {
        SbomBindingState::Unbound => {
            record_finding(
                result,
                false,
                String::from_str(
                    "certificate is sbom-UNBOUND: no sbom_artifact_binding present -- the run is not bound by hash to a CycloneDX BOM or dependency-audit artifact",
                ),
            );
        },
        SbomBindingState::PresentButUnverified => {
            let binding = cert.sbom_artifact_binding.as_ref().unwrap();
            let m = crate::text::concat7(
                "sbom artifact binding present-but-UNVERIFIED: certificate claims bomHash ",
                binding.bom_hash.as_str(),
                " / auditHash ",
                binding.audit_hash.as_str(),
                " (bom tool ",
                binding.bom_tool_version.as_str(),
                ") but no --sbom-dir was supplied to check the artifacts",
            );
            record_finding(result, false, m);
        },
        SbomBindingState::Verified => {
            let binding = cert.sbom_artifact_binding.as_ref().unwrap();
            let m = crate::text::concat3(
                "sbom artifact binding VERIFIED: on-disk .factory/sbom.cdx.json and .factory/audit.json hash to the claimed values (bom tool ",
                binding.bom_tool_version.as_str(),
                ")",
            );
            record_finding(result, false, m);
        },
        SbomBindingState::BomMismatch { claimed, actual } => {
            let m = concat4(
                "sbom binding MISMATCH: certificate claims bomHash ",
                claimed.as_str(),
                " but .factory/sbom.cdx.json hashes to ",
                actual.as_str(),
            );
            record_finding(result, true, m);
        },
        SbomBindingState::AuditMismatch { claimed, actual } => {
            let m = concat4(
                "sbom binding MISMATCH: certificate claims auditHash ",
                claimed.as_str(),
                " but .factory/audit.json hashes to ",
                actual.as_str(),
            );
            record_finding(result, true, m);
        },
        SbomBindingState::Unreadable { path, error } => {
            let m = concat4(
                "sbom artifact binding present but ",
                path.as_str(),
                " could not be read: ",
                error.as_str(),
            );
            record_finding(result, true, m);
        },
    }
}


// ── Laws ─────────────────────────────────────────────────────────────

/// The corpus binding never skips as a pass and fails only on a mismatch: its
/// finding is an error exactly when a binding and an attestation are both
/// present and the attestation does not hash to the claimed value.
pub proof fn law_corpus_fails_only_on_mismatch(binding: Option<CorpusBinding>, attestation: Option<Seq<u8>>)
    ensures
        corpus_finding(binding, attestation) is Error <==> (binding is Some && attestation is Some && sha256_hex(
            attestation->0,
        ) != binding->0.corpus_attestation_hash@),
{
}

/// The SBOM binding fails only on a hash mismatch or an unreadable artifact;
/// every other state is a visible notice.
pub proof fn law_sbom_fails_only_on_mismatch_or_unreadable(binding: Option<SbomArtifactBinding>, files: Option<SbomFiles>)
    ensures
        sbom_finding(binding, files) is Error <==> (sbom_state(binding, files) is BomMismatch || sbom_state(
            binding,
            files,
        ) is AuditMismatch || sbom_state(binding, files) is Unreadable),
{
}

} // verus!
