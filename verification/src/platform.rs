//! Full verification including the platform seal: the offline chain, then the
//! countersign verdict, then the corpus, SBOM and agentic-posture bindings.

use crate::bindings::{
    append_corpus_binding_findings, append_sbom_binding_findings, bytes_view, corpus_finding, errors_after,
    notices_after, sbom_finding, sbom_view, SbomFiles,
};
use crate::certificate::{
    certificate_errors, files_view, verify_certificate, ArtifactFile, GovernanceCertificate, VerificationResult,
};
use crate::jws::{check_countersign, seal_check_of, PlatformJwks, SealCheck, SealClaims, SealVerdict, VerifiedSeal};
use crate::posture::{append_posture_binding_findings, posture_errors, posture_notices};
use crate::text::{concat2, concat4, concat7, dec, dec_string, push_msg, str_eq, views};
use vstd::prelude::*;

verus! {

/// The refusal of an unsealed certificate.
pub open spec fn unsealed_error() -> Seq<char> {
    "certificate is verifiable-but-UNSEALED (no platform countersign): the offline chain holds but nothing binds this run to its admission contract -- rejected by default; pass --allow-unsealed to accept an unsealed certificate"@
}

/// The notice for an unsealed certificate accepted under `--allow-unsealed`.
pub open spec fn unsealed_notice() -> Seq<char> {
    "certificate is verifiable-but-UNSEALED: the offline chain holds, but no platform countersign binds this run to its admission contract; accepted under --allow-unsealed"@
}

/// The refusal of a seal that no keyset was supplied to check.
pub open spec fn unadjudicated_error() -> Seq<char> {
    "certificate carries a platform countersign but no JWKS was provided to verify it -- supply --platform-jwks <file> (rejected by default; pass --allow-unsealed to accept an unadjudicated seal)"@
}

/// The notice for an unchecked seal accepted under `--allow-unsealed`.
pub open spec fn unadjudicated_notice() -> Seq<char> {
    "certificate carries a platform countersign, NOT verified (no JWKS provided; supply --platform-jwks <file>); accepted under --allow-unsealed"@
}

/// The finding on the seal's `certificate_sha256` claim: it must be present
/// and equal the certificate's hash.
pub open spec fn claim_errors(c: GovernanceCertificate, v: SealClaims) -> Seq<Seq<char>> {
    match v.certificate_sha256 {
        Some(h) => if h == c.certificate_hash@ {
            seq![]
        } else {
            seq![
                "platform countersign binds certificate hash "@ + h + " but this certificate's hash is "@
                    + c.certificate_hash@,
            ]
        },
        None => seq!["platform countersign carries no certificate_sha256 claim -- it binds no certificate"@],
    }
}

/// The finding on the admission envelope: when both the seal and the
/// certificate name one, they must agree.
pub open spec fn envelope_errors(c: GovernanceCertificate, v: SealClaims) -> Seq<Seq<char>> {
    match (v.envelope_hash, c.admitted_envelope_hash) {
        (Some(s), Some(e)) => if s != e@ {
            seq![
                "platform countersign binds envelope hash "@ + s + " but the certificate's admittedEnvelopeHash is "@
                    + e@,
            ]
        } else {
            seq![]
        },
        _ => seq![],
    }
}

/// The notice for a seal that verified and binds this certificate.
pub open spec fn verified_notice(v: SealClaims) -> Seq<char> {
    "platform countersign VERIFIED (kid "@ + v.kid + ", platform run "@ + match v.run_id {
        Some(r) => r,
        None => "?"@,
    } + ", "@ + dec(
        match v.grant_count {
            Some(g) => g as nat,
            None => 0,
        },
    ) + " grant(s) in chain)"@
}

/// The verdict on the certificate's countersign: `None` when there is no
/// countersign or no keyset to check it against, else the check of its JWS
/// against the keyset.
pub open spec fn seal_for(c: GovernanceCertificate, jwks: Option<PlatformJwks>) -> Option<SealVerdict> {
    match (c.platform_countersign, jwks) {
        (Some(cs), Some(j)) => Some(seal_check_of(cs.countersign_jws@, j)),
        _ => None,
    }
}

/// The view of an optional keyset.
pub open spec fn jwks_view(j: Option<&PlatformJwks>) -> Option<PlatformJwks> {
    match j {
        Some(j) => Some(*j),
        None => None,
    }
}

/// The errors of the seal verdict. `seal` is `None` when no keyset was
/// supplied. Without a seal, or with one no keyset could check, the
/// certificate is refused exactly under `require_sealed`; a checked seal must
/// verify and bind this certificate whatever `require_sealed` says.
pub open spec fn seal_errors(c: GovernanceCertificate, seal: Option<SealVerdict>, require_sealed: bool) -> Seq<Seq<char>> {
    match c.platform_countersign {
        None => if require_sealed { seq![unsealed_error()] } else { seq![] },
        Some(_) => match seal {
            None => if require_sealed { seq![unadjudicated_error()] } else { seq![] },
            Some(SealVerdict::Invalid(e)) => seq!["platform countersign invalid: "@ + e],
            Some(SealVerdict::Verified(v)) => claim_errors(c, v) + envelope_errors(c, v),
        },
    }
}

/// The notices of the seal verdict; `chain_ok` says whether the offline chain
/// had no errors (the VERIFIED notice is given only then).
pub open spec fn seal_notices(
    c: GovernanceCertificate,
    seal: Option<SealVerdict>,
    require_sealed: bool,
    chain_ok: bool,
) -> Seq<Seq<char>> {
    match c.platform_countersign {
        None => if require_sealed { seq![] } else { seq![unsealed_notice()] },
        Some(_) => match seal {
            None => if require_sealed { seq![] } else { seq![unadjudicated_notice()] },
            Some(SealVerdict::Invalid(_)) => seq![],
            Some(SealVerdict::Verified(v)) => if chain_ok && seal_errors(c, seal, require_sealed).len() == 0 {
                seq![verified_notice(v)]
            } else {
                seq![]
            },
        },
    }
}

/// Every error of full verification, in the order reported: the offline
/// chain, the seal, the corpus binding, the SBOM binding, the posture.
pub open spec fn platform_errors(
    c: GovernanceCertificate,
    files: Option<Seq<ArtifactFile>>,
    jwks: Option<PlatformJwks>,
    require_sealed: bool,
    attestation: Option<Seq<u8>>,
    sbom: Option<SbomFiles>,
) -> Seq<Seq<char>> {
    certificate_errors(c, files) + seal_errors(c, seal_for(c, jwks), require_sealed) + errors_after(
        seq![],
        corpus_finding(c.corpus_binding, attestation),
    ) + errors_after(seq![], sbom_finding(c.sbom_artifact_binding, sbom)) + posture_errors(
        c.agentic_posture_binding,
        sbom,
    )
}

/// Every notice of full verification, in the order reported.
pub open spec fn platform_notices(
    c: GovernanceCertificate,
    files: Option<Seq<ArtifactFile>>,
    jwks: Option<PlatformJwks>,
    require_sealed: bool,
    attestation: Option<Seq<u8>>,
    sbom: Option<SbomFiles>,
) -> Seq<Seq<char>> {
    seal_notices(c, seal_for(c, jwks), require_sealed, certificate_errors(c, files).len() == 0) + notices_after(
        seq![],
        corpus_finding(c.corpus_binding, attestation),
    ) + notices_after(seq![], sbom_finding(c.sbom_artifact_binding, sbom)) + posture_notices(
        c.agentic_posture_binding,
        sbom,
    )
}

fn seal_claim_findings(cert: &GovernanceCertificate, v: &VerifiedSeal) -> (res: Vec<String>)
    ensures
        views(res@) == claim_errors(*cert, v@) + envelope_errors(*cert, v@),
{
    let mut res: Vec<String> = Vec::new();
    match &v.certificate_sha256 {
        Some(h) => {
            if !str_eq(h.as_str(), cert.certificate_hash.as_str()) {
                push_msg(
                    &mut res,
                    concat4(
                        "platform countersign binds certificate hash ",
                        h.as_str(),
                        " but this certificate's hash is ",
                        cert.certificate_hash.as_str(),
                    ),
                );
            }
        },
        None => {
            push_msg(
                &mut res,
                String::from_str("platform countersign carries no certificate_sha256 claim -- it binds no certificate"),
            );
        },
    }
    let ghost first = views(res@);
    assert(first =~= claim_errors(*cert, v@));
    if let (Some(sealed_env), Some(cert_env)) = (&v.envelope_hash, &cert.admitted_envelope_hash) {
        if !str_eq(sealed_env.as_str(), cert_env.as_str()) {
            push_msg(
                &mut res,
                concat4(
                    "platform countersign binds envelope hash ",
                    sealed_env.as_str(),
                    " but the certificate's admittedEnvelopeHash is ",
                    cert_env.as_str(),
                ),
            );
        }
    }
    assert(views(res@) =~= claim_errors(*cert, v@) + envelope_errors(*cert, v@));
    res
}

fn verified_notice_text(v: &VerifiedSeal) -> (res: String)
    ensures
        res@ == verified_notice(v@),
{
    let run = match &v.run_id {
        Some(r) => r.as_str(),
        None => "?",
    };
    let grants = match v.grant_count {
        Some(g) => g,
        None => 0,
    };
    let grants_text = dec_string(grants);
    concat7(
        "platform countersign VERIFIED (kid ",
        v.kid.as_str(),
        ", platform run ",
        run,
        ", ",
        grants_text.as_str(),
        " grant(s) in chain)",
    )
}

/// Report the seal verdict on `result`, checking the countersign's JWS
/// against the keyset when both are there; `chain_ok` says whether the
/// offline chain had no errors.
fn append_seal_findings(
    cert: &GovernanceCertificate,
    platform_jwks: Option<&PlatformJwks>,
    require_sealed: bool,
    chain_ok: bool,
    result: &mut VerificationResult,
)
    ensures
        final(result).valid == old(result).valid,
        views(final(result).errors@) == views(old(result).errors@) + seal_errors(
            *cert,
            seal_for(*cert, jwks_view(platform_jwks)),
            require_sealed,
        ),
        views(final(result).notices@) == views(old(result).notices@) + seal_notices(
            *cert,
            seal_for(*cert, jwks_view(platform_jwks)),
            require_sealed,
            chain_ok,
        ),
{
    let ghost e0 = views(result.errors@);
    let ghost n0 = views(result.notices@);
    let ghost seal = seal_for(*cert, jwks_view(platform_jwks));
    match (&cert.platform_countersign, platform_jwks) {
        (None, _) => {
            if require_sealed {
                push_msg(
                    &mut result.errors,
                    String::from_str(
                        "certificate is verifiable-but-UNSEALED (no platform countersign): the offline chain holds but nothing binds this run to its admission contract -- rejected by default; pass --allow-unsealed to accept an unsealed certificate",
                    ),
                );
            } else {
                push_msg(
                    &mut result.notices,
                    String::from_str(
                        "certificate is verifiable-but-UNSEALED: the offline chain holds, but no platform countersign binds this run to its admission contract; accepted under --allow-unsealed",
                    ),
                );
            }
        },
        (Some(cs), Some(jwks)) => {
            let check = check_countersign(cs.countersign_jws.as_str(), jwks);
            match &check {
                SealCheck::Invalid(e) => {
                    push_msg(&mut result.errors, concat2("platform countersign invalid: ", e.as_str()));
                },
                SealCheck::Verified(v) => {
                    let findings = seal_claim_findings(cert, v);
                    let seal_ok = findings.len() == 0;
                    crate::text::push_msgs(&mut result.errors, findings);
                    if chain_ok && seal_ok {
                        push_msg(&mut result.notices, verified_notice_text(v));
                    }
                },
            }
        },
        (Some(_), None) => {
            if require_sealed {
                push_msg(
                    &mut result.errors,
                    String::from_str(
                        "certificate carries a platform countersign but no JWKS was provided to verify it -- supply --platform-jwks <file> (rejected by default; pass --allow-unsealed to accept an unadjudicated seal)",
                    ),
                );
            } else {
                push_msg(
                    &mut result.notices,
                    String::from_str(
                        "certificate carries a platform countersign, NOT verified (no JWKS provided; supply --platform-jwks <file>); accepted under --allow-unsealed",
                    ),
                );
            }
        },
    }
    assert(views(result.errors@) =~= e0 + seal_errors(*cert, seal, require_sealed));
    assert(views(result.notices@) =~= n0 + seal_notices(*cert, seal, require_sealed, chain_ok));
}

proof fn lemma_findings_append(prefix: Seq<Seq<char>>, f: crate::bindings::Finding)
    ensures
        errors_after(prefix, f) == prefix + errors_after(seq![], f),
        notices_after(prefix, f) == prefix + notices_after(seq![], f),
{
    assert(errors_after(prefix, f) =~= prefix + errors_after(seq![], f));
    assert(notices_after(prefix, f) =~= prefix + notices_after(seq![], f));
}

/// Full verification including the platform seal. Runs
/// [`verify_certificate`], then adjudicates the countersign (its JWS is
/// checked against `platform_jwks` when a keyset is supplied), then reports the corpus binding (against the supplied
/// attestation bytes), the SBOM binding and the agentic posture (against what
/// was read under the SBOM directory). Valid exactly when no error was
/// reported.
pub fn verify_certificate_with_platform(
    cert: &GovernanceCertificate,
    artifact_files: Option<&Vec<ArtifactFile>>,
    platform_jwks: Option<&PlatformJwks>,
    require_sealed: bool,
    corpus_attestation: Option<&[u8]>,
    sbom: Option<&SbomFiles>,
) -> (res: VerificationResult)
    ensures
        views(res.errors@) == platform_errors(
            *cert,
            files_view(artifact_files),
            jwks_view(platform_jwks),
            require_sealed,
            bytes_view(corpus_attestation),
            sbom_view(sbom),
        ),
        views(res.notices@) == platform_notices(
            *cert,
            files_view(artifact_files),
            jwks_view(platform_jwks),
            require_sealed,
            bytes_view(corpus_attestation),
            sbom_view(sbom),
        ),
        res.valid == (res.errors@.len() == 0),
        res.valid ==> cert.certificate_hash@.len() == 64 && crate::digest::is_lower_hex(cert.certificate_hash@),
{
    let mut result = verify_certificate(cert, artifact_files);
    let chain_ok = result.errors.len() == 0;
    assert(views(result.notices@) =~= Seq::<Seq<char>>::empty());
    append_seal_findings(cert, platform_jwks, require_sealed, chain_ok, &mut result);
    let ghost e1 = views(result.errors@);
    let ghost n1 = views(result.notices@);
    append_corpus_binding_findings(cert, corpus_attestation, &mut result);
    proof {
        lemma_findings_append(e1, corpus_finding(cert.corpus_binding, bytes_view(corpus_attestation)));
        lemma_findings_append(n1, corpus_finding(cert.corpus_binding, bytes_view(corpus_attestation)));
    }
    let ghost e2 = views(result.errors@);
    let ghost n2 = views(result.notices@);
    append_sbom_binding_findings(cert, sbom, &mut result);
    proof {
        lemma_findings_append(e2, sbom_finding(cert.sbom_artifact_binding, sbom_view(sbom)));
        lemma_findings_append(n2, sbom_finding(cert.sbom_artifact_binding, sbom_view(sbom)));
    }
    append_posture_binding_findings(cert, sbom, &mut result);
    result.valid = result.errors.len() == 0;
    proof {
        assert(views(result.errors@).len() == result.errors@.len());
        assert(views(result.errors@) =~= platform_errors(
            *cert,
            files_view(artifact_files),
            jwks_view(platform_jwks),
            require_sealed,
            bytes_view(corpus_attestation),
            sbom_view(sbom),
        ));
        assert(views(result.notices@) =~= platform_notices(
            *cert,
            files_view(artifact_files),
            jwks_view(platform_jwks),
            require_sealed,
            bytes_view(corpus_attestation),
            sbom_view(sbom),
        ));
    }
    result
}

// ── Laws ─────────────────────────────────────────────────────────────

/// Fail closed by default: under `require_sealed`, a certificate that carries
/// no countersign, or one that no keyset was supplied to check, is refused.
pub proof fn law_unbindable_seal_refused_by_default(
    c: GovernanceCertificate,
    files: Option<Seq<ArtifactFile>>,
    jwks: Option<PlatformJwks>,
    attestation: Option<Seq<u8>>,
    sbom: Option<SbomFiles>,
)
    requires
        c.platform_countersign is None || jwks is None,
    ensures
        platform_errors(c, files, jwks, true, attestation, sbom).len() > 0,
        platform_errors(c, files, jwks, true, attestation, sbom).contains(
            if c.platform_countersign is None { unsealed_error() } else { unadjudicated_error() },
        ),
{
    let ce = certificate_errors(c, files);
    let refusal = if c.platform_countersign is None { unsealed_error() } else { unadjudicated_error() };
    let all = platform_errors(c, files, jwks, true, attestation, sbom);
    assert(seal_for(c, jwks) is None);
    assert(seal_errors(c, seal_for(c, jwks), true) == seq![refusal]);
    assert(all[ce.len() as int] == refusal);
}

/// Allowing unsealed certificates affects the seal finding alone: for a
/// certificate whose seal cannot be checked, the refusal is the only error
/// that disappears, the visible notice takes its place, and every other
/// finding stays as it is.
#[verifier::rlimit(40)]
pub proof fn law_opt_out_only_demotes_the_seal(
    c: GovernanceCertificate,
    files: Option<Seq<ArtifactFile>>,
    jwks: Option<PlatformJwks>,
    attestation: Option<Seq<u8>>,
    sbom: Option<SbomFiles>,
)
    requires
        c.platform_countersign is None || jwks is None,
    ensures
        platform_errors(c, files, jwks, true, attestation, sbom) == platform_errors(
            c,
            files,
            jwks,
            false,
            attestation,
            sbom,
        ).insert(
            certificate_errors(c, files).len() as int,
            if c.platform_countersign is None { unsealed_error() } else { unadjudicated_error() },
        ),
        platform_notices(c, files, jwks, false, attestation, sbom) == seq![
            if c.platform_countersign is None { unsealed_notice() } else { unadjudicated_notice() },
        ] + platform_notices(c, files, jwks, true, attestation, sbom),
{
    let ce = certificate_errors(c, files);
    let seal = seal_for(c, jwks);
    let refusal = if c.platform_countersign is None { unsealed_error() } else { unadjudicated_error() };
    let notice = if c.platform_countersign is None { unsealed_notice() } else { unadjudicated_notice() };
    let strict = platform_errors(c, files, jwks, true, attestation, sbom);
    let lax = platform_errors(c, files, jwks, false, attestation, sbom);
    assert(seal is None);
    assert(seal_errors(c, seal, true) == seq![refusal]);
    assert(seal_errors(c, seal, false) == Seq::<Seq<char>>::empty());
    assert(strict =~= lax.insert(ce.len() as int, refusal));
    assert(seal_notices(c, seal, false, ce.len() == 0) == seq![notice]);
    assert(seal_notices(c, seal, true, ce.len() == 0) == Seq::<Seq<char>>::empty());
    assert(platform_notices(c, files, jwks, false, attestation, sbom) =~= seq![notice] + platform_notices(
        c,
        files,
        jwks,
        true,
        attestation,
        sbom,
    ));
}

/// A seal that is checked against a keyset is adjudicated the same way
/// whatever `require_sealed` says.
pub proof fn law_checked_seal_ignores_require_sealed(
    c: GovernanceCertificate,
    files: Option<Seq<ArtifactFile>>,
    jwks: PlatformJwks,
    attestation: Option<Seq<u8>>,
    sbom: Option<SbomFiles>,
)
    requires
        c.platform_countersign is Some,
    ensures
        platform_errors(c, files, Some(jwks), true, attestation, sbom) == platform_errors(
            c,
            files,
            Some(jwks),
            false,
            attestation,
            sbom,
        ),
        platform_notices(c, files, Some(jwks), true, attestation, sbom) == platform_notices(
            c,
            files,
            Some(jwks),
            false,
            attestation,
            sbom,
        ),
{
    let seal = seal_for(c, Some(jwks));
    assert(seal_errors(c, seal, true) == seal_errors(c, seal, false));
    assert(seal_notices(c, seal, true, certificate_errors(c, files).len() == 0) == seal_notices(
        c,
        seal,
        false,
        certificate_errors(c, files).len() == 0,
    ));
}

/// A checked seal must verify and bind this certificate: when its JWS does
/// not verify against the keyset, or it verifies but carries no
/// `certificate_sha256` claim or a claim other than this certificate's hash,
/// verification fails whatever `require_sealed` says.
pub proof fn law_seal_must_bind_this_certificate(
    c: GovernanceCertificate,
    files: Option<Seq<ArtifactFile>>,
    jwks: PlatformJwks,
    require_sealed: bool,
    attestation: Option<Seq<u8>>,
    sbom: Option<SbomFiles>,
)
    requires
        c.platform_countersign is Some,
        match seal_check_of(c.platform_countersign->0.countersign_jws@, jwks) {
            SealVerdict::Invalid(_) => true,
            SealVerdict::Verified(v) => v.certificate_sha256 != Some(c.certificate_hash@),
        },
    ensures
        platform_errors(c, files, Some(jwks), require_sealed, attestation, sbom).len() > 0,
{
    let seal = seal_for(c, Some(jwks));
    match seal_check_of(c.platform_countersign->0.countersign_jws@, jwks) {
        SealVerdict::Invalid(_) => {},
        SealVerdict::Verified(v) => {
            assert(claim_errors(c, v).len() == 1);
        },
    }
    assert(seal_errors(c, seal, require_sealed).len() >= 1);
}

} // verus!
