//! What the verify verbs report and which exit code they end with: `0`
//! verified, `1` verification failed (or a fail-closed mode fired).

use crate::bindings::{bytes_view, sbom_view, SbomFiles};
use crate::certificate::{files_view, ArtifactFile, CertificateStatus, GovernanceCertificate, VerificationResult};
use crate::jws::PlatformJwks;
use crate::platform::{jwks_view, platform_errors, platform_notices, verify_certificate_with_platform};
use crate::text::{concat2, concat3, concat5, dec, dec_string, push_msg, views};
use vstd::prelude::*;
use vstd::string::StringSliceAdditionalSpecFns;
use vstd::utf8::{decode_utf8, encode_utf8, is_char_boundary};

verus! {

/// The certificate verb's output: the notice lines and detail lines (for
/// stderr), the one-line verdict (for stdout), and the exit code.
#[derive(Debug)]
pub struct CertificateReport {
    pub notice_lines: Vec<String>,
    pub headline: String,
    pub detail_lines: Vec<String>,
    pub exit_code: u8,
}

/// The name of a certificate status, as its `Debug` form writes it.
pub open spec fn status_name(s: CertificateStatus) -> Seq<char> {
    match s {
        CertificateStatus::Complete => "Complete"@,
        CertificateStatus::Incomplete => "Incomplete"@,
    }
}

/// The first 16 bytes of `h`'s UTF-8, as text.
pub open spec fn hash_prefix(h: Seq<char>) -> Seq<char> {
    decode_utf8(encode_utf8(h).take(16))
}

/// Each notice, prefixed `notice: `.
pub open spec fn notice_lines_of(notices: Seq<Seq<char>>) -> Seq<Seq<char>> {
    notices.map_values(|n: Seq<char>| "notice: "@ + n)
}

/// Each error, as a bulleted detail line.
pub open spec fn error_lines_of(errors: Seq<Seq<char>>) -> Seq<Seq<char>> {
    errors.map_values(|e: Seq<char>| "  - "@ + e)
}

/// The detail lines of a verified certificate: stage count, proof-chain
/// record count, the hash's first 16 bytes (when it has that many), and
/// whether a platform seal is present.
pub open spec fn verified_details(c: GovernanceCertificate) -> Seq<Seq<char>> {
    seq!["  stages: "@ + dec(c.stages@.len()), "  proof chain records: "@ + dec(c.proof_chain.record_count as nat)]
        + if encode_utf8(c.certificate_hash@).len() >= 16 {
        seq!["  certificate hash: "@ + hash_prefix(c.certificate_hash@)]
    } else {
        seq![]
    } + seq![
        if c.platform_countersign is Some {
            "  platform seal: present"@
        } else {
            "  platform seal: ABSENT (unsealed)"@
        },
    ]
}

/// The verdict line for stdout.
pub open spec fn certificate_headline(c: GovernanceCertificate, valid: bool, error_count: nat) -> Seq<char> {
    if valid {
        "governance certificate VERIFIED (pipeline: "@ + c.pipeline_run_id@ + ", status: "@ + status_name(c.status)
            + ")\n"@
    } else {
        "governance certificate INVALID ("@ + dec(error_count) + " error(s))\n"@
    }
}

fn status_text(s: CertificateStatus) -> (res: &'static str)
    ensures
        res@ == status_name(s),
{
    match s {
        CertificateStatus::Complete => "Complete",
        CertificateStatus::Incomplete => "Incomplete",
    }
}

fn prefixed_lines(prefix: &str, items: &Vec<String>) -> (res: Vec<String>)
    ensures
        views(res@) == views(items@).map_values(|m: Seq<char>| prefix@ + m),
{
    let mut out: Vec<String> = Vec::new();
    let n = items.len();
    let mut i: usize = 0;
    while i < n
        invariant
            n == items@.len(),
            i <= n,
            views(out@) == views(items@).take(i as int).map_values(|m: Seq<char>| prefix@ + m),
        decreases n - i,
    {
        push_msg(&mut out, concat2(prefix, items[i].as_str()));
        assert(views(items@).take(i + 1) =~= views(items@).take(i as int).push(items@[i as int]@));
        assert(views(out@) =~= views(items@).take(i + 1).map_values(|m: Seq<char>| prefix@ + m));
        i = i + 1;
    }
    assert(views(items@).take(n as int) =~= views(items@));
    out
}

proof fn lemma_ascii_encode(s: Seq<char>)
    requires
        forall|i: int| 0 <= i < s.len() ==> (#[trigger] s[i] as u32) < 128,
    ensures
        encode_utf8(s).len() == s.len(),
        forall|i: int| 0 <= i < s.len() ==> #[trigger] encode_utf8(s)[i] < 128,
    decreases s.len(),
{
    if s.len() > 0 {
        let r = s.drop_first();
        assert forall|i: int| 0 <= i < r.len() implies (#[trigger] r[i] as u32) < 128 by {
            assert(r[i] == s[i + 1]);
        }
        lemma_ascii_encode(r);
        let v = s[0] as u32;
        assert(v < 128);
        assert((v & 0x7F) < 128) by (bit_vector);
        let e = encode_utf8(s);
        assert(e == vstd::utf8::encode_scalar(v) + encode_utf8(r));
        assert forall|i: int| 0 <= i < s.len() implies #[trigger] e[i] < 128 by {
            if i > 0 {
                assert(e[i] == encode_utf8(r)[i - 1]);
            }
        }
    }
}

proof fn lemma_ascii_boundary(b: Seq<u8>, k: int)
    requires
        forall|i: int| 0 <= i < b.len() ==> #[trigger] b[i] < 128,
        0 <= k <= b.len(),
    ensures
        vstd::utf8::valid_utf8(b),
        is_char_boundary(b, k),
    decreases b.len(),
{
    if b.len() > 0 {
        let r = b.subrange(1, b.len() as int);
        assert forall|i: int| 0 <= i < r.len() implies #[trigger] r[i] < 128 by {
            assert(r[i] == b[i + 1]);
        }
        let x = b[0];
        assert((x & 0x7F) as u32 <= 0x7F) by (bit_vector);
        assert(vstd::utf8::valid_first_scalar(b));
        assert(vstd::utf8::pop_first_scalar(b) == r);
        if k > 0 {
            lemma_ascii_boundary(r, k - 1);
        } else {
            lemma_ascii_boundary(r, 0);
        }
    }
}

/// Text of ASCII characters (such as a lowercase hex digest) can be cut at
/// any byte index up to its length.
pub proof fn lemma_ascii_char_boundary(s: Seq<char>, k: int)
    requires
        forall|i: int| 0 <= i < s.len() ==> (#[trigger] s[i] as u32) < 128,
        0 <= k <= s.len(),
    ensures
        encode_utf8(s).len() == s.len(),
        is_char_boundary(encode_utf8(s), k),
{
    lemma_ascii_encode(s);
    lemma_ascii_boundary(encode_utf8(s), k);
}

/// The certificate verb's report on a verification result: exit `0` with the
/// VERIFIED line and the certificate's summary when it is valid, else exit
/// `1` with the INVALID line and one line per error; the notices come first
/// either way.
pub fn certificate_report(cert: &GovernanceCertificate, result: &VerificationResult) -> (res: CertificateReport)
    requires
        result.valid && encode_utf8(cert.certificate_hash@).len() >= 16 ==> is_char_boundary(
            encode_utf8(cert.certificate_hash@),
            16,
        ),
    ensures
        views(res.notice_lines@) == notice_lines_of(views(result.notices@)),
        res.headline@ == certificate_headline(*cert, result.valid, result.errors@.len()),
        views(res.detail_lines@) == if result.valid {
            verified_details(*cert)
        } else {
            error_lines_of(views(result.errors@))
        },
        res.exit_code == if result.valid { 0u8 } else { 1u8 },
{
    let notice_lines = prefixed_lines("notice: ", &result.notices);
    if result.valid {
        let headline = concat5(
            "governance certificate VERIFIED (pipeline: ",
            cert.pipeline_run_id.as_str(),
            ", status: ",
            status_text(cert.status),
            ")\n",
        );
        let mut details: Vec<String> = Vec::new();
        let stages = dec_string(cert.stages.len() as u64);
        push_msg(&mut details, concat2("  stages: ", stages.as_str()));
        let records = dec_string(cert.proof_chain.record_count);
        push_msg(&mut details, concat2("  proof chain records: ", records.as_str()));
        let ghost first = views(details@);
        assert(first =~= seq![
            "  stages: "@ + dec(cert.stages@.len()),
            "  proof chain records: "@ + dec(cert.proof_chain.record_count as nat),
        ]);
        let h = cert.certificate_hash.as_str();
        let byte_len = h.as_bytes().len();
        if byte_len >= 16 {
            let (prefix, _) = h.split_at(16);
            proof {
                vstd::utf8::encode_utf8_decode_utf8(prefix@);
                assert(encode_utf8(cert.certificate_hash@).subrange(0, 16) =~= encode_utf8(
                    cert.certificate_hash@,
                ).take(16));
                assert(prefix@ == hash_prefix(cert.certificate_hash@));
            }
            push_msg(&mut details, concat2("  certificate hash: ", prefix));
        }
        if cert.platform_countersign.is_some() {
            push_msg(&mut details, String::from_str("  platform seal: present"));
        } else {
            push_msg(&mut details, String::from_str("  platform seal: ABSENT (unsealed)"));
        }
        assert(views(details@) =~= verified_details(*cert));
        CertificateReport { notice_lines, headline, detail_lines: details, exit_code: 0 }
    } else {
        let count = dec_string(result.errors.len() as u64);
        let headline = concat3("governance certificate INVALID (", count.as_str(), " error(s))\n");
        let details = prefixed_lines("  - ", &result.errors);
        assert(views(result.errors@).len() == result.errors@.len());
        CertificateReport { notice_lines, headline, detail_lines: details, exit_code: 1 }
    }
}

/// The certificate verb from verification to output: the certificate is
/// verified with the platform seal required unless `allow_unsealed`, and the
/// report says VERIFIED with exit `0` exactly when no error was found, else
/// INVALID with exit `1` and one line per error; the notices come first.
pub fn verify_certificate_command(
    cert: &GovernanceCertificate,
    artifact_files: Option<&Vec<ArtifactFile>>,
    platform_jwks: Option<&PlatformJwks>,
    allow_unsealed: bool,
    corpus_attestation: Option<&[u8]>,
    sbom: Option<&SbomFiles>,
) -> (res: CertificateReport)
    ensures
        ({
            let errors = platform_errors(
                *cert,
                files_view(artifact_files),
                jwks_view(platform_jwks),
                !allow_unsealed,
                bytes_view(corpus_attestation),
                sbom_view(sbom),
            );
            let notices = platform_notices(
                *cert,
                files_view(artifact_files),
                jwks_view(platform_jwks),
                !allow_unsealed,
                bytes_view(corpus_attestation),
                sbom_view(sbom),
            );
            &&& res.exit_code == if errors.len() == 0 { 0u8 } else { 1u8 }
            &&& res.headline@ == certificate_headline(*cert, errors.len() == 0, errors.len())
            &&& views(res.notice_lines@) == notice_lines_of(notices)
            &&& views(res.detail_lines@) == if errors.len() == 0 {
                verified_details(*cert)
            } else {
                error_lines_of(errors)
            }
        }),
{
    let result = verify_certificate_with_platform(
        cert,
        artifact_files,
        platform_jwks,
        !allow_unsealed,
        corpus_attestation,
        sbom,
    );
    proof {
        assert(views(result.errors@).len() == result.errors@.len());
        if result.valid {
            let h = cert.certificate_hash@;
            assert forall|i: int| 0 <= i < h.len() implies (#[trigger] h[i] as u32) < 128 by {
                assert(crate::digest::is_lower_hex_char(h[i]));
            }
            lemma_ascii_char_boundary(h, 16);
        }
    }
    certificate_report(cert, &result)
}

/// The provenance verb's exit code and the failure it reports: a validator
/// panic fails closed; under `--fail-on-rejected` a missing BRD (nothing was
/// verified) or any rejected claim fails; otherwise the audit passes.
pub open spec fn provenance_outcome(
    panic_reason: Option<Seq<char>>,
    fail_on_rejected: bool,
    brd_not_found: bool,
    rejected_count: u64,
) -> (u8, Option<Seq<char>>) {
    match panic_reason {
        Some(r) => (1, Some("error: validator panic (fail-closed) -- "@ + r)),
        None => if fail_on_rejected && brd_not_found {
            (
                1,
                Some(
                    "provenance verification FAILED: no BRD found under the project; nothing was verified (--fail-on-rejected)"@,
                ),
            )
        } else if fail_on_rejected && rejected_count > 0 {
            (
                1,
                Some(
                    "provenance verification FAILED: "@ + dec(rejected_count as nat)
                        + " rejected claim(s) (--fail-on-rejected)"@,
                ),
            )
        } else {
            (0, None)
        },
    }
}

/// Decide the provenance verb's exit code (and failure message) from the
/// audit's outcome.
pub fn provenance_exit(
    panic_reason: Option<&str>,
    fail_on_rejected: bool,
    brd_not_found: bool,
    rejected_count: u64,
) -> (res: (u8, Option<String>))
    ensures
        (res.0, match res.1 {
            Some(m) => Some(m@),
            None => None,
        }) == provenance_outcome(
            match panic_reason {
                Some(r) => Some(r@),
                None => None,
            },
            fail_on_rejected,
            brd_not_found,
            rejected_count,
        ),
{
    if let Some(reason) = panic_reason {
        return (1, Some(concat2("error: validator panic (fail-closed) -- ", reason)));
    }
    if fail_on_rejected && brd_not_found {
        return (
            1,
            Some(
                String::from_str(
                    "provenance verification FAILED: no BRD found under the project; nothing was verified (--fail-on-rejected)",
                ),
            ),
        );
    }
    if fail_on_rejected && rejected_count > 0 {
        let n = dec_string(rejected_count);
        return (
            1,
            Some(concat3("provenance verification FAILED: ", n.as_str(), " rejected claim(s) (--fail-on-rejected)")),
        );
    }
    (0, None)
}

/// The VERIFIED headline names the certificate's own status by its variant
/// name, `Complete` or `Incomplete`, so certificates of one pipeline run that
/// differ in status get different headlines.
pub proof fn law_verified_headline_names_the_status(c: GovernanceCertificate, d: GovernanceCertificate, n: nat)
    ensures
        certificate_headline(c, true, n) == "governance certificate VERIFIED (pipeline: "@ + c.pipeline_run_id@
            + ", status: "@ + (if c.status is Complete { "Complete"@ } else { "Incomplete"@ }) + ")\n"@,
        c.pipeline_run_id@ == d.pipeline_run_id@ && c.status != d.status ==> certificate_headline(c, true, n)
            != certificate_headline(d, true, n),
{
    reveal_strlit("Complete");
    reveal_strlit("Incomplete");
    if c.pipeline_run_id@ == d.pipeline_run_id@ && c.status != d.status {
        assert(status_name(c.status).len() != status_name(d.status).len());
        assert(certificate_headline(c, true, n).len() != certificate_headline(d, true, n).len());
    }
}

} // verus!
