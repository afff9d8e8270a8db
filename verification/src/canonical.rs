//! The canonical JSON text of a governance certificate: compact, members in
//! declaration order with camelCase keys, optional members omitted when
//! absent, and empty list members omitted where the format says so. The
//! certificate self-hash and the engine signature are computed over it.

use crate::certificate::{
    AgenticPostureBinding, ApprovalRecord, BuildSpecRecord, CertAgenticSurface, CertificateStatus,
    ChainIntegrity, ComplianceMapping, ComplianceRecord, ConsumedOverride, CorpusBinding,
    GateResultRecord, GovernanceCertificate, IntentRecord, InterStageChainRecord, ProofChainSummary,
    SandboxExecutionRecord, SandboxResourcePeak, SbomArtifactBinding, Signer, SigningAttestation,
    SigningAttestationKind, StageOutcome, StageRecord, VerificationOutcome, VerificationRecord,
};
use crate::inter_stage_manifest::{InterStageManifest, ManifestSigner, RunKeyChain, StageKeyRecord};
use crate::json::{enc_json, join_comma, json_str, push_json, push_json_str, JsonValue};
use crate::text::{dec, dec_int, lemma_assoc, push_dec, push_dec_i64};
use vstd::prelude::*;

verus! {

/// A value with a canonical compact JSON text.
pub trait Canonical: Sized {
    /// The canonical JSON text of `self`.
    spec fn canon(&self) -> Seq<char>;

    /// Append the canonical JSON text of `self` to `out`.
    fn write_canonical(&self, out: &mut String)
        ensures
            final(out)@ == old(out)@ + self.canon(),
    ;
}

/// `true` / `false`.
pub open spec fn bool_text(b: bool) -> Seq<char> {
    if b { seq!['t', 'r', 'u', 'e'] } else { seq!['f', 'a', 'l', 's', 'e'] }
}

/// The `key`-prefixed text of an optional member, or nothing when absent.
pub open spec fn opt_canon<T: Canonical>(key: Seq<char>, o: Option<T>) -> Seq<char> {
    match o {
        Some(x) => key + x.canon(),
        None => seq![],
    }
}

/// A JSON array of canonical items.
pub open spec fn array_canon<T: Canonical>(items: Seq<T>) -> Seq<char> {
    seq!['['] + join_comma(items.map_values(|x: T| x.canon())) + seq![']']
}

/// The `key`-prefixed text of a list member that is omitted when empty.
pub open spec fn nonempty_array_canon<T: Canonical>(key: Seq<char>, items: Seq<T>) -> Seq<char> {
    if items.len() == 0 {
        seq![]
    } else {
        key + array_canon(items)
    }
}

/// One `"key":value` object member of a string-keyed map.
pub open spec fn entry_canon<V: Canonical>(e: (String, V)) -> Seq<char> {
    json_str(e.0@) + seq![':'] + e.1.canon()
}

/// A JSON object of a string-keyed map, entries in the given order.
pub open spec fn map_canon<V: Canonical>(entries: Seq<(String, V)>) -> Seq<char> {
    seq!['{'] + join_comma(entries.map_values(|e: (String, V)| entry_canon(e))) + seq!['}']
}

/// `join_comma` of one more part.
pub proof fn lemma_join_comma_push(parts: Seq<Seq<char>>, p: Seq<char>)
    ensures
        join_comma(parts.push(p)) == join_comma(parts) + (if parts.len() == 0 {
            Seq::<char>::empty()
        } else {
            seq![',']
        }) + p,
{
    let q = parts.push(p);
    assert(q.drop_last() =~= parts);
    if parts.len() == 0 {
        assert(q =~= seq![p]);
        assert(join_comma(parts) + Seq::<char>::empty() + p =~= p);
    }
}

// ── Writing helpers: each appends one piece and threads the accumulated text.

fn open_with(out: &mut String, s: &str) -> (r: (Ghost<Seq<char>>, Ghost<Seq<char>>))
    ensures
        r.0@ == old(out)@,
        r.1@ == s@,
        final(out)@ == r.0@ + r.1@,
{
    let ghost b = out@;
    out.append(s);
    (Ghost(b), Ghost(s@))
}

fn lit(out: &mut String, Ghost(base): Ghost<Seq<char>>, Ghost(acc): Ghost<Seq<char>>, s: &str) -> (r:
    Ghost<Seq<char>>)
    requires
        old(out)@ == base + acc,
    ensures
        r@ == acc + s@,
        final(out)@ == base + r@,
{
    out.append(s);
    proof {
        lemma_assoc(base, acc, s@);
    }
    Ghost(acc + s@)
}

fn put<T: Canonical>(
    out: &mut String,
    Ghost(base): Ghost<Seq<char>>,
    Ghost(acc): Ghost<Seq<char>>,
    x: &T,
) -> (r: Ghost<Seq<char>>)
    requires
        old(out)@ == base + acc,
    ensures
        r@ == acc + x.canon(),
        final(out)@ == base + r@,
{
    x.write_canonical(out);
    proof {
        lemma_assoc(base, acc, x.canon());
    }
    Ghost(acc + x.canon())
}

fn put_dec(out: &mut String, Ghost(base): Ghost<Seq<char>>, Ghost(acc): Ghost<Seq<char>>, n: u64) -> (r:
    Ghost<Seq<char>>)
    requires
        old(out)@ == base + acc,
    ensures
        r@ == acc + dec(n as nat),
        final(out)@ == base + r@,
{
    push_dec(out, n);
    proof {
        lemma_assoc(base, acc, dec(n as nat));
    }
    Ghost(acc + dec(n as nat))
}

fn put_dec_signed(
    out: &mut String,
    Ghost(base): Ghost<Seq<char>>,
    Ghost(acc): Ghost<Seq<char>>,
    n: i64,
) -> (r: Ghost<Seq<char>>)
    requires
        old(out)@ == base + acc,
    ensures
        r@ == acc + dec_int(n as int),
        final(out)@ == base + r@,
{
    push_dec_i64(out, n);
    proof {
        lemma_assoc(base, acc, dec_int(n as int));
    }
    Ghost(acc + dec_int(n as int))
}

fn put_bool(out: &mut String, Ghost(base): Ghost<Seq<char>>, Ghost(acc): Ghost<Seq<char>>, b: bool) -> (r:
    Ghost<Seq<char>>)
    requires
        old(out)@ == base + acc,
    ensures
        r@ == acc + bool_text(b),
        final(out)@ == base + r@,
{
    if b {
        out.append("true");
        proof {
            reveal_strlit("true");
        }
    } else {
        out.append("false");
        proof {
            reveal_strlit("false");
        }
    }
    assert(out@ =~= base + (acc + bool_text(b)));
    Ghost(acc + bool_text(b))
}

fn put_opt<T: Canonical>(
    out: &mut String,
    Ghost(base): Ghost<Seq<char>>,
    Ghost(acc): Ghost<Seq<char>>,
    key: &str,
    o: &Option<T>,
) -> (r: Ghost<Seq<char>>)
    requires
        old(out)@ == base + acc,
    ensures
        r@ == acc + opt_canon(key@, *o),
        final(out)@ == base + r@,
{
    match o {
        Some(x) => {
            out.append(key);
            x.write_canonical(out);
            assert(out@ =~= base + (acc + (key@ + x.canon())));
        },
        None => {
            assert(acc + Seq::<char>::empty() =~= acc);
        },
    }
    Ghost(acc + opt_canon(key@, *o))
}

fn write_array<T: Canonical>(out: &mut String, items: &Vec<T>)
    ensures
        final(out)@ == old(out)@ + array_canon(items@),
{
    let ghost start = out@;
    out.push('[');
    let n = items.len();
    let mut i: usize = 0;
    while i < n
        invariant
            n == items@.len(),
            i <= n,
            out@ == start + seq!['['] + join_comma(items@.take(i as int).map_values(|x: T| x.canon())),
        decreases n - i,
    {
        let ghost mid = out@;
        if i > 0 {
            out.push(',');
        }
        items[i].write_canonical(out);
        proof {
            let parts = items@.take(i as int).map_values(|x: T| x.canon());
            assert(parts.len() == i);
            assert(items@.take(i + 1).map_values(|x: T| x.canon()) =~= parts.push(items@[i as int].canon()));
            lemma_join_comma_push(parts, items@[i as int].canon());
            let sep = if i == 0 { Seq::<char>::empty() } else { seq![','] };
            assert(out@ =~= mid + sep + items@[i as int].canon());
            assert(out@ =~= start + seq!['['] + join_comma(items@.take(i + 1).map_values(|x: T| x.canon())));
        }
        i = i + 1;
    }
    assert(items@.take(n as int) =~= items@);
    out.push(']');
    assert(out@ =~= old(out)@ + array_canon(items@));
}

fn put_array<T: Canonical>(
    out: &mut String,
    Ghost(base): Ghost<Seq<char>>,
    Ghost(acc): Ghost<Seq<char>>,
    items: &Vec<T>,
) -> (r: Ghost<Seq<char>>)
    requires
        old(out)@ == base + acc,
    ensures
        r@ == acc + array_canon(items@),
        final(out)@ == base + r@,
{
    write_array(out, items);
    proof {
        lemma_assoc(base, acc, array_canon(items@));
    }
    Ghost(acc + array_canon(items@))
}

fn put_nonempty_array<T: Canonical>(
    out: &mut String,
    Ghost(base): Ghost<Seq<char>>,
    Ghost(acc): Ghost<Seq<char>>,
    key: &str,
    items: &Vec<T>,
) -> (r: Ghost<Seq<char>>)
    requires
        old(out)@ == base + acc,
    ensures
        r@ == acc + nonempty_array_canon(key@, items@),
        final(out)@ == base + r@,
{
    if items.len() == 0 {
        assert(acc + Seq::<char>::empty() =~= acc);
    } else {
        out.append(key);
        write_array(out, items);
        assert(out@ =~= base + (acc + (key@ + array_canon(items@))));
    }
    Ghost(acc + nonempty_array_canon(key@, items@))
}

fn write_map<V: Canonical>(out: &mut String, entries: &Vec<(String, V)>)
    ensures
        final(out)@ == old(out)@ + map_canon(entries@),
{
    let ghost start = out@;
    out.push('{');
    let n = entries.len();
    let mut i: usize = 0;
    while i < n
        invariant
            n == entries@.len(),
            i <= n,
            out@ == start + seq!['{'] + join_comma(entries@.take(i as int).map_values(|e: (String, V)| entry_canon(e))),
        decreases n - i,
    {
        let ghost mid = out@;
        if i > 0 {
            out.push(',');
        }
        let (key, value) = &entries[i];
        push_json_str(out, key.as_str());
        out.push(':');
        value.write_canonical(out);
        proof {
            let parts = entries@.take(i as int).map_values(|e: (String, V)| entry_canon(e));
            assert(parts.len() == i);
            assert(entries@.take(i + 1).map_values(|e: (String, V)| entry_canon(e)) =~= parts.push(entry_canon(entries@[i as int])));
            lemma_join_comma_push(parts, entry_canon(entries@[i as int]));
            let sep = if i == 0 { Seq::<char>::empty() } else { seq![','] };
            assert(out@ =~= mid + sep + entry_canon(entries@[i as int]));
            assert(out@ =~= start + seq!['{'] + join_comma(entries@.take(i + 1).map_values(|e: (String, V)| entry_canon(e))));
        }
        i = i + 1;
    }
    assert(entries@.take(n as int) =~= entries@);
    out.push('}');
    assert(out@ =~= old(out)@ + map_canon(entries@));
}

fn put_map<V: Canonical>(
    out: &mut String,
    Ghost(base): Ghost<Seq<char>>,
    Ghost(acc): Ghost<Seq<char>>,
    entries: &Vec<(String, V)>,
) -> (r: Ghost<Seq<char>>)
    requires
        old(out)@ == base + acc,
    ensures
        r@ == acc + map_canon(entries@),
        final(out)@ == base + r@,
{
    write_map(out, entries);
    proof {
        lemma_assoc(base, acc, map_canon(entries@));
    }
    Ghost(acc + map_canon(entries@))
}

// ── Leaf values ──────────────────────────────────────────────────────

impl Canonical for String {
    open spec fn canon(&self) -> Seq<char> {
        json_str(self@)
    }

    fn write_canonical(&self, out: &mut String) {
        push_json_str(out, self.as_str());
    }
}

impl Canonical for JsonValue {
    open spec fn canon(&self) -> Seq<char> {
        enc_json(*self)
    }

    fn write_canonical(&self, out: &mut String) {
        push_json(out, self);
    }
}


/// The `key`-prefixed text of a map member that is omitted when empty.
pub open spec fn nonempty_map_canon<V: Canonical>(key: Seq<char>, entries: Seq<(String, V)>) -> Seq<char> {
    if entries.len() == 0 {
        seq![]
    } else {
        key + map_canon(entries)
    }
}

fn put_nonempty_map<V: Canonical>(
    out: &mut String,
    Ghost(base): Ghost<Seq<char>>,
    Ghost(acc): Ghost<Seq<char>>,
    key: &str,
    entries: &Vec<(String, V)>,
) -> (r: Ghost<Seq<char>>)
    requires
        old(out)@ == base + acc,
    ensures
        r@ == acc + nonempty_map_canon(key@, entries@),
        final(out)@ == base + r@,
{
    if entries.len() == 0 {
        assert(acc + Seq::<char>::empty() =~= acc);
    } else {
        out.append(key);
        write_map(out, entries);
        assert(out@ =~= base + (acc + (key@ + map_canon(entries@))));
    }
    Ghost(acc + nonempty_map_canon(key@, entries@))
}

impl Canonical for u64 {
    open spec fn canon(&self) -> Seq<char> {
        dec(*self as nat)
    }

    fn write_canonical(&self, out: &mut String) {
        push_dec(out, *self);
    }
}

impl<T: Canonical> Canonical for Option<T> {
    open spec fn canon(&self) -> Seq<char> {
        match self {
            Some(x) => x.canon(),
            None => seq!['n', 'u', 'l', 'l'],
        }
    }

    fn write_canonical(&self, out: &mut String) {
        match self {
            Some(x) => x.write_canonical(out),
            None => {
                out.append("null");
                proof {
                    reveal_strlit("null");
                }
                assert(out@ =~= old(out)@ + seq!['n', 'u', 'l', 'l']);
            },
        }
    }
}

impl Canonical for CertificateStatus {
    open spec fn canon(&self) -> Seq<char> {
        match self {
            CertificateStatus::Complete => json_str("complete"@),
            CertificateStatus::Incomplete => json_str("incomplete"@),
        }
    }

    fn write_canonical(&self, out: &mut String) {
        match self {
            CertificateStatus::Complete => push_json_str(out, "complete"),
            CertificateStatus::Incomplete => push_json_str(out, "incomplete"),
        }
    }
}

impl Canonical for SigningAttestationKind {
    open spec fn canon(&self) -> Seq<char> {
        match self {
            SigningAttestationKind::Unsigned => json_str("unsigned"@),
            SigningAttestationKind::Ephemeral => json_str("ephemeral"@),
            SigningAttestationKind::Operator => json_str("operator"@),
            SigningAttestationKind::SigstoreRekor => json_str("sigstore-rekor"@),
        }
    }

    fn write_canonical(&self, out: &mut String) {
        match self {
            SigningAttestationKind::Unsigned => push_json_str(out, "unsigned"),
            SigningAttestationKind::Ephemeral => push_json_str(out, "ephemeral"),
            SigningAttestationKind::Operator => push_json_str(out, "operator"),
            SigningAttestationKind::SigstoreRekor => push_json_str(out, "sigstore-rekor"),
        }
    }
}

impl Canonical for StageOutcome {
    open spec fn canon(&self) -> Seq<char> {
        match self {
            StageOutcome::Passed => json_str("passed"@),
            StageOutcome::Failed => json_str("failed"@),
            StageOutcome::Skipped => json_str("skipped"@),
        }
    }

    fn write_canonical(&self, out: &mut String) {
        match self {
            StageOutcome::Passed => push_json_str(out, "passed"),
            StageOutcome::Failed => push_json_str(out, "failed"),
            StageOutcome::Skipped => push_json_str(out, "skipped"),
        }
    }
}

impl Canonical for VerificationOutcome {
    open spec fn canon(&self) -> Seq<char> {
        match self {
            VerificationOutcome::Passed => json_str("passed"@),
            VerificationOutcome::Failed => json_str("failed"@),
            VerificationOutcome::Skipped => json_str("skipped"@),
        }
    }

    fn write_canonical(&self, out: &mut String) {
        match self {
            VerificationOutcome::Passed => push_json_str(out, "passed"),
            VerificationOutcome::Failed => push_json_str(out, "failed"),
            VerificationOutcome::Skipped => push_json_str(out, "skipped"),
        }
    }
}

impl Canonical for ChainIntegrity {
    open spec fn canon(&self) -> Seq<char> {
        match self {
            ChainIntegrity::Verified => json_str("verified"@),
            ChainIntegrity::Unverified => json_str("unverified"@),
            ChainIntegrity::Empty => json_str("empty"@),
        }
    }

    fn write_canonical(&self, out: &mut String) {
        match self {
            ChainIntegrity::Verified => push_json_str(out, "verified"),
            ChainIntegrity::Unverified => push_json_str(out, "unverified"),
            ChainIntegrity::Empty => push_json_str(out, "empty"),
        }
    }
}

/// The optional leading `"approvedBy":...,` member of an approval record.
pub open spec fn approved_by_head(o: Option<String>) -> Seq<char> {
    match o {
        Some(by) => "\"approvedBy\":"@ + by.canon() + ","@,
        None => seq![],
    }
}

impl Canonical for ApprovalRecord {
    open spec fn canon(&self) -> Seq<char> {
        "{"@ + approved_by_head(self.approved_by) + "\"approvedAt\":"@ + self.approved_at.canon() + ",\"gateType\":"@ + self.gate_type.canon()
            + "}"@
    }

    fn write_canonical(&self, out: &mut String) {
        let (Ghost(b), Ghost(a)) = open_with(out, "{");
        let ghost a0 = a;
        let ghost head = approved_by_head(self.approved_by);
        match &self.approved_by {
            Some(by) => {
                out.append("\"approvedBy\":");
                by.write_canonical(out);
                out.append(",");
            },
            None => {},
        }
        assert(out@ =~= b + (a0 + head));
        let Ghost(a) = lit(out, Ghost(b), Ghost(a0 + head), "\"approvedAt\":");
        let Ghost(a) = put(out, Ghost(b), Ghost(a), &self.approved_at);
        let Ghost(a) = lit(out, Ghost(b), Ghost(a), ",\"gateType\":");
        let Ghost(a) = put(out, Ghost(b), Ghost(a), &self.gate_type);
        let Ghost(a) = lit(out, Ghost(b), Ghost(a), "}");
    }
}

impl Canonical for InterStageManifest {
    open spec fn canon(&self) -> Seq<char> {
        manifest_canon(*self, self.signature@)
    }

    fn write_canonical(&self, out: &mut String) {
        write_manifest_form(out, self, &self.signature);
    }
}

impl Canonical for CorpusBinding {
    open spec fn canon(&self) -> Seq<char> {
        "{\"corpusAttestationHash\":"@
            + self.corpus_attestation_hash.canon()
            + ",\"specSpineVersion\":"@
            + self.spec_spine_version.canon()
            + "}"@
    }

    fn write_canonical(&self, out: &mut String) {
        let (Ghost(b), Ghost(a)) = open_with(out, "{\"corpusAttestationHash\":");
        let Ghost(a) = put(out, Ghost(b), Ghost(a), &self.corpus_attestation_hash);
        let Ghost(a) = lit(out, Ghost(b), Ghost(a), ",\"specSpineVersion\":");
        let Ghost(a) = put(out, Ghost(b), Ghost(a), &self.spec_spine_version);
        let Ghost(a) = lit(out, Ghost(b), Ghost(a), "}");
    }
}

impl Canonical for SbomArtifactBinding {
    open spec fn canon(&self) -> Seq<char> {
        "{\"bomHash\":"@
            + self.bom_hash.canon()
            + ",\"auditHash\":"@
            + self.audit_hash.canon()
            + ",\"bomToolVersion\":"@
            + self.bom_tool_version.canon()
            + "}"@
    }

    fn write_canonical(&self, out: &mut String) {
        let (Ghost(b), Ghost(a)) = open_with(out, "{\"bomHash\":");
        let Ghost(a) = put(out, Ghost(b), Ghost(a), &self.bom_hash);
        let Ghost(a) = lit(out, Ghost(b), Ghost(a), ",\"auditHash\":");
        let Ghost(a) = put(out, Ghost(b), Ghost(a), &self.audit_hash);
        let Ghost(a) = lit(out, Ghost(b), Ghost(a), ",\"bomToolVersion\":");
        let Ghost(a) = put(out, Ghost(b), Ghost(a), &self.bom_tool_version);
        let Ghost(a) = lit(out, Ghost(b), Ghost(a), "}");
    }
}

impl Canonical for CertAgenticSurface {
    open spec fn canon(&self) -> Seq<char> {
        "{\"kind\":"@
            + self.kind.canon()
            + opt_canon(",\"description\":"@, self.description)
            + opt_canon(",\"governanceEnvelope\":"@, self.governance_envelope)
            + "}"@
    }

    fn write_canonical(&self, out: &mut String) {
        let (Ghost(b), Ghost(a)) = open_with(out, "{\"kind\":");
        let Ghost(a) = put(out, Ghost(b), Ghost(a), &self.kind);
        let Ghost(a) = put_opt(out, Ghost(b), Ghost(a), ",\"description\":", &self.description);
        let Ghost(a) = put_opt(out, Ghost(b), Ghost(a), ",\"governanceEnvelope\":", &self.governance_envelope);
        let Ghost(a) = lit(out, Ghost(b), Ghost(a), "}");
    }
}

impl Canonical for AgenticPostureBinding {
    open spec fn canon(&self) -> Seq<char> {
        "{\"posture\":"@
            + self.posture.canon()
            + ",\"defaulted\":"@
            + bool_text(self.defaulted)
            + nonempty_array_canon(",\"surfaces\":"@, self.surfaces@)
            + "}"@
    }

    fn write_canonical(&self, out: &mut String) {
        let (Ghost(b), Ghost(a)) = open_with(out, "{\"posture\":");
        let Ghost(a) = put(out, Ghost(b), Ghost(a), &self.posture);
        let Ghost(a) = lit(out, Ghost(b), Ghost(a), ",\"defaulted\":");
        let Ghost(a) = put_bool(out, Ghost(b), Ghost(a), self.defaulted);
        let Ghost(a) = put_nonempty_array(out, Ghost(b), Ghost(a), ",\"surfaces\":", &self.surfaces);
        let Ghost(a) = lit(out, Ghost(b), Ghost(a), "}");
    }
}

impl Canonical for ConsumedOverride {
    open spec fn canon(&self) -> Seq<char> {
        "{\"artifactId\":"@
            + self.artifact_id.canon()
            + ",\"path\":"@
            + self.path.canon()
            + ",\"contentHash\":"@
            + self.content_hash.canon()
            + opt_canon(",\"author\":"@, self.author)
            + opt_canon(",\"modifiedAt\":"@, self.modified_at)
            + ",\"verified\":"@
            + bool_text(self.verified)
            + opt_canon(",\"verifiedBy\":"@, self.verified_by)
            + "}"@
    }

    fn write_canonical(&self, out: &mut String) {
        let (Ghost(b), Ghost(a)) = open_with(out, "{\"artifactId\":");
        let Ghost(a) = put(out, Ghost(b), Ghost(a), &self.artifact_id);
        let Ghost(a) = lit(out, Ghost(b), Ghost(a), ",\"path\":");
        let Ghost(a) = put(out, Ghost(b), Ghost(a), &self.path);
        let Ghost(a) = lit(out, Ghost(b), Ghost(a), ",\"contentHash\":");
        let Ghost(a) = put(out, Ghost(b), Ghost(a), &self.content_hash);
        let Ghost(a) = put_opt(out, Ghost(b), Ghost(a), ",\"author\":", &self.author);
        let Ghost(a) = put_opt(out, Ghost(b), Ghost(a), ",\"modifiedAt\":", &self.modified_at);
        let Ghost(a) = lit(out, Ghost(b), Ghost(a), ",\"verified\":");
        let Ghost(a) = put_bool(out, Ghost(b), Ghost(a), self.verified);
        let Ghost(a) = put_opt(out, Ghost(b), Ghost(a), ",\"verifiedBy\":", &self.verified_by);
        let Ghost(a) = lit(out, Ghost(b), Ghost(a), "}");
    }
}

impl Canonical for SigningAttestation {
    open spec fn canon(&self) -> Seq<char> {
        "{\"kind\":"@
            + self.kind.canon()
            + opt_canon(",\"note\":"@, self.note)
            + "}"@
    }

    fn write_canonical(&self, out: &mut String) {
        let (Ghost(b), Ghost(a)) = open_with(out, "{\"kind\":");
        let Ghost(a) = put(out, Ghost(b), Ghost(a), &self.kind);
        let Ghost(a) = put_opt(out, Ghost(b), Ghost(a), ",\"note\":", &self.note);
        let Ghost(a) = lit(out, Ghost(b), Ghost(a), "}");
    }
}

impl Canonical for Signer {
    open spec fn canon(&self) -> Seq<char> {
        "{\"subject\":"@
            + self.subject.canon()
            + ",\"identityProvider\":"@
            + self.identity_provider.canon()
            + opt_canon(",\"sessionId\":"@, self.session_id)
            + "}"@
    }

    fn write_canonical(&self, out: &mut String) {
        let (Ghost(b), Ghost(a)) = open_with(out, "{\"subject\":");
        let Ghost(a) = put(out, Ghost(b), Ghost(a), &self.subject);
        let Ghost(a) = lit(out, Ghost(b), Ghost(a), ",\"identityProvider\":");
        let Ghost(a) = put(out, Ghost(b), Ghost(a), &self.identity_provider);
        let Ghost(a) = put_opt(out, Ghost(b), Ghost(a), ",\"sessionId\":", &self.session_id);
        let Ghost(a) = lit(out, Ghost(b), Ghost(a), "}");
    }
}

impl Canonical for IntentRecord {
    open spec fn canon(&self) -> Seq<char> {
        "{\"requirementsHash\":"@
            + self.requirements_hash.canon()
            + opt_canon(",\"specId\":"@, self.spec_id)
            + opt_canon(",\"specHash\":"@, self.spec_hash)
            + "}"@
    }

    fn write_canonical(&self, out: &mut String) {
        let (Ghost(b), Ghost(a)) = open_with(out, "{\"requirementsHash\":");
        let Ghost(a) = put(out, Ghost(b), Ghost(a), &self.requirements_hash);
        let Ghost(a) = put_opt(out, Ghost(b), Ghost(a), ",\"specId\":", &self.spec_id);
        let Ghost(a) = put_opt(out, Ghost(b), Ghost(a), ",\"specHash\":", &self.spec_hash);
        let Ghost(a) = lit(out, Ghost(b), Ghost(a), "}");
    }
}

impl Canonical for BuildSpecRecord {
    open spec fn canon(&self) -> Seq<char> {
        "{\"hash\":"@
            + self.hash.canon()
            + opt_canon(",\"approvalRecord\":"@, self.approval_record)
            + "}"@
    }

    fn write_canonical(&self, out: &mut String) {
        let (Ghost(b), Ghost(a)) = open_with(out, "{\"hash\":");
        let Ghost(a) = put(out, Ghost(b), Ghost(a), &self.hash);
        let Ghost(a) = put_opt(out, Ghost(b), Ghost(a), ",\"approvalRecord\":", &self.approval_record);
        let Ghost(a) = lit(out, Ghost(b), Ghost(a), "}");
    }
}

impl Canonical for GateResultRecord {
    open spec fn canon(&self) -> Seq<char> {
        "{\"passed\":"@
            + bool_text(self.passed)
            + ",\"checksRun\":"@
            + dec(self.checks_run as nat)
            + ",\"checksFailed\":"@
            + dec(self.checks_failed as nat)
            + "}"@
    }

    fn write_canonical(&self, out: &mut String) {
        let (Ghost(b), Ghost(a)) = open_with(out, "{\"passed\":");
        let Ghost(a) = put_bool(out, Ghost(b), Ghost(a), self.passed);
        let Ghost(a) = lit(out, Ghost(b), Ghost(a), ",\"checksRun\":");
        let Ghost(a) = put_dec(out, Ghost(b), Ghost(a), self.checks_run as u64);
        let Ghost(a) = lit(out, Ghost(b), Ghost(a), ",\"checksFailed\":");
        let Ghost(a) = put_dec(out, Ghost(b), Ghost(a), self.checks_failed as u64);
        let Ghost(a) = lit(out, Ghost(b), Ghost(a), "}");
    }
}

impl Canonical for SandboxResourcePeak {
    open spec fn canon(&self) -> Seq<char> {
        "{\"cpuMilliPeak\":"@
            + dec(self.cpu_milli_peak as nat)
            + ",\"memoryBytesPeak\":"@
            + dec(self.memory_bytes_peak as nat)
            + ",\"pidPeak\":"@
            + dec(self.pid_peak as nat)
            + "}"@
    }

    fn write_canonical(&self, out: &mut String) {
        let (Ghost(b), Ghost(a)) = open_with(out, "{\"cpuMilliPeak\":");
        let Ghost(a) = put_dec(out, Ghost(b), Ghost(a), self.cpu_milli_peak as u64);
        let Ghost(a) = lit(out, Ghost(b), Ghost(a), ",\"memoryBytesPeak\":");
        let Ghost(a) = put_dec(out, Ghost(b), Ghost(a), self.memory_bytes_peak as u64);
        let Ghost(a) = lit(out, Ghost(b), Ghost(a), ",\"pidPeak\":");
        let Ghost(a) = put_dec(out, Ghost(b), Ghost(a), self.pid_peak as u64);
        let Ghost(a) = lit(out, Ghost(b), Ghost(a), "}");
    }
}

impl Canonical for SandboxExecutionRecord {
    open spec fn canon(&self) -> Seq<char> {
        "{\"command\":"@
            + array_canon(self.command@)
            + ",\"inputArtifactHashes\":"@
            + map_canon(self.input_artifact_hashes@)
            + ",\"outputArtifactHashes\":"@
            + map_canon(self.output_artifact_hashes@)
            + ",\"resourcePeak\":"@
            + self.resource_peak.canon()
            + ",\"isolationTier\":"@
            + dec(self.isolation_tier as nat)
            + ",\"runtimeDescriptor\":"@
            + self.runtime_descriptor.canon()
            + ",\"deadlineHit\":"@
            + bool_text(self.deadline_hit)
            + ",\"exitCode\":"@
            + dec_int(self.exit_code as int)
            + "}"@
    }

    fn write_canonical(&self, out: &mut String) {
        let (Ghost(b), Ghost(a)) = open_with(out, "{\"command\":");
        let Ghost(a) = put_array(out, Ghost(b), Ghost(a), &self.command);
        let Ghost(a) = lit(out, Ghost(b), Ghost(a), ",\"inputArtifactHashes\":");
        let Ghost(a) = put_map(out, Ghost(b), Ghost(a), self.input_artifact_hashes.entries());
        let Ghost(a) = lit(out, Ghost(b), Ghost(a), ",\"outputArtifactHashes\":");
        let Ghost(a) = put_map(out, Ghost(b), Ghost(a), self.output_artifact_hashes.entries());
        let Ghost(a) = lit(out, Ghost(b), Ghost(a), ",\"resourcePeak\":");
        let Ghost(a) = put(out, Ghost(b), Ghost(a), &self.resource_peak);
        let Ghost(a) = lit(out, Ghost(b), Ghost(a), ",\"isolationTier\":");
        let Ghost(a) = put_dec(out, Ghost(b), Ghost(a), self.isolation_tier as u64);
        let Ghost(a) = lit(out, Ghost(b), Ghost(a), ",\"runtimeDescriptor\":");
        let Ghost(a) = put(out, Ghost(b), Ghost(a), &self.runtime_descriptor);
        let Ghost(a) = lit(out, Ghost(b), Ghost(a), ",\"deadlineHit\":");
        let Ghost(a) = put_bool(out, Ghost(b), Ghost(a), self.deadline_hit);
        let Ghost(a) = lit(out, Ghost(b), Ghost(a), ",\"exitCode\":");
        let Ghost(a) = put_dec_signed(out, Ghost(b), Ghost(a), self.exit_code as i64);
        let Ghost(a) = lit(out, Ghost(b), Ghost(a), "}");
    }
}

impl Canonical for StageRecord {
    open spec fn canon(&self) -> Seq<char> {
        "{\"stageId\":"@
            + self.stage_id.canon()
            + ",\"status\":"@
            + self.status.canon()
            + ",\"artifactHashes\":"@
            + map_canon(self.artifact_hashes@)
            + ",\"gateResult\":"@
            + self.gate_result.canon()
            + opt_canon(",\"durationMs\":"@, self.duration_ms)
            + opt_canon(",\"sandboxExecution\":"@, self.sandbox_execution)
            + "}"@
    }

    fn write_canonical(&self, out: &mut String) {
        let (Ghost(b), Ghost(a)) = open_with(out, "{\"stageId\":");
        let Ghost(a) = put(out, Ghost(b), Ghost(a), &self.stage_id);
        let Ghost(a) = lit(out, Ghost(b), Ghost(a), ",\"status\":");
        let Ghost(a) = put(out, Ghost(b), Ghost(a), &self.status);
        let Ghost(a) = lit(out, Ghost(b), Ghost(a), ",\"artifactHashes\":");
        let Ghost(a) = put_map(out, Ghost(b), Ghost(a), self.artifact_hashes.entries());
        let Ghost(a) = lit(out, Ghost(b), Ghost(a), ",\"gateResult\":");
        let Ghost(a) = put(out, Ghost(b), Ghost(a), &self.gate_result);
        let Ghost(a) = put_opt(out, Ghost(b), Ghost(a), ",\"durationMs\":", &self.duration_ms);
        let Ghost(a) = put_opt(out, Ghost(b), Ghost(a), ",\"sandboxExecution\":", &self.sandbox_execution);
        let Ghost(a) = lit(out, Ghost(b), Ghost(a), "}");
    }
}

impl Canonical for VerificationRecord {
    open spec fn canon(&self) -> Seq<char> {
        "{\"compile\":"@
            + self.compile.canon()
            + ",\"test\":"@
            + self.test.canon()
            + ",\"lint\":"@
            + self.lint.canon()
            + ",\"typecheck\":"@
            + self.typecheck.canon()
            + ",\"securityScan\":"@
            + self.security_scan.canon()
            + "}"@
    }

    fn write_canonical(&self, out: &mut String) {
        let (Ghost(b), Ghost(a)) = open_with(out, "{\"compile\":");
        let Ghost(a) = put(out, Ghost(b), Ghost(a), &self.compile);
        let Ghost(a) = lit(out, Ghost(b), Ghost(a), ",\"test\":");
        let Ghost(a) = put(out, Ghost(b), Ghost(a), &self.test);
        let Ghost(a) = lit(out, Ghost(b), Ghost(a), ",\"lint\":");
        let Ghost(a) = put(out, Ghost(b), Ghost(a), &self.lint);
        let Ghost(a) = lit(out, Ghost(b), Ghost(a), ",\"typecheck\":");
        let Ghost(a) = put(out, Ghost(b), Ghost(a), &self.typecheck);
        let Ghost(a) = lit(out, Ghost(b), Ghost(a), ",\"securityScan\":");
        let Ghost(a) = put(out, Ghost(b), Ghost(a), &self.security_scan);
        let Ghost(a) = lit(out, Ghost(b), Ghost(a), "}");
    }
}

impl Canonical for ProofChainSummary {
    open spec fn canon(&self) -> Seq<char> {
        "{\"recordCount\":"@
            + dec(self.record_count as nat)
            + opt_canon(",\"firstRecordHash\":"@, self.first_record_hash)
            + opt_canon(",\"lastRecordHash\":"@, self.last_record_hash)
            + ",\"chainIntegrity\":"@
            + self.chain_integrity.canon()
            + "}"@
    }

    fn write_canonical(&self, out: &mut String) {
        let (Ghost(b), Ghost(a)) = open_with(out, "{\"recordCount\":");
        let Ghost(a) = put_dec(out, Ghost(b), Ghost(a), self.record_count as u64);
        let Ghost(a) = put_opt(out, Ghost(b), Ghost(a), ",\"firstRecordHash\":", &self.first_record_hash);
        let Ghost(a) = put_opt(out, Ghost(b), Ghost(a), ",\"lastRecordHash\":", &self.last_record_hash);
        let Ghost(a) = lit(out, Ghost(b), Ghost(a), ",\"chainIntegrity\":");
        let Ghost(a) = put(out, Ghost(b), Ghost(a), &self.chain_integrity);
        let Ghost(a) = lit(out, Ghost(b), Ghost(a), "}");
    }
}

impl Canonical for ComplianceMapping {
    open spec fn canon(&self) -> Seq<char> {
        "{\"control\":"@
            + self.control.canon()
            + ",\"mechanism\":"@
            + self.mechanism.canon()
            + ",\"status\":"@
            + self.status.canon()
            + "}"@
    }

    fn write_canonical(&self, out: &mut String) {
        let (Ghost(b), Ghost(a)) = open_with(out, "{\"control\":");
        let Ghost(a) = put(out, Ghost(b), Ghost(a), &self.control);
        let Ghost(a) = lit(out, Ghost(b), Ghost(a), ",\"mechanism\":");
        let Ghost(a) = put(out, Ghost(b), Ghost(a), &self.mechanism);
        let Ghost(a) = lit(out, Ghost(b), Ghost(a), ",\"status\":");
        let Ghost(a) = put(out, Ghost(b), Ghost(a), &self.status);
        let Ghost(a) = lit(out, Ghost(b), Ghost(a), "}");
    }
}

impl Canonical for ComplianceRecord {
    open spec fn canon(&self) -> Seq<char> {
        "{\"frameworks\":"@
            + array_canon(self.frameworks@)
            + nonempty_array_canon(",\"mappings\":"@, self.mappings@)
            + "}"@
    }

    fn write_canonical(&self, out: &mut String) {
        let (Ghost(b), Ghost(a)) = open_with(out, "{\"frameworks\":");
        let Ghost(a) = put_array(out, Ghost(b), Ghost(a), &self.frameworks);
        let Ghost(a) = put_nonempty_array(out, Ghost(b), Ghost(a), ",\"mappings\":", &self.mappings);
        let Ghost(a) = lit(out, Ghost(b), Ghost(a), "}");
    }
}

impl Canonical for ManifestSigner {
    open spec fn canon(&self) -> Seq<char> {
        "{\"agentId\":"@
            + self.agent_id.canon()
            + ",\"ephemeralKeyId\":"@
            + self.ephemeral_key_id.canon()
            + "}"@
    }

    fn write_canonical(&self, out: &mut String) {
        let (Ghost(b), Ghost(a)) = open_with(out, "{\"agentId\":");
        let Ghost(a) = put(out, Ghost(b), Ghost(a), &self.agent_id);
        let Ghost(a) = lit(out, Ghost(b), Ghost(a), ",\"ephemeralKeyId\":");
        let Ghost(a) = put(out, Ghost(b), Ghost(a), &self.ephemeral_key_id);
        let Ghost(a) = lit(out, Ghost(b), Ghost(a), "}");
    }
}

impl Canonical for StageKeyRecord {
    open spec fn canon(&self) -> Seq<char> {
        "{\"stageId\":"@
            + self.stage_id.canon()
            + ",\"ephemeralPublicKeyB64\":"@
            + self.ephemeral_public_key_b64.canon()
            + ",\"keyFingerprint\":"@
            + self.key_fingerprint.canon()
            + "}"@
    }

    fn write_canonical(&self, out: &mut String) {
        let (Ghost(b), Ghost(a)) = open_with(out, "{\"stageId\":");
        let Ghost(a) = put(out, Ghost(b), Ghost(a), &self.stage_id);
        let Ghost(a) = lit(out, Ghost(b), Ghost(a), ",\"ephemeralPublicKeyB64\":");
        let Ghost(a) = put(out, Ghost(b), Ghost(a), &self.ephemeral_public_key_b64);
        let Ghost(a) = lit(out, Ghost(b), Ghost(a), ",\"keyFingerprint\":");
        let Ghost(a) = put(out, Ghost(b), Ghost(a), &self.key_fingerprint);
        let Ghost(a) = lit(out, Ghost(b), Ghost(a), "}");
    }
}

impl Canonical for RunKeyChain {
    open spec fn canon(&self) -> Seq<char> {
        "{\"runId\":"@
            + self.run_id.canon()
            + ",\"rootPublicKeyB64\":"@
            + self.root_public_key_b64.canon()
            + ",\"stageKeys\":"@
            + map_canon(self.stage_keys@)
            + "}"@
    }

    fn write_canonical(&self, out: &mut String) {
        let (Ghost(b), Ghost(a)) = open_with(out, "{\"runId\":");
        let Ghost(a) = put(out, Ghost(b), Ghost(a), &self.run_id);
        let Ghost(a) = lit(out, Ghost(b), Ghost(a), ",\"rootPublicKeyB64\":");
        let Ghost(a) = put(out, Ghost(b), Ghost(a), &self.root_public_key_b64);
        let Ghost(a) = lit(out, Ghost(b), Ghost(a), ",\"stageKeys\":");
        let Ghost(a) = put_map(out, Ghost(b), Ghost(a), self.stage_keys.entries());
        let Ghost(a) = lit(out, Ghost(b), Ghost(a), "}");
    }
}

impl Canonical for InterStageChainRecord {
    open spec fn canon(&self) -> Seq<char> {
        "{\"keyChain\":"@
            + self.key_chain.canon()
            + ",\"manifests\":"@
            + array_canon(self.manifests@)
            + "}"@
    }

    fn write_canonical(&self, out: &mut String) {
        let (Ghost(b), Ghost(a)) = open_with(out, "{\"keyChain\":");
        let Ghost(a) = put(out, Ghost(b), Ghost(a), &self.key_chain);
        let Ghost(a) = lit(out, Ghost(b), Ghost(a), ",\"manifests\":");
        let Ghost(a) = put_array(out, Ghost(b), Ghost(a), &self.manifests);
        let Ghost(a) = lit(out, Ghost(b), Ghost(a), "}");
    }
}

/// Canonical JSON of a manifest with `signature` text `sig`.
pub open spec fn manifest_canon(m: InterStageManifest, sig: Seq<char>) -> Seq<char> {
    "{\"runId\":"@
        + m.run_id.canon()
        + ",\"fromStage\":"@
        + m.from_stage.canon()
        + ",\"toStage\":"@
        + m.to_stage.canon()
        + ",\"producedAt\":"@
        + m.produced_at.canon()
        + ",\"artifactHashes\":"@
        + map_canon(m.artifact_hashes@)
        + nonempty_map_canon(",\"metadata\":"@, m.metadata@)
        + ",\"signer\":"@
        + m.signer.canon()
        + ",\"signature\":"@
        + json_str(sig)
        + "}"@
}

/// Append the canonical JSON of `m` with its `signature` written as `sig`.
pub fn write_manifest_form(out: &mut String, m: &InterStageManifest, sig: &String)
    ensures
        final(out)@ == old(out)@ + manifest_canon(*m, sig@),
{
    let (Ghost(b), Ghost(a)) = open_with(out, "{\"runId\":");
    let Ghost(a) = put(out, Ghost(b), Ghost(a), &m.run_id);
    let Ghost(a) = lit(out, Ghost(b), Ghost(a), ",\"fromStage\":");
    let Ghost(a) = put(out, Ghost(b), Ghost(a), &m.from_stage);
    let Ghost(a) = lit(out, Ghost(b), Ghost(a), ",\"toStage\":");
    let Ghost(a) = put(out, Ghost(b), Ghost(a), &m.to_stage);
    let Ghost(a) = lit(out, Ghost(b), Ghost(a), ",\"producedAt\":");
    let Ghost(a) = put(out, Ghost(b), Ghost(a), &m.produced_at);
    let Ghost(a) = lit(out, Ghost(b), Ghost(a), ",\"artifactHashes\":");
    let Ghost(a) = put_map(out, Ghost(b), Ghost(a), m.artifact_hashes.entries());
    let Ghost(a) = put_nonempty_map(out, Ghost(b), Ghost(a), ",\"metadata\":", m.metadata.entries());
    let Ghost(a) = lit(out, Ghost(b), Ghost(a), ",\"signer\":");
    let Ghost(a) = put(out, Ghost(b), Ghost(a), &m.signer);
    let Ghost(a) = lit(out, Ghost(b), Ghost(a), ",\"signature\":");
    let Ghost(a) = put(out, Ghost(b), Ghost(a), sig);
    let Ghost(a) = lit(out, Ghost(b), Ghost(a), "}");
}

/// Canonical JSON of a certificate with `certificateHash` written as
/// `hash_text`, `certSignature` empty, and no platform countersign.
#[verifier::opaque]
pub open spec fn certificate_canon(c: GovernanceCertificate, hash_text: Seq<char>) -> Seq<char> {
    "{\"certificateVersion\":"@
        + c.certificate_version.canon()
        + ",\"pipelineRunId\":"@
        + c.pipeline_run_id.canon()
        + ",\"timestamp\":"@
        + c.timestamp.canon()
        + ",\"status\":"@
        + c.status.canon()
        + ",\"intent\":"@
        + c.intent.canon()
        + ",\"buildSpec\":"@
        + c.build_spec.canon()
        + ",\"stages\":"@
        + array_canon(c.stages@)
        + ",\"verification\":"@
        + c.verification.canon()
        + ",\"proofChain\":"@
        + c.proof_chain.canon()
        + opt_canon(",\"compliance\":"@, c.compliance)
        + opt_canon(",\"signer\":"@, c.signer)
        + opt_canon(",\"interStageChain\":"@, c.inter_stage_chain)
        + opt_canon(",\"admittedEnvelopeHash\":"@, c.admitted_envelope_hash)
        + opt_canon(",\"goalId\":"@, c.goal_id)
        + opt_canon(",\"intentCapsuleHash\":"@, c.intent_capsule_hash)
        + nonempty_array_canon(",\"consumedOverrides\":"@, c.consumed_overrides@)
        + opt_canon(",\"corpusBinding\":"@, c.corpus_binding)
        + opt_canon(",\"sbomArtifactBinding\":"@, c.sbom_artifact_binding)
        + opt_canon(",\"agenticPostureBinding\":"@, c.agentic_posture_binding)
        + ",\"certificateHash\":"@
        + json_str(hash_text)
        + ",\"signingPublicKey\":"@
        + c.signing_public_key.canon()
        + ",\"certSignature\":"@
        + json_str(Seq::<char>::empty())
        + ",\"signingAttestation\":"@
        + c.signing_attestation.canon()
        + "}"@
}

/// Append [`certificate_canon`] of `c` with `hash_text`.
pub fn write_certificate_form(out: &mut String, c: &GovernanceCertificate, hash_text: &String)
    ensures
        final(out)@ == old(out)@ + certificate_canon(*c, hash_text@),
{
    reveal(certificate_canon);
    let empty = String::new();
    let (Ghost(b), Ghost(a)) = open_with(out, "{\"certificateVersion\":");
    let Ghost(a) = put(out, Ghost(b), Ghost(a), &c.certificate_version);
    let Ghost(a) = lit(out, Ghost(b), Ghost(a), ",\"pipelineRunId\":");
    let Ghost(a) = put(out, Ghost(b), Ghost(a), &c.pipeline_run_id);
    let Ghost(a) = lit(out, Ghost(b), Ghost(a), ",\"timestamp\":");
    let Ghost(a) = put(out, Ghost(b), Ghost(a), &c.timestamp);
    let Ghost(a) = lit(out, Ghost(b), Ghost(a), ",\"status\":");
    let Ghost(a) = put(out, Ghost(b), Ghost(a), &c.status);
    let Ghost(a) = lit(out, Ghost(b), Ghost(a), ",\"intent\":");
    let Ghost(a) = put(out, Ghost(b), Ghost(a), &c.intent);
    let Ghost(a) = lit(out, Ghost(b), Ghost(a), ",\"buildSpec\":");
    let Ghost(a) = put(out, Ghost(b), Ghost(a), &c.build_spec);
    let Ghost(a) = lit(out, Ghost(b), Ghost(a), ",\"stages\":");
    let Ghost(a) = put_array(out, Ghost(b), Ghost(a), &c.stages);
    let Ghost(a) = lit(out, Ghost(b), Ghost(a), ",\"verification\":");
    let Ghost(a) = put(out, Ghost(b), Ghost(a), &c.verification);
    let Ghost(a) = lit(out, Ghost(b), Ghost(a), ",\"proofChain\":");
    let Ghost(a) = put(out, Ghost(b), Ghost(a), &c.proof_chain);
    let Ghost(a) = put_opt(out, Ghost(b), Ghost(a), ",\"compliance\":", &c.compliance);
    let Ghost(a) = put_opt(out, Ghost(b), Ghost(a), ",\"signer\":", &c.signer);
    let Ghost(a) = put_opt(out, Ghost(b), Ghost(a), ",\"interStageChain\":", &c.inter_stage_chain);
    let Ghost(a) = put_opt(out, Ghost(b), Ghost(a), ",\"admittedEnvelopeHash\":", &c.admitted_envelope_hash);
    let Ghost(a) = put_opt(out, Ghost(b), Ghost(a), ",\"goalId\":", &c.goal_id);
    let Ghost(a) = put_opt(out, Ghost(b), Ghost(a), ",\"intentCapsuleHash\":", &c.intent_capsule_hash);
    let Ghost(a) = put_nonempty_array(out, Ghost(b), Ghost(a), ",\"consumedOverrides\":", &c.consumed_overrides);
    let Ghost(a) = put_opt(out, Ghost(b), Ghost(a), ",\"corpusBinding\":", &c.corpus_binding);
    let Ghost(a) = put_opt(out, Ghost(b), Ghost(a), ",\"sbomArtifactBinding\":", &c.sbom_artifact_binding);
    let Ghost(a) = put_opt(out, Ghost(b), Ghost(a), ",\"agenticPostureBinding\":", &c.agentic_posture_binding);
    let Ghost(a) = lit(out, Ghost(b), Ghost(a), ",\"certificateHash\":");
    let Ghost(a) = put(out, Ghost(b), Ghost(a), hash_text);
    let Ghost(a) = lit(out, Ghost(b), Ghost(a), ",\"signingPublicKey\":");
    let Ghost(a) = put(out, Ghost(b), Ghost(a), &c.signing_public_key);
    let Ghost(a) = lit(out, Ghost(b), Ghost(a), ",\"certSignature\":");
    let Ghost(a) = put(out, Ghost(b), Ghost(a), &empty);
    let Ghost(a) = lit(out, Ghost(b), Ghost(a), ",\"signingAttestation\":");
    let Ghost(a) = put(out, Ghost(b), Ghost(a), &c.signing_attestation);
    let Ghost(a) = lit(out, Ghost(b), Ghost(a), "}");
}


} // verus!
