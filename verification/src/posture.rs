//! Adjudication of the certificate's agentic-posture binding: its internal
//! consistency, and (for a `none` posture) a cross-check against the produced
//! app's CycloneDX BOM for watchlisted agent/LLM SDK dependencies.

use crate::bindings::{errors_after, notices_after, record_finding, sbom_view, Finding, SbomFiles};
use crate::certificate::{AgenticPostureBinding, CertAgenticSurface, GovernanceCertificate, VerificationResult};
use crate::json::{json_parse, parse_json, JsonValue};
use crate::text::{
    chars_of, concat2, concat3, concat4, concat5, concat6, debug_quoted, dec, dec_string, push_msg,
    push_msgs, str_debug, str_eq, views,
};
use vstd::prelude::*;

verus! {

// ── Governance envelope shape ────────────────────────────────────────

/// The required top-level sections of a governance envelope, in declaration
/// order: `schema_version` (string), `process`, `ceilings` (objects), `gates`,
/// `emits` (arrays), `constituents`, `overrides` (objects).
pub open spec fn envelope_field(i: int) -> Seq<char> {
    if i == 0 { "schema_version"@ }
    else if i == 1 { "process"@ }
    else if i == 2 { "ceilings"@ }
    else if i == 3 { "gates"@ }
    else if i == 4 { "emits"@ }
    else if i == 5 { "constituents"@ }
    else { "overrides"@ }
}

/// The section index named by `k`, or -1 for any other key.
pub open spec fn envelope_slot(k: Seq<char>) -> int {
    if k == envelope_field(0) { 0 }
    else if k == envelope_field(1) { 1 }
    else if k == envelope_field(2) { 2 }
    else if k == envelope_field(3) { 3 }
    else if k == envelope_field(4) { 4 }
    else if k == envelope_field(5) { 5 }
    else if k == envelope_field(6) { 6 }
    else { -1 }
}

/// Whether `v` has the JSON kind section `i` requires.
pub open spec fn envelope_kind_ok(i: int, v: JsonValue) -> bool {
    if i == 0 {
        v is Str
    } else if i == 3 || i == 4 {
        v is Array
    } else {
        v is Object
    }
}

/// The expected kind of section `i`, as a diagnostic names it.
pub open spec fn envelope_kind_name(i: int) -> Seq<char> {
    if i == 0 { "a string"@ } else if i == 3 || i == 4 { "a sequence"@ } else { "a map"@ }
}

/// Whether a number's text is a floating-point rendering (it has a fraction
/// or an exponent); integers render with digits and a sign only.
pub open spec fn is_float_text(t: Seq<char>) -> bool {
    exists|j: int| 0 <= j < t.len() && (t[j] == '.' || t[j] == 'e' || t[j] == 'E')
}

/// How a diagnostic describes the value it did not expect.
pub open spec fn unexpected_text(v: JsonValue) -> Seq<char> {
    match v {
        JsonValue::Null => "null"@,
        JsonValue::Bool(b) => if b { "boolean `true`"@ } else { "boolean `false`"@ },
        JsonValue::Number(t) => if is_float_text(t@) {
            "floating point `"@ + t@ + "`"@
        } else {
            "integer `"@ + t@ + "`"@
        },
        JsonValue::Str(s) => "string "@ + str_debug(s@),
        JsonValue::Array(_) => "sequence"@,
        JsonValue::Object(_) => "map"@,
    }
}

/// The type diagnostic for value `v` standing where section `i` belongs.
pub open spec fn envelope_type_error(i: int, v: JsonValue) -> Seq<char> {
    "invalid type: "@ + unexpected_text(v) + ", expected "@ + envelope_kind_name(i)
}

/// Scan object members in order, marking seen sections: a repeated section or
/// one of the wrong kind is an error; other keys are ignored.
pub open spec fn scan_envelope(ms: Seq<(String, JsonValue)>, seen: Seq<bool>) -> Result<Seq<bool>, Seq<char>>
    decreases ms.len(),
{
    if ms.len() == 0 {
        Ok(seen)
    } else {
        let i = envelope_slot(ms[0].0@);
        if i < 0 {
            scan_envelope(ms.drop_first(), seen)
        } else if seen[i] {
            Err("duplicate field `"@ + envelope_field(i) + "`"@)
        } else if !envelope_kind_ok(i, ms[0].1) {
            Err(envelope_type_error(i, ms[0].1))
        } else {
            scan_envelope(ms.drop_first(), seen.update(i, true))
        }
    }
}

/// The first section (in declaration order, from `i`) not marked seen.
pub open spec fn first_missing(seen: Seq<bool>, i: int) -> Option<int>
    decreases 7 - i,
{
    if i < 0 || i >= 7 {
        None
    } else if !seen[i] {
        Some(i)
    } else {
        first_missing(seen, i + 1)
    }
}

/// Whether a governance envelope has the required top-level shape, and the
/// diagnostic if not. The envelope must be an object carrying each section
/// exactly once with its kind (other keys are ignored); any other value is
/// rejected.
pub open spec fn envelope_shape(env: JsonValue) -> Result<(), Seq<char>> {
    match env {
        JsonValue::Object(ms) => match scan_envelope(ms@, seq![false, false, false, false, false, false, false]) {
            Err(e) => Err(e),
            Ok(seen) => match first_missing(seen, 0) {
                Some(i) => Err("missing field `"@ + envelope_field(i) + "`"@),
                None => Ok(()),
            },
        },
        _ => Err("invalid type: "@ + unexpected_text(env) + ", expected struct GovernanceEnvelopeShape"@),
    }
}

fn envelope_slot_of(k: &str) -> (res: i64)
    ensures
        res == envelope_slot(k@),
{
    if str_eq(k, "schema_version") { 0 }
    else if str_eq(k, "process") { 1 }
    else if str_eq(k, "ceilings") { 2 }
    else if str_eq(k, "gates") { 3 }
    else if str_eq(k, "emits") { 4 }
    else if str_eq(k, "constituents") { 5 }
    else if str_eq(k, "overrides") { 6 }
    else { -1 }
}

fn envelope_field_name(i: i64) -> (res: &'static str)
    requires
        0 <= i < 7,
    ensures
        res@ == envelope_field(i as int),
{
    if i == 0 { "schema_version" }
    else if i == 1 { "process" }
    else if i == 2 { "ceilings" }
    else if i == 3 { "gates" }
    else if i == 4 { "emits" }
    else if i == 5 { "constituents" }
    else { "overrides" }
}

fn envelope_kind_check(i: i64, v: &JsonValue) -> (res: bool)
    requires
        0 <= i < 7,
    ensures
        res == envelope_kind_ok(i as int, *v),
{
    if i == 0 {
        matches!(v, JsonValue::Str(_))
    } else if i == 3 || i == 4 {
        matches!(v, JsonValue::Array(_))
    } else {
        matches!(v, JsonValue::Object(_))
    }
}

fn has_float_marker(t: &str) -> (res: bool)
    ensures
        res == is_float_text(t@),
{
    let cs = chars_of(t);
    let n = cs.len();
    let mut j: usize = 0;
    while j < n
        invariant
            n == cs@.len(),
            cs@ == t@,
            j <= n,
            forall|q: int| 0 <= q < j ==> !(t@[q] == '.' || t@[q] == 'e' || t@[q] == 'E'),
        decreases n - j,
    {
        let c = cs[j];
        if c == '.' || c == 'e' || c == 'E' {
            return true;
        }
        j = j + 1;
    }
    false
}

/// How a diagnostic describes the value `v`.
fn unexpected_text_of(v: &JsonValue) -> (res: String)
    ensures
        res@ == unexpected_text(*v),
{
    match v {
        JsonValue::Null => String::from_str("null"),
        JsonValue::Bool(b) => if *b {
            String::from_str("boolean `true`")
        } else {
            String::from_str("boolean `false`")
        },
        JsonValue::Number(t) => if has_float_marker(t.as_str()) {
            concat3("floating point `", t.as_str(), "`")
        } else {
            concat3("integer `", t.as_str(), "`")
        },
        JsonValue::Str(s) => {
            let q = debug_quoted(s.as_str());
            concat2("string ", q.as_str())
        },
        JsonValue::Array(_) => String::from_str("sequence"),
        JsonValue::Object(_) => String::from_str("map"),
    }
}

fn envelope_type_message(i: i64, v: &JsonValue) -> (res: String)
    requires
        0 <= i < 7,
    ensures
        res@ == envelope_type_error(i as int, *v),
{
    let kind = if i == 0 {
        "a string"
    } else if i == 3 || i == 4 {
        "a sequence"
    } else {
        "a map"
    };
    let unexpected = unexpected_text_of(v);
    concat4("invalid type: ", unexpected.as_str(), ", expected ", kind)
}

/// Shape-validate an inline governance envelope: `Ok` exactly when it has the
/// required top-level sections with their kinds, else the diagnostic.
pub fn validate_governance_envelope_shape(env: &JsonValue) -> (res: Result<(), String>)
    ensures
        match envelope_shape(*env) {
            Ok(()) => res is Ok,
            Err(m) => res matches Err(e) && e@ == m,
        },
{
    match env {
        JsonValue::Object(ms) => {
            let mut seen: Vec<bool> = vec![false, false, false, false, false, false, false];
            let ghost init = seen@;
            assert(init =~= seq![false, false, false, false, false, false, false]);
            let n = ms.len();
            assert(ms@.subrange(0, n as int) =~= ms@);
            let mut k: usize = 0;
            while k < n
                invariant
                    n == ms@.len(),
                    *env == JsonValue::Object(*ms),
                    k <= n,
                    seen@.len() == 7,
                    init == seq![false, false, false, false, false, false, false],
                    scan_envelope(ms@, init) == scan_envelope(ms@.subrange(k as int, n as int), seen@),
                decreases n - k,
            {
                let (key, value) = &ms[k];
                let ghost rest = ms@.subrange(k as int, n as int);
                assert(rest[0] == ms@[k as int]);
                assert(rest.drop_first() =~= ms@.subrange(k + 1, n as int));
                let i = envelope_slot_of(key.as_str());
                assert(rest[0].0@ == key@ && rest[0].1 == *value);
                if i >= 0 {
                    if seen[i as usize] {
                        return Err(concat3("duplicate field `", envelope_field_name(i), "`"));
                    }
                    if !envelope_kind_check(i, value) {
                        return Err(envelope_type_message(i, value));
                    }
                    seen.set(i as usize, true);
                }
                k = k + 1;
            }
            assert(ms@.subrange(n as int, n as int) =~= Seq::<(String, JsonValue)>::empty());
            let mut i: i64 = 0;
            while i < 7
                invariant
                    0 <= i <= 7,
                    *env == JsonValue::Object(*ms),
                    seen@.len() == 7,
                    init == seq![false, false, false, false, false, false, false],
                    scan_envelope(ms@, init) == Ok::<Seq<bool>, Seq<char>>(seen@),
                    first_missing(seen@, 0) == first_missing(seen@, i as int),
                decreases 7 - i,
            {
                if !seen[i as usize] {
                    return Err(concat3("missing field `", envelope_field_name(i), "`"));
                }
                i = i + 1;
            }
            Ok(())
        },
        _ => {
            let unexpected = unexpected_text_of(env);
            Err(concat3("invalid type: ", unexpected.as_str(), ", expected struct GovernanceEnvelopeShape"))
        },
    }
}


// ── Internal consistency ─────────────────────────────────────────────

/// The finding on the posture level against the number of surfaces: `none`
/// must enumerate none, `declared`/`governed` at least one, and any other
/// level is unknown.
pub open spec fn posture_level_errors(b: AgenticPostureBinding) -> Seq<Seq<char>> {
    let p = b.posture@;
    let n = b.surfaces@.len();
    if p == "none"@ {
        if n > 0 {
            seq!["agentic_posture_binding: `none` must enumerate no surfaces, found "@ + dec(n)]
        } else {
            seq![]
        }
    } else if p == "declared"@ || p == "governed"@ {
        if n == 0 {
            seq!["agentic_posture_binding: `"@ + p + "` requires a non-empty surface enumeration"@]
        } else {
            seq![]
        }
    } else {
        seq!["agentic_posture_binding: unknown posture `"@ + p + "` (expected none|declared|governed)"@]
    }
}

/// The finding on surface number `i` of a `governed` binding: its envelope
/// must be present and shape-valid.
pub open spec fn governed_surface_error(i: nat, s: CertAgenticSurface) -> Seq<Seq<char>> {
    match s.governance_envelope {
        None => seq![
            "agentic_posture_binding: `governed` surface #"@ + dec(i) + " ("@ + s.kind@
                + ") is missing its governance_envelope"@,
        ],
        Some(env) => match envelope_shape(env) {
            Ok(()) => seq![],
            Err(e) => seq![
                "agentic_posture_binding: `governed` surface #"@ + dec(i) + " ("@ + s.kind@
                    + ") has a non-conformant governance_envelope: "@ + e,
            ],
        },
    }
}

/// The findings on the surfaces of a `governed` binding, in order.
pub open spec fn governed_surface_errors(surfaces: Seq<CertAgenticSurface>) -> Seq<Seq<char>>
    decreases surfaces.len(),
{
    if surfaces.len() == 0 {
        seq![]
    } else {
        governed_surface_errors(surfaces.drop_last()) + governed_surface_error(
            (surfaces.len() - 1) as nat,
            surfaces.last(),
        )
    }
}

/// Every internal inconsistency of a posture binding: the level finding, then
/// (for `governed`) one per surface whose envelope is missing or malformed.
pub open spec fn posture_inconsistencies(b: AgenticPostureBinding) -> Seq<Seq<char>> {
    posture_level_errors(b) + if b.posture@ == "governed"@ {
        governed_surface_errors(b.surfaces@)
    } else {
        seq![]
    }
}

/// Check a bound agentic posture for internal consistency, without the BOM.
/// The result is empty exactly when the binding is self-consistent.
pub fn agentic_posture_binding_inconsistencies(binding: &AgenticPostureBinding) -> (res: Vec<String>)
    ensures
        views(res@) == posture_inconsistencies(*binding),
{
    let mut errors: Vec<String> = Vec::new();
    let n = binding.surfaces.len();
    let p = binding.posture.as_str();
    if str_eq(p, "none") {
        if n > 0 {
            let count = dec_string(n as u64);
            push_msg(
                &mut errors,
                concat2("agentic_posture_binding: `none` must enumerate no surfaces, found ", count.as_str()),
            );
        }
    } else if str_eq(p, "declared") || str_eq(p, "governed") {
        if n == 0 {
            push_msg(
                &mut errors,
                concat3("agentic_posture_binding: `", p, "` requires a non-empty surface enumeration"),
            );
        }
    } else {
        push_msg(
            &mut errors,
            concat3("agentic_posture_binding: unknown posture `", p, "` (expected none|declared|governed)"),
        );
    }
    let ghost level = views(errors@);
    assert(level =~= posture_level_errors(*binding));
    if str_eq(p, "governed") {
        let mut i: usize = 0;
        while i < n
            invariant
                n == binding.surfaces@.len(),
                i <= n,
                views(errors@) == level + governed_surface_errors(binding.surfaces@.take(i as int)),
            decreases n - i,
        {
            let surface = &binding.surfaces[i];
            let ghost before = views(errors@);
            let index_text = dec_string(i as u64);
            match &surface.governance_envelope {
                None => {
                    push_msg(
                        &mut errors,
                        concat5(
                            "agentic_posture_binding: `governed` surface #",
                            index_text.as_str(),
                            " (",
                            surface.kind.as_str(),
                            ") is missing its governance_envelope",
                        ),
                    );
                },
                Some(env) => {
                    match validate_governance_envelope_shape(env) {
                        Ok(()) => {},
                        Err(e) => {
                            push_msg(
                                &mut errors,
                                concat6(
                                    "agentic_posture_binding: `governed` surface #",
                                    index_text.as_str(),
                                    " (",
                                    surface.kind.as_str(),
                                    ") has a non-conformant governance_envelope: ",
                                    e.as_str(),
                                ),
                            );
                        },
                    }
                },
            }
            proof {
                let t = binding.surfaces@.take(i + 1);
                assert(t.drop_last() =~= binding.surfaces@.take(i as int));
                assert(t.last() == binding.surfaces@[i as int]);
                assert(views(errors@) =~= before + governed_surface_error(i as nat, binding.surfaces@[i as int]));
                assert(views(errors@) =~= level + governed_surface_errors(t));
            }
            i = i + 1;
        }
        assert(binding.surfaces@.take(n as int) =~= binding.surfaces@);
    } else {
        assert(views(errors@) =~= posture_inconsistencies(*binding));
    }
    errors
}


// ── Watchlist and purl matching ──────────────────────────────────────

/// The agent/LLM SDK watchlist, as `(ecosystem, package name)` pairs: a
/// dependency on one of these contradicts a `none` posture.
pub open spec fn agentic_sdk_watchlist() -> Seq<(Seq<char>, Seq<char>)> {
    seq![
        ("npm"@, "openai"@),
        ("npm"@, "@anthropic-ai/sdk"@),
        ("npm"@, "ai"@),
        ("npm"@, "@ai-sdk/openai"@),
        ("npm"@, "@ai-sdk/anthropic"@),
        ("npm"@, "@google/generative-ai"@),
        ("npm"@, "@google/genai"@),
        ("npm"@, "langchain"@),
        ("npm"@, "@langchain/core"@),
        ("npm"@, "@langchain/openai"@),
        ("npm"@, "@langchain/anthropic"@),
        ("npm"@, "llamaindex"@),
        ("npm"@, "cohere-ai"@),
        ("npm"@, "@mistralai/mistralai"@),
        ("npm"@, "groq-sdk"@),
        ("npm"@, "ollama"@),
        ("npm"@, "@huggingface/inference"@),
        ("npm"@, "replicate"@),
        ("npm"@, "@aws-sdk/client-bedrock-runtime"@),
        ("npm"@, "@modelcontextprotocol/sdk"@),
    ]
}

/// Entry `j` of the watchlist.
fn watchlist_entry(j: usize) -> (res: (&'static str, &'static str))
    requires
        j < agentic_sdk_watchlist().len(),
    ensures
        (res.0@, res.1@) == agentic_sdk_watchlist()[j as int],
{
    let name = if j == 0 { "openai" }
        else if j == 1 { "@anthropic-ai/sdk" }
        else if j == 2 { "ai" }
        else if j == 3 { "@ai-sdk/openai" }
        else if j == 4 { "@ai-sdk/anthropic" }
        else if j == 5 { "@google/generative-ai" }
        else if j == 6 { "@google/genai" }
        else if j == 7 { "langchain" }
        else if j == 8 { "@langchain/core" }
        else if j == 9 { "@langchain/openai" }
        else if j == 10 { "@langchain/anthropic" }
        else if j == 11 { "llamaindex" }
        else if j == 12 { "cohere-ai" }
        else if j == 13 { "@mistralai/mistralai" }
        else if j == 14 { "groq-sdk" }
        else if j == 15 { "ollama" }
        else if j == 16 { "@huggingface/inference" }
        else if j == 17 { "replicate" }
        else if j == 18 { "@aws-sdk/client-bedrock-runtime" }
        else { "@modelcontextprotocol/sdk" };
    ("npm", name)
}

/// `s` with each `%40` (an encoded `@`) decoded, scanning left to right.
pub open spec fn decode_at_signs(s: Seq<char>) -> Seq<char>
    decreases s.len(),
{
    if s.len() == 0 {
        seq![]
    } else if s.len() >= 3 && s[0] == '%' && s[1] == '4' && s[2] == '0' {
        seq!['@'] + decode_at_signs(s.skip(3))
    } else {
        seq![s[0]] + decode_at_signs(s.skip(1))
    }
}

/// The index of the first `a` or `b` in `s`, or `s.len()` when there is none.
pub open spec fn index_of_first_in(s: Seq<char>, a: char, b: char) -> int
    decreases s.len(),
{
    if s.len() == 0 {
        0
    } else if s[0] == a || s[0] == b {
        0
    } else {
        1 + index_of_first_in(s.drop_first(), a, b)
    }
}

/// The index of the last `c` in `s`, or -1 when there is none.
pub open spec fn index_of_last(s: Seq<char>, c: char) -> int
    decreases s.len(),
{
    if s.len() == 0 {
        -1
    } else if s.last() == c {
        s.len() - 1
    } else {
        index_of_last(s.drop_last(), c)
    }
}

/// A purl with `%40` decoded and its qualifiers (`?...`) and subpath
/// (`#...`) dropped.
pub open spec fn purl_core(purl: Seq<char>) -> Seq<char> {
    let d = decode_at_signs(purl);
    d.take(index_of_first_in(d, '?', '#'))
}

/// Whether `core` splits at its first `/` into a `pkg:<type>` scheme and a
/// coordinate.
pub open spec fn purl_has_scheme(core: Seq<char>) -> bool {
    let k = index_of_first_in(core, '/', '/');
    k < core.len() && k >= 4 && core.take(4) == "pkg:"@
}

/// The purl `<type>` (empty when there is no `pkg:` scheme).
pub open spec fn purl_type(core: Seq<char>) -> Seq<char> {
    if purl_has_scheme(core) {
        core.subrange(4, index_of_first_in(core, '/', '/'))
    } else {
        seq![]
    }
}

/// The coordinate after the scheme (the whole text when there is none).
pub open spec fn purl_coord(core: Seq<char>) -> Seq<char> {
    if purl_has_scheme(core) {
        core.skip(index_of_first_in(core, '/', '/') + 1)
    } else {
        core
    }
}

/// The package-name segment of a coordinate: up to its last `@` (the version
/// separator) when something precedes it, else the whole coordinate.
pub open spec fn purl_package_name(coord: Seq<char>) -> Seq<char> {
    let k = index_of_last(coord, '@');
    if k > 0 {
        coord.take(k)
    } else {
        coord
    }
}

/// A character's code with ASCII capitals folded to lowercase.
pub open spec fn ascii_fold(c: char) -> int {
    if 65 <= (c as u32) && (c as u32) <= 90 {
        (c as u32) + 32
    } else {
        c as u32 as int
    }
}

/// Equality up to ASCII case.
pub open spec fn eq_ignore_ascii_case(a: Seq<char>, b: Seq<char>) -> bool {
    a.len() == b.len() && forall|j: int| 0 <= j < a.len() ==> ascii_fold(a[j]) == ascii_fold(b[j])
}

/// Whether a purl names package `name` of `ecosystem`: its type equals the
/// ecosystem up to ASCII case, and its package-name segment equals `name`
/// exactly.
pub open spec fn purl_names_package(purl: Seq<char>, name: Seq<char>, ecosystem: Seq<char>) -> bool {
    let core = purl_core(purl);
    eq_ignore_ascii_case(purl_type(core), ecosystem) && purl_package_name(purl_coord(core)) == name
}

proof fn lemma_index_of_first_in(s: Seq<char>, a: char, b: char, k: int)
    requires
        0 <= k <= s.len(),
        forall|j: int| 0 <= j < k ==> s[j] != a && s[j] != b,
        k == s.len() || s[k] == a || s[k] == b,
    ensures
        index_of_first_in(s, a, b) == k,
    decreases s.len(),
{
    if s.len() > 0 && k > 0 {
        lemma_index_of_first_in(s.drop_first(), a, b, k - 1);
    }
}

proof fn lemma_index_of_last(s: Seq<char>, c: char, k: int)
    requires
        -1 <= k < s.len(),
        forall|j: int| k < j < s.len() ==> s[j] != c,
        k == -1 || s[k] == c,
    ensures
        index_of_last(s, c) == k,
    decreases s.len(),
{
    if s.len() > 0 && s.last() != c {
        lemma_index_of_last(s.drop_last(), c, k);
    }
}

fn decode_at_signs_in(cs: &Vec<char>) -> (res: Vec<char>)
    ensures
        res@ == decode_at_signs(cs@),
{
    let mut out: Vec<char> = Vec::new();
    let n = cs.len();
    let mut i: usize = 0;
    assert(cs@.skip(0) =~= cs@);
    assert(out@ + decode_at_signs(cs@) =~= decode_at_signs(cs@));
    while i < n
        invariant
            n == cs@.len(),
            i <= n,
            out@ + decode_at_signs(cs@.skip(i as int)) == decode_at_signs(cs@),
        decreases n - i,
    {
        let ghost rest = cs@.skip(i as int);
        let ghost before = out@;
        if n - i >= 3 && cs[i] == '%' && cs[i + 1] == '4' && cs[i + 2] == '0' {
            proof {
                assert(rest.skip(3) =~= cs@.skip(i + 3));
                assert(rest[0] == '%' && rest[1] == '4' && rest[2] == '0');
            }
            out.push('@');
            proof {
                assert(before.push('@') + decode_at_signs(cs@.skip(i + 3)) =~= before + (seq!['@']
                    + decode_at_signs(rest.skip(3))));
            }
            i = i + 3;
        } else {
            let c = cs[i];
            proof {
                assert(rest.skip(1) =~= cs@.skip(i + 1));
                assert(rest[0] == c);
            }
            out.push(c);
            proof {
                assert(before.push(c) + decode_at_signs(cs@.skip(i + 1)) =~= before + (seq![c]
                    + decode_at_signs(rest.skip(1))));
            }
            i = i + 1;
        }
    }
    assert(cs@.skip(n as int) =~= Seq::<char>::empty());
    assert(out@ + Seq::<char>::empty() =~= out@);
    out
}

fn first_index_in(cs: &Vec<char>, a: char, b: char) -> (k: usize)
    ensures
        k == index_of_first_in(cs@, a, b),
        k <= cs@.len(),
{
    let n = cs.len();
    let mut i: usize = 0;
    while i < n
        invariant
            n == cs@.len(),
            i <= n,
            forall|j: int| 0 <= j < i ==> cs@[j] != a && cs@[j] != b,
        decreases n - i,
    {
        if cs[i] == a || cs[i] == b {
            proof {
                lemma_index_of_first_in(cs@, a, b, i as int);
            }
            return i;
        }
        i = i + 1;
    }
    proof {
        lemma_index_of_first_in(cs@, a, b, n as int);
    }
    n
}

fn last_index_of(cs: &Vec<char>, c: char) -> (res: Option<usize>)
    ensures
        match res {
            Some(k) => k == index_of_last(cs@, c) && k < cs@.len(),
            None => index_of_last(cs@, c) == -1,
        },
{
    let mut i: usize = cs.len();
    while i > 0
        invariant
            i <= cs@.len(),
            forall|j: int| i <= j < cs@.len() ==> cs@[j] != c,
        decreases i,
    {
        if cs[i - 1] == c {
            proof {
                lemma_index_of_last(cs@, c, i - 1);
            }
            return Some(i - 1);
        }
        i = i - 1;
    }
    proof {
        lemma_index_of_last(cs@, c, -1);
    }
    None
}

fn sub_chars(cs: &Vec<char>, lo: usize, hi: usize) -> (res: Vec<char>)
    requires
        lo <= hi <= cs@.len(),
    ensures
        res@ == cs@.subrange(lo as int, hi as int),
{
    let mut out: Vec<char> = Vec::new();
    let mut i: usize = lo;
    while i < hi
        invariant
            lo <= i <= hi,
            hi <= cs@.len(),
            out@ == cs@.subrange(lo as int, i as int),
        decreases hi - i,
    {
        out.push(cs[i]);
        assert(out@ =~= cs@.subrange(lo as int, i + 1));
        i = i + 1;
    }
    out
}

fn chars_equal(a: &Vec<char>, b: &Vec<char>) -> (res: bool)
    ensures
        res == (a@ == b@),
{
    if a.len() != b.len() {
        return false;
    }
    let n = a.len();
    let mut i: usize = 0;
    while i < n
        invariant
            n == a@.len(),
            n == b@.len(),
            i <= n,
            forall|j: int| 0 <= j < i ==> a@[j] == b@[j],
        decreases n - i,
    {
        if a[i] != b[i] {
            return false;
        }
        i = i + 1;
    }
    assert(a@ =~= b@);
    true
}

fn fold_code(c: char) -> (res: u32)
    ensures
        res == ascii_fold(c),
{
    let v = c as u32;
    if 65 <= v && v <= 90 {
        v + 32
    } else {
        v
    }
}

fn chars_eq_ignore_ascii_case(a: &Vec<char>, b: &Vec<char>) -> (res: bool)
    ensures
        res == eq_ignore_ascii_case(a@, b@),
{
    if a.len() != b.len() {
        return false;
    }
    let n = a.len();
    let mut i: usize = 0;
    while i < n
        invariant
            n == a@.len(),
            n == b@.len(),
            i <= n,
            forall|j: int| 0 <= j < i ==> ascii_fold(a@[j]) == ascii_fold(b@[j]),
        decreases n - i,
    {
        if fold_code(a[i]) != fold_code(b[i]) {
            return false;
        }
        i = i + 1;
    }
    true
}

/// Whether the purl names package `name` of `ecosystem`: `%40` is read as
/// `@`, qualifiers and subpath are ignored, the purl type must equal the
/// ecosystem up to ASCII case, and the package-name segment (before the
/// version's `@`) must equal `name` exactly, so `ai` does not match a scoped
/// `@scope/ai`.
pub fn purl_matches(purl: &str, name: &str, ecosystem: &str) -> (res: bool)
    ensures
        res == purl_names_package(purl@, name@, ecosystem@),
{
    let raw = chars_of(purl);
    let decoded = decode_at_signs_in(&raw);
    let stop = first_index_in(&decoded, '?', '#');
    let core = sub_chars(&decoded, 0, stop);
    assert(core@ =~= purl_core(purl@));
    let slash = first_index_in(&core, '/', '/');
    let has_scheme = slash < core.len() && slash >= 4 && core[0] == 'p' && core[1] == 'k' && core[2] == 'g'
        && core[3] == ':';
    proof {
        reveal_strlit("pkg:");
        if slash < core@.len() && slash >= 4 {
            if core@.take(4) == "pkg:"@ {
                assert(core@.take(4)[0] == 'p' && core@.take(4)[1] == 'k' && core@.take(4)[2] == 'g'
                    && core@.take(4)[3] == ':');
            }
            if core@[0] == 'p' && core@[1] == 'k' && core@[2] == 'g' && core@[3] == ':' {
                assert(core@.take(4) =~= "pkg:"@);
            }
        }
    }
    assert(has_scheme == purl_has_scheme(core@));
    let (ptype, coord) = if has_scheme {
        (sub_chars(&core, 4, slash), sub_chars(&core, slash + 1, core.len()))
    } else {
        (Vec::new(), sub_chars(&core, 0, core.len()))
    };
    assert(ptype@ =~= purl_type(core@));
    assert(coord@ =~= purl_coord(core@));
    let eco = chars_of(ecosystem);
    if !chars_eq_ignore_ascii_case(&ptype, &eco) {
        return false;
    }
    let pkg = match last_index_of(&coord, '@') {
        Some(k) => if k > 0 {
            sub_chars(&coord, 0, k)
        } else {
            sub_chars(&coord, 0, coord.len())
        },
        None => sub_chars(&coord, 0, coord.len()),
    };
    assert(pkg@ =~= purl_package_name(coord@));
    let want = chars_of(name);
    chars_equal(&pkg, &want)
}


// ── BOM walk ─────────────────────────────────────────────────────────

/// The index of the first member of an object named `key`, or the number of
/// members when there is none.
pub open spec fn member_index(ms: Seq<(String, JsonValue)>, key: Seq<char>) -> int
    decreases ms.len(),
{
    if ms.len() == 0 {
        0
    } else if ms[0].0@ == key {
        0
    } else {
        1 + member_index(ms.drop_first(), key)
    }
}

/// The member `key` of an object (`None` for other values or a missing key).
pub open spec fn json_get(v: JsonValue, key: Seq<char>) -> Option<JsonValue> {
    match v {
        JsonValue::Object(ms) => {
            let k = member_index(ms@, key);
            if k < ms@.len() {
                Some(ms@[k].1)
            } else {
                None
            }
        },
        _ => None,
    }
}

/// The member `key` of an object when it is a string.
pub open spec fn json_get_str(v: JsonValue, key: Seq<char>) -> Option<Seq<char>> {
    match json_get(v, key) {
        Some(JsonValue::Str(s)) => Some(s@),
        _ => None,
    }
}

/// Whether a BOM component (its purl and name, when present) is watchlist
/// entry `e`: by purl when it carries one, else by exact name.
pub open spec fn component_matches(purl: Option<Seq<char>>, name: Option<Seq<char>>, e: (Seq<char>, Seq<char>)) -> bool {
    match purl {
        Some(p) => purl_names_package(p, e.1, e.0),
        None => name == Some(e.1),
    }
}

/// The name of the first entry of `wl` a component matches.
pub open spec fn watchlist_hit(purl: Option<Seq<char>>, name: Option<Seq<char>>, wl: Seq<(Seq<char>, Seq<char>)>) -> Option<
    Seq<char>,
>
    decreases wl.len(),
{
    if wl.len() == 0 {
        None
    } else if component_matches(purl, name, wl[0]) {
        Some(wl[0].1)
    } else {
        watchlist_hit(purl, name, wl.drop_first())
    }
}

/// The watchlisted package a single component is, if any.
pub open spec fn component_hit(c: JsonValue) -> Option<Seq<char>> {
    watchlist_hit(json_get_str(c, "purl"@), json_get_str(c, "name"@), agentic_sdk_watchlist())
}

/// Depth-first search of a BOM node's `components` (nested components
/// included) for the first watchlisted package, giving up below nesting
/// depth 64.
pub open spec fn bom_walk(node: JsonValue, depth: int) -> Option<Seq<char>>
    decreases node, 1nat,
{
    if depth > 64 {
        None
    } else {
        match node {
            JsonValue::Object(ms) => {
                let k = member_index(ms@, "components"@);
                if 0 <= k < ms@.len() {
                    match ms@[k].1 {
                        JsonValue::Array(items) => {
                            proof {
                                assert(decreases_to!(node => ms));
                                assert(decreases_to!(ms => ms@));
                                assert(decreases_to!(ms@ => ms@[k]));
                                assert(decreases_to!(ms@[k] => ms@[k].1));
                                assert(decreases_to!(ms@[k].1 => items));
                                assert(decreases_to!(items => items@));
                            }
                            bom_walk_items(items@, depth)
                        },
                        _ => None,
                    }
                } else {
                    None
                }
            },
            _ => None,
        }
    }
}

/// The search over a `components` array, component by component: the
/// component itself, then its nested components.
pub open spec fn bom_walk_items(items: Seq<JsonValue>, depth: int) -> Option<Seq<char>>
    decreases items, 0nat,
{
    if items.len() == 0 {
        None
    } else {
        match component_hit(items[0]) {
            Some(h) => Some(h),
            None => match bom_walk(items[0], depth + 1) {
                Some(h) => Some(h),
                None => bom_walk_items(items.drop_first(), depth),
            },
        }
    }
}

/// The view of an optional string.
pub open spec fn opt_str_view(o: Option<String>) -> Option<Seq<char>> {
    match o {
        Some(s) => Some(s@),
        None => None,
    }
}

pub(crate) fn member_position(ms: &Vec<(String, JsonValue)>, key: &str) -> (k: usize)
    ensures
        k == member_index(ms@, key@),
        k <= ms@.len(),
{
    let n = ms.len();
    let mut i: usize = 0;
    assert(ms@.skip(0) =~= ms@);
    while i < n
        invariant
            n == ms@.len(),
            i <= n,
            member_index(ms@, key@) == i + member_index(ms@.skip(i as int), key@),
        decreases n - i,
    {
        let ghost rest = ms@.skip(i as int);
        assert(rest[0] == ms@[i as int]);
        if str_eq(ms[i].0.as_str(), key) {
            return i;
        }
        assert(rest.drop_first() =~= ms@.skip(i + 1));
        i = i + 1;
    }
    assert(ms@.skip(n as int) =~= Seq::<(String, JsonValue)>::empty());
    n
}

pub(crate) fn get_str_member(v: &JsonValue, key: &str) -> (res: Option<String>)
    ensures
        opt_str_view(res) == json_get_str(*v, key@),
{
    match v {
        JsonValue::Object(ms) => {
            let k = member_position(ms, key);
            if k < ms.len() {
                match &ms[k].1 {
                    JsonValue::Str(s) => Some(s.clone()),
                    _ => None,
                }
            } else {
                None
            }
        },
        _ => None,
    }
}

fn watchlisted_name(purl: &Option<String>, name: &Option<String>) -> (res: Option<String>)
    ensures
        opt_str_view(res) == watchlist_hit(opt_str_view(*purl), opt_str_view(*name), agentic_sdk_watchlist()),
{
    let ghost wl = agentic_sdk_watchlist();
    let ghost p = opt_str_view(*purl);
    let ghost nm = opt_str_view(*name);
    let n: usize = 20;
    assert(wl.len() == n);
    assert(wl.skip(0) =~= wl);
    let mut j: usize = 0;
    while j < n
        invariant
            n == wl.len(),
            wl == agentic_sdk_watchlist(),
            p == opt_str_view(*purl),
            nm == opt_str_view(*name),
            j <= n,
            watchlist_hit(p, nm, wl) == watchlist_hit(p, nm, wl.skip(j as int)),
        decreases n - j,
    {
        let (ecosystem, entry) = watchlist_entry(j);
        let ghost rest = wl.skip(j as int);
        assert(rest[0] == wl[j as int]);
        let matched = match purl {
            Some(pu) => purl_matches(pu.as_str(), entry, ecosystem),
            None => match name {
                Some(nv) => str_eq(nv.as_str(), entry),
                None => false,
            },
        };
        if matched {
            return Some(String::from_str(entry));
        }
        assert(rest.drop_first() =~= wl.skip(j + 1));
        j = j + 1;
    }
    assert(wl.skip(n as int) =~= Seq::<(Seq<char>, Seq<char>)>::empty());
    None
}

fn bom_walk_node(node: &JsonValue, depth: usize) -> (res: Option<String>)
    requires
        depth <= 65,
    ensures
        opt_str_view(res) == bom_walk(*node, depth as int),
    decreases node,
{
    if depth > 64 {
        return None;
    }
    let ms = match node {
        JsonValue::Object(ms) => ms,
        _ => {
            return None;
        },
    };
    let k = member_position(ms, "components");
    if k >= ms.len() {
        return None;
    }
    let items = match &ms[k].1 {
        JsonValue::Array(items) => items,
        _ => {
            return None;
        },
    };
    let n = items.len();
    let ghost all = items@;
    assert(all.skip(0) =~= all);
    let mut i: usize = 0;
    while i < n
        invariant
            n == items@.len(),
            all == items@,
            i <= n,
            depth <= 64,
            *node == JsonValue::Object(*ms),
            k < ms@.len(),
            k == member_index(ms@, "components"@),
            ms@[k as int].1 == JsonValue::Array(*items),
            bom_walk(*node, depth as int) == bom_walk_items(all, depth as int),
            bom_walk_items(all, depth as int) == bom_walk_items(all.skip(i as int), depth as int),
        decreases n - i,
    {
        let c = &items[i];
        let ghost rest = all.skip(i as int);
        assert(rest[0] == all[i as int]);
        let purl = get_str_member(c, "purl");
        let name = get_str_member(c, "name");
        let hit = watchlisted_name(&purl, &name);
        if hit.is_some() {
            return hit;
        }
        assert(decreases_to!(*node => node->Object_0));
        assert(decreases_to!(ms => ms@));
        assert(decreases_to!(ms@ => ms@[k as int]));
        assert(decreases_to!(ms@[k as int] => ms@[k as int].1));
        assert(decreases_to!(ms@[k as int].1 => items));
        assert(decreases_to!(items => items@));
        assert(decreases_to!(items@ => items@[i as int]));
        let nested = bom_walk_node(c, depth + 1);
        if nested.is_some() {
            return nested;
        }
        assert(rest.drop_first() =~= all.skip(i + 1));
        i = i + 1;
    }
    assert(all.skip(n as int) =~= Seq::<JsonValue>::empty());
    None
}

/// The first watchlisted agent/LLM SDK package in a parsed CycloneDX BOM:
/// a depth-first search of its `components` (nested ones included, to
/// nesting depth 64).
pub fn first_watchlist_match_in_json(bom: &JsonValue) -> (res: Option<String>)
    ensures
        opt_str_view(res) == bom_walk(*bom, 0),
{
    bom_walk_node(bom, 0)
}

/// The first watchlisted agent/LLM SDK package in a CycloneDX BOM's bytes
/// (`None` when they are not JSON, or when none is found).
pub fn first_watchlist_match_in_bom(bom_bytes: &[u8]) -> (res: Option<String>)
    ensures
        opt_str_view(res) == match json_parse(bom_bytes@) {
            Some(v) => bom_walk(v, 0),
            None => None,
        },
{
    match parse_json(bom_bytes) {
        Some(v) => first_watchlist_match_in_json(&v),
        None => None,
    }
}

// ── SBOM cross-check ─────────────────────────────────────────────────

/// The outcome of cross-checking a certificate's agentic posture against the
/// produced app's CycloneDX BOM.
#[derive(Debug, PartialEq, Eq)]
pub enum PostureCrossCheckOutcome {
    /// No posture binding: nothing to cross-check.
    Unbound,
    /// Posture `declared`/`governed`: agency was declared, so a watchlist
    /// match contradicts nothing.
    Declared,
    /// Posture `none` and no watchlisted package in the BOM (a miss is not
    /// proof of absence of agency).
    ConsistentNone,
    /// Posture `none` contradicted by a watchlisted dependency.
    Contradicted { package: String, posture: String },
    /// Binding present but no SBOM directory supplied.
    UnverifiedNoDir,
    /// Binding present, SBOM directory supplied, but the BOM was unreadable.
    BomUnreadable { path: String, error: String },
}

/// The abstract cross-check outcome.
pub ghost enum PostureOutcome {
    Unbound,
    Declared,
    ConsistentNone,
    Contradicted { package: Seq<char>, posture: Seq<char> },
    UnverifiedNoDir,
    BomUnreadable { path: Seq<char>, error: Seq<char> },
}

impl View for PostureCrossCheckOutcome {
    type V = PostureOutcome;

    open spec fn view(&self) -> PostureOutcome {
        match self {
            PostureCrossCheckOutcome::Unbound => PostureOutcome::Unbound,
            PostureCrossCheckOutcome::Declared => PostureOutcome::Declared,
            PostureCrossCheckOutcome::ConsistentNone => PostureOutcome::ConsistentNone,
            PostureCrossCheckOutcome::Contradicted { package, posture } => PostureOutcome::Contradicted {
                package: package@,
                posture: posture@,
            },
            PostureCrossCheckOutcome::UnverifiedNoDir => PostureOutcome::UnverifiedNoDir,
            PostureCrossCheckOutcome::BomUnreadable { path, error } => PostureOutcome::BomUnreadable {
                path: path@,
                error: error@,
            },
        }
    }
}

/// The view of an optional posture binding.
pub open spec fn binding_view(b: Option<&AgenticPostureBinding>) -> Option<AgenticPostureBinding> {
    match b {
        Some(b) => Some(*b),
        None => None,
    }
}

/// The watchlisted package in a BOM's bytes, if they parse as JSON and hold
/// one.
pub open spec fn bom_hit(bom: Seq<u8>) -> Option<Seq<char>> {
    match json_parse(bom) {
        Some(v) => bom_walk(v, 0),
        None => None,
    }
}

/// The cross-check: only a `none` posture is falsifiable; with the BOM read,
/// it is contradicted exactly when the BOM holds a watchlisted package.
pub open spec fn posture_outcome(binding: Option<AgenticPostureBinding>, files: Option<SbomFiles>) -> PostureOutcome {
    match binding {
        None => PostureOutcome::Unbound,
        Some(b) => if b.posture@ != "none"@ {
            PostureOutcome::Declared
        } else {
            match files {
                None => PostureOutcome::UnverifiedNoDir,
                Some(f) => match f.bom {
                    Err(e) => PostureOutcome::BomUnreadable { path: f.bom_path@, error: e@ },
                    Ok(bom) => match bom_hit(bom@) {
                        Some(package) => PostureOutcome::Contradicted { package, posture: b.posture@ },
                        None => PostureOutcome::ConsistentNone,
                    },
                },
            }
        },
    }
}

/// Cross-check a bound agentic posture against the produced app's BOM (as
/// read under the SBOM directory, when one was supplied).
pub fn adjudicate_agentic_posture(binding: Option<&AgenticPostureBinding>, sbom: Option<&SbomFiles>) -> (res:
    PostureCrossCheckOutcome)
    ensures
        res@ == posture_outcome(binding_view(binding), sbom_view(sbom)),
{
    let binding = match binding {
        Some(b) => b,
        None => {
            return PostureCrossCheckOutcome::Unbound;
        },
    };
    if !str_eq(binding.posture.as_str(), "none") {
        return PostureCrossCheckOutcome::Declared;
    }
    let files = match sbom {
        Some(f) => f,
        None => {
            return PostureCrossCheckOutcome::UnverifiedNoDir;
        },
    };
    match &files.bom {
        Err(e) => PostureCrossCheckOutcome::BomUnreadable { path: files.bom_path.clone(), error: e.clone() },
        Ok(bom) => match first_watchlist_match_in_bom(bom.as_slice()) {
            Some(package) => PostureCrossCheckOutcome::Contradicted { package, posture: binding.posture.clone() },
            None => PostureCrossCheckOutcome::ConsistentNone,
        },
    }
}

/// The finding reported for a cross-check outcome: a contradiction is an
/// error, every other outcome a visible notice.
pub open spec fn posture_finding(o: PostureOutcome) -> Finding {
    match o {
        PostureOutcome::Unbound => Finding::Notice("agentic posture: UNSTATED (no binding)"@),
        PostureOutcome::Declared => Finding::Notice("agentic posture: DECLARED (agency acknowledged)"@),
        PostureOutcome::ConsistentNone => Finding::Notice(
            "agentic posture: none, no watchlisted agent/LLM SDK in the BOM (NOTE: a watchlist miss is not proof of absence of agency)"@,
        ),
        PostureOutcome::Contradicted { package, posture } => Finding::Error(
            "agentic posture `"@ + posture + "` is contradicted by SBOM dependency `"@ + package
                + "`: declare the agentic surface (agentic_posture: declared|governed) or remove the dependency"@,
        ),
        PostureOutcome::UnverifiedNoDir => Finding::Notice(
            "agentic posture: none, PRESENT-BUT-UNVERIFIED (supply --sbom-dir to cross-check against the BOM)"@,
        ),
        PostureOutcome::BomUnreadable { path, error } => Finding::Notice(
            "agentic posture: none, BOM unreadable at "@ + path + ": "@ + error + " (cross-check skipped)"@,
        ),
    }
}

/// Whether the posture binding is present and internally inconsistent (then
/// its inconsistencies are reported and the cross-check is skipped).
pub open spec fn posture_inconsistent(binding: Option<AgenticPostureBinding>) -> bool {
    match binding {
        Some(b) => posture_inconsistencies(b).len() > 0,
        None => false,
    }
}

/// The errors the posture binding adds to a verification result.
pub open spec fn posture_errors(binding: Option<AgenticPostureBinding>, files: Option<SbomFiles>) -> Seq<Seq<char>> {
    if posture_inconsistent(binding) {
        posture_inconsistencies(binding->0)
    } else {
        errors_after(seq![], posture_finding(posture_outcome(binding, files)))
    }
}

/// The notices the posture binding adds to a verification result.
pub open spec fn posture_notices(binding: Option<AgenticPostureBinding>, files: Option<SbomFiles>) -> Seq<Seq<char>> {
    if posture_inconsistent(binding) {
        seq![]
    } else {
        notices_after(seq![], posture_finding(posture_outcome(binding, files)))
    }
}

/// Report the agentic posture binding on `result`: its internal
/// inconsistencies (which, when present, stand alone), else the BOM
/// cross-check's finding.
pub fn append_posture_binding_findings(cert: &GovernanceCertificate, sbom: Option<&SbomFiles>, result: &mut VerificationResult)
    ensures
        final(result).valid == old(result).valid,
        views(final(result).errors@) == views(old(result).errors@) + posture_errors(
            cert.agentic_posture_binding,
            sbom_view(sbom),
        ),
        views(final(result).notices@) == views(old(result).notices@) + posture_notices(
            cert.agentic_posture_binding,
            sbom_view(sbom),
        ),
{
    let ghost errors0 = views(result.errors@);
    let ghost notices0 = views(result.notices@);
    if let Some(binding) = &cert.agentic_posture_binding {
        let inconsistencies = agentic_posture_binding_inconsistencies(binding);
        let had_inconsistency = inconsistencies.len() > 0;
        push_msgs(&mut result.errors, inconsistencies);
        if had_inconsistency {
            assert(views(result.notices@) =~= notices0 + Seq::<Seq<char>>::empty());
            return;
        }
        assert(views(result.errors@) =~= errors0);
    }
    let outcome = adjudicate_agentic_posture(cert.agentic_posture_binding.as_ref(), sbom);
    let (is_error, m) = match outcome {
        PostureCrossCheckOutcome::Unbound => (false, String::from_str("agentic posture: UNSTATED (no binding)")),
        PostureCrossCheckOutcome::Declared => (false, String::from_str("agentic posture: DECLARED (agency acknowledged)")),
        PostureCrossCheckOutcome::ConsistentNone => (
            false,
            String::from_str(
                "agentic posture: none, no watchlisted agent/LLM SDK in the BOM (NOTE: a watchlist miss is not proof of absence of agency)",
            ),
        ),
        PostureCrossCheckOutcome::Contradicted { package, posture } => (
            true,
            concat5(
                "agentic posture `",
                posture.as_str(),
                "` is contradicted by SBOM dependency `",
                package.as_str(),
                "`: declare the agentic surface (agentic_posture: declared|governed) or remove the dependency",
            ),
        ),
        PostureCrossCheckOutcome::UnverifiedNoDir => (
            false,
            String::from_str(
                "agentic posture: none, PRESENT-BUT-UNVERIFIED (supply --sbom-dir to cross-check against the BOM)",
            ),
        ),
        PostureCrossCheckOutcome::BomUnreadable { path, error } => (
            false,
            concat5("agentic posture: none, BOM unreadable at ", path.as_str(), ": ", error.as_str(), " (cross-check skipped)"),
        ),
    };
    record_finding(result, is_error, m);
    proof {
        let f = posture_finding(posture_outcome(cert.agentic_posture_binding, sbom_view(sbom)));
        assert(views(result.errors@) =~= errors0 + errors_after(seq![], f));
        assert(views(result.notices@) =~= notices0 + notices_after(seq![], f));
    }
}

// ── Laws ─────────────────────────────────────────────────────────────

/// Only a `none` posture is falsifiable by the BOM: `declared` and `governed`
/// (and any other level) acknowledge agency, whatever the BOM holds.
pub proof fn law_only_none_is_falsifiable(b: AgenticPostureBinding, files: Option<SbomFiles>)
    requires
        b.posture@ != "none"@,
    ensures
        posture_outcome(Some(b), files) == PostureOutcome::Declared,
{
}

/// An internally inconsistent binding is reported by its inconsistencies
/// alone: the cross-check is skipped, so no reassuring notice contradicts
/// the errors on the same binding.
pub proof fn law_inconsistency_skips_the_crosscheck(b: AgenticPostureBinding, files: Option<SbomFiles>)
    requires
        posture_inconsistencies(b).len() > 0,
    ensures
        posture_errors(Some(b), files) == posture_inconsistencies(b),
        posture_notices(Some(b), files) == Seq::<Seq<char>>::empty(),
{
}

/// Never skip-as-pass: the posture adds an error exactly when the binding is
/// inconsistent or a `none` posture is contradicted by the BOM; every other
/// outcome adds exactly one visible notice.
pub proof fn law_posture_fails_only_on_inconsistency_or_contradiction(
    binding: Option<AgenticPostureBinding>,
    files: Option<SbomFiles>,
)
    ensures
        posture_errors(binding, files).len() > 0 <==> (posture_inconsistent(binding) || posture_outcome(
            binding,
            files,
        ) is Contradicted),
        !posture_inconsistent(binding) && !(posture_outcome(binding, files) is Contradicted) ==> posture_notices(
            binding,
            files,
        ).len() == 1,
{
}

/// The watchlist is ecosystem-scoped: a purl whose type is not the entry's
/// ecosystem (up to ASCII case) never matches, whatever its name.
pub proof fn law_purl_match_gated_on_ecosystem(purl: Seq<char>, name: Seq<char>, ecosystem: Seq<char>)
    requires
        !eq_ignore_ascii_case(purl_type(purl_core(purl)), ecosystem),
    ensures
        !purl_names_package(purl, name, ecosystem),
{
}

/// A purl match is anchored on the whole package-name segment: a match means
/// the segment equals the name exactly, so a scoped `@scope/x` never matches
/// a bare `x`.
pub proof fn law_purl_match_anchored_on_name(purl: Seq<char>, name: Seq<char>, ecosystem: Seq<char>)
    requires
        purl_names_package(purl, name, ecosystem),
    ensures
        purl_package_name(purl_coord(purl_core(purl))) == name,
{
}

/// A governance envelope must be an object: every other JSON value is
/// rejected by the shape check.
pub proof fn law_envelope_must_be_object(env: JsonValue)
    requires
        !(env is Object),
    ensures
        envelope_shape(env) is Err,
{
}

/// `env` is an object with a member keyed `key` whose value satisfies `f`.
pub open spec fn has_member_where(env: JsonValue, key: Seq<char>, f: spec_fn(JsonValue) -> bool) -> bool {
    match env {
        JsonValue::Object(ms) => exists|j: int| 0 <= j < ms@.len() && ms@[j].0@ == key && f(#[trigger] ms@[j].1),
        _ => false,
    }
}

proof fn lemma_scan_marks(ms: Seq<(String, JsonValue)>, seen: Seq<bool>, out: Seq<bool>)
    requires
        seen.len() == 7,
        scan_envelope(ms, seen) == Ok::<Seq<bool>, Seq<char>>(out),
    ensures
        out.len() == 7,
        forall|i: int|
            0 <= i < 7 && #[trigger] out[i] ==> seen[i] || exists|j: int|
                0 <= j < ms.len() && envelope_slot(ms[j].0@) == i && envelope_kind_ok(i, #[trigger] ms[j].1),
    decreases ms.len(),
{
    if ms.len() > 0 {
        let r = ms.drop_first();
        let i0 = envelope_slot(ms[0].0@);
        let next = if i0 < 0 { seen } else { seen.update(i0, true) };
        lemma_scan_marks(r, next, out);
        assert forall|i: int|
            0 <= i < 7 && #[trigger] out[i] implies seen[i] || exists|j: int|
                0 <= j < ms.len() && envelope_slot(ms[j].0@) == i && envelope_kind_ok(i, #[trigger] ms[j].1) by {
            if !seen[i] {
                if i0 == i {
                    assert(envelope_slot(ms[0].0@) == i && envelope_kind_ok(i, ms[0].1));
                } else {
                    assert(!next[i]);
                    let j = choose|j: int|
                        0 <= j < r.len() && envelope_slot(r[j].0@) == i && envelope_kind_ok(i, #[trigger] r[j].1);
                    assert(r[j] == ms[j + 1]);
                    assert(envelope_slot(ms[j + 1].0@) == i && envelope_kind_ok(i, ms[j + 1].1));
                }
            }
        }
    }
}

spec fn section_present(ms: Seq<(String, JsonValue)>, i: int) -> bool {
    exists|j: int| 0 <= j < ms.len() && ms[j].0@ == envelope_field(i) && envelope_kind_ok(i, #[trigger] ms[j].1)
}

proof fn lemma_none_missing(seen: Seq<bool>, k: int)
    requires
        0 <= k <= 7,
        first_missing(seen, k) is None,
    ensures
        forall|i: int| k <= i < 7 ==> #[trigger] seen[i],
    decreases 7 - k,
{
    if k < 7 {
        lemma_none_missing(seen, k + 1);
    }
}

/// A governance envelope passes the shape check only when it is an object
/// carrying all seven sections, each of its kind: `schema_version` a
/// string, `gates` and `emits` arrays, and `process`, `ceilings`,
/// `constituents` and `overrides` objects. An envelope missing any section
/// is refused.
pub proof fn law_envelope_needs_every_section(env: JsonValue)
    requires
        envelope_shape(env) is Ok,
    ensures
        env is Object,
        has_member_where(env, "schema_version"@, |v: JsonValue| v is Str),
        has_member_where(env, "process"@, |v: JsonValue| v is Object),
        has_member_where(env, "ceilings"@, |v: JsonValue| v is Object),
        has_member_where(env, "gates"@, |v: JsonValue| v is Array),
        has_member_where(env, "emits"@, |v: JsonValue| v is Array),
        has_member_where(env, "constituents"@, |v: JsonValue| v is Object),
        has_member_where(env, "overrides"@, |v: JsonValue| v is Object),
{
    match env {
        JsonValue::Object(ms) => {
            let seen0 = seq![false, false, false, false, false, false, false];
            let out = scan_envelope(ms@, seen0)->Ok_0;
            lemma_scan_marks(ms@, seen0, out);
            lemma_none_missing(out, 0);
            assert forall|i: int| 0 <= i < 7 implies #[trigger] section_present(ms@, i) by {
                assert(out[i]);
                assert(!seen0[i]);
                let j = choose|j: int|
                    0 <= j < ms@.len() && envelope_slot(ms@[j].0@) == i && envelope_kind_ok(i, #[trigger] ms@[j].1);
                assert(ms@[j].0@ == envelope_field(i));
            }
            assert(section_present(ms@, 0));
            assert(section_present(ms@, 1));
            assert(section_present(ms@, 2));
            assert(section_present(ms@, 3));
            assert(section_present(ms@, 4));
            assert(section_present(ms@, 5));
            assert(section_present(ms@, 6));
        },
        _ => {},
    }
}

/// `env` is an object with exactly one member keyed `key`, and its value
/// satisfies `f`.
pub open spec fn has_one_member_where(env: JsonValue, key: Seq<char>, f: spec_fn(JsonValue) -> bool) -> bool {
    match env {
        JsonValue::Object(ms) => exists|j: int|
            0 <= j < ms@.len() && ms@[j].0@ == key && f(#[trigger] ms@[j].1) && forall|k: int|
                0 <= k < ms@.len() && k != j ==> (#[trigger] ms@[k]).0@ != key,
        _ => false,
    }
}

proof fn lemma_section_names()
    ensures
        forall|i: int, k: int| 0 <= i < 7 && 0 <= k < 7 && i != k ==> envelope_field(i) != envelope_field(k),
        forall|i: int| 0 <= i < 7 ==> envelope_slot(#[trigger] envelope_field(i)) == i,
{
    reveal_strlit("schema_version");
    reveal_strlit("process");
    reveal_strlit("ceilings");
    reveal_strlit("gates");
    reveal_strlit("emits");
    reveal_strlit("constituents");
    reveal_strlit("overrides");
    assert("gates"@[0] != "emits"@[0]);
    assert forall|i: int, k: int| 0 <= i < 7 && 0 <= k < 7 && i != k implies envelope_field(i) != envelope_field(k) by {
        if envelope_field(i) == envelope_field(k) {
            assert(envelope_field(i).len() == envelope_field(k).len());
            assert(envelope_field(i)[0] == envelope_field(k)[0]);
        }
    }
}

proof fn lemma_scan_passes(ms: Seq<(String, JsonValue)>, seen: Seq<bool>)
    requires
        seen.len() == 7,
        forall|j: int| 0 <= j < ms.len() && 0 <= #[trigger] envelope_slot(ms[j].0@) ==> {
            let i = envelope_slot(ms[j].0@);
            &&& !seen[i]
            &&& envelope_kind_ok(i, ms[j].1)
            &&& forall|k: int| 0 <= k < ms.len() && k != j ==> envelope_slot((#[trigger] ms[k]).0@) != i
        },
    ensures
        scan_envelope(ms, seen) is Ok,
        forall|i: int|
            0 <= i < 7 ==> (#[trigger] scan_envelope(ms, seen)->Ok_0[i] == (seen[i] || exists|j: int|
                0 <= j < ms.len() && envelope_slot(ms[j].0@) == i)),
        scan_envelope(ms, seen)->Ok_0.len() == 7,
    decreases ms.len(),
{
    if ms.len() > 0 {
        let r = ms.drop_first();
        let i0 = envelope_slot(ms[0].0@);
        let next = if i0 < 0 { seen } else { seen.update(i0, true) };
        assert forall|j: int| 0 <= j < r.len() && 0 <= #[trigger] envelope_slot(r[j].0@) implies {
            let i = envelope_slot(r[j].0@);
            &&& !next[i]
            &&& envelope_kind_ok(i, r[j].1)
            &&& forall|k: int| 0 <= k < r.len() && k != j ==> envelope_slot((#[trigger] r[k]).0@) != i
        } by {
            assert(r[j] == ms[j + 1]);
            assert(0 <= envelope_slot(ms[j + 1].0@));
            let i = envelope_slot(r[j].0@);
            if i == i0 {
                assert(envelope_slot(ms[0].0@) != i);
            }
            assert forall|k: int| 0 <= k < r.len() && k != j implies envelope_slot((#[trigger] r[k]).0@) != i by {
                assert(r[k] == ms[k + 1]);
            }
        }
        lemma_scan_passes(r, next);
        let out = scan_envelope(ms, seen)->Ok_0;
        assert forall|i: int| 0 <= i < 7 implies (#[trigger] out[i] == (seen[i] || exists|j: int|
            0 <= j < ms.len() && envelope_slot(ms[j].0@) == i)) by {
            if exists|j: int| 0 <= j < r.len() && envelope_slot(r[j].0@) == i {
                let j = choose|j: int| 0 <= j < r.len() && envelope_slot(r[j].0@) == i;
                assert(r[j] == ms[j + 1]);
            }
            if exists|j: int| 0 <= j < ms.len() && envelope_slot(ms[j].0@) == i {
                let j = choose|j: int| 0 <= j < ms.len() && envelope_slot(ms[j].0@) == i;
                if j > 0 {
                    assert(r[j - 1] == ms[j]);
                }
            }
        }
    }
}

spec fn section_once(m: Seq<(String, JsonValue)>, i: int) -> bool {
    exists|j: int|
        0 <= j < m.len() && m[j].0@ == envelope_field(i) && envelope_kind_ok(i, #[trigger] m[j].1) && forall|k: int|
            0 <= k < m.len() && k != j ==> (#[trigger] m[k]).0@ != envelope_field(i)
}

proof fn lemma_all_present(seen: Seq<bool>, k: int)
    requires
        0 <= k <= 7,
        forall|i: int| 0 <= i < 7 ==> #[trigger] seen[i],
    ensures
        first_missing(seen, k) is None,
    decreases 7 - k,
{
    if k < 7 {
        lemma_all_present(seen, k + 1);
    }
}

/// An object carrying each of the seven sections exactly once, each of its
/// kind (`schema_version` a string, `gates` and `emits` arrays, the others
/// objects), passes the shape check, whatever other keys it has.
pub proof fn law_complete_envelope_passes(env: JsonValue)
    requires
        has_one_member_where(env, "schema_version"@, |v: JsonValue| v is Str),
        has_one_member_where(env, "process"@, |v: JsonValue| v is Object),
        has_one_member_where(env, "ceilings"@, |v: JsonValue| v is Object),
        has_one_member_where(env, "gates"@, |v: JsonValue| v is Array),
        has_one_member_where(env, "emits"@, |v: JsonValue| v is Array),
        has_one_member_where(env, "constituents"@, |v: JsonValue| v is Object),
        has_one_member_where(env, "overrides"@, |v: JsonValue| v is Object),
    ensures
        envelope_shape(env) == Ok::<(), Seq<char>>(()),
{
    lemma_section_names();
    match env {
        JsonValue::Object(ms) => {
            let m = ms@;
            let seen0 = seq![false, false, false, false, false, false, false];
            assert(section_once(m, 0));
            assert(section_once(m, 1));
            assert(section_once(m, 2));
            assert(section_once(m, 3));
            assert(section_once(m, 4));
            assert(section_once(m, 5));
            assert(section_once(m, 6));
            assert forall|j: int| 0 <= j < m.len() && 0 <= #[trigger] envelope_slot(m[j].0@) implies {
                let i = envelope_slot(m[j].0@);
                &&& !seen0[i]
                &&& envelope_kind_ok(i, m[j].1)
                &&& forall|k: int| 0 <= k < m.len() && k != j ==> envelope_slot((#[trigger] m[k]).0@) != i
            } by {
                let i = envelope_slot(m[j].0@);
                assert(m[j].0@ == envelope_field(i));
                assert(section_once(m, i));
                let j0 = choose|j0: int|
                    0 <= j0 < m.len() && m[j0].0@ == envelope_field(i) && envelope_kind_ok(i, #[trigger] m[j0].1)
                        && forall|k: int| 0 <= k < m.len() && k != j0 ==> (#[trigger] m[k]).0@ != envelope_field(i);
                if j != j0 {
                    assert(m[j].0@ != envelope_field(i));
                }
                assert forall|k: int| 0 <= k < m.len() && k != j implies envelope_slot((#[trigger] m[k]).0@) != i by {
                    if envelope_slot(m[k].0@) == i {
                        assert(m[k].0@ == envelope_field(i));
                    }
                }
            }
            lemma_scan_passes(m, seen0);
            let out = scan_envelope(m, seen0)->Ok_0;
            assert forall|i: int| 0 <= i < 7 implies #[trigger] out[i] by {
                assert(section_once(m, i));
                let j0 = choose|j0: int|
                    0 <= j0 < m.len() && m[j0].0@ == envelope_field(i) && envelope_kind_ok(i, #[trigger] m[j0].1)
                        && forall|k: int| 0 <= k < m.len() && k != j0 ==> (#[trigger] m[k]).0@ != envelope_field(i);
                assert(envelope_slot(m[j0].0@) == i);
            }
            lemma_all_present(out, 0);
        },
        _ => {},
    }
}

} // verus!
