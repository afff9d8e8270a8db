//! Citation verification and entity search over the extraction corpus.
//!
//! A citation names a corpus source, a 1-based inclusive line range and the
//! hash of the quote it declares; it verifies when the hash of the text
//! actually at that range (whitespace-normalised) equals the declared hash.
//! Entity search finds case-insensitive whole-word occurrences of a surface
//! form, line by line, with document-global line numbers that round-trip as
//! citations.

use crate::corpus::{key_index, keys_distinct, Corpus, CorpusEntry};
use crate::knowledge::{
    join_line_range, join_lines, lemma_split_lines_join, lemma_split_lines_nonempty, lines_of, quote_hash, quote_hash_of, split_lines,
    Citation, ExtractionOutput, ExtractionPage, QuoteHash,
};
use crate::source_path::{comps_lt, lemma_comps_lt_total, lemma_comps_lt_trans, path_components, path_less, path_lt};
use crate::text::{chars_of, str_eq, views};
use vstd::multiset::Multiset;
use vstd::prelude::*;

verus! {

// ── Character classes and case ───────────────────────────────────────

/// Whether `c` is alphabetic or numeric in the Unicode sense, as
/// `char::is_alphanumeric` decides.
pub uninterp spec fn char_is_alphanumeric(c: char) -> bool;

/// The Unicode lowercase mapping of a string, as `str::to_lowercase`
/// computes it.
pub uninterp spec fn str_to_lowercase(s: Seq<char>) -> Seq<char>;

/// `char::is_alphanumeric`; trusted to return [`char_is_alphanumeric`].
#[verifier::external_body]
fn is_alphanumeric(c: char) -> (res: bool)
    ensures
        res == char_is_alphanumeric(c),
{
    c.is_alphanumeric()
}

/// `str::to_lowercase`; trusted to return [`str_to_lowercase`].
#[verifier::external_body]
fn lowercase(s: &str) -> (res: String)
    ensures
        res@ == str_to_lowercase(s@),
{
    s.to_lowercase()
}

// ── Whole-word matching ──────────────────────────────────────────────

/// `n` occurs in `h` at position `i`.
pub open spec fn occurs_at(h: Seq<char>, n: Seq<char>, i: int) -> bool {
    0 <= i && i + n.len() <= h.len() && h.subrange(i, i + n.len()) == n
}

/// The occurrence of length `len` at `i` is a whole word: the characters
/// next to it (if any) are not alphanumeric.
pub open spec fn word_bounded(h: Seq<char>, i: int, len: int) -> bool {
    (i == 0 || !char_is_alphanumeric(h[i - 1])) && (i + len == h.len() || !char_is_alphanumeric(h[i + len]))
}

/// Whole-word containment: `needle` is non-empty and occurs in `haystack` at
/// some position where it is bounded on each side by a non-alphanumeric
/// character or an end, so `erp` is not found in `enterprise`.
pub open spec fn has_word(haystack: Seq<char>, needle: Seq<char>) -> bool {
    needle.len() > 0 && exists|i: int| #[trigger] occurs_at(haystack, needle, i) && word_bounded(
        haystack,
        i,
        needle.len() as int,
    )
}

fn occurs_at_exec(h: &Vec<char>, n: &Vec<char>, i: usize) -> (res: bool)
    requires
        i + n@.len() <= h@.len(),
    ensures
        res == occurs_at(h@, n@, i as int),
{
    let m = n.len();
    let hl = h.len();
    let mut j: usize = 0;
    while j < m
        invariant
            m == n@.len(),
            hl == h@.len(),
            i + m <= hl,
            j <= m,
            forall|q: int| 0 <= q < j ==> h@[i + q] == n@[q],
        decreases m - j,
    {
        if h[i + j] != n[j] {
            assert(h@.subrange(i as int, i + m)[j as int] != n@[j as int]);
            return false;
        }
        j = j + 1;
    }
    assert(h@.subrange(i as int, i + m) =~= n@);
    true
}

/// Case-sensitive whole-word containment of `needle` in `haystack` (callers
/// lowercase both for a case-insensitive match).
pub fn contains_word(haystack: &str, needle: &str) -> (res: bool)
    ensures
        res == has_word(haystack@, needle@),
{
    let h = chars_of(haystack);
    let n = chars_of(needle);
    let hl = h.len();
    let nl = n.len();
    if nl == 0 {
        return false;
    }
    let mut i: usize = 0;
    while i <= hl && nl <= hl - i
        invariant
            h@ == haystack@,
            n@ == needle@,
            hl == h@.len(),
            nl == n@.len(),
            nl > 0,
            i <= hl + 1,
            forall|q: int| 0 <= q < i ==> !(#[trigger] occurs_at(haystack@, needle@, q) && word_bounded(
                haystack@,
                q,
                nl as int,
            )),
        decreases hl + 1 - i,
    {
        if occurs_at_exec(&h, &n, i) {
            let before_ok = i == 0 || !is_alphanumeric(h[i - 1]);
            let after_ok = i + nl == hl || !is_alphanumeric(h[i + nl]);
            if before_ok && after_ok {
                return true;
            }
        }
        i = i + 1;
    }
    assert forall|q: int| !(#[trigger] occurs_at(haystack@, needle@, q) && word_bounded(
        haystack@,
        q,
        nl as int,
    )) by {
        if 0 <= q && q + nl <= hl {
            assert(q < i);
        }
    }
    false
}

/// Whether `span` names `entity` as a whole word, ignoring case.
pub fn span_covers_entity(span: &str, entity: &str) -> (res: bool)
    ensures
        res == has_word(str_to_lowercase(span@), str_to_lowercase(entity@)),
{
    let s = lowercase(span);
    let e = lowercase(entity);
    contains_word(s.as_str(), e.as_str())
}

// ── Citation verification ────────────────────────────────────────────

/// The result of verifying one citation against the corpus.
#[derive(Debug, PartialEq)]
pub enum CitationResult {
    /// The text at the range hashes to the declared quote hash.
    Matched,
    /// The source and range resolve, but the text there hashes differently:
    /// a stale or forged citation.
    HashMismatch { expected: QuoteHash, actual: QuoteHash },
    /// The range is not a 1-based inclusive range within the source's lines.
    LineRangeOutOfBounds { source: String, declared_range: (u32, u32), actual_line_count: u32 },
    /// No corpus entry has the cited source key.
    SourceNotFound,
}

/// The abstract citation verdict.
pub ghost enum CitationVerdict {
    Matched,
    HashMismatch { expected: Seq<char>, actual: Seq<char> },
    LineRangeOutOfBounds { source: Seq<char>, declared_range: (u32, u32), actual_line_count: u32 },
    SourceNotFound,
}

impl View for CitationResult {
    type V = CitationVerdict;

    open spec fn view(&self) -> CitationVerdict {
        match self {
            CitationResult::Matched => CitationVerdict::Matched,
            CitationResult::HashMismatch { expected, actual } => CitationVerdict::HashMismatch {
                expected: expected.0@,
                actual: actual.0@,
            },
            CitationResult::LineRangeOutOfBounds { source, declared_range, actual_line_count } =>
                CitationVerdict::LineRangeOutOfBounds {
                source: source@,
                declared_range: *declared_range,
                actual_line_count: *actual_line_count,
            },
            CitationResult::SourceNotFound => CitationVerdict::SourceNotFound,
        }
    }
}

/// The number of lines of `text`, as a `u32` (wrapping, as the line count is
/// recorded).
pub open spec fn line_count(text: Seq<char>) -> u32 {
    split_lines(text).len() as u32
}

/// `(start, end)` is a 1-based inclusive range within `count` lines.
pub open spec fn range_in_bounds(start: u32, end: u32, count: u32) -> bool {
    !(start == 0 || end == 0 || start > end || end > count)
}

/// Lines `start..=end` (1-based) of `text`, joined with `\n`.
pub open spec fn line_span(text: Seq<char>, start: u32, end: u32) -> Seq<char> {
    join_lines(split_lines(text).subrange(start - 1, end as int))
}

/// The verdict on citation `c` against the corpus entries `es`.
pub open spec fn citation_verdict(es: Seq<CorpusEntry>, c: Citation) -> CitationVerdict {
    let k = key_index(es, c.source@);
    if k < 0 {
        CitationVerdict::SourceNotFound
    } else {
        let text = es[k].output.text@;
        let (start, end) = c.line_range;
        if !range_in_bounds(start, end, line_count(text)) {
            CitationVerdict::LineRangeOutOfBounds {
                source: c.source@,
                declared_range: (start, end),
                actual_line_count: line_count(text),
            }
        } else {
            let actual = quote_hash_of(line_span(text, start, end));
            if actual == c.quote_hash.0@ {
                CitationVerdict::Matched
            } else {
                CitationVerdict::HashMismatch { expected: c.quote_hash.0@, actual }
            }
        }
    }
}

/// The text a citation actually points at (`None` when its source or range
/// does not resolve), independent of the quote it declares.
pub open spec fn cited_span(es: Seq<CorpusEntry>, c: Citation) -> Option<Seq<char>> {
    let k = key_index(es, c.source@);
    if k < 0 {
        None
    } else {
        let text = es[k].output.text@;
        if range_in_bounds(c.line_range.0, c.line_range.1, line_count(text)) {
            Some(line_span(text, c.line_range.0, c.line_range.1))
        } else {
            None
        }
    }
}

fn count_lines(lines: &Vec<String>) -> (res: u32)
    ensures
        res == lines@.len() as u32,
{
    #[verifier::truncate]
    (lines.len() as u32)
}

/// Verify a citation: its source must be in the corpus, its range within the
/// source's lines, and the text there must hash to the declared quote hash.
pub fn verify_citation(corpus: &Corpus, citation: &Citation) -> (res: CitationResult)
    ensures
        res@ == citation_verdict(corpus.entry_seq(), *citation),
{
    let entry = match corpus.get(citation.source.as_str()) {
        Some(e) => e,
        None => {
            return CitationResult::SourceNotFound;
        },
    };
    let (start, end) = citation.line_range;
    let lines = lines_of(entry.output.text.as_str());
    let count = count_lines(&lines);
    assert(views(lines@).len() == lines@.len());
    if start == 0 || end == 0 || start > end || end > count {
        return CitationResult::LineRangeOutOfBounds {
            source: citation.source.clone(),
            declared_range: (start, end),
            actual_line_count: count,
        };
    }
    proof {
        lemma_split_lines_nonempty(entry.output.text@);
    }
    let quote = join_line_range(&lines, (start - 1) as usize, end as usize);
    let actual = quote_hash(quote.as_str());
    if str_eq(actual.0.as_str(), citation.quote_hash.0.as_str()) {
        CitationResult::Matched
    } else {
        CitationResult::HashMismatch { expected: QuoteHash(citation.quote_hash.0.clone()), actual }
    }
}

/// The text a citation points at, read from the corpus (not the quote it
/// declares), or `None` when its source or range does not resolve.
pub fn cited_span_text(corpus: &Corpus, citation: &Citation) -> (res: Option<String>)
    ensures
        match res {
            Some(s) => cited_span(corpus.entry_seq(), *citation) == Some(s@),
            None => cited_span(corpus.entry_seq(), *citation) is None,
        },
{
    let entry = match corpus.get(citation.source.as_str()) {
        Some(e) => e,
        None => {
            return None;
        },
    };
    let (start, end) = citation.line_range;
    let lines = lines_of(entry.output.text.as_str());
    let count = count_lines(&lines);
    assert(views(lines@).len() == lines@.len());
    if start == 0 || end == 0 || start > end || end > count {
        return None;
    }
    Some(join_line_range(&lines, (start - 1) as usize, end as usize))
}


// ── Entity search ────────────────────────────────────────────────────

/// The most hits kept per source (the hit count stays the true total).
pub const MAX_HITS_PER_SOURCE: usize = 100;

/// One whole-word hit: the (single-line, 1-based) range and that line.
#[derive(Debug, PartialEq)]
pub struct CitationHit {
    pub line_range: (u32, u32),
    pub quote: String,
}

/// The hits of an entity in one source.
#[derive(Debug, PartialEq)]
pub struct EntitySearchSummary {
    pub source: String,
    pub pages_searched: u32,
    pub hit_count: u32,
    pub hits: Vec<CitationHit>,
}

/// The abstract per-source summary.
pub ghost struct SummaryView {
    pub source: Seq<char>,
    pub pages_searched: u32,
    pub hit_count: u32,
    pub hits: Seq<((u32, u32), Seq<char>)>,
}

/// The view of a hit.
pub open spec fn hit_view(h: CitationHit) -> ((u32, u32), Seq<char>) {
    (h.line_range, h.quote@)
}

impl View for EntitySearchSummary {
    type V = SummaryView;

    open spec fn view(&self) -> SummaryView {
        SummaryView {
            source: self.source@,
            pages_searched: self.pages_searched,
            hit_count: self.hit_count,
            hits: self.hits@.map_values(|h: CitationHit| hit_view(h)),
        }
    }
}

/// The views of a list of summaries.
pub open spec fn summary_views(v: Seq<EntitySearchSummary>) -> Seq<SummaryView> {
    v.map_values(|s: EntitySearchSummary| s@)
}

/// The lines of a paginated extraction: each page's lines, page after page.
pub open spec fn pages_lines(ps: Seq<ExtractionPage>) -> Seq<Seq<char>>
    decreases ps.len(),
{
    if ps.len() == 0 {
        seq![]
    } else {
        pages_lines(ps.drop_last()) + split_lines(ps.last().text@)
    }
}

/// The lines searched in an extraction: its pages' lines when it is
/// paginated (never both, so no hit is counted twice), else its text's.
pub open spec fn entry_lines(o: ExtractionOutput) -> Seq<Seq<char>> {
    match o.pages {
        Some(ps) => pages_lines(ps@),
        None => split_lines(o.text@),
    }
}

/// The number of pages searched (`1` for an unpaginated extraction).
pub open spec fn pages_searched_of(o: ExtractionOutput) -> u32 {
    match o.pages {
        Some(ps) => ps@.len() as u32,
        None => 1,
    }
}

/// The hits of `needle` (already lowercased) in `lines`: each line whose
/// lowercase form contains it as a whole word, with its document-global line
/// number.
pub open spec fn line_hits(lines: Seq<Seq<char>>, needle: Seq<char>) -> Seq<((u32, u32), Seq<char>)>
    decreases lines.len(),
{
    if lines.len() == 0 {
        seq![]
    } else {
        let p = line_hits(lines.drop_last(), needle);
        if has_word(str_to_lowercase(lines.last()), needle) {
            p.push(((lines.len() as u32, lines.len() as u32), lines.last()))
        } else {
            p
        }
    }
}

/// The summary of one entry: its hit count and its first hits, up to
/// [`MAX_HITS_PER_SOURCE`].
pub open spec fn entry_summary(e: CorpusEntry, needle: Seq<char>) -> SummaryView {
    let hs = line_hits(entry_lines(e.output), needle);
    SummaryView {
        source: e.source_key@,
        pages_searched: pages_searched_of(e.output),
        hit_count: hs.len() as u32,
        hits: if hs.len() <= MAX_HITS_PER_SOURCE {
            hs
        } else {
            hs.take(MAX_HITS_PER_SOURCE as int)
        },
    }
}

/// The summaries of the entries with at least one hit, in corpus order.
pub open spec fn search_summaries(es: Seq<CorpusEntry>, needle: Seq<char>) -> Seq<SummaryView>
    decreases es.len(),
{
    if es.len() == 0 {
        seq![]
    } else {
        let p = search_summaries(es.drop_last(), needle);
        if line_hits(entry_lines(es.last().output), needle).len() > 0 {
            p.push(entry_summary(es.last(), needle))
        } else {
            p
        }
    }
}

/// Source `a` is ordered before source `b` of the corpus `es`: by path,
/// component by component, and among sources that name the same path, by
/// their place in the corpus.
pub open spec fn source_before(es: Seq<CorpusEntry>, a: Seq<char>, b: Seq<char>) -> bool {
    path_lt(a, b) || (path_components(a) == path_components(b) && key_index(es, a) < key_index(es, b))
}

/// Summaries strictly ordered by source.
pub open spec fn sorted_by_source(es: Seq<CorpusEntry>, v: Seq<SummaryView>) -> bool {
    forall|i: int, j: int| 0 <= i < j < v.len() ==> source_before(es, v[i].source, v[j].source)
}

/// Every entry has at most `u32::MAX` searched lines (so line numbers fit).
pub open spec fn line_numbers_fit(es: Seq<CorpusEntry>) -> bool {
    forall|k: int| 0 <= k < es.len() ==> #[trigger] entry_lines(es[k].output).len() <= u32::MAX
}

/// The hits kept of `hs`: at most [`MAX_HITS_PER_SOURCE`], the first ones.
pub open spec fn kept_hits(hs: Seq<((u32, u32), Seq<char>)>) -> Seq<((u32, u32), Seq<char>)> {
    if hs.len() <= MAX_HITS_PER_SOURCE {
        hs
    } else {
        hs.take(MAX_HITS_PER_SOURCE as int)
    }
}

proof fn lemma_line_hits_len(lines: Seq<Seq<char>>, needle: Seq<char>)
    ensures
        line_hits(lines, needle).len() <= lines.len(),
    decreases lines.len(),
{
    if lines.len() > 0 {
        lemma_line_hits_len(lines.drop_last(), needle);
    }
}

fn output_lines(o: &ExtractionOutput) -> (res: Vec<String>)
    ensures
        views(res@) == entry_lines(*o),
{
    match &o.pages {
        Some(ps) => {
            let mut all: Vec<String> = Vec::new();
            let n = ps.len();
            let mut i: usize = 0;
            while i < n
                invariant
                    n == ps@.len(),
                    i <= n,
                    views(all@) == pages_lines(ps@.take(i as int)),
                decreases n - i,
            {
                let ls = lines_of(ps[i].text.as_str());
                crate::text::push_msgs(&mut all, ls);
                let ghost t = ps@.take(i + 1);
                assert(t.drop_last() =~= ps@.take(i as int));
                assert(t.last() == ps@[i as int]);
                i = i + 1;
            }
            assert(ps@.take(n as int) =~= ps@);
            all
        },
        None => lines_of(o.text.as_str()),
    }
}

fn pages_count(o: &ExtractionOutput) -> (res: u32)
    ensures
        res == pages_searched_of(*o),
{
    match &o.pages {
        Some(ps) => {
            #[verifier::truncate]
            (ps.len() as u32)
        },
        None => 1,
    }
}

fn summarize(e: &CorpusEntry, needle: &str) -> (res: EntitySearchSummary)
    requires
        entry_lines(e.output).len() <= u32::MAX,
    ensures
        res@ == entry_summary(*e, needle@),
{
    let lines = output_lines(&e.output);
    let ghost all = views(lines@);
    let pages_searched = pages_count(&e.output);
    let mut hits: Vec<CitationHit> = Vec::new();
    let mut hit_count: u32 = 0;
    let mut global_line: u32 = 0;
    let n = lines.len();
    assert(all.len() == n);
    let mut j: usize = 0;
    while j < n
        invariant
            n == lines@.len(),
            all == views(lines@),
            n <= u32::MAX,
            j <= n,
            global_line == j,
            hit_count == line_hits(all.take(j as int), needle@).len(),
            hit_count <= j,
            hits@.map_values(|h: CitationHit| hit_view(h)) == kept_hits(line_hits(all.take(j as int), needle@)),
            hits@.len() <= MAX_HITS_PER_SOURCE,
            hits@.len() == if hit_count <= MAX_HITS_PER_SOURCE { hit_count as int } else { MAX_HITS_PER_SOURCE as int },
        decreases n - j,
    {
        let line = &lines[j];
        global_line = global_line + 1;
        let lower = lowercase(line.as_str());
        let ghost t = all.take(j + 1);
        let ghost before = line_hits(all.take(j as int), needle@);
        assert(t.drop_last() =~= all.take(j as int));
        assert(t.last() == line@);
        assert(t.len() == j + 1);
        if contains_word(lower.as_str(), needle) {
            let ghost h = ((global_line, global_line), line@);
            assert(line_hits(t, needle@) == before.push(h));
            hit_count = hit_count + 1;
            if hits.len() < MAX_HITS_PER_SOURCE {
                hits.push(CitationHit { line_range: (global_line, global_line), quote: line.clone() });
                assert(hits@.map_values(|x: CitationHit| hit_view(x)) =~= kept_hits(before.push(h)));
            } else {
                assert(kept_hits(before.push(h)) =~= kept_hits(before));
            }
        }
        j = j + 1;
    }
    assert(all.take(n as int) =~= all);
    let res = EntitySearchSummary { source: e.source_key.clone(), pages_searched, hit_count, hits };
    assert(res@.hits =~= entry_summary(*e, needle@).hits);
    res
}

fn insert_by_source(out: &mut Vec<EntitySearchSummary>, x: EntitySearchSummary, Ghost(es): Ghost<Seq<CorpusEntry>>)
    requires
        sorted_by_source(es, summary_views(old(out)@)),
        forall|j: int| 0 <= j < old(out)@.len() ==> key_index(es, #[trigger] old(out)@[j].source@) < key_index(es, x.source@),
    ensures
        sorted_by_source(es, summary_views(final(out)@)),
        summary_views(final(out)@).to_multiset() == summary_views(old(out)@).to_multiset().insert(x@),
{
    let n = out.len();
    let mut p: usize = 0;
    while p < n && !path_less(x.source.as_str(), out[p].source.as_str())
        invariant
            n == out@.len(),
            p <= n,
            forall|j: int| 0 <= j < p ==> !path_lt(x.source@, #[trigger] out@[j].source@),
        decreases n - p,
    {
        p = p + 1;
    }
    let ghost old_views = summary_views(out@);
    let ghost xs = x.source@;
    proof {
        assert forall|j: int| 0 <= j < p implies source_before(es, #[trigger] old_views[j].source, xs) by {
            lemma_comps_lt_total(path_components(xs), path_components(old_views[j].source));
        }
        if p < n {
            assert forall|j: int| p <= j < n implies source_before(es, xs, #[trigger] old_views[j].source) by {
                if j > p {
                    let (cx, cp, cj) = (
                        path_components(xs),
                        path_components(old_views[p as int].source),
                        path_components(old_views[j].source),
                    );
                    assert(source_before(es, old_views[p as int].source, old_views[j].source));
                    if comps_lt(cp, cj) {
                        lemma_comps_lt_trans(cx, cp, cj);
                    }
                }
            }
        }
    }
    let ghost xv = x@;
    out.insert(p, x);
    proof {
        assert(summary_views(out@) =~= old_views.insert(p as int, xv));
        vstd::seq_lib::to_multiset_insert(old_views, p as int, xv);
        let v = summary_views(out@);
        assert forall|i: int, j: int| 0 <= i < j < v.len() implies source_before(es, v[i].source, v[j].source) by {
            if i < p && j < p {
                assert(source_before(es, old_views[i].source, old_views[j].source));
            } else if i < p && j > p {
                assert(source_before(es, old_views[i].source, old_views[j - 1].source));
                assert(source_before(es, old_views[i].source, xs));
                assert(source_before(es, xs, old_views[j - 1].source));
                lemma_source_before_trans(es, old_views[i].source, xs, old_views[j - 1].source);
            } else if i > p && j > p {
                assert(source_before(es, old_views[i - 1].source, old_views[j - 1].source));
            }
        }
    }
}

proof fn lemma_source_before_trans(es: Seq<CorpusEntry>, a: Seq<char>, b: Seq<char>, c: Seq<char>)
    requires
        source_before(es, a, b),
        source_before(es, b, c),
    ensures
        source_before(es, a, c),
{
    let (ca, cb, cc) = (path_components(a), path_components(b), path_components(c));
    if path_lt(a, b) && path_lt(b, c) {
        lemma_comps_lt_trans(ca, cb, cc);
    }
}

proof fn lemma_summary_sources(es: Seq<CorpusEntry>, needle: Seq<char>, v: SummaryView)
    requires
        search_summaries(es, needle).contains(v),
    ensures
        key_index(es, v.source) >= 0,
    decreases es.len(),
{
    let p = search_summaries(es.drop_last(), needle);
    if p.contains(v) {
        lemma_summary_sources(es.drop_last(), needle, v);
    } else {
        assert(v == entry_summary(es.last(), needle));
    }
}

/// Search every corpus entry for case-insensitive whole-word occurrences of
/// `entity_text`, line by line: the pages of a paginated extraction, else its
/// text. One summary per source with at least one hit, ordered by source;
/// line numbers are document-global, so each hit re-resolves as a citation.
/// An entity that lowercases to nothing finds nothing.
pub fn search_entity(corpus: &Corpus, entity_text: &str) -> (res: Vec<EntitySearchSummary>)
    requires
        line_numbers_fit(corpus.entry_seq()),
    ensures
        str_to_lowercase(entity_text@).len() == 0 ==> res@.len() == 0,
        str_to_lowercase(entity_text@).len() > 0 ==> {
            &&& sorted_by_source(corpus.entry_seq(), summary_views(res@))
            &&& summary_views(res@).to_multiset() == search_summaries(
                corpus.entry_seq(),
                str_to_lowercase(entity_text@),
            ).to_multiset()
        },
{
    let needle = lowercase(entity_text);
    if needle.as_str().is_empty() {
        return Vec::new();
    }
    let ghost nd = needle@;
    let es = corpus.entries();
    let n = es.len();
    let mut results: Vec<EntitySearchSummary> = Vec::new();
    let mut i: usize = 0;
    assert(summary_views(results@) =~= Seq::<SummaryView>::empty());
    assert(search_summaries(es@.take(0), nd) =~= Seq::<SummaryView>::empty());
    while i < n
        invariant
            n == es@.len(),
            es@ == corpus.entry_seq(),
            keys_distinct(es@),
            line_numbers_fit(es@),
            nd == needle@,
            i <= n,
            sorted_by_source(es@, summary_views(results@)),
            summary_views(results@).to_multiset() == search_summaries(es@.take(i as int), nd).to_multiset(),
        decreases n - i,
    {
        let e = &es[i];
        assert(entry_lines(es@[i as int].output).len() <= u32::MAX);
        let summary = summarize(e, needle.as_str());
        let ghost t = es@.take(i + 1);
        let ghost prev = search_summaries(es@.take(i as int), nd);
        assert(t.drop_last() =~= es@.take(i as int));
        assert(t.last() == es@[i as int]);
        proof {
            lemma_line_hits_len(entry_lines(e.output), nd);
        }
        if summary.hit_count > 0 {
            proof {
                crate::corpus::lemma_key_index(es@, summary.source@);
                assert(key_index(es@, summary.source@) == i);
                assert forall|j: int| 0 <= j < results@.len() implies key_index(
                    es@,
                    #[trigger] results@[j].source@,
                ) < key_index(es@, summary.source@) by {
                    let v = summary_views(results@)[j];
                    assert(summary_views(results@).contains(v));
                    vstd::seq_lib::to_multiset_contains(summary_views(results@), v);
                    vstd::seq_lib::to_multiset_contains(prev, v);
                    lemma_summary_sources(es@.take(i as int), nd, v);
                    crate::corpus::lemma_key_index(es@.take(i as int), v.source);
                    crate::corpus::lemma_key_index(es@, v.source);
                    let ki = key_index(es@.take(i as int), v.source);
                    assert(es@[ki].source_key@ == v.source);
                }
            }
            let ghost sv = summary@;
            insert_by_source(&mut results, summary, Ghost(es@));
            proof {
                vstd::seq_lib::to_multiset_build(prev, sv);
            }
        }
        i = i + 1;
    }
    assert(es@.take(n as int) =~= es@);
    results
}


// ── Laws ─────────────────────────────────────────────────────────────

/// The extraction's text is the text its searched lines come from: it is
/// unpaginated, or its text is its pages' texts joined with `\n`.
pub open spec fn text_matches_pages(o: ExtractionOutput) -> bool {
    match o.pages {
        None => true,
        Some(ps) => o.text@ == join_lines(ps@.map_values(|p: ExtractionPage| p.text@)),
    }
}

proof fn lemma_pages_lines_split(ps: Seq<ExtractionPage>)
    requires
        ps.len() > 0,
    ensures
        split_lines(join_lines(ps.map_values(|p: ExtractionPage| p.text@))) == pages_lines(ps),
    decreases ps.len(),
{
    let ts = ps.map_values(|p: ExtractionPage| p.text@);
    if ps.len() == 1 {
        assert(ps.drop_last() =~= Seq::<ExtractionPage>::empty());
        assert(pages_lines(ps.drop_last()) == Seq::<Seq<char>>::empty());
        assert(ts[0] == ps[0].text@);
        assert(ps.last() == ps[0]);
        assert(pages_lines(ps) =~= split_lines(ts[0]));
    } else {
        let init = ps.drop_last();
        lemma_pages_lines_split(init);
        assert(ts.drop_last() =~= init.map_values(|p: ExtractionPage| p.text@));
        lemma_split_lines_join(join_lines(ts.drop_last()), ts.last());
    }
}

proof fn lemma_line_hits_shape(lines: Seq<Seq<char>>, needle: Seq<char>, j: int)
    requires
        lines.len() <= u32::MAX,
        0 <= j < line_hits(lines, needle).len(),
    ensures
        1 <= line_hits(lines, needle)[j].0.0 <= lines.len(),
        line_hits(lines, needle)[j].0.1 == line_hits(lines, needle)[j].0.0,
        line_hits(lines, needle)[j].1 == lines[line_hits(lines, needle)[j].0.0 - 1],
    decreases lines.len(),
{
    let p = line_hits(lines.drop_last(), needle);
    lemma_line_hits_len(lines.drop_last(), needle);
    if j < p.len() {
        lemma_line_hits_shape(lines.drop_last(), needle, j);
    }
}

proof fn lemma_summary_of_entry(es: Seq<CorpusEntry>, needle: Seq<char>, v: SummaryView)
    requires
        keys_distinct(es),
        search_summaries(es, needle).contains(v),
    ensures
        key_index(es, v.source) >= 0,
        v == entry_summary(es[key_index(es, v.source)], needle),
    decreases es.len(),
{
    let p = search_summaries(es.drop_last(), needle);
    crate::corpus::lemma_key_index(es, v.source);
    if p.contains(v) {
        assert(keys_distinct(es.drop_last()));
        lemma_summary_of_entry(es.drop_last(), needle, v);
        crate::corpus::lemma_key_index(es.drop_last(), v.source);
        let k = key_index(es.drop_last(), v.source);
        assert(es[k] == es.drop_last()[k]);
    } else {
        assert(v == entry_summary(es.last(), needle));
    }
}

/// Search hits round-trip as citations: for a source whose text is its
/// pages' concatenation (or that is unpaginated), a citation of a reported
/// hit's source and line range resolves to exactly the hit's line, and it
/// verifies when its quote hash is that line's.
pub proof fn law_search_hits_round_trip(es: Seq<CorpusEntry>, needle: Seq<char>, v: SummaryView, j: int, c: Citation)
    requires
        keys_distinct(es),
        line_numbers_fit(es),
        search_summaries(es, needle).contains(v),
        text_matches_pages(es[key_index(es, v.source)].output),
        0 <= j < v.hits.len(),
        c.source@ == v.source,
        c.line_range == v.hits[j].0,
    ensures
        cited_span(es, c) == Some(v.hits[j].1),
        c.quote_hash.0@ == quote_hash_of(v.hits[j].1) ==> citation_verdict(es, c) == CitationVerdict::Matched,
{
    lemma_summary_of_entry(es, needle, v);
    crate::corpus::lemma_key_index(es, v.source);
    let k = key_index(es, v.source);
    let o = es[k].output;
    let lines = entry_lines(o);
    let hs = line_hits(lines, needle);
    assert(entry_lines(es[k].output).len() <= u32::MAX);
    lemma_line_hits_len(lines, needle);
    assert(v.hits == kept_hits(hs));
    assert(v.hits[j] == hs[j]);
    lemma_line_hits_shape(lines, needle, j);
    match o.pages {
        Some(ps) => {
            if ps@.len() == 0 {
                assert(pages_lines(ps@) =~= Seq::<Seq<char>>::empty());
                assert(false);
            }
            lemma_pages_lines_split(ps@);
        },
        None => {},
    }
    assert(split_lines(o.text@) == lines);
    let m = hs[j].0.0;
    assert(lines.subrange(m - 1, m as int) =~= seq![lines[m - 1]]);
    assert(line_span(o.text@, m, m) == lines[m - 1]);
}


/// What [`search_entity`] returns round-trips: take any list with the
/// summaries `search_entity` promises for a needle (the same summaries, in
/// whatever order) over a corpus whose paginated texts are their pages'
/// concatenation; a citation of any hit's source and line range resolves to
/// exactly the hit's line, and verifies when its quote hash is that line's.
pub proof fn law_search_entity_hits_round_trip(
    es: Seq<CorpusEntry>,
    needle: Seq<char>,
    r: Seq<SummaryView>,
    i: int,
    j: int,
    c: Citation,
)
    requires
        keys_distinct(es),
        line_numbers_fit(es),
        forall|k: int| 0 <= k < es.len() ==> text_matches_pages(#[trigger] es[k].output),
        r.to_multiset() == search_summaries(es, needle).to_multiset(),
        0 <= i < r.len(),
        0 <= j < r[i].hits.len(),
        c.source@ == r[i].source,
        c.line_range == r[i].hits[j].0,
    ensures
        cited_span(es, c) == Some(r[i].hits[j].1),
        c.quote_hash.0@ == quote_hash_of(r[i].hits[j].1) ==> citation_verdict(es, c) == CitationVerdict::Matched,
{
    let v = r[i];
    assert(r.contains(v));
    vstd::seq_lib::to_multiset_contains(r, v);
    vstd::seq_lib::to_multiset_contains(search_summaries(es, needle), v);
    lemma_summary_of_entry(es, needle, v);
    crate::corpus::lemma_key_index(es, v.source);
    assert(text_matches_pages(es[key_index(es, v.source)].output));
    law_search_hits_round_trip(es, needle, v, j, c);
}

proof fn lemma_path_sorted_unique(r1: Seq<SummaryView>, r2: Seq<SummaryView>)
    requires
        forall|i: int, j: int| 0 <= i < j < r1.len() ==> path_lt(r1[i].source, r1[j].source),
        forall|i: int, j: int| 0 <= i < j < r2.len() ==> path_lt(r2[i].source, r2[j].source),
        r1.to_multiset() == r2.to_multiset(),
    ensures
        r1 == r2,
    decreases r1.len(),
{
    vstd::seq_lib::to_multiset_len(r1);
    vstd::seq_lib::to_multiset_len(r2);
    if r1.len() == 0 {
        assert(r1 =~= r2);
    } else {
        let (a, b) = (r1[0], r2[0]);
        vstd::seq_lib::to_multiset_contains(r1, a);
        vstd::seq_lib::to_multiset_contains(r1, b);
        vstd::seq_lib::to_multiset_contains(r2, a);
        vstd::seq_lib::to_multiset_contains(r2, b);
        assert(r1[0] == a && r2[0] == b);
        if a != b {
            let k = choose|k: int| 0 <= k < r2.len() && r2[k] == a;
            let m = choose|m: int| 0 <= m < r1.len() && r1[m] == b;
            assert(k > 0 && m > 0);
            assert(path_lt(r2[0].source, r2[k].source));
            assert(path_lt(r1[0].source, r1[m].source));
            lemma_comps_lt_total(path_components(a.source), path_components(b.source));
        }
        vstd::seq_lib::to_multiset_remove(r1, 0);
        vstd::seq_lib::to_multiset_remove(r2, 0);
        assert(r1.remove(0) =~= r1.drop_first());
        assert(r2.remove(0) =~= r2.drop_first());
        lemma_path_sorted_unique(r1.drop_first(), r2.drop_first());
        assert(r1 =~= seq![a] + r1.drop_first());
        assert(r2 =~= seq![b] + r2.drop_first());
    }
}

/// When the summaries' sources name distinct paths, the order of search
/// results does not depend on the order of the corpus: lists of the same
/// summaries, each sorted by source for some order of the corpus entries,
/// are the same list.
pub proof fn law_search_order_ignores_corpus_order(
    es1: Seq<CorpusEntry>,
    es2: Seq<CorpusEntry>,
    r1: Seq<SummaryView>,
    r2: Seq<SummaryView>,
)
    requires
        sorted_by_source(es1, r1),
        sorted_by_source(es2, r2),
        r1.to_multiset() == r2.to_multiset(),
        forall|i: int, j: int|
            0 <= i < j < r1.len() ==> path_components(r1[i].source) != path_components(r1[j].source),
    ensures
        r1 == r2,
{
    assert forall|i: int, j: int| 0 <= i < j < r1.len() implies path_lt(r1[i].source, r1[j].source) by {
        assert(source_before(es1, r1[i].source, r1[j].source));
    }
    assert forall|i: int, j: int| 0 <= i < j < r2.len() implies path_lt(r2[i].source, r2[j].source) by {
        let (x, y) = (r2[i], r2[j]);
        assert(source_before(es2, x.source, y.source));
        lemma_comps_lt_total(path_components(x.source), path_components(x.source));
        assert(x != y);
        vstd::seq_lib::to_multiset_contains(r2, x);
        vstd::seq_lib::to_multiset_contains(r2, y);
        vstd::seq_lib::to_multiset_contains(r1, x);
        vstd::seq_lib::to_multiset_contains(r1, y);
        assert(r2.contains(x));
        assert(r2.contains(y));
        let p = choose|p: int| 0 <= p < r1.len() && r1[p] == x;
        let q = choose|q: int| 0 <= q < r1.len() && r1[q] == y;
        if p < q {
            assert(path_components(r1[p].source) != path_components(r1[q].source));
        } else {
            assert(path_components(r1[q].source) != path_components(r1[p].source));
        }
    }
    lemma_path_sorted_unique(r1, r2);
}

/// The summary an entry contributes to a search, as a multiset: one when
/// the entry has a hit, none otherwise.
pub open spec fn entry_hit_summaries(e: CorpusEntry, needle: Seq<char>) -> Multiset<SummaryView> {
    if line_hits(entry_lines(e.output), needle).len() > 0 {
        Multiset::singleton(entry_summary(e, needle))
    } else {
        Multiset::empty()
    }
}

proof fn lemma_search_summaries_remove(s: Seq<CorpusEntry>, needle: Seq<char>, k: int)
    requires
        0 <= k < s.len(),
    ensures
        search_summaries(s, needle).to_multiset() == search_summaries(s.remove(k), needle).to_multiset().add(
            entry_hit_summaries(s[k], needle),
        ),
    decreases s.len(),
{
    broadcast use vstd::multiset::group_multiset_axioms;
    let dl = s.drop_last();
    let last = entry_hit_summaries(s.last(), needle);
    vstd::seq_lib::to_multiset_build(search_summaries(dl, needle), entry_summary(s.last(), needle));
    assert(search_summaries(s, needle).to_multiset() =~= search_summaries(dl, needle).to_multiset().add(last));
    if k == s.len() - 1 {
        assert(s.remove(k) =~= dl);
    } else {
        let t = s.remove(k);
        assert(t.drop_last() =~= dl.remove(k));
        assert(t.last() == s.last());
        assert(dl[k] == s[k]);
        lemma_search_summaries_remove(dl, needle, k);
        vstd::seq_lib::to_multiset_build(search_summaries(t.drop_last(), needle), entry_summary(s.last(), needle));
        assert(search_summaries(t, needle).to_multiset() =~= search_summaries(dl.remove(k), needle).to_multiset().add(
            last,
        ));
        assert(search_summaries(s, needle).to_multiset() =~= search_summaries(t, needle).to_multiset().add(
            entry_hit_summaries(s[k], needle),
        ));
    }
}

proof fn lemma_search_summaries_permutation(a: Seq<CorpusEntry>, b: Seq<CorpusEntry>, needle: Seq<char>)
    requires
        a.to_multiset() == b.to_multiset(),
    ensures
        search_summaries(a, needle).to_multiset() == search_summaries(b, needle).to_multiset(),
    decreases a.len(),
{
    broadcast use vstd::multiset::group_multiset_axioms;
    vstd::seq_lib::to_multiset_len(a);
    vstd::seq_lib::to_multiset_len(b);
    if a.len() == 0 {
        assert(b =~= a);
    } else {
        let x = a.last();
        let dl = a.drop_last();
        vstd::seq_lib::to_multiset_build(dl, x);
        assert(dl.push(x) =~= a);
        vstd::seq_lib::to_multiset_contains(b, x);
        vstd::seq_lib::to_multiset_contains(a, x);
        assert(a[a.len() - 1] == x);
        let k = choose|k: int| 0 <= k < b.len() && b[k] == x;
        vstd::seq_lib::to_multiset_remove(b, k);
        assert(dl.to_multiset() =~= a.to_multiset().remove(x));
        lemma_search_summaries_permutation(dl, b.remove(k), needle);
        lemma_search_summaries_remove(a, needle, a.len() - 1);
        assert(a.remove(a.len() - 1) =~= dl);
        lemma_search_summaries_remove(b, needle, k);
    }
}

/// Searching a reordering of the corpus gives the same results when its
/// sources name distinct paths: results with what [`search_entity`]
/// promises for the two orders are the same list.
pub proof fn law_search_entity_ignores_corpus_order(
    es1: Seq<CorpusEntry>,
    es2: Seq<CorpusEntry>,
    needle: Seq<char>,
    r1: Seq<SummaryView>,
    r2: Seq<SummaryView>,
)
    requires
        es1.to_multiset() == es2.to_multiset(),
        forall|i: int, j: int|
            0 <= i < j < es1.len() ==> path_components(es1[i].source_key@) != path_components(
                es1[j].source_key@,
            ),
        sorted_by_source(es1, r1),
        r1.to_multiset() == search_summaries(es1, needle).to_multiset(),
        sorted_by_source(es2, r2),
        r2.to_multiset() == search_summaries(es2, needle).to_multiset(),
    ensures
        r1 == r2,
{
    lemma_search_summaries_permutation(es1, es2, needle);
    assert forall|i: int, j: int| 0 <= i < j < r1.len() implies path_components(r1[i].source)
        != path_components(r1[j].source) by {
        let (x, y) = (r1[i], r1[j]);
        assert(source_before(es1, x.source, y.source));
        lemma_comps_lt_total(path_components(x.source), path_components(x.source));
        assert(x.source != y.source);
        assert(r1.contains(x));
        assert(r1.contains(y));
        vstd::seq_lib::to_multiset_contains(r1, x);
        vstd::seq_lib::to_multiset_contains(r1, y);
        vstd::seq_lib::to_multiset_contains(search_summaries(es1, needle), x);
        vstd::seq_lib::to_multiset_contains(search_summaries(es1, needle), y);
        lemma_summary_sources(es1, needle, x);
        lemma_summary_sources(es1, needle, y);
        crate::corpus::lemma_key_index(es1, x.source);
        crate::corpus::lemma_key_index(es1, y.source);
        let p = key_index(es1, x.source);
        let q = key_index(es1, y.source);
        assert(p != q);
        if p < q {
            assert(path_components(es1[p].source_key@) != path_components(es1[q].source_key@));
        } else {
            assert(path_components(es1[q].source_key@) != path_components(es1[p].source_key@));
        }
    }
    law_search_order_ignores_corpus_order(es1, es2, r1, r2);
}

/// A citation verifies exactly when it resolves to a span whose quote hash
/// is the declared one.
pub proof fn law_verdict_matches_cited_span(es: Seq<CorpusEntry>, c: Citation)
    ensures
        citation_verdict(es, c) == CitationVerdict::Matched <==> (cited_span(es, c) is Some && quote_hash_of(
            cited_span(es, c)->0,
        ) == c.quote_hash.0@),
{
}

/// The cited span is read from the corpus: it depends on the citation's
/// source and range only, never on the quote or hash it declares.
pub proof fn law_cited_span_ignores_declared_quote(es: Seq<CorpusEntry>, c: Citation, d: Citation)
    requires
        c.source@ == d.source@,
        c.line_range == d.line_range,
    ensures
        cited_span(es, c) == cited_span(es, d),
{
}

/// Whole-word matching is insensitive to what lies around the text: a
/// bounded occurrence of the needle is found whether or not other
/// occurrences overlap it.
pub proof fn law_bounded_occurrence_is_a_word(haystack: Seq<char>, needle: Seq<char>, i: int)
    requires
        needle.len() > 0,
        occurs_at(haystack, needle, i),
        word_bounded(haystack, i, needle.len() as int),
    ensures
        has_word(haystack, needle),
{
}

} // verus!
