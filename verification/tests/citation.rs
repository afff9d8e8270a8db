use tenant_tail_core::citation::{
    cited_span_text, contains_word, search_entity, span_covers_entity, verify_citation, CitationResult,
    MAX_HITS_PER_SOURCE,
};
use tenant_tail_core::corpus::{Corpus, CorpusEntry};
use tenant_tail_core::digest::sha256_bytes;
use tenant_tail_core::source_path::path_less;
use tenant_tail_core::knowledge::{
    lines_of, normalize_whitespace, quote_hash, Citation, ExtractionOutput, ExtractionPage, Extractor, QuoteHash,
};

fn extractor() -> Extractor {
    Extractor { kind: "deterministic-text".into(), version: "1.0.0".into(), agent_run: None }
}

fn extraction_with_text(text: &str) -> ExtractionOutput {
    ExtractionOutput { text: text.to_string(), pages: None, language: Some("en".into()), extractor: extractor() }
}

fn extraction_with_pages(pages: &[&str]) -> ExtractionOutput {
    let combined = pages.join("\n");
    let page_objs: Vec<ExtractionPage> = pages
        .iter()
        .enumerate()
        .map(|(i, p)| ExtractionPage { index: i as u64, text: p.to_string() })
        .collect();
    ExtractionOutput { text: combined, pages: Some(page_objs), language: Some("en".into()), extractor: extractor() }
}

fn corpus_with(entries: &[(&str, ExtractionOutput)]) -> Corpus {
    Corpus::from_entries(
        entries.iter().map(|(k, o)| CorpusEntry { source_key: k.to_string(), output: o.clone() }).collect(),
    )
}

fn citation(source: &str, line_range: (u32, u32), quote: &str, hash: QuoteHash) -> Citation {
    Citation { source: source.to_string(), line_range, quote: quote.to_string(), quote_hash: hash }
}

// ---------- verify_citation ----------

#[test]
fn verify_citation_matched() {
    let text = "line one\nline two\nline three";
    let c = corpus_with(&[("a.txt", extraction_with_text(text))]);
    let cit = citation("a.txt", (2, 2), "line two", quote_hash("line two"));
    assert_eq!(verify_citation(&c, &cit), CitationResult::Matched);
}

#[test]
fn verify_citation_matched_multi_line() {
    let text = "line one\nline two\nline three";
    let c = corpus_with(&[("a.txt", extraction_with_text(text))]);
    let span = "line one\nline two";
    let cit = citation("a.txt", (1, 2), span, quote_hash(span));
    assert_eq!(verify_citation(&c, &cit), CitationResult::Matched);
}

#[test]
fn verify_citation_hash_mismatch() {
    let text = "line one\nline two\nline three";
    let c = corpus_with(&[("a.txt", extraction_with_text(text))]);
    let cit = citation("a.txt", (2, 2), "line two", quote_hash("totally different"));
    match verify_citation(&c, &cit) {
        CitationResult::HashMismatch { expected, actual } => {
            assert_ne!(expected, actual);
            assert_eq!(actual, quote_hash("line two"));
        }
        other => panic!("expected HashMismatch, got {other:?}"),
    }
}

#[test]
fn verify_citation_line_range_out_of_bounds() {
    let text = "only one line";
    let c = corpus_with(&[("a.txt", extraction_with_text(text))]);
    let cit = citation("a.txt", (5, 6), "anything", quote_hash("anything"));
    match verify_citation(&c, &cit) {
        CitationResult::LineRangeOutOfBounds { declared_range, actual_line_count, source } => {
            assert_eq!(declared_range, (5, 6));
            assert_eq!(actual_line_count, 1);
            assert_eq!(source, "a.txt".to_string());
        }
        other => panic!("expected LineRangeOutOfBounds, got {other:?}"),
    }
}

#[test]
fn verify_citation_zero_line_range_is_out_of_bounds() {
    let text = "line";
    let c = corpus_with(&[("a.txt", extraction_with_text(text))]);
    let cit = citation("a.txt", (0, 0), "line", quote_hash("line"));
    assert!(matches!(verify_citation(&c, &cit), CitationResult::LineRangeOutOfBounds { .. }));
}

#[test]
fn verify_citation_inverted_range_is_out_of_bounds() {
    let text = "line one\nline two\nline three";
    let c = corpus_with(&[("a.txt", extraction_with_text(text))]);
    let cit = citation("a.txt", (3, 1), "anything", quote_hash("anything"));
    assert!(matches!(verify_citation(&c, &cit), CitationResult::LineRangeOutOfBounds { .. }));
}

#[test]
fn verify_citation_source_not_found() {
    let c = corpus_with(&[("a.txt", extraction_with_text("hi"))]);
    let cit = citation("missing.txt", (1, 1), "hi", quote_hash("hi"));
    assert_eq!(verify_citation(&c, &cit), CitationResult::SourceNotFound);
}

#[test]
fn verify_citation_paginated_corpus() {
    let pages = &["page zero text", "page one text"];
    let c = corpus_with(&[("p.txt", extraction_with_pages(pages))]);
    let cit = citation("p.txt", (2, 2), "page one text", quote_hash("page one text"));
    assert_eq!(verify_citation(&c, &cit), CitationResult::Matched);
}

#[test]
fn verify_citation_normalises_whitespace() {
    let c = corpus_with(&[("a.txt", extraction_with_text("   spaced   \tquote   "))]);
    let cit = citation("a.txt", (1, 1), "spaced quote", quote_hash("spaced quote"));
    assert_eq!(verify_citation(&c, &cit), CitationResult::Matched);
}

#[test]
fn verify_citation_fails_closed_on_curly_quotes() {
    let curly = "\u{201C}value\u{201D}";
    let straight = "\"value\"";
    let c = corpus_with(&[("a.txt", extraction_with_text(curly))]);
    let cit = citation("a.txt", (1, 1), straight, quote_hash(straight));
    assert!(matches!(verify_citation(&c, &cit), CitationResult::HashMismatch { .. }));
}

// ---------- search_entity ----------

#[test]
fn search_entity_finds_case_insensitive_hits() {
    let c = corpus_with(&[("a.txt", extraction_with_text("STK-13 references 1GX Oracle ERP."))]);
    let r = search_entity(&c, "1gx");
    assert_eq!(r.len(), 1);
    assert_eq!(r[0].hit_count, 1);
}

#[test]
fn search_entity_returns_no_results_when_absent() {
    let c = corpus_with(&[("a.txt", extraction_with_text("nothing here"))]);
    let r = search_entity(&c, "missing-vendor");
    assert!(r.is_empty());
}

#[test]
fn search_entity_returns_sources_sorted() {
    let c = corpus_with(&[
        ("zebra.txt", extraction_with_text("vendor here")),
        ("alpha.txt", extraction_with_text("vendor here")),
        ("middle.txt", extraction_with_text("vendor here")),
    ]);
    let r = search_entity(&c, "vendor");
    let sources: Vec<&str> = r.iter().map(|s| s.source.as_str()).collect();
    assert_eq!(sources, vec!["alpha.txt", "middle.txt", "zebra.txt"]);
}

#[test]
fn search_entity_walks_pages() {
    let pages = &["nothing in page 0", "vendor lives on page 1"];
    let c = corpus_with(&[("p.txt", extraction_with_pages(pages))]);
    let r = search_entity(&c, "vendor");
    assert!(!r.is_empty());
    assert!(r[0].hit_count >= 1);
}

#[test]
fn search_entity_does_not_double_count_paginated_hits() {
    let pages = &["vendor on zero", "vendor on one"];
    let c = corpus_with(&[("p.txt", extraction_with_pages(pages))]);
    let r = search_entity(&c, "vendor");
    assert_eq!(r.len(), 1);
    assert_eq!(r[0].hit_count, 2);
    assert_eq!(r[0].pages_searched, 2);
}

#[test]
fn search_entity_empty_needle_returns_empty() {
    let c = corpus_with(&[("a.txt", extraction_with_text("anything"))]);
    assert!(search_entity(&c, "").is_empty());
}

#[test]
fn search_entity_matches_whole_words_only() {
    let c = corpus_with(&[("a.txt", extraction_with_text("the enterprise plan"))]);
    assert!(search_entity(&c, "erp").is_empty());
    let c2 = corpus_with(&[("a.txt", extraction_with_text("uses ERP heavily"))]);
    assert_eq!(search_entity(&c2, "erp").len(), 1);
}

#[test]
fn search_entity_reports_document_global_line_numbers() {
    let pages = &["alpha", "beta vendor gamma"];
    let c = corpus_with(&[("p.txt", extraction_with_pages(pages))]);
    let r = search_entity(&c, "vendor");
    assert_eq!(r.len(), 1);
    assert_eq!(r[0].hits[0].line_range, (2, 2));
    let cit = citation("p.txt", (2, 2), "beta vendor gamma", quote_hash("beta vendor gamma"));
    assert_eq!(verify_citation(&c, &cit), CitationResult::Matched);
}

#[test]
fn cited_span_text_reads_actual_source_not_declared_quote() {
    let c = corpus_with(&[("a.txt", extraction_with_text("line one\nline two"))]);
    let cit = citation("a.txt", (2, 2), "A DIFFERENT DECLARED QUOTE", quote_hash("line two"));
    assert_eq!(cited_span_text(&c, &cit).as_deref(), Some("line two"));
}

#[test]
fn span_covers_entity_is_whole_word() {
    assert!(span_covers_entity("integrates with Zorptech today", "Zorptech"));
    assert!(!span_covers_entity("a Zorptechnology thing", "Zorptech"));
}

// ---------- further cases ----------

#[test]
fn quote_hash_is_sha256_of_collapsed_text() {
    assert_eq!(quote_hash("  spaced \t\n quote ").0, sha256_bytes(b"spaced quote"));
    assert_eq!(
        quote_hash("").0,
        "e3b0c44298fc1c149afbf4c8996fb92427ae41e4649b934ca495991b7852b855"
    );
}

#[test]
fn normalize_whitespace_collapses_unicode_space_runs() {
    assert_eq!(normalize_whitespace("\u{3000}a\u{00A0}\u{2003} b\r\n"), "a b");
    assert_eq!(normalize_whitespace(" \t "), "");
    assert_eq!(normalize_whitespace("one"), "one");
}

#[test]
fn lines_of_splits_on_every_newline() {
    assert_eq!(lines_of(""), vec![String::new()]);
    assert_eq!(lines_of("a\n"), vec!["a".to_string(), String::new()]);
    assert_eq!(lines_of("a\n\nb"), vec!["a".to_string(), String::new(), "b".to_string()]);
}

#[test]
fn contains_word_edges() {
    assert!(!contains_word("abc", ""));
    assert!(contains_word("erp", "erp"));
    assert!(contains_word("x-erp.", "erp"));
    assert!(!contains_word("erp2", "erp"));
    assert!(!contains_word("café", "caf"));
    assert!(!contains_word("aaa", "aa"));
    assert!(contains_word("aa aa", "aa"));
    // A bounded occurrence counts even when an earlier one overlaps it.
    assert!(contains_word("xa-a-a", "a-a"));
}

#[test]
fn cited_span_text_multi_line_and_out_of_range() {
    let c = corpus_with(&[("a.txt", extraction_with_text("l1\nl2\nl3"))]);
    let span = cited_span_text(&c, &citation("a.txt", (2, 3), "", quote_hash("")));
    assert_eq!(span.as_deref(), Some("l2\nl3"));
    assert_eq!(cited_span_text(&c, &citation("a.txt", (3, 4), "", quote_hash(""))), None);
    assert_eq!(cited_span_text(&c, &citation("b.txt", (1, 1), "", quote_hash(""))), None);
}

#[test]
fn search_hits_are_capped_but_counted() {
    let text: Vec<String> = (0..150).map(|i| format!("vendor line {i}")).collect();
    let c = corpus_with(&[("big.txt", extraction_with_text(&text.join("\n")))]);
    let r = search_entity(&c, "VENDOR");
    assert_eq!(r.len(), 1);
    assert_eq!(r[0].hit_count, 150);
    assert_eq!(r[0].hits.len(), MAX_HITS_PER_SOURCE);
    assert_eq!(r[0].hits[99].line_range, (100, 100));
    assert_eq!(r[0].hits[99].quote, "vendor line 99");
    assert_eq!(r[0].pages_searched, 1);
}

#[test]
fn search_hit_round_trips_as_a_citation() {
    let pages = &["intro", "we use Acme daily", "later Acme again"];
    let c = corpus_with(&[("doc.txt", extraction_with_pages(pages))]);
    let r = search_entity(&c, "acme");
    assert_eq!(r.len(), 1);
    for hit in &r[0].hits {
        let cit = citation("doc.txt", hit.line_range, &hit.quote, quote_hash(&hit.quote));
        assert_eq!(cited_span_text(&c, &cit).as_deref(), Some(hit.quote.as_str()));
        assert_eq!(verify_citation(&c, &cit), CitationResult::Matched);
    }
}

#[test]
fn later_corpus_entry_replaces_same_source() {
    let c = corpus_with(&[
        ("a.txt", extraction_with_text("old text")),
        ("b.txt", extraction_with_text("other")),
        ("a.txt", extraction_with_text("new text")),
    ]);
    assert_eq!(c.entries().len(), 2);
    assert_eq!(c.get("a.txt").map(|e| e.output.text.as_str()), Some("new text"));
    assert_eq!(c.entries()[0].source_key, "a.txt");
}

#[test]
fn search_entity_orders_sources_by_path_components() {
    let c = corpus_with(&[
        ("a-b.txt", extraction_with_text("vendor here")),
        ("a/b.txt", extraction_with_text("vendor here")),
        ("/abs/z.txt", extraction_with_text("vendor here")),
        ("./cur.txt", extraction_with_text("vendor here")),
        ("../up.txt", extraction_with_text("vendor here")),
    ]);
    let r = search_entity(&c, "vendor");
    let sources: Vec<&str> = r.iter().map(|s| s.source.as_str()).collect();
    assert_eq!(sources, vec!["/abs/z.txt", "./cur.txt", "../up.txt", "a/b.txt", "a-b.txt"]);
}

#[test]
fn search_entity_keeps_corpus_order_for_the_same_path() {
    let c = corpus_with(&[
        ("b.txt", extraction_with_text("vendor here")),
        ("d//x.txt", extraction_with_text("vendor here")),
        ("d/x.txt", extraction_with_text("vendor here")),
        ("a.txt", extraction_with_text("vendor here")),
    ]);
    let r = search_entity(&c, "vendor");
    let sources: Vec<&str> = r.iter().map(|s| s.source.as_str()).collect();
    assert_eq!(sources, vec!["a.txt", "b.txt", "d//x.txt", "d/x.txt"]);
}

#[test]
fn path_less_compares_components() {
    assert!(path_less("a/b.txt", "a-b.txt"));
    assert!(!path_less("a-b.txt", "a/b.txt"));
    assert!(!path_less("a/./b", "a/b/"));
    assert!(!path_less("a/b/", "a/./b"));
    assert!(path_less("/z", "a"));
    assert!(path_less("./z", "../a"));
    assert!(path_less("a/..", "a/b"));
    assert!(path_less("a", "a/b"));
    assert!(path_less(".a", "a"));
}

#[test]
fn search_entity_order_ignores_corpus_order() {
    let entries = [
        ("docs/b.txt", "vendor one"),
        ("docs-a.txt", "the vendor"),
        ("docs/a/c.txt", "vendor"),
        ("z.txt", "no match"),
    ];
    let forward: Vec<(&str, ExtractionOutput)> = entries.iter().map(|(k, t)| (*k, extraction_with_text(t))).collect();
    let backward: Vec<(&str, ExtractionOutput)> =
        entries.iter().rev().map(|(k, t)| (*k, extraction_with_text(t))).collect();
    let r1 = search_entity(&corpus_with(&forward), "vendor");
    let r2 = search_entity(&corpus_with(&backward), "vendor");
    assert_eq!(r1, r2);
    let sources: Vec<&str> = r1.iter().map(|s| s.source.as_str()).collect();
    assert_eq!(sources, vec!["docs/a/c.txt", "docs/b.txt", "docs-a.txt"]);
}
