//! The extraction corpus's carrier types, citations, and the text functions
//! citation checking is built on: line splitting and joining, whitespace
//! normalisation, and the quote hash.

use crate::digest::{sha256_hex, sha256_str};
use crate::text::{chars_of, views};
use vstd::prelude::*;
use vstd::utf8::encode_utf8;

verus! {

/// The tool that produced an extraction.
#[derive(Debug, Clone)]
pub struct Extractor {
    pub kind: String,
    pub version: String,
    pub agent_run: Option<String>,
}

/// One page of a paginated extraction.
#[derive(Debug, Clone)]
pub struct ExtractionPage {
    pub index: u64,
    pub text: String,
}

/// The typed text extracted from one source document. For a paginated
/// extraction, `text` is the concatenation of the pages' texts joined by
/// `\n`.
#[derive(Debug, Clone)]
pub struct ExtractionOutput {
    pub text: String,
    pub pages: Option<Vec<ExtractionPage>>,
    pub language: Option<String>,
    pub extractor: Extractor,
}

/// The hash of a (whitespace-normalised) quote: lowercase hex SHA-256.
#[derive(Debug, Clone, PartialEq, Eq)]
pub struct QuoteHash(pub String);

/// A claim's citation: a 1-based inclusive line range of a corpus source,
/// the quote it declares, and that quote's hash.
#[derive(Debug)]
pub struct Citation {
    pub source: String,
    pub line_range: (u32, u32),
    pub quote: String,
    pub quote_hash: QuoteHash,
}

/// Unicode `White_Space`: the characters `char::is_whitespace` accepts.
pub open spec fn is_white_space(c: char) -> bool {
    let v = c as u32;
    (9 <= v && v <= 13) || v == 32 || v == 0x85 || v == 0xa0 || v == 0x1680 || (0x2000 <= v && v <= 0x200a)
        || v == 0x2028 || v == 0x2029 || v == 0x202f || v == 0x205f || v == 0x3000
}

/// `s` with every run of whitespace collapsed to one space and leading and
/// trailing whitespace removed (its words joined by single spaces).
pub open spec fn collapse_whitespace(s: Seq<char>) -> Seq<char>
    decreases s.len(),
{
    if s.len() == 0 {
        seq![]
    } else {
        let p = collapse_whitespace(s.drop_last());
        let c = s.last();
        if is_white_space(c) {
            p
        } else if s.len() >= 2 && !is_white_space(s[s.len() - 2]) {
            p.push(c)
        } else if p.len() == 0 {
            seq![c]
        } else {
            p.push(' ').push(c)
        }
    }
}

/// The quote hash of `text`: SHA-256 (lowercase hex) of the UTF-8 of its
/// whitespace-collapsed form.
pub open spec fn quote_hash_of(text: Seq<char>) -> Seq<char> {
    sha256_hex(encode_utf8(collapse_whitespace(text)))
}

/// The lines of `s`, split at each `\n` (a text with `k` newlines has `k + 1`
/// lines; the empty text has one empty line).
pub open spec fn split_lines(s: Seq<char>) -> Seq<Seq<char>>
    decreases s.len(),
{
    if s.len() == 0 {
        seq![seq![]]
    } else {
        let p = split_lines(s.drop_last());
        if s.last() == '\n' {
            p.push(seq![])
        } else {
            p.update(p.len() - 1, p.last().push(s.last()))
        }
    }
}

/// Lines joined with `\n` between them.
pub open spec fn join_lines(ls: Seq<Seq<char>>) -> Seq<char>
    decreases ls.len(),
{
    if ls.len() == 0 {
        seq![]
    } else if ls.len() == 1 {
        ls[0]
    } else {
        join_lines(ls.drop_last()) + seq!['\n'] + ls.last()
    }
}

/// Every text has at least one line.
pub proof fn lemma_split_lines_nonempty(s: Seq<char>)
    ensures
        split_lines(s).len() >= 1,
    decreases s.len(),
{
    if s.len() > 0 {
        lemma_split_lines_nonempty(s.drop_last());
    }
}

fn white_space(c: char) -> (res: bool)
    ensures
        res == is_white_space(c),
{
    let v = c as u32;
    (9 <= v && v <= 13) || v == 32 || v == 0x85 || v == 0xa0 || v == 0x1680 || (0x2000 <= v && v <= 0x200a)
        || v == 0x2028 || v == 0x2029 || v == 0x202f || v == 0x205f || v == 0x3000
}

/// Collapse whitespace runs to single spaces and trim the ends.
pub fn normalize_whitespace(text: &str) -> (res: String)
    ensures
        res@ == collapse_whitespace(text@),
{
    let cs = chars_of(text);
    let n = cs.len();
    let mut out = String::new();
    let mut prev_white = false;
    let mut started = false;
    let mut i: usize = 0;
    while i < n
        invariant
            n == cs@.len(),
            cs@ == text@,
            i <= n,
            out@ == collapse_whitespace(text@.take(i as int)),
            started == (out@.len() > 0),
            prev_white == (i > 0 && is_white_space(text@[i - 1])),
        decreases n - i,
    {
        let c = cs[i];
        let ghost t = text@.take(i + 1);
        assert(t.drop_last() =~= text@.take(i as int));
        assert(t.last() == c);
        if white_space(c) {
            prev_white = true;
        } else {
            if i > 0 && !prev_white {
                out.push(c);
            } else if !started {
                out.push(c);
                assert(out@ =~= seq![c]);
            } else {
                out.push(' ');
                out.push(c);
            }
            prev_white = false;
            started = true;
        }
        i = i + 1;
    }
    assert(text@.take(n as int) =~= text@);
    out
}

/// The quote hash of `text`.
pub fn quote_hash(text: &str) -> (res: QuoteHash)
    ensures
        res.0@ == quote_hash_of(text@),
{
    let normalized = normalize_whitespace(text);
    QuoteHash(sha256_str(normalized.as_str()))
}

/// The lines of `s`, split at each `\n`.
pub fn lines_of(s: &str) -> (res: Vec<String>)
    ensures
        views(res@) == split_lines(s@),
{
    let cs = chars_of(s);
    let n = cs.len();
    let mut done: Vec<String> = Vec::new();
    let mut cur = String::new();
    let mut i: usize = 0;
    while i < n
        invariant
            n == cs@.len(),
            cs@ == s@,
            i <= n,
            views(done@).push(cur@) == split_lines(s@.take(i as int)),
        decreases n - i,
    {
        let c = cs[i];
        let ghost t = s@.take(i + 1);
        let ghost before = views(done@);
        let ghost cur0 = cur@;
        assert(t.drop_last() =~= s@.take(i as int));
        assert(t.last() == c);
        if c == '\n' {
            let line = cur;
            crate::text::push_msg(&mut done, line);
            cur = String::new();
            assert(views(done@).push(cur@) =~= before.push(cur0).push(seq![]));
        } else {
            cur.push(c);
            assert(views(done@).push(cur@) =~= before.push(cur0).update(before.len() as int, cur0.push(c)));
        }
        i = i + 1;
    }
    assert(s@.take(n as int) =~= s@);
    crate::text::push_msg(&mut done, cur);
    done
}

/// `ls[lo..hi]` joined with `\n`.
pub fn join_line_range(ls: &Vec<String>, lo: usize, hi: usize) -> (res: String)
    requires
        lo <= hi <= ls@.len(),
    ensures
        res@ == join_lines(views(ls@).subrange(lo as int, hi as int)),
{
    let mut out = String::new();
    let mut i: usize = lo;
    while i < hi
        invariant
            lo <= i <= hi,
            hi <= ls@.len(),
            out@ == join_lines(views(ls@).subrange(lo as int, i as int)),
        decreases hi - i,
    {
        let ghost t = views(ls@).subrange(lo as int, i + 1);
        assert(t.drop_last() =~= views(ls@).subrange(lo as int, i as int));
        assert(t.last() == ls@[i as int]@);
        if i > lo {
            out.push('\n');
        } else {
            assert(t =~= seq![ls@[i as int]@]);
        }
        out.append(ls[i].as_str());
        i = i + 1;
    }
    out
}


/// Splitting text joined at a `\n` gives the two parts' lines, one after the
/// other.
pub proof fn lemma_split_lines_join(a: Seq<char>, b: Seq<char>)
    ensures
        split_lines(a + seq!['\n'] + b) == split_lines(a) + split_lines(b),
    decreases b.len(),
{
    let s = a + seq!['\n'] + b;
    if b.len() == 0 {
        assert(s.drop_last() =~= a);
        assert(split_lines(s) =~= split_lines(a) + split_lines(b));
    } else {
        assert(s.drop_last() =~= a + seq!['\n'] + b.drop_last());
        lemma_split_lines_join(a, b.drop_last());
        lemma_split_lines_nonempty(b.drop_last());
        lemma_split_lines_nonempty(a);
        assert(s.last() == b.last());
        assert(split_lines(s) =~= split_lines(a) + split_lines(b));
    }
}


proof fn lemma_collapse_ends_in_word(s: Seq<char>)
    ensures
        collapse_whitespace(s).len() > 0 ==> !is_white_space(collapse_whitespace(s).last()),
        s.len() > 0 && !is_white_space(s.last()) ==> collapse_whitespace(s).len() > 0
            && collapse_whitespace(s).last() == s.last(),
    decreases s.len(),
{
    if s.len() > 0 {
        lemma_collapse_ends_in_word(s.drop_last());
    }
}

proof fn lemma_collapse_idempotent(s: Seq<char>)
    ensures
        collapse_whitespace(collapse_whitespace(s)) == collapse_whitespace(s),
    decreases s.len(),
{
    if s.len() > 0 {
        let init = s.drop_last();
        let p = collapse_whitespace(init);
        let c = s.last();
        lemma_collapse_idempotent(init);
        lemma_collapse_ends_in_word(init);
        lemma_collapse_ends_in_word(p);
        if is_white_space(c) {
        } else if s.len() >= 2 && !is_white_space(s[s.len() - 2]) {
            assert(init.last() == s[s.len() - 2]);
            let q = p.push(c);
            assert(q.drop_last() =~= p);
            assert(q[q.len() - 2] == p.last());
            assert(collapse_whitespace(s) == q);
            assert(collapse_whitespace(q) == collapse_whitespace(p).push(c));
        } else if p.len() == 0 {
            let q = seq![c];
            assert(q.drop_last() =~= Seq::<char>::empty());
            assert(q.last() == c);
            assert(collapse_whitespace(s) == q);
            assert(collapse_whitespace(q) == q);
        } else {
            let q1 = p.push(' ');
            let q = q1.push(c);
            assert(q.drop_last() =~= q1);
            assert(q1.drop_last() =~= p);
            assert(q[q.len() - 2] == ' ');
            assert(is_white_space(' '));
            assert(q1.last() == ' ');
            assert(collapse_whitespace(q1) == p);
            assert(collapse_whitespace(s) == q);
            assert(collapse_whitespace(q) == q);
        }
    }
}

/// Quote hashing ignores how whitespace is laid out: a text and its
/// whitespace-collapsed form have the same quote hash.
pub proof fn law_quote_hash_ignores_whitespace_layout(text: Seq<char>)
    ensures
        quote_hash_of(collapse_whitespace(text)) == quote_hash_of(text),
{
    lemma_collapse_idempotent(text);
}

} // verus!
