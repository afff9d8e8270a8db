//! The extraction corpus: one typed extraction per source key.

use crate::knowledge::ExtractionOutput;
use crate::text::str_eq;
use vstd::prelude::*;

verus! {

/// One source document's extraction, keyed by its corpus-relative path.
#[derive(Debug, Clone)]
pub struct CorpusEntry {
    pub source_key: String,
    pub output: ExtractionOutput,
}

/// The position of the entry keyed `key`, or -1 when there is none.
pub open spec fn key_index(es: Seq<CorpusEntry>, key: Seq<char>) -> int
    decreases es.len(),
{
    if es.len() == 0 {
        -1
    } else if es.last().source_key@ == key {
        es.len() - 1
    } else {
        key_index(es.drop_last(), key)
    }
}

/// No two entries share a source key.
pub open spec fn keys_distinct(es: Seq<CorpusEntry>) -> bool {
    forall|i: int, j: int| 0 <= i < j < es.len() ==> es[i].source_key@ != es[j].source_key@
}

/// The entries kept when `es` are added in order: an entry replaces an
/// earlier one with the same key (in that entry's place), others are added
/// at the end.
pub open spec fn dedup_entries(es: Seq<CorpusEntry>) -> Seq<CorpusEntry>
    decreases es.len(),
{
    if es.len() == 0 {
        seq![]
    } else {
        let p = dedup_entries(es.drop_last());
        let k = key_index(p, es.last().source_key@);
        if k >= 0 {
            p.update(k, es.last())
        } else {
            p.push(es.last())
        }
    }
}

/// The extraction corpus, with at most one entry per source key.
#[derive(Debug)]
pub struct Corpus {
    entries: Vec<CorpusEntry>,
}

/// What [`key_index`] finds: a matching position (the only one when keys
/// are distinct), or -1 exactly when no entry has the key.
pub proof fn lemma_key_index(es: Seq<CorpusEntry>, key: Seq<char>)
    ensures
        -1 <= key_index(es, key) < es.len(),
        key_index(es, key) >= 0 ==> es[key_index(es, key)].source_key@ == key,
        key_index(es, key) < 0 ==> forall|i: int| 0 <= i < es.len() ==> es[i].source_key@ != key,
        keys_distinct(es) ==> forall|i: int| 0 <= i < es.len() && es[i].source_key@ == key ==> key_index(es, key) == i,
    decreases es.len(),
{
    if es.len() > 0 {
        let p = es.drop_last();
        lemma_key_index(p, key);
        assert forall|i: int| 0 <= i < p.len() implies p[i] == es[i] by {}
        if keys_distinct(es) {
            assert(keys_distinct(p));
        }
    }
}

impl Corpus {
    #[verifier::type_invariant]
    spec fn wf(self) -> bool {
        keys_distinct(self.entries@)
    }

    /// The corpus entries.
    pub closed spec fn entry_seq(self) -> Seq<CorpusEntry> {
        self.entries@
    }

    /// Build a corpus from entries; a later entry replaces an earlier one
    /// with the same source key.
    pub fn from_entries(entries: Vec<CorpusEntry>) -> (res: Corpus)
        ensures
            res.entry_seq() == dedup_entries(entries@),
    {
        let ghost input = entries@;
        let mut out: Vec<CorpusEntry> = Vec::new();
        broadcast use vstd::std_specs::vec::axiom_spec_into_iter;
        for e in it: entries.into_iter()
            invariant
                it.seq() == input,
                out@ == dedup_entries(input.take(it.index() as int)),
                keys_distinct(out@),
        {
            let ghost i = it.index() as int;
            let ghost t = input.take(i + 1);
            assert(t.drop_last() =~= input.take(i));
            assert(t.last() == e);
            proof {
                lemma_key_index(out@, e.source_key@);
            }
            let pos = Self::position(&out, e.source_key.as_str());
            match pos {
                Some(k) => {
                    out.set(k, e);
                },
                None => {
                    out.push(e);
                },
            }
        }
        assert(input.take(input.len() as int) =~= input);
        Corpus { entries: out }
    }

    fn position(es: &Vec<CorpusEntry>, key: &str) -> (res: Option<usize>)
        ensures
            match res {
                Some(k) => k == key_index(es@, key@) && k < es@.len(),
                None => key_index(es@, key@) < 0,
            },
    {
        proof {
            lemma_key_index(es@, key@);
        }
        let mut i: usize = es.len();
        assert(es@.take(i as int) =~= es@);
        while i > 0
            invariant
                i <= es@.len(),
                key_index(es@, key@) == key_index(es@.take(i as int), key@),
            decreases i,
        {
            let ghost t = es@.take(i as int);
            assert(t.drop_last() =~= es@.take(i - 1));
            if str_eq(es[i - 1].source_key.as_str(), key) {
                return Some(i - 1);
            }
            i = i - 1;
        }
        None
    }

    /// The entry keyed `source`, if any.
    pub fn get(&self, source: &str) -> (res: Option<&CorpusEntry>)
        ensures
            match res {
                Some(e) => key_index(self.entry_seq(), source@) >= 0 && *e == self.entry_seq()[key_index(
                    self.entry_seq(),
                    source@,
                )],
                None => key_index(self.entry_seq(), source@) < 0,
            },
    {
        match Self::position(&self.entries, source) {
            Some(k) => Some(&self.entries[k]),
            None => None,
        }
    }

    /// The corpus entries.
    pub fn entries(&self) -> (res: &Vec<CorpusEntry>)
        ensures
            res@ == self.entry_seq(),
            keys_distinct(res@),
    {
        proof {
            use_type_invariant(self);
        }
        &self.entries
    }
}

} // verus!
