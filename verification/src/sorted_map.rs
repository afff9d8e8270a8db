//! A map from text keys, held as its entries in ascending key order with
//! each key once: the order in which a `BTreeMap<String, V>` is walked, and
//! so the order its JSON form lists the members in.

use crate::source_path::{lemma_text_lt_total, lemma_text_lt_trans, text_less, text_lt};
use crate::text::str_eq;
use vstd::prelude::*;

verus! {

/// Entries whose keys ascend strictly, so that no key occurs twice.
pub open spec fn keys_ascending<V>(es: Seq<(String, V)>) -> bool {
    forall|i: int, j: int| 0 <= i < j < es.len() ==> text_lt(es[i].0@, es[j].0@)
}

/// The entries after setting `key` to `value`: an entry with that key is
/// replaced, else the new entry goes in before the first greater key.
pub open spec fn insert_entry<V>(es: Seq<(String, V)>, key: String, value: V) -> Seq<(String, V)>
    decreases es.len(),
{
    if es.len() == 0 {
        seq![(key, value)]
    } else if text_lt(key@, es[0].0@) {
        seq![(key, value)] + es
    } else if es[0].0@ == key@ {
        seq![(key, value)] + es.drop_first()
    } else {
        seq![es[0]] + insert_entry(es.drop_first(), key, value)
    }
}

/// The entries after setting each of `items` in turn.
pub open spec fn insert_all<V>(es: Seq<(String, V)>, items: Seq<(String, V)>) -> Seq<(String, V)>
    decreases items.len(),
{
    if items.len() == 0 {
        es
    } else {
        let p = insert_all(es, items.drop_last());
        insert_entry(p, items.last().0, items.last().1)
    }
}

proof fn lemma_insert_entry_at<V>(es: Seq<(String, V)>, key: String, value: V, p: int)
    requires
        keys_ascending(es),
        0 <= p <= es.len(),
        forall|j: int| 0 <= j < p ==> text_lt(#[trigger] es[j].0@, key@),
        p < es.len() ==> !text_lt(es[p].0@, key@),
    ensures
        insert_entry(es, key, value) == if p < es.len() && es[p].0@ == key@ {
            es.take(p) + seq![(key, value)] + es.skip(p + 1)
        } else {
            es.take(p) + seq![(key, value)] + es.skip(p)
        },
    decreases p,
{
    if p == 0 {
        if es.len() > 0 {
            lemma_text_lt_total(key@, es[0].0@);
            assert(es.skip(1) =~= es.drop_first());
        }
        assert(es.skip(0) =~= es);
        assert(es.take(0) =~= Seq::<(String, V)>::empty());
    } else {
        let r = es.drop_first();
        assert(text_lt(es[0].0@, key@));
        lemma_text_lt_total(key@, es[0].0@);
        assert forall|j: int| 0 <= j < p - 1 implies text_lt(#[trigger] r[j].0@, key@) by {
            assert(r[j] == es[j + 1]);
        }
        assert forall|i: int, j: int| 0 <= i < j < r.len() implies text_lt(r[i].0@, r[j].0@) by {
            assert(r[i] == es[i + 1] && r[j] == es[j + 1]);
        }
        lemma_insert_entry_at(r, key, value, p - 1);
        if p < es.len() && es[p].0@ == key@ {
            assert(es.take(p) + seq![(key, value)] + es.skip(p + 1) =~= seq![es[0]] + (r.take(p - 1) + seq![
                (key, value),
            ] + r.skip(p)));
        } else {
            assert(es.take(p) + seq![(key, value)] + es.skip(p) =~= seq![es[0]] + (r.take(p - 1) + seq![
                (key, value),
            ] + r.skip(p - 1)));
        }
    }
}

/// A map from text keys whose entries are kept in ascending key order.
#[derive(Debug, PartialEq, Eq)]
pub struct SortedMap<V> {
    entries: Vec<(String, V)>,
}

impl<V> View for SortedMap<V> {
    type V = Seq<(String, V)>;

    closed spec fn view(&self) -> Seq<(String, V)> {
        self.entries@
    }
}

impl<V> SortedMap<V> {
    #[verifier::type_invariant]
    spec fn wf(self) -> bool {
        keys_ascending(self.entries@)
    }

    /// The empty map.
    pub fn new() -> (res: Self)
        ensures
            res@ == Seq::<(String, V)>::empty(),
    {
        SortedMap { entries: Vec::new() }
    }

    /// The entries, in ascending key order.
    pub fn entries(&self) -> (res: &Vec<(String, V)>)
        ensures
            res@ == self@,
            keys_ascending(self@),
    {
        proof {
            use_type_invariant(self);
        }
        &self.entries
    }

    /// The entries, in ascending key order, taken out of the map.
    pub fn into_entries(self) -> (res: Vec<(String, V)>)
        ensures
            res@ == self@,
            keys_ascending(res@),
    {
        proof {
            use_type_invariant(&self);
        }
        self.entries
    }

    /// The number of entries.
    pub fn len(&self) -> (res: usize)
        ensures
            res == self@.len(),
    {
        self.entries.len()
    }

    /// Set `key` to `value`, replacing the value it had.
    pub fn insert(&mut self, key: String, value: V)
        ensures
            final(self)@ == insert_entry(old(self)@, key, value),
            keys_ascending(final(self)@),
    {
        proof {
            use_type_invariant(&*self);
        }
        let mut entries: Vec<(String, V)> = Vec::new();
        std::mem::swap(&mut self.entries, &mut entries);
        let ghost es = entries@;
        let n = entries.len();
        let mut p: usize = 0;
        while p < n && text_less(entries[p].0.as_str(), key.as_str())
            invariant
                n == es.len(),
                es == entries@,
                p <= n,
                forall|j: int| 0 <= j < p ==> text_lt(#[trigger] es[j].0@, key@),
            decreases n - p,
        {
            p = p + 1;
        }
        proof {
            lemma_insert_entry_at(es, key, value, p as int);
        }
        let ghost kv = (key, value);
        if p < n && str_eq(entries[p].0.as_str(), key.as_str()) {
            entries.set(p, (key, value));
            proof {
                assert(entries@ =~= es.take(p as int) + seq![kv] + es.skip(p + 1));
                assert forall|i: int, j: int| 0 <= i < j < entries@.len() implies text_lt(
                    entries@[i].0@,
                    entries@[j].0@,
                ) by {
                    if i == p {
                        assert(text_lt(es[i].0@, es[j].0@));
                    } else if j == p {
                        assert(text_lt(es[i].0@, key@));
                    } else {
                        assert(text_lt(es[i].0@, es[j].0@));
                    }
                }
            }
        } else {
            entries.insert(p, (key, value));
            proof {
                if p < n {
                    lemma_text_lt_total(key@, es[p as int].0@);
                }
                assert(entries@ =~= es.take(p as int) + seq![kv] + es.skip(p as int));
                assert forall|i: int, j: int| 0 <= i < j < entries@.len() implies text_lt(
                    entries@[i].0@,
                    entries@[j].0@,
                ) by {
                    if j < p {
                        assert(text_lt(es[i].0@, es[j].0@));
                    } else if i < p && j == p {
                        assert(text_lt(es[i].0@, key@));
                    } else if i < p && j > p {
                        assert(text_lt(es[i].0@, es[j - 1].0@));
                    } else if i == p {
                        if j - 1 > p {
                            assert(text_lt(es[p as int].0@, es[j - 1].0@));
                            lemma_text_lt_trans(key@, es[p as int].0@, es[j - 1].0@);
                        }
                    } else {
                        assert(text_lt(es[i - 1].0@, es[j - 1].0@));
                    }
                }
            }
        }
        self.entries = entries;
    }

    /// The map holding `items`, set in turn: a later item replaces an
    /// earlier one with the same key.
    pub fn from_entries(items: Vec<(String, V)>) -> (res: Self)
        ensures
            res@ == insert_all(Seq::<(String, V)>::empty(), items@),
            keys_ascending(res@),
    {
        let ghost input = items@;
        let mut m = SortedMap::new();
        broadcast use vstd::std_specs::vec::axiom_spec_into_iter;
        for e in it: items.into_iter()
            invariant
                it.seq() == input,
                m@ == insert_all(Seq::<(String, V)>::empty(), input.take(it.index() as int)),
        {
            let ghost i = it.index() as int;
            let ghost t = input.take(i + 1);
            assert(t.drop_last() =~= input.take(i));
            assert(t.last() == e);
            let (k, v) = e;
            m.insert(k, v);
        }
        assert(input.take(input.len() as int) =~= input);
        proof {
            use_type_invariant(&m);
        }
        m
    }
}

impl<V: Clone> Clone for SortedMap<V> {
    fn clone(&self) -> (res: Self) {
        proof {
            use_type_invariant(self);
        }
        let mut out: Vec<(String, V)> = Vec::new();
        let n = self.entries.len();
        let mut i: usize = 0;
        while i < n
            invariant
                n == self.entries@.len(),
                i <= n,
                keys_ascending(self.entries@),
                out@.len() == i,
                forall|j: int| 0 <= j < i ==> (#[trigger] out@[j]).0@ == self.entries@[j].0@,
            decreases n - i,
        {
            let (k, v) = &self.entries[i];
            out.push((k.clone(), v.clone()));
            i = i + 1;
        }
        SortedMap { entries: out }
    }
}

} // verus!
