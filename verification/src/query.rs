//! The decoded query mapping: keys with their value lists, built by
//! folding decoded key-value pairs in encounter order.

use vstd::prelude::*;

use crate::find::{
    contains_str, first_index_of, lemma_first_index_of, lemma_first_index_of_is, str_eq,
};

verus! {

/// The ghost shape of a query mapping: key and value-list pairs with
/// pairwise distinct keys, in the order the keys were first seen.
pub type QueryModel = Seq<(Seq<char>, Seq<Seq<char>>)>;

/// The keys of a query model, in entry order.
pub open spec fn keys_of(q: QueryModel) -> Seq<Seq<char>> {
    q.map_values(|e: (Seq<char>, Seq<Seq<char>>)| e.0)
}

/// Whether the keys of `q` are pairwise distinct.
pub open spec fn distinct_keys(q: QueryModel) -> bool {
    forall|i: int, j: int| 0 <= i < j < q.len() ==> q[i].0 != q[j].0
}

/// One decoded pair folded into the mapping: a repeated key accumulates
/// the value at the end of that key's list, a new key is appended with a
/// one-value list.
pub open spec fn with_pair(q: QueryModel, k: Seq<char>, v: Seq<char>) -> QueryModel {
    if contains_str(keys_of(q), k) {
        let i = first_index_of(keys_of(q), k);
        q.update(i, (k, q[i].1.push(v)))
    } else {
        q.push((k, seq![v]))
    }
}

/// The query mapping decoded from a sequence of key-value pairs, folded
/// in encounter order.
pub open spec fn query_of_pairs(pairs: Seq<(Seq<char>, Seq<char>)>) -> QueryModel
    decreases pairs.len(),
{
    if pairs.len() == 0 {
        Seq::empty()
    } else {
        with_pair(query_of_pairs(pairs.drop_last()), pairs.last().0, pairs.last().1)
    }
}

/// Folding one pair into a mapping with pairwise distinct keys keeps the
/// keys pairwise distinct.
pub proof fn lemma_with_pair_distinct(q: QueryModel, k: Seq<char>, v: Seq<char>)
    requires
        distinct_keys(q),
    ensures
        distinct_keys(with_pair(q, k, v)),
{
    if contains_str(keys_of(q), k) {
        lemma_first_index_of(keys_of(q), k);
        let i = first_index_of(keys_of(q), k);
        assert(keys_of(q)[i] == q[i].0);
        let r = with_pair(q, k, v);
        assert forall|a: int, b: int| 0 <= a < b < r.len() implies r[a].0 != r[b].0 by {
            assert(q[a].0 != q[b].0);
        }
    } else {
        let r = with_pair(q, k, v);
        assert forall|a: int, b: int| 0 <= a < b < r.len() implies r[a].0 != r[b].0 by {
            if b == q.len() {
                if q[a].0 == k {
                    assert(keys_of(q)[a] == q[a].0);
                    assert(contains_str(keys_of(q), k));
                }
            }
        }
    }
}

/// A query mapping decoded from any pair sequence has pairwise distinct
/// keys.
pub proof fn lemma_query_of_pairs_distinct(pairs: Seq<(Seq<char>, Seq<char>)>)
    ensures
        distinct_keys(query_of_pairs(pairs)),
    decreases pairs.len(),
{
    if pairs.len() > 0 {
        lemma_query_of_pairs_distinct(pairs.drop_last());
        lemma_with_pair_distinct(query_of_pairs(pairs.drop_last()), pairs.last().0, pairs.last().1);
    }
}

/// The values carried for key `k` by a pair sequence, in encounter
/// order.
pub open spec fn values_for(pairs: Seq<(Seq<char>, Seq<char>)>, k: Seq<char>) -> Seq<Seq<char>>
    decreases pairs.len(),
{
    if pairs.len() == 0 {
        Seq::empty()
    } else if pairs.last().0 == k {
        values_for(pairs.drop_last(), k).push(pairs.last().1)
    } else {
        values_for(pairs.drop_last(), k)
    }
}

/// Query decoding, stated whole: a key stands in the decoded mapping
/// exactly when some pair carries it, and its entry then holds that
/// key's values, every one of them, in encounter order.
pub proof fn lemma_query_of_pairs_values(pairs: Seq<(Seq<char>, Seq<char>)>, k: Seq<char>)
    ensures
        contains_str(keys_of(query_of_pairs(pairs)), k) <==> values_for(pairs, k).len() > 0,
        contains_str(keys_of(query_of_pairs(pairs)), k) ==> query_of_pairs(
            pairs,
        )[first_index_of(keys_of(query_of_pairs(pairs)), k)].1 == values_for(pairs, k),
    decreases pairs.len(),
{
    if pairs.len() == 0 {
        if contains_str(keys_of(query_of_pairs(pairs)), k) {
            let m = choose|m: int|
                0 <= m < keys_of(query_of_pairs(pairs)).len() && keys_of(query_of_pairs(pairs))[m]
                    == k;
        }
    } else {
        let rest = pairs.drop_last();
        let lk = pairs.last().0;
        let lv = pairs.last().1;
        lemma_query_of_pairs_values(rest, k);
        let q0 = query_of_pairs(rest);
        let q1 = query_of_pairs(pairs);
        assert(q1 == with_pair(q0, lk, lv));
        lemma_first_index_of(keys_of(q0), lk);
        lemma_first_index_of(keys_of(q0), k);
        if contains_str(keys_of(q0), lk) {
            let i = first_index_of(keys_of(q0), lk);
            assert(keys_of(q0)[i] == q0[i].0);
            assert(q1 == q0.update(i, (lk, q0[i].1.push(lv))));
            assert(keys_of(q1) =~= keys_of(q0));
            if lk == k {
                assert(q1[i].1 == values_for(rest, k).push(lv));
                assert(values_for(pairs, k) == values_for(rest, k).push(lv));
                lemma_first_index_of_is(keys_of(q1), k, i);
            } else {
                assert(values_for(pairs, k) == values_for(rest, k));
                if contains_str(keys_of(q0), k) {
                    let f = first_index_of(keys_of(q0), k);
                    assert(q0[f].0 == k);
                    assert(f != i);
                    assert(q1[f] == q0[f]);
                    lemma_first_index_of_is(keys_of(q1), k, f);
                }
            }
        } else {
            assert(q1 == q0.push((lk, seq![lv])));
            assert(keys_of(q1) =~= keys_of(q0).push(lk));
            assert forall|m: int| 0 <= m < q0.len() implies keys_of(q0)[m] != lk by {
                if keys_of(q0)[m] == lk {
                    assert(contains_str(keys_of(q0), lk));
                }
            }
            if lk == k {
                assert(values_for(rest, k).len() == 0);
                assert(values_for(pairs, k) =~= seq![lv]);
                assert(keys_of(q1)[q0.len() as int] == k);
                assert(contains_str(keys_of(q1), k));
                lemma_first_index_of_is(keys_of(q1), k, q0.len() as int);
                assert(q1[q0.len() as int].1 =~= values_for(pairs, k));
            } else {
                assert(values_for(pairs, k) == values_for(rest, k));
                if contains_str(keys_of(q1), k) {
                    let m = choose|m: int|
                        0 <= m < keys_of(q1).len() && keys_of(q1)[m] == k;
                    assert(m < q0.len());
                    assert(keys_of(q0)[m] == k);
                    assert(contains_str(keys_of(q0), k));
                }
                if contains_str(keys_of(q0), k) {
                    let f = first_index_of(keys_of(q0), k);
                    assert(keys_of(q1)[f] == k);
                    assert(contains_str(keys_of(q1), k));
                    lemma_first_index_of_is(keys_of(q1), k, f);
                    assert(q1[f] == q0[f]);
                }
            }
        }
    }
}

/// A decoded query: a mapping from string key to the list of that key's
/// values, in the order the values were seen in the query string.
pub struct Query {
    entries: Vec<(String, Vec<String>)>,
}

impl View for Query {
    type V = QueryModel;

    closed spec fn view(&self) -> QueryModel {
        self.entries.deep_view()
    }
}

/// The position of the first entry whose key equals `key`, if any.
fn find_key(entries: &Vec<(String, Vec<String>)>, key: &str) -> (r: Option<usize>)
    ensures
        match r {
            Some(j) => j < entries.len() && entries.deep_view()[j as int].0 == key@
                && forall|m: int| 0 <= m < j ==> entries.deep_view()[m].0 != key@,
            None => forall|m: int|
                0 <= m < entries.len() ==> entries.deep_view()[m].0 != key@,
        },
{
    let mut j: usize = 0;
    while j < entries.len()
        invariant
            j <= entries.len(),
            forall|m: int| 0 <= m < j ==> entries.deep_view()[m].0 != key@,
        decreases entries.len() - j,
    {
        if str_eq(entries[j].0.as_str(), key) {
            assert(entries.deep_view()[j as int].0 == key@);
            return Some(j);
        }
        assert(entries.deep_view()[j as int].0 != key@);
        j = j + 1;
    }
    None
}

impl Query {
    /// Fold a sequence of decoded key-value pairs into a query mapping,
    /// in encounter order.
    pub fn from_pairs(pairs: Vec<(String, String)>) -> (q: Query)
        ensures
            q@ == query_of_pairs(pairs.deep_view()),
            distinct_keys(q@),
    {
        let mut entries: Vec<(String, Vec<String>)> = Vec::new();
        proof {
            assert(pairs.deep_view().take(0) =~= Seq::<(Seq<char>, Seq<char>)>::empty());
            assert(entries.deep_view() =~= Seq::<(Seq<char>, Seq<Seq<char>>)>::empty());
        }
        let mut i: usize = 0;
        while i < pairs.len()
            invariant
                i <= pairs.len(),
                entries.deep_view() == query_of_pairs(pairs.deep_view().take(i as int)),
            decreases pairs.len() - i,
        {
            let ghost prev = entries.deep_view();
            let key = pairs[i].0.clone();
            let value = pairs[i].1.clone();
            match find_key(&entries, key.as_str()) {
                Some(j) => {
                    proof {
                        assert(keys_of(prev)[j as int] == prev[j as int].0);
                        assert(contains_str(keys_of(prev), key@));
                        assert forall|m: int| 0 <= m < j implies keys_of(prev)[m] != key@ by {
                            assert(keys_of(prev)[m] == prev[m].0);
                        }
                        lemma_first_index_of_is(keys_of(prev), key@, j as int);
                    }
                    entries[j].1.push(value);
                    proof {
                        assert(entries.deep_view() =~~= with_pair(prev, key@, value@));
                    }
                }
                None => {
                    let mut values: Vec<String> = Vec::new();
                    values.push(value);
                    entries.push((key, values));
                    proof {
                        if contains_str(keys_of(prev), key@) {
                            let m = choose|m: int|
                                0 <= m < keys_of(prev).len() && keys_of(prev)[m] == key@;
                            assert(prev[m].0 == key@);
                        }
                        assert(entries.deep_view() =~~= with_pair(prev, key@, value@));
                    }
                }
            }
            proof {
                let pv = pairs.deep_view();
                assert(pv.take(i + 1).drop_last() =~= pv.take(i as int));
                assert(pv.take(i + 1).last() == pv[i as int]);
            }
            i = i + 1;
        }
        proof {
            assert(pairs.deep_view().take(pairs.len() as int) =~= pairs.deep_view());
            lemma_query_of_pairs_distinct(pairs.deep_view());
        }
        Query { entries }
    }

    /// The entries of the mapping: each key with its values, keys in the
    /// order they were first seen.
    pub fn entries(&self) -> (r: &Vec<(String, Vec<String>)>)
        ensures
            r.deep_view() == self@,
    {
        &self.entries
    }

    /// The number of distinct keys in the mapping.
    pub fn len(&self) -> (n: usize)
        ensures
            n == self@.len(),
    {
        self.entries.len()
    }

    /// The values recorded for `key`, in encounter order, if the key
    /// occurred in the query string.
    pub fn get(&self, key: &str) -> (r: Option<&Vec<String>>)
        ensures
            match r {
                Some(values) => contains_str(keys_of(self@), key@) && values.deep_view()
                    == self@[first_index_of(keys_of(self@), key@)].1,
                None => !contains_str(keys_of(self@), key@),
            },
    {
        match find_key(&self.entries, key) {
            Some(j) => {
                proof {
                    assert forall|m: int| 0 <= m < j implies keys_of(self@)[m] != key@ by {
                        assert(keys_of(self@)[m] == self@[m].0);
                    }
                    assert(keys_of(self@)[j as int] == self@[j as int].0);
                    lemma_first_index_of_is(keys_of(self@), key@, j as int);
                }
                Some(&self.entries[j].1)
            },
            None => {
                proof {
                    if contains_str(keys_of(self@), key@) {
                        let m = choose|m: int|
                            0 <= m < keys_of(self@).len() && keys_of(self@)[m] == key@;
                        assert(self@[m].0 == key@);
                    }
                }
                None
            },
        }
    }
}

} // verus!
