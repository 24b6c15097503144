//! Tables keyed by name, as sequences of (key, value) entries: lookup, the
//! insertion that replaces an entry of the same key, and their laws.

use vstd::prelude::*;

verus! {

/// The position of the last entry of `t` whose key is `k`.
pub open spec fn find_key<V>(t: Seq<(Seq<char>, V)>, k: Seq<char>) -> Option<int>
    decreases t.len(),
{
    if t.len() == 0 {
        None
    } else if t.last().0 == k {
        Some(t.len() - 1)
    } else {
        find_key(t.drop_last(), k)
    }
}

/// The value stored under `k`.
pub open spec fn value_of<V>(t: Seq<(Seq<char>, V)>, k: Seq<char>) -> Option<V> {
    match find_key(t, k) {
        Some(i) => Some(t[i].1),
        None => None,
    }
}

/// `t` with `v` stored under `k`: the entry of that key is replaced in
/// place, or a new entry is appended.
pub open spec fn upsert<V>(t: Seq<(Seq<char>, V)>, k: Seq<char>, v: V) -> Seq<(Seq<char>, V)> {
    match find_key(t, k) {
        Some(i) => t.update(i, (k, v)),
        None => t.push((k, v)),
    }
}

/// No two entries share a key.
pub open spec fn distinct_keys<V>(t: Seq<(Seq<char>, V)>) -> bool {
    forall|i: int, j: int| 0 <= i < j < t.len() ==> #[trigger] t[i].0 != #[trigger] t[j].0
}

/// The keys of `t`, in order.
pub open spec fn keys<V>(t: Seq<(Seq<char>, V)>) -> Seq<Seq<char>> {
    t.map_values(|e: (Seq<char>, V)| e.0)
}

/// Where `find_key` points: at the last entry of the key, or nowhere when no
/// entry has it.
pub proof fn lemma_find_key<V>(t: Seq<(Seq<char>, V)>, k: Seq<char>)
    ensures
        match find_key(t, k) {
            Some(i) => 0 <= i < t.len() && t[i].0 == k && forall|j: int|
                i < j < t.len() ==> #[trigger] t[j].0 != k,
            None => forall|j: int| 0 <= j < t.len() ==> #[trigger] t[j].0 != k,
        },
    decreases t.len(),
{
    if t.len() > 0 && t.last().0 != k {
        let d = t.drop_last();
        lemma_find_key(d, k);
        match find_key(d, k) {
            Some(i) => {
                assert(t[i] == d[i]);
                assert forall|j: int| i < j < t.len() implies #[trigger] t[j].0 != k by {
                    if j < t.len() - 1 {
                        assert(t[j] == d[j]);
                    }
                }
            },
            None => {
                assert forall|j: int| 0 <= j < t.len() implies #[trigger] t[j].0 != k by {
                    if j < t.len() - 1 {
                        assert(t[j] == d[j]);
                    }
                }
            },
        }
    }
}

/// A search that steps back from position `n` over entries of other keys
/// finds what a search of the whole table finds.
pub proof fn lemma_find_key_prefix<V>(t: Seq<(Seq<char>, V)>, k: Seq<char>, n: int)
    requires
        0 <= n <= t.len(),
        forall|j: int| n <= j < t.len() ==> #[trigger] t[j].0 != k,
    ensures
        find_key(t, k) == find_key(t.subrange(0, n), k),
    decreases t.len() - n,
{
    if n < t.len() {
        assert(t.drop_last() =~= t.subrange(0, t.len() - 1));
        assert(t.drop_last().subrange(0, n) =~= t.subrange(0, n));
        lemma_find_key_prefix(t.drop_last(), k, n);
    } else {
        assert(t.subrange(0, n) =~= t);
    }
}

/// After `upsert`, `k` holds `v` and every other key holds what it held.
pub proof fn lemma_upsert_value<V>(t: Seq<(Seq<char>, V)>, k: Seq<char>, v: V, m: Seq<char>)
    ensures
        value_of(upsert(t, k, v), m) == if m == k {
            Some(v)
        } else {
            value_of(t, m)
        },
    decreases t.len(),
{
    let u = upsert(t, k, v);
    match find_key(t, k) {
        None => {
            assert(u.drop_last() =~= t);
            if m != k {
                match find_key(t, m) {
                    Some(j) => {
                        lemma_find_key(t, m);
                        assert(u[j] == t[j]);
                    },
                    None => {},
                }
            }
        },
        Some(i) => {
            lemma_find_key(t, k);
            let d = t.drop_last();
            if i == t.len() - 1 {
                assert(u.drop_last() =~= d);
                if m != k {
                    match find_key(d, m) {
                        Some(j) => {
                            lemma_find_key(d, m);
                            assert(u[j] == d[j]);
                            assert(t[j] == d[j]);
                        },
                        None => {},
                    }
                }
            } else {
                assert(t.last().0 != k);
                assert(u.last() == t.last());
                assert(u.drop_last() =~= d.update(i, (k, v)));
                assert(find_key(d, k) == Some(i));
                assert(upsert(d, k, v) == d.update(i, (k, v)));
                lemma_upsert_value(d, k, v, m);
                if t.last().0 != m {
                    match find_key(d, m) {
                        Some(j) => {
                            lemma_find_key(d, m);
                            assert(t[j] == d[j]);
                        },
                        None => {},
                    }
                    match find_key(u.drop_last(), m) {
                        Some(j) => {
                            lemma_find_key(u.drop_last(), m);
                            assert(u[j] == u.drop_last()[j]);
                        },
                        None => {},
                    }
                }
            }
        },
    }
}

/// `upsert` keeps the keys distinct, and `k` among them.
pub proof fn lemma_upsert_distinct<V>(t: Seq<(Seq<char>, V)>, k: Seq<char>, v: V)
    requires
        distinct_keys(t),
    ensures
        distinct_keys(upsert(t, k, v)),
        keys(upsert(t, k, v)).contains(k),
{
    let u = upsert(t, k, v);
    lemma_find_key(t, k);
    match find_key(t, k) {
        None => {
            assert forall|i: int, j: int| 0 <= i < j < u.len() implies #[trigger] u[i].0
                != #[trigger] u[j].0 by {
                if j == t.len() {
                    assert(t[i].0 != k);
                }
            }
            assert(keys(u)[u.len() - 1] == k);
        },
        Some(i) => {
            assert forall|a: int, b: int| 0 <= a < b < u.len() implies #[trigger] u[a].0
                != #[trigger] u[b].0 by {
                assert(u[a].0 == t[a].0);
                assert(u[b].0 == t[b].0);
            }
            assert(keys(u)[i] == k);
        },
    }
}

} // verus!
