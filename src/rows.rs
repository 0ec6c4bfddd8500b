//! Tables as sequences of rows with unique keys, read as maps from key to row.

use vstd::prelude::*;

use crate::ids::Id;

verus! {

/// The map from each key to the row that holds it; `keys[i]` is the key of `vals[i]`.
pub open spec fn by_key<V>(keys: Seq<Id>, vals: Seq<V>) -> Map<Id, V> {
    Map::new(|k: Id| keys.contains(k), |k: Id| vals[keys.index_of(k)])
}

/// A key held at position `i` of a duplicate-free key column maps to the row at `i`.
pub proof fn lemma_by_key_at<V>(keys: Seq<Id>, vals: Seq<V>, i: int)
    requires
        keys.no_duplicates(),
        keys.len() == vals.len(),
        0 <= i < keys.len(),
    ensures
        by_key(keys, vals).contains_key(keys[i]),
        by_key(keys, vals)[keys[i]] == vals[i],
{
    assert(keys.contains(keys[i]));
    let j = keys.index_of(keys[i]);
    assert(0 <= j < keys.len() && keys[j] == keys[i]);
}

/// Appending a row under a new key inserts it into the map.
pub proof fn lemma_by_key_push<V>(keys: Seq<Id>, vals: Seq<V>, k: Id, v: V)
    requires
        keys.no_duplicates(),
        keys.len() == vals.len(),
        !keys.contains(k),
    ensures
        keys.push(k).no_duplicates(),
        forall|q: Id| #[trigger] keys.push(k).contains(q) <==> keys.contains(q) || q == k,
        by_key(keys.push(k), vals.push(v)) == by_key(keys, vals).insert(k, v),
{
    let nk = keys.push(k);
    let nv = vals.push(v);
    assert forall|i: int, j: int|
        0 <= i < nk.len() && 0 <= j < nk.len() && i != j implies nk[i] != nk[j] by {
        if i == keys.len() {
            assert(keys.contains(nk[j]));
        } else if j == keys.len() {
            assert(keys.contains(nk[i]));
        }
    }
    assert forall|q: Id| #[trigger] nk.contains(q) <==> keys.contains(q) || q == k by {
        if nk.contains(q) {
            let i = choose|i: int| 0 <= i < nk.len() && nk[i] == q;
            if i < keys.len() {
                assert(keys[i] == q);
            }
        }
        if keys.contains(q) {
            let i = choose|i: int| 0 <= i < keys.len() && keys[i] == q;
            assert(nk[i] == q);
        }
        if q == k {
            assert(nk[keys.len() as int] == q);
        }
    }
    assert forall|q: Id| #[trigger] nk.contains(q) implies by_key(nk, nv)[q] == by_key(
        keys,
        vals,
    ).insert(k, v)[q] by {
        let i = nk.index_of(q);
        if q == k {
            lemma_by_key_at(nk, nv, keys.len() as int);
        } else {
            let j = keys.index_of(q);
            assert(nk[j] == q);
            lemma_by_key_at(nk, nv, j);
        }
    }
    assert(by_key(nk, nv) =~= by_key(keys, vals).insert(k, v));
}

/// Replacing the row at position `i` replaces the row that its key maps to.
pub proof fn lemma_by_key_update<V>(keys: Seq<Id>, vals: Seq<V>, i: int, v: V)
    requires
        keys.no_duplicates(),
        keys.len() == vals.len(),
        0 <= i < keys.len(),
    ensures
        by_key(keys, vals.update(i, v)) == by_key(keys, vals).insert(keys[i], v),
{
    let nv = vals.update(i, v);
    assert(keys.contains(keys[i]));
    assert forall|q: Id| #[trigger] keys.contains(q) implies by_key(keys, nv)[q] == by_key(
        keys,
        vals,
    ).insert(keys[i], v)[q] by {
        let j = keys.index_of(q);
        lemma_by_key_at(keys, nv, j);
        lemma_by_key_at(keys, vals, j);
    }
    assert(by_key(keys, nv) =~= by_key(keys, vals).insert(keys[i], v));
}

/// Removing the row at position `i` removes its key from the map.
pub proof fn lemma_by_key_remove<V>(keys: Seq<Id>, vals: Seq<V>, i: int)
    requires
        keys.no_duplicates(),
        keys.len() == vals.len(),
        0 <= i < keys.len(),
    ensures
        keys.remove(i).no_duplicates(),
        forall|q: Id| #[trigger] keys.remove(i).contains(q) <==> keys.contains(q) && q != keys[i],
        by_key(keys.remove(i), vals.remove(i)) == by_key(keys, vals).remove(keys[i]),
{
    let nk = keys.remove(i);
    let nv = vals.remove(i);
    assert forall|a: int| 0 <= a < nk.len() implies #[trigger] nk[a] == keys[if a < i {
        a
    } else {
        a + 1
    }] && nv[a] == vals[if a < i {
        a
    } else {
        a + 1
    }] by {}
    assert forall|a: int, b: int|
        0 <= a < nk.len() && 0 <= b < nk.len() && a != b implies nk[a] != nk[b] by {
        let a1 = if a < i { a } else { a + 1 };
        let b1 = if b < i { b } else { b + 1 };
        assert(nk[a] == keys[a1] && nk[b] == keys[b1]);
    }
    assert forall|q: Id| #[trigger] nk.contains(q) <==> keys.contains(q) && q != keys[i] by {
        if nk.contains(q) {
            let a = choose|a: int| 0 <= a < nk.len() && nk[a] == q;
            let a1 = if a < i { a } else { a + 1 };
            assert(keys[a1] == q);
        }
        if keys.contains(q) && q != keys[i] {
            let a1 = choose|a: int| 0 <= a < keys.len() && keys[a] == q;
            let a = if a1 < i { a1 } else { a1 - 1 };
            assert(nk[a] == q);
        }
    }
    assert forall|q: Id| #[trigger] nk.contains(q) implies by_key(nk, nv)[q] == by_key(
        keys,
        vals,
    ).remove(keys[i])[q] by {
        let a = nk.index_of(q);
        let a1 = if a < i { a } else { a + 1 };
        lemma_by_key_at(nk, nv, a);
        lemma_by_key_at(keys, vals, a1);
    }
    assert(by_key(nk, nv) =~= by_key(keys, vals).remove(keys[i]));
}

} // verus!
