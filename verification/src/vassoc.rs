//! Association sequences keyed by plain values (keys compared by value, not
//! by view), used for the date-keyed daily tables.

use vstd::prelude::*;

verus! {

/// Looks a key up in an association sequence; `None` when absent.
pub open spec fn vseq_get<K, V>(s: Seq<(K, V)>, k: K) -> Option<V>
    decreases s.len(),
{
    if s.len() == 0 {
        None
    } else if s[0].0 == k {
        Some(s[0].1)
    } else {
        vseq_get(s.drop_first(), k)
    }
}

/// No two entries share a key.
pub open spec fn vseq_keys_distinct<K, V>(s: Seq<(K, V)>) -> bool {
    forall|i: int, j: int| 0 <= i < j < s.len() ==> s[i].0 != s[j].0
}

/// Distinctness passes to the tail of the sequence.
pub proof fn vlemma_distinct_drop_first<K, V>(s: Seq<(K, V)>)
    requires
        vseq_keys_distinct(s),
        s.len() > 0,
    ensures
        vseq_keys_distinct(s.drop_first()),
{
    assert forall|a: int, b: int| 0 <= a < b < s.drop_first().len()
        implies s.drop_first()[a].0 != s.drop_first()[b].0 by {
        assert(s.drop_first()[a] == s[a + 1]);
        assert(s.drop_first()[b] == s[b + 1]);
    }
}

/// In a distinct sequence, the entry at `i` is what lookup finds.
pub proof fn vlemma_seq_get_at<K, V>(s: Seq<(K, V)>, i: int)
    requires
        vseq_keys_distinct(s),
        0 <= i < s.len(),
    ensures
        vseq_get(s, s[i].0) == Some(s[i].1),
    decreases s.len(),
{
    if i > 0 {
        assert(s[0].0 != s[i].0);
        assert(s.drop_first()[i - 1] == s[i]);
        vlemma_distinct_drop_first(s);
        vlemma_seq_get_at(s.drop_first(), i - 1);
    }
}

/// If no entry carries `k`, lookup misses.
pub proof fn vlemma_seq_get_absent<K, V>(s: Seq<(K, V)>, k: K)
    requires
        forall|j: int| 0 <= j < s.len() ==> s[j].0 != k,
    ensures
        vseq_get(s, k) is None,
    decreases s.len(),
{
    if s.len() > 0 {
        assert forall|j: int| 0 <= j < s.drop_first().len() implies s.drop_first()[j].0 != k by {
            assert(s.drop_first()[j] == s[j + 1]);
        }
        vlemma_seq_get_absent(s.drop_first(), k);
    }
}

/// Appending an entry resolves lookups that missed before, and no other.
pub proof fn vlemma_seq_get_push<K, V>(s: Seq<(K, V)>, e: (K, V), k: K)
    ensures
        vseq_get(s.push(e), k) == if vseq_get(s, k) is Some {
            vseq_get(s, k)
        } else if e.0 == k {
            Some(e.1)
        } else {
            None::<V>
        },
    decreases s.len(),
{
    if s.len() == 0 {
        assert(s.push(e)[0] == e);
        assert(s.push(e).drop_first() =~= s);
    } else {
        assert(s.push(e)[0] == s[0]);
        assert(s.push(e).drop_first() =~= s.drop_first().push(e));
        vlemma_seq_get_push(s.drop_first(), e, k);
    }
}

/// Rewriting the value at `i` changes lookup only for that entry's key.
pub proof fn vlemma_seq_get_update<K, V>(s: Seq<(K, V)>, i: int, v: V, k: K)
    requires
        vseq_keys_distinct(s),
        0 <= i < s.len(),
    ensures
        vseq_get(s.update(i, (s[i].0, v)), k) == if s[i].0 == k {
            Some(v)
        } else {
            vseq_get(s, k)
        },
    decreases s.len(),
{
    let t = s.update(i, (s[i].0, v));
    if i == 0 {
        assert(t[0] == (s[0].0, v));
        assert(t.drop_first() =~= s.drop_first());
    } else {
        assert(t[0] == s[0]);
        assert(t.drop_first() =~= s.drop_first().update(i - 1, (s[i].0, v)));
        assert(s.drop_first()[i - 1] == s[i]);
        vlemma_distinct_drop_first(s);
        vlemma_seq_get_update(s.drop_first(), i - 1, v, k);
        if s[0].0 == k {
            vlemma_seq_get_at(s, 0);
        }
    }
}

/// Removing the entry at `i` erases its key and leaves every other lookup.
pub proof fn vlemma_seq_get_remove<K, V>(s: Seq<(K, V)>, i: int, k: K)
    requires
        vseq_keys_distinct(s),
        0 <= i < s.len(),
    ensures
        vseq_keys_distinct(s.remove(i)),
        vseq_get(s.remove(i), k) == if s[i].0 == k {
            None::<V>
        } else {
            vseq_get(s, k)
        },
    decreases s.len(),
{
    let t = s.remove(i);
    assert forall|a: int, b: int| 0 <= a < b < t.len() implies t[a].0 != t[b].0 by {
        assert(t[a] == if a < i { s[a] } else { s[a + 1] });
        assert(t[b] == if b < i { s[b] } else { s[b + 1] });
    }
    if i == 0 {
        assert(t =~= s.drop_first());
        if s[0].0 == k {
            assert forall|j: int| 0 <= j < t.len() implies t[j].0 != k by {
                assert(t[j] == s[j + 1]);
            }
            vlemma_seq_get_absent(t, k);
        }
    } else {
        assert(t[0] == s[0]);
        assert(t.drop_first() =~= s.drop_first().remove(i - 1));
        assert(s.drop_first()[i - 1] == s[i]);
        vlemma_distinct_drop_first(s);
        vlemma_seq_get_remove(s.drop_first(), i - 1, k);
        if s[0].0 == k {
            vlemma_seq_get_at(s, 0);
        }
    }
}

} // verus!
