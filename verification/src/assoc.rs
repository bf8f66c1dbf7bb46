//! Association sequences: `(String, V)` pairs with pairwise-distinct keys.
//!
//! Every string-keyed table of the library (counters, per-app stats, per-display
//! heatmaps) is stored this way; these spec functions and lemmas describe lookup
//! and how it behaves under push and update.

use vstd::prelude::*;

verus! {

/// Looks a key up in an association sequence; `None` when absent.
pub open spec fn seq_get<V>(s: Seq<(String, V)>, k: Seq<char>) -> Option<V>
    decreases s.len(),
{
    if s.len() == 0 {
        None
    } else if s[0].0@ == k {
        Some(s[0].1)
    } else {
        seq_get(s.drop_first(), k)
    }
}

/// No two entries share a key.
pub open spec fn seq_keys_distinct<V>(s: Seq<(String, V)>) -> bool {
    forall|i: int, j: int| 0 <= i < j < s.len() ==> s[i].0@ != s[j].0@
}

/// Distinctness passes to the tail of the sequence.
pub proof fn lemma_distinct_drop_first<V>(s: Seq<(String, V)>)
    requires
        seq_keys_distinct(s),
        s.len() > 0,
    ensures
        seq_keys_distinct(s.drop_first()),
{
    assert forall|a: int, b: int| 0 <= a < b < s.drop_first().len()
        implies s.drop_first()[a].0@ != s.drop_first()[b].0@ by {
        assert(s.drop_first()[a] == s[a + 1]);
        assert(s.drop_first()[b] == s[b + 1]);
    }
}

/// In a distinct sequence, the entry at `i` is what lookup finds.
pub proof fn lemma_seq_get_at<V>(s: Seq<(String, V)>, i: int)
    requires
        seq_keys_distinct(s),
        0 <= i < s.len(),
    ensures
        seq_get(s, s[i].0@) == Some(s[i].1),
    decreases s.len(),
{
    if i > 0 {
        assert(s[0].0@ != s[i].0@);
        assert(s.drop_first()[i - 1] == s[i]);
        lemma_distinct_drop_first(s);
        lemma_seq_get_at(s.drop_first(), i - 1);
    }
}

/// If no entry carries `k`, lookup misses.
pub proof fn lemma_seq_get_absent<V>(s: Seq<(String, V)>, k: Seq<char>)
    requires
        forall|j: int| 0 <= j < s.len() ==> s[j].0@ != k,
    ensures
        seq_get(s, k) is None,
    decreases s.len(),
{
    if s.len() > 0 {
        assert forall|j: int| 0 <= j < s.drop_first().len() implies s.drop_first()[j].0@ != k by {
            assert(s.drop_first()[j] == s[j + 1]);
        }
        lemma_seq_get_absent(s.drop_first(), k);
    }
}

/// In a distinct sequence a missed lookup means no entry carries the key.
pub proof fn lemma_absent_of_none<V>(s: Seq<(String, V)>, k: Seq<char>)
    requires
        seq_keys_distinct(s),
        seq_get(s, k) is None,
    ensures
        forall|j: int| 0 <= j < s.len() ==> s[j].0@ != k,
{
    assert forall|j: int| 0 <= j < s.len() implies s[j].0@ != k by {
        if s[j].0@ == k {
            lemma_seq_get_at(s, j);
        }
    }
}

/// Appending an entry resolves lookups that missed before, and no other.
pub proof fn lemma_seq_get_push<V>(s: Seq<(String, V)>, e: (String, V), k: Seq<char>)
    ensures
        seq_get(s.push(e), k) == if seq_get(s, k) is Some {
            seq_get(s, k)
        } else if e.0@ == k {
            Some(e.1)
        } else {
            None::<V>
        },
    decreases s.len(),
{
    if s.len() == 0 {
        assert(s.push(e)[0] == e);
        assert(s.push(e).drop_first() =~= s);
    } else {
        assert(s.push(e)[0] == s[0]);
        assert(s.push(e).drop_first() =~= s.drop_first().push(e));
        lemma_seq_get_push(s.drop_first(), e, k);
    }
}

/// Rewriting the value at `i` changes lookup only for that entry's key.
pub proof fn lemma_seq_get_update<V>(s: Seq<(String, V)>, i: int, v: V, k: Seq<char>)
    requires
        seq_keys_distinct(s),
        0 <= i < s.len(),
    ensures
        seq_get(s.update(i, (s[i].0, v)), k) == if s[i].0@ == k {
            Some(v)
        } else {
            seq_get(s, k)
        },
    decreases s.len(),
{
    let t = s.update(i, (s[i].0, v));
    if i == 0 {
        assert(t[0] == (s[0].0, v));
        assert(t.drop_first() =~= s.drop_first());
    } else {
        assert(t[0] == s[0]);
        assert(t.drop_first() =~= s.drop_first().update(i - 1, (s[i].0, v)));
        assert(s.drop_first()[i - 1] == s[i]);
        lemma_distinct_drop_first(s);
        lemma_seq_get_update(s.drop_first(), i - 1, v, k);
        if s[0].0@ == k {
            lemma_seq_get_at(s, 0);
        }
    }
}

/// Lookup only reads key views and values: two sequences that agree on those
/// agree on every lookup.
pub proof fn lemma_seq_get_congruent<V>(s: Seq<(String, V)>, t: Seq<(String, V)>)
    requires
        s.len() == t.len(),
        forall|i: int| 0 <= i < s.len() ==> s[i].0@ == t[i].0@ && s[i].1 == t[i].1,
    ensures
        forall|k: Seq<char>| seq_get(s, k) == seq_get(t, k),
    decreases s.len(),
{
    if s.len() > 0 {
        assert forall|i: int| 0 <= i < s.drop_first().len() implies s.drop_first()[i].0@
            == t.drop_first()[i].0@ && s.drop_first()[i].1 == t.drop_first()[i].1 by {
            assert(s.drop_first()[i] == s[i + 1]);
            assert(t.drop_first()[i] == t[i + 1]);
        }
        lemma_seq_get_congruent(s.drop_first(), t.drop_first());
        assert forall|k: Seq<char>| true implies seq_get(s, k) == seq_get(t, k) by {
            assert(seq_get(s.drop_first(), k) == seq_get(t.drop_first(), k));
        }
    }
}

/// Removing the entry at `i` erases its key and leaves every other lookup.
pub proof fn lemma_seq_get_remove<V>(s: Seq<(String, V)>, i: int, k: Seq<char>)
    requires
        seq_keys_distinct(s),
        0 <= i < s.len(),
    ensures
        seq_keys_distinct(s.remove(i)),
        seq_get(s.remove(i), k) == if s[i].0@ == k {
            None::<V>
        } else {
            seq_get(s, k)
        },
    decreases s.len(),
{
    let t = s.remove(i);
    assert forall|a: int, b: int| 0 <= a < b < t.len() implies t[a].0@ != t[b].0@ by {
        assert(t[a] == if a < i { s[a] } else { s[a + 1] });
        assert(t[b] == if b < i { s[b] } else { s[b + 1] });
    }
    if i == 0 {
        assert(t =~= s.drop_first());
        if s[0].0@ == k {
            assert forall|j: int| 0 <= j < t.len() implies t[j].0@ != k by {
                assert(t[j] == s[j + 1]);
            }
            lemma_seq_get_absent(t, k);
        }
    } else {
        assert(t[0] == s[0]);
        assert(t.drop_first() =~= s.drop_first().remove(i - 1));
        assert(s.drop_first()[i - 1] == s[i]);
        lemma_distinct_drop_first(s);
        lemma_seq_get_remove(s.drop_first(), i - 1, k);
        if s[0].0@ == k {
            lemma_seq_get_at(s, 0);
        }
    }
}

} // verus!
