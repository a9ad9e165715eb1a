//! Key-value pairs in a list, seen as a map.
use vstd::prelude::*;

verus! {

/// The listed pairs as a map; a later pair overrides an earlier one.
pub open spec fn entries_map<K, V>(entries: Seq<(K, V)>) -> Map<K, V>
    decreases entries.len(),
{
    if entries.len() == 0 {
        Map::empty()
    } else {
        entries_map(entries.drop_last()).insert(entries.last().0, entries.last().1)
    }
}

/// No key stands in two pairs.
pub open spec fn distinct_keys<K, V>(entries: Seq<(K, V)>) -> bool {
    forall|i: int, j: int|
        0 <= i < entries.len() && 0 <= j < entries.len() && (#[trigger] entries[i]).0 == (
        #[trigger] entries[j]).0 ==> i == j
}

/// With distinct keys, the map holds exactly the listed pairs.
pub proof fn lemma_entries_map<K, V>(entries: Seq<(K, V)>)
    requires
        distinct_keys(entries),
    ensures
        entries_map(entries).dom().finite(),
        entries_map(entries).dom().len() == entries.len(),
        forall|i: int|
            0 <= i < entries.len() ==> entries_map(entries).dom().contains(
                (#[trigger] entries[i]).0,
            ) && entries_map(entries)[entries[i].0] == entries[i].1,
        forall|k: K| #[trigger]
            entries_map(entries).dom().contains(k) ==> exists|i: int|
                0 <= i < entries.len() && (#[trigger] entries[i]).0 == k,
    decreases entries.len(),
{
    if entries.len() > 0 {
        let front = entries.drop_last();
        let last = entries.last();
        assert(distinct_keys(front)) by {
            assert forall|i: int, j: int|
                0 <= i < front.len() && 0 <= j < front.len() && (#[trigger] front[i]).0 == (
                #[trigger] front[j]).0 implies i == j by {
                assert(front[i] == entries[i] && front[j] == entries[j]);
            }
        }
        lemma_entries_map(front);
        assert(!entries_map(front).dom().contains(last.0)) by {
            if entries_map(front).dom().contains(last.0) {
                let i = choose|i: int| 0 <= i < front.len() && (#[trigger] front[i]).0 == last.0;
                assert(entries[i].0 == entries[entries.len() - 1].0);
            }
        }
        assert forall|i: int| 0 <= i < entries.len() implies entries_map(entries).dom().contains(
            (#[trigger] entries[i]).0,
        ) && entries_map(entries)[entries[i].0] == entries[i].1 by {
            if i < front.len() {
                assert(front[i] == entries[i]);
                assert(entries[i].0 != last.0);
            }
        }
        assert forall|k: K| #[trigger]
            entries_map(entries).dom().contains(k) implies exists|i: int|
            0 <= i < entries.len() && (#[trigger] entries[i]).0 == k by {
            if k == last.0 {
                assert(entries[entries.len() - 1].0 == k);
            } else {
                let i = choose|i: int| 0 <= i < front.len() && (#[trigger] front[i]).0 == k;
                assert(entries[i].0 == k);
            }
        }
    }
}

/// Replacing the value of a listed key changes the map at that key alone.
pub proof fn lemma_replace_entry<K, V>(
    entries: Seq<(K, V)>,
    i: int,
    key: K,
    value: V,
)
    requires
        distinct_keys(entries),
        0 <= i < entries.len(),
        entries[i].0 == key,
    ensures
        distinct_keys(entries.update(i, (key, value))),
        entries_map(entries.update(i, (key, value))) == entries_map(entries).insert(key, value),
{
    let after = entries.update(i, (key, value));
    assert forall|a: int, b: int|
        0 <= a < after.len() && 0 <= b < after.len() && (#[trigger] after[a]).0 == (
        #[trigger] after[b]).0 implies a == b by {
        assert(entries[a].0 == after[a].0 && entries[b].0 == after[b].0);
    }
    lemma_entries_map(entries);
    lemma_entries_map(after);
    let want = entries_map(entries).insert(key, value);
    let got = entries_map(after);
    assert forall|k: K| #[trigger] got.dom().contains(k) == want.dom().contains(k) by {
        if got.dom().contains(k) {
            let a = choose|a: int| 0 <= a < after.len() && (#[trigger] after[a]).0 == k;
            assert(entries[a].0 == k);
        }
        if want.dom().contains(k) {
            if k == key {
                assert(after[i].0 == k);
            } else {
                let a = choose|a: int| 0 <= a < entries.len() && (#[trigger] entries[a]).0 == k;
                assert(after[a].0 == k);
            }
        }
    }
    assert forall|k: K| #[trigger] got.dom().contains(k) implies got[k] == want[k] by {
        let a = choose|a: int| 0 <= a < after.len() && (#[trigger] after[a]).0 == k;
        if a == i {
            assert(after[i].1 == value);
        } else {
            assert(entries[a] == after[a]);
            assert(entries[a].0 != entries[i].0);
        }
    }
    assert(got =~= want);
}

} // verus!
