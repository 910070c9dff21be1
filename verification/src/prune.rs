use vstd::prelude::*;

verus! {

/// How many dated images a run keeps on disk; older ones are pruned.
pub const RETENTION_COUNT: usize = 7;

/// One directory entry as the pruner sees it: the caller's handle for the
/// file (an index into the caller's own listing) and its last-modified time
/// in seconds, where it could be read.
#[derive(Clone, Copy, Debug)]
pub struct PruneEntry {
    pub id: usize,
    pub modified: Option<u64>,
}

/// The sort key of an entry: its modification time, with an unreadable time
/// counting as older than every readable one, so that such files are pruned
/// first.
pub open spec fn spec_mod_key(e: PruneEntry) -> int {
    match e.modified {
        Some(t) => t as int,
        None => -1,
    }
}

/// Newest first: every earlier entry's key is at least every later one's.
pub open spec fn spec_sorted_newest_first(s: Seq<PruneEntry>) -> bool {
    forall|i: int, j: int| 0 <= i < j < s.len() ==> spec_mod_key(s[i]) >= spec_mod_key(s[j])
}

fn key_gt(a: &PruneEntry, b: &PruneEntry) -> (r: bool)
    ensures
        r == (spec_mod_key(*a) > spec_mod_key(*b)),
{
    match (a.modified, b.modified) {
        (Some(x), Some(y)) => x > y,
        (Some(_), None) => true,
        (None, _) => false,
    }
}

/// Reorders `entries` newest first (selection sort; ties and unreadable
/// times as `spec_mod_key` ranks them), keeping exactly the given entries.
fn sort_newest_first(entries: &mut Vec<PruneEntry>)
    ensures
        final(entries)@.to_multiset() == old(entries)@.to_multiset(),
        final(entries)@.len() == old(entries)@.len(),
        spec_sorted_newest_first(final(entries)@),
{
    broadcast use vstd::multiset::group_multiset_axioms;

    let mut i: usize = 0;
    while i < entries.len()
        invariant
            i <= entries@.len(),
            entries@.len() == old(entries)@.len(),
            entries@.to_multiset() == old(entries)@.to_multiset(),
            forall|p: int, q: int|
                0 <= p < q < i ==> spec_mod_key(entries@[p]) >= spec_mod_key(entries@[q]),
            forall|p: int, q: int|
                0 <= p < i && i <= q < entries@.len() ==> spec_mod_key(entries@[p])
                    >= spec_mod_key(entries@[q]),
        decreases entries@.len() - i,
    {
        let mut m: usize = i;
        let mut j: usize = i + 1;
        while j < entries.len()
            invariant
                i <= m < j,
                j <= entries@.len(),
                i < entries@.len(),
                forall|q: int| i <= q < j ==> spec_mod_key(entries@[m as int]) >= spec_mod_key(
                    entries@[q],
                ),
            decreases entries@.len() - j,
        {
            if key_gt(&entries[j], &entries[m]) {
                m = j;
            }
            j += 1;
        }
        let ei = entries[i];
        let em = entries[m];
        let ghost before = entries@;
        entries[i] = em;
        entries[m] = ei;
        proof {
            let s1 = before.update(i as int, em);
            assert(before[i as int] == ei);
            vstd::seq_lib::to_multiset_update(before, i as int, em);
            vstd::seq_lib::to_multiset_update(s1, m as int, ei);
            assert(s1.to_multiset() == before.to_multiset().insert(em).remove(ei));
            assert(s1[m as int] == em);
            assert(entries@ =~= s1.update(m as int, ei));
            assert(entries@.to_multiset() == s1.to_multiset().insert(ei).remove(em));
            assert(before.contains(ei));
            vstd::seq_lib::to_multiset_contains(before, ei);
            assert(before.to_multiset().count(ei) > 0);
            assert(entries@.to_multiset() =~= before.to_multiset());
        }
        i += 1;
    }
}

/// What pruning will do: the entries to keep and the entries to delete.
pub struct PrunePlan {
    /// The `keep_count` most recently modified entries (all of them, when
    /// there are no more than `keep_count`).
    pub keep: Vec<PruneEntry>,
    /// Every other entry; the caller deletes these, swallowing per-file
    /// failures.
    pub delete: Vec<PruneEntry>,
}

/// Plans pruning: keeps the `keep_count` most recently modified entries and
/// marks every other entry for deletion. Entries whose modification time
/// could not be read rank oldest and so are deleted first.
pub fn plan_prune(entries: Vec<PruneEntry>, keep_count: usize) -> (r: PrunePlan)
    ensures
        (r.keep@ + r.delete@).to_multiset() == entries@.to_multiset(),
        spec_sorted_newest_first(r.keep@ + r.delete@),
        r.keep@.len() == if entries@.len() <= keep_count {
            entries@.len() as int
        } else {
            keep_count as int
        },
        r.keep@.len() + r.delete@.len() == entries@.len(),
        forall|a: int, b: int|
            0 <= a < r.keep@.len() && 0 <= b < r.delete@.len() ==> spec_mod_key(r.keep@[a])
                >= spec_mod_key(r.delete@[b]),
        keep_count == 0 ==> r.delete@.to_multiset() == entries@.to_multiset(),
        entries@.len() <= keep_count ==> r.delete@.len() == 0 && r.keep@.to_multiset()
            == entries@.to_multiset(),
{
    let mut sorted = entries;
    sort_newest_first(&mut sorted);
    let ghost sorted_seq = sorted@;
    let mut keep: Vec<PruneEntry> = Vec::new();
    let mut delete: Vec<PruneEntry> = Vec::new();
    let mut idx: usize = 0;
    while idx < sorted.len()
        invariant
            idx <= sorted@.len(),
            sorted@ == sorted_seq,
            keep@ == sorted@.subrange(
                0,
                if idx <= keep_count {
                    idx as int
                } else {
                    keep_count as int
                },
            ),
            delete@ == if idx <= keep_count {
                Seq::<PruneEntry>::empty()
            } else {
                sorted@.subrange(keep_count as int, idx as int)
            },
        decreases sorted@.len() - idx,
    {
        let e = sorted[idx];
        if idx < keep_count {
            keep.push(e);
            proof {
                assert(keep@ =~= sorted@.subrange(0, idx + 1));
            }
        } else {
            delete.push(e);
            proof {
                assert(delete@ =~= sorted@.subrange(keep_count as int, idx + 1));
            }
        }
        idx += 1;
    }
    proof {
        assert(keep@ + delete@ =~= sorted@);
        if sorted@.len() <= keep_count {
            assert(keep@ =~= sorted@);
        }
        if keep_count == 0 {
            assert(delete@ =~= sorted@);
        }
    }
    PrunePlan { keep, delete }
}

/// No two entries share a modification key.
pub open spec fn spec_distinct_keys(s: Seq<PruneEntry>) -> bool {
    forall|i: int, j: int|
        0 <= i < j < s.len() ==> spec_mod_key(s[i]) != spec_mod_key(s[j])
}

/// A file whose modification time could not be read ranks no newer than any
/// other file: pruning treats it as oldest and deletes it first.
pub proof fn lemma_unreadable_ranks_oldest(e: PruneEntry, f: PruneEntry)
    requires
        e.modified is None,
    ensures
        spec_mod_key(e) <= spec_mod_key(f),
{
}

/// Pruning keeps exactly the most recent files: in any pruning plan — a
/// newest-first arrangement split into a kept prefix and a deleted suffix —
/// over entries with pairwise distinct modification keys, every kept entry is
/// strictly newer than every deleted one. Together with `plan_prune`'s length
/// clause, the kept entries are exactly the `keep_count` most recently
/// modified ones.
pub proof fn lemma_prune_keeps_newest(keep: Seq<PruneEntry>, delete: Seq<PruneEntry>)
    requires
        spec_sorted_newest_first(keep + delete),
        spec_distinct_keys(keep + delete),
    ensures
        forall|a: int, b: int|
            0 <= a < keep.len() && 0 <= b < delete.len() ==> spec_mod_key(keep[a])
                > spec_mod_key(delete[b]),
{
    assert forall|a: int, b: int|
        0 <= a < keep.len() && 0 <= b < delete.len() implies spec_mod_key(keep[a])
        > spec_mod_key(delete[b]) by {
        let c = keep + delete;
        assert(c[a] == keep[a]);
        assert(c[keep.len() + b] == delete[b]);
        assert(spec_mod_key(c[a]) >= spec_mod_key(c[keep.len() + b]));
        assert(spec_mod_key(c[a]) != spec_mod_key(c[keep.len() + b]));
    }
}

} // verus!
