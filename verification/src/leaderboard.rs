//! Leaderboard entries and their ranking.

use vstd::prelude::*;

verus! {

/// How many entries the leaderboard shows.
pub const TOP_N_SCORES: usize = 8;

/// One line of the leaderboard.
#[derive(Clone, Debug)]
pub struct Entry {
    pub name: String,
    pub score: i64,
}

/// Whether `entries` stand in descending order of score.
pub open spec fn ranked(entries: Seq<Entry>) -> bool {
    forall|i: int, j: int| 0 <= i < j < entries.len() ==> entries[i].score >= entries[j].score
}

/// Whether `top` holds the best of `all`: it is ranked, it holds only
/// entries of `all`, each no more often than `all` does, and an entry that
/// it holds less often than `all` scores no more than any entry in it.
pub open spec fn best_of(top: Seq<Entry>, all: Seq<Entry>) -> bool {
    &&& ranked(top)
    &&& top.to_multiset().subset_of(all.to_multiset())
    &&& forall|e: Entry, i: int|
        all.to_multiset().count(e) > top.to_multiset().count(e) && 0 <= i < top.len()
            ==> #[trigger] top[i].score >= #[trigger] e.score
}

/// Sorts `entries` by score, the highest first.
pub fn sort_by_score(entries: &mut Vec<Entry>)
    ensures
        ranked(final(entries)@),
        final(entries)@.to_multiset() == old(entries)@.to_multiset(),
        final(entries)@.len() == old(entries)@.len(),
{
    let n: usize = entries.len();
    let mut i: usize = 0;
    while i < n
        invariant
            i <= n,
            entries@.len() == n,
            ranked(entries@.take(i as int)),
            entries@.to_multiset() == old(entries)@.to_multiset(),
        decreases n - i,
    {
        let score: i64 = entries[i].score;
        let mut j: usize = i;
        while j > 0 && entries[j - 1].score < score
            invariant
                j <= i < n,
                entries@.len() == n,
                score == entries@[i as int].score,
                forall|k: int| j <= k < i ==> entries@[k].score < score,
            decreases j,
        {
            j -= 1;
        }
        let ghost before = entries@;
        let entry = entries.remove(i);
        let ghost without = entries@;
        entries.insert(j, entry);
        proof {
            vstd::seq_lib::to_multiset_remove(before, i as int);
            vstd::seq_lib::to_multiset_insert(without, j as int, entry);
            before.remove_ensures(i as int);
            without.insert_ensures(j as int, entry);
            assert(without.to_multiset() == before.to_multiset().remove(entry));
            assert(entries@.to_multiset() == without.to_multiset().insert(entry));
            assert(before.to_multiset().count(entry) > 0) by {
                assert(before.contains(entry));
                before.to_multiset_ensures();
            }
            assert(entries@.to_multiset() =~= before.to_multiset());
            let sorted = before.take(i as int);
            let after = entries@.take(i + 1);
            assert forall|a: int, b: int| 0 <= a < b < after.len() implies after[a].score
                >= after[b].score by {
                if b < j {
                    assert(after[a] == sorted[a] && after[b] == sorted[b]);
                } else if b == j {
                    assert(after[a] == sorted[a] && after[b] == entry);
                    assert(sorted[j - 1] == before[j - 1]);
                    assert(sorted[a].score >= sorted[j - 1].score);
                } else if a < j {
                    assert(after[a] == sorted[a] && after[b] == sorted[b - 1]);
                } else if a == j {
                    assert(after[a] == entry && after[b] == before[b - 1]);
                } else {
                    assert(after[a] == sorted[a - 1] && after[b] == sorted[b - 1]);
                }
            }
        }
        i += 1;
    }
    assert(entries@.take(n as int) =~= entries@);
}

/// The `limit` best entries, the highest score first; all of them where
/// there are no more than `limit`.
pub fn top_scores(entries: Vec<Entry>, limit: usize) -> (top: Vec<Entry>)
    ensures
        best_of(top@, entries@),
        top@.len() == if limit < entries@.len() {
            limit as nat
        } else {
            entries@.len()
        },
{
    let mut top = entries;
    sort_by_score(&mut top);
    let ghost sorted = top@;
    top.truncate(limit);
    proof {
        if limit < sorted.len() {
            let tail = sorted.skip(limit as int);
            assert(sorted =~= top@ + tail);
            vstd::seq_lib::lemma_multiset_commutative(top@, tail);
            assert forall|e: Entry, i: int|
                entries@.to_multiset().count(e) > top@.to_multiset().count(e) && 0 <= i
                    < top@.len() implies #[trigger] top@[i].score >= #[trigger] e.score by {
                assert(tail.to_multiset().count(e) > 0);
                tail.to_multiset_ensures();
                assert(tail.contains(e));
                let k = choose|k: int| 0 <= k < tail.len() && tail[k] == e;
                assert(sorted[limit + k] == e);
                assert(sorted[i] == top@[i]);
            }
        } else {
            assert(top@ =~= sorted);
        }
    }
    top
}

} // verus!
