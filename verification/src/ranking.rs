use vstd::prelude::*;
use vstd::seq_lib::group_to_multiset_ensures;

verus! {

// Derived-index computation: every repository recomputes its rankings in full
// from the snapshot's entries. An entry is ranked by a numeric metric,
// descending; ties keep the entry that stands earlier in the snapshot first,
// which makes every ranking a deterministic function of the snapshot alone.

/// Index of the first maximum among the first `n` elements of `metrics`.
pub open spec fn argmax_upto(metrics: Seq<u64>, n: int) -> int
    recommends
        1 <= n <= metrics.len(),
    decreases n,
{
    if n <= 1 {
        0
    } else {
        let prev = argmax_upto(metrics, n - 1);
        if metrics[n - 1] > metrics[prev] {
            n - 1
        } else {
            prev
        }
    }
}

/// Index of the first maximum of a non-empty sequence.
pub open spec fn argmax(metrics: Seq<u64>) -> int {
    argmax_upto(metrics, metrics.len() as int)
}

pub proof fn lemma_argmax_upto(metrics: Seq<u64>, n: int)
    requires
        1 <= n <= metrics.len(),
    ensures
        0 <= argmax_upto(metrics, n) < n,
        forall|j: int| 0 <= j < n ==> #[trigger] metrics[j] <= metrics[argmax_upto(metrics, n)],
        forall|j: int|
            0 <= j < argmax_upto(metrics, n) ==> #[trigger] metrics[j] < metrics[argmax_upto(
                metrics,
                n,
            )],
    decreases n,
{
    if n > 1 {
        lemma_argmax_upto(metrics, n - 1);
    }
}

pub proof fn lemma_argmax(metrics: Seq<u64>)
    requires
        metrics.len() > 0,
    ensures
        0 <= argmax(metrics) < metrics.len(),
        forall|j: int| 0 <= j < metrics.len() ==> #[trigger] metrics[j] <= metrics[argmax(metrics)],
        forall|j: int|
            0 <= j < argmax(metrics) ==> #[trigger] metrics[j] < metrics[argmax(metrics)],
{
    lemma_argmax_upto(metrics, metrics.len() as int);
}

/// The metric of each entry; an entry pairs a metric with the position the
/// entry holds in the snapshot it was taken from.
pub open spec fn metrics_of(entries: Seq<(u64, usize)>) -> Seq<u64> {
    entries.map_values(|e: (u64, usize)| e.0)
}

/// The snapshot position of each entry.
pub open spec fn positions_of(entries: Seq<(u64, usize)>) -> Seq<usize> {
    entries.map_values(|e: (u64, usize)| e.1)
}

/// Selection order: repeatedly take the earliest remaining entry with the
/// largest metric, and emit its snapshot position.
pub open spec fn rank_entries(entries: Seq<(u64, usize)>) -> Seq<usize>
    decreases entries.len(),
    via rank_entries_decreases
{
    if entries.len() == 0 {
        Seq::empty()
    } else {
        let i = argmax(metrics_of(entries));
        seq![entries[i].1] + rank_entries(entries.remove(i))
    }
}

#[via_fn]
proof fn rank_entries_decreases(entries: Seq<(u64, usize)>) {
    if entries.len() > 0 {
        lemma_argmax(metrics_of(entries));
    }
}

/// One entry per element of `metrics`, paired with its position.
pub open spec fn entries_of(metrics: Seq<u64>) -> Seq<(u64, usize)> {
    Seq::new(metrics.len(), |i: int| (metrics[i], i as usize))
}

/// The positions of `metrics` ordered by metric descending, ties by position
/// ascending.
pub open spec fn rank_desc(metrics: Seq<u64>) -> Seq<usize> {
    rank_entries(entries_of(metrics))
}

pub proof fn lemma_rank_entries_len(entries: Seq<(u64, usize)>)
    ensures
        rank_entries(entries).len() == entries.len(),
    decreases entries.len(),
{
    if entries.len() > 0 {
        lemma_argmax(metrics_of(entries));
        lemma_rank_entries_len(entries.remove(argmax(metrics_of(entries))));
    }
}

pub proof fn lemma_rank_entries_multiset(entries: Seq<(u64, usize)>)
    ensures
        rank_entries(entries).to_multiset() == positions_of(entries).to_multiset(),
    decreases entries.len(),
{
    broadcast use group_to_multiset_ensures;

    if entries.len() > 0 {
        let m = metrics_of(entries);
        lemma_argmax(m);
        let i = argmax(m);
        let rest = entries.remove(i);
        lemma_rank_entries_multiset(rest);
        assert(positions_of(rest) =~= positions_of(entries).remove(i));
        assert(seq![entries[i].1] + rank_entries(rest) =~= rank_entries(rest).insert(
            0,
            entries[i].1,
        ));
        assert(rank_entries(entries).to_multiset() == rank_entries(rest).to_multiset().insert(
            entries[i].1,
        ));
        assert(positions_of(entries).to_multiset() =~= positions_of(entries).remove(
            i,
        ).to_multiset().insert(positions_of(entries)[i]));
    }
}

/// Each entry's metric agrees with the metric its snapshot position carries.
pub open spec fn consistent_with(entries: Seq<(u64, usize)>, metrics: Seq<u64>) -> bool {
    forall|k: int|
        0 <= k < entries.len() ==> (#[trigger] entries[k]).1 < metrics.len() && entries[k].0
            == metrics[entries[k].1 as int]
}

pub proof fn lemma_rank_entries_sorted(entries: Seq<(u64, usize)>, metrics: Seq<u64>)
    requires
        consistent_with(entries, metrics),
    ensures
        forall|k: int|
            0 <= k < rank_entries(entries).len() ==> (#[trigger] rank_entries(entries)[k])
                < metrics.len(),
        forall|i: int, j: int|
            0 <= i <= j < rank_entries(entries).len() ==> metrics[rank_entries(entries)[i] as int]
                >= metrics[rank_entries(entries)[j] as int],
    decreases entries.len(),
{
    broadcast use group_to_multiset_ensures;

    if entries.len() > 0 {
        let m = metrics_of(entries);
        lemma_argmax(m);
        let i = argmax(m);
        let rest = entries.remove(i);
        assert(consistent_with(rest, metrics)) by {
            assert(forall|k: int|
                0 <= k < rest.len() ==> #[trigger] rest[k] == if k < i {
                    entries[k]
                } else {
                    entries[k + 1]
                });
        }
        lemma_rank_entries_sorted(rest, metrics);
        lemma_rank_entries_len(rest);
        lemma_rank_entries_multiset(rest);
        let r = rank_entries(entries);
        let rr = rank_entries(rest);
        assert(r == seq![entries[i].1] + rr);
        // The head's metric dominates every entry that remains.
        assert forall|k: int| 0 <= k < rr.len() implies metrics[rr[k] as int] <= metrics[r[0] as int] by {
            assert(positions_of(rest).to_multiset().contains(rr[k]));
            assert(positions_of(rest).contains(rr[k]));
            let w = choose|w: int| 0 <= w < positions_of(rest).len() && positions_of(rest)[w] == rr[k];
            assert(rest[w].1 == rr[k]);
            assert(rest[w] == if w < i { entries[w] } else { entries[w + 1] });
            assert(metrics_of(entries)[i] >= rest[w].0) by {
                if w < i {
                    assert(m[w] == entries[w].0);
                } else {
                    assert(m[w + 1] == entries[w + 1].0);
                }
            }
            assert(entries[i].0 == metrics[entries[i].1 as int]);
        }
        assert(forall|k: int| 0 <= k < r.len() ==> r[k] == if k == 0 {
            entries[i].1
        } else {
            rr[k - 1]
        });
    }
}

/// Whether the entries' snapshot positions are strictly increasing, as they
/// are in every snapshot's entry list.
pub open spec fn increasing_positions(entries: Seq<(u64, usize)>) -> bool {
    forall|a: int, b: int|
        0 <= a < b < entries.len() ==> (#[trigger] entries[a]).1 < (#[trigger] entries[b]).1
}

/// The tiebreak: among entries with equal metrics, the ranking keeps the
/// snapshot order — the earlier position comes out first.
pub proof fn lemma_rank_entries_stable(entries: Seq<(u64, usize)>, metrics: Seq<u64>)
    requires
        consistent_with(entries, metrics),
        increasing_positions(entries),
    ensures
        forall|a: int, b: int|
            0 <= a < b < rank_entries(entries).len() && metrics[(
            #[trigger] rank_entries(entries)[a]) as int] == metrics[(
            #[trigger] rank_entries(entries)[b]) as int] ==> rank_entries(entries)[a]
                < rank_entries(entries)[b],
    decreases entries.len(),
{
    broadcast use group_to_multiset_ensures;

    if entries.len() > 0 {
        let m = metrics_of(entries);
        lemma_argmax(m);
        let i = argmax(m);
        let rest = entries.remove(i);
        assert(forall|k: int|
            0 <= k < rest.len() ==> #[trigger] rest[k] == if k < i {
                entries[k]
            } else {
                entries[k + 1]
            });
        assert(consistent_with(rest, metrics));
        assert(increasing_positions(rest));
        lemma_rank_entries_stable(rest, metrics);
        lemma_rank_entries_len(rest);
        lemma_rank_entries_multiset(rest);
        let r = rank_entries(entries);
        let rr = rank_entries(rest);
        assert(r == seq![entries[i].1] + rr);
        assert(forall|k: int| 0 <= k < r.len() ==> r[k] == if k == 0 {
            entries[i].1
        } else {
            rr[k - 1]
        });
        // The head's metric is strictly above everything that stood before it,
        // so an equal-metric entry in the tail stood after it in the snapshot.
        assert forall|b: int|
            0 < b < r.len() && metrics[r[0] as int] == metrics[(#[trigger] r[b]) as int] implies r[0]
            < r[b] by {
            assert(positions_of(rest).to_multiset().contains(rr[b - 1]));
            assert(positions_of(rest).contains(rr[b - 1]));
            let w = choose|w: int|
                0 <= w < positions_of(rest).len() && positions_of(rest)[w] == rr[b - 1];
            assert(rest[w].1 == rr[b - 1]);
            if w < i {
                assert(rest[w] == entries[w]);
                assert(m[w] == entries[w].0);
                assert(entries[w].0 == metrics[entries[w].1 as int]);
                assert(entries[i].0 == metrics[entries[i].1 as int]);
                assert(m[w] < m[i]);
                assert(false);
            } else {
                assert(rest[w] == entries[w + 1]);
                assert(entries[i].1 < entries[w + 1].1);
            }
        }
    }
}

/// Full characterization of a descending ranking, over the metrics alone:
/// the result is a permutation of the snapshot positions, ordered by metric
/// descending. Being a function of the metrics, the ranking is recomputed
/// identically whenever the snapshot's content is unchanged.
pub proof fn lemma_rank_desc_properties(metrics: Seq<u64>)
    requires
        metrics.len() <= usize::MAX,
    ensures
        rank_desc(metrics).len() == metrics.len(),
        rank_desc(metrics).to_multiset() == Seq::new(
            metrics.len(),
            |i: int| i as usize,
        ).to_multiset(),
        forall|k: int|
            0 <= k < metrics.len() ==> (#[trigger] rank_desc(metrics)[k]) < metrics.len(),
        forall|i: int, j: int|
            0 <= i <= j < metrics.len() ==> metrics[rank_desc(metrics)[i] as int]
                >= metrics[rank_desc(metrics)[j] as int],
        forall|i: int, j: int|
            0 <= i < j < metrics.len() && metrics[(#[trigger] rank_desc(metrics)[i]) as int]
                == metrics[(#[trigger] rank_desc(metrics)[j]) as int] ==> rank_desc(metrics)[i]
                < rank_desc(metrics)[j],
{
    let entries = entries_of(metrics);
    lemma_rank_entries_len(entries);
    lemma_rank_entries_multiset(entries);
    assert(positions_of(entries) =~= Seq::new(metrics.len(), |i: int| i as usize));
    assert forall|k: int| 0 <= k < entries.len() implies (#[trigger] entries[k]).1 < metrics.len()
        && entries[k].0 == metrics[entries[k].1 as int] by {
        assert(entries[k] == (metrics[k], k as usize));
    }
    assert(consistent_with(entries, metrics));
    lemma_rank_entries_sorted(entries, metrics);
    assert(increasing_positions(entries));
    lemma_rank_entries_stable(entries, metrics);
}

/// Computes `rank_desc(metrics@)`: the positions of `metrics`, ordered by
/// metric descending, ties broken toward the earlier position.
pub fn rank_by_metric_desc(metrics: &Vec<u64>) -> (order: Vec<usize>)
    ensures
        order@ == rank_desc(metrics@),
{
    let mut remaining: Vec<(u64, usize)> = Vec::new();
    let mut i: usize = 0;
    while i < metrics.len()
        invariant
            i <= metrics@.len(),
            remaining@ =~= entries_of(metrics@).take(i as int),
        decreases metrics@.len() - i,
    {
        remaining.push((metrics[i], i));
        i += 1;
    }
    assert(remaining@ =~= entries_of(metrics@));
    let mut order: Vec<usize> = Vec::new();
    while remaining.len() > 0
        invariant
            rank_desc(metrics@) == order@ + rank_entries(remaining@),
        decreases remaining@.len(),
    {
        let ghost m = metrics_of(remaining@);
        let mut best: usize = 0;
        let mut j: usize = 1;
        while j < remaining.len()
            invariant
                1 <= j <= remaining@.len(),
                best < j,
                best as int == argmax_upto(metrics_of(remaining@), j as int),
            decreases remaining@.len() - j,
        {
            if remaining[j].0 > remaining[best].0 {
                best = j;
            }
            j += 1;
        }
        assert(best as int == argmax(m));
        proof {
            lemma_argmax(m);
        }
        order.push(remaining[best].1);
        let ghost before = remaining@;
        remaining.remove(best);
        proof {
            assert(rank_entries(before) == seq![before[best as int].1] + rank_entries(remaining@));
            assert(order@ + rank_entries(remaining@) =~= rank_desc(metrics@));
        }
    }
    assert(order@ =~= rank_desc(metrics@));
    order
}

} // verus!
