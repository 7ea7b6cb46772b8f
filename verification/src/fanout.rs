use vstd::prelude::*;

verus! {

// The fan-out fetch executor issues one upstream call per item and collects
// each item's outcome: a fetched value, or nothing when that item's fetch
// failed. The I/O layer hands the collected outcomes here; a failed item is
// dropped and every fetched one is kept, in order.

/// The values of the successful outcomes, in order.
pub open spec fn successes<T>(outcomes: Seq<Option<T>>) -> Seq<T>
    decreases outcomes.len(),
{
    if outcomes.len() == 0 {
        Seq::empty()
    } else {
        let rest = successes(outcomes.drop_first());
        match outcomes[0] {
            Some(v) => seq![v] + rest,
            None => rest,
        }
    }
}

/// How many outcomes failed.
pub open spec fn failure_count<T>(outcomes: Seq<Option<T>>) -> int
    decreases outcomes.len(),
{
    if outcomes.len() == 0 {
        0
    } else {
        (if outcomes[0] is None {
            1int
        } else {
            0int
        }) + failure_count(outcomes.drop_first())
    }
}

/// Partial-failure tolerance, counted: of `N` item fetches where `k` failed,
/// exactly `N - k` items survive, and no failure loses more than itself.
pub proof fn lemma_fanout_counts<T>(outcomes: Seq<Option<T>>)
    ensures
        0 <= failure_count(outcomes) <= outcomes.len(),
        successes(outcomes).len() + failure_count(outcomes) == outcomes.len(),
    decreases outcomes.len(),
{
    if outcomes.len() > 0 {
        lemma_fanout_counts(outcomes.drop_first());
    }
}

/// Full fan-out failure: every item fetch failed exactly when nothing
/// survives.
pub proof fn lemma_fanout_all_failed<T>(outcomes: Seq<Option<T>>)
    ensures
        (forall|k: int| 0 <= k < outcomes.len() ==> (#[trigger] outcomes[k]) is None)
            <==> successes(outcomes).len() == 0,
    decreases outcomes.len(),
{
    if outcomes.len() > 0 {
        lemma_fanout_all_failed(outcomes.drop_first());
        let rest = outcomes.drop_first();
        assert(forall|k: int| 1 <= k < outcomes.len() ==> #[trigger] outcomes[k] == rest[k - 1]);
        if successes(outcomes).len() == 0 {
            assert(forall|k: int| 0 <= k < rest.len() ==> #[trigger] rest[k] == outcomes[k + 1]);
        }
    }
}

/// Keeps the values of the successful outcomes, dropping every failed item.
pub fn collect_successes<T>(outcomes: Vec<Option<T>>) -> (r: Vec<T>)
    ensures
        r@ == successes(outcomes@),
{
    let ghost orig = outcomes@;
    let mut outcomes = outcomes;
    let mut r: Vec<T> = Vec::new();
    while outcomes.len() > 0
        invariant
            successes(orig) == r@ + successes(outcomes@),
        decreases outcomes@.len(),
    {
        let ghost before = outcomes@;
        let first = outcomes.remove(0);
        proof {
            assert(outcomes@ =~= before.drop_first());
        }
        match first {
            Some(v) => {
                r.push(v);
                proof {
                    assert(r@ + successes(outcomes@) =~= successes(orig));
                }
            },
            None => {},
        }
    }
    assert(r@ =~= successes(orig));
    r
}

} // verus!
