use vstd::prelude::*;

verus! {

// Every snapshot maps item keys to items. Snapshots are kept as vectors whose
// keys are unique; inserting an item either replaces the entry that already
// carries its key or appends it at the end.

/// An item that carries a key.
pub trait Keyed: Sized {
    type K;

    /// The item's key.
    spec fn spec_key(&self) -> Self::K;

    /// Whether two items carry the same key.
    fn key_eq(&self, other: &Self) -> (r: bool)
        ensures
            r == (self.spec_key() == other.spec_key()),
    ;
}

/// Index of the first item whose key is `k`, or -1 when no item carries it.
pub open spec fn key_index<T: Keyed>(items: Seq<T>, k: T::K) -> int
    decreases items.len(),
{
    if items.len() == 0 {
        -1
    } else if items[0].spec_key() == k {
        0
    } else {
        let r = key_index(items.drop_first(), k);
        if r == -1 {
            -1
        } else {
            r + 1
        }
    }
}

pub proof fn lemma_key_index<T: Keyed>(items: Seq<T>, k: T::K)
    ensures
        ({
            let i = key_index(items, k);
            if i == -1 {
                forall|j: int| 0 <= j < items.len() ==> (#[trigger] items[j]).spec_key() != k
            } else {
                &&& 0 <= i < items.len()
                &&& items[i].spec_key() == k
                &&& forall|j: int| 0 <= j < i ==> (#[trigger] items[j]).spec_key() != k
            }
        }),
    decreases items.len(),
{
    if items.len() > 0 && items[0].spec_key() != k {
        lemma_key_index(items.drop_first(), k);
        let rest = items.drop_first();
        assert(forall|j: int| 1 <= j < items.len() ==> #[trigger] items[j] == rest[j - 1]);
    }
}

/// Whether no two items carry the same key.
pub open spec fn unique_keys<T: Keyed>(items: Seq<T>) -> bool {
    forall|i: int, j: int|
        0 <= i < j < items.len() ==> (#[trigger] items[i]).spec_key() != (
        #[trigger] items[j]).spec_key()
}

/// `items` with `item` replacing the entry that carries its key, or appended
/// when no entry does.
pub open spec fn upsert<T: Keyed>(items: Seq<T>, item: T) -> Seq<T> {
    let i = key_index(items, item.spec_key());
    if i == -1 {
        items.push(item)
    } else {
        items.update(i, item)
    }
}

/// `items` after upserting each element of `added`, in order.
pub open spec fn upsert_all<T: Keyed>(items: Seq<T>, added: Seq<T>) -> Seq<T>
    decreases added.len(),
{
    if added.len() == 0 {
        items
    } else {
        upsert_all(upsert(items, added[0]), added.drop_first())
    }
}

pub proof fn lemma_upsert_unique<T: Keyed>(items: Seq<T>, item: T)
    requires
        unique_keys(items),
    ensures
        unique_keys(upsert(items, item)),
        items.len() <= upsert(items, item).len() <= items.len() + 1,
        upsert(items, item).contains(item),
{
    lemma_key_index(items, item.spec_key());
    let i = key_index(items, item.spec_key());
    let r = upsert(items, item);
    if i == -1 {
        assert(r[items.len() as int] == item);
    } else {
        assert(r[i] == item);
        assert forall|a: int, b: int| 0 <= a < b < r.len() implies (#[trigger] r[a]).spec_key() != (
        #[trigger] r[b]).spec_key() by {
            if a != i && b != i {
                assert(r[a] == items[a] && r[b] == items[b]);
            } else if a == i {
                assert(r[b] == items[b] && items[i].spec_key() == item.spec_key());
            } else {
                assert(r[a] == items[a] && items[i].spec_key() == item.spec_key());
            }
        }
    }
}

pub proof fn lemma_upsert_all_unique<T: Keyed>(items: Seq<T>, added: Seq<T>)
    requires
        unique_keys(items),
    ensures
        unique_keys(upsert_all(items, added)),
        items.len() <= upsert_all(items, added).len() <= items.len() + added.len(),
    decreases added.len(),
{
    if added.len() > 0 {
        lemma_upsert_unique(items, added[0]);
        lemma_upsert_all_unique(upsert(items, added[0]), added.drop_first());
    }
}

/// When every key is fresh, upserting only appends: the result is exactly the
/// old items followed by the added ones.
pub proof fn lemma_upsert_all_disjoint<T: Keyed>(items: Seq<T>, added: Seq<T>)
    requires
        unique_keys(items + added),
    ensures
        upsert_all(items, added) == items + added,
    decreases added.len(),
{
    if added.len() == 0 {
        assert(items + added =~= items);
    } else {
        let x = added[0];
        lemma_key_index(items, x.spec_key());
        let i = key_index(items, x.spec_key());
        assert(forall|j: int| 0 <= j < items.len() ==> (items + added)[j] == items[j]);
        assert((items + added)[items.len() as int] == x);
        assert(i == -1);
        assert(upsert(items, x) == items.push(x));
        assert(items.push(x) + added.drop_first() =~= items + added);
        lemma_upsert_all_disjoint(items.push(x), added.drop_first());
    }
}

/// Inserts `item`, replacing the entry that already carries its key if any.
pub fn upsert_vec<T: Keyed>(items: &mut Vec<T>, item: T)
    ensures
        final(items)@ == upsert(old(items)@, item),
{
    let ghost orig = items@;
    let mut i: usize = 0;
    while i < items.len()
        invariant
            orig == old(items)@,
            items@ == orig,
            i <= orig.len(),
            forall|j: int| 0 <= j < i ==> (#[trigger] orig[j]).spec_key() != item.spec_key(),
        decreases orig.len() - i,
    {
        if items[i].key_eq(&item) {
            proof {
                lemma_key_index(orig, item.spec_key());
                assert(key_index(orig, item.spec_key()) == i);
            }
            items.remove(i);
            items.insert(i, item);
            assert(items@ =~= upsert(orig, item));
            return;
        }
        i += 1;
    }
    proof {
        lemma_key_index(orig, item.spec_key());
    }
    items.push(item);
}

/// Upserts every element of `added`, in order.
pub fn upsert_all_vec<T: Keyed>(items: &mut Vec<T>, added: Vec<T>)
    ensures
        final(items)@ == upsert_all(old(items)@, added@),
{
    let ghost orig_items = items@;
    let ghost orig_added = added@;
    let mut added = added;
    while added.len() > 0
        invariant
            orig_items == old(items)@,
            upsert_all(orig_items, orig_added) == upsert_all(items@, added@),
        decreases added@.len(),
    {
        let ghost before = added@;
        let x = added.remove(0);
        proof {
            assert(added@ =~= before.drop_first());
        }
        upsert_vec(items, x);
    }
}

} // verus!
