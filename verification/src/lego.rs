use vstd::prelude::*;
use vstd::string::StringExecFns;
use crate::keyed::{Keyed, unique_keys, upsert_all, lemma_upsert_all_unique};
use crate::ranking::{rank_desc, rank_by_metric_desc, lemma_rank_desc_properties};

verus! {

/// One owned set of the toy-collection catalog.
pub struct LegoSet {
    pub key: u32,
    pub name: String,
    pub number: String,
    pub category: String,
    pub pieces: u32,
    pub image: String,
    pub thumbnail: String,
    pub brickset_url: String,
    pub quantity: u32,
}

impl LegoSet {
    pub fn new(
        key: u32,
        name: String,
        number: String,
        category: String,
        pieces: u32,
        image: String,
        thumbnail: String,
        brickset_url: String,
        quantity: u32,
    ) -> (s: LegoSet)
        ensures
            s == (LegoSet {
                key,
                name,
                number,
                category,
                pieces,
                image,
                thumbnail,
                brickset_url,
                quantity,
            }),
    {
        LegoSet { key, name, number, category, pieces, image, thumbnail, brickset_url, quantity }
    }

    pub fn key(&self) -> (r: u32)
        ensures
            r == self.key,
    {
        self.key
    }

    pub fn name(&self) -> (r: &str)
        ensures
            r@ == self.name@,
    {
        self.name.as_str()
    }

    pub fn number(&self) -> (r: &str)
        ensures
            r@ == self.number@,
    {
        self.number.as_str()
    }

    pub fn category(&self) -> (r: &str)
        ensures
            r@ == self.category@,
    {
        self.category.as_str()
    }

    pub fn pieces(&self) -> (r: u32)
        ensures
            r == self.pieces,
    {
        self.pieces
    }

    pub fn image(&self) -> (r: &str)
        ensures
            r@ == self.image@,
    {
        self.image.as_str()
    }

    pub fn thumbnail(&self) -> (r: &str)
        ensures
            r@ == self.thumbnail@,
    {
        self.thumbnail.as_str()
    }

    pub fn brickset_url(&self) -> (r: &str)
        ensures
            r@ == self.brickset_url@,
    {
        self.brickset_url.as_str()
    }

    pub fn quantity(&self) -> (r: u32)
        ensures
            r == self.quantity,
    {
        self.quantity
    }
}

impl Clone for LegoSet {
    fn clone(&self) -> (r: LegoSet)
        ensures
            r == *self,
    {
        LegoSet {
            key: self.key,
            name: self.name.clone(),
            number: self.number.clone(),
            category: self.category.clone(),
            pieces: self.pieces,
            image: self.image.clone(),
            thumbnail: self.thumbnail.clone(),
            brickset_url: self.brickset_url.clone(),
            quantity: self.quantity,
        }
    }
}

impl Keyed for LegoSet {
    type K = u32;

    open spec fn spec_key(&self) -> u32 {
        self.key
    }

    fn key_eq(&self, other: &Self) -> (r: bool) {
        self.key == other.key
    }
}

/// One owned minifigure of the toy-collection catalog, keyed by its catalog
/// number.
pub struct LegoMinifig {
    pub key: String,
    pub name: String,
    pub category: String,
    pub owned_in_sets: u32,
    pub owned_loose: u32,
}

impl LegoMinifig {
    pub fn new(
        key: String,
        name: String,
        category: String,
        owned_in_sets: u32,
        owned_loose: u32,
    ) -> (m: LegoMinifig)
        requires
            owned_in_sets + owned_loose <= u32::MAX,
        ensures
            m == (LegoMinifig { key, name, category, owned_in_sets, owned_loose }),
    {
        LegoMinifig { key, name, category, owned_in_sets, owned_loose }
    }

    pub fn key(&self) -> (r: &str)
        ensures
            r@ == self.key@,
    {
        self.key.as_str()
    }

    pub fn name(&self) -> (r: &str)
        ensures
            r@ == self.name@,
    {
        self.name.as_str()
    }

    pub fn category(&self) -> (r: &str)
        ensures
            r@ == self.category@,
    {
        self.category.as_str()
    }

    pub fn owned_in_sets(&self) -> (r: u32)
        ensures
            r == self.owned_in_sets,
    {
        self.owned_in_sets
    }

    pub fn owned_loose(&self) -> (r: u32)
        ensures
            r == self.owned_loose,
    {
        self.owned_loose
    }

    /// How many copies are owned in total, in sets and loose together.
    pub fn total_owned(&self) -> (r: u32)
        requires
            self.owned_in_sets + self.owned_loose <= u32::MAX,
        ensures
            r == self.owned_in_sets + self.owned_loose,
    {
        self.owned_in_sets + self.owned_loose
    }

    /// The catalog image URL derived from the minifigure's key.
    pub fn image_url(&self) -> (r: String)
        ensures
            r@ == "https://img.bricklink.com/ItemImage/MN/0/"@ + self.key@ + ".png"@,
    {
        let r = String::from_str("https://img.bricklink.com/ItemImage/MN/0/").concat(
            self.key.as_str(),
        ).concat(".png");
        assert(r@ =~= "https://img.bricklink.com/ItemImage/MN/0/"@ + self.key@ + ".png"@);
        r
    }
}

impl Clone for LegoMinifig {
    fn clone(&self) -> (r: LegoMinifig)
        ensures
            r == *self,
    {
        LegoMinifig {
            key: self.key.clone(),
            name: self.name.clone(),
            category: self.category.clone(),
            owned_in_sets: self.owned_in_sets,
            owned_loose: self.owned_loose,
        }
    }
}

impl Keyed for LegoMinifig {
    type K = Seq<char>;

    open spec fn spec_key(&self) -> Seq<char> {
        self.key@
    }

    fn key_eq(&self, other: &Self) -> (r: bool) {
        self.key == other.key
    }
}

/// Each set's ranking metric: its piece count.
pub open spec fn set_metrics(sets: Seq<LegoSet>) -> Seq<u64> {
    sets.map_values(|s: LegoSet| s.pieces as u64)
}

/// The sets' keys ordered by piece count descending, ties by snapshot
/// position.
pub open spec fn sets_order_spec(sets: Seq<LegoSet>) -> Seq<u32> {
    rank_desc(set_metrics(sets)).map_values(|p: usize| sets[p as int].key)
}

/// Each minifigure's ranking metric: how many copies are owned in total.
pub open spec fn minifig_metrics(minifigs: Seq<LegoMinifig>) -> Seq<u64> {
    minifigs.map_values(|m: LegoMinifig| (m.owned_in_sets + m.owned_loose) as u64)
}

/// The minifigures' keys ordered by copies owned descending, ties by snapshot
/// position.
pub open spec fn minifigs_order_spec(minifigs: Seq<LegoMinifig>) -> Seq<Seq<char>> {
    rank_desc(minifig_metrics(minifigs)).map_values(|p: usize| minifigs[p as int].key@)
}

/// The total piece count over all sets.
pub open spec fn total_pieces_spec(sets: Seq<LegoSet>) -> int
    decreases sets.len(),
{
    if sets.len() == 0 {
        0
    } else {
        total_pieces_spec(sets.drop_last()) + sets.last().pieces
    }
}

/// The toy-collection snapshot: the owned sets and minifigures, keyed
/// uniquely, plus the derived orderings and the piece total, which are
/// recomputed in full whenever the contents change.
pub struct LegoCollection {
    sets: Vec<LegoSet>,
    minifigs: Vec<LegoMinifig>,
    sets_order: Vec<u32>,
    minifigs_order: Vec<String>,
    total_pieces: u64,
}

impl LegoCollection {
    pub closed spec fn sets_seq(&self) -> Seq<LegoSet> {
        self.sets@
    }

    pub closed spec fn minifigs_seq(&self) -> Seq<LegoMinifig> {
        self.minifigs@
    }

    pub closed spec fn sets_order_seq(&self) -> Seq<u32> {
        self.sets_order@
    }

    pub closed spec fn minifigs_order_seq(&self) -> Seq<Seq<char>> {
        self.minifigs_order@.map_values(|s: String| s@)
    }

    pub closed spec fn total_pieces_val(&self) -> u64 {
        self.total_pieces
    }

    /// Well-formed: keys unique, counts bounded, and every derived index
    /// agrees with the contents.
    pub closed spec fn wf(&self) -> bool {
        &&& unique_keys(self.sets@)
        &&& unique_keys(self.minifigs@)
        &&& self.sets@.len() <= u32::MAX
        &&& self.minifigs@.len() <= u32::MAX
        &&& self.sets_order@ == sets_order_spec(self.sets@)
        &&& self.minifigs_order@.map_values(|s: String| s@) == minifigs_order_spec(self.minifigs@)
        &&& self.total_pieces == total_pieces_spec(self.sets@)
    }

    pub fn new() -> (c: LegoCollection)
        ensures
            c.wf(),
            c.sets_seq() == Seq::<LegoSet>::empty(),
            c.minifigs_seq() == Seq::<LegoMinifig>::empty(),
            c.sets_order_seq() == Seq::<u32>::empty(),
            c.minifigs_order_seq() == Seq::<Seq<char>>::empty(),
            c.total_pieces_val() == 0,
    {
        let c = LegoCollection {
            sets: Vec::new(),
            minifigs: Vec::new(),
            sets_order: Vec::new(),
            minifigs_order: Vec::new(),
            total_pieces: 0,
        };
        proof {
            lemma_rank_desc_properties(set_metrics(c.sets@));
            lemma_rank_desc_properties(minifig_metrics(c.minifigs@));
            assert(c.sets_order@ =~= sets_order_spec(c.sets@));
            assert(c.minifigs_order@.map_values(|s: String| s@) =~= minifigs_order_spec(
                c.minifigs@,
            ));
        }
        c
    }

    /// Recomputes both orderings and the piece total from the contents.
    fn recalculate(&mut self)
        requires
            unique_keys(old(self).sets@),
            unique_keys(old(self).minifigs@),
            old(self).sets@.len() <= u32::MAX,
            old(self).minifigs@.len() <= u32::MAX,
        ensures
            final(self).sets@ == old(self).sets@,
            final(self).minifigs@ == old(self).minifigs@,
            final(self).wf(),
    {
        // Piece total.
        let ghost sets_seq = self.sets@;
        let mut total: u64 = 0;
        let mut i: usize = 0;
        while i < self.sets.len()
            invariant
                self.sets@ == sets_seq,
                sets_seq.len() <= u32::MAX,
                i <= sets_seq.len(),
                total == total_pieces_spec(sets_seq.take(i as int)),
                total <= (i as int) * (u32::MAX as int),
            decreases sets_seq.len() - i,
        {
            proof {
                assert(sets_seq.take(i as int + 1).drop_last() =~= sets_seq.take(i as int));
                assert(total + sets_seq[i as int].pieces <= u64::MAX) by (nonlinear_arith)
                    requires
                        total <= (i as int) * (u32::MAX as int),
                        i < sets_seq.len() <= u32::MAX,
                        sets_seq[i as int].pieces <= u32::MAX,
                ;
            }
            total = total + (self.sets[i].pieces as u64);
            i += 1;
        }
        proof {
            assert(sets_seq.take(sets_seq.len() as int) =~= sets_seq);
        }
        self.total_pieces = total;

        // Set ordering.
        let mut metrics: Vec<u64> = Vec::new();
        let mut i: usize = 0;
        while i < self.sets.len()
            invariant
                self.sets@ == sets_seq,
                i <= sets_seq.len(),
                metrics@ =~= set_metrics(sets_seq).take(i as int),
            decreases sets_seq.len() - i,
        {
            metrics.push(self.sets[i].pieces as u64);
            i += 1;
        }
        assert(metrics@ =~= set_metrics(sets_seq));
        let order = rank_by_metric_desc(&metrics);
        proof {
            lemma_rank_desc_properties(metrics@);
        }
        let mut sets_order: Vec<u32> = Vec::new();
        let mut i: usize = 0;
        while i < order.len()
            invariant
                self.sets@ == sets_seq,
                order@ == rank_desc(set_metrics(sets_seq)),
                forall|k: int| 0 <= k < order@.len() ==> (#[trigger] order@[k]) < sets_seq.len(),
                i <= order@.len(),
                sets_order@ =~= sets_order_spec(sets_seq).take(i as int),
            decreases order@.len() - i,
        {
            sets_order.push(self.sets[order[i]].key);
            i += 1;
        }
        assert(sets_order@ =~= sets_order_spec(sets_seq));
        self.sets_order = sets_order;

        // Minifigure ordering.
        let ghost minifigs_seq = self.minifigs@;
        let mut metrics: Vec<u64> = Vec::new();
        let mut i: usize = 0;
        while i < self.minifigs.len()
            invariant
                self.minifigs@ == minifigs_seq,
                i <= minifigs_seq.len(),
                metrics@ =~= minifig_metrics(minifigs_seq).take(i as int),
            decreases minifigs_seq.len() - i,
        {
            metrics.push(self.minifigs[i].owned_in_sets as u64 + self.minifigs[i].owned_loose as u64);
            i += 1;
        }
        assert(metrics@ =~= minifig_metrics(minifigs_seq));
        let order = rank_by_metric_desc(&metrics);
        proof {
            lemma_rank_desc_properties(metrics@);
        }
        let mut minifigs_order: Vec<String> = Vec::new();
        let mut i: usize = 0;
        while i < order.len()
            invariant
                self.minifigs@ == minifigs_seq,
                order@ == rank_desc(minifig_metrics(minifigs_seq)),
                forall|k: int| 0 <= k < order@.len() ==> (#[trigger] order@[k]) < minifigs_seq.len(),
                i <= order@.len(),
                minifigs_order@.len() == i,
                forall|k: int|
                    0 <= k < i ==> (#[trigger] minifigs_order@[k])@ == minifigs_order_spec(
                        minifigs_seq,
                    )[k],
            decreases order@.len() - i,
        {
            minifigs_order.push(self.minifigs[order[i]].key.clone());
            i += 1;
        }
        assert(minifigs_order@.map_values(|s: String| s@) =~= minifigs_order_spec(minifigs_seq));
        self.minifigs_order = minifigs_order;
    }

    /// Inserts (or replaces, by key) the given sets, then recomputes every
    /// derived index.
    pub fn add_sets(&mut self, sets: Vec<LegoSet>)
        requires
            old(self).wf(),
            old(self).sets_seq().len() + sets@.len() <= u32::MAX,
        ensures
            final(self).wf(),
            final(self).sets_seq() == upsert_all(old(self).sets_seq(), sets@),
            final(self).minifigs_seq() == old(self).minifigs_seq(),
            final(self).sets_order_seq() == sets_order_spec(final(self).sets_seq()),
            final(self).minifigs_order_seq() == minifigs_order_spec(final(self).minifigs_seq()),
            final(self).total_pieces_val() == total_pieces_spec(final(self).sets_seq()),
    {
        proof {
            lemma_upsert_all_unique(self.sets@, sets@);
        }
        crate::keyed::upsert_all_vec(&mut self.sets, sets);
        self.recalculate();
    }

    /// Inserts (or replaces, by key) the given minifigures, then recomputes
    /// every derived index.
    pub fn add_minifigs(&mut self, minifigs: Vec<LegoMinifig>)
        requires
            old(self).wf(),
            old(self).minifigs_seq().len() + minifigs@.len() <= u32::MAX,
        ensures
            final(self).wf(),
            final(self).minifigs_seq() == upsert_all(old(self).minifigs_seq(), minifigs@),
            final(self).sets_seq() == old(self).sets_seq(),
            final(self).sets_order_seq() == sets_order_spec(final(self).sets_seq()),
            final(self).minifigs_order_seq() == minifigs_order_spec(final(self).minifigs_seq()),
            final(self).total_pieces_val() == total_pieces_spec(final(self).sets_seq()),
    {
        proof {
            lemma_upsert_all_unique(self.minifigs@, minifigs@);
        }
        crate::keyed::upsert_all_vec(&mut self.minifigs, minifigs);
        self.recalculate();
    }

    pub fn sets(&self) -> (r: &Vec<LegoSet>)
        ensures
            r@ == self.sets_seq(),
    {
        &self.sets
    }

    pub fn minifigs(&self) -> (r: &Vec<LegoMinifig>)
        ensures
            r@ == self.minifigs_seq(),
    {
        &self.minifigs
    }

    /// The sets' keys, most pieces first.
    pub fn sets_order(&self) -> (r: &Vec<u32>)
        ensures
            r@ == self.sets_order_seq(),
            self.wf() ==> r@ == sets_order_spec(self.sets_seq()),
    {
        &self.sets_order
    }

    /// The minifigures' keys, most copies owned first.
    pub fn minifigs_order(&self) -> (r: &Vec<String>)
        ensures
            r@.map_values(|s: String| s@) == self.minifigs_order_seq(),
            self.wf() ==> r@.map_values(|s: String| s@) == minifigs_order_spec(self.minifigs_seq()),
    {
        &self.minifigs_order
    }

    /// The total piece count over all sets.
    pub fn total_pieces(&self) -> (r: u64)
        ensures
            r == self.total_pieces_val(),
            self.wf() ==> r == total_pieces_spec(self.sets_seq()),
    {
        self.total_pieces
    }
}

impl Clone for LegoCollection {
    fn clone(&self) -> (r: LegoCollection)
        ensures
            r.sets_seq() == self.sets_seq(),
            r.minifigs_seq() == self.minifigs_seq(),
            r.sets_order_seq() == self.sets_order_seq(),
            r.minifigs_order_seq() == self.minifigs_order_seq(),
            r.total_pieces_val() == self.total_pieces_val(),
            r.wf() == self.wf(),
    {
        let mut sets: Vec<LegoSet> = Vec::new();
        let mut i: usize = 0;
        while i < self.sets.len()
            invariant
                i <= self.sets@.len(),
                sets@.len() == i,
                forall|k: int| 0 <= k < i ==> #[trigger] sets@[k] == self.sets@[k],
            decreases self.sets@.len() - i,
        {
            sets.push(self.sets[i].clone());
            i += 1;
        }
        assert(sets@ =~= self.sets@);
        let mut minifigs: Vec<LegoMinifig> = Vec::new();
        let mut i: usize = 0;
        while i < self.minifigs.len()
            invariant
                i <= self.minifigs@.len(),
                minifigs@.len() == i,
                forall|k: int| 0 <= k < i ==> #[trigger] minifigs@[k] == self.minifigs@[k],
            decreases self.minifigs@.len() - i,
        {
            minifigs.push(self.minifigs[i].clone());
            i += 1;
        }
        assert(minifigs@ =~= self.minifigs@);
        let mut minifigs_order: Vec<String> = Vec::new();
        let mut i: usize = 0;
        while i < self.minifigs_order.len()
            invariant
                i <= self.minifigs_order@.len(),
                minifigs_order@.len() == i,
                forall|k: int|
                    0 <= k < i ==> #[trigger] minifigs_order@[k] == self.minifigs_order@[k],
            decreases self.minifigs_order@.len() - i,
        {
            minifigs_order.push(self.minifigs_order[i].clone());
            i += 1;
        }
        assert(minifigs_order@ =~= self.minifigs_order@);
        let sets_order = vstd::slice::slice_to_vec(self.sets_order.as_slice());
        LegoCollection {
            sets,
            minifigs,
            sets_order,
            minifigs_order,
            total_pieces: self.total_pieces,
        }
    }
}

} // verus!
