use vstd::prelude::*;
use vstd::string::StringExecFns;
use crate::config::Config;
use crate::error::{Error, FetchError};
use crate::keyed::{
    Keyed, unique_keys, upsert_all, upsert_all_vec, lemma_upsert_all_unique,
    lemma_upsert_all_disjoint,
};
use crate::lego::{LegoSet, LegoMinifig};
use crate::ranking::{rank_desc, rank_by_metric_desc, lemma_rank_desc_properties};
use crate::store::Store;

verus! {

// The toy-collection repository. A reload logs in to the catalog, fetches the
// owned sets and the owned minifigures, and publishes both as one snapshot;
// a response whose status is not "success" contributes nothing.

/// The catalog's login response: a session hash the data URLs carry.
pub struct BricksetLoginResponse {
    pub hash: String,
}

impl BricksetLoginResponse {
    pub fn new(hash: String) -> (r: BricksetLoginResponse)
        ensures
            r == (BricksetLoginResponse { hash }),
    {
        BricksetLoginResponse { hash }
    }
}

/// The image URLs of one catalog set.
pub struct BricksetSetImages {
    pub image_url: String,
    pub thumbnail_url: String,
}

impl BricksetSetImages {
    pub fn new(image_url: String, thumbnail_url: String) -> (r: BricksetSetImages)
        ensures
            r == (BricksetSetImages { image_url, thumbnail_url }),
    {
        BricksetSetImages { image_url, thumbnail_url }
    }
}

impl Clone for BricksetSetImages {
    fn clone(&self) -> (r: BricksetSetImages)
        ensures
            r == *self,
    {
        BricksetSetImages {
            image_url: self.image_url.clone(),
            thumbnail_url: self.thumbnail_url.clone(),
        }
    }
}

/// How many copies of a set the account owns.
pub struct BricksetSetCollection {
    pub qty_owned: u32,
}

impl BricksetSetCollection {
    pub fn new(qty_owned: u32) -> (r: BricksetSetCollection)
        ensures
            r == (BricksetSetCollection { qty_owned }),
    {
        BricksetSetCollection { qty_owned }
    }
}

impl Clone for BricksetSetCollection {
    fn clone(&self) -> (r: BricksetSetCollection)
        ensures
            r == *self,
    {
        BricksetSetCollection { qty_owned: self.qty_owned }
    }
}

/// One owned set as the catalog returns it. `pieces` is absent for sets the
/// catalog has no piece count for.
pub struct BricksetSet {
    pub set_id: u32,
    pub name: String,
    pub number: String,
    pub category: String,
    pub pieces: Option<u32>,
    pub image: BricksetSetImages,
    pub brickset_url: String,
    pub collection: BricksetSetCollection,
}

impl BricksetSet {
    pub fn new(
        set_id: u32,
        name: String,
        number: String,
        category: String,
        pieces: Option<u32>,
        image: BricksetSetImages,
        brickset_url: String,
        collection: BricksetSetCollection,
    ) -> (r: BricksetSet)
        ensures
            r == (BricksetSet {
                set_id,
                name,
                number,
                category,
                pieces,
                image,
                brickset_url,
                collection,
            }),
    {
        BricksetSet { set_id, name, number, category, pieces, image, brickset_url, collection }
    }
}

impl Clone for BricksetSet {
    fn clone(&self) -> (r: BricksetSet)
        ensures
            r == *self,
    {
        BricksetSet {
            set_id: self.set_id,
            name: self.name.clone(),
            number: self.number.clone(),
            category: self.category.clone(),
            pieces: self.pieces,
            image: self.image.clone(),
            brickset_url: self.brickset_url.clone(),
            collection: self.collection.clone(),
        }
    }
}

impl Keyed for BricksetSet {
    type K = u32;

    open spec fn spec_key(&self) -> u32 {
        self.set_id
    }

    fn key_eq(&self, other: &Self) -> (r: bool) {
        self.set_id == other.set_id
    }
}

/// One owned minifigure as the catalog returns it.
pub struct BricksetMinifig {
    pub minifig_number: String,
    pub name: String,
    pub category: String,
    pub owned_in_sets: u32,
    pub owned_loose: u32,
}

impl BricksetMinifig {
    pub fn new(
        minifig_number: String,
        name: String,
        category: String,
        owned_in_sets: u32,
        owned_loose: u32,
    ) -> (r: BricksetMinifig)
        ensures
            r == (BricksetMinifig { minifig_number, name, category, owned_in_sets, owned_loose }),
    {
        BricksetMinifig { minifig_number, name, category, owned_in_sets, owned_loose }
    }
}

impl Clone for BricksetMinifig {
    fn clone(&self) -> (r: BricksetMinifig)
        ensures
            r == *self,
    {
        BricksetMinifig {
            minifig_number: self.minifig_number.clone(),
            name: self.name.clone(),
            category: self.category.clone(),
            owned_in_sets: self.owned_in_sets,
            owned_loose: self.owned_loose,
        }
    }
}

impl Keyed for BricksetMinifig {
    type K = Seq<char>;

    open spec fn spec_key(&self) -> Seq<char> {
        self.minifig_number@
    }

    fn key_eq(&self, other: &Self) -> (r: bool) {
        self.minifig_number == other.minifig_number
    }
}

/// The catalog's answer to the owned-sets query.
pub struct GetSetResponse {
    pub status: String,
    pub sets: Vec<BricksetSet>,
}

impl GetSetResponse {
    pub fn new(status: String, sets: Vec<BricksetSet>) -> (r: GetSetResponse)
        ensures
            r.status == status,
            r.sets == sets,
    {
        GetSetResponse { status, sets }
    }
}

/// The catalog's answer to the owned-minifigures query.
pub struct GetMinifigsResponse {
    pub status: String,
    pub minifigs: Vec<BricksetMinifig>,
}

impl GetMinifigsResponse {
    pub fn new(status: String, minifigs: Vec<BricksetMinifig>) -> (r: GetMinifigsResponse)
        ensures
            r.status == status,
            r.minifigs == minifigs,
    {
        GetMinifigsResponse { status, minifigs }
    }
}

/// The raw catalog data one snapshot holds: sets and minifigures, keyed
/// uniquely.
pub struct BricksetData {
    pub sets: Vec<BricksetSet>,
    pub minifigs: Vec<BricksetMinifig>,
}

impl BricksetData {
    pub fn new(sets: Vec<BricksetSet>, minifigs: Vec<BricksetMinifig>) -> (r: BricksetData)
        ensures
            r.sets == sets,
            r.minifigs == minifigs,
    {
        BricksetData { sets, minifigs }
    }
}

/// The login URL with the configured credentials.
pub open spec fn login_url_spec(config: Config) -> Seq<char> {
    "https://brickset.com/api/v3.asmx/login"@ + "?apiKey="@ + config.brickset.api_key@
        + "&username="@ + config.brickset.username@ + "&password="@ + config.brickset.password@
}

pub fn make_login_url(config: &Config) -> (r: String)
    ensures
        r@ == login_url_spec(*config),
{
    let r = String::from_str("https://brickset.com/api/v3.asmx/login").concat("?apiKey=").concat(
        config.brickset.api_key.as_str(),
    ).concat("&username=").concat(config.brickset.username.as_str()).concat("&password=").concat(
        config.brickset.password.as_str(),
    );
    assert(r@ =~= login_url_spec(*config));
    r
}

/// The owned-sets URL for one login session.
pub open spec fn get_set_url_spec(config: Config, hash: Seq<char>) -> Seq<char> {
    "https://brickset.com/api/v3.asmx/getSets"@ + "?apiKey="@ + config.brickset.api_key@
        + "&userHash="@ + hash + "&params={\"owned\":1, \"pageSize\": 500}"@
}

pub fn make_get_set_url(config: &Config, hash: &str) -> (r: String)
    ensures
        r@ == get_set_url_spec(*config, hash@),
{
    let r = String::from_str("https://brickset.com/api/v3.asmx/getSets").concat("?apiKey=").concat(
        config.brickset.api_key.as_str(),
    ).concat("&userHash=").concat(hash).concat("&params={\"owned\":1, \"pageSize\": 500}");
    assert(r@ =~= get_set_url_spec(*config, hash@));
    r
}

/// The owned-minifigures URL for one login session.
pub open spec fn get_minifig_url_spec(config: Config, hash: Seq<char>) -> Seq<char> {
    "https://brickset.com/api/v3.asmx/getMinifigCollection"@ + "?apiKey="@
        + config.brickset.api_key@ + "&userHash="@ + hash
        + "&params={\"owned\":1, \"pageSize\": 500}"@
}

pub fn make_get_minifig_url(config: &Config, hash: &str) -> (r: String)
    ensures
        r@ == get_minifig_url_spec(*config, hash@),
{
    let r = String::from_str("https://brickset.com/api/v3.asmx/getMinifigCollection").concat(
        "?apiKey=",
    ).concat(config.brickset.api_key.as_str()).concat("&userHash=").concat(hash).concat(
        "&params={\"owned\":1, \"pageSize\": 500}",
    );
    assert(r@ =~= get_minifig_url_spec(*config, hash@));
    r
}

/// The normalized form of one catalog set: a missing piece count becomes 1.
pub open spec fn set_from_brickset(b: BricksetSet) -> LegoSet {
    LegoSet {
        key: b.set_id,
        name: b.name,
        number: b.number,
        category: b.category,
        pieces: if b.pieces is Some {
            b.pieces->0
        } else {
            1
        },
        image: b.image.image_url,
        thumbnail: b.image.thumbnail_url,
        brickset_url: b.brickset_url,
        quantity: b.collection.qty_owned,
    }
}

/// The normalized form of one catalog minifigure.
pub open spec fn minifig_from_brickset(m: BricksetMinifig) -> LegoMinifig {
    LegoMinifig {
        key: m.minifig_number,
        name: m.name,
        category: m.category,
        owned_in_sets: m.owned_in_sets,
        owned_loose: m.owned_loose,
    }
}

/// The sets a reload keeps from the catalog's answer: its sets, keyed
/// uniquely, when it reports success, and nothing otherwise.
pub open spec fn sets_snapshot(resp: GetSetResponse) -> Seq<BricksetSet> {
    if resp.status@ == "success"@ {
        upsert_all(Seq::empty(), resp.sets@)
    } else {
        Seq::empty()
    }
}

/// The minifigures a reload keeps from the catalog's answer.
pub open spec fn minifigs_snapshot(resp: GetMinifigsResponse) -> Seq<BricksetMinifig> {
    if resp.status@ == "success"@ {
        upsert_all(Seq::empty(), resp.minifigs@)
    } else {
        Seq::empty()
    }
}

/// Each set's piece count, a missing one counting as 1.
pub open spec fn brickset_piece_metrics(sets: Seq<BricksetSet>) -> Seq<u64> {
    sets.map_values(
        |b: BricksetSet|
            if b.pieces is Some {
                b.pieces->0 as u64
            } else {
                1u64
            },
    )
}

/// The sets' ids ordered by piece count descending, ties by snapshot position.
pub open spec fn most_piece_sets_spec(sets: Seq<BricksetSet>) -> Seq<u32> {
    rank_desc(brickset_piece_metrics(sets)).map_values(|p: usize| sets[p as int].set_id)
}

/// Each minifigure's total copies owned.
pub open spec fn minifig_owned_metrics(minifigs: Seq<BricksetMinifig>) -> Seq<u64> {
    minifigs.map_values(|m: BricksetMinifig| (m.owned_in_sets + m.owned_loose) as u64)
}

/// The minifigures' numbers ordered by copies owned descending, ties by
/// snapshot position.
pub open spec fn most_owned_minifigs_spec(minifigs: Seq<BricksetMinifig>) -> Seq<Seq<char>> {
    rank_desc(minifig_owned_metrics(minifigs)).map_values(
        |p: usize| minifigs[p as int].minifig_number@,
    )
}

/// The total piece count over the snapshot's sets.
pub open spec fn total_pieces_spec(sets: Seq<BricksetSet>) -> int
    decreases sets.len(),
{
    if sets.len() == 0 {
        0
    } else {
        total_pieces_spec(sets.drop_last()) + (if sets.last().pieces is Some {
            sets.last().pieces->0 as int
        } else {
            1int
        })
    }
}

/// A serializable export of the toy-collection snapshot.
pub struct LegoRepoArchive {
    pub brickset: BricksetData,
}

/// The toy-collection repository: owns the catalog snapshot store.
pub struct LegoRepo {
    store: Store<BricksetData>,
}

impl LegoRepo {
    pub closed spec fn sets_raw(&self) -> Seq<BricksetSet> {
        self.store@.sets@
    }

    pub closed spec fn minifigs_raw(&self) -> Seq<BricksetMinifig> {
        self.store@.minifigs@
    }

    pub closed spec fn wf(&self) -> bool {
        &&& self.store.wf()
        &&& unique_keys(self.sets_raw())
        &&& unique_keys(self.minifigs_raw())
        &&& self.sets_raw().len() <= u32::MAX
        &&& self.minifigs_raw().len() <= u32::MAX
    }

    pub fn new() -> (r: LegoRepo)
        ensures
            r.wf(),
            r.sets_raw() == Seq::<BricksetSet>::empty(),
            r.minifigs_raw() == Seq::<BricksetMinifig>::empty(),
    {
        LegoRepo { store: Store::new(BricksetData { sets: Vec::new(), minifigs: Vec::new() }) }
    }

    /// Seeds a repository from an archive, bypassing the network. Entries are
    /// keyed uniquely: one whose key repeats an earlier one replaces it.
    pub fn from_archive(archive: LegoRepoArchive) -> (r: LegoRepo)
        requires
            archive.brickset.sets@.len() <= u32::MAX,
            archive.brickset.minifigs@.len() <= u32::MAX,
        ensures
            r.wf(),
            r.sets_raw() == upsert_all(Seq::<BricksetSet>::empty(), archive.brickset.sets@),
            r.minifigs_raw() == upsert_all(
                Seq::<BricksetMinifig>::empty(),
                archive.brickset.minifigs@,
            ),
            unique_keys(archive.brickset.sets@) ==> r.sets_raw() == archive.brickset.sets@,
            unique_keys(archive.brickset.minifigs@) ==> r.minifigs_raw()
                == archive.brickset.minifigs@,
    {
        let mut sets: Vec<BricksetSet> = Vec::new();
        let mut minifigs: Vec<BricksetMinifig> = Vec::new();
        proof {
            lemma_upsert_all_unique(Seq::<BricksetSet>::empty(), archive.brickset.sets@);
            lemma_upsert_all_unique(Seq::<BricksetMinifig>::empty(), archive.brickset.minifigs@);
            if unique_keys(archive.brickset.sets@) {
                lemma_upsert_all_disjoint(Seq::<BricksetSet>::empty(), archive.brickset.sets@);
                assert(Seq::<BricksetSet>::empty() + archive.brickset.sets@
                    =~= archive.brickset.sets@);
            }
            if unique_keys(archive.brickset.minifigs@) {
                lemma_upsert_all_disjoint(
                    Seq::<BricksetMinifig>::empty(),
                    archive.brickset.minifigs@,
                );
                assert(Seq::<BricksetMinifig>::empty() + archive.brickset.minifigs@
                    =~= archive.brickset.minifigs@);
            }
        }
        let BricksetData { sets: archive_sets, minifigs: archive_minifigs } = archive.brickset;
        upsert_all_vec(&mut sets, archive_sets);
        upsert_all_vec(&mut minifigs, archive_minifigs);
        LegoRepo { store: Store::new(BricksetData { sets, minifigs }) }
    }

    /// One full refresh cycle over already-fetched data. On a primary-fetch
    /// failure (login or either query) the current snapshot stays untouched
    /// and the error is returned; otherwise both answers become the new
    /// snapshot, each contributing nothing unless its status is "success".
    pub fn reload(&mut self, fetched: Result<(GetSetResponse, GetMinifigsResponse), FetchError>)
        -> (r: Result<(), FetchError>)
        requires
            old(self).wf(),
            fetched matches Ok(responses) ==> responses.0.sets@.len() <= u32::MAX
                && responses.1.minifigs@.len() <= u32::MAX,
        ensures
            final(self).wf(),
            match fetched {
                Ok(responses) => r is Ok && final(self).sets_raw() == sets_snapshot(responses.0)
                    && final(self).minifigs_raw() == minifigs_snapshot(responses.1),
                Err(e) => r == Err::<(), FetchError>(e) && final(self).sets_raw() == old(
                    self,
                ).sets_raw() && final(self).minifigs_raw() == old(self).minifigs_raw(),
            },
    {
        match fetched {
            Err(e) => Err(e),
            Ok((set_response, minifig_response)) => {
                let mut sets: Vec<BricksetSet> = Vec::new();
                let mut minifigs: Vec<BricksetMinifig> = Vec::new();
                if set_response.status == String::from_str("success") {
                    proof {
                        lemma_upsert_all_unique(Seq::<BricksetSet>::empty(), set_response.sets@);
                    }
                    upsert_all_vec(&mut sets, set_response.sets);
                }
                if minifig_response.status == String::from_str("success") {
                    proof {
                        lemma_upsert_all_unique(
                            Seq::<BricksetMinifig>::empty(),
                            minifig_response.minifigs@,
                        );
                    }
                    upsert_all_vec(&mut minifigs, minifig_response.minifigs);
                }
                self.store.replace(BricksetData { sets, minifigs });
                Ok(())
            },
        }
    }

    pub fn get_archived(&self) -> (r: Result<LegoRepoArchive, Error>)
        requires
            self.wf(),
        ensures
            r matches Ok(a) && a.brickset.sets@ == self.sets_raw() && a.brickset.minifigs@
                == self.minifigs_raw() && unique_keys(a.brickset.sets@) && unique_keys(
                a.brickset.minifigs@,
            ) && a.brickset.sets@.len() <= u32::MAX && a.brickset.minifigs@.len() <= u32::MAX,
    {
        let data = self.store.read();
        let mut sets: Vec<BricksetSet> = Vec::new();
        let mut i: usize = 0;
        while i < data.sets.len()
            invariant
                data.sets@ == self.sets_raw(),
                i <= data.sets@.len(),
                sets@.len() == i,
                forall|k: int| 0 <= k < i ==> #[trigger] sets@[k] == data.sets@[k],
            decreases data.sets@.len() - i,
        {
            sets.push(data.sets[i].clone());
            i += 1;
        }
        assert(sets@ =~= self.sets_raw());
        let mut minifigs: Vec<BricksetMinifig> = Vec::new();
        let mut i: usize = 0;
        while i < data.minifigs.len()
            invariant
                data.minifigs@ == self.minifigs_raw(),
                i <= data.minifigs@.len(),
                minifigs@.len() == i,
                forall|k: int| 0 <= k < i ==> #[trigger] minifigs@[k] == data.minifigs@[k],
            decreases data.minifigs@.len() - i,
        {
            minifigs.push(data.minifigs[i].clone());
            i += 1;
        }
        assert(minifigs@ =~= self.minifigs_raw());
        Ok(LegoRepoArchive { brickset: BricksetData { sets, minifigs } })
    }

    /// Every set of the current snapshot, normalized, in snapshot order.
    pub fn get_all_sets(&self) -> (r: Vec<LegoSet>)
        requires
            self.wf(),
        ensures
            r@ == self.sets_raw().map_values(|b: BricksetSet| set_from_brickset(b)),
    {
        let data = self.store.read();
        let mut r: Vec<LegoSet> = Vec::new();
        let mut i: usize = 0;
        while i < data.sets.len()
            invariant
                data.sets@ == self.sets_raw(),
                i <= data.sets@.len(),
                r@.len() == i,
                forall|k: int|
                    0 <= k < i ==> #[trigger] r@[k] == set_from_brickset(data.sets@[k]),
            decreases data.sets@.len() - i,
        {
            let b = data.sets[i].clone();
            let pieces = match b.pieces {
                Some(p) => p,
                None => 1,
            };
            r.push(
                LegoSet {
                    key: b.set_id,
                    name: b.name,
                    number: b.number,
                    category: b.category,
                    pieces,
                    image: b.image.image_url,
                    thumbnail: b.image.thumbnail_url,
                    brickset_url: b.brickset_url,
                    quantity: b.collection.qty_owned,
                },
            );
            i += 1;
        }
        assert(r@ =~= self.sets_raw().map_values(|b: BricksetSet| set_from_brickset(b)));
        r
    }

    /// Every minifigure of the current snapshot, normalized, in snapshot
    /// order.
    pub fn get_all_minifigs(&self) -> (r: Vec<LegoMinifig>)
        requires
            self.wf(),
        ensures
            r@ == self.minifigs_raw().map_values(|m: BricksetMinifig| minifig_from_brickset(m)),
    {
        let data = self.store.read();
        let mut r: Vec<LegoMinifig> = Vec::new();
        let mut i: usize = 0;
        while i < data.minifigs.len()
            invariant
                data.minifigs@ == self.minifigs_raw(),
                i <= data.minifigs@.len(),
                r@.len() == i,
                forall|k: int|
                    0 <= k < i ==> #[trigger] r@[k] == minifig_from_brickset(data.minifigs@[k]),
            decreases data.minifigs@.len() - i,
        {
            let m = data.minifigs[i].clone();
            r.push(
                LegoMinifig {
                    key: m.minifig_number,
                    name: m.name,
                    category: m.category,
                    owned_in_sets: m.owned_in_sets,
                    owned_loose: m.owned_loose,
                },
            );
            i += 1;
        }
        assert(r@ =~= self.minifigs_raw().map_values(|m: BricksetMinifig| minifig_from_brickset(m)));
        r
    }

    /// The sets' ids, most pieces first.
    pub fn get_most_piece_sets(&self) -> (r: Vec<u32>)
        requires
            self.wf(),
        ensures
            r@ == most_piece_sets_spec(self.sets_raw()),
    {
        let data = self.store.read();
        let mut metrics: Vec<u64> = Vec::new();
        let mut i: usize = 0;
        while i < data.sets.len()
            invariant
                data.sets@ == self.sets_raw(),
                i <= data.sets@.len(),
                metrics@ =~= brickset_piece_metrics(data.sets@).take(i as int),
            decreases data.sets@.len() - i,
        {
            let metric = match data.sets[i].pieces {
                Some(p) => p as u64,
                None => 1u64,
            };
            metrics.push(metric);
            i += 1;
        }
        assert(metrics@ =~= brickset_piece_metrics(data.sets@));
        let order = rank_by_metric_desc(&metrics);
        proof {
            lemma_rank_desc_properties(metrics@);
        }
        let mut r: Vec<u32> = Vec::new();
        let mut i: usize = 0;
        while i < order.len()
            invariant
                data.sets@ == self.sets_raw(),
                order@ == rank_desc(brickset_piece_metrics(data.sets@)),
                forall|k: int| 0 <= k < order@.len() ==> (#[trigger] order@[k]) < data.sets@.len(),
                i <= order@.len(),
                r@ =~= most_piece_sets_spec(data.sets@).take(i as int),
            decreases order@.len() - i,
        {
            r.push(data.sets[order[i]].set_id);
            i += 1;
        }
        assert(r@ =~= most_piece_sets_spec(data.sets@));
        r
    }

    /// The minifigures' numbers, most copies owned first.
    pub fn get_most_owned_minifigs(&self) -> (r: Vec<String>)
        requires
            self.wf(),
        ensures
            r@.map_values(|s: String| s@) == most_owned_minifigs_spec(self.minifigs_raw()),
    {
        let data = self.store.read();
        let mut metrics: Vec<u64> = Vec::new();
        let mut i: usize = 0;
        while i < data.minifigs.len()
            invariant
                data.minifigs@ == self.minifigs_raw(),
                i <= data.minifigs@.len(),
                metrics@ =~= minifig_owned_metrics(data.minifigs@).take(i as int),
            decreases data.minifigs@.len() - i,
        {
            metrics.push(data.minifigs[i].owned_in_sets as u64 + data.minifigs[i].owned_loose as u64);
            i += 1;
        }
        assert(metrics@ =~= minifig_owned_metrics(data.minifigs@));
        let order = rank_by_metric_desc(&metrics);
        proof {
            lemma_rank_desc_properties(metrics@);
        }
        let mut r: Vec<String> = Vec::new();
        let mut i: usize = 0;
        while i < order.len()
            invariant
                data.minifigs@ == self.minifigs_raw(),
                order@ == rank_desc(minifig_owned_metrics(data.minifigs@)),
                forall|k: int|
                    0 <= k < order@.len() ==> (#[trigger] order@[k]) < data.minifigs@.len(),
                i <= order@.len(),
                r@.len() == i,
                forall|k: int|
                    0 <= k < i ==> (#[trigger] r@[k])@ == most_owned_minifigs_spec(
                        data.minifigs@,
                    )[k],
            decreases order@.len() - i,
        {
            r.push(data.minifigs[order[i]].minifig_number.clone());
            i += 1;
        }
        assert(r@.map_values(|s: String| s@) =~= most_owned_minifigs_spec(data.minifigs@));
        r
    }

    /// The total piece count over the current snapshot's sets, a missing
    /// count counting as 1.
    pub fn get_total_pieces(&self) -> (r: u64)
        requires
            self.wf(),
        ensures
            r == total_pieces_spec(self.sets_raw()),
    {
        let data = self.store.read();
        let mut total: u64 = 0;
        let mut i: usize = 0;
        while i < data.sets.len()
            invariant
                data.sets@ == self.sets_raw(),
                data.sets@.len() <= u32::MAX,
                i <= data.sets@.len(),
                total == total_pieces_spec(data.sets@.take(i as int)),
                total <= (i as int) * (u32::MAX as int),
            decreases data.sets@.len() - i,
        {
            let pieces = match data.sets[i].pieces {
                Some(p) => p as u64,
                None => 1u64,
            };
            proof {
                assert(data.sets@.take(i as int + 1).drop_last() =~= data.sets@.take(i as int));
                assert(total + pieces <= u64::MAX) by (nonlinear_arith)
                    requires
                        total <= (i as int) * (u32::MAX as int),
                        i < data.sets@.len() <= u32::MAX,
                        pieces <= u32::MAX,
                ;
            }
            total = total + pieces;
            i += 1;
        }
        proof {
            assert(data.sets@.take(data.sets@.len() as int) =~= data.sets@);
        }
        total
    }
}

/// Archive round-trip: restoring a repository from the archive of another
/// yields the same snapshot, so every read accessor — the sets, the
/// minifigures, both derived orderings, the piece total — returns the same
/// values.
pub proof fn lemma_lego_archive_round_trip(sets: Seq<BricksetSet>, minifigs: Seq<BricksetMinifig>)
    requires
        unique_keys(sets),
        unique_keys(minifigs),
    ensures
        upsert_all(Seq::<BricksetSet>::empty(), sets) == sets,
        upsert_all(Seq::<BricksetMinifig>::empty(), minifigs) == minifigs,
        most_piece_sets_spec(upsert_all(Seq::<BricksetSet>::empty(), sets))
            == most_piece_sets_spec(sets),
        most_owned_minifigs_spec(upsert_all(Seq::<BricksetMinifig>::empty(), minifigs))
            == most_owned_minifigs_spec(minifigs),
        total_pieces_spec(upsert_all(Seq::<BricksetSet>::empty(), sets)) == total_pieces_spec(sets),
{
    assert(Seq::<BricksetSet>::empty() + sets =~= sets);
    assert(Seq::<BricksetMinifig>::empty() + minifigs =~= minifigs);
    lemma_upsert_all_disjoint(Seq::<BricksetSet>::empty(), sets);
    lemma_upsert_all_disjoint(Seq::<BricksetMinifig>::empty(), minifigs);
}

} // verus!
