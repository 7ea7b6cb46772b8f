use vstd::prelude::*;
use crate::about_repo::{About, AboutRepo};
use crate::faq_repo::{Faq, FaqRepo};
use crate::games::{Game, GameView, game_views};
use crate::games_repo::{
    GamesRepo, most_played_spec, most_recently_played_spec, total_playtime_spec,
};
use crate::lego::{LegoCollection, LegoSet, LegoMinifig};
use crate::lego_repo::{
    LegoRepo, set_from_brickset, minifig_from_brickset, most_piece_sets_spec,
    most_owned_minifigs_spec, total_pieces_spec,
};

verus! {

// Read-side queries: each shapes one repository's current snapshot into the
// response the HTTP layer serializes. Queries are pure over the snapshot and
// never mutate it.

/// One game as a response carries it.
pub struct ResponseGame {
    pub key: u32,
    pub name: String,
    pub image: String,
    pub playtime: u32,
    pub last_played: u32,
    pub link: String,
}

/// How a response game relates to the snapshot game it shows.
pub open spec fn response_game_matches(r: ResponseGame, g: GameView) -> bool {
    &&& r.key == g.key
    &&& r.name == g.name
    &&& r.image == g.image
    &&& r.playtime == g.playtime
    &&& r.last_played == g.last_played
    &&& r.link == g.link
}

impl ResponseGame {
    pub fn from_game(game: &Game) -> (r: ResponseGame)
        ensures
            response_game_matches(r, game@),
    {
        ResponseGame {
            key: game.key,
            name: game.name.clone(),
            image: game.image.clone(),
            playtime: game.playtime,
            last_played: game.last_played,
            link: game.link.clone(),
        }
    }
}

/// The whole games response: every game, the ids, and both orderings, plus
/// the play-time total.
pub struct ResponseGames {
    pub games: Vec<ResponseGame>,
    pub game_keys: Vec<u32>,
    pub games_by_last_played: Vec<u32>,
    pub games_by_play_time: Vec<u32>,
    pub total_play_time: u64,
}

/// Shapes the games snapshot into its response: the games in snapshot order,
/// their ids, the two orderings, and the play-time total, all agreeing with
/// the repository's accessors.
pub fn get_all_games_data_query(repo: &GamesRepo) -> (r: ResponseGames)
    requires
        repo.wf(),
    ensures
        r.games@.len() == repo.games().len(),
        forall|k: int|
            0 <= k < r.games@.len() ==> response_game_matches(
                #[trigger] r.games@[k],
                repo.games()[k],
            ),
        r.game_keys@ == repo.games().map_values(|g: GameView| g.key),
        r.games_by_last_played@ == most_recently_played_spec(repo.games()),
        r.games_by_play_time@ == most_played_spec(repo.games()),
        r.total_play_time == total_playtime_spec(repo.games()),
{
    let all = repo.get_all_games();
    let mut games: Vec<ResponseGame> = Vec::new();
    let mut game_keys: Vec<u32> = Vec::new();
    let mut i: usize = 0;
    while i < all.len()
        invariant
            game_views(all@) == repo.games(),
            i <= all@.len(),
            games@.len() == i,
            forall|k: int|
                0 <= k < i ==> response_game_matches(#[trigger] games@[k], all@[k]@),
            game_keys@ =~= repo.games().map_values(|g: GameView| g.key).take(i as int),
        decreases all@.len() - i,
    {
        games.push(ResponseGame::from_game(&all[i]));
        game_keys.push(all[i].key);
        i += 1;
    }
    assert(game_keys@ =~= repo.games().map_values(|g: GameView| g.key));
    let games_by_last_played = repo.get_games_by_most_recently_played();
    let games_by_play_time = repo.get_games_by_most_played();
    let total_play_time = repo.get_total_play_time();
    ResponseGames { games, game_keys, games_by_last_played, games_by_play_time, total_play_time }
}

/// One set as a response carries it.
pub struct ApiLegoSet {
    pub key: u32,
    pub name: String,
    pub number: String,
    pub category: String,
    pub pieces: u32,
    pub image: String,
    pub thumbnail: String,
    pub brickset_url: String,
    pub quantity: u32,
}

/// How a response set relates to the normalized snapshot set it shows.
pub open spec fn api_set_matches(r: ApiLegoSet, s: LegoSet) -> bool {
    &&& r.key == s.key
    &&& r.name == s.name
    &&& r.number == s.number
    &&& r.category == s.category
    &&& r.pieces == s.pieces
    &&& r.image == s.image
    &&& r.thumbnail == s.thumbnail
    &&& r.brickset_url == s.brickset_url
    &&& r.quantity == s.quantity
}

impl ApiLegoSet {
    pub fn from_set(set: LegoSet) -> (r: ApiLegoSet)
        ensures
            api_set_matches(r, set),
    {
        ApiLegoSet {
            key: set.key,
            name: set.name,
            number: set.number,
            category: set.category,
            pieces: set.pieces,
            image: set.image,
            thumbnail: set.thumbnail,
            brickset_url: set.brickset_url,
            quantity: set.quantity,
        }
    }
}

/// One minifigure as a response carries it, with its derived image URL and
/// total copies owned.
pub struct ApiMinifig {
    pub key: String,
    pub name: String,
    pub category: String,
    pub owned_in_sets: u32,
    pub owned_loose: u32,
    pub image_url: String,
    pub total_owned: u64,
}

/// How a response minifigure relates to the snapshot minifigure it shows.
pub open spec fn api_minifig_matches(r: ApiMinifig, m: LegoMinifig) -> bool {
    &&& r.key == m.key
    &&& r.name == m.name
    &&& r.category == m.category
    &&& r.owned_in_sets == m.owned_in_sets
    &&& r.owned_loose == m.owned_loose
    &&& r.image_url@ == "https://img.bricklink.com/ItemImage/MN/0/"@ + m.key@ + ".png"@
    &&& r.total_owned == m.owned_in_sets + m.owned_loose
}

impl ApiMinifig {
    pub fn from_minifig(minifig: LegoMinifig) -> (r: ApiMinifig)
        ensures
            api_minifig_matches(r, minifig),
    {
        let image_url = minifig.image_url();
        let total_owned = minifig.owned_in_sets as u64 + minifig.owned_loose as u64;
        ApiMinifig {
            key: minifig.key,
            name: minifig.name,
            category: minifig.category,
            owned_in_sets: minifig.owned_in_sets,
            owned_loose: minifig.owned_loose,
            image_url,
            total_owned,
        }
    }
}

/// The whole toy-collection response.
pub struct ResponseLegoCollection {
    pub sets: Vec<ApiLegoSet>,
    pub set_ids: Vec<u32>,
    pub minifigs: Vec<ApiMinifig>,
    pub minifig_ids: Vec<String>,
    pub total_pieces: u64,
}

/// Shapes the toy-collection snapshot into its response: the normalized sets
/// and minifigures in snapshot order, both orderings, and the piece total,
/// all agreeing with the repository's accessors.
pub fn get_all_lego_data_query(repo: &LegoRepo) -> (r: ResponseLegoCollection)
    requires
        repo.wf(),
    ensures
        r.sets@.len() == repo.sets_raw().len(),
        forall|k: int|
            0 <= k < r.sets@.len() ==> api_set_matches(
                #[trigger] r.sets@[k],
                set_from_brickset(repo.sets_raw()[k]),
            ),
        r.set_ids@ == most_piece_sets_spec(repo.sets_raw()),
        r.minifigs@.len() == repo.minifigs_raw().len(),
        forall|k: int|
            0 <= k < r.minifigs@.len() ==> api_minifig_matches(
                #[trigger] r.minifigs@[k],
                minifig_from_brickset(repo.minifigs_raw()[k]),
            ),
        r.minifig_ids@.map_values(|s: String| s@) == most_owned_minifigs_spec(repo.minifigs_raw()),
        r.total_pieces == total_pieces_spec(repo.sets_raw()),
{
    let all_sets = repo.get_all_sets();
    let ghost sets_raw = repo.sets_raw();
    let mut sets: Vec<ApiLegoSet> = Vec::new();
    let mut i: usize = 0;
    let n = all_sets.len();
    let mut all_sets = all_sets;
    while all_sets.len() > 0
        invariant
            sets_raw == repo.sets_raw(),
            i + all_sets@.len() == n == sets_raw.len(),
            sets@.len() == i,
            forall|k: int|
                0 <= k < all_sets@.len() ==> #[trigger] all_sets@[k] == set_from_brickset(
                    sets_raw[i + k],
                ),
            forall|k: int|
                0 <= k < i ==> api_set_matches(
                    #[trigger] sets@[k],
                    set_from_brickset(sets_raw[k]),
                ),
        decreases all_sets@.len(),
    {
        let ghost before = all_sets@;
        let set = all_sets.remove(0);
        proof {
            assert(all_sets@ =~= before.drop_first());
        }
        sets.push(ApiLegoSet::from_set(set));
        i += 1;
    }
    let set_ids = repo.get_most_piece_sets();

    let all_minifigs = repo.get_all_minifigs();
    let ghost minifigs_raw = repo.minifigs_raw();
    let mut minifigs: Vec<ApiMinifig> = Vec::new();
    let mut i: usize = 0;
    let n = all_minifigs.len();
    let mut all_minifigs = all_minifigs;
    while all_minifigs.len() > 0
        invariant
            minifigs_raw == repo.minifigs_raw(),
            i + all_minifigs@.len() == n == minifigs_raw.len(),
            minifigs@.len() == i,
            forall|k: int|
                0 <= k < all_minifigs@.len() ==> #[trigger] all_minifigs@[k]
                    == minifig_from_brickset(minifigs_raw[i + k]),
            forall|k: int|
                0 <= k < i ==> api_minifig_matches(
                    #[trigger] minifigs@[k],
                    minifig_from_brickset(minifigs_raw[k]),
                ),
        decreases all_minifigs@.len(),
    {
        let ghost before = all_minifigs@;
        let minifig = all_minifigs.remove(0);
        proof {
            assert(all_minifigs@ =~= before.drop_first());
        }
        minifigs.push(ApiMinifig::from_minifig(minifig));
        i += 1;
    }
    let minifig_ids = repo.get_most_owned_minifigs();
    let total_pieces = repo.get_total_pieces();
    ResponseLegoCollection { sets, set_ids, minifigs, minifig_ids, total_pieces }
}

impl ResponseLegoCollection {
    /// Shapes an already-built collection (the combined dataset's form of the
    /// toy data) into the same response: items mapped one for one, the
    /// precomputed orderings and total carried over.
    pub fn from_collection(collection: &LegoCollection) -> (r: ResponseLegoCollection)
        ensures
            r.sets@.len() == collection.sets_seq().len(),
            forall|k: int|
                0 <= k < r.sets@.len() ==> api_set_matches(
                    #[trigger] r.sets@[k],
                    collection.sets_seq()[k],
                ),
            r.set_ids@ == collection.sets_order_seq(),
            r.minifigs@.len() == collection.minifigs_seq().len(),
            forall|k: int|
                0 <= k < r.minifigs@.len() ==> api_minifig_matches(
                    #[trigger] r.minifigs@[k],
                    collection.minifigs_seq()[k],
                ),
            r.minifig_ids@.map_values(|s: String| s@) == collection.minifigs_order_seq(),
            r.total_pieces == collection.total_pieces_val(),
    {
        let source_sets = collection.sets();
        let mut sets: Vec<ApiLegoSet> = Vec::new();
        let mut i: usize = 0;
        while i < source_sets.len()
            invariant
                source_sets@ == collection.sets_seq(),
                i <= source_sets@.len(),
                sets@.len() == i,
                forall|k: int|
                    0 <= k < i ==> api_set_matches(#[trigger] sets@[k], source_sets@[k]),
            decreases source_sets@.len() - i,
        {
            sets.push(ApiLegoSet::from_set(source_sets[i].clone()));
            i += 1;
        }
        let source_minifigs = collection.minifigs();
        let mut minifigs: Vec<ApiMinifig> = Vec::new();
        let mut i: usize = 0;
        while i < source_minifigs.len()
            invariant
                source_minifigs@ == collection.minifigs_seq(),
                i <= source_minifigs@.len(),
                minifigs@.len() == i,
                forall|k: int|
                    0 <= k < i ==> api_minifig_matches(#[trigger] minifigs@[k], source_minifigs@[k]),
            decreases source_minifigs@.len() - i,
        {
            minifigs.push(ApiMinifig::from_minifig(source_minifigs[i].clone()));
            i += 1;
        }
        let order = collection.sets_order();
        let set_ids = vstd::slice::slice_to_vec(order.as_slice());
        let source_ids = collection.minifigs_order();
        let mut minifig_ids: Vec<String> = Vec::new();
        let mut i: usize = 0;
        while i < source_ids.len()
            invariant
                source_ids@.map_values(|s: String| s@) == collection.minifigs_order_seq(),
                collection.minifigs_order_seq().len() == source_ids@.len(),
                i <= source_ids@.len(),
                minifig_ids@.len() == i,
                forall|k: int|
                    0 <= k < i ==> (#[trigger] minifig_ids@[k])@ == collection.minifigs_order_seq()[k],
            decreases source_ids@.len() - i,
        {
            proof {
                assert(source_ids@.map_values(|s: String| s@)[i as int]
                    == collection.minifigs_order_seq()[i as int]);
            }
            minifig_ids.push(source_ids[i].clone());
            i += 1;
        }
        assert(minifig_ids@.map_values(|s: String| s@) =~= collection.minifigs_order_seq());
        let total_pieces = collection.total_pieces();
        ResponseLegoCollection { sets, set_ids, minifigs, minifig_ids, total_pieces }
    }
}

/// The FAQ response.
pub struct ResponseFaqData {
    pub faq_text: String,
}

/// Shapes the FAQ snapshot into its response.
pub fn get_faq_data_query(repo: &FaqRepo) -> (r: ResponseFaqData)
    requires
        repo.wf(),
    ensures
        r.faq_text@ == repo.text_now(),
{
    let faq: Faq = repo.get_faq();
    ResponseFaqData { faq_text: faq.text }
}

/// Shapes the about snapshot into its response.
pub fn query_get_about_data(repo: &AboutRepo) -> (r: About)
    requires
        repo.wf(),
    ensures
        r.text@ == repo.text_now(),
{
    repo.get_about()
}

} // verus!
