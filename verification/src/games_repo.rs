use vstd::prelude::*;
use vstd::string::StringExecFns;
use crate::config::Config;
use crate::error::{Error, FetchError};
use crate::fanout::{successes, collect_successes};
use crate::games::{Game, GameView, GameAchievement, game_views, unlocked_count};
use crate::keyed::{
    Keyed, key_index, lemma_key_index, unique_keys, upsert_all, upsert_all_vec,
    lemma_upsert_all_unique, lemma_upsert_all_disjoint,
};
use crate::ranking::{rank_desc, rank_by_metric_desc, lemma_rank_desc_properties};
use crate::store::Store;
use crate::text::{dec_chars, u32_to_dec, spaces_to_underscores, replace_spaces};

verus! {

// The game-library repository. A reload fetches the owned-games list, then
// fans out one enrichment fetch per game (schema and player achievements);
// the outcomes are merged here into the snapshot that the store publishes.

/// One owned game as the provider's listing returns it.
pub struct SteamOwnedGame {
    pub appid: u32,
    pub name: String,
    pub playtime_forever: u32,
    pub img_icon_url: String,
    pub rtime_last_played: u32,
}

impl SteamOwnedGame {
    pub fn new(
        appid: u32,
        name: String,
        playtime_forever: u32,
        img_icon_url: String,
        rtime_last_played: u32,
    ) -> (g: SteamOwnedGame)
        ensures
            g == (SteamOwnedGame { appid, name, playtime_forever, img_icon_url, rtime_last_played }),
    {
        SteamOwnedGame { appid, name, playtime_forever, img_icon_url, rtime_last_played }
    }
}

/// One achievement definition of a game's schema.
pub struct SteamGameDataAcheivement {
    pub name: String,
    pub display_name: String,
    pub description: String,
    pub icon: String,
    pub icon_gray: String,
}

impl SteamGameDataAcheivement {
    pub fn new(
        name: String,
        display_name: String,
        description: String,
        icon: String,
        icon_gray: String,
    ) -> (a: SteamGameDataAcheivement)
        ensures
            a == (SteamGameDataAcheivement { name, display_name, description, icon, icon_gray }),
    {
        SteamGameDataAcheivement { name, display_name, description, icon, icon_gray }
    }
}

/// The achievement definitions of one game's schema.
pub struct SteamGameDataAvaialableGameStats {
    pub achievements: Vec<SteamGameDataAcheivement>,
}

impl SteamGameDataAvaialableGameStats {
    pub fn new(achievements: Vec<SteamGameDataAcheivement>) -> (s: SteamGameDataAvaialableGameStats)
        ensures
            s.achievements == achievements,
    {
        SteamGameDataAvaialableGameStats { achievements }
    }
}

/// One game's schema as the provider returns it.
pub struct SteamAvailableGameStatsResponse {
    pub game_name: String,
    pub game: SteamGameDataAvaialableGameStats,
}

impl SteamAvailableGameStatsResponse {
    pub fn new(game_name: String, game: SteamGameDataAvaialableGameStats) -> (r:
        SteamAvailableGameStatsResponse)
        ensures
            r.game_name == game_name,
            r.game == game,
    {
        SteamAvailableGameStatsResponse { game_name, game }
    }
}

/// One achievement's per-player state: `achieved` is 1 when unlocked, and
/// `unlocktime` is then the unix timestamp of the unlock.
pub struct SteamGamePlayerAchievement {
    pub apiname: String,
    pub achieved: u8,
    pub unlocktime: u32,
}

impl SteamGamePlayerAchievement {
    pub fn new(apiname: String, achieved: u8, unlocktime: u32) -> (a: SteamGamePlayerAchievement)
        ensures
            a == (SteamGamePlayerAchievement { apiname, achieved, unlocktime }),
    {
        SteamGamePlayerAchievement { apiname, achieved, unlocktime }
    }
}

impl Keyed for SteamGamePlayerAchievement {
    type K = Seq<char>;

    open spec fn spec_key(&self) -> Seq<char> {
        self.apiname@
    }

    fn key_eq(&self, other: &Self) -> (r: bool) {
        self.apiname == other.apiname
    }
}

/// The owned-games listing URL for the configured account.
pub open spec fn get_games_url_spec(config: Config) -> Seq<char> {
    "https://api.steampowered.com/IPlayerService/GetOwnedGames/v0001/?format=json&include_appinfo=true"@
        + "&key="@ + config.steam.api_key@ + "&steamid="@ + config.steam.steam_id@
}

pub fn make_get_games_url(config: &Config) -> (r: String)
    ensures
        r@ == get_games_url_spec(*config),
{
    let r = String::from_str(
        "https://api.steampowered.com/IPlayerService/GetOwnedGames/v0001/?format=json&include_appinfo=true",
    ).concat("&key=").concat(config.steam.api_key.as_str()).concat("&steamid=").concat(
        config.steam.steam_id.as_str(),
    );
    assert(r@ =~= get_games_url_spec(*config));
    r
}

/// The schema URL for one game.
pub open spec fn game_data_url_spec(appid: u32, config: Config) -> Seq<char> {
    "http://api.steampowered.com/ISteamUserStats/GetSchemaForGame/v2/?format=json"@ + "&key="@
        + config.steam.api_key@ + "&appid="@ + dec_chars(appid as nat)
}

pub fn make_steam_game_data_url(appid: u32, config: &Config) -> (r: String)
    ensures
        r@ == game_data_url_spec(appid, *config),
{
    let r = String::from_str(
        "http://api.steampowered.com/ISteamUserStats/GetSchemaForGame/v2/?format=json",
    ).concat("&key=").concat(config.steam.api_key.as_str()).concat("&appid=").concat(
        u32_to_dec(appid).as_str(),
    );
    assert(r@ =~= game_data_url_spec(appid, *config));
    r
}

/// The player-achievements URL for one game.
pub open spec fn player_achievements_url_spec(appid: u32, config: Config) -> Seq<char> {
    "http://api.steampowered.com/ISteamUserStats/GetPlayerAchievements/v0001/?format=json"@
        + "&key="@ + config.steam.api_key@ + "&appid="@ + dec_chars(appid as nat) + "&steamid="@
        + config.steam.steam_id@
}

pub fn make_get_player_achievements_url(appid: u32, config: &Config) -> (r: String)
    ensures
        r@ == player_achievements_url_spec(appid, *config),
{
    let r = String::from_str(
        "http://api.steampowered.com/ISteamUserStats/GetPlayerAchievements/v0001/?format=json",
    ).concat("&key=").concat(config.steam.api_key.as_str()).concat("&appid=").concat(
        u32_to_dec(appid).as_str(),
    ).concat("&steamid=").concat(config.steam.steam_id.as_str());
    assert(r@ =~= player_achievements_url_spec(appid, *config));
    r
}

/// The store-page link of a game, derived from its id and name.
pub open spec fn game_link_spec(appid: u32, name: Seq<char>) -> Seq<char> {
    "https://store.steampowered.com/app/"@ + dec_chars(appid as nat) + "/"@
        + spaces_to_underscores(name)
}

/// The header-image URL of a game, derived from its id.
pub open spec fn game_image_spec(appid: u32) -> Seq<char> {
    "https://steamcdn-a.akamaihd.net/steam/apps/"@ + dec_chars(appid as nat) + "/header.jpg"@
}

/// When the player's state for the named achievement says it was unlocked:
/// the first state with that name, provided it reports `achieved == 1`.
pub open spec fn achievement_unlock(
    players: Seq<SteamGamePlayerAchievement>,
    name: Seq<char>,
) -> Option<u32> {
    let i = key_index(players, name);
    if i == -1 {
        None
    } else if players[i].achieved == 1 {
        Some(players[i].unlocktime)
    } else {
        None
    }
}

/// One schema achievement joined with the player's state.
pub open spec fn merged_achievement(
    def: SteamGameDataAcheivement,
    players: Seq<SteamGamePlayerAchievement>,
) -> GameAchievement {
    GameAchievement {
        name: def.name,
        display_name: def.display_name,
        description: def.description,
        icon: def.icon,
        icon_gray: def.icon_gray,
        unlocked_date: achievement_unlock(players, def.name@),
    }
}

/// Every schema achievement joined with the player's state, keyed uniquely by
/// name (a later definition with the same name replaces the earlier one).
pub open spec fn merged_achievements(
    defs: Seq<SteamGameDataAcheivement>,
    players: Seq<SteamGamePlayerAchievement>,
) -> Seq<GameAchievement> {
    upsert_all(
        Seq::empty(),
        defs.map_values(|d: SteamGameDataAcheivement| merged_achievement(d, players)),
    )
}

fn find_player_unlock(players: &Vec<SteamGamePlayerAchievement>, name: &String) -> (r: Option<u32>)
    ensures
        r == achievement_unlock(players@, name@),
{
    let mut j: usize = 0;
    while j < players.len()
        invariant
            j <= players@.len(),
            forall|k: int| 0 <= k < j ==> (#[trigger] players@[k]).apiname@ != name@,
        decreases players@.len() - j,
    {
        if players[j].apiname == *name {
            proof {
                lemma_key_index(players@, name@);
                assert(key_index(players@, name@) == j);
            }
            if players[j].achieved == 1 {
                return Some(players[j].unlocktime);
            } else {
                return None;
            }
        }
        j += 1;
    }
    proof {
        lemma_key_index(players@, name@);
    }
    None
}

/// Joins a game's achievement definitions with the player's per-achievement
/// state.
pub fn merge_achievements(
    defs: Vec<SteamGameDataAcheivement>,
    players: &Vec<SteamGamePlayerAchievement>,
) -> (r: Vec<GameAchievement>)
    ensures
        r@ == merged_achievements(defs@, players@),
{
    let ghost orig = defs@;
    let ghost f = |d: SteamGameDataAcheivement| merged_achievement(d, players@);
    let mut defs = defs;
    let mut r: Vec<GameAchievement> = Vec::new();
    while defs.len() > 0
        invariant
            merged_achievements(orig, players@) == upsert_all(r@, defs@.map_values(f)),
            f == (|d: SteamGameDataAcheivement| merged_achievement(d, players@)),
        decreases defs@.len(),
    {
        let ghost before = defs@;
        let d = defs.remove(0);
        let unlocked = find_player_unlock(players, &d.name);
        let a = GameAchievement {
            name: d.name,
            display_name: d.display_name,
            description: d.description,
            icon: d.icon,
            icon_gray: d.icon_gray,
            unlocked_date: unlocked,
        };
        proof {
            assert(a == f(before[0]));
            assert(defs@.map_values(f) =~= before.map_values(f).drop_first());
            assert(before.map_values(f)[0] == f(before[0]));
        }
        crate::keyed::upsert_vec(&mut r, a);
    }
    proof {
        assert(defs@.map_values(f) =~= Seq::<GameAchievement>::empty());
    }
    r
}

/// Builds one game of the snapshot from its listing entry, its schema's
/// achievement definitions, and the player's achievement state: the link and
/// image URLs are derived from the id and name, and the achievements are the
/// definitions joined with the player state.
pub fn game_from_parts(
    owned: SteamOwnedGame,
    defs: Vec<SteamGameDataAcheivement>,
    players: Vec<SteamGamePlayerAchievement>,
) -> (g: Game)
    ensures
        g.key == owned.appid,
        g.name == owned.name,
        g.playtime == owned.playtime_forever,
        g.last_played == owned.rtime_last_played,
        g.image@ == game_image_spec(owned.appid),
        g.link@ == game_link_spec(owned.appid, owned.name@),
        g.achievements@ == merged_achievements(defs@, players@),
{
    let link = String::from_str("https://store.steampowered.com/app/").concat(
        u32_to_dec(owned.appid).as_str(),
    ).concat("/").concat(replace_spaces(owned.name.as_str()).as_str());
    let image = String::from_str("https://steamcdn-a.akamaihd.net/steam/apps/").concat(
        u32_to_dec(owned.appid).as_str(),
    ).concat("/header.jpg");
    assert(link@ =~= game_link_spec(owned.appid, owned.name@));
    assert(image@ =~= game_image_spec(owned.appid));
    let achievements = merge_achievements(defs, &players);
    Game {
        key: owned.appid,
        name: owned.name,
        image,
        playtime: owned.playtime_forever,
        last_played: owned.rtime_last_played,
        link,
        achievements,
    }
}

/// The snapshot that a reload publishes from the fan-out outcomes: the fetched
/// games, keyed uniquely by id (failed items are dropped; a later game with
/// the same id replaces the earlier one).
pub open spec fn games_snapshot(outcomes: Seq<Option<Game>>) -> Seq<GameView> {
    game_views(upsert_all(Seq::empty(), successes(outcomes)))
}

/// Each game's play time, in minutes.
pub open spec fn playtime_metrics(games: Seq<GameView>) -> Seq<u64> {
    games.map_values(|g: GameView| g.playtime as u64)
}

/// The games' ids ordered by play time descending, ties by snapshot position.
pub open spec fn most_played_spec(games: Seq<GameView>) -> Seq<u32> {
    rank_desc(playtime_metrics(games)).map_values(|p: usize| games[p as int].key)
}

/// Each game's last-played timestamp.
pub open spec fn last_played_metrics(games: Seq<GameView>) -> Seq<u64> {
    games.map_values(|g: GameView| g.last_played as u64)
}

/// The games' ids ordered by recency descending, ties by snapshot position.
pub open spec fn most_recently_played_spec(games: Seq<GameView>) -> Seq<u32> {
    rank_desc(last_played_metrics(games)).map_values(|p: usize| games[p as int].key)
}

/// Each game's count of unlocked achievements.
pub open spec fn unlocked_metrics(games: Seq<GameView>) -> Seq<u64> {
    games.map_values(|g: GameView| unlocked_count(g.achievements) as u64)
}

/// The games' ids ordered by unlocked achievements descending, ties by
/// snapshot position.
pub open spec fn most_completed_spec(games: Seq<GameView>) -> Seq<u32> {
    rank_desc(unlocked_metrics(games)).map_values(|p: usize| games[p as int].key)
}

/// The total play time over all games of the snapshot.
pub open spec fn total_playtime_spec(games: Seq<GameView>) -> int
    decreases games.len(),
{
    if games.len() == 0 {
        0
    } else {
        total_playtime_spec(games.drop_last()) + games.last().playtime
    }
}

/// A serializable export of the games snapshot, used to seed a repository
/// without a live fetch. Derived orderings are never archived; they are
/// recomputed from the games.
pub struct GameRepoArchive {
    pub games: Vec<Game>,
}

/// The game-library repository: owns the games snapshot store and knows how
/// to shape fetched upstream data into the next snapshot.
pub struct GamesRepo {
    store: Store<Vec<Game>>,
}

impl GamesRepo {
    /// The games the current snapshot holds, as stored.
    pub closed spec fn games_raw(&self) -> Seq<Game> {
        self.store@@
    }

    /// The current snapshot's games, by view.
    pub open spec fn games(&self) -> Seq<GameView> {
        game_views(self.games_raw())
    }

    pub closed spec fn wf(&self) -> bool {
        &&& self.store.wf()
        &&& unique_keys(self.games_raw())
        &&& self.games_raw().len() <= u32::MAX
    }

    pub fn new() -> (r: GamesRepo)
        ensures
            r.wf(),
            r.games() == Seq::<GameView>::empty(),
    {
        let r = GamesRepo { store: Store::new(Vec::new()) };
        proof {
            assert(r.games() =~= Seq::<GameView>::empty());
        }
        r
    }

    /// Seeds a repository from an archive, bypassing the network. Games are
    /// keyed uniquely: an archive entry whose id repeats an earlier one
    /// replaces it.
    pub fn from_archive(archive: GameRepoArchive) -> (r: GamesRepo)
        requires
            archive.games@.len() <= u32::MAX,
        ensures
            r.wf(),
            r.games() == game_views(upsert_all(Seq::<Game>::empty(), archive.games@)),
            unique_keys(archive.games@) ==> r.games() == game_views(archive.games@),
    {
        let mut games: Vec<Game> = Vec::new();
        proof {
            lemma_upsert_all_unique(Seq::<Game>::empty(), archive.games@);
            if unique_keys(archive.games@) {
                lemma_upsert_all_disjoint(Seq::<Game>::empty(), archive.games@);
                assert(Seq::<Game>::empty() + archive.games@ =~= archive.games@);
            }
        }
        upsert_all_vec(&mut games, archive.games);
        GamesRepo { store: Store::new(games) }
    }

    /// One full refresh cycle over already-fetched data. On a primary-fetch
    /// failure the current snapshot stays untouched and the error is
    /// returned; otherwise the fan-out outcomes become the new snapshot
    /// (failed items dropped) and the reload reports success — also when
    /// every item failed.
    pub fn reload(&mut self, fetched: Result<Vec<Option<Game>>, FetchError>) -> (r: Result<
        (),
        FetchError,
    >)
        requires
            old(self).wf(),
            fetched matches Ok(outcomes) ==> outcomes@.len() <= u32::MAX,
        ensures
            final(self).wf(),
            match fetched {
                Ok(outcomes) => r is Ok && final(self).games() == games_snapshot(outcomes@),
                Err(e) => r == Err::<(), FetchError>(e) && final(self).games() == old(self).games(),
            },
    {
        match fetched {
            Err(e) => Err(e),
            Ok(outcomes) => {
                proof {
                    crate::fanout::lemma_fanout_counts(outcomes@);
                }
                let fetched_games = collect_successes(outcomes);
                let mut games: Vec<Game> = Vec::new();
                proof {
                    lemma_upsert_all_unique(Seq::<Game>::empty(), fetched_games@);
                }
                upsert_all_vec(&mut games, fetched_games);
                self.store.replace(games);
                Ok(())
            },
        }
    }

    pub fn get_archived(&self) -> (r: Result<GameRepoArchive, Error>)
        requires
            self.wf(),
        ensures
            r matches Ok(a) && game_views(a.games@) == self.games() && unique_keys(a.games@)
                && a.games@.len() <= u32::MAX,
    {
        let games = self.store.read();
        let mut copy: Vec<Game> = Vec::new();
        let mut i: usize = 0;
        while i < games.len()
            invariant
                games@ == self.games_raw(),
                i <= games@.len(),
                copy@.len() == i,
                forall|k: int| 0 <= k < i ==> (#[trigger] copy@[k])@ == games@[k]@,
            decreases games@.len() - i,
        {
            copy.push(games[i].clone());
            i += 1;
        }
        assert(game_views(copy@) =~= self.games());
        proof {
            assert forall|a: int, b: int| 0 <= a < b < copy@.len() implies (
            #[trigger] copy@[a]).spec_key() != (#[trigger] copy@[b]).spec_key() by {
                assert(copy@[a]@.key == games@[a]@.key && copy@[b]@.key == games@[b]@.key);
            }
        }
        Ok(GameRepoArchive { games: copy })
    }

    /// Every game of the current snapshot, in snapshot order.
    pub fn get_all_games(&self) -> (r: &Vec<Game>)
        requires
            self.wf(),
        ensures
            game_views(r@) == self.games(),
    {
        self.store.read()
    }

    /// The games' ids, most recently played first.
    pub fn get_games_by_most_recently_played(&self) -> (r: Vec<u32>)
        requires
            self.wf(),
        ensures
            r@ == most_recently_played_spec(self.games()),
    {
        let games = self.store.read();
        let ghost views = self.games();
        let mut metrics: Vec<u64> = Vec::new();
        let mut i: usize = 0;
        while i < games.len()
            invariant
                games@ == self.games_raw(),
                views == game_views(games@),
                i <= games@.len(),
                metrics@ =~= last_played_metrics(views).take(i as int),
            decreases games@.len() - i,
        {
            metrics.push(games[i].last_played as u64);
            i += 1;
        }
        assert(metrics@ =~= last_played_metrics(views));
        let order = rank_by_metric_desc(&metrics);
        proof {
            lemma_rank_desc_properties(metrics@);
        }
        let mut r: Vec<u32> = Vec::new();
        let mut i: usize = 0;
        while i < order.len()
            invariant
                games@ == self.games_raw(),
                views == game_views(games@),
                order@ == rank_desc(last_played_metrics(views)),
                forall|k: int| 0 <= k < order@.len() ==> (#[trigger] order@[k]) < games@.len(),
                i <= order@.len(),
                r@ =~= most_recently_played_spec(views).take(i as int),
            decreases order@.len() - i,
        {
            r.push(games[order[i]].key);
            i += 1;
        }
        assert(r@ =~= most_recently_played_spec(views));
        r
    }

    /// The games' ids, most played first.
    pub fn get_games_by_most_played(&self) -> (r: Vec<u32>)
        requires
            self.wf(),
        ensures
            r@ == most_played_spec(self.games()),
    {
        let games = self.store.read();
        let ghost views = self.games();
        let mut metrics: Vec<u64> = Vec::new();
        let mut i: usize = 0;
        while i < games.len()
            invariant
                games@ == self.games_raw(),
                views == game_views(games@),
                i <= games@.len(),
                metrics@ =~= playtime_metrics(views).take(i as int),
            decreases games@.len() - i,
        {
            metrics.push(games[i].playtime as u64);
            i += 1;
        }
        assert(metrics@ =~= playtime_metrics(views));
        let order = rank_by_metric_desc(&metrics);
        proof {
            lemma_rank_desc_properties(metrics@);
        }
        let mut r: Vec<u32> = Vec::new();
        let mut i: usize = 0;
        while i < order.len()
            invariant
                games@ == self.games_raw(),
                views == game_views(games@),
                order@ == rank_desc(playtime_metrics(views)),
                forall|k: int| 0 <= k < order@.len() ==> (#[trigger] order@[k]) < games@.len(),
                i <= order@.len(),
                r@ =~= most_played_spec(views).take(i as int),
            decreases order@.len() - i,
        {
            r.push(games[order[i]].key);
            i += 1;
        }
        assert(r@ =~= most_played_spec(views));
        r
    }

    /// The games' ids, most unlocked achievements first.
    pub fn get_games_by_most_completed_achievements(&self) -> (r: Vec<u32>)
        requires
            self.wf(),
        ensures
            r@ == most_completed_spec(self.games()),
    {
        let games = self.store.read();
        let ghost views = self.games();
        let mut metrics: Vec<u64> = Vec::new();
        let mut i: usize = 0;
        while i < games.len()
            invariant
                games@ == self.games_raw(),
                views == game_views(games@),
                i <= games@.len(),
                metrics@ =~= unlocked_metrics(views).take(i as int),
            decreases games@.len() - i,
        {
            proof {
                crate::games::lemma_unlocked_count_bound(games@[i as int].achievements@);
            }
            metrics.push(games[i].achievements_unlocked_count() as u64);
            i += 1;
        }
        assert(metrics@ =~= unlocked_metrics(views));
        let order = rank_by_metric_desc(&metrics);
        proof {
            lemma_rank_desc_properties(metrics@);
        }
        let mut r: Vec<u32> = Vec::new();
        let mut i: usize = 0;
        while i < order.len()
            invariant
                games@ == self.games_raw(),
                views == game_views(games@),
                order@ == rank_desc(unlocked_metrics(views)),
                forall|k: int| 0 <= k < order@.len() ==> (#[trigger] order@[k]) < games@.len(),
                i <= order@.len(),
                r@ =~= most_completed_spec(views).take(i as int),
            decreases order@.len() - i,
        {
            r.push(games[order[i]].key);
            i += 1;
        }
        assert(r@ =~= most_completed_spec(views));
        r
    }

    /// The total play time over the current snapshot: the sum counts every
    /// game the snapshot holds, and nothing else — an item whose enrichment
    /// fetch failed is not in the snapshot and so not in the total.
    pub fn get_total_play_time(&self) -> (r: u64)
        requires
            self.wf(),
        ensures
            r == total_playtime_spec(self.games()),
    {
        let games = self.store.read();
        let ghost views = self.games();
        let mut total: u64 = 0;
        let mut i: usize = 0;
        while i < games.len()
            invariant
                games@ == self.games_raw(),
                views == game_views(games@),
                views.len() == games@.len(),
                games@.len() <= u32::MAX,
                i <= games@.len(),
                total == total_playtime_spec(views.take(i as int)),
                total <= (i as int) * (u32::MAX as int),
            decreases games@.len() - i,
        {
            proof {
                assert(views.take(i as int + 1).drop_last() =~= views.take(i as int));
                assert(views[i as int] == games@[i as int]@);
                assert(total + games@[i as int].playtime <= u64::MAX) by (nonlinear_arith)
                    requires
                        total <= (i as int) * (u32::MAX as int),
                        i < games@.len() <= u32::MAX,
                        games@[i as int].playtime <= u32::MAX,
                ;
            }
            total = total + (games[i].playtime as u64);
            i += 1;
        }
        proof {
            assert(views.take(views.len() as int) =~= views);
        }
        total
    }
}

/// Archive round-trip: restoring a repository from the archive of another
/// yields the same snapshot, so every read accessor — the games themselves,
/// each derived ordering, the play-time total — returns the same values.
pub proof fn lemma_archive_round_trip(games: Seq<Game>)
    requires
        unique_keys(games),
    ensures
        upsert_all(Seq::<Game>::empty(), games) == games,
        game_views(upsert_all(Seq::<Game>::empty(), games)) == game_views(games),
        most_played_spec(game_views(upsert_all(Seq::<Game>::empty(), games))) == most_played_spec(
            game_views(games),
        ),
        most_recently_played_spec(game_views(upsert_all(Seq::<Game>::empty(), games)))
            == most_recently_played_spec(game_views(games)),
        most_completed_spec(game_views(upsert_all(Seq::<Game>::empty(), games)))
            == most_completed_spec(game_views(games)),
        total_playtime_spec(game_views(upsert_all(Seq::<Game>::empty(), games)))
            == total_playtime_spec(game_views(games)),
{
    assert(Seq::<Game>::empty() + games =~= games);
    lemma_upsert_all_disjoint(Seq::<Game>::empty(), games);
}

/// Idempotent reload: the snapshot a reload publishes is a function of the
/// fetched outcomes alone — not of the repository's prior state — so two
/// reloads over an unchanged upstream publish snapshots with identical
/// content and identical derived orderings.
pub proof fn lemma_reload_idempotent(outcomes: Seq<Option<Game>>, first: Seq<GameView>, second: Seq<
    GameView,
>)
    requires
        first == games_snapshot(outcomes),
        second == games_snapshot(outcomes),
    ensures
        first == second,
        most_played_spec(first) == most_played_spec(second),
        most_recently_played_spec(first) == most_recently_played_spec(second),
        most_completed_spec(first) == most_completed_spec(second),
        total_playtime_spec(first) == total_playtime_spec(second),
{
}

/// Partial fan-out failure tolerance: when `k` of `N` item fetches fail and
/// the fetched games carry distinct ids, the published snapshot holds exactly
/// `N - k` games (and `reload` reports success, by its contract).
pub proof fn lemma_fanout_partial_failure(outcomes: Seq<Option<Game>>)
    requires
        unique_keys(successes(outcomes)),
    ensures
        games_snapshot(outcomes).len() == outcomes.len() - crate::fanout::failure_count(outcomes),
{
    crate::fanout::lemma_fanout_counts(outcomes);
    assert(Seq::<Game>::empty() + successes(outcomes) =~= successes(outcomes));
    lemma_upsert_all_disjoint(Seq::<Game>::empty(), successes(outcomes));
}

/// Full fan-out failure: when every item fetch failed, the published snapshot
/// is empty — and `reload` still reports success, by its contract.
pub proof fn lemma_fanout_full_failure(outcomes: Seq<Option<Game>>)
    requires
        forall|k: int| 0 <= k < outcomes.len() ==> (#[trigger] outcomes[k]) is None,
    ensures
        games_snapshot(outcomes) == Seq::<GameView>::empty(),
{
    crate::fanout::lemma_fanout_all_failed(outcomes);
    assert(successes(outcomes) =~= Seq::<Game>::empty());
    assert(games_snapshot(outcomes) =~= Seq::<GameView>::empty());
}

} // verus!
