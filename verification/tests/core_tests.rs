use aggregator::about_repo::AboutRepo;
use aggregator::cdn::CndPath;
use aggregator::config::{Config, ConfigBrickset, ConfigMastodon, ConfigStatusLol, ConfigSteam};
use aggregator::data::{load_source_data, Data, SourceData};
use aggregator::error::FetchError;
use aggregator::faq_repo::FaqRepo;
use aggregator::games::Game;
use aggregator::games_repo::{
    make_get_games_url, make_get_player_achievements_url, make_steam_game_data_url, GamesRepo,
};
use aggregator::lego::{LegoCollection, LegoSet};
use aggregator::lego_repo::{
    make_get_minifig_url, make_get_set_url, make_login_url, BricksetMinifig, BricksetSet,
    BricksetSetCollection, BricksetSetImages, GetMinifigsResponse, GetSetResponse, LegoRepo,
};
use aggregator::queries::{get_all_games_data_query, get_all_lego_data_query, get_faq_data_query};
use aggregator::status::{StatusLolPost};
use aggregator::store::Store;

fn config() -> Config {
    Config::new(
        "./cache".to_string(),
        ConfigMastodon::new(
            "acct".to_string(),
            "ck".to_string(),
            "cs".to_string(),
            "at".to_string(),
        ),
        ConfigStatusLol::new("https://example.status.lol/feed".to_string()),
        ConfigSteam::new("STEAMKEY".to_string(), "76561198000000000".to_string()),
        ConfigBrickset::new("BRICKKEY".to_string(), "user".to_string(), "pass".to_string()),
    )
}

#[test]
fn store_serves_the_last_replaced_snapshot() {
    let mut store: Store<u32> = Store::new(1);
    assert_eq!(*store.read(), 1);
    store.replace(2);
    assert_eq!(*store.read(), 2);
    store.replace(7);
    assert_eq!(*store.read(), 7);
}

#[test]
fn config_getters_return_fields() {
    let c = config();
    assert_eq!(c.cache_dir(), "./cache");
    assert_eq!(c.mastodon().account_id(), "acct");
    assert_eq!(c.mastodon().client_key(), "ck");
    assert_eq!(c.mastodon().client_secret(), "cs");
    assert_eq!(c.mastodon().access_token(), "at");
    assert_eq!(c.status_lol().url(), "https://example.status.lol/feed");
    assert_eq!(c.steam().api_key(), "STEAMKEY");
    assert_eq!(c.brickset().username(), "user");
}

#[test]
fn steam_urls_carry_credentials_and_ids() {
    let c = config();
    assert_eq!(
        make_get_games_url(&c),
        "https://api.steampowered.com/IPlayerService/GetOwnedGames/v0001/?format=json&include_appinfo=true&key=STEAMKEY&steamid=76561198000000000"
    );
    assert_eq!(
        make_steam_game_data_url(440, &c),
        "http://api.steampowered.com/ISteamUserStats/GetSchemaForGame/v2/?format=json&key=STEAMKEY&appid=440"
    );
    assert_eq!(
        make_get_player_achievements_url(440, &c),
        "http://api.steampowered.com/ISteamUserStats/GetPlayerAchievements/v0001/?format=json&key=STEAMKEY&appid=440&steamid=76561198000000000"
    );
}

#[test]
fn brickset_urls_carry_credentials_and_hash() {
    let c = config();
    assert_eq!(
        make_login_url(&c),
        "https://brickset.com/api/v3.asmx/login?apiKey=BRICKKEY&username=user&password=pass"
    );
    assert_eq!(
        make_get_set_url(&c, "HASH"),
        "https://brickset.com/api/v3.asmx/getSets?apiKey=BRICKKEY&userHash=HASH&params={\"owned\":1, \"pageSize\": 500}"
    );
    assert_eq!(
        make_get_minifig_url(&c, "HASH"),
        "https://brickset.com/api/v3.asmx/getMinifigCollection?apiKey=BRICKKEY&userHash=HASH&params={\"owned\":1, \"pageSize\": 500}"
    );
}

#[test]
fn about_and_faq_repos_swap_text() {
    let mut about = AboutRepo::new();
    assert_eq!(about.get_about().text(), "");
    about.reload(Ok("about me".to_string())).unwrap();
    assert_eq!(about.get_about().text(), "about me");
    assert_eq!(
        about.reload(Err(FetchError::Network)),
        Err(FetchError::Network)
    );
    assert_eq!(about.get_about().text(), "about me");

    let mut faq = FaqRepo::new();
    faq.reload(Ok("q and a".to_string())).unwrap();
    assert_eq!(get_faq_data_query(&faq).faq_text, "q and a");
}

#[test]
fn cdn_path_holds_its_path() {
    let p = CndPath::new("2024/01/img.jpeg".to_string());
    assert_eq!(p.path(), "2024/01/img.jpeg");
}

fn sample_post(id: &str) -> StatusLolPost {
    StatusLolPost::new(
        format!("statuslol-{}", id),
        format!("/micros/statuslol-{}", id),
        7,
        "content".to_string(),
        "🎉".to_string(),
        format!("https://zoe.status.lol/{}", id),
    )
}

fn sample_collection() -> LegoCollection {
    let mut c = LegoCollection::new();
    c.add_sets(vec![LegoSet::new(
        1,
        "castle".to_string(),
        "1-1".to_string(),
        "Castle".to_string(),
        500,
        String::new(),
        String::new(),
        String::new(),
        1,
    )]);
    c
}

#[test]
fn load_source_data_applies_successful_loads() {
    let source = SourceData::new();
    let loaded = load_source_data(
        source,
        Ok(vec![sample_post("a")]),
        Ok(sample_collection()),
    )
    .unwrap();
    assert_eq!(loaded.status_lol().posts().len(), 1);
    assert_eq!(loaded.lego().sets().len(), 1);
    assert_eq!(loaded.lego().total_pieces(), 500);
}

#[test]
fn load_source_data_keeps_parts_whose_load_failed() {
    let source = load_source_data(
        SourceData::new(),
        Ok(vec![sample_post("a")]),
        Ok(sample_collection()),
    )
    .unwrap();
    // Both loads fail: everything already loaded stays, and the load as a
    // whole still succeeds.
    let kept = load_source_data(
        source,
        Err(FetchError::Status(503)),
        Err(FetchError::Network),
    )
    .unwrap();
    assert_eq!(kept.status_lol().posts().len(), 1);
    assert_eq!(kept.lego().sets().len(), 1);
}

#[test]
fn published_data_mirrors_source_data() {
    let source = load_source_data(
        SourceData::new(),
        Ok(vec![sample_post("a"), sample_post("b")]),
        Ok(sample_collection()),
    )
    .unwrap();
    let data = Data::from_source_data(&source).unwrap();
    assert_eq!(data.status_lol().posts().len(), 2);
    assert_eq!(data.lego().sets().len(), 1);
    assert_eq!(data.lego().total_pieces(), 500);
    assert_eq!(data.lego().sets_order(), source.lego().sets_order());
}

fn game(key: u32, playtime: u32) -> Game {
    Game::new(
        key,
        format!("game {}", key),
        String::new(),
        playtime,
        key,
        String::new(),
        Vec::new(),
    )
}

#[test]
fn games_query_shapes_the_snapshot() {
    let mut repo = GamesRepo::new();
    repo.reload(Ok(vec![Some(game(1, 10)), Some(game(2, 50))])).unwrap();
    let response = get_all_games_data_query(&repo);
    assert_eq!(response.games.len(), 2);
    assert_eq!(response.game_keys, vec![1, 2]);
    assert_eq!(response.games_by_play_time, vec![2, 1]);
    assert_eq!(response.games_by_last_played, vec![2, 1]);
    assert_eq!(response.total_play_time, 60);
    assert_eq!(response.games[0].name, "game 1");
}

#[test]
fn lego_query_shapes_the_snapshot() {
    let mut repo = LegoRepo::new();
    repo.reload(Ok((
        GetSetResponse::new(
            "success".to_string(),
            vec![BricksetSet::new(
                10,
                "ship".to_string(),
                "10-1".to_string(),
                "Space".to_string(),
                Some(900),
                BricksetSetImages::new("img".to_string(), "thumb".to_string()),
                "url".to_string(),
                BricksetSetCollection::new(1),
            )],
        ),
        GetMinifigsResponse::new(
            "success".to_string(),
            vec![BricksetMinifig::new(
                "sw0001".to_string(),
                "pilot".to_string(),
                "Space".to_string(),
                2,
                1,
            )],
        ),
    )))
    .unwrap();
    let response = get_all_lego_data_query(&repo);
    assert_eq!(response.sets.len(), 1);
    assert_eq!(response.sets[0].pieces, 900);
    assert_eq!(response.set_ids, vec![10]);
    assert_eq!(response.minifigs.len(), 1);
    assert_eq!(response.minifigs[0].total_owned, 3);
    assert_eq!(
        response.minifigs[0].image_url,
        "https://img.bricklink.com/ItemImage/MN/0/sw0001.png"
    );
    assert_eq!(response.minifig_ids, vec!["sw0001".to_string()]);
    assert_eq!(response.total_pieces, 900);
}
