use aggregator::fanout::collect_successes;
use aggregator::games::{Game, GameAchievement};
use aggregator::games_repo::{
    game_from_parts, merge_achievements, GamesRepo, SteamGameDataAcheivement,
    SteamGamePlayerAchievement, SteamOwnedGame,
};
use aggregator::error::FetchError;

fn game(key: u32, name: &str, playtime: u32, last_played: u32) -> Game {
    Game::new(
        key,
        name.to_string(),
        String::new(),
        playtime,
        last_played,
        String::new(),
        Vec::new(),
    )
}

#[test]
fn most_played_keys_scenario() {
    // Upstream returns 3 games with playtimes [10, 50, 5].
    let mut repo = GamesRepo::new();
    let outcomes = vec![
        Some(game(1, "ten", 10, 300)),
        Some(game(2, "fifty", 50, 100)),
        Some(game(3, "five", 5, 200)),
    ];
    let r = repo.reload(Ok(outcomes));
    assert!(r.is_ok());
    assert_eq!(repo.get_games_by_most_played(), vec![2, 1, 3]);
    assert_eq!(repo.get_total_play_time(), 65);
}

#[test]
fn enrichment_failure_drops_item_and_total_excludes_it() {
    // A 4th game's enrichment fetch fails: it is absent from the snapshot,
    // and the total counts only the snapshot's games.
    let mut repo = GamesRepo::new();
    let outcomes = vec![
        Some(game(1, "ten", 10, 300)),
        Some(game(2, "fifty", 50, 100)),
        Some(game(3, "five", 5, 200)),
        None,
    ];
    let r = repo.reload(Ok(outcomes));
    assert!(r.is_ok());
    assert_eq!(repo.get_all_games().len(), 3);
    assert_eq!(repo.get_games_by_most_played(), vec![2, 1, 3]);
    assert_eq!(repo.get_total_play_time(), 65);
}

#[test]
fn partial_fanout_failure_keeps_survivors() {
    let mut repo = GamesRepo::new();
    let outcomes = vec![
        None,
        Some(game(7, "a", 1, 1)),
        None,
        Some(game(8, "b", 2, 2)),
        Some(game(9, "c", 3, 3)),
    ];
    let r = repo.reload(Ok(outcomes));
    assert!(r.is_ok());
    let keys: Vec<u32> = repo.get_all_games().iter().map(|g| g.key()).collect();
    assert_eq!(keys, vec![7, 8, 9]);
}

#[test]
fn full_fanout_failure_reports_success_with_zero_items() {
    let mut repo = GamesRepo::new();
    let r = repo.reload(Ok(vec![None, None, None]));
    assert!(r.is_ok());
    assert_eq!(repo.get_all_games().len(), 0);
    assert_eq!(repo.get_total_play_time(), 0);
}

#[test]
fn primary_failure_keeps_last_good_snapshot() {
    let mut repo = GamesRepo::new();
    repo.reload(Ok(vec![Some(game(1, "one", 10, 1))])).unwrap();
    let r = repo.reload(Err(FetchError::Status(500)));
    assert_eq!(r, Err(FetchError::Status(500)));
    assert_eq!(repo.get_all_games().len(), 1);
    assert_eq!(repo.get_total_play_time(), 10);
}

#[test]
fn archive_round_trip_games() {
    let mut repo = GamesRepo::new();
    repo.reload(Ok(vec![
        Some(game(1, "one", 10, 300)),
        Some(game(2, "two", 50, 100)),
        Some(game(3, "three", 5, 200)),
    ]))
    .unwrap();
    let archive = repo.get_archived().unwrap();
    let restored = GamesRepo::from_archive(archive);
    let original_keys: Vec<u32> = repo.get_all_games().iter().map(|g| g.key()).collect();
    let restored_keys: Vec<u32> = restored.get_all_games().iter().map(|g| g.key()).collect();
    assert_eq!(original_keys, restored_keys);
    assert_eq!(
        repo.get_games_by_most_played(),
        restored.get_games_by_most_played()
    );
    assert_eq!(
        repo.get_games_by_most_recently_played(),
        restored.get_games_by_most_recently_played()
    );
    assert_eq!(
        repo.get_games_by_most_completed_achievements(),
        restored.get_games_by_most_completed_achievements()
    );
    assert_eq!(repo.get_total_play_time(), restored.get_total_play_time());
}

#[test]
fn idempotent_reload_produces_identical_snapshots() {
    let outcomes = || {
        vec![
            Some(game(1, "one", 10, 300)),
            Some(game(2, "two", 50, 100)),
            Some(game(3, "three", 10, 200)),
        ]
    };
    let mut repo = GamesRepo::new();
    repo.reload(Ok(outcomes())).unwrap();
    let first_order = repo.get_games_by_most_played();
    let first_recent = repo.get_games_by_most_recently_played();
    let first_total = repo.get_total_play_time();
    repo.reload(Ok(outcomes())).unwrap();
    assert_eq!(repo.get_games_by_most_played(), first_order);
    assert_eq!(repo.get_games_by_most_recently_played(), first_recent);
    assert_eq!(repo.get_total_play_time(), first_total);
}

#[test]
fn playtime_ties_keep_snapshot_order() {
    let mut repo = GamesRepo::new();
    repo.reload(Ok(vec![
        Some(game(5, "a", 10, 1)),
        Some(game(4, "b", 10, 2)),
        Some(game(6, "c", 20, 3)),
    ]))
    .unwrap();
    assert_eq!(repo.get_games_by_most_played(), vec![6, 5, 4]);
}

#[test]
fn most_recently_played_orders_by_timestamp() {
    let mut repo = GamesRepo::new();
    repo.reload(Ok(vec![
        Some(game(1, "a", 1, 100)),
        Some(game(2, "b", 1, 300)),
        Some(game(3, "c", 1, 200)),
    ]))
    .unwrap();
    assert_eq!(repo.get_games_by_most_recently_played(), vec![2, 3, 1]);
}

#[test]
fn duplicate_game_key_replaces_earlier_entry() {
    let mut repo = GamesRepo::new();
    repo.reload(Ok(vec![
        Some(game(1, "first", 10, 1)),
        Some(game(1, "second", 30, 2)),
    ]))
    .unwrap();
    let all = repo.get_all_games();
    assert_eq!(all.len(), 1);
    assert_eq!(all[0].name(), "second");
    assert_eq!(repo.get_total_play_time(), 30);
}

#[test]
fn game_from_parts_builds_link_and_image() {
    let owned = SteamOwnedGame::new(
        440,
        "Team Fortress 2".to_string(),
        1234,
        "icon".to_string(),
        1700000000,
    );
    let g = game_from_parts(owned, Vec::new(), Vec::new());
    assert_eq!(g.key(), 440);
    assert_eq!(g.name(), "Team Fortress 2");
    assert_eq!(g.playtime(), 1234);
    assert_eq!(g.last_played(), 1700000000);
    assert_eq!(
        g.link(),
        "https://store.steampowered.com/app/440/Team_Fortress_2"
    );
    assert_eq!(
        g.image(),
        "https://steamcdn-a.akamaihd.net/steam/apps/440/header.jpg"
    );
}

fn def(name: &str) -> SteamGameDataAcheivement {
    SteamGameDataAcheivement::new(
        name.to_string(),
        format!("{} shown", name),
        String::new(),
        String::new(),
        String::new(),
    )
}

#[test]
fn merge_achievements_unlock_logic() {
    let defs = vec![def("a"), def("b"), def("c")];
    let players = vec![
        SteamGamePlayerAchievement::new("a".to_string(), 1, 100),
        SteamGamePlayerAchievement::new("b".to_string(), 0, 0),
    ];
    let merged = merge_achievements(defs, &players);
    assert_eq!(merged.len(), 3);
    assert_eq!(merged[0].name(), "a");
    assert_eq!(merged[0].unlocked_date(), Some(100));
    assert_eq!(merged[1].unlocked_date(), None);
    assert_eq!(merged[2].unlocked_date(), None);
}

#[test]
fn achievements_unlocked_count_counts_some() {
    let achievements = vec![
        GameAchievement::new(
            "a".to_string(),
            String::new(),
            String::new(),
            String::new(),
            String::new(),
            Some(5),
        ),
        GameAchievement::new(
            "b".to_string(),
            String::new(),
            String::new(),
            String::new(),
            String::new(),
            None,
        ),
        GameAchievement::new(
            "c".to_string(),
            String::new(),
            String::new(),
            String::new(),
            String::new(),
            Some(9),
        ),
    ];
    let g = Game::new(
        1,
        "g".to_string(),
        String::new(),
        0,
        0,
        String::new(),
        achievements,
    );
    assert_eq!(g.achievements_unlocked_count(), 2);
}

#[test]
fn collect_successes_keeps_order_and_drops_failures() {
    let outcomes = vec![Some(1u32), None, Some(3u32), None, Some(5u32)];
    assert_eq!(collect_successes(outcomes), vec![1, 3, 5]);
}
