use aggregator::error::FetchError;
use aggregator::queries::ResponseLegoCollection;
use aggregator::lego::{LegoCollection, LegoMinifig, LegoSet};
use aggregator::lego_repo::{
    BricksetMinifig, BricksetSet, BricksetSetCollection, BricksetSetImages, GetMinifigsResponse,
    GetSetResponse, LegoRepo,
};

fn set(key: u32, pieces: u32) -> LegoSet {
    LegoSet::new(
        key,
        format!("set {}", key),
        format!("{}-1", key),
        "Theme".to_string(),
        pieces,
        String::new(),
        String::new(),
        String::new(),
        1,
    )
}

fn minifig(key: &str, in_sets: u32, loose: u32) -> LegoMinifig {
    LegoMinifig::new(
        key.to_string(),
        format!("fig {}", key),
        "Figs".to_string(),
        in_sets,
        loose,
    )
}

fn brickset_set(key: u32, pieces: Option<u32>) -> BricksetSet {
    BricksetSet::new(
        key,
        format!("set {}", key),
        format!("{}-1", key),
        "Theme".to_string(),
        pieces,
        BricksetSetImages::new("img".to_string(), "thumb".to_string()),
        "url".to_string(),
        BricksetSetCollection::new(2),
    )
}

fn brickset_minifig(key: &str, in_sets: u32, loose: u32) -> BricksetMinifig {
    BricksetMinifig::new(
        key.to_string(),
        format!("fig {}", key),
        "Figs".to_string(),
        in_sets,
        loose,
    )
}

#[test]
fn collection_orders_and_total() {
    let mut c = LegoCollection::new();
    c.add_sets(vec![set(1, 100), set(2, 5000), set(3, 1)]);
    assert_eq!(c.sets_order(), &vec![2, 1, 3]);
    assert_eq!(c.total_pieces(), 5101);
    c.add_minifigs(vec![minifig("f1", 1, 1), minifig("f2", 5, 0), minifig("f3", 0, 3)]);
    assert_eq!(
        c.minifigs_order(),
        &vec!["f2".to_string(), "f3".to_string(), "f1".to_string()]
    );
}

#[test]
fn collection_add_sets_replaces_by_key() {
    let mut c = LegoCollection::new();
    c.add_sets(vec![set(1, 100)]);
    c.add_sets(vec![set(1, 700)]);
    assert_eq!(c.sets().len(), 1);
    assert_eq!(c.sets()[0].pieces(), 700);
    assert_eq!(c.total_pieces(), 700);
}

#[test]
fn minifig_image_url_and_total_owned() {
    let m = minifig("sw0001", 2, 3);
    assert_eq!(
        m.image_url(),
        "https://img.bricklink.com/ItemImage/MN/0/sw0001.png"
    );
    assert_eq!(m.total_owned(), 5);
}

#[test]
fn lego_repo_reload_success_status_keeps_data() {
    let mut repo = LegoRepo::new();
    let r = repo.reload(Ok((
        GetSetResponse::new(
            "success".to_string(),
            vec![brickset_set(10, Some(100)), brickset_set(20, None)],
        ),
        GetMinifigsResponse::new("success".to_string(), vec![brickset_minifig("f", 1, 0)]),
    )));
    assert!(r.is_ok());
    let sets = repo.get_all_sets();
    assert_eq!(sets.len(), 2);
    // A missing piece count is normalized to 1.
    assert_eq!(sets[1].pieces(), 1);
    assert_eq!(repo.get_all_minifigs().len(), 1);
    assert_eq!(repo.get_total_pieces(), 101);
    assert_eq!(repo.get_most_piece_sets(), vec![10, 20]);
}

#[test]
fn lego_repo_non_success_status_contributes_nothing() {
    let mut repo = LegoRepo::new();
    let r = repo.reload(Ok((
        GetSetResponse::new("error".to_string(), vec![brickset_set(10, Some(100))]),
        GetMinifigsResponse::new("success".to_string(), vec![brickset_minifig("f", 1, 0)]),
    )));
    assert!(r.is_ok());
    assert_eq!(repo.get_all_sets().len(), 0);
    assert_eq!(repo.get_all_minifigs().len(), 1);
    assert_eq!(repo.get_total_pieces(), 0);
}

#[test]
fn lego_repo_fetch_error_keeps_last_good_snapshot() {
    let mut repo = LegoRepo::new();
    repo.reload(Ok((
        GetSetResponse::new("success".to_string(), vec![brickset_set(10, Some(100))]),
        GetMinifigsResponse::new("success".to_string(), vec![]),
    )))
    .unwrap();
    let r = repo.reload(Err(FetchError::Network));
    assert_eq!(r, Err(FetchError::Network));
    assert_eq!(repo.get_all_sets().len(), 1);
}

#[test]
fn lego_repo_most_owned_minifigs_order() {
    let mut repo = LegoRepo::new();
    repo.reload(Ok((
        GetSetResponse::new("success".to_string(), vec![]),
        GetMinifigsResponse::new(
            "success".to_string(),
            vec![
                brickset_minifig("a", 1, 1),
                brickset_minifig("b", 4, 2),
                brickset_minifig("c", 0, 3),
            ],
        ),
    )))
    .unwrap();
    assert_eq!(
        repo.get_most_owned_minifigs(),
        vec!["b".to_string(), "c".to_string(), "a".to_string()]
    );
}

#[test]
fn lego_archive_round_trip() {
    let mut repo = LegoRepo::new();
    repo.reload(Ok((
        GetSetResponse::new(
            "success".to_string(),
            vec![brickset_set(10, Some(100)), brickset_set(20, Some(300))],
        ),
        GetMinifigsResponse::new(
            "success".to_string(),
            vec![brickset_minifig("a", 1, 1), brickset_minifig("b", 4, 2)],
        ),
    )))
    .unwrap();
    let archive = repo.get_archived().unwrap();
    let restored = LegoRepo::from_archive(archive);
    let original_sets: Vec<u32> = repo.get_all_sets().iter().map(|s| s.key()).collect();
    let restored_sets: Vec<u32> = restored.get_all_sets().iter().map(|s| s.key()).collect();
    assert_eq!(original_sets, restored_sets);
    assert_eq!(repo.get_most_piece_sets(), restored.get_most_piece_sets());
    assert_eq!(
        repo.get_most_owned_minifigs(),
        restored.get_most_owned_minifigs()
    );
    assert_eq!(repo.get_total_pieces(), restored.get_total_pieces());
}

#[test]
fn response_from_collection_carries_orders_and_total() {
    let mut c = LegoCollection::new();
    c.add_sets(vec![set(1, 100), set(2, 5000)]);
    c.add_minifigs(vec![minifig("f1", 1, 1), minifig("f2", 5, 0)]);
    let response = ResponseLegoCollection::from_collection(&c);
    assert_eq!(response.sets.len(), 2);
    assert_eq!(response.sets[0].name, "set 1");
    assert_eq!(response.set_ids, vec![2, 1]);
    assert_eq!(response.minifigs.len(), 2);
    assert_eq!(response.minifigs[1].total_owned, 5);
    assert_eq!(
        response.minifigs[0].image_url,
        "https://img.bricklink.com/ItemImage/MN/0/f1.png"
    );
    assert_eq!(response.minifig_ids, vec!["f2".to_string(), "f1".to_string()]);
    assert_eq!(response.total_pieces, 5100);
}

#[test]
fn set_piece_ties_keep_snapshot_order() {
    let mut c = LegoCollection::new();
    c.add_sets(vec![set(9, 50), set(3, 50), set(7, 60)]);
    assert_eq!(c.sets_order(), &vec![7, 9, 3]);
}
