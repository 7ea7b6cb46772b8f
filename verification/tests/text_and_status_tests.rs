use aggregator::error::FetchError;
use aggregator::status::{post_from_api, ApiStatusLolPost, StatusLolPost, StatusLolPosts};
use aggregator::status_lol_repo::{
    ApiStatusLolResponseValue, StatusLolRepo, StatusLolRequestValue, StatusLolResponse,
};
use aggregator::text::{parse_timestamp, replace_spaces, u32_to_dec};

#[test]
fn parse_timestamp_reads_digit_strings() {
    assert_eq!(parse_timestamp("0"), Some(0));
    assert_eq!(parse_timestamp("1674580561"), Some(1674580561));
    assert_eq!(parse_timestamp("9223372036854775807"), Some(i64::MAX));
}

#[test]
fn parse_timestamp_rejects_malformed_input() {
    assert_eq!(parse_timestamp(""), None);
    assert_eq!(parse_timestamp("12a"), None);
    assert_eq!(parse_timestamp("-5"), None);
    assert_eq!(parse_timestamp(" 12"), None);
    // One past i64::MAX.
    assert_eq!(parse_timestamp("9223372036854775808"), None);
}

#[test]
fn u32_decimal_rendering() {
    assert_eq!(u32_to_dec(0), "0");
    assert_eq!(u32_to_dec(65), "65");
    assert_eq!(u32_to_dec(1020), "1020");
    assert_eq!(u32_to_dec(u32::MAX), "4294967295");
}

#[test]
fn replace_spaces_rewrites_every_space() {
    assert_eq!(replace_spaces("Team Fortress 2"), "Team_Fortress_2");
    assert_eq!(replace_spaces("nospace"), "nospace");
}

fn api_post(id: &str, address: &str, created: &str) -> ApiStatusLolPost {
    ApiStatusLolPost::new(
        id.to_string(),
        address.to_string(),
        created.to_string(),
        "1 day ago".to_string(),
        "✨".to_string(),
        "hello".to_string(),
        None,
    )
}

#[test]
fn status_post_normalization() {
    let p: StatusLolPost = post_from_api(&api_post("abc", "zoe", "1674580561"), 42);
    assert_eq!(p.key(), "statuslol-abc");
    assert_eq!(p.permalink(), "/micros/statuslol-abc");
    assert_eq!(p.original_url(), "https://zoe.status.lol/abc");
    assert_eq!(p.date(), 1674580561);
    assert_eq!(p.content(), "hello");
    assert_eq!(p.emoji(), "✨");
}

#[test]
fn status_post_bad_timestamp_falls_back_to_now() {
    let p = post_from_api(&api_post("abc", "zoe", "not-a-number"), 42);
    assert_eq!(p.date(), 42);
}

#[test]
fn status_repo_publishes_fetched_posts() {
    let mut repo = StatusLolRepo::new();
    let r = repo.reload(Ok(StatusLolResponse::new(
        StatusLolRequestValue::new(200, true),
        ApiStatusLolResponseValue::new(
            "ok".to_string(),
            vec![api_post("p1", "zoe", "100"), api_post("p2", "zoe", "200")],
        ),
    )));
    assert!(r.is_ok());
    let posts = repo.get_status_lol_posts(0).unwrap();
    assert_eq!(posts.len(), 2);
    assert_eq!(posts[0].key(), "statuslol-p1");
    assert_eq!(posts[1].date(), 200);
}

#[test]
fn status_repo_fetch_error_keeps_last_good_snapshot() {
    let mut repo = StatusLolRepo::new();
    repo.reload(Ok(StatusLolResponse::new(
        StatusLolRequestValue::new(200, true),
        ApiStatusLolResponseValue::new("ok".to_string(), vec![api_post("p1", "zoe", "100")]),
    )))
    .unwrap();
    let r = repo.reload(Err(FetchError::Malformed));
    assert_eq!(r, Err(FetchError::Malformed));
    assert_eq!(repo.get_status_lol_posts(0).unwrap().len(), 1);
}

#[test]
fn status_posts_accumulate_in_order() {
    let mut posts = StatusLolPosts::new();
    posts.add_posts(vec![post_from_api(&api_post("a", "zoe", "1"), 0)]);
    posts.add_posts(vec![post_from_api(&api_post("b", "zoe", "2"), 0)]);
    assert_eq!(posts.posts().len(), 2);
    assert_eq!(posts.posts()[0].key(), "statuslol-a");
    assert_eq!(posts.posts()[1].key(), "statuslol-b");
}
