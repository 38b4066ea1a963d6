use ram_core::api::thumbnails::{
    avatar_headshot_url, game_icons_url, pair_thumbnails, ThumbnailEntry,
};

fn entry(target_id: u64, image_url: Option<&str>) -> ThumbnailEntry {
    ThumbnailEntry {
        target_id,
        image_url: image_url.map(|s| s.to_string()),
    }
}

/// Roblox drops IDs it can't resolve rather than returning a null entry.
/// Requesting `1,999999999999,156` returns two entries, for 1 and 156.
#[test]
fn missing_entries_do_not_shift_avatars_onto_wrong_accounts() {
    let requested = [1u64, 999_999_999_999, 156];
    let responded = vec![entry(1, Some("url-1")), entry(156, Some("url-156"))];

    let paired = pair_thumbnails(&requested, responded);

    assert_eq!(
        paired,
        vec![(1, "url-1".to_string()), (156, "url-156".to_string())]
    );
}

#[test]
fn out_of_order_responses_pair_correctly() {
    let requested = [1u64, 156];
    let responded = vec![entry(156, Some("url-156")), entry(1, Some("url-1"))];

    let paired = pair_thumbnails(&requested, responded);

    assert_eq!(
        paired,
        vec![(156, "url-156".to_string()), (1, "url-1".to_string())]
    );
}

#[test]
fn entries_without_an_image_are_skipped() {
    let requested = [1u64, 156];
    let responded = vec![entry(1, None), entry(156, Some("url-156"))];

    let paired = pair_thumbnails(&requested, responded);

    assert_eq!(paired, vec![(156, "url-156".to_string())]);
}

#[test]
fn unrequested_ids_are_ignored() {
    let requested = [1u64];
    let responded = vec![entry(1, Some("url-1")), entry(999, Some("url-999"))];

    let paired = pair_thumbnails(&requested, responded);

    assert_eq!(paired, vec![(1, "url-1".to_string())]);
}

#[test]
fn empty_response_pairs_nothing() {
    let paired = pair_thumbnails(&[1u64, 2], Vec::new());
    assert!(paired.is_empty());
}

#[test]
fn headshot_url_joins_ids_with_commas() {
    assert_eq!(
        avatar_headshot_url(&[1, 999_999_999_999, 156]),
        "https://thumbnails.roblox.com/v1/users/avatar-headshot?userIds=1,999999999999,156&size=150x150&format=Png&isCircular=false"
    );
}

#[test]
fn game_icons_url_for_one_universe() {
    assert_eq!(
        game_icons_url(&[994732206]),
        "https://thumbnails.roblox.com/v1/games/icons?universeIds=994732206&returnPolicy=PlaceHolder&size=150x150&format=Png&isCircular=false"
    );
}
