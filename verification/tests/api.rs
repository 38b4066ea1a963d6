use ram_core::api::discover::{
    attach_icons, explore_sort_url, game_universe_ids, games_from_explore, games_from_universe_rows,
    omni_search_url, thumbnail_downloads, ExploreGame, GameSort, SearchContent, SearchSection,
    UniverseRow,
};
use ram_core::api::moderation::{
    choose_expiry, moderation_message, moderation_message_now, moderation_snapshot, moderation_status,
    NotApprovedV1, NotApprovedV2, NotApprovedV2Restriction,
};
use ram_core::clock::UtcInstant;
use ram_core::api::servers::{percent_encode, servers_url, urlencoding, GameServer};
use ram_core::api::share_link::{
    access_code_from, check_share_link, scrape_access_code, share_game_url, ShareLinkInvite,
};
use ram_core::api::universe::{
    first_universe_name, game_preview_from, place_universe_url, universe_details_url, GamePreview,
};
use ram_core::api::updates::{strip_version_prefix, update_available};
use ram_core::api::users::{first_user, pair_presences, user_profile_url, PresenceEntry, UsernameLookupEntry};
use ram_core::api::CoreError;
use ram_core::models::PopularGame;

fn api_error(e: CoreError) -> (u16, String) {
    match e {
        CoreError::RobloxApi { status, message } => (status, message),
        CoreError::Crypto(m) => panic!("unexpected crypto error {m}"),
    }
}

#[test]
fn percent_encoding_escapes_everything_but_unreserved() {
    assert_eq!(percent_encode("AZaz09-_.~"), "AZaz09-_.~");
    assert_eq!(percent_encode("a b+/="), "a%20b%2B%2F%3D");
    assert_eq!(percent_encode("\u{e9}"), "%C3%A9");
    assert_eq!(percent_encode(""), "");
    assert_eq!(urlencoding("steal an egg!"), "steal%20an%20egg%21");
}

#[test]
fn server_page_url() {
    assert_eq!(
        servers_url(2753915549, None, 100),
        "https://games.roblox.com/v1/games/2753915549/servers/Public?sortOrder=Asc&limit=100"
    );
    assert_eq!(
        servers_url(1, Some("ab+/=="), 10),
        "https://games.roblox.com/v1/games/1/servers/Public?sortOrder=Asc&limit=10&cursor=ab%2B%2F%3D%3D"
    );
}

#[test]
fn full_servers_have_no_free_slot() {
    let mut s = GameServer { id: "x".to_string(), max_players: 10, playing: 4, ping: None };
    assert!(!s.is_full());
    assert_eq!(s.free_slots(), 6);
    s.playing = 10;
    assert!(s.is_full());
    assert_eq!(s.free_slots(), 0);
    s.playing = 12;
    assert!(s.is_full());
    assert_eq!(s.free_slots(), 0);
}

#[test]
fn universe_urls() {
    assert_eq!(universe_details_url(&[1, 2]), "https://games.roblox.com/v1/games?universeIds=1,2");
    assert_eq!(place_universe_url(920587237), "https://apis.roblox.com/universes/v1/places/920587237/universe");
    assert_eq!(user_profile_url(156), "https://users.roblox.com/v1/users/156");
}

#[test]
fn universe_name_is_the_first_entry() {
    assert_eq!(first_universe_name(5, vec!["A".to_string(), "B".to_string()]).ok(), Some("A".to_string()));
    let err = api_error(first_universe_name(5, vec![]).unwrap_err());
    assert_eq!(err, (404, "universe 5 not found".to_string()));
}

#[test]
fn game_preview_needs_a_universe() {
    let err = api_error(game_preview_from(77, None, None, None).unwrap_err());
    assert_eq!(err, (404, "no universe found for place 77".to_string()));
    let p = game_preview_from(77, Some(8), Some("Game".to_string()), Some(vec![(8, "icon".to_string())])).unwrap();
    assert_eq!((p.place_id, p.universe_id, p.name.as_str(), p.thumb_url.as_str()), (77, 8, "Game", "icon"));
    let p = game_preview_from(77, Some(8), None, Some(vec![])).unwrap();
    assert_eq!((p.name.as_str(), p.thumb_url.as_str()), ("", ""));
    let p = GamePreview::default().with_name("N".to_string());
    assert_eq!((p.place_id, p.name.as_str()), (0, "N"));
}

fn invite(place: Option<u64>, link: Option<&str>, status: Option<&str>) -> Option<ShareLinkInvite> {
    Some(ShareLinkInvite {
        place_id: place,
        link_code: link.map(|s| s.to_string()),
        universe_id: Some(9),
        status: status.map(|s| s.to_string()),
    })
}

#[test]
fn share_link_checks() {
    assert_eq!(
        api_error(check_share_link(None).unwrap_err()),
        (400, "share link response missing privateServerInviteData".to_string())
    );
    assert_eq!(
        api_error(check_share_link(invite(None, Some("c"), Some("Valid"))).unwrap_err()),
        (400, "share link response missing placeId".to_string())
    );
    assert_eq!(
        api_error(check_share_link(invite(Some(1), None, Some("Valid"))).unwrap_err()),
        (400, "share link response missing linkCode".to_string())
    );
    assert_eq!(
        api_error(check_share_link(invite(Some(1), Some("c"), Some("Expired"))).unwrap_err()),
        (400, "private server invite status: Expired".to_string())
    );
    assert_eq!(
        api_error(check_share_link(invite(Some(1), Some("c"), None)).unwrap_err()),
        (400, "private server invite status: Unknown".to_string())
    );
    let ok = check_share_link(invite(Some(1), Some("c"), Some("Valid"))).ok().unwrap();
    assert_eq!(ok, (1, Some(9), "c".to_string()));
    assert_eq!(share_game_url(1, "c"), "https://www.roblox.com/games/1/game?privateServerLinkCode=c");
}

#[test]
fn access_code_is_scraped_from_the_launcher_call() {
    let html = "<script>Roblox.GameLauncher.joinPrivateGame(606849621 , '0f1e2d3c-4b5a-6978-8796-a5b4c3d2e1f0', 'x')</script>";
    assert_eq!(scrape_access_code(html).ok(), Some("0f1e2d3c-4b5a-6978-8796-a5b4c3d2e1f0".to_string()));
    let bad = "Roblox.GameLauncher.joinPrivateGame(606849621, 'NOT-A-UUID')";
    assert_eq!(
        api_error(scrape_access_code(bad).unwrap_err()),
        (400, "could not scrape accessCode from game page".to_string())
    );
}

#[test]
fn update_check_ignores_leading_v() {
    assert_eq!(strip_version_prefix("vv1.2"), "1.2");
    assert_eq!(update_available("v1.2.0", "u".to_string(), "1.2.0"), None);
    assert_eq!(update_available("1.2.0", "u".to_string(), "v1.2.0"), None);
    assert_eq!(
        update_available("v1.3.0", "url".to_string(), "v1.2.0"),
        Some(("1.3.0".to_string(), "url".to_string()))
    );
}

#[test]
fn only_a_newer_release_is_an_update() {
    assert_eq!(update_available("v1.0.0", "u".to_string(), "1.1.0"), None);
    assert_eq!(
        update_available("1.10.0", "u".to_string(), "1.9.9"),
        Some(("1.10.0".to_string(), "u".to_string()))
    );
    assert_eq!(update_available("1.2", "u".to_string(), "1.2.0"), None);
    assert_eq!(
        update_available("1.2.1", "u".to_string(), "1.2"),
        Some(("1.2.1".to_string(), "u".to_string()))
    );
    assert_eq!(update_available("beta", "u".to_string(), "1.0"), None);
    assert_eq!(update_available("2.0", "u".to_string(), "dev"), None);
}

#[test]
fn rfc3339_timestamps() {
    // The end time of a restriction is read as RFC 3339, in any offset.
    let m = |end: &str| moderation_message(v1("Spam", ""), v2(Some(end), None), at(0, 0));
    assert_eq!(m("2030-01-01T00:00:00Z"), Some(("Spam".to_string(), Some(at(1_893_456_000, 0)))));
    assert_eq!(m("2030-01-01T01:00:00.250+01:00"), Some(("Spam".to_string(), Some(at(1_893_456_000, 250_000_000)))));
    assert_eq!(m("not a date"), Some(("Spam".to_string(), None)));
}

#[test]
fn rfc3339_timestamps_keep_sub_millisecond_precision() {
    let m = |end: &str| moderation_message(v1("Spam", ""), v2(Some(end), None), at(0, 0));
    assert_eq!(
        m("2030-01-01T00:00:00.123456789Z"),
        Some(("Spam".to_string(), Some(at(1_893_456_000, 123_456_789))))
    );
    assert_eq!(
        m("2029-12-31T23:00:00.000000001-01:00"),
        Some(("Spam".to_string(), Some(at(1_893_456_000, 1))))
    );
}

fn at(secs: i64, nanos: u32) -> UtcInstant {
    UtcInstant { secs, nanos }
}

fn v1(msg: &str, end: &str) -> Option<NotApprovedV1> {
    Some(NotApprovedV1 { message_to_user: msg.to_string(), end_date: end.to_string() })
}

fn v2(end: Option<&str>, dur: Option<i64>) -> Option<NotApprovedV2> {
    Some(NotApprovedV2 {
        restriction: Some(NotApprovedV2Restriction { end_time: end.map(|s| s.to_string()), duration_seconds: dur }),
    })
}

#[test]
fn moderation_message_needs_a_reason() {
    assert_eq!(moderation_message(None, v2(None, Some(5)), at(0, 0)), None);
    assert_eq!(moderation_message(v1("   ", ""), v2(None, Some(5)), at(0, 0)), None);
}

#[test]
fn moderation_expiry_sources_in_order() {
    let now = at(1_000, 500_000_001);
    // v2 end time first
    assert_eq!(
        moderation_message(v1(" Spam ", "2031-01-01T00:00:00Z"), v2(Some("2030-01-01T00:00:00Z"), Some(60)), now),
        Some(("Spam".to_string(), Some(at(1_893_456_000, 0))))
    );
    // then the v2 duration, counted from now
    assert_eq!(
        moderation_message(v1("Spam", ""), v2(Some(""), Some(60)), now),
        Some(("Spam".to_string(), Some(at(1_060, 500_000_001))))
    );
    // a non-positive duration does not count; v1's end date does
    assert_eq!(
        moderation_message(v1("Spam", " 2030-01-01T00:00:00Z "), v2(None, Some(0)), now),
        Some(("Spam".to_string(), Some(at(1_893_456_000, 0))))
    );
    // nothing known
    assert_eq!(moderation_message(v1("Spam", ""), None, now), Some(("Spam".to_string(), None)));
}

#[test]
fn moderation_message_now_refuses_unrepresentable_expiry() {
    assert_eq!(moderation_message_now(v1("Spam", ""), v2(None, Some(i64::MAX))).0, None);
    let m = moderation_message_now(v1("Spam", ""), v2(Some("2030-01-01T00:00:00Z"), None)).0;
    assert_eq!(m, Some(Some(("Spam".to_string(), Some(at(1_893_456_000, 0))))));
    assert_eq!(moderation_message_now(None, v2(None, Some(i64::MAX))).0, Some(None));
    // A temporary ban with only a duration ends that long after the instant read.
    let (m, now) = moderation_message_now(v1("Spam", ""), v2(None, Some(3_600)));
    assert!(now.secs > 1_600_000_000 && now.nanos < 1_000_000_000);
    assert_eq!(m, Some(Some(("Spam".to_string(), Some(at(now.secs + 3_600, now.nanos))))));
}

#[test]
fn moderation_snapshots() {
    assert!(moderation_snapshot(false, None, at(5, 0)).is_none());
    let s = moderation_snapshot(true, None, at(5, 7)).unwrap();
    assert!(s.is_banned && s.reason.is_none() && s.last_checked == Some(at(5, 7)) && s.is_active());
    let s = moderation_snapshot(false, Some(("R".to_string(), Some(at(9, 1)))), at(5, 0)).unwrap();
    assert!(!s.is_banned && s.reason.as_deref() == Some("R") && s.expires_at == Some(at(9, 1)) && s.is_active());
    let s = moderation_status(true, None).unwrap();
    assert!(s.last_checked.is_some());
    assert!(moderation_status(false, None).is_none());
}

#[test]
fn explore_feed_rows() {
    let games = vec![
        ExploreGame { universe_id: 10563114921, root_place_id: 107778070777162, name: "Steal An Egg".to_string(), player_count: 1640579, genre: "Simulation".to_string() },
        ExploreGame { universe_id: 994732206, root_place_id: 2753915549, name: "Blox Fruits".to_string(), player_count: 458955, genre: "RPG".to_string() },
    ];
    let rows = games_from_explore(games.clone(), 1);
    assert_eq!(rows.len(), 1);
    assert_eq!(rows[0].root_place_id, 107778070777162);
    let rows = games_from_explore(games, 10);
    assert_eq!(rows.len(), 2);
    assert_eq!((rows[1].name.as_str(), rows[1].player_count, rows[1].genre.as_str(), rows[1].thumb_url.as_str()), ("Blox Fruits", 458955, "RPG", ""));
}

fn content(id: Option<u64>, kind: Option<&str>) -> SearchContent {
    SearchContent { content_id: id, content_type: kind.map(|s| s.to_string()) }
}

#[test]
fn search_keeps_game_results_only() {
    let sections = vec![
        SearchSection { content_group_type: Some("User".to_string()), contents: vec![content(Some(1), None)] },
        SearchSection { content_group_type: Some("Game".to_string()), contents: vec![content(Some(2), Some("Game")), content(None, None), content(Some(3), Some("Ad")), content(Some(4), None)] },
        SearchSection { content_group_type: None, contents: vec![content(Some(5), None)] },
    ];
    assert_eq!(game_universe_ids(&sections), vec![2, 4, 5]);
}

#[test]
fn universe_rows_fill_missing_fields() {
    let rows = vec![
        UniverseRow { id: Some(7), root_place_id: None, name: None, playing: None, genre: None },
        UniverseRow { id: None, root_place_id: Some(3), name: Some("N".to_string()), playing: Some(4), genre: Some("G".to_string()) },
        UniverseRow { id: Some(1), root_place_id: None, name: None, playing: None, genre: None },
    ];
    let games = games_from_universe_rows(rows, 2);
    assert_eq!(games.len(), 2);
    assert_eq!((games[0].universe_id, games[0].root_place_id, games[0].name.as_str(), games[0].player_count), (7, 7, "", 0));
    assert_eq!((games[1].universe_id, games[1].root_place_id, games[1].name.as_str(), games[1].player_count, games[1].genre.as_str()), (0, 3, "N", 4, "G"));
}

fn pg(id: u64, thumb: &str) -> PopularGame {
    PopularGame { universe_id: id, root_place_id: id, name: String::new(), player_count: 0, genre: String::new(), thumb_url: thumb.to_string() }
}

#[test]
fn icons_attach_by_universe_last_one_wins() {
    let mut games = vec![pg(1, ""), pg(2, "old"), pg(3, "keep")];
    let icons = vec![(2, "first".to_string()), (1, "one".to_string()), (2, "second".to_string())];
    attach_icons(&mut games, &icons);
    let urls: Vec<&str> = games.iter().map(|g| g.thumb_url.as_str()).collect();
    assert_eq!(urls, vec!["one", "second", "keep"]);
    assert_eq!(thumbnail_downloads(&[pg(1, ""), pg(2, "u2")]), vec![(2, "u2".to_string())]);
}

#[test]
fn session_urls_carry_a_fresh_uuid() {
    let url = explore_sort_url(GameSort::TopRated);
    let prefix = "https://apis.roblox.com/explore-api/v1/get-sort-content?sessionId=";
    assert!(url.starts_with(prefix));
    let session = &url[prefix.len()..prefix.len() + 36];
    assert_eq!(session.len(), 36);
    assert_eq!(&url[prefix.len() + 36..], "&sortId=top-rated&device=computer&country=all&pageToken=");
    let search = omni_search_url("blox fruits");
    assert!(search.starts_with("https://apis.roblox.com/search-api/omni-search?searchQuery=blox%20fruits&sessionId="));
    assert_eq!(search.len(), "https://apis.roblox.com/search-api/omni-search?searchQuery=blox%20fruits&sessionId=".len() + 36);
}

#[test]
fn presences_pair_by_position() {
    let entries = vec![
        PresenceEntry { user_presence_type: 2, place_id: Some(5), game_id: Some("j".to_string()), last_location: None },
        PresenceEntry { user_presence_type: 1, place_id: None, game_id: None, last_location: Some("Website".to_string()) },
    ];
    let paired = pair_presences(&[10, 20, 30], entries);
    assert_eq!(paired.len(), 2);
    assert_eq!(paired[0].0, 10);
    assert_eq!(paired[0].1.user_presence_type, 2);
    assert_eq!(paired[0].1.last_location, "");
    assert_eq!(paired[1].0, 20);
    assert_eq!(paired[1].1.last_location, "Website");
    assert!(pair_presences(&[], vec![]).is_empty());
}

#[test]
fn username_lookup_takes_the_first() {
    assert_eq!(first_user(vec![]), None);
    let e = vec![
        UsernameLookupEntry { id: 1, name: "a".to_string(), display_name: "A".to_string() },
        UsernameLookupEntry { id: 2, name: "b".to_string(), display_name: "B".to_string() },
    ];
    assert_eq!(first_user(e), Some((1, "a".to_string(), "A".to_string())));
}

#[test]
fn expiry_is_chosen_from_the_parsed_parts() {
    let now = at(1_000, 42);
    assert_eq!(choose_expiry(Some(at(5, 0)), Some(60), Some(at(9, 0)), now), Some(at(5, 0)));
    assert_eq!(choose_expiry(None, Some(60), Some(at(9, 0)), now), Some(at(1_060, 42)));
    assert_eq!(choose_expiry(None, Some(0), Some(at(9, 0)), now), Some(at(9, 0)));
    assert_eq!(choose_expiry(None, Some(-3), None, now), None);
    assert_eq!(choose_expiry(None, None, Some(at(9, 0)), now), Some(at(9, 0)));
    // From within a leap second, a later instant leaves the leap second.
    assert_eq!(choose_expiry(None, Some(1), None, at(86_399, 1_250_000_000)), Some(at(86_400, 250_000_000)));
}

#[test]
fn a_missing_capture_is_an_api_error() {
    assert_eq!(access_code_from(Some("abc".to_string())).unwrap(), "abc");
    assert_eq!(
        api_error(access_code_from(None).unwrap_err()),
        (400, "could not scrape accessCode from game page".to_string())
    );
}

#[test]
fn encoded_values_escape_with_two_uppercase_hex_digits() {
    let e = percent_encode("a b/+~");
    assert_eq!(e, "a%20b%2F%2B~");
    assert_eq!(e.len(), 1 + 3 + 1 + 3 + 3 + 1);
}
