use std::collections::{HashMap, HashSet};

use ram_core::api::servers::GameServer;
use ram_core::api::universe::GamePreview;
use ram_core::components::games::{
    copy_place_id_hint, favorite_hint, games_view, results_header, search_request, GamesAction,
    GamesView,
};
use ram_core::components::groups::{
    can_save_group, dist_state_text, distribute_prompt, distribution_outcome, group_cover,
    group_game_name, member_label, member_matches_search, running_members, save_group_action,
    skipped_accounts, status_label, DistAccountState, DistributeState, DistributePhase,
    DistributionOutcome, GroupsAction, GroupsState,
};
use ram_core::components::main_panel::{
    cookie_warning_shown, game_preview_display, moderation_banner, presence_chip_text,
    validation_row, MainPanelAction, MainPanelState, PreviewStatus,
};
use ram_core::components::servers::{
    highlighted_accounts, servers_view, short_server_id, sort_label as server_sort_label,
    visible_servers, HighlightedAccount, ServerSort, ServersState, ServersView,
};
use ram_core::components::stats::{active_user_ids, groups_of, real_presence};
use ram_core::clock::UtcInstant;
use ram_core::i18n::Language;
use ram_core::models::{Account, AccountGroup, AccountStore, ModerationInfo, Presence};
use ram_core::text::{contains_str, fill_placeholder};

fn account(id: u64, username: &str) -> Account {
    Account::new(id, username.to_string(), username.to_uppercase())
}

fn in_game(place: u64, job: &str) -> Presence {
    Presence {
        user_presence_type: 2,
        place_id: Some(place),
        game_id: Some(job.to_string()),
        last_location: String::new(),
    }
}

fn server(id: &str, playing: u32, max: u32, ping: Option<u32>) -> GameServer {
    GameServer { id: id.to_string(), max_players: max, playing, ping }
}

fn ids(servers: &[&GameServer]) -> Vec<String> {
    servers.iter().map(|s| s.id.clone()).collect()
}

// ---------------------------------------------------------------------------
// Servers panel
// ---------------------------------------------------------------------------

#[test]
fn launched_accounts_are_featured_before_presence_and_once_per_job() {
    let mut store = AccountStore::default();
    let mut a = account(1, "alpha");
    a.alias = "A".to_string();
    a.last_presence = in_game(77, "job-x");
    store.accounts.push(a);
    let mut b = account(2, "bravo");
    b.last_presence = in_game(77, "job-y");
    store.accounts.push(b);
    let mut c = account(3, "charlie");
    c.last_presence = in_game(77, "job-x"); // same job as the manager record
    store.accounts.push(c);
    let mut d = account(4, "delta");
    d.last_presence = in_game(99, "job-z"); // another game
    store.accounts.push(d);

    let mut targets = HashMap::new();
    targets.insert(2u64, (77u64, Some("job-x".to_string())));
    targets.insert(4u64, (77u64, Some(String::new()))); // empty job: ignored
    let h = highlighted_accounts(&store, 77, false, &targets);
    let got: Vec<(String, String)> = h.iter().map(|x| (x.label.clone(), x.game_id.clone())).collect();
    // The manager sent bravo to job-x, so bravo's own presence (job-y) is not
    // used; alpha and charlie sit in job-x, which is already featured.
    assert_eq!(got, vec![("bravo".to_string(), "job-x".to_string())]);

    // Without a manager record the presences are used, in store order.
    let h = highlighted_accounts(&store, 77, true, &HashMap::new());
    let got: Vec<(String, String)> = h.iter().map(|x| (x.label.clone(), x.game_id.clone())).collect();
    assert_eq!(
        got,
        vec![
            ("Account 1".to_string(), "job-x".to_string()),
            ("Account 2".to_string(), "job-y".to_string()),
        ]
    );
}

#[test]
fn presence_is_ignored_for_an_account_the_manager_launched() {
    let mut store = AccountStore::default();
    let mut a = account(1, "x");
    a.alias = "a".to_string();
    a.last_presence = in_game(10, "j1");
    store.accounts.push(a);
    let mut targets = HashMap::new();
    targets.insert(1u64, (10u64, Some("j2".to_string())));
    let h = highlighted_accounts(&store, 10, false, &targets);
    let got: Vec<(String, String)> = h.iter().map(|x| (x.label.clone(), x.game_id.clone())).collect();
    assert_eq!(got, vec![("a".to_string(), "j2".to_string())]);
    // A launch into another place leaves the presence as the source.
    let mut targets = HashMap::new();
    targets.insert(1u64, (11u64, Some("j2".to_string())));
    let h = highlighted_accounts(&store, 10, false, &targets);
    assert_eq!(h.len(), 1);
    assert_eq!(h[0].game_id, "j1");
}

#[test]
fn server_sorts_order_as_labelled() {
    let servers = vec![
        server("a", 5, 10, Some(80)),
        server("b", 9, 10, None),
        server("c", 1, 10, Some(40)),
        server("d", 10, 10, Some(40)),
    ];
    let mut state = ServersState::default();
    assert_eq!(state.sort, ServerSort::Ping);
    assert_eq!(ids(&visible_servers(&servers, &state, &[])), vec!["c", "d", "a", "b"]);
    state.sort = ServerSort::Empty;
    assert_eq!(ids(&visible_servers(&servers, &state, &[])), vec!["c", "a", "b", "d"]);
    state.sort = ServerSort::FewestPlayers;
    assert_eq!(ids(&visible_servers(&servers, &state, &[])), vec!["c", "a", "b", "d"]);
    state.sort = ServerSort::MostFreeSlots;
    assert_eq!(ids(&visible_servers(&servers, &state, &[])), vec!["c", "a", "b", "d"]);
}

#[test]
fn hidden_full_and_featured_servers_are_not_listed() {
    let servers = vec![server("a", 10, 10, Some(1)), server("b", 2, 10, Some(2)), server("c", 3, 10, Some(3))];
    let state = ServersState { sort: ServerSort::Ping, hide_full: true };
    let featured = vec![HighlightedAccount { label: "x".to_string(), game_id: "c".to_string() }];
    assert_eq!(ids(&visible_servers(&servers, &state, &featured)), vec!["b"]);
    let state = ServersState { sort: ServerSort::Ping, hide_full: false };
    assert_eq!(ids(&visible_servers(&servers, &state, &featured)), vec!["a", "b"]);
}

#[test]
fn equal_keys_keep_their_page_order() {
    let servers = vec![server("first", 3, 10, None), server("second", 3, 10, None)];
    let state = ServersState { sort: ServerSort::FewestPlayers, hide_full: false };
    assert_eq!(ids(&visible_servers(&servers, &state, &[])), vec!["first", "second"]);
}

#[test]
fn job_ids_are_shortened_without_hyphens() {
    assert_eq!(short_server_id("f0c04106-1a2b-3c4d-5e6f-7a8b9c0d1e2f"), "#f0c04106");
    assert_eq!(short_server_id("ab-cd"), "#abcd");
    assert_eq!(short_server_id(""), "#");
    assert_eq!(short_server_id("12-34-56-78-9"), "#12345678");
}

#[test]
fn servers_panel_views() {
    assert_eq!(servers_view(None, true, true, 3), ServersView::NoGame);
    assert_eq!(servers_view(Some(1), true, false, 0), ServersView::Loading);
    assert_eq!(servers_view(Some(1), true, true, 2), ServersView::Error);
    assert_eq!(servers_view(Some(1), false, false, 0), ServersView::Empty);
    assert_eq!(servers_view(Some(1), true, false, 2), ServersView::List);
}

#[test]
fn server_sort_labels_are_translated() {
    assert_eq!(server_sort_label(ServerSort::Ping, Language::En), "Lowest ping");
    assert_eq!(server_sort_label(ServerSort::Ping, Language::PtBr), "Menor ping");
}

// ---------------------------------------------------------------------------
// Statistics
// ---------------------------------------------------------------------------

#[test]
fn presence_counts_follow_running_clients() {
    let mut store = AccountStore::default();
    for (id, kind) in [(1u64, 2u8), (2, 3), (3, 1), (4, 0), (5, 2)] {
        let mut a = account(id, "u");
        a.last_presence.user_presence_type = kind;
        store.accounts.push(a);
    }
    store.accounts[3].cookie_expired = true;
    store.accounts[4].moderation = Some(ModerationInfo { is_banned: true, ..Default::default() });
    store.accounts[2].moderation = Some(ModerationInfo::default()); // not active
    // Clients run for 1, 2 and 4 (4 twice); 5 reports "in game" but runs nothing here.
    let running = [1u64, 2, 4, 4];
    assert_eq!(active_user_ids(&running), HashSet::from([1u64, 2, 4]));
    let (online, in_game, in_studio, offline, moderated, expired) = real_presence(&store, &running);
    assert_eq!((online, in_game, in_studio), (1, 1, 1));
    assert_eq!(offline, 2);
    assert_eq!((moderated, expired), (1, 1));
}

#[test]
fn offline_counts_the_accounts_without_a_running_client() {
    let mut store = AccountStore::default();
    store.accounts.push(account(1, "a"));
    store.accounts.push(account(2, "b"));
    // User 99 runs a client but is not in the store.
    assert_eq!(real_presence(&store, &[1, 99]), (1, 0, 0, 1, 0, 0));
}

#[test]
fn offline_never_goes_negative() {
    let mut store = AccountStore::default();
    store.accounts.push(account(1, "u"));
    let counts = real_presence(&store, &[1, 7, 8]);
    assert_eq!(counts.3, 0);
    assert_eq!(counts.0, 1);
}

#[test]
fn groups_are_counted_once_each() {
    let mut store = AccountStore::default();
    for (id, g) in [(1u64, "A"), (2, ""), (3, "B"), (4, "A")] {
        let mut a = account(id, "u");
        a.group = g.to_string();
        store.accounts.push(a);
    }
    let groups: HashMap<String, usize> = groups_of(&store).into_iter().collect();
    assert_eq!(groups.len(), 2);
    assert_eq!(groups["A"], 2);
    assert_eq!(groups["B"], 1);
}

// ---------------------------------------------------------------------------
// Groups
// ---------------------------------------------------------------------------

fn dist(accounts: usize, launched: usize, failed: usize, error: Option<&str>) -> DistributeState {
    DistributeState {
        group_id: "g".to_string(),
        place_id: 1,
        seq: 0,
        phase: DistributePhase::Done,
        accounts: (0..accounts as u64).collect(),
        statuses: Vec::new(),
        collected: Vec::new(),
        next_cursor: None,
        pages: 0,
        used_job_ids: HashSet::new(),
        error: error.map(|e| e.to_string()),
        launched,
        failed,
    }
}

#[test]
fn a_group_needs_a_name_and_a_numeric_place() {
    assert!(can_save_group(" Squad ", " 123 "));
    assert!(!can_save_group("   ", "123"));
    assert!(!can_save_group("Squad", "12a"));
    assert!(!can_save_group("Squad", ""));
}

#[test]
fn saving_the_form_sends_trimmed_fields_and_each_member_once() {
    let mut state = GroupsState::default();
    state.name_input = "  Squad ".to_string();
    state.place_input = " 42 ".to_string();
    state.editing_id = Some("gid".to_string());
    state.selected_accounts = HashSet::from([5u64, 9, 7]);
    match save_group_action(&state) {
        Some(GroupsAction::SaveGroup { id, name, place_id, member_user_ids }) => {
            assert_eq!(id, Some("gid".to_string()));
            assert_eq!(name, "Squad");
            assert_eq!(place_id, 42);
            let mut m = member_user_ids.clone();
            m.sort();
            assert_eq!(m, vec![5, 7, 9]);
        }
        _ => panic!("expected a save"),
    }
    state.place_input = "x".to_string();
    assert!(save_group_action(&state).is_none());
}

#[test]
fn member_labels_and_search() {
    let mut a = account(12, "Builder");
    assert_eq!(member_label(&a, false), "Builder");
    a.alias = "Main".to_string();
    assert_eq!(member_label(&a, false), "Main (Builder)");
    assert_eq!(member_label(&a, true), "Account 12");

    assert!(member_matches_search(&a, false, "   "));
    assert!(member_matches_search(&a, false, " mAiN "));
    assert!(member_matches_search(&a, false, "build"));
    assert!(!member_matches_search(&a, false, "zzz"));
    // Anonymized labels hide the alias, but the username still matches.
    assert!(!member_matches_search(&a, true, "main"));
    assert!(member_matches_search(&a, true, "builder"));
    assert!(member_matches_search(&a, true, "account 1"));

    let mut store = AccountStore::default();
    store.accounts.push(a);
    assert_eq!(status_label(&store, 12, false), "Main (Builder)");
    assert_eq!(status_label(&store, 13, false), "13");
}

#[test]
fn running_members_are_counted() {
    let mut g = AccountGroup::new("G".to_string(), 1);
    g.member_user_ids = vec![1, 2, 3, 4];
    assert_eq!(running_members(&g, &HashSet::from([2u64, 4, 9])), 2);
    assert_eq!(running_members(&g, &HashSet::new()), 0);
}

#[test]
fn group_cards_prefer_fresh_thumbnails_and_stored_names() {
    let mut g = AccountGroup::new("G".to_string(), 10);
    let mut thumbs = HashMap::new();
    assert_eq!(group_cover(&g, &thumbs), None);
    g.game_thumb_bytes = vec![1, 2];
    assert_eq!(group_cover(&g, &thumbs), Some(vec![1, 2]));
    thumbs.insert(10u64, vec![9u8]);
    assert_eq!(group_cover(&g, &thumbs), Some(vec![9]));

    let mut cache = HashMap::new();
    assert_eq!(group_game_name(&g, &cache), "");
    cache.insert(10u64, GamePreview::default().with_name("Obby".to_string()));
    assert_eq!(group_game_name(&g, &cache), "Obby");
    g.game_name = "Stored".to_string();
    assert_eq!(group_game_name(&g, &cache), "Stored");
}

#[test]
fn distribution_outcomes() {
    assert_eq!(distribution_outcome(&dist(3, 3, 0, None)), DistributionOutcome::Complete);
    assert_eq!(distribution_outcome(&dist(3, 2, 1, None)), DistributionOutcome::Partial);
    assert_eq!(distribution_outcome(&dist(3, 0, 0, None)), DistributionOutcome::Partial);
    assert_eq!(distribution_outcome(&dist(3, 3, 0, Some("boom"))), DistributionOutcome::Error);
    assert_eq!(skipped_accounts(&dist(5, 2, 1, None)), 2);
    assert_eq!(skipped_accounts(&dist(2, 2, 0, None)), 0);
}

#[test]
fn distribution_texts() {
    assert_eq!(dist_state_text(DistAccountState::Done, Language::En), "\u{2713} Server found");
    assert_eq!(dist_state_text(DistAccountState::Waiting, Language::En), "Waiting");
    assert_eq!(dist_state_text(DistAccountState::NoServer, Language::En), "No server found for this account");
    assert_eq!(distribute_prompt(4, Language::En), "Distribute 4 accounts? ");
}

// ---------------------------------------------------------------------------
// Main panel
// ---------------------------------------------------------------------------

#[test]
fn switching_accounts_loads_their_buffers_once() {
    let mut a = account(1, "a");
    a.saved_place_id = "123".to_string();
    a.saved_job_id = "job".to_string();
    a.alias = "al".to_string();
    a.notes = "n".to_string();
    let mut s = MainPanelState::default();
    s.sync_with(&a);
    assert_eq!((s.place_id_input.as_str(), s.job_id_input.as_str()), ("123", "job"));
    assert_eq!((s.alias_input.as_str(), s.notes_input.as_str()), ("al", "n"));
    // Edits in progress survive a redraw of the same account.
    s.alias_input = "edited".to_string();
    s.place_id_input = "9".to_string();
    s.sync_with(&a);
    assert_eq!((s.alias_input.as_str(), s.place_id_input.as_str()), ("edited", "9"));
    // Another account replaces them.
    let b = account(2, "b");
    s.sync_with(&b);
    assert_eq!((s.alias_input.as_str(), s.place_id_input.as_str()), ("", ""));
}

#[test]
fn launch_needs_a_numeric_place_id() {
    let mut s = MainPanelState::default();
    s.place_id_input = "123".to_string();
    s.job_id_input = "  abc  ".to_string();
    match s.launch_request() {
        Some(MainPanelAction::LaunchGame { place_id, job_id }) => {
            assert_eq!(place_id, 123);
            assert_eq!(job_id, Some("abc".to_string()));
        }
        _ => panic!("expected a launch"),
    }
    s.job_id_input = "   ".to_string();
    assert!(matches!(s.launch_request(), Some(MainPanelAction::LaunchGame { job_id: None, .. })));
    s.place_id_input = " 123".to_string(); // not trimmed
    assert!(s.launch_request().is_none());
}

#[test]
fn the_preset_form_toggles_and_saves() {
    let mut s = MainPanelState::default();
    s.place_id_input = "5".to_string();
    s.preset_name_input = "old".to_string();
    s.toggle_save_form();
    assert!(s.show_save_form);
    assert_eq!(s.preset_name_input, "");
    assert!(s.take_focus_request());
    assert!(!s.take_focus_request());
    // A blank name saves nothing.
    s.preset_name_input = "  ".to_string();
    assert!(s.preset_request().is_none());
    assert!(s.show_save_form);
    s.preset_name_input = " Farm ".to_string();
    match s.preset_request() {
        Some(MainPanelAction::SavePreset { name, place_id, job_id }) => {
            assert_eq!((name.as_str(), place_id, job_id), ("Farm", 5, None));
        }
        _ => panic!("expected a preset"),
    }
    assert!(!s.show_save_form);
    assert_eq!(s.preset_name_input, "");
    s.toggle_save_form();
    s.toggle_save_form();
    assert!(!s.show_save_form);
}

#[test]
fn alias_and_notes_are_sent_only_when_changed() {
    let mut a = account(3, "c");
    a.alias = "x".to_string();
    let mut s = MainPanelState::default();
    s.sync_with(&a);
    assert!(s.alias_update(&a).is_none());
    assert!(s.notes_update(&a).is_none());
    s.alias_input = "y".to_string();
    s.notes_input = "hello".to_string();
    assert!(matches!(s.alias_update(&a), Some(MainPanelAction::UpdateAlias { user_id: 3, alias }) if alias == "y"));
    assert!(matches!(s.notes_update(&a), Some(MainPanelAction::UpdateNotes { user_id: 3, notes }) if notes == "hello"));
}

#[test]
fn presence_chips() {
    let mut p = Presence::default();
    assert_eq!(presence_chip_text(&p), "Offline");
    p.user_presence_type = 1;
    assert_eq!(presence_chip_text(&p), "Online");
    p.user_presence_type = 2;
    assert_eq!(presence_chip_text(&p), "In Game");
    p.user_presence_type = 3;
    assert_eq!(presence_chip_text(&p), "In Studio");
    p.user_presence_type = 7;
    assert_eq!(presence_chip_text(&p), "Unknown");
}

#[test]
fn the_game_preview_follows_the_typed_place() {
    let preview = GamePreview { place_id: 10, universe_id: 1, name: "Obby".to_string(), thumb_url: String::new() };
    let thumb = vec![1u8];
    assert!(game_preview_display("abc", Some(&preview), Some(&thumb)).is_none());
    let d = game_preview_display(" 10 ", Some(&preview), Some(&thumb)).unwrap();
    assert_eq!(d.place_id, 10);
    assert!(d.show_thumbnail);
    assert!(matches!(d.status, PreviewStatus::Ready(ref n) if n == "Obby"));
    let d = game_preview_display("11", Some(&preview), Some(&thumb)).unwrap();
    assert!(!d.show_thumbnail);
    assert!(matches!(d.status, PreviewStatus::Identifying));
    let empty = Vec::new();
    let unnamed = GamePreview { place_id: 10, ..Default::default() };
    let d = game_preview_display("10", Some(&unnamed), Some(&empty)).unwrap();
    assert!(!d.show_thumbnail);
    assert!(matches!(d.status, PreviewStatus::NotFound));
}

#[test]
fn moderation_banners() {
    let mut a = account(1, "a");
    assert!(moderation_banner(&a).is_none());
    a.moderation = Some(ModerationInfo::default());
    assert!(moderation_banner(&a).is_none());
    a.moderation = Some(ModerationInfo { is_banned: true, ..Default::default() });
    let b = moderation_banner(&a).unwrap();
    assert_eq!(b.title, "\u{26a0} Account terminated");
    assert_eq!(b.expiry_line.as_deref(), Some("Permanent termination."));
    assert!(b.checked_line.is_none());
    a.moderation = Some(ModerationInfo {
        is_banned: false,
        reason: Some("Spam".to_string()),
        expires_at: Some(UtcInstant { secs: 1_893_456_000, nanos: 999_999_999 }),
        last_checked: Some(UtcInstant { secs: 0, nanos: 0 }),
    });
    let b = moderation_banner(&a).unwrap();
    assert_eq!(b.title, "\u{26a0} Account moderated");
    assert_eq!(b.reason.as_deref(), Some("Spam"));
    assert_eq!(b.expiry_line.as_deref(), Some("Expires: 2030-01-01 00:00 UTC"));
    assert_eq!(b.checked_line.as_deref(), Some("Checked: 1970-01-01 00:00 UTC"));
    // An active moderation hides the cookie warning.
    a.cookie_expired = true;
    assert!(!cookie_warning_shown(&a));
    a.moderation = None;
    assert!(cookie_warning_shown(&a));
}

#[test]
fn validations_older_than_a_day_are_stale() {
    let at = |secs: i64, nanos: u32| UtcInstant { secs, nanos };
    let mut a = account(1, "a");
    assert!(validation_row(&a, at(0, 0)).is_none());
    a.last_validated = Some(at(0, 0));
    assert_eq!(validation_row(&a, at(89_999, 999_999_999)), Some(("1970-01-01 00:00 UTC".to_string(), false)));
    assert_eq!(validation_row(&a, at(90_000, 0)), Some(("1970-01-01 00:00 UTC".to_string(), true)));
    assert_eq!(validation_row(&a, at(-5, 0)).map(|r| r.1), Some(false));
    // Sub-second parts count: 25 hours less a nanosecond is not stale.
    a.last_validated = Some(at(10, 500));
    assert_eq!(validation_row(&a, at(90_010, 499)).map(|r| r.1), Some(false));
    assert_eq!(validation_row(&a, at(90_010, 500)).map(|r| r.1), Some(true));
    // A validation within a leap second counts that second when now is later in its day.
    a.last_validated = Some(at(59, 1_500_000_000));
    assert_eq!(validation_row(&a, at(90_059, 499_999_999)), Some(("1970-01-01 00:00 UTC".to_string(), false)));
    assert_eq!(validation_row(&a, at(90_059, 500_000_000)).map(|r| r.1), Some(true));
    // A date outside what the clock represents is not shown.
    a.last_validated = Some(at(i64::MAX, 0));
    assert!(validation_row(&a, at(0, 0)).is_none());
    // Extreme clocks do not overflow the age.
    a.last_validated = Some(at(0, 0));
    assert_eq!(validation_row(&a, at(i64::MIN, 0)).map(|r| r.1), Some(false));
    assert_eq!(validation_row(&a, at(i64::MAX, u32::MAX)).map(|r| r.1), Some(true));
}

// ---------------------------------------------------------------------------
// Games tab
// ---------------------------------------------------------------------------

#[test]
fn search_is_requested_only_for_a_changed_text() {
    assert!(search_request("obby", "obby").is_none());
    assert!(matches!(search_request("tycoon", "obby"), Some(GamesAction::Search(q)) if q == "tycoon"));
    assert!(matches!(search_request("", "obby"), Some(GamesAction::Search(q)) if q.is_empty()));
}

#[test]
fn games_tab_views() {
    assert_eq!(games_view(Some(0), true, true, Some(3)), GamesView::NoResults);
    assert_eq!(games_view(Some(2), false, false, None), GamesView::Results);
    assert_eq!(games_view(None, true, true, Some(3)), GamesView::SearchError);
    assert_eq!(games_view(None, false, true, Some(3)), GamesView::FeedError);
    assert_eq!(games_view(None, false, false, Some(3)), GamesView::Feed);
    assert_eq!(games_view(None, false, false, Some(0)), GamesView::Loading);
    assert_eq!(games_view(None, false, false, None), GamesView::Loading);
}

#[test]
fn games_tab_texts() {
    assert_eq!(results_header(1, Language::En), "Search results (1 game)");
    assert_eq!(results_header(3, Language::En), "Search results (3 games)");
    assert_eq!(results_header(0, Language::PtBr), "Resultados da busca (0 jogos)");
    assert_eq!(copy_place_id_hint(606849621, Language::PtBr), "Copiar Place ID 606849621");
    assert_eq!(favorite_hint(true, Language::PtBr), "Remover dos favoritos");
    assert_eq!(favorite_hint(false, Language::En), "Add to favorites");
}

// ---------------------------------------------------------------------------
// Text helpers
// ---------------------------------------------------------------------------

#[test]
fn placeholders_are_filled_left_to_right() {
    assert_eq!(fill_placeholder("a {} b {}", "X"), "a X b X");
    assert_eq!(fill_placeholder("{{}}", "X"), "{X}");
    assert_eq!(fill_placeholder("no hole", "X"), "no hole");
    assert_eq!(fill_placeholder("{}", ""), "");
}

#[test]
fn substring_search() {
    assert!(contains_str("hello world", "o w"));
    assert!(contains_str("abc", ""));
    assert!(!contains_str("ab", "abc"));
    assert!(!contains_str("abc", "ac"));
    assert!(contains_str("aaab", "aab"));
}
