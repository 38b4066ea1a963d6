use std::collections::HashSet;

use ram_core::api::discover::GameSort;
use ram_core::components::games::{order_by_favorites, sort_label, GamesState, ALL_SORTS};
use ram_core::i18n::Language;
use ram_core::models::PopularGame;

#[test]
fn each_feed_has_a_distinct_sort_id() {
    let ids: Vec<&str> = ALL_SORTS.iter().map(|s| s.sort_id()).collect();
    let mut dedup = ids.clone();
    dedup.dedup();
    assert_eq!(ids.len(), dedup.len(), "duplicate sort id");
}

fn game(universe: u64, name: &str) -> PopularGame {
    PopularGame {
        universe_id: universe,
        root_place_id: universe + 1,
        name: name.to_string(),
        player_count: 10,
        genre: String::new(),
        thumb_url: String::new(),
    }
}

#[test]
fn favorites_float_to_the_top_and_keep_feed_order() {
    let games = vec![game(1, "A"), game(2, "B"), game(3, "C"), game(4, "D")];
    let favs: HashSet<u64> = [3u64, 1].into_iter().collect();

    let ordered = order_by_favorites(&games, &favs);
    let names: Vec<&str> = ordered.iter().map(|g| g.name.as_str()).collect();
    assert_eq!(names, vec!["A", "C", "B", "D"]);
}

#[test]
fn with_no_favorites_order_is_unchanged() {
    let games = vec![game(1, "A"), game(2, "B")];
    let favs = HashSet::new();
    let ordered = order_by_favorites(&games, &favs);
    let names: Vec<&str> = ordered.iter().map(|g| g.name.as_str()).collect();
    assert_eq!(names, vec!["A", "B"]);
}

#[test]
fn favorites_not_in_the_feed_change_nothing() {
    let games = vec![game(1, "A"), game(2, "B"), game(3, "C")];
    let favs: HashSet<u64> = [42u64].into_iter().collect();
    let ordered = order_by_favorites(&games, &favs);
    let names: Vec<&str> = ordered.iter().map(|g| g.name.as_str()).collect();
    assert_eq!(names, vec!["A", "B", "C"]);
}

#[test]
fn all_favorites_keep_feed_order() {
    let games = vec![game(5, "E"), game(2, "B"), game(9, "I")];
    let favs: HashSet<u64> = [2u64, 5, 9].into_iter().collect();
    let ordered = order_by_favorites(&games, &favs);
    let names: Vec<&str> = ordered.iter().map(|g| g.name.as_str()).collect();
    assert_eq!(names, vec!["E", "B", "I"]);
}

#[test]
fn sort_ids_and_labels() {
    assert_eq!(GameSort::Popular.sort_id(), "top-playing-now");
    assert_eq!(GameSort::TopRated.sort_id(), "top-rated");
    assert_eq!(GameSort::TopEarning.sort_id(), "top-earning");
    assert_eq!(GameSort::TopRated.label(), "Top Rated");
    assert_eq!(sort_label(GameSort::TopEarning, Language::En), "Top Earning");
    assert_eq!(sort_label(GameSort::TopEarning, Language::PtBr), "Mais Rent\u{00E1}veis");
    assert_eq!(sort_label(GameSort::Popular, Language::PtBr), "Populares");
}

#[test]
fn games_state_starts_on_popular_and_switches() {
    let mut state = GamesState::default();
    assert_eq!(state.active_sort, GameSort::Popular);
    state.set_active(GameSort::TopRated);
    assert_eq!(state.active_sort, GameSort::TopRated);
}

#[test]
fn popular_game_key_is_the_universe() {
    assert_eq!(game(77, "X").key(), 77);
}
