//! The Games tab: its three discover feeds, the favorite-first ordering of a
//! game list, and the feed labels.

use vstd::prelude::*;
use std::collections::HashSet;
use crate::api::discover::{GameSort, sort_label_spec};
use crate::i18n::{Language, tr, tr_spec};
use crate::models::PopularGame;
use crate::text::{decimal_spec, fill_placeholder, fill_placeholder_spec, u64_to_decimal};

verus! {

broadcast use vstd::std_specs::hash::group_hash_axioms;

/// The three feeds the Games tab offers, in tab order.
pub const ALL_SORTS: [GameSort; 3] = [GameSort::Popular, GameSort::TopRated, GameSort::TopEarning];

/// Actions the games panel can request.
pub enum GamesAction {
    /// Re-fetch all three feeds.
    Refresh,
    /// Switch to a different sort tab.
    SetSort(GameSort),
    /// Search for games by name. Empty string clears the search.
    Search(String),
    /// Copy a game's Place ID to the clipboard.
    CopyPlaceId(u64),
    /// Toggle the favorite state for a universe ID.
    ToggleFavorite(u64),
}

/// Which sort tab the panel is showing.
pub struct GamesState {
    pub active_sort: GameSort,
}

impl Default for GamesState {
    fn default() -> (s: GamesState)
        ensures
            s.active_sort == GameSort::Popular,
    {
        GamesState { active_sort: GameSort::Popular }
    }
}

impl GamesState {
    /// Show the tab of `sort`.
    pub fn set_active(&mut self, sort: GameSort)
        ensures
            final(self).active_sort == sort,
    {
        self.active_sort = sort;
    }
}

/// The games of `games` that are favorites, in order.
pub open spec fn favorite_games(games: Seq<PopularGame>, favorites: Set<u64>) -> Seq<PopularGame> {
    games.filter(|g: PopularGame| favorites.contains(g.universe_id))
}

/// The games of `games` that are not favorites, in order.
pub open spec fn other_games(games: Seq<PopularGame>, favorites: Set<u64>) -> Seq<PopularGame> {
    games.filter(|g: PopularGame| !favorites.contains(g.universe_id))
}

/// Favorites first, each part in feed order.
pub open spec fn favorites_first(games: Seq<PopularGame>, favorites: Set<u64>) -> Seq<PopularGame> {
    favorite_games(games, favorites) + other_games(games, favorites)
}

/// Stable partition: games in `favorites` come first (in feed order), the
/// rest keep their feed order underneath. Starring a game therefore pins it
/// to the top of the current view.
pub fn order_by_favorites<'a>(games: &'a [PopularGame], favorites: &HashSet<u64>) -> (ordered: Vec<&'a PopularGame>)
    ensures
        ordered@.len() == favorites_first(games@, favorites@).len(),
        forall|i: int|
            0 <= i < ordered@.len() ==> *#[trigger] ordered@[i] == favorites_first(games@, favorites@)[i],
{
    let ghost fav = |g: PopularGame| favorites@.contains(g.universe_id);
    let ghost other = |g: PopularGame| !favorites@.contains(g.universe_id);
    let mut ordered: Vec<&'a PopularGame> = Vec::new();
    let n = games.len();
    let mut i: usize = 0;
    while i < n
        invariant
            n == games@.len(),
            i <= n,
            fav == (|g: PopularGame| favorites@.contains(g.universe_id)),
            ordered@.len() == games@.take(i as int).filter(fav).len(),
            forall|k: int|
                0 <= k < ordered@.len() ==> *#[trigger] ordered@[k] == games@.take(i as int).filter(fav)[k],
        decreases n - i,
    {
        let g = &games[i];
        proof {
            assert(games@.take(i + 1) =~= games@.take(i as int).push(games@[i as int]));
            games@.take(i as int).lemma_filter_push(games@[i as int], fav);
        }
        if favorites.contains(&g.universe_id) {
            ordered.push(g);
        }
        i = i + 1;
    }
    assert(games@.take(n as int) =~= games@);
    let ghost first = games@.filter(fav);
    let mut j: usize = 0;
    while j < n
        invariant
            n == games@.len(),
            j <= n,
            other == (|g: PopularGame| !favorites@.contains(g.universe_id)),
            first == games@.filter(fav),
            ordered@.len() == first.len() + games@.take(j as int).filter(other).len(),
            forall|k: int|
                0 <= k < ordered@.len() ==> *#[trigger] ordered@[k] == (first + games@.take(j as int).filter(other))[k],
        decreases n - j,
    {
        let g = &games[j];
        proof {
            assert(games@.take(j + 1) =~= games@.take(j as int).push(games@[j as int]));
            games@.take(j as int).lemma_filter_push(games@[j as int], other);
        }
        if !favorites.contains(&g.universe_id) {
            ordered.push(g);
        }
        j = j + 1;
    }
    assert(games@.take(n as int) =~= games@);
    ordered
}

proof fn lemma_partition_counts(games: Seq<PopularGame>, favorites: Set<u64>)
    ensures
        favorite_games(games, favorites).to_multiset().add(other_games(games, favorites).to_multiset())
            =~= games.to_multiset(),
    decreases games.len(),
{
    broadcast use vstd::multiset::group_multiset_axioms;
    broadcast use vstd::seq_lib::group_seq_properties;

    let fav = |g: PopularGame| favorites.contains(g.universe_id);
    let other = |g: PopularGame| !favorites.contains(g.universe_id);
    if games.len() > 0 {
        let rest = games.drop_last();
        let x = games.last();
        lemma_partition_counts(rest, favorites);
        assert(rest.push(x) =~= games);
        rest.lemma_filter_push(x, fav);
        rest.lemma_filter_push(x, other);
    } else {
        assert(games.filter(fav) =~= Seq::<PopularGame>::empty());
        assert(games.filter(other) =~= Seq::<PopularGame>::empty());
    }
}

/// The favorite-first order is a reordering: every game appears as often as
/// in the feed.
pub proof fn lemma_favorites_first_is_permutation(games: Seq<PopularGame>, favorites: Set<u64>)
    ensures
        favorites_first(games, favorites).to_multiset() == games.to_multiset(),
{
    vstd::seq_lib::lemma_multiset_commutative(favorite_games(games, favorites), other_games(games, favorites));
    lemma_partition_counts(games, favorites);
}

proof fn lemma_filter_keeps_all(s: Seq<PopularGame>, p: spec_fn(PopularGame) -> bool)
    requires
        forall|i: int| 0 <= i < s.len() ==> p(#[trigger] s[i]),
    ensures
        s.filter(p) == s,
    decreases s.len(),
{
    if s.len() > 0 {
        let rest = s.drop_last();
        assert(forall|i: int| 0 <= i < rest.len() ==> rest[i] == s[i]);
        lemma_filter_keeps_all(rest, p);
        assert(rest.push(s.last()) =~= s);
        rest.lemma_filter_push(s.last(), p);
        assert(p(s[s.len() - 1]));
    } else {
        reveal_with_fuel(Seq::<_>::filter, 1);
        assert(s.filter(p) =~= s);
    }
}

proof fn lemma_filter_keeps_none(s: Seq<PopularGame>, p: spec_fn(PopularGame) -> bool)
    requires
        forall|i: int| 0 <= i < s.len() ==> !p(#[trigger] s[i]),
    ensures
        s.filter(p) == Seq::<PopularGame>::empty(),
    decreases s.len(),
{
    if s.len() > 0 {
        let rest = s.drop_last();
        assert(forall|i: int| 0 <= i < rest.len() ==> rest[i] == s[i]);
        lemma_filter_keeps_none(rest, p);
        assert(rest.push(s.last()) =~= s);
        rest.lemma_filter_push(s.last(), p);
        assert(!p(s[s.len() - 1]));
    } else {
        reveal_with_fuel(Seq::<_>::filter, 1);
        assert(s.filter(p) =~= Seq::<PopularGame>::empty());
    }
}

/// With no favorite among the games, the feed order is unchanged.
pub proof fn lemma_no_favorites_keeps_order(games: Seq<PopularGame>, favorites: Set<u64>)
    requires
        forall|i: int| 0 <= i < games.len() ==> !favorites.contains(#[trigger] games[i].universe_id),
    ensures
        favorites_first(games, favorites) == games,
{
    let fav = |g: PopularGame| favorites.contains(g.universe_id);
    let other = |g: PopularGame| !favorites.contains(g.universe_id);
    assert forall|i: int| 0 <= i < games.len() implies !fav(#[trigger] games[i]) by {
        assert(!favorites.contains(games[i].universe_id));
    }
    assert forall|i: int| 0 <= i < games.len() implies other(#[trigger] games[i]) by {
        assert(!favorites.contains(games[i].universe_id));
    }
    lemma_filter_keeps_none(games, fav);
    lemma_filter_keeps_all(games, other);
    assert(favorites_first(games, favorites) =~= games);
}

/// Every favorite of the list comes before every other game.
pub proof fn lemma_favorites_come_first(games: Seq<PopularGame>, favorites: Set<u64>, i: int, j: int)
    requires
        0 <= i < j < favorites_first(games, favorites).len(),
        favorites.contains(favorites_first(games, favorites)[j].universe_id),
    ensures
        favorites.contains(favorites_first(games, favorites)[i].universe_id),
{
    let fav = |g: PopularGame| favorites.contains(g.universe_id);
    let other = |g: PopularGame| !favorites.contains(g.universe_id);
    let f = games.filter(fav);
    let o = games.filter(other);
    if j >= f.len() {
        games.lemma_filter_pred(other, j - f.len());
    } else {
        games.lemma_filter_pred(fav, i);
    }
}

/// Human-readable label for each sort, translated.
pub fn sort_label(sort: GameSort, lang: Language) -> (s: String)
    ensures
        s@ == tr_spec(lang, sort_label_spec(sort)),
{
    String::from_str(tr(lang, sort.label()))
}


/// The search the search field requests when it loses focus: the edited
/// text, when it differs from the current search (an empty text clears it).
pub fn search_request(edited: &str, current: &str) -> (action: Option<GamesAction>)
    ensures
        edited@ == current@ ==> action is None,
        edited@ != current@ ==> (action matches Some(GamesAction::Search(q)) && q@ == edited@),
{
    if edited.eq(current) {
        None
    } else {
        Some(GamesAction::Search(String::from_str(edited)))
    }
}

/// What the body of the Games tab shows.
#[derive(Debug, Clone, Copy, PartialEq, Eq, Structural)]
pub enum GamesView {
    /// A search is active and found nothing.
    NoResults,
    /// A search is active and found games.
    Results,
    /// The last search failed.
    SearchError,
    /// The active feed failed to load.
    FeedError,
    /// The active feed's games.
    Feed,
    /// The active feed is still loading.
    Loading,
}

/// What the Games tab shows: search results override the feeds; then a
/// search error; then the active feed's error, its games, or a loading
/// message while it has none.
pub fn games_view(search_len: Option<usize>, search_error: bool, feed_error: bool, feed_len: Option<usize>) -> (v: GamesView)
    ensures
        v == (match search_len {
            Some(n) => if n == 0 {
                GamesView::NoResults
            } else {
                GamesView::Results
            },
            None => if search_error {
                GamesView::SearchError
            } else if feed_error {
                GamesView::FeedError
            } else if feed_len matches Some(n) && n > 0 {
                GamesView::Feed
            } else {
                GamesView::Loading
            },
        }),
{
    match search_len {
        Some(n) => if n == 0 {
            GamesView::NoResults
        } else {
            GamesView::Results
        },
        None => if search_error {
            GamesView::SearchError
        } else if feed_error {
            GamesView::FeedError
        } else {
            match feed_len {
                Some(n) => if n > 0 {
                    GamesView::Feed
                } else {
                    GamesView::Loading
                },
                None => GamesView::Loading,
            }
        },
    }
}

/// The message template of the search results header.
pub open spec fn results_header_key(count: nat) -> Seq<char> {
    if count == 1 {
        "Search results ({} game)"@
    } else {
        "Search results ({} games)"@
    }
}

/// The header over search results, with the number of games found.
pub fn results_header(count: usize, lang: Language) -> (s: String)
    ensures
        s@ == fill_placeholder_spec(tr_spec(lang, results_header_key(count as nat)), decimal_spec(count as nat)),
{
    let key = if count == 1 {
        "Search results ({} game)"
    } else {
        "Search results ({} games)"
    };
    let n = u64_to_decimal(count as u64);
    fill_placeholder(tr(lang, key), n.as_str())
}

/// The hint of a game's copy button, with its Place ID.
pub fn copy_place_id_hint(place_id: u64, lang: Language) -> (s: String)
    ensures
        s@ == fill_placeholder_spec(tr_spec(lang, "Copy Place ID {}"@), decimal_spec(place_id as nat)),
{
    let n = u64_to_decimal(place_id);
    fill_placeholder(tr(lang, "Copy Place ID {}"), n.as_str())
}

/// The hint of a game's favorite button.
pub fn favorite_hint(is_favorite: bool, lang: Language) -> (s: &'static str)
    ensures
        s@ == tr_spec(lang, if is_favorite { "Remove from favorites"@ } else { "Add to favorites"@ }),
{
    if is_favorite {
        tr(lang, "Remove from favorites")
    } else {
        tr(lang, "Add to favorites")
    }
}

} // verus!
