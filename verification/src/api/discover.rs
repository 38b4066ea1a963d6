//! Discover feeds and game search.

use vstd::prelude::*;
use crate::ids::{is_uuid_v4_text, new_uuid_v4};
use crate::models::PopularGame;
use crate::api::servers::{percent_encode_spec, urlencoding};
use vstd::string::StringSliceAdditionalSpecFns;

verus! {

/// The explore feeds the Games tab offers, by the sort ID Roblox's own
/// discover page uses for each.
#[derive(Debug, Clone, Copy, PartialEq, Eq, Hash, Structural)]
pub enum GameSort {
    /// "Top Playing Now": what people are in at this moment.
    Popular,
    /// "Top Rated": highest player ratings.
    TopRated,
    /// "Top Earning": highest revenue.
    TopEarning,
}

/// The sort ID of a feed on the discover page.
pub open spec fn sort_id_spec(sort: GameSort) -> Seq<char> {
    match sort {
        GameSort::Popular => "top-playing-now"@,
        GameSort::TopRated => "top-rated"@,
        GameSort::TopEarning => "top-earning"@,
    }
}

/// The tab label of a feed.
pub open spec fn sort_label_spec(sort: GameSort) -> Seq<char> {
    match sort {
        GameSort::Popular => "Popular"@,
        GameSort::TopRated => "Top Rated"@,
        GameSort::TopEarning => "Top Earning"@,
    }
}

impl GameSort {
    /// The sort ID the discover page uses for this feed.
    pub fn sort_id(self) -> (s: &'static str)
        ensures
            s@ == sort_id_spec(self),
    {
        match self {
            GameSort::Popular => "top-playing-now",
            GameSort::TopRated => "top-rated",
            GameSort::TopEarning => "top-earning",
        }
    }

    /// Tab label in the Games tab.
    pub fn label(self) -> (s: &'static str)
        ensures
            s@ == sort_label_spec(self),
    {
        match self {
            GameSort::Popular => "Popular",
            GameSort::TopRated => "Top Rated",
            GameSort::TopEarning => "Top Earning",
        }
    }
}

/// Each feed is requested under its own sort ID.
pub proof fn lemma_sort_ids_distinct(a: GameSort, b: GameSort)
    requires
        a != b,
    ensures
        sort_id_spec(a) != sort_id_spec(b),
{
    reveal_strlit("top-playing-now");
    reveal_strlit("top-rated");
    reveal_strlit("top-earning");
    assert("top-playing-now"@[4] != "top-rated"@[4]);
    assert("top-playing-now"@[4] != "top-earning"@[4]);
    assert("top-rated"@.len() != "top-earning"@.len());
}

/// The request for one explore feed, under a fresh random session ID, as the
/// web Discover page itself does.
pub fn explore_sort_url(sort: GameSort) -> (url: String)
    ensures
        exists|session: Seq<char>|
            is_uuid_v4_text(session) && url@ == "https://apis.roblox.com/explore-api/v1/get-sort-content?sessionId="@
                + session + "&sortId="@ + sort_id_spec(sort)
                + "&device=computer&country=all&pageToken="@,
{
    let session = new_uuid_v4();
    let mut url = String::from_str("https://apis.roblox.com/explore-api/v1/get-sort-content?sessionId=");
    url.append(session.as_str());
    url.append("&sortId=");
    url.append(sort.sort_id());
    url.append("&device=computer&country=all&pageToken=");
    url
}

/// The omni-search request for a query, under a fresh random session ID.
pub fn omni_search_url(query: &str) -> (url: String)
    ensures
        exists|session: Seq<char>|
            is_uuid_v4_text(session) && url@ == "https://apis.roblox.com/search-api/omni-search?searchQuery="@
                + percent_encode_spec(query.spec_bytes()) + "&sessionId="@ + session,
{
    let session = new_uuid_v4();
    let mut url = String::from_str("https://apis.roblox.com/search-api/omni-search?searchQuery=");
    let q = urlencoding(query);
    url.append(q.as_str());
    url.append("&sessionId=");
    url.append(session.as_str());
    url
}

/// One game of an explore feed, as the discover endpoint reports it.
#[derive(Debug, Clone)]
pub struct ExploreGame {
    pub universe_id: u64,
    pub root_place_id: u64,
    pub name: String,
    pub player_count: u64,
    /// Reported by the API as `genreL1`.
    pub genre: String,
}

/// `g` is the feed entry `e` as a game row, with no icon yet.
pub open spec fn is_game_of_explore(g: PopularGame, e: ExploreGame) -> bool {
    &&& g.universe_id == e.universe_id
    &&& g.root_place_id == e.root_place_id
    &&& g.name == e.name
    &&& g.player_count == e.player_count
    &&& g.genre == e.genre
    &&& g.thumb_url@ == Seq::<char>::empty()
}

/// The first `limit` games of a feed, as game rows without icons.
pub fn games_from_explore(games: Vec<ExploreGame>, limit: usize) -> (res: Vec<PopularGame>)
    ensures
        res@.len() == if games@.len() < limit { games@.len() } else { limit as nat },
        forall|i: int| 0 <= i < res@.len() ==> is_game_of_explore(#[trigger] res@[i], games@[i]),
{
    let ghost orig = games@;
    let mut rest = games;
    let mut out: Vec<PopularGame> = Vec::new();
    assert(orig.len() == rest.len());
    while rest.len() > 0 && out.len() < limit
        invariant
            out@.len() + rest@.len() == orig.len(),
            out@.len() <= limit,
            rest@ == orig.skip(out@.len() as int),
            forall|i: int| 0 <= i < out@.len() ==> is_game_of_explore(#[trigger] out@[i], orig[i]),
        decreases rest.len(),
    {
        let ghost k = out@.len() as int;
        let e = rest.remove(0);
        assert(orig[k] == e);
        assert(rest@ =~= orig.skip(k + 1));
        out.push(
            PopularGame {
                universe_id: e.universe_id,
                root_place_id: e.root_place_id,
                name: e.name,
                player_count: e.player_count,
                genre: e.genre,
                thumb_url: String::new(),
            },
        );
    }
    out
}

/// One result of an omni-search section.
#[derive(Debug, Clone)]
pub struct SearchContent {
    pub content_id: Option<u64>,
    pub content_type: Option<String>,
}

/// One section of an omni-search response; a section without contents has
/// an empty list.
#[derive(Debug, Clone)]
pub struct SearchSection {
    pub content_group_type: Option<String>,
    pub contents: Vec<SearchContent>,
}

/// A type tag that marks a game (an absent tag counts as one).
pub open spec fn is_game_tag(tag: Option<String>) -> bool {
    match tag {
        Some(t) => t@ == "Game"@,
        None => true,
    }
}

/// The universe IDs of the game results of a section, in order.
pub open spec fn content_game_ids(contents: Seq<SearchContent>) -> Seq<u64>
    decreases contents.len(),
{
    if contents.len() == 0 {
        Seq::empty()
    } else {
        let rest = content_game_ids(contents.drop_last());
        let c = contents.last();
        if c.content_id is Some && is_game_tag(c.content_type) {
            rest.push(c.content_id->0)
        } else {
            rest
        }
    }
}

/// The universe IDs of all game results of the game sections, in order.
pub open spec fn search_game_ids(sections: Seq<SearchSection>) -> Seq<u64>
    decreases sections.len(),
{
    if sections.len() == 0 {
        Seq::empty()
    } else {
        let rest = search_game_ids(sections.drop_last());
        let s = sections.last();
        if is_game_tag(s.content_group_type) {
            rest + content_game_ids(s.contents@)
        } else {
            rest
        }
    }
}

fn is_game_tag_exec(tag: &Option<String>) -> (b: bool)
    ensures
        b == is_game_tag(*tag),
{
    match tag {
        Some(t) => crate::text::str_eq(t.as_str(), "Game"),
        None => true,
    }
}

/// Collects the universe IDs of the game results of a search response.
pub fn game_universe_ids(sections: &Vec<SearchSection>) -> (ids: Vec<u64>)
    ensures
        ids@ == search_game_ids(sections@),
{
    let mut ids: Vec<u64> = Vec::new();
    let n = sections.len();
    let mut i: usize = 0;
    while i < n
        invariant
            n == sections@.len(),
            i <= n,
            ids@ == search_game_ids(sections@.take(i as int)),
        decreases n - i,
    {
        let section = &sections[i];
        let ghost before = ids@;
        if is_game_tag_exec(&section.content_group_type) {
            let m = section.contents.len();
            let mut j: usize = 0;
            while j < m
                invariant
                    m == section.contents@.len(),
                    j <= m,
                    ids@ == before + content_game_ids(section.contents@.take(j as int)),
                decreases m - j,
            {
                let c = &section.contents[j];
                match c.content_id {
                    Some(id) => {
                        if is_game_tag_exec(&c.content_type) {
                            ids.push(id);
                        }
                    },
                    None => {},
                }
                proof {
                    let t = section.contents@.take(j + 1);
                    assert(t.drop_last() =~= section.contents@.take(j as int));
                    assert(ids@ =~= before + content_game_ids(t));
                }
                j = j + 1;
            }
            assert(section.contents@.take(m as int) =~= section.contents@);
        }
        proof {
            let t = sections@.take(i + 1);
            assert(t.drop_last() =~= sections@.take(i as int));
            assert(t.last() == sections@[i as int]);
            assert(ids@ =~= search_game_ids(t));
        }
        i = i + 1;
    }
    assert(sections@.take(n as int) =~= sections@);
    ids
}

/// One game of a universe details response; fields the response lacks are
/// `None`.
#[derive(Debug, Clone)]
pub struct UniverseRow {
    pub id: Option<u64>,
    pub root_place_id: Option<u64>,
    pub name: Option<String>,
    pub playing: Option<u64>,
    pub genre: Option<String>,
}

/// `g` is the details row `r` as a game row: a missing ID reads as 0, a
/// missing root place as the universe ID, missing text as empty, a missing
/// player count as 0; no icon yet.
pub open spec fn is_game_of_row(g: PopularGame, r: UniverseRow) -> bool {
    let universe_id: u64 = match r.id {
        Some(id) => id,
        None => 0,
    };
    &&& g.universe_id == universe_id
    &&& g.root_place_id == match r.root_place_id {
        Some(p) => p,
        None => universe_id,
    }
    &&& g.name@ == match r.name {
        Some(n) => n@,
        None => Seq::<char>::empty(),
    }
    &&& g.player_count == match r.playing {
        Some(p) => p,
        None => 0,
    }
    &&& g.genre@ == match r.genre {
        Some(x) => x@,
        None => Seq::<char>::empty(),
    }
    &&& g.thumb_url@ == Seq::<char>::empty()
}

fn string_or_empty(s: Option<String>) -> (r: String)
    ensures
        r@ == match s {
            Some(x) => x@,
            None => Seq::<char>::empty(),
        },
{
    match s {
        Some(x) => x,
        None => String::new(),
    }
}

/// The first `limit` details rows as game rows without icons.
pub fn games_from_universe_rows(rows: Vec<UniverseRow>, limit: usize) -> (res: Vec<PopularGame>)
    ensures
        res@.len() == if rows@.len() < limit { rows@.len() } else { limit as nat },
        forall|i: int| 0 <= i < res@.len() ==> is_game_of_row(#[trigger] res@[i], rows@[i]),
{
    let ghost orig = rows@;
    let mut rest = rows;
    let mut out: Vec<PopularGame> = Vec::new();
    assert(orig.len() == rest.len());
    while rest.len() > 0 && out.len() < limit
        invariant
            out@.len() + rest@.len() == orig.len(),
            out@.len() <= limit,
            rest@ == orig.skip(out@.len() as int),
            forall|i: int| 0 <= i < out@.len() ==> is_game_of_row(#[trigger] out@[i], orig[i]),
        decreases rest.len(),
    {
        let ghost k = out@.len() as int;
        let r = rest.remove(0);
        assert(orig[k] == r);
        assert(rest@ =~= orig.skip(k + 1));
        let universe_id: u64 = match r.id {
            Some(id) => id,
            None => 0,
        };
        let root_place_id: u64 = match r.root_place_id {
            Some(p) => p,
            None => universe_id,
        };
        let player_count: u64 = match r.playing {
            Some(p) => p,
            None => 0,
        };
        out.push(
            PopularGame {
                universe_id,
                root_place_id,
                name: string_or_empty(r.name),
                player_count,
                genre: string_or_empty(r.genre),
                thumb_url: String::new(),
            },
        );
    }
    out
}

/// The URL of the last icon given for `id`, if any: what a map built from
/// the icon list holds for it.
pub open spec fn last_icon_url(icons: Seq<(u64, String)>, id: u64) -> Option<String>
    decreases icons.len(),
{
    if icons.len() == 0 {
        None
    } else if icons.last().0 == id {
        Some(icons.last().1)
    } else {
        last_icon_url(icons.drop_last(), id)
    }
}

fn find_last_icon(icons: &Vec<(u64, String)>, id: u64) -> (res: Option<usize>)
    ensures
        match res {
            Some(i) => i < icons@.len() && last_icon_url(icons@, id) == Some(icons@[i as int].1),
            None => last_icon_url(icons@, id) is None,
        },
{
    let mut i = icons.len();
    assert(icons@.take(i as int) =~= icons@);
    while i > 0
        invariant
            i <= icons@.len(),
            last_icon_url(icons@, id) == last_icon_url(icons@.take(i as int), id),
        decreases i,
    {
        let t = Ghost(icons@.take(i as int));
        assert(t@.drop_last() =~= icons@.take(i - 1));
        if icons[i - 1].0 == id {
            return Some(i - 1);
        }
        i = i - 1;
    }
    None
}

/// Fills each game's icon from the icons of one thumbnails call; a game with
/// no icon keeps the URL it had.
pub fn attach_icons(games: &mut Vec<PopularGame>, icons: &Vec<(u64, String)>)
    ensures
        final(games)@.len() == old(games)@.len(),
        forall|i: int|
            0 <= i < final(games)@.len() ==> {
                let g = #[trigger] final(games)@[i];
                let o = old(games)@[i];
                &&& g.universe_id == o.universe_id
                &&& g.root_place_id == o.root_place_id
                &&& g.name == o.name
                &&& g.player_count == o.player_count
                &&& g.genre == o.genre
                &&& g.thumb_url@ == match last_icon_url(icons@, o.universe_id) {
                    Some(url) => url@,
                    None => o.thumb_url@,
                }
            },
{
    let n = games.len();
    let mut i: usize = 0;
    while i < n
        invariant
            n == games@.len(),
            n == old(games)@.len(),
            i <= n,
            forall|j: int|
                i <= j < n ==> #[trigger] games@[j] == old(games)@[j],
            forall|j: int|
                0 <= j < i ==> {
                    let g = #[trigger] games@[j];
                    let o = old(games)@[j];
                    &&& g.universe_id == o.universe_id
                    &&& g.root_place_id == o.root_place_id
                    &&& g.name == o.name
                    &&& g.player_count == o.player_count
                    &&& g.genre == o.genre
                    &&& g.thumb_url@ == match last_icon_url(icons@, o.universe_id) {
                        Some(url) => url@,
                        None => o.thumb_url@,
                    }
                },
        decreases n - i,
    {
        let id = games[i].universe_id;
        match find_last_icon(icons, id) {
            Some(k) => {
                let url = icons[k].1.clone();
                let mut g = games.remove(i);
                g.thumb_url = url;
                games.insert(i, g);
            },
            None => {},
        }
        i = i + 1;
    }
}

/// The games whose icon is to be downloaded, as `(universe_id, url)`: those
/// with an icon URL, in order.
pub open spec fn thumbnail_targets(games: Seq<PopularGame>) -> Seq<(u64, Seq<char>)>
    decreases games.len(),
{
    if games.len() == 0 {
        Seq::empty()
    } else {
        let rest = thumbnail_targets(games.drop_last());
        let g = games.last();
        if g.thumb_url@.len() == 0 {
            rest
        } else {
            rest.push((g.universe_id, g.thumb_url@))
        }
    }
}

/// Which icons to download: every game with an icon URL, skipping the rest.
pub fn thumbnail_downloads(games: &[PopularGame]) -> (res: Vec<(u64, String)>)
    ensures
        res@.len() == thumbnail_targets(games@).len(),
        forall|i: int|
            0 <= i < res@.len() ==> (#[trigger] res@[i]).0 == thumbnail_targets(games@)[i].0
                && res@[i].1@ == thumbnail_targets(games@)[i].1,
{
    let mut out: Vec<(u64, String)> = Vec::new();
    let n = games.len();
    let mut i: usize = 0;
    while i < n
        invariant
            n == games@.len(),
            i <= n,
            out@.len() == thumbnail_targets(games@.take(i as int)).len(),
            forall|k: int|
                0 <= k < out@.len() ==> (#[trigger] out@[k]).0 == thumbnail_targets(
                    games@.take(i as int),
                )[k].0 && out@[k].1@ == thumbnail_targets(games@.take(i as int))[k].1,
        decreases n - i,
    {
        let g = &games[i];
        if !g.thumb_url.as_str().is_empty() {
            out.push((g.universe_id, g.thumb_url.clone()));
        }
        proof {
            let t = games@.take(i + 1);
            assert(t.drop_last() =~= games@.take(i as int));
            assert(t.last() == games@[i as int]);
        }
        i = i + 1;
    }
    assert(games@.take(n as int) =~= games@);
    out
}

} // verus!
