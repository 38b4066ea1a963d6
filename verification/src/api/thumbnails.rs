//! Avatar and game icon thumbnails.

use vstd::prelude::*;
use crate::api::{contains_u64, join_decimal, push_joined_ids};

verus! {

/// One entry of a thumbnails response: the ID it is for and its image URL,
/// when the service could render one.
#[derive(Debug, Clone)]
pub struct ThumbnailEntry {
    pub target_id: u64,
    pub image_url: Option<String>,
}

/// The `(id, url)` pairs that a thumbnails response gives for the requested
/// IDs, in the order of the response: entries for IDs that were not asked
/// for, and entries without an image, are dropped.
pub open spec fn paired_thumbnails(requested: Seq<u64>, data: Seq<ThumbnailEntry>) -> Seq<(u64, String)>
    decreases data.len(),
{
    if data.len() == 0 {
        Seq::empty()
    } else {
        let rest = paired_thumbnails(requested, data.drop_last());
        let e = data.last();
        if requested.contains(e.target_id) && e.image_url is Some {
            rest.push((e.target_id, e.image_url->0))
        } else {
            rest
        }
    }
}

/// Pair thumbnail entries back to the IDs that asked for them.
///
/// Keyed on `targetId`, never on position: the thumbnails service does not
/// promise request order, and it omits IDs it cannot resolve rather than
/// returning a null entry.
pub fn pair_thumbnails(requested_ids: &[u64], data: Vec<ThumbnailEntry>) -> (res: Vec<(u64, String)>)
    ensures
        res@ == paired_thumbnails(requested_ids@, data@),
{
    let ghost orig = data@;
    let mut rest = data;
    let mut out: Vec<(u64, String)> = Vec::new();
    let mut k: usize = 0;
    assert(orig.len() == rest.len());
    while rest.len() > 0
        invariant
            k + rest@.len() == orig.len(),
            orig.len() <= usize::MAX,
            rest@ == orig.skip(k as int),
            out@ == paired_thumbnails(requested_ids@, orig.take(k as int)),
        decreases rest.len(),
    {
        let e = rest.remove(0);
        proof {
            let t = orig.take(k + 1);
            assert(t.drop_last() =~= orig.take(k as int));
            assert(orig[k as int] == e);
            assert(t.last() == e);
            assert(rest@ =~= orig.skip(k + 1));
        }
        if contains_u64(requested_ids, e.target_id) {
            match e.image_url {
                Some(url) => {
                    out.push((e.target_id, url));
                },
                None => {},
            }
        }
        k = k + 1;
    }
    assert(orig.take(k as int) =~= orig);
    out
}

/// Pairing is by ID: every pair is for a requested ID, and its URL is the
/// one an entry gave for that very ID.
pub proof fn lemma_pairs_keyed_by_requested_id(requested: Seq<u64>, data: Seq<ThumbnailEntry>)
    ensures
        forall|k: int|
            0 <= k < paired_thumbnails(requested, data).len() ==> {
                let p = #[trigger] paired_thumbnails(requested, data)[k];
                &&& requested.contains(p.0)
                &&& exists|j: int|
                    0 <= j < data.len() && data[j].target_id == p.0 && data[j].image_url == Some(p.1)
            },
    decreases data.len(),
{
    if data.len() > 0 {
        let rest = data.drop_last();
        lemma_pairs_keyed_by_requested_id(requested, rest);
        let prev = paired_thumbnails(requested, rest);
        assert forall|k: int| 0 <= k < paired_thumbnails(requested, data).len() implies {
            let p = #[trigger] paired_thumbnails(requested, data)[k];
            &&& requested.contains(p.0)
            &&& exists|j: int|
                0 <= j < data.len() && data[j].target_id == p.0 && data[j].image_url == Some(p.1)
        } by {
            let p = paired_thumbnails(requested, data)[k];
            if k < prev.len() {
                assert(p == prev[k]);
                let j = choose|j: int|
                    0 <= j < rest.len() && rest[j].target_id == p.0 && rest[j].image_url == Some(p.1);
                assert(data[j] == rest[j]);
            } else {
                assert(data[data.len() - 1] == data.last());
            }
        }
    }
}

/// The headshot thumbnails request for a batch of user IDs.
pub fn avatar_headshot_url(user_ids: &[u64]) -> (url: String)
    ensures
        url@ == "https://thumbnails.roblox.com/v1/users/avatar-headshot?userIds="@ + join_decimal(
            user_ids@,
        ) + "&size=150x150&format=Png&isCircular=false"@,
{
    let mut url = String::from_str("https://thumbnails.roblox.com/v1/users/avatar-headshot?userIds=");
    push_joined_ids(&mut url, user_ids);
    url.append("&size=150x150&format=Png&isCircular=false");
    url
}

/// The game icon thumbnails request for a batch of universe IDs.
pub fn game_icons_url(universe_ids: &[u64]) -> (url: String)
    ensures
        url@ == "https://thumbnails.roblox.com/v1/games/icons?universeIds="@ + join_decimal(
            universe_ids@,
        ) + "&returnPolicy=PlaceHolder&size=150x150&format=Png&isCircular=false"@,
{
    let mut url = String::from_str("https://thumbnails.roblox.com/v1/games/icons?universeIds=");
    push_joined_ids(&mut url, universe_ids);
    url.append("&returnPolicy=PlaceHolder&size=150x150&format=Png&isCircular=false");
    url
}

} // verus!
