//! Users: public profiles, username lookup and presence.

use vstd::prelude::*;
use crate::models::Presence;
use crate::text::{decimal_spec, push_decimal};

verus! {

/// The public profile request of a user.
pub fn user_profile_url(user_id: u64) -> (url: String)
    ensures
        url@ == "https://users.roblox.com/v1/users/"@ + decimal_spec(user_id as nat),
{
    let mut url = String::from_str("https://users.roblox.com/v1/users/");
    push_decimal(&mut url, user_id);
    url
}

/// One match of a username lookup.
#[derive(Debug, Clone)]
pub struct UsernameLookupEntry {
    pub id: u64,
    pub name: String,
    pub display_name: String,
}

/// `(id, name, display_name)` of the first match, if any.
pub fn first_user(entries: Vec<UsernameLookupEntry>) -> (res: Option<(u64, String, String)>)
    ensures
        entries@.len() == 0 ==> res is None,
        entries@.len() > 0 ==> res == Some((entries@[0].id, entries@[0].name, entries@[0].display_name)),
{
    let mut entries = entries;
    if entries.len() == 0 {
        None
    } else {
        let e = entries.remove(0);
        Some((e.id, e.name, e.display_name))
    }
}

/// One entry of a presence response.
#[derive(Debug, Clone)]
pub struct PresenceEntry {
    pub user_presence_type: u8,
    pub place_id: Option<u64>,
    pub game_id: Option<String>,
    pub last_location: Option<String>,
}

/// `p` is the presence the entry `e` reports (a missing location is empty).
pub open spec fn is_presence_of(p: Presence, e: PresenceEntry) -> bool {
    &&& p.user_presence_type == e.user_presence_type
    &&& p.place_id == e.place_id
    &&& p.game_id == e.game_id
    &&& p.last_location@ == match e.last_location {
        Some(l) => l@,
        None => Seq::<char>::empty(),
    }
}

/// Pairs the requested user IDs with the presence entries position by
/// position, as far as both go.
pub fn pair_presences(user_ids: &[u64], entries: Vec<PresenceEntry>) -> (res: Vec<(u64, Presence)>)
    ensures
        res@.len() == if user_ids@.len() < entries@.len() { user_ids@.len() } else { entries@.len() },
        forall|i: int|
            0 <= i < res@.len() ==> (#[trigger] res@[i]).0 == user_ids@[i] && is_presence_of(
                res@[i].1,
                entries@[i],
            ),
{
    let ghost orig = entries@;
    let mut rest = entries;
    let mut out: Vec<(u64, Presence)> = Vec::new();
    assert(orig.len() == rest.len());
    while rest.len() > 0 && out.len() < user_ids.len()
        invariant
            out@.len() + rest@.len() == orig.len(),
            out@.len() <= user_ids@.len(),
            rest@ == orig.skip(out@.len() as int),
            forall|i: int|
                0 <= i < out@.len() ==> (#[trigger] out@[i]).0 == user_ids@[i] && is_presence_of(
                    out@[i].1,
                    orig[i],
                ),
        decreases rest.len(),
    {
        let ghost k = out@.len() as int;
        let e = rest.remove(0);
        assert(orig[k] == e);
        assert(rest@ =~= orig.skip(k + 1));
        let last_location = match e.last_location {
            Some(l) => l,
            None => String::new(),
        };
        let id = user_ids[out.len()];
        out.push(
            (
                id,
                Presence {
                    user_presence_type: e.user_presence_type,
                    place_id: e.place_id,
                    game_id: e.game_id,
                    last_location,
                },
            ),
        );
    }
    out
}

} // verus!
