//! Places, universes and game previews.

use vstd::prelude::*;
use crate::api::{CoreError, join_decimal, push_joined_ids};
use crate::api::share_link::is_api_error;
use crate::text::{decimal_spec, push_decimal};

verus! {

/// The universe details request (name, root place, player count) for a batch
/// of universe IDs.
pub fn universe_details_url(universe_ids: &[u64]) -> (url: String)
    ensures
        url@ == "https://games.roblox.com/v1/games?universeIds="@ + join_decimal(universe_ids@),
{
    let mut url = String::from_str("https://games.roblox.com/v1/games?universeIds=");
    push_joined_ids(&mut url, universe_ids);
    url
}

/// The place-to-universe request.
pub fn place_universe_url(place_id: u64) -> (url: String)
    ensures
        url@ == "https://apis.roblox.com/universes/v1/places/"@ + decimal_spec(place_id as nat)
            + "/universe"@,
{
    let mut url = String::from_str("https://apis.roblox.com/universes/v1/places/");
    push_decimal(&mut url, place_id);
    url.append("/universe");
    url
}

/// Result of resolving a place ID to a game preview: name plus thumbnail.
#[derive(Debug, Clone)]
pub struct GamePreview {
    pub place_id: u64,
    pub universe_id: u64,
    pub name: String,
    pub thumb_url: String,
}

impl Default for GamePreview {
    fn default() -> (p: GamePreview)
        ensures
            p.place_id == 0,
            p.universe_id == 0,
            p.name@ == Seq::<char>::empty(),
            p.thumb_url@ == Seq::<char>::empty(),
    {
        GamePreview { place_id: 0, universe_id: 0, name: String::new(), thumb_url: String::new() }
    }
}

impl GamePreview {
    /// Builder-style setter so partial previews can carry just the fields
    /// that were actually resolved.
    pub fn with_name(self, name: String) -> (p: GamePreview)
        ensures
            p.name == name,
            p.place_id == self.place_id,
            p.universe_id == self.universe_id,
            p.thumb_url == self.thumb_url,
    {
        let mut p = self;
        p.name = name;
        p
    }
}

/// The game name of a universe: the first entry of the details response.
pub fn first_universe_name(universe_id: u64, names: Vec<String>) -> (res: Result<String, CoreError>)
    ensures
        names@.len() > 0 ==> res == Ok::<String, CoreError>(names@[0]),
        names@.len() == 0 ==> (res matches Err(e) && is_api_error(
            e,
            404,
            "universe "@ + decimal_spec(universe_id as nat) + " not found"@,
        )),
{
    let mut names = names;
    if names.len() > 0 {
        Ok(names.remove(0))
    } else {
        let mut message = String::from_str("universe ");
        push_decimal(&mut message, universe_id);
        message.append(" not found");
        Err(CoreError::RobloxApi { status: 404, message })
    }
}

/// The preview of a place from what its lookups gave: the universe it
/// belongs to (a missing one is an error), the universe's name if that
/// lookup succeeded, and the icons if that lookup succeeded. A failed name
/// or icon lookup leaves that field empty.
pub fn game_preview_from(
    place_id: u64,
    universe_id: Option<u64>,
    name: Option<String>,
    icons: Option<Vec<(u64, String)>>,
) -> (res: Result<GamePreview, CoreError>)
    ensures
        match universe_id {
            None => res matches Err(e) && is_api_error(
                e,
                404,
                "no universe found for place "@ + decimal_spec(place_id as nat),
            ),
            Some(u) => res matches Ok(p) && {
                &&& p.place_id == place_id
                &&& p.universe_id == u
                &&& p.name@ == match name {
                    Some(n) => n@,
                    None => Seq::<char>::empty(),
                }
                &&& p.thumb_url@ == match icons {
                    Some(v) => if v@.len() > 0 {
                        v@[0].1@
                    } else {
                        Seq::<char>::empty()
                    },
                    None => Seq::<char>::empty(),
                }
            },
        },
{
    let universe_id = match universe_id {
        Some(u) => u,
        None => {
            let mut message = String::from_str("no universe found for place ");
            push_decimal(&mut message, place_id);
            return Err(CoreError::RobloxApi { status: 404, message });
        },
    };
    let name = match name {
        Some(n) => n,
        None => String::new(),
    };
    let thumb_url = match icons {
        Some(mut v) => if v.len() > 0 {
            v.remove(0).1
        } else {
            String::new()
        },
        None => String::new(),
    };
    Ok(GamePreview { place_id, universe_id, name, thumb_url })
}

} // verus!
