//! Private server share links: the resolve-link answer and the access code
//! found on the game page.

use vstd::prelude::*;
use crate::api::CoreError;
use crate::text::{decimal_spec, push_decimal};

verus! {

/// `e` is a Roblox API error with this status and message.
pub open spec fn is_api_error(e: CoreError, status: u16, message: Seq<char>) -> bool {
    e matches CoreError::RobloxApi { status: s, message: m } && s == status && m@ == message
}

/// The `privateServerInviteData` object of a resolve-link answer; fields it
/// lacks are `None`.
#[derive(Debug, Clone)]
pub struct ShareLinkInvite {
    pub place_id: Option<u64>,
    pub link_code: Option<String>,
    pub universe_id: Option<u64>,
    pub status: Option<String>,
}

/// The invite status, `"Unknown"` when the answer gives none.
pub open spec fn invite_status(inv: ShareLinkInvite) -> Seq<char> {
    match inv.status {
        Some(s) => s@,
        None => "Unknown"@,
    }
}

fn api_error(status: u16, message: &str) -> (e: CoreError)
    ensures
        is_api_error(e, status, message@),
{
    CoreError::RobloxApi { status, message: String::from_str(message) }
}

/// Checks a resolve-link answer and returns `(place_id, universe_id,
/// link_code)` of a valid private server invite.
pub fn check_share_link(invite: Option<ShareLinkInvite>) -> (res: Result<(u64, Option<u64>, String), CoreError>)
    ensures
        match invite {
            None => res matches Err(e) && is_api_error(
                e,
                400,
                "share link response missing privateServerInviteData"@,
            ),
            Some(inv) => match (inv.place_id, inv.link_code) {
                (None, _) => res matches Err(e) && is_api_error(
                    e,
                    400,
                    "share link response missing placeId"@,
                ),
                (Some(_), None) => res matches Err(e) && is_api_error(
                    e,
                    400,
                    "share link response missing linkCode"@,
                ),
                (Some(p), Some(l)) => if invite_status(inv) == "Valid"@ {
                    res == Ok::<(u64, Option<u64>, String), CoreError>((p, inv.universe_id, l))
                } else {
                    res matches Err(e) && is_api_error(
                        e,
                        400,
                        "private server invite status: "@ + invite_status(inv),
                    )
                },
            },
        },
{
    let inv = match invite {
        Some(inv) => inv,
        None => {
            return Err(api_error(400, "share link response missing privateServerInviteData"));
        },
    };
    let place_id = match inv.place_id {
        Some(p) => p,
        None => {
            return Err(api_error(400, "share link response missing placeId"));
        },
    };
    let link_code = match inv.link_code {
        Some(l) => l,
        None => {
            return Err(api_error(400, "share link response missing linkCode"));
        },
    };
    let status = match inv.status {
        Some(s) => s,
        None => String::from_str("Unknown"),
    };
    if !crate::text::str_eq(status.as_str(), "Valid") {
        let mut message = String::from_str("private server invite status: ");
        message.append(status.as_str());
        return Err(CoreError::RobloxApi { status: 400, message });
    }
    Ok((place_id, inv.universe_id, link_code))
}

/// The game page of a place opened through a private server link code.
pub fn share_game_url(place_id: u64, link_code: &str) -> (url: String)
    ensures
        url@ == "https://www.roblox.com/games/"@ + decimal_spec(place_id as nat)
            + "/game?privateServerLinkCode="@ + link_code@,
{
    let mut url = String::from_str("https://www.roblox.com/games/");
    push_decimal(&mut url, place_id);
    url.append("/game?privateServerLinkCode=");
    url.append(link_code);
    url
}

/// The text that `regex::Regex::new(pattern)` and then `captures(text)`
/// capture in group 1, `None` where the pattern does not compile or does not
/// match, or group 1 takes no part in the match.
pub uninterp spec fn regex_first_capture(pattern: Seq<char>, text: Seq<char>) -> Option<Seq<char>>;

/// Compiles `pattern` with `regex::Regex::new` and returns what group 1 of
/// the leftmost match in `text` captured (`captures`, `get(1)`, `as_str`).
/// The contract names the result: it depends on the pattern and the text
/// alone.
#[verifier::external_body]
fn regex_capture_group_1(pattern: &str, text: &str) -> (res: Option<String>)
    ensures
        match res {
            Some(s) => regex_first_capture(pattern@, text@) == Some(s@),
            None => regex_first_capture(pattern@, text@) is None,
        },
{
    let re = match regex::Regex::new(pattern) {
        Ok(re) => re,
        Err(_) => return None,
    };
    match re.captures(text) {
        Some(c) => match c.get(1) {
            Some(m) => Some(m.as_str().to_string()),
            None => None,
        },
        None => None,
    }
}

/// The `joinPrivateGame(...)` call on a private server's game page, whose
/// second argument is the access code (a lowercase UUID).
pub open spec fn access_code_pattern() -> Seq<char> {
    "Roblox\\.GameLauncher\\.joinPrivateGame\\(\\d+\\s*,\\s*'([0-9a-f]{8}-[0-9a-f]{4}-[0-9a-f]{4}-[0-9a-f]{4}-[0-9a-f]{12})'"@
}

/// The access code is read after a place ID of any number of decimal digits
/// (`\d+`), a comma with optional white space around it, and a quote; it is a
/// lowercase UUID (five groups of 8, 4, 4, 4 and 12 hex digits) followed by a
/// quote. This is the pattern `scrape_access_code` hands to `regex`.
pub proof fn lemma_access_code_pattern_parts()
    ensures
        access_code_pattern() == "Roblox\\.GameLauncher\\.joinPrivateGame\\("@ + "\\d+"@ + "\\s*,\\s*"@
            + "'"@ + "([0-9a-f]{8}-[0-9a-f]{4}-[0-9a-f]{4}-[0-9a-f]{4}-[0-9a-f]{12})"@ + "'"@,
{
    reveal_strlit(
        "Roblox\\.GameLauncher\\.joinPrivateGame\\(\\d+\\s*,\\s*'([0-9a-f]{8}-[0-9a-f]{4}-[0-9a-f]{4}-[0-9a-f]{4}-[0-9a-f]{12})'",
    );
    reveal_strlit("Roblox\\.GameLauncher\\.joinPrivateGame\\(");
    reveal_strlit("\\d+");
    reveal_strlit("\\s*,\\s*");
    reveal_strlit("'");
    reveal_strlit("([0-9a-f]{8}-[0-9a-f]{4}-[0-9a-f]{4}-[0-9a-f]{4}-[0-9a-f]{12})");
    assert(access_code_pattern() =~= "Roblox\\.GameLauncher\\.joinPrivateGame\\("@ + "\\d+"@
        + "\\s*,\\s*"@ + "'"@ + "([0-9a-f]{8}-[0-9a-f]{4}-[0-9a-f]{4}-[0-9a-f]{4}-[0-9a-f]{12})"@ + "'"@);
}

/// Scrapes the private server access code from a game page.
pub fn scrape_access_code(html: &str) -> (res: Result<String, CoreError>)
    ensures
        match regex_first_capture(access_code_pattern(), html@) {
            Some(code) => res matches Ok(s) && s@ == code,
            None => res matches Err(e) && is_api_error(
                e,
                400,
                "could not scrape accessCode from game page"@,
            ),
        },
{
    let pattern = "Roblox\\.GameLauncher\\.joinPrivateGame\\(\\d+\\s*,\\s*'([0-9a-f]{8}-[0-9a-f]{4}-[0-9a-f]{4}-[0-9a-f]{4}-[0-9a-f]{12})'";
    access_code_from(regex_capture_group_1(pattern, html))
}

/// The access code from what the pattern captured on the game page: an
/// error when it captured nothing.
pub fn access_code_from(capture: Option<String>) -> (res: Result<String, CoreError>)
    ensures
        match capture {
            Some(code) => res matches Ok(s) && s@ == code@,
            None => res matches Err(e) && is_api_error(
                e,
                400,
                "could not scrape accessCode from game page"@,
            ),
        },
{
    match capture {
        Some(code) => Ok(code),
        None => Err(api_error(400, "could not scrape accessCode from game page")),
    }
}

} // verus!
