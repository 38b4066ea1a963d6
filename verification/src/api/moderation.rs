//! Moderation / enforcement detection: what the two `not-approved` payloads
//! and the public ban flag say about an account.

use vstd::prelude::*;
use crate::clock::{MAX_UTC_SECS, UtcInstant, instant_of, now_utc, parse_rfc3339, rfc3339_instant, seconds_after};
use crate::models::ModerationInfo;
use crate::text::trim_spec;

verus! {

/// The v1 `not-approved` payload: the localized message and an end date.
#[derive(Debug, Clone)]
pub struct NotApprovedV1 {
    pub message_to_user: String,
    pub end_date: String,
}

/// The restriction part of the v2 `not-approved` payload.
#[derive(Debug, Clone)]
pub struct NotApprovedV2Restriction {
    pub end_time: Option<String>,
    pub duration_seconds: Option<i64>,
}

/// The v2 `not-approved` payload, with machine-readable timestamps.
#[derive(Debug, Clone)]
pub struct NotApprovedV2 {
    pub restriction: Option<NotApprovedV2Restriction>,
}

/// The moderation reason: the v1 message, trimmed, when it is not empty.
pub open spec fn moderation_reason(v1: Option<NotApprovedV1>) -> Option<Seq<char>> {
    match v1 {
        Some(p) => {
            let m = trim_spec(p.message_to_user@);
            if m.len() == 0 {
                None
            } else {
                Some(m)
            }
        },
        None => None,
    }
}

/// The end time of a restriction, when it is given and parses.
pub open spec fn restriction_end_time(r: NotApprovedV2Restriction) -> Option<UtcInstant> {
    match r.end_time {
        Some(s) => if s@.len() == 0 {
            None
        } else {
            instant_of(rfc3339_instant(s@))
        },
        None => None,
    }
}

/// The positive duration a v2 payload falls back on when its end time is
/// missing, empty or unreadable.
pub open spec fn duration_fallback(v2: Option<NotApprovedV2>) -> Option<i64> {
    match v2 {
        Some(p) => match p.restriction {
            Some(r) => if restriction_end_time(r) is Some {
                None
            } else {
                match r.duration_seconds {
                    Some(d) => if d > 0 {
                        Some(d)
                    } else {
                        None
                    },
                    None => None,
                }
            },
            None => None,
        },
        None => None,
    }
}

/// The expiry the v2 payload gives, at instant `now`.
pub open spec fn v2_expiry(v2: Option<NotApprovedV2>, now: UtcInstant) -> Option<UtcInstant> {
    match v2 {
        Some(p) => match p.restriction {
            Some(r) => match restriction_end_time(r) {
                Some(t) => Some(t),
                None => match duration_fallback(v2) {
                    Some(d) => Some(seconds_after(now, d as int)),
                    None => None,
                },
            },
            None => None,
        },
        None => None,
    }
}

/// The expiry the v1 payload gives: its end date, trimmed, when it parses.
pub open spec fn v1_expiry(v1: Option<NotApprovedV1>) -> Option<UtcInstant> {
    match v1 {
        Some(p) => {
            let s = trim_spec(p.end_date@);
            if s.len() == 0 {
                None
            } else {
                instant_of(rfc3339_instant(s))
            }
        },
        None => None,
    }
}

/// The expiry of the moderation: v2's if it has one, else v1's.
pub open spec fn moderation_expiry(v1: Option<NotApprovedV1>, v2: Option<NotApprovedV2>, now: UtcInstant) -> Option<UtcInstant> {
    match v2_expiry(v2, now) {
        Some(t) => Some(t),
        None => v1_expiry(v1),
    }
}

/// A duration fallback, if one is taken, lands on an instant `chrono` can
/// represent (else `TimeDelta::seconds` or `DateTime + TimeDelta` panics).
pub open spec fn expiry_representable(v2: Option<NotApprovedV2>, now: UtcInstant) -> bool {
    match duration_fallback(v2) {
        Some(d) => d <= i64::MAX / 1000 && now.secs + d <= MAX_UTC_SECS,
        None => true,
    }
}

fn restriction_end_time_exec(r: &NotApprovedV2Restriction) -> (t: Option<UtcInstant>)
    ensures
        t == restriction_end_time(*r),
{
    match &r.end_time {
        Some(s) => if s.as_str().is_empty() {
            None
        } else {
            parse_rfc3339(s.as_str())
        },
        None => None,
    }
}

fn v1_expiry_exec(v1: &Option<NotApprovedV1>) -> (t: Option<UtcInstant>)
    ensures
        t == v1_expiry(*v1),
{
    match v1 {
        Some(p) => {
            let s = p.end_date.as_str().trim();
            if s.is_empty() {
                None
            } else {
                parse_rfc3339(s)
            }
        },
        None => None,
    }
}

/// What a v2 payload says about the duration fallback, computed.
fn duration_fallback_exec(v2: &Option<NotApprovedV2>) -> (d: Option<i64>)
    ensures
        d == duration_fallback(*v2),
{
    match v2 {
        Some(p) => match &p.restriction {
            Some(r) => if restriction_end_time_exec(r).is_some() {
                None
            } else {
                match r.duration_seconds {
                    Some(d) => if d > 0 {
                        Some(d)
                    } else {
                        None
                    },
                    None => None,
                }
            },
            None => None,
        },
        None => None,
    }
}

/// The expiry chosen from what the payloads gave once read: the v2
/// restriction's end time if it has one, else its duration if positive,
/// counted from `now`, else the v1 end date.
pub open spec fn chosen_expiry(v2_end: Option<UtcInstant>, v2_duration: Option<i64>, v1_end: Option<UtcInstant>, now: UtcInstant) -> Option<UtcInstant> {
    match v2_end {
        Some(t) => Some(t),
        None => match v2_duration {
            Some(d) => if d > 0 {
                Some(seconds_after(now, d as int))
            } else {
                v1_end
            },
            None => v1_end,
        },
    }
}

/// Chooses the expiry of a moderation from the parsed end time and the
/// duration of the v2 restriction (both `None` without one) and the parsed
/// v1 end date.
pub fn choose_expiry(v2_end: Option<UtcInstant>, v2_duration: Option<i64>, v1_end: Option<UtcInstant>, now: UtcInstant) -> (e: Option<UtcInstant>)
    requires
        v2_end is None && (v2_duration matches Some(d) && d > 0) ==> v2_duration->0 <= i64::MAX / 1000
            && now.secs + v2_duration->0 <= MAX_UTC_SECS,
    ensures
        e == chosen_expiry(v2_end, v2_duration, v1_end, now),
{
    match v2_end {
        Some(t) => Some(t),
        None => match v2_duration {
            Some(d) => if d > 0 {
                let nanos: u32 = if now.nanos >= 1_000_000_000 {
                    now.nanos - 1_000_000_000
                } else {
                    now.nanos
                };
                Some(UtcInstant { secs: now.secs + d, nanos })
            } else {
                v1_end
            },
            None => v1_end,
        },
    }
}

/// `(reason, expires_at)` when the v1 payload carries a reason: the account
/// is under an enforcement action. The expiry comes from v2 (end time, else
/// a positive duration counted from `now`), else from v1's end date.
pub fn moderation_message(v1: Option<NotApprovedV1>, v2: Option<NotApprovedV2>, now: UtcInstant) -> (res: Option<(String, Option<UtcInstant>)>)
    requires
        moderation_reason(v1) is Some ==> expiry_representable(v2, now),
    ensures
        match moderation_reason(v1) {
            None => res is None,
            Some(reason) => res matches Some((r, e)) && r@ == reason && e == moderation_expiry(
                v1,
                v2,
                now,
            ),
        },
{
    let reason = match &v1 {
        Some(p) => {
            let m = p.message_to_user.as_str().trim();
            if m.is_empty() {
                None
            } else {
                Some(String::from_str(m))
            }
        },
        None => None,
    };
    let reason = match reason {
        Some(r) => r,
        None => {
            return None;
        },
    };
    let (v2_end, v2_duration) = match &v2 {
        Some(p) => match &p.restriction {
            Some(r) => (restriction_end_time_exec(r), r.duration_seconds),
            None => (None, None),
        },
        None => (None, None),
    };
    let expires = choose_expiry(v2_end, v2_duration, v1_expiry_exec(&v1), now);
    Some((reason, expires))
}

/// `m` is what `moderation_message` gives for these payloads at `now`, an
/// instant at which it does not panic.
pub open spec fn is_message_at(
    v1: Option<NotApprovedV1>,
    v2: Option<NotApprovedV2>,
    now: UtcInstant,
    m: Option<(String, Option<UtcInstant>)>,
) -> bool {
    &&& moderation_reason(v1) is Some ==> expiry_representable(v2, now)
    &&& match moderation_reason(v1) {
        None => m is None,
        Some(reason) => m matches Some((r, e)) && r@ == reason && e == moderation_expiry(v1, v2, now),
    }
}

/// `moderation_message` at the current time, with the instant read from the
/// clock; `None` where the duration fallback would land, from that instant,
/// past what `chrono` can represent, a case in which computing the expiry
/// panics.
pub fn moderation_message_now(v1: Option<NotApprovedV1>, v2: Option<NotApprovedV2>) -> (out: (
    Option<Option<(String, Option<UtcInstant>)>>,
    UtcInstant,
))
    ensures
        out.0 matches Some(m) ==> is_message_at(v1, v2, out.1, m),
        out.0 is None ==> moderation_reason(v1) is Some && !expiry_representable(v2, out.1),
{
    let now = now_utc();
    let has_reason = match &v1 {
        Some(p) => !p.message_to_user.as_str().trim().is_empty(),
        None => false,
    };
    assert(has_reason == (moderation_reason(v1) is Some));
    if has_reason {
        match duration_fallback_exec(&v2) {
            Some(d) => {
                if d > i64::MAX / 1000 || now.secs > MAX_UTC_SECS - d {
                    assert(!expiry_representable(v2, now));
                    return (None, now);
                }
            },
            None => {},
        }
    }
    assert(moderation_reason(v1) is Some ==> expiry_representable(v2, now));
    let ghost g1 = v1;
    let ghost g2 = v2;
    let m = moderation_message(v1, v2, now);
    assert(is_message_at(g1, g2, now, m));
    (Some(m), now)
}

/// The moderation snapshot of an account: `None` when it is neither banned
/// nor under a moderation message, else the public ban flag with the
/// message's reason and expiry, checked at `now`.
pub open spec fn snapshot_spec(is_banned: bool, msg: Option<(String, Option<UtcInstant>)>, now: UtcInstant) -> Option<ModerationInfo> {
    if !is_banned && msg is None {
        None
    } else {
        Some(
            ModerationInfo {
                is_banned,
                reason: match msg {
                    Some(m) => Some(m.0),
                    None => None,
                },
                expires_at: match msg {
                    Some(m) => m.1,
                    None => None,
                },
                last_checked: Some(now),
            },
        )
    }
}

/// A recorded moderation snapshot always reads as an active restriction:
/// the account is flagged only when it is banned or has a reason.
pub proof fn lemma_snapshot_is_active(is_banned: bool, msg: Option<(String, Option<UtcInstant>)>, now: UtcInstant)
    ensures
        snapshot_spec(is_banned, msg, now) matches Some(info) ==> (info.is_banned || info.reason is Some),
{
}

/// The moderation snapshot of an account, checked at `now`.
pub fn moderation_snapshot(is_banned: bool, msg: Option<(String, Option<UtcInstant>)>, now: UtcInstant) -> (res: Option<ModerationInfo>)
    ensures
        res == snapshot_spec(is_banned, msg, now),
{
    if !is_banned && msg.is_none() {
        return None;
    }
    let (reason, expires_at) = match msg {
        Some((r, e)) => (Some(r), e),
        None => (None, None),
    };
    Some(ModerationInfo { is_banned, reason, expires_at, last_checked: Some(now) })
}

/// The moderation snapshot of an account, checked now.
pub fn moderation_status(is_banned: bool, msg: Option<(String, Option<UtcInstant>)>) -> (res: Option<ModerationInfo>)
    ensures
        res is None <==> (!is_banned && msg is None),
        res matches Some(info) ==> {
            &&& info.is_banned == is_banned
            &&& info.reason == match msg {
                Some(m) => Some(m.0),
                None => None,
            }
            &&& info.expires_at == match msg {
                Some(m) => m.1,
                None => None,
            }
            &&& info.last_checked is Some
        },
{
    let now = now_utc();
    moderation_snapshot(is_banned, msg, now)
}

} // verus!
