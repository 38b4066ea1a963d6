//! The data model: accounts, their presence and moderation state, the account
//! store, account groups, and the small records kept in the configuration.
//!
//! Instants are `UtcInstant`s: seconds and nanoseconds since the Unix epoch (UTC).

use vstd::prelude::*;
use crate::clock::{UtcInstant, now_utc};
use crate::ids::{is_uuid_v4_text, new_uuid_v4};
use crate::text::str_eq;

verus! {

/// Roblox user presence information.
#[derive(Debug, Clone)]
pub struct Presence {
    /// 0 = Offline, 1 = Online, 2 = InGame, 3 = InStudio
    pub user_presence_type: u8,
    /// Place ID the user is currently in (if in-game).
    pub place_id: Option<u64>,
    /// Job/server ID (if in-game).
    pub game_id: Option<String>,
    /// Human-readable status text from Roblox.
    pub last_location: String,
}

/// The text shown for a presence type.
pub open spec fn status_text_spec(user_presence_type: u8) -> Seq<char> {
    if user_presence_type == 0 {
        "Offline"@
    } else if user_presence_type == 1 {
        "Online"@
    } else if user_presence_type == 2 {
        "In Game"@
    } else if user_presence_type == 3 {
        "In Studio"@
    } else {
        "Unknown"@
    }
}

impl Presence {
    /// The offline presence with no location.
    pub fn offline() -> (p: Presence)
        ensures
            p.user_presence_type == 0,
            p.place_id is None,
            p.game_id is None,
            p.last_location@ == Seq::<char>::empty(),
    {
        Presence { user_presence_type: 0, place_id: None, game_id: None, last_location: String::new() }
    }

    /// The text shown for the presence type.
    pub fn status_text(&self) -> (s: &'static str)
        ensures
            s@ == status_text_spec(self.user_presence_type),
    {
        match self.user_presence_type {
            0 => "Offline",
            1 => "Online",
            2 => "In Game",
            3 => "In Studio",
            _ => "Unknown",
        }
    }

    /// Whether the account is anywhere but offline.
    pub fn is_online(&self) -> (b: bool)
        ensures
            b == (self.user_presence_type > 0),
    {
        self.user_presence_type > 0
    }
}

impl Default for Presence {
    fn default() -> (p: Presence)
        ensures
            p.user_presence_type == 0,
            p.place_id is None,
            p.game_id is None,
            p.last_location@ == Seq::<char>::empty(),
    {
        Presence::offline()
    }
}

/// Moderation / enforcement state on a Roblox account.
///
/// `is_banned` reflects the public `isBanned` flag (permanent terminations).
/// `reason` / `expires_at` are best-effort and may be missing even when the
/// account is moderated. `last_checked` lets the UI age-gate the warning.
#[derive(Debug, Clone)]
pub struct ModerationInfo {
    /// True if the public profile reports the account as banned (terminated).
    pub is_banned: bool,
    /// Human-readable reason from the moderation page, if we could get it.
    pub reason: Option<String>,
    /// When the moderation expires (None = permanent, or unknown).
    pub expires_at: Option<UtcInstant>,
    /// When the moderation state was last checked.
    pub last_checked: Option<UtcInstant>,
}

impl ModerationInfo {
    /// True when the account is currently restricted in some way (perma or temp).
    pub fn is_active(&self) -> (b: bool)
        ensures
            b == (self.is_banned || self.reason is Some),
    {
        self.is_banned || self.reason.is_some()
    }
}

impl Default for ModerationInfo {
    fn default() -> (m: ModerationInfo)
        ensures
            !m.is_banned,
            m.reason is None,
            m.expires_at is None,
            m.last_checked is None,
    {
        ModerationInfo { is_banned: false, reason: None, expires_at: None, last_checked: None }
    }
}

/// A single Roblox account managed by RM.
#[derive(Debug, Clone)]
pub struct Account {
    /// Roblox user ID.
    pub user_id: u64,
    /// Display name on Roblox.
    pub display_name: String,
    /// Roblox username.
    pub username: String,
    /// The encrypted `.ROBLOSECURITY` cookie (never stored in plaintext).
    pub encrypted_cookie: Option<String>,
    /// Optional alias set by the user for quick identification.
    pub alias: String,
    /// User notes / annotations for this account.
    pub notes: String,
    /// Optional group/tag for organizing accounts.
    pub group: String,
    /// Cached avatar thumbnail URL.
    pub avatar_url: String,
    /// Last known online presence.
    pub last_presence: Presence,
    /// When the account was last successfully validated.
    pub last_validated: Option<UtcInstant>,
    /// True if the last automatic revalidation found the cookie expired.
    pub cookie_expired: bool,
    /// Latest moderation state for the account (None = not moderated as of the
    /// last check, or never checked).
    pub moderation: Option<ModerationInfo>,
    /// Manual sort position (used in Custom sort mode). `u32::MAX` = not yet positioned.
    pub sort_order: u32,
    /// Last place ID entered in this account's launch panel.
    pub saved_place_id: String,
    /// Last job ID (specific server) entered for this account.
    pub saved_job_id: String,
}

/// The sidebar label of an account: its alias if set, otherwise its username.
pub open spec fn account_label_spec(a: Account) -> Seq<char> {
    if a.alias@.len() == 0 {
        a.username@
    } else {
        a.alias@
    }
}

/// A freshly added account: only the identity is known.
pub open spec fn is_fresh_account(a: Account, user_id: u64, username: Seq<char>, display_name: Seq<char>) -> bool {
    &&& a.user_id == user_id
    &&& a.username@ == username
    &&& a.display_name@ == display_name
    &&& a.encrypted_cookie is None
    &&& a.alias@ == Seq::<char>::empty()
    &&& a.notes@ == Seq::<char>::empty()
    &&& a.group@ == Seq::<char>::empty()
    &&& a.avatar_url@ == Seq::<char>::empty()
    &&& a.last_presence.user_presence_type == 0
    &&& a.last_presence.place_id is None
    &&& a.last_presence.game_id is None
    &&& a.last_presence.last_location@ == Seq::<char>::empty()
    &&& a.last_validated is None
    &&& !a.cookie_expired
    &&& a.moderation is None
    &&& a.sort_order == u32::MAX
    &&& a.saved_place_id@ == Seq::<char>::empty()
    &&& a.saved_job_id@ == Seq::<char>::empty()
}

impl Account {
    /// A new account of which only the identity is known.
    pub fn new(user_id: u64, username: String, display_name: String) -> (a: Account)
        ensures
            is_fresh_account(a, user_id, username@, display_name@),
    {
        Account {
            user_id,
            display_name,
            username,
            encrypted_cookie: None,
            alias: String::new(),
            notes: String::new(),
            group: String::new(),
            avatar_url: String::new(),
            last_presence: Presence::offline(),
            last_validated: None,
            cookie_expired: false,
            moderation: None,
            sort_order: u32::MAX,
            saved_place_id: String::new(),
            saved_job_id: String::new(),
        }
    }

    /// Returns the label shown in the sidebar (alias if set, otherwise username).
    pub fn label(&self) -> (s: &str)
        ensures
            s@ == account_label_spec(*self),
    {
        if self.alias.as_str().is_empty() {
            self.username.as_str()
        } else {
            self.alias.as_str()
        }
    }
}

/// `accounts` holds an account with this user ID.
pub open spec fn has_user_id(accounts: Seq<Account>, user_id: u64) -> bool {
    exists|i: int| 0 <= i < accounts.len() && #[trigger] accounts[i].user_id == user_id
}

/// `i` is the position of the first account with this user ID.
pub open spec fn is_first_with_user_id(accounts: Seq<Account>, user_id: u64, i: int) -> bool {
    &&& 0 <= i < accounts.len()
    &&& accounts[i].user_id == user_id
    &&& forall|j: int| 0 <= j < i ==> #[trigger] accounts[j].user_id != user_id
}

/// The accounts that do not carry this user ID, in their order.
pub open spec fn without_user_id(accounts: Seq<Account>, user_id: u64) -> Seq<Account> {
    accounts.filter(|a: Account| a.user_id != user_id)
}

/// After removing a user ID, no account carries it, and every account with
/// another user ID is still there.
pub proof fn lemma_remove_by_id_removes_only_that_id(accounts: Seq<Account>, user_id: u64)
    ensures
        !has_user_id(without_user_id(accounts, user_id), user_id),
        forall|i: int|
            0 <= i < accounts.len() && accounts[i].user_id != user_id ==> without_user_id(
                accounts,
                user_id,
            ).contains(#[trigger] accounts[i]),
{
    let pred = |a: Account| a.user_id != user_id;
    let r = accounts.filter(pred);
    if has_user_id(r, user_id) {
        let i = choose|i: int| 0 <= i < r.len() && #[trigger] r[i].user_id == user_id;
        accounts.lemma_filter_pred(pred, i);
    }
    assert forall|i: int| 0 <= i < accounts.len() && accounts[i].user_id != user_id implies r.contains(
        #[trigger] accounts[i],
    ) by {
        accounts.lemma_filter_contains(pred, i);
    }
}

/// An account is online exactly when its status text is not "Offline".
pub proof fn lemma_online_iff_not_offline_text(p: Presence)
    ensures
        (p.user_presence_type > 0) <==> status_text_spec(p.user_presence_type) != "Offline"@,
{
    reveal_strlit("Offline");
    reveal_strlit("Online");
    reveal_strlit("In Game");
    reveal_strlit("In Studio");
    reveal_strlit("Unknown");
    assert("Offline"@[1] != "Online"@[1]);
    assert("Offline"@[0] != "In Game"@[0]);
    assert("Offline"@.len() != "In Studio"@.len());
    assert("Offline"@[0] != "Unknown"@[0]);
}

/// The persistent store of all accounts.
#[derive(Debug, Clone)]
pub struct AccountStore {
    pub accounts: Vec<Account>,
    /// Accounts moved to the trash rather than deleted outright.
    pub trashed: Vec<Account>,
}

impl Default for AccountStore {
    fn default() -> (s: AccountStore)
        ensures
            s.accounts@.len() == 0,
            s.trashed@.len() == 0,
    {
        AccountStore { accounts: Vec::new(), trashed: Vec::new() }
    }
}

impl AccountStore {
    /// The first account with this user ID.
    pub fn find_by_id(&self, user_id: u64) -> (res: Option<&Account>)
        ensures
            res is None <==> !has_user_id(self.accounts@, user_id),
            res matches Some(a) ==> exists|i: int|
                is_first_with_user_id(self.accounts@, user_id, i) && self.accounts@[i] == *a,
    {
        let n = self.accounts.len();
        let mut i: usize = 0;
        while i < n
            invariant
                n == self.accounts@.len(),
                i <= n,
                forall|j: int| 0 <= j < i ==> #[trigger] self.accounts@[j].user_id != user_id,
            decreases n - i,
        {
            if self.accounts[i].user_id == user_id {
                assert(is_first_with_user_id(self.accounts@, user_id, i as int));
                return Some(&self.accounts[i]);
            }
            i = i + 1;
        }
        None
    }

    /// Position of the first account with this user ID.
    fn position_of(&self, user_id: u64) -> (res: Option<usize>)
        ensures
            res is None <==> !has_user_id(self.accounts@, user_id),
            res matches Some(i) ==> is_first_with_user_id(self.accounts@, user_id, i as int),
    {
        let n = self.accounts.len();
        let mut i: usize = 0;
        while i < n
            invariant
                n == self.accounts@.len(),
                i <= n,
                forall|j: int| 0 <= j < i ==> #[trigger] self.accounts@[j].user_id != user_id,
            decreases n - i,
        {
            if self.accounts[i].user_id == user_id {
                return Some(i);
            }
            i = i + 1;
        }
        None
    }

    /// Mutable access to the first account with this user ID.
    pub fn find_by_id_mut(&mut self, user_id: u64) -> (res: Option<&mut Account>)
        ensures
            res is None <==> !has_user_id(old(self).accounts@, user_id),
            res is None ==> *final(self) == *old(self),
            res matches Some(a) ==> exists|i: int|
                {
                    &&& is_first_with_user_id(old(self).accounts@, user_id, i)
                    &&& *a == old(self).accounts@[i]
                    &&& final(self).accounts@ == old(self).accounts@.update(i, *final(a))
                    &&& final(self).trashed@ == old(self).trashed@
                },
    {
        match self.position_of(user_id) {
            Some(i) => Some(&mut self.accounts[i]),
            None => None,
        }
    }

    /// Removes every account with this user ID; true when one was there.
    pub fn remove_by_id(&mut self, user_id: u64) -> (removed: bool)
        ensures
            final(self).accounts@ == without_user_id(old(self).accounts@, user_id),
            final(self).trashed@ == old(self).trashed@,
            removed == has_user_id(old(self).accounts@, user_id),
    {
        let ghost orig = self.accounts@;
        assert(orig.len() == self.accounts.len());
        let mut rest: Vec<Account> = Vec::new();
        std::mem::swap(&mut rest, &mut self.accounts);
        let ghost pred = |a: Account| a.user_id != user_id;
        let mut found = false;
        let mut k: usize = 0;
        while rest.len() > 0
            invariant
                k <= orig.len(),
                k + rest@.len() == orig.len(),
                orig.len() <= usize::MAX,
                rest@ == orig.skip(k as int),
                pred == (|a: Account| a.user_id != user_id),
                self.accounts@ == orig.take(k as int).filter(pred),
                found == has_user_id(orig.take(k as int), user_id),
                self.trashed@ == old(self).trashed@,
            decreases rest.len(),
        {
            let a = rest.remove(0);
            proof {
                reveal_with_fuel(Seq::<_>::filter, 1);
                assert(orig.take(k + 1).drop_last() =~= orig.take(k as int));
                assert(orig[k as int] == a);
                assert(orig.take(k + 1).last() == a);
                assert(rest@ =~= orig.skip(k + 1));
                if has_user_id(orig.take(k + 1), user_id) && a.user_id != user_id {
                    let j = choose|j: int| 0 <= j < orig.take(k + 1).len() && #[trigger] orig.take(k + 1)[j].user_id == user_id;
                    assert(orig.take(k as int)[j].user_id == user_id);
                }
                if has_user_id(orig.take(k as int), user_id) {
                    let j = choose|j: int| 0 <= j < orig.take(k as int).len() && #[trigger] orig.take(k as int)[j].user_id == user_id;
                    assert(orig.take(k + 1)[j].user_id == user_id);
                }
                if a.user_id == user_id {
                    assert(orig.take(k + 1)[k as int].user_id == user_id);
                }
            }
            let ghost kept = self.accounts@;
            if a.user_id == user_id {
                found = true;
            } else {
                self.accounts.push(a);
            }
            proof {
                reveal_with_fuel(Seq::<_>::filter, 1);
                let t = orig.take(k + 1);
                assert(t.drop_last() =~= orig.take(k as int));
                assert(t.last() == a);
                assert(pred(a) == (a.user_id != user_id));
                assert(t.filter(pred) == t.drop_last().filter(pred) + (if pred(t.last()) { seq![t.last()] } else { Seq::empty() }));
                if pred(a) {
                    assert(self.accounts@ =~= kept + seq![a]);
                } else {
                    assert(self.accounts@ =~= kept + Seq::<_>::empty());
                }
                assert(self.accounts@ =~= t.filter(pred));
            }
            k = k + 1;
        }
        assert(orig.take(k as int) =~= orig);
        found
    }
}

/// Default sidebar sort mode.
pub fn default_sort_mode() -> (s: String)
    ensures
        s@ == "Custom"@,
{
    String::from_str("Custom")
}

/// Default of the settings that are on unless turned off.
pub fn default_true() -> (b: bool)
    ensures
        b,
{
    true
}

/// Manual sort position of an entry that has not been positioned yet.
pub fn default_sort_order() -> (n: u32)
    ensures
        n == u32::MAX,
{
    u32::MAX
}

/// Optional metadata for account groupings.
#[derive(Debug, Clone)]
pub struct GroupMeta {
    pub color: [u8; 3],
    pub description: String,
    /// Manual sort position for group ordering. `u32::MAX` = not yet positioned.
    pub sort_order: u32,
}

/// A saved favorite place for quick launching (superseded by [`LaunchPreset`]).
#[derive(Debug, Clone)]
pub struct FavoritePlace {
    pub name: String,
    pub place_id: u64,
}

/// A user-defined launch preset: name, Place ID and optional Job ID.
#[derive(Debug, Clone)]
pub struct LaunchPreset {
    pub name: String,
    pub place_id: u64,
    pub job_id: Option<String>,
}

/// One game of a discover feed or of a search.
#[derive(Debug, Clone)]
pub struct PopularGame {
    /// Roblox universe (experience) ID.
    pub universe_id: u64,
    /// The place (game) ID a user can launch into.
    pub root_place_id: u64,
    /// Game name as shown on the discover page.
    pub name: String,
    /// Players in this game right now.
    pub player_count: u64,
    /// Genre label, e.g. "Simulation".
    pub genre: String,
    /// Cached icon URL from the thumbnails API, if resolved.
    pub thumb_url: String,
}

impl PopularGame {
    /// Favorited games are keyed by universe ID, whichever feed they came from.
    pub fn key(&self) -> (k: u64)
        ensures
            k == self.universe_id,
    {
        self.universe_id
    }
}

/// A group of accounts that share a game and can be launched together.
#[derive(Debug, Clone)]
pub struct AccountGroup {
    /// Internal unique identifier (UUID v4).
    pub id: String,
    /// User-assigned name for this group.
    pub name: String,
    /// The Roblox place ID this group is configured for.
    pub place_id: u64,
    /// Cached game name, resolved from the Place ID.
    pub game_name: String,
    /// Cached thumbnail bytes of the game, stored as PNG.
    pub game_thumb_bytes: Vec<u8>,
    /// User IDs of the accounts in this group.
    pub member_user_ids: Vec<u64>,
    /// When the group was created.
    pub created_at: UtcInstant,
    /// When the group was last modified.
    pub updated_at: UtcInstant,
}

impl AccountGroup {
    /// A new empty group with a fresh random ID, created now.
    pub fn new(name: String, place_id: u64) -> (g: AccountGroup)
        ensures
            is_uuid_v4_text(g.id@),
            g.name@ == name@,
            g.place_id == place_id,
            g.game_name@ == Seq::<char>::empty(),
            g.game_thumb_bytes@.len() == 0,
            g.member_user_ids@.len() == 0,
            g.created_at == g.updated_at,
    {
        let now = now_utc();
        AccountGroup {
            id: new_uuid_v4(),
            name,
            place_id,
            game_name: String::new(),
            game_thumb_bytes: Vec::new(),
            member_user_ids: Vec::new(),
            created_at: now,
            updated_at: now,
        }
    }
}

/// `groups` holds a group with this ID.
pub open spec fn has_group_id(groups: Seq<AccountGroup>, id: Seq<char>) -> bool {
    exists|i: int| 0 <= i < groups.len() && #[trigger] groups[i].id@ == id
}

/// `i` is the position of the first group with this ID.
pub open spec fn is_first_with_group_id(groups: Seq<AccountGroup>, id: Seq<char>, i: int) -> bool {
    &&& 0 <= i < groups.len()
    &&& groups[i].id@ == id
    &&& forall|j: int| 0 <= j < i ==> #[trigger] groups[j].id@ != id
}

/// The groups whose ID is not `id`, in their order.
pub open spec fn without_group_id(groups: Seq<AccountGroup>, id: Seq<char>) -> Seq<AccountGroup> {
    groups.filter(|g: AccountGroup| g.id@ != id)
}

/// The persistent store of all account groups.
#[derive(Debug, Clone)]
pub struct AccountGroupStore {
    pub groups: Vec<AccountGroup>,
}

impl Default for AccountGroupStore {
    fn default() -> (s: AccountGroupStore)
        ensures
            s.groups@.len() == 0,
    {
        AccountGroupStore { groups: Vec::new() }
    }
}

impl AccountGroupStore {
    fn position_of(&self, id: &str) -> (res: Option<usize>)
        ensures
            res is None <==> !has_group_id(self.groups@, id@),
            res matches Some(i) ==> is_first_with_group_id(self.groups@, id@, i as int),
    {
        let n = self.groups.len();
        let mut i: usize = 0;
        while i < n
            invariant
                n == self.groups@.len(),
                i <= n,
                forall|j: int| 0 <= j < i ==> #[trigger] self.groups@[j].id@ != id@,
            decreases n - i,
        {
            if str_eq(self.groups[i].id.as_str(), id) {
                return Some(i);
            }
            i = i + 1;
        }
        None
    }

    /// The first group with this ID.
    pub fn find_by_id(&self, id: &str) -> (res: Option<&AccountGroup>)
        ensures
            res is None <==> !has_group_id(self.groups@, id@),
            res matches Some(g) ==> exists|i: int|
                is_first_with_group_id(self.groups@, id@, i) && self.groups@[i] == *g,
    {
        match self.position_of(id) {
            Some(i) => Some(&self.groups[i]),
            None => None,
        }
    }

    /// Mutable access to the first group with this ID.
    pub fn find_by_id_mut(&mut self, id: &str) -> (res: Option<&mut AccountGroup>)
        ensures
            res is None <==> !has_group_id(old(self).groups@, id@),
            res is None ==> *final(self) == *old(self),
            res matches Some(g) ==> exists|i: int|
                {
                    &&& is_first_with_group_id(old(self).groups@, id@, i)
                    &&& *g == old(self).groups@[i]
                    &&& final(self).groups@ == old(self).groups@.update(i, *final(g))
                },
    {
        match self.position_of(id) {
            Some(i) => Some(&mut self.groups[i]),
            None => None,
        }
    }

    /// Removes every group with this ID; true when one was there.
    pub fn remove_by_id(&mut self, id: &str) -> (removed: bool)
        ensures
            final(self).groups@ == without_group_id(old(self).groups@, id@),
            removed == has_group_id(old(self).groups@, id@),
    {
        let ghost orig = self.groups@;
        assert(orig.len() == self.groups.len());
        let mut rest: Vec<AccountGroup> = Vec::new();
        std::mem::swap(&mut rest, &mut self.groups);
        let ghost pred = |g: AccountGroup| g.id@ != id@;
        let mut found = false;
        let mut k: usize = 0;
        while rest.len() > 0
            invariant
                k <= orig.len(),
                k + rest@.len() == orig.len(),
                orig.len() <= usize::MAX,
                rest@ == orig.skip(k as int),
                pred == (|g: AccountGroup| g.id@ != id@),
                self.groups@ == orig.take(k as int).filter(pred),
                found == has_group_id(orig.take(k as int), id@),
            decreases rest.len(),
        {
            let g = rest.remove(0);
            proof {
                reveal_with_fuel(Seq::<_>::filter, 1);
                assert(orig.take(k + 1).drop_last() =~= orig.take(k as int));
                assert(orig[k as int] == g);
                assert(orig.take(k + 1).last() == g);
                assert(rest@ =~= orig.skip(k + 1));
                if has_group_id(orig.take(k + 1), id@) && g.id@ != id@ {
                    let j = choose|j: int| 0 <= j < orig.take(k + 1).len() && #[trigger] orig.take(k + 1)[j].id@ == id@;
                    assert(orig.take(k as int)[j].id@ == id@);
                }
                if has_group_id(orig.take(k as int), id@) {
                    let j = choose|j: int| 0 <= j < orig.take(k as int).len() && #[trigger] orig.take(k as int)[j].id@ == id@;
                    assert(orig.take(k + 1)[j].id@ == id@);
                }
                if g.id@ == id@ {
                    assert(orig.take(k + 1)[k as int].id@ == id@);
                }
            }
            let ghost kept = self.groups@;
            if str_eq(g.id.as_str(), id) {
                found = true;
            } else {
                self.groups.push(g);
            }
            proof {
                reveal_with_fuel(Seq::<_>::filter, 1);
                let t = orig.take(k + 1);
                assert(t.drop_last() =~= orig.take(k as int));
                assert(t.last() == g);
                assert(pred(g) == (g.id@ != id@));
                assert(t.filter(pred) == t.drop_last().filter(pred) + (if pred(t.last()) { seq![t.last()] } else { Seq::empty() }));
                if pred(g) {
                    assert(self.groups@ =~= kept + seq![g]);
                } else {
                    assert(self.groups@ =~= kept + Seq::<_>::empty());
                }
                assert(self.groups@ =~= t.filter(pred));
            }
            k = k + 1;
        }
        assert(orig.take(k as int) =~= orig);
        found
    }
}

/// A saved private server for quick launching.
#[derive(Debug, Clone)]
pub struct PrivateServer {
    /// User-assigned name for this private server.
    pub name: String,
    /// The Roblox place ID.
    pub place_id: u64,
    /// The universe (experience) ID, used to resolve game name and icon.
    pub universe_id: Option<u64>,
    /// The private server link code (URL parameter `privateServerLinkCode`).
    pub link_code: String,
    /// The UUID access code needed for launching.
    pub access_code: String,
    /// Resolved place name from the Roblox API (cached).
    pub place_name: String,
}

} // verus!
