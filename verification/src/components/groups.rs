//! Account groups: the group editor's rules, member labels, and the
//! distribution of a group's accounts across servers.

use vstd::prelude::*;
use std::collections::{HashMap, HashSet};
use crate::api::servers::GameServer;
use crate::api::universe::GamePreview;
use crate::i18n::{Language, tr, tr_spec};
use crate::models::{Account, AccountGroup, AccountStore, has_user_id, is_first_with_user_id};
use crate::text::{
    contains_str, contains_text, decimal_spec, fill_placeholder, fill_placeholder_spec, lowercase,
    parse_u64, parse_u64_spec, push_decimal, trim_spec, u64_to_decimal,
};

verus! {

broadcast use vstd::std_specs::hash::group_hash_axioms;

/// The most server-list pages fetched for one distribution.
pub const MAX_DISTRIBUTE_PAGES: u32 = 3;
/// The most servers collected for one distribution.
pub const MAX_COLLECTED_SERVERS: usize = 60;

/// Actions the groups tab can request.
pub enum GroupsAction {
    OpenCreate,
    OpenEdit(String),
    CloseModal,
    SaveGroup { id: Option<String>, name: String, place_id: u64, member_user_ids: Vec<u64> },
    RequestDelete(String),
    ConfirmDelete(String),
    CancelDelete,
    JoinTogether(String),
    RequestDistribute(String),
    ConfirmDistribute,
    CancelDistribute,
    CloseDistribute,
}

/// Persistent UI state of the groups tab: the create/edit form and the
/// pending delete confirmation.
pub struct GroupsState {
    pub modal_open: bool,
    pub editing_id: Option<String>,
    pub name_input: String,
    pub place_input: String,
    pub selected_accounts: HashSet<u64>,
    pub search: String,
    pub confirm_delete: Option<String>,
}

impl Default for GroupsState {
    fn default() -> (s: GroupsState)
        ensures
            !s.modal_open,
            s.editing_id is None,
            s.name_input@ == Seq::<char>::empty(),
            s.place_input@ == Seq::<char>::empty(),
            s.selected_accounts@ == Set::<u64>::empty(),
            s.search@ == Seq::<char>::empty(),
            s.confirm_delete is None,
    {
        GroupsState {
            modal_open: false,
            editing_id: None,
            name_input: String::new(),
            place_input: String::new(),
            selected_accounts: HashSet::new(),
            search: String::new(),
            confirm_delete: None,
        }
    }
}

/// Where one account of a distribution stands.
#[derive(Debug, Clone, Copy, PartialEq, Eq, Structural)]
pub enum DistAccountState {
    Waiting,
    Found,
    Entering,
    Done,
    NoServer,
    AlreadyRunning,
}

/// One account of a distribution, with the server picked for it.
#[derive(Debug, Clone)]
pub struct DistAccountStatus {
    pub user_id: u64,
    pub job_id: Option<String>,
    pub state: DistAccountState,
}

/// The step a distribution is at.
#[derive(Debug, Clone, Copy, PartialEq, Eq, Structural)]
pub enum DistributePhase {
    Confirm,
    Fetching,
    Launching,
    Done,
}

/// A distribution of a group's accounts across servers, one per server.
pub struct DistributeState {
    pub group_id: String,
    pub place_id: u64,
    pub seq: u64,
    pub phase: DistributePhase,
    pub accounts: Vec<u64>,
    pub statuses: Vec<DistAccountStatus>,
    pub collected: Vec<GameServer>,
    pub next_cursor: Option<String>,
    pub pages: u32,
    pub used_job_ids: HashSet<String>,
    pub error: Option<String>,
    pub launched: usize,
    pub failed: usize,
}

/// The group form can be saved: the Place ID (trimmed) is a number and the
/// name (trimmed) is not empty.
pub open spec fn can_save_group_spec(name_input: Seq<char>, place_input: Seq<char>) -> bool {
    parse_u64_spec(trim_spec(place_input)) is Some && trim_spec(name_input).len() > 0
}

/// Whether the create/edit form may be saved.
pub fn can_save_group(name_input: &str, place_input: &str) -> (b: bool)
    ensures
        b == can_save_group_spec(name_input@, place_input@),
{
    parse_u64(place_input.trim()).is_some() && !name_input.trim().is_empty()
}

/// The label of an account in the member list: a generic one when names are
/// anonymized, else its username, with its alias first when it has one.
pub open spec fn member_label_spec(acc: Account, anonymize: bool) -> Seq<char> {
    if anonymize {
        "Account "@ + decimal_spec(acc.user_id as nat)
    } else if acc.alias@.len() == 0 {
        acc.username@
    } else {
        acc.alias@ + " ("@ + acc.username@ + ")"@
    }
}

/// The label of an account in the member list.
pub fn member_label(acc: &Account, anonymize: bool) -> (s: String)
    ensures
        s@ == member_label_spec(*acc, anonymize),
{
    if anonymize {
        let mut s = String::from_str("Account ");
        push_decimal(&mut s, acc.user_id);
        s
    } else if acc.alias.as_str().is_empty() {
        acc.username.clone()
    } else {
        let mut s = acc.alias.clone();
        s.append(" (");
        s.append(acc.username.as_str());
        s.append(")");
        s
    }
}

/// The label of a distribution row: the member label of the account, or the
/// bare user ID when the account is gone from the store.
pub fn status_label(accounts: &AccountStore, user_id: u64, anonymize: bool) -> (s: String)
    ensures
        !has_user_id(accounts.accounts@, user_id) ==> s@ == decimal_spec(user_id as nat),
        has_user_id(accounts.accounts@, user_id) ==> exists|i: int|
            is_first_with_user_id(accounts.accounts@, user_id, i) && s@ == member_label_spec(
                accounts.accounts@[i],
                anonymize,
            ),
{
    match accounts.find_by_id(user_id) {
        Some(a) => member_label(a, anonymize),
        None => crate::text::u64_to_decimal(user_id),
    }
}

/// How many of a group's members are running.
pub fn running_members(group: &AccountGroup, running: &HashSet<u64>) -> (n: usize)
    ensures
        n == group.member_user_ids@.filter(|id: u64| running@.contains(id)).len(),
{
    let ghost p = |id: u64| running@.contains(id);
    let ids = &group.member_user_ids;
    let m = ids.len();
    let mut n: usize = 0;
    let mut i: usize = 0;
    while i < m
        invariant
            m == ids@.len(),
            i <= m,
            p == (|id: u64| running@.contains(id)),
            n == ids@.take(i as int).filter(p).len(),
            n <= i,
        decreases m - i,
    {
        proof {
            assert(ids@.take(i + 1) =~= ids@.take(i as int).push(ids@[i as int]));
            ids@.take(i as int).lemma_filter_push(ids@[i as int], p);
        }
        if running.contains(&ids[i]) {
            n = n + 1;
        }
        i = i + 1;
    }
    assert(ids@.take(m as int) =~= ids@);
    n
}

/// How a finished distribution went.
#[derive(Debug, Clone, Copy, PartialEq, Eq, Structural)]
pub enum DistributionOutcome {
    /// It stopped on an error.
    Error,
    /// Every account was launched.
    Complete,
    /// Some accounts failed or none was launched.
    Partial,
}

/// The outcome shown when a distribution is done.
pub fn distribution_outcome(dist: &DistributeState) -> (o: DistributionOutcome)
    ensures
        dist.error is Some ==> o == DistributionOutcome::Error,
        dist.error is None && dist.failed == 0 && dist.launched > 0 ==> o == DistributionOutcome::Complete,
        dist.error is None && !(dist.failed == 0 && dist.launched > 0) ==> o == DistributionOutcome::Partial,
{
    if dist.error.is_some() {
        DistributionOutcome::Error
    } else if dist.failed == 0 && dist.launched > 0 {
        DistributionOutcome::Complete
    } else {
        DistributionOutcome::Partial
    }
}

/// The accounts that were neither launched nor failed.
pub fn skipped_accounts(dist: &DistributeState) -> (n: usize)
    requires
        dist.launched + dist.failed <= dist.accounts@.len(),
    ensures
        n == dist.accounts@.len() - dist.launched - dist.failed,
{
    dist.accounts.len() - dist.launched - dist.failed
}


/// The IDs of a set of accounts as a list, each once.
fn ids_of_set(selected: &HashSet<u64>) -> (ids: Vec<u64>)
    ensures
        ids@.to_set() == selected@,
        ids@.no_duplicates(),
{
    broadcast use vstd::seq::Seq::lemma_take_len;
    let mut ids: Vec<u64> = Vec::new();
    for id in it: selected.iter()
        invariant
            ids@ == it.seq().take(it.index()).unref(),
            it.seq().unref().to_set() == selected@,
            it.seq().unref().no_duplicates(),
    {
        ids.push(*id);
        assert(ids@ =~= it.seq().take(it.index() + 1).unref());
    }
    assert(ids@.to_set() == selected@);
    ids
}


/// The group the Save button of the create/edit form requests, when the form
/// can be saved: the edited group's ID (none for a new group), the trimmed
/// name, the Place ID, and the selected accounts, each once.
pub fn save_group_action(state: &GroupsState) -> (action: Option<GroupsAction>)
    ensures
        !can_save_group_spec(state.name_input@, state.place_input@) ==> action is None,
        can_save_group_spec(state.name_input@, state.place_input@) ==> (action matches Some(
            GroupsAction::SaveGroup { id, name, place_id, member_user_ids },
        ) && id == state.editing_id && name@ == trim_spec(state.name_input@) && parse_u64_spec(
            trim_spec(state.place_input@),
        ) == Some(place_id) && member_user_ids@.to_set() == state.selected_accounts@
            && member_user_ids@.no_duplicates()),
{
    let place = parse_u64(state.place_input.as_str().trim());
    let name = state.name_input.as_str().trim();
    match place {
        Some(place_id) => {
            if name.is_empty() {
                return None;
            }
            let id = match &state.editing_id {
                Some(g) => Some(g.clone()),
                None => None,
            };
            let member_user_ids = ids_of_set(&state.selected_accounts);
            Some(GroupsAction::SaveGroup { id, name: String::from_str(name), place_id, member_user_ids })
        },
        None => None,
    }
}

/// An account is listed in the member picker when the search (trimmed) is
/// empty, or when it occurs, ignoring case, in the account's label or in its
/// username.
pub open spec fn member_matches_search_spec(acc: Account, anonymize: bool, search: Seq<char>) -> bool {
    let q = lowercase(trim_spec(search));
    ||| q.len() == 0
    ||| contains_text(lowercase(member_label_spec(acc, anonymize)), q)
    ||| contains_text(lowercase(acc.username@), q)
}

/// Whether the member picker lists the account under the current search.
pub fn member_matches_search(acc: &Account, anonymize: bool, search: &str) -> (b: bool)
    ensures
        b == member_matches_search_spec(*acc, anonymize, search@),
        trim_spec(search@).len() == 0 ==> b,
{
    let q = search.trim().to_lowercase();
    if q.as_str().is_empty() {
        return true;
    }
    let label = member_label(acc, anonymize);
    let label_lower = label.as_str().to_lowercase();
    if contains_str(label_lower.as_str(), q.as_str()) {
        return true;
    }
    let username_lower = acc.username.as_str().to_lowercase();
    contains_str(username_lower.as_str(), q.as_str())
}

/// The picture on a group's card: the freshly downloaded thumbnail of its
/// place when there is one, else the thumbnail stored with the group when it
/// is not empty.
pub fn group_cover(group: &AccountGroup, thumbs: &HashMap<u64, Vec<u8>>) -> (cover: Option<Vec<u8>>)
    ensures
        thumbs@.contains_key(group.place_id) ==> (cover matches Some(b) && b@ == thumbs@[group.place_id]@),
        !thumbs@.contains_key(group.place_id) && group.game_thumb_bytes@.len() == 0 ==> cover is None,
        !thumbs@.contains_key(group.place_id) && group.game_thumb_bytes@.len() > 0 ==> (cover matches Some(b)
            && b@ == group.game_thumb_bytes@),
{
    match thumbs.get(&group.place_id) {
        Some(b) => {
            let c = b.clone();
            assert(c@ =~= b@);
            Some(c)
        },
        None => {
            if group.game_thumb_bytes.len() == 0 {
                None
            } else {
                let c = group.game_thumb_bytes.clone();
                assert(c@ =~= group.game_thumb_bytes@);
                Some(c)
            }
        },
    }
}

/// The game name on a group's card: the name stored with the group, else
/// the resolved name of its place, else nothing.
pub fn group_game_name(group: &AccountGroup, cache: &HashMap<u64, GamePreview>) -> (name: String)
    ensures
        group.game_name@.len() > 0 ==> name@ == group.game_name@,
        group.game_name@.len() == 0 && cache@.contains_key(group.place_id) ==> name@
            == cache@[group.place_id].name@,
        group.game_name@.len() == 0 && !cache@.contains_key(group.place_id) ==> name@
            == Seq::<char>::empty(),
{
    if group.game_name.as_str().is_empty() {
        match cache.get(&group.place_id) {
            Some(p) => p.name.clone(),
            None => String::new(),
        }
    } else {
        group.game_name.clone()
    }
}

/// The text of an account's row in the distribution window.
pub open spec fn dist_state_text_spec(state: DistAccountState, lang: Language) -> Seq<char> {
    match state {
        DistAccountState::Waiting => tr_spec(lang, "Waiting"@),
        DistAccountState::Found => tr_spec(lang, "Server found"@),
        DistAccountState::Entering => tr_spec(lang, "Entering"@),
        DistAccountState::Done => "\u{2713} "@ + tr_spec(lang, "Server found"@),
        DistAccountState::NoServer => tr_spec(lang, "No server found for this account"@),
        DistAccountState::AlreadyRunning => tr_spec(lang, "Already running"@),
    }
}

/// The text of an account's row in the distribution window.
pub fn dist_state_text(state: DistAccountState, lang: Language) -> (s: String)
    ensures
        s@ == dist_state_text_spec(state, lang),
{
    match state {
        DistAccountState::Waiting => String::from_str(tr(lang, "Waiting")),
        DistAccountState::Found => String::from_str(tr(lang, "Server found")),
        DistAccountState::Entering => String::from_str(tr(lang, "Entering")),
        DistAccountState::Done => {
            let mut s = String::from_str("\u{2713} ");
            s.append(tr(lang, "Server found"));
            s
        },
        DistAccountState::NoServer => String::from_str(tr(lang, "No server found for this account")),
        DistAccountState::AlreadyRunning => String::from_str(tr(lang, "Already running")),
    }
}

/// The question of the distribution window's confirmation step.
pub fn distribute_prompt(count: usize, lang: Language) -> (s: String)
    ensures
        s@ == fill_placeholder_spec(tr_spec(lang, "Distribute {} accounts?"@), decimal_spec(count as nat))
            + " "@,
{
    let n = u64_to_decimal(count as u64);
    let mut s = fill_placeholder(tr(lang, "Distribute {} accounts?"), n.as_str());
    s.append(" ");
    s
}

} // verus!
