//! The Servers panel: the order and filter of the server list, the servers
//! where the manager's own accounts are playing, and server labels.

use vstd::prelude::*;
use std::collections::HashMap;
use crate::api::servers::GameServer;
use crate::i18n::{Language, tr, tr_spec};
use crate::models::{Account, AccountStore, account_label_spec};
use crate::text::{decimal_spec, push_decimal, str_eq};

verus! {

broadcast use vstd::std_specs::hash::group_hash_axioms;

/// Sort orders for the server list.
#[derive(Debug, Clone, Copy, PartialEq, Eq, Structural)]
pub enum ServerSort {
    Ping,
    Empty,
    FewestPlayers,
    MostFreeSlots,
}

impl Default for ServerSort {
    fn default() -> (s: ServerSort)
        ensures
            s == ServerSort::Ping,
    {
        ServerSort::Ping
    }
}

/// Actions the servers panel can request from the app.
pub enum ServersAction {
    /// (Re)fetch the first page for `place_id`.
    Refresh(u64),
    /// Fetch the next page for `place_id`.
    LoadMore(u64),
    /// Launch into `place_id` / `job_id`.
    Join { place_id: u64, job_id: String },
    /// Close the panel.
    Close,
}

/// Persistent UI state for the panel (sort, filter).
pub struct ServersState {
    pub sort: ServerSort,
    pub hide_full: bool,
}

impl Default for ServersState {
    fn default() -> (s: ServersState)
        ensures
            s.sort == ServerSort::Ping,
            !s.hide_full,
    {
        ServersState { sort: ServerSort::Ping, hide_full: false }
    }
}

/// A RM account that is currently in the game: label plus its job ID.
#[derive(Debug, Clone)]
pub struct HighlightedAccount {
    pub label: String,
    pub game_id: String,
}

// ---------------------------------------------------------------------------
// Highlighted servers
// ---------------------------------------------------------------------------

/// Where the manager last sent each account: `(place_id, job_id)` by user ID.
pub type LaunchTargets = HashMap<u64, (u64, Option<String>)>;

/// The job the manager sent `acc` to in `place_id`, if it is a known server.
pub open spec fn manager_job(acc: Account, targets: Map<u64, (u64, Option<String>)>, place_id: u64) -> Option<Seq<char>> {
    if targets.contains_key(acc.user_id) {
        let (target_place, job) = targets[acc.user_id];
        if target_place == place_id && job is Some && job->0@.len() > 0 {
            Some(job->0@)
        } else {
            None
        }
    } else {
        None
    }
}

/// The job Roblox reports `acc` playing in `place_id`, if any.
pub open spec fn presence_job(acc: Account, place_id: u64) -> Option<Seq<char>> {
    let p = acc.last_presence;
    if p.user_presence_type == 2 && p.place_id == Some(place_id) && p.game_id is Some
        && p.game_id->0@.len() > 0 {
        Some(p.game_id->0@)
    } else {
        None
    }
}

/// The job Roblox reports `acc` playing in `place_id`, used only when the
/// manager did not itself send the account to a server there.
pub open spec fn fallback_job(acc: Account, targets: Map<u64, (u64, Option<String>)>, place_id: u64) -> Option<Seq<char>> {
    if manager_job(acc, targets, place_id) is Some {
        None
    } else {
        presence_job(acc, place_id)
    }
}

/// The label of account number `i` (from 0) in the featured list.
pub open spec fn highlight_label(acc: Account, i: int, anonymize: bool) -> Seq<char> {
    if anonymize {
        "Account "@ + decimal_spec((i + 1) as nat)
    } else {
        account_label_spec(acc)
    }
}

/// The job IDs of a list of `(label, job_id)` entries.
pub open spec fn job_ids(entries: Seq<(Seq<char>, Seq<char>)>) -> Seq<Seq<char>> {
    entries.map_values(|e: (Seq<char>, Seq<char>)| e.1)
}

/// One pass over the first `n` accounts: each account whose job (as `pick`
/// gives it) is not listed yet adds `(label, job)`.
pub open spec fn highlight_pass(
    accounts: Seq<Account>,
    n: int,
    pick: spec_fn(Account) -> Option<Seq<char>>,
    anonymize: bool,
    init: Seq<(Seq<char>, Seq<char>)>,
) -> Seq<(Seq<char>, Seq<char>)>
    decreases n,
{
    if n <= 0 {
        init
    } else {
        let prev = highlight_pass(accounts, n - 1, pick, anonymize, init);
        match pick(accounts[n - 1]) {
            Some(job) => if job_ids(prev).contains(job) {
                prev
            } else {
                prev.push((highlight_label(accounts[n - 1], n - 1, anonymize), job))
            },
            None => prev,
        }
    }
}

/// The featured servers of `place_id`: first what the manager sent each
/// account to, then, for accounts the manager did not send there, what
/// Roblox reports them playing; each job ID once, the first source winning.
pub open spec fn highlighted_spec(
    accounts: Seq<Account>,
    place_id: u64,
    anonymize: bool,
    targets: Map<u64, (u64, Option<String>)>,
) -> Seq<(Seq<char>, Seq<char>)> {
    let managed = highlight_pass(
        accounts,
        accounts.len() as int,
        |a: Account| manager_job(a, targets, place_id),
        anonymize,
        Seq::empty(),
    );
    highlight_pass(
        accounts,
        accounts.len() as int,
        |a: Account| fallback_job(a, targets, place_id),
        anonymize,
        managed,
    )
}

/// The `(label, game_id)` texts of a list of highlighted accounts.
pub open spec fn highlight_views(h: Seq<HighlightedAccount>) -> Seq<(Seq<char>, Seq<char>)> {
    h.map_values(|x: HighlightedAccount| (x.label@, x.game_id@))
}

fn lists_job(out: &Vec<HighlightedAccount>, job: &str) -> (b: bool)
    ensures
        b == job_ids(highlight_views(out@)).contains(job@),
{
    let n = out.len();
    let mut i: usize = 0;
    while i < n
        invariant
            n == out@.len(),
            i <= n,
            forall|k: int| 0 <= k < i ==> out@[k].game_id@ != job@,
        decreases n - i,
    {
        if str_eq(out[i].game_id.as_str(), job) {
            assert(job_ids(highlight_views(out@))[i as int] == job@);
            return true;
        }
        i = i + 1;
    }
    proof {
        if job_ids(highlight_views(out@)).contains(job@) {
            let k = choose|k: int| 0 <= k < job_ids(highlight_views(out@)).len() && job_ids(highlight_views(out@))[k] == job@;
            assert(out@[k].game_id@ == job@);
        }
    }
    false
}

fn label_for(acc: &Account, i: usize, anonymize: bool) -> (s: String)
    requires
        i < usize::MAX,
    ensures
        s@ == highlight_label(*acc, i as int, anonymize),
{
    if anonymize {
        let mut s = String::from_str("Account ");
        push_decimal(&mut s, (i + 1) as u64);
        s
    } else {
        String::from_str(acc.label())
    }
}

fn manager_job_exec<'a>(acc: &Account, targets: &'a LaunchTargets, place_id: u64) -> (job: Option<&'a String>)
    ensures
        match job {
            Some(j) => manager_job(*acc, targets@, place_id) == Some(j@),
            None => manager_job(*acc, targets@, place_id) is None,
        },
{
    match targets.get(&acc.user_id) {
        Some(t) => {
            if t.0 != place_id {
                return None;
            }
            match &t.1 {
                Some(j) => if j.as_str().is_empty() {
                    None
                } else {
                    Some(j)
                },
                None => None,
            }
        },
        None => None,
    }
}

fn presence_job_exec(acc: &Account, place_id: u64) -> (job: Option<&String>)
    ensures
        match job {
            Some(j) => presence_job(*acc, place_id) == Some(j@),
            None => presence_job(*acc, place_id) is None,
        },
{
    let p = &acc.last_presence;
    if p.user_presence_type != 2 {
        return None;
    }
    match p.place_id {
        Some(pid) => if pid != place_id {
            return None;
        },
        None => {
            return None;
        },
    }
    match &p.game_id {
        Some(g) => if g.as_str().is_empty() {
            None
        } else {
            Some(g)
        },
        None => None,
    }
}

proof fn lemma_views_push(out: Seq<HighlightedAccount>, h: HighlightedAccount)
    ensures
        highlight_views(out.push(h)) == highlight_views(out).push((h.label@, h.game_id@)),
{
    assert(highlight_views(out.push(h)) =~= highlight_views(out).push((h.label@, h.game_id@)));
}

/// Accounts in `store` currently in `place_id`, with their job IDs.
///
/// Two sources, merged without duplicates: the manager's own record of
/// where it sent each account (authoritative for its own launches), then
/// Roblox's reported presence, for accounts the manager did not launch into
/// a server itself. The manager's record wins on ties.
pub fn highlighted_accounts(
    store: &AccountStore,
    place_id: u64,
    anonymize: bool,
    launch_targets: &LaunchTargets,
) -> (res: Vec<HighlightedAccount>)
    ensures
        highlight_views(res@) == highlighted_spec(store.accounts@, place_id, anonymize, launch_targets@),
{
    let ghost accounts = store.accounts@;
    let ghost mpick = |a: Account| manager_job(a, launch_targets@, place_id);
    let ghost ppick = |a: Account| fallback_job(a, launch_targets@, place_id);
    let mut out: Vec<HighlightedAccount> = Vec::new();
    let n = store.accounts.len();
    let mut i: usize = 0;
    while i < n
        invariant
            n == accounts.len(),
            accounts == store.accounts@,
            i <= n,
            mpick == (|a: Account| manager_job(a, launch_targets@, place_id)),
            highlight_views(out@) == highlight_pass(accounts, i as int, mpick, anonymize, Seq::empty()),
        decreases n - i,
    {
        let acc = &store.accounts[i];
        match manager_job_exec(acc, launch_targets, place_id) {
            Some(job) => {
                if !lists_job(&out, job.as_str()) {
                    let label = label_for(acc, i, anonymize);
                    let h = HighlightedAccount { label, game_id: job.clone() };
                    proof {
                        lemma_views_push(out@, h);
                    }
                    out.push(h);
                }
            },
            None => {},
        }
        i = i + 1;
    }
    let ghost managed = highlight_views(out@);
    let mut j: usize = 0;
    while j < n
        invariant
            n == accounts.len(),
            accounts == store.accounts@,
            j <= n,
            ppick == (|a: Account| fallback_job(a, launch_targets@, place_id)),
            managed == highlight_pass(accounts, n as int, mpick, anonymize, Seq::empty()),
            mpick == (|a: Account| manager_job(a, launch_targets@, place_id)),
            highlight_views(out@) == highlight_pass(accounts, j as int, ppick, anonymize, managed),
        decreases n - j,
    {
        let acc = &store.accounts[j];
        let fallback = if manager_job_exec(acc, launch_targets, place_id).is_some() {
            None
        } else {
            presence_job_exec(acc, place_id)
        };
        match fallback {
            Some(job) => {
                if !lists_job(&out, job.as_str()) {
                    let label = label_for(acc, j, anonymize);
                    let h = HighlightedAccount { label, game_id: job.clone() };
                    proof {
                        lemma_views_push(out@, h);
                    }
                    out.push(h);
                }
            },
            None => {},
        }
        j = j + 1;
    }
    out
}

proof fn lemma_pass_distinct(
    accounts: Seq<Account>,
    n: int,
    pick: spec_fn(Account) -> Option<Seq<char>>,
    anonymize: bool,
    init: Seq<(Seq<char>, Seq<char>)>,
)
    requires
        forall|a: int, b: int| 0 <= a < b < init.len() ==> init[a].1 != init[b].1,
    ensures
        ({
            let r = highlight_pass(accounts, n, pick, anonymize, init);
            forall|a: int, b: int| 0 <= a < b < r.len() ==> r[a].1 != r[b].1
        }),
    decreases n,
{
    if n > 0 {
        lemma_pass_distinct(accounts, n - 1, pick, anonymize, init);
        let prev = highlight_pass(accounts, n - 1, pick, anonymize, init);
        match pick(accounts[n - 1]) {
            Some(job) => {
                if !job_ids(prev).contains(job) {
                    let r = prev.push((highlight_label(accounts[n - 1], n - 1, anonymize), job));
                    assert forall|a: int, b: int| 0 <= a < b < r.len() implies r[a].1 != r[b].1 by {
                        if b == r.len() - 1 {
                            assert(job_ids(prev)[a] == prev[a].1);
                        }
                    }
                }
            },
            None => {},
        }
    }
}

/// No server is featured twice.
pub proof fn lemma_highlighted_jobs_distinct(
    accounts: Seq<Account>,
    place_id: u64,
    anonymize: bool,
    targets: Map<u64, (u64, Option<String>)>,
)
    ensures
        ({
            let h = highlighted_spec(accounts, place_id, anonymize, targets);
            forall|a: int, b: int| 0 <= a < b < h.len() ==> h[a].1 != h[b].1
        }),
{
    let mpick = |a: Account| manager_job(a, targets, place_id);
    let ppick = |a: Account| fallback_job(a, targets, place_id);
    lemma_pass_distinct(accounts, accounts.len() as int, mpick, anonymize, Seq::empty());
    let managed = highlight_pass(accounts, accounts.len() as int, mpick, anonymize, Seq::empty());
    lemma_pass_distinct(accounts, accounts.len() as int, ppick, anonymize, managed);
}

proof fn lemma_job_ids_push(e: Seq<(Seq<char>, Seq<char>)>, x: (Seq<char>, Seq<char>))
    ensures
        job_ids(e.push(x)) == job_ids(e).push(x.1),
{
    assert(job_ids(e.push(x)) =~= job_ids(e).push(x.1));
}

/// A pass keeps what it started from, in front.
proof fn lemma_pass_prefix(
    accounts: Seq<Account>,
    n: int,
    pick: spec_fn(Account) -> Option<Seq<char>>,
    anonymize: bool,
    init: Seq<(Seq<char>, Seq<char>)>,
)
    ensures
        ({
            let r = highlight_pass(accounts, n, pick, anonymize, init);
            &&& init.len() <= r.len()
            &&& forall|k: int| 0 <= k < init.len() ==> #[trigger] r[k] == init[k]
        }),
    decreases n,
{
    if n > 0 {
        lemma_pass_prefix(accounts, n - 1, pick, anonymize, init);
    }
}

/// After a pass over the first `n` accounts, every job picked for one of
/// them is listed.
proof fn lemma_pass_covers(
    accounts: Seq<Account>,
    n: int,
    pick: spec_fn(Account) -> Option<Seq<char>>,
    anonymize: bool,
    init: Seq<(Seq<char>, Seq<char>)>,
)
    ensures
        ({
            let r = highlight_pass(accounts, n, pick, anonymize, init);
            forall|i: int|
                0 <= i < n && (#[trigger] pick(accounts[i])) is Some ==> job_ids(r).contains(
                    pick(accounts[i])->0,
                )
        }),
    decreases n,
{
    if n > 0 {
        lemma_pass_covers(accounts, n - 1, pick, anonymize, init);
        let prev = highlight_pass(accounts, n - 1, pick, anonymize, init);
        let r = highlight_pass(accounts, n, pick, anonymize, init);
        match pick(accounts[n - 1]) {
            Some(job) => {
                if !job_ids(prev).contains(job) {
                    let x = (highlight_label(accounts[n - 1], n - 1, anonymize), job);
                    lemma_job_ids_push(prev, x);
                    assert(job_ids(r)[prev.len() as int] == job);
                    assert forall|i: int|
                        0 <= i < n && (#[trigger] pick(accounts[i])) is Some implies job_ids(r).contains(
                        pick(accounts[i])->0,
                    ) by {
                        if i < n - 1 {
                            let j = pick(accounts[i])->0;
                            let k = choose|k: int| 0 <= k < job_ids(prev).len() && job_ids(prev)[k] == j;
                            assert(job_ids(r)[k] == j);
                        }
                    }
                }
            },
            None => {},
        }
    }
}

/// Every entry a pass adds was picked for one of the accounts it went over,
/// carries that account's label, and names a job its starting list did not.
proof fn lemma_pass_sources(
    accounts: Seq<Account>,
    n: int,
    pick: spec_fn(Account) -> Option<Seq<char>>,
    anonymize: bool,
    init: Seq<(Seq<char>, Seq<char>)>,
)
    requires
        n <= accounts.len(),
    ensures
        ({
            let r = highlight_pass(accounts, n, pick, anonymize, init);
            forall|k: int|
                init.len() <= k < r.len() ==> !job_ids(init).contains(#[trigger] r[k].1) && exists|i: int|
                    0 <= i < n && pick(accounts[i]) == Some(r[k].1) && r[k].0 == highlight_label(
                        accounts[i],
                        i,
                        anonymize,
                    )
        }),
    decreases n,
{
    if n > 0 {
        lemma_pass_sources(accounts, n - 1, pick, anonymize, init);
        lemma_pass_prefix(accounts, n - 1, pick, anonymize, init);
        let prev = highlight_pass(accounts, n - 1, pick, anonymize, init);
        let r = highlight_pass(accounts, n, pick, anonymize, init);
        match pick(accounts[n - 1]) {
            Some(job) => {
                if !job_ids(prev).contains(job) {
                    assert(!job_ids(init).contains(job)) by {
                        if job_ids(init).contains(job) {
                            let k = choose|k: int| 0 <= k < job_ids(init).len() && job_ids(init)[k] == job;
                            assert(prev[k] == init[k]);
                            assert(job_ids(prev)[k] == job);
                        }
                    }
                    assert forall|k: int| init.len() <= k < r.len() implies !job_ids(init).contains(
                        #[trigger] r[k].1,
                    ) && exists|i: int|
                        0 <= i < n && pick(accounts[i]) == Some(r[k].1) && r[k].0 == highlight_label(
                            accounts[i],
                            i,
                            anonymize,
                        ) by {
                        if k == prev.len() {
                            assert(pick(accounts[n - 1]) == Some(r[k].1));
                        } else {
                            assert(r[k] == prev[k]);
                        }
                    }
                }
            },
            None => {},
        }
    }
}

/// Every server the manager sent an account to in `place_id` is featured,
/// and so is every server Roblox reports an account playing there when the
/// manager did not send that account to a server there itself.
pub proof fn lemma_highlighted_covers_both_sources(
    accounts: Seq<Account>,
    place_id: u64,
    anonymize: bool,
    targets: Map<u64, (u64, Option<String>)>,
)
    ensures
        ({
            let jobs = job_ids(highlighted_spec(accounts, place_id, anonymize, targets));
            forall|i: int|
                0 <= i < accounts.len() ==> (#[trigger] manager_job(accounts[i], targets, place_id)
                    matches Some(j) ==> jobs.contains(j)) && (manager_job(accounts[i], targets, place_id) is None
                    ==> (presence_job(accounts[i], place_id) matches Some(j) ==> jobs.contains(j)))
        }),
{
    let mpick = |a: Account| manager_job(a, targets, place_id);
    let ppick = |a: Account| fallback_job(a, targets, place_id);
    let n = accounts.len() as int;
    let managed = highlight_pass(accounts, n, mpick, anonymize, Seq::empty());
    let h = highlight_pass(accounts, n, ppick, anonymize, managed);
    lemma_pass_covers(accounts, n, mpick, anonymize, Seq::empty());
    lemma_pass_covers(accounts, n, ppick, anonymize, managed);
    lemma_pass_prefix(accounts, n, ppick, anonymize, managed);
    assert forall|i: int| 0 <= i < accounts.len() implies (#[trigger] manager_job(accounts[i], targets, place_id)
        matches Some(j) ==> job_ids(h).contains(j)) && (manager_job(accounts[i], targets, place_id) is None
        ==> (presence_job(accounts[i], place_id) matches Some(j) ==> job_ids(h).contains(j))) by {
        if let Some(j) = manager_job(accounts[i], targets, place_id) {
            assert(mpick(accounts[i]) == Some(j));
            let k = choose|k: int| 0 <= k < job_ids(managed).len() && job_ids(managed)[k] == j;
            assert(h[k] == managed[k]);
            assert(job_ids(h)[k] == j);
        } else if let Some(j) = presence_job(accounts[i], place_id) {
            assert(ppick(accounts[i]) == Some(j));
        }
    }
}

/// Presence is only a fallback: every featured server is one the manager
/// sent an account to, or one Roblox reports an account playing on that the
/// manager did not send to a server there; it carries that account's label.
pub proof fn lemma_presence_only_as_fallback(
    accounts: Seq<Account>,
    place_id: u64,
    anonymize: bool,
    targets: Map<u64, (u64, Option<String>)>,
)
    ensures
        ({
            let h = highlighted_spec(accounts, place_id, anonymize, targets);
            forall|k: int|
                0 <= k < h.len() ==> exists|m: int|
                    0 <= m < accounts.len() && (manager_job(accounts[m], targets, place_id) == Some(
                        #[trigger] h[k].1,
                    ) || (manager_job(accounts[m], targets, place_id) is None && presence_job(
                        accounts[m],
                        place_id,
                    ) == Some(h[k].1))) && h[k].0 == highlight_label(accounts[m], m, anonymize)
        }),
{
    let mpick = |a: Account| manager_job(a, targets, place_id);
    let ppick = |a: Account| fallback_job(a, targets, place_id);
    let n = accounts.len() as int;
    let managed = highlight_pass(accounts, n, mpick, anonymize, Seq::empty());
    let h = highlight_pass(accounts, n, ppick, anonymize, managed);
    lemma_pass_sources(accounts, n, mpick, anonymize, Seq::empty());
    lemma_pass_sources(accounts, n, ppick, anonymize, managed);
    lemma_pass_prefix(accounts, n, ppick, anonymize, managed);
    assert forall|k: int| 0 <= k < h.len() implies exists|m: int|
        0 <= m < accounts.len() && (manager_job(accounts[m], targets, place_id) == Some(#[trigger] h[k].1) || (
        manager_job(accounts[m], targets, place_id) is None && presence_job(accounts[m], place_id) == Some(
            h[k].1,
        ))) && h[k].0 == highlight_label(accounts[m], m, anonymize) by {
        if k < managed.len() {
            assert(h[k] == managed[k]);
            let m = choose|m: int|
                0 <= m < n && mpick(accounts[m]) == Some(managed[k].1) && managed[k].0 == highlight_label(
                    accounts[m],
                    m,
                    anonymize,
                );
            assert(manager_job(accounts[m], targets, place_id) == Some(h[k].1));
        } else {
            let m = choose|m: int|
                0 <= m < n && ppick(accounts[m]) == Some(h[k].1) && h[k].0 == highlight_label(
                    accounts[m],
                    m,
                    anonymize,
                );
            assert(fallback_job(accounts[m], targets, place_id) == Some(h[k].1));
        }
    }
}

/// The manager's record wins on ties: a featured server that the manager
/// sent an account to is labelled as one of the accounts it sent there, even
/// when other accounts report playing on it.
pub proof fn lemma_manager_record_wins(
    accounts: Seq<Account>,
    place_id: u64,
    anonymize: bool,
    targets: Map<u64, (u64, Option<String>)>,
)
    ensures
        ({
            let h = highlighted_spec(accounts, place_id, anonymize, targets);
            forall|k: int|
                0 <= k < h.len() && (exists|i: int|
                    0 <= i < accounts.len() && manager_job(accounts[i], targets, place_id) == Some(
                        #[trigger] h[k].1,
                    )) ==> exists|m: int|
                    0 <= m < accounts.len() && manager_job(accounts[m], targets, place_id) == Some(h[k].1)
                        && h[k].0 == highlight_label(accounts[m], m, anonymize)
        }),
{
    let mpick = |a: Account| manager_job(a, targets, place_id);
    let ppick = |a: Account| fallback_job(a, targets, place_id);
    let n = accounts.len() as int;
    let managed = highlight_pass(accounts, n, mpick, anonymize, Seq::empty());
    let h = highlight_pass(accounts, n, ppick, anonymize, managed);
    lemma_pass_covers(accounts, n, mpick, anonymize, Seq::empty());
    lemma_pass_sources(accounts, n, mpick, anonymize, Seq::empty());
    lemma_pass_sources(accounts, n, ppick, anonymize, managed);
    lemma_pass_prefix(accounts, n, ppick, anonymize, managed);
    assert forall|k: int|
        0 <= k < h.len() && (exists|i: int|
            0 <= i < accounts.len() && manager_job(accounts[i], targets, place_id) == Some(
                #[trigger] h[k].1,
            )) implies exists|m: int|
        0 <= m < accounts.len() && manager_job(accounts[m], targets, place_id) == Some(h[k].1) && h[k].0
            == highlight_label(accounts[m], m, anonymize) by {
        let i = choose|i: int|
            0 <= i < accounts.len() && manager_job(accounts[i], targets, place_id) == Some(h[k].1);
        assert(mpick(accounts[i]) == Some(h[k].1));
        assert(job_ids(managed).contains(h[k].1));
        if k >= managed.len() {
            assert(!job_ids(managed).contains(h[k].1));
        }
        assert(h[k] == managed[k]);
    }
}

// ---------------------------------------------------------------------------
// Order and filter
// ---------------------------------------------------------------------------

/// Free slots of a server, never negative.
pub open spec fn free_key_spec(s: GameServer) -> u32 {
    if s.playing >= s.max_players {
        0
    } else {
        (s.max_players - s.playing) as u32
    }
}

fn free_key(s: &GameServer) -> (k: u32)
    ensures
        k == free_key_spec(*s),
{
    s.max_players.saturating_sub(s.playing)
}

/// A sort key: four numbers compared in order.
pub type ServerKey = (u32, u32, u32, u32);

/// The sort key of a server under a sort order. A missing ping sorts last by
/// ping and counts as 0 where ping only breaks ties.
pub open spec fn server_key(s: GameServer, sort: ServerSort) -> ServerKey {
    match sort {
        ServerSort::Ping => (
            match s.ping {
                Some(p) => p,
                None => u32::MAX,
            },
            s.playing,
            s.max_players,
            free_key_spec(s),
        ),
        ServerSort::Empty => (s.playing, s.max_players, free_key_spec(s), match s.ping {
            Some(p) => p,
            None => 0,
        }),
        ServerSort::FewestPlayers => (s.playing, s.max_players, free_key_spec(s), match s.ping {
            Some(p) => p,
            None => 0,
        }),
        ServerSort::MostFreeSlots => ((u32::MAX - free_key_spec(s)) as u32, s.playing, s.max_players, match s.ping {
            Some(p) => p,
            None => 0,
        }),
    }
}

/// Lexicographic order of sort keys.
pub open spec fn key_le(a: ServerKey, b: ServerKey) -> bool {
    ||| a.0 < b.0
    ||| a.0 == b.0 && a.1 < b.1
    ||| a.0 == b.0 && a.1 == b.1 && a.2 < b.2
    ||| a.0 == b.0 && a.1 == b.1 && a.2 == b.2 && a.3 <= b.3
}

fn server_key_exec(s: &GameServer, sort: ServerSort) -> (k: ServerKey)
    ensures
        k == server_key(*s, sort),
{
    let ping_or_max: u32 = match s.ping {
        Some(p) => p,
        None => u32::MAX,
    };
    let ping_or_zero: u32 = match s.ping {
        Some(p) => p,
        None => 0,
    };
    match sort {
        ServerSort::Ping => (ping_or_max, s.playing, s.max_players, free_key(s)),
        ServerSort::Empty => (s.playing, s.max_players, free_key(s), ping_or_zero),
        ServerSort::FewestPlayers => (s.playing, s.max_players, free_key(s), ping_or_zero),
        ServerSort::MostFreeSlots => (u32::MAX - free_key(s), s.playing, s.max_players, ping_or_zero),
    }
}

fn key_le_exec(a: ServerKey, b: ServerKey) -> (r: bool)
    ensures
        r == key_le(a, b),
{
    a.0 < b.0 || (a.0 == b.0 && a.1 < b.1) || (a.0 == b.0 && a.1 == b.1 && a.2 < b.2) || (a.0 == b.0
        && a.1 == b.1 && a.2 == b.2 && a.3 <= b.3)
}

/// The position at which a stable insertion puts a server with key `k` into
/// `sorted`: after every server whose key is at most `k`.
pub open spec fn insertion_point(sorted: Seq<GameServer>, k: ServerKey, sort: ServerSort) -> int
    decreases sorted.len(),
{
    if sorted.len() == 0 {
        0
    } else if !key_le(server_key(sorted[0], sort), k) {
        0
    } else {
        1 + insertion_point(sorted.drop_first(), k, sort)
    }
}

/// The servers in stable order of their keys: what a stable sort by key
/// (`sort_by_key`) gives.
pub open spec fn sorted_servers(servers: Seq<GameServer>, sort: ServerSort) -> Seq<GameServer>
    decreases servers.len(),
{
    if servers.len() == 0 {
        Seq::empty()
    } else {
        let prefix = sorted_servers(servers.drop_last(), sort);
        let x = servers.last();
        prefix.insert(insertion_point(prefix, server_key(x, sort), sort), x)
    }
}

proof fn lemma_insertion_point_bounds(sorted: Seq<GameServer>, k: ServerKey, sort: ServerSort)
    ensures
        0 <= insertion_point(sorted, k, sort) <= sorted.len(),
    decreases sorted.len(),
{
    if sorted.len() > 0 {
        lemma_insertion_point_bounds(sorted.drop_first(), k, sort);
    }
}

proof fn lemma_insertion_point_scan(sorted: Seq<GameServer>, k: ServerKey, sort: ServerSort, i: int)
    requires
        0 <= i <= sorted.len(),
        forall|j: int| 0 <= j < i ==> key_le(server_key(#[trigger] sorted[j], sort), k),
    ensures
        insertion_point(sorted, k, sort) == i + insertion_point(sorted.skip(i), k, sort),
    decreases i,
{
    if i > 0 {
        assert(key_le(server_key(sorted[0], sort), k));
        assert forall|j: int| 0 <= j < i - 1 implies key_le(server_key(#[trigger] sorted.drop_first()[j], sort), k) by {
            assert(sorted.drop_first()[j] == sorted[j + 1]);
        }
        lemma_insertion_point_scan(sorted.drop_first(), k, sort, i - 1);
        assert(sorted.drop_first().skip(i - 1) =~= sorted.skip(i));
    } else {
        assert(sorted.skip(0) =~= sorted);
    }
}

fn insert_stable<'a>(sorted: &mut Vec<&'a GameServer>, x: &'a GameServer, sort: ServerSort)
    ensures
        ({
            let before = old(sorted)@.map_values(|r: &GameServer| *r);
            final(sorted)@.map_values(|r: &GameServer| *r) == before.insert(
                insertion_point(before, server_key(*x, sort), sort),
                *x,
            )
        }),
{
    let ghost before = sorted@.map_values(|r: &GameServer| *r);
    let k = server_key_exec(x, sort);
    let n = sorted.len();
    let mut i: usize = 0;
    while i < n && key_le_exec(server_key_exec(sorted[i], sort), k)
        invariant
            n == sorted@.len(),
            before == sorted@.map_values(|r: &GameServer| *r),
            i <= n,
            forall|j: int| 0 <= j < i ==> key_le(server_key(#[trigger] before[j], sort), k),
        decreases n - i,
    {
        i = i + 1;
    }
    proof {
        lemma_insertion_point_scan(before, k, sort, i as int);
        if i < n {
            assert(before.skip(i as int)[0] == before[i as int]);
        } else {
            assert(before.skip(i as int).len() == 0);
        }
        assert(insertion_point(before, k, sort) == i);
    }
    sorted.insert(i, x);
    proof {
        assert(sorted@.map_values(|r: &GameServer| *r) =~= before.insert(i as int, *x));
    }
}

/// Apply the current sort to `servers`: a stable sort by the sort key.
pub fn sort_servers<'a>(servers: &mut Vec<&'a GameServer>, sort: ServerSort)
    ensures
        final(servers)@.map_values(|r: &GameServer| *r) == sorted_servers(
            old(servers)@.map_values(|r: &GameServer| *r),
            sort,
        ),
{
    let ghost input = servers@.map_values(|r: &GameServer| *r);
    let mut rest: Vec<&'a GameServer> = Vec::new();
    std::mem::swap(&mut rest, servers);
    let n = rest.len();
    let mut i: usize = 0;
    while i < n
        invariant
            n == rest@.len(),
            input == rest@.map_values(|r: &GameServer| *r),
            i <= n,
            servers@.map_values(|r: &GameServer| *r) == sorted_servers(input.take(i as int), sort),
        decreases n - i,
    {
        let x = rest[i];
        proof {
            let t = input.take(i + 1);
            assert(t.drop_last() =~= input.take(i as int));
            assert(t.last() == *x);
        }
        insert_stable(servers, x, sort);
        i = i + 1;
    }
    assert(input.take(n as int) =~= input);
}

/// `s` is sorted by key.
pub open spec fn is_sorted_by_key(s: Seq<GameServer>, sort: ServerSort) -> bool {
    forall|a: int, b: int| 0 <= a < b < s.len() ==> key_le(server_key(s[a], sort), server_key(s[b], sort))
}

proof fn lemma_key_le_total(a: ServerKey, b: ServerKey)
    ensures
        key_le(a, b) || key_le(b, a),
{
}

proof fn lemma_key_le_trans(a: ServerKey, b: ServerKey, c: ServerKey)
    requires
        key_le(a, b),
        key_le(b, c),
    ensures
        key_le(a, c),
{
}

proof fn lemma_insert_keeps_sorted(sorted: Seq<GameServer>, x: GameServer, sort: ServerSort)
    requires
        is_sorted_by_key(sorted, sort),
    ensures
        is_sorted_by_key(sorted.insert(insertion_point(sorted, server_key(x, sort), sort), x), sort),
    decreases sorted.len(),
{
    let k = server_key(x, sort);
    let p = insertion_point(sorted, k, sort);
    lemma_insertion_point_bounds(sorted, k, sort);
    let r = sorted.insert(p, x);
    if sorted.len() == 0 {
        return;
    }
    if !key_le(server_key(sorted[0], sort), k) {
        // x goes first: it is below sorted[0], hence below everything.
        lemma_key_le_total(server_key(sorted[0], sort), k);
        assert forall|a: int, b: int| 0 <= a < b < r.len() implies key_le(server_key(r[a], sort), server_key(r[b], sort)) by {
            if a == 0 {
                if b > 1 {
                    lemma_key_le_trans(k, server_key(sorted[0], sort), server_key(sorted[b - 1], sort));
                }
            }
        }
    } else {
        let tail = sorted.drop_first();
        assert forall|a: int, b: int| 0 <= a < b < tail.len() implies key_le(server_key(tail[a], sort), server_key(tail[b], sort)) by {
            assert(tail[a] == sorted[a + 1]);
            assert(tail[b] == sorted[b + 1]);
        }
        lemma_insert_keeps_sorted(tail, x, sort);
        let pt = insertion_point(tail, k, sort);
        assert(p == 1 + pt);
        lemma_insertion_point_bounds(tail, k, sort);
        let rt = tail.insert(pt, x);
        assert(r.len() == rt.len() + 1);
        assert forall|j: int| 0 <= j < r.len() implies r[j] == (seq![sorted[0]] + rt)[j] by {
            if j == 0 {
            } else if j - 1 < pt {
                assert(rt[j - 1] == tail[j - 1]);
            } else if j - 1 == pt {
            } else {
                assert(rt[j - 1] == tail[j - 2]);
            }
        }
        assert(r =~= seq![sorted[0]] + rt);
        assert forall|a: int, b: int| 0 <= a < b < r.len() implies key_le(server_key(r[a], sort), server_key(r[b], sort)) by {
            if a == 0 {
                assert(r[0] == sorted[0]);
                if b - 1 < pt {
                    assert(r[b] == sorted[b]);
                } else if b - 1 == pt {
                    assert(r[b] == x);
                } else {
                    assert(r[b] == sorted[b - 1]);
                }
            } else {
                assert(r[a] == rt[a - 1]);
                assert(r[b] == rt[b - 1]);
            }
        }
    }
}

/// The sorted list is ordered by key.
pub proof fn lemma_sorted_servers_ordered(servers: Seq<GameServer>, sort: ServerSort)
    ensures
        is_sorted_by_key(sorted_servers(servers, sort), sort),
    decreases servers.len(),
{
    if servers.len() > 0 {
        lemma_sorted_servers_ordered(servers.drop_last(), sort);
        lemma_insert_keeps_sorted(sorted_servers(servers.drop_last(), sort), servers.last(), sort);
    }
}

/// The sorted list is a reordering of the servers.
pub proof fn lemma_sorted_servers_permutation(servers: Seq<GameServer>, sort: ServerSort)
    ensures
        sorted_servers(servers, sort).to_multiset() == servers.to_multiset(),
    decreases servers.len(),
{
    broadcast use vstd::seq_lib::group_seq_properties;
    broadcast use vstd::multiset::group_multiset_axioms;

    if servers.len() > 0 {
        let prefix = sorted_servers(servers.drop_last(), sort);
        let x = servers.last();
        lemma_sorted_servers_permutation(servers.drop_last(), sort);
        let p = insertion_point(prefix, server_key(x, sort), sort);
        lemma_insertion_point_bounds(prefix, server_key(x, sort), sort);
        vstd::seq_lib::to_multiset_insert(prefix, p, x);
        assert(servers.drop_last().push(x) =~= servers);
    } else {
        assert(sorted_servers(servers, sort) =~= servers);
    }
}

proof fn lemma_insertion_point_stop(sorted: Seq<GameServer>, k: ServerKey, sort: ServerSort)
    ensures
        insertion_point(sorted, k, sort) < sorted.len() ==> !key_le(
            server_key(sorted[insertion_point(sorted, k, sort)], sort),
            k,
        ),
    decreases sorted.len(),
{
    if sorted.len() > 0 && key_le(server_key(sorted[0], sort), k) {
        let rest = sorted.drop_first();
        lemma_insertion_point_stop(rest, k, sort);
        lemma_insertion_point_bounds(rest, k, sort);
        let q = insertion_point(rest, k, sort);
        if q < rest.len() {
            assert(rest[q] == sorted[q + 1]);
        }
    }
}

proof fn lemma_filter_none<A>(s: Seq<A>, pred: spec_fn(A) -> bool)
    requires
        forall|i: int| 0 <= i < s.len() ==> !pred(#[trigger] s[i]),
    ensures
        s.filter(pred) == Seq::<A>::empty(),
{
    s.filter_lemma(pred);
    if s.filter(pred).len() > 0 {
        let e = s.filter(pred)[0];
        assert(pred(e));
        assert(s.filter(pred).contains(e));
        s.lemma_filter_contains_rev(pred, e);
        let i = choose|i: int| 0 <= i < s.len() && s[i] == e;
        assert(!pred(s[i]));
    }
    assert(s.filter(pred) =~= Seq::<A>::empty());
}

/// The sort is stable: the servers that share a sort key come out in the
/// order the pages listed them.
pub proof fn lemma_sorted_servers_stable(servers: Seq<GameServer>, sort: ServerSort, k: ServerKey)
    ensures
        sorted_servers(servers, sort).filter(|s: GameServer| server_key(s, sort) == k) == servers.filter(
            |s: GameServer| server_key(s, sort) == k,
        ),
    decreases servers.len(),
{
    let f = |s: GameServer| server_key(s, sort) == k;
    if servers.len() == 0 {
        assert(sorted_servers(servers, sort) =~= servers);
    } else {
        let rest = servers.drop_last();
        let x = servers.last();
        lemma_sorted_servers_stable(rest, sort, k);
        let prefix = sorted_servers(rest, sort);
        let kx = server_key(x, sort);
        let p = insertion_point(prefix, kx, sort);
        lemma_insertion_point_bounds(prefix, kx, sort);
        lemma_insertion_point_stop(prefix, kx, sort);
        lemma_sorted_servers_ordered(rest, sort);
        assert(rest.push(x) =~= servers);
        rest.lemma_filter_push(x, f);
        let a = prefix.take(p);
        let b = prefix.skip(p);
        let one = seq![x];
        assert(prefix.insert(p, x) =~= (a + one) + b);
        assert(prefix =~= a + b);
        Seq::filter_distributes_over_add(a + one, b, f);
        Seq::filter_distributes_over_add(a, one, f);
        Seq::filter_distributes_over_add(a, b, f);
        assert(Seq::<GameServer>::empty().push(x) =~= one);
        Seq::<GameServer>::empty().lemma_filter_push(x, f);
        assert(Seq::<GameServer>::empty().filter(f) =~= Seq::<GameServer>::empty()) by {
            lemma_filter_none(Seq::<GameServer>::empty(), f);
        }
        if f(x) {
            assert forall|j: int| 0 <= j < b.len() implies !f(#[trigger] b[j]) by {
                assert(b[j] == prefix[p + j]);
                if j > 0 {
                    assert(key_le(server_key(prefix[p], sort), server_key(prefix[p + j], sort)));
                }
            }
            lemma_filter_none(b, f);
            assert(sorted_servers(servers, sort).filter(f) =~= a.filter(f).push(x));
            assert(prefix.filter(f) =~= a.filter(f));
        } else {
            assert(sorted_servers(servers, sort).filter(f) =~= a.filter(f) + b.filter(f));
        }
    }
}

/// The servers listed below the featured ones, before sorting: full servers
/// dropped when `hide_full` is set, and featured servers never repeated.
pub open spec fn listed_servers(servers: Seq<GameServer>, hide_full: bool, featured: Seq<Seq<char>>) -> Seq<GameServer> {
    servers.filter(|s: GameServer| !(hide_full && s.playing >= s.max_players) && !featured.contains(s.id@))
}

fn is_featured(featured: &[HighlightedAccount], id: &str) -> (b: bool)
    ensures
        b == job_ids(highlight_views(featured@)).contains(id@),
{
    let n = featured.len();
    let mut i: usize = 0;
    while i < n
        invariant
            n == featured@.len(),
            i <= n,
            forall|k: int| 0 <= k < i ==> featured@[k].game_id@ != id@,
        decreases n - i,
    {
        if str_eq(featured[i].game_id.as_str(), id) {
            assert(job_ids(highlight_views(featured@))[i as int] == id@);
            return true;
        }
        i = i + 1;
    }
    proof {
        if job_ids(highlight_views(featured@)).contains(id@) {
            let k = choose|k: int| 0 <= k < job_ids(highlight_views(featured@)).len() && job_ids(highlight_views(featured@))[k] == id@;
            assert(featured@[k].game_id@ == id@);
        }
    }
    false
}

/// The server list in display order: filtered as the panel state says, then
/// sorted by its sort order.
pub fn visible_servers<'a>(servers: &'a [GameServer], state: &ServersState, featured: &[HighlightedAccount]) -> (res: Vec<&'a GameServer>)
    ensures
        res@.map_values(|r: &GameServer| *r) == sorted_servers(
            listed_servers(servers@, state.hide_full, job_ids(highlight_views(featured@))),
            state.sort,
        ),
{
    let ghost featured_jobs = job_ids(highlight_views(featured@));
    let ghost keep = |s: GameServer| !(state.hide_full && s.playing >= s.max_players) && !featured_jobs.contains(s.id@);
    let mut visible: Vec<&'a GameServer> = Vec::new();
    let n = servers.len();
    let mut i: usize = 0;
    while i < n
        invariant
            n == servers@.len(),
            i <= n,
            keep == (|s: GameServer| !(state.hide_full && s.playing >= s.max_players) && !featured_jobs.contains(s.id@)),
            featured_jobs == job_ids(highlight_views(featured@)),
            visible@.map_values(|r: &GameServer| *r) == servers@.take(i as int).filter(keep),
        decreases n - i,
    {
        let s = &servers[i];
        proof {
            assert(servers@.take(i + 1) =~= servers@.take(i as int).push(servers@[i as int]));
            servers@.take(i as int).lemma_filter_push(servers@[i as int], keep);
        }
        let ghost before = visible@;
        if !(state.hide_full && s.is_full()) && !is_featured(featured, s.id.as_str()) {
            visible.push(s);
            assert(visible@.map_values(|r: &GameServer| *r) =~= before.map_values(|r: &GameServer| *r).push(*s));
        }
        i = i + 1;
    }
    assert(servers@.take(n as int) =~= servers@);
    sort_servers(&mut visible, state.sort);
    visible
}

/// The message key of a sort order's label.
pub open spec fn server_sort_key_spec(sort: ServerSort) -> Seq<char> {
    match sort {
        ServerSort::Ping => "Lowest ping"@,
        ServerSort::Empty => "Emptiest"@,
        ServerSort::FewestPlayers => "Fewest players"@,
        ServerSort::MostFreeSlots => "Most free slots"@,
    }
}

/// The label of a sort order, translated.
pub fn sort_label(sort: ServerSort, lang: Language) -> (s: String)
    ensures
        s@ == tr_spec(lang, server_sort_key_spec(sort)),
{
    let key = match sort {
        ServerSort::Ping => "Lowest ping",
        ServerSort::Empty => "Emptiest",
        ServerSort::FewestPlayers => "Fewest players",
        ServerSort::MostFreeSlots => "Most free slots",
    };
    String::from_str(tr(lang, key))
}

/// The characters of a job ID other than hyphens.
pub open spec fn without_hyphens(id: Seq<char>) -> Seq<char> {
    id.filter(|c: char| c != '-')
}

/// Short display form of a server job ID: `#` and its first 8 characters
/// other than hyphens.
pub open spec fn short_server_id_spec(id: Seq<char>) -> Seq<char> {
    seq!['#'] + if without_hyphens(id).len() <= 8 {
        without_hyphens(id)
    } else {
        without_hyphens(id).take(8)
    }
}

/// Short display form of a server job ID: `#f0c04106` (first 8 chars).
pub fn short_server_id(id: &str) -> (s: String)
    ensures
        s@ == short_server_id_spec(id@),
{
    let ghost keep = |c: char| c != '-';
    let mut s = String::new();
    s.push('#');
    let n = id.unicode_len();
    let mut i: usize = 0;
    let mut taken: usize = 0;
    while i < n && taken < 8
        invariant
            n == id@.len(),
            i <= n,
            keep == (|c: char| c != '-'),
            taken == id@.take(i as int).filter(keep).len(),
            taken <= 8,
            s@ == seq!['#'] + id@.take(i as int).filter(keep),
        decreases n - i,
    {
        let c = id.get_char(i);
        proof {
            assert(id@.take(i + 1) =~= id@.take(i as int).push(c));
            id@.take(i as int).lemma_filter_push(c, keep);
        }
        if c != '-' {
            s.push(c);
            taken = taken + 1;
        }
        i = i + 1;
        assert(s@ =~= seq!['#'] + id@.take(i as int).filter(keep));
    }
    proof {
        let done = id@.take(i as int);
        assert(id@ =~= done + id@.skip(i as int));
        Seq::filter_distributes_over_add(done, id@.skip(i as int), keep);
        if taken < 8 {
            assert(i == n);
            assert(id@.skip(i as int) =~= Seq::<char>::empty());
            reveal_with_fuel(Seq::<_>::filter, 1);
            assert(id@.skip(i as int).filter(keep) =~= Seq::<char>::empty());
            assert(without_hyphens(id@) =~= done.filter(keep));
        } else {
            assert(without_hyphens(id@).take(8) =~= done.filter(keep));
        }
    }
    s
}


/// What the servers panel shows below its controls.
#[derive(Debug, Clone, Copy, PartialEq, Eq, Structural)]
pub enum ServersView {
    /// No Place ID is selected.
    NoGame,
    /// The first page is being fetched.
    Loading,
    /// The last fetch failed.
    Error,
    /// The game has no public server.
    Empty,
    /// The server list.
    List,
}

/// What the servers panel shows: nothing without a game; a loading message
/// while the first page is fetched; then a fetch error; then an empty
/// message or the list.
pub fn servers_view(place_id: Option<u64>, loading: bool, has_error: bool, server_count: usize) -> (v: ServersView)
    ensures
        v == (if place_id is None {
            ServersView::NoGame
        } else if loading && server_count == 0 {
            ServersView::Loading
        } else if has_error {
            ServersView::Error
        } else if server_count == 0 {
            ServersView::Empty
        } else {
            ServersView::List
        }),
{
    if place_id.is_none() {
        ServersView::NoGame
    } else if loading && server_count == 0 {
        ServersView::Loading
    } else if has_error {
        ServersView::Error
    } else if server_count == 0 {
        ServersView::Empty
    } else {
        ServersView::List
    }
}

} // verus!
