//! The statistics dashboard: account status counted from the Roblox clients
//! actually running on this machine, not from the server-side presence API.

use vstd::prelude::*;
use std::collections::HashSet;
use crate::models::{Account, AccountStore};
use crate::text::str_eq;

verus! {

broadcast use vstd::std_specs::hash::group_hash_axioms;

/// Which accounts are actually running Roblox right now, from the user IDs
/// of the tracked client instances.
pub fn active_user_ids(instance_user_ids: &[u64]) -> (active: HashSet<u64>)
    ensures
        active@ == instance_user_ids@.to_set(),
{
    let mut active: HashSet<u64> = HashSet::new();
    let n = instance_user_ids.len();
    let mut i: usize = 0;
    while i < n
        invariant
            n == instance_user_ids@.len(),
            i <= n,
            active@ == instance_user_ids@.take(i as int).to_set(),
        decreases n - i,
    {
        active.insert(instance_user_ids[i]);
        proof {
            assert(instance_user_ids@.take(i + 1) =~= instance_user_ids@.take(i as int).push(instance_user_ids@[i as int]));
            assert(instance_user_ids@.take(i + 1).to_set() =~= instance_user_ids@.take(i as int).to_set().insert(instance_user_ids@[i as int])) by {
                broadcast use vstd::seq_lib::group_seq_properties;
            }
        }
        i = i + 1;
    }
    assert(instance_user_ids@.take(n as int) =~= instance_user_ids@);
    active
}

/// The number of accounts with a running client whose presence type
/// satisfies `kind`.
pub open spec fn running_count(accounts: Seq<Account>, active: Set<u64>, kind: spec_fn(u8) -> bool) -> nat {
    accounts.filter(|a: Account| active.contains(a.user_id) && kind(a.last_presence.user_presence_type)).len()
}

/// The dashboard's counts: `(online, in_game, in_studio, offline, moderated,
/// expired)`. A running client makes an account at least online; in game and
/// in studio come from its last presence. Offline is the number of accounts
/// with no running client.
pub open spec fn presence_counts(accounts: Seq<Account>, active: Set<u64>) -> (nat, nat, nat, nat, nat, nat) {
    (
        running_count(accounts, active, |t: u8| t != 2 && t != 3),
        running_count(accounts, active, |t: u8| t == 2),
        running_count(accounts, active, |t: u8| t == 3),
        accounts.filter(|a: Account| !active.contains(a.user_id)).len(),
        accounts.filter(|a: Account| a.moderation is Some && (a.moderation->0.is_banned || a.moderation->0.reason is Some)).len(),
        accounts.filter(|a: Account| a.cookie_expired).len(),
    )
}

/// Presence buckets based on real running instances.
pub fn real_presence(store: &AccountStore, instance_user_ids: &[u64]) -> (counts: (usize, usize, usize, usize, usize, usize))
    ensures
        ({
            let c = presence_counts(store.accounts@, instance_user_ids@.to_set());
            &&& counts.0 == c.0
            &&& counts.1 == c.1
            &&& counts.2 == c.2
            &&& counts.3 == c.3
            &&& counts.4 == c.4
            &&& counts.5 == c.5
        }),
{
    let active = active_user_ids(instance_user_ids);
    let ghost act = active@;
    let ghost p_online = |a: Account| act.contains(a.user_id) && (|t: u8| t != 2 && t != 3)(a.last_presence.user_presence_type);
    let ghost p_game = |a: Account| act.contains(a.user_id) && (|t: u8| t == 2)(a.last_presence.user_presence_type);
    let ghost p_studio = |a: Account| act.contains(a.user_id) && (|t: u8| t == 3)(a.last_presence.user_presence_type);
    let ghost p_mod = |a: Account| a.moderation is Some && (a.moderation->0.is_banned || a.moderation->0.reason is Some);
    let ghost p_exp = |a: Account| a.cookie_expired;
    let ghost p_off = |a: Account| !act.contains(a.user_id);
    let accounts = &store.accounts;
    let total = accounts.len();
    let mut online: usize = 0;
    let mut in_game: usize = 0;
    let mut in_studio: usize = 0;
    let mut moderated: usize = 0;
    let mut expired: usize = 0;
    let mut offline: usize = 0;
    let mut i: usize = 0;
    while i < total
        invariant
            total == accounts@.len(),
            accounts == &store.accounts,
            act == active@,
            i <= total,
            p_online == (|a: Account| act.contains(a.user_id) && (|t: u8| t != 2 && t != 3)(a.last_presence.user_presence_type)),
            p_game == (|a: Account| act.contains(a.user_id) && (|t: u8| t == 2)(a.last_presence.user_presence_type)),
            p_studio == (|a: Account| act.contains(a.user_id) && (|t: u8| t == 3)(a.last_presence.user_presence_type)),
            p_mod == (|a: Account| a.moderation is Some && (a.moderation->0.is_banned || a.moderation->0.reason is Some)),
            p_exp == (|a: Account| a.cookie_expired),
            p_off == (|a: Account| !act.contains(a.user_id)),
            offline == accounts@.take(i as int).filter(p_off).len(),
            offline <= i,
            online == accounts@.take(i as int).filter(p_online).len(),
            in_game == accounts@.take(i as int).filter(p_game).len(),
            in_studio == accounts@.take(i as int).filter(p_studio).len(),
            moderated == accounts@.take(i as int).filter(p_mod).len(),
            expired == accounts@.take(i as int).filter(p_exp).len(),
            online <= i,
            in_game <= i,
            in_studio <= i,
            moderated <= i,
            expired <= i,
        decreases total - i,
    {
        let acc = &accounts[i];
        proof {
            let t = accounts@.take(i as int);
            let x = accounts@[i as int];
            assert(accounts@.take(i + 1) =~= t.push(x));
            t.lemma_filter_push(x, p_online);
            t.lemma_filter_push(x, p_game);
            t.lemma_filter_push(x, p_studio);
            t.lemma_filter_push(x, p_mod);
            t.lemma_filter_push(x, p_exp);
            t.lemma_filter_push(x, p_off);
        }
        if active.contains(&acc.user_id) {
            let t = acc.last_presence.user_presence_type;
            if t == 2 {
                in_game = in_game + 1;
            } else if t == 3 {
                in_studio = in_studio + 1;
            } else {
                online = online + 1;
            }
        } else {
            offline = offline + 1;
        }
        match &acc.moderation {
            Some(m) => if m.is_active() {
                moderated = moderated + 1;
            },
            None => {},
        }
        if acc.cookie_expired {
            expired = expired + 1;
        }
        i = i + 1;
    }
    assert(accounts@.take(total as int) =~= accounts@);
    (online, in_game, in_studio, offline, moderated, expired)
}

/// Each account with a running client is counted in exactly one of online,
/// in game and in studio, and every account is counted in exactly one of
/// these or offline.
pub proof fn lemma_running_accounts_partition(accounts: Seq<Account>, active: Set<u64>)
    ensures
        running_count(accounts, active, |t: u8| t != 2 && t != 3) + running_count(accounts, active, |t: u8| t == 2)
            + running_count(accounts, active, |t: u8| t == 3)
            == accounts.filter(|a: Account| active.contains(a.user_id)).len(),
        ({
            let c = presence_counts(accounts, active);
            c.0 + c.1 + c.2 + c.3 == accounts.len()
        }),
    decreases accounts.len(),
{
    let k_online = |t: u8| t != 2 && t != 3;
    let k_game = |t: u8| t == 2;
    let k_studio = |t: u8| t == 3;
    let p_online = |a: Account| active.contains(a.user_id) && k_online(a.last_presence.user_presence_type);
    let p_game = |a: Account| active.contains(a.user_id) && k_game(a.last_presence.user_presence_type);
    let p_studio = |a: Account| active.contains(a.user_id) && k_studio(a.last_presence.user_presence_type);
    let p_run = |a: Account| active.contains(a.user_id);
    let p_off = |a: Account| !active.contains(a.user_id);
    if accounts.len() > 0 {
        let rest = accounts.drop_last();
        let x = accounts.last();
        lemma_running_accounts_partition(rest, active);
        assert(rest.push(x) =~= accounts);
        rest.lemma_filter_push(x, p_online);
        rest.lemma_filter_push(x, p_game);
        rest.lemma_filter_push(x, p_studio);
        rest.lemma_filter_push(x, p_run);
        rest.lemma_filter_push(x, p_off);
        assert(accounts.filter(|a: Account| !active.contains(a.user_id)) == accounts.filter(p_off));
        assert(rest.filter(|a: Account| !active.contains(a.user_id)) == rest.filter(p_off));
        assert(running_count(accounts, active, k_online) == accounts.filter(p_online).len());
        assert(running_count(rest, active, k_online) == rest.filter(p_online).len());
        assert(running_count(accounts, active, k_game) == accounts.filter(p_game).len());
        assert(running_count(rest, active, k_game) == rest.filter(p_game).len());
        assert(running_count(accounts, active, k_studio) == accounts.filter(p_studio).len());
        assert(running_count(rest, active, k_studio) == rest.filter(p_studio).len());
    } else {
        reveal_with_fuel(Seq::<_>::filter, 1);
    }
}

/// The number of accounts in this group.
pub open spec fn group_size(accounts: Seq<Account>, name: Seq<char>) -> nat {
    accounts.filter(|a: Account| a.group@ == name).len()
}

/// Accounts per group: every non-empty group name of the store once, with
/// the number of accounts in it.
pub fn groups_of(store: &AccountStore) -> (groups: Vec<(String, usize)>)
    ensures
        forall|k: int| 0 <= k < groups@.len() ==> (#[trigger] groups@[k]).0@.len() > 0
            && groups@[k].1 == group_size(store.accounts@, groups@[k].0@) && groups@[k].1 > 0,
        forall|a: int, b: int| 0 <= a < b < groups@.len() ==> groups@[a].0@ != groups@[b].0@,
        forall|i: int|
            0 <= i < store.accounts@.len() && (#[trigger] store.accounts@[i]).group@.len() > 0 ==> exists|k: int|
                0 <= k < groups@.len() && groups@[k].0@ == store.accounts@[i].group@,
{
    let accounts = &store.accounts;
    let n = accounts.len();
    let mut names: Vec<String> = Vec::new();
    let mut counts: Vec<usize> = Vec::new();
    let mut i: usize = 0;
    while i < n
        invariant
            n == accounts@.len(),
            accounts == &store.accounts,
            i <= n,
            names@.len() == counts@.len(),
            forall|k: int| 0 <= k < names@.len() ==> (#[trigger] names@[k])@.len() > 0
                && counts@[k] == group_size(accounts@.take(i as int), names@[k]@)
                && 0 < counts@[k] <= i,
            forall|a: int, b: int| 0 <= a < b < names@.len() ==> names@[a]@ != names@[b]@,
            forall|j: int|
                0 <= j < i && (#[trigger] accounts@[j]).group@.len() > 0 ==> exists|k: int|
                    0 <= k < names@.len() && names@[k]@ == accounts@[j].group@,
            forall|g: Seq<char>| g.len() > 0 && group_size(accounts@.take(i as int), g) > 0 ==> exists|k: int|
                0 <= k < names@.len() && names@[k]@ == g,
        decreases n - i,
    {
        let acc = &accounts[i];
        let ghost t = accounts@.take(i as int);
        let ghost x = accounts@[i as int];
        proof {
            assert(accounts@.take(i + 1) =~= t.push(x));
            assert forall|g: Seq<char>| #[trigger] group_size(accounts@.take(i + 1), g) == group_size(t, g) + (if x.group@ == g { 1nat } else { 0nat }) by {
                t.lemma_filter_push(x, |a: Account| a.group@ == g);
            }
        }
        let ghost mut at: int = -1;
        if !acc.group.as_str().is_empty() {
            let m = names.len();
            let mut k: usize = 0;
            let mut found = false;
            while k < m && !found
                invariant
                    m == names@.len(),
                    k <= m,
                    !found ==> forall|q: int| 0 <= q < k ==> names@[q]@ != acc.group@,
                    found ==> k > 0 && names@[k - 1]@ == acc.group@,
                decreases m - k + (if found { 0int } else { 1int }),
            {
                if str_eq(names[k].as_str(), acc.group.as_str()) {
                    found = true;
                }
                k = k + 1;
            }
            if found {
                let c = counts[k - 1];
                counts.set(k - 1, c + 1);
                proof {
                    at = k - 1;
                }
            } else {
                let ghost old_names = names@;
                names.push(acc.group.clone());
                counts.push(1);
                proof {
                    assert forall|g: Seq<char>| g.len() > 0 && group_size(t, g) > 0 implies exists|q: int|
                        0 <= q < names@.len() && names@[q]@ == g by {
                        let q = choose|q: int| 0 <= q < old_names.len() && old_names[q]@ == g;
                        assert(names@[q] == old_names[q]);
                    }
                    assert forall|q: int| 0 <= q < old_names.len() implies names@[q] == old_names[q] by {}
                    at = names@.len() - 1;
                }
            }
        }
        proof {
            assert forall|j: int| 0 <= j < i + 1 && (#[trigger] accounts@[j]).group@.len() > 0 implies exists|q: int|
                0 <= q < names@.len() && names@[q]@ == accounts@[j].group@ by {
                if j == i {
                    assert(names@[at]@ == x.group@);
                }
            }
        }
        i = i + 1;
    }
    assert(accounts@.take(n as int) =~= accounts@);
    let mut out: Vec<(String, usize)> = Vec::new();
    let ghost names0 = names@;
    let ghost counts0 = counts@;
    let mut rest = names;
    let mut j: usize = 0;
    assert(names0.len() == rest.len());
    while rest.len() > 0
        invariant
            names0.len() <= usize::MAX,
            j + rest@.len() == names0.len(),
            rest@ == names0.skip(j as int),
            counts0 == counts@,
            counts@.len() == names0.len(),
            out@.len() == j,
            forall|q: int| 0 <= q < j ==> (#[trigger] out@[q]).0 == names0[q] && out@[q].1 == counts0[q],
        decreases rest.len(),
    {
        let name = rest.remove(0);
        assert(name == names0[j as int]);
        assert(rest@ =~= names0.skip(j + 1));
        out.push((name, counts[j]));
        j = j + 1;
    }
    proof {
        assert forall|i: int|
            0 <= i < store.accounts@.len() && (#[trigger] store.accounts@[i]).group@.len() > 0 implies exists|k: int|
                0 <= k < out@.len() && out@[k].0@ == store.accounts@[i].group@ by {
            let k = choose|k: int| 0 <= k < names0.len() && names0[k]@ == store.accounts@[i].group@;
            assert(out@[k].0 == names0[k]);
        }
    }
    out
}

} // verus!
