use ram_core::models::{
    default_sort_mode, default_sort_order, default_true, Account, AccountGroup, AccountGroupStore,
    AccountStore, ModerationInfo, Presence,
};

fn account(id: u64, name: &str) -> Account {
    Account::new(id, name.to_string(), format!("Display {name}"))
}

#[test]
fn new_account_has_only_its_identity() {
    let a = account(5, "bob");
    assert_eq!(a.user_id, 5);
    assert_eq!(a.username, "bob");
    assert_eq!(a.display_name, "Display bob");
    assert!(a.encrypted_cookie.is_none());
    assert_eq!(a.sort_order, u32::MAX);
    assert_eq!(a.last_presence.user_presence_type, 0);
    assert!(a.moderation.is_none());
    assert!(!a.cookie_expired);
}

#[test]
fn label_prefers_the_alias() {
    let mut a = account(1, "user1");
    assert_eq!(a.label(), "user1");
    a.alias = "main".to_string();
    assert_eq!(a.label(), "main");
}

#[test]
fn presence_texts() {
    let mut p = Presence::default();
    let expected = ["Offline", "Online", "In Game", "In Studio", "Unknown"];
    for (t, text) in expected.iter().enumerate() {
        p.user_presence_type = t as u8;
        assert_eq!(p.status_text(), *text);
        assert_eq!(p.is_online(), t > 0);
    }
    p.user_presence_type = 200;
    assert_eq!(p.status_text(), "Unknown");
}

#[test]
fn moderation_activity() {
    let mut m = ModerationInfo::default();
    assert!(!m.is_active());
    m.reason = Some("Spam".to_string());
    assert!(m.is_active());
    m.reason = None;
    m.is_banned = true;
    assert!(m.is_active());
}

#[test]
fn store_finds_the_first_match_and_removes_all() {
    let mut store = AccountStore::default();
    store.accounts.push(account(1, "a"));
    store.accounts.push(account(2, "b"));
    store.accounts.push(account(1, "c"));
    assert_eq!(store.find_by_id(1).unwrap().username, "a");
    assert!(store.find_by_id(3).is_none());
    store.find_by_id_mut(2).unwrap().alias = "renamed".to_string();
    assert_eq!(store.accounts[1].alias, "renamed");
    assert!(store.find_by_id_mut(9).is_none());
    assert!(store.remove_by_id(1));
    assert_eq!(store.accounts.len(), 1);
    assert_eq!(store.accounts[0].username, "b");
    assert!(store.find_by_id(1).is_none());
    assert!(!store.remove_by_id(1));
}

#[test]
fn group_store_by_string_id() {
    let mut store = AccountGroupStore::default();
    let g1 = AccountGroup::new("One".to_string(), 10);
    let g2 = AccountGroup::new("Two".to_string(), 20);
    let id1 = g1.id.clone();
    let id2 = g2.id.clone();
    store.groups.push(g1);
    store.groups.push(g2);
    assert_eq!(store.find_by_id(&id2).unwrap().name, "Two");
    store.find_by_id_mut(&id1).unwrap().member_user_ids.push(7);
    assert_eq!(store.groups[0].member_user_ids, vec![7]);
    assert!(store.find_by_id("nope").is_none());
    assert!(store.remove_by_id(&id1));
    assert!(!store.remove_by_id(&id1));
    assert_eq!(store.groups.len(), 1);
    assert_eq!(store.groups[0].id, id2);
}

fn is_uuid_v4(s: &str) -> bool {
    let b: Vec<char> = s.chars().collect();
    b.len() == 36
        && b.iter().enumerate().all(|(i, c)| {
            if [8, 13, 18, 23].contains(&i) {
                *c == '-'
            } else {
                c.is_ascii_digit() || ('a'..='f').contains(c)
            }
        })
        && b[14] == '4'
}

#[test]
fn new_group_gets_a_random_v4_id_and_one_timestamp() {
    let g = AccountGroup::new("Squad".to_string(), 123);
    assert!(is_uuid_v4(&g.id), "{}", g.id);
    assert_eq!(g.created_at, g.updated_at);
    assert!(g.created_at.secs > 1_600_000_000 && g.created_at.nanos < 1_000_000_000);
    assert_eq!(g.place_id, 123);
    assert!(g.member_user_ids.is_empty());
    let other = AccountGroup::new("Squad".to_string(), 123);
    assert_ne!(g.id, other.id);
}

#[test]
fn serde_defaults() {
    assert_eq!(default_sort_mode(), "Custom");
    assert!(default_true());
    assert_eq!(default_sort_order(), u32::MAX);
}
