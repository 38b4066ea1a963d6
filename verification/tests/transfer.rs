use ram_core::api::CoreError;
use ram_core::models::{Account, AccountStore, Presence};
use ram_core::transfer::{
    check_format_version, export_accounts, import_accounts, ExportFile, ExportedAccount,
    EXPORT_VERSION,
};

/// Stand-in for the store's cookie cipher: the tests only need a reversible,
/// recognisable transformation.
fn seal(plain: &str, key: &str) -> String {
    format!("{key}:{plain}")
}

fn open(sealed: &str, key: &str) -> Option<String> {
    sealed.strip_prefix(&format!("{key}:")).map(|s| s.to_string())
}

fn store_with_cookies(key: &str) -> AccountStore {
    let mut store = AccountStore::default();
    for i in 0..3u64 {
        let mut a = Account::new(i, format!("user{i}"), format!("User {i}"));
        a.alias = format!("alias{i}");
        a.notes = format!("note{i}");
        a.group = if i % 2 == 0 { "GroupA".into() } else { "".into() };
        a.encrypted_cookie = Some(seal(&format!("COOKIE_{i}"), key));
        a.last_presence = Presence { user_presence_type: (i % 4) as u8, ..Default::default() };
        store.accounts.push(a);
    }
    store
}

fn decrypt_all(store: &AccountStore, key: &str) -> Vec<Option<String>> {
    store
        .accounts
        .iter()
        .map(|a| a.encrypted_cookie.as_ref().and_then(|c| open(c, key)))
        .collect()
}

fn encrypt_all(file: &ExportFile, key: &str) -> Vec<String> {
    file.accounts.iter().map(|e| seal(&e.cookie, key)).collect()
}

#[test]
fn export_then_import_round_trips_cookies_and_metadata() {
    let store = store_with_cookies("test-pw");
    let file = export_accounts(&store, &decrypt_all(&store, "test-pw"));
    assert_eq!(file.format_version, EXPORT_VERSION);
    assert_eq!(file.accounts.len(), 3);

    // Another store (as if importing on another PC) reads it: the export is
    // plaintext, not bound to any key.
    let imported = import_accounts(&file, encrypt_all(&file, "other-pw")).unwrap();
    assert_eq!(imported.len(), 3);

    for (i, a) in imported.iter().enumerate() {
        assert_eq!(a.user_id, i as u64);
        assert_eq!(a.username, format!("user{i}"));
        assert_eq!(a.display_name, format!("User {i}"));
        assert_eq!(a.alias, format!("alias{i}"));
        assert_eq!(a.notes, format!("note{i}"));
        assert_eq!(a.group, if i % 2 == 0 { "GroupA" } else { "" });
        let plain = open(a.encrypted_cookie.as_ref().unwrap(), "other-pw").unwrap();
        assert_eq!(plain, format!("COOKIE_{i}"));
        // Presence is runtime state, not part of a transfer.
        assert_eq!(a.last_presence.user_presence_type, 0);
    }
}

#[test]
fn export_skips_an_undecryptable_cookie_instead_of_failing() {
    let mut store = store_with_cookies("test-pw");
    // This cookie is sealed under a key the export cannot read.
    store.accounts[1].encrypted_cookie = Some(seal("ORPHAN", "different-key"));

    let file = export_accounts(&store, &decrypt_all(&store, "test-pw"));
    assert_eq!(file.accounts.len(), 3, "one bad cookie must not fail the export");
    assert_eq!(file.accounts[1].cookie, "", "bad cookie exported empty");
    assert_eq!(file.accounts[1].username, "user1");

    let imported = import_accounts(&file, encrypt_all(&file, "test-pw")).unwrap();
    assert!(imported[0].encrypted_cookie.is_some());
    assert_eq!(imported[1].encrypted_cookie, None, "bad cookie exported empty");
    assert!(imported[2].encrypted_cookie.is_some());
}

#[test]
fn a_future_format_version_is_rejected() {
    let store = store_with_cookies("test-pw");
    let mut file = export_accounts(&store, &decrypt_all(&store, "test-pw"));
    file.format_version = 99;
    let n = file.accounts.len();
    let err = match import_accounts(&file, vec![String::new(); n]) {
        Err(CoreError::Crypto(m)) => m,
        other => panic!("expected a format error, got {other:?}"),
    };
    assert!(err.contains("incompatible version"), "unhelpful error: {err}");
    assert_eq!(
        err,
        "this export was written by an incompatible version of RM (format 99; this build reads 1)"
    );
}

#[test]
fn accounts_without_a_stored_cookie_export_an_empty_cookie() {
    let mut store = store_with_cookies("k");
    store.accounts[0].encrypted_cookie = None;
    // Even a decryption result offered for it is not used.
    let mut decrypted = decrypt_all(&store, "k");
    decrypted[0] = Some("STRAY".to_string());
    let file = export_accounts(&store, &decrypted);
    assert_eq!(file.accounts[0].cookie, "");
    assert_eq!(file.accounts[2].cookie, "COOKIE_2");
}

#[test]
fn an_exported_entry_becomes_a_fresh_account() {
    let e = ExportedAccount {
        user_id: 42,
        username: "u".into(),
        display_name: "U".into(),
        alias: "a".into(),
        notes: "n".into(),
        group: "g".into(),
        cookie: "c".into(),
    };
    let a = Account::from_exported(&e);
    assert_eq!((a.user_id, a.alias.as_str(), a.notes.as_str(), a.group.as_str()), (42, "a", "n", "g"));
    assert_eq!(a.encrypted_cookie, None);
    assert_eq!(a.sort_order, u32::MAX);
    assert!(a.moderation.is_none() && a.last_validated.is_none() && !a.cookie_expired);
}

#[test]
fn the_current_format_version_is_accepted() {
    let f = ExportFile::new(Vec::new());
    assert_eq!(f.format_version, 1);
    assert!(check_format_version(&f).is_ok());
    assert!(import_accounts(&f, Vec::new()).unwrap().is_empty());
}
