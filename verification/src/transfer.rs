//! Portable account export / import for backup and transfer.
//!
//! An export carries every cookie in plaintext, so that it can be read on a
//! machine that has never seen this store: an export file is as sensitive
//! as the accounts themselves. Import re-encrypts each cookie under the
//! importing store's session. Decrypting, encrypting, reading and writing
//! files are the caller's part; this module decides what goes into a file
//! and what comes out of one.

use vstd::prelude::*;
use crate::api::CoreError;
use crate::models::{Account, AccountStore};
use crate::text::{decimal_spec, push_decimal};

verus! {

/// Version of the export format. Bumped when fields are added, so that an
/// older build refuses a newer file rather than silently dropping data.
pub const EXPORT_VERSION: u32 = 1;

/// One account as written to an export file; `cookie` is the plaintext
/// session cookie, empty when there is none.
#[derive(Debug, Clone)]
pub struct ExportedAccount {
    pub user_id: u64,
    pub username: String,
    pub display_name: String,
    pub alias: String,
    pub notes: String,
    pub group: String,
    pub cookie: String,
}

/// Top-level export file.
#[derive(Debug, Clone)]
pub struct ExportFile {
    pub format_version: u32,
    pub accounts: Vec<ExportedAccount>,
}

impl ExportFile {
    /// A file of the current format holding these accounts.
    pub fn new(accounts: Vec<ExportedAccount>) -> (f: ExportFile)
        ensures
            f.format_version == EXPORT_VERSION,
            f.accounts == accounts,
    {
        ExportFile { format_version: EXPORT_VERSION, accounts }
    }
}

/// The cookie exported for an account: the decrypted one when the account
/// has a stored cookie that could be decrypted, else empty.
pub open spec fn export_cookie(a: Account, decrypted: Option<String>) -> Seq<char> {
    match a.encrypted_cookie {
        Some(_) => match decrypted {
            Some(c) => c@,
            None => Seq::empty(),
        },
        None => Seq::empty(),
    }
}

/// `e` is account `a` as exported, with `cookie` as its cookie.
pub open spec fn is_export_of(e: ExportedAccount, a: Account, cookie: Seq<char>) -> bool {
    &&& e.user_id == a.user_id
    &&& e.username@ == a.username@
    &&& e.display_name@ == a.display_name@
    &&& e.alias@ == a.alias@
    &&& e.notes@ == a.notes@
    &&& e.group@ == a.group@
    &&& e.cookie@ == cookie
}

/// `f` is the export of `store`, where `decrypted[i]` is what decrypting the
/// stored cookie of account `i` gave (`None` on failure).
pub open spec fn is_export_file(f: ExportFile, store: AccountStore, decrypted: Seq<Option<String>>) -> bool {
    &&& f.format_version == EXPORT_VERSION
    &&& f.accounts@.len() == store.accounts@.len()
    &&& forall|i: int|
        0 <= i < f.accounts@.len() ==> is_export_of(
            #[trigger] f.accounts@[i],
            store.accounts@[i],
            export_cookie(store.accounts@[i], decrypted[i]),
        )
}

fn clone_string(s: &String) -> (r: String)
    ensures
        r@ == s@,
{
    s.clone()
}

/// The export file of a store. `decrypted[i]` is the result of decrypting the
/// stored cookie of account `i` (`None` where it failed or there is none):
/// an account whose cookie cannot be read is exported without it rather than
/// failing the export.
pub fn export_accounts(store: &AccountStore, decrypted: &Vec<Option<String>>) -> (f: ExportFile)
    requires
        decrypted@.len() == store.accounts@.len(),
    ensures
        is_export_file(f, *store, decrypted@),
{
    let n = store.accounts.len();
    let mut out: Vec<ExportedAccount> = Vec::new();
    let mut i: usize = 0;
    while i < n
        invariant
            n == store.accounts@.len(),
            n == decrypted@.len(),
            i <= n,
            out@.len() == i,
            forall|k: int|
                0 <= k < i ==> is_export_of(
                    #[trigger] out@[k],
                    store.accounts@[k],
                    export_cookie(store.accounts@[k], decrypted@[k]),
                ),
        decreases n - i,
    {
        let account = &store.accounts[i];
        let cookie = match &account.encrypted_cookie {
            Some(_) => match &decrypted[i] {
                Some(c) => clone_string(c),
                None => String::new(),
            },
            None => String::new(),
        };
        out.push(
            ExportedAccount {
                user_id: account.user_id,
                username: clone_string(&account.username),
                display_name: clone_string(&account.display_name),
                alias: clone_string(&account.alias),
                notes: clone_string(&account.notes),
                group: clone_string(&account.group),
                cookie,
            },
        );
        i = i + 1;
    }
    ExportFile::new(out)
}

/// `a` is the exported entry `e` brought back as an account: identity and
/// organisation from the file, everything else as for a fresh account, and
/// `encrypted_cookie` as given.
pub open spec fn is_account_of_export(a: Account, e: ExportedAccount, encrypted_cookie: Option<String>) -> bool {
    &&& a.user_id == e.user_id
    &&& a.username@ == e.username@
    &&& a.display_name@ == e.display_name@
    &&& a.alias@ == e.alias@
    &&& a.notes@ == e.notes@
    &&& a.group@ == e.group@
    &&& a.encrypted_cookie == encrypted_cookie
    &&& a.avatar_url@ == Seq::<char>::empty()
    &&& a.last_presence.user_presence_type == 0
    &&& a.last_presence.place_id is None
    &&& a.last_presence.game_id is None
    &&& a.last_presence.last_location@ == Seq::<char>::empty()
    &&& a.last_validated is None
    &&& !a.cookie_expired
    &&& a.moderation is None
    &&& a.sort_order == u32::MAX
    &&& a.saved_place_id@ == Seq::<char>::empty()
    &&& a.saved_job_id@ == Seq::<char>::empty()
}

impl Account {
    /// An exported entry as a new account without a stored cookie.
    pub fn from_exported(e: &ExportedAccount) -> (a: Account)
        ensures
            is_account_of_export(a, *e, None),
    {
        let mut a = Account::new(e.user_id, clone_string(&e.username), clone_string(&e.display_name));
        a.alias = clone_string(&e.alias);
        a.notes = clone_string(&e.notes);
        a.group = clone_string(&e.group);
        a
    }
}

/// The error for a file of another format version.
pub open spec fn incompatible_version_message(version: u32) -> Seq<char> {
    "this export was written by an incompatible version of RM (format "@ + decimal_spec(
        version as nat,
    ) + "; this build reads "@ + decimal_spec(EXPORT_VERSION as nat) + ")"@
}

/// Refuses a file written in another format version.
pub fn check_format_version(file: &ExportFile) -> (res: Result<(), CoreError>)
    ensures
        file.format_version == EXPORT_VERSION ==> res is Ok,
        file.format_version != EXPORT_VERSION ==> (res matches Err(CoreError::Crypto(m)) && m@
            == incompatible_version_message(file.format_version)),
{
    if file.format_version != EXPORT_VERSION {
        let mut m = String::from_str("this export was written by an incompatible version of RM (format ");
        push_decimal(&mut m, file.format_version as u64);
        m.append("; this build reads ");
        push_decimal(&mut m, EXPORT_VERSION as u64);
        m.append(")");
        return Err(CoreError::Crypto(m));
    }
    Ok(())
}

/// The cookie stored for an imported entry: its re-encryption when the file
/// carries a cookie, none when the cookie is empty.
pub open spec fn import_cookie(e: ExportedAccount, encrypted: String) -> Option<String> {
    if e.cookie@.len() == 0 {
        None
    } else {
        Some(encrypted)
    }
}

/// `accounts` are the entries of `file` brought back, where `encrypted[i]` is
/// the re-encryption of entry `i`'s cookie.
pub open spec fn is_import_of(accounts: Seq<Account>, file: ExportFile, encrypted: Seq<String>) -> bool {
    &&& accounts.len() == file.accounts@.len()
    &&& forall|i: int|
        0 <= i < accounts.len() ==> is_account_of_export(
            #[trigger] accounts[i],
            file.accounts@[i],
            import_cookie(file.accounts@[i], encrypted[i]),
        )
}

/// The accounts of an export file, ready to merge into a store. `encrypted[i]`
/// is entry `i`'s cookie encrypted under the importing store's session (it is
/// not used where the cookie is empty). A file of another format version is
/// refused.
pub fn import_accounts(file: &ExportFile, encrypted: Vec<String>) -> (res: Result<Vec<Account>, CoreError>)
    requires
        encrypted@.len() == file.accounts@.len(),
    ensures
        file.format_version != EXPORT_VERSION ==> (res matches Err(CoreError::Crypto(m)) && m@
            == incompatible_version_message(file.format_version)),
        file.format_version == EXPORT_VERSION ==> (res matches Ok(accounts) && is_import_of(
            accounts@,
            *file,
            encrypted@,
        )),
{
    match check_format_version(file) {
        Ok(()) => {},
        Err(e) => {
            return Err(e);
        },
    }
    let ghost enc = encrypted@;
    let mut rest = encrypted;
    let n = file.accounts.len();
    let mut accounts: Vec<Account> = Vec::new();
    let mut i: usize = 0;
    while i < n
        invariant
            n == file.accounts@.len(),
            n == enc.len(),
            i <= n,
            accounts@.len() == i,
            rest@ == enc.skip(i as int),
            forall|k: int|
                0 <= k < i ==> is_account_of_export(
                    #[trigger] accounts@[k],
                    file.accounts@[k],
                    import_cookie(file.accounts@[k], enc[k]),
                ),
        decreases n - i,
    {
        let exported = &file.accounts[i];
        let mut account = Account::from_exported(exported);
        let e = rest.remove(0);
        assert(e == enc[i as int]);
        assert(rest@ =~= enc.skip(i + 1));
        if !exported.cookie.as_str().is_empty() {
            account.encrypted_cookie = Some(e);
        }
        accounts.push(account);
        i = i + 1;
    }
    Ok(accounts)
}

/// Export then import keeps every account's identity and organisation, in
/// order; an account comes back with a stored cookie exactly when it had
/// one that could be decrypted to a non-empty cookie; runtime state
/// (presence, validation, moderation, avatar) starts afresh.
pub proof fn lemma_export_import_round_trip(
    store: AccountStore,
    decrypted: Seq<Option<String>>,
    file: ExportFile,
    encrypted: Seq<String>,
    imported: Seq<Account>,
)
    requires
        is_export_file(file, store, decrypted),
        is_import_of(imported, file, encrypted),
    ensures
        imported.len() == store.accounts@.len(),
        forall|i: int|
            0 <= i < imported.len() ==> {
                let a = #[trigger] imported[i];
                let o = store.accounts@[i];
                &&& a.user_id == o.user_id
                &&& a.username@ == o.username@
                &&& a.display_name@ == o.display_name@
                &&& a.alias@ == o.alias@
                &&& a.notes@ == o.notes@
                &&& a.group@ == o.group@
                &&& (a.encrypted_cookie is Some <==> export_cookie(o, decrypted[i]).len() > 0)
                &&& a.last_presence.user_presence_type == 0
                &&& a.moderation is None
                &&& a.last_validated is None
            },
{
    assert forall|i: int| 0 <= i < imported.len() implies {
        let a = #[trigger] imported[i];
        let o = store.accounts@[i];
        &&& a.user_id == o.user_id
        &&& a.username@ == o.username@
        &&& a.display_name@ == o.display_name@
        &&& a.alias@ == o.alias@
        &&& a.notes@ == o.notes@
        &&& a.group@ == o.group@
        &&& (a.encrypted_cookie is Some <==> export_cookie(o, decrypted[i]).len() > 0)
        &&& a.last_presence.user_presence_type == 0
        &&& a.moderation is None
        &&& a.last_validated is None
    } by {
        assert(is_account_of_export(imported[i], file.accounts@[i], import_cookie(file.accounts@[i], encrypted[i])));
        assert(is_export_of(file.accounts@[i], store.accounts@[i], export_cookie(store.accounts@[i], decrypted[i])));
    }
}

} // verus!
