//! The main panel of a selected account: its input buffers, and the actions
//! its launch, preset, alias and notes controls request.

use vstd::prelude::*;
use crate::api::universe::GamePreview;
use crate::clock::{UtcInstant, format_utc, nanos_between, time_of_day, utc_format_text};
use crate::models::{Account, ModerationInfo, Presence, status_text_spec};
use crate::text::{parse_u64, parse_u64_spec, trim_spec};

verus! {

/// Actions the main panel can request.
pub enum MainPanelAction {
    LaunchGame { place_id: u64, job_id: Option<String> },
    RemoveAccount(u64),
    UpdateAlias { user_id: u64, alias: String },
    UpdateNotes { user_id: u64, notes: String },
    /// Persist the launch target (Place ID / Job ID) on this account so it
    /// survives a restart.
    SaveLaunchTarget { user_id: u64 },
    /// Save the current Place ID / Job ID inputs as a named launch preset.
    SavePreset { name: String, place_id: u64, job_id: Option<String> },
    KillAll,
    /// Open a webview pre-logged in as this account.
    OpenBrowserAs(u64),
    /// Open the presets manager window.
    OpenPresets,
    /// Open the servers panel for the current Place ID.
    OpenServers,
}

/// Persistent input state for the main panel.
pub struct MainPanelState {
    pub place_id_input: String,
    pub job_id_input: String,
    /// Which account the place/job inputs were loaded for.
    pub launch_for_user: Option<u64>,
    pub alias_input: String,
    /// Which account the alias input belongs to.
    pub alias_for_user: Option<u64>,
    /// Notes text buffer, keyed to the account it was loaded for.
    pub notes_input: String,
    pub notes_for_user: Option<u64>,
    /// Name buffer for the "Save as preset" inline form.
    pub preset_name_input: String,
    /// True while the "save as preset" popover is open.
    pub show_save_form: bool,
    /// Set the frame the save popover opens so focus is requested once.
    pub save_form_needs_focus: bool,
}

impl Default for MainPanelState {
    fn default() -> (s: MainPanelState)
        ensures
            s.place_id_input@ == Seq::<char>::empty(),
            s.job_id_input@ == Seq::<char>::empty(),
            s.alias_input@ == Seq::<char>::empty(),
            s.notes_input@ == Seq::<char>::empty(),
            s.preset_name_input@ == Seq::<char>::empty(),
            !s.show_save_form,
            s.loaded_for() == (None::<u64>, None::<u64>, None::<u64>),
    {
        MainPanelState {
            place_id_input: String::new(),
            job_id_input: String::new(),
            launch_for_user: None,
            alias_input: String::new(),
            alias_for_user: None,
            notes_input: String::new(),
            notes_for_user: None,
            preset_name_input: String::new(),
            show_save_form: false,
            save_form_needs_focus: false,
        }
    }
}

/// A trimmed text, `None` when nothing is left.
pub open spec fn parse_optional_spec(s: Seq<char>) -> Option<Seq<char>> {
    if trim_spec(s).len() == 0 {
        None
    } else {
        Some(trim_spec(s))
    }
}

/// Trim and turn `""` into `None`, otherwise `Some(trimmed)`.
pub fn parse_optional(s: &str) -> (res: Option<String>)
    ensures
        match parse_optional_spec(s@) {
            None => res is None,
            Some(t) => res matches Some(r) && r@ == t,
        },
{
    let t = s.trim();
    if t.is_empty() {
        None
    } else {
        Some(String::from_str(t))
    }
}

impl MainPanelState {
    /// The accounts the launch, alias and notes buffers were loaded for.
    pub open spec fn loaded_for(self) -> (Option<u64>, Option<u64>, Option<u64>) {
        (self.launch_for_user, self.alias_for_user, self.notes_for_user)
    }

    /// Loads the account's saved launch target, alias and notes into any
    /// buffer that was loaded for another account; a buffer already holding
    /// this account's text is left as the user is editing it.
    pub fn sync_with(&mut self, account: &Account)
        ensures
            *final(self) == synced(*old(self), *account),
    {
        if self.launch_for_user != Some(account.user_id) {
            self.place_id_input = account.saved_place_id.clone();
            self.job_id_input = account.saved_job_id.clone();
            self.launch_for_user = Some(account.user_id);
        }
        if self.alias_for_user != Some(account.user_id) {
            self.alias_input = account.alias.clone();
            self.alias_for_user = Some(account.user_id);
        }
        if self.notes_for_user != Some(account.user_id) {
            self.notes_input = account.notes.clone();
            self.notes_for_user = Some(account.user_id);
        }
    }

    /// The launch the Launch button requests: the Place ID input must be a
    /// number (it is not trimmed); the Job ID is optional.
    pub fn launch_request(&self) -> (action: Option<MainPanelAction>)
        ensures
            match parse_u64_spec(self.place_id_input@) {
                None => action is None,
                Some(place) => action matches Some(MainPanelAction::LaunchGame { place_id, job_id })
                    && place_id == place && match parse_optional_spec(self.job_id_input@) {
                    None => job_id is None,
                    Some(t) => job_id matches Some(j) && j@ == t,
                },
            },
    {
        match parse_u64(self.place_id_input.as_str()) {
            Some(place_id) => {
                let job_id = parse_optional(self.job_id_input.as_str());
                Some(MainPanelAction::LaunchGame { place_id, job_id })
            },
            None => None,
        }
    }

    /// The "save as preset" button: opens the form (with an empty name, and
    /// focus to be moved to it once) or closes it.
    pub fn toggle_save_form(&mut self)
        ensures
            final(self).show_save_form == !old(self).show_save_form,
            final(self).show_save_form ==> final(self).preset_name_input@ == Seq::<char>::empty()
                && final(self).save_form_needs_focus,
            !final(self).show_save_form ==> final(self).preset_name_input == old(self).preset_name_input
                && final(self).save_form_needs_focus == old(self).save_form_needs_focus,
            final(self).place_id_input == old(self).place_id_input,
            final(self).job_id_input == old(self).job_id_input,
            final(self).alias_input == old(self).alias_input,
            final(self).notes_input == old(self).notes_input,
            final(self).loaded_for() == old(self).loaded_for(),
    {
        self.show_save_form = !self.show_save_form;
        if self.show_save_form {
            self.preset_name_input = String::new();
            self.save_form_needs_focus = true;
        }
    }

    /// Whether focus is still to be moved to the preset name field; asking
    /// consumes the request.
    pub fn take_focus_request(&mut self) -> (b: bool)
        ensures
            b == old(self).save_form_needs_focus,
            !final(self).save_form_needs_focus,
            final(self).show_save_form == old(self).show_save_form,
            final(self).place_id_input == old(self).place_id_input,
            final(self).job_id_input == old(self).job_id_input,
            final(self).preset_name_input == old(self).preset_name_input,
            final(self).alias_input == old(self).alias_input,
            final(self).notes_input == old(self).notes_input,
            final(self).loaded_for() == old(self).loaded_for(),
    {
        let b = self.save_form_needs_focus;
        self.save_form_needs_focus = false;
        b
    }

    /// The preset the Save button of the preset form requests, when the Place
    /// ID is a number and the name (trimmed) is not empty. A saved preset
    /// clears the name and closes the form; otherwise nothing changes.
    pub fn preset_request(&mut self) -> (action: Option<MainPanelAction>)
        ensures
            ({
                let place = parse_u64_spec(old(self).place_id_input@);
                let name = trim_spec(old(self).preset_name_input@);
                if place is Some && name.len() > 0 {
                    &&& action matches Some(MainPanelAction::SavePreset { name: n, place_id, job_id })
                        && n@ == name && place_id == place->0 && match parse_optional_spec(
                        old(self).job_id_input@,
                    ) {
                        None => job_id is None,
                        Some(t) => job_id matches Some(j) && j@ == t,
                    }
                    &&& final(self).preset_name_input@ == Seq::<char>::empty()
                    &&& !final(self).show_save_form
                    &&& final(self).place_id_input == old(self).place_id_input
                    &&& final(self).job_id_input == old(self).job_id_input
                    &&& final(self).alias_input == old(self).alias_input
                    &&& final(self).notes_input == old(self).notes_input
                    &&& final(self).save_form_needs_focus == old(self).save_form_needs_focus
                    &&& final(self).loaded_for() == old(self).loaded_for()
                } else {
                    &&& action is None
                    &&& *final(self) == *old(self)
                }
            }),
    {
        let place = parse_u64(self.place_id_input.as_str());
        let name = self.preset_name_input.as_str().trim();
        match place {
            Some(place_id) => {
                if name.is_empty() {
                    return None;
                }
                let name = String::from_str(name);
                let job_id = parse_optional(self.job_id_input.as_str());
                self.preset_name_input = String::new();
                self.show_save_form = false;
                Some(MainPanelAction::SavePreset { name, place_id, job_id })
            },
            None => None,
        }
    }

    /// The alias update the alias field requests when it loses focus: only
    /// when the text differs from the account's alias.
    pub fn alias_update(&self, account: &Account) -> (action: Option<MainPanelAction>)
        ensures
            self.alias_input@ == account.alias@ ==> action is None,
            self.alias_input@ != account.alias@ ==> (action matches Some(
                MainPanelAction::UpdateAlias { user_id, alias },
            ) && user_id == account.user_id && alias == self.alias_input),
    {
        if self.alias_input == account.alias {
            None
        } else {
            Some(MainPanelAction::UpdateAlias { user_id: account.user_id, alias: self.alias_input.clone() })
        }
    }

    /// The notes update the notes field requests when it loses focus: only
    /// when the text differs from the account's notes.
    pub fn notes_update(&self, account: &Account) -> (action: Option<MainPanelAction>)
        ensures
            self.notes_input@ == account.notes@ ==> action is None,
            self.notes_input@ != account.notes@ ==> (action matches Some(
                MainPanelAction::UpdateNotes { user_id, notes },
            ) && user_id == account.user_id && notes == self.notes_input),
    {
        if self.notes_input == account.notes {
            None
        } else {
            Some(MainPanelAction::UpdateNotes { user_id: account.user_id, notes: self.notes_input.clone() })
        }
    }
}

/// The panel state once its buffers are loaded for `account`: each buffer
/// loaded for another account takes the account's saved text.
pub open spec fn synced(s: MainPanelState, account: Account) -> MainPanelState {
    let id = Some(account.user_id);
    let launch = s.launch_for_user != id;
    let alias = s.alias_for_user != id;
    let notes = s.notes_for_user != id;
    MainPanelState {
        place_id_input: if launch { account.saved_place_id } else { s.place_id_input },
        job_id_input: if launch { account.saved_job_id } else { s.job_id_input },
        launch_for_user: id,
        alias_input: if alias { account.alias } else { s.alias_input },
        alias_for_user: id,
        notes_input: if notes { account.notes } else { s.notes_input },
        notes_for_user: id,
        ..s
    }
}

/// Loading an account's buffers a second time changes nothing, so edits in
/// progress survive every redraw of the same account.
pub proof fn lemma_sync_idempotent(s: MainPanelState, account: Account)
    ensures
        synced(synced(s, account), account) == synced(s, account),
{
}

/// After loading, every buffer belongs to the account.
pub proof fn lemma_sync_loads_account(s: MainPanelState, account: Account)
    ensures
        synced(s, account).loaded_for() == (Some(account.user_id), Some(account.user_id), Some(account.user_id)),
{
}

/// A buffer already loaded for the account is left as it is, so text being
/// typed survives a redraw; a buffer loaded for another account (or none)
/// takes the account's saved text. The preset form is never touched.
pub proof fn lemma_sync_keeps_loaded_buffers(s: MainPanelState, account: Account)
    ensures
        ({
            let r = synced(s, account);
            let id = Some(account.user_id);
            &&& s.launch_for_user == id ==> r.place_id_input == s.place_id_input && r.job_id_input
                == s.job_id_input
            &&& s.launch_for_user != id ==> r.place_id_input == account.saved_place_id
                && r.job_id_input == account.saved_job_id
            &&& s.alias_for_user == id ==> r.alias_input == s.alias_input
            &&& s.alias_for_user != id ==> r.alias_input == account.alias
            &&& s.notes_for_user == id ==> r.notes_input == s.notes_input
            &&& s.notes_for_user != id ==> r.notes_input == account.notes
            &&& r.preset_name_input == s.preset_name_input
            &&& r.show_save_form == s.show_save_form
            &&& r.save_form_needs_focus == s.save_form_needs_focus
        }),
{
}

/// The label of the presence chip by presence type.
pub open spec fn chip_label(user_presence_type: u8) -> Seq<char> {
    if user_presence_type == 1 {
        "Online"@
    } else if user_presence_type == 2 {
        "In game"@
    } else if user_presence_type == 3 {
        "In Studio"@
    } else {
        "Offline"@
    }
}

/// The text of the presence chip: the chip label when offline or when the
/// status text says the same, else the status text.
pub open spec fn presence_chip_text_spec(p: Presence) -> Seq<char> {
    let label = chip_label(p.user_presence_type);
    let detail = status_text_spec(p.user_presence_type);
    if p.user_presence_type == 0 || detail == label {
        label
    } else {
        detail
    }
}

/// Text of the pill-shaped presence chip.
pub fn presence_chip_text(presence: &Presence) -> (s: String)
    ensures
        s@ == presence_chip_text_spec(*presence),
{
    let label = match presence.user_presence_type {
        1 => "Online",
        2 => "In game",
        3 => "In Studio",
        _ => "Offline",
    };
    let detail = presence.status_text();
    if presence.user_presence_type == 0 || crate::text::str_eq(detail, label) {
        String::from_str(label)
    } else {
        String::from_str(detail)
    }
}


/// What the game preview of the launch card says about the game.
pub enum PreviewStatus {
    /// The Place ID is not resolved yet.
    Identifying,
    /// The Place ID was resolved to no game.
    NotFound,
    /// The Place ID was resolved to the game with this name.
    Ready(String),
}

/// The game preview of the launch card.
pub struct PreviewDisplay {
    /// The Place ID typed in the launch card.
    pub place_id: u64,
    /// The game's thumbnail is shown (else a placeholder).
    pub show_thumbnail: bool,
    pub status: PreviewStatus,
}

/// The preview of the game a Place ID input points at: none unless the
/// input (trimmed) is a number; the resolved preview counts only when it is
/// for that Place ID, and its thumbnail only when it is not empty.
pub fn game_preview_display(place_id_input: &str, preview: Option<&GamePreview>, thumbnail: Option<&Vec<u8>>) -> (d: Option<PreviewDisplay>)
    ensures
        parse_u64_spec(trim_spec(place_id_input@)) is None ==> d is None,
        parse_u64_spec(trim_spec(place_id_input@)) matches Some(place) ==> (d matches Some(disp) && {
            let current = preview matches Some(p) && p.place_id == place;
            &&& disp.place_id == place
            &&& disp.show_thumbnail == (current && (thumbnail matches Some(b) && b@.len() > 0))
            &&& !current ==> disp.status is Identifying
            &&& current && preview->0.name@.len() == 0 ==> disp.status is NotFound
            &&& current && preview->0.name@.len() > 0 ==> (disp.status matches PreviewStatus::Ready(n) && n@
                == preview->0.name@)
        }),
{
    let place = match parse_u64(place_id_input.trim()) {
        Some(p) => p,
        None => {
            return None;
        },
    };
    let current = match preview {
        Some(p) => p.place_id == place,
        None => false,
    };
    let show_thumbnail = current && match thumbnail {
        Some(b) => b.len() > 0,
        None => false,
    };
    let status = match preview {
        Some(p) => {
            if !current {
                PreviewStatus::Identifying
            } else if p.name.as_str().is_empty() {
                PreviewStatus::NotFound
            } else {
                PreviewStatus::Ready(p.name.clone())
            }
        },
        None => PreviewStatus::Identifying,
    };
    Some(PreviewDisplay { place_id: place, show_thumbnail, status })
}

/// The format dates are shown in.
pub open spec fn date_format() -> Seq<char> {
    "%Y-%m-%d %H:%M UTC"@
}

/// An instant in the format dates are shown in.
fn format_date(t: UtcInstant) -> (s: Option<String>)
    ensures
        match s {
            Some(x) => utc_format_text(t.secs, t.nanos, date_format()) == Some(x@),
            None => utc_format_text(t.secs, t.nanos, date_format()) is None,
        },
{
    format_utc(t, "%Y-%m-%d %H:%M UTC")
}

/// `prefix` followed by the date of `t`, when the date can be written.
pub open spec fn dated_line(prefix: Seq<char>, t: UtcInstant) -> Option<Seq<char>> {
    match utc_format_text(t.secs, t.nanos, date_format()) {
        Some(d) => Some(prefix + d),
        None => None,
    }
}

fn dated_line_exec(prefix: &str, t: UtcInstant) -> (line: Option<String>)
    ensures
        match dated_line(prefix@, t) {
            Some(l) => line matches Some(x) && x@ == l,
            None => line is None,
        },
{
    match format_date(t) {
        Some(d) => {
            let mut l = String::from_str(prefix);
            l.append(d.as_str());
            Some(l)
        },
        None => None,
    }
}

/// Dates are shown year first, then month, then day, then hours and minutes
/// in UTC ("2030-03-15 00:00 UTC"): the expiry and check lines of the
/// moderation banner write their instant in exactly that format.
pub proof fn lemma_dates_shown_year_month_day(m: ModerationInfo)
    ensures
        date_format() == "%Y"@ + "-"@ + "%m"@ + "-"@ + "%d"@ + " "@ + "%H"@ + ":"@ + "%M"@ + " UTC"@,
        m.expires_at matches Some(t) ==> banner_expiry_line(m) == match utc_format_text(
            t.secs,
            t.nanos,
            "%Y-%m-%d %H:%M UTC"@,
        ) {
            Some(d) => Some("Expires: "@ + d),
            None => None::<Seq<char>>,
        },
        m.last_checked matches Some(t) ==> banner_checked_line(m) == match utc_format_text(
            t.secs,
            t.nanos,
            "%Y-%m-%d %H:%M UTC"@,
        ) {
            Some(d) => Some("Checked: "@ + d),
            None => None::<Seq<char>>,
        },
{
    reveal_strlit("%Y-%m-%d %H:%M UTC");
    reveal_strlit("%Y");
    reveal_strlit("-");
    reveal_strlit("%m");
    reveal_strlit("%d");
    reveal_strlit(" ");
    reveal_strlit("%H");
    reveal_strlit(":");
    reveal_strlit("%M");
    reveal_strlit(" UTC");
    assert(date_format() =~= "%Y"@ + "-"@ + "%m"@ + "-"@ + "%d"@ + " "@ + "%H"@ + ":"@ + "%M"@ + " UTC"@);
}

/// The banner shown above the launch card of a moderated account.
pub struct ModerationBanner {
    /// The account is terminated (else only moderated).
    pub banned: bool,
    pub title: String,
    /// The moderation message, when known.
    pub reason: Option<String>,
    /// When the restriction ends, or that it is permanent.
    pub expiry_line: Option<String>,
    /// When the moderation was last checked.
    pub checked_line: Option<String>,
}

/// The title of the moderation banner.
pub open spec fn banner_title(banned: bool) -> Seq<char> {
    if banned {
        "\u{26a0} Account terminated"@
    } else {
        "\u{26a0} Account moderated"@
    }
}

/// The expiry line of the moderation banner.
pub open spec fn banner_expiry_line(m: ModerationInfo) -> Option<Seq<char>> {
    match m.expires_at {
        Some(t) => dated_line("Expires: "@, t),
        None => if m.is_banned {
            Some("Permanent termination."@)
        } else {
            None
        },
    }
}

/// The line of the moderation banner saying when it was last checked.
pub open spec fn banner_checked_line(m: ModerationInfo) -> Option<Seq<char>> {
    match m.last_checked {
        Some(t) => dated_line("Checked: "@, t),
        None => None,
    }
}

/// The banner of an account whose moderation is active (banned, or with a
/// known reason); none otherwise.
pub fn moderation_banner(account: &Account) -> (b: Option<ModerationBanner>)
    ensures
        match account.moderation {
            Some(m) if m.is_banned || m.reason is Some => b matches Some(banner) && {
                &&& banner.banned == m.is_banned
                &&& banner.title@ == banner_title(m.is_banned)
                &&& banner.reason == m.reason
                &&& match banner_expiry_line(m) {
                    Some(line) => banner.expiry_line matches Some(l) && l@ == line,
                    None => banner.expiry_line is None,
                }
                &&& match banner_checked_line(m) {
                    Some(line) => banner.checked_line matches Some(l) && l@ == line,
                    None => banner.checked_line is None,
                }
            },
            _ => b is None,
        },
{
    let m = match &account.moderation {
        Some(m) => m,
        None => {
            return None;
        },
    };
    if !m.is_active() {
        return None;
    }
    let title = if m.is_banned {
        String::from_str("\u{26a0} Account terminated")
    } else {
        String::from_str("\u{26a0} Account moderated")
    };
    let reason = match &m.reason {
        Some(r) => Some(r.clone()),
        None => None,
    };
    let expiry_line = match m.expires_at {
        Some(t) => dated_line_exec("Expires: ", t),
        None => if m.is_banned {
            Some(String::from_str("Permanent termination."))
        } else {
            None
        },
    };
    let checked_line = match m.last_checked {
        Some(t) => dated_line_exec("Checked: ", t),
        None => None,
    };
    Some(ModerationBanner { banned: m.is_banned, title, reason, expiry_line, checked_line })
}

/// How long ago a validation may be before it is shown as stale: more than
/// 24 whole hours, in seconds.
pub const STALE_VALIDATION_SECS: i64 = 90_000;

/// The "Validated" row of the details card: when the account was last
/// validated, and whether that is more than 24 whole hours before `now`;
/// none when it never was, or its date cannot be written.
pub fn validation_row(account: &Account, now: UtcInstant) -> (row: Option<(String, bool)>)
    ensures
        match account.last_validated {
            Some(t) => match utc_format_text(t.secs, t.nanos, date_format()) {
                Some(d) => row matches Some((text, stale)) && text@ == d && stale == (
                nanos_between(t, now) >= STALE_VALIDATION_SECS * 1_000_000_000),
                None => row is None,
            },
            None => row is None,
        },
{
    match account.last_validated {
        Some(t) => match format_date(t) {
            Some(text) => {
                let mut age: i128 = (now.secs as i128 - t.secs as i128) * 1_000_000_000
                    + (now.nanos as i128 - t.nanos as i128);
                let tod_now = time_of_day(now.secs);
                let tod_t = time_of_day(t.secs);
                if tod_now > tod_t && t.nanos >= 1_000_000_000 {
                    age = age + 1_000_000_000;
                } else if tod_now < tod_t && now.nanos >= 1_000_000_000 {
                    age = age - 1_000_000_000;
                }
                let stale = age >= STALE_VALIDATION_SECS as i128 * 1_000_000_000;
                Some((text, stale))
            },
            None => None,
        },
        None => None,
    }
}

/// The cookie-expired warning of the details card is shown when the cookie
/// expired and no active moderation banner already explains it.
pub fn cookie_warning_shown(account: &Account) -> (b: bool)
    ensures
        b == (account.cookie_expired && !(account.moderation matches Some(m) && (m.is_banned
            || m.reason is Some))),
{
    let moderated = match &account.moderation {
        Some(m) => m.is_active(),
        None => false,
    };
    account.cookie_expired && !moderated
}

} // verus!
