//! The state of the logbook session and how each user action changes it.
//!
//! Each method takes what the action carries, and where the action involves
//! the database or a window, what that work returned; the caller performs
//! that work in between, as the methods' documentation says.

use vstd::prelude::*;

use crate::config::{AppConfig, Language};
use crate::i18n::Translations;
use crate::models::log::{Log, LogKind};
use crate::models::qso::Qso;
use crate::text::{
    eq_ignore_ascii_case, eq_ignore_ascii_case_spec, to_uppercase, trim, trim_spec, uppercase_of,
};
use crate::theme::AppTheme;
use crate::ui::bar::{BackgroundStatus, ConnState};
use crate::ui::settings::{first_matching, all_pages, SettingsPage};

verus! {

/// The default signal report for a mode: `599` for CW (in any letter case),
/// `59` for every other mode.
pub open spec fn default_rst_spec(mode: Seq<char>) -> Seq<char> {
    if eq_ignore_ascii_case_spec(mode, "CW"@) {
        "599"@
    } else {
        "59"@
    }
}

/// The default signal report for `mode`: `599` for CW, `59` otherwise.
pub fn default_rst_for_mode(mode: &str) -> (r: &'static str)
    ensures
        r@ == default_rst_spec(mode@),
{
    if eq_ignore_ascii_case(mode, "CW") {
        "599"
    } else {
        "59"
    }
}

/// A report field and its "filled in by default, untouched" flag after the
/// callsign changed: cleared when the callsign became empty and the report
/// was a default; set to `default` when the callsign is not empty and the
/// field is empty and was not filled in by default; otherwise unchanged.
pub open spec fn rst_after_callsign(
    callsign_empty: bool,
    rst: Seq<char>,
    autofilled: bool,
    default: Seq<char>,
) -> (Seq<char>, bool) {
    if callsign_empty {
        if autofilled {
            (Seq::<char>::empty(), false)
        } else {
            (rst, autofilled)
        }
    } else if rst.len() == 0 && !autofilled {
        (default, true)
    } else {
        (rst, autofilled)
    }
}

/// The contact entry row of the main window.
#[derive(Debug)]
pub struct EntryForm {
    pub callsign: String,
    /// Frequency in Hz, shown as `MHz.kHz.Hz`.
    pub frequency: u64,
    pub mode: String,
    pub rst_sent: String,
    pub rst_rcvd: String,
    pub locator: String,
    /// Whether `rst_sent` holds a default that the operator has not touched.
    pub rst_sent_autofilled: bool,
    /// Whether `rst_rcvd` holds a default that the operator has not touched.
    pub rst_rcvd_autofilled: bool,
}

impl Default for EntryForm {
    fn default() -> (f: Self)
        ensures
            f.callsign@ == Seq::<char>::empty(),
            f.frequency == 14_200_000,
            f.mode@ == "SSB"@,
            f.rst_sent@ == Seq::<char>::empty(),
            f.rst_rcvd@ == Seq::<char>::empty(),
            f.locator@ == Seq::<char>::empty(),
            !f.rst_sent_autofilled,
            !f.rst_rcvd_autofilled,
    {
        EntryForm {
            callsign: String::new(),
            frequency: 14_200_000,
            mode: String::from_str("SSB"),
            rst_sent: String::new(),
            rst_rcvd: String::new(),
            locator: String::new(),
            rst_sent_autofilled: false,
            rst_rcvd_autofilled: false,
        }
    }
}

impl EntryForm {
    /// Whether `self` is `prev` after the callsign field was set to `upper`
    /// (already upper-cased): the reports as `rst_after_callsign` says, the
    /// rest unchanged.
    pub open spec fn after_entered_callsign(self, prev: EntryForm, upper: Seq<char>) -> bool {
        &&& self.callsign@ == upper
        &&& self.frequency == prev.frequency
        &&& self.mode == prev.mode
        &&& self.locator == prev.locator
        &&& (self.rst_sent@, self.rst_sent_autofilled) == rst_after_callsign(
            upper.len() == 0,
            prev.rst_sent@,
            prev.rst_sent_autofilled,
            default_rst_spec(prev.mode@),
        )
        &&& (self.rst_rcvd@, self.rst_rcvd_autofilled) == rst_after_callsign(
            upper.len() == 0,
            prev.rst_rcvd@,
            prev.rst_rcvd_autofilled,
            default_rst_spec(prev.mode@),
        )
    }

    /// Whether `self` is `prev` after `input` was typed into the callsign
    /// field: the callsign upper-cased, then as `after_entered_callsign`.
    pub open spec fn after_callsign(self, prev: EntryForm, input: Seq<char>) -> bool {
        self.after_entered_callsign(prev, uppercase_of(input))
    }

    /// Whether each report marked as a default holds the mode's default.
    /// Every step that changes the entry row keeps this, and the row starts
    /// and ends each save with it.
    pub open spec fn defaults_consistent(self) -> bool {
        &&& self.rst_sent_autofilled ==> self.rst_sent@ == default_rst_spec(self.mode@)
        &&& self.rst_rcvd_autofilled ==> self.rst_rcvd@ == default_rst_spec(self.mode@)
    }

    /// The operator typed `input` into the callsign field. The callsign is
    /// kept upper-cased. Once it is not empty, each empty report field that
    /// was not filled in by default gets the mode's default report; once it
    /// is empty again, reports still holding an untouched default are
    /// cleared.
    pub fn set_callsign(&mut self, input: &str)
        ensures
            old(self).defaults_consistent() ==> final(self).defaults_consistent(),
            final(self).after_callsign(*old(self), input@),
    {
        let upper = to_uppercase(input);
        self.enter_callsign(upper);
    }

    /// The callsign field now holds `upper`, the upper-cased text the
    /// operator typed. Once it is not empty, each empty report field that
    /// was not filled in by default gets the mode's default report; once it
    /// is empty again, reports still holding an untouched default are
    /// cleared.
    pub fn enter_callsign(&mut self, upper: String)
        ensures
            old(self).defaults_consistent() ==> final(self).defaults_consistent(),
            final(self).after_entered_callsign(*old(self), upper@),
    {
        self.callsign = upper;
        if self.callsign.unicode_len() == 0 {
            if self.rst_sent_autofilled {
                self.rst_sent = String::new();
                self.rst_sent_autofilled = false;
            }
            if self.rst_rcvd_autofilled {
                self.rst_rcvd = String::new();
                self.rst_rcvd_autofilled = false;
            }
        } else {
            let default = default_rst_for_mode(self.mode.as_str());
            if self.rst_sent.unicode_len() == 0 && !self.rst_sent_autofilled {
                self.rst_sent = String::from_str(default);
                self.rst_sent_autofilled = true;
            }
            if self.rst_rcvd.unicode_len() == 0 && !self.rst_rcvd_autofilled {
                self.rst_rcvd = String::from_str(default);
                self.rst_rcvd_autofilled = true;
            }
        }
    }

    /// The operator edited the sent report: it is theirs now, not a default.
    pub fn set_rst_sent(&mut self, value: String)
        ensures
            old(self).defaults_consistent() ==> final(self).defaults_consistent(),
            *final(self) == (EntryForm { rst_sent: value, rst_sent_autofilled: false, ..*old(self) }),
    {
        self.rst_sent = value;
        self.rst_sent_autofilled = false;
    }

    /// The operator edited the received report: it is theirs now.
    pub fn set_rst_rcvd(&mut self, value: String)
        ensures
            old(self).defaults_consistent() ==> final(self).defaults_consistent(),
            *final(self) == (EntryForm { rst_rcvd: value, rst_rcvd_autofilled: false, ..*old(self) }),
    {
        self.rst_rcvd = value;
        self.rst_rcvd_autofilled = false;
    }

    /// The operator typed `input` into the locator field; it is kept
    /// upper-cased.
    pub fn set_locator(&mut self, input: &str)
        ensures
            old(self).defaults_consistent() ==> final(self).defaults_consistent(),
            final(self).locator@ == uppercase_of(input@),
            *final(self) == (EntryForm { locator: final(self).locator, ..*old(self) }),
    {
        self.locator = to_uppercase(input);
    }

    /// Whether a contact built from this form would have `q`'s fields: the
    /// trimmed callsign and locator, the form's frequency, mode and reports,
    /// and no id.
    pub open spec fn describes(self, q: Qso) -> bool {
        &&& q.id.is_none()
        &&& q.callsign@ == trim_spec(self.callsign@)
        &&& q.frequency == self.frequency
        &&& q.mode@ == self.mode@
        &&& q.rst_sent@ == self.rst_sent@
        &&& q.rst_rcvd@ == self.rst_rcvd@
        &&& q.locator@ == trim_spec(self.locator@)
    }

    /// The contact to store when the operator presses Save: none while the
    /// trimmed callsign is empty, otherwise one made now from the form.
    pub fn qso_to_save(&self) -> (q: Option<Qso>)
        ensures
            q.is_none() == (trim_spec(self.callsign@).len() == 0),
            q.is_some() ==> self.describes(q.unwrap()),
    {
        let callsign = trim(self.callsign.as_str());
        if callsign.unicode_len() == 0 {
            return None;
        }
        Some(
            Qso::new_now(
                callsign,
                self.frequency,
                self.mode.clone(),
                self.rst_sent.clone(),
                self.rst_rcvd.clone(),
                trim(self.locator.as_str()),
            ),
        )
    }

    /// After a contact was stored: the callsign, locator and both reports
    /// are cleared and no report counts as a default; frequency and mode
    /// stay.
    pub fn clear_after_save(&mut self)
        ensures
            final(self).defaults_consistent(),
            final(self).callsign@ == Seq::<char>::empty(),
            final(self).locator@ == Seq::<char>::empty(),
            final(self).rst_sent@ == Seq::<char>::empty(),
            final(self).rst_rcvd@ == Seq::<char>::empty(),
            !final(self).rst_sent_autofilled,
            !final(self).rst_rcvd_autofilled,
            final(self).frequency == old(self).frequency,
            final(self).mode == old(self).mode,
    {
        self.callsign = String::new();
        self.locator = String::new();
        self.rst_sent = String::new();
        self.rst_rcvd = String::new();
        self.rst_sent_autofilled = false;
        self.rst_rcvd_autofilled = false;
    }
}

/// The contact that Save stores from the entry row carries each field from
/// the form field of the same name: the sent report from the sent field, the
/// received report from the received field, the mode and frequency as shown,
/// the callsign and locator trimmed, and no id yet.
pub proof fn lemma_saved_contact_fields(form: EntryForm, q: Qso)
    requires
        form.describes(q),
    ensures
        q.id.is_none(),
        q.callsign@ == trim_spec(form.callsign@),
        q.frequency == form.frequency,
        q.mode@ == form.mode@,
        q.rst_sent@ == form.rst_sent@,
        q.rst_rcvd@ == form.rst_rcvd@,
        q.locator@ == trim_spec(form.locator@),
{
}

/// A rename of a logbook in progress.
#[derive(Debug)]
pub struct LogRenameDraft {
    pub id: i64,
    pub name: String,
}

impl Clone for LogRenameDraft {
    fn clone(&self) -> (d: Self)
        ensures
            d == *self,
    {
        LogRenameDraft { id: self.id, name: self.name.clone() }
    }
}

/// The windows of the application.
#[derive(Debug, Clone, Copy, PartialEq, Eq, Structural)]
pub enum WindowKind {
    Main,
    Log,
    Settings,
    Logbook,
}

impl WindowKind {
    /// The message id of the window's title.
    pub open spec fn title_key_spec(self) -> Seq<char> {
        match self {
            WindowKind::Main => "window-title-app"@,
            WindowKind::Log => "window-title-log"@,
            WindowKind::Settings => "window-title-settings"@,
            WindowKind::Logbook => "window-title-logbook"@,
        }
    }

    /// The message id of the window's title.
    pub fn title_key(self) -> (s: &'static str)
        ensures
            s@ == self.title_key_spec(),
    {
        match self {
            WindowKind::Main => "window-title-app",
            WindowKind::Log => "window-title-log",
            WindowKind::Settings => "window-title-settings",
            WindowKind::Logbook => "window-title-logbook",
        }
    }
}

/// What the caller does after a window closed.
#[derive(Debug, Clone, Copy, PartialEq, Eq, Structural)]
pub enum AfterClose {
    /// The main window closed: the application exits.
    Exit,
    /// The settings window closed: the saved language applies again.
    ApplyLanguage(Language),
    Nothing,
}

/// The id of the first active logbook in `logs`.
pub open spec fn first_active_id(logs: Seq<Log>) -> Option<i64>
    decreases logs.len(),
{
    if logs.len() == 0 {
        None
    } else if logs[0].is_active {
        Some(logs[0].id)
    } else {
        first_active_id(logs.drop_first())
    }
}

/// The logbook to work in: the first active one, else the first one, else
/// id 0 when there is none.
pub open spec fn preferred_log_id(logs: Seq<Log>) -> i64 {
    match first_active_id(logs) {
        Some(id) => id,
        None => if logs.len() > 0 {
            logs[0].id
        } else {
            0
        },
    }
}

/// Whether some logbook in `logs` has id `id`.
pub open spec fn has_log(logs: Seq<Log>, id: i64) -> bool {
    exists|i: int| 0 <= i < logs.len() && (#[trigger] logs[i]).id == id
}

/// The first active logbook is a listed logbook.
pub proof fn lemma_first_active_listed(logs: Seq<Log>)
    ensures
        first_active_id(logs).is_some() ==> has_log(logs, first_active_id(logs).unwrap()),
    decreases logs.len(),
{
    if logs.len() > 0 && !logs[0].is_active {
        lemma_first_active_listed(logs.drop_first());
        if first_active_id(logs).is_some() {
            let i = choose|i: int|
                0 <= i < logs.drop_first().len() && (#[trigger] logs.drop_first()[i]).id
                    == first_active_id(logs).unwrap();
            assert(logs[i + 1] == logs.drop_first()[i]);
        }
    } else if logs.len() > 0 {
        assert(logs[0].id == first_active_id(logs).unwrap());
    }
}

/// The preferred logbook is listed whenever any logbook is.
pub proof fn lemma_preferred_listed(logs: Seq<Log>)
    ensures
        logs.len() > 0 ==> has_log(logs, preferred_log_id(logs)),
        logs.len() == 0 ==> preferred_log_id(logs) == 0,
{
    lemma_first_active_listed(logs);
    if logs.len() > 0 && first_active_id(logs).is_none() {
        assert(logs[0].id == preferred_log_id(logs));
    }
}

/// The logbook to work in among `logs`.
pub fn preferred_log(logs: &Vec<Log>) -> (id: i64)
    ensures
        id == preferred_log_id(logs@),
{
    let mut i: usize = 0;
    assert(logs@.skip(0) =~= logs@);
    while i < logs.len()
        invariant
            i <= logs@.len(),
            first_active_id(logs@) == first_active_id(logs@.skip(i as int)),
        decreases logs@.len() - i,
    {
        let ghost rest = logs@.skip(i as int);
        assert(rest.drop_first() =~= logs@.skip(i + 1));
        assert(rest[0] == logs@[i as int]);
        if logs[i].is_active {
            return logs[i].id;
        }
        i = i + 1;
    }
    assert(logs@.skip(i as int).len() == 0);
    if logs.len() > 0 {
        logs[0].id
    } else {
        0
    }
}

/// Whether some logbook in `logs` has id `id`.
pub fn contains_log(logs: &Vec<Log>, id: i64) -> (b: bool)
    ensures
        b == has_log(logs@, id),
{
    let mut i: usize = 0;
    while i < logs.len()
        invariant
            i <= logs@.len(),
            forall|j: int| 0 <= j < i ==> (#[trigger] logs@[j]).id != id,
        decreases logs@.len() - i,
    {
        if logs[i].id == id {
            return true;
        }
        i = i + 1;
    }
    false
}

/// Whether `i` is the position of the first logbook in `logs` with id `id`.
pub open spec fn is_first_log_index(logs: Seq<Log>, id: i64, i: int) -> bool {
    &&& 0 <= i < logs.len()
    &&& logs[i].id == id
    &&& forall|j: int| 0 <= j < i ==> (#[trigger] logs[j]).id != id
}

/// The position of the first logbook in `logs` with id `id`.
pub fn find_log(logs: &Vec<Log>, id: i64) -> (r: Option<usize>)
    ensures
        r.is_some() ==> is_first_log_index(logs@, id, r.unwrap() as int),
        r.is_none() ==> !has_log(logs@, id),
{
    let mut i: usize = 0;
    while i < logs.len()
        invariant
            i <= logs@.len(),
            forall|j: int| 0 <= j < i ==> (#[trigger] logs@[j]).id != id,
        decreases logs@.len() - i,
    {
        if logs[i].id == id {
            return Some(i);
        }
        i = i + 1;
    }
    None
}

/// The contacts of `qsos` without the one with id `id`, in order.
pub open spec fn without_qso(qsos: Seq<Qso>, id: i64) -> Seq<Qso> {
    qsos.filter(|q: Qso| q.id != Some(id))
}

/// The active logbook after the logbooks were listed again as `logs`: the
/// previous one while it is listed, else the preferred one among `logs`.
pub open spec fn active_after_reload(logs: Seq<Log>, previous: i64) -> i64 {
    if has_log(logs, previous) {
        previous
    } else {
        preferred_log_id(logs)
    }
}

/// After listing the logbooks again, the active logbook is a listed one
/// whenever any is listed, and id 0 otherwise.
pub proof fn lemma_active_log_listed(logs: Seq<Log>, previous: i64)
    ensures
        logs.len() > 0 ==> has_log(logs, active_after_reload(logs, previous)),
        logs.len() == 0 ==> active_after_reload(logs, previous) == 0,
{
    lemma_preferred_listed(logs);
}

/// The settings page shown after the trimmed search query became `q`: the
/// current one unless `q` is not empty and hides it, in which case the
/// first page listed for `q`, if there is one.
pub open spec fn page_after_search(current: SettingsPage, q: Seq<char>, tr: Translations) -> SettingsPage {
    if q.len() > 0 && !current.matches_spec(q, tr) && first_matching(all_pages(), q, tr).is_some() {
        first_matching(all_pages(), q, tr).unwrap()
    } else {
        current
    }
}

/// The first matching page matches.
pub proof fn lemma_first_matching_matches(pages: Seq<SettingsPage>, q: Seq<char>, tr: Translations)
    ensures
        first_matching(pages, q, tr).is_some() ==> first_matching(pages, q, tr).unwrap().matches_spec(q, tr),
    decreases pages.len(),
{
    if pages.len() > 0 && !pages[0].matches_spec(q, tr) {
        lemma_first_matching_matches(pages.drop_first(), q, tr);
    }
}

/// Whenever the sidebar lists any page for the query, the page the settings
/// show after the query changed is one the sidebar lists: the content never
/// shows a hidden page.
pub proof fn lemma_search_shows_listed_page(current: SettingsPage, q: Seq<char>, tr: Translations)
    requires
        exists|i: int| 0 <= i < all_pages().len() && (#[trigger] all_pages()[i]).matches_spec(q, tr),
    ensures
        page_after_search(current, q, tr).matches_spec(q, tr),
{
    lemma_first_matching_matches(all_pages(), q, tr);
    if q.len() > 0 && !current.matches_spec(q, tr) {
        lemma_first_matching_some(all_pages(), q, tr);
    }
}

/// Some page of `pages` matching makes `first_matching` find one.
pub proof fn lemma_first_matching_some(pages: Seq<SettingsPage>, q: Seq<char>, tr: Translations)
    requires
        exists|i: int| 0 <= i < pages.len() && (#[trigger] pages[i]).matches_spec(q, tr),
    ensures
        first_matching(pages, q, tr).is_some(),
    decreases pages.len(),
{
    if !pages[0].matches_spec(q, tr) {
        let i = choose|i: int| 0 <= i < pages.len() && (#[trigger] pages[i]).matches_spec(q, tr);
        assert(pages.drop_first()[i - 1] == pages[i]);
        lemma_first_matching_some(pages.drop_first(), q, tr);
    }
}

/// A search change keeps the current page whenever the sidebar still lists
/// it for the trimmed query (an empty query lists every page); otherwise the
/// page becomes the first page listed, or stays when none is listed.
pub proof fn lemma_search_keeps_listed_page(current: SettingsPage, q: Seq<char>, tr: Translations)
    ensures
        current.matches_spec(q, tr) ==> page_after_search(current, q, tr) == current,
        q.len() == 0 ==> page_after_search(current, q, tr) == current,
        !current.matches_spec(q, tr) && first_matching(all_pages(), q, tr).is_some()
            ==> page_after_search(current, q, tr) == first_matching(all_pages(), q, tr).unwrap()
            && page_after_search(current, q, tr).matches_spec(q, tr),
        first_matching(all_pages(), q, tr).is_none() ==> page_after_search(current, q, tr) == current,
{
    lemma_first_matching_matches(all_pages(), q, tr);
}

/// The selection after a click on contact `id`: it toggles.
pub open spec fn selection_after_click(selected: Option<i64>, id: i64) -> Option<i64> {
    if selected == Some(id) {
        None
    } else {
        Some(id)
    }
}

/// Clicking the same contact twice restores the selection.
pub proof fn lemma_click_twice_restores(selected: Option<i64>, id: i64)
    requires
        selected.is_none() || selected == Some(id),
    ensures
        selection_after_click(selection_after_click(selected, id), id) == selected,
{
}

/// Typing a non-empty callsign leaves both reports filled in (with the
/// mode's default where the operator had not typed one); typing an empty
/// one leaves no report marked as a default. Each keeps defaults marked
/// only where they hold the default.
pub proof fn lemma_callsign_reports(prev: EntryForm, next: EntryForm, input: Seq<char>)
    requires
        prev.defaults_consistent(),
        next.after_callsign(prev, input),
    ensures
        next.defaults_consistent(),
        uppercase_of(input).len() > 0 ==> next.rst_sent@.len() > 0 && next.rst_rcvd@.len() > 0,
        uppercase_of(input).len() == 0 ==> !next.rst_sent_autofilled && !next.rst_rcvd_autofilled,
{
    reveal_strlit("59");
    reveal_strlit("599");
}

/// Everything the logbook session holds apart from the database connection,
/// the window handles, the pointer position and the clock.
#[derive(Debug)]
pub struct Session {
    pub entry: EntryForm,
    /// The configuration last loaded or saved: it changes only once a save
    /// succeeded (`settings_saved`).
    pub config: AppConfig,
    /// The copy the settings window edits.
    pub settings_draft: AppConfig,
    pub settings_active_page: SettingsPage,
    /// The settings search query as typed; empty means no filter.
    pub settings_search: String,
    /// Every logbook, oldest first.
    pub logs: Vec<Log>,
    /// The logbook that new contacts go into and the log window shows.
    pub active_log_id: i64,
    /// The contacts of the active logbook, newest first.
    pub qsos: Vec<Qso>,
    pub selected_qso_id: Option<i64>,
    /// The contact whose context menu is open, if one is.
    pub context_menu_qso: Option<i64>,
    pub bg_status: BackgroundStatus,
    pub log_rename_draft: Option<LogRenameDraft>,
    pub new_log_name: String,
    pub new_log_kind: LogKind,
    pub log_window_open: bool,
    pub settings_window_open: bool,
    pub logbook_window_open: bool,
    pub main_maximized: bool,
    pub log_maximized: bool,
    pub settings_maximized: bool,
    pub logbook_maximized: bool,
}

impl Session {
    /// Whether `kind` is maximized.
    pub open spec fn maximized(self, kind: WindowKind) -> bool {
        match kind {
            WindowKind::Main => self.main_maximized,
            WindowKind::Log => self.log_maximized,
            WindowKind::Settings => self.settings_maximized,
            WindowKind::Logbook => self.logbook_maximized,
        }
    }

    /// The session at start-up: the given configuration and logbooks, the
    /// preferred logbook active, no contacts loaded yet (load them for
    /// `active_log_id` and pass them to `qsos_reloaded`), only the main
    /// window open.
    pub fn new(config: AppConfig, logs: Vec<Log>) -> (s: Session)
        ensures
            s.entry.defaults_consistent(),
            s.config == config,
            s.settings_draft == config,
            s.logs == logs,
            s.active_log_id == preferred_log_id(logs@),
            s.qsos@.len() == 0,
            s.selected_qso_id.is_none(),
            s.context_menu_qso.is_none(),
            s.settings_active_page == SettingsPage::Operator,
            s.settings_search@.len() == 0,
            s.log_rename_draft.is_none(),
            s.new_log_name@.len() == 0,
            s.new_log_kind == LogKind::General,
            !s.log_window_open && !s.settings_window_open && !s.logbook_window_open,
            !s.main_maximized && !s.log_maximized && !s.settings_maximized && !s.logbook_maximized,
            s.entry.callsign@.len() == 0,
            s.entry.frequency == 14_200_000,
            s.entry.mode@ == "SSB"@,
            s.entry.rst_sent@.len() == 0,
            s.entry.rst_rcvd@.len() == 0,
            s.entry.locator@.len() == 0,
            !s.entry.rst_sent_autofilled,
            !s.entry.rst_rcvd_autofilled,
            s.bg_status == (BackgroundStatus {
                tci: ConnState::Disconnected,
                cluster: ConnState::Disconnected,
                qrz: ConnState::Disconnected,
                sync: ConnState::Disconnected,
            }),
    {
        let active_log_id = preferred_log(&logs);
        let settings_draft = config.clone();
        Session {
            entry: EntryForm::default(),
            config,
            settings_draft,
            settings_active_page: SettingsPage::default(),
            settings_search: String::new(),
            logs,
            active_log_id,
            qsos: Vec::new(),
            selected_qso_id: None,
            context_menu_qso: None,
            bg_status: BackgroundStatus::default(),
            log_rename_draft: None,
            new_log_name: String::new(),
            new_log_kind: LogKind::default(),
            log_window_open: false,
            settings_window_open: false,
            logbook_window_open: false,
            main_maximized: false,
            log_maximized: false,
            settings_maximized: false,
            logbook_maximized: false,
        }
    }

    /// The logbooks were listed again (`None`: listing failed and the old
    /// list stays). The active logbook stays if it is still listed; else
    /// the preferred one among the list becomes active.
    pub fn logs_reloaded(&mut self, listed: Option<Vec<Log>>)
        ensures
            listed.is_some() ==> final(self).logs == listed.unwrap(),
            listed.is_none() ==> final(self).logs == old(self).logs,
            final(self).active_log_id == active_after_reload(
                final(self).logs@,
                old(self).active_log_id,
            ),
            *final(self) == (Session {
                logs: final(self).logs,
                active_log_id: final(self).active_log_id,
                ..*old(self)
            }),
    {
        if let Some(list) = listed {
            self.logs = list;
        }
        if !contains_log(&self.logs, self.active_log_id) {
            self.active_log_id = preferred_log(&self.logs);
        }
    }

    /// The active logbook's contacts were listed again (`None`: listing
    /// failed and no contact is shown).
    pub fn qsos_reloaded(&mut self, listed: Option<Vec<Qso>>)
        ensures
            listed.is_some() ==> final(self).qsos == listed.unwrap(),
            listed.is_none() ==> final(self).qsos@.len() == 0,
            *final(self) == (Session { qsos: final(self).qsos, ..*old(self) }),
    {
        match listed {
            Some(list) => {
                self.qsos = list;
            },
            None => {
                self.qsos = Vec::new();
            },
        }
    }

    /// Whether making `id` the active logbook needs any work: not when it
    /// already is.
    pub fn switch_needed(&self, id: i64) -> (b: bool)
        ensures
            b == (id != self.active_log_id),
    {
        id != self.active_log_id
    }

    /// The database made `id` the active logbook and the logbooks were
    /// listed again (`listed`). Selection and context menu are dropped.
    /// Afterwards list the contacts of `active_log_id` and pass them to
    /// `qsos_reloaded`.
    pub fn log_activated(&mut self, id: i64, listed: Option<Vec<Log>>)
        ensures
            listed.is_some() ==> final(self).logs == listed.unwrap(),
            listed.is_none() ==> final(self).logs == old(self).logs,
            final(self).active_log_id == active_after_reload(final(self).logs@, id),
            final(self).selected_qso_id.is_none(),
            final(self).context_menu_qso.is_none(),
            *final(self) == (Session {
                logs: final(self).logs,
                active_log_id: final(self).active_log_id,
                selected_qso_id: None,
                context_menu_qso: None,
                ..*old(self)
            }),
    {
        self.active_log_id = id;
        self.logs_reloaded(listed);
        self.selected_qso_id = None;
        self.context_menu_qso = None;
    }

    /// The operator typed into the callsign field.
    pub fn entry_callsign_changed(&mut self, input: &str)
        ensures
            old(self).entry.defaults_consistent() ==> final(self).entry.defaults_consistent(),
            final(self).callsign_field_after(*old(self), input@),
    {
        self.entry.set_callsign(input);
    }

    /// How the session looks after `input` was typed into the callsign
    /// field of `prev`: as `EntryForm::set_callsign` says, nothing else
    /// changed.
    pub open spec fn callsign_field_after(self, prev: Session, input: Seq<char>) -> bool {
        &&& self.entry.after_callsign(prev.entry, input)
        &&& self == (Session { entry: self.entry, ..prev })
    }

    /// The contact to insert into the active logbook when Save is pressed
    /// (see `EntryForm::qso_to_save`). After inserting it, list the active
    /// logbook's contacts; when both succeed pass them to `entry_saved`.
    pub fn entry_save_request(&self) -> (q: Option<Qso>)
        ensures
            q.is_none() == (trim_spec(self.entry.callsign@).len() == 0),
            q.is_some() ==> self.entry.describes(q.unwrap()),
    {
        self.entry.qso_to_save()
    }

    /// The contact was stored and the logbook's contacts listed again: they
    /// are shown and the entry row is cleared.
    pub fn entry_saved(&mut self, listed: Vec<Qso>)
        ensures
            final(self).entry.defaults_consistent(),
            final(self).qsos == listed,
            final(self).entry.callsign@.len() == 0,
            final(self).entry.locator@.len() == 0,
            final(self).entry.rst_sent@.len() == 0,
            final(self).entry.rst_rcvd@.len() == 0,
            !final(self).entry.rst_sent_autofilled,
            !final(self).entry.rst_rcvd_autofilled,
            final(self).entry.frequency == old(self).entry.frequency,
            final(self).entry.mode == old(self).entry.mode,
            *final(self) == (Session {
                qsos: final(self).qsos,
                entry: final(self).entry,
                ..*old(self)
            }),
    {
        self.qsos = listed;
        self.entry.clear_after_save();
    }

    /// Whether the log window is to be opened: not when it is open already.
    pub fn open_log_window(&mut self) -> (open: bool)
        ensures
            open == !old(self).log_window_open,
            final(self).log_window_open,
            *final(self) == (Session { log_window_open: true, ..*old(self) }),
    {
        if self.log_window_open {
            return false;
        }
        self.log_window_open = true;
        true
    }

    /// Whether the settings window is to be opened. Opening starts the draft
    /// afresh from the saved configuration, on the first page, with no
    /// search.
    pub fn open_settings_window(&mut self) -> (open: bool)
        ensures
            open == !old(self).settings_window_open,
            !open ==> *final(self) == *old(self),
            open ==> *final(self) == (Session {
                settings_window_open: true,
                settings_draft: old(self).config,
                settings_active_page: SettingsPage::Operator,
                settings_search: final(self).settings_search,
                ..*old(self)
            }) && final(self).settings_search@.len() == 0,
    {
        if self.settings_window_open {
            return false;
        }
        self.settings_draft = self.config.clone();
        self.settings_active_page = SettingsPage::default();
        self.settings_search = String::new();
        self.settings_window_open = true;
        true
    }

    /// Whether the logbook manager is to be opened. Opening drops any rename
    /// in progress and clears the new-logbook form.
    pub fn open_logbook_window(&mut self) -> (open: bool)
        ensures
            open == !old(self).logbook_window_open,
            !open ==> *final(self) == *old(self),
            open ==> *final(self) == (Session {
                logbook_window_open: true,
                log_rename_draft: None,
                new_log_name: final(self).new_log_name,
                new_log_kind: LogKind::General,
                ..*old(self)
            }) && final(self).new_log_name@.len() == 0,
    {
        if self.logbook_window_open {
            return false;
        }
        self.log_rename_draft = None;
        self.new_log_name = String::new();
        self.new_log_kind = LogKind::default();
        self.logbook_window_open = true;
        true
    }

    /// Whether `kind` is maximized.
    pub fn is_maximized(&self, kind: WindowKind) -> (b: bool)
        ensures
            b == self.maximized(kind),
    {
        match kind {
            WindowKind::Main => self.main_maximized,
            WindowKind::Log => self.log_maximized,
            WindowKind::Settings => self.settings_maximized,
            WindowKind::Logbook => self.logbook_maximized,
        }
    }

    /// The maximize button of `kind` was pressed: its state flips; the new
    /// state is returned for the caller to apply.
    pub fn toggle_maximized(&mut self, kind: WindowKind) -> (now: bool)
        ensures
            now == !old(self).maximized(kind),
            final(self).maximized(kind) == now,
            forall|k: WindowKind| k != kind ==> final(self).maximized(k) == old(self).maximized(k),
            *final(self) == (Session {
                main_maximized: final(self).main_maximized,
                log_maximized: final(self).log_maximized,
                settings_maximized: final(self).settings_maximized,
                logbook_maximized: final(self).logbook_maximized,
                ..*old(self)
            }),
    {
        let now = !self.is_maximized(kind);
        match kind {
            WindowKind::Main => {
                self.main_maximized = now;
            },
            WindowKind::Log => {
                self.log_maximized = now;
            },
            WindowKind::Settings => {
                self.settings_maximized = now;
            },
            WindowKind::Logbook => {
                self.logbook_maximized = now;
            },
        }
        now
    }

    /// A window closed. Closing the main window ends the application;
    /// closing another clears its open and maximized state (and, for the
    /// logbook manager, the rename in progress; for settings, the saved
    /// language applies again).
    pub fn window_closed(&mut self, kind: WindowKind) -> (after: AfterClose)
        ensures
            kind == WindowKind::Main ==> after == AfterClose::Exit && *final(self) == *old(self),
            kind == WindowKind::Settings ==> after == AfterClose::ApplyLanguage(
                old(self).config.appearance.language,
            ) && *final(self) == (Session {
                settings_window_open: false,
                settings_maximized: false,
                ..*old(self)
            }),
            kind == WindowKind::Log ==> after == AfterClose::Nothing && *final(self) == (Session {
                log_window_open: false,
                log_maximized: false,
                ..*old(self)
            }),
            kind == WindowKind::Logbook ==> after == AfterClose::Nothing && *final(self) == (
            Session {
                logbook_window_open: false,
                logbook_maximized: false,
                log_rename_draft: None,
                ..*old(self)
            }),
    {
        match kind {
            WindowKind::Main => AfterClose::Exit,
            WindowKind::Settings => {
                self.settings_window_open = false;
                self.settings_maximized = false;
                AfterClose::ApplyLanguage(self.config.appearance.language)
            },
            WindowKind::Log => {
                self.log_window_open = false;
                self.log_maximized = false;
                AfterClose::Nothing
            },
            WindowKind::Logbook => {
                self.logbook_window_open = false;
                self.logbook_maximized = false;
                self.log_rename_draft = None;
                AfterClose::Nothing
            },
        }
    }

    /// The settings callsign field was edited; it is kept upper-cased.
    pub fn settings_callsign_changed(&mut self, input: &str)
        ensures
            final(self).settings_draft.operator.callsign@ == uppercase_of(input@),
            *final(self) == (Session {
                settings_draft: AppConfig {
                    operator: crate::config::OperatorConfig {
                        callsign: final(self).settings_draft.operator.callsign,
                        ..old(self).settings_draft.operator
                    },
                    ..old(self).settings_draft
                },
                ..*old(self)
            }),
    {
        self.settings_draft.operator.callsign = to_uppercase(input);
    }

    /// The settings name field was edited.
    pub fn settings_name_changed(&mut self, value: String)
        ensures
            *final(self) == (Session {
                settings_draft: AppConfig {
                    operator: crate::config::OperatorConfig {
                        name: value,
                        ..old(self).settings_draft.operator
                    },
                    ..old(self).settings_draft
                },
                ..*old(self)
            }),
    {
        self.settings_draft.operator.name = value;
    }

    /// The settings QTH field was edited.
    pub fn settings_qth_changed(&mut self, value: String)
        ensures
            *final(self) == (Session {
                settings_draft: AppConfig {
                    operator: crate::config::OperatorConfig {
                        qth: value,
                        ..old(self).settings_draft.operator
                    },
                    ..old(self).settings_draft
                },
                ..*old(self)
            }),
    {
        self.settings_draft.operator.qth = value;
    }

    /// The settings locator field was edited; it is kept upper-cased.
    pub fn settings_locator_changed(&mut self, input: &str)
        ensures
            final(self).settings_draft.operator.locator@ == uppercase_of(input@),
            *final(self) == (Session {
                settings_draft: AppConfig {
                    operator: crate::config::OperatorConfig {
                        locator: final(self).settings_draft.operator.locator,
                        ..old(self).settings_draft.operator
                    },
                    ..old(self).settings_draft
                },
                ..*old(self)
            }),
    {
        self.settings_draft.operator.locator = to_uppercase(input);
    }

    /// The settings license class field was edited.
    pub fn settings_license_class_changed(&mut self, value: String)
        ensures
            *final(self) == (Session {
                settings_draft: AppConfig {
                    operator: crate::config::OperatorConfig {
                        license_class: value,
                        ..old(self).settings_draft.operator
                    },
                    ..old(self).settings_draft
                },
                ..*old(self)
            }),
    {
        self.settings_draft.operator.license_class = value;
    }

    /// A theme was picked in the settings.
    pub fn settings_theme_changed(&mut self, theme: AppTheme)
        ensures
            *final(self) == (Session {
                settings_draft: AppConfig {
                    appearance: crate::config::AppearanceConfig {
                        theme,
                        ..old(self).settings_draft.appearance
                    },
                    ..old(self).settings_draft
                },
                ..*old(self)
            }),
    {
        self.settings_draft.appearance.theme = theme;
    }

    /// The window border switch was flipped in the settings.
    pub fn settings_window_border_changed(&mut self, on: bool)
        ensures
            *final(self) == (Session {
                settings_draft: AppConfig {
                    appearance: crate::config::AppearanceConfig {
                        window_border: on,
                        ..old(self).settings_draft.appearance
                    },
                    ..old(self).settings_draft
                },
                ..*old(self)
            }),
    {
        self.settings_draft.appearance.window_border = on;
    }

    /// A language was picked in the settings. The caller applies it at once
    /// so that the settings window shows it while the draft is edited.
    pub fn settings_language_changed(&mut self, lang: Language)
        ensures
            *final(self) == (Session {
                settings_draft: AppConfig {
                    appearance: crate::config::AppearanceConfig {
                        language: lang,
                        ..old(self).settings_draft.appearance
                    },
                    ..old(self).settings_draft
                },
                ..*old(self)
            }),
    {
        self.settings_draft.appearance.language = lang;
    }

    /// A page was picked in the settings sidebar.
    pub fn settings_category_changed(&mut self, page: SettingsPage)
        ensures
            *final(self) == (Session { settings_active_page: page, ..*old(self) }),
    {
        self.settings_active_page = page;
    }

    /// The settings search query changed to `query`. When the trimmed query
    /// is not empty and hides the current page, the first page it lists (if
    /// any) becomes current, so the content never shows a page the sidebar
    /// does not list.
    pub fn settings_search_changed(&mut self, query: String, tr: &Translations)
        ensures
            final(self).settings_search == query,
            final(self).settings_active_page == page_after_search(
                old(self).settings_active_page,
                trim_spec(query@),
                *tr,
            ),
            *final(self) == (Session {
                settings_search: query,
                settings_active_page: final(self).settings_active_page,
                ..*old(self)
            }),
    {
        let q = trim(query.as_str());
        self.settings_search = query;
        if q.unicode_len() > 0 && !self.settings_active_page.matches(q.as_str(), tr) {
            if let Some(first) = SettingsPage::first_matching(q.as_str(), tr) {
                self.settings_active_page = first;
            }
        }
    }

    /// Cancel was pressed in the settings: the language to apply again, the
    /// saved one. The caller closes the window; the draft is dropped when
    /// the window next opens.
    pub fn settings_cancel_language(&self) -> (lang: Language)
        ensures
            lang == self.config.appearance.language,
    {
        self.config.appearance.language
    }

    /// Save was pressed in the settings: the configuration to write, the
    /// draft. The caller writes it; only when that succeeds does it call
    /// `settings_saved` and close the window. On failure nothing changes and
    /// the window stays open.
    pub fn settings_save_request(&self) -> (c: AppConfig)
        ensures
            c == self.settings_draft,
    {
        self.settings_draft.clone()
    }

    /// The draft was written to disk: it is now the configuration.
    pub fn settings_saved(&mut self)
        ensures
            *final(self) == (Session { config: old(self).settings_draft, ..*old(self) }),
    {
        self.config = self.settings_draft.clone();
    }

    /// Rename was started for logbook `id`: the draft starts from the name
    /// of the first logbook with that id; nothing happens for an unknown id.
    pub fn log_rename_start(&mut self, id: i64)
        ensures
            has_log(old(self).logs@, id) ==> exists|i: int|
                #[trigger] is_first_log_index(old(self).logs@, id, i) && *final(self) == (Session {
                    log_rename_draft: Some(LogRenameDraft { id, name: old(self).logs@[i].name }),
                    ..*old(self)
                }),
            !has_log(old(self).logs@, id) ==> *final(self) == *old(self),
    {
        match find_log(&self.logs, id) {
            Some(i) => {
                let name = self.logs[i].name.clone();
                self.log_rename_draft = Some(LogRenameDraft { id, name });
                assert(is_first_log_index(old(self).logs@, id, i as int));
            },
            None => {},
        }
    }

    /// The rename draft's text changed.
    pub fn log_rename_changed(&mut self, name: String)
        ensures
            old(self).log_rename_draft.is_some() ==> *final(self) == (Session {
                log_rename_draft: Some(
                    LogRenameDraft { id: old(self).log_rename_draft.unwrap().id, name },
                ),
                ..*old(self)
            }),
            old(self).log_rename_draft.is_none() ==> *final(self) == *old(self),
    {
        if let Some(draft) = self.log_rename_draft.take() {
            self.log_rename_draft = Some(LogRenameDraft { id: draft.id, name });
        }
    }

    /// The rename was committed: the draft ends, and the logbook id and
    /// trimmed name to store are returned unless no draft was open or the
    /// trimmed name is empty. After storing it, list the logbooks and pass
    /// them to `logs_reloaded`.
    pub fn log_rename_commit(&mut self) -> (rename: Option<(i64, String)>)
        ensures
            *final(self) == (Session { log_rename_draft: None, ..*old(self) }),
            old(self).log_rename_draft.is_none() ==> rename.is_none(),
            old(self).log_rename_draft.is_some() ==> ({
                let d = old(self).log_rename_draft.unwrap();
                &&& rename.is_none() == (trim_spec(d.name@).len() == 0)
                &&& rename.is_some() ==> rename.unwrap().0 == d.id && rename.unwrap().1@
                    == trim_spec(d.name@)
            }),
    {
        match self.log_rename_draft.take() {
            Some(draft) => {
                let name = trim(draft.name.as_str());
                if name.unicode_len() == 0 {
                    None
                } else {
                    Some((draft.id, name))
                }
            },
            None => None,
        }
    }

    /// The rename was cancelled.
    pub fn log_rename_cancel(&mut self)
        ensures
            *final(self) == (Session { log_rename_draft: None, ..*old(self) }),
    {
        self.log_rename_draft = None;
    }

    /// The new-logbook name field was edited.
    pub fn new_log_name_changed(&mut self, name: String)
        ensures
            *final(self) == (Session { new_log_name: name, ..*old(self) }),
    {
        self.new_log_name = name;
    }

    /// A kind was picked for the new logbook.
    pub fn new_log_kind_changed(&mut self, kind: LogKind)
        ensures
            *final(self) == (Session { new_log_kind: kind, ..*old(self) }),
    {
        self.new_log_kind = kind;
    }

    /// Create was pressed: the trimmed name and the kind of the logbook to
    /// create, none while the trimmed name is empty. After creating it pass
    /// the logbooks listed again to `log_created`.
    pub fn new_log_request(&self) -> (req: Option<(String, LogKind)>)
        ensures
            req.is_none() == (trim_spec(self.new_log_name@).len() == 0),
            req.is_some() ==> req.unwrap().0@ == trim_spec(self.new_log_name@) && req.unwrap().1
                == self.new_log_kind,
    {
        let name = trim(self.new_log_name.as_str());
        if name.unicode_len() == 0 {
            None
        } else {
            Some((name, self.new_log_kind))
        }
    }

    /// The new logbook was created: the form is cleared and the logbooks
    /// are taken from `listed` as `logs_reloaded` does.
    pub fn log_created(&mut self, listed: Option<Vec<Log>>)
        ensures
            final(self).new_log_name@.len() == 0,
            final(self).new_log_kind == LogKind::General,
            listed.is_some() ==> final(self).logs == listed.unwrap(),
            listed.is_none() ==> final(self).logs == old(self).logs,
            final(self).active_log_id == active_after_reload(
                final(self).logs@,
                old(self).active_log_id,
            ),
            *final(self) == (Session {
                new_log_name: final(self).new_log_name,
                new_log_kind: LogKind::General,
                logs: final(self).logs,
                active_log_id: final(self).active_log_id,
                ..*old(self)
            }),
    {
        self.new_log_name = String::new();
        self.new_log_kind = LogKind::default();
        self.logs_reloaded(listed);
    }

    /// A logbook was deleted; after passing the lists again to
    /// `logs_reloaded` and `qsos_reloaded`, the selection is dropped here.
    pub fn log_deleted(&mut self)
        ensures
            *final(self) == (Session { selected_qso_id: None, ..*old(self) }),
    {
        self.selected_qso_id = None;
    }

    /// A contact row was clicked: it becomes selected, or deselected when it
    /// was; any context menu closes.
    pub fn qso_selected(&mut self, id: i64)
        ensures
            *final(self) == (Session {
                selected_qso_id: selection_after_click(old(self).selected_qso_id, id),
                context_menu_qso: None,
                ..*old(self)
            }),
    {
        self.selected_qso_id = if self.selected_qso_id == Some(id) {
            None
        } else {
            Some(id)
        };
        self.context_menu_qso = None;
    }

    /// A contact row was right-clicked: it is selected and its context menu
    /// opens.
    pub fn qso_context_menu(&mut self, id: i64)
        ensures
            *final(self) == (Session {
                selected_qso_id: Some(id),
                context_menu_qso: Some(id),
                ..*old(self)
            }),
    {
        self.selected_qso_id = Some(id);
        self.context_menu_qso = Some(id);
    }

    /// The context menu was dismissed.
    pub fn context_menu_dismiss(&mut self)
        ensures
            *final(self) == (Session { context_menu_qso: None, ..*old(self) }),
    {
        self.context_menu_qso = None;
    }

    /// Deleting contact `id` was confirmed and the database did it
    /// (`deleted`) or refused. On success the contact leaves the list and
    /// the selection if it held it; the context menu closes either way.
    pub fn qso_delete_finished(&mut self, id: i64, deleted: bool)
        ensures
            deleted ==> final(self).qsos@ == without_qso(old(self).qsos@, id),
            !deleted ==> final(self).qsos == old(self).qsos,
            final(self).selected_qso_id == (if deleted && old(self).selected_qso_id == Some(id) {
                None
            } else {
                old(self).selected_qso_id
            }),
            final(self).context_menu_qso.is_none(),
            *final(self) == (Session {
                qsos: final(self).qsos,
                selected_qso_id: final(self).selected_qso_id,
                context_menu_qso: None,
                ..*old(self)
            }),
    {
        if deleted {
            let mut kept: Vec<Qso> = Vec::new();
            let mut i: usize = 0;
            while i < self.qsos.len()
                invariant
                    i <= self.qsos@.len(),
                    kept@ == without_qso(self.qsos@.take(i as int), id),
                decreases self.qsos@.len() - i,
            {
                let ghost pre = self.qsos@.take(i as int);
                let ghost next = self.qsos@.take(i + 1);
                assert(next.drop_last() =~= pre);
                assert(next.last() == self.qsos@[i as int]);
                reveal_with_fuel(Seq::filter, 1);
                if self.qsos[i].id != Some(id) {
                    kept.push(self.qsos[i].clone());
                }
                i = i + 1;
            }
            assert(self.qsos@.take(self.qsos@.len() as int) =~= self.qsos@);
            self.qsos = kept;
            if self.selected_qso_id == Some(id) {
                self.selected_qso_id = None;
            }
        }
        self.context_menu_qso = None;
    }

    /// A window lost focus: leaving the log window drops the selection and
    /// the context menu.
    pub fn window_unfocused(&mut self, kind: WindowKind)
        ensures
            kind == WindowKind::Log ==> *final(self) == (Session {
                selected_qso_id: None,
                context_menu_qso: None,
                ..*old(self)
            }),
            kind != WindowKind::Log ==> *final(self) == *old(self),
    {
        if kind == WindowKind::Log {
            self.selected_qso_id = None;
            self.context_menu_qso = None;
        }
    }
}

} // verus!
