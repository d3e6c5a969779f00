use brlog::app::{default_rst_for_mode, AfterClose, EntryForm, Session, WindowKind};
use brlog::config::{AppConfig, Language};
use brlog::i18n::Translations;
use brlog::models::log::{Log, LogKind};
use brlog::models::qso::Qso;
use brlog::theme::AppTheme;
use brlog::time::UtcTime;
use brlog::ui::settings::SettingsPage;

fn log(id: i64, name: &str, active: bool) -> Log {
    Log { id, name: name.to_string(), kind: LogKind::General, is_active: active }
}

fn qso(id: i64) -> Qso {
    let mut q = Qso::new_at(
        "OK1ABC".to_string(),
        14_200_000,
        "SSB".to_string(),
        "59".to_string(),
        "59".to_string(),
        String::new(),
        UtcTime { secs: id, nanos: 0 },
    );
    q.id = Some(id);
    q
}

fn session() -> Session {
    Session::new(AppConfig::default(), vec![log(1, "General", false), log(2, "Contest", true)])
}

#[test]
fn default_reports() {
    assert_eq!(default_rst_for_mode("CW"), "599");
    assert_eq!(default_rst_for_mode("cw"), "599");
    assert_eq!(default_rst_for_mode("SSB"), "59");
    assert_eq!(default_rst_for_mode("CWR"), "59");
}

#[test]
fn entry_defaults() {
    let f = EntryForm::default();
    assert_eq!(f.frequency, 14_200_000);
    assert_eq!(f.mode, "SSB");
    assert!(f.callsign.is_empty() && f.rst_sent.is_empty() && !f.rst_sent_autofilled);
}

#[test]
fn typing_callsign_fills_reports() {
    let mut f = EntryForm::default();
    f.set_callsign("ok1");
    assert_eq!(f.callsign, "OK1");
    assert_eq!(f.rst_sent, "59");
    assert_eq!(f.rst_rcvd, "59");
    assert!(f.rst_sent_autofilled && f.rst_rcvd_autofilled);
    f.set_rst_rcvd("57".to_string());
    assert!(!f.rst_rcvd_autofilled);
    f.set_callsign("");
    assert_eq!(f.rst_sent, "");
    assert_eq!(f.rst_rcvd, "57");
    assert!(!f.rst_sent_autofilled);
}

#[test]
fn cw_gets_599() {
    let mut f = EntryForm::default();
    f.mode = "CW".to_string();
    f.set_callsign("dl1x");
    assert_eq!(f.rst_sent, "599");
}

#[test]
fn typed_report_is_kept() {
    let mut f = EntryForm::default();
    f.set_rst_sent("55".to_string());
    f.set_callsign("OK1");
    assert_eq!(f.rst_sent, "55");
    assert!(!f.rst_sent_autofilled);
    assert_eq!(f.rst_rcvd, "59");
}

#[test]
fn locator_upper_cased() {
    let mut f = EntryForm::default();
    f.set_locator("jn79");
    assert_eq!(f.locator, "JN79");
}

#[test]
fn save_requires_callsign() {
    let mut f = EntryForm::default();
    f.set_callsign("   ");
    assert!(f.qso_to_save().is_none());
    f.set_callsign(" ok1abc ");
    f.set_locator(" jn79 ");
    let q = f.qso_to_save().unwrap();
    assert_eq!(q.callsign, "OK1ABC");
    assert_eq!(q.locator, "JN79");
    assert_eq!(q.rst_sent, "59");
    assert_eq!(q.mode, "SSB");
    assert_eq!(q.frequency, 14_200_000);
    assert_eq!(q.id, None);
    f.clear_after_save();
    assert!(f.callsign.is_empty() && f.locator.is_empty() && f.rst_sent.is_empty());
    assert_eq!(f.mode, "SSB");
}

#[test]
fn start_picks_active_log() {
    let s = session();
    assert_eq!(s.active_log_id, 2);
    let s = Session::new(AppConfig::default(), vec![log(4, "a", false), log(5, "b", false)]);
    assert_eq!(s.active_log_id, 4);
    let s = Session::new(AppConfig::default(), vec![]);
    assert_eq!(s.active_log_id, 0);
}

#[test]
fn reload_keeps_or_moves_active() {
    let mut s = session();
    s.logs_reloaded(Some(vec![log(2, "Contest", true), log(3, "New", false)]));
    assert_eq!(s.active_log_id, 2);
    s.logs_reloaded(Some(vec![log(3, "New", false), log(7, "Other", true)]));
    assert_eq!(s.active_log_id, 7);
    s.logs_reloaded(None);
    assert_eq!(s.logs.len(), 2);
    s.logs_reloaded(Some(vec![]));
    assert_eq!(s.active_log_id, 0);
}

#[test]
fn switching_logs() {
    let mut s = session();
    assert!(!s.switch_needed(2));
    assert!(s.switch_needed(1));
    s.qso_context_menu(9);
    s.log_activated(1, Some(vec![log(1, "General", true), log(2, "Contest", false)]));
    assert_eq!(s.active_log_id, 1);
    assert_eq!(s.selected_qso_id, None);
    assert_eq!(s.context_menu_qso, None);
    s.qsos_reloaded(Some(vec![qso(1), qso(2)]));
    assert_eq!(s.qsos.len(), 2);
    s.qsos_reloaded(None);
    assert!(s.qsos.is_empty());
}

#[test]
fn saving_a_contact() {
    let mut s = session();
    s.entry_callsign_changed("ok1abc");
    let q = s.entry_save_request().unwrap();
    assert_eq!(q.callsign, "OK1ABC");
    s.entry_saved(vec![qso(1)]);
    assert_eq!(s.qsos.len(), 1);
    assert!(s.entry.callsign.is_empty());
    assert!(s.entry_save_request().is_none());
}

#[test]
fn selection_toggles() {
    let mut s = session();
    s.qso_selected(3);
    assert_eq!(s.selected_qso_id, Some(3));
    s.qso_selected(3);
    assert_eq!(s.selected_qso_id, None);
    s.qso_context_menu(4);
    assert_eq!(s.selected_qso_id, Some(4));
    assert_eq!(s.context_menu_qso, Some(4));
    s.qso_selected(5);
    assert_eq!(s.context_menu_qso, None);
    s.qso_context_menu(4);
    s.context_menu_dismiss();
    assert_eq!(s.context_menu_qso, None);
    assert_eq!(s.selected_qso_id, Some(4));
}

#[test]
fn deleting_a_contact() {
    let mut s = session();
    s.qsos_reloaded(Some(vec![qso(1), qso(2), qso(3)]));
    s.qso_context_menu(2);
    s.qso_delete_finished(2, true);
    assert_eq!(s.qsos.iter().map(|q| q.id.unwrap()).collect::<Vec<_>>(), vec![1, 3]);
    assert_eq!(s.selected_qso_id, None);
    assert_eq!(s.context_menu_qso, None);
    s.qso_context_menu(3);
    s.qso_delete_finished(3, false);
    assert_eq!(s.qsos.len(), 2);
    assert_eq!(s.selected_qso_id, Some(3));
    assert_eq!(s.context_menu_qso, None);
}

#[test]
fn windows() {
    let mut s = session();
    assert!(s.open_log_window());
    assert!(!s.open_log_window());
    assert!(s.toggle_maximized(WindowKind::Log));
    assert!(s.is_maximized(WindowKind::Log));
    assert!(!s.is_maximized(WindowKind::Main));
    assert_eq!(s.window_closed(WindowKind::Log), AfterClose::Nothing);
    assert!(!s.log_window_open && !s.is_maximized(WindowKind::Log));
    assert_eq!(s.window_closed(WindowKind::Main), AfterClose::Exit);
    assert_eq!(WindowKind::Settings.title_key(), "window-title-settings");
    assert_eq!(WindowKind::Main.title_key(), "window-title-app");
}

#[test]
fn settings_draft_flow() {
    let mut s = session();
    s.settings_draft.operator.callsign = "STALE".to_string();
    assert!(s.open_settings_window());
    assert_eq!(s.settings_draft.operator.callsign, "");
    assert!(!s.open_settings_window());
    s.settings_callsign_changed("ok1abc");
    s.settings_locator_changed("jn79");
    s.settings_name_changed("Jan".to_string());
    s.settings_theme_changed(AppTheme::Nord);
    s.settings_language_changed(Language::Czech);
    s.settings_window_border_changed(false);
    assert_eq!(s.config.operator.callsign, "");
    assert_eq!(s.settings_cancel_language(), Language::Auto);
    let to_write = s.settings_save_request();
    assert_eq!(to_write.operator.callsign, "OK1ABC");
    // Until the write succeeded, the configuration is the old one.
    assert_eq!(s.config.operator.callsign, "");
    s.settings_saved();
    assert_eq!(s.config.operator.callsign, "OK1ABC");
    assert_eq!(s.config.operator.locator, "JN79");
    assert_eq!(s.config.appearance.theme, AppTheme::Nord);
    assert!(!s.config.appearance.window_border);
    assert_eq!(s.window_closed(WindowKind::Settings), AfterClose::ApplyLanguage(Language::Czech));
}

#[test]
fn settings_search_jumps_to_listed_page() {
    let mut tr = Translations::new();
    tr.insert("setting-theme".to_string(), "Color theme".to_string());
    tr.insert("field-qth".to_string(), "QTH".to_string());
    let mut s = session();
    s.settings_search_changed("  color ".to_string(), &tr);
    assert_eq!(s.settings_search, "  color ");
    assert_eq!(s.settings_active_page, SettingsPage::Appearance);
    s.settings_search_changed("qth".to_string(), &tr);
    assert_eq!(s.settings_active_page, SettingsPage::Operator);
    s.settings_search_changed("nothing".to_string(), &tr);
    assert_eq!(s.settings_active_page, SettingsPage::Operator);
    s.settings_category_changed(SettingsPage::Maps);
    s.settings_search_changed("".to_string(), &tr);
    assert_eq!(s.settings_active_page, SettingsPage::Maps);
}

#[test]
fn logbook_manager_flow() {
    let mut s = session();
    s.new_log_name_changed("  Field Day ".to_string());
    s.new_log_kind_changed(LogKind::Contest);
    assert!(s.open_logbook_window());
    assert_eq!(s.new_log_name, "");
    assert_eq!(s.new_log_request(), None);
    s.new_log_name_changed("  Field Day ".to_string());
    s.new_log_kind_changed(LogKind::Contest);
    assert_eq!(s.new_log_request(), Some(("Field Day".to_string(), LogKind::Contest)));
    s.log_created(Some(vec![log(1, "General", false), log(2, "Contest", true), log(3, "Field Day", false)]));
    assert_eq!(s.new_log_name, "");
    assert_eq!(s.new_log_kind, LogKind::General);
    assert_eq!(s.logs.len(), 3);

    s.log_rename_start(99);
    assert!(s.log_rename_draft.is_none());
    s.log_rename_start(3);
    assert_eq!(s.log_rename_draft.as_ref().unwrap().name, "Field Day");
    s.log_rename_changed("  FD 2026  ".to_string());
    assert_eq!(s.log_rename_commit(), Some((3, "FD 2026".to_string())));
    assert!(s.log_rename_draft.is_none());
    s.log_rename_start(3);
    s.log_rename_changed("   ".to_string());
    assert_eq!(s.log_rename_commit(), None);
    s.log_rename_start(3);
    s.log_rename_cancel();
    assert!(s.log_rename_draft.is_none());
    s.log_rename_start(1);
    assert_eq!(s.window_closed(WindowKind::Logbook), AfterClose::Nothing);
    assert!(s.log_rename_draft.is_none());
}

#[test]
fn unfocusing_log_window_drops_selection() {
    let mut s = session();
    s.qso_context_menu(1);
    s.window_unfocused(WindowKind::Main);
    assert_eq!(s.selected_qso_id, Some(1));
    s.window_unfocused(WindowKind::Log);
    assert_eq!(s.selected_qso_id, None);
    assert_eq!(s.context_menu_qso, None);
    s.qso_selected(1);
    s.log_deleted();
    assert_eq!(s.selected_qso_id, None);
}

#[test]
fn start_up_entry_row_is_empty() {
    let s = session();
    assert_eq!(s.entry.callsign, "");
    assert_eq!(s.entry.rst_sent, "");
    assert_eq!(s.entry.rst_rcvd, "");
    assert_eq!(s.entry.locator, "");
    assert!(!s.entry.rst_sent_autofilled);
    assert!(!s.entry.rst_rcvd_autofilled);
    assert_eq!(s.entry.frequency, 14_200_000);
    assert_eq!(s.entry.mode, "SSB");
}

#[test]
fn entering_an_upper_cased_callsign() {
    let mut f = EntryForm::default();
    f.enter_callsign("OK1ABC".to_string());
    assert_eq!(f.callsign, "OK1ABC");
    assert_eq!(f.rst_sent, "59");
    assert!(f.rst_rcvd_autofilled);
    f.enter_callsign(String::new());
    assert_eq!(f.rst_sent, "");
    assert!(!f.rst_sent_autofilled);
}

#[test]
fn autofilled_reports_hold_the_default() {
    let mut f = EntryForm::default();
    f.mode = "CW".to_string();
    f.set_callsign("ok1abc");
    assert!(f.rst_sent_autofilled && f.rst_sent == "599");
    f.set_rst_sent("579".to_string());
    assert!(!f.rst_sent_autofilled);
    f.set_locator("jn79");
    assert!(f.rst_rcvd_autofilled && f.rst_rcvd == "599");
    f.clear_after_save();
    assert!(!f.rst_sent_autofilled && !f.rst_rcvd_autofilled);
}
