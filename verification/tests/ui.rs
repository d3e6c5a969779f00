use brlog::ui::settings::some_term_contains;
use brlog::i18n::Translations;
use brlog::ui::bar::{label, BackgroundStatus, ConnState};
use brlog::ui::settings::{content_filter, label_matches, section_shown, visible_pages, SettingsPage};

fn english() -> Translations {
    let mut tr = Translations::new();
    for (k, v) in [
        ("settings-page-operator", "Operator"),
        ("settings-page-appearance", "Appearance"),
        ("settings-page-radio", "Radio"),
        ("settings-page-cluster", "DX Cluster"),
        ("settings-page-maps", "Maps"),
        ("settings-page-backup", "Backup"),
        ("settings-page-about", "About"),
        ("settings-section-identity", "Identity"),
        ("field-callsign", "Callsign"),
        ("field-name", "Name"),
        ("settings-section-location", "Location"),
        ("field-qth", "QTH"),
        ("field-locator", "Locator"),
        ("settings-section-license", "License"),
        ("field-license-class", "License class"),
        ("settings-section-theme", "Theme"),
        ("setting-theme", "Color theme"),
        ("setting-window-border", "Window border"),
        ("settings-section-language", "Language"),
        ("setting-language", "Language"),
        ("settings-section-about", "About BRlog"),
        ("about-version", "Version"),
        ("about-license", "License"),
        ("about-repository", "Repository"),
    ] {
        tr.insert(k.to_string(), v.to_string());
    }
    tr
}

#[test]
fn page_titles() {
    let tr = english();
    assert_eq!(SettingsPage::Cluster.title(&tr), "DX Cluster");
    assert_eq!(SettingsPage::Operator.title_key(), "settings-page-operator");
    assert_eq!(SettingsPage::default(), SettingsPage::Operator);
    assert_eq!(SettingsPage::ALL.len(), 7);
}

#[test]
fn search_terms_in_order() {
    let tr = english();
    let terms = SettingsPage::Appearance.search_terms(&tr);
    assert_eq!(terms, vec!["Appearance", "Theme", "Color theme", "Window border", "Language", "Language"]);
    assert_eq!(SettingsPage::Radio.search_term_keys(), vec!["settings-page-radio"]);
    assert_eq!(SettingsPage::Operator.search_term_keys().len(), 9);
}

#[test]
fn page_matching() {
    let tr = english();
    assert!(SettingsPage::Operator.matches("", &tr));
    assert!(SettingsPage::Operator.matches("CALL", &tr));
    assert!(SettingsPage::Operator.matches("qth", &tr));
    assert!(!SettingsPage::Appearance.matches("qth", &tr));
    assert!(SettingsPage::About.matches("licen", &tr));
    assert!(SettingsPage::Operator.matches("licen", &tr));
    assert!(!SettingsPage::Maps.matches("zzz", &tr));
}

#[test]
fn sidebar_lists_matching_pages() {
    let tr = english();
    assert_eq!(visible_pages("licen", &tr), vec![SettingsPage::Operator, SettingsPage::About]);
    assert_eq!(visible_pages("", &tr).len(), 7);
    assert!(visible_pages("nothing-like-this", &tr).is_empty());
    assert_eq!(SettingsPage::first_matching("theme", &tr), Some(SettingsPage::Appearance));
    assert_eq!(SettingsPage::first_matching("xyz", &tr), None);
}

#[test]
fn field_filter() {
    assert!(label_matches("Callsign", ""));
    assert!(label_matches("Callsign", "calls"));
    assert!(!label_matches("Callsign", "CALLS"));
    assert_eq!(content_filter("  QTH "), "qth");
    assert!(section_shown("Identity", "zzz", 1));
    assert!(section_shown("Identity", "iden", 0));
    assert!(!section_shown("Identity", "zzz", 0));
}

#[test]
fn status_labels() {
    let mut tr = Translations::new();
    tr.insert("status-state-connected".to_string(), "connected".to_string());
    assert_eq!(label(ConnState::Connected, &tr), "connected");
    assert_eq!(label(ConnState::Error, &tr), "status-state-error");
    let s = BackgroundStatus::default();
    assert_eq!(s.tci, ConnState::Disconnected);
    assert_eq!(s.sync, ConnState::Disconnected);
}

#[test]
fn lowered_terms_search() {
    let terms = vec!["callsign".to_string(), "locator".to_string()];
    assert!(some_term_contains(&terms, "cat"));
    assert!(!some_term_contains(&terms, "Cat"));
    assert!(some_term_contains(&terms, ""));
    assert!(!some_term_contains(&Vec::new(), ""));
}
