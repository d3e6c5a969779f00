use brlog::config::{AppConfig, AppearanceConfig, Language, OperatorConfig, StoredConfig};
use brlog::i18n::{detect_locale, resolve, Translations};
use brlog::theme::AppTheme;

#[test]
fn defaults() {
    let c = AppConfig::default();
    assert_eq!(c.operator.callsign, "");
    assert_eq!(c.operator.license_class, "");
    assert_eq!(c.appearance.theme, AppTheme::TokyoNight);
    assert!(c.appearance.window_border);
    assert_eq!(c.appearance.language, Language::Auto);
    assert_eq!(AppearanceConfig::default(), c.appearance);
}

#[test]
fn sectioned_parse_wins() {
    let mut sectioned = AppConfig::default();
    sectioned.operator.callsign = "OK1ABC".to_string();
    let mut legacy = OperatorConfig::default();
    legacy.callsign = "OK2XYZ".to_string();
    match AppConfig::from_parses(Some(sectioned), Some(legacy)) {
        StoredConfig::Current(c) => assert_eq!(c.operator.callsign, "OK1ABC"),
        other => panic!("unexpected {other:?}"),
    }
}

#[test]
fn legacy_parse_migrates() {
    let mut legacy = OperatorConfig::default();
    legacy.callsign = "OK2XYZ".to_string();
    legacy.qth = "Brno".to_string();
    match AppConfig::from_parses(None, Some(legacy)) {
        StoredConfig::Migrated(c) => {
            assert_eq!(c.operator.callsign, "OK2XYZ");
            assert_eq!(c.operator.qth, "Brno");
            assert_eq!(c.appearance, AppearanceConfig::default());
        }
        other => panic!("unexpected {other:?}"),
    }
}

#[test]
fn neither_parse_is_unrecognized() {
    assert!(matches!(AppConfig::from_parses(None, None), StoredConfig::Unrecognized));
}

#[test]
fn failed_load_gives_default() {
    let c = AppConfig::loaded_or_default(None);
    assert_eq!(c.operator.callsign, "");
    assert!(c.appearance.window_border);
    let mut l = AppConfig::default();
    l.appearance.window_border = false;
    assert!(!AppConfig::loaded_or_default(Some(l)).appearance.window_border);
}

#[test]
fn clone_keeps_fields() {
    let mut c = AppConfig::default();
    c.operator.name = "Jan".to_string();
    c.appearance.theme = AppTheme::Nord;
    let d = c.clone();
    assert_eq!(d.operator.name, "Jan");
    assert_eq!(d.appearance.theme, AppTheme::Nord);
}

#[test]
fn language_labels() {
    let mut tr = Translations::new();
    tr.insert("language-czech".to_string(), "Čeština".to_string());
    assert_eq!(Language::Czech.label(&tr), "Čeština");
    assert_eq!(Language::English.label(&tr), "language-english");
    assert_eq!(Language::Auto.label_key(), "language-auto");
    assert_eq!(Language::ALL, [Language::Auto, Language::Czech, Language::English]);
    assert_eq!(Language::default(), Language::Auto);
}

#[test]
fn locale_resolution() {
    assert_eq!(resolve(Language::Czech, Some("de-DE")), "cs");
    assert_eq!(resolve(Language::English, None), "en");
    assert_eq!(resolve(Language::Auto, Some("cs-CZ")), "cs-CZ");
    assert_eq!(resolve(Language::Auto, None), "en");
    assert_eq!(detect_locale(Some("en_US")), "en-US");
    assert_eq!(detect_locale(Some("!!")), "en");
    assert_eq!(detect_locale(Some("CS-cz")), "cs-CZ");
}

#[test]
fn translations_lookup() {
    let mut tr = Translations::new();
    assert_eq!(tr.get("x"), "x");
    tr.insert("x".to_string(), "one".to_string());
    tr.insert("y".to_string(), "two".to_string());
    assert_eq!(tr.get("x"), "one");
    tr.insert("x".to_string(), "three".to_string());
    assert_eq!(tr.get("x"), "three");
    assert_eq!(tr.get("y"), "two");
    assert_eq!(tr.get("z"), "z");
}

#[test]
fn theme_names() {
    assert_eq!(AppTheme::TokyoNight.display_name(), "Tokyo Night");
    assert_eq!(AppTheme::CatppuccinFrappe.display_name(), "Catppuccin Frappé");
    assert_eq!(AppTheme::FullBlack.display_name(), "Full Black");
    assert_eq!(AppTheme::ALL.len(), 23);
    assert_eq!(AppTheme::ALL[16], AppTheme::FullBlack);
    assert_eq!(AppTheme::ALL[17], AppTheme::Light);
    assert_eq!(AppTheme::default(), AppTheme::TokyoNight);
}
