//! The persisted application configuration and how a stored file is read.

use vstd::prelude::*;

use crate::i18n::Translations;
use crate::theme::AppTheme;

verus! {

/// The operator's identity and station.
#[derive(Debug)]
pub struct OperatorConfig {
    pub callsign: String,
    pub name: String,
    pub qth: String,
    pub locator: String,
    pub license_class: String,
}

impl Default for OperatorConfig {
    fn default() -> (c: Self)
        ensures
            c.callsign@ == Seq::<char>::empty(),
            c.name@ == Seq::<char>::empty(),
            c.qth@ == Seq::<char>::empty(),
            c.locator@ == Seq::<char>::empty(),
            c.license_class@ == Seq::<char>::empty(),
    {
        OperatorConfig {
            callsign: String::new(),
            name: String::new(),
            qth: String::new(),
            locator: String::new(),
            license_class: String::new(),
        }
    }
}

impl Clone for OperatorConfig {
    fn clone(&self) -> (c: Self)
        ensures
            c == *self,
    {
        OperatorConfig {
            callsign: self.callsign.clone(),
            name: self.name.clone(),
            qth: self.qth.clone(),
            locator: self.locator.clone(),
            license_class: self.license_class.clone(),
        }
    }
}

/// The interface language.
#[derive(Debug, Clone, Copy, PartialEq, Eq, Structural)]
pub enum Language {
    /// Follow the operating system's locale.
    Auto,
    Czech,
    English,
}

impl Default for Language {
    fn default() -> (l: Self)
        ensures
            l == Language::Auto,
    {
        Language::Auto
    }
}

impl Language {
    /// Every choice, in the order the settings list them.
    pub const ALL: [Language; 3] = [Language::Auto, Language::Czech, Language::English];

    /// The message id of this language's label.
    pub open spec fn label_key_spec(self) -> Seq<char> {
        match self {
            Language::Auto => "language-auto"@,
            Language::Czech => "language-czech"@,
            Language::English => "language-english"@,
        }
    }

    /// The message id of this language's label.
    pub fn label_key(self) -> (s: &'static str)
        ensures
            s@ == self.label_key_spec(),
    {
        match self {
            Language::Auto => "language-auto",
            Language::Czech => "language-czech",
            Language::English => "language-english",
        }
    }

    /// This language's label in the given translations (its display text).
    pub fn label(self, tr: &Translations) -> (s: String)
        ensures
            s@ == tr.lookup(self.label_key_spec()),
    {
        tr.get(self.label_key())
    }
}

/// How the interface looks.
#[derive(Debug, Clone, Copy, PartialEq, Eq, Structural)]
pub struct AppearanceConfig {
    pub theme: AppTheme,
    pub window_border: bool,
    pub language: Language,
}

impl Default for AppearanceConfig {
    fn default() -> (c: Self)
        ensures
            c == (AppearanceConfig {
                theme: AppTheme::TokyoNight,
                window_border: true,
                language: Language::Auto,
            }),
    {
        AppearanceConfig {
            theme: AppTheme::default(),
            window_border: true,
            language: Language::default(),
        }
    }
}

/// The whole configuration: an operator section and an appearance section.
#[derive(Debug)]
pub struct AppConfig {
    pub operator: OperatorConfig,
    pub appearance: AppearanceConfig,
}

/// Whether `c` is the default operator section: every field empty.
pub open spec fn is_default_operator(c: OperatorConfig) -> bool {
    &&& c.callsign@ == Seq::<char>::empty()
    &&& c.name@ == Seq::<char>::empty()
    &&& c.qth@ == Seq::<char>::empty()
    &&& c.locator@ == Seq::<char>::empty()
    &&& c.license_class@ == Seq::<char>::empty()
}

/// The default appearance section.
pub open spec fn default_appearance() -> AppearanceConfig {
    AppearanceConfig { theme: AppTheme::TokyoNight, window_border: true, language: Language::Auto }
}

impl Default for AppConfig {
    fn default() -> (c: Self)
        ensures
            is_default_operator(c.operator),
            c.appearance == default_appearance(),
    {
        AppConfig { operator: OperatorConfig::default(), appearance: AppearanceConfig::default() }
    }
}

impl Clone for AppConfig {
    fn clone(&self) -> (c: Self)
        ensures
            c == *self,
    {
        AppConfig { operator: self.operator.clone(), appearance: self.appearance }
    }
}

/// What a stored configuration file turned out to hold.
#[derive(Debug)]
pub enum StoredConfig {
    /// The current sectioned format.
    Current(AppConfig),
    /// The legacy flat operator format, carried over into the sectioned
    /// format with a default appearance; it should be written back.
    Migrated(AppConfig),
    /// Neither format.
    Unrecognized,
}

impl AppConfig {
    /// Reads a stored file from its two parses: as the sectioned format and
    /// as the legacy flat operator format. The sectioned reading wins.
    pub fn from_parses(sectioned: Option<AppConfig>, legacy: Option<OperatorConfig>) -> (r:
        StoredConfig)
        ensures
            sectioned.is_some() ==> r == StoredConfig::Current(sectioned.unwrap()),
            sectioned.is_none() && legacy.is_some() ==> r == StoredConfig::Migrated(
                AppConfig { operator: legacy.unwrap(), appearance: default_appearance() },
            ),
            sectioned.is_none() && legacy.is_none() ==> r == StoredConfig::Unrecognized,
    {
        match sectioned {
            Some(cfg) => StoredConfig::Current(cfg),
            None => match legacy {
                Some(operator) => StoredConfig::Migrated(
                    AppConfig { operator, appearance: AppearanceConfig::default() },
                ),
                None => StoredConfig::Unrecognized,
            },
        }
    }

    /// The configuration to run with: what was loaded, or the default where
    /// loading failed.
    pub fn loaded_or_default(loaded: Option<AppConfig>) -> (c: AppConfig)
        ensures
            loaded.is_some() ==> c == loaded.unwrap(),
            loaded.is_none() ==> is_default_operator(c.operator) && c.appearance
                == default_appearance(),
    {
        match loaded {
            Some(c) => c,
            None => AppConfig::default(),
        }
    }
}

} // verus!
