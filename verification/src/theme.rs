//! Colour themes the interface can use.

use vstd::prelude::*;

verus! {

/// A colour theme. The first seventeen are dark, the rest light.
#[derive(Debug, Clone, Copy, PartialEq, Eq, Structural)]
pub enum AppTheme {
    TokyoNight,
    TokyoNightStorm,
    Dracula,
    Nord,
    GruvboxDark,
    SolarizedDark,
    CatppuccinFrappe,
    CatppuccinMacchiato,
    CatppuccinMocha,
    KanagawaWave,
    KanagawaDragon,
    Moonfly,
    Nightfly,
    Oxocarbon,
    Ferra,
    Dark,
    FullBlack,
    Light,
    SolarizedLight,
    GruvboxLight,
    CatppuccinLatte,
    TokyoNightLight,
    KanagawaLotus,
}

impl Default for AppTheme {
    fn default() -> (t: Self)
        ensures
            t == AppTheme::TokyoNight,
    {
        AppTheme::TokyoNight
    }
}

impl AppTheme {
    /// Every theme, dark ones first, in the order the settings list them.
    pub const ALL: [AppTheme; 23] = [
        AppTheme::TokyoNight,
        AppTheme::TokyoNightStorm,
        AppTheme::Dracula,
        AppTheme::Nord,
        AppTheme::GruvboxDark,
        AppTheme::SolarizedDark,
        AppTheme::CatppuccinFrappe,
        AppTheme::CatppuccinMacchiato,
        AppTheme::CatppuccinMocha,
        AppTheme::KanagawaWave,
        AppTheme::KanagawaDragon,
        AppTheme::Moonfly,
        AppTheme::Nightfly,
        AppTheme::Oxocarbon,
        AppTheme::Ferra,
        AppTheme::Dark,
        AppTheme::FullBlack,
        AppTheme::Light,
        AppTheme::SolarizedLight,
        AppTheme::GruvboxLight,
        AppTheme::CatppuccinLatte,
        AppTheme::TokyoNightLight,
        AppTheme::KanagawaLotus,
    ];

    /// The name shown for this theme.
    pub open spec fn name_spec(self) -> Seq<char> {
        match self {
            AppTheme::TokyoNight => "Tokyo Night"@,
            AppTheme::TokyoNightStorm => "Tokyo Night Storm"@,
            AppTheme::Dracula => "Dracula"@,
            AppTheme::Nord => "Nord"@,
            AppTheme::GruvboxDark => "Gruvbox Dark"@,
            AppTheme::SolarizedDark => "Solarized Dark"@,
            AppTheme::CatppuccinFrappe => "Catppuccin Frappé"@,
            AppTheme::CatppuccinMacchiato => "Catppuccin Macchiato"@,
            AppTheme::CatppuccinMocha => "Catppuccin Mocha"@,
            AppTheme::KanagawaWave => "Kanagawa Wave"@,
            AppTheme::KanagawaDragon => "Kanagawa Dragon"@,
            AppTheme::Moonfly => "Moonfly"@,
            AppTheme::Nightfly => "Nightfly"@,
            AppTheme::Oxocarbon => "Oxocarbon"@,
            AppTheme::Ferra => "Ferra"@,
            AppTheme::Dark => "Dark"@,
            AppTheme::FullBlack => "Full Black"@,
            AppTheme::Light => "Light"@,
            AppTheme::SolarizedLight => "Solarized Light"@,
            AppTheme::GruvboxLight => "Gruvbox Light"@,
            AppTheme::CatppuccinLatte => "Catppuccin Latte"@,
            AppTheme::TokyoNightLight => "Tokyo Night Light"@,
            AppTheme::KanagawaLotus => "Kanagawa Lotus"@,
        }
    }

    /// The name shown for this theme (its display text).
    pub fn display_name(self) -> (s: &'static str)
        ensures
            s@ == self.name_spec(),
    {
        match self {
            AppTheme::TokyoNight => "Tokyo Night",
            AppTheme::TokyoNightStorm => "Tokyo Night Storm",
            AppTheme::Dracula => "Dracula",
            AppTheme::Nord => "Nord",
            AppTheme::GruvboxDark => "Gruvbox Dark",
            AppTheme::SolarizedDark => "Solarized Dark",
            AppTheme::CatppuccinFrappe => "Catppuccin Frappé",
            AppTheme::CatppuccinMacchiato => "Catppuccin Macchiato",
            AppTheme::CatppuccinMocha => "Catppuccin Mocha",
            AppTheme::KanagawaWave => "Kanagawa Wave",
            AppTheme::KanagawaDragon => "Kanagawa Dragon",
            AppTheme::Moonfly => "Moonfly",
            AppTheme::Nightfly => "Nightfly",
            AppTheme::Oxocarbon => "Oxocarbon",
            AppTheme::Ferra => "Ferra",
            AppTheme::Dark => "Dark",
            AppTheme::FullBlack => "Full Black",
            AppTheme::Light => "Light",
            AppTheme::SolarizedLight => "Solarized Light",
            AppTheme::GruvboxLight => "Gruvbox Light",
            AppTheme::CatppuccinLatte => "Catppuccin Latte",
            AppTheme::TokyoNightLight => "Tokyo Night Light",
            AppTheme::KanagawaLotus => "Kanagawa Lotus",
        }
    }
}

} // verus!
