//! Logic of an amateur-radio logbook: QSO and logbook models, frequency
//! formatting and legacy parsing, configuration, themes, locale resolution,
//! settings search, database row conversion and migration rules, and the
//! state transitions of the application session.

pub mod text;
pub mod config;
pub mod i18n;
pub mod models;
pub mod theme;
pub mod time;
pub mod ui;
pub mod app;
pub mod db;
