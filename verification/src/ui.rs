//! What the interface decides apart from drawing: settings pages and their
//! search, and the status bar's connection states.

pub mod bar;
pub mod settings;
