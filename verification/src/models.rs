//! The logbook's data model: logbooks and contacts (QSOs).

pub mod log;
pub mod qso;
