//! A tiny model of a tray-based light/dark theme toggler.
//!
//! The library holds the verified core: the preference codec and store
//! transitions, the appearance-flag toggle, and the tray event dispatcher.
//! Platform I/O (registry, config file, tray icon, message loop) lives in the
//! surrounding application, which drives these functions.

pub mod error;
pub mod events;
pub mod prefs;
pub mod theme;

pub use error::AppError;
