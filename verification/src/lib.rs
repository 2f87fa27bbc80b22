//! Verified core of the TontooOS Settings app: the settings-daemon
//! protocol, the state the daemon reports, and the decisions the
//! settings pages make from it (navigation history, refresh rates,
//! fill modes, network rows and the like).

pub mod daemon;
pub mod text;
pub mod views;
