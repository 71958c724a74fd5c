//! The browser-window logic of the Studio desktop app: URL normalisation,
//! the tab model of each browser window, per-project session identifiers,
//! menu commands and update-status decisions.

pub mod text;
pub mod url;
pub mod window;
pub mod state;
pub mod tab_bar;
pub mod session;
pub mod menu;
pub mod updater;
pub mod models;
pub mod webview;
