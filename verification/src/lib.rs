//! Verified core of the Deni AI desktop shell: which URLs stay inside the
//! app window, the shell's mutable state, the menus and their commands, and
//! the decisions taken on webview, tray and updater events.

pub mod menu;
pub mod state;
pub mod text;
pub mod tray;
pub mod updater;
pub mod url_guard;
pub mod webview;
