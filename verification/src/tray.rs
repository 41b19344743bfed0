//! The tray icon: its menu, and which pointer events bring the window back.

use vstd::prelude::*;

use crate::menu::{
    command, entries_view, entry_accelerator, entry_action, entry_label, lemma_menu_id_round_trip, spec_menu_action, spec_menu_id,
    EntryView, MenuAction, MenuEntry,
};

verus! {

/// Id of the tray icon.
pub const TRAY_ID: &'static str = "main-tray";

/// A mouse button.
#[derive(PartialEq, Eq, Structural, Debug, Clone, Copy)]
pub enum MouseButtonKind {
    Left,
    Right,
    Middle,
}

/// Whether a button went down or came up.
#[derive(PartialEq, Eq, Structural, Debug, Clone, Copy)]
pub enum ButtonStateKind {
    Up,
    Down,
}

/// A pointer event on the tray icon.
#[derive(PartialEq, Eq, Structural, Debug, Clone, Copy)]
pub enum TrayPointerEvent {
    Click { button: MouseButtonKind, state: ButtonStateKind },
    DoubleClick { button: MouseButtonKind },
    /// Entering, moving over or leaving the icon.
    Other,
}

/// The events that bring the main window back: the left button released
/// on the icon, or a left double click.
pub open spec fn spec_tray_shows_window(e: TrayPointerEvent) -> bool {
    match e {
        TrayPointerEvent::Click { button, state } => button == MouseButtonKind::Left && state
            == ButtonStateKind::Up,
        TrayPointerEvent::DoubleClick { button } => button == MouseButtonKind::Left,
        TrayPointerEvent::Other => false,
    }
}

/// Only the left button brings the window back: a right or middle click,
/// a press that is not yet released, or moving over the icon never does;
/// a left release or a left double click always does.
pub proof fn lemma_only_left_click_shows(button: MouseButtonKind, state: ButtonStateKind)
    ensures
        spec_tray_shows_window(TrayPointerEvent::Click { button, state }) <==> (button
            == MouseButtonKind::Left && state == ButtonStateKind::Up),
        spec_tray_shows_window(TrayPointerEvent::DoubleClick { button }) <==> button
            == MouseButtonKind::Left,
        !spec_tray_shows_window(TrayPointerEvent::Other),
{
}

/// Whether the tray event `e` brings the main window back.
pub fn tray_event_shows_window(e: TrayPointerEvent) -> (r: bool)
    ensures
        r == spec_tray_shows_window(e),
{
    match e {
        TrayPointerEvent::Click { button: MouseButtonKind::Left, state: ButtonStateKind::Up } => true,
        TrayPointerEvent::DoubleClick { button: MouseButtonKind::Left } => true,
        _ => false,
    }
}

/// The tray icon's menu.
pub open spec fn spec_tray_menu() -> Seq<EntryView> {
    seq![
        command(MenuAction::ShowWindow, "Show Deni AI"@, None),
        command(MenuAction::Reload, "Reload"@, None),
        EntryView::Separator,
        command(MenuAction::OpenInBrowser, "Open in Browser"@, None),
        command(MenuAction::OpenDownloads, "Open Downloads Folder"@, None),
        command(MenuAction::OpenLatestDownload, "Open Latest Download"@, None),
        EntryView::Separator,
        command(MenuAction::CheckUpdates, "Check for Updates"@, None),
        EntryView::Separator,
        command(MenuAction::Quit, "Quit"@, None),
    ]
}

/// Every command item of the tray menu is registered under an id that the
/// menu handler maps back to that same command.
pub proof fn lemma_tray_menu_items_are_handled(j: int)
    requires
        0 <= j < spec_tray_menu().len(),
    ensures
        entry_action(spec_tray_menu()[j]) matches Some(a) ==> spec_menu_action(spec_menu_id(a))
            == Some(a),
{
    if let Some(a) = entry_action(spec_tray_menu()[j]) {
        lemma_menu_id_round_trip(a);
    }
}

/// Each command item of the tray menu shows the text of the command it
/// runs ("Show Deni AI" shows the window, "Quit" quits, ...), with no
/// keyboard shortcut.
pub proof fn lemma_tray_menu_labels_match_commands(j: int)
    requires
        0 <= j < spec_tray_menu().len(),
    ensures
        entry_action(spec_tray_menu()[j]) matches Some(a) ==> entry_label(spec_tray_menu()[j])
            == Some(match a {
            MenuAction::ShowWindow => "Show Deni AI"@,
            MenuAction::HideToTray => "Hide to Tray"@,
            MenuAction::OpenInBrowser => "Open in Browser"@,
            MenuAction::OpenDownloads => "Open Downloads Folder"@,
            MenuAction::OpenLatestDownload => "Open Latest Download"@,
            MenuAction::NavBack => "Back"@,
            MenuAction::NavForward => "Forward"@,
            MenuAction::Reload => "Reload"@,
            MenuAction::RetryConnection => "Retry Connection"@,
            MenuAction::ZoomIn => "Zoom In"@,
            MenuAction::ZoomOut => "Zoom Out"@,
            MenuAction::ZoomReset => "Actual Size"@,
            MenuAction::CheckUpdates => "Check for Updates"@,
            MenuAction::Quit => "Quit"@,
        }) && entry_accelerator(spec_tray_menu()[j]) is None,
{
}

/// The layout of the tray icon's menu.
pub fn tray_menu_layout() -> (entries: Vec<MenuEntry>)
    ensures
        entries_view(entries@) == spec_tray_menu(),
{
    let entries = vec![
        MenuEntry::Command { action: MenuAction::ShowWindow, label: "Show Deni AI", accelerator: None },
        MenuEntry::Command { action: MenuAction::Reload, label: "Reload", accelerator: None },
        MenuEntry::Separator,
        MenuEntry::Command { action: MenuAction::OpenInBrowser, label: "Open in Browser", accelerator: None },
        MenuEntry::Command { action: MenuAction::OpenDownloads, label: "Open Downloads Folder", accelerator: None },
        MenuEntry::Command { action: MenuAction::OpenLatestDownload, label: "Open Latest Download", accelerator: None },
        MenuEntry::Separator,
        MenuEntry::Command { action: MenuAction::CheckUpdates, label: "Check for Updates", accelerator: None },
        MenuEntry::Separator,
        MenuEntry::Command { action: MenuAction::Quit, label: "Quit", accelerator: None },
    ];
    assert(entries_view(entries@) =~= spec_tray_menu());
    entries
}

} // verus!
