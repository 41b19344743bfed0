//! The application menu: its commands, the ids that name them, and its layout.

use vstd::prelude::*;

use crate::text::str_eq;

verus! {

/// A command of the application or tray menu.
#[derive(PartialEq, Eq, Structural, Debug, Clone, Copy)]
pub enum MenuAction {
    ShowWindow,
    HideToTray,
    OpenInBrowser,
    OpenDownloads,
    OpenLatestDownload,
    NavBack,
    NavForward,
    Reload,
    RetryConnection,
    ZoomIn,
    ZoomOut,
    ZoomReset,
    CheckUpdates,
    Quit,
}

/// The id under which a command's menu item is registered.
pub open spec fn spec_menu_id(a: MenuAction) -> Seq<char> {
    match a {
        MenuAction::ShowWindow => "show-window"@,
        MenuAction::HideToTray => "hide-to-tray"@,
        MenuAction::OpenInBrowser => "open-in-browser"@,
        MenuAction::OpenDownloads => "open-downloads"@,
        MenuAction::OpenLatestDownload => "open-latest-download"@,
        MenuAction::NavBack => "nav-back"@,
        MenuAction::NavForward => "nav-forward"@,
        MenuAction::Reload => "reload"@,
        MenuAction::RetryConnection => "retry-connection"@,
        MenuAction::ZoomIn => "zoom-in"@,
        MenuAction::ZoomOut => "zoom-out"@,
        MenuAction::ZoomReset => "zoom-reset"@,
        MenuAction::CheckUpdates => "check-updates"@,
        MenuAction::Quit => "quit"@,
    }
}

/// The command a menu item id stands for; `None` for an id of no command.
pub open spec fn spec_menu_action(id: Seq<char>) -> Option<MenuAction> {
    if id == "show-window"@ {
        Some(MenuAction::ShowWindow)
    } else if id == "hide-to-tray"@ {
        Some(MenuAction::HideToTray)
    } else if id == "open-in-browser"@ {
        Some(MenuAction::OpenInBrowser)
    } else if id == "open-downloads"@ {
        Some(MenuAction::OpenDownloads)
    } else if id == "open-latest-download"@ {
        Some(MenuAction::OpenLatestDownload)
    } else if id == "nav-back"@ {
        Some(MenuAction::NavBack)
    } else if id == "nav-forward"@ {
        Some(MenuAction::NavForward)
    } else if id == "reload"@ {
        Some(MenuAction::Reload)
    } else if id == "retry-connection"@ {
        Some(MenuAction::RetryConnection)
    } else if id == "zoom-in"@ {
        Some(MenuAction::ZoomIn)
    } else if id == "zoom-out"@ {
        Some(MenuAction::ZoomOut)
    } else if id == "zoom-reset"@ {
        Some(MenuAction::ZoomReset)
    } else if id == "check-updates"@ {
        Some(MenuAction::CheckUpdates)
    } else if id == "quit"@ {
        Some(MenuAction::Quit)
    } else {
        None
    }
}

/// The id under which the menu item of `action` is registered.
pub fn menu_id(action: MenuAction) -> (id: &'static str)
    ensures
        id@ == spec_menu_id(action),
{
    match action {
        MenuAction::ShowWindow => "show-window",
        MenuAction::HideToTray => "hide-to-tray",
        MenuAction::OpenInBrowser => "open-in-browser",
        MenuAction::OpenDownloads => "open-downloads",
        MenuAction::OpenLatestDownload => "open-latest-download",
        MenuAction::NavBack => "nav-back",
        MenuAction::NavForward => "nav-forward",
        MenuAction::Reload => "reload",
        MenuAction::RetryConnection => "retry-connection",
        MenuAction::ZoomIn => "zoom-in",
        MenuAction::ZoomOut => "zoom-out",
        MenuAction::ZoomReset => "zoom-reset",
        MenuAction::CheckUpdates => "check-updates",
        MenuAction::Quit => "quit",
    }
}

/// The command that the menu item `id` stands for; `None` for an id that
/// names no command.
pub fn menu_action(id: &str) -> (r: Option<MenuAction>)
    ensures
        r == spec_menu_action(id@),
{
    if str_eq(id, "show-window") {
        Some(MenuAction::ShowWindow)
    } else if str_eq(id, "hide-to-tray") {
        Some(MenuAction::HideToTray)
    } else if str_eq(id, "open-in-browser") {
        Some(MenuAction::OpenInBrowser)
    } else if str_eq(id, "open-downloads") {
        Some(MenuAction::OpenDownloads)
    } else if str_eq(id, "open-latest-download") {
        Some(MenuAction::OpenLatestDownload)
    } else if str_eq(id, "nav-back") {
        Some(MenuAction::NavBack)
    } else if str_eq(id, "nav-forward") {
        Some(MenuAction::NavForward)
    } else if str_eq(id, "reload") {
        Some(MenuAction::Reload)
    } else if str_eq(id, "retry-connection") {
        Some(MenuAction::RetryConnection)
    } else if str_eq(id, "zoom-in") {
        Some(MenuAction::ZoomIn)
    } else if str_eq(id, "zoom-out") {
        Some(MenuAction::ZoomOut)
    } else if str_eq(id, "zoom-reset") {
        Some(MenuAction::ZoomReset)
    } else if str_eq(id, "check-updates") {
        Some(MenuAction::CheckUpdates)
    } else if str_eq(id, "quit") {
        Some(MenuAction::Quit)
    } else {
        None
    }
}

/// Every command's id names that command again: a click on any command's
/// menu item reaches that command, and no two commands share an id.
pub proof fn lemma_menu_id_round_trip(action: MenuAction)
    ensures
        spec_menu_action(spec_menu_id(action)) == Some(action),
{
    reveal_strlit("show-window");
    reveal_strlit("hide-to-tray");
    reveal_strlit("open-in-browser");
    reveal_strlit("open-downloads");
    reveal_strlit("open-latest-download");
    reveal_strlit("nav-back");
    reveal_strlit("nav-forward");
    reveal_strlit("reload");
    reveal_strlit("retry-connection");
    reveal_strlit("zoom-in");
    reveal_strlit("zoom-out");
    reveal_strlit("zoom-reset");
    reveal_strlit("check-updates");
    reveal_strlit("quit");
    assert("show-window"@.len() == 11);
    assert("hide-to-tray"@.len() == 12);
    assert("open-in-browser"@.len() == 15);
    assert("open-downloads"@.len() == 14);
    assert("open-latest-download"@.len() == 20);
    assert("nav-back"@.len() == 8);
    assert("nav-forward"@.len() == 11);
    assert("reload"@.len() == 6);
    assert("retry-connection"@.len() == 16);
    assert("zoom-in"@.len() == 7);
    assert("zoom-out"@.len() == 8);
    assert("zoom-reset"@.len() == 10);
    assert("check-updates"@.len() == 13);
    assert("quit"@.len() == 4);
    assert("show-window"@[0] != "nav-forward"@[0]);
    assert("nav-back"@[0] != "zoom-out"@[0]);
    match action {
        MenuAction::ShowWindow => {},
        MenuAction::HideToTray => {},
        MenuAction::OpenInBrowser => {},
        MenuAction::OpenDownloads => {},
        MenuAction::OpenLatestDownload => {},
        MenuAction::NavBack => {},
        MenuAction::NavForward => {},
        MenuAction::Reload => {},
        MenuAction::RetryConnection => {},
        MenuAction::ZoomIn => {},
        MenuAction::ZoomOut => {},
        MenuAction::ZoomReset => {},
        MenuAction::CheckUpdates => {},
        MenuAction::Quit => {},
    }
}

/// An entry of a menu.
#[derive(Debug, Clone, Copy)]
pub enum MenuEntry {
    /// An item that runs `action`, with its text and keyboard shortcut.
    Command { action: MenuAction, label: &'static str, accelerator: Option<&'static str> },
    Separator,
    Cut,
    Copy,
    Paste,
    SelectAll,
    /// The platform's "About" item, pointing to the app's website.
    About { website: &'static str, website_label: &'static str },
}

/// A menu entry, as mathematical values.
pub enum EntryView {
    Command { action: MenuAction, label: Seq<char>, accelerator: Option<Seq<char>> },
    Separator,
    Cut,
    Copy,
    Paste,
    SelectAll,
    About { website: Seq<char>, website_label: Seq<char> },
}

impl View for MenuEntry {
    type V = EntryView;

    open spec fn view(&self) -> EntryView {
        match *self {
            MenuEntry::Command { action, label, accelerator } => EntryView::Command {
                action,
                label: label@,
                accelerator: match accelerator {
                    Some(a) => Some(a@),
                    None => None,
                },
            },
            MenuEntry::Separator => EntryView::Separator,
            MenuEntry::Cut => EntryView::Cut,
            MenuEntry::Copy => EntryView::Copy,
            MenuEntry::Paste => EntryView::Paste,
            MenuEntry::SelectAll => EntryView::SelectAll,
            MenuEntry::About { website, website_label } => EntryView::About {
                website: website@,
                website_label: website_label@,
            },
        }
    }
}

/// A submenu of the menu bar: its title and entries.
#[derive(Debug)]
pub struct Submenu {
    pub title: &'static str,
    pub entries: Vec<MenuEntry>,
}

/// A submenu, as mathematical values.
pub struct SubmenuView {
    pub title: Seq<char>,
    pub entries: Seq<EntryView>,
}

pub open spec fn entries_view(entries: Seq<MenuEntry>) -> Seq<EntryView> {
    entries.map_values(|e: MenuEntry| e@)
}

pub open spec fn submenus_view(menus: Seq<Submenu>) -> Seq<SubmenuView> {
    menus.map_values(|m: Submenu| SubmenuView { title: m.title@, entries: entries_view(m.entries@) })
}

pub open spec fn command(action: MenuAction, label: Seq<char>, accelerator: Option<Seq<char>>) -> EntryView {
    EntryView::Command { action, label, accelerator }
}

/// The menu bar: File, Edit, View and Help.
pub open spec fn spec_app_menu() -> Seq<SubmenuView> {
    seq![
        SubmenuView {
            title: "File"@,
            entries: seq![
                command(MenuAction::ShowWindow, "Show Deni AI"@, None),
                command(MenuAction::HideToTray, "Hide to Tray"@, Some("Ctrl+W"@)),
                EntryView::Separator,
                command(MenuAction::OpenInBrowser, "Open in Browser"@, Some("Ctrl+Shift+O"@)),
                command(MenuAction::OpenDownloads, "Open Downloads Folder"@, Some("Ctrl+Shift+D"@)),
                command(MenuAction::OpenLatestDownload, "Open Latest Download"@, Some("Ctrl+Alt+O"@)),
                EntryView::Separator,
                command(MenuAction::Quit, "Quit"@, Some("Ctrl+Q"@)),
            ],
        },
        SubmenuView {
            title: "Edit"@,
            entries: seq![EntryView::Cut, EntryView::Copy, EntryView::Paste, EntryView::SelectAll],
        },
        SubmenuView {
            title: "View"@,
            entries: seq![
                command(MenuAction::NavBack, "Back"@, Some("Alt+Left"@)),
                command(MenuAction::NavForward, "Forward"@, Some("Alt+Right"@)),
                EntryView::Separator,
                command(MenuAction::Reload, "Reload"@, Some("Ctrl+R"@)),
                command(MenuAction::RetryConnection, "Retry Connection"@, Some("Ctrl+Shift+R"@)),
                EntryView::Separator,
                command(MenuAction::ZoomIn, "Zoom In"@, Some("Ctrl+="@)),
                command(MenuAction::ZoomOut, "Zoom Out"@, Some("Ctrl+-"@)),
                command(MenuAction::ZoomReset, "Actual Size"@, Some("Ctrl+0"@)),
            ],
        },
        SubmenuView {
            title: "Help"@,
            entries: seq![
                command(MenuAction::CheckUpdates, "Check for Updates"@, Some("Ctrl+Shift+U"@)),
                EntryView::Separator,
                EntryView::About { website: "https://deniai.app"@, website_label: "deniai.app"@ },
            ],
        },
    ]
}

/// The command an entry runs, if it is a command.
pub open spec fn entry_action(e: EntryView) -> Option<MenuAction> {
    match e {
        EntryView::Command { action, .. } => Some(action),
        _ => None,
    }
}

/// The label of a command entry.
pub open spec fn entry_label(e: EntryView) -> Option<Seq<char>> {
    match e {
        EntryView::Command { label, .. } => Some(label),
        _ => None,
    }
}

/// The keyboard shortcut of a command entry.
pub open spec fn entry_accelerator(e: EntryView) -> Option<Seq<char>> {
    match e {
        EntryView::Command { accelerator, .. } => accelerator,
        _ => None,
    }
}

/// Each command item of the menu bar shows the text and shortcut of the
/// command it runs: "Zoom In" (Ctrl+=) zooms in, "Quit" (Ctrl+Q) quits, and
/// so on for every command.
pub proof fn lemma_app_menu_labels_match_commands(i: int, j: int)
    requires
        0 <= i < spec_app_menu().len(),
        0 <= j < spec_app_menu()[i].entries.len(),
    ensures
        entry_action(spec_app_menu()[i].entries[j]) matches Some(a) ==> entry_label(
            spec_app_menu()[i].entries[j],
        ) == Some(match a {
            MenuAction::ShowWindow => "Show Deni AI"@,
            MenuAction::HideToTray => "Hide to Tray"@,
            MenuAction::OpenInBrowser => "Open in Browser"@,
            MenuAction::OpenDownloads => "Open Downloads Folder"@,
            MenuAction::OpenLatestDownload => "Open Latest Download"@,
            MenuAction::NavBack => "Back"@,
            MenuAction::NavForward => "Forward"@,
            MenuAction::Reload => "Reload"@,
            MenuAction::RetryConnection => "Retry Connection"@,
            MenuAction::ZoomIn => "Zoom In"@,
            MenuAction::ZoomOut => "Zoom Out"@,
            MenuAction::ZoomReset => "Actual Size"@,
            MenuAction::CheckUpdates => "Check for Updates"@,
            MenuAction::Quit => "Quit"@,
        }) && entry_accelerator(spec_app_menu()[i].entries[j]) == match a {
            MenuAction::ShowWindow => None,
            MenuAction::HideToTray => Some("Ctrl+W"@),
            MenuAction::OpenInBrowser => Some("Ctrl+Shift+O"@),
            MenuAction::OpenDownloads => Some("Ctrl+Shift+D"@),
            MenuAction::OpenLatestDownload => Some("Ctrl+Alt+O"@),
            MenuAction::NavBack => Some("Alt+Left"@),
            MenuAction::NavForward => Some("Alt+Right"@),
            MenuAction::Reload => Some("Ctrl+R"@),
            MenuAction::RetryConnection => Some("Ctrl+Shift+R"@),
            MenuAction::ZoomIn => Some("Ctrl+="@),
            MenuAction::ZoomOut => Some("Ctrl+-"@),
            MenuAction::ZoomReset => Some("Ctrl+0"@),
            MenuAction::CheckUpdates => Some("Ctrl+Shift+U"@),
            MenuAction::Quit => Some("Ctrl+Q"@),
        },
{
}

/// Every command item of the menu bar is registered under an id that the
/// menu handler maps back to that same command.
pub proof fn lemma_app_menu_items_are_handled(i: int, j: int)
    requires
        0 <= i < spec_app_menu().len(),
        0 <= j < spec_app_menu()[i].entries.len(),
    ensures
        entry_action(spec_app_menu()[i].entries[j]) matches Some(a) ==> spec_menu_action(
            spec_menu_id(a),
        ) == Some(a),
{
    if let Some(a) = entry_action(spec_app_menu()[i].entries[j]) {
        lemma_menu_id_round_trip(a);
    }
}

/// No command appears twice in the menu bar.
pub proof fn lemma_app_menu_commands_distinct(i1: int, j1: int, i2: int, j2: int)
    requires
        0 <= i1 < spec_app_menu().len(),
        0 <= j1 < spec_app_menu()[i1].entries.len(),
        0 <= i2 < spec_app_menu().len(),
        0 <= j2 < spec_app_menu()[i2].entries.len(),
        i1 != i2 || j1 != j2,
        entry_action(spec_app_menu()[i1].entries[j1]) is Some,
    ensures
        entry_action(spec_app_menu()[i1].entries[j1]) != entry_action(spec_app_menu()[i2].entries[j2]),
{
}

/// The layout of the menu bar.
pub fn app_menu_layout() -> (menus: Vec<Submenu>)
    ensures
        submenus_view(menus@) == spec_app_menu(),
{
    let file = Submenu {
        title: "File",
        entries: vec![
            MenuEntry::Command { action: MenuAction::ShowWindow, label: "Show Deni AI", accelerator: None },
            MenuEntry::Command { action: MenuAction::HideToTray, label: "Hide to Tray", accelerator: Some("Ctrl+W") },
            MenuEntry::Separator,
            MenuEntry::Command { action: MenuAction::OpenInBrowser, label: "Open in Browser", accelerator: Some("Ctrl+Shift+O") },
            MenuEntry::Command { action: MenuAction::OpenDownloads, label: "Open Downloads Folder", accelerator: Some("Ctrl+Shift+D") },
            MenuEntry::Command { action: MenuAction::OpenLatestDownload, label: "Open Latest Download", accelerator: Some("Ctrl+Alt+O") },
            MenuEntry::Separator,
            MenuEntry::Command { action: MenuAction::Quit, label: "Quit", accelerator: Some("Ctrl+Q") },
        ],
    };
    let edit = Submenu {
        title: "Edit",
        entries: vec![MenuEntry::Cut, MenuEntry::Copy, MenuEntry::Paste, MenuEntry::SelectAll],
    };
    let view = Submenu {
        title: "View",
        entries: vec![
            MenuEntry::Command { action: MenuAction::NavBack, label: "Back", accelerator: Some("Alt+Left") },
            MenuEntry::Command { action: MenuAction::NavForward, label: "Forward", accelerator: Some("Alt+Right") },
            MenuEntry::Separator,
            MenuEntry::Command { action: MenuAction::Reload, label: "Reload", accelerator: Some("Ctrl+R") },
            MenuEntry::Command { action: MenuAction::RetryConnection, label: "Retry Connection", accelerator: Some("Ctrl+Shift+R") },
            MenuEntry::Separator,
            MenuEntry::Command { action: MenuAction::ZoomIn, label: "Zoom In", accelerator: Some("Ctrl+=") },
            MenuEntry::Command { action: MenuAction::ZoomOut, label: "Zoom Out", accelerator: Some("Ctrl+-") },
            MenuEntry::Command { action: MenuAction::ZoomReset, label: "Actual Size", accelerator: Some("Ctrl+0") },
        ],
    };
    let help = Submenu {
        title: "Help",
        entries: vec![
            MenuEntry::Command { action: MenuAction::CheckUpdates, label: "Check for Updates", accelerator: Some("Ctrl+Shift+U") },
            MenuEntry::Separator,
            MenuEntry::About { website: "https://deniai.app", website_label: "deniai.app" },
        ],
    };
    let menus = vec![file, edit, view, help];
    assert(entries_view(menus@[0].entries@) =~= spec_app_menu()[0].entries);
    assert(entries_view(menus@[1].entries@) =~= spec_app_menu()[1].entries);
    assert(entries_view(menus@[2].entries@) =~= spec_app_menu()[2].entries);
    assert(entries_view(menus@[3].entries@) =~= spec_app_menu()[3].entries);
    assert(submenus_view(menus@) =~= spec_app_menu());
    menus
}

} // verus!
