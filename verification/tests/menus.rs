use deni_desktop::menu::{app_menu_layout, menu_action, menu_id, MenuAction, MenuEntry};
use deni_desktop::tray::{
    tray_event_shows_window, tray_menu_layout, ButtonStateKind, MouseButtonKind, TrayPointerEvent,
    TRAY_ID,
};

const ALL: [MenuAction; 14] = [
    MenuAction::ShowWindow,
    MenuAction::HideToTray,
    MenuAction::OpenInBrowser,
    MenuAction::OpenDownloads,
    MenuAction::OpenLatestDownload,
    MenuAction::NavBack,
    MenuAction::NavForward,
    MenuAction::Reload,
    MenuAction::RetryConnection,
    MenuAction::ZoomIn,
    MenuAction::ZoomOut,
    MenuAction::ZoomReset,
    MenuAction::CheckUpdates,
    MenuAction::Quit,
];

#[test]
fn menu_ids_round_trip() {
    for a in ALL {
        assert_eq!(menu_action(menu_id(a)), Some(a));
    }
    assert_eq!(menu_id(MenuAction::RetryConnection), "retry-connection");
    assert_eq!(menu_action("zoom-reset"), Some(MenuAction::ZoomReset));
    assert_eq!(menu_action("Quit"), None);
    assert_eq!(menu_action(""), None);
}

#[test]
fn app_menu_has_four_submenus() {
    let m = app_menu_layout();
    let titles: Vec<&str> = m.iter().map(|s| s.title).collect();
    assert_eq!(titles, vec!["File", "Edit", "View", "Help"]);
    assert_eq!(m[0].entries.len(), 8);
    assert_eq!(m[1].entries.len(), 4);
    assert_eq!(m[2].entries.len(), 9);
    assert_eq!(m[3].entries.len(), 3);
    match m[2].entries[8] {
        MenuEntry::Command { action, label, accelerator } => {
            assert_eq!(action, MenuAction::ZoomReset);
            assert_eq!(label, "Actual Size");
            assert_eq!(accelerator, Some("Ctrl+0"));
        }
        _ => panic!("expected a command"),
    }
    match m[3].entries[2] {
        MenuEntry::About { website, website_label } => {
            assert_eq!(website, "https://deniai.app");
            assert_eq!(website_label, "deniai.app");
        }
        _ => panic!("expected About"),
    }
}

#[test]
fn app_menu_commands_are_unique_and_complete() {
    let mut seen = Vec::new();
    for sub in app_menu_layout() {
        for e in sub.entries {
            if let MenuEntry::Command { action, .. } = e {
                assert!(!seen.contains(&action));
                seen.push(action);
            }
        }
    }
    assert_eq!(seen.len(), ALL.len());
}

#[test]
fn tray_menu_layout_items() {
    let t = tray_menu_layout();
    assert_eq!(t.len(), 10);
    let actions: Vec<MenuAction> = t
        .iter()
        .filter_map(|e| match e {
            MenuEntry::Command { action, accelerator, .. } => {
                assert_eq!(*accelerator, None);
                Some(*action)
            }
            _ => None,
        })
        .collect();
    assert_eq!(
        actions,
        vec![
            MenuAction::ShowWindow,
            MenuAction::Reload,
            MenuAction::OpenInBrowser,
            MenuAction::OpenDownloads,
            MenuAction::OpenLatestDownload,
            MenuAction::CheckUpdates,
            MenuAction::Quit,
        ]
    );
    assert_eq!(TRAY_ID, "main-tray");
}

#[test]
fn left_click_restores_window() {
    let up = TrayPointerEvent::Click { button: MouseButtonKind::Left, state: ButtonStateKind::Up };
    assert!(tray_event_shows_window(up));
    let down = TrayPointerEvent::Click { button: MouseButtonKind::Left, state: ButtonStateKind::Down };
    assert!(!tray_event_shows_window(down));
    let right = TrayPointerEvent::Click { button: MouseButtonKind::Right, state: ButtonStateKind::Up };
    assert!(!tray_event_shows_window(right));
    assert!(tray_event_shows_window(TrayPointerEvent::DoubleClick { button: MouseButtonKind::Left }));
    assert!(!tray_event_shows_window(TrayPointerEvent::DoubleClick { button: MouseButtonKind::Middle }));
    assert!(!tray_event_shows_window(TrayPointerEvent::Other));
}
