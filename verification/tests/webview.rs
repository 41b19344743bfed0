use deni_desktop::menu::MenuAction;
use deni_desktop::state::DesktopState;
use deni_desktop::webview::{
    downloads_folder_error, history_script, latest_download_target, CloseDecision, LinkDecision,
    MenuEffect, NO_DOWNLOAD_NOTICE, TRAY_NOTICE,
};

fn fresh() -> DesktopState {
    DesktopState::new("Deni AI".to_string(), "https://deniai.app/chat")
}

#[test]
fn allowed_link_loads_in_app() {
    let mut s = fresh();
    assert_eq!(s.route_link("https://deniai.app/chat/42"), LinkDecision::OpenInApp);
    assert_eq!(s.current_url(), "https://deniai.app/chat/42");
}

#[test]
fn other_link_opens_externally_and_keeps_state() {
    let mut s = fresh();
    assert_eq!(s.route_link("https://github.com/deniai"), LinkDecision::OpenExternally);
    assert_eq!(s.current_url(), "https://deniai.app/chat");
    assert_eq!(s.route_link("::not a url::"), LinkDecision::OpenExternally);
    assert_eq!(s.current_url(), "https://deniai.app/chat");
}

#[test]
fn link_is_stored_as_its_serialization() {
    let mut s = fresh();
    assert_eq!(s.route_link("HTTPS://DENIAI.APP/chat/1"), LinkDecision::OpenInApp);
    assert_eq!(s.current_url(), "https://deniai.app/chat/1");
}

#[test]
fn second_instance_takes_first_allowed_argument() {
    let mut s = fresh();
    let args = vec![
        "deni-ai.exe".to_string(),
        "https://example.com/".to_string(),
        "https://deniai.app/chat/7".to_string(),
        "https://deniai.app/chat/8".to_string(),
    ];
    let u = s.on_second_instance(&args).unwrap();
    assert_eq!(u.href(), "https://deniai.app/chat/7");
    assert_eq!(s.current_url(), "https://deniai.app/chat/7");
}

#[test]
fn second_instance_without_allowed_argument_changes_nothing() {
    let mut s = fresh();
    let args = vec!["deni-ai.exe".to_string(), "https://example.com/".to_string()];
    assert!(s.on_second_instance(&args).is_none());
    assert!(s.on_second_instance(&Vec::new()).is_none());
    assert_eq!(s.current_url(), "https://deniai.app/chat");
}

#[test]
fn retry_goes_to_current_allowed_page() {
    let mut s = fresh();
    s.set_current_url("https://deniai.app/chat/9".to_string());
    assert_eq!(s.retry_target().href(), "https://deniai.app/chat/9");
}

#[test]
fn retry_falls_back_to_start_page() {
    let mut s = fresh();
    s.set_current_url("https://example.com/offline".to_string());
    assert_eq!(s.retry_target().href(), "https://deniai.app/chat");
    s.set_current_url("https://deniai.app/".to_string());
    assert_eq!(s.retry_target().href(), "https://deniai.app/chat");
    s.set_current_url("garbage".to_string());
    assert_eq!(s.retry_target().href(), "https://deniai.app/chat");
}

#[test]
fn browser_target_keeps_any_parsable_page() {
    let mut s = fresh();
    s.set_current_url("https://example.com/offline".to_string());
    assert_eq!(s.browser_target().href(), "https://example.com/offline");
    s.set_current_url("garbage".to_string());
    assert_eq!(s.browser_target().href(), "https://deniai.app/chat");
}

#[test]
fn history_scripts() {
    assert_eq!(history_script("back"), Some("window.history.back();"));
    assert_eq!(history_script("forward"), Some("window.history.forward();"));
    assert_eq!(history_script("up"), None);
    assert_eq!(history_script(""), None);
}

#[test]
fn close_hides_with_notice_once() {
    let mut s = fresh();
    match s.on_close_requested() {
        CloseDecision::HideToTray { notice } => assert_eq!(notice.as_deref(), Some(TRAY_NOTICE)),
        CloseDecision::Close => panic!("window closed"),
    }
    match s.on_close_requested() {
        CloseDecision::HideToTray { notice } => assert_eq!(notice, None),
        CloseDecision::Close => panic!("window closed"),
    }
}

#[test]
fn close_after_quit_closes() {
    let mut s = fresh();
    s.mark_quitting();
    assert!(matches!(s.on_close_requested(), CloseDecision::Close));
    assert!(!s.mark_tray_notice_sent());
}

#[test]
fn page_load_titles() {
    let mut s = fresh();
    let t = s.on_page_load_started("https://deniai.app/chat".to_string());
    assert_eq!(t, "Deni AI - Loading");
    assert_eq!(s.current_url(), "https://deniai.app/chat");
    s.set_zoom(120);
    let ready = s.on_page_load_finished("https://deniai.app/chat/1".to_string());
    assert_eq!(ready.title, "Deni AI");
    assert_eq!(ready.zoom_percent, 120);
    assert_eq!(s.current_url(), "https://deniai.app/chat/1");
}

#[test]
fn download_notices_and_tracking() {
    let mut s = fresh();
    let n = s.on_download_finished("https://x/f.pdf", Some("/home/u/f.pdf".to_string()), true);
    assert_eq!(n, "Downloaded https://x/f.pdf to /home/u/f.pdf");
    assert_eq!(s.last_download_path().as_deref(), Some("/home/u/f.pdf"));

    let n = s.on_download_finished("https://x/g.pdf", None, true);
    assert_eq!(n, "Downloaded https://x/g.pdf");
    assert_eq!(s.last_download_path().as_deref(), Some("/home/u/f.pdf"));

    let n = s.on_download_finished("https://x/h.pdf", Some("/home/u/h.pdf".to_string()), false);
    assert_eq!(n, "Download failed for https://x/h.pdf");
    assert_eq!(s.last_download_path().as_deref(), Some("/home/u/f.pdf"));
}

#[test]
fn latest_download_needs_existing_file() {
    assert_eq!(latest_download_target(Some("a".to_string()), true), Some("a".to_string()));
    assert_eq!(latest_download_target(Some("a".to_string()), false), None);
    assert_eq!(latest_download_target(None, false), None);
    assert!(NO_DOWNLOAD_NOTICE.starts_with("No completed download"));
}

#[test]
fn downloads_error_message() {
    assert_eq!(downloads_folder_error("no home"), "Couldn't open Downloads: no home");
}

#[test]
fn menu_commands_zoom_and_quit() {
    let mut s = fresh();
    assert!(matches!(s.run_menu_command(MenuAction::ZoomIn), MenuEffect::ApplyZoom(110)));
    assert!(matches!(s.run_menu_command(MenuAction::ZoomIn), MenuEffect::ApplyZoom(120)));
    assert!(matches!(s.run_menu_command(MenuAction::ZoomOut), MenuEffect::ApplyZoom(110)));
    assert!(matches!(s.run_menu_command(MenuAction::ZoomReset), MenuEffect::ApplyZoom(100)));
    assert_eq!(s.zoom_percent(), 100);
    assert!(matches!(s.run_menu_command(MenuAction::Quit), MenuEffect::Exit));
    assert!(s.is_quitting());
}

#[test]
fn menu_commands_navigation() {
    let mut s = fresh();
    assert!(matches!(
        s.run_menu_command(MenuAction::NavBack),
        MenuEffect::RunScript("window.history.back();")
    ));
    assert!(matches!(
        s.run_menu_command(MenuAction::NavForward),
        MenuEffect::RunScript("window.history.forward();")
    ));
    s.set_current_url("https://example.com/".to_string());
    match s.run_menu_command(MenuAction::RetryConnection) {
        MenuEffect::LoadPage(u) => assert_eq!(u.href(), "https://deniai.app/chat"),
        other => panic!("unexpected {:?}", other),
    }
    match s.run_menu_command(MenuAction::OpenInBrowser) {
        MenuEffect::OpenInBrowser(u) => assert_eq!(u.href(), "https://example.com/"),
        other => panic!("unexpected {:?}", other),
    }
    s.set_last_download_path("/d/x".to_string());
    match s.run_menu_command(MenuAction::OpenLatestDownload) {
        MenuEffect::OpenLatestDownload(p) => assert_eq!(p.as_deref(), Some("/d/x")),
        other => panic!("unexpected {:?}", other),
    }
}

#[test]
fn menu_events_by_id() {
    let mut s = fresh();
    assert!(matches!(s.on_menu_event("show-window"), Some(MenuEffect::ShowWindow)));
    assert!(matches!(s.on_menu_event("hide-to-tray"), Some(MenuEffect::HideWindow)));
    assert!(matches!(s.on_menu_event("open-downloads"), Some(MenuEffect::OpenDownloadsFolder)));
    assert!(matches!(s.on_menu_event("reload"), Some(MenuEffect::ReloadPage)));
    assert!(matches!(s.on_menu_event("check-updates"), Some(MenuEffect::CheckForUpdates)));
    assert!(s.on_menu_event("unknown").is_none());
    assert!(!s.is_quitting());
    assert!(matches!(s.on_menu_event("quit"), Some(MenuEffect::Exit)));
    assert!(s.is_quitting());
}

#[test]
fn reload_falls_back_to_retry_only_when_script_fails() {
    let mut s = fresh();
    s.set_current_url("https://deniai.app/chat/5".to_string());
    assert!(s.reload_fallback(true).is_none());
    assert_eq!(s.reload_fallback(false).unwrap().href(), "https://deniai.app/chat/5");
    s.set_current_url("https://example.com/".to_string());
    assert_eq!(s.reload_fallback(false).unwrap().href(), "https://deniai.app/chat");
}
