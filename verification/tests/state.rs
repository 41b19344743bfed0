use deni_desktop::state::{
    DesktopState, DEFAULT_ZOOM_PERCENT, MAX_ZOOM_PERCENT, MIN_ZOOM_PERCENT, ZOOM_STEP_PERCENT,
};

fn fresh() -> DesktopState {
    DesktopState::new("Deni AI".to_string(), "https://deniai.app/chat")
}

#[test]
fn new_state_defaults() {
    let s = fresh();
    assert_eq!(s.app_title(), "Deni AI");
    assert_eq!(s.current_url(), "https://deniai.app/chat");
    assert_eq!(s.zoom_percent(), DEFAULT_ZOOM_PERCENT);
    assert_eq!(s.last_download_path(), None);
    assert!(!s.is_quitting());
}

#[test]
fn loading_title_appends_suffix() {
    assert_eq!(fresh().loading_title(), "Deni AI - Loading");
}

#[test]
fn set_current_url_replaces() {
    let mut s = fresh();
    s.set_current_url("https://deniai.app/chat/1".to_string());
    assert_eq!(s.current_url(), "https://deniai.app/chat/1");
}

#[test]
fn zoom_is_clamped() {
    let mut s = fresh();
    assert_eq!(s.set_zoom(500), MAX_ZOOM_PERCENT);
    assert_eq!(s.zoom_percent(), 200);
    assert_eq!(s.set_zoom(-3), MIN_ZOOM_PERCENT);
    assert_eq!(s.zoom_percent(), 80);
    assert_eq!(s.set_zoom(130), 130);
    assert_eq!(s.set_zoom(i64::MAX), 200);
    assert_eq!(s.set_zoom(i64::MIN), 80);
}

#[test]
fn zoom_steps_and_saturates() {
    let mut s = fresh();
    assert_eq!(s.adjust_zoom(ZOOM_STEP_PERCENT), 110);
    assert_eq!(s.adjust_zoom(-ZOOM_STEP_PERCENT), 100);
    for _ in 0..20 {
        s.adjust_zoom(ZOOM_STEP_PERCENT);
    }
    assert_eq!(s.zoom_percent(), 200);
    for _ in 0..20 {
        s.adjust_zoom(-ZOOM_STEP_PERCENT);
    }
    assert_eq!(s.zoom_percent(), 80);
    assert_eq!(s.adjust_zoom(i32::MAX), 200);
    assert_eq!(s.adjust_zoom(i32::MIN), 80);
}

#[test]
fn zoom_round_trip_away_from_ends() {
    let mut s = fresh();
    s.set_zoom(150);
    s.adjust_zoom(ZOOM_STEP_PERCENT);
    s.adjust_zoom(-ZOOM_STEP_PERCENT);
    assert_eq!(s.zoom_percent(), 150);
}

#[test]
fn last_download_is_remembered() {
    let mut s = fresh();
    s.set_last_download_path("/tmp/a.txt".to_string());
    assert_eq!(s.last_download_path().as_deref(), Some("/tmp/a.txt"));
    s.set_last_download_path("/tmp/b.txt".to_string());
    assert_eq!(s.last_download_path().as_deref(), Some("/tmp/b.txt"));
}

#[test]
fn quitting_flag_is_one_way() {
    let mut s = fresh();
    s.mark_quitting();
    assert!(s.is_quitting());
    s.set_zoom(120);
    s.set_current_url("x".to_string());
    assert!(s.is_quitting());
}

#[test]
fn tray_notice_flag_reports_previous() {
    let mut s = fresh();
    assert!(!s.mark_tray_notice_sent());
    assert!(s.mark_tray_notice_sent());
    assert!(s.mark_tray_notice_sent());
}
