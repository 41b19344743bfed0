use deni_desktop::menu::MenuAction;
use deni_desktop::state::DesktopState;
use deni_desktop::url_guard::{
    default_app_url, is_allowed_url, is_app_managed_auth_url, is_in_app_url, parse_allowed_url,
    APP_ORIGIN, APP_START_URL,
};
use deni_desktop::webview::MenuEffect;

/// Parses `input` through the shell's "Open in Browser" command, which hands
/// on any URL that parses.
fn parsed(input: &str) -> deni_desktop::url_guard::ParsedUrl {
    let mut s = DesktopState::new("T".to_string(), input);
    match s.run_menu_command(MenuAction::OpenInBrowser) {
        MenuEffect::OpenInBrowser(u) => u,
        other => panic!("unexpected {:?}", other),
    }
}

fn allowed(input: &str) -> bool {
    parse_allowed_url(input).is_some()
}

#[test]
fn chat_routes_stay_in_app() {
    assert!(allowed("https://deniai.app/chat"));
    assert!(allowed("https://deniai.app/chat/123"));
    assert!(allowed("https://deniai.app/chat/abc/def?x=1#frag"));
}

#[test]
fn site_root_leaves_the_app() {
    assert!(!allowed("https://deniai.app/"));
    assert!(!allowed("https://deniai.app"));
}

#[test]
fn sign_in_routes_stay_in_app() {
    assert!(allowed("https://deniai.app/auth/sign-in"));
    assert!(allowed("https://deniai.app/auth/sign-in/callback"));
}

#[test]
fn google_sign_in_flow_stays_in_app() {
    assert!(allowed("https://deniai.app/api/auth/callback/google"));
    assert!(allowed("https://deniai.app/api/auth/callback/google?code=x"));
    assert!(allowed("https://accounts.google.com/o/oauth2/v2/auth"));
    assert!(allowed("https://lh3.googleusercontent.com/a/photo"));
}

#[test]
fn other_destinations_leave_the_app() {
    assert!(!allowed("https://deniai.app/settings"));
    assert!(!allowed("https://deniai.app/chats"));
    assert!(!allowed("https://deniai.app/auth/sign-up"));
    assert!(!allowed("http://deniai.app/chat"));
    assert!(!allowed("https://deniai.app:8443/chat"));
    assert!(!allowed("https://www.deniai.app/chat"));
    assert!(!allowed("http://accounts.google.com/"));
    assert!(!allowed("https://googleusercontent.com/"));
    assert!(!allowed("https://example.com/chat"));
    assert!(!allowed("mailto:someone@example.com"));
    assert!(!allowed("not a url"));
    assert!(!allowed(""));
}

#[test]
fn parsed_url_keeps_serialization() {
    let u = parse_allowed_url("HTTPS://DENIAI.APP/chat").unwrap();
    assert_eq!(u.href(), "https://deniai.app/chat");
    assert_eq!(u.scheme(), "https");
    assert_eq!(u.origin(), APP_ORIGIN);
    assert_eq!(u.path(), "/chat");
    assert_eq!(u.domain(), Some("deniai.app"));

    let root = parsed("https://deniai.app");
    assert_eq!(root.href(), "https://deniai.app/");
    assert_eq!(root.path(), "/");
}

#[test]
fn default_url_is_start_page() {
    let u = default_app_url();
    assert_eq!(APP_START_URL, "https://deniai.app/chat");
    assert_eq!(u.href(), APP_START_URL);
    assert_eq!(u.scheme(), "https");
    assert_eq!(u.origin(), "https://deniai.app");
    assert_eq!(u.path(), "/chat");
    assert_eq!(u.domain(), Some("deniai.app"));
    assert!(is_allowed_url(&u));
    assert!(is_in_app_url(&u));
}

#[test]
fn guards_on_parsed_urls() {
    let in_app = parsed("https://deniai.app/chat/1");
    assert!(is_in_app_url(&in_app));
    assert!(!is_app_managed_auth_url(&in_app));

    let callback = parsed("https://deniai.app/api/auth/callback/google/x");
    assert!(!is_in_app_url(&callback));
    assert!(is_app_managed_auth_url(&callback));

    let google = parsed("https://accounts.google.com/");
    assert!(is_app_managed_auth_url(&google));
    assert!(is_allowed_url(&google));

    let no_domain = parsed("https://1.2.3.4/");
    assert_eq!(no_domain.domain(), None);
    assert!(!is_allowed_url(&no_domain));

    let opaque = parsed("file:///chat");
    assert_eq!(opaque.origin(), "null");
    assert!(!is_allowed_url(&opaque));
}
