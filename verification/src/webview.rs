//! What the shell does on the events of its main webview: links, new-window
//! requests, page loads, downloads, close requests and a second launch.
//!
//! Each handler updates the [`DesktopState`] and returns what the window
//! should do; showing, navigating and notifying are left to the caller.

use vstd::prelude::*;

use crate::menu::{menu_action, spec_menu_action, MenuAction};
use crate::state::{
    clamp_zoom, MAX_ZOOM_PERCENT, MIN_ZOOM_PERCENT, spec_loading_title, with_current_url, with_last_download, with_quitting,
    with_tray_notice_sent, with_zoom, DesktopState, DesktopView, DEFAULT_ZOOM_PERCENT,
    ZOOM_STEP_PERCENT,
};
use crate::url_guard::{
    default_app_url, lemma_start_url_in_app, opt_string_view, opt_url_view, parse_allowed_url,
    parse_url, parses_to_allowed, spec_allowed_parse, spec_is_allowed_url, start_url_view, url_parse_result,
    ParsedUrl, UrlView, APP_START_URL,
};

verus! {

/// Notice shown the first time the window is closed to the tray.
pub const TRAY_NOTICE: &'static str =
    "Closing the window keeps Deni AI running in the tray. Use Quit to exit fully.";

/// Notice shown when "Open Latest Download" has nothing to open.
pub const NO_DOWNLOAD_NOTICE: &'static str =
    "No completed download has been captured in this session yet.";

/// Where a link should be loaded.
#[derive(PartialEq, Eq, Structural, Debug, Clone, Copy)]
pub enum LinkDecision {
    /// In the main window.
    OpenInApp,
    /// In the system browser.
    OpenExternally,
}

/// What to do on a request to close the main window.
#[derive(Debug)]
pub enum CloseDecision {
    /// Let the window close: the user asked to quit.
    Close,
    /// Keep the app running: hide the window to the tray, and show `notice`
    /// where there is one.
    HideToTray { notice: Option<String> },
}

/// What to apply to the window once a page has loaded.
#[derive(Debug)]
pub struct PageReady {
    pub title: String,
    pub zoom_percent: u32,
}

/// The first of `args` that parses to an allowed URL, parsed.
pub open spec fn first_allowed(args: Seq<Seq<char>>) -> Option<UrlView>
    decreases args.len(),
{
    if args.len() == 0 {
        None
    } else {
        match spec_allowed_parse(args[0]) {
            Some(u) => Some(u),
            None => first_allowed(args.drop_first()),
        }
    }
}

pub open spec fn strings_view(v: Seq<String>) -> Seq<Seq<char>> {
    v.map_values(|s: String| s@)
}

/// Where "Retry Connection" goes: the page on show where it is an allowed
/// URL, else the start page.
pub open spec fn spec_retry_target(current: Seq<char>) -> UrlView {
    match spec_allowed_parse(current) {
        Some(u) => u,
        None => start_url_view(),
    }
}

/// Where "Open in Browser" goes: the page on show where it parses, else the
/// start page.
pub open spec fn spec_browser_target(current: Seq<char>) -> UrlView {
    match url_parse_result(current) {
        Some(u) => u,
        None => start_url_view(),
    }
}

/// The script that moves the page through its history, for `"back"` and
/// `"forward"`.
pub open spec fn spec_history_script(direction: Seq<char>) -> Option<Seq<char>> {
    if direction == "back"@ {
        Some("window.history.back();"@)
    } else if direction == "forward"@ {
        Some("window.history.forward();"@)
    } else {
        None
    }
}

/// The notification that follows a finished download.
pub open spec fn spec_download_notice(url: Seq<char>, path: Option<Seq<char>>, success: bool) -> Seq<
    char,
> {
    if !success {
        "Download failed for "@ + url
    } else {
        match path {
            Some(p) => "Downloaded "@ + url + " to "@ + p,
            None => "Downloaded "@ + url,
        }
    }
}

/// The notice that a close request shows: the tray notice, the first time
/// the window hides to the tray, and nothing otherwise.
pub open spec fn spec_close_notice(v: DesktopView) -> Option<Seq<char>> {
    if v.quitting || v.tray_notice_sent {
        None
    } else {
        Some(TRAY_NOTICE@)
    }
}

/// The state after a close request.
pub open spec fn spec_after_close(v: DesktopView) -> DesktopView {
    if v.quitting {
        v
    } else {
        with_tray_notice_sent(v)
    }
}

/// The tray notice is shown at most once: after any close request, no later
/// close request shows it again.
pub proof fn lemma_tray_notice_at_most_once(v: DesktopView)
    ensures
        spec_close_notice(spec_after_close(v)) is None,
        spec_after_close(spec_after_close(v)) == spec_after_close(v),
{
}

/// Closing the window never quits the app until the user asked to quit;
/// after that, every close request closes it.
pub proof fn lemma_close_hides_until_quit(v: DesktopView)
    ensures
        !v.quitting ==> !spec_after_close(v).quitting,
        spec_after_close(with_quitting(v)) == with_quitting(v),
{
}

/// "Retry Connection" always loads an allowed page: the page on show where
/// it is allowed, else the start page, which is allowed too.
pub proof fn lemma_retry_stays_in_app(current: Seq<char>)
    ensures
        spec_is_allowed_url(spec_retry_target(current)),
{
    lemma_start_url_in_app();
}

/// "Retry Connection" reloads the page on show whenever it parses to an
/// allowed URL (an app page or a Google sign-in page alike), and goes to the
/// start page `https://deniai.app/chat` otherwise.
pub proof fn lemma_retry_keeps_allowed_page(current: Seq<char>)
    ensures
        match url_parse_result(current) {
            Some(u) => if spec_is_allowed_url(u) {
                spec_retry_target(current) == u
            } else {
                spec_retry_target(current) == start_url_view()
            },
            None => spec_retry_target(current) == start_url_view(),
        },
        start_url_view().href == APP_START_URL@,
{
}

/// "Open in Browser" hands on exactly the page on show whenever it parses,
/// whether or not it is an app page, and the start page only when it does
/// not parse.
pub proof fn lemma_browser_keeps_page_on_show(current: Seq<char>)
    ensures
        url_parse_result(current) matches Some(u) ==> spec_browser_target(current) == u,
        url_parse_result(current) is None ==> spec_browser_target(current) == start_url_view(),
{
}

/// A second launch loads a page in the window only if it is an allowed
/// URL, and only if one of the arguments parses to it.
pub proof fn lemma_second_instance_only_allowed(args: Seq<Seq<char>>)
    ensures
        first_allowed(args) matches Some(u) ==> spec_is_allowed_url(u) && exists|i: int|
            0 <= i < args.len() && url_parse_result(#[trigger] args[i]) == Some(u),
    decreases args.len(),
{
    if args.len() > 0 {
        match spec_allowed_parse(args[0]) {
            Some(u) => {
                assert(url_parse_result(args[0]) == Some(u));
            },
            None => {
                lemma_second_instance_only_allowed(args.drop_first());
                if let Some(u) = first_allowed(args.drop_first()) {
                    let i = choose|i: int|
                        0 <= i < args.drop_first().len() && url_parse_result(
                            #[trigger] args.drop_first()[i],
                        ) == Some(u);
                    assert(args[i + 1] == args.drop_first()[i]);
                }
            },
        }
    }
}

/// A second launch loads the first argument that parses to an allowed URL:
/// with none such, nothing; else an allowed URL that some argument parses
/// to, with no earlier argument parsing to an allowed one.
pub proof fn lemma_second_instance_picks_first(args: Seq<Seq<char>>)
    ensures
        first_allowed(args) is None <==> forall|i: int|
            0 <= i < args.len() ==> !parses_to_allowed(#[trigger] args[i]),
        first_allowed(args) matches Some(u) ==> exists|i: int|
            0 <= i < args.len() && url_parse_result(#[trigger] args[i]) == Some(u)
                && spec_is_allowed_url(u) && forall|j: int| 0 <= j < i ==> !parses_to_allowed(args[j]),
    decreases args.len(),
{
    if args.len() > 0 {
        let rest = args.drop_first();
        lemma_second_instance_picks_first(rest);
        assert forall|i: int| 0 <= i < rest.len() implies rest[i] == args[i + 1] by {}
        if parses_to_allowed(args[0]) {
            assert(url_parse_result(args[0]) == first_allowed(args));
        } else {
            if let Some(u) = first_allowed(rest) {
                let k = choose|k: int|
                    0 <= k < rest.len() && url_parse_result(#[trigger] rest[k]) == Some(u)
                        && spec_is_allowed_url(u) && forall|j: int|
                        0 <= j < k ==> !parses_to_allowed(rest[j]);
                assert(url_parse_result(args[k + 1]) == Some(u));
                assert forall|j: int| 0 <= j < k + 1 implies !parses_to_allowed(args[j]) by {
                    if j > 0 {
                        assert(args[j] == rest[j - 1]);
                    }
                }
            } else {
                assert forall|i: int| 0 <= i < args.len() implies !parses_to_allowed(
                    #[trigger] args[i],
                ) by {
                    if i > 0 {
                        assert(args[i] == rest[i - 1]);
                    }
                }
            }
        }
    }
}

/// Back runs the page's "history back", Forward its "history forward", and
/// no other direction runs anything.
pub proof fn lemma_history_scripts(direction: Seq<char>)
    ensures
        spec_history_script("back"@) == Some("window.history.back();"@),
        spec_history_script("forward"@) == Some("window.history.forward();"@),
        direction != "back"@ && direction != "forward"@ ==> spec_history_script(direction) is None,
{
    reveal_strlit("back");
    reveal_strlit("forward");
    assert("back"@.len() != "forward"@.len());
}

/// The first close before quitting shows the tray notice, and hides the
/// window without quitting.
pub proof fn lemma_first_close_shows_notice(v: DesktopView)
    ensures
        !v.quitting && !v.tray_notice_sent ==> spec_close_notice(v) == Some(TRAY_NOTICE@)
            && spec_after_close(v).tray_notice_sent && !spec_after_close(v).quitting,
        v.quitting ==> spec_close_notice(v) is None,
{
}

/// A successful download with a known destination is remembered; the
/// notice always names the download's URL, and a successful one with a
/// destination names the destination too.
pub proof fn lemma_download_notice_names_download(url: Seq<char>, path: Seq<char>)
    ensures
        url.is_suffix_of(spec_download_notice(url, None, true)),
        url.is_suffix_of(spec_download_notice(url, Some(path), false)),
        path.is_suffix_of(spec_download_notice(url, Some(path), true)),
        spec_download_notice(url, Some(path), true).subrange(
            "Downloaded "@.len() as int,
            ("Downloaded "@.len() + url.len()) as int,
        ) == url,
{
    let n = spec_download_notice(url, Some(path), true);
    assert(n.subrange("Downloaded "@.len() as int, ("Downloaded "@.len() + url.len()) as int) =~= url);
    assert(n.subrange(n.len() - path.len(), n.len() as int) =~= path);
    let m = spec_download_notice(url, None, true);
    assert(m.subrange(m.len() - url.len(), m.len() as int) =~= url);
    let f = spec_download_notice(url, Some(path), false);
    assert(f.subrange(f.len() - url.len(), f.len() as int) =~= url);
}

/// Zoom In moves the zoom level up one step and Zoom Out down one step
/// (within the range), Actual Size restores the default, Quit sets the
/// quitting flag, and every other command leaves the zoom and flags alone.
pub proof fn lemma_menu_command_effects(old: DesktopView, new: DesktopView, a: MenuAction, e: MenuEffect)
    requires
        spec_menu_effect(old, new, a, e),
        MIN_ZOOM_PERCENT <= old.zoom <= MAX_ZOOM_PERCENT,
    ensures
        a == MenuAction::ZoomIn ==> new.zoom == if old.zoom + 10 <= 200 { old.zoom + 10 } else { 200 },
        a == MenuAction::ZoomOut ==> new.zoom == if old.zoom - 10 >= 80 { old.zoom - 10 } else { 80 },
        a == MenuAction::ZoomReset ==> new.zoom == 100,
        a == MenuAction::Quit ==> new.quitting,
        a != MenuAction::Quit ==> new.quitting == old.quitting,
        new.current_url == old.current_url,
        new.tray_notice_sent == old.tray_notice_sent,
        new.last_download == old.last_download,
        !(a == MenuAction::ZoomIn || a == MenuAction::ZoomOut || a == MenuAction::ZoomReset)
            ==> new.zoom == old.zoom,
{
}

/// Lemma: the first allowed URL of a suffix, one step at a time.
proof fn lemma_first_allowed_step(args: Seq<Seq<char>>, i: int)
    requires
        0 <= i < args.len(),
    ensures
        first_allowed(args.subrange(i, args.len() as int)) == match spec_allowed_parse(args[i]) {
            Some(u) => Some(u),
            None => first_allowed(args.subrange(i + 1, args.len() as int)),
        },
{
    let s = args.subrange(i, args.len() as int);
    assert(s.drop_first() =~= args.subrange(i + 1, args.len() as int));
    assert(s[0] == args[i]);
}

/// The script that moves the page through its history: `"back"` and
/// `"forward"` have one; any other direction has none.
pub fn history_script(direction: &str) -> (r: Option<&'static str>)
    ensures
        match r {
            Some(s) => spec_history_script(direction@) == Some(s@),
            None => spec_history_script(direction@) is None,
        },
{
    if crate::text::str_eq(direction, "back") {
        Some("window.history.back();")
    } else if crate::text::str_eq(direction, "forward") {
        Some("window.history.forward();")
    } else {
        None
    }
}

/// The message shown when the Downloads folder cannot be found.
pub fn downloads_folder_error(error: &str) -> (r: String)
    ensures
        r@ == "Couldn't open Downloads: "@ + error@,
{
    String::from_str("Couldn't open Downloads: ").concat(error)
}

/// The download that "Open Latest Download" opens: the last one captured,
/// where it still exists.
pub fn latest_download_target(last: Option<String>, exists: bool) -> (r: Option<String>)
    ensures
        r == (if exists { last } else { None }),
{
    if exists {
        last
    } else {
        None
    }
}

impl DesktopState {
    /// Decides where a link goes. An allowed URL loads in the app and becomes
    /// the page on show; any other opens in the system browser and leaves the
    /// state as it was.
    pub fn route_link(&mut self, url: &str) -> (d: LinkDecision)
        ensures
            match spec_allowed_parse(url@) {
                Some(u) => d == LinkDecision::OpenInApp && final(self)@ == with_current_url(
                    old(self)@,
                    u.href,
                ),
                None => d == LinkDecision::OpenExternally && final(self)@ == old(self)@,
            },
    {
        match parse_allowed_url(url) {
            Some(u) => {
                self.set_current_url(u.href().to_owned());
                LinkDecision::OpenInApp
            },
            None => LinkDecision::OpenExternally,
        }
    }

    /// A second launch of the app passed `args`: the first that parses to an
    /// allowed URL becomes the page on show and is returned, for the window
    /// to load; with none, the state is left as it was.
    pub fn on_second_instance(&mut self, args: &Vec<String>) -> (r: Option<ParsedUrl>)
        ensures
            opt_url_view(r) == first_allowed(strings_view(args@)),
            match first_allowed(strings_view(args@)) {
                Some(u) => final(self)@ == with_current_url(old(self)@, u.href),
                None => final(self)@ == old(self)@,
            },
    {
        let ghost all = strings_view(args@);
        let n = args.len();
        let mut i: usize = 0;
        assert(all.subrange(0, n as int) =~= all);
        while i < n
            invariant
                n == args@.len(),
                all == strings_view(args@),
                all.len() == n,
                i <= n,
                first_allowed(all) == first_allowed(all.subrange(i as int, n as int)),
                self@ == old(self)@,
            decreases n - i,
        {
            proof {
                lemma_first_allowed_step(all, i as int);
            }
            match parse_allowed_url(args[i].as_str()) {
                Some(u) => {
                    self.set_current_url(u.href().to_owned());
                    return Some(u);
                },
                None => {},
            }
            i = i + 1;
        }
        assert(all.subrange(n as int, n as int).len() == 0);
        None
    }

    /// The page "Retry Connection" loads.
    pub fn retry_target(&self) -> (r: ParsedUrl)
        ensures
            r@ == spec_retry_target(self@.current_url),
            spec_is_allowed_url(r@),
    {
        proof {
            lemma_retry_stays_in_app(self@.current_url);
        }
        let current = self.current_url();
        match parse_allowed_url(current.as_str()) {
            Some(u) => u,
            None => default_app_url(),
        }
    }

    /// What follows an attempt to reload the page: nothing where the reload
    /// script ran, else the page "Retry Connection" loads.
    pub fn reload_fallback(&self, reload_ran: bool) -> (r: Option<ParsedUrl>)
        ensures
            r is None <==> reload_ran,
            r matches Some(u) ==> u@ == spec_retry_target(self@.current_url),
    {
        if reload_ran {
            None
        } else {
            Some(self.retry_target())
        }
    }

    /// The page "Open in Browser" hands to the system browser.
    pub fn browser_target(&self) -> (r: ParsedUrl)
        ensures
            r@ == spec_browser_target(self@.current_url),
    {
        let current = self.current_url();
        match parse_url(current.as_str()) {
            Some(u) => u,
            None => default_app_url(),
        }
    }

    /// A request to close the main window. Once the user asked to quit, the
    /// window closes; before, it hides to the tray, with a notice the first
    /// time only.
    pub fn on_close_requested(&mut self) -> (d: CloseDecision)
        ensures
            (d is Close) == old(self)@.quitting,
            final(self)@ == spec_after_close(old(self)@),
            d matches CloseDecision::HideToTray { notice } ==> opt_string_view(notice)
                == spec_close_notice(old(self)@),
    {
        if self.is_quitting() {
            return CloseDecision::Close;
        }
        let notice = if self.mark_tray_notice_sent() {
            None
        } else {
            Some(String::from_str(TRAY_NOTICE))
        };
        CloseDecision::HideToTray { notice }
    }

    /// A page started loading: it becomes the page on show, and the window
    /// takes the loading title, which is returned.
    pub fn on_page_load_started(&mut self, url: String) -> (title: String)
        ensures
            final(self)@ == with_current_url(old(self)@, url@),
            title@ == spec_loading_title(old(self)@.app_title),
    {
        self.set_current_url(url);
        self.loading_title()
    }

    /// A page finished loading: it becomes the page on show, and the window
    /// takes the app title and the current zoom level.
    pub fn on_page_load_finished(&mut self, url: String) -> (ready: PageReady)
        ensures
            final(self)@ == with_current_url(old(self)@, url@),
            ready.title@ == old(self)@.app_title,
            ready.zoom_percent == old(self)@.zoom,
    {
        self.set_current_url(url);
        PageReady { title: self.app_title(), zoom_percent: self.zoom_percent() }
    }

    /// A download finished. A successful one with a known destination is
    /// remembered as the latest download. Returns the notification text.
    pub fn on_download_finished(&mut self, url: &str, path: Option<String>, success: bool) -> (body:
        String)
        ensures
            body@ == spec_download_notice(url@, opt_string_view(path), success),
            final(self)@ == (match path {
                Some(p) => if success {
                    with_last_download(old(self)@, p@)
                } else {
                    old(self)@
                },
                None => old(self)@,
            }),
    {
        if !success {
            return String::from_str("Download failed for ").concat(url);
        }
        match path {
            Some(p) => {
                let body = String::from_str("Downloaded ").concat(url).concat(" to ").concat(
                    p.as_str(),
                );
                self.set_last_download_path(p);
                body
            },
            None => String::from_str("Downloaded ").concat(url),
        }
    }
}

/// What the window or the app does for a menu command.
#[derive(Debug)]
pub enum MenuEffect {
    ShowWindow,
    HideWindow,
    /// Hand this page to the system browser.
    OpenInBrowser(ParsedUrl),
    OpenDownloadsFolder,
    /// Open the latest download, where one was captured.
    OpenLatestDownload(Option<String>),
    /// Run this script in the page.
    RunScript(&'static str),
    ReloadPage,
    /// Load this page in the main window.
    LoadPage(ParsedUrl),
    /// Set the window's zoom level to this percentage.
    ApplyZoom(u32),
    CheckForUpdates,
    Exit,
}

/// How the menu command `a` takes the state from `old` to `new` and what it
/// asks of the window (`e`).
pub open spec fn spec_menu_effect(old: DesktopView, new: DesktopView, a: MenuAction, e: MenuEffect) -> bool {
    match a {
        MenuAction::ShowWindow => e is ShowWindow && new == old,
        MenuAction::HideToTray => e is HideWindow && new == old,
        MenuAction::OpenInBrowser => new == old && (e matches MenuEffect::OpenInBrowser(t)
            && t@ == spec_browser_target(old.current_url)),
        MenuAction::OpenDownloads => e is OpenDownloadsFolder && new == old,
        MenuAction::OpenLatestDownload => new == old && (e matches MenuEffect::OpenLatestDownload(p)
            && opt_string_view(p) == old.last_download),
        MenuAction::NavBack => new == old && (e matches MenuEffect::RunScript(s)
            && spec_history_script("back"@) == Some(s@)),
        MenuAction::NavForward => new == old && (e matches MenuEffect::RunScript(s)
            && spec_history_script("forward"@) == Some(s@)),
        MenuAction::Reload => e is ReloadPage && new == old,
        MenuAction::RetryConnection => new == old && (e matches MenuEffect::LoadPage(t)
            && t@ == spec_retry_target(old.current_url)),
        MenuAction::ZoomIn => new == with_zoom(old, old.zoom + ZOOM_STEP_PERCENT)
            && e == MenuEffect::ApplyZoom(clamp_zoom(old.zoom + ZOOM_STEP_PERCENT) as u32),
        MenuAction::ZoomOut => new == with_zoom(old, old.zoom - ZOOM_STEP_PERCENT)
            && e == MenuEffect::ApplyZoom(clamp_zoom(old.zoom - ZOOM_STEP_PERCENT) as u32),
        MenuAction::ZoomReset => new == with_zoom(old, DEFAULT_ZOOM_PERCENT as int)
            && e == MenuEffect::ApplyZoom(DEFAULT_ZOOM_PERCENT),
        MenuAction::CheckUpdates => e is CheckForUpdates && new == old,
        MenuAction::Quit => e is Exit && new == with_quitting(old),
    }
}

impl DesktopState {
    /// Runs the menu command `action`: updates the state and returns what
    /// the window or the app has to do.
    pub fn run_menu_command(&mut self, action: MenuAction) -> (e: MenuEffect)
        ensures
            spec_menu_effect(old(self)@, final(self)@, action, e),
    {
        match action {
            MenuAction::ShowWindow => MenuEffect::ShowWindow,
            MenuAction::HideToTray => MenuEffect::HideWindow,
            MenuAction::OpenInBrowser => MenuEffect::OpenInBrowser(self.browser_target()),
            MenuAction::OpenDownloads => MenuEffect::OpenDownloadsFolder,
            MenuAction::OpenLatestDownload => MenuEffect::OpenLatestDownload(self.last_download_path()),
            MenuAction::NavBack => {
                proof {
                    reveal_strlit("back");
                    reveal_strlit("forward");
                }
                MenuEffect::RunScript(history_script("back").unwrap())
            },
            MenuAction::NavForward => {
                proof {
                    reveal_strlit("back");
                    reveal_strlit("forward");
                }
                MenuEffect::RunScript(history_script("forward").unwrap())
            },
            MenuAction::Reload => MenuEffect::ReloadPage,
            MenuAction::RetryConnection => MenuEffect::LoadPage(self.retry_target()),
            MenuAction::ZoomIn => MenuEffect::ApplyZoom(self.adjust_zoom(ZOOM_STEP_PERCENT)),
            MenuAction::ZoomOut => MenuEffect::ApplyZoom(self.adjust_zoom(-ZOOM_STEP_PERCENT)),
            MenuAction::ZoomReset => MenuEffect::ApplyZoom(self.set_zoom(DEFAULT_ZOOM_PERCENT as i64)),
            MenuAction::CheckUpdates => MenuEffect::CheckForUpdates,
            MenuAction::Quit => {
                self.mark_quitting();
                MenuEffect::Exit
            },
        }
    }

    /// A click on the menu item `id`: runs its command, if it names one.
    /// An id of no command changes nothing.
    pub fn on_menu_event(&mut self, id: &str) -> (e: Option<MenuEffect>)
        ensures
            match spec_menu_action(id@) {
                Some(a) => (e matches Some(eff) && spec_menu_effect(old(self)@, final(self)@, a, eff)),
                None => e is None && final(self)@ == old(self)@,
            },
    {
        match menu_action(id) {
            Some(a) => Some(self.run_menu_command(a)),
            None => None,
        }
    }
}

} // verus!
