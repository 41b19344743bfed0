//! The desktop shell's mutable state: the window title, the page on show, the
//! zoom level, the last finished download and two one-way flags.
//!
//! The zoom level is kept as a whole percentage of the page's natural size.

use vstd::prelude::*;

verus! {

/// Smallest zoom level, in percent.
pub const MIN_ZOOM_PERCENT: u32 = 80;
/// Largest zoom level, in percent.
pub const MAX_ZOOM_PERCENT: u32 = 200;
/// Zoom level of a fresh window, and of "Actual Size", in percent.
pub const DEFAULT_ZOOM_PERCENT: u32 = 100;
/// Change of the zoom level per "Zoom In" or "Zoom Out", in percent.
pub const ZOOM_STEP_PERCENT: i32 = 10;

/// The state of the shell, as mathematical values.
pub struct DesktopView {
    pub app_title: Seq<char>,
    pub current_url: Seq<char>,
    pub zoom: int,
    pub last_download: Option<Seq<char>>,
    pub quitting: bool,
    pub tray_notice_sent: bool,
}

/// `z` brought into the zoom range.
pub open spec fn clamp_zoom(z: int) -> int {
    if z < MIN_ZOOM_PERCENT {
        MIN_ZOOM_PERCENT as int
    } else if z > MAX_ZOOM_PERCENT {
        MAX_ZOOM_PERCENT as int
    } else {
        z
    }
}

/// The state a shell starts in.
pub open spec fn initial_view(app_title: Seq<char>, start_url: Seq<char>) -> DesktopView {
    DesktopView {
        app_title,
        current_url: start_url,
        zoom: DEFAULT_ZOOM_PERCENT as int,
        last_download: None,
        quitting: false,
        tray_notice_sent: false,
    }
}

/// The state after the page on show became `url`.
pub open spec fn with_current_url(v: DesktopView, url: Seq<char>) -> DesktopView {
    DesktopView { current_url: url, ..v }
}

/// The state after a request for zoom level `requested`.
pub open spec fn with_zoom(v: DesktopView, requested: int) -> DesktopView {
    DesktopView { zoom: clamp_zoom(requested), ..v }
}

/// The state after a download finished at `path`.
pub open spec fn with_last_download(v: DesktopView, path: Seq<char>) -> DesktopView {
    DesktopView { last_download: Some(path), ..v }
}

/// The state once the user asked to quit.
pub open spec fn with_quitting(v: DesktopView) -> DesktopView {
    DesktopView { quitting: true, ..v }
}

/// The state once the tray notice has gone out.
pub open spec fn with_tray_notice_sent(v: DesktopView) -> DesktopView {
    DesktopView { tray_notice_sent: true, ..v }
}

/// The window title shown while a page loads.
pub open spec fn spec_loading_title(app_title: Seq<char>) -> Seq<char> {
    app_title + " - Loading"@
}

/// Whatever level is requested, the zoom level set lies in the zoom range,
/// and asking for the level already set changes nothing.
pub proof fn lemma_zoom_stays_in_range(v: DesktopView, requested: int)
    ensures
        MIN_ZOOM_PERCENT <= with_zoom(v, requested).zoom <= MAX_ZOOM_PERCENT,
        with_zoom(with_zoom(v, requested), with_zoom(v, requested).zoom) == with_zoom(v, requested),
{
}

/// Away from the ends of the zoom range, one step in and one step out (in
/// either order) return to the level one started from.
pub proof fn lemma_zoom_step_round_trip(v: DesktopView)
    ensures
        MIN_ZOOM_PERCENT <= v.zoom && v.zoom + ZOOM_STEP_PERCENT <= MAX_ZOOM_PERCENT ==> {
            let w = with_zoom(v, v.zoom + ZOOM_STEP_PERCENT);
            with_zoom(w, w.zoom - ZOOM_STEP_PERCENT) == v
        },
        MIN_ZOOM_PERCENT <= v.zoom - ZOOM_STEP_PERCENT && v.zoom <= MAX_ZOOM_PERCENT ==> {
            let w = with_zoom(v, v.zoom - ZOOM_STEP_PERCENT);
            with_zoom(w, w.zoom + ZOOM_STEP_PERCENT) == v
        },
{
}

/// At the ends of the zoom range, zooming further changes nothing, and
/// "Actual Size" always returns to the default level.
pub proof fn lemma_zoom_ends_and_reset(v: DesktopView)
    ensures
        v.zoom == MAX_ZOOM_PERCENT ==> with_zoom(v, v.zoom + ZOOM_STEP_PERCENT) == v,
        v.zoom == MIN_ZOOM_PERCENT ==> with_zoom(v, v.zoom - ZOOM_STEP_PERCENT) == v,
        with_zoom(v, DEFAULT_ZOOM_PERCENT as int).zoom == DEFAULT_ZOOM_PERCENT,
{
}

/// Once the user asked to quit, no change of the state takes that back.
pub proof fn lemma_quitting_is_permanent(
    v: DesktopView,
    url: Seq<char>,
    requested: int,
    path: Seq<char>,
)
    requires
        v.quitting,
    ensures
        with_current_url(v, url).quitting,
        with_zoom(v, requested).quitting,
        with_last_download(v, path).quitting,
        with_tray_notice_sent(v).quitting,
        with_quitting(v).quitting,
{
}

/// Shared, mutable state of the desktop shell.
pub struct DesktopState {
    app_title: String,
    current_url: String,
    zoom_percent: u32,
    last_download_path: Option<String>,
    is_quitting: bool,
    tray_notice_sent: bool,
}

impl View for DesktopState {
    type V = DesktopView;

    closed spec fn view(&self) -> DesktopView {
        DesktopView {
            app_title: self.app_title@,
            current_url: self.current_url@,
            zoom: self.zoom_percent as int,
            last_download: match self.last_download_path {
                Some(p) => Some(p@),
                None => None,
            },
            quitting: self.is_quitting,
            tray_notice_sent: self.tray_notice_sent,
        }
    }
}

impl DesktopState {
    /// The zoom level always lies in the zoom range.
    #[verifier::type_invariant]
    closed spec fn zoom_in_range(self) -> bool {
        MIN_ZOOM_PERCENT <= self.zoom_percent <= MAX_ZOOM_PERCENT
    }

    /// A fresh state: the page on show is `start_url`, the zoom level is the
    /// default, no download has finished and neither flag is set.
    pub fn new(app_title: String, start_url: &str) -> (s: Self)
        ensures
            s@ == initial_view(app_title@, start_url@),
    {
        DesktopState {
            app_title,
            current_url: start_url.to_owned(),
            zoom_percent: DEFAULT_ZOOM_PERCENT,
            last_download_path: None,
            is_quitting: false,
            tray_notice_sent: false,
        }
    }

    pub fn app_title(&self) -> (r: String)
        ensures
            r@ == self@.app_title,
    {
        self.app_title.clone()
    }

    /// The window title shown while a page loads: the app title followed by
    /// `" - Loading"`.
    pub fn loading_title(&self) -> (r: String)
        ensures
            r@ == spec_loading_title(self@.app_title),
    {
        self.app_title.clone().concat(" - Loading")
    }

    pub fn current_url(&self) -> (r: String)
        ensures
            r@ == self@.current_url,
    {
        self.current_url.clone()
    }

    pub fn set_current_url(&mut self, url: String)
        ensures
            final(self)@ == with_current_url(old(self)@, url@),
    {
        proof {
            use_type_invariant(&*self);
        }
        self.current_url = url;
    }

    /// The zoom level, in percent.
    pub fn zoom_percent(&self) -> (r: u32)
        ensures
            r == self@.zoom,
            MIN_ZOOM_PERCENT <= r <= MAX_ZOOM_PERCENT,
    {
        proof {
            use_type_invariant(self);
        }
        self.zoom_percent
    }

    /// Sets the zoom level to `requested`, brought into the zoom range, and
    /// returns the level set.
    pub fn set_zoom(&mut self, requested: i64) -> (r: u32)
        ensures
            r == clamp_zoom(requested as int),
            final(self)@ == with_zoom(old(self)@, requested as int),
    {
        let z: u32 = if requested < MIN_ZOOM_PERCENT as i64 {
            MIN_ZOOM_PERCENT
        } else if requested > MAX_ZOOM_PERCENT as i64 {
            MAX_ZOOM_PERCENT
        } else {
            requested as u32
        };
        self.zoom_percent = z;
        z
    }

    /// Moves the zoom level by `delta` percent, within the zoom range, and
    /// returns the level set.
    pub fn adjust_zoom(&mut self, delta: i32) -> (r: u32)
        ensures
            r == clamp_zoom(old(self)@.zoom + delta),
            final(self)@ == with_zoom(old(self)@, old(self)@.zoom + delta),
    {
        let next: i64 = self.zoom_percent() as i64 + delta as i64;
        self.set_zoom(next)
    }

    pub fn last_download_path(&self) -> (r: Option<String>)
        ensures
            match r {
                Some(p) => self@.last_download == Some(p@),
                None => self@.last_download is None,
            },
    {
        match &self.last_download_path {
            Some(p) => Some(p.clone()),
            None => None,
        }
    }

    pub fn set_last_download_path(&mut self, path: String)
        ensures
            final(self)@ == with_last_download(old(self)@, path@),
    {
        proof {
            use_type_invariant(&*self);
        }
        self.last_download_path = Some(path);
    }

    pub fn is_quitting(&self) -> (r: bool)
        ensures
            r == self@.quitting,
    {
        self.is_quitting
    }

    pub fn mark_quitting(&mut self)
        ensures
            final(self)@ == with_quitting(old(self)@),
    {
        proof {
            use_type_invariant(&*self);
        }
        self.is_quitting = true;
    }

    /// Marks the tray notice as sent and returns whether it had been sent
    /// before this call.
    pub fn mark_tray_notice_sent(&mut self) -> (was_sent: bool)
        ensures
            was_sent == old(self)@.tray_notice_sent,
            final(self)@ == with_tray_notice_sent(old(self)@),
    {
        proof {
            use_type_invariant(&*self);
        }
        let was_sent = self.tray_notice_sent;
        self.tray_notice_sent = true;
        was_sent
    }
}

} // verus!
