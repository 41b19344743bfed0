//! Which URLs belong to the app and stay in its window.
//!
//! A URL is parsed once into a [`ParsedUrl`], which holds as plain strings the
//! parts that the navigation rules read: the serialization, the scheme, the
//! ASCII serialization of the origin, the path and the domain.

use vstd::prelude::*;

use crate::text::{ends_with, starts_with, str_eq};

verus! {

/// Origin of the hosted web app.
pub const APP_ORIGIN: &'static str = "https://deniai.app";

/// The page the shell starts with as the page on show, and falls back to
/// where the page on show cannot be loaded or parsed.
pub const APP_START_URL: &'static str = "https://deniai.app/chat";

/// The parts of a parsed URL, as character sequences.
pub struct UrlView {
    pub href: Seq<char>,
    pub scheme: Seq<char>,
    pub origin: Seq<char>,
    pub path: Seq<char>,
    pub domain: Option<Seq<char>>,
}

/// An absolute URL, by the parts that the navigation rules read. Values
/// are made only by parsing a string, so their parts always belong to one
/// URL.
#[derive(Debug, Clone)]
pub struct ParsedUrl {
    /// The whole serialization (`Url::as_str`).
    href: String,
    /// The lower-cased scheme, without the `:`.
    scheme: String,
    /// The ASCII serialization of the origin (`"null"` for an opaque origin).
    origin: String,
    /// The path component.
    path: String,
    /// The domain, when the host is a domain name.
    domain: Option<String>,
}

pub open spec fn opt_string_view(s: Option<String>) -> Option<Seq<char>> {
    match s {
        Some(d) => Some(d@),
        None => None,
    }
}

impl View for ParsedUrl {
    type V = UrlView;

    closed spec fn view(&self) -> UrlView {
        UrlView {
            href: self.href@,
            scheme: self.scheme@,
            origin: self.origin@,
            path: self.path@,
            domain: opt_string_view(self.domain),
        }
    }
}

pub open spec fn opt_url_view(u: Option<ParsedUrl>) -> Option<UrlView> {
    match u {
        Some(p) => Some(p@),
        None => None,
    }
}

impl ParsedUrl {
    /// The whole serialization of the URL.
    pub fn href(&self) -> (r: &str)
        ensures
            r@ == self@.href,
    {
        self.href.as_str()
    }

    /// The scheme, without the `:`.
    pub fn scheme(&self) -> (r: &str)
        ensures
            r@ == self@.scheme,
    {
        self.scheme.as_str()
    }

    /// The ASCII serialization of the origin.
    pub fn origin(&self) -> (r: &str)
        ensures
            r@ == self@.origin,
    {
        self.origin.as_str()
    }

    /// The path component.
    pub fn path(&self) -> (r: &str)
        ensures
            r@ == self@.path,
    {
        self.path.as_str()
    }

    /// The domain, when the host is a domain name.
    pub fn domain(&self) -> (r: Option<&str>)
        ensures
            match r {
                Some(d) => self@.domain == Some(d@),
                None => self@.domain is None,
            },
    {
        match &self.domain {
            Some(d) => Some(d.as_str()),
            None => None,
        }
    }
}

/// The parts of the start page `https://deniai.app/chat`: an https URL on
/// the app's origin, with path `/chat`.
pub open spec fn start_url_view() -> UrlView {
    UrlView {
        href: APP_START_URL@,
        scheme: "https"@,
        origin: APP_ORIGIN@,
        path: "/chat"@,
        domain: Some("deniai.app"@),
    }
}

/// What `url::Url::parse` makes of a string: `None` where it refuses it,
/// else the parts of the URL it returns.
pub uninterp spec fn url_parse_result(input: Seq<char>) -> Option<UrlView>;

/// Parses `input` with `url::Url::parse` and reads back `as_str`, `scheme`,
/// `origin().ascii_serialization()`, `path` and `domain` of the result.
/// The contract claims that the outcome is a function of `input` (named
/// `url_parse_result`), and, for the start page `https://deniai.app/chat`
/// alone, the parts the crate gives it: that string unchanged as the
/// serialization, scheme `https`, origin `https://deniai.app`, path `/chat`
/// and domain `deniai.app`. What the URL standard makes of any other string
/// is left to the `url` crate.
#[verifier::external_body]
pub(crate) fn parse_url(input: &str) -> (res: Option<ParsedUrl>)
    ensures
        opt_url_view(res) == url_parse_result(input@),
        input@ == APP_START_URL@ ==> opt_url_view(res) == Some(start_url_view()),
{
    match url::Url::parse(input) {
        Ok(u) => Some(ParsedUrl {
            href: u.as_str().to_string(),
            scheme: u.scheme().to_string(),
            origin: u.origin().ascii_serialization(),
            path: u.path().to_string(),
            domain: u.domain().map(String::from),
        }),
        Err(_) => None,
    }
}

/// Paths of the app that load inside the main window.
pub open spec fn is_in_app_path(path: Seq<char>) -> bool {
    ||| path == "/chat"@
    ||| path == "/auth/sign-in"@
    ||| "/chat/"@.is_prefix_of(path)
    ||| "/auth/sign-in/"@.is_prefix_of(path)
}

/// A URL of the app itself, to be loaded inside the main window.
pub open spec fn spec_is_in_app_url(u: UrlView) -> bool {
    u.origin == APP_ORIGIN@ && is_in_app_path(u.path)
}

/// A URL of the Google sign-in flow that the app drives: its own callback, or
/// the Google pages the OAuth flow passes through.
pub open spec fn spec_is_app_managed_auth_url(u: UrlView) -> bool {
    ||| (u.origin == APP_ORIGIN@ && "/api/auth/callback/google"@.is_prefix_of(u.path))
    ||| (u.scheme == "https"@ && match u.domain {
        Some(d) => d == "accounts.google.com"@ || ".googleusercontent.com"@.is_suffix_of(d),
        None => false,
    })
}

/// A URL that may load inside the main window.
pub open spec fn spec_is_allowed_url(u: UrlView) -> bool {
    spec_is_in_app_url(u) || spec_is_app_managed_auth_url(u)
}

/// What `input` parses to, where that is an allowed URL.
pub open spec fn spec_allowed_parse(input: Seq<char>) -> Option<UrlView> {
    match url_parse_result(input) {
        Some(u) => if spec_is_allowed_url(u) { Some(u) } else { None },
        None => None,
    }
}

/// Every URL allowed in the window is either on the app's own origin or
/// served over https.
pub proof fn lemma_allowed_urls_are_app_or_https(u: UrlView)
    ensures
        spec_is_allowed_url(u) ==> u.origin == APP_ORIGIN@ || u.scheme == "https"@,
{
}

/// Off the app's origin, the only URLs allowed in the window are the Google
/// sign-in hosts over https: exactly `accounts.google.com` and the
/// subdomains of `googleusercontent.com`. Every other host (such as
/// `www.google.com`) opens in the system browser.
pub proof fn lemma_foreign_urls_only_google_sign_in(u: UrlView)
    requires
        u.origin != APP_ORIGIN@,
    ensures
        spec_is_allowed_url(u) <==> (u.scheme == "https"@ && (u.domain matches Some(d) && (d
            == "accounts.google.com"@ || ".googleusercontent.com"@.is_suffix_of(d)))),
{
}

/// On the app's origin, a URL is allowed exactly when its path is a chat
/// or sign-in route or the Google sign-in callback (or, over https, it
/// names a Google sign-in host).
pub proof fn lemma_app_origin_allowed_paths(u: UrlView)
    requires
        u.origin == APP_ORIGIN@,
    ensures
        spec_is_allowed_url(u) <==> (u.path == "/chat"@ || u.path == "/auth/sign-in"@
            || "/chat/"@.is_prefix_of(u.path) || "/auth/sign-in/"@.is_prefix_of(u.path)
            || "/api/auth/callback/google"@.is_prefix_of(u.path) || (u.scheme == "https"@ && (
        u.domain matches Some(d) && (d == "accounts.google.com"@ || ".googleusercontent.com"@.is_suffix_of(d))))),
{
}

/// Whether `input` parses to a URL allowed in the window.
pub open spec fn parses_to_allowed(input: Seq<char>) -> bool {
    match url_parse_result(input) {
        Some(u) => spec_is_allowed_url(u),
        None => false,
    }
}

/// Parsing and keeping only allowed URLs gives exactly the parsed URL when it
/// is allowed, and nothing otherwise: nothing allowed is dropped, nothing
/// else is let through.
pub proof fn lemma_allowed_parse_filters(input: Seq<char>)
    ensures
        spec_allowed_parse(input) is Some <==> parses_to_allowed(input),
        spec_allowed_parse(input) is Some ==> spec_allowed_parse(input) == url_parse_result(input),
{
}

/// URLs that belong to the app itself and should load inside the main window.
pub fn is_in_app_url(url: &ParsedUrl) -> (res: bool)
    ensures
        res == spec_is_in_app_url(url@),
{
    if !str_eq(url.origin.as_str(), APP_ORIGIN) {
        return false;
    }
    let path = url.path.as_str();
    str_eq(path, "/chat") || str_eq(path, "/auth/sign-in")
        || starts_with(path, "/chat/") || starts_with(path, "/auth/sign-in/")
}

/// URLs of the Google sign-in flow that the app itself drives (its callback
/// landing page, or the accounts.google.com / googleusercontent.com pages
/// the OAuth flow redirects through).
pub fn is_app_managed_auth_url(url: &ParsedUrl) -> (res: bool)
    ensures
        res == spec_is_app_managed_auth_url(url@),
{
    if str_eq(url.origin.as_str(), APP_ORIGIN) && starts_with(
        url.path.as_str(),
        "/api/auth/callback/google",
    ) {
        return true;
    }
    if !str_eq(url.scheme.as_str(), "https") {
        return false;
    }
    match &url.domain {
        Some(d) => str_eq(d.as_str(), "accounts.google.com") || ends_with(
            d.as_str(),
            ".googleusercontent.com",
        ),
        None => false,
    }
}

/// URLs that may load inside the main window.
pub fn is_allowed_url(url: &ParsedUrl) -> (res: bool)
    ensures
        res == spec_is_allowed_url(url@),
{
    is_in_app_url(url) || is_app_managed_auth_url(url)
}

/// The start page is a page of the app, allowed in the window.
pub proof fn lemma_start_url_in_app()
    ensures
        spec_is_in_app_url(start_url_view()),
        spec_is_allowed_url(start_url_view()),
{
}

/// The start page, parsed.
pub fn default_app_url() -> (res: ParsedUrl)
    ensures
        res@ == start_url_view(),
        url_parse_result(APP_START_URL@) == Some(res@),
{
    parse_url(APP_START_URL).unwrap()
}

/// Parses `input` and keeps the URL only where it may load in the app.
pub fn parse_allowed_url(input: &str) -> (res: Option<ParsedUrl>)
    ensures
        opt_url_view(res) == spec_allowed_parse(input@),
{
    match parse_url(input) {
        Some(u) => {
            if is_allowed_url(&u) {
                Some(u)
            } else {
                None
            }
        },
        None => None,
    }
}

} // verus!
