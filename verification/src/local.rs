//! The agent's local web server and its app window: which requests go to
//! the web dashboard upstream, which get the health answer, which page each
//! path serves, and where the window opens.
use vstd::prelude::*;
use crate::setup::has_prefix;
use crate::text::{before_first, before_first_char, chars_of, push_str, starts_with, string_of, text_eq};

verus! {

/// Where the agent forwards `/api/` requests.
pub open spec fn upstream() -> Seq<char> {
    "https://friendssoftwaresolutions.in/DeskStream"@
}

/// The pages the local server has.
#[derive(Clone, Copy, Debug, PartialEq, Eq, Structural)]
pub enum Page {
    Dashboard,
    Session,
    IconIco,
    IconPng,
}

/// What the local server does with a request path.
pub enum LocalRoute {
    /// Forward the request to this upstream URL.
    Proxy { upstream_url: String },
    /// Answer with the agent's health JSON.
    Health,
    /// Serve a page with its content type.
    Static { page: Page, content_type: &'static str },
    /// Answer 404.
    NotFound,
}

/// The static page of a path without its query string.
pub open spec fn spec_page(p: Seq<char>) -> Option<(Page, Seq<char>)> {
    if p == "/dashboard.html"@ || p == "/"@ || p.len() == 0 {
        Some((Page::Dashboard, "text/html"@))
    } else if p == "/session.html"@ {
        Some((Page::Session, "text/html"@))
    } else if p == "/icon.ico"@ {
        Some((Page::IconIco, "image/x-icon"@))
    } else if p == "/icon.png"@ {
        Some((Page::IconPng, "image/png"@))
    } else {
        None
    }
}

fn page_of(p: &str) -> (r: Option<(Page, &'static str)>)
    ensures
        match r {
            Some((pg, ct)) => spec_page(p@) == Some((pg, ct@)),
            None => spec_page(p@) is None,
        },
{
    if text_eq(p, "/dashboard.html") || text_eq(p, "/") || p.is_empty() {
        Some((Page::Dashboard, "text/html"))
    } else if text_eq(p, "/session.html") {
        Some((Page::Session, "text/html"))
    } else if text_eq(p, "/icon.ico") {
        Some((Page::IconIco, "image/x-icon"))
    } else if text_eq(p, "/icon.png") {
        Some((Page::IconPng, "image/png"))
    } else {
        None
    }
}

/// Routes a request: `/api/...` to the upstream, the health path to the
/// health answer, and otherwise the page named by the path without its query.
pub fn route_local_request(path: &str) -> (r: LocalRoute)
    ensures
        has_prefix(path@, "/api/"@) ==> (r matches LocalRoute::Proxy { upstream_url } && upstream_url@
            == upstream() + path@),
        !has_prefix(path@, "/api/"@) && (path@ == "/local-health"@ || path@ == "/local-health/"@)
            ==> r is Health,
        !has_prefix(path@, "/api/"@) && !(path@ == "/local-health"@ || path@ == "/local-health/"@)
            ==> match spec_page(before_first(path@, '?')) {
            Some((pg, ct)) => r matches LocalRoute::Static { page, content_type } && page == pg
                && content_type@ == ct,
            None => r is NotFound,
        },
{
    let p = chars_of(path);
    let api = chars_of("/api/");
    if starts_with(p.as_slice(), api.as_slice()) {
        let mut out: Vec<char> = Vec::new();
        push_str(&mut out, "https://friendssoftwaresolutions.in/DeskStream");
        push_str(&mut out, path);
        return LocalRoute::Proxy { upstream_url: string_of(out.as_slice()) };
    }
    if text_eq(path, "/local-health") || text_eq(path, "/local-health/") {
        return LocalRoute::Health;
    }
    let stem = string_of(before_first_char(p.as_slice(), '?').as_slice());
    match page_of(stem.as_str()) {
        Some((page, content_type)) => LocalRoute::Static { page, content_type },
        None => LocalRoute::NotFound,
    }
}

/// Lowercase of a text, as `str::to_lowercase` computes it.
pub uninterp spec fn unicode_lowercase(s: Seq<char>) -> Seq<char>;

/// Trusted: calls `str::to_lowercase`, which std documents as the text's
/// Unicode lowercase mapping. The contract names that result.
#[verifier::external_body]
pub(crate) fn to_lowercase(s: &str) -> (r: String)
    ensures
        r@ == unicode_lowercase(s@),
{
    s.to_lowercase()
}

/// Whether a request header, given by its lowercased name, goes upstream:
/// only `content-type` and `accept` (cookies never do).
pub fn forwards_lowercase_request_header(lower: &str) -> (b: bool)
    ensures
        b == (lower@ == "content-type"@ || lower@ == "accept"@),
{
    text_eq(lower, "content-type") || text_eq(lower, "accept")
}

/// Whether an upstream response header, given by its lowercased name, comes
/// back: only `content-type`.
pub fn forwards_lowercase_response_header(lower: &str) -> (b: bool)
    ensures
        b == (lower@ == "content-type"@),
{
    text_eq(lower, "content-type")
}

/// Whether a request header goes upstream: only `Content-Type` and `Accept`,
/// in any case (cookies never do).
pub fn forwards_request_header(name: &str) -> (b: bool)
    ensures
        b == (unicode_lowercase(name@) == "content-type"@ || unicode_lowercase(name@) == "accept"@),
{
    let l = to_lowercase(name);
    forwards_lowercase_request_header(l.as_str())
}

/// Whether an upstream response header comes back: only `Content-Type`.
pub fn forwards_response_header(name: &str) -> (b: bool)
    ensures
        b == (unicode_lowercase(name@) == "content-type"@),
{
    let l = to_lowercase(name);
    forwards_lowercase_response_header(l.as_str())
}

/// What the app window's `deskstream://` scheme answers for a path: the
/// page, when there is one, and its content type (`text/plain` and no body
/// otherwise).
pub fn app_asset(path: &str) -> (r: (Option<Page>, &'static str))
    ensures
        match spec_page(path@) {
            Some((pg, ct)) => r.0 == Some(pg) && r.1@ == ct,
            None => r.0 is None && r.1@ == "text/plain"@,
        },
{
    match page_of(path) {
        Some((page, content_type)) => (Some(page), content_type),
        None => (None, "text/plain"),
    }
}

/// Where the app window opens: centred on the monitor, but never above or
/// left of it.
pub fn centered_origin(monitor_w: u32, monitor_h: u32, window_w: u32, window_h: u32) -> (r: (i32, i32))
    requires
        monitor_w <= i32::MAX,
        monitor_h <= i32::MAX,
        window_w <= i32::MAX,
        window_h <= i32::MAX,
    ensures
        r.0 == (if monitor_w >= window_w {
            (monitor_w - window_w) / 2
        } else {
            0
        }),
        r.1 == (if monitor_h >= window_h {
            (monitor_h - window_h) / 2
        } else {
            0
        }),
{
    let x: i32 = if monitor_w >= window_w {
        ((monitor_w - window_w) / 2) as i32
    } else {
        0
    };
    let y: i32 = if monitor_h >= window_h {
        ((monitor_h - window_h) / 2) as i32
    } else {
        0
    };
    (x, y)
}

} // verus!
