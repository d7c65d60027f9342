//! Which pages stay in the shell's windows.

use vstd::prelude::*;

use crate::page_url;
use crate::page_url::PageUrl;
use crate::text;
use crate::text::same_text;

verus! {

/// The scheme of the app's own pages.
pub const APP_SCHEME: &'static str = "tauri";

/// Whether a page stays in the window: one of the app's own pages, or one on
/// the host of the harness, where that is known.
pub open spec fn stays(url: page_url::UrlParts, expected_host: Option<Seq<char>>) -> bool {
    url.scheme == APP_SCHEME@ || (expected_host is Some && url.host == expected_host)
}

/// Tells whether a navigation stays in the window: internal app pages and
/// pages of the harness do; everything else, external links and `mailto` among
/// it, goes to the system's default browser. While the host of the harness is
/// not known, no page is one of the harness.
pub fn navigation_decision(url: &PageUrl, expected_host: Option<&str>) -> (r: bool)
    ensures
        r == stays(url@, text::slice_text(expected_host)),
{
    if same_text(url.scheme.as_str(), APP_SCHEME) {
        return true;
    }
    match (&url.host, expected_host) {
        (Some(host), Some(expected)) => same_text(host.as_str(), expected),
        _ => false,
    }
}

/// What becomes of a page that asks for a window of its own.
#[derive(Debug)]
pub enum NewWindow {
    /// It gets one.
    Allow,
    /// It gets none; the system's default browser opens this URL.
    OpenInBrowser(String),
}

/// What a [`NewWindow`] stands for.
pub enum NewWindowParts {
    /// It gets one.
    Allow,
    /// The system's default browser opens this URL.
    OpenInBrowser(Seq<char>),
}

impl View for NewWindow {
    type V = NewWindowParts;

    open spec fn view(&self) -> NewWindowParts {
        match self {
            NewWindow::Allow => NewWindowParts::Allow,
            NewWindow::OpenInBrowser(href) => NewWindowParts::OpenInBrowser(href@),
        }
    }
}

/// What becomes of a page that asks for a window of its own.
pub open spec fn new_window(
    url: page_url::UrlParts,
    expected_host: Option<Seq<char>>,
) -> NewWindowParts {
    if stays(url, expected_host) {
        NewWindowParts::Allow
    } else {
        NewWindowParts::OpenInBrowser(url.href)
    }
}

/// Decides on a page that asks for a window of its own: pages that would stay
/// get one, others open in the system's default browser instead.
pub fn new_window_policy(url: &PageUrl, expected_host: Option<&str>) -> (r: NewWindow)
    ensures
        r@ == new_window(url@, text::slice_text(expected_host)),
{
    if navigation_decision(url, expected_host) {
        NewWindow::Allow
    } else {
        NewWindow::OpenInBrowser(url.href.clone())
    }
}

/// The app's own pages always stay, whatever is known of the harness.
pub proof fn internal_pages_stay(url: page_url::UrlParts, expected_host: Option<Seq<char>>)
    requires
        url.scheme == APP_SCHEME@,
    ensures
        stays(url, expected_host),
        new_window(url, expected_host) is Allow,
{
}

/// A page without a host, such as a `mailto` link, leaves, unless it is one of
/// the app's own.
pub proof fn hostless_pages_leave(url: page_url::UrlParts, expected_host: Option<Seq<char>>)
    requires
        url.scheme != APP_SCHEME@,
        url.host is None,
    ensures
        !stays(url, expected_host),
        new_window(url, expected_host) == NewWindowParts::OpenInBrowser(url.href),
{
}

/// Only two kinds of page stay and may have a window of their own: those of
/// scheme `tauri`, and those on the host that is expected.
pub proof fn no_other_page_stays(url: page_url::UrlParts, expected_host: Option<Seq<char>>)
    ensures
        stays(url, expected_host) <==> (url.scheme == "tauri"@ || (url.host is Some && url.host
            == expected_host)),
        new_window(url, expected_host) is Allow <==> (url.scheme == "tauri"@ || (url.host is Some
            && url.host == expected_host)),
{
}

/// Every other page, with a host or without one, opens in the system's browser
/// under its own URL, whatever its path is.
pub proof fn external_pages_open_in_the_browser(
    url: page_url::UrlParts,
    expected_host: Option<Seq<char>>,
)
    requires
        url.scheme != "tauri"@,
        url.host is None || url.host != expected_host,
    ensures
        new_window(url, expected_host) == NewWindowParts::OpenInBrowser(url.href),
        !stays(url, expected_host),
{
}

/// What becomes of a page depends on its scheme and host alone: two pages of
/// one server are treated alike.
pub proof fn server_decides(
    one: page_url::UrlParts,
    other: page_url::UrlParts,
    expected_host: Option<Seq<char>>,
)
    requires
        one.scheme == other.scheme,
        one.host == other.host,
    ensures
        stays(one, expected_host) == stays(other, expected_host),
        new_window(one, expected_host) is Allow <==> new_window(other, expected_host) is Allow,
{
}

/// An answer stands for what it says.
pub proof fn answer_shows_its_url(href: String)
    ensures
        NewWindow::OpenInBrowser(href)@ == NewWindowParts::OpenInBrowser(href@),
        NewWindow::Allow@ is Allow,
{
}

} // verus!
