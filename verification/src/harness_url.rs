//! Where the harness tells its URL, and where the shell keeps it.
//!
//! A harness reports readiness with one line on its standard output. The shell
//! that spawned it records the URL in a file, so that a second instance of the
//! shell attaches to the same server instead of spawning another writer.

use vstd::prelude::*;

use crate::page_url;
use crate::page_url::PageUrl;
use crate::text;
use crate::text::{lead, same_text, starts_with, trim, without_front, CharClass};

verus! {

/// What precedes the URL in the harness's readiness line.
pub const URL_LINE_PREFIX: &'static str = "dsh web: ";

/// What the URL in a readiness line starts with.
pub const GUI_URL_START: &'static str = "http://";

/// The scheme of a URL that the shell attaches to.
pub const HARNESS_SCHEME: &'static str = "http";

/// The bundled page that shows while the harness boots.
pub const SPINNER_PAGE: &'static str = "index.html";

/// The bundled page that shows when the harness never reports readiness.
pub const ERROR_PAGE: &'static str = "error.html";

/// Where the bundled pages stand in the app's own protocol.
pub const APP_ROOT: &'static str = "tauri://localhost/";

/// The text in the place of the URL in a readiness line: the first word behind
/// the prefix, where it starts as a URL of the GUI does.
pub open spec fn gui_url_text(line: Seq<char>) -> Option<Seq<char>> {
    match text::after_prefix(line, URL_LINE_PREFIX@) {
        Some(rest) => match text::first_word(rest) {
            Some(word) => if GUI_URL_START@.is_prefix_of(word) {
                Some(word)
            } else {
                None
            },
            None => None,
        },
        None => None,
    }
}

/// The URL that a line of the harness reports.
pub open spec fn gui_url(line: Seq<char>) -> Option<page_url::UrlParts> {
    match gui_url_text(line) {
        Some(word) => page_url::parsed_url(word),
        None => None,
    }
}

/// Finds the text in the place of the URL in a readiness line.
pub fn gui_url_candidate(line: &str) -> (r: Option<String>)
    ensures
        text::text_of(r) == gui_url_text(line@),
{
    if !starts_with(line, URL_LINE_PREFIX) {
        return None;
    }
    let rest = line.substring_char(URL_LINE_PREFIX.unicode_len(), line.unicode_len());
    let words = without_front(rest, CharClass::WhiteSpace);
    if words.is_empty() {
        return None;
    }
    let word = lead(words, CharClass::Visible);
    if !starts_with(word, GUI_URL_START) {
        return None;
    }
    Some(word.to_string())
}

/// The URL of the GUI in a readiness line (`dsh web: http://127.0.0.1:PORT`),
/// where the line is one.
pub fn parse_gui_url(line: &str) -> (r: Option<PageUrl>)
    ensures
        page_url::parts_of(r) == gui_url(line@),
        r is Some ==> r.unwrap()@.well_formed() && r.unwrap()@.is_http(),
{
    match gui_url_candidate(line) {
        Some(word) => PageUrl::parse(word.as_str()),
        None => None,
    }
}

/// The bundled error page as a URL of the app's own protocol.
pub open spec fn error_page() -> Option<page_url::UrlParts> {
    page_url::parsed_url(APP_ROOT@ + ERROR_PAGE@)
}

/// The bundled error page as a URL of the app's own protocol.
pub fn error_page_url() -> (r: Option<PageUrl>)
    ensures
        page_url::parts_of(r) == error_page(),
        page_url::parts_of(r) == page_url::parsed_url(APP_ROOT@ + ERROR_PAGE@),
{
    let mut page = APP_ROOT.to_string();
    page.append(ERROR_PAGE);
    PageUrl::parse(page.as_str())
}

/// The text of the file that records `url`.
pub open spec fn record_text(url: page_url::UrlParts) -> Seq<char> {
    url.href + "\n"@
}

/// The URL that a record holds, where it can be read and its scheme is `http`.
pub open spec fn recorded_url(record: Option<Seq<char>>) -> Option<page_url::UrlParts> {
    match record {
        Some(content) => http_only(page_url::parsed_url(text::trimmed(content))),
        None => None,
    }
}

/// `url`, where it is one with scheme `http`.
pub open spec fn http_only(url: Option<page_url::UrlParts>) -> Option<page_url::UrlParts> {
    match url {
        Some(u) => if u.is_http() {
            Some(u)
        } else {
            None
        },
        None => None,
    }
}

/// Lets a URL through where its scheme is `http`.
pub fn accept_http(url: Option<PageUrl>) -> (r: Option<PageUrl>)
    ensures
        page_url::parts_of(r) == http_only(page_url::parts_of(url)),
{
    match url {
        Some(u) => if same_text(u.scheme.as_str(), HARNESS_SCHEME) {
            Some(u)
        } else {
            None
        },
        None => None,
    }
}

/// The text with which to record the URL of the harness that this instance
/// spawned. The next instance reads the same URL from it, if it has scheme
/// `http`, and none otherwise.
pub fn record_harness_url(url: &PageUrl) -> (r: String)
    ensures
        r@ == record_text(url@),
        url@.well_formed() && url@.is_http() && page_url::decodable(url@.host.unwrap())
            ==> recorded_url(Some(r@)) == Some(url@.normal()),
        url@.well_formed() && !url@.is_http() ==> recorded_url(Some(r@)) is None,
{
    proof {
        if url@.well_formed() {
            record_gives_no_other_url(url@);
            if url@.is_http() && page_url::decodable(url@.host.unwrap()) {
                record_is_read_back(url@);
            }
        }
    }
    let mut r = url.href.clone();
    r.append("\n");
    r
}

/// The URL in the record of an earlier instance, to be probed before the shell
/// attaches to it. `record` is the text of the file, where it could be read.
pub fn recorded_harness_url(record: Option<&str>) -> (r: Option<PageUrl>)
    ensures
        page_url::parts_of(r) == recorded_url(text::slice_text(record)),
        r is Some ==> r.unwrap()@.well_formed() && r.unwrap()@.is_http(),
{
    match record {
        Some(content) => accept_http(PageUrl::parse(trim(content))),
        None => None,
    }
}

/// The line feed at the end of a record does not count.
proof fn record_is_trimmed(url: page_url::UrlParts)
    requires
        url.well_formed(),
    ensures
        text::trimmed(record_text(url)) == url.href,
{
    reveal_strlit("\n");
    assert(record_text(url) == url.href.push('\n'));
    text::trimmed_push(url.href, '\n');
}

/// A recorded URL is read back: the record that one instance writes for the
/// harness it spawned gives the next instance that very URL. A host that
/// cannot be parsed again is the one exception.
pub proof fn record_is_read_back(url: page_url::UrlParts)
    requires
        url.well_formed(),
        url.is_http(),
        page_url::decodable(url.host.unwrap()),
    ensures
        recorded_url(Some(record_text(url))) == Some(url.normal()),
{
    record_is_trimmed(url);
}

/// The record of a URL gives that URL or none, and none where the scheme is
/// another one than `http`.
pub proof fn record_gives_no_other_url(url: page_url::UrlParts)
    requires
        url.well_formed(),
    ensures
        ({
            let read = recorded_url(Some(record_text(url)));
            &&& read is None || read == Some(url.normal())
            &&& !url.is_http() ==> read is None
        }),
{
    record_is_trimmed(url);
}

/// A readiness line gives its URL, however long that is and whatever follows
/// it: the text behind `dsh web: ` that starts with `http://` and reaches to
/// the next white space.
pub proof fn readiness_line_gives_its_url(before: Seq<char>, word: Seq<char>, after: Seq<char>)
    requires
        text::blank(before),
        text::solid(word),
        "http://"@.is_prefix_of(word),
        after.len() > 0 ==> text::white_space(after.first()),
    ensures
        gui_url_text("dsh web: "@ + before + word + after) == Some(word),
        gui_url("dsh web: "@ + before + word + after) == page_url::parsed_url(word),
{
    reveal_strlit("http://");
    let rest = before + word + after;
    let line = "dsh web: "@ + before + word + after;
    assert(line == "dsh web: "@ + rest);
    text::rest_follows_the_prefix("dsh web: "@, rest, line);
    text::first_word_is_found(before, word, after);
}

/// Only a readiness line gives a URL: one that starts with `dsh web: ` and has
/// the URL, which starts with `http://`, as its next word.
pub proof fn other_lines_give_no_url(line: Seq<char>)
    requires
        gui_url_text(line) is Some || gui_url(line) is Some,
    ensures
        gui_url_text(line) is Some,
        "http://"@.is_prefix_of(gui_url_text(line).unwrap()),
        text::solid(gui_url_text(line).unwrap()),
        exists|before: Seq<char>, after: Seq<char>|
            text::blank(before) && (after.len() > 0 ==> text::white_space(after.first())) && line
                == #[trigger] ("dsh web: "@ + before + gui_url_text(line).unwrap() + after),
{
    text::rest_follows_the_prefix("dsh web: "@, Seq::empty(), line);
    let rest = text::after_prefix(line, "dsh web: "@).unwrap();
    text::first_word_stands_free(rest);
    let word = text::first_word(rest).unwrap();
    let (before, after) = choose|before: Seq<char>, after: Seq<char>|
        text::blank(before) && (after.len() > 0 ==> text::white_space(after.first())) && rest
            == #[trigger] (before + word + after);
    assert(line == "dsh web: "@ + before + word + after);
}

/// A record is the URL on a line of its own, and of a record the text between
/// the white space counts: it gives the URL that it parses to, if that has
/// scheme `http`.
pub proof fn record_holds_one_url(
    url: page_url::UrlParts,
    before: Seq<char>,
    core: Seq<char>,
    after: Seq<char>,
)
    requires
        text::blank(before),
        text::blank(after),
        core.len() > 0 ==> !text::white_space(core.first()) && !text::white_space(core.last()),
    ensures
        record_text(url) == url.href.push('\n'),
        recorded_url(Some(before + core + after)) == match page_url::parsed_url(core) {
            Some(read) => if read.scheme == "http"@ {
                Some(read)
            } else {
                None
            },
            None => None,
        },
        recorded_url(None) is None,
{
    reveal_strlit("\n");
    assert(record_text(url) == url.href.push('\n'));
    text::trimming_leaves_the_core(before, core, after);
}

/// What is let through is the URL itself, and only where its scheme is `http`.
pub proof fn only_http_is_let_through(url: page_url::UrlParts)
    ensures
        url.scheme == "http"@ ==> http_only(Some(url)) == Some(url),
        url.scheme != "http"@ ==> http_only(Some(url)) is None,
        http_only(None) is None,
        url.is_http() <==> url.scheme == "http"@,
{
}

/// The bundled pages stand where the app's own protocol serves them.
pub proof fn bundled_pages_have_their_names()
    ensures
        APP_ROOT@ + ERROR_PAGE@ == "tauri://localhost/error.html"@,
        error_page() == page_url::parsed_url("tauri://localhost/error.html"@),
        SPINNER_PAGE@ == "index.html"@,
        HARNESS_SCHEME@ == "http"@,
{
    reveal_strlit("tauri://localhost/");
    reveal_strlit("error.html");
    reveal_strlit("tauri://localhost/error.html");
    assert(APP_ROOT@ + ERROR_PAGE@ == "tauri://localhost/error.html"@);
}

} // verus!
