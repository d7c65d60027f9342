//! The shell's plain HTTP: what it asks a server, and what it reads off the
//! answer.

use vstd::prelude::*;

use crate::page_url;
use crate::page_url::PageUrl;
use crate::text;
use crate::text::{contains, starts_with};

verus! {

/// What stands in the index page that a harness serves, and proves that a
/// harness and not some other server owns the port.
pub const BOOT_MANIFEST_MARKER: &'static str = "__DSH_BOOT__";

/// What stands in the pet plugin's own page. A harness answers unknown routes
/// with its index page, so a good status alone proves nothing.
pub const PET_PAGE_MARKER: &'static str = "pet-standalone.js";

/// The path of the index page.
pub const INDEX_PATH: &'static str = "/";

/// A request: where to connect, and what to send there.
pub struct HttpRequest {
    /// The host to connect to.
    pub host: String,
    /// The port to connect to.
    pub port: u16,
    /// The whole text of the request.
    pub message: String,
}

/// What an [`HttpRequest`] stands for.
pub struct RequestParts {
    /// The host to connect to.
    pub host: Seq<char>,
    /// The port to connect to.
    pub port: u16,
    /// The whole text of the request.
    pub message: Seq<char>,
}

impl View for HttpRequest {
    type V = RequestParts;

    open spec fn view(&self) -> RequestParts {
        RequestParts { host: self.host@, port: self.port, message: self.message@ }
    }
}

/// The request for `path` that is sent to `host`.
pub open spec fn get_message(path: Seq<char>, host: Seq<char>) -> Seq<char> {
    "GET "@ + path + " HTTP/1.1\r\nHost: "@ + host + "\r\nConnection: close\r\n\r\n"@
}

/// The request for `path` on the server of `url`, where the URL names a host
/// and a port to connect to.
pub open spec fn get_request(url: page_url::UrlParts, path: Seq<char>) -> Option<RequestParts> {
    match (url.host, url.port) {
        (Some(host), Some(port)) => Some(
            RequestParts { host, port, message: get_message(path, host) },
        ),
        _ => None,
    }
}

/// The request that asks the server of `url` for its index page.
pub open spec fn probe(url: page_url::UrlParts) -> Option<RequestParts> {
    get_request(url, INDEX_PATH@)
}

/// The request for the page that `url` names.
pub open spec fn page_request(url: page_url::UrlParts) -> Option<RequestParts> {
    get_request(url, url.path)
}

/// The parts of a request that may be absent.
pub open spec fn request_parts(request: Option<HttpRequest>) -> Option<RequestParts> {
    match request {
        Some(r) => Some(r@),
        None => None,
    }
}

/// Composes the request for `path` on the server of `url`.
fn compose(url: &PageUrl, path: &str) -> (r: Option<HttpRequest>)
    ensures
        request_parts(r) == get_request(url@, path@),
{
    match (&url.host, url.port) {
        (Some(host), Some(port)) => {
            let mut message = "GET ".to_string();
            message.append(path);
            message.append(" HTTP/1.1\r\nHost: ");
            message.append(host.as_str());
            message.append("\r\nConnection: close\r\n\r\n");
            Some(HttpRequest { host: host.clone(), port, message })
        },
        _ => None,
    }
}

/// The request that asks the server of `url` for its index page, to learn
/// whether it is a harness. Without a host or a port there is nothing to ask.
pub fn probe_request(url: &PageUrl) -> (r: Option<HttpRequest>)
    ensures
        request_parts(r) == get_request(url@, INDEX_PATH@),
        request_parts(r) == probe(url@),
{
    compose(url, INDEX_PATH)
}

/// The request for the page that `url` names.
pub fn http_get(url: &PageUrl) -> (r: Option<HttpRequest>)
    ensures
        request_parts(r) == get_request(url@, url@.path),
        request_parts(r) == page_request(url@),
{
    compose(url, url.path.as_str())
}

/// Whether an answer comes from a harness.
pub open spec fn from_harness(response: Option<Seq<char>>) -> bool {
    match response {
        Some(answer) => text::holds_text(answer, BOOT_MANIFEST_MARKER@),
        None => false,
    }
}

/// Tells whether a live harness gave this answer to the probe. There is no
/// answer where the connection, the request or the reading failed.
pub fn probe_harness(response: Option<&str>) -> (r: bool)
    ensures
        r == from_harness(text::slice_text(response)),
{
    match response {
        Some(answer) => contains(answer, BOOT_MANIFEST_MARKER),
        None => false,
    }
}

/// Whether an answer reports success.
pub open spec fn success(answer: Seq<char>) -> bool {
    "HTTP/1.1 2"@.is_prefix_of(answer) || "HTTP/1.0 2"@.is_prefix_of(answer)
}

/// Whether an answer is the pet plugin's own page.
pub open spec fn is_pet_page(response: Option<Seq<char>>) -> bool {
    match response {
        Some(answer) => success(answer) && text::holds_text(answer, PET_PAGE_MARKER@),
        None => false,
    }
}

/// Tells whether the pet plugin's own page is genuinely served, by the answer
/// to a request for it.
pub fn pet_page_served(response: Option<&str>) -> (r: bool)
    ensures
        r == is_pet_page(text::slice_text(response)),
{
    match response {
        Some(answer) => {
            let status_ok = starts_with(answer, "HTTP/1.1 2") || starts_with(answer, "HTTP/1.0 2");
            status_ok && contains(answer, PET_PAGE_MARKER)
        },
        None => false,
    }
}

/// Every URL with scheme `http` can be asked: it names a host and a port.
pub proof fn http_url_can_be_asked(url: page_url::UrlParts, path: Seq<char>)
    requires
        url.well_formed(),
        url.is_http(),
    ensures
        get_request(url, path) is Some,
{
}

/// A request goes to the host and the port of the URL, and to a URL without
/// one of them there is none. It is a request line with the path, a line with
/// that host, a line that closes the connection, and an empty line.
pub proof fn request_has_four_lines(url: page_url::UrlParts, path: Seq<char>)
    ensures
        get_request(url, path) is Some <==> url.host is Some && url.port is Some,
        get_request(url, path) matches Some(request) ==> {
            &&& request.host == url.host.unwrap()
            &&& request.port == url.port.unwrap()
            &&& request.message == text::joined(
                seq![
                    "GET "@ + path + " HTTP/1.1"@,
                    "Host: "@ + request.host,
                    "Connection: close"@,
                    ""@,
                    ""@,
                ],
                "\r\n"@,
            )
        },
{
    if url.host is Some && url.port is Some {
        let host = url.host.unwrap();
        let mark = "\r\n"@;
        let asked = "GET "@ + path + " HTTP/1.1"@;
        let named = "Host: "@ + host;
        let closed = "Connection: close"@;
        let one = seq![asked];
        let two = one.push(named);
        let three = two.push(closed);
        let four = three.push(""@);
        text::joined_push(one, mark, named);
        text::joined_push(two, mark, closed);
        text::joined_push(three, mark, ""@);
        text::joined_push(four, mark, ""@);
        assert(four.push(""@) == seq![asked, named, closed, ""@, ""@]);
        reveal_strlit("");
        reveal_strlit("\r\n");
        reveal_strlit("Host: ");
        reveal_strlit(" HTTP/1.1");
        reveal_strlit(" HTTP/1.1\r\nHost: ");
        reveal_strlit("Connection: close");
        reveal_strlit("\r\nConnection: close\r\n\r\n");
        assert(" HTTP/1.1\r\nHost: "@ == " HTTP/1.1"@ + mark + "Host: "@);
        assert("\r\nConnection: close\r\n\r\n"@ == mark + closed + mark + ""@ + mark + ""@);
        assert(get_message(path, host) == text::joined(four.push(""@), mark));
    }
}

/// A probe asks for the root of the server, whatever page the URL names; any
/// other request asks for that page.
pub proof fn probe_asks_for_the_root(url: page_url::UrlParts)
    ensures
        probe(url) == get_request(url, "/"@),
        get_request(url, INDEX_PATH@) == get_request(url, "/"@),
        page_request(url) == get_request(url, url.path),
{
}

/// An answer comes from a harness exactly where it holds the boot marker,
/// whatever status and headers stand before it and whatever follows.
pub proof fn marker_proves_a_harness(before: Seq<char>, after: Seq<char>, answer: Seq<char>)
    ensures
        from_harness(Some(before + "__DSH_BOOT__"@ + after)),
        from_harness(Some(answer)) <==> exists|front: Seq<char>, back: Seq<char>|
            answer == #[trigger] (front + "__DSH_BOOT__"@ + back),
        !from_harness(None),
{
    text::part_is_held(before, "__DSH_BOOT__"@, after);
    text::held_text_stands_between(answer, "__DSH_BOOT__"@);
}

/// An answer is the pet plugin's page exactly where its status is one of
/// success, in either version of the protocol, and it holds the page's marker,
/// wherever that stands.
pub proof fn marker_and_status_prove_the_pet_page(
    version: Seq<char>,
    before: Seq<char>,
    after: Seq<char>,
    answer: Seq<char>,
)
    requires
        version == "1.1"@ || version == "1.0"@,
    ensures
        is_pet_page(Some("HTTP/"@ + version + " 2"@ + before + "pet-standalone.js"@ + after)),
        is_pet_page(Some(answer)) <==> {
            &&& exists|rest: Seq<char>|
                answer == #[trigger] ("HTTP/"@ + "1.1"@ + " 2"@ + rest) || answer == (
                "HTTP/"@ + "1.0"@ + " 2"@ + rest)
            &&& exists|front: Seq<char>, back: Seq<char>|
                answer == #[trigger] (front + "pet-standalone.js"@ + back)
        },
        !is_pet_page(None),
{
    reveal_strlit("HTTP/");
    reveal_strlit(" 2");
    reveal_strlit("1.1");
    reveal_strlit("1.0");
    reveal_strlit("HTTP/1.1 2");
    reveal_strlit("HTTP/1.0 2");
    let newer = "HTTP/"@ + "1.1"@ + " 2"@;
    let older = "HTTP/"@ + "1.0"@ + " 2"@;
    assert("HTTP/1.1 2"@ == newer);
    assert("HTTP/1.0 2"@ == older);
    let status = "HTTP/"@ + version + " 2"@;
    let page = status + before + "pet-standalone.js"@ + after;
    assert(page.take(10) == status);
    assert(status.is_prefix_of(page));
    text::part_is_held(status + before, "pet-standalone.js"@, after);
    text::held_text_stands_between(answer, "pet-standalone.js"@);
    if success(answer) {
        let rest = answer.skip(10);
        if newer.is_prefix_of(answer) {
            assert(answer == newer + rest);
        } else {
            assert(answer == older + rest);
            assert(older + rest == "HTTP/"@ + "1.0"@ + " 2"@ + rest);
            assert(("HTTP/"@ + "1.1"@ + " 2"@ + rest).len() > 0);
        }
    }
    if exists|rest: Seq<char>|
        answer == #[trigger] ("HTTP/"@ + "1.1"@ + " 2"@ + rest) || answer == ("HTTP/"@ + "1.0"@
            + " 2"@ + rest) {
        let rest = choose|rest: Seq<char>|
            answer == #[trigger] ("HTTP/"@ + "1.1"@ + " 2"@ + rest) || answer == ("HTTP/"@
                + "1.0"@ + " 2"@ + rest);
        assert((newer + rest).take(10) == newer);
        assert((older + rest).take(10) == older);
        assert(answer.take(10) == newer || answer.take(10) == older);
    }
}

/// A request stands for its fields, all of them.
pub proof fn request_shows_its_fields(request: HttpRequest)
    ensures
        request@.host == request.host@,
        request@.port == request.port,
        request@.message == request.message@,
        request_parts(Some(request)) == Some(request@),
        request_parts(None) is None,
{
}

} // verus!
