//! URLs as the shell reads them.
//!
//! The `url` crate parses and joins; what it finds is kept here as plain text
//! and numbers. The text that was parsed is kept too: the same URL is had from
//! it again whenever the crate is to work on it further.

use url::Url;
use vstd::prelude::*;

use crate::text;

verus! {

/// A parsed URL: its normal form, and the parts of it that the shell looks at.
#[derive(Debug)]
pub struct PageUrl {
    /// The text that the URL was read from.
    pub input: String,
    /// The whole URL in its normal form.
    pub href: String,
    /// The scheme, in lower case and without the colon.
    pub scheme: String,
    /// The host, where the URL has one.
    pub host: Option<String>,
    /// The port to connect to: the one written, or the scheme's own.
    pub port: Option<u16>,
    /// The path, without query and fragment.
    pub path: String,
}

/// What a [`PageUrl`] stands for.
pub struct UrlParts {
    /// The text that the URL was read from.
    pub input: Seq<char>,
    /// The whole URL in its normal form.
    pub href: Seq<char>,
    /// The scheme.
    pub scheme: Seq<char>,
    /// The host.
    pub host: Option<Seq<char>>,
    /// The port to connect to.
    pub port: Option<u16>,
    /// The path.
    pub path: Seq<char>,
}

/// What `Url::parse` makes of a text.
pub uninterp spec fn parsed_url(input: Seq<char>) -> Option<UrlParts>;

/// What `Url::join` makes of a reference on the URL that `base` parses to.
pub uninterp spec fn joined_url(base: Seq<char>, reference: Seq<char>) -> Option<UrlParts>;

/// How many characters of a host label the punycode decoder reads behind the
/// prefix `xn--`.
pub const PUNYCODE_MAX: usize = 2000;

/// Whether a label that starts at place `i` of `host` is in punycode and longer
/// than the decoder reads.
pub open spec fn overlong_label(host: Seq<char>, i: int) -> bool {
    let end = i + 4 + PUNYCODE_MAX;
    &&& 0 <= i
    &&& end < host.len()
    &&& i == 0 || host[i - 1] == '.'
    &&& host.subrange(i, i + 4) == "xn--"@
    &&& forall|k: int| i <= k <= end ==> host[k] != '.'
}

/// Whether `host` can be parsed again. One with a label of up to a thousand
/// characters outside ASCII is accepted, but may come out in a punycode form
/// that is refused for its length.
pub open spec fn decodable(host: Seq<char>) -> bool {
    forall|i: int| !overlong_label(host, i)
}

impl UrlParts {
    /// Whether the scheme is `http`.
    pub open spec fn is_http(self) -> bool {
        self.scheme == "http"@
    }

    /// The same URL, read from its normal form.
    pub open spec fn normal(self) -> UrlParts {
        UrlParts {
            input: self.href,
            href: self.href,
            scheme: self.scheme,
            host: self.host,
            port: self.port,
            path: self.path,
        }
    }

    /// What every parsed URL satisfies. It is what its input parses to. Its
    /// normal form stands without white space around it; parsed in turn, that
    /// gives a URL of the same scheme, if any. One with scheme `http` has a
    /// host and a port to connect to, and its normal form gives the same URL
    /// and no other, where its host is decodable.
    pub open spec fn well_formed(self) -> bool {
        &&& parsed_url(self.input) == Some(self)
        &&& text::trimmed(self.href) == self.href
        &&& match parsed_url(self.href) {
            Some(again) => again.scheme == self.scheme && (self.is_http() ==> again
                == self.normal()),
            None => self.is_http() ==> !decodable(self.host.unwrap()),
        }
        &&& self.is_http() ==> self.host is Some && self.port is Some
    }
}

impl View for PageUrl {
    type V = UrlParts;

    open spec fn view(&self) -> UrlParts {
        UrlParts {
            input: self.input@,
            href: self.href@,
            scheme: self.scheme@,
            host: text::text_of(self.host),
            port: self.port,
            path: self.path@,
        }
    }
}

/// The parts of a URL that may be absent.
pub open spec fn parts_of(url: Option<PageUrl>) -> Option<UrlParts> {
    match url {
        Some(u) => Some(u@),
        None => None,
    }
}

/// Whether `reference` is a path from the root, and not the start of another
/// authority.
pub open spec fn rooted_path(reference: Seq<char>) -> bool {
    reference.len() >= 2 && reference[0] == '/' && 'a' <= reference[1] <= 'z'
}

/// Whether `reference` is a path from the root without query and fragment.
pub open spec fn plain_path(reference: Seq<char>) -> bool {
    rooted_path(reference) && !reference.contains('?') && !reference.contains('#')
}

/// Whether `input` parses to a URL with scheme `http`.
pub open spec fn names_http(input: Seq<char>) -> bool {
    match parsed_url(input) {
        Some(url) => url.is_http(),
        None => false,
    }
}

/// Calls `url::Url::parse` and reads the parts off the result.
///
/// Taken on trust: what comes back depends on `input` alone; a text that
/// starts with `http://` parses, if at all, to a URL with scheme `http`; and
/// every URL that comes back is well formed. The last says of the parser that
/// it leaves white space at neither end of a serialisation, and that a
/// serialisation starts with the scheme; for scheme `http`, that it refuses an
/// empty host, that it knows the default port, and that it parses the
/// serialisation of a URL to that URL, unless a label of the host is too long
/// for its punycode decoder.
#[verifier::external_body]
fn url_parse(input: &str) -> (r: Option<PageUrl>)
    ensures
        parts_of(r) == parsed_url(input@),
        r is Some ==> r.unwrap()@.input == input@,
        r is Some ==> r.unwrap()@.well_formed(),
        r is Some && "http://"@.is_prefix_of(input@) ==> r.unwrap()@.is_http(),
{
    let url = Url::parse(input).ok()?;
    Some(PageUrl {
        input: input.to_string(),
        href: url.as_str().to_string(),
        scheme: url.scheme().to_string(),
        host: url.host_str().map(|host| host.to_string()),
        port: url.port_or_known_default(),
        path: url.path().to_string(),
    })
}

/// Parses `base`, calls `url::Url::join` on it, and reads the parts off the
/// result.
///
/// Taken on trust: what comes back depends on the two texts alone, and nothing
/// does where `base` is no URL; a path from the root, joined to a URL with
/// scheme `http`, stays on that URL's scheme, host and port; and where the
/// path has neither query nor fragment, the join succeeds.
#[verifier::external_body]
fn url_join(base: &str, reference: &str) -> (r: Option<PageUrl>)
    ensures
        parts_of(r) == joined_url(base@, reference@),
        r is Some ==> r.unwrap()@.input == r.unwrap()@.href,
        parsed_url(base@) is None ==> r is None,
        names_http(base@) && rooted_path(reference@) && r is Some ==> {
            &&& r.unwrap()@.scheme == parsed_url(base@).unwrap().scheme
            &&& r.unwrap()@.host == parsed_url(base@).unwrap().host
            &&& r.unwrap()@.port == parsed_url(base@).unwrap().port
        },
        names_http(base@) && plain_path(reference@) ==> r is Some,
{
    let url = Url::parse(base).ok()?.join(reference).ok()?;
    Some(PageUrl {
        input: url.as_str().to_string(),
        href: url.as_str().to_string(),
        scheme: url.scheme().to_string(),
        host: url.host_str().map(|host| host.to_string()),
        port: url.port_or_known_default(),
        path: url.path().to_string(),
    })
}

impl PageUrl {
    /// Parses an absolute URL.
    pub fn parse(input: &str) -> (r: Option<PageUrl>)
        ensures
            parts_of(r) == parsed_url(input@),
            r is Some ==> r.unwrap()@.input == input@,
            r is Some ==> r.unwrap()@.well_formed(),
            r is Some && "http://"@.is_prefix_of(input@) ==> r.unwrap()@.is_http(),
    {
        url_parse(input)
    }

    /// Resolves `reference` against this URL. The result counts as read from
    /// its normal form.
    pub fn join(&self, reference: &str) -> (r: Option<PageUrl>)
        ensures
            parts_of(r) == joined_url(self@.input, reference@),
            r is Some ==> r.unwrap()@.input == r.unwrap()@.href,
            self@.well_formed() && self@.is_http() ==> {
                &&& plain_path(reference@) ==> r is Some
                &&& rooted_path(reference@) && r is Some ==> {
                    &&& r.unwrap()@.is_http()
                    &&& r.unwrap()@.host == self@.host
                    &&& r.unwrap()@.port == self@.port
                }
            },
    {
        url_join(self.input.as_str(), reference)
    }

    /// Another copy of this URL.
    pub fn copied(&self) -> (r: PageUrl)
        ensures
            r@ == self@,
    {
        let host = match &self.host {
            Some(host) => Some(host.clone()),
            None => None,
        };
        PageUrl {
            input: self.input.clone(),
            href: self.href.clone(),
            scheme: self.scheme.clone(),
            host,
            port: self.port,
            path: self.path.clone(),
        }
    }
}

/// A URL stands for its fields, all of them, also where it may be absent; its
/// normal form differs from it in nothing but the text that it is read from.
pub proof fn urls_show_their_fields(url: PageUrl, optional: Option<PageUrl>, parts: UrlParts)
    ensures
        url@.input == url.input@,
        url@.href == url.href@,
        url@.scheme == url.scheme@,
        url@.host is Some <==> url.host is Some,
        url.host is Some ==> url@.host.unwrap() == url.host.unwrap()@,
        url@.port == url.port,
        url@.path == url.path@,
        parts_of(optional) is Some <==> optional is Some,
        optional is Some ==> parts_of(optional).unwrap() == optional.unwrap()@,
        parts.normal().input == parts.href,
        parts.normal().href == parts.href,
        parts.normal().scheme == parts.scheme,
        parts.normal().host == parts.host,
        parts.normal().port == parts.port,
        parts.normal().path == parts.path,
        parts.is_http() <==> parts.scheme == "http"@,
{
}

} // verus!
