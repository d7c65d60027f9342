//! The desktop pet's window.

use vstd::prelude::*;

use crate::harness_url::HARNESS_SCHEME;
use crate::http;
use crate::http::pet_page_served;
use crate::page_url;
use crate::page_url::PageUrl;
use crate::text;
use crate::text::same_text;

verus! {

/// The route of the pet plugin's own page on the harness.
pub const PET_PAGE_PATH: &'static str = "/voice-pet/pet";

/// The URL of the pet page, where `named` is what `DSH_DESKTOP_PET_URL` parses
/// to if it is set, `route` the plugin's route on the harness and `base` the
/// URL of the harness itself. Only `http` may be named; where something else
/// is, the route takes its place, and the harness itself where there is none.
pub open spec fn pet_url(
    named: Option<Option<page_url::UrlParts>>,
    route: Option<page_url::UrlParts>,
    base: page_url::UrlParts,
) -> Option<page_url::UrlParts> {
    match named {
        None => route,
        Some(parsed) => if names_pet_page(named) {
            parsed
        } else if route is Some {
            route
        } else {
            Some(base)
        },
    }
}

/// What `DSH_DESKTOP_PET_URL` parses to, where it is set.
pub open spec fn named_url(value: Option<Seq<char>>) -> Option<Option<page_url::UrlParts>> {
    match value {
        Some(input) => Some(page_url::parsed_url(input)),
        None => None,
    }
}

/// Whether the variable names a page that the shell accepts: one with scheme
/// `http`.
pub open spec fn names_pet_page(named: Option<Option<page_url::UrlParts>>) -> bool {
    named is Some && named.unwrap() is Some && named.unwrap().unwrap().is_http()
}

/// The parts of a URL that may be unset, or set and not a URL.
pub open spec fn named_parts(named: Option<Option<PageUrl>>) -> Option<
    Option<page_url::UrlParts>,
> {
    match named {
        Some(parsed) => Some(page_url::parts_of(parsed)),
        None => None,
    }
}

/// Chooses the URL of the pet page among what the variable names, the plugin's
/// route on the harness and the harness itself.
pub fn choose_pet_url(
    named: Option<Option<PageUrl>>,
    route: Option<PageUrl>,
    base: &PageUrl,
) -> (r: Option<PageUrl>)
    ensures
        page_url::parts_of(r) == pet_url(named_parts(named), page_url::parts_of(route), base@),
{
    let parsed = match named {
        None => {
            return route;
        },
        Some(parsed) => parsed,
    };
    if let Some(url) = parsed {
        if same_text(url.scheme.as_str(), HARNESS_SCHEME) {
            return Some(url);
        }
    }
    match route {
        Some(url) => Some(url),
        None => Some(base.copied()),
    }
}

/// The URL of the pet page, where `value` is what `DSH_DESKTOP_PET_URL` holds.
pub open spec fn pet_page(
    value: Option<Seq<char>>,
    base: page_url::UrlParts,
) -> Option<page_url::UrlParts> {
    pet_url(named_url(value), page_url::joined_url(base.input, PET_PAGE_PATH@), base)
}

/// The URL of the pet page: the one that `DSH_DESKTOP_PET_URL` names, or else
/// the plugin's route on the harness at `base`. On a harness with scheme `http`
/// there always is one.
pub fn pet_page_url(value: Option<&str>, base: &PageUrl) -> (r: Option<PageUrl>)
    ensures
        page_url::parts_of(r) == pet_page(text::slice_text(value), base@),
        page_url::parts_of(r) == pet_url(
            named_url(text::slice_text(value)),
            page_url::joined_url(base@.input, PET_PAGE_PATH@),
            base@,
        ),
        base@.well_formed() && base@.is_http() ==> {
            &&& r is Some
            &&& r.unwrap()@.is_http()
            &&& names_pet_page(named_url(text::slice_text(value))) ==> page_url::parts_of(r)
                == named_url(text::slice_text(value)).unwrap()
            &&& !names_pet_page(named_url(text::slice_text(value))) ==> {
                &&& page_url::parts_of(r) == page_url::joined_url(base@.input, PET_PAGE_PATH@)
                &&& r.unwrap()@.host == base@.host
                &&& r.unwrap()@.port == base@.port
            }
        },
{
    let named = match value {
        Some(input) => Some(PageUrl::parse(input)),
        None => None,
    };
    proof {
        reveal_strlit("/voice-pet/pet");
    }
    choose_pet_url(named, base.join(PET_PAGE_PATH), base)
}

/// On a harness that has the plugin's route, which every one with scheme
/// `http` has, what the variable holds is the page or changes nothing: a URL
/// that is refused or a text that is none gives the page of an unset variable.
pub proof fn refused_name_changes_nothing(
    named: Option<Option<page_url::UrlParts>>,
    route: Option<page_url::UrlParts>,
    base: page_url::UrlParts,
)
    requires
        route is Some,
    ensures
        pet_url(named, route, base) == if names_pet_page(named) {
            named.unwrap()
        } else {
            pet_url(None, route, base)
        },
{
}

/// Whether `DSH_DESKTOP_PET_URL` holds a URL that is ignored.
pub open spec fn refused(value: Option<Seq<char>>) -> bool {
    match named_url(value) {
        Some(Some(u)) => !u.is_http(),
        _ => false,
    }
}

/// Tells whether `DSH_DESKTOP_PET_URL` holds a URL that is ignored because its
/// scheme is not `http`, which is worth a warning.
pub fn pet_override_is_refused(value: Option<&str>) -> (r: bool)
    ensures
        r == match named_url(text::slice_text(value)) {
            Some(Some(u)) => !u.is_http(),
            _ => false,
        },
        r == refused(text::slice_text(value)),
{
    match value {
        Some(input) => match PageUrl::parse(input) {
            Some(url) => !same_text(url.scheme.as_str(), HARNESS_SCHEME),
            None => false,
        },
        None => false,
    }
}

/// The page to open in the pet's window, where `response` is the answer to a
/// request for it.
pub open spec fn shown_page(
    page: page_url::UrlParts,
    response: Option<Seq<char>>,
) -> Option<page_url::UrlParts> {
    if http::is_pet_page(response) {
        Some(page)
    } else {
        None
    }
}

/// The page to open in the pet's window, where the answer to a request for it
/// shows that the plugin serves it.
pub fn maybe_create_pet_window(pet_url: PageUrl, response: Option<&str>) -> (r: Option<PageUrl>)
    ensures
        page_url::parts_of(r) == if http::is_pet_page(text::slice_text(response)) {
            Some(pet_url@)
        } else {
            None
        },
        page_url::parts_of(r) == shown_page(pet_url@, text::slice_text(response)),
{
    if pet_page_served(response) {
        Some(pet_url)
    } else {
        None
    }
}

/// The page is what the variable names, where that is a URL with scheme `http`.
/// Without the variable it is the plugin's route, if there is one; with any
/// other value it is the route too, or else the harness itself.
pub proof fn pet_page_is_named_or_the_route(
    name: page_url::UrlParts,
    named: Option<page_url::UrlParts>,
    route: Option<page_url::UrlParts>,
    base: page_url::UrlParts,
)
    requires
        name.scheme == "http"@,
        named is Some ==> named.unwrap().scheme != "http"@,
    ensures
        pet_url(Some(Some(name)), route, base) == Some(name),
        pet_url(None, route, base) == route,
        route is Some ==> pet_url(Some(named), route, base) == route,
        route is None ==> pet_url(Some(named), route, base) == Some(base),
{
}

/// What the variable holds is shown where it parses to a URL with scheme
/// `http`; any other value is worth the page of the plugin's route on the
/// harness, and a warning where it is a URL.
pub proof fn pet_page_follows_the_variable(value: Seq<char>, base: page_url::UrlParts)
    ensures
        ({
            let parsed = page_url::parsed_url(value);
            let route = page_url::joined_url(base.input, "/voice-pet/pet"@);
            let accepted = parsed is Some && parsed.unwrap().scheme == "http"@;
            &&& accepted ==> pet_page(Some(value), base) == parsed
            &&& !accepted && route is Some ==> pet_page(Some(value), base) == route
            &&& !accepted && route is None ==> pet_page(Some(value), base) == Some(base)
            &&& pet_page(None, base) == route
            &&& refused(Some(value)) <==> parsed is Some && !accepted
            &&& !refused(None)
        }),
{
}

/// The page that was asked for is shown, and only where the answer is a success
/// and holds the plugin's marker.
pub proof fn served_page_is_shown(page: page_url::UrlParts, answer: Seq<char>)
    ensures
        shown_page(page, Some(answer)) is Some <==> {
            &&& ("HTTP/1.1 2"@.is_prefix_of(answer) || "HTTP/1.0 2"@.is_prefix_of(answer))
            &&& exists|front: Seq<char>, back: Seq<char>|
                answer == #[trigger] (front + "pet-standalone.js"@ + back)
        },
        shown_page(page, Some(answer)) is Some ==> shown_page(page, Some(answer)) == Some(page),
        shown_page(page, None) is None,
{
    text::held_text_stands_between(answer, "pet-standalone.js"@);
}

/// The variable names what it parses to, and the plugin serves its page at one
/// route.
pub proof fn variable_names_what_it_parses_to(value: Seq<char>)
    ensures
        named_url(Some(value)) == Some(page_url::parsed_url(value)),
        named_url(None) is None,
        PET_PAGE_PATH@ == "/voice-pet/pet"@,
        page_url::plain_path(PET_PAGE_PATH@),
{
    reveal_strlit("/voice-pet/pet");
}

/// A named page stands for itself, parsed or not.
pub proof fn named_pages_are_kept(named: Option<Option<PageUrl>>)
    ensures
        named_parts(named) is Some <==> named is Some,
        named is Some ==> named_parts(named).unwrap() == page_url::parts_of(named.unwrap()),
{
}

} // verus!
