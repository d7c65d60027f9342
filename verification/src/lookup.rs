//! The search for a harness that already serves this machine.
//!
//! Two harnesses that write one session log corrupt it, so the shell attaches
//! to a running one wherever it finds it. It asks three sources for a URL, one
//! after the other, and probes what each of them gives.

use vstd::prelude::*;

use crate::harness_url;
use crate::harness_url::{recorded_harness_url, HARNESS_SCHEME};
use crate::page_url;
use crate::page_url::PageUrl;
use crate::text;
use crate::text::same_text;

verus! {

/// The port that the web profile composes by default.
pub const DEFAULT_HARNESS_URL: &'static str = "http://127.0.0.1:3080";

/// The loopback address.
pub const LOOPBACK_ADDRESS: &'static str = "127.0.0.1";

/// The loopback name.
pub const LOOPBACK_NAME: &'static str = "localhost";

/// Whether a URL is one with scheme `http` on this machine.
pub open spec fn loopback_http(url: page_url::UrlParts) -> bool {
    url.is_http() && (url.host == Some(LOOPBACK_ADDRESS@) || url.host == Some(LOOPBACK_NAME@))
}

/// `url`, where it is one with scheme `http` on this machine.
pub open spec fn loopback_only(url: Option<page_url::UrlParts>) -> Option<page_url::UrlParts> {
    match url {
        Some(u) => if loopback_http(u) {
            Some(u)
        } else {
            None
        },
        None => None,
    }
}

/// What `DSH_DESKTOP_HARNESS_URL` parses to, where it is set and parses.
pub open spec fn override_url(value: Option<Seq<char>>) -> Option<page_url::UrlParts> {
    match value {
        Some(input) => page_url::parsed_url(input),
        None => None,
    }
}

/// Tells whether a URL is one with scheme `http` on this machine.
pub fn is_loopback_http(url: &PageUrl) -> (r: bool)
    ensures
        r == loopback_http(url@),
{
    let loopback = match &url.host {
        Some(host) => same_text(host.as_str(), LOOPBACK_ADDRESS) || same_text(
            host.as_str(),
            LOOPBACK_NAME,
        ),
        None => false,
    };
    same_text(url.scheme.as_str(), HARNESS_SCHEME) && loopback
}

/// Lets a URL through where its scheme is `http` and its host this machine.
pub fn accept_loopback(url: Option<PageUrl>) -> (r: Option<PageUrl>)
    ensures
        page_url::parts_of(r) == loopback_only(page_url::parts_of(url)),
{
    match url {
        Some(u) => if is_loopback_http(&u) {
            Some(u)
        } else {
            None
        },
        None => None,
    }
}

/// Parses the value of `DSH_DESKTOP_HARNESS_URL`.
fn parse_override(value: Option<&str>) -> (r: Option<PageUrl>)
    ensures
        page_url::parts_of(r) == override_url(text::slice_text(value)),
        r is Some ==> r.unwrap()@.well_formed(),
{
    match value {
        Some(input) => PageUrl::parse(input),
        None => None,
    }
}

/// The URL that `DSH_DESKTOP_HARNESS_URL` asks for, which must be on this
/// machine.
pub fn override_harness_url(value: Option<&str>) -> (r: Option<PageUrl>)
    ensures
        page_url::parts_of(r) == loopback_only(override_url(text::slice_text(value))),
        r is Some ==> r.unwrap()@.well_formed() && r.unwrap()@.is_http(),
{
    accept_loopback(parse_override(value))
}

/// Whether `DSH_DESKTOP_HARNESS_URL` holds a URL that is ignored.
pub open spec fn refused(value: Option<Seq<char>>) -> bool {
    override_url(value) is Some && !loopback_http(override_url(value).unwrap())
}

/// Tells whether `DSH_DESKTOP_HARNESS_URL` holds a URL that is ignored because
/// it leads off this machine, which is worth a warning.
pub fn override_is_refused(value: Option<&str>) -> (r: bool)
    ensures
        r == match override_url(text::slice_text(value)) {
            Some(u) => !loopback_http(u),
            None => false,
        },
        r == refused(text::slice_text(value)),
{
    match parse_override(value) {
        Some(u) => !is_loopback_http(&u),
        None => false,
    }
}

/// The URL of the web profile's default port.
pub fn default_harness_url() -> (r: Option<PageUrl>)
    ensures
        page_url::parts_of(r) == page_url::parsed_url(DEFAULT_HARNESS_URL@),
        page_url::parts_of(r) == Source::Default.knows(None),
        r is Some ==> r.unwrap()@.well_formed() && r.unwrap()@.is_http(),
{
    proof {
        reveal_strlit("http://");
        reveal_strlit("http://127.0.0.1:3080");
        assert("http://"@.is_prefix_of(DEFAULT_HARNESS_URL@));
    }
    PageUrl::parse(DEFAULT_HARNESS_URL)
}

/// What may know the URL of a running harness.
#[derive(Clone, Copy, Debug, PartialEq, Eq, Structural)]
pub enum Source {
    /// The environment variable `DSH_DESKTOP_HARNESS_URL`.
    Override,
    /// The web profile's default port.
    Default,
    /// The record that an earlier instance of the shell left.
    Recorded,
}

impl Source {
    /// The URL that this source knows, where `value` is the text it holds: the
    /// value of the variable or the content of the record. The default port
    /// needs none.
    pub open spec fn knows(self, value: Option<Seq<char>>) -> Option<page_url::UrlParts> {
        match self {
            Source::Override => loopback_only(override_url(value)),
            Source::Default => page_url::parsed_url(DEFAULT_HARNESS_URL@),
            Source::Recorded => harness_url::recorded_url(value),
        }
    }

    /// The URL that this source knows, from the text it holds.
    pub fn url(self, value: Option<&str>) -> (r: Option<PageUrl>)
        ensures
            page_url::parts_of(r) == self.knows(text::slice_text(value)),
            r is Some ==> r.unwrap()@.well_formed() && r.unwrap()@.is_http(),
    {
        match self {
            Source::Override => override_harness_url(value),
            Source::Default => default_harness_url(),
            Source::Recorded => recorded_harness_url(value),
        }
    }
}

/// How far the search has come, and with that what is to be done next.
#[derive(Debug)]
pub enum Lookup {
    /// Get the URL that the source knows.
    Ask(Source),
    /// Probe the URL that the source gave.
    Probe(Source, PageUrl),
    /// Attach to the harness at this URL: it is running.
    Attach(PageUrl),
    /// Spawn a harness: none is running.
    Spawn,
}

/// What came of the last step of the search.
#[derive(Debug)]
pub enum LookupEvent {
    /// The source was asked, and gave a URL or none.
    Answered(Option<PageUrl>),
    /// The URL was probed, and a harness answered or not.
    Probed(bool),
}

/// What a [`Lookup`] stands for.
pub enum LookupState {
    /// Get the URL that the source knows.
    Ask(Source),
    /// Probe the URL that the source gave.
    Probe(Source, page_url::UrlParts),
    /// Attach to the harness at this URL.
    Attach(page_url::UrlParts),
    /// Spawn a harness.
    Spawn,
}

/// What a [`LookupEvent`] stands for.
pub enum LookupInput {
    /// The source was asked.
    Answered(Option<page_url::UrlParts>),
    /// The URL was probed.
    Probed(bool),
}

impl View for Lookup {
    type V = LookupState;

    open spec fn view(&self) -> LookupState {
        match self {
            Lookup::Ask(source) => LookupState::Ask(*source),
            Lookup::Probe(source, url) => LookupState::Probe(*source, url@),
            Lookup::Attach(url) => LookupState::Attach(url@),
            Lookup::Spawn => LookupState::Spawn,
        }
    }
}

impl View for LookupEvent {
    type V = LookupInput;

    open spec fn view(&self) -> LookupInput {
        match self {
            LookupEvent::Answered(url) => LookupInput::Answered(page_url::parts_of(*url)),
            LookupEvent::Probed(live) => LookupInput::Probed(*live),
        }
    }
}

impl LookupState {
    /// Where the search starts.
    pub open spec fn first() -> LookupState {
        LookupState::Ask(Source::Override)
    }

    /// Where the search goes when a source has led to no harness.
    pub open spec fn after(source: Source) -> LookupState {
        match source {
            Source::Override => LookupState::Ask(Source::Default),
            Source::Default => LookupState::Ask(Source::Recorded),
            Source::Recorded => LookupState::Spawn,
        }
    }

    /// The next state of the search. What does not answer the last step
    /// changes nothing.
    pub open spec fn next(self, input: LookupInput) -> LookupState {
        match (self, input) {
            (LookupState::Ask(source), LookupInput::Answered(Some(url))) => LookupState::Probe(
                source,
                url,
            ),
            (LookupState::Ask(source), LookupInput::Answered(None)) => LookupState::after(source),
            (LookupState::Probe(_, url), LookupInput::Probed(true)) => LookupState::Attach(url),
            (LookupState::Probe(source, _), LookupInput::Probed(false)) => LookupState::after(
                source,
            ),
            (state, _) => state,
        }
    }
}

/// Where the search goes when a source has led to no harness.
fn after_source(source: Source) -> (r: Lookup)
    ensures
        r@ == LookupState::after(source),
{
    match source {
        Source::Override => Lookup::Ask(Source::Default),
        Source::Default => Lookup::Ask(Source::Recorded),
        Source::Recorded => Lookup::Spawn,
    }
}

impl Lookup {
    /// The start of the search.
    pub fn start() -> (r: Lookup)
        ensures
            r@ == LookupState::Ask(Source::Override),
            r@ == LookupState::first(),
    {
        Lookup::Ask(Source::Override)
    }

    /// Takes the search for an existing harness one step further.
    pub fn existing_harness_url(self, event: LookupEvent) -> (r: Lookup)
        ensures
            r@ == self@.next(event@),
    {
        match (self, event) {
            (Lookup::Ask(source), LookupEvent::Answered(Some(url))) => Lookup::Probe(source, url),
            (Lookup::Ask(source), LookupEvent::Answered(None)) => after_source(source),
            (Lookup::Probe(source, url), LookupEvent::Probed(live)) => if live {
                Lookup::Attach(url)
            } else {
                after_source(source)
            },
            (state, _) => state,
        }
    }
}

/// How many sources are left to ask, this one counted.
pub open spec fn sources_left(source: Source) -> nat {
    match source {
        Source::Override => 3,
        Source::Default => 2,
        Source::Recorded => 1,
    }
}

/// The state that one source leads to, where `known` is what the sources know
/// and `live` what a probe finds.
pub open spec fn source_outcome(
    source: Source,
    known: spec_fn(Source) -> Option<page_url::UrlParts>,
    live: spec_fn(page_url::UrlParts) -> bool,
) -> LookupState {
    let asked = LookupState::Ask(source).next(LookupInput::Answered(known(source)));
    match asked {
        LookupState::Probe(_, url) => asked.next(LookupInput::Probed(live(url))),
        _ => asked,
    }
}

/// The state in which the search ends when it starts with `source`.
pub open spec fn outcome(
    source: Source,
    known: spec_fn(Source) -> Option<page_url::UrlParts>,
    live: spec_fn(page_url::UrlParts) -> bool,
) -> LookupState
    decreases sources_left(source),
{
    match source_outcome(source, known, live) {
        LookupState::Ask(following) => if sources_left(following) < sources_left(source) {
            outcome(following, known, live)
        } else {
            LookupState::Ask(following)
        },
        done => done,
    }
}

/// Whether a source knows the URL of a running harness.
pub open spec fn knows_running(
    source: Source,
    known: spec_fn(Source) -> Option<page_url::UrlParts>,
    live: spec_fn(page_url::UrlParts) -> bool,
) -> bool {
    known(source) is Some && live(known(source).unwrap())
}

/// The search attaches to the first running harness that a source knows, in
/// the order override, default port, record; where no source knows one, and
/// only there, it ends with spawning a harness.
pub proof fn first_running_harness_is_used(
    known: spec_fn(Source) -> Option<page_url::UrlParts>,
    live: spec_fn(page_url::UrlParts) -> bool,
)
    ensures
        outcome(Source::Override, known, live) == if knows_running(Source::Override, known, live) {
            LookupState::Attach(known(Source::Override).unwrap())
        } else if knows_running(Source::Default, known, live) {
            LookupState::Attach(known(Source::Default).unwrap())
        } else if knows_running(Source::Recorded, known, live) {
            LookupState::Attach(known(Source::Recorded).unwrap())
        } else {
            LookupState::Spawn
        },
{
    reveal_with_fuel(outcome, 3);
}

/// A second writer is never spawned beside a harness that a source knows.
pub proof fn no_second_writer(
    known: spec_fn(Source) -> Option<page_url::UrlParts>,
    live: spec_fn(page_url::UrlParts) -> bool,
    source: Source,
)
    requires
        knows_running(source, known, live),
    ensures
        outcome(Source::Override, known, live) is Attach,
{
    first_running_harness_is_used(known, live);
}

/// A second instance of the shell attaches to the harness that the first one
/// spawned and recorded, as long as it runs; where an earlier source knows a
/// running harness too, it attaches to that. A host that cannot be parsed again
/// is the one exception.
pub proof fn second_instance_attaches(
    spawned: page_url::UrlParts,
    known: spec_fn(Source) -> Option<page_url::UrlParts>,
    live: spec_fn(page_url::UrlParts) -> bool,
)
    requires
        spawned.well_formed(),
        spawned.is_http(),
        page_url::decodable(spawned.host.unwrap()),
        live(spawned.normal()),
        known(Source::Recorded) == Source::Recorded.knows(Some(harness_url::record_text(spawned))),
    ensures
        outcome(Source::Override, known, live) is Attach,
        !knows_running(Source::Override, known, live) && !knows_running(
            Source::Default,
            known,
            live,
        ) ==> outcome(Source::Override, known, live) == LookupState::Attach(spawned.normal()),
{
    harness_url::record_is_read_back(spawned);
    first_running_harness_is_used(known, live);
}

/// The search never attaches to a harness that does not run: a record that a
/// dead one left behind is passed over.
pub proof fn dead_harness_is_not_used(
    known: spec_fn(Source) -> Option<page_url::UrlParts>,
    live: spec_fn(page_url::UrlParts) -> bool,
)
    ensures
        match outcome(Source::Override, known, live) {
            LookupState::Attach(url) => live(url),
            _ => true,
        },
{
    first_running_harness_is_used(known, live);
}

/// What the search finds through the record of `recorded`, where no earlier
/// source knows a running harness: the very URL if it runs and has scheme
/// `http`, and otherwise nothing.
pub proof fn record_leads_to_its_harness(
    recorded: page_url::UrlParts,
    known: spec_fn(Source) -> Option<page_url::UrlParts>,
    live: spec_fn(page_url::UrlParts) -> bool,
)
    requires
        recorded.well_formed(),
        recorded.is_http() ==> page_url::decodable(recorded.host.unwrap()),
        known(Source::Recorded) == Source::Recorded.knows(Some(harness_url::record_text(recorded))),
        !knows_running(Source::Override, known, live),
        !knows_running(Source::Default, known, live),
    ensures
        outcome(Source::Override, known, live) == if recorded.is_http() && live(
            recorded.normal(),
        ) {
            LookupState::Attach(recorded.normal())
        } else {
            LookupState::Spawn
        },
{
    harness_url::record_gives_no_other_url(recorded);
    if recorded.is_http() {
        harness_url::record_is_read_back(recorded);
    }
    first_running_harness_is_used(known, live);
}

/// Only this machine is asked by override: a URL is accepted exactly where its
/// scheme is `http` and its host is `127.0.0.1` or `localhost`, whatever its
/// port and path are.
pub proof fn override_stays_on_this_machine(url: page_url::UrlParts)
    ensures
        loopback_http(url) <==> url.scheme == "http"@ && (url.host == Some("127.0.0.1"@) || url.host
            == Some("localhost"@)),
        loopback_http(url) ==> loopback_only(Some(url)) == Some(url),
        !loopback_http(url) ==> loopback_only(Some(url)) is None,
        loopback_only(None) is None,
{
}

/// What each source knows: the override the URL that it holds, where that is on
/// this machine; the default port the same URL always; the record the URL that
/// it holds, where its scheme is `http`.
pub proof fn sources_know_what_they_hold(value: Seq<char>, any: Option<Seq<char>>)
    ensures
        Source::Override.knows(Some(value)) == match page_url::parsed_url(value) {
            Some(url) => if url.scheme == "http"@ && (url.host == Some("127.0.0.1"@) || url.host
                == Some("localhost"@)) {
                Some(url)
            } else {
                None
            },
            None => None,
        },
        Source::Override.knows(None) is None,
        Source::Default.knows(any) == page_url::parsed_url("http://127.0.0.1:3080"@),
        Source::Recorded.knows(any) == harness_url::recorded_url(any),
        override_url(Some(value)) == page_url::parsed_url(value),
        override_url(None) is None,
        refused(any) <==> override_url(any) is Some && Source::Override.knows(any) is None,
{
}

/// The search starts with the override and goes step by step: a URL that a source gives is probed, and
/// attached to where a harness answers. Where there is no URL or no answer, the
/// next source is asked, and after the last a harness is spawned. A search that
/// has ended stays so, and what does not answer the last step changes nothing.
pub proof fn search_goes_step_by_step(
    source: Source,
    url: page_url::UrlParts,
    answer: Option<page_url::UrlParts>,
    live: bool,
    input: LookupInput,
)
    ensures
        LookupState::first() == LookupState::Ask(Source::Override),
        LookupState::Ask(source).next(LookupInput::Answered(Some(url))) == LookupState::Probe(
            source,
            url,
        ),
        LookupState::Probe(source, url).next(LookupInput::Probed(true)) == LookupState::Attach(url),
        LookupState::Ask(Source::Override).next(LookupInput::Answered(None)) == LookupState::Ask(
            Source::Default,
        ),
        LookupState::Ask(Source::Default).next(LookupInput::Answered(None)) == LookupState::Ask(
            Source::Recorded,
        ),
        LookupState::Ask(Source::Recorded).next(LookupInput::Answered(None)) is Spawn,
        LookupState::Probe(source, url).next(LookupInput::Probed(false)) == LookupState::Ask(
            source,
        ).next(LookupInput::Answered(None)),
        LookupState::Attach(url).next(input) == LookupState::Attach(url),
        LookupState::Spawn.next(input) is Spawn,
        LookupState::Ask(source).next(LookupInput::Probed(live)) == LookupState::Ask(source),
        LookupState::Probe(source, url).next(LookupInput::Answered(answer)) == LookupState::Probe(
            source,
            url,
        ),
{
}

/// A search and its events stand for what they hold.
pub proof fn searches_show_their_urls(source: Source, url: PageUrl, answer: Option<PageUrl>)
    ensures
        Lookup::Ask(source)@ == LookupState::Ask(source),
        Lookup::Probe(source, url)@ == LookupState::Probe(source, url@),
        Lookup::Attach(url)@ == LookupState::Attach(url@),
        Lookup::Spawn@ is Spawn,
        LookupEvent::Answered(answer)@ == LookupInput::Answered(page_url::parts_of(answer)),
        LookupEvent::Probed(true)@ == LookupInput::Probed(true),
        LookupEvent::Probed(false)@ == LookupInput::Probed(false),
{
}

} // verus!
