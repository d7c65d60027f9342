//! The life of the shell beside its harness.

use vstd::prelude::*;

use crate::harness_url;
use crate::harness_url::parse_gui_url;
use crate::navigation;
use crate::navigation::{new_window_policy, NewWindow};
use crate::page_url;
use crate::page_url::PageUrl;
use crate::text;

verus! {

/// How long the harness may take to report readiness, in seconds.
pub const READY_TIMEOUT_SECS: u64 = 120;

/// How long the monitor waits between two looks at the harness, in seconds.
pub const MONITOR_INTERVAL_SECS: u64 = 1;

/// What the shell knows of its harness.
#[derive(Debug)]
pub struct Shell {
    owned: bool,
    ready: bool,
    expected_host: Option<String>,
}

/// What a [`Shell`] stands for.
pub struct ShellState {
    /// The shell spawned the harness, and has not stopped it yet.
    pub owned: bool,
    /// The harness has reported readiness.
    pub ready: bool,
    /// The host whose pages stay in the window, once it is known.
    pub expected_host: Option<Seq<char>>,
}

impl View for Shell {
    type V = ShellState;

    closed spec fn view(&self) -> ShellState {
        ShellState {
            owned: self.owned,
            ready: self.ready,
            expected_host: text::text_of(self.expected_host),
        }
    }
}

/// What to do when the harness falls silent.
#[derive(Clone, Copy, Debug, PartialEq, Eq, Structural)]
pub enum Alarm {
    /// Nothing: the harness has been ready.
    Ignore,
    /// Show the error page and leave with an error.
    Fail,
    /// Show the error page, kill the harness and leave with an error.
    KillAndFail,
}

/// What the monitor does after a look at the harness.
#[derive(Clone, Copy, Debug, PartialEq, Eq, Structural)]
pub enum Watch {
    /// It looks again later.
    Continue,
    /// It ends: there is no harness to watch.
    End,
    /// It takes the shell down with an error: the harness died mid-session.
    Quit,
}

impl ShellState {
    /// The state of a shell that attaches to the running harness at `url`.
    pub open spec fn attached(url: page_url::UrlParts) -> ShellState {
        ShellState { owned: false, ready: true, expected_host: url.host }
    }

    /// The state of a shell that has just spawned a harness.
    pub open spec fn spawned() -> ShellState {
        ShellState { owned: true, ready: false, expected_host: None }
    }

    /// The page that the window goes to when the harness reports `url`.
    pub open spec fn goes_to(self, url: Option<page_url::UrlParts>) -> Option<page_url::UrlParts> {
        if self.ready {
            None
        } else {
            url
        }
    }

    /// The state after the harness reports `url`.
    pub open spec fn hear(self, url: Option<page_url::UrlParts>) -> ShellState {
        match self.goes_to(url) {
            Some(page) => ShellState {
                owned: self.owned,
                ready: true,
                expected_host: if page.host is Some {
                    page.host
                } else {
                    self.expected_host
                },
            },
            None => self,
        }
    }

    /// The state once the harness is stopped, or left alone: the shell owns
    /// none any more.
    pub open spec fn stopped(self) -> ShellState {
        ShellState { owned: false, ready: self.ready, expected_host: self.expected_host }
    }

    /// The page that the window goes to when the harness prints `line`.
    pub open spec fn page_after(self, line: Seq<char>) -> Option<page_url::UrlParts> {
        self.goes_to(harness_url::gui_url(line))
    }

    /// The state after the harness prints `line`.
    pub open spec fn after(self, line: Seq<char>) -> ShellState {
        self.hear(harness_url::gui_url(line))
    }

    /// Whether the shell stops its harness as it exits.
    pub open spec fn stops(self) -> bool {
        self.owned
    }

    /// What to do when the harness's standard output ends.
    pub open spec fn at_end(self) -> Alarm {
        if self.ready {
            Alarm::Ignore
        } else {
            Alarm::Fail
        }
    }

    /// What to do when the time to report readiness is over.
    pub open spec fn at_timeout(self) -> Alarm {
        if self.ready {
            Alarm::Ignore
        } else {
            Alarm::KillAndFail
        }
    }

    /// What the monitor does when it has found the harness exited or not.
    pub open spec fn watched(self, exited: bool) -> Watch {
        if exited && self.ready {
            Watch::Quit
        } else if self.owned {
            Watch::Continue
        } else {
            Watch::End
        }
    }

    /// What becomes of a page that asks for a window of its own.
    pub open spec fn answers(self, url: page_url::UrlParts) -> navigation::NewWindowParts {
        navigation::new_window(url, self.expected_host)
    }
}

impl Shell {
    /// A shell that attaches to the running harness at `url`.
    pub fn attached(url: &PageUrl) -> (r: Shell)
        ensures
            r@ == ShellState::attached(url@),
    {
        let expected_host = match &url.host {
            Some(host) => Some(host.clone()),
            None => None,
        };
        Shell { owned: false, ready: true, expected_host }
    }

    /// A shell that has just spawned a harness.
    pub fn spawned() -> (r: Shell)
        ensures
            r@ == ShellState::spawned(),
    {
        Shell { owned: true, ready: false, expected_host: None }
    }

    /// Takes in what a line of the harness reports, and returns the page that
    /// the window goes to and that is to be recorded. Only the first URL
    /// counts.
    pub fn hear_url(&mut self, url: Option<PageUrl>) -> (r: Option<PageUrl>)
        ensures
            page_url::parts_of(r) == old(self)@.goes_to(page_url::parts_of(url)),
            final(self)@ == old(self)@.hear(page_url::parts_of(url)),
    {
        if self.ready {
            return None;
        }
        match url {
            Some(page) => {
                self.ready = true;
                if let Some(host) = &page.host {
                    self.expected_host = Some(host.clone());
                }
                Some(page)
            },
            None => None,
        }
    }

    /// Takes in a line of the harness's standard output.
    pub fn hear_line(&mut self, line: &str) -> (r: Option<PageUrl>)
        ensures
            page_url::parts_of(r) == old(self)@.goes_to(harness_url::gui_url(line@)),
            final(self)@ == old(self)@.hear(harness_url::gui_url(line@)),
            page_url::parts_of(r) == old(self)@.page_after(line@),
            final(self)@ == old(self)@.after(line@),
            r is Some ==> r.unwrap()@.well_formed() && r.unwrap()@.is_http(),
    {
        self.hear_url(parse_gui_url(line))
    }

    /// The harness's standard output has ended, which means that it died.
    pub fn output_ended(&self) -> (r: Alarm)
        ensures
            r == self@.at_end(),
            r == if self@.ready {
                Alarm::Ignore
            } else {
                Alarm::Fail
            },
    {
        if self.ready {
            Alarm::Ignore
        } else {
            Alarm::Fail
        }
    }

    /// The time for the harness to report readiness is over.
    pub fn ready_timeout(&self) -> (r: Alarm)
        ensures
            r == self@.at_timeout(),
            r == if self@.ready {
                Alarm::Ignore
            } else {
                Alarm::KillAndFail
            },
    {
        if self.ready {
            Alarm::Ignore
        } else {
            Alarm::KillAndFail
        }
    }

    /// The monitor has looked, and found the harness exited or not.
    pub fn monitor(&self, exited: bool) -> (r: Watch)
        ensures
            r == self@.watched(exited),
            r == if exited && self@.ready {
                Watch::Quit
            } else if self@.owned {
                Watch::Continue
            } else {
                Watch::End
            },
    {
        if exited && self.ready {
            Watch::Quit
        } else if self.owned {
            Watch::Continue
        } else {
            Watch::End
        }
    }

    /// Tells whether the shell, as it exits, stops the harness and clears the
    /// record of its URL. One that attached leaves both alone, and so does one
    /// that has stopped its harness before.
    pub fn stop_harness(&mut self) -> (r: bool)
        ensures
            r == old(self)@.owned,
            r == old(self)@.stops(),
            final(self)@ == old(self)@.stopped(),
    {
        let owned = self.owned;
        self.owned = false;
        owned
    }

    /// Decides on a page that asks for a window of its own.
    pub fn new_window(&self, url: &PageUrl) -> (r: NewWindow)
        ensures
            r@ == navigation::new_window(url@, self@.expected_host),
            r@ == self@.answers(url@),
    {
        let expected_host = match &self.expected_host {
            Some(host) => Some(host.as_str()),
            None => None,
        };
        new_window_policy(url, expected_host)
    }
}

/// The state after the harness's lines report `urls`, one after the other.
pub open spec fn hear_all(
    state: ShellState,
    urls: Seq<Option<page_url::UrlParts>>,
) -> ShellState
    decreases urls.len(),
{
    if urls.len() == 0 {
        state
    } else {
        hear_all(state.hear(urls.first()), urls.drop_first())
    }
}

/// The pages that the window goes to meanwhile.
pub open spec fn pages(
    state: ShellState,
    urls: Seq<Option<page_url::UrlParts>>,
) -> Seq<page_url::UrlParts>
    decreases urls.len(),
{
    if urls.len() == 0 {
        Seq::empty()
    } else {
        let later = pages(state.hear(urls.first()), urls.drop_first());
        match state.goes_to(urls.first()) {
            Some(page) => seq![page] + later,
            None => later,
        }
    }
}

/// A shell whose harness is ready goes nowhere any more.
proof fn ready_shell_stays(state: ShellState, urls: Seq<Option<page_url::UrlParts>>)
    requires
        state.ready,
    ensures
        hear_all(state, urls) == state,
        pages(state, urls) == Seq::<page_url::UrlParts>::empty(),
    decreases urls.len(),
{
    if urls.len() > 0 {
        ready_shell_stays(state, urls.drop_first());
    }
}

/// The window goes to the first URL that the harness reports, and to no other
/// one, however many lines follow.
pub proof fn only_the_first_url_counts(
    state: ShellState,
    before: Seq<Option<page_url::UrlParts>>,
    url: page_url::UrlParts,
    after: Seq<Option<page_url::UrlParts>>,
)
    requires
        !state.ready,
        forall|i: int| 0 <= i < before.len() ==> (#[trigger] before[i]) is None,
    ensures
        pages(state, before + seq![Some(url)] + after) == seq![url],
        hear_all(state, before + seq![Some(url)] + after) == state.hear(Some(url)),
    decreases before.len(),
{
    let urls = before + seq![Some(url)] + after;
    if before.len() == 0 {
        assert(urls.first() == Some(url));
        assert(urls.drop_first() == after);
        ready_shell_stays(state.hear(Some(url)), after);
        assert(pages(state, urls) == seq![url]);
    } else {
        let rest = before.drop_first();
        assert(before[0] is None);
        assert(urls.first() == before[0]);
        assert(urls.drop_first() == rest + seq![Some(url)] + after);
        assert forall|i: int| 0 <= i < rest.len() implies (#[trigger] rest[i]) is None by {
            assert(rest[i] == before[i + 1]);
        }
        only_the_first_url_counts(state, rest, url, after);
    }
}

/// A shell that attached never stops the harness, whatever it hears.
pub proof fn attached_shell_stops_nothing(
    url: page_url::UrlParts,
    urls: Seq<Option<page_url::UrlParts>>,
)
    ensures
        !hear_all(ShellState::attached(url), urls).owned,
{
    ready_shell_stays(ShellState::attached(url), urls);
}

/// Stopping twice is stopping once: a shell that has stopped its harness owns
/// none, whatever it hears after that, and a second stop changes nothing.
pub proof fn second_stop_does_nothing(
    state: ShellState,
    urls: Seq<Option<page_url::UrlParts>>,
)
    ensures
        !hear_all(state.stopped(), urls).owned,
        hear_all(state.stopped(), urls).stopped() == hear_all(state.stopped(), urls),
{
    owner_stays(state.stopped(), urls);
}

/// A shell that spawned its harness stops it, whatever it hears.
pub proof fn spawning_shell_stops_harness(urls: Seq<Option<page_url::UrlParts>>)
    ensures
        hear_all(ShellState::spawned(), urls).owned,
{
    owner_stays(ShellState::spawned(), urls);
}

/// What the harness reports does not change whose it is.
proof fn owner_stays(state: ShellState, urls: Seq<Option<page_url::UrlParts>>)
    ensures
        hear_all(state, urls).owned == state.owned,
    decreases urls.len(),
{
    if urls.len() > 0 {
        owner_stays(state.hear(urls.first()), urls.drop_first());
    }
}

/// Once the harness is ready, its pages stay in the window and pages of other
/// hosts leave it.
pub proof fn harness_pages_stay(
    harness: page_url::UrlParts,
    page: page_url::UrlParts,
)
    requires
        harness.host is Some,
    ensures
        page.host == harness.host ==> navigation::stays(
            page,
            ShellState::spawned().hear(Some(harness)).expected_host,
        ),
        page.host != harness.host && page.scheme != navigation::APP_SCHEME@
            ==> !navigation::stays(
            page,
            ShellState::spawned().hear(Some(harness)).expected_host,
        ),
        ShellState::spawned().hear(Some(harness)).expected_host == ShellState::attached(
            harness,
        ).expected_host,
{
}

/// The first URL that a shell hears makes it ready and sets the host whose
/// pages stay, if it has one; a line without a URL changes nothing, nor does
/// anything that a ready shell hears.
pub proof fn first_url_makes_ready(state: ShellState, url: page_url::UrlParts)
    ensures
        !state.ready ==> {
            &&& state.goes_to(Some(url)) == Some(url)
            &&& state.hear(Some(url)).ready
            &&& state.hear(Some(url)).owned == state.owned
            &&& url.host is Some ==> state.hear(Some(url)).expected_host == url.host
            &&& url.host is None ==> state.hear(Some(url)).expected_host == state.expected_host
        },
        state.ready ==> state.goes_to(Some(url)) is None && state.hear(Some(url)) == state,
        state.goes_to(None) is None,
        state.hear(None) == state,
{
}

/// A shell that attaches is ready for the pages of its harness at once and owns
/// none; one that spawns owns its harness and is not ready. Stopping ends the
/// ownership and changes nothing else.
pub proof fn shells_start_apart(url: page_url::UrlParts, state: ShellState)
    ensures
        ShellState::attached(url).ready,
        !ShellState::attached(url).owned,
        ShellState::attached(url).expected_host == url.host,
        !ShellState::spawned().ready,
        ShellState::spawned().owned,
        ShellState::spawned().expected_host is None,
        !state.stopped().owned,
        state.stopped().ready == state.ready,
        state.stopped().expected_host == state.expected_host,
        READY_TIMEOUT_SECS == 120,
        MONITOR_INTERVAL_SECS == 1,
{
}

/// Silence is an alarm until the shell is ready, and only until then; a harness
/// that takes too long is killed as well. The death of a harness takes down
/// every ready shell, and the monitor looks on for as long as one is owned.
pub proof fn silence_alarms_until_ready(state: ShellState, exited: bool)
    ensures
        state.ready ==> state.at_end() == Alarm::Ignore && state.at_timeout() == Alarm::Ignore,
        !state.ready ==> state.at_end() == Alarm::Fail && state.at_timeout() == Alarm::KillAndFail,
        state.watched(exited) == Watch::Quit <==> exited && state.ready,
        state.watched(exited) == Watch::Continue <==> state.owned && !(exited && state.ready),
{
}

/// A shell gives windows to the app's own pages and to those of the host that
/// it expects; all others open in the system's browser under their own URL.
pub proof fn shell_knows_its_pages(state: ShellState, url: page_url::UrlParts)
    ensures
        state.answers(url) is Allow <==> (url.scheme == "tauri"@ || (url.host is Some && url.host
            == state.expected_host)),
        state.answers(url) matches navigation::NewWindowParts::OpenInBrowser(href) ==> href
            == url.href,
{
}

/// A shell that waits for its harness goes to the URL of the readiness line,
/// however long that is and whatever follows it, and is ready from then on. A
/// line that does not start as a readiness line changes nothing.
pub proof fn readiness_line_opens_the_page(
    state: ShellState,
    word: Seq<char>,
    rest: Seq<char>,
    line: Seq<char>,
)
    requires
        !state.ready,
        text::solid(word),
        "http://"@.is_prefix_of(word),
        rest.len() > 0 ==> text::white_space(rest.first()),
        page_url::parsed_url(word) is Some,
        !"dsh web: "@.is_prefix_of(line),
    ensures
        state.page_after("dsh web: "@ + word + rest) == page_url::parsed_url(word),
        state.after("dsh web: "@ + word + rest).ready,
        page_url::parsed_url(word).unwrap().host is Some ==> state.after(
            "dsh web: "@ + word + rest,
        ).expected_host == page_url::parsed_url(word).unwrap().host,
        state.page_after(line) is None,
        state.after(line) == state,
{
    let none = Seq::<char>::empty();
    harness_url::readiness_line_gives_its_url(none, word, rest);
    assert("dsh web: "@ + none + word + rest == "dsh web: "@ + word + rest);
}

/// A shell stops its harness on exit while it owns one: the one that it spawned
/// and has not stopped, whatever it has heard meanwhile.
pub proof fn only_the_owner_stops(
    state: ShellState,
    url: page_url::UrlParts,
    urls: Seq<Option<page_url::UrlParts>>,
)
    ensures
        hear_all(ShellState::spawned(), urls).stops(),
        !hear_all(ShellState::attached(url), urls).stops(),
        !hear_all(state.stopped(), urls).stops(),
{
    spawning_shell_stops_harness(urls);
    attached_shell_stops_nothing(url, urls);
    second_stop_does_nothing(state, urls);
}

} // verus!
