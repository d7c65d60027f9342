//! How the shell ends a harness of its own.
//!
//! The harness gets time to close its session log; killed in the middle of
//! that, it leaves the log in a dirty state.

use vstd::prelude::*;

use crate::paths::Platform;

verus! {

/// How long the harness may take to exit by itself, in milliseconds. Its own
/// budget is five seconds, but a pending tool call or approval can keep it
/// alive longer.
pub const SHUTDOWN_GRACE_MS: u128 = 30_000;

/// How long to wait between two looks at the harness, in milliseconds.
pub const POLL_INTERVAL_MS: u64 = 200;

/// How far the shutdown has come, and with that what is to be done next.
#[derive(Clone, Copy, Debug, PartialEq, Eq, Structural)]
pub enum Shutdown {
    /// Ask the harness to terminate.
    Signal,
    /// Look whether it has exited.
    Poll,
    /// Wait for the poll interval.
    Wait,
    /// Kill it: it is genuinely stuck.
    Kill,
    /// Nothing: it has exited.
    Done,
}

/// What a look at the harness shows.
#[derive(Clone, Copy, Debug, PartialEq, Eq, Structural)]
pub enum Look {
    /// It has exited.
    Exited,
    /// It is running.
    Running,
    /// Its state cannot be read.
    Unknown,
}

/// What came of the last step of the shutdown.
#[derive(Clone, Copy, Debug, PartialEq, Eq, Structural)]
pub enum ShutdownEvent {
    /// The signal is sent or the wait is over, so many milliseconds after the
    /// signal.
    Elapsed(u128),
    /// The look showed this.
    Looked(Look),
}

impl Shutdown {
    /// The first step: where there is no signal to ask with, the harness is
    /// killed.
    pub open spec fn first(platform: Platform) -> Shutdown {
        match platform {
            Platform::Unix => Shutdown::Signal,
            Platform::Windows => Shutdown::Kill,
        }
    }

    /// The next step. What does not answer the last one changes nothing.
    pub open spec fn next(self, event: ShutdownEvent) -> Shutdown {
        match (self, event) {
            (Shutdown::Signal | Shutdown::Wait, ShutdownEvent::Elapsed(time)) => if time
                < SHUTDOWN_GRACE_MS {
                Shutdown::Poll
            } else {
                Shutdown::Kill
            },
            (Shutdown::Poll, ShutdownEvent::Looked(Look::Exited)) => Shutdown::Done,
            (Shutdown::Poll, ShutdownEvent::Looked(Look::Running)) => Shutdown::Wait,
            (Shutdown::Poll, ShutdownEvent::Looked(Look::Unknown)) => Shutdown::Kill,
            (step, _) => step,
        }
    }

    /// Starts the shutdown.
    pub fn start(platform: Platform) -> (r: Shutdown)
        ensures
            r == Shutdown::first(platform),
    {
        match platform {
            Platform::Unix => Shutdown::Signal,
            Platform::Windows => Shutdown::Kill,
        }
    }

    /// Takes the shutdown one step further.
    pub fn terminate(self, event: ShutdownEvent) -> (r: Shutdown)
        ensures
            r == self.next(event),
    {
        match (self, event) {
            (Shutdown::Signal, ShutdownEvent::Elapsed(time)) => before_deadline(time),
            (Shutdown::Wait, ShutdownEvent::Elapsed(time)) => before_deadline(time),
            (Shutdown::Poll, ShutdownEvent::Looked(look)) => match look {
                Look::Exited => Shutdown::Done,
                Look::Running => Shutdown::Wait,
                Look::Unknown => Shutdown::Kill,
            },
            (step, _) => step,
        }
    }
}

/// The step at a time after the signal: looks go on until the grace is over.
fn before_deadline(time: u128) -> (r: Shutdown)
    ensures
        r == if time < SHUTDOWN_GRACE_MS {
            Shutdown::Poll
        } else {
            Shutdown::Kill
        },
{
    if time < SHUTDOWN_GRACE_MS {
        Shutdown::Poll
    } else {
        Shutdown::Kill
    }
}

/// The step that a shutdown comes to when each entry of `rounds` is a time
/// after the signal and what a look at that time would show.
pub open spec fn after_rounds(step: Shutdown, rounds: Seq<(u128, Look)>) -> Shutdown
    decreases rounds.len(),
{
    if rounds.len() == 0 {
        step
    } else {
        let (time, look) = rounds.first();
        after_rounds(
            step.next(ShutdownEvent::Elapsed(time)).next(ShutdownEvent::Looked(look)),
            rounds.drop_first(),
        )
    }
}

/// Whether a round finds the harness running within the grace.
pub open spec fn still_running(round: (u128, Look)) -> bool {
    round.0 < SHUTDOWN_GRACE_MS && round.1 == Look::Running
}

/// A shutdown that is done or has come to the kill stays there.
proof fn last_step_stays(step: Shutdown, rounds: Seq<(u128, Look)>)
    requires
        step == Shutdown::Done || step == Shutdown::Kill,
    ensures
        after_rounds(step, rounds) == step,
    decreases rounds.len(),
{
    if rounds.len() > 0 {
        last_step_stays(step, rounds.drop_first());
    }
}

/// Rounds that find the harness running within the grace keep the shutdown
/// waiting; the first other round decides how it ends.
pub proof fn first_other_round_decides(
    step: Shutdown,
    running: Seq<(u128, Look)>,
    round: (u128, Look),
    later: Seq<(u128, Look)>,
)
    requires
        step == Shutdown::Signal || step == Shutdown::Wait,
        forall|i: int| 0 <= i < running.len() ==> still_running(#[trigger] running[i]),
        !still_running(round),
    ensures
        after_rounds(step, running + seq![round] + later) == if round.0 < SHUTDOWN_GRACE_MS
            && round.1 == Look::Exited {
            Shutdown::Done
        } else {
            Shutdown::Kill
        },
    decreases running.len(),
{
    let rounds = running + seq![round] + later;
    if running.len() == 0 {
        assert(rounds.first() == round);
        assert(rounds.drop_first() == later);
        let ended = step.next(ShutdownEvent::Elapsed(round.0)).next(
            ShutdownEvent::Looked(round.1),
        );
        last_step_stays(ended, later);
    } else {
        let rest = running.drop_first();
        assert(still_running(running[0]));
        assert(rounds.first() == running[0]);
        assert(rounds.drop_first() == rest + seq![round] + later);
        assert forall|i: int| 0 <= i < rest.len() implies still_running(#[trigger] rest[i]) by {
            assert(rest[i] == running[i + 1]);
        }
        first_other_round_decides(Shutdown::Wait, rest, round, later);
    }
}

/// The grace is the limit: a shutdown that is under way, or has ended, has
/// ended after any rounds of which one comes at or after the grace.
pub proof fn grace_ends_the_shutdown(step: Shutdown, rounds: Seq<(u128, Look)>, late: int)
    requires
        step != Shutdown::Poll,
        0 <= late < rounds.len(),
        rounds[late].0 >= SHUTDOWN_GRACE_MS,
    ensures
        after_rounds(step, rounds) == Shutdown::Done || after_rounds(step, rounds)
            == Shutdown::Kill,
    decreases rounds.len(),
{
    let (time, look) = rounds.first();
    let following = step.next(ShutdownEvent::Elapsed(time)).next(ShutdownEvent::Looked(look));
    if following == Shutdown::Done || following == Shutdown::Kill {
        last_step_stays(following, rounds.drop_first());
    } else {
        assert(rounds.drop_first()[late - 1] == rounds[late]);
        grace_ends_the_shutdown(following, rounds.drop_first(), late - 1);
    }
}

/// A harness that was asked to terminate is killed only when its grace is over
/// or its state cannot be read.
pub proof fn kill_needs_a_reason(step: Shutdown, event: ShutdownEvent)
    requires
        step != Shutdown::Kill,
        step.next(event) == Shutdown::Kill,
    ensures
        match event {
            ShutdownEvent::Elapsed(time) => time >= SHUTDOWN_GRACE_MS,
            ShutdownEvent::Looked(look) => look == Look::Unknown,
        },
{
}

/// The harness has half a minute from the signal: before that it is looked at,
/// from then on it is killed. A look that shows it running leads to a wait, one
/// that shows it gone ends the shutdown, and one that shows nothing kills it.
/// What does not answer the last step changes nothing.
pub proof fn harness_has_half_a_minute(
    step: Shutdown,
    time: u128,
    look: Look,
    event: ShutdownEvent,
)
    requires
        step == Shutdown::Signal || step == Shutdown::Wait,
    ensures
        time < 30_000 ==> step.next(ShutdownEvent::Elapsed(time)) == Shutdown::Poll,
        time >= 30_000 ==> step.next(ShutdownEvent::Elapsed(time)) == Shutdown::Kill,
        step.next(ShutdownEvent::Looked(look)) == step,
        Shutdown::Poll.next(ShutdownEvent::Looked(Look::Running)) == Shutdown::Wait,
        Shutdown::Poll.next(ShutdownEvent::Looked(Look::Exited)) == Shutdown::Done,
        Shutdown::Poll.next(ShutdownEvent::Looked(Look::Unknown)) == Shutdown::Kill,
        Shutdown::Poll.next(ShutdownEvent::Elapsed(time)) == Shutdown::Poll,
        Shutdown::Kill.next(event) == Shutdown::Kill,
        Shutdown::Done.next(event) == Shutdown::Done,
        Shutdown::first(Platform::Unix) == Shutdown::Signal,
        Shutdown::first(Platform::Windows) == Shutdown::Kill,
        POLL_INTERVAL_MS == 200,
{
}

} // verus!
