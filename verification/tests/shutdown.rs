use dsh_desktop::paths::Platform;
use dsh_desktop::shutdown::{Look, Shutdown, ShutdownEvent};

fn run(rounds: &[(u128, Look)]) -> Shutdown {
    let mut step = Shutdown::start(Platform::Unix);
    assert_eq!(step, Shutdown::Signal);
    for (time, look) in rounds {
        step = step.terminate(ShutdownEvent::Elapsed(*time));
        step = step.terminate(ShutdownEvent::Looked(*look));
    }
    step
}

#[test]
fn harness_that_exits_in_time_is_not_killed() {
    assert_eq!(run(&[(0, Look::Running), (200, Look::Exited)]), Shutdown::Done);
    assert_eq!(run(&[(29_999, Look::Exited)]), Shutdown::Done);
    assert_eq!(run(&[(0, Look::Running), (200, Look::Running)]), Shutdown::Wait);
}

#[test]
fn stuck_harness_is_killed_after_the_grace() {
    assert_eq!(run(&[(0, Look::Running), (30_000, Look::Exited)]), Shutdown::Kill);
    assert_eq!(run(&[(30_000, Look::Running), (1, Look::Exited)]), Shutdown::Kill);
}

#[test]
fn unreadable_harness_is_killed() {
    assert_eq!(run(&[(0, Look::Unknown), (200, Look::Exited)]), Shutdown::Kill);
}

#[test]
fn windows_kills_at_once() {
    assert_eq!(Shutdown::start(Platform::Windows), Shutdown::Kill);
}

#[test]
fn unexpected_events_change_nothing() {
    assert_eq!(
        Shutdown::Signal.terminate(ShutdownEvent::Looked(Look::Exited)),
        Shutdown::Signal
    );
    assert_eq!(Shutdown::Poll.terminate(ShutdownEvent::Elapsed(99_999)), Shutdown::Poll);
}

#[test]
fn shutdown_ends_with_the_grace() {
    let looks = [Look::Running, Look::Exited, Look::Unknown];
    for first in looks {
        for last in looks {
            let step = run(&[(0, first), (30_000, last), (30_200, Look::Running)]);
            assert!(step == Shutdown::Done || step == Shutdown::Kill);
        }
    }
}
