use dsh_desktop::navigation::NewWindow;
use dsh_desktop::page_url::PageUrl;
use dsh_desktop::pet::{
    choose_pet_url, maybe_create_pet_window, pet_override_is_refused, pet_page_url,
};
use dsh_desktop::shell::{Alarm, Shell, Watch};

fn url(s: &str) -> PageUrl {
    PageUrl::parse(s).unwrap()
}

#[test]
fn first_url_line_makes_the_shell_ready() {
    let mut shell = Shell::spawned();
    assert!(shell.hear_line("building...").is_none());
    assert_eq!(shell.output_ended(), Alarm::Fail);
    assert_eq!(shell.ready_timeout(), Alarm::KillAndFail);
    let page = shell.hear_line("dsh web: http://127.0.0.1:4711").unwrap();
    assert_eq!(page.href, "http://127.0.0.1:4711/");
    assert!(shell.hear_line("dsh web: http://127.0.0.1:4712").is_none());
    assert_eq!(shell.output_ended(), Alarm::Ignore);
    assert_eq!(shell.ready_timeout(), Alarm::Ignore);
}

#[test]
fn harness_host_decides_on_new_windows() {
    let mut shell = Shell::spawned();
    let page = url("http://127.0.0.1:1/x");
    assert!(matches!(shell.new_window(&page), NewWindow::OpenInBrowser(_)));
    assert!(shell.hear_url(None).is_none());
    assert!(shell.hear_url(Some(url("http://127.0.0.1:4711"))).is_some());
    assert!(matches!(shell.new_window(&page), NewWindow::Allow));
    assert!(matches!(shell.new_window(&url("http://localhost:1/")), NewWindow::OpenInBrowser(_)));
    let attached = Shell::attached(&url("http://localhost:3080"));
    assert!(matches!(attached.new_window(&url("http://localhost:1/")), NewWindow::Allow));
}

#[test]
fn url_without_host_leaves_the_expected_host() {
    let mut shell = Shell::spawned();
    assert!(shell.hear_url(Some(url("mailto:a@b.c"))).is_some());
    assert_eq!(shell.output_ended(), Alarm::Ignore);
    assert!(matches!(shell.new_window(&url("mailto:x@y.z")), NewWindow::OpenInBrowser(_)));
}

#[test]
fn harness_that_dies_mid_session_takes_the_shell_down() {
    let mut shell = Shell::spawned();
    assert_eq!(shell.monitor(false), Watch::Continue);
    assert_eq!(shell.monitor(true), Watch::Continue);
    shell.hear_line("dsh web: http://127.0.0.1:4711");
    assert_eq!(shell.monitor(false), Watch::Continue);
    assert_eq!(shell.monitor(true), Watch::Quit);
}

#[test]
fn attached_shell_leaves_the_harness_alone() {
    let mut shell = Shell::attached(&url("http://127.0.0.1:3080"));
    assert!(!shell.stop_harness());
    assert_eq!(shell.monitor(false), Watch::End);
    assert_eq!(shell.output_ended(), Alarm::Ignore);
}

#[test]
fn harness_is_stopped_once() {
    let mut shell = Shell::spawned();
    shell.hear_line("dsh web: http://127.0.0.1:4711");
    assert!(shell.stop_harness());
    assert!(!shell.stop_harness());
    assert!(shell.hear_line("dsh web: http://127.0.0.1:4712").is_none());
    assert!(!shell.stop_harness());
    assert_eq!(shell.monitor(false), Watch::End);
    assert!(matches!(shell.new_window(&url("http://127.0.0.1:1/")), NewWindow::Allow));
}

#[test]
fn pet_page_stands_on_the_harness() {
    let base = url("http://127.0.0.1:3080/sessions/a");
    assert_eq!(pet_page_url(None, &base).unwrap().href, "http://127.0.0.1:3080/voice-pet/pet");
    assert_eq!(
        pet_page_url(Some("http://other:1/p"), &base).unwrap().href,
        "http://other:1/p"
    );
    for value in ["https://other/p", "junk"] {
        assert_eq!(
            pet_page_url(Some(value), &base).unwrap().href,
            "http://127.0.0.1:3080/voice-pet/pet"
        );
    }
    assert!(pet_override_is_refused(Some("https://other/p")));
    assert!(!pet_override_is_refused(Some("http://other/p")));
    assert!(!pet_override_is_refused(Some("junk")));
    assert!(!pet_override_is_refused(None));
}

#[test]
fn pet_page_without_a_route() {
    let base = url("mailto:a@b.c");
    assert!(pet_page_url(None, &base).is_none());
    assert_eq!(pet_page_url(Some("junk"), &base).unwrap().href, "mailto:a@b.c");
    assert!(choose_pet_url(None, None, &base).is_none());
    assert_eq!(choose_pet_url(Some(None), None, &base).unwrap().href, "mailto:a@b.c");
    let named = choose_pet_url(Some(Some(url("http://n/"))), Some(url("http://r/")), &base);
    assert_eq!(named.unwrap().href, "http://n/");
}

#[test]
fn pet_window_opens_only_when_served() {
    let served = Some("HTTP/1.1 200 OK\r\n\r\n<script src=pet-standalone.js>");
    assert_eq!(maybe_create_pet_window(url("http://h/p"), served).unwrap().href, "http://h/p");
    assert!(maybe_create_pet_window(url("http://h/p"), Some("HTTP/1.1 200 OK\r\n\r\n")).is_none());
    assert!(maybe_create_pet_window(url("http://h/p"), None).is_none());
}
