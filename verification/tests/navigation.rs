use dsh_desktop::navigation::{navigation_decision, new_window_policy, NewWindow};
use dsh_desktop::page_url::PageUrl;

fn url(s: &str) -> PageUrl {
    PageUrl::parse(s).unwrap()
}

#[test]
fn internal_pages_always_stay() {
    assert!(navigation_decision(&url("tauri://localhost/error.html"), None));
    assert!(navigation_decision(&url("tauri://localhost/index.html"), Some("127.0.0.1")));
}

#[test]
fn harness_origin_stays() {
    assert!(navigation_decision(&url("http://127.0.0.1:3080/"), Some("127.0.0.1")));
    assert!(navigation_decision(&url("http://127.0.0.1:3080/sessions/abc"), Some("127.0.0.1")));
}

#[test]
fn external_links_leave() {
    assert!(!navigation_decision(&url("https://example.com/a?b=1"), Some("127.0.0.1")));
    assert!(!navigation_decision(&url("http://localhost:3080/"), Some("127.0.0.1")));
    assert!(!navigation_decision(&url("mailto:a@b.c"), Some("127.0.0.1")));
}

#[test]
fn unknown_host_before_readiness_leaves() {
    assert!(!navigation_decision(&url("https://example.com/"), None));
}

#[test]
fn mail_links_leave_before_readiness() {
    assert!(!navigation_decision(&url("mailto:a@b.c"), None));
}

#[test]
fn pages_that_leave_open_in_the_browser() {
    match new_window_policy(&url("https://Example.com/a?b=1"), Some("127.0.0.1")) {
        NewWindow::OpenInBrowser(href) => assert_eq!(href, "https://example.com/a?b=1"),
        NewWindow::Allow => panic!("an external page got a window"),
    }
    let own = new_window_policy(&url("http://127.0.0.1:9/x"), Some("127.0.0.1"));
    assert!(matches!(own, NewWindow::Allow));
    assert!(matches!(new_window_policy(&url("tauri://localhost/x"), None), NewWindow::Allow));
}
