use dsh_desktop::http::{http_get, pet_page_served, probe_harness, probe_request};
use dsh_desktop::page_url::PageUrl;

fn url(s: &str) -> PageUrl {
    PageUrl::parse(s).unwrap()
}

#[test]
fn probe_asks_for_the_index_page() {
    let request = probe_request(&url("http://127.0.0.1:3080/sessions/abc")).unwrap();
    assert_eq!(request.host, "127.0.0.1");
    assert_eq!(request.port, 3080);
    assert_eq!(
        request.message,
        "GET / HTTP/1.1\r\nHost: 127.0.0.1\r\nConnection: close\r\n\r\n"
    );
}

#[test]
fn page_request_names_the_path() {
    let request = http_get(&url("http://localhost/voice-pet/pet?x=1")).unwrap();
    assert_eq!(request.port, 80);
    assert_eq!(
        request.message,
        "GET /voice-pet/pet HTTP/1.1\r\nHost: localhost\r\nConnection: close\r\n\r\n"
    );
}

#[test]
fn urls_without_host_or_port_are_not_asked() {
    assert!(probe_request(&url("mailto:a@b.c")).is_none());
    assert!(http_get(&url("tauri://localhost/x")).is_none());
}

#[test]
fn marker_proves_a_harness() {
    assert!(probe_harness(Some("HTTP/1.1 200 OK\r\n\r\n<script>__DSH_BOOT__={}</script>")));
    assert!(!probe_harness(Some("HTTP/1.1 200 OK\r\n\r\n<script>__DSH_BOOT_</script>")));
    assert!(!probe_harness(None));
}

#[test]
fn pet_page_needs_status_and_marker() {
    assert!(pet_page_served(Some("HTTP/1.1 200 OK\r\n\r\npet-standalone.js")));
    assert!(pet_page_served(Some("HTTP/1.0 204 No\r\n\r\npet-standalone.js")));
    assert!(!pet_page_served(Some("HTTP/1.1 200 OK\r\n\r\nindex.html")));
    assert!(!pet_page_served(Some("HTTP/1.1 404 Not Found\r\n\r\npet-standalone.js")));
    assert!(!pet_page_served(Some("HTTP/2 200\r\n\r\npet-standalone.js")));
    assert!(!pet_page_served(None));
}
