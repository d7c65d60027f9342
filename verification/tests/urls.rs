use dsh_desktop::harness_url::{
    accept_http, error_page_url, gui_url_candidate, parse_gui_url, record_harness_url,
    recorded_harness_url,
};
use dsh_desktop::page_url::PageUrl;

fn url(s: &str) -> PageUrl {
    PageUrl::parse(s).unwrap()
}

fn same(a: &PageUrl, b: &PageUrl) -> bool {
    a.href == b.href
        && a.scheme == b.scheme
        && a.host == b.host
        && a.port == b.port
        && a.path == b.path
}

#[test]
fn parsed_urls_show_their_parts() {
    let u = url("HTTP://User@Example.COM:80/a/../b c?q#f");
    assert_eq!(u.href, "http://User@example.com/b%20c?q#f");
    assert_eq!(u.scheme, "http");
    assert_eq!(u.host.as_deref(), Some("example.com"));
    assert_eq!(u.port, Some(80));
    assert_eq!(u.path, "/b%20c");
    let m = url("mailto:a@b.c");
    assert_eq!((m.host, m.port), (None, None));
    assert!(PageUrl::parse("no url").is_none());
    assert!(PageUrl::parse("http://").is_none());
}

#[test]
fn http_urls_are_well_formed() {
    for s in [
        "http://127.0.0.1:3080",
        "http://localhost/\t x\u{a0}",
        "http://b\u{fc}cher.example/\u{e9}?\u{e9}#\u{e9} '\"<>`{}",
        "http://[::1]:0/./..//x",
        "http:\\\\a:b@h\\c%2e%2E/d",
        "http://0x7f.1/",
        "http:h",
    ] {
        let u = url(s);
        assert_eq!(u.scheme, "http");
        assert!(u.host.is_some() && u.port.is_some());
        assert_eq!(u.input, s);
        assert_eq!(u.href.trim(), u.href);
        assert!(same(&url(&u.href), &u), "{}", u.href);
        assert!(same(&u.copied(), &u));
        assert_eq!(u.copied().input, s);
    }
}

/// A URL whose host has one label of `count` ideographs.
fn ideographs(count: u32) -> PageUrl {
    let label: String = (0..count).filter_map(|i| char::from_u32(0x4e00 + 20 * i)).collect();
    url(&format!("http://{label}:81/x"))
}

#[test]
fn host_in_long_punycode_is_not_read_back() {
    let u = ideographs(1000);
    let host = u.host.clone().unwrap();
    assert!(host.starts_with("xn--") && host.len() > 4 + 2000);
    assert!(PageUrl::parse(&u.href).is_none());
    assert!(recorded_harness_url(Some(&record_harness_url(&u))).is_none());
    let joined = u.join("/voice-pet/pet").unwrap();
    assert_eq!(joined.href, format!("http://{host}:81/voice-pet/pet"));
    assert_eq!((joined.host, joined.port), (Some(host), Some(81)));
    assert!(same(&url(&u.input), &u));
}

#[test]
fn host_in_shorter_punycode_is_read_back() {
    let mut count = 1000;
    while ideographs(count).host.unwrap().len() > 4 + 2000 {
        count -= 1;
    }
    assert!(ideographs(count + 1).host.unwrap().len() > 4 + 2000);
    assert!(PageUrl::parse(&ideographs(count + 1).href).is_none());
    let u = ideographs(count);
    assert!(same(&recorded_harness_url(Some(&record_harness_url(&u))).unwrap(), &u));
    let labels = vec!["a".repeat(3000), "b\u{fc}cher".to_string(), "c.".repeat(2000)];
    let u = url(&format!("http://{}x/", labels.join(".")));
    assert!(u.host.as_deref().unwrap().len() > 7000);
    assert!(same(&recorded_harness_url(Some(&record_harness_url(&u))).unwrap(), &u));
}

#[test]
fn rooted_paths_stay_on_the_server() {
    let base = url("http://127.0.0.1:3080/sessions/abc?q=1");
    let joined = base.join("/voice-pet/pet").unwrap();
    assert_eq!(joined.href, "http://127.0.0.1:3080/voice-pet/pet");
    assert_eq!(joined.host, base.host);
    assert_eq!(joined.port, base.port);
    assert!(url("mailto:a@b.c").join("/x").is_none());
    let full = base.join("/x?q#f").unwrap();
    assert_eq!(full.href, "http://127.0.0.1:3080/x?q#f");
    assert_eq!(full.input, full.href);
}

#[test]
fn readiness_line_gives_the_url() {
    let u = parse_gui_url("dsh web: http://127.0.0.1:4711").unwrap();
    assert_eq!(u.href, "http://127.0.0.1:4711/");
    assert_eq!(u.host.as_deref(), Some("127.0.0.1"));
    assert_eq!(u.port, Some(4711));
}

#[test]
fn other_lines_give_no_url() {
    for line in [
        "",
        "dsh web:",
        "dsh web: ",
        "dsh web:    ",
        "dsh web: https://127.0.0.1:1",
        "dsh web: at http://127.0.0.1:1",
        " dsh web: http://127.0.0.1:1",
        "dsh web: http://",
        "dsh web: http://127.0.0.1:99999",
        "dsh web: HTTP://127.0.0.1:1",
    ] {
        assert!(parse_gui_url(line).is_none(), "{line}");
    }
}

#[test]
fn candidate_is_the_first_word() {
    assert_eq!(
        gui_url_candidate("dsh web: \t http://h:1\u{3000}and more"),
        Some("http://h:1".to_string())
    );
    assert_eq!(gui_url_candidate("dsh web: http://"), Some("http://".to_string()));
    assert_eq!(gui_url_candidate("dsh web: x"), None);
}

#[test]
fn error_page_is_internal() {
    let u = error_page_url().unwrap();
    assert_eq!(u.href, "tauri://localhost/error.html");
    assert_eq!(u.scheme, "tauri");
}

#[test]
fn recorded_url_is_read_back() {
    let u = parse_gui_url("dsh web: http://127.0.0.1:4711 (ready)").unwrap();
    let record = record_harness_url(&u);
    assert_eq!(record, "http://127.0.0.1:4711/\n");
    let read = recorded_harness_url(Some(&record)).unwrap();
    assert!(same(&read, &u));
    assert_eq!(read.input, u.href);
}

#[test]
fn record_of_another_scheme_is_not_read_back() {
    for s in ["https://127.0.0.1:1", "mailto:a b", "file:///x", "tauri://localhost/", "httpx:y"] {
        assert!(recorded_harness_url(Some(&record_harness_url(&url(s)))).is_none(), "{s}");
    }
}

#[test]
fn unusable_records_are_ignored() {
    assert!(recorded_harness_url(None).is_none());
    assert!(recorded_harness_url(Some("")).is_none());
    assert!(recorded_harness_url(Some("junk")).is_none());
    assert!(recorded_harness_url(Some("https://127.0.0.1:1/\n")).is_none());
    assert!(recorded_harness_url(Some("\n http://h:5 \n")).is_some());
    assert!(accept_http(None).is_none());
    assert!(accept_http(Some(url("file:///x"))).is_none());
}
