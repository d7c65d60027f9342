use dsh_desktop::harness_url::{parse_gui_url, record_harness_url};
use dsh_desktop::lookup::{
    accept_loopback, default_harness_url, is_loopback_http, override_harness_url,
    override_is_refused, Lookup, LookupEvent, Source,
};
use dsh_desktop::page_url::PageUrl;

fn url(s: &str) -> PageUrl {
    PageUrl::parse(s).unwrap()
}

/// Runs a search; returns the URL attached to and the URLs that were probed.
fn search(
    override_value: Option<&str>,
    record: Option<&str>,
    live: &[&str],
) -> (Option<String>, Vec<String>) {
    let mut probed = Vec::new();
    let mut state = Lookup::start();
    loop {
        let event = match &state {
            Lookup::Ask(source) => {
                let value = match source {
                    Source::Override => override_value,
                    Source::Default => None,
                    Source::Recorded => record,
                };
                LookupEvent::Answered(source.url(value))
            }
            Lookup::Probe(_, u) => {
                probed.push(u.href.clone());
                LookupEvent::Probed(live.contains(&u.href.as_str()))
            }
            Lookup::Attach(u) => return (Some(u.href.clone()), probed),
            Lookup::Spawn => return (None, probed),
        };
        state = state.existing_harness_url(event);
    }
}

const DEFAULT: &str = "http://127.0.0.1:3080/";
const OTHER: &str = "http://localhost:5000/";
const RECORDED: &str = "http://127.0.0.1:6000/";

#[test]
fn first_live_source_is_used() {
    let record = Some("http://127.0.0.1:6000/\n");
    let set = Some("http://localhost:5000");
    let all = [OTHER, DEFAULT, RECORDED];
    assert_eq!(search(set, record, &all).0.as_deref(), Some(OTHER));
    assert_eq!(search(None, record, &all).0.as_deref(), Some(DEFAULT));
    assert_eq!(search(set, record, &[RECORDED]).0.as_deref(), Some(RECORDED));
    let (found, probed) = search(set, record, &[]);
    assert_eq!(found, None);
    assert_eq!(probed, vec![OTHER, DEFAULT, RECORDED]);
}

#[test]
fn nothing_is_probed_after_a_hit() {
    let (found, probed) = search(None, Some(RECORDED), &[DEFAULT]);
    assert_eq!(found.as_deref(), Some(DEFAULT));
    assert_eq!(probed, vec![DEFAULT]);
}

#[test]
fn unusable_sources_are_skipped() {
    let (found, probed) = search(Some("http://example.com"), Some("https://x/"), &[]);
    assert_eq!(found, None);
    assert_eq!(probed, vec![DEFAULT]);
}

#[test]
fn override_must_be_loopback_http() {
    assert_eq!(
        override_harness_url(Some("http://127.0.0.1:1")).unwrap().href,
        "http://127.0.0.1:1/"
    );
    for value in ["http://example.com", "https://localhost:1", "http://[::1]:1", "ftp://127.0.0.1"] {
        assert!(override_harness_url(Some(value)).is_none());
        assert!(override_is_refused(Some(value)));
    }
    for value in [None, Some("junk"), Some("http://localhost")] {
        assert!(!override_is_refused(value));
    }
    assert!(override_harness_url(None).is_none());
    assert!(is_loopback_http(&url("http://localhost:1")));
    assert!(!is_loopback_http(&url("mailto:a@localhost")));
    assert!(accept_loopback(Some(url("http://localhost:1"))).is_some());
    assert!(accept_loopback(Some(url("https://localhost:1"))).is_none());
    assert!(accept_loopback(None).is_none());
}

#[test]
fn default_port_is_the_web_profiles() {
    let u = default_harness_url().unwrap();
    assert_eq!(u.host.as_deref(), Some("127.0.0.1"));
    assert_eq!(u.port, Some(3080));
}

#[test]
fn stray_events_change_nothing() {
    let state = Lookup::start().existing_harness_url(LookupEvent::Probed(true));
    assert!(matches!(state, Lookup::Ask(Source::Override)));
    let state = Lookup::Spawn.existing_harness_url(LookupEvent::Answered(Some(url(DEFAULT))));
    assert!(matches!(state, Lookup::Spawn));
}

#[test]
fn second_instance_finds_the_recorded_harness() {
    let spawned = parse_gui_url("dsh web: http://127.0.0.1:6000").unwrap();
    let record = record_harness_url(&spawned);
    let (found, _) = search(None, Some(&record), &[RECORDED]);
    assert_eq!(found, Some(spawned.href));
    let (found, _) = search(None, Some(&record), &[RECORDED, DEFAULT]);
    assert_eq!(found.as_deref(), Some(DEFAULT));
}

#[test]
fn stale_or_foreign_record_is_passed_over() {
    let record = record_harness_url(&url(RECORDED));
    assert_eq!(search(None, Some(&record), &[]), (None, vec![DEFAULT.to_string(), RECORDED.to_string()]));
    let record = record_harness_url(&url("https://127.0.0.1:6000"));
    let (found, probed) = search(None, Some(&record), &["https://127.0.0.1:6000/", RECORDED]);
    assert_eq!(found, None);
    assert_eq!(probed, vec![DEFAULT]);
}
