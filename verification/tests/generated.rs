use dsh_desktop::harness_url::{record_harness_url, recorded_harness_url};
use dsh_desktop::http::{http_get, probe_request};
use dsh_desktop::page_url::PageUrl;
use dsh_desktop::workspace::ensure_node_pty_allow_builds;

const PIECES: [&str; 64] = [
    "http", ":", "/", "//", "\\", "@", "?", "#", "%", "%2e", "%2E.", ".", "..", "%00", "%41", "a",
    "B", "0", "1", "127", "0x7f", "256", "4294967295", "[", "]", "::1", "[::1]", "[1:2::3.4.5.6]",
    "xn--", "xn--bcher-kva", "b\u{fc}", "\u{df}", "\u{200d}", "\u{ff0e}", "\u{3002}", "\u{212a}",
    "\u{1F980}", "\u{a0}", "\u{85}", " ", "\t", "\n", "\r", "\0", "\u{1f}", "\u{7f}", "\"", "'",
    "<", ">", "`", "{", "}", "|", "^", "~", "&", "=", ";", ",", "-", "_", "localhost", "+",
];

struct Dice(u64);

impl Dice {
    fn roll(&mut self, sides: usize) -> usize {
        self.0 = self.0.wrapping_mul(6364136223846793005).wrapping_add(1442695040888963407);
        (self.0 >> 33) as usize % sides
    }
}

#[test]
fn generated_http_urls_are_well_formed() {
    let mut dice = Dice(1);
    let mut parsed = 0;
    for _ in 0..200_000 {
        let starts = ["http://", "http:", "HTTP:/", "", " http://"];
        let mut input = String::from(starts[dice.roll(starts.len())]);
        for _ in 0..1 + dice.roll(9) {
            input.push_str(PIECES[dice.roll(PIECES.len())]);
        }
        let Some(u) = PageUrl::parse(&input) else { continue };
        assert_eq!(u.input, input);
        assert_eq!(u.href.trim(), u.href, "{input:?}");
        if input.starts_with("http://") {
            assert_eq!(u.scheme, "http");
        }
        if let Some(again) = PageUrl::parse(&u.href) {
            assert_eq!(again.scheme, u.scheme, "{input:?}");
        }
        let read = recorded_harness_url(Some(&record_harness_url(&u)));
        assert_eq!(read.is_some(), u.scheme == "http", "{input:?}");
        if u.scheme != "http" {
            continue;
        }
        parsed += 1;
        assert!(u.host.is_some() && u.port.is_some(), "{input:?}");
        assert!(http_get(&u).is_some() && probe_request(&u).is_some(), "{input:?}");
        assert!(reads_back(&u), "{input:?}");
        let joined = u.join("/voice-pet/pet").unwrap();
        assert_eq!(joined.scheme, u.scheme, "{input:?}");
        assert_eq!(joined.host, u.host, "{input:?}");
        assert_eq!(joined.port, u.port, "{input:?}");
        assert_eq!(read.unwrap().href, u.href, "{input:?}");
    }
    assert!(parsed > 10_000);
}

/// Whether the normal form of a URL gives that URL again.
fn reads_back(u: &PageUrl) -> bool {
    match PageUrl::parse(&u.href) {
        Some(again) => {
            again.input == u.href
                && again.href == u.href
                && again.scheme == u.scheme
                && again.host == u.host
                && again.port == u.port
                && again.path == u.path
        }
        None => false,
    }
}

#[test]
fn generated_urls_of_other_schemes_keep_theirs() {
    let mut dice = Dice(3);
    let mut parsed = 0;
    for _ in 0..200_000 {
        let starts = ["mailto:", "data:", "x:", "file:", "https://", "web+demo:/", "tauri://", "y://"];
        let mut input = String::from(starts[dice.roll(starts.len())]);
        for _ in 0..dice.roll(9) {
            input.push_str(PIECES[dice.roll(PIECES.len())]);
        }
        let Some(u) = PageUrl::parse(&input) else { continue };
        parsed += 1;
        assert_eq!(u.href.trim(), u.href, "{input:?}");
        if let Some(again) = PageUrl::parse(&u.href) {
            assert_eq!(again.scheme, u.scheme, "{input:?}");
        }
        assert!(recorded_harness_url(Some(&record_harness_url(&u))).is_none(), "{input:?}");
    }
    assert!(parsed > 10_000);
}

#[test]
fn generated_hosts_are_read_back() {
    let blocks: [(u32, u32); 10] = [
        (0x21, 0x5e), (0xa1, 0x15f), (0x300, 0x70), (0x370, 0x190), (0x591, 0x160),
        (0x900, 0x700), (0x1e00, 0x200), (0x2000, 0x1000), (0x3040, 0x7000), (0x10000, 0xf000),
    ];
    let mut dice = Dice(4);
    let mut parsed = 0;
    for _ in 0..150_000 {
        let (start, size) = blocks[dice.roll(blocks.len())];
        let mut host = String::new();
        for _ in 0..1 + dice.roll(3) {
            for _ in 0..1 + dice.roll(4) {
                let code = match dice.roll(6) {
                    0 => 0x61 + dice.roll(26) as u32,
                    1 => 0x30 + dice.roll(10) as u32,
                    _ => start + dice.roll(size as usize) as u32,
                };
                host.extend(char::from_u32(code));
            }
            host.push_str([".", ".", "\u{3002}", ""][dice.roll(4)]);
        }
        let Some(u) = PageUrl::parse(&format!("http://{host}/")) else { continue };
        parsed += 1;
        assert!(reads_back(&u), "{host:?}");
    }
    assert!(parsed > 10_000);
}

const LINE_PIECES: [&str; 24] = [
    "\nallowBuilds:\n", "\n  node-pty", "\n  x: 1\n", "\n# x\n",
    "allowBuilds:", "allowBuilds", "node-pty", "\"node-pty\"", "\"", "'", ":", ": true", " ", "  ",
    "\t", "\r", "\n", "\n", "\r\n", "\u{a0}", "x", "- .", "#", "\u{e9}",
];

/// The rule of the allowlist, in the terms of the standard library's strings.
fn expected(content: &str) -> Option<String> {
    let mut lines: Vec<String> = content.lines().map(str::to_string).collect();
    match lines.iter().position(|line| line.trim() == "allowBuilds:") {
        Some(start) => {
            let mut inside = true;
            for line in &lines[start + 1..] {
                let body = line.trim_start().split(':').next().unwrap_or("");
                if line.trim() == "allowBuilds:" {
                    inside = true;
                } else if !(line.is_empty()
                    || line.starts_with('#')
                    || line.starts_with(char::is_whitespace))
                {
                    inside = false;
                } else if inside && body.trim().trim_matches('"') == "node-pty" {
                    return None;
                }
            }
            lines.insert(start + 1, "  node-pty: true".to_string());
        }
        None => {
            lines.push(String::new());
            lines.push("allowBuilds:".to_string());
            lines.push("  node-pty: true".to_string());
        }
    }
    Some(lines.join("\n") + "\n")
}

#[test]
fn generated_workspace_files_are_patched_once() {
    let mut dice = Dice(2);
    let mut found = 0;
    for _ in 0..50_000 {
        let mut content = String::new();
        for _ in 0..dice.roll(14) {
            content.push_str(LINE_PIECES[dice.roll(LINE_PIECES.len())]);
        }
        let patched = ensure_node_pty_allow_builds(Some(&content));
        assert_eq!(patched, expected(&content), "{content:?}");
        match patched {
            Some(text) => {
                assert!(ensure_node_pty_allow_builds(Some(&text)).is_none(), "{content:?}")
            }
            None => found += 1,
        }
    }
    assert!(found > 50);
}
