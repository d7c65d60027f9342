use dsh_desktop::text::{
    characters, contains, is_white_space, join, lead, same_text, split_lines, starts_with, trim,
    without, without_back, without_front, CharClass,
};

const SAMPLES: [&str; 16] = [
    "",
    "\n",
    "\r\n",
    "\r",
    "a",
    " a ",
    "a\nb",
    "a\nb\n",
    "a\r\nb\r\n\r\n",
    "a\r\r\nb\r",
    "\u{3000}x\u{a0}\u{85}",
    "\n\n a \n",
    "  node-pty : true",
    "\"\"key\"",
    "no colon \u{1F980} here",
    ": :",
];

#[test]
fn white_space_is_the_unicode_property() {
    for code in 0..=0x10ffffu32 {
        if let Some(c) = char::from_u32(code) {
            assert_eq!(is_white_space(c), c.is_whitespace(), "{code:x}");
        }
    }
}

#[test]
fn trimming_agrees_with_the_standard_library() {
    for s in SAMPLES {
        assert_eq!(trim(s), s.trim());
        assert_eq!(without_front(s, CharClass::WhiteSpace), s.trim_start());
        assert_eq!(without_back(s, CharClass::WhiteSpace), s.trim_end());
        assert_eq!(without(s, CharClass::Quote), s.trim_matches('"'));
        assert_eq!(lead(s, CharClass::BeforeColon), s.split(':').next().unwrap());
    }
}

#[test]
fn lines_agree_with_the_standard_library() {
    for s in SAMPLES {
        assert_eq!(split_lines(s), s.lines().map(|l| l.to_string()).collect::<Vec<String>>());
    }
}

#[test]
fn joined_lines_are_read_back() {
    let lines: Vec<String> = vec!["a".to_string(), String::new(), " b".to_string()];
    let written = join(&lines, "\n") + "\n";
    assert_eq!(written, "a\n\n b\n");
    assert_eq!(split_lines(&written), lines);
    assert_eq!(join(&Vec::new(), "\n"), "");
}

#[test]
fn searching_agrees_with_the_standard_library() {
    for s in SAMPLES {
        for part in ["", "a", "\r\n", "key", "b\r", "\u{1F980}", "aa", "colon \u{1F980}"] {
            assert_eq!(contains(s, part), s.contains(part));
            assert_eq!(starts_with(s, part), s.starts_with(part));
            assert_eq!(same_text(s, part), s == part);
        }
    }
    assert!(contains("aab", "ab"));
    assert_eq!(characters("a\u{1F980}"), vec!['a', '\u{1F980}']);
}
