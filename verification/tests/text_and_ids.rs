use axon_core::event::event::LogLevel;
use axon_core::kernel::clock::{seconds_between, to_stamp, Moment};
use axon_core::kernel::correlation::{fresh_id, id_text, was_seen};
use axon_core::session::identity::SessionIdentity;
use axon_core::text::{
    chars_of, contains, ends_with, find_char, first_word_of, from_chars, is_whitespace, lines_of,
    longer_than, matches_at, rfind, rfind_char, slice_of, starts_with, trim, trim_start_matches,
};

fn at(seconds: i64, nanos: u32) -> Moment {
    Moment { seconds, nanos }
}

fn v(s: &str) -> Vec<char> {
    s.chars().collect()
}

#[test]
fn chars_round_trip() {
    assert_eq!(chars_of("h\u{e9}llo"), v("h\u{e9}llo"));
    assert_eq!(from_chars(&v("h\u{e9}llo")), "h\u{e9}llo");
    assert_eq!(from_chars(&v("")), "");
}

#[test]
fn substring_search() {
    assert!(matches_at(&v("abcabc"), &v("bc"), 1));
    assert!(!matches_at(&v("abcabc"), &v("bc"), 2));
    assert!(!matches_at(&v("abc"), &v("bc"), 2));
    assert!(matches_at(&v("abc"), &v(""), 3));
    assert!(!matches_at(&v("abc"), &v(""), 4));
    assert!(starts_with(&v("status now"), &v("stat")));
    assert!(!starts_with(&v("st"), &v("stat")));
    assert!(ends_with(&v("why?"), &v("?")));
    assert!(!ends_with(&v("why? "), &v("?")));
    assert!(contains(&v("please rebuild"), &v("build")));
    assert!(contains(&v("abc"), &v("")));
    assert!(contains(&v(""), &v("")));
    assert!(!contains(&v("ab"), &v("abc")));
    assert_eq!(rfind(&v("a:b:c"), &v(":")), Some(3));
    assert_eq!(rfind(&v("abc"), &v(":")), None);
    assert_eq!(rfind(&v("abc"), &v("abc")), Some(0));
    assert_eq!(find_char(&v("a{b{c"), '{'), Some(1));
    assert_eq!(rfind_char(&v("a}b}c"), '}'), Some(3));
    assert_eq!(find_char(&v("abc"), '{'), None);
}

#[test]
fn trimming_follows_the_standard_library() {
    for text in ["  a b \t\n", "\u{a0}x\u{3000}", "", "   ", "x", "\u{85}\u{2003}y z\u{2028}\u{1680}"] {
        assert_eq!(from_chars(&trim(&v(text))), text.trim(), "{:?}", text);
    }
    for text in ["///a/b", "abc", "////", ""] {
        assert_eq!(
            from_chars(&trim_start_matches(&v(text), '/')),
            text.trim_start_matches('/'),
            "{:?}",
            text
        );
    }
    assert_eq!(slice_of(&v("abcdef"), 2, 4), v("cd"));
}

#[test]
fn white_space_is_what_the_standard_library_says() {
    for code in 0u32..0x11000 {
        if let Some(c) = char::from_u32(code) {
            assert_eq!(is_whitespace(c), c.is_whitespace(), "U+{:04X}", code);
        }
    }
}

#[test]
fn lengths_count_utf8_bytes() {
    assert!(!longer_than(&v("abc"), 3));
    assert!(longer_than(&v("abc"), 2));
    assert!(!longer_than(&v("\u{e9}\u{20ac}\u{1f600}"), 9));
    assert!(longer_than(&v("\u{e9}\u{20ac}\u{1f600}"), 8));
    assert!(!longer_than(&v(""), 0));
}

#[test]
fn lines_follow_the_standard_library() {
    for text in ["a\nb", "a\r\nb\n", "", "\n", "a\n\nb", "no feed", "x\r", "\r\n\r\n", "a\rb\n"] {
        let mine: Vec<String> = lines_of(&v(text)).iter().map(from_chars).collect();
        let theirs: Vec<String> = text.lines().map(str::to_string).collect();
        assert_eq!(mine, theirs, "{:?}", text);
    }
}

#[test]
fn log_level_from_line() {
    assert_eq!(LogLevel::from_line("2024 ERROR boom"), LogLevel::Error);
    assert_eq!(LogLevel::from_line("an error in lower case"), LogLevel::Error);
    assert_eq!(LogLevel::from_line("Warning: low disk"), LogLevel::Warn);
    assert_eq!(LogLevel::from_line("debug x"), LogLevel::Debug);
    assert_eq!(LogLevel::from_line("all fine"), LogLevel::Info);
    assert_eq!(LogLevel::from_line("warn and error"), LogLevel::Error);
    assert_eq!(LogLevel::from_line(""), LogLevel::Info);
    assert!(LogLevel::Error.is_actionable());
    assert!(LogLevel::Warn.is_actionable());
    assert!(!LogLevel::Info.is_actionable());
    assert!(!LogLevel::Debug.is_actionable());
}

#[test]
fn fresh_id_skips_what_was_seen() {
    assert_eq!(fresh_id(&vec![], 7), 7);
    assert_eq!(fresh_id(&vec![7, 8, 10], 7), 9);
    assert_eq!(fresh_id(&vec![8, 7, 9, 7], 7), 10);
    assert_eq!(fresh_id(&vec![u128::MAX, 0], u128::MAX), 1);
    assert!(was_seen(&vec![1, 2], 2));
    assert!(!was_seen(&vec![1, 2], 3));
}

#[test]
fn id_text_is_the_hyphenated_form() {
    assert_eq!(
        id_text(0xa1a2a3a4b1b2c1c2d1d2d3d4d5d6d7d8),
        "a1a2a3a4-b1b2-c1c2-d1d2-d3d4d5d6d7d8"
    );
    assert_eq!(id_text(0), "00000000-0000-0000-0000-000000000000");
    assert_eq!(id_text(u128::MAX), "ffffffff-ffff-ffff-ffff-ffffffffffff");
    for id in [1u128, 0x0123456789abcdef0123456789abcdef, 1 << 127, 0xdeadbeef] {
        assert_eq!(id_text(id), uuid::Uuid::from_u128(id).to_string());
    }
}

#[test]
fn session_identity() {
    let identity = SessionIdentity::from_parts(
        0xa1a2a3a4b1b2c1c2d1d2d3d4d5d6d7d8,
        at(1000, 500_000_000),
        "host".to_string(),
        "0.1.0".to_string(),
    );
    assert_eq!(identity.short_id(), "ax_a1a2a3");
    assert_eq!(identity.total_runs, 1);
    assert_eq!(identity.crashes_fixed, 0);
    assert_eq!(identity.builds_run, 0);
    assert_eq!(identity.uptime_at(at(1060, 500_000_000)), 60);
    assert_eq!(identity.uptime_at(at(1060, 499_999_999)), 59);
    assert_eq!(identity.uptime_at(at(1060, 0)), 59);
    assert_eq!(identity.uptime_at(at(1061, 0)), 60);
    assert_eq!(identity.uptime_at(at(900, 500_000_000)), -100);
    assert_eq!(identity.uptime_at(at(900, 600_000_000)), -99);
    assert_eq!(identity.uptime_at(at(1000, 0)), 0);
    assert_eq!(identity.uptime_at(at(999, 600_000_000)), 0);
    assert!(identity.uptime_seconds() > 1_000_000_000);
}

#[test]
fn session_identity_of_this_machine() {
    let first = SessionIdentity::new("0.1.0".to_string());
    let second = SessionIdentity::new("0.1.0".to_string());
    assert_ne!(first.session_id, second.session_id);
    assert_eq!(first.version, "0.1.0");
    assert_eq!(first.total_runs, 1);
    assert!(first.started_at.seconds > 1_000_000_000);
    assert!(first.started_at.nanos < 1_000_000_000);
    assert!(!first.hostname.is_empty());
    assert_eq!(first.hostname, second.hostname);
    assert!(first.uptime_seconds() < 60);
    assert!(first.short_id().starts_with("ax_"));
    assert_eq!(first.short_id().len(), 9);
}

#[test]
fn clock_arithmetic_saturates() {
    assert_eq!(to_stamp(-5), 0);
    assert_eq!(to_stamp(0), 0);
    assert_eq!(to_stamp(12), 12);
    assert_eq!(seconds_between(at(i64::MIN, 0), at(i64::MAX, 0)), i64::MAX);
    assert_eq!(seconds_between(at(i64::MAX, 0), at(i64::MIN, 0)), i64::MIN);
    assert_eq!(seconds_between(at(5, 0), at(3, 0)), -2);
    assert_eq!(seconds_between(at(5, 1), at(3, 0)), -2);
    assert_eq!(seconds_between(at(5, 0), at(3, 1)), -1);
    assert_eq!(seconds_between(at(0, u32::MAX), at(0, 0)), -4);
}

#[test]
fn log_level_goes_by_the_upper_case_form() {
    assert_eq!(LogLevel::from_upper("AN ERROR"), LogLevel::Error);
    assert_eq!(LogLevel::from_upper("an error"), LogLevel::Info);
    assert_eq!(LogLevel::from_upper("DEBUG WARN"), LogLevel::Warn);
}

#[test]
fn first_word_is_what_split_whitespace_gives_first() {
    for text in ["/build axon", "  /status\tnow", "", "   ", "one", "\u{a0}x\u{3000}y", "a\nb"] {
        assert_eq!(
            from_chars(&first_word_of(&v(text))),
            text.split_whitespace().next().unwrap_or(""),
            "{:?}",
            text
        );
    }
}
