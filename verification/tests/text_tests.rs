use synthplayer::text::{
    is_white_space_char, trim,
    chars_of, contains_chars, format_dur, not_found_status, playing_status, push_decimal, same_text,
    showing_status, tracks_status,
};

const SEC: u128 = 1_000_000_000;

#[test]
fn durations_format_as_minutes_and_seconds() {
    assert_eq!(format_dur(0), "00:00");
    assert_eq!(format_dur(5 * SEC), "00:05");
    assert_eq!(format_dur(59 * SEC + 999_999_999), "00:59");
    assert_eq!(format_dur(60 * SEC), "01:00");
    assert_eq!(format_dur(125 * SEC), "02:05");
    assert_eq!(format_dur(3600 * SEC), "60:00");
    assert_eq!(format_dur(6000 * SEC + 7 * SEC), "100:07");
}

#[test]
fn decimal_digits() {
    let mut s = String::from("n=");
    push_decimal(&mut s, 0);
    assert_eq!(s, "n=0");
    let mut s = String::new();
    push_decimal(&mut s, 1234567890123);
    assert_eq!(s, "1234567890123");
}

#[test]
fn substring_search() {
    let hay = chars_of("héllo wörld");
    assert_eq!(hay.len(), 11);
    assert!(contains_chars(&hay, &chars_of("wö")));
    assert!(contains_chars(&hay, &chars_of("")));
    assert!(contains_chars(&hay, &chars_of("héllo wörld")));
    assert!(!contains_chars(&hay, &chars_of("world")));
    assert!(!contains_chars(&chars_of("ab"), &chars_of("abc")));
}

#[test]
fn text_equality() {
    assert!(same_text("mp3", "mp3"));
    assert!(!same_text("mp3", "mp4"));
    assert!(!same_text("mp3", "mp33"));
    assert!(same_text("", ""));
}

#[test]
fn status_lines() {
    assert_eq!(playing_status("Song"), "Playing: Song");
    assert_eq!(not_found_status("/x/y"), "Not found: /x/y");
    assert_eq!(tracks_status(0), "0 tracks");
    assert_eq!(tracks_status(42), "42 tracks");
    assert_eq!(showing_status(3, 10), "Showing 3/10");
}

#[test]
fn trimming_removes_unicode_white_space_at_both_ends() {
    assert_eq!(trim("  a b  "), "a b");
    assert_eq!(trim("\t\n\u{3000}x\u{00A0}\u{2009}"), "x");
    assert_eq!(trim("   "), "");
    assert_eq!(trim(""), "");
    assert_eq!(trim("\u{200B}x"), "\u{200B}x");
    for c in ['\u{9}', '\u{a}', '\u{b}', '\u{c}', '\u{d}', ' ', '\u{85}', '\u{a0}', '\u{1680}', '\u{2000}',
        '\u{200a}', '\u{2028}', '\u{2029}', '\u{202f}', '\u{205f}', '\u{3000}'] {
        assert!(is_white_space_char(c));
    }
    for c in 0u32..0x3100 {
        if let Some(c) = char::from_u32(c) {
            assert_eq!(is_white_space_char(c), c.is_whitespace(), "{:?}", c);
        }
    }
}
