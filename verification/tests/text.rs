use ocvoice_audio_router::text::{
    after_prefix, before_last, characters, contains, decimal_text, first_chars, is_blank, joined,
    occurs, parse_u16, same_text, text_contains, text_entries, text_last_line, trim, white_space,
};

#[test]
fn white_space_is_that_of_unicode() {
    for code in 0..=0x10ffffu32 {
        if let Some(c) = char::from_u32(code) {
            assert_eq!(white_space(c), c.is_whitespace(), "{code:x}");
        }
    }
}

#[test]
fn trimming_takes_white_space_off_both_ends() {
    for text in ["", " ", "a", " a ", "\u{3000}a b\u{a0}\r\n", "\ta", "b\u{2028}"] {
        assert_eq!(trim(text), text.trim());
        assert_eq!(is_blank(text), text.trim().is_empty());
    }
}

#[test]
fn searching_finds_what_is_there() {
    for (hay, needle) in [
        ("", ""),
        ("abc", ""),
        ("abc", "c"),
        ("abc", "abcd"),
        ("aab", "ab"),
        ("blåbær", "bær"),
        ("abc", "bd"),
    ] {
        assert_eq!(text_contains(hay, needle), hay.contains(needle));
        assert_eq!(
            contains(&characters(hay), &characters(needle)),
            hay.contains(needle)
        );
        assert_eq!(
            occurs(&characters(hay), &characters(needle), 0),
            hay.starts_with(needle)
        );
        assert_eq!(same_text(hay, needle), hay == needle);
    }
}

#[test]
fn numbers_are_written_in_decimal() {
    for n in [0, 7, 10, 99, 1935, 65535, u64::MAX] {
        assert_eq!(decimal_text(n), n.to_string());
    }
}

#[test]
fn ports_are_read_as_the_standard_library_reads_them() {
    for text in [
        "", "+", "-", "0", "-0", "+80", "00080", "65535", "65536", "99999999999999999999", "8 0",
        " 80", "1935", "８", "++1", "12a",
    ] {
        assert_eq!(parse_u16(text), text.parse::<u16>().ok(), "{text}");
    }
}

#[test]
fn entries_are_trimmed_lines_with_something_left() {
    assert_eq!(
        text_entries("\r\n  one \r\n\n\ttwo\n \nthree"),
        vec!["one", "two", "three"]
    );
    assert!(text_entries("").is_empty());
    assert!(text_entries(" \n ").is_empty());
}

#[test]
fn the_last_line_follows_the_last_break() {
    assert_eq!(text_last_line("a\nb\n c"), " c");
    assert_eq!(text_last_line("abc"), "abc");
    assert_eq!(text_last_line("abc\n"), "");
    assert_eq!(text_last_line(""), "");
}

#[test]
fn parts_of_texts() {
    assert_eq!(after_prefix("v1.2.3", "v"), Some("1.2.3"));
    assert_eq!(after_prefix("1.2.3", "v"), None);
    assert_eq!(after_prefix("v", "v"), Some(""));
    assert_eq!(before_last("Org.", '.'), Some("Org"));
    assert_eq!(before_last("Org", '.'), None);
    assert_eq!(before_last("", '.'), None);
    assert_eq!(first_chars("æøåabc", 3), "æøå");
    assert_eq!(joined("a", "b"), "ab");
}
