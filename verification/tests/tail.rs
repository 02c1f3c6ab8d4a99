use ocvoice_audio_router::tail::{
    labelled_line, push_tail_inner, redact_error, sanitize_tail_line, REDACTED, TAIL_LIMIT,
};
use std::collections::VecDeque;

#[test]
fn ordinary_lines_are_shown() {
    let line = "[stdout] stub engine running";
    assert_eq!(sanitize_tail_line(line, Some("abc123")), line);
    assert_eq!(sanitize_tail_line("", None), "");
}

#[test]
fn lines_about_tokens_are_not_shown() {
    assert_eq!(
        sanitize_tail_line("Using TOKEN x", None),
        "[engine] [redacted token line]"
    );
    assert_eq!(sanitize_tail_line("deviceToken=1", None), REDACTED);
    assert_eq!(sanitize_tail_line("tok en", None), "tok en");
}

#[test]
fn the_device_token_is_not_shown() {
    assert_eq!(sanitize_tail_line("got abc123!", Some("abc123")), REDACTED);
    assert_eq!(sanitize_tail_line("got abc123!", None), "got abc123!");
    assert_eq!(sanitize_tail_line("anything", Some("")), REDACTED);
}

#[test]
fn long_words_of_credential_characters_are_not_shown() {
    let long = "aB3-_.".repeat(6);
    assert_eq!(long.len(), 36);
    let word: String = long.chars().take(32).collect();
    let short: String = long.chars().take(31).collect();
    assert_eq!(sanitize_tail_line(&format!("key {word}"), None), REDACTED);
    assert_eq!(sanitize_tail_line(&format!("{word}\u{3000}x"), None), REDACTED);
    let shown = format!("key {short}");
    assert_eq!(sanitize_tail_line(&shown, None), shown);
    let url = format!("https://{word}");
    assert_eq!(sanitize_tail_line(&url, None), url);
    let foreign = format!("{short}é");
    assert_eq!(sanitize_tail_line(&foreign, None), foreign);
}

#[test]
fn sanitizing_twice_changes_nothing() {
    for line in ["plain", "a token", ""] {
        let once = sanitize_tail_line(line, Some("secret"));
        assert_eq!(sanitize_tail_line(&once, Some("secret")), once);
    }
}

#[test]
fn the_tail_keeps_the_newest_lines() {
    let mut tail: VecDeque<String> = VecDeque::new();
    for n in 0..TAIL_LIMIT + 3 {
        push_tail_inner(&mut tail, n.to_string());
    }
    assert_eq!(tail.len(), 50);
    assert_eq!(tail[0], "3");
    assert_eq!(tail[49], "52");
}

#[test]
fn lines_say_where_they_come_from() {
    assert_eq!(
        labelled_line("stdout", "stub engine running"),
        "[stdout] stub engine running"
    );
    assert_eq!(labelled_line("stderr", ""), "[stderr] ");
}

#[test]
fn errors_are_told_without_the_token() {
    let told = |error: &str, token: Option<&str>| {
        redact_error(error.to_string(), &token.map(str::to_string))
    };
    let missing = "restream pairing response did not include a device token";
    assert_eq!(told(missing, None), missing);
    assert_eq!(told(missing, Some("")), missing);
    assert_eq!(told("", Some("")), "");
    assert_eq!(told(missing, Some("s3cret")), missing);
    assert_eq!(
        told("restream pairing failed: bad s3cret", Some("s3cret")),
        REDACTED
    );
    assert_eq!(told("failed to start restream engine: x", Some("engine")), "");
}
