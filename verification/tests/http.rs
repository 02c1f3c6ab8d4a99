use ocvoice_audio_router::http::{
    asset, control_refusal, error_answer, error_status, listen_address, request_refusal, SetupAsset,
};

#[test]
fn incomplete_requests_are_the_senders_error() {
    assert_eq!(error_status("RESTREAM_CONVEX_URL is not configured"), 400);
    assert_eq!(error_status("restream device is not paired"), 400);
    assert_eq!(error_status("pairing code must not be empty"), 400);
    assert_eq!(
        error_status("restream engine binary not found at /app/engine"),
        500
    );
}

#[test]
fn control_is_open_to_this_computer() {
    assert_eq!(control_refusal(Some("127.0.0.1:9876"), None), None);
    assert_eq!(
        control_refusal(Some("localhost"), Some("http://localhost:9876")),
        None
    );
    assert_eq!(
        control_refusal(Some("localhost:9876"), Some("http://127.0.0.1")),
        None
    );
}

#[test]
fn control_is_closed_to_others() {
    for (host, origin) in [
        (None, None),
        (Some("ocvoice.dk"), None),
        (Some("localhost.ocvoice.dk"), None),
        (Some("localhost:"), None),
        (Some("localhost:98x"), None),
        (Some("127.0.0.1:9876"), Some("https://ocvoice.dk")),
        (Some("127.0.0.1:9876"), Some("http://localhost.example")),
        (Some("127.0.0.1:9876"), Some("https://localhost:9876")),
        (Some("127.0.0.1:9876"), Some("null")),
        (Some("127.0.0.1:9876"), Some("")),
    ] {
        assert_eq!(control_refusal(host, origin), Some(403), "{host:?} {origin:?}");
    }
}

#[test]
fn setup_parts_are_sent_with_strict_headers() {
    assert_eq!(
        asset(SetupAsset::Page),
        vec![
            ("content-type", "text/html; charset=utf-8"),
            ("cache-control", "no-store"),
            ("x-content-type-options", "nosniff"),
            ("x-frame-options", "DENY"),
            ("referrer-policy", "no-referrer"),
            (
                "content-security-policy",
                "default-src 'none'; script-src 'self'; style-src 'self'; connect-src 'self'; frame-ancestors 'none'; base-uri 'none'; form-action 'self'"
            ),
        ]
    );
    assert_eq!(
        asset(SetupAsset::Script)[0].1,
        "text/javascript; charset=utf-8"
    );
    assert_eq!(asset(SetupAsset::Style)[0].1, "text/css; charset=utf-8");
}

#[test]
fn only_setup_and_control_are_guarded() {
    let page = Some("https://ocvoice.dk");
    let host = Some("127.0.0.1:9876");
    for path in ["/health", "/devices", "/play", "/stop", "/setup2", "/restream"] {
        assert_eq!(request_refusal(path, host, page), None, "{path}");
        assert_eq!(request_refusal(path, None, None), None, "{path}");
    }
    for path in [
        "/setup",
        "/setup.js",
        "/setup.css",
        "/restream/setup",
        "/restream/pair",
        "/restream/start",
        "/restream/stop",
        "/restream/status",
    ] {
        assert_eq!(request_refusal(path, host, page), Some(403), "{path}");
        assert_eq!(request_refusal(path, None, None), Some(403), "{path}");
        assert_eq!(request_refusal(path, host, None), None, "{path}");
    }
}

#[test]
fn the_server_listens_on_this_computer_only() {
    assert_eq!(listen_address(9876), "127.0.0.1:9876");
    assert_eq!(listen_address(0), "127.0.0.1:0");
}

#[test]
fn failures_are_answered_without_the_token() {
    let token = Some("s3cret".to_string());
    let plain = error_answer("restream device is not paired".to_string(), &token);
    assert_eq!(plain.status, 400);
    assert_eq!(plain.error, "restream device is not paired");
    let no_secret = error_answer(
        "restream engine binary not found at /e".to_string(),
        &Some(String::new()),
    );
    assert_eq!(no_secret.status, 500);
    assert_eq!(no_secret.error, "restream engine binary not found at /e");
    let echoed = error_answer("restream pairing failed: old s3cret".to_string(), &token);
    assert_eq!(echoed.status, 500);
    assert_eq!(echoed.error, "[engine] [redacted token line]");
    let both = error_answer("s3cret is not configured".to_string(), &token);
    assert_eq!(both.status, 400);
    assert_eq!(both.error, "[engine] [redacted token line]");
}
