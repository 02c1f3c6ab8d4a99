use ocvoice_audio_router::config::EngineProbe;
use ocvoice_audio_router::pairing::{
    finish_pairing, pair_command, paired_message, pairing_failure_message, parse_pairing, PairRun,
    Pairing,
};

const RESPONSE: &str =
    "Contacting backend\r\nPaired with Sct. Hans Kirke.\n\nDevice token (store it — shown once):\n  tok-123456789  \n";

fn engine(is_file: bool) -> EngineProbe {
    EngineProbe {
        path: "/app/engine".to_string(),
        is_file,
    }
}

fn url() -> Option<String> {
    Some("https://example.invalid".to_string())
}

fn parse_error(text: &str) -> String {
    parse_pairing(text).err().unwrap()
}

#[test]
fn a_pairing_run_names_backend_and_code() {
    let command = pair_command(" 12-34 ".to_string(), None, &url(), &engine(true))
        .ok()
        .unwrap();
    assert_eq!(command.convex_url, "https://example.invalid");
    assert_eq!(
        command.args,
        vec!["pair", "--convex", "https://example.invalid", "--code", " 12-34 "]
    );
    let named = pair_command(
        "1".to_string(),
        Some("Studio".to_string()),
        &url(),
        &engine(true),
    )
    .ok()
    .unwrap();
    assert_eq!(named.args[5..], ["--name", "Studio"]);
    let blank = pair_command("1".to_string(), Some("  ".to_string()), &url(), &engine(true))
        .ok()
        .unwrap();
    assert_eq!(blank.args.len(), 5);
}

#[test]
fn pairing_needs_a_code_a_backend_and_the_engine() {
    let refused = |code: &str, url: &Option<String>, is_file| {
        pair_command(code.to_string(), None, url, &engine(is_file))
            .err()
            .unwrap()
    };
    assert_eq!(refused(" \n", &None, false), "pairing code must not be empty");
    assert_eq!(
        refused("1", &None, false),
        "RESTREAM_CONVEX_URL is not configured"
    );
    assert_eq!(
        refused("1", &url(), false),
        "restream engine binary not found at /app/engine"
    );
}

#[test]
fn a_response_gives_token_and_organization() {
    let pairing = parse_pairing(RESPONSE).ok().unwrap();
    assert_eq!(pairing.token, "tok-123456789");
    assert_eq!(pairing.org_name, "Sct. Hans Kirke");
}

#[test]
fn a_response_must_be_complete() {
    assert_eq!(
        parse_error("Paired with Org.\ntok"),
        "restream pairing response did not include the device-token marker"
    );
    assert_eq!(
        parse_error("Paired with Org.\nDevice token (store it — shown once):\n \n"),
        "restream pairing response did not include a device token"
    );
    let no_org = "restream pairing response did not include an organization name";
    assert_eq!(
        parse_error("Device token (store it — shown once):\ntok"),
        no_org
    );
    assert_eq!(
        parse_error("Paired with .\nPaired with Org.\nDevice token (store it — shown once):\ntok"),
        no_org
    );
    assert_eq!(
        parse_error("Paired with Org\nDevice token (store it — shown once):\ntok"),
        no_org
    );
}

#[test]
fn a_repeated_marker_counts_once() {
    let marker = "Device token (store it — shown once):";
    let text = format!("Paired with Org.\n{marker}\n{marker}\n");
    let pairing = parse_pairing(&text).ok().unwrap();
    assert_eq!(pairing.token, marker);
}

#[test]
fn a_failed_run_shows_its_last_line() {
    assert_eq!(
        pairing_failure_message("starting\n  code expired \n\n"),
        "restream pairing failed:   code expired"
    );
    assert_eq!(
        pairing_failure_message(" \n"),
        "restream pairing failed: engine exited unsuccessfully"
    );
    assert_eq!(
        pairing_failure_message("bad token"),
        "restream pairing failed: [engine] [redacted token line]"
    );
}

#[test]
fn runs_end_in_a_pairing_or_a_message() {
    let error = |run| finish_pairing(run).err().unwrap();
    assert_eq!(
        error(PairRun::TimedOut),
        "restream pairing timed out after 30 seconds"
    );
    assert_eq!(
        error(PairRun::NotRun("denied".to_string())),
        "failed to run restream engine for pairing: denied"
    );
    assert_eq!(
        error(PairRun::Finished {
            success: false,
            stdout: Vec::new(),
            stderr: b"caf\xe9".to_vec(),
        }),
        "restream pairing failed: caf\u{fffd}"
    );
    assert_eq!(
        error(PairRun::Finished {
            success: true,
            stdout: vec![0xff],
            stderr: Vec::new(),
        }),
        "restream pairing returned non-UTF-8 output"
    );
    let pairing = finish_pairing(PairRun::Finished {
        success: true,
        stdout: RESPONSE.as_bytes().to_vec(),
        stderr: Vec::new(),
    })
    .ok()
    .unwrap();
    assert_eq!(pairing.token, "tok-123456789");
}

#[test]
fn little_of_a_token_is_logged() {
    let message = |token: &str| {
        paired_message(
            &Pairing {
                token: token.to_string(),
                org_name: "Org".to_string(),
            },
            "/p",
        )
    };
    assert_eq!(
        message("abcdefg"),
        "[Restream] Paired with Org; stored device token abcdef… at /p"
    );
    assert_eq!(
        message("abcdef"),
        "[Restream] Paired with Org; stored device token <redacted>… at /p"
    );
}
