use ocvoice_audio_router::config::{EngineProbe, PersistedConfig, RestreamConfig};
use ocvoice_audio_router::pairing::Pairing;
use ocvoice_audio_router::supervisor::{
    spawn_failure_message, RestreamInner, StartDecision, SuperviseAction, SuperviseEvent,
};
use std::path::PathBuf;

const SECOND: u64 = 1_000_000_000;

fn engine(is_file: bool) -> EngineProbe {
    EngineProbe {
        path: "/app/stub-engine.sh".to_string(),
        is_file,
    }
}

fn config(url: Option<&str>) -> RestreamConfig {
    RestreamConfig {
        convex_site_url: url.map(str::to_string),
        engine_path: PathBuf::from("/app/stub-engine.sh"),
        ffmpeg_path: None,
        rtmp_port: 1935,
        persistence_path: PathBuf::from("/config/restream.json"),
    }
}

fn persisted() -> PersistedConfig {
    PersistedConfig {
        convex_site_url: Some("https://example.invalid".to_string()),
        device_token: Some("test-device-token-secret".to_string()),
        org_name: Some("Test Org".to_string()),
    }
}

fn paired() -> RestreamInner {
    RestreamInner::new(
        config(Some("https://example.invalid")),
        persisted(),
        &engine(true),
    )
}

fn started(since: u64) -> RestreamInner {
    let mut inner = paired();
    assert!(matches!(
        inner.begin_start(&engine(true)),
        StartDecision::Spawn
    ));
    inner.engine_spawned(since);
    inner.watching_started();
    inner
}

fn crash(inner: &mut RestreamInner, now: u64) -> SuperviseAction {
    inner.supervise(SuperviseEvent::Exited("exit status: 2".to_string()), now)
}

#[test]
fn restream_supervisor_lifecycle_and_auto_restart() {
    let mut inner = paired();
    assert_eq!(inner.status(&engine(true)).status, "stopped");

    // Started, the engine runs.
    assert!(matches!(
        inner.begin_start(&engine(true)),
        StartDecision::Spawn
    ));
    assert_eq!(inner.status(&engine(true)).status, "starting");
    inner.engine_spawned(1_000);
    inner.watching_started();
    assert_eq!(inner.status(&engine(true)).status, "running");
    assert_eq!(inner.status(&engine(true)).since, Some(1_000));
    assert_eq!(
        inner.supervise(SuperviseEvent::Begin, 0),
        SuperviseAction::Watch
    );
    assert_eq!(
        inner.supervise(SuperviseEvent::Tick, 0),
        SuperviseAction::Poll
    );
    assert_eq!(
        inner.supervise(SuperviseEvent::StillRunning, 0),
        SuperviseAction::Watch
    );

    // Stopped on request, it is not restarted.
    let plan = inner.begin_stop();
    assert!(plan.child && plan.task);
    assert_eq!(
        inner.supervise(SuperviseEvent::Tick, 0),
        SuperviseAction::Quit
    );
    assert_eq!(
        inner.supervise(SuperviseEvent::DelayOver, 0),
        SuperviseAction::Quit
    );
    inner.finish_stop(&Ok(()));
    assert_eq!(inner.status(&engine(true)).status, "stopped");

    // Started again and killed, it is restarted.
    assert!(matches!(
        inner.begin_start(&engine(true)),
        StartDecision::Spawn
    ));
    inner.engine_spawned(2_000);
    inner.watching_started();
    assert_eq!(
        inner.supervise(
            SuperviseEvent::Exited("signal: 9 (SIGKILL)".to_string()),
            SECOND
        ),
        SuperviseAction::Sleep(1)
    );
    assert_eq!(inner.status(&engine(true)).status, "errored");
    assert_eq!(
        inner.status(&engine(true)).tail,
        vec![
            "[supervisor] restream engine exited unexpectedly with signal: 9 (SIGKILL)",
            "[supervisor] Restarting in 1 second(s)",
        ]
    );
    assert_eq!(
        inner.supervise(SuperviseEvent::DelayOver, 2 * SECOND),
        SuperviseAction::Spawn
    );
    assert_eq!(inner.status(&engine(true)).status, "starting");
    inner.engine_spawned(3_000);
    assert_eq!(
        inner.supervise(SuperviseEvent::Begin, 2 * SECOND),
        SuperviseAction::Watch
    );
    assert_eq!(inner.status(&engine(true)).status, "running");
    inner.begin_stop();
    inner.finish_stop(&Ok(()));
    assert_eq!(inner.status(&engine(true)).status, "stopped");
}

#[test]
fn a_missing_engine_is_an_error_from_the_start() {
    let inner = RestreamInner::new(config(None), persisted(), &engine(false));
    let line = "[supervisor] restream engine binary not found at /app/stub-engine.sh";
    let shown = inner.status(&engine(false));
    assert_eq!(shown.status, "errored");
    assert_eq!(shown.tail, vec![line]);
    assert!(!shown.convex_configured);
    let back = inner.status(&engine(true));
    assert_eq!(back.status, "errored");
    assert_eq!(back.tail, vec![line]);
}

#[test]
fn an_engine_that_goes_missing_is_reported() {
    let mut inner = paired();
    for n in 0..50 {
        inner.push_tail(&n.to_string());
    }
    let shown = inner.status(&engine(false));
    assert_eq!(shown.status, "errored");
    assert_eq!(shown.since, None);
    assert_eq!(shown.tail.len(), 50);
    assert_eq!(shown.tail[0], "1");
    assert_eq!(
        shown.tail[49],
        "[supervisor] restream engine binary not found at /app/stub-engine.sh"
    );
    let running = started(7).status(&engine(false));
    assert_eq!(running.status, "running");
    assert_eq!(running.since, Some(7));
}

#[test]
fn starting_needs_engine_backend_and_pairing() {
    let refusal = |mut inner: RestreamInner, is_file| match inner.begin_start(&engine(is_file)) {
        StartDecision::Refused(message) => message,
        _ => String::new(),
    };
    assert_eq!(
        refusal(paired(), false),
        "restream engine binary not found at /app/stub-engine.sh"
    );
    let no_backend = RestreamInner::new(config(None), persisted(), &engine(true));
    assert_eq!(
        refusal(no_backend, true),
        "RESTREAM_CONVEX_URL is not configured"
    );
    let unpaired = RestreamInner::new(
        config(Some("https://example.invalid")),
        PersistedConfig::default(),
        &engine(true),
    );
    assert_eq!(refusal(unpaired, true), "restream device is not paired");
}

#[test]
fn starting_twice_changes_nothing() {
    let mut inner = started(5);
    assert!(matches!(
        inner.begin_start(&engine(false)),
        StartDecision::AlreadyActive
    ));
    assert_eq!(inner.status(&engine(true)).since, Some(5));
}

#[test]
fn the_engine_is_run_with_backend_token_and_port() {
    let inner = paired();
    let command = inner.run_command(&engine(true)).ok().unwrap();
    assert_eq!(
        command.args,
        vec![
            "run",
            "--convex",
            "https://example.invalid",
            "--token",
            "test-device-token-secret",
            "--port",
            "1935"
        ]
    );
    assert!(command.ffmpeg_path.is_none());
    assert_eq!(command.engine_path, &PathBuf::from("/app/stub-engine.sh"));
    assert!(inner.run_command(&engine(false)).is_err());

    let mut with_ffmpeg = config(Some("u"));
    with_ffmpeg.ffmpeg_path = Some(PathBuf::from("/app/ffmpeg"));
    let inner = RestreamInner::new(with_ffmpeg, persisted(), &engine(true));
    let command = inner.run_command(&engine(true)).ok().unwrap();
    assert_eq!(command.args[7], "--ffmpeg");
    assert_eq!(command.ffmpeg_path, Some(&PathBuf::from("/app/ffmpeg")));
}

#[test]
fn delays_double_up_to_thirty_seconds() {
    let mut inner = started(0);
    let mut delays = Vec::new();
    for n in 0..7 {
        delays.push(inner.next_restart_delay(n * 700 * SECOND));
    }
    assert_eq!(
        delays,
        vec![Some(1), Some(2), Some(4), Some(8), Some(16), Some(30), Some(30)]
    );
}

#[test]
fn the_sixth_restart_in_ten_minutes_is_not_made() {
    let mut inner = started(0);
    for n in 0..5 {
        assert!(matches!(
            crash(&mut inner, n * SECOND),
            SuperviseAction::Sleep(_)
        ));
    }
    assert_eq!(crash(&mut inner, 600 * SECOND), SuperviseAction::Quit);
    assert!(!inner.supervisor_task);
    let shown = inner.status(&engine(true));
    assert_eq!(shown.status, "errored");
    assert_eq!(
        shown.tail.last().map(String::as_str),
        Some("[supervisor] restream engine exceeded 5 restarts in 10 minutes")
    );
}

#[test]
fn restarts_long_ago_do_not_count() {
    let mut inner = started(0);
    for n in 0..5 {
        crash(&mut inner, n * SECOND);
    }
    assert_eq!(
        crash(&mut inner, 600 * SECOND + 1),
        SuperviseAction::Sleep(30)
    );
    // A clock that is asked out of order counts as no time having passed.
    let mut early = started(0);
    crash(&mut early, 10 * SECOND);
    assert_eq!(crash(&mut early, 0), SuperviseAction::Sleep(2));
}

#[test]
fn an_engine_that_cannot_be_started_again_counts_as_failed() {
    let mut inner = started(0);
    crash(&mut inner, 0);
    inner.supervise(SuperviseEvent::DelayOver, SECOND);
    let action = inner.supervise(
        SuperviseEvent::SpawnFailed("failed to start restream engine: denied".to_string()),
        SECOND,
    );
    assert_eq!(action, SuperviseAction::Sleep(2));
    let tail = inner.status(&engine(true)).tail;
    assert_eq!(
        tail[2..],
        [
            "[supervisor] failed to start restream engine: denied",
            "[supervisor] restream engine was not running",
            "[supervisor] Restarting in 2 second(s)",
        ]
    );
}

#[test]
fn an_engine_that_cannot_be_watched_counts_as_failed() {
    let mut inner = started(0);
    let action = inner.supervise(SuperviseEvent::MonitorFailed("gone".to_string()), 0);
    assert_eq!(action, SuperviseAction::Sleep(1));
    assert_eq!(
        inner.status(&engine(true)).tail[0],
        "[supervisor] failed to monitor restream engine: gone"
    );
}

#[test]
fn a_stop_that_fails_is_an_error() {
    let mut inner = started(0);
    inner.begin_stop();
    inner.finish_stop(&Err("failed to wait for restream engine: x".to_string()));
    let shown = inner.status(&engine(true));
    assert_eq!(shown.status, "errored");
    assert_eq!(
        shown.tail,
        vec!["[supervisor] failed to wait for restream engine: x"]
    );
    assert!(!inner.child && !inner.stopping);

    inner.begin_stop();
    inner.finish_stop(&Ok(()));
    let plan = inner.begin_stop();
    assert!(!plan.child && !plan.task);
    inner.finish_stop(&Ok(()));
    assert_eq!(inner.status(&engine(true)).status, "stopped");
}

#[test]
fn errors_and_ended_tasks_are_noted() {
    let mut inner = started(0);
    inner.set_error("failed to start restream engine: x".to_string());
    assert_eq!(inner.status(&engine(true)).status, "errored");
    inner.clear_supervisor_task();
    assert!(matches!(
        inner.begin_start(&engine(true)),
        StartDecision::Spawn
    ));
}

#[test]
fn the_device_token_is_never_returned() {
    let mut inner = started(0);
    inner.push_tail("[stdout] using test-device-token-secret");
    inner.push_tail("[stdout] ready");
    let shown = inner.status(&engine(true));
    assert_eq!(
        shown.tail,
        vec!["[engine] [redacted token line]", "[stdout] ready"]
    );
    assert!(shown.device_linked);
    let setup = inner.setup(&engine(true));
    assert!(setup.device_linked);
    assert_eq!(setup.org_name.as_deref(), Some("Test Org"));
}

#[test]
fn the_setup_page_is_told_the_fields_for_the_video_program() {
    let setup = paired().setup(&engine(true));
    assert_eq!(setup.server, "rtmp://127.0.0.1:1935/live");
    assert_eq!(setup.stream_key, "ocvoice");
    assert_eq!(setup.status, "stopped");
    assert!(setup.convex_configured);
}

#[test]
fn pairing_makes_starting_possible() {
    let mut inner = RestreamInner::new(
        config(Some("https://example.invalid")),
        PersistedConfig::default(),
        &engine(true),
    );
    assert!(inner.validate_start_config(&engine(true)).is_err());
    inner.record_pairing(
        "https://example.invalid".to_string(),
        &Pairing {
            token: "abc".to_string(),
            org_name: "Org".to_string(),
        },
    );
    assert_eq!(inner.validate_start_config(&engine(true)), Ok(()));
    assert_eq!(inner.persisted.device_token.as_deref(), Some("abc"));
    assert_eq!(
        inner.persisted.convex_site_url.as_deref(),
        Some("https://example.invalid")
    );
    assert_eq!(inner.setup(&engine(true)).org_name.as_deref(), Some("Org"));
}

#[test]
fn an_engine_that_does_not_start_is_told() {
    assert_eq!(
        spawn_failure_message("permission denied"),
        "failed to start restream engine: permission denied"
    );
}
