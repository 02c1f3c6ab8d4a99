use ocvoice_audio_router::autostart::{
    autostart_message, autostart_plan, autostart_step, AutostartAction, AutostartEvent,
    AutostartOutcome, AutostartPlan,
};
use ocvoice_audio_router::config::Platform;

#[test]
fn macos_gets_a_launch_agent() {
    match autostart_plan(Platform::Macos, "/Users/me", "/Applications/router") {
        AutostartPlan::LaunchAgent {
            directory,
            file,
            contents,
        } => {
            assert_eq!(directory, "/Users/me/Library/LaunchAgents");
            assert_eq!(
                file,
                "/Users/me/Library/LaunchAgents/dk.ocplan.audio-router.plist"
            );
            let expected = r#"<?xml version="1.0" encoding="UTF-8"?>
<!DOCTYPE plist PUBLIC "-//Apple//DTD PLIST 1.0//EN" "http://www.apple.com/DTDs/PropertyList-1.0.dtd">
<plist version="1.0">
<dict>
    <key>Label</key>
    <string>dk.ocplan.audio-router</string>
    <key>ProgramArguments</key>
    <array>
        <string>/Applications/router</string>
    </array>
    <key>RunAtLoad</key>
    <true/>
    <key>KeepAlive</key>
    <false/>
    <key>StandardOutPath</key>
    <string>/Users/me/Library/Logs/ocvoice-audio-router.log</string>
    <key>StandardErrorPath</key>
    <string>/Users/me/Library/Logs/ocvoice-audio-router.log</string>
</dict>
</plist>"#;
            assert_eq!(contents, expected);
        }
        _ => panic!("not a launch agent"),
    }
}

#[test]
fn windows_gets_a_registry_value() {
    match autostart_plan(Platform::Windows, "", "C:\\router.exe") {
        AutostartPlan::Registry { query, add } => {
            let key = r"HKCU\Software\Microsoft\Windows\CurrentVersion\Run";
            assert_eq!(query, vec!["query", key, "/v", "OCvoiceAudioRouter"]);
            assert_eq!(
                add,
                vec![
                    "add",
                    key,
                    "/v",
                    "OCvoiceAudioRouter",
                    "/t",
                    "REG_SZ",
                    "/d",
                    "C:\\router.exe",
                    "/f"
                ]
            );
        }
        _ => panic!("not a registry value"),
    }
}

#[test]
fn other_systems_are_not_supported() {
    assert!(matches!(
        autostart_plan(Platform::Other, "/h", "/p"),
        AutostartPlan::Unsupported
    ));
}

#[test]
fn outcomes_have_their_messages() {
    let error = || "denied".to_string();
    for (outcome, message) in [
        (
            AutostartOutcome::AlreadyConfigured,
            "  Auto-start: already configured",
        ),
        (
            AutostartOutcome::Installed,
            "  Auto-start: installed (will start on login)",
        ),
        (
            AutostartOutcome::AgentNotWritten(error()),
            "  Auto-start: failed to write plist: denied",
        ),
        (
            AutostartOutcome::RegistryNotWritten(error()),
            "  Auto-start: registry write failed: denied",
        ),
        (
            AutostartOutcome::RegistryNotRun(error()),
            "  Auto-start: failed: denied",
        ),
        (
            AutostartOutcome::Unsupported,
            "  Auto-start: not supported on this platform",
        ),
    ] {
        assert_eq!(autostart_message(&outcome), message);
    }
}

fn done(event: AutostartEvent) -> String {
    match autostart_step(true, event) {
        AutostartAction::Done(outcome) => autostart_message(&outcome),
        _ => String::new(),
    }
}

#[test]
fn an_existing_entry_is_left_alone() {
    assert!(matches!(
        autostart_step(true, AutostartEvent::Begin),
        AutostartAction::Look
    ));
    assert!(matches!(
        autostart_step(true, AutostartEvent::Looked { present: true }),
        AutostartAction::Done(AutostartOutcome::AlreadyConfigured)
    ));
    assert!(matches!(
        autostart_step(true, AutostartEvent::Looked { present: false }),
        AutostartAction::Install
    ));
    assert!(matches!(
        autostart_step(false, AutostartEvent::Begin),
        AutostartAction::Done(AutostartOutcome::Unsupported)
    ));
}

#[test]
fn installations_have_their_outcomes() {
    let error = || "denied".to_string();
    let installed = "  Auto-start: installed (will start on login)";
    assert_eq!(done(AutostartEvent::Written(Ok(()))), installed);
    assert_eq!(done(AutostartEvent::Added(Ok(Ok(())))), installed);
    assert_eq!(
        done(AutostartEvent::Written(Err(error()))),
        "  Auto-start: failed to write plist: denied"
    );
    assert_eq!(
        done(AutostartEvent::Added(Ok(Err(error())))),
        "  Auto-start: registry write failed: denied"
    );
    assert_eq!(
        done(AutostartEvent::Added(Err(error()))),
        "  Auto-start: failed: denied"
    );
}
