use ocvoice_audio_router::engine_stop::{stop_child, StopAction, StopEvent};

fn message(event: StopEvent) -> String {
    match stop_child(event) {
        StopAction::Done(Err(message)) => message,
        _ => String::new(),
    }
}

#[test]
fn a_stop_begins_as_the_system_allows() {
    let begin = |signals, has_pid| stop_child(StopEvent::Begin { signals, has_pid });
    assert!(matches!(begin(true, true), StopAction::SendSignal));
    assert!(matches!(begin(true, false), StopAction::Wait));
    assert!(matches!(begin(false, true), StopAction::Kill));
}

#[test]
fn an_engine_that_listens_is_not_killed() {
    assert!(matches!(
        stop_child(StopEvent::SignalSent(true)),
        StopAction::Wait
    ));
    assert!(matches!(
        stop_child(StopEvent::Exited),
        StopAction::Done(Ok(()))
    ));
}

#[test]
fn an_engine_that_does_not_end_is_forced_to() {
    assert!(matches!(
        stop_child(StopEvent::SignalSent(false)),
        StopAction::Kill
    ));
    assert!(matches!(
        stop_child(StopEvent::Killed(Ok(()))),
        StopAction::Wait
    ));
    assert!(matches!(
        stop_child(StopEvent::GraceOver),
        StopAction::ForceKill
    ));
    assert!(matches!(
        stop_child(StopEvent::ForceKilled(Ok(()))),
        StopAction::Reap
    ));
    assert!(matches!(
        stop_child(StopEvent::Reaped(Ok(()))),
        StopAction::Done(Ok(()))
    ));
}

#[test]
fn every_failure_has_its_message() {
    let error = || "denied".to_string();
    assert_eq!(
        message(StopEvent::Killed(Err(error()))),
        "failed to kill restream engine: denied"
    );
    assert_eq!(
        message(StopEvent::WaitFailed(error())),
        "failed to wait for restream engine: denied"
    );
    assert_eq!(
        message(StopEvent::ForceKilled(Err(error()))),
        "failed to force-kill restream engine: denied"
    );
    assert_eq!(
        message(StopEvent::Reaped(Err(error()))),
        "failed to reap restream engine: denied"
    );
}
