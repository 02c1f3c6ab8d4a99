use ocvoice_audio_router::playback::{
    choose_output, clip_duration_ms, describe_device, listing_failure_message, needed_channels,
    plan_output, play_answer, playing_message, stop_answer, stream_error_message, OutputConfig, PlayError, StreamError,
};

fn offer(channels: u16, max_sample_rate: u32) -> OutputConfig {
    OutputConfig {
        channels,
        max_sample_rate,
    }
}

#[test]
fn devices_are_listed_with_their_most_channels() {
    let known = describe_device(3, Some("USB".to_string()), &vec![2, 8, 4]);
    assert_eq!(
        (known.index, known.name.as_str(), known.max_channels),
        (3, "USB", 8)
    );
    let unknown = describe_device(12, None, &Vec::new());
    assert_eq!((unknown.name.as_str(), unknown.max_channels), ("Device 12", 0));
}

#[test]
fn a_pair_needs_its_channels_and_those_before() {
    assert_eq!(needed_channels(0), 2);
    assert_eq!(needed_channels(3), 8);
    assert_eq!(needed_channels(32_766), 65_534);
    assert_eq!(needed_channels(32_767), 0);
}

#[test]
fn the_last_of_the_largest_configurations_is_chosen() {
    let configs = vec![
        offer(2, 192_000),
        offer(8, 44_100),
        offer(4, 96_000),
        offer(8, 48_000),
    ];
    assert_eq!(choose_output(&configs, 4), Some(offer(8, 48_000)));
    assert_eq!(choose_output(&configs, 8), Some(offer(8, 48_000)));
    assert_eq!(choose_output(&configs, 9), None);
    assert_eq!(choose_output(&Vec::new(), 0), None);
}

#[test]
fn a_device_with_too_few_channels_is_refused() {
    let configs = vec![offer(2, 48_000)];
    assert_eq!(
        plan_output("USB".to_string(), 0, &configs).ok(),
        Some(offer(2, 48_000))
    );
    let error = plan_output("USB".to_string(), 1, &configs).unwrap_err();
    assert_eq!(error.status(), 400);
    assert_eq!(
        error.message(),
        "Device 'USB' doesn't support 4 channels (need pair 1)"
    );
}

#[test]
fn durations_are_whole_milliseconds() {
    assert_eq!(clip_duration_ms(96_000, 48_000), 1_000);
    assert_eq!(clip_duration_ms(96_001, 48_000), 1_000);
    assert_eq!(clip_duration_ms(100, 44_100), 1);
    assert_eq!(clip_duration_ms(0, 44_100), 0);
}

#[test]
fn failures_have_status_and_message() {
    let e = || "x".to_string();
    for (error, status, message) in [
        (PlayError::Enumerate(e()), 500, "Enumerate failed: x"),
        (PlayError::NoDevice(7), 400, "Device 7 not found"),
        (PlayError::NoConfigs(e()), 500, "No output configs: x"),
        (PlayError::Fetch(e()), 400, "Fetch failed: x"),
        (PlayError::ReadBytes(e()), 400, "Read bytes failed: x"),
        (PlayError::Decode(e()), 500, "Decode: x"),
        (PlayError::NoAudioThread, 500, "Audio thread not running"),
        (PlayError::Rejected(e()), 500, "x"),
        (PlayError::NoReply, 500, "Audio thread dropped reply"),
    ] {
        assert_eq!(error.status(), status);
        assert_eq!(error.message(), message);
    }
}

#[test]
fn streams_that_do_not_open_have_their_message() {
    let e = || "x".to_string();
    for (error, message) in [
        (StreamError::Enumerate(e()), "Enumerate failed: x"),
        (StreamError::NoDevice(2), "Device 2 not found"),
        (StreamError::Build(e()), "Build stream failed: x"),
        (StreamError::Play(e()), "Play failed: x"),
    ] {
        assert_eq!(stream_error_message(&error), message);
    }
}

#[test]
fn answers_follow_the_audio_thread() {
    let played = play_answer(Some(Ok(250))).ok().unwrap();
    assert!(played.ok && played.error.is_none());
    assert_eq!(played.duration_ms, Some(250));
    let rejected = play_answer(Some(Err("no stream".to_string()))).unwrap_err();
    assert_eq!(rejected.message(), "no stream");
    assert_eq!(
        play_answer(None).unwrap_err().message(),
        "Audio thread dropped reply"
    );
    let stopped = stop_answer(true).ok().unwrap();
    assert!(stopped.ok && stopped.duration_ms.is_none() && stopped.error.is_none());
    assert_eq!(
        stop_answer(false).unwrap_err().message(),
        "Audio thread not running"
    );
}

#[test]
fn playing_is_logged_with_channels_from_one() {
    assert_eq!(
        playing_message("USB", 1, 250),
        "[AudioRouter] Playing on 'USB' ch 3-4 (pair 1) duration 250ms"
    );
}

#[test]
fn devices_that_cannot_be_listed_are_told() {
    assert_eq!(
        listing_failure_message("no host"),
        "Failed to enumerate devices: no host"
    );
}
