use ocvoice_audio_router::decoder::{
    decoder_failure, probe_failure, stereo, DecodeAction, DecodeEvent, TrackSamples,
};

fn track() -> TrackSamples<f32> {
    TrackSamples::begin(Some(1)).ok().unwrap()
}

#[test]
fn a_stream_needs_a_default_track() {
    let missing: Result<TrackSamples<f32>, String> = TrackSamples::begin(None);
    assert_eq!(missing.err().as_deref(), Some("No default track"));
    assert!(track().samples.is_empty());
}

#[test]
fn packets_of_the_track_are_put_together_in_order() {
    let mut track = track();
    assert!(matches!(
        track.step(DecodeEvent::Packet(1)),
        DecodeAction::DecodePacket
    ));
    assert!(matches!(
        track.step(DecodeEvent::Samples {
            samples: vec![0.5, -0.5],
            channels: 2
        }),
        DecodeAction::NextPacket
    ));
    assert!(matches!(
        track.step(DecodeEvent::Packet(2)),
        DecodeAction::NextPacket
    ));
    assert!(matches!(
        track.step(DecodeEvent::Packet(1)),
        DecodeAction::DecodePacket
    ));
    assert!(matches!(
        track.step(DecodeEvent::Samples {
            samples: vec![0.25],
            channels: 2
        }),
        DecodeAction::NextPacket
    ));
    assert!(matches!(
        track.step(DecodeEvent::EndOfStream),
        DecodeAction::Finish
    ));
    assert_eq!(track.samples, vec![0.5, -0.5, 0.25]);
}

#[test]
fn failures_end_decoding() {
    let message = |event| match track().step(event) {
        DecodeAction::Fail(message) => message,
        _ => String::new(),
    };
    assert_eq!(
        message(DecodeEvent::ReadFailed("x".to_string())),
        "Packet read error: x"
    );
    assert_eq!(
        message(DecodeEvent::DecodeFailed("x".to_string())),
        "Decode error: x"
    );
    assert_eq!(probe_failure("x"), "Probe failed: x");
    assert_eq!(decoder_failure("x"), "Decoder init failed: x");
}

#[test]
fn a_single_channel_is_played_left_and_right() {
    assert_eq!(stereo(vec![1, 2, 3], 1), vec![1, 1, 2, 2, 3, 3]);
    assert_eq!(stereo(vec![1, 2, 3, 4], 2), vec![1, 2, 3, 4]);
    assert_eq!(stereo(Vec::<u8>::new(), 1), Vec::<u8>::new());

    let mut track = track();
    for samples in [vec![0.5, 0.25], vec![-1.0]] {
        track.step(DecodeEvent::Packet(1));
        track.step(DecodeEvent::Samples {
            samples,
            channels: 1,
        });
    }
    assert_eq!(track.samples, vec![0.5, 0.5, 0.25, 0.25, -1.0, -1.0]);
}
