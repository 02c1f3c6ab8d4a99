use ocvoice_audio_router::router::AudioRouter;

fn start(router: &mut AudioRouter<i32>, device: usize, pair: usize, clip: Vec<i32>) {
    if router.prepare(device, 4, 48_000) {
        router.stream_opened(device, 4, 48_000);
    }
    assert_eq!(router.play(device, pair, clip, 12), Ok(12));
}

#[test]
fn one_stream_serves_all_pairs_of_a_device() {
    let mut router: AudioRouter<i32> = AudioRouter::new();
    assert!(router.prepare(2, 4, 48_000));
    router.stream_opened(2, 4, 48_000);
    assert!(!router.prepare(2, 4, 48_000));
    start(&mut router, 2, 0, vec![1, 2]);
    start(&mut router, 2, 1, vec![3, 4]);
    let mut data = [0; 4];
    router.render(2, &mut data, 0);
    assert_eq!(data, [1, 2, 3, 4]);
}

#[test]
fn another_configuration_needs_a_new_stream() {
    let mut router: AudioRouter<i32> = AudioRouter::new();
    start(&mut router, 0, 0, vec![1, 2]);
    assert!(router.prepare(0, 4, 44_100));
    assert!(router.devices.is_empty());
    start(&mut router, 0, 0, vec![1, 2]);
    assert!(router.prepare(0, 8, 48_000));
}

#[test]
fn playing_without_a_stream_is_refused() {
    let mut router: AudioRouter<i32> = AudioRouter::new();
    assert_eq!(
        router.play(1, 0, vec![1], 5),
        Err("Device state missing".to_string())
    );
    assert!(router.devices.is_empty());
}

#[test]
fn stopping_the_last_pair_gives_the_device_up() {
    let mut router: AudioRouter<i32> = AudioRouter::new();
    start(&mut router, 0, 0, vec![1, 2]);
    start(&mut router, 0, 1, vec![3, 4]);
    assert!(!router.stop(0, Some(0)));
    let mut data = [9; 4];
    router.render(0, &mut data, 0);
    assert_eq!(data, [0, 0, 3, 4]);
    start(&mut router, 0, 1, vec![3, 4]);
    assert!(router.stop(0, Some(1)));
    assert!(router.devices.is_empty());
    assert!(!router.stop(0, Some(1)));
}

#[test]
fn stopping_a_device_silences_it_and_no_other() {
    let mut router: AudioRouter<i32> = AudioRouter::new();
    start(&mut router, 0, 0, vec![1, 2]);
    start(&mut router, 5, 0, vec![3, 4]);
    assert!(router.stop(0, None));
    assert!(!router.stop(0, None));
    let mut data = [9; 4];
    router.render(0, &mut data, 0);
    assert_eq!(data, [0; 4]);
    router.render(5, &mut data, 0);
    assert_eq!(data, [3, 4, 0, 0]);
}
