use ocvoice_audio_router::mixer::DeviceMixer;

#[test]
fn a_clip_is_interleaved_onto_its_pair() {
    let mut mixer: DeviceMixer<f32> = DeviceMixer::new();
    mixer.insert(1, vec![0.1, 0.2, 0.3]);
    let mut data = [9.0f32; 13];
    mixer.render(4, &mut data, 0.0);
    assert_eq!(
        data,
        [0.0, 0.0, 0.1, 0.2, 0.0, 0.0, 0.3, 0.3, 0.0, 0.0, 0.0, 0.0, 0.0]
    );
    assert!(mixer.pairs.is_empty());
}

#[test]
fn pairs_are_mixed_side_by_side() {
    let mut mixer: DeviceMixer<i32> = DeviceMixer::new();
    mixer.insert(0, vec![1, 2, 3, 4]);
    mixer.insert(1, vec![5, 6]);
    let mut data = [0; 8];
    mixer.render(4, &mut data, 0);
    assert_eq!(data, [1, 2, 5, 6, 3, 4, 0, 0]);
}

#[test]
fn a_clip_that_is_not_over_moves_on() {
    let mut mixer: DeviceMixer<i32> = DeviceMixer::new();
    mixer.insert(0, vec![1, 2, 3, 4, 5]);
    let mut data = [0; 4];
    mixer.render(2, &mut data, 0);
    assert_eq!(data, [1, 2, 3, 4]);
    assert_eq!(mixer.pairs.get(&0).map(|clip| clip.position), Some(4));
    mixer.render(2, &mut data, 0);
    assert_eq!(data, [5, 5, 0, 0]);
    assert!(mixer.pairs.get(&0).is_none());
}

#[test]
fn two_buffers_sound_like_one() {
    let clip: Vec<i32> = (1..=7).collect();
    let mut whole: DeviceMixer<i32> = DeviceMixer::new();
    whole.insert(1, clip.clone());
    let mut all = [0; 20];
    whole.render(4, &mut all, 0);

    let mut parts: DeviceMixer<i32> = DeviceMixer::new();
    parts.insert(1, clip);
    let mut first = [0; 8];
    let mut second = [0; 12];
    parts.render(4, &mut first, 0);
    parts.render(4, &mut second, 0);
    let mut joined = first.to_vec();
    joined.extend(second);
    assert_eq!(all.to_vec(), joined);
}

#[test]
fn a_pair_beyond_the_last_channel_waits() {
    let mut mixer: DeviceMixer<i32> = DeviceMixer::new();
    mixer.insert(1, vec![1, 2]);
    let mut data = [7; 6];
    mixer.render(3, &mut data, 0);
    assert_eq!(data, [0; 6]);
    assert_eq!(mixer.pairs.get(&1).map(|clip| clip.position), Some(0));
}

#[test]
fn an_empty_clip_ends_at_once() {
    let mut mixer: DeviceMixer<i32> = DeviceMixer::new();
    mixer.insert(0, Vec::new());
    let mut data: [i32; 0] = [];
    mixer.render(2, &mut data, 0);
    assert!(mixer.pairs.is_empty());
}

#[test]
fn inserting_replaces_and_removing_reports_emptiness() {
    let mut mixer: DeviceMixer<i32> = DeviceMixer::new();
    mixer.insert(0, vec![1, 1]);
    mixer.insert(0, vec![2, 2]);
    mixer.insert(3, vec![3, 3]);
    let mut data = [0; 2];
    mixer.render(2, &mut data, 0);
    assert_eq!(data, [2, 2]);
    assert!(mixer.remove(3));
    assert!(mixer.remove(3));
}
