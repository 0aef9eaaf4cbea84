use synthphone::sample_player::{Keymap, SamplePlayer};

#[test]
fn test_sample_player_basic() {
    const TEST_SAMPLE: [f32; 4] = [0.1, 0.5, 0.9, 0.5];

    let mut player = SamplePlayer::new();
    player.set_sample(&TEST_SAMPLE);
    player.trigger();

    assert!(player.is_playing());
    assert_eq!(player.next_sample(), Some(0.1));
    assert_eq!(player.next_sample(), Some(0.5));
    assert_eq!(player.next_sample(), Some(0.9));
    assert_eq!(player.next_sample(), Some(0.5));
    assert_eq!(player.next_sample(), None); // stops after the sample ends
    assert!(!player.is_playing());
}

#[test]
fn test_sample_player_looping() {
    const TEST_SAMPLE: [f32; 2] = [0.5, 1.0];

    let mut player = SamplePlayer::new();
    player.set_sample(&TEST_SAMPLE);
    player.set_loop(true);
    player.trigger();

    assert_eq!(player.next_sample(), Some(0.5));
    assert_eq!(player.next_sample(), Some(1.0));
    assert_eq!(player.next_sample(), Some(0.5)); // loops back
    assert_eq!(player.next_sample(), Some(1.0));
    assert!(player.is_playing()); // still playing
}

#[test]
fn test_keymap_basic() {
    const SAMPLE1: [f32; 2] = [0.1, 0.2];
    const SAMPLE2: [f32; 2] = [0.3, 0.4];

    let mut keymap: Keymap<&'static [f32]> = Keymap::new();
    keymap.set_key(60, &SAMPLE1, false);
    keymap.set_key(61, &SAMPLE2, true);

    assert!(keymap.has_key(60));
    assert!(keymap.has_key(61));
    assert!(!keymap.has_key(62));

    let (sample, looping) = keymap.get_key(60).unwrap();
    assert_eq!(sample.len(), 2);
    assert!(!looping);

    let (sample, looping) = keymap.get_key(61).unwrap();
    assert_eq!(sample.len(), 2);
    assert!(looping);
}

#[test]
fn test_keymap_clear() {
    const SAMPLE: [f32; 2] = [0.1, 0.2];

    let mut keymap: Keymap<&'static [f32]> = Keymap::new();
    keymap.set_key(60, &SAMPLE, false);
    assert!(keymap.has_key(60));

    keymap.clear_key(60);
    assert!(!keymap.has_key(60));
}

#[test]
fn player_without_sample_stays_silent() {
    let mut player: SamplePlayer<i16> = SamplePlayer::default();
    player.trigger();
    assert!(!player.is_playing());
    assert_eq!(player.next_sample(), None);
}

#[test]
fn stop_rewinds_the_player() {
    const SAMPLE: [i16; 3] = [7, 8, 9];
    let mut player = SamplePlayer::new();
    player.set_sample(&SAMPLE);
    player.trigger();
    assert_eq!(player.next_sample(), Some(7));
    player.stop();
    assert!(!player.is_playing());
    assert_eq!(player.next_sample(), None);
    player.trigger();
    assert_eq!(player.next_sample(), Some(7));
}

#[test]
fn keys_from_128_are_ignored() {
    const SAMPLE: [i16; 1] = [1];
    let mut keymap: Keymap<&'static [i16]> = Keymap::default();
    keymap.set_key(128, &SAMPLE, true);
    assert!(!keymap.has_key(128));
    assert_eq!(keymap.get_key(128), None);
    keymap.set_key(127, &SAMPLE, true);
    assert_eq!(keymap.get_key(127), Some((&SAMPLE[..], true)));
    assert!(!keymap.has_key(126));
}
