use synthphone::voice_generator::{
    is_sound_only_channel, HybridVoice, VoiceManager, VoiceTypeId, DRUM_CHANNEL,
    VOICE_CTRL_CHANNEL,
};

#[test]
fn fresh_voice_is_free_synth() {
    let v = HybridVoice::new();
    assert!(v.is_free());
    assert_eq!(v.type_id(), VoiceTypeId::Synth);
    assert_eq!(v.velocity(), 0);
    assert_eq!(v.note(), None);
}

#[test]
fn voice_note_on_and_off() {
    let mut v = HybridVoice::new();
    v.note_on(60, 100, 3);
    assert!(v.is_playing(60, 3));
    assert!(!v.is_playing(60, 4));
    assert_eq!(v.type_id(), VoiceTypeId::Synth);
    assert_eq!(v.channel(), 3);
    v.note_off();
    assert!(v.is_free());
    assert_eq!(v.velocity(), 0);
}

#[test]
fn drum_channel_voice_becomes_drum_and_sounds() {
    let mut v = HybridVoice::new();
    v.note_on(36, 127, DRUM_CHANNEL);
    assert_eq!(v.type_id(), VoiceTypeId::Drum);
    // the kick's first sample
    assert_eq!(v.next_drum_value(), 31996);
}

#[test]
fn drum_voice_releases_itself() {
    let mut v = HybridVoice::new();
    v.note_on(42, 90, DRUM_CHANNEL);
    let mut n = 0;
    while !v.is_free() {
        v.next_drum_value();
        n += 1;
        assert!(n <= 7200);
    }
    assert_eq!(v.next_drum_value(), 0);
}

#[test]
fn silent_voice_gives_zero() {
    let mut v = HybridVoice::new();
    assert_eq!(v.next_drum_value(), 0);
}

#[test]
fn sound_only_channels() {
    assert!(is_sound_only_channel(1));
    assert!(is_sound_only_channel(2));
    assert!(is_sound_only_channel(9));
    assert!(!is_sound_only_channel(0));
    assert!(!is_sound_only_channel(3));
}

#[test]
fn manager_starts_free() {
    let m = VoiceManager::new(4);
    assert_eq!(m.voice_count(), 4);
    assert_eq!(m.pitch_bend(), 8192);
    for i in 0..4 {
        assert!(m.voice(i).is_free());
    }
    assert!(m.effects_pitches().is_empty());
}

#[test]
fn note_on_takes_first_free_voice() {
    let mut m = VoiceManager::new(3);
    assert_eq!(m.note_on(60, 100, 3), Some(0));
    assert_eq!(m.note_on(64, 100, 3), Some(1));
    assert!(m.voice(0).is_playing(60, 3));
    assert!(m.voice(1).is_playing(64, 3));
    assert!(m.voice(2).is_free());
}

#[test]
fn retrigger_reuses_the_same_voice() {
    let mut m = VoiceManager::new(3);
    m.note_on(60, 100, 3);
    m.note_on(64, 100, 3);
    assert_eq!(m.note_on(60, 50, 3), Some(0));
    assert_eq!(m.voice(0).velocity(), 50);
    assert!(m.voice(2).is_free());
}

#[test]
fn full_manager_steals_voice_zero() {
    let mut m = VoiceManager::new(2);
    m.note_on(60, 100, 3);
    m.note_on(62, 100, 3);
    assert_eq!(m.note_on(64, 100, 3), Some(0));
    assert!(m.voice(0).is_playing(64, 3));
    assert!(m.voice(1).is_playing(62, 3));
}

#[test]
fn note_off_frees_the_voice() {
    let mut m = VoiceManager::new(2);
    m.note_on(60, 100, 3);
    m.note_off(60, 3);
    assert!(m.voice(0).is_free());
    assert!(m.effects_pitches().is_empty());
}

#[test]
fn note_off_on_other_channel_is_ignored() {
    let mut m = VoiceManager::new(2);
    m.note_on(60, 100, 3);
    m.note_off(60, 4);
    assert!(m.voice(0).is_playing(60, 3));
}

#[test]
fn drum_channel_ignores_note_off() {
    let mut m = VoiceManager::new(2);
    m.note_on(36, 100, DRUM_CHANNEL);
    m.note_off(36, DRUM_CHANNEL);
    assert!(m.voice(0).is_playing(36, DRUM_CHANNEL));
    assert_eq!(m.voice(0).type_id(), VoiceTypeId::Drum);
}

#[test]
fn control_channel_notes_feed_effects_only() {
    let mut m = VoiceManager::new(2);
    assert_eq!(m.note_on(57, 100, VOICE_CTRL_CHANNEL), None);
    assert!(m.voice(0).is_free());
    assert_eq!(m.effects_pitches(), vec![(57, None)]);
    m.note_off(57, VOICE_CTRL_CHANNEL);
    assert!(m.effects_pitches().is_empty());
}

#[test]
fn effects_pitches_voices_then_control_notes_limited() {
    let mut m = VoiceManager::new(2);
    m.note_on(60, 100, 3);
    m.note_on(50, 100, VOICE_CTRL_CHANNEL);
    assert_eq!(m.effects_pitches(), vec![(60, Some(8192)), (50, None)]);
    m.note_on(62, 100, 3);
    // at most one pitch per voice
    assert_eq!(m.effects_pitches(), vec![(60, Some(8192)), (62, Some(8192))]);
}

#[test]
fn sound_only_channel_notes_do_not_steer_effects() {
    let mut m = VoiceManager::new(2);
    m.note_on(60, 100, 1);
    assert!(m.voice(0).is_playing(60, 1));
    assert!(m.effects_pitches().is_empty());
}

#[test]
fn pitch_bend_recaches_playing_voices() {
    let mut m = VoiceManager::new(2);
    m.note_on(60, 100, 3);
    m.apply_pitch_bend(10000);
    assert_eq!(m.pitch_bend(), 10000);
    assert_eq!(m.effects_pitches(), vec![(60, Some(10000))]);
    m.note_on(64, 100, 3);
    assert_eq!(m.effects_pitches(), vec![(60, Some(10000)), (64, Some(10000))]);
}

#[test]
fn all_notes_off_on_one_channel() {
    let mut m = VoiceManager::new(3);
    m.note_on(60, 100, 3);
    m.note_on(61, 100, 4);
    m.note_on(50, 100, VOICE_CTRL_CHANNEL);
    m.all_notes_off(Some(3));
    assert!(m.voice(0).is_free());
    assert!(m.voice(1).is_playing(61, 4));
    assert_eq!(m.effects_pitches(), vec![(61, Some(8192)), (50, None)]);
}

#[test]
fn all_notes_off_control_channel_keeps_voices() {
    let mut m = VoiceManager::new(2);
    m.note_on(60, 100, 3);
    m.note_on(50, 100, VOICE_CTRL_CHANNEL);
    m.all_notes_off(Some(VOICE_CTRL_CHANNEL));
    assert!(m.voice(0).is_playing(60, 3));
    assert_eq!(m.effects_pitches(), vec![(60, Some(8192))]);
}

#[test]
fn all_notes_off_everywhere() {
    let mut m = VoiceManager::new(2);
    m.note_on(60, 100, 3);
    m.note_on(50, 100, VOICE_CTRL_CHANNEL);
    m.all_notes_off(None);
    assert!(m.voice(0).is_free());
    assert!(m.voice(1).is_free());
    assert!(m.effects_pitches().is_empty());
}

#[test]
fn manager_drum_voice_runs_down() {
    let mut m = VoiceManager::new(2);
    let i = m.note_on(38, 100, DRUM_CHANNEL).unwrap();
    let mut n = 0;
    while !m.voice(i).is_free() {
        m.next_drum_value(i);
        n += 1;
        assert!(n <= 7200);
    }
    assert_eq!(m.next_drum_value(i), 0);
}
