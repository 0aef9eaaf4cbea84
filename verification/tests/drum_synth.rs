use synthphone::drum_synth::{midi_note_to_drum_type, DrumSampler, DrumType};

#[test]
fn fresh_sampler_is_silent() {
    let mut d = DrumSampler::new();
    assert!(d.is_finished());
    assert_eq!(d.next_value_fixed(), 0);
}

#[test]
fn kick_first_sample() {
    let mut d = DrumSampler::new();
    d.set_drum_type(DrumType::Kick);
    d.trigger();
    assert!(!d.is_finished());
    // square 32000 under an envelope of 65529/65536
    assert_eq!(d.next_value_fixed(), 31996);
}

#[test]
fn hihat_first_sample_is_noise() {
    let mut d = DrumSampler::default();
    d.set_drum_type(DrumType::HiHat);
    d.trigger();
    assert_eq!(d.next_value_fixed(), 17595);
}

#[test]
fn tom_uses_pitch_and_triangle() {
    let mut d = DrumSampler::new();
    d.set_drum_type(DrumType::Tom);
    d.set_pitch(99); // default pitch
    d.trigger();
    assert_eq!(d.next_value_fixed(), -32429);
}

#[test]
fn drum_runs_down_within_its_length() {
    for t in [
        DrumType::Kick,
        DrumType::Snare,
        DrumType::HiHat,
        DrumType::Tom,
        DrumType::Clap,
        DrumType::Cymbal,
    ] {
        let mut d = DrumSampler::new();
        d.set_drum_type(t);
        d.trigger();
        let mut n = 0;
        while !d.is_finished() {
            let v = d.next_value_fixed();
            assert!((-32768..=32767).contains(&v));
            n += 1;
        }
        assert!(n <= 7200);
        assert_eq!(d.next_value_fixed(), 0);
    }
}

#[test]
fn retrigger_restarts() {
    let mut d = DrumSampler::new();
    d.set_drum_type(DrumType::Kick);
    d.trigger();
    let first = d.next_value_fixed();
    d.next_value_fixed();
    d.trigger();
    assert_eq!(d.next_value_fixed(), first);
}

#[test]
fn gm_drum_note_map() {
    assert_eq!(midi_note_to_drum_type(36), Some(DrumType::Kick));
    assert_eq!(midi_note_to_drum_type(40), Some(DrumType::Snare));
    assert_eq!(midi_note_to_drum_type(46), Some(DrumType::HiHat));
    assert_eq!(midi_note_to_drum_type(48), Some(DrumType::Tom));
    assert_eq!(midi_note_to_drum_type(39), Some(DrumType::Clap));
    assert_eq!(midi_note_to_drum_type(57), Some(DrumType::Cymbal));
    assert_eq!(midi_note_to_drum_type(60), None);
}
