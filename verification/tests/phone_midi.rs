use synthphone::phone_midi::{
    describe_midi_message, note_to_name, note_to_octave, MidiMessage, MidiParser,
};

fn feed(p: &mut MidiParser, bytes: &[u8]) -> Vec<Option<MidiMessage>> {
    bytes.iter().map(|&b| p.process_byte(b)).collect()
}

#[test]
fn note_on_is_parsed() {
    let mut p = MidiParser::new();
    let out = feed(&mut p, &[0x91, 60, 100]);
    assert_eq!(
        out,
        vec![None, None, Some(MidiMessage::NoteOn { channel: 1, note: 60, velocity: 100 })]
    );
}

#[test]
fn parser_note_on_with_zero_velocity_is_note_off() {
    let mut p = MidiParser::new();
    let out = feed(&mut p, &[0x90, 64, 0]);
    assert_eq!(out[2], Some(MidiMessage::NoteOff { channel: 0, note: 64, velocity: 0 }));
}

#[test]
fn note_off_is_parsed() {
    let mut p = MidiParser::new();
    let out = feed(&mut p, &[0x8F, 72, 40]);
    assert_eq!(out[2], Some(MidiMessage::NoteOff { channel: 15, note: 72, velocity: 40 }));
}

#[test]
fn no_running_status() {
    let mut p = MidiParser::new();
    let out = feed(&mut p, &[0x90, 60, 100, 62, 100]);
    assert!(out[2].is_some());
    assert_eq!(out[3], None);
    assert_eq!(out[4], None);
}

#[test]
fn other_messages_are_skipped() {
    let mut p = MidiParser::new();
    let out = feed(&mut p, &[0xB0, 7, 100, 0x90, 60, 1]);
    assert_eq!(&out[..5], &[None, None, None, None, None]);
    assert_eq!(out[5], Some(MidiMessage::NoteOn { channel: 0, note: 60, velocity: 1 }));
}

#[test]
fn stray_data_bytes_are_ignored() {
    let mut p = MidiParser::new();
    let out = feed(&mut p, &[60, 100, 0x90, 61, 0x92, 62, 90]);
    assert_eq!(out[6], Some(MidiMessage::NoteOn { channel: 2, note: 62, velocity: 90 }));
    assert!(out[..6].iter().all(|o| o.is_none()));
}

#[test]
fn note_names_and_octaves() {
    assert_eq!(note_to_name(60), "C");
    assert_eq!(note_to_octave(60), 4);
    assert_eq!(note_to_name(69), "A");
    assert_eq!(note_to_octave(69), 4);
    assert_eq!(note_to_name(61), "C#");
    assert_eq!(note_to_name(0), "C");
    assert_eq!(note_to_octave(0), -1);
    assert_eq!(note_to_name(127), "G");
    assert_eq!(note_to_octave(127), 9);
    assert_eq!(note_to_name(71), "B");
}

#[test]
fn log_entries() {
    let e = describe_midi_message(MidiMessage::NoteOn { channel: 0, note: 61, velocity: 99 })
        .unwrap();
    assert!(e.note_on);
    assert_eq!(e.note_name, "C#");
    assert_eq!(e.octave, 4);
    assert_eq!(e.channel_number, 1);
    assert_eq!(e.note, 61);
    assert_eq!(e.velocity, 99);
    let e = describe_midi_message(MidiMessage::NoteOff { channel: 9, note: 45, velocity: 0 })
        .unwrap();
    assert!(!e.note_on);
    assert_eq!(e.note_name, "A");
    assert_eq!(e.octave, 2);
    assert_eq!(e.channel_number, 10);
    assert_eq!(describe_midi_message(MidiMessage::Unknown), None);
}
