use heapless::spsc::Queue;
use synthphone::midi::{get_midi_queue_status, try_enqueue_midi_event, MidiEvent, MidiReceiver};

fn feed(rx: &mut MidiReceiver, bytes: &[u8]) -> Vec<Option<MidiEvent>> {
    bytes.iter().map(|&b| rx.receive_byte(b)).collect()
}

#[test]
fn note_on_message_is_decoded() {
    let mut rx = MidiReceiver::new();
    let out = feed(&mut rx, &[0x93, 60, 100]);
    assert_eq!(
        out,
        vec![None, None, Some(MidiEvent::NoteOn { channel: 3, key: 60, velocity: 100 })]
    );
}

#[test]
fn note_on_with_zero_velocity_is_note_off() {
    let mut rx = MidiReceiver::new();
    let out = feed(&mut rx, &[0x90, 64, 0]);
    assert_eq!(out[2], Some(MidiEvent::NoteOff { channel: 0, key: 64, velocity: 0 }));
}

#[test]
fn running_status_reuses_previous_status() {
    let mut rx = MidiReceiver::new();
    let out = feed(&mut rx, &[0x99, 36, 90, 38, 80]);
    assert_eq!(out[2], Some(MidiEvent::NoteOn { channel: 9, key: 36, velocity: 90 }));
    assert_eq!(out[3], None);
    assert_eq!(out[4], Some(MidiEvent::NoteOn { channel: 9, key: 38, velocity: 80 }));
}

#[test]
fn realtime_byte_inside_message_is_transparent() {
    let mut rx = MidiReceiver::new();
    let out = feed(&mut rx, &[0xB2, 0xF8, 7, 0xFE, 100]);
    assert_eq!(out[1], Some(MidiEvent::Other));
    assert_eq!(out[3], Some(MidiEvent::Other));
    assert_eq!(
        out[4],
        Some(MidiEvent::ControlChange { channel: 2, controller: 7, value: 100 })
    );
}

#[test]
fn program_change_and_pitch_bend() {
    let mut rx = MidiReceiver::new();
    let out = feed(&mut rx, &[0xC1, 5, 7, 0xE0, 0x00, 0x40]);
    assert_eq!(out[1], Some(MidiEvent::ProgramChange { channel: 1, program: 5 }));
    // running status program change
    assert_eq!(out[2], Some(MidiEvent::ProgramChange { channel: 1, program: 7 }));
    assert_eq!(out[5], Some(MidiEvent::PitchBend { channel: 0, value: 8192 }));
}

#[test]
fn system_common_status_reports_other_and_stops_running_status() {
    let mut rx = MidiReceiver::new();
    let out = feed(&mut rx, &[0x90, 60, 100, 0xF2, 61, 100]);
    assert_eq!(out[3], Some(MidiEvent::Other));
    assert_eq!(out[4], None);
    assert_eq!(out[5], None);
}

#[test]
fn reset_forgets_running_status() {
    let mut rx = MidiReceiver::new();
    feed(&mut rx, &[0x90, 60, 100]);
    rx.reset();
    assert_eq!(feed(&mut rx, &[61, 100]), vec![None, None]);
}

#[test]
fn data_bytes_without_status_are_ignored() {
    let mut rx = MidiReceiver::new();
    assert_eq!(feed(&mut rx, &[1, 2, 3]), vec![None, None, None]);
}

#[test]
fn event_helpers() {
    let on = MidiEvent::NoteOn { channel: 4, key: 1, velocity: 2 };
    assert!(on.is_note_event());
    assert_eq!(on.get_channel(), Some(4));
    let cc = MidiEvent::ControlChange { channel: 2, controller: 1, value: 0 };
    assert!(!cc.is_note_event());
    assert_eq!(cc.get_channel(), Some(2));
    assert_eq!(MidiEvent::Other.get_channel(), None);
}

fn note(k: u8) -> MidiEvent {
    MidiEvent::NoteOn { channel: 0, key: k, velocity: 1 }
}

#[test]
fn enqueue_into_queue_with_room() {
    let mut q: Queue<MidiEvent, 128> = Queue::new();
    assert_eq!(try_enqueue_midi_event(&mut q, note(1)), Ok(()));
    assert_eq!(get_midi_queue_status(&q), (1, 127));
    assert_eq!(q.dequeue(), Some(note(1)));
}

#[test]
fn full_queue_drops_first_control_change() {
    let mut q: Queue<MidiEvent, 128> = Queue::new();
    q.enqueue(note(0)).unwrap();
    q.enqueue(note(1)).unwrap();
    q.enqueue(MidiEvent::ControlChange { channel: 0, controller: 7, value: 1 }).unwrap();
    for k in 3..127 {
        q.enqueue(note(k)).unwrap();
    }
    assert_eq!(get_midi_queue_status(&q), (127, 127));
    assert_eq!(try_enqueue_midi_event(&mut q, note(200)), Ok(()));
    assert_eq!(get_midi_queue_status(&q), (127, 127));
    let mut out = Vec::new();
    while let Some(e) = q.dequeue() {
        out.push(e);
    }
    // remaining old events, then the two that were looked at, then the new one
    assert_eq!(out[0], note(3));
    assert_eq!(out[123], note(126));
    assert_eq!(out[124], note(0));
    assert_eq!(out[125], note(1));
    assert_eq!(out[126], note(200));
}

#[test]
fn full_queue_of_notes_rejects_event() {
    let mut q: Queue<MidiEvent, 128> = Queue::new();
    for k in 0..127 {
        q.enqueue(note(k)).unwrap();
    }
    assert_eq!(try_enqueue_midi_event(&mut q, note(200)), Err(note(200)));
    let mut out = Vec::new();
    while let Some(e) = q.dequeue() {
        out.push(e);
    }
    assert_eq!(out.len(), 127);
    assert_eq!(out[0], note(16));
    assert_eq!(out[111], note(0));
    assert_eq!(out[126], note(15));
}
