use heapless::spsc::Queue;
use synthphone::handler::{
    handle_midi_event, hop_tick, interface_handler, midi_queue_high, process_midi_events,
    waveform_for_setting, HOP_SIZE,
};
use synthphone::phone_handler::{EncoderTurn, KeyMatrix};
use synthphone::state_machine::{AppEvent, AppState, ProcessingProfile};
use synthphone::midi::{try_enqueue_midi_event, MidiEvent};
use synthphone::oscillator::Waveform;
use synthphone::state_machine::AppStateMachine;
use synthphone::voice_generator::VoiceManager;

fn note_on(key: u8) -> MidiEvent {
    MidiEvent::NoteOn { channel: 3, key, velocity: 100 }
}

#[test]
fn one_frame_handles_two_events_and_keeps_the_rest() {
    let mut events: Queue<MidiEvent, 128> = Queue::new();
    for k in [60, 62, 64] {
        try_enqueue_midi_event(&mut events, note_on(k)).unwrap();
    }
    let mut voices = VoiceManager::new(4);
    let mut machine = AppStateMachine::new();
    process_midi_events(&mut events, &mut voices, &mut machine);
    assert!(voices.voice(0).is_playing(60, 3));
    assert!(voices.voice(1).is_playing(62, 3));
    assert!(voices.voice(2).is_free());
    assert_eq!(events.len(), 1);
    assert_eq!(events.dequeue(), Some(note_on(64)));
}

#[test]
fn empty_queue_changes_nothing() {
    let mut events: Queue<MidiEvent, 128> = Queue::new();
    let mut voices = VoiceManager::new(2);
    let mut machine = AppStateMachine::new();
    let before = machine.snapshot();
    process_midi_events(&mut events, &mut voices, &mut machine);
    assert!(voices.voice(0).is_free());
    assert_eq!(machine.snapshot(), before);
}

#[test]
fn single_event_frame() {
    let mut events: Queue<MidiEvent, 128> = Queue::new();
    try_enqueue_midi_event(&mut events, note_on(67)).unwrap();
    let mut voices = VoiceManager::new(2);
    let mut machine = AppStateMachine::new();
    process_midi_events(&mut events, &mut voices, &mut machine);
    assert!(voices.voice(0).is_playing(67, 3));
    assert!(events.is_empty());
}

#[test]
fn note_off_and_all_notes_off() {
    let mut voices = VoiceManager::new(2);
    let mut machine = AppStateMachine::new();
    handle_midi_event(note_on(60), &mut voices, &mut machine);
    handle_midi_event(note_on(61), &mut voices, &mut machine);
    handle_midi_event(
        MidiEvent::NoteOff { channel: 3, key: 60, velocity: 0 },
        &mut voices,
        &mut machine,
    );
    assert!(voices.voice(0).is_free());
    assert!(voices.voice(1).is_playing(61, 3));
    handle_midi_event(
        MidiEvent::ControlChange { channel: 3, controller: 123, value: 0 },
        &mut voices,
        &mut machine,
    );
    assert!(voices.voice(1).is_free());
}

#[test]
fn cc7_sets_volume() {
    let mut voices = VoiceManager::new(1);
    let mut machine = AppStateMachine::new();
    handle_midi_event(
        MidiEvent::ControlChange { channel: 0, controller: 7, value: 64 },
        &mut voices,
        &mut machine,
    );
    assert_eq!(machine.snapshot().volume, 5);
    handle_midi_event(
        MidiEvent::ControlChange { channel: 0, controller: 7, value: 127 },
        &mut voices,
        &mut machine,
    );
    assert_eq!(machine.snapshot().volume, 10);
}

#[test]
fn cc35_sets_pitch_high() {
    let mut voices = VoiceManager::new(1);
    let mut machine = AppStateMachine::new();
    handle_midi_event(
        MidiEvent::ControlChange { channel: 0, controller: 35, value: 127 },
        &mut voices,
        &mut machine,
    );
    assert_eq!(machine.get_values().pitch_high, 12);
    handle_midi_event(
        MidiEvent::ControlChange { channel: 0, controller: 35, value: 0 },
        &mut voices,
        &mut machine,
    );
    assert_eq!(machine.get_values().pitch_high, 0);
}

#[test]
fn cc43_steps_the_key() {
    let mut voices = VoiceManager::new(1);
    let mut machine = AppStateMachine::new();
    let key = machine.snapshot().key;
    handle_midi_event(
        MidiEvent::ControlChange { channel: 0, controller: 43, value: 10 },
        &mut voices,
        &mut machine,
    );
    assert_eq!(machine.snapshot().key, key);
    handle_midi_event(
        MidiEvent::ControlChange { channel: 0, controller: 43, value: 100 },
        &mut voices,
        &mut machine,
    );
    assert_eq!(machine.snapshot().key, (key + 1) % 24);
}

#[test]
fn other_controllers_are_ignored() {
    let mut voices = VoiceManager::new(1);
    let mut machine = AppStateMachine::new();
    let before = machine.snapshot();
    handle_midi_event(
        MidiEvent::ControlChange { channel: 0, controller: 1, value: 100 },
        &mut voices,
        &mut machine,
    );
    handle_midi_event(MidiEvent::Other, &mut voices, &mut machine);
    assert_eq!(machine.snapshot(), before);
}

#[test]
fn program_change_picks_waveform_except_on_drums() {
    let mut voices = VoiceManager::new(1);
    let mut machine = AppStateMachine::new();
    handle_midi_event(
        MidiEvent::ProgramChange { channel: 0, program: 5 },
        &mut voices,
        &mut machine,
    );
    assert_eq!(machine.snapshot().waveform, 2);
    handle_midi_event(
        MidiEvent::ProgramChange { channel: 9, program: 4 },
        &mut voices,
        &mut machine,
    );
    assert_eq!(machine.snapshot().waveform, 2);
}

#[test]
fn pitch_bend_reaches_the_voices() {
    let mut voices = VoiceManager::new(1);
    let mut machine = AppStateMachine::new();
    handle_midi_event(
        MidiEvent::PitchBend { channel: 0, value: 12000 },
        &mut voices,
        &mut machine,
    );
    assert_eq!(voices.pitch_bend(), 12000);
}

#[test]
fn waveform_settings() {
    assert_eq!(waveform_for_setting(0), Waveform::Triangle);
    assert_eq!(waveform_for_setting(1), Waveform::Square);
    assert_eq!(waveform_for_setting(2), Waveform::Saw);
    assert_eq!(waveform_for_setting(3), Waveform::Sine);
    assert_eq!(waveform_for_setting(-1), Waveform::Sine);
}

#[test]
fn queue_high_above_three_quarters() {
    assert!(!midi_queue_high(95, 127));
    assert!(midi_queue_high(96, 127));
    assert!(!midi_queue_high(0, 127));
}

#[test]
fn spectral_task_due_once_per_hop() {
    let mut counter: u32 = 0;
    let mut due_at = Vec::new();
    for sample in 1..=(3 * HOP_SIZE + 1) {
        if hop_tick(&mut counter) {
            due_at.push(sample);
        }
    }
    // the counter starts at 0, so the first hop takes one sample more
    assert_eq!(due_at, vec![HOP_SIZE + 1, 2 * HOP_SIZE + 1, 3 * HOP_SIZE + 1]);
    assert_eq!(counter, 1);
}

const RELEASED: KeyMatrix = [[false; 3]; 4];

fn pressed(keys: &[(usize, usize)]) -> KeyMatrix {
    let mut m = RELEASED;
    for &(r, c) in keys {
        m[r][c] = true;
    }
    m
}

#[test]
fn keypad_plays_notes_outside_percussion() {
    let mut machine = AppStateMachine::new();
    machine.handle_event(AppEvent::SplashComplete);
    machine.handle_event(AppEvent::EncoderPress);
    assert_eq!(machine.state(), AppState::Processing(ProcessingProfile::PitchControl));
    let mut old = RELEASED;
    let a = interface_handler(&mut machine, &mut old, pressed(&[(1, 0)]), false, false, EncoderTurn::Still);
    assert!(a.update_display);
    assert!(a.drum_keys.is_empty());
    assert_eq!(machine.snapshot().note, 6);
    let a = interface_handler(&mut machine, &mut old, RELEASED, false, false, EncoderTurn::Still);
    assert!(a.update_display);
    assert_eq!(machine.snapshot().note, 0);
    assert_eq!(old, RELEASED);
}

#[test]
fn percussion_presses_become_drum_keys() {
    let mut machine = AppStateMachine::new();
    machine.handle_event(AppEvent::SplashComplete);
    for _ in 0..4 {
        machine.handle_event(AppEvent::KeypadPress(11));
    }
    machine.handle_event(AppEvent::EncoderPress);
    assert_eq!(machine.state(), AppState::Processing(ProcessingProfile::Percussion));
    let before = machine.snapshot();
    let mut old = RELEASED;
    let a = interface_handler(
        &mut machine,
        &mut old,
        pressed(&[(0, 2), (2, 1)]),
        false,
        false,
        EncoderTurn::Still,
    );
    assert_eq!(a.drum_keys, vec![1, 8]);
    assert!(a.update_display);
    assert_eq!(machine.snapshot(), before);
}

#[test]
fn idle_interface_scan_does_nothing() {
    let mut machine = AppStateMachine::new();
    let mut old = pressed(&[(3, 2)]);
    let before = machine.snapshot();
    let a = interface_handler(&mut machine, &mut old, pressed(&[(3, 2)]), false, false, EncoderTurn::Still);
    assert!(!a.update_display);
    assert!(a.drum_keys.is_empty());
    assert_eq!(machine.snapshot(), before);
}

#[test]
fn encoder_turns_the_volume_clockwise_down() {
    let mut machine = AppStateMachine::new();
    machine.handle_event(AppEvent::SplashComplete);
    let mut old = RELEASED;
    let volume = machine.snapshot().volume;
    let a = interface_handler(&mut machine, &mut old, RELEASED, false, false, EncoderTurn::Clockwise);
    assert!(a.update_display);
    assert_eq!(machine.snapshot().volume, volume - 1);
    interface_handler(&mut machine, &mut old, RELEASED, false, false, EncoderTurn::Anticlockwise);
    assert_eq!(machine.snapshot().volume, volume);
    // a double press wins over a single press
    interface_handler(&mut machine, &mut old, RELEASED, true, true, EncoderTurn::Still);
    assert!(matches!(machine.state(), AppState::Menu(_, _)));
}
