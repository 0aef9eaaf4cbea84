//! The decisions of the audio callback: how queued MIDI events steer the
//! voices and the state machine, and how the settings pick the waveform;
//! and the decisions of the interface task: which keypad and encoder
//! changes become state-machine events or drum hits.

use vstd::prelude::*;
use crate::midi::{queue_dequeue, queued_events, MidiEvent};
use crate::oscillator::Waveform;
use crate::phone_handler::{key_at, EncoderTurn, KeyMatrix};
use crate::state_machine::{AppEvent, AppState, AppStateMachine, MachineModel, ProcessingProfile};
use crate::voice_generator::{ManagerModel, VoiceManager, VOICE_CTRL_CHANNEL};

verus! {

/// The voices and the machine after one MIDI event: notes go to the voices,
/// CC 123 silences a channel, CC 7 sets the volume, CC 34-42 set menu
/// values, CC 43 steps the key, pitch bends retune the voices, program
/// changes pick the waveform; anything else is ignored.
pub open spec fn after_midi_event(voices: ManagerModel, machine: MachineModel, event: MidiEvent) -> (
    ManagerModel,
    MachineModel,
) {
    match event {
        MidiEvent::NoteOn { channel, key, velocity } => (
            voices.after_note_on(key, velocity, channel),
            machine,
        ),
        MidiEvent::NoteOff { channel, key, .. } => (voices.after_note_off(key, channel), machine),
        MidiEvent::ControlChange { channel, controller, value } => {
            if controller == 123 {
                (voices.after_all_notes_off(Some(channel)), machine)
            } else if controller == 7 {
                (voices, machine.after_midi_volume(value))
            } else if 34 <= controller <= 42 {
                (voices, machine.after_menu_cc(controller, value))
            } else if controller == 43 {
                (voices, machine.after_key_cc(value))
            } else {
                (voices, machine)
            }
        },
        MidiEvent::PitchBend { value, .. } => (voices.after_pitch_bend(value), machine),
        MidiEvent::ProgramChange { channel, program } => (
            voices,
            machine.after_program_change(channel, program),
        ),
        MidiEvent::Other => (voices, machine),
    }
}

/// The voices and the machine after the events `events`, in order.
pub open spec fn after_midi_events(
    voices: ManagerModel,
    machine: MachineModel,
    events: Seq<MidiEvent>,
) -> (ManagerModel, MachineModel)
    decreases events.len(),
{
    if events.len() == 0 {
        (voices, machine)
    } else {
        let (v, m) = after_midi_events(voices, machine, events.drop_last());
        after_midi_event(v, m, events.last())
    }
}

/// The number of queued events handled per audio sample frame.
pub const MIDI_EVENTS_PER_FRAME: usize = 2;

/// All Notes Off (CC 123) is per channel: it silences the voices on its
/// channel and leaves every voice on another channel, the pitch bend and the
/// state machine as they were; on the control channel, which plays no
/// voice, it forgets the held control notes instead.
pub proof fn law_all_notes_off_is_per_channel(
    voices: ManagerModel,
    machine: MachineModel,
    channel: u8,
    value: u8,
)
    requires
        voices.wf(),
    ensures
        ({
            let (v, m) = after_midi_event(
                voices,
                machine,
                MidiEvent::ControlChange { channel, controller: 123, value },
            );
            &&& m == machine
            &&& v.pitch_bend == voices.pitch_bend
            &&& v.voices.len() == voices.voices.len()
            &&& forall|i: int|
                0 <= i < voices.voices.len() && voices.voices[i].channel != channel
                    ==> #[trigger] v.voices[i] == voices.voices[i]
            &&& channel != VOICE_CTRL_CHANNEL ==> (forall|i: int|
                0 <= i < voices.voices.len() && voices.voices[i].channel == channel
                    ==> (#[trigger] v.voices[i]).free() && v.voices[i].velocity == 0)
            &&& channel != VOICE_CTRL_CHANNEL ==> v.voice_ctrl_notes == voices.voice_ctrl_notes
            &&& channel == VOICE_CTRL_CHANNEL ==> v.voices == voices.voices && (forall|i: int|
                0 <= i < voices.voice_ctrl_notes.len() ==> #[trigger] v.voice_ctrl_notes[i] is None)
        }),
{
}

/// Apply one MIDI event to the voices and the state machine.
pub fn handle_midi_event(event: MidiEvent, voices: &mut VoiceManager, machine: &mut AppStateMachine)
    requires
        old(voices)@.wf(),
        old(machine)@.wf(),
    ensures
        (final(voices)@, final(machine)@) == after_midi_event(old(voices)@, old(machine)@, event),
        final(voices)@.wf(),
        final(machine)@.wf(),
{
    match event {
        MidiEvent::NoteOn { channel, key, velocity } => {
            let _ = voices.note_on(key, velocity, channel);
        },
        MidiEvent::NoteOff { channel, key, .. } => {
            voices.note_off(key, channel);
        },
        MidiEvent::ControlChange { channel, controller, value } => {
            if controller == 123 {
                voices.all_notes_off(Some(channel));
            } else if controller == 7 {
                machine.set_volume_from_midi(value);
            } else if 34 <= controller && controller <= 42 {
                machine.set_menu_value_from_cc(controller, value);
            } else if controller == 43 {
                machine.cycle_key_from_midi(value);
            }
        },
        MidiEvent::PitchBend { value, .. } => {
            voices.apply_pitch_bend(value);
        },
        MidiEvent::ProgramChange { channel, program } => {
            machine.set_waveform_from_midi(channel, program);
        },
        MidiEvent::Other => {},
    }
}

/// Handle the oldest queued MIDI events, at most [`MIDI_EVENTS_PER_FRAME`]
/// of them; the audio callback calls this once per sample frame, so that
/// no frame does more work, and the rest wait.
pub fn process_midi_events(
    events: &mut heapless::spsc::Queue<MidiEvent, 128>,
    voices: &mut VoiceManager,
    machine: &mut AppStateMachine,
)
    requires
        old(voices)@.wf(),
        old(machine)@.wf(),
    ensures
        ({
            let q = queued_events(*old(events));
            let k = if q.len() < MIDI_EVENTS_PER_FRAME {
                q.len() as int
            } else {
                MIDI_EVENTS_PER_FRAME as int
            };
            &&& queued_events(*final(events)) == q.subrange(k, q.len() as int)
            &&& (final(voices)@, final(machine)@) == after_midi_events(
                old(voices)@,
                old(machine)@,
                q.subrange(0, k),
            )
        }),
        final(voices)@.wf(),
        final(machine)@.wf(),
{
    let ghost q = queued_events(*events);
    let mut i: usize = 0;
    while i < MIDI_EVENTS_PER_FRAME
        invariant_except_break
            0 <= i <= MIDI_EVENTS_PER_FRAME,
            i <= q.len(),
            queued_events(*events) == q.subrange(i as int, q.len() as int),
            (voices@, machine@) == after_midi_events(
                old(voices)@,
                old(machine)@,
                q.subrange(0, i as int),
            ),
            voices@.wf(),
            machine@.wf(),
        ensures
            i <= q.len(),
            i <= MIDI_EVENTS_PER_FRAME,
            i == MIDI_EVENTS_PER_FRAME || i == q.len(),
            queued_events(*events) == q.subrange(i as int, q.len() as int),
            (voices@, machine@) == after_midi_events(
                old(voices)@,
                old(machine)@,
                q.subrange(0, i as int),
            ),
            voices@.wf(),
            machine@.wf(),
        decreases MIDI_EVENTS_PER_FRAME - i,
    {
        match queue_dequeue(events) {
            Some(event) => {
                proof {
                    assert(q.subrange(0, i + 1).drop_last() =~= q.subrange(0, i as int));
                    assert(event == q[i as int]);
                    assert(queued_events(*events) =~= q.subrange(i + 1, q.len() as int));
                }
                handle_midi_event(event, voices, machine);
                i = i + 1;
            },
            None => {
                break ;
            },
        }
    }
}

/// The oscillator waveform for the waveform setting of the state machine
/// (0 triangle, 1 square, 2 saw, anything else sine).
pub fn waveform_for_setting(setting: i8) -> (w: Waveform)
    ensures
        w == (if setting == 0 {
            Waveform::Triangle
        } else if setting == 1 {
            Waveform::Square
        } else if setting == 2 {
            Waveform::Saw
        } else {
            Waveform::Sine
        }),
{
    match setting {
        0 => Waveform::Triangle,
        1 => Waveform::Square,
        2 => Waveform::Saw,
        _ => Waveform::Sine,
    }
}

/// Samples between two runs of the spectral task.
pub const HOP_SIZE: u32 = 256;

/// The hop counter after one sample, and whether the spectral task is due:
/// a complete hop restarts the counter.
pub open spec fn hop_step(counter: u32) -> (u32, bool) {
    if counter >= HOP_SIZE {
        (1, true)
    } else {
        ((counter + 1) as u32, false)
    }
}

/// Advance the hop counter by one sample; returns whether the spectral task
/// is due (the input position is then handed over and the task spawned).
pub fn hop_tick(counter: &mut u32) -> (due: bool)
    ensures
        (*final(counter), due) == hop_step(*old(counter)),
{
    let due = if *counter >= HOP_SIZE {
        *counter = 0;
        true
    } else {
        false
    };
    *counter = *counter + 1;
    due
}

/// The hop counter after `n` samples from `counter`, and how often the
/// spectral task fell due.
pub open spec fn hop_run(counter: u32, n: nat) -> (u32, nat)
    decreases n,
{
    if n == 0 {
        (counter, 0)
    } else {
        let (c, k) = hop_run(counter, (n - 1) as nat);
        let (c2, due) = hop_step(c);
        (c2, if due {
            k + 1
        } else {
            k
        })
    }
}

/// Within a hop the counter only counts up.
proof fn lemma_hop_counts_up(counter: u32, n: nat)
    requires
        1 <= counter,
        counter + n <= HOP_SIZE,
    ensures
        hop_run(counter, n) == ((counter + n) as u32, 0nat),
    decreases n,
{
    if n > 0 {
        lemma_hop_counts_up(counter, (n - 1) as nat);
    }
}

/// Right after the spectral task fell due, it falls due again exactly
/// [`HOP_SIZE`] samples later, and not before.
pub proof fn law_spectral_task_once_per_hop(n: nat)
    requires
        n <= HOP_SIZE,
    ensures
        n < HOP_SIZE ==> hop_run(1, n).1 == 0,
        hop_run(1, HOP_SIZE as nat) == (1u32, 1nat),
{
    if n < HOP_SIZE {
        lemma_hop_counts_up(1, n);
    }
    lemma_hop_counts_up(1, (HOP_SIZE - 1) as nat);
}

/// The MIDI queue is more than three quarters full.
pub fn midi_queue_high(len: usize, capacity: usize) -> (b: bool)
    requires
        capacity * 3 <= usize::MAX,
    ensures
        b == (len > capacity * 3 / 4),
{
    len > capacity * 3 / 4
}

/// The keypad number (1-12) of scan position `p` (row by row): columns are
/// scanned in reverse, so column 0 is the rightmost key of a row.
pub open spec fn keypad_number(p: int) -> int {
    (p / 3) * 3 + (2 - p % 3) + 1
}

/// The event a key press raises in `state`: a keypad press on the
/// processing and effects screens, leaving the menu from the menu, and
/// leaving the splash screen from the splash screen.
pub open spec fn keypad_press_event(p: int, state: AppState) -> AppEvent {
    match state {
        AppState::Processing(_) => AppEvent::KeypadPress(keypad_number(p) as usize),
        AppState::EffectsProfile(_) => AppEvent::KeypadPress(keypad_number(p) as usize),
        AppState::Menu(_, _) => AppEvent::EncoderDoublePress,
        AppState::Splash => AppEvent::SplashComplete,
    }
}

/// The event a key release raises in `state`.
pub open spec fn keypad_release_event(p: int, state: AppState) -> AppEvent {
    match state {
        AppState::Processing(_) | AppState::EffectsProfile(_) => AppEvent::KeypadRelease(
            keypad_number(p) as usize,
        ),
        _ => AppEvent::NoOp,
    }
}

/// The machine after the key at scan position `p` went from `was` to `is`,
/// and the drum keys this played: on the percussion screen a press plays
/// its key as a drum and leaves the machine alone.
pub open spec fn after_key_change(m: MachineModel, p: int, was: bool, is: bool) -> (
    MachineModel,
    Seq<usize>,
) {
    if was == is {
        (m, Seq::empty())
    } else if is {
        if m.state == AppState::Processing(ProcessingProfile::Percussion) {
            (m, seq![keypad_number(p) as usize])
        } else {
            (m.after(keypad_press_event(p, m.state)), Seq::empty())
        }
    } else {
        (m.after(keypad_release_event(p, m.state)), Seq::empty())
    }
}

/// The machine after the changes of the first `n` scan positions, and the
/// drum keys played, in scan order.
pub open spec fn after_keypad_scan(m: MachineModel, old: KeyMatrix, new: KeyMatrix, n: nat) -> (
    MachineModel,
    Seq<usize>,
)
    decreases n,
{
    if n == 0 {
        (m, Seq::empty())
    } else {
        let p = n - 1;
        let (m1, d1) = after_keypad_scan(m, old, new, p as nat);
        let (m2, d2) = after_key_change(m1, p, key_at(old, p), key_at(new, p));
        (m2, d1 + d2)
    }
}

/// The event of an encoder turn: clockwise lowers by one step,
/// anticlockwise raises by one.
pub open spec fn turn_event(turn: EncoderTurn) -> Option<AppEvent> {
    match turn {
        EncoderTurn::Clockwise => Some(AppEvent::EncoderRotate(-1i8)),
        EncoderTurn::Anticlockwise => Some(AppEvent::EncoderRotate(1i8)),
        EncoderTurn::Still => None,
    }
}

/// The machine after the encoder button: a double press, else a single
/// press, else nothing.
pub open spec fn after_encoder_button(m: MachineModel, double: bool, falling: bool) -> MachineModel {
    if double {
        m.after(AppEvent::EncoderDoublePress)
    } else if falling {
        m.after(AppEvent::EncoderPress)
    } else {
        m
    }
}

/// The machine after the keypad changes and the encoder button.
pub open spec fn after_buttons(
    m: MachineModel,
    old: KeyMatrix,
    new: KeyMatrix,
    double: bool,
    falling: bool,
) -> MachineModel {
    after_encoder_button(after_keypad_scan(m, old, new, 12).0, double, falling)
}

/// The machine after one scan of the interface: keypad changes in scan
/// order, then the encoder button, then the encoder turn.
pub open spec fn after_interface(
    m: MachineModel,
    old: KeyMatrix,
    new: KeyMatrix,
    double: bool,
    falling: bool,
    turn: EncoderTurn,
) -> MachineModel {
    let b = after_buttons(m, old, new, double, falling);
    match turn_event(turn) {
        Some(e) => b.after(e),
        None => b,
    }
}

/// What one scan of the interface asks of the rest of the firmware: the
/// keys to play as drums, in scan order, and whether the display needs an
/// update.
pub struct InterfaceActions {
    pub drum_keys: Vec<usize>,
    pub update_display: bool,
}

/// Turn one scan of the keypad matrix and the encoder into state-machine
/// events. Each key whose state changed raises a press or a release event
/// in the state the machine is in at that moment, except that on the
/// percussion screen a press plays the key as a drum instead; then a
/// double or single press of the encoder button, then one step of encoder
/// rotation. `old_matrix` takes the scanned state.
pub fn interface_handler(
    machine: &mut AppStateMachine,
    old_matrix: &mut KeyMatrix,
    new_matrix: KeyMatrix,
    encoder_double: bool,
    encoder_falling: bool,
    turn: EncoderTurn,
) -> (actions: InterfaceActions)
    requires
        old(machine)@.wf(),
        match turn_event(turn) {
            Some(e) => after_buttons(
                old(machine)@,
                *old(old_matrix),
                new_matrix,
                encoder_double,
                encoder_falling,
            ).accepts(e),
            None => true,
        },
    ensures
        final(machine)@ == after_interface(
            old(machine)@,
            *old(old_matrix),
            new_matrix,
            encoder_double,
            encoder_falling,
            turn,
        ),
        final(machine)@.wf(),
        *final(old_matrix) == new_matrix,
        actions.drum_keys@ == after_keypad_scan(old(machine)@, *old(old_matrix), new_matrix, 12).1,
        actions.update_display == (crate::phone_handler::keypad_changed(
            *old(old_matrix),
            new_matrix,
            12,
        ) || encoder_double || encoder_falling || turn != EncoderTurn::Still),
{
    let ghost m0 = machine@;
    let previous = *old_matrix;
    let mut update_state = false;
    let mut drum_keys: Vec<usize> = Vec::new();
    let mut p: usize = 0;
    while p < 12
        invariant
            0 <= p <= 12,
            machine@ == after_keypad_scan(m0, previous, new_matrix, p as nat).0,
            drum_keys@ == after_keypad_scan(m0, previous, new_matrix, p as nat).1,
            machine@.wf(),
            update_state == crate::phone_handler::keypad_changed(previous, new_matrix, p as nat),
        decreases 12 - p,
    {
        let row = p / 3;
        let col = p % 3;
        let was_pressed = previous[row][col];
        let is_pressed = new_matrix[row][col];
        let key_num = row * 3 + (2 - col) + 1;
        proof {
            assert(was_pressed == key_at(previous, p as int));
            assert(is_pressed == key_at(new_matrix, p as int));
            assert(key_num == keypad_number(p as int));
        }
        let ghost d0 = drum_keys@;
        if is_pressed != was_pressed {
            update_state = true;
            let state = machine.state();
            if is_pressed {
                if state == AppState::Processing(ProcessingProfile::Percussion) {
                    drum_keys.push(key_num);
                } else {
                    let event = match state {
                        AppState::Processing(_) | AppState::EffectsProfile(_) => {
                            AppEvent::KeypadPress(key_num)
                        },
                        AppState::Menu(_, _) => AppEvent::EncoderDoublePress,
                        AppState::Splash => AppEvent::SplashComplete,
                    };
                    machine.handle_event(event);
                }
            } else {
                let event = match state {
                    AppState::Processing(_) | AppState::EffectsProfile(_) => {
                        AppEvent::KeypadRelease(key_num)
                    },
                    _ => AppEvent::NoOp,
                };
                machine.handle_event(event);
            }
        }
        proof {
            if is_pressed == was_pressed || !is_pressed || machine@.state != AppState::Processing(
                ProcessingProfile::Percussion,
            ) {
                assert(drum_keys@ =~= d0 + Seq::<usize>::empty());
            }
            if update_state != crate::phone_handler::keypad_changed(
                previous,
                new_matrix,
                (p + 1) as nat,
            ) {
                if crate::phone_handler::keypad_changed(previous, new_matrix, (p + 1) as nat) {
                    let q = choose|q: int|
                        0 <= q < p + 1 && key_at(previous, q) != key_at(new_matrix, q);
                    assert(q < p ==> crate::phone_handler::keypad_changed(
                        previous,
                        new_matrix,
                        p as nat,
                    ));
                } else {
                    assert(!(key_at(previous, p as int) != key_at(new_matrix, p as int)));
                    if crate::phone_handler::keypad_changed(previous, new_matrix, p as nat) {
                        let q = choose|q: int|
                            0 <= q < p && key_at(previous, q) != key_at(new_matrix, q);
                        assert(0 <= q < p + 1 && key_at(previous, q) != key_at(new_matrix, q));
                    }
                }
            }
        }
        p = p + 1;
    }
    *old_matrix = new_matrix;
    if encoder_double {
        update_state = true;
        machine.handle_event(AppEvent::EncoderDoublePress);
    } else if encoder_falling {
        update_state = true;
        machine.handle_event(AppEvent::EncoderPress);
    }
    match turn {
        EncoderTurn::Clockwise => {
            update_state = true;
            machine.handle_event(AppEvent::EncoderRotate(-1));
        },
        EncoderTurn::Anticlockwise => {
            update_state = true;
            machine.handle_event(AppEvent::EncoderRotate(1));
        },
        EncoderTurn::Still => {},
    }
    InterfaceActions { drum_keys, update_display: update_state }
}


} // verus!
