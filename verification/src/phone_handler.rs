//! The decisions of the phone's interface and processing tasks: which keypad
//! and encoder changes become state-machine events, which processing the
//! spectral task runs, and where the harmonics of a fundamental lie.

use vstd::prelude::*;
use crate::buttons::{handle_button_press, handle_button_release, press_event, release_event};
use crate::state_machines::{AppEvent, AppState, AppStateMachine, MachineModel, ProcessingProfile};

verus! {

/// Which way the rotary encoder moved since the last scan.
#[derive(Debug, Clone, Copy, PartialEq, Eq, Structural)]
pub enum EncoderTurn {
    Clockwise,
    Anticlockwise,
    Still,
}

/// The keypad matrix: four rows of three keys, `true` while pressed.
pub type KeyMatrix = [[bool; 3]; 4];

/// The key at scan position `p` (row by row, `0..12`) of `m`.
pub open spec fn key_at(m: KeyMatrix, p: int) -> bool {
    m@[p / 3]@[p % 3]
}

/// The machine after the key at scan position `p` went from `was` to `is`:
/// a press or a release event in the machine's current state, or nothing.
pub open spec fn after_key_change(m: MachineModel, p: int, was: bool, is: bool) -> MachineModel {
    if was == is {
        m
    } else if is {
        m.after(press_event((p / 3) as usize, (p % 3) as usize, m.state))
    } else {
        m.after(release_event((p / 3) as usize, (p % 3) as usize, m.state))
    }
}

/// The machine after the changes of the first `n` scan positions.
pub open spec fn after_keypad_scan(m: MachineModel, old: KeyMatrix, new: KeyMatrix, n: nat) -> MachineModel
    decreases n,
{
    if n == 0 {
        m
    } else {
        let p = n - 1;
        after_key_change(after_keypad_scan(m, old, new, p as nat), p, key_at(old, p), key_at(new, p))
    }
}

/// Some key of the first `n` scan positions changed.
pub open spec fn keypad_changed(old: KeyMatrix, new: KeyMatrix, n: nat) -> bool {
    exists|p: int| 0 <= p < n && key_at(old, p) != key_at(new, p)
}

/// The machine after the encoder button: a double press, else a single
/// press, else nothing.
pub open spec fn after_encoder_button(m: MachineModel, double: bool, falling: bool) -> MachineModel {
    if double {
        m.after(AppEvent::EncoderDoublePress)
    } else if falling {
        m.after(AppEvent::EncoderPress)
    } else {
        m
    }
}

/// The machine after the encoder turned: clockwise raises by one step,
/// anticlockwise lowers by one.
pub open spec fn after_encoder_turn(m: MachineModel, turn: EncoderTurn) -> MachineModel {
    match turn {
        EncoderTurn::Clockwise => m.after(AppEvent::EncoderRotate(1i32)),
        EncoderTurn::Anticlockwise => m.after(AppEvent::EncoderRotate(-1i32)),
        EncoderTurn::Still => m,
    }
}

/// The event an encoder turn raises: clockwise raises by one step,
/// anticlockwise lowers by one.
pub open spec fn turn_event(turn: EncoderTurn) -> Option<AppEvent> {
    match turn {
        EncoderTurn::Clockwise => Some(AppEvent::EncoderRotate(1i32)),
        EncoderTurn::Anticlockwise => Some(AppEvent::EncoderRotate(-1i32)),
        EncoderTurn::Still => None,
    }
}

/// The encoder turn does not overflow the volume of the machine it reaches
/// after the keypad changes and the encoder button.
pub open spec fn turn_accepted(
    m: MachineModel,
    old: KeyMatrix,
    new: KeyMatrix,
    double: bool,
    falling: bool,
    turn: EncoderTurn,
) -> bool {
    match turn_event(turn) {
        Some(e) => after_encoder_button(after_keypad_scan(m, old, new, 12), double, falling).accepts(e),
        None => true,
    }
}

/// The machine after one scan of the interface: keypad changes in scan
/// order, then the encoder button, then the encoder turn.
pub open spec fn after_interface(
    m: MachineModel,
    old: KeyMatrix,
    new: KeyMatrix,
    double: bool,
    falling: bool,
    turn: EncoderTurn,
) -> MachineModel {
    after_encoder_turn(
        after_encoder_button(after_keypad_scan(m, old, new, 12), double, falling),
        turn,
    )
}

/// Turn one scan of the keypad matrix and the encoder into state-machine
/// events: each key whose state changed raises a press or a release event
/// (in the state the machine is in at that moment), then a double or
/// single press of the encoder button, then one step of encoder rotation.
/// `old_matrix` takes the scanned state; the result tells whether the
/// display needs an update.
pub fn interface_handler(
    machine: &mut AppStateMachine,
    old_matrix: &mut KeyMatrix,
    new_matrix: KeyMatrix,
    encoder_double: bool,
    encoder_falling: bool,
    turn: EncoderTurn,
) -> (update: bool)
    requires
        old(machine)@.wf(),
        turn_accepted(
            old(machine)@,
            *old(old_matrix),
            new_matrix,
            encoder_double,
            encoder_falling,
            turn,
        ),
    ensures
        final(machine)@ == after_interface(
            old(machine)@,
            *old(old_matrix),
            new_matrix,
            encoder_double,
            encoder_falling,
            turn,
        ),
        final(machine)@.wf(),
        *final(old_matrix) == new_matrix,
        update == (keypad_changed(*old(old_matrix), new_matrix, 12) || encoder_double
            || encoder_falling || turn != EncoderTurn::Still),
{
    let ghost m0 = machine@;
    let previous = *old_matrix;
    let mut update_state = false;
    let mut p: usize = 0;
    while p < 12
        invariant
            0 <= p <= 12,
            machine@ == after_keypad_scan(m0, previous, new_matrix, p as nat),
            machine@.wf(),
            update_state == keypad_changed(previous, new_matrix, p as nat),
        decreases 12 - p,
    {
        let row = p / 3;
        let col = p % 3;
        let was_pressed = previous[row][col];
        let is_pressed = new_matrix[row][col];
        proof {
            assert(was_pressed == key_at(previous, p as int));
            assert(is_pressed == key_at(new_matrix, p as int));
        }
        if is_pressed != was_pressed {
            update_state = true;
            let state = machine.snapshot().current_state;
            if is_pressed {
                machine.handle_event(handle_button_press(row, col, state));
            } else {
                machine.handle_event(handle_button_release(row, col, state));
            }
        }
        proof {
            if update_state != keypad_changed(previous, new_matrix, (p + 1) as nat) {
                if keypad_changed(previous, new_matrix, (p + 1) as nat) {
                    let q = choose|q: int|
                        0 <= q < p + 1 && key_at(previous, q) != key_at(new_matrix, q);
                    assert(q < p ==> keypad_changed(previous, new_matrix, p as nat));
                } else {
                    assert(!(key_at(previous, p as int) != key_at(new_matrix, p as int)));
                    if keypad_changed(previous, new_matrix, p as nat) {
                        let q = choose|q: int|
                            0 <= q < p && key_at(previous, q) != key_at(new_matrix, q);
                        assert(0 <= q < p + 1 && key_at(previous, q) != key_at(new_matrix, q));
                    }
                }
            }
        }
        p = p + 1;
    }
    *old_matrix = new_matrix;
    if encoder_double {
        update_state = true;
        machine.handle_event(AppEvent::EncoderDoublePress);
    } else if encoder_falling {
        update_state = true;
        machine.handle_event(AppEvent::EncoderPress);
    }
    match turn {
        EncoderTurn::Clockwise => {
            update_state = true;
            machine.handle_event(AppEvent::EncoderRotate(1));
        },
        EncoderTurn::Anticlockwise => {
            update_state = true;
            machine.handle_event(AppEvent::EncoderRotate(-1));
        },
        EncoderTurn::Still => {},
    }
    update_state
}

/// A scan in which no key changed and the encoder did nothing leaves the
/// machine as it was.
pub proof fn law_idle_scan_changes_nothing(m: MachineModel, keys: KeyMatrix, n: nat)
    requires
        n <= 12,
    ensures
        after_keypad_scan(m, keys, keys, n) == m,
        n == 12 ==> after_interface(m, keys, keys, false, false, EncoderTurn::Still) == m,
    decreases n,
{
    if n > 0 {
        law_idle_scan_changes_nothing(m, keys, (n - 1) as nat);
    }
}

/// The processing profile of a state; the splash screen runs autotune.
pub open spec fn profile_of(state: AppState) -> ProcessingProfile {
    match state {
        AppState::Processing(p) => p,
        AppState::EffectsProfile(p) => p,
        AppState::Menu(_, p) => p,
        AppState::Splash => ProcessingProfile::Autotune,
    }
}

/// The processing the spectral software task runs in `current_state`.
pub fn dma1_stream0_software_task(current_state: AppState) -> (p: ProcessingProfile)
    ensures
        p == profile_of(current_state),
{
    match current_state {
        AppState::Processing(process) | AppState::EffectsProfile(process) | AppState::Menu(
            _,
            process,
        ) => process,
        AppState::Splash => ProcessingProfile::Autotune,
    }
}

/// The spectrum bins of the first four harmonics of the fundamental at bin
/// `fundamental_index`.
pub fn collect_harmonics(fundamental_index: usize) -> (h: [usize; 4])
    requires
        fundamental_index * 4 <= usize::MAX,
    ensures
        forall|i: int| 0 <= i < 4 ==> #[trigger] h@[i] == fundamental_index * (i + 1),
{
    let h = [fundamental_index, fundamental_index * 2, fundamental_index * 3, fundamental_index * 4];
    assert forall|i: int| 0 <= i < 4 implies #[trigger] h@[i] == fundamental_index * (i + 1) by {
        assert(fundamental_index * (i + 1) == fundamental_index * i + fundamental_index)
            by (nonlinear_arith);
        if i == 0 {
        } else if i == 1 {
            assert(fundamental_index * i == fundamental_index);
        } else if i == 2 {
            assert(fundamental_index * i == fundamental_index * 2);
        } else {
            assert(fundamental_index * i == fundamental_index * 3);
        }
    }
    h
}

} // verus!
