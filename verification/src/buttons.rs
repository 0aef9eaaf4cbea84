//! Mapping of the 4x3 keypad matrix to state-machine events.

use vstd::prelude::*;
use crate::state_machines::{AppEvent, AppState};

verus! {

/// The keypad number (1-12) of the key at `row`, `col`: columns are scanned
/// in reverse, so column 0 is the rightmost key of a row.
pub open spec fn key_number(row: usize, col: usize) -> int {
    row * 3 + (2 - col) + 1
}

/// The keypad position can be numbered without overflow.
pub open spec fn key_position_ok(row: usize, col: usize) -> bool {
    col <= 2 && key_number(row, col) <= usize::MAX
}

/// The event a key press raises in `current_state`.
pub open spec fn press_event(row: usize, col: usize, current_state: AppState) -> AppEvent {
    match current_state {
        AppState::Processing(_) => AppEvent::KeypadPress(key_number(row, col) as usize),
        AppState::EffectsProfile(_) => AppEvent::KeypadPress(key_number(row, col) as usize),
        AppState::Menu(_, _) => AppEvent::EncoderDoublePress,
        AppState::Splash => AppEvent::SplashComplete,
    }
}

/// The event a key release raises in `current_state`.
pub open spec fn release_event(row: usize, col: usize, current_state: AppState) -> AppEvent {
    match current_state {
        AppState::Processing(_) | AppState::EffectsProfile(_) => AppEvent::KeypadRelease(
            key_number(row, col) as usize,
        ),
        _ => AppEvent::NoOp,
    }
}

/// The keypad number of a matrix position.
fn key_num(row: usize, col: usize) -> (k: usize)
    requires
        key_position_ok(row, col),
    ensures
        k == key_number(row, col),
{
    let actual_col = 2 - col;
    row * 3 + actual_col + 1
}

/// The event raised by pressing the key at `row`, `col`: a keypad press on
/// the processing and effects screens, leaving the menu from the menu, and
/// leaving the splash screen from the splash screen.
pub fn handle_button_press(row: usize, col: usize, current_state: AppState) -> (e: AppEvent)
    requires
        key_position_ok(row, col),
    ensures
        e == press_event(row, col, current_state),
{
    let key = key_num(row, col);
    match current_state {
        AppState::Processing(_) => AppEvent::KeypadPress(key),
        AppState::EffectsProfile(_) => AppEvent::KeypadPress(key),
        AppState::Menu(_, _) => AppEvent::EncoderDoublePress,
        AppState::Splash => AppEvent::SplashComplete,
    }
}

/// The event raised by releasing the key at `row`, `col`.
pub fn handle_button_release(row: usize, col: usize, current_state: AppState) -> (e: AppEvent)
    requires
        key_position_ok(row, col),
    ensures
        e == release_event(row, col, current_state),
{
    let key = key_num(row, col);
    match current_state {
        AppState::Processing(_) | AppState::EffectsProfile(_) => AppEvent::KeypadRelease(key),
        _ => AppEvent::NoOp,
    }
}

/// The twelve keys of the 4x3 matrix get the numbers 1 to 12, each once.
pub proof fn law_keypad_numbering_is_a_bijection(r1: usize, c1: usize, r2: usize, c2: usize)
    requires
        r1 < 4 && c1 < 3,
        r2 < 4 && c2 < 3,
    ensures
        1 <= key_number(r1, c1) <= 12,
        key_number(r1, c1) == key_number(r2, c2) ==> r1 == r2 && c1 == c2,
{
}

} // verus!
