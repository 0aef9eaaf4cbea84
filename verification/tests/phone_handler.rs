use synthphone::phone_handler::{
    collect_harmonics, dma1_stream0_software_task, interface_handler, EncoderTurn, KeyMatrix,
};
use synthphone::state_machines::{AppState, AppStateMachine, MenuState, ProcessingProfile};

const RELEASED: KeyMatrix = [[false; 3]; 4];

fn pressed(row: usize, col: usize) -> KeyMatrix {
    let mut m = RELEASED;
    m[row][col] = true;
    m
}

#[test]
fn no_change_no_update() {
    let mut machine = AppStateMachine::new();
    let mut old = RELEASED;
    let before = machine.snapshot();
    let update = interface_handler(&mut machine, &mut old, RELEASED, false, false, EncoderTurn::Still);
    assert!(!update);
    assert_eq!(machine.snapshot(), before);
}

#[test]
fn key_press_leaves_splash_then_plays_note() {
    let mut machine = AppStateMachine::new();
    let mut old = RELEASED;
    // any key leaves the splash screen
    assert!(interface_handler(&mut machine, &mut old, pressed(3, 1), false, false, EncoderTurn::Still));
    assert_eq!(machine.state(), AppState::Processing(ProcessingProfile::Autotune));
    assert_eq!(old, pressed(3, 1));
    // releasing it, then pressing the top-right key (number 1)
    interface_handler(&mut machine, &mut old, RELEASED, false, false, EncoderTurn::Still);
    interface_handler(&mut machine, &mut old, pressed(0, 2), false, false, EncoderTurn::Still);
    assert_eq!(machine.snapshot().note, 1);
    // pressing the top-left key (number 3) while holding key 1
    let mut both = pressed(0, 2);
    both[0][0] = true;
    interface_handler(&mut machine, &mut old, both, false, false, EncoderTurn::Still);
    assert_eq!(machine.snapshot().note, 3);
    // moving from key 1 to key 3 in one scan: the press is seen first, then
    // the release, which silences the note
    interface_handler(&mut machine, &mut old, pressed(0, 2), false, false, EncoderTurn::Still);
    interface_handler(&mut machine, &mut old, pressed(0, 0), false, false, EncoderTurn::Still);
    assert_eq!(machine.snapshot().note, 0);
    // releasing every key silences the note
    interface_handler(&mut machine, &mut old, RELEASED, false, false, EncoderTurn::Still);
    assert_eq!(machine.snapshot().note, 0);
    assert_eq!(old, RELEASED);
}

#[test]
fn encoder_button_and_turns() {
    let mut machine = AppStateMachine::new();
    let mut old = RELEASED;
    interface_handler(&mut machine, &mut old, pressed(1, 1), false, false, EncoderTurn::Still);
    let volume = machine.snapshot().volume;
    assert!(interface_handler(&mut machine, &mut old, pressed(1, 1), false, false, EncoderTurn::Clockwise));
    assert_eq!(machine.snapshot().volume, (volume + 1).min(10));
    interface_handler(&mut machine, &mut old, pressed(1, 1), false, false, EncoderTurn::Anticlockwise);
    assert_eq!(machine.snapshot().volume, volume.max(0));
    // a single press toggles the effects screen
    assert!(interface_handler(&mut machine, &mut old, pressed(1, 1), false, true, EncoderTurn::Still));
    assert_eq!(machine.state(), AppState::EffectsProfile(ProcessingProfile::Autotune));
    // a double press wins over a single press and opens the menu
    interface_handler(&mut machine, &mut old, pressed(1, 1), true, true, EncoderTurn::Still);
    assert_eq!(
        machine.state(),
        AppState::Menu(MenuState::Selecting(0), ProcessingProfile::Autotune)
    );
}

#[test]
fn software_task_follows_the_profile() {
    assert_eq!(dma1_stream0_software_task(AppState::Splash), ProcessingProfile::Autotune);
    assert_eq!(
        dma1_stream0_software_task(AppState::Processing(ProcessingProfile::Vocode)),
        ProcessingProfile::Vocode
    );
    assert_eq!(
        dma1_stream0_software_task(AppState::EffectsProfile(ProcessingProfile::Dry)),
        ProcessingProfile::Dry
    );
    assert_eq!(
        dma1_stream0_software_task(AppState::Menu(MenuState::Editing(2), ProcessingProfile::Dry)),
        ProcessingProfile::Dry
    );
}

#[test]
fn harmonics_are_multiples() {
    assert_eq!(collect_harmonics(5), [5, 10, 15, 20]);
    assert_eq!(collect_harmonics(0), [0, 0, 0, 0]);
}
