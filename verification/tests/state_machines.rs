use synthphone::buttons::{handle_button_press, handle_button_release};
use synthphone::state_machines::{
    AppEvent, AppState, AppStateMachine, MenuItem, MenuState, MenuValues, ProcessingProfile,
};

#[test]
fn test_splash_to_processing() {
    let mut app = AppStateMachine::new();
    assert!(matches!(app.state(), AppState::Splash));

    app.handle_event(AppEvent::SplashComplete);
    assert!(matches!(
        app.state(),
        AppState::Processing(ProcessingProfile::Autotune)
    ));
}

#[test]
fn lib_test_toggle_effects() {
    let mut app = AppStateMachine::new();
    app.handle_event(AppEvent::SplashComplete);

    // Toggle to Effects
    app.handle_event(AppEvent::EncoderPress);
    assert!(matches!(
        app.state(),
        AppState::EffectsProfile(ProcessingProfile::Autotune)
    ));

    // Toggle back to Processing
    app.handle_event(AppEvent::EncoderPress);
    assert!(matches!(
        app.state(),
        AppState::Processing(ProcessingProfile::Autotune)
    ));
}

#[test]
fn test_menu_navigation() {
    let mut app = AppStateMachine::new();
    app.handle_event(AppEvent::SplashComplete);

    // Enter menu
    app.handle_event(AppEvent::EncoderDoublePress);
    assert!(matches!(app.state(), AppState::Menu(MenuState::Selecting(0), _)));

    // Rotate encoder to next item
    app.handle_event(AppEvent::EncoderRotate(1));
    assert!(matches!(app.state(), AppState::Menu(MenuState::Selecting(1), _)));

    // Enter edit profile
    app.handle_event(AppEvent::EncoderPress);
    assert!(matches!(app.state(), AppState::Menu(MenuState::Editing(1), _)));

    // Change value: item 1 is "Bit Rate 2", one step up from its default
    app.handle_event(AppEvent::EncoderRotate(1));
    let values = app.get_values();
    assert_eq!(values.bit_rate_2, MenuValues::default().bit_rate_2 + 1);

    // Exit edit profile
    app.handle_event(AppEvent::EncoderPress);
    assert!(matches!(app.state(), AppState::Menu(MenuState::Selecting(1), _)));

    // Exit menu
    app.handle_event(AppEvent::EncoderDoublePress);
    assert!(matches!(
        app.state(),
        AppState::Processing(ProcessingProfile::Autotune)
    ));
}

// Further scenarios and concrete instances of the laws.

#[test]
fn processing_keys_play_notes_and_change_key() {
    let mut app = AppStateMachine::new();
    app.handle_event(AppEvent::SplashComplete);
    app.handle_event(AppEvent::KeypadPress(7));
    assert_eq!(app.snapshot().note, 7);
    app.handle_event(AppEvent::KeypadRelease(7));
    assert_eq!(app.snapshot().note, 0);
    app.handle_event(AppEvent::KeypadPress(10));
    assert_eq!(app.snapshot().key, 23);
    app.handle_event(AppEvent::KeypadPress(12));
    assert_eq!(app.snapshot().key, 0);
    app.handle_event(AppEvent::KeypadPress(11));
    assert_eq!(app.state(), AppState::Processing(ProcessingProfile::Vocode));
}

#[test]
fn effects_keys_set_crush_parameters() {
    let mut app = AppStateMachine::new();
    app.handle_event(AppEvent::SplashComplete);
    app.handle_event(AppEvent::EncoderPress);
    app.handle_event(AppEvent::KeypadPress(6));
    let s = app.snapshot();
    assert_eq!((s.crush, s.bit_rate, s.sample_rate), (2, 10, 16));
    app.handle_event(AppEvent::KeypadPress(5));
    let s = app.snapshot();
    assert_eq!((s.crush, s.bit_rate, s.sample_rate), (0, 32, 1));
    app.handle_event(AppEvent::KeypadPress(3));
    assert_eq!(app.snapshot().octave, 4);
    app.handle_event(AppEvent::KeypadPress(9));
    assert_eq!(app.snapshot().formant, 2);
}

#[test]
fn three_profile_cycle() {
    let s = AppState::EffectsProfile(ProcessingProfile::Dry);
    assert_eq!(s.cycle_profile(), AppState::EffectsProfile(ProcessingProfile::Autotune));
    assert_eq!(s.cycle_profile().cycle_profile().cycle_profile(), s);
}

#[test]
fn volume_clamped_between_zero_and_ten() {
    let mut app = AppStateMachine::new();
    app.handle_event(AppEvent::SplashComplete);
    app.handle_event(AppEvent::EncoderRotate(-3));
    assert_eq!(app.volume, 0);
    app.handle_event(AppEvent::EncoderRotate(40));
    assert_eq!(app.volume, 10);
}

#[test]
fn menu_context_labels() {
    let mut app = AppStateMachine::new();
    app.handle_event(AppEvent::SplashComplete);
    app.handle_event(AppEvent::EncoderDoublePress);
    let ctx = app.current();
    assert_eq!(ctx.previous_item, ("PadMatrix", 0));
    assert_eq!(ctx.current_item, ("BitRate1", 32));
    assert_eq!(ctx.next_item, ("BitRate2", 10));
}

#[test]
fn menu_values_clamp() {
    let mut v = MenuValues::default();
    v.set(MenuItem::FormantMale, 99);
    assert_eq!(v.get(MenuItem::FormantMale), 10);
    v.set(MenuItem::BitRate1, 0);
    assert_eq!(v.get(MenuItem::BitRate1), 4);
    assert_eq!(MenuValues::get_item_name(MenuItem::SampleRate2), "Sample Rate 2");
}

#[test]
fn keypad_matrix_mapping() {
    let p = AppState::Processing(ProcessingProfile::Dry);
    assert_eq!(handle_button_press(0, 0, p), AppEvent::KeypadPress(3));
    assert_eq!(handle_button_press(0, 2, p), AppEvent::KeypadPress(1));
    assert_eq!(handle_button_press(3, 1, p), AppEvent::KeypadPress(11));
    assert_eq!(handle_button_press(1, 1, AppState::Splash), AppEvent::SplashComplete);
    assert_eq!(
        handle_button_press(1, 1, AppState::Menu(MenuState::Editing(2), ProcessingProfile::Dry)),
        AppEvent::EncoderDoublePress
    );
    assert_eq!(handle_button_release(2, 0, p), AppEvent::KeypadRelease(9));
    assert_eq!(handle_button_release(2, 0, AppState::Splash), AppEvent::NoOp);
}
