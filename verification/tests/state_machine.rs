use synthphone::state_machine::{
    AppEvent, AppState, AppStateMachine, MenuItem, MenuNavEvent, MenuState, MenuValues,
    ProcessingProfile,
};

fn effects_app() -> AppStateMachine {
    let mut app = AppStateMachine::new();
    app.handle_event(AppEvent::SplashComplete);
    app
}

#[test]
fn test_splash_to_effects_profile() {
    let mut app = AppStateMachine::new();
    assert!(matches!(app.state(), AppState::Splash));
    app.handle_event(AppEvent::SplashComplete);
    assert!(matches!(
        app.state(),
        AppState::EffectsProfile(ProcessingProfile::PitchControl)
    ));
}

#[test]
fn mod_test_toggle_effects() {
    let mut app = effects_app();

    app.handle_event(AppEvent::EncoderPress);
    assert!(matches!(
        app.state(),
        AppState::Processing(ProcessingProfile::PitchControl)
    ));

    app.handle_event(AppEvent::EncoderPress);
    assert!(matches!(
        app.state(),
        AppState::EffectsProfile(ProcessingProfile::PitchControl)
    ));
}

#[test]
fn test_menu_enter_and_exit() {
    let mut app = effects_app();

    app.handle_event(AppEvent::EncoderDoublePress);
    assert!(matches!(app.state(), AppState::Menu(MenuState::Selecting(0), _)));

    app.handle_event(AppEvent::EncoderRotate(1));
    assert!(matches!(app.state(), AppState::Menu(MenuState::Selecting(1), _)));

    app.handle_event(AppEvent::EncoderPress);
    assert!(matches!(app.state(), AppState::Menu(MenuState::Editing(1), _)));

    app.handle_event(AppEvent::EncoderPress);
    assert!(matches!(app.state(), AppState::Menu(MenuState::Selecting(1), _)));

    app.handle_event(AppEvent::EncoderDoublePress);
    assert!(matches!(app.state(), AppState::Processing(_)));
}

#[test]
fn test_pitch_low_default() {
    let app = AppStateMachine::new();
    assert_eq!(app.get_values().pitch_low, -12);
}

#[test]
fn test_pitch_high_default() {
    let app = AppStateMachine::new();
    assert_eq!(app.get_values().pitch_high, 12);
}

#[test]
fn test_button1_uses_pitch_low_value() {
    let mut app = effects_app();
    app.handle_event(AppEvent::KeypadPress(1));
    assert_eq!(app.snapshot().pitch_semitones, -12);
}

#[test]
fn test_button2_always_no_pitch_shift() {
    let mut app = effects_app();
    app.handle_event(AppEvent::KeypadPress(2));
    assert_eq!(app.snapshot().pitch_semitones, 0);
}

#[test]
fn test_button3_uses_pitch_high_value() {
    let mut app = effects_app();
    app.handle_event(AppEvent::KeypadPress(3));
    assert_eq!(app.snapshot().pitch_semitones, 12);
}

#[test]
fn test_octave_preset_index_low() {
    let mut app = effects_app();
    app.handle_event(AppEvent::KeypadPress(1));
    assert_eq!(app.snapshot().octave_preset, 0);
}

#[test]
fn test_octave_preset_index_normal() {
    let mut app = effects_app();
    app.handle_event(AppEvent::KeypadPress(2));
    assert_eq!(app.snapshot().octave_preset, 1);
}

#[test]
fn test_octave_preset_index_high() {
    let mut app = effects_app();
    app.handle_event(AppEvent::KeypadPress(3));
    assert_eq!(app.snapshot().octave_preset, 2);
}

#[test]
fn test_pitch_low_live_update() {
    let mut app = effects_app();
    app.handle_event(AppEvent::KeypadPress(1));
    assert_eq!(app.snapshot().pitch_semitones, -12);

    // PitchLow is index 0: edit it without pressing the button again
    app.handle_event(AppEvent::EncoderDoublePress);
    app.handle_event(AppEvent::EncoderPress);
    app.handle_event(AppEvent::EncoderRotate(1)); // -12 -> -11
    app.handle_event(AppEvent::EncoderDoublePress);

    assert_eq!(app.snapshot().pitch_semitones, -11);
}

#[test]
fn test_pitch_high_live_update() {
    let mut app = effects_app();
    app.handle_event(AppEvent::KeypadPress(3));
    assert_eq!(app.snapshot().pitch_semitones, 12);

    // PitchHigh is index 1
    app.handle_event(AppEvent::EncoderDoublePress);
    app.handle_event(AppEvent::EncoderRotate(1));
    app.handle_event(AppEvent::EncoderPress);
    app.handle_event(AppEvent::EncoderRotate(-1)); // 12 -> 11
    app.handle_event(AppEvent::EncoderDoublePress);

    assert_eq!(app.snapshot().pitch_semitones, 11);

    // Clamped at the top of the range
    app.handle_event(AppEvent::EncoderDoublePress);
    app.handle_event(AppEvent::EncoderRotate(1));
    app.handle_event(AppEvent::EncoderPress);
    app.handle_event(AppEvent::EncoderRotate(1)); // 11 -> 12
    app.handle_event(AppEvent::EncoderRotate(1)); // stays at 12
    app.handle_event(AppEvent::EncoderDoublePress);

    assert_eq!(app.snapshot().pitch_semitones, 12);
}

#[test]
fn test_pitch_cc_scaling() {
    let mut app = AppStateMachine::new();
    // CC 34 spans the full PitchLow range: -12..0
    app.set_menu_value_from_cc(34, 0);
    assert_eq!(app.get_values().pitch_low, -12);
    app.set_menu_value_from_cc(34, 127);
    assert_eq!(app.get_values().pitch_low, 0);
    app.set_menu_value_from_cc(34, 64);
    assert_eq!(app.get_values().pitch_low, -6);

    // CC 35 spans the full PitchHigh range: 0..12
    app.set_menu_value_from_cc(35, 0);
    assert_eq!(app.get_values().pitch_high, 0);
    app.set_menu_value_from_cc(35, 127);
    assert_eq!(app.get_values().pitch_high, 12);
}

#[test]
fn test_crush1_live_update_bit_rate() {
    let mut app = effects_app();
    app.handle_event(AppEvent::KeypadPress(4));
    assert_eq!(app.snapshot().bit_rate, 32);

    // BitRate1 is index 2 (after PitchLow, PitchHigh)
    app.handle_event(AppEvent::EncoderDoublePress);
    app.handle_event(AppEvent::EncoderRotate(1));
    app.handle_event(AppEvent::EncoderRotate(1));
    app.handle_event(AppEvent::EncoderPress);
    app.handle_event(AppEvent::EncoderRotate(-1)); // 32 -> 31
    app.handle_event(AppEvent::EncoderDoublePress);

    assert_eq!(app.snapshot().bit_rate, 31);
    assert_eq!(app.snapshot().crush, 1);
}

#[test]
fn test_crush2_live_update_sample_reduction() {
    let mut app = effects_app();
    app.handle_event(AppEvent::KeypadPress(6));
    assert_eq!(app.snapshot().sample_reduction, 16);

    // SampleRate2 is index 5
    app.handle_event(AppEvent::EncoderDoublePress);
    for _ in 0..5 {
        app.handle_event(AppEvent::EncoderRotate(1));
    }
    app.handle_event(AppEvent::EncoderPress);
    app.handle_event(AppEvent::EncoderRotate(-1)); // 16 -> 15
    app.handle_event(AppEvent::EncoderDoublePress);

    assert_eq!(app.snapshot().sample_reduction, 15);
    assert_eq!(app.snapshot().crush, 2);
}

#[test]
fn test_crush_none_always_hardcoded() {
    let mut app = effects_app();
    app.handle_event(AppEvent::KeypadPress(5));
    assert_eq!(app.snapshot().bit_rate, 32);
    assert_eq!(app.snapshot().sample_reduction, 1);
    assert_eq!(app.snapshot().crush, 0);
}

#[test]
fn test_formant_male_default() {
    let app = AppStateMachine::new();
    assert_eq!(app.get_values().formant_male, 5);
}

#[test]
fn test_formant_female_default() {
    let app = AppStateMachine::new();
    assert_eq!(app.get_values().formant_female, 5);
}

#[test]
fn test_formant_male_can_be_changed_via_menu() {
    let mut app = effects_app();

    // FormantMale is at index 6
    app.handle_event(AppEvent::EncoderDoublePress);
    for _ in 0..6 {
        app.handle_event(AppEvent::EncoderRotate(1));
    }
    app.handle_event(AppEvent::EncoderPress);
    app.handle_event(AppEvent::EncoderRotate(1)); // 5 -> 6
    app.handle_event(AppEvent::EncoderDoublePress);

    assert_eq!(app.get_values().formant_male, 6);
}

#[test]
fn test_formant_female_can_be_changed_via_menu() {
    let mut app = effects_app();

    // FormantFemale is at index 7
    app.handle_event(AppEvent::EncoderDoublePress);
    for _ in 0..7 {
        app.handle_event(AppEvent::EncoderRotate(1));
    }
    app.handle_event(AppEvent::EncoderPress);
    app.handle_event(AppEvent::EncoderRotate(1)); // 5 -> 6
    app.handle_event(AppEvent::EncoderDoublePress);

    assert_eq!(app.get_values().formant_female, 6);
}

// Further scenarios and concrete instances of the laws.

#[test]
fn two_encoder_presses_return_to_effects_screen() {
    let mut app = effects_app();
    let before = app.snapshot();
    app.handle_event(AppEvent::EncoderPress);
    app.handle_event(AppEvent::EncoderPress);
    assert_eq!(app.snapshot(), before);
}

#[test]
fn profile_cycles_with_period_five() {
    let start = AppState::Processing(ProcessingProfile::Dry);
    let mut s = start;
    for _ in 0..5 {
        s = s.cycle_profile();
        if s == start {
            break;
        }
    }
    assert_eq!(s, start);
    assert_eq!(
        start.cycle_profile(),
        AppState::Processing(ProcessingProfile::Harmony)
    );
    assert_eq!(AppState::Splash.cycle_profile(), AppState::Splash);
}

#[test]
fn keypad_eleven_cycles_profile_on_effects_screen() {
    let mut app = effects_app();
    app.handle_event(AppEvent::KeypadPress(11));
    assert_eq!(
        app.state(),
        AppState::EffectsProfile(ProcessingProfile::Vocode)
    );
    assert!(app.snapshot().process_cycle_pressed);
    app.handle_event(AppEvent::KeypadRelease(11));
    assert!(!app.snapshot().process_cycle_pressed);
}

#[test]
fn key_up_then_down_restores_key() {
    let mut app = effects_app();
    app.handle_event(AppEvent::KeypadPress(10));
    assert_eq!(app.snapshot().key, 23);
    app.handle_event(AppEvent::KeypadPress(12));
    assert_eq!(app.snapshot().key, 0);
}

#[test]
fn volume_is_clamped_to_ten() {
    let mut app = effects_app();
    app.handle_event(AppEvent::EncoderRotate(5));
    assert_eq!(app.volume, 10);
    for _ in 0..12 {
        app.handle_event(AppEvent::EncoderRotate(-1));
    }
    assert_eq!(app.volume, 0);
}

#[test]
fn waveform_and_percussion_keys_depend_on_profile() {
    let mut app = effects_app();
    app.handle_event(AppEvent::KeypadPress(9));
    assert_eq!(app.snapshot().formant, 2);
    app.handle_event(AppEvent::KeypadPress(11)); // Vocode
    app.handle_event(AppEvent::KeypadPress(8));
    assert_eq!(app.snapshot().waveform, 1);
    for _ in 0..3 {
        app.handle_event(AppEvent::KeypadPress(11)); // Dry, Harmony, Percussion
    }
    app.handle_event(AppEvent::KeypadPress(7));
    assert_eq!(app.snapshot().percussion, 0);
}

#[test]
fn processing_keypad_sets_and_clears_note() {
    let mut app = effects_app();
    app.handle_event(AppEvent::EncoderPress);
    app.handle_event(AppEvent::KeypadPress(5));
    assert_eq!(app.snapshot().note, 5);
    app.handle_event(AppEvent::KeypadRelease(5));
    assert_eq!(app.snapshot().note, 0);
}

#[test]
fn menu_context_wraps_around() {
    let mut app = effects_app();
    app.handle_event(AppEvent::EncoderDoublePress);
    let ctx = app.current();
    assert_eq!(ctx.previous_item, ("Pad Matrix", 0));
    assert_eq!(ctx.current_item, ("Pitch Low", -12));
    assert_eq!(ctx.next_item, ("Pitch High", 12));
    app.handle_event(AppEvent::EncoderRotate(-1));
    let ctx = app.current();
    assert_eq!(ctx.current_item, ("Pad Matrix", 0));
    assert_eq!(ctx.next_item, ("Pitch Low", -12));
}

#[test]
fn midi_setters() {
    let mut app = AppStateMachine::new();
    app.set_volume_from_midi(127);
    assert_eq!(app.volume, 10);
    app.set_volume_from_midi(64);
    assert_eq!(app.volume, 5);
    app.set_waveform_from_midi(0, 5);
    assert_eq!(app.snapshot().waveform, 2);
    app.set_waveform_from_midi(9, 4);
    assert_eq!(app.snapshot().waveform, 2);
    app.cycle_key_from_midi(0);
    assert_eq!(app.snapshot().key, 0);
    app.cycle_key_from_midi(100);
    assert_eq!(app.snapshot().key, 1);
    app.set_menu_value_from_cc(42, 127);
    assert_eq!(app.get_values().magnitude, 10);
    app.set_menu_value_from_cc(50, 127);
    assert_eq!(app.get_values().magnitude, 10);
}

#[test]
fn menu_values_clamp_and_name() {
    let mut v = MenuValues::default();
    v.set(MenuItem::BitRate1, 100);
    assert_eq!(v.get(MenuItem::BitRate1), 32);
    v.set(MenuItem::PadMatrix, -3);
    assert_eq!(v.get(MenuItem::PadMatrix), 0);
    assert_eq!(MenuValues::get_item_name(MenuItem::AutotuneSpeed), "Autotune Speed");
    assert_eq!(MenuValues::range(MenuItem::PitchLow), (-12, 0));
}

#[test]
fn menu_state_navigation_wraps() {
    let mut v = MenuValues::default();
    assert_eq!(
        MenuState::Selecting(0).handle_event(MenuNavEvent::Prev, &mut v),
        MenuState::Selecting(10)
    );
    assert_eq!(
        MenuState::Selecting(10).handle_event(MenuNavEvent::Next, &mut v),
        MenuState::Selecting(0)
    );
    assert_eq!(
        MenuState::Editing(3).handle_event(MenuNavEvent::Next, &mut v),
        MenuState::Editing(3)
    );
    assert_eq!(v.bit_rate_harsh, 11);
}
