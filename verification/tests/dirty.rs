use synthphone::dirty::{DirtyRegions, EffectsDirty, MenuDirty, ProcessingDirty};
use synthphone::state_machine::{AppState, MenuState, ProcessingProfile};

#[test]
fn first_draw_is_full_and_then_only_on_screen_change() {
    let mut d = DirtyRegions::new();
    let splash = AppState::Splash;
    assert!(d.needs_full_redraw(&splash));
    assert!(!d.needs_full_redraw(&splash));
    let fx = AppState::EffectsProfile(ProcessingProfile::Dry);
    assert!(d.needs_full_redraw(&fx));
    assert!(!d.needs_full_redraw(&fx));
    let menu = AppState::Menu(MenuState::Selecting(2), ProcessingProfile::Dry);
    assert!(d.needs_full_redraw(&menu));
    let menu2 = AppState::Menu(MenuState::Editing(3), ProcessingProfile::Vocode);
    assert!(!d.needs_full_redraw(&menu2));
}

#[test]
fn first_full_redraw_records_the_screen_kind() {
    let mut d = DirtyRegions::default();
    let p = AppState::Processing(ProcessingProfile::Dry);
    assert!(d.needs_full_redraw(&p));
    assert!(!d.needs_full_redraw(&p));
    let menu = AppState::Menu(MenuState::Selecting(0), ProcessingProfile::Dry);
    assert!(d.needs_full_redraw(&menu));
}

#[test]
fn processing_changes() {
    let mut d = DirtyRegions::new();
    let c = d.update_processing(0, 1, 5, 10, ProcessingProfile::PitchControl);
    assert!(c.key_changed && c.mode_changed && c.note_changed && c.octave_changed);
    assert!(c.volume_changed && !c.process_changed);
    assert!(c.any_changed());
    let c = d.update_processing(0, 1, 5, 10, ProcessingProfile::PitchControl);
    assert!(!c.any_changed());
    let c = d.update_processing(0, 1, 6, 10, ProcessingProfile::Vocode);
    assert_eq!(
        c,
        ProcessingDirty {
            key_changed: false,
            mode_changed: false,
            note_changed: true,
            octave_changed: false,
            volume_changed: false,
            process_changed: true,
        }
    );
}

#[test]
fn effects_changes_and_sprites() {
    let mut d = DirtyRegions::new();
    d.update_effects(0, 1, 0, 0, 10, ProcessingProfile::Dry, 0, false, false, false);
    let c = d.update_effects(0, 1, 0, 0, 9, ProcessingProfile::Dry, 0, false, false, false);
    assert!(c.any_changed());
    assert!(!c.sprites_changed());
    let c = d.update_effects(0, 1, 0, 0, 9, ProcessingProfile::Dry, 0, true, false, false);
    assert!(c.sprites_changed());
    assert_eq!(
        c,
        EffectsDirty {
            key_changed: false,
            octave_changed: false,
            formant_changed: false,
            crush_changed: false,
            volume_changed: false,
            process_changed: false,
            waveform_changed: false,
            key_down_changed: true,
            key_up_changed: false,
            process_cycle_changed: false,
        }
    );
}

#[test]
fn menu_changes() {
    let mut d = DirtyRegions::new();
    let c = d.update_menu(0, false);
    assert!(!c.any_changed());
    let c = d.update_menu(3, false);
    assert_eq!(c, MenuDirty { index_changed: true, editing_changed: false });
    let c = d.update_menu(3, true);
    assert!(c.editing_changed && c.any_changed());
}
