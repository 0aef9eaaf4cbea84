//! Change tracking for the display: which screen elements need redrawing.

use vstd::prelude::*;
use crate::state_machine::{AppState, ProcessingProfile};

verus! {

/// The kind of screen shown.
#[derive(Debug, Clone, Copy, PartialEq, Eq, Structural)]
pub enum StateType {
    Splash,
    Processing,
    Effects,
    Menu,
}

/// The kind of screen for an application state.
pub open spec fn state_type(s: AppState) -> StateType {
    match s {
        AppState::Splash => StateType::Splash,
        AppState::Processing(_) => StateType::Processing,
        AppState::EffectsProfile(_) => StateType::Effects,
        AppState::Menu(_, _) => StateType::Menu,
    }
}

/// The values last drawn, and whether the next draw must be a full one.
pub struct DirtyModel {
    pub prev_state_type: StateType,
    pub prev_key: i8,
    pub prev_mode: i8,
    pub prev_note: i8,
    pub prev_octave: i8,
    pub prev_volume: i8,
    pub prev_process: ProcessingProfile,
    pub prev_formant: i8,
    pub prev_crush: i8,
    pub prev_waveform: i8,
    pub prev_key_down: bool,
    pub prev_key_up: bool,
    pub prev_process_cycle: bool,
    pub prev_menu_index: usize,
    pub prev_menu_editing: bool,
    pub force_full_redraw: bool,
}

/// Tracks which parts of the display need to be redrawn.
#[derive(Debug, Clone, Copy)]
pub struct DirtyRegions {
    prev_state_type: StateType,
    prev_key: i8,
    prev_mode: i8,
    prev_note: i8,
    prev_octave: i8,
    prev_volume: i8,
    prev_process: ProcessingProfile,
    prev_formant: i8,
    prev_crush: i8,
    prev_waveform: i8,
    prev_key_down: bool,
    prev_key_up: bool,
    prev_process_cycle: bool,
    prev_menu_index: usize,
    prev_menu_editing: bool,
    force_full_redraw: bool,
}

/// Which parts of the processing screen changed.
#[derive(Debug, Clone, Copy, PartialEq, Eq, Structural)]
pub struct ProcessingDirty {
    pub key_changed: bool,
    pub mode_changed: bool,
    pub note_changed: bool,
    pub octave_changed: bool,
    pub volume_changed: bool,
    pub process_changed: bool,
}

/// Which parts of the effects screen changed.
#[derive(Debug, Clone, Copy, PartialEq, Eq, Structural)]
pub struct EffectsDirty {
    pub key_changed: bool,
    pub octave_changed: bool,
    pub formant_changed: bool,
    pub crush_changed: bool,
    pub volume_changed: bool,
    pub process_changed: bool,
    pub waveform_changed: bool,
    pub key_down_changed: bool,
    pub key_up_changed: bool,
    pub process_cycle_changed: bool,
}

/// Which parts of the menu screen changed.
#[derive(Debug, Clone, Copy, PartialEq, Eq, Structural)]
pub struct MenuDirty {
    pub index_changed: bool,
    pub editing_changed: bool,
}

/// The tracker before anything has been drawn: placeholders that match no
/// real value, and a full redraw pending.
pub open spec fn fresh_regions() -> DirtyModel {
    DirtyModel {
        prev_state_type: StateType::Splash,
        prev_key: -100i8,
        prev_mode: -100i8,
        prev_note: -100i8,
        prev_octave: -100i8,
        prev_volume: -100i8,
        prev_process: ProcessingProfile::PitchControl,
        prev_formant: -100i8,
        prev_crush: -100i8,
        prev_waveform: -100i8,
        prev_key_down: false,
        prev_key_up: false,
        prev_process_cycle: false,
        prev_menu_index: 0,
        prev_menu_editing: false,
        force_full_redraw: true,
    }
}

impl DirtyModel {
    /// The tracker after asking whether state `s` needs a full redraw, and
    /// the answer: yes the first time, and whenever the kind of screen
    /// changed; either way the kind of screen now shown is recorded.
    pub open spec fn redraw_check(self, s: AppState) -> (DirtyModel, bool) {
        if self.force_full_redraw {
            (DirtyModel { force_full_redraw: false, prev_state_type: state_type(s), ..self }, true)
        } else if state_type(s) != self.prev_state_type {
            (DirtyModel { prev_state_type: state_type(s), ..self }, true)
        } else {
            (self, false)
        }
    }

    /// The tracker after drawing a processing screen with these values.
    pub open spec fn after_processing(self, key: i8, octave: i8, note: i8, volume: i8, process: ProcessingProfile) -> DirtyModel {
        DirtyModel {
            prev_key: key,
            prev_mode: key,
            prev_note: note,
            prev_octave: octave,
            prev_volume: volume,
            prev_process: process,
            ..self
        }
    }

    /// What changed on the processing screen since the last draw.
    pub open spec fn processing_changes(self, key: i8, octave: i8, note: i8, volume: i8, process: ProcessingProfile) -> ProcessingDirty {
        ProcessingDirty {
            key_changed: self.prev_key != key,
            mode_changed: self.prev_mode != key,
            note_changed: self.prev_note != note,
            octave_changed: self.prev_octave != octave,
            volume_changed: self.prev_volume != volume,
            process_changed: self.prev_process != process,
        }
    }
}

/// `prev` replaced by `current`; whether it differed.
fn update_if_changed(prev: &mut i8, current: i8) -> (changed: bool)
    ensures
        changed == (*old(prev) != current),
        *final(prev) == current,
{
    if *prev != current {
        *prev = current;
        true
    } else {
        false
    }
}

/// `prev` replaced by `current`; whether it differed.
fn update_profile_if_changed(prev: &mut ProcessingProfile, current: ProcessingProfile) -> (changed: bool)
    ensures
        changed == (*old(prev) != current),
        *final(prev) == current,
{
    if *prev != current {
        *prev = current;
        true
    } else {
        false
    }
}

/// `prev` replaced by `current`; whether it differed.
fn update_flag_if_changed(prev: &mut bool, current: bool) -> (changed: bool)
    ensures
        changed == (*old(prev) != current),
        *final(prev) == current,
{
    if *prev != current {
        *prev = current;
        true
    } else {
        false
    }
}

/// `prev` replaced by `current`; whether it differed.
fn update_index_if_changed(prev: &mut usize, current: usize) -> (changed: bool)
    ensures
        changed == (*old(prev) != current),
        *final(prev) == current,
{
    if *prev != current {
        *prev = current;
        true
    } else {
        false
    }
}


impl View for DirtyRegions {
    type V = DirtyModel;

    closed spec fn view(&self) -> DirtyModel {
        DirtyModel {
            prev_state_type: self.prev_state_type,
            prev_key: self.prev_key,
            prev_mode: self.prev_mode,
            prev_note: self.prev_note,
            prev_octave: self.prev_octave,
            prev_volume: self.prev_volume,
            prev_process: self.prev_process,
            prev_formant: self.prev_formant,
            prev_crush: self.prev_crush,
            prev_waveform: self.prev_waveform,
            prev_key_down: self.prev_key_down,
            prev_key_up: self.prev_key_up,
            prev_process_cycle: self.prev_process_cycle,
            prev_menu_index: self.prev_menu_index,
            prev_menu_editing: self.prev_menu_editing,
            force_full_redraw: self.force_full_redraw,
        }
    }
}

impl DirtyRegions {
    /// A tracker that asks for a full redraw first.
    pub fn new() -> (d: Self)
        ensures
            d@ == fresh_regions(),
    {
        Self {
            prev_state_type: StateType::Splash,
            prev_key: -100,
            prev_mode: -100,
            prev_note: -100,
            prev_octave: -100,
            prev_volume: -100,
            prev_process: ProcessingProfile::PitchControl,
            prev_formant: -100,
            prev_crush: -100,
            prev_waveform: -100,
            prev_key_down: false,
            prev_key_up: false,
            prev_process_cycle: false,
            prev_menu_index: 0,
            prev_menu_editing: false,
            force_full_redraw: true,
        }
    }

    /// Whether the whole screen must be redrawn: the first time, and
    /// whenever the kind of screen changes.
    pub fn needs_full_redraw(&mut self, current_state: &AppState) -> (full: bool)
        ensures
            (final(self)@, full) == old(self)@.redraw_check(*current_state),
    {
        let current_type = match current_state {
            AppState::Splash => StateType::Splash,
            AppState::Processing(_) => StateType::Processing,
            AppState::EffectsProfile(_) => StateType::Effects,
            AppState::Menu(_, _) => StateType::Menu,
        };
        if self.force_full_redraw {
            self.force_full_redraw = false;
            self.prev_state_type = current_type;
            return true;
        }
        if current_type != self.prev_state_type {
            self.prev_state_type = current_type;
            return true;
        }
        false
    }

    /// Record the values of the processing screen; reports what changed.
    pub fn update_processing(
        &mut self,
        key: i8,
        octave: i8,
        note: i8,
        volume: i8,
        process: ProcessingProfile,
    ) -> (d: ProcessingDirty)
        ensures
            d == old(self)@.processing_changes(key, octave, note, volume, process),
            final(self)@ == old(self)@.after_processing(key, octave, note, volume, process),
    {
        ProcessingDirty {
            key_changed: update_if_changed(&mut self.prev_key, key),
            mode_changed: update_if_changed(&mut self.prev_mode, key),
            note_changed: update_if_changed(&mut self.prev_note, note),
            octave_changed: update_if_changed(&mut self.prev_octave, octave),
            volume_changed: update_if_changed(&mut self.prev_volume, volume),
            process_changed: update_profile_if_changed(&mut self.prev_process, process),
        }
    }

    /// Record the values of the effects screen; reports what changed.
    pub fn update_effects(
        &mut self,
        key: i8,
        octave: i8,
        formant: i8,
        crush: i8,
        volume: i8,
        process: ProcessingProfile,
        waveform: i8,
        key_down: bool,
        key_up: bool,
        process_cycle: bool,
    ) -> (d: EffectsDirty)
        ensures
            d == (EffectsDirty {
                key_changed: old(self)@.prev_key != key,
                octave_changed: old(self)@.prev_octave != octave,
                formant_changed: old(self)@.prev_formant != formant,
                crush_changed: old(self)@.prev_crush != crush,
                volume_changed: old(self)@.prev_volume != volume,
                process_changed: old(self)@.prev_process != process,
                waveform_changed: old(self)@.prev_waveform != waveform,
                key_down_changed: old(self)@.prev_key_down != key_down,
                key_up_changed: old(self)@.prev_key_up != key_up,
                process_cycle_changed: old(self)@.prev_process_cycle != process_cycle,
            }),
            final(self)@ == (DirtyModel {
                prev_key: key,
                prev_octave: octave,
                prev_formant: formant,
                prev_crush: crush,
                prev_volume: volume,
                prev_process: process,
                prev_waveform: waveform,
                prev_key_down: key_down,
                prev_key_up: key_up,
                prev_process_cycle: process_cycle,
                ..old(self)@
            }),
    {
        EffectsDirty {
            key_changed: update_if_changed(&mut self.prev_key, key),
            octave_changed: update_if_changed(&mut self.prev_octave, octave),
            formant_changed: update_if_changed(&mut self.prev_formant, formant),
            crush_changed: update_if_changed(&mut self.prev_crush, crush),
            volume_changed: update_if_changed(&mut self.prev_volume, volume),
            process_changed: update_profile_if_changed(&mut self.prev_process, process),
            waveform_changed: update_if_changed(&mut self.prev_waveform, waveform),
            key_down_changed: update_flag_if_changed(&mut self.prev_key_down, key_down),
            key_up_changed: update_flag_if_changed(&mut self.prev_key_up, key_up),
            process_cycle_changed: update_flag_if_changed(
                &mut self.prev_process_cycle,
                process_cycle,
            ),
        }
    }

    /// Record the menu cursor and editing flag; reports what changed.
    pub fn update_menu(&mut self, index: usize, editing: bool) -> (d: MenuDirty)
        ensures
            d == (MenuDirty {
                index_changed: old(self)@.prev_menu_index != index,
                editing_changed: old(self)@.prev_menu_editing != editing,
            }),
            final(self)@ == (DirtyModel {
                prev_menu_index: index,
                prev_menu_editing: editing,
                ..old(self)@
            }),
    {
        MenuDirty {
            index_changed: update_index_if_changed(&mut self.prev_menu_index, index),
            editing_changed: update_flag_if_changed(&mut self.prev_menu_editing, editing),
        }
    }
}

impl Default for DirtyRegions {
    fn default() -> (d: Self)
        ensures
            d@ == fresh_regions(),
    {
        Self::new()
    }
}

impl ProcessingDirty {
    /// Some element of the processing screen changed.
    pub fn any_changed(&self) -> (b: bool)
        ensures
            b == (self.key_changed || self.mode_changed || self.note_changed
                || self.octave_changed || self.volume_changed || self.process_changed),
    {
        self.key_changed || self.mode_changed || self.note_changed || self.octave_changed
            || self.volume_changed || self.process_changed
    }
}

impl EffectsDirty {
    /// Some element of the effects screen changed.
    pub fn any_changed(&self) -> (b: bool)
        ensures
            b == (self.key_changed || self.octave_changed || self.formant_changed
                || self.crush_changed || self.volume_changed || self.process_changed
                || self.waveform_changed || self.key_down_changed || self.key_up_changed
                || self.process_cycle_changed),
    {
        self.key_changed || self.octave_changed || self.formant_changed || self.crush_changed
            || self.volume_changed || self.process_changed || self.waveform_changed
            || self.key_down_changed || self.key_up_changed || self.process_cycle_changed
    }

    /// Some element drawn as a sprite changed (everything but key, volume
    /// and profile text).
    pub fn sprites_changed(&self) -> (b: bool)
        ensures
            b == (self.octave_changed || self.formant_changed || self.crush_changed
                || self.waveform_changed || self.key_down_changed || self.key_up_changed
                || self.process_cycle_changed),
    {
        self.octave_changed || self.formant_changed || self.crush_changed || self.waveform_changed
            || self.key_down_changed || self.key_up_changed || self.process_cycle_changed
    }
}

impl MenuDirty {
    /// The menu cursor or the editing flag changed.
    pub fn any_changed(&self) -> (b: bool)
        ensures
            b == (self.index_changed || self.editing_changed),
    {
        self.index_changed || self.editing_changed
    }
}

/// Drawing the same processing values twice in a row reports no change the
/// second time.
pub proof fn law_processing_update_is_idempotent(m: DirtyModel, key: i8, octave: i8, note: i8, volume: i8, process: ProcessingProfile)
    ensures
        ({
            let after = m.after_processing(key, octave, note, volume, process);
            let d = after.processing_changes(key, octave, note, volume, process);
            !(d.key_changed || d.mode_changed || d.note_changed || d.octave_changed
                || d.volume_changed || d.process_changed)
        }),
{
}

/// The first draw of a fresh tracker reports every processing value as
/// changed, since the placeholders match no value of a real screen.
pub proof fn law_first_processing_draw_is_complete(key: i8, octave: i8, note: i8, volume: i8)
    requires
        key != -100 && octave != -100 && note != -100 && volume != -100,
    ensures
        ({
            let d = fresh_regions().processing_changes(key, octave, note, volume, ProcessingProfile::PitchControl);
            d.key_changed && d.mode_changed && d.note_changed && d.octave_changed && d.volume_changed
        }),
{
}

/// A full redraw is requested on the first draw and after a change of
/// screen kind, and not again while the kind stays the same.
pub proof fn law_full_redraw_once_per_screen_change(m: DirtyModel, s: AppState)
    ensures
        !m.redraw_check(s).0.redraw_check(s).1,
        m.redraw_check(s).1 == (m.force_full_redraw || state_type(s) != m.prev_state_type),
{
}

} // verus!
