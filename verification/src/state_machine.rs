//! The user-interface state machine of the effects box: splash screen,
//! processing and effects screens, and the settings menu.

use vstd::prelude::*;

verus! {

/// The signal-processing profiles the box can run.
#[derive(Debug, Copy, Clone, PartialEq, Eq, Structural)]
pub enum ProcessingProfile {
    PitchControl,
    Vocode,
    Dry,
    Harmony,
    Percussion,
}

/// The top-level screens.
#[derive(Debug, Copy, Clone, PartialEq, Eq, Structural)]
pub enum AppState {
    Splash,
    Processing(ProcessingProfile),
    EffectsProfile(ProcessingProfile),
    Menu(MenuState, ProcessingProfile),
}

/// Menu state: which item is highlighted, and whether it is being edited.
#[derive(Debug, Copy, Clone, PartialEq, Eq, Structural)]
pub enum MenuState {
    Selecting(usize),
    Editing(usize),
}

/// The adjustable menu items, in menu order.
#[derive(Debug, Copy, Clone, PartialEq, Eq, Structural)]
pub enum MenuItem {
    PitchLow,
    PitchHigh,
    BitRate1,
    BitRate2,
    SampleRate1,
    SampleRate2,
    FormantMale,
    FormantFemale,
    AutotuneSpeed,
    Magnitude,
    PadMatrix,
}

/// Number of menu items.
pub const MENU_ITEM_COUNT: usize = 11;

/// The menu item shown at position `idx` of the menu.
pub open spec fn item_at(idx: int) -> MenuItem {
    if idx == 0 {
        MenuItem::PitchLow
    } else if idx == 1 {
        MenuItem::PitchHigh
    } else if idx == 2 {
        MenuItem::BitRate1
    } else if idx == 3 {
        MenuItem::BitRate2
    } else if idx == 4 {
        MenuItem::SampleRate1
    } else if idx == 5 {
        MenuItem::SampleRate2
    } else if idx == 6 {
        MenuItem::FormantMale
    } else if idx == 7 {
        MenuItem::FormantFemale
    } else if idx == 8 {
        MenuItem::AutotuneSpeed
    } else if idx == 9 {
        MenuItem::Magnitude
    } else {
        MenuItem::PadMatrix
    }
}

/// Smallest value a menu item may hold.
pub open spec fn item_min(item: MenuItem) -> int {
    match item {
        MenuItem::PitchLow => -12,
        MenuItem::PitchHigh => 0,
        MenuItem::BitRate1 => 4,
        MenuItem::BitRate2 => 4,
        MenuItem::SampleRate1 => 1,
        MenuItem::SampleRate2 => 1,
        MenuItem::FormantMale => 1,
        MenuItem::FormantFemale => 1,
        MenuItem::AutotuneSpeed => 1,
        MenuItem::Magnitude => 1,
        MenuItem::PadMatrix => 0,
    }
}

/// Largest value a menu item may hold.
pub open spec fn item_max(item: MenuItem) -> int {
    match item {
        MenuItem::PitchLow => 0,
        MenuItem::PitchHigh => 12,
        MenuItem::BitRate1 => 32,
        MenuItem::BitRate2 => 32,
        MenuItem::SampleRate1 => 32,
        MenuItem::SampleRate2 => 32,
        MenuItem::FormantMale => 10,
        MenuItem::FormantFemale => 10,
        MenuItem::AutotuneSpeed => 10,
        MenuItem::Magnitude => 10,
        MenuItem::PadMatrix => 1,
    }
}

/// `v` limited to `lo..=hi`.
pub open spec fn clamp(v: int, lo: int, hi: int) -> int {
    if v < lo {
        lo
    } else if v > hi {
        hi
    } else {
        v
    }
}

/// The menu item at position `idx`.
pub fn menu_item_at(idx: usize) -> (item: MenuItem)
    requires
        idx < MENU_ITEM_COUNT,
    ensures
        item == item_at(idx as int),
{
    match idx {
        0 => MenuItem::PitchLow,
        1 => MenuItem::PitchHigh,
        2 => MenuItem::BitRate1,
        3 => MenuItem::BitRate2,
        4 => MenuItem::SampleRate1,
        5 => MenuItem::SampleRate2,
        6 => MenuItem::FormantMale,
        7 => MenuItem::FormantFemale,
        8 => MenuItem::AutotuneSpeed,
        9 => MenuItem::Magnitude,
        _ => MenuItem::PadMatrix,
    }
}


/// Storage for all adjustable menu values.
#[derive(Debug, Clone, Copy)]
pub struct MenuValues {
    /// Semitone offset of the low pitch preset (-12..0, 0 = no shift)
    pub pitch_low: i8,
    /// Semitone offset of the high pitch preset (0..12, 0 = no shift)
    pub pitch_high: i8,
    pub bit_rate_soft: i8,
    pub bit_rate_harsh: i8,
    pub sample_reduction_soft: i8,
    pub sample_reduction_harsh: i8,
    pub formant_male: i8,
    pub formant_female: i8,
    pub autotune_speed: i8,
    pub magnitude: i8,
    pub pad_matrix: i8,
}

/// The user-facing name of a menu item.
pub open spec fn item_name(item: MenuItem) -> &'static str {
    match item {
        MenuItem::PitchLow => "Pitch Low",
        MenuItem::PitchHigh => "Pitch High",
        MenuItem::BitRate1 => "Bit Rate 1",
        MenuItem::BitRate2 => "Bit Rate 2",
        MenuItem::SampleRate1 => "Sample Rate 1",
        MenuItem::SampleRate2 => "Sample Rate 2",
        MenuItem::FormantMale => "Formant Male",
        MenuItem::FormantFemale => "Formant Female",
        MenuItem::AutotuneSpeed => "Autotune Speed",
        MenuItem::Magnitude => "Magnitude",
        MenuItem::PadMatrix => "Pad Matrix",
    }
}

impl MenuValues {
    /// The value stored for `item`.
    pub open spec fn value_of(self, item: MenuItem) -> i8 {
        match item {
            MenuItem::PitchLow => self.pitch_low,
            MenuItem::PitchHigh => self.pitch_high,
            MenuItem::BitRate1 => self.bit_rate_soft,
            MenuItem::BitRate2 => self.bit_rate_harsh,
            MenuItem::SampleRate1 => self.sample_reduction_soft,
            MenuItem::SampleRate2 => self.sample_reduction_harsh,
            MenuItem::FormantMale => self.formant_male,
            MenuItem::FormantFemale => self.formant_female,
            MenuItem::AutotuneSpeed => self.autotune_speed,
            MenuItem::Magnitude => self.magnitude,
            MenuItem::PadMatrix => self.pad_matrix,
        }
    }

    /// These values with the one stored for `item` replaced by `v`.
    pub open spec fn with_value(self, item: MenuItem, v: i8) -> MenuValues {
        match item {
            MenuItem::PitchLow => MenuValues { pitch_low: v, ..self },
            MenuItem::PitchHigh => MenuValues { pitch_high: v, ..self },
            MenuItem::BitRate1 => MenuValues { bit_rate_soft: v, ..self },
            MenuItem::BitRate2 => MenuValues { bit_rate_harsh: v, ..self },
            MenuItem::SampleRate1 => MenuValues { sample_reduction_soft: v, ..self },
            MenuItem::SampleRate2 => MenuValues { sample_reduction_harsh: v, ..self },
            MenuItem::FormantMale => MenuValues { formant_male: v, ..self },
            MenuItem::FormantFemale => MenuValues { formant_female: v, ..self },
            MenuItem::AutotuneSpeed => MenuValues { autotune_speed: v, ..self },
            MenuItem::Magnitude => MenuValues { magnitude: v, ..self },
            MenuItem::PadMatrix => MenuValues { pad_matrix: v, ..self },
        }
    }

    /// What `set(item, v)` leaves behind: `v` limited to the item's range.
    pub open spec fn after_set(self, item: MenuItem, v: int) -> MenuValues {
        self.with_value(item, clamp(v, item_min(item), item_max(item)) as i8)
    }

    /// Every value lies within its item's range.
    pub open spec fn in_range(self) -> bool {
        forall|item: MenuItem|
            item_min(item) <= #[trigger] self.value_of(item) <= item_max(item)
    }

    /// Get the value for a specific menu item.
    pub fn get(&self, item: MenuItem) -> (v: i8)
        ensures
            v == self.value_of(item),
    {
        match item {
            MenuItem::PitchLow => self.pitch_low,
            MenuItem::PitchHigh => self.pitch_high,
            MenuItem::BitRate1 => self.bit_rate_soft,
            MenuItem::BitRate2 => self.bit_rate_harsh,
            MenuItem::SampleRate1 => self.sample_reduction_soft,
            MenuItem::SampleRate2 => self.sample_reduction_harsh,
            MenuItem::FormantMale => self.formant_male,
            MenuItem::FormantFemale => self.formant_female,
            MenuItem::AutotuneSpeed => self.autotune_speed,
            MenuItem::Magnitude => self.magnitude,
            MenuItem::PadMatrix => self.pad_matrix,
        }
    }

    /// Set the value for a menu item, limited to the item's range.
    pub fn set(&mut self, item: MenuItem, value: i8)
        ensures
            *final(self) == old(self).after_set(item, value as int),
    {
        let (lo, hi) = MenuValues::range(item);
        let v = if value < lo {
            lo
        } else if value > hi {
            hi
        } else {
            value
        };
        match item {
            MenuItem::PitchLow => self.pitch_low = v,
            MenuItem::PitchHigh => self.pitch_high = v,
            MenuItem::BitRate1 => self.bit_rate_soft = v,
            MenuItem::BitRate2 => self.bit_rate_harsh = v,
            MenuItem::SampleRate1 => self.sample_reduction_soft = v,
            MenuItem::SampleRate2 => self.sample_reduction_harsh = v,
            MenuItem::FormantMale => self.formant_male = v,
            MenuItem::FormantFemale => self.formant_female = v,
            MenuItem::AutotuneSpeed => self.autotune_speed = v,
            MenuItem::Magnitude => self.magnitude = v,
            MenuItem::PadMatrix => self.pad_matrix = v,
        }
    }

    /// The user-friendly name of a menu item.
    pub fn get_item_name(item: MenuItem) -> (name: &'static str)
        ensures
            name@ == item_name(item)@,
    {
        match item {
            MenuItem::PitchLow => "Pitch Low",
            MenuItem::PitchHigh => "Pitch High",
            MenuItem::BitRate1 => "Bit Rate 1",
            MenuItem::BitRate2 => "Bit Rate 2",
            MenuItem::SampleRate1 => "Sample Rate 1",
            MenuItem::SampleRate2 => "Sample Rate 2",
            MenuItem::FormantMale => "Formant Male",
            MenuItem::FormantFemale => "Formant Female",
            MenuItem::AutotuneSpeed => "Autotune Speed",
            MenuItem::Magnitude => "Magnitude",
            MenuItem::PadMatrix => "Pad Matrix",
        }
    }

    /// The `(min, max)` range of a menu item.
    pub fn range(item: MenuItem) -> (r: (i8, i8))
        ensures
            r.0 == item_min(item),
            r.1 == item_max(item),
    {
        match item {
            MenuItem::PitchLow => (-12, 0),
            MenuItem::PitchHigh => (0, 12),
            MenuItem::BitRate1 => (4, 32),
            MenuItem::BitRate2 => (4, 32),
            MenuItem::SampleRate1 => (1, 32),
            MenuItem::SampleRate2 => (1, 32),
            MenuItem::FormantMale => (1, 10),
            MenuItem::FormantFemale => (1, 10),
            MenuItem::AutotuneSpeed => (1, 10),
            MenuItem::Magnitude => (1, 10),
            MenuItem::PadMatrix => (0, 1),
        }
    }
}

/// The factory menu values.
pub open spec fn default_values() -> MenuValues {
    MenuValues {
        pitch_low: -12i8,
        pitch_high: 12,
        bit_rate_soft: 32,
        bit_rate_harsh: 10,
        sample_reduction_soft: 5,
        sample_reduction_harsh: 16,
        formant_male: 5,
        formant_female: 5,
        autotune_speed: 5,
        magnitude: 5,
        pad_matrix: 0,
    }
}

impl Default for MenuValues {
    fn default() -> (v: Self)
        ensures
            v == default_values(),
    {
        MenuValues {
            pitch_low: -12,
            pitch_high: 12,
            bit_rate_soft: 32,
            bit_rate_harsh: 10,
            sample_reduction_soft: 5,
            sample_reduction_harsh: 16,
            formant_male: 5,
            formant_female: 5,
            autotune_speed: 5,
            magnitude: 5,
            pad_matrix: 0,
        }
    }
}


/// Events raised by the hardware inputs.
#[derive(Debug, Copy, Clone, PartialEq, Eq, Structural)]
pub enum AppEvent {
    /// Splash screen animation finished
    SplashComplete,
    /// Single press of the encoder
    EncoderPress,
    /// Double press of the encoder
    EncoderDoublePress,
    /// Rotation of the encoder (positive or negative)
    EncoderRotate(i8),
    /// Hangup button press
    HangupPress,
    /// Press of a keypad button (1-12)
    KeypadPress(usize),
    /// Release of a keypad button (1-12)
    KeypadRelease(usize),
    /// Cycle to the next processing profile
    CycleProcessingProfile,
    /// Select a specific processing profile
    SetProcessingProfile(ProcessingProfile),
    /// Set octave (low=-1, normal=0, high=1)
    SetOctave(i8),
    /// Set bit crush (1=crush1, 0=none, 2=crush2)
    SetBitCrush(i8),
    /// Set formant (-1=male, 0=none, 1=female)
    SetFormant(i8),
    /// Change the musical key up or down
    KeyChange(i8),
    NoOp,
}

/// The screen that `event` leads to from `state` (menu navigation aside).
pub open spec fn next_state(state: AppState, event: AppEvent) -> AppState {
    match (state, event) {
        (AppState::Splash, AppEvent::SplashComplete) => AppState::EffectsProfile(
            ProcessingProfile::PitchControl,
        ),
        (AppState::Splash, AppEvent::EncoderPress) => AppState::EffectsProfile(
            ProcessingProfile::PitchControl,
        ),
        (AppState::EffectsProfile(p), AppEvent::EncoderPress) => AppState::Processing(p),
        (AppState::Processing(p), AppEvent::EncoderPress) => AppState::EffectsProfile(p),
        (AppState::Processing(p), AppEvent::EncoderDoublePress) => AppState::Menu(
            MenuState::Selecting(0),
            p,
        ),
        (AppState::EffectsProfile(p), AppEvent::EncoderDoublePress) => AppState::Menu(
            MenuState::Selecting(0),
            p,
        ),
        (AppState::Menu(_, p), AppEvent::EncoderDoublePress) => AppState::Processing(p),
        (AppState::EffectsProfile(_), AppEvent::SetProcessingProfile(q)) => AppState::Processing(
            q,
        ),
        _ => state,
    }
}

/// The profile that follows `p` in the cycle
/// PitchControl -> Vocode -> Dry -> Harmony -> Percussion -> PitchControl.
pub open spec fn next_profile(p: ProcessingProfile) -> ProcessingProfile {
    match p {
        ProcessingProfile::PitchControl => ProcessingProfile::Vocode,
        ProcessingProfile::Vocode => ProcessingProfile::Dry,
        ProcessingProfile::Dry => ProcessingProfile::Harmony,
        ProcessingProfile::Harmony => ProcessingProfile::Percussion,
        ProcessingProfile::Percussion => ProcessingProfile::PitchControl,
    }
}

/// `state` with its profile advanced, on the processing and effects screens.
pub open spec fn cycled(state: AppState) -> AppState {
    match state {
        AppState::EffectsProfile(p) => AppState::EffectsProfile(next_profile(p)),
        AppState::Processing(p) => AppState::Processing(next_profile(p)),
        _ => state,
    }
}

impl Default for AppState {
    fn default() -> (s: Self)
        ensures
            s == AppState::Splash,
    {
        Self::new()
    }
}

impl AppState {
    /// A new state machine starts at the splash screen.
    pub fn new() -> (s: Self)
        ensures
            s == AppState::Splash,
    {
        AppState::Splash
    }

    /// The state that follows `event`.
    pub fn transition(self, event: AppEvent) -> (s: Self)
        ensures
            s == next_state(self, event),
    {
        match (self, event) {
            (AppState::Splash, AppEvent::SplashComplete) => {
                AppState::EffectsProfile(ProcessingProfile::PitchControl)
            },
            (AppState::Splash, AppEvent::EncoderPress) => {
                AppState::EffectsProfile(ProcessingProfile::PitchControl)
            },
            (AppState::EffectsProfile(profile), AppEvent::EncoderPress) => {
                AppState::Processing(profile)
            },
            (AppState::Processing(profile), AppEvent::EncoderPress) => {
                AppState::EffectsProfile(profile)
            },
            (AppState::Processing(profile), AppEvent::EncoderDoublePress) => {
                AppState::Menu(MenuState::Selecting(0), profile)
            },
            (AppState::EffectsProfile(profile), AppEvent::EncoderDoublePress) => {
                AppState::Menu(MenuState::Selecting(0), profile)
            },
            (AppState::Menu(_, profile), AppEvent::EncoderDoublePress) => {
                AppState::Processing(profile)
            },
            (AppState::EffectsProfile(_), AppEvent::CycleProcessingProfile) => self,
            (AppState::EffectsProfile(_), AppEvent::SetProcessingProfile(new_profile)) => {
                AppState::Processing(new_profile)
            },
            _ => self,
        }
    }

    /// Advance the processing profile, on the processing and effects screens.
    pub fn cycle_profile(&self) -> (s: Self)
        ensures
            s == cycled(*self),
    {
        match self {
            AppState::EffectsProfile(ProcessingProfile::PitchControl) => {
                AppState::EffectsProfile(ProcessingProfile::Vocode)
            },
            AppState::EffectsProfile(ProcessingProfile::Vocode) => {
                AppState::EffectsProfile(ProcessingProfile::Dry)
            },
            AppState::EffectsProfile(ProcessingProfile::Dry) => {
                AppState::EffectsProfile(ProcessingProfile::Harmony)
            },
            AppState::EffectsProfile(ProcessingProfile::Harmony) => {
                AppState::EffectsProfile(ProcessingProfile::Percussion)
            },
            AppState::EffectsProfile(ProcessingProfile::Percussion) => {
                AppState::EffectsProfile(ProcessingProfile::PitchControl)
            },
            AppState::Processing(ProcessingProfile::PitchControl) => {
                AppState::Processing(ProcessingProfile::Vocode)
            },
            AppState::Processing(ProcessingProfile::Vocode) => {
                AppState::Processing(ProcessingProfile::Dry)
            },
            AppState::Processing(ProcessingProfile::Dry) => {
                AppState::Processing(ProcessingProfile::Harmony)
            },
            AppState::Processing(ProcessingProfile::Harmony) => {
                AppState::Processing(ProcessingProfile::Percussion)
            },
            AppState::Processing(ProcessingProfile::Percussion) => {
                AppState::Processing(ProcessingProfile::PitchControl)
            },
            _ => *self,
        }
    }
}

/// Menu navigation events.
#[derive(Debug, Copy, Clone, PartialEq, Eq, Structural)]
pub enum MenuNavEvent {
    Next,
    Prev,
    Select,
}

impl MenuState {
    /// The highlighted item's position.
    pub open spec fn index(self) -> int {
        match self {
            MenuState::Selecting(i) => i as int,
            MenuState::Editing(i) => i as int,
        }
    }

    /// `handle_event(event, values)` neither overflows nor indexes outside the menu.
    pub open spec fn can_handle(self, event: MenuNavEvent, values: MenuValues) -> bool {
        match (self, event) {
            (MenuState::Selecting(i), MenuNavEvent::Next) => i < usize::MAX,
            (MenuState::Selecting(i), MenuNavEvent::Prev) => i + MENU_ITEM_COUNT <= usize::MAX,
            (MenuState::Selecting(_), MenuNavEvent::Select) => true,
            (MenuState::Editing(i), MenuNavEvent::Next) => i < MENU_ITEM_COUNT
                && values.value_of(item_at(i as int)) < i8::MAX,
            (MenuState::Editing(i), MenuNavEvent::Prev) => i < MENU_ITEM_COUNT
                && values.value_of(item_at(i as int)) > i8::MIN,
            (MenuState::Editing(_), MenuNavEvent::Select) => true,
        }
    }

    /// The menu state after `event`.
    pub open spec fn next(self, event: MenuNavEvent) -> MenuState {
        match (self, event) {
            (MenuState::Selecting(i), MenuNavEvent::Next) => MenuState::Selecting(
                ((i + 1) % (MENU_ITEM_COUNT as int)) as usize,
            ),
            (MenuState::Selecting(i), MenuNavEvent::Prev) => MenuState::Selecting(
                ((i + MENU_ITEM_COUNT - 1) % (MENU_ITEM_COUNT as int)) as usize,
            ),
            (MenuState::Selecting(i), MenuNavEvent::Select) => MenuState::Editing(i),
            (MenuState::Editing(i), MenuNavEvent::Select) => MenuState::Selecting(i),
            (MenuState::Editing(i), _) => MenuState::Editing(i),
        }
    }

    /// The menu values after `event`: editing steps the edited item by one.
    pub open spec fn edited(self, event: MenuNavEvent, values: MenuValues) -> MenuValues {
        match (self, event) {
            (MenuState::Editing(i), MenuNavEvent::Next) => {
                let item = item_at(i as int);
                values.after_set(item, values.value_of(item) + 1)
            },
            (MenuState::Editing(i), MenuNavEvent::Prev) => {
                let item = item_at(i as int);
                values.after_set(item, values.value_of(item) - 1)
            },
            _ => values,
        }
    }

    /// Handle menu navigation and editing.
    pub fn handle_event(&self, event: MenuNavEvent, values: &mut MenuValues) -> (s: MenuState)
        requires
            self.can_handle(event, *old(values)),
        ensures
            s == self.next(event),
            *final(values) == self.edited(event, *old(values)),
    {
        match (self, event) {
            (MenuState::Selecting(idx), MenuNavEvent::Next) => {
                MenuState::Selecting((idx + 1) % MENU_ITEM_COUNT)
            },
            (MenuState::Selecting(idx), MenuNavEvent::Prev) => {
                MenuState::Selecting((idx + MENU_ITEM_COUNT - 1) % MENU_ITEM_COUNT)
            },
            (MenuState::Selecting(idx), MenuNavEvent::Select) => MenuState::Editing(*idx),
            (MenuState::Editing(idx), MenuNavEvent::Next) => {
                let item = menu_item_at(*idx);
                let val = values.get(item);
                values.set(item, val + 1);
                MenuState::Editing(*idx)
            },
            (MenuState::Editing(idx), MenuNavEvent::Prev) => {
                let item = menu_item_at(*idx);
                let val = values.get(item);
                values.set(item, val - 1);
                MenuState::Editing(*idx)
            },
            (MenuState::Editing(idx), MenuNavEvent::Select) => MenuState::Selecting(*idx),
        }
    }
}


/// The abstract state of an [`AppStateMachine`].
pub struct MachineModel {
    pub state: AppState,
    pub values: MenuValues,
    pub key: i8,
    pub octave_preset: i8,
    pub bitcrush: i8,
    pub formant: i8,
    pub waveform: i8,
    pub percussion: i8,
    pub volume: i8,
    pub note: i8,
    pub key_down_pressed: bool,
    pub process_cycle_pressed: bool,
    pub key_up_pressed: bool,
}

/// Main state machine of the effects box.
pub struct AppStateMachine {
    state: AppState,
    values: MenuValues,
    current_key: i8,
    /// 0 = low, 1 = normal, 2 = high; the pitch offset itself comes from the menu values
    current_octave_preset: i8,
    current_bitcrush: i8,
    current_formant: i8,
    current_waveform: i8,
    current_percussion: i8,
    pub volume: i8,
    pub note: i8,
    pub key_down_pressed: bool,
    pub process_cycle_pressed: bool,
    pub key_up_pressed: bool,
}

/// Everything the display and the audio path read from the state machine.
#[derive(Debug, Copy, Clone, PartialEq, Eq, Structural)]
pub struct AppStateMachineSnapshot {
    pub current_state: AppState,
    pub key: i8,
    /// Active pitch offset in semitones (0 = no shift), from the selected preset
    pub pitch_semitones: i8,
    /// 0 = low, 1 = normal, 2 = high; selects the display sprite
    pub octave_preset: i8,
    pub note: i8,
    pub volume: i8,
    pub crush: i8,
    pub sample_reduction: i8,
    pub bit_rate: i8,
    pub formant: i8,
    pub autotune_speed: i8,
    pub magnitude: i8,
    pub pad_matrix: i8,
    pub key_down_pressed: bool,
    pub process_cycle_pressed: bool,
    pub key_up_pressed: bool,
    pub waveform: i8,
    pub percussion: i8,
}

/// The previous, current and next menu entries shown on the menu screen.
pub struct MenuContext {
    pub previous_item: (&'static str, i8),
    pub current_item: (&'static str, i8),
    pub next_item: (&'static str, i8),
}

/// The label shown on the menu screen for the item at position `idx`.
pub open spec fn context_label(idx: int) -> &'static str {
    if idx == 0 {
        "Pitch Low"
    } else if idx == 1 {
        "Pitch High"
    } else if idx == 2 {
        "Bit Rate 1"
    } else if idx == 3 {
        "Bit Rate 2"
    } else if idx == 4 {
        "Sample Rate 1"
    } else if idx == 5 {
        "Sample Rate 2"
    } else if idx == 6 {
        "Formant Male"
    } else if idx == 7 {
        "Formant Female"
    } else if idx == 8 {
        "Speed"
    } else if idx == 9 {
        "Magnitude"
    } else {
        "Pad Matrix"
    }
}

/// The machine as it is created.
pub open spec fn initial_model() -> MachineModel {
    MachineModel {
        state: AppState::Splash,
        values: default_values(),
        key: 0,
        octave_preset: 1,
        bitcrush: 0,
        formant: 0,
        waveform: 0,
        percussion: 1,
        volume: 10,
        note: 0,
        key_down_pressed: false,
        process_cycle_pressed: false,
        key_up_pressed: false,
    }
}

/// The menu item that MIDI controller `controller` adjusts, if any.
pub open spec fn cc_item(controller: u8) -> Option<MenuItem> {
    if controller == 34 {
        Some(MenuItem::PitchLow)
    } else if controller == 35 {
        Some(MenuItem::PitchHigh)
    } else if controller == 36 {
        Some(MenuItem::BitRate1)
    } else if controller == 37 {
        Some(MenuItem::BitRate2)
    } else if controller == 38 {
        Some(MenuItem::SampleRate1)
    } else if controller == 39 {
        Some(MenuItem::SampleRate2)
    } else if controller == 40 {
        Some(MenuItem::FormantMale)
    } else if controller == 41 {
        Some(MenuItem::FormantFemale)
    } else if controller == 42 {
        Some(MenuItem::Magnitude)
    } else {
        None
    }
}

/// A MIDI CC value `0..=127` scaled proportionally onto the range of `item`.
pub open spec fn cc_scaled(item: MenuItem, value: u8) -> int {
    item_min(item) + (value as int * (item_max(item) - item_min(item))) / 127
}

impl MachineModel {
    /// The invariant of the machine: the menu cursor is on an item, the
    /// key lies in `0..24` and every menu value lies in its range.
    pub open spec fn wf(self) -> bool {
        &&& (self.state matches AppState::Menu(ms, _) ==> 0 <= ms.index() < MENU_ITEM_COUNT)
        &&& 0 <= self.key < 24
        &&& self.values.in_range()
    }

    /// The event does not overflow the volume when it adjusts it.
    pub open spec fn accepts(self, event: AppEvent) -> bool {
        match (self.state, event) {
            (AppState::Processing(_), AppEvent::EncoderRotate(d)) => i8::MIN <= self.volume + d
                <= i8::MAX,
            (AppState::EffectsProfile(_), AppEvent::EncoderRotate(d)) => i8::MIN <= self.volume
                + d <= i8::MAX,
            _ => true,
        }
    }

    /// The machine after MIDI CC 7 sets the volume: `0..=127` onto `0..=10`.
    pub open spec fn after_midi_volume(self, value: u8) -> MachineModel {
        MachineModel { volume: (value as int * 10 / 127) as i8, ..self }
    }

    /// The machine after a program change: the waveform wraps onto the three
    /// waveforms, except on the drum channel (9), where it selects a kit.
    pub open spec fn after_program_change(self, channel: u8, program: u8) -> MachineModel {
        if channel == 9 {
            self
        } else {
            MachineModel { waveform: (program % 3) as i8, ..self }
        }
    }

    /// The machine after MIDI CC `controller` (34-42) sets a menu value.
    pub open spec fn after_menu_cc(self, controller: u8, value: u8) -> MachineModel {
        match cc_item(controller) {
            Some(item) => MachineModel {
                values: self.values.after_set(item, cc_scaled(item, value)),
                ..self
            },
            None => self,
        }
    }

    /// The machine after MIDI CC 43: a value of 64 or more moves to the next key.
    pub open spec fn after_key_cc(self, value: u8) -> MachineModel {
        if value >= 64 {
            MachineModel { key: ((self.key + 1) % 24) as i8, ..self }
        } else {
            self
        }
    }

    /// This model with the screen moved on by `event`.
    pub open spec fn settled(self, event: AppEvent) -> MachineModel {
        MachineModel { state: next_state(self.state, event), ..self }
    }

    /// The effect of pressing keypad button `k` on the effects screen of profile `p`.
    pub open spec fn effects_press(self, p: ProcessingProfile, k: usize) -> MachineModel {
        if k == 1 {
            MachineModel { octave_preset: 0, ..self }
        } else if k == 2 {
            MachineModel { octave_preset: 1, ..self }
        } else if k == 3 {
            MachineModel { octave_preset: 2, ..self }
        } else if k == 4 {
            MachineModel { bitcrush: 1, ..self }
        } else if k == 5 {
            MachineModel { bitcrush: 0, ..self }
        } else if k == 6 {
            MachineModel { bitcrush: 2, ..self }
        } else if 7 <= k <= 9 {
            match p {
                ProcessingProfile::PitchControl | ProcessingProfile::Harmony => MachineModel {
                    formant: if k == 7 {
                        1
                    } else if k == 8 {
                        0
                    } else {
                        2
                    },
                    ..self
                },
                ProcessingProfile::Vocode | ProcessingProfile::Dry => MachineModel {
                    waveform: (k - 7) as i8,
                    ..self
                },
                ProcessingProfile::Percussion => MachineModel {
                    percussion: (k - 7) as i8,
                    ..self
                },
            }
        } else if k == 10 {
            MachineModel { key_down_pressed: true, key: ((self.key + 23) % 24) as i8, ..self }
        } else if k == 11 {
            MachineModel { process_cycle_pressed: true, state: cycled(self.state), ..self }
        } else if k == 12 {
            MachineModel { key_up_pressed: true, key: ((self.key + 1) % 24) as i8, ..self }
        } else {
            MachineModel {
                key_down_pressed: false,
                process_cycle_pressed: false,
                key_up_pressed: false,
                ..self
            }
        }
    }

    /// The effect of releasing keypad button `k` on the effects screen.
    pub open spec fn effects_release(self, k: usize) -> MachineModel {
        if k == 10 {
            MachineModel { key_down_pressed: false, ..self }
        } else if k == 11 {
            MachineModel { process_cycle_pressed: false, ..self }
        } else if k == 12 {
            MachineModel { key_up_pressed: false, ..self }
        } else {
            self
        }
    }

    /// The machine after `nav` on the menu screen.
    pub open spec fn navigated(self, ms: MenuState, p: ProcessingProfile, nav: MenuNavEvent) -> MachineModel {
        MachineModel {
            state: AppState::Menu(ms.next(nav), p),
            values: ms.edited(nav, self.values),
            ..self
        }
    }

    /// The machine after `event`.
    pub open spec fn after(self, event: AppEvent) -> MachineModel {
        match (self.state, event) {
            (AppState::Processing(_), AppEvent::EncoderRotate(d)) => MachineModel {
                volume: clamp(self.volume + d, 0, 10) as i8,
                ..self
            }.settled(event),
            (AppState::EffectsProfile(_), AppEvent::EncoderRotate(d)) => MachineModel {
                volume: clamp(self.volume + d, 0, 10) as i8,
                ..self
            }.settled(event),
            (AppState::Processing(_), AppEvent::KeypadPress(k)) => MachineModel {
                note: k as i8,
                ..self
            }.settled(event),
            (AppState::EffectsProfile(p), AppEvent::KeypadPress(k)) => self.effects_press(
                p,
                k,
            ).settled(event),
            (AppState::EffectsProfile(_), AppEvent::KeypadRelease(k)) => self.effects_release(
                k,
            ).settled(event),
            (AppState::Processing(_), AppEvent::KeypadRelease(_)) => MachineModel {
                note: 0,
                ..self
            }.settled(event),
            (AppState::Menu(ms, p), AppEvent::EncoderRotate(d)) => self.navigated(
                ms,
                p,
                if d > 0 {
                    MenuNavEvent::Next
                } else {
                    MenuNavEvent::Prev
                },
            ),
            (AppState::Menu(ms, p), AppEvent::EncoderPress) => self.navigated(
                ms,
                p,
                MenuNavEvent::Select,
            ),
            _ => self.settled(event),
        }
    }

    /// The pitch offset of the selected octave preset.
    pub open spec fn pitch_semitones(self) -> i8 {
        if self.octave_preset == 0 {
            self.values.pitch_low
        } else if self.octave_preset == 2 {
            self.values.pitch_high
        } else {
            0
        }
    }

    /// `(sample_reduction, bit_rate)` of the selected crush setting.
    pub open spec fn crush_params(self) -> (i8, i8) {
        if self.bitcrush == 1 {
            (self.values.sample_reduction_soft, self.values.bit_rate_soft)
        } else if self.bitcrush == 2 {
            (self.values.sample_reduction_harsh, self.values.bit_rate_harsh)
        } else {
            (1, 32)
        }
    }

    /// The snapshot that describes this machine.
    pub open spec fn snapshot(self) -> AppStateMachineSnapshot {
        AppStateMachineSnapshot {
            current_state: self.state,
            key: self.key,
            pitch_semitones: self.pitch_semitones(),
            octave_preset: self.octave_preset,
            note: self.note,
            volume: self.volume,
            crush: self.bitcrush,
            sample_reduction: self.crush_params().0,
            bit_rate: self.crush_params().1,
            formant: self.formant,
            autotune_speed: self.values.autotune_speed,
            magnitude: self.values.magnitude,
            pad_matrix: self.values.pad_matrix,
            key_down_pressed: self.key_down_pressed,
            process_cycle_pressed: self.process_cycle_pressed,
            key_up_pressed: self.key_up_pressed,
            waveform: self.waveform,
            percussion: self.percussion,
        }
    }

    /// The position of the menu cursor, or 0 outside the menu.
    pub open spec fn menu_index(self) -> int {
        match self.state {
            AppState::Menu(ms, _) => ms.index(),
            _ => 0,
        }
    }
}

impl View for AppStateMachine {
    type V = MachineModel;

    closed spec fn view(&self) -> MachineModel {
        MachineModel {
            state: self.state,
            values: self.values,
            key: self.current_key,
            octave_preset: self.current_octave_preset,
            bitcrush: self.current_bitcrush,
            formant: self.current_formant,
            waveform: self.current_waveform,
            percussion: self.current_percussion,
            volume: self.volume,
            note: self.note,
            key_down_pressed: self.key_down_pressed,
            process_cycle_pressed: self.process_cycle_pressed,
            key_up_pressed: self.key_up_pressed,
        }
    }
}

impl Default for AppStateMachine {
    fn default() -> (m: Self)
        ensures
            m@ == initial_model(),
            m@.wf(),
    {
        Self::new()
    }
}

impl AppStateMachine {
    /// A new machine on the splash screen with the factory settings.
    pub fn new() -> (m: Self)
        ensures
            m@ == initial_model(),
            m@.wf(),
    {
        let m = Self {
            state: AppState::new(),
            values: MenuValues::default(),
            current_key: 0,
            current_octave_preset: 1,
            current_bitcrush: 0,
            current_formant: 0,
            current_waveform: 0,
            current_percussion: 1,
            volume: 10,
            note: 0,
            key_down_pressed: false,
            process_cycle_pressed: false,
            key_up_pressed: false,
        };
        assert(m@.values.in_range()) by {
            assert forall|item: MenuItem|
                item_min(item) <= #[trigger] m@.values.value_of(item) <= item_max(item) by {
                match item {
                    _ => {},
                }
            }
        }
        m
    }

    /// The current screen.
    pub fn state(&self) -> (s: AppState)
        ensures
            s == self@.state,
    {
        self.state
    }

    /// Everything the display and the audio path need, in one value.
    pub fn snapshot(&self) -> (s: AppStateMachineSnapshot)
        ensures
            s == self@.snapshot(),
    {
        let pitch_semitones = match self.current_octave_preset {
            0 => self.values.pitch_low,
            2 => self.values.pitch_high,
            _ => 0,
        };
        let (sample_reduction, bit_rate) = match self.current_bitcrush {
            1 => (self.values.sample_reduction_soft, self.values.bit_rate_soft),
            2 => (self.values.sample_reduction_harsh, self.values.bit_rate_harsh),
            _ => (1, 32),
        };
        AppStateMachineSnapshot {
            current_state: self.state,
            key: self.current_key,
            pitch_semitones,
            octave_preset: self.current_octave_preset,
            note: self.note,
            volume: self.volume,
            crush: self.current_bitcrush,
            sample_reduction,
            bit_rate,
            formant: self.current_formant,
            autotune_speed: self.values.autotune_speed,
            magnitude: self.values.magnitude,
            pad_matrix: self.values.pad_matrix,
            key_down_pressed: self.key_down_pressed,
            process_cycle_pressed: self.process_cycle_pressed,
            key_up_pressed: self.key_up_pressed,
            waveform: self.current_waveform,
            percussion: self.current_percussion,
        }
    }

    /// Handle an input event.
    pub fn handle_event(&mut self, event: AppEvent)
        requires
            old(self)@.wf(),
            old(self)@.accepts(event),
        ensures
            final(self)@ == old(self)@.after(event),
            final(self)@.wf(),
    {
        match (self.state, event) {
            (AppState::Processing(_), AppEvent::EncoderRotate(delta))
            | (AppState::EffectsProfile(_), AppEvent::EncoderRotate(delta)) => {
                self.volume = clamp_value(self.volume, delta, 0, 10);
            },
            (AppState::Processing(_), AppEvent::KeypadPress(key)) => {
                self.play_note(key);
                self.note = key as i8;
            },
            (AppState::EffectsProfile(profile), AppEvent::KeypadPress(key)) => {
                match key {
                    1 => self.current_octave_preset = 0,
                    2 => self.current_octave_preset = 1,
                    3 => self.current_octave_preset = 2,
                    4 => self.current_bitcrush = 1,
                    5 => self.current_bitcrush = 0,
                    6 => self.current_bitcrush = 2,
                    7..=9 => {
                        match profile {
                            ProcessingProfile::PitchControl | ProcessingProfile::Harmony => {
                                // 7/8/9 -> male/none/female
                                self.current_formant = match key {
                                    7 => 1,
                                    8 => 0,
                                    9 => 2,
                                    _ => 0,
                                };
                            },
                            ProcessingProfile::Vocode | ProcessingProfile::Dry => {
                                // 7/8/9 -> triangle/square/saw
                                self.current_waveform = match key {
                                    7 => 0,
                                    8 => 1,
                                    9 => 2,
                                    _ => 0,
                                }
                            },
                            ProcessingProfile::Percussion => {
                                // 7/8/9 -> dial tones/ringer/drums
                                self.current_percussion = match key {
                                    7 => 0,
                                    8 => 1,
                                    9 => 2,
                                    _ => 0,
                                }
                            },
                        }
                    },
                    10 => {
                        self.key_down_pressed = true;
                        self.current_key = (self.current_key + 23) % 24;
                    },
                    11 => {
                        self.process_cycle_pressed = true;
                        self.state = self.state.cycle_profile();
                    },
                    12 => {
                        self.key_up_pressed = true;
                        self.current_key = (self.current_key + 1) % 24;
                    },
                    _ => {
                        self.key_down_pressed = false;
                        self.process_cycle_pressed = false;
                        self.key_up_pressed = false;
                    },
                }
            },
            (AppState::EffectsProfile(_), AppEvent::KeypadRelease(key)) => match key {
                10 => self.key_down_pressed = false,
                11 => self.process_cycle_pressed = false,
                12 => self.key_up_pressed = false,
                _ => {},
            },
            (AppState::Processing(_), AppEvent::KeypadRelease(_key)) => {
                self.play_note(0);
            },
            (AppState::Menu(menu_state, profile), AppEvent::EncoderRotate(delta)) => {
                let nav_event = if delta > 0 {
                    MenuNavEvent::Next
                } else {
                    MenuNavEvent::Prev
                };
                proof {
                    let item = item_at(menu_state.index());
                    assert(item_min(item) <= self.values.value_of(item) <= item_max(item));
                }
                let new_menu_state = menu_state.handle_event(nav_event, &mut self.values);
                self.state = AppState::Menu(new_menu_state, profile);
                proof {
                    lemma_after_set_in_range(old(self)@.values, item_at(menu_state.index()),
                        old(self)@.values.value_of(item_at(menu_state.index())) + 1);
                    lemma_after_set_in_range(old(self)@.values, item_at(menu_state.index()),
                        old(self)@.values.value_of(item_at(menu_state.index())) - 1);
                }
                return;
            },
            (AppState::Menu(menu_state, profile), AppEvent::EncoderPress) => {
                let new_menu_state = menu_state.handle_event(
                    MenuNavEvent::Select,
                    &mut self.values,
                );
                self.state = AppState::Menu(new_menu_state, profile);
                return;
            },
            _ => (),
        }
        self.state = self.state.transition(event);
    }

    /// The position of the menu cursor, if the menu is open.
    fn active_menu_index(&self) -> (r: Option<usize>)
        ensures
            r == (match self@.state {
                AppState::Menu(ms, _) => Some(ms.index() as usize),
                _ => None,
            }),
    {
        if let AppState::Menu(ref menu_state, _) = self.state {
            Some(
                match menu_state {
                    MenuState::Selecting(i) | MenuState::Editing(i) => *i,
                },
            )
        } else {
            None
        }
    }

    /// The previous, current and next menu entries around the cursor.
    pub fn current(&self) -> (ctx: MenuContext)
        requires
            self@.wf(),
        ensures
            ({
                let i = self@.menu_index();
                let prev = (i + MENU_ITEM_COUNT - 1) % (MENU_ITEM_COUNT as int);
                let next = (i + 1) % (MENU_ITEM_COUNT as int);
                &&& ctx.current_item.0@ == context_label(i)@
                &&& ctx.current_item.1 == self@.values.value_of(item_at(i))
                &&& ctx.previous_item.0@ == context_label(prev)@
                &&& ctx.previous_item.1 == self@.values.value_of(item_at(prev))
                &&& ctx.next_item.0@ == context_label(next)@
                &&& ctx.next_item.1 == self@.values.value_of(item_at(next))
            }),
    {
        let idx = match self.active_menu_index() {
            Some(i) => i,
            None => 0,
        };
        let total = MENU_ITEM_COUNT;
        MenuContext {
            previous_item: self.context_entry((idx + total - 1) % total),
            current_item: self.context_entry(idx),
            next_item: self.context_entry((idx + 1) % total),
        }
    }

    /// The label and value of the menu entry at position `idx`.
    fn context_entry(&self, idx: usize) -> (e: (&'static str, i8))
        requires
            idx < MENU_ITEM_COUNT,
        ensures
            e.0@ == context_label(idx as int)@,
            e.1 == self@.values.value_of(item_at(idx as int)),
    {
        match idx {
            0 => ("Pitch Low", self.values.pitch_low),
            1 => ("Pitch High", self.values.pitch_high),
            2 => ("Bit Rate 1", self.values.bit_rate_soft),
            3 => ("Bit Rate 2", self.values.bit_rate_harsh),
            4 => ("Sample Rate 1", self.values.sample_reduction_soft),
            5 => ("Sample Rate 2", self.values.sample_reduction_harsh),
            6 => ("Formant Male", self.values.formant_male),
            7 => ("Formant Female", self.values.formant_female),
            8 => ("Speed", self.values.autotune_speed),
            9 => ("Magnitude", self.values.magnitude),
            _ => ("Pad Matrix", self.values.pad_matrix),
        }
    }

    /// Record the note of a keypad press (0 silences it).
    fn play_note(&mut self, key_index: usize)
        ensures
            final(self)@ == (MachineModel { note: key_index as i8, ..old(self)@ }),
    {
        self.note = key_index as i8;
    }

    /// The current menu values.
    pub fn get_values(&self) -> (v: MenuValues)
        ensures
            v == self@.values,
    {
        self.values
    }

    /// Set the output volume from a MIDI CC7 value (0-127), scaled to the
    /// internal 0-10 range of the encoder-driven volume.
    pub fn set_volume_from_midi(&mut self, value: u8)
        ensures
            final(self)@ == old(self)@.after_midi_volume(value),
    {
        assert(0 <= value as int * 10 <= 2550) by (nonlinear_arith)
            requires
                value <= 255,
        ;
        self.volume = ((value as i16 * 10) / 127) as i8;
    }

    /// Set the waveform from a MIDI Program Change, wrapped onto the three
    /// waveforms (0=Triangle, 1=Square, 2=Saw); drum-channel (9) program
    /// changes select drum kits and are ignored.
    pub fn set_waveform_from_midi(&mut self, channel: u8, program: u8)
        ensures
            final(self)@ == old(self)@.after_program_change(channel, program),
    {
        if channel == 9 {
            return;
        }
        self.current_waveform = (program % 3) as i8;
    }

    /// Set one of the fine-tune menu values from MIDI CC 34-42, scaling the
    /// 0-127 CC value proportionally into that item's range.
    pub fn set_menu_value_from_cc(&mut self, controller: u8, value: u8)
        requires
            old(self)@.wf(),
        ensures
            final(self)@ == old(self)@.after_menu_cc(controller, value),
            final(self)@.wf(),
    {
        let item = match controller {
            34 => MenuItem::PitchLow,
            35 => MenuItem::PitchHigh,
            36 => MenuItem::BitRate1,
            37 => MenuItem::BitRate2,
            38 => MenuItem::SampleRate1,
            39 => MenuItem::SampleRate2,
            40 => MenuItem::FormantMale,
            41 => MenuItem::FormantFemale,
            42 => MenuItem::Magnitude,
            _ => return ,
        };
        let (min, max) = MenuValues::range(item);
        let span = (max - min) as i16;
        assert(0 <= value as int * span <= 255 * 31) by (nonlinear_arith)
            requires
                value <= 255,
                0 <= span <= 31,
        ;
        assert(0 <= (value as int * span) / 127 <= 255 * 31);
        let scaled = min as i16 + (value as i16 * span) / 127;
        self.values.set(item, scaled as i8);
        proof {
            lemma_after_set_in_range(old(self)@.values, item, cc_scaled(item, value));
        }
    }

    /// Step the musical key up one (wrapping at 24) from MIDI CC43; only the
    /// press half (value >= 64) of a momentary button steps.
    pub fn cycle_key_from_midi(&mut self, value: u8)
        requires
            old(self)@.wf(),
        ensures
            final(self)@ == old(self)@.after_key_cc(value),
            final(self)@.wf(),
    {
        if value >= 64 {
            self.current_key = (self.current_key + 1) % 24;
        }
    }
}

/// `current + delta` limited to `min..=max`.
fn clamp_value(current: i8, delta: i8, min: i8, max: i8) -> (r: i8)
    requires
        i8::MIN <= current + delta <= i8::MAX,
        min <= max,
    ensures
        r == clamp(current + delta, min as int, max as int),
{
    let v = current + delta;
    if v < min {
        min
    } else if v > max {
        max
    } else {
        v
    }
}

/// Rust's remainder `x % r`, which takes the sign of `x`.
pub open spec fn truncated_rem(x: int, r: int) -> int {
    if x >= 0 {
        x % r
    } else {
        -((-x) % r)
    }
}

/// `current + delta` wrapped around into `min..=max`.
#[allow(dead_code)]
fn wrap_value(current: i8, delta: i8, min: i8, max: i8) -> (r: i8)
    requires
        min <= max,
        max - min + 1 <= i8::MAX,
        i8::MIN <= current + delta <= i8::MAX,
        i8::MIN <= current + delta - min <= i8::MAX,
        truncated_rem(current + delta - min, max - min + 1) + (max - min + 1) <= i8::MAX,
    ensures
        r == min + (current + delta - min) % (max - min + 1),
{
    let range = max - min + 1;
    let shifted = current + delta - min;
    let rem = shifted % range;
    proof {
        lemma_truncated_rem_wrap(shifted as int, range as int);
        if shifted >= 0 {
            vstd::arithmetic::div_mod::lemma_mod_pos_bound(shifted as int, range as int);
        } else {
            vstd::arithmetic::div_mod::lemma_mod_pos_bound(-shifted, range as int);
        }
    }
    let r = ((rem + range) % range) + min;
    r
}

/// Adding the divisor once turns Rust's remainder into the Euclidean one.
proof fn lemma_truncated_rem_wrap(x: int, r: int)
    requires
        r > 0,
    ensures
        (truncated_rem(x, r) + r) % r == x % r,
{
    if x >= 0 {
        vstd::arithmetic::div_mod::lemma_mod_add_multiples_vanish(x % r, r);
        vstd::arithmetic::div_mod::lemma_mod_twice(x, r);
    } else {
        let m = (-x) % r;
        let q = (-x) / r;
        vstd::arithmetic::div_mod::lemma_fundamental_div_mod(-x, r);
        assert(x == r * (-q - 1) + (r - m)) by (nonlinear_arith)
            requires
                -x == r * q + m,
        ;
        vstd::arithmetic::div_mod::lemma_mod_multiples_vanish(-q - 1, r - m, r);
    }
}

/// Setting any value leaves every item within its range.
proof fn lemma_after_set_in_range(values: MenuValues, item: MenuItem, v: int)
    requires
        values.in_range(),
    ensures
        values.after_set(item, v).in_range(),
{
    let after = values.after_set(item, v);
    assert forall|i: MenuItem| item_min(i) <= #[trigger] after.value_of(i) <= item_max(i) by {
        if i != item {
            assert(after.value_of(i) == values.value_of(i));
        }
    }
}

/// A CC value of 0..=127 scales into the item's range.
proof fn lemma_scaled_in_range(item: MenuItem, value: u8)
    requires
        value <= 127,
    ensures
        item_min(item) <= cc_scaled(item, value) <= item_max(item),
{
    let span = item_max(item) - item_min(item);
    assert(0 <= value as int * span / 127 <= span) by (nonlinear_arith)
        requires
            0 <= value <= 127,
            0 <= span,
    ;
}


/// Two encoder presses on the processing or effects screen return to the
/// screen they started from, and change nothing else.
pub proof fn law_encoder_press_toggles(m: MachineModel)
    requires
        m.state is Processing || m.state is EffectsProfile,
    ensures
        m.after(AppEvent::EncoderPress).after(AppEvent::EncoderPress) == m,
{
}

/// Cycling the processing profile five times returns to the same state.
pub proof fn law_profile_cycle_has_period_five(s: AppState)
    ensures
        cycled(cycled(cycled(cycled(cycled(s))))) == s,
        (s is Processing || s is EffectsProfile) ==> cycled(s) != s,
{
}

/// A double press opens the menu at its first item, keeping the profile; a
/// second double press leaves it for the processing screen of that profile.
pub proof fn law_menu_round_trip(m: MachineModel, p: ProcessingProfile)
    requires
        m.state == AppState::Processing(p) || m.state == AppState::EffectsProfile(p),
    ensures
        m.after(AppEvent::EncoderDoublePress).state == AppState::Menu(MenuState::Selecting(0), p),
        m.after(AppEvent::EncoderDoublePress).after(AppEvent::EncoderDoublePress).state
            == AppState::Processing(p),
{
}

/// Moving the menu cursor forward and then back (or back and then forward)
/// returns it to the same item.
pub proof fn law_menu_cursor_inverse(i: usize)
    requires
        i < MENU_ITEM_COUNT,
    ensures
        MenuState::Selecting(i).next(MenuNavEvent::Next).next(MenuNavEvent::Prev)
            == MenuState::Selecting(i),
        MenuState::Selecting(i).next(MenuNavEvent::Prev).next(MenuNavEvent::Next)
            == MenuState::Selecting(i),
        0 <= MenuState::Selecting(i).next(MenuNavEvent::Next).index() < MENU_ITEM_COUNT,
        0 <= MenuState::Selecting(i).next(MenuNavEvent::Prev).index() < MENU_ITEM_COUNT,
{
}

/// Stepping an edited value up and then down restores it, unless the step
/// up was stopped at the top of the item's range.
pub proof fn law_edit_step_inverse(i: usize, values: MenuValues)
    requires
        i < MENU_ITEM_COUNT,
        values.in_range(),
        values.value_of(item_at(i as int)) < item_max(item_at(i as int)),
    ensures
        ({
            let ms = MenuState::Editing(i);
            let up = ms.edited(MenuNavEvent::Next, values);
            ms.edited(MenuNavEvent::Prev, up) == values
        }),
{
    let item = item_at(i as int);
    assert(item_min(item) <= values.value_of(item));
}

/// On the effects screen the first two keypad rows pick the octave preset
/// and the bit crush, and change nothing else: keys 1, 2 and 3 select the
/// low, normal and high preset, whose pitch offset is the menu's Pitch Low,
/// none, and the menu's Pitch High; keys 4, 5 and 6 select crush 1, none and
/// crush 2, which reduce by the menu's Sample Rate 1 and Bit Rate 1, by
/// nothing (rate 1, 32 bits), and by Sample Rate 2 and Bit Rate 2.
pub proof fn law_first_rows_keys(m: MachineModel, p: ProcessingProfile)
    requires
        m.state == AppState::EffectsProfile(p),
    ensures
        m.after(AppEvent::KeypadPress(1)) == (MachineModel { octave_preset: 0, ..m }),
        m.after(AppEvent::KeypadPress(2)) == (MachineModel { octave_preset: 1, ..m }),
        m.after(AppEvent::KeypadPress(3)) == (MachineModel { octave_preset: 2, ..m }),
        m.after(AppEvent::KeypadPress(1)).snapshot().pitch_semitones == m.values.value_of(
            MenuItem::PitchLow,
        ),
        m.after(AppEvent::KeypadPress(2)).snapshot().pitch_semitones == 0,
        m.after(AppEvent::KeypadPress(3)).snapshot().pitch_semitones == m.values.value_of(
            MenuItem::PitchHigh,
        ),
        m.after(AppEvent::KeypadPress(4)) == (MachineModel { bitcrush: 1, ..m }),
        m.after(AppEvent::KeypadPress(5)) == (MachineModel { bitcrush: 0, ..m }),
        m.after(AppEvent::KeypadPress(6)) == (MachineModel { bitcrush: 2, ..m }),
        m.after(AppEvent::KeypadPress(4)).snapshot().sample_reduction == m.values.value_of(
            MenuItem::SampleRate1,
        ),
        m.after(AppEvent::KeypadPress(4)).snapshot().bit_rate == m.values.value_of(
            MenuItem::BitRate1,
        ),
        m.after(AppEvent::KeypadPress(5)).snapshot().sample_reduction == 1,
        m.after(AppEvent::KeypadPress(5)).snapshot().bit_rate == 32,
        m.after(AppEvent::KeypadPress(6)).snapshot().sample_reduction == m.values.value_of(
            MenuItem::SampleRate2,
        ),
        m.after(AppEvent::KeypadPress(6)).snapshot().bit_rate == m.values.value_of(
            MenuItem::BitRate2,
        ),
{
}

/// On the effects screen the third keypad row picks one of three settings
/// and changes nothing else: keys 7, 8 and 9 choose the male (1), no (0)
/// and female (2) formant for pitch control and harmony, the triangle (0),
/// square (1) and saw (2) waveform for vocode and dry, and percussion sets
/// 0, 1 and 2 for the percussion profile.
pub proof fn law_third_row_keys(m: MachineModel, p: ProcessingProfile)
    requires
        m.state == AppState::EffectsProfile(p),
    ensures
        (p == ProcessingProfile::PitchControl || p == ProcessingProfile::Harmony) ==> {
            &&& m.after(AppEvent::KeypadPress(7)) == (MachineModel { formant: 1, ..m })
            &&& m.after(AppEvent::KeypadPress(8)) == (MachineModel { formant: 0, ..m })
            &&& m.after(AppEvent::KeypadPress(9)) == (MachineModel { formant: 2, ..m })
        },
        (p == ProcessingProfile::Vocode || p == ProcessingProfile::Dry) ==> {
            &&& m.after(AppEvent::KeypadPress(7)) == (MachineModel { waveform: 0, ..m })
            &&& m.after(AppEvent::KeypadPress(8)) == (MachineModel { waveform: 1, ..m })
            &&& m.after(AppEvent::KeypadPress(9)) == (MachineModel { waveform: 2, ..m })
        },
        p == ProcessingProfile::Percussion ==> {
            &&& m.after(AppEvent::KeypadPress(7)) == (MachineModel { percussion: 0, ..m })
            &&& m.after(AppEvent::KeypadPress(8)) == (MachineModel { percussion: 1, ..m })
            &&& m.after(AppEvent::KeypadPress(9)) == (MachineModel { percussion: 2, ..m })
        },
{
}

/// Key up followed by key down on the effects screen restores the key.
pub proof fn law_key_up_down_inverse(m: MachineModel, p: ProcessingProfile)
    requires
        m.wf(),
        m.state == AppState::EffectsProfile(p),
    ensures
        m.after(AppEvent::KeypadPress(12)).after(AppEvent::KeypadPress(10)).key == m.key,
        m.after(AppEvent::KeypadPress(10)).after(AppEvent::KeypadPress(12)).key == m.key,
{
}

/// The volume never leaves `0..=10` once it is there.
pub proof fn law_volume_stays_in_range(m: MachineModel, event: AppEvent)
    requires
        0 <= m.volume <= 10,
    ensures
        0 <= m.after(event).volume <= 10,
{
}

/// MIDI CC 0 sets a menu value to the bottom of its range and CC 127 to the top.
pub proof fn law_cc_endpoints(values: MenuValues, item: MenuItem)
    ensures
        values.after_set(item, cc_scaled(item, 0)).value_of(item) == item_min(item),
        values.after_set(item, cc_scaled(item, 127)).value_of(item) == item_max(item),
        item_min(item) <= cc_scaled(item, 64) <= item_max(item),
{
    lemma_scaled_in_range(item, 64);
}

/// A MIDI volume of 0..=127 lands in `0..=10`, with 0 and 127 at the ends.
pub proof fn law_midi_volume_range(value: u8)
    requires
        value <= 127,
    ensures
        0 <= value as int * 10 / 127 <= 10,
        (0u8 as int) * 10 / 127 == 0,
        (127u8 as int) * 10 / 127 == 10,
{
    assert(0 <= value as int * 10 <= 1270) by (nonlinear_arith)
        requires
            value <= 127,
    ;
}

} // verus!
