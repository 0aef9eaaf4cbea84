//! The state machine of the earlier three-profile board (autotune, vocoder,
//! dry), with integer menu values and keypad-driven effects.

use vstd::prelude::*;

verus! {

/// The signal-processing profiles of this board.
#[derive(Debug, Copy, Clone, PartialEq, Eq, Structural)]
pub enum ProcessingProfile {
    Autotune,
    Vocode,
    Dry,
}

/// The top-level screens.
#[derive(Debug, Copy, Clone, PartialEq, Eq, Structural)]
pub enum AppState {
    Splash,
    Processing(ProcessingProfile),
    EffectsProfile(ProcessingProfile),
    Menu(MenuState, ProcessingProfile),
}

/// Menu state: which item is highlighted, and whether it is being edited.
#[derive(Debug, Copy, Clone, PartialEq, Eq, Structural)]
pub enum MenuState {
    Selecting(usize),
    Editing(usize),
}

/// The adjustable menu items, in menu order.
#[derive(Debug, Copy, Clone, PartialEq, Eq, Structural)]
pub enum MenuItem {
    BitRate1,
    BitRate2,
    SampleRate1,
    SampleRate2,
    FormantMale,
    FormantFemale,
    AutotuneSpeed,
    Magnitude,
    PadMatrix,
}

/// Number of menu items.
pub const MENU_ITEM_COUNT: usize = 9;

/// The menu item at position `idx` of the menu.
pub open spec fn item_at(idx: int) -> MenuItem {
    if idx == 0 {
        MenuItem::BitRate1
    } else if idx == 1 {
        MenuItem::BitRate2
    } else if idx == 2 {
        MenuItem::SampleRate1
    } else if idx == 3 {
        MenuItem::SampleRate2
    } else if idx == 4 {
        MenuItem::FormantMale
    } else if idx == 5 {
        MenuItem::FormantFemale
    } else if idx == 6 {
        MenuItem::AutotuneSpeed
    } else if idx == 7 {
        MenuItem::Magnitude
    } else {
        MenuItem::PadMatrix
    }
}

/// Smallest value a menu item may hold.
pub open spec fn item_min(item: MenuItem) -> int {
    match item {
        MenuItem::BitRate1 | MenuItem::BitRate2 => 4,
        MenuItem::PadMatrix => 0,
        _ => 1,
    }
}

/// Largest value a menu item may hold.
pub open spec fn item_max(item: MenuItem) -> int {
    match item {
        MenuItem::BitRate1 | MenuItem::BitRate2 | MenuItem::SampleRate1
        | MenuItem::SampleRate2 => 32,
        MenuItem::PadMatrix => 1,
        _ => 10,
    }
}

/// `v` limited to `lo..=hi`.
pub open spec fn clamp(v: int, lo: int, hi: int) -> int {
    if v < lo {
        lo
    } else if v > hi {
        hi
    } else {
        v
    }
}

/// The menu item at position `idx`.
pub fn menu_item_at(idx: usize) -> (item: MenuItem)
    requires
        idx < MENU_ITEM_COUNT,
    ensures
        item == item_at(idx as int),
{
    match idx {
        0 => MenuItem::BitRate1,
        1 => MenuItem::BitRate2,
        2 => MenuItem::SampleRate1,
        3 => MenuItem::SampleRate2,
        4 => MenuItem::FormantMale,
        5 => MenuItem::FormantFemale,
        6 => MenuItem::AutotuneSpeed,
        7 => MenuItem::Magnitude,
        _ => MenuItem::PadMatrix,
    }
}

/// Storage for all adjustable menu values.
#[derive(Debug, Clone, Copy)]
pub struct MenuValues {
    pub bit_rate_1: i32,
    pub bit_rate_2: i32,
    pub sample_rate_1: i32,
    pub sample_rate_2: i32,
    pub formant_male: i32,
    pub formant_female: i32,
    pub autotune_speed: i32,
    pub magnitude: i32,
    pub pad_matrix: i32,
}

/// The user-facing name of a menu item.
pub open spec fn item_name(item: MenuItem) -> &'static str {
    match item {
        MenuItem::BitRate1 => "Bit Rate 1",
        MenuItem::BitRate2 => "Bit Rate 2",
        MenuItem::SampleRate1 => "Sample Rate 1",
        MenuItem::SampleRate2 => "Sample Rate 2",
        MenuItem::FormantMale => "Formant Male",
        MenuItem::FormantFemale => "Formant Female",
        MenuItem::AutotuneSpeed => "Autotune Speed",
        MenuItem::Magnitude => "Magnitude",
        MenuItem::PadMatrix => "Pad Matrix",
    }
}

/// The factory menu values.
pub open spec fn default_values() -> MenuValues {
    MenuValues {
        bit_rate_1: 32,
        bit_rate_2: 10,
        sample_rate_1: 5,
        sample_rate_2: 16,
        formant_male: 5,
        formant_female: 5,
        autotune_speed: 5,
        magnitude: 5,
        pad_matrix: 0,
    }
}

impl Default for MenuValues {
    fn default() -> (v: Self)
        ensures
            v == default_values(),
    {
        Self {
            bit_rate_1: 32,
            bit_rate_2: 10,
            sample_rate_1: 5,
            sample_rate_2: 16,
            formant_male: 5,
            formant_female: 5,
            autotune_speed: 5,
            magnitude: 5,
            pad_matrix: 0,
        }
    }
}

impl MenuValues {
    /// The value stored for `item`.
    pub open spec fn value_of(self, item: MenuItem) -> i32 {
        match item {
            MenuItem::BitRate1 => self.bit_rate_1,
            MenuItem::BitRate2 => self.bit_rate_2,
            MenuItem::SampleRate1 => self.sample_rate_1,
            MenuItem::SampleRate2 => self.sample_rate_2,
            MenuItem::FormantMale => self.formant_male,
            MenuItem::FormantFemale => self.formant_female,
            MenuItem::AutotuneSpeed => self.autotune_speed,
            MenuItem::Magnitude => self.magnitude,
            MenuItem::PadMatrix => self.pad_matrix,
        }
    }

    /// These values with the one stored for `item` replaced by `v`.
    pub open spec fn with_value(self, item: MenuItem, v: i32) -> MenuValues {
        match item {
            MenuItem::BitRate1 => MenuValues { bit_rate_1: v, ..self },
            MenuItem::BitRate2 => MenuValues { bit_rate_2: v, ..self },
            MenuItem::SampleRate1 => MenuValues { sample_rate_1: v, ..self },
            MenuItem::SampleRate2 => MenuValues { sample_rate_2: v, ..self },
            MenuItem::FormantMale => MenuValues { formant_male: v, ..self },
            MenuItem::FormantFemale => MenuValues { formant_female: v, ..self },
            MenuItem::AutotuneSpeed => MenuValues { autotune_speed: v, ..self },
            MenuItem::Magnitude => MenuValues { magnitude: v, ..self },
            MenuItem::PadMatrix => MenuValues { pad_matrix: v, ..self },
        }
    }

    /// What `set(item, v)` leaves behind: `v` limited to the item's range.
    pub open spec fn after_set(self, item: MenuItem, v: int) -> MenuValues {
        self.with_value(item, clamp(v, item_min(item), item_max(item)) as i32)
    }

    /// Every value lies within its item's range.
    pub open spec fn in_range(self) -> bool {
        forall|item: MenuItem|
            item_min(item) <= #[trigger] self.value_of(item) <= item_max(item)
    }

    /// Get the value for a specific menu item.
    pub fn get(&self, item: MenuItem) -> (v: i32)
        ensures
            v == self.value_of(item),
    {
        match item {
            MenuItem::BitRate1 => self.bit_rate_1,
            MenuItem::BitRate2 => self.bit_rate_2,
            MenuItem::SampleRate1 => self.sample_rate_1,
            MenuItem::SampleRate2 => self.sample_rate_2,
            MenuItem::FormantMale => self.formant_male,
            MenuItem::FormantFemale => self.formant_female,
            MenuItem::AutotuneSpeed => self.autotune_speed,
            MenuItem::Magnitude => self.magnitude,
            MenuItem::PadMatrix => self.pad_matrix,
        }
    }

    /// Set the value for a menu item, limited to the item's range.
    pub fn set(&mut self, item: MenuItem, value: i32)
        ensures
            *final(self) == old(self).after_set(item, value as int),
    {
        match item {
            MenuItem::BitRate1 => self.bit_rate_1 = clamp_i32(value, 4, 32),
            MenuItem::BitRate2 => self.bit_rate_2 = clamp_i32(value, 4, 32),
            MenuItem::SampleRate1 => self.sample_rate_1 = clamp_i32(value, 1, 32),
            MenuItem::SampleRate2 => self.sample_rate_2 = clamp_i32(value, 1, 32),
            MenuItem::FormantMale => self.formant_male = clamp_i32(value, 1, 10),
            MenuItem::FormantFemale => self.formant_female = clamp_i32(value, 1, 10),
            MenuItem::AutotuneSpeed => self.autotune_speed = clamp_i32(value, 1, 10),
            MenuItem::Magnitude => self.magnitude = clamp_i32(value, 1, 10),
            MenuItem::PadMatrix => self.pad_matrix = clamp_i32(value, 0, 1),
        }
    }

    /// The user-friendly name of a menu item.
    pub fn get_item_name(item: MenuItem) -> (name: &'static str)
        ensures
            name@ == item_name(item)@,
    {
        match item {
            MenuItem::BitRate1 => "Bit Rate 1",
            MenuItem::BitRate2 => "Bit Rate 2",
            MenuItem::SampleRate1 => "Sample Rate 1",
            MenuItem::SampleRate2 => "Sample Rate 2",
            MenuItem::FormantMale => "Formant Male",
            MenuItem::FormantFemale => "Formant Female",
            MenuItem::AutotuneSpeed => "Autotune Speed",
            MenuItem::Magnitude => "Magnitude",
            MenuItem::PadMatrix => "Pad Matrix",
        }
    }
}

/// `value` limited to `lo..=hi`.
fn clamp_i32(value: i32, lo: i32, hi: i32) -> (r: i32)
    requires
        lo <= hi,
    ensures
        r == clamp(value as int, lo as int, hi as int),
{
    if value < lo {
        lo
    } else if value > hi {
        hi
    } else {
        value
    }
}

/// Events raised by the hardware inputs.
#[derive(Debug, Copy, Clone, PartialEq, Eq, Structural)]
pub enum AppEvent {
    /// Splash screen animation finished
    SplashComplete,
    /// Single press of the encoder
    EncoderPress,
    /// Double press of the encoder
    EncoderDoublePress,
    /// Rotation of the encoder (positive or negative)
    EncoderRotate(i32),
    /// Press of a keypad button (1-12)
    KeypadPress(usize),
    /// Release of a keypad button (1-12)
    KeypadRelease(usize),
    /// Cycle to the next processing profile
    CycleProcessingProfile,
    /// Select a specific processing profile
    SetProcessingProfile(ProcessingProfile),
    /// Set octave (low=-1, normal=0, high=1)
    SetOctave(i32),
    /// Set bit crush (1=crush1, 0=none, 2=crush2)
    SetBitCrush(i32),
    /// Set formant (-1=male, 0=none, 1=female)
    SetFormant(i32),
    /// Change the musical key up or down
    KeyChange(i32),
    NoOp,
}

/// The screen that `event` leads to from `state` (menu navigation aside).
pub open spec fn next_state(state: AppState, event: AppEvent) -> AppState {
    match (state, event) {
        (AppState::Splash, AppEvent::SplashComplete) => AppState::Processing(
            ProcessingProfile::Autotune,
        ),
        (AppState::Processing(p), AppEvent::EncoderPress) => AppState::EffectsProfile(p),
        (AppState::EffectsProfile(p), AppEvent::EncoderPress) => AppState::Processing(p),
        (AppState::Processing(p), AppEvent::EncoderDoublePress) => AppState::Menu(
            MenuState::Selecting(0),
            p,
        ),
        (AppState::EffectsProfile(p), AppEvent::EncoderDoublePress) => AppState::Menu(
            MenuState::Selecting(0),
            p,
        ),
        (AppState::Menu(_, p), AppEvent::EncoderDoublePress) => AppState::Processing(p),
        (AppState::EffectsProfile(_), AppEvent::SetProcessingProfile(q)) => AppState::Processing(
            q,
        ),
        _ => state,
    }
}

/// The profile that follows `p` in the cycle Autotune -> Vocode -> Dry -> Autotune.
pub open spec fn next_profile(p: ProcessingProfile) -> ProcessingProfile {
    match p {
        ProcessingProfile::Autotune => ProcessingProfile::Vocode,
        ProcessingProfile::Vocode => ProcessingProfile::Dry,
        ProcessingProfile::Dry => ProcessingProfile::Autotune,
    }
}

/// `state` with its profile advanced, on the processing and effects screens.
pub open spec fn cycled(state: AppState) -> AppState {
    match state {
        AppState::EffectsProfile(p) => AppState::EffectsProfile(next_profile(p)),
        AppState::Processing(p) => AppState::Processing(next_profile(p)),
        _ => state,
    }
}

impl AppState {
    /// A new state machine starts at the splash screen.
    pub fn new() -> (s: Self)
        ensures
            s == AppState::Splash,
    {
        AppState::Splash
    }

    /// The state that follows `event`.
    pub fn transition(self, event: AppEvent) -> (s: Self)
        ensures
            s == next_state(self, event),
    {
        match (self, event) {
            (AppState::Splash, AppEvent::SplashComplete) => {
                AppState::Processing(ProcessingProfile::Autotune)
            },
            (AppState::Processing(profile), AppEvent::EncoderPress) => {
                AppState::EffectsProfile(profile)
            },
            (AppState::EffectsProfile(profile), AppEvent::EncoderPress) => {
                AppState::Processing(profile)
            },
            (AppState::Processing(profile), AppEvent::EncoderDoublePress) => {
                AppState::Menu(MenuState::Selecting(0), profile)
            },
            (AppState::EffectsProfile(profile), AppEvent::EncoderDoublePress) => {
                AppState::Menu(MenuState::Selecting(0), profile)
            },
            (AppState::Menu(_, profile), AppEvent::EncoderDoublePress) => {
                AppState::Processing(profile)
            },
            (AppState::EffectsProfile(_), AppEvent::CycleProcessingProfile) => self,
            (AppState::EffectsProfile(_), AppEvent::SetProcessingProfile(new_profile)) => {
                AppState::Processing(new_profile)
            },
            _ => self,
        }
    }

    /// Advance the processing profile, on the processing and effects screens.
    pub fn cycle_profile(&self) -> (s: Self)
        ensures
            s == cycled(*self),
    {
        match self {
            AppState::EffectsProfile(ProcessingProfile::Autotune) => {
                AppState::EffectsProfile(ProcessingProfile::Vocode)
            },
            AppState::EffectsProfile(ProcessingProfile::Vocode) => {
                AppState::EffectsProfile(ProcessingProfile::Dry)
            },
            AppState::EffectsProfile(ProcessingProfile::Dry) => {
                AppState::EffectsProfile(ProcessingProfile::Autotune)
            },
            AppState::Processing(ProcessingProfile::Autotune) => {
                AppState::Processing(ProcessingProfile::Vocode)
            },
            AppState::Processing(ProcessingProfile::Vocode) => {
                AppState::Processing(ProcessingProfile::Dry)
            },
            AppState::Processing(ProcessingProfile::Dry) => {
                AppState::Processing(ProcessingProfile::Autotune)
            },
            _ => *self,
        }
    }
}

/// Menu navigation events.
#[derive(Debug, Copy, Clone, PartialEq, Eq, Structural)]
pub enum MenuNavEvent {
    Next,
    Prev,
    Select,
}

impl MenuState {
    /// The highlighted item's position.
    pub open spec fn index(self) -> int {
        match self {
            MenuState::Selecting(i) => i as int,
            MenuState::Editing(i) => i as int,
        }
    }

    /// `handle_event(event, values)` neither overflows nor indexes outside the menu.
    pub open spec fn can_handle(self, event: MenuNavEvent, values: MenuValues) -> bool {
        match (self, event) {
            (MenuState::Selecting(i), MenuNavEvent::Next) => i < usize::MAX,
            (MenuState::Selecting(i), MenuNavEvent::Prev) => i + MENU_ITEM_COUNT <= usize::MAX,
            (MenuState::Selecting(_), MenuNavEvent::Select) => true,
            (MenuState::Editing(i), MenuNavEvent::Next) => i < MENU_ITEM_COUNT
                && values.value_of(item_at(i as int)) < i32::MAX,
            (MenuState::Editing(i), MenuNavEvent::Prev) => i < MENU_ITEM_COUNT
                && values.value_of(item_at(i as int)) > i32::MIN,
            (MenuState::Editing(_), MenuNavEvent::Select) => true,
        }
    }

    /// The menu state after `event`.
    pub open spec fn next(self, event: MenuNavEvent) -> MenuState {
        match (self, event) {
            (MenuState::Selecting(i), MenuNavEvent::Next) => MenuState::Selecting(
                ((i + 1) % (MENU_ITEM_COUNT as int)) as usize,
            ),
            (MenuState::Selecting(i), MenuNavEvent::Prev) => MenuState::Selecting(
                ((i + MENU_ITEM_COUNT - 1) % (MENU_ITEM_COUNT as int)) as usize,
            ),
            (MenuState::Selecting(i), MenuNavEvent::Select) => MenuState::Editing(i),
            (MenuState::Editing(i), MenuNavEvent::Select) => MenuState::Selecting(i),
            (MenuState::Editing(i), _) => MenuState::Editing(i),
        }
    }

    /// The menu values after `event`: editing steps the edited item by one.
    pub open spec fn edited(self, event: MenuNavEvent, values: MenuValues) -> MenuValues {
        match (self, event) {
            (MenuState::Editing(i), MenuNavEvent::Next) => {
                let item = item_at(i as int);
                values.after_set(item, values.value_of(item) + 1)
            },
            (MenuState::Editing(i), MenuNavEvent::Prev) => {
                let item = item_at(i as int);
                values.after_set(item, values.value_of(item) - 1)
            },
            _ => values,
        }
    }

    /// Handle menu navigation and editing.
    pub fn handle_event(&self, event: MenuNavEvent, values: &mut MenuValues) -> (s: MenuState)
        requires
            self.can_handle(event, *old(values)),
        ensures
            s == self.next(event),
            *final(values) == self.edited(event, *old(values)),
    {
        match (self, event) {
            (MenuState::Selecting(idx), MenuNavEvent::Next) => {
                MenuState::Selecting((idx + 1) % MENU_ITEM_COUNT)
            },
            (MenuState::Selecting(idx), MenuNavEvent::Prev) => {
                MenuState::Selecting((idx + MENU_ITEM_COUNT - 1) % MENU_ITEM_COUNT)
            },
            (MenuState::Selecting(idx), MenuNavEvent::Select) => MenuState::Editing(*idx),
            (MenuState::Editing(idx), MenuNavEvent::Next) => {
                let item = menu_item_at(*idx);
                let val = values.get(item);
                values.set(item, val + 1);
                MenuState::Editing(*idx)
            },
            (MenuState::Editing(idx), MenuNavEvent::Prev) => {
                let item = menu_item_at(*idx);
                let val = values.get(item);
                values.set(item, val - 1);
                MenuState::Editing(*idx)
            },
            (MenuState::Editing(idx), MenuNavEvent::Select) => MenuState::Selecting(*idx),
        }
    }
}

/// The abstract state of an [`AppStateMachine`].
pub struct MachineModel {
    pub state: AppState,
    pub values: MenuValues,
    pub key: i32,
    pub octave: i32,
    pub bitcrush: i32,
    pub formant: i32,
    pub sample_rate: i32,
    pub bit_rate: i32,
    pub volume: i32,
    pub note: i32,
    pub key_down_pressed: bool,
    pub process_cycle_pressed: bool,
    pub key_up_pressed: bool,
}

/// Main state machine of the board.
pub struct AppStateMachine {
    state: AppState,
    values: MenuValues,
    current_key: i32,
    current_octave: i32,
    current_bitcrush: i32,
    current_formant: i32,
    sample_rate: i32,
    bit_rate: i32,
    pub volume: i32,
    pub note: i32,
    pub key_down_pressed: bool,
    pub process_cycle_pressed: bool,
    pub key_up_pressed: bool,
}

/// Everything the display and the audio path read from the state machine.
#[derive(Debug, Copy, Clone, PartialEq, Eq, Structural)]
pub struct AppStateMachineSnapshot {
    pub current_state: AppState,
    pub key: i32,
    pub octave: i32,
    pub note: i32,
    pub volume: i32,
    pub crush: i32,
    pub sample_rate: i32,
    pub bit_rate: i32,
    pub formant: i32,
    pub autotune_speed: i32,
    pub magnitude: i32,
    pub pad_matrix: i32,
    pub key_down_pressed: bool,
    pub process_cycle_pressed: bool,
    pub key_up_pressed: bool,
}

/// The previous, current and next menu entries shown on the menu screen.
pub struct MenuContext {
    pub previous_item: (&'static str, i32),
    pub current_item: (&'static str, i32),
    pub next_item: (&'static str, i32),
}

/// The label shown on the menu screen for the item at position `idx`.
pub open spec fn context_label(idx: int) -> &'static str {
    if idx == 0 {
        "BitRate1"
    } else if idx == 1 {
        "BitRate2"
    } else if idx == 2 {
        "SampleRate1"
    } else if idx == 3 {
        "SampleRate2"
    } else if idx == 4 {
        "FormantMale"
    } else if idx == 5 {
        "FormantFemale"
    } else if idx == 6 {
        "Speed"
    } else if idx == 7 {
        "Magnitude"
    } else {
        "PadMatrix"
    }
}

/// The machine as it is created.
pub open spec fn initial_model() -> MachineModel {
    MachineModel {
        state: AppState::Splash,
        values: default_values(),
        key: 0,
        octave: 2,
        bitcrush: 0,
        formant: 0,
        sample_rate: 32,
        bit_rate: 32,
        volume: 0,
        note: 0,
        key_down_pressed: false,
        process_cycle_pressed: false,
        key_up_pressed: false,
    }
}

impl MachineModel {
    /// The invariant of the machine: the menu cursor is on an item, the
    /// key lies in `0..24` and every menu value lies in its range.
    pub open spec fn wf(self) -> bool {
        &&& (self.state matches AppState::Menu(ms, _) ==> 0 <= ms.index() < MENU_ITEM_COUNT)
        &&& 0 <= self.key < 24
        &&& self.values.in_range()
    }

    /// The event does not overflow the volume when it adjusts it.
    pub open spec fn accepts(self, event: AppEvent) -> bool {
        match (self.state, event) {
            (AppState::Processing(_), AppEvent::EncoderRotate(d)) => i32::MIN <= self.volume + d
                <= i32::MAX,
            (AppState::EffectsProfile(_), AppEvent::EncoderRotate(d)) => i32::MIN <= self.volume
                + d <= i32::MAX,
            _ => true,
        }
    }

    /// This model with the screen moved on by `event`.
    pub open spec fn settled(self, event: AppEvent) -> MachineModel {
        MachineModel { state: next_state(self.state, event), ..self }
    }

    /// The effect of pressing keypad button `k` on the processing screen.
    pub open spec fn processing_press(self, k: usize) -> MachineModel {
        if 1 <= k <= 9 {
            MachineModel { note: k as i32, ..self }
        } else if k == 10 {
            MachineModel { key: ((self.key + 23) % 24) as i32, ..self }
        } else if k == 11 {
            MachineModel { state: cycled(self.state), ..self }
        } else if k == 12 {
            MachineModel { key: ((self.key + 1) % 24) as i32, ..self }
        } else {
            self
        }
    }

    /// The effect of pressing keypad button `k` on the effects screen.
    pub open spec fn effects_press(self, k: usize) -> MachineModel {
        if k == 1 {
            MachineModel { octave: 1, ..self }
        } else if k == 2 {
            MachineModel { octave: 2, ..self }
        } else if k == 3 {
            MachineModel { octave: 4, ..self }
        } else if k == 4 {
            MachineModel {
                bitcrush: 1,
                bit_rate: self.values.bit_rate_1,
                sample_rate: self.values.sample_rate_1,
                ..self
            }
        } else if k == 5 {
            MachineModel { bitcrush: 0, bit_rate: 32, sample_rate: 1, ..self }
        } else if k == 6 {
            MachineModel {
                bitcrush: 2,
                bit_rate: self.values.bit_rate_2,
                sample_rate: self.values.sample_rate_2,
                ..self
            }
        } else if k == 7 {
            MachineModel { formant: 1, ..self }
        } else if k == 8 {
            MachineModel { formant: 0, ..self }
        } else if k == 9 {
            MachineModel { formant: 2, ..self }
        } else if k == 10 {
            MachineModel { key_down_pressed: true, key: ((self.key + 23) % 24) as i32, ..self }
        } else if k == 11 {
            MachineModel { process_cycle_pressed: true, state: cycled(self.state), ..self }
        } else if k == 12 {
            MachineModel { key_up_pressed: true, key: ((self.key + 1) % 24) as i32, ..self }
        } else {
            MachineModel {
                key_down_pressed: false,
                process_cycle_pressed: false,
                key_up_pressed: false,
                ..self
            }
        }
    }

    /// The effect of releasing keypad button `k` on the effects screen.
    pub open spec fn effects_release(self, k: usize) -> MachineModel {
        if k == 10 {
            MachineModel { key_down_pressed: false, ..self }
        } else if k == 11 {
            MachineModel { process_cycle_pressed: false, ..self }
        } else if k == 12 {
            MachineModel { key_up_pressed: false, ..self }
        } else {
            self
        }
    }

    /// The machine after `nav` on the menu screen.
    pub open spec fn navigated(self, ms: MenuState, p: ProcessingProfile, nav: MenuNavEvent) -> MachineModel {
        MachineModel {
            state: AppState::Menu(ms.next(nav), p),
            values: ms.edited(nav, self.values),
            ..self
        }
    }

    /// The machine after `event`.
    pub open spec fn after(self, event: AppEvent) -> MachineModel {
        match (self.state, event) {
            (AppState::Processing(_), AppEvent::EncoderRotate(d)) => MachineModel {
                volume: clamp(self.volume + d, 0, 10) as i32,
                ..self
            }.settled(event),
            (AppState::EffectsProfile(_), AppEvent::EncoderRotate(d)) => MachineModel {
                volume: clamp(self.volume + d, 0, 10) as i32,
                ..self
            }.settled(event),
            (AppState::Processing(_), AppEvent::KeypadPress(k)) => self.processing_press(
                k,
            ).settled(event),
            (AppState::EffectsProfile(_), AppEvent::KeypadPress(k)) => self.effects_press(
                k,
            ).settled(event),
            (AppState::EffectsProfile(_), AppEvent::KeypadRelease(k)) => self.effects_release(
                k,
            ).settled(event),
            (AppState::Processing(_), AppEvent::KeypadRelease(_)) => MachineModel {
                note: 0,
                ..self
            }.settled(event),
            (AppState::Menu(ms, p), AppEvent::EncoderRotate(d)) => self.navigated(
                ms,
                p,
                if d > 0 {
                    MenuNavEvent::Next
                } else {
                    MenuNavEvent::Prev
                },
            ),
            (AppState::Menu(ms, p), AppEvent::EncoderPress) => self.navigated(
                ms,
                p,
                MenuNavEvent::Select,
            ),
            _ => self.settled(event),
        }
    }

    /// The snapshot that describes this machine.
    pub open spec fn snapshot(self) -> AppStateMachineSnapshot {
        AppStateMachineSnapshot {
            current_state: self.state,
            key: self.key,
            octave: self.octave,
            note: self.note,
            volume: self.volume,
            crush: self.bitcrush,
            sample_rate: self.sample_rate,
            bit_rate: self.bit_rate,
            formant: self.formant,
            autotune_speed: self.values.autotune_speed,
            magnitude: self.values.magnitude,
            pad_matrix: self.values.pad_matrix,
            key_down_pressed: self.key_down_pressed,
            process_cycle_pressed: self.process_cycle_pressed,
            key_up_pressed: self.key_up_pressed,
        }
    }

    /// The position of the menu cursor, or 0 outside the menu.
    pub open spec fn menu_index(self) -> int {
        match self.state {
            AppState::Menu(ms, _) => ms.index(),
            _ => 0,
        }
    }
}

impl View for AppStateMachine {
    type V = MachineModel;

    closed spec fn view(&self) -> MachineModel {
        MachineModel {
            state: self.state,
            values: self.values,
            key: self.current_key,
            octave: self.current_octave,
            bitcrush: self.current_bitcrush,
            formant: self.current_formant,
            sample_rate: self.sample_rate,
            bit_rate: self.bit_rate,
            volume: self.volume,
            note: self.note,
            key_down_pressed: self.key_down_pressed,
            process_cycle_pressed: self.process_cycle_pressed,
            key_up_pressed: self.key_up_pressed,
        }
    }
}

impl AppStateMachine {
    /// A new machine on the splash screen with the factory settings.
    pub fn new() -> (m: Self)
        ensures
            m@ == initial_model(),
            m@.wf(),
    {
        let m = Self {
            state: AppState::new(),
            values: MenuValues::default(),
            current_key: 0,
            current_octave: 2,
            current_bitcrush: 0,
            current_formant: 0,
            sample_rate: 32,
            bit_rate: 32,
            volume: 0,
            note: 0,
            key_down_pressed: false,
            process_cycle_pressed: false,
            key_up_pressed: false,
        };
        assert(m@.values.in_range()) by {
            assert forall|item: MenuItem|
                item_min(item) <= #[trigger] m@.values.value_of(item) <= item_max(item) by {
                match item {
                    _ => {},
                }
            }
        }
        m
    }

    /// The current screen.
    pub fn state(&self) -> (s: AppState)
        ensures
            s == self@.state,
    {
        self.state
    }

    /// Everything the display and the audio path need, in one value.
    pub fn snapshot(&self) -> (s: AppStateMachineSnapshot)
        ensures
            s == self@.snapshot(),
    {
        AppStateMachineSnapshot {
            current_state: self.state,
            key: self.current_key,
            octave: self.current_octave,
            note: self.note,
            volume: self.volume,
            crush: self.current_bitcrush,
            sample_rate: self.sample_rate,
            bit_rate: self.bit_rate,
            formant: self.current_formant,
            autotune_speed: self.values.autotune_speed,
            magnitude: self.values.magnitude,
            pad_matrix: self.values.pad_matrix,
            key_down_pressed: self.key_down_pressed,
            process_cycle_pressed: self.process_cycle_pressed,
            key_up_pressed: self.key_up_pressed,
        }
    }

    /// Handle an input event.
    pub fn handle_event(&mut self, event: AppEvent)
        requires
            old(self)@.wf(),
            old(self)@.accepts(event),
        ensures
            final(self)@ == old(self)@.after(event),
            final(self)@.wf(),
    {
        match (self.state, event) {
            (AppState::Processing(_), AppEvent::EncoderRotate(delta))
            | (AppState::EffectsProfile(_), AppEvent::EncoderRotate(delta)) => {
                self.volume = clamp_value(self.volume, delta, 0, 10);
            },
            (AppState::Processing(_), AppEvent::KeypadPress(key)) => {
                match key {
                    1..=9 => {
                        self.play_note(key);
                        self.note = key as i32;
                    },
                    10 => self.current_key = (self.current_key + 23) % 24,
                    11 => self.state = self.state.cycle_profile(),
                    12 => self.current_key = (self.current_key + 1) % 24,
                    _ => {},
                }
            },
            (AppState::EffectsProfile(_), AppEvent::KeypadPress(key)) => {
                match key {
                    1 => self.current_octave = 1,
                    2 => self.current_octave = 2,
                    3 => self.current_octave = 4,
                    4 => {
                        self.current_bitcrush = 1;
                        self.bit_rate = self.values.bit_rate_1;
                        self.sample_rate = self.values.sample_rate_1;
                    },
                    5 => {
                        self.current_bitcrush = 0;
                        self.bit_rate = 32;
                        self.sample_rate = 1;
                    },
                    6 => {
                        self.current_bitcrush = 2;
                        self.bit_rate = self.values.bit_rate_2;
                        self.sample_rate = self.values.sample_rate_2;
                    },
                    7 => self.current_formant = 1,
                    8 => self.current_formant = 0,
                    9 => self.current_formant = 2,
                    10 => {
                        self.key_down_pressed = true;
                        self.current_key = (self.current_key + 23) % 24;
                    },
                    11 => {
                        self.process_cycle_pressed = true;
                        self.state = self.state.cycle_profile();
                    },
                    12 => {
                        self.key_up_pressed = true;
                        self.current_key = (self.current_key + 1) % 24;
                    },
                    _ => {
                        self.key_down_pressed = false;
                        self.process_cycle_pressed = false;
                        self.key_up_pressed = false;
                    },
                }
            },
            (AppState::EffectsProfile(_), AppEvent::KeypadRelease(key)) => match key {
                10 => self.key_down_pressed = false,
                11 => self.process_cycle_pressed = false,
                12 => self.key_up_pressed = false,
                _ => {},
            },
            (AppState::Processing(_), AppEvent::KeypadRelease(_key)) => {
                self.play_note(0);
            },
            (AppState::Menu(menu_state, profile), AppEvent::EncoderRotate(delta)) => {
                let nav_event = if delta > 0 {
                    MenuNavEvent::Next
                } else {
                    MenuNavEvent::Prev
                };
                proof {
                    let item = item_at(menu_state.index());
                    assert(item_min(item) <= self.values.value_of(item) <= item_max(item));
                }
                let new_menu_state = menu_state.handle_event(nav_event, &mut self.values);
                self.state = AppState::Menu(new_menu_state, profile);
                proof {
                    lemma_after_set_in_range(old(self)@.values, item_at(menu_state.index()),
                        old(self)@.values.value_of(item_at(menu_state.index())) + 1);
                    lemma_after_set_in_range(old(self)@.values, item_at(menu_state.index()),
                        old(self)@.values.value_of(item_at(menu_state.index())) - 1);
                }
                return;
            },
            (AppState::Menu(menu_state, profile), AppEvent::EncoderPress) => {
                let new_menu_state = menu_state.handle_event(
                    MenuNavEvent::Select,
                    &mut self.values,
                );
                self.state = AppState::Menu(new_menu_state, profile);
                return;
            },
            _ => (),
        }
        self.state = self.state.transition(event);
    }

    /// The previous, current and next menu entries around the cursor.
    pub fn current(&self) -> (ctx: MenuContext)
        requires
            self@.wf(),
        ensures
            ({
                let i = self@.menu_index();
                let prev = (i + MENU_ITEM_COUNT - 1) % (MENU_ITEM_COUNT as int);
                let next = (i + 1) % (MENU_ITEM_COUNT as int);
                &&& ctx.current_item.0@ == context_label(i)@
                &&& ctx.current_item.1 == self@.values.value_of(item_at(i))
                &&& ctx.previous_item.0@ == context_label(prev)@
                &&& ctx.previous_item.1 == self@.values.value_of(item_at(prev))
                &&& ctx.next_item.0@ == context_label(next)@
                &&& ctx.next_item.1 == self@.values.value_of(item_at(next))
            }),
    {
        let idx = match self.active_menu_index() {
            Some(i) => i,
            None => 0,
        };
        let total = MENU_ITEM_COUNT;
        MenuContext {
            previous_item: self.context_entry((idx + total - 1) % total),
            current_item: self.context_entry(idx),
            next_item: self.context_entry((idx + 1) % total),
        }
    }

    /// The label and value of the menu entry at position `idx`.
    fn context_entry(&self, idx: usize) -> (e: (&'static str, i32))
        requires
            idx < MENU_ITEM_COUNT,
        ensures
            e.0@ == context_label(idx as int)@,
            e.1 == self@.values.value_of(item_at(idx as int)),
    {
        match idx {
            0 => ("BitRate1", self.values.bit_rate_1),
            1 => ("BitRate2", self.values.bit_rate_2),
            2 => ("SampleRate1", self.values.sample_rate_1),
            3 => ("SampleRate2", self.values.sample_rate_2),
            4 => ("FormantMale", self.values.formant_male),
            5 => ("FormantFemale", self.values.formant_female),
            6 => ("Speed", self.values.autotune_speed),
            7 => ("Magnitude", self.values.magnitude),
            _ => ("PadMatrix", self.values.pad_matrix),
        }
    }

    /// The position of the menu cursor, if the menu is open.
    fn active_menu_index(&self) -> (r: Option<usize>)
        ensures
            r == (match self@.state {
                AppState::Menu(ms, _) => Some(ms.index() as usize),
                _ => None,
            }),
    {
        if let AppState::Menu(ref menu_state, _) = self.state {
            Some(
                match menu_state {
                    MenuState::Selecting(i) | MenuState::Editing(i) => *i,
                },
            )
        } else {
            None
        }
    }

    /// Record the note of a keypad press (0 silences it).
    fn play_note(&mut self, key_index: usize)
        ensures
            final(self)@ == (MachineModel { note: key_index as i32, ..old(self)@ }),
    {
        self.note = key_index as i32;
    }

    /// The current menu values.
    pub fn get_values(&self) -> (v: MenuValues)
        ensures
            v == self@.values,
    {
        self.values
    }
}

/// `current + delta` limited to `min..=max`.
fn clamp_value(current: i32, delta: i32, min: i32, max: i32) -> (r: i32)
    requires
        i32::MIN <= current + delta <= i32::MAX,
        min <= max,
    ensures
        r == clamp(current + delta, min as int, max as int),
{
    clamp_i32(current + delta, min, max)
}

/// Rust's remainder `x % r`, which takes the sign of `x`.
pub open spec fn truncated_rem(x: int, r: int) -> int {
    if x >= 0 {
        x % r
    } else {
        -((-x) % r)
    }
}

/// `current + delta` wrapped around into `min..=max`.
#[allow(dead_code)]
fn wrap_value(current: i32, delta: i32, min: i32, max: i32) -> (r: i32)
    requires
        min <= max,
        max - min + 1 <= i32::MAX,
        i32::MIN <= current + delta <= i32::MAX,
        i32::MIN <= current + delta - min <= i32::MAX,
        truncated_rem(current + delta - min, max - min + 1) + (max - min + 1) <= i32::MAX,
    ensures
        r == min + (current + delta - min) % (max - min + 1),
{
    let range = max - min + 1;
    let shifted = current + delta - min;
    let rem = shifted % range;
    proof {
        lemma_truncated_rem_wrap(shifted as int, range as int);
        if shifted >= 0 {
            vstd::arithmetic::div_mod::lemma_mod_pos_bound(shifted as int, range as int);
        } else {
            vstd::arithmetic::div_mod::lemma_mod_pos_bound(-shifted, range as int);
        }
    }
    ((rem + range) % range) + min
}

/// Adding the divisor once turns Rust's remainder into the Euclidean one.
proof fn lemma_truncated_rem_wrap(x: int, r: int)
    requires
        r > 0,
    ensures
        (truncated_rem(x, r) + r) % r == x % r,
{
    if x >= 0 {
        vstd::arithmetic::div_mod::lemma_mod_add_multiples_vanish(x % r, r);
        vstd::arithmetic::div_mod::lemma_mod_twice(x, r);
    } else {
        let m = (-x) % r;
        let q = (-x) / r;
        vstd::arithmetic::div_mod::lemma_fundamental_div_mod(-x, r);
        assert(x == r * (-q - 1) + (r - m)) by (nonlinear_arith)
            requires
                -x == r * q + m,
        ;
        vstd::arithmetic::div_mod::lemma_mod_multiples_vanish(-q - 1, r - m, r);
    }
}

/// Setting any value leaves every item within its range.
proof fn lemma_after_set_in_range(values: MenuValues, item: MenuItem, v: int)
    requires
        values.in_range(),
    ensures
        values.after_set(item, v).in_range(),
{
    let after = values.after_set(item, v);
    assert forall|i: MenuItem| item_min(i) <= #[trigger] after.value_of(i) <= item_max(i) by {
        if i != item {
            assert(after.value_of(i) == values.value_of(i));
        }
    }
}

/// Two encoder presses on the processing or effects screen return to the
/// screen they started from, and change nothing else.
pub proof fn law_encoder_press_toggles(m: MachineModel)
    requires
        m.state is Processing || m.state is EffectsProfile,
    ensures
        m.after(AppEvent::EncoderPress).after(AppEvent::EncoderPress) == m,
{
}

/// Cycling the processing profile three times returns to the same state.
pub proof fn law_profile_cycle_has_period_three(s: AppState)
    ensures
        cycled(cycled(cycled(s))) == s,
        (s is Processing || s is EffectsProfile) ==> cycled(s) != s,
{
}

/// A double press opens the menu at its first item, keeping the profile; a
/// second double press leaves it for the processing screen of that profile.
pub proof fn law_menu_round_trip(m: MachineModel, p: ProcessingProfile)
    requires
        m.state == AppState::Processing(p) || m.state == AppState::EffectsProfile(p),
    ensures
        m.after(AppEvent::EncoderDoublePress).state == AppState::Menu(MenuState::Selecting(0), p),
        m.after(AppEvent::EncoderDoublePress).after(AppEvent::EncoderDoublePress).state
            == AppState::Processing(p),
{
}

/// Moving the menu cursor forward and then back (or back and then forward)
/// returns it to the same item.
pub proof fn law_menu_cursor_inverse(i: usize)
    requires
        i < MENU_ITEM_COUNT,
    ensures
        MenuState::Selecting(i).next(MenuNavEvent::Next).next(MenuNavEvent::Prev)
            == MenuState::Selecting(i),
        MenuState::Selecting(i).next(MenuNavEvent::Prev).next(MenuNavEvent::Next)
            == MenuState::Selecting(i),
{
}

/// Stepping an edited value up and then down restores it, unless the step
/// up was stopped at the top of the item's range.
pub proof fn law_edit_step_inverse(i: usize, values: MenuValues)
    requires
        i < MENU_ITEM_COUNT,
        values.in_range(),
        values.value_of(item_at(i as int)) < item_max(item_at(i as int)),
    ensures
        ({
            let ms = MenuState::Editing(i);
            let up = ms.edited(MenuNavEvent::Next, values);
            ms.edited(MenuNavEvent::Prev, up) == values
        }),
{
    let item = item_at(i as int);
    assert(item_min(item) <= values.value_of(item));
}

/// On the effects screen the first three keypad rows pick the octave, the
/// bit crush and the formant, and change nothing else: keys 1, 2 and 3
/// set the octave to 1, 2 and 4; key 4 selects crush 1 with the bit rate
/// and sample rate of the menu items Bit Rate 1 and Sample Rate 1, key 6
/// crush 2 with those of Bit Rate 2 and Sample Rate 2, and key 5 no crush
/// (32 bits, no rate reduction); keys 7, 8 and 9 choose the male (1), no
/// (0) and female (2) formant.
pub proof fn law_effects_keys(m: MachineModel, p: ProcessingProfile)
    requires
        m.state == AppState::EffectsProfile(p),
    ensures
        m.after(AppEvent::KeypadPress(1)) == (MachineModel { octave: 1, ..m }),
        m.after(AppEvent::KeypadPress(2)) == (MachineModel { octave: 2, ..m }),
        m.after(AppEvent::KeypadPress(3)) == (MachineModel { octave: 4, ..m }),
        m.after(AppEvent::KeypadPress(4)) == (MachineModel {
            bitcrush: 1,
            bit_rate: m.values.value_of(MenuItem::BitRate1),
            sample_rate: m.values.value_of(MenuItem::SampleRate1),
            ..m
        }),
        m.after(AppEvent::KeypadPress(5)) == (MachineModel {
            bitcrush: 0,
            bit_rate: 32,
            sample_rate: 1,
            ..m
        }),
        m.after(AppEvent::KeypadPress(6)) == (MachineModel {
            bitcrush: 2,
            bit_rate: m.values.value_of(MenuItem::BitRate2),
            sample_rate: m.values.value_of(MenuItem::SampleRate2),
            ..m
        }),
        m.after(AppEvent::KeypadPress(4)).snapshot().crush == 1,
        m.after(AppEvent::KeypadPress(4)).snapshot().bit_rate == m.values.bit_rate_1,
        m.after(AppEvent::KeypadPress(4)).snapshot().sample_rate == m.values.sample_rate_1,
        m.after(AppEvent::KeypadPress(6)).snapshot().crush == 2,
        m.after(AppEvent::KeypadPress(6)).snapshot().bit_rate == m.values.bit_rate_2,
        m.after(AppEvent::KeypadPress(6)).snapshot().sample_rate == m.values.sample_rate_2,
        m.after(AppEvent::KeypadPress(7)) == (MachineModel { formant: 1, ..m }),
        m.after(AppEvent::KeypadPress(8)) == (MachineModel { formant: 0, ..m }),
        m.after(AppEvent::KeypadPress(9)) == (MachineModel { formant: 2, ..m }),
{
}

/// Key up followed by key down restores the key, on the processing and on
/// the effects screen.
pub proof fn law_key_up_down_inverse(m: MachineModel)
    requires
        m.wf(),
        m.state is Processing || m.state is EffectsProfile,
    ensures
        m.after(AppEvent::KeypadPress(12)).after(AppEvent::KeypadPress(10)).key == m.key,
        m.after(AppEvent::KeypadPress(10)).after(AppEvent::KeypadPress(12)).key == m.key,
{
}

/// The volume never leaves `0..=10` once it is there.
pub proof fn law_volume_stays_in_range(m: MachineModel, event: AppEvent)
    requires
        0 <= m.volume <= 10,
    ensures
        0 <= m.after(event).volume <= 10,
{
}

} // verus!
