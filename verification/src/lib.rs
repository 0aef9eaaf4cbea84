//! Control logic of a telephone-shaped vocal effects box: the user-interface
//! state machines and keypad mapping, display change tracking, MIDI byte
//! parsing and queueing, voice allocation, drum synthesis and sample
//! playback, the decisions of the audio and interface tasks, settings
//! records and memory-protection setup.

pub mod state_machine;
pub mod state_machines;
pub mod buttons;
pub mod dirty;
pub mod midi;
pub mod phone_midi;
pub mod oscillator;
pub mod drum_synth;
pub mod sample_player;
pub mod voice_generator;
pub mod handler;
pub mod phone_handler;
pub mod settings_storage;
pub mod mpu;
