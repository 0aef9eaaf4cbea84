//! The oscillator waveforms; the oscillator itself runs in the audio path.

use vstd::prelude::*;

verus! {

/// The shape of an oscillator's wave.
#[derive(Debug, Clone, Copy, PartialEq, Eq, Structural)]
pub enum Waveform {
    Sine,
    Saw,
    Square,
    Triangle,
}

} // verus!
