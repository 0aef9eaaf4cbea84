//! Fixed-point drum synthesis: a square or triangle oscillator and an LFSR
//! noise source under a decaying envelope, one sample per call.

use vstd::prelude::*;

verus! {

/// The drum sounds.
#[derive(Copy, Clone, Debug, PartialEq, Eq, Structural)]
pub enum DrumType {
    Kick,
    Snare,
    HiHat,
    Tom,
    Clap,
    Cymbal,
}

/// The abstract state of a [`DrumSampler`].
pub struct DrumModel {
    pub drum_type: DrumType,
    pub sample_count: u32,
    pub max_samples: u32,
    pub phase: u32,
    pub phase_inc: u32,
    pub base_phase_inc: u32,
    pub env: u16,
    pub noise: u16,
}

/// A synthesized drum voice.
pub struct DrumSampler {
    drum_type: DrumType,
    sample_count: u32,
    max_samples: u32,
    /// 16.16 fixed-point phase
    phase: u32,
    /// 16.16 fixed-point phase increment
    phase_inc: u32,
    /// starting pitch
    base_phase_inc: u32,
    /// 16-bit envelope
    env: u16,
    /// LFSR state
    noise: u16,
}

/// Tom pitch (phase increment) for a MIDI tom note; the phase increment is
/// the frequency times 89478 (32-bit phase at 48 kHz).
pub open spec fn tom_phase_inc(note: u8) -> u32 {
    if note == 41 {
        7158000
    } else if note == 43 {
        8948000
    } else if note == 45 {
        10737000
    } else if note == 47 {
        13421000
    } else if note == 48 {
        16106000
    } else if note == 50 {
        17895000
    } else {
        10737000
    }
}

/// Length in samples of each drum sound.
pub open spec fn drum_length(t: DrumType) -> u32 {
    match t {
        DrumType::Kick => 4800,
        DrumType::Snare => 3800,
        DrumType::HiHat => 2400,
        DrumType::Tom => 4000,
        DrumType::Clap => 2900,
        DrumType::Cymbal => 7200,
    }
}

/// Envelope decay factor per sample, in 1/65536.
pub open spec fn decay_factor(t: DrumType) -> u32 {
    match t {
        DrumType::Kick => 65530,
        DrumType::Snare => 65500,
        DrumType::HiHat => 65400,
        DrumType::Tom => 65510,
        DrumType::Clap => 65450,
        DrumType::Cymbal => 65510,
    }
}

/// The next state of the noise register (Galois LFSR, taps 0xB400).
pub open spec fn lfsr_next(n: u16) -> u16 {
    if n & 1u16 == 1u16 {
        (n >> 1u16) ^ 0xB400u16
    } else {
        n >> 1u16
    }
}

/// The noise sample for register value `n`: its low 15 bits, centred and
/// doubled, in `-32768..=32766`.
pub open spec fn noise_sample(n: u16) -> int {
    2 * ((n & 0x7FFFu16) - 16384)
}

/// The square wave at `phase`.
pub open spec fn square_sample(phase: u32) -> int {
    if phase < 0x8000_0000 {
        32000
    } else {
        -32000
    }
}

/// The triangle wave at `phase`, in `-16384..=16384`.
pub open spec fn triangle_sample(phase: u32) -> int {
    if phase < 0x8000_0000 {
        (phase >> 16u32) - 16384
    } else {
        16384 - ((phase - 0x8000_0000) as u32 >> 16u32)
    }
}

/// The envelope after one sample.
pub open spec fn decayed(env: u16, t: DrumType) -> u16 {
    ((env * decay_factor(t)) as u32 >> 16u32) as u16
}

/// Rust's `/` on integers, which rounds towards zero.
pub open spec fn div_toward_zero(a: int, b: int) -> int {
    if a >= 0 {
        a / b
    } else {
        -((-a) / b)
    }
}

/// The drum voice as it is created: a kick, silent, default tom pitch.
pub open spec fn fresh_drum() -> DrumModel {
    DrumModel {
        drum_type: DrumType::Kick,
        sample_count: 0,
        max_samples: 0,
        phase: 0,
        phase_inc: 0,
        base_phase_inc: 10737000,
        env: 0,
        noise: 0xACE1,
    }
}

impl DrumModel {
    /// The drum is silent: its length is used up or its envelope has decayed.
    pub open spec fn finished(self) -> bool {
        self.sample_count >= self.max_samples || self.env < 100
    }

    /// The voice right after `trigger`.
    pub open spec fn triggered(self) -> DrumModel {
        let m = DrumModel {
            sample_count: 0,
            phase: 0,
            noise: 0xACE1,
            env: 0xFFFF,
            max_samples: drum_length(self.drum_type),
            ..self
        };
        match self.drum_type {
            DrumType::Kick => DrumModel { phase_inc: 900000, base_phase_inc: 900000, ..m },
            DrumType::Snare => DrumModel { phase_inc: 273000, base_phase_inc: 273000, ..m },
            DrumType::Tom => DrumModel { phase_inc: self.base_phase_inc, ..m },
            _ => DrumModel { phase_inc: 0, base_phase_inc: 0, ..m },
        }
    }

    /// The raw (pre-envelope) sample for the state after the phase update.
    pub open spec fn raw_sample(self, square: int, noise: int) -> int {
        match self.drum_type {
            DrumType::Kick => square,
            DrumType::Snare => div_toward_zero(square, 3) + div_toward_zero(noise * 2, 3),
            DrumType::Tom => triangle_sample(self.phase) * 2,
            _ => noise,
        }
    }

    /// The voice after one sample, and the sample in 1/32768 units.
    pub open spec fn step(self) -> (DrumModel, i32) {
        if self.finished() {
            (self, 0)
        } else {
            let noise = lfsr_next(self.noise);
            let square = square_sample(self.phase);
            let m = DrumModel {
                sample_count: (self.sample_count + 1) as u32,
                noise,
                phase: ((self.phase + self.phase_inc) % 0x1_0000_0000) as u32,
                phase_inc: if self.drum_type == DrumType::Kick && self.phase_inc > 81900 {
                    (self.phase_inc - 100) as u32
                } else {
                    self.phase_inc
                },
                env: decayed(self.env, self.drum_type),
                ..self
            };
            let raw = m.raw_sample(square, noise_sample(noise));
            (m, ((raw * m.env) as i32 >> 16i32))
        }
    }
}

impl View for DrumSampler {
    type V = DrumModel;

    closed spec fn view(&self) -> DrumModel {
        DrumModel {
            drum_type: self.drum_type,
            sample_count: self.sample_count,
            max_samples: self.max_samples,
            phase: self.phase,
            phase_inc: self.phase_inc,
            base_phase_inc: self.base_phase_inc,
            env: self.env,
            noise: self.noise,
        }
    }
}

impl Default for DrumSampler {
    fn default() -> (d: Self)
        ensures
            d@ == fresh_drum(),
    {
        Self::new()
    }
}

impl DrumSampler {
    /// A silent kick with the default tom pitch (about 120 Hz).
    pub fn new() -> (d: Self)
        ensures
            d@ == fresh_drum(),
    {
        Self {
            drum_type: DrumType::Kick,
            sample_count: 0,
            max_samples: 0,
            phase: 0,
            phase_inc: 0,
            base_phase_inc: 10737000,
            env: 0,
            noise: 0xACE1,
        }
    }

    /// Choose the drum sound played by the next trigger.
    pub fn set_drum_type(&mut self, drum_type: DrumType)
        ensures
            final(self)@ == (DrumModel { drum_type, ..old(self)@ }),
    {
        self.drum_type = drum_type;
    }

    /// Set the tom pitch from a MIDI tom note number (41, 43, 45, 47, 48,
    /// 50; any other note gives the default of about 120 Hz).
    pub fn set_pitch(&mut self, note: u8)
        ensures
            final(self)@ == (DrumModel { base_phase_inc: tom_phase_inc(note), ..old(self)@ }),
    {
        self.base_phase_inc = match note {
            41 => 7158000,
            43 => 8948000,
            45 => 10737000,
            47 => 13421000,
            48 => 16106000,
            50 => 17895000,
            _ => 10737000,
        };
    }

    /// Start the sound from the beginning with a full envelope.
    pub fn trigger(&mut self)
        ensures
            final(self)@ == old(self)@.triggered(),
    {
        self.sample_count = 0;
        self.phase = 0;
        self.noise = 0xACE1;
        self.env = 0xFFFF;
        match self.drum_type {
            DrumType::Kick => {
                self.max_samples = 4800;
                self.phase_inc = 900000;
                self.base_phase_inc = 900000;
            },
            DrumType::Snare => {
                self.max_samples = 3800;
                self.phase_inc = 273000;
                self.base_phase_inc = 273000;
            },
            DrumType::HiHat => {
                self.max_samples = 2400;
                self.phase_inc = 0;
                self.base_phase_inc = 0;
            },
            DrumType::Tom => {
                self.max_samples = 4000;
                self.phase_inc = self.base_phase_inc;
            },
            DrumType::Clap => {
                self.max_samples = 2900;
                self.phase_inc = 0;
                self.base_phase_inc = 0;
            },
            DrumType::Cymbal => {
                self.max_samples = 7200;
                self.phase_inc = 0;
                self.base_phase_inc = 0;
            },
        }
    }

    /// The drum has finished sounding.
    pub fn is_finished(&self) -> (b: bool)
        ensures
            b == self@.finished(),
    {
        self.sample_count >= self.max_samples || self.env < 100
    }

    /// The next sample in 1/32768 units (the audio path divides by 32768
    /// for a sample in -1.0..1.0); 0 once the drum has finished.
    pub fn next_value_fixed(&mut self) -> (out: i32)
        ensures
            (final(self)@, out) == old(self)@.step(),
    {
        if self.sample_count >= self.max_samples || self.env < 100 {
            return 0;
        }
        self.sample_count = self.sample_count + 1;

        // LFSR noise, always advanced
        let ghost n0 = self.noise;
        let lsb = self.noise & 1;
        self.noise = self.noise >> 1;
        if lsb == 1 {
            self.noise = self.noise ^ 0xB400;
        }
        let n = self.noise;
        assert(lfsr_next(n0) == n) by (bit_vector)
            requires
                lsb == n0 & 1u16,
                n == (if lsb == 1u16 {
                    (n0 >> 1u16) ^ 0xB400u16
                } else {
                    n0 >> 1u16
                }),
        ;
        // noise in -1.0..1.0, as -32768..32767
        let low: u16 = n & 0x7FFF;
        assert(low <= 0x7FFF) by (bit_vector)
            requires
                low == n & 0x7FFFu16,
        ;
        let noise: i16 = ((low as i16) - 16384) * 2;

        let square: i16 = if self.phase < 0x8000_0000 {
            32000
        } else {
            -32000
        };

        self.phase = self.phase.wrapping_add(self.phase_inc);

        let raw: i32 = match self.drum_type {
            DrumType::Kick => {
                // pitch decay
                if self.phase_inc > 81900 {
                    self.phase_inc = self.phase_inc.saturating_sub(100);
                }
                self.env = ((self.env as u32 * 65530) >> 16) as u16;
                square as i32
            },
            DrumType::Snare => {
                self.env = ((self.env as u32 * 65500) >> 16) as u16;
                (square as i32 / 3) + (noise as i32 * 2 / 3)
            },
            DrumType::HiHat => {
                self.env = ((self.env as u32 * 65400) >> 16) as u16;
                noise as i32
            },
            DrumType::Tom => {
                // toms hold their pitch; triangle wave for a cleaner tone
                self.env = ((self.env as u32 * 65510) >> 16) as u16;
                let tri: i32 = if self.phase < 0x8000_0000 {
                    ((self.phase >> 16) as i32) - 16384
                } else {
                    16384 - (((self.phase - 0x8000_0000) >> 16) as i32)
                };
                proof {
                    let p = self.phase;
                    assert(p >> 16u32 <= 0xFFFF) by (bit_vector);
                    assert(p < 0x8000_0000u32 ==> p >> 16u32 < 0x8000) by (bit_vector);
                    assert(p >= 0x8000_0000u32 ==> ((p - 0x8000_0000u32) as u32) >> 16u32 < 0x8000)
                        by (bit_vector);
                }
                tri * 2
            },
            DrumType::Clap => {
                self.env = ((self.env as u32 * 65450) >> 16) as u16;
                noise as i32
            },
            DrumType::Cymbal => {
                self.env = ((self.env as u32 * 65510) >> 16) as u16;
                noise as i32
            },
        };
        assert(-32768 <= raw <= 32768);
        // apply the envelope (0..65535) to the raw sample (about -32000..32000)
        assert(-32768 * 65535 <= raw * (self.env as i32) <= 32768 * 65535) by (nonlinear_arith)
            requires
                -32768 <= raw <= 32768,
                0 <= self.env <= 65535,
        ;
        (raw * self.env as i32) >> 16
    }
}

/// The drum sound for a General MIDI drum note, if any.
pub open spec fn drum_for_note(note: u8) -> Option<DrumType> {
    if note == 35 || note == 36 {
        Some(DrumType::Kick)
    } else if note == 38 || note == 40 {
        Some(DrumType::Snare)
    } else if note == 42 || note == 44 || note == 46 {
        Some(DrumType::HiHat)
    } else if note == 41 || note == 43 || note == 45 || note == 47 || note == 48 || note == 50 {
        Some(DrumType::Tom)
    } else if note == 39 {
        Some(DrumType::Clap)
    } else if note == 49 || note == 55 || note == 57 {
        Some(DrumType::Cymbal)
    } else {
        None
    }
}

/// Map a General MIDI drum note to a drum sound.
pub fn midi_note_to_drum_type(note: u8) -> (t: Option<DrumType>)
    ensures
        t == drum_for_note(note),
{
    match note {
        35 | 36 => Some(DrumType::Kick),
        38 | 40 => Some(DrumType::Snare),
        42 | 44 | 46 => Some(DrumType::HiHat),
        41 | 43 | 45 | 47 | 48 | 50 => Some(DrumType::Tom),
        39 => Some(DrumType::Clap),
        49 | 55 | 57 => Some(DrumType::Cymbal),
        _ => None,
    }
}


/// The General MIDI percussion map: acoustic and electric bass drum (35,
/// 36) play the kick; acoustic and electric snare (38, 40) the snare;
/// closed, pedal and open hi-hat (42, 44, 46) the hi-hat; the six toms (41,
/// 43, 45, 47, 48, 50) the tom; hand clap (39) the clap; crash 1, splash and
/// crash 2 (49, 55, 57) the cymbal; every other note plays no drum.
pub proof fn law_general_midi_drum_map(note: u8)
    ensures
        (drum_for_note(note) == Some(DrumType::Kick)) == (note == 35 || note == 36),
        (drum_for_note(note) == Some(DrumType::Snare)) == (note == 38 || note == 40),
        (drum_for_note(note) == Some(DrumType::HiHat)) == (note == 42 || note == 44 || note
            == 46),
        (drum_for_note(note) == Some(DrumType::Tom)) == (note == 41 || note == 43 || note == 45
            || note == 47 || note == 48 || note == 50),
        (drum_for_note(note) == Some(DrumType::Clap)) == (note == 39),
        (drum_for_note(note) == Some(DrumType::Cymbal)) == (note == 49 || note == 55 || note
            == 57),
        (drum_for_note(note) is None) == !(35 <= note <= 50 || note == 55 || note == 57) || note
            == 37,
{
}

/// A finished drum stays silent and unchanged.
pub proof fn law_finished_drum_is_silent(m: DrumModel)
    requires
        m.finished(),
    ensures
        m.step() == (m, 0i32),
{
}

/// Every sample lies in `-32768..=32767`, so the audio path's division by
/// 32768 gives a value in `-1.0..1.0`.
pub proof fn law_sample_range(m: DrumModel)
    ensures
        -32768 <= m.step().1 <= 32767,
{
    if !m.finished() {
        let n = lfsr_next(m.noise);
        let low = n & 0x7FFFu16;
        assert(low <= 0x7FFF) by (bit_vector)
            requires
                low == n & 0x7FFFu16,
        ;
        let p = ((m.phase + m.phase_inc) % 0x1_0000_0000) as u32;
        assert(p < 0x8000_0000u32 ==> p >> 16u32 < 0x8000) by (bit_vector);
        assert(p >= 0x8000_0000u32 ==> ((p - 0x8000_0000u32) as u32) >> 16u32 < 0x8000)
            by (bit_vector);
        let e = m.step().0.env;
        let raw = m.step().0.raw_sample(square_sample(m.phase), noise_sample(n));
        let ns = noise_sample(n);
        assert(-32768 <= ns <= 32766);
        let st = m.step().0;
        assert(st.phase == p);
        assert(-16384 <= triangle_sample(p) <= 16384);
        assert(-21846 <= div_toward_zero(ns * 2, 3) <= 21844);
        assert(-10667 <= div_toward_zero(square_sample(m.phase), 3) <= 10667);
        assert(-32768 <= raw <= 32768);
        let prod = raw * e;
        assert(-32768 * 65535 <= prod <= 32768 * 65535) by (nonlinear_arith)
            requires
                -32768 <= raw <= 32768,
                0 <= e <= 65535,
                prod == raw * e,
        ;
        let x = prod as i32;
        assert(-2147450880 <= x <= 2147450880 ==> -32768 <= (x >> 16i32) <= 32767) by (bit_vector);
    }
}

/// Each sounding sample uses up one sample of the drum's length and the
/// envelope never grows, so a triggered drum falls silent within its
/// length.
pub proof fn law_drum_runs_down(m: DrumModel)
    ensures
        m.step().0.max_samples == m.max_samples,
        m.step().0.env <= m.env,
        !m.finished() ==> m.step().0.sample_count == m.sample_count + 1,
        m.sample_count <= m.max_samples ==> m.step().0.sample_count <= m.max_samples,
        m.triggered().sample_count == 0 && m.triggered().max_samples == drum_length(m.drum_type),
{
    let f = decay_factor(m.drum_type);
    let prod = (m.env * f) as u32;
    assert(0 <= m.env * f <= 65535 * 65535) by (nonlinear_arith)
        requires
            0 <= m.env <= 65535,
            0 <= f <= 65535,
    ;
    assert(prod == m.env * f);
    assert(prod >> 16u32 == prod / 65536) by (bit_vector);
    assert(prod / 65536 <= m.env) by (nonlinear_arith)
        requires
            prod == m.env * f,
            0 <= f <= 65535,
            0 <= m.env,
    ;
}

/// The noise register never reaches the all-zero state, from which the
/// LFSR would stay silent.
pub proof fn law_lfsr_never_zero(n: u16)
    requires
        n != 0,
    ensures
        lfsr_next(n) != 0,
{
    assert(n != 0u16 ==> (if n & 1u16 == 1u16 {
        (n >> 1u16) ^ 0xB400u16
    } else {
        n >> 1u16
    }) != 0u16) by (bit_vector);
}

} // verus!
