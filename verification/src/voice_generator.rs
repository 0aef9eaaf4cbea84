//! Polyphonic voice allocation for incoming MIDI notes: each voice is a
//! synth or a drum, chosen by channel; channel 0 only steers the vocal
//! effects; and a per-voice record of the pitch that feeds the effects.

use vstd::prelude::*;
use crate::drum_synth::{drum_for_note, fresh_drum, DrumModel, DrumSampler};

verus! {

/// Whether a voice plays an oscillator or a drum.
#[derive(Debug, Clone, Copy, PartialEq, Eq, Structural)]
pub enum VoiceTypeId {
    Synth,
    Drum,
}

/// Channel 0 (MIDI channel 1): steers the vocal effects only, no audio.
pub const VOICE_CTRL_CHANNEL: u8 = 0;

/// Channel 9 (MIDI channel 10): drums.
pub const DRUM_CHANNEL: u8 = 9;

/// Channels 1, 2 and 9 make sound but do not steer the vocal effects.
pub open spec fn sound_only(channel: u8) -> bool {
    channel == 1 || channel == 2 || channel == 9
}

/// Whether `channel` makes sound without steering the vocal effects.
pub fn is_sound_only_channel(channel: u8) -> (b: bool)
    ensures
        b == sound_only(channel),
{
    channel == 1 || channel == 2 || channel == 9
}

/// The abstract state of a [`HybridVoice`].
pub struct VoiceModel {
    pub drum: DrumModel,
    pub active_type: VoiceTypeId,
    pub note: Option<u8>,
    pub velocity: u8,
    pub channel: u8,
}

/// A voice that can play a synth note or a drum; the synth oscillator
/// itself runs in the audio path.
pub struct HybridVoice {
    drum: DrumSampler,
    active_type: VoiceTypeId,
    note: Option<u8>,
    velocity: u8,
    channel: u8,
}

impl VoiceModel {
    /// The voice is free: it plays no note.
    pub open spec fn free(self) -> bool {
        self.note is None
    }

    /// The voice plays `note` on `channel`.
    pub open spec fn playing(self, note: u8, channel: u8) -> bool {
        self.note == Some(note) && self.channel == channel
    }

    /// The voice after a note on: a drum on the drum channel (triggered when
    /// the note names a drum), a synth on any other channel.
    pub open spec fn after_note_on(self, note: u8, velocity: u8, channel: u8) -> VoiceModel {
        let v = VoiceModel { note: Some(note), velocity, channel, ..self };
        if channel == DRUM_CHANNEL {
            match drum_for_note(note) {
                Some(t) => VoiceModel {
                    active_type: VoiceTypeId::Drum,
                    drum: DrumModel { drum_type: t, ..self.drum }.triggered(),
                    ..v
                },
                None => VoiceModel { active_type: VoiceTypeId::Drum, ..v },
            }
        } else {
            VoiceModel { active_type: VoiceTypeId::Synth, ..v }
        }
    }

    /// The voice after a note off; a drum finishes its envelope on its own.
    pub open spec fn after_note_off(self) -> VoiceModel {
        VoiceModel { note: None, velocity: 0, ..self }
    }

    /// The voice after producing one drum sample, and that sample: a silent
    /// voice gives 0; a drum that has run down releases its voice.
    pub open spec fn drum_step(self) -> (VoiceModel, i32) {
        if self.velocity == 0 {
            (self, 0)
        } else {
            let (d, out) = self.drum.step();
            if d.finished() {
                (VoiceModel { drum: d, note: None, velocity: 0, ..self }, out)
            } else {
                (VoiceModel { drum: d, ..self }, out)
            }
        }
    }
}

impl View for HybridVoice {
    type V = VoiceModel;

    closed spec fn view(&self) -> VoiceModel {
        VoiceModel {
            drum: self.drum@,
            active_type: self.active_type,
            note: self.note,
            velocity: self.velocity,
            channel: self.channel,
        }
    }
}

impl HybridVoice {
    /// A free synth voice on channel 0, with a drum that has not been triggered.
    pub fn new() -> (v: Self)
        ensures
            v@.free(),
            v@.active_type == VoiceTypeId::Synth,
            v@.velocity == 0,
            v@.channel == 0,
            v@.drum == fresh_drum(),
    {
        Self {
            drum: DrumSampler::new(),
            active_type: VoiceTypeId::Synth,
            note: None,
            velocity: 0,
            channel: 0,
        }
    }

    /// The voice plays no note.
    pub fn is_free(&self) -> (b: bool)
        ensures
            b == self@.free(),
    {
        self.note.is_none()
    }

    /// The voice plays `note` on `channel`.
    pub fn is_playing(&self, note: u8, channel: u8) -> (b: bool)
        ensures
            b == self@.playing(note, channel),
    {
        match self.note {
            Some(n) => n == note && self.channel == channel,
            None => false,
        }
    }

    /// Whether the voice is a synth or a drum.
    pub fn type_id(&self) -> (t: VoiceTypeId)
        ensures
            t == self@.active_type,
    {
        self.active_type
    }

    /// The note the voice plays, if any.
    pub fn note(&self) -> (n: Option<u8>)
        ensures
            n == self@.note,
    {
        self.note
    }

    /// The velocity of the note (0 when silent).
    pub fn velocity(&self) -> (v: u8)
        ensures
            v == self@.velocity,
    {
        self.velocity
    }

    /// The channel of the last note.
    pub fn channel(&self) -> (c: u8)
        ensures
            c == self@.channel,
    {
        self.channel
    }

    /// Start a note; the type follows the channel (drums on channel 9).
    pub fn note_on(&mut self, note: u8, velocity: u8, channel: u8)
        ensures
            final(self)@ == old(self)@.after_note_on(note, velocity, channel),
    {
        self.note = Some(note);
        self.velocity = velocity;
        self.channel = channel;
        if channel == DRUM_CHANNEL {
            self.active_type = VoiceTypeId::Drum;
            if let Some(drum_type) = crate::drum_synth::midi_note_to_drum_type(note) {
                self.drum.set_drum_type(drum_type);
                self.drum.trigger();
            }
        } else {
            self.active_type = VoiceTypeId::Synth;
        }
    }

    /// Release the note.
    pub fn note_off(&mut self)
        ensures
            final(self)@ == old(self)@.after_note_off(),
    {
        self.note = None;
        self.velocity = 0;
    }

    /// The next drum sample in 1/32768 units, releasing the voice once the
    /// drum has run down; 0 from a silent voice.
    pub fn next_drum_value(&mut self) -> (out: i32)
        ensures
            (final(self)@, out) == old(self)@.drum_step(),
    {
        if self.velocity == 0 {
            return 0;
        }
        let sample = self.drum.next_value_fixed();
        if self.drum.is_finished() {
            self.note = None;
            self.velocity = 0;
        }
        sample
    }
}

/// The first position at or after `i` whose element satisfies `p`.
pub open spec fn first_match<A>(s: Seq<A>, i: int, p: spec_fn(A) -> bool) -> Option<int>
    decreases s.len() - i,
{
    if i < 0 || i >= s.len() {
        None
    } else if p(s[i]) {
        Some(i)
    } else {
        first_match(s, i + 1, p)
    }
}

/// Voices that play `note` on `channel`.
pub open spec fn plays(note: u8, channel: u8) -> spec_fn(VoiceModel) -> bool {
    |v: VoiceModel| v.playing(note, channel)
}

/// Free voices of type `t`.
pub open spec fn free_of_type(t: VoiceTypeId) -> spec_fn(VoiceModel) -> bool {
    |v: VoiceModel| v.free() && v.active_type == t
}

/// Free voices.
pub open spec fn free_voice() -> spec_fn(VoiceModel) -> bool {
    |v: VoiceModel| v.free()
}

/// Control slots that can take `note`: one holding it already, or an empty one.
pub open spec fn ctrl_slot_for(note: u8) -> spec_fn(Option<u8>) -> bool {
    |c: Option<u8>| c == Some(note) || c is None
}

/// Control slots holding `note`.
pub open spec fn ctrl_holding(note: u8) -> spec_fn(Option<u8>) -> bool {
    |c: Option<u8>| c == Some(note)
}

/// A position as an index.
pub open spec fn as_index(o: Option<int>) -> Option<usize> {
    match o {
        Some(i) => Some(i as usize),
        None => None,
    }
}

/// A match found by [`first_match`] lies in the sequence and satisfies the test.
pub proof fn lemma_first_match_in_range<A>(s: Seq<A>, i: int, p: spec_fn(A) -> bool)
    ensures
        first_match(s, i, p) matches Some(k) ==> i <= k < s.len() && p(s[k]) && forall|j: int|
            i <= j < k ==> !p(#[trigger] s[j]),
        first_match(s, i, p) is None ==> forall|j: int| 0 <= i <= j < s.len() ==> !p(#[trigger] s[j]),
    decreases s.len() - i,
{
    if 0 <= i < s.len() && !p(s[i]) {
        lemma_first_match_in_range(s, i + 1, p);
    }
}

/// The voice a note on uses: the voice already playing the note on that
/// channel; else the first free voice of the needed type; else the first
/// free voice; else voice 0 is stolen.
pub open spec fn chosen_voice(voices: Seq<VoiceModel>, note: u8, channel: u8) -> int {
    let needed = if channel == DRUM_CHANNEL {
        VoiceTypeId::Drum
    } else {
        VoiceTypeId::Synth
    };
    match first_match(voices, 0, plays(note, channel)) {
        Some(i) => i,
        None => match first_match(voices, 0, free_of_type(needed)) {
            Some(i) => i,
            None => match first_match(voices, 0, free_voice()) {
                Some(i) => i,
                None => 0,
            },
        },
    }
}

/// A pitch fed to the vocal effects: a note, and the pitch bend it was
/// cached with (none for notes of the control channel, which are unbent).
pub type EffectsPitch = (u8, Option<u16>);

/// The abstract state of a [`VoiceManager`].
#[verifier::ext_equal]
pub struct ManagerModel {
    pub voices: Seq<VoiceModel>,
    pub pitch_bend: u16,
    pub cached: Seq<Option<(u8, u16)>>,
    pub voice_ctrl_notes: Seq<Option<u8>>,
}

/// The cached voice pitches, in voice order.
pub open spec fn voice_pitches(c: Seq<Option<(u8, u16)>>) -> Seq<EffectsPitch>
    decreases c.len(),
{
    if c.len() == 0 {
        Seq::empty()
    } else {
        voice_pitches(c.drop_last()) + match c.last() {
            Some((n, b)) => seq![(n, Some(b))],
            None => Seq::empty(),
        }
    }
}

/// The control-channel notes, in slot order.
pub open spec fn ctrl_pitches(c: Seq<Option<u8>>) -> Seq<EffectsPitch>
    decreases c.len(),
{
    if c.len() == 0 {
        Seq::empty()
    } else {
        ctrl_pitches(c.drop_last()) + match c.last() {
            Some(n) => seq![(n, None::<u16>)],
            None => Seq::empty(),
        }
    }
}

/// At most the first `limit` elements of `s`.
pub open spec fn truncated<A>(s: Seq<A>, limit: int) -> Seq<A> {
    if s.len() <= limit {
        s
    } else {
        s.subrange(0, limit)
    }
}

/// The pitches for the vocal effects: the cached voice pitches first, then
/// the control-channel notes, at most `limit` of them.
pub open spec fn effects_pitches(cached: Seq<Option<(u8, u16)>>, ctrl: Seq<Option<u8>>, limit: int) -> Seq<EffectsPitch> {
    truncated(voice_pitches(cached) + ctrl_pitches(ctrl), limit)
}

/// Appending to a sequence and then truncating it.
proof fn lemma_truncated_push<A>(s: Seq<A>, x: A, limit: int)
    requires
        limit >= 0,
    ensures
        truncated(s.push(x), limit) == (if truncated(s, limit).len() < limit {
            truncated(s, limit).push(x)
        } else {
            truncated(s, limit)
        }),
{
    if s.len() < limit {
        assert(truncated(s, limit) == s);
    } else {
        assert(s.push(x).subrange(0, limit) =~= s.subrange(0, limit));
    }
}

impl ManagerModel {
    /// The manager after a pitch bend: every voice that plays a note caches
    /// its pitch with the new bend.
    pub open spec fn after_pitch_bend(self, value: u16) -> ManagerModel {
        ManagerModel {
            pitch_bend: value,
            cached: Seq::new(
                self.cached.len(),
                |i: int|
                    match self.voices[i].note {
                        Some(n) => Some((n, value)),
                        None => self.cached[i],
                    },
            ),
            ..self
        }
    }

    /// The manager after "all notes off" for one channel, or for all of
    /// them; for the control channel only its notes are cleared.
    pub open spec fn after_all_notes_off(self, channel: Option<u8>) -> ManagerModel {
        if channel == Some(VOICE_CTRL_CHANNEL) {
            ManagerModel {
                voice_ctrl_notes: Seq::new(self.voice_ctrl_notes.len(), |i: int| None::<u8>),
                ..self
            }
        } else {
            let hit = |v: VoiceModel|
                match channel {
                    Some(c) => v.channel == c,
                    None => true,
                };
            ManagerModel {
                voices: Seq::new(
                    self.voices.len(),
                    |i: int|
                        if hit(self.voices[i]) {
                            self.voices[i].after_note_off()
                        } else {
                            self.voices[i]
                        },
                ),
                cached: Seq::new(
                    self.cached.len(),
                    |i: int|
                        if hit(self.voices[i]) {
                            None
                        } else {
                            self.cached[i]
                        },
                ),
                voice_ctrl_notes: if channel is None {
                    Seq::new(self.voice_ctrl_notes.len(), |i: int| None::<u8>)
                } else {
                    self.voice_ctrl_notes
                },
                ..self
            }
        }
    }

    /// The invariant: one cache entry and one control slot per voice, and at
    /// least one voice (voice stealing takes voice 0).
    pub open spec fn wf(self) -> bool {
        &&& self.voices.len() >= 1
        &&& self.cached.len() == self.voices.len()
        &&& self.voice_ctrl_notes.len() == self.voices.len()
    }

    /// No two voices play the same note on the same channel.
    pub open spec fn unique_notes(self) -> bool {
        forall|i: int, j: int|
            0 <= i < j < self.voices.len() && #[trigger] self.voices[i].note is Some
                ==> !(#[trigger] self.voices[j]).playing(
                self.voices[i].note->0,
                self.voices[i].channel,
            )
    }

    /// The manager after a note on.
    pub open spec fn after_note_on(self, note: u8, velocity: u8, channel: u8) -> ManagerModel {
        if channel == VOICE_CTRL_CHANNEL {
            match first_match(self.voice_ctrl_notes, 0, ctrl_slot_for(note)) {
                Some(i) => ManagerModel {
                    voice_ctrl_notes: self.voice_ctrl_notes.update(i, Some(note)),
                    ..self
                },
                None => self,
            }
        } else {
            let i = chosen_voice(self.voices, note, channel);
            ManagerModel {
                voices: self.voices.update(
                    i,
                    self.voices[i].after_note_on(note, velocity, channel),
                ),
                cached: if sound_only(channel) {
                    self.cached
                } else {
                    self.cached.update(i, Some((note, self.pitch_bend)))
                },
                ..self
            }
        }
    }

    /// The manager after a note off; the drum channel ignores note offs.
    pub open spec fn after_note_off(self, note: u8, channel: u8) -> ManagerModel {
        if channel == VOICE_CTRL_CHANNEL {
            match first_match(self.voice_ctrl_notes, 0, ctrl_holding(note)) {
                Some(i) => ManagerModel {
                    voice_ctrl_notes: self.voice_ctrl_notes.update(i, None),
                    ..self
                },
                None => self,
            }
        } else if channel == DRUM_CHANNEL {
            self
        } else {
            match first_match(self.voices, 0, plays(note, channel)) {
                Some(i) => ManagerModel {
                    voices: self.voices.update(i, self.voices[i].after_note_off()),
                    cached: self.cached.update(i, None),
                    ..self
                },
                None => self,
            }
        }
    }
}

/// The voices, the pitch bend and the pitches that feed the vocal effects.
pub struct VoiceManager {
    voices: Vec<HybridVoice>,
    /// the last 14-bit pitch bend value (8192 is the centre)
    pitch_bend: u16,
    /// per voice: the note and pitch bend whose frequency feeds the effects
    cached: Vec<Option<(u8, u16)>>,
    /// notes held on the control channel
    voice_ctrl_notes: Vec<Option<u8>>,
}

impl View for VoiceManager {
    type V = ManagerModel;

    closed spec fn view(&self) -> ManagerModel {
        ManagerModel {
            voices: self.voices@.map_values(|v: HybridVoice| v@),
            pitch_bend: self.pitch_bend,
            cached: self.cached@,
            voice_ctrl_notes: self.voice_ctrl_notes@,
        }
    }
}

impl VoiceManager {
    /// `max_voices` free synth voices, no pitch bend.
    pub fn new(max_voices: usize) -> (m: Self)
        requires
            max_voices >= 1,
        ensures
            m@.wf(),
            m@.voices.len() == max_voices,
            forall|i: int| 0 <= i < max_voices ==> (#[trigger] m@.voices[i]).free(),
            m@.pitch_bend == 8192,
            m@.cached == Seq::new(max_voices as nat, |i: int| None::<(u8, u16)>),
            m@.voice_ctrl_notes == Seq::new(max_voices as nat, |i: int| None::<u8>),
    {
        let mut voices: Vec<HybridVoice> = Vec::new();
        let mut cached: Vec<Option<(u8, u16)>> = Vec::new();
        let mut ctrl: Vec<Option<u8>> = Vec::new();
        let mut i: usize = 0;
        while i < max_voices
            invariant
                0 <= i <= max_voices,
                voices@.len() == i,
                cached@ == Seq::new(i as nat, |k: int| None::<(u8, u16)>),
                ctrl@ == Seq::new(i as nat, |k: int| None::<u8>),
                forall|k: int| 0 <= k < i ==> (#[trigger] voices@[k])@.free(),
            decreases max_voices - i,
        {
            voices.push(HybridVoice::new());
            cached.push(None);
            ctrl.push(None);
            i = i + 1;
            assert(cached@ =~= Seq::new(i as nat, |k: int| None::<(u8, u16)>));
            assert(ctrl@ =~= Seq::new(i as nat, |k: int| None::<u8>));
        }
        let m = Self { voices, pitch_bend: 8192, cached, voice_ctrl_notes: ctrl };
        assert forall|k: int| 0 <= k < max_voices implies (#[trigger] m@.voices[k]).free() by {
            assert(m@.voices[k] == m.voices@[k]@);
        }
        m
    }

    /// The number of voices.
    pub fn voice_count(&self) -> (n: usize)
        ensures
            n == self@.voices.len(),
    {
        self.voices.len()
    }

    /// Voice `i`.
    pub fn voice(&self, i: usize) -> (v: &HybridVoice)
        requires
            i < self@.voices.len(),
        ensures
            v@ == self@.voices[i as int],
    {
        &self.voices[i]
    }

    /// The last pitch bend value.
    pub fn pitch_bend(&self) -> (b: u16)
        ensures
            b == self@.pitch_bend,
    {
        self.pitch_bend
    }

    /// The first voice satisfying the test `which` (0: playing `note` on
    /// `channel`; 1: free and of type `t`; 2: free), if any.
    fn find_voice(&self, which: u8, note: u8, channel: u8, t: VoiceTypeId) -> (r: Option<usize>)
        ensures
            r == as_index(
                first_match(
                    self@.voices,
                    0,
                    if which == 0 {
                        plays(note, channel)
                    } else if which == 1 {
                        free_of_type(t)
                    } else {
                        free_voice()
                    },
                ),
            ),
    {
        let ghost p = if which == 0 {
            plays(note, channel)
        } else if which == 1 {
            free_of_type(t)
        } else {
            free_voice()
        };
        let mut i: usize = 0;
        while i < self.voices.len()
            invariant
                0 <= i <= self@.voices.len(),
                self@.voices.len() == self.voices@.len(),
                p == (if which == 0 {
                    plays(note, channel)
                } else if which == 1 {
                    free_of_type(t)
                } else {
                    free_voice()
                }),
                first_match(self@.voices, 0, p) == first_match(self@.voices, i as int, p),
            decreases self.voices@.len() - i,
        {
            assert(self@.voices[i as int] == self.voices@[i as int]@);
            let v = &self.voices[i];
            let hit = if which == 0 {
                v.is_playing(note, channel)
            } else if which == 1 {
                v.is_free() && v.type_id() == t
            } else {
                v.is_free()
            };
            assert(hit == p(self@.voices[i as int]));
            if hit {
                return Some(i);
            }
            i = i + 1;
        }
        None
    }

    /// Start a note. Control-channel notes only record their pitch for the
    /// vocal effects; other notes take a voice (see [`chosen_voice`]) whose
    /// index is returned, so that the audio path can tune its oscillator.
    pub fn note_on(&mut self, note: u8, velocity: u8, channel: u8) -> (r: Option<usize>)
        requires
            old(self)@.wf(),
        ensures
            final(self)@ == old(self)@.after_note_on(note, velocity, channel),
            final(self)@.wf(),
            channel == VOICE_CTRL_CHANNEL ==> r is None,
            channel != VOICE_CTRL_CHANNEL ==> r == Some(
                chosen_voice(old(self)@.voices, note, channel) as usize,
            ),
    {
        if channel == VOICE_CTRL_CHANNEL {
            let ghost p = ctrl_slot_for(note);
            let mut i: usize = 0;
            while i < self.voice_ctrl_notes.len()
                invariant
                    0 <= i <= self.voice_ctrl_notes@.len(),
                    self@ == old(self)@,
                    self@.wf(),
                    channel == VOICE_CTRL_CHANNEL,
                    p == ctrl_slot_for(note),
                    first_match(self@.voice_ctrl_notes, 0, p) == first_match(
                        self@.voice_ctrl_notes,
                        i as int,
                        p,
                    ),
                decreases self.voice_ctrl_notes@.len() - i,
            {
                let slot = self.voice_ctrl_notes[i];
                assert((slot == Some(note) || slot.is_none()) == p(self@.voice_ctrl_notes[i as int]));
                if slot == Some(note) || slot.is_none() {
                    self.voice_ctrl_notes.set(i, Some(note));
                    return None;
                }
                i = i + 1;
            }
            return None;
        }
        let needed_type = if channel == DRUM_CHANNEL {
            VoiceTypeId::Drum
        } else {
            VoiceTypeId::Synth
        };
        let update_cache = !is_sound_only_channel(channel);
        let ghost vs = old(self)@.voices;
        proof {
            lemma_first_match_in_range(vs, 0, plays(note, channel));
            lemma_first_match_in_range(vs, 0, free_of_type(needed_type));
            lemma_first_match_in_range(vs, 0, free_voice());
        }
        let count = self.voices.len();
        assert(vs.len() == count);
        let found = self.find_voice(0, note, channel, needed_type);
        assert(found == as_index(first_match(vs, 0, plays(note, channel))));
        let i = match found {
            Some(i) => {
                assert(first_match(vs, 0, plays(note, channel)) == Some(i as int));
                i
            },
            None => match self.find_voice(1, note, channel, needed_type) {
                Some(i) => {
                    assert(first_match(vs, 0, free_of_type(needed_type)) == Some(i as int));
                    i
                },
                None => match self.find_voice(2, note, channel, needed_type) {
                    Some(i) => {
                        assert(first_match(vs, 0, free_voice()) == Some(i as int));
                        i
                    },
                    None => 0,
                },
            },
        };
        proof {
            lemma_first_match_in_range(old(self)@.voices, 0, plays(note, channel));
            lemma_first_match_in_range(old(self)@.voices, 0, free_of_type(needed_type));
            lemma_first_match_in_range(old(self)@.voices, 0, free_voice());
        }
        assert(i as int == chosen_voice(old(self)@.voices, note, channel));
        self.voice_note_on(i, note, velocity, channel);
        if update_cache {
            self.cached.set(i, Some((note, self.pitch_bend)));
        }
        Some(i)
    }

    /// Note on for voice `i`.
    fn voice_note_on(&mut self, i: usize, note: u8, velocity: u8, channel: u8)
        requires
            i < old(self).voices@.len(),
            old(self)@.wf(),
        ensures
            final(self)@ == (ManagerModel {
                voices: old(self)@.voices.update(
                    i as int,
                    old(self)@.voices[i as int].after_note_on(note, velocity, channel),
                ),
                ..old(self)@
            }),
    {
        let mut v = self.voices.remove(i);
        v.note_on(note, velocity, channel);
        self.voices.insert(i, v);
        proof {
            assert(self@.voices =~= old(self)@.voices.update(
                i as int,
                old(self)@.voices[i as int].after_note_on(note, velocity, channel),
            ));
        }
    }

    /// Note off for voice `i`.
    fn voice_note_off(&mut self, i: usize)
        requires
            i < old(self).voices@.len(),
            old(self)@.wf(),
        ensures
            final(self)@ == (ManagerModel {
                voices: old(self)@.voices.update(i as int, old(self)@.voices[i as int].after_note_off()),
                ..old(self)@
            }),
    {
        let mut v = self.voices.remove(i);
        v.note_off();
        self.voices.insert(i, v);
        proof {
            assert(self@.voices =~= old(self)@.voices.update(
                i as int,
                old(self)@.voices[i as int].after_note_off(),
            ));
        }
    }

    /// Record a pitch bend (the 14-bit MIDI value, 8192 = centre) and
    /// re-cache the pitch of every voice that plays a note.
    pub fn apply_pitch_bend(&mut self, value: u16)
        requires
            old(self)@.wf(),
        ensures
            final(self)@ == old(self)@.after_pitch_bend(value),
            final(self)@.wf(),
    {
        self.pitch_bend = value;
        let mut i: usize = 0;
        let n = self.voices.len();
        while i < n
            invariant
                0 <= i <= n,
                n == old(self)@.voices.len(),
                self@.voices == old(self)@.voices,
                self@.voice_ctrl_notes == old(self)@.voice_ctrl_notes,
                self@.pitch_bend == value,
                self@.cached.len() == n,
                old(self)@.wf(),
                forall|k: int|
                    0 <= k < n ==> #[trigger] self@.cached[k] == (if k < i {
                        match old(self)@.voices[k].note {
                            Some(m) => Some((m, value)),
                            None => old(self)@.cached[k],
                        }
                    } else {
                        old(self)@.cached[k]
                    }),
            decreases n - i,
        {
            assert(self@.voices[i as int] == self.voices@[i as int]@);
            if let Some(note) = self.voices[i].note() {
                self.cached.set(i, Some((note, value)));
            }
            i = i + 1;
        }
        assert(self@.cached =~= old(self)@.after_pitch_bend(value).cached);
    }

    /// Release every note of `channel`, or of all channels for `None`.
    pub fn all_notes_off(&mut self, channel: Option<u8>)
        requires
            old(self)@.wf(),
        ensures
            final(self)@ == old(self)@.after_all_notes_off(channel),
            final(self)@.wf(),
    {
        let n = self.voices.len();
        if channel == Some(VOICE_CTRL_CHANNEL) {
            self.clear_voice_ctrl_notes();
            return ;
        }
        let mut i: usize = 0;
        while i < n
            invariant
                0 <= i <= n,
                n == old(self)@.voices.len(),
                old(self)@.wf(),
                self@.wf(),
                self@.voice_ctrl_notes == old(self)@.voice_ctrl_notes,
                self@.pitch_bend == old(self)@.pitch_bend,
                self@.voices.len() == n,
                forall|k: int|
                    0 <= k < n ==> #[trigger] self@.voices[k] == (if k < i && (match channel {
                        Some(c) => old(self)@.voices[k].channel == c,
                        None => true,
                    }) {
                        old(self)@.voices[k].after_note_off()
                    } else {
                        old(self)@.voices[k]
                    }),
                forall|k: int|
                    0 <= k < n ==> #[trigger] self@.cached[k] == (if k < i && (match channel {
                        Some(c) => old(self)@.voices[k].channel == c,
                        None => true,
                    }) {
                        None
                    } else {
                        old(self)@.cached[k]
                    }),
            decreases n - i,
        {
            assert(self@.voices[i as int] == self.voices@[i as int]@);
            let hit = match channel {
                Some(c) => self.voices[i].channel() == c,
                None => true,
            };
            if hit {
                self.voice_note_off(i);
                self.cached.set(i, None);
            }
            i = i + 1;
        }
        if channel.is_none() {
            self.clear_voice_ctrl_notes();
        }
        assert(self@.voices =~= old(self)@.after_all_notes_off(channel).voices);
        assert(self@.cached =~= old(self)@.after_all_notes_off(channel).cached);
    }

    /// Forget every control-channel note.
    fn clear_voice_ctrl_notes(&mut self)
        requires
            old(self)@.wf(),
        ensures
            final(self)@ == (ManagerModel {
                voice_ctrl_notes: Seq::new(old(self)@.voice_ctrl_notes.len(), |i: int| None::<u8>),
                ..old(self)@
            }),
    {
        let n = self.voice_ctrl_notes.len();
        let mut i: usize = 0;
        while i < n
            invariant
                0 <= i <= n,
                n == old(self)@.voice_ctrl_notes.len(),
                self@.voices == old(self)@.voices,
                self@.cached == old(self)@.cached,
                self@.pitch_bend == old(self)@.pitch_bend,
                self@.voice_ctrl_notes.len() == n,
                forall|k: int|
                    0 <= k < n ==> #[trigger] self@.voice_ctrl_notes[k] == (if k < i {
                        None
                    } else {
                        old(self)@.voice_ctrl_notes[k]
                    }),
            decreases n - i,
        {
            self.voice_ctrl_notes.set(i, None);
            i = i + 1;
        }
        assert(self@.voice_ctrl_notes =~= Seq::new(n as nat, |i: int| None::<u8>));
    }

    /// The next drum sample of voice `i` in 1/32768 units; releases the
    /// voice once its drum has run down.
    pub fn next_drum_value(&mut self, i: usize) -> (out: i32)
        requires
            old(self)@.wf(),
            i < old(self)@.voices.len(),
        ensures
            ({
                let (v, o) = old(self)@.voices[i as int].drum_step();
                &&& out == o
                &&& final(self)@ == (ManagerModel {
                    voices: old(self)@.voices.update(i as int, v),
                    ..old(self)@
                })
            }),
            final(self)@.wf(),
    {
        let mut v = self.voices.remove(i);
        let out = v.next_drum_value();
        self.voices.insert(i, v);
        proof {
            assert(self@.voices =~= old(self)@.voices.update(
                i as int,
                old(self)@.voices[i as int].drum_step().0,
            ));
        }
        out
    }

    /// The pitches that steer the vocal effects: each voice's cached pitch,
    /// then each control-channel note, at most one per voice.
    pub fn effects_pitches(&self) -> (r: Vec<EffectsPitch>)
        requires
            self@.wf(),
        ensures
            r@ == effects_pitches(self@.cached, self@.voice_ctrl_notes, self@.voices.len() as int),
    {
        let limit = self.voices.len();
        let mut result: Vec<EffectsPitch> = Vec::new();
        let mut i: usize = 0;
        while i < self.cached.len()
            invariant
                0 <= i <= self@.cached.len(),
                limit == self@.voices.len(),
                self@.wf(),
                result@ == truncated(voice_pitches(self@.cached.subrange(0, i as int)), limit as int),
            decreases self@.cached.len() - i,
        {
            proof {
                let c = self@.cached.subrange(0, i + 1);
                assert(c.drop_last() =~= self@.cached.subrange(0, i as int));
                if let Some((n, b)) = self@.cached[i as int] {
                    lemma_truncated_push(voice_pitches(c.drop_last()), (n, Some(b)), limit as int);
                } else {
                    assert(voice_pitches(c) =~= voice_pitches(c.drop_last()));
                }
            }
            if let Some((n, b)) = self.cached[i] {
                if result.len() < limit {
                    result.push((n, Some(b)));
                }
            }
            i = i + 1;
        }
        assert(self@.cached.subrange(0, self@.cached.len() as int) =~= self@.cached);
        let ghost vp = voice_pitches(self@.cached);
        let mut j: usize = 0;
        while j < self.voice_ctrl_notes.len()
            invariant
                0 <= j <= self@.voice_ctrl_notes.len(),
                limit == self@.voices.len(),
                self@.wf(),
                vp == voice_pitches(self@.cached),
                result@ == truncated(
                    vp + ctrl_pitches(self@.voice_ctrl_notes.subrange(0, j as int)),
                    limit as int,
                ),
            decreases self@.voice_ctrl_notes.len() - j,
        {
            proof {
                let c = self@.voice_ctrl_notes.subrange(0, j + 1);
                assert(c.drop_last() =~= self@.voice_ctrl_notes.subrange(0, j as int));
                if let Some(n) = self@.voice_ctrl_notes[j as int] {
                    assert(vp + ctrl_pitches(c) =~= (vp + ctrl_pitches(c.drop_last())).push(
                        (n, None::<u16>),
                    ));
                    lemma_truncated_push(vp + ctrl_pitches(c.drop_last()), (n, None::<u16>), limit as int);
                } else {
                    assert(ctrl_pitches(c) =~= ctrl_pitches(c.drop_last()));
                }
            }
            if let Some(n) = self.voice_ctrl_notes[j] {
                if result.len() < limit {
                    result.push((n, None));
                }
            }
            j = j + 1;
        }
        assert(self@.voice_ctrl_notes.subrange(0, self@.voice_ctrl_notes.len() as int)
            =~= self@.voice_ctrl_notes);
        result
    }

    /// Release a note. The drum channel ignores note offs (drums release
    /// themselves); control-channel notes stop steering the effects.
    pub fn note_off(&mut self, note: u8, channel: u8)
        requires
            old(self)@.wf(),
        ensures
            final(self)@ == old(self)@.after_note_off(note, channel),
            final(self)@.wf(),
    {
        if channel == VOICE_CTRL_CHANNEL {
            let ghost p = ctrl_holding(note);
            let mut i: usize = 0;
            while i < self.voice_ctrl_notes.len()
                invariant
                    0 <= i <= self.voice_ctrl_notes@.len(),
                    self@ == old(self)@,
                    self@.wf(),
                    channel == VOICE_CTRL_CHANNEL,
                    p == ctrl_holding(note),
                    first_match(self@.voice_ctrl_notes, 0, p) == first_match(
                        self@.voice_ctrl_notes,
                        i as int,
                        p,
                    ),
                decreases self.voice_ctrl_notes@.len() - i,
            {
                assert((self.voice_ctrl_notes[i as int] == Some(note)) == p(
                    self@.voice_ctrl_notes[i as int],
                ));
                if self.voice_ctrl_notes[i] == Some(note) {
                    self.voice_ctrl_notes.set(i, None);
                    return ;
                }
                i = i + 1;
            }
            return ;
        }
        if channel == DRUM_CHANNEL {
            return ;
        }
        let count = self.voices.len();
        assert(old(self)@.voices.len() == count);
        match self.find_voice(0, note, channel, VoiceTypeId::Synth) {
            Some(i) => {
                proof {
                    lemma_first_match_in_range(old(self)@.voices, 0, plays(note, channel));
                }
                assert(first_match(old(self)@.voices, 0, plays(note, channel)) == Some(i as int));
                self.voice_note_off(i);
                self.cached.set(i, None);
            },
            None => {},
        }
    }
}


/// A note on takes one voice, and that voice plays the note; notes on the
/// control channel never take a voice.
pub proof fn law_note_on_plays_note(m: ManagerModel, note: u8, velocity: u8, channel: u8)
    requires
        m.wf(),
    ensures
        channel != VOICE_CTRL_CHANNEL ==> ({
            let k = chosen_voice(m.voices, note, channel);
            &&& 0 <= k < m.voices.len()
            &&& m.after_note_on(note, velocity, channel).voices[k].playing(note, channel)
            &&& forall|j: int|
                0 <= j < m.voices.len() && j != k ==> m.after_note_on(
                    note,
                    velocity,
                    channel,
                ).voices[j] == m.voices[j]
        }),
        channel == VOICE_CTRL_CHANNEL ==> m.after_note_on(note, velocity, channel).voices
            == m.voices,
{
    lemma_chosen_in_range(m.voices, note, channel);
}

/// The chosen voice lies among the voices.
proof fn lemma_chosen_in_range(voices: Seq<VoiceModel>, note: u8, channel: u8)
    requires
        voices.len() >= 1,
    ensures
        0 <= chosen_voice(voices, note, channel) < voices.len(),
        first_match(voices, 0, plays(note, channel)) matches Some(i) ==> chosen_voice(
            voices,
            note,
            channel,
        ) == i,
{
    let needed = if channel == DRUM_CHANNEL {
        VoiceTypeId::Drum
    } else {
        VoiceTypeId::Synth
    };
    lemma_first_match_in_range(voices, 0, plays(note, channel));
    lemma_first_match_in_range(voices, 0, free_of_type(needed));
    lemma_first_match_in_range(voices, 0, free_voice());
}

/// A repeated note on retriggers the voice that already plays the note.
pub proof fn law_retrigger_reuses_voice(m: ManagerModel, i: int, note: u8, velocity: u8, channel: u8)
    requires
        m.wf(),
        m.unique_notes(),
        0 <= i < m.voices.len(),
        m.voices[i].playing(note, channel),
    ensures
        chosen_voice(m.voices, note, channel) == i,
{
    lemma_first_match_in_range(m.voices, 0, plays(note, channel));
    lemma_chosen_in_range(m.voices, note, channel);
    let k = first_match(m.voices, 0, plays(note, channel))->0;
    if k < i {
        assert(m.voices[k].note is Some);
    }
}

/// No two voices ever play the same note on the same channel: note on
/// keeps this.
pub proof fn law_note_on_keeps_notes_unique(m: ManagerModel, note: u8, velocity: u8, channel: u8)
    requires
        m.wf(),
        m.unique_notes(),
    ensures
        m.after_note_on(note, velocity, channel).unique_notes(),
{
    let a = m.after_note_on(note, velocity, channel);
    if channel != VOICE_CTRL_CHANNEL {
        lemma_chosen_in_range(m.voices, note, channel);
        lemma_first_match_in_range(m.voices, 0, plays(note, channel));
        let k = chosen_voice(m.voices, note, channel);
        assert forall|i: int, j: int|
            0 <= i < j < a.voices.len() && #[trigger] a.voices[i].note is Some implies !(
            #[trigger] a.voices[j]).playing(a.voices[i].note->0, a.voices[i].channel) by {
            if i == k {
                // no other voice plays the note: either it was found (and is k) or none did
                if a.voices[j].playing(note, channel) {
                    assert(m.voices[j].playing(note, channel));
                    assert(m.voices[j].note is Some);
                }
            } else if j == k {
                if a.voices[j].playing(m.voices[i].note->0, m.voices[i].channel) {
                    assert(m.voices[i].playing(note, channel));
                }
            } else {
                assert(a.voices[i] == m.voices[i]);
                assert(a.voices[j] == m.voices[j]);
            }
        }
    }
}

/// A note on followed by the matching note off leaves no voice playing the
/// note (the drum channel, which ignores note offs, aside).
pub proof fn law_note_off_undoes_note_on(m: ManagerModel, note: u8, velocity: u8, channel: u8)
    requires
        m.wf(),
        m.unique_notes(),
        channel != DRUM_CHANNEL,
    ensures
        ({
            let a = m.after_note_on(note, velocity, channel).after_note_off(note, channel);
            channel != VOICE_CTRL_CHANNEL ==> forall|j: int|
                0 <= j < a.voices.len() ==> !(#[trigger] a.voices[j]).playing(note, channel)
        }),
{
    if channel != VOICE_CTRL_CHANNEL {
        let on = m.after_note_on(note, velocity, channel);
        law_note_on_plays_note(m, note, velocity, channel);
        law_note_on_keeps_notes_unique(m, note, velocity, channel);
        let k = chosen_voice(m.voices, note, channel);
        lemma_first_match_in_range(on.voices, 0, plays(note, channel));
        let f = first_match(on.voices, 0, plays(note, channel));
        assert(f is Some) by {
            if f is None {
                assert(!plays(note, channel)(on.voices[k]));
            }
        }
        let a = on.after_note_off(note, channel);
        let h = f->0;
        assert forall|j: int| 0 <= j < a.voices.len() implies !(#[trigger] a.voices[j]).playing(
            note,
            channel,
        ) by {
            if j != h && a.voices[j].playing(note, channel) {
                assert(on.voices[j].playing(note, channel));
                assert(on.voices[h].playing(note, channel));
                if h < j {
                    assert(on.voices[h].note is Some);
                } else {
                    assert(on.voices[j].note is Some);
                }
            }
        }
    }
}

/// A control slot holding a note puts that note, unbent, among the
/// control-channel pitches.
proof fn lemma_ctrl_pitches_contains(c: Seq<Option<u8>>, i: int)
    requires
        0 <= i < c.len(),
        c[i] is Some,
    ensures
        ctrl_pitches(c).contains((c[i]->0, None::<u16>)),
    decreases c.len(),
{
    let s = ctrl_pitches(c);
    if i == c.len() - 1 {
        assert(s[s.len() - 1] == (c[i]->0, None::<u16>));
    } else {
        lemma_ctrl_pitches_contains(c.drop_last(), i);
        let w = ctrl_pitches(c.drop_last());
        let k = choose|k: int| 0 <= k < w.len() && w[k] == (c[i]->0, None::<u16>);
        assert(s[k] == w[k]);
    }
}

/// A control-channel note that finds a slot steers the vocal effects: its
/// pitch, unbent, joins the control-channel pitches, and so the effects
/// pitches unless that list is already cut at one pitch per voice.
pub proof fn law_control_note_reaches_effects(m: ManagerModel, note: u8, velocity: u8)
    requires
        m.wf(),
        first_match(m.voice_ctrl_notes, 0, ctrl_slot_for(note)) is Some,
    ensures
        ({
            let a = m.after_note_on(note, velocity, VOICE_CTRL_CHANNEL);
            &&& a.voices == m.voices
            &&& ctrl_pitches(a.voice_ctrl_notes).contains((note, None::<u16>))
            &&& (voice_pitches(a.cached) + ctrl_pitches(a.voice_ctrl_notes)).len()
                <= a.voices.len() ==> effects_pitches(
                a.cached,
                a.voice_ctrl_notes,
                a.voices.len() as int,
            ).contains((note, None::<u16>))
        }),
{
    let i = first_match(m.voice_ctrl_notes, 0, ctrl_slot_for(note))->0;
    lemma_first_match_in_range(m.voice_ctrl_notes, 0, ctrl_slot_for(note));
    let a = m.after_note_on(note, velocity, VOICE_CTRL_CHANNEL);
    assert(a.voice_ctrl_notes[i] == Some(note));
    lemma_ctrl_pitches_contains(a.voice_ctrl_notes, i);
    let vp = voice_pitches(a.cached);
    let cp = ctrl_pitches(a.voice_ctrl_notes);
    let k = choose|k: int| 0 <= k < cp.len() && cp[k] == (note, None::<u16>);
    assert((vp + cp)[vp.len() + k] == cp[k]);
}

/// "All notes off" for every channel frees every voice and forgets every
/// control-channel note and cached pitch.
pub proof fn law_all_notes_off_frees_everything(m: ManagerModel)
    requires
        m.wf(),
    ensures
        ({
            let a = m.after_all_notes_off(None);
            &&& a.wf()
            &&& forall|i: int| 0 <= i < a.voices.len() ==> (#[trigger] a.voices[i]).free()
            &&& forall|i: int| 0 <= i < a.cached.len() ==> (#[trigger] a.cached[i]) is None
            &&& forall|i: int|
                0 <= i < a.voice_ctrl_notes.len() ==> (#[trigger] a.voice_ctrl_notes[i]) is None
        }),
{
}

} // verus!
