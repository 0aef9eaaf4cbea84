//! Direct sample playback: a player that steps through one sample from start
//! to finish (or round and round), and a keymap that assigns a sample to each
//! MIDI key. Both are generic in the sample type; the audio path scales the
//! samples by the player's volume.

use vstd::prelude::*;

verus! {

/// The abstract state of a [`SamplePlayer`].
pub struct PlayerModel<S> {
    pub sample: Option<Seq<S>>,
    pub position: usize,
    pub playing: bool,
    pub looping: bool,
}

impl<S> PlayerModel<S> {
    /// Producing the next sample cannot index an empty sample: a looping
    /// player restarts at position 0, which an empty sample lacks.
    pub open spec fn can_step(self) -> bool {
        match self.sample {
            Some(d) => self.playing && self.looping ==> d.len() > 0,
            None => true,
        }
    }

    /// The player after producing one sample, and that sample: nothing
    /// while stopped or without a sample; past the end a looping player
    /// starts over and any other player stops.
    pub open spec fn step(self) -> (PlayerModel<S>, Option<S>) {
        if !self.playing {
            (self, None)
        } else {
            match self.sample {
                None => (self, None),
                Some(d) => {
                    if self.position >= d.len() && !self.looping {
                        (PlayerModel { playing: false, ..self }, None)
                    } else {
                        let pos = if self.position >= d.len() {
                            0
                        } else {
                            self.position
                        };
                        (PlayerModel { position: (pos + 1) as usize, ..self }, Some(d[pos as int]))
                    }
                },
            }
        }
    }
}

/// Plays one sample from start to finish, or in a loop.
pub struct SamplePlayer<S: 'static> {
    sample_data: Option<&'static [S]>,
    playback_position: usize,
    is_playing: bool,
    loop_enabled: bool,
}

impl<S: 'static> View for SamplePlayer<S> {
    type V = PlayerModel<S>;

    closed spec fn view(&self) -> PlayerModel<S> {
        PlayerModel {
            sample: match self.sample_data {
                Some(d) => Some(d@),
                None => None,
            },
            position: self.playback_position,
            playing: self.is_playing,
            looping: self.loop_enabled,
        }
    }
}

impl<S: Copy + 'static> SamplePlayer<S> {
    /// A stopped player without a sample.
    pub fn new() -> (p: Self)
        ensures
            p@.sample is None,
            p@.position == 0,
            !p@.playing,
            !p@.looping,
    {
        Self { sample_data: None, playback_position: 0, is_playing: false, loop_enabled: false }
    }

    /// Assign the sample to play.
    pub fn set_sample(&mut self, data: &'static [S])
        ensures
            final(self)@ == (PlayerModel { sample: Some(data@), ..old(self)@ }),
    {
        self.sample_data = Some(data);
    }

    /// Enable or disable looping.
    pub fn set_loop(&mut self, enabled: bool)
        ensures
            final(self)@ == (PlayerModel { looping: enabled, ..old(self)@ }),
    {
        self.loop_enabled = enabled;
    }

    /// Start playback from the beginning; without a sample nothing happens.
    pub fn trigger(&mut self)
        ensures
            final(self)@ == (if old(self)@.sample is Some {
                PlayerModel { position: 0, playing: true, ..old(self)@ }
            } else {
                old(self)@
            }),
    {
        if self.sample_data.is_some() {
            self.playback_position = 0;
            self.is_playing = true;
        }
    }

    /// Stop playback and rewind.
    pub fn stop(&mut self)
        ensures
            final(self)@ == (PlayerModel { position: 0, playing: false, ..old(self)@ }),
    {
        self.is_playing = false;
        self.playback_position = 0;
    }

    /// The player is playing.
    pub fn is_playing(&self) -> (b: bool)
        ensures
            b == self@.playing,
    {
        self.is_playing
    }

    /// The next sample can be produced: a looping player that plays has a
    /// sample that is not empty.
    pub fn can_step(&self) -> (b: bool)
        ensures
            b == self@.can_step(),
    {
        match self.sample_data {
            Some(d) => !(self.is_playing && self.loop_enabled) || d.len() > 0,
            None => true,
        }
    }

    /// The next sample, if the player is playing.
    pub fn next_sample(&mut self) -> (s: Option<S>)
        requires
            old(self)@.can_step(),
        ensures
            (final(self)@, s) == old(self)@.step(),
    {
        if !self.is_playing {
            return None;
        }
        let data = match self.sample_data {
            Some(d) => d,
            None => {
                return None;
            },
        };
        if self.playback_position >= data.len() {
            if self.loop_enabled {
                self.playback_position = 0;
            } else {
                self.is_playing = false;
                return None;
            }
        }
        let sample = data[self.playback_position];
        self.playback_position = self.playback_position + 1;
        Some(sample)
    }
}

impl<S: Copy + 'static> Default for SamplePlayer<S> {
    fn default() -> (p: Self)
        ensures
            p@.sample is None,
            p@.position == 0,
            !p@.playing,
            !p@.looping,
    {
        Self::new()
    }
}

/// The number of MIDI keys.
pub const KEY_COUNT: usize = 128;

/// Assigns a sample, and whether it loops, to each MIDI key.
pub struct Keymap<S: Copy> {
    entries: [(Option<S>, bool); 128],
}

impl<S: Copy> View for Keymap<S> {
    type V = Seq<(Option<S>, bool)>;

    closed spec fn view(&self) -> Seq<(Option<S>, bool)> {
        self.entries@
    }
}

/// The assignment of key `midi_note` in `entries`: the sample and whether
/// it loops, for an assigned key below 128.
pub open spec fn assignment<S>(entries: Seq<(Option<S>, bool)>, midi_note: u8) -> Option<(S, bool)> {
    if midi_note < KEY_COUNT {
        match entries[midi_note as int].0 {
            Some(s) => Some((s, entries[midi_note as int].1)),
            None => None,
        }
    } else {
        None
    }
}

impl<S: Copy> Keymap<S> {
    /// A keymap with no key assigned.
    pub fn new() -> (k: Self)
        ensures
            k@.len() == KEY_COUNT,
            forall|n: u8| #[trigger] assignment(k@, n) is None,
    {
        let k = Self { entries: [(None, false); 128] };
        assert forall|n: u8| #[trigger] assignment(k@, n) is None by {
            if n < KEY_COUNT {
                assert(k@[n as int] == (None::<S>, false));
            }
        }
        k
    }

    /// Assign `sample` to key `midi_note`; keys from 128 up are ignored.
    pub fn set_key(&mut self, midi_note: u8, sample: S, loop_enabled: bool)
        ensures
            final(self)@ == (if midi_note < KEY_COUNT {
                old(self)@.update(midi_note as int, (Some(sample), loop_enabled))
            } else {
                old(self)@
            }),
    {
        if (midi_note as usize) < KEY_COUNT {
            self.entries[midi_note as usize] = (Some(sample), loop_enabled);
        }
    }

    /// Remove the assignment of key `midi_note`.
    pub fn clear_key(&mut self, midi_note: u8)
        ensures
            final(self)@ == (if midi_note < KEY_COUNT {
                old(self)@.update(midi_note as int, (None, false))
            } else {
                old(self)@
            }),
    {
        if (midi_note as usize) < KEY_COUNT {
            self.entries[midi_note as usize] = (None, false);
        }
    }

    /// The sample assigned to key `midi_note` and whether it loops.
    pub fn get_key(&self, midi_note: u8) -> (r: Option<(S, bool)>)
        ensures
            r == assignment(self@, midi_note),
    {
        if (midi_note as usize) < KEY_COUNT {
            let (sample, loop_enabled) = self.entries[midi_note as usize];
            match sample {
                Some(s) => Some((s, loop_enabled)),
                None => None,
            }
        } else {
            None
        }
    }

    /// Key `midi_note` has a sample.
    pub fn has_key(&self, midi_note: u8) -> (b: bool)
        ensures
            b == assignment(self@, midi_note) is Some,
    {
        if (midi_note as usize) < KEY_COUNT {
            self.entries[midi_note as usize].0.is_some()
        } else {
            false
        }
    }
}

impl<S: Copy> Default for Keymap<S> {
    fn default() -> (k: Self)
        ensures
            k@.len() == KEY_COUNT,
            forall|n: u8| #[trigger] assignment(k@, n) is None,
    {
        Self::new()
    }
}

/// Reading a key gives back what was last assigned to it, and assigning one
/// key leaves every other key as it was.
pub proof fn law_keymap_read_after_write<S>(
    entries: Seq<(Option<S>, bool)>,
    key: u8,
    other: u8,
    sample: S,
    loop_enabled: bool,
)
    requires
        entries.len() == KEY_COUNT,
        key < KEY_COUNT,
        other != key,
    ensures
        assignment(entries.update(key as int, (Some(sample), loop_enabled)), key) == Some(
            (sample, loop_enabled),
        ),
        assignment(entries.update(key as int, (Some(sample), loop_enabled)), other) == assignment(
            entries,
            other,
        ),
        assignment(entries.update(key as int, (None, false)), key) is None,
        assignment(entries.update(key as int, (None, false)), other) == assignment(
            entries,
            other,
        ),
{
}

/// A player that does not loop plays each sample of its sample once, in
/// order, and then stops.
pub proof fn law_one_shot_plays_sample_once<S>(m: PlayerModel<S>, d: Seq<S>, k: nat)
    requires
        m.sample == Some(d),
        m.playing,
        !m.looping,
        m.position == 0,
        k <= d.len(),
        d.len() < usize::MAX,
    ensures
        play_from(m, k).0 == (PlayerModel { position: k as usize, ..m }),
        play_from(m, k).1.len() == k,
        forall|i: int| 0 <= i < k ==> #[trigger] play_from(m, k).1[i] == Some(d[i]),
        k == d.len() ==> play_from(m, k + 1).1.last() is None && !play_from(m, k + 1).0.playing,
    decreases k,
{
    if k > 0 {
        law_one_shot_plays_sample_once(m, d, (k - 1) as nat);
        let (p, out) = play_from(m, (k - 1) as nat);
        assert(play_from(m, k).1 == out.push(p.step().1));
        assert(p.step().1 == Some(d[k - 1]));
    }
}

/// A looping player with a sample never stops: every step produces a
/// sample and leaves it playing.
pub proof fn law_looping_player_never_stops<S>(m: PlayerModel<S>)
    requires
        m.playing,
        m.looping,
        m.sample is Some,
        m.can_step(),
        m.position <= m.sample->0.len(),
    ensures
        m.step().0.playing,
        m.step().0.can_step(),
        m.step().0.position <= m.sample->0.len(),
        m.step().1 is Some,
{
}

/// The player after `k` steps from `m`, and the samples it produced.
pub open spec fn play_from<S>(m: PlayerModel<S>, k: nat) -> (PlayerModel<S>, Seq<Option<S>>)
    decreases k,
{
    if k == 0 {
        (m, Seq::empty())
    } else {
        let (p, out) = play_from(m, (k - 1) as nat);
        (p.step().0, out.push(p.step().1))
    }
}

} // verus!
