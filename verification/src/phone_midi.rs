//! The phone's MIDI input: a parser for note on and note off messages, and
//! the note names and octaves that the MIDI log shows.

use vstd::prelude::*;

verus! {

/// A parsed MIDI message.
#[derive(Debug, Clone, Copy, PartialEq, Eq, Structural)]
pub enum MidiMessage {
    NoteOn { channel: u8, note: u8, velocity: u8 },
    NoteOff { channel: u8, note: u8, velocity: u8 },
    Unknown,
}

/// The bytes of the message being collected, in arrival order.
pub uninterp spec fn collected_bytes(v: heapless::Vec<u8, 3>) -> Seq<u8>;

/// `heapless::Vec::new`: an empty vector.
#[verifier::external_body]
fn bytes_new() -> (v: heapless::Vec<u8, 3>)
    ensures
        collected_bytes(v) == Seq::<u8>::empty(),
{
    heapless::Vec::new()
}

/// `heapless::Vec::clear`: removes every byte.
#[verifier::external_body]
fn bytes_clear(v: &mut heapless::Vec<u8, 3>)
    ensures
        collected_bytes(*final(v)) == Seq::<u8>::empty(),
{
    v.clear()
}

/// `heapless::Vec::push`: appends while fewer than `N` bytes are held, and
/// otherwise hands the byte back leaving the vector as it was.
#[verifier::external_body]
fn bytes_push(v: &mut heapless::Vec<u8, 3>, b: u8) -> (r: Result<(), u8>)
    ensures
        collected_bytes(*old(v)).len() < 3 ==> r is Ok && collected_bytes(*final(v))
            == collected_bytes(*old(v)).push(b),
        collected_bytes(*old(v)).len() >= 3 ==> (r matches Err(x) && x == b) && collected_bytes(
            *final(v),
        ) == collected_bytes(*old(v)),
{
    v.push(b)
}

/// `heapless::Vec::as_slice`: the held bytes as a slice.
#[verifier::external_body]
fn bytes_as_slice(v: &heapless::Vec<u8, 3>) -> (s: &[u8])
    ensures
        s@ == collected_bytes(*v),
{
    v.as_slice()
}

/// The message in three collected bytes: note on (a note on of velocity 0
/// is a note off), note off, or unknown.
pub open spec fn decode_message(status: u8, note: u8, velocity: u8) -> MidiMessage {
    let channel = status & 0x0Fu8;
    let kind = status & 0xF0u8;
    if kind == 0x90 {
        if velocity > 0 {
            MidiMessage::NoteOn { channel, note, velocity }
        } else {
            MidiMessage::NoteOff { channel, note, velocity }
        }
    } else if kind == 0x80 {
        MidiMessage::NoteOff { channel, note, velocity }
    } else {
        MidiMessage::Unknown
    }
}

/// The abstract state of a [`MidiParser`]: the collected bytes and the
/// length of the message being collected (0 for one it does not handle).
pub struct PhoneParserModel {
    pub bytes: Seq<u8>,
    pub expected: usize,
}

/// The length of a message with status byte `status`: three bytes for note
/// off and note on, 0 for anything else.
pub open spec fn message_len(status: u8) -> usize {
    let kind = status & 0xF0u8;
    if kind == 0x80 || kind == 0x90 {
        3
    } else {
        0
    }
}

impl PhoneParserModel {
    /// The parser after a message is complete: the message, and the parser
    /// emptied; fewer than three bytes make no message.
    pub open spec fn completed(self) -> (PhoneParserModel, Option<MidiMessage>) {
        if self.bytes.len() < 3 {
            (self, None)
        } else {
            (
                PhoneParserModel { bytes: Seq::empty(), expected: 0 },
                Some(decode_message(self.bytes[0], self.bytes[1], self.bytes[2])),
            )
        }
    }

    /// The parser after receiving `byte`, and the message it completes. A
    /// status byte starts a new message; a data byte joins the message being
    /// collected, if any, while it is short of its length.
    pub open spec fn step(self, byte: u8) -> (PhoneParserModel, Option<MidiMessage>) {
        if byte & 0x80u8 != 0 {
            (PhoneParserModel { bytes: seq![byte], expected: message_len(byte) }, None)
        } else if self.bytes.len() > 0 && self.bytes.len() < self.expected {
            if self.bytes.len() >= 3 {
                (self, None)
            } else {
                let next = PhoneParserModel { bytes: self.bytes.push(byte), ..self };
                if next.bytes.len() == self.expected {
                    next.completed()
                } else {
                    (next, None)
                }
            }
        } else {
            (self, None)
        }
    }
}

/// A parser for the note messages of a MIDI byte stream.
pub struct MidiParser {
    buffer: heapless::Vec<u8, 3>,
    expected_bytes: usize,
}

impl View for MidiParser {
    type V = PhoneParserModel;

    closed spec fn view(&self) -> PhoneParserModel {
        PhoneParserModel { bytes: collected_bytes(self.buffer), expected: self.expected_bytes }
    }
}

impl MidiParser {
    /// A parser waiting for a status byte.
    pub fn new() -> (p: Self)
        ensures
            p@.bytes == Seq::<u8>::empty(),
            p@.expected == 0,
    {
        Self { buffer: bytes_new(), expected_bytes: 0 }
    }

    /// Feed one received byte; returns the message it completes, if any.
    pub fn process_byte(&mut self, byte: u8) -> (r: Option<MidiMessage>)
        ensures
            (final(self)@, r) == old(self)@.step(byte),
    {
        if byte & 0x80 != 0 {
            bytes_clear(&mut self.buffer);
            if bytes_push(&mut self.buffer, byte).is_err() {
                return None;
            }
            let status = byte & 0xF0;
            self.expected_bytes = match status {
                0x80 | 0x90 => 3,
                _ => 0,
            };
            assert(collected_bytes(self.buffer) =~= seq![byte]);
            return None;
        }
        let len = bytes_as_slice(&self.buffer).len();
        if len > 0 && len < self.expected_bytes {
            if bytes_push(&mut self.buffer, byte).is_err() {
                return None;
            }
            if bytes_as_slice(&self.buffer).len() == self.expected_bytes {
                return self.parse_complete_message();
            }
        }
        None
    }

    /// The message in the collected bytes, emptying the parser.
    fn parse_complete_message(&mut self) -> (r: Option<MidiMessage>)
        ensures
            (final(self)@, r) == old(self)@.completed(),
    {
        let bytes = bytes_as_slice(&self.buffer);
        if bytes.len() < 3 {
            return None;
        }
        let status = bytes[0];
        let channel = status & 0x0F;
        let message_type = status & 0xF0;
        let note = bytes[1];
        let velocity = bytes[2];
        let message = match message_type {
            0x90 => {
                if velocity > 0 {
                    MidiMessage::NoteOn { channel, note, velocity }
                } else {
                    MidiMessage::NoteOff { channel, note, velocity }
                }
            },
            0x80 => MidiMessage::NoteOff { channel, note, velocity },
            _ => MidiMessage::Unknown,
        };
        bytes_clear(&mut self.buffer);
        self.expected_bytes = 0;
        Some(message)
    }
}

/// The name of pitch class `pc` (0 is C).
pub open spec fn note_name(pc: int) -> Seq<char> {
    if pc == 0 {
        "C"@
    } else if pc == 1 {
        "C#"@
    } else if pc == 2 {
        "D"@
    } else if pc == 3 {
        "D#"@
    } else if pc == 4 {
        "E"@
    } else if pc == 5 {
        "F"@
    } else if pc == 6 {
        "F#"@
    } else if pc == 7 {
        "G"@
    } else if pc == 8 {
        "G#"@
    } else if pc == 9 {
        "A"@
    } else if pc == 10 {
        "A#"@
    } else {
        "B"@
    }
}

/// The note name of MIDI note `note`, without its octave.
pub fn note_to_name(note: u8) -> (name: &'static str)
    ensures
        name@ == note_name((note % 12) as int),
{
    match note % 12 {
        0 => "C",
        1 => "C#",
        2 => "D",
        3 => "D#",
        4 => "E",
        5 => "F",
        6 => "F#",
        7 => "G",
        8 => "G#",
        9 => "A",
        10 => "A#",
        _ => "B",
    }
}

/// The octave of MIDI note `note` (note 60 is C4).
pub fn note_to_octave(note: u8) -> (octave: i8)
    ensures
        octave == note / 12 - 1,
{
    (note / 12) as i8 - 1
}

/// What the MIDI log shows of a note message: whether it is a note on, the
/// note's name and octave, the channel counted from 1, the note number and
/// the velocity.
#[derive(Debug, Clone, Copy, PartialEq, Eq)]
pub struct MidiLogEntry {
    pub note_on: bool,
    pub note_name: &'static str,
    pub octave: i8,
    pub channel_number: u8,
    pub note: u8,
    pub velocity: u8,
}

/// The channel of a note message can be counted from 1 in a byte.
pub open spec fn loggable(message: MidiMessage) -> bool {
    match message {
        MidiMessage::NoteOn { channel, .. } => channel < 255,
        MidiMessage::NoteOff { channel, .. } => channel < 255,
        MidiMessage::Unknown => true,
    }
}

/// The log entry of a message; an unknown message is logged without details.
pub fn describe_midi_message(message: MidiMessage) -> (entry: Option<MidiLogEntry>)
    requires
        loggable(message),
    ensures
        match message {
            MidiMessage::NoteOn { channel, note, velocity } => entry matches Some(e) && e.note_on
                && e.note_name@ == note_name((note % 12) as int) && e.octave == note / 12 - 1
                && e.channel_number == channel + 1 && e.note == note && e.velocity == velocity,
            MidiMessage::NoteOff { channel, note, velocity } => entry matches Some(e) && !e.note_on
                && e.note_name@ == note_name((note % 12) as int) && e.octave == note / 12 - 1
                && e.channel_number == channel + 1 && e.note == note && e.velocity == velocity,
            MidiMessage::Unknown => entry is None,
        },
{
    match message {
        MidiMessage::NoteOn { channel, note, velocity } => Some(
            MidiLogEntry {
                note_on: true,
                note_name: note_to_name(note),
                octave: note_to_octave(note),
                channel_number: channel + 1,
                note,
                velocity,
            },
        ),
        MidiMessage::NoteOff { channel, note, velocity } => Some(
            MidiLogEntry {
                note_on: false,
                note_name: note_to_name(note),
                octave: note_to_octave(note),
                channel_number: channel + 1,
                note,
                velocity,
            },
        ),
        MidiMessage::Unknown => None,
    }
}

/// A complete note message is decoded whatever the parser held before: its
/// status byte and first data byte give nothing, its second data byte gives
/// the message, and the parser is left empty.
pub proof fn law_note_message_decoded(m: PhoneParserModel, status: u8, note: u8, velocity: u8)
    requires
        status & 0xF0u8 == 0x80 || status & 0xF0u8 == 0x90,
        note < 0x80,
        velocity < 0x80,
    ensures
        ({
            let (m1, r1) = m.step(status);
            let (m2, r2) = m1.step(note);
            let (m3, r3) = m2.step(velocity);
            &&& r1 is None
            &&& r2 is None
            &&& r3 == Some(decode_message(status, note, velocity))
            &&& m3.bytes.len() == 0
            &&& m3.expected == 0
        }),
{
    assert(status & 0x80u8 != 0) by (bit_vector)
        requires
            status & 0xF0u8 == 0x80 || status & 0xF0u8 == 0x90,
    ;
    assert(note & 0x80u8 == 0) by (bit_vector)
        requires
            note < 0x80,
    ;
    assert(velocity & 0x80u8 == 0) by (bit_vector)
        requires
            velocity < 0x80,
    ;
    let (m1, r1) = m.step(status);
    assert(m1.bytes =~= seq![status]);
    let (m2, r2) = m1.step(note);
    assert(m2.bytes =~= seq![status, note]);
}

/// After a status byte of a message the parser does not handle, data bytes
/// give nothing until the next status byte.
pub proof fn law_unhandled_messages_are_skipped(m: PhoneParserModel, status: u8, data: u8)
    requires
        status & 0x80u8 != 0,
        status & 0xF0u8 != 0x80 && status & 0xF0u8 != 0x90,
        data < 0x80,
    ensures
        ({
            let (m1, _) = m.step(status);
            let (m2, r2) = m1.step(data);
            &&& r2 is None
            &&& m2 == m1
        }),
{
    assert(data & 0x80u8 == 0) by (bit_vector)
        requires
            data < 0x80,
    ;
}

} // verus!
