//! MIDI input: a byte-at-a-time parser for the serial MIDI stream (with
//! running status and transparent real-time bytes) and the event queue
//! between the serial interrupt and the audio task.

use vstd::prelude::*;

verus! {

/// A decoded MIDI message.
#[derive(Debug, Clone, Copy, PartialEq, Eq, Structural)]
#[allow(inconsistent_fields)]
pub enum MidiEvent {
    NoteOn { channel: u8, key: u8, velocity: u8 },
    NoteOff { channel: u8, key: u8, velocity: u8 },
    ControlChange { channel: u8, controller: u8, value: u8 },
    PitchBend { channel: u8, value: u16 },
    ProgramChange { channel: u8, program: u8 },
    Other,
}

/// Whether the parser waits for a status byte or collects data bytes.
#[derive(Debug, Clone, Copy, PartialEq, Eq, Structural)]
pub enum MidiParserState {
    WaitingForStatus,
    CollectingData,
}

/// The abstract state of a [`MidiReceiver`].
pub struct ParserModel {
    pub state: MidiParserState,
    pub status_byte: u8,
    pub data0: u8,
    pub data1: u8,
    pub data_count: usize,
    pub expected_data_bytes: usize,
}

/// Number of data bytes a channel message with status `status` carries, if
/// the parser handles it: two for note off/on, aftertouch, control change and
/// pitch bend; one for program change and channel pressure.
pub open spec fn data_len(status: u8) -> Option<usize> {
    let kind = status & 0xF0u8;
    if kind == 0x80 || kind == 0x90 || kind == 0xA0 || kind == 0xB0 || kind == 0xE0 {
        Some(2)
    } else if kind == 0xC0 || kind == 0xD0 {
        Some(1)
    } else {
        None
    }
}

/// The message a status byte and its data bytes stand for.
pub open spec fn decode(status: u8, data0: u8, data1: u8) -> MidiEvent {
    let channel = status & 0x0Fu8;
    let kind = status & 0xF0u8;
    if kind == 0x90 {
        if data1 == 0 {
            MidiEvent::NoteOff { channel, key: data0, velocity: data1 }
        } else {
            MidiEvent::NoteOn { channel, key: data0, velocity: data1 }
        }
    } else if kind == 0x80 {
        MidiEvent::NoteOff { channel, key: data0, velocity: data1 }
    } else if kind == 0xB0 {
        MidiEvent::ControlChange { channel, controller: data0, value: data1 }
    } else if kind == 0xE0 {
        MidiEvent::PitchBend { channel, value: ((data1 as u16) << 7u16) | (data0 as u16) }
    } else if kind == 0xC0 {
        MidiEvent::ProgramChange { channel, program: data0 }
    } else {
        MidiEvent::Other
    }
}

/// The parser as it starts, and as it is left after a serial error.
pub open spec fn idle_parser() -> ParserModel {
    ParserModel {
        state: MidiParserState::WaitingForStatus,
        status_byte: 0,
        data0: 0,
        data1: 0,
        data_count: 0,
        expected_data_bytes: 0,
    }
}

impl ParserModel {
    /// The invariant: at most two data bytes are expected, and no more than
    /// that have been collected.
    pub open spec fn wf(self) -> bool {
        self.expected_data_bytes <= 2 && self.data_count <= 2
    }

    /// The message made of the stored status and data bytes.
    pub open spec fn event(self) -> MidiEvent {
        decode(self.status_byte, self.data0, self.data1)
    }

    /// The parser after a new status byte (below the real-time range):
    /// the status is stored and the data count reset; a known message kind
    /// also sets how many data bytes follow.
    pub open spec fn on_status(self, byte: u8) -> (ParserModel, Option<MidiEvent>) {
        let m = ParserModel { status_byte: byte, data_count: 0, ..self };
        match data_len(byte) {
            Some(n) => (
                ParserModel {
                    expected_data_bytes: n,
                    state: MidiParserState::CollectingData,
                    ..m
                },
                None,
            ),
            None => (m, Some(MidiEvent::Other)),
        }
    }

    /// The parser and its output after receiving `byte`.
    pub open spec fn step(self, byte: u8) -> (ParserModel, Option<MidiEvent>) {
        if byte >= 0xF8 {
            // real-time bytes pass through without touching the parser
            (self, Some(MidiEvent::Other))
        } else if byte & 0x80u8 != 0 {
            self.on_status(byte)
        } else {
            match self.state {
                MidiParserState::WaitingForStatus => {
                    if self.status_byte != 0 && self.status_byte < 0xF0
                        && self.expected_data_bytes > 0 {
                        // running status: the previous status byte applies again
                        let m = ParserModel { data0: byte, data_count: 1, ..self };
                        if self.expected_data_bytes == 1 {
                            (m, Some(m.event()))
                        } else {
                            (ParserModel { state: MidiParserState::CollectingData, ..m }, None)
                        }
                    } else {
                        (self, None)
                    }
                },
                MidiParserState::CollectingData => {
                    if self.data_count < self.expected_data_bytes && self.data_count < 2 {
                        let m = if self.data_count == 0 {
                            ParserModel { data0: byte, data_count: 1, ..self }
                        } else {
                            ParserModel { data1: byte, data_count: 2, ..self }
                        };
                        if m.data_count >= m.expected_data_bytes {
                            (
                                ParserModel { state: MidiParserState::WaitingForStatus, ..m },
                                Some(m.event()),
                            )
                        } else {
                            (m, None)
                        }
                    } else {
                        (ParserModel { state: MidiParserState::WaitingForStatus, ..self }, None)
                    }
                },
            }
        }
    }
}

/// The number of data bytes that follow `status`, when the parser knows
/// the message kind.
fn expected_for(status: u8) -> (r: Option<usize>)
    ensures
        r == data_len(status),
{
    match status & 0xF0 {
        0x80 | 0x90 | 0xA0 | 0xB0 | 0xE0 => Some(2),
        0xC0 | 0xD0 => Some(1),
        _ => None,
    }
}

/// Parser for the serial MIDI input, fed one byte at a time.
pub struct MidiReceiver {
    state: MidiParserState,
    status_byte: u8,
    data_bytes: [u8; 2],
    data_count: usize,
    expected_data_bytes: usize,
}

impl View for MidiReceiver {
    type V = ParserModel;

    closed spec fn view(&self) -> ParserModel {
        ParserModel {
            state: self.state,
            status_byte: self.status_byte,
            data0: self.data_bytes@[0],
            data1: self.data_bytes@[1],
            data_count: self.data_count,
            expected_data_bytes: self.expected_data_bytes,
        }
    }
}

impl MidiReceiver {
    /// A parser waiting for its first status byte.
    pub fn new() -> (r: Self)
        ensures
            r@ == idle_parser(),
    {
        Self {
            state: MidiParserState::WaitingForStatus,
            status_byte: 0,
            data_bytes: [0, 0],
            data_count: 0,
            expected_data_bytes: 0,
        }
    }

    /// Forget any partial message and the running status, as after a serial
    /// error (framing, noise, overrun: typically a device unplugged).
    pub fn reset(&mut self)
        ensures
            final(self)@ == idle_parser(),
    {
        self.state = MidiParserState::WaitingForStatus;
        self.status_byte = 0;
        self.data_count = 0;
        self.expected_data_bytes = 0;
        self.data_bytes = [0, 0];
    }

    /// Feed one received byte; returns the message it completes, if any.
    /// Real-time bytes (0xF8 and up) come back as `Other` and leave the
    /// message being collected untouched.
    pub fn receive_byte(&mut self, byte: u8) -> (r: Option<MidiEvent>)
        requires
            old(self)@.wf(),
        ensures
            (final(self)@, r) == old(self)@.step(byte),
            final(self)@.wf(),
    {
        if byte >= 0xF8 {
            return Some(MidiEvent::Other);
        }
        if byte & 0x80 != 0 {
            self.status_byte = byte;
            self.data_count = 0;
            match expected_for(byte) {
                Some(n) => {
                    self.expected_data_bytes = n;
                    self.state = MidiParserState::CollectingData;
                    return None;
                },
                None => {
                    return Some(MidiEvent::Other);
                },
            }
        }
        match self.state {
            MidiParserState::WaitingForStatus => {
                if self.status_byte != 0 && self.status_byte < 0xF0
                    && self.expected_data_bytes > 0 {
                    self.data_bytes[0] = byte;
                    self.data_count = 1;
                    if self.expected_data_bytes == 1 {
                        return Some(self.create_midi_event());
                    } else {
                        self.state = MidiParserState::CollectingData;
                    }
                }
                None
            },
            MidiParserState::CollectingData => {
                if self.data_count < self.expected_data_bytes && self.data_count < 2 {
                    self.data_bytes[self.data_count] = byte;
                    self.data_count = self.data_count + 1;
                    if self.data_count >= self.expected_data_bytes {
                        let event = self.create_midi_event();
                        self.state = MidiParserState::WaitingForStatus;
                        return Some(event);
                    }
                } else {
                    self.state = MidiParserState::WaitingForStatus;
                }
                None
            },
        }
    }

    /// The message made of the stored status and data bytes.
    fn create_midi_event(&self) -> (e: MidiEvent)
        ensures
            e == self@.event(),
    {
        let channel = self.status_byte & 0x0F;
        let message_type = self.status_byte & 0xF0;
        match message_type {
            0x90 => {
                let key = self.data_bytes[0];
                let velocity = self.data_bytes[1];
                if velocity == 0 {
                    MidiEvent::NoteOff { channel, key, velocity }
                } else {
                    MidiEvent::NoteOn { channel, key, velocity }
                }
            },
            0x80 => MidiEvent::NoteOff {
                channel,
                key: self.data_bytes[0],
                velocity: self.data_bytes[1],
            },
            0xB0 => MidiEvent::ControlChange {
                channel,
                controller: self.data_bytes[0],
                value: self.data_bytes[1],
            },
            0xE0 => {
                let lsb = self.data_bytes[0] as u16;
                let msb = self.data_bytes[1] as u16;
                let value = (msb << 7) | lsb;
                MidiEvent::PitchBend { channel, value }
            },
            0xC0 => MidiEvent::ProgramChange { channel, program: self.data_bytes[0] },
            _ => MidiEvent::Other,
        }
    }
}

impl MidiEvent {
    /// Note on and note off are note events.
    pub fn is_note_event(&self) -> (b: bool)
        ensures
            b == (*self is NoteOn || *self is NoteOff),
    {
        match self {
            MidiEvent::NoteOn { .. } | MidiEvent::NoteOff { .. } => true,
            _ => false,
        }
    }

    /// The channel of a channel message.
    pub fn get_channel(&self) -> (c: Option<u8>)
        ensures
            c == (match *self {
                MidiEvent::NoteOn { channel, .. } => Some(channel),
                MidiEvent::NoteOff { channel, .. } => Some(channel),
                MidiEvent::ControlChange { channel, .. } => Some(channel),
                MidiEvent::PitchBend { channel, .. } => Some(channel),
                MidiEvent::ProgramChange { channel, .. } => Some(channel),
                MidiEvent::Other => None,
            }),
    {
        match self {
            MidiEvent::NoteOn { channel, .. }
            | MidiEvent::NoteOff { channel, .. }
            | MidiEvent::ControlChange { channel, .. }
            | MidiEvent::PitchBend { channel, .. }
            | MidiEvent::ProgramChange { channel, .. } => Some(*channel),
            MidiEvent::Other => None,
        }
    }
}


/// Bit facts about status and data bytes.
proof fn lemma_byte_classes(b: u8)
    ensures
        (b & 0x80u8 != 0) == (b >= 0x80),
        b < 0x80 ==> b < 0xF8,
{
    assert((b & 0x80u8 != 0) == (b >= 0x80)) by (bit_vector);
}

/// A complete message with two data bytes is decoded whatever state the
/// parser was in: the status byte and first data byte yield nothing, the
/// second data byte yields the message, and the status is kept for running
/// status.
pub proof fn law_two_data_byte_message_decoded(m: ParserModel, status: u8, d0: u8, d1: u8)
    requires
        m.wf(),
        0x80 <= status < 0xF8,
        data_len(status) == Some(2usize),
        d0 < 0x80,
        d1 < 0x80,
    ensures
        ({
            let (m1, o1) = m.step(status);
            let (m2, o2) = m1.step(d0);
            let (m3, o3) = m2.step(d1);
            &&& o1 is None
            &&& o2 is None
            &&& o3 == Some(decode(status, d0, d1))
            &&& m3.state == MidiParserState::WaitingForStatus
            &&& m3.status_byte == status
            &&& m3.expected_data_bytes == 2
            &&& m3.wf()
        }),
{
    lemma_byte_classes(status);
    lemma_byte_classes(d0);
    lemma_byte_classes(d1);
}

/// A complete message with one data byte (program change, channel
/// pressure) is decoded whatever state the parser was in.
pub proof fn law_one_data_byte_message_decoded(m: ParserModel, status: u8, d0: u8)
    requires
        m.wf(),
        0x80 <= status < 0xF8,
        data_len(status) == Some(1usize),
        d0 < 0x80,
    ensures
        ({
            let (m1, o1) = m.step(status);
            let (m2, o2) = m1.step(d0);
            &&& o1 is None
            &&& o2 == Some(decode(status, d0, m.data1))
            &&& m2.state == MidiParserState::WaitingForStatus
            &&& m2.status_byte == status
            &&& m2.expected_data_bytes == 1
        }),
{
    lemma_byte_classes(status);
    lemma_byte_classes(d0);
}

/// Running status: once a channel message has been completed, its data
/// bytes alone, without a repeated status byte, make another message of the
/// same kind on the same channel.
pub proof fn law_running_status(m: ParserModel, d0: u8, d1: u8)
    requires
        m.wf(),
        m.state == MidiParserState::WaitingForStatus,
        0x80 <= m.status_byte < 0xF0,
        data_len(m.status_byte) == Some(m.expected_data_bytes),
        d0 < 0x80,
        d1 < 0x80,
    ensures
        m.expected_data_bytes == 1 ==> m.step(d0).1 == Some(decode(m.status_byte, d0, m.data1)),
        m.expected_data_bytes == 2 ==> ({
            let (m1, o1) = m.step(d0);
            let (m2, o2) = m1.step(d1);
            &&& o1 is None
            &&& o2 == Some(decode(m.status_byte, d0, d1))
            &&& m2.state == MidiParserState::WaitingForStatus
            &&& m2.status_byte == m.status_byte
        }),
{
    lemma_byte_classes(d0);
    lemma_byte_classes(d1);
}

/// Real-time bytes (clock, active sensing, reset) are reported as `Other`
/// and leave the parser exactly as it was, so they may arrive in the middle
/// of a message.
pub proof fn law_realtime_bytes_are_transparent(m: ParserModel, byte: u8)
    requires
        byte >= 0xF8,
    ensures
        m.step(byte) == (m, Some(MidiEvent::Other)),
{
}

/// Note messages reach the voices as sent: from any parser state, a note
/// off status `0x8n` followed by a key and a velocity gives a note off of
/// that key on channel `n`, and a note on status `0x9n` gives a note on, or
/// a note off when its velocity is 0.
pub proof fn law_note_messages_decoded(m: ParserModel, status: u8, key: u8, velocity: u8)
    requires
        m.wf(),
        status & 0xF0u8 == 0x80 || status & 0xF0u8 == 0x90,
        key < 0x80,
        velocity < 0x80,
    ensures
        ({
            let (m1, o1) = m.step(status);
            let (m2, o2) = m1.step(key);
            let (m3, o3) = m2.step(velocity);
            let channel = status & 0x0Fu8;
            &&& o1 is None
            &&& o2 is None
            &&& channel < 16
            &&& status & 0xF0u8 == 0x80 ==> o3 == Some(
                MidiEvent::NoteOff { channel, key, velocity },
            )
            &&& status & 0xF0u8 == 0x90 && velocity > 0 ==> o3 == Some(
                MidiEvent::NoteOn { channel, key, velocity },
            )
            &&& status & 0xF0u8 == 0x90 && velocity == 0 ==> o3 == Some(
                MidiEvent::NoteOff { channel, key, velocity: 0 },
            )
        }),
{
    assert(0x80 <= status < 0xF8 && status & 0x0Fu8 < 16) by (bit_vector)
        requires
            status & 0xF0u8 == 0x80 || status & 0xF0u8 == 0x90,
    ;
    law_two_data_byte_message_decoded(m, status, key, velocity);
}

/// A note on with velocity 0 is a note off; a pitch bend carries the
/// 14-bit value `msb * 128 + lsb`.
pub proof fn law_decode_facts(status: u8, d0: u8, d1: u8)
    requires
        d0 < 0x80,
        d1 < 0x80,
    ensures
        status & 0xF0u8 == 0x90 && d1 == 0 ==> decode(status, d0, d1) == (MidiEvent::NoteOff {
            channel: status & 0x0Fu8,
            key: d0,
            velocity: 0,
        }),
        status & 0xF0u8 == 0xE0 ==> decode(status, d0, d1) == (MidiEvent::PitchBend {
            channel: status & 0x0Fu8,
            value: ((d1 as u16) * 128 + (d0 as u16)) as u16,
        }),
        ((d1 as u16) << 7u16) | (d0 as u16) <= 16383,
{
    assert(((d1 as u16) << 7u16) | (d0 as u16) == (d1 as u16) * 128 + (d0 as u16)
        && ((d1 as u16) << 7u16) | (d0 as u16) <= 16383) by (bit_vector)
        requires
            d0 < 0x80,
            d1 < 0x80,
    ;
}


// The queue between the serial interrupt and the audio task, and the small
// vector used while making room in it, both from `heapless`.

#[verifier::external_type_specification]
#[verifier::external_body]
#[verifier::reject_recursive_types(T)]
pub struct ExSpscQueue<T, const N: usize>(heapless::spsc::Queue<T, N>);

#[verifier::external_type_specification]
#[verifier::external_body]
#[verifier::reject_recursive_types(T)]
pub struct ExHeaplessVec<T, const N: usize>(heapless::Vec<T, N>);

/// The events waiting in a MIDI queue, oldest first.
pub uninterp spec fn queued_events(q: heapless::spsc::Queue<MidiEvent, 128>) -> Seq<MidiEvent>;

/// The events held in a small vector, in push order.
pub uninterp spec fn held_events(v: heapless::Vec<MidiEvent, 16>) -> Seq<MidiEvent>;

/// Number of events a `Queue<MidiEvent, 128>` can hold (`heapless` keeps
/// one slot free).
pub const MIDI_QUEUE_CAPACITY: usize = 127;

/// `heapless::spsc::Queue::len`: the number of queued events, which never
/// exceeds the capacity `N - 1` (the source computes it modulo `N`).
#[verifier::external_body]
fn queue_len(q: &heapless::spsc::Queue<MidiEvent, 128>) -> (n: usize)
    ensures
        n == queued_events(*q).len(),
        n <= MIDI_QUEUE_CAPACITY,
{
    q.len()
}

/// `heapless::spsc::Queue::capacity`: `N - 1`.
#[verifier::external_body]
fn queue_capacity(q: &heapless::spsc::Queue<MidiEvent, 128>) -> (c: usize)
    ensures
        c == MIDI_QUEUE_CAPACITY,
{
    q.capacity()
}

/// `heapless::spsc::Queue::enqueue`: appends the event when fewer than
/// `N - 1` are queued, and otherwise hands it back leaving the queue as it
/// was.
#[verifier::external_body]
fn queue_enqueue(q: &mut heapless::spsc::Queue<MidiEvent, 128>, e: MidiEvent) -> (r: Result<(), MidiEvent>)
    ensures
        queued_events(*final(q)).len() <= MIDI_QUEUE_CAPACITY,
        queued_events(*old(q)).len() < MIDI_QUEUE_CAPACITY ==> r is Ok
            && queued_events(*final(q)) == queued_events(*old(q)).push(e),
        queued_events(*old(q)).len() >= MIDI_QUEUE_CAPACITY ==> (r matches Err(x) && x == e)
            && queued_events(*final(q)) == queued_events(*old(q)),
{
    q.enqueue(e)
}

/// `heapless::spsc::Queue::dequeue`: removes and returns the oldest event,
/// or `None` from an empty queue.
#[verifier::external_body]
pub(crate) fn queue_dequeue(q: &mut heapless::spsc::Queue<MidiEvent, 128>) -> (r: Option<MidiEvent>)
    ensures
        queued_events(*old(q)).len() == 0 ==> r is None && queued_events(*final(q))
            == queued_events(*old(q)),
        queued_events(*old(q)).len() > 0 ==> r == Some(queued_events(*old(q))[0])
            && queued_events(*final(q)) == queued_events(*old(q)).drop_first(),
{
    q.dequeue()
}

/// `heapless::Vec::new`: an empty vector.
#[verifier::external_body]
fn held_new() -> (v: heapless::Vec<MidiEvent, 16>)
    ensures
        held_events(v) == Seq::<MidiEvent>::empty(),
{
    heapless::Vec::new()
}

/// `heapless::Vec::push`: appends while fewer than `N` are held, and
/// otherwise hands the item back leaving the vector as it was.
#[verifier::external_body]
fn held_push(v: &mut heapless::Vec<MidiEvent, 16>, e: MidiEvent) -> (r: Result<(), MidiEvent>)
    ensures
        held_events(*old(v)).len() < 16 ==> r is Ok
            && held_events(*final(v)) == held_events(*old(v)).push(e),
        held_events(*old(v)).len() >= 16 ==> (r matches Err(x) && x == e)
            && held_events(*final(v)) == held_events(*old(v)),
{
    v.push(e)
}

/// `heapless::Vec::as_slice`: the held items as a slice.
#[verifier::external_body]
fn held_as_slice(v: &heapless::Vec<MidiEvent, 16>) -> (s: &[MidiEvent])
    ensures
        s@ == held_events(*v),
{
    v.as_slice()
}

/// Control changes and pitch bends may be dropped to make room for notes.
pub open spec fn is_droppable(e: MidiEvent) -> bool {
    e is ControlChange || e is PitchBend
}

/// `j` is the position of the first droppable event among the sixteen
/// oldest of `q`.
pub open spec fn first_droppable_at(q: Seq<MidiEvent>, j: int) -> bool {
    &&& 0 <= j < 16
    &&& j < q.len()
    &&& is_droppable(q[j])
    &&& forall|i: int| 0 <= i < j ==> !is_droppable(#[trigger] q[i])
}

/// The queue fill level and capacity, `(len, capacity)`.
pub fn get_midi_queue_status(midi_events: &heapless::spsc::Queue<MidiEvent, 128>) -> (r: (
    usize,
    usize,
))
    ensures
        r == (queued_events(*midi_events).len() as usize, MIDI_QUEUE_CAPACITY),
{
    let capacity = queue_capacity(midi_events);
    let len = queue_len(midi_events);
    (len, capacity)
}

/// Enqueue an event; when the queue is full, make room by dropping the first
/// control change or pitch bend among the sixteen oldest events. The events
/// looked at before it move, in order, to the back of the queue; if none of
/// the sixteen can be dropped they all move to the back and the new event is
/// handed back.
pub fn try_enqueue_midi_event(
    midi_events: &mut heapless::spsc::Queue<MidiEvent, 128>,
    event: MidiEvent,
) -> (r: Result<(), MidiEvent>)
    ensures
        ({
            let q = queued_events(*old(midi_events));
            let n = q.len();
            let after = queued_events(*final(midi_events));
            &&& n < MIDI_QUEUE_CAPACITY ==> r is Ok && after == q.push(event)
            &&& forall|j: int|
                n >= MIDI_QUEUE_CAPACITY && #[trigger] first_droppable_at(q, j) ==> r is Ok && after == q.subrange(j + 1, n as int) + q.subrange(0, j) + seq![event]
            &&& (n >= MIDI_QUEUE_CAPACITY && forall|j: int| !#[trigger] first_droppable_at(q, j))
                ==> (r matches Err(x) && x == event) && after == q.subrange(16, n as int)
                + q.subrange(0, 16)
        }),
{
    let ghost q = queued_events(*midi_events);
    match queue_enqueue(midi_events, event) {
        Ok(()) => Ok(()),
        Err(event) => {
            let ghost n = q.len();
            assert(n == MIDI_QUEUE_CAPACITY);
            let mut dropped_non_critical = false;
            let mut temp_events = held_new();
            let mut i: usize = 0;
            while i < 16
                invariant_except_break
                    0 <= i <= 16,
                    !dropped_non_critical,
                    n == MIDI_QUEUE_CAPACITY,
                    q.len() == n,
                    held_events(temp_events) == q.subrange(0, i as int),
                    queued_events(*midi_events) == q.subrange(i as int, n as int),
                    forall|k: int| 0 <= k < i ==> !is_droppable(#[trigger] q[k]),
                ensures
                    dropped_non_critical ==> first_droppable_at(q, i as int) && held_events(
                        temp_events,
                    ) == q.subrange(0, i as int) && queued_events(*midi_events) == q.subrange(
                        i + 1,
                        n as int,
                    ),
                    !dropped_non_critical ==> i == 16 && held_events(temp_events) == q.subrange(
                        0,
                        16,
                    ) && queued_events(*midi_events) == q.subrange(16, n as int),
                    !dropped_non_critical ==> forall|k: int|
                        0 <= k < 16 ==> !is_droppable(#[trigger] q[k]),
                decreases 16 - i,
            {
                let ghost before = queued_events(*midi_events);
                match queue_dequeue(midi_events) {
                    Some(old_event) => {
                        assert(old_event == q[i as int]);
                        assert(queued_events(*midi_events) =~= q.subrange(i + 1, n as int));
                        match old_event {
                            MidiEvent::ControlChange { .. } | MidiEvent::PitchBend { .. } => {
                                dropped_non_critical = true;
                                break ;
                            },
                            _ => {
                                let _ = held_push(&mut temp_events, old_event);
                                assert(held_events(temp_events) =~= q.subrange(0, i + 1));
                            },
                        }
                    },
                    None => {
                        break ;
                    },
                }
                i = i + 1;
            }
            let kept = held_as_slice(&temp_events);
            let ghost base = queued_events(*midi_events);
            let mut k: usize = 0;
            while k < kept.len()
                invariant
                    0 <= k <= kept@.len(),
                    kept@.len() <= 16,
                    base.len() + kept@.len() <= MIDI_QUEUE_CAPACITY,
                    queued_events(*midi_events) == base + kept@.subrange(0, k as int),
                decreases kept@.len() - k,
            {
                let _ = queue_enqueue(midi_events, kept[k]);
                assert(queued_events(*midi_events) =~= base + kept@.subrange(0, k + 1));
                k = k + 1;
            }
            assert(kept@.subrange(0, kept@.len() as int) =~= kept@);
            if dropped_non_critical {
                let r = queue_enqueue(midi_events, event);
                proof {
                    assert forall|j: int| #[trigger] first_droppable_at(q, j) implies j == i by {
                        if j < i {
                            assert(!is_droppable(q[j]));
                        }
                        if j > i {
                            assert(!is_droppable(q[i as int]));
                        }
                    }
                    assert(queued_events(*midi_events) =~= q.subrange(i + 1, n as int)
                        + q.subrange(0, i as int) + seq![event]);
                }
                r
            } else {
                proof {
                    assert forall|j: int| !#[trigger] first_droppable_at(q, j) by {
                        if 0 <= j < 16 && j < q.len() {
                            assert(!is_droppable(q[j]));
                        }
                    }
                }
                Err(event)
            }
        },
    }
}

/// When the full queue makes room, exactly one control change or pitch bend
/// is lost and the new event is added: every other event, and every note
/// in particular, is kept.
pub proof fn law_making_room_loses_one_droppable_event(q: Seq<MidiEvent>, j: int, event: MidiEvent)
    requires
        first_droppable_at(q, j),
    ensures
        is_droppable(q[j]),
        (q.subrange(j + 1, q.len() as int) + q.subrange(0, j) + seq![event]).to_multiset()
            == q.to_multiset().remove(q[j]).insert(event),
{
    broadcast use vstd::seq_lib::group_to_multiset_ensures;

    let a = q.subrange(0, j);
    let b = q.subrange(j + 1, q.len() as int);
    vstd::seq_lib::lemma_multiset_commutative(b, a);
    vstd::seq_lib::lemma_multiset_commutative(a, b);
    assert(a + b =~= q.remove(j));
    q.to_multiset_ensures();
    (b + a).to_multiset_ensures();
    assert(b + a + seq![event] =~= (b + a).push(event));
}

} // verus!
