//! Power-loss-safe records of the phone mixer levels: two flash slots hold
//! checksummed, generation-numbered records; a save always writes the slot
//! that does not hold the newest record.

use vstd::prelude::*;

verus! {

/// The four mixer levels.
#[derive(Clone, Copy, Debug, PartialEq, Eq, Structural)]
pub struct VolumeSettings {
    pub master: i8,
    pub voice: i8,
    pub melody: i8,
    pub drums: i8,
}

impl Default for VolumeSettings {
    fn default() -> (v: Self)
        ensures
            v == (VolumeSettings { master: 10, voice: 10, melody: 10, drums: 10 }),
    {
        Self { master: 10, voice: 10, melody: 10, drums: 10 }
    }
}

/// A stored record: the levels and the generation that orders saves.
#[derive(Clone, Copy, Debug, PartialEq, Eq, Structural)]
pub struct Record {
    pub generation: u32,
    pub volumes: VolumeSettings,
}

/// Size of a record in flash.
pub const RECORD_SIZE: usize = 32;

/// Format version written after the magic bytes.
pub const VERSION: u8 = 1;

/// The CRC-32 (IEEE 802.3, reflected) register after one bit.
pub open spec fn crc_bit(c: u32) -> u32 {
    if c & 1u32 == 1u32 {
        (c >> 1u32) ^ 0xEDB8_8320u32
    } else {
        c >> 1u32
    }
}

/// The register after `n` bits.
pub open spec fn crc_bits(c: u32, n: nat) -> u32
    decreases n,
{
    if n == 0 {
        c
    } else {
        crc_bits(crc_bit(c), (n - 1) as nat)
    }
}

/// The register after the bytes of `s`, starting from `c`.
pub open spec fn crc_update(c: u32, s: Seq<u8>) -> u32
    decreases s.len(),
{
    if s.len() == 0 {
        c
    } else {
        crc_bits(crc_update(c, s.drop_last()) ^ (s.last() as u32), 8)
    }
}

/// The CRC-32 of `s`.
pub open spec fn crc32_of(s: Seq<u8>) -> u32 {
    !crc_update(0xFFFF_FFFFu32, s)
}

/// `x` as four little-endian bytes.
pub open spec fn le_bytes(x: u32) -> Seq<u8> {
    seq![
        (x & 0xFFu32) as u8,
        ((x >> 8u32) & 0xFFu32) as u8,
        ((x >> 16u32) & 0xFFu32) as u8,
        ((x >> 24u32) & 0xFFu32) as u8,
    ]
}

/// The number whose little-endian bytes are `b0, b1, b2, b3`.
pub open spec fn from_le(b0: u8, b1: u8, b2: u8, b3: u8) -> u32 {
    (b0 as u32) | ((b1 as u32) << 8u32) | ((b2 as u32) << 16u32) | ((b3 as u32) << 24u32)
}

/// The first 28 bytes of a record: magic "SPHV", version, a length of 4,
/// two erased bytes, the generation, the four levels and erased bytes.
pub open spec fn record_body(r: Record) -> Seq<u8> {
    seq![0x53u8, 0x50u8, 0x48u8, 0x56u8, VERSION, 4u8, 0xFFu8, 0xFFu8] + le_bytes(r.generation)
        + seq![
        r.volumes.master as u8,
        r.volumes.voice as u8,
        r.volumes.melody as u8,
        r.volumes.drums as u8,
    ] + Seq::new(12, |i: int| 0xFFu8)
}

/// The 32 bytes of a record: its body followed by the CRC-32 of the body.
pub open spec fn record_bytes(r: Record) -> Seq<u8> {
    record_body(r) + le_bytes(crc32_of(record_body(r)))
}

/// The record that 32 bytes read from flash hold, if they hold a valid one:
/// right magic, version and length, matching checksum, and levels of at
/// most 20.
pub open spec fn decoded(b: Seq<u8>) -> Option<Record> {
    if b.len() != 32 || b[0] != 0x53 || b[1] != 0x50 || b[2] != 0x48 || b[3] != 0x56 || b[4]
        != VERSION || b[5] != 4 {
        None
    } else if crc32_of(b.subrange(0, 28)) != from_le(b[28], b[29], b[30], b[31]) || b[12] > 20
        || b[13] > 20 || b[14] > 20 || b[15] > 20 {
        None
    } else {
        Some(
            Record {
                generation: from_le(b[8], b[9], b[10], b[11]),
                volumes: VolumeSettings {
                    master: b[12] as i8,
                    voice: b[13] as i8,
                    melody: b[14] as i8,
                    drums: b[15] as i8,
                },
            },
        )
    }
}

/// One bit of the CRC register.
fn crc_step(crc: u32) -> (r: u32)
    ensures
        r == crc_bit(crc),
{
    assert(crc & 1u32 == 0u32 || crc & 1u32 == 1u32) by (bit_vector);
    let mask = 0u32.wrapping_sub(crc & 1);
    let r = (crc >> 1) ^ (0xEDB8_8320 & mask);
    assert(r == crc_bit(crc)) by (bit_vector)
        requires
            mask == (if crc & 1u32 == 0u32 { 0u32 } else { 0xFFFF_FFFFu32 }),
            r == (crc >> 1u32) ^ (0xEDB8_8320u32 & mask),
    ;
    r
}

/// The CRC-32 (IEEE 802.3) of `bytes`.
pub fn crc32(bytes: &[u8]) -> (c: u32)
    ensures
        c == crc32_of(bytes@),
{
    let mut crc = 0xFFFF_FFFFu32;
    let mut i: usize = 0;
    while i < bytes.len()
        invariant
            0 <= i <= bytes@.len(),
            crc == crc_update(0xFFFF_FFFFu32, bytes@.subrange(0, i as int)),
        decreases bytes@.len() - i,
    {
        let byte = bytes[i];
        crc = crc ^ (byte as u32);
        let ghost start = crc;
        let mut bit: usize = 0;
        while bit < 8
            invariant
                0 <= bit <= 8,
                crc_bits(start, 8) == crc_bits(crc, (8 - bit) as nat),
            decreases 8 - bit,
        {
            crc = crc_step(crc);
            bit = bit + 1;
        }
        proof {
            let s = bytes@.subrange(0, i + 1);
            assert(s.drop_last() =~= bytes@.subrange(0, i as int));
            assert(s.last() == byte);
        }
        i = i + 1;
    }
    assert(bytes@.subrange(0, bytes@.len() as int) =~= bytes@);
    !crc
}

/// The four little-endian bytes of `x`.
fn le_bytes_of(x: u32) -> (b: [u8; 4])
    ensures
        b@ == le_bytes(x),
{
    let b = [
        (x & 0xFF) as u8,
        ((x >> 8) & 0xFF) as u8,
        ((x >> 16) & 0xFF) as u8,
        ((x >> 24) & 0xFF) as u8,
    ];
    assert(b@ =~= le_bytes(x));
    b
}

/// Little-endian bytes back to a number.
fn u32_from_le(b0: u8, b1: u8, b2: u8, b3: u8) -> (x: u32)
    ensures
        x == from_le(b0, b1, b2, b3),
{
    (b0 as u32) | ((b1 as u32) << 8) | ((b2 as u32) << 16) | ((b3 as u32) << 24)
}

/// The 32 flash bytes of `record`.
pub fn encode(record: Record) -> (bytes: [u8; RECORD_SIZE])
    ensures
        bytes@ == record_bytes(record),
{
    let mut bytes = [0xFFu8; RECORD_SIZE];
    bytes[0] = 0x53;
    bytes[1] = 0x50;
    bytes[2] = 0x48;
    bytes[3] = 0x56;
    bytes[4] = VERSION;
    bytes[5] = 4;
    let generation = le_bytes_of(record.generation);
    bytes[8] = generation[0];
    bytes[9] = generation[1];
    bytes[10] = generation[2];
    bytes[11] = generation[3];
    bytes[12] = record.volumes.master as u8;
    bytes[13] = record.volumes.voice as u8;
    bytes[14] = record.volumes.melody as u8;
    bytes[15] = record.volumes.drums as u8;
    let body = vstd::slice::slice_subrange(bytes.as_slice(), 0, 28);
    assert(body@ =~= record_body(record));
    let crc = le_bytes_of(crc32(body));
    bytes[28] = crc[0];
    bytes[29] = crc[1];
    bytes[30] = crc[2];
    bytes[31] = crc[3];
    assert(bytes@ =~= record_bytes(record));
    bytes
}

/// The record held in 32 flash bytes, or `None` when they hold no valid
/// record (erased, torn or corrupted slot).
pub fn decode(bytes: &[u8; RECORD_SIZE]) -> (r: Option<Record>)
    ensures
        r == decoded(bytes@),
{
    if bytes[0] != 0x53 || bytes[1] != 0x50 || bytes[2] != 0x48 || bytes[3] != 0x56 || bytes[4]
        != VERSION || bytes[5] != 4 {
        return None;
    }
    let expected = u32_from_le(bytes[28], bytes[29], bytes[30], bytes[31]);
    let body = vstd::slice::slice_subrange(bytes.as_slice(), 0, 28);
    if crc32(body) != expected || bytes[12] > 20 || bytes[13] > 20 || bytes[14] > 20
        || bytes[15] > 20 {
        return None;
    }
    Some(
        Record {
            generation: u32_from_le(bytes[8], bytes[9], bytes[10], bytes[11]),
            volumes: VolumeSettings {
                master: bytes[12] as i8,
                voice: bytes[13] as i8,
                melody: bytes[14] as i8,
                drums: bytes[15] as i8,
            },
        },
    )
}

/// `b` was saved no earlier than `a`: generations are compared as serial
/// numbers, so the order survives the wrap from `u32::MAX` to 0.
pub open spec fn not_older(b: u32, a: u32) -> bool {
    (if b >= a {
        b - a
    } else {
        b - a + 0x1_0000_0000
    }) < 0x8000_0000
}

/// The newest of the records read from the two slots, with its slot.
pub open spec fn newest_of(slot0: Option<Record>, slot1: Option<Record>) -> Option<(usize, Record)> {
    match (slot0, slot1) {
        (Some(a), Some(b)) => if not_older(b.generation, a.generation) {
            Some((1usize, b))
        } else {
            Some((0usize, a))
        },
        (Some(a), None) => Some((0usize, a)),
        (None, Some(b)) => Some((1usize, b)),
        (None, None) => None,
    }
}

/// The slot and generation the next save writes, given the newest record.
pub open spec fn save_target_of(newest: Option<(usize, Record)>) -> (usize, u32) {
    match newest {
        Some((current, record)) => (
            (1 - current) as usize,
            (if record.generation == u32::MAX {
                0
            } else {
                record.generation + 1
            }) as u32,
        ),
        None => (0, 0),
    }
}

/// The newest of the records read from the two slots (slot 0 and slot 1),
/// with the slot it came from.
pub fn newest(slot0: Option<Record>, slot1: Option<Record>) -> (r: Option<(usize, Record)>)
    ensures
        r == newest_of(slot0, slot1),
{
    match (slot0, slot1) {
        (Some(a), Some(b)) if b.generation.wrapping_sub(a.generation) < 0x8000_0000 => {
            Some((1, b))
        },
        (Some(a), Some(_)) => Some((0, a)),
        (Some(a), None) => Some((0, a)),
        (None, Some(b)) => Some((1, b)),
        (None, None) => None,
    }
}

/// Where the next save goes: the slot that does not hold the newest record,
/// with the next generation; slot 0 and generation 0 when both are empty.
pub fn save_target(newest: Option<(usize, Record)>) -> (r: (usize, u32))
    requires
        newest matches Some((current, _)) ==> current <= 1,
    ensures
        r == save_target_of(newest),
{
    match newest {
        Some((current, record)) => (1 - current, record.generation.wrapping_add(1)),
        None => (0, 0),
    }
}

/// A saved record reads back as itself when every level lies in `0..=20`,
/// and is rejected otherwise.
pub proof fn law_record_round_trip(r: Record)
    ensures
        decoded(record_bytes(r)) == (if 0 <= r.volumes.master <= 20 && 0 <= r.volumes.voice
            <= 20 && 0 <= r.volumes.melody <= 20 && 0 <= r.volumes.drums <= 20 {
            Some(r)
        } else {
            None
        }),
{
    let b = record_bytes(r);
    let body = record_body(r);
    assert(b.subrange(0, 28) =~= body);
    let c = crc32_of(body);
    let g = r.generation;
    assert(from_le(
        (c & 0xFFu32) as u8,
        ((c >> 8u32) & 0xFFu32) as u8,
        ((c >> 16u32) & 0xFFu32) as u8,
        ((c >> 24u32) & 0xFFu32) as u8,
    ) == c) by (bit_vector);
    assert(from_le(
        (g & 0xFFu32) as u8,
        ((g >> 8u32) & 0xFFu32) as u8,
        ((g >> 16u32) & 0xFFu32) as u8,
        ((g >> 24u32) & 0xFFu32) as u8,
    ) == g) by (bit_vector);
    let m = r.volumes.master;
    let v = r.volumes.voice;
    let l = r.volumes.melody;
    let d = r.volumes.drums;
    assert((0 <= m <= 20) == ((m as u8) <= 20) && (m as u8) as i8 == m) by (bit_vector);
    assert((0 <= v <= 20) == ((v as u8) <= 20) && (v as u8) as i8 == v) by (bit_vector);
    assert((0 <= l <= 20) == ((l as u8) <= 20) && (l as u8) as i8 == l) by (bit_vector);
    assert((0 <= d <= 20) == ((d as u8) <= 20) && (d as u8) as i8 == d) by (bit_vector);
}

/// A save never overwrites the slot holding the newest record, and once it
/// has been written completely it is the newest record; if the write is
/// torn (the slot no longer decodes), the previous newest record remains.
pub proof fn law_save_keeps_previous_record(current: usize, old: Record, new_volumes: VolumeSettings)
    requires
        current <= 1,
    ensures
        ({
            let (slot, generation) = save_target_of(Some((current, old)));
            let new = Record { generation, volumes: new_volumes };
            &&& slot != current
            &&& slot <= 1
            &&& (if slot == 0 {
                newest_of(Some(new), Some(old))
            } else {
                newest_of(Some(old), Some(new))
            }) == Some((slot, new))
            &&& (if slot == 0 {
                newest_of(None, Some(old))
            } else {
                newest_of(Some(old), None)
            }) == Some((current, old))
        }),
{
}

} // verus!
