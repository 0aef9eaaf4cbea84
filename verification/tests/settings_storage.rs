use synthphone::settings_storage::{
    crc32, decode, encode, newest, save_target, Record, VolumeSettings,
};

fn record(generation: u32, level: i8) -> Record {
    Record {
        generation,
        volumes: VolumeSettings { master: level, voice: 3, melody: 20, drums: 0 },
    }
}

#[test]
fn crc32_check_value() {
    assert_eq!(crc32(b"123456789"), 0xCBF4_3926);
    assert_eq!(crc32(&[]), 0);
}

#[test]
fn default_levels() {
    assert_eq!(
        VolumeSettings::default(),
        VolumeSettings { master: 10, voice: 10, melody: 10, drums: 10 }
    );
}

#[test]
fn record_layout() {
    let bytes = encode(record(0x0102_0304, 7));
    assert_eq!(&bytes[..8], &[b'S', b'P', b'H', b'V', 1, 4, 0xFF, 0xFF]);
    assert_eq!(&bytes[8..12], &[4, 3, 2, 1]);
    assert_eq!(&bytes[12..16], &[7, 3, 20, 0]);
    assert!(bytes[16..28].iter().all(|&b| b == 0xFF));
    assert_eq!(&bytes[28..], &crc32(&bytes[..28]).to_le_bytes());
}

#[test]
fn round_trip() {
    let r = record(41, 12);
    assert_eq!(decode(&encode(r)), Some(r));
}

#[test]
fn out_of_range_level_is_rejected() {
    assert_eq!(decode(&encode(record(1, 21))), None);
    assert_eq!(decode(&encode(record(1, -1))), None);
}

#[test]
fn corrupted_or_erased_slot_is_rejected() {
    let mut bytes = encode(record(5, 9));
    bytes[13] ^= 1;
    assert_eq!(decode(&bytes), None);
    assert_eq!(decode(&[0xFF; 32]), None);
    let mut bytes = encode(record(5, 9));
    bytes[4] = 2;
    assert_eq!(decode(&bytes), None);
}

#[test]
fn newest_uses_serial_number_order() {
    let a = record(7, 1);
    let b = record(8, 2);
    assert_eq!(newest(Some(a), Some(b)), Some((1, b)));
    assert_eq!(newest(Some(b), Some(a)), Some((0, b)));
    let wrapped = record(0, 3);
    let last = record(u32::MAX, 4);
    assert_eq!(newest(Some(wrapped), Some(last)), Some((0, wrapped)));
    assert_eq!(newest(None, Some(a)), Some((1, a)));
    assert_eq!(newest(None, None), None);
    assert_eq!(newest(Some(a), Some(a)), Some((1, a)));
}

#[test]
fn save_goes_to_the_other_slot() {
    assert_eq!(save_target(None), (0, 0));
    assert_eq!(save_target(Some((0, record(9, 1)))), (1, 10));
    assert_eq!(save_target(Some((1, record(u32::MAX, 1)))), (0, 0));
}
