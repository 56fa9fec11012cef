//! Tests for the pure frame decoder: checksum validation, field extraction,
//! and the block-transport magic check.

use sen0177::block::parse_block;
use sen0177::read::as_u16;
use sen0177::read::parse_data;
use sen0177::read::PAYLOAD_LEN;
use sen0177::SensorError;

/// Builds a frame carrying the twelve fields at their documented offsets,
/// with a correct checksum trailer.
fn build_frame(fields: [u16; 12]) -> [u8; PAYLOAD_LEN] {
    let mut buf = [0u8; PAYLOAD_LEN];
    buf[0] = 0x42;
    buf[1] = 0x4d;
    buf[2] = 0x00;
    buf[3] = 0x1c;
    for (slot, field) in fields.iter().enumerate() {
        buf[4 + 2 * slot] = (field >> 8) as u8;
        buf[5 + 2 * slot] = (field & 0xff) as u8;
    }
    write_checksum(&mut buf);
    buf
}

/// Sums bytes 0..30 and stores the result big-endian at bytes 30 and 31.
fn write_checksum(buf: &mut [u8; PAYLOAD_LEN]) {
    let mut sum: u16 = 0;
    for byte in buf[0..PAYLOAD_LEN - 2].iter() {
        sum += *byte as u16;
    }
    buf[PAYLOAD_LEN - 2] = (sum >> 8) as u8;
    buf[PAYLOAD_LEN - 1] = (sum & 0xff) as u8;
}

#[test]
fn as_u16_combines_big_endian() {
    assert_eq!(as_u16(0x12, 0x34), 0x1234);
    assert_eq!(as_u16(0x00, 0x00), 0);
    assert_eq!(as_u16(0xff, 0xff), 0xffff);
    assert_eq!(as_u16(0x01, 0x3e), 318);
}

#[test]
fn decode_concrete_scenario() {
    // Bytes 0-1 magic, 25 / 50 / 100 at offsets 4-9, all other data zero,
    // checksum 0x42 + 0x4d + 25 + 50 + 100 = 318 = 0x013e at bytes 30-31.
    let mut buf = [0u8; PAYLOAD_LEN];
    buf[0] = 0x42;
    buf[1] = 0x4d;
    buf[5] = 0x19;
    buf[7] = 0x32;
    buf[9] = 0x64;
    buf[30] = 0x01;
    buf[31] = 0x3e;
    let reading = parse_data::<String>(&buf).expect("valid frame must decode");
    assert_eq!(reading.pm1(), 25);
    assert_eq!(reading.pm2_5(), 50);
    assert_eq!(reading.pm10(), 100);
    assert_eq!(reading.env_pm1(), 0);
    assert_eq!(reading.env_pm2_5(), 0);
    assert_eq!(reading.env_pm10(), 0);
    assert_eq!(reading.particles_0_3(), 0);
    assert_eq!(reading.particles_0_5(), 0);
    assert_eq!(reading.particles_1(), 0);
    assert_eq!(reading.particles_2_5(), 0);
    assert_eq!(reading.particles_5(), 0);
    assert_eq!(reading.particles_10(), 0);
}

#[test]
fn decode_extracts_every_field() {
    let fields: [u16; 12] = [12, 34, 56, 78, 90, 123, 4567, 891, 23, 45, 600, 7];
    let buf = build_frame(fields);
    let reading = parse_data::<String>(&buf).expect("valid frame must decode");
    assert_eq!(reading.pm1(), 12);
    assert_eq!(reading.pm2_5(), 34);
    assert_eq!(reading.pm10(), 56);
    assert_eq!(reading.env_pm1(), 78);
    assert_eq!(reading.env_pm2_5(), 90);
    assert_eq!(reading.env_pm10(), 123);
    assert_eq!(reading.particles_0_3(), 4567);
    assert_eq!(reading.particles_0_5(), 891);
    assert_eq!(reading.particles_1(), 23);
    assert_eq!(reading.particles_2_5(), 45);
    assert_eq!(reading.particles_5(), 600);
    assert_eq!(reading.particles_10(), 7);
}

#[test]
fn decode_largest_fields() {
    let buf = build_frame([0xffff; 12]);
    let reading = parse_data::<String>(&buf).expect("valid frame must decode");
    assert_eq!(reading.pm1(), 0xffff);
    assert_eq!(reading.particles_10(), 0xffff);
}

#[test]
fn decode_rejects_bad_checksum() {
    let mut buf = build_frame([25, 50, 100, 0, 0, 0, 0, 0, 0, 0, 0, 0]);
    buf[31] = buf[31].wrapping_add(1);
    let result = parse_data::<String>(&buf);
    assert!(matches!(result, Err(SensorError::ChecksumMismatch)));
}

#[test]
fn decode_detects_one_flipped_bit() {
    // Flip one bit in each summed byte position in turn: the trailer no
    // longer matches, so every flip is caught.
    let clean = build_frame([25, 50, 100, 1, 2, 3, 4, 5, 6, 7, 8, 9]);
    for position in 0..PAYLOAD_LEN - 2 {
        for bit in 0..8 {
            let mut corrupt = clean;
            corrupt[position] ^= 1 << bit;
            let result = parse_data::<String>(&corrupt);
            assert!(
                matches!(result, Err(SensorError::ChecksumMismatch)),
                "flip of bit {bit} in byte {position} went unnoticed",
            );
        }
    }
}

#[test]
fn decode_is_idempotent() {
    let buf = build_frame([25, 50, 100, 11, 22, 33, 44, 55, 66, 77, 88, 99]);
    let first = parse_data::<String>(&buf).expect("valid frame must decode");
    let second = parse_data::<String>(&buf).expect("valid frame must decode");
    let third = parse_data::<String>(&buf).expect("valid frame must decode");
    assert_eq!(first, second);
    assert_eq!(second, third);
}

#[test]
fn decode_ignores_magic_bytes_value() {
    // parse_data itself only checks the checksum; the magic marker is the
    // synchronizers' business. A well-summed frame without the marker passes.
    let mut buf = build_frame([1, 2, 3, 0, 0, 0, 0, 0, 0, 0, 0, 0]);
    buf[0] = 0x00;
    buf[1] = 0x00;
    write_checksum(&mut buf);
    assert!(parse_data::<String>(&buf).is_ok());
}

#[test]
fn block_decodes_valid_frame() {
    let buf = build_frame([25, 50, 100, 0, 0, 0, 0, 0, 0, 0, 0, 0]);
    let reading = parse_block::<String>(&buf).expect("valid block must decode");
    assert_eq!(reading.pm1(), 25);
    assert_eq!(reading.pm2_5(), 50);
    assert_eq!(reading.pm10(), 100);
}

#[test]
fn block_rejects_bad_magic() {
    let mut buf = build_frame([25, 50, 100, 0, 0, 0, 0, 0, 0, 0, 0, 0]);
    buf[0] = 0x41;
    write_checksum(&mut buf);
    let result = parse_block::<String>(&buf);
    assert!(matches!(result, Err(SensorError::BadMagic)));
}

#[test]
fn block_rejects_bad_second_magic_byte() {
    let mut buf = build_frame([25, 50, 100, 0, 0, 0, 0, 0, 0, 0, 0, 0]);
    buf[1] = 0x4e;
    write_checksum(&mut buf);
    let result = parse_block::<String>(&buf);
    assert!(matches!(result, Err(SensorError::BadMagic)));
}

#[test]
fn block_reports_checksum_after_magic() {
    let mut buf = build_frame([25, 50, 100, 0, 0, 0, 0, 0, 0, 0, 0, 0]);
    buf[30] = buf[30].wrapping_add(1);
    let result = parse_block::<String>(&buf);
    assert!(matches!(result, Err(SensorError::ChecksumMismatch)));
}

#[test]
fn transport_cause_is_wrapped_opaquely() {
    let cause = String::from("bus collision");
    let wrapped = SensorError::from(cause);
    assert!(matches!(wrapped, SensorError::TransportError(ref c) if c == "bus collision"));
}
