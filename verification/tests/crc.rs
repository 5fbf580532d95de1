//! Checksum behaviour against externally known CRC-8/MAXIM values.

use auto_brew::crc::crc8;

#[test]
fn crc8_matches_the_published_check_value() {
    // The standard check input of CRC-8/MAXIM-DOW.
    assert_eq!(crc8(b"123456789"), 0xA1);
}

#[test]
fn crc8_validates_a_real_device_code() {
    let rom: [u8; 8] = [0x28, 0xFF, 0x64, 0x1F, 0x23, 0x09, 0x4C, 0xC3];
    assert_eq!(crc8(&rom[0..7]), rom[7]);
}

#[test]
fn crc8_of_nine_zero_bytes_is_zero() {
    assert_eq!(crc8(&[0u8; 9]), 0);
}

#[test]
fn crc8_of_an_empty_message_is_the_seed() {
    assert_eq!(crc8(&[]), 0);
}

#[test]
fn crc8_of_a_message_followed_by_its_crc_is_zero() {
    let mut data = vec![0x12u8, 0x34, 0x56, 0x78, 0x9A, 0xBC, 0xDE, 0xF0];
    let crc = crc8(&data);
    data.push(crc);
    assert_eq!(crc8(&data), 0);
}
