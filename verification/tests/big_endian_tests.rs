//! Tests of the big-endian primitives.

use bytestore::big_endian::{u16_from_be, u16_to_vec, u32_from_be};

#[test]
fn test_u16_to_vec() {
    let num: u16 = 0x02FF;
    let expected: Vec<u8> = vec![0x02, 0xFF];
    assert_eq!(expected, u16_to_vec(&num));
}

#[test]
fn test_u16_to_vec_extremes() {
    assert_eq!(u16_to_vec(&0), vec![0x00, 0x00]);
    assert_eq!(u16_to_vec(&0xFFFF), vec![0xFF, 0xFF]);
    assert_eq!(u16_to_vec(&200), vec![0x00, 0xC8]);
    assert_eq!(u16_to_vec(&404), vec![0x01, 0x94]);
}

#[test]
fn test_u16_round_trip() {
    for n in [0u16, 1, 255, 256, 0x02FF, 0xABCD, 0xFFFF] {
        let bytes = u16_to_vec(&n);
        assert_eq!(u16_from_be(bytes[0], bytes[1]), n);
    }
}

#[test]
fn test_u32_from_be() {
    assert_eq!(u32_from_be(0x00, 0x00, 0x00, 0x2A), 42);
    assert_eq!(u32_from_be(0x12, 0x34, 0x56, 0x78), 0x1234_5678);
    assert_eq!(u32_from_be(0xFF, 0xFF, 0xFF, 0xFF), u32::MAX);
}
