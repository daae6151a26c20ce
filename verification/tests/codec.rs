use ax88179_178a::codec::{decode_u16, decode_u32, encode_u16, encode_u32};
use ax88179_178a::transport::WriteData;

#[test]
fn half_word_goes_little_endian() {
    assert_eq!(encode_u16(0x1234), [0x34, 0x12]);
    assert_eq!(encode_u16(0x1234), 0x1234u16.to_le_bytes());
    assert_eq!(WriteData::Half(0xbeef).value(), vec![0xef, 0xbe]);
}

#[test]
fn word_goes_in_host_order() {
    assert_eq!(WriteData::Word(0x8000_0000).value(), 0x8000_0000u32.to_ne_bytes().to_vec());
    assert_eq!(WriteData::Word(0x0102_0304).value(), 0x0102_0304u32.to_ne_bytes().to_vec());
}

#[test]
fn decoding_reverses_encoding() {
    assert_eq!(decode_u16([0x34, 0x12]), 0x1234);
    assert_eq!(decode_u32([0x78, 0x56, 0x34, 0x12]), 0x1234_5678);
    assert_eq!(encode_u32(0x1234_5678), [0x78, 0x56, 0x34, 0x12]);
    assert_eq!(decode_u32(encode_u32(0xdead_beef)), 0xdead_beef);
}
