//! Command codec: how register values of one, two and four bytes are laid
//! out in the payload of a vendor control transfer.

use vstd::prelude::*;

verus! {

/// The two bytes of `x`, least significant first.
pub open spec fn le16(x: u16) -> Seq<u8> {
    seq![(x % 256) as u8, (x / 256) as u8]
}

/// The four bytes of `x`, least significant first.
pub open spec fn le32(x: u32) -> Seq<u8> {
    seq![
        (x % 256) as u8,
        (x / 256 % 256) as u8,
        (x / 65536 % 256) as u8,
        (x / 16777216) as u8,
    ]
}

/// The four bytes of `x`, most significant first.
pub open spec fn be32(x: u32) -> Seq<u8> {
    seq![
        (x / 16777216) as u8,
        (x / 65536 % 256) as u8,
        (x / 256 % 256) as u8,
        (x % 256) as u8,
    ]
}

/// The number that two bytes spell, least significant first.
pub open spec fn le16_value(s: Seq<u8>) -> int
    recommends
        s.len() == 2,
{
    s[0] + 256 * s[1]
}

/// The number that four bytes spell, least significant first.
pub open spec fn le32_value(s: Seq<u8>) -> int
    recommends
        s.len() == 4,
{
    s[0] + 256 * s[1] + 65536 * s[2] + 16777216 * s[3]
}

/// Encodes a 16-bit register value for the wire: little-endian.
pub fn encode_u16(x: u16) -> (wire: [u8; 2])
    ensures
        wire@ == le16(x),
        le16_value(wire@) == x,
{
    let lo: u8 = (x % 256) as u8;
    let hi: u8 = (x / 256) as u8;
    let wire: [u8; 2] = [lo, hi];
    assert(wire@ =~= le16(x));
    wire
}

/// Decodes a 16-bit register value from its two wire bytes.
pub fn decode_u16(wire: [u8; 2]) -> (x: u16)
    ensures
        x == le16_value(wire@),
        le16(x) == wire@,
{
    let lo: u16 = wire[0] as u16;
    let hi: u16 = wire[1] as u16;
    let x: u16 = lo + 256 * hi;
    assert(le16(x) =~= wire@);
    x
}

/// Decodes a 32-bit register value from its four wire bytes.
pub fn decode_u32(wire: [u8; 4]) -> (x: u32)
    ensures
        x == le32_value(wire@),
        le32(x) == wire@,
{
    let b0: u32 = wire[0] as u32;
    let b1: u32 = wire[1] as u32;
    let b2: u32 = wire[2] as u32;
    let b3: u32 = wire[3] as u32;
    let x: u32 = b0 + 256 * b1 + 65536 * b2 + 16777216 * b3;
    proof {
        let y1: int = b1 + 256 * b2 + 65536 * b3;
        let y2: int = b2 + 256 * b3;
        assert(x == b0 + 256 * y1);
        assert(x % 256 == b0 && x / 256 == y1);
        assert(y1 % 256 == b1);
        assert(x == (b0 + 256 * b1) + 65536 * y2);
        assert(x / 65536 == y2);
        assert(y2 % 256 == b2);
        assert(x == (b0 + 256 * b1 + 65536 * b2) + 16777216 * b3);
        assert(x / 16777216 == b3);
        assert(le32(x) =~= wire@);
    }
    x
}

/// Encodes a 32-bit value little-endian, as the bulk headers carry it.
pub fn encode_u32(x: u32) -> (wire: [u8; 4])
    ensures
        wire@ == le32(x),
        le32_value(wire@) == x,
{
    let b0: u8 = (x % 256) as u8;
    let b1: u8 = (x / 256 % 256) as u8;
    let b2: u8 = (x / 65536 % 256) as u8;
    let b3: u8 = (x / 16777216) as u8;
    let wire: [u8; 4] = [b0, b1, b2, b3];
    assert(wire@ =~= le32(x));
    wire
}

} // verus!
