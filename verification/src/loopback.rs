//! The two framings held against each other: a frame that goes out through
//! the framer and comes back in a received buffer is the frame that went
//! out.

use vstd::prelude::*;
use crate::codec::{le16, le16_value, le32, le32_value};
use crate::rx::{
    align8,
    deframed,
    half_at,
    header_of,
    rx_start,
    rx_step,
    rx_trace,
    tag_of,
    word_at,
    FrameView,
    PacketHeader,
    RxTrace,
};
use crate::tx::framed;

verus! {

/// The header word of a good packet of `len` bytes and layer-4 type
/// `l4_type`: no error bit set.
pub open spec fn good_header(len: int, l4_type: u8) -> u32 {
    (len * 0x1_0000 + l4_type * 4) as u32
}

/// A received buffer that carries the one frame `frame`: the frame, padded
/// with zeros to a multiple of eight bytes; its header; and the trailer,
/// which counts one packet and points at the header.
pub open spec fn rx_buffer_of(frame: Seq<u8>, l4_type: u8) -> Seq<u8> {
    let len = frame.len() as int;
    frame + Seq::new((align8(len) - len) as nat, |i: int| 0u8) + le32(good_header(len, l4_type))
        + le16(1) + le16(align8(len) as u16)
}

/// The frame that a bulk-OUT buffer carries: all behind its prefix.
pub open spec fn carried(tx: Seq<u8>) -> Seq<u8> {
    tx.subrange(8, tx.len() as int)
}

/// Little-endian bytes spell the number that they were made from.
pub proof fn lemma_le_round_trip(h: u16, w: u32)
    ensures
        le16_value(le16(h)) == h,
        le32_value(le32(w)) == w,
{
}

/// The header of a good packet says what it was made from, and marks no
/// error.
pub proof fn lemma_good_header(len: int, l4_type: u8)
    requires
        0 <= len <= 8191,
        l4_type < 8,
    ensures
        header_of(good_header(len, l4_type)) == (PacketHeader {
            drop_error: false,
            crc_error: false,
            length: len as u16,
            l4_type,
            l3_checksum_error: false,
            l4_checksum_error: false,
        }),
{
    let word = good_header(len, l4_type);
    let low: int = l4_type * 4;
    assert(word == len * 0x1_0000 + low);
    assert(0 <= low < 32);
    assert(word / 0x1_0000 == len);
    assert(word < 0x2000_0000);
    assert(word / 0x2000_0000 == 0);
    assert(word / 0x8000_0000 == 0);
    assert(word % 4 == 0);
    assert(word / 4 == len * 0x4000 + l4_type);
    assert(word / 4 % 8 == l4_type);
    assert(word / 2 % 2 == 0);
}

/// Where the parts of a received buffer with one frame lie.
pub proof fn lemma_rx_buffer_layout(frame: Seq<u8>, l4_type: u8)
    requires
        frame.len() <= 8191,
    ensures
        ({
            let len = frame.len() as int;
            let room = align8(len);
            let buf = rx_buffer_of(frame, l4_type);
            &&& len <= room <= 8192
            &&& buf.len() == room + 8
            &&& buf.subrange(0, len) == frame
            &&& word_at(buf, room) == good_header(len, l4_type)
            &&& half_at(buf, room + 4) == 1
            &&& half_at(buf, room + 6) == room
        }),
{
    let len = frame.len() as int;
    let room = align8(len);
    let buf = rx_buffer_of(frame, l4_type);
    let word = good_header(len, l4_type);
    assert(len <= room < len + 8);
    assert(buf.len() == room + 8);
    assert(buf.subrange(0, len) =~= frame);
    assert(buf.subrange(room, room + 4) =~= le32(word));
    assert(buf.subrange(room + 4, room + 6) =~= le16(1));
    assert(buf.subrange(room + 6, room + 8) =~= le16(room as u16));
    lemma_le_round_trip(1, word);
    lemma_le_round_trip(room as u16, word);
}

/// A received buffer made for one good frame gives that frame, and
/// nothing else.
pub proof fn lemma_one_frame_buffer(frame: Seq<u8>, l4_type: u8)
    requires
        frame.len() <= 8191,
        l4_type < 8,
    ensures
        deframed(rx_buffer_of(frame, l4_type), false) == (RxTrace {
            frames: seq![
                FrameView {
                    payload: frame,
                    checksum: tag_of(header_of(good_header(frame.len() as int, l4_type))),
                    offset: 0,
                },
            ],
            dropped: 0,
            consumed: align8(frame.len() as int) as nat,
            error: None,
        }),
{
    let len = frame.len() as int;
    let room = align8(len);
    let buf = rx_buffer_of(frame, l4_type);
    let body = room + 4;
    lemma_rx_buffer_layout(frame, l4_type);
    lemma_good_header(len, l4_type);
    let h = header_of(word_at(buf, room));
    assert(h.length == len && !h.crc_error && !h.drop_error);
    let t0 = rx_start();
    let t1 = rx_step(buf, false, body, room, 0, t0);
    assert(t1.error.is_none());
    assert(t1.dropped == 0);
    assert(t1.consumed == room);
    assert(t1.frames =~= seq![FrameView { payload: frame, checksum: tag_of(h), offset: 0 }]);
    assert(rx_trace(buf, false, body, room, 0) == t0);
    assert(rx_trace(buf, false, body, room, 1) == t1) by {
        reveal_with_fuel(rx_trace, 2);
    }
    assert(buf.len() - 4 == body);
    assert(half_at(buf, body) == 1);
    assert(half_at(buf, body + 2) == room);
}

/// A frame of at most 8191 bytes that is framed for sending, and whose
/// bytes then come back in a received buffer with a header and a trailer
/// that match, is delivered as it was: one frame, the same bytes, nothing
/// dropped and no error.
pub proof fn lemma_frame_round_trip(frame: Seq<u8>, max_packet_size: int, mss: u16, l4_type: u8)
    requires
        frame.len() <= 8191,
        l4_type < 8,
    ensures
        carried(framed(frame, max_packet_size, mss)) == frame,
        deframed(rx_buffer_of(carried(framed(frame, max_packet_size, mss)), l4_type), false) == (
            RxTrace {
                frames: seq![
                    FrameView {
                        payload: frame,
                        checksum: tag_of(header_of(good_header(frame.len() as int, l4_type))),
                        offset: 0,
                    },
                ],
                dropped: 0,
                consumed: align8(frame.len() as int) as nat,
                error: None,
            }
        ),
{
    assert(carried(framed(frame, max_packet_size, mss)) =~= frame);
    lemma_one_frame_buffer(frame, l4_type);
}

} // verus!
