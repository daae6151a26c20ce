//! Packet framer: one outbound Ethernet frame in, one bulk-OUT buffer out.
//!
//! The buffer is the frame behind an eight-byte prefix of two little-endian
//! words: the frame's length, then the TSO segment size together with the
//! padding flag.

use vstd::prelude::*;
use crate::codec::{encode_u32, le32};

verus! {

/// Length in bytes of the prefix in front of each outbound frame.
pub const TX_PREFIX: usize = 8;

/// The padding flag in the second header word: the adapter is to pad the
/// transfer, whose length would else be a multiple of the packet size.
pub const TX_PADDING: u32 = 0x8000_8000;

/// Why a frame could not be framed.
#[derive(Clone, Copy, Debug, PartialEq, Eq, Structural)]
pub enum TxError {
    /// The frame's length does not fit the first header word, or the buffer's
    /// length would not fit the machine.
    FrameTooLong,
    /// The endpoint's packet size is zero: no transfer can be sized by it.
    NoPacketSize,
    /// The frame lies in pieces and could not be brought into one.
    Linearize,
    /// No buffer with room for the prefix could be had.
    Allocate,
}

/// The two words of the prefix.
#[derive(Clone, Copy, Debug, PartialEq, Eq, Structural)]
pub struct TxHeader {
    /// The frame's length in bytes.
    pub hdr1: u32,
    /// The TSO segment size, with the padding flag where it is due.
    pub hdr2: u32,
}

/// Whether a frame of `len` bytes, with its prefix, fills a whole number of
/// packets of `max_packet_size` bytes.
pub open spec fn fills_packets(len: int, max_packet_size: int) -> bool {
    (len + 8) % max_packet_size == 0
}

/// The second header word for a frame of `len` bytes.
pub open spec fn tx_hdr2(len: int, max_packet_size: int, mss: u16) -> u32 {
    if fills_packets(len, max_packet_size) {
        (mss as u32) | TX_PADDING
    } else {
        mss as u32
    }
}

/// Whether a second header word carries the padding flag.
pub open spec fn has_padding(hdr2: u32) -> bool {
    hdr2 & TX_PADDING == TX_PADDING
}

/// The buffer for `frame`: the two header words, little-endian, then the
/// frame.
pub open spec fn framed(frame: Seq<u8>, max_packet_size: int, mss: u16) -> Seq<u8> {
    le32(frame.len() as u32) + le32(tx_hdr2(frame.len() as int, max_packet_size, mss)) + frame
}

/// A segment size has no bit of the padding flag's upper half, so the flag
/// can be told in every second header word.
pub proof fn lemma_padding_flag(mss: u16)
    ensures
        has_padding((mss as u32) | TX_PADDING),
        !has_padding(mss as u32),
        ((mss as u32) | TX_PADDING) & 0x7fff == (mss as u32) & 0x7fff,
{
    assert(((mss as u32) | 0x8000_8000u32) & 0x8000_8000u32 == 0x8000_8000u32) by (bit_vector);
    assert((mss as u32) & 0x8000_8000u32 != 0x8000_8000u32) by (bit_vector);
    assert(((mss as u32) | 0x8000_8000u32) & 0x7fff == (mss as u32) & 0x7fff) by (bit_vector);
}

/// The eight bytes of a prefix: the first word, then the second, each
/// little-endian.
pub open spec fn prefix_of(h: TxHeader) -> Seq<u8> {
    le32(h.hdr1) + le32(h.hdr2)
}

/// The prefix of a frame of `len` bytes.
pub open spec fn prefix_for(len: int, max_packet_size: int, mss: u16) -> Seq<u8> {
    prefix_of(TxHeader { hdr1: len as u32, hdr2: tx_hdr2(len, max_packet_size, mss) })
}

impl TxHeader {
    /// The eight bytes that go in front of the frame.
    pub fn prefix(&self) -> (p: [u8; 8])
        ensures
            p@ == prefix_of(*self),
    {
        let w1: [u8; 4] = encode_u32(self.hdr1);
        let w2: [u8; 4] = encode_u32(self.hdr2);
        let p: [u8; 8] = [w1[0], w1[1], w1[2], w1[3], w2[0], w2[1], w2[2], w2[3]];
        assert(p@ =~= w1@ + w2@);
        p
    }
}

/// Computes the prefix for a frame of `len` bytes, to be sent over an
/// endpoint whose packets hold `max_packet_size` bytes, with TSO segment
/// size `mss` (zero where the frame is not to be segmented).
pub fn tx_header(len: u32, max_packet_size: u32, mss: u16) -> (r: Result<TxHeader, TxError>)
    ensures
        max_packet_size == 0 <==> r == Err::<TxHeader, TxError>(TxError::NoPacketSize),
        max_packet_size != 0 ==> r == Ok::<TxHeader, TxError>(
            (TxHeader { hdr1: len, hdr2: tx_hdr2(len as int, max_packet_size as int, mss) }),
        ),
        r.is_ok() ==> (has_padding(r.unwrap().hdr2) <==> fills_packets(
            len as int,
            max_packet_size as int,
        )),
{
    if max_packet_size == 0 {
        return Err(TxError::NoPacketSize);
    }
    proof {
        lemma_padding_flag(mss);
    }
    let total: u64 = len as u64 + 8;
    let hdr2: u32 = if total % (max_packet_size as u64) == 0 {
        (mss as u32) | TX_PADDING
    } else {
        mss as u32
    };
    Ok(TxHeader { hdr1: len, hdr2 })
}

/// Frames one Ethernet frame for the bulk-OUT endpoint.
///
/// Fails for an endpoint without a packet size and for a frame whose length
/// does not fit; else returns the prefix followed by the frame, unchanged.
pub fn frame(payload: &[u8], max_packet_size: u32, mss: u16) -> (r: Result<Vec<u8>, TxError>)
    ensures
        max_packet_size == 0 ==> r == Err::<Vec<u8>, TxError>(TxError::NoPacketSize),
        max_packet_size != 0 && payload@.len() + 8 > u32::MAX ==> r == Err::<Vec<u8>, TxError>(
            TxError::FrameTooLong,
        ),
        max_packet_size != 0 && payload@.len() + 8 <= u32::MAX ==> r.is_ok() && r.unwrap()@
            == framed(payload@, max_packet_size as int, mss),
        r.is_ok() ==> r.unwrap()@.len() == payload@.len() + 8 && r.unwrap()@.subrange(
            8,
            payload@.len() + 8 as int,
        ) == payload@,
{
    if max_packet_size == 0 {
        return Err(TxError::NoPacketSize);
    }
    let n: usize = payload.len();
    if n > 0xffff_fff7 {
        return Err(TxError::FrameTooLong);
    }
    let len: u32 = n as u32;
    let header = match tx_header(len, max_packet_size, mss) {
        Ok(h) => h,
        Err(e) => {
            return Err(e);
        },
    };
    let prefix: [u8; 8] = header.prefix();
    let mut out: Vec<u8> = Vec::new();
    let mut i: usize = 0;
    while i < 8
        invariant
            i <= 8,
            out@ == prefix@.subrange(0, i as int),
        decreases 8 - i,
    {
        out.push(prefix[i]);
        i += 1;
        assert(out@ =~= prefix@.subrange(0, i as int));
    }
    assert(out@ =~= prefix@);
    i = 0;
    while i < n
        invariant
            i <= n,
            n == payload@.len(),
            out@ == prefix@ + payload@.subrange(0, i as int),
        decreases n - i,
    {
        out.push(payload[i]);
        i += 1;
        assert(out@ =~= prefix@ + payload@.subrange(0, i as int));
    }
    assert(out@ =~= framed(payload@, max_packet_size as int, mss));
    assert(out@.subrange(8, payload@.len() + 8 as int) =~= payload@);
    Ok(out)
}

/// Whether a frame must be brought into one piece before it is framed: it
/// lies in pieces, the interface hands out such frames, and the host
/// controller cannot gather them itself.
pub fn needs_linearize(fragmented: bool, scatter_gather: bool, can_dma_sg: bool) -> (need: bool)
    ensures
        need == (fragmented && scatter_gather && !can_dma_sg),
{
    fragmented && scatter_gather && !can_dma_sg
}

/// How room for the prefix is made in front of a frame.
#[derive(Clone, Copy, Debug, PartialEq, Eq, Structural)]
pub enum Headroom {
    /// The buffer has the room in front of the frame.
    InPlace,
    /// The buffer has the room, but not all of it in front: the frame is
    /// moved back within the buffer.
    Shift,
    /// The buffer lacks the room: the frame is copied into a new buffer with
    /// eight bytes in front of it.
    Reallocate,
}

/// How room is made for a frame with `headroom` free bytes in front of it
/// and `tailroom` behind it.
pub open spec fn headroom_plan(headroom: int, tailroom: int) -> Headroom {
    if headroom >= 8 {
        Headroom::InPlace
    } else if headroom + tailroom >= 8 {
        Headroom::Shift
    } else {
        Headroom::Reallocate
    }
}

/// Decides how room for the prefix is made.
pub fn plan_headroom(headroom: usize, tailroom: usize) -> (plan: Headroom)
    ensures
        plan == headroom_plan(headroom as int, tailroom as int),
{
    if headroom >= TX_PREFIX {
        Headroom::InPlace
    } else if tailroom >= TX_PREFIX - headroom {
        Headroom::Shift
    } else {
        Headroom::Reallocate
    }
}

/// The prefix to put in front of a frame of `len` bytes that lies ready in
/// a buffer of the stack, or the error for which the frame is given up.
///
/// `linearized` says whether a frame that had to be brought into one piece
/// was; `allocated` whether a buffer with room for the prefix could be had.
/// The errors, and the inputs on which they come, are those of `tx_fixup`;
/// the prefix is the first eight bytes of what `tx_fixup` gives.
pub fn tx_prefix(len: usize, max_packet_size: u32, mss: u16, linearized: bool, allocated: bool)
    -> (r: Result<[u8; 8], TxError>)
    ensures
        !linearized ==> r == Err::<[u8; 8], TxError>(TxError::Linearize),
        linearized && !allocated ==> r == Err::<[u8; 8], TxError>(TxError::Allocate),
        linearized && allocated && max_packet_size == 0 ==> r == Err::<[u8; 8], TxError>(
            TxError::NoPacketSize,
        ),
        linearized && allocated && max_packet_size != 0 && len + 8 > u32::MAX ==> r == Err::<
            [u8; 8],
            TxError,
        >(TxError::FrameTooLong),
        linearized && allocated && max_packet_size != 0 && len + 8 <= u32::MAX ==> r.is_ok()
            && r.unwrap()@ == prefix_for(len as int, max_packet_size as int, mss),
{
    if !linearized {
        return Err(TxError::Linearize);
    }
    if !allocated {
        return Err(TxError::Allocate);
    }
    if max_packet_size == 0 {
        return Err(TxError::NoPacketSize);
    }
    if len > 0xffff_fff7 {
        return Err(TxError::FrameTooLong);
    }
    match tx_header(len as u32, max_packet_size, mss) {
        Ok(h) => Ok(h.prefix()),
        Err(e) => Err(e),
    }
}

/// A framed buffer is the frame's prefix and the frame behind it.
pub proof fn lemma_framed_is_prefix_and_frame(frame: Seq<u8>, max_packet_size: int, mss: u16)
    ensures
        framed(frame, max_packet_size, mss) == prefix_for(
            frame.len() as int,
            max_packet_size,
            mss,
        ) + frame,
        framed(frame, max_packet_size, mss).subrange(0, 8) == prefix_for(
            frame.len() as int,
            max_packet_size,
            mss,
        ),
{
    let p = prefix_for(frame.len() as int, max_packet_size, mss);
    assert(p.len() == 8);
    assert(framed(frame, max_packet_size, mss) =~= p + frame);
    assert((p + frame).subrange(0, 8) =~= p);
}

/// What becomes of a frame on its way out: the outcome of the work that the
/// stack does for the framer, and the buffer if there is one.
///
/// `linearized` says whether a frame that had to be brought into one piece
/// was; `allocated` whether a new buffer, where one was needed, could be
/// had. A frame that fails either way is given up with a resource error,
/// and nothing is framed.
pub fn tx_fixup(
    payload: &[u8],
    max_packet_size: u32,
    mss: u16,
    linearized: bool,
    allocated: bool,
) -> (r: Result<Vec<u8>, TxError>)
    ensures
        !linearized ==> r == Err::<Vec<u8>, TxError>(TxError::Linearize),
        linearized && !allocated ==> r == Err::<Vec<u8>, TxError>(TxError::Allocate),
        linearized && allocated && max_packet_size == 0 ==> r == Err::<Vec<u8>, TxError>(
            TxError::NoPacketSize,
        ),
        linearized && allocated && max_packet_size != 0 && payload@.len() + 8 > u32::MAX ==> r
            == Err::<Vec<u8>, TxError>(TxError::FrameTooLong),
        linearized && allocated && max_packet_size != 0 && payload@.len() + 8 <= u32::MAX
            ==> r.is_ok() && r.unwrap()@ == framed(payload@, max_packet_size as int, mss),
{
    if !linearized {
        return Err(TxError::Linearize);
    }
    if !allocated {
        return Err(TxError::Allocate);
    }
    frame(payload, max_packet_size, mss)
}

} // verus!
