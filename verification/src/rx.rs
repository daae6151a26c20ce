//! Packet deframer: one received bulk-IN buffer in, the Ethernet frames it
//! carries out.
//!
//! A buffer ends in a four-byte trailer holding the number of packets and the
//! offset of the first packet header. The headers, four bytes each, stand one
//! after another from that offset; the payloads stand one after another from
//! the start of the buffer, each padded to a multiple of eight bytes.

use vstd::prelude::*;
use crate::codec::{decode_u16, decode_u32, le16_value, le32_value};

verus! {

/// Largest frame length that a packet header can express (13 bits).
pub const RX_MAX_LENGTH: u16 = 8191;

/// What the adapter says of a frame's transport checksum.
#[derive(Clone, Copy, Debug, PartialEq, Eq, Structural)]
pub enum ChecksumTag {
    /// The adapter did not vouch for the checksum: the stack must check it.
    NotChecked,
    /// The adapter found the checksum valid: the stack need not check it.
    Unnecessary,
}

/// Why a buffer could not be taken apart, or not to its end.
#[derive(Clone, Copy, Debug, PartialEq, Eq, Structural)]
pub enum ProtocolError {
    /// The buffer holds no byte at all.
    EmptyBuffer,
    /// The buffer is too short for a trailer, or the trailer's header offset
    /// points behind the buffer's body.
    MalformedTrailer,
    /// A packet header would lie outside the buffer's body.
    HeaderOutOfRange,
    /// A frame's bytes would lie outside the buffer's body.
    PayloadOutOfRange,
}

/// The fields of a packet header.
#[derive(Clone, Copy, Debug, PartialEq, Eq, Structural)]
pub struct PacketHeader {
    /// Bit 31: the adapter asks for the packet to be dropped.
    pub drop_error: bool,
    /// Bit 29: the frame's CRC was wrong.
    pub crc_error: bool,
    /// Bits 16 to 28: the frame's length in bytes.
    pub length: u16,
    /// Bits 2 to 4: the layer-4 protocol.
    pub l4_type: u8,
    /// Bit 1: the layer-3 checksum was wrong.
    pub l3_checksum_error: bool,
    /// Bit 0: the layer-4 checksum was wrong.
    pub l4_checksum_error: bool,
}

/// Layer-4 type of a UDP packet.
pub const L4_TYPE_UDP: u8 = 1;

/// Layer-4 type of a TCP packet.
pub const L4_TYPE_TCP: u8 = 4;

/// The header that a 32-bit word spells.
pub open spec fn header_of(word: u32) -> PacketHeader {
    PacketHeader {
        drop_error: word / 0x8000_0000 == 1,
        crc_error: word / 0x2000_0000 % 2 == 1,
        length: (word / 0x1_0000 % 0x2000) as u16,
        l4_type: (word / 4 % 8) as u8,
        l3_checksum_error: word / 2 % 2 == 1,
        l4_checksum_error: word % 2 == 1,
    }
}

/// `n` rounded up to a multiple of eight.
pub open spec fn align8(n: int) -> int {
    (n + 7) / 8 * 8
}

/// The tag of a frame with header `h`: the checksum needs no second look
/// exactly when the packet is TCP or UDP and the adapter found no checksum
/// error.
pub open spec fn tag_of(h: PacketHeader) -> ChecksumTag {
    if (h.l4_type == L4_TYPE_TCP || h.l4_type == L4_TYPE_UDP) && !h.l3_checksum_error
        && !h.l4_checksum_error {
        ChecksumTag::Unnecessary
    } else {
        ChecksumTag::NotChecked
    }
}

impl PacketHeader {
    /// Takes a header word apart.
    pub fn decode(word: u32) -> (h: PacketHeader)
        ensures
            h == header_of(word),
            h.length <= RX_MAX_LENGTH,
            h.l4_type < 8,
    {
        PacketHeader {
            drop_error: word / 0x8000_0000 == 1,
            crc_error: word / 0x2000_0000 % 2 == 1,
            length: (word / 0x1_0000 % 0x2000) as u16,
            l4_type: (word / 4 % 8) as u8,
            l3_checksum_error: word / 2 % 2 == 1,
            l4_checksum_error: word % 2 == 1,
        }
    }

    /// Whether the packet is to be dropped without a word: its CRC was wrong,
    /// or the adapter marked it so.
    pub fn is_dropped(&self) -> (d: bool)
        ensures
            d == (self.crc_error || self.drop_error),
    {
        self.crc_error || self.drop_error
    }

    /// The checksum tag of the frame that this header describes.
    pub fn checksum_tag(&self) -> (tag: ChecksumTag)
        ensures
            tag == tag_of(*self),
    {
        if (self.l4_type == L4_TYPE_TCP || self.l4_type == L4_TYPE_UDP) && !self.l3_checksum_error
            && !self.l4_checksum_error {
            ChecksumTag::Unnecessary
        } else {
            ChecksumTag::NotChecked
        }
    }

    /// The room that the packet takes in the buffer: its length rounded up to
    /// a multiple of eight.
    pub fn padded_length(&self) -> (n: usize)
        requires
            self.length <= RX_MAX_LENGTH,
        ensures
            n == align8(self.length as int),
            self.length <= n < self.length + 8,
            n <= 8192,
    {
        let len: usize = self.length as usize;
        (len + 7) / 8 * 8
    }
}

/// An Ethernet frame as it is handed to the network stack.
#[derive(Debug)]
pub struct Frame {
    /// The frame's bytes.
    pub payload: Vec<u8>,
    /// What the adapter says of the frame's checksum.
    pub checksum: ChecksumTag,
    /// Where the frame's bytes start in the buffer that it came in.
    pub offset: usize,
}

/// A frame as a mathematical value.
pub struct FrameView {
    pub payload: Seq<u8>,
    pub checksum: ChecksumTag,
    pub offset: nat,
}

impl View for Frame {
    type V = FrameView;

    open spec fn view(&self) -> FrameView {
        FrameView { payload: self.payload@, checksum: self.checksum, offset: self.offset as nat }
    }
}

/// The views of a sequence of frames.
pub open spec fn frame_views(frames: Seq<Frame>) -> Seq<FrameView> {
    Seq::new(frames.len(), |i: int| frames[i]@)
}

/// How far a buffer has been taken apart.
pub struct RxTrace {
    /// The frames delivered so far, in the order of their headers.
    pub frames: Seq<FrameView>,
    /// The number of packets dropped so far for a CRC or drop mark.
    pub dropped: nat,
    /// The bytes of payload passed so far.
    pub consumed: nat,
    /// The error that ended the work, if one did.
    pub error: Option<ProtocolError>,
}

/// The word that the four bytes at `at` spell.
pub open spec fn word_at(buf: Seq<u8>, at: int) -> u32
    recommends
        0 <= at,
        at + 4 <= buf.len(),
{
    le32_value(buf.subrange(at, at + 4)) as u32
}

/// The half word that the two bytes at `at` spell.
pub open spec fn half_at(buf: Seq<u8>, at: int) -> u16
    recommends
        0 <= at,
        at + 2 <= buf.len(),
{
    le16_value(buf.subrange(at, at + 2)) as u16
}

/// Nothing taken apart yet.
pub open spec fn rx_start() -> RxTrace {
    RxTrace { frames: Seq::empty(), dropped: 0, consumed: 0, error: None }
}

/// A trace that ends at once with `e`.
pub open spec fn rx_failed(e: ProtocolError) -> RxTrace {
    RxTrace { frames: Seq::empty(), dropped: 0, consumed: 0, error: Some(e) }
}

/// The bytes left out at the start of a frame of `length` bytes: the two of
/// the alignment pseudo header where it is to be skipped, and none where
/// the frame is too short to hold it, which is then handed on as it is.
pub open spec fn skipped(skip: bool, length: int) -> int {
    if skip && length >= 2 {
        2
    } else {
        0
    }
}

/// The trace `t` after the packet with header number `k`, in a buffer whose
/// body (all but the trailer) has `body` bytes and whose headers start at
/// `first`. With `skip` set, the two bytes of the alignment pseudo header are
/// left out of each frame that is long enough to hold them.
pub open spec fn rx_step(buf: Seq<u8>, skip: bool, body: int, first: int, k: int, t: RxTrace)
    -> RxTrace {
    let at = first + 4 * k;
    if t.error.is_some() {
        t
    } else if at + 4 > body {
        RxTrace { error: Some(ProtocolError::HeaderOutOfRange), ..t }
    } else {
        let h = header_of(word_at(buf, at));
        let next = (t.consumed + align8(h.length as int)) as nat;
        if h.crc_error || h.drop_error {
            RxTrace { dropped: t.dropped + 1, consumed: next, ..t }
        } else if t.consumed + h.length > body {
            RxTrace { error: Some(ProtocolError::PayloadOutOfRange), ..t }
        } else {
            let from = t.consumed + skipped(skip, h.length as int);
            let frame = FrameView {
                payload: buf.subrange(from, t.consumed + h.length),
                checksum: tag_of(h),
                offset: from as nat,
            };
            RxTrace { frames: t.frames.push(frame), consumed: next, ..t }
        }
    }
}

/// The trace after the first `k` packets.
pub open spec fn rx_trace(buf: Seq<u8>, skip: bool, body: int, first: int, k: nat) -> RxTrace
    decreases k,
{
    if k == 0 {
        rx_start()
    } else {
        rx_step(buf, skip, body, first, k - 1, rx_trace(buf, skip, body, first, (k - 1) as nat))
    }
}

/// What taking `buf` apart gives. An empty buffer, one too short for its
/// trailer and one whose trailer points behind the body give no frame and an
/// error. Otherwise the packets are taken in the order of their headers, as
/// many as the trailer counts, up to the first that is out of range.
pub open spec fn deframed(buf: Seq<u8>, skip: bool) -> RxTrace {
    if buf.len() == 0 {
        rx_failed(ProtocolError::EmptyBuffer)
    } else if buf.len() < 4 {
        rx_failed(ProtocolError::MalformedTrailer)
    } else {
        let body = buf.len() - 4;
        let count = half_at(buf, body);
        let first = half_at(buf, body + 2);
        if first > body {
            rx_failed(ProtocolError::MalformedTrailer)
        } else {
            rx_trace(buf, skip, body, first as int, count as nat)
        }
    }
}

/// Once a trace has ended with an error, further packets change nothing.
pub proof fn lemma_rx_error_is_final(
    buf: Seq<u8>,
    skip: bool,
    body: int,
    first: int,
    j: nat,
    k: nat,
)
    requires
        j <= k,
        rx_trace(buf, skip, body, first, j).error.is_some(),
    ensures
        rx_trace(buf, skip, body, first, k) == rx_trace(buf, skip, body, first, j),
    decreases k,
{
    if j < k {
        lemma_rx_error_is_final(buf, skip, body, first, j, (k - 1) as nat);
    }
}

/// A trace accounts for each packet at most once, and passes at most 8192
/// bytes for each.
pub proof fn lemma_rx_trace_bounds(buf: Seq<u8>, skip: bool, body: int, first: int, k: nat)
    ensures
        rx_trace(buf, skip, body, first, k).frames.len() + rx_trace(
            buf,
            skip,
            body,
            first,
            k,
        ).dropped <= k,
        rx_trace(buf, skip, body, first, k).consumed <= 8192 * k,
    decreases k,
{
    if k > 0 {
        lemma_rx_trace_bounds(buf, skip, body, first, (k - 1) as nat);
        let h = header_of(word_at(buf, first + 4 * (k - 1)));
        assert(h.length <= 8191);
        assert(align8(h.length as int) <= 8192);
    }
}

/// What one bulk-IN buffer gave.
#[derive(Debug)]
pub struct Deframed {
    /// The frames to deliver, in the order of their headers.
    pub frames: Vec<Frame>,
    /// The number of packets dropped for a CRC or drop mark.
    pub dropped: usize,
    /// The bytes of payload passed.
    pub consumed: usize,
    /// The error that ended the work, if one did. The frames before it are
    /// still delivered.
    pub error: Option<ProtocolError>,
}

impl View for Deframed {
    type V = RxTrace;

    open spec fn view(&self) -> RxTrace {
        RxTrace {
            frames: frame_views(self.frames@),
            dropped: self.dropped as nat,
            consumed: self.consumed as nat,
            error: self.error,
        }
    }
}

impl Deframed {
    /// The number of error events to add to the receive-error counter: one
    /// for a buffer that ended with an error, whatever it held, else none.
    pub fn rx_errors(&self) -> (n: u32)
        ensures
            n == if self.error.is_some() { 1u32 } else { 0u32 },
    {
        if self.error.is_some() {
            1
        } else {
            0
        }
    }
}

/// The bytes of `buf` from `from` up to `to`, copied.
fn copy_range(buf: &[u8], from: usize, to: usize) -> (out: Vec<u8>)
    requires
        from <= to <= buf@.len(),
    ensures
        out@ == buf@.subrange(from as int, to as int),
{
    let mut out: Vec<u8> = Vec::new();
    let mut i: usize = from;
    while i < to
        invariant
            from <= i <= to <= buf@.len(),
            out@ == buf@.subrange(from as int, i as int),
        decreases to - i,
    {
        out.push(buf[i]);
        i += 1;
        assert(out@ =~= buf@.subrange(from as int, i as int));
    }
    out
}

/// Reads the little-endian word at `at`.
fn read_word(buf: &[u8], at: usize) -> (word: u32)
    requires
        at + 4 <= buf@.len(),
    ensures
        word == word_at(buf@, at as int),
{
    let bytes: [u8; 4] = [buf[at], buf[at + 1], buf[at + 2], buf[at + 3]];
    assert(bytes@ =~= buf@.subrange(at as int, at + 4));
    decode_u32(bytes)
}

/// Reads the little-endian half word at `at`.
fn read_half(buf: &[u8], at: usize) -> (half: u16)
    requires
        at + 2 <= buf@.len(),
    ensures
        half == half_at(buf@, at as int),
{
    let bytes: [u8; 2] = [buf[at], buf[at + 1]];
    assert(bytes@ =~= buf@.subrange(at as int, at + 2));
    decode_u16(bytes)
}

/// Takes one received buffer apart into its frames.
///
/// `skip_alignment` says whether each frame starts with the two-byte
/// alignment pseudo header, which is then left out of the delivered frame;
/// a frame too short to hold it is delivered as it is.
/// Packets marked with a CRC or drop error are passed over and counted.
/// The first header or frame that does not fit the buffer ends the work with
/// an error; the frames before it are delivered all the same.
pub fn deframe(buf: &[u8], skip_alignment: bool) -> (out: Deframed)
    ensures
        out@ == deframed(buf@, skip_alignment),
        out.frames@.len() == deframed(buf@, skip_alignment).frames.len(),
        forall|i: int|
            0 <= i < out.frames@.len() ==> (#[trigger] out.frames@[i])@ == deframed(
                buf@,
                skip_alignment,
            ).frames[i],
        out.error.is_none() ==> buf@.len() >= 4 && out.frames@.len() + out.dropped == half_at(
            buf@,
            buf@.len() - 4,
        ),
{
    let len: usize = buf.len();
    if len == 0 {
        let out = Deframed {
            frames: Vec::new(),
            dropped: 0,
            consumed: 0,
            error: Some(ProtocolError::EmptyBuffer),
        };
        assert(out@.frames =~= Seq::empty());
        return out;
    }
    if len < 4 {
        let out = Deframed {
            frames: Vec::new(),
            dropped: 0,
            consumed: 0,
            error: Some(ProtocolError::MalformedTrailer),
        };
        assert(out@.frames =~= Seq::empty());
        return out;
    }
    let body: usize = len - 4;
    let count: u16 = read_half(buf, body);
    let first: u16 = read_half(buf, body + 2);
    if first as usize > body {
        let out = Deframed {
            frames: Vec::new(),
            dropped: 0,
            consumed: 0,
            error: Some(ProtocolError::MalformedTrailer),
        };
        assert(out@.frames =~= Seq::empty());
        return out;
    }
    let mut out = Deframed { frames: Vec::new(), dropped: 0, consumed: 0, error: None };
    assert(out@.frames =~= Seq::empty());
    let mut k: u16 = 0;
    while k < count && out.error.is_none()
        invariant
            k <= count,
            body + 4 == buf@.len(),
            first <= body,
            out@ == rx_trace(buf@, skip_alignment, body as int, first as int, k as nat),
            out.error.is_none() ==> out.frames@.len() + out.dropped == k,
            out.consumed <= 8192 * k,
        decreases count - k,
    {
        let ghost before = out@;
        let at: usize = first as usize + 4 * (k as usize);
        if at + 4 > body {
            out.error = Some(ProtocolError::HeaderOutOfRange);
        } else {
            let h = PacketHeader::decode(read_word(buf, at));
            let room: usize = h.padded_length();
            let len: usize = h.length as usize;
            if h.is_dropped() {
                out.dropped = out.dropped + 1;
                out.consumed = out.consumed + room;
            } else if out.consumed + len > body {
                out.error = Some(ProtocolError::PayloadOutOfRange);
            } else {
                let from: usize = if skip_alignment && len >= 2 {
                    out.consumed + 2
                } else {
                    out.consumed
                };
                let payload = copy_range(buf, from, out.consumed + len);
                let frame = Frame { payload, checksum: h.checksum_tag(), offset: from };
                out.frames.push(frame);
                out.consumed = out.consumed + room;
                assert(out@.frames =~= before.frames.push(frame@));
            }
        }
        assert(out@.frames =~= rx_step(
            buf@,
            skip_alignment,
            body as int,
            first as int,
            k as int,
            before,
        ).frames);
        k = k + 1;
    }
    proof {
        if k < count {
            lemma_rx_error_is_final(
                buf@,
                skip_alignment,
                body as int,
                first as int,
                k as nat,
                count as nat,
            );
        }
    }
    out
}

/// The receive counters of an interface: plain numbers that only grow.
#[derive(Clone, Copy, Debug, PartialEq, Eq, Structural)]
pub struct RxCounters {
    /// Buffers that ended with an error.
    pub rx_errors: u64,
    /// Packets dropped for a CRC or drop mark.
    pub rx_dropped: u64,
}

/// `a + b`, or the largest count where the sum is behind it.
pub open spec fn capped_sum(a: u64, b: int) -> u64 {
    if a + b <= u64::MAX {
        (a + b) as u64
    } else {
        u64::MAX
    }
}

impl RxCounters {
    /// Counters at zero.
    pub fn new() -> (c: RxCounters)
        ensures
            c == (RxCounters { rx_errors: 0, rx_dropped: 0 }),
    {
        RxCounters { rx_errors: 0, rx_dropped: 0 }
    }

    /// The counters after a buffer: one more error if the buffer ended with
    /// one, and as many more drops as it had. A counter that is full stays
    /// full.
    pub fn record(self, out: &Deframed) -> (c: RxCounters)
        ensures
            c.rx_errors == capped_sum(
                self.rx_errors,
                if out.error.is_some() {
                    1
                } else {
                    0
                },
            ),
            c.rx_dropped == capped_sum(self.rx_dropped, out.dropped as int),
    {
        let errors: u64 = out.rx_errors() as u64;
        let dropped: u64 = out.dropped as u64;
        RxCounters {
            rx_errors: if self.rx_errors <= u64::MAX - errors {
                self.rx_errors + errors
            } else {
                u64::MAX
            },
            rx_dropped: if self.rx_dropped <= u64::MAX - dropped {
                self.rx_dropped + dropped
            } else {
                u64::MAX
            },
        }
    }
}

} // verus!
