use ax88179_178a::rx::{deframe, ChecksumTag, PacketHeader, ProtocolError, RxCounters};

const TCP: u32 = 0x10;
const UDP: u32 = 0x04;
const L4_ERR: u32 = 0x01;
const L3_ERR: u32 = 0x02;
const CRC_ERR: u32 = 0x2000_0000;
const DROP_ERR: u32 = 0x8000_0000;

/// Builds a received buffer: each packet padded to eight bytes, then the
/// headers, then the trailer.
fn buffer(packets: &[(Vec<u8>, u32)]) -> Vec<u8> {
    let mut buf: Vec<u8> = Vec::new();
    for (payload, _) in packets {
        buf.extend_from_slice(payload);
        while buf.len() % 8 != 0 {
            buf.push(0xee);
        }
    }
    let first = buf.len() as u16;
    for (payload, flags) in packets {
        let word: u32 = ((payload.len() as u32) << 16) | flags;
        buf.extend_from_slice(&word.to_le_bytes());
    }
    buf.extend_from_slice(&(packets.len() as u16).to_le_bytes());
    buf.extend_from_slice(&first.to_le_bytes());
    buf
}

fn bytes(n: usize, seed: u8) -> Vec<u8> {
    (0..n).map(|i| (i as u8).wrapping_mul(7).wrapping_add(seed)).collect()
}

#[test]
fn no_packets_gives_no_frames() {
    let out = deframe(&[0, 0, 0, 0], false);
    assert!(out.frames.is_empty());
    assert_eq!(out.error, None);
    assert_eq!(out.dropped, 0);
    assert_eq!(out.consumed, 0);
    assert_eq!(out.rx_errors(), 0);
}

#[test]
fn no_packets_does_not_look_at_the_body() {
    let mut buf = vec![0xffu8; 24];
    buf.extend_from_slice(&[0, 0, 8, 0]);
    let out = deframe(&buf, false);
    assert!(out.frames.is_empty());
    assert_eq!(out.error, None);
    assert_eq!(out.consumed, 0);
}

#[test]
fn dropped_packet_gives_no_frame_and_is_passed_over() {
    let buf = buffer(&[(bytes(61, 1), DROP_ERR | TCP)]);
    let out = deframe(&buf, false);
    assert!(out.frames.is_empty());
    assert_eq!(out.error, None);
    assert_eq!(out.dropped, 1);
    assert_eq!(out.consumed, (61 + 7) & !7);
    assert_eq!(out.consumed, 64);
}

#[test]
fn crc_error_drops_the_packet_in_silence() {
    let good = bytes(20, 3);
    let buf = buffer(&[(bytes(9, 1), CRC_ERR), (good.clone(), UDP)]);
    let out = deframe(&buf, false);
    assert_eq!(out.error, None);
    assert_eq!(out.rx_errors(), 0);
    assert_eq!(out.dropped, 1);
    assert_eq!(out.frames.len(), 1);
    assert_eq!(out.frames[0].payload, good);
    assert_eq!(out.consumed, 16 + 24);
}

#[test]
fn two_valid_packets_give_two_frames() {
    let first = bytes(64, 1);
    let second = bytes(128, 2);
    let buf = buffer(&[(first.clone(), TCP), (second.clone(), UDP)]);
    let out = deframe(&buf, false);
    assert_eq!(out.error, None);
    assert_eq!(out.frames.len(), 2);
    assert_eq!(out.frames[0].checksum, ChecksumTag::Unnecessary);
    assert_eq!(out.frames[1].checksum, ChecksumTag::Unnecessary);
    assert_eq!(out.frames[0].payload.len(), 64);
    assert_eq!(out.frames[1].payload.len(), 128);
    assert_eq!(out.frames[0].payload, first);
    assert_eq!(out.frames[1].payload, second);
    assert_eq!(out.frames[0].offset, 0);
    assert_eq!(out.frames[1].offset, 64);
    assert_eq!(out.dropped, 0);
    assert_eq!(out.consumed, 192);
}

#[test]
fn empty_buffer_is_an_error() {
    let out = deframe(&[], false);
    assert_eq!(out.error, Some(ProtocolError::EmptyBuffer));
    assert!(out.frames.is_empty());
    assert_eq!(out.rx_errors(), 1);
}

#[test]
fn buffer_shorter_than_a_trailer_is_malformed() {
    for n in 1..4usize {
        let out = deframe(&vec![0u8; n], false);
        assert_eq!(out.error, Some(ProtocolError::MalformedTrailer));
        assert!(out.frames.is_empty());
    }
}

#[test]
fn header_offset_behind_the_body_is_malformed() {
    let mut buf = vec![0u8; 8];
    buf.extend_from_slice(&1u16.to_le_bytes());
    buf.extend_from_slice(&9u16.to_le_bytes());
    let out = deframe(&buf, false);
    assert_eq!(out.error, Some(ProtocolError::MalformedTrailer));
    assert!(out.frames.is_empty());
    assert_eq!(out.rx_errors(), 1);
}

#[test]
fn missing_header_ends_the_buffer_after_the_frames_before_it() {
    let good = bytes(10, 5);
    let mut buf = buffer(&[(good.clone(), TCP)]);
    let at = buf.len() - 4;
    buf[at] = 3;
    let out = deframe(&buf, false);
    assert_eq!(out.error, Some(ProtocolError::HeaderOutOfRange));
    assert_eq!(out.frames.len(), 1);
    assert_eq!(out.frames[0].payload, good);
    assert_eq!(out.rx_errors(), 1);
}

#[test]
fn frame_behind_the_body_is_out_of_range() {
    let mut buf: Vec<u8> = vec![1, 2, 3, 4, 5, 6, 7, 8];
    buf.extend_from_slice(&((100u32 << 16) | TCP).to_le_bytes());
    buf.extend_from_slice(&1u16.to_le_bytes());
    buf.extend_from_slice(&8u16.to_le_bytes());
    let out = deframe(&buf, false);
    assert_eq!(out.error, Some(ProtocolError::PayloadOutOfRange));
    assert!(out.frames.is_empty());
    assert_eq!(out.consumed, 0);
}

#[test]
fn alignment_header_is_left_out_of_the_frame() {
    let mut packet = vec![0u8, 0u8];
    let frame = bytes(30, 9);
    packet.extend_from_slice(&frame);
    let buf = buffer(&[(packet, UDP)]);
    let out = deframe(&buf, true);
    assert_eq!(out.error, None);
    assert_eq!(out.frames.len(), 1);
    assert_eq!(out.frames[0].payload, frame);
    assert_eq!(out.frames[0].offset, 2);
    assert_eq!(out.consumed, 32);
}

#[test]
fn frame_too_short_for_the_alignment_header_is_handed_on_as_it_is() {
    let buf = buffer(&[(vec![7u8], TCP), (vec![0, 0, 5, 6], UDP), (vec![], TCP)]);
    let out = deframe(&buf, true);
    assert_eq!(out.error, None);
    assert_eq!(out.frames.len(), 3);
    assert_eq!(out.frames[0].payload, vec![7u8]);
    assert_eq!(out.frames[0].offset, 0);
    assert_eq!(out.frames[1].payload, vec![5u8, 6]);
    assert_eq!(out.frames[1].offset, 10);
    assert_eq!(out.frames[2].payload, Vec::<u8>::new());
    assert_eq!(out.frames[2].offset, 16);
    let out = deframe(&buf, false);
    assert_eq!(out.error, None);
    assert_eq!(out.frames[0].payload, vec![7u8]);
    assert_eq!(out.frames[1].payload, vec![0u8, 0, 5, 6]);
}

#[test]
fn checksum_tag_follows_type_and_error_bits() {
    let cases: [(u32, ChecksumTag); 8] = [
        (TCP, ChecksumTag::Unnecessary),
        (UDP, ChecksumTag::Unnecessary),
        (0, ChecksumTag::NotChecked),
        (0x08, ChecksumTag::NotChecked),
        (0x14, ChecksumTag::NotChecked),
        (TCP | L4_ERR, ChecksumTag::NotChecked),
        (UDP | L3_ERR, ChecksumTag::NotChecked),
        (TCP | L3_ERR | L4_ERR, ChecksumTag::NotChecked),
    ];
    for (flags, tag) in cases {
        let buf = buffer(&[(bytes(12, 0), flags)]);
        let out = deframe(&buf, false);
        assert_eq!(out.frames.len(), 1);
        assert_eq!(out.frames[0].checksum, tag);
        assert_eq!(PacketHeader::decode((12 << 16) | flags).checksum_tag(), tag);
    }
}

#[test]
fn header_fields_are_taken_from_their_bits() {
    let h = PacketHeader::decode(0xffff_ffff);
    assert!(h.drop_error && h.crc_error && h.l3_checksum_error && h.l4_checksum_error);
    assert_eq!(h.length, 8191);
    assert_eq!(h.l4_type, 7);
    assert_eq!(h.padded_length(), 8192);
    let h = PacketHeader::decode(0x0040_0010);
    assert!(!h.drop_error && !h.crc_error && !h.l3_checksum_error && !h.l4_checksum_error);
    assert_eq!(h.length, 64);
    assert_eq!(h.l4_type, 4);
    assert!(!h.is_dropped());
    let h = PacketHeader::decode(0x4000_0000);
    assert!(!h.is_dropped());
    assert_eq!(h.length, 0);
    assert!(PacketHeader::decode(0x2000_0000).is_dropped());
    assert!(PacketHeader::decode(0x8000_0000).is_dropped());
}

#[test]
fn padded_length_rounds_up_to_eight() {
    for (len, room) in [(0u32, 0usize), (1, 8), (7, 8), (8, 8), (9, 16), (1514, 1520)] {
        assert_eq!(PacketHeader::decode(len << 16).padded_length(), room);
    }
}

#[test]
fn frames_and_drops_account_for_every_packet() {
    let buf = buffer(&[
        (bytes(5, 1), TCP),
        (bytes(17, 2), DROP_ERR),
        (bytes(8, 3), 0),
        (bytes(3, 4), CRC_ERR | UDP),
    ]);
    let out = deframe(&buf, false);
    assert_eq!(out.error, None);
    assert_eq!(out.frames.len() + out.dropped, 4);
    assert_eq!(out.frames.len(), 2);
    assert_eq!(out.frames[0].payload, bytes(5, 1));
    assert_eq!(out.frames[1].payload, bytes(8, 3));
    assert_eq!(out.frames[1].offset, 32);
    assert_eq!(out.consumed, 8 + 24 + 8 + 8);
}

#[test]
fn counters_take_errors_and_drops() {
    let mut counters = RxCounters::new();
    assert_eq!(counters, RxCounters { rx_errors: 0, rx_dropped: 0 });
    counters = counters.record(&deframe(&[], false));
    assert_eq!(counters, RxCounters { rx_errors: 1, rx_dropped: 0 });
    let buf = buffer(&[(bytes(5, 1), DROP_ERR), (bytes(5, 2), CRC_ERR), (bytes(5, 3), TCP)]);
    counters = counters.record(&deframe(&buf, false));
    assert_eq!(counters, RxCounters { rx_errors: 1, rx_dropped: 2 });
    counters = counters.record(&deframe(&[0, 0, 0, 0], false));
    assert_eq!(counters, RxCounters { rx_errors: 1, rx_dropped: 2 });
    let full = RxCounters { rx_errors: u64::MAX, rx_dropped: u64::MAX - 1 };
    let after = full.record(&deframe(&buf[..buf.len() - 1], false));
    assert_eq!(after.rx_errors, u64::MAX);
    let after = full.record(&deframe(&buf, false));
    assert_eq!(after, RxCounters { rx_errors: u64::MAX, rx_dropped: u64::MAX });
}
