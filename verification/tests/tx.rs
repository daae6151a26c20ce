use ax88179_178a::rx::{deframe, ChecksumTag};
use ax88179_178a::tx::{
    frame, needs_linearize, plan_headroom, tx_fixup, tx_header, tx_prefix, Headroom, TxError,
    TxHeader, TX_PADDING,
};

#[test]
fn small_frame_is_prefixed_and_not_padded() {
    let payload: Vec<u8> = (0..46u8).collect();
    let out = frame(&payload, 512, 0).unwrap();
    assert_eq!(out.len(), 54);
    assert_eq!(u32::from_le_bytes([out[0], out[1], out[2], out[3]]), 46);
    let hdr2 = u32::from_le_bytes([out[4], out[5], out[6], out[7]]);
    assert_eq!((46 + 8) % 512 == 0, hdr2 & TX_PADDING == TX_PADDING);
    assert_eq!(hdr2 & TX_PADDING, 0);
    assert_eq!(hdr2, 0);
    assert_eq!(&out[8..], &payload[..]);
}

#[test]
fn frame_that_fills_its_packets_asks_for_padding() {
    let payload = vec![0x5au8; 504];
    let out = frame(&payload, 512, 0).unwrap();
    assert_eq!(out.len(), 512);
    assert_eq!(&out[0..4], &504u32.to_le_bytes());
    assert_eq!(&out[4..8], &0x8000_8000u32.to_le_bytes());
    let out = frame(&payload, 1024, 0).unwrap();
    assert_eq!(&out[4..8], &0u32.to_le_bytes());
    let out = frame(&vec![1u8; 1016], 512, 0).unwrap();
    assert_eq!(&out[4..8], &0x8000_8000u32.to_le_bytes());
}

#[test]
fn segment_size_goes_into_the_second_word() {
    assert_eq!(tx_header(100, 512, 1448), Ok(TxHeader { hdr1: 100, hdr2: 1448 }));
    assert_eq!(tx_header(504, 512, 1448), Ok(TxHeader { hdr1: 504, hdr2: 1448 | 0x8000_8000 }));
    let out = frame(&[9u8; 10], 64, 0x1234).unwrap();
    assert_eq!(&out[0..8], &[10, 0, 0, 0, 0x34, 0x12, 0, 0]);
}

#[test]
fn empty_frame_is_a_bare_prefix() {
    let out = frame(&[], 512, 0).unwrap();
    assert_eq!(out, vec![0u8; 8]);
    let out = frame(&[], 8, 0).unwrap();
    assert_eq!(out, vec![0, 0, 0, 0, 0x00, 0x80, 0x00, 0x80]);
}

#[test]
fn endpoint_without_packet_size_is_refused() {
    assert_eq!(frame(&[1, 2, 3], 0, 0), Err(TxError::NoPacketSize));
    assert_eq!(tx_header(3, 0, 0), Err(TxError::NoPacketSize));
}

#[test]
fn failed_preparation_gives_a_resource_error() {
    let payload = [1u8, 2, 3];
    assert_eq!(tx_fixup(&payload, 512, 0, false, true), Err(TxError::Linearize));
    assert_eq!(tx_fixup(&payload, 512, 0, false, false), Err(TxError::Linearize));
    assert_eq!(tx_fixup(&payload, 512, 0, true, false), Err(TxError::Allocate));
    assert_eq!(tx_fixup(&payload, 0, 0, true, true), Err(TxError::NoPacketSize));
    assert_eq!(tx_fixup(&payload, 512, 0, true, true), frame(&payload, 512, 0));
    assert_eq!(tx_fixup(&payload, 512, 0, true, true).unwrap().len(), 11);
}

#[test]
fn headroom_decides_where_the_prefix_goes() {
    assert_eq!(plan_headroom(8, 0), Headroom::InPlace);
    assert_eq!(plan_headroom(64, 3), Headroom::InPlace);
    assert_eq!(plan_headroom(7, 1), Headroom::Shift);
    assert_eq!(plan_headroom(0, 8), Headroom::Shift);
    assert_eq!(plan_headroom(0, usize::MAX), Headroom::Shift);
    assert_eq!(plan_headroom(7, 0), Headroom::Reallocate);
    assert_eq!(plan_headroom(3, 4), Headroom::Reallocate);
    assert_eq!(plan_headroom(0, 0), Headroom::Reallocate);
}

#[test]
fn only_scattered_frames_without_dma_support_are_linearized() {
    assert!(needs_linearize(true, true, false));
    assert!(!needs_linearize(true, true, true));
    assert!(!needs_linearize(true, false, false));
    assert!(!needs_linearize(false, true, false));
}

#[test]
fn framed_then_deframed_frame_comes_back_unchanged() {
    let payload: Vec<u8> = (0..=255u8).cycle().take(1514).collect();
    let tx = frame(&payload, 1024, 0).unwrap();
    let carried = &tx[8..];
    let mut rx: Vec<u8> = carried.to_vec();
    while rx.len() % 8 != 0 {
        rx.push(0);
    }
    let first = rx.len() as u16;
    rx.extend_from_slice(&(((carried.len() as u32) << 16) | 0x10).to_le_bytes());
    rx.extend_from_slice(&1u16.to_le_bytes());
    rx.extend_from_slice(&first.to_le_bytes());
    let out = deframe(&rx, false);
    assert_eq!(out.error, None);
    assert_eq!(out.frames.len(), 1);
    assert_eq!(out.frames[0].payload, payload);
    assert_eq!(out.frames[0].checksum, ChecksumTag::Unnecessary);
    assert_eq!(out.dropped, 0);
    assert_eq!(out.consumed, 1520);
}

#[test]
fn prefix_is_the_first_word_then_the_second() {
    let h = TxHeader { hdr1: 0x0102_0304, hdr2: 0x8000_8abc };
    assert_eq!(h.prefix(), [0x04, 0x03, 0x02, 0x01, 0xbc, 0x8a, 0x00, 0x80]);
    assert_eq!(TxHeader { hdr1: 46, hdr2: 0 }.prefix(), [46, 0, 0, 0, 0, 0, 0, 0]);
}

#[test]
fn prefix_alone_is_what_stands_in_front_of_the_framed_frame() {
    for (len, max, mss) in [(46usize, 512u32, 0u16), (504, 512, 0), (1514, 1024, 1448), (0, 8, 0)] {
        let payload = vec![0xa5u8; len];
        let framed = frame(&payload, max, mss).unwrap();
        assert_eq!(tx_prefix(len, max, mss, true, true).unwrap(), framed[..8]);
    }
    assert_eq!(tx_prefix(10, 512, 0, false, true), Err(TxError::Linearize));
    assert_eq!(tx_prefix(10, 512, 0, true, false), Err(TxError::Allocate));
    assert_eq!(tx_prefix(10, 0, 0, true, true), Err(TxError::NoPacketSize));
    assert_eq!(tx_prefix(0xffff_fff8, 512, 0, true, true), Err(TxError::FrameTooLong));
    assert!(tx_prefix(0xffff_fff7, 512, 0, true, true).is_ok());
}
