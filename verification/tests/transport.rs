use ax88179_178a::regs::{AX_ACCESS_MAC, AX_NODE_ID, AX_PHYPWR_RSTCTL};
use ax88179_178a::transport::{
    complete, decode_read, from_kernel_errno, into_kernel_errno, read_request, write_cmd,
    write_request, ControlRequest, Error, PowerMode, ReadValue, RequestError, WriteData,
    MAX_PAYLOAD, REQUEST_TYPE_READ, REQUEST_TYPE_WRITE,
};

#[test]
fn read_request_is_vendor_device_in() {
    let r = read_request(PowerMode::Normal, 0x02, 0x03, 0x11, 2);
    assert_eq!(
        r,
        ControlRequest {
            mode: PowerMode::Normal,
            request: 0x02,
            request_type: 0xC0,
            value: 0x03,
            index: 0x11,
            length: 2,
        }
    );
    assert_eq!(REQUEST_TYPE_READ, 0x80 | 0x40);
}

#[test]
fn write_request_is_vendor_device_out_and_counts_the_payload() {
    let r = write_request(PowerMode::NoPowerManagement, AX_ACCESS_MAC, AX_NODE_ID, 6, &[0u8; 6])
        .unwrap();
    assert_eq!(r.mode, PowerMode::NoPowerManagement);
    assert_eq!(r.request, 0x01);
    assert_eq!(r.request_type, REQUEST_TYPE_WRITE);
    assert_eq!(r.request_type, 0x40);
    assert_eq!(r.value, 0x10);
    assert_eq!(r.index, 6);
    assert_eq!(r.length, 6);
    assert_eq!(write_request(PowerMode::Normal, 0x91, 0, 0, &[]).unwrap().length, 0);
    assert_eq!(
        write_request(PowerMode::Normal, 1, 0, 0, &vec![0u8; 0xffff]).unwrap().length,
        0xffff
    );
}

#[test]
fn payload_that_the_length_field_cannot_count_is_refused() {
    assert_eq!(MAX_PAYLOAD, 65535);
    assert_eq!(
        write_request(PowerMode::Normal, 1, 0, 0, &vec![0u8; 0x1_0000]),
        Err(RequestError::PayloadTooLong)
    );
    assert_eq!(
        write_request(PowerMode::Normal, 1, 0, 0, &vec![0u8; 0x1_0005]),
        Err(RequestError::PayloadTooLong)
    );
    let long = write_cmd(PowerMode::Normal, 1, 0, 0, WriteData::Block(vec![0u8; 0x1_0000]));
    assert_eq!(long.err(), Some(RequestError::PayloadTooLong));
    let fits = write_cmd(PowerMode::Normal, 1, 0, 0, WriteData::Block(vec![1u8; 0xffff])).unwrap();
    assert_eq!(fits.request.length, 0xffff);
    assert_eq!(fits.payload, vec![1u8; 0xffff]);
}

#[test]
fn power_mode_follows_the_flag() {
    assert_eq!(PowerMode::from_flag(0), PowerMode::Normal);
    assert_eq!(PowerMode::from_flag(1), PowerMode::NoPowerManagement);
    assert_eq!(PowerMode::from_flag(-1), PowerMode::NoPowerManagement);
}

#[test]
fn negative_completion_is_an_error_to_warn_of() {
    let c = complete(-19);
    assert!(c.warn);
    assert_eq!(c.result, Err(Error { errno: -19 }));
    let c = complete(i32::MIN);
    assert!(c.warn);
    assert_eq!(c.result, Err(Error { errno: i32::MIN }));
}

#[test]
fn other_completions_count_the_bytes() {
    let c = complete(0);
    assert!(!c.warn);
    assert_eq!(c.result, Ok(0));
    let c = complete(6);
    assert!(!c.warn);
    assert_eq!(c.result, Ok(6));
}

#[test]
fn status_code_survives_the_way_into_a_result_and_back() {
    assert_eq!(from_kernel_errno(0), Ok(()));
    assert_eq!(from_kernel_errno(-5), Err(Error { errno: -5 }));
    assert_eq!(from_kernel_errno(7), Err(Error { errno: 7 }));
    for errno in [0, 1, -1, -5, -110, i32::MAX, i32::MIN] {
        assert_eq!(into_kernel_errno(from_kernel_errno(errno)), errno);
    }
    assert_eq!(into_kernel_errno(Ok(())), 0);
    assert_eq!(Error::from_kernel_errno(-22).to_kernel_errno(), -22);
}

#[test]
fn write_data_becomes_its_wire_bytes() {
    assert_eq!(WriteData::Nothing.value(), Vec::<u8>::new());
    assert_eq!(WriteData::Byte(0x03).value(), vec![0x03]);
    assert_eq!(WriteData::Half(0x0020).value(), vec![0x20, 0x00]);
    assert_eq!(WriteData::Half(0xabcd).value(), 0xabcdu16.to_le_bytes().to_vec());
    assert_eq!(WriteData::Word(0).value(), vec![0, 0, 0, 0]);
    assert_eq!(WriteData::Word(0x1122_3344).value(), 0x1122_3344u32.to_ne_bytes().to_vec());
    assert_eq!(WriteData::Block(vec![1, 2, 3, 4, 5, 6]).value(), vec![1, 2, 3, 4, 5, 6]);
}

#[test]
fn register_write_carries_request_and_payload() {
    let w = write_cmd(PowerMode::Normal, AX_ACCESS_MAC, AX_PHYPWR_RSTCTL, 2, WriteData::Half(0x0020))
        .unwrap();
    assert_eq!(w.payload, vec![0x20, 0x00]);
    assert_eq!(w.request.length, 2);
    assert_eq!(w.request.request, 0x01);
    assert_eq!(w.request.value, 0x26);
    assert_eq!(w.request.index, 2);
    assert_eq!(w.request.request_type, 0x40);
    let w = write_cmd(PowerMode::Normal, 0x81, 0x310, 0, WriteData::Word(0x0a0b_0c0d)).unwrap();
    assert_eq!(w.payload, 0x0a0b_0c0du32.to_ne_bytes().to_vec());
    assert_eq!(w.request.length, 4);
    let w = write_cmd(PowerMode::Normal, 0x06, 0, 0, WriteData::Nothing).unwrap();
    assert!(w.payload.is_empty());
    assert_eq!(w.request.length, 0);
}

#[test]
fn reads_of_two_and_four_bytes_are_decoded() {
    match decode_read(&[0x34, 0x12], 2, true) {
        ReadValue::Half(h) => assert_eq!(h, 0x1234),
        other => panic!("{:?}", other),
    }
    match decode_read(&[0x78, 0x56, 0x34, 0x12], 4, true) {
        ReadValue::Word(w) => assert_eq!(w, 0x1234_5678),
        other => panic!("{:?}", other),
    }
}

#[test]
fn other_reads_come_back_raw() {
    match decode_read(&[0x34, 0x12], 2, false) {
        ReadValue::Raw(v) => assert_eq!(v, vec![0x34, 0x12]),
        other => panic!("{:?}", other),
    }
    match decode_read(&[1, 2, 3, 4, 5, 6], 6, true) {
        ReadValue::Raw(v) => assert_eq!(v, vec![1, 2, 3, 4, 5, 6]),
        other => panic!("{:?}", other),
    }
    match decode_read(&[9], 1, true) {
        ReadValue::Raw(v) => assert_eq!(v, vec![9]),
        other => panic!("{:?}", other),
    }
}

#[test]
fn short_read_leaves_the_rest_zero() {
    match decode_read(&[0x34], 2, true) {
        ReadValue::Half(h) => assert_eq!(h, 0x0034),
        other => panic!("{:?}", other),
    }
    match decode_read(&[], 4, true) {
        ReadValue::Word(w) => assert_eq!(w, 0),
        other => panic!("{:?}", other),
    }
    match decode_read(&[1, 2, 3, 4, 5], 4, true) {
        ReadValue::Word(w) => assert_eq!(w, 0x0403_0201),
        other => panic!("{:?}", other),
    }
}
