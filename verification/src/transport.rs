//! Register transport: the vendor control requests that reach the adapter's
//! registers, and what their completion codes mean.
//!
//! The transfer itself is the USB stack's work. This module says what is put
//! on the wire for a register operation and how the code that the stack hands
//! back is read.

use vstd::prelude::*;
use crate::codec::{be32, decode_u16, decode_u32, encode_u16, le16, le16_value, le32, le32_value};

verus! {

/// Request type of a register read: device to host, vendor, device.
pub const REQUEST_TYPE_READ: u8 = 0xC0;

/// Request type of a register write: host to device, vendor, device.
pub const REQUEST_TYPE_WRITE: u8 = 0x40;

/// Which path of the USB stack a register operation takes.
#[derive(Clone, Copy, Debug, PartialEq, Eq, Structural)]
pub enum PowerMode {
    /// The ordinary path, which wakes the device where it must.
    Normal,
    /// The path for suspend and resume, which leaves power management alone.
    NoPowerManagement,
}

/// The setup packet of one vendor control transfer.
#[derive(Clone, Copy, Debug, PartialEq, Eq, Structural)]
pub struct ControlRequest {
    /// The path to take.
    pub mode: PowerMode,
    /// `bRequest`: the command class.
    pub request: u8,
    /// `bmRequestType`: direction, type and recipient.
    pub request_type: u8,
    /// `wValue`: the register.
    pub value: u16,
    /// `wIndex`: the register index or width.
    pub index: u16,
    /// `wLength`: the number of bytes to move.
    pub length: u16,
}

/// An error of the transport: the native code that the USB stack gave.
#[derive(Clone, Copy, Debug, PartialEq, Eq, Structural)]
pub struct Error {
    /// The native code.
    pub errno: i32,
}

impl Error {
    /// The error with the native code `errno`.
    pub fn from_kernel_errno(errno: i32) -> (e: Error)
        ensures
            e.errno == errno,
    {
        Error { errno }
    }

    /// The native code of this error.
    pub fn to_kernel_errno(&self) -> (errno: i32)
        ensures
            errno == self.errno,
    {
        self.errno
    }
}

/// The result that a native status code stands for: zero is success, every
/// other code an error that carries it.
pub open spec fn status_result(errno: i32) -> Result<(), Error> {
    if errno == 0 {
        Ok(())
    } else {
        Err(Error { errno })
    }
}

/// The native status code of a result: zero for success, else the code that
/// the error carries.
pub open spec fn result_status(r: Result<(), Error>) -> i32 {
    match r {
        Ok(_) => 0,
        Err(e) => e.errno,
    }
}

/// Reads a native status code as a result.
pub fn from_kernel_errno(errno: i32) -> (r: Result<(), Error>)
    ensures
        r == status_result(errno),
        r.is_ok() <==> errno == 0,
{
    match errno {
        0 => Ok(()),
        _ => Err(Error::from_kernel_errno(errno)),
    }
}

/// Gives the native status code of a result.
pub fn into_kernel_errno(r: Result<(), Error>) -> (errno: i32)
    ensures
        errno == result_status(r),
{
    match r {
        Ok(()) => 0,
        Err(e) => e.to_kernel_errno(),
    }
}

/// A status code survives the way into a result and back.
pub proof fn lemma_errno_round_trip(errno: i32)
    ensures
        result_status(status_result(errno)) == errno,
{
}

/// The branch hint `nudge::unlikely`: it tells the compiler that the flag is
/// probably false, and hands the flag back unchanged.
pub assume_specification[ nudge::unlikely ](b: bool) -> (r: bool)
    ensures
        r == b,
;

/// The setup packet that reads `size` bytes of register `value`, index
/// `index`, in command class `cmd`.
pub fn read_request(mode: PowerMode, cmd: u8, value: u16, index: u16, size: u16) -> (r:
    ControlRequest)
    ensures
        r == (ControlRequest {
            mode,
            request: cmd,
            request_type: REQUEST_TYPE_READ,
            value,
            index,
            length: size,
        }),
{
    ControlRequest { mode, request: cmd, request_type: REQUEST_TYPE_READ, value, index, length: size }
}

/// The largest payload that the length field of a setup packet can count.
pub const MAX_PAYLOAD: usize = 0xffff;

/// Why a register write could not be put together.
#[derive(Clone, Copy, Debug, PartialEq, Eq, Structural)]
pub enum RequestError {
    /// The payload has more bytes than the length field can count.
    PayloadTooLong,
}

/// The setup packet that writes `data` to register `value`, index `index`, in
/// command class `cmd`. A payload of more bytes than the length field can
/// count is refused.
pub fn write_request(mode: PowerMode, cmd: u8, value: u16, index: u16, data: &[u8]) -> (r: Result<
    ControlRequest,
    RequestError,
>)
    ensures
        data@.len() > MAX_PAYLOAD ==> r == Err::<ControlRequest, RequestError>(
            RequestError::PayloadTooLong,
        ),
        data@.len() <= MAX_PAYLOAD ==> r == Ok::<ControlRequest, RequestError>(
            (ControlRequest {
                mode,
                request: cmd,
                request_type: REQUEST_TYPE_WRITE,
                value,
                index,
                length: data@.len() as u16,
            }),
        ),
{
    if data.len() > MAX_PAYLOAD {
        return Err(RequestError::PayloadTooLong);
    }
    let length: u16 = data.len() as u16;
    Ok(ControlRequest { mode, request: cmd, request_type: REQUEST_TYPE_WRITE, value, index, length })
}

/// What the completion of a control transfer amounts to.
#[derive(Clone, Copy, Debug)]
pub struct Completion {
    /// The number of bytes moved, or the transport's error.
    pub result: Result<u32, Error>,
    /// Whether a warning naming the register index is to be logged.
    pub warn: bool,
}

/// Reads the code that the USB stack returned for a control transfer. A
/// negative code is an error, to be logged and handed on and never tried
/// again here; any other code is the number of bytes moved.
pub fn complete(ret: i32) -> (c: Completion)
    ensures
        c.warn == (ret < 0),
        ret < 0 ==> c.result == Err::<u32, Error>(Error { errno: ret }),
        ret >= 0 ==> c.result == Ok::<u32, Error>(ret as u32),
{
    if nudge::unlikely(ret < 0) {
        Completion { result: Err(Error::from_kernel_errno(ret)), warn: true }
    } else {
        Completion { result: Ok(ret as u32), warn: false }
    }
}

/// The host's byte order for a 32-bit value, through `u32::to_ne_bytes`: the
/// bytes of `x` as they lie in memory, which is least significant first on a
/// little-endian machine and most significant first on a big-endian one.
#[verifier::external_body]
fn host_bytes(x: u32) -> (wire: [u8; 4])
    ensures
        wire@ == le32(x) || wire@ == be32(x),
{
    x.to_ne_bytes()
}

/// The payload of a register write.
#[derive(Debug)]
pub enum WriteData {
    /// No payload: the request alone is the command.
    Nothing,
    /// One byte.
    Byte(u8),
    /// A 16-bit value, sent little-endian.
    Half(u16),
    /// A 32-bit value, sent in the host's byte order.
    Word(u32),
    /// A block of bytes, sent as it is.
    Block(Vec<u8>),
}

impl WriteData {
    /// The bytes that go on the wire.
    ///
    /// A 16-bit value goes little-endian. A 32-bit value goes in the host's
    /// byte order, as the adapter has always been given it: little-endian
    /// on a little-endian host, big-endian on a big-endian one.
    pub fn value(self) -> (wire: Vec<u8>)
        ensures
            match self {
                WriteData::Nothing => wire@ == Seq::<u8>::empty(),
                WriteData::Byte(b) => wire@ == seq![b],
                WriteData::Half(h) => wire@ == le16(h),
                WriteData::Word(w) => wire@ == le32(w) || wire@ == be32(w),
                WriteData::Block(v) => wire@ == v@,
            },
    {
        match self {
            WriteData::Nothing => Vec::new(),
            WriteData::Byte(b) => {
                let mut wire: Vec<u8> = Vec::new();
                wire.push(b);
                assert(wire@ =~= seq![b]);
                wire
            },
            WriteData::Half(h) => {
                let bytes: [u8; 2] = encode_u16(h);
                let mut wire: Vec<u8> = Vec::new();
                wire.push(bytes[0]);
                wire.push(bytes[1]);
                assert(wire@ =~= bytes@);
                wire
            },
            WriteData::Word(w) => {
                let bytes: [u8; 4] = host_bytes(w);
                let mut wire: Vec<u8> = Vec::new();
                wire.push(bytes[0]);
                wire.push(bytes[1]);
                wire.push(bytes[2]);
                wire.push(bytes[3]);
                assert(wire@ =~= bytes@);
                wire
            },
            WriteData::Block(v) => v,
        }
    }
}

/// What a register read gave.
#[derive(Debug)]
pub enum ReadValue {
    /// A 16-bit value, decoded.
    Half(u16),
    /// A 32-bit value, decoded.
    Word(u32),
    /// The bytes as they came, for the caller to decode.
    Raw(Vec<u8>),
}

/// The first `n` bytes of `wire`, with zeros where `wire` ends before them.
pub open spec fn zero_extended(wire: Seq<u8>, n: nat) -> Seq<u8> {
    Seq::new(
        n,
        |i: int|
            if i < wire.len() {
                wire[i]
            } else {
                0u8
            },
    )
}

/// What reading `size` bytes gives for the wire bytes `wire`: with `convert`
/// set, a read of two or of four bytes is a little-endian number; every
/// other read is the bytes as they came.
pub open spec fn read_value(wire: Seq<u8>, size: u16, convert: bool) -> ReadValueView {
    if convert && size == 2 {
        ReadValueView::Half(le16_value(zero_extended(wire, 2)) as u16)
    } else if convert && size == 4 {
        ReadValueView::Word(le32_value(zero_extended(wire, 4)) as u32)
    } else {
        ReadValueView::Raw(wire)
    }
}

/// A read value as a mathematical value.
pub enum ReadValueView {
    Half(u16),
    Word(u32),
    Raw(Seq<u8>),
}

impl View for ReadValue {
    type V = ReadValueView;

    open spec fn view(&self) -> ReadValueView {
        match self {
            ReadValue::Half(h) => ReadValueView::Half(*h),
            ReadValue::Word(w) => ReadValueView::Word(*w),
            ReadValue::Raw(v) => ReadValueView::Raw(v@),
        }
    }
}

/// The byte of `wire` at `i`, or zero behind its end.
fn byte_or_zero(wire: &[u8], i: usize) -> (b: u8)
    ensures
        b == if i < wire@.len() {
            wire@[i as int]
        } else {
            0u8
        },
{
    if i < wire.len() {
        wire[i]
    } else {
        0
    }
}

/// Decodes the bytes that a register read of `size` bytes brought. A
/// transfer that brought fewer bytes than asked for leaves the rest zero.
pub fn decode_read(wire: &[u8], size: u16, convert: bool) -> (v: ReadValue)
    ensures
        v@ == read_value(wire@, size, convert),
{
    if convert && size == 2 {
        let bytes: [u8; 2] = [byte_or_zero(wire, 0), byte_or_zero(wire, 1)];
        assert(bytes@ =~= zero_extended(wire@, 2));
        ReadValue::Half(decode_u16(bytes))
    } else if convert && size == 4 {
        let bytes: [u8; 4] = [
            byte_or_zero(wire, 0),
            byte_or_zero(wire, 1),
            byte_or_zero(wire, 2),
            byte_or_zero(wire, 3),
        ];
        assert(bytes@ =~= zero_extended(wire@, 4));
        ReadValue::Word(decode_u32(bytes))
    } else {
        let mut raw: Vec<u8> = Vec::new();
        let mut i: usize = 0;
        while i < wire.len()
            invariant
                i <= wire@.len(),
                raw@ == wire@.subrange(0, i as int),
            decreases wire@.len() - i,
        {
            raw.push(wire[i]);
            i += 1;
            assert(raw@ =~= wire@.subrange(0, i as int));
        }
        assert(raw@ =~= wire@);
        ReadValue::Raw(raw)
    }
}

impl PowerMode {
    /// The path for a call made with the flag `in_pm`: the ordinary one for
    /// zero, the one without power management for anything else.
    pub fn from_flag(in_pm: i32) -> (mode: PowerMode)
        ensures
            mode == if in_pm == 0 {
                PowerMode::Normal
            } else {
                PowerMode::NoPowerManagement
            },
    {
        if in_pm == 0 {
            PowerMode::Normal
        } else {
            PowerMode::NoPowerManagement
        }
    }
}

/// A register write as it goes to the USB stack: the setup packet and the
/// payload.
#[derive(Debug)]
pub struct WireWrite {
    pub request: ControlRequest,
    pub payload: Vec<u8>,
}

/// Whether `wire` is what goes on the wire for `data`: a 16-bit value
/// little-endian, a 32-bit value in one of the two byte orders, everything
/// else as it is.
pub open spec fn is_wire_of(wire: Seq<u8>, data: WriteData) -> bool {
    match data {
        WriteData::Nothing => wire == Seq::<u8>::empty(),
        WriteData::Byte(b) => wire == seq![b],
        WriteData::Half(h) => wire == le16(h),
        WriteData::Word(w) => wire == le32(w) || wire == be32(w),
        WriteData::Block(v) => wire == v@,
    }
}

/// The number of bytes that go on the wire for `data`.
pub open spec fn wire_len(data: WriteData) -> nat {
    match data {
        WriteData::Nothing => 0,
        WriteData::Byte(b) => 1,
        WriteData::Half(h) => 2,
        WriteData::Word(w) => 4,
        WriteData::Block(v) => v@.len(),
    }
}

/// Puts a register write together: the payload's bytes, and the setup
/// packet whose length field counts them. A payload of more bytes than the
/// length field can count is refused.
pub fn write_cmd(mode: PowerMode, cmd: u8, value: u16, index: u16, data: WriteData) -> (r: Result<
    WireWrite,
    RequestError,
>)
    ensures
        wire_len(data) > MAX_PAYLOAD ==> r is Err && r->Err_0 == RequestError::PayloadTooLong,
        wire_len(data) <= MAX_PAYLOAD ==> r is Ok && is_wire_of(r->Ok_0.payload@, data)
            && r->Ok_0.request == (ControlRequest {
            mode,
            request: cmd,
            request_type: REQUEST_TYPE_WRITE,
            value,
            index,
            length: wire_len(data) as u16,
        }),
{
    let payload = data.value();
    match write_request(mode, cmd, value, index, payload.as_slice()) {
        Ok(request) => Ok(WireWrite { request, payload }),
        Err(e) => Err(e),
    }
}

} // verus!
