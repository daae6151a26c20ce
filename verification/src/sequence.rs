//! The sequencer: runs a transition of the adapter as a fixed list of steps.
//!
//! A step is a register write, a read whose value decides what follows, a
//! delay, or a call on the network stack. The sequencer performs none of
//! them. It names the next thing to do, is told how that ended, and names
//! the one after it. The steps are issued in the order of the list, and a
//! transfer that fails ends the transition for good.

use vstd::prelude::*;
use crate::link::BulkProfile;
use crate::mac::MacAddress;
use crate::regs::{
    AX_ACCESS_EEPROM,
    AX_ACCESS_MAC,
    AX_MONITOR_MODE,
    AX_NODE_ID,
    AX_RXCOE_CTL,
    AX_RX_CHECKSUM,
    AX_TXCOE_CTL,
    AX_TX_CHECKSUM,
};
use crate::transport::{Error, PowerMode, WriteData};

verus! {

/// The native code for an event that does not answer the step in flight:
/// a protocol error, negative as the kernel reports it.
pub const EPROTO: i32 = -71;

/// The payload of a register write, as plain data.
#[derive(Clone, Copy, Debug, PartialEq, Eq, Structural)]
pub enum Payload {
    /// No payload.
    Nothing,
    /// One byte.
    Byte(u8),
    /// A 16-bit value.
    Half(u16),
    /// A 32-bit value.
    Word(u32),
    /// The six octets of an Ethernet address.
    Address(MacAddress),
    /// The five bulk-IN queue registers.
    Queue(BulkProfile),
    /// The wake-up filter block that arms the timer-based wake-up.
    WakeTimer,
}

/// A call on the network stack or the USB stack that a transition asks for.
#[derive(Clone, Copy, Debug, PartialEq, Eq, Structural)]
pub enum Signal {
    /// Report the carrier as lost.
    CarrierOff,
    /// Report the carrier as present.
    CarrierOn,
    /// Restart the PHY's autonegotiation.
    RestartAutoneg,
    /// Apply the presets for the LEDs, EEE and Green Ethernet.
    ApplyPresets,
    /// Let the USB stack suspend the interface.
    UsbSuspend,
    /// Let the USB stack resume the interface and arm its endpoints again.
    UsbResume,
}

/// One step of a transition.
#[derive(Clone, Copy, Debug, PartialEq, Eq, Structural)]
pub enum Step {
    /// Write `data` to a register.
    Write { cmd: u8, value: u16, index: u16, data: Payload },
    /// Read a register, clear the bits of `clear`, set those of `set`, and
    /// write the value back. The register is two bytes wide if `wide`, else
    /// one.
    Modify { cmd: u8, value: u16, index: u16, wide: bool, clear: u16, set: u16 },
    /// Read a 16-bit register and go on with the next step only if the value
    /// is not all ones and has a bit of `mask`; else, and if the read fails,
    /// pass over the next `skip` steps.
    Probe { cmd: u8, value: u16, index: u16, mask: u16, skip: u8 },
    /// Read the word of number `word` of the Ethernet address from the
    /// EEPROM, where the address starts at `offset`. The words are kept
    /// apart until the last one, of number 2, is in; only then the address
    /// that they make becomes the snapshot's.
    ReadAddress { offset: u8, word: u8 },
    /// Write the word of number `word` of the Ethernet address to the
    /// EEPROM, where the address starts at `offset`.
    StoreAddress { offset: u8, word: u8 },
    /// Write the Ethernet address to the station address register.
    WriteAddress,
    /// Read the monitor mode register into the snapshot.
    ReadMonitor,
    /// Write the snapshot's monitor mode to the register.
    WriteMonitor,
    /// Wait.
    Sleep { ms: u32 },
    /// Call on the stack.
    Signal(Signal),
}

/// What the sequencer asks to be done next.
#[derive(Clone, Copy, Debug, PartialEq, Eq, Structural)]
pub enum Action {
    /// Read `size` bytes of a register; decode them as a little-endian
    /// number if `convert`.
    Read { mode: PowerMode, cmd: u8, value: u16, index: u16, size: u16, convert: bool },
    /// Write `data` to a register.
    Write { mode: PowerMode, cmd: u8, value: u16, index: u16, data: Payload },
    /// Wait for `ms` milliseconds.
    Sleep { ms: u32 },
    /// Call on the stack.
    Signal(Signal),
    /// Nothing: the transition is complete.
    Finished,
    /// Nothing: the transition was given up for the error.
    Aborted(Error),
}

/// How the thing that was asked for ended.
#[derive(Clone, Copy, Debug, PartialEq, Eq, Structural)]
pub enum Event {
    /// Nothing was asked for yet: begin.
    Start,
    /// The write, the wait or the call is done.
    Done,
    /// The read is done and gave this value.
    Value(u32),
    /// The transfer failed.
    Failed(Error),
}

/// What the driver remembers of the adapter's configuration.
#[derive(Clone, Copy, Debug, PartialEq, Eq, Structural)]
pub struct Snapshot {
    /// The receive control value that the multicast policy asked for.
    pub rxctl: u16,
    /// Which checksum offloads are on.
    pub checksum: u8,
    /// The monitor mode, the Wake-on-LAN configuration.
    pub reg_monitor: u8,
    /// The adapter's Ethernet address.
    pub address: MacAddress,
}

/// Where a transition stands.
#[derive(Clone, Copy, Debug, PartialEq, Eq, Structural)]
pub enum Status {
    /// Not begun.
    Idle,
    /// A step is in flight.
    Running,
    /// All steps are done.
    Finished,
    /// A transfer failed: the remaining steps were given up, and only a full
    /// reset helps.
    Faulted(Error),
}

/// The state of a sequencer.
#[derive(Clone, Copy, Debug, PartialEq, Eq, Structural)]
pub struct RunState {
    /// Where the transition stands.
    pub status: Status,
    /// The number of the step in flight.
    pub pc: usize,
    /// Whether the step in flight, a `Modify`, has read and is now writing.
    pub writing: bool,
    /// The configuration snapshot.
    pub snapshot: Snapshot,
    /// The words of the Ethernet address read so far. They become the
    /// snapshot's address only when the last of them is in.
    pub pending: MacAddress,
    /// Whether this transition has read an Ethernet address in full.
    pub address_read: bool,
}

/// The value `v` with the bits of `clear` cleared and those of `set` set.
pub open spec fn modified(v: u16, clear: u16, set: u16) -> u16 {
    (v & !clear) | set
}

/// The low sixteen bits of `v`.
pub open spec fn low16(v: u32) -> u16 {
    (v % 0x1_0000) as u16
}

/// The low eight bits of `v`.
pub open spec fn low8(v: u32) -> u8 {
    (v % 0x100) as u8
}

/// Whether a probed value lets the steps behind the probe run.
pub open spec fn probe_passes(v: u16, mask: u16) -> bool {
    v != 0xffff && v & mask != 0
}

/// The error for an event that does not answer the step in flight.
pub open spec fn misuse() -> Error {
    Error { errno: EPROTO }
}

/// The snapshot after a write of `data` to register `value` of class `cmd`
/// went through: the checksum bits follow the two offload registers.
pub open spec fn noted(snap: Snapshot, cmd: u8, value: u16, data: Payload) -> Snapshot {
    if cmd == AX_ACCESS_MAC && value == AX_RXCOE_CTL && data is Byte {
        Snapshot {
            checksum: if data->Byte_0 != 0 {
                snap.checksum | AX_RX_CHECKSUM
            } else {
                snap.checksum & !AX_RX_CHECKSUM
            },
            ..snap
        }
    } else if cmd == AX_ACCESS_MAC && value == AX_TXCOE_CTL && data is Byte {
        Snapshot {
            checksum: if data->Byte_0 != 0 {
                snap.checksum | AX_TX_CHECKSUM
            } else {
                snap.checksum & !AX_TX_CHECKSUM
            },
            ..snap
        }
    } else {
        snap
    }
}

/// What is asked for to begin `step`.
pub open spec fn action_of(step: Step, mode: PowerMode, snap: Snapshot) -> Action {
    match step {
        Step::Write { cmd, value, index, data } => Action::Write { mode, cmd, value, index, data },
        Step::Modify { cmd, value, index, wide, clear, set } => Action::Read {
            mode,
            cmd,
            value,
            index,
            size: if wide {
                2
            } else {
                1
            },
            convert: wide,
        },
        Step::Probe { cmd, value, index, mask, skip } => Action::Read {
            mode,
            cmd,
            value,
            index,
            size: 2,
            convert: true,
        },
        Step::ReadAddress { offset, word } => Action::Read {
            mode,
            cmd: AX_ACCESS_EEPROM,
            value: (offset + word) as u16,
            index: 1,
            size: 2,
            convert: true,
        },
        Step::StoreAddress { offset, word } => Action::Write {
            mode,
            cmd: AX_ACCESS_EEPROM,
            value: (offset + word) as u16,
            index: 1,
            data: Payload::Half(snap.address.word_of(word)),
        },
        Step::WriteAddress => Action::Write {
            mode,
            cmd: AX_ACCESS_MAC,
            value: AX_NODE_ID,
            index: 6,
            data: Payload::Address(snap.address),
        },
        Step::ReadMonitor => Action::Read {
            mode,
            cmd: AX_ACCESS_MAC,
            value: AX_MONITOR_MODE,
            index: 1,
            size: 1,
            convert: false,
        },
        Step::WriteMonitor => Action::Write {
            mode,
            cmd: AX_ACCESS_MAC,
            value: AX_MONITOR_MODE,
            index: 1,
            data: Payload::Byte(snap.reg_monitor),
        },
        Step::Sleep { ms } => Action::Sleep { ms },
        Step::Signal(s) => Action::Signal(s),
    }
}

/// The number of the last word of an Ethernet address.
pub const LAST_ADDRESS_WORD: u8 = 2;

/// The state `st` once the word of number `word` of the Ethernet address was
/// read as `w`. The word is kept apart. With the last word the address is
/// complete, and only then it becomes the snapshot's address.
pub open spec fn word_taken(st: RunState, word: u8, w: u16) -> RunState {
    let pending = st.pending.with_word_of(word, w);
    if word == LAST_ADDRESS_WORD {
        RunState {
            pending,
            address_read: true,
            snapshot: Snapshot { address: pending, ..st.snapshot },
            ..st
        }
    } else {
        RunState { pending, ..st }
    }
}

/// The state and the action that begin the step of number `pc` from state
/// `st`, or that end the transition where the list has no such step.
pub open spec fn issued(script: Seq<Step>, mode: PowerMode, st: RunState, pc: int) -> (
    RunState,
    Action,
) {
    if 0 <= pc < script.len() {
        (
            RunState { status: Status::Running, pc: pc as usize, writing: false, ..st },
            action_of(script[pc], mode, st.snapshot),
        )
    } else {
        (
            RunState { status: Status::Finished, pc: script.len() as usize, writing: false, ..st },
            Action::Finished,
        )
    }
}

/// The state and the action that give the transition up for `e`.
pub open spec fn faulted(st: RunState, e: Error) -> (RunState, Action) {
    (RunState { status: Status::Faulted(e), ..st }, Action::Aborted(e))
}

/// What follows when the step in flight, `step`, ended with `ev`.
pub open spec fn reacted(script: Seq<Step>, mode: PowerMode, st: RunState, step: Step, ev: Event)
    -> (RunState, Action) {
    let next = st.pc + 1;
    match ev {
        Event::Start => faulted(st, misuse()),
        Event::Failed(e) => match step {
            Step::Probe { cmd, value, index, mask, skip } => issued(script, mode, st, next + skip),
            _ => faulted(st, e),
        },
        Event::Done => match step {
            Step::Write { cmd, value, index, data } => issued(
                script,
                mode,
                RunState { snapshot: noted(st.snapshot, cmd, value, data), ..st },
                next,
            ),
            Step::Modify { cmd, value, index, wide, clear, set } => if st.writing {
                issued(script, mode, st, next)
            } else {
                faulted(st, misuse())
            },
            Step::StoreAddress { offset, word } => issued(script, mode, st, next),
            Step::WriteAddress => issued(script, mode, st, next),
            Step::WriteMonitor => issued(script, mode, st, next),
            Step::Sleep { ms } => issued(script, mode, st, next),
            Step::Signal(s) => issued(script, mode, st, next),
            _ => faulted(st, misuse()),
        },
        Event::Value(v) => match step {
            Step::Modify { cmd, value, index, wide, clear, set } => if st.writing {
                faulted(st, misuse())
            } else {
                (
                    RunState { writing: true, ..st },
                    Action::Write {
                        mode,
                        cmd,
                        value,
                        index,
                        data: if wide {
                            Payload::Half(modified(low16(v), clear, set))
                        } else {
                            Payload::Byte(low8(modified(low8(v) as u16, clear, set) as u32))
                        },
                    },
                )
            },
            Step::Probe { cmd, value, index, mask, skip } => if probe_passes(low16(v), mask) {
                issued(script, mode, st, next)
            } else {
                issued(script, mode, st, next + skip)
            },
            Step::ReadAddress { offset, word } => issued(
                script,
                mode,
                word_taken(st, word, low16(v)),
                next,
            ),
            Step::ReadMonitor => issued(
                script,
                mode,
                RunState { snapshot: Snapshot { reg_monitor: low8(v), ..st.snapshot }, ..st },
                next,
            ),
            _ => faulted(st, misuse()),
        },
    }
}

/// The sequencer's transition function: the state and the action that
/// follow state `st` on event `ev`, for the list of steps `script`.
///
/// A transition that was given up stays given up, whatever comes. One that
/// is complete stays complete. One not begun begins with `Start`. Else the
/// event answers the step in flight; one that cannot answer it gives the
/// transition up.
pub open spec fn advanced(script: Seq<Step>, mode: PowerMode, st: RunState, ev: Event) -> (
    RunState,
    Action,
) {
    match st.status {
        Status::Faulted(e) => (st, Action::Aborted(e)),
        Status::Finished => (st, Action::Finished),
        Status::Idle => if ev == Event::Start {
            issued(script, mode, st, 0)
        } else {
            faulted(st, misuse())
        },
        Status::Running => if st.pc < script.len() {
            reacted(script, mode, st, script[st.pc as int], ev)
        } else {
            faulted(st, misuse())
        },
    }
}

impl Snapshot {
    /// The snapshot of an adapter of which nothing is known yet: all zero.
    pub fn new() -> (snap: Snapshot)
        ensures
            snap == (Snapshot { rxctl: 0, checksum: 0, reg_monitor: 0, address: MacAddress { w0: 0, w1: 0, w2: 0 } }),
    {
        Snapshot { rxctl: 0, checksum: 0, reg_monitor: 0, address: MacAddress::zero() }
    }

    /// The snapshot after a write went through.
    fn note(self, cmd: u8, value: u16, data: Payload) -> (snap: Snapshot)
        ensures
            snap == noted(self, cmd, value, data),
    {
        match data {
            Payload::Byte(b) => {
                if cmd == AX_ACCESS_MAC && value == AX_RXCOE_CTL {
                    let checksum: u8 = if b != 0 {
                        self.checksum | AX_RX_CHECKSUM
                    } else {
                        self.checksum & !AX_RX_CHECKSUM
                    };
                    Snapshot {
                        rxctl: self.rxctl,
                        checksum,
                        reg_monitor: self.reg_monitor,
                        address: self.address,
                    }
                } else if cmd == AX_ACCESS_MAC && value == AX_TXCOE_CTL {
                    let checksum: u8 = if b != 0 {
                        self.checksum | AX_TX_CHECKSUM
                    } else {
                        self.checksum & !AX_TX_CHECKSUM
                    };
                    Snapshot {
                        rxctl: self.rxctl,
                        checksum,
                        reg_monitor: self.reg_monitor,
                        address: self.address,
                    }
                } else {
                    self
                }
            },
            _ => self,
        }
    }
}

impl RunState {
    /// The state of a transition that has not begun, over `snapshot`.
    pub fn new(snapshot: Snapshot) -> (st: RunState)
        ensures
            st == fresh(snapshot),
    {
        RunState {
            status: Status::Idle,
            pc: 0,
            writing: false,
            snapshot,
            pending: snapshot.address,
            address_read: false,
        }
    }

    /// The state with `snapshot` in place of its snapshot.
    fn with_snapshot(self, snapshot: Snapshot) -> (st: RunState)
        ensures
            st == (RunState { snapshot, ..self }),
    {
        RunState {
            status: self.status,
            pc: self.pc,
            writing: self.writing,
            snapshot,
            pending: self.pending,
            address_read: self.address_read,
        }
    }

    /// The state once a word of the Ethernet address was read.
    fn take_word(self, word: u8, w: u16) -> (st: RunState)
        ensures
            st == word_taken(self, word, w),
    {
        let pending = self.pending.with_word(word, w);
        if word == LAST_ADDRESS_WORD {
            RunState {
                status: self.status,
                pc: self.pc,
                writing: self.writing,
                snapshot: Snapshot {
                    rxctl: self.snapshot.rxctl,
                    checksum: self.snapshot.checksum,
                    reg_monitor: self.snapshot.reg_monitor,
                    address: pending,
                },
                pending,
                address_read: true,
            }
        } else {
            RunState {
                status: self.status,
                pc: self.pc,
                writing: self.writing,
                snapshot: self.snapshot,
                pending,
                address_read: self.address_read,
            }
        }
    }

    /// Whether the transition is over, complete or given up.
    pub fn is_over(&self) -> (over: bool)
        ensures
            over == (self.status is Finished || self.status is Faulted),
    {
        match self.status {
            Status::Finished => true,
            Status::Faulted(_) => true,
            _ => false,
        }
    }
}

/// What is asked for to begin `step`.
fn action_for(step: Step, mode: PowerMode, snap: Snapshot) -> (a: Action)
    ensures
        a == action_of(step, mode, snap),
{
    match step {
        Step::Write { cmd, value, index, data } => Action::Write { mode, cmd, value, index, data },
        Step::Modify { cmd, value, index, wide, clear, set } => {
            let size: u16 = if wide {
                2
            } else {
                1
            };
            Action::Read { mode, cmd, value, index, size, convert: wide }
        },
        Step::Probe { cmd, value, index, mask, skip } => Action::Read {
            mode,
            cmd,
            value,
            index,
            size: 2,
            convert: true,
        },
        Step::ReadAddress { offset, word } => Action::Read {
            mode,
            cmd: AX_ACCESS_EEPROM,
            value: offset as u16 + word as u16,
            index: 1,
            size: 2,
            convert: true,
        },
        Step::StoreAddress { offset, word } => Action::Write {
            mode,
            cmd: AX_ACCESS_EEPROM,
            value: offset as u16 + word as u16,
            index: 1,
            data: Payload::Half(snap.address.word(word)),
        },
        Step::WriteAddress => Action::Write {
            mode,
            cmd: AX_ACCESS_MAC,
            value: AX_NODE_ID,
            index: 6,
            data: Payload::Address(snap.address),
        },
        Step::ReadMonitor => Action::Read {
            mode,
            cmd: AX_ACCESS_MAC,
            value: AX_MONITOR_MODE,
            index: 1,
            size: 1,
            convert: false,
        },
        Step::WriteMonitor => Action::Write {
            mode,
            cmd: AX_ACCESS_MAC,
            value: AX_MONITOR_MODE,
            index: 1,
            data: Payload::Byte(snap.reg_monitor),
        },
        Step::Sleep { ms } => Action::Sleep { ms },
        Step::Signal(s) => Action::Signal(s),
    }
}

/// Begins the step of number `pc` from state `st`, or ends the transition.
fn issue(script: &[Step], mode: PowerMode, st: RunState, pc: usize) -> (r: (RunState, Action))
    ensures
        r == issued(script@, mode, st, pc as int),
{
    if pc < script.len() {
        (
            RunState {
                status: Status::Running,
                pc,
                writing: false,
                snapshot: st.snapshot,
                pending: st.pending,
                address_read: st.address_read,
            },
            action_for(script[pc], mode, st.snapshot),
        )
    } else {
        (
            RunState {
                status: Status::Finished,
                pc: script.len(),
                writing: false,
                snapshot: st.snapshot,
                pending: st.pending,
                address_read: st.address_read,
            },
            Action::Finished,
        )
    }
}

/// Gives the transition up for `e`.
fn fault(st: RunState, e: Error) -> (r: (RunState, Action))
    ensures
        r == faulted(st, e),
{
    (
        RunState {
            status: Status::Faulted(e),
            pc: st.pc,
            writing: st.writing,
            snapshot: st.snapshot,
            pending: st.pending,
            address_read: st.address_read,
        },
        Action::Aborted(e),
    )
}

/// The number of the step that stands `skip` steps behind the one after
/// `pc`, or the length of the list where that is behind its end.
fn jump(script: &[Step], pc: usize, skip: u8) -> (to: usize)
    requires
        pc < script@.len(),
    ensures
        to == if pc + 1 + skip < script@.len() {
            pc + 1 + skip
        } else {
            script@.len() as int
        },
{
    let len: usize = script.len();
    let next: usize = pc + 1;
    if (skip as usize) < len - next {
        next + skip as usize
    } else {
        len
    }
}

/// Answers the step in flight.
fn react(script: &[Step], mode: PowerMode, st: RunState, step: Step, ev: Event) -> (r: (
    RunState,
    Action,
))
    requires
        st.pc < script@.len(),
    ensures
        r == reacted(script@, mode, st, step, ev),
{
    let len: usize = script.len();
    let next: usize = st.pc + 1;
    let misuse = Error::from_kernel_errno(EPROTO);
    match ev {
        Event::Start => fault(st, misuse),
        Event::Failed(e) => match step {
            Step::Probe { cmd, value, index, mask, skip } => issue(
                script,
                mode,
                st,
                jump(script, st.pc, skip),
            ),
            _ => fault(st, e),
        },
        Event::Done => match step {
            Step::Write { cmd, value, index, data } => issue(
                script,
                mode,
                st.with_snapshot(st.snapshot.note(cmd, value, data)),
                next,
            ),
            Step::Modify { cmd, value, index, wide, clear, set } => if st.writing {
                issue(script, mode, st, next)
            } else {
                fault(st, misuse)
            },
            Step::StoreAddress { offset, word } => issue(script, mode, st, next),
            Step::WriteAddress => issue(script, mode, st, next),
            Step::WriteMonitor => issue(script, mode, st, next),
            Step::Sleep { ms } => issue(script, mode, st, next),
            Step::Signal(s) => issue(script, mode, st, next),
            _ => fault(st, misuse),
        },
        Event::Value(v) => match step {
            Step::Modify { cmd, value, index, wide, clear, set } => if st.writing {
                fault(st, misuse)
            } else {
                let data = if wide {
                    let old_value: u16 = (v % 0x1_0000) as u16;
                    Payload::Half((old_value & !clear) | set)
                } else {
                    let old_value: u8 = (v % 0x100) as u8;
                    let new_value: u16 = ((old_value as u16) & !clear) | set;
                    Payload::Byte(((new_value as u32) % 0x100) as u8)
                };
                (
                    RunState {
                        status: st.status,
                        pc: st.pc,
                        writing: true,
                        snapshot: st.snapshot,
                        pending: st.pending,
                        address_read: st.address_read,
                    },
                    Action::Write { mode, cmd, value, index, data },
                )
            },
            Step::Probe { cmd, value, index, mask, skip } => {
                let probed: u16 = (v % 0x1_0000) as u16;
                if probed != 0xffff && probed & mask != 0 {
                    issue(script, mode, st, next)
                } else {
                    issue(script, mode, st, jump(script, st.pc, skip))
                }
            },
            Step::ReadAddress { offset, word } => issue(
                script,
                mode,
                st.take_word(word, (v % 0x1_0000) as u16),
                next,
            ),
            Step::ReadMonitor => {
                let snap = Snapshot {
                    rxctl: st.snapshot.rxctl,
                    checksum: st.snapshot.checksum,
                    reg_monitor: (v % 0x100) as u8,
                    address: st.snapshot.address,
                };
                issue(script, mode, st.with_snapshot(snap), next)
            },
            _ => fault(st, misuse),
        },
    }
}

/// Moves a transition on: given how the thing last asked for ended, says
/// what is to be done next.
///
/// The caller begins with a fresh state and `Event::Start`, does what the
/// action says, and comes back with the event that tells how it went, until
/// the action is `Finished` or `Aborted`.
pub fn advance(script: &[Step], mode: PowerMode, st: RunState, ev: Event) -> (r: (
    RunState,
    Action,
))
    ensures
        r == advanced(script@, mode, st, ev),
{
    match st.status {
        Status::Faulted(e) => (st, Action::Aborted(e)),
        Status::Finished => (st, Action::Finished),
        Status::Idle => match ev {
            Event::Start => issue(script, mode, st, 0),
            _ => fault(st, Error::from_kernel_errno(EPROTO)),
        },
        Status::Running => if st.pc < script.len() {
            react(script, mode, st, script[st.pc], ev)
        } else {
            fault(st, Error::from_kernel_errno(EPROTO))
        },
    }
}

/// A transition that was given up stays given up: whatever comes, the state
/// does not change and nothing more is asked of the adapter.
pub proof fn lemma_fault_is_final(
    script: Seq<Step>,
    mode: PowerMode,
    st: RunState,
    ev: Event,
    e: Error,
)
    requires
        st.status == Status::Faulted(e),
    ensures
        advanced(script, mode, st, ev) == (st, Action::Aborted(e)),
{
}

/// A transfer that fails gives the transition up with the transfer's error,
/// unless the step in flight is a probe, whose failure only passes over the
/// steps that hang on it.
pub proof fn lemma_failure_aborts(script: Seq<Step>, mode: PowerMode, st: RunState, e: Error)
    requires
        st.status == Status::Running,
        st.pc < script.len(),
        !(script[st.pc as int] is Probe),
    ensures
        advanced(script, mode, st, Event::Failed(e)).0.status == Status::Faulted(e),
        advanced(script, mode, st, Event::Failed(e)).1 == Action::Aborted(e),
        advanced(script, mode, st, Event::Failed(e)).0.snapshot == st.snapshot,
{
}

/// The steps are taken in the order of the list: the sequencer never goes
/// back, and what it asks for while a step is in flight is what that step
/// begins with, or the write that ends a `Modify`.
pub proof fn lemma_steps_in_order(script: Seq<Step>, mode: PowerMode, st: RunState, ev: Event)
    requires
        script.len() <= usize::MAX,
        st.status is Running ==> st.pc < script.len(),
        st.status is Idle ==> st.pc == 0,
    ensures
        ({
            let (next, action) = advanced(script, mode, st, ev);
            &&& next.pc >= st.pc
            &&& next.pc <= script.len() || next.pc == st.pc
            &&& next.status is Running ==> next.pc < script.len()
            &&& next.status is Running && !next.writing ==> action == action_of(
                script[next.pc as int],
                mode,
                next.snapshot,
            )
            &&& next.status is Running && next.writing ==> next.pc == st.pc && script[st.pc as int] is Modify
                && action is Write
            &&& next.status is Finished <==> action is Finished
            &&& next.status is Faulted <==> action is Aborted
        }),
{
}

/// Whether event `ev`, coming in state `st`, brings the last word of an
/// Ethernet address.
pub open spec fn brings_last_word(script: Seq<Step>, st: RunState, ev: Event) -> bool {
    &&& st.status is Running
    &&& st.pc < script.len()
    &&& script[st.pc as int] is ReadAddress
    &&& script[st.pc as int]->ReadAddress_word == LAST_ADDRESS_WORD
    &&& ev is Value
}

/// The snapshot's address changes with the last word of an address and with
/// nothing else: until all words are in, and whatever fails before that,
/// the address is the one that the transition found.
pub proof fn lemma_address_kept(script: Seq<Step>, mode: PowerMode, st: RunState, ev: Event)
    ensures
        !brings_last_word(script, st, ev) ==> advanced(script, mode, st, ev).0.snapshot.address
            == st.snapshot.address && advanced(script, mode, st, ev).0.address_read
            == st.address_read,
        brings_last_word(script, st, ev) ==> advanced(script, mode, st, ev).0.snapshot.address
            == st.pending.with_word_of(LAST_ADDRESS_WORD, low16(ev->Value_0)) && advanced(
            script,
            mode,
            st,
            ev,
        ).0.address_read,
{
}

/// The state of a transition that has not begun, over `snapshot`.
pub open spec fn fresh(snapshot: Snapshot) -> RunState {
    RunState {
        status: Status::Idle,
        pc: 0,
        writing: false,
        snapshot,
        pending: snapshot.address,
        address_read: false,
    }
}

/// The state that the events from number `i` on lead to from state `st`,
/// and the actions asked for on the way, behind those of `done`.
pub open spec fn run_from(
    script: Seq<Step>,
    mode: PowerMode,
    st: RunState,
    events: Seq<Event>,
    i: int,
    done: Seq<Action>,
) -> (RunState, Seq<Action>)
    decreases events.len() - i,
{
    if i < 0 || i >= events.len() {
        (st, done)
    } else {
        let (next, action) = advanced(script, mode, st, events[i]);
        run_from(script, mode, next, events, i + 1, done.push(action))
    }
}

/// The state that a transition over `snapshot` is in after `events`, and
/// the actions that it asked for, in their order.
pub open spec fn ran(script: Seq<Step>, mode: PowerMode, snapshot: Snapshot, events: Seq<Event>)
    -> (RunState, Seq<Action>) {
    run_from(script, mode, fresh(snapshot), events, 0, Seq::empty())
}

/// Whether none of the events from number `i` on brings the last word of an
/// address.
pub open spec fn no_last_word(
    script: Seq<Step>,
    mode: PowerMode,
    st: RunState,
    events: Seq<Event>,
    i: int,
) -> bool
    decreases events.len() - i,
{
    if i < 0 || i >= events.len() {
        true
    } else {
        !brings_last_word(script, st, events[i]) && no_last_word(
            script,
            mode,
            advanced(script, mode, st, events[i]).0,
            events,
            i + 1,
        )
    }
}

/// However long a transition runs and however it ends, its snapshot holds
/// the address that it began with unless the last word of an address came
/// in.
pub proof fn lemma_address_kept_through(
    script: Seq<Step>,
    mode: PowerMode,
    st: RunState,
    events: Seq<Event>,
    i: int,
    done: Seq<Action>,
)
    requires
        no_last_word(script, mode, st, events, i),
    ensures
        run_from(script, mode, st, events, i, done).0.snapshot.address == st.snapshot.address,
        run_from(script, mode, st, events, i, done).0.address_read == st.address_read,
    decreases events.len() - i,
{
    if 0 <= i < events.len() {
        let (next, action) = advanced(script, mode, st, events[i]);
        lemma_address_kept(script, mode, st, events[i]);
        lemma_address_kept_through(script, mode, next, events, i + 1, done.push(action));
    }
}

/// Every register operation of a transition takes the path that the
/// transition was given.
pub proof fn lemma_mode_is_handed_on(script: Seq<Step>, mode: PowerMode, st: RunState, ev: Event)
    ensures
        advanced(script, mode, st, ev).1 is Read ==> advanced(script, mode, st, ev).1->Read_mode
            == mode,
        advanced(script, mode, st, ev).1 is Write ==> advanced(script, mode, st, ev).1->Write_mode
            == mode,
{
}

/// The wake-up filter block that arms the timer-based wake-up: 38 bytes,
/// all zero but the two that select the timer and its period.
pub open spec fn wake_timer_block() -> Seq<u8> {
    Seq::new(
        38,
        |i: int|
            if i == 28 {
                0x04u8
            } else if i == 29 {
                0x01u8
            } else {
                0u8
            },
    )
}

/// The five bytes of a bulk-IN queue profile, in the order of the registers.
pub open spec fn queue_block(p: BulkProfile) -> Seq<u8> {
    seq![p.ctrl, p.timer_low, p.timer_high, p.size, p.ifg]
}

/// Copies an array into a vector.
fn vec_of<const N: usize>(bytes: &[u8; N]) -> (v: Vec<u8>)
    ensures
        v@ == bytes@,
{
    let mut v: Vec<u8> = Vec::new();
    let mut i: usize = 0;
    while i < N
        invariant
            i <= N,
            v@ == bytes@.subrange(0, i as int),
        decreases N - i,
    {
        v.push(bytes[i]);
        i += 1;
        assert(v@ =~= bytes@.subrange(0, i as int));
    }
    assert(v@ =~= bytes@);
    v
}

impl Payload {
    /// The payload in the form in which the transport takes it: a number as
    /// a number, everything else as the block of its bytes.
    pub fn data(self) -> (d: WriteData)
        ensures
            match self {
                Payload::Nothing => d == WriteData::Nothing,
                Payload::Byte(b) => d == WriteData::Byte(b),
                Payload::Half(h) => d == WriteData::Half(h),
                Payload::Word(w) => d == WriteData::Word(w),
                Payload::Address(m) => d is Block && d->Block_0@ == m.octets(),
                Payload::Queue(p) => d is Block && d->Block_0@ == queue_block(p),
                Payload::WakeTimer => d is Block && d->Block_0@ == wake_timer_block(),
            },
    {
        match self {
            Payload::Nothing => WriteData::Nothing,
            Payload::Byte(b) => WriteData::Byte(b),
            Payload::Half(h) => WriteData::Half(h),
            Payload::Word(w) => WriteData::Word(w),
            Payload::Address(m) => {
                let octets: [u8; 6] = m.to_octets();
                WriteData::Block(vec_of(&octets))
            },
            Payload::Queue(p) => {
                let bytes: [u8; 5] = p.bytes();
                WriteData::Block(vec_of(&bytes))
            },
            Payload::WakeTimer => {
                let mut block: Vec<u8> = Vec::new();
                let mut i: usize = 0;
                while i < 38
                    invariant
                        i <= 38,
                        block@ == wake_timer_block().subrange(0, i as int),
                    decreases 38 - i,
                {
                    let b: u8 = if i == 28 {
                        0x04
                    } else if i == 29 {
                        0x01
                    } else {
                        0
                    };
                    block.push(b);
                    i += 1;
                    assert(block@ =~= wake_timer_block().subrange(0, i as int));
                }
                assert(block@ =~= wake_timer_block());
                WriteData::Block(block)
            },
        }
    }
}

} // verus!
