//! The adapter's transitions, each as the list of steps that the sequencer
//! runs: bind, full reset, stop, suspend, resume, unbind, and the storing of
//! an Ethernet address in the EEPROM.
//!
//! The order of the steps is the order in which the adapter must see them,
//! and the delays are the times that the chip needs to settle.

use vstd::prelude::*;
use crate::link::{profile_of, BulkProfile};
use crate::regs::{
    AX_ACCESS_CONTROL,
    AX_ACCESS_EEPROM,
    AX_ACCESS_MAC,
    AX_ACCESS_WAKEUP,
    AX_CLK_SELECT,
    AX_CONTROL_RESET,
    AX_KEEP_PHY_POWER,
    AX_MEDIUM_STATUS_MODE,
    AX_MONITOR_MODE,
    AX_NODE_ID,
    AX_PAUSE_WATERLVL_HIGH,
    AX_PAUSE_WATERLVL_LOW,
    AX_PHYPWR_RSTCTL,
    AX_RELOAD_EEPROM_EFUSE,
    AX_RXCOE_CTL,
    AX_RX_BULKIN_QCTRL,
    AX_RX_CTL,
    AX_TXCOE_CTL,
    EEPROM_AUTODETACH,
};
use crate::adapter::{mode_of, Transition};
use crate::sequence::{
    advance, advanced, lemma_mode_is_handed_on, low16, modified, ran, run_from, Action, Event, Payload, RunState, Signal, Snapshot, Status, Step,
};
use crate::mac::MacAddress;
use crate::transport::Error;
use crate::transport::PowerMode;

verus! {

/// The receive control value that starts the MAC: drop frames with a bad
/// CRC, accept the frames of the multicast array, all multicast and
/// broadcast; with `align_ip`, let the adapter align the IP header by a
/// two-byte pseudo header in front of each frame.
pub open spec fn rx_control_of(align_ip: bool) -> u16 {
    if align_ip {
        0x03aa
    } else {
        0x01aa
    }
}

/// The medium mode that bind and reset set: gigabit, full duplex, flow
/// control both ways, the receive path enabled.
pub const MEDIUM_DEFAULT: u16 = 0x0133;

/// The checksum offloads that bind and reset switch on, for either
/// direction: IPv4, and TCP and UDP over IPv4 and IPv6.
pub const CHECKSUM_DEFAULT: u8 = 0x67;

/// The monitor mode that bind and reset set: PME type and polarity, and
/// wake-up on a magic packet.
pub const MONITOR_DEFAULT: u8 = 0x64;

/// Milliseconds that the PHY needs after its reset is released.
pub const PHY_SETTLE_MS: u32 = 200;

/// Milliseconds that the clock needs after it is selected.
pub const CLOCK_SETTLE_MS: u32 = 100;

/// Milliseconds that the EEPROM needs after each word written.
pub const EEPROM_WRITE_MS: u32 = 15;

/// A write to a register of the MAC.
pub open spec fn mac_write(value: u16, index: u16, data: Payload) -> Step {
    Step::Write { cmd: AX_ACCESS_MAC, value, index, data }
}

/// The steps of bind, the first power-up: clear the reset register; power
/// the PHY up; select the clock; read the Ethernet address from the EEPROM
/// and write it to the station address; set up the bulk-IN queue and the
/// pause water levels; keep the PHY powered; switch the checksum offloads
/// on; set the default medium; start the receiver; set the monitor mode;
/// apply the presets and keep the monitor mode that they leave; report the
/// carrier as lost and restart autonegotiation.
pub open spec fn bind_steps(align_ip: bool) -> Seq<Step> {
    seq![
        Step::Write { cmd: AX_ACCESS_CONTROL, value: AX_CONTROL_RESET, index: 0, data: Payload::Word(0) },
        mac_write(AX_PHYPWR_RSTCTL, 2, Payload::Half(0)),
        mac_write(AX_PHYPWR_RSTCTL, 2, Payload::Half(0x0020)),
        Step::Sleep { ms: PHY_SETTLE_MS },
        mac_write(AX_CLK_SELECT, 1, Payload::Byte(0x03)),
        Step::Sleep { ms: CLOCK_SETTLE_MS },
        Step::ReadAddress { offset: 0, word: 0 },
        Step::ReadAddress { offset: 0, word: 1 },
        Step::ReadAddress { offset: 0, word: 2 },
        Step::WriteAddress,
        mac_write(AX_RX_BULKIN_QCTRL, 5, Payload::Queue(profile_of(0))),
        mac_write(AX_PAUSE_WATERLVL_LOW, 1, Payload::Byte(0x34)),
        mac_write(AX_PAUSE_WATERLVL_HIGH, 1, Payload::Byte(0x52)),
        Step::Write { cmd: AX_KEEP_PHY_POWER, value: 0, index: 0, data: Payload::Nothing },
        mac_write(AX_RXCOE_CTL, 1, Payload::Byte(CHECKSUM_DEFAULT)),
        mac_write(AX_TXCOE_CTL, 1, Payload::Byte(CHECKSUM_DEFAULT)),
        mac_write(AX_MEDIUM_STATUS_MODE, 2, Payload::Half(MEDIUM_DEFAULT)),
        mac_write(AX_RX_CTL, 2, Payload::Half(rx_control_of(align_ip))),
        mac_write(AX_MONITOR_MODE, 1, Payload::Byte(MONITOR_DEFAULT)),
        Step::Signal(Signal::ApplyPresets),
        Step::ReadMonitor,
        Step::Signal(Signal::CarrierOff),
        Step::Signal(Signal::RestartAutoneg),
    ]
}

/// The steps of a full reset: those of bind without the reading of the
/// Ethernet address, which is known; it is written to the station address
/// as it stands.
pub open spec fn reset_steps(align_ip: bool) -> Seq<Step> {
    bind_steps(align_ip).subrange(0, 6) + bind_steps(align_ip).subrange(9, 23)
}

/// The steps of stop: clear the receive-enable bit of the medium mode, and
/// leave the PHY powered.
pub open spec fn stop_steps() -> Seq<Step> {
    seq![
        Step::Modify {
            cmd: AX_ACCESS_MAC,
            value: AX_MEDIUM_STATUS_MODE,
            index: 2,
            wide: true,
            clear: 0x0100,
            set: 0,
        },
    ]
}

/// The steps of suspend: let the USB stack suspend the interface; disable
/// the receive path; force the PHY into its low-power state; arm the
/// timer-based wake-up; switch the clock off; stop the receiver; write the
/// monitor mode that was kept.
pub open spec fn suspend_steps() -> Seq<Step> {
    seq![
        Step::Signal(Signal::UsbSuspend),
        Step::Modify {
            cmd: AX_ACCESS_MAC,
            value: AX_MEDIUM_STATUS_MODE,
            index: 2,
            wide: true,
            clear: 0x0100,
            set: 0,
        },
        Step::Modify {
            cmd: AX_ACCESS_MAC,
            value: AX_PHYPWR_RSTCTL,
            index: 2,
            wide: true,
            clear: 0,
            set: 0x0030,
        },
        Step::Write { cmd: AX_ACCESS_WAKEUP, value: 0x01, index: 0, data: Payload::WakeTimer },
        mac_write(AX_CLK_SELECT, 1, Payload::Byte(0)),
        mac_write(AX_RX_CTL, 2, Payload::Half(0)),
        Step::WriteMonitor,
    ]
}

/// The steps of resume: report the carrier as lost; power the PHY up and
/// let it settle; if the EEPROM asks for auto-detach, enable it in the clock
/// select and the PHY power registers; select the clock and let it settle;
/// start the receiver as bind does; hand over to the USB stack.
pub open spec fn resume_steps(align_ip: bool) -> Seq<Step> {
    seq![
        Step::Signal(Signal::CarrierOff),
        mac_write(AX_PHYPWR_RSTCTL, 2, Payload::Half(0)),
        Step::Sleep { ms: 1 },
        mac_write(AX_PHYPWR_RSTCTL, 2, Payload::Half(0x0020)),
        Step::Sleep { ms: PHY_SETTLE_MS },
        Step::Probe {
            cmd: AX_ACCESS_EEPROM,
            value: EEPROM_AUTODETACH,
            index: 1,
            mask: 0x0100,
            skip: 2,
        },
        Step::Modify {
            cmd: AX_ACCESS_MAC,
            value: AX_CLK_SELECT,
            index: 1,
            wide: false,
            clear: 0,
            set: 0x08,
        },
        Step::Modify {
            cmd: AX_ACCESS_MAC,
            value: AX_PHYPWR_RSTCTL,
            index: 2,
            wide: true,
            clear: 0,
            set: 0x1000,
        },
        Step::Modify {
            cmd: AX_ACCESS_MAC,
            value: AX_CLK_SELECT,
            index: 1,
            wide: false,
            clear: 0,
            set: 0x03,
        },
        Step::Sleep { ms: CLOCK_SETTLE_MS },
        mac_write(AX_RX_CTL, 2, Payload::Half(rx_control_of(align_ip))),
        Step::Signal(Signal::UsbResume),
    ]
}

/// The steps of unbind: stop the receiver, switch the clock off, power the
/// PHY down and let it settle.
pub open spec fn unbind_steps() -> Seq<Step> {
    seq![
        mac_write(AX_RX_CTL, 2, Payload::Half(0)),
        mac_write(AX_CLK_SELECT, 1, Payload::Byte(0)),
        mac_write(AX_PHYPWR_RSTCTL, 2, Payload::Half(0)),
        Step::Sleep { ms: PHY_SETTLE_MS },
    ]
}

/// The steps that store the Ethernet address in the EEPROM, where it starts
/// at `offset`: each of its three words, with the time that the EEPROM
/// needs after it; then the command that makes the adapter load the EEPROM
/// again.
pub open spec fn store_address_steps(offset: u8) -> Seq<Step> {
    seq![
        Step::StoreAddress { offset, word: 0 },
        Step::Sleep { ms: EEPROM_WRITE_MS },
        Step::StoreAddress { offset, word: 1 },
        Step::Sleep { ms: EEPROM_WRITE_MS },
        Step::StoreAddress { offset, word: 2 },
        Step::Sleep { ms: EEPROM_WRITE_MS },
        Step::Write { cmd: AX_RELOAD_EEPROM_EFUSE, value: 0, index: 0, data: Payload::Nothing },
    ]
}

/// The steps that read the Ethernet address from the EEPROM, where it
/// starts at `offset`: its three words, in their order.
pub open spec fn load_address_steps(offset: u8) -> Seq<Step> {
    seq![
        Step::ReadAddress { offset, word: 0 },
        Step::ReadAddress { offset, word: 1 },
        Step::ReadAddress { offset, word: 2 },
    ]
}

/// The steps that resolve the Ethernet address: read it from the start of
/// the EEPROM, then write it to the station address, so that the adapter
/// filters for the address that is announced.
pub open spec fn resolve_address_steps() -> Seq<Step> {
    load_address_steps(0).push(Step::WriteAddress)
}

/// The receive control value that starts the MAC.
pub fn rx_control(align_ip: bool) -> (v: u16)
    ensures
        v == rx_control_of(align_ip),
{
    if align_ip {
        0x03aa
    } else {
        0x01aa
    }
}

/// A write to a register of the MAC.
fn write_mac(value: u16, index: u16, data: Payload) -> (s: Step)
    ensures
        s == mac_write(value, index, data),
{
    Step::Write { cmd: AX_ACCESS_MAC, value, index, data }
}

/// The list of steps of bind.
pub fn bind_script(align_ip: bool) -> (script: Vec<Step>)
    ensures
        script@ == bind_steps(align_ip),
{
    let script = vec![
        Step::Write { cmd: AX_ACCESS_CONTROL, value: AX_CONTROL_RESET, index: 0, data: Payload::Word(0) },
        write_mac(AX_PHYPWR_RSTCTL, 2, Payload::Half(0)),
        write_mac(AX_PHYPWR_RSTCTL, 2, Payload::Half(0x0020)),
        Step::Sleep { ms: PHY_SETTLE_MS },
        write_mac(AX_CLK_SELECT, 1, Payload::Byte(0x03)),
        Step::Sleep { ms: CLOCK_SETTLE_MS },
        Step::ReadAddress { offset: 0, word: 0 },
        Step::ReadAddress { offset: 0, word: 1 },
        Step::ReadAddress { offset: 0, word: 2 },
        Step::WriteAddress,
        write_mac(AX_RX_BULKIN_QCTRL, 5, Payload::Queue(BulkProfile::get(0))),
        write_mac(AX_PAUSE_WATERLVL_LOW, 1, Payload::Byte(0x34)),
        write_mac(AX_PAUSE_WATERLVL_HIGH, 1, Payload::Byte(0x52)),
        Step::Write { cmd: AX_KEEP_PHY_POWER, value: 0, index: 0, data: Payload::Nothing },
        write_mac(AX_RXCOE_CTL, 1, Payload::Byte(CHECKSUM_DEFAULT)),
        write_mac(AX_TXCOE_CTL, 1, Payload::Byte(CHECKSUM_DEFAULT)),
        write_mac(AX_MEDIUM_STATUS_MODE, 2, Payload::Half(MEDIUM_DEFAULT)),
        write_mac(AX_RX_CTL, 2, Payload::Half(rx_control(align_ip))),
        write_mac(AX_MONITOR_MODE, 1, Payload::Byte(MONITOR_DEFAULT)),
        Step::Signal(Signal::ApplyPresets),
        Step::ReadMonitor,
        Step::Signal(Signal::CarrierOff),
        Step::Signal(Signal::RestartAutoneg),
    ];
    assert(script@ =~= bind_steps(align_ip));
    script
}

/// The list of steps of a full reset.
pub fn reset_script(align_ip: bool) -> (script: Vec<Step>)
    ensures
        script@ == reset_steps(align_ip),
        script@.len() == 20,
{
    let bind = bind_script(align_ip);
    let mut script: Vec<Step> = Vec::new();
    let mut i: usize = 0;
    while i < 6
        invariant
            i <= 6,
            bind@ == bind_steps(align_ip),
            script@ == bind@.subrange(0, i as int),
        decreases 6 - i,
    {
        script.push(bind[i]);
        i += 1;
        assert(script@ =~= bind@.subrange(0, i as int));
    }
    i = 9;
    while i < 23
        invariant
            9 <= i <= 23,
            bind@ == bind_steps(align_ip),
            script@ == bind@.subrange(0, 6) + bind@.subrange(9, i as int),
        decreases 23 - i,
    {
        script.push(bind[i]);
        i += 1;
        assert(script@ =~= bind@.subrange(0, 6) + bind@.subrange(9, i as int));
    }
    script
}

/// The list of steps of stop.
pub fn stop_script() -> (script: Vec<Step>)
    ensures
        script@ == stop_steps(),
{
    let script = vec![
        Step::Modify {
            cmd: AX_ACCESS_MAC,
            value: AX_MEDIUM_STATUS_MODE,
            index: 2,
            wide: true,
            clear: 0x0100,
            set: 0,
        },
    ];
    assert(script@ =~= stop_steps());
    script
}

/// The list of steps of suspend.
pub fn suspend_script() -> (script: Vec<Step>)
    ensures
        script@ == suspend_steps(),
{
    let script = vec![
        Step::Signal(Signal::UsbSuspend),
        Step::Modify {
            cmd: AX_ACCESS_MAC,
            value: AX_MEDIUM_STATUS_MODE,
            index: 2,
            wide: true,
            clear: 0x0100,
            set: 0,
        },
        Step::Modify {
            cmd: AX_ACCESS_MAC,
            value: AX_PHYPWR_RSTCTL,
            index: 2,
            wide: true,
            clear: 0,
            set: 0x0030,
        },
        Step::Write { cmd: AX_ACCESS_WAKEUP, value: 0x01, index: 0, data: Payload::WakeTimer },
        write_mac(AX_CLK_SELECT, 1, Payload::Byte(0)),
        write_mac(AX_RX_CTL, 2, Payload::Half(0)),
        Step::WriteMonitor,
    ];
    assert(script@ =~= suspend_steps());
    script
}

/// The list of steps of resume.
pub fn resume_script(align_ip: bool) -> (script: Vec<Step>)
    ensures
        script@ == resume_steps(align_ip),
{
    let script = vec![
        Step::Signal(Signal::CarrierOff),
        write_mac(AX_PHYPWR_RSTCTL, 2, Payload::Half(0)),
        Step::Sleep { ms: 1 },
        write_mac(AX_PHYPWR_RSTCTL, 2, Payload::Half(0x0020)),
        Step::Sleep { ms: PHY_SETTLE_MS },
        Step::Probe {
            cmd: AX_ACCESS_EEPROM,
            value: EEPROM_AUTODETACH,
            index: 1,
            mask: 0x0100,
            skip: 2,
        },
        Step::Modify {
            cmd: AX_ACCESS_MAC,
            value: AX_CLK_SELECT,
            index: 1,
            wide: false,
            clear: 0,
            set: 0x08,
        },
        Step::Modify {
            cmd: AX_ACCESS_MAC,
            value: AX_PHYPWR_RSTCTL,
            index: 2,
            wide: true,
            clear: 0,
            set: 0x1000,
        },
        Step::Modify {
            cmd: AX_ACCESS_MAC,
            value: AX_CLK_SELECT,
            index: 1,
            wide: false,
            clear: 0,
            set: 0x03,
        },
        Step::Sleep { ms: CLOCK_SETTLE_MS },
        write_mac(AX_RX_CTL, 2, Payload::Half(rx_control(align_ip))),
        Step::Signal(Signal::UsbResume),
    ];
    assert(script@ =~= resume_steps(align_ip));
    script
}

/// The list of steps of unbind.
pub fn unbind_script() -> (script: Vec<Step>)
    ensures
        script@ == unbind_steps(),
{
    let script = vec![
        write_mac(AX_RX_CTL, 2, Payload::Half(0)),
        write_mac(AX_CLK_SELECT, 1, Payload::Byte(0)),
        write_mac(AX_PHYPWR_RSTCTL, 2, Payload::Half(0)),
        Step::Sleep { ms: PHY_SETTLE_MS },
    ];
    assert(script@ =~= unbind_steps());
    script
}

/// The list of steps that reads the Ethernet address from the EEPROM, or,
/// with `write` set, stores it there.
pub fn access_eeprom_mac(offset: u8, write: bool) -> (script: Vec<Step>)
    ensures
        script@ == if write {
            store_address_steps(offset)
        } else {
            load_address_steps(offset)
        },
{
    if write {
        let script = vec![
            Step::StoreAddress { offset, word: 0 },
            Step::Sleep { ms: EEPROM_WRITE_MS },
            Step::StoreAddress { offset, word: 1 },
            Step::Sleep { ms: EEPROM_WRITE_MS },
            Step::StoreAddress { offset, word: 2 },
            Step::Sleep { ms: EEPROM_WRITE_MS },
            Step::Write { cmd: AX_RELOAD_EEPROM_EFUSE, value: 0, index: 0, data: Payload::Nothing },
        ];
        assert(script@ =~= store_address_steps(offset));
        script
    } else {
        let script = vec![
            Step::ReadAddress { offset, word: 0 },
            Step::ReadAddress { offset, word: 1 },
            Step::ReadAddress { offset, word: 2 },
        ];
        assert(script@ =~= load_address_steps(offset));
        script
    }
}

/// The list of steps that resolves the Ethernet address.
pub fn get_mac_script() -> (script: Vec<Step>)
    ensures
        script@ == resolve_address_steps(),
{
    let mut script = access_eeprom_mac(0, false);
    script.push(Step::WriteAddress);
    script
}

/// Whether a step writes the receive control register.
pub open spec fn writes_rx_control(step: Step) -> bool {
    step is Write && step->Write_cmd == AX_ACCESS_MAC && step->Write_value == AX_RX_CTL
}

/// Whether a step writes the clock select register.
pub open spec fn writes_clock_select(step: Step) -> bool {
    step is Write && step->Write_cmd == AX_ACCESS_MAC && step->Write_value == AX_CLK_SELECT
}

/// Bind selects the clock before it starts the receiver: the receive
/// control register is written once, and the clock select register is
/// written before it.
pub proof fn lemma_bind_selects_clock_first(align_ip: bool)
    ensures
        bind_steps(align_ip).len() == 23,
        writes_clock_select(bind_steps(align_ip)[4]),
        writes_rx_control(bind_steps(align_ip)[17]),
        forall|i: int|
            0 <= i < 23 && i != 17 ==> !writes_rx_control(#[trigger] bind_steps(align_ip)[i]),
{
    let s = bind_steps(align_ip);
    assert forall|i: int| 0 <= i < 23 && i != 17 implies !writes_rx_control(#[trigger] s[i]) by {
        if i < 8 {
            if i < 4 {
                assert(i == 0 || i == 1 || i == 2 || i == 3);
            } else {
                assert(i == 4 || i == 5 || i == 6 || i == 7);
            }
        } else if i < 16 {
            if i < 12 {
                assert(i == 8 || i == 9 || i == 10 || i == 11);
            } else {
                assert(i == 12 || i == 13 || i == 14 || i == 15);
            }
        } else {
            assert(i == 16 || i == 18 || i == 19 || i == 20 || i == 21 || i == 22);
        }
    }
}

/// A full reset differs from bind by the three reads of the Ethernet
/// address and by nothing else: it reads no address, and the steps before
/// and behind the reads stand as in bind.
pub proof fn lemma_reset_skips_address_reads(align_ip: bool)
    ensures
        reset_steps(align_ip).len() == 20,
        forall|i: int| 6 <= i < 9 ==> #[trigger] bind_steps(align_ip)[i] is ReadAddress,
        forall|i: int| 0 <= i < 6 ==> #[trigger] reset_steps(align_ip)[i] == bind_steps(align_ip)[i],
        forall|i: int|
            6 <= i < 20 ==> #[trigger] reset_steps(align_ip)[i] == bind_steps(align_ip)[i + 3],
        reset_steps(align_ip)[6] == Step::WriteAddress,
{
    let b = bind_steps(align_ip);
    assert(b.len() == 23);
    assert(b[6] is ReadAddress && b[7] is ReadAddress && b[8] is ReadAddress);
}

/// The events of a run in which the `before` steps in front of the reads of
/// the Ethernet address go through, the words of `words` are read, and the
/// read behind them fails with `e`.
pub open spec fn failing_reads(before: nat, words: Seq<u16>, e: Error) -> Seq<Event> {
    seq![Event::Start] + Seq::new(before, |i: int| Event::Done) + Seq::new(
        words.len(),
        |i: int| Event::Value(words[i] as u32),
    ) + seq![Event::Failed(e)]
}

/// The read of the word of number `word` of an Ethernet address that
/// starts at `offset` in the EEPROM.
pub open spec fn read_of_word(mode: PowerMode, offset: u8, word: int) -> Action {
    Action::Read {
        mode,
        cmd: AX_ACCESS_EEPROM,
        value: (offset + word) as u16,
        index: 1,
        size: 2,
        convert: true,
    }
}

/// Reading the Ethernet address from the EEPROM, with a read that fails
/// before all three words are in: the reads up to the failing one are asked
/// for, in their order, and nothing behind it; the error is handed on; and
/// the snapshot, its address with it, is as the run found it.
pub proof fn lemma_failed_load_keeps_address(
    offset: u8,
    mode: PowerMode,
    snap: Snapshot,
    words: Seq<u16>,
    e: Error,
)
    requires
        words.len() < 3,
    ensures
        ({
            let (end, actions) = ran(
                load_address_steps(offset),
                mode,
                snap,
                failing_reads(0, words, e),
            );
            &&& end.status == Status::Faulted(e)
            &&& end.snapshot == snap
            &&& !end.address_read
            &&& actions.len() == words.len() + 2
            &&& forall|k: int|
                0 <= k <= words.len() ==> #[trigger] actions[k] == read_of_word(mode, offset, k)
            &&& actions[words.len() as int + 1] == Action::Aborted(e)
        }),
{
    let events = failing_reads(0, words, e);
    reveal_with_fuel(run_from, 5);
    if words.len() == 0 {
        assert(events =~= seq![Event::Start, Event::Failed(e)]);
    } else if words.len() == 1 {
        assert(events =~= seq![Event::Start, Event::Value(words[0] as u32), Event::Failed(e)]);
    } else {
        assert(events =~= seq![
            Event::Start,
            Event::Value(words[0] as u32),
            Event::Value(words[1] as u32),
            Event::Failed(e),
        ]);
    }
}

/// Reading the Ethernet address from the EEPROM, all three reads going
/// through: the snapshot's address is made of the three words, in their
/// order.
pub proof fn lemma_load_reads_address(
    offset: u8,
    mode: PowerMode,
    snap: Snapshot,
    w0: u16,
    w1: u16,
    w2: u16,
)
    ensures
        ({
            let (end, actions) = ran(
                load_address_steps(offset),
                mode,
                snap,
                seq![
                    Event::Start,
                    Event::Value(w0 as u32),
                    Event::Value(w1 as u32),
                    Event::Value(w2 as u32),
                ],
            );
            &&& end.status == Status::Finished
            &&& end.address_read
            &&& end.snapshot == (Snapshot { address: MacAddress { w0, w1, w2 }, ..snap })
        }),
{
    reveal_with_fuel(run_from, 5);
}

/// Resolving the Ethernet address, with a read that fails before all three
/// words are in: the error is handed on, the station address is not
/// written, and the snapshot's address is as the run found it.
pub proof fn lemma_failed_resolve_keeps_address(
    mode: PowerMode,
    snap: Snapshot,
    words: Seq<u16>,
    e: Error,
)
    requires
        words.len() < 3,
    ensures
        ({
            let (end, actions) = ran(
                resolve_address_steps(),
                mode,
                snap,
                failing_reads(0, words, e),
            );
            &&& end.status == Status::Faulted(e)
            &&& end.snapshot == snap
            &&& !end.address_read
            &&& actions.len() == words.len() + 2
            &&& forall|k: int|
                0 <= k <= words.len() ==> #[trigger] actions[k] == read_of_word(mode, 0, k)
            &&& actions[words.len() as int + 1] == Action::Aborted(e)
        }),
{
    let events = failing_reads(0, words, e);
    let steps = resolve_address_steps();
    assert(steps =~= seq![
        Step::ReadAddress { offset: 0, word: 0 },
        Step::ReadAddress { offset: 0, word: 1 },
        Step::ReadAddress { offset: 0, word: 2 },
        Step::WriteAddress,
    ]);
    reveal_with_fuel(run_from, 5);
    if words.len() == 0 {
        assert(events =~= seq![Event::Start, Event::Failed(e)]);
    } else if words.len() == 1 {
        assert(events =~= seq![Event::Start, Event::Value(words[0] as u32), Event::Failed(e)]);
    } else {
        assert(events =~= seq![
            Event::Start,
            Event::Value(words[0] as u32),
            Event::Value(words[1] as u32),
            Event::Failed(e),
        ]);
    }
}

/// Resolving the Ethernet address, with the write of the station address
/// failing: the error is handed on, and the address that was read stays in
/// the snapshot.
pub proof fn lemma_failed_station_write_keeps_resolved_address(
    mode: PowerMode,
    snap: Snapshot,
    w0: u16,
    w1: u16,
    w2: u16,
    e: Error,
)
    ensures
        ({
            let (end, actions) = ran(
                resolve_address_steps(),
                mode,
                snap,
                seq![
                    Event::Start,
                    Event::Value(w0 as u32),
                    Event::Value(w1 as u32),
                    Event::Value(w2 as u32),
                    Event::Failed(e),
                ],
            );
            &&& end.status == Status::Faulted(e)
            &&& end.address_read
            &&& end.snapshot == (Snapshot { address: MacAddress { w0, w1, w2 }, ..snap })
            &&& actions[3] == (Action::Write {
                mode,
                cmd: AX_ACCESS_MAC,
                value: AX_NODE_ID,
                index: 6,
                data: Payload::Address(MacAddress { w0, w1, w2 }),
            })
        }),
{
    let steps = resolve_address_steps();
    assert(steps =~= seq![
        Step::ReadAddress { offset: 0, word: 0 },
        Step::ReadAddress { offset: 0, word: 1 },
        Step::ReadAddress { offset: 0, word: 2 },
        Step::WriteAddress,
    ]);
    reveal_with_fuel(run_from, 6);
}

/// Binding, with a read of the Ethernet address that fails before all
/// three words are in: the error is handed on, and the snapshot is as the
/// run found it.
pub proof fn lemma_failed_bind_read_keeps_address(
    align_ip: bool,
    snap: Snapshot,
    words: Seq<u16>,
    e: Error,
)
    requires
        words.len() < 3,
    ensures
        ({
            let (end, actions) = ran(
                bind_steps(align_ip),
                PowerMode::Normal,
                snap,
                failing_reads(6, words, e),
            );
            &&& end.status == Status::Faulted(e)
            &&& end.snapshot == snap
            &&& !end.address_read
            &&& actions.len() == words.len() + 8
            &&& actions[words.len() as int + 7] == Action::Aborted(e)
        }),
{
    let events = failing_reads(6, words, e);
    let d = Event::Done;
    reveal_with_fuel(run_from, 11);
    if words.len() == 0 {
        assert(events =~= seq![Event::Start, d, d, d, d, d, d, Event::Failed(e)]);
    } else if words.len() == 1 {
        assert(events =~= seq![
            Event::Start,
            d,
            d,
            d,
            d,
            d,
            d,
            Event::Value(words[0] as u32),
            Event::Failed(e),
        ]);
    } else {
        assert(events =~= seq![
            Event::Start,
            d,
            d,
            d,
            d,
            d,
            d,
            Event::Value(words[0] as u32),
            Event::Value(words[1] as u32),
            Event::Failed(e),
        ]);
    }
}

/// The steps of a transition that the sequencer runs. A link reset has
/// none: it is run by a machine of its own.
pub open spec fn steps_of(t: Transition, align_ip: bool) -> Option<Seq<Step>> {
    match t {
        Transition::Bind => Some(bind_steps(align_ip)),
        Transition::Reset => Some(reset_steps(align_ip)),
        Transition::Stop => Some(stop_steps()),
        Transition::Suspend => Some(suspend_steps()),
        Transition::Resume => Some(resume_steps(align_ip)),
        Transition::Unbind => Some(unbind_steps()),
        Transition::LinkReset => None,
    }
}

/// A transition made ready to run: its steps, and with them the path that
/// its register operations take. A plan cannot be made for a transition
/// with any other steps or path than its own.
pub struct Plan {
    transition: Transition,
    align_ip: bool,
    script: Vec<Step>,
}

impl Plan {
    #[verifier::type_invariant]
    spec fn well_formed(&self) -> bool {
        steps_of(self.transition, self.align_ip) == Some(self.script@)
    }

    /// The transition that the plan is for.
    pub closed spec fn transition(&self) -> Transition {
        self.transition
    }

    /// Whether the plan lets the adapter align the IP header.
    pub closed spec fn aligns_ip(&self) -> bool {
        self.align_ip
    }

    /// The steps of the plan.
    pub open spec fn steps(&self) -> Seq<Step> {
        steps_of(self.transition(), self.aligns_ip()).unwrap()
    }

    /// The plan for transition `t`; none for a link reset.
    pub fn new(t: Transition, align_ip: bool) -> (r: Option<Plan>)
        ensures
            r.is_some() == steps_of(t, align_ip).is_some(),
            r.is_some() ==> r.unwrap().transition() == t && r.unwrap().aligns_ip() == align_ip,
    {
        let script = match t {
            Transition::Bind => bind_script(align_ip),
            Transition::Reset => reset_script(align_ip),
            Transition::Stop => stop_script(),
            Transition::Suspend => suspend_script(),
            Transition::Resume => resume_script(align_ip),
            Transition::Unbind => unbind_script(),
            Transition::LinkReset => {
                return None;
            },
        };
        Some(Plan { transition: t, align_ip, script })
    }

    /// The transition that the plan is for.
    pub fn kind(&self) -> (t: Transition)
        ensures
            t == self.transition(),
    {
        self.transition
    }

    /// The path that the plan's register operations take.
    pub fn mode(&self) -> (mode: PowerMode)
        ensures
            mode == mode_of(self.transition()),
    {
        self.transition.power_mode()
    }

    /// Moves the planned transition on: the sequencer's step over the plan's
    /// own steps, on the plan's own path.
    pub fn advance(&self, st: RunState, ev: Event) -> (r: (RunState, Action))
        ensures
            steps_of(self.transition(), self.aligns_ip()).is_some(),
            r == advanced(self.steps(), mode_of(self.transition()), st, ev),
    {
        proof {
            use_type_invariant(self);
        }
        advance(self.script.as_slice(), self.transition.power_mode(), st, ev)
    }
}

/// Suspend and resume ask for every register operation on the path
/// without power management, and every other transition on the ordinary
/// one.
pub proof fn lemma_transition_keeps_its_path(
    t: Transition,
    align_ip: bool,
    st: RunState,
    ev: Event,
)
    requires
        steps_of(t, align_ip).is_some(),
    ensures
        ({
            let action = advanced(steps_of(t, align_ip).unwrap(), mode_of(t), st, ev).1;
            let mode = if t is Suspend || t is Resume {
                PowerMode::NoPowerManagement
            } else {
                PowerMode::Normal
            };
            &&& action is Read ==> action->Read_mode == mode
            &&& action is Write ==> action->Write_mode == mode
        }),
{
    lemma_mode_is_handed_on(steps_of(t, align_ip).unwrap(), mode_of(t), st, ev);
}

/// A register operation of suspend: on the path without power management.
pub open spec fn quiet_read(value: u16) -> Action {
    Action::Read {
        mode: PowerMode::NoPowerManagement,
        cmd: AX_ACCESS_MAC,
        value,
        index: 2,
        size: 2,
        convert: true,
    }
}

/// A register write of suspend: on the path without power management.
pub open spec fn quiet_write(value: u16, index: u16, data: Payload) -> Action {
    Action::Write { mode: PowerMode::NoPowerManagement, cmd: AX_ACCESS_MAC, value, index, data }
}

/// Suspend, all transfers going through, with the medium mode read as `m`
/// and the PHY power register read as `p`: after the USB stack has
/// suspended the interface, the medium mode is written back without its
/// receive-enable bit, the PHY power register with the low-power and
/// reset-release bits set, then the wake-up block, the clock select as
/// zero, the receive control as stopped, and the monitor mode that the
/// snapshot holds; every one of them on the path without power management,
/// and the snapshot is left as it was.
pub proof fn lemma_suspend_run(snap: Snapshot, m: u16, p: u16)
    ensures
        ({
            let d = Event::Done;
            let (end, actions) = ran(
                steps_of(Transition::Suspend, false).unwrap(),
                mode_of(Transition::Suspend),
                snap,
                seq![Event::Start, d, Event::Value(m as u32), d, Event::Value(p as u32), d, d, d, d, d],
            );
            &&& end.status == Status::Finished
            &&& end.snapshot == snap
            &&& actions == seq![
                Action::Signal(Signal::UsbSuspend),
                quiet_read(AX_MEDIUM_STATUS_MODE),
                quiet_write(AX_MEDIUM_STATUS_MODE, 2, Payload::Half(modified(m, 0x0100, 0))),
                quiet_read(AX_PHYPWR_RSTCTL),
                quiet_write(AX_PHYPWR_RSTCTL, 2, Payload::Half(modified(p, 0, 0x0030))),
                Action::Write {
                    mode: PowerMode::NoPowerManagement,
                    cmd: AX_ACCESS_WAKEUP,
                    value: 0x01,
                    index: 0,
                    data: Payload::WakeTimer,
                },
                quiet_write(AX_CLK_SELECT, 1, Payload::Byte(0)),
                quiet_write(AX_RX_CTL, 2, Payload::Half(0)),
                quiet_write(AX_MONITOR_MODE, 1, Payload::Byte(snap.reg_monitor)),
                Action::Finished,
            ]
        }),
{
    let d = Event::Done;
    let events = seq![
        Event::Start,
        d,
        Event::Value(m as u32),
        d,
        Event::Value(p as u32),
        d,
        d,
        d,
        d,
        d,
    ];
    reveal_with_fuel(run_from, 12);
    let (end, actions) = ran(suspend_steps(), PowerMode::NoPowerManagement, snap, events);
    assert(low16(m as u32) == m);
    assert(low16(p as u32) == p);
    assert(actions =~= seq![
        Action::Signal(Signal::UsbSuspend),
        quiet_read(AX_MEDIUM_STATUS_MODE),
        quiet_write(AX_MEDIUM_STATUS_MODE, 2, Payload::Half(modified(m, 0x0100, 0))),
        quiet_read(AX_PHYPWR_RSTCTL),
        quiet_write(AX_PHYPWR_RSTCTL, 2, Payload::Half(modified(p, 0, 0x0030))),
        Action::Write {
            mode: PowerMode::NoPowerManagement,
            cmd: AX_ACCESS_WAKEUP,
            value: 0x01,
            index: 0,
            data: Payload::WakeTimer,
        },
        quiet_write(AX_CLK_SELECT, 1, Payload::Byte(0)),
        quiet_write(AX_RX_CTL, 2, Payload::Half(0)),
        quiet_write(AX_MONITOR_MODE, 1, Payload::Byte(snap.reg_monitor)),
        Action::Finished,
    ]);
}

} // verus!
