//! Link reset: what the driver does when the adapter reports that the link
//! changed.
//!
//! The PHY is polled for the link for at most ten seconds. If the link does
//! not come up the link stays down, and that is no fault. If it comes up,
//! the bulk-IN queue is set for the port and link speed, an operation that
//! is still pending in the adapter is drained for at most half a second, and
//! the receive path is enabled with the medium mode of the link.
//!
//! Like the sequencer, this machine performs nothing: it names the next
//! thing to do and is told how that ended, and at what time.

use vstd::prelude::*;
use crate::link::{
    duplex_of,
    link_is_up,
    link_report,
    link_speed_of,
    medium_mode,
    medium_mode_of,
    profile_index,
    profile_of,
    select_profile,
    usb_speed,
    usb_speed_of,
    BulkProfile,
    Duplex,
    LinkSpeed,
    LinkState,
    UsbSpeed,
};
use crate::regs::{
    AX88179_PHY_ID,
    AX_ACCESS_CONTROL,
    AX_ACCESS_MAC,
    AX_ACCESS_PHY,
    AX_CONTROL_ABORT,
    AX_CONTROL_STATUS,
    AX_MEDIUM_RECEIVE_EN,
    AX_MEDIUM_STATUS_MODE,
    AX_RX_BULKIN_QCTRL,
    AX_RX_CTL,
    AX_RX_CTL_STOP,
    GMII_PHY_PHYSR,
    PHYSICAL_LINK_STATUS,
};
use crate::sequence::{low16, low8, misuse, Action, Event, Payload, Signal, EPROTO};
use crate::transport::{Error, PowerMode};

verus! {

/// Milliseconds for which the PHY is polled for the link.
pub const LINK_TIMEOUT_MS: u64 = 10_000;

/// Milliseconds for which a pending operation is drained.
pub const DRAIN_TIMEOUT_MS: u64 = 500;

/// What a link reset needs to know of the interface.
#[derive(Clone, Copy, Debug, PartialEq, Eq, Structural)]
pub struct ResetConfig {
    /// The interface's MTU.
    pub mtu: u32,
    /// The receive control value to go back to after a drain.
    pub rxctl: u16,
}

/// What was negotiated, and the queue profile that goes with it.
#[derive(Clone, Copy, Debug, PartialEq, Eq, Structural)]
pub struct Negotiated {
    pub speed: LinkSpeed,
    pub duplex: Duplex,
    pub profile: u8,
}

/// Where a link reset stands: what is in flight.
#[derive(Clone, Copy, Debug, PartialEq, Eq, Structural)]
pub enum ResetState {
    /// Not begun.
    Idle,
    /// The read of the USB and link status byte.
    UsbStatus,
    /// A read of the PHY status, to be repeated until `deadline`.
    PhyStatus { usb: UsbSpeed, deadline: u64 },
    /// The write of the bulk-IN queue registers.
    Queue { link: Negotiated },
    /// The read of the control status, to see whether an operation is
    /// pending.
    Pending { link: Negotiated },
    /// The write that stops the receiver before the drain.
    StopRx { link: Negotiated },
    /// The write of the medium mode, receive path still disabled.
    QuietMedium { link: Negotiated },
    /// A read of the control status during the drain.
    Drain { link: Negotiated, deadline: u64 },
    /// The write that aborts the pending operation.
    AbortPending { link: Negotiated, deadline: u64 },
    /// The write that brings the receive control back.
    RestoreRx { link: Negotiated },
    /// The write of the medium mode with the receive path enabled.
    Medium { link: Negotiated },
    /// The report of the carrier to the stack.
    Carrier { link: Negotiated },
    /// Over: the link is as given, down or up.
    Over(LinkState),
    /// A transfer failed: the reset was given up.
    Faulted(Error),
}

/// `now + span`, or the largest time where that is behind it.
pub open spec fn deadline_of(now: u64, span: u64) -> u64 {
    if now + span <= u64::MAX {
        (now + span) as u64
    } else {
        u64::MAX
    }
}

/// Whether the control status reports an operation as pending (bit 30).
pub open spec fn is_pending(status: u32) -> bool {
    status / 0x4000_0000 % 2 == 1
}

/// The read of the PHY status.
pub open spec fn read_phy_status() -> Action {
    Action::Read {
        mode: PowerMode::Normal,
        cmd: AX_ACCESS_PHY,
        value: AX88179_PHY_ID,
        index: GMII_PHY_PHYSR,
        size: 2,
        convert: true,
    }
}

/// The read of the control status.
pub open spec fn read_control_status() -> Action {
    Action::Read {
        mode: PowerMode::Normal,
        cmd: AX_ACCESS_CONTROL,
        value: AX_CONTROL_STATUS,
        index: 0,
        size: 4,
        convert: true,
    }
}

/// A write of a 16-bit value to a register of the MAC.
pub open spec fn write_mac_half(value: u16, v: u16) -> Action {
    Action::Write {
        mode: PowerMode::Normal,
        cmd: AX_ACCESS_MAC,
        value,
        index: 2,
        data: Payload::Half(v),
    }
}

/// What was negotiated according to the PHY status `physr`, on a port of
/// speed `usb`.
pub open spec fn negotiated_of(usb: UsbSpeed, physr: u16) -> Negotiated {
    Negotiated {
        speed: link_speed_of(physr),
        duplex: duplex_of(physr),
        profile: profile_index(usb, link_speed_of(physr)),
    }
}

/// The medium mode for `link`, receive path disabled.
pub open spec fn quiet_mode(cfg: ResetConfig, link: Negotiated) -> u16 {
    medium_mode_of(link.speed, link.duplex, cfg.mtu)
}

/// The medium mode for `link`, receive path enabled.
pub open spec fn live_mode(cfg: ResetConfig, link: Negotiated) -> u16 {
    (medium_mode_of(link.speed, link.duplex, cfg.mtu) + AX_MEDIUM_RECEIVE_EN) as u16
}

/// The state and the action that give the reset up for `e`.
pub open spec fn reset_faulted(e: Error) -> (ResetState, Action) {
    (ResetState::Faulted(e), Action::Aborted(e))
}

/// The transition function of a link reset: the state and the action that
/// follow state `st` when what was in flight ended with `ev` at time `now`,
/// in milliseconds of a clock that does not go back.
pub open spec fn reset_next(cfg: ResetConfig, st: ResetState, ev: Event, now: u64) -> (
    ResetState,
    Action,
) {
    match st {
        ResetState::Faulted(e) => (st, Action::Aborted(e)),
        ResetState::Over(l) => (st, Action::Finished),
        _ => match ev {
            Event::Failed(e) => reset_faulted(e),
            Event::Start => if st is Idle {
                (
                    ResetState::UsbStatus,
                    Action::Read {
                        mode: PowerMode::Normal,
                        cmd: AX_ACCESS_MAC,
                        value: PHYSICAL_LINK_STATUS,
                        index: 1,
                        size: 1,
                        convert: false,
                    },
                )
            } else {
                reset_faulted(misuse())
            },
            Event::Value(v) => match st {
                ResetState::UsbStatus => (
                    ResetState::PhyStatus {
                        usb: usb_speed_of(low8(v)),
                        deadline: deadline_of(now, LINK_TIMEOUT_MS),
                    },
                    read_phy_status(),
                ),
                ResetState::PhyStatus { usb, deadline } => if link_is_up(low16(v)) {
                    let link = negotiated_of(usb, low16(v));
                    (
                        ResetState::Queue { link },
                        Action::Write {
                            mode: PowerMode::Normal,
                            cmd: AX_ACCESS_MAC,
                            value: AX_RX_BULKIN_QCTRL,
                            index: 5,
                            data: Payload::Queue(profile_of(link.profile)),
                        },
                    )
                } else if now < deadline {
                    (st, read_phy_status())
                } else {
                    (ResetState::Over(LinkState::Down), Action::Finished)
                },
                ResetState::Pending { link } => if is_pending(v) {
                    (ResetState::StopRx { link }, write_mac_half(AX_RX_CTL, AX_RX_CTL_STOP))
                } else {
                    (
                        ResetState::Medium { link },
                        write_mac_half(AX_MEDIUM_STATUS_MODE, live_mode(cfg, link)),
                    )
                },
                ResetState::Drain { link, deadline } => if is_pending(v) {
                    (
                        ResetState::AbortPending { link, deadline },
                        Action::Write {
                            mode: PowerMode::Normal,
                            cmd: AX_ACCESS_CONTROL,
                            value: AX_CONTROL_STATUS,
                            index: 0,
                            data: Payload::Word(AX_CONTROL_ABORT),
                        },
                    )
                } else {
                    (ResetState::RestoreRx { link }, write_mac_half(AX_RX_CTL, cfg.rxctl))
                },
                _ => reset_faulted(misuse()),
            },
            Event::Done => match st {
                ResetState::Queue { link } => (ResetState::Pending { link }, read_control_status()),
                ResetState::StopRx { link } => (
                    ResetState::QuietMedium { link },
                    write_mac_half(AX_MEDIUM_STATUS_MODE, quiet_mode(cfg, link)),
                ),
                ResetState::QuietMedium { link } => (
                    ResetState::Drain { link, deadline: deadline_of(now, DRAIN_TIMEOUT_MS) },
                    read_control_status(),
                ),
                ResetState::AbortPending { link, deadline } => if now < deadline {
                    (ResetState::Drain { link, deadline }, read_control_status())
                } else {
                    (ResetState::RestoreRx { link }, write_mac_half(AX_RX_CTL, cfg.rxctl))
                },
                ResetState::RestoreRx { link } => (
                    ResetState::Medium { link },
                    write_mac_half(AX_MEDIUM_STATUS_MODE, live_mode(cfg, link)),
                ),
                ResetState::Medium { link } => (
                    ResetState::Carrier { link },
                    Action::Signal(Signal::CarrierOn),
                ),
                ResetState::Carrier { link } => (
                    ResetState::Over(
                        LinkState::Up {
                            speed: link.speed,
                            duplex: link.duplex,
                            profile: link.profile,
                        },
                    ),
                    Action::Finished,
                ),
                _ => reset_faulted(misuse()),
            },
        },
    }
}

/// `now + span`, or the largest time where that is behind it.
fn deadline(now: u64, span: u64) -> (d: u64)
    ensures
        d == deadline_of(now, span),
{
    if now <= u64::MAX - span {
        now + span
    } else {
        u64::MAX
    }
}

/// The read of the PHY status.
fn phy_status_read() -> (a: Action)
    ensures
        a == read_phy_status(),
{
    Action::Read {
        mode: PowerMode::Normal,
        cmd: AX_ACCESS_PHY,
        value: AX88179_PHY_ID,
        index: GMII_PHY_PHYSR,
        size: 2,
        convert: true,
    }
}

/// The read of the control status.
fn control_status_read() -> (a: Action)
    ensures
        a == read_control_status(),
{
    Action::Read {
        mode: PowerMode::Normal,
        cmd: AX_ACCESS_CONTROL,
        value: AX_CONTROL_STATUS,
        index: 0,
        size: 4,
        convert: true,
    }
}

/// A write of a 16-bit value to a register of the MAC.
fn mac_half_write(value: u16, v: u16) -> (a: Action)
    ensures
        a == write_mac_half(value, v),
{
    Action::Write { mode: PowerMode::Normal, cmd: AX_ACCESS_MAC, value, index: 2, data: Payload::Half(v) }
}

/// Gives the reset up for `e`.
fn reset_fault(e: Error) -> (r: (ResetState, Action))
    ensures
        r == reset_faulted(e),
{
    (ResetState::Faulted(e), Action::Aborted(e))
}

/// The medium mode for `link`, with the receive path enabled or not.
fn mode_for(cfg: ResetConfig, link: Negotiated, live: bool) -> (mode: u16)
    ensures
        mode == if live {
            live_mode(cfg, link)
        } else {
            quiet_mode(cfg, link)
        },
{
    let quiet: u16 = medium_mode(link.speed, link.duplex, cfg.mtu);
    if live {
        quiet + AX_MEDIUM_RECEIVE_EN
    } else {
        quiet
    }
}

/// Answers a value that a read brought.
fn on_value(cfg: ResetConfig, st: ResetState, v: u32, now: u64) -> (r: (ResetState, Action))
    requires
        !(st is Faulted),
        !(st is Over),
    ensures
        r == reset_next(cfg, st, Event::Value(v), now),
{
    match st {
        ResetState::UsbStatus => (
            ResetState::PhyStatus {
                usb: usb_speed((v % 0x100) as u8),
                deadline: deadline(now, LINK_TIMEOUT_MS),
            },
            phy_status_read(),
        ),
        ResetState::PhyStatus { usb, deadline } => {
            match link_report((v % 0x1_0000) as u16) {
                Some((speed, duplex)) => {
                    let link = Negotiated { speed, duplex, profile: select_profile(usb, speed) };
                    (
                        ResetState::Queue { link },
                        Action::Write {
                            mode: PowerMode::Normal,
                            cmd: AX_ACCESS_MAC,
                            value: AX_RX_BULKIN_QCTRL,
                            index: 5,
                            data: Payload::Queue(BulkProfile::get(link.profile)),
                        },
                    )
                },
                None => {
                    if now < deadline {
                        (st, phy_status_read())
                    } else {
                        (ResetState::Over(LinkState::Down), Action::Finished)
                    }
                },
            }
        },
        ResetState::Pending { link } => {
            if v / 0x4000_0000 % 2 == 1 {
                (ResetState::StopRx { link }, mac_half_write(AX_RX_CTL, AX_RX_CTL_STOP))
            } else {
                (
                    ResetState::Medium { link },
                    mac_half_write(AX_MEDIUM_STATUS_MODE, mode_for(cfg, link, true)),
                )
            }
        },
        ResetState::Drain { link, deadline } => {
            if v / 0x4000_0000 % 2 == 1 {
                (
                    ResetState::AbortPending { link, deadline },
                    Action::Write {
                        mode: PowerMode::Normal,
                        cmd: AX_ACCESS_CONTROL,
                        value: AX_CONTROL_STATUS,
                        index: 0,
                        data: Payload::Word(AX_CONTROL_ABORT),
                    },
                )
            } else {
                (ResetState::RestoreRx { link }, mac_half_write(AX_RX_CTL, cfg.rxctl))
            }
        },
        _ => reset_fault(Error::from_kernel_errno(EPROTO)),
    }
}

/// Answers a write, or a call on the stack, that is done.
fn on_done(cfg: ResetConfig, st: ResetState, now: u64) -> (r: (ResetState, Action))
    requires
        !(st is Faulted),
        !(st is Over),
    ensures
        r == reset_next(cfg, st, Event::Done, now),
{
    match st {
        ResetState::Queue { link } => (ResetState::Pending { link }, control_status_read()),
        ResetState::StopRx { link } => (
            ResetState::QuietMedium { link },
            mac_half_write(AX_MEDIUM_STATUS_MODE, mode_for(cfg, link, false)),
        ),
        ResetState::QuietMedium { link } => (
            ResetState::Drain { link, deadline: deadline(now, DRAIN_TIMEOUT_MS) },
            control_status_read(),
        ),
        ResetState::AbortPending { link, deadline } => {
            if now < deadline {
                (ResetState::Drain { link, deadline }, control_status_read())
            } else {
                (ResetState::RestoreRx { link }, mac_half_write(AX_RX_CTL, cfg.rxctl))
            }
        },
        ResetState::RestoreRx { link } => (
            ResetState::Medium { link },
            mac_half_write(AX_MEDIUM_STATUS_MODE, mode_for(cfg, link, true)),
        ),
        ResetState::Medium { link } => (
            ResetState::Carrier { link },
            Action::Signal(Signal::CarrierOn),
        ),
        ResetState::Carrier { link } => (
            ResetState::Over(
                LinkState::Up { speed: link.speed, duplex: link.duplex, profile: link.profile },
            ),
            Action::Finished,
        ),
        _ => reset_fault(Error::from_kernel_errno(EPROTO)),
    }
}

/// Moves a link reset on: given how the thing last asked for ended, and
/// the time, says what is to be done next.
///
/// The caller begins with `ResetState::Idle` and `Event::Start`, does what
/// the action says, and comes back with the event and the time, until the
/// action is `Finished` or `Aborted`.
pub fn link_reset(cfg: ResetConfig, st: ResetState, ev: Event, now: u64) -> (r: (
    ResetState,
    Action,
))
    ensures
        r == reset_next(cfg, st, ev, now),
{
    match st {
        ResetState::Faulted(e) => (st, Action::Aborted(e)),
        ResetState::Over(_) => (st, Action::Finished),
        _ => match ev {
            Event::Failed(e) => reset_fault(e),
            Event::Start => match st {
                ResetState::Idle => (
                    ResetState::UsbStatus,
                    Action::Read {
                        mode: PowerMode::Normal,
                        cmd: AX_ACCESS_MAC,
                        value: PHYSICAL_LINK_STATUS,
                        index: 1,
                        size: 1,
                        convert: false,
                    },
                ),
                _ => reset_fault(Error::from_kernel_errno(EPROTO)),
            },
            Event::Value(v) => on_value(cfg, st, v, now),
            Event::Done => on_done(cfg, st, now),
        },
    }
}

/// The link that a link reset leaves, once it is over: `None` while it
/// runs, and after a fault.
pub fn link_after(st: ResetState) -> (l: Option<LinkState>)
    ensures
        l == match st {
            ResetState::Over(link) => Some(link),
            _ => None::<LinkState>,
        },
{
    match st {
        ResetState::Over(link) => Some(link),
        _ => None,
    }
}

/// A poll of the PHY that does not find the link goes on only while the
/// time is before the deadline. At the deadline, or behind it, the reset
/// ends with the link down: a timeout is no fault, and nothing more is
/// asked of the adapter.
pub proof fn lemma_link_timeout(cfg: ResetConfig, usb: UsbSpeed, deadline: u64, v: u32, now: u64)
    requires
        !link_is_up(low16(v)),
    ensures
        now >= deadline ==> reset_next(
            cfg,
            ResetState::PhyStatus { usb, deadline },
            Event::Value(v),
            now,
        ) == (ResetState::Over(LinkState::Down), Action::Finished),
        now < deadline ==> reset_next(
            cfg,
            ResetState::PhyStatus { usb, deadline },
            Event::Value(v),
            now,
        ) == (ResetState::PhyStatus { usb, deadline }, read_phy_status()),
{
}

/// A drain that does not see the pending bit clear goes on only while the
/// time is before the deadline; then the receive control is brought back
/// all the same.
pub proof fn lemma_drain_timeout(cfg: ResetConfig, link: Negotiated, deadline: u64, now: u64)
    requires
        now >= deadline,
    ensures
        reset_next(cfg, ResetState::AbortPending { link, deadline }, Event::Done, now) == (
            ResetState::RestoreRx { link },
            write_mac_half(AX_RX_CTL, cfg.rxctl),
        ),
{
}

/// A transfer that fails gives the link reset up with the transfer's error,
/// wherever it stands; and a reset that was given up stays so.
pub proof fn lemma_reset_failure(cfg: ResetConfig, st: ResetState, ev: Event, e: Error, now: u64)
    ensures
        !(st is Over) && !(st is Faulted) ==> reset_next(cfg, st, Event::Failed(e), now) == (
            ResetState::Faulted(e),
            Action::Aborted(e),
        ),
        st == ResetState::Faulted(e) ==> reset_next(cfg, st, ev, now) == (st, Action::Aborted(e)),
{
}

/// When the PHY reports the link, the bulk-IN queue is set to the profile
/// that the port speed and the link speed select, before anything else is
/// written.
pub proof fn lemma_link_up_sets_queue(
    cfg: ResetConfig,
    usb: UsbSpeed,
    deadline: u64,
    v: u32,
    now: u64,
)
    requires
        link_is_up(low16(v)),
    ensures
        reset_next(cfg, ResetState::PhyStatus { usb, deadline }, Event::Value(v), now).1 == (
            Action::Write {
                mode: PowerMode::Normal,
                cmd: AX_ACCESS_MAC,
                value: AX_RX_BULKIN_QCTRL,
                index: 5,
                data: Payload::Queue(
                    profile_of(profile_index(usb, link_speed_of(low16(v)))),
                ),
            }
        ),
{
}

} // verus!
