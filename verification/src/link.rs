//! Link parameters: what the PHY and the USB port report, and the settings
//! of the medium mode and of the bulk-IN queue that follow from them.

use vstd::prelude::*;

verus! {

/// The speed of the USB port that the adapter sits on.
#[derive(Clone, Copy, Debug, PartialEq, Eq, Structural)]
pub enum UsbSpeed {
    /// SuperSpeed (USB 3.0).
    Super,
    /// High speed (USB 2.0).
    High,
    /// Full speed (USB 1.1).
    Full,
}

/// The speed that the PHY negotiated.
#[derive(Clone, Copy, Debug, PartialEq, Eq, Structural)]
pub enum LinkSpeed {
    /// 10 Mb/s.
    Mb10,
    /// 100 Mb/s.
    Mb100,
    /// 1000 Mb/s.
    Mb1000,
}

/// The duplex that the PHY negotiated.
#[derive(Clone, Copy, Debug, PartialEq, Eq, Structural)]
pub enum Duplex {
    Half,
    Full,
}

/// The state of the link.
#[derive(Clone, Copy, Debug, PartialEq, Eq, Structural)]
pub enum LinkState {
    /// No link.
    Down,
    /// The PHY is negotiating.
    Negotiating,
    /// The link is up, with the bulk-IN queue set to the profile of number
    /// `profile`.
    Up { speed: LinkSpeed, duplex: Duplex, profile: u8 },
}

/// The five bulk-IN queue registers: how many received frames the adapter
/// gathers into one transfer, and for how long.
#[derive(Clone, Copy, Debug, PartialEq, Eq, Structural)]
pub struct BulkProfile {
    pub ctrl: u8,
    pub timer_low: u8,
    pub timer_high: u8,
    pub size: u8,
    pub ifg: u8,
}

/// The number of profiles.
pub const PROFILES: u8 = 4;

/// The profile of number `n`; the last one for every number behind it.
pub open spec fn profile_of(n: u8) -> BulkProfile {
    if n == 0 {
        BulkProfile { ctrl: 7, timer_low: 0x4f, timer_high: 0, size: 0x12, ifg: 0xff }
    } else if n == 1 {
        BulkProfile { ctrl: 7, timer_low: 0x20, timer_high: 3, size: 0x16, ifg: 0xff }
    } else if n == 2 {
        BulkProfile { ctrl: 7, timer_low: 0xae, timer_high: 7, size: 0x18, ifg: 0xff }
    } else {
        BulkProfile { ctrl: 7, timer_low: 0xcc, timer_high: 0x4c, size: 0x18, ifg: 8 }
    }
}

/// The number of the profile for a port and a link speed: 0 for gigabit over
/// SuperSpeed, 1 for gigabit over high speed, 2 for 100 Mb/s over any port,
/// 3 for everything else.
pub open spec fn profile_index(usb: UsbSpeed, link: LinkSpeed) -> u8 {
    match (link, usb) {
        (LinkSpeed::Mb1000, UsbSpeed::Super) => 0,
        (LinkSpeed::Mb1000, UsbSpeed::High) => 1,
        (LinkSpeed::Mb100, _) => 2,
        _ => 3,
    }
}

/// The port speed that the link status byte reports: the fastest whose bit
/// is set, and full speed where none is.
pub open spec fn usb_speed_of(status: u8) -> UsbSpeed {
    if status / 4 % 2 == 1 {
        UsbSpeed::Super
    } else if status / 2 % 2 == 1 {
        UsbSpeed::High
    } else {
        UsbSpeed::Full
    }
}

/// Whether the PHY status reports the link up (bit 10).
pub open spec fn link_is_up(physr: u16) -> bool {
    physr / 0x400 % 2 == 1
}

/// The link speed that the PHY status reports in its two top bits: binary
/// 10 is gigabit, 01 is 100 Mb/s, anything else 10 Mb/s.
pub open spec fn link_speed_of(physr: u16) -> LinkSpeed {
    if physr / 0x4000 == 2 {
        LinkSpeed::Mb1000
    } else if physr / 0x4000 == 1 {
        LinkSpeed::Mb100
    } else {
        LinkSpeed::Mb10
    }
}

/// The duplex that the PHY status reports (bit 13).
pub open spec fn duplex_of(physr: u16) -> Duplex {
    if physr / 0x2000 % 2 == 1 {
        Duplex::Full
    } else {
        Duplex::Half
    }
}

/// The medium mode for a link, without the receive-enable bit: flow control
/// both ways; the gigabit bit, and jumbo frames where the MTU is over 1500;
/// the port-speed bit for 100 Mb/s; the full-duplex bit.
pub open spec fn medium_mode_of(speed: LinkSpeed, duplex: Duplex, mtu: u32) -> u16 {
    (0x30 + (if speed == LinkSpeed::Mb1000 {
        if mtu > 1500 {
            0x8041int
        } else {
            0x01int
        }
    } else if speed == LinkSpeed::Mb100 {
        0x200int
    } else {
        0int
    }) + (if duplex == Duplex::Full {
        0x02int
    } else {
        0int
    })) as u16
}

/// The size of the receive transfers for a profile: 1024 bytes for each
/// unit of the profile's size, and two more.
pub open spec fn rx_urb_size_of(p: BulkProfile) -> u32 {
    (1024 * (p.size + 2)) as u32
}

impl BulkProfile {
    /// The profile of number `n`.
    pub fn get(n: u8) -> (p: BulkProfile)
        ensures
            p == profile_of(n),
    {
        if n == 0 {
            BulkProfile { ctrl: 7, timer_low: 0x4f, timer_high: 0, size: 0x12, ifg: 0xff }
        } else if n == 1 {
            BulkProfile { ctrl: 7, timer_low: 0x20, timer_high: 3, size: 0x16, ifg: 0xff }
        } else if n == 2 {
            BulkProfile { ctrl: 7, timer_low: 0xae, timer_high: 7, size: 0x18, ifg: 0xff }
        } else {
            BulkProfile { ctrl: 7, timer_low: 0xcc, timer_high: 0x4c, size: 0x18, ifg: 8 }
        }
    }

    /// The five bytes of the block write that sets the queue registers.
    pub fn bytes(&self) -> (wire: [u8; 5])
        ensures
            wire@ == seq![self.ctrl, self.timer_low, self.timer_high, self.size, self.ifg],
    {
        let wire: [u8; 5] = [self.ctrl, self.timer_low, self.timer_high, self.size, self.ifg];
        assert(wire@ =~= seq![self.ctrl, self.timer_low, self.timer_high, self.size, self.ifg]);
        wire
    }

    /// The size of the receive transfers that go with this profile.
    pub fn rx_urb_size(&self) -> (n: u32)
        ensures
            n == rx_urb_size_of(*self),
            2048 <= n <= 1024 * 257,
    {
        1024 * (self.size as u32 + 2)
    }
}

/// Selects the bulk-IN queue profile for a port speed and a link speed.
pub fn select_profile(usb: UsbSpeed, link: LinkSpeed) -> (n: u8)
    ensures
        n == profile_index(usb, link),
        n < PROFILES,
        usb == UsbSpeed::Super && link == LinkSpeed::Mb1000 ==> n == 0,
        usb == UsbSpeed::High && link == LinkSpeed::Mb1000 ==> n == 1,
        link == LinkSpeed::Mb100 ==> n == 2,
        link == LinkSpeed::Mb10 || (link == LinkSpeed::Mb1000 && usb == UsbSpeed::Full) ==> n
            == 3,
{
    match link {
        LinkSpeed::Mb1000 => match usb {
            UsbSpeed::Super => 0,
            UsbSpeed::High => 1,
            UsbSpeed::Full => 3,
        },
        LinkSpeed::Mb100 => 2,
        LinkSpeed::Mb10 => 3,
    }
}

/// Reads the port speed from the link status byte.
pub fn usb_speed(status: u8) -> (s: UsbSpeed)
    ensures
        s == usb_speed_of(status),
{
    if status / 4 % 2 == 1 {
        UsbSpeed::Super
    } else if status / 2 % 2 == 1 {
        UsbSpeed::High
    } else {
        UsbSpeed::Full
    }
}

/// Reads the PHY status: `None` while the link is down, else the speed and
/// the duplex that were negotiated.
pub fn link_report(physr: u16) -> (r: Option<(LinkSpeed, Duplex)>)
    ensures
        r.is_some() <==> link_is_up(physr),
        link_is_up(physr) ==> r == Some((link_speed_of(physr), duplex_of(physr))),
{
    if physr / 0x400 % 2 != 1 {
        return None;
    }
    let speed = if physr / 0x4000 == 2 {
        LinkSpeed::Mb1000
    } else if physr / 0x4000 == 1 {
        LinkSpeed::Mb100
    } else {
        LinkSpeed::Mb10
    };
    let duplex = if physr / 0x2000 % 2 == 1 {
        Duplex::Full
    } else {
        Duplex::Half
    };
    Some((speed, duplex))
}

/// Computes the medium mode for a link, without the receive-enable bit.
pub fn medium_mode(speed: LinkSpeed, duplex: Duplex, mtu: u32) -> (mode: u16)
    ensures
        mode == medium_mode_of(speed, duplex, mtu),
{
    let mut mode: u16 = 0x30;
    match speed {
        LinkSpeed::Mb1000 => {
            mode = mode + 0x01;
            if mtu > 1500 {
                mode = mode + 0x8040;
            }
        },
        LinkSpeed::Mb100 => {
            mode = mode + 0x200;
        },
        LinkSpeed::Mb10 => {},
    }
    match duplex {
        Duplex::Full => {
            mode = mode + 0x02;
        },
        Duplex::Half => {},
    }
    mode
}

/// The profile is chosen by the port speed and the link speed alone, and it
/// is always one of the four.
pub proof fn lemma_profile_selection(usb: UsbSpeed, link: LinkSpeed)
    ensures
        profile_index(usb, link) < PROFILES,
        profile_index(UsbSpeed::Super, LinkSpeed::Mb1000) == 0,
        profile_index(UsbSpeed::High, LinkSpeed::Mb1000) == 1,
        profile_index(usb, LinkSpeed::Mb100) == 2,
        link != LinkSpeed::Mb100 && !(link == LinkSpeed::Mb1000 && usb != UsbSpeed::Full)
            ==> profile_index(usb, link) == 3,
{
}

} // verus!
