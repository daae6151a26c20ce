//! The adapter's register map: command classes, register numbers and the
//! bits of the registers that the driver touches.

use vstd::prelude::*;

verus! {

/// Command class: the MAC's registers.
pub const AX_ACCESS_MAC: u8 = 0x01;

/// Command class: the PHY's registers.
pub const AX_ACCESS_PHY: u8 = 0x02;

/// Command class: the wake-up frame filters.
pub const AX_ACCESS_WAKEUP: u8 = 0x03;

/// Command class: the EEPROM.
pub const AX_ACCESS_EEPROM: u8 = 0x04;

/// Command class: the eFuse.
pub const AX_ACCESS_EFUSE: u8 = 0x05;

/// Command class: reload of EEPROM and eFuse.
pub const AX_RELOAD_EEPROM_EFUSE: u8 = 0x06;

/// Command class: enable writing the eFuse.
pub const AX_WRITE_EFUSE_EN: u8 = 0x09;

/// Command class: disable writing the eFuse.
pub const AX_WRITE_EFUSE_DIS: u8 = 0x0A;

/// Command class: the manufacturing registers.
pub const AX_ACCESS_MFAB: u8 = 0x10;

/// Command class of the vendor's control block, whose four-byte values go
/// over the wire in the host's byte order.
pub const AX_ACCESS_CONTROL: u8 = 0x81;

/// Command class that keeps the PHY powered after the interface goes down.
pub const AX_KEEP_PHY_POWER: u8 = 0x91;

/// Control block: the reset register.
pub const AX_CONTROL_RESET: u16 = 0x310;

/// Control block: the status register with the operation-pending bit.
pub const AX_CONTROL_STATUS: u16 = 0x8c;

/// Control status: an operation is still in flight.
pub const AX_CONTROL_PENDING: u32 = 0x4000_0000;

/// Control status, written: abort the operation in flight.
pub const AX_CONTROL_ABORT: u32 = 0x8000_0000;

/// MAC register: the USB and link status.
pub const PHYSICAL_LINK_STATUS: u16 = 0x02;

/// Link status: the adapter sits on a SuperSpeed port.
pub const AX_USB_SS: u8 = 0x04;

/// Link status: the adapter sits on a high-speed port.
pub const AX_USB_HS: u8 = 0x02;

/// Link status: the adapter sits on a full-speed port.
pub const AX_USB_FS: u8 = 0x01;

/// MAC register: receive control.
pub const AX_RX_CTL: u16 = 0x0b;

/// Receive control: drop frames with a CRC error.
pub const AX_RX_CTL_DROPCRCERR: u16 = 0x0100;

/// Receive control: align the IP header on 32 bits.
pub const AX_RX_CTL_IPE: u16 = 0x0200;

/// Receive control: start the MAC.
pub const AX_RX_CTL_START: u16 = 0x0080;

/// Receive control: accept frames for addresses in the multicast array.
pub const AX_RX_CTL_AP: u16 = 0x0020;

/// Receive control: accept multicast frames that pass the filter.
pub const AX_RX_CTL_AM: u16 = 0x0010;

/// Receive control: accept broadcast frames.
pub const AX_RX_CTL_AB: u16 = 0x0008;

/// Receive control: accept all multicast frames.
pub const AX_RX_CTL_AMALL: u16 = 0x0002;

/// Receive control: accept every frame.
pub const AX_RX_CTL_PRO: u16 = 0x0001;

/// Receive control: stop the MAC.
pub const AX_RX_CTL_STOP: u16 = 0x0000;

/// MAC register: the station address.
pub const AX_NODE_ID: u16 = 0x10;

/// MAC register: medium status and mode.
pub const AX_MEDIUM_STATUS_MODE: u16 = 0x22;

/// Medium mode: gigabit.
pub const AX_MEDIUM_GIGAMODE: u16 = 0x01;

/// Medium mode: full duplex.
pub const AX_MEDIUM_FULL_DUPLEX: u16 = 0x02;

/// Medium mode: flow control on receive.
pub const AX_MEDIUM_RXFLOW_CTRLEN: u16 = 0x10;

/// Medium mode: flow control on transmit.
pub const AX_MEDIUM_TXFLOW_CTRLEN: u16 = 0x20;

/// Medium mode: the receive path is enabled.
pub const AX_MEDIUM_RECEIVE_EN: u16 = 0x100;

/// Medium mode: port speed 100 Mb/s.
pub const AX_MEDIUM_PS: u16 = 0x200;

/// Medium mode: jumbo frames.
pub const AX_MEDIUM_JUMBO_EN: u16 = 0x8040;

/// MAC register: monitor mode, the Wake-on-LAN configuration.
pub const AX_MONITOR_MODE: u16 = 0x24;

/// Monitor mode: wake on a magic packet.
pub const AX_MONITOR_MODE_RWMP: u8 = 0x04;

/// Monitor mode: PME polarity.
pub const AX_MONITOR_MODE_PMEPOL: u8 = 0x20;

/// Monitor mode: PME type.
pub const AX_MONITOR_MODE_PMETYPE: u8 = 0x40;

/// MAC register: PHY power and reset control.
pub const AX_PHYPWR_RSTCTL: u16 = 0x26;

/// PHY power: the low-power "bz" state.
pub const AX_PHYPWR_RSTCTL_BZ: u16 = 0x0010;

/// PHY power: release the internal PHY from reset.
pub const AX_PHYPWR_RSTCTL_IPRL: u16 = 0x0020;

/// PHY power: power the PHY down when the cable is unplugged.
pub const AX_PHYPWR_RSTCTL_AUTODETACH: u16 = 0x1000;

/// MAC register: bulk-IN queue control, the first of five registers that one
/// block write fills.
pub const AX_RX_BULKIN_QCTRL: u16 = 0x2e;

/// MAC register: clock select.
pub const AX_CLK_SELECT: u16 = 0x33;

/// Clock select: BCS.
pub const AX_CLK_SELECT_BCS: u8 = 0x01;

/// Clock select: ACS.
pub const AX_CLK_SELECT_ACS: u8 = 0x02;

/// Clock select: ULR, the auto-detach enable.
pub const AX_CLK_SELECT_ULR: u8 = 0x08;

/// MAC register: receive checksum offload.
pub const AX_RXCOE_CTL: u16 = 0x34;

/// MAC register: transmit checksum offload.
pub const AX_TXCOE_CTL: u16 = 0x35;

/// Checksum offload: IPv4 header.
pub const AX_COE_IP: u8 = 0x01;

/// Checksum offload: TCP over IPv4.
pub const AX_COE_TCP: u8 = 0x02;

/// Checksum offload: UDP over IPv4.
pub const AX_COE_UDP: u8 = 0x04;

/// Checksum offload: TCP over IPv6.
pub const AX_COE_TCPV6: u8 = 0x20;

/// Checksum offload: UDP over IPv6.
pub const AX_COE_UDPV6: u8 = 0x40;

/// Snapshot bit: receive checksum offload is on.
pub const AX_RX_CHECKSUM: u8 = 1;

/// Snapshot bit: transmit checksum offload is on.
pub const AX_TX_CHECKSUM: u8 = 2;

/// MAC register: pause water level, high mark.
pub const AX_PAUSE_WATERLVL_HIGH: u16 = 0x54;

/// MAC register: pause water level, low mark.
pub const AX_PAUSE_WATERLVL_LOW: u16 = 0x55;

/// The PHY's address on the management bus.
pub const AX88179_PHY_ID: u16 = 0x03;

/// PHY register: the PHY's own status.
pub const GMII_PHY_PHYSR: u16 = 0x11;

/// PHY status: the bits that give the speed.
pub const GMII_PHY_PHYSR_SMASK: u16 = 0xc000;

/// PHY status, speed bits: 1000 Mb/s.
pub const GMII_PHY_PHYSR_GIGA: u16 = 0x8000;

/// PHY status, speed bits: 100 Mb/s.
pub const GMII_PHY_PHYSR_100: u16 = 0x4000;

/// PHY status: full duplex.
pub const GMII_PHY_PHYSR_FULL: u16 = 0x2000;

/// PHY status: the link is up.
pub const GMII_PHY_PHYSR_LINK: u16 = 0x400;

/// EEPROM word that says whether the board wants auto-detach.
pub const EEPROM_AUTODETACH: u16 = 0x43;

/// Bit of that word: auto-detach is wanted.
pub const EEPROM_AUTODETACH_EN: u16 = 0x0100;

/// Length of the wake-up frame filter block.
pub const WAKEUP_BLOCK: usize = 38;

/// Length of an Ethernet address.
pub const ETH_ALEN: usize = 6;

} // verus!
