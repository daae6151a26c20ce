//! Device-control and data-framing core of the ASIX AX88179/178A USB 3.0
//! Gigabit Ethernet adapter: the register wire format, the bulk framing
//! protocol in both directions, and the register sequences behind the
//! adapter's link and power transitions.

pub mod codec;
pub mod regs;
pub mod transport;
pub mod link;
pub mod mac;
pub mod sequence;
pub mod transitions;
pub mod link_reset;
pub mod poll;
pub mod eeprom;
pub mod adapter;
pub mod rx;
pub mod tx;
pub mod loopback;
