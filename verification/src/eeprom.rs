//! The EEPROM and the eFuse: how a word of the EEPROM is read through the
//! MAC's serial ROM registers, and how the configuration that they hold is
//! checked.
//!
//! A read of a word sets the address, gives the read command and then waits
//! for the busy bit to clear, for a tenth of a second at most.

use vstd::prelude::*;
use crate::link_reset::deadline_of;
use crate::regs::AX_ACCESS_MAC;
use crate::sequence::{low16, low8, misuse, Action, Event, Payload, EPROTO};
use crate::transport::{Error, PowerMode};

verus! {

/// MAC register: the address of the EEPROM word to access.
pub const AX_SROM_ADDR: u16 = 0x07;

/// MAC register: the low byte of the EEPROM word, read together with the
/// high byte behind it.
pub const AX_SROM_DATA_LOW: u16 = 0x08;

/// MAC register: the EEPROM command and status.
pub const AX_SROM_CMD: u16 = 0x0a;

/// EEPROM command: read.
pub const EEP_RD: u8 = 0x04;

/// EEPROM status: the access is still going on.
pub const EEP_BUSY: u8 = 0x10;

/// Milliseconds for which the EEPROM is waited for.
pub const EEPROM_TIMEOUT_MS: u64 = 100;

/// The native code that a wait given up is reported with: an invalid
/// argument, negative as the kernel reports it.
pub const EINVAL: i32 = -22;

/// Number of bytes of the EEPROM that the check reads: six words.
pub const EEPROM_CHECKED: usize = 12;

/// Number of bytes of the eFuse.
pub const EFUSE_LENGTH: usize = 64;

/// The EEPROM or the eFuse does not hold a usable configuration.
#[derive(Clone, Copy, Debug, PartialEq, Eq, Structural)]
pub enum ConfigurationError {
    /// The Ethernet address is known to be bad.
    InvalidAddress,
    /// Fewer bytes were read than the check needs.
    Truncated,
    /// The first byte is all ones: nothing was ever written.
    Blank,
    /// The checksum does not match.
    Checksum,
}

/// Where the read of an EEPROM word stands: what is in flight.
#[derive(Clone, Copy, Debug, PartialEq, Eq, Structural)]
pub enum WordState {
    /// Not begun.
    Idle,
    /// The write of the word's address.
    Address,
    /// The write of the read command.
    Command,
    /// A read of the status, to be repeated while the EEPROM is busy and the
    /// time is not behind `deadline`.
    Busy { deadline: u64 },
    /// The read of the word.
    Data,
    /// Over: the word.
    Over(u16),
    /// Over: the EEPROM stayed busy for too long.
    TimedOut,
    /// A transfer failed.
    Faulted(Error),
}

/// Whether a status byte reports the EEPROM as busy (bit 4).
pub open spec fn is_busy(status: u8) -> bool {
    status / 16 % 2 == 1
}

/// A write of one byte to a register of the MAC.
pub open spec fn write_mac_byte(value: u16, b: u8) -> Action {
    Action::Write {
        mode: PowerMode::Normal,
        cmd: AX_ACCESS_MAC,
        value,
        index: 1,
        data: Payload::Byte(b),
    }
}

/// The read of the EEPROM status.
pub open spec fn read_srom_status() -> Action {
    Action::Read {
        mode: PowerMode::Normal,
        cmd: AX_ACCESS_MAC,
        value: AX_SROM_CMD,
        index: 1,
        size: 1,
        convert: false,
    }
}

/// The read of the EEPROM word.
pub open spec fn read_srom_data() -> Action {
    Action::Read {
        mode: PowerMode::Normal,
        cmd: AX_ACCESS_MAC,
        value: AX_SROM_DATA_LOW,
        index: 2,
        size: 2,
        convert: true,
    }
}

/// The transition function of the read of the EEPROM word at `addr`: the
/// state and the action that follow state `st` when what was in flight ended
/// with `ev` at time `now`, in milliseconds.
///
/// A status that comes in behind the deadline ends the read with a timeout,
/// whatever it says. Before that, a busy status is read again, and one that
/// is not busy lets the word be read.
pub open spec fn word_next(addr: u8, st: WordState, ev: Event, now: u64) -> (WordState, Action) {
    match st {
        WordState::Faulted(e) => (st, Action::Aborted(e)),
        WordState::TimedOut => (st, Action::Aborted(Error { errno: EINVAL })),
        WordState::Over(w) => (st, Action::Finished),
        _ => match ev {
            Event::Failed(e) => (WordState::Faulted(e), Action::Aborted(e)),
            Event::Start => if st is Idle {
                (WordState::Address, write_mac_byte(AX_SROM_ADDR, addr))
            } else {
                (WordState::Faulted(misuse()), Action::Aborted(misuse()))
            },
            Event::Done => match st {
                WordState::Address => (WordState::Command, write_mac_byte(AX_SROM_CMD, EEP_RD)),
                WordState::Command => (
                    WordState::Busy { deadline: deadline_of(now, EEPROM_TIMEOUT_MS) },
                    read_srom_status(),
                ),
                _ => (WordState::Faulted(misuse()), Action::Aborted(misuse())),
            },
            Event::Value(v) => match st {
                WordState::Busy { deadline } => if now > deadline {
                    (WordState::TimedOut, Action::Aborted(Error { errno: EINVAL }))
                } else if is_busy(low8(v)) {
                    (st, read_srom_status())
                } else {
                    (WordState::Data, read_srom_data())
                },
                WordState::Data => (WordState::Over(low16(v)), Action::Finished),
                _ => (WordState::Faulted(misuse()), Action::Aborted(misuse())),
            },
        },
    }
}

/// A write of one byte to a register of the MAC.
fn mac_byte_write(value: u16, b: u8) -> (a: Action)
    ensures
        a == write_mac_byte(value, b),
{
    Action::Write { mode: PowerMode::Normal, cmd: AX_ACCESS_MAC, value, index: 1, data: Payload::Byte(b) }
}

/// The read of the EEPROM status.
fn srom_status_read() -> (a: Action)
    ensures
        a == read_srom_status(),
{
    Action::Read {
        mode: PowerMode::Normal,
        cmd: AX_ACCESS_MAC,
        value: AX_SROM_CMD,
        index: 1,
        size: 1,
        convert: false,
    }
}

/// Moves the read of the EEPROM word at `addr` on: given how the thing last
/// asked for ended, and the time, says what is to be done next.
pub fn read_word(addr: u8, st: WordState, ev: Event, now: u64) -> (r: (WordState, Action))
    ensures
        r == word_next(addr, st, ev, now),
{
    let misuse = Error::from_kernel_errno(EPROTO);
    let refused = (WordState::Faulted(misuse), Action::Aborted(misuse));
    match st {
        WordState::Faulted(e) => (st, Action::Aborted(e)),
        WordState::TimedOut => (st, Action::Aborted(Error::from_kernel_errno(EINVAL))),
        WordState::Over(_) => (st, Action::Finished),
        _ => match ev {
            Event::Failed(e) => (WordState::Faulted(e), Action::Aborted(e)),
            Event::Start => match st {
                WordState::Idle => (WordState::Address, mac_byte_write(AX_SROM_ADDR, addr)),
                _ => refused,
            },
            Event::Done => match st {
                WordState::Address => (WordState::Command, mac_byte_write(AX_SROM_CMD, EEP_RD)),
                WordState::Command => {
                    let deadline: u64 = if now <= u64::MAX - EEPROM_TIMEOUT_MS {
                        now + EEPROM_TIMEOUT_MS
                    } else {
                        u64::MAX
                    };
                    (WordState::Busy { deadline }, srom_status_read())
                },
                _ => refused,
            },
            Event::Value(v) => match st {
                WordState::Busy { deadline } => {
                    let status: u8 = (v % 0x100) as u8;
                    if now > deadline {
                        (WordState::TimedOut, Action::Aborted(Error::from_kernel_errno(EINVAL)))
                    } else if status / 16 % 2 == 1 {
                        (st, srom_status_read())
                    } else {
                        (
                            WordState::Data,
                            Action::Read {
                                mode: PowerMode::Normal,
                                cmd: AX_ACCESS_MAC,
                                value: AX_SROM_DATA_LOW,
                                index: 2,
                                size: 2,
                                convert: true,
                            },
                        )
                    }
                },
                WordState::Data => (WordState::Over((v % 0x1_0000) as u16), Action::Finished),
                _ => refused,
            },
        },
    }
}

/// An EEPROM that stays busy is not waited for without end: a status that
/// comes in behind the deadline ends the read with a timeout, and before
/// the deadline a busy status asks for nothing but another look.
pub proof fn lemma_eeprom_wait_is_bounded(addr: u8, deadline: u64, v: u32, now: u64)
    ensures
        now > deadline ==> word_next(addr, WordState::Busy { deadline }, Event::Value(v), now).0
            == WordState::TimedOut,
        now <= deadline && is_busy(low8(v)) ==> word_next(
            addr,
            WordState::Busy { deadline },
            Event::Value(v),
            now,
        ) == (WordState::Busy { deadline }, read_srom_status()),
{
}

/// A sum of at most sixteen bits with its high byte added to its low byte.
pub open spec fn folded_once(sum: int) -> int {
    sum / 256 + sum % 256
}

/// Whether the first six words of the EEPROM hold a valid configuration:
/// the first byte is not all ones, and bytes 6 to 9, added up and folded,
/// make 255 together with byte 10.
pub open spec fn eeprom_valid(block: Seq<u8>) -> bool
    recommends
        block.len() >= EEPROM_CHECKED,
{
    block[0] != 0xff && folded_once(block[6] + block[7] + block[8] + block[9]) + block[10] == 0xff
}

/// Checks the first six words of the EEPROM.
pub fn check_eeprom(block: &[u8]) -> (r: Result<(), ConfigurationError>)
    ensures
        r == if block@.len() < EEPROM_CHECKED {
            Err::<(), ConfigurationError>(ConfigurationError::Truncated)
        } else if block@[0] == 0xff {
            Err::<(), ConfigurationError>(ConfigurationError::Blank)
        } else if !eeprom_valid(block@) {
            Err::<(), ConfigurationError>(ConfigurationError::Checksum)
        } else {
            Ok::<(), ConfigurationError>(())
        },
{
    if block.len() < EEPROM_CHECKED {
        return Err(ConfigurationError::Truncated);
    }
    if block[0] == 0xff {
        return Err(ConfigurationError::Blank);
    }
    let sum: u16 = block[6] as u16 + block[7] as u16 + block[8] as u16 + block[9] as u16;
    let folded: u16 = sum / 256 + sum % 256;
    if folded + block[10] as u16 == 0xff {
        Ok(())
    } else {
        Err(ConfigurationError::Checksum)
    }
}

/// The sum of the first `n` bytes of `s`.
pub open spec fn sum_of(s: Seq<u8>, n: nat) -> int
    decreases n,
{
    if n == 0 {
        0
    } else {
        sum_of(s, (n - 1) as nat) + s[n - 1]
    }
}

/// A sum folded until it fits a byte: while it is over 255, its high part
/// is added to its low byte.
pub open spec fn folded(sum: nat) -> nat
    decreases sum,
{
    if sum > 255 {
        folded((sum / 256 + sum % 256) as nat)
    } else {
        sum
    }
}

/// Whether the 64 bytes of the eFuse hold a valid configuration: the first
/// byte is not all ones, and all bytes, added up and folded, make 255.
pub open spec fn efuse_valid(block: Seq<u8>) -> bool
    recommends
        block.len() >= EFUSE_LENGTH,
{
    block[0] != 0xff && folded(sum_of(block, EFUSE_LENGTH as nat) as nat) == 0xff
}

/// Checks the eFuse.
pub fn check_efuse(block: &[u8]) -> (r: Result<(), ConfigurationError>)
    ensures
        r == if block@.len() < EFUSE_LENGTH {
            Err::<(), ConfigurationError>(ConfigurationError::Truncated)
        } else if block@[0] == 0xff {
            Err::<(), ConfigurationError>(ConfigurationError::Blank)
        } else if !efuse_valid(block@) {
            Err::<(), ConfigurationError>(ConfigurationError::Checksum)
        } else {
            Ok::<(), ConfigurationError>(())
        },
{
    if block.len() < EFUSE_LENGTH {
        return Err(ConfigurationError::Truncated);
    }
    if block[0] == 0xff {
        return Err(ConfigurationError::Blank);
    }
    let mut sum: u32 = 0;
    let mut i: usize = 0;
    while i < EFUSE_LENGTH
        invariant
            i <= EFUSE_LENGTH <= block@.len(),
            sum == sum_of(block@, i as nat),
            sum <= 255 * i,
        decreases EFUSE_LENGTH - i,
    {
        sum = sum + block[i] as u32;
        i += 1;
    }
    let ghost total = sum as nat;
    while sum > 255
        invariant
            folded(sum as nat) == folded(total),
            sum <= 255 * 64,
        decreases sum,
    {
        sum = sum / 256 + sum % 256;
    }
    if sum == 0xff {
        Ok(())
    } else {
        Err(ConfigurationError::Checksum)
    }
}

} // verus!
