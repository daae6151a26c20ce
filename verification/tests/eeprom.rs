use ax88179_178a::eeprom::{
    check_eeprom, check_efuse, read_word, ConfigurationError, WordState, EEPROM_TIMEOUT_MS, EINVAL,
};
use ax88179_178a::sequence::{Action, Event, Payload, EPROTO};
use ax88179_178a::transport::{Error, PowerMode};

fn write_byte(value: u16, b: u8) -> Action {
    Action::Write { mode: PowerMode::Normal, cmd: 0x01, value, index: 1, data: Payload::Byte(b) }
}

fn status_read() -> Action {
    Action::Read { mode: PowerMode::Normal, cmd: 0x01, value: 0x0a, index: 1, size: 1, convert: false }
}

fn data_read() -> Action {
    Action::Read { mode: PowerMode::Normal, cmd: 0x01, value: 0x08, index: 2, size: 2, convert: true }
}

/// Brings the read of word 3 to its wait, begun at time `t0`.
fn waiting(t0: u64) -> WordState {
    let (st, a) = read_word(3, WordState::Idle, Event::Start, t0);
    assert_eq!(a, write_byte(0x07, 3));
    let (st, a) = read_word(3, st, Event::Done, t0);
    assert_eq!(a, write_byte(0x0a, 0x04));
    let (st, a) = read_word(3, st, Event::Done, t0);
    assert_eq!(a, status_read());
    st
}

#[test]
fn word_is_read_once_the_eeprom_is_ready() {
    let st = waiting(50);
    assert_eq!(st, WordState::Busy { deadline: 150 });
    let (st, a) = read_word(3, st, Event::Value(0x10), 60);
    assert_eq!(a, status_read());
    let (st, a) = read_word(3, st, Event::Value(0x14), 70);
    assert_eq!(a, status_read());
    let (st, a) = read_word(3, st, Event::Value(0x04), 150);
    assert_eq!(a, data_read());
    assert_eq!(st, WordState::Data);
    let (st, a) = read_word(3, st, Event::Value(0xbeef), 151);
    assert_eq!(a, Action::Finished);
    assert_eq!(st, WordState::Over(0xbeef));
    assert_eq!(read_word(3, st, Event::Done, 152), (st, Action::Finished));
}

#[test]
fn eeprom_that_stays_busy_times_out() {
    let mut st = waiting(0);
    let mut now = 0;
    let mut looks = 0;
    let timeout = Action::Aborted(Error { errno: EINVAL });
    loop {
        now += 10;
        looks += 1;
        let (next, a) = read_word(3, st, Event::Value(0xff), now);
        st = next;
        if a == timeout {
            break;
        }
        assert_eq!(a, status_read());
        assert!(now <= 100);
        assert!(looks < 100);
    }
    assert_eq!(now, 110);
    assert_eq!(looks, 11);
    assert_eq!(st, WordState::TimedOut);
    assert_eq!(read_word(3, st, Event::Value(0), 111), (st, timeout));
    assert_eq!(EEPROM_TIMEOUT_MS, 100);
    assert_eq!(EINVAL, -22);
}

#[test]
fn status_behind_the_deadline_comes_too_late() {
    let st = waiting(0);
    let (st, a) = read_word(3, st, Event::Value(0x00), 101);
    assert_eq!(st, WordState::TimedOut);
    assert_eq!(a, Action::Aborted(Error { errno: -22 }));
}

#[test]
fn failed_transfer_faults_the_word_read() {
    let e = Error { errno: -19 };
    let states = [
        WordState::Idle,
        WordState::Address,
        WordState::Command,
        WordState::Busy { deadline: 7 },
        WordState::Data,
    ];
    for st in states {
        let (next, a) = read_word(0, st, Event::Failed(e), 1);
        assert_eq!(next, WordState::Faulted(e));
        assert_eq!(a, Action::Aborted(e));
        assert_eq!(read_word(0, next, Event::Start, 2), (next, Action::Aborted(e)));
    }
}

#[test]
fn event_that_does_not_answer_faults_the_word_read() {
    let misuse = Error { errno: EPROTO };
    let refused = (WordState::Faulted(misuse), Action::Aborted(misuse));
    assert_eq!(read_word(0, WordState::Idle, Event::Done, 0), refused);
    assert_eq!(read_word(0, WordState::Idle, Event::Value(1), 0), refused);
    assert_eq!(read_word(0, WordState::Address, Event::Start, 0), refused);
    assert_eq!(read_word(0, WordState::Address, Event::Value(1), 0), refused);
    assert_eq!(read_word(0, WordState::Busy { deadline: 9 }, Event::Done, 0), refused);
    assert_eq!(read_word(0, WordState::Data, Event::Done, 0), refused);
}

fn eeprom(middle: [u8; 4], check: u8) -> Vec<u8> {
    let mut block = vec![0x15u8, 0x90, 0x8e, 0x01, 0x20, 0x00];
    block.extend_from_slice(&middle);
    block.push(check);
    block.push(0x77);
    block
}

#[test]
fn eeprom_with_matching_checksum_is_valid() {
    assert_eq!(check_eeprom(&eeprom([1, 2, 3, 4], 245)), Ok(()));
    assert_eq!(check_eeprom(&eeprom([0xff, 0xff, 0xff, 0xff], 0)), Ok(()));
    assert_eq!(check_eeprom(&eeprom([0, 0, 0, 0], 0xff)), Ok(()));
    assert_eq!(check_eeprom(&eeprom([0x80, 0x80, 0, 0], 0xfe)), Ok(()));
}

#[test]
fn eeprom_with_wrong_checksum_is_refused() {
    assert_eq!(check_eeprom(&eeprom([1, 2, 3, 4], 244)), Err(ConfigurationError::Checksum));
    assert_eq!(check_eeprom(&eeprom([0, 0, 0, 0], 0)), Err(ConfigurationError::Checksum));
    assert_eq!(check_eeprom(&eeprom([0x80, 0x80, 0, 0], 0xff)), Err(ConfigurationError::Checksum));
}

#[test]
fn blank_or_short_eeprom_is_refused() {
    let mut blank = eeprom([1, 2, 3, 4], 245);
    blank[0] = 0xff;
    assert_eq!(check_eeprom(&blank), Err(ConfigurationError::Blank));
    assert_eq!(check_eeprom(&[]), Err(ConfigurationError::Truncated));
    assert_eq!(check_eeprom(&eeprom([1, 2, 3, 4], 245)[..11]), Err(ConfigurationError::Truncated));
    assert_eq!(check_eeprom(&[0xff; 11]), Err(ConfigurationError::Truncated));
}

#[test]
fn efuse_whose_bytes_fold_to_all_ones_is_valid() {
    let mut block = [0u8; 64];
    block[0] = 0x01;
    block[63] = 0xfe;
    assert_eq!(check_efuse(&block), Ok(()));
    block[10] = 0xff;
    assert_eq!(check_efuse(&block), Ok(()));
    let mut block = [0xffu8; 64];
    block[0] = 0x3f;
    block[1] = 0xc0;
    assert_eq!(check_efuse(&block), Ok(()));
}

#[test]
fn efuse_with_wrong_checksum_is_refused() {
    let mut block = [0u8; 64];
    block[0] = 0x01;
    assert_eq!(check_efuse(&block), Err(ConfigurationError::Checksum));
    block[1] = 0xff;
    assert_eq!(check_efuse(&block), Err(ConfigurationError::Checksum));
}

#[test]
fn blank_or_short_efuse_is_refused() {
    assert_eq!(check_efuse(&[0xff; 64]), Err(ConfigurationError::Blank));
    assert_eq!(check_efuse(&[0x01; 63]), Err(ConfigurationError::Truncated));
    assert_eq!(check_efuse(&[]), Err(ConfigurationError::Truncated));
}
