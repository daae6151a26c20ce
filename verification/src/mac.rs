//! The adapter's Ethernet address: how it is put together from the three
//! words that the EEPROM holds, and which addresses are known to be
//! placeholders.

use vstd::prelude::*;
use crate::codec::{decode_u16, encode_u16, le16};
use crate::eeprom::ConfigurationError;

verus! {

/// An Ethernet address, held as the three 16-bit words in which the EEPROM
/// stores it. Each word holds two octets, the earlier one in its low byte.
#[derive(Clone, Copy, Debug, PartialEq, Eq, Structural)]
pub struct MacAddress {
    pub w0: u16,
    pub w1: u16,
    pub w2: u16,
}

/// The first factory placeholder: 00:0e:c6:81:79:01.
pub open spec fn placeholder_179() -> Seq<u8> {
    seq![0u8, 0x0eu8, 0xc6u8, 0x81u8, 0x79u8, 0x01u8]
}

/// The second factory placeholder: 00:0e:c6:81:78:01.
pub open spec fn placeholder_178a() -> Seq<u8> {
    seq![0u8, 0x0eu8, 0xc6u8, 0x81u8, 0x78u8, 0x01u8]
}

/// Whether six octets are an address that no adapter should announce: one
/// whose first three octets are all zero, or one of the two placeholders.
pub open spec fn known_bad(octets: Seq<u8>) -> bool
    recommends
        octets.len() == 6,
{
    (octets[0] == 0 && octets[1] == 0 && octets[2] == 0) || octets == placeholder_179() || octets
        == placeholder_178a()
}

impl MacAddress {
    /// The six octets of the address, in the order in which they are sent.
    pub open spec fn octets(self) -> Seq<u8> {
        le16(self.w0) + le16(self.w1) + le16(self.w2)
    }

    /// The word of number `i`; the last one for every number behind it.
    pub open spec fn word_of(self, i: u8) -> u16 {
        if i == 0 {
            self.w0
        } else if i == 1 {
            self.w1
        } else {
            self.w2
        }
    }

    /// The address with the word of number `i` replaced; unchanged for a
    /// number behind the last.
    pub open spec fn with_word_of(self, i: u8, w: u16) -> MacAddress {
        if i == 0 {
            MacAddress { w0: w, ..self }
        } else if i == 1 {
            MacAddress { w1: w, ..self }
        } else if i == 2 {
            MacAddress { w2: w, ..self }
        } else {
            self
        }
    }

    /// The address of all zeros.
    pub fn zero() -> (m: MacAddress)
        ensures
            m == (MacAddress { w0: 0, w1: 0, w2: 0 }),
    {
        MacAddress { w0: 0, w1: 0, w2: 0 }
    }

    /// Puts an address together from its six octets.
    pub fn from_octets(octets: [u8; 6]) -> (m: MacAddress)
        ensures
            m.octets() == octets@,
    {
        let m = MacAddress {
            w0: decode_u16([octets[0], octets[1]]),
            w1: decode_u16([octets[2], octets[3]]),
            w2: decode_u16([octets[4], octets[5]]),
        };
        assert(le16(m.w0) =~= seq![octets[0], octets[1]]);
        assert(le16(m.w1) =~= seq![octets[2], octets[3]]);
        assert(le16(m.w2) =~= seq![octets[4], octets[5]]);
        assert(m.octets() =~= octets@);
        m
    }

    /// The six octets of the address.
    pub fn to_octets(&self) -> (octets: [u8; 6])
        ensures
            octets@ == self.octets(),
    {
        let a: [u8; 2] = encode_u16(self.w0);
        let b: [u8; 2] = encode_u16(self.w1);
        let c: [u8; 2] = encode_u16(self.w2);
        let octets: [u8; 6] = [a[0], a[1], b[0], b[1], c[0], c[1]];
        assert(octets@ =~= self.octets());
        octets
    }

    /// The word of number `i`.
    pub fn word(&self, i: u8) -> (w: u16)
        ensures
            w == self.word_of(i),
    {
        if i == 0 {
            self.w0
        } else if i == 1 {
            self.w1
        } else {
            self.w2
        }
    }

    /// The address with the word of number `i` replaced.
    pub fn with_word(self, i: u8, w: u16) -> (m: MacAddress)
        ensures
            m == self.with_word_of(i, w),
    {
        if i == 0 {
            MacAddress { w0: w, w1: self.w1, w2: self.w2 }
        } else if i == 1 {
            MacAddress { w0: self.w0, w1: w, w2: self.w2 }
        } else if i == 2 {
            MacAddress { w0: self.w0, w1: self.w1, w2: w }
        } else {
            self
        }
    }

    /// Whether the address is known to be bad: its first three octets are
    /// all zero, or it is one of the two factory placeholders.
    pub fn is_known_bad(&self) -> (bad: bool)
        ensures
            bad == known_bad(self.octets()),
    {
        let o: [u8; 6] = self.to_octets();
        let zero_oui: bool = o[0] == 0 && o[1] == 0 && o[2] == 0;
        let placeholder: bool = o[0] == 0 && o[1] == 0x0e && o[2] == 0xc6 && o[3] == 0x81 && (o[4]
            == 0x79 || o[4] == 0x78) && o[5] == 0x01;
        proof {
            let s = self.octets();
            assert(s.len() == 6);
            if placeholder {
                if o[4] == 0x79 {
                    assert(s =~= placeholder_179());
                } else {
                    assert(s =~= placeholder_178a());
                }
            }
            if s == placeholder_179() {
                assert(placeholder_179()[4] == 0x79 && placeholder_179()[5] == 0x01);
                assert(placeholder_179()[1] == 0x0e && placeholder_179()[2] == 0xc6
                    && placeholder_179()[3] == 0x81 && placeholder_179()[0] == 0);
            }
            if s == placeholder_178a() {
                assert(placeholder_178a()[4] == 0x78 && placeholder_178a()[5] == 0x01);
                assert(placeholder_178a()[1] == 0x0e && placeholder_178a()[2] == 0xc6
                    && placeholder_178a()[3] == 0x81 && placeholder_178a()[0] == 0);
            }
        }
        zero_oui || placeholder
    }
}

/// Checks the address that the EEPROM gave: whether the adapter may announce
/// it. What to do about an address that fails is the caller's choice.
pub fn check_ether_addr(address: &MacAddress) -> (r: Result<(), ConfigurationError>)
    ensures
        r.is_ok() <==> !known_bad(address.octets()),
        r.is_err() ==> r == Err::<(), ConfigurationError>(ConfigurationError::InvalidAddress),
{
    if address.is_known_bad() {
        Err(ConfigurationError::InvalidAddress)
    } else {
        Ok(())
    }
}

} // verus!
