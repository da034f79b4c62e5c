//! The KeyConfig word of a slot.
use vstd::prelude::*;
use crate::bits::{field, get_field, set_field, with_field};
use crate::slot_config::{be_bytes, be_u16, read_be_u16};

verus! {

/// Whether a slot holds an ECC key.
#[derive(Debug, Clone, Copy, PartialEq, Eq, Structural)]
pub enum KeyConfigType {
    Ecc,
    NotEcc,
}

impl KeyConfigType {
    /// The key type field: 0b100 is a P-256 ECC key; every other value is
    /// read as not ECC.
    pub open spec fn spec_from_bits(v: u8) -> KeyConfigType {
        if v == 4 {
            KeyConfigType::Ecc
        } else {
            KeyConfigType::NotEcc
        }
    }

    pub fn from_bits(v: u8) -> (r: Self)
        ensures
            r == Self::spec_from_bits(v),
    {
        if v == 4 {
            KeyConfigType::Ecc
        } else {
            KeyConfigType::NotEcc
        }
    }

    pub open spec fn spec_to_bits(self) -> u8 {
        match self {
            KeyConfigType::Ecc => 4,
            KeyConfigType::NotEcc => 7,
        }
    }

    pub fn to_bits(&self) -> (r: u8)
        ensures
            r == self.spec_to_bits(),
    {
        match self {
            KeyConfigType::Ecc => 4,
            KeyConfigType::NotEcc => 7,
        }
    }
}

/// Both key types read back as themselves.
pub proof fn key_type_round_trip(t: KeyConfigType)
    ensures
        KeyConfigType::spec_from_bits(t.spec_to_bits()) == t,
{
}

/// The KeyConfig word of one slot. Bits 3..0 auth key, 4 intrusion disable,
/// 7..6 X.509 index, 8 private, 9 public info, 12..10 key type, 13 lockable,
/// 14 require random, 15 require auth.
#[derive(Debug, Clone, Copy, PartialEq, Eq, Structural)]
pub struct KeyConfig(u16);

impl View for KeyConfig {
    type V = u16;

    closed spec fn view(&self) -> u16 {
        self.0
    }
}

/// The word with the given fields (bit 5 included, which has no name).
pub open spec fn key_config_word(
    req_auth: u16,
    req_random: u16,
    lockable: u16,
    key_type: u16,
    pub_info: u16,
    private: u16,
    x509_index: u16,
    bit5: u16,
    intrusion_disable: u16,
    auth_key: u16,
) -> int {
    req_auth * 32768 + req_random * 16384 + lockable * 8192 + key_type * 1024 + pub_info * 512
        + private * 256 + x509_index * 64 + bit5 * 32 + intrusion_disable * 16 + auth_key
}

/// A KeyConfig word is rebuilt exactly from its fields, and from its two
/// bytes high byte first.
pub proof fn key_config_round_trip(v: u16)
    ensures
        key_config_word(
            field(v, 15, 1),
            field(v, 14, 1),
            field(v, 13, 1),
            field(v, 10, 3),
            field(v, 9, 1),
            field(v, 8, 1),
            field(v, 6, 2),
            field(v, 5, 1),
            field(v, 4, 1),
            field(v, 0, 4),
        ) == v,
        be_u16(be_bytes(v)[0], be_bytes(v)[1]) == v,
{
    assert(key_config_word(
        field(v, 15, 1),
        field(v, 14, 1),
        field(v, 13, 1),
        field(v, 10, 3),
        field(v, 9, 1),
        field(v, 8, 1),
        field(v, 6, 2),
        field(v, 5, 1),
        field(v, 4, 1),
        field(v, 0, 4),
    ) == v) by (bit_vector);
}

impl KeyConfig {
    pub fn from_u16(v: u16) -> (r: Self)
        ensures
            r@ == v,
    {
        KeyConfig(v)
    }

    pub fn to_u16(&self) -> (r: u16)
        ensures
            r == self@,
    {
        self.0
    }

    /// The word in the first two bytes of `v`, high byte first.
    pub fn from_bytes(v: &[u8]) -> (r: Self)
        requires
            v@.len() >= 2,
        ensures
            r@ == be_u16(v@[0], v@[1]),
    {
        KeyConfig(read_be_u16(v))
    }

    /// The word's two bytes, high byte first.
    pub fn to_bytes(&self) -> (r: Vec<u8>)
        ensures
            r@ == be_bytes(self@),
    {
        let mut r: Vec<u8> = Vec::new();
        r.push((self.0 / 256) as u8);
        r.push((self.0 % 256) as u8);
        proof {
            assert(r@ =~= be_bytes(self@));
        }
        r
    }

    pub fn auth_key(&self) -> (r: u8)
        ensures
            r == field(self@, 0, 4),
    {
        get_field(self.0, 0, 4) as u8
    }

    pub fn intrusion_disable(&self) -> (r: bool)
        ensures
            r == (field(self@, 4, 1) == 1),
    {
        get_field(self.0, 4, 1) == 1
    }

    pub fn x509_index(&self) -> (r: u8)
        ensures
            r == field(self@, 6, 2),
    {
        get_field(self.0, 6, 2) as u8
    }

    pub fn private(&self) -> (r: bool)
        ensures
            r == (field(self@, 8, 1) == 1),
    {
        get_field(self.0, 8, 1) == 1
    }

    pub fn pub_info(&self) -> (r: bool)
        ensures
            r == (field(self@, 9, 1) == 1),
    {
        get_field(self.0, 9, 1) == 1
    }

    pub fn key_type(&self) -> (r: KeyConfigType)
        ensures
            r == KeyConfigType::spec_from_bits(field(self@, 10, 3) as u8),
    {
        KeyConfigType::from_bits(get_field(self.0, 10, 3) as u8)
    }

    pub fn lockable(&self) -> (r: bool)
        ensures
            r == (field(self@, 13, 1) == 1),
    {
        get_field(self.0, 13, 1) == 1
    }

    pub fn req_random(&self) -> (r: bool)
        ensures
            r == (field(self@, 14, 1) == 1),
    {
        get_field(self.0, 14, 1) == 1
    }

    pub fn req_auth(&self) -> (r: bool)
        ensures
            r == (field(self@, 15, 1) == 1),
    {
        get_field(self.0, 15, 1) == 1
    }

    /// Stores the low four bits of `v`.
    pub fn set_auth_key(&mut self, v: u8)
        ensures
            final(self)@ == with_field(old(self)@, 0, 4, v as u16),
    {
        self.0 = set_field(self.0, 0, 4, v as u16);
    }

    pub fn set_intrusion_disable(&mut self, b: bool)
        ensures
            final(self)@ == with_field(old(self)@, 4, 1, b as u16),
    {
        self.0 = set_field(self.0, 4, 1, b as u16);
    }

    /// Stores the low two bits of `v`.
    pub fn set_x509_index(&mut self, v: u8)
        ensures
            final(self)@ == with_field(old(self)@, 6, 2, v as u16),
    {
        self.0 = set_field(self.0, 6, 2, v as u16);
    }

    pub fn set_private(&mut self, b: bool)
        ensures
            final(self)@ == with_field(old(self)@, 8, 1, b as u16),
    {
        self.0 = set_field(self.0, 8, 1, b as u16);
    }

    pub fn set_pub_info(&mut self, b: bool)
        ensures
            final(self)@ == with_field(old(self)@, 9, 1, b as u16),
    {
        self.0 = set_field(self.0, 9, 1, b as u16);
    }

    pub fn set_key_type(&mut self, t: KeyConfigType)
        ensures
            final(self)@ == with_field(old(self)@, 10, 3, t.spec_to_bits() as u16),
    {
        self.0 = set_field(self.0, 10, 3, t.to_bits() as u16);
    }

    pub fn set_is_lockable(&mut self, b: bool)
        ensures
            final(self)@ == with_field(old(self)@, 13, 1, b as u16),
    {
        self.0 = set_field(self.0, 13, 1, b as u16);
    }

    pub fn set_req_random(&mut self, b: bool)
        ensures
            final(self)@ == with_field(old(self)@, 14, 1, b as u16),
    {
        self.0 = set_field(self.0, 14, 1, b as u16);
    }

    pub fn set_req_auth(&mut self, b: bool)
        ensures
            final(self)@ == with_field(old(self)@, 15, 1, b as u16),
    {
        self.0 = set_field(self.0, 15, 1, b as u16);
    }
}

impl Default for KeyConfig {
    /// A slot set up to keep an ECC private key: key type ECC, lockable,
    /// private, public info; every other field zero.
    fn default() -> (r: Self)
        ensures
            r@ == 0x3300,
            field(r@, 0, 4) == 0,
            field(r@, 4, 1) == 0,
            field(r@, 6, 2) == 0,
            field(r@, 8, 1) == 1,
            field(r@, 9, 1) == 1,
            field(r@, 10, 3) == 4,
            field(r@, 13, 1) == 1,
            field(r@, 14, 1) == 0,
            field(r@, 15, 1) == 0,
    {
        let mut result = KeyConfig(0);
        result.set_key_type(KeyConfigType::Ecc);
        result.set_is_lockable(true);
        result.set_private(true);
        result.set_pub_info(true);
        assert(with_field(with_field(with_field(with_field(0, 10, 3, 4), 13, 1, 1), 8, 1, 1), 9, 1, 1)
            == 0x3300) by (bit_vector);
        assert(field(0x3300, 0, 4) == 0 && field(0x3300, 4, 1) == 0 && field(0x3300, 6, 2) == 0
            && field(0x3300, 8, 1) == 1 && field(0x3300, 9, 1) == 1 && field(0x3300, 10, 3) == 4
            && field(0x3300, 13, 1) == 1 && field(0x3300, 14, 1) == 0 && field(0x3300, 15, 1) == 0)
            by (bit_vector);
        result
    }
}

} // verus!
