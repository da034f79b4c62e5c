//! Zones, data buffers and the 16-bit address words of Read and Write.
use vstd::prelude::*;
use crate::bits::{field, get_field, set_field, with_field};
use crate::error::Error;

verus! {

/// A lockable zone of the device.
#[derive(Debug, Clone, Copy, PartialEq, Eq, Structural)]
pub enum Zone {
    Data,
    Config,
}

/// A volatile buffer of the device that Nonce can load and Sign can read.
#[derive(Debug, Clone, Copy, PartialEq, Eq, Structural)]
pub enum DataBuffer {
    TempKey,
    MessageDigest,
    AlternateKey,
}

impl DataBuffer {
    pub open spec fn spec_code(self) -> u8 {
        match self {
            DataBuffer::TempKey => 0,
            DataBuffer::MessageDigest => 1,
            DataBuffer::AlternateKey => 2,
        }
    }

    /// The buffer's number in command parameters.
    pub fn code(&self) -> (r: u8)
        ensures
            r == self.spec_code(),
    {
        match self {
            DataBuffer::TempKey => 0,
            DataBuffer::MessageDigest => 1,
            DataBuffer::AlternateKey => 2,
        }
    }

    pub open spec fn spec_from_code(v: u8) -> Option<DataBuffer> {
        if v & 3 == 0 {
            Some(DataBuffer::TempKey)
        } else if v & 3 == 1 {
            Some(DataBuffer::MessageDigest)
        } else if v & 3 == 2 {
            Some(DataBuffer::AlternateKey)
        } else {
            None
        }
    }

    /// The buffer numbered by the low two bits of `v`; `None` for the
    /// unassigned number 3.
    pub fn from_code(v: u8) -> (r: Option<DataBuffer>)
        ensures
            r == Self::spec_from_code(v),
    {
        let c: u8 = v & 3;
        if c == 0 {
            Some(DataBuffer::TempKey)
        } else if c == 1 {
            Some(DataBuffer::MessageDigest)
        } else if c == 2 {
            Some(DataBuffer::AlternateKey)
        } else {
            None
        }
    }
}

/// The address word of a 4-byte unit in the Config or OTP zone:
/// block in bits 12..11, offset in bits 10..8.
#[derive(Debug, Clone, Copy, PartialEq, Eq, Structural)]
pub struct OffsetAddress(u16);

/// The address word of a 4-byte unit in the Data zone:
/// slot in bits 14..11, offset in bits 10..8, block in bits 3..0.
#[derive(Debug, Clone, Copy, PartialEq, Eq, Structural)]
pub struct DataAddress(u16);

impl View for OffsetAddress {
    type V = u16;

    closed spec fn view(&self) -> u16 {
        self.0
    }
}

impl View for DataAddress {
    type V = u16;

    closed spec fn view(&self) -> u16 {
        self.0
    }
}

/// The word for `block` and `offset` of the Config or OTP zone.
pub open spec fn offset_word(block: u8, offset: u8) -> int {
    block * 2048 + offset * 256
}

/// The word for `slot`, `block` and `offset` of the Data zone.
pub open spec fn data_word(slot: u8, block: u8, offset: u8) -> int {
    slot * 2048 + offset * 256 + block
}

/// Config and OTP hold four 32-byte blocks of eight 4-byte words.
pub open spec fn valid_offset_address(block: u8, offset: u8) -> bool {
    block <= 3 && offset <= 7
}

/// Slots 0..7 hold two blocks, slot 8 sixteen, slots 9..15 eight.
pub open spec fn valid_data_address(slot: u8, block: u8, offset: u8) -> bool {
    &&& slot <= 15
    &&& offset <= 7
    &&& (slot < 8 ==> block <= 1)
    &&& (slot == 8 ==> block <= 15)
    &&& (slot > 8 ==> block <= 7)
}

impl OffsetAddress {
    pub fn block(&self) -> (r: u8)
        ensures
            r == field(self@, 11, 2),
    {
        get_field(self.0, 11, 2) as u8
    }

    pub fn offset(&self) -> (r: u8)
        ensures
            r == field(self@, 8, 3),
    {
        get_field(self.0, 8, 3) as u8
    }

    fn encode(block: u8, offset: u8) -> (r: OffsetAddress)
        requires
            valid_offset_address(block, offset),
        ensures
            r@ == offset_word(block, offset),
    {
        let w = set_field(set_field(0, 11, 2, block as u16), 8, 3, offset as u16);
        proof {
            let b = block as u16;
            let o = offset as u16;
            assert(with_field(with_field(0, 11, 2, b), 8, 3, o) == b * 2048 + o * 256)
                by (bit_vector)
                requires
                    b <= 3,
                    o <= 7,
            ;
        }
        OffsetAddress(w)
    }

    pub fn to_u16(&self) -> (r: u16)
        ensures
            r == self@,
    {
        self.0
    }
}

impl DataAddress {
    pub fn slot(&self) -> (r: u8)
        ensures
            r == field(self@, 11, 4),
    {
        get_field(self.0, 11, 4) as u8
    }

    pub fn block(&self) -> (r: u8)
        ensures
            r == field(self@, 0, 4),
    {
        get_field(self.0, 0, 4) as u8
    }

    pub fn offset(&self) -> (r: u8)
        ensures
            r == field(self@, 8, 3),
    {
        get_field(self.0, 8, 3) as u8
    }

    fn encode(slot: u8, block: u8, offset: u8) -> (r: DataAddress)
        requires
            valid_data_address(slot, block, offset),
        ensures
            r@ == data_word(slot, block, offset),
    {
        let w = set_field(
            set_field(set_field(0, 0, 4, block as u16), 8, 3, offset as u16),
            11,
            4,
            slot as u16,
        );
        proof {
            let s = slot as u16;
            let b = block as u16;
            let o = offset as u16;
            assert(with_field(with_field(with_field(0, 0, 4, b), 8, 3, o), 11, 4, s) == s * 2048
                + o * 256 + b) by (bit_vector)
                requires
                    s <= 15,
                    b <= 15,
                    o <= 7,
            ;
        }
        DataAddress(w)
    }

    pub fn to_u16(&self) -> (r: u16)
        ensures
            r == self@,
    {
        self.0
    }
}

/// The block and offset of a valid Config or OTP tuple come back unchanged
/// from its address word.
pub proof fn offset_address_round_trip(block: u8, offset: u8)
    requires
        valid_offset_address(block, offset),
    ensures
        field(offset_word(block, offset) as u16, 11, 2) == block,
        field(offset_word(block, offset) as u16, 8, 3) == offset,
        offset_word(block, offset) <= 0xffff,
{
    let b = block as u16;
    let o = offset as u16;
    assert(field((b * 2048 + o * 256) as u16, 11, 2) == b && field((b * 2048 + o * 256) as u16, 8, 3)
        == o) by (bit_vector)
        requires
            b <= 3,
            o <= 7,
    ;
}

/// The slot, block and offset of a valid Data tuple come back unchanged from
/// its address word.
pub proof fn data_address_round_trip(slot: u8, block: u8, offset: u8)
    requires
        valid_data_address(slot, block, offset),
    ensures
        field(data_word(slot, block, offset) as u16, 11, 4) == slot,
        field(data_word(slot, block, offset) as u16, 0, 4) == block,
        field(data_word(slot, block, offset) as u16, 8, 3) == offset,
        data_word(slot, block, offset) <= 0xffff,
{
    let s = slot as u16;
    let b = block as u16;
    let o = offset as u16;
    assert(field((s * 2048 + o * 256 + b) as u16, 11, 4) == s && field(
        (s * 2048 + o * 256 + b) as u16,
        0,
        4,
    ) == b && field((s * 2048 + o * 256 + b) as u16, 8, 3) == o) by (bit_vector)
        requires
            s <= 15,
            b <= 15,
            o <= 7,
    ;
}

/// A 4-byte unit of one of the device's three zones.
#[derive(Debug, Clone, Copy, PartialEq, Eq, Structural)]
pub enum Address {
    Otp(OffsetAddress),
    Config(OffsetAddress),
    Data(DataAddress),
}

impl Address {
    /// The address word sent as the second parameter of Read and Write.
    pub open spec fn spec_word(self) -> u16 {
        match self {
            Address::Otp(a) => a@,
            Address::Config(a) => a@,
            Address::Data(a) => a@,
        }
    }

    /// The zone's number in the first parameter of Read and Write.
    pub open spec fn spec_zone(self) -> u8 {
        match self {
            Address::Config(_) => 0,
            Address::Otp(_) => 1,
            Address::Data(_) => 2,
        }
    }

    pub fn otp(block: u8, offset: u8) -> (r: Result<Self, Error>)
        ensures
            valid_offset_address(block, offset) <==> r is Ok,
            r is Ok ==> r->Ok_0 is Otp && r->Ok_0.spec_word() == offset_word(block, offset),
            r is Err ==> r == Err::<Self, Error>(Error::InvalidAddress),
    {
        if block > 3 || offset > 7 {
            return Err(Error::invalid_address());
        }
        Ok(Address::Otp(OffsetAddress::encode(block, offset)))
    }

    pub fn config(block: u8, offset: u8) -> (r: Result<Self, Error>)
        ensures
            valid_offset_address(block, offset) <==> r is Ok,
            r is Ok ==> r->Ok_0 is Config && r->Ok_0.spec_word() == offset_word(block, offset),
            r is Err ==> r == Err::<Self, Error>(Error::InvalidAddress),
    {
        if block > 3 || offset > 7 {
            return Err(Error::invalid_address());
        }
        Ok(Address::Config(OffsetAddress::encode(block, offset)))
    }

    pub fn data(slot: u8, block: u8, offset: u8) -> (r: Result<Self, Error>)
        ensures
            valid_data_address(slot, block, offset) <==> r is Ok,
            r is Ok ==> r->Ok_0 is Data && r->Ok_0.spec_word() == data_word(slot, block, offset),
            r is Err ==> r == Err::<Self, Error>(Error::InvalidAddress),
    {
        if slot > 15 || offset > 7 || (slot < 8 && block > 1) || (slot == 8 && block > 15) || (
        slot > 8 && block > 7) {
            return Err(Error::invalid_address());
        }
        Ok(Address::Data(DataAddress::encode(slot, block, offset)))
    }

    /// The Config unit that holds the SlotConfig word of `slot`: the low half
    /// for an even slot, the high half for an odd one.
    pub open spec fn slot_config_location(slot: u8) -> (u8, u8) {
        if slot <= 5 {
            (0, ((20 + 2 * slot) / 4) as u8)
        } else {
            (1, ((2 * (slot - 5)) / 4) as u8)
        }
    }

    /// The Config unit that holds the KeyConfig word of `slot`, with the same
    /// parity rule for the half.
    pub open spec fn key_config_location(slot: u8) -> (u8, u8) {
        (3, ((2 * slot) / 4) as u8)
    }

    pub fn slot_config(slot: u8) -> (r: Result<Self, Error>)
        ensures
            slot <= 15 <==> r is Ok,
            r is Ok ==> r->Ok_0 is Config && r->Ok_0.spec_word() == offset_word(
                Self::slot_config_location(slot).0,
                Self::slot_config_location(slot).1,
            ),
            r is Err ==> r == Err::<Self, Error>(Error::InvalidAddress),
    {
        if slot > 15 {
            return Err(Error::invalid_address());
        }
        if slot <= 5 {
            Self::config(0, (20 + slot * 2) / 4)
        } else {
            Self::config(1, ((slot - 5) * 2) / 4)
        }
    }

    pub fn key_config(slot: u8) -> (r: Result<Self, Error>)
        ensures
            slot <= 15 <==> r is Ok,
            r is Ok ==> r->Ok_0 is Config && r->Ok_0.spec_word() == offset_word(
                Self::key_config_location(slot).0,
                Self::key_config_location(slot).1,
            ),
            r is Err ==> r == Err::<Self, Error>(Error::InvalidAddress),
    {
        if slot > 15 {
            return Err(Error::invalid_address());
        }
        Self::config(3, (slot * 2) / 4)
    }

    /// The Config unit whose bytes 2 and 3 hold the Data and Config lock
    /// bytes: block 2, offset 5.
    pub fn lock_status() -> (r: Self)
        ensures
            r is Config && r.spec_word() == offset_word(2, 5),
    {
        Address::Config(OffsetAddress::encode(2, 5))
    }

    pub fn zone(&self) -> (r: u8)
        ensures
            r == self.spec_zone(),
    {
        match self {
            Address::Config(_) => 0x00,
            Address::Otp(_) => 0x01,
            Address::Data(_) => 0x02,
        }
    }

    pub fn to_u16(&self) -> (r: u16)
        ensures
            r == self.spec_word(),
    {
        match self {
            Address::Otp(a) => a.to_u16(),
            Address::Config(a) => a.to_u16(),
            Address::Data(a) => a.to_u16(),
        }
    }
}

} // verus!
