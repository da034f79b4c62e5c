//! What the device operations compute from the words they read: the serial
//! number, the configuration word of a slot, the lock state, the 4-byte unit
//! written back, and the verdict on a generated key.
use vstd::prelude::*;
use bytes::Bytes;
use crate::address::Zone;
use crate::buffer::{bytes_from_vec, bytes_view};
use crate::key_config::KeyConfig;
use crate::slot_config::{be_bytes, be_u16, read_be_u16, SlotConfig};

verus! {

/// The serial number: bytes 0..4 and 8..13 of the first Config block.
pub open spec fn serial_of(block: Seq<u8>) -> Seq<u8> {
    block.subrange(0, 4) + block.subrange(8, 13)
}

/// Assembles the 9-byte serial number from the first 32-byte Config block.
pub fn serial_from_config(block: &[u8]) -> (r: Bytes)
    requires
        block@.len() >= 13,
    ensures
        bytes_view(r) == serial_of(block@),
{
    let mut v: Vec<u8> = Vec::new();
    let mut i: usize = 0;
    while i < 13
        invariant
            block@.len() >= 13,
            i <= 13,
            v@ == (if i <= 4 {
                block@.subrange(0, i as int)
            } else if i <= 8 {
                block@.subrange(0, 4)
            } else {
                block@.subrange(0, 4) + block@.subrange(8, i as int)
            }),
        decreases 13 - i,
    {
        if i < 4 || i >= 8 {
            v.push(block[i]);
        }
        proof {
            if i < 4 {
                assert(block@.subrange(0, i + 1) =~= block@.subrange(0, i as int).push(block@[i as int]));
            } else if i >= 8 {
                assert(block@.subrange(0, 4) + block@.subrange(8, i + 1) =~= (block@.subrange(0, 4)
                    + block@.subrange(8, i as int)).push(block@[i as int]));
            }
        }
        i = i + 1;
    }
    proof {
        assert(v@ =~= serial_of(block@));
    }
    bytes_from_vec(v)
}

/// A serial number that the datasheet allows: it starts 0x01 0x23 and its
/// ninth byte is 0xEE.
pub open spec fn spec_serial_valid(serial: Seq<u8>) -> bool {
    serial.len() >= 9 && serial[0] == 0x01 && serial[1] == 0x23 && serial[8] == 0xEE
}

pub fn serial_valid(serial: &[u8]) -> (r: bool)
    ensures
        r == spec_serial_valid(serial@),
{
    serial.len() >= 9 && serial[0] == 0x01 && serial[1] == 0x23 && serial[8] == 0xEE
}

/// The configuration word of `slot` in the 4-byte unit that holds it: the
/// first half for an even slot, the second for an odd one, high byte first.
pub open spec fn word_in_unit(slot: u8, unit: Seq<u8>) -> u16 {
    if slot % 2 == 0 {
        be_u16(unit[0], unit[1])
    } else {
        be_u16(unit[2], unit[3])
    }
}

/// The unit with the half of `slot` replaced by `word`; the other half, which
/// belongs to the neighbouring slot, is kept.
pub open spec fn unit_with_word(slot: u8, unit: Seq<u8>, word: u16) -> Seq<u8> {
    if slot % 2 == 0 {
        be_bytes(word) + unit.subrange(2, 4)
    } else {
        unit.subrange(0, 2) + be_bytes(word)
    }
}

fn half_of_unit(slot: u8, unit: &[u8]) -> (r: u16)
    requires
        unit@.len() >= 4,
    ensures
        r == word_in_unit(slot, unit@),
{
    if slot % 2 == 0 {
        read_be_u16(unit)
    } else {
        unit[2] as u16 * 256 + unit[3] as u16
    }
}

/// The unit to write back so that `slot` gets `word`.
pub fn unit_with_config(slot: u8, unit: &[u8], word: u16) -> (r: Vec<u8>)
    requires
        unit@.len() >= 4,
    ensures
        r@ == unit_with_word(slot, unit@, word),
        r@.len() == 4,
{
    let mut r: Vec<u8> = Vec::new();
    if slot % 2 == 0 {
        r.push((word / 256) as u8);
        r.push((word % 256) as u8);
        r.push(unit[2]);
        r.push(unit[3]);
    } else {
        r.push(unit[0]);
        r.push(unit[1]);
        r.push((word / 256) as u8);
        r.push((word % 256) as u8);
    }
    proof {
        assert(r@ =~= unit_with_word(slot, unit@, word));
    }
    r
}

/// Writing a slot's word into its unit and reading it back gives the word,
/// and the neighbouring slot's word is untouched.
pub proof fn unit_with_word_keeps_neighbour(slot: u8, unit: Seq<u8>, word: u16)
    requires
        unit.len() == 4,
        slot < 255,
    ensures
        word_in_unit(slot, unit_with_word(slot, unit, word)) == word,
        slot % 2 == 0 ==> word_in_unit((slot + 1) as u8, unit_with_word(slot, unit, word))
            == word_in_unit((slot + 1) as u8, unit),
        slot % 2 == 1 ==> word_in_unit((slot - 1) as u8, unit_with_word(slot, unit, word))
            == word_in_unit((slot - 1) as u8, unit),
{
    let u = unit_with_word(slot, unit, word);
    if slot % 2 == 0 {
        assert(u[2] == unit[2] && u[3] == unit[3]);
    } else {
        assert(u[0] == unit[0] && u[1] == unit[1]);
    }
}

/// The SlotConfig of `slot` in the unit that `Address::slot_config(slot)`
/// reads.
pub fn slot_config_in_unit(slot: u8, unit: &[u8]) -> (r: SlotConfig)
    requires
        unit@.len() >= 4,
    ensures
        r@ == word_in_unit(slot, unit@),
{
    SlotConfig::from_u16(half_of_unit(slot, unit))
}

/// The KeyConfig of `slot` in the unit that `Address::key_config(slot)`
/// reads.
pub fn key_config_in_unit(slot: u8, unit: &[u8]) -> (r: KeyConfig)
    requires
        unit@.len() >= 4,
    ensures
        r@ == word_in_unit(slot, unit@),
{
    KeyConfig::from_u16(half_of_unit(slot, unit))
}

/// Whether `zone` is locked, from the unit at `Address::lock_status()`: byte
/// 2 is 0 once Data is locked, byte 3 once Config is.
pub open spec fn spec_locked_in_unit(zone: Zone, unit: Seq<u8>) -> bool {
    match zone {
        Zone::Config => unit[3] == 0,
        Zone::Data => unit[2] == 0,
    }
}

pub fn locked_in_unit(zone: Zone, unit: &[u8]) -> (r: bool)
    requires
        unit@.len() >= 4,
    ensures
        r == spec_locked_in_unit(zone, unit@),
{
    match zone {
        Zone::Config => unit[3] == 0,
        Zone::Data => unit[2] == 0,
    }
}

} // verus!
