//! The provisioning sequence: default SlotConfig and KeyConfig for every
//! slot (each a read of the shared 4-byte unit and a write of it with the
//! slot's half replaced), then the Config and Data locks, then key generation
//! until the device returns a key with a compact form.
use vstd::prelude::*;
use crate::address::{offset_word, Address, Zone};
use crate::buffer::bytes_view;
use crate::command::{EccCommand, KeyType};
use crate::key_config::KeyConfig;
use crate::keygen::{compact_decodable, keygen_step, sec1_of, KeyGenStep, GENKEY_ATTEMPTS};
use crate::ops::{unit_with_config, unit_with_word};
use crate::slot_config::SlotConfig;

verus! {

/// The highest slot number.
pub const MAX_SLOT: u8 = 15;

/// The default SlotConfig word written to every slot.
pub const DEFAULT_SLOT_CONFIG: u16 = 0x9720;

/// The default KeyConfig word written to every slot.
pub const DEFAULT_KEY_CONFIG: u16 = 0x3300;

/// Steps that configure the slots: a read and a write of the SlotConfig unit
/// and of the KeyConfig unit, for each of the 16 slots.
pub const CONFIG_STEPS: u8 = 64;

/// The step that locks the Config zone.
pub const LOCK_CONFIG_STEP: u8 = 64;

/// The step that locks the Data zone.
pub const LOCK_DATA_STEP: u8 = 65;

/// The step of the first GenKey.
pub const FIRST_GENKEY_STEP: u8 = 66;

/// The step of the last GenKey that may be made.
pub const LAST_GENKEY_STEP: u8 = 70;

/// `cmd` reads the 4-byte unit of Config at `location`.
pub open spec fn reads_config_unit(cmd: EccCommand, location: (u8, u8)) -> bool {
    cmd matches EccCommand::Read { is_32, address } && !is_32 && address is Config
        && address.spec_word() == offset_word(location.0, location.1)
}

/// `cmd` writes `data` to the 4-byte unit of Config at `location`.
pub open spec fn writes_config_unit(cmd: EccCommand, location: (u8, u8), data: Seq<u8>) -> bool {
    cmd matches EccCommand::Write { address, data: d } && address is Config
        && address.spec_word() == offset_word(location.0, location.1) && bytes_view(d) == data
}

/// The command of step `step`, where `unit` is what the step before it
/// returned. Steps 4s and 4s+1 read and rewrite the SlotConfig unit of slot
/// s, steps 4s+2 and 4s+3 its KeyConfig unit; then come the two locks and
/// the key generations.
pub open spec fn planned(cmd: EccCommand, step: u8, key_slot: u8, unit: Seq<u8>) -> bool {
    let slot = (step / 4) as u8;
    if step < CONFIG_STEPS {
        if step % 4 == 0 {
            reads_config_unit(cmd, Address::slot_config_location(slot))
        } else if step % 4 == 1 {
            writes_config_unit(
                cmd,
                Address::slot_config_location(slot),
                unit_with_word(slot, unit, DEFAULT_SLOT_CONFIG),
            )
        } else if step % 4 == 2 {
            reads_config_unit(cmd, Address::key_config_location(slot))
        } else {
            writes_config_unit(
                cmd,
                Address::key_config_location(slot),
                unit_with_word(slot, unit, DEFAULT_KEY_CONFIG),
            )
        }
    } else if step == LOCK_CONFIG_STEP {
        cmd == (EccCommand::Lock { zone: Zone::Config })
    } else if step == LOCK_DATA_STEP {
        cmd == (EccCommand::Lock { zone: Zone::Data })
    } else {
        FIRST_GENKEY_STEP <= step <= LAST_GENKEY_STEP && cmd == (EccCommand::GenKey {
            key_type: KeyType::Private,
            slot: key_slot,
        })
    }
}

/// Every slot has a step that writes its SlotConfig (step 4s+1) and one that
/// writes its KeyConfig (step 4s+3); both locks follow the slot steps, Config
/// before Data, and at most `GENKEY_ATTEMPTS` key generations follow the
/// locks.
pub proof fn provisioning_plan_covers_every_slot(slot: u8)
    requires
        slot <= MAX_SLOT,
    ensures
        ({
            let w = (4 * slot + 1) as u8;
            w < CONFIG_STEPS && w % 4 == 1 && w / 4 == slot
        }),
        ({
            let w = (4 * slot + 3) as u8;
            w < CONFIG_STEPS && w % 4 == 3 && w / 4 == slot
        }),
        CONFIG_STEPS <= LOCK_CONFIG_STEP < LOCK_DATA_STEP < FIRST_GENKEY_STEP,
        LAST_GENKEY_STEP - FIRST_GENKEY_STEP + 1 == GENKEY_ATTEMPTS,
{
}

/// What to do next while provisioning.
#[derive(Debug)]
pub enum ProvisionStep {
    /// Execute the command and hand its data to `on_response`.
    Send(EccCommand),
    /// Provisioning is complete; the new key's SEC1 encoding.
    Finished(Vec<u8>),
    /// Every key generation gave a key without a compact form.
    GaveUp,
}

/// The progress of provisioning.
pub struct Provision {
    step: u8,
    key_slot: u8,
}

impl Provision {
    pub closed spec fn spec_step(&self) -> u8 {
        self.step
    }

    pub closed spec fn spec_key_slot(&self) -> u8 {
        self.key_slot
    }

    /// A command is outstanding.
    pub open spec fn in_progress(&self) -> bool {
        self.spec_step() <= LAST_GENKEY_STEP
    }

    /// The outstanding command is a read whose unit the next step rewrites.
    pub open spec fn awaits_unit(&self) -> bool {
        self.spec_step() < CONFIG_STEPS && self.spec_step() % 2 == 0
    }

    /// Whether the outstanding command is a read of a unit.
    pub fn needs_unit(&self) -> (r: bool)
        ensures
            r == self.awaits_unit(),
    {
        self.step < CONFIG_STEPS && self.step % 2 == 0
    }

    /// Starts provisioning; the new key goes to `key_slot`. Returns the first
    /// command.
    pub fn start(key_slot: u8) -> (r: (Self, EccCommand))
        ensures
            r.0.spec_step() == 0,
            r.0.spec_key_slot() == key_slot,
            planned(r.1, 0, key_slot, Seq::empty()),
    {
        let address = Self::config_address(0, 5);
        (Provision { step: 0, key_slot }, EccCommand::read(false, address))
    }

    fn config_address(block: u8, offset: u8) -> (r: Address)
        requires
            block <= 3 && offset <= 7,
        ensures
            r is Config && r.spec_word() == offset_word(block, offset),
    {
        Address::config(block, offset).unwrap()
    }

    /// Takes the data that the outstanding command returned and says what
    /// comes next.
    pub fn on_response(&mut self, data: &[u8]) -> (r: ProvisionStep)
        requires
            old(self).in_progress(),
            old(self).awaits_unit() ==> data@.len() >= 4,
        ensures
            final(self).spec_key_slot() == old(self).spec_key_slot(),
            old(self).spec_step() < FIRST_GENKEY_STEP ==> r is Send,
            r matches ProvisionStep::Send(cmd) ==> final(self).spec_step() == old(self).spec_step()
                + 1 && final(self).in_progress() && planned(
                cmd,
                final(self).spec_step(),
                final(self).spec_key_slot(),
                data@,
            ),
            r matches ProvisionStep::Finished(k) ==> old(self).spec_step() >= FIRST_GENKEY_STEP
                && data@.len() == 64 && compact_decodable(sec1_of(data@)) && k@ == sec1_of(data@)
                && !final(self).in_progress(),
            r is GaveUp <==> old(self).spec_step() == LAST_GENKEY_STEP && !(data@.len() == 64
                && compact_decodable(sec1_of(data@))),
            r is GaveUp ==> !final(self).in_progress(),
    {
        let step = self.step;
        if step < CONFIG_STEPS {
            let slot = step / 4;
            let next = step + 1;
            self.step = next;
            let cmd = if step % 4 == 0 {
                let address = Self::config_address(
                    if slot <= 5 { 0 } else { 1 },
                    if slot <= 5 { (20 + slot * 2) / 4 } else { ((slot - 5) * 2) / 4 },
                );
                EccCommand::write(address, unit_with_config(slot, data, DEFAULT_SLOT_CONFIG).as_slice())
            } else if step % 4 == 1 {
                let address = Self::config_address(3, (slot * 2) / 4);
                EccCommand::read(false, address)
            } else if step % 4 == 2 {
                let address = Self::config_address(3, (slot * 2) / 4);
                EccCommand::write(address, unit_with_config(slot, data, DEFAULT_KEY_CONFIG).as_slice())
            } else if next < CONFIG_STEPS {
                let s = slot + 1;
                let address = Self::config_address(
                    if s <= 5 { 0 } else { 1 },
                    if s <= 5 { (20 + s * 2) / 4 } else { ((s - 5) * 2) / 4 },
                );
                EccCommand::read(false, address)
            } else {
                EccCommand::lock(Zone::Config)
            };
            ProvisionStep::Send(cmd)
        } else if step == LOCK_CONFIG_STEP {
            self.step = LOCK_DATA_STEP;
            ProvisionStep::Send(EccCommand::lock(Zone::Data))
        } else if step == LOCK_DATA_STEP {
            self.step = FIRST_GENKEY_STEP;
            ProvisionStep::Send(EccCommand::genkey(KeyType::Private, self.key_slot))
        } else {
            let made = step - LOCK_DATA_STEP;
            match keygen_step(made, data) {
                KeyGenStep::Accept(k) => {
                    self.step = LAST_GENKEY_STEP + 1;
                    ProvisionStep::Finished(k)
                },
                KeyGenStep::Retry => {
                    self.step = step + 1;
                    ProvisionStep::Send(EccCommand::genkey(KeyType::Private, self.key_slot))
                },
                KeyGenStep::GiveUp => {
                    self.step = LAST_GENKEY_STEP + 1;
                    ProvisionStep::GaveUp
                },
            }
        }
    }
}

} // verus!
