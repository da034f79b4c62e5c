//! The SlotConfig word of a slot and the four readings of its write
//! configuration.
use vstd::prelude::*;
use crate::bits::{field, get_field, set_field, with_field};

verus! {

/// The big-endian value of two bytes.
pub open spec fn be_u16(hi: u8, lo: u8) -> u16 {
    (hi * 256 + lo) as u16
}

/// The two bytes of a word, high byte first.
pub open spec fn be_bytes(v: u16) -> Seq<u8> {
    seq![(v / 256) as u8, (v % 256) as u8]
}

/// Reads a big-endian word from the first two bytes of `v`.
pub(crate) fn read_be_u16(v: &[u8]) -> (r: u16)
    requires
        v@.len() >= 2,
    ensures
        r == be_u16(v@[0], v@[1]),
{
    v[0] as u16 * 256 + v[1] as u16
}

/// Bit `n` of a byte.
pub open spec fn bit8(v: u8, n: u8) -> bool {
    (v >> n) & 1 == 1
}

/// `v` with bit `n` set to `b`.
pub open spec fn with_bit8(v: u8, n: u8, b: bool) -> u8 {
    if b {
        v | (1u8 << n)
    } else {
        v & !(1u8 << n)
    }
}

/// The ReadKey nibble of an ECC key slot: which uses of the private key are
/// allowed.
#[derive(Debug, Clone, Copy, PartialEq, Eq, Structural)]
pub struct ReadKey(u8);

impl View for ReadKey {
    type V = u8;

    closed spec fn view(&self) -> u8 {
        self.0
    }
}

impl ReadKey {
    pub fn from_u8(v: u8) -> (r: Self)
        ensures
            r@ == v,
    {
        ReadKey(v)
    }

    pub fn to_u8(&self) -> (r: u8)
        ensures
            r == self@,
    {
        self.0
    }

    fn get(&self, n: u8) -> (r: bool)
        requires
            n < 8,
        ensures
            r == bit8(self@, n),
    {
        (self.0 >> n) & 1 == 1
    }

    fn set(&mut self, n: u8, b: bool)
        requires
            n < 8,
        ensures
            final(self)@ == with_bit8(old(self)@, n, b),
    {
        if b {
            self.0 = self.0 | (1u8 << n);
        } else {
            self.0 = self.0 & !(1u8 << n);
        }
    }

    pub fn external_signatures(&self) -> (r: bool)
        ensures
            r == bit8(self@, 0),
    {
        self.get(0)
    }

    pub fn internal_signatures(&self) -> (r: bool)
        ensures
            r == bit8(self@, 1),
    {
        self.get(1)
    }

    pub fn ecdh_operation(&self) -> (r: bool)
        ensures
            r == bit8(self@, 2),
    {
        self.get(2)
    }

    pub fn ecdh_write_slot(&self) -> (r: bool)
        ensures
            r == bit8(self@, 3),
    {
        self.get(3)
    }

    pub fn set_external_signatures(&mut self, b: bool)
        ensures
            final(self)@ == with_bit8(old(self)@, 0, b),
    {
        self.set(0, b)
    }

    pub fn set_internal_signatures(&mut self, b: bool)
        ensures
            final(self)@ == with_bit8(old(self)@, 1, b),
    {
        self.set(1, b)
    }

    pub fn set_ecdh_operation(&mut self, b: bool)
        ensures
            final(self)@ == with_bit8(old(self)@, 2, b),
    {
        self.set(2, b)
    }

    pub fn set_ecdh_write_slot(&mut self, b: bool)
        ensures
            final(self)@ == with_bit8(old(self)@, 3, b),
    {
        self.set(3, b)
    }
}

impl Default for ReadKey {
    /// External signatures, internal signatures and ECDH allowed.
    fn default() -> (r: Self)
        ensures
            r@ == 7,
            bit8(r@, 0) && bit8(r@, 1) && bit8(r@, 2) && !bit8(r@, 3),
    {
        let mut result = ReadKey(0);
        result.set_internal_signatures(true);
        result.set_external_signatures(true);
        result.set_ecdh_operation(true);
        assert(with_bit8(with_bit8(with_bit8(0, 1, true), 0, true), 2, true) == 7) by (bit_vector);
        assert(bit8(7, 0) && bit8(7, 1) && bit8(7, 2) && !bit8(7, 3)) by (bit_vector);
        result
    }
}

/// The command whose reading of the write configuration is wanted.
#[derive(Debug, Clone, Copy, PartialEq, Eq, Structural)]
pub enum WriteCommand {
    Write,
    DeriveKey,
    GenKey,
    PrivWrite,
}

/// What the Write command may do with a slot.
#[derive(Debug, Clone, Copy, PartialEq, Eq, Structural)]
pub enum _WriteConfig {
    /// Clear text writes are always permitted.
    Always,
    /// Writes are prohibited while a validated public key is stored.
    PubInValid,
    /// Writes by the Write command are never permitted.
    Never,
    /// Writes need a MAC and encrypted input.
    Encrypt,
}

/// What DeriveKey may do with a slot, and whether it needs a MAC.
#[derive(Debug, Clone, Copy, PartialEq, Eq, Structural)]
pub enum DeriveKeyConfig {
    /// Source key is the target slot.
    Roll(bool),
    /// Source key is the parent slot.
    Create(bool),
    /// The slot cannot be the target of DeriveKey.
    Invalid,
}

/// Whether GenKey may write random keys into a slot.
#[derive(Debug, Clone, Copy, PartialEq, Eq, Structural)]
pub enum GenKeyConfig {
    Valid,
    Invalid,
}

/// Whether PrivWrite may write a slot.
#[derive(Debug, Clone, Copy, PartialEq, Eq, Structural)]
pub enum PrivWriteConfig {
    Invalid,
    Encrypt,
}

/// The write configuration nibble as one command reads it.
#[derive(Debug, Clone, Copy, PartialEq, Eq, Structural)]
pub enum WriteConfig {
    Write(_WriteConfig),
    DeriveKey(DeriveKeyConfig),
    GenKey(GenKeyConfig),
    PrivWrite(PrivWriteConfig),
}

impl _WriteConfig {
    /// Of the low four bits: 0 always, 1 pub-invalid, 2, 3 and 8 to 11
    /// never, the rest (bit 2 set) encrypt.
    pub open spec fn spec_from_bits(v: u8) -> _WriteConfig {
        let n = v % 16;
        if n == 0 {
            _WriteConfig::Always
        } else if n == 1 {
            _WriteConfig::PubInValid
        } else if n == 2 || n == 3 || (8 <= n && n <= 11) {
            _WriteConfig::Never
        } else {
            _WriteConfig::Encrypt
        }
    }

    pub fn from_bits(v: u8) -> (r: Self)
        ensures
            r == Self::spec_from_bits(v),
    {
        let n: u8 = v % 16;
        if n == 0 {
            _WriteConfig::Always
        } else if n == 1 {
            _WriteConfig::PubInValid
        } else if n == 2 || n == 3 || (8 <= n && n <= 11) {
            _WriteConfig::Never
        } else {
            _WriteConfig::Encrypt
        }
    }

    pub open spec fn spec_to_bits(self) -> u8 {
        match self {
            _WriteConfig::Always => 0,
            _WriteConfig::PubInValid => 1,
            _WriteConfig::Never => 2,
            _WriteConfig::Encrypt => 4,
        }
    }

    pub fn to_bits(&self) -> (r: u8)
        ensures
            r == self.spec_to_bits(),
    {
        match self {
            _WriteConfig::Always => 0,
            _WriteConfig::PubInValid => 1,
            _WriteConfig::Never => 2,
            _WriteConfig::Encrypt => 4,
        }
    }
}

impl DeriveKeyConfig {
    /// Bits 3, 1 and 0: 0b010 roll, 0b011 create; bit 3 asks for a MAC.
    pub open spec fn spec_from_bits(v: u8) -> DeriveKeyConfig {
        let m = (v % 4) + ((v / 8) % 2) * 8;
        if m == 2 {
            DeriveKeyConfig::Roll(false)
        } else if m == 10 {
            DeriveKeyConfig::Roll(true)
        } else if m == 3 {
            DeriveKeyConfig::Create(false)
        } else if m == 11 {
            DeriveKeyConfig::Create(true)
        } else {
            DeriveKeyConfig::Invalid
        }
    }

    pub fn from_bits(v: u8) -> (r: Self)
        ensures
            r == Self::spec_from_bits(v),
    {
        let m: u8 = (v % 4) + ((v / 8) % 2) * 8;
        if m == 2 {
            DeriveKeyConfig::Roll(false)
        } else if m == 10 {
            DeriveKeyConfig::Roll(true)
        } else if m == 3 {
            DeriveKeyConfig::Create(false)
        } else if m == 11 {
            DeriveKeyConfig::Create(true)
        } else {
            DeriveKeyConfig::Invalid
        }
    }

    pub open spec fn spec_to_bits(self) -> u8 {
        match self {
            DeriveKeyConfig::Roll(mac) => if mac {
                10
            } else {
                2
            },
            DeriveKeyConfig::Create(mac) => if mac {
                11
            } else {
                3
            },
            DeriveKeyConfig::Invalid => 0,
        }
    }

    pub fn to_bits(&self) -> (r: u8)
        ensures
            r == self.spec_to_bits(),
    {
        match self {
            DeriveKeyConfig::Roll(mac) => if *mac {
                10
            } else {
                2
            },
            DeriveKeyConfig::Create(mac) => if *mac {
                11
            } else {
                3
            },
            DeriveKeyConfig::Invalid => 0,
        }
    }
}

impl GenKeyConfig {
    /// Bit 1 set: valid.
    pub open spec fn spec_from_bits(v: u8) -> GenKeyConfig {
        if (v / 2) % 2 == 1 {
            GenKeyConfig::Valid
        } else {
            GenKeyConfig::Invalid
        }
    }

    pub fn from_bits(v: u8) -> (r: Self)
        ensures
            r == Self::spec_from_bits(v),
    {
        if (v / 2) % 2 == 1 {
            GenKeyConfig::Valid
        } else {
            GenKeyConfig::Invalid
        }
    }

    pub open spec fn spec_to_bits(self) -> u8 {
        match self {
            GenKeyConfig::Invalid => 0,
            GenKeyConfig::Valid => 2,
        }
    }

    pub fn to_bits(&self) -> (r: u8)
        ensures
            r == self.spec_to_bits(),
    {
        match self {
            GenKeyConfig::Invalid => 0,
            GenKeyConfig::Valid => 2,
        }
    }
}

impl PrivWriteConfig {
    /// Bit 2 set: encrypt.
    pub open spec fn spec_from_bits(v: u8) -> PrivWriteConfig {
        if (v / 4) % 2 == 1 {
            PrivWriteConfig::Encrypt
        } else {
            PrivWriteConfig::Invalid
        }
    }

    pub fn from_bits(v: u8) -> (r: Self)
        ensures
            r == Self::spec_from_bits(v),
    {
        if (v / 4) % 2 == 1 {
            PrivWriteConfig::Encrypt
        } else {
            PrivWriteConfig::Invalid
        }
    }

    pub open spec fn spec_to_bits(self) -> u8 {
        match self {
            PrivWriteConfig::Invalid => 0,
            PrivWriteConfig::Encrypt => 4,
        }
    }

    pub fn to_bits(&self) -> (r: u8)
        ensures
            r == self.spec_to_bits(),
    {
        match self {
            PrivWriteConfig::Invalid => 0,
            PrivWriteConfig::Encrypt => 4,
        }
    }
}

impl WriteConfig {
    pub open spec fn spec_from(cmd: WriteCommand, v: u8) -> WriteConfig {
        match cmd {
            WriteCommand::Write => WriteConfig::Write(_WriteConfig::spec_from_bits(v)),
            WriteCommand::DeriveKey => WriteConfig::DeriveKey(DeriveKeyConfig::spec_from_bits(v)),
            WriteCommand::GenKey => WriteConfig::GenKey(GenKeyConfig::spec_from_bits(v)),
            WriteCommand::PrivWrite => WriteConfig::PrivWrite(PrivWriteConfig::spec_from_bits(v)),
        }
    }

    /// The nibble `v` as `cmd` reads it.
    pub fn from(cmd: WriteCommand, v: u8) -> (r: Self)
        ensures
            r == Self::spec_from(cmd, v),
    {
        match cmd {
            WriteCommand::Write => WriteConfig::Write(_WriteConfig::from_bits(v)),
            WriteCommand::DeriveKey => WriteConfig::DeriveKey(DeriveKeyConfig::from_bits(v)),
            WriteCommand::GenKey => WriteConfig::GenKey(GenKeyConfig::from_bits(v)),
            WriteCommand::PrivWrite => WriteConfig::PrivWrite(PrivWriteConfig::from_bits(v)),
        }
    }

    pub open spec fn spec_to_bits(self) -> u8 {
        match self {
            WriteConfig::Write(c) => c.spec_to_bits(),
            WriteConfig::DeriveKey(c) => c.spec_to_bits(),
            WriteConfig::GenKey(c) => c.spec_to_bits(),
            WriteConfig::PrivWrite(c) => c.spec_to_bits(),
        }
    }

    /// The nibble that stands for this configuration.
    pub fn to_bits(&self) -> (r: u8)
        ensures
            r == self.spec_to_bits(),
            r < 16,
    {
        match self {
            WriteConfig::Write(c) => c.to_bits(),
            WriteConfig::DeriveKey(c) => c.to_bits(),
            WriteConfig::GenKey(c) => c.to_bits(),
            WriteConfig::PrivWrite(c) => c.to_bits(),
        }
    }
}

impl WriteConfig {
    /// The command whose reading this is.
    pub open spec fn command(self) -> WriteCommand {
        match self {
            WriteConfig::Write(_) => WriteCommand::Write,
            WriteConfig::DeriveKey(_) => WriteCommand::DeriveKey,
            WriteConfig::GenKey(_) => WriteCommand::GenKey,
            WriteConfig::PrivWrite(_) => WriteCommand::PrivWrite,
        }
    }
}

/// The nibble of a write configuration, read by the same command, gives the
/// configuration back.
pub proof fn write_config_round_trip(c: WriteConfig)
    ensures
        WriteConfig::spec_from(c.command(), c.spec_to_bits()) == c,
{
}

impl Default for WriteConfig {
    /// GenKey may write random keys into the slot.
    fn default() -> (r: Self)
        ensures
            r == WriteConfig::GenKey(GenKeyConfig::Valid),
    {
        WriteConfig::GenKey(GenKeyConfig::Valid)
    }
}

/// The SlotConfig word of one slot. Bit 15 secret, 14 encrypt-read, 13
/// limited-use, 12 no-MAC, 11..8 read key, 7..4 write configuration, 3..0
/// write key.
#[derive(Debug, Clone, Copy, PartialEq, Eq, Structural)]
pub struct SlotConfig(u16);

impl View for SlotConfig {
    type V = u16;

    closed spec fn view(&self) -> u16 {
        self.0
    }
}

/// The word with the given fields; the nibbles are taken as they are.
pub open spec fn slot_config_word(
    secret: u16,
    encrypt_read: u16,
    limited_use: u16,
    no_mac: u16,
    read_key: u16,
    write_config: u16,
    write_key: u16,
) -> int {
    secret * 32768 + encrypt_read * 16384 + limited_use * 8192 + no_mac * 4096 + read_key * 256
        + write_config * 16 + write_key
}

/// A SlotConfig word is rebuilt exactly from its fields, and from its two
/// bytes high byte first.
pub proof fn slot_config_round_trip(v: u16)
    ensures
        slot_config_word(
            field(v, 15, 1),
            field(v, 14, 1),
            field(v, 13, 1),
            field(v, 12, 1),
            field(v, 8, 4),
            field(v, 4, 4),
            field(v, 0, 4),
        ) == v,
        be_u16(be_bytes(v)[0], be_bytes(v)[1]) == v,
{
    assert(slot_config_word(
        field(v, 15, 1),
        field(v, 14, 1),
        field(v, 13, 1),
        field(v, 12, 1),
        field(v, 8, 4),
        field(v, 4, 4),
        field(v, 0, 4),
    ) == v) by (bit_vector);
}

impl SlotConfig {
    pub fn from_u16(v: u16) -> (r: Self)
        ensures
            r@ == v,
    {
        SlotConfig(v)
    }

    pub fn to_u16(&self) -> (r: u16)
        ensures
            r == self@,
    {
        self.0
    }

    /// The word in the first two bytes of `v`, high byte first.
    pub fn from_bytes(v: &[u8]) -> (r: Self)
        requires
            v@.len() >= 2,
        ensures
            r@ == be_u16(v@[0], v@[1]),
    {
        SlotConfig(read_be_u16(v))
    }

    /// The word's two bytes, high byte first.
    pub fn to_bytes(&self) -> (r: Vec<u8>)
        ensures
            r@ == be_bytes(self@),
    {
        let mut r: Vec<u8> = Vec::new();
        r.push((self.0 / 256) as u8);
        r.push((self.0 % 256) as u8);
        proof {
            assert(r@ =~= be_bytes(self@));
        }
        r
    }

    pub fn secret(&self) -> (r: bool)
        ensures
            r == (field(self@, 15, 1) == 1),
    {
        get_field(self.0, 15, 1) == 1
    }

    pub fn encrypt_read(&self) -> (r: bool)
        ensures
            r == (field(self@, 14, 1) == 1),
    {
        get_field(self.0, 14, 1) == 1
    }

    pub fn limited_use(&self) -> (r: bool)
        ensures
            r == (field(self@, 13, 1) == 1),
    {
        get_field(self.0, 13, 1) == 1
    }

    pub fn no_mac(&self) -> (r: bool)
        ensures
            r == (field(self@, 12, 1) == 1),
    {
        get_field(self.0, 12, 1) == 1
    }

    pub fn read_key(&self) -> (r: ReadKey)
        ensures
            r@ == field(self@, 8, 4),
    {
        ReadKey(get_field(self.0, 8, 4) as u8)
    }

    /// The raw write configuration nibble.
    pub fn write_config_bits(&self) -> (r: u8)
        ensures
            r == field(self@, 4, 4),
    {
        get_field(self.0, 4, 4) as u8
    }

    pub fn write_key(&self) -> (r: u8)
        ensures
            r == field(self@, 0, 4),
    {
        get_field(self.0, 0, 4) as u8
    }

    /// The write configuration nibble as `cmd` reads it.
    pub fn write_config(&self, cmd: WriteCommand) -> (r: WriteConfig)
        ensures
            r == WriteConfig::spec_from(cmd, field(self@, 4, 4) as u8),
    {
        WriteConfig::from(cmd, self.write_config_bits())
    }

    pub fn set_secret(&mut self, b: bool)
        ensures
            final(self)@ == with_field(old(self)@, 15, 1, b as u16),
    {
        self.0 = set_field(self.0, 15, 1, b as u16);
    }

    pub fn set_encrypt_read(&mut self, b: bool)
        ensures
            final(self)@ == with_field(old(self)@, 14, 1, b as u16),
    {
        self.0 = set_field(self.0, 14, 1, b as u16);
    }

    pub fn set_limited_use(&mut self, b: bool)
        ensures
            final(self)@ == with_field(old(self)@, 13, 1, b as u16),
    {
        self.0 = set_field(self.0, 13, 1, b as u16);
    }

    pub fn set_no_mac(&mut self, b: bool)
        ensures
            final(self)@ == with_field(old(self)@, 12, 1, b as u16),
    {
        self.0 = set_field(self.0, 12, 1, b as u16);
    }

    /// Stores the low four bits of `key`.
    pub fn set_read_key(&mut self, key: ReadKey)
        ensures
            final(self)@ == with_field(old(self)@, 8, 4, key@ as u16),
    {
        self.0 = set_field(self.0, 8, 4, key.to_u8() as u16);
    }

    /// Stores the low four bits of `v`.
    pub fn set_write_key(&mut self, v: u8)
        ensures
            final(self)@ == with_field(old(self)@, 0, 4, v as u16),
    {
        self.0 = set_field(self.0, 0, 4, v as u16);
    }

    pub fn set_write_config(&mut self, config: WriteConfig)
        ensures
            final(self)@ == with_field(old(self)@, 4, 4, config.spec_to_bits() as u16),
    {
        self.0 = set_field(self.0, 4, 4, config.to_bits() as u16);
    }
}

impl Default for SlotConfig {
    /// A slot set up to generate and keep an ECDSA private key: secret, no
    /// MAC, neither encrypted reads nor limited use, GenKey allowed, write key
    /// 0, and the default read key.
    fn default() -> (r: Self)
        ensures
            r@ == 0x9720,
            field(r@, 15, 1) == 1,
            field(r@, 14, 1) == 0,
            field(r@, 13, 1) == 0,
            field(r@, 12, 1) == 1,
            field(r@, 8, 4) == 7,
            field(r@, 4, 4) == 2,
            field(r@, 0, 4) == 0,
    {
        let mut result = SlotConfig(0);
        result.set_write_config(WriteConfig::default());
        result.set_write_key(0);
        result.set_secret(true);
        result.set_encrypt_read(false);
        result.set_limited_use(false);
        result.set_no_mac(true);
        result.set_read_key(ReadKey::default());
        assert(with_field(
            with_field(
                with_field(
                    with_field(
                        with_field(with_field(with_field(0, 4, 4, 2), 0, 4, 0), 15, 1, 1),
                        14,
                        1,
                        0,
                    ),
                    13,
                    1,
                    0,
                ),
                12,
                1,
                1,
            ),
            8,
            4,
            7,
        ) == 0x9720) by (bit_vector);
        assert(field(0x9720, 15, 1) == 1 && field(0x9720, 14, 1) == 0 && field(0x9720, 13, 1) == 0
            && field(0x9720, 12, 1) == 1 && field(0x9720, 8, 4) == 7 && field(0x9720, 4, 4) == 2
            && field(0x9720, 0, 4) == 0) by (bit_vector);
        result
    }
}

} // verus!
