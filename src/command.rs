//! Command frames sent to the device and the responses it returns.
use vstd::prelude::*;
use bytes::{Bytes, BytesMut};
use crate::address::{Address, DataBuffer, Zone};
use crate::buffer::{bytes_as_slice, bytes_from_vec, bytes_mut_extend, bytes_mut_view, bytes_view};
use crate::error::Error;

verus! {

pub const ATCA_INFO: u8 = 0x30;
pub const ATCA_READ: u8 = 0x02;
pub const ATCA_WRITE: u8 = 0x12;
pub const ATCA_NONCE: u8 = 0x16;
pub const ATCA_LOCK: u8 = 0x17;
pub const ATCA_GENKEY: u8 = 0x40;
pub const ATCA_SIGN: u8 = 0x41;

/// The word address that selects the device's command register.
pub const WORD_ADDRESS_COMMAND: u8 = 0x03;

/// The largest command frame the device accepts.
pub const ATCA_CMD_SIZE_MAX: u8 = 151;

/// The largest data payload of a command: the frame less its seven bytes of
/// word address, length, opcode, parameters and checksum.
pub const MAX_COMMAND_DATA: usize = 144;

/// The length of the shortest response: length, status and checksum.
pub const ATCA_RSP_SIZE_MIN: u8 = 4;

pub const CMD_STATUS_BYTE_SUCCESS: u8 = 0x00;
pub const CMD_STATUS_BYTE_PARSE: u8 = 0x03;
pub const CMD_STATUS_BYTE_ECC: u8 = 0x05;
pub const CMD_STATUS_BYTE_SELF_TEST: u8 = 0x07;
pub const CMD_STATUS_BYTE_EXEC: u8 = 0x0F;
pub const CMD_STATUS_BYTE_WATCHDOG: u8 = 0xEE;
pub const CMD_STATUS_BYTE_COMM: u8 = 0xFF;

pub const CRC_POLYNOMIAL: u16 = 0x8005;

// ---------------------------------------------------------------------------
// CRC-16

/// One bit of the checksum's shift register.
pub open spec fn crc_step(crc: u16, data_bit: bool) -> u16 {
    if data_bit != (crc >> 15u16 == 1) {
        (crc << 1u16) ^ CRC_POLYNOMIAL
    } else {
        crc << 1u16
    }
}

/// The register after the low `n` bits of `d`, least significant first.
pub open spec fn crc_bits(crc: u16, d: u8, n: u8) -> u16
    decreases n,
{
    if n == 0 {
        crc
    } else {
        crc_step(crc_bits(crc, d, (n - 1) as u8), (d >> ((n - 1) as u8)) & 1 == 1)
    }
}

/// The register after all bytes of `s`, starting from `init`.
pub open spec fn crc_from(init: u16, s: Seq<u8>) -> u16
    decreases s.len(),
{
    if s.len() == 0 {
        init
    } else {
        crc_bits(crc_from(init, s.drop_last()), s.last(), 8)
    }
}

/// CRC-16 with polynomial 0x8005, initial value 0, no reflection of the
/// register and no final XOR; each byte is fed least significant bit first.
pub open spec fn crc16(s: Seq<u8>) -> u16 {
    crc_from(0, s)
}

/// The checksum runs over a concatenation as over its first part, then its
/// second part from the register that the first left.
pub proof fn crc_concat(init: u16, a: Seq<u8>, b: Seq<u8>)
    ensures
        crc_from(init, a + b) == crc_from(crc_from(init, a), b),
    decreases b.len(),
{
    if b.len() == 0 {
        assert(a + b =~= a);
    } else {
        assert((a + b).drop_last() =~= a + b.drop_last());
        crc_concat(init, a, b.drop_last());
    }
}

/// Computes `crc16` of `src`.
pub fn crc(src: &[u8]) -> (r: u16)
    ensures
        r == crc16(src@),
{
    let mut crc: u16 = 0;
    let mut i: usize = 0;
    while i < src.len()
        invariant
            i <= src@.len(),
            crc == crc_from(0, src@.subrange(0, i as int)),
        decreases src@.len() - i,
    {
        let d: u8 = src[i];
        let ghost start = crc;
        let mut b: u8 = 0;
        while b < 8
            invariant
                b <= 8,
                crc == crc_bits(start, d, b),
            decreases 8 - b,
        {
            let data_bit: bool = (d >> b) & 1 == 1;
            let crc_bit: bool = crc >> 15u16 == 1;
            crc = crc << 1u16;
            if data_bit != crc_bit {
                crc = crc ^ CRC_POLYNOMIAL;
            }
            b = b + 1;
        }
        proof {
            assert(src@.subrange(0, i + 1).drop_last() =~= src@.subrange(0, i as int));
        }
        i = i + 1;
    }
    proof {
        assert(src@.subrange(0, src@.len() as int) =~= src@);
    }
    crc
}

/// The checksum as it is sent: low byte first.
pub open spec fn le_bytes(v: u16) -> Seq<u8> {
    seq![(v % 256) as u8, (v / 256) as u8]
}

// ---------------------------------------------------------------------------
// Commands

/// Which key GenKey works on.
#[derive(Debug, Clone, Copy, PartialEq, Eq, Structural)]
pub enum KeyType {
    /// Compute the public key of the private key already in the slot.
    Public,
    /// Generate a new private key in the slot.
    Private,
}

impl KeyType {
    pub open spec fn spec_code(self) -> u8 {
        match self {
            KeyType::Public => 0x00,
            KeyType::Private => 0x04,
        }
    }

    /// The mode byte of GenKey.
    pub fn code(&self) -> (r: u8)
        ensures
            r == self.spec_code(),
    {
        match self {
            KeyType::Public => 0x00,
            KeyType::Private => 0x04,
        }
    }
}

/// A command of the subset of the device's command set that this library
/// drives.
#[derive(Debug, PartialEq)]
pub enum EccCommand {
    Info,
    GenKey { key_type: KeyType, slot: u8 },
    Read { is_32: bool, address: Address },
    Write { address: Address, data: Bytes },
    Lock { zone: Zone },
    Nonce { target: DataBuffer, data: Bytes },
    Sign { source: DataBuffer, key_slot: u8 },
}

/// The Lock command's number for a zone.
pub open spec fn lock_zone_code(zone: Zone) -> u8 {
    match zone {
        Zone::Config => 0,
        Zone::Data => 1,
    }
}

/// The `Duration` of `n` microseconds.
pub uninterp spec fn micros_duration(n: u64) -> core::time::Duration;

/// Relies on `Duration::from_micros`, whose value depends on `n` alone.
#[verifier::external_body]
fn duration_from_micros(n: u64) -> (r: core::time::Duration)
    ensures
        r == micros_duration(n),
{
    core::time::Duration::from_micros(n)
}

impl EccCommand {
    /// The device's execution time for the command, with margin: how long to
    /// wait after sending it before reading the response.
    pub open spec fn spec_duration_micros(self) -> u64 {
        match self {
            EccCommand::Info => 500,
            EccCommand::GenKey { .. } => 59_000,
            EccCommand::Read { .. } => 800,
            EccCommand::Write { .. } => 8000,
            EccCommand::Lock { .. } => 19_500,
            EccCommand::Nonce { .. } => 17_000,
            EccCommand::Sign { .. } => 64_000,
        }
    }

    pub fn duration_micros(&self) -> (r: u64)
        ensures
            r == self.spec_duration_micros(),
    {
        match self {
            EccCommand::Info => 500,
            EccCommand::GenKey { .. } => 59_000,
            EccCommand::Read { .. } => 800,
            EccCommand::Write { .. } => 8000,
            // the ATECC608B takes about 30% longer than the 15 ms of its predecessor
            EccCommand::Lock { .. } => 19_500,
            EccCommand::Nonce { .. } => 17_000,
            EccCommand::Sign { .. } => 64_000,
        }
    }

    pub fn duration(&self) -> (r: core::time::Duration)
        ensures
            r == micros_duration(self.spec_duration_micros()),
    {
        duration_from_micros(self.duration_micros())
    }

    pub open spec fn opcode(self) -> u8 {
        match self {
            EccCommand::Info => ATCA_INFO,
            EccCommand::GenKey { .. } => ATCA_GENKEY,
            EccCommand::Read { .. } => ATCA_READ,
            EccCommand::Write { .. } => ATCA_WRITE,
            EccCommand::Lock { .. } => ATCA_LOCK,
            EccCommand::Nonce { .. } => ATCA_NONCE,
            EccCommand::Sign { .. } => ATCA_SIGN,
        }
    }

    /// The data bytes that follow the parameters.
    pub open spec fn payload(self) -> Seq<u8> {
        match self {
            EccCommand::Write { data, .. } => bytes_view(data),
            EccCommand::Nonce { data, .. } => bytes_view(data),
            _ => Seq::empty(),
        }
    }

    /// Read and Write: bit 7 selects a 32-byte transfer, bits 1..0 the zone.
    /// Lock: bit 7 is always set, bits 1..0 give the zone.
    /// Nonce: bits 7..6 the target, bit 5 a 64-byte input, bits 1..0 the
    /// pass-through mode 3.
    /// Sign: bit 7 (external message) is always set, bit 5 the source.
    pub open spec fn param1(self) -> u8 {
        match self {
            EccCommand::Info => 0,
            EccCommand::GenKey { key_type, .. } => key_type.spec_code(),
            EccCommand::Read { is_32, address } => ((if is_32 {
                128int
            } else {
                0
            }) + address.spec_zone()) as u8,
            EccCommand::Write { address, data } => ((if bytes_view(data).len() == 32 {
                128int
            } else {
                0
            }) + address.spec_zone()) as u8,
            EccCommand::Lock { zone } => (128 + lock_zone_code(zone)) as u8,
            EccCommand::Nonce { target, data } => (target.spec_code() * 64 + (if bytes_view(
                data,
            ).len() == 64 {
                32int
            } else {
                0
            }) + 3) as u8,
            EccCommand::Sign { source, .. } => (128 + (source.spec_code() % 2) * 32) as u8,
        }
    }

    pub open spec fn param2(self) -> u16 {
        match self {
            EccCommand::GenKey { slot, .. } => slot as u16,
            EccCommand::Read { address, .. } => address.spec_word(),
            EccCommand::Write { address, .. } => address.spec_word(),
            EccCommand::Sign { key_slot, .. } => key_slot as u16,
            _ => 0,
        }
    }

    /// The command fits in the device's command buffer.
    pub open spec fn wf(self) -> bool {
        self.payload().len() <= MAX_COMMAND_DATA
    }

    /// Length byte, opcode, parameters (the second one low byte first) and
    /// data: the bytes the checksum covers.
    pub open spec fn spec_packet(self) -> Seq<u8> {
        seq![(self.payload().len() + 7) as u8, self.opcode(), self.param1()] + le_bytes(
            self.param2(),
        ) + self.payload()
    }

    /// The whole frame on the wire: word address, packet, checksum.
    pub open spec fn spec_frame(self) -> Seq<u8> {
        seq![WORD_ADDRESS_COMMAND] + self.spec_packet() + le_bytes(crc16(self.spec_packet()))
    }

    /// Every frame holds its length from the length byte to the end in its
    /// second byte, and ends with the checksum of the bytes between, low byte
    /// first.
    pub proof fn frame_is_well_formed(self)
        requires
            self.wf(),
        ensures
            self.spec_frame()[1] == self.spec_frame().len() - 1,
            self.spec_frame().subrange(
                self.spec_frame().len() - 2,
                self.spec_frame().len() as int,
            ) == le_bytes(
                crc16(self.spec_frame().subrange(1, self.spec_frame().len() - 2)),
            ),
    {
        let f = self.spec_frame();
        let p = self.spec_packet();
        assert(f.subrange(1, f.len() - 2) =~= p);
        assert(f.subrange(f.len() - 2, f.len() as int) =~= le_bytes(crc16(p)));
    }

    pub fn info() -> (r: Self)
        ensures
            r == EccCommand::Info,
    {
        EccCommand::Info
    }

    pub fn genkey(key_type: KeyType, slot: u8) -> (r: Self)
        ensures
            r == (EccCommand::GenKey { key_type, slot }),
    {
        EccCommand::GenKey { key_type, slot }
    }

    pub fn read(is_32: bool, address: Address) -> (r: Self)
        ensures
            r == (EccCommand::Read { is_32, address }),
    {
        EccCommand::Read { is_32, address }
    }

    pub fn write(address: Address, data: &[u8]) -> (r: Self)
        ensures
            r matches EccCommand::Write { address: a, data: d } && a == address && bytes_view(d)
                == data@,
    {
        EccCommand::Write { address, data: bytes_from_vec(vstd::slice::slice_to_vec(data)) }
    }

    pub fn lock(zone: Zone) -> (r: Self)
        ensures
            r == (EccCommand::Lock { zone }),
    {
        EccCommand::Lock { zone }
    }

    pub fn nonce(target: DataBuffer, data: Bytes) -> (r: Self)
        ensures
            r == (EccCommand::Nonce { target, data }),
    {
        EccCommand::Nonce { target, data }
    }

    pub fn sign(source: DataBuffer, key_slot: u8) -> (r: Self)
        ensures
            r == (EccCommand::Sign { source, key_slot }),
    {
        EccCommand::Sign { source, key_slot }
    }

    fn param1_byte(&self) -> (r: u8)
        ensures
            r == self.param1(),
    {
        match self {
            EccCommand::Info => 0,
            EccCommand::GenKey { key_type, .. } => key_type.code(),
            EccCommand::Read { is_32, address } => {
                let top: u8 = if *is_32 {
                    128
                } else {
                    0
                };
                top + address.zone()
            },
            EccCommand::Write { address, data } => {
                let top: u8 = if bytes_as_slice(data).len() == 32 {
                    128
                } else {
                    0
                };
                top + address.zone()
            },
            EccCommand::Lock { zone } => match zone {
                Zone::Config => 128,
                Zone::Data => 129,
            },
            EccCommand::Nonce { target, data } => {
                let wide: u8 = if bytes_as_slice(data).len() == 64 {
                    32
                } else {
                    0
                };
                target.code() * 64 + wide + 3
            },
            EccCommand::Sign { source, .. } => 128 + (source.code() % 2) * 32,
        }
    }

    fn param2_word(&self) -> (r: u16)
        ensures
            r == self.param2(),
    {
        match self {
            EccCommand::GenKey { slot, .. } => *slot as u16,
            EccCommand::Read { address, .. } => address.to_u16(),
            EccCommand::Write { address, .. } => address.to_u16(),
            EccCommand::Sign { key_slot, .. } => *key_slot as u16,
            _ => 0,
        }
    }

    fn opcode_byte(&self) -> (r: u8)
        ensures
            r == self.opcode(),
    {
        match self {
            EccCommand::Info => ATCA_INFO,
            EccCommand::GenKey { .. } => ATCA_GENKEY,
            EccCommand::Read { .. } => ATCA_READ,
            EccCommand::Write { .. } => ATCA_WRITE,
            EccCommand::Lock { .. } => ATCA_LOCK,
            EccCommand::Nonce { .. } => ATCA_NONCE,
            EccCommand::Sign { .. } => ATCA_SIGN,
        }
    }

    fn payload_slice(&self) -> (r: &[u8])
        ensures
            r@ == self.payload(),
    {
        match self {
            EccCommand::Write { data, .. } => bytes_as_slice(data),
            EccCommand::Nonce { data, .. } => bytes_as_slice(data),
            _ => &[],
        }
    }

    /// Whether the command's data fits in the device's command buffer.
    pub fn fits_buffer(&self) -> (r: bool)
        ensures
            r == self.wf(),
    {
        self.payload_slice().len() <= MAX_COMMAND_DATA
    }

    /// The complete frame of this command.
    pub fn to_frame(&self) -> (r: Vec<u8>)
        requires
            self.wf(),
        ensures
            r@ == self.spec_frame(),
    {
        let data = self.payload_slice();
        let p2 = self.param2_word();
        let mut packet: Vec<u8> = Vec::new();
        packet.push((data.len() + 7) as u8);
        packet.push(self.opcode_byte());
        packet.push(self.param1_byte());
        packet.push((p2 % 256) as u8);
        packet.push((p2 / 256) as u8);
        let mut i: usize = 0;
        while i < data.len()
            invariant
                i <= data@.len(),
                data@ == self.payload(),
                self.wf(),
                packet@ == seq![(self.payload().len() + 7) as u8, self.opcode(), self.param1()]
                    + le_bytes(self.param2()) + data@.subrange(0, i as int),
            decreases data@.len() - i,
        {
            packet.push(data[i]);
            proof {
                assert(data@.subrange(0, i + 1) =~= data@.subrange(0, i as int).push(data@[i as int]));
            }
            i = i + 1;
        }
        proof {
            assert(data@.subrange(0, data@.len() as int) =~= data@);
            assert(packet@ =~= self.spec_packet());
        }
        let sum = crc(packet.as_slice());
        let mut frame: Vec<u8> = Vec::new();
        frame.push(WORD_ADDRESS_COMMAND);
        frame.append(&mut packet);
        frame.push((sum % 256) as u8);
        frame.push((sum / 256) as u8);
        proof {
            assert(frame@ =~= self.spec_frame());
        }
        frame
    }

    /// Appends this command's frame to `bytes`.
    pub fn bytes_into(&self, bytes: &mut BytesMut)
        requires
            self.wf(),
        ensures
            bytes_mut_view(*final(bytes)) == bytes_mut_view(*old(bytes)) + self.spec_frame(),
    {
        let frame = self.to_frame();
        bytes_mut_extend(bytes, frame.as_slice());
    }
}

// ---------------------------------------------------------------------------
// Responses

/// An error status reported by the device in a short response.
#[derive(Debug, Clone, Copy, PartialEq, Eq, Structural)]
pub enum EccError {
    /// The command's length, opcode or parameters are illegal.
    ParseError,
    /// A computation error made the result invalid; a retry may succeed.
    Fault,
    /// The chip is in self-test failure mode.
    SelfTestError,
    /// The command cannot run in the device's current state.
    ExecError,
    /// The command was not received properly and should be sent again.
    CommsError,
    /// The watchdog would expire before the command could complete.
    WatchDogError,
    /// Any other status byte.
    Unknown(u8),
}

impl EccError {
    /// Whether repeating the command may succeed.
    pub open spec fn spec_is_recoverable(self) -> bool {
        !(self is ParseError || self is ExecError)
    }

    pub fn is_recoverable(&self) -> (r: bool)
        ensures
            r == self.spec_is_recoverable(),
    {
        match self {
            EccError::ParseError | EccError::ExecError => false,
            _ => true,
        }
    }
}

/// The error that a non-zero status byte reports.
pub open spec fn status_error(s: u8) -> EccError {
    if s == CMD_STATUS_BYTE_PARSE {
        EccError::ParseError
    } else if s == CMD_STATUS_BYTE_ECC {
        EccError::Fault
    } else if s == CMD_STATUS_BYTE_SELF_TEST {
        EccError::SelfTestError
    } else if s == CMD_STATUS_BYTE_EXEC {
        EccError::ExecError
    } else if s == CMD_STATUS_BYTE_WATCHDOG {
        EccError::WatchDogError
    } else if s == CMD_STATUS_BYTE_COMM {
        EccError::CommsError
    } else {
        EccError::Unknown(s)
    }
}

/// What the device answered.
#[derive(Debug, PartialEq)]
pub enum EccResponse {
    Error(EccError),
    Data(Bytes),
}

/// The checksum that a response frame carries in its last two bytes.
pub open spec fn carried_crc(buf: Seq<u8>) -> u16 {
    (buf[buf.len() - 2] + 256 * buf[buf.len() - 1]) as u16
}

/// The bytes of a response frame that its checksum covers.
pub open spec fn checked_part(buf: Seq<u8>) -> Seq<u8> {
    buf.subrange(0, buf.len() - 2)
}

/// The response frame that carries `data`: length byte, data, checksum.
pub open spec fn response_frame(data: Seq<u8>) -> Seq<u8> {
    let head = seq![(data.len() + 3) as u8] + data;
    head + le_bytes(crc16(head))
}

/// A frame built from `data` carries a matching checksum, and its data part
/// is `data` again.
pub proof fn response_frame_round_trip(data: Seq<u8>)
    requires
        data.len() + 3 <= 255,
    ensures
        response_frame(data).len() == data.len() + 3,
        response_frame(data)[0] == data.len() + 3,
        crc16(checked_part(response_frame(data))) == carried_crc(response_frame(data)),
        response_frame(data).subrange(1, response_frame(data).len() - 2) == data,
{
    let head = seq![(data.len() + 3) as u8] + data;
    let f = response_frame(data);
    assert(checked_part(f) =~= head);
    assert(f.subrange(1, f.len() - 2) =~= data);
    let c = crc16(head);
    assert(f[f.len() - 2] == (c % 256) as u8);
    assert(f[f.len() - 1] == (c / 256) as u8);
}

/// The frame's checksum matches its contents.
pub open spec fn crc_ok(buf: Seq<u8>) -> bool {
    crc16(checked_part(buf)) == carried_crc(buf)
}

/// The frame carries a non-zero status byte.
pub open spec fn is_error_status(buf: Seq<u8>) -> bool {
    buf[0] == ATCA_RSP_SIZE_MIN && buf[1] != CMD_STATUS_BYTE_SUCCESS
}

/// The data that a frame without an error status carries.
pub open spec fn response_data(buf: Seq<u8>) -> Seq<u8> {
    if buf[0] == ATCA_RSP_SIZE_MIN {
        Seq::empty()
    } else {
        buf.subrange(1, buf.len() - 2)
    }
}

impl EccResponse {
    /// Parses a response frame of at least four bytes. The checksum over all
    /// but the last two bytes must match the last two (low byte first). A
    /// frame whose length byte is 4 carries a status byte: 0 reports success
    /// with no data, any other value an error. Any other frame carries the
    /// data between its length byte and its checksum.
    pub fn from_bytes(buf: &[u8]) -> (r: Result<EccResponse, Error>)
        requires
            buf@.len() >= ATCA_RSP_SIZE_MIN,
        ensures
            !crc_ok(buf@) ==> r == Err::<EccResponse, Error>(
                Error::Crc { expected: crc16(checked_part(buf@)), actual: carried_crc(buf@) },
            ),
            crc_ok(buf@) ==> r is Ok,
            r matches Ok(EccResponse::Error(e)) ==> is_error_status(buf@) && e == status_error(
                buf@[1],
            ),
            r matches Ok(EccResponse::Data(d)) ==> !is_error_status(buf@) && bytes_view(d)
                == response_data(buf@),
    {
        let n = buf.len();
        let body = vstd::slice::slice_subrange(buf, 0, n - 2);
        let expected = crc(body);
        let actual: u16 = buf[n - 2] as u16 + 256 * (buf[n - 1] as u16);
        proof {
            assert(body@ =~= checked_part(buf@));
        }
        if expected != actual {
            return Err(Error::crc(expected, actual));
        }
        if buf[0] == ATCA_RSP_SIZE_MIN {
            let status = buf[1];
            let response = if status == CMD_STATUS_BYTE_SUCCESS {
                EccResponse::Data(bytes_from_vec(Vec::new()))
            } else if status == CMD_STATUS_BYTE_PARSE {
                EccResponse::Error(EccError::ParseError)
            } else if status == CMD_STATUS_BYTE_ECC {
                EccResponse::Error(EccError::Fault)
            } else if status == CMD_STATUS_BYTE_SELF_TEST {
                EccResponse::Error(EccError::SelfTestError)
            } else if status == CMD_STATUS_BYTE_EXEC {
                EccResponse::Error(EccError::ExecError)
            } else if status == CMD_STATUS_BYTE_WATCHDOG {
                EccResponse::Error(EccError::WatchDogError)
            } else if status == CMD_STATUS_BYTE_COMM {
                EccResponse::Error(EccError::CommsError)
            } else {
                EccResponse::Error(EccError::Unknown(status))
            };
            Ok(response)
        } else {
            let data = vstd::slice::slice_to_vec(vstd::slice::slice_subrange(buf, 1, n - 2));
            Ok(EccResponse::Data(bytes_from_vec(data)))
        }
    }
}

} // verus!
