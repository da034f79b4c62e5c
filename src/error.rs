//! The library's error type.
use vstd::prelude::*;
use crate::command::EccError;

verus! {

/// `std::io::Error`, carried through opaquely.
#[verifier::external_type_specification]
#[verifier::external_body]
pub struct ExIoError(std::io::Error);

/// Why an operation on the secure element failed.
#[derive(Debug)]
pub enum Error {
    /// The transport failed.
    IoError(std::io::Error),
    /// No usable response came back within the retry budget.
    Timeout,
    /// A response frame's checksum did not match its contents.
    Crc { expected: u16, actual: u16 },
    /// The device answered with an error status.
    Ecc(EccError),
    /// An address tuple lies outside the device's zones.
    InvalidAddress,
}

impl Error {
    pub fn timeout() -> (r: Self)
        ensures
            r == Error::Timeout,
    {
        Error::Timeout
    }

    pub fn crc(expected: u16, actual: u16) -> (r: Self)
        ensures
            r == (Error::Crc { expected, actual }),
    {
        Error::Crc { expected, actual }
    }

    pub fn ecc(err: EccError) -> (r: Self)
        ensures
            r == Error::Ecc(err),
    {
        Error::Ecc(err)
    }

    pub fn invalid_address() -> (r: Self)
        ensures
            r == Error::InvalidAddress,
    {
        Error::InvalidAddress
    }
}

} // verus!
