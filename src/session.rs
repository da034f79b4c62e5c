//! The decisions of one command exchange: after each attempt (wake, send,
//! wait, receive), whether to try again, to finish with data, or to fail.
use vstd::prelude::*;
use bytes::Bytes;
use crate::buffer::bytes_view;
use crate::command::{
    crc_ok, carried_crc, checked_part, crc16, is_error_status, response_data, status_error,
    EccResponse, ATCA_RSP_SIZE_MIN,
};
use crate::error::Error;

verus! {

/// Attempts of one command before giving up.
pub const CMD_ATTEMPTS: u8 = 10;

/// Attempts to read a response's length byte.
pub const RECV_ATTEMPTS: u8 = 2;

/// Pause between two attempts to read the length byte.
pub const RECV_RETRY_WAIT_MICROS: u64 = 50_000;

/// Pause after the wake pulse before the device accepts a command.
pub const WAKE_DELAY_MICROS: u64 = 1500;

/// The byte sent to wake the device.
pub const WAKE_BYTE: u8 = 0x00;

/// The byte sent to put the device to sleep.
pub const SLEEP_BYTE: u8 = 0x01;

/// The length byte a device that is not ready answers with.
pub const NOT_READY: u8 = 0xFF;

/// How many bytes the response frame has in all, given its first byte.
pub fn response_length(first: u8) -> (r: Result<usize, Error>)
    ensures
        first == NOT_READY ==> r == Err::<usize, Error>(Error::Timeout),
        first != NOT_READY ==> r == Ok::<usize, Error>(first as usize),
{
    if first == NOT_READY {
        Err(Error::timeout())
    } else {
        Ok(first as usize)
    }
}

/// What one attempt brought back.
pub enum AttemptOutcome {
    /// A transfer on the bus failed.
    TransportFailed,
    /// The whole response frame, length byte first.
    Received(Vec<u8>),
}

/// What the caller does after an attempt.
#[derive(Debug)]
pub enum Step {
    /// Make another attempt.
    Retry,
    /// Put the device to sleep, then return the data.
    Done(Bytes),
    /// Return the error; the device is left awake.
    Fail(Error),
}

/// The state of one command exchange: how many attempts it may make and how
/// many it has made.
pub struct Session {
    attempts: u8,
    made: u8,
}

impl Session {
    pub closed spec fn spec_attempts(&self) -> u8 {
        self.attempts
    }

    pub closed spec fn spec_made(&self) -> u8 {
        self.made
    }

    /// Whether an outcome counts as a failed transfer: the bus failed, or the
    /// frame is shorter than any response.
    pub open spec fn transfer_failed(outcome: AttemptOutcome) -> bool {
        match outcome {
            AttemptOutcome::TransportFailed => true,
            AttemptOutcome::Received(buf) => buf@.len() < ATCA_RSP_SIZE_MIN,
        }
    }

    /// The step owed for a received frame of at least the minimum length,
    /// given whether attempts remain.
    pub open spec fn decided(buf: Seq<u8>, attempts_remain: bool, r: Step) -> bool {
        &&& !crc_ok(buf) ==> r == Step::Fail(
            Error::Crc { expected: crc16(checked_part(buf)), actual: carried_crc(buf) },
        )
        &&& crc_ok(buf) && is_error_status(buf) ==> if status_error(buf[1]).spec_is_recoverable()
            && attempts_remain {
            r is Retry
        } else {
            r == Step::Fail(Error::Ecc(status_error(buf[1])))
        }
        &&& crc_ok(buf) && !is_error_status(buf) ==> (r matches Step::Done(d) && bytes_view(d)
            == response_data(buf))
    }

    /// An exchange that may make `attempts` attempts.
    pub fn new(attempts: u8) -> (r: Self)
        ensures
            r.spec_attempts() == attempts,
            r.spec_made() == 0,
    {
        Session { attempts, made: 0 }
    }

    /// An exchange with the default budget of attempts.
    pub fn with_default_attempts() -> (r: Self)
        ensures
            r.spec_attempts() == CMD_ATTEMPTS,
            r.spec_made() == 0,
    {
        Self::new(CMD_ATTEMPTS)
    }

    /// Whether another attempt may be made.
    pub fn can_attempt(&self) -> (r: bool)
        ensures
            r == (self.spec_made() < self.spec_attempts()),
    {
        self.made < self.attempts
    }

    /// Records the outcome of an attempt and says what to do next. A failed
    /// transfer is tried again, or ends in a timeout after the last attempt.
    /// A checksum mismatch fails at once. An error status is tried again if
    /// it is recoverable and attempts remain, and fails otherwise. Any other
    /// frame finishes with its data.
    pub fn record(&mut self, outcome: AttemptOutcome) -> (r: Step)
        requires
            old(self).spec_made() < old(self).spec_attempts(),
        ensures
            final(self).spec_attempts() == old(self).spec_attempts(),
            final(self).spec_made() == old(self).spec_made() + 1,
            Self::transfer_failed(outcome) ==> if final(self).spec_made()
                == final(self).spec_attempts() {
                r == Step::Fail(Error::Timeout)
            } else {
                r is Retry
            },
            outcome matches AttemptOutcome::Received(buf) ==> buf@.len() >= ATCA_RSP_SIZE_MIN
                ==> Self::decided(buf@, final(self).spec_made() < final(self).spec_attempts(), r),
    {
        self.made = self.made + 1;
        let last = self.made == self.attempts;
        match outcome {
            AttemptOutcome::TransportFailed => {
                if last {
                    Step::Fail(Error::timeout())
                } else {
                    Step::Retry
                }
            },
            AttemptOutcome::Received(buf) => {
                if buf.len() < ATCA_RSP_SIZE_MIN as usize {
                    if last {
                        return Step::Fail(Error::timeout());
                    } else {
                        return Step::Retry;
                    }
                }
                match EccResponse::from_bytes(buf.as_slice()) {
                    Err(e) => Step::Fail(e),
                    Ok(EccResponse::Data(d)) => Step::Done(d),
                    Ok(EccResponse::Error(e)) => {
                        if e.is_recoverable() && !last {
                            Step::Retry
                        } else {
                            Step::Fail(Error::ecc(e))
                        }
                    },
                }
            },
        }
    }
}

} // verus!
