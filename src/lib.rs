//! Host-side driver logic for the ATECC608 family of secure elements:
//! address encoding, configuration words, command framing, response parsing,
//! the retry decisions of a command exchange and the provisioning sequence.

pub mod address;
pub mod bits;
pub mod buffer;
pub mod command;
pub mod error;
pub mod key_config;
pub mod keygen;
pub mod ops;
pub mod provision;
pub mod selftest;
pub mod session;
pub mod slot_config;

pub use address::{Address, DataAddress, DataBuffer, OffsetAddress, Zone};
pub use command::{crc, EccCommand, EccError, EccResponse, KeyType};
pub use error::Error;
pub use key_config::{KeyConfig, KeyConfigType};
pub use keygen::{keygen_decide, keygen_step, KeyGenStep};
pub use ops::{
    key_config_in_unit, locked_in_unit, serial_from_config, serial_valid, slot_config_in_unit,
    unit_with_config,
};
pub use provision::{Provision, ProvisionStep};
pub use selftest::{
    check_key_config, check_serial, check_slot_config, check_zone_locked, checks, expected, fail,
    get_tests, pass, test_result_to_json, test_result_to_pass_fail, test_results_to_pass_fail,
    CheckOutcome, Test, TestOutcome,
};
pub use session::{AttemptOutcome, Session, Step};
pub use slot_config::{
    DeriveKeyConfig, GenKeyConfig, PrivWriteConfig, ReadKey, SlotConfig, WriteCommand, WriteConfig,
    _WriteConfig,
};
