//! The self-test battery's verdicts on what was read from the device.
use vstd::prelude::*;
use crate::address::Zone;
use crate::bits::{field, lemma_field_bound};
use crate::key_config::{KeyConfig, KeyConfigType};
use crate::ops::{serial_valid, spec_serial_valid};
use crate::slot_config::{bit8, SlotConfig};

verus! {

/// The outcome of one named check inside a self-test.
#[derive(Debug, Clone)]
pub enum CheckOutcome {
    /// The field holds an accepted value, shown.
    Pass(String),
    /// The field holds another value than the one required.
    Expect { found: String, expected: String },
}

/// The outcome of one self-test.
#[derive(Debug, Clone)]
pub enum TestOutcome {
    Pass(String),
    Fail(String),
    Expect { found: String, expected: String },
    Checks(Vec<(String, CheckOutcome)>),
}

impl TestOutcome {
    /// A pass, or checks that all passed.
    pub open spec fn spec_passed(self) -> bool {
        match self {
            TestOutcome::Pass(_) => true,
            TestOutcome::Fail(_) => false,
            TestOutcome::Expect { .. } => false,
            TestOutcome::Checks(v) => forall|i: int|
                0 <= i < v@.len() ==> #[trigger] v@[i].1 is Pass,
        }
    }
}

pub fn pass(msg: &str) -> (r: TestOutcome)
    ensures
        r matches TestOutcome::Pass(m) && m@ == msg@,
{
    TestOutcome::Pass(msg.to_string())
}

pub fn fail(msg: &str) -> (r: TestOutcome)
    ensures
        r matches TestOutcome::Fail(m) && m@ == msg@,
{
    TestOutcome::Fail(msg.to_string())
}

pub fn expected(want: &str, found: &str) -> (r: TestOutcome)
    ensures
        r matches TestOutcome::Expect { found: f, expected: e } && f@ == found@ && e@ == want@,
{
    TestOutcome::Expect { found: found.to_string(), expected: want.to_string() }
}

pub fn checks(list: Vec<(String, CheckOutcome)>) -> (r: TestOutcome)
    ensures
        r == TestOutcome::Checks(list),
{
    TestOutcome::Checks(list)
}

impl TestOutcome {
    pub fn passed(&self) -> (r: bool)
        ensures
            r == self.spec_passed(),
    {
        match self {
            TestOutcome::Pass(_) => true,
            TestOutcome::Fail(_) => false,
            TestOutcome::Expect { .. } => false,
            TestOutcome::Checks(v) => {
                let mut i: usize = 0;
                while i < v.len()
                    invariant
                        *self == TestOutcome::Checks(*v),
                        i <= v@.len(),
                        forall|j: int| 0 <= j < i ==> #[trigger] v@[j].1 is Pass,
                    decreases v@.len() - i,
                {
                    if let CheckOutcome::Expect { .. } = &v[i].1 {
                        return false;
                    }
                    i = i + 1;
                }
                true
            },
        }
    }
}

/// The decimal digits of `v`, most significant first.
pub open spec fn decimal(v: nat) -> Seq<char>
    decreases v,
{
    if v < 10 {
        seq![((48 + v) as u8) as char]
    } else {
        decimal(v / 10) + seq![((48 + v % 10) as u8) as char]
    }
}

/// Relies on `ToString for u8`, which writes the value in decimal.
#[verifier::external_body]
fn u8_text(v: u8) -> (r: String)
    ensures
        r@ == decimal(v as nat),
{
    v.to_string()
}

/// Relies on `format!`: the name, then the argument in parentheses.
#[verifier::external_body]
fn call_text(name: &str, arg: &str) -> (r: String)
    ensures
        r@ == name@ + seq!['('] + arg@ + seq![')'],
{
    format!("{}({})", name, arg)
}

pub open spec fn bool_text(b: bool) -> Seq<char> {
    if b {
        "true"@
    } else {
        "false"@
    }
}

fn bool_string(b: bool) -> (r: String)
    ensures
        r@ == bool_text(b),
{
    if b {
        "true".to_string()
    } else {
        "false".to_string()
    }
}

/// `entry` checks the field `name`: a pass that shows the value when it is
/// the expected one, else the expected and the found value.
pub open spec fn is_check(
    entry: (String, CheckOutcome),
    name: Seq<char>,
    same: bool,
    found: Seq<char>,
    expected: Seq<char>,
) -> bool {
    &&& entry.0@ == name
    &&& if same {
        entry.1 matches CheckOutcome::Pass(m) && m@ == expected
    } else {
        entry.1 matches CheckOutcome::Expect { found: f, expected: e } && f@ == found && e@
            == expected
    }
}

/// `entry` reports the field `name` without a requirement on it.
pub open spec fn is_any_check(entry: (String, CheckOutcome), name: Seq<char>, found: Seq<char>) -> bool {
    &&& entry.0@ == name
    &&& entry.1 matches CheckOutcome::Pass(m) && m@ == found
}

pub open spec fn is_bool_check(entry: (String, CheckOutcome), name: Seq<char>, found: bool, want: bool) -> bool {
    is_check(entry, name, found == want, bool_text(found), bool_text(want))
}

pub open spec fn is_u8_check(entry: (String, CheckOutcome), name: Seq<char>, found: u8, want: u8) -> bool {
    is_check(entry, name, found == want, decimal(found as nat), decimal(want as nat))
}

fn check_bool(name: &str, found: bool, want: bool) -> (r: (String, CheckOutcome))
    ensures
        is_bool_check(r, name@, found, want),
{
    let outcome = if found == want {
        CheckOutcome::Pass(bool_string(want))
    } else {
        CheckOutcome::Expect { found: bool_string(found), expected: bool_string(want) }
    };
    (name.to_string(), outcome)
}

fn check_any_bool(name: &str, found: bool) -> (r: (String, CheckOutcome))
    ensures
        is_any_check(r, name@, bool_text(found)),
{
    (name.to_string(), CheckOutcome::Pass(bool_string(found)))
}

fn check_u8(name: &str, found: u8, want: u8) -> (r: (String, CheckOutcome))
    ensures
        is_u8_check(r, name@, found, want),
{
    let outcome = if found == want {
        CheckOutcome::Pass(u8_text(want))
    } else {
        CheckOutcome::Expect { found: u8_text(found), expected: u8_text(want) }
    };
    (name.to_string(), outcome)
}

/// Checks a slot's SlotConfig: secret, no encrypted reads, no limited use,
/// external signatures and ECDH allowed; internal signatures are reported
/// whatever they are.
pub fn check_slot_config(config: &SlotConfig) -> (r: TestOutcome)
    ensures
        r matches TestOutcome::Checks(v) && v@.len() == 6
            && is_bool_check(v@[0], "secret"@, field(config@, 15, 1) == 1, true)
            && is_bool_check(v@[1], "encrypt_read"@, field(config@, 14, 1) == 1, false)
            && is_bool_check(v@[2], "limited_use"@, field(config@, 13, 1) == 1, false)
            && is_bool_check(v@[3], "external_signatures"@, bit8(field(config@, 8, 4) as u8, 0), true)
            && is_any_check(v@[4], "internal_signatures"@, bool_text(bit8(field(config@, 8, 4) as u8, 1)))
            && is_bool_check(v@[5], "ecdh_operation"@, bit8(field(config@, 8, 4) as u8, 2), true),
        r.spec_passed() <==> field(config@, 15, 1) == 1 && field(config@, 14, 1) != 1 && field(
            config@,
            13,
            1,
        ) != 1 && bit8(field(config@, 8, 4) as u8, 0) && bit8(field(config@, 8, 4) as u8, 2),
{
    let read_key = config.read_key();
    let mut v: Vec<(String, CheckOutcome)> = Vec::new();
    v.push(check_bool("secret", config.secret(), true));
    v.push(check_bool("encrypt_read", config.encrypt_read(), false));
    v.push(check_bool("limited_use", config.limited_use(), false));
    v.push(check_bool("external_signatures", read_key.external_signatures(), true));
    v.push(check_any_bool("internal_signatures", read_key.internal_signatures()));
    v.push(check_bool("ecdh_operation", read_key.ecdh_operation(), true));
    let r = TestOutcome::Checks(v);
    proof {
        if field(config@, 15, 1) == 1 && field(config@, 14, 1) != 1 && field(config@, 13, 1) != 1
            && bit8(field(config@, 8, 4) as u8, 0) && bit8(field(config@, 8, 4) as u8, 2) {
            assert forall|i: int| 0 <= i < v@.len() implies #[trigger] v@[i].1 is Pass by {
                if i == 0 {} else if i == 1 {} else if i == 2 {} else if i == 3 {} else if i == 4 {} else {}
            }
        }
        if r.spec_passed() {
            assert(v@[0].1 is Pass);
            assert(v@[1].1 is Pass);
            assert(v@[2].1 is Pass);
            assert(v@[3].1 is Pass);
            assert(v@[5].1 is Pass);
        }
    }
    r
}

/// Checks a slot's KeyConfig: no auth key, no intrusion disable, X.509
/// index 0, private, public info, no required auth, lockable, an ECC key;
/// required random is reported whatever it is.
pub fn check_key_config(config: &KeyConfig) -> (r: TestOutcome)
    ensures
        r matches TestOutcome::Checks(v) && v@.len() == 9
            && is_u8_check(v@[0], "auth_key"@, field(config@, 0, 4) as u8, 0)
            && is_bool_check(v@[1], "intrusion_disable"@, field(config@, 4, 1) == 1, false)
            && is_u8_check(v@[2], "x509_index"@, field(config@, 6, 2) as u8, 0)
            && is_bool_check(v@[3], "private"@, field(config@, 8, 1) == 1, true)
            && is_bool_check(v@[4], "pub_info"@, field(config@, 9, 1) == 1, true)
            && is_any_check(v@[5], "req_random"@, bool_text(field(config@, 14, 1) == 1))
            && is_bool_check(v@[6], "req_auth"@, field(config@, 15, 1) == 1, false)
            && is_bool_check(v@[7], "lockable"@, field(config@, 13, 1) == 1, true)
            && is_check(v@[8], "key_type"@, field(config@, 10, 3) == 4, "not_ecc"@, "ecc"@),
        r.spec_passed() <==> field(config@, 0, 4) == 0 && field(config@, 4, 1) != 1 && field(
            config@,
            6,
            2,
        ) == 0 && field(config@, 8, 1) == 1 && field(config@, 9, 1) == 1 && field(config@, 15, 1)
            != 1 && field(config@, 13, 1) == 1 && field(config@, 10, 3) == 4,
{
    let mut v: Vec<(String, CheckOutcome)> = Vec::new();
    v.push(check_u8("auth_key", config.auth_key(), 0));
    v.push(check_bool("intrusion_disable", config.intrusion_disable(), false));
    v.push(check_u8("x509_index", config.x509_index(), 0));
    v.push(check_bool("private", config.private(), true));
    v.push(check_bool("pub_info", config.pub_info(), true));
    v.push(check_any_bool("req_random", config.req_random()));
    v.push(check_bool("req_auth", config.req_auth(), false));
    v.push(check_bool("lockable", config.lockable(), true));
    let key_type = match config.key_type() {
        KeyConfigType::Ecc => CheckOutcome::Pass("ecc".to_string()),
        KeyConfigType::NotEcc => CheckOutcome::Expect {
            found: "not_ecc".to_string(),
            expected: "ecc".to_string(),
        },
    };
    v.push(("key_type".to_string(), key_type));
    let r = TestOutcome::Checks(v);
    proof {
        lemma_field_bound(config@, 10, 3);
        lemma_field_bound(config@, 0, 4);
        lemma_field_bound(config@, 6, 2);
        if field(config@, 0, 4) == 0 && field(config@, 4, 1) != 1 && field(config@, 6, 2) == 0
            && field(config@, 8, 1) == 1 && field(config@, 9, 1) == 1 && field(config@, 15, 1) != 1
            && field(config@, 13, 1) == 1 && field(config@, 10, 3) == 4 {
            assert forall|i: int| 0 <= i < v@.len() implies #[trigger] v@[i].1 is Pass by {
                if i == 0 {} else if i == 1 {} else if i == 2 {} else if i == 3 {} else if i == 4 {
                } else if i == 5 {} else if i == 6 {} else if i == 7 {} else {}
            }
        }
        if r.spec_passed() {
            assert(v@[0].1 is Pass);
            assert(v@[1].1 is Pass);
            assert(v@[2].1 is Pass);
            assert(v@[3].1 is Pass);
            assert(v@[4].1 is Pass);
            assert(v@[6].1 is Pass);
            assert(v@[7].1 is Pass);
            assert(v@[8].1 is Pass);
        }
    }
    r
}

/// A locked zone passes; an unlocked one was expected locked.
pub fn check_zone_locked(locked: bool) -> (r: TestOutcome)
    ensures
        locked ==> (r matches TestOutcome::Pass(m) && m@ == "ok"@),
        !locked ==> (r matches TestOutcome::Expect { found: f, expected: e } && f@
            == "unlocked"@ && e@ == "locked"@),
{
    if locked {
        pass("ok")
    } else {
        expected("locked", "unlocked")
    }
}

/// A serial number that starts 0x01 0x23 and has 0xEE as ninth byte passes.
pub fn check_serial(serial: &[u8]) -> (r: TestOutcome)
    ensures
        spec_serial_valid(serial@) ==> (r matches TestOutcome::Pass(m) && m@ == "ok"@),
        !spec_serial_valid(serial@) ==> (r matches TestOutcome::Fail(m) && m@
            == "invalid serial"@),
{
    if serial_valid(serial) {
        pass("ok")
    } else {
        fail("invalid serial")
    }
}

/// One test of the battery run against a provisioned device.
#[derive(Debug, Clone, Copy, PartialEq, Eq, Structural)]
#[allow(inconsistent_fields)]
pub enum Test {
    Serial,
    ZoneLocked(Zone),
    SlotConfig { slot: u8, config: SlotConfig },
    KeyConfig { slot: u8, config: KeyConfig },
    MinerKey(u8),
    Sign(u8),
    Ecdh(u8),
}

impl Test {
    pub fn zone_locked(zone: Zone) -> (r: Self)
        ensures
            r == Test::ZoneLocked(zone),
    {
        Test::ZoneLocked(zone)
    }

    pub fn slot_config(slot: u8, config: SlotConfig) -> (r: Self)
        ensures
            r == (Test::SlotConfig { slot, config }),
    {
        Test::SlotConfig { slot, config }
    }

    pub fn key_config(slot: u8, config: KeyConfig) -> (r: Self)
        ensures
            r == (Test::KeyConfig { slot, config }),
    {
        Test::KeyConfig { slot, config }
    }

    /// The test's name in reports.
    pub open spec fn spec_name(self) -> Seq<char> {
        match self {
            Test::Serial => "serial"@,
            Test::ZoneLocked(Zone::Config) => "zone_locked(config)"@,
            Test::ZoneLocked(Zone::Data) => "zone_locked(data)"@,
            Test::SlotConfig { slot, .. } => "slot_config"@ + seq!['('] + decimal(slot as nat)
                + seq![')'],
            Test::KeyConfig { slot, .. } => "key_config"@ + seq!['('] + decimal(slot as nat)
                + seq![')'],
            Test::MinerKey(slot) => "miner_key"@ + seq!['('] + decimal(slot as nat) + seq![')'],
            Test::Sign(slot) => "sign"@ + seq!['('] + decimal(slot as nat) + seq![')'],
            Test::Ecdh(slot) => "ecdh"@ + seq!['('] + decimal(slot as nat) + seq![')'],
        }
    }

    pub fn name(&self) -> (r: String)
        ensures
            r@ == self.spec_name(),
    {
        match self {
            Test::Serial => "serial".to_string(),
            Test::ZoneLocked(Zone::Config) => "zone_locked(config)".to_string(),
            Test::ZoneLocked(Zone::Data) => "zone_locked(data)".to_string(),
            Test::SlotConfig { slot, .. } => call_text("slot_config", u8_text(*slot).as_str()),
            Test::KeyConfig { slot, .. } => call_text("key_config", u8_text(*slot).as_str()),
            Test::MinerKey(slot) => call_text("miner_key", u8_text(*slot).as_str()),
            Test::Sign(slot) => call_text("sign", u8_text(*slot).as_str()),
            Test::Ecdh(slot) => call_text("ecdh", u8_text(*slot).as_str()),
        }
    }
}

/// The battery for a device whose key lives in `slot`: the serial number,
/// both zone locks, the slot's default SlotConfig and KeyConfig, then the
/// key itself, a signature and an ECDH exchange with it.
pub fn get_tests(slot: u8) -> (r: Vec<Test>)
    ensures
        r@.len() == 8,
        r@[0] == Test::Serial,
        r@[1] == Test::ZoneLocked(Zone::Data),
        r@[2] == Test::ZoneLocked(Zone::Config),
        r@[3] matches Test::SlotConfig { slot: s, config: c } && s == slot && c@ == 0x9720,
        r@[4] matches Test::KeyConfig { slot: s, config: c } && s == slot && c@ == 0x3300,
        r@[5] == Test::MinerKey(slot),
        r@[6] == Test::Sign(slot),
        r@[7] == Test::Ecdh(slot),
{
    let mut r: Vec<Test> = Vec::new();
    r.push(Test::Serial);
    r.push(Test::zone_locked(Zone::Data));
    r.push(Test::zone_locked(Zone::Config));
    r.push(Test::slot_config(slot, SlotConfig::default()));
    r.push(Test::key_config(slot, KeyConfig::default()));
    r.push(Test::MinerKey(slot));
    r.push(Test::Sign(slot));
    r.push(Test::Ecdh(slot));
    r
}

/// "pass" for a test that ran and passed, "fail" otherwise.
pub open spec fn spec_result_passed(result: Result<TestOutcome, String>) -> bool {
    result matches Ok(o) && o.spec_passed()
}

pub fn test_result_to_pass_fail(result: &Result<TestOutcome, String>) -> (r: &'static str)
    ensures
        spec_result_passed(*result) ==> r@ == "pass"@,
        !spec_result_passed(*result) ==> r@ == "fail"@,
{
    match result {
        Ok(outcome) => if outcome.passed() {
            "pass"
        } else {
            "fail"
        },
        Err(_) => "fail",
    }
}

/// "pass" when every test ran and passed, "fail" otherwise.
pub fn test_results_to_pass_fail(results: &Vec<Result<TestOutcome, String>>) -> (r: &'static str)
    ensures
        (forall|i: int| 0 <= i < results@.len() ==> spec_result_passed(#[trigger] results@[i]))
            ==> r@ == "pass"@,
        !(forall|i: int| 0 <= i < results@.len() ==> spec_result_passed(#[trigger] results@[i]))
            ==> r@ == "fail"@,
{
    let mut i: usize = 0;
    while i < results.len()
        invariant
            i <= results@.len(),
            forall|j: int| 0 <= j < i ==> spec_result_passed(#[trigger] results@[j]),
        decreases results@.len() - i,
    {
        let passed = match &results[i] {
            Ok(outcome) => outcome.passed(),
            Err(_) => false,
        };
        if !passed {
            return "fail";
        }
        i = i + 1;
    }
    "pass"
}

/// The report entry of a test: its outcome under "checks", or the error
/// that kept it from running as a failure under "error".
pub fn test_result_to_json(result: Result<TestOutcome, String>) -> (r: (&'static str, TestOutcome))
    ensures
        result matches Ok(o) ==> r.0@ == "checks"@ && r.1 == o,
        result matches Err(e) ==> r.0@ == "error"@ && (r.1 matches TestOutcome::Fail(m) && m@
            == e@),
{
    match result {
        Ok(outcome) => ("checks", outcome),
        Err(e) => ("error", TestOutcome::Fail(e)),
    }
}

} // verus!
