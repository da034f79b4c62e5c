use gateway_mfr::{
    check_key_config, check_serial, check_slot_config, check_zone_locked, checks, expected, fail,
    get_tests, pass, test_result_to_json, test_result_to_pass_fail, test_results_to_pass_fail,
    CheckOutcome, KeyConfig, KeyConfigType, SlotConfig, Test, TestOutcome, Zone,
};

fn entry(outcome: &TestOutcome, name: &str) -> CheckOutcome {
    match outcome {
        TestOutcome::Checks(v) => v.iter().find(|(n, _)| n == name).unwrap().1.clone(),
        other => panic!("unexpected {:?}", other),
    }
}

#[test]
fn default_configs_pass() {
    let s = check_slot_config(&SlotConfig::default());
    assert!(s.passed());
    let k = check_key_config(&KeyConfig::default());
    assert!(k.passed());
    assert!(matches!(entry(&s, "secret"), CheckOutcome::Pass(m) if m == "true"));
    assert!(matches!(entry(&k, "auth_key"), CheckOutcome::Pass(m) if m == "0"));
    assert!(matches!(entry(&k, "key_type"), CheckOutcome::Pass(m) if m == "ecc"));
    match &k {
        TestOutcome::Checks(v) => {
            let names: Vec<&str> = v.iter().map(|(n, _)| n.as_str()).collect();
            assert_eq!(
                names,
                vec![
                    "auth_key", "intrusion_disable", "x509_index", "private", "pub_info",
                    "req_random", "req_auth", "lockable", "key_type"
                ]
            );
        }
        other => panic!("unexpected {:?}", other),
    }
}

#[test]
fn slot_config_failures() {
    let mut c = SlotConfig::default();
    c.set_encrypt_read(true);
    let s = check_slot_config(&c);
    assert!(!s.passed());
    match entry(&s, "encrypt_read") {
        CheckOutcome::Expect { found, expected } => {
            assert_eq!(found, "true");
            assert_eq!(expected, "false");
        }
        other => panic!("unexpected {:?}", other),
    }
    let mut c = SlotConfig::default();
    let mut rk = c.read_key();
    rk.set_internal_signatures(false);
    c.set_read_key(rk);
    let s = check_slot_config(&c);
    assert!(s.passed());
    assert!(matches!(entry(&s, "internal_signatures"), CheckOutcome::Pass(m) if m == "false"));
}

#[test]
fn key_config_failures() {
    let mut c = KeyConfig::default();
    c.set_auth_key(12);
    c.set_key_type(KeyConfigType::NotEcc);
    let k = check_key_config(&c);
    assert!(!k.passed());
    match entry(&k, "auth_key") {
        CheckOutcome::Expect { found, expected } => {
            assert_eq!(found, "12");
            assert_eq!(expected, "0");
        }
        other => panic!("unexpected {:?}", other),
    }
    match entry(&k, "key_type") {
        CheckOutcome::Expect { found, expected } => {
            assert_eq!(found, "not_ecc");
            assert_eq!(expected, "ecc");
        }
        other => panic!("unexpected {:?}", other),
    }
    let mut c = KeyConfig::default();
    c.set_req_random(true);
    assert!(check_key_config(&c).passed());
}

#[test]
fn zone_and_serial_checks() {
    assert!(check_zone_locked(true).passed());
    match check_zone_locked(false) {
        TestOutcome::Expect { found, expected } => {
            assert_eq!(found, "unlocked");
            assert_eq!(expected, "locked");
        }
        other => panic!("unexpected {:?}", other),
    }
    let good = [0x01, 0x23, 1, 2, 3, 4, 5, 6, 0xEE];
    assert!(check_serial(&good).passed());
    let bad = [0x01, 0x24, 1, 2, 3, 4, 5, 6, 0xEE];
    assert!(matches!(check_serial(&bad), TestOutcome::Fail(m) if m == "invalid serial"));
}

#[test]
fn outcome_builders() {
    assert!(matches!(pass("ok"), TestOutcome::Pass(m) if m == "ok"));
    assert!(!fail("no").passed());
    assert!(!expected("a", "b").passed());
    assert!(checks(vec![]).passed());
    assert!(!checks(vec![(
        "x".to_string(),
        CheckOutcome::Expect { found: "1".to_string(), expected: "2".to_string() }
    )])
    .passed());
}

#[test]
fn battery_and_names() {
    let tests = get_tests(3);
    let names: Vec<String> = tests.iter().map(|t| t.name()).collect();
    assert_eq!(
        names,
        vec![
            "serial",
            "zone_locked(data)",
            "zone_locked(config)",
            "slot_config(3)",
            "key_config(3)",
            "miner_key(3)",
            "sign(3)",
            "ecdh(3)"
        ]
    );
    assert_eq!(tests[3], Test::slot_config(3, SlotConfig::default()));
    assert_eq!(Test::zone_locked(Zone::Config).name(), "zone_locked(config)");
    assert_eq!(Test::Sign(12).name(), "sign(12)");
    assert_eq!(Test::Ecdh(255).name(), "ecdh(255)");
}

#[test]
fn result_verdicts() {
    let ok: Result<TestOutcome, String> = Ok(pass("ok"));
    let bad: Result<TestOutcome, String> = Ok(fail("no"));
    let err: Result<TestOutcome, String> = Err("Timeout".to_string());
    assert_eq!(test_result_to_pass_fail(&ok), "pass");
    assert_eq!(test_result_to_pass_fail(&bad), "fail");
    assert_eq!(test_result_to_pass_fail(&err), "fail");
    assert_eq!(test_results_to_pass_fail(&vec![ok.clone(), ok.clone()]), "pass");
    assert_eq!(test_results_to_pass_fail(&vec![ok.clone(), err.clone()]), "fail");
    assert_eq!(test_results_to_pass_fail(&vec![]), "pass");
    let (name, outcome) = test_result_to_json(err);
    assert_eq!(name, "error");
    assert!(matches!(outcome, TestOutcome::Fail(m) if m == "Timeout"));
    let (name, outcome) = test_result_to_json(ok);
    assert_eq!(name, "checks");
    assert!(matches!(outcome, TestOutcome::Pass(m) if m == "ok"));
}
