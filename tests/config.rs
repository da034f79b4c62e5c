use gateway_mfr::{
    key_config_in_unit, locked_in_unit, serial_from_config, serial_valid, slot_config_in_unit,
    unit_with_config, Address, DeriveKeyConfig, Error, GenKeyConfig, KeyConfig, KeyConfigType,
    PrivWriteConfig, ReadKey, SlotConfig, WriteCommand, WriteConfig, Zone, _WriteConfig,
};
use gateway_mfr::_WriteConfig as W;

#[test]
fn offset_addresses_round_trip() {
    for block in 0u8..=255 {
        for offset in 0u8..=255 {
            let valid = block <= 3 && offset <= 7;
            for address in [Address::config(block, offset), Address::otp(block, offset)] {
                match address {
                    Ok(Address::Config(a)) | Ok(Address::Otp(a)) => {
                        assert!(valid);
                        assert_eq!(a.block(), block);
                        assert_eq!(a.offset(), offset);
                        assert_eq!(a.to_u16(), block as u16 * 2048 + offset as u16 * 256);
                    }
                    Ok(other) => panic!("unexpected {:?}", other),
                    Err(Error::InvalidAddress) => assert!(!valid),
                    Err(other) => panic!("unexpected {:?}", other),
                }
            }
        }
    }
}

#[test]
fn data_addresses_round_trip() {
    for slot in 0u8..=20 {
        for block in 0u8..=20 {
            for offset in 0u8..=9 {
                let block_ok = if slot < 8 {
                    block <= 1
                } else if slot == 8 {
                    block <= 15
                } else {
                    block <= 7
                };
                let valid = slot <= 15 && offset <= 7 && block_ok;
                match Address::data(slot, block, offset) {
                    Ok(Address::Data(a)) => {
                        assert!(valid);
                        assert_eq!(a.slot(), slot);
                        assert_eq!(a.block(), block);
                        assert_eq!(a.offset(), offset);
                    }
                    Ok(other) => panic!("unexpected {:?}", other),
                    Err(Error::InvalidAddress) => assert!(!valid),
                    Err(other) => panic!("unexpected {:?}", other),
                }
            }
        }
    }
}

#[test]
fn zones_of_addresses() {
    assert_eq!(Address::config(0, 0).unwrap().zone(), 0);
    assert_eq!(Address::otp(0, 0).unwrap().zone(), 1);
    assert_eq!(Address::data(0, 0, 0).unwrap().zone(), 2);
}

#[test]
fn slot_and_key_config_addresses() {
    let expected = [
        (0, 5), (0, 5), (0, 6), (0, 6), (0, 7), (0, 7), (1, 0), (1, 1),
        (1, 1), (1, 2), (1, 2), (1, 3), (1, 3), (1, 4), (1, 4), (1, 5),
    ];
    for slot in 0u8..16 {
        let (block, offset) = expected[slot as usize];
        assert_eq!(
            Address::slot_config(slot).unwrap(),
            Address::config(block, offset).unwrap()
        );
        assert_eq!(
            Address::key_config(slot).unwrap(),
            Address::config(3, slot / 2).unwrap()
        );
    }
    assert!(matches!(Address::slot_config(16), Err(Error::InvalidAddress)));
    assert!(matches!(Address::key_config(200), Err(Error::InvalidAddress)));
    assert_eq!(Address::lock_status(), Address::config(2, 5).unwrap());
    assert_eq!(Address::lock_status().to_u16(), 0x1500);
}

#[test]
fn slot_config_words_round_trip() {
    for v in 0u16..=u16::MAX {
        let c = SlotConfig::from_u16(v);
        assert_eq!(c.to_u16(), v);
        assert_eq!(SlotConfig::from_bytes(&c.to_bytes()).to_u16(), v);
        let mut rebuilt = SlotConfig::from_u16(0);
        rebuilt.set_secret(c.secret());
        rebuilt.set_encrypt_read(c.encrypt_read());
        rebuilt.set_limited_use(c.limited_use());
        rebuilt.set_no_mac(c.no_mac());
        rebuilt.set_read_key(c.read_key());
        rebuilt.set_write_key(c.write_key());
        rebuilt.set_write_config(WriteConfig::from(WriteCommand::Write, 0));
        let nibble = (v >> 4) & 0xf;
        assert_eq!(rebuilt.to_u16() | (nibble << 4), v);
    }
}

#[test]
fn key_config_words_round_trip() {
    for v in 0u16..=u16::MAX {
        let c = KeyConfig::from_u16(v);
        assert_eq!(c.to_u16(), v);
        assert_eq!(KeyConfig::from_bytes(&c.to_bytes()).to_u16(), v);
        let mut rebuilt = KeyConfig::from_u16(v & 0x1c20);
        rebuilt.set_auth_key(c.auth_key());
        rebuilt.set_intrusion_disable(c.intrusion_disable());
        rebuilt.set_x509_index(c.x509_index());
        rebuilt.set_private(c.private());
        rebuilt.set_pub_info(c.pub_info());
        rebuilt.set_is_lockable(c.lockable());
        rebuilt.set_req_random(c.req_random());
        rebuilt.set_req_auth(c.req_auth());
        assert_eq!(rebuilt.to_u16(), v);
    }
}

#[test]
fn default_slot_config() {
    let c = SlotConfig::default();
    assert_eq!(c.to_u16(), 0x9720);
    assert_eq!(c.to_bytes(), vec![0x97, 0x20]);
    assert!(c.secret());
    assert!(!c.encrypt_read());
    assert!(!c.limited_use());
    assert!(c.no_mac());
    assert_eq!(c.write_key(), 0);
    let rk = c.read_key();
    assert!(rk.external_signatures());
    assert!(rk.internal_signatures());
    assert!(rk.ecdh_operation());
    assert!(!rk.ecdh_write_slot());
    assert_eq!(
        c.write_config(WriteCommand::GenKey),
        WriteConfig::GenKey(GenKeyConfig::Valid)
    );
    assert_eq!(ReadKey::default().to_u8(), 7);
}

#[test]
fn default_key_config() {
    let c = KeyConfig::default();
    assert_eq!(c.to_u16(), 0x3300);
    assert_eq!(c.auth_key(), 0);
    assert!(!c.intrusion_disable());
    assert_eq!(c.x509_index(), 0);
    assert!(c.private());
    assert!(c.pub_info());
    assert_eq!(c.key_type(), KeyConfigType::Ecc);
    assert!(c.lockable());
    assert!(!c.req_random());
    assert!(!c.req_auth());
    let mut other = c;
    other.set_key_type(KeyConfigType::NotEcc);
    assert_eq!(other.key_type(), KeyConfigType::NotEcc);
    assert_eq!(other.to_u16(), 0x3f00);
}

#[test]
fn write_config_readings() {
    let write: Vec<_> = (0u8..16).map(_WriteConfig::from_bits).collect();
    assert_eq!(
        write,
        vec![
            W::Always, W::PubInValid, W::Never, W::Never, W::Encrypt, W::Encrypt, W::Encrypt,
            W::Encrypt, W::Never, W::Never, W::Never, W::Never, W::Encrypt, W::Encrypt,
            W::Encrypt, W::Encrypt
        ]
    );
    assert_eq!(DeriveKeyConfig::from_bits(2), DeriveKeyConfig::Roll(false));
    assert_eq!(DeriveKeyConfig::from_bits(10), DeriveKeyConfig::Roll(true));
    assert_eq!(DeriveKeyConfig::from_bits(3), DeriveKeyConfig::Create(false));
    assert_eq!(DeriveKeyConfig::from_bits(15), DeriveKeyConfig::Create(true));
    assert_eq!(DeriveKeyConfig::from_bits(6), DeriveKeyConfig::Roll(false));
    assert_eq!(DeriveKeyConfig::from_bits(1), DeriveKeyConfig::Invalid);
    assert_eq!(GenKeyConfig::from_bits(2), GenKeyConfig::Valid);
    assert_eq!(GenKeyConfig::from_bits(5), GenKeyConfig::Invalid);
    assert_eq!(PrivWriteConfig::from_bits(4), PrivWriteConfig::Encrypt);
    assert_eq!(PrivWriteConfig::from_bits(3), PrivWriteConfig::Invalid);
    assert_eq!(
        WriteConfig::from(WriteCommand::PrivWrite, 12),
        WriteConfig::PrivWrite(PrivWriteConfig::Encrypt)
    );
    assert_eq!(WriteConfig::DeriveKey(DeriveKeyConfig::Create(true)).to_bits(), 11);
    assert_eq!(WriteConfig::Write(_WriteConfig::Never).to_bits(), 2);
}

#[test]
fn config_halves_of_a_unit() {
    let unit = [0x12, 0x34, 0x56, 0x78];
    assert_eq!(slot_config_in_unit(4, &unit).to_u16(), 0x1234);
    assert_eq!(slot_config_in_unit(5, &unit).to_u16(), 0x5678);
    assert_eq!(key_config_in_unit(7, &unit).to_u16(), 0x5678);
    assert_eq!(unit_with_config(4, &unit, 0x9720), vec![0x97, 0x20, 0x56, 0x78]);
    assert_eq!(unit_with_config(5, &unit, 0x3300), vec![0x12, 0x34, 0x33, 0x00]);
}

#[test]
fn lock_bytes() {
    let unit = [0x55, 0x55, 0x00, 0x55];
    assert!(locked_in_unit(Zone::Data, &unit));
    assert!(!locked_in_unit(Zone::Config, &unit));
    let unit = [0x55, 0x55, 0x55, 0x00];
    assert!(!locked_in_unit(Zone::Data, &unit));
    assert!(locked_in_unit(Zone::Config, &unit));
}

#[test]
fn serial_assembly() {
    let mut block = [0u8; 32];
    for (i, b) in block.iter_mut().enumerate() {
        *b = i as u8;
    }
    block[0] = 0x01;
    block[1] = 0x23;
    block[12] = 0xEE;
    let serial = serial_from_config(&block);
    assert_eq!(&serial[..], &[0x01, 0x23, 2, 3, 8, 9, 10, 11, 0xEE]);
    assert!(serial_valid(&serial));
    assert!(!serial_valid(&[0x01, 0x23, 2, 3, 8, 9, 10, 11, 0xEF]));
    assert!(!serial_valid(&[0x01, 0x23]));
}
