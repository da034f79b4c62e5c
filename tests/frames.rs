use bytes::BytesMut;
use gateway_mfr::command::crc;
use gateway_mfr::{
    Address, DataBuffer, EccCommand, EccError, EccResponse, Error, KeyType, Zone,
};

fn frame(cmd: &EccCommand) -> Vec<u8> {
    let mut bytes = BytesMut::with_capacity(151);
    cmd.bytes_into(&mut bytes);
    bytes.to_vec()
}

fn with_crc(head: &[u8]) -> Vec<u8> {
    let mut v = head.to_vec();
    let c = crc(head);
    v.push((c & 0xff) as u8);
    v.push((c >> 8) as u8);
    v
}

#[test]
fn info() {
    let packet = EccCommand::info();
    let mut bytes = BytesMut::with_capacity(151);
    packet.bytes_into(&mut bytes);
    assert_eq!(
        &[0x03, 0x07, 0x30, 0x00, 0x00, 0x00, 0x03, 0x5D],
        &bytes[..]
    )
}

#[test]
fn crc_of_info_packet() {
    assert_eq!(crc(&[0x07, 0x30, 0x00, 0x00, 0x00]), 0x5D03);
    assert_eq!(crc(&[]), 0);
}

#[test]
fn crc_of_success_status() {
    assert_eq!(crc(&[0x04, 0x00]), 0x4003);
}

#[test]
fn bytes_into_appends() {
    let mut bytes = BytesMut::new();
    bytes.extend_from_slice(&[0xAA]);
    EccCommand::info().bytes_into(&mut bytes);
    assert_eq!(&bytes[..], &[0xAA, 0x03, 0x07, 0x30, 0x00, 0x00, 0x00, 0x03, 0x5D]);
}

#[test]
fn read_slot_config_frame() {
    let address = Address::slot_config(0).unwrap();
    assert_eq!(address.to_u16(), 0x0500);
    let f = frame(&EccCommand::read(false, address));
    assert_eq!(f.len(), 8);
    assert_eq!(&f[..6], &[0x03, 0x07, 0x02, 0x00, 0x00, 0x05]);
    let c = crc(&f[1..6]);
    assert_eq!(&f[6..], &[(c & 0xff) as u8, (c >> 8) as u8]);
}

#[test]
fn write_32_frame() {
    let payload: Vec<u8> = (0u8..32).map(|i| i.wrapping_mul(37).wrapping_add(11)).collect();
    let address = Address::data(8, 0, 0).unwrap();
    assert_eq!(address.to_u16(), 0x4000);
    let f = frame(&EccCommand::write(address, &payload));
    assert_eq!(f.len(), 40);
    // bit 7: 32-byte transfer; bits 1..0: the Data zone (2)
    assert_eq!(&f[..6], &[0x03, 0x27, 0x12, 0x82, 0x00, 0x40]);
    assert_eq!(&f[6..38], &payload[..]);
    let c = crc(&f[1..38]);
    assert_eq!(&f[38..], &[(c & 0xff) as u8, (c >> 8) as u8]);
}

#[test]
fn write_4_frame_to_config() {
    let address = Address::config(3, 2).unwrap();
    assert_eq!(address.to_u16(), 0x1a00);
    let f = frame(&EccCommand::write(address, &[1, 2, 3, 4]));
    assert_eq!(&f[..10], &[0x03, 0x0b, 0x12, 0x00, 0x00, 0x1a, 1, 2, 3, 4]);
}

#[test]
fn genkey_lock_nonce_sign_params() {
    let f = frame(&EccCommand::genkey(KeyType::Private, 3));
    assert_eq!(&f[..6], &[0x03, 0x07, 0x40, 0x04, 0x03, 0x00]);
    let f = frame(&EccCommand::genkey(KeyType::Public, 0));
    assert_eq!(&f[..6], &[0x03, 0x07, 0x40, 0x00, 0x00, 0x00]);
    let f = frame(&EccCommand::lock(Zone::Config));
    assert_eq!(&f[..6], &[0x03, 0x07, 0x17, 0x80, 0x00, 0x00]);
    let f = frame(&EccCommand::lock(Zone::Data));
    assert_eq!(&f[..6], &[0x03, 0x07, 0x17, 0x81, 0x00, 0x00]);
    let digest = bytes::Bytes::from(vec![9u8; 32]);
    let f = frame(&EccCommand::nonce(DataBuffer::MessageDigest, digest));
    assert_eq!(f.len(), 40);
    assert_eq!(&f[..6], &[0x03, 0x27, 0x16, 0x43, 0x00, 0x00]);
    let long = bytes::Bytes::from(vec![1u8; 64]);
    let f = frame(&EccCommand::nonce(DataBuffer::TempKey, long));
    assert_eq!(&f[..6], &[0x03, 0x47, 0x16, 0x23, 0x00, 0x00]);
    let f = frame(&EccCommand::sign(DataBuffer::MessageDigest, 0));
    assert_eq!(&f[..6], &[0x03, 0x07, 0x41, 0xa0, 0x00, 0x00]);
    let f = frame(&EccCommand::sign(DataBuffer::TempKey, 2));
    assert_eq!(&f[..6], &[0x03, 0x07, 0x41, 0x80, 0x02, 0x00]);
}

#[test]
fn durations() {
    assert_eq!(EccCommand::info().duration_micros(), 500);
    assert_eq!(EccCommand::lock(Zone::Data).duration_micros(), 19_500);
    assert_eq!(
        EccCommand::sign(DataBuffer::MessageDigest, 0).duration(),
        std::time::Duration::from_micros(64_000)
    );
    assert_eq!(
        EccCommand::genkey(KeyType::Private, 0).duration(),
        std::time::Duration::from_micros(59_000)
    );
}

#[test]
fn data_empty_response() {
    match EccResponse::from_bytes(&[0x04, 0x00, 0x03, 0x40]) {
        Ok(EccResponse::Data(d)) => assert!(d.is_empty()),
        other => panic!("unexpected {:?}", other),
    }
}

#[test]
fn parse_error_response() {
    let buf = with_crc(&[0x04, 0x03]);
    match EccResponse::from_bytes(&buf) {
        Ok(EccResponse::Error(e)) => {
            assert_eq!(e, EccError::ParseError);
            assert!(!e.is_recoverable());
        }
        other => panic!("unexpected {:?}", other),
    }
}

#[test]
fn every_status_byte() {
    let cases = [
        (0x03, EccError::ParseError),
        (0x05, EccError::Fault),
        (0x07, EccError::SelfTestError),
        (0x0F, EccError::ExecError),
        (0xEE, EccError::WatchDogError),
        (0xFF, EccError::CommsError),
        (0x42, EccError::Unknown(0x42)),
    ];
    for (status, expected) in cases {
        let buf = with_crc(&[0x04, status]);
        match EccResponse::from_bytes(&buf) {
            Ok(EccResponse::Error(e)) => assert_eq!(e, expected),
            other => panic!("unexpected {:?}", other),
        }
    }
}

#[test]
fn status_frame_with_bad_crc() {
    match EccResponse::from_bytes(&[0x04, 0x00, 0x00, 0x00]) {
        Err(Error::Crc { expected, actual }) => {
            assert_eq!(expected, 0x4003);
            assert_eq!(actual, 0);
        }
        other => panic!("unexpected {:?}", other),
    }
}

#[test]
fn data_frame_round_trip() {
    let data: Vec<u8> = (0u8..32).collect();
    let mut head = vec![35u8];
    head.extend_from_slice(&data);
    let buf = with_crc(&head);
    match EccResponse::from_bytes(&buf) {
        Ok(EccResponse::Data(d)) => assert_eq!(&d[..], &data[..]),
        other => panic!("unexpected {:?}", other),
    }
    let mut corrupt = buf.clone();
    corrupt[5] ^= 1;
    assert!(matches!(
        EccResponse::from_bytes(&corrupt),
        Err(Error::Crc { .. })
    ));
}

#[test]
fn recoverable_errors() {
    assert!(!EccError::ParseError.is_recoverable());
    assert!(!EccError::ExecError.is_recoverable());
    assert!(EccError::Fault.is_recoverable());
    assert!(EccError::SelfTestError.is_recoverable());
    assert!(EccError::CommsError.is_recoverable());
    assert!(EccError::WatchDogError.is_recoverable());
    assert!(EccError::Unknown(0x33).is_recoverable());
}
