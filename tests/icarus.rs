use bosminer_core::error::ErrorKind;
use bosminer_core::icarus::{
    nonce_from_reply, nonce_timeout, uart_setup_transfers, WorkPayload, CP210X_TYPE_OUT,
    MAX_READ_TIME_MS, WAIT_TIMEOUT_MS,
};

fn sample_payload() -> WorkPayload {
    let mut midstate = [0u8; 32];
    for (i, b) in midstate.iter_mut().enumerate() {
        *b = 0x10 + i as u8;
    }
    WorkPayload::new(&midstate, [0xaa, 0xbb, 0xcc, 0xdd], 0x4d1d_f1a6, 0x1a44_b9f2)
}

#[test]
fn payload_layout() {
    let p = sample_payload();
    let bytes = p.into_bytes();
    assert_eq!(&bytes[..32], &p.midstate[..]);
    assert_eq!(&bytes[32..52], &[0u8; 20]);
    assert_eq!(&bytes[52..56], &[0xaa, 0xbb, 0xcc, 0xdd]);
    assert_eq!(&bytes[56..60], &[0xa6, 0xf1, 0x1d, 0x4d]);
    assert_eq!(&bytes[60..64], &[0xf2, 0xb9, 0x44, 0x1a]);
}

#[test]
fn payload_round_trip() {
    let p = sample_payload();
    assert_eq!(WorkPayload::from_bytes(&p.into_bytes()), p);
}

#[test]
fn payload_parse_ignores_padding() {
    let p = sample_payload();
    let mut bytes = p.into_bytes();
    bytes[40] = 0xff;
    assert_eq!(WorkPayload::from_bytes(&bytes), p);
}

#[test]
fn nonce_reply_is_little_endian() {
    assert_eq!(nonce_from_reply(&[0x78, 0x56, 0x34, 0x12]), Ok(0x1234_5678));
}

#[test]
fn short_nonce_reply_is_usb_error() {
    match nonce_from_reply(&[1, 2, 3]) {
        Err(e) => assert_eq!(e.kind(), ErrorKind::Usb("read incorrect number of bytes".to_string())),
        Ok(n) => panic!("unexpected nonce {}", n),
    }
    assert!(nonce_from_reply(&[1, 2, 3, 4, 5]).is_err());
}

#[test]
fn read_timeout_formula() {
    assert_eq!(MAX_READ_TIME_MS, 12_782 - 150);
    assert_eq!(nonce_timeout(0), MAX_READ_TIME_MS);
    assert_eq!(nonce_timeout(1_000), MAX_READ_TIME_MS - 1_000);
    assert_eq!(nonce_timeout(MAX_READ_TIME_MS - 50), WAIT_TIMEOUT_MS);
    assert_eq!(nonce_timeout(u64::MAX), WAIT_TIMEOUT_MS);
}

#[test]
fn uart_setup_sequence() {
    let t = uart_setup_transfers();
    assert_eq!(t.len(), 3);
    assert!(t.iter().all(|c| c.request_type == CP210X_TYPE_OUT && c.index == 0));
    assert_eq!((t[0].request, t[0].value, t[0].data.len()), (0x00, 0x0001, 0));
    assert_eq!((t[1].request, t[1].value, t[1].data.len()), (0x07, 0x0303, 0));
    assert_eq!((t[2].request, t[2].value), (0x1e, 0));
    assert_eq!(t[2].data, 115200u32.to_le_bytes().to_vec());
    assert_eq!(t[2].failure, "cannot set baud rate");
}

#[test]
fn short_reply_error_has_no_cause() {
    let e = nonce_from_reply(&[]).unwrap_err();
    assert_eq!(e.cause, None);
}
