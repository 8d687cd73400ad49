use hmac_sha512::{hmac_sha512, init, verify, MacError};

#[test]
fn hmac_verify() {
    let mut out = vec![0u8; 64];
    let mut mac = init("secret key".as_bytes());
    mac.update("msg".as_bytes()).unwrap();
    mac.finalize_with_dst(&mut out).unwrap();

    let mac_oneshot = hmac_sha512("secret key".as_bytes(), "msg".as_bytes());

    assert!(verify(&out, "secret key".as_bytes(), "msg".as_bytes()));
    assert!(verify(
        &mac_oneshot,
        "secret key".as_bytes(),
        "msg".as_bytes()
    ));
    assert!(verify(&out, "secret key".as_bytes(), "msg".as_bytes()));
    assert!(verify(
        &mac_oneshot,
        "secret key".as_bytes(),
        "msg".as_bytes()
    ));
}

#[test]
fn hmac_verify_after_reset() {
    let mut out = vec![0u8; 64];
    let mut mac = init("secret key".as_bytes());
    mac.update("msg".as_bytes()).unwrap();
    mac.finalize_with_dst(&mut out).unwrap();
    mac.reset();
    mac.update("msg".as_bytes()).unwrap();

    assert_eq!(out, mac.finalize().unwrap());
}

#[test]
fn hmac_verify_after_reset_err() {
    let mut out = vec![0u8; 64];
    let mut mac = init("secret key".as_bytes());
    mac.update("msg".as_bytes()).unwrap();
    mac.finalize_with_dst(&mut out).unwrap();
    mac.reset();
    mac.update("other message".as_bytes()).unwrap();

    assert_ne!(out, mac.finalize().unwrap());
}

#[test]
fn reset_after_update_correct_resets() {
    let state_1 = init("Jefe".as_bytes());

    let mut state_2 = init("Jefe".as_bytes());
    state_2.update(b"Tests").unwrap();
    state_2.reset();

    assert_eq!(state_1.pad(), state_2.pad());
    assert_eq!(state_1.is_finalized(), state_2.is_finalized());
}

#[test]
fn reset_after_update_correct_resets_and_verify() {
    let mut state_1 = init("Jefe".as_bytes());
    state_1.update(b"Tests").unwrap();
    let d1 = state_1.finalize().unwrap();

    let mut state_2 = init("Jefe".as_bytes());
    state_2.update(b"Tests").unwrap();
    state_2.reset();
    state_2.update(b"Tests").unwrap();
    let d2 = state_2.finalize().unwrap();

    assert_eq!(d1[..], d2[..]);
}

#[test]
fn finalize_twice_is_misuse() {
    let mut mac = init("secret key".as_bytes());
    mac.update("msg".as_bytes()).unwrap();
    mac.finalize().unwrap();
    assert_eq!(mac.finalize(), Err(MacError::ProtocolMisuse));
}

#[test]
fn finalize_with_dst_twice_is_misuse() {
    let mut out = vec![0u8; 64];
    let mut mac = init("secret key".as_bytes());
    mac.update("msg".as_bytes()).unwrap();
    mac.finalize_with_dst(&mut out).unwrap();
    assert_eq!(mac.finalize_with_dst(&mut out), Err(MacError::ProtocolMisuse));
}

#[test]
fn finalize_with_dst_after_finalize_is_misuse() {
    let mut out = vec![0u8; 64];
    let mut mac = init("secret key".as_bytes());
    mac.update("msg".as_bytes()).unwrap();
    mac.finalize().unwrap();
    assert_eq!(mac.finalize_with_dst(&mut out), Err(MacError::ProtocolMisuse));
}

#[test]
fn update_after_finalize_is_misuse() {
    let mut mac = init("secret key".as_bytes());
    mac.update("msg".as_bytes()).unwrap();
    mac.finalize().unwrap();
    assert_eq!(mac.update("msg".as_bytes()), Err(MacError::ProtocolMisuse));
    // The refused call leaves the state unchanged: a reset still works.
    mac.reset();
    mac.update("msg".as_bytes()).unwrap();
    let again = mac.finalize().unwrap();
    assert_eq!(again, hmac_sha512("secret key".as_bytes(), "msg".as_bytes()));
}

#[test]
fn oversized_dst_is_length_error() {
    let mut out = vec![0u8; 65];
    let mut mac = init("secret key".as_bytes());
    mac.update("msg".as_bytes()).unwrap();
    assert_eq!(mac.finalize_with_dst(&mut out), Err(MacError::Length));
    // The refused call leaves the handle open: finalize still succeeds.
    assert!(mac.finalize().is_ok());
}

#[test]
fn truncated_dst_takes_tag_prefix() {
    let full = hmac_sha512("secret key".as_bytes(), "msg".as_bytes());
    for n in [0usize, 1, 32, 63, 64] {
        let mut out = vec![0u8; n];
        let mut mac = init("secret key".as_bytes());
        mac.update("msg".as_bytes()).unwrap();
        mac.finalize_with_dst(&mut out).unwrap();
        assert_eq!(out[..], full[..n]);
    }
}

#[test]
fn pad_returns_after_finalize_and_reset() {
    let mut mac = init("secret key".as_bytes());
    let inner = mac.pad();
    mac.update("msg".as_bytes()).unwrap();
    mac.finalize().unwrap();
    let outer = mac.pad();
    assert_ne!(inner, outer);
    // The outer pad is the inner pad with every byte XOR-ed by 0x6a.
    for (a, b) in inner.iter().zip(outer.iter()) {
        assert_eq!(a ^ 0x6a, *b);
    }
    mac.reset();
    assert_eq!(inner, mac.pad());
    assert!(!mac.is_finalized());
}

#[test]
fn empty_key_and_empty_message() {
    let tag = hmac_sha512(b"", b"");
    let mut mac = init(b"");
    let streamed = mac.finalize().unwrap();
    assert_eq!(tag, streamed);
    assert!(verify(&tag, b"", b""));
    assert!(!verify(&tag, b"", b"x"));
}

#[test]
fn update_in_chunks_matches_one_update() {
    let mut one = init(b"chunky key");
    one.update(b"what do ya want for nothing?").unwrap();
    let d1 = one.finalize().unwrap();

    let mut many = init(b"chunky key");
    many.update(b"what do ").unwrap();
    many.update(b"").unwrap();
    many.update(b"ya want ").unwrap();
    many.update(b"for nothing?").unwrap();
    let d2 = many.finalize().unwrap();

    assert_eq!(d1, d2);
}

#[test]
fn long_key_matches_streaming() {
    // A key longer than the 128-byte blocksize is hashed down first; the
    // one-shot and streaming paths must still agree.
    let key = vec![0xaau8; 200];
    let msg = b"left hash right pad";
    let tag = hmac_sha512(&key, msg);
    let mut mac = init(&key);
    mac.update(msg).unwrap();
    assert_eq!(tag, mac.finalize().unwrap());
    assert!(verify(&tag, &key, msg));
}
