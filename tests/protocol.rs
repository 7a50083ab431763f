use transfer::cipher::{compute_cipher, SymmetricKey};
use transfer::error::{HandshakeError, MessageReceiveError, MessageSendError};
use transfer::framing::{read_envelope, read_u64, u64_from_be_bytes, u64_to_be_bytes, write_envelope};
use transfer::handshake::{Handshake, Role};
use transfer::message::{encode_message, receive_message, send, send_message};
use transfer::transfer::TransferProgress;

fn key_of(byte: u8) -> SymmetricKey {
    SymmetricKey::from_bytes(vec![byte; 32]).unwrap()
}

fn hex(s: &str) -> Vec<u8> {
    (0..s.len() / 2).map(|i| u8::from_str_radix(&s[2 * i..2 * i + 2], 16).unwrap()).collect()
}

#[test]
fn big_endian_length_field() {
    assert_eq!(u64_to_be_bytes(0x0102030405060708), vec![1, 2, 3, 4, 5, 6, 7, 8]);
    assert_eq!(u64_to_be_bytes(300), vec![0, 0, 0, 0, 0, 0, 1, 44]);
    assert_eq!(u64_from_be_bytes(&[0, 0, 0, 0, 0, 0, 1, 44]), 300);
    assert_eq!(u64_from_be_bytes(&u64_to_be_bytes(u64::MAX)), u64::MAX);
}

#[test]
fn envelope_layout_and_round_trip() {
    let nonce = vec![9u8; 12];
    let ciphertext = vec![1u8, 2, 3];
    let env = write_envelope(&nonce, &ciphertext);
    let mut expected = nonce.clone();
    expected.extend_from_slice(&[0, 0, 0, 0, 0, 0, 0, 3]);
    expected.extend_from_slice(&ciphertext);
    assert_eq!(env, expected);
    assert_eq!(read_u64(&env), 3);
    assert_eq!(read_envelope(&env), Ok((nonce, ciphertext)));
}

#[test]
fn empty_ciphertext_envelope() {
    let env = write_envelope(&[0u8; 12], &[]);
    assert_eq!(env.len(), 20);
    assert_eq!(read_envelope(&env), Ok((vec![0u8; 12], vec![])));
}

#[test]
fn short_stream_errors() {
    assert_eq!(read_envelope(&[]), Err(MessageReceiveError::Nonce));
    assert_eq!(read_envelope(&[0u8; 11]), Err(MessageReceiveError::Nonce));
    assert_eq!(read_envelope(&[0u8; 12]), Err(MessageReceiveError::Size));
    assert_eq!(read_envelope(&[0u8; 19]), Err(MessageReceiveError::Size));
}

#[test]
fn declared_length_mismatch_is_body_error() {
    let env = write_envelope(&[5u8; 12], &[1, 2, 3, 4]);
    assert_eq!(read_envelope(&env[..env.len() - 1]), Err(MessageReceiveError::Body));
    let mut longer = env.clone();
    longer.push(0);
    assert_eq!(read_envelope(&longer), Err(MessageReceiveError::Body));
}

#[test]
fn tampered_length_field_is_body_error() {
    let env = write_envelope(&[5u8; 12], &[1, 2, 3, 4]);
    for i in 12..20 {
        let mut t = env.clone();
        t[i] ^= 0x01;
        assert_eq!(read_envelope(&t), Err(MessageReceiveError::Body));
    }
}

#[test]
fn hkdf_extract_known_value() {
    let key = compute_cipher(&[0x0b; 22]);
    assert_eq!(
        key.as_bytes().to_vec(),
        hex("19ef24a32c717b167f33a91d6f648bdf96596776afdb6377ac434c1c293ccb04")
    );
}

#[test]
fn symmetric_key_length() {
    assert!(SymmetricKey::from_bytes(vec![0; 31]).is_none());
    assert!(SymmetricKey::from_bytes(vec![0; 33]).is_none());
    assert!(SymmetricKey::from_bytes(vec![0; 32]).is_some());
}

#[test]
fn aes_gcm_known_value() {
    let key = key_of(0);
    let env = encode_message(&key, &[0u8; 12], &[0u8; 16]).unwrap();
    let mut expected = vec![0u8; 12];
    expected.extend_from_slice(&[0, 0, 0, 0, 0, 0, 0, 32]);
    expected.extend(hex("cea7403d4d606b6e074ec5d3baf39d18"));
    expected.extend(hex("d0d1c8a799996bf0265b98b5d48ab919"));
    assert_eq!(env, expected);
}

#[test]
fn ten_byte_payload_round_trip() {
    let key = key_of(7);
    let payload: Vec<u8> = (0..10).collect();
    let env = encode_message(&key, &[1u8; 12], &payload).unwrap();
    assert_eq!(env.len(), 12 + 8 + 10 + 16);
    assert_ne!(env[20..30].to_vec(), payload);
    assert_eq!(receive_message(&key, &env), Ok(payload));
}

#[test]
fn empty_payload_round_trip() {
    let key = key_of(3);
    let env = send_message(&key, &[]).unwrap();
    assert_eq!(env.len(), 36);
    assert_eq!(receive_message(&key, &env), Ok(vec![]));
}

#[test]
fn wrong_key_fails_to_decrypt() {
    let env = send_message(&key_of(1), b"secret archive").unwrap();
    assert_eq!(receive_message(&key_of(2), &env), Err(MessageReceiveError::Decrypt));
}

#[test]
fn flipped_ciphertext_bit_fails_to_decrypt() {
    let key = key_of(4);
    let env = send_message(&key, b"0123456789").unwrap();
    for i in 20..env.len() {
        let mut t = env.clone();
        t[i] ^= 0x80;
        assert_eq!(receive_message(&key, &t), Err(MessageReceiveError::Decrypt));
    }
}

#[test]
fn tampered_nonce_fails_to_decrypt() {
    let key = key_of(4);
    let env = send_message(&key, b"0123456789").unwrap();
    for i in 0..12 {
        let mut t = env.clone();
        t[i] ^= 0x01;
        assert_eq!(receive_message(&key, &t), Err(MessageReceiveError::Decrypt));
    }
}

#[test]
fn fresh_nonce_per_message() {
    let key = key_of(5);
    let a = send_message(&key, b"same").unwrap();
    let b = send_message(&key, b"same").unwrap();
    assert_ne!(a[..12], b[..12]);
    assert_ne!(a, b);
}

#[test]
fn send_maps_packaging_failure() {
    let key = key_of(6);
    assert_eq!(send(&key, None), Err(MessageSendError::Zip));
    let env = send(&key, Some(b"archive bytes".to_vec())).unwrap();
    assert_eq!(receive_message(&key, &env), Ok(b"archive bytes".to_vec()));
}

#[test]
fn receive_message_framing_errors() {
    let key = key_of(6);
    assert_eq!(receive_message(&key, &[0u8; 5]), Err(MessageReceiveError::Nonce));
    assert_eq!(receive_message(&key, &[0u8; 15]), Err(MessageReceiveError::Size));
    let env = send_message(&key, b"abc").unwrap();
    assert_eq!(receive_message(&key, &env[..env.len() - 2]), Err(MessageReceiveError::Body));
}

#[test]
fn handshake_agrees_on_key() {
    let sender = Handshake::start(Role::Sender);
    let receiver = Handshake::start(Role::Receiver);
    let sender_public = sender.local_public_key().to_vec();
    let receiver_public = receiver.local_public_key().to_vec();
    assert_eq!(sender_public.len(), 97);
    assert_eq!(sender_public[0], 4);
    assert_ne!(sender_public, receiver_public);

    let s = sender.receive_remote_key(&receiver_public).ok().unwrap();
    let r = receiver.receive_remote_key(&sender_public).ok().unwrap();
    assert_eq!(s.displayed_keys(), (sender_public.clone(), receiver_public.clone()));
    assert_eq!(r.displayed_keys(), (sender_public, receiver_public));

    let ks = s.confirm(true).ok().unwrap();
    let kr = r.confirm(true).ok().unwrap();
    assert_eq!(ks.as_bytes(), kr.as_bytes());

    let env = send_message(&ks, b"hello").unwrap();
    assert_eq!(receive_message(&kr, &env), Ok(b"hello".to_vec()));
}

#[test]
fn rejected_confirmation_yields_no_key() {
    let sender = Handshake::start(Role::Sender);
    let receiver = Handshake::start(Role::Receiver);
    let remote = receiver.local_public_key().to_vec();
    let s = sender.receive_remote_key(&remote).ok().unwrap();
    assert!(matches!(s.confirm(false), Err(HandshakeError::Rejected)));
}

#[test]
fn malformed_remote_key_is_refused() {
    let peer = Handshake::start(Role::Receiver);
    let good = peer.local_public_key().to_vec();

    let short = &good[..96];
    let r = Handshake::start(Role::Sender).receive_remote_key(short);
    assert!(matches!(r, Err(HandshakeError::MalformedRemoteKey)));

    let mut wrong_tag = good.clone();
    wrong_tag[0] = 2;
    let r = Handshake::start(Role::Sender).receive_remote_key(&wrong_tag);
    assert!(matches!(r, Err(HandshakeError::MalformedRemoteKey)));

    let mut off_curve = good.clone();
    off_curve[96] ^= 1;
    let r = Handshake::start(Role::Sender).receive_remote_key(&off_curve);
    assert!(matches!(r, Err(HandshakeError::MalformedRemoteKey)));

    let r = Handshake::start(Role::Sender).receive_remote_key(&good);
    assert!(r.is_ok());
}

#[test]
fn progress_tracks_chunks() {
    let mut p = TransferProgress::new(10);
    assert_eq!(p.next_chunk_len(4), 4);
    assert!(p.record(4));
    assert_eq!(p.done(), 4);
    assert_eq!(p.remaining(), 6);
    assert_eq!(p.next_chunk_len(100), 6);
    assert!(!p.record(7));
    assert_eq!(p.done(), 4);
    assert!(p.record(6));
    assert!(p.is_complete());
    assert_eq!(p.total(), 10);
}

#[test]
fn progress_stream_end() {
    let mut p = TransferProgress::new(3);
    assert_eq!(p.on_read(2), Ok(()));
    assert_eq!(p.on_read(0), Err(MessageReceiveError::Body));
    assert_eq!(p.on_read(5), Err(MessageReceiveError::Body));
    assert_eq!(p.on_read(1), Ok(()));
    assert_eq!(p.on_read(0), Ok(()));

    let mut empty = TransferProgress::new(0);
    assert!(empty.is_complete());
    assert_eq!(empty.on_read(0), Ok(()));
}
