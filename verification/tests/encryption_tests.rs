use bromine::error::{Error, IoErrorKind};
use bromine::protocol::encrypted::cipher::{nonce_from_number, CipherBox};
use bromine::protocol::encrypted::keys::{generate_session_key, EncryptionOptions, Keys};
use bromine::utils::generate_secret;
use bromine::protocol::encrypted::package::EncryptedPackage;

#[test]
fn nonce_repeats_the_counter() {
    assert_eq!(
        nonce_from_number(0x0102030405060708),
        [1, 2, 3, 4, 5, 6, 7, 8, 1, 2, 3, 4]
    );
    assert_ne!(nonce_from_number(1), nonce_from_number(2));
}

#[test]
fn ciphers_in_step_decrypt_each_other() {
    let key = [7u8; 32];
    let mut sender = CipherBox::new(&key);
    let mut receiver = CipherBox::new(&key);
    for i in 0..5u8 {
        let msg = vec![i; (i as usize) * 10];
        let c = sender.encrypt(&msg).unwrap();
        assert_eq!(c.len(), msg.len() + 16);
        if !msg.is_empty() {
            assert_ne!(&c[..msg.len()], &msg[..]);
        }
        assert_eq!(receiver.decrypt(&c).unwrap(), msg);
    }
}

#[test]
fn ciphertexts_differ_per_package() {
    let key = [1u8; 32];
    let mut sender = CipherBox::new(&key);
    let a = sender.encrypt(b"same").unwrap();
    let b = sender.encrypt(b"same").unwrap();
    assert_ne!(a, b);
}

#[test]
fn out_of_step_or_tampered_packages_fail() {
    let key = [3u8; 32];
    let mut sender = CipherBox::new(&key);
    let mut receiver = CipherBox::new(&key);
    let c1 = sender.encrypt(b"one").unwrap();
    let c2 = sender.encrypt(b"two").unwrap();
    assert!(matches!(receiver.decrypt(&c2), Err(Error::IoError(IoErrorKind::InvalidData))));
    // the failed decryption still used up a package number
    assert!(receiver.decrypt(&c1).is_err());
    let mut fresh = CipherBox::new(&key);
    let mut tampered = c1.clone();
    tampered[0] ^= 1;
    assert!(fresh.decrypt(&tampered).is_err());
    let mut short = CipherBox::new(&key);
    assert!(short.decrypt(&[1, 2, 3]).is_err());
}

#[test]
fn updating_the_key_restarts_the_counts() {
    let mut sender = CipherBox::new(&[1u8; 32]);
    let _ = sender.encrypt(b"x").unwrap();
    let new_key = generate_session_key();
    assert_eq!(new_key.len(), 32);
    sender.update_key(&new_key);
    let mut receiver = CipherBox::new(&new_key);
    let c = sender.encrypt(b"after").unwrap();
    assert_eq!(receiver.decrypt(&c).unwrap(), b"after".to_vec());
    let mut copy = receiver.duplicate();
    receiver.reset_counters();
    let mut again = CipherBox::new(&new_key);
    let c0 = again.encrypt(b"zero").unwrap();
    assert_eq!(receiver.decrypt(&c0).unwrap(), b"zero".to_vec());
    assert!(copy.decrypt(&c0).is_err());
}

#[test]
fn both_ends_agree_on_the_key() {
    let server = Keys { secret: generate_secret(), known_peers: vec![], allow_unknown: true };
    let client_secret = generate_secret();
    let client = Keys {
        secret: client_secret,
        known_peers: vec![server.public_key()],
        allow_unknown: false,
    };
    let mut server_box = server.handshake_cipher(&client.public_key()).unwrap();
    let mut client_box = client.handshake_cipher(&server.public_key()).unwrap();
    let session = generate_session_key();
    let sealed = server_box.encrypt(&session).unwrap();
    assert_eq!(client_box.decrypt(&sealed).unwrap(), session);
}

#[test]
fn unknown_peers_are_refused() {
    let server = Keys { secret: [9u8; 32], known_peers: vec![[1u8; 32]], allow_unknown: false };
    let stranger = [2u8; 32];
    assert!(!server.accepts(&stranger));
    assert!(server.accepts(&[1u8; 32]));
    match server.handshake_cipher(&stranger) {
        Err(Error::UnknownPeer(k)) => assert_eq!(k, stranger),
        _ => panic!("a stranger was accepted"),
    }
}

#[test]
fn session_keys_are_random() {
    assert_ne!(generate_session_key(), generate_session_key());
    assert_ne!(generate_secret(), generate_secret());
}

#[test]
fn package_roundtrip() {
    let p = EncryptedPackage::new(vec![5, 6, 7]);
    let mut bytes = p.into_bytes();
    assert_eq!(bytes, vec![0, 0, 0, 3, 5, 6, 7]);
    bytes.push(99);
    let back = EncryptedPackage::from_bytes(&bytes).unwrap();
    assert_eq!(back.into_inner(), vec![5, 6, 7]);
    assert!(matches!(
        EncryptedPackage::from_bytes(&[0, 0, 0, 4, 1]),
        Err(Error::IoError(IoErrorKind::UnexpectedEof))
    ));
    assert!(matches!(
        EncryptedPackage::from_bytes(&[0, 0]),
        Err(Error::IoError(IoErrorKind::UnexpectedEof))
    ));
}

#[test]
fn default_options_accept_every_peer() {
    let options: EncryptionOptions<u8> = EncryptionOptions::default();
    assert_eq!(options.inner_options, 0);
    assert!(options.keys.known_peers.is_empty());
    assert!(options.keys.allow_unknown);
    assert!(options.keys.accepts(&[9u8; 32]));
    let other: EncryptionOptions<u8> = EncryptionOptions::default();
    assert_ne!(options.keys.secret, other.keys.secret);
    assert_ne!(options.keys.public_key(), options.keys.secret);
}
