use minirobot::security::authentication::Authenticator;
use minirobot::security::encryption::{
    nonce_outcome, Encryption, EncryptionAlgorithm, EncryptionError,
};

const KEY: &str = "0123456789abcdef0123456789abcdef";

fn ciphers() -> [EncryptionAlgorithm; 2] {
    [EncryptionAlgorithm::AES256GCM, EncryptionAlgorithm::ChaCha20]
}

#[test]
fn a_key_must_be_32_bytes_long() {
    assert_eq!(
        Encryption::new("short".to_string(), "p".to_string(), EncryptionAlgorithm::AES256GCM).err(),
        Some(EncryptionError::AesKeyLength)
    );
    assert_eq!(
        Encryption::new("é123456789abcdef0123456789abcdef".to_string(), "p".to_string(), EncryptionAlgorithm::ChaCha20).err(),
        Some(EncryptionError::ChaChaKeyLength)
    );
    assert_eq!(EncryptionError::AesKeyLength.message(), "AES key length must be 32 bytes (256 bits)");
    assert_eq!(
        EncryptionError::ChaChaKeyLength.message(),
        "ChaCha20 key length must be 32 bytes (256 bits)"
    );
    for cipher in ciphers() {
        assert!(Encryption::new(KEY.to_string(), "p".to_string(), cipher).is_ok());
        assert_eq!(cipher.tag_len(), 16);
        assert_eq!(cipher.zero_array(), vec![0u8; 16]);
    }
}

#[test]
fn what_was_sealed_opens_to_the_data_and_the_room_for_a_tag() {
    for cipher in ciphers() {
        let e = Encryption::new(KEY.to_string(), "p".to_string(), cipher).unwrap();
        let data = b"attack at dawn";
        let sealed = e.encrypt(data).unwrap();
        assert_eq!(sealed.len(), 12 + data.len() + 16 + 16);
        assert_ne!(&sealed[12..12 + data.len()], data);
        let mut want = data.to_vec();
        want.extend_from_slice(&[0u8; 16]);
        assert_eq!(e.decrypt(&sealed), Ok(want));
        let again = e.encrypt(data).unwrap();
        assert_ne!(sealed, again);
    }
}

#[test]
fn sealing_under_a_given_nonce_is_repeatable() {
    for cipher in ciphers() {
        let e = Encryption::new(KEY.to_string(), "p".to_string(), cipher).unwrap();
        let nonce = [7u8; 12];
        let a = e.encrypt_with(&nonce, b"x").unwrap();
        let b = e.encrypt_with(&nonce, b"x").unwrap();
        assert_eq!(a, b);
        assert_eq!(&a[..12], &nonce);
        assert_eq!(a.len(), 12 + 1 + 16 + 16);
        assert_ne!(a, e.encrypt_with(&[8u8; 12], b"x").unwrap());
    }
    let aes = Encryption::new(KEY.to_string(), "p".to_string(), EncryptionAlgorithm::AES256GCM).unwrap();
    let chacha = Encryption::new(KEY.to_string(), "p".to_string(), EncryptionAlgorithm::ChaCha20).unwrap();
    assert_ne!(aes.encrypt_with(&[7u8; 12], b"x"), chacha.encrypt_with(&[7u8; 12], b"x"));
}

#[test]
fn what_was_tampered_with_does_not_open() {
    for cipher in ciphers() {
        let e = Encryption::new(KEY.to_string(), "p".to_string(), cipher).unwrap();
        let mut sealed = e.encrypt(b"attack at dawn").unwrap();
        let last = sealed.len() - 1;
        sealed[last] ^= 1;
        assert_eq!(e.decrypt(&sealed), Err(EncryptionError::Unspecified));
        assert_eq!(e.decrypt(&sealed[..11]), Err(EncryptionError::Truncated));
        assert_eq!(e.decrypt(&sealed[..12]), Err(EncryptionError::Unspecified));
        assert_eq!(e.decrypt(&[]), Err(EncryptionError::Truncated));
    }
}

#[test]
fn a_nonce_is_twelve_random_bytes() {
    let e = Encryption::new(KEY.to_string(), "p".to_string(), EncryptionAlgorithm::AES256GCM).unwrap();
    let a = e.generate_nonce().unwrap();
    let b = e.generate_nonce().unwrap();
    assert_eq!(a.len(), 12);
    assert_ne!(a, b);
}

#[test]
fn what_was_signed_is_accepted() {
    let e = Encryption::new(KEY.to_string(), "secret".to_string(), EncryptionAlgorithm::AES256GCM).unwrap();
    let signature = e.sign("message");
    assert_eq!(signature, "i19IcCmVwVmMVz2x4hhmqbgl1KeU0WnXBgoDYFeWNgs=");
    assert!(e.verify("message", &signature));
    assert!(!e.verify("massage", &signature));
    assert!(!e.verify("message", "not base64!"));
    assert!(!e.verify("message", ""));
    assert!(!e.verify("message", "AAAA"));
    let other = Encryption::new(KEY.to_string(), "public".to_string(), EncryptionAlgorithm::AES256GCM).unwrap();
    assert!(!other.verify("message", &signature));
    assert_ne!(other.sign("message"), signature);
}

#[test]
fn a_password_is_checked_against_its_hash() {
    let hash = Authenticator::hash_password("hunter2").unwrap();
    assert!(hash.starts_with("$argon2id$"));
    assert_ne!(hash, Authenticator::hash_password("hunter2").unwrap());
    assert_eq!(Authenticator::verify_password(&hash, "hunter2").ok(), Some(true));
    assert_eq!(Authenticator::verify_password(&hash, "hunter3").ok(), Some(false));
    let failure = Authenticator::verify_password("no hash", "hunter2").err().unwrap();
    assert!(failure.message().starts_with("Argon2 error: "));
}

#[test]
fn a_user_is_let_in_with_name_and_password() {
    let auth = Authenticator::new("alice".to_string(), "hunter2".to_string()).ok().unwrap();
    assert_eq!(auth.username(), "alice");
    assert!(auth.password_hash().starts_with("$argon2id$"));
    assert_eq!(auth.authenticate("alice", "hunter2").ok(), Some(true));
    assert_eq!(auth.authenticate("alice", "wrong").ok(), Some(false));
    assert_eq!(auth.authenticate("bob", "hunter2").ok(), Some(false));
    let known = "$argon2id$v=19$m=19456,t=2,p=1$c29tZXNhbHRzb21lc2FsdA$";
    let broken = Authenticator::with_hash("alice".to_string(), known.to_string());
    assert_eq!(broken.authenticate("bob", "x").ok(), Some(false));
    let unread = Authenticator::with_hash("alice".to_string(), "plain".to_string());
    assert!(unread.authenticate("alice", "plain").is_err());
    assert_eq!(unread.authenticate("bob", "plain").ok(), Some(false));
}

#[test]
fn a_hash_depends_on_password_and_salt_alone() {
    let salt = "c29tZXNhbHRzb21lc2FsdA";
    let first = Authenticator::hash_password_with("hunter2", salt).ok().unwrap();
    let second = Authenticator::hash_password_with("hunter2", salt).ok().unwrap();
    assert_eq!(first, second);
    assert!(first.starts_with("$argon2id$v=19$m=19456,t=2,p=1$c29tZXNhbHRzb21lc2FsdA$"));
    assert_ne!(first, "hunter2");
    assert_ne!(first, Authenticator::hash_password_with("hunter3", salt).ok().unwrap());
    assert_ne!(
        first,
        Authenticator::hash_password_with("hunter2", "b3RoZXJzYWx0b3RoZXJzYQ").ok().unwrap()
    );
    assert_eq!(Authenticator::verify_password(&first, "hunter2").ok(), Some(true));
    assert!(Authenticator::hash_password_with("hunter2", "no salt!").is_err());
    assert!(Authenticator::hash_password_with("hunter2", "").is_err());
}

#[test]
fn a_failure_of_argon2_is_told_in_its_words() {
    assert_eq!(
        minirobot::security::authentication::argon2_message("salt invalid"),
        "Argon2 error: salt invalid"
    );
    let failure = Authenticator::hash_password_with("hunter2", "").err().unwrap();
    let message = failure.message();
    assert!(message.starts_with("Argon2 error: "));
    assert!(message.len() > "Argon2 error: ".len());
}

#[test]
fn a_failing_random_source_is_an_unspecified_error() {
    assert_eq!(nonce_outcome(Ok([3u8; 12])), Ok([3u8; 12]));
    assert_eq!(nonce_outcome(Err(ring::error::Unspecified)), Err(EncryptionError::Unspecified));
}
