use identity_gateway::errors::ConfigError;
use identity_gateway::vault::{decrypt, encrypt, parse_master_key};

fn demo_key() -> Vec<u8> {
    // "base64:" marker followed by 32 bytes of 'A' (0x41) encoded in base64.
    parse_master_key("base64:QUFBQUFBQUFBQUFBQUFBQUFBQUFBQUFBQUFBQUFBQUE=").unwrap()
}

#[test]
fn master_key_decodes_with_marker() {
    let key = demo_key();
    assert_eq!(key.len(), 32);
    assert!(key.iter().all(|b| *b == 0x41));
}

#[test]
fn master_key_decodes_without_marker() {
    let key = parse_master_key("QUFBQUFBQUFBQUFBQUFBQUFBQUFBQUFBQUFBQUFBQUE=").unwrap();
    assert_eq!(key.len(), 32);
}

#[test]
fn master_key_rejects_bad_encoding() {
    assert_eq!(
        parse_master_key("base64:!!!not-base64!!!"),
        Err(ConfigError::MasterKeyEncoding)
    );
}

#[test]
fn master_key_rejects_wrong_length() {
    // "c2hvcnQ=" is the base64 of "short": five bytes, not thirty-two.
    assert_eq!(parse_master_key("base64:c2hvcnQ="), Err(ConfigError::MasterKeyLength));
}

#[test]
fn encrypt_then_decrypt_returns_plaintext() {
    let key = demo_key();
    let message = b"provider access token".to_vec();
    let (ciphertext, nonce) = encrypt(&key, &message).unwrap();
    assert_eq!(nonce.len(), 12);
    let recovered = decrypt(&key, &ciphertext, &nonce).unwrap();
    assert_eq!(recovered, message);
}

#[test]
fn ciphertext_is_not_the_plaintext() {
    let key = demo_key();
    let message = b"provider access token".to_vec();
    let (ciphertext, _nonce) = encrypt(&key, &message).unwrap();
    assert_ne!(ciphertext, message);
    // authenticated encryption appends a tag, so the sealed form is longer
    assert!(ciphertext.len() > message.len());
}

#[test]
fn flipping_a_ciphertext_bit_fails_decryption() {
    let key = demo_key();
    let message = b"attested bytes".to_vec();
    let (mut ciphertext, nonce) = encrypt(&key, &message).unwrap();
    ciphertext[0] ^= 0x01;
    assert!(decrypt(&key, &ciphertext, &nonce).is_err());
}

#[test]
fn flipping_a_nonce_bit_fails_decryption() {
    let key = demo_key();
    let message = b"attested bytes".to_vec();
    let (ciphertext, mut nonce) = encrypt(&key, &message).unwrap();
    nonce[0] ^= 0x01;
    assert!(decrypt(&key, &ciphertext, &nonce).is_err());
}

#[test]
fn flipping_a_key_bit_fails_decryption() {
    let mut key = demo_key();
    let message = b"attested bytes".to_vec();
    let (ciphertext, nonce) = encrypt(&key, &message).unwrap();
    key[0] ^= 0x01;
    assert!(decrypt(&key, &ciphertext, &nonce).is_err());
}

#[test]
fn fresh_nonce_per_call() {
    let key = demo_key();
    let message = b"same message".to_vec();
    let (c1, n1) = encrypt(&key, &message).unwrap();
    let (c2, n2) = encrypt(&key, &message).unwrap();
    assert_ne!(n1, n2);
    assert_ne!(c1, c2);
}
