use ledger_vault::crypto::fresh_nonce;
use ledger_vault::encrypted_field::{
    decode_amount, decrypt_amount, decrypt_bytes, encode_amount, encrypt_amount,
    encrypt_amount_with_nonce, encrypt_bytes, encrypt_bytes_with_nonce, EncryptedField,
    EncryptionError,
};
use ledger_vault::keys::{
    concat_bytes, decrypt_user_key, encrypt_user_key, encrypt_user_key_with_nonce,
    generate_random_key, KeyManagementError,
};

#[test]
fn test_encrypt_decrypt_f64() {
    let key = [0u8; 32];
    let data: f64 = 42.0;
    let encrypted_field = encrypt_amount(data.to_bits(), &key).expect("Encryption failed");
    let decrypted = decrypt_amount(&encrypted_field, &key).expect("Decryption failed");
    let decrypted_data = f64::from_bits(decrypted);
    assert_eq!(data, decrypted_data);
}

#[test]
fn test_encrypt_decrypt_string() {
    let key = [0u8; 32];
    let data = String::from("Hello, world!");
    let encrypted_field = encrypt_bytes(data.as_bytes(), &key).expect("Encryption failed");
    let decrypted = decrypt_bytes(&encrypted_field, &key).expect("Decryption failed");
    let decrypted_data = String::from_utf8(decrypted).expect("Decryption failed");
    assert_eq!(data, decrypted_data);
}

#[test]
fn test_decrypt_with_wrong_key_fails() {
    let key = [0u8; 32];
    let wrong_key = [1u8; 32];
    let data: f64 = 42.0;
    let encrypted_field = encrypt_amount(data.to_bits(), &key).expect("Encryption failed");
    let result = decrypt_amount(&encrypted_field, &wrong_key);
    assert!(result.is_err(), "Decryption should fail with wrong key");
    assert_eq!(result, Err(EncryptionError::EncryptionError));
}

#[test]
fn test_encrypt_with_invalid_key_length() {
    let key = [0u8; 16];
    let data: f64 = 42.0;
    let result = encrypt_amount(data.to_bits(), &key);
    assert!(
        matches!(result, Err(EncryptionError::InvalidKeyLength)),
        "Encryption should fail with InvalidKeyLength error"
    );
}

#[test]
fn decrypt_with_short_key_is_invalid_key_length() {
    let key = [3u8; 32];
    let field = encrypt_amount(5, &key).unwrap();
    assert_eq!(decrypt_amount(&field, &key[..31]), Err(EncryptionError::InvalidKeyLength));
}

#[test]
fn amount_encoding_is_little_endian() {
    let bytes = encode_amount(0x0102_0304_0506_0708);
    assert_eq!(bytes, vec![8, 7, 6, 5, 4, 3, 2, 1]);
    assert_eq!(decode_amount(&bytes), Some(0x0102_0304_0506_0708));
    assert_eq!(decode_amount(&[1, 2, 3]), None);
    assert_eq!(decode_amount(&encode_amount(u64::MAX)), Some(u64::MAX));
}

#[test]
fn round_trip_of_several_amounts() {
    let key = generate_random_key();
    assert_eq!(key.len(), 32);
    for v in [0u64, 1, 250, 1000, 123_456_789, u64::MAX] {
        let field = encrypt_amount(v, &key).unwrap();
        assert_eq!(decrypt_amount(&field, &key), Ok(v));
    }
}

#[test]
fn key_isolation_fails_with_encryption_error() {
    let k1 = generate_random_key();
    let k2 = generate_random_key();
    assert_ne!(k1, k2);
    let field = encrypt_amount(750, &k1).unwrap();
    assert_eq!(decrypt_amount(&field, &k2), Err(EncryptionError::EncryptionError));
}

#[test]
fn nonces_are_fresh_on_every_encryption() {
    let key = [9u8; 32];
    let mut seen: Vec<Vec<u8>> = Vec::new();
    for _ in 0..200 {
        let field = encrypt_amount(1000, &key).unwrap();
        assert_eq!(field.nonce.len(), 12);
        assert!(!seen.contains(&field.ciphertext));
        seen.push(field.ciphertext);
    }
}

#[test]
fn sealing_with_a_given_nonce_keeps_it_and_appends_a_tag() {
    let key = [5u8; 32];
    let nonce = vec![1u8; 12];
    let field = encrypt_bytes_with_nonce(b"abc", &key, nonce.clone()).unwrap();
    assert_eq!(field.nonce, nonce);
    assert_eq!(field.ciphertext.len(), 3 + 16);
    assert_ne!(&field.ciphertext[..3], b"abc");
    let again = encrypt_bytes_with_nonce(b"abc", &key, nonce.clone()).unwrap();
    assert_eq!(again.ciphertext, field.ciphertext);
    let amount = encrypt_amount_with_nonce(7, &key, nonce.clone()).unwrap();
    assert_eq!(amount.ciphertext.len(), 8 + 16);
    assert_eq!(decrypt_amount(&amount, &key), Ok(7));
}

#[test]
fn tampered_ciphertext_fails() {
    let key = [5u8; 32];
    let mut field = encrypt_amount(10, &key).unwrap();
    field.ciphertext[0] ^= 1;
    assert_eq!(decrypt_amount(&field, &key), Err(EncryptionError::EncryptionError));
}

#[test]
fn malformed_nonce_fails() {
    let key = [5u8; 32];
    let field = encrypt_amount(10, &key).unwrap();
    let bad = EncryptedField::new(vec![0u8; 5], field.ciphertext.clone());
    assert_eq!(bad.nonce, vec![0u8; 5]);
    assert_eq!(decrypt_amount(&bad, &key), Err(EncryptionError::EncryptionError));
}

#[test]
fn non_amount_plaintext_is_a_serialization_error() {
    let key = [5u8; 32];
    let field = encrypt_bytes(b"abc", &key).unwrap();
    assert_eq!(decrypt_amount(&field, &key), Err(EncryptionError::SerializationError));
}

#[test]
fn envelope_round_trip_and_wrong_master_key() {
    let master = [0x11u8; 32];
    let wrong = [0x22u8; 32];
    let user_key = generate_random_key();
    let wrapped = encrypt_user_key(&user_key, &master).unwrap();
    assert_eq!(wrapped.len(), 12 + 32 + 16);
    assert_eq!(decrypt_user_key(&wrapped, &master), Ok(user_key.clone()));
    assert_eq!(decrypt_user_key(&wrapped, &wrong), Err(KeyManagementError::EncryptionError));
}

#[test]
fn envelope_with_a_given_nonce_starts_with_it() {
    let master = [0x11u8; 32];
    let nonce = [4u8; 12];
    let wrapped = encrypt_user_key_with_nonce(&[8u8; 32], &master, &nonce).unwrap();
    assert_eq!(&wrapped[..12], &nonce);
    assert_eq!(decrypt_user_key(&wrapped, &master), Ok(vec![8u8; 32]));
}

#[test]
fn envelope_errors() {
    let master = [0x11u8; 32];
    assert_eq!(encrypt_user_key(&[1u8; 32], &[0u8; 16]), Err(KeyManagementError::InvalidKeyLength));
    assert_eq!(decrypt_user_key(&[0u8; 60], &[0u8; 31]), Err(KeyManagementError::InvalidKeyLength));
    assert_eq!(decrypt_user_key(&[0u8; 11], &master), Err(KeyManagementError::EncryptionError));
    let mut wrapped = encrypt_user_key(&[1u8; 32], &master).unwrap();
    let last = wrapped.len() - 1;
    wrapped[last] ^= 0x80;
    assert_eq!(decrypt_user_key(&wrapped, &master), Err(KeyManagementError::EncryptionError));
}

#[test]
fn concatenation_and_fresh_nonces() {
    assert_eq!(concat_bytes(&[1, 2], &[3]), vec![1, 2, 3]);
    assert_eq!(fresh_nonce().len(), 12);
}
