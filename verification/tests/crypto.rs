use common_db::crypto::{
    decrypt, encrypt, unwrap_key, wrap_key, CryptoError, EncryptionKey,
};

use std::collections::HashSet;

#[test]
fn test_encryption_decryption() -> Result<(), CryptoError> {
    let data = b"Informacao confidencial do paciente";

    let key = EncryptionKey::generate();

    let encrypted = encrypt(data, &key)?;

    assert_ne!(&encrypted.ciphertext[..], &data[..]);

    let decrypted = decrypt(&encrypted, &key)?;

    assert_eq!(&decrypted[..], &data[..]);

    Ok(())
}

#[test]
fn test_key_wrapping() -> Result<(), CryptoError> {
    let original_key = EncryptionKey::generate();

    let password = "senha-forte-do-admin";

    let wrapped = wrap_key(&original_key, password)?;

    let unwrapped_key = unwrap_key(&wrapped.data, password, &wrapped.salt)?;

    assert_eq!(original_key.as_bytes(), unwrapped_key.as_bytes());

    let result = unwrap_key(&wrapped.data, "senha-errada", &wrapped.salt);
    assert!(result.is_err());

    Ok(())
}

#[test]
fn test_encryption_with_different_keys() -> Result<(), CryptoError> {
    let data = b"Dados de teste";

    let key1 = EncryptionKey::generate();
    let key2 = EncryptionKey::generate();

    assert_ne!(key1.as_bytes(), key2.as_bytes());

    let encrypted = encrypt(data, &key1)?;

    let result = decrypt(&encrypted, &key2);
    assert!(result.is_err());

    let decrypted = decrypt(&encrypted, &key1)?;
    assert_eq!(&decrypted[..], &data[..]);

    Ok(())
}

#[test]
fn scenario_field_encryption_round_trip() {
    let key = EncryptionKey::generate();
    let data = b"Informacao confidencial";

    let enc = encrypt(data, &key).unwrap();
    assert_ne!(&enc.ciphertext[..], &data[..]);
    assert_eq!(enc.ciphertext.len(), data.len() + 16);
    assert_eq!(enc.nonce.len(), 12);

    let decrypted = decrypt(&enc, &key).unwrap();
    assert_eq!(&decrypted[..], &data[..]);
}

#[test]
fn scenario_wrong_password_is_decryption_failed() {
    let key = EncryptionKey::generate();

    let wrapped = wrap_key(&key, "senha-forte-do-admin").unwrap();
    // The wrapped bytes are not the key in the clear.
    assert_eq!(wrapped.data.ciphertext.len(), 48);
    assert_ne!(&wrapped.data.ciphertext[..32], key.as_bytes());

    let result = unwrap_key(&wrapped.data, "senha-errada", &wrapped.salt);
    assert!(matches!(result, Err(CryptoError::DecryptionFailed)));
}

#[test]
fn wrap_round_trip_and_salt_matters() {
    let key = EncryptionKey::generate();
    let password = "uma-senha-qualquer";

    let wrapped = wrap_key(&key, password).unwrap();
    let unwrapped = unwrap_key(&wrapped.data, password, &wrapped.salt).unwrap();
    assert_eq!(key.as_bytes(), unwrapped.as_bytes());

    // The same password with another salt derives another wrapping
    // key, so unwrapping must fail.
    let other = wrap_key(&key, password).unwrap();
    assert_ne!(wrapped.salt, other.salt);
    let result = unwrap_key(&wrapped.data, password, &other.salt);
    assert!(matches!(result, Err(CryptoError::DecryptionFailed)));
}

#[test]
fn associated_data_is_bound_to_the_ciphertext() {
    let key = EncryptionKey::generate();
    let data = b"nota clinica";
    let aad = b"patient:42";

    let enc = common_db::crypto::encrypt_with_aad(data, aad, &key).unwrap();
    let decrypted = common_db::crypto::decrypt_with_aad(&enc, aad, &key).unwrap();
    assert_eq!(&decrypted[..], &data[..]);

    // A different associated data value must be rejected.
    let result = common_db::crypto::decrypt_with_aad(&enc, b"patient:43", &key);
    assert!(matches!(result, Err(CryptoError::DecryptionFailed)));

    // And a box sealed without associated data opens without it.
    let plain = encrypt(data, &key).unwrap();
    assert!(matches!(
        common_db::crypto::decrypt_with_aad(&plain, aad, &key),
        Err(CryptoError::DecryptionFailed)
    ));
    assert_eq!(&decrypt(&plain, &key).unwrap()[..], &data[..]);
}

#[test]
fn tampering_any_single_bit_fails() {
    let key = EncryptionKey::generate();
    let data = b"registro clinico";
    let enc = encrypt(data, &key).unwrap();

    // Flip each bit of the ciphertext (tag included).
    for byte in 0..enc.ciphertext.len() {
        for bit in 0..8 {
            let mut tampered = common_db::crypto::EncryptedData {
                ciphertext: enc.ciphertext.clone(),
                nonce: enc.nonce.clone(),
            };
            tampered.ciphertext[byte] ^= 1 << bit;
            assert_eq!(
                decrypt(&tampered, &key).unwrap_err(),
                CryptoError::DecryptionFailed
            );
        }
    }

    // Flip each bit of the nonce.
    for byte in 0..enc.nonce.len() {
        for bit in 0..8 {
            let mut tampered = common_db::crypto::EncryptedData {
                ciphertext: enc.ciphertext.clone(),
                nonce: enc.nonce.clone(),
            };
            tampered.nonce[byte] ^= 1 << bit;
            assert_eq!(
                decrypt(&tampered, &key).unwrap_err(),
                CryptoError::DecryptionFailed
            );
        }
    }
}

#[test]
fn nonces_do_not_collide() {
    let key = EncryptionKey::generate();
    let mut seen: HashSet<Vec<u8>> = HashSet::new();
    for _ in 0..10_000 {
        let enc = encrypt(b"x", &key).unwrap();
        assert_eq!(enc.nonce.len(), 12);
        assert!(seen.insert(enc.nonce), "a nonce was generated twice");
    }
}

#[test]
fn from_bytes_accepts_exactly_32() {
    let bytes = [7u8; 32];
    let key = EncryptionKey::from_bytes(&bytes).unwrap();
    assert_eq!(key.as_bytes(), &bytes[..]);

    let short = [7u8; 31];
    assert!(matches!(
        EncryptionKey::from_bytes(&short),
        Err(CryptoError::InvalidData(31))
    ));
    let long = [7u8; 33];
    assert!(matches!(
        EncryptionKey::from_bytes(&long),
        Err(CryptoError::InvalidData(33))
    ));
}

#[test]
fn decrypt_rejects_bad_nonce_length() {
    let key = EncryptionKey::generate();
    let enc = encrypt(b"abc", &key).unwrap();

    let bad = common_db::crypto::EncryptedData {
        ciphertext: enc.ciphertext.clone(),
        nonce: vec![0u8; 13],
    };
    assert_eq!(decrypt(&bad, &key).unwrap_err(), CryptoError::InvalidData(13));
}

#[test]
fn unwrap_rejects_bad_lengths() {
    let key = EncryptionKey::generate();
    let wrapped = wrap_key(&key, "senha").unwrap();

    let bad_nonce = common_db::crypto::EncryptedData {
        ciphertext: wrapped.data.ciphertext.clone(),
        nonce: vec![0u8; 11],
    };
    assert!(matches!(
        unwrap_key(&bad_nonce, "senha", &wrapped.salt),
        Err(CryptoError::InvalidData(11))
    ));

    let bad_salt = vec![0u8; 15];
    assert!(matches!(
        unwrap_key(&wrapped.data, "senha", &bad_salt),
        Err(CryptoError::InvalidData(15))
    ));
}
