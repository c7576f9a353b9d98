use aes_gcm::aead::{Aead, KeyInit};
use base64::Engine;
use sat_api::crypto::{decrypt, encrypt, get_key, open_with_key, seal_with_nonce};

const KEY: &str = "000102030405060708090a0b0c0d0e0f101112131415161718191A1B1C1D1E1F";

#[test]
fn key_from_setting() {
    let key = get_key(Some(KEY)).unwrap();
    assert_eq!(key, (0u8..32).collect::<Vec<u8>>());
    assert_eq!(get_key(None).unwrap_err().0, "CREDENTIAL_ENCRYPTION_KEY not set");
    assert_eq!(get_key(Some("zz")).unwrap_err().0, "CREDENTIAL_ENCRYPTION_KEY is not valid hex");
    assert_eq!(get_key(Some("abc")).unwrap_err().0, "CREDENTIAL_ENCRYPTION_KEY is not valid hex");
    assert_eq!(
        get_key(Some("0011")).unwrap_err().0,
        "CREDENTIAL_ENCRYPTION_KEY must be 32 bytes (64 hex chars)"
    );
}

#[test]
fn encrypt_then_decrypt_round_trips() {
    for plaintext in ["", "s3cret", "contraseña ñandú", "x".repeat(1000).as_str()] {
        let sealed = encrypt(Some(KEY), plaintext).unwrap();
        assert_ne!(sealed, plaintext);
        assert_eq!(decrypt(Some(KEY), &sealed).unwrap(), plaintext);
    }
}

#[test]
fn sealed_layout_is_nonce_ciphertext_tag() {
    let key = get_key(Some(KEY)).unwrap();
    let nonce = vec![9u8; 12];
    let sealed = seal_with_nonce(&key, &nonce, "abc").unwrap();
    // 12 + 3 + 16 = 31 bytes -> 44 base64 characters
    assert_eq!(sealed.len(), 44);
    let again = seal_with_nonce(&key, &nonce, "abc").unwrap();
    assert_eq!(sealed, again);
    assert_eq!(open_with_key(&key, &sealed).unwrap(), "abc");
    let other = seal_with_nonce(&key, &vec![1u8; 12], "abc").unwrap();
    assert_ne!(sealed, other);
}

#[test]
fn decrypt_errors() {
    assert_eq!(decrypt(None, "AAAA").unwrap_err().0, "CREDENTIAL_ENCRYPTION_KEY not set");
    assert_eq!(decrypt(Some(KEY), "not base64!").unwrap_err().0, "invalid base64");
    assert_eq!(decrypt(Some(KEY), "AAAA").unwrap_err().0, "ciphertext too short");
    let sealed = encrypt(Some(KEY), "hello").unwrap();
    let other_key = "ff".repeat(32);
    assert_eq!(decrypt(Some(&other_key), &sealed).unwrap_err().0, "aead::Error");
}

#[test]
fn decrypt_rejects_non_utf8_plaintext() {
    let key = get_key(Some(KEY)).unwrap();
    let cipher = aes_gcm::Aes256Gcm::new_from_slice(&key).unwrap();
    let nonce = [3u8; 12];
    let ct = cipher.encrypt(aes_gcm::Nonce::from_slice(&nonce), &[0xffu8, 0xfe][..]).unwrap();
    let mut combined = nonce.to_vec();
    combined.extend_from_slice(&ct);
    let sealed = base64::engine::general_purpose::STANDARD.encode(&combined);
    assert_eq!(decrypt(Some(KEY), &sealed).unwrap_err().0, "decrypted data is not valid UTF-8");
}
