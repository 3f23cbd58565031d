use aes_gcm::aead::{Aead, KeyInit};
use base64::Engine;
use rand::RngCore;
use omnihub_core::crypto::{
    change_master_key, decrypt_with_key, derive_key, encrypt_with_key, generate_key_verification,
    generate_key_verification_v1, generate_key_verification_v3, is_encrypted, re_encrypt_data,
    verification_to_save, verify_master_key, with_raw_master_key, CryptoError, MasterKeyState, RestoreOutcome,
};
use omnihub_core::key_file::{
    derive_encryption_key_with_salt, derive_legacy_encryption_key, machine_fingerprint, open_master_key,
    persisted_salt, seal_master_key,
};

fn state_with(key: &str) -> MasterKeyState {
    let mut s = MasterKeyState::new();
    s.set_master_key(key);
    s
}

#[test]
fn test_encrypt_decrypt() {
    let state = state_with("test_key_123");
    let original = "my_secret_password";
    let encrypted = state.encrypt_password(original);
    assert!(encrypted.starts_with("ENC:V3:"));
    assert_ne!(encrypted, original);
    assert_eq!(state.decrypt_password(&encrypted), original);
}

#[test]
fn test_key_verification() {
    let master_key = "test_key_123";
    let verification = generate_key_verification_v3(master_key);
    assert!(verify_master_key(master_key, &verification));
    assert!(!verify_master_key("wrong_key", &verification));
}

#[test]
fn test_key_verification_v2_still_accepted() {
    let master_key = "test_key_123";
    let verification = generate_key_verification(master_key);
    assert!(verify_master_key(master_key, &verification));
    assert!(!verify_master_key("wrong_key", &verification));
}

#[test]
fn test_key_verification_v1() {
    let master_key = "test_key_123";
    let verification = generate_key_verification_v1(master_key);
    assert!(!verification.starts_with("V2:"));
    assert!(verify_master_key(master_key, &verification));
    assert!(!verify_master_key("wrong_key", &verification));
}

#[test]
fn test_empty_password() {
    let state = state_with("test_key");
    assert_eq!(state.encrypt_password(""), "");
    assert_eq!(state.decrypt_password(""), "");
}

#[test]
fn test_no_master_key() {
    let state = MasterKeyState::new();
    assert_eq!(state.encrypt_password("password123"), "password123");
    assert_eq!(state.decrypt_password("ENC:abc"), "");
}

#[test]
fn test_already_encrypted() {
    let state = state_with("test_key");
    let encrypted = state.encrypt_password("password");
    assert_eq!(state.encrypt_password(&encrypted), encrypted);
}

#[test]
fn test_already_encrypted_v1_v2_v3() {
    let state = state_with("test_key");
    for already in ["ENC:something", "ENC:V2:something", "ENC:V3:something"] {
        assert_eq!(state.encrypt_password(already), already);
        assert!(is_encrypted(already));
    }
}

#[test]
fn test_v3_format_verification() {
    let state = state_with("test_key");
    assert!(state.encrypt_password("secret").starts_with("ENC:V3:"));
    assert_eq!(state.encrypt_password("ENC:something"), "ENC:something");
}

#[test]
fn test_encrypt_with_key_v3() {
    let master_key = "my_master_key";
    let plaintext = "database_password";
    let encrypted = encrypt_with_key(plaintext, master_key);
    assert!(encrypted.starts_with("ENC:V3:"));
    assert_eq!(decrypt_with_key(&encrypted, master_key).unwrap(), plaintext);
    assert!(decrypt_with_key(&encrypted, "wrong_key").is_err());
}

#[test]
fn test_v3_verification_format() {
    let master_key = "v3_verify_key";
    let verification_v3 = generate_key_verification_v3(master_key);
    assert!(verify_master_key(master_key, &verification_v3));
    assert!(!verify_master_key("wrong_key", &verification_v3));
}

#[test]
fn decrypt_with_key_passes_plain_text_through() {
    assert_eq!(decrypt_with_key("not encrypted", "k").unwrap(), "not encrypted");
    assert_eq!(decrypt_with_key("", "k").unwrap(), "");
}

#[test]
fn decrypt_with_key_reports_each_error() {
    assert_eq!(decrypt_with_key("ENC:V3:!!!", "k"), Err(CryptoError::EncodingFailed));
    assert_eq!(decrypt_with_key("ENC:V3:AAAA", "k"), Err(CryptoError::InvalidDataFormat));
    assert_eq!(decrypt_with_key("ENC:AAAA", "k"), Err(CryptoError::InvalidDataFormat));
    let long = format!("ENC:V2:{}", "A".repeat(64));
    assert_eq!(decrypt_with_key(&long, "k"), Err(CryptoError::DecryptionFailed));
}

#[test]
fn re_encrypt_moves_data_to_the_new_key() {
    let enc = encrypt_with_key("secret", "old");
    let moved = re_encrypt_data(&enc, "old", "new").unwrap();
    assert_eq!(decrypt_with_key(&moved, "new").unwrap(), "secret");
    let plain = re_encrypt_data("plain", "old", "new").unwrap();
    assert_eq!(decrypt_with_key(&plain, "new").unwrap(), "plain");
    assert!(re_encrypt_data(&enc, "wrong", "new").is_err());
}

#[test]
fn derive_key_is_32_bytes_and_deterministic() {
    assert_eq!(derive_key("abc").len(), 32);
    assert_eq!(derive_key("abc"), derive_key("abc"));
    assert_ne!(derive_key("abc"), derive_key("abd"));
}

#[test]
fn change_master_key_checks_in_order() {
    let v = generate_key_verification_v3("old");
    assert_eq!(change_master_key(false, Some(&v), "old", "n", "n"), Err(CryptoError::NoPasswordSet));
    assert_eq!(change_master_key(true, None, "old", "n", "n"), Err(CryptoError::NoPasswordSet));
    assert_eq!(change_master_key(true, Some(&v), "bad", "n", "n"), Err(CryptoError::InvalidOldPassword));
    assert_eq!(change_master_key(true, Some(&v), "old", "", ""), Err(CryptoError::EmptyNewPassword));
    assert_eq!(change_master_key(true, Some(&v), "old", "n", "m"), Err(CryptoError::PasswordMismatch));
    let new_v = change_master_key(true, Some(&v), "old", "n", "n").unwrap();
    assert!(verify_master_key("n", &new_v));
}

#[test]
fn verify_and_set_refuses_a_wrong_key() {
    let v = generate_key_verification_v3("right");
    let mut state = MasterKeyState::new();
    assert_eq!(state.verify_and_set_master_key(Some(&v), "wrong"), Err("密码错误"));
    assert!(!state.has_master_key());
    assert!(state.verify_and_set_master_key(Some(&v), "right").is_ok());
    assert!(state.has_master_key());
    state.clear_master_key();
    assert!(!state.has_master_key());
}

#[test]
fn restore_master_key_outcomes() {
    let v = generate_key_verification_v3("kept");
    let mut state = MasterKeyState::new();
    assert_eq!(state.restore_master_key(false, Some("kept"), Some(&v)), RestoreOutcome::NothingToRestore);
    assert_eq!(state.restore_master_key(true, None, Some(&v)), RestoreOutcome::NothingToRestore);
    assert_eq!(state.restore_master_key(true, Some("other"), Some(&v)), RestoreOutcome::StoredKeyRejected);
    assert!(!state.has_master_key());
    assert_eq!(state.restore_master_key(true, Some("kept"), Some(&v)), RestoreOutcome::Restored);
    assert!(state.has_master_key());
}

#[test]
fn test_raw_master_key_for_sync_none_when_unset() {
    assert!(with_raw_master_key(None, |_k: &str| ()).is_none());
    assert_eq!(with_raw_master_key(Some("abc"), |k: &str| k.len()), Some(3));
}

#[test]
fn crypto_error_messages() {
    assert_eq!(CryptoError::DecryptionFailed.message(), "解密失败");
    assert_eq!(CryptoError::PasswordMismatch.message(), "两次输入的新密码不一致");
}

#[test]
fn test_local_file_storage_roundtrip_with_persisted_salt() {
    let fp = machine_fingerprint("x86_64", "mid", "host", "user");
    assert_eq!(fp, "x86_64|mid|host|user");
    let salt = persisted_salt(&[7u8; 20]).unwrap();
    assert_eq!(salt, vec![7u8; 16]);
    assert!(persisted_salt(&[1u8; 15]).is_none());
    let key = derive_encryption_key_with_salt(&fp, &salt);
    let legacy = derive_legacy_encryption_key(&fp);
    let data = seal_master_key(&key, "my_secret_master_key").unwrap();
    assert_eq!(open_master_key(&data, &key, &legacy).as_deref(), Some("my_secret_master_key"));
}

#[test]
fn test_legacy_salt_compatibility_path() {
    let fp = machine_fingerprint("aarch64", "", "h", "u");
    let legacy = derive_legacy_encryption_key(&fp);
    let fresh = derive_encryption_key_with_salt(&fp, &[9u8; 16]);
    let data = seal_master_key(&legacy, "legacy_master_key").unwrap();
    assert_eq!(open_master_key(&data, &fresh, &legacy).as_deref(), Some("legacy_master_key"));
    assert!(open_master_key(&data[..5], &fresh, &legacy).is_none());
}

fn legacy_cipher_text(prefix: &str, master_key: &str, plain: &str, with_salt: bool) -> String {
    let key = derive_key(master_key);
    let cipher = aes_gcm::Aes256Gcm::new(aes_gcm::Key::<aes_gcm::Aes256Gcm>::from_slice(&key));
    let mut nonce_bytes = [0u8; 12];
    rand::thread_rng().fill_bytes(&mut nonce_bytes);
    let ciphertext = cipher
        .encrypt(aes_gcm::Nonce::from_slice(&nonce_bytes), plain.as_bytes())
        .unwrap();
    let mut combined = Vec::new();
    if with_salt {
        let mut salt = [0u8; 16];
        rand::thread_rng().fill_bytes(&mut salt);
        combined.extend_from_slice(&salt);
    }
    combined.extend_from_slice(&nonce_bytes);
    combined.extend_from_slice(&ciphertext);
    format!("{}{}", prefix, base64::engine::general_purpose::STANDARD.encode(&combined))
}

#[test]
fn test_v1_backward_compatibility() {
    let state = state_with("test_key");
    let plaintext = "old_password";
    let v1_encrypted = legacy_cipher_text("ENC:", "test_key", plaintext, false);
    assert_eq!(state.decrypt_password(&v1_encrypted), plaintext);
}

#[test]
fn test_v1_v2_v3_interop() {
    let master_key = "interop_key";
    let state = state_with(master_key);
    let v1_encrypted = legacy_cipher_text("ENC:", master_key, "v1_secret", false);
    let v2_encrypted = legacy_cipher_text("ENC:V2:", master_key, "v2_secret", true);
    let v3_encrypted = state.encrypt_password("v3_secret");
    assert_eq!(state.decrypt_password(&v1_encrypted), "v1_secret");
    assert_eq!(state.decrypt_password(&v2_encrypted), "v2_secret");
    assert_eq!(state.decrypt_password(&v3_encrypted), "v3_secret");
    let wrong = decrypt_with_key(&v3_encrypted, "bad_key");
    assert!(wrong.is_err());
}

#[test]
fn verification_is_written_only_once() {
    assert!(verification_to_save("k1", true).is_none());
    let d = verification_to_save("k1", false).unwrap();
    assert!(verify_master_key("k1", &d));
    assert!(!verify_master_key("k2", &d));
}

#[test]
fn test_raw_master_key_for_sync_roundtrip() {
    let master_key = "sync_roundtrip_key";
    let mut state = MasterKeyState::new();
    let verification = state.set_master_key_with_verification(master_key, false);
    assert!(state.has_master_key());
    assert!(verify_master_key(master_key, &verification.unwrap()));
    // the key storage hands back the key that was set
    let stored = Some(master_key);
    let got = with_raw_master_key(stored, |k: &str| k.to_string());
    assert_eq!(got.as_deref(), Some(master_key));
    let encrypted = state.encrypt_password("database_password");
    assert!(encrypted.starts_with("ENC:V3:"));
    assert_eq!(state.decrypt_password(&encrypted), "database_password");
    state.clear_master_key();
}

#[test]
fn test_raw_master_key_for_sync_cleared_after_clear() {
    let mut state = MasterKeyState::new();
    assert!(state.set_master_key_with_verification("transient_key", true).is_none());
    assert!(state.has_master_key());
    state.clear_master_key();
    assert!(!state.has_master_key());
    // once cleared, the key storage holds nothing
    assert!(with_raw_master_key(None, |k: &str| k.to_string()).is_none());
}
