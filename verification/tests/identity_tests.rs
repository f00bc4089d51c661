use envelope_crypto::bytes_to_hex;
use envelope_crypto::masterkey_decryptor::decrypt_private_key;
use envelope_crypto::masterkey_generator::encrypt_master_key;

#[test]
fn provision_produces_well_formed_identity() {
    let identity = encrypt_master_key("correct horse battery staple");
    assert_eq!(identity.nonce().len(), 12);
    assert_eq!(identity.encrypted_private_key().len(), 48);
    assert_eq!(identity.public_key().len(), 32);
    let salt = identity.salt();
    assert_eq!(salt.len(), 22);
    assert_eq!(identity.nonce_hex(), bytes_to_hex(&identity.nonce()));
    assert_eq!(
        identity.encrypted_private_key_hex(),
        bytes_to_hex(&identity.encrypted_private_key())
    );
    assert_eq!(identity.public_key_hex(), bytes_to_hex(&identity.public_key()));
}

#[test]
fn private_key_recovers_with_correct_password() {
    let identity = encrypt_master_key("correct horse battery staple");
    let recovered = decrypt_private_key(
        "correct horse battery staple",
        &identity.salt(),
        &identity.encrypted_private_key(),
        &identity.nonce(),
    );
    assert!(recovered.success());
    assert_eq!(recovered.private_key().len(), 32);
    assert_eq!(recovered.private_key_hex(), bytes_to_hex(&recovered.private_key()));
    assert_eq!(recovered.error_message(), "");
}

#[test]
fn private_key_recovery_fails_with_wrong_password() {
    let identity = encrypt_master_key("correct horse battery staple");
    let recovered = decrypt_private_key(
        "incorrect horse battery staple",
        &identity.salt(),
        &identity.encrypted_private_key(),
        &identity.nonce(),
    );
    assert!(!recovered.success());
    assert!(recovered.private_key().is_empty());
    assert_eq!(recovered.private_key_hex(), "");
    assert_eq!(
        recovered.error_message(),
        "Decryption failed. Please check your password."
    );
}

#[test]
fn private_key_recovery_rejects_short_nonce() {
    let recovered = decrypt_private_key("password", "s0m3s4lt", &[0u8; 48], &[0u8; 11]);
    assert!(!recovered.success());
    assert_eq!(recovered.error_message(), "Nonce must be 12 bytes, got 11");
}

#[test]
fn private_key_recovery_rejects_wrong_ciphertext_length() {
    let recovered = decrypt_private_key("password", "s0m3s4lt", &[0u8; 47], &[0u8; 12]);
    assert!(!recovered.success());
    assert_eq!(recovered.error_message(), "Encrypted key must be 48 bytes, got 47");
}

#[test]
fn private_key_recovery_rejects_short_salt() {
    let recovered = decrypt_private_key("password", "abc", &[0u8; 48], &[0u8; 12]);
    assert!(!recovered.success());
    assert_eq!(
        recovered.error_message(),
        "Salt or password length is invalid for key derivation"
    );
}
