use envelope_crypto::decrypt_file::{decrypt_file, DecryptionContext};
use envelope_crypto::encrypt_file::encrypt_file;
use envelope_crypto::hash_file;
use envelope_crypto::hex_to_bytes;
use envelope_crypto::masterkey_generator::encrypt_master_key;

const PASSWORD: &str = "correct horse battery staple";
const PLAINTEXT: &[u8] = b"hello world";

/// Provisions an identity for PASSWORD, encrypts `plaintext` for its public
/// key, and returns the complete decryption context.
fn make_context(plaintext: &[u8]) -> DecryptionContext {
    let identity = encrypt_master_key(PASSWORD);
    let encrypted = encrypt_file(plaintext, &identity.public_key());
    assert!(encrypted.success());
    DecryptionContext {
        encrypted_data: encrypted.encrypted_data(),
        password: PASSWORD.to_string(),
        pk_salt: identity.salt(),
        encrypted_private_key: identity.encrypted_private_key(),
        pk_nonce: identity.nonce(),
        ephemeral_public_key: encrypted.ephemeral_public_key(),
        encrypted_dek: encrypted.encrypted_dek(),
        dek_nonce: hex_to_bytes(&encrypted.dek_nonce_hex()).unwrap(),
        file_nonce: hex_to_bytes(&encrypted.file_nonce_hex()).unwrap(),
    }
}

fn expect_failure(context: DecryptionContext, expected_message: &str) {
    let result = decrypt_file(context);
    assert!(!result.success());
    assert!(result.decrypted_data().is_empty());
    assert_eq!(result.file_hash_hex(), "");
    assert_eq!(result.error_message(), expected_message);
}

#[test]
fn encrypt_rejects_wrong_key_length() {
    let result = encrypt_file(b"data", &[0u8; 31]);
    assert!(!result.success());
    assert!(result.encrypted_data().is_empty());
    assert!(result.encrypted_dek().is_empty());
    assert!(result.ephemeral_public_key().is_empty());
    assert_eq!(result.file_nonce_hex(), "");
    assert_eq!(result.dek_nonce_hex(), "");
    assert_eq!(result.original_hash_hex(), "");
    assert_eq!(result.error_message(), "Public key must be 32 bytes, got 31");
}

#[test]
fn encrypt_produces_well_formed_bundle() {
    let identity = encrypt_master_key(PASSWORD);
    let encrypted = encrypt_file(PLAINTEXT, &identity.public_key());
    assert!(encrypted.success());
    assert_eq!(encrypted.encrypted_data().len(), PLAINTEXT.len() + 16);
    assert_eq!(encrypted.encrypted_dek().len(), 48);
    assert_eq!(encrypted.ephemeral_public_key().len(), 32);
    assert_eq!(encrypted.file_nonce_hex().len(), 24);
    assert_eq!(encrypted.dek_nonce_hex().len(), 24);
    assert_eq!(encrypted.original_hash_hex(), hash_file(PLAINTEXT));
    assert_eq!(
        encrypted.encrypted_dek_hex(),
        envelope_crypto::bytes_to_hex(&encrypted.encrypted_dek())
    );
    assert_eq!(
        encrypted.ephemeral_public_key_hex(),
        envelope_crypto::bytes_to_hex(&encrypted.ephemeral_public_key())
    );
    assert_eq!(encrypted.error_message(), "");
}

#[test]
fn round_trip_recovers_plaintext_and_hash() {
    let context = make_context(PLAINTEXT);
    let ciphertext_len = context.encrypted_data.len();
    let result = decrypt_file(context);
    assert!(result.success());
    assert_eq!(result.decrypted_data(), PLAINTEXT.to_vec());
    assert_eq!(result.decrypted_data().len() + 16, ciphertext_len);
    assert_eq!(
        result.file_hash_hex(),
        "b94d27b9934d3e08a52e52d7da7dabfac484efe37a5380ee9088f7ace2efcde9"
    );
    assert_eq!(result.error_message(), "");
}

#[test]
fn round_trip_recovers_empty_plaintext() {
    let context = make_context(b"");
    let result = decrypt_file(context);
    assert!(result.success());
    assert!(result.decrypted_data().is_empty());
    assert_eq!(result.file_hash_hex(), hash_file(b""));
}

#[test]
fn wrong_password_fails_at_private_key_recovery() {
    let mut context = make_context(PLAINTEXT);
    context.password = "incorrect horse battery staple".to_string();
    expect_failure(
        context,
        "Private key decryption failed: Decryption failed. Please check your password.",
    );
}

#[test]
fn short_file_nonce_is_rejected() {
    let mut context = make_context(PLAINTEXT);
    context.file_nonce.pop();
    expect_failure(context, "File Nonce must be 12 bytes, got 11");
}

#[test]
fn short_dek_nonce_is_rejected() {
    let mut context = make_context(PLAINTEXT);
    context.dek_nonce.pop();
    expect_failure(context, "DEK Nonce must be 12 bytes, got 11");
}

#[test]
fn short_ephemeral_key_is_rejected() {
    let mut context = make_context(PLAINTEXT);
    context.ephemeral_public_key.pop();
    expect_failure(context, "Ephemeral Public Key must be 32 bytes, got 31");
}

#[test]
fn tampered_encrypted_data_fails() {
    let mut context = make_context(PLAINTEXT);
    context.encrypted_data[0] ^= 1;
    expect_failure(context, "File decryption failed. Invalid DEK or corrupted data.");
}

#[test]
fn tampered_encrypted_dek_fails() {
    let mut context = make_context(PLAINTEXT);
    context.encrypted_dek[0] ^= 1;
    expect_failure(
        context,
        "DEK decryption failed. Invalid private key or corrupted data.",
    );
}

#[test]
fn tampered_file_nonce_fails() {
    let mut context = make_context(PLAINTEXT);
    context.file_nonce[0] ^= 1;
    expect_failure(context, "File decryption failed. Invalid DEK or corrupted data.");
}

#[test]
fn tampered_dek_nonce_fails() {
    let mut context = make_context(PLAINTEXT);
    context.dek_nonce[0] ^= 1;
    expect_failure(
        context,
        "DEK decryption failed. Invalid private key or corrupted data.",
    );
}

#[test]
fn tampered_ephemeral_public_key_fails() {
    let mut context = make_context(PLAINTEXT);
    context.ephemeral_public_key[0] ^= 1;
    expect_failure(
        context,
        "DEK decryption failed. Invalid private key or corrupted data.",
    );
}

#[test]
fn tampered_sealed_private_key_fails() {
    let mut context = make_context(PLAINTEXT);
    context.encrypted_private_key[0] ^= 1;
    expect_failure(
        context,
        "Private key decryption failed: Decryption failed. Please check your password.",
    );
}

#[test]
fn tampered_identity_nonce_fails() {
    let mut context = make_context(PLAINTEXT);
    context.pk_nonce[0] ^= 1;
    expect_failure(
        context,
        "Private key decryption failed: Decryption failed. Please check your password.",
    );
}
