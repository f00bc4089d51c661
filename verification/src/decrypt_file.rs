//! Envelope decryption: recovers the user's private key with their password,
//! derives the Diffie-Hellman shared secret with the bundle's ephemeral
//! public key, unseals the data-encryption key (DEK), and finally unseals the
//! file. Every step fails closed and short-circuits the rest.

use vstd::prelude::*;
use vstd::string::StringExecFns;

use crate::decfmt::{dec_of, usize_to_dec};
use crate::hexcodec::hex_of;
use crate::masterkey_decryptor;
use crate::masterkey_decryptor::recover_private_key_model;
use crate::primitives;
use crate::primitives::{
    gcm_open_of, gcm_plaintext_fits, gcm_seal_of, sha256_of, x25519_public_of, x25519_shared_of,
};
use crate::{kdf_input_ok, kek_of};

verus! {

/// Everything one decryption needs: the bundle fields, the password and the
/// sealed identity. The secret fields are wiped when decryption finishes.
pub struct DecryptionContext {
    pub encrypted_data: Vec<u8>,
    pub password: String,
    pub pk_salt: String,
    pub encrypted_private_key: Vec<u8>,
    pub pk_nonce: Vec<u8>,
    pub ephemeral_public_key: Vec<u8>,
    pub encrypted_dek: Vec<u8>,
    pub dek_nonce: Vec<u8>,
    pub file_nonce: Vec<u8>,
}

/// Why envelope decryption failed. Recovery failures are deliberately coarse:
/// a wrong password and corrupted data are indistinguishable. The length
/// variants record the offending length, which the reported message repeats.
pub enum DecryptError {
    /// Private-key recovery failed (length checks or tag verification).
    PrivateKeyRecovery(masterkey_decryptor::PrivateKeyError),
    /// The recovered private key is not 32 bytes.
    PrivateKeyLength(nat),
    /// The ephemeral public key is not 32 bytes.
    EphemeralKeyLength(nat),
    /// The DEK nonce is not 12 bytes.
    DekNonceLength(nat),
    /// The file nonce is not 12 bytes.
    FileNonceLength(nat),
    /// The DEK did not unseal: wrong identity key or corrupted bundle.
    DekRecovery,
    /// The unsealed DEK is not 32 bytes; structurally impossible after a
    /// 48-byte ciphertext unseals, but checked defensively.
    DekLength(nat),
    /// The file did not unseal: wrong DEK or corrupted bundle.
    FileRecovery,
}

/// The message reported for each failure. The private-key stage repeats the
/// recovery step's own message after its prefix.
pub open spec fn decrypt_error_message(e: DecryptError) -> Seq<char> {
    match e {
        DecryptError::PrivateKeyRecovery(inner) => "Private key decryption failed: "@
            + masterkey_decryptor::private_key_error_message(inner),
        DecryptError::PrivateKeyLength(got) => "Private Key must be 32 bytes, got "@ + dec_of(got),
        DecryptError::EphemeralKeyLength(got) => "Ephemeral Public Key must be 32 bytes, got "@
            + dec_of(got),
        DecryptError::DekNonceLength(got) => "DEK Nonce must be 12 bytes, got "@ + dec_of(got),
        DecryptError::FileNonceLength(got) => "File Nonce must be 12 bytes, got "@ + dec_of(got),
        DecryptError::DekRecovery => "DEK decryption failed. Invalid private key or corrupted data."@,
        DecryptError::DekLength(got) => "Decrypted DEK must be 32 bytes, got "@ + dec_of(got),
        DecryptError::FileRecovery => "File decryption failed. Invalid DEK or corrupted data."@,
    }
}

/// The first length check that fails among the four validated fields.
pub open spec fn length_error(
    private_key: Seq<u8>,
    ephemeral_public_key: Seq<u8>,
    dek_nonce: Seq<u8>,
    file_nonce: Seq<u8>,
) -> DecryptError {
    if private_key.len() != 32 {
        DecryptError::PrivateKeyLength(private_key.len())
    } else if ephemeral_public_key.len() != 32 {
        DecryptError::EphemeralKeyLength(ephemeral_public_key.len())
    } else if dek_nonce.len() != 12 {
        DecryptError::DekNonceLength(dek_nonce.len())
    } else {
        DecryptError::FileNonceLength(file_nonce.len())
    }
}

/// What decryption returns, step by step: recover the private key, validate
/// the lengths of everything the remaining steps use, derive the shared
/// secret, unseal the DEK, check its length, and unseal the file.
pub open spec fn decrypt_model(
    password: Seq<char>,
    pk_salt: Seq<char>,
    encrypted_private_key: Seq<u8>,
    pk_nonce: Seq<u8>,
    ephemeral_public_key: Seq<u8>,
    encrypted_dek: Seq<u8>,
    dek_nonce: Seq<u8>,
    file_nonce: Seq<u8>,
    encrypted_data: Seq<u8>,
) -> Result<Seq<u8>, DecryptError> {
    match recover_private_key_model(password, pk_salt, encrypted_private_key, pk_nonce) {
        Err(e) => Err(DecryptError::PrivateKeyRecovery(e)),
        Ok(private_key) => if private_key.len() != 32 || ephemeral_public_key.len() != 32
            || dek_nonce.len() != 12 || file_nonce.len() != 12 {
            Err(length_error(private_key, ephemeral_public_key, dek_nonce, file_nonce))
        } else {
            let shared_secret = x25519_shared_of(private_key, ephemeral_public_key);
            match gcm_open_of(shared_secret, dek_nonce, encrypted_dek) {
                None => Err(DecryptError::DekRecovery),
                Some(dek) => if dek.len() != 32 {
                    Err(DecryptError::DekLength(dek.len()))
                } else {
                    match gcm_open_of(dek, file_nonce, encrypted_data) {
                        None => Err(DecryptError::FileRecovery),
                        Some(file) => Ok(file),
                    }
                },
            }
        },
    }
}

/// A bundle and a sealed identity that belong together: the sealed private
/// key holds `identity_secret` under the password-derived key, the ephemeral
/// public key matches `ephemeral_secret`, the sealed DEK holds `dek` under
/// the two keypairs' shared secret, and the sealed data holds `file` under
/// the DEK. This is exactly the shape `encrypt_file` and
/// `encrypt_master_key` produce for this password.
pub open spec fn matching_bundle(
    password: Seq<char>,
    pk_salt: Seq<char>,
    encrypted_private_key: Seq<u8>,
    pk_nonce: Seq<u8>,
    ephemeral_public_key: Seq<u8>,
    encrypted_dek: Seq<u8>,
    dek_nonce: Seq<u8>,
    file_nonce: Seq<u8>,
    encrypted_data: Seq<u8>,
    file: Seq<u8>,
    identity_secret: Seq<u8>,
    dek: Seq<u8>,
    ephemeral_secret: Seq<u8>,
) -> bool {
    &&& kdf_input_ok(password, pk_salt)
    &&& identity_secret.len() == 32
    &&& dek.len() == 32
    &&& ephemeral_secret.len() == 32
    &&& pk_nonce.len() == 12
    &&& dek_nonce.len() == 12
    &&& file_nonce.len() == 12
    &&& ephemeral_public_key.len() == 32
    &&& encrypted_private_key.len() == 48
    &&& encrypted_dek.len() == 48
    &&& encrypted_data.len() == file.len() + 16
    &&& gcm_plaintext_fits(file)
    &&& encrypted_private_key == gcm_seal_of(kek_of(password, pk_salt), pk_nonce, identity_secret)
    &&& ephemeral_public_key == x25519_public_of(ephemeral_secret)
    &&& encrypted_dek == gcm_seal_of(
        x25519_shared_of(ephemeral_secret, x25519_public_of(identity_secret)),
        dek_nonce,
        dek,
    )
    &&& encrypted_data == gcm_seal_of(dek, file_nonce, file)
}

/// The outcome of one envelope decryption. On failure the data is empty and
/// the message says only what a caller may learn.
pub struct DecryptedFileResult {
    pub success: bool,
    pub decrypted_data: Vec<u8>,
    pub file_hash_hex: String,
    pub error_message: String,
}

impl DecryptedFileResult {
    pub fn success(&self) -> (r: bool)
        ensures
            r == self.success,
    {
        self.success
    }

    pub fn decrypted_data(&self) -> (r: Vec<u8>)
        ensures
            r@ == self.decrypted_data@,
    {
        self.decrypted_data.clone()
    }

    pub fn file_hash_hex(&self) -> (r: String)
        ensures
            r@ == self.file_hash_hex@,
    {
        self.file_hash_hex.clone()
    }

    pub fn error_message(&self) -> (r: String)
        ensures
            r@ == self.error_message@,
    {
        self.error_message.clone()
    }
}

fn failure_result(message: String) -> (r: DecryptedFileResult)
    ensures
        !r.success,
        r.decrypted_data@.len() == 0,
        r.file_hash_hex@.len() == 0,
        r.error_message@ == message@,
{
    DecryptedFileResult {
        success: false,
        decrypted_data: Vec::new(),
        file_hash_hex: String::new(),
        error_message: message,
    }
}

/// Checks that the recovered private key, the ephemeral public key and the
/// two nonces have the lengths the remaining steps need, and reports the
/// first field that does not, with its actual length.
fn validate_inputs(
    private_key: &[u8],
    ephemeral_public_key: &[u8],
    dek_nonce: &[u8],
    file_nonce: &[u8],
) -> (r: Result<(), String>)
    ensures
        r is Ok <==> private_key@.len() == 32 && ephemeral_public_key@.len() == 32
            && dek_nonce@.len() == 12 && file_nonce@.len() == 12,
        r matches Err(m) ==> m@ == decrypt_error_message(
            length_error(private_key@, ephemeral_public_key@, dek_nonce@, file_nonce@),
        ),
{
    if !check_len(32, private_key) {
        Err(
            String::from_str("Private Key must be 32 bytes, got ").concat(
                usize_to_dec(private_key.len()).as_str(),
            ),
        )
    } else if !check_len(32, ephemeral_public_key) {
        Err(
            String::from_str("Ephemeral Public Key must be 32 bytes, got ").concat(
                usize_to_dec(ephemeral_public_key.len()).as_str(),
            ),
        )
    } else if !check_len(12, dek_nonce) {
        Err(
            String::from_str("DEK Nonce must be 12 bytes, got ").concat(
                usize_to_dec(dek_nonce.len()).as_str(),
            ),
        )
    } else if !check_len(12, file_nonce) {
        Err(
            String::from_str("File Nonce must be 12 bytes, got ").concat(
                usize_to_dec(file_nonce.len()).as_str(),
            ),
        )
    } else {
        Ok(())
    }
}

fn check_len(expected: usize, input: &[u8]) -> (r: bool)
    ensures
        r <==> input@.len() == expected,
{
    input.len() == expected
}

/// Decrypts an envelope bundle. The result is exactly what `decrypt_model`
/// says for these inputs, and a bundle that matches a sealed identity and a
/// file — the shape encryption produces — always decrypts to that file, with
/// its SHA-256 hash recomputed. Every intermediate secret (derived key,
/// private scalar, shared secret, DEK) and the context's own secret fields
/// are wiped before returning, on every path.
pub fn decrypt_file(context: DecryptionContext) -> (r: DecryptedFileResult)
    ensures
        match decrypt_model(
            context.password@,
            context.pk_salt@,
            context.encrypted_private_key@,
            context.pk_nonce@,
            context.ephemeral_public_key@,
            context.encrypted_dek@,
            context.dek_nonce@,
            context.file_nonce@,
            context.encrypted_data@,
        ) {
            Ok(file) => r.success && r.decrypted_data@ == file && r.decrypted_data@.len() + 16
                == context.encrypted_data@.len() && r.file_hash_hex@ == hex_of(sha256_of(file))
                && r.error_message@.len() == 0,
            Err(e) => !r.success && r.decrypted_data@.len() == 0 && r.file_hash_hex@.len() == 0
                && r.error_message@ == decrypt_error_message(e),
        },
        forall|file: Seq<u8>, identity_secret: Seq<u8>, dek: Seq<u8>, ephemeral_secret: Seq<u8>|
            #[trigger] matching_bundle(
                context.password@,
                context.pk_salt@,
                context.encrypted_private_key@,
                context.pk_nonce@,
                context.ephemeral_public_key@,
                context.encrypted_dek@,
                context.dek_nonce@,
                context.file_nonce@,
                context.encrypted_data@,
                file,
                identity_secret,
                dek,
                ephemeral_secret,
            ) ==> r.success && r.decrypted_data@ == file && r.file_hash_hex@ == hex_of(
                sha256_of(file),
            ),
{
    let DecryptionContext {
        encrypted_data,
        mut password,
        pk_salt,
        encrypted_private_key,
        pk_nonce,
        ephemeral_public_key,
        encrypted_dek,
        dek_nonce,
        file_nonce,
    } = context;

    // Step 1: recover the private key from the sealed identity.
    let key_result = masterkey_decryptor::decrypt_private_key(
        password.as_str(),
        pk_salt.as_str(),
        encrypted_private_key.as_slice(),
        pk_nonce.as_slice(),
    );
    primitives::wipe_string(&mut password);

    if !key_result.success {
        return failure_result(
            String::from_str("Private key decryption failed: ").concat(
                key_result.error_message.as_str(),
            ),
        );
    }
    let mut private_key_bytes = key_result.private_key;

    // Step 2: validate every length the remaining steps rely on.
    if let Err(message) = validate_inputs(
        private_key_bytes.as_slice(),
        ephemeral_public_key.as_slice(),
        dek_nonce.as_slice(),
        file_nonce.as_slice(),
    ) {
        primitives::wipe_bytes(&mut private_key_bytes);
        return failure_result(message);
    }

    // Step 3: Diffie-Hellman shared secret of the private key and the
    // bundle's ephemeral public key.
    let mut shared_secret = primitives::x25519_shared(
        private_key_bytes.as_slice(),
        ephemeral_public_key.as_slice(),
    );
    primitives::wipe_bytes(&mut private_key_bytes);

    // Step 4: unseal the DEK with the shared secret.
    let dek_opened = primitives::aes256gcm_open(
        shared_secret.as_slice(),
        dek_nonce.as_slice(),
        encrypted_dek.as_slice(),
    );
    primitives::wipe_bytes(&mut shared_secret);
    let mut dek = match dek_opened {
        Some(d) => d,
        None => {
            return failure_result(
                String::from_str("DEK decryption failed. Invalid private key or corrupted data."),
            );
        },
    };

    // Step 5: defensive length check on the unsealed DEK.
    if dek.len() != 32 {
        let message = String::from_str("Decrypted DEK must be 32 bytes, got ").concat(
            usize_to_dec(dek.len()).as_str(),
        );
        primitives::wipe_bytes(&mut dek);
        return failure_result(message);
    }

    // Step 6: unseal the file with the DEK.
    let file_opened = primitives::aes256gcm_open(
        dek.as_slice(),
        file_nonce.as_slice(),
        encrypted_data.as_slice(),
    );
    primitives::wipe_bytes(&mut dek);
    match file_opened {
        Some(decrypted) => {
            let file_hash = crate::hash_file(decrypted.as_slice());
            DecryptedFileResult {
                success: true,
                decrypted_data: decrypted,
                file_hash_hex: file_hash,
                error_message: String::new(),
            }
        },
        None => failure_result(
            String::from_str("File decryption failed. Invalid DEK or corrupted data."),
        ),
    }
}

} // verus!
