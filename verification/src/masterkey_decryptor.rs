//! Private-key recovery: unseals a user's X25519 private scalar with the key
//! derived from their password and salt. Fails closed: a wrong password and a
//! corrupted sealed identity are indistinguishable by design.

use vstd::prelude::*;
use vstd::string::StringExecFns;

use crate::decfmt::{dec_of, usize_to_dec};
use crate::hexcodec;
use crate::hexcodec::hex_of;
use crate::primitives;
use crate::primitives::{gcm_open_of, gcm_seal_of};
use crate::{kdf_input_ok, kek_of};

verus! {

/// Why private-key recovery failed. The length variants record the offending
/// length, which the reported message repeats.
pub enum PrivateKeyError {
    /// The nonce is not 12 bytes long.
    NonceLength(nat),
    /// The sealed private key is not 48 bytes (32-byte key plus 16-byte tag).
    EncryptedKeyLength(nat),
    /// The salt or password bytes are outside the lengths key derivation accepts.
    KdfInputLength,
    /// The authentication tag did not verify: wrong password or corrupted data.
    Recovery,
}

/// The message reported for each failure. Recovery failure names only the
/// password, never which byte differed.
pub open spec fn private_key_error_message(e: PrivateKeyError) -> Seq<char> {
    match e {
        PrivateKeyError::NonceLength(got) => "Nonce must be 12 bytes, got "@ + dec_of(got),
        PrivateKeyError::EncryptedKeyLength(got) => "Encrypted key must be 48 bytes, got "@
            + dec_of(got),
        PrivateKeyError::KdfInputLength => "Salt or password length is invalid for key derivation"@,
        PrivateKeyError::Recovery => "Decryption failed. Please check your password."@,
    }
}

/// What recovery returns, step by step: validate the nonce and ciphertext
/// lengths, then the key-derivation input lengths, then open the ciphertext
/// with the derived key.
pub open spec fn recover_private_key_model(
    password: Seq<char>,
    salt: Seq<char>,
    encrypted_key: Seq<u8>,
    nonce: Seq<u8>,
) -> Result<Seq<u8>, PrivateKeyError> {
    if nonce.len() != 12 {
        Err(PrivateKeyError::NonceLength(nonce.len()))
    } else if encrypted_key.len() != 48 {
        Err(PrivateKeyError::EncryptedKeyLength(encrypted_key.len()))
    } else if !kdf_input_ok(password, salt) {
        Err(PrivateKeyError::KdfInputLength)
    } else {
        match gcm_open_of(kek_of(password, salt), nonce, encrypted_key) {
            Some(sk) => Ok(sk),
            None => Err(PrivateKeyError::Recovery),
        }
    }
}

/// The outcome of a private-key recovery attempt. On failure the private key
/// is empty and the message says only what a caller may learn.
pub struct DecryptedPrivateKey {
    pub success: bool,
    pub private_key: Vec<u8>,
    pub error_message: String,
}

impl DecryptedPrivateKey {
    pub fn success(&self) -> (r: bool)
        ensures
            r == self.success,
    {
        self.success
    }

    pub fn private_key(&self) -> (r: Vec<u8>)
        ensures
            r@ == self.private_key@,
    {
        self.private_key.clone()
    }

    pub fn private_key_hex(&self) -> (r: String)
        ensures
            self.success ==> r@ == hex_of(self.private_key@),
            !self.success ==> r@.len() == 0,
    {
        if self.success {
            hexcodec::bytes_to_hex(self.private_key.as_slice())
        } else {
            String::new()
        }
    }

    pub fn error_message(&self) -> (r: String)
        ensures
            r@ == self.error_message@,
    {
        self.error_message.clone()
    }
}

/// Recovers the user's private scalar from the sealed identity using the
/// password-derived key. The derived key is wiped before returning. A sealed
/// identity made by sealing a 32-byte scalar under the same password, salt
/// and nonce is always recovered exactly.
pub fn decrypt_private_key(
    password: &str,
    salt: &str,
    encrypted_key: &[u8],
    nonce: &[u8],
) -> (r: DecryptedPrivateKey)
    ensures
        match recover_private_key_model(password@, salt@, encrypted_key@, nonce@) {
            Ok(sk) => r.success && r.private_key@ == sk && sk.len() == 32 && r.error_message@.len()
                == 0,
            Err(e) => !r.success && r.private_key@.len() == 0 && r.error_message@
                == private_key_error_message(e),
        },
        forall|sk: Seq<u8>|
            sk.len() == 32 && nonce@.len() == 12 && encrypted_key@.len() == 48 && kdf_input_ok(
                password@,
                salt@,
            ) && encrypted_key@ == #[trigger] gcm_seal_of(kek_of(password@, salt@), nonce@, sk)
                ==> r.success && r.private_key@ == sk,
{
    if nonce.len() != 12 {
        return DecryptedPrivateKey {
            success: false,
            private_key: Vec::new(),
            error_message: String::from_str("Nonce must be 12 bytes, got ").concat(
                usize_to_dec(nonce.len()).as_str(),
            ),
        };
    }
    if encrypted_key.len() != 48 {
        return DecryptedPrivateKey {
            success: false,
            private_key: Vec::new(),
            error_message: String::from_str("Encrypted key must be 48 bytes, got ").concat(
                usize_to_dec(encrypted_key.len()).as_str(),
            ),
        };
    }
    let salt_byte_len = salt.as_bytes().len();
    let password_byte_len = password.as_bytes().len();
    if salt_byte_len < 8 || salt_byte_len > 0xFFFF_FFFF || password_byte_len > 0xFFFF_FFFF - 22 {
        return DecryptedPrivateKey {
            success: false,
            private_key: Vec::new(),
            error_message: String::from_str(
                "Salt or password length is invalid for key derivation",
            ),
        };
    }

    let mut encryption_key = crate::get_key_encryption_key(password, salt);
    let opened = primitives::aes256gcm_open(encryption_key.as_slice(), nonce, encrypted_key);
    primitives::wipe_bytes(&mut encryption_key);

    match opened {
        Some(decrypted) => DecryptedPrivateKey {
            success: true,
            private_key: decrypted,
            error_message: String::new(),
        },
        None => DecryptedPrivateKey {
            success: false,
            private_key: Vec::new(),
            error_message: String::from_str("Decryption failed. Please check your password."),
        },
    }
}

} // verus!
