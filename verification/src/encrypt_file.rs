//! Envelope encryption: seals a file under a fresh data-encryption key (DEK)
//! with AES-256-GCM, then seals the DEK itself under the Diffie-Hellman
//! shared secret of an ephemeral X25519 keypair and the recipient's public
//! key.

use vstd::prelude::*;
use vstd::string::StringExecFns;

use crate::decfmt::{dec_of, usize_to_dec};
use crate::hexcodec;
use crate::hexcodec::hex_of;
use crate::primitives;
use crate::primitives::{
    gcm_plaintext_fits, gcm_seal_of, sha256_of, x25519_public_of, x25519_shared_of,
};

verus! {

/// The full output of one envelope encryption. Nonces are exposed hex-encoded
/// as the transport expects them; the ghost fields record the nonce bytes, the
/// DEK and the ephemeral secret, so that contracts can say exactly what each
/// ciphertext seals.
pub struct EncryptedFileResult {
    pub success: bool,
    pub encrypted_data: Vec<u8>,
    pub file_nonce_hex: String,
    pub encrypted_dek: Vec<u8>,
    pub dek_nonce_hex: String,
    pub ephemeral_public_key: Vec<u8>,
    pub original_hash_hex: String,
    pub error_message: String,
    pub file_nonce: Ghost<Seq<u8>>,
    pub dek_nonce: Ghost<Seq<u8>>,
    pub dek: Ghost<Seq<u8>>,
    pub ephemeral_secret: Ghost<Seq<u8>>,
}

impl EncryptedFileResult {
    /// A successful result is an envelope for the given file and recipient:
    /// the data is the file sealed under the recorded DEK and file nonce, and
    /// the DEK is sealed under the shared secret of the recorded ephemeral
    /// secret and the recipient's public key.
    pub open spec fn envelope_for(&self, file: Seq<u8>, recipient_public_key: Seq<u8>) -> bool {
        &&& self.dek@.len() == 32
        &&& self.ephemeral_secret@.len() == 32
        &&& self.file_nonce@.len() == 12
        &&& self.dek_nonce@.len() == 12
        &&& self.encrypted_data@ == gcm_seal_of(self.dek@, self.file_nonce@, file)
        &&& self.encrypted_data@.len() == file.len() + 16
        &&& self.file_nonce_hex@ == hex_of(self.file_nonce@)
        &&& self.ephemeral_public_key@ == x25519_public_of(self.ephemeral_secret@)
        &&& self.ephemeral_public_key@.len() == 32
        &&& self.encrypted_dek@ == gcm_seal_of(
            x25519_shared_of(self.ephemeral_secret@, recipient_public_key),
            self.dek_nonce@,
            self.dek@,
        )
        &&& self.encrypted_dek@.len() == 48
        &&& self.dek_nonce_hex@ == hex_of(self.dek_nonce@)
        &&& self.original_hash_hex@ == hex_of(sha256_of(file))
    }

    pub fn success(&self) -> (r: bool)
        ensures
            r == self.success,
    {
        self.success
    }

    pub fn encrypted_data(&self) -> (r: Vec<u8>)
        ensures
            r@ == self.encrypted_data@,
    {
        self.encrypted_data.clone()
    }

    pub fn file_nonce_hex(&self) -> (r: String)
        ensures
            r@ == self.file_nonce_hex@,
    {
        self.file_nonce_hex.clone()
    }

    pub fn encrypted_dek(&self) -> (r: Vec<u8>)
        ensures
            r@ == self.encrypted_dek@,
    {
        self.encrypted_dek.clone()
    }

    pub fn encrypted_dek_hex(&self) -> (r: String)
        ensures
            r@ == hex_of(self.encrypted_dek@),
    {
        hexcodec::bytes_to_hex(self.encrypted_dek.as_slice())
    }

    pub fn dek_nonce_hex(&self) -> (r: String)
        ensures
            r@ == self.dek_nonce_hex@,
    {
        self.dek_nonce_hex.clone()
    }

    pub fn ephemeral_public_key(&self) -> (r: Vec<u8>)
        ensures
            r@ == self.ephemeral_public_key@,
    {
        self.ephemeral_public_key.clone()
    }

    pub fn ephemeral_public_key_hex(&self) -> (r: String)
        ensures
            r@ == hex_of(self.ephemeral_public_key@),
    {
        hexcodec::bytes_to_hex(self.ephemeral_public_key.as_slice())
    }

    pub fn original_hash_hex(&self) -> (r: String)
        ensures
            r@ == self.original_hash_hex@,
    {
        self.original_hash_hex.clone()
    }

    pub fn error_message(&self) -> (r: String)
        ensures
            r@ == self.error_message@,
    {
        self.error_message.clone()
    }
}

fn failure_result(message: String) -> (r: EncryptedFileResult)
    ensures
        !r.success,
        r.encrypted_data@.len() == 0,
        r.file_nonce_hex@.len() == 0,
        r.encrypted_dek@.len() == 0,
        r.dek_nonce_hex@.len() == 0,
        r.ephemeral_public_key@.len() == 0,
        r.original_hash_hex@.len() == 0,
        r.error_message@ == message@,
{
    EncryptedFileResult {
        success: false,
        encrypted_data: Vec::new(),
        file_nonce_hex: String::new(),
        encrypted_dek: Vec::new(),
        dek_nonce_hex: String::new(),
        ephemeral_public_key: Vec::new(),
        original_hash_hex: String::new(),
        error_message: message,
        file_nonce: Ghost(Seq::empty()),
        dek_nonce: Ghost(Seq::empty()),
        dek: Ghost(Seq::empty()),
        ephemeral_secret: Ghost(Seq::empty()),
    }
}

/// Encrypts a file for a recipient's X25519 public key. A key of a wrong
/// length is rejected before any cryptographic work; a file longer than
/// AES-GCM accepts fails at the sealing step. On success the result is an
/// envelope for exactly this file and recipient. The DEK, the ephemeral
/// secret and the shared secret are wiped before returning.
pub fn encrypt_file(file_data: &[u8], recipient_public_key: &[u8]) -> (r: EncryptedFileResult)
    ensures
        r.success <==> recipient_public_key@.len() == 32 && gcm_plaintext_fits(file_data@),
        r.success ==> r.envelope_for(file_data@, recipient_public_key@) && r.error_message@.len()
            == 0,
        !r.success ==> r.encrypted_data@.len() == 0 && r.file_nonce_hex@.len() == 0
            && r.encrypted_dek@.len() == 0 && r.dek_nonce_hex@.len() == 0
            && r.ephemeral_public_key@.len() == 0 && r.original_hash_hex@.len() == 0
            && r.error_message@ == (if recipient_public_key@.len() != 32 {
            "Public key must be 32 bytes, got "@ + dec_of(recipient_public_key@.len())
        } else {
            "File encryption failed"@
        }),
{
    if recipient_public_key.len() != 32 {
        return failure_result(
            String::from_str("Public key must be 32 bytes, got ").concat(
                usize_to_dec(recipient_public_key.len()).as_str(),
            ),
        );
    }

    // Generate a fresh data-encryption key.
    let mut dek = primitives::random_key_bytes();
    let ghost dek_bytes: Seq<u8> = dek@;

    let original_hash = crate::hash_file(file_data);

    // Seal the file under the DEK.
    let file_nonce = primitives::generate_nonce();
    let file_nonce_hex = hexcodec::bytes_to_hex(file_nonce.as_slice());

    let encrypted_file_data = match primitives::aes256gcm_seal(
        dek.as_slice(),
        file_nonce.as_slice(),
        file_data,
    ) {
        Some(ct) => ct,
        None => {
            primitives::wipe_bytes(&mut dek);
            return failure_result(String::from_str("File encryption failed"));
        },
    };

    // Ephemeral keypair and Diffie-Hellman shared secret.
    let mut ephemeral_secret = primitives::random_key_bytes();
    let ghost ephemeral_secret_bytes: Seq<u8> = ephemeral_secret@;
    let ephemeral_public = primitives::x25519_public(ephemeral_secret.as_slice());
    let mut shared_secret = primitives::x25519_shared(
        ephemeral_secret.as_slice(),
        recipient_public_key,
    );

    // Seal the DEK under the shared secret.
    let dek_nonce = primitives::generate_nonce();
    let dek_nonce_hex = hexcodec::bytes_to_hex(dek_nonce.as_slice());

    let encrypted_dek = match primitives::aes256gcm_seal(
        shared_secret.as_slice(),
        dek_nonce.as_slice(),
        dek.as_slice(),
    ) {
        Some(ct) => ct,
        None => {
            primitives::wipe_bytes(&mut dek);
            primitives::wipe_bytes(&mut ephemeral_secret);
            primitives::wipe_bytes(&mut shared_secret);
            proof {
                assert(false);
            }
            return failure_result(String::from_str("DEK encryption failed"));
        },
    };

    primitives::wipe_bytes(&mut dek);
    primitives::wipe_bytes(&mut ephemeral_secret);
    primitives::wipe_bytes(&mut shared_secret);

    EncryptedFileResult {
        success: true,
        encrypted_data: encrypted_file_data,
        file_nonce_hex,
        encrypted_dek,
        dek_nonce_hex,
        ephemeral_public_key: ephemeral_public,
        original_hash_hex: original_hash,
        error_message: String::new(),
        file_nonce: Ghost(file_nonce@),
        dek_nonce: Ghost(dek_nonce@),
        dek: Ghost(dek_bytes),
        ephemeral_secret: Ghost(ephemeral_secret_bytes),
    }
}

} // verus!
