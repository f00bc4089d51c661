//! Identity provisioning: generates an X25519 keypair and seals the private
//! scalar under a password-derived key with a fresh random salt and nonce.

use vstd::prelude::*;

use crate::hexcodec;
use crate::hexcodec::hex_of;
use crate::primitives;
use crate::primitives::{gcm_seal_of, x25519_public_of};
use crate::{get_key_encryption_key, kdf_input_ok, kek_of};

verus! {

/// A sealed identity: the private key encrypted under the password-derived
/// key, with the salt and nonce that sealing used, and the public half in the
/// clear. The ghost field records the sealed private scalar so that contracts
/// can speak about what the ciphertext holds.
pub struct EncryptedMasterKey {
    pub nonce: Vec<u8>,
    pub salt: String,
    pub encrypted_private_key: Vec<u8>,
    pub public_key: Vec<u8>,
    pub secret_key: Ghost<Seq<u8>>,
}

impl EncryptedMasterKey {
    /// The sealed identity is internally consistent: the ciphertext seals the
    /// recorded private scalar under the key derived from `password` and the
    /// stored salt, and the public key matches that scalar.
    pub open spec fn seals_for(&self, password: Seq<char>) -> bool {
        &&& self.secret_key@.len() == 32
        &&& self.nonce@.len() == 12
        &&& self.encrypted_private_key@.len() == 48
        &&& self.public_key@.len() == 32
        &&& kdf_input_ok(password, self.salt@)
        &&& self.public_key@ == x25519_public_of(self.secret_key@)
        &&& self.encrypted_private_key@ == gcm_seal_of(
            kek_of(password, self.salt@),
            self.nonce@,
            self.secret_key@,
        )
    }

    pub fn nonce(&self) -> (r: Vec<u8>)
        ensures
            r@ == self.nonce@,
    {
        self.nonce.clone()
    }

    pub fn encrypted_private_key(&self) -> (r: Vec<u8>)
        ensures
            r@ == self.encrypted_private_key@,
    {
        self.encrypted_private_key.clone()
    }

    pub fn public_key(&self) -> (r: Vec<u8>)
        ensures
            r@ == self.public_key@,
    {
        self.public_key.clone()
    }

    pub fn salt(&self) -> (r: String)
        ensures
            r@ == self.salt@,
    {
        self.salt.clone()
    }

    pub fn nonce_hex(&self) -> (r: String)
        ensures
            r@ == hex_of(self.nonce@),
    {
        hexcodec::bytes_to_hex(self.nonce.as_slice())
    }

    pub fn encrypted_private_key_hex(&self) -> (r: String)
        ensures
            r@ == hex_of(self.encrypted_private_key@),
    {
        hexcodec::bytes_to_hex(self.encrypted_private_key.as_slice())
    }

    pub fn public_key_hex(&self) -> (r: String)
        ensures
            r@ == hex_of(self.public_key@),
    {
        hexcodec::bytes_to_hex(self.public_key.as_slice())
    }
}

/// Provisions an identity: generates a random salt, derives the
/// key-encryption key from the input, generates a fresh X25519 keypair, and
/// seals the private scalar under the derived key with a fresh random nonce.
/// The plaintext scalar and the derived key are wiped before returning.
pub fn encrypt_master_key(input: &str) -> (r: EncryptedMasterKey)
    requires
        vstd::utf8::encode_utf8(input@).len() + 22 <= 0xFFFF_FFFF,
    ensures
        r.seals_for(input@),
{
    let salt = primitives::generate_salt_string();
    let mut encryption_key = get_key_encryption_key(input, salt.as_str());

    let mut secret = primitives::random_key_bytes();
    let ghost secret_key: Seq<u8> = secret@;
    let public = primitives::x25519_public(secret.as_slice());

    let nonce = primitives::generate_nonce();
    let ciphertext = match primitives::aes256gcm_seal(
        encryption_key.as_slice(),
        nonce.as_slice(),
        secret.as_slice(),
    ) {
        Some(ct) => ct,
        None => {
            proof {
                assert(false);
            }
            Vec::new()
        },
    };

    primitives::wipe_bytes(&mut secret);
    primitives::wipe_bytes(&mut encryption_key);

    EncryptedMasterKey {
        encrypted_private_key: ciphertext,
        public_key: public,
        nonce,
        salt,
        secret_key: Ghost(secret_key),
    }
}

} // verus!
