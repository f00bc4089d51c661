//! Hybrid envelope encryption: files are sealed for a recipient's X25519
//! public key with a fresh per-file data-encryption key under AES-256-GCM,
//! while the recipient's own private key rests sealed behind a password-derived
//! Argon2id key.

use vstd::prelude::*;

pub mod decfmt;
pub mod decrypt_file;
pub mod encrypt_file;
pub mod hexcodec;
pub mod masterkey_decryptor;
pub mod masterkey_generator;
pub mod primitives;

pub use hexcodec::{bytes_to_hex, hex_to_bytes};
pub use primitives::generate_nonce;

use vstd::string::StrSliceExecFns;

verus! {

/// The fixed application-wide constant appended to every password before key
/// derivation. It hardens offline guessing a little; it is embedded in the
/// code and is not a secret.
pub open spec fn pepper() -> Seq<u8> {
    seq![
        52u8, 114u8, 68u8, 94u8, 103u8, 114u8, 83u8, 88u8, 121u8, 82u8, 119u8, 74u8, 126u8, 87u8,
        117u8, 99u8, 53u8, 118u8, 99u8, 72u8, 76u8, 53u8,
    ]
}

/// The 32-byte key-encryption key derived from a password and a salt:
/// Argon2id over the password bytes followed by the pepper, keyed by the
/// salt bytes.
pub open spec fn kek_of(password: Seq<char>, salt: Seq<char>) -> Seq<u8> {
    primitives::argon2id_of(vstd::utf8::encode_utf8(password) + pepper(), vstd::utf8::encode_utf8(salt))
}

/// The byte lengths Argon2id accepts for its password and salt inputs, with
/// room for the pepper. Derivation with other lengths is a caller error.
pub open spec fn kdf_input_ok(password: Seq<char>, salt: Seq<char>) -> bool {
    &&& 8 <= vstd::utf8::encode_utf8(salt).len() <= 0xFFFF_FFFF
    &&& vstd::utf8::encode_utf8(password).len() + 22 <= 0xFFFF_FFFF
}

fn get_paminta() -> (r: Vec<u8>)
    ensures
        r@ == pepper(),
{
    let r: Vec<u8> = vec![
        52u8, 114u8, 68u8, 94u8, 103u8, 114u8, 83u8, 88u8, 121u8, 82u8, 119u8, 74u8, 126u8, 87u8,
        117u8, 99u8, 53u8, 118u8, 99u8, 72u8, 76u8, 53u8,
    ];
    proof {
        assert(r@ =~= pepper());
    }
    r
}

/// Derives the 32-byte key-encryption key from a secret input and a salt.
pub fn get_key_encryption_key(input: &str, salt: &str) -> (r: Vec<u8>)
    requires
        kdf_input_ok(input@, salt@),
    ensures
        r@ == kek_of(input@, salt@),
        r@.len() == 32,
{
    let paminta = get_paminta();
    let mut input_with_pepper = input.as_bytes_vec();
    input_with_pepper.extend_from_slice(paminta.as_slice());
    proof {
        assert(input_with_pepper@ =~= vstd::utf8::encode_utf8(input@) + pepper());
    }
    let key = primitives::argon2id_derive(input_with_pepper.as_slice(), salt.as_bytes());
    primitives::wipe_bytes(&mut input_with_pepper);
    key
}

/// Key derivation is deterministic: the same secret input and salt always
/// give the same 32-byte key.
pub proof fn lemma_derive_key_deterministic(
    input: Seq<char>,
    salt: Seq<char>,
    k1: Seq<u8>,
    k2: Seq<u8>,
)
    requires
        k1 == kek_of(input, salt),
        k2 == kek_of(input, salt),
    ensures
        k1 == k2,
{
}

/// Computes the lowercase-hex SHA-256 digest of the given data.
pub fn hash_file(data: &[u8]) -> (r: String)
    ensures
        r@ == hexcodec::hex_of(primitives::sha256_of(data@)),
{
    let digest = primitives::sha256(data);
    bytes_to_hex(digest.as_slice())
}

/// Derives the key-encryption key and returns it hex-encoded, for external
/// key-fingerprinting use.
pub fn master_key_bytes_to_hex(input: &str, salt: &str) -> (r: String)
    requires
        kdf_input_ok(input@, salt@),
    ensures
        r@ == hexcodec::hex_of(kek_of(input@, salt@)),
{
    let mut key = get_key_encryption_key(input, salt);
    let hex = bytes_to_hex(key.as_slice());
    primitives::wipe_bytes(&mut key);
    hex
}

/// Generates a fresh random 12-byte nonce and returns it hex-encoded.
pub fn generate_nonce_hex() -> (r: String)
    ensures
        r@.len() == 24,
        exists|n: Seq<u8>| n.len() == 12 && r@ == hexcodec::hex_of(n),
{
    let nonce = generate_nonce();
    let hex = bytes_to_hex(nonce.as_slice());
    proof {
        assert(nonce@.len() == 12 && hex@ == hexcodec::hex_of(nonce@));
    }
    hex
}

} // verus!
