//! Trusted boundary around the cryptographic primitives.
//!
//! Every function here is `external_body`: its body makes one call into an
//! outside crate (or std) and converts arguments and results, and its
//! contract states what that crate's source and documentation promise.
//! The `uninterp` spec functions give names to results that are functions of
//! the arguments alone but whose exact values only the primitive defines.

use vstd::prelude::*;
use aes_gcm::Aes256Gcm;
use aes_gcm::aead::{Aead, Generate, KeyInit};
use sha2::{Digest, Sha256};
use x25519_dalek::{PublicKey, StaticSecret};
use zeroize::Zeroize;

verus! {

/// The 32-byte Argon2id digest (memory cost 65536 KiB, 3 iterations,
/// parallelism 1) of a password and salt. A function of the two inputs alone.
pub uninterp spec fn argon2id_of(password: Seq<u8>, salt: Seq<u8>) -> Seq<u8>;

/// The AES-256-GCM ciphertext-with-tag for a key, nonce and plaintext.
/// A function of the three inputs alone.
pub uninterp spec fn gcm_seal_of(key: Seq<u8>, nonce: Seq<u8>, plaintext: Seq<u8>) -> Seq<u8>;

/// What AES-256-GCM decryption returns for a key, nonce and ciphertext:
/// the plaintext when the authentication tag verifies, nothing otherwise.
pub uninterp spec fn gcm_open_of(key: Seq<u8>, nonce: Seq<u8>, ciphertext: Seq<u8>) -> Option<
    Seq<u8>,
>;

/// The X25519 public key corresponding to a 32-byte secret scalar.
pub uninterp spec fn x25519_public_of(secret: Seq<u8>) -> Seq<u8>;

/// The X25519 Diffie-Hellman shared secret of a secret scalar and a public key.
pub uninterp spec fn x25519_shared_of(secret: Seq<u8>, public: Seq<u8>) -> Seq<u8>;

/// The 32-byte SHA-256 digest of a byte sequence.
pub uninterp spec fn sha256_of(data: Seq<u8>) -> Seq<u8>;

/// The largest plaintext AES-GCM accepts, in bytes (`aes_gcm::P_MAX`).
pub open spec fn gcm_plaintext_fits(plaintext: Seq<u8>) -> bool {
    plaintext.len() <= 68719476704
}

/// Relies on `argon2::Argon2::hash_password_into` with Argon2id version 0x13,
/// fixed parameters (m = 65536 KiB, t = 3, p = 1, 32-byte output): the digest
/// is a deterministic function of the password and salt bytes. With password
/// and salt lengths inside the crate's documented bounds the call fails only
/// when the 64 MiB working memory cannot be allocated, which is fatal here,
/// as allocation failure is everywhere else.
#[verifier::external_body]
pub(crate) fn argon2id_derive(password: &[u8], salt: &[u8]) -> (r: Vec<u8>)
    requires
        8 <= salt@.len() <= 0xFFFF_FFFF,
        password@.len() <= 0xFFFF_FFFF,
    ensures
        r@ == argon2id_of(password@, salt@),
        r@.len() == 32,
{
    let params = argon2::Params::new(65536, 3, 1, Some(32)).expect("fixed Argon2 parameters are valid");
    let argon2 = argon2::Argon2::new(argon2::Algorithm::Argon2id, argon2::Version::V0x13, params);
    let mut out = vec![0u8; 32];
    argon2
        .hash_password_into(password, salt, &mut out)
        .expect("Argon2id derivation failed");
    out
}

/// Relies on `SaltString::generate` from the `argon2` crate's password-hash
/// facade: a fresh random 16-byte salt, B64-encoded as 22 ASCII characters.
#[verifier::external_body]
pub(crate) fn generate_salt_string() -> (r: String)
    ensures
        r@.len() == 22,
        vstd::utf8::encode_utf8(r@).len() == 22,
{
    let salt = argon2::password_hash::phc::SaltString::generate();
    salt.as_ref().to_string()
}

/// Relies on `Aead::encrypt` for `Aes256Gcm`: the ciphertext is the plaintext
/// encrypted under the key and nonce followed by the 16-byte tag, decrypting
/// it with the same key and nonce gives back the plaintext, and encryption
/// fails only when the plaintext is longer than `P_MAX`.
#[verifier::external_body]
pub(crate) fn aes256gcm_seal(key: &[u8], nonce: &[u8], plaintext: &[u8]) -> (r: Option<Vec<u8>>)
    requires
        key@.len() == 32,
        nonce@.len() == 12,
    ensures
        r matches Some(ct) ==> ct@ == gcm_seal_of(key@, nonce@, plaintext@) && ct@.len()
            == plaintext@.len() + 16 && gcm_open_of(key@, nonce@, ct@) == Some(plaintext@),
        r is Some <==> gcm_plaintext_fits(plaintext@),
{
    let cipher = Aes256Gcm::new_from_slice(key).ok()?;
    let nonce_arr = aes_gcm::aead::Nonce::<Aes256Gcm>::try_from(nonce).ok()?;
    cipher.encrypt(&nonce_arr, plaintext).ok()
}

/// Relies on `Aead::decrypt` for `Aes256Gcm`: it returns the plaintext
/// exactly when the tag verifies for this key, nonce and ciphertext (so a
/// ciphertext produced by GCM encryption under the same key and nonce
/// decrypts to the plaintext it was made from), the plaintext is 16 bytes
/// shorter than the ciphertext, and failure reveals nothing but itself.
#[verifier::external_body]
pub(crate) fn aes256gcm_open(key: &[u8], nonce: &[u8], ciphertext: &[u8]) -> (r: Option<Vec<u8>>)
    requires
        key@.len() == 32,
        nonce@.len() == 12,
    ensures
        r matches Some(pt) ==> gcm_open_of(key@, nonce@, ciphertext@) == Some(pt@) && pt@.len()
            + 16 == ciphertext@.len(),
        r matches Some(pt) ==> forall|p: Seq<u8>|
            gcm_plaintext_fits(p) && ciphertext@ == #[trigger] gcm_seal_of(key@, nonce@, p)
                ==> pt@ == p,
        r is None ==> gcm_open_of(key@, nonce@, ciphertext@) is None,
        r is None ==> forall|p: Seq<u8>|
            gcm_plaintext_fits(p) ==> ciphertext@ != #[trigger] gcm_seal_of(key@, nonce@, p),
{
    let cipher = Aes256Gcm::new_from_slice(key).ok()?;
    let nonce_arr = aes_gcm::aead::Nonce::<Aes256Gcm>::try_from(nonce).ok()?;
    cipher.decrypt(&nonce_arr, ciphertext).ok()
}

/// Relies on `PublicKey::from(&StaticSecret)` of `x25519_dalek`: the public
/// key is the clamped base-point multiple of the secret scalar, a function of
/// the secret bytes alone.
#[verifier::external_body]
pub(crate) fn x25519_public(secret: &[u8]) -> (r: Vec<u8>)
    requires
        secret@.len() == 32,
    ensures
        r@ == x25519_public_of(secret@),
        r@.len() == 32,
{
    let sk: [u8; 32] = secret.try_into().expect("length checked by contract");
    PublicKey::from(&StaticSecret::from(sk)).to_bytes().to_vec()
}

/// Relies on `x25519_dalek::x25519`, the Diffie-Hellman function: the shared
/// secret is a function of the secret scalar and the peer's public key alone,
/// and the two sides of an exchange compute the same value (the crate
/// documents `x25519(a, public(b)) == x25519(b, public(a))`).
#[verifier::external_body]
pub(crate) fn x25519_shared(secret: &[u8], public: &[u8]) -> (r: Vec<u8>)
    requires
        secret@.len() == 32,
        public@.len() == 32,
    ensures
        r@ == x25519_shared_of(secret@, public@),
        r@.len() == 32,
        forall|other: Seq<u8>|
            other.len() == 32 && public@ == #[trigger] x25519_public_of(other) ==> r@
                == x25519_shared_of(other, x25519_public_of(secret@)),
{
    let sk: [u8; 32] = secret.try_into().expect("length checked by contract");
    let pk: [u8; 32] = public.try_into().expect("length checked by contract");
    x25519_dalek::x25519(sk, pk).to_vec()
}

/// Relies on `Generate` for `Key<Aes256Gcm>` (the system CSPRNG): 32 fresh
/// random bytes. Nothing is promised of the value.
#[verifier::external_body]
pub(crate) fn random_key_bytes() -> (r: Vec<u8>)
    ensures
        r@.len() == 32,
{
    aes_gcm::Key::<Aes256Gcm>::generate().to_vec()
}

/// Relies on `Generate` for `Nonce<Aes256Gcm>` (the system CSPRNG): a fresh
/// random 12-byte nonce. Nothing is promised of the value.
#[verifier::external_body]
pub fn generate_nonce() -> (r: Vec<u8>)
    ensures
        r@.len() == 12,
{
    aes_gcm::aead::Nonce::<Aes256Gcm>::generate().to_vec()
}

/// Relies on `sha2::Sha256` through `Digest::digest`: the 32-byte SHA-256
/// digest, a function of the input alone.
#[verifier::external_body]
pub(crate) fn sha256(data: &[u8]) -> (r: Vec<u8>)
    ensures
        r@ == sha256_of(data@),
        r@.len() == 32,
{
    Sha256::digest(data).to_vec()
}

/// Relies on `String::from_utf8`: bytes below 0x80 are valid UTF-8 and become
/// the string's characters one to one.
#[verifier::external_body]
pub(crate) fn ascii_to_string(bytes: Vec<u8>) -> (r: String)
    requires
        forall|i: int| 0 <= i < bytes@.len() ==> bytes@[i] < 128,
    ensures
        r@.len() == bytes@.len(),
        forall|i: int| 0 <= i < r@.len() ==> r@[i] == bytes@[i] as char,
{
    String::from_utf8(bytes).expect("ASCII bytes are valid UTF-8")
}

/// Relies on `zeroize::Zeroize` for `Vec<u8>`: overwrites the contents and
/// the spare capacity with zeros and leaves the vector empty.
#[verifier::external_body]
pub(crate) fn wipe_bytes(buf: &mut Vec<u8>)
    ensures
        final(buf)@.len() == 0,
{
    buf.zeroize();
}

/// Relies on `zeroize::Zeroize` for `String`: overwrites the contents and
/// the spare capacity with zeros and leaves the string empty.
#[verifier::external_body]
pub(crate) fn wipe_string(s: &mut String)
    ensures
        final(s)@.len() == 0,
{
    s.zeroize();
}

} // verus!
