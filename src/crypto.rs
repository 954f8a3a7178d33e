//! Digests, message authentication, authenticated encryption and random
//! nonces, from the RustCrypto crates and rand. Each result that depends only
//! on the inputs is given a name; nothing more is claimed about it here.

use aes_gcm::aead::Aead;
use aes_gcm::{Aes256Gcm, Key, KeyInit, Nonce};
use hmac::{Hmac, Mac};
use rand::Rng;
use sha2::{Digest, Sha256};
use vstd::prelude::*;

verus! {

/// Bytes in an AES-256 key.
pub const KEY_LEN: usize = 32;

/// Bytes in an AES-GCM nonce.
pub const NONCE_LEN: usize = 12;

/// Bytes of authentication tag AES-GCM appends to a ciphertext.
pub const TAG_LEN: usize = 16;

/// Longest plaintext AES-GCM accepts, in bytes.
pub const MAX_PLAINTEXT_LEN: u64 = 68_719_476_736;

/// The SHA-256 digest of `data`.
pub uninterp spec fn sha256_of(data: Seq<u8>) -> Seq<u8>;

/// The HMAC-SHA-256 tag of `message` under `key`.
pub uninterp spec fn hmac_sha256_of(key: Seq<u8>, message: Seq<u8>) -> Seq<u8>;

/// The AES-256-GCM ciphertext and tag of `plaintext` under `key` and `nonce`.
pub uninterp spec fn gcm_sealed(key: Seq<u8>, nonce: Seq<u8>, plaintext: Seq<u8>) -> Seq<u8>;

/// The AES-256-GCM plaintext of `ciphertext` under `key` and `nonce`, or
/// `None` when the tag does not authenticate it.
pub uninterp spec fn gcm_opened(key: Seq<u8>, nonce: Seq<u8>, ciphertext: Seq<u8>) -> Option<
    Seq<u8>,
>;

/// Relies on `sha2::Sha256::digest`: the 32-byte SHA-256 digest of `data`.
#[verifier::external_body]
pub(crate) fn sha256(data: &[u8]) -> (r: Vec<u8>)
    ensures
        r@ == sha256_of(data@),
        r@.len() == 32,
{
    Sha256::digest(data).to_vec()
}

/// Relies on `hmac::Hmac<Sha256>` (`new_from_slice`, which takes a key of
/// any length, then `update` and `finalize`): the 32-byte HMAC-SHA-256 tag.
#[verifier::external_body]
pub(crate) fn hmac_sha256(key: &[u8], message: &[u8]) -> (r: Vec<u8>)
    ensures
        r@ == hmac_sha256_of(key@, message@),
        r@.len() == 32,
{
    match <Hmac<Sha256> as Mac>::new_from_slice(key) {
        Ok(mut mac) => {
            mac.update(message);
            mac.finalize().into_bytes().to_vec()
        },
        Err(_) => Vec::new(),
    }
}

/// Relies on `aes_gcm::Aes256Gcm` (`KeyInit::new`, `Aead::encrypt`), which
/// refuses only plaintexts longer than 2^36 bytes and appends a 16-byte tag.
#[verifier::external_body]
pub(crate) fn gcm_seal(key: &[u8], nonce: &[u8], plaintext: &[u8]) -> (r: Option<Vec<u8>>)
    requires
        key@.len() == KEY_LEN,
        nonce@.len() == NONCE_LEN,
    ensures
        r is Some == (plaintext@.len() <= MAX_PLAINTEXT_LEN),
        r matches Some(c) ==> c@ == gcm_sealed(key@, nonce@, plaintext@) && c@.len()
            == plaintext@.len() + TAG_LEN,
{
    let cipher = Aes256Gcm::new(Key::<Aes256Gcm>::from_slice(key));
    cipher.encrypt(Nonce::from_slice(nonce), plaintext).ok()
}

/// Relies on `aes_gcm::Aes256Gcm` (`KeyInit::new`, `Aead::decrypt`): the
/// plaintext when the tag authenticates the ciphertext, nothing otherwise.
#[verifier::external_body]
pub(crate) fn gcm_open(key: &[u8], nonce: &[u8], ciphertext: &[u8]) -> (r: Option<Vec<u8>>)
    requires
        key@.len() == KEY_LEN,
        nonce@.len() == NONCE_LEN,
    ensures
        match r {
            Some(p) => gcm_opened(key@, nonce@, ciphertext@) == Some(p@),
            None => gcm_opened(key@, nonce@, ciphertext@) is None,
        },
{
    let cipher = Aes256Gcm::new(Key::<Aes256Gcm>::from_slice(key));
    cipher.decrypt(Nonce::from_slice(nonce), ciphertext).ok()
}

/// Relies on `rand::thread_rng` and `Rng::gen`: twelve random bytes. rand
/// panics if the operating system cannot seed its generator.
#[verifier::external_body]
pub(crate) fn random_nonce() -> (r: Vec<u8>)
    ensures
        r@.len() == NONCE_LEN,
{
    let bytes: [u8; 12] = rand::thread_rng().gen();
    bytes.to_vec()
}

} // verus!
