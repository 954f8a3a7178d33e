//! Pre-shared-key security: a key derived by SHA-256 from the shared secret
//! encrypts payloads with AES-256-GCM under a fresh random nonce, and
//! HMAC-SHA-256 over the current time makes short-lived tokens.

use vstd::prelude::*;
use vstd::utf8::encode_utf8;

use crate::clock::{unix_now, TIMESTAMP_BOUND};
use crate::crypto::{
    gcm_open, gcm_opened, gcm_seal, gcm_sealed, hmac_sha256, hmac_sha256_of, random_nonce, sha256,
    sha256_of, MAX_PLAINTEXT_LEN, NONCE_LEN,
};
use crate::text::{
    bytes_between, hex_of, hex_string, list_contains, signed_decimal, signed_decimal_string, str_eq,
    string_views,
};

verus! {

/// The encryption key derived from `secret`: the SHA-256 digest of its UTF-8
/// bytes.
pub open spec fn derived_key(secret: Seq<char>) -> Seq<u8> {
    sha256_of(encode_utf8(secret))
}

/// The token for `secret` at time `now`: the HMAC-SHA-256 of the decimal
/// text of `now` under the secret's bytes, in lowercase hexadecimal.
pub open spec fn token_for(secret: Seq<char>, now: i64) -> Seq<char> {
    hex_of(hmac_sha256_of(encode_utf8(secret), encode_utf8(signed_decimal(now as int))))
}

/// Why an encryption or decryption failed.
#[derive(Debug, Clone, Copy, PartialEq, Eq, Structural)]
pub enum CipherError {
    /// The plaintext is longer than the cipher accepts.
    EncryptionFailed,
    /// The data is too short to hold a nonce.
    InvalidData,
    /// The data did not authenticate under the key.
    DecryptionFailed,
}

/// The sealed form of a message: `nonce` followed by the ciphertext, or the
/// error when sealing was refused.
pub fn pack_sealed(nonce: Vec<u8>, sealed: Option<Vec<u8>>) -> (r: Result<Vec<u8>, CipherError>)
    ensures
        match sealed {
            Some(c) => r matches Ok(v) && v@ == nonce@ + c@,
            None => r == Err::<Vec<u8>, CipherError>(CipherError::EncryptionFailed),
        },
{
    match sealed {
        Some(c) => {
            let mut v = nonce;
            let mut i: usize = 0;
            let ghost start = v@;
            while i < c.len()
                invariant
                    i <= c@.len(),
                    v@ == start + c@.subrange(0, i as int),
                decreases c@.len() - i,
            {
                v.push(c[i]);
                i = i + 1;
                assert(v@ =~= start + c@.subrange(0, i as int));
            }
            assert(c@.subrange(0, c@.len() as int) =~= c@);
            Ok(v)
        },
        None => Err(CipherError::EncryptionFailed),
    }
}

/// A shared secret, the key derived from it, and a whitelist of worker ids.
pub struct SecurityManager {
    preshared_key: String,
    whitelist: Vec<String>,
    key: Vec<u8>,
}

/// What a [`SecurityManager`] holds.
pub struct SecurityManagerView {
    pub secret: Seq<char>,
    pub whitelist: Seq<Seq<char>>,
    pub key: Seq<u8>,
}

impl View for SecurityManager {
    type V = SecurityManagerView;

    closed spec fn view(&self) -> SecurityManagerView {
        SecurityManagerView {
            secret: self.preshared_key@,
            whitelist: string_views(self.whitelist@),
            key: self.key@,
        }
    }
}

impl SecurityManager {
    /// The key is the digest of the secret, and the whitelist has no repeats.
    pub closed spec fn wf(&self) -> bool {
        &&& self.key@ == derived_key(self.preshared_key@)
        &&& self.key@.len() == 32
        &&& string_views(self.whitelist@).no_duplicates()
    }

    /// A manager for `preshared_key`, with its derived key and an empty
    /// whitelist.
    pub fn new(preshared_key: String) -> (r: SecurityManager)
        ensures
            r.wf(),
            r@.secret == preshared_key@,
            r@.key == derived_key(preshared_key@),
            r@.whitelist.len() == 0,
    {
        let key = sha256(preshared_key.as_str().as_bytes());
        let r = SecurityManager { preshared_key, whitelist: Vec::new(), key };
        assert(string_views(r.whitelist@) =~= Seq::<Seq<char>>::empty());
        r
    }

    /// The key derived from `password`.
    pub fn derive_key(password: &str) -> (r: [u8; 32])
        ensures
            r@ == derived_key(password@),
    {
        let digest = sha256(password.as_bytes());
        let mut key = [0u8; 32];
        let mut i: usize = 0;
        while i < 32
            invariant
                digest@.len() == 32,
                i <= 32,
                forall|j: int| 0 <= j < i ==> key@[j] == digest@[j],
            decreases 32 - i,
        {
            key[i] = digest[i];
            i = i + 1;
        }
        assert(key@ =~= digest@);
        key
    }

    /// Encrypts `plaintext` under a fresh random nonce; the result is the
    /// nonce followed by the ciphertext and its tag.
    pub fn encrypt(&self, plaintext: &[u8]) -> (r: Result<Vec<u8>, CipherError>)
        requires
            self.wf(),
        ensures
            r is Ok == (plaintext@.len() <= MAX_PLAINTEXT_LEN),
            r matches Ok(v) ==> exists|nonce: Seq<u8>|
                nonce.len() == NONCE_LEN && v@ == nonce + gcm_sealed(self@.key, nonce, plaintext@),
            r matches Err(e) ==> e == CipherError::EncryptionFailed,
    {
        let nonce = random_nonce();
        let sealed = gcm_seal(self.key.as_slice(), nonce.as_slice(), plaintext);
        pack_sealed(nonce, sealed)
    }

    /// Decrypts what [`SecurityManager::encrypt`] produced: the first twelve
    /// bytes are the nonce, the rest the ciphertext and its tag.
    pub fn decrypt(&self, encrypted_data: &[u8]) -> (r: Result<Vec<u8>, CipherError>)
        requires
            self.wf(),
        ensures
            encrypted_data@.len() < NONCE_LEN ==> r == Err::<Vec<u8>, CipherError>(
                CipherError::InvalidData,
            ),
            encrypted_data@.len() >= NONCE_LEN ==> match gcm_opened(
                self@.key,
                encrypted_data@.subrange(0, NONCE_LEN as int),
                encrypted_data@.subrange(NONCE_LEN as int, encrypted_data@.len() as int),
            ) {
                Some(p) => r matches Ok(v) && v@ == p,
                None => r == Err::<Vec<u8>, CipherError>(CipherError::DecryptionFailed),
            },
    {
        if encrypted_data.len() < NONCE_LEN {
            return Err(CipherError::InvalidData);
        }
        let nonce = bytes_between(encrypted_data, 0, NONCE_LEN);
        let body = bytes_between(encrypted_data, NONCE_LEN, encrypted_data.len());
        match gcm_open(self.key.as_slice(), nonce.as_slice(), body.as_slice()) {
            Some(p) => Ok(p),
            None => Err(CipherError::DecryptionFailed),
        }
    }

    /// Whether `key` is the shared secret.
    pub fn verify_key(&self, key: &str) -> (r: bool)
        ensures
            r == (self@.secret == key@),
    {
        str_eq(self.preshared_key.as_str(), key)
    }

    /// Adds `worker_id` to the whitelist unless it is already there.
    pub fn add_to_whitelist(&mut self, worker_id: String)
        requires
            old(self).wf(),
        ensures
            final(self).wf(),
            final(self)@.secret == old(self)@.secret,
            final(self)@.key == old(self)@.key,
            final(self)@.whitelist == if old(self)@.whitelist.contains(worker_id@) {
                old(self)@.whitelist
            } else {
                old(self)@.whitelist.push(worker_id@)
            },
    {
        if !list_contains(&self.whitelist, worker_id.as_str()) {
            let ghost id = worker_id@;
            self.whitelist.push(worker_id);
            assert(string_views(self.whitelist@) =~= old(self)@.whitelist.push(id));
        }
    }

    /// Whether `worker_id` may join: the whitelist is empty or names it.
    pub fn is_whitelisted(&self, worker_id: &str) -> (r: bool)
        ensures
            r == (self@.whitelist.len() == 0 || self@.whitelist.contains(worker_id@)),
    {
        self.whitelist.len() == 0 || list_contains(&self.whitelist, worker_id)
    }

    /// The token for time `now`.
    pub fn token_at(&self, now: i64) -> (r: String)
        ensures
            r@ == token_for(self@.secret, now),
    {
        let stamp = signed_decimal_string(now);
        let tag = hmac_sha256(self.preshared_key.as_str().as_bytes(), stamp.as_str().as_bytes());
        hex_string(tag.as_slice())
    }

    /// Whether `token` is the token for time `now`.
    pub fn verify_token_at(&self, token: &str, now: i64) -> (r: bool)
        ensures
            r == (token@ == token_for(self@.secret, now)),
    {
        let expected = self.token_at(now);
        str_eq(expected.as_str(), token)
    }

    /// A token for the current second.
    pub fn generate_token(&self) -> (r: String)
        ensures
            exists|now: i64|
                0 <= now < TIMESTAMP_BOUND && r@ == token_for(self@.secret, now),
    {
        let now = unix_now();
        self.token_at(now)
    }

    /// Whether `token` is the token for the current second.
    pub fn verify_token(&self, token: &str) -> (r: bool)
        ensures
            exists|now: i64|
                0 <= now < TIMESTAMP_BOUND && r == (token@ == token_for(
                    self@.secret,
                    now,
                )),
    {
        let now = unix_now();
        self.verify_token_at(token, now)
    }
}

impl Default for SecurityManager {
    fn default() -> (r: SecurityManager)
        ensures
            r.wf(),
            r@.whitelist.len() == 0,
    {
        SecurityManager::new(String::from_str("default-secret-key"))
    }
}

} // verus!
