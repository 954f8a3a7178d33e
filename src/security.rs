//! Optional admission checks: a pre-shared key and a worker whitelist.

use vstd::prelude::*;

use vstd::slice::slice_to_vec;

use crate::text::{list_contains, str_eq, string_views};

verus! {

/// Why a security operation failed.
#[derive(Debug, Clone, Copy, PartialEq, Eq, Structural)]
pub enum SecurityError {
    /// The data could not be processed.
    InvalidData,
}

/// An optional pre-shared key and an optional whitelist of worker ids. With
/// no key set every key is accepted; with an empty whitelist every worker is.
pub struct Security {
    preshared_key: Option<String>,
    whitelist: Vec<String>,
}

/// What a [`Security`] holds.
pub struct SecurityView {
    pub key: Option<Seq<char>>,
    pub whitelist: Seq<Seq<char>>,
}

impl View for Security {
    type V = SecurityView;

    closed spec fn view(&self) -> SecurityView {
        SecurityView {
            key: match self.preshared_key {
                Some(k) => Some(k@),
                None => None,
            },
            whitelist: string_views(self.whitelist@),
        }
    }
}

/// Whether `key` passes the check of `s`.
pub open spec fn key_accepted(s: SecurityView, key: Seq<char>) -> bool {
    match s.key {
        Some(k) => k == key,
        None => true,
    }
}

/// Whether `worker_id` passes the whitelist of `s`.
pub open spec fn worker_admitted(s: SecurityView, worker_id: Seq<char>) -> bool {
    s.whitelist.len() == 0 || s.whitelist.contains(worker_id)
}

impl Security {
    /// No key and an empty whitelist.
    pub fn new() -> (r: Security)
        ensures
            r@.key is None,
            r@.whitelist.len() == 0,
    {
        let r = Security { preshared_key: None, whitelist: Vec::new() };
        assert(string_views(r.whitelist@) =~= Seq::<Seq<char>>::empty());
        r
    }

    /// Sets the pre-shared key.
    pub fn set_preshared_key(&mut self, key: String)
        ensures
            final(self)@.key == Some(key@),
            final(self)@.whitelist == old(self)@.whitelist,
    {
        self.preshared_key = Some(key);
    }

    /// Whether `key` is the pre-shared key; any key passes when none is set.
    pub fn verify_key(&self, key: &str) -> (r: bool)
        ensures
            r == key_accepted(self@, key@),
    {
        match &self.preshared_key {
            Some(stored) => str_eq(stored.as_str(), key),
            None => true,
        }
    }

    /// Adds `worker_id` to the whitelist.
    pub fn add_to_whitelist(&mut self, worker_id: String)
        ensures
            final(self)@.whitelist == old(self)@.whitelist.push(worker_id@),
            final(self)@.key == old(self)@.key,
    {
        self.whitelist.push(worker_id);
        assert(string_views(self.whitelist@) =~= old(self)@.whitelist.push(worker_id@));
    }

    /// Whether `worker_id` may join: the whitelist is empty or names it.
    pub fn is_whitelisted(&self, worker_id: &str) -> (r: bool)
        ensures
            r == worker_admitted(self@, worker_id@),
    {
        if self.whitelist.len() == 0 {
            return true;
        }
        list_contains(&self.whitelist, worker_id)
    }

    /// Encryption at this layer is the identity: the bytes come back as given.
    pub fn encrypt(&self, data: &[u8]) -> (r: Result<Vec<u8>, SecurityError>)
        ensures
            r matches Ok(v) && v@ == data@,
    {
        Ok(slice_to_vec(data))
    }

    /// Decryption at this layer is the identity: the bytes come back as given.
    pub fn decrypt(&self, data: &[u8]) -> (r: Result<Vec<u8>, SecurityError>)
        ensures
            r matches Ok(v) && v@ == data@,
    {
        Ok(slice_to_vec(data))
    }
}

impl Default for Security {
    fn default() -> (r: Security)
        ensures
            r@.key is None,
            r@.whitelist.len() == 0,
    {
        Security::new()
    }
}

} // verus!
