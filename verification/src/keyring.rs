//! Keyring-protected storage: stored values are sealed with AES-256-GCM under
//! a master key that lives in the operating system's keyring.
//!
//! A stored value is framed as `nonce (12 bytes) || ciphertext || tag (16
//! bytes)`. The keyring itself and the store underneath are reached by the
//! caller, which hands this type what it read and carries out the steps this
//! type decides on.
use vstd::prelude::*;

use crate::crypto::{
    aes256gcm_open, aes256gcm_open_bytes, aes256gcm_seal_bytes, random_bytes, MAX_SEAL_LEN,
    NONCE_LEN, TAG_LEN,
};
use crate::hex::{decode, encode, hex_decoding, hex_encoding};
use crate::types::{op_error, SeetleError};

verus! {

/// Where a secret lives in the keyring: a service and a user name.
#[derive(Debug, Clone, PartialEq, Eq)]
pub struct KeyringEntry {
    pub service: String,
    pub user: String,
}

/// What reading a keyring entry's password gave.
#[derive(Debug, Clone, PartialEq, Eq)]
pub enum PasswordLookup {
    /// The entry holds this password.
    Found(String),
    /// The entry does not exist.
    Missing,
    /// The keyring failed, with its message.
    Failed(String),
}

/// What `initialize` leaves the caller to do.
#[derive(Debug, Clone, PartialEq, Eq)]
pub enum InitStep {
    /// The master key is in place.
    Done,
    /// Check `key` against the stored value of `item`, then hand both to
    /// `verify_master_key`.
    Verify { item: String, key: Vec<u8> },
    /// Store `password` in the keyring entry, then hand `key` to
    /// `finish_initialize`.
    Store { password: String, key: Vec<u8> },
}

/// The smallest framed value: a nonce and a tag around an empty ciphertext.
pub open spec fn min_frame_len() -> nat {
    (NONCE_LEN + TAG_LEN) as nat
}

/// The plaintext a framed value opens to under `key`, if it opens.
pub open spec fn unframed(key: Seq<u8>, stored: Seq<u8>) -> Option<Seq<u8>> {
    if stored.len() < min_frame_len() {
        None
    } else {
        aes256gcm_open(key, stored.take(NONCE_LEN as int), stored.skip(NONCE_LEN as int))
    }
}

/// What reading a stored value gives, given the cached master key: exactly
/// the outcome `open_item` returns.
pub open spec fn open_outcome(master: Option<Seq<u8>>, stored: Option<Seq<u8>>) -> Option<
    Option<Seq<u8>>,
> {
    match stored {
        None => Some(None),
        Some(w) => match master {
            Some(k) => if w.len() >= min_frame_len() && k.len() == 32 {
                match unframed(k, w) {
                    Some(p) => Some(Some(p)),
                    None => None,
                }
            } else {
                None
            },
            None => None,
        },
    }
}

/// A `SecureStorage` decorator that seals values under a master key kept in
/// the operating system's keyring.
pub struct KeyringStorage {
    service: String,
    identifier: String,
    master_key_cache: Option<Vec<u8>>,
}

impl KeyringStorage {
    /// The master key this storage seals with, once it has been loaded.
    pub closed spec fn master(&self) -> Option<Seq<u8>> {
        match self.master_key_cache {
            Some(k) => Some(k@),
            None => None,
        }
    }

    /// The keyring service name.
    pub closed spec fn service_name(&self) -> Seq<char> {
        self.service@
    }

    /// The keyring user name of the master key.
    pub closed spec fn identifier_name(&self) -> Seq<char> {
        self.identifier@
    }

    /// Creates the storage for the master key kept under `service` and
    /// `identifier`; the key itself is loaded later.
    pub fn new(service: &str, identifier: &str) -> (r: Result<Self, SeetleError>)
        ensures
            r matches Ok(s) && s.master() is None && s.service_name() == service@
                && s.identifier_name() == identifier@,
    {
        Ok(KeyringStorage {
            service: String::from_str(service),
            identifier: String::from_str(identifier),
            master_key_cache: None,
        })
    }

    /// The keyring entry that holds the master key.
    pub fn get_entry(&self) -> (e: KeyringEntry)
        ensures
            e.service@ == self.service_name(),
            e.user@ == self.identifier_name(),
    {
        KeyringEntry { service: self.service.clone(), user: self.identifier.clone() }
    }

    /// The master key, when it has been loaded.
    pub fn cached_master_key(&self) -> (r: Option<Vec<u8>>)
        ensures
            match r {
                Some(k) => self.master() == Some(k@),
                None => self.master() is None,
            },
    {
        match &self.master_key_cache {
            Some(k) => {
                let c = k.clone();
                assert(c@ =~= k@);
                Some(c)
            },
            None => None,
        }
    }

    /// Takes the master key from what reading its keyring entry gave: the
    /// hex password decoded, `KeyNotFound` for a missing entry, the
    /// keyring's message for a failure.
    pub fn load_master_key(&mut self, lookup: PasswordLookup) -> (r: Result<Vec<u8>, SeetleError>)
        ensures
            final(self).service_name() == old(self).service_name(),
            final(self).identifier_name() == old(self).identifier_name(),
            match lookup {
                PasswordLookup::Found(hex) => match hex_decoding(hex@) {
                    Some(k) => r matches Ok(key) && key@ == k && final(self).master() == Some(k),
                    None => r matches Err(SeetleError::DataError) && final(self).master()
                        == old(self).master(),
                },
                PasswordLookup::Missing => r matches Err(SeetleError::KeyNotFound)
                    && final(self).master() == old(self).master(),
                PasswordLookup::Failed(m) => r matches Err(SeetleError::StorageError(e))
                    && e@ == m@ && final(self).master() == old(self).master(),
            },
    {
        match lookup {
            PasswordLookup::Found(hex) => match decode(hex.as_str()) {
                Some(key) => {
                    let c = key.clone();
                    assert(c@ =~= key@);
                    self.master_key_cache = Some(c);
                    Ok(key)
                },
                None => Err(SeetleError::DataError),
            },
            PasswordLookup::Missing => Err(SeetleError::KeyNotFound),
            PasswordLookup::Failed(m) => Err(SeetleError::StorageError(m)),
        }
    }

    /// Seals `value` for storage under a fresh random nonce.
    pub fn seal_item(&self, value: Vec<u8>) -> (r: Result<Vec<u8>, SeetleError>)
        ensures
            match self.master() {
                None => r matches Err(SeetleError::KeyNotFound),
                Some(k) => if k.len() != 32 {
                    r matches Err(e) && op_error(e, "Failed to create ring key"@)
                } else {
                    match r {
                        Ok(w) => w@.len() == value@.len() + min_frame_len() && unframed(k, w@)
                            == Some(value@),
                        Err(e) => op_error(e, "RNG error"@) || (value@.len() > MAX_SEAL_LEN
                            && op_error(e, "Keyring storage encryption error"@)),
                    }
                },
            },
    {
        let key = match &self.master_key_cache {
            Some(k) => k,
            None => return Err(SeetleError::KeyNotFound),
        };
        if key.len() != 32 {
            return Err(SeetleError::OperationError(String::from_str("Failed to create ring key")));
        }
        let nonce = match random_bytes(NONCE_LEN) {
            Some(n) => n,
            None => return Err(SeetleError::OperationError(String::from_str("RNG error"))),
        };
        let len = value.len();
        let ghost plain = value@;
        let sealed = match aes256gcm_seal_bytes(key.as_slice(), nonce.as_slice(), value) {
            Some(s) => s,
            None => {
                return Err(
                    SeetleError::OperationError(
                        String::from_str("Keyring storage encryption error"),
                    ),
                )
            },
        };
        let mut framed = nonce;
        let mut i: usize = 0;
        while i < sealed.len()
            invariant
                framed@ == nonce@ + sealed@.take(i as int),
                nonce@.len() == NONCE_LEN,
                i <= sealed@.len(),
            decreases sealed@.len() - i,
        {
            framed.push(sealed[i]);
            i = i + 1;
            assert(framed@ =~= nonce@ + sealed@.take(i as int));
        }
        proof {
            assert(sealed@.take(i as int) =~= sealed@);
            assert(framed@.take(NONCE_LEN as int) =~= nonce@);
            assert(framed@.skip(NONCE_LEN as int) =~= sealed@);
            reveal_strlit("RNG error");
        }
        Ok(framed)
    }

    /// Opens a value read from the store: nothing stored reads as nothing,
    /// a stored value reads as the plaintext it was sealed from.
    pub fn open_item(&self, stored: Option<Vec<u8>>) -> (r: Result<Option<Vec<u8>>, SeetleError>)
        ensures
            match r {
                Ok(o) => open_outcome(self.master(), crate::hex::bytes_opt(stored)) == Some(
                    crate::hex::bytes_opt(o),
                ),
                Err(e) => open_outcome(self.master(), crate::hex::bytes_opt(stored)) is None,
            },
            match stored {
                None => true,
                Some(w) => if w@.len() < min_frame_len() {
                    r matches Err(e) && op_error(e, "Invalid wrapped data (too short)"@)
                } else {
                    match self.master() {
                        None => r matches Err(SeetleError::KeyNotFound),
                        Some(k) => (k.len() == 32 && unframed(k, w@) is None) ==> (r matches Err(e)
                            && op_error(
                            e,
                            "Keyring storage decryption error: ring::error::Unspecified"@,
                        )),
                    }
                },
            },
    {
        let w = match stored {
            Some(w) => w,
            None => return Ok(None),
        };
        if w.len() < NONCE_LEN + TAG_LEN {
            return Err(
                SeetleError::OperationError(String::from_str("Invalid wrapped data (too short)")),
            );
        }
        let key = match &self.master_key_cache {
            Some(k) => k,
            None => return Err(SeetleError::KeyNotFound),
        };
        if key.len() != 32 {
            return Err(SeetleError::OperationError(String::from_str("Failed to create ring key")));
        }
        let nonce = vstd::slice::slice_subrange(w.as_slice(), 0, NONCE_LEN);
        let body = vstd::slice::slice_subrange(w.as_slice(), NONCE_LEN, w.len());
        proof {
            assert(nonce@ =~= w@.take(NONCE_LEN as int));
            assert(body@ =~= w@.skip(NONCE_LEN as int));
        }
        match aes256gcm_open_bytes(key.as_slice(), nonce, body) {
            Some(p) => Ok(Some(p)),
            None => Err(
                SeetleError::OperationError(
                    String::from_str("Keyring storage decryption error: ring::error::Unspecified"),
                ),
            ),
        }
    }

    /// Decides the first step of initialization from what reading the
    /// keyring entry gave and the names the store holds.
    ///
    /// A found key is taken at once when the store is empty, and otherwise
    /// checked against the first stored item. A missing key is an error when
    /// the store holds data; for an empty store a fresh random key is made,
    /// to be saved in the keyring.
    pub fn initialize(&mut self, lookup: PasswordLookup, items: &[String]) -> (r: Result<
        InitStep,
        SeetleError,
    >)
        ensures
            final(self).service_name() == old(self).service_name(),
            final(self).identifier_name() == old(self).identifier_name(),
            match lookup {
                PasswordLookup::Found(hex) => match hex_decoding(hex@) {
                    None => r matches Err(SeetleError::DataError) && final(self).master() == old(
                        self,
                    ).master(),
                    Some(k) => if items@.len() == 0 {
                        r matches Ok(InitStep::Done) && final(self).master() == Some(k)
                    } else {
                        r matches Ok(InitStep::Verify { item, key }) && item@ == items@[0]@
                            && key@ == k && final(self).master() == old(self).master()
                    },
                },
                PasswordLookup::Missing => final(self).master() == old(self).master() && if items@.len()
                    > 0 {
                    r matches Err(e) && op_error(e, missing_key_message())
                } else {
                    match r {
                        Ok(step) => step matches InitStep::Store { password, key } && key@.len()
                            == 32 && password@ == hex_encoding(key@),
                        Err(e) => op_error(e, "RNG error"@),
                    }
                },
                PasswordLookup::Failed(m) => r matches Err(SeetleError::StorageError(e)) && e@
                    == m@ && final(self).master() == old(self).master(),
            },
    {
        match lookup {
            PasswordLookup::Found(hex) => {
                let key = match decode(hex.as_str()) {
                    Some(k) => k,
                    None => return Err(SeetleError::DataError),
                };
                if items.len() > 0 {
                    Ok(InitStep::Verify { item: items[0].clone(), key })
                } else {
                    self.master_key_cache = Some(key);
                    Ok(InitStep::Done)
                }
            },
            PasswordLookup::Missing => {
                if items.len() > 0 {
                    return Err(SeetleError::OperationError(missing_key_text()));
                }
                let key = match random_bytes(32) {
                    Some(k) => k,
                    None => {
                        proof {
                            reveal_strlit("RNG error");
                        }
                        return Err(SeetleError::OperationError(String::from_str("RNG error")));
                    },
                };
                let password = encode(key.as_slice());
                Ok(InitStep::Store { password, key })
            },
            PasswordLookup::Failed(m) => Err(SeetleError::StorageError(m)),
        }
    }

    /// Checks a master key found in the keyring against the stored value of
    /// `item` (as read from the store) and takes it when it opens that value.
    pub fn verify_master_key(&mut self, item: &str, key: Vec<u8>, stored: Option<Vec<u8>>) -> (r:
        Result<(), SeetleError>)
        ensures
            final(self).service_name() == old(self).service_name(),
            final(self).identifier_name() == old(self).identifier_name(),
            r is Ok ==> final(self).master() == Some(key@),
            r is Err ==> final(self).master() == old(self).master(),
            match stored {
                None => r is Ok,
                Some(w) => if w@.len() < min_frame_len() {
                    r matches Err(e) && op_error(e, short_item_message(item@))
                } else if key@.len() != 32 {
                    r matches Err(e) && op_error(e, "Failed to create ring key for verification"@)
                } else if unframed(key@, w@) is None {
                    r matches Err(e) && op_error(e, mismatch_message())
                } else {
                    r is Ok
                },
            },
    {
        match stored {
            None => {
                self.master_key_cache = Some(key);
                Ok(())
            },
            Some(w) => {
                if w.len() < NONCE_LEN + TAG_LEN {
                    let mut msg = String::from_str("Invalid wrapped data for item '");
                    msg.append(item);
                    msg.append("' (too short)");
                    proof {
                        reveal_strlit("Invalid wrapped data for item '");
                        reveal_strlit("' (too short)");
                        assert(msg@ =~= short_item_message(item@));
                    }
                    return Err(SeetleError::OperationError(msg));
                }
                if key.len() != 32 {
                    return Err(
                        SeetleError::OperationError(
                            String::from_str("Failed to create ring key for verification"),
                        ),
                    );
                }
                let nonce = vstd::slice::slice_subrange(w.as_slice(), 0, NONCE_LEN);
                let body = vstd::slice::slice_subrange(w.as_slice(), NONCE_LEN, w.len());
                proof {
                    assert(nonce@ =~= w@.take(NONCE_LEN as int));
                    assert(body@ =~= w@.skip(NONCE_LEN as int));
                }
                match aes256gcm_open_bytes(key.as_slice(), nonce, body) {
                    Some(_) => {
                        self.master_key_cache = Some(key);
                        Ok(())
                    },
                    None => Err(SeetleError::OperationError(mismatch_text())),
                }
            },
        }
    }

    /// Takes the fresh master key once it has been saved in the keyring.
    pub fn finish_initialize(&mut self, key: Vec<u8>)
        ensures
            final(self).master() == Some(key@),
            final(self).service_name() == old(self).service_name(),
            final(self).identifier_name() == old(self).identifier_name(),
    {
        self.master_key_cache = Some(key);
    }
}

/// The error text for a stored item too short to hold a sealed value.
pub open spec fn short_item_message(item: Seq<char>) -> Seq<char> {
    "Invalid wrapped data for item '"@ + item + "' (too short)"@
}

/// The error text when the stored data exists but the keyring has no master
/// key.
pub open spec fn missing_key_message() -> Seq<char> {
    "Keyring master key not found, but stored data exists. This usually indicates that the OS keyring is not persistent or was cleared. If you are in a headless environment, ensure a persistent D-Bus/Secret Service session is available."@
}

/// The error text when the keyring's master key does not open the stored
/// data.
pub open spec fn mismatch_message() -> Seq<char> {
    "Keyring master key mismatch. The key in the OS keyring does not match the stored data. Was the keyring cleared or the master key changed?"@
}

fn missing_key_text() -> (s: String)
    ensures
        s@ == missing_key_message(),
{
    String::from_str(
        "Keyring master key not found, but stored data exists. This usually indicates that the OS keyring is not persistent or was cleared. If you are in a headless environment, ensure a persistent D-Bus/Secret Service session is available.",
    )
}

fn mismatch_text() -> (s: String)
    ensures
        s@ == mismatch_message(),
{
    String::from_str(
        "Keyring master key mismatch. The key in the OS keyring does not match the stored data. Was the keyring cleared or the master key changed?",
    )
}

/// Reading back a value that was sealed under the cached master key gives
/// the value itself.
pub proof fn law_open_after_seal(master: Seq<u8>, value: Seq<u8>, stored: Seq<u8>)
    requires
        master.len() == 32,
        stored.len() == value.len() + min_frame_len(),
        unframed(master, stored) == Some(value),
    ensures
        open_outcome(Some(master), Some(stored)) == Some(Some(value)),
{
}

/// Nothing stored reads as nothing, whatever the master key.
pub proof fn law_open_nothing(master: Option<Seq<u8>>)
    ensures
        open_outcome(master, None) == Some(Option::<Seq<u8>>::None),
{
}

} // verus!
