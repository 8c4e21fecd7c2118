//! A mock backend for testing: it keeps the bindings of the keys it creates
//! in the store and answers every operation with fixed bytes.
use vstd::prelude::*;

use crate::backends::{check_extractable, extractable_conflict, extractable_message, not_updatable_message};
use crate::types::{op_error, Algorithm, Bindings, CryptoKey, KeyOrIdentifier, KeyType, KeyUsage, SeetleError};

verus! {

/// `n` zero bytes.
pub open spec fn zeros(n: nat) -> Seq<u8> {
    Seq::new(n, |i: int| 0u8)
}

/// What a key generation leaves to do.
#[derive(Debug, Clone, PartialEq, Eq)]
pub enum MockGenerated {
    /// A key given back by value.
    Key(CryptoKey),
    /// Store `bindings` under their identifier, which names the new key.
    Store(Bindings),
}

/// A mock backend for testing.
pub struct MockBackend {}

fn zero_bytes(n: usize) -> (v: Vec<u8>)
    ensures
        v@ == zeros(n as nat),
{
    let mut v: Vec<u8> = Vec::new();
    let mut i: usize = 0;
    while i < n
        invariant
            i <= n,
            v@ == zeros(i as nat),
        decreases n - i,
    {
        v.push(0u8);
        i = i + 1;
        assert(v@ =~= zeros(i as nat));
    }
    v
}

/// The key the mock backend hands back for imports and unwraps.
pub open spec fn is_mock_key(k: CryptoKey) -> bool {
    &&& k.key_type == KeyType::Secret
    &&& k.extractable
    &&& k.algorithm matches Algorithm::Generic { name } && name@ == "mock"@
    &&& k.usages@.len() == 0
}

fn mock_key() -> (k: CryptoKey)
    ensures
        is_mock_key(k),
{
    CryptoKey {
        key_type: KeyType::Secret,
        extractable: true,
        algorithm: Algorithm::Generic { name: String::from_str("mock") },
        usages: Vec::new(),
    }
}

impl MockBackend {
    /// Creates the backend.
    pub fn new() -> (b: Self) {
        MockBackend {  }
    }

    /// Generates a key: with bindings, one stored under their identifier
    /// (a hardware-bound key may not be extractable); without, a secret key
    /// given back by value.
    pub fn generate_key(
        &self,
        algorithm: Algorithm,
        extractable: bool,
        bindings: Option<Bindings>,
        key_usages: Vec<KeyUsage>,
    ) -> (r: Result<MockGenerated, SeetleError>)
        ensures
            match bindings {
                None => r matches Ok(MockGenerated::Key(k)) && k.key_type == KeyType::Secret
                    && k.extractable == extractable && k.algorithm == algorithm && k.usages@.len()
                    == 0,
                Some(b) => if extractable_conflict(b, extractable) {
                    r matches Err(e) && op_error(e, extractable_message())
                } else {
                    r == Ok::<MockGenerated, SeetleError>(MockGenerated::Store(b))
                },
            },
    {
        match bindings {
            Some(b) => {
                check_extractable(&b, extractable)?;
                Ok(MockGenerated::Store(b))
            },
            None => Ok(
                MockGenerated::Key(
                    CryptoKey { key_type: KeyType::Secret, extractable, algorithm, usages: Vec::new() },
                ),
            ),
        }
    }

    /// Replaces the bindings of a stored key; `stored` is the bindings the
    /// store holds under its identifier. Gives the bindings to store; a key
    /// created as not updatable keeps its bindings and the update fails.
    pub fn update_key(&self, stored: Option<Bindings>, new_bindings: Bindings) -> (r: Result<
        Bindings,
        SeetleError,
    >)
        ensures
            stored is None ==> r matches Err(SeetleError::KeyNotFound),
            stored matches Some(b) && !b.updatable ==> (r matches Err(e) && op_error(
                e,
                not_updatable_message(),
            )),
            stored matches Some(b) && b.updatable ==> r == Ok::<Bindings, SeetleError>(
                new_bindings,
            ),
    {
        match stored {
            None => Err(SeetleError::KeyNotFound),
            Some(b) => {
                if !b.updatable {
                    return Err(
                        SeetleError::OperationError(String::from_str("Key is not updatable")),
                    );
                }
                Ok(new_bindings)
            },
        }
    }

    /// A fixed 64-byte signature; `key_known` tells whether the key is given
    /// by value or its identifier is stored.
    pub fn sign(&self, key_known: bool) -> (r: Result<Vec<u8>, SeetleError>)
        ensures
            if key_known {
                r matches Ok(v) && v@ == zeros(64)
            } else {
                r matches Err(SeetleError::KeyNotFound)
            },
    {
        if !key_known {
            return Err(SeetleError::KeyNotFound);
        }
        Ok(zero_bytes(64))
    }

    /// Every signature verifies.
    pub fn verify(&self) -> (r: Result<bool, SeetleError>)
        ensures
            r == Ok::<bool, SeetleError>(true),
    {
        Ok(true)
    }

    /// Fixed bytes for the operations that produce data: encryption,
    /// decryption, digest, export, bit derivation and wrapping.
    pub fn fixed_bytes(&self) -> (r: Result<Vec<u8>, SeetleError>)
        ensures
            r matches Ok(v) && v@ == zeros(32),
    {
        Ok(zero_bytes(32))
    }

    /// The key an import or an unwrap gives.
    pub fn import_key(&self) -> (r: Result<CryptoKey, SeetleError>)
        ensures
            r matches Ok(k) && is_mock_key(k),
    {
        Ok(mock_key())
    }

    /// The identifier a key derivation gives.
    pub fn derive_key(&self) -> (r: Result<KeyOrIdentifier, SeetleError>)
        ensures
            r matches Ok(KeyOrIdentifier::Identifier(id)) && id@ == "derived-mock-key"@,
    {
        Ok(KeyOrIdentifier::Identifier(String::from_str("derived-mock-key")))
    }
}

} // verus!
