//! TPM-protected storage. This build has no TPM support, so the decorator
//! passes values through to the store underneath unchanged.
use vstd::prelude::*;

use crate::storage::SecureStorage;
use crate::types::SeetleError;

verus! {

/// A `SecureStorage` decorator meant to wrap values with a TPM 2.0.
pub struct TpmStorage<S> {
    inner: S,
}

impl<S: SecureStorage> TpmStorage<S> {
    /// The store underneath.
    pub closed spec fn inner_store(&self) -> S {
        self.inner
    }

    /// Wraps `inner`; values pass through unchanged.
    pub fn new(inner: S) -> (r: Result<Self, SeetleError>)
        ensures
            r matches Ok(t) && t.inner_store() == inner,
    {
        Ok(TpmStorage { inner })
    }

    /// The store underneath.
    pub fn inner(&self) -> (r: &S)
        ensures
            *r == self.inner_store(),
    {
        &self.inner
    }
}

impl<S: SecureStorage> SecureStorage for TpmStorage<S> {
    open spec fn wf(&self) -> bool {
        self.inner_store().wf()
    }

    open spec fn items(&self) -> Map<Seq<char>, Seq<u8>> {
        self.inner_store().items()
    }

    open spec fn available(&self) -> bool {
        self.inner_store().available()
    }

    fn get_item(&self, key: &str) -> (r: Result<Option<Vec<u8>>, SeetleError>) {
        self.inner.get_item(key)
    }

    fn set_item(&mut self, key: &str, value: Vec<u8>) -> (r: Result<(), SeetleError>) {
        self.inner.set_item(key, value)
    }

    fn remove_item(&mut self, key: &str) -> (r: Result<(), SeetleError>) {
        self.inner.remove_item(key)
    }

    fn list_items(&self) -> (r: Result<Vec<String>, SeetleError>) {
        self.inner.list_items()
    }
}

} // verus!
