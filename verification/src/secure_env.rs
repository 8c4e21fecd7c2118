//! Storage protected by the mobile secure environment. Outside Android and
//! iOS the decorator is transparent: values pass through unchanged.
use vstd::prelude::*;

use crate::storage::SecureStorage;
use crate::types::SeetleError;

verus! {

/// A `SecureStorage` decorator that wraps values with hardware-backed keys
/// on mobile platforms.
pub struct SecureEnvStorage<S> {
    inner: S,
    identifier: String,
}

impl<S: SecureStorage> SecureEnvStorage<S> {
    /// The store underneath.
    pub closed spec fn inner_store(&self) -> S {
        self.inner
    }

    /// The hardware key that protects the values.
    pub closed spec fn key_identifier(&self) -> Seq<char> {
        self.identifier@
    }

    /// Wraps `inner` under the hardware key `identifier`; values pass through
    /// unchanged.
    pub fn new(inner: S, identifier: &str) -> (r: Result<Self, SeetleError>)
        ensures
            r matches Ok(t) && t.inner_store() == inner && t.key_identifier() == identifier@,
    {
        Ok(SecureEnvStorage { inner, identifier: String::from_str(identifier) })
    }

    /// The store underneath.
    pub fn inner(&self) -> (r: &S)
        ensures
            *r == self.inner_store(),
    {
        &self.inner
    }
}

impl<S: SecureStorage> SecureStorage for SecureEnvStorage<S> {
    open spec fn wf(&self) -> bool {
        self.inner_store().wf()
    }

    open spec fn items(&self) -> Map<Seq<char>, Seq<u8>> {
        self.inner_store().items()
    }

    open spec fn available(&self) -> bool {
        self.inner_store().available()
    }

    fn get_item(&self, key: &str) -> (r: Result<Option<Vec<u8>>, SeetleError>) {
        self.inner.get_item(key)
    }

    fn set_item(&mut self, key: &str, value: Vec<u8>) -> (r: Result<(), SeetleError>) {
        self.inner.set_item(key, value)
    }

    fn remove_item(&mut self, key: &str) -> (r: Result<(), SeetleError>) {
        self.inner.remove_item(key)
    }

    fn list_items(&self) -> (r: Result<Vec<String>, SeetleError>) {
        self.inner.list_items()
    }
}

} // verus!
