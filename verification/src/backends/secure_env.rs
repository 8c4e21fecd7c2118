//! A backend for the mobile secure environments (Android Keystore, iOS
//! Secure Enclave). Outside Android and iOS, which is where this build
//! runs, key creation and use are not supported; the stored records can
//! still be updated and removed.
use vstd::prelude::*;

use crate::backends::{check_usage, update_record, usage_message, StoredKey};
use crate::types::{op_error, Bindings, KeyUsage, SeetleError};

verus! {

/// A backend for the mobile secure environments.
pub struct SecureEnvBackend {}

impl SecureEnvBackend {
    /// Creates the backend.
    pub fn new() -> (b: Self) {
        SecureEnvBackend {  }
    }

    /// Succeeds when the stored key allows `usage`.
    pub fn check_usage(&self, record: &StoredKey, usage: KeyUsage) -> (r: Result<(), SeetleError>)
        ensures
            r is Ok <==> record.usages@.contains(usage),
            r matches Err(e) ==> op_error(e, usage_message(usage)),
    {
        check_usage(record.usages.as_slice(), usage)
    }

    /// Key generation, signing, verification and export need the mobile
    /// secure environment, which this platform lacks.
    pub fn platform_operation(&self) -> (e: SeetleError)
        ensures
            e matches SeetleError::NotSupported,
    {
        SeetleError::NotSupported
    }

    /// Replaces the bindings of a stored key created updatable.
    pub fn update_key(&self, record: StoredKey, new_bindings: Bindings) -> (r: Result<
        StoredKey,
        SeetleError,
    >)
        ensures
            if record.bindings.updatable {
                r matches Ok(k) && k.bindings == new_bindings && k.algorithm == record.algorithm
                    && k.usages@ == record.usages@
            } else {
                r matches Err(e) && op_error(e, "Key is not updatable"@)
            },
    {
        update_record(record, new_bindings)
    }
}

} // verus!
