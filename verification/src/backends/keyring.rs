//! A backend that keeps key material in the operating system's keyring, hex
//! encoded, and its metadata in the store; signing uses `ring`.
use vstd::prelude::*;

use crate::backends::{
    check_extractable, check_usage, extractable_conflict, extractable_message, update_record,
    usage_message, StoredKey,
};
use crate::crypto::{p256_generate_pkcs8, p256_loads, p256_public_key, p256_public_key_of, p256_sign, p256_verifies, p256_verify, random_bytes, SignFailure};
use crate::hex::{decode, encode, hex_decoding, hex_encoding};
use crate::keyring::KeyringEntry;
use crate::text::joined;
use crate::types::{op_error, op_error_starting, Algorithm, Bindings, KeyUsage, SeetleError};

verus! {

/// A key made by `generate_key`: the secret to save in the keyring entry and
/// the record to store under the key's identifier.
#[derive(Debug, Clone)]
pub struct GeneratedSecret {
    pub entry: KeyringEntry,
    /// The key material.
    pub material: Vec<u8>,
    /// The key material as saved in the keyring: lowercase hex.
    pub secret: String,
    pub record: StoredKey,
}

/// Whether an algorithm is ECDSA on the P-256 curve.
pub open spec fn is_p256(a: Algorithm) -> bool {
    a matches Algorithm::Ecdsa { named_curve, .. } && named_curve@ == "P-256"@
}

/// Whether `material` read from the keyring decodes, and how: `None` for a
/// failed read or a bad encoding, with the error they give.
pub open spec fn secret_error(secret: Result<String, String>, e: SeetleError) -> bool {
    match secret {
        Err(m) => e matches SeetleError::StorageError(s) && s@ == m@,
        Ok(hex) => hex_decoding(hex@) is None && e matches SeetleError::DataError,
    }
}

/// The key material a keyring read gives, when it decodes.
pub open spec fn secret_material(secret: Result<String, String>) -> Option<Seq<u8>> {
    match secret {
        Err(_) => None,
        Ok(hex) => hex_decoding(hex@),
    }
}

/// A backend that uses the system keyring for secure storage of key material.
pub struct KeyringBackend {
    service: String,
}

fn curve_is_p256(algorithm: &Algorithm) -> (r: Option<bool>)
    ensures
        match algorithm {
            Algorithm::Ecdsa { named_curve, .. } => r == Some(named_curve@ == "P-256"@),
            _ => r is None,
        },
{
    match algorithm {
        Algorithm::Ecdsa { named_curve, .. } => {
            let p = String::from_str("P-256");
            Some(*named_curve == p)
        },
        _ => None,
    }
}

fn decode_secret(secret: Result<String, String>) -> (r: Result<Vec<u8>, SeetleError>)
    ensures
        match r {
            Ok(m) => secret_material(secret) == Some(m@),
            Err(e) => secret_material(secret) is None && secret_error(secret, e),
        },
{
    match secret {
        Err(m) => Err(SeetleError::StorageError(m)),
        Ok(hex) => match decode(hex.as_str()) {
            Some(m) => Ok(m),
            None => Err(SeetleError::DataError),
        },
    }
}

impl KeyringBackend {
    /// The keyring service the key material is saved under.
    pub closed spec fn service_name(&self) -> Seq<char> {
        self.service@
    }

    /// A backend saving under the default service name, `seelte`.
    pub fn new() -> (b: Self)
        ensures
            b.service_name() == "seelte"@,
    {
        KeyringBackend { service: String::from_str("seelte") }
    }

    /// A backend saving under the given service name.
    pub fn with_service(service: &str) -> (b: Self)
        ensures
            b.service_name() == service@,
    {
        KeyringBackend { service: String::from_str(service) }
    }

    /// Succeeds when the stored key allows `usage`.
    pub fn check_usage(&self, record: &StoredKey, usage: KeyUsage) -> (r: Result<(), SeetleError>)
        ensures
            r is Ok <==> record.usages@.contains(usage),
            r matches Err(e) ==> op_error(e, usage_message(usage)),
    {
        check_usage(record.usages.as_slice(), usage)
    }

    /// The keyring entry that holds the material of the key `identifier`.
    pub fn get_key_entry(&self, identifier: &str) -> (e: KeyringEntry)
        ensures
            e.service@ == self.service_name(),
            e.user@ == identifier@,
    {
        KeyringEntry { service: self.service.clone(), user: String::from_str(identifier) }
    }

    /// Generates the material of a new key: a P-256 key pair as PKCS#8, or
    /// random AES key bytes. Keys need bindings, and a hardware-bound key
    /// may not be extractable.
    pub fn generate_key(
        &self,
        algorithm: Algorithm,
        extractable: bool,
        bindings: Option<Bindings>,
        key_usages: Vec<KeyUsage>,
    ) -> (r: Result<GeneratedSecret, SeetleError>)
        ensures
            match bindings {
                None => r matches Err(SeetleError::NotSupported),
                Some(b) => if extractable_conflict(b, extractable) {
                    r matches Err(e) && op_error(e, extractable_message())
                } else {
                    match algorithm {
                        Algorithm::Ecdsa { named_curve, .. } => if named_curve@ != "P-256"@ {
                            r matches Err(SeetleError::NotSupported)
                        } else {
                            (r is Err ==> (r matches Err(e) && op_error_starting(
                                e,
                                "Key generation error: "@,
                            ))) && (r matches Ok(g) ==> p256_loads(g.material@))
                        },
                        Algorithm::AesGcm { length, .. } => match r {
                            Ok(g) => g.material@.len() == length / 8,
                            Err(e) => op_error(e, "RNG error"@),
                        },
                        _ => r matches Err(SeetleError::NotSupported),
                    }
                },
            },
            r matches Ok(g) ==> bindings matches Some(b) && g.secret@ == hex_encoding(g.material@)
                && g.entry.service@ == self.service_name() && g.entry.user@ == b.identifier@
                && g.record.bindings == b && g.record.algorithm == algorithm && g.record.usages@
                == key_usages@,
    {
        let b = match bindings {
            Some(b) => b,
            None => return Err(SeetleError::NotSupported),
        };
        check_extractable(&b, extractable)?;
        let material = match &algorithm {
            Algorithm::Ecdsa { named_curve, .. } => {
                let p = String::from_str("P-256");
                if *named_curve != p {
                    return Err(SeetleError::NotSupported);
                }
                match p256_generate_pkcs8() {
                    Ok(m) => m,
                    Err(t) => {
                        let msg = joined("Key generation error: ", t.as_str());
                        proof {
                            reveal_strlit("Key generation error: ");
                            assert(msg@.take(22) =~= "Key generation error: "@);
                        }
                        return Err(SeetleError::OperationError(msg));
                    },
                }
            },
            Algorithm::AesGcm { length, .. } => {
                let n = (*length / 8) as usize;
                match random_bytes(n) {
                    Some(m) => m,
                    None => return Err(SeetleError::OperationError(String::from_str("RNG error"))),
                }
            },
            _ => return Err(SeetleError::NotSupported),
        };
        let secret = encode(material.as_slice());
        let entry = self.get_key_entry(b.identifier.as_str());
        Ok(GeneratedSecret {
            entry,
            material,
            secret,
            record: StoredKey { bindings: b, algorithm, usages: key_usages },
        })
    }

    /// Replaces the bindings of a stored key created updatable.
    pub fn update_key(&self, record: StoredKey, new_bindings: Bindings) -> (r: Result<
        StoredKey,
        SeetleError,
    >)
        ensures
            if record.bindings.updatable {
                r matches Ok(k) && k.bindings == new_bindings && k.algorithm == record.algorithm
                    && k.usages@ == record.usages@
            } else {
                r matches Err(e) && op_error(e, "Key is not updatable"@)
            },
    {
        update_record(record, new_bindings)
    }

    /// Signs `data` with a stored P-256 key whose material `secret` is what
    /// reading its keyring entry gave.
    pub fn sign(&self, record: &StoredKey, secret: Result<String, String>, data: &[u8]) -> (r:
        Result<Vec<u8>, SeetleError>)
        ensures
            if !record.usages@.contains(KeyUsage::Sign) {
                r matches Err(e) && op_error(e, usage_message(KeyUsage::Sign))
            } else {
                match secret_material(secret) {
                None => r matches Err(e) && secret_error(secret, e),
                Some(m) => if !is_p256(record.algorithm) {
                    r matches Err(SeetleError::NotSupported)
                } else {
                    match r {
                        Ok(sig) => p256_verifies(p256_public_key(m), data@, sig@) && sig@.len()
                            == 64 && p256_loads(m),
                        Err(e) => op_error_starting(e, "Key load error: "@) || op_error_starting(
                            e,
                            "Signing error: "@,
                        ),
                    }
                },
                }
            },
    {
        check_usage(record.usages.as_slice(), KeyUsage::Sign)?;
        let material = decode_secret(secret)?;
        match curve_is_p256(&record.algorithm) {
            Some(true) => {},
            _ => return Err(SeetleError::NotSupported),
        }
        match p256_sign(material.as_slice(), data) {
            Ok(sig) => Ok(sig),
            Err(SignFailure::KeyRejected(t)) => {
                let msg = joined("Key load error: ", t.as_str());
                proof {
                    reveal_strlit("Key load error: ");
                    assert(msg@.take(16) =~= "Key load error: "@);
                }
                Err(SeetleError::OperationError(msg))
            },
            Err(SignFailure::Signing(t)) => {
                let msg = joined("Signing error: ", t.as_str());
                proof {
                    reveal_strlit("Signing error: ");
                    assert(msg@.take(15) =~= "Signing error: "@);
                }
                Err(SeetleError::OperationError(msg))
            },
        }
    }

    /// Verifies `signature` over `data` with a stored P-256 key whose material
    /// `secret` is what reading its keyring entry gave.
    pub fn verify(
        &self,
        record: &StoredKey,
        secret: Result<String, String>,
        signature: &[u8],
        data: &[u8],
    ) -> (r: Result<bool, SeetleError>)
        ensures
            if !record.usages@.contains(KeyUsage::Verify) {
                r matches Err(e) && op_error(e, usage_message(KeyUsage::Verify))
            } else {
                match secret_material(secret) {
                None => r matches Err(e) && secret_error(secret, e),
                Some(m) => if !is_p256(record.algorithm) {
                    r matches Err(SeetleError::NotSupported)
                } else {
                    match r {
                        Ok(ok) => ok == p256_verifies(p256_public_key(m), data@, signature@)
                            && p256_loads(m),
                        Err(e) => op_error_starting(e, "Key load error: "@),
                    }
                },
                }
            },
    {
        check_usage(record.usages.as_slice(), KeyUsage::Verify)?;
        let material = decode_secret(secret)?;
        match curve_is_p256(&record.algorithm) {
            Some(true) => {},
            _ => return Err(SeetleError::NotSupported),
        }
        match p256_public_key_of(material.as_slice()) {
            Ok(pk) => Ok(p256_verify(pk.as_slice(), data, signature)),
            Err(t) => {
                let msg = joined("Key load error: ", t.as_str());
                proof {
                    reveal_strlit("Key load error: ");
                    assert(msg@.take(16) =~= "Key load error: "@);
                }
                Err(SeetleError::OperationError(msg))
            },
        }
    }
}

} // verus!
