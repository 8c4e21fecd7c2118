//! A backend for the TROPIC01 secure element. The chip is driven by the
//! caller; this module holds the decisions around each chip call and the
//! record stored for each key.
use vstd::prelude::*;

use crate::debug::algorithm_debug_text;
use crate::backends::{check_extractable, extractable_conflict, extractable_message, visible_keys, visible_names};
use crate::crypto::{p256_verifies, p256_verify};
use crate::types::{op_error, Algorithm, Bindings, KeyMetadata, KeyUsage, SeetleError};

verus! {

/// A status returned by the chip library.
#[derive(Debug, Clone, Copy, PartialEq, Eq, Structural)]
pub enum LtRet {
    Success,
    Fail,
}

/// A handle of the chip library.
pub struct LtHandle {}

/// The curves the chip generates keys on.
#[derive(Debug, Clone, Copy, PartialEq, Eq, Structural)]
pub enum LtEccCurve {
    P256,
    Ed25519,
}

/// What the TROPIC01 backend stores about a key.
#[derive(Debug, Clone)]
pub struct TropicRecord {
    pub bindings: Bindings,
    pub algorithm: Algorithm,
    pub usages: Vec<KeyUsage>,
    pub slot: u32,
}

/// A key generation ready for the chip.
#[derive(Debug, Clone)]
pub struct TropicPlan {
    pub curve: LtEccCurve,
    pub slot: u32,
    pub bindings: Bindings,
    pub algorithm: Algorithm,
    pub usages: Vec<KeyUsage>,
}

/// `e` is the error for a failed chip call named `call`.
pub open spec fn chip_failure(e: SeetleError, call: Seq<char>) -> bool {
    op_error(e, call + " failed: Fail"@)
}

/// A backend for the TROPIC01 secure element.
pub struct TropicBackend {}

impl TropicBackend {
    /// Opens the backend from what starting the chip gave: `None` when no
    /// handle could be created, else the status of `lt_init`.
    pub fn new(init: Option<LtRet>) -> (r: Result<Self, SeetleError>)
        ensures
            match init {
                None => r matches Err(e) && op_error(e, "Failed to create lt_handle"@),
                Some(LtRet::Fail) => r matches Err(e) && chip_failure(e, "lt_init"@),
                Some(LtRet::Success) => r is Ok,
            },
    {
        match init {
            None => {
                let m = String::from_str("Failed to create lt_handle");
                assert(m@ == "Failed to create lt_handle"@);
                Err(SeetleError::OperationError(m))
            },
            Some(LtRet::Fail) => {
                proof {
                    reveal_strlit("lt_init failed: Fail");
                    reveal_strlit("lt_init");
                    reveal_strlit(" failed: Fail");
                    assert("lt_init failed: Fail"@ =~= "lt_init"@ + " failed: Fail"@);
                }
                Err(SeetleError::OperationError(String::from_str("lt_init failed: Fail")))
            },
            Some(LtRet::Success) => Ok(TropicBackend {  }),
        }
    }

    /// Prepares the generation of a key in slot 0: keys need bindings, a
    /// hardware-bound key may not be extractable, and only P-256 is made.
    pub fn generate_key(
        &self,
        algorithm: Algorithm,
        extractable: bool,
        bindings: Option<Bindings>,
        key_usages: Vec<KeyUsage>,
    ) -> (r: Result<TropicPlan, SeetleError>)
        ensures
            match bindings {
                None => r matches Err(e) && op_error(e, "Bindings required for TropicBackend"@),
                Some(b) => if extractable_conflict(b, extractable) {
                    r matches Err(e) && op_error(e, extractable_message())
                } else if algorithm matches Algorithm::Ecdsa { named_curve, .. } && named_curve@
                    == "P-256"@ {
                    r matches Ok(p) && p.curve == LtEccCurve::P256 && p.slot == 0 && p.bindings == b
                        && p.algorithm == algorithm && p.usages@ == key_usages@
                } else {
                    r matches Err(SeetleError::NotSupported)
                },
            },
    {
        let b = match bindings {
            Some(b) => b,
            None => return Err(
                SeetleError::OperationError(String::from_str("Bindings required for TropicBackend")),
            ),
        };
        check_extractable(&b, extractable)?;
        let p256 = match &algorithm {
            Algorithm::Ecdsa { named_curve, .. } => *named_curve == String::from_str("P-256"),
            _ => false,
        };
        if !p256 {
            return Err(SeetleError::NotSupported);
        }
        Ok(TropicPlan {
            curve: LtEccCurve::P256,
            slot: 0,
            bindings: b,
            algorithm,
            usages: key_usages,
        })
    }

    /// The record of a generated key, from the status of
    /// `lt_ecc_key_generate`.
    pub fn finish_generate(&self, plan: TropicPlan, ret: LtRet) -> (r: Result<
        TropicRecord,
        SeetleError,
    >)
        ensures
            match ret {
                LtRet::Fail => r matches Err(e) && chip_failure(e, "lt_ecc_key_generate"@),
                LtRet::Success => r matches Ok(k) && k.bindings == plan.bindings && k.algorithm
                    == plan.algorithm && k.usages@ == plan.usages@ && k.slot == plan.slot,
            },
    {
        match ret {
            LtRet::Fail => {
                proof {
                    reveal_strlit("lt_ecc_key_generate failed: Fail");
                    reveal_strlit("lt_ecc_key_generate");
                    reveal_strlit(" failed: Fail");
                    assert("lt_ecc_key_generate failed: Fail"@ =~= "lt_ecc_key_generate"@ + " failed: Fail"@);
                }
                Err(SeetleError::OperationError(String::from_str("lt_ecc_key_generate failed: Fail")))
            },
            LtRet::Success => Ok(
                TropicRecord {
                    bindings: plan.bindings,
                    algorithm: plan.algorithm,
                    usages: plan.usages,
                    slot: plan.slot,
                },
            ),
        }
    }

    /// Replaces the bindings of a stored key created updatable.
    pub fn update_key(&self, record: TropicRecord, new_bindings: Bindings) -> (r: Result<
        TropicRecord,
        SeetleError,
    >)
        ensures
            if record.bindings.updatable {
                r matches Ok(k) && k.bindings == new_bindings && k.algorithm == record.algorithm
                    && k.usages@ == record.usages@ && k.slot == record.slot
            } else {
                r matches Err(e) && op_error(e, "Key is not updatable"@)
            },
    {
        if !record.bindings.updatable {
            return Err(SeetleError::OperationError(String::from_str("Key is not updatable")));
        }
        Ok(TropicRecord { bindings: new_bindings, ..record })
    }

    /// The keys to list: the stored names that do not begin with `.`.
    pub fn list_keys(&self, names: Vec<String>) -> (r: Vec<String>)
        ensures
            r@.map_values(|s: String| s@) == visible_names(names@.map_values(|s: String| s@)),
    {
        visible_keys(names)
    }

    /// What is reported about a stored key.
    pub fn get_key_metadata(&self, identifier: String, record: TropicRecord) -> (m: KeyMetadata)
        ensures
            m.identifier == identifier,
            m.algorithm@ == algorithm_debug_text(record.algorithm),
            m.usages@ == record.usages@,
            m.hardware_bound == record.bindings.hardware_bound,
            m.extractable == record.bindings.extractable,
            m.public_key is None,
            m.context is None,
            m.account is None,
            m.index is None,
            m.derivation is None,
            m.source_key_identifier is None,
            m.master_seed is None,
            m.seed_exportable is None,
    {
        KeyMetadata {
            identifier,
            algorithm: record.algorithm.debug_text(),
            usages: record.usages,
            hardware_bound: record.bindings.hardware_bound,
            extractable: record.bindings.extractable,
            public_key: None,
            context: None,
            account: None,
            index: None,
            derivation: None,
            source_key_identifier: None,
            master_seed: None,
            seed_exportable: None,
        }
    }

    /// The signature, from the status and output of `lt_ecc_ecdsa_sign`.
    pub fn finish_sign(&self, ret: LtRet, rs: Vec<u8>) -> (r: Result<Vec<u8>, SeetleError>)
        ensures
            match ret {
                LtRet::Fail => r matches Err(e) && chip_failure(e, "lt_ecc_ecdsa_sign"@),
                LtRet::Success => r matches Ok(s) && s@ == rs@,
            },
    {
        match ret {
            LtRet::Fail => {
                proof {
                    reveal_strlit("lt_ecc_ecdsa_sign failed: Fail");
                    reveal_strlit("lt_ecc_ecdsa_sign");
                    reveal_strlit(" failed: Fail");
                    assert("lt_ecc_ecdsa_sign failed: Fail"@ =~= "lt_ecc_ecdsa_sign"@ + " failed: Fail"@);
                }
                Err(SeetleError::OperationError(String::from_str("lt_ecc_ecdsa_sign failed: Fail")))
            },
            LtRet::Success => Ok(rs),
        }
    }

    /// The verification outcome, from the status and public key of
    /// `lt_ecc_key_read`: the signature is checked with P-256 ECDSA.
    pub fn finish_verify(&self, ret: LtRet, public_key: &[u8], signature: &[u8], data: &[u8]) -> (r:
        Result<bool, SeetleError>)
        ensures
            match ret {
                LtRet::Fail => r matches Err(e) && chip_failure(e, "lt_ecc_key_read"@),
                LtRet::Success => r == Ok::<bool, SeetleError>(
                    p256_verifies(public_key@, data@, signature@),
                ),
            },
    {
        match ret {
            LtRet::Fail => {
                proof {
                    reveal_strlit("lt_ecc_key_read failed: Fail");
                    reveal_strlit("lt_ecc_key_read");
                    reveal_strlit(" failed: Fail");
                    assert("lt_ecc_key_read failed: Fail"@ =~= "lt_ecc_key_read"@ + " failed: Fail"@);
                }
                Err(SeetleError::OperationError(String::from_str("lt_ecc_key_read failed: Fail")))
            },
            LtRet::Success => Ok(p256_verify(public_key, data, signature)),
        }
    }

    /// Exporting: the key must be extractable, and the chip never gives out
    /// its private keys.
    pub fn export_key(&self, record: &TropicRecord) -> (e: SeetleError)
        ensures
            !record.bindings.extractable ==> op_error(e, "Key is not extractable"@),
            record.bindings.extractable ==> e matches SeetleError::NotSupported,
    {
        if !record.bindings.extractable {
            return SeetleError::OperationError(String::from_str("Key is not extractable"));
        }
        SeetleError::NotSupported
    }
}

} // verus!
