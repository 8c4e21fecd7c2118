//! Nordic backend: keys live in the Arm CryptoCell of Nordic SoCs and are
//! reached through the PSA Crypto API. This module holds the mapping of the
//! library's terms to PSA's and the decisions around each PSA call; the
//! calls themselves are made by the caller.
use vstd::prelude::*;

use crate::backends::{check_extractable, check_usage, extractable_conflict, extractable_message, update_record, usage_message};
use crate::text::{decimal, joined, u32_to_string};
use crate::types::{op_error, Algorithm, Bindings, HardwareBound, KeyUsage, SeetleError};

verus! {

pub const PSA_SUCCESS: i32 = 0;

pub const PSA_KEY_USAGE_ENCRYPT: u32 = 0x00000100;
pub const PSA_KEY_USAGE_DECRYPT: u32 = 0x00000200;
pub const PSA_KEY_USAGE_SIGN_MESSAGE: u32 = 0x00000400;
pub const PSA_KEY_USAGE_VERIFY_MESSAGE: u32 = 0x00000800;
pub const PSA_KEY_USAGE_SIGN_HASH: u32 = 0x00001000;
pub const PSA_KEY_USAGE_VERIFY_HASH: u32 = 0x00002000;
pub const PSA_KEY_USAGE_DERIVE: u32 = 0x00004000;

pub const PSA_ALG_ECDSA_ANY: u32 = 0x06000600;
pub const PSA_ALG_ECDSA_SHA_256: u32 = 0x06000609;
pub const PSA_ALG_RSA_PSS_ANY: u32 = 0x06000400;
pub const PSA_ALG_RSA_PSS_SHA_256: u32 = 0x06000409;
pub const PSA_ALG_GCM: u32 = 0x04400100;

pub const PSA_KEY_TYPE_ECC_KEY_PAIR_SECP256R1: u32 = 0x710012;
pub const PSA_KEY_TYPE_RSA_KEY_PAIR: u32 = 0x7001;
pub const PSA_KEY_TYPE_AES: u32 = 0x2400;

pub const PSA_KEY_LIFETIME_VOLATILE: u32 = 0x00000000;
pub const PSA_KEY_LIFETIME_PERSISTENT: u32 = 0x00000001;

/// The status PSA gives for a signature that does not verify.
pub const PSA_ERROR_INVALID_SIGNATURE: i32 = -149;

/// The attributes a key is generated with.
#[derive(Debug, Clone, Copy, PartialEq, Eq)]
pub struct PsaKeyAttributes {
    pub usage_flags: u32,
    pub algorithm: u32,
    pub key_type: u32,
    pub bits: usize,
    pub lifetime: u32,
}

/// What the Nordic backend stores about a key.
#[derive(Debug, Clone, PartialEq, Eq)]
pub struct NordicRecord {
    pub bindings: Bindings,
    pub algorithm: Algorithm,
    pub usages: Vec<KeyUsage>,
    pub psa_id: u32,
}

/// A key generation ready for PSA: the attributes to generate with, and what
/// to record once PSA has made the key.
#[derive(Debug, Clone)]
pub struct NordicPlan {
    pub attributes: PsaKeyAttributes,
    pub bindings: Bindings,
    pub algorithm: Algorithm,
    pub usages: Vec<KeyUsage>,
}

/// An AES-GCM request ready for PSA (`psa_aead_encrypt` or
/// `psa_aead_decrypt`): the key, the algorithm, the nonce, the additional
/// data and the input.
#[derive(Debug, Clone)]
pub struct NordicCipherRequest {
    pub psa_id: u32,
    pub algorithm: u32,
    pub nonce: Vec<u8>,
    pub additional_data: Vec<u8>,
    pub input: Vec<u8>,
}

/// The additional data an AES-GCM request carries: the given bytes, or none.
pub open spec fn aead_additional(ad: Option<Vec<u8>>) -> Seq<u8> {
    match ad {
        Some(v) => v@,
        None => Seq::empty(),
    }
}

/// The decimal text of a signed number, as `{}` writes it.
pub open spec fn signed_decimal(n: int) -> Seq<char> {
    if n < 0 {
        seq!['-'] + decimal((-n) as nat)
    } else {
        decimal(n as nat)
    }
}

/// The error a PSA status stands for.
pub open spec fn psa_error(status: i32) -> SeetleError {
    match status {
        -133 => SeetleError::AccessDenied,
        -134 => SeetleError::NotSupported,
        -135 => SeetleError::DataError,
        -136 => SeetleError::KeyNotFound,
        -140 => SeetleError::KeyNotFound,
        -149 => SeetleError::DataError,
        _ => SeetleError::OperationError(arbitrary()),
    }
}

/// `e` is the error a PSA status stands for, the text of a generic one
/// included.
pub open spec fn is_psa_error(e: SeetleError, status: i32) -> bool {
    match status {
        -133 | -134 | -135 | -136 | -140 | -149 => e == psa_error(status),
        _ => op_error(e, "PSA error: "@ + signed_decimal(status as int)),
    }
}

/// Maps a PSA status to the library's error.
pub fn map_psa_error(status: i32) -> (e: SeetleError)
    ensures
        is_psa_error(e, status),
{
    match status {
        -133 => SeetleError::AccessDenied,
        -134 => SeetleError::NotSupported,
        -135 => SeetleError::DataError,
        -136 => SeetleError::KeyNotFound,
        -140 => SeetleError::KeyNotFound,
        -149 => SeetleError::DataError,
        _ => {
            let mut text = String::from_str("PSA error: ");
            if status < 0 {
                text.append("-");
                let m: u32 = (0 - (status as i64)) as u32;
                text.append(u32_to_string(m).as_str());
            } else {
                text.append(u32_to_string(status as u32).as_str());
            }
            proof {
                reveal_strlit("PSA error: ");
                reveal_strlit("-");
                assert(text@ =~= "PSA error: "@ + signed_decimal(status as int));
            }
            SeetleError::OperationError(text)
        },
    }
}

/// The PSA usage flags one usage asks for.
pub open spec fn usage_flags(u: KeyUsage) -> u32 {
    match u {
        KeyUsage::Encrypt => PSA_KEY_USAGE_ENCRYPT,
        KeyUsage::Decrypt => PSA_KEY_USAGE_DECRYPT,
        KeyUsage::Sign => PSA_KEY_USAGE_SIGN_MESSAGE | PSA_KEY_USAGE_SIGN_HASH,
        KeyUsage::Verify => PSA_KEY_USAGE_VERIFY_MESSAGE | PSA_KEY_USAGE_VERIFY_HASH,
        KeyUsage::DeriveKey => PSA_KEY_USAGE_DERIVE,
        KeyUsage::DeriveBits => PSA_KEY_USAGE_DERIVE,
        _ => 0,
    }
}

/// The PSA usage flags a list of usages asks for: those of each usage,
/// combined.
pub open spec fn usages_flags(us: Seq<KeyUsage>) -> u32
    decreases us.len(),
{
    if us.len() == 0 {
        0
    } else {
        usages_flags(us.drop_last()) | usage_flags(us.last())
    }
}

/// Maps usages to PSA usage flags.
pub fn map_key_usage(usages: &[KeyUsage]) -> (flags: u32)
    ensures
        flags == usages_flags(usages@),
{
    let mut flags: u32 = 0;
    let mut i: usize = 0;
    while i < usages.len()
        invariant
            i <= usages@.len(),
            flags == usages_flags(usages@.take(i as int)),
        decreases usages@.len() - i,
    {
        let u = usages[i];
        let bits: u32 = match u {
            KeyUsage::Encrypt => PSA_KEY_USAGE_ENCRYPT,
            KeyUsage::Decrypt => PSA_KEY_USAGE_DECRYPT,
            KeyUsage::Sign => PSA_KEY_USAGE_SIGN_MESSAGE | PSA_KEY_USAGE_SIGN_HASH,
            KeyUsage::Verify => PSA_KEY_USAGE_VERIFY_MESSAGE | PSA_KEY_USAGE_VERIFY_HASH,
            KeyUsage::DeriveKey | KeyUsage::DeriveBits => PSA_KEY_USAGE_DERIVE,
            _ => 0,
        };
        flags = flags | bits;
        proof {
            assert(usages@.take(i + 1).drop_last() =~= usages@.take(i as int));
            assert(usages@.take(i + 1).last() == u);
        }
        i = i + 1;
    }
    proof {
        assert(usages@.take(i as int) =~= usages@);
    }
    flags
}

/// The flags of two lists of usages, one after the other, are those of
/// each list combined.
pub proof fn law_usage_flags_concat(a: Seq<KeyUsage>, b: Seq<KeyUsage>)
    ensures
        usages_flags(a + b) == usages_flags(a) | usages_flags(b),
    decreases b.len(),
{
    if b.len() == 0 {
        assert(a + b =~= a);
        let x = usages_flags(a);
        assert(x | 0u32 == x) by (bit_vector);
    } else {
        law_usage_flags_concat(a, b.drop_last());
        assert((a + b).drop_last() =~= a + b.drop_last());
        assert((a + b).last() == b.last());
        let x = usages_flags(a);
        let y = usages_flags(b.drop_last());
        let z = usage_flags(b.last());
        assert((x | y) | z == x | (y | z)) by (bit_vector);
    }
}

/// The PSA algorithm an algorithm maps to.
pub open spec fn psa_algorithm(alg: Algorithm) -> u32 {
    match alg {
        Algorithm::Ecdsa { hash, .. } => if hash matches Some(h) && h@ == "SHA-256"@ {
            PSA_ALG_ECDSA_SHA_256
        } else {
            PSA_ALG_ECDSA_ANY
        },
        Algorithm::RsaPss { hash, .. } => if hash@ == "SHA-256"@ {
            PSA_ALG_RSA_PSS_SHA_256
        } else {
            PSA_ALG_RSA_PSS_ANY
        },
        Algorithm::AesGcm { .. } => PSA_ALG_GCM,
        _ => 0,
    }
}

/// Maps an algorithm to its PSA algorithm identifier (0 when PSA has none).
pub fn map_algorithm(alg: &Algorithm) -> (r: u32)
    ensures
        r == psa_algorithm(*alg),
{
    let sha256 = String::from_str("SHA-256");
    match alg {
        Algorithm::Ecdsa { hash, .. } => match hash {
            Some(h) => if *h == sha256 {
                PSA_ALG_ECDSA_SHA_256
            } else {
                PSA_ALG_ECDSA_ANY
            },
            None => PSA_ALG_ECDSA_ANY,
        },
        Algorithm::RsaPss { hash, .. } => if *hash == sha256 {
            PSA_ALG_RSA_PSS_SHA_256
        } else {
            PSA_ALG_RSA_PSS_ANY
        },
        Algorithm::AesGcm { .. } => PSA_ALG_GCM,
        _ => 0,
    }
}

/// The PSA key type an algorithm maps to.
pub open spec fn psa_key_type(alg: Algorithm) -> u32 {
    match alg {
        Algorithm::Ecdsa { named_curve, .. } => if named_curve@ == "P-256"@ {
            PSA_KEY_TYPE_ECC_KEY_PAIR_SECP256R1
        } else {
            0
        },
        Algorithm::RsaPss { .. } => PSA_KEY_TYPE_RSA_KEY_PAIR,
        Algorithm::AesGcm { .. } => PSA_KEY_TYPE_AES,
        _ => 0,
    }
}

/// Maps an algorithm to its PSA key type (0 when PSA has none).
pub fn map_key_type(alg: &Algorithm) -> (r: u32)
    ensures
        r == psa_key_type(*alg),
{
    match alg {
        Algorithm::Ecdsa { named_curve, .. } => {
            let p = String::from_str("P-256");
            if *named_curve == p {
                PSA_KEY_TYPE_ECC_KEY_PAIR_SECP256R1
            } else {
                0
            }
        },
        Algorithm::RsaPss { .. } => PSA_KEY_TYPE_RSA_KEY_PAIR,
        Algorithm::AesGcm { .. } => PSA_KEY_TYPE_AES,
        _ => 0,
    }
}

/// The key size in bits an algorithm asks for.
pub open spec fn key_bits(alg: Algorithm) -> nat {
    match alg {
        Algorithm::Ecdsa { named_curve, .. } => if named_curve@ == "P-256"@ {
            256
        } else if named_curve@ == "P-384"@ {
            384
        } else if named_curve@ == "P-521"@ {
            521
        } else {
            0
        },
        Algorithm::RsaPss { modulus_length, .. } => modulus_length as nat,
        Algorithm::AesGcm { length, .. } => length as nat,
        _ => 0,
    }
}

/// The key size in bits an algorithm asks for (0 when unknown).
pub fn get_key_bits(alg: &Algorithm) -> (r: usize)
    ensures
        r == key_bits(*alg),
{
    match alg {
        Algorithm::Ecdsa { named_curve, .. } => {
            if *named_curve == String::from_str("P-256") {
                256
            } else if *named_curve == String::from_str("P-384") {
                384
            } else if *named_curve == String::from_str("P-521") {
                521
            } else {
                0
            }
        },
        Algorithm::RsaPss { modulus_length, .. } => *modulus_length as usize,
        Algorithm::AesGcm { length, .. } => *length as usize,
        _ => 0,
    }
}

/// Nordic backend using CryptoCell and the PSA Crypto API.
pub struct NordicBackend {}

impl NordicBackend {
    /// Creates the backend.
    pub fn new() -> (b: Self) {
        NordicBackend {  }
    }

    /// The outcome of initializing the PSA Crypto subsystem, from the status
    /// `psa_crypto_init` returned.
    pub fn init(&self, status: i32) -> (r: Result<(), SeetleError>)
        ensures
            status == PSA_SUCCESS ==> r is Ok,
            status != PSA_SUCCESS ==> (r matches Err(e) && is_psa_error(e, status)),
    {
        if status == PSA_SUCCESS {
            Ok(())
        } else {
            Err(map_psa_error(status))
        }
    }

    /// Succeeds when the stored key allows `usage`.
    pub fn check_usage(&self, record: &NordicRecord, usage: KeyUsage) -> (r: Result<(), SeetleError>)
        ensures
            r is Ok <==> record.usages@.contains(usage),
            r matches Err(e) ==> op_error(e, usage_message(usage)),
    {
        check_usage(record.usages.as_slice(), usage)
    }

    /// Prepares the generation of a key in the CryptoCell: keys need
    /// bindings; a hardware-bound key is persistent and may not be
    /// extractable, any other is volatile.
    pub fn generate_key(
        &self,
        algorithm: Algorithm,
        extractable: bool,
        bindings: Option<Bindings>,
        key_usages: Vec<KeyUsage>,
    ) -> (r: Result<NordicPlan, SeetleError>)
        ensures
            match bindings {
                None => r matches Err(SeetleError::NotSupported),
                Some(b) => if extractable_conflict(b, extractable) {
                    r matches Err(e) && op_error(e, extractable_message())
                } else {
                    r matches Ok(p) && p.attributes == (PsaKeyAttributes {
                        usage_flags: usages_flags(key_usages@),
                        algorithm: psa_algorithm(algorithm),
                        key_type: psa_key_type(algorithm),
                        bits: key_bits(algorithm) as usize,
                        lifetime: if b.hardware_bound == HardwareBound::Yes {
                            PSA_KEY_LIFETIME_PERSISTENT
                        } else {
                            PSA_KEY_LIFETIME_VOLATILE
                        },
                    }) && p.bindings == b && p.algorithm == algorithm && p.usages@ == key_usages@
                },
            },
    {
        let b = match bindings {
            Some(b) => b,
            None => return Err(SeetleError::NotSupported),
        };
        check_extractable(&b, extractable)?;
        let lifetime = if b.hardware_bound == HardwareBound::Yes {
            PSA_KEY_LIFETIME_PERSISTENT
        } else {
            PSA_KEY_LIFETIME_VOLATILE
        };
        let attributes = PsaKeyAttributes {
            usage_flags: map_key_usage(key_usages.as_slice()),
            algorithm: map_algorithm(&algorithm),
            key_type: map_key_type(&algorithm),
            bits: get_key_bits(&algorithm),
            lifetime,
        };
        Ok(NordicPlan { attributes, bindings: b, algorithm, usages: key_usages })
    }

    /// The record of a generated key, from the status and key id
    /// `psa_generate_key` returned.
    pub fn finish_generate(&self, plan: NordicPlan, status: i32, psa_id: u32) -> (r: Result<
        NordicRecord,
        SeetleError,
    >)
        ensures
            status != PSA_SUCCESS ==> (r matches Err(e) && is_psa_error(e, status)),
            status == PSA_SUCCESS ==> (r matches Ok(k) && k.bindings == plan.bindings
                && k.algorithm == plan.algorithm && k.usages@ == plan.usages@ && k.psa_id == psa_id),
    {
        if status != PSA_SUCCESS {
            return Err(map_psa_error(status));
        }
        Ok(NordicRecord {
            bindings: plan.bindings,
            algorithm: plan.algorithm,
            usages: plan.usages,
            psa_id,
        })
    }

    /// Replaces the bindings of a stored key created updatable.
    pub fn update_key(&self, record: NordicRecord, new_bindings: Bindings) -> (r: Result<
        NordicRecord,
        SeetleError,
    >)
        ensures
            if record.bindings.updatable {
                r matches Ok(k) && k.bindings == new_bindings && k.algorithm == record.algorithm
                    && k.usages@ == record.usages@ && k.psa_id == record.psa_id
            } else {
                r matches Err(e) && op_error(e, "Key is not updatable"@)
            },
    {
        if !record.bindings.updatable {
            return Err(SeetleError::OperationError(String::from_str("Key is not updatable")));
        }
        Ok(NordicRecord { bindings: new_bindings, ..record })
    }

    /// The signed message: the first `length` bytes of the signature buffer
    /// when `psa_sign_message` returned success.
    pub fn finish_sign(&self, status: i32, signature: Vec<u8>, length: usize) -> (r: Result<
        Vec<u8>,
        SeetleError,
    >)
        ensures
            status != PSA_SUCCESS ==> (r matches Err(e) && is_psa_error(e, status)),
            status == PSA_SUCCESS ==> (r matches Ok(s) && s@ == signature@.take(
                if length < signature@.len() { length as int } else { signature@.len() as int },
            )),
    {
        if status != PSA_SUCCESS {
            return Err(map_psa_error(status));
        }
        let mut s = signature;
        s.truncate(length);
        Ok(s)
    }

    /// The verification outcome from the status `psa_verify_message`
    /// returned: success verifies, an invalid signature does not, anything
    /// else is an error.
    pub fn finish_verify(&self, status: i32) -> (r: Result<bool, SeetleError>)
        ensures
            status == PSA_SUCCESS ==> r == Ok::<bool, SeetleError>(true),
            status == PSA_ERROR_INVALID_SIGNATURE ==> r == Ok::<bool, SeetleError>(false),
            status != PSA_SUCCESS && status != PSA_ERROR_INVALID_SIGNATURE ==> (r matches Err(e)
                && is_psa_error(e, status)),
    {
        if status == PSA_SUCCESS {
            Ok(true)
        } else if status == PSA_ERROR_INVALID_SIGNATURE {
            Ok(false)
        } else {
            Err(map_psa_error(status))
        }
    }

    /// The AES-GCM request for encrypting (`usage` is `Encrypt`) or
    /// decrypting (`Decrypt`) `data` with a stored key: the key must allow
    /// the usage, and both the key and the request must be AES-GCM; a key
    /// given by value cannot be used. PSA then does the work, with the
    /// request's IV as nonce and its additional data, if any.
    pub fn plan_cipher(
        &self,
        record: Option<&NordicRecord>,
        algorithm: &Algorithm,
        usage: KeyUsage,
        data: Vec<u8>,
    ) -> (r: Result<NordicCipherRequest, SeetleError>)
        ensures
            match record {
                None => r matches Err(SeetleError::NotSupported),
                Some(k) => if !k.usages@.contains(usage) {
                    r matches Err(e) && op_error(e, usage_message(usage))
                } else {
                    match (k.algorithm, *algorithm) {
                        (
                            Algorithm::AesGcm { .. },
                            Algorithm::AesGcm { iv, additional_data, .. },
                        ) => r matches Ok(q) && q.psa_id == k.psa_id && q.algorithm == PSA_ALG_GCM
                            && q.nonce@ == iv@ && q.additional_data@ == aead_additional(
                            additional_data,
                        ) && q.input@ == data@,
                        _ => r matches Err(SeetleError::NotSupported),
                    }
                },
            },
    {
        let k = match record {
            None => return Err(SeetleError::NotSupported),
            Some(k) => k,
        };
        check_usage(k.usages.as_slice(), usage)?;
        match (&k.algorithm, algorithm) {
            (Algorithm::AesGcm { .. }, Algorithm::AesGcm { iv, additional_data, .. }) => {
                let nonce = iv.clone();
                assert(nonce@ =~= iv@);
                let ad = match additional_data {
                    Some(v) => {
                        let c = v.clone();
                        assert(c@ =~= v@);
                        c
                    },
                    None => Vec::new(),
                };
                Ok(
                    NordicCipherRequest {
                        psa_id: k.psa_id,
                        algorithm: PSA_ALG_GCM,
                        nonce,
                        additional_data: ad,
                        input: data,
                    },
                )
            },
            _ => Err(SeetleError::NotSupported),
        }
    }

    /// The outcome of an AES-GCM request from PSA's status and output: the
    /// first `length` bytes of the output on success, PSA's error otherwise.
    pub fn finish_cipher(&self, status: i32, output: Vec<u8>, length: usize) -> (r: Result<
        Vec<u8>,
        SeetleError,
    >)
        ensures
            status != PSA_SUCCESS ==> (r matches Err(e) && is_psa_error(e, status)),
            status == PSA_SUCCESS ==> (r matches Ok(s) && s@ == output@.take(
                if length < output@.len() { length as int } else { output@.len() as int },
            )),
    {
        self.finish_sign(status, output, length)
    }

    /// The outcome of an operation the CryptoCell does not offer here
    /// (key and bit derivation, wrapping and unwrapping): a stored key is
    /// first checked for `usage`; the operation is then not supported.
    pub fn unsupported_after_check(&self, record: Option<&NordicRecord>, usage: KeyUsage) -> (e:
        SeetleError)
        ensures
            match record {
                Some(k) => if k.usages@.contains(usage) {
                    e matches SeetleError::NotSupported
                } else {
                    op_error(e, usage_message(usage))
                },
                None => e matches SeetleError::NotSupported,
            },
    {
        match record {
            Some(k) => match check_usage(k.usages.as_slice(), usage) {
                Ok(()) => SeetleError::NotSupported,
                Err(e) => e,
            },
            None => SeetleError::NotSupported,
        }
    }
}

proof fn lemma_flag_bits(x: u32, y: u32, m: u32)
    by (bit_vector)
    ensures
        (x | y) & m == (x & m) | (y & m),
        m | m == m,
        m | 0u32 == m,
        0u32 | m == m,
        0u32 | 0u32 == 0u32,
        0u32 & m == 0u32,
        0x0100u32 & 0x0100u32 == 0x0100u32,
        0x0100u32 & 0x0200u32 == 0u32,
        0x0100u32 & 0x1400u32 == 0u32,
        0x0100u32 & 0x2800u32 == 0u32,
        0x0100u32 & 0x4000u32 == 0u32,
        0x0200u32 & 0x0100u32 == 0u32,
        0x0200u32 & 0x0200u32 == 0x0200u32,
        0x0200u32 & 0x1400u32 == 0u32,
        0x0200u32 & 0x2800u32 == 0u32,
        0x0200u32 & 0x4000u32 == 0u32,
        0x1400u32 & 0x0100u32 == 0u32,
        0x1400u32 & 0x0200u32 == 0u32,
        0x1400u32 & 0x1400u32 == 0x1400u32,
        0x1400u32 & 0x2800u32 == 0u32,
        0x1400u32 & 0x4000u32 == 0u32,
        0x2800u32 & 0x0100u32 == 0u32,
        0x2800u32 & 0x0200u32 == 0u32,
        0x2800u32 & 0x1400u32 == 0u32,
        0x2800u32 & 0x2800u32 == 0x2800u32,
        0x2800u32 & 0x4000u32 == 0u32,
        0x4000u32 & 0x0100u32 == 0u32,
        0x4000u32 & 0x0200u32 == 0u32,
        0x4000u32 & 0x1400u32 == 0u32,
        0x4000u32 & 0x2800u32 == 0u32,
        0x4000u32 & 0x4000u32 == 0x4000u32,
        PSA_KEY_USAGE_SIGN_MESSAGE | PSA_KEY_USAGE_SIGN_HASH == 0x1400u32,
        PSA_KEY_USAGE_VERIFY_MESSAGE | PSA_KEY_USAGE_VERIFY_HASH == 0x2800u32,
{
}

/// The PSA flags a key is generated with permit exactly the operations its
/// usages name: the sign bits (`SIGN_MESSAGE | SIGN_HASH`) are all set if
/// the usages include signing and none is set otherwise, and likewise the
/// verify bits for verification, the encrypt and decrypt bits, and the
/// derive bit for key or bit derivation.
pub proof fn law_usage_flags_permit(us: Seq<KeyUsage>)
    ensures
        usages_flags(us) & (PSA_KEY_USAGE_SIGN_MESSAGE | PSA_KEY_USAGE_SIGN_HASH) == (if us.contains(
            KeyUsage::Sign,
        ) {
            PSA_KEY_USAGE_SIGN_MESSAGE | PSA_KEY_USAGE_SIGN_HASH
        } else {
            0u32
        }),
        usages_flags(us) & (PSA_KEY_USAGE_VERIFY_MESSAGE | PSA_KEY_USAGE_VERIFY_HASH) == (
        if us.contains(KeyUsage::Verify) {
            PSA_KEY_USAGE_VERIFY_MESSAGE | PSA_KEY_USAGE_VERIFY_HASH
        } else {
            0u32
        }),
        usages_flags(us) & PSA_KEY_USAGE_ENCRYPT == (if us.contains(KeyUsage::Encrypt) {
            PSA_KEY_USAGE_ENCRYPT
        } else {
            0u32
        }),
        usages_flags(us) & PSA_KEY_USAGE_DECRYPT == (if us.contains(KeyUsage::Decrypt) {
            PSA_KEY_USAGE_DECRYPT
        } else {
            0u32
        }),
        usages_flags(us) & PSA_KEY_USAGE_DERIVE == (if us.contains(KeyUsage::DeriveKey)
            || us.contains(KeyUsage::DeriveBits) {
            PSA_KEY_USAGE_DERIVE
        } else {
            0u32
        }),
    decreases us.len(),
{
    lemma_flag_bits(0u32, 0u32, 0x1400u32);
    lemma_flag_bits(0u32, 0u32, 0x2800u32);
    lemma_flag_bits(0u32, 0u32, 0x0100u32);
    lemma_flag_bits(0u32, 0u32, 0x0200u32);
    lemma_flag_bits(0u32, 0u32, 0x4000u32);
    if us.len() > 0 {
        let rest = us.drop_last();
        let u = us.last();
        law_usage_flags_permit(rest);
        assert(us =~= rest.push(u));
        assert forall|v: KeyUsage| us.contains(v) <==> (rest.contains(v) || u == v) by {
            if us.contains(v) {
                let k = choose|k: int| 0 <= k < us.len() && us[k] == v;
                if k < rest.len() {
                    assert(rest[k] == v);
                }
            }
            if rest.contains(v) {
                let k = choose|k: int| 0 <= k < rest.len() && rest[k] == v;
                assert(us[k] == v);
            }
            if u == v {
                assert(us[us.len() - 1] == v);
            }
        }
        let x = usages_flags(rest);
        let y = usage_flags(u);
        lemma_flag_bits(x, y, 0x1400u32);
        lemma_flag_bits(x, y, 0x2800u32);
        lemma_flag_bits(x, y, 0x0100u32);
        lemma_flag_bits(x, y, 0x0200u32);
        lemma_flag_bits(x, y, 0x4000u32);
    }
}

} // verus!
