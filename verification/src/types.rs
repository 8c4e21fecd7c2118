use vstd::prelude::*;

verus! {

/// The kind of a key, as WebCrypto names it.
#[derive(Debug, Clone, Copy, PartialEq, Eq, Structural)]
pub enum KeyType {
    Public,
    Private,
    Secret,
}

/// What a key may be used for.
#[derive(Debug, Clone, Copy, PartialEq, Eq, Structural)]
pub enum KeyUsage {
    Encrypt,
    Decrypt,
    Sign,
    Verify,
    DeriveKey,
    DeriveBits,
    WrapKey,
    UnwrapKey,
}

/// A key handed to or returned by a backend by value.
#[derive(Debug, Clone, PartialEq, Eq)]
pub struct CryptoKey {
    pub key_type: KeyType,
    pub extractable: bool,
    pub algorithm: Algorithm,
    pub usages: Vec<KeyUsage>,
}

/// The algorithm parameters of an operation.
#[derive(Debug, Clone, PartialEq, Eq)]
pub enum Algorithm {
    Ecdsa { name: String, named_curve: String, hash: Option<String> },
    RsaPss {
        name: String,
        modulus_length: u32,
        public_exponent: Vec<u8>,
        hash: String,
        salt_length: u32,
    },
    AesGcm {
        name: String,
        length: u16,
        iv: Vec<u8>,
        additional_data: Option<Vec<u8>>,
        tag_length: Option<u8>,
    },
    Generic { name: String },
    /// A raw key or seed of a given length in bits.
    Raw { length: u32 },
    Ed25519 { name: String },
    Ecdh { name: String, public_key: Vec<u8> },
    Hpke { name: String, public_key: Option<Vec<u8>>, info: Option<Vec<u8>> },
}

fn copy_bytes(v: &Vec<u8>) -> (r: Vec<u8>)
    ensures
        r@ == v@,
{
    let r = v.clone();
    assert(r@ =~= v@);
    r
}

/// The same bytes, or both absent.
pub open spec fn same_opt_bytes(a: Option<Vec<u8>>, b: Option<Vec<u8>>) -> bool {
    match (a, b) {
        (Some(x), Some(y)) => x@ == y@,
        (None, None) => true,
        _ => false,
    }
}

fn copy_opt_bytes(v: &Option<Vec<u8>>) -> (r: Option<Vec<u8>>)
    ensures
        same_opt_bytes(r, *v),
{
    match v {
        Some(b) => Some(copy_bytes(b)),
        None => None,
    }
}

fn copy_opt_text(v: &Option<String>) -> (r: Option<String>)
    ensures
        r == *v,
{
    match v {
        Some(t) => Some(t.clone()),
        None => None,
    }
}

/// Two sets of parameters agree: the same variant, with equal texts and
/// numbers and byte strings of the same content.
pub open spec fn same_algorithm(a: Algorithm, b: Algorithm) -> bool {
    match (a, b) {
        (
            Algorithm::Ecdsa { name: n1, named_curve: c1, hash: h1 },
            Algorithm::Ecdsa { name: n2, named_curve: c2, hash: h2 },
        ) => n1 == n2 && c1 == c2 && h1 == h2,
        (
            Algorithm::RsaPss {
                name: n1,
                modulus_length: m1,
                public_exponent: e1,
                hash: h1,
                salt_length: s1,
            },
            Algorithm::RsaPss {
                name: n2,
                modulus_length: m2,
                public_exponent: e2,
                hash: h2,
                salt_length: s2,
            },
        ) => n1 == n2 && m1 == m2 && e1@ == e2@ && h1 == h2 && s1 == s2,
        (
            Algorithm::AesGcm {
                name: n1,
                length: l1,
                iv: i1,
                additional_data: d1,
                tag_length: t1,
            },
            Algorithm::AesGcm {
                name: n2,
                length: l2,
                iv: i2,
                additional_data: d2,
                tag_length: t2,
            },
        ) => n1 == n2 && l1 == l2 && i1@ == i2@ && same_opt_bytes(d1, d2) && t1 == t2,
        (Algorithm::Generic { name: n1 }, Algorithm::Generic { name: n2 }) => n1 == n2,
        (Algorithm::Raw { length: l1 }, Algorithm::Raw { length: l2 }) => l1 == l2,
        (Algorithm::Ed25519 { name: n1 }, Algorithm::Ed25519 { name: n2 }) => n1 == n2,
        (
            Algorithm::Ecdh { name: n1, public_key: p1 },
            Algorithm::Ecdh { name: n2, public_key: p2 },
        ) => n1 == n2 && p1@ == p2@,
        (
            Algorithm::Hpke { name: n1, public_key: p1, info: i1 },
            Algorithm::Hpke { name: n2, public_key: p2, info: i2 },
        ) => n1 == n2 && same_opt_bytes(p1, p2) && same_opt_bytes(i1, i2),
        _ => false,
    }
}

impl Algorithm {
    /// A copy of the parameters, agreeing with them in every field.
    pub fn duplicate(&self) -> (r: Algorithm)
        ensures
            same_algorithm(r, *self),
    {
        match self {
            Algorithm::Ecdsa { name, named_curve, hash } => Algorithm::Ecdsa {
                name: name.clone(),
                named_curve: named_curve.clone(),
                hash: copy_opt_text(hash),
            },
            Algorithm::RsaPss { name, modulus_length, public_exponent, hash, salt_length } =>
                Algorithm::RsaPss {
                name: name.clone(),
                modulus_length: *modulus_length,
                public_exponent: copy_bytes(public_exponent),
                hash: hash.clone(),
                salt_length: *salt_length,
            },
            Algorithm::AesGcm { name, length, iv, additional_data, tag_length } =>
                Algorithm::AesGcm {
                name: name.clone(),
                length: *length,
                iv: copy_bytes(iv),
                additional_data: copy_opt_bytes(additional_data),
                tag_length: *tag_length,
            },
            Algorithm::Generic { name } => Algorithm::Generic { name: name.clone() },
            Algorithm::Raw { length } => Algorithm::Raw { length: *length },
            Algorithm::Ed25519 { name } => Algorithm::Ed25519 { name: name.clone() },
            Algorithm::Ecdh { name, public_key } => Algorithm::Ecdh {
                name: name.clone(),
                public_key: copy_bytes(public_key),
            },
            Algorithm::Hpke { name, public_key, info } => Algorithm::Hpke {
                name: name.clone(),
                public_key: copy_opt_bytes(public_key),
                info: copy_opt_bytes(info),
            },
        }
    }
}

/// Whether a key lives in hardware: not at all, fully, or through a
/// hardware-bound root it was derived from.
#[derive(Debug, Clone, Copy, PartialEq, Eq, Structural)]
pub enum HardwareBound {
    No,
    Yes,
    Partial,
}

impl Default for HardwareBound {
    fn default() -> (r: Self)
        ensures
            r == HardwareBound::No,
    {
        HardwareBound::No
    }
}

/// Key management extension for hardware-backed keys.
#[derive(Debug, Clone, PartialEq, Eq)]
pub struct Bindings {
    /// Determines if the key will be hardware bound.
    pub hardware_bound: HardwareBound,
    pub extractable: bool,
    /// Origins which have access to this key for usage and management.
    pub origin_bindings: Vec<String>,
    /// A global identifier to refer to the key beyond its lifetime.
    pub identifier: String,
    /// Whether the key's creator allows it to be updated.
    pub updatable: bool,
}

impl Default for Bindings {
    fn default() -> (r: Self)
        ensures
            r.hardware_bound == HardwareBound::No,
            !r.extractable,
            r.origin_bindings@.len() == 0,
            r.identifier@.len() == 0,
            !r.updatable,
    {
        Bindings {
            hardware_bound: HardwareBound::No,
            extractable: false,
            origin_bindings: Vec::new(),
            identifier: String::new(),
            updatable: false,
        }
    }
}

/// What a backend reports about one of its keys.
#[derive(Debug, Clone)]
pub struct KeyMetadata {
    pub identifier: String,
    pub algorithm: String,
    pub usages: Vec<KeyUsage>,
    pub hardware_bound: HardwareBound,
    pub extractable: bool,
    pub public_key: Option<Vec<u8>>,
    pub context: Option<String>,
    pub account: Option<u32>,
    pub index: Option<u32>,
    pub derivation: Option<String>,
    pub source_key_identifier: Option<String>,
    /// For a key derived from an xHD root: the identifier of the root key in
    /// its provider backend, or `Direct` for a root held in memory.
    pub master_seed: Option<String>,
    /// For a key derived from an xHD root: whether the root seed can be
    /// exported from its provider backend, as far as that backend reports.
    pub seed_exportable: Option<bool>,
}

impl Default for KeyMetadata {
    fn default() -> (r: Self)
        ensures
            r.identifier@.len() == 0,
            r.algorithm@.len() == 0,
            r.usages@.len() == 0,
            r.hardware_bound == HardwareBound::No,
            !r.extractable,
            r.public_key is None,
            r.context is None,
            r.account is None,
            r.index is None,
            r.derivation is None,
            r.source_key_identifier is None,
            r.master_seed is None,
            r.seed_exportable is None,
    {
        KeyMetadata {
            identifier: String::new(),
            algorithm: String::new(),
            usages: Vec::new(),
            hardware_bound: HardwareBound::No,
            extractable: false,
            public_key: None,
            context: None,
            account: None,
            index: None,
            derivation: None,
            source_key_identifier: None,
            master_seed: None,
            seed_exportable: None,
        }
    }
}

/// A key given by value, or the identifier of a stored key.
#[derive(Debug, Clone, PartialEq, Eq)]
pub enum KeyOrIdentifier {
    Key(CryptoKey),
    Identifier(String),
}

/// `e` is an `OperationError` carrying exactly the text `msg`.
pub open spec fn op_error(e: SeetleError, msg: Seq<char>) -> bool {
    e matches SeetleError::OperationError(s) && s@ == msg
}

/// `e` is an `OperationError` whose text begins with `prefix`; the rest is
/// a message from outside the library.
pub open spec fn op_error_starting(e: SeetleError, prefix: Seq<char>) -> bool {
    e matches SeetleError::OperationError(s) && prefix.len() <= s@.len() && s@.take(
        prefix.len() as int,
    ) == prefix
}

/// The errors of every operation.
#[derive(Debug)]
pub enum SeetleError {
    NotSupported,
    DataError,
    OperationError(String),
    KeyNotFound,
    AccessDenied,
    StorageError(String),
}

/// The message an error is shown with.
pub open spec fn error_message(e: SeetleError) -> Seq<char> {
    match e {
        SeetleError::NotSupported => "Algorithm not supported"@,
        SeetleError::DataError => "Data error"@,
        SeetleError::OperationError(m) => "Operation error: "@ + m@,
        SeetleError::KeyNotFound => "Key not found"@,
        SeetleError::AccessDenied => "Access denied"@,
        SeetleError::StorageError(m) => "Storage error: "@ + m@,
    }
}

impl SeetleError {
    /// The message the error is shown with.
    pub fn message(&self) -> (s: String)
        ensures
            s@ == error_message(*self),
    {
        match self {
            SeetleError::NotSupported => String::from_str("Algorithm not supported"),
            SeetleError::DataError => String::from_str("Data error"),
            SeetleError::OperationError(m) => {
                let mut s = String::from_str("Operation error: ");
                s.append(m.as_str());
                s
            },
            SeetleError::KeyNotFound => String::from_str("Key not found"),
            SeetleError::AccessDenied => String::from_str("Access denied"),
            SeetleError::StorageError(m) => {
                let mut s = String::from_str("Storage error: ");
                s.append(m.as_str());
                s
            },
        }
    }
}

} // verus!
