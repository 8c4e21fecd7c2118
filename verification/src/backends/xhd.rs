//! Hierarchical deterministic Ed25519 keys: the derivation parameters that an
//! algorithm name carries, and the decisions that the xHD backend takes
//! around the derivation itself.
use vstd::prelude::*;

use crate::debug::algorithm_debug_text;
use crate::backends::{visible_keys, visible_names};
use crate::crypto::{
    aes256gcm_open_bytes, aes256gcm_seal_bytes, ed25519_to_x25519, hpke_open, hpke_opened, x25519_public, x25519_public_key,
    hpke_seal, montgomery_of, random_bytes, sha256, sha256_bytes, x25519, x25519_shared,
    HpkeFailure, MAX_SEAL_LEN, NONCE_LEN, TAG_LEN,
};
use crate::keyring::{min_frame_len, unframed};
use crate::text::{
    chars_equal, chars_of, decimal, joined, lemma_split_join, lemma_split_plain, parse_u32,
    split_chars, split_on, u32_parse, u32_to_string,
};
use crate::types::{
    op_error, op_error_starting, same_algorithm, Algorithm, Bindings, CryptoKey, HardwareBound, KeyMetadata,
    KeyType, KeyUsage, SeetleError,
};

verus! {

/// The derivation context of an xHD key.
#[derive(Debug, Clone, Copy, PartialEq, Eq, Structural)]
pub enum XhdContext {
    Address,
    Identity,
}

/// The derivation scheme of an xHD key.
#[derive(Debug, Clone, Copy, PartialEq, Eq, Structural)]
pub enum XhdScheme {
    Peikert,
    V2,
}

/// The name under which a context is written.
pub open spec fn context_name(c: XhdContext) -> Seq<char> {
    match c {
        XhdContext::Address => "Address"@,
        XhdContext::Identity => "Identity"@,
    }
}

/// The name under which a scheme is written.
pub open spec fn scheme_name(s: XhdScheme) -> Seq<char> {
    match s {
        XhdScheme::Peikert => "Peikert"@,
        XhdScheme::V2 => "V2"@,
    }
}

/// The context a name denotes.
pub open spec fn context_named(s: Seq<char>) -> Option<XhdContext> {
    if s == "Address"@ {
        Some(XhdContext::Address)
    } else if s == "Identity"@ {
        Some(XhdContext::Identity)
    } else {
        None
    }
}

/// The scheme a name denotes.
pub open spec fn scheme_named(s: Seq<char>) -> Option<XhdScheme> {
    if s == "Peikert"@ {
        Some(XhdScheme::Peikert)
    } else if s == "V2"@ {
        Some(XhdScheme::V2)
    } else {
        None
    }
}

/// The parameters that a name of the form
/// `XHD:<Context>:<Account>:<Index>:<Scheme>` carries.
pub open spec fn xhd_params(name: Seq<char>) -> Option<(XhdContext, u32, u32, XhdScheme)> {
    let parts = split_on(name, ':');
    if parts.len() == 5 && parts[0] == "XHD"@ && context_named(parts[1]) is Some && u32_parse(
        parts[2],
    ) is Some && u32_parse(parts[3]) is Some && scheme_named(parts[4]) is Some {
        Some(
            (
                context_named(parts[1])->0,
                u32_parse(parts[2])->0,
                u32_parse(parts[3])->0,
                scheme_named(parts[4])->0,
            ),
        )
    } else {
        None
    }
}

/// The name that carries the given parameters.
pub open spec fn xhd_name(context: XhdContext, account: u32, index: u32, scheme: XhdScheme) -> Seq<
    char,
> {
    "XHD"@ + seq![':'] + context_name(context) + seq![':'] + decimal(account as nat) + seq![':']
        + decimal(index as nat) + seq![':'] + scheme_name(scheme)
}

/// Parses `XHD:<Context>:<Account>:<Index>:<Scheme>`, e.g.
/// `XHD:Address:0:0:Peikert`.
pub fn parse_xhd_params(name: &str) -> (r: Option<(XhdContext, u32, u32, XhdScheme)>)
    ensures
        r == xhd_params(name@),
{
    let chars = chars_of(name);
    let parts = split_chars(chars.as_slice(), ':');
    if parts.len() != 5 {
        return None;
    }
    if !chars_equal(parts[0].as_slice(), "XHD") {
        return None;
    }
    let context = if chars_equal(parts[1].as_slice(), "Address") {
        XhdContext::Address
    } else if chars_equal(parts[1].as_slice(), "Identity") {
        XhdContext::Identity
    } else {
        return None;
    };
    let account = match parse_u32(parts[2].as_slice()) {
        Some(a) => a,
        None => return None,
    };
    let index = match parse_u32(parts[3].as_slice()) {
        Some(i) => i,
        None => return None,
    };
    let scheme = if chars_equal(parts[4].as_slice(), "Peikert") {
        XhdScheme::Peikert
    } else if chars_equal(parts[4].as_slice(), "V2") {
        XhdScheme::V2
    } else {
        return None;
    };
    Some((context, account, index, scheme))
}

/// The written name of a context.
pub fn context_str(c: XhdContext) -> (s: &'static str)
    ensures
        s@ == context_name(c),
{
    match c {
        XhdContext::Address => "Address",
        XhdContext::Identity => "Identity",
    }
}

/// The written name of a scheme.
pub fn scheme_str(s: XhdScheme) -> (r: &'static str)
    ensures
        r@ == scheme_name(s),
{
    match s {
        XhdScheme::Peikert => "Peikert",
        XhdScheme::V2 => "V2",
    }
}

/// Writes the name that carries the given derivation parameters.
pub fn format_xhd_params(context: XhdContext, account: u32, index: u32, scheme: XhdScheme) -> (s:
    String)
    ensures
        s@ == xhd_name(context, account, index, scheme),
{
    let mut s = String::from_str("XHD:");
    s.append(context_str(context));
    s.append(":");
    s.append(u32_to_string(account).as_str());
    s.append(":");
    s.append(u32_to_string(index).as_str());
    s.append(":");
    s.append(scheme_str(scheme));
    proof {
        reveal_strlit("XHD:");
        reveal_strlit(":");
        reveal_strlit("XHD");
    }
    assert(s@ =~= xhd_name(context, account, index, scheme));
    s
}

proof fn lemma_digits_plain(n: u32)
    ensures
        forall|i: int| 0 <= i < decimal(n as nat).len() ==> decimal(n as nat)[i] != ':',
{
    crate::text::law_parse_decimal(n);
    assert forall|i: int| 0 <= i < decimal(n as nat).len() implies decimal(n as nat)[i] != ':' by {
        lemma_decimal_digit(n as nat, i);
    }
}

proof fn lemma_decimal_digit(n: nat, i: int)
    requires
        0 <= i < decimal(n).len(),
    ensures
        '0' <= decimal(n)[i] <= '9',
    decreases n,
{
    if n >= 10 {
        if i < decimal(n).len() - 1 {
            lemma_decimal_digit(n / 10, i);
        }
    }
}

proof fn lemma_names_plain(c: XhdContext, s: XhdScheme)
    ensures
        split_on("XHD"@, ':') == seq!["XHD"@],
        split_on(context_name(c), ':') == seq![context_name(c)],
        split_on(scheme_name(s), ':') == seq![scheme_name(s)],
{
    reveal_strlit("XHD");
    reveal_strlit("Address");
    reveal_strlit("Identity");
    reveal_strlit("Peikert");
    reveal_strlit("V2");
    lemma_split_plain("XHD"@, ':');
    lemma_split_plain(context_name(c), ':');
    lemma_split_plain(scheme_name(s), ':');
}

/// A name written from derivation parameters is parsed back to the same
/// parameters.
pub proof fn law_xhd_name_roundtrip(context: XhdContext, account: u32, index: u32, scheme: XhdScheme)
    ensures
        xhd_params(xhd_name(context, account, index, scheme)) == Some(
            (context, account, index, scheme),
        ),
{
    let x = "XHD"@;
    let c = context_name(context);
    let a = decimal(account as nat);
    let i = decimal(index as nat);
    let s = scheme_name(scheme);
    lemma_names_plain(context, scheme);
    lemma_digits_plain(account);
    lemma_digits_plain(index);
    lemma_split_plain(a, ':');
    lemma_split_plain(i, ':');
    let p1 = x + seq![':'] + c;
    lemma_split_join(x, c, ':');
    let p2 = p1 + seq![':'] + a;
    lemma_split_join(p1, a, ':');
    let p3 = p2 + seq![':'] + i;
    lemma_split_join(p2, i, ':');
    let p4 = p3 + seq![':'] + s;
    lemma_split_join(p3, s, ':');
    assert(p4 == xhd_name(context, account, index, scheme));
    let parts = split_on(p4, ':');
    assert(parts =~= seq![x, c, a, i, s]);
    crate::text::law_parse_decimal(account);
    crate::text::law_parse_decimal(index);
    reveal_strlit("Address");
    reveal_strlit("Identity");
    reveal_strlit("Peikert");
    reveal_strlit("V2");
    assert(context_named(c) == Some(context));
    assert(scheme_named(s) == Some(scheme));
}

} // verus!

verus! {

/// What the xHD backend stores about a derived key: its derivation
/// parameters, written by name.
#[derive(Debug, Clone)]
pub struct XhdKeyRecord {
    pub bindings: Bindings,
    pub algorithm: Algorithm,
    pub usages: Vec<KeyUsage>,
    pub context: String,
    pub account: u32,
    pub key_index: u32,
    pub scheme: String,
}

/// What the xHD backend stores about a key kept by its seed.
#[derive(Debug, Clone)]
pub struct StandaloneRecord {
    pub bindings: Bindings,
    pub algorithm: Algorithm,
    pub usages: Vec<KeyUsage>,
    pub seed: Vec<u8>,
    pub source_key_identifier: Option<String>,
    pub context: Option<String>,
}

/// A stored item of the xHD backend.
#[derive(Debug, Clone)]
pub enum XhdStorageItem {
    Key(XhdKeyRecord),
    Standalone(StandaloneRecord),
}

/// The info bytes an HPKE request carries: the given ones, or none.
pub open spec fn hpke_info_of(info: Option<Vec<u8>>) -> Seq<u8> {
    match info {
        Some(v) => v@,
        None => Seq::empty(),
    }
}

/// How an encryption goes on: handed to the root backend, sealed for an
/// HPKE recipient, or encrypted with the stored key's secret.
#[derive(Debug, Clone)]
pub enum EncryptStep {
    ToRoot,
    Hpke { public_key: Vec<u8>, info: Vec<u8> },
    Symmetric,
}

/// How a decryption goes on, once the input has been checked: handed to the
/// root backend, opened as an HPKE message (already split), or decrypted
/// with the stored key's secret.
#[derive(Debug, Clone)]
pub enum DecryptStep {
    ToRoot,
    Hpke { encapped: Vec<u8>, ciphertext: Vec<u8>, info: Vec<u8> },
    Symmetric,
}

/// How a bit derivation goes on: handed to the root backend, or an ECDH
/// agreement with a peer's public key.
#[derive(Debug, Clone)]
pub enum DeriveStep {
    ToRoot,
    Ecdh { name: String, public_key: Vec<u8> },
}

/// How the root seed is obtained once the root backend has been asked to
/// derive it: the derived seed, or, when derivation failed, an export of
/// the master key.
#[derive(Debug, Clone)]
pub enum RootSeedStep {
    Seed(Vec<u8>),
    Export(CryptoKey),
}

/// Where the xHD root key comes from.
#[derive(Debug, Clone)]
pub enum RootKeySource {
    /// A root key held by the caller.
    Direct,
    /// A root derived from a master key of another backend.
    Backend { identifier: String, algorithm: Algorithm },
}

/// The stored parameters of a derived key, when both names are known.
pub open spec fn stored_params(r: XhdKeyRecord) -> Option<(XhdContext, u32, u32, XhdScheme)> {
    match (context_named(r.context@), scheme_named(r.scheme@)) {
        (Some(c), Some(s)) => Some((c, r.account, r.key_index, s)),
        _ => None,
    }
}

/// The context reported for a key kept by its seed.
pub open spec fn standalone_context(r: StandaloneRecord) -> Seq<char> {
    match r.context {
        Some(c) => c@,
        None => if r.source_key_identifier is Some {
            "ECDH"@
        } else {
            "Standalone"@
        },
    }
}

/// The identifier a `SAVE_KEY:` ECDH request saves its shared secret under.
pub open spec fn save_target(name: Seq<char>) -> Option<Seq<char>> {
    if name.len() >= 9 && name.take(9) == "SAVE_KEY:"@ {
        Some(name.skip(9))
    } else {
        None
    }
}

/// The standalone key an ECDH agreement saves under `id`: extractable,
/// Ed25519, for signing, verification, encryption and decryption, seeded
/// with the shared secret and its SHA-256 digest, remembering the key it was
/// agreed with.
pub open spec fn saved_ecdh_key(k: StandaloneRecord, id: Seq<char>, shared: Seq<u8>, base: Seq<
    char,
>) -> bool {
    &&& k.bindings.identifier@ == id
    &&& k.bindings.extractable
    &&& k.bindings.hardware_bound == HardwareBound::No
    &&& k.bindings.origin_bindings@.len() == 0
    &&& !k.bindings.updatable
    &&& k.algorithm matches Algorithm::Ed25519 { name } && name@ == "Ed25519"@
    &&& k.usages@ == seq![KeyUsage::Sign, KeyUsage::Verify, KeyUsage::Encrypt, KeyUsage::Decrypt]
    &&& k.seed@ == shared + sha256(shared)
    &&& k.seed@.len() == shared.len() + 32
    &&& k.source_key_identifier matches Some(s) && s@ == base
    &&& k.context matches Some(c) && c@ == "ECDH"@
}

/// `e` is an `OperationError` reading `prefix` followed by `rest`.
pub open spec fn op_error_with(e: SeetleError, prefix: Seq<char>, rest: Seq<char>) -> bool {
    op_error(e, prefix + rest)
}

/// A backend that keeps hierarchical deterministic Ed25519 keys.
pub struct XHDBackend {
    root_key_source: RootKeySource,
}

impl XHDBackend {
    /// Where the root key comes from.
    pub closed spec fn root(&self) -> RootKeySource {
        self.root_key_source
    }

    /// How metadata names the master seed: its identifier in the root
    /// backend, or `Direct` for a root held by the caller.
    pub open spec fn master_seed_label(&self) -> Seq<char> {
        match self.root() {
            RootKeySource::Backend { identifier, .. } => identifier@,
            RootKeySource::Direct => "Direct"@,
        }
    }

    /// How metadata names the master seed.
    pub fn master_seed_name(&self) -> (s: String)
        ensures
            s@ == self.master_seed_label(),
    {
        match &self.root_key_source {
            RootKeySource::Backend { identifier, .. } => identifier.clone(),
            RootKeySource::Direct => String::from_str("Direct"),
        }
    }

    /// The identifier of the root backend's master key, if any.
    pub open spec fn root_id(&self) -> Option<Seq<char>> {
        match self.root() {
            RootKeySource::Backend { identifier, .. } => Some(identifier@),
            RootKeySource::Direct => None,
        }
    }

    /// A backend whose root key the caller holds.
    pub fn new() -> (b: Self)
        ensures
            b.root() matches RootKeySource::Direct,
    {
        XHDBackend { root_key_source: RootKeySource::Direct }
    }

    /// A backend whose root key comes from the master key `root_identifier`
    /// of another backend.
    pub fn new_with_backend(root_identifier: String, root_algorithm: Algorithm) -> (b: Self)
        ensures
            b.root() matches RootKeySource::Backend { identifier, algorithm } && identifier
                == root_identifier && algorithm == root_algorithm,
    {
        XHDBackend {
            root_key_source: RootKeySource::Backend {
                identifier: root_identifier,
                algorithm: root_algorithm,
            },
        }
    }

    /// The first step of an encryption with the key `identifier`: the root
    /// backend's own key is handed over; otherwise an HPKE request with a
    /// recipient key is sealed for it, before any stored key is read; any
    /// other request uses the stored key.
    pub fn encrypt_step(&self, identifier: &str, algorithm: &Algorithm) -> (r: EncryptStep)
        ensures
            self.root_id() == Some(identifier@) ==> r is ToRoot,
            self.root_id() != Some(identifier@) ==> match *algorithm {
                Algorithm::Hpke { public_key: Some(pk), info, .. } => r matches EncryptStep::Hpke {
                    public_key,
                    info: i,
                } && public_key@ == pk@ && i@ == hpke_info_of(info),
                _ => r is Symmetric,
            },
    {
        if self.get_root_backend_if_matches(identifier) {
            return EncryptStep::ToRoot;
        }
        match self.hpke_recipient(algorithm) {
            Some((public_key, info)) => EncryptStep::Hpke { public_key, info },
            None => EncryptStep::Symmetric,
        }
    }

    /// The first step of a decryption of `data` with the key `identifier`:
    /// the root backend's own key is handed over; otherwise the input is
    /// checked before any stored key is read: an HPKE message must hold the
    /// 32-byte encapsulated key and is split, a symmetric one must hold
    /// nonce and tag.
    pub fn decrypt_step(&self, identifier: &str, algorithm: &Algorithm, data: &[u8]) -> (r: Result<
        DecryptStep,
        SeetleError,
    >)
        ensures
            self.root_id() == Some(identifier@) ==> r matches Ok(DecryptStep::ToRoot),
            self.root_id() != Some(identifier@) ==> match *algorithm {
                Algorithm::Hpke { info, .. } => if data@.len() < 32 {
                    r matches Err(SeetleError::DataError)
                } else {
                    r matches Ok(DecryptStep::Hpke { encapped, ciphertext, info: i })
                        && encapped@ == data@.take(32) && ciphertext@ == data@.skip(32) && i@
                        == hpke_info_of(info)
                },
                _ => if data@.len() < min_frame_len() {
                    r matches Err(SeetleError::DataError)
                } else {
                    r matches Ok(DecryptStep::Symmetric)
                },
            },
    {
        if self.get_root_backend_if_matches(identifier) {
            return Ok(DecryptStep::ToRoot);
        }
        match algorithm {
            Algorithm::Hpke { info, .. } => {
                let (encapped, ciphertext) = self.split_hpke(data)?;
                let i = match info {
                    Some(v) => {
                        let c = v.clone();
                        assert(c@ =~= v@);
                        c
                    },
                    None => Vec::new(),
                };
                Ok(DecryptStep::Hpke { encapped, ciphertext, info: i })
            },
            _ => {
                self.check_sealed_len(data)?;
                Ok(DecryptStep::Symmetric)
            },
        }
    }

    /// The first step of a bit derivation with the key `identifier`: the
    /// root backend's own key is handed over; otherwise only ECDH is
    /// offered.
    pub fn derive_step(&self, identifier: &str, algorithm: Algorithm) -> (r: Result<
        DeriveStep,
        SeetleError,
    >)
        ensures
            self.root_id() == Some(identifier@) ==> r matches Ok(DeriveStep::ToRoot),
            self.root_id() != Some(identifier@) ==> match algorithm {
                Algorithm::Ecdh { name, public_key } => r matches Ok(
                    DeriveStep::Ecdh { name: n, public_key: p },
                ) && n == name && p@ == public_key@,
                _ => r matches Err(SeetleError::NotSupported),
            },
    {
        if self.get_root_backend_if_matches(identifier) {
            return Ok(DeriveStep::ToRoot);
        }
        match algorithm {
            Algorithm::Ecdh { name, public_key } => Ok(DeriveStep::Ecdh { name, public_key }),
            _ => Err(SeetleError::NotSupported),
        }
    }

    /// The end of an ECDH derivation from the shared secret: the key to save
    /// first, when the request names one, and then the bits asked for.
    pub fn ecdh_finish(&self, base_identifier: &str, name: &str, shared: &[u8], length: u32) -> (r: (
        Option<(String, StandaloneRecord)>,
        Result<Vec<u8>, SeetleError>,
    ))
        ensures
            match save_target(name@) {
                None => r.0 is None,
                Some(id) => r.0 matches Some((target, k)) && target@ == id && saved_ecdh_key(
                    k,
                    id,
                    shared@,
                    base_identifier@,
                ),
            },
            length > shared@.len() * 8 ==> (r.1 matches Err(e) && op_error(
                e,
                "Requested length too long"@,
            )),
            length <= shared@.len() * 8 ==> (r.1 matches Ok(v) && v@ == shared@.take(
                (length / 8) as int,
            )),
    {
        let saved = self.ecdh_saved_key(base_identifier, name, shared);
        let bits = self.ecdh_bits(shared, length);
        (saved, bits)
    }

    /// Whether operations on `identifier` go to the root backend: it is the
    /// root's master key.
    pub fn get_root_backend_if_matches(&self, identifier: &str) -> (r: bool)
        ensures
            r == (self.root_id() == Some(identifier@)),
    {
        match &self.root_key_source {
            RootKeySource::Backend { identifier: root, .. } => {
                let id = String::from_str(identifier);
                *root == id
            },
            RootKeySource::Direct => false,
        }
    }

    /// The key the root backend is asked to export when it cannot derive
    /// bits: an extractable private key with a copy of the root algorithm.
    pub fn root_export_key(&self) -> (r: Option<CryptoKey>)
        ensures
            match self.root() {
                RootKeySource::Direct => r is None,
                RootKeySource::Backend { algorithm, .. } => r matches Some(k) && k.key_type
                    == KeyType::Private && k.extractable && k.usages@.len() == 0 && same_algorithm(
                    k.algorithm,
                    algorithm,
                ),
            },
    {
        match &self.root_key_source {
            RootKeySource::Direct => None,
            RootKeySource::Backend { algorithm, .. } => Some(
                CryptoKey {
                    key_type: KeyType::Private,
                    extractable: true,
                    algorithm: algorithm.duplicate(),
                    usages: Vec::new(),
                },
            ),
        }
    }

    /// The next step towards the root seed, from the outcome of asking the
    /// root backend for 512 bits of its master key: a 64-byte answer is the
    /// seed, another length is refused, and a failure falls back to
    /// exporting the master key (not possible for a root held directly).
    pub fn root_seed_step(&self, derived: Result<Vec<u8>, SeetleError>) -> (r: Result<
        RootSeedStep,
        SeetleError,
    >)
        ensures
            match derived {
                Ok(seed) => if seed@.len() == 64 {
                    r matches Ok(RootSeedStep::Seed(s)) && s@ == seed@
                } else {
                    r matches Err(e) && op_error(e, "Invalid seed length from backend"@)
                },
                Err(_) => match self.root() {
                    RootKeySource::Direct => r matches Err(SeetleError::NotSupported),
                    RootKeySource::Backend { algorithm, .. } => r matches Ok(
                        RootSeedStep::Export(k),
                    ) && k.key_type == KeyType::Private && k.extractable && k.usages@.len() == 0
                        && same_algorithm(k.algorithm, algorithm),
                },
            },
    {
        match derived {
            Ok(seed) => {
                let s = self.seed_from_derived(seed)?;
                Ok(RootSeedStep::Seed(s))
            },
            Err(_) => match self.root_export_key() {
                Some(k) => Ok(RootSeedStep::Export(k)),
                None => Err(SeetleError::NotSupported),
            },
        }
    }

    /// The root seed from the bits the root backend derived: 64 bytes are
    /// needed.
    pub fn seed_from_derived(&self, seed: Vec<u8>) -> (r: Result<Vec<u8>, SeetleError>)
        ensures
            seed@.len() == 64 ==> (r matches Ok(s) && s@ == seed@),
            seed@.len() != 64 ==> (r matches Err(e) && op_error(
                e,
                "Invalid seed length from backend"@,
            )),
    {
        if seed.len() == 64 {
            Ok(seed)
        } else {
            Err(SeetleError::OperationError(String::from_str("Invalid seed length from backend")))
        }
    }

    /// The root seed from the key the root backend exported: 64 bytes are
    /// needed.
    pub fn seed_from_export(&self, data: Vec<u8>) -> (r: Result<Vec<u8>, SeetleError>)
        ensures
            data@.len() == 64 ==> (r matches Ok(s) && s@ == data@),
            data@.len() != 64 ==> (r matches Err(e) && op_error(
                e,
                "Exported key not suitable for XHD root"@,
            )),
    {
        if data.len() == 64 {
            Ok(data)
        } else {
            Err(
                SeetleError::OperationError(
                    String::from_str("Exported key not suitable for XHD root"),
                ),
            )
        }
    }

    /// The hardware binding reported for a key: `Partial` when the root
    /// backend reports its master key as hardware bound, fully or partly;
    /// otherwise the key's own. `root` is what the root backend reported.
    pub fn determine_hardware_bound(&self, local_status: HardwareBound, root: Option<
        HardwareBound,
    >) -> (h: HardwareBound)
        ensures
            h == if self.root() is Backend && (root == Some(HardwareBound::Yes) || root == Some(
                HardwareBound::Partial,
            )) {
                HardwareBound::Partial
            } else {
                local_status
            },
    {
        match &self.root_key_source {
            RootKeySource::Backend { .. } => match root {
                Some(HardwareBound::Yes) | Some(HardwareBound::Partial) => HardwareBound::Partial,
                _ => local_status,
            },
            RootKeySource::Direct => local_status,
        }
    }

    /// The record of a new derived key: the algorithm's name must carry xHD
    /// parameters, Ed25519 or generic algorithms only, and bindings are
    /// required; the key's extractability is recorded in its bindings.
    pub fn generate_key(
        &self,
        algorithm: Algorithm,
        extractable: bool,
        bindings: Option<Bindings>,
        key_usages: Vec<KeyUsage>,
    ) -> (r: Result<XhdKeyRecord, SeetleError>)
        ensures
            match algorithm {
                Algorithm::Ed25519 { name } | Algorithm::Generic { name } => match xhd_params(
                    name@,
                ) {
                    None => r matches Err(SeetleError::NotSupported),
                    Some((c, a, i, s)) => match bindings {
                        None => r matches Err(e) && op_error(
                            e,
                            "Bindings required for XHDBackend"@,
                        ),
                        Some(b) => r matches Ok(k) && k.bindings == (Bindings { extractable, ..b })
                            && k.algorithm == algorithm && k.usages@ == key_usages@ && k.context@
                            == context_name(c) && k.account == a && k.key_index == i && k.scheme@
                            == scheme_name(s),
                    },
                },
                _ => r matches Err(SeetleError::NotSupported),
            },
    {
        let params = match &algorithm {
            Algorithm::Ed25519 { name } => parse_xhd_params(name.as_str()),
            Algorithm::Generic { name } => parse_xhd_params(name.as_str()),
            _ => return Err(SeetleError::NotSupported),
        };
        let (c, a, i, s) = match params {
            Some(p) => p,
            None => return Err(SeetleError::NotSupported),
        };
        let mut b = match bindings {
            Some(b) => b,
            None => return Err(
                SeetleError::OperationError(String::from_str("Bindings required for XHDBackend")),
            ),
        };
        b.extractable = extractable;
        Ok(XhdKeyRecord {
            bindings: b,
            algorithm,
            usages: key_usages,
            context: String::from_str(context_str(c)),
            account: a,
            key_index: i,
            scheme: String::from_str(scheme_str(s)),
        })
    }

    /// Replaces the bindings of a stored derived key created updatable.
    pub fn update_key(&self, item: XhdStorageItem, new_bindings: Bindings) -> (r: Result<
        XhdStorageItem,
        SeetleError,
    >)
        ensures
            match item {
                XhdStorageItem::Standalone(_) => r matches Err(e) && op_error(
                    e,
                    "Only keys can be updated"@,
                ),
                XhdStorageItem::Key(k) => if k.bindings.updatable {
                    r matches Ok(XhdStorageItem::Key(n)) && n.bindings == new_bindings
                        && n.algorithm == k.algorithm && n.usages@ == k.usages@ && n.context
                        == k.context && n.account == k.account && n.key_index == k.key_index
                        && n.scheme == k.scheme
                } else {
                    r matches Err(e) && op_error(e, "Key is not updatable"@)
                },
            },
    {
        let k = match item {
            XhdStorageItem::Key(k) => k,
            XhdStorageItem::Standalone(_) => return Err(
                SeetleError::OperationError(String::from_str("Only keys can be updated")),
            ),
        };
        if !k.bindings.updatable {
            return Err(SeetleError::OperationError(String::from_str("Key is not updatable")));
        }
        Ok(XhdStorageItem::Key(XhdKeyRecord { bindings: new_bindings, ..k }))
    }

    /// The keys to list: the stored names, with the root's master key added
    /// when missing, without the names that begin with `.`.
    pub fn list_keys(&self, names: Vec<String>) -> (r: Vec<String>)
        ensures
            r@.map_values(|s: String| s@) == visible_names(
                match self.root_id() {
                    Some(id) => if names@.map_values(|s: String| s@).contains(id) {
                        names@.map_values(|s: String| s@)
                    } else {
                        names@.map_values(|s: String| s@).push(id)
                    },
                    None => names@.map_values(|s: String| s@),
                },
            ),
    {
        let mut all = names;
        match &self.root_key_source {
            RootKeySource::Backend { identifier, .. } => {
                let ghost before = all@.map_values(|s: String| s@);
                let mut found = false;
                let mut i: usize = 0;
                while i < all.len()
                    invariant
                        i <= all@.len(),
                        before == all@.map_values(|s: String| s@),
                        found == exists|j: int| 0 <= j < i && all@[j]@ == identifier@,
                    decreases all@.len() - i,
                {
                    if all[i] == *identifier {
                        found = true;
                    }
                    i = i + 1;
                }
                proof {
                    if found {
                        let j = choose|j: int| 0 <= j < i && all@[j]@ == identifier@;
                        assert(before[j] == identifier@);
                    } else {
                        assert forall|j: int| 0 <= j < before.len() implies before[j]
                            != identifier@ by {
                            assert(before[j] == all@[j]@);
                        }
                    }
                }
                if !found {
                    all.push(identifier.clone());
                    assert(all@.map_values(|s: String| s@) =~= before.push(identifier@));
                }
            },
            RootKeySource::Direct => {},
        }
        visible_keys(all)
    }

    /// The derivation parameters of a stored derived key; unknown names
    /// are a data error.
    pub fn key_params(&self, record: &XhdKeyRecord) -> (r: Result<
        (XhdContext, u32, u32, XhdScheme),
        SeetleError,
    >)
        ensures
            match stored_params(*record) {
                Some(p) => r == Ok::<(XhdContext, u32, u32, XhdScheme), SeetleError>(p),
                None => r matches Err(SeetleError::DataError),
            },
    {
        let c = if record.context == String::from_str("Address") {
            XhdContext::Address
        } else if record.context == String::from_str("Identity") {
            XhdContext::Identity
        } else {
            return Err(SeetleError::DataError);
        };
        let s = if record.scheme == String::from_str("Peikert") {
            XhdScheme::Peikert
        } else if record.scheme == String::from_str("V2") {
            XhdScheme::V2
        } else {
            return Err(SeetleError::DataError);
        };
        proof {
            reveal_strlit("Address");
            reveal_strlit("Identity");
            reveal_strlit("Peikert");
            reveal_strlit("V2");
        }
        Ok((c, record.account, record.key_index, s))
    }

    /// The seed of a key kept by its seed, which must have 64 bytes.
    pub fn standalone_seed(&self, record: &StandaloneRecord) -> (r: Result<Vec<u8>, SeetleError>)
        ensures
            record.seed@.len() == 64 ==> (r matches Ok(s) && s@ == record.seed@),
            record.seed@.len() != 64 ==> (r matches Err(e) && op_error(
                e,
                "Invalid standalone key seed"@,
            )),
    {
        if record.seed.len() != 64 {
            return Err(SeetleError::OperationError(String::from_str("Invalid standalone key seed")));
        }
        let s = record.seed.clone();
        assert(s@ =~= record.seed@);
        Ok(s)
    }

    /// What is reported about a derived key, given its public key and its
    /// hardware binding.
    pub fn key_metadata(
        &self,
        identifier: String,
        record: XhdKeyRecord,
        public_key: Vec<u8>,
        hardware_bound: HardwareBound,
        root_extractable: Option<bool>,
    ) -> (m: KeyMetadata)
        ensures
            m.master_seed matches Some(n) && n@ == self.master_seed_label(),
            m.seed_exportable == match self.root() {
                RootKeySource::Direct => None,
                RootKeySource::Backend { .. } => root_extractable,
            },
            m.identifier == identifier,
            m.algorithm@ == algorithm_debug_text(record.algorithm),
            m.usages@ == record.usages@,
            m.hardware_bound == hardware_bound,
            m.extractable == record.bindings.extractable,
            m.public_key == Some(public_key),
            m.context == Some(record.context),
            m.account == Some(record.account),
            m.index == Some(record.key_index),
            m.derivation == Some(record.scheme),
            m.source_key_identifier is None,
    {
        KeyMetadata {
            identifier,
            algorithm: record.algorithm.debug_text(),
            usages: record.usages,
            hardware_bound,
            extractable: record.bindings.extractable,
            public_key: Some(public_key),
            context: Some(record.context),
            account: Some(record.account),
            index: Some(record.key_index),
            derivation: Some(record.scheme),
            source_key_identifier: None,
            master_seed: Some(self.master_seed_name()),
            seed_exportable: match &self.root_key_source {
                RootKeySource::Direct => None,
                RootKeySource::Backend { .. } => root_extractable,
            },
        }
    }

    /// What is reported about a key kept by its seed, given the public key
    /// of its seed (kept only for a 64-byte seed) and its hardware binding.
    pub fn standalone_metadata(
        &self,
        identifier: String,
        record: StandaloneRecord,
        public_key: Option<Vec<u8>>,
        hardware_bound: HardwareBound,
    ) -> (m: KeyMetadata)
        ensures
            m.identifier == identifier,
            m.algorithm@ == algorithm_debug_text(record.algorithm),
            m.usages@ == record.usages@,
            m.hardware_bound == hardware_bound,
            m.extractable == record.bindings.extractable,
            m.public_key == if record.seed@.len() == 64 {
                public_key
            } else {
                None
            },
            m.context matches Some(c) && c@ == standalone_context(record),
            m.account is None,
            m.index is None,
            m.derivation is None,
            m.source_key_identifier == record.source_key_identifier,
            m.master_seed is None,
            m.seed_exportable is None,
    {
        let context = match &record.context {
            Some(c) => c.clone(),
            None => if record.source_key_identifier.is_some() {
                String::from_str("ECDH")
            } else {
                String::from_str("Standalone")
            },
        };
        let public_key = if record.seed.len() == 64 {
            public_key
        } else {
            None
        };
        KeyMetadata {
            identifier,
            algorithm: record.algorithm.debug_text(),
            usages: record.usages,
            hardware_bound,
            extractable: record.bindings.extractable,
            public_key,
            context: Some(context),
            account: None,
            index: None,
            derivation: None,
            source_key_identifier: record.source_key_identifier,
            master_seed: None,
            seed_exportable: None,
        }
    }

    /// The symmetric (and X25519) secret of a key: the first 32 bytes of its
    /// extended secret key.
    pub fn secret_scalar(&self, extended_secret: &[u8]) -> (r: Vec<u8>)
        requires
            extended_secret@.len() >= 32,
        ensures
            r@ == extended_secret@.take(32),
    {
        let s = vstd::slice::slice_subrange(extended_secret, 0, 32);
        let v = vstd::slice::slice_to_vec(s);
        assert(v@ =~= extended_secret@.take(32));
        v
    }

    /// The recipient of an HPKE encryption: the public key and `info` of an
    /// HPKE algorithm that names one. Any other algorithm encrypts with the
    /// key's own symmetric secret.
    pub fn hpke_recipient(&self, algorithm: &Algorithm) -> (r: Option<(Vec<u8>, Vec<u8>)>)
        ensures
            match *algorithm {
                Algorithm::Hpke { public_key: Some(pk), info, .. } => r matches Some((p, i)) && p@
                    == pk@ && i@ == match info {
                    Some(v) => v@,
                    None => Seq::<u8>::empty(),
                },
                _ => r is None,
            },
    {
        match algorithm {
            Algorithm::Hpke { public_key: Some(pk), info, .. } => {
                let p = pk.clone();
                assert(p@ =~= pk@);
                let i = match info {
                    Some(v) => {
                        let c = v.clone();
                        assert(c@ =~= v@);
                        c
                    },
                    None => Vec::new(),
                };
                Some((p, i))
            },
            _ => None,
        }
    }

    /// Seals `data` with AES-256-GCM under a key's symmetric secret and a
    /// fresh random nonce: `nonce || ciphertext || tag`.
    pub fn encrypt_symmetric(&self, secret: &[u8], data: Vec<u8>) -> (r: Result<Vec<u8>, SeetleError>)
        ensures
            secret@.len() != 32 ==> (r matches Err(e) && op_error(e, "Failed to create ring key"@)),
            secret@.len() == 32 ==> match r {
                Ok(w) => w@.len() == data@.len() + min_frame_len() && unframed(secret@, w@) == Some(
                    data@,
                ),
                Err(e) => op_error(e, "RNG error"@) || (data@.len() > MAX_SEAL_LEN && op_error(
                    e,
                    "Encryption failed"@,
                )),
            },
    {
        if secret.len() != 32 {
            return Err(SeetleError::OperationError(String::from_str("Failed to create ring key")));
        }
        let nonce = match random_bytes(NONCE_LEN) {
            Some(n) => n,
            None => return Err(SeetleError::OperationError(String::from_str("RNG error"))),
        };
        let sealed = match aes256gcm_seal_bytes(secret, nonce.as_slice(), data) {
            Some(s) => s,
            None => return Err(SeetleError::OperationError(String::from_str("Encryption failed"))),
        };
        let framed = concat_bytes(nonce.as_slice(), sealed.as_slice());
        proof {
            assert(framed@.take(NONCE_LEN as int) =~= nonce@);
            assert(framed@.skip(NONCE_LEN as int) =~= sealed@);
        }
        Ok(framed)
    }

    /// Refuses ciphertexts too short to hold a nonce and a tag.
    pub fn check_sealed_len(&self, data: &[u8]) -> (r: Result<(), SeetleError>)
        ensures
            r is Ok <==> data@.len() >= min_frame_len(),
            r is Err ==> (r matches Err(SeetleError::DataError)),
    {
        if data.len() < NONCE_LEN + TAG_LEN {
            Err(SeetleError::DataError)
        } else {
            Ok(())
        }
    }

    /// Opens `nonce || ciphertext || tag` with AES-256-GCM under a key's
    /// symmetric secret.
    pub fn decrypt_symmetric(&self, secret: &[u8], data: &[u8]) -> (r: Result<Vec<u8>, SeetleError>)
        ensures
            match symmetric_plaintext(secret@, data@) {
                Some(p) => r matches Ok(v) && v@ == p,
                None => r is Err,
            },
            data@.len() < min_frame_len() ==> (r matches Err(SeetleError::DataError)),
            data@.len() >= min_frame_len() ==> if secret@.len() != 32 {
                r matches Err(e) && op_error(e, "Failed to create ring key"@)
            } else {
                match unframed(secret@, data@) {
                    Some(p) => r matches Ok(v) && v@ == p,
                    None => r matches Err(e) && op_error(e, "Decryption failed"@),
                }
            },
    {
        if data.len() < NONCE_LEN + TAG_LEN {
            return Err(SeetleError::DataError);
        }
        if secret.len() != 32 {
            return Err(SeetleError::OperationError(String::from_str("Failed to create ring key")));
        }
        let nonce = vstd::slice::slice_subrange(data, 0, NONCE_LEN);
        let body = vstd::slice::slice_subrange(data, NONCE_LEN, data.len());
        proof {
            assert(nonce@ =~= data@.take(NONCE_LEN as int));
            assert(body@ =~= data@.skip(NONCE_LEN as int));
        }
        match aes256gcm_open_bytes(secret, nonce, body) {
            Some(p) => Ok(p),
            None => Err(SeetleError::OperationError(String::from_str("Decryption failed"))),
        }
    }

    /// Seals `data` with HPKE for the holder of an Ed25519 public key:
    /// the encapsulated key followed by the ciphertext.
    pub fn encrypt_hpke(&self, public_key: &[u8], info: &[u8], data: &[u8]) -> (r: Result<
        Vec<u8>,
        SeetleError,
    >)
        ensures
            montgomery_of(public_key@) is None ==> (r matches Err(SeetleError::DataError)),
            montgomery_of(public_key@) is Some ==> !(r matches Err(SeetleError::DataError)),
            r matches Ok(v) ==> hpke_sealed_for(public_key@, info@, data@, v@),
            r matches Err(e) ==> (e matches SeetleError::DataError || op_error_starting(
                e,
                "HPKE setup sender error: "@,
            ) || op_error_starting(e, "HPKE seal error: "@)),
    {
        let peer = match ed25519_to_x25519(public_key) {
            Some(p) => p,
            None => return Err(SeetleError::DataError),
        };
        match hpke_seal(peer.as_slice(), info, data) {
            Ok((enc, ct)) => {
                let v = concat_bytes(enc.as_slice(), ct.as_slice());
                proof {
                    assert(v@.take(32) =~= enc@);
                    assert(v@.skip(32) =~= ct@);
                }
                Ok(v)
            },
            Err(HpkeFailure::Setup(t)) => {
                let m = joined("HPKE setup sender error: ", t.as_str());
                proof {
                    reveal_strlit("HPKE setup sender error: ");
                    assert(m@.take(25) =~= "HPKE setup sender error: "@);
                }
                Err(SeetleError::OperationError(m))
            },
            Err(HpkeFailure::Cipher(t)) => {
                let m = joined("HPKE seal error: ", t.as_str());
                proof {
                    reveal_strlit("HPKE seal error: ");
                    assert(m@.take(17) =~= "HPKE seal error: "@);
                }
                Err(SeetleError::OperationError(m))
            },
            Err(_) => Err(SeetleError::DataError),
        }
    }

    /// The derived key an HPKE decryption or an ECDH agreement uses; keys
    /// kept by their seed are refused with `refusal`.
    pub fn asymmetric_key(&self, item: XhdStorageItem, refusal: &str) -> (r: Result<
        XhdKeyRecord,
        SeetleError,
    >)
        ensures
            match item {
                XhdStorageItem::Key(k) => r == Ok::<XhdKeyRecord, SeetleError>(k),
                XhdStorageItem::Standalone(_) => r matches Err(e) && op_error(e, refusal@),
            },
    {
        match item {
            XhdStorageItem::Key(k) => Ok(k),
            XhdStorageItem::Standalone(_) => Err(SeetleError::OperationError(String::from_str(refusal))),
        }
    }

    /// Whether the secret scalar `secret` is the HPKE recipient key for the
    /// Ed25519 public key `public_key`: its X25519 public key is the
    /// Montgomery form of `public_key`. When it is, a message sealed with
    /// `encrypt_hpke` for `public_key` opens with `secret`
    /// (`law_hpke_roundtrip`).
    pub fn hpke_key_matches(&self, public_key: &[u8], secret: &[u8]) -> (r: bool)
        requires
            secret@.len() == 32,
        ensures
            r == (montgomery_of(public_key@) == Some(x25519_public(secret@))),
    {
        let own = x25519_public_key(secret);
        match ed25519_to_x25519(public_key) {
            Some(m) => {
                let same = bytes_equal(m.as_slice(), own.as_slice());
                proof {
                    if !same {
                        assert(m@ != own@);
                    }
                }
                same
            },
            None => false,
        }
    }

    /// Splits an HPKE message into its 32-byte encapsulated key and its
    /// ciphertext.
    pub fn split_hpke(&self, data: &[u8]) -> (r: Result<(Vec<u8>, Vec<u8>), SeetleError>)
        ensures
            data@.len() < 32 ==> (r matches Err(SeetleError::DataError)),
            data@.len() >= 32 ==> (r matches Ok((enc, ct)) && enc@ == data@.take(32) && ct@
                == data@.skip(32)),
    {
        if data.len() < 32 {
            return Err(SeetleError::DataError);
        }
        let enc = vstd::slice::slice_to_vec(vstd::slice::slice_subrange(data, 0, 32));
        let ct = vstd::slice::slice_to_vec(vstd::slice::slice_subrange(data, 32, data.len()));
        assert(enc@ =~= data@.take(32));
        assert(ct@ =~= data@.skip(32));
        Ok((enc, ct))
    }

    /// Opens an HPKE message with a derived key's X25519 secret.
    pub fn decrypt_hpke(&self, secret: &[u8], encapped: &[u8], info: &[u8], ciphertext: &[u8]) -> (r:
        Result<Vec<u8>, SeetleError>)
        ensures
            match hpke_opened(secret@, encapped@, info@, ciphertext@) {
                Some(p) => r matches Ok(v) && v@ == p,
                None => r matches Err(e) && (e matches SeetleError::DataError || op_error(
                    e,
                    "Failed to load HPKE secret key"@,
                ) || op_error_starting(e, "HPKE setup receiver error: "@) || op_error_starting(
                    e,
                    "HPKE open error: "@,
                )),
            },
    {
        match hpke_open(secret, encapped, info, ciphertext) {
            Ok(p) => Ok(p),
            Err(HpkeFailure::SecretKey) => Err(
                SeetleError::OperationError(String::from_str("Failed to load HPKE secret key")),
            ),
            Err(HpkeFailure::Setup(t)) => {
                let m = joined("HPKE setup receiver error: ", t.as_str());
                proof {
                    reveal_strlit("HPKE setup receiver error: ");
                    assert(m@.take(27) =~= "HPKE setup receiver error: "@);
                }
                Err(SeetleError::OperationError(m))
            },
            Err(HpkeFailure::Cipher(t)) => {
                let m = joined("HPKE open error: ", t.as_str());
                proof {
                    reveal_strlit("HPKE open error: ");
                    assert(m@.take(17) =~= "HPKE open error: "@);
                }
                Err(SeetleError::OperationError(m))
            },
            Err(_) => Err(SeetleError::DataError),
        }
    }

    /// The X25519 shared secret of a derived key's secret and a peer's
    /// Ed25519 public key (32 bytes, a valid point).
    pub fn ecdh_shared(&self, peer_public: &[u8], secret: &[u8]) -> (r: Result<Vec<u8>, SeetleError>)
        requires
            secret@.len() == 32,
        ensures
            match montgomery_of(peer_public@) {
                Some(m) => peer_public@.len() == 32 ==> (r matches Ok(s) && s@ == x25519(secret@, m)),
                None => r matches Err(SeetleError::DataError),
            },
            peer_public@.len() != 32 ==> (r matches Err(SeetleError::DataError)),
            r matches Ok(s) ==> s@.len() == 32,
    {
        if peer_public.len() != 32 {
            return Err(SeetleError::DataError);
        }
        let peer = match ed25519_to_x25519(peer_public) {
            Some(p) => p,
            None => return Err(SeetleError::DataError),
        };
        Ok(x25519_shared(secret, peer.as_slice()))
    }

    /// The key an ECDH request named `SAVE_KEY:<id>` saves: a standalone
    /// Ed25519 key under `<id>`, extractable, whose seed is the shared
    /// secret followed by its SHA-256 digest.
    pub fn ecdh_saved_key(&self, base_identifier: &str, name: &str, shared: &[u8]) -> (r: Option<
        (String, StandaloneRecord),
    >)
        ensures
            match save_target(name@) {
                None => r is None,
                Some(id) => r matches Some((target, k)) && target@ == id && saved_ecdh_key(
                    k,
                    id,
                    shared@,
                    base_identifier@,
                ),
            },
    {
        let is_save = crate::text::has_prefix(name, "SAVE_KEY:");
        proof {
            reveal_strlit("SAVE_KEY:");
        }
        if !is_save {
            return None;
        }
        let target = crate::text::char_suffix(name, 9);
        let digest = sha256_bytes(shared);
        let seed = concat_bytes(shared, digest.as_slice());
        let mut usages: Vec<KeyUsage> = Vec::new();
        usages.push(KeyUsage::Sign);
        usages.push(KeyUsage::Verify);
        usages.push(KeyUsage::Encrypt);
        usages.push(KeyUsage::Decrypt);
        assert(usages@ =~= seq![KeyUsage::Sign, KeyUsage::Verify, KeyUsage::Encrypt, KeyUsage::Decrypt]);
        let bindings = Bindings {
            hardware_bound: HardwareBound::No,
            extractable: true,
            origin_bindings: Vec::new(),
            identifier: target.clone(),
            updatable: false,
        };
        let record = StandaloneRecord {
            bindings,
            algorithm: Algorithm::Ed25519 { name: String::from_str("Ed25519") },
            usages,
            seed,
            source_key_identifier: Some(String::from_str(base_identifier)),
            context: Some(String::from_str("ECDH")),
        };
        Some((target, record))
    }

    /// The first `length` bits of an ECDH shared secret.
    pub fn ecdh_bits(&self, shared: &[u8], length: u32) -> (r: Result<Vec<u8>, SeetleError>)
        ensures
            length > shared@.len() * 8 ==> (r matches Err(e) && op_error(
                e,
                "Requested length too long"@,
            )),
            length <= shared@.len() * 8 ==> (r matches Ok(v) && v@ == shared@.take(
                (length / 8) as int,
            )),
    {
        if length as u128 > (shared.len() as u128) * 8 {
            return Err(SeetleError::OperationError(String::from_str("Requested length too long")));
        }
        let n = (length / 8) as usize;
        let v = vstd::slice::slice_to_vec(vstd::slice::slice_subrange(shared, 0, n));
        assert(v@ =~= shared@.take((length / 8) as int));
        Ok(v)
    }

    /// Export of a key kept by its seed: the seed, when extractable.
    pub fn export_standalone(&self, record: StandaloneRecord) -> (r: Result<Vec<u8>, SeetleError>)
        ensures
            record.bindings.extractable ==> (r matches Ok(s) && s@ == record.seed@),
            !record.bindings.extractable ==> (r matches Err(e) && op_error(
                e,
                "Key is not extractable"@,
            )),
    {
        if !record.bindings.extractable {
            return Err(SeetleError::OperationError(String::from_str("Key is not extractable")));
        }
        Ok(record.seed)
    }

    /// Export of a derived key: it must be extractable and its parameters
    /// known; the caller then derives it and exports its secret.
    pub fn exportable_params(&self, record: &XhdKeyRecord) -> (r: Result<
        (XhdContext, u32, u32, XhdScheme),
        SeetleError,
    >)
        ensures
            !record.bindings.extractable ==> (r matches Err(e) && op_error(
                e,
                "Key is not extractable"@,
            )),
            record.bindings.extractable ==> match stored_params(*record) {
                Some(p) => r == Ok::<(XhdContext, u32, u32, XhdScheme), SeetleError>(p),
                None => r matches Err(SeetleError::DataError),
            },
    {
        if !record.bindings.extractable {
            return Err(SeetleError::OperationError(String::from_str("Key is not extractable")));
        }
        self.key_params(record)
    }
}

fn bytes_equal(a: &[u8], b: &[u8]) -> (r: bool)
    ensures
        r == (a@ == b@),
{
    if a.len() != b.len() {
        return false;
    }
    let mut i: usize = 0;
    while i < a.len()
        invariant
            i <= a@.len(),
            a@.len() == b@.len(),
            forall|j: int| 0 <= j < i ==> a@[j] == b@[j],
        decreases a@.len() - i,
    {
        if a[i] != b[i] {
            return false;
        }
        i = i + 1;
    }
    assert(a@ =~= b@);
    true
}

/// `a` followed by `b`.
pub fn concat_bytes(a: &[u8], b: &[u8]) -> (r: Vec<u8>)
    ensures
        r@ == a@ + b@,
{
    let mut r = vstd::slice::slice_to_vec(a);
    let mut i: usize = 0;
    while i < b.len()
        invariant
            i <= b@.len(),
            r@ == a@ + b@.take(i as int),
        decreases b@.len() - i,
    {
        r.push(b[i]);
        i = i + 1;
        assert(r@ =~= a@ + b@.take(i as int));
    }
    assert(b@.take(i as int) =~= b@);
    r
}

/// `sealed` is an HPKE message for the holder of the Ed25519 key
/// `public_key`: the 32-byte encapsulated key followed by the ciphertext
/// of `data`, which opens under `info` with any 32-byte secret whose X25519
/// public key is the Montgomery form of `public_key`.
pub open spec fn hpke_sealed_for(public_key: Seq<u8>, info: Seq<u8>, data: Seq<u8>, sealed: Seq<u8>) -> bool {
    &&& sealed.len() == 32 + data.len() + 16
    &&& forall|sk: Seq<u8>|
        #![trigger hpke_opened(sk, sealed.take(32), info, sealed.skip(32))]
        sk.len() == 32 && montgomery_of(public_key) == Some(x25519_public(sk)) ==> hpke_opened(
            sk,
            sealed.take(32),
            info,
            sealed.skip(32),
        ) == Some(data)
}

/// What splitting an HPKE message and opening it with `secret` under
/// `info` gives (`split_hpke`, then `decrypt_hpke`): the plaintext, or
/// nothing when it is too short or does not open.
pub open spec fn hpke_plaintext(secret: Seq<u8>, info: Seq<u8>, sealed: Seq<u8>) -> Option<Seq<u8>> {
    if sealed.len() < 32 {
        None
    } else {
        hpke_opened(secret, sealed.take(32), info, sealed.skip(32))
    }
}

/// A message `encrypt_hpke` sealed for an Ed25519 key opens, with the
/// secret scalar whose X25519 public key matches that key and the same
/// `info`, to the data that was sealed.
pub proof fn law_hpke_roundtrip(
    public_key: Seq<u8>,
    secret: Seq<u8>,
    info: Seq<u8>,
    data: Seq<u8>,
    sealed: Seq<u8>,
)
    requires
        secret.len() == 32,
        montgomery_of(public_key) == Some(x25519_public(secret)),
        hpke_sealed_for(public_key, info, data, sealed),
    ensures
        hpke_plaintext(secret, info, sealed) == Some(data),
{
    assert(hpke_opened(secret, sealed.take(32), info, sealed.skip(32)) == Some(data));
}

/// What `decrypt_symmetric` gives for a secret and framed data: the
/// plaintext, or nothing when decryption fails.
pub open spec fn symmetric_plaintext(secret: Seq<u8>, data: Seq<u8>) -> Option<Seq<u8>> {
    if data.len() < min_frame_len() || secret.len() != 32 {
        None
    } else {
        unframed(secret, data)
    }
}

/// Decrypting what `encrypt_symmetric` sealed under the same secret gives
/// the data back.
pub proof fn law_symmetric_roundtrip(secret: Seq<u8>, data: Seq<u8>, sealed: Seq<u8>)
    requires
        secret.len() == 32,
        sealed.len() == data.len() + min_frame_len(),
        unframed(secret, sealed) == Some(data),
    ensures
        symmetric_plaintext(secret, sealed) == Some(data),
{
}

} // verus!
