//! A backend for keys held by a TPM 2.0.
//!
//! This build carries no TPM stack: key generation, signing and bit
//! derivation are not supported, while the stored records can still be
//! read, updated, listed and exported. The decisions a TPM-enabled build
//! takes around its TPM calls are here too: which key a generation asks
//! for, how hierarchy-derived seeds are assembled from HMAC blocks, and how
//! a stored seed answers a request for bits.
use vstd::prelude::*;

use crate::backends::{visible_keys, visible_names, StoredKey};
use crate::debug::{algorithm_debug_text, lemma_escaped_plain, opt_text_debug, plain_char, quoted};
use crate::crypto::{p256_verifies, p256_verify, sha512, sha512_bytes};
use crate::text::{decimal, joined, u32_to_string};
use crate::types::{
    op_error, Algorithm, Bindings, CryptoKey, HardwareBound, KeyMetadata, KeyOrIdentifier,
    KeyUsage, SeetleError,
};

verus! {

/// What the TPM backend stores about a key.
#[derive(Debug, Clone)]
pub struct TpmRecord {
    pub bindings: Bindings,
    pub algorithm: Algorithm,
    pub usages: Vec<KeyUsage>,
    /// The wrapped private key blob from the TPM, or the seed itself.
    pub key_blob: Vec<u8>,
    /// The public part of the key.
    pub public_blob: Vec<u8>,
    /// Whether the key is derived from a hardware hierarchy.
    pub is_hierarchy_derived: bool,
}

/// Whether `needle` occurs in `s`.
pub open spec fn has_text(s: Seq<char>, needle: Seq<char>) -> bool {
    exists|i: int| 0 <= i <= s.len() - needle.len() && #[trigger] s.subrange(i, i + needle.len()) == needle
}

/// Whether `needle` occurs in `s` (`str::contains`).
pub fn contains_text(s: &str, needle: &str) -> (r: bool)
    ensures
        r == has_text(s@, needle@),
{
    let a = crate::text::chars_of(s);
    let b = crate::text::chars_of(needle);
    if b.len() > a.len() {
        return false;
    }
    let mut i: usize = 0;
    while i <= a.len() - b.len()
        invariant
            a@ == s@,
            b@ == needle@,
            b@.len() <= a@.len(),
            a@.len() <= usize::MAX,
            i <= a@.len() - b@.len() + 1,
            forall|k: int| 0 <= k < i ==> #[trigger] a@.subrange(k, k + b@.len()) != b@,
        decreases a@.len() - b@.len() + 1 - i,
    {
        let mut j: usize = 0;
        let mut same = true;
        while j < b.len()
            invariant
                a@ == s@,
                b@ == needle@,
                i + b@.len() <= a@.len(),
                a@.len() <= usize::MAX,
                j <= b@.len(),
                same == forall|k: int| 0 <= k < j ==> a@[i + k] == b@[k],
            decreases b@.len() - j,
        {
            if a[i + j] != b[j] {
                same = false;
            }
            j = j + 1;
        }
        if same {
            assert(a@.subrange(i as int, i + b@.len()) =~= b@);
            return true;
        }
        assert(a@.subrange(i as int, i + b@.len()) != b@) by {
            let k = choose|k: int| 0 <= k < b@.len() && a@[i + k] != b@[k];
            assert(a@.subrange(i as int, i + b@.len())[k] != b@[k]);
        }
        i = i + 1;
    }
    assert forall|k: int| 0 <= k <= s@.len() - needle@.len() implies #[trigger] s@.subrange(
        k,
        k + needle@.len(),
    ) != needle@ by {}
    false
}

/// The error text for verification with a key that has no public key.
pub open spec fn no_public_key_message() -> Seq<char> {
    "Public key not found for verification"@
}

/// The number of seed bytes a generation asks for: a raw key's length in
/// bytes, 32 for any other seed.
pub open spec fn requested_len_of(a: Algorithm) -> nat {
    match a {
        Algorithm::Raw { length } => (length / 8) as nat,
        _ => 32,
    }
}

/// The number of seed bytes a generation asks for.
pub fn requested_len(a: &Algorithm) -> (n: usize)
    ensures
        n == requested_len_of(*a),
{
    match a {
        Algorithm::Raw { length } => (*length / 8) as usize,
        _ => 32,
    }
}

/// The kind of key a TPM generation makes.
#[derive(Debug, Clone, Copy, PartialEq, Eq)]
pub enum TpmKeyKind {
    /// A seed of this many bytes, derived from the owner hierarchy when
    /// hardware bound, else drawn from the TPM's random source.
    Seed { len: usize, from_hierarchy: bool },
    /// An ECDSA P-256 key created under the storage parent.
    EcdsaP256,
}

/// The error text for algorithms a TPM build recognises but cannot create.
pub open spec fn unimplemented_message() -> Seq<char> {
    "TPM key generation for this algorithm not fully implemented in this skeleton"@
}

/// The size of the next batch of random bytes to ask the TPM for.
pub open spec fn random_batch(have: nat, want: nat) -> nat {
    let left = (want - have) as nat;
    if left < 64 { left } else { 64 }
}

/// The label of the `counter`-th HMAC block of a hierarchy-derived seed.
pub open spec fn hierarchy_label(identifier: Seq<char>, counter: nat) -> Seq<char> {
    identifier + "-part-"@ + decimal(counter)
}

/// The error text when a hierarchy-derived seed needs more than ten blocks.
pub open spec fn too_much_message() -> Seq<char> {
    "Too much data requested from TPM hierarchy"@
}

/// Assembles a seed from the owner hierarchy: HMAC blocks over labelled
/// inputs, concatenated until enough bytes are there, then cut to length.
pub struct HierarchyBits {
    identifier: String,
    requested_len: usize,
    accumulated: Vec<u8>,
    counter: u8,
}

impl HierarchyBits {
    /// The bytes gathered so far.
    pub closed spec fn gathered(&self) -> Seq<u8> {
        self.accumulated@
    }

    /// The number of the next block.
    pub closed spec fn next_counter(&self) -> nat {
        self.counter as nat
    }

    /// The number of bytes asked for.
    pub closed spec fn wanted(&self) -> nat {
        self.requested_len as nat
    }

    /// The key the seed is for.
    pub closed spec fn key_id(&self) -> Seq<char> {
        self.identifier@
    }

    /// Starts a seed of `requested_len` bytes for the key `identifier`.
    pub fn new(identifier: &str, requested_len: usize) -> (h: Self)
        ensures
            h.gathered().len() == 0,
            h.next_counter() == 1,
            h.wanted() == requested_len,
            h.key_id() == identifier@,
    {
        HierarchyBits {
            identifier: String::from_str(identifier),
            requested_len,
            accumulated: Vec::new(),
            counter: 1,
        }
    }

    /// The label of the next block to ask the TPM for, or `None` once
    /// enough bytes are there.
    pub fn next_label(&self) -> (r: Option<String>)
        requires
            self.next_counter() <= 10,
        ensures
            self.gathered().len() >= self.wanted() ==> r is None,
            self.gathered().len() < self.wanted() ==> (r matches Some(l) && l@ == hierarchy_label(
                self.key_id(),
                self.next_counter(),
            )),
    {
        if self.accumulated.len() >= self.requested_len {
            return None;
        }
        let mut label = self.identifier.clone();
        label.append("-part-");
        label.append(u32_to_string(self.counter as u32).as_str());
        proof {
            reveal_strlit("-part-");
            assert(label@ =~= hierarchy_label(self.key_id(), self.next_counter()));
        }
        Some(label)
    }

    /// Adds the block the TPM gave for the last label; more than ten blocks
    /// are refused.
    pub fn absorb(&mut self, block: &[u8]) -> (r: Result<(), SeetleError>)
        requires
            old(self).next_counter() <= 10,
        ensures
            final(self).gathered() == old(self).gathered() + block@,
            final(self).next_counter() == old(self).next_counter() + 1,
            final(self).wanted() == old(self).wanted(),
            final(self).key_id() == old(self).key_id(),
            r is Err <==> final(self).next_counter() > 10,
            r matches Err(e) ==> op_error(e, too_much_message()),
    {
        let mut i: usize = 0;
        let ghost start = self.accumulated@;
        while i < block.len()
            invariant
                i <= block@.len(),
                self.accumulated@ == start + block@.take(i as int),
                self.counter == old(self).counter,
                self.requested_len == old(self).requested_len,
                self.identifier == old(self).identifier,
                start == old(self).accumulated@,
            decreases block@.len() - i,
        {
            self.accumulated.push(block[i]);
            i = i + 1;
            assert(self.accumulated@ =~= start + block@.take(i as int));
        }
        assert(block@.take(i as int) =~= block@);
        self.counter = self.counter + 1;
        if self.counter > 10 {
            return Err(
                SeetleError::OperationError(
                    String::from_str("Too much data requested from TPM hierarchy"),
                ),
            );
        }
        Ok(())
    }

    /// The seed: the gathered bytes cut to the length asked for.
    pub fn finish(self) -> (r: Vec<u8>)
        ensures
            self.gathered().len() >= self.wanted() ==> r@ == self.gathered().take(
                self.wanted() as int,
            ),
            self.gathered().len() < self.wanted() ==> r@ == self.gathered(),
    {
        let mut v = self.accumulated;
        v.truncate(self.requested_len);
        v
    }
}

/// What a stored seed gives for a request of `length` bits: the seed when
/// it has exactly that many bytes, its SHA-512 digest when 512 bits are
/// asked for, an error otherwise.
pub open spec fn seed_bits(material: Seq<u8>, length: u32) -> Option<Seq<u8>> {
    if material.len() == length / 8 {
        Some(material)
    } else if length == 512 {
        Some(sha512(material))
    } else {
        None
    }
}

/// The error text for a stored seed of the wrong length.
pub open spec fn wrong_length_message(identifier: Seq<char>, length: u32, got: nat) -> Seq<char> {
    "Stored seed for "@ + identifier + " has wrong length and cannot be derived: expected "@
        + decimal((length / 8) as nat) + ", got "@ + decimal(got)
}

/// The decimal text of a `usize`.
fn usize_to_string(n: usize) -> (s: String)
    ensures
        s@ == decimal(n as nat),
    decreases n,
{
    if n <= u32::MAX as usize {
        u32_to_string(n as u32)
    } else {
        let mut s = usize_to_string(n / 10);
        crate::text::push_char(&mut s, ((n % 10) as u8 + 48u8) as char);
        assert(s@ =~= decimal(n as nat));
        s
    }
}

/// A backend that uses a TPM 2.0 for hardware-backed keys.
pub struct TpmBackend {}

impl TpmBackend {
    /// Creates the backend.
    pub fn new() -> (r: Result<Self, SeetleError>)
        ensures
            r is Ok,
    {
        Ok(TpmBackend {  })
    }

    /// Generation, signing and bit derivation need a TPM stack, which this
    /// build does not carry.
    pub fn hardware_operation(&self) -> (e: SeetleError)
        ensures
            e matches SeetleError::NotSupported,
    {
        SeetleError::NotSupported
    }

    /// Which key a TPM-enabled build makes for a generation request. Keys
    /// need bindings; raw and generic seeds and P-256 keys are made, Ed25519
    /// and large RSA-PSS keys are recognised but not implemented, others are
    /// not supported.
    pub fn generation_kind(&self, algorithm: &Algorithm, bindings: &Option<Bindings>) -> (r:
        Result<TpmKeyKind, SeetleError>)
        ensures
            match bindings {
                None => r matches Err(SeetleError::NotSupported),
                Some(b) => match *algorithm {
                    Algorithm::Generic { .. } | Algorithm::Raw { .. } => r == Ok::<
                        TpmKeyKind,
                        SeetleError,
                    >(
                        TpmKeyKind::Seed {
                            len: requested_len_of(*algorithm) as usize,
                            from_hierarchy: b.hardware_bound == HardwareBound::Yes,
                        },
                    ),
                    Algorithm::Ecdsa { named_curve, .. } => if named_curve@ == "P-256"@ {
                        r == Ok::<TpmKeyKind, SeetleError>(TpmKeyKind::EcdsaP256)
                    } else {
                        r matches Err(SeetleError::NotSupported)
                    },
                    Algorithm::Ed25519 { .. } => r matches Err(e) && op_error(
                        e,
                        unimplemented_message(),
                    ),
                    Algorithm::RsaPss { modulus_length, .. } => if modulus_length >= 2048 {
                        r matches Err(e) && op_error(e, unimplemented_message())
                    } else {
                        r matches Err(SeetleError::NotSupported)
                    },
                    _ => r matches Err(SeetleError::NotSupported),
                },
            },
    {
        let b = match bindings {
            Some(b) => b,
            None => return Err(SeetleError::NotSupported),
        };
        let unimplemented = "TPM key generation for this algorithm not fully implemented in this skeleton";
        match algorithm {
            Algorithm::Generic { .. } | Algorithm::Raw { .. } => Ok(
                TpmKeyKind::Seed {
                    len: requested_len(algorithm),
                    from_hierarchy: b.hardware_bound == HardwareBound::Yes,
                },
            ),
            Algorithm::Ecdsa { named_curve, .. } => {
                if *named_curve == String::from_str("P-256") {
                    Ok(TpmKeyKind::EcdsaP256)
                } else {
                    Err(SeetleError::NotSupported)
                }
            },
            Algorithm::Ed25519 { .. } => Err(SeetleError::OperationError(String::from_str(unimplemented))),
            Algorithm::RsaPss { modulus_length, .. } => {
                if *modulus_length >= 2048 {
                    Err(SeetleError::OperationError(String::from_str(unimplemented)))
                } else {
                    Err(SeetleError::NotSupported)
                }
            },
            _ => Err(SeetleError::NotSupported),
        }
    }

    /// The size of the next batch of random bytes to ask the TPM for, when
    /// `have` of `want` bytes are there.
    pub fn next_random_batch(&self, have: usize, want: usize) -> (n: usize)
        requires
            have < want,
        ensures
            n == random_batch(have as nat, want as nat),
            0 < n <= 64,
    {
        let left = want - have;
        if left < 64 {
            left
        } else {
            64
        }
    }

    /// The record of a generated key: a hierarchy-derived seed keeps no key
    /// material, any other keeps its blob.
    pub fn new_record(
        &self,
        bindings: Bindings,
        extractable: bool,
        algorithm: Algorithm,
        key_usages: Vec<KeyUsage>,
        key_blob: Vec<u8>,
        public_blob: Vec<u8>,
        is_hierarchy_derived: bool,
    ) -> (k: TpmRecord)
        ensures
            k.bindings == (Bindings { extractable, ..bindings }),
            k.algorithm == algorithm,
            k.usages@ == key_usages@,
            is_hierarchy_derived ==> k.key_blob@.len() == 0,
            !is_hierarchy_derived ==> k.key_blob@ == key_blob@,
            k.public_blob@ == public_blob@,
            k.is_hierarchy_derived == is_hierarchy_derived,
    {
        let mut b = bindings;
        b.extractable = extractable;
        TpmRecord {
            bindings: b,
            algorithm,
            usages: key_usages,
            key_blob: if is_hierarchy_derived {
                Vec::new()
            } else {
                key_blob
            },
            public_blob,
            is_hierarchy_derived,
        }
    }

    /// Replaces the bindings of a stored key; a key created as not updatable
    /// refuses access.
    pub fn update_key(&self, record: TpmRecord, new_bindings: Bindings) -> (r: Result<
        TpmRecord,
        SeetleError,
    >)
        ensures
            if record.bindings.updatable {
                r matches Ok(k) && k.bindings == new_bindings && k.algorithm == record.algorithm
                    && k.usages@ == record.usages@ && k.key_blob@ == record.key_blob@
                    && k.public_blob@ == record.public_blob@ && k.is_hierarchy_derived
                    == record.is_hierarchy_derived
            } else {
                r matches Err(SeetleError::AccessDenied)
            },
    {
        if !record.bindings.updatable {
            return Err(SeetleError::AccessDenied);
        }
        Ok(TpmRecord { bindings: new_bindings, ..record })
    }

    /// The keys to list: the stored names that do not begin with `.`.
    pub fn list_keys(&self, names: Vec<String>) -> (r: Vec<String>)
        ensures
            r@.map_values(|s: String| s@) == visible_names(names@.map_values(|s: String| s@)),
    {
        visible_keys(names)
    }

    /// What is reported about a stored key. Without a TPM stack the public
    /// key cannot be read from its blob and is left out.
    pub fn get_key_metadata(&self, identifier: String, record: TpmRecord) -> (m: KeyMetadata)
        ensures
            m.identifier == identifier,
            m.algorithm@ == algorithm_debug_text(record.algorithm),
            m.usages@ == record.usages@,
            m.hardware_bound == record.bindings.hardware_bound,
            m.extractable == record.bindings.extractable,
            m.public_key is None,
            m.context is None,
            m.account is None,
            m.index is None,
            m.derivation is None,
            m.source_key_identifier is None,
            m.master_seed is None,
            m.seed_exportable is None,
    {
        KeyMetadata {
            identifier,
            algorithm: record.algorithm.debug_text(),
            usages: record.usages,
            hardware_bound: record.bindings.hardware_bound,
            extractable: record.bindings.extractable,
            public_key: None,
            context: None,
            account: None,
            index: None,
            derivation: None,
            source_key_identifier: None,
            master_seed: None,
            seed_exportable: None,
        }
    }

    /// Verifies a signature with the public key reported for a stored key:
    /// P-256 ECDSA keys are verified, a missing public key is an error,
    /// other algorithms are not supported.
    pub fn verify(&self, metadata: &KeyMetadata, signature: &[u8], data: &[u8]) -> (r: Result<
        bool,
        SeetleError,
    >)
        ensures
            match metadata.public_key {
                None => r matches Err(e) && op_error(e, no_public_key_message()),
                Some(pk) => if has_text(metadata.algorithm@, "Ecdsa"@) && has_text(
                    metadata.algorithm@,
                    "P-256"@,
                ) {
                    r == Ok::<bool, SeetleError>(p256_verifies(pk@, data@, signature@))
                } else {
                    r matches Err(SeetleError::NotSupported)
                },
            },
    {
        let pk = match &metadata.public_key {
            Some(pk) => pk,
            None => {
                return Err(
                    SeetleError::OperationError(
                        String::from_str("Public key not found for verification"),
                    ),
                )
            },
        };
        if contains_text(metadata.algorithm.as_str(), "Ecdsa") && contains_text(
            metadata.algorithm.as_str(),
            "P-256",
        ) {
            Ok(p256_verify(pk.as_slice(), data, signature))
        } else {
            Err(SeetleError::NotSupported)
        }
    }

    /// Exports a key's material: a stored key must be extractable and keep
    /// its material in the record; a key given by value must be
    /// extractable, and is then not supported. `record` is the stored
    /// record of an identified key.
    pub fn export_key(&self, key: &KeyOrIdentifier, record: Option<&TpmRecord>) -> (r: Result<
        Vec<u8>,
        SeetleError,
    >)
        ensures
            match key {
                KeyOrIdentifier::Key(k) => if !k.extractable {
                    r matches Err(e) && op_error(e, "Key is not extractable"@)
                } else {
                    r matches Err(SeetleError::NotSupported)
                },
                KeyOrIdentifier::Identifier(_) => match record {
                    None => r matches Err(SeetleError::KeyNotFound),
                    Some(m) => if !m.bindings.extractable {
                        r matches Err(e) && op_error(e, "Key is not extractable"@)
                    } else if m.key_blob@.len() == 0 {
                        r matches Err(e) && op_error(e, "Key material not available for export"@)
                    } else {
                        r matches Ok(v) && v@ == m.key_blob@
                    },
                },
            },
    {
        match key {
            KeyOrIdentifier::Key(k) => {
                if !k.extractable {
                    return Err(SeetleError::OperationError(String::from_str("Key is not extractable")));
                }
                Err(SeetleError::NotSupported)
            },
            KeyOrIdentifier::Identifier(_) => {
                let m = match record {
                    Some(m) => m,
                    None => return Err(SeetleError::KeyNotFound),
                };
                if !m.bindings.extractable {
                    return Err(SeetleError::OperationError(String::from_str("Key is not extractable")));
                }
                if m.key_blob.len() == 0 {
                    return Err(
                        SeetleError::OperationError(
                            String::from_str("Key material not available for export"),
                        ),
                    );
                }
                let v = m.key_blob.clone();
                assert(v@ =~= m.key_blob@);
                Ok(v)
            },
        }
    }

    /// The bits a stored seed gives for a request of `length` bits, in a
    /// TPM-enabled build.
    pub fn seed_to_bits(&self, identifier: &str, material: Vec<u8>, length: u32) -> (r: Result<
        Vec<u8>,
        SeetleError,
    >)
        ensures
            match seed_bits(material@, length) {
                Some(b) => r matches Ok(v) && v@ == b,
                None => r matches Err(e) && op_error(
                    e,
                    wrong_length_message(identifier@, length, material@.len()),
                ),
            },
    {
        let want = (length / 8) as usize;
        if material.len() == want {
            return Ok(material);
        }
        if length == 512 {
            return Ok(sha512_bytes(material.as_slice()));
        }
        let mut msg = joined("Stored seed for ", identifier);
        msg.append(" has wrong length and cannot be derived: expected ");
        msg.append(u32_to_string(length / 8).as_str());
        msg.append(", got ");
        msg.append(usize_to_string(material.len()).as_str());
        proof {
            reveal_strlit("Stored seed for ");
            reveal_strlit(" has wrong length and cannot be derived: expected ");
            reveal_strlit(", got ");
            assert(msg@ =~= wrong_length_message(identifier@, length, material@.len()));
        }
        Err(SeetleError::OperationError(msg))
    }

    /// The uncompressed encoding of a P-256 point: `0x04`, then `x`, then
    /// `y`.
    pub fn uncompressed_point(&self, x: &[u8], y: &[u8]) -> (r: Vec<u8>)
        ensures
            r@ == seq![4u8] + x@ + y@,
    {
        let mut r: Vec<u8> = Vec::new();
        r.push(4u8);
        let mut i: usize = 0;
        while i < x.len()
            invariant
                i <= x@.len(),
                r@ == seq![4u8] + x@.take(i as int),
            decreases x@.len() - i,
        {
            r.push(x[i]);
            i = i + 1;
            assert(r@ =~= seq![4u8] + x@.take(i as int));
        }
        assert(x@.take(i as int) =~= x@);
        let mut j: usize = 0;
        while j < y.len()
            invariant
                j <= y@.len(),
                r@ == seq![4u8] + x@ + y@.take(j as int),
            decreases y@.len() - j,
        {
            r.push(y[j]);
            j = j + 1;
            assert(r@ =~= seq![4u8] + x@ + y@.take(j as int));
        }
        assert(y@.take(j as int) =~= y@);
        r
    }
}

/// A text is found wherever it occurs: whatever comes before and after it.
pub proof fn law_text_found_anywhere(before: Seq<char>, needle: Seq<char>, after: Seq<char>)
    ensures
        has_text(before + needle + after, needle),
{
    let s = before + needle + after;
    let i = before.len() as int;
    assert(s.subrange(i, i + needle.len()) =~= needle);
}

/// A stored seed that already holds as many bytes as the bits asked for
/// (over 8) is given back unchanged, for every length, 512 bits included;
/// a 512-bit request of a seed of another size gives its SHA-512 digest,
/// and any other mismatch is refused.
pub proof fn law_seed_bits_keeps_exact_seed(material: Seq<u8>, length: u32)
    ensures
        material.len() == length / 8 ==> seed_bits(material, length) == Some(material),
        material.len() != length / 8 && length == 512 ==> seed_bits(material, length) == Some(
            sha512(material),
        ),
        material.len() != length / 8 && length != 512 ==> seed_bits(material, length) is None,
{
}

/// A seed generated for an algorithm other than `Raw` has 32 bytes (256
/// bits); a `Raw` one has as many bytes as its length in bits over 8.
pub proof fn law_generic_seed_is_256_bits(a: Algorithm)
    ensures
        !(a is Raw) ==> requested_len_of(a) * 8 == 256,
        a matches Algorithm::Raw { length } ==> requested_len_of(a) == length / 8,
{
}

/// The algorithm text of an ECDSA key on the P-256 curve contains both
/// `Ecdsa` and `P-256`, so verification recognises such a key whatever its
/// name and hash.
pub proof fn law_p256_algorithm_text_recognised(name: String, named_curve: String, hash: Option<String>)
    requires
        named_curve@ == "P-256"@,
    ensures
        has_text(
            algorithm_debug_text(Algorithm::Ecdsa { name, named_curve, hash }),
            "Ecdsa"@,
        ),
        has_text(
            algorithm_debug_text(Algorithm::Ecdsa { name, named_curve, hash }),
            "P-256"@,
        ),
{
    reveal_strlit("P-256");
    reveal_strlit("Ecdsa");
    reveal_strlit("Ecdsa { name: ");
    reveal_strlit(" { name: ");
    let curve = "P-256"@;
    assert forall|i: int| 0 <= i < curve.len() implies plain_char(#[trigger] curve[i]) by {
        assert(curve[i] == 'P' || curve[i] == '-' || curve[i] == '2' || curve[i] == '5' || curve[i]
            == '6');
    }
    lemma_escaped_plain(curve);
    let head = "Ecdsa { name: "@;
    let mid = ", named_curve: "@;
    let tail = ", hash: "@ + opt_text_debug(hash) + " }"@;
    let t = algorithm_debug_text(Algorithm::Ecdsa { name, named_curve, hash });
    assert(t == head + quoted(name@) + mid + quoted(curve) + tail);
    assert(head =~= "Ecdsa"@ + " { name: "@);
    let rest = " { name: "@ + quoted(name@) + mid + quoted(curve) + tail;
    assert(t =~= Seq::<char>::empty() + "Ecdsa"@ + rest);
    law_text_found_anywhere(Seq::<char>::empty(), "Ecdsa"@, rest);
    let before = head + quoted(name@) + mid + seq!['"'];
    let after = seq!['"'] + tail;
    assert(quoted(curve) =~= seq!['"'] + curve + seq!['"']);
    assert(t =~= before + curve + after);
    law_text_found_anywhere(before, curve, after);
}

} // verus!
