//! The cryptographic primitives the library takes from `ring`, with what
//! each of them promises.
use hpke::{Deserializable, Serializable};
use ring::rand::SecureRandom;
use ring::signature::KeyPair;
use vstd::prelude::*;


verus! {

/// Length in bytes of an AES-GCM nonce.
pub const NONCE_LEN: usize = 12;

/// Length in bytes of an AES-GCM authentication tag.
pub const TAG_LEN: usize = 16;

/// The largest input `ring` seals under one AES-GCM nonce: its block counter
/// is 32 bits wide, two blocks go to the tag, and a block is 16 bytes.
pub const MAX_SEAL_LEN: u64 = 68719476704;

/// What AES-256-GCM sealing `plaintext` under `key` and `nonce`, with empty
/// associated data, produces: the ciphertext followed by the tag.
pub uninterp spec fn aes256gcm_seal(key: Seq<u8>, nonce: Seq<u8>, plaintext: Seq<u8>) -> Seq<u8>;

/// What AES-256-GCM opening `sealed` under `key` and `nonce`, with empty
/// associated data, gives back: the plaintext, or nothing when the tag does
/// not authenticate.
pub uninterp spec fn aes256gcm_open(key: Seq<u8>, nonce: Seq<u8>, sealed: Seq<u8>) -> Option<Seq<u8>>;

/// The SHA-256 digest of `data`.
pub uninterp spec fn sha256(data: Seq<u8>) -> Seq<u8>;

/// The SHA-512 digest of `data`.
pub uninterp spec fn sha512(data: Seq<u8>) -> Seq<u8>;

/// The uncompressed public key of the P-256 key pair that a PKCS#8 document
/// holds.
pub uninterp spec fn p256_public_key(pkcs8: Seq<u8>) -> Seq<u8>;

/// Whether `ring` reads a PKCS#8 document as a P-256 key pair whose public
/// key matches its private key (`EcdsaKeyPair::from_pkcs8`'s checks of the
/// document itself).
pub uninterp spec fn p256_loads(pkcs8: Seq<u8>) -> bool;

/// Whether `signature` is a valid fixed-length ECDSA P-256 / SHA-256
/// signature of `message` under the uncompressed public key `public_key`.
pub uninterp spec fn p256_verifies(public_key: Seq<u8>, message: Seq<u8>, signature: Seq<u8>) -> bool;

/// Seals `plaintext` with AES-256-GCM (`ring`'s `LessSafeKey::seal_in_place_append_tag`,
/// empty associated data).
///
/// Trusted: `ring` builds the key and the nonce from the bytes given, which
/// have the lengths it asks for, and fails only on inputs longer than
/// `MAX_SEAL_LEN`; the output is the ciphertext followed by the 16-byte tag,
/// and opening it with the same key and nonce gives the plaintext back.
#[verifier::external_body]
pub(crate) fn aes256gcm_seal_bytes(key: &[u8], nonce: &[u8], plaintext: Vec<u8>) -> (r: Option<Vec<u8>>)
    requires
        key@.len() == 32,
        nonce@.len() == NONCE_LEN,
    ensures
        plaintext@.len() <= MAX_SEAL_LEN ==> r is Some,
        r matches Some(sealed) ==> {
            &&& sealed@ == aes256gcm_seal(key@, nonce@, plaintext@)
            &&& sealed@.len() == plaintext@.len() + TAG_LEN
            &&& aes256gcm_open(key@, nonce@, sealed@) == Some(plaintext@)
        },
{
    let unbound = ring::aead::UnboundKey::new(&ring::aead::AES_256_GCM, key).ok()?;
    let sealing = ring::aead::LessSafeKey::new(unbound);
    let nonce = ring::aead::Nonce::try_assume_unique_for_key(nonce).ok()?;
    let mut in_out = plaintext;
    sealing.seal_in_place_append_tag(nonce, ring::aead::Aad::empty(), &mut in_out).ok()?;
    Some(in_out)
}

/// Opens `sealed` (ciphertext and tag) with AES-256-GCM (`ring`'s
/// `LessSafeKey::open_in_place`, empty associated data).
///
/// Trusted: the result is what AES-256-GCM decryption gives for these
/// bytes, and nothing when fewer bytes than a tag are given.
#[verifier::external_body]
pub(crate) fn aes256gcm_open_bytes(key: &[u8], nonce: &[u8], sealed: &[u8]) -> (r: Option<Vec<u8>>)
    requires
        key@.len() == 32,
        nonce@.len() == NONCE_LEN,
    ensures
        match r {
            Some(v) => aes256gcm_open(key@, nonce@, sealed@) == Some(v@),
            None => aes256gcm_open(key@, nonce@, sealed@) is None,
        },
        sealed@.len() < TAG_LEN ==> r is None,
{
    let unbound = ring::aead::UnboundKey::new(&ring::aead::AES_256_GCM, key).ok()?;
    let opening = ring::aead::LessSafeKey::new(unbound);
    let nonce = ring::aead::Nonce::try_assume_unique_for_key(nonce).ok()?;
    let mut in_out = sealed.to_vec();
    let plain = opening.open_in_place(nonce, ring::aead::Aad::empty(), &mut in_out).ok()?;
    Some(plain.to_vec())
}

/// `len` bytes from the operating system's random source (`ring`'s
/// `SystemRandom::fill`).
///
/// Trusted: the bytes, when the source answers, are as many as asked for;
/// which bytes they are is left open.
#[verifier::external_body]
pub(crate) fn random_bytes(len: usize) -> (r: Option<Vec<u8>>)
    ensures
        r matches Some(v) ==> v@.len() == len,
{
    let mut buf = vec![0u8; len];
    ring::rand::SystemRandom::new().fill(&mut buf).ok()?;
    Some(buf)
}

/// The SHA-256 digest of `data` (`ring::digest::digest` with `SHA256`).
#[verifier::external_body]
pub(crate) fn sha256_bytes(data: &[u8]) -> (r: Vec<u8>)
    ensures
        r@ == sha256(data@),
        r@.len() == 32,
{
    ring::digest::digest(&ring::digest::SHA256, data).as_ref().to_vec()
}

/// The SHA-512 digest of `data` (`ring::digest::digest` with `SHA512`).
#[verifier::external_body]
pub(crate) fn sha512_bytes(data: &[u8]) -> (r: Vec<u8>)
    ensures
        r@ == sha512(data@),
        r@.len() == 64,
{
    ring::digest::digest(&ring::digest::SHA512, data).as_ref().to_vec()
}

/// A fresh P-256 key pair as a PKCS#8 document (`ring`'s
/// `EcdsaKeyPair::generate_pkcs8` with `ECDSA_P256_SHA256_FIXED_SIGNING`).
///
/// Trusted: the document is one that `from_pkcs8` reads as a P-256 key pair
/// (ring writes it for that use); which key it holds is random, and the
/// error is `ring`'s text for the failure.
#[verifier::external_body]
pub(crate) fn p256_generate_pkcs8() -> (r: Result<Vec<u8>, String>)
    ensures
        r matches Ok(doc) ==> p256_loads(doc@),
{
    let rng = ring::rand::SystemRandom::new();
    let alg = &ring::signature::ECDSA_P256_SHA256_FIXED_SIGNING;
    match ring::signature::EcdsaKeyPair::generate_pkcs8(alg, &rng) {
        Ok(doc) => Ok(doc.as_ref().to_vec()),
        Err(e) => Err(e.to_string()),
    }
}

/// The public key of the P-256 key pair in a PKCS#8 document (`ring`'s
/// `EcdsaKeyPair::from_pkcs8`, then `public_key`).
///
/// Trusted: when the document is accepted, it is a P-256 key pair document
/// and the key returned is the one it holds; the error is `ring`'s text for
/// the rejection. Acceptance also needs the random source, so success is
/// not promised for every loadable document.
#[verifier::external_body]
pub(crate) fn p256_public_key_of(pkcs8: &[u8]) -> (r: Result<Vec<u8>, String>)
    ensures
        r matches Ok(pk) ==> pk@ == p256_public_key(pkcs8@) && p256_loads(pkcs8@),
{
    let rng = ring::rand::SystemRandom::new();
    let alg = &ring::signature::ECDSA_P256_SHA256_FIXED_SIGNING;
    match ring::signature::EcdsaKeyPair::from_pkcs8(alg, pkcs8, &rng) {
        Ok(pair) => Ok(pair.public_key().as_ref().to_vec()),
        Err(e) => Err(e.to_string()),
    }
}

/// Why a P-256 signature could not be made.
#[derive(Debug, Clone, PartialEq, Eq)]
pub enum SignFailure {
    /// The PKCS#8 document was rejected, with `ring`'s reason.
    KeyRejected(String),
    /// Signing itself failed, with `ring`'s reason.
    Signing(String),
}

/// Signs `message` with the P-256 key pair of a PKCS#8 document (`ring`'s
/// `EcdsaKeyPair::from_pkcs8`, then `sign` with a system random nonce).
///
/// Trusted: signing succeeds only for a P-256 key pair document, and a
/// signature returned is 64 bytes (the fixed `r || s` encoding) and
/// verifies under the document's public key.
#[verifier::external_body]
pub(crate) fn p256_sign(pkcs8: &[u8], message: &[u8]) -> (r: Result<Vec<u8>, SignFailure>)
    ensures
        r matches Ok(sig) ==> p256_verifies(p256_public_key(pkcs8@), message@, sig@)
            && sig@.len() == 64 && p256_loads(pkcs8@),
{
    let rng = ring::rand::SystemRandom::new();
    let alg = &ring::signature::ECDSA_P256_SHA256_FIXED_SIGNING;
    let pair = ring::signature::EcdsaKeyPair::from_pkcs8(alg, pkcs8, &rng)
        .map_err(|e| SignFailure::KeyRejected(e.to_string()))?;
    let sig = pair.sign(&rng, message).map_err(|e| SignFailure::Signing(e.to_string()))?;
    Ok(sig.as_ref().to_vec())
}

/// Whether `signature` verifies for `message` under `public_key` (`ring`'s
/// `UnparsedPublicKey::verify` with `ECDSA_P256_SHA256_FIXED`).
#[verifier::external_body]
pub(crate) fn p256_verify(public_key: &[u8], message: &[u8], signature: &[u8]) -> (r: bool)
    ensures
        r == p256_verifies(public_key@, message@, signature@),
{
    let alg = &ring::signature::ECDSA_P256_SHA256_FIXED;
    ring::signature::UnparsedPublicKey::new(alg, public_key).verify(message, signature).is_ok()
}


/// The X25519 (Montgomery) form of an Ed25519 public key, when the bytes are
/// a valid compressed Edwards point.
pub uninterp spec fn montgomery_of(ed25519_public: Seq<u8>) -> Option<Seq<u8>>;

/// The X25519 shared secret of a secret scalar and a peer's public key.
pub uninterp spec fn x25519(secret: Seq<u8>, peer_public: Seq<u8>) -> Seq<u8>;

/// What HPKE base-mode opening (DHKEM(X25519, HKDF-SHA256), HKDF-SHA256,
/// AES-256-GCM, empty associated data) of `ciphertext` gives for the
/// recipient's secret key, the encapsulated key and `info`.
pub uninterp spec fn hpke_opened(secret: Seq<u8>, encapped: Seq<u8>, info: Seq<u8>, ciphertext: Seq<u8>) -> Option<Seq<u8>>;

/// Converts an Ed25519 public key to its X25519 form
/// (`curve25519_dalek`'s `CompressedEdwardsY::from_slice`, `decompress`,
/// `to_montgomery`).
///
/// Trusted: the result is the Montgomery form, 32 bytes, and nothing for
/// bytes that are not 32 long or not a point.
#[verifier::external_body]
pub(crate) fn ed25519_to_x25519(public_key: &[u8]) -> (r: Option<Vec<u8>>)
    ensures
        crate::hex::bytes_opt(r) == montgomery_of(public_key@),
        public_key@.len() != 32 ==> r is None,
        r matches Some(v) ==> v@.len() == 32,
{
    let compressed = curve25519_dalek::edwards::CompressedEdwardsY::from_slice(public_key).ok()?;
    let point = compressed.decompress()?;
    Some(point.to_montgomery().to_bytes().to_vec())
}

/// The X25519 shared secret (`x25519_dalek`'s `StaticSecret::from`, then
/// `diffie_hellman` with `PublicKey::from`).
#[verifier::external_body]
pub(crate) fn x25519_shared(secret: &[u8], peer_public: &[u8]) -> (r: Vec<u8>)
    requires
        secret@.len() == 32,
        peer_public@.len() == 32,
    ensures
        r@ == x25519(secret@, peer_public@),
        r@.len() == 32,
{
    let s: [u8; 32] = secret.try_into().unwrap();
    let p: [u8; 32] = peer_public.try_into().unwrap();
    let shared = x25519_dalek::StaticSecret::from(s).diffie_hellman(&x25519_dalek::PublicKey::from(p));
    shared.as_bytes().to_vec()
}

/// Why an HPKE operation failed.
#[derive(Debug, Clone, PartialEq, Eq)]
pub enum HpkeFailure {
    /// The public key bytes are not an X25519 key.
    PublicKey,
    /// The secret key bytes are not an X25519 key.
    SecretKey,
    /// The encapsulated key bytes are not valid.
    EncappedKey,
    /// Setting up the context failed, with the HPKE error's debug text.
    Setup(String),
    /// Sealing or opening failed, with the HPKE error's debug text.
    Cipher(String),
}

/// The X25519 public key of a 32-byte secret key: the base point
/// multiplied by the clamped scalar (`x25519_dalek`'s `PublicKey::from` of a
/// `StaticSecret`, as HPKE's `sk_to_pk`).
pub uninterp spec fn x25519_public(secret: Seq<u8>) -> Seq<u8>;

/// The X25519 public key of a 32-byte secret key (`x25519_dalek`'s
/// `PublicKey::from` of the `StaticSecret` made from the bytes).
#[verifier::external_body]
pub(crate) fn x25519_public_key(secret: &[u8]) -> (r: Vec<u8>)
    requires
        secret@.len() == 32,
    ensures
        r@ == x25519_public(secret@),
        r@.len() == 32,
{
    let s: [u8; 32] = secret.try_into().unwrap();
    x25519_dalek::PublicKey::from(&x25519_dalek::StaticSecret::from(s)).as_bytes().to_vec()
}

/// Seals `plaintext` for the holder of `public_key` with HPKE in base mode
/// (`hpke::setup_sender`, then `seal` with empty associated data), using the
/// operating system's random source.
///
/// Trusted: on success, the encapsulated key has 32 bytes, the ciphertext
/// carries a 16-byte tag, and opening the pair with any secret key whose
/// X25519 public key is `public_key`, under the same `info`, gives the
/// plaintext back (HPKE's correctness: both sides reach the same shared
/// secret and key schedule). The bytes themselves are random. A 32-byte
/// public key is always accepted (`from_bytes` checks the length alone).
#[verifier::external_body]
pub(crate) fn hpke_seal(public_key: &[u8], info: &[u8], plaintext: &[u8]) -> (r: Result<(Vec<u8>, Vec<u8>), HpkeFailure>)
    ensures
        r matches Ok((enc, ct)) ==> enc@.len() == 32 && ct@.len() == plaintext@.len() + 16,
        r matches Ok((enc, ct)) ==> forall|sk: Seq<u8>|
            #![trigger hpke_opened(sk, enc@, info@, ct@)]
            #![trigger x25519_public(sk)]
            sk.len() == 32 && x25519_public(sk) == public_key@ ==> hpke_opened(
                sk,
                enc@,
                info@,
                ct@,
            ) == Some(plaintext@),
        r matches Err(f) ==> (f is PublicKey && public_key@.len() != 32) || f is Setup
            || f is Cipher,
{
    let pk = <hpke::kem::X25519HkdfSha256 as hpke::kem::Kem>::PublicKey::from_bytes(public_key).map_err(|_| HpkeFailure::PublicKey)?;
    let mode = hpke::OpModeS::Base;
    let (enc, mut ctx) = hpke::setup_sender::<hpke::aead::AesGcm256, hpke::kdf::HkdfSha256, hpke::kem::X25519HkdfSha256, _>(&mode, &pk, info, &mut rand::rngs::OsRng)
        .map_err(|e| HpkeFailure::Setup(format!("{:?}", e)))?;
    let ct = ctx.seal(plaintext, &[]).map_err(|e| HpkeFailure::Cipher(format!("{:?}", e)))?;
    Ok((enc.to_bytes().to_vec(), ct))
}

/// Opens `ciphertext` with HPKE in base mode (`hpke::setup_receiver`, then
/// `open` with empty associated data).
#[verifier::external_body]
pub(crate) fn hpke_open(secret: &[u8], encapped: &[u8], info: &[u8], ciphertext: &[u8]) -> (r: Result<Vec<u8>, HpkeFailure>)
    ensures
        match r {
            Ok(v) => hpke_opened(secret@, encapped@, info@, ciphertext@) == Some(v@),
            Err(_) => hpke_opened(secret@, encapped@, info@, ciphertext@) is None,
        },
{
    let sk = <hpke::kem::X25519HkdfSha256 as hpke::kem::Kem>::PrivateKey::from_bytes(secret).map_err(|_| HpkeFailure::SecretKey)?;
    let enc = <hpke::kem::X25519HkdfSha256 as hpke::kem::Kem>::EncappedKey::from_bytes(encapped).map_err(|_| HpkeFailure::EncappedKey)?;
    let mode = hpke::OpModeR::Base;
    let mut ctx = hpke::setup_receiver::<hpke::aead::AesGcm256, hpke::kdf::HkdfSha256, hpke::kem::X25519HkdfSha256>(&mode, &sk, &enc, info)
        .map_err(|e| HpkeFailure::Setup(format!("{:?}", e)))?;
    ctx.open(ciphertext, &[]).map_err(|e| HpkeFailure::Cipher(format!("{:?}", e)))
}
} // verus!
