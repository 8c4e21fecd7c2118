//! The decisions that set up a working stack from the settings: the file
//! extension of the store, the layer that protects it, the root backend,
//! and whether the master seed must first be generated.
use vstd::prelude::*;

use crate::backends::xhd::{RootKeySource, XHDBackend};
use crate::debug::error_debug_text;
use crate::text::joined;
use crate::types::{Algorithm, Bindings, HardwareBound, KeyUsage, SeetleError};

verus! {

/// The identifier of the master seed in the root backend.
pub open spec fn master_seed_name() -> Seq<char> {
    "seetle-master-seed"@
}

/// The algorithm of the master seed: a generic key named `MasterSeed`.
pub open spec fn is_master_seed_algorithm(a: Algorithm) -> bool {
    a matches Algorithm::Generic { name } && name@ == "MasterSeed"@
}

/// The number of bits the master seed is read as.
pub const MASTER_SEED_BITS: u32 = 512;

/// The identifier of the master seed in the root backend.
pub fn master_seed_id() -> (s: String)
    ensures
        s@ == master_seed_name(),
{
    String::from_str("seetle-master-seed")
}

/// The algorithm of the master seed: a generic key named `MasterSeed`.
pub fn master_seed_algorithm() -> (a: Algorithm)
    ensures
        is_master_seed_algorithm(a),
{
    Algorithm::Generic { name: String::from_str("MasterSeed") }
}

/// The extension of the store's files for a protection layer.
pub open spec fn extension_for(wrapper: Seq<char>) -> Seq<char> {
    if wrapper == "tpm"@ {
        ".tpm.enc"@
    } else if wrapper == "keyring"@ {
        ".keyring.enc"@
    } else if wrapper == "none"@ {
        ".json"@
    } else {
        ".enc"@
    }
}

/// The extension of the store's files for a protection layer.
pub fn storage_extension(wrapper: &str) -> (e: String)
    ensures
        e@ == extension_for(wrapper@),
{
    let w = String::from_str(wrapper);
    if w == String::from_str("tpm") {
        String::from_str(".tpm.enc")
    } else if w == String::from_str("keyring") {
        String::from_str(".keyring.enc")
    } else if w == String::from_str("none") {
        String::from_str(".json")
    } else {
        String::from_str(".enc")
    }
}

/// The layer that protects the store.
#[derive(Debug, Clone, PartialEq, Eq)]
pub enum StorageLayer {
    /// Values sealed under a master key in the keyring entry
    /// `service`/`identifier`.
    Keyring { service: String, identifier: String },
    /// Values stored as they are.
    Plain,
}

/// The protection layer for the `storage_wrapper` setting; this build has no
/// TPM support.
pub fn storage_layer(wrapper: &str) -> (r: Result<StorageLayer, String>)
    ensures
        wrapper@ == "tpm"@ ==> (r matches Err(m) && m@ == "TPM support not enabled"@),
        wrapper@ == "keyring"@ ==> (r matches Ok(StorageLayer::Keyring { service, identifier })
            && service@ == "seetle"@ && identifier@ == "master-key"@),
        wrapper@ != "tpm"@ && wrapper@ != "keyring"@ ==> r == Ok::<StorageLayer, String>(
            StorageLayer::Plain,
        ),
{
    proof {
        reveal_strlit("tpm");
        reveal_strlit("keyring");
        assert("keyring"@ != "tpm"@) by {
            assert("keyring"@.len() != "tpm"@.len());
        }
    }
    let w = String::from_str(wrapper);
    if w == String::from_str("tpm") {
        Err(String::from_str("TPM support not enabled"))
    } else if w == String::from_str("keyring") {
        Ok(
            StorageLayer::Keyring {
                service: String::from_str("seetle"),
                identifier: String::from_str("master-key"),
            },
        )
    } else {
        Ok(StorageLayer::Plain)
    }
}

/// The backend that holds the root key.
#[derive(Debug, Clone, Copy, PartialEq, Eq, Structural)]
pub enum RootBackendKind {
    Keyring,
    Mock,
}

/// The error text for a root backend this build cannot use.
pub open spec fn root_backend_error(root: Seq<char>) -> Option<Seq<char>> {
    if root == "tpm"@ {
        Some("TPM support not enabled"@)
    } else if root == "nordic"@ {
        Some("Nordic support not enabled"@)
    } else if root == "tropic"@ {
        Some("Tropic support not enabled"@)
    } else if root == "secure-env"@ {
        Some("SecureEnv support only available on Android or iOS"@)
    } else {
        None
    }
}

/// The root backend for the `root_backend` setting: the keyring, or the
/// mock backend for `hpke` and unknown names; hardware this build does not
/// carry is an error.
pub fn root_backend_kind(root: &str) -> (r: Result<RootBackendKind, String>)
    ensures
        match root_backend_error(root@) {
            Some(m) => r matches Err(e) && e@ == m,
            None => if root@ == "keyring"@ {
                r == Ok::<RootBackendKind, String>(RootBackendKind::Keyring)
            } else {
                r == Ok::<RootBackendKind, String>(RootBackendKind::Mock)
            },
        },
{
    proof {
        reveal_strlit("tpm");
        reveal_strlit("keyring");
        reveal_strlit("nordic");
        reveal_strlit("tropic");
        reveal_strlit("secure-env");
        assert("keyring"@.len() != "tpm"@.len());
        assert("nordic"@.len() != "tpm"@.len() && "nordic"@.len() != "keyring"@.len());
        assert("tropic"@.len() != "tpm"@.len() && "tropic"@.len() != "keyring"@.len());
        assert("nordic"@[0] != "tropic"@[0]);
        assert("secure-env"@.len() != "tpm"@.len() && "secure-env"@.len() != "keyring"@.len());
        assert("secure-env"@.len() != "nordic"@.len() && "secure-env"@.len() != "tropic"@.len());
    }
    let w = String::from_str(root);
    if w == String::from_str("tpm") {
        Err(String::from_str("TPM support not enabled"))
    } else if w == String::from_str("keyring") {
        Ok(RootBackendKind::Keyring)
    } else if w == String::from_str("nordic") {
        Err(String::from_str("Nordic support not enabled"))
    } else if w == String::from_str("tropic") {
        Err(String::from_str("Tropic support not enabled"))
    } else if w == String::from_str("secure-env") {
        Err(String::from_str("SecureEnv support only available on Android or iOS"))
    } else {
        Ok(RootBackendKind::Mock)
    }
}

/// What to do about the master seed once the root backend has been asked
/// for its bits.
#[derive(Debug, Clone)]
pub enum MasterSeedStep {
    /// The seed is there.
    Present,
    /// Generate it: extractable, hardware bound, for bit derivation.
    Generate { algorithm: Algorithm, extractable: bool, bindings: Bindings, usages: Vec<KeyUsage> },
}

/// Decides about the master seed from the outcome of deriving its bits: a
/// missing seed is generated, any other failure stops the setup.
pub fn master_seed_step(probe: Result<Vec<u8>, SeetleError>) -> (r: Result<MasterSeedStep, String>)
    ensures
        match probe {
            Ok(_) => r matches Ok(MasterSeedStep::Present),
            Err(SeetleError::KeyNotFound) => r matches Ok(
                MasterSeedStep::Generate { algorithm, extractable, bindings, usages },
            ) && is_master_seed_algorithm(algorithm) && extractable && bindings.identifier@ == master_seed_name()
                && bindings.hardware_bound == HardwareBound::Yes && !bindings.extractable
                && bindings.origin_bindings@.len() == 0 && !bindings.updatable && usages@ == seq![
                KeyUsage::DeriveBits,
            ],
            Err(e) => r matches Err(m) && m@ == "Error while checking/generating master seed: "@
                + error_debug_text(e),
        },
{
    match probe {
        Ok(_) => Ok(MasterSeedStep::Present),
        Err(SeetleError::KeyNotFound) => {
            let mut usages: Vec<KeyUsage> = Vec::new();
            usages.push(KeyUsage::DeriveBits);
            assert(usages@ =~= seq![KeyUsage::DeriveBits]);
            Ok(
                MasterSeedStep::Generate {
                    algorithm: master_seed_algorithm(),
                    extractable: true,
                    bindings: Bindings {
                        hardware_bound: HardwareBound::Yes,
                        extractable: false,
                        origin_bindings: Vec::new(),
                        identifier: master_seed_id(),
                        updatable: false,
                    },
                    usages,
                },
            )
        },
        Err(e) => {
            let text = e.debug_text();
            Err(joined("Error while checking/generating master seed: ", text.as_str()))
        },
    }
}

/// The xHD backend the setup ends with: its root is the master seed of the
/// root backend.
pub fn xhd_over_root() -> (b: XHDBackend)
    ensures
        b.root() matches RootKeySource::Backend { identifier, algorithm } && identifier@
            == master_seed_name() && is_master_seed_algorithm(algorithm),
{
    XHDBackend::new_with_backend(master_seed_id(), master_seed_algorithm())
}

/// The algorithm the key generation command asks for: the given xHD
/// parameters as the name of an Ed25519 key, the default xHD path for plain
/// `Ed25519`, and an error for any other algorithm without parameters.
pub fn cli_generate_algorithm(xhd_params: Option<String>, algorithm: &str) -> (r: Result<
    Algorithm,
    String,
>)
    ensures
        match xhd_params {
            Some(p) => r matches Ok(Algorithm::Ed25519 { name }) && name == p,
            None => if algorithm@ == "Ed25519"@ {
                r matches Ok(Algorithm::Ed25519 { name }) && name@ == "XHD:Address:0:0:Peikert"@
            } else {
                r matches Err(m) && m@ == "Algorithm "@ + algorithm@
                    + " not yet supported for direct XHD generation via this CLI without xhd-params"@
            },
        },
{
    match xhd_params {
        Some(p) => Ok(Algorithm::Ed25519 { name: p }),
        None => {
            if String::from_str(algorithm) == String::from_str("Ed25519") {
                Ok(Algorithm::Ed25519 { name: String::from_str("XHD:Address:0:0:Peikert") })
            } else {
                let head = joined("Algorithm ", algorithm);
                Err(
                    joined(
                        head.as_str(),
                        " not yet supported for direct XHD generation via this CLI without xhd-params",
                    ),
                )
            }
        },
    }
}

/// The algorithm the signing and verification commands use: only `Ed25519`
/// is offered; any other name is refused as not supported for `purpose`.
pub fn cli_operation_algorithm(algorithm: &str, purpose: &str) -> (r: Result<Algorithm, String>)
    ensures
        algorithm@ == "Ed25519"@ ==> (r matches Ok(Algorithm::Ed25519 { name }) && name@
            == "Ed25519"@),
        algorithm@ != "Ed25519"@ ==> (r matches Err(m) && m@ == "Algorithm "@ + algorithm@
            + " not supported for "@ + purpose@),
{
    if String::from_str(algorithm) == String::from_str("Ed25519") {
        Ok(Algorithm::Ed25519 { name: String::from_str("Ed25519") })
    } else {
        let head = joined("Algorithm ", algorithm);
        let mid = joined(head.as_str(), " not supported for ");
        Err(joined(mid.as_str(), purpose))
    }
}

} // verus!
