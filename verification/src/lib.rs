//! Hardware-backed, WebCrypto-style key management: the data model, the
//! storage layers and the decisions that every backend takes, with their
//! contracts.

pub mod backends;
pub mod config;
pub mod crypto;
pub mod debug;
pub mod file;
pub mod hex;
pub mod init;
pub mod keyring;
pub mod secure_env;
pub mod storage;
pub mod text;
pub mod tpm;
pub mod tui;
pub mod types;

pub use crate::types::{
    Algorithm, Bindings, CryptoKey, HardwareBound, KeyMetadata, KeyOrIdentifier, KeyType,
    KeyUsage, SeetleError,
};
