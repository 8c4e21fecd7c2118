//! The command-line tool's settings: where key metadata is stored, how the
//! store is protected and which backend holds the root key.
use vstd::prelude::*;

verus! {

/// The tool's settings.
#[derive(Debug, Clone)]
pub struct SeetleConfig {
    /// The directory key metadata is stored in.
    pub storage_dir: String,
    /// How the store is protected: `keyring`, `tpm` or `none`.
    pub storage_wrapper: String,
    /// The backend holding the xHD root key: `keyring`, `tpm` or `mock`.
    pub root_backend: String,
    /// The TPM device, when one is configured.
    pub tpm_device: Option<String>,
}

impl Default for SeetleConfig {
    fn default() -> (c: Self)
        ensures
            c.storage_dir@ == "seetle-keystore"@,
            c.storage_wrapper@ == "keyring"@,
            c.root_backend@ == "keyring"@,
            c.tpm_device is None,
    {
        SeetleConfig {
            storage_dir: String::from_str("seetle-keystore"),
            storage_wrapper: String::from_str("keyring"),
            root_backend: String::from_str("keyring"),
            tpm_device: None,
        }
    }
}

impl SeetleConfig {
    /// The settings with the command line's choices in place of the loaded
    /// ones, where it makes any.
    pub fn with_overrides(
        self,
        storage_dir: Option<String>,
        storage_wrapper: Option<String>,
        root_backend: Option<String>,
        tpm_device: Option<String>,
    ) -> (c: SeetleConfig)
        ensures
            c.storage_dir == match storage_dir {
                Some(d) => d,
                None => self.storage_dir,
            },
            c.storage_wrapper == match storage_wrapper {
                Some(w) => w,
                None => self.storage_wrapper,
            },
            c.root_backend == match root_backend {
                Some(r) => r,
                None => self.root_backend,
            },
            c.tpm_device == match tpm_device {
                Some(d) => Some(d),
                None => self.tpm_device,
            },
    {
        let mut c = self;
        if let Some(d) = storage_dir {
            c.storage_dir = d;
        }
        if let Some(w) = storage_wrapper {
            c.storage_wrapper = w;
        }
        if let Some(r) = root_backend {
            c.root_backend = r;
        }
        if let Some(d) = tpm_device {
            c.tpm_device = Some(d);
        }
        c
    }
}

} // verus!
