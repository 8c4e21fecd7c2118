use seetle::config::SeetleConfig;
use seetle::init::{cli_generate_algorithm, cli_operation_algorithm};
use seetle::Algorithm;

#[test]
fn generate_algorithm_takes_xhd_params_as_name() {
    let a = cli_generate_algorithm(Some("XHD:Identity:2:5:V2".to_string()), "ECDSA").unwrap();
    assert_eq!(a, Algorithm::Ed25519 { name: "XHD:Identity:2:5:V2".to_string() });
}

#[test]
fn generate_algorithm_defaults_to_first_address() {
    let a = cli_generate_algorithm(None, "Ed25519").unwrap();
    assert_eq!(a, Algorithm::Ed25519 { name: "XHD:Address:0:0:Peikert".to_string() });
}

#[test]
fn generate_algorithm_refuses_others_without_params() {
    let e = cli_generate_algorithm(None, "ECDSA").unwrap_err();
    assert_eq!(
        e,
        "Algorithm ECDSA not yet supported for direct XHD generation via this CLI without xhd-params"
    );
}

#[test]
fn operation_algorithm_is_ed25519_only() {
    assert_eq!(
        cli_operation_algorithm("Ed25519", "signing").unwrap(),
        Algorithm::Ed25519 { name: "Ed25519".to_string() }
    );
    assert_eq!(
        cli_operation_algorithm("RSA", "verification").unwrap_err(),
        "Algorithm RSA not supported for verification"
    );
}

#[test]
fn overrides_replace_only_what_is_given() {
    let c = SeetleConfig::default().with_overrides(
        Some("/tmp/keys".to_string()),
        None,
        Some("mock".to_string()),
        Some("device:/dev/tpmrm0".to_string()),
    );
    assert_eq!(c.storage_dir, "/tmp/keys");
    assert_eq!(c.storage_wrapper, "keyring");
    assert_eq!(c.root_backend, "mock");
    assert_eq!(c.tpm_device.as_deref(), Some("device:/dev/tpmrm0"));
    let d = SeetleConfig::default().with_overrides(None, Some("none".to_string()), None, None);
    assert_eq!(d.storage_dir, "seetle-keystore");
    assert_eq!(d.storage_wrapper, "none");
    assert_eq!(d.root_backend, "keyring");
    assert!(d.tpm_device.is_none());
}
