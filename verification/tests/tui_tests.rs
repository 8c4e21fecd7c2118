use seetle::config::SeetleConfig;
use seetle::hex::{decode, encode};
use seetle::init::{
    master_seed_step, root_backend_kind, storage_extension, storage_layer, xhd_over_root, MasterSeedStep,
    RootBackendKind, StorageLayer,
};
use seetle::tui::{fallback_metadata, keys_to_describe, Action, App, KeyCode, KeyInput, Modal};
use seetle::{Algorithm, HardwareBound, KeyMetadata, KeyUsage, SeetleError};

fn key(code: KeyCode) -> KeyInput {
    KeyInput { code, control: false }
}

fn ctrl(c: char) -> KeyInput {
    KeyInput { code: KeyCode::Char(c), control: true }
}

fn typed(app: &mut App, text: &str) {
    for c in text.chars() {
        app.handle_key(key(KeyCode::Char(c)));
    }
}

fn meta(id: &str, context: Option<&str>, account: Option<u32>, index: Option<u32>) -> KeyMetadata {
    KeyMetadata {
        identifier: id.to_string(),
        context: context.map(|c| c.to_string()),
        account,
        index,
        public_key: Some(vec![0xab, 0xcd]),
        extractable: id == "exportable",
        ..Default::default()
    }
}

fn app_with_keys() -> App {
    let mut app = App::new(SeetleConfig::default(), true);
    app.setup_done();
    app.set_keys(vec![
        meta("a", Some("Address"), Some(0), Some(0)),
        meta("b", Some("Address"), Some(0), Some(3)),
        meta("c", Some("Identity"), Some(2), Some(9)),
        meta("exportable", None, None, None),
    ]);
    app
}

#[test]
fn test_config_defaults() {
    let c = SeetleConfig::default();
    assert_eq!(c.storage_dir, "seetle-keystore");
    assert_eq!(c.storage_wrapper, "keyring");
    assert_eq!(c.root_backend, "keyring");
    assert!(c.tpm_device.is_none());
}

#[test]
fn test_setup_decisions() {
    assert_eq!(storage_extension("tpm"), ".tpm.enc");
    assert_eq!(storage_extension("keyring"), ".keyring.enc");
    assert_eq!(storage_extension("none"), ".json");
    assert_eq!(storage_extension("other"), ".enc");
    assert_eq!(storage_layer("tpm").unwrap_err(), "TPM support not enabled");
    assert_eq!(
        storage_layer("keyring").unwrap(),
        StorageLayer::Keyring { service: "seetle".into(), identifier: "master-key".into() }
    );
    assert_eq!(storage_layer("none").unwrap(), StorageLayer::Plain);
    assert_eq!(root_backend_kind("keyring").unwrap(), RootBackendKind::Keyring);
    assert_eq!(root_backend_kind("mock").unwrap(), RootBackendKind::Mock);
    assert_eq!(root_backend_kind("hpke").unwrap(), RootBackendKind::Mock);
    assert_eq!(root_backend_kind("nordic").unwrap_err(), "Nordic support not enabled");
    assert_eq!(root_backend_kind("secure-env").unwrap_err(), "SecureEnv support only available on Android or iOS");
    assert!(matches!(master_seed_step(Ok(vec![1])).unwrap(), MasterSeedStep::Present));
    match master_seed_step(Err(SeetleError::KeyNotFound)).unwrap() {
        MasterSeedStep::Generate { algorithm, extractable, bindings, usages } => {
            assert_eq!(algorithm, Algorithm::Generic { name: "MasterSeed".into() });
            assert!(extractable);
            assert_eq!(bindings.identifier, "seetle-master-seed");
            assert_eq!(bindings.hardware_bound, HardwareBound::Yes);
            assert_eq!(usages, vec![KeyUsage::DeriveBits]);
        }
        _ => panic!("expected generation"),
    }
    let e = master_seed_step(Err(SeetleError::OperationError("boom".into()))).unwrap_err();
    assert_eq!(e, "Error while checking/generating master seed: OperationError(\"boom\")");
    assert!(xhd_over_root().get_root_backend_if_matches("seetle-master-seed"));
}

#[test]
fn test_hex_roundtrip() {
    assert_eq!(encode(&[0x00, 0xab, 0xff]), "00abff");
    assert_eq!(decode("00ABff").unwrap(), vec![0x00, 0xab, 0xff]);
    assert!(decode("abc").is_none());
    assert!(decode("zz").is_none());
    assert_eq!(decode(&encode(b"hello")).unwrap(), b"hello".to_vec());
}

#[test]
fn test_app_starts_in_settings_without_config() {
    let mut app = App::new(SeetleConfig::default(), false);
    assert_eq!(app.modal, Modal::Config);
    assert_eq!(app.wrapper_selected, Some(0));
    app.handle_key(key(KeyCode::Down));
    app.handle_key(key(KeyCode::Tab));
    app.handle_key(key(KeyCode::Up));
    assert_eq!(app.wrapper_selected, Some(1));
    assert_eq!(app.backend_selected, Some(2));
    assert!(matches!(app.handle_key(key(KeyCode::Enter)), Action::SaveConfig));
    assert_eq!(app.config.storage_wrapper, "tpm");
    assert_eq!(app.config.root_backend, "mock");
    app.config_saved(true);
    assert_eq!(app.modal, Modal::Closed);
    assert!(app.needs_setup());
    assert!(matches!(App::new(SeetleConfig::default(), false).handle_key(key(KeyCode::Char('q'))), Action::Quit));
}

#[test]
fn test_app_key_list_navigation() {
    let mut app = app_with_keys();
    assert_eq!(app.selected_key, Some(0));
    assert!(!app.needs_setup());
    app.handle_key(key(KeyCode::Up));
    assert_eq!(app.selected_key, Some(3));
    app.handle_key(key(KeyCode::Down));
    assert_eq!(app.selected_key, Some(0));
    app.handle_key(key(KeyCode::Down));
    assert_eq!(app.selected_key, Some(1));
    assert_eq!(app.gen_account_options, vec![0, 2]);
    assert!(matches!(app.handle_key(key(KeyCode::Char('r'))), Action::Refresh));
    assert!(matches!(app.handle_key(key(KeyCode::Char('q'))), Action::Quit));
}

#[test]
fn test_app_generate_dialog() {
    let mut app = app_with_keys();
    app.handle_key(key(KeyCode::Char('g')));
    assert_eq!(app.modal, Modal::GenerateKey);
    assert_eq!(app.gen_index, "4");
    typed(&mut app, "new");
    app.handle_key(key(KeyCode::Tab));
    app.handle_key(key(KeyCode::Tab));
    app.handle_key(key(KeyCode::Down));
    assert_eq!(app.gen_context_selected, Some(1));
    assert_eq!(app.gen_index, "0");
    app.handle_key(key(KeyCode::Tab));
    app.handle_key(key(KeyCode::Down));
    assert_eq!(app.gen_account, "2");
    assert_eq!(app.gen_index, "10");
    typed(&mut app, "x");
    assert_eq!(app.gen_account, "2");
    app.handle_key(key(KeyCode::Backspace));
    assert_eq!(app.gen_account, "");
    assert_eq!(app.gen_index, "0");
    typed(&mut app, "2");
    match app.handle_key(key(KeyCode::Enter)) {
        Action::Generate { algorithm, bindings, usages } => {
            assert_eq!(algorithm, Algorithm::Ed25519 { name: "XHD:Identity:2:10:Peikert".into() });
            assert_eq!(bindings.identifier, "new");
            assert_eq!(bindings.hardware_bound, HardwareBound::Yes);
            assert_eq!(usages, vec![KeyUsage::Sign, KeyUsage::Verify]);
        }
        _ => panic!("expected a generation"),
    }
    assert_eq!(app.modal, Modal::Closed);
}

#[test]
fn test_app_sign_and_verify_dialogs() {
    let mut app = app_with_keys();
    app.handle_key(key(KeyCode::Char('s')));
    assert_eq!(app.modal, Modal::SignData);
    assert!(matches!(app.handle_key(ctrl('c')), Action::Nothing));
    typed(&mut app, "hi");
    match app.handle_key(key(KeyCode::Enter)) {
        Action::Sign { identifier, data, .. } => {
            assert_eq!(identifier, "a");
            assert_eq!(data, b"hi".to_vec());
        }
        _ => panic!("expected signing"),
    }
    app.sign_done(Ok(vec![1, 2]));
    assert_eq!(app.sign_result, "0102");
    match app.handle_key(ctrl('c')) {
        Action::Copy(t) => assert_eq!(t, "0102"),
        _ => panic!("expected a copy"),
    }
    app.sign_done(Err(SeetleError::KeyNotFound));
    assert_eq!(app.sign_result, "Error: Key not found");
    app.handle_key(key(KeyCode::Esc));
    app.handle_key(key(KeyCode::Char('v')));
    typed(&mut app, "hi");
    app.handle_key(key(KeyCode::Tab));
    typed(&mut app, "zz");
    assert!(matches!(app.handle_key(key(KeyCode::Enter)), Action::Nothing));
    app.handle_key(key(KeyCode::Backspace));
    app.handle_key(key(KeyCode::Backspace));
    typed(&mut app, "0a0b");
    match app.handle_key(key(KeyCode::Enter)) {
        Action::Verify { signature, data, .. } => {
            assert_eq!(signature, vec![10, 11]);
            assert_eq!(data, b"hi".to_vec());
        }
        _ => panic!("expected verification"),
    }
    app.verify_done(Ok(true));
    assert_eq!(app.verify_result, Some(true));
    app.handle_key(key(KeyCode::Enter));
    assert_eq!(app.modal, Modal::Closed);
    assert_eq!(app.verify_result, None);
}

#[test]
fn test_app_ecdh_and_hpke_dialogs() {
    let mut app = app_with_keys();
    app.handle_key(key(KeyCode::Char('a')));
    assert_eq!(app.modal, Modal::Ecdh);
    app.handle_key(key(KeyCode::Tab));
    typed(&mut app, "saved");
    app.handle_key(key(KeyCode::Tab));
    app.handle_key(key(KeyCode::Enter));
    assert_eq!(app.ecdh_peer_pub, "abcd");
    assert_eq!(app.active_field, 0);
    match app.handle_key(key(KeyCode::Enter)) {
        Action::DeriveBits { identifier, algorithm, length, refresh } => {
            assert_eq!(identifier, "a");
            assert_eq!(length, 256);
            assert!(refresh);
            assert_eq!(algorithm, Algorithm::Ecdh { name: "SAVE_KEY:saved".into(), public_key: vec![0xab, 0xcd] });
        }
        _ => panic!("expected a derivation"),
    }
    app.ecdh_done(Err(SeetleError::DataError));
    assert_eq!(app.ecdh_result, "Error: Data error");
    app.handle_key(key(KeyCode::Esc));
    app.handle_key(key(KeyCode::Char('h')));
    typed(&mut app, "abcd");
    app.handle_key(key(KeyCode::Tab));
    typed(&mut app, "ctx");
    app.handle_key(key(KeyCode::Tab));
    typed(&mut app, "msg");
    match app.handle_key(key(KeyCode::Enter)) {
        Action::HpkeSeal { algorithm, data, .. } => {
            assert_eq!(data, b"msg".to_vec());
            assert_eq!(
                algorithm,
                Algorithm::Hpke {
                    name: "DHKEM_X25519_HKDF_SHA256".into(),
                    public_key: Some(vec![0xab, 0xcd]),
                    info: Some(b"ctx".to_vec()),
                }
            );
        }
        _ => panic!("expected sealing"),
    }
    app.hpke_open_done(Ok(b"plain".to_vec()));
    assert_eq!(app.hpke_result, "plain");
}

#[test]
fn test_app_export_and_delete() {
    let mut app = app_with_keys();
    assert!(matches!(app.handle_key(key(KeyCode::Char('X'))), Action::Nothing));
    assert_eq!(app.modal, Modal::Closed);
    app.handle_key(key(KeyCode::Up));
    match app.handle_key(key(KeyCode::Char('X'))) {
        Action::Export { identifier } => assert_eq!(identifier, "exportable"),
        _ => panic!("expected an export"),
    }
    app.export_done(Ok(vec![0xff]));
    assert_eq!(app.export_result, "ff");
    app.handle_key(key(KeyCode::Enter));
    app.handle_key(key(KeyCode::Char('d')));
    assert_eq!(app.modal, Modal::DeleteConfirmation("exportable".into()));
    match app.handle_key(key(KeyCode::Enter)) {
        Action::Delete { identifier } => assert_eq!(identifier, "exportable"),
        _ => panic!("expected a deletion"),
    }
    assert!(matches!(app.delete_done("exportable", true), Action::Refresh));
    assert!(matches!(app.delete_done("seetle-master-seed", true), Action::Reconnect));
    assert!(matches!(app.delete_done("x", false), Action::Nothing));
    app.setup_failed("broken".into());
    assert_eq!(app.modal, Modal::Error("broken".into()));
    app.handle_key(key(KeyCode::Esc));
    assert_eq!(app.modal, Modal::Closed);
}

#[test]
fn test_keys_to_describe_sorts_and_adds_master() {
    let ids = keys_to_describe(vec!["zeta".into(), "alpha".into(), "Beta".into()]);
    assert_eq!(ids, vec!["Beta", "alpha", "seetle-master-seed", "zeta"]);
    let ids = keys_to_describe(vec!["seetle-master-seed".into(), "a".into()]);
    assert_eq!(ids, vec!["a", "seetle-master-seed"]);
    let m = fallback_metadata("seetle-master-seed".into());
    assert_eq!(m.algorithm, "MasterSeed (Hardware-backed)");
    assert_eq!(m.hardware_bound, HardwareBound::Yes);
    assert!(m.extractable);
    let m = fallback_metadata("other".into());
    assert_eq!(m.algorithm, "");
    assert!(!m.extractable);
}

#[test]
fn sign_dialog_sends_the_text_as_utf8() {
    let mut app = app_with_keys();
    app.handle_key(key(KeyCode::Char('s')));
    typed(&mut app, "héllo €𝄞");
    match app.handle_key(key(KeyCode::Enter)) {
        Action::Sign { data, .. } => assert_eq!(data, "héllo €𝄞".as_bytes().to_vec()),
        _ => panic!("expected a signing action"),
    }
}
