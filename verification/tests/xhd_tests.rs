use seetle::backends::xhd::{
    DecryptStep, DeriveStep, EncryptStep, RootSeedStep, format_xhd_params, parse_xhd_params, RootKeySource, StandaloneRecord, XHDBackend, XhdContext,
    XhdKeyRecord, XhdScheme, XhdStorageItem,
};
use seetle::{Algorithm, Bindings, HardwareBound, KeyUsage, SeetleError};

fn op_msg(e: SeetleError) -> String {
    match e {
        SeetleError::OperationError(m) => m,
        other => panic!("expected an operation error, got {:?}", other),
    }
}

fn record(name: &str) -> XhdKeyRecord {
    XHDBackend::new()
        .generate_key(
            Algorithm::Ed25519 { name: name.into() },
            false,
            Some(Bindings { identifier: "test-xhd-key".into(), ..Default::default() }),
            vec![KeyUsage::Sign, KeyUsage::Verify],
        )
        .unwrap()
}

fn ed25519_public(secret: &[u8; 32]) -> Vec<u8> {
    curve25519_dalek::EdwardsPoint::mul_base_clamped(*secret).compress().to_bytes().to_vec()
}

#[test]
fn test_xhd_params_parse_and_format() {
    assert_eq!(parse_xhd_params("XHD:Address:0:0:Peikert"), Some((XhdContext::Address, 0, 0, XhdScheme::Peikert)));
    assert_eq!(parse_xhd_params("XHD:Identity:1:5:V2"), Some((XhdContext::Identity, 1, 5, XhdScheme::V2)));
    assert_eq!(parse_xhd_params("XHD:Identity:+7:05:V2"), Some((XhdContext::Identity, 7, 5, XhdScheme::V2)));
    assert_eq!(parse_xhd_params("XHD:Address:0:0"), None);
    assert_eq!(parse_xhd_params("XHD:Other:0:0:V2"), None);
    assert_eq!(parse_xhd_params("XHD:Address:-1:0:V2"), None);
    assert_eq!(parse_xhd_params("XHD:Address:4294967296:0:V2"), None);
    assert_eq!(parse_xhd_params("Ed25519"), None);
    assert_eq!(format_xhd_params(XhdContext::Identity, 1, 5, XhdScheme::V2), "XHD:Identity:1:5:V2");
    let s = format_xhd_params(XhdContext::Address, 4294967295, 12, XhdScheme::Peikert);
    assert_eq!(parse_xhd_params(&s), Some((XhdContext::Address, 4294967295, 12, XhdScheme::Peikert)));
}

#[test]
fn xhd_test_xhd_backend_derivation_and_sign() {
    let r = record("XHD:Address:0:0:Peikert");
    assert_eq!(r.bindings.identifier, "test-xhd-key");
    assert_eq!(r.context, "Address");
    assert_eq!(r.scheme, "Peikert");
    let backend = XHDBackend::new();
    assert_eq!(backend.key_params(&r).unwrap(), (XhdContext::Address, 0, 0, XhdScheme::Peikert));
}

#[test]
fn xhd_test_xhd_backend_v2_scheme() {
    let r = record("XHD:Identity:1:5:V2");
    assert_eq!((r.account, r.key_index), (1, 5));
    assert_eq!(XHDBackend::new().key_params(&r).unwrap(), (XhdContext::Identity, 1, 5, XhdScheme::V2));
}

#[test]
fn test_xhd_generation_refusals() {
    let backend = XHDBackend::new();
    let b = Bindings { identifier: "k".into(), ..Default::default() };
    assert!(matches!(
        backend.generate_key(Algorithm::Ed25519 { name: "Ed25519".into() }, false, Some(b.clone()), vec![]),
        Err(SeetleError::NotSupported)
    ));
    let e = backend.generate_key(Algorithm::Generic { name: "XHD:Address:0:0:V2".into() }, true, None, vec![]).unwrap_err();
    assert_eq!(op_msg(e), "Bindings required for XHDBackend");
    let r = backend.generate_key(Algorithm::Generic { name: "XHD:Address:0:0:V2".into() }, true, Some(b), vec![]).unwrap();
    assert!(r.bindings.extractable);
    let mut bad = r.clone();
    bad.scheme = "V3".into();
    assert!(matches!(backend.key_params(&bad), Err(SeetleError::DataError)));
}

#[test]
fn test_xhd_update_and_export() {
    let backend = XHDBackend::new();
    let r = record("XHD:Address:0:0:Peikert");
    let e = backend.update_key(XhdStorageItem::Key(r.clone()), Bindings::default()).unwrap_err();
    assert_eq!(op_msg(e), "Key is not updatable");
    let mut u = r.clone();
    u.bindings.updatable = true;
    let nb = Bindings { identifier: "renamed".into(), ..Default::default() };
    match backend.update_key(XhdStorageItem::Key(u), nb).unwrap() {
        XhdStorageItem::Key(k) => assert_eq!(k.bindings.identifier, "renamed"),
        _ => panic!("expected a key"),
    }
    let standalone = StandaloneRecord {
        bindings: Bindings { identifier: "s".into(), extractable: true, ..Default::default() },
        algorithm: Algorithm::Ed25519 { name: "Ed25519".into() },
        usages: vec![],
        seed: vec![3; 64],
        source_key_identifier: None,
        context: None,
    };
    let e = backend.update_key(XhdStorageItem::Standalone(standalone.clone()), Bindings::default()).unwrap_err();
    assert_eq!(op_msg(e), "Only keys can be updated");
    assert_eq!(backend.export_standalone(standalone.clone()).unwrap(), vec![3; 64]);
    assert_eq!(op_msg(backend.exportable_params(&r).unwrap_err()), "Key is not extractable");
    let meta = backend.standalone_metadata("s".into(), standalone, Some(vec![1; 32]), HardwareBound::No);
    assert_eq!(meta.context.as_deref(), Some("Standalone"));
    assert_eq!(meta.public_key, Some(vec![1; 32]));
    assert_eq!(meta.algorithm, "Ed25519 { name: \"Ed25519\" }");
}

#[test]
fn test_xhd_encrypt_decrypt() {
    let backend = XHDBackend::new();
    let secret = backend.secret_scalar(&[9u8; 64]);
    assert_eq!(secret, vec![9u8; 32]);
    let data = b"secret message".to_vec();
    let ct = backend.encrypt_symmetric(&secret, data.clone()).unwrap();
    assert_eq!(ct.len(), data.len() + 28);
    assert!(backend.check_sealed_len(&ct).is_ok());
    assert_eq!(backend.decrypt_symmetric(&secret, &ct).unwrap(), data);
    assert!(matches!(backend.decrypt_symmetric(&secret, &ct[..20]), Err(SeetleError::DataError)));
    let mut bad = ct.clone();
    bad[15] ^= 1;
    assert_eq!(op_msg(backend.decrypt_symmetric(&secret, &bad).unwrap_err()), "Decryption failed");
    assert_eq!(op_msg(backend.encrypt_symmetric(&[1, 2], vec![]).unwrap_err()), "Failed to create ring key");
}

#[test]
fn test_xhd_ecdh() {
    let backend = XHDBackend::new();
    let a = [11u8; 32];
    let b = [22u8; 32];
    let shared_ab = backend.ecdh_shared(&ed25519_public(&b), &a).unwrap();
    let shared_ba = backend.ecdh_shared(&ed25519_public(&a), &b).unwrap();
    assert_eq!(shared_ab.len(), 32);
    assert_eq!(shared_ab, shared_ba);
    assert!(matches!(backend.ecdh_shared(&[1, 2, 3], &a), Err(SeetleError::DataError)));
    assert_eq!(backend.ecdh_bits(&shared_ab, 256).unwrap(), shared_ab);
    assert_eq!(backend.ecdh_bits(&shared_ab, 128).unwrap(), shared_ab[..16].to_vec());
    assert_eq!(op_msg(backend.ecdh_bits(&shared_ab, 264).unwrap_err()), "Requested length too long");
}

#[test]
fn test_xhd_key_from_shared_secret() {
    let backend = XHDBackend::new();
    let shared = vec![5u8; 32];
    assert!(backend.ecdh_saved_key("base", "X25519", &shared).is_none());
    let (id, rec) = backend.ecdh_saved_key("base", "SAVE_KEY:new-key", &shared).unwrap();
    assert_eq!(id, "new-key");
    assert_eq!(rec.bindings.identifier, "new-key");
    assert!(rec.bindings.extractable);
    assert_eq!(rec.seed.len(), 64);
    assert_eq!(&rec.seed[..32], &shared[..]);
    assert_eq!(rec.source_key_identifier.as_deref(), Some("base"));
    assert_eq!(rec.context.as_deref(), Some("ECDH"));
    assert_eq!(rec.usages, vec![KeyUsage::Sign, KeyUsage::Verify, KeyUsage::Encrypt, KeyUsage::Decrypt]);
    let meta = backend.standalone_metadata(id, rec, Some(vec![9; 32]), HardwareBound::No);
    assert_eq!(meta.public_key, Some(vec![9; 32]));
    assert_eq!(meta.source_key_identifier.as_deref(), Some("base"));
    assert_eq!(meta.context.as_deref(), Some("ECDH"));
    assert_eq!(meta.algorithm, "Ed25519 { name: \"Ed25519\" }");
}

#[test]
fn test_xhd_hpke() {
    let backend = XHDBackend::new();
    let recipient = [33u8; 32];
    let public = ed25519_public(&recipient);
    let info = b"some context".to_vec();
    assert!(backend.hpke_key_matches(&public, &recipient));
    assert!(!backend.hpke_key_matches(&public, &[34u8; 32]));
    assert!(!backend.hpke_key_matches(&[0u8; 5], &recipient));
    let sealed = backend.encrypt_hpke(&public, &info, b"HPKE is cool").unwrap();
    assert_eq!(sealed.len(), 32 + 12 + 16);
    let (enc, ct) = backend.split_hpke(&sealed).unwrap();
    assert_eq!(enc.len(), 32);
    let opened = backend.decrypt_hpke(&recipient, &enc, &info, &ct).unwrap();
    assert_eq!(opened, b"HPKE is cool".to_vec());
    let e = backend.decrypt_hpke(&recipient, &enc, b"other info", &ct).unwrap_err();
    assert!(op_msg(e).starts_with("HPKE open error: "));
    assert!(matches!(backend.split_hpke(&[0u8; 31]), Err(SeetleError::DataError)));
    assert!(matches!(backend.encrypt_hpke(&[0u8; 5], &info, b"x"), Err(SeetleError::DataError)));
}

#[test]
fn test_xhd_metadata_master_seed() {
    let backend = XHDBackend::new_with_backend("master-seed-id".into(), Algorithm::Generic { name: "seed".into() });
    assert!(backend.get_root_backend_if_matches("master-seed-id"));
    assert!(!backend.get_root_backend_if_matches("other"));
    let keys = backend.list_keys(vec!["a".into(), ".internal".into()]);
    assert_eq!(keys, vec!["a".to_string(), "master-seed-id".to_string()]);
    let keys = backend.list_keys(vec!["master-seed-id".into(), "b".into()]);
    assert_eq!(keys, vec!["master-seed-id".to_string(), "b".to_string()]);
    let export = backend.root_export_key().unwrap();
    assert!(export.extractable);
    assert!(backend.seed_from_derived(vec![1; 64]).is_ok());
    assert_eq!(op_msg(backend.seed_from_derived(vec![1; 32]).unwrap_err()), "Invalid seed length from backend");
    assert_eq!(op_msg(backend.seed_from_export(vec![1; 3]).unwrap_err()), "Exported key not suitable for XHD root");
    match XHDBackend::new().list_keys(vec!["x".into()]).as_slice() {
        [only] => assert_eq!(only, "x"),
        _ => panic!("expected one key"),
    }
    assert!(matches!(XHDBackend::new().root_export_key(), None));
    let _ = RootKeySource::Direct;
}

#[test]
fn test_xhd_partial_hardware_bound() {
    let backend = XHDBackend::new_with_backend("master-seed-id".into(), Algorithm::Generic { name: "seed".into() });
    assert_eq!(backend.determine_hardware_bound(HardwareBound::No, Some(HardwareBound::Yes)), HardwareBound::Partial);
    assert_eq!(backend.determine_hardware_bound(HardwareBound::No, Some(HardwareBound::Partial)), HardwareBound::Partial);
    assert_eq!(backend.determine_hardware_bound(HardwareBound::No, Some(HardwareBound::No)), HardwareBound::No);
    assert_eq!(backend.determine_hardware_bound(HardwareBound::Yes, None), HardwareBound::Yes);
    let direct = XHDBackend::new();
    assert_eq!(direct.determine_hardware_bound(HardwareBound::No, Some(HardwareBound::Yes)), HardwareBound::No);
    let meta = backend.key_metadata("k".into(), record("XHD:Address:0:1:Peikert"), vec![7; 32], HardwareBound::Partial, Some(true));
    assert_eq!(meta.master_seed.as_deref(), Some("master-seed-id"));
    assert_eq!(meta.seed_exportable, Some(true));
    let direct_meta = direct.key_metadata("k".into(), record("XHD:Address:0:1:Peikert"), vec![7; 32], HardwareBound::No, Some(true));
    assert_eq!(direct_meta.master_seed.as_deref(), Some("Direct"));
    assert_eq!(direct_meta.seed_exportable, None);
    assert_eq!(meta.hardware_bound, HardwareBound::Partial);
    assert_eq!(meta.index, Some(1));
    assert_eq!(meta.derivation.as_deref(), Some("Peikert"));
    assert_eq!(meta.algorithm, "Ed25519 { name: \"XHD:Address:0:1:Peikert\" }");
}

#[test]
fn xhd_operation_steps_check_before_lookup() {
    let backend = XHDBackend::new_with_backend("master".into(), Algorithm::Generic { name: "seed".into() });
    let hpke = Algorithm::Hpke { name: "DHKEM".into(), public_key: Some(vec![3; 32]), info: Some(b"ctx".to_vec()) };
    assert!(matches!(backend.encrypt_step("master", &hpke), EncryptStep::ToRoot));
    match backend.encrypt_step("k", &hpke) {
        EncryptStep::Hpke { public_key, info } => {
            assert_eq!(public_key, vec![3; 32]);
            assert_eq!(info, b"ctx".to_vec());
        }
        _ => panic!("expected an HPKE step"),
    }
    assert!(matches!(backend.encrypt_step("k", &Algorithm::Generic { name: "AesGcm".into() }), EncryptStep::Symmetric));
    let open = Algorithm::Hpke { name: "DHKEM".into(), public_key: None, info: None };
    assert!(matches!(backend.decrypt_step("k", &open, &[0; 31]), Err(SeetleError::DataError)));
    match backend.decrypt_step("k", &open, &[1; 40]).unwrap() {
        DecryptStep::Hpke { encapped, ciphertext, info } => {
            assert_eq!(encapped, vec![1; 32]);
            assert_eq!(ciphertext, vec![1; 8]);
            assert!(info.is_empty());
        }
        _ => panic!("expected an HPKE step"),
    }
    let aes = Algorithm::Generic { name: "AesGcm".into() };
    assert!(matches!(backend.decrypt_step("k", &aes, &[0; 27]), Err(SeetleError::DataError)));
    assert!(matches!(backend.decrypt_step("k", &aes, &[0; 28]), Ok(DecryptStep::Symmetric)));
    assert!(matches!(backend.decrypt_step("master", &aes, &[]), Ok(DecryptStep::ToRoot)));
    assert!(matches!(backend.derive_step("k", aes.clone()), Err(SeetleError::NotSupported)));
    let ecdh = Algorithm::Ecdh { name: "SAVE_KEY:new".into(), public_key: vec![4; 32] };
    assert!(matches!(backend.derive_step("k", ecdh), Ok(DeriveStep::Ecdh { .. })));
    let (saved, bits) = backend.ecdh_finish("k", "SAVE_KEY:new", &[7; 32], 512);
    assert_eq!(saved.unwrap().0, "new");
    assert_eq!(op_msg(bits.unwrap_err()), "Requested length too long");
}

#[test]
fn xhd_root_seed_falls_back_to_export() {
    let backend = XHDBackend::new_with_backend("master".into(), Algorithm::Generic { name: "MasterSeed".into() });
    assert!(matches!(backend.root_seed_step(Ok(vec![2; 64])), Ok(RootSeedStep::Seed(s)) if s == vec![2; 64]));
    assert_eq!(op_msg(backend.root_seed_step(Ok(vec![2; 32])).unwrap_err()), "Invalid seed length from backend");
    match backend.root_seed_step(Err(SeetleError::NotSupported)).unwrap() {
        RootSeedStep::Export(k) => {
            assert!(k.extractable);
            assert_eq!(k.algorithm, Algorithm::Generic { name: "MasterSeed".into() });
        }
        _ => panic!("expected an export"),
    }
    assert!(matches!(XHDBackend::new().root_seed_step(Err(SeetleError::KeyNotFound)), Err(SeetleError::NotSupported)));
}
