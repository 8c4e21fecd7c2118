use seetle::backends::keyring::KeyringBackend;
use seetle::backends::mock::{MockBackend, MockGenerated};
use seetle::backends::nordic::{
    get_key_bits, map_algorithm, map_key_type, map_key_usage, map_psa_error, NordicBackend,
    NordicRecord, PSA_ALG_GCM, PSA_KEY_LIFETIME_PERSISTENT, PSA_KEY_LIFETIME_VOLATILE,
};
use seetle::backends::secure_env::SecureEnvBackend;
use seetle::backends::tpm::{HierarchyBits, TpmBackend, TpmKeyKind, TpmRecord};
use seetle::backends::tropic::{LtEccCurve, LtRet, TropicBackend};
use seetle::backends::{check_usage, key_identifier, visible_keys, StoredKey};
use seetle::storage::{MemoryStorage, SecureStorage};
use seetle::{Algorithm, Bindings, CryptoKey, HardwareBound, KeyOrIdentifier, KeyType, KeyUsage, SeetleError};

fn ecdsa() -> Algorithm {
    Algorithm::Ecdsa { name: "ECDSA".into(), named_curve: "P-256".into(), hash: Some("SHA-256".into()) }
}

fn op_msg(e: SeetleError) -> String {
    match e {
        SeetleError::OperationError(m) => m,
        other => panic!("expected an operation error, got {:?}", other),
    }
}

#[test]
fn test_generate_hardware_key() {
    let backend = MockBackend::new();
    let algorithm = Algorithm::Ecdsa { name: "ECDSA".into(), named_curve: "P-256".into(), hash: None };
    let bindings = Bindings {
        hardware_bound: HardwareBound::Yes,
        origin_bindings: vec!["example.com".into()],
        identifier: "123ABC".into(),
        updatable: true,
        extractable: false,
    };
    let result = backend.generate_key(algorithm, false, Some(bindings), vec![KeyUsage::Sign, KeyUsage::Verify]).unwrap();
    match result {
        MockGenerated::Store(b) => assert_eq!(b.identifier, "123ABC"),
        _ => panic!("Expected identifier"),
    }
}

#[test]
fn test_hardware_bound_must_not_be_extractable() {
    let backend = MockBackend::new();
    let algorithm = Algorithm::Ecdsa { name: "ECDSA".into(), named_curve: "P-256".into(), hash: None };
    let bindings = Bindings { identifier: "123ABC".into(), extractable: true, ..Default::default() };
    let result = backend.generate_key(algorithm, true, Some(bindings), vec![]);
    assert!(result.is_ok());
}

#[test]
fn test_mock_refuses_extractable_hardware_key() {
    let backend = MockBackend::new();
    let bindings = Bindings { identifier: "k".into(), hardware_bound: HardwareBound::Yes, ..Default::default() };
    let e = backend.generate_key(ecdsa(), true, Some(bindings), vec![]).unwrap_err();
    assert_eq!(op_msg(e), "Hardware bound keys cannot be extractable");
    match backend.generate_key(ecdsa(), true, None, vec![KeyUsage::Sign]).unwrap() {
        MockGenerated::Key(k) => {
            assert_eq!(k.key_type, KeyType::Secret);
            assert!(k.extractable);
            assert!(k.usages.is_empty());
            assert_eq!(k.algorithm, ecdsa());
        }
        _ => panic!("expected a key by value"),
    }
}

#[test]
fn test_hardware_key_storage() {
    let mut storage = MemoryStorage::new();
    let backend = MockBackend::new();
    let id = "test-key".to_string();
    let bindings = Bindings { hardware_bound: HardwareBound::Yes, identifier: id.clone(), ..Default::default() };
    match backend.generate_key(Algorithm::Generic { name: "test".into() }, false, Some(bindings), vec![]).unwrap() {
        MockGenerated::Store(b) => {
            assert_eq!(b, Bindings { hardware_bound: HardwareBound::Yes, identifier: id.clone(), ..Default::default() });
            storage.set_item(&b.identifier, format!("{:?}", b).into_bytes()).unwrap()
        }
        _ => panic!("expected a stored key"),
    }
    let stored = storage.get_item(&id).unwrap().unwrap();
    assert!(String::from_utf8(stored).unwrap().contains("hardware_bound: Yes"));
    let known = storage.get_item(&id).unwrap().is_some();
    assert_eq!(backend.sign(known).unwrap(), vec![0u8; 64]);
    let known = storage.get_item("unknown").unwrap().is_some();
    assert!(matches!(backend.sign(known), Err(SeetleError::KeyNotFound)));
}

#[test]
fn test_mock_fixed_answers() {
    let backend = MockBackend::new();
    assert!(backend.verify().unwrap());
    assert_eq!(backend.fixed_bytes().unwrap(), vec![0u8; 32]);
    let k = backend.import_key().unwrap();
    assert_eq!(k.algorithm, Algorithm::Generic { name: "mock".into() });
    assert!(k.extractable);
    match backend.derive_key().unwrap() {
        KeyOrIdentifier::Identifier(id) => assert_eq!(id, "derived-mock-key"),
        _ => panic!("expected an identifier"),
    }
    assert!(matches!(backend.update_key(None, Bindings::default()), Err(SeetleError::KeyNotFound)));
    let fixed = Bindings { identifier: "k".into(), updatable: false, ..Default::default() };
    let e = backend.update_key(Some(fixed), Bindings::default()).unwrap_err();
    assert_eq!(op_msg(e), "Key is not updatable");
    let open = Bindings { identifier: "k".into(), updatable: true, ..Default::default() };
    let nb = Bindings { identifier: "k".into(), origin_bindings: vec!["https://a.example".into()], ..Default::default() };
    assert_eq!(backend.update_key(Some(open), nb.clone()).unwrap(), nb);
}

#[test]
fn test_keyring_backend_ecdsa() {
    let backend = KeyringBackend::new();
    let bindings = Bindings { identifier: "test-key-keyring".into(), hardware_bound: HardwareBound::Yes, ..Default::default() };
    let g = backend.generate_key(ecdsa(), false, Some(bindings), vec![KeyUsage::Sign, KeyUsage::Verify]).unwrap();
    assert_eq!(g.entry.service, "seelte");
    assert_eq!(g.entry.user, "test-key-keyring");
    assert_eq!(g.record.bindings.identifier, "test-key-keyring");
    let data = b"hello world".to_vec();
    let signature = backend.sign(&g.record, Ok(g.secret.clone()), &data).unwrap();
    assert!(!signature.is_empty());
    let verified = backend.verify(&g.record, Ok(g.secret.clone()), &signature, &data).unwrap();
    assert!(verified);
    let tampered = backend.verify(&g.record, Ok(g.secret.clone()), &signature, b"other").unwrap();
    assert!(!tampered);
}

#[test]
fn test_keyring_backend_refusals() {
    let backend = KeyringBackend::with_service("svc");
    assert_eq!(backend.get_key_entry("k").service, "svc");
    assert!(matches!(backend.generate_key(ecdsa(), false, None, vec![]), Err(SeetleError::NotSupported)));
    let b = Bindings { identifier: "k".into(), ..Default::default() };
    let p384 = Algorithm::Ecdsa { name: "ECDSA".into(), named_curve: "P-384".into(), hash: None };
    assert!(matches!(backend.generate_key(p384, false, Some(b.clone()), vec![]), Err(SeetleError::NotSupported)));
    let aes = Algorithm::AesGcm { name: "AES-GCM".into(), length: 256, iv: vec![], additional_data: None, tag_length: None };
    let g = backend.generate_key(aes, false, Some(b.clone()), vec![]).unwrap();
    assert_eq!(g.material.len(), 32);
    assert_eq!(g.secret.len(), 64);
    let record = StoredKey { bindings: b.clone(), algorithm: ecdsa(), usages: vec![KeyUsage::Verify] };
    let e = backend.sign(&record, Ok("00".into()), b"x").unwrap_err();
    assert_eq!(op_msg(e), "Key does not support usage: Sign");
    let record = StoredKey { bindings: b.clone(), algorithm: ecdsa(), usages: vec![KeyUsage::Sign] };
    match backend.sign(&record, Err("locked".into()), b"x") {
        Err(SeetleError::StorageError(m)) => assert_eq!(m, "locked"),
        other => panic!("unexpected {:?}", other),
    }
    assert!(matches!(backend.sign(&record, Ok("zz".into()), b"x"), Err(SeetleError::DataError)));
    let e = backend.sign(&record, Ok("0011".into()), b"x").unwrap_err();
    assert!(op_msg(e).starts_with("Key load error: "));
    let e = backend.update_key(record, Bindings::default()).unwrap_err();
    assert_eq!(op_msg(e), "Key is not updatable");
}

#[test]
fn test_nordic_usage_enforcement() {
    let backend = NordicBackend::new();
    let record = NordicRecord {
        bindings: Bindings { identifier: "test-key".into(), hardware_bound: HardwareBound::Yes, ..Default::default() },
        algorithm: ecdsa(),
        usages: vec![KeyUsage::Sign],
        psa_id: 123,
    };
    assert!(backend.check_usage(&record, KeyUsage::Sign).is_ok());
    let e = backend.check_usage(&record, KeyUsage::Verify).unwrap_err();
    assert!(op_msg(e).contains("Key does not support usage"));
    let e = backend.unsupported_after_check(Some(&record), KeyUsage::Encrypt);
    assert_eq!(op_msg(e), "Key does not support usage: Encrypt");
    assert!(matches!(backend.unsupported_after_check(Some(&record), KeyUsage::Sign), SeetleError::NotSupported));
}

#[test]
fn test_nordic_aes_gcm_requests() {
    let backend = NordicBackend::new();
    let aes = Algorithm::AesGcm { name: "AES-GCM".into(), length: 256, iv: vec![1; 12], additional_data: Some(vec![9]), tag_length: None };
    let record = NordicRecord {
        bindings: Bindings { identifier: "aes".into(), ..Default::default() },
        algorithm: aes.clone(),
        usages: vec![KeyUsage::Encrypt],
        psa_id: 77,
    };
    let q = backend.plan_cipher(Some(&record), &aes, KeyUsage::Encrypt, b"secret".to_vec()).unwrap();
    assert_eq!(q.psa_id, 77);
    assert_eq!(q.algorithm, PSA_ALG_GCM);
    assert_eq!(q.nonce, vec![1; 12]);
    assert_eq!(q.additional_data, vec![9]);
    assert_eq!(q.input, b"secret".to_vec());
    let e = backend.plan_cipher(Some(&record), &aes, KeyUsage::Decrypt, vec![]).unwrap_err();
    assert_eq!(op_msg(e), "Key does not support usage: Decrypt");
    assert!(matches!(backend.plan_cipher(None, &aes, KeyUsage::Encrypt, vec![]), Err(SeetleError::NotSupported)));
    assert!(matches!(backend.plan_cipher(Some(&record), &ecdsa(), KeyUsage::Encrypt, vec![]), Err(SeetleError::NotSupported)));
    assert_eq!(backend.finish_cipher(0, vec![5, 6, 7, 8], 3).unwrap(), vec![5, 6, 7]);
    assert!(matches!(backend.finish_cipher(-135, vec![], 0), Err(SeetleError::DataError)));
}

#[test]
fn test_nordic_mappings() {
    assert!(matches!(map_psa_error(-133), SeetleError::AccessDenied));
    assert!(matches!(map_psa_error(-134), SeetleError::NotSupported));
    assert!(matches!(map_psa_error(-140), SeetleError::KeyNotFound));
    assert_eq!(op_msg(map_psa_error(-150)), "PSA error: -150");
    assert_eq!(op_msg(map_psa_error(7)), "PSA error: 7");
    assert_eq!(op_msg(map_psa_error(i32::MIN)), "PSA error: -2147483648");
    assert_eq!(map_key_usage(&[KeyUsage::Sign, KeyUsage::Encrypt]), 0x1000 | 0x400 | 0x100);
    assert_eq!(map_key_usage(&[KeyUsage::DeriveKey, KeyUsage::DeriveBits, KeyUsage::WrapKey]), 0x4000);
    assert_eq!(map_key_usage(&[]), 0);
    assert_eq!(map_algorithm(&ecdsa()), 0x06000609);
    assert_eq!(map_algorithm(&Algorithm::Ecdsa { name: "E".into(), named_curve: "P-256".into(), hash: None }), 0x06000600);
    assert_eq!(map_key_type(&ecdsa()), 0x710012);
    assert_eq!(get_key_bits(&Algorithm::Ecdsa { name: "E".into(), named_curve: "P-521".into(), hash: None }), 521);
    assert_eq!(get_key_bits(&Algorithm::Generic { name: "g".into() }), 0);
}

#[test]
fn test_nordic_generation_plan() {
    let backend = NordicBackend::new();
    assert!(backend.init(0).is_ok());
    assert!(matches!(backend.init(-136), Err(SeetleError::KeyNotFound)));
    let hw = Bindings { identifier: "k".into(), hardware_bound: HardwareBound::Yes, ..Default::default() };
    let plan = backend.generate_key(ecdsa(), false, Some(hw), vec![KeyUsage::Sign]).unwrap();
    assert_eq!(plan.attributes.lifetime, PSA_KEY_LIFETIME_PERSISTENT);
    assert_eq!(plan.attributes.bits, 256);
    assert_eq!(plan.attributes.usage_flags, 0x1400);
    let soft = Bindings { identifier: "k".into(), ..Default::default() };
    let plan = backend.generate_key(ecdsa(), true, Some(soft), vec![]).unwrap();
    assert_eq!(plan.attributes.lifetime, PSA_KEY_LIFETIME_VOLATILE);
    let record = backend.finish_generate(plan.clone(), 0, 42).unwrap();
    assert_eq!(record.psa_id, 42);
    assert!(matches!(backend.finish_generate(plan, -135, 1), Err(SeetleError::DataError)));
    assert_eq!(backend.finish_sign(0, vec![1, 2, 3, 4], 2).unwrap(), vec![1, 2]);
    assert!(backend.finish_verify(0).unwrap());
    assert!(!backend.finish_verify(-149).unwrap());
    assert!(matches!(backend.finish_verify(-133), Err(SeetleError::AccessDenied)));
}

#[test]
fn test_secure_env_backend_creation() {
    let _backend = SecureEnvBackend::new();
}

#[test]
fn test_not_supported_on_non_mobile() {
    let backend = SecureEnvBackend::new();
    assert!(matches!(backend.platform_operation(), SeetleError::NotSupported));
}

#[test]
fn tpm_test_tpm_backend_creation() {
    let result = TpmBackend::new();
    assert!(result.is_ok());
}

#[test]
fn test_tpm_backend_records() {
    let backend = TpmBackend::new().unwrap();
    assert!(matches!(backend.hardware_operation(), SeetleError::NotSupported));
    let b = Bindings { identifier: "seed".into(), hardware_bound: HardwareBound::Yes, ..Default::default() };
    assert_eq!(
        backend.generation_kind(&Algorithm::Raw { length: 128 }, &Some(b.clone())).unwrap(),
        TpmKeyKind::Seed { len: 16, from_hierarchy: true }
    );
    assert_eq!(backend.generation_kind(&ecdsa(), &Some(b.clone())).unwrap(), TpmKeyKind::EcdsaP256);
    assert!(matches!(backend.generation_kind(&ecdsa(), &None), Err(SeetleError::NotSupported)));
    assert_eq!(backend.next_random_batch(0, 100), 64);
    assert_eq!(backend.next_random_batch(64, 100), 36);
    let rec = backend.new_record(b.clone(), true, Algorithm::Raw { length: 128 }, vec![KeyUsage::DeriveBits], vec![1; 16], vec![], false);
    assert!(rec.bindings.extractable);
    assert_eq!(backend.export_key(&KeyOrIdentifier::Identifier("seed".into()), Some(&rec)).unwrap(), vec![1; 16]);
    let hier = backend.new_record(b.clone(), true, Algorithm::Raw { length: 128 }, vec![], vec![1; 16], vec![], true);
    let e = backend.export_key(&KeyOrIdentifier::Identifier("seed".into()), Some(&hier)).unwrap_err();
    assert_eq!(op_msg(e), "Key material not available for export");
    let key = CryptoKey { key_type: KeyType::Secret, extractable: false, algorithm: ecdsa(), usages: vec![] };
    assert_eq!(op_msg(backend.export_key(&KeyOrIdentifier::Key(key), None).unwrap_err()), "Key is not extractable");
    assert!(matches!(backend.update_key(rec.clone(), Bindings::default()), Err(SeetleError::AccessDenied)));
    let meta = backend.get_key_metadata("seed".into(), rec);
    assert_eq!(meta.algorithm, "Raw { length: 128 }");
    assert!(meta.public_key.is_none());
    let e = backend.verify(&meta, b"sig", b"data").unwrap_err();
    assert_eq!(op_msg(e), "Public key not found for verification");
}

#[test]
fn test_tpm_derive_bits_rules() {
    let backend = TpmBackend::new().unwrap();
    assert_eq!(backend.seed_to_bits("s", vec![5; 16], 128).unwrap(), vec![5; 16]);
    let long = backend.seed_to_bits("s", vec![5; 16], 512).unwrap();
    assert_eq!(long.len(), 64);
    let e = backend.seed_to_bits("test-seed", vec![5; 16], 256).unwrap_err();
    assert_eq!(op_msg(e), "Stored seed for test-seed has wrong length and cannot be derived: expected 32, got 16");
    assert_eq!(backend.uncompressed_point(&[1, 2], &[3]), vec![4, 1, 2, 3]);
}

#[test]
fn test_tpm_hierarchy_assembly() {
    let mut h = HierarchyBits::new("seed", 40);
    assert_eq!(h.next_label().unwrap(), "seed-part-1");
    h.absorb(&[1u8; 32]).unwrap();
    assert_eq!(h.next_label().unwrap(), "seed-part-2");
    h.absorb(&[2u8; 32]).unwrap();
    assert!(h.next_label().is_none());
    let bits = h.finish();
    assert_eq!(bits.len(), 40);
    assert_eq!(bits[31], 1);
    assert_eq!(bits[32], 2);
    let mut big = HierarchyBits::new("x", 1000);
    for _ in 0..9 {
        big.absorb(&[0u8; 32]).unwrap();
    }
    let e = big.absorb(&[0u8; 32]).unwrap_err();
    assert_eq!(op_msg(e), "Too much data requested from TPM hierarchy");
}

#[test]
fn test_tropic_decisions() {
    assert_eq!(op_msg(TropicBackend::new(None).err().unwrap()), "Failed to create lt_handle");
    assert_eq!(op_msg(TropicBackend::new(Some(LtRet::Fail)).err().unwrap()), "lt_init failed: Fail");
    let backend = TropicBackend::new(Some(LtRet::Success)).unwrap();
    let e = backend.generate_key(ecdsa(), false, None, vec![]).unwrap_err();
    assert_eq!(op_msg(e), "Bindings required for TropicBackend");
    let b = Bindings { identifier: "t".into(), ..Default::default() };
    let plan = backend.generate_key(ecdsa(), false, Some(b), vec![KeyUsage::Sign]).unwrap();
    assert_eq!(plan.curve, LtEccCurve::P256);
    assert_eq!(plan.slot, 0);
    let e = backend.finish_generate(plan.clone(), LtRet::Fail).unwrap_err();
    assert_eq!(op_msg(e), "lt_ecc_key_generate failed: Fail");
    let rec = backend.finish_generate(plan, LtRet::Success).unwrap();
    assert_eq!(backend.finish_sign(LtRet::Success, vec![9; 64]).unwrap(), vec![9; 64]);
    assert_eq!(op_msg(backend.finish_sign(LtRet::Fail, vec![]).unwrap_err()), "lt_ecc_ecdsa_sign failed: Fail");
    assert!(!backend.finish_verify(LtRet::Success, &[0u8; 64], &[0u8; 64], b"m").unwrap());
    assert_eq!(op_msg(backend.export_key(&rec)), "Key is not extractable");
}

#[test]
fn test_shared_helpers() {
    assert!(check_usage(&[KeyUsage::Sign], KeyUsage::Sign).is_ok());
    assert_eq!(op_msg(check_usage(&[], KeyUsage::UnwrapKey).unwrap_err()), "Key does not support usage: UnwrapKey");
    assert_eq!(key_identifier(&KeyOrIdentifier::Identifier("a".into())).unwrap(), "a");
    let names = vec!["b".to_string(), ".hidden".to_string(), "a".to_string(), "".to_string()];
    assert_eq!(visible_keys(names), vec!["b".to_string(), "a".to_string(), "".to_string()]);
    let e = SeetleError::StorageError("disk".into());
    assert_eq!(e.message(), "Storage error: disk");
    assert_eq!(SeetleError::NotSupported.message(), "Algorithm not supported");
}
