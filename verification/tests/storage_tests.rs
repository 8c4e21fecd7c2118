use seetle::file::{FileStorage, StoredFile};
use seetle::keyring::{InitStep, KeyringStorage, PasswordLookup};
use seetle::secure_env::SecureEnvStorage;
use seetle::storage::{MemoryStorage, SecureStorage};
use seetle::tpm::TpmStorage;
use seetle::SeetleError;

fn file(name: &str, data: &[u8]) -> StoredFile {
    StoredFile { name: Some(name.to_string()), is_file: true, data: data.to_vec() }
}

#[test]
fn test_memory_storage_read_after_write() {
    let mut s = MemoryStorage::new();
    assert!(s.get_item("a").unwrap().is_none());
    s.set_item("a", b"one".to_vec()).unwrap();
    s.set_item("b", b"two".to_vec()).unwrap();
    s.set_item("a", b"three".to_vec()).unwrap();
    assert_eq!(s.get_item("a").unwrap().unwrap(), b"three".to_vec());
    assert_eq!(s.get_item("b").unwrap().unwrap(), b"two".to_vec());
    let mut names = s.list_items().unwrap();
    names.sort();
    assert_eq!(names, vec!["a".to_string(), "b".to_string()]);
    s.remove_item("a").unwrap();
    assert!(s.get_item("a").unwrap().is_none());
    assert_eq!(s.list_items().unwrap(), vec!["b".to_string()]);
    s.remove_item("missing").unwrap();
    assert_eq!(s.list_items().unwrap().len(), 1);
}

#[test]
fn test_memory_storage_default_is_empty() {
    let s = MemoryStorage::default();
    assert!(s.list_items().unwrap().is_empty());
}

#[test]
fn test_file_storage_extension() {
    let mut storage = FileStorage::new_with_extension("seetle-test-ext", Some(".json".to_string()), vec![]).unwrap();
    let key = "test-key";
    let data = b"json-data".to_vec();
    assert_eq!(storage.file_name_for(key), "test-key.json");
    storage.set_item(key, data.clone()).unwrap();
    let retrieved = storage.get_item(key).unwrap().unwrap();
    assert_eq!(data, retrieved);
    let items = storage.list_items().unwrap();
    assert_eq!(items.len(), 1);
    assert_eq!(items[0], "test-key");
}

#[test]
fn test_file_storage_reads_listing() {
    let files = vec![
        file("a.json", b"A"),
        file("b.txt", b"B"),
        StoredFile { name: Some("dir.json".to_string()), is_file: false, data: vec![] },
        file("c.json", b"C"),
        file("a.json", b"A2"),
    ];
    let s = FileStorage::new_with_extension("dir", Some(".json".to_string()), files).unwrap();
    assert_eq!(s.path(), "dir");
    assert_eq!(s.get_item("a").unwrap().unwrap(), b"A2".to_vec());
    assert_eq!(s.get_item("c").unwrap().unwrap(), b"C".to_vec());
    assert!(s.get_item("b").unwrap().is_none());
    assert!(s.get_item("dir").unwrap().is_none());
    let mut names = s.list_items().unwrap();
    names.sort();
    assert_eq!(names, vec!["a".to_string(), "c".to_string()]);
}

#[test]
fn test_file_storage_without_extension_and_bad_names() {
    let s = FileStorage::new("d", vec![file("x.bin", b"1")]).unwrap();
    assert_eq!(s.file_name_for("k"), "k");
    assert_eq!(s.get_item("x.bin").unwrap().unwrap(), b"1".to_vec());
    let bad = vec![StoredFile { name: None, is_file: true, data: vec![] }];
    assert!(matches!(FileStorage::new("d", bad), Err(SeetleError::DataError)));
    let not_file = vec![StoredFile { name: None, is_file: false, data: vec![] }];
    assert!(FileStorage::new("d", not_file).is_ok());
}

#[test]
fn test_tpm_storage_initialization() {
    let base = MemoryStorage::new();
    let result = TpmStorage::new(base);
    assert!(result.is_ok());
}

#[test]
fn test_tpm_storage_roundtrip() {
    let base = MemoryStorage::new();
    let mut storage = TpmStorage::new(base).unwrap();
    let key = "test-key-123";
    let value = b"sensitive-metadata-to-be-wrapped".to_vec();
    storage.set_item(key, value.clone()).unwrap();
    let retrieved = storage.get_item(key).expect("Failed to get item").expect("Item not found");
    assert_eq!(value, retrieved, "Retrieved value should match the value written");
    storage.remove_item(key).expect("Failed to remove item");
    let after_remove = storage.get_item(key).expect("Failed to get item after remove");
    assert!(after_remove.is_none(), "Item should be gone after removal");
}

#[test]
fn test_tpm_storage_wrapping_verification() {
    let base = MemoryStorage::new();
    let mut storage = TpmStorage::new(base).unwrap();
    let key = "wrap-test";
    let value = b"plain-text-data".to_vec();
    storage.set_item(key, value.clone()).unwrap();
    let raw_data = storage.inner().get_item(key).unwrap().unwrap();
    assert_eq!(raw_data, value, "Data in base storage should match the value written when TPM is disabled");
}

#[test]
fn test_secure_env_storage_creation() {
    let base = MemoryStorage::new();
    let _storage = SecureEnvStorage::new(base, "test-master-id").unwrap();
}

#[test]
fn test_secure_env_storage_passes_through() {
    let mut storage = SecureEnvStorage::new(MemoryStorage::new(), "id").unwrap();
    storage.set_item("k", vec![1, 2, 3]).unwrap();
    assert_eq!(storage.inner().get_item("k").unwrap().unwrap(), vec![1, 2, 3]);
    assert_eq!(storage.list_items().unwrap(), vec!["k".to_string()]);
}

fn ready_keyring() -> KeyringStorage {
    let mut s = KeyringStorage::new("seetle-test", "test-master-key").unwrap();
    s.finish_initialize(vec![7u8; 32]);
    s
}

#[test]
fn storage_test_keyring_storage_creation() {
    let _storage = KeyringStorage::new("seetle-test", "test-master-key").unwrap();
}

#[test]
fn keyring_test_keyring_storage_creation() {
    let storage = KeyringStorage::new("seelte-test", "test-master-key").unwrap();
    let entry = storage.get_entry();
    assert_eq!(entry.service, "seelte-test");
    assert_eq!(entry.user, "test-master-key");
}

#[test]
fn test_keyring_storage_roundtrip() {
    let storage = ready_keyring();
    let mut base = MemoryStorage::new();
    let key = "test-item";
    let value = b"secret-data-to-wrap".to_vec();
    let wrapped = storage.seal_item(value.clone()).unwrap();
    assert_eq!(wrapped.len(), value.len() + 28);
    assert_ne!(&wrapped[12..12 + value.len()], &value[..]);
    base.set_item(key, wrapped).unwrap();
    let retrieved = storage.open_item(base.get_item(key).unwrap()).unwrap().unwrap();
    assert_eq!(value, retrieved);
    let empty = storage.seal_item(vec![]).unwrap();
    assert_eq!(empty.len(), 28);
    assert_eq!(storage.open_item(Some(empty)).unwrap().unwrap(), Vec::<u8>::new());
    base.remove_item(key).unwrap();
    assert!(storage.open_item(base.get_item(key).unwrap()).unwrap().is_none());
}

#[test]
fn test_keyring_storage_uninitialized() {
    let storage = KeyringStorage::new("seetle-test-uninit", "non-existent-key").unwrap();
    assert!(storage.cached_master_key().is_none());
    let res = storage.seal_item(b"data".to_vec());
    assert!(matches!(res, Err(SeetleError::KeyNotFound)));
    let res = storage.open_item(Some(vec![0u8; 40]));
    assert!(matches!(res, Err(SeetleError::KeyNotFound)));
}

#[test]
fn test_keyring_storage_none_item() {
    let storage = ready_keyring();
    assert!(storage.open_item(None).unwrap().is_none());
}

#[test]
fn test_keyring_storage_invalid_data() {
    let storage = ready_keyring();
    let res = storage.open_item(Some(vec![0u8; 10]));
    match res {
        Err(SeetleError::OperationError(m)) => assert_eq!(m, "Invalid wrapped data (too short)"),
        other => panic!("unexpected {:?}", other),
    }
    let res = storage.open_item(Some(vec![0u8; 12 + 16 + 1]));
    match res {
        Err(SeetleError::OperationError(m)) => {
            assert_eq!(m, "Keyring storage decryption error: ring::error::Unspecified")
        }
        other => panic!("unexpected {:?}", other),
    }
}

#[test]
fn test_keyring_storage_persistence_checks() {
    let mut storage2 = KeyringStorage::new("seetle-test-persistence", "different-key").unwrap();
    let res = storage2.initialize(PasswordLookup::Missing, &["test".to_string()]);
    assert!(res.is_err());
    let err_msg = format!("{:?}", res);
    assert!(err_msg.contains("Keyring master key not found, but stored data exists"));
}

#[test]
fn test_keyring_storage_reinitialize() {
    let mut first = KeyringStorage::new("svc", "id").unwrap();
    let step = first.initialize(PasswordLookup::Missing, &[]).unwrap();
    let (password, key) = match step {
        InitStep::Store { password, key } => (password, key),
        other => panic!("unexpected {:?}", other),
    };
    assert_eq!(key.len(), 32);
    assert_eq!(password.len(), 64);
    first.finish_initialize(key.clone());
    let sealed = first.seal_item(b"data".to_vec()).unwrap();

    let mut second = KeyringStorage::new("svc", "id").unwrap();
    let step = second.initialize(PasswordLookup::Found(password.clone()), &["test".to_string()]).unwrap();
    match step {
        InitStep::Verify { item, key: k } => {
            assert_eq!(item, "test");
            assert_eq!(k, key);
            second.verify_master_key(&item, k, Some(sealed.clone())).unwrap();
        }
        other => panic!("unexpected {:?}", other),
    }
    assert_eq!(second.cached_master_key().unwrap(), key);
    assert_eq!(second.open_item(Some(sealed)).unwrap().unwrap(), b"data".to_vec());
}

#[test]
fn test_keyring_storage_key_mismatch_and_errors() {
    let mut s = KeyringStorage::new("svc", "id").unwrap();
    let sealed = ready_keyring().seal_item(b"x".to_vec()).unwrap();
    let res = s.verify_master_key("item", vec![8u8; 32], Some(sealed));
    match res {
        Err(SeetleError::OperationError(m)) => assert!(m.starts_with("Keyring master key mismatch")),
        other => panic!("unexpected {:?}", other),
    }
    assert!(s.cached_master_key().is_none());
    let res = s.verify_master_key("item", vec![8u8; 32], Some(vec![1, 2, 3]));
    match res {
        Err(SeetleError::OperationError(m)) => assert_eq!(m, "Invalid wrapped data for item 'item' (too short)"),
        other => panic!("unexpected {:?}", other),
    }
    assert!(matches!(s.initialize(PasswordLookup::Found("zz".to_string()), &[]), Err(SeetleError::DataError)));
    match s.initialize(PasswordLookup::Failed("no bus".to_string()), &[]) {
        Err(SeetleError::StorageError(m)) => assert_eq!(m, "no bus"),
        other => panic!("unexpected {:?}", other),
    }
    let step = s.initialize(PasswordLookup::Found("0a0b".to_string()), &[]).unwrap();
    assert!(matches!(step, InitStep::Done));
    assert_eq!(s.cached_master_key().unwrap(), vec![10, 11]);
}

#[test]
fn test_keyring_storage_load_master_key() {
    let mut s = KeyringStorage::new("svc", "id").unwrap();
    assert!(matches!(s.load_master_key(PasswordLookup::Missing), Err(SeetleError::KeyNotFound)));
    assert!(matches!(s.load_master_key(PasswordLookup::Found("xyz".to_string())), Err(SeetleError::DataError)));
    let k = s.load_master_key(PasswordLookup::Found("00ff".to_string())).unwrap();
    assert_eq!(k, vec![0, 255]);
    assert_eq!(s.cached_master_key().unwrap(), vec![0, 255]);
    match s.seal_item(vec![1]) {
        Err(SeetleError::OperationError(m)) => assert_eq!(m, "Failed to create ring key"),
        other => panic!("unexpected {:?}", other),
    }
}
