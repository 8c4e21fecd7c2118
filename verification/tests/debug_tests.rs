use seetle::file::{FileStorage, StoredFile};
use seetle::storage::SecureStorage;
use seetle::{Algorithm, SeetleError};

fn algorithms() -> Vec<Algorithm> {
    vec![
        Algorithm::Ecdsa { name: "ECDSA".into(), named_curve: "P-256".into(), hash: Some("SHA-256".into()) },
        Algorithm::Ecdsa { name: "quote \" back \\ nl \n tab \t nul \0 ctl \u{1} del \u{7f}".into(), named_curve: "x".into(), hash: None },
        Algorithm::RsaPss { name: "RSA-PSS".into(), modulus_length: 2048, public_exponent: vec![1, 0, 1], hash: "SHA-256".into(), salt_length: 32 },
        Algorithm::AesGcm { name: "AES-GCM".into(), length: 256, iv: vec![], additional_data: Some(vec![255]), tag_length: Some(16) },
        Algorithm::AesGcm { name: "AES-GCM".into(), length: 128, iv: vec![0; 12], additional_data: None, tag_length: None },
        Algorithm::Generic { name: "MasterSeed".into() },
        Algorithm::Raw { length: 128 },
        Algorithm::Ed25519 { name: "XHD:Address:0:1:Peikert".into() },
        Algorithm::Ecdh { name: "SAVE_KEY:k".into(), public_key: vec![7, 8] },
        Algorithm::Hpke { name: "DHKEM".into(), public_key: Some(vec![1]), info: None },
    ]
}

#[test]
fn algorithm_debug_text_matches_debug_notation() {
    for a in algorithms() {
        assert_eq!(a.debug_text(), format!("{:?}", a));
    }
    assert_eq!(Algorithm::Raw { length: 128 }.debug_text(), "Raw { length: 128 }");
}

#[test]
fn error_debug_text_matches_debug_notation() {
    let errors = vec![
        SeetleError::NotSupported,
        SeetleError::DataError,
        SeetleError::OperationError("bad \"input\"".into()),
        SeetleError::KeyNotFound,
        SeetleError::AccessDenied,
        SeetleError::StorageError("disk".into()),
    ];
    for e in errors {
        assert_eq!(e.debug_text(), format!("{:?}", e));
    }
}

#[test]
fn written_file_is_read_back_under_its_key() {
    let mut first = FileStorage::new_with_extension("dir", Some(".enc".to_string()), vec![]).unwrap();
    let name = first.file_name_for("alpha");
    assert_eq!(name, "alpha.enc");
    first.set_item("alpha", vec![1, 2, 3]).unwrap();
    let listing = vec![
        StoredFile { name: Some("other.txt".into()), is_file: true, data: vec![9] },
        StoredFile { name: Some(name), is_file: true, data: vec![1, 2, 3] },
        StoredFile { name: Some("sub.enc".into()), is_file: false, data: vec![] },
    ];
    let second = FileStorage::new_with_extension("dir", Some(".enc".to_string()), listing).unwrap();
    assert_eq!(second.get_item("alpha").unwrap(), Some(vec![1, 2, 3]));
    assert_eq!(second.list_items().unwrap(), vec!["alpha".to_string()]);
    let empty = FileStorage::new_with_extension("missing", None, vec![]).unwrap();
    assert!(empty.list_items().unwrap().is_empty());
}
