use gorc_keys::derivation::{cosmos_key, cosmos_key_hex, evm_key, evm_key_raw_bytes, secret_scalar};
use gorc_keys::document::KeyDocument;
use gorc_keys::error::{BackendFailure, KeystoreError};
use gorc_keys::keystore::{KeyDescription, KeyLocation, Keystore, StoreStep};
use gorc_keys::name::KeyName;
use pkcs8::ToPrivateKey;
use std::path::Path;


fn scalar() -> [u8; 32] {
    let mut b = [0u8; 32];
    for (i, x) in b.iter_mut().enumerate() {
        *x = i as u8 + 1;
    }
    b
}

/// A PKCS#8 document for an Ed25519 key, which is not a secp256k1 key.
fn ed25519_pem() -> String {
    let mut private_key = vec![0x04u8, 0x20];
    private_key.extend_from_slice(&[7u8; 32]);
    let algorithm = pkcs8::AlgorithmIdentifier {
        oid: "1.3.101.112".parse().unwrap(),
        parameters: None,
    };
    let info = pkcs8::PrivateKeyInfo::new(algorithm, &private_key);
    info.to_der().to_pem().as_str().to_owned()
}

fn secp256k1_pem(bytes: &[u8; 32]) -> String {
    let sk = k256::SecretKey::from_bytes(bytes).unwrap();
    let doc = sk.to_pkcs8_der().unwrap();
    doc.to_pem().as_str().to_owned()
}

fn document(bytes: &[u8; 32]) -> KeyDocument {
    KeyDocument::from_pem(&secp256k1_pem(bytes)).unwrap()
}

fn failure_of(e: &signatory::Error) -> BackendFailure {
    match e {
        signatory::Error::Io(io) if io.kind() == std::io::ErrorKind::NotFound => {
            BackendFailure::Missing
        }
        signatory::Error::Io(_) => BackendFailure::Unreachable,
        _ => BackendFailure::Malformed,
    }
}

#[test]
fn key_name_accepts_names_safe_on_both_backends() {
    assert_eq!(KeyName::new("validator-key").unwrap().as_str(), "validator-key");
    assert!(KeyName::new("A_b-9").is_ok());
    assert!(KeyName::new(&"k".repeat(512)).is_ok());
}

#[test]
fn key_name_rejects_unsafe_names() {
    for bad in ["", "a/b", "a.b", "a b", "clé", "../up"] {
        assert!(matches!(KeyName::new(bad), Err(KeystoreError::InvalidName)), "{}", bad);
    }
    assert!(matches!(KeyName::new(&"k".repeat(513)), Err(KeystoreError::InvalidName)));
}

#[test]
fn document_rejects_text_that_is_not_pkcs8() {
    assert!(matches!(KeyDocument::from_pem("not a key"), Err(KeystoreError::Corrupt)));
    assert!(matches!(KeyDocument::from_pem(""), Err(KeystoreError::Corrupt)));
}

#[test]
fn document_keeps_its_pem_text() {
    let pem = secp256k1_pem(&scalar());
    let doc = KeyDocument::from_pem(&pem).unwrap();
    assert_eq!(doc.to_pem(), pem);
    assert_eq!(doc.clone().pem(), pem.as_str());
}

#[test]
fn store_then_load_returns_the_same_pem() {
    let doc = document(&scalar());
    let payload = Keystore::store_payload(&doc);
    let loaded = Keystore::finish_load(Ok(Some(payload))).unwrap();
    assert_eq!(loaded.to_pem(), doc.to_pem());
    let ed_pem = ed25519_pem();
    let ed = KeyDocument::from_pem(&ed_pem).unwrap();
    let loaded = Keystore::finish_load(Ok(Some(Keystore::store_payload(&ed)))).unwrap();
    assert_eq!(loaded.to_pem(), ed_pem);
}

#[test]
fn absent_key_is_not_found_for_every_operation() {
    assert!(matches!(
        Keystore::finish_load(Err(BackendFailure::Missing)),
        Err(KeystoreError::NotFound)
    ));
    assert_eq!(
        Keystore::finish_delete(Err(BackendFailure::Missing)),
        Err(KeystoreError::NotFound)
    );
    assert!(matches!(
        Keystore::finish_describe(Err(BackendFailure::Missing)),
        Err(KeystoreError::NotFound)
    ));
}

#[test]
fn load_of_secret_without_text_is_not_found() {
    assert!(matches!(Keystore::finish_load(Ok(None)), Err(KeystoreError::NotFound)));
}

#[test]
fn load_of_undecodable_secret_is_corrupt() {
    assert!(matches!(
        Keystore::finish_load(Ok(Some("garbage".to_owned()))),
        Err(KeystoreError::Corrupt)
    ));
}

#[test]
fn backend_failures_map_onto_each_operation_s_errors() {
    let cases = [
        (BackendFailure::Missing, KeystoreError::NotFound, KeystoreError::BackendUnavailable, KeystoreError::NotFound),
        (BackendFailure::Unreachable, KeystoreError::BackendUnavailable, KeystoreError::BackendUnavailable, KeystoreError::BackendUnavailable),
        (BackendFailure::Denied, KeystoreError::BackendUnavailable, KeystoreError::BackendUnavailable, KeystoreError::BackendUnavailable),
        (BackendFailure::Malformed, KeystoreError::Corrupt, KeystoreError::BackendUnavailable, KeystoreError::BackendUnavailable),
        (BackendFailure::AlreadyExists, KeystoreError::BackendUnavailable, KeystoreError::WriteRejected, KeystoreError::BackendUnavailable),
        (BackendFailure::Refused, KeystoreError::BackendUnavailable, KeystoreError::WriteRejected, KeystoreError::BackendUnavailable),
    ];
    for (f, read, store, delete) in cases {
        assert_eq!(KeystoreError::from_read_failure(f), read);
        assert_eq!(KeystoreError::from_store_failure(f), store);
        assert_eq!(KeystoreError::from_delete_failure(f), delete);
        assert!(matches!(Keystore::finish_load(Err(f)), Err(e) if e == read));
        assert!(matches!(Keystore::finish_describe(Err(f)), Err(e) if e == read));
        assert_eq!(Keystore::finish_store(Err(f)), Err(store));
        assert_eq!(Keystore::finish_delete(Err(f)), Err(delete));
    }
    assert_eq!(Keystore::finish_store(Ok(())), Ok(()));
    assert_eq!(Keystore::finish_delete(Ok(())), Ok(()));
}

#[test]
fn store_overwrites_a_key_that_already_exists() {
    assert_eq!(Keystore::after_create(Err(BackendFailure::AlreadyExists)), StoreStep::Overwrite);
    assert_eq!(Keystore::after_create(Ok(())), StoreStep::Finished(Ok(())));
    assert_eq!(
        Keystore::after_create(Err(BackendFailure::Refused)),
        StoreStep::Finished(Err(KeystoreError::WriteRejected))
    );
    assert_eq!(
        Keystore::after_create(Err(BackendFailure::Unreachable)),
        StoreStep::Finished(Err(KeystoreError::BackendUnavailable))
    );
}

#[test]
fn document_is_kept_in_canonical_form() {
    let pem = secp256k1_pem(&scalar());
    let crlf = pem.replace('\n', "\r\n");
    assert_ne!(crlf, pem);
    let doc = KeyDocument::from_pem(&crlf).unwrap();
    assert_eq!(doc.to_pem(), pem);
    let der = pkcs8::PrivateKeyDocument::from_pem(&pem).unwrap();
    assert_eq!(doc.to_der(), der.as_ref().to_vec());
    let again = Keystore::finish_load(Ok(Some(Keystore::store_payload(&doc)))).unwrap();
    assert_eq!(again.to_pem(), pem);
    assert_eq!(again.to_der(), doc.to_der());
}

#[test]
fn describe_needs_a_valid_name() {
    let none = KeyDescription { name: None, algorithm: None, encrypted: false };
    assert!(matches!(Keystore::finish_describe(Ok(none)), Err(KeystoreError::Corrupt)));
    let bad = KeyDescription { name: Some("a/b".to_owned()), algorithm: None, encrypted: false };
    assert!(matches!(Keystore::finish_describe(Ok(bad)), Err(KeystoreError::Corrupt)));
    let good = KeyDescription {
        name: Some("orchestrator".to_owned()),
        algorithm: Some("ecdsa-secp256k1".to_owned()),
        encrypted: true,
    };
    let info = Keystore::finish_describe(Ok(good)).unwrap();
    assert_eq!(info.name.as_str(), "orchestrator");
    assert_eq!(info.algorithm.as_deref(), Some("ecdsa-secp256k1"));
    assert!(info.encrypted);
}

#[test]
fn locate_dispatches_on_the_variant() {
    let name = KeyName::new("validator-key").unwrap();
    match Keystore::default().locate(&name) {
        KeyLocation::LocalEntry { dir, entry } => {
            assert_eq!(dir, "/tmp/keystore");
            assert_eq!(entry, "validator-key");
        }
        other => panic!("{:?}", other),
    }
    match Keystore::Aws.locate(&name) {
        KeyLocation::RemoteSecret { secret_id } => assert_eq!(secret_id, "validator-key"),
        other => panic!("{:?}", other),
    }
}

#[test]
fn scalar_is_read_from_the_document() {
    assert_eq!(secret_scalar(&document(&scalar())).unwrap(), scalar());
}

#[test]
fn cosmos_text_is_lowercase_hex_of_the_scalar() {
    let mut b = scalar();
    b[0] = 0xab;
    b[31] = 0x0f;
    let hex = cosmos_key_hex(&document(&b)).unwrap();
    let expected = ["ab02030405060708", "090a0b0c0d0e0f10", "1112131415161718", "191a1b1c1d1e1f0f"];
    assert_eq!(hex, expected.concat());
}

#[test]
fn derivation_is_deterministic() {
    let doc = document(&scalar());
    let first = evm_key(&doc).unwrap();
    let second = evm_key(&doc).unwrap();
    assert_eq!(evm_key_raw_bytes(first), evm_key_raw_bytes(second));
    assert_eq!(evm_key_raw_bytes(first), scalar());
    assert_eq!(cosmos_key(&doc).unwrap(), cosmos_key(&doc).unwrap());
    assert_eq!(cosmos_key_hex(&doc).unwrap(), cosmos_key_hex(&doc).unwrap());
    let text = ["0102030405060708", "090a0b0c0d0e0f10", "1112131415161718", "191a1b1c1d1e1f20"];
    let expected: deep_space::CosmosPrivateKey = text.concat().parse().unwrap();
    assert_eq!(cosmos_key(&doc).unwrap(), expected);
}

#[test]
fn non_secp256k1_document_is_a_key_format_error() {
    let doc = KeyDocument::from_pem(&ed25519_pem()).unwrap();
    assert!(matches!(secret_scalar(&doc), Err(KeystoreError::KeyFormat)));
    assert!(matches!(evm_key(&doc), Err(KeystoreError::KeyFormat)));
    assert!(matches!(cosmos_key_hex(&doc), Err(KeystoreError::KeyFormat)));
    assert!(matches!(cosmos_key(&doc), Err(KeystoreError::KeyFormat)));
}

#[test]
fn local_store_load_and_evm_derivation_keep_the_scalar() {
    let dir = Path::new("/tmp/gorc_keys_scenario_store");
    let store = signatory::FsKeyStore::create_or_open(dir).unwrap();
    let name = KeyName::new("validator-key").unwrap();
    let signatory_name = signatory::KeyName::new(name.as_str()).unwrap();
    let doc = document(&scalar());
    let der = pkcs8::PrivateKeyDocument::from_pem(&Keystore::store_payload(&doc)).unwrap();
    store.store(&signatory_name, &der).unwrap();
    let loaded = store.load(&signatory_name).map(|d| d.to_pem().as_str().to_owned());
    let loaded = Keystore::finish_load(loaded.map(Some).map_err(|e| failure_of(&e))).unwrap();
    assert_eq!(evm_key_raw_bytes(evm_key(&loaded).unwrap()), scalar());
}

#[test]
fn second_delete_is_not_found() {
    let dir = Path::new("/tmp/gorc_keys_scenario_delete");
    let store = signatory::FsKeyStore::create_or_open(dir).unwrap();
    let name = signatory::KeyName::new("doomed-key").unwrap();
    let der = pkcs8::PrivateKeyDocument::from_pem(&secp256k1_pem(&scalar())).unwrap();
    store.store(&name, &der).unwrap();
    let first = Keystore::finish_delete(store.delete(&name).map_err(|e| failure_of(&e)));
    let second = Keystore::finish_delete(store.delete(&name).map_err(|e| failure_of(&e)));
    assert_eq!(first, Ok(()));
    assert_eq!(second, Err(KeystoreError::NotFound));
}
