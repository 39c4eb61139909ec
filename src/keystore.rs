use crate::document::{
    is_canonical_pem, pkcs8_der_of_pem, pkcs8_pem_of_der, KeyDocument, KeyInfo,
};
use crate::error::{
    delete_failure_error, read_failure_error, store_failure_error, BackendFailure, KeystoreError,
};
use crate::name::{valid_key_name, KeyName};
use vstd::prelude::*;

verus! {

/// Where keys are kept: a local encrypted-file key store in a directory, or
/// the remote secret-management service.
#[derive(Clone, Debug)]
pub enum Keystore {
    /// A local key store in the directory at this path.
    File(String),
    /// The remote secret service, reached with the process's ambient
    /// credentials and region.
    Aws,
}

impl Default for Keystore {
    fn default() -> (r: Self)
        ensures
            r matches Keystore::File(p) && p@ == "/tmp/keystore"@,
    {
        Keystore::File("/tmp/keystore".to_owned())
    }
}

/// The place in a backend that holds one named key.
#[derive(Debug)]
pub enum KeyLocation {
    /// The entry named after the key in a local key store directory.
    LocalEntry { dir: String, entry: String },
    /// The remote secret whose id is the key's name.
    RemoteSecret { secret_id: String },
}

/// What a backend handed back for a description request.
pub struct KeyDescription {
    /// The name under which the backend knows the key, if it gave one.
    pub name: Option<String>,
    /// The key's algorithm, where the backend recognised it.
    pub algorithm: Option<String>,
    /// Whether the backend keeps the key encrypted under a password.
    pub encrypted: bool,
}

/// The canonical PEM text that a load yields, or its error, given what the
/// backend returned: a failure, a secret without text, or the stored text.
pub open spec fn load_outcome(o: Result<Option<String>, BackendFailure>) -> Result<
    Seq<char>,
    KeystoreError,
> {
    match o {
        Err(f) => Err(read_failure_error(f)),
        Ok(None) => Err(KeystoreError::NotFound),
        Ok(Some(s)) => match pkcs8_der_of_pem(s@) {
            Some(der) => Ok(pkcs8_pem_of_der(der)),
            None => Err(KeystoreError::Corrupt),
        },
    }
}

/// The result of a store, given what the backend reported.
pub open spec fn store_outcome(o: Result<(), BackendFailure>) -> Result<(), KeystoreError> {
    match o {
        Ok(()) => Ok(()),
        Err(f) => Err(store_failure_error(f)),
    }
}

/// The result of a delete, given what the backend reported.
pub open spec fn delete_outcome(o: Result<(), BackendFailure>) -> Result<(), KeystoreError> {
    match o {
        Ok(()) => Ok(()),
        Err(f) => Err(delete_failure_error(f)),
    }
}

/// What to do once the backend has answered a request to create a key.
#[derive(Debug, PartialEq, Eq)]
pub enum StoreStep {
    /// The store is over, with this result.
    Finished(Result<(), KeystoreError>),
    /// A key already exists under the name: overwrite its value.
    Overwrite,
}

/// The name that a description yields, or its error, given what the
/// backend returned.
pub open spec fn describe_outcome(o: Result<KeyDescription, BackendFailure>) -> Result<
    Seq<char>,
    KeystoreError,
> {
    match o {
        Err(f) => Err(read_failure_error(f)),
        Ok(d) => match d.name {
            None => Err(KeystoreError::Corrupt),
            Some(n) => if valid_key_name(n@) {
                Ok(n@)
            } else {
                Err(KeystoreError::Corrupt)
            },
        },
    }
}

impl Keystore {
    /// The place in this keystore's backend that holds the key `name`.
    pub fn locate(&self, name: &KeyName) -> (r: KeyLocation)
        ensures
            match *self {
                Keystore::File(p) => r matches KeyLocation::LocalEntry { dir, entry } && dir@
                    == p@ && entry@ == name@,
                Keystore::Aws => r matches KeyLocation::RemoteSecret { secret_id } && secret_id@
                    == name@,
            },
    {
        let id = name.as_str().to_owned();
        match self {
            Keystore::File(p) => KeyLocation::LocalEntry { dir: p.clone(), entry: id },
            Keystore::Aws => KeyLocation::RemoteSecret { secret_id: id },
        }
    }

    /// The text to hand the backend when storing `doc`: its canonical PEM
    /// text.
    pub fn store_payload(doc: &KeyDocument) -> (r: String)
        ensures
            r@ == doc@,
            pkcs8_der_of_pem(r@) is Some,
    {
        doc.to_pem()
    }

    /// Turns what the backend returned for a load into the loaded document.
    /// A secret without text counts as absent; text that is not a PKCS#8
    /// PEM document is corrupt. Errors are only `NotFound`,
    /// `BackendUnavailable` and `Corrupt`.
    pub fn finish_load(o: Result<Option<String>, BackendFailure>) -> (r: Result<
        KeyDocument,
        KeystoreError,
    >)
        ensures
            match r {
                Ok(d) => load_outcome(o) == Ok::<Seq<char>, KeystoreError>(d@),
                Err(e) => {
                    &&& load_outcome(o) == Err::<Seq<char>, KeystoreError>(e)
                    &&& e == KeystoreError::NotFound || e == KeystoreError::BackendUnavailable
                        || e == KeystoreError::Corrupt
                },
            },
    {
        match o {
            Err(f) => Err(KeystoreError::from_read_failure(f)),
            Ok(None) => Err(KeystoreError::NotFound),
            Ok(Some(s)) => KeyDocument::from_pem(s.as_str()),
        }
    }

    /// Turns what the backend reported for a store into the keystore's
    /// result. Errors are only `BackendUnavailable` and `WriteRejected`.
    pub fn finish_store(o: Result<(), BackendFailure>) -> (r: Result<(), KeystoreError>)
        ensures
            r == store_outcome(o),
            r matches Err(e) ==> e == KeystoreError::BackendUnavailable || e
                == KeystoreError::WriteRejected,
    {
        match o {
            Ok(()) => Ok(()),
            Err(f) => Err(KeystoreError::from_store_failure(f)),
        }
    }

    /// Decides what follows the backend's answer to creating a key: a key
    /// already under the name is overwritten, so that a store succeeds
    /// whether or not the name was taken; any other answer ends the store.
    pub fn after_create(o: Result<(), BackendFailure>) -> (r: StoreStep)
        ensures
            o == Err::<(), BackendFailure>(BackendFailure::AlreadyExists) ==> r
                == StoreStep::Overwrite,
            o != Err::<(), BackendFailure>(BackendFailure::AlreadyExists) ==> r
                == StoreStep::Finished(store_outcome(o)),
    {
        match o {
            Err(BackendFailure::AlreadyExists) => StoreStep::Overwrite,
            _ => StoreStep::Finished(Keystore::finish_store(o)),
        }
    }

    /// Turns what the backend reported for a delete into the keystore's
    /// result. Errors are only `NotFound` and `BackendUnavailable`.
    pub fn finish_delete(o: Result<(), BackendFailure>) -> (r: Result<(), KeystoreError>)
        ensures
            r == delete_outcome(o),
            r matches Err(e) ==> e == KeystoreError::NotFound || e
                == KeystoreError::BackendUnavailable,
    {
        match o {
            Ok(()) => Ok(()),
            Err(f) => Err(KeystoreError::from_delete_failure(f)),
        }
    }

    /// Turns what the backend returned for a description into key metadata.
    /// A description without a valid key name is corrupt: no partial
    /// metadata is returned. Errors are only `NotFound`,
    /// `BackendUnavailable` and `Corrupt`.
    pub fn finish_describe(o: Result<KeyDescription, BackendFailure>) -> (r: Result<
        KeyInfo,
        KeystoreError,
    >)
        ensures
            match r {
                Ok(info) => {
                    &&& describe_outcome(o) == Ok::<Seq<char>, KeystoreError>(info.name@)
                    &&& o matches Ok(d) && info.algorithm == d.algorithm && info.encrypted
                        == d.encrypted
                },
                Err(e) => {
                    &&& describe_outcome(o) == Err::<Seq<char>, KeystoreError>(e)
                    &&& e == KeystoreError::NotFound || e == KeystoreError::BackendUnavailable
                        || e == KeystoreError::Corrupt
                },
            },
    {
        match o {
            Err(f) => Err(KeystoreError::from_read_failure(f)),
            Ok(d) => match d.name {
                None => Err(KeystoreError::Corrupt),
                Some(n) => match KeyName::new(n.as_str()) {
                    Ok(name) => Ok(KeyInfo { name, algorithm: d.algorithm, encrypted: d.encrypted }),
                    Err(_) => Err(KeystoreError::Corrupt),
                },
            },
        }
    }
}

/// Storing a document and loading it back gives the same PEM text and the
/// same DER bytes, on either backend: the remote service returns the text it
/// was handed, and the local store returns the text that pkcs8 writes for
/// the bytes it kept; both are the document's canonical text.
pub proof fn lemma_store_then_load(der: Seq<u8>, stored: Seq<char>, returned: String)
    requires
        is_canonical_pem(stored, der),
        returned@ == stored,
    ensures
        load_outcome(Ok(Some(returned))) == Ok::<Seq<char>, KeystoreError>(stored),
{
}

/// Where the backend reports that nothing is stored under a name, a load, a
/// delete and a description all fail with `NotFound`.
pub proof fn lemma_absent_is_not_found()
    ensures
        load_outcome(Err(BackendFailure::Missing)) == Err::<Seq<char>, KeystoreError>(
            KeystoreError::NotFound,
        ),
        delete_outcome(Err(BackendFailure::Missing)) == Err::<(), KeystoreError>(
            KeystoreError::NotFound,
        ),
        describe_outcome(Err(BackendFailure::Missing)) == Err::<Seq<char>, KeystoreError>(
            KeystoreError::NotFound,
        ),
{
}

} // verus!
