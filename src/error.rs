use vstd::prelude::*;

verus! {

/// The closed set of failures that the keystore reports, whatever the backend.
#[derive(Clone, Copy, Debug, PartialEq, Eq, Structural)]
pub enum KeystoreError {
    /// No key is stored under the requested name.
    NotFound,
    /// The backend could not be reached, opened or authenticated against.
    BackendUnavailable,
    /// Stored material does not decode to a key document.
    Corrupt,
    /// A key document does not hold a usable secp256k1 scalar.
    KeyFormat,
    /// A key name breaks the naming rules of one of the backends.
    InvalidName,
    /// The backend refused to write the key.
    WriteRejected,
}

/// What a backend reported when an operation did not succeed, as the caller
/// that drove the backend observed it.
#[derive(Clone, Copy, Debug, PartialEq, Eq, Structural)]
pub enum BackendFailure {
    /// The entry or secret does not exist.
    Missing,
    /// The store could not be opened or the service could not be reached.
    Unreachable,
    /// The credentials were refused.
    Denied,
    /// The backend answered with data that is not what was asked for.
    Malformed,
    /// An entry or secret already exists under that name.
    AlreadyExists,
    /// The backend refused the write for another reason.
    Refused,
}

/// The error that a failed load or description reports: one of `NotFound`,
/// `BackendUnavailable` and `Corrupt`.
pub open spec fn read_failure_error(f: BackendFailure) -> KeystoreError {
    match f {
        BackendFailure::Missing => KeystoreError::NotFound,
        BackendFailure::Malformed => KeystoreError::Corrupt,
        _ => KeystoreError::BackendUnavailable,
    }
}

/// The error that a failed store reports: `WriteRejected` where the backend
/// refused the write, `BackendUnavailable` otherwise.
pub open spec fn store_failure_error(f: BackendFailure) -> KeystoreError {
    match f {
        BackendFailure::AlreadyExists => KeystoreError::WriteRejected,
        BackendFailure::Refused => KeystoreError::WriteRejected,
        _ => KeystoreError::BackendUnavailable,
    }
}

/// The error that a failed delete reports: `NotFound` where nothing was
/// there to delete, `BackendUnavailable` otherwise.
pub open spec fn delete_failure_error(f: BackendFailure) -> KeystoreError {
    match f {
        BackendFailure::Missing => KeystoreError::NotFound,
        _ => KeystoreError::BackendUnavailable,
    }
}

impl KeystoreError {
    /// The error that a load or a description reports for a backend failure.
    pub fn from_read_failure(f: BackendFailure) -> (r: KeystoreError)
        ensures
            r == read_failure_error(f),
            r == KeystoreError::NotFound || r == KeystoreError::BackendUnavailable || r
                == KeystoreError::Corrupt,
    {
        match f {
            BackendFailure::Missing => KeystoreError::NotFound,
            BackendFailure::Malformed => KeystoreError::Corrupt,
            _ => KeystoreError::BackendUnavailable,
        }
    }

    /// The error that a store reports for a backend failure.
    pub fn from_store_failure(f: BackendFailure) -> (r: KeystoreError)
        ensures
            r == store_failure_error(f),
            r == KeystoreError::BackendUnavailable || r == KeystoreError::WriteRejected,
    {
        match f {
            BackendFailure::AlreadyExists => KeystoreError::WriteRejected,
            BackendFailure::Refused => KeystoreError::WriteRejected,
            _ => KeystoreError::BackendUnavailable,
        }
    }

    /// The error that a delete reports for a backend failure.
    pub fn from_delete_failure(f: BackendFailure) -> (r: KeystoreError)
        ensures
            r == delete_failure_error(f),
            r == KeystoreError::NotFound || r == KeystoreError::BackendUnavailable,
    {
        match f {
            BackendFailure::Missing => KeystoreError::NotFound,
            _ => KeystoreError::BackendUnavailable,
        }
    }
}

} // verus!
