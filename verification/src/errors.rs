//! The error taxonomy: environment-resolution failures, the first-run
//! signal, filesystem failures and storage-engine failures are kept as
//! distinct kinds so that a caller can branch on them.

use vstd::prelude::*;

verus! {

/// Signals that are decided by this layer itself rather than reported by
/// the filesystem or the storage engine.
#[derive(Clone, Copy, Debug, PartialEq, Eq, Structural)]
pub enum ControlledErrors {
    /// The platform could not resolve a data directory for the application
    /// identity triple (for example, no determinable home directory).
    NoProjectDirectory,
    /// The resolved data directory path is not representable in the
    /// platform's native string form.
    NoDataDirectory,
    /// A first-time probe found that the database file does not exist yet;
    /// a signal for onboarding, not a breakage.
    FirstTime,
}

/// A failure reported by the embedded storage engine.
#[derive(Clone, Debug, PartialEq, Eq)]
pub enum StorageError {
    /// A single-row query matched no row.
    NoRows,
    /// Any other engine failure, carried with its message. A database file
    /// keyed under a different passphrase surfaces here on the first real
    /// statement against it.
    Engine(String),
}

/// Every failure this layer can surface.
#[derive(Clone, Debug, PartialEq, Eq)]
pub enum RepositoryError {
    /// A signal decided by this layer (see [`ControlledErrors`]).
    ControlledError(ControlledErrors),
    /// A filesystem-level failure, carried with its message.
    IOError(String),
    /// A storage-engine failure (see [`StorageError`]).
    SqliteError(StorageError),
}

impl RepositoryError {
    /// Whether this is the first-run signal.
    pub fn is_first_time(&self) -> (r: bool)
        ensures
            r == (self matches RepositoryError::ControlledError(ControlledErrors::FirstTime)),
    {
        match self {
            RepositoryError::ControlledError(ControlledErrors::FirstTime) => true,
            _ => false,
        }
    }

    /// Whether this is the "no such row" storage failure.
    pub fn is_no_rows(&self) -> (r: bool)
        ensures
            r == (self matches RepositoryError::SqliteError(StorageError::NoRows)),
    {
        match self {
            RepositoryError::SqliteError(StorageError::NoRows) => true,
            _ => false,
        }
    }
}

} // verus!
