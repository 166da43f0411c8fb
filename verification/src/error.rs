//! The error types of the library.
use vstd::prelude::*;
use crate::device_flow::GithubDeviceOAuthError;

verus! {

/// Errors raised while talking to the Firestore database or the identity service.
///
/// Errors of outside libraries are carried as their rendered message.
#[derive(Debug, Clone, PartialEq, Eq)]
pub enum DatabaseError {
    FirestoreError(String),
    GCDError(String),
    SignInError { code: Option<i32>, message: Option<String> },
    UnknownError,
}

/// The error type of the library.
///
/// Errors of outside libraries (keyring, HTTP client, JSON, Firestore, task joins) are
/// carried as their rendered message.
#[derive(Debug, Clone, PartialEq, Eq)]
pub enum CoinError {
    Database(DatabaseError),
    GithubAuth(GithubDeviceOAuthError),
    Keyring(String),
    KeyringNoEntry,
    CredentialsSerialization(String),
    Environment { cause: String, key: String },
    TokioJoinError(String),
    InvalidTimestamp,
    FirestoreError(String),
    RequestError(String),
}

} // verus!
