//! Error taxonomy of the stores and of the request-level operations.

use vstd::prelude::*;

verus! {

/// Why a text is no credential.
#[derive(Debug, Clone, Copy, PartialEq, Eq, Structural)]
pub enum CredentialError {
    /// The text does not satisfy the address syntax.
    InvalidFormat,
    /// The text is shorter than a password may be.
    TooShort,
}

/// Failures of a user store.
#[derive(Debug, Clone, Copy, PartialEq, Eq, Structural)]
pub enum UserStoreError {
    UserAlreadyExists,
    UserNotFound,
    InvalidCredentials,
    UnexpectedError,
}

/// Failures of a revoked-token store.
#[derive(Debug, Clone, Copy, PartialEq, Eq, Structural)]
pub enum BannedTokenStoreError {
    TokenAlreadyExists,
    TokenNotFound,
    UnexpectedError,
}

/// Failures of a challenge store.
#[derive(Debug, Clone, Copy, PartialEq, Eq, Structural)]
pub enum TwoFACodeStoreError {
    LoginAttemptIdNotFound,
    UnexpectedError,
}

/// Failures reported to a client. `InvalidCredentials` covers malformed
/// input without naming the field; `InvalidToken` covers expired, malformed
/// and revoked tokens alike.
#[derive(Debug, Clone, Copy, PartialEq, Eq, Structural)]
pub enum AuthAPIError {
    UserAlreadyExists,
    InvalidCredentials,
    IncorrectCredentials,
    MissingToken,
    InvalidToken,
    UnexpectedError,
}

} // verus!
