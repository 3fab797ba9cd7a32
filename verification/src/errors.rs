//! Failure kinds of the vault and the messages shown for them.

use vstd::prelude::*;

verus! {

/// The four families a failure belongs to.
#[derive(Clone, Copy, Debug, PartialEq, Eq, Structural)]
pub enum ErrorKind {
    /// The request itself is unacceptable: the identity is already taken.
    ValidationError,
    /// The caller could not prove who they are.
    AuthError,
    /// No credential with that id belongs to the acting owner.
    NotFoundError,
    /// The vault could not record what was asked.
    StorageError,
}

/// Why an operation of the vault failed.
#[derive(Clone, Copy, Debug, PartialEq, Eq, Structural)]
pub enum VaultError {
    /// The username or the email belongs to an existing account.
    DuplicateUser,
    /// Unknown username, or the password does not match the stored hash.
    InvalidCredentials,
    /// The second-factor code was not accepted for that account.
    InvalidSecondFactor,
    /// The session token was never issued.
    InvalidToken,
    /// The session token was issued, and its lifetime is over.
    ExpiredToken,
    /// No credential with that id belongs to the acting owner.
    NotFound,
    /// The vault could not record what was asked.
    Storage,
}

/// A result with its success value replaced by that value's view.
pub open spec fn viewed<T: View>(r: Result<T, VaultError>) -> Result<T::V, VaultError> {
    match r {
        Ok(value) => Ok(value@),
        Err(e) => Err(e),
    }
}

/// A result with the account id in it taken as a mathematical integer.
pub open spec fn widened(r: Result<i32, VaultError>) -> Result<int, VaultError> {
    match r {
        Ok(id) => Ok(id as int),
        Err(e) => Err(e),
    }
}

/// A result with the time step in it taken as a mathematical integer.
pub open spec fn widened_step(r: Result<u64, VaultError>) -> Result<int, VaultError> {
    match r {
        Ok(step) => Ok(step as int),
        Err(e) => Err(e),
    }
}

impl VaultError {
    /// The family of this failure.
    pub open spec fn spec_kind(self) -> ErrorKind {
        match self {
            VaultError::DuplicateUser => ErrorKind::ValidationError,
            VaultError::InvalidCredentials => ErrorKind::AuthError,
            VaultError::InvalidSecondFactor => ErrorKind::AuthError,
            VaultError::InvalidToken => ErrorKind::AuthError,
            VaultError::ExpiredToken => ErrorKind::AuthError,
            VaultError::NotFound => ErrorKind::NotFoundError,
            VaultError::Storage => ErrorKind::StorageError,
        }
    }

    /// The text shown to the user for this failure.
    pub open spec fn spec_message(self) -> Seq<char> {
        match self {
            VaultError::DuplicateUser => "Username or email already exists"@,
            VaultError::InvalidCredentials => "Invalid username or password"@,
            VaultError::InvalidSecondFactor => "Invalid 2FA token"@,
            VaultError::InvalidToken => "Invalid session token"@,
            VaultError::ExpiredToken => "Session expired"@,
            VaultError::NotFound => "Credential not found"@,
            VaultError::Storage => "Storage failure"@,
        }
    }

    /// The family of this failure.
    #[verifier::when_used_as_spec(spec_kind)]
    pub fn kind(self) -> (k: ErrorKind)
        ensures
            k == self.spec_kind(),
    {
        match self {
            VaultError::DuplicateUser => ErrorKind::ValidationError,
            VaultError::InvalidCredentials => ErrorKind::AuthError,
            VaultError::InvalidSecondFactor => ErrorKind::AuthError,
            VaultError::InvalidToken => ErrorKind::AuthError,
            VaultError::ExpiredToken => ErrorKind::AuthError,
            VaultError::NotFound => ErrorKind::NotFoundError,
            VaultError::Storage => ErrorKind::StorageError,
        }
    }

    /// The text shown to the user for this failure.
    pub fn message(self) -> (text: String)
        ensures
            text@ == self.spec_message(),
    {
        match self {
            VaultError::DuplicateUser => "Username or email already exists".to_owned(),
            VaultError::InvalidCredentials => "Invalid username or password".to_owned(),
            VaultError::InvalidSecondFactor => "Invalid 2FA token".to_owned(),
            VaultError::InvalidToken => "Invalid session token".to_owned(),
            VaultError::ExpiredToken => "Session expired".to_owned(),
            VaultError::NotFound => "Credential not found".to_owned(),
            VaultError::Storage => "Storage failure".to_owned(),
        }
    }
}

} // verus!
