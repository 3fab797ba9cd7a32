use aegis::errors::{ErrorKind, VaultError};

#[test]
fn every_failure_has_its_kind() {
    assert_eq!(VaultError::DuplicateUser.kind(), ErrorKind::ValidationError);
    assert_eq!(VaultError::InvalidCredentials.kind(), ErrorKind::AuthError);
    assert_eq!(VaultError::InvalidSecondFactor.kind(), ErrorKind::AuthError);
    assert_eq!(VaultError::InvalidToken.kind(), ErrorKind::AuthError);
    assert_eq!(VaultError::ExpiredToken.kind(), ErrorKind::AuthError);
    assert_eq!(VaultError::NotFound.kind(), ErrorKind::NotFoundError);
    assert_eq!(VaultError::Storage.kind(), ErrorKind::StorageError);
}

#[test]
fn every_failure_has_its_message() {
    assert_eq!(VaultError::DuplicateUser.message(), "Username or email already exists");
    assert_eq!(VaultError::InvalidCredentials.message(), "Invalid username or password");
    assert_eq!(VaultError::InvalidSecondFactor.message(), "Invalid 2FA token");
    assert_eq!(VaultError::InvalidToken.message(), "Invalid session token");
    assert_eq!(VaultError::ExpiredToken.message(), "Session expired");
    assert_eq!(VaultError::NotFound.message(), "Credential not found");
    assert_eq!(VaultError::Storage.message(), "Storage failure");
}

#[test]
fn failures_of_different_cause_stay_apart() {
    assert_ne!(VaultError::InvalidCredentials, VaultError::InvalidSecondFactor);
    assert_ne!(VaultError::InvalidToken, VaultError::ExpiredToken);
    assert_ne!(VaultError::NotFound.kind(), VaultError::InvalidToken.kind());
}
