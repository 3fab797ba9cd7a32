use aegis::auth::{check_password, check_second_factor, choose_step, Admission};
use aegis::errors::{ErrorKind, VaultError};
use aegis::store::VaultStore;
use aegis::users::{User, UserRegistry};
use aegis::vault::{
    get_authenticated_user_id, get_credentials, login, login_with, register_user, verify_2fa,
    verify_2fa_with, LoginResponse, Vault,
};

const SALT: &str = "000102030405060708090a0b0c0d0e0f";
const SECRET: &str = "12345678901234567890";

/// The six-digit code of a secret for the time step a moment falls into,
/// asked of the outside crate directly.
fn code_at(secret: &str, moment: u64) -> String {
    totp_lite::totp_custom::<totp_lite::Sha1>(30, 6, secret.as_bytes(), moment)
}

/// A vault with "plain" (id 1, no second factor) and "guarded" (id 2,
/// second factor enrolled), both with the password "open sesame".
fn vault_with_two_accounts() -> Vault {
    let hash = bcrypt::hash("open sesame", 4).unwrap();
    let mut registry = UserRegistry::new();
    registry
        .register(
            "plain".to_string(),
            "plain@example.com".to_string(),
            hash.clone(),
            SALT.to_string(),
            None,
        )
        .unwrap();
    registry
        .register(
            "guarded".to_string(),
            "guarded@example.com".to_string(),
            hash,
            "ffffffffffffffffffffffffffffffff".to_string(),
            Some(SECRET.to_string()),
        )
        .unwrap();
    Vault::assemble(registry, VaultStore::new(), 3600).unwrap()
}

#[test]
fn wrong_password_is_an_auth_error_and_issues_no_token() {
    let mut vault = vault_with_two_accounts();
    let err =
        login_with(&mut vault, "plain".to_string(), "open barley".to_string(), Some([9; 16]), 50)
            .unwrap_err();
    assert_eq!(err, VaultError::InvalidCredentials);
    assert_eq!(err.kind(), ErrorKind::AuthError);
    assert_eq!(err.message(), "Invalid username or password");
    assert_eq!(
        get_authenticated_user_id(&vault, "09090909090909090909090909090909", 50),
        Err(VaultError::InvalidToken)
    );
    let err = login(&mut vault, "plain".to_string(), "".to_string(), 50).unwrap_err();
    assert_eq!(err, VaultError::InvalidCredentials);
}

#[test]
fn unknown_username_is_refused_like_a_wrong_password() {
    let mut vault = vault_with_two_accounts();
    let err = login(&mut vault, "nobody".to_string(), "open sesame".to_string(), 50).unwrap_err();
    assert_eq!(err, VaultError::InvalidCredentials);
    assert_eq!(err.kind(), ErrorKind::AuthError);
}

#[test]
fn login_without_second_factor_returns_a_token() {
    let mut vault = vault_with_two_accounts();
    let answer = login(&mut vault, "plain".to_string(), "open sesame".to_string(), 50).unwrap();
    assert!(!answer.twofa_required);
    assert_eq!(answer.temp_user_id, None);
    assert_eq!(answer.salt, SALT);
    assert_eq!(answer.token.len(), 32);
    assert_eq!(get_authenticated_user_id(&vault, &answer.token, 50), Ok(1));
}

#[test]
fn login_with_given_entropy_spells_the_token() {
    let mut vault = vault_with_two_accounts();
    let answer = login_with(
        &mut vault,
        "plain".to_string(),
        "open sesame".to_string(),
        Some([0xa5; 16]),
        50,
    )
    .unwrap();
    assert_eq!(
        answer,
        LoginResponse {
            token: "a5a5a5a5a5a5a5a5a5a5a5a5a5a5a5a5".to_string(),
            salt: SALT.to_string(),
            twofa_required: false,
            temp_user_id: None,
        }
    );
    assert_eq!(get_authenticated_user_id(&vault, "a5a5a5a5a5a5a5a5a5a5a5a5a5a5a5a5", 3649), Ok(1));
    assert_eq!(
        get_authenticated_user_id(&vault, "a5a5a5a5a5a5a5a5a5a5a5a5a5a5a5a5", 3650),
        Err(VaultError::ExpiredToken)
    );
}

#[test]
fn login_without_random_bytes_is_a_storage_failure() {
    let mut vault = vault_with_two_accounts();
    let err = login_with(&mut vault, "plain".to_string(), "open sesame".to_string(), None, 50)
        .unwrap_err();
    assert_eq!(err, VaultError::Storage);
    assert_eq!(err.kind(), ErrorKind::StorageError);
    let owed = login_with(&mut vault, "guarded".to_string(), "open sesame".to_string(), None, 50)
        .unwrap();
    assert!(owed.twofa_required);
    let err = verify_2fa_with(&mut vault, 2, code_at(SECRET, 50), None, 50).unwrap_err();
    assert_eq!(err, VaultError::Storage);
    assert_eq!(vault.registry().find_by_id(2).unwrap().twofa_last_step, None);
}

#[test]
fn login_with_a_token_that_is_out_fails_and_keeps_the_old_session() {
    let mut vault = vault_with_two_accounts();
    login_with(&mut vault, "plain".to_string(), "open sesame".to_string(), Some([1; 16]), 50)
        .unwrap();
    let err =
        login_with(&mut vault, "plain".to_string(), "open sesame".to_string(), Some([1; 16]), 900)
            .unwrap_err();
    assert_eq!(err, VaultError::Storage);
    assert_eq!(
        get_authenticated_user_id(&vault, "01010101010101010101010101010101", 3650),
        Err(VaultError::ExpiredToken)
    );
}

#[test]
fn login_with_second_factor_returns_no_token_and_a_temporary_id() {
    let mut vault = vault_with_two_accounts();
    let answer = login(&mut vault, "guarded".to_string(), "open sesame".to_string(), 50).unwrap();
    assert_eq!(
        answer,
        LoginResponse {
            token: "".to_string(),
            salt: "ffffffffffffffffffffffffffffffff".to_string(),
            twofa_required: true,
            temp_user_id: Some(2),
        }
    );
    assert_eq!(get_authenticated_user_id(&vault, "", 50), Err(VaultError::InvalidToken));
    assert_eq!(get_authenticated_user_id(&vault, "2", 50), Err(VaultError::InvalidToken));
    assert_eq!(
        get_credentials(&vault, answer.token, 50).unwrap_err().kind(),
        ErrorKind::AuthError
    );
}

#[test]
fn second_factor_accepts_the_published_code_of_the_secret() {
    let mut vault = vault_with_two_accounts();
    let answer = verify_2fa_with(&mut vault, 2, "287082".to_string(), Some([0x3c; 16]), 59).unwrap();
    assert_eq!(
        answer,
        LoginResponse {
            token: "3c3c3c3c3c3c3c3c3c3c3c3c3c3c3c3c".to_string(),
            salt: "ffffffffffffffffffffffffffffffff".to_string(),
            twofa_required: false,
            temp_user_id: None,
        }
    );
    assert_eq!(vault.registry().find_by_id(2).unwrap().twofa_last_step, Some(1));
    assert_eq!(get_authenticated_user_id(&vault, &answer.token, 3658), Ok(2));
    assert_eq!(
        get_authenticated_user_id(&vault, &answer.token, 3659),
        Err(VaultError::ExpiredToken)
    );
}

#[test]
fn second_factor_with_the_right_code_is_as_good_as_a_direct_login() {
    let mut vault = vault_with_two_accounts();
    let now = 1_111_111_109;
    let step = login(&mut vault, "guarded".to_string(), "open sesame".to_string(), now).unwrap();
    let id = step.temp_user_id.unwrap();
    assert_eq!(code_at(SECRET, now), "081804");
    let answer = verify_2fa(&mut vault, id, "081804".to_string(), now).unwrap();
    assert!(!answer.twofa_required);
    assert_eq!(answer.temp_user_id, None);
    assert_eq!(answer.salt, "ffffffffffffffffffffffffffffffff");
    assert_eq!(answer.token.len(), 32);
    assert_eq!(get_authenticated_user_id(&vault, &answer.token, now), Ok(2));
    assert_eq!(get_authenticated_user_id(&vault, &answer.token, now + 3599), Ok(2));
    assert_eq!(
        get_authenticated_user_id(&vault, &answer.token, now + 3600),
        Err(VaultError::ExpiredToken)
    );
    assert!(get_credentials(&vault, answer.token, now + 1).unwrap().credentials.is_empty());

    let mut plain = vault_with_two_accounts();
    let direct = login(&mut plain, "plain".to_string(), "open sesame".to_string(), now).unwrap();
    assert_eq!(direct.twofa_required, false);
    assert_eq!(direct.temp_user_id, None);
    assert_eq!(get_authenticated_user_id(&plain, &direct.token, now + 3599), Ok(1));
    assert_eq!(
        get_authenticated_user_id(&plain, &direct.token, now + 3600),
        Err(VaultError::ExpiredToken)
    );
}

#[test]
fn a_code_passes_once() {
    let mut vault = vault_with_two_accounts();
    let now = 90_000;
    let code = code_at(SECRET, now);
    verify_2fa_with(&mut vault, 2, code.clone(), Some([1; 16]), now).unwrap();
    let again = verify_2fa_with(&mut vault, 2, code.clone(), Some([2; 16]), now).unwrap_err();
    assert_eq!(again, VaultError::InvalidSecondFactor);
    assert_eq!(again.kind(), ErrorKind::AuthError);
    let later = verify_2fa_with(&mut vault, 2, code.clone(), Some([3; 16]), now + 29).unwrap_err();
    assert_eq!(later, VaultError::InvalidSecondFactor);
    let earlier = verify_2fa(&mut vault, 2, code, now - 60).unwrap_err();
    assert_eq!(earlier, VaultError::InvalidSecondFactor);
    assert_eq!(
        get_authenticated_user_id(&vault, "02020202020202020202020202020202", now),
        Err(VaultError::InvalidToken)
    );
    let next = verify_2fa_with(&mut vault, 2, code_at(SECRET, now + 30), Some([4; 16]), now + 30);
    assert!(next.is_ok());
    assert_eq!(vault.registry().find_by_id(2).unwrap().twofa_last_step, Some(3001));
}

#[test]
fn codes_one_step_off_pass_and_codes_further_off_do_not() {
    let now = 90_000;
    let mut early = vault_with_two_accounts();
    assert!(verify_2fa(&mut early, 2, code_at(SECRET, now - 30), now).is_ok());
    assert_eq!(early.registry().find_by_id(2).unwrap().twofa_last_step, Some(2999));
    let mut ahead = vault_with_two_accounts();
    assert!(verify_2fa(&mut ahead, 2, code_at(SECRET, now + 30), now).is_ok());
    assert_eq!(ahead.registry().find_by_id(2).unwrap().twofa_last_step, Some(3001));
    let mut stale = vault_with_two_accounts();
    assert_eq!(
        verify_2fa(&mut stale, 2, code_at(SECRET, now - 60), now),
        Err(VaultError::InvalidSecondFactor)
    );
    let mut far = vault_with_two_accounts();
    assert_eq!(
        verify_2fa(&mut far, 2, code_at(SECRET, now + 60), now),
        Err(VaultError::InvalidSecondFactor)
    );
    assert_eq!(far.registry().find_by_id(2).unwrap().twofa_last_step, None);
}

#[test]
fn second_factor_with_a_wrong_code_is_an_auth_error_and_issues_nothing() {
    let mut vault = vault_with_two_accounts();
    let right = code_at(SECRET, 59);
    assert_eq!(right, "287082");
    let err = verify_2fa_with(&mut vault, 2, "287083".to_string(), Some([4; 16]), 59).unwrap_err();
    assert_eq!(err, VaultError::InvalidSecondFactor);
    assert_eq!(err.kind(), ErrorKind::AuthError);
    assert_eq!(err.message(), "Invalid 2FA token");
    assert_eq!(
        get_authenticated_user_id(&vault, "04040404040404040404040404040404", 59),
        Err(VaultError::InvalidToken)
    );
    for code in ["", "28708", "2870820", " 287082", "287082 ", "123456"] {
        let err = verify_2fa(&mut vault, 2, code.to_string(), 59).unwrap_err();
        assert_eq!(err, VaultError::InvalidSecondFactor);
    }
    assert_eq!(vault.registry().find_by_id(2).unwrap().twofa_last_step, None);
}

#[test]
fn the_code_depends_on_the_secret() {
    let mut vault = vault_with_two_accounts();
    let foreign = code_at("another secret of another account", 59);
    assert_ne!(foreign, "287082");
    assert_eq!(verify_2fa(&mut vault, 2, foreign, 59), Err(VaultError::InvalidSecondFactor));
}

#[test]
fn second_factor_for_an_unknown_or_unenrolled_account_is_refused() {
    let mut vault = vault_with_two_accounts();
    let unknown = verify_2fa(&mut vault, 99, code_at(SECRET, 60), 60).unwrap_err();
    assert_eq!(unknown, VaultError::InvalidSecondFactor);
    let unenrolled = verify_2fa(&mut vault, 1, code_at(SECRET, 60), 60).unwrap_err();
    assert_eq!(unenrolled, VaultError::InvalidSecondFactor);
}

#[test]
fn registered_account_logs_in_with_its_password_and_its_own_code() {
    let mut vault = Vault::new(3600);
    let registered = register_user(
        &mut vault,
        "carol".to_string(),
        "carol@example.com".to_string(),
        "s3cret".to_string(),
        10,
    )
    .unwrap();
    let answer = login(&mut vault, "carol".to_string(), "s3cret".to_string(), 20).unwrap();
    assert!(answer.twofa_required);
    assert_eq!(answer.token, "");
    assert_eq!(answer.temp_user_id, Some(1));
    assert_eq!(answer.salt, registered.salt);
    let wrong = login(&mut vault, "carol".to_string(), "S3cret".to_string(), 20).unwrap_err();
    assert_eq!(wrong, VaultError::InvalidCredentials);
    let secret = registered.twofa_secret.unwrap();
    let admitted = verify_2fa(&mut vault, 1, code_at(&secret, 30), 30).unwrap();
    assert_eq!(admitted.salt, registered.salt);
    assert_eq!(get_authenticated_user_id(&vault, &admitted.token, 30), Ok(1));
    assert_eq!(
        verify_2fa(&mut vault, 1, code_at(&secret, 30), 30),
        Err(VaultError::InvalidSecondFactor)
    );
}

#[test]
fn stored_hash_that_is_no_hash_is_refused_as_invalid_credentials() {
    let mut registry = UserRegistry::new();
    registry
        .register(
            "broken".to_string(),
            "broken@example.com".to_string(),
            "not a bcrypt hash".to_string(),
            SALT.to_string(),
            None,
        )
        .unwrap();
    let mut vault = Vault::assemble(registry, VaultStore::new(), 60).unwrap();
    let err = login(&mut vault, "broken".to_string(), "not a bcrypt hash".to_string(), 1)
        .unwrap_err();
    assert_eq!(err, VaultError::InvalidCredentials);
}

fn account(secret: Option<&str>, last: Option<u64>) -> User {
    User {
        id: 5,
        username: "u".to_string(),
        email: "u@x".to_string(),
        password_hash: "h".to_string(),
        encryption_salt: "s".to_string(),
        twofa_secret: secret.map(|s| s.to_string()),
        twofa_last_step: last,
    }
}

#[test]
fn password_step_decides_from_account_and_outcome() {
    let plain = account(None, None);
    let guarded = account(Some(SECRET), None);
    assert_eq!(check_password(Some(&plain), Ok(true)), Ok(Admission::Granted));
    assert_eq!(check_password(Some(&guarded), Ok(true)), Ok(Admission::SecondFactorRequired));
    assert_eq!(check_password(Some(&plain), Ok(false)), Err(VaultError::InvalidCredentials));
    assert_eq!(check_password(Some(&guarded), Ok(false)), Err(VaultError::InvalidCredentials));
    assert_eq!(
        check_password(Some(&plain), Err(bcrypt::BcryptError::CostNotAllowed(99))),
        Err(VaultError::InvalidCredentials)
    );
    assert_eq!(check_password(None, Ok(true)), Err(VaultError::InvalidCredentials));
    assert_eq!(check_password(None, Ok(false)), Err(VaultError::InvalidCredentials));
}

#[test]
fn second_factor_step_answers_with_the_step_of_the_code() {
    let guarded = account(Some(SECRET), None);
    let code = "287082".to_string();
    assert_eq!(check_second_factor(Some(&guarded), &code, 30), Ok(1));
    assert_eq!(check_second_factor(Some(&guarded), &code, 59), Ok(1));
    assert_eq!(check_second_factor(Some(&guarded), &code, 0), Ok(1));
    assert_eq!(check_second_factor(Some(&guarded), &code, 60), Ok(1));
    assert_eq!(check_second_factor(Some(&guarded), &code, 89), Ok(1));
    assert_eq!(check_second_factor(Some(&guarded), &code, 90), Err(VaultError::InvalidSecondFactor));
    let used = account(Some(SECRET), Some(1));
    assert_eq!(check_second_factor(Some(&used), &code, 59), Err(VaultError::InvalidSecondFactor));
    let older = account(Some(SECRET), Some(0));
    assert_eq!(check_second_factor(Some(&older), &code, 59), Ok(1));
    let plain = account(None, None);
    assert_eq!(check_second_factor(Some(&plain), &code, 59), Err(VaultError::InvalidSecondFactor));
    assert_eq!(check_second_factor(None, &code, 59), Err(VaultError::InvalidSecondFactor));
    let at_the_end = check_second_factor(Some(&guarded), &code, u64::MAX);
    assert_eq!(at_the_end, Err(VaultError::InvalidSecondFactor));
}

#[test]
fn choose_step_takes_the_latest_unused_step_whose_code_it_is() {
    let (a, b, c) = ("111111".to_string(), "222222".to_string(), "333333".to_string());
    assert_eq!(choose_step(None, 10, &c, &c, &b, Some(&a)), Some(11));
    assert_eq!(choose_step(None, 10, &b, &c, &b, Some(&a)), Some(10));
    assert_eq!(choose_step(None, 10, &a, &c, &b, Some(&a)), Some(9));
    assert_eq!(choose_step(None, 10, &"444444".to_string(), &c, &b, Some(&a)), None);
    assert_eq!(choose_step(None, 10, &a, &a, &a, Some(&a)), Some(11));
    assert_eq!(choose_step(Some(10), 10, &a, &a, &a, Some(&a)), Some(11));
    assert_eq!(choose_step(Some(11), 10, &a, &a, &a, Some(&a)), None);
    assert_eq!(choose_step(Some(9), 10, &a, &c, &b, Some(&a)), None);
    assert_eq!(choose_step(Some(9), 10, &b, &c, &b, Some(&a)), Some(10));
    assert_eq!(choose_step(Some(8), 10, &a, &c, &b, Some(&a)), Some(9));
    assert_eq!(choose_step(None, 0, &a, &c, &b, None), None);
    assert_eq!(choose_step(None, 0, &a, &c, &b, Some(&a)), None);
    assert_eq!(choose_step(None, 0, &b, &c, &b, None), Some(0));
}
