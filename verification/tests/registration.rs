use aegis::errors::{ErrorKind, VaultError};
use aegis::users::{User, UserRegistry};
use aegis::vault::{get_authenticated_user_id, register_user, register_with, Vault};

fn is_lower_hex(text: &str) -> bool {
    text.chars().all(|c| c.is_ascii_digit() || ('a'..='f').contains(&c))
}

#[test]
fn registration_answers_with_token_salt_and_enrolment_secret() {
    let mut vault = Vault::new(3600);
    let answer = register_user(
        &mut vault,
        "alice".to_string(),
        "alice@example.com".to_string(),
        "correct horse".to_string(),
        1_000,
    )
    .unwrap();
    assert_eq!(answer.salt.len(), 32);
    assert!(is_lower_hex(&answer.salt));
    assert_eq!(answer.token.len(), 32);
    assert!(is_lower_hex(&answer.token));
    let secret = answer.twofa_secret.unwrap();
    assert_eq!(secret.len(), 32);
    assert!(is_lower_hex(&secret));
    assert_ne!(secret, answer.salt);
    assert_ne!(secret, answer.token);
}

#[test]
fn registration_stores_a_bcrypt_hash_and_never_the_password() {
    let mut vault = Vault::new(3600);
    let answer = register_user(
        &mut vault,
        "alice".to_string(),
        "alice@example.com".to_string(),
        "correct horse".to_string(),
        1_000,
    )
    .unwrap();
    let user = vault.registry().find_by_username(&"alice".to_string()).unwrap();
    assert_eq!(user.id, 1);
    assert_eq!(user.email, "alice@example.com");
    assert_ne!(user.password_hash, "correct horse");
    assert!(user.password_hash.starts_with("$2b$10$"));
    assert_eq!(user.password_hash.len(), 60);
    assert!(bcrypt::verify("correct horse", &user.password_hash).unwrap());
    assert!(!bcrypt::verify("wrong horse", &user.password_hash).unwrap());
    assert_eq!(user.twofa_secret, answer.twofa_secret);
    assert_eq!(user.twofa_last_step, None);
    assert_ne!(user.password_hash, answer.salt);
    assert_ne!(user.password_hash, answer.token);
    assert_ne!(Some(user.password_hash.clone()), answer.twofa_secret);
}

#[test]
fn registration_token_speaks_for_the_new_account() {
    let mut vault = Vault::new(3600);
    let answer = register_user(
        &mut vault,
        "alice".to_string(),
        "alice@example.com".to_string(),
        "pw".to_string(),
        1_000,
    )
    .unwrap();
    assert_eq!(get_authenticated_user_id(&vault, &answer.token, 1_000), Ok(1));
    assert_eq!(get_authenticated_user_id(&vault, &answer.token, 4_599), Ok(1));
    assert_eq!(
        get_authenticated_user_id(&vault, &answer.token, 4_600),
        Err(VaultError::ExpiredToken)
    );
}

#[test]
fn salts_of_two_accounts_differ() {
    let mut vault = Vault::new(3600);
    let a = register_user(
        &mut vault,
        "alice".to_string(),
        "alice@example.com".to_string(),
        "pw".to_string(),
        1,
    )
    .unwrap();
    let b = register_user(
        &mut vault,
        "bob".to_string(),
        "bob@example.com".to_string(),
        "pw".to_string(),
        2,
    )
    .unwrap();
    assert_ne!(a.salt, b.salt);
    assert_ne!(a.token, b.token);
    assert_ne!(a.twofa_secret, b.twofa_secret);
    let alice = vault.registry().find_by_username(&"alice".to_string()).unwrap();
    let bob = vault.registry().find_by_username(&"bob".to_string()).unwrap();
    assert_eq!((alice.id, bob.id), (1, 2));
    assert_eq!(alice.encryption_salt, a.salt);
    assert_eq!(bob.encryption_salt, b.salt);
    assert_ne!(alice.password_hash, bob.password_hash);
}

#[test]
fn same_username_twice_is_a_validation_error_and_leaves_the_first_row() {
    let mut vault = Vault::new(3600);
    register_user(
        &mut vault,
        "alice".to_string(),
        "alice@example.com".to_string(),
        "first".to_string(),
        10,
    )
    .unwrap();
    let before = vault.registry().find_by_username(&"alice".to_string()).unwrap().clone();

    let err = register_user(
        &mut vault,
        "alice".to_string(),
        "other@example.com".to_string(),
        "second".to_string(),
        20,
    )
    .unwrap_err();
    assert_eq!(err, VaultError::DuplicateUser);
    assert_eq!(err.kind(), ErrorKind::ValidationError);
    assert_eq!(err.message(), "Username or email already exists");

    let after = vault.registry().find_by_username(&"alice".to_string()).unwrap();
    assert_eq!(*after, before);
    assert_eq!(vault.registry().users().len(), 1);
    assert_eq!(vault.registry().next_id(), 2);
    assert!(bcrypt::verify("first", &after.password_hash).unwrap());
}

#[test]
fn same_email_under_another_username_is_a_validation_error() {
    let mut vault = Vault::new(3600);
    register_user(
        &mut vault,
        "alice".to_string(),
        "shared@example.com".to_string(),
        "first".to_string(),
        10,
    )
    .unwrap();
    let err = register_user(
        &mut vault,
        "bob".to_string(),
        "shared@example.com".to_string(),
        "second".to_string(),
        20,
    )
    .unwrap_err();
    assert_eq!(err, VaultError::DuplicateUser);
    assert_eq!(err.kind(), ErrorKind::ValidationError);
    assert!(vault.registry().find_by_username(&"bob".to_string()).is_none());
    assert_eq!(vault.registry().users().len(), 1);
}

#[test]
fn usernames_are_compared_letter_for_letter() {
    let mut vault = Vault::new(3600);
    register_user(&mut vault, "alice".to_string(), "a@example.com".to_string(), "x".to_string(), 1)
        .unwrap();
    register_user(&mut vault, "Alice".to_string(), "b@example.com".to_string(), "x".to_string(), 2)
        .unwrap();
    assert_eq!(vault.registry().users().len(), 2);
}

#[test]
fn register_with_spells_salt_and_token_in_hexadecimal() {
    let mut vault = Vault::new(60);
    let salt_bytes: [u8; 16] =
        [0x00, 0x01, 0x0f, 0x10, 0x7f, 0x80, 0xab, 0xcd, 0xef, 0xff, 0x12, 0x34, 0x56, 0x78, 0x9a, 0xbc];
    let token_bytes: [u8; 16] = [0xde; 16];
    let answer = register_with(
        &mut vault,
        "alice".to_string(),
        "alice@example.com".to_string(),
        "stored-hash".to_string(),
        salt_bytes,
        [0x5e; 16],
        token_bytes,
        500,
    )
    .unwrap();
    assert_eq!(answer.salt, "00010f107f80abcdefff123456789abc");
    assert_eq!(answer.token, "dededededededededededededededede");
    assert_eq!(answer.twofa_secret, Some("5e5e5e5e5e5e5e5e5e5e5e5e5e5e5e5e".to_string()));
    let user = vault.registry().find_by_id(1).unwrap();
    assert_eq!(
        *user,
        User {
            id: 1,
            username: "alice".to_string(),
            email: "alice@example.com".to_string(),
            password_hash: "stored-hash".to_string(),
            encryption_salt: "00010f107f80abcdefff123456789abc".to_string(),
            twofa_secret: Some("5e5e5e5e5e5e5e5e5e5e5e5e5e5e5e5e".to_string()),
            twofa_last_step: None,
        }
    );
    assert_eq!(get_authenticated_user_id(&vault, "dededededededededededededededede", 559), Ok(1));
    assert_eq!(
        get_authenticated_user_id(&vault, "dededededededededededededededede", 560),
        Err(VaultError::ExpiredToken)
    );
}

#[test]
fn register_with_a_token_that_is_out_changes_nothing() {
    let mut vault = Vault::new(60);
    register_with(
        &mut vault,
        "alice".to_string(),
        "alice@example.com".to_string(),
        "h1".to_string(),
        [1; 16],
        [3; 16],
        [7; 16],
        0,
    )
    .unwrap();
    let err = register_with(
        &mut vault,
        "bob".to_string(),
        "bob@example.com".to_string(),
        "h2".to_string(),
        [2; 16],
        [4; 16],
        [7; 16],
        0,
    )
    .unwrap_err();
    assert_eq!(err, VaultError::Storage);
    assert_eq!(err.kind(), ErrorKind::StorageError);
    assert_eq!(vault.registry().users().len(), 1);
    assert_eq!(vault.registry().next_id(), 2);
    assert!(vault.registry().find_by_username(&"bob".to_string()).is_none());
}

#[test]
fn duplicate_is_reported_before_a_token_clash() {
    let mut vault = Vault::new(60);
    register_with(
        &mut vault,
        "alice".to_string(),
        "alice@example.com".to_string(),
        "h1".to_string(),
        [1; 16],
        [3; 16],
        [7; 16],
        0,
    )
    .unwrap();
    let err = register_with(
        &mut vault,
        "alice".to_string(),
        "new@example.com".to_string(),
        "h2".to_string(),
        [2; 16],
        [4; 16],
        [7; 16],
        0,
    )
    .unwrap_err();
    assert_eq!(err, VaultError::DuplicateUser);
}

#[test]
fn registry_register_hands_out_ids_in_order() {
    let mut registry = UserRegistry::new();
    assert_eq!(registry.next_id(), 1);
    let a = registry
        .register("a".to_string(), "a@x".to_string(), "h".to_string(), "s".to_string(), None)
        .unwrap();
    let b = registry
        .register(
            "b".to_string(),
            "b@x".to_string(),
            "h".to_string(),
            "s".to_string(),
            Some("secret".to_string()),
        )
        .unwrap();
    assert_eq!((a.id, b.id), (1, 2));
    assert_eq!(a.twofa_secret, None);
    assert_eq!(b.twofa_secret, Some("secret".to_string()));
    assert_eq!(registry.next_id(), 3);
    assert!(registry.is_taken(&"a".to_string(), &"nobody@x".to_string()));
    assert!(registry.is_taken(&"nobody".to_string(), &"b@x".to_string()));
    assert!(!registry.is_taken(&"nobody".to_string(), &"nobody@x".to_string()));
    assert_eq!(registry.find_by_id(2).unwrap().username, "b");
    assert!(registry.find_by_id(3).is_none());
    assert!(registry.find_by_id(0).is_none());
}

#[test]
fn registry_refuses_when_ids_have_run_out() {
    let mut registry = UserRegistry::restore(Vec::new(), i32::MAX).unwrap();
    let err = registry
        .register("a".to_string(), "a@x".to_string(), "h".to_string(), "s".to_string(), None)
        .unwrap_err();
    assert_eq!(err, VaultError::Storage);
    assert_eq!(registry.users().len(), 0);
    assert_eq!(registry.next_id(), i32::MAX);
}

fn stored(id: i32, username: &str, email: &str) -> User {
    User {
        id,
        username: username.to_string(),
        email: email.to_string(),
        password_hash: "h".to_string(),
        encryption_salt: "s".to_string(),
        twofa_secret: None,
        twofa_last_step: None,
    }
}

#[test]
fn registry_restore_accepts_well_formed_rows() {
    let registry =
        UserRegistry::restore(vec![stored(3, "c", "c@x"), stored(1, "a", "a@x")], 7).unwrap();
    assert_eq!(registry.next_id(), 7);
    assert_eq!(registry.users().len(), 2);
    assert_eq!(registry.find_by_username(&"a".to_string()).unwrap().id, 1);
    assert_eq!(registry.find_by_id(3).unwrap().email, "c@x");
}

#[test]
fn registry_restore_refuses_rows_that_break_uniqueness_or_range() {
    let twice_id = UserRegistry::restore(vec![stored(1, "a", "a@x"), stored(1, "b", "b@x")], 5);
    assert_eq!(twice_id.unwrap_err(), VaultError::Storage);
    let twice_name = UserRegistry::restore(vec![stored(1, "a", "a@x"), stored(2, "a", "b@x")], 5);
    assert_eq!(twice_name.unwrap_err(), VaultError::Storage);
    let twice_email = UserRegistry::restore(vec![stored(1, "a", "a@x"), stored(2, "b", "a@x")], 5);
    assert_eq!(twice_email.unwrap_err(), VaultError::Storage);
    let id_too_high = UserRegistry::restore(vec![stored(5, "a", "a@x")], 5);
    assert_eq!(id_too_high.unwrap_err(), VaultError::Storage);
    let id_too_low = UserRegistry::restore(vec![stored(0, "a", "a@x")], 5);
    assert_eq!(id_too_low.unwrap_err(), VaultError::Storage);
    let no_next = UserRegistry::restore(Vec::new(), 0);
    assert_eq!(no_next.unwrap_err(), VaultError::Storage);
}
