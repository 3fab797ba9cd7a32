use aegis::errors::{ErrorKind, VaultError};
use aegis::sessions::{SessionContext, TOKEN_LEN};

#[test]
fn issue_spells_the_entropy_in_lowercase_hexadecimal() {
    let mut sessions = SessionContext::new(10);
    let entropy: [u8; 16] = [
        0x00, 0x11, 0x22, 0x33, 0x44, 0x55, 0x66, 0x77, 0x88, 0x99, 0xaa, 0xbb, 0xcc, 0xdd, 0xee,
        0xff,
    ];
    let token = sessions.issue(3, entropy, 0).unwrap();
    assert_eq!(token, "00112233445566778899aabbccddeeff");
    assert_eq!(token.len(), TOKEN_LEN);
    let mixed: [u8; 16] = [
        0x0a, 0xa0, 0x09, 0x90, 0x1f, 0xf1, 0x7e, 0xe7, 0x01, 0x10, 0xfe, 0xef, 0x5c, 0xc5, 0xb6,
        0x6b,
    ];
    assert_eq!(sessions.issue(4, mixed, 0).unwrap(), "0aa009901ff17ee70110feef5cc5b66b");
}

#[test]
fn token_resolves_until_its_expiry_and_not_after() {
    let mut sessions = SessionContext::new(100);
    let token = sessions.issue(42, [1; 16], 1_000).unwrap();
    assert_eq!(sessions.resolve(&token, 1_000), Ok(42));
    assert_eq!(sessions.resolve(&token, 1_099), Ok(42));
    assert_eq!(sessions.resolve(&token, 1_100), Err(VaultError::ExpiredToken));
    assert_eq!(sessions.resolve(&token, u64::MAX), Err(VaultError::ExpiredToken));
    assert_eq!(sessions.resolve(&token, 0), Ok(42));
    assert_eq!(VaultError::ExpiredToken.kind(), ErrorKind::AuthError);
}

#[test]
fn token_with_no_lifetime_is_expired_at_once() {
    let mut sessions = SessionContext::new(0);
    let token = sessions.issue(1, [1; 16], 50).unwrap();
    assert_eq!(sessions.resolve(&token, 50), Err(VaultError::ExpiredToken));
    assert_eq!(sessions.resolve(&token, 49), Ok(1));
}

#[test]
fn expiry_stops_at_the_end_of_time() {
    let mut sessions = SessionContext::new(u64::MAX);
    let token = sessions.issue(1, [1; 16], 5).unwrap();
    assert_eq!(sessions.resolve(&token, u64::MAX - 1), Ok(1));
    assert_eq!(sessions.resolve(&token, u64::MAX), Err(VaultError::ExpiredToken));
    let mut edge = SessionContext::new(10);
    let token = edge.issue(1, [2; 16], u64::MAX - 10).unwrap();
    assert_eq!(edge.resolve(&token, u64::MAX - 1), Ok(1));
    assert_eq!(edge.resolve(&token, u64::MAX), Err(VaultError::ExpiredToken));
}

#[test]
fn token_that_was_never_issued_is_invalid() {
    let mut sessions = SessionContext::new(100);
    sessions.issue(1, [1; 16], 0).unwrap();
    for token in ["", "0101", "01010101010101010101010101010102", "0101010101010101010101010101010101"]
    {
        assert_eq!(sessions.resolve(&token.to_string(), 1), Err(VaultError::InvalidToken));
    }
    assert_eq!(VaultError::InvalidToken.kind(), ErrorKind::AuthError);
}

#[test]
fn same_token_is_not_issued_twice() {
    let mut sessions = SessionContext::new(100);
    let token = sessions.issue(1, [9; 16], 0).unwrap();
    assert_eq!(sessions.issue(2, [9; 16], 50), Err(VaultError::Storage));
    assert_eq!(sessions.resolve(&token, 99), Ok(1));
    assert_eq!(sessions.resolve(&token, 100), Err(VaultError::ExpiredToken));
    let other = sessions.issue(2, [8; 16], 50).unwrap();
    assert_eq!(sessions.resolve(&other, 149), Ok(2));
}
