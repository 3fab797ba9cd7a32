//! The outside primitives the vault relies on: password hashing, random
//! bytes, hexadecimal text and one-time codes. Each function here calls
//! into another crate, and its contract is taken on trust from that crate's
//! source.

use vstd::prelude::*;

verus! {

/// The work factor every password of the vault is hashed with.
pub const HASH_COST: u32 = 10;

/// How many seconds one second-factor code stands for.
pub const CODE_PERIOD: u64 = 30;

/// How many digits a second-factor code has.
pub const CODE_DIGITS: u32 = 6;

/// The failure type of the `bcrypt` crate, carried through unopened.
#[verifier::external_type_specification]
#[verifier::external_body]
pub struct ExBcryptError(bcrypt::BcryptError);

/// What `bcrypt::verify` answers for a password and a stored hash: `Some`
/// of its verdict where it gives one, `None` where it fails because the
/// text is no bcrypt hash or names a cost outside 4 to 31.
pub uninterp spec fn bcrypt_verdict(password: Seq<char>, hash: Seq<char>) -> Option<bool>;

/// The password is the one the stored hash was made from.
pub open spec fn password_matches(password: Seq<char>, hash: Seq<char>) -> bool {
    bcrypt_verdict(password, hash) == Some(true)
}

/// The one-time code that `totp_lite::totp_custom` with SHA-1 gives for a
/// secret, a number of digits and a time step, the time step being the
/// moment divided by the period.
pub uninterp spec fn totp_text(secret: Seq<char>, digits: int, step: int) -> Seq<char>;

/// The decimal digit for a number below ten.
pub open spec fn decimal_digit(n: int) -> char {
    hex_digits()[n]
}

/// The text has the shape of a bcrypt hash made at `cost`: sixty
/// characters that begin with `$2b$`, the cost in two decimal digits and
/// another `$`.
pub open spec fn names_cost(hash: Seq<char>, cost: int) -> bool {
    &&& hash.len() == 60
    &&& hash[0] == '$'
    &&& hash[1] == '2'
    &&& hash[2] == 'b'
    &&& hash[3] == '$'
    &&& hash[4] == decimal_digit(cost / 10)
    &&& hash[5] == decimal_digit(cost % 10)
    &&& hash[6] == '$'
}

/// The sixteen digits of lowercase hexadecimal text.
pub open spec fn hex_digits() -> Seq<char> {
    seq!['0', '1', '2', '3', '4', '5', '6', '7', '8', '9', 'a', 'b', 'c', 'd', 'e', 'f']
}

/// Two lowercase hexadecimal digits for each byte, high digit first.
pub open spec fn hex_string(bytes: Seq<u8>) -> Seq<char> {
    Seq::new(
        2 * bytes.len(),
        |i: int|
            if i % 2 == 0 {
                hex_digits()[bytes[i / 2] as int / 16]
            } else {
                hex_digits()[bytes[i / 2] as int % 16]
            },
    )
}

/// The text spells sixteen bytes in lowercase hexadecimal, as every salt
/// and every session token of the vault does.
pub open spec fn spells_entropy(text: Seq<char>) -> bool {
    exists|bytes: Seq<u8>| bytes.len() == 16 && text == #[trigger] hex_string(bytes)
}

/// The text that drawn bytes spell, where bytes were drawn.
pub open spec fn spelled(entropy: Option<[u8; 16]>) -> Option<Seq<char>> {
    match entropy {
        Some(bytes) => Some(hex_string(bytes@)),
        None => None,
    }
}

/// Calls `bcrypt::verify`, which reads cost and salt out of the hash,
/// hashes the password with them and compares. Trusted: the answer depends
/// on the password and the hash alone, and it does not panic on any text.
#[verifier::external_body]
pub(crate) fn verify_password(password: &String, hash: &String) -> (r: Result<
    bool,
    bcrypt::BcryptError,
>)
    ensures
        match r {
            Ok(same) => bcrypt_verdict(password@, hash@) == Some(same),
            Err(_) => bcrypt_verdict(password@, hash@).is_none(),
        },
{
    bcrypt::verify(password, hash.as_str())
}

/// Calls `bcrypt::hash`, which salts the password with bytes from the
/// operating system. It refuses a cost outside 4 to 31, so none is handed
/// to it. Trusted: a hash that comes back is one that `bcrypt::verify`
/// accepts for the same password, as that crate's own tests have it, and it
/// is written as `$2b$`, the cost in two digits, `$`, and fifty-three
/// characters of salt and digest. Nothing is promised about when one comes
/// back: the source of random bytes may fail.
#[verifier::external_body]
pub(crate) fn hash_password(password: &String, cost: u32) -> (r: Result<
    String,
    bcrypt::BcryptError,
>)
    requires
        4 <= cost <= 31,
    ensures
        r matches Ok(hash) ==> password_matches(password@, hash@) && names_cost(
            hash@,
            cost as int,
        ),
{
    bcrypt::hash(password, cost)
}

/// Calls `try_fill_bytes` on `rand::rngs::OsRng` for sixteen bytes, which
/// asks the operating system and reports its failure instead of
/// panicking. Nothing is claimed of the bytes: every value of the array
/// may come back, and none may.
#[verifier::external_body]
pub(crate) fn random_bytes() -> (bytes: Option<[u8; 16]>) {
    let mut bytes = [0u8; 16];
    match rand::RngCore::try_fill_bytes(&mut rand::rngs::OsRng, &mut bytes) {
        Ok(()) => Some(bytes),
        Err(_) => None,
    }
}

/// Calls `hex::encode`. Trusted: the text holds two lowercase hexadecimal
/// digits for each byte, in order.
#[verifier::external_body]
pub(crate) fn hex_encode(bytes: &[u8; 16]) -> (text: String)
    ensures
        text@ == hex_string(bytes@),
{
    hex::encode(bytes)
}

/// Calls `totp_lite::totp_custom` with SHA-1, keyed by the bytes of the
/// secret text. It divides by the period and raises ten to the number of
/// digits, so a period of zero and more than nineteen digits are kept from
/// it. Trusted: the code depends on the secret, the number of digits and
/// the time step alone, the moment and the period entering only as their
/// quotient.
#[verifier::external_body]
pub(crate) fn one_time_code(secret: &String, period: u64, digits: u32, moment: u64) -> (code:
    String)
    requires
        period > 0,
        digits <= 19,
    ensures
        code@ == totp_text(secret@, digits as int, moment as int / period as int),
{
    totp_lite::totp_custom::<totp_lite::Sha1>(period, digits, secret.as_bytes(), moment)
}

} // verus!
