//! The login gate: what a password check and a second-factor code lead to.
//!
//! An attempt starts unauthenticated. A matching password admits the account
//! at once when no second factor is enrolled, and otherwise leaves it waiting
//! for the code. An accepted code admits it. Everything else is a refusal.
//!
//! A second-factor code is a time-based one-time code keyed by the
//! account's own secret. Time is cut into steps of thirty seconds. A code
//! is accepted for the present step, the one before and the one after, and
//! only for a step later than the latest one the account has used: no code
//! passes twice.

use crate::crypto::{one_time_code, totp_text, CODE_DIGITS, CODE_PERIOD};
use crate::errors::{widened_step, VaultError};
use crate::users::{opt_step, User, UserView};
use vstd::prelude::*;

verus! {

/// How far a login has come once a step has let it pass.
#[derive(Clone, Copy, Debug, PartialEq, Eq, Structural)]
pub enum Admission {
    /// Authenticated: a session token is due.
    Granted,
    /// The password matched; the second-factor code is still owed.
    SecondFactorRequired,
}

/// The view of an optional account.
pub open spec fn opt_user(user: Option<&User>) -> Option<UserView> {
    match user {
        Some(u) => Some(u@),
        None => None,
    }
}

/// The password step. `user` is the account found under the username and
/// `matched` says whether the password was found to match its stored hash.
/// An unknown username and a password that did not match are refused alike.
pub open spec fn password_step(user: Option<UserView>, matched: bool) -> Result<
    Admission,
    VaultError,
> {
    match user {
        None => Err(VaultError::InvalidCredentials),
        Some(u) => if !matched {
            Err(VaultError::InvalidCredentials)
        } else if u.twofa_secret is Some {
            Ok(Admission::SecondFactorRequired)
        } else {
            Ok(Admission::Granted)
        },
    }
}

/// The time step a moment falls into.
pub open spec fn time_step(now: int) -> int {
    now / CODE_PERIOD as int
}

/// A time step is still unused: later than the latest one that was used.
pub open spec fn unused(last: Option<int>, step: int) -> bool {
    last matches Some(used) ==> step > used
}

/// The time step a code is accepted for, given the codes that are right
/// for the step after the present one, for the present one and, unless
/// the present one is the first, for the one before. The latest unused
/// step whose code it is wins; a code that is right for none of them, or
/// only for used ones, is accepted for none.
pub open spec fn pick_step(
    last: Option<int>,
    current: int,
    code: Seq<char>,
    right_next: Seq<char>,
    right_now: Seq<char>,
    right_before: Option<Seq<char>>,
) -> Option<int> {
    if unused(last, current + 1) && code == right_next {
        Some(current + 1)
    } else if unused(last, current) && code == right_now {
        Some(current)
    } else if current >= 1 && right_before == Some(code) && unused(last, current - 1) {
        Some(current - 1)
    } else {
        None
    }
}

/// The time step for which `code` is accepted at the moment `now` for an
/// account with this secret and this latest used step.
pub open spec fn accepted_step(secret: Seq<char>, last: Option<int>, code: Seq<char>, now: int)
    -> Option<int> {
    let current = time_step(now);
    pick_step(
        last,
        current,
        code,
        totp_text(secret, CODE_DIGITS as int, current + 1),
        totp_text(secret, CODE_DIGITS as int, current),
        if current >= 1 {
            Some(totp_text(secret, CODE_DIGITS as int, current - 1))
        } else {
            None
        },
    )
}

/// The second-factor step. `user` is the account found under the temporary
/// id. The code passes only for an account that has a secret enrolled, only
/// when it is the one-time code of that secret for a time step within one
/// step of `now`, and only when that step is later than the latest one the
/// account has used. What passes is answered with the step it passed for.
pub open spec fn second_factor_step(user: Option<UserView>, code: Seq<char>, now: int) -> Result<
    int,
    VaultError,
> {
    match user {
        None => Err(VaultError::InvalidSecondFactor),
        Some(u) => match u.twofa_secret {
            None => Err(VaultError::InvalidSecondFactor),
            Some(secret) => match accepted_step(secret, u.twofa_last_step, code, now) {
                Some(step) => Ok(step),
                None => Err(VaultError::InvalidSecondFactor),
            },
        },
    }
}

/// Decides the password step from the account found and the outcome of
/// comparing the password with its stored hash. Only `Ok(true)` counts as a
/// match: a mismatch and a hash that could not be read are refused alike.
pub fn check_password(user: Option<&User>, outcome: Result<bool, bcrypt::BcryptError>) -> (r:
    Result<Admission, VaultError>)
    ensures
        r == password_step(opt_user(user), outcome matches Ok(true)),
{
    match user {
        None => Err(VaultError::InvalidCredentials),
        Some(u) => match outcome {
            Ok(true) => {
                if u.twofa_secret.is_some() {
                    Ok(Admission::SecondFactorRequired)
                } else {
                    Ok(Admission::Granted)
                }
            },
            _ => Err(VaultError::InvalidCredentials),
        },
    }
}

/// Whether a time step is later than the latest one that was used.
fn is_unused(last: Option<u64>, step: u64) -> (free: bool)
    ensures
        free == unused(opt_step(last), step as int),
{
    match last {
        Some(used) => step > used,
        None => true,
    }
}

/// Picks the time step a code is accepted for from the codes that are
/// right for the steps around `current`.
pub fn choose_step(
    last: Option<u64>,
    current: u64,
    code: &String,
    right_next: &String,
    right_now: &String,
    right_before: Option<&String>,
) -> (step: Option<u64>)
    requires
        current < u64::MAX,
    ensures
        opt_step(step) == pick_step(
            opt_step(last),
            current as int,
            code@,
            right_next@,
            right_now@,
            match right_before {
                Some(text) => Some(text@),
                None => None,
            },
        ),
        step matches Some(s) ==> current <= s + 1 && s <= current + 1,
{
    if is_unused(last, current + 1) && *code == *right_next {
        return Some(current + 1);
    }
    if is_unused(last, current) && *code == *right_now {
        return Some(current);
    }
    match right_before {
        Some(text) => {
            if current >= 1 && *code == *text && is_unused(last, current - 1) {
                Some(current - 1)
            } else {
                None
            }
        },
        None => None,
    }
}

/// Decides the second-factor step from the account found, the code
/// presented and the present moment, and answers with the time step the
/// code was accepted for.
pub fn check_second_factor(user: Option<&User>, code: &String, now: u64) -> (r: Result<
    u64,
    VaultError,
>)
    ensures
        widened_step(r) == second_factor_step(opt_user(user), code@, now as int),
{
    let account = match user {
        Some(u) => u,
        None => {
            return Err(VaultError::InvalidSecondFactor);
        },
    };
    let secret = match &account.twofa_secret {
        Some(s) => s,
        None => {
            return Err(VaultError::InvalidSecondFactor);
        },
    };
    let current = now / CODE_PERIOD;
    let right_next = one_time_code(secret, 1, CODE_DIGITS, current + 1);
    let right_now = one_time_code(secret, 1, CODE_DIGITS, current);
    let picked = if current >= 1 {
        let right_before = one_time_code(secret, 1, CODE_DIGITS, current - 1);
        choose_step(
            account.twofa_last_step,
            current,
            code,
            &right_next,
            &right_now,
            Some(&right_before),
        )
    } else {
        choose_step(account.twofa_last_step, current, code, &right_next, &right_now, None)
    };
    match picked {
        Some(step) => Ok(step),
        None => Err(VaultError::InvalidSecondFactor),
    }
}

} // verus!
