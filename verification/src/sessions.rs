//! Session tokens: issued after a successful authentication, bound to one
//! account, valid for a fixed lifetime.

use crate::crypto::{hex_encode, hex_string};
use crate::errors::{viewed, widened, VaultError};
use vstd::prelude::*;

verus! {

/// The number of characters of every session token.
pub const TOKEN_LEN: usize = 32;

/// One issued token.
#[derive(Debug, PartialEq, Eq)]
pub struct Session {
    /// Thirty-two hexadecimal digits.
    pub token: String,
    /// The account the token speaks for.
    pub user_id: i32,
    /// The first moment at which the token is no longer accepted.
    pub expires_at: u64,
}

/// An issued token as the contracts see it.
pub struct SessionView {
    pub token: Seq<char>,
    pub user_id: int,
    pub expires_at: int,
}

impl View for Session {
    type V = SessionView;

    open spec fn view(&self) -> SessionView {
        SessionView {
            token: self.token@,
            user_id: self.user_id as int,
            expires_at: self.expires_at as int,
        }
    }
}

/// The moment a token issued at `now` stops being accepted: `ttl` later, or
/// at the end of time where that cannot be represented.
pub open spec fn expiry(now: int, ttl: int) -> int {
    if now + ttl > u64::MAX {
        u64::MAX as int
    } else {
        now + ttl
    }
}

/// The issued tokens as the contracts see them.
pub struct SessionsView {
    /// The tokens, oldest first.
    pub sessions: Seq<SessionView>,
    /// How long a token is accepted after it was issued.
    pub ttl: int,
}

impl SessionsView {
    /// No token was issued twice, and every token has the fixed length.
    pub open spec fn wf(self) -> bool {
        &&& 0 <= self.ttl <= u64::MAX
        &&& forall|i: int|
            0 <= i < self.sessions.len() ==> (#[trigger] self.sessions[i]).token.len() == TOKEN_LEN
        &&& forall|i: int, j: int|
            0 <= i < j < self.sessions.len() ==> (#[trigger] self.sessions[i]).token != (
            #[trigger] self.sessions[j]).token
    }

    /// The session this token was issued for, if it was issued.
    pub open spec fn by_token(self, token: Seq<char>) -> Option<SessionView> {
        if exists|i: int| 0 <= i < self.sessions.len() && (#[trigger] self.sessions[i]).token == token {
            Some(
                self.sessions[choose|i: int|
                    0 <= i < self.sessions.len() && (#[trigger] self.sessions[i]).token == token],
            )
        } else {
            None
        }
    }

    /// In a well-formed table the session found under a token is the only
    /// one with that token.
    pub proof fn lemma_by_token(self, at: int)
        requires
            self.wf(),
            0 <= at < self.sessions.len(),
        ensures
            self.by_token(self.sessions[at].token) == Some(self.sessions[at]),
    {
        let token = self.sessions[at].token;
        let chosen = choose|i: int|
            0 <= i < self.sessions.len() && (#[trigger] self.sessions[i]).token == token;
        if chosen < at {
            assert(self.sessions[chosen].token != self.sessions[at].token);
        }
        if at < chosen {
            assert(self.sessions[at].token != self.sessions[chosen].token);
        }
    }

    /// Whom a token speaks for at the moment `now`: nobody when it was never
    /// issued, nobody once its lifetime is over.
    pub open spec fn resolve(self, token: Seq<char>, now: int) -> Result<int, VaultError> {
        match self.by_token(token) {
            None => Err(VaultError::InvalidToken),
            Some(session) => if now < session.expires_at {
                Ok(session.user_id)
            } else {
                Err(VaultError::ExpiredToken)
            },
        }
    }

    /// The table with one more session, issued at `now`.
    pub open spec fn with_session(self, user_id: int, token: Seq<char>, now: int) -> SessionsView {
        SessionsView {
            sessions: self.sessions.push(
                SessionView { token, user_id, expires_at: expiry(now, self.ttl) },
            ),
            ttl: self.ttl,
        }
    }

    /// After a token that was not out was issued, it speaks for its account
    /// at every moment before its expiry and is expired from then on.
    pub proof fn lemma_issued(self, user_id: int, token: Seq<char>, now: int, at: int)
        requires
            self.wf(),
            self.by_token(token).is_none(),
        ensures
            self.with_session(user_id, token, now).resolve(token, at) == if at < expiry(
                now,
                self.ttl,
            ) {
                Ok::<int, VaultError>(user_id)
            } else {
                Err::<int, VaultError>(VaultError::ExpiredToken)
            },
    {
        let after = self.with_session(user_id, token, now);
        let last = self.sessions.len() as int;
        assert(after.sessions[last].token == token);
        let chosen = choose|i: int|
            0 <= i < after.sessions.len() && (#[trigger] after.sessions[i]).token == token;
        if chosen < last {
            assert(self.sessions[chosen].token == token);
        }
    }

    /// What issuing `token` for an account at the moment `now` does, as
    /// the table afterwards and the answer: refused, with the table as it
    /// was, when the same token is already out, otherwise recorded with its
    /// expiry and handed back.
    pub open spec fn issue(self, user_id: int, token: Seq<char>, now: int) -> (
        SessionsView,
        Result<Seq<char>, VaultError>,
    ) {
        if self.by_token(token) is Some {
            (self, Err(VaultError::Storage))
        } else {
            (self.with_session(user_id, token, now), Ok(token))
        }
    }
}

/// The tokens the vault has issued.
#[derive(Debug)]
pub struct SessionContext {
    sessions: Vec<Session>,
    ttl: u64,
}

impl View for SessionContext {
    type V = SessionsView;

    closed spec fn view(&self) -> SessionsView {
        SessionsView { sessions: self.sessions@.map_values(|s: Session| s@), ttl: self.ttl as int }
    }
}

impl SessionContext {
    /// The invariant of the session table.
    pub open spec fn wf(&self) -> bool {
        self@.wf()
    }

    /// A table without tokens whose tokens will live for `ttl`.
    pub fn new(ttl: u64) -> (context: Self)
        ensures
            context.wf(),
            context@.sessions.len() == 0,
            context@.ttl == ttl,
    {
        SessionContext { sessions: Vec::new(), ttl }
    }

    /// The account a token speaks for at the moment `now`.
    pub fn resolve(&self, token: &String, now: u64) -> (r: Result<i32, VaultError>)
        requires
            self.wf(),
        ensures
            self@.resolve(token@, now as int) == widened(r),
    {
        let mut i: usize = 0;
        while i < self.sessions.len()
            invariant
                self.wf(),
                i <= self.sessions.len(),
                forall|k: int| 0 <= k < i ==> (#[trigger] self@.sessions[k]).token != token@,
            decreases self.sessions.len() - i,
        {
            if self.sessions[i].token == *token {
                proof {
                    self@.lemma_by_token(i as int);
                }
                if now < self.sessions[i].expires_at {
                    return Ok(self.sessions[i].user_id);
                }
                return Err(VaultError::ExpiredToken);
            }
            i = i + 1;
        }
        Err(VaultError::InvalidToken)
    }

    /// Issues the token spelled by `entropy` for an account, valid from `now`
    /// for the lifetime of the table. Refused, with the table unchanged, when
    /// that token is already out.
    pub fn issue(&mut self, user_id: i32, entropy: [u8; 16], now: u64) -> (r: Result<
        String,
        VaultError,
    >)
        requires
            old(self).wf(),
        ensures
            final(self).wf(),
            old(self)@.issue(user_id as int, hex_string(entropy@), now as int) == (
                final(self)@,
                viewed(r),
            ),
    {
        let token = hex_encode(&entropy);
        if self.holds(&token) {
            return Err(VaultError::Storage);
        }
        let expires_at = if now > u64::MAX - self.ttl {
            u64::MAX
        } else {
            now + self.ttl
        };
        let session = Session { token: token.clone(), user_id, expires_at };
        self.sessions.push(session);
        proof {
            assert(self@.sessions =~= old(self)@.sessions.push(session@));
        }
        Ok(token)
    }

    /// Whether this token is out, expired or not.
    fn holds(&self, token: &String) -> (held: bool)
        requires
            self.wf(),
        ensures
            held == (self@.by_token(token@) is Some),
    {
        let mut i: usize = 0;
        while i < self.sessions.len()
            invariant
                i <= self.sessions.len(),
                forall|k: int| 0 <= k < i ==> (#[trigger] self@.sessions[k]).token != token@,
            decreases self.sessions.len() - i,
        {
            if self.sessions[i].token == *token {
                assert(self@.sessions[i as int].token == token@);
                return true;
            }
            i = i + 1;
        }
        false
    }
}

} // verus!
