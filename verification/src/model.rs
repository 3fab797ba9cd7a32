//! The vault as the contracts see it: the three tables together, the
//! invariant that ties them, and what each command does to them. Every
//! command is given as the vault afterwards paired with the answer, so a
//! refusal shows as the vault unchanged.

use crate::auth::{password_step, second_factor_step, Admission};
use crate::crypto::password_matches;
use crate::errors::VaultError;
use crate::sessions::SessionsView;
use crate::store::{CredentialView, StoreView};
use crate::users::{RegistryView, UserView};
use vstd::prelude::*;

verus! {

/// The answer to a login or to a second-factor code.
pub struct LoginView {
    /// The session token, empty when none was issued.
    pub token: Seq<char>,
    /// The encryption salt of the account.
    pub salt: Seq<char>,
    /// Whether the second-factor code is still owed.
    pub twofa_required: bool,
    /// The id to present the code under, when it is owed.
    pub temp_user_id: Option<int>,
}

/// The answer to a registration.
pub struct RegistrationView {
    pub token: Seq<char>,
    pub salt: Seq<char>,
    pub twofa_secret: Option<Seq<char>>,
}

/// The answer that admits an account: its token and its salt.
pub open spec fn admitted(user: UserView, token: Seq<char>) -> LoginView {
    LoginView { token, salt: user.encryption_salt, twofa_required: false, temp_user_id: None }
}

/// The answer that asks an account for its second-factor code: no token,
/// the salt, and the id to present the code under.
pub open spec fn code_owed(user: UserView) -> LoginView {
    LoginView {
        token: Seq::empty(),
        salt: user.encryption_salt,
        twofa_required: true,
        temp_user_id: Some(user.id),
    }
}

/// Accounts, sessions and credential records together.
pub struct VaultView {
    pub registry: RegistryView,
    pub sessions: SessionsView,
    pub store: StoreView,
}

impl VaultView {
    /// Each table is well formed, and every session and every record
    /// belongs to an existing account.
    pub open spec fn wf(self) -> bool {
        &&& self.registry.wf()
        &&& self.sessions.wf()
        &&& self.store.wf()
        &&& forall|i: int|
            0 <= i < self.sessions.sessions.len() ==> self.registry.knows(
                (#[trigger] self.sessions.sessions[i]).user_id,
            )
        &&& forall|i: int|
            0 <= i < self.store.records.len() ==> self.registry.knows(
                (#[trigger] self.store.records[i]).user_id,
            )
    }

    /// The same vault with other sessions.
    pub open spec fn with_sessions(self, sessions: SessionsView) -> VaultView {
        VaultView { registry: self.registry, sessions, store: self.store }
    }

    /// The same vault with other records.
    pub open spec fn with_store(self, store: StoreView) -> VaultView {
        VaultView { registry: self.registry, sessions: self.sessions, store }
    }

    /// Admitting an account: `token` is issued for it at the moment `now`
    /// and handed back with the account's salt. `token` is `None` where no
    /// random bytes could be drawn. Where no token can be issued, nothing
    /// changes.
    pub open spec fn grant(self, user: UserView, token: Option<Seq<char>>, now: int) -> (
        VaultView,
        Result<LoginView, VaultError>,
    ) {
        match token {
            None => (self, Err(VaultError::Storage)),
            Some(text) => match self.sessions.issue(user.id, text, now).1 {
                Err(e) => (self, Err(e)),
                Ok(_) => (
                    self.with_sessions(self.sessions.issue(user.id, text, now).0),
                    Ok(admitted(user, text)),
                ),
            },
        }
    }

    /// Where the password step leaves a login: the account under the
    /// username, judged by whether the password matches its stored hash.
    pub open spec fn login_gate(self, username: Seq<char>, password: Seq<char>) -> Result<
        Admission,
        VaultError,
    > {
        let user = self.registry.by_username(username);
        password_step(
            user,
            user matches Some(u) && password_matches(password, u.password_hash),
        )
    }

    /// Where the second-factor step leaves the account under `user_id` at
    /// the moment `now`: the time step the code passes for, or a refusal.
    pub open spec fn second_factor_gate(self, user_id: int, code: Seq<char>, now: int) -> Result<
        int,
        VaultError,
    > {
        second_factor_step(self.registry.by_id(user_id), code, now)
    }

    /// What a login does. `token` is the token that is issued if one is
    /// issued, `None` where none could be drawn. An unknown username and a
    /// password that does not match are refused alike. With a second factor
    /// enrolled the answer carries no token and nothing changes; without
    /// one the account is admitted.
    pub open spec fn login(
        self,
        username: Seq<char>,
        password: Seq<char>,
        token: Option<Seq<char>>,
        now: int,
    ) -> (VaultView, Result<LoginView, VaultError>) {
        let user = self.registry.by_username(username);
        match self.login_gate(username, password) {
            Err(e) => (self, Err(e)),
            Ok(Admission::SecondFactorRequired) => (self, Ok(code_owed(user->Some_0))),
            Ok(Admission::Granted) => self.grant(user->Some_0, token, now),
        }
    }

    /// What presenting a second-factor code does. `token` is the token that
    /// is issued if one is issued, `None` where none could be drawn. A
    /// refused code changes nothing. An accepted one admits the account
    /// exactly as a login without second factor does, and the account
    /// remembers the time step the code passed for, so that the code does
    /// not pass again. Where the code passes and no token can be issued,
    /// nothing changes.
    pub open spec fn verify_2fa(
        self,
        user_id: int,
        code: Seq<char>,
        token: Option<Seq<char>>,
        now: int,
    ) -> (VaultView, Result<LoginView, VaultError>) {
        let user = self.registry.by_id(user_id);
        match self.second_factor_gate(user_id, code, now) {
            Err(e) => (self, Err(e)),
            Ok(step) => {
                let (granted, answer) = self.grant(user->Some_0, token, now);
                match answer {
                    Err(e) => (self, Err(e)),
                    Ok(_) => (
                        VaultView {
                            registry: self.registry.with_step(user_id, step),
                            sessions: granted.sessions,
                            store: self.store,
                        },
                        answer,
                    ),
                }
            },
        }
    }

    /// What a registration does, given the hash made from the password and
    /// the salt, the second-factor secret and the first session token drawn
    /// for the account. Refused when the username or the email is taken,
    /// when the ids have run out, or when the token is already out, and
    /// then nothing changes; otherwise the account is added, enrolled with
    /// its secret, and its first session is issued.
    pub open spec fn register_user(
        self,
        username: Seq<char>,
        email: Seq<char>,
        password_hash: Seq<char>,
        salt: Seq<char>,
        secret: Seq<char>,
        token: Seq<char>,
        now: int,
    ) -> (VaultView, Result<RegistrationView, VaultError>) {
        let (registry, registered) = self.registry.register(
            username,
            email,
            password_hash,
            salt,
            Some(secret),
        );
        let (sessions, issued) = self.sessions.issue(self.registry.next_id, token, now);
        match (registered, issued) {
            (Err(e), _) => (self, Err(e)),
            (Ok(_), Err(e)) => (self, Err(e)),
            (Ok(_), Ok(_)) => (
                VaultView { registry, sessions, store: self.store },
                Ok(RegistrationView { token, salt, twofa_secret: Some(secret) }),
            ),
        }
    }

    /// The records the holder of `token` sees at the moment `now`.
    pub open spec fn get_credentials(self, token: Seq<char>, now: int) -> Result<
        Seq<CredentialView>,
        VaultError,
    > {
        match self.sessions.resolve(token, now) {
            Err(e) => Err(e),
            Ok(owner) => Ok(self.store.list(owner)),
        }
    }

    /// What creating a record on behalf of the holder of `token` does.
    pub open spec fn create_credential(
        self,
        website: Seq<char>,
        username: Seq<char>,
        password: Seq<char>,
        notes: Seq<char>,
        token: Seq<char>,
        now: int,
    ) -> (VaultView, Result<Seq<char>, VaultError>) {
        match self.sessions.resolve(token, now) {
            Err(e) => (self, Err(e)),
            Ok(owner) => {
                let (store, created) = self.store.create(
                    owner,
                    website,
                    username,
                    password,
                    notes,
                    now,
                );
                match created {
                    Err(e) => (self, Err(e)),
                    Ok(_) => (self.with_store(store), Ok("Credential added successfully"@)),
                }
            },
        }
    }

    /// What updating a record on behalf of the holder of `token` does.
    pub open spec fn update_credential(
        self,
        id: int,
        website: Seq<char>,
        username: Seq<char>,
        password: Seq<char>,
        notes: Seq<char>,
        token: Seq<char>,
        now: int,
    ) -> (VaultView, Result<Seq<char>, VaultError>) {
        match self.sessions.resolve(token, now) {
            Err(e) => (self, Err(e)),
            Ok(owner) => {
                let (store, updated) = self.store.update(
                    id,
                    owner,
                    website,
                    username,
                    password,
                    notes,
                    now,
                );
                match updated {
                    Err(e) => (self, Err(e)),
                    Ok(_) => (self.with_store(store), Ok("Credential updated successfully"@)),
                }
            },
        }
    }

    /// What deleting a record on behalf of the holder of `token` does.
    pub open spec fn delete_credential(self, id: int, token: Seq<char>, now: int) -> (
        VaultView,
        Result<Seq<char>, VaultError>,
    ) {
        match self.sessions.resolve(token, now) {
            Err(e) => (self, Err(e)),
            Ok(owner) => {
                let (store, deleted) = self.store.delete(id, owner);
                match deleted {
                    Err(e) => (self, Err(e)),
                    Ok(_) => (self.with_store(store), Ok("Credential deleted successfully"@)),
                }
            },
        }
    }
}

} // verus!
