//! The vault and its commands. Every command that touches credential
//! records first resolves the session token it is given; none takes an
//! account id from the caller.
//!
//! Each command takes the present moment as `now`. The commands that draw
//! random bytes come in two forms: the command itself, and a `_with` form
//! that takes what was drawn from the caller and is specified exactly.

use crate::auth::{check_password, check_second_factor, Admission};
use crate::crypto::{
    hash_password, hex_encode, hex_string, names_cost, password_matches, random_bytes, spelled,
    spells_entropy, verify_password, HASH_COST,
};
use crate::errors::{viewed, widened, VaultError};
use crate::model::{LoginView, RegistrationView, VaultView};
use crate::sessions::{expiry, SessionContext};
use crate::store::{views_of, Credential, CredentialView, VaultStore};
use crate::users::{opt_text, User, UserRegistry};
use vstd::prelude::*;

verus! {

/// The answer to a login or to a second-factor code.
#[derive(Debug, PartialEq, Eq)]
pub struct LoginResponse {
    /// The session token; empty when the second-factor code is still owed.
    pub token: String,
    /// The encryption salt of the account.
    pub salt: String,
    /// Whether the second-factor code is still owed.
    pub twofa_required: bool,
    /// The id to present the code under, when it is owed.
    pub temp_user_id: Option<i32>,
}

impl View for LoginResponse {
    type V = LoginView;

    open spec fn view(&self) -> LoginView {
        LoginView {
            token: self.token@,
            salt: self.salt@,
            twofa_required: self.twofa_required,
            temp_user_id: match self.temp_user_id {
                Some(id) => Some(id as int),
                None => None,
            },
        }
    }
}

/// The answer to a registration.
#[derive(Debug, PartialEq, Eq)]
pub struct RegistrationResponse {
    /// The token of the account's first session.
    pub token: String,
    /// The encryption salt drawn for the account.
    pub salt: String,
    /// The enrolment secret of the second factor.
    pub twofa_secret: Option<String>,
}

impl View for RegistrationResponse {
    type V = RegistrationView;

    open spec fn view(&self) -> RegistrationView {
        RegistrationView {
            token: self.token@,
            salt: self.salt@,
            twofa_secret: opt_text(self.twofa_secret),
        }
    }
}

/// The records a session may see.
#[derive(Debug, PartialEq, Eq)]
pub struct CredentialsResponse {
    pub credentials: Vec<Credential>,
}

impl View for CredentialsResponse {
    type V = Seq<CredentialView>;

    open spec fn view(&self) -> Seq<CredentialView> {
        views_of(self.credentials@)
    }
}

/// The confirmation of a change.
#[derive(Debug, PartialEq, Eq)]
pub struct SimpleResponse {
    pub message: String,
}

impl View for SimpleResponse {
    type V = Seq<char>;

    open spec fn view(&self) -> Seq<char> {
        self.message@
    }
}

/// Accounts, sessions and credential records together.
#[derive(Debug)]
pub struct Vault {
    registry: UserRegistry,
    sessions: SessionContext,
    store: VaultStore,
}

impl View for Vault {
    type V = VaultView;

    closed spec fn view(&self) -> VaultView {
        VaultView { registry: self.registry@, sessions: self.sessions@, store: self.store@ }
    }
}

impl Vault {
    /// The invariant of the vault.
    pub open spec fn wf(&self) -> bool {
        self@.wf()
    }

    /// An empty vault whose session tokens live for `session_ttl`.
    pub fn new(session_ttl: u64) -> (vault: Self)
        ensures
            vault.wf(),
            vault@.registry.users.len() == 0,
            vault@.registry.next_id == 1,
            vault@.sessions.sessions.len() == 0,
            vault@.sessions.ttl == session_ttl,
            vault@.store.records.len() == 0,
            vault@.store.next_id == 1,
    {
        Vault {
            registry: UserRegistry::new(),
            sessions: SessionContext::new(session_ttl),
            store: VaultStore::new(),
        }
    }

    /// Puts a vault together from accounts and records that were stored
    /// earlier; no session survives. Succeeds exactly when every record
    /// belongs to one of the accounts.
    pub fn assemble(registry: UserRegistry, store: VaultStore, session_ttl: u64) -> (r: Result<
        Vault,
        VaultError,
    >)
        requires
            registry.wf(),
            store.wf(),
        ensures
            match r {
                Ok(vault) => {
                    &&& vault.wf()
                    &&& vault@.registry == registry@
                    &&& vault@.store == store@
                    &&& vault@.sessions.sessions.len() == 0
                    &&& vault@.sessions.ttl == session_ttl
                },
                Err(e) => {
                    &&& e == VaultError::Storage
                    &&& exists|i: int|
                        0 <= i < store@.records.len() && !registry@.knows(
                            (#[trigger] store@.records[i]).user_id,
                        )
                },
            },
    {
        let records = store.records();
        let mut i: usize = 0;
        while i < records.len()
            invariant
                registry.wf(),
                i <= records.len(),
                views_of(records@) == store@.records,
                forall|k: int|
                    0 <= k < i ==> registry@.knows((#[trigger] store@.records[k]).user_id),
            decreases records.len() - i,
        {
            if registry.find_by_id(records[i].user_id).is_none() {
                assert(!registry@.knows(store@.records[i as int].user_id));
                return Err(VaultError::Storage);
            }
            i = i + 1;
        }
        Ok(Vault { registry, sessions: SessionContext::new(session_ttl), store })
    }

    /// The accounts.
    pub fn registry(&self) -> (registry: &UserRegistry)
        ensures
            registry@ == self@.registry,
    {
        &self.registry
    }

    /// The issued tokens.
    pub fn sessions(&self) -> (sessions: &SessionContext)
        ensures
            sessions@ == self@.sessions,
    {
        &self.sessions
    }

    /// The credential records.
    pub fn store(&self) -> (store: &VaultStore)
        ensures
            store@ == self@.store,
    {
        &self.store
    }
}

/// The account that `token` speaks for at the moment `now`. Fails closed:
/// a token that was never issued and one whose lifetime is over speak for
/// nobody.
pub fn get_authenticated_user_id(vault: &Vault, token: &str, now: u64) -> (r: Result<
    i32,
    VaultError,
>)
    requires
        vault.wf(),
    ensures
        vault@.sessions.resolve(token@, now as int) == widened(r),
        r matches Ok(id) ==> vault@.registry.knows(id as int),
{
    let token = token.to_owned();
    vault.sessions.resolve(&token, now)
}

/// The token speaks for the account at every moment before `until` and is
/// expired from then on.
pub open spec fn speaks_for(vault: VaultView, token: Seq<char>, user_id: int, until: int) -> bool {
    forall|at: int| #[trigger]
        vault.sessions.resolve(token, at) == if at < until {
            Ok::<int, VaultError>(user_id)
        } else {
            Err::<int, VaultError>(VaultError::ExpiredToken)
        }
}

/// Issues the token spelled by `entropy` for an account and answers with
/// it; without entropy nothing can be issued.
fn grant(vault: &mut Vault, user: &User, entropy: Option<[u8; 16]>, now: u64) -> (r: Result<
    LoginResponse,
    VaultError,
>)
    requires
        old(vault).wf(),
        old(vault)@.registry.knows(user@.id),
    ensures
        final(vault).wf(),
        old(vault)@.grant(user@, spelled(entropy), now as int) == (final(vault)@, viewed(r)),
        final(vault)@.registry == old(vault)@.registry,
        r is Ok ==> speaks_for(
            final(vault)@,
            r->Ok_0.token@,
            user@.id,
            expiry(now as int, old(vault)@.sessions.ttl),
        ),
{
    let bytes = match entropy {
        Some(bytes) => bytes,
        None => {
            return Err(VaultError::Storage);
        },
    };
    match vault.sessions.issue(user.id, bytes, now) {
        Err(e) => Err(e),
        Ok(token) => {
            proof {
                assert forall|at: int|
                    #[trigger] vault@.sessions.resolve(token@, at) == if at < expiry(
                        now as int,
                        old(vault)@.sessions.ttl,
                    ) {
                        Ok::<int, VaultError>(user@.id)
                    } else {
                        Err::<int, VaultError>(VaultError::ExpiredToken)
                    } by {
                    old(vault)@.sessions.lemma_issued(user@.id, token@, now as int, at);
                }
            }
            Ok(
                LoginResponse {
                    token,
                    salt: user.encryption_salt.clone(),
                    twofa_required: false,
                    temp_user_id: None,
                },
            )
        },
    }
}

/// `login` with the outcome of drawing the random bytes of the session
/// token given by the caller: the bytes, or `None` where none could be
/// drawn.
pub fn login_with(
    vault: &mut Vault,
    username: String,
    password: String,
    entropy: Option<[u8; 16]>,
    now: u64,
) -> (r: Result<LoginResponse, VaultError>)
    requires
        old(vault).wf(),
    ensures
        final(vault).wf(),
        old(vault)@.login(username@, password@, spelled(entropy), now as int) == (
            final(vault)@,
            viewed(r),
        ),
        r is Ok && !r->Ok_0.twofa_required ==> speaks_for(
            final(vault)@,
            r->Ok_0.token@,
            old(vault)@.registry.by_username(username@)->Some_0.id,
            expiry(now as int, old(vault)@.sessions.ttl),
        ),
{
    let found = vault.registry.find_by_username(&username);
    let outcome = match found {
        Some(user) => verify_password(&password, &user.password_hash),
        None => Ok(false),
    };
    match check_password(found, outcome) {
        Err(e) => Err(e),
        Ok(admission) => {
            let user = found.unwrap().clone();
            match admission {
                Admission::SecondFactorRequired => Ok(
                    LoginResponse {
                        token: String::new(),
                        salt: user.encryption_salt,
                        twofa_required: true,
                        temp_user_id: Some(user.id),
                    },
                ),
                Admission::Granted => grant(vault, &user, entropy, now),
            }
        },
    }
}

/// Checks a username and a password. With no second factor enrolled the
/// account is admitted: a fresh session token is issued and returned with
/// the account's encryption salt. With one enrolled no token is issued and
/// the vault is left as it was: the answer names the id under which the
/// code is to be presented. An unknown username and a wrong password are
/// refused alike, with the vault left as it was.
///
/// The token is drawn at random. Where the operating system gives no
/// random bytes, or in the unlikely case that the token drawn is already
/// out, the login fails with `Storage` and can be tried again.
pub fn login(vault: &mut Vault, username: String, password: String, now: u64) -> (r: Result<
    LoginResponse,
    VaultError,
>)
    requires
        old(vault).wf(),
    ensures
        final(vault).wf(),
        match r {
            Ok(response) => {
                &&& old(vault)@.login(username@, password@, Some(response.token@), now as int) == (
                    final(vault)@,
                    Ok::<LoginView, VaultError>(response@),
                )
                &&& response.twofa_required || spells_entropy(response.token@)
                &&& !response.twofa_required ==> speaks_for(
                    final(vault)@,
                    response.token@,
                    old(vault)@.registry.by_username(username@)->Some_0.id,
                    expiry(now as int, old(vault)@.sessions.ttl),
                )
            },
            Err(e) => {
                &&& final(vault)@ == old(vault)@
                &&& match old(vault)@.login_gate(username@, password@) {
                    Err(refusal) => e == refusal,
                    Ok(Admission::SecondFactorRequired) => false,
                    Ok(Admission::Granted) => e == VaultError::Storage,
                }
            },
        },
{
    let entropy = random_bytes();
    login_with(vault, username, password, entropy, now)
}

/// `verify_2fa` with the outcome of drawing the random bytes of the
/// session token given by the caller: the bytes, or `None` where none
/// could be drawn.
pub fn verify_2fa_with(
    vault: &mut Vault,
    user_id: i32,
    code: String,
    entropy: Option<[u8; 16]>,
    now: u64,
) -> (r: Result<LoginResponse, VaultError>)
    requires
        old(vault).wf(),
    ensures
        final(vault).wf(),
        old(vault)@.verify_2fa(user_id as int, code@, spelled(entropy), now as int) == (
            final(vault)@,
            viewed(r),
        ),
        r is Ok ==> speaks_for(
            final(vault)@,
            r->Ok_0.token@,
            user_id as int,
            expiry(now as int, old(vault)@.sessions.ttl),
        ),
{
    let found = vault.registry.find_by_id(user_id);
    match check_second_factor(found, &code, now) {
        Err(e) => Err(e),
        Ok(step) => {
            let user = found.unwrap().clone();
            let ghost before = vault@;
            match grant(vault, &user, entropy, now) {
                Err(e) => Err(e),
                Ok(response) => {
                    proof {
                        let granted = vault@;
                        assert forall|id: int| before.registry.knows(id) implies before.registry.with_step(
                            user_id as int,
                            step as int,
                        ).knows(id) by {
                            before.registry.lemma_with_step(user_id as int, step as int, id);
                        }
                        before.registry.lemma_with_step(user_id as int, step as int, user_id as int);
                    }
                    vault.registry.record_step(user_id, step);
                    Ok(response)
                },
            }
        },
    }
}

/// Checks the second-factor code presented under the id that a login
/// named. The code must be the one-time code of the account's secret for
/// the present time step or one next to it, and for a step later than the
/// latest one the account has used. An accepted code admits the account
/// exactly as a login without second factor does: a fresh session token is
/// issued and returned with the account's encryption salt, and the account
/// remembers the step, so that the same code is not accepted again. A code
/// that is not accepted, an unknown id and an account without second
/// factor are refused alike, with the vault left as it was.
///
/// The token is drawn at random. Where the operating system gives no
/// random bytes, or in the unlikely case that the token drawn is already
/// out, the call fails with `Storage`, the code is not used up, and the
/// call can be tried again.
pub fn verify_2fa(vault: &mut Vault, user_id: i32, token: String, now: u64) -> (r: Result<
    LoginResponse,
    VaultError,
>)
    requires
        old(vault).wf(),
    ensures
        final(vault).wf(),
        match r {
            Ok(response) => {
                &&& old(vault)@.verify_2fa(
                    user_id as int,
                    token@,
                    Some(response.token@),
                    now as int,
                ) == (final(vault)@, Ok::<LoginView, VaultError>(response@))
                &&& spells_entropy(response.token@)
                &&& speaks_for(
                    final(vault)@,
                    response.token@,
                    user_id as int,
                    expiry(now as int, old(vault)@.sessions.ttl),
                )
            },
            Err(e) => {
                &&& final(vault)@ == old(vault)@
                &&& match old(vault)@.second_factor_gate(user_id as int, token@, now as int) {
                    Err(refusal) => e == refusal,
                    Ok(_) => e == VaultError::Storage,
                }
            },
        },
{
    let entropy = random_bytes();
    verify_2fa_with(vault, user_id, token, entropy, now)
}

/// `register_user` with the password already hashed and with the random
/// bytes of the salt, of the second-factor secret and of the session token
/// given by the caller.
pub fn register_with(
    vault: &mut Vault,
    username: String,
    email: String,
    password_hash: String,
    salt_entropy: [u8; 16],
    secret_entropy: [u8; 16],
    token_entropy: [u8; 16],
    now: u64,
) -> (r: Result<RegistrationResponse, VaultError>)
    requires
        old(vault).wf(),
    ensures
        final(vault).wf(),
        old(vault)@.register_user(
            username@,
            email@,
            password_hash@,
            hex_string(salt_entropy@),
            hex_string(secret_entropy@),
            hex_string(token_entropy@),
            now as int,
        ) == (final(vault)@, viewed(r)),
{
    if vault.registry.is_taken(&username, &email) {
        return Err(VaultError::DuplicateUser);
    }
    let user_id = vault.registry.next_id();
    if user_id >= i32::MAX {
        return Err(VaultError::Storage);
    }
    let token = match vault.sessions.issue(user_id, token_entropy, now) {
        Ok(token) => token,
        Err(e) => {
            return Err(e);
        },
    };
    let salt = hex_encode(&salt_entropy);
    let secret = hex_encode(&secret_entropy);
    let ghost before = vault@.registry;
    match vault.registry.register(
        username,
        email,
        password_hash,
        salt.clone(),
        Some(secret.clone()),
    ) {
        Ok(_) => {
            proof {
                let user = before.new_user(
                    username@,
                    email@,
                    password_hash@,
                    salt@,
                    Some(secret@),
                );
                assert forall|id: int| before.knows(id) implies vault@.registry.knows(id) by {
                    before.lemma_with_user_knows(user, id);
                }
                before.lemma_with_user_knows(user, user_id as int);
            }
            Ok(RegistrationResponse { token, salt, twofa_secret: Some(secret) })
        },
        Err(e) => Err(e),
    }
}

/// Creates an account. The username and the email must both be free. The
/// password is stored as a bcrypt hash made at the fixed cost, sixteen
/// random bytes become the account's encryption salt, sixteen more its
/// second-factor secret, and the first session token is issued. Any
/// refusal leaves the vault as it was.
///
/// Random bytes and the hash come from outside. Where the operating system
/// gives no random bytes, where the password cannot be hashed, or where
/// the token drawn is already out, the call fails with `Storage`.
pub fn register_user(vault: &mut Vault, username: String, email: String, password: String, now: u64)
    -> (r: Result<RegistrationResponse, VaultError>)
    requires
        old(vault).wf(),
    ensures
        final(vault).wf(),
        match r {
            Ok(response) => {
                let hash = final(vault)@.registry.users.last().password_hash;
                &&& password_matches(password@, hash)
                &&& names_cost(hash, HASH_COST as int)
                &&& spells_entropy(response.salt@)
                &&& spells_entropy(response.token@)
                &&& response.twofa_secret matches Some(secret) && spells_entropy(secret@)
                &&& old(vault)@.register_user(
                    username@,
                    email@,
                    hash,
                    response.salt@,
                    response.twofa_secret->Some_0@,
                    response.token@,
                    now as int,
                ) == (final(vault)@, Ok::<RegistrationView, VaultError>(response@))
            },
            Err(e) => {
                &&& final(vault)@ == old(vault)@
                &&& if old(vault)@.registry.taken(username@, email@) {
                    e == VaultError::DuplicateUser
                } else {
                    e == VaultError::Storage
                }
            },
        },
{
    if vault.registry.is_taken(&username, &email) {
        return Err(VaultError::DuplicateUser);
    }
    let password_hash = match hash_password(&password, HASH_COST) {
        Ok(hash) => hash,
        Err(_) => {
            return Err(VaultError::Storage);
        },
    };
    match (random_bytes(), random_bytes(), random_bytes()) {
        (Some(salt_entropy), Some(secret_entropy), Some(token_entropy)) => register_with(
            vault,
            username,
            email,
            password_hash,
            salt_entropy,
            secret_entropy,
            token_entropy,
            now,
        ),
        _ => Err(VaultError::Storage),
    }
}

/// The records of the account that `token` speaks for.
pub fn get_credentials(vault: &Vault, token: String, now: u64) -> (r: Result<
    CredentialsResponse,
    VaultError,
>)
    requires
        vault.wf(),
    ensures
        vault@.get_credentials(token@, now as int) == viewed(r),
{
    match get_authenticated_user_id(vault, token.as_str(), now) {
        Err(e) => Err(e),
        Ok(owner_id) => Ok(CredentialsResponse { credentials: vault.store.list(owner_id) }),
    }
}

/// Stores a new record for the account that `token` speaks for.
pub fn create_credential(
    vault: &mut Vault,
    website: String,
    username: String,
    password: String,
    notes: String,
    token: String,
    now: u64,
) -> (r: Result<SimpleResponse, VaultError>)
    requires
        old(vault).wf(),
    ensures
        final(vault).wf(),
        old(vault)@.create_credential(
            website@,
            username@,
            password@,
            notes@,
            token@,
            now as int,
        ) == (final(vault)@, viewed(r)),
{
    let owner_id = match get_authenticated_user_id(vault, token.as_str(), now) {
        Ok(id) => id,
        Err(e) => {
            return Err(e);
        },
    };
    match vault.store.create(owner_id, website, username, password, notes, now) {
        Err(e) => Err(e),
        Ok(_) => Ok(SimpleResponse { message: "Credential added successfully".to_owned() }),
    }
}

/// Replaces the payload of a record of the account that `token` speaks
/// for. A record of another account is not found, as one that does not
/// exist.
pub fn update_credential(
    vault: &mut Vault,
    id: i32,
    website: String,
    username: String,
    password: String,
    notes: String,
    token: String,
    now: u64,
) -> (r: Result<SimpleResponse, VaultError>)
    requires
        old(vault).wf(),
    ensures
        final(vault).wf(),
        old(vault)@.update_credential(
            id as int,
            website@,
            username@,
            password@,
            notes@,
            token@,
            now as int,
        ) == (final(vault)@, viewed(r)),
{
    let owner_id = match get_authenticated_user_id(vault, token.as_str(), now) {
        Ok(id) => id,
        Err(e) => {
            return Err(e);
        },
    };
    match vault.store.update(id, owner_id, website, username, password, notes, now) {
        Err(e) => Err(e),
        Ok(_) => Ok(SimpleResponse { message: "Credential updated successfully".to_owned() }),
    }
}

/// Removes a record of the account that `token` speaks for. A record of
/// another account is not found, as one that does not exist.
pub fn delete_credential(vault: &mut Vault, id: i32, token: String, now: u64) -> (r: Result<
    SimpleResponse,
    VaultError,
>)
    requires
        old(vault).wf(),
    ensures
        final(vault).wf(),
        old(vault)@.delete_credential(id as int, token@, now as int) == (
            final(vault)@,
            viewed(r),
        ),
{
    let owner_id = match get_authenticated_user_id(vault, token.as_str(), now) {
        Ok(id) => id,
        Err(e) => {
            return Err(e);
        },
    };
    match vault.store.delete(id, owner_id) {
        Err(e) => Err(e),
        Ok(()) => Ok(SimpleResponse { message: "Credential deleted successfully".to_owned() }),
    }
}

} // verus!
