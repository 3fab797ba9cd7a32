//! What holds of the vault whatever is asked of it, proved from the model.

use crate::auth::{second_factor_step, time_step, unused, Admission};
use crate::crypto::{names_cost, password_matches, spells_entropy, totp_text, CODE_DIGITS};
use crate::errors::{ErrorKind, VaultError};
use crate::model::{admitted, code_owed, LoginView, RegistrationView, VaultView};
use crate::sessions::{expiry, SessionsView, TOKEN_LEN};
use crate::store::{owned_by, revised, CredentialView, StoreView};
use crate::users::{stepped, UserView};
use vstd::prelude::*;

verus! {

/// A successful registration leaves a well-formed vault whose registry
/// ends with the new account and whose session table ends with its first
/// session.
pub proof fn lemma_registered(
    vault: VaultView,
    username: Seq<char>,
    email: Seq<char>,
    password_hash: Seq<char>,
    salt: Seq<char>,
    secret: Seq<char>,
    token: Seq<char>,
    now: int,
)
    requires
        vault.wf(),
        vault.register_user(username, email, password_hash, salt, secret, token, now).1 is Ok,
    ensures
        ({
            let user = vault.registry.new_user(username, email, password_hash, salt, Some(secret));
            let after = vault.register_user(
                username,
                email,
                password_hash,
                salt,
                secret,
                token,
                now,
            ).0;
            &&& after.registry == vault.registry.with_user(user)
            &&& after.registry.wf()
            &&& after.registry.by_username(username) == Some(user)
            &&& after.sessions == vault.sessions.with_session(user.id, token, now)
            &&& after.store == vault.store
        }),
{
    let user = vault.registry.new_user(username, email, password_hash, salt, Some(secret));
    let after = vault.register_user(username, email, password_hash, salt, secret, token, now).0;
    let at = vault.registry.users.len() as int;
    assert(after.registry.users[at] == user);
    after.registry.lemma_by_username(at);
}

/// A username is registered once. After an account was registered, a
/// second registration under the same username, whatever else it brings,
/// is refused as a validation failure and changes nothing: the first
/// account is still the one found under that username, exactly as it was
/// registered.
pub proof fn law_username_registers_once(
    vault: VaultView,
    username: Seq<char>,
    email: Seq<char>,
    password_hash: Seq<char>,
    salt: Seq<char>,
    secret: Seq<char>,
    token: Seq<char>,
    now: int,
    other_email: Seq<char>,
    other_hash: Seq<char>,
    other_salt: Seq<char>,
    other_secret: Seq<char>,
    other_token: Seq<char>,
    later: int,
)
    requires
        vault.wf(),
        vault.register_user(username, email, password_hash, salt, secret, token, now).1 is Ok,
    ensures
        ({
            let first = vault.registry.new_user(username, email, password_hash, salt, Some(secret));
            let after = vault.register_user(
                username,
                email,
                password_hash,
                salt,
                secret,
                token,
                now,
            ).0;
            let second = after.register_user(
                username,
                other_email,
                other_hash,
                other_salt,
                other_secret,
                other_token,
                later,
            );
            &&& after.registry.by_username(username) == Some(first)
            &&& second.1 == Err::<RegistrationView, VaultError>(VaultError::DuplicateUser)
            &&& VaultError::DuplicateUser.spec_kind() == ErrorKind::ValidationError
            &&& second.0 == after
        }),
{
    let after = vault.register_user(username, email, password_hash, salt, secret, token, now).0;
    lemma_registered(vault, username, email, password_hash, salt, secret, token, now);
    let at = vault.registry.users.len() as int;
    assert(after.registry.users[at].username == username);
}

/// An email is registered once. After an account was registered, a second
/// registration with the same email under any username is refused as a
/// validation failure and changes nothing.
pub proof fn law_email_registers_once(
    vault: VaultView,
    username: Seq<char>,
    email: Seq<char>,
    password_hash: Seq<char>,
    salt: Seq<char>,
    secret: Seq<char>,
    token: Seq<char>,
    now: int,
    other_username: Seq<char>,
    other_hash: Seq<char>,
    other_salt: Seq<char>,
    other_secret: Seq<char>,
    other_token: Seq<char>,
    later: int,
)
    requires
        vault.wf(),
        vault.register_user(username, email, password_hash, salt, secret, token, now).1 is Ok,
    ensures
        ({
            let after = vault.register_user(
                username,
                email,
                password_hash,
                salt,
                secret,
                token,
                now,
            ).0;
            let second = after.register_user(
                other_username,
                email,
                other_hash,
                other_salt,
                other_secret,
                other_token,
                later,
            );
            &&& second.1 == Err::<RegistrationView, VaultError>(VaultError::DuplicateUser)
            &&& VaultError::DuplicateUser.spec_kind() == ErrorKind::ValidationError
            &&& second.0 == after
        }),
{
    let after = vault.register_user(username, email, password_hash, salt, secret, token, now).0;
    lemma_registered(vault, username, email, password_hash, salt, secret, token, now);
    let at = vault.registry.users.len() as int;
    assert(after.registry.users[at].email == email);
}

/// A stored hash is nothing else. A text with the shape of a bcrypt hash
/// is no text that spells sixteen bytes, so the hash of an account is
/// neither its salt, nor its second-factor secret, nor any session token.
pub proof fn law_hash_is_no_other_field(hash: Seq<char>, cost: int, other: Seq<char>)
    requires
        names_cost(hash, cost),
        spells_entropy(other),
    ensures
        hash != other,
{
    assert(other.len() == 32);
}

/// A wrong password opens nothing. A login under the username of an
/// existing account with a password that does not match its hash is
/// refused as an authentication failure, and the vault, its sessions
/// included, is left as it was: no token is issued.
pub proof fn law_wrong_password_is_refused(
    vault: VaultView,
    username: Seq<char>,
    password: Seq<char>,
    token: Option<Seq<char>>,
    now: int,
)
    requires
        vault.wf(),
        vault.registry.by_username(username) matches Some(user) && !password_matches(
            password,
            user.password_hash,
        ),
    ensures
        vault.login(username, password, token, now) == (
            vault,
            Err::<LoginView, VaultError>(VaultError::InvalidCredentials),
        ),
        VaultError::InvalidCredentials.spec_kind() == ErrorKind::AuthError,
{
}

/// An unknown username is refused exactly as a wrong password is.
pub proof fn law_unknown_username_is_refused(
    vault: VaultView,
    username: Seq<char>,
    password: Seq<char>,
    token: Option<Seq<char>>,
    now: int,
)
    requires
        vault.wf(),
        vault.registry.by_username(username).is_none(),
    ensures
        vault.login(username, password, token, now) == (
            vault,
            Err::<LoginView, VaultError>(VaultError::InvalidCredentials),
        ),
{
}

/// Login without second factor. With the right password, no second factor
/// enrolled and a token drawn that is not yet out, the login succeeds: the
/// answer carries that token and the account's salt and asks for no code,
/// the one change to the vault is the new session, and from then until its
/// expiry the token speaks for the account.
pub proof fn law_login_without_second_factor(
    vault: VaultView,
    username: Seq<char>,
    password: Seq<char>,
    token: Seq<char>,
    now: int,
    at: int,
)
    requires
        vault.wf(),
        vault.registry.by_username(username) matches Some(user) && password_matches(
            password,
            user.password_hash,
        ) && user.twofa_secret.is_none(),
        vault.sessions.by_token(token).is_none(),
    ensures
        ({
            let user = vault.registry.by_username(username)->Some_0;
            let (after, answer) = vault.login(username, password, Some(token), now);
            &&& answer == Ok::<LoginView, VaultError>(admitted(user, token))
            &&& answer->Ok_0.token == token
            &&& answer->Ok_0.salt == user.encryption_salt
            &&& !answer->Ok_0.twofa_required
            &&& answer->Ok_0.temp_user_id.is_none()
            &&& after == vault.with_sessions(vault.sessions.with_session(user.id, token, now))
            &&& at < expiry(now, vault.sessions.ttl) ==> after.sessions.resolve(token, at) == Ok::<
                int,
                VaultError,
            >(user.id)
        }),
{
    let user = vault.registry.by_username(username)->Some_0;
    vault.sessions.lemma_issued(user.id, token, now, at);
}

/// Login with second factor. With the right password and a second factor
/// enrolled, the login succeeds without issuing anything: the answer asks
/// for the code, names the account's id to present it under, carries the
/// salt and an empty token, and the vault is left as it was. The empty
/// token speaks for nobody, so the answer opens no record; the id it names
/// is good for the second-factor step, where the one-time code of the
/// account's secret for a time step that is still unused passes.
pub proof fn law_login_with_second_factor(
    vault: VaultView,
    username: Seq<char>,
    password: Seq<char>,
    token: Option<Seq<char>>,
    now: int,
    at: int,
)
    requires
        vault.wf(),
        vault.registry.by_username(username) matches Some(user) && password_matches(
            password,
            user.password_hash,
        ) && user.twofa_secret is Some,
    ensures
        ({
            let user = vault.registry.by_username(username)->Some_0;
            let (after, answer) = vault.login(username, password, token, now);
            let code = totp_text(user.twofa_secret->Some_0, CODE_DIGITS as int, time_step(at));
            &&& answer == Ok::<LoginView, VaultError>(code_owed(user))
            &&& answer->Ok_0.twofa_required
            &&& answer->Ok_0.token.len() == 0
            &&& answer->Ok_0.temp_user_id == Some(user.id)
            &&& after == vault
            &&& after.sessions.resolve(answer->Ok_0.token, at) == Err::<int, VaultError>(
                VaultError::InvalidToken,
            )
            &&& unused(user.twofa_last_step, time_step(at)) ==> after.second_factor_gate(
                user.id,
                code,
                at,
            ) is Ok
        }),
{
    let found = choose|i: int|
        0 <= i < vault.registry.users.len() && (#[trigger] vault.registry.users[i]).username
            == username;
    vault.registry.lemma_by_id(found);
}

/// The second-factor code. For an account whose code passes at the moment
/// `now` and a token drawn that is not yet out, the account is admitted
/// exactly as a login without second factor admits one: the answer and the
/// sessions afterwards are those of granting it the token, the account
/// remembers the time step the code passed for, and nothing else changes.
/// A code that does not pass is refused as an authentication failure and
/// the vault is left as it was: nothing is issued.
pub proof fn law_second_factor_code(
    vault: VaultView,
    user_id: int,
    code: Seq<char>,
    token: Option<Seq<char>>,
    now: int,
)
    requires
        vault.wf(),
    ensures
        ({
            let user = vault.registry.by_id(user_id);
            let (after, answer) = vault.verify_2fa(user_id, code, token, now);
            &&& vault.second_factor_gate(user_id, code, now) matches Ok(step) ==> {
                &&& answer == vault.grant(user->Some_0, token, now).1
                &&& answer is Ok ==> after.sessions == vault.grant(user->Some_0, token, now).0.sessions
                &&& answer is Ok ==> after.registry == vault.registry.with_step(user_id, step)
                &&& answer is Err ==> after == vault
                &&& after.store == vault.store
            }
            &&& vault.second_factor_gate(user_id, code, now) is Err ==> answer == Err::<
                LoginView,
                VaultError,
            >(VaultError::InvalidSecondFactor) && after == vault
            &&& VaultError::InvalidSecondFactor.spec_kind() == ErrorKind::AuthError
        }),
{
}

/// A code passes once. After a code was accepted for an account at the
/// moment `now`, the same code presented again, at that moment or at any
/// moment whose time step is not later, is refused as an authentication
/// failure and the vault is left as it was.
pub proof fn law_code_passes_once(
    vault: VaultView,
    user_id: int,
    code: Seq<char>,
    token: Option<Seq<char>>,
    now: int,
    next_token: Option<Seq<char>>,
    again: int,
)
    requires
        vault.wf(),
        vault.verify_2fa(user_id, code, token, now).1 is Ok,
        time_step(again) <= time_step(now),
    ensures
        ({
            let after = vault.verify_2fa(user_id, code, token, now).0;
            after.verify_2fa(user_id, code, next_token, again) == (
                after,
                Err::<LoginView, VaultError>(VaultError::InvalidSecondFactor),
            )
        }),
{
    let step = vault.second_factor_gate(user_id, code, now)->Ok_0;
    vault.registry.lemma_with_step(user_id, step, user_id);
}

/// A used step stays used. Once the latest time step an account has used
/// is the one after the present step or a later one, no code whatever
/// passes for it at the present moment; and that is so as soon as the
/// account has used the step after the present one.
pub proof fn law_used_steps_stay_used(user: UserView, code: Seq<char>, now: int)
    requires
        user.twofa_last_step matches Some(used) && time_step(now) + 1 <= used,
    ensures
        second_factor_step(Some(user), code, now) == Err::<int, VaultError>(
            VaultError::InvalidSecondFactor,
        ),
        second_factor_step(Some(stepped(user, time_step(now) + 1)), code, now) == Err::<
            int,
            VaultError,
        >(VaultError::InvalidSecondFactor),
{
}

/// A login that passes the password step without second factor does
/// exactly what granting the account the token does; this is the effect an
/// accepted second-factor code has on sessions and answer as well.
pub proof fn law_login_grants(
    vault: VaultView,
    username: Seq<char>,
    password: Seq<char>,
    token: Option<Seq<char>>,
    now: int,
)
    requires
        vault.wf(),
        vault.login_gate(username, password) == Ok::<Admission, VaultError>(Admission::Granted),
    ensures
        vault.login(username, password, token, now) == vault.grant(
            vault.registry.by_username(username)->Some_0,
            token,
            now,
        ),
{
}

/// A token that was granted speaks for its account, and only until it
/// expires: resolved before its expiry it gives the account's id, resolved
/// at or after it the token is expired.
pub proof fn law_granted_token_speaks_for_its_account(
    vault: VaultView,
    user: UserView,
    token: Seq<char>,
    now: int,
    at: int,
)
    requires
        vault.wf(),
        vault.grant(user, Some(token), now).1 is Ok,
    ensures
        ({
            let after = vault.grant(user, Some(token), now).0;
            after.sessions.resolve(token, at) == if at < expiry(now, vault.sessions.ttl) {
                Ok::<int, VaultError>(user.id)
            } else {
                Err::<int, VaultError>(VaultError::ExpiredToken)
            }
        }),
{
    vault.sessions.lemma_issued(user.id, token, now, at);
}

/// Where no random bytes can be drawn, nobody is admitted: granting fails
/// as a storage failure and the vault is left as it was.
pub proof fn law_no_token_without_entropy(vault: VaultView, user: UserView, now: int)
    ensures
        vault.grant(user, None, now) == (vault, Err::<LoginView, VaultError>(VaultError::Storage)),
{
}

/// Every session of a well-formed table is bound to its account and to
/// its expiry: its token speaks for its account at every moment before the
/// expiry and is expired from then on.
pub proof fn law_token_is_bound_to_account_and_expiry(sessions: SessionsView, which: int, at: int)
    requires
        sessions.wf(),
        0 <= which < sessions.sessions.len(),
    ensures
        ({
            let session = sessions.sessions[which];
            sessions.resolve(session.token, at) == if at < session.expires_at {
                Ok::<int, VaultError>(session.user_id)
            } else {
                Err::<int, VaultError>(VaultError::ExpiredToken)
            }
        }),
{
    sessions.lemma_by_token(which);
}

/// A token that was never issued speaks for nobody at any time, and so
/// does every text that has not the length of a token, the empty one
/// included.
pub proof fn law_unissued_token_speaks_for_nobody(sessions: SessionsView, token: Seq<char>, at: int)
    requires
        sessions.wf(),
        token.len() != TOKEN_LEN || forall|i: int|
            0 <= i < sessions.sessions.len() ==> (#[trigger] sessions.sessions[i]).token != token,
    ensures
        sessions.resolve(token, at) == Err::<int, VaultError>(VaultError::InvalidToken),
        VaultError::InvalidToken.spec_kind() == ErrorKind::AuthError,
        VaultError::ExpiredToken.spec_kind() == ErrorKind::AuthError,
{
}

/// A registered account can log in. After a registration with the hash of
/// a password, a login under the same username with that password passes
/// the password step and is asked for the second-factor code, for every
/// account is enrolled at registration.
pub proof fn law_registered_account_can_login(
    vault: VaultView,
    username: Seq<char>,
    email: Seq<char>,
    password: Seq<char>,
    password_hash: Seq<char>,
    salt: Seq<char>,
    secret: Seq<char>,
    token: Seq<char>,
    now: int,
    next_token: Option<Seq<char>>,
    later: int,
)
    requires
        vault.wf(),
        password_matches(password, password_hash),
        vault.register_user(username, email, password_hash, salt, secret, token, now).1 is Ok,
    ensures
        ({
            let user = vault.registry.new_user(username, email, password_hash, salt, Some(secret));
            let after = vault.register_user(
                username,
                email,
                password_hash,
                salt,
                secret,
                token,
                now,
            ).0;
            after.login(username, password, next_token, later) == (
                after,
                Ok::<LoginView, VaultError>(code_owed(user)),
            )
        }),
{
    lemma_registered(vault, username, email, password_hash, salt, secret, token, now);
}

/// Records belong to their owner alone. For any record of a well-formed
/// store and any account other than its owner: the record is not among
/// what the other account lists, nor is any record with its id; the other
/// account's update and delete under its id are refused as not found and
/// change nothing; the owner's own update and delete under the same id
/// succeed.
pub proof fn law_records_belong_to_their_owner(
    store: StoreView,
    at: int,
    other: int,
    website: Seq<char>,
    username: Seq<char>,
    password: Seq<char>,
    notes: Seq<char>,
    now: int,
)
    requires
        store.wf(),
        0 <= at < store.records.len(),
        other != store.records[at].user_id,
    ensures
        ({
            let record = store.records[at];
            let owner = record.user_id;
            &&& store.list(owner).contains(record)
            &&& !store.list(other).contains(record)
            &&& forall|i: int|
                0 <= i < store.list(other).len() ==> (#[trigger] store.list(other)[i]).id
                    != record.id
            &&& store.update(record.id, other, website, username, password, notes, now) == (
                store,
                Err::<CredentialView, VaultError>(VaultError::NotFound),
            )
            &&& store.delete(record.id, other) == (
                store,
                Err::<(), VaultError>(VaultError::NotFound),
            )
            &&& VaultError::NotFound.spec_kind() == ErrorKind::NotFoundError
            &&& store.update(record.id, owner, website, username, password, notes, now).1 == Ok::<
                CredentialView,
                VaultError,
            >(revised(record, website, username, password, notes, now))
            &&& store.delete(record.id, owner).1 == Ok::<(), VaultError>(())
        }),
{
    let record = store.records[at];
    let owner = record.user_id;
    store.lemma_slot(at, other);
    store.records.lemma_filter_contains(owned_by(owner), at);
    let theirs = store.list(other);
    assert forall|i: int| 0 <= i < theirs.len() implies (#[trigger] theirs[i]).user_id == other by {
        store.records.lemma_filter_pred(owned_by(other), i);
    }
    assert forall|i: int| 0 <= i < theirs.len() implies (#[trigger] theirs[i]).id != record.id by {
        assert(theirs.contains(theirs[i]));
        store.records.lemma_filter_contains_rev(owned_by(other), theirs[i]);
        let k = choose|k: int| 0 <= k < store.records.len() && store.records[k] == theirs[i];
        if k < at {
            assert(store.records[k].id != store.records[at].id);
        }
        if at < k {
            assert(store.records[at].id != store.records[k].id);
        }
    }
    if theirs.contains(record) {
        let i = choose|i: int| 0 <= i < theirs.len() && theirs[i] == record;
        assert(theirs[i].user_id == other);
    }
}

/// An id nobody holds is not found. When no record of a well-formed store
/// has the id, update and delete under it are refused as not found for
/// every owner, and change nothing.
pub proof fn law_unknown_id_is_not_found(
    store: StoreView,
    id: int,
    owner: int,
    website: Seq<char>,
    username: Seq<char>,
    password: Seq<char>,
    notes: Seq<char>,
    now: int,
)
    requires
        store.wf(),
        forall|i: int| 0 <= i < store.records.len() ==> (#[trigger] store.records[i]).id != id,
    ensures
        store.update(id, owner, website, username, password, notes, now) == (
            store,
            Err::<CredentialView, VaultError>(VaultError::NotFound),
        ),
        store.delete(id, owner) == (store, Err::<(), VaultError>(VaultError::NotFound)),
        VaultError::NotFound.spec_kind() == ErrorKind::NotFoundError,
{
}

/// What is created is listed. After a successful create, the owner's list
/// is the list from before with the new record at its end; the record
/// carries the four payload fields as given, and its two timestamps are
/// equal. No other owner's list changes.
pub proof fn law_created_record_is_listed(
    store: StoreView,
    owner: int,
    other: int,
    website: Seq<char>,
    username: Seq<char>,
    password: Seq<char>,
    notes: Seq<char>,
    now: int,
)
    requires
        store.wf(),
        store.create(owner, website, username, password, notes, now).1 is Ok,
        other != owner,
    ensures
        ({
            let (after, answer) = store.create(owner, website, username, password, notes, now);
            let record = answer->Ok_0;
            &&& after.list(owner) == store.list(owner).push(record)
            &&& after.list(other) == store.list(other)
            &&& record.user_id == owner
            &&& record.website == website
            &&& record.username == username
            &&& record.password == password
            &&& record.notes == notes
            &&& record.created_at == record.updated_at == now
            &&& after.get(record.id, owner) == Some(record)
        }),
{
    let (after, answer) = store.create(owner, website, username, password, notes, now);
    let record = answer->Ok_0;
    reveal(Seq::filter);
    assert(after.records.drop_last() =~= store.records);
    assert(after.records.last() == record);
    assert(after.wf());
    after.lemma_slot(store.records.len() as int, other);
}

/// An update never moves a record's update time before its creation: the
/// updated record keeps its id, its owner and its creation time, carries
/// the new payload, and its update time is the later of the old one and
/// `now`, so it is strictly later than before whenever the clock has
/// moved on.
pub proof fn law_update_moves_time_forward(
    store: StoreView,
    id: int,
    owner: int,
    website: Seq<char>,
    username: Seq<char>,
    password: Seq<char>,
    notes: Seq<char>,
    now: int,
)
    requires
        store.wf(),
        store.update(id, owner, website, username, password, notes, now).1 is Ok,
    ensures
        ({
            let before = store.get(id, owner)->Some_0;
            let (after, answer) = store.update(id, owner, website, username, password, notes, now);
            let record = answer->Ok_0;
            &&& store.get(id, owner) is Some
            &&& after.wf()
            &&& after.get(id, owner) == Some(record)
            &&& record.id == id && record.user_id == owner
            &&& record.website == website
            &&& record.username == username
            &&& record.password == password
            &&& record.notes == notes
            &&& record.created_at == before.created_at
            &&& record.updated_at >= record.created_at
            &&& record.updated_at >= before.updated_at
            &&& record.updated_at >= now
            &&& now > before.updated_at ==> record.updated_at == now && record.updated_at
                > record.created_at
        }),
{
    let at = store.slot(id, owner)->Some_0;
    let (after, answer) = store.update(id, owner, website, username, password, notes, now);
    assert(after.wf()) by {
        assert forall|i: int, j: int| 0 <= i < j < after.records.len() implies (
        #[trigger] after.records[i]).id != (#[trigger] after.records[j]).id by {
            assert(store.records[i].id != store.records[j].id);
        }
    }
    after.lemma_slot(at, owner + 1);
}

/// What is deleted is gone for good: after a successful delete no record
/// of the store has that id, every other record is still there, and a
/// second delete is refused as not found.
pub proof fn law_deleted_record_is_gone(store: StoreView, id: int, owner: int)
    requires
        store.wf(),
        store.delete(id, owner).1 is Ok,
    ensures
        ({
            let after = store.delete(id, owner).0;
            &&& after.wf()
            &&& after.records.len() == store.records.len() - 1
            &&& forall|i: int| 0 <= i < after.records.len() ==> (#[trigger] after.records[i]).id != id
            &&& forall|i: int|
                0 <= i < store.records.len() && (#[trigger] store.records[i]).id != id
                    ==> after.records.contains(store.records[i])
            &&& after.delete(id, owner) == (after, Err::<(), VaultError>(VaultError::NotFound))
        }),
{
    let at = store.slot(id, owner)->Some_0;
    let after = store.delete(id, owner).0;
    assert forall|i: int| 0 <= i < after.records.len() implies (#[trigger] after.records[i]).id
        != id by {
        if i < at {
            assert(after.records[i] == store.records[i]);
            assert(store.records[i].id != store.records[at].id);
        } else {
            assert(after.records[i] == store.records[i + 1]);
            assert(store.records[at].id != store.records[i + 1].id);
        }
    }
    assert forall|i: int, j: int| 0 <= i < j < after.records.len() implies (
    #[trigger] after.records[i]).id != (#[trigger] after.records[j]).id by {
        let a = if i < at { i } else { i + 1 };
        let b = if j < at { j } else { j + 1 };
        assert(after.records[i] == store.records[a]);
        assert(after.records[j] == store.records[b]);
        assert(store.records[a].id != store.records[b].id);
    }
    assert forall|i: int| 0 <= i < after.records.len() implies 1 <= (
    #[trigger] after.records[i]).id < after.next_id && after.records[i].created_at
        <= after.records[i].updated_at by {
        let a = if i < at { i } else { i + 1 };
        assert(after.records[i] == store.records[a]);
    }
    assert forall|i: int|
        0 <= i < store.records.len() && (#[trigger] store.records[i]).id
            != id implies after.records.contains(store.records[i]) by {
        if i < at {
            assert(after.records[i] == store.records[i]);
        } else {
            assert(after.records[i - 1] == store.records[i]);
        }
    }
}

/// Two owners behind two tokens. When two tokens speak for two different
/// accounts and the holder of the first creates a record, then the holder
/// of the second does not see it, cannot update it and cannot delete it,
/// each refusal being not found with the vault left as it was, while the
/// holder of the first can update it and can delete it.
pub proof fn law_sessions_are_kept_apart(
    vault: VaultView,
    first: Seq<char>,
    second: Seq<char>,
    website: Seq<char>,
    username: Seq<char>,
    password: Seq<char>,
    notes: Seq<char>,
    now: int,
    later: int,
)
    requires
        vault.wf(),
        vault.sessions.resolve(first, now) is Ok,
        vault.sessions.resolve(first, later) is Ok,
        vault.sessions.resolve(second, later) is Ok,
        vault.sessions.resolve(first, later) != vault.sessions.resolve(second, later),
        vault.create_credential(website, username, password, notes, first, now).1 is Ok,
    ensures
        ({
            let id = vault.store.next_id;
            let after = vault.create_credential(website, username, password, notes, first, now).0;
            &&& after.get_credentials(first, later) is Ok
            &&& exists|i: int|
                0 <= i < after.get_credentials(first, later)->Ok_0.len() && (
                #[trigger] after.get_credentials(first, later)->Ok_0[i]).id == id
            &&& after.get_credentials(second, later) is Ok
            &&& forall|i: int|
                0 <= i < after.get_credentials(second, later)->Ok_0.len() ==> (
                #[trigger] after.get_credentials(second, later)->Ok_0[i]).id != id
            &&& after.update_credential(id, website, username, password, notes, second, later) == (
                after,
                Err::<Seq<char>, VaultError>(VaultError::NotFound),
            )
            &&& after.delete_credential(id, second, later) == (
                after,
                Err::<Seq<char>, VaultError>(VaultError::NotFound),
            )
            &&& after.update_credential(id, website, username, password, notes, first, later).1 is Ok
            &&& after.delete_credential(id, first, later).1 is Ok
        }),
{
    let owner = vault.sessions.resolve(first, now)->Ok_0;
    let other = vault.sessions.resolve(second, later)->Ok_0;
    let id = vault.store.next_id;
    let after = vault.create_credential(website, username, password, notes, first, now).0;
    let at = vault.store.records.len() as int;
    law_created_record_is_listed(vault.store, owner, other, website, username, password, notes, now);
    assert(after.store.records[at].id == id);
    assert(after.store.wf());
    law_records_belong_to_their_owner(
        after.store,
        at,
        other,
        website,
        username,
        password,
        notes,
        later,
    );
    let mine = after.get_credentials(first, later)->Ok_0;
    assert(mine.contains(after.store.records[at]));
    let i = choose|i: int| 0 <= i < mine.len() && mine[i] == after.store.records[at];
    assert(mine[i].id == id);
}

/// Leaving out an element that fails a test does not change what passes
/// the test.
pub proof fn lemma_filter_without<A>(s: Seq<A>, at: int, test: spec_fn(A) -> bool)
    requires
        0 <= at < s.len(),
        !test(s[at]),
    ensures
        s.remove(at).filter(test) == s.filter(test),
{
    let front = s.take(at);
    let one = seq![s[at]];
    let back = s.skip(at + 1);
    assert(s =~= front + one + back);
    assert(s.remove(at) =~= front + back);
    Seq::filter_distributes_over_add(front + one, back, test);
    Seq::filter_distributes_over_add(front, one, test);
    Seq::filter_distributes_over_add(front, back, test);
    assert(one.filter(test) =~= Seq::<A>::empty()) by {
        reveal(Seq::filter);
        assert(one.drop_last() =~= Seq::<A>::empty());
        assert(one.drop_last().filter(test) =~= Seq::<A>::empty());
    }
    assert(front.filter(test) + one.filter(test) =~= front.filter(test));
}

/// A change stays with its owner. Whatever one owner updates or deletes,
/// with success or without, the list of every other owner is afterwards
/// what it was before.
pub proof fn law_changes_stay_with_their_owner(
    store: StoreView,
    id: int,
    owner: int,
    other: int,
    website: Seq<char>,
    username: Seq<char>,
    password: Seq<char>,
    notes: Seq<char>,
    now: int,
)
    requires
        store.wf(),
        other != owner,
    ensures
        store.update(id, owner, website, username, password, notes, now).0.list(other)
            == store.list(other),
        store.delete(id, owner).0.list(other) == store.list(other),
{
    if store.slot(id, owner) is Some {
        let at = store.slot(id, owner)->Some_0;
        let record = revised(store.records[at], website, username, password, notes, now);
        let updated = store.records.update(at, record);
        lemma_filter_without(store.records, at, owned_by(other));
        lemma_filter_without(updated, at, owned_by(other));
        assert(updated.remove(at) =~= store.records.remove(at));
    }
}

/// Accounts are written once. No command removes an account or changes
/// its id, its username, its email, its password hash, its encryption
/// salt or its second-factor secret: a login and every command on
/// credentials leave the registry as it was, a registration can only
/// append to it, and an accepted second-factor code changes nothing of an
/// account but the time step it remembers.
pub proof fn law_accounts_are_written_once(
    vault: VaultView,
    text_a: Seq<char>,
    text_b: Seq<char>,
    text_c: Seq<char>,
    text_d: Seq<char>,
    text_e: Seq<char>,
    token: Seq<char>,
    id: int,
    now: int,
    which: int,
)
    requires
        vault.wf(),
        0 <= which < vault.registry.users.len(),
    ensures
        vault.login(text_a, text_b, Some(token), now).0.registry == vault.registry,
        vault.create_credential(text_a, text_b, text_c, text_d, token, now).0.registry
            == vault.registry,
        vault.update_credential(id, text_a, text_b, text_c, text_d, token, now).0.registry
            == vault.registry,
        vault.delete_credential(id, token, now).0.registry == vault.registry,
        ({
            let after = vault.register_user(
                text_a,
                text_b,
                text_c,
                text_d,
                text_e,
                token,
                now,
            ).0.registry;
            &&& after.users.len() >= vault.registry.users.len()
            &&& after.users[which] == vault.registry.users[which]
        }),
        ({
            let before = vault.registry.users[which];
            let after = vault.verify_2fa(id, text_a, Some(token), now).0.registry;
            &&& after.users.len() == vault.registry.users.len()
            &&& after.users[which].id == before.id
            &&& after.users[which].username == before.username
            &&& after.users[which].email == before.email
            &&& after.users[which].password_hash == before.password_hash
            &&& after.users[which].encryption_salt == before.encryption_salt
            &&& after.users[which].twofa_secret == before.twofa_secret
            &&& before.id != id ==> after.users[which] == before
        }),
{
    if vault.registry.knows(id) {
        vault.registry.lemma_by_id(which);
    }
}

/// Records change only through the store's own commands: a login, a
/// second-factor code and a registration leave every record as it was, and
/// a command on credentials leaves every session as it was.
pub proof fn law_records_change_only_by_their_commands(
    vault: VaultView,
    text_a: Seq<char>,
    text_b: Seq<char>,
    text_c: Seq<char>,
    text_d: Seq<char>,
    text_e: Seq<char>,
    token: Seq<char>,
    id: int,
    now: int,
)
    requires
        vault.wf(),
    ensures
        vault.login(text_a, text_b, Some(token), now).0.store == vault.store,
        vault.verify_2fa(id, text_a, Some(token), now).0.store == vault.store,
        vault.register_user(text_a, text_b, text_c, text_d, text_e, token, now).0.store
            == vault.store,
        vault.create_credential(text_a, text_b, text_c, text_d, token, now).0.sessions
            == vault.sessions,
        vault.update_credential(id, text_a, text_b, text_c, text_d, token, now).0.sessions
            == vault.sessions,
        vault.delete_credential(id, token, now).0.sessions == vault.sessions,
{
}

} // verus!
