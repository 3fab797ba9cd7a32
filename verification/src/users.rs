//! Accounts and the registry that keeps usernames and emails unique.

use crate::errors::{viewed, VaultError};
use vstd::prelude::*;

verus! {

/// One account of the vault.
#[derive(Debug, PartialEq, Eq)]
pub struct User {
    /// Assigned by the registry, never reused.
    pub id: i32,
    /// Unique among all accounts, compared letter for letter.
    pub username: String,
    /// Unique among all accounts.
    pub email: String,
    /// The bcrypt hash of the login password.
    pub password_hash: String,
    /// Thirty-two hexadecimal digits drawn at registration. The client
    /// derives its encryption key from them; the vault only stores them.
    pub encryption_salt: String,
    /// The enrolment secret of the second factor, where one is enrolled.
    pub twofa_secret: Option<String>,
    /// The time step of the latest second-factor code that was accepted.
    /// No code for that step or an earlier one is accepted again.
    pub twofa_last_step: Option<u64>,
}

/// An account as the contracts see it.
pub struct UserView {
    pub id: int,
    pub username: Seq<char>,
    pub email: Seq<char>,
    pub password_hash: Seq<char>,
    pub encryption_salt: Seq<char>,
    pub twofa_secret: Option<Seq<char>>,
    pub twofa_last_step: Option<int>,
}

/// An optional time step as a mathematical integer.
pub open spec fn opt_step(step: Option<u64>) -> Option<int> {
    match step {
        Some(s) => Some(s as int),
        None => None,
    }
}

/// The account with `step` as its latest accepted time step.
pub open spec fn stepped(user: UserView, step: int) -> UserView {
    UserView {
        id: user.id,
        username: user.username,
        email: user.email,
        password_hash: user.password_hash,
        encryption_salt: user.encryption_salt,
        twofa_secret: user.twofa_secret,
        twofa_last_step: Some(step),
    }
}

/// The text inside an optional string.
pub open spec fn opt_text(s: Option<String>) -> Option<Seq<char>> {
    match s {
        Some(t) => Some(t@),
        None => None,
    }
}

impl View for User {
    type V = UserView;

    open spec fn view(&self) -> UserView {
        UserView {
            id: self.id as int,
            username: self.username@,
            email: self.email@,
            password_hash: self.password_hash@,
            encryption_salt: self.encryption_salt@,
            twofa_secret: opt_text(self.twofa_secret),
            twofa_last_step: opt_step(self.twofa_last_step),
        }
    }
}

impl Clone for User {
    fn clone(&self) -> (copy: Self)
        ensures
            copy == *self,
    {
        User {
            id: self.id,
            username: self.username.clone(),
            email: self.email.clone(),
            password_hash: self.password_hash.clone(),
            encryption_salt: self.encryption_salt.clone(),
            twofa_secret: self.twofa_secret.clone(),
            twofa_last_step: self.twofa_last_step,
        }
    }
}

/// The accounts of a registry as the contracts see them.
pub struct RegistryView {
    /// The accounts, oldest first.
    pub users: Seq<UserView>,
    /// The id the next account gets.
    pub next_id: int,
}

impl RegistryView {
    /// Ids, usernames and emails are each unique, and every id is one the
    /// registry has handed out.
    pub open spec fn wf(self) -> bool {
        &&& 1 <= self.next_id <= i32::MAX
        &&& forall|i: int|
            0 <= i < self.users.len() ==> 1 <= (#[trigger] self.users[i]).id < self.next_id
        &&& forall|i: int, j: int|
            0 <= i < j < self.users.len() ==> {
                &&& (#[trigger] self.users[i]).id != (#[trigger] self.users[j]).id
                &&& self.users[i].username != self.users[j].username
                &&& self.users[i].email != self.users[j].email
            }
    }

    /// Some account already has this username or this email.
    pub open spec fn taken(self, username: Seq<char>, email: Seq<char>) -> bool {
        exists|i: int|
            0 <= i < self.users.len() && ((#[trigger] self.users[i]).username == username
                || self.users[i].email == email)
    }

    /// The account with this username, if there is one.
    pub open spec fn by_username(self, username: Seq<char>) -> Option<UserView> {
        if exists|i: int| 0 <= i < self.users.len() && (#[trigger] self.users[i]).username == username {
            Some(
                self.users[choose|i: int|
                    0 <= i < self.users.len() && (#[trigger] self.users[i]).username == username],
            )
        } else {
            None
        }
    }

    /// The account with this id, if there is one.
    pub open spec fn by_id(self, id: int) -> Option<UserView> {
        if exists|i: int| 0 <= i < self.users.len() && (#[trigger] self.users[i]).id == id {
            Some(
                self.users[choose|i: int|
                    0 <= i < self.users.len() && (#[trigger] self.users[i]).id == id],
            )
        } else {
            None
        }
    }

    /// Some account has this id.
    pub open spec fn knows(self, id: int) -> bool {
        self.by_id(id) is Some
    }

    /// Where the account with this id lies.
    pub open spec fn index_of(self, id: int) -> int {
        choose|i: int| 0 <= i < self.users.len() && (#[trigger] self.users[i]).id == id
    }

    /// The registry after a second-factor code for time step `step` was
    /// accepted for the account with this id: that account remembers the
    /// step, and nothing else changes.
    pub open spec fn with_step(self, id: int, step: int) -> RegistryView {
        if self.knows(id) {
            RegistryView {
                users: self.users.update(
                    self.index_of(id),
                    stepped(self.users[self.index_of(id)], step),
                ),
                next_id: self.next_id,
            }
        } else {
            self
        }
    }

    /// In a well-formed registry the account found under a username is the
    /// only one with that username.
    pub proof fn lemma_by_username(self, at: int)
        requires
            self.wf(),
            0 <= at < self.users.len(),
        ensures
            self.by_username(self.users[at].username) == Some(self.users[at]),
    {
        let username = self.users[at].username;
        let chosen = choose|i: int|
            0 <= i < self.users.len() && (#[trigger] self.users[i]).username == username;
        if chosen < at {
            assert(self.users[chosen].username != self.users[at].username);
        }
        if at < chosen {
            assert(self.users[at].username != self.users[chosen].username);
        }
    }

    /// In a well-formed registry the account found under an id is the only
    /// one with that id.
    pub proof fn lemma_by_id(self, at: int)
        requires
            self.wf(),
            0 <= at < self.users.len(),
        ensures
            self.by_id(self.users[at].id) == Some(self.users[at]),
            self.index_of(self.users[at].id) == at,
    {
        let id = self.users[at].id;
        let chosen = self.index_of(id);
        if chosen < at {
            assert(self.users[chosen].id != self.users[at].id);
        }
        if at < chosen {
            assert(self.users[at].id != self.users[chosen].id);
        }
    }

    /// Remembering a time step keeps the registry well formed and keeps
    /// every account known that was known.
    pub proof fn lemma_with_step(self, id: int, step: int, other: int)
        requires
            self.wf(),
        ensures
            self.with_step(id, step).wf(),
            self.knows(other) ==> self.with_step(id, step).knows(other),
            self.by_id(id) matches Some(user) ==> self.with_step(id, step).by_id(id) == Some(
                stepped(user, step),
            ),
    {
        let after = self.with_step(id, step);
        if self.knows(id) {
            let at = self.index_of(id);
            self.lemma_by_id(at);
            assert forall|i: int| 0 <= i < after.users.len() implies (#[trigger] after.users[i]).id
                == self.users[i].id && after.users[i].username == self.users[i].username
                && after.users[i].email == self.users[i].email by {}
            assert forall|i: int, j: int| 0 <= i < j < after.users.len() implies {
                &&& (#[trigger] after.users[i]).id != (#[trigger] after.users[j]).id
                &&& after.users[i].username != after.users[j].username
                &&& after.users[i].email != after.users[j].email
            } by {
                assert(self.users[i].id != self.users[j].id);
            }
            if self.knows(other) {
                let k = self.index_of(other);
                assert(after.users[k].id == other);
            }
            assert(after.users[at] == stepped(self.users[at], step));
            assert(after.wf());
            after.lemma_by_id(at);
        }
    }

    /// The registry with one more account, the next id moved on.
    pub open spec fn with_user(self, user: UserView) -> RegistryView {
        RegistryView { users: self.users.push(user), next_id: self.next_id + 1 }
    }

    /// An account that is appended is known afterwards, and so is every
    /// account that was known before.
    pub proof fn lemma_with_user_knows(self, user: UserView, id: int)
        ensures
            self.with_user(user).knows(user.id),
            self.knows(id) ==> self.with_user(user).knows(id),
    {
        let grown = self.with_user(user);
        assert(grown.users[self.users.len() as int].id == user.id);
        if self.knows(id) {
            let at = choose|i: int| 0 <= i < self.users.len() && (#[trigger] self.users[i]).id == id;
            assert(grown.users[at].id == id);
        }
    }

    /// The account a successful registration adds.
    pub open spec fn new_user(
        self,
        username: Seq<char>,
        email: Seq<char>,
        password_hash: Seq<char>,
        encryption_salt: Seq<char>,
        twofa_secret: Option<Seq<char>>,
    ) -> UserView {
        UserView {
            id: self.next_id,
            username,
            email,
            password_hash,
            encryption_salt,
            twofa_secret,
            twofa_last_step: None,
        }
    }

    /// What registering an account does, as the registry afterwards and
    /// the answer: refused when the username or the email is taken, refused
    /// when the ids have run out, and otherwise the new account is appended
    /// under the next id. A refusal leaves the registry as it was.
    pub open spec fn register(
        self,
        username: Seq<char>,
        email: Seq<char>,
        password_hash: Seq<char>,
        encryption_salt: Seq<char>,
        twofa_secret: Option<Seq<char>>,
    ) -> (RegistryView, Result<UserView, VaultError>) {
        let user = self.new_user(username, email, password_hash, encryption_salt, twofa_secret);
        if self.taken(username, email) {
            (self, Err(VaultError::DuplicateUser))
        } else if self.next_id >= i32::MAX {
            (self, Err(VaultError::Storage))
        } else {
            (self.with_user(user), Ok(user))
        }
    }
}

/// The views of a sequence of accounts, in order.
pub open spec fn user_views(users: Seq<User>) -> Seq<UserView> {
    users.map_values(|u: User| u@)
}

/// The registry that holds exactly these accounts.
pub open spec fn registry_of(users: Seq<User>, next_id: int) -> RegistryView {
    RegistryView { users: user_views(users), next_id }
}

/// The accounts of the vault.
#[derive(Debug)]
pub struct UserRegistry {
    users: Vec<User>,
    next_id: i32,
}

impl View for UserRegistry {
    type V = RegistryView;

    closed spec fn view(&self) -> RegistryView {
        registry_of(self.users@, self.next_id as int)
    }
}

impl UserRegistry {
    /// The invariant of the registry.
    pub open spec fn wf(&self) -> bool {
        self@.wf()
    }

    /// A registry without accounts; the first account gets id 1.
    pub fn new() -> (registry: Self)
        ensures
            registry.wf(),
            registry@.users.len() == 0,
            registry@.next_id == 1,
    {
        UserRegistry { users: Vec::new(), next_id: 1 }
    }

    /// The id the next account gets.
    pub fn next_id(&self) -> (id: i32)
        ensures
            id == self@.next_id,
    {
        self.next_id
    }

    /// Whether an account has this username or this email.
    pub fn is_taken(&self, username: &String, email: &String) -> (taken: bool)
        requires
            self.wf(),
        ensures
            taken == self@.taken(username@, email@),
    {
        let mut i: usize = 0;
        while i < self.users.len()
            invariant
                i <= self.users.len(),
                forall|k: int|
                    0 <= k < i ==> (#[trigger] self@.users[k]).username != username@
                        && self@.users[k].email != email@,
            decreases self.users.len() - i,
        {
            if self.users[i].username == *username || self.users[i].email == *email {
                assert(self@.users[i as int].username == username@ || self@.users[i as int].email
                    == email@);
                return true;
            }
            i = i + 1;
        }
        false
    }

    /// The account with this username.
    pub fn find_by_username(&self, username: &String) -> (found: Option<&User>)
        requires
            self.wf(),
        ensures
            match found {
                Some(user) => self@.by_username(username@) == Some(user@),
                None => self@.by_username(username@).is_none(),
            },
    {
        let mut i: usize = 0;
        while i < self.users.len()
            invariant
                self.wf(),
                i <= self.users.len(),
                forall|k: int| 0 <= k < i ==> (#[trigger] self@.users[k]).username != username@,
            decreases self.users.len() - i,
        {
            if self.users[i].username == *username {
                proof {
                    self@.lemma_by_username(i as int);
                }
                return Some(&self.users[i]);
            }
            i = i + 1;
        }
        None
    }

    /// The account with this id.
    pub fn find_by_id(&self, id: i32) -> (found: Option<&User>)
        requires
            self.wf(),
        ensures
            match found {
                Some(user) => self@.by_id(id as int) == Some(user@),
                None => self@.by_id(id as int).is_none(),
            },
    {
        let mut i: usize = 0;
        while i < self.users.len()
            invariant
                self.wf(),
                i <= self.users.len(),
                forall|k: int| 0 <= k < i ==> (#[trigger] self@.users[k]).id != id,
            decreases self.users.len() - i,
        {
            if self.users[i].id == id {
                proof {
                    self@.lemma_by_id(i as int);
                }
                return Some(&self.users[i]);
            }
            i = i + 1;
        }
        None
    }

    /// Adds an account under the next id and hands back a copy of it,
    /// unless its username or its email is taken or the ids have run out.
    /// A refusal leaves the registry as it was.
    pub fn register(
        &mut self,
        username: String,
        email: String,
        password_hash: String,
        encryption_salt: String,
        twofa_secret: Option<String>,
    ) -> (r: Result<User, VaultError>)
        requires
            old(self).wf(),
        ensures
            final(self).wf(),
            old(self)@.register(
                username@,
                email@,
                password_hash@,
                encryption_salt@,
                opt_text(twofa_secret),
            ) == (final(self)@, viewed(r)),
    {
        if self.is_taken(&username, &email) {
            return Err(VaultError::DuplicateUser);
        }
        if self.next_id >= i32::MAX {
            return Err(VaultError::Storage);
        }
        let id = self.next_id;
        let user = User {
            id,
            username,
            email,
            password_hash,
            encryption_salt,
            twofa_secret,
            twofa_last_step: None,
        };
        let copy = user.clone();
        self.users.push(user);
        self.next_id = id + 1;
        proof {
            assert(self@.users =~= old(self)@.users.push(user@));
        }
        Ok(copy)
    }

    /// Remembers, for the account with this id, the time step of a
    /// second-factor code that was just accepted.
    pub fn record_step(&mut self, id: i32, step: u64)
        requires
            old(self).wf(),
            old(self)@.knows(id as int),
        ensures
            final(self).wf(),
            final(self)@ == old(self)@.with_step(id as int, step as int),
    {
        let mut i: usize = 0;
        while i < self.users.len()
            invariant
                self.wf(),
                *self == *old(self),
                i <= self.users.len(),
                forall|k: int| 0 <= k < i ==> (#[trigger] self@.users[k]).id != id,
            decreases self.users.len() - i,
        {
            if self.users[i].id == id {
                let mut user = self.users[i].clone();
                user.twofa_last_step = Some(step);
                proof {
                    self@.lemma_by_id(i as int);
                    self@.lemma_with_step(id as int, step as int, id as int);
                }
                self.users.set(i, user);
                proof {
                    assert(self@.users =~= old(self)@.users.update(
                        i as int,
                        stepped(old(self)@.users[i as int], step as int),
                    ));
                }
                return ;
            }
            i = i + 1;
        }
        proof {
            let at = old(self)@.index_of(id as int);
            assert(self@.users[at].id == id);
        }
    }

    /// The accounts, oldest first.
    pub fn users(&self) -> (users: &Vec<User>)
        ensures
            user_views(users@) == self@.users,
    {
        &self.users
    }

    /// Rebuilds a registry from accounts that were stored earlier and the
    /// id the next account is to get. Succeeds exactly when they form a
    /// well-formed registry: every id handed out before `next_id`, and no
    /// id, username or email twice.
    pub fn restore(users: Vec<User>, next_id: i32) -> (r: Result<UserRegistry, VaultError>)
        ensures
            match r {
                Ok(registry) => {
                    &&& registry.wf()
                    &&& registry@ == registry_of(users@, next_id as int)
                },
                Err(e) => {
                    &&& e == VaultError::Storage
                    &&& !registry_of(users@, next_id as int).wf()
                },
            },
    {
        let ghost target = registry_of(users@, next_id as int);
        if next_id < 1 {
            return Err(VaultError::Storage);
        }
        let mut i: usize = 0;
        while i < users.len()
            invariant
                i <= users.len(),
                1 <= next_id,
                target == registry_of(users@, next_id as int),
                forall|a: int| 0 <= a < i ==> 1 <= (#[trigger] target.users[a]).id < next_id,
                forall|a: int, b: int|
                    0 <= a < b < i ==> {
                        &&& (#[trigger] target.users[a]).id != (#[trigger] target.users[b]).id
                        &&& target.users[a].username != target.users[b].username
                        &&& target.users[a].email != target.users[b].email
                    },
            decreases users.len() - i,
        {
            if users[i].id < 1 || users[i].id >= next_id {
                assert(!(1 <= target.users[i as int].id < next_id));
                return Err(VaultError::Storage);
            }
            let mut j: usize = 0;
            while j < i
                invariant
                    j <= i < users.len(),
                    target == registry_of(users@, next_id as int),
                    forall|a: int|
                        0 <= a < j ==> {
                            &&& (#[trigger] target.users[a]).id != target.users[i as int].id
                            &&& target.users[a].username != target.users[i as int].username
                            &&& target.users[a].email != target.users[i as int].email
                        },
                decreases i - j,
            {
                if users[j].id == users[i].id || users[j].username == users[i].username
                    || users[j].email == users[i].email {
                    assert(target.users[j as int].id == target.users[i as int].id
                        || target.users[j as int].username == target.users[i as int].username
                        || target.users[j as int].email == target.users[i as int].email);
                    return Err(VaultError::Storage);
                }
                j = j + 1;
            }
            i = i + 1;
        }
        Ok(UserRegistry { users, next_id })
    }
}

} // verus!
