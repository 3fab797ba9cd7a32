//! Owner-scoped storage of credential records. Every read and every change
//! goes by the pair of record id and owner id, so a record is invisible to
//! everyone but its owner.

use crate::errors::{viewed, VaultError};
use vstd::prelude::*;

verus! {

/// One stored credential.
#[derive(Debug, PartialEq, Eq)]
pub struct Credential {
    /// Assigned by the store, never reused.
    pub id: i32,
    /// The account the record belongs to.
    pub user_id: i32,
    pub website: String,
    pub username: String,
    /// Ciphertext made by the client. The store never reads it.
    pub password: String,
    pub notes: String,
    /// The moment the record was created.
    pub created_at: u64,
    /// The moment of the latest change; never before `created_at`.
    pub updated_at: u64,
}

/// A stored credential as the contracts see it.
pub struct CredentialView {
    pub id: int,
    pub user_id: int,
    pub website: Seq<char>,
    pub username: Seq<char>,
    pub password: Seq<char>,
    pub notes: Seq<char>,
    pub created_at: int,
    pub updated_at: int,
}

impl View for Credential {
    type V = CredentialView;

    open spec fn view(&self) -> CredentialView {
        CredentialView {
            id: self.id as int,
            user_id: self.user_id as int,
            website: self.website@,
            username: self.username@,
            password: self.password@,
            notes: self.notes@,
            created_at: self.created_at as int,
            updated_at: self.updated_at as int,
        }
    }
}

impl Clone for Credential {
    fn clone(&self) -> (copy: Self)
        ensures
            copy == *self,
    {
        Credential {
            id: self.id,
            user_id: self.user_id,
            website: self.website.clone(),
            username: self.username.clone(),
            password: self.password.clone(),
            notes: self.notes.clone(),
            created_at: self.created_at,
            updated_at: self.updated_at,
        }
    }
}

/// The views of a sequence of records, in order.
pub open spec fn views_of(records: Seq<Credential>) -> Seq<CredentialView> {
    records.map_values(|c: Credential| c@)
}

/// The test "belongs to `owner`".
pub open spec fn owned_by(owner: int) -> spec_fn(CredentialView) -> bool {
    |c: CredentialView| c.user_id == owner
}

/// The later of two moments.
pub open spec fn later(a: int, b: int) -> int {
    if a < b {
        b
    } else {
        a
    }
}

/// A record after a change at the moment `now`: the four payload fields are
/// replaced, the update time moves forward to `now` and never backwards,
/// everything else stays.
pub open spec fn revised(
    record: CredentialView,
    website: Seq<char>,
    username: Seq<char>,
    password: Seq<char>,
    notes: Seq<char>,
    now: int,
) -> CredentialView {
    CredentialView {
        id: record.id,
        user_id: record.user_id,
        website,
        username,
        password,
        notes,
        created_at: record.created_at,
        updated_at: later(record.updated_at, now),
    }
}

/// The records of a store as the contracts see them.
pub struct StoreView {
    /// The records, oldest first.
    pub records: Seq<CredentialView>,
    /// The id the next record gets.
    pub next_id: int,
}

impl StoreView {
    /// Ids are unique and were handed out by the store, and no record was
    /// updated before it was created.
    pub open spec fn wf(self) -> bool {
        &&& 1 <= self.next_id <= i32::MAX
        &&& forall|i: int|
            0 <= i < self.records.len() ==> {
                &&& 1 <= (#[trigger] self.records[i]).id < self.next_id
                &&& self.records[i].created_at <= self.records[i].updated_at
            }
        &&& forall|i: int, j: int|
            0 <= i < j < self.records.len() ==> (#[trigger] self.records[i]).id != (
            #[trigger] self.records[j]).id
    }

    /// Everything `owner` owns, oldest first.
    pub open spec fn list(self, owner: int) -> Seq<CredentialView> {
        self.records.filter(owned_by(owner))
    }

    /// Where the record with this id lies, if `owner` owns it.
    pub open spec fn slot(self, id: int, owner: int) -> Option<int> {
        if exists|i: int|
            0 <= i < self.records.len() && (#[trigger] self.records[i]).id == id
                && self.records[i].user_id == owner {
            Some(
                choose|i: int|
                    0 <= i < self.records.len() && (#[trigger] self.records[i]).id == id
                        && self.records[i].user_id == owner,
            )
        } else {
            None
        }
    }

    /// In a well-formed store a record lies where its id and its owner
    /// are looked up, and nowhere is it found under its id and another
    /// owner.
    pub proof fn lemma_slot(self, at: int, other: int)
        requires
            self.wf(),
            0 <= at < self.records.len(),
            other != self.records[at].user_id,
        ensures
            self.slot(self.records[at].id, self.records[at].user_id) == Some(at),
            self.slot(self.records[at].id, other).is_none(),
    {
        let id = self.records[at].id;
        let owner = self.records[at].user_id;
        let chosen = choose|i: int|
            0 <= i < self.records.len() && (#[trigger] self.records[i]).id == id
                && self.records[i].user_id == owner;
        if chosen < at {
            assert(self.records[chosen].id != self.records[at].id);
        }
        if at < chosen {
            assert(self.records[at].id != self.records[chosen].id);
        }
        assert forall|i: int| 0 <= i < self.records.len() implies !((#[trigger] self.records[i]).id
            == id && self.records[i].user_id == other) by {
            if i < at {
                assert(self.records[i].id != self.records[at].id);
            }
            if at < i {
                assert(self.records[at].id != self.records[i].id);
            }
        }
    }

    /// The record with this id, if `owner` owns it.
    pub open spec fn get(self, id: int, owner: int) -> Option<CredentialView> {
        match self.slot(id, owner) {
            Some(i) => Some(self.records[i]),
            None => None,
        }
    }

    /// The record a successful `create` adds.
    pub open spec fn new_record(
        self,
        owner: int,
        website: Seq<char>,
        username: Seq<char>,
        password: Seq<char>,
        notes: Seq<char>,
        now: int,
    ) -> CredentialView {
        CredentialView {
            id: self.next_id,
            user_id: owner,
            website,
            username,
            password,
            notes,
            created_at: now,
            updated_at: now,
        }
    }

    /// What creating a record does, as the store afterwards and the
    /// answer: refused, with the store as it was, when the ids have run out,
    /// otherwise the record is appended under the next id with both
    /// timestamps at `now`.
    pub open spec fn create(
        self,
        owner: int,
        website: Seq<char>,
        username: Seq<char>,
        password: Seq<char>,
        notes: Seq<char>,
        now: int,
    ) -> (StoreView, Result<CredentialView, VaultError>) {
        let record = self.new_record(owner, website, username, password, notes, now);
        if self.next_id >= i32::MAX {
            (self, Err(VaultError::Storage))
        } else {
            (StoreView { records: self.records.push(record), next_id: self.next_id + 1 }, Ok(record))
        }
    }

    /// What updating a record does, as the store afterwards and the
    /// answer: refused, with the store as it was, when `owner` owns no
    /// record with this id, otherwise that record, and no other, is revised.
    pub open spec fn update(
        self,
        id: int,
        owner: int,
        website: Seq<char>,
        username: Seq<char>,
        password: Seq<char>,
        notes: Seq<char>,
        now: int,
    ) -> (StoreView, Result<CredentialView, VaultError>) {
        match self.slot(id, owner) {
            None => (self, Err(VaultError::NotFound)),
            Some(i) => {
                let record = revised(self.records[i], website, username, password, notes, now);
                (
                    StoreView { records: self.records.update(i, record), next_id: self.next_id },
                    Ok(record),
                )
            },
        }
    }

    /// What deleting a record does, as the store afterwards and the
    /// answer: refused, with the store as it was, when `owner` owns no
    /// record with this id, otherwise that record, and no other, is gone.
    pub open spec fn delete(self, id: int, owner: int) -> (StoreView, Result<(), VaultError>) {
        match self.slot(id, owner) {
            None => (self, Err(VaultError::NotFound)),
            Some(i) => (
                StoreView { records: self.records.remove(i), next_id: self.next_id },
                Ok(()),
            ),
        }
    }
}

/// The store that holds exactly these records.
pub open spec fn store_of(records: Seq<Credential>, next_id: int) -> StoreView {
    StoreView { records: views_of(records), next_id }
}

/// The credential records of the vault.
#[derive(Debug)]
pub struct VaultStore {
    records: Vec<Credential>,
    next_id: i32,
}

impl View for VaultStore {
    type V = StoreView;

    closed spec fn view(&self) -> StoreView {
        store_of(self.records@, self.next_id as int)
    }
}

impl VaultStore {
    /// The invariant of the store.
    pub open spec fn wf(&self) -> bool {
        self@.wf()
    }

    /// A store without records; the first record gets id 1.
    pub fn new() -> (store: Self)
        ensures
            store.wf(),
            store@.records.len() == 0,
            store@.next_id == 1,
    {
        VaultStore { records: Vec::new(), next_id: 1 }
    }

    /// Where the record with this id lies, if `owner_id` owns it.
    fn position(&self, id: i32, owner_id: i32) -> (at: Option<usize>)
        requires
            self.wf(),
        ensures
            match at {
                Some(i) => self@.slot(id as int, owner_id as int) == Some(i as int) && i
                    < self.records.len(),
                None => self@.slot(id as int, owner_id as int).is_none(),
            },
    {
        let mut i: usize = 0;
        while i < self.records.len()
            invariant
                self.wf(),
                i <= self.records.len(),
                forall|k: int|
                    0 <= k < i ==> !((#[trigger] self@.records[k]).id == id
                        && self@.records[k].user_id == owner_id),
            decreases self.records.len() - i,
        {
            if self.records[i].id == id && self.records[i].user_id == owner_id {
                proof {
                    self@.lemma_slot(i as int, owner_id as int + 1);
                }
                return Some(i);
            }
            i = i + 1;
        }
        None
    }

    /// All records of `owner_id`, oldest first.
    pub fn list(&self, owner_id: i32) -> (owned: Vec<Credential>)
        requires
            self.wf(),
        ensures
            views_of(owned@) == self@.list(owner_id as int),
    {
        let mut owned: Vec<Credential> = Vec::new();
        let mut i: usize = 0;
        proof {
            reveal(Seq::filter);
            assert(self@.records.take(0).filter(owned_by(owner_id as int)) =~= Seq::empty());
            assert(views_of(owned@) =~= Seq::empty());
        }
        while i < self.records.len()
            invariant
                i <= self.records.len(),
                views_of(owned@) == self@.records.take(i as int).filter(owned_by(owner_id as int)),
            decreases self.records.len() - i,
        {
            proof {
                reveal(Seq::filter);
                let upto = self@.records.take(i as int + 1);
                assert(upto.drop_last() =~= self@.records.take(i as int));
                assert(upto.last() == self@.records[i as int]);
            }
            if self.records[i].user_id == owner_id {
                let copy = self.records[i].clone();
                proof {
                    assert(views_of(owned@.push(copy)) =~= views_of(owned@).push(copy@));
                }
                owned.push(copy);
            }
            i = i + 1;
        }
        proof {
            assert(self@.records.take(i as int) =~= self@.records);
        }
        owned
    }

    /// Stores a new record for `owner_id` under the next id, with both
    /// timestamps at `now`, and hands back a copy. Refused, with the store
    /// unchanged, when the ids have run out.
    pub fn create(
        &mut self,
        owner_id: i32,
        website: String,
        username: String,
        password: String,
        notes: String,
        now: u64,
    ) -> (r: Result<Credential, VaultError>)
        requires
            old(self).wf(),
        ensures
            final(self).wf(),
            old(self)@.create(
                owner_id as int,
                website@,
                username@,
                password@,
                notes@,
                now as int,
            ) == (final(self)@, viewed(r)),
    {
        if self.next_id >= i32::MAX {
            return Err(VaultError::Storage);
        }
        let id = self.next_id;
        let record = Credential {
            id,
            user_id: owner_id,
            website,
            username,
            password,
            notes,
            created_at: now,
            updated_at: now,
        };
        let copy = record.clone();
        self.records.push(record);
        self.next_id = id + 1;
        proof {
            assert(self@.records =~= old(self)@.records.push(record@));
        }
        Ok(copy)
    }

    /// Replaces the payload of the record with this id, if `owner_id` owns
    /// it, moves its update time forward to `now`, and hands back a copy.
    /// Refused, with the store unchanged, when `owner_id` owns no such
    /// record; whether the id exists for someone else is not told.
    pub fn update(
        &mut self,
        id: i32,
        owner_id: i32,
        website: String,
        username: String,
        password: String,
        notes: String,
        now: u64,
    ) -> (r: Result<Credential, VaultError>)
        requires
            old(self).wf(),
        ensures
            final(self).wf(),
            old(self)@.update(
                id as int,
                owner_id as int,
                website@,
                username@,
                password@,
                notes@,
                now as int,
            ) == (final(self)@, viewed(r)),
    {
        let at = match self.position(id, owner_id) {
            Some(i) => i,
            None => {
                return Err(VaultError::NotFound);
            },
        };
        let created_at = self.records[at].created_at;
        let before = self.records[at].updated_at;
        let updated_at = if before < now {
            now
        } else {
            before
        };
        let record = Credential {
            id,
            user_id: owner_id,
            website,
            username,
            password,
            notes,
            created_at,
            updated_at,
        };
        let copy = record.clone();
        self.records.set(at, record);
        proof {
            assert(self@.records =~= old(self)@.records.update(at as int, record@));
        }
        Ok(copy)
    }

    /// Removes the record with this id, if `owner_id` owns it. Refused, with
    /// the store unchanged, when `owner_id` owns no such record.
    pub fn delete(&mut self, id: i32, owner_id: i32) -> (r: Result<(), VaultError>)
        requires
            old(self).wf(),
        ensures
            final(self).wf(),
            old(self)@.delete(id as int, owner_id as int) == (final(self)@, r),
    {
        let at = match self.position(id, owner_id) {
            Some(i) => i,
            None => {
                return Err(VaultError::NotFound);
            },
        };
        self.records.remove(at);
        proof {
            assert(self@.records =~= old(self)@.records.remove(at as int));
        }
        Ok(())
    }

    /// The records, oldest first.
    pub fn records(&self) -> (records: &Vec<Credential>)
        ensures
            views_of(records@) == self@.records,
    {
        &self.records
    }

    /// Rebuilds a store from records that were stored earlier and the id
    /// the next record is to get. Succeeds exactly when they form a
    /// well-formed store: every id handed out before `next_id`, no id
    /// twice, and no record updated before it was created.
    pub fn restore(records: Vec<Credential>, next_id: i32) -> (r: Result<VaultStore, VaultError>)
        ensures
            match r {
                Ok(store) => {
                    &&& store.wf()
                    &&& store@ == store_of(records@, next_id as int)
                },
                Err(e) => {
                    &&& e == VaultError::Storage
                    &&& !store_of(records@, next_id as int).wf()
                },
            },
    {
        let ghost target = store_of(records@, next_id as int);
        if next_id < 1 {
            return Err(VaultError::Storage);
        }
        let mut i: usize = 0;
        while i < records.len()
            invariant
                i <= records.len(),
                1 <= next_id,
                target == store_of(records@, next_id as int),
                forall|a: int|
                    0 <= a < i ==> {
                        &&& 1 <= (#[trigger] target.records[a]).id < next_id
                        &&& target.records[a].created_at <= target.records[a].updated_at
                    },
                forall|a: int, b: int|
                    0 <= a < b < i ==> (#[trigger] target.records[a]).id != (
                    #[trigger] target.records[b]).id,
            decreases records.len() - i,
        {
            if records[i].id < 1 || records[i].id >= next_id || records[i].created_at
                > records[i].updated_at {
                assert(!(1 <= target.records[i as int].id < next_id
                    && target.records[i as int].created_at <= target.records[i as int].updated_at));
                return Err(VaultError::Storage);
            }
            let mut j: usize = 0;
            while j < i
                invariant
                    j <= i < records.len(),
                    target == store_of(records@, next_id as int),
                    forall|a: int|
                        0 <= a < j ==> (#[trigger] target.records[a]).id != target.records[i as int].id,
                decreases i - j,
            {
                if records[j].id == records[i].id {
                    assert(target.records[j as int].id == target.records[i as int].id);
                    return Err(VaultError::Storage);
                }
                j = j + 1;
            }
            i = i + 1;
        }
        Ok(VaultStore { records, next_id })
    }
}

} // verus!
