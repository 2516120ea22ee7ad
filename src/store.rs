//! An in-memory collection of users that keeps usernames unique, standing for
//! the document collection with its unique index on `username`.
use vstd::prelude::*;

use crate::model::{User, UserView};

verus! {

/// What a lookup by username finds in a collection of users.
pub open spec fn lookup(db: Map<Seq<char>, UserView>, name: Seq<char>) -> Option<UserView> {
    if db.contains_key(name) {
        Some(db[name])
    } else {
        None
    }
}

/// Each stored record sits under its own username.
pub open spec fn keyed_by_username(db: Map<Seq<char>, UserView>) -> bool {
    forall|k: Seq<char>| #[trigger] db.contains_key(k) ==> db[k].username == k
}

/// The failure of an insert.
#[derive(Debug, PartialEq, Eq)]
pub enum StoreError {
    /// A record with this username is already stored.
    DuplicateUsername(String),
}

impl StoreError {
    /// The error text handed to the caller.
    pub fn message(&self) -> (r: String)
        ensures
            r@ == store_error_text(*self),
    {
        match self {
            StoreError::DuplicateUsername(name) => {
                let mut s = String::from_str("duplicate key error: username ");
                s.append(name.as_str());
                s
            },
        }
    }
}

/// The error text for an insert under a username that is taken.
pub open spec fn duplicate_text(name: Seq<char>) -> Seq<char> {
    "duplicate key error: username "@ + name
}

/// The error text of a store failure.
pub open spec fn store_error_text(e: StoreError) -> Seq<char> {
    match e {
        StoreError::DuplicateUsername(name) => duplicate_text(name@),
    }
}

/// A collection of users in which no two records share a username.
pub struct UserStore {
    users: Vec<User>,
    db: Ghost<Map<Seq<char>, UserView>>,
}

impl View for UserStore {
    type V = Map<Seq<char>, UserView>;

    /// The stored records, by username.
    closed spec fn view(&self) -> Map<Seq<char>, UserView> {
        self.db@
    }
}

impl UserStore {
    /// The records in `users` are those of `db`, one per username.
    pub closed spec fn wf(&self) -> bool {
        &&& forall|i: int|
            0 <= i < self.users@.len() ==> {
                &&& #[trigger] self.db@.contains_key(self.users@[i].username@)
                &&& self.db@[self.users@[i].username@] == self.users@[i]@
            }
        &&& forall|k: Seq<char>| #[trigger]
            self.db@.contains_key(k) ==> exists|i: int|
                0 <= i < self.users@.len() && #[trigger] self.users@[i].username@ == k
        &&& forall|i: int, j: int|
            0 <= i < self.users@.len() && 0 <= j < self.users@.len() && i != j
                ==> #[trigger] self.users@[i].username@ != #[trigger] self.users@[j].username@
    }

    /// A well-formed store holds each record under its own username.
    pub proof fn lemma_keyed(&self)
        requires
            self.wf(),
        ensures
            keyed_by_username(self@),
    {
        assert forall|k: Seq<char>| #[trigger] self@.contains_key(k) implies self@[k].username
            == k by {
            let i = choose|i: int| 0 <= i < self.users@.len() && #[trigger] self.users@[i].username@ == k;
            assert(self.db@[self.users@[i].username@] == self.users@[i]@);
        }
    }

    /// An empty store.
    pub fn new() -> (r: UserStore)
        ensures
            r.wf(),
            r@ == Map::<Seq<char>, UserView>::empty(),
    {
        UserStore { users: Vec::new(), db: Ghost(Map::empty()) }
    }

    /// Stores `user` unless its username is taken; a taken username leaves
    /// the store as it was and is reported as an error.
    pub fn insert_user(&mut self, user: User) -> (r: Result<(), StoreError>)
        requires
            old(self).wf(),
        ensures
            final(self).wf(),
            old(self)@.contains_key(user.username@) ==> {
                &&& final(self)@ == old(self)@
                &&& r == Err::<(), StoreError>(StoreError::DuplicateUsername(user.username))
            },
            !old(self)@.contains_key(user.username@) ==> {
                &&& final(self)@ == old(self)@.insert(user.username@, user@)
                &&& r == Ok::<(), StoreError>(())
            },
    {
        match self.find_index(&user.username) {
            Some(_) => Err(StoreError::DuplicateUsername(user.username)),
            None => {
                let ghost old_users = self.users@;
                let ghost view = user@;
                self.db = Ghost(self.db@.insert(user.username@, user@));
                self.users.push(user);
                assert(self.users@[old_users.len() as int]@ == view);
                assert forall|k: Seq<char>| #[trigger]
                    self.db@.contains_key(k) implies exists|i: int|
                        0 <= i < self.users@.len() && #[trigger] self.users@[i].username@ == k by {
                    if k == view.username {
                        assert(self.users@[old_users.len() as int].username@ == k);
                    } else {
                        let i = choose|i: int|
                            0 <= i < old_users.len() && #[trigger] old_users[i].username@ == k;
                        assert(self.users@[i].username@ == k);
                    }
                }
                Ok(())
            },
        }
    }

    /// The position of the record stored under `username`, if any.
    fn find_index(&self, username: &String) -> (r: Option<usize>)
        requires
            self.wf(),
        ensures
            r is None <==> !self@.contains_key(username@),
            r matches Some(i) ==> i < self.users@.len() && self.users@[i as int].username@
                == username@,
    {
        let mut i: usize = 0;
        while i < self.users.len()
            invariant
                self.wf(),
                i <= self.users@.len(),
                forall|j: int| 0 <= j < i ==> #[trigger] self.users@[j].username@ != username@,
            decreases self.users@.len() - i,
        {
            if self.users[i].username == *username {
                return Some(i);
            }
            i = i + 1;
        }
        proof {
            if self@.contains_key(username@) {
                let j = choose|j: int|
                    0 <= j < self.users@.len() && #[trigger] self.users@[j].username@ == username@;
                assert(self.users@[j].username@ != username@);
            }
        }
        None
    }

    /// The record stored under `username`, if any.
    pub fn find_user_by_username(&self, username: &String) -> (r: Option<User>)
        requires
            self.wf(),
        ensures
            r matches Some(u) ==> lookup(self@, username@) == Some(u@),
            r is None ==> lookup(self@, username@) is None,
    {
        match self.find_index(username) {
            Some(i) => Some(self.users[i].duplicate()),
            None => None,
        }
    }
}

} // verus!
