//! The credential store: user records looked up by username and
//! updated by user id when a hash is migrated to the current scheme.

use vstd::prelude::*;

verus! {

/// A user record as the login flow reads it.  The password hash is
/// absent for accounts that cannot log in by password; when it is
/// present the password salt must be present too, else the hash could
/// never be verified.
pub struct UserCredential {
    pub id: u64,
    pub username: String,
    pub pwd: Option<Vec<u8>>,
    pub pwd_salt: Option<u64>,
    pub token_salt: u64,
}

/// Why a store write failed.
#[derive(Clone, Copy, Debug, PartialEq, Eq, Structural)]
pub enum StoreError {
    UserNotFound,
}

/// The record invariant: a present hash comes with a present salt.
pub open spec fn user_wf(u: UserCredential) -> bool {
    u.pwd is Some ==> u.pwd_salt is Some
}

/// The store invariant: usernames and ids are unique keys, and every
/// record is well formed.
pub open spec fn store_wf(users: Seq<UserCredential>) -> bool {
    &&& forall|i: int, j: int|
        0 <= i < j < users.len() ==> users[i].username@ != users[j].username@
    &&& forall|i: int, j: int| 0 <= i < j < users.len() ==> users[i].id != users[j].id
    &&& forall|i: int| 0 <= i < users.len() ==> user_wf(users[i])
}

/// Whether some record carries this username.
pub open spec fn has_username(users: Seq<UserCredential>, name: Seq<char>) -> bool {
    exists|i: int| 0 <= i < users.len() && users[i].username@ == name
}

/// The index of the record carrying this username.
pub open spec fn idx_of_username(users: Seq<UserCredential>, name: Seq<char>) -> int {
    choose|i: int| 0 <= i < users.len() && users[i].username@ == name
}

/// Whether some record carries this user id.
pub open spec fn has_id(users: Seq<UserCredential>, id: u64) -> bool {
    exists|i: int| 0 <= i < users.len() && users[i].id == id
}

/// The index of the record carrying this user id.
pub open spec fn idx_of_id(users: Seq<UserCredential>, id: u64) -> int {
    choose|i: int| 0 <= i < users.len() && users[i].id == id
}

/// How a migrated record relates to the one it replaces: same identity
/// and token salt, but the given hash and salt in place of the old.
pub open spec fn updated_cred(o: UserCredential, n: UserCredential, h: Seq<u8>, salt: u64) -> bool {
    &&& n.id == o.id
    &&& n.username@ == o.username@
    &&& n.token_salt == o.token_salt
    &&& n.pwd_salt == Some(salt)
    &&& match n.pwd {
        Some(v) => v@ == h,
        None => false,
    }
}

/// An in-memory credential store keyed by unique usernames and ids.
pub struct CredentialStore {
    pub users: Vec<UserCredential>,
}

impl CredentialStore {
    /// The store invariant over the current records.
    pub open spec fn wf(&self) -> bool {
        store_wf(self.users@)
    }

    /// An empty store.
    pub fn new() -> (r: CredentialStore)
        ensures
            r.users@ == Seq::<UserCredential>::empty(),
            r.wf(),
    {
        CredentialStore { users: Vec::new() }
    }

    /// Add a record; refused when its username or id is already taken.
    pub fn add_user(&mut self, user: UserCredential) -> (r: bool)
        requires
            old(self).wf(),
            user_wf(user),
        ensures
            final(self).wf(),
            r == (!has_username(old(self).users@, user.username@) && !has_id(
                old(self).users@,
                user.id,
            )),
            r ==> final(self).users@ == old(self).users@.push(user),
            !r ==> final(self).users@ == old(self).users@,
    {
        let n = self.users.len();
        for i in 0..n
            invariant
                n == self.users@.len(),
                *self == *old(self),
                store_wf(old(self).users@),
                forall|k: int|
                    0 <= k < i ==> self.users@[k].username@ != user.username@
                        && self.users@[k].id != user.id,
        {
            if self.users[i].username == user.username || self.users[i].id == user.id {
                return false;
            }
        }
        self.users.push(user);
        true
    }

    /// The index of the record with this username, if any.
    pub(crate) fn find_index(&self, username: &str) -> (r: Option<usize>)
        ensures
            r is Some <==> has_username(self.users@, username@),
            match r {
                Some(i) => i < self.users@.len() && self.users@[i as int].username@ == username@,
                None => true,
            },
    {
        let target = username.to_owned();
        let n = self.users.len();
        for i in 0..n
            invariant
                n == self.users@.len(),
                target@ == username@,
                forall|k: int| 0 <= k < i ==> self.users@[k].username@ != username@,
        {
            if self.users[i].username == target {
                return Some(i);
            }
        }
        None
    }

    /// Look a user up by username.
    pub fn find_by_username(&self, username: &str) -> (r: Option<&UserCredential>)
        ensures
            r is Some <==> has_username(self.users@, username@),
            match r {
                Some(u) => exists|i: int|
                    0 <= i < self.users@.len() && self.users@[i] == *u && u.username@ == username@,
                None => true,
            },
    {
        match self.find_index(username) {
            Some(i) => Some(&self.users[i]),
            None => None,
        }
    }

    /// Replace the stored hash and salt of the record with this id,
    /// leaving every other record and the rest of this one unchanged.
    pub fn update_password(&mut self, user_id: u64, new_hash: Vec<u8>, new_salt: u64) -> (r: Result<
        (),
        StoreError,
    >)
        requires
            old(self).wf(),
        ensures
            final(self).wf(),
            r is Ok <==> has_id(old(self).users@, user_id),
            r is Err ==> final(self).users@ == old(self).users@,
            r is Ok ==> {
                let i = idx_of_id(old(self).users@, user_id);
                &&& final(self).users@.len() == old(self).users@.len()
                &&& forall|j: int|
                    0 <= j < final(self).users@.len() && j != i ==> final(self).users@[j]
                        == old(self).users@[j]
                &&& updated_cred(old(self).users@[i], final(self).users@[i], new_hash@, new_salt)
            },
    {
        let n = self.users.len();
        for i in 0..n
            invariant
                n == self.users@.len(),
                *self == *old(self),
                store_wf(old(self).users@),
                forall|k: int| 0 <= k < i ==> self.users@[k].id != user_id,
        {
            if self.users[i].id == user_id {
                let newu = UserCredential {
                    id: user_id,
                    username: self.users[i].username.clone(),
                    pwd: Some(new_hash),
                    pwd_salt: Some(new_salt),
                    token_salt: self.users[i].token_salt,
                };
                self.users.set(i, newu);
                proof {
                    let users = old(self).users@;
                    assert(users[i as int].id == user_id);
                    assert(has_id(users, user_id));
                    let w = idx_of_id(users, user_id);
                    assert(0 <= w < users.len() && users[w].id == user_id);
                    assert(w == i as int);
                    assert(forall|j: int|
                        0 <= j < self.users@.len() && j != i as int ==> self.users@[j]
                            == users[j]);
                    assert(self.users@[i as int].username@ == users[i as int].username@);
                    assert(user_wf(self.users@[i as int]));
                    assert(store_wf(self.users@));
                }
                return Ok(());
            }
        }
        Err(StoreError::UserNotFound)
    }
}

} // verus!
