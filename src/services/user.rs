//! Creating and reading users.
use crate::errors::LedgerError;
use crate::ledger::Store;
use crate::repositories::{has_user, user_index};
use crate::crypto::KEY_LEN;
use crate::user::{User, UserCreate, MAX_PASSWORD_CHARS};
use vstd::prelude::*;

verus! {

pub struct Service {
    pub master_key: Vec<u8>,
}

impl Service {
    pub fn new(master_key: Vec<u8>) -> (r: Self)
        ensures
            r.master_key@ == master_key@,
    {
        Service { master_key }
    }

    pub fn get_one_by_id<'a>(&self, store: &'a Store, id: u128) -> (r: Option<&'a User>)
        ensures
            has_user(store.users.users@, id) ==> r == Some(&store.users.users@[user_index(store.users.users@, id)]),
            !has_user(store.users.users@, id) ==> r is None,
    {
        store.users.find_by_id(id)
    }

    /// Creates a user with a fresh identifier and a fresh key wrapped under the
    /// master key, and adds it to the store; `StoreError` where the drawn
    /// identifier is taken. On failure the store is unchanged.
    pub fn create(&self, store: &mut Store, user: &UserCreate) -> (r: Result<User, LedgerError>)
        ensures
            user.password is None ==> r == Err::<User, _>(LedgerError::BadRequest),
            user.password is Some && user.password->0@.len() <= MAX_PASSWORD_CHARS && self.master_key@.len()
                == KEY_LEN ==> r is Ok || (r == Err::<User, _>(LedgerError::StoreError) && old(
                store,
            ).users.users@.len() > 0),
            r is Err ==> *final(store) == *old(store),
            r is Ok ==> {
                let u = final(store).users.users@.last();
                &&& final(store).users.users@ == old(store).users.users@.push(u)
                &&& final(store).accounts == old(store).accounts
                &&& final(store).transactions == old(store).transactions
                &&& u.id == r->Ok_0.id
                &&& u.name@ == user.name@
                &&& u.email@ == user.email@
                &&& r->Ok_0.encryption_key@ == u.encryption_key@
            },
    {
        let new_user = User::new(
            user.name.clone(),
            user.email.clone(),
            user.active,
            user.password.clone(),
            self.master_key.as_slice(),
        )?;
        let copy = new_user.duplicate();
        store.users.create(new_user)?;
        Ok(copy)
    }
}

/// `i` is the position of the first user with the email `email`.
pub open spec fn is_first_with_email(s: Seq<User>, email: Seq<char>, i: int) -> bool {
    &&& 0 <= i < s.len()
    &&& s[i].email@ == email
    &&& forall|j: int| 0 <= j < i ==> s[j].email@ != email
}

/// The position of the first user with the email `email`, if any.
pub fn email_position(store: &Store, email: &str) -> (r: Option<usize>)
    ensures
        match r {
            Some(i) => is_first_with_email(store.users.users@, email@, i as int),
            None => forall|j: int| 0 <= j < store.users.users@.len() ==> store.users.users@[j].email@ != email@,
        },
{
    let wanted = email.to_owned();
    let mut i: usize = 0;
    while i < store.users.users.len()
        invariant
            i <= store.users.users@.len(),
            wanted@ == email@,
            forall|j: int| 0 <= j < i ==> store.users.users@[j].email@ != email@,
        decreases store.users.users@.len() - i,
    {
        if store.users.users[i].email == wanted {
            return Some(i);
        }
        i = i + 1;
    }
    None
}

impl Service {
    /// Renames the user `id` and changes their email; see
    /// [`UserRepository::update`](crate::repositories::UserRepository::update).
    pub fn update(&self, store: &mut Store, id: u128, user: &UserCreate) -> (r: Result<(), LedgerError>)
        ensures
            !has_user(old(store).users.users@, id) ==> r == Err::<(), _>(LedgerError::NotFound)
                && *final(store) == *old(store),
            has_user(old(store).users.users@, id) ==> r is Ok,
            r is Ok ==> {
                let i = user_index(old(store).users.users@, id);
                &&& final(store).accounts == old(store).accounts
                &&& final(store).transactions == old(store).transactions
                &&& final(store).users.users@.len() == old(store).users.users@.len()
                &&& forall|j: int|
                    0 <= j < old(store).users.users@.len() && j != i ==> final(store).users.users@[j]
                        == old(store).users.users@[j]
                &&& final(store).users.users@[i].name@ == user.name@
                &&& final(store).users.users@[i].email@ == user.email@
                &&& final(store).users.users@[i].encryption_key@ == old(store).users.users@[i].encryption_key@
            },
    {
        store.users.update(id, user)
    }

    /// Deletes the user `id`, with their wrapped key. A user who still owns
    /// an account is kept, since the account's balance could no longer be
    /// read. `true` where the user was deleted.
    pub fn delete(&self, store: &mut Store, id: u128) -> (r: bool)
        ensures
            r <==> has_user(old(store).users.users@, id) && forall|j: int|
                0 <= j < old(store).accounts.accounts@.len() ==> old(store).accounts.accounts@[j].user_id != id,
            r ==> final(store).users.users@ == old(store).users.users@.remove(
                user_index(old(store).users.users@, id),
            ) && final(store).accounts == old(store).accounts && final(store).transactions == old(
                store,
            ).transactions,
            !r ==> *final(store) == *old(store),
    {
        if store.accounts.find_by_user_id(id).is_some() {
            return false;
        }
        store.users.delete(id)
    }

    /// The first user with the email `email`.
    pub fn get_one_by_email<'a>(&self, store: &'a Store, email: &str) -> (r: Option<&'a User>)
        ensures
            match r {
                Some(u) => exists|i: int| is_first_with_email(store.users.users@, email@, i) && store.users.users@[i] == *u,
                None => forall|j: int| 0 <= j < store.users.users@.len() ==> store.users.users@[j].email@ != email@,
            },
    {
        match email_position(store, email) {
            Some(i) => Some(&store.users.users[i]),
            None => None,
        }
    }
}

} // verus!
