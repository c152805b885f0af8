//! The record tables of the store: users, accounts and the append-only
//! transaction log. Records are looked up by identifier; where two records
//! share one, the first is the one found.
use crate::account::Account;
use crate::encrypted_field::copy_bytes;
use crate::errors::LedgerError;
use crate::transaction::Transaction;
use crate::user::{User, UserCreate};
use vstd::prelude::*;

verus! {

/// `i` is the position of the first user with identifier `id`.
pub open spec fn is_user_at(s: Seq<User>, id: u128, i: int) -> bool {
    &&& 0 <= i < s.len()
    &&& s[i].id == id
    &&& forall|j: int| 0 <= j < i ==> s[j].id != id
}

pub open spec fn has_user(s: Seq<User>, id: u128) -> bool {
    exists|i: int| 0 <= i < s.len() && s[i].id == id
}

/// The position of the first user with identifier `id`.
pub open spec fn user_index(s: Seq<User>, id: u128) -> int {
    choose|i: int| is_user_at(s, id, i)
}

/// `i` is the position of the first account with identifier `id`.
pub open spec fn is_account_at(s: Seq<Account>, id: u128, i: int) -> bool {
    &&& 0 <= i < s.len()
    &&& s[i].id == id
    &&& forall|j: int| 0 <= j < i ==> s[j].id != id
}

pub open spec fn has_account(s: Seq<Account>, id: u128) -> bool {
    exists|i: int| 0 <= i < s.len() && s[i].id == id
}

/// The position of the first account with identifier `id`.
pub open spec fn account_index(s: Seq<Account>, id: u128) -> int {
    choose|i: int| is_account_at(s, id, i)
}

pub open spec fn has_transaction(s: Seq<Transaction>, id: u128) -> bool {
    exists|i: int| 0 <= i < s.len() && s[i].id == id
}

/// The first position is the only one.
pub proof fn lemma_user_index(s: Seq<User>, id: u128, i: int)
    requires
        is_user_at(s, id, i),
    ensures
        user_index(s, id) == i,
        has_user(s, id),
{
    let k = user_index(s, id);
    assert(is_user_at(s, id, k));
    if k < i {
        assert(s[k].id != id);
    } else if i < k {
        assert(s[i].id != id);
    }
}

/// The first position is the only one.
pub proof fn lemma_account_index(s: Seq<Account>, id: u128, i: int)
    requires
        is_account_at(s, id, i),
    ensures
        account_index(s, id) == i,
        has_account(s, id),
{
    let k = account_index(s, id);
    assert(is_account_at(s, id, k));
    if k < i {
        assert(s[k].id != id);
    } else if i < k {
        assert(s[i].id != id);
    }
}

/// Where some user has identifier `id`, a first one does.
pub proof fn lemma_first_user(s: Seq<User>, id: u128)
    requires
        has_user(s, id),
    ensures
        is_user_at(s, id, user_index(s, id)),
    decreases s.len(),
{
    let p = s.drop_last();
    if has_user(p, id) {
        lemma_first_user(p, id);
        let i = user_index(p, id);
        assert(s[i] == p[i]);
        assert forall|j: int| 0 <= j < i implies s[j].id != id by {
            assert(p[j] == s[j]);
        }
        assert(is_user_at(s, id, i));
    } else {
        let i = s.len() - 1;
        let k = choose|k: int| 0 <= k < s.len() && s[k].id == id;
        if k < i {
            assert(p[k] == s[k]);
        }
        assert forall|j: int| 0 <= j < i implies s[j].id != id by {
            assert(p[j] == s[j]);
        }
        assert(is_user_at(s, id, i));
    }
}

/// Where some account has identifier `id`, a first one does.
pub proof fn lemma_first_account(s: Seq<Account>, id: u128)
    requires
        has_account(s, id),
    ensures
        is_account_at(s, id, account_index(s, id)),
    decreases s.len(),
{
    let p = s.drop_last();
    if has_account(p, id) {
        lemma_first_account(p, id);
        let i = account_index(p, id);
        assert(s[i] == p[i]);
        assert forall|j: int| 0 <= j < i implies s[j].id != id by {
            assert(p[j] == s[j]);
        }
        assert(is_account_at(s, id, i));
    } else {
        let i = s.len() - 1;
        let k = choose|k: int| 0 <= k < s.len() && s[k].id == id;
        if k < i {
            assert(p[k] == s[k]);
        }
        assert forall|j: int| 0 <= j < i implies s[j].id != id by {
            assert(p[j] == s[j]);
        }
        assert(is_account_at(s, id, i));
    }
}

pub struct UserRepository {
    pub users: Vec<User>,
}

pub struct AccountRepository {
    pub accounts: Vec<Account>,
}

/// The transaction log. Records are only ever appended.
pub struct TransactionRepository {
    pub transactions: Vec<Transaction>,
}

impl UserRepository {
    pub fn new() -> (r: Self)
        ensures
            r.users@.len() == 0,
    {
        UserRepository { users: Vec::new() }
    }

    /// The position of the first user with identifier `id`.
    pub fn position(&self, id: u128) -> (r: Option<usize>)
        ensures
            match r {
                Some(i) => is_user_at(self.users@, id, i as int),
                None => !has_user(self.users@, id),
            },
    {
        let mut i: usize = 0;
        while i < self.users.len()
            invariant
                i <= self.users@.len(),
                forall|j: int| 0 <= j < i ==> self.users@[j].id != id,
            decreases self.users@.len() - i,
        {
            if self.users[i].id == id {
                return Some(i);
            }
            i = i + 1;
        }
        None
    }

    pub fn find_by_id(&self, id: u128) -> (r: Option<&User>)
        ensures
            has_user(self.users@, id) ==> r == Some(&self.users@[user_index(self.users@, id)]),
            !has_user(self.users@, id) ==> r is None,
    {
        match self.position(id) {
            Some(i) => {
                proof {
                    lemma_user_index(self.users@, id, i as int);
                }
                Some(&self.users[i])
            },
            None => None,
        }
    }

    /// Adds `user`, unless its identifier is taken.
    pub fn create(&mut self, user: User) -> (r: Result<(), LedgerError>)
        ensures
            has_user(old(self).users@, user.id) ==> r == Err::<(), _>(LedgerError::StoreError)
                && *final(self) == *old(self),
            !has_user(old(self).users@, user.id) ==> r is Ok && final(self).users@ == old(
                self,
            ).users@.push(user),
    {
        if self.position(user.id).is_some() {
            return Err(LedgerError::StoreError);
        }
        self.users.push(user);
        Ok(())
    }

    pub fn get_total(&self) -> (r: usize)
        ensures
            r == self.users@.len(),
    {
        self.users.len()
    }
}

impl UserRepository {
    /// Renames the user `id` and changes their email as `entity` says;
    /// nothing else changes.
    pub fn update(&mut self, id: u128, entity: &UserCreate) -> (r: Result<(), LedgerError>)
        ensures
            !has_user(old(self).users@, id) ==> r == Err::<(), _>(LedgerError::NotFound) && *final(self) == *old(
                self,
            ),
            has_user(old(self).users@, id) ==> {
                let i = user_index(old(self).users@, id);
                let u = final(self).users@[i];
                let before = old(self).users@[i];
                &&& r is Ok
                &&& final(self).users@.len() == old(self).users@.len()
                &&& forall|j: int| 0 <= j < old(self).users@.len() && j != i ==> final(self).users@[j] == old(self).users@[j]
                &&& u.name@ == entity.name@
                &&& u.email@ == entity.email@
                &&& u.id == before.id && u.active == before.active && u.password@ == before.password@
                &&& u.encryption_key@ == before.encryption_key@ && u.created_at == before.created_at
            },
    {
        let i = match self.position(id) {
            Some(i) => i,
            None => return Err(LedgerError::NotFound),
        };
        proof {
            lemma_user_index(self.users@, id, i as int);
        }
        let before = &self.users[i];
        let updated = User {
            id: before.id,
            name: entity.name.clone(),
            email: entity.email.clone(),
            active: before.active,
            password: before.password.clone(),
            encryption_key: copy_bytes(&before.encryption_key),
            created_at: before.created_at,
            updated_at: before.updated_at,
        };
        self.users.set(i, updated);
        Ok(())
    }

    /// Removes the user `id`; `false` where there is none.
    pub fn delete(&mut self, id: u128) -> (r: bool)
        ensures
            r == has_user(old(self).users@, id),
            r ==> final(self).users@ == old(self).users@.remove(user_index(old(self).users@, id)),
            !r ==> *final(self) == *old(self),
    {
        match self.position(id) {
            Some(i) => {
                proof {
                    lemma_user_index(self.users@, id, i as int);
                }
                self.users.remove(i);
                true
            },
            None => false,
        }
    }
}

impl AccountRepository {
    pub fn new() -> (r: Self)
        ensures
            r.accounts@.len() == 0,
    {
        AccountRepository { accounts: Vec::new() }
    }

    /// The position of the first account with identifier `id`.
    pub fn position(&self, id: u128) -> (r: Option<usize>)
        ensures
            match r {
                Some(i) => is_account_at(self.accounts@, id, i as int),
                None => !has_account(self.accounts@, id),
            },
    {
        let mut i: usize = 0;
        while i < self.accounts.len()
            invariant
                i <= self.accounts@.len(),
                forall|j: int| 0 <= j < i ==> self.accounts@[j].id != id,
            decreases self.accounts@.len() - i,
        {
            if self.accounts[i].id == id {
                return Some(i);
            }
            i = i + 1;
        }
        None
    }

    pub fn find_by_id(&self, id: u128) -> (r: Option<&Account>)
        ensures
            has_account(self.accounts@, id) ==> r == Some(&self.accounts@[account_index(self.accounts@, id)]),
            !has_account(self.accounts@, id) ==> r is None,
    {
        match self.position(id) {
            Some(i) => {
                proof {
                    lemma_account_index(self.accounts@, id, i as int);
                }
                Some(&self.accounts[i])
            },
            None => None,
        }
    }

    /// The first account owned by the user `user_id`.
    pub fn find_by_user_id(&self, user_id: u128) -> (r: Option<&Account>)
        ensures
            match r {
                Some(a) => exists|i: int|
                    0 <= i < self.accounts@.len() && self.accounts@[i] == *a && a.user_id == user_id
                        && forall|j: int| 0 <= j < i ==> self.accounts@[j].user_id != user_id,
                None => forall|j: int| 0 <= j < self.accounts@.len() ==> self.accounts@[j].user_id != user_id,
            },
    {
        let mut i: usize = 0;
        while i < self.accounts.len()
            invariant
                i <= self.accounts@.len(),
                forall|j: int| 0 <= j < i ==> self.accounts@[j].user_id != user_id,
            decreases self.accounts@.len() - i,
        {
            if self.accounts[i].user_id == user_id {
                return Some(&self.accounts[i]);
            }
            i = i + 1;
        }
        None
    }

    /// Adds `account`, unless its identifier is taken.
    pub fn create(&mut self, account: Account) -> (r: Result<(), LedgerError>)
        ensures
            has_account(old(self).accounts@, account.id) ==> r == Err::<(), _>(LedgerError::StoreError)
                && *final(self) == *old(self),
            !has_account(old(self).accounts@, account.id) ==> r is Ok && final(self).accounts@ == old(
                self,
            ).accounts@.push(account),
    {
        if self.position(account.id).is_some() {
            return Err(LedgerError::StoreError);
        }
        self.accounts.push(account);
        Ok(())
    }

    pub fn get_total(&self) -> (r: usize)
        ensures
            r == self.accounts@.len(),
    {
        self.accounts.len()
    }
}

impl TransactionRepository {
    pub fn new() -> (r: Self)
        ensures
            r.transactions@.len() == 0,
    {
        TransactionRepository { transactions: Vec::new() }
    }

    /// The position of the first record with identifier `id`.
    pub fn position(&self, id: u128) -> (r: Option<usize>)
        ensures
            match r {
                Some(i) => i < self.transactions@.len() && self.transactions@[i as int].id == id,
                None => !has_transaction(self.transactions@, id),
            },
    {
        let mut i: usize = 0;
        while i < self.transactions.len()
            invariant
                i <= self.transactions@.len(),
                forall|j: int| 0 <= j < i ==> self.transactions@[j].id != id,
            decreases self.transactions@.len() - i,
        {
            if self.transactions[i].id == id {
                return Some(i);
            }
            i = i + 1;
        }
        None
    }

    pub fn find_by_id(&self, id: u128) -> (r: Option<&Transaction>)
        ensures
            match r {
                Some(t) => t.id == id && exists|i: int|
                    0 <= i < self.transactions@.len() && self.transactions@[i] == *t,
                None => !has_transaction(self.transactions@, id),
            },
    {
        match self.position(id) {
            Some(i) => Some(&self.transactions[i]),
            None => None,
        }
    }

    /// Appends `transaction` to the log, unless its identifier is taken.
    pub fn create(&mut self, transaction: Transaction) -> (r: Result<(), LedgerError>)
        ensures
            has_transaction(old(self).transactions@, transaction.id) ==> r == Err::<(), _>(
                LedgerError::StoreError,
            ) && *final(self) == *old(self),
            !has_transaction(old(self).transactions@, transaction.id) ==> r is Ok
                && final(self).transactions@ == old(self).transactions@.push(transaction),
    {
        if self.position(transaction.id).is_some() {
            return Err(LedgerError::StoreError);
        }
        self.transactions.push(transaction);
        Ok(())
    }

    /// Records are immutable: every update is refused.
    pub fn update(&self, _id: u128, _transaction: &Transaction) -> (r: Result<(), LedgerError>)
        ensures
            r == Err::<(), _>(LedgerError::Forbidden),
    {
        Err(LedgerError::Forbidden)
    }

    /// Records are never deleted: every deletion is refused.
    pub fn delete(&self, _id: u128) -> (r: bool)
        ensures
            !r,
    {
        false
    }

    pub fn get_total(&self) -> (r: usize)
        ensures
            r == self.transactions@.len(),
    {
        self.transactions.len()
    }
}

} // verus!
