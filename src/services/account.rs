//! Opening accounts and reading their balances.
use crate::account::{balance_of, same_account, Account, AccountCreate, AccountModel};
use crate::errors::{usable_key, LedgerError};
use crate::ledger::{account_with, owner_of, Store};
use crate::repositories::{
    has_account, has_transaction, has_user, lemma_account_index, lemma_user_index, user_index,
};
use crate::services::user::{email_position, is_first_with_email};
use crate::transaction::{records, Transaction, TransactionOperation};
use crate::user::{new_random_id, new_time_ordered_id};
use vstd::prelude::*;

verus! {

pub struct Service {
    pub master_key: Vec<u8>,
}

/// What reading the balance of `account_id` on behalf of `requester` (an
/// administrator when `is_admin`) must give.
pub open spec fn balance_read(s: Store, master_key: Seq<u8>, account_id: u128, requester: u128, is_admin: bool) -> Result<u64, LedgerError> {
    if !has_account(s.accounts.accounts@, account_id) {
        Err(LedgerError::NotFound)
    } else {
        let a = account_with(s, account_id);
        if !is_admin && a.user_id != requester {
            Err(LedgerError::Forbidden)
        } else {
            match owner_of(s, a) {
                None => Err(LedgerError::NotFound),
                Some(owner) => balance_of(a, owner, master_key),
            }
        }
    }
}

impl Service {
    pub fn new(master_key: Vec<u8>) -> (r: Self)
        ensures
            r.master_key@ == master_key@,
    {
        Service { master_key }
    }

    pub fn get_one_by_id<'a>(&self, store: &'a Store, id: u128) -> (r: Option<&'a Account>)
        ensures
            has_account(store.accounts.accounts@, id) ==> r == Some(&account_with(*store, id)),
            !has_account(store.accounts.accounts@, id) ==> r is None,
    {
        store.accounts.find_by_id(id)
    }

    /// The first account owned by the user `user_id`.
    pub fn get_one_by_user_id<'a>(&self, store: &'a Store, user_id: u128) -> (r: Option<&'a Account>)
        ensures
            match r {
                Some(a) => exists|i: int|
                    0 <= i < store.accounts.accounts@.len() && store.accounts.accounts@[i] == *a
                        && a.user_id == user_id && forall|j: int|
                        0 <= j < i ==> store.accounts.accounts@[j].user_id != user_id,
                None => forall|j: int|
                    0 <= j < store.accounts.accounts@.len() ==> store.accounts.accounts@[j].user_id != user_id,
            },
    {
        store.accounts.find_by_user_id(user_id)
    }

    /// The balance of `account_id`, for its owner or for an administrator.
    pub fn get_balance(&self, store: &Store, account_id: u128, requester: u128, is_admin: bool) -> (r: Result<
        u64,
        LedgerError,
    >)
        ensures
            r == balance_read(*store, self.master_key@, account_id, requester, is_admin),
    {
        let ai = match store.accounts.position(account_id) {
            Some(i) => i,
            None => return Err(LedgerError::NotFound),
        };
        proof {
            lemma_account_index(store.accounts.accounts@, account_id, ai as int);
        }
        let account = &store.accounts.accounts[ai];
        if !is_admin && account.user_id != requester {
            return Err(LedgerError::Forbidden);
        }
        let ui = match store.users.position(account.user_id) {
            Some(i) => i,
            None => return Err(LedgerError::NotFound),
        };
        proof {
            lemma_user_index(store.users.users@, account.user_id, ui as int);
        }
        account.get_balance(&store.users.users[ui], self.master_key.as_slice())
    }

    /// Opens an account for the user `user_id` holding the requested initial
    /// balance, and records that balance as a deposit from no source account.
    /// Both are written, or, on failure, neither. The account gets the
    /// identifier `account_id` and the record `record_id`; where either is
    /// taken the operation fails with `StoreError`.
    pub fn create_with_ids(
        &self,
        store: &mut Store,
        user_id: u128,
        account: &AccountCreate,
        account_id: u128,
        record_id: u128,
    ) -> (r: Result<Account, LedgerError>)
        ensures
            !has_user(old(store).users.users@, user_id) ==> r == Err::<Account, _>(LedgerError::NotFound),
            has_user(old(store).users.users@, user_id) ==> {
                let owner = old(store).users.users@[user_index(old(store).users.users@, user_id)];
                match usable_key(owner.encryption_key@, self.master_key@) {
                    Ok(_) => if has_account(old(store).accounts.accounts@, account_id) || has_transaction(
                        old(store).transactions.transactions@,
                        record_id,
                    ) {
                        r == Err::<Account, _>(LedgerError::StoreError)
                    } else {
                        r is Ok && r->Ok_0.id == account_id
                    },
                    Err(e) => r == Err::<Account, _>(e),
                }
            },
            r is Err ==> *final(store) == *old(store),
            r is Ok ==> {
                let owner = old(store).users.users@[user_index(old(store).users.users@, user_id)];
                let a = r->Ok_0;
                let t = final(store).transactions.transactions@.last();
                &&& final(store).users == old(store).users
                &&& final(store).accounts.accounts@.len() == old(store).accounts.accounts@.len() + 1
                &&& final(store).accounts.accounts@.drop_last() == old(store).accounts.accounts@
                &&& same_account(final(store).accounts.accounts@.last(), a)
                &&& a.user_id == user_id
                &&& a.bank_id == account.bank_id
                &&& a.bank_account_number == account.bank_account_number
                &&& a.bank_account_digit == account.bank_account_digit
                &&& a.bank_agency_number == account.bank_agency_number
                &&& a.bank_agency_digit == account.bank_agency_digit
                &&& a.bank_account_type == account.bank_account_type
                &&& balance_of(a, owner, self.master_key@) == Ok::<u64, LedgerError>(account.balance)
                &&& final(store).transactions.transactions@ == old(store).transactions.transactions@.push(t)
                &&& records(t, TransactionOperation::Deposit, None, a.id, account.balance, owner.encryption_key@, self.master_key@)
            },
    {
        let ui = match store.users.position(user_id) {
            Some(i) => i,
            None => return Err(LedgerError::NotFound),
        };
        proof {
            lemma_user_index(store.users.users@, user_id, ui as int);
        }
        let owner = &store.users.users[ui];
        let new_account = Account::with_id(
            account_id,
            owner,
            account.balance,
            account.bank_id,
            account.bank_account_number,
            account.bank_account_digit,
            account.bank_agency_number,
            account.bank_agency_digit,
            account.bank_account_type,
            self.master_key.as_slice(),
        )?;
        let deposit = Transaction::with_id(
            record_id,
            None,
            new_account.id,
            TransactionOperation::Deposit,
            account.balance,
            owner.encryption_key.as_slice(),
            self.master_key.as_slice(),
        )?;
        if store.accounts.position(account_id).is_some() {
            return Err(LedgerError::StoreError);
        }
        if store.transactions.position(record_id).is_some() {
            return Err(LedgerError::StoreError);
        }
        let copy = new_account.duplicate();
        store.accounts.accounts.push(new_account);
        store.transactions.transactions.push(deposit);
        assert(store.accounts.accounts@.drop_last() =~= old(store).accounts.accounts@);
        Ok(copy)
    }
}

impl Service {
    /// The first account of the first user with the email `email`.
    pub fn get_one_by_user_email<'a>(&self, store: &'a Store, email: &str) -> (r: Option<&'a Account>)
        ensures
            match r {
                Some(a) => exists|i: int, k: int|
                    is_first_with_email(store.users.users@, email@, i) && 0 <= k < store.accounts.accounts@.len()
                        && store.accounts.accounts@[k] == *a && a.user_id == store.users.users@[i].id
                        && forall|j: int| 0 <= j < k ==> store.accounts.accounts@[j].user_id != a.user_id,
                None => (forall|j: int| 0 <= j < store.users.users@.len() ==> store.users.users@[j].email@ != email@)
                    || exists|i: int|
                    is_first_with_email(store.users.users@, email@, i) && forall|j: int|
                        0 <= j < store.accounts.accounts@.len() ==> store.accounts.accounts@[j].user_id
                            != store.users.users@[i].id,
            },
    {
        let ui = match email_position(store, email) {
            Some(i) => i,
            None => return None,
        };
        let r = store.accounts.find_by_user_id(store.users.users[ui].id);
        assert(is_first_with_email(store.users.users@, email@, ui as int));
        r
    }
}

/// `a` may be listed for `requester`: administrators see every account,
/// other users their own.
pub open spec fn visible(a: Account, requester: u128, is_admin: bool) -> bool {
    is_admin || a.user_id == requester
}

/// `a` with its balance in the clear.
pub open spec fn account_model_of(a: Account, balance: u64) -> AccountModel {
    AccountModel {
        id: a.id,
        user_id: a.user_id,
        bank_id: a.bank_id,
        bank_account_number: a.bank_account_number,
        bank_account_digit: a.bank_account_digit,
        bank_agency_number: a.bank_agency_number,
        bank_agency_digit: a.bank_agency_digit,
        bank_account_type: a.bank_account_type,
        balance,
        created_at: a.created_at,
        updated_at: a.updated_at,
    }
}

/// The accounts of `accounts` visible to `requester`, in order, with their
/// balances read; the first account whose balance cannot be read decides the
/// error.
pub open spec fn account_models(s: Store, master_key: Seq<u8>, accounts: Seq<Account>, requester: u128, is_admin: bool) -> Result<Seq<AccountModel>, LedgerError>
    decreases accounts.len(),
{
    if accounts.len() == 0 {
        Ok(Seq::empty())
    } else {
        match account_models(s, master_key, accounts.drop_last(), requester, is_admin) {
            Err(e) => Err(e),
            Ok(ms) => {
                let a = accounts.last();
                if !visible(a, requester, is_admin) {
                    Ok(ms)
                } else {
                    match owner_of(s, a) {
                        None => Err(LedgerError::NotFound),
                        Some(owner) => match balance_of(a, owner, master_key) {
                            Ok(v) => Ok(ms.push(account_model_of(a, v))),
                            Err(e) => Err(e),
                        },
                    }
                }
            },
        }
    }
}

/// Once a prefix of the accounts fails, the whole listing fails alike.
proof fn lemma_listing_failure_persists(
    s: Store,
    master_key: Seq<u8>,
    accounts: Seq<Account>,
    n: int,
    requester: u128,
    is_admin: bool,
)
    requires
        0 <= n <= accounts.len(),
        account_models(s, master_key, accounts.take(n), requester, is_admin) is Err,
    ensures
        account_models(s, master_key, accounts, requester, is_admin) == account_models(
            s,
            master_key,
            accounts.take(n),
            requester,
            is_admin,
        ),
    decreases accounts.len(),
{
    if n == accounts.len() {
        assert(accounts.take(n) =~= accounts);
    } else {
        let p = accounts.drop_last();
        assert(p.take(n) =~= accounts.take(n));
        lemma_listing_failure_persists(s, master_key, p, n, requester, is_admin);
    }
}

impl Service {
    /// Every account visible to `requester` (an administrator when
    /// `is_admin`), with its balance decrypted with its owner's key.
    pub fn get_all(&self, store: &Store, requester: u128, is_admin: bool) -> (r: Result<Vec<AccountModel>, LedgerError>)
        ensures
            match account_models(*store, self.master_key@, store.accounts.accounts@, requester, is_admin) {
                Ok(ms) => r is Ok && r->Ok_0@ == ms,
                Err(e) => r == Err::<Vec<AccountModel>, _>(e),
            },
    {
        let accounts = &store.accounts.accounts;
        let mut r: Vec<AccountModel> = Vec::new();
        let mut i: usize = 0;
        while i < accounts.len()
            invariant
                i <= accounts@.len(),
                accounts@ == store.accounts.accounts@,
                account_models(*store, self.master_key@, accounts@.take(i as int), requester, is_admin)
                    == Ok::<Seq<AccountModel>, LedgerError>(r@),
            decreases accounts@.len() - i,
        {
            let a = &accounts[i];
            assert(accounts@.take(i + 1).drop_last() =~= accounts@.take(i as int));
            assert(accounts@.take(i + 1).last() == *a);
            if is_admin || a.user_id == requester {
                let ui = match store.users.position(a.user_id) {
                    Some(k) => k,
                    None => {
                        proof {
                            lemma_listing_failure_persists(*store, self.master_key@, accounts@, i + 1, requester, is_admin);
                        }
                        return Err(LedgerError::NotFound);
                    },
                };
                proof {
                    lemma_user_index(store.users.users@, a.user_id, ui as int);
                }
                let balance = match a.get_balance(&store.users.users[ui], self.master_key.as_slice()) {
                    Ok(v) => v,
                    Err(e) => {
                        proof {
                            lemma_listing_failure_persists(*store, self.master_key@, accounts@, i + 1, requester, is_admin);
                        }
                        return Err(e);
                    },
                };
                r.push(
                    AccountModel {
                        id: a.id,
                        user_id: a.user_id,
                        bank_id: a.bank_id,
                        bank_account_number: a.bank_account_number,
                        bank_account_digit: a.bank_account_digit,
                        bank_agency_number: a.bank_agency_number,
                        bank_agency_digit: a.bank_agency_digit,
                        bank_account_type: a.bank_account_type,
                        balance,
                        created_at: a.created_at,
                        updated_at: a.updated_at,
                    },
                );
            }
            i = i + 1;
        }
        assert(accounts@.take(accounts@.len() as int) =~= accounts@);
        Ok(r)
    }

    /// Opens an account for the user `user_id` holding the requested initial
    /// balance, and records that balance as a deposit from no source account.
    /// Both are written, or, on failure, neither. Fresh identifiers are drawn
    /// for both; see [`Service::create_with_ids`].
    pub fn create(&self, store: &mut Store, user_id: u128, account: &AccountCreate) -> (r: Result<
        Account,
        LedgerError,
    >)
        ensures
            !has_user(old(store).users.users@, user_id) ==> r == Err::<Account, _>(LedgerError::NotFound),
            has_user(old(store).users.users@, user_id) ==> {
                let owner = old(store).users.users@[user_index(old(store).users.users@, user_id)];
                match usable_key(owner.encryption_key@, self.master_key@) {
                    Ok(_) => r is Ok || (r == Err::<Account, _>(LedgerError::StoreError) && (old(
                        store,
                    ).accounts.accounts@.len() > 0 || old(store).transactions.transactions@.len() > 0)),
                    Err(e) => r == Err::<Account, _>(e),
                }
            },
            r is Err ==> *final(store) == *old(store),
            r is Ok ==> {
                let owner = old(store).users.users@[user_index(old(store).users.users@, user_id)];
                let a = r->Ok_0;
                let t = final(store).transactions.transactions@.last();
                &&& final(store).users == old(store).users
                &&& final(store).accounts.accounts@.len() == old(store).accounts.accounts@.len() + 1
                &&& final(store).accounts.accounts@.drop_last() == old(store).accounts.accounts@
                &&& same_account(final(store).accounts.accounts@.last(), a)
                &&& a.user_id == user_id
                &&& a.bank_id == account.bank_id
                &&& a.bank_account_number == account.bank_account_number
                &&& a.bank_account_digit == account.bank_account_digit
                &&& a.bank_agency_number == account.bank_agency_number
                &&& a.bank_agency_digit == account.bank_agency_digit
                &&& a.bank_account_type == account.bank_account_type
                &&& balance_of(a, owner, self.master_key@) == Ok::<u64, LedgerError>(account.balance)
                &&& final(store).transactions.transactions@ == old(store).transactions.transactions@.push(t)
                &&& records(t, TransactionOperation::Deposit, None, a.id, account.balance, owner.encryption_key@, self.master_key@)
            },
    {
        self.create_with_ids(store, user_id, account, new_time_ordered_id(), new_random_id())
    }
}

} // verus!
