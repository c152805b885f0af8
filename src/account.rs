//! Accounts: an owner and an encrypted balance.
use crate::encrypted_field::EncryptedField;
use crate::errors::{sealed_amount, usable_key, LedgerError};
use crate::user::{new_time_ordered_id, now_millis, open_amount, seal_amount, User};
use vstd::prelude::*;

verus! {

/// An account. `balance` is sealed under the key of the owning user.
#[derive(Debug)]
pub struct Account {
    pub id: u128,
    pub user_id: u128,
    pub bank_id: Option<i32>,
    pub bank_account_number: Option<i32>,
    pub bank_account_digit: Option<i32>,
    pub bank_agency_number: Option<i32>,
    pub bank_agency_digit: Option<i32>,
    pub bank_account_type: Option<i32>,
    pub balance: EncryptedField,
    pub created_at: i64,
    pub updated_at: Option<i64>,
}

/// What a new account is made from.
#[derive(Debug)]
pub struct AccountCreate {
    pub user_id: u128,
    pub bank_id: Option<i32>,
    pub bank_account_number: Option<i32>,
    pub bank_account_digit: Option<i32>,
    pub bank_agency_number: Option<i32>,
    pub bank_agency_digit: Option<i32>,
    pub bank_account_type: Option<i32>,
    pub balance: u64,
}

/// An account with its balance in the clear.
#[derive(Debug)]
pub struct AccountModel {
    pub id: u128,
    pub user_id: u128,
    pub bank_id: Option<i32>,
    pub bank_account_number: Option<i32>,
    pub bank_account_digit: Option<i32>,
    pub bank_agency_number: Option<i32>,
    pub bank_agency_digit: Option<i32>,
    pub bank_account_type: Option<i32>,
    pub balance: u64,
    pub created_at: i64,
    pub updated_at: Option<i64>,
}

/// `a` and `b` agree on everything but the balance and the time of update.
pub open spec fn same_but_balance(a: Account, b: Account) -> bool {
    &&& a.id == b.id
    &&& a.user_id == b.user_id
    &&& a.bank_id == b.bank_id
    &&& a.bank_account_number == b.bank_account_number
    &&& a.bank_account_digit == b.bank_account_digit
    &&& a.bank_agency_number == b.bank_agency_number
    &&& a.bank_agency_digit == b.bank_agency_digit
    &&& a.bank_account_type == b.bank_account_type
    &&& a.created_at == b.created_at
}

/// `a` and `b` are the same record.
pub open spec fn same_account(a: Account, b: Account) -> bool {
    &&& same_but_balance(a, b)
    &&& a.balance.nonce@ == b.balance.nonce@
    &&& a.balance.ciphertext@ == b.balance.ciphertext@
    &&& a.updated_at == b.updated_at
}

/// The balance of `a` for its owner `owner`.
pub open spec fn balance_of(a: Account, owner: User, master_key: Seq<u8>) -> Result<u64, LedgerError> {
    sealed_amount(a.balance, owner.encryption_key@, master_key)
}

impl Account {
    /// A new account with identifier `id` of `user` holding `balance`, sealed
    /// under the user's key.
    pub fn with_id(
        id: u128,
        user: &User,
        balance: u64,
        bank_id: Option<i32>,
        bank_account_number: Option<i32>,
        bank_account_digit: Option<i32>,
        bank_agency_number: Option<i32>,
        bank_agency_digit: Option<i32>,
        bank_account_type: Option<i32>,
        master_key: &[u8],
    ) -> (r: Result<Self, LedgerError>)
        ensures
            match usable_key(user.encryption_key@, master_key@) {
                Ok(_) => r is Ok,
                Err(e) => r == Err::<Account, _>(e),
            },
            r is Ok ==> {
                let a = r->Ok_0;
                &&& a.id == id
                &&& a.user_id == user.id
                &&& a.bank_id == bank_id
                &&& a.bank_account_number == bank_account_number
                &&& a.bank_account_digit == bank_account_digit
                &&& a.bank_agency_number == bank_agency_number
                &&& a.bank_agency_digit == bank_agency_digit
                &&& a.bank_account_type == bank_account_type
                &&& a.updated_at is None
                &&& balance_of(a, *user, master_key@) == Ok::<u64, LedgerError>(balance)
            },
    {
        let sealed = seal_amount(balance, user.encryption_key.as_slice(), master_key)?;
        Ok(Account {
            id,
            user_id: user.id,
            bank_id,
            bank_account_number,
            bank_account_digit,
            bank_agency_number,
            bank_agency_digit,
            bank_account_type,
            balance: sealed,
            created_at: now_millis(),
            updated_at: None,
        })
    }

    /// A new account of `user` with a fresh identifier, holding `balance`,
    /// sealed under the user's key.
    pub fn new(
        user: &User,
        balance: u64,
        bank_id: Option<i32>,
        bank_account_number: Option<i32>,
        bank_account_digit: Option<i32>,
        bank_agency_number: Option<i32>,
        bank_agency_digit: Option<i32>,
        bank_account_type: Option<i32>,
        master_key: &[u8],
    ) -> (r: Result<Self, LedgerError>)
        ensures
            match usable_key(user.encryption_key@, master_key@) {
                Ok(_) => r is Ok,
                Err(e) => r == Err::<Account, _>(e),
            },
            r is Ok ==> {
                let a = r->Ok_0;
                &&& a.user_id == user.id
                &&& a.bank_id == bank_id
                &&& a.bank_account_number == bank_account_number
                &&& a.bank_account_digit == bank_account_digit
                &&& a.bank_agency_number == bank_agency_number
                &&& a.bank_agency_digit == bank_agency_digit
                &&& a.bank_account_type == bank_account_type
                &&& a.updated_at is None
                &&& balance_of(a, *user, master_key@) == Ok::<u64, LedgerError>(balance)
            },
    {
        Account::with_id(
            new_time_ordered_id(),
            user,
            balance,
            bank_id,
            bank_account_number,
            bank_account_digit,
            bank_agency_number,
            bank_agency_digit,
            bank_account_type,
            master_key,
        )
    }

    /// A copy of the record.
    pub fn duplicate(&self) -> (r: Self)
        ensures
            same_account(r, *self),
    {
        Account {
            id: self.id,
            user_id: self.user_id,
            bank_id: self.bank_id,
            bank_account_number: self.bank_account_number,
            bank_account_digit: self.bank_account_digit,
            bank_agency_number: self.bank_agency_number,
            bank_agency_digit: self.bank_agency_digit,
            bank_account_type: self.bank_account_type,
            balance: self.balance.duplicate(),
            created_at: self.created_at,
            updated_at: self.updated_at,
        }
    }

    /// The balance, decrypted with the key of `user`.
    pub fn get_balance(&self, user: &User, master_key: &[u8]) -> (r: Result<u64, LedgerError>)
        ensures
            r == balance_of(*self, *user, master_key@),
    {
        open_amount(&self.balance, user.encryption_key.as_slice(), master_key)
    }

    /// Replaces the balance by `new_balance`, sealed under the key of `user`
    /// with a fresh nonce. On failure the account is unchanged.
    pub fn update_balance(&mut self, user: &User, new_balance: u64, master_key: &[u8]) -> (r: Result<(), LedgerError>)
        ensures
            match usable_key(user.encryption_key@, master_key@) {
                Ok(_) => r is Ok,
                Err(e) => r == Err::<(), _>(e),
            },
            r is Ok ==> same_but_balance(*final(self), *old(self))
                && balance_of(*final(self), *user, master_key@) == Ok::<u64, LedgerError>(new_balance)
                && final(self).updated_at is Some,
            r is Err ==> *final(self) == *old(self),
    {
        let sealed = seal_amount(new_balance, user.encryption_key.as_slice(), master_key)?;
        self.balance = sealed;
        self.updated_at = Some(now_millis());
        Ok(())
    }
}

impl AccountCreate {
    /// The account that this request describes, for `user`.
    pub fn to_account(&self, user: &User, master_key: &[u8]) -> (r: Result<Account, LedgerError>)
        ensures
            match usable_key(user.encryption_key@, master_key@) {
                Ok(_) => r is Ok,
                Err(e) => r == Err::<Account, _>(e),
            },
            r is Ok ==> {
                let a = r->Ok_0;
                &&& a.user_id == self.user_id
                &&& a.bank_id == self.bank_id
                &&& a.bank_account_number == self.bank_account_number
                &&& a.bank_account_digit == self.bank_account_digit
                &&& a.bank_agency_number == self.bank_agency_number
                &&& a.bank_agency_digit == self.bank_agency_digit
                &&& a.bank_account_type == self.bank_account_type
                &&& a.updated_at is None
                &&& sealed_amount(a.balance, user.encryption_key@, master_key@) == Ok::<u64, LedgerError>(self.balance)
            },
    {
        let sealed = seal_amount(self.balance, user.encryption_key.as_slice(), master_key)?;
        Ok(Account {
            id: new_time_ordered_id(),
            user_id: self.user_id,
            bank_id: self.bank_id,
            bank_account_number: self.bank_account_number,
            bank_account_digit: self.bank_account_digit,
            bank_agency_number: self.bank_agency_number,
            bank_agency_digit: self.bank_agency_digit,
            bank_account_type: self.bank_account_type,
            balance: sealed,
            created_at: now_millis(),
            updated_at: None,
        })
    }
}

impl AccountModel {
    /// `account` with its balance decrypted with the key of `user`.
    pub fn from_dto(account: &Account, user: &User, master_key: &[u8]) -> (r: Result<Self, LedgerError>)
        ensures
            match balance_of(*account, *user, master_key@) {
                Ok(v) => r is Ok && r->Ok_0.balance == v,
                Err(e) => r == Err::<AccountModel, _>(e),
            },
            r is Ok ==> {
                let m = r->Ok_0;
                &&& m.id == account.id
                &&& m.user_id == account.user_id
                &&& m.bank_id == account.bank_id
                &&& m.bank_account_number == account.bank_account_number
                &&& m.bank_account_digit == account.bank_account_digit
                &&& m.bank_agency_number == account.bank_agency_number
                &&& m.bank_agency_digit == account.bank_agency_digit
                &&& m.bank_account_type == account.bank_account_type
                &&& m.created_at == account.created_at
                &&& m.updated_at == account.updated_at
            },
    {
        let balance = open_amount(&account.balance, user.encryption_key.as_slice(), master_key)?;
        Ok(AccountModel {
            id: account.id,
            user_id: account.user_id,
            bank_id: account.bank_id,
            bank_account_number: account.bank_account_number,
            bank_account_digit: account.bank_account_digit,
            bank_agency_number: account.bank_agency_number,
            bank_agency_digit: account.bank_agency_digit,
            bank_account_type: account.bank_account_type,
            balance,
            created_at: account.created_at,
            updated_at: account.updated_at,
        })
    }
}

} // verus!
