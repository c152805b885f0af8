//! Transactions: immutable records of value-moving operations.
use crate::encrypted_field::EncryptedField;
use crate::errors::{sealed_amount, usable_key, LedgerError};
use crate::user::{new_random_id, now_millis, open_amount, seal_amount};
use vstd::prelude::*;

verus! {

/// The kinds of operation. Each has its own authorization rule and its own
/// effect on balances.
#[derive(Debug, Clone, Copy, PartialEq, Eq, Structural)]
pub enum TransactionOperation {
    Deposit,
    Fee,
    Interest,
    Payment,
    Transfer,
    Withdrawal,
}

/// A recorded operation. `amount` is sealed under the key of the owner of the
/// account to which the record is credited.
#[derive(Debug)]
pub struct Transaction {
    pub id: u128,
    pub operation: TransactionOperation,
    pub from_account_id: Option<u128>,
    pub to_account_id: u128,
    pub amount: EncryptedField,
    pub created_at: i64,
}

/// A requested operation.
#[derive(Debug)]
pub struct TransactionCreate {
    pub operation: TransactionOperation,
    pub from_account_id: Option<u128>,
    pub to_account_id: u128,
    pub amount: u64,
}

/// A transaction with its amount in the clear.
#[derive(Debug)]
pub struct TransactionModel {
    pub id: u128,
    pub operation: TransactionOperation,
    pub from_account_id: Option<u128>,
    pub to_account_id: u128,
    pub amount: u64,
    pub created_at: i64,
}

/// `t` records `operation` between the given accounts, with an amount that
/// opens to `amount` for the user whose wrapped key is `wrapped`.
pub open spec fn records(
    t: Transaction,
    operation: TransactionOperation,
    from_account_id: Option<u128>,
    to_account_id: u128,
    amount: u64,
    wrapped: Seq<u8>,
    master_key: Seq<u8>,
) -> bool {
    &&& t.operation == operation
    &&& t.from_account_id == from_account_id
    &&& t.to_account_id == to_account_id
    &&& sealed_amount(t.amount, wrapped, master_key) == Ok::<u64, LedgerError>(amount)
}

/// `a` and `b` are the same record.
pub open spec fn same_transaction(a: Transaction, b: Transaction) -> bool {
    &&& a.id == b.id
    &&& a.operation == b.operation
    &&& a.from_account_id == b.from_account_id
    &&& a.to_account_id == b.to_account_id
    &&& a.amount.nonce@ == b.amount.nonce@
    &&& a.amount.ciphertext@ == b.amount.ciphertext@
    &&& a.created_at == b.created_at
}

impl Transaction {
    /// A new record with identifier `id`, whose amount is sealed for the user
    /// whose wrapped key is `user_key`.
    pub fn with_id(
        id: u128,
        from_account_id: Option<u128>,
        to_account_id: u128,
        operation: TransactionOperation,
        amount: u64,
        user_key: &[u8],
        master_key: &[u8],
    ) -> (r: Result<Self, LedgerError>)
        ensures
            match usable_key(user_key@, master_key@) {
                Ok(_) => r is Ok,
                Err(e) => r == Err::<Transaction, _>(e),
            },
            r is Ok ==> r->Ok_0.id == id,
            r is Ok ==> records(r->Ok_0, operation, from_account_id, to_account_id, amount, user_key@, master_key@),
    {
        let sealed = seal_amount(amount, user_key, master_key)?;
        Ok(Transaction { id, operation, from_account_id, to_account_id, amount: sealed, created_at: now_millis() })
    }

    /// A new record with a fresh random identifier, whose amount is sealed for
    /// the user whose wrapped key is `user_key`.
    pub fn new(
        from_account_id: Option<u128>,
        to_account_id: u128,
        operation: TransactionOperation,
        amount: u64,
        user_key: &[u8],
        master_key: &[u8],
    ) -> (r: Result<Self, LedgerError>)
        ensures
            match usable_key(user_key@, master_key@) {
                Ok(_) => r is Ok,
                Err(e) => r == Err::<Transaction, _>(e),
            },
            r is Ok ==> records(r->Ok_0, operation, from_account_id, to_account_id, amount, user_key@, master_key@),
    {
        Transaction::with_id(new_random_id(), from_account_id, to_account_id, operation, amount, user_key, master_key)
    }

    /// The amount, decrypted for the user whose wrapped key is `user_key`.
    pub fn get_amount(&self, user_key: &[u8], master_key: &[u8]) -> (r: Result<u64, LedgerError>)
        ensures
            r == sealed_amount(self.amount, user_key@, master_key@),
    {
        open_amount(&self.amount, user_key, master_key)
    }

    /// A copy of the record.
    pub fn duplicate(&self) -> (r: Self)
        ensures
            r.id == self.id,
            r.operation == self.operation,
            r.from_account_id == self.from_account_id,
            r.to_account_id == self.to_account_id,
            r.amount.nonce@ == self.amount.nonce@,
            r.amount.ciphertext@ == self.amount.ciphertext@,
            r.created_at == self.created_at,
    {
        Transaction {
            id: self.id,
            operation: self.operation,
            from_account_id: self.from_account_id,
            to_account_id: self.to_account_id,
            amount: self.amount.duplicate(),
            created_at: self.created_at,
        }
    }
}

impl TransactionCreate {
    /// The record of this request, with its amount sealed for the user whose
    /// wrapped key is `user_key`.
    pub fn to_transaction(&self, user_key: &[u8], master_key: &[u8]) -> (r: Result<Transaction, LedgerError>)
        ensures
            match usable_key(user_key@, master_key@) {
                Ok(_) => r is Ok,
                Err(e) => r == Err::<Transaction, _>(e),
            },
            r is Ok ==> records(
                r->Ok_0,
                self.operation,
                self.from_account_id,
                self.to_account_id,
                self.amount,
                user_key@,
                master_key@,
            ),
    {
        Transaction::new(self.from_account_id, self.to_account_id, self.operation, self.amount, user_key, master_key)
    }
}

impl TransactionModel {
    /// `transaction` with its amount decrypted for the user whose wrapped key
    /// is `user_key`.
    pub fn from_dto(transaction: &Transaction, user_key: &[u8], master_key: &[u8]) -> (r: Result<Self, LedgerError>)
        ensures
            match sealed_amount(transaction.amount, user_key@, master_key@) {
                Ok(v) => r is Ok && r->Ok_0.amount == v,
                Err(e) => r == Err::<TransactionModel, _>(e),
            },
            r is Ok ==> r->Ok_0.id == transaction.id && r->Ok_0.operation == transaction.operation
                && r->Ok_0.from_account_id == transaction.from_account_id
                && r->Ok_0.to_account_id == transaction.to_account_id
                && r->Ok_0.created_at == transaction.created_at,
    {
        let amount = open_amount(&transaction.amount, user_key, master_key)?;
        Ok(TransactionModel {
            id: transaction.id,
            operation: transaction.operation,
            from_account_id: transaction.from_account_id,
            to_account_id: transaction.to_account_id,
            amount,
            created_at: transaction.created_at,
        })
    }
}

} // verus!
