//! Applying operations to the ledger and reading recorded amounts.
use crate::errors::{sealed_amount, LedgerError};
use crate::ledger::{account_with, applied, apply, apply_error, owner_of, Store};
use crate::repositories::{has_account, has_transaction, lemma_account_index, lemma_user_index};
use crate::transaction::{Transaction, TransactionCreate, TransactionModel};
use vstd::prelude::*;

verus! {

pub struct Service {
    pub master_key: Vec<u8>,
}

/// What reading the amount of `t` must give: it is sealed under the key of
/// the owner of its destination account.
pub open spec fn amount_read(s: Store, master_key: Seq<u8>, t: Transaction) -> Result<u64, LedgerError> {
    if !has_account(s.accounts.accounts@, t.to_account_id) {
        Err(LedgerError::NotFound)
    } else {
        match owner_of(s, account_with(s, t.to_account_id)) {
            None => Err(LedgerError::NotFound),
            Some(owner) => sealed_amount(t.amount, owner.encryption_key@, master_key),
        }
    }
}

/// `t` moves money from or to the account `account_id`.
pub open spec fn involves(t: Transaction, account_id: u128) -> bool {
    t.to_account_id == account_id || t.from_account_id == Some(account_id)
}

/// `t` with its amount in the clear.
pub open spec fn model_of(t: Transaction, amount: u64) -> TransactionModel {
    TransactionModel {
        id: t.id,
        operation: t.operation,
        from_account_id: t.from_account_id,
        to_account_id: t.to_account_id,
        amount,
        created_at: t.created_at,
    }
}

/// The records of `log` that involve `account_id`, in order, with their
/// amounts read; the first record whose amount cannot be read decides the
/// error.
pub open spec fn readable_models(s: Store, master_key: Seq<u8>, log: Seq<Transaction>, account_id: u128) -> Result<Seq<TransactionModel>, LedgerError>
    decreases log.len(),
{
    if log.len() == 0 {
        Ok(Seq::empty())
    } else {
        match readable_models(s, master_key, log.drop_last(), account_id) {
            Err(e) => Err(e),
            Ok(prev) => {
                let t = log.last();
                if !involves(t, account_id) {
                    Ok(prev)
                } else {
                    match amount_read(s, master_key, t) {
                        Ok(v) => Ok(prev.push(model_of(t, v))),
                        Err(e) => Err(e),
                    }
                }
            },
        }
    }
}

/// Once a prefix of the log fails to be read, the whole listing fails alike.
proof fn lemma_models_failure_persists(s: Store, master_key: Seq<u8>, log: Seq<Transaction>, n: int, account_id: u128)
    requires
        0 <= n <= log.len(),
        readable_models(s, master_key, log.take(n), account_id) is Err,
    ensures
        readable_models(s, master_key, log, account_id) == readable_models(s, master_key, log.take(n), account_id),
    decreases log.len(),
{
    if n == log.len() {
        assert(log.take(n) =~= log);
    } else {
        let p = log.drop_last();
        assert(p.take(n) =~= log.take(n));
        lemma_models_failure_persists(s, master_key, p, n, account_id);
    }
}

/// What listing the records of `account_id` on behalf of `requester` (an
/// administrator when `is_admin`) must give.
pub open spec fn account_listing(s: Store, master_key: Seq<u8>, account_id: u128, requester: u128, is_admin: bool) -> Result<Seq<TransactionModel>, LedgerError> {
    if !has_account(s.accounts.accounts@, account_id) {
        Err(LedgerError::NotFound)
    } else if !is_admin && account_with(s, account_id).user_id != requester {
        Err(LedgerError::Forbidden)
    } else {
        readable_models(s, master_key, s.transactions.transactions@, account_id)
    }
}

impl Service {
    pub fn new(master_key: Vec<u8>) -> (r: Self)
        ensures
            r.master_key@ == master_key@,
    {
        Service { master_key }
    }

    pub fn get_one_by_id<'a>(&self, store: &'a Store, id: u128) -> (r: Option<&'a Transaction>)
        ensures
            match r {
                Some(t) => t.id == id && exists|i: int|
                    0 <= i < store.transactions.transactions@.len() && store.transactions.transactions@[i] == *t,
                None => !has_transaction(store.transactions.transactions@, id),
            },
    {
        store.transactions.find_by_id(id)
    }

    /// Applies `transaction` on behalf of `current_user_id` (an administrator
    /// when `is_admin`); see [`apply`].
    pub fn create(
        &self,
        store: &mut Store,
        transaction: &TransactionCreate,
        current_user_id: u128,
        is_admin: bool,
    ) -> (r: Result<Transaction, LedgerError>)
        ensures
            apply_error(*old(store), self.master_key@, *transaction, current_user_id, is_admin) matches Some(e)
                ==> r == Err::<Transaction, _>(e),
            apply_error(*old(store), self.master_key@, *transaction, current_user_id, is_admin) is None ==> r is Ok
                || (r == Err::<Transaction, _>(LedgerError::StoreError)
                && old(store).transactions.transactions@.len() > 0),
            r is Err ==> *final(store) == *old(store),
            r is Ok ==> applied(*old(store), *final(store), self.master_key@, *transaction, r->Ok_0),
    {
        apply(store, self.master_key.as_slice(), transaction, current_user_id, is_admin)
    }

    /// The amount of `transaction`, decrypted with the key of the owner of its
    /// destination account.
    pub fn get_amount(&self, store: &Store, transaction: &Transaction) -> (r: Result<u64, LedgerError>)
        ensures
            r == amount_read(*store, self.master_key@, *transaction),
    {
        let ai = match store.accounts.position(transaction.to_account_id) {
            Some(i) => i,
            None => return Err(LedgerError::NotFound),
        };
        proof {
            lemma_account_index(store.accounts.accounts@, transaction.to_account_id, ai as int);
        }
        let owner_id = store.accounts.accounts[ai].user_id;
        let ui = match store.users.position(owner_id) {
            Some(i) => i,
            None => return Err(LedgerError::NotFound),
        };
        proof {
            lemma_user_index(store.users.users@, owner_id, ui as int);
        }
        transaction.get_amount(store.users.users[ui].encryption_key.as_slice(), self.master_key.as_slice())
    }
}

impl Service {
    /// The records that involve `account_id`, in the order of the log, with
    /// their amounts decrypted; for the owner of the account or for an
    /// administrator. A record whose amount cannot be read fails the listing.
    pub fn get_all_for_account(&self, store: &Store, account_id: u128, requester: u128, is_admin: bool) -> (r: Result<
        Vec<TransactionModel>,
        LedgerError,
    >)
        ensures
            match account_listing(*store, self.master_key@, account_id, requester, is_admin) {
                Ok(ms) => r is Ok && r->Ok_0@ == ms,
                Err(e) => r == Err::<Vec<TransactionModel>, _>(e),
            },
    {
        let ai = match store.accounts.position(account_id) {
            Some(i) => i,
            None => return Err(LedgerError::NotFound),
        };
        proof {
            lemma_account_index(store.accounts.accounts@, account_id, ai as int);
        }
        if !is_admin && store.accounts.accounts[ai].user_id != requester {
            return Err(LedgerError::Forbidden);
        }
        let log = &store.transactions.transactions;
        let mut r: Vec<TransactionModel> = Vec::new();
        let mut i: usize = 0;
        while i < log.len()
            invariant
                i <= log@.len(),
                log@ == store.transactions.transactions@,
                has_account(store.accounts.accounts@, account_id),
                is_admin || account_with(*store, account_id).user_id == requester,
                readable_models(*store, self.master_key@, log@.take(i as int), account_id) == Ok::<
                    Seq<TransactionModel>,
                    LedgerError,
                >(r@),
            decreases log@.len() - i,
        {
            let t = &log[i];
            assert(log@.take(i + 1).drop_last() =~= log@.take(i as int));
            assert(log@.take(i + 1).last() == *t);
            if t.to_account_id == account_id || t.from_account_id == Some(account_id) {
                match self.get_amount(store, t) {
                    Ok(amount) => {
                        r.push(
                            TransactionModel {
                                id: t.id,
                                operation: t.operation,
                                from_account_id: t.from_account_id,
                                to_account_id: t.to_account_id,
                                amount,
                                created_at: t.created_at,
                            },
                        );
                    },
                    Err(e) => {
                        proof {
                            let pre = log@.take(i + 1);
                            assert(pre.drop_last() =~= log@.take(i as int));
                            assert(pre.last() == *t);
                            assert(involves(*t, account_id));
                            assert(readable_models(*store, self.master_key@, pre, account_id) == Err::<
                                Seq<TransactionModel>,
                                LedgerError,
                            >(e));
                            lemma_models_failure_persists(*store, self.master_key@, log@, i + 1, account_id);
                        }
                        return Err(e);
                    },
                }
            }
            i = i + 1;
        }
        assert(log@.take(log@.len() as int) =~= log@);
        Ok(r)
    }
}

} // verus!
