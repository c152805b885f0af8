//! The balance-mutation protocol. An operation is checked, the affected
//! balances are decrypted with their owners' keys, the new balances are
//! computed and checked, re-encrypted with fresh nonces, and written together
//! with one new transaction record; or, on any failure, nothing is written.
use crate::account::{balance_of, same_but_balance, Account};
use crate::encrypted_field::EncryptedField;
use crate::errors::LedgerError;
use crate::repositories::{
    account_index, has_account, has_transaction, has_user, lemma_account_index, lemma_first_account,
    lemma_first_user, lemma_user_index, user_index, AccountRepository, TransactionRepository, UserRepository,
};
use crate::transaction::{records, same_transaction, Transaction, TransactionCreate, TransactionOperation};
use crate::user::{new_random_id, now_millis, open_amount, seal_amount, User};
use vstd::prelude::*;

verus! {

/// The records that one ledger operation reads and writes.
pub struct Store {
    pub users: UserRepository,
    pub accounts: AccountRepository,
    pub transactions: TransactionRepository,
}

impl Store {
    pub fn new() -> (r: Self)
        ensures
            r.users.users@.len() == 0,
            r.accounts.accounts@.len() == 0,
            r.transactions.transactions@.len() == 0,
    {
        Store {
            users: UserRepository::new(),
            accounts: AccountRepository::new(),
            transactions: TransactionRepository::new(),
        }
    }
}

/// Operations that add the amount to the destination account.
pub open spec fn is_credit(op: TransactionOperation) -> bool {
    op is Deposit || op is Interest
}

/// Operations that take the amount from the destination account.
pub open spec fn is_debit(op: TransactionOperation) -> bool {
    op is Withdrawal || op is Fee || op is Payment
}

/// The account with identifier `id` (the first, if several).
pub open spec fn account_with(s: Store, id: u128) -> Account {
    s.accounts.accounts@[account_index(s.accounts.accounts@, id)]
}

/// The owner of `a`, if the store holds it.
pub open spec fn owner_of(s: Store, a: Account) -> Option<User> {
    if has_user(s.users.users@, a.user_id) {
        Some(s.users.users@[user_index(s.users.users@, a.user_id)])
    } else {
        None
    }
}

/// The first failure of validation, resolution of the accounts and
/// authorization of `actor` (an administrator when `is_admin`), if any.
pub open spec fn access_error(s: Store, req: TransactionCreate, actor: u128, is_admin: bool) -> Option<LedgerError> {
    let accounts = s.accounts.accounts@;
    if req.amount == 0 {
        Some(LedgerError::BadRequest)
    } else if !has_account(accounts, req.to_account_id) {
        Some(LedgerError::NotFound)
    } else {
        let to = account_with(s, req.to_account_id);
        match req.operation {
            TransactionOperation::Withdrawal => if to.user_id != actor {
                Some(LedgerError::Forbidden)
            } else {
                None
            },
            TransactionOperation::Transfer => match req.from_account_id {
                None => Some(LedgerError::BadRequest),
                Some(from_id) => if !has_account(accounts, from_id) {
                    Some(LedgerError::NotFound)
                } else if account_with(s, from_id).user_id != actor {
                    Some(LedgerError::Forbidden)
                } else {
                    None
                },
            },
            TransactionOperation::Interest | TransactionOperation::Fee => if !is_admin {
                Some(LedgerError::Forbidden)
            } else {
                None
            },
            _ => None,
        }
    }
}

/// The new balances of the destination and of the source account, once
/// access has been granted. Where there is no distinct source account the
/// second equals the first.
pub open spec fn planned_balances(s: Store, master_key: Seq<u8>, req: TransactionCreate) -> Result<(u64, u64), LedgerError> {
    let to = account_with(s, req.to_account_id);
    let amount = req.amount;
    match owner_of(s, to) {
        None => Err(LedgerError::NotFound),
        Some(to_owner) => if req.operation is Transfer {
            let from = account_with(s, req.from_account_id->0);
            match owner_of(s, from) {
                None => Err(LedgerError::NotFound),
                Some(from_owner) => match balance_of(from, from_owner, master_key) {
                    Err(e) => Err(e),
                    Ok(fb) => if req.from_account_id->0 == req.to_account_id {
                        if fb < amount {
                            Err(LedgerError::InsufficientFunds)
                        } else {
                            Ok((fb, fb))
                        }
                    } else {
                        match balance_of(to, to_owner, master_key) {
                            Err(e) => Err(e),
                            Ok(tb) => if fb < amount {
                                Err(LedgerError::InsufficientFunds)
                            } else if tb + amount > u64::MAX {
                                Err(LedgerError::BalanceOverflow)
                            } else {
                                Ok(((tb + amount) as u64, (fb - amount) as u64))
                            },
                        }
                    },
                },
            }
        } else {
            match balance_of(to, to_owner, master_key) {
                Err(e) => Err(e),
                Ok(tb) => if is_credit(req.operation) {
                    if tb + amount > u64::MAX {
                        Err(LedgerError::BalanceOverflow)
                    } else {
                        Ok(((tb + amount) as u64, (tb + amount) as u64))
                    }
                } else {
                    if tb < amount {
                        Err(LedgerError::InsufficientFunds)
                    } else {
                        Ok(((tb - amount) as u64, (tb - amount) as u64))
                    }
                },
            }
        },
    }
}

/// The error that applying `req` must end in, or `None` where it may succeed.
pub open spec fn apply_error(s: Store, master_key: Seq<u8>, req: TransactionCreate, actor: u128, is_admin: bool) -> Option<LedgerError> {
    match access_error(s, req, actor, is_admin) {
        Some(e) => Some(e),
        None => match planned_balances(s, master_key, req) {
            Err(e) => Some(e),
            Ok(_) => None,
        },
    }
}

/// The position of the account that the operation debits besides the
/// destination: the source of a transfer, else the destination itself.
pub open spec fn source_index(s: Store, req: TransactionCreate) -> int {
    if req.operation is Transfer {
        account_index(s.accounts.accounts@, req.from_account_id->0)
    } else {
        account_index(s.accounts.accounts@, req.to_account_id)
    }
}

/// `new` is `old` after `req` was applied and recorded as `t`: the
/// destination and the source hold their planned balances, no other account
/// changed, the users are untouched, and `t` was appended to the log.
pub open spec fn applied(old: Store, new: Store, master_key: Seq<u8>, req: TransactionCreate, t: Transaction) -> bool {
    let accounts = old.accounts.accounts@;
    let ti = account_index(accounts, req.to_account_id);
    let fi = source_index(old, req);
    let plan = planned_balances(old, master_key, req)->Ok_0;
    let to_owner = owner_of(old, accounts[ti])->0;
    let from_owner = owner_of(old, accounts[fi])->0;
    let log = new.transactions.transactions@;
    &&& new.users == old.users
    &&& new.accounts.accounts@.len() == accounts.len()
    &&& forall|j: int|
        0 <= j < accounts.len() && j != ti && j != fi ==> #[trigger] new.accounts.accounts@[j] == accounts[j]
    &&& same_but_balance(new.accounts.accounts@[ti], accounts[ti])
    &&& balance_of(new.accounts.accounts@[ti], to_owner, master_key) == Ok::<u64, LedgerError>(plan.0)
    &&& same_but_balance(new.accounts.accounts@[fi], accounts[fi])
    &&& balance_of(new.accounts.accounts@[fi], from_owner, master_key) == Ok::<u64, LedgerError>(plan.1)
    &&& log.len() == old.transactions.transactions@.len() + 1
    &&& log.take(log.len() - 1) == old.transactions.transactions@
    &&& same_transaction(log.last(), t)
    &&& records(t, req.operation, req.from_account_id, req.to_account_id, req.amount, to_owner.encryption_key@, master_key)
}

/// `a` with its balance replaced by `balance`.
fn with_balance(a: &Account, balance: EncryptedField) -> (r: Account)
    ensures
        same_but_balance(r, *a),
        r.balance == balance,
{
    Account {
        id: a.id,
        user_id: a.user_id,
        bank_id: a.bank_id,
        bank_account_number: a.bank_account_number,
        bank_account_digit: a.bank_account_digit,
        bank_agency_number: a.bank_agency_number,
        bank_agency_digit: a.bank_agency_digit,
        bank_account_type: a.bank_account_type,
        balance,
        created_at: a.created_at,
        updated_at: Some(now_millis()),
    }
}

/// Applies `request` on behalf of the user `actor_user_id` (an administrator
/// when `actor_is_admin`).
///
/// Withdrawals need the actor to own the destination account, transfers the
/// source account; fees and interest need an administrator. Deposits and
/// interest credit the destination, withdrawals, fees and payments debit it,
/// and a transfer moves the amount from the source to the destination. A
/// debit below zero fails with `InsufficientFunds`. On success every changed
/// balance is sealed anew under its owner's key and one record, whose amount is
/// sealed under the key of the destination's owner, is appended; on failure
/// the store is unchanged.
///
/// The new record gets the identifier `id`; where the log already holds a
/// record with it, the operation fails with `StoreError`.
pub fn apply_with_id(
    store: &mut Store,
    master_key: &[u8],
    request: &TransactionCreate,
    actor_user_id: u128,
    actor_is_admin: bool,
    id: u128,
) -> (r: Result<Transaction, LedgerError>)
    ensures
        apply_error(*old(store), master_key@, *request, actor_user_id, actor_is_admin) matches Some(e)
            ==> r == Err::<Transaction, _>(e),
        apply_error(*old(store), master_key@, *request, actor_user_id, actor_is_admin) is None
            && !has_transaction(old(store).transactions.transactions@, id) ==> r is Ok && r->Ok_0.id == id,
        apply_error(*old(store), master_key@, *request, actor_user_id, actor_is_admin) is None
            && has_transaction(old(store).transactions.transactions@, id) ==> r == Err::<Transaction, _>(
            LedgerError::StoreError,
        ),
        r is Err ==> *final(store) == *old(store),
        r is Ok ==> applied(*old(store), *final(store), master_key@, *request, r->Ok_0),
{
    let ghost s0 = *store;
    let amount = request.amount;
    if amount == 0 {
        return Err(LedgerError::BadRequest);
    }
    let ti = match store.accounts.position(request.to_account_id) {
        Some(i) => i,
        None => return Err(LedgerError::NotFound),
    };
    proof {
        lemma_account_index(store.accounts.accounts@, request.to_account_id, ti as int);
    }
    let to_user_id = store.accounts.accounts[ti].user_id;
    let mut fi = ti;
    match request.operation {
        TransactionOperation::Withdrawal => {
            if to_user_id != actor_user_id {
                return Err(LedgerError::Forbidden);
            }
        },
        TransactionOperation::Transfer => {
            let from_id = match request.from_account_id {
                Some(id) => id,
                None => return Err(LedgerError::BadRequest),
            };
            fi = match store.accounts.position(from_id) {
                Some(i) => i,
                None => return Err(LedgerError::NotFound),
            };
            proof {
                lemma_account_index(store.accounts.accounts@, from_id, fi as int);
            }
            if store.accounts.accounts[fi].user_id != actor_user_id {
                return Err(LedgerError::Forbidden);
            }
        },
        TransactionOperation::Interest | TransactionOperation::Fee => {
            if !actor_is_admin {
                return Err(LedgerError::Forbidden);
            }
        },
        _ => {},
    }
    assert(access_error(s0, *request, actor_user_id, actor_is_admin) is None);
    assert(fi as int == source_index(s0, *request));
    let to_ui = match store.users.position(to_user_id) {
        Some(i) => i,
        None => return Err(LedgerError::NotFound),
    };
    proof {
        lemma_user_index(store.users.users@, to_user_id, to_ui as int);
    }
    let from_user_id = store.accounts.accounts[fi].user_id;
    let from_ui = match store.users.position(from_user_id) {
        Some(i) => i,
        None => return Err(LedgerError::NotFound),
    };
    proof {
        lemma_user_index(store.users.users@, from_user_id, from_ui as int);
    }
    let to_key = store.users.users[to_ui].encryption_key.as_slice();
    let from_key = store.users.users[from_ui].encryption_key.as_slice();
    let to_new: u64;
    let from_new: u64;
    if fi != ti {
        let fb = open_amount(&store.accounts.accounts[fi].balance, from_key, master_key)?;
        let tb = open_amount(&store.accounts.accounts[ti].balance, to_key, master_key)?;
        if fb < amount {
            return Err(LedgerError::InsufficientFunds);
        }
        if tb > u64::MAX - amount {
            return Err(LedgerError::BalanceOverflow);
        }
        to_new = tb + amount;
        from_new = fb - amount;
    } else {
        let b = open_amount(&store.accounts.accounts[ti].balance, to_key, master_key)?;
        match request.operation {
            TransactionOperation::Transfer => {
                if b < amount {
                    return Err(LedgerError::InsufficientFunds);
                }
                to_new = b;
            },
            TransactionOperation::Deposit | TransactionOperation::Interest => {
                if b > u64::MAX - amount {
                    return Err(LedgerError::BalanceOverflow);
                }
                to_new = b + amount;
            },
            _ => {
                if b < amount {
                    return Err(LedgerError::InsufficientFunds);
                }
                to_new = b - amount;
            },
        }
        from_new = to_new;
    }
    assert(planned_balances(s0, master_key@, *request) == Ok::<(u64, u64), LedgerError>((to_new, from_new)));
    if store.transactions.position(id).is_some() {
        return Err(LedgerError::StoreError);
    }
    let t = Transaction::with_id(
        id,
        request.from_account_id,
        request.to_account_id,
        request.operation,
        amount,
        to_key,
        master_key,
    )?;
    let to_sealed = seal_amount(to_new, to_key, master_key)?;
    let from_sealed = seal_amount(from_new, from_key, master_key)?;
    let new_to = with_balance(&store.accounts.accounts[ti], to_sealed);
    let new_from = with_balance(&store.accounts.accounts[fi], from_sealed);
    store.accounts.accounts.set(ti, new_to);
    if fi != ti {
        store.accounts.accounts.set(fi, new_from);
    }
    store.transactions.transactions.push(t.duplicate());
    assert(store.transactions.transactions@.take(store.transactions.transactions@.len() - 1)
        =~= s0.transactions.transactions@);
    Ok(t)
}

/// Applies `request` as [`apply_with_id`] does, with a fresh random
/// identifier for the new record. Valid requests succeed but where the drawn
/// identifier is already in the log, which an empty log rules out.
pub fn apply(
    store: &mut Store,
    master_key: &[u8],
    request: &TransactionCreate,
    actor_user_id: u128,
    actor_is_admin: bool,
) -> (r: Result<Transaction, LedgerError>)
    ensures
        apply_error(*old(store), master_key@, *request, actor_user_id, actor_is_admin) matches Some(e)
            ==> r == Err::<Transaction, _>(e),
        apply_error(*old(store), master_key@, *request, actor_user_id, actor_is_admin) is None ==> r is Ok
            || (r == Err::<Transaction, _>(LedgerError::StoreError) && old(store).transactions.transactions@.len()
            > 0),
        r is Err ==> *final(store) == *old(store),
        r is Ok ==> applied(*old(store), *final(store), master_key@, *request, r->Ok_0),
{
    apply_with_id(store, master_key, request, actor_user_id, actor_is_admin, new_random_id())
}

/// A debit that exceeds the balance it is taken from is refused with
/// `InsufficientFunds` (and `apply` then leaves the store unchanged): no
/// operation takes a balance below zero.
pub proof fn lemma_overdraft_refused(
    s: Store,
    master_key: Seq<u8>,
    req: TransactionCreate,
    actor: u128,
    is_admin: bool,
    owner: User,
    balance: u64,
)
    requires
        is_debit(req.operation),
        access_error(s, req, actor, is_admin) is None,
        owner_of(s, account_with(s, req.to_account_id)) == Some(owner),
        balance_of(account_with(s, req.to_account_id), owner, master_key) == Ok::<u64, LedgerError>(balance),
        balance < req.amount,
    ensures
        apply_error(s, master_key, req, actor, is_admin) == Some(LedgerError::InsufficientFunds),
{
}

/// A transfer of more than the source account holds is refused with
/// `InsufficientFunds`, once both balances can be read.
pub proof fn lemma_transfer_overdraft_refused(
    s: Store,
    master_key: Seq<u8>,
    req: TransactionCreate,
    actor: u128,
    is_admin: bool,
    to_owner: User,
    from_owner: User,
    from_balance: u64,
)
    requires
        req.operation is Transfer,
        access_error(s, req, actor, is_admin) is None,
        owner_of(s, account_with(s, req.to_account_id)) == Some(to_owner),
        owner_of(s, account_with(s, req.from_account_id->0)) == Some(from_owner),
        balance_of(account_with(s, req.from_account_id->0), from_owner, master_key) == Ok::<u64, LedgerError>(
            from_balance,
        ),
        balance_of(account_with(s, req.to_account_id), to_owner, master_key) is Ok,
        from_balance < req.amount,
    ensures
        apply_error(s, master_key, req, actor, is_admin) == Some(LedgerError::InsufficientFunds),
{
}

/// The balance that `a` holds for its owner among `users`, or zero where it
/// cannot be read.
pub open spec fn readable_balance(users: Seq<User>, a: Account, master_key: Seq<u8>) -> int {
    if has_user(users, a.user_id) {
        match balance_of(a, users[user_index(users, a.user_id)], master_key) {
            Ok(v) => v as int,
            Err(_) => 0,
        }
    } else {
        0
    }
}

/// The sum of the readable balances of `accounts`.
pub open spec fn total_of(users: Seq<User>, accounts: Seq<Account>, master_key: Seq<u8>) -> int
    decreases accounts.len(),
{
    if accounts.len() == 0 {
        0
    } else {
        total_of(users, accounts.drop_last(), master_key) + readable_balance(users, accounts.last(), master_key)
    }
}

/// The sum of the balances of all accounts of the store.
pub open spec fn total_balance(s: Store, master_key: Seq<u8>) -> int {
    total_of(s.users.users@, s.accounts.accounts@, master_key)
}

/// Replacing one account changes the sum by the difference of the two
/// balances.
pub proof fn lemma_total_update(users: Seq<User>, accounts: Seq<Account>, i: int, a: Account, master_key: Seq<u8>)
    requires
        0 <= i < accounts.len(),
    ensures
        total_of(users, accounts.update(i, a), master_key) == total_of(users, accounts, master_key)
            - readable_balance(users, accounts[i], master_key) + readable_balance(users, a, master_key),
    decreases accounts.len(),
{
    if i == accounts.len() - 1 {
        assert(accounts.update(i, a).drop_last() =~= accounts.drop_last());
    } else {
        lemma_total_update(users, accounts.drop_last(), i, a, master_key);
        assert(accounts.update(i, a).drop_last() =~= accounts.drop_last().update(i, a));
    }
}

/// Money is neither created nor destroyed by a transfer: the sum of the
/// balances of all accounts is the same before and after it.
pub proof fn lemma_transfer_conserves_total(
    old: Store,
    new: Store,
    master_key: Seq<u8>,
    req: TransactionCreate,
    actor: u128,
    is_admin: bool,
    t: Transaction,
)
    requires
        req.operation is Transfer,
        apply_error(old, master_key, req, actor, is_admin) is None,
        applied(old, new, master_key, req, t),
    ensures
        total_balance(new, master_key) == total_balance(old, master_key),
{
    let users = old.users.users@;
    let accounts = old.accounts.accounts@;
    let to_id = req.to_account_id;
    let from_id = req.from_account_id->0;
    lemma_first_account(accounts, to_id);
    lemma_first_account(accounts, from_id);
    let ti = account_index(accounts, to_id);
    let fi = account_index(accounts, from_id);
    let to = accounts[ti];
    let from = accounts[fi];
    lemma_first_user(users, to.user_id);
    lemma_first_user(users, from.user_id);
    let na = new.accounts.accounts@;
    let mid = accounts.update(ti, na[ti]);
    let fin = mid.update(fi, na[fi]);
    assert(na =~= fin);
    lemma_total_update(users, accounts, ti, na[ti], master_key);
    lemma_total_update(users, mid, fi, na[fi], master_key);
    if from_id == to_id {
        assert(fi == ti);
    } else {
        if fi == ti {
            assert(accounts[fi].id == from_id);
        }
        assert(fi != ti);
        assert(mid[fi] == accounts[fi]);
    }
}

/// One attempted transfer: either it was applied and recorded, or it failed
/// and left the store as it was.
pub open spec fn transfer_step(
    before: Store,
    after: Store,
    master_key: Seq<u8>,
    req: TransactionCreate,
    actor: u128,
    is_admin: bool,
) -> bool {
    &&& req.operation is Transfer
    &&& after == before || (apply_error(before, master_key, req, actor, is_admin) is None && exists|t: Transaction|
        #[trigger] applied(before, after, master_key, req, t))
}

/// However many transfers are attempted one after another, the sum of the
/// balances of all accounts stays what it was.
pub proof fn lemma_transfers_conserve_total(
    states: Seq<Store>,
    master_key: Seq<u8>,
    reqs: Seq<TransactionCreate>,
    actors: Seq<u128>,
    admins: Seq<bool>,
)
    requires
        states.len() == reqs.len() + 1,
        actors.len() == reqs.len(),
        admins.len() == reqs.len(),
        forall|k: int|
            0 <= k < reqs.len() ==> transfer_step(
                #[trigger] states[k],
                states[k + 1],
                master_key,
                reqs[k],
                actors[k],
                admins[k],
            ),
    ensures
        total_balance(states.last(), master_key) == total_balance(states[0], master_key),
    decreases reqs.len(),
{
    if reqs.len() > 0 {
        let n = reqs.len() - 1;
        lemma_transfers_conserve_total(
            states.drop_last(),
            master_key,
            reqs.drop_last(),
            actors.drop_last(),
            admins.drop_last(),
        );
        assert(transfer_step(states[n], states[n + 1], master_key, reqs[n], actors[n], admins[n]));
        if states[n + 1] != states[n] {
            let t = choose|t: Transaction| #[trigger] applied(states[n], states[n + 1], master_key, reqs[n], t);
            lemma_transfer_conserves_total(states[n], states[n + 1], master_key, reqs[n], actors[n], admins[n], t);
        }
    }
}

} // verus!
