use ledger_vault::account::AccountCreate;
use ledger_vault::errors::LedgerError;
use ledger_vault::keys::{encrypt_user_key, generate_random_key};
use ledger_vault::ledger::{apply, Store};
use ledger_vault::services::account::Service as AccountService;
use ledger_vault::services::transaction::Service as TransactionService;
use ledger_vault::services::user::Service as UserService;
use ledger_vault::transaction::{Transaction, TransactionCreate, TransactionOperation};
use ledger_vault::user::{User, UserCreate};

fn master_key() -> Vec<u8> {
    vec![0x42u8; 32]
}

fn add_user(store: &mut Store, id: u128, master: &[u8]) {
    let wrapped = encrypt_user_key(&generate_random_key(), master).unwrap();
    let user = User {
        id,
        name: format!("user{}", id),
        email: format!("user{}@example.com", id),
        active: true,
        password: String::new(),
        encryption_key: wrapped,
        created_at: 0,
        updated_at: None,
    };
    store.users.create(user).unwrap();
}

fn open_account(store: &mut Store, owner: u128, balance: u64, master: &[u8]) -> u128 {
    let service = AccountService::new(master.to_vec());
    let request = AccountCreate {
        user_id: owner,
        bank_id: None,
        bank_account_number: None,
        bank_account_digit: None,
        bank_agency_number: None,
        bank_agency_digit: None,
        bank_account_type: None,
        balance,
    };
    service.create(store, owner, &request).unwrap().id
}

fn request(op: TransactionOperation, amount: u64, to: u128, from: Option<u128>) -> TransactionCreate {
    TransactionCreate { operation: op, from_account_id: from, to_account_id: to, amount }
}

fn balance(store: &Store, account: u128, master: &[u8]) -> u64 {
    AccountService::new(master.to_vec()).get_balance(store, account, 0, true).unwrap()
}

fn err(r: Result<Transaction, LedgerError>) -> LedgerError {
    match r {
        Ok(_) => panic!("the operation should have failed"),
        Err(e) => e,
    }
}

#[test]
fn withdrawal_scenario_and_overdraft() {
    let master = master_key();
    let mut store = Store::new();
    add_user(&mut store, 1, &master);
    let a = open_account(&mut store, 1, 1000, &master);
    assert_eq!(store.transactions.get_total(), 1);
    let service = TransactionService::new(master.clone());

    let t = service
        .create(&mut store, &request(TransactionOperation::Withdrawal, 250, a, None), 1, false)
        .unwrap();
    assert_eq!(balance(&store, a, &master), 750);
    assert_eq!(t.operation, TransactionOperation::Withdrawal);
    assert_eq!(service.get_amount(&store, &t), Ok(250));
    assert_eq!(store.transactions.get_total(), 2);

    let r = service.create(&mut store, &request(TransactionOperation::Withdrawal, 1000, a, None), 1, false);
    assert_eq!(err(r), LedgerError::InsufficientFunds);
    assert_eq!(balance(&store, a, &master), 750);
    assert_eq!(store.transactions.get_total(), 2);
}

#[test]
fn transfer_scenario() {
    let master = master_key();
    let mut store = Store::new();
    add_user(&mut store, 1, &master);
    add_user(&mut store, 2, &master);
    let a = open_account(&mut store, 1, 750, &master);
    let b = open_account(&mut store, 2, 0, &master);
    let before = store.transactions.get_total();
    let service = TransactionService::new(master.clone());
    let t = service
        .create(&mut store, &request(TransactionOperation::Transfer, 100, b, Some(a)), 1, false)
        .unwrap();
    assert_eq!(balance(&store, a, &master), 650);
    assert_eq!(balance(&store, b, &master), 100);
    assert_eq!(store.transactions.get_total(), before + 1);
    assert_eq!(t.from_account_id, Some(a));
    assert_eq!(t.to_account_id, b);
    assert_eq!(service.get_amount(&store, &t), Ok(100));
}

#[test]
fn consecutive_debits_stop_at_zero() {
    let master = master_key();
    let mut store = Store::new();
    add_user(&mut store, 1, &master);
    let a = open_account(&mut store, 1, 300, &master);
    let service = TransactionService::new(master.clone());
    for _ in 0..3 {
        service.create(&mut store, &request(TransactionOperation::Payment, 100, a, None), 1, false).unwrap();
    }
    assert_eq!(balance(&store, a, &master), 0);
    let r = service.create(&mut store, &request(TransactionOperation::Payment, 1, a, None), 1, false);
    assert_eq!(err(r), LedgerError::InsufficientFunds);
    assert_eq!(balance(&store, a, &master), 0);
}

#[test]
fn failed_transfer_changes_nothing() {
    let master = master_key();
    let mut store = Store::new();
    add_user(&mut store, 1, &master);
    add_user(&mut store, 2, &master);
    let a = open_account(&mut store, 1, 500, &master);
    let b = open_account(&mut store, 2, 20, &master);
    // The destination owner's wrapped key is damaged: the credit side cannot
    // be decrypted after the debit side was.
    let last = store.users.users[1].encryption_key.len() - 1;
    store.users.users[1].encryption_key[last] ^= 1;
    let a_nonce = store.accounts.accounts[0].balance.nonce.clone();
    let b_cipher = store.accounts.accounts[1].balance.ciphertext.clone();
    let log = store.transactions.get_total();
    let r = apply(&mut store, &master, &request(TransactionOperation::Transfer, 100, b, Some(a)), 1, false);
    assert_eq!(err(r), LedgerError::EncryptionError);
    assert_eq!(store.accounts.accounts[0].balance.nonce, a_nonce);
    assert_eq!(store.accounts.accounts[1].balance.ciphertext, b_cipher);
    assert_eq!(balance(&store, a, &master), 500);
    assert_eq!(store.transactions.get_total(), log);
}

#[test]
fn transfers_conserve_the_total() {
    let master = master_key();
    let mut store = Store::new();
    for id in 1..=3u128 {
        add_user(&mut store, id, &master);
    }
    let accounts = [
        open_account(&mut store, 1, 400, &master),
        open_account(&mut store, 2, 250, &master),
        open_account(&mut store, 3, 50, &master),
    ];
    let total = |s: &Store| accounts.iter().map(|a| balance(s, *a, &master)).sum::<u64>();
    assert_eq!(total(&store), 700);
    let moves = [(0usize, 1usize, 120u64), (1, 2, 300), (2, 0, 10), (0, 0, 5), (2, 1, 1000)];
    for (from, to, amount) in moves {
        let owner = (from + 1) as u128;
        let _ = apply(
            &mut store,
            &master,
            &request(TransactionOperation::Transfer, amount, accounts[to], Some(accounts[from])),
            owner,
            false,
        );
        assert_eq!(total(&store), 700);
    }
    assert_eq!(balance(&store, accounts[0], &master), 290);
    assert_eq!(balance(&store, accounts[1], &master), 70);
    assert_eq!(balance(&store, accounts[2], &master), 340);
}

#[test]
fn self_transfer_keeps_the_balance() {
    let master = master_key();
    let mut store = Store::new();
    add_user(&mut store, 1, &master);
    let a = open_account(&mut store, 1, 40, &master);
    apply(&mut store, &master, &request(TransactionOperation::Transfer, 40, a, Some(a)), 1, false).unwrap();
    assert_eq!(balance(&store, a, &master), 40);
    let r = apply(&mut store, &master, &request(TransactionOperation::Transfer, 41, a, Some(a)), 1, false);
    assert_eq!(err(r), LedgerError::InsufficientFunds);
}

#[test]
fn credits_and_debits_follow_the_sign_table() {
    let master = master_key();
    let mut store = Store::new();
    add_user(&mut store, 1, &master);
    let a = open_account(&mut store, 1, 100, &master);
    let steps = [
        (TransactionOperation::Deposit, 50u64, 150u64),
        (TransactionOperation::Interest, 5, 155),
        (TransactionOperation::Withdrawal, 15, 140),
        (TransactionOperation::Fee, 2, 138),
        (TransactionOperation::Payment, 38, 100),
    ];
    for (op, amount, expected) in steps {
        apply(&mut store, &master, &request(op, amount, a, None), 1, true).unwrap();
        assert_eq!(balance(&store, a, &master), expected);
    }
    assert_eq!(store.transactions.get_total(), 6);
}

#[test]
fn authorization_rules() {
    let master = master_key();
    let mut store = Store::new();
    add_user(&mut store, 1, &master);
    add_user(&mut store, 2, &master);
    let a = open_account(&mut store, 1, 100, &master);
    let b = open_account(&mut store, 2, 100, &master);
    let forbidden = [
        request(TransactionOperation::Withdrawal, 1, a, None),
        request(TransactionOperation::Transfer, 1, b, Some(a)),
        request(TransactionOperation::Fee, 1, a, None),
        request(TransactionOperation::Interest, 1, a, None),
    ];
    for r in forbidden.iter() {
        assert_eq!(err(apply(&mut store, &master, r, 2, false)), LedgerError::Forbidden);
    }
    // Anyone may deposit into or pay from any account.
    apply(&mut store, &master, &request(TransactionOperation::Deposit, 1, a, None), 2, false).unwrap();
    apply(&mut store, &master, &request(TransactionOperation::Payment, 1, a, None), 2, false).unwrap();
    assert_eq!(balance(&store, a, &master), 100);
    // Administrators may charge fees and pay interest.
    apply(&mut store, &master, &request(TransactionOperation::Fee, 10, a, None), 2, true).unwrap();
    assert_eq!(balance(&store, a, &master), 90);
}

#[test]
fn request_errors() {
    let master = master_key();
    let mut store = Store::new();
    add_user(&mut store, 1, &master);
    let a = open_account(&mut store, 1, 100, &master);
    let cases = [
        (request(TransactionOperation::Deposit, 0, a, None), LedgerError::BadRequest),
        (request(TransactionOperation::Transfer, 5, a, None), LedgerError::BadRequest),
        (request(TransactionOperation::Deposit, 5, 999, None), LedgerError::NotFound),
        (request(TransactionOperation::Transfer, 5, a, Some(999)), LedgerError::NotFound),
        (request(TransactionOperation::Deposit, u64::MAX, a, None), LedgerError::BalanceOverflow),
    ];
    for (r, e) in cases.iter() {
        assert_eq!(err(apply(&mut store, &master, r, 1, false)), *e);
    }
    assert_eq!(balance(&store, a, &master), 100);
    assert_eq!(store.transactions.get_total(), 1);
    let wrong_master = vec![1u8; 32];
    let r = apply(&mut store, &wrong_master, &request(TransactionOperation::Deposit, 5, a, None), 1, false);
    assert_eq!(err(r), LedgerError::EncryptionError);
    let r = apply(&mut store, &master[..16], &request(TransactionOperation::Deposit, 5, a, None), 1, false);
    assert_eq!(err(r), LedgerError::InvalidKeyLength);
}

#[test]
fn balance_reads_need_the_owner_or_an_administrator() {
    let master = master_key();
    let mut store = Store::new();
    add_user(&mut store, 1, &master);
    let a = open_account(&mut store, 1, 10, &master);
    let service = AccountService::new(master.clone());
    assert_eq!(service.get_balance(&store, a, 1, false), Ok(10));
    assert_eq!(service.get_balance(&store, a, 2, false), Err(LedgerError::Forbidden));
    assert_eq!(service.get_balance(&store, a, 2, true), Ok(10));
    assert_eq!(service.get_balance(&store, 77, 1, true), Err(LedgerError::NotFound));
    assert_eq!(service.get_one_by_user_id(&store, 1).map(|x| x.id), Some(a));
    assert!(service.get_one_by_user_id(&store, 2).is_none());
    assert!(service.get_one_by_id(&store, a).is_some());
}

#[test]
fn opening_an_account_records_a_deposit() {
    let master = master_key();
    let mut store = Store::new();
    add_user(&mut store, 1, &master);
    let a = open_account(&mut store, 1, 1000, &master);
    let service = TransactionService::new(master.clone());
    let t = &store.transactions.transactions[0];
    assert_eq!(t.operation, TransactionOperation::Deposit);
    assert_eq!(t.from_account_id, None);
    assert_eq!(t.to_account_id, a);
    assert_eq!(service.get_amount(&store, t), Ok(1000));
    assert!(service.get_one_by_id(&store, t.id).is_some());
    let accounts = AccountService::new(master.clone());
    let missing_owner = AccountCreate {
        user_id: 9,
        bank_id: None,
        bank_account_number: None,
        bank_account_digit: None,
        bank_agency_number: None,
        bank_agency_digit: None,
        bank_account_type: None,
        balance: 1,
    };
    assert!(matches!(accounts.create(&mut store, 9, &missing_owner), Err(LedgerError::NotFound)));
}

#[test]
fn the_log_is_append_only() {
    let master = master_key();
    let mut store = Store::new();
    add_user(&mut store, 1, &master);
    open_account(&mut store, 1, 5, &master);
    let t = &store.transactions.transactions[0];
    assert_eq!(store.transactions.update(t.id, t), Err(LedgerError::Forbidden));
    assert!(!store.transactions.delete(t.id));
    assert_eq!(store.transactions.get_total(), 1);
}

#[test]
fn duplicate_identifiers_are_refused() {
    let master = master_key();
    let mut store = Store::new();
    add_user(&mut store, 1, &master);
    let wrapped = encrypt_user_key(&[0u8; 32], &master).unwrap();
    let twin = User {
        id: 1,
        name: String::new(),
        email: String::new(),
        active: true,
        password: String::new(),
        encryption_key: wrapped,
        created_at: 0,
        updated_at: None,
    };
    assert_eq!(store.users.create(twin), Err(LedgerError::StoreError));
    assert_eq!(store.users.get_total(), 1);
}

#[test]
fn user_service_creates_users() {
    let master = master_key();
    let mut store = Store::new();
    let service = UserService::new(master.clone());
    let create = UserCreate {
        name: "Ana".to_string(),
        email: "ana@example.com".to_string(),
        active: None,
        password: Some("secret".to_string()),
    };
    let u = service.create(&mut store, &create).unwrap();
    assert_eq!(u.name, "Ana");
    assert_eq!(store.users.get_total(), 1);
    assert_eq!(service.get_one_by_id(&store, u.id).map(|x| x.email.clone()), Some("ana@example.com".to_string()));
    let no_password = UserCreate { name: "B".to_string(), email: "b".to_string(), active: None, password: None };
    assert!(matches!(service.create(&mut store, &no_password), Err(LedgerError::BadRequest)));
    assert_eq!(store.users.get_total(), 1);
}
