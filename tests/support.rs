use ledger_vault::account::AccountCreate;
use ledger_vault::http::{
    validate_pagination, HttpPaginatedResponse, HttpResponse, PaginationError, Range, ReturnTypes,
    ValidationField, DEFAULT_PAGE_LIMIT,
};
use ledger_vault::keys::{encrypt_user_key, generate_random_key, parse_master_key};
use ledger_vault::ledger::{apply, Store};
use ledger_vault::pool::connection_limits;
use ledger_vault::errors::LedgerError;
use ledger_vault::repositories::{AccountRepository, TransactionRepository, UserRepository};
use ledger_vault::services::account::Service as AccountService;
use ledger_vault::services::transaction::Service as TransactionService;
use ledger_vault::services::user::Service as UserService;
use ledger_vault::transaction::{TransactionCreate, TransactionOperation};
use ledger_vault::user::User;

#[test]
fn next_page_exists_while_results_remain() {
    let p = HttpPaginatedResponse::new(vec![1u8, 2, 3], 2, None, 60);
    assert_eq!(p.limit, DEFAULT_PAGE_LIMIT);
    assert_eq!(p.next_page, Some(3));
    assert_eq!(p.offset, 2);
    assert_eq!(p.total, 60);
    assert_eq!(p.data, Some(vec![1u8, 2, 3]));
    let q = HttpPaginatedResponse::new(Vec::<u8>::new(), 2, Some(30), 60);
    assert_eq!(q.next_page, None);
    let r = HttpPaginatedResponse::new(Vec::<u8>::new(), usize::MAX, Some(0), 1);
    assert_eq!(r.next_page, None);
    let d = HttpPaginatedResponse::<u8>::default();
    assert_eq!((d.total, d.offset, d.limit, d.next_page.is_none(), d.data.is_none()), (0, 1, 25, true, true));
    match ReturnTypes::Paginated(p) {
        ReturnTypes::Paginated(inner) => assert_eq!(inner.total, 60),
        _ => unreachable!(),
    }
}

#[test]
fn responses_and_pagination_parameters() {
    let field = ValidationField { field: "email".to_string(), message: "required".to_string() };
    let r = HttpResponse::new(400, "Bad".to_string(), Some(vec![field]));
    assert_eq!(r.status, 400);
    assert_eq!(r.fields.as_ref().map(|f| f.len()), Some(1));
    let d = HttpResponse::default();
    assert_eq!((d.status, d.message.as_str(), d.fields.is_none()), (200, "Ok", true));
    assert_eq!(validate_pagination(Some(1), None), Err(PaginationError::LimitRequired));
    assert_eq!(validate_pagination(None, Some(1)), Err(PaginationError::OffsetRequired));
    assert_eq!(validate_pagination(Some(1), Some(10)), Ok(()));
    assert_eq!(validate_pagination(None, None), Ok(()));
    let range = Range { start: Some(1), end: None::<i32> };
    assert_eq!(range.start, Some(1));
    assert_eq!(range.end, None);
}

#[test]
fn pool_sizes_follow_the_cpu_count() {
    assert_eq!(connection_limits(8, false, None, None), (6, 16));
    assert_eq!(connection_limits(8, true, None, None), (8, 16));
    assert_eq!(connection_limits(2, false, None, None), (1, 4));
    assert_eq!(connection_limits(8, false, Some(3), Some(4)), (3, 4));
}

#[test]
fn master_keys_are_read_from_hex() {
    let text = "00ff10A0".repeat(8);
    let key = parse_master_key(text.as_bytes()).unwrap();
    assert_eq!(key.len(), 32);
    assert_eq!(&key[..4], &[0x00, 0xff, 0x10, 0xa0]);
    assert_eq!(parse_master_key(b"00ff"), None);
    let bad = "zz".repeat(32);
    assert_eq!(parse_master_key(bad.as_bytes()), None);
}

fn add_user(store: &mut Store, id: u128, email: &str, master: &[u8]) {
    let user = User {
        id,
        name: "n".to_string(),
        email: email.to_string(),
        active: true,
        password: String::new(),
        encryption_key: encrypt_user_key(&generate_random_key(), master).unwrap(),
        created_at: 0,
        updated_at: None,
    };
    store.users.create(user).unwrap();
}

fn open(store: &mut Store, owner: u128, balance: u64, master: &[u8]) -> u128 {
    let request = AccountCreate {
        user_id: owner,
        bank_id: None,
        bank_account_number: None,
        bank_account_digit: None,
        bank_agency_number: None,
        bank_agency_digit: None,
        bank_account_type: None,
        balance,
    };
    AccountService::new(master.to_vec()).create(store, owner, &request).unwrap().id
}

#[test]
fn account_listing_shows_only_its_records() {
    let master = vec![3u8; 32];
    let mut store = Store::new();
    add_user(&mut store, 1, "a@x", &master);
    add_user(&mut store, 2, "b@x", &master);
    let a = open(&mut store, 1, 100, &master);
    let b = open(&mut store, 2, 0, &master);
    let t = TransactionCreate {
        operation: TransactionOperation::Transfer,
        from_account_id: Some(a),
        to_account_id: b,
        amount: 40,
    };
    apply(&mut store, &master, &t, 1, false).unwrap();
    let service = TransactionService::new(master.clone());
    let for_a = service.get_all_for_account(&store, a, 1, false).ok().unwrap();
    assert_eq!(for_a.len(), 2);
    assert_eq!(for_a[0].operation, TransactionOperation::Deposit);
    assert_eq!(for_a[0].amount, 100);
    assert_eq!(for_a[1].operation, TransactionOperation::Transfer);
    assert_eq!(for_a[1].amount, 40);
    let for_b = service.get_all_for_account(&store, b, 0, true).ok().unwrap();
    assert_eq!(for_b.iter().map(|m| m.amount).collect::<Vec<_>>(), vec![0, 40]);
    assert!(matches!(service.get_all_for_account(&store, b, 1, false), Err(LedgerError::Forbidden)));
    assert!(matches!(service.get_all_for_account(&store, 5, 1, true), Err(LedgerError::NotFound)));
}

#[test]
fn lookups_by_email() {
    let master = vec![3u8; 32];
    let mut store = Store::new();
    add_user(&mut store, 1, "a@x", &master);
    add_user(&mut store, 2, "b@x", &master);
    let b = open(&mut store, 2, 7, &master);
    let users = UserService::new(master.clone());
    assert_eq!(users.get_one_by_email(&store, "b@x").map(|u| u.id), Some(2));
    assert!(users.get_one_by_email(&store, "c@x").is_none());
    let accounts = AccountService::new(master.clone());
    assert_eq!(accounts.get_one_by_user_email(&store, "b@x").map(|a| a.id), Some(b));
    assert!(accounts.get_one_by_user_email(&store, "a@x").is_none());
}

#[test]
fn repositories_start_empty() {
    assert_eq!(UserRepository::new().get_total(), 0);
    assert_eq!(AccountRepository::new().get_total(), 0);
    assert_eq!(TransactionRepository::new().get_total(), 0);
    let store = Store::new();
    assert!(store.accounts.find_by_id(1).is_none());
    assert!(store.transactions.find_by_id(1).is_none());
}

#[test]
fn users_are_updated_and_deleted() {
    let master = vec![3u8; 32];
    let mut store = Store::new();
    add_user(&mut store, 1, "a@x", &master);
    add_user(&mut store, 2, "b@x", &master);
    let key_before = store.users.users[0].encryption_key.clone();
    let users = UserService::new(master.clone());
    let change = ledger_vault::user::UserCreate {
        name: "Alice".to_string(),
        email: "alice@x".to_string(),
        active: None,
        password: None,
    };
    users.update(&mut store, 1, &change).unwrap();
    assert_eq!(store.users.users[0].name, "Alice");
    assert_eq!(store.users.users[0].email, "alice@x");
    assert_eq!(store.users.users[0].encryption_key, key_before);
    assert_eq!(users.update(&mut store, 9, &change), Err(LedgerError::NotFound));
    open(&mut store, 2, 1, &master);
    assert!(!users.delete(&mut store, 2));
    assert!(users.delete(&mut store, 1));
    assert!(!users.delete(&mut store, 1));
    assert_eq!(store.users.get_total(), 1);
    assert_eq!(store.users.users[0].id, 2);
}

#[test]
fn account_listing_is_filtered_by_owner() {
    let master = vec![3u8; 32];
    let mut store = Store::new();
    add_user(&mut store, 1, "a@x", &master);
    add_user(&mut store, 2, "b@x", &master);
    let a = open(&mut store, 1, 10, &master);
    let b = open(&mut store, 2, 20, &master);
    let service = AccountService::new(master.clone());
    let mine = service.get_all(&store, 1, false).ok().unwrap();
    assert_eq!(mine.iter().map(|m| (m.id, m.balance)).collect::<Vec<_>>(), vec![(a, 10)]);
    let all = service.get_all(&store, 7, true).ok().unwrap();
    assert_eq!(all.iter().map(|m| (m.id, m.balance)).collect::<Vec<_>>(), vec![(a, 10), (b, 20)]);
    store.users.users[1].encryption_key[20] ^= 1;
    assert!(matches!(service.get_all(&store, 7, true), Err(LedgerError::EncryptionError)));
    assert_eq!(service.get_all(&store, 1, false).ok().map(|v| v.len()), Some(1));
}

#[test]
fn a_taken_record_id_is_a_store_error() {
    let master = vec![3u8; 32];
    let mut store = Store::new();
    add_user(&mut store, 1, "a@x", &master);
    let a = open(&mut store, 1, 100, &master);
    let taken = store.transactions.transactions[0].id;
    let deposit = TransactionCreate {
        operation: TransactionOperation::Deposit,
        from_account_id: None,
        to_account_id: a,
        amount: 5,
    };
    let r = ledger_vault::ledger::apply_with_id(&mut store, &master, &deposit, 1, false, taken);
    assert!(matches!(r, Err(LedgerError::StoreError)));
    assert_eq!(store.transactions.get_total(), 1);
    let t = ledger_vault::ledger::apply_with_id(&mut store, &master, &deposit, 1, false, 4242).ok().unwrap();
    assert_eq!(t.id, 4242);
    assert_eq!(store.transactions.transactions[1].id, 4242);
    let service = AccountService::new(master.clone());
    assert_eq!(service.get_balance(&store, a, 1, false), Ok(105));
}

#[test]
fn accounts_are_opened_with_given_ids() {
    let master = vec![3u8; 32];
    let mut store = Store::new();
    add_user(&mut store, 1, "a@x", &master);
    let service = AccountService::new(master.clone());
    let request = AccountCreate {
        user_id: 1,
        bank_id: Some(4),
        bank_account_number: None,
        bank_account_digit: None,
        bank_agency_number: None,
        bank_agency_digit: None,
        bank_account_type: None,
        balance: 30,
    };
    let a = service.create_with_ids(&mut store, 1, &request, 10, 20).ok().unwrap();
    assert_eq!((a.id, a.user_id, a.bank_id), (10, 1, Some(4)));
    assert_eq!(store.transactions.transactions[0].id, 20);
    assert!(matches!(service.create_with_ids(&mut store, 1, &request, 10, 21), Err(LedgerError::StoreError)));
    assert!(matches!(service.create_with_ids(&mut store, 1, &request, 11, 20), Err(LedgerError::StoreError)));
    assert_eq!((store.accounts.get_total(), store.transactions.get_total()), (1, 1));
    assert_eq!(service.get_balance(&store, 10, 1, false), Ok(30));
}

#[test]
fn a_record_that_cannot_be_read_fails_the_listing() {
    let master = vec![3u8; 32];
    let mut store = Store::new();
    add_user(&mut store, 1, "a@x", &master);
    let a = open(&mut store, 1, 100, &master);
    store.transactions.transactions[0].amount.ciphertext[0] ^= 1;
    let service = TransactionService::new(master.clone());
    assert!(matches!(service.get_all_for_account(&store, a, 1, false), Err(LedgerError::EncryptionError)));
}

#[test]
fn users_are_built_from_parts() {
    let master = vec![3u8; 32];
    let key = [9u8; 32];
    let u = User::from_parts(5, "n".to_string(), "e".to_string(), false, "h".to_string(), &key, &master)
        .ok()
        .unwrap();
    assert_eq!((u.id, u.active, u.password.as_str()), (5, false, "h"));
    assert_eq!(u.encryption_key.len(), 12 + 32 + 16);
    assert_eq!(ledger_vault::keys::decrypt_user_key(&u.encryption_key, &master), Ok(key.to_vec()));
    let bad = User::from_parts(5, "n".to_string(), "e".to_string(), true, "h".to_string(), &key, &master[..5]);
    assert!(matches!(bad, Err(LedgerError::InvalidKeyLength)));
    assert!(ledger_vault::user::hash_password("pw").is_ok());
    let short_master = User::new("n".to_string(), "e".to_string(), None, Some("pw".to_string()), &master[..5]);
    assert!(matches!(short_master, Err(LedgerError::InvalidKeyLength)));
}
