//! Users: the owners of accounts, each holding a wrapped encryption key.
use argon2::PasswordHasher;
use crate::crypto::{KEY_LEN, MAX_PLAINTEXT, NONCE_LEN, TAG_LEN};
use crate::encrypted_field::{copy_bytes, decrypt_amount, encrypt_amount, EncryptedField};
use crate::errors::{from_field_error, from_key_error, sealed_amount, usable_key, LedgerError};
use crate::keys::{
    decrypt_user_key, encrypt_user_key, generate_random_key, unwrapped_key, KeyManagementError,
};
use vstd::prelude::*;

verus! {

#[verifier::external_type_specification]
#[verifier::external_body]
pub struct ExPasswordHashError(argon2::password_hash::Error);

/// Relies on uuid's `Uuid::now_v7`: a new time-ordered random identifier, as
/// its 128-bit value. Nothing is known of the value.
#[verifier::external_body]
pub(crate) fn new_time_ordered_id() -> (r: u128) {
    uuid::Uuid::now_v7().as_u128()
}

/// Relies on uuid's `Uuid::new_v4`: a new random identifier, as its 128-bit
/// value. Nothing is known of the value.
#[verifier::external_body]
pub(crate) fn new_random_id() -> (r: u128) {
    uuid::Uuid::new_v4().as_u128()
}

/// Relies on chrono's `Utc::now`: the current time in milliseconds since the
/// Unix epoch. Nothing is known of the value.
#[verifier::external_body]
pub(crate) fn now_millis() -> (r: i64) {
    chrono::Utc::now().timestamp_millis()
}

/// Relies on argon2's `Argon2::default().hash_password`, with a salt from
/// `SaltString::generate` over `OsRng`: the PHC string of the hash. The salt is
/// random, so nothing is known of the string; argon2 refuses only passwords
/// longer than 2^32 - 1 bytes, which no password of at most 2^30 - 1
/// characters is.
#[verifier::external_body]
pub fn hash_password(password: &str) -> (r: Result<String, argon2::password_hash::Error>)
    ensures
        password@.len() <= MAX_PASSWORD_CHARS ==> r is Ok,
{
    let salt = argon2::password_hash::SaltString::generate(&mut rand::rngs::OsRng);
    argon2::Argon2::default().hash_password(password.as_bytes(), &salt).map(|hash| hash.to_string())
}

/// Longest password, in characters, that is certain to be hashed.
pub const MAX_PASSWORD_CHARS: u64 = 0x3fff_ffff;

/// A user. `encryption_key` is the user's key wrapped under the master key.
#[derive(Debug)]
pub struct User {
    pub id: u128,
    pub name: String,
    pub email: String,
    pub active: bool,
    pub password: String,
    pub encryption_key: Vec<u8>,
    pub created_at: i64,
    pub updated_at: Option<i64>,
}

/// What a new user is made from.
#[derive(Debug)]
pub struct UserCreate {
    pub name: String,
    pub email: String,
    pub active: Option<bool>,
    pub password: Option<String>,
}

/// Unwraps a user's key and checks that it can seal.
pub fn unwrap_usable_key(wrapped: &[u8], master_key: &[u8]) -> (r: Result<Vec<u8>, LedgerError>)
    ensures
        match usable_key(wrapped@, master_key@) {
            Ok(k) => r is Ok && r->Ok_0@ == k,
            Err(e) => r == Err::<Vec<u8>, _>(e),
        },
{
    match decrypt_user_key(wrapped, master_key) {
        Ok(k) => if k.len() == KEY_LEN {
            Ok(k)
        } else {
            Err(LedgerError::InvalidKeyLength)
        },
        Err(e) => Err(from_key_error(e)),
    }
}

/// Seals `value` for the user whose wrapped key is `wrapped`.
pub fn seal_amount(value: u64, wrapped: &[u8], master_key: &[u8]) -> (r: Result<EncryptedField, LedgerError>)
    ensures
        match usable_key(wrapped@, master_key@) {
            Ok(k) => r is Ok && sealed_amount(r->Ok_0, wrapped@, master_key@) == Ok::<u64, LedgerError>(value),
            Err(e) => r == Err::<EncryptedField, _>(e),
        },
{
    let key = unwrap_usable_key(wrapped, master_key)?;
    match encrypt_amount(value, key.as_slice()) {
        Ok(f) => Ok(f),
        Err(e) => Err(from_field_error(e)),
    }
}

/// Opens the amount that `f` holds for the user whose wrapped key is `wrapped`.
pub fn open_amount(f: &EncryptedField, wrapped: &[u8], master_key: &[u8]) -> (r: Result<u64, LedgerError>)
    ensures
        r == sealed_amount(*f, wrapped@, master_key@),
{
    let key = unwrap_usable_key(wrapped, master_key)?;
    match decrypt_amount(f, key.as_slice()) {
        Ok(v) => Ok(v),
        Err(e) => Err(from_field_error(e)),
    }
}

impl User {
    /// A copy of the record.
    pub fn duplicate(&self) -> (r: Self)
        ensures
            r.id == self.id,
            r.name@ == self.name@,
            r.email@ == self.email@,
            r.active == self.active,
            r.password@ == self.password@,
            r.encryption_key@ == self.encryption_key@,
            r.created_at == self.created_at,
            r.updated_at == self.updated_at,
    {
        User {
            id: self.id,
            name: self.name.clone(),
            email: self.email.clone(),
            active: self.active,
            password: self.password.clone(),
            encryption_key: copy_bytes(&self.encryption_key),
            created_at: self.created_at,
            updated_at: self.updated_at,
        }
    }

    /// The user `id` with the given password hash, whose key `user_key` is
    /// stored wrapped under `master_key`.
    pub fn from_parts(
        id: u128,
        name: String,
        email: String,
        active: bool,
        password_hash: String,
        user_key: &[u8],
        master_key: &[u8],
    ) -> (r: Result<Self, LedgerError>)
        ensures
            master_key@.len() != KEY_LEN ==> r == Err::<User, _>(LedgerError::InvalidKeyLength),
            master_key@.len() == KEY_LEN && user_key@.len() <= MAX_PLAINTEXT ==> r is Ok,
            r is Ok ==> {
                let u = r->Ok_0;
                &&& u.id == id
                &&& u.name@ == name@
                &&& u.email@ == email@
                &&& u.active == active
                &&& u.password@ == password_hash@
                &&& u.updated_at is None
                &&& u.encryption_key@.len() == NONCE_LEN + user_key@.len() + TAG_LEN
                &&& unwrapped_key(u.encryption_key@, master_key@) == Ok::<Seq<u8>, KeyManagementError>(user_key@)
            },
    {
        let encryption_key = match encrypt_user_key(user_key, master_key) {
            Ok(w) => w,
            Err(e) => return Err(from_key_error(e)),
        };
        Ok(User {
            id,
            name,
            email,
            active,
            password: password_hash,
            encryption_key,
            created_at: now_millis(),
            updated_at: None,
        })
    }

    /// A new active-by-default user with a fresh identifier and a fresh key
    /// wrapped under `master_key`. The password is stored hashed.
    pub fn new(
        name: String,
        email: String,
        active: Option<bool>,
        password: Option<String>,
        master_key: &[u8],
    ) -> (r: Result<Self, LedgerError>)
        ensures
            password is None ==> r == Err::<User, _>(LedgerError::BadRequest),
            password is Some && password->0@.len() <= MAX_PASSWORD_CHARS && master_key@.len() != KEY_LEN
                ==> r == Err::<User, _>(LedgerError::InvalidKeyLength),
            password is Some && password->0@.len() <= MAX_PASSWORD_CHARS && master_key@.len() == KEY_LEN
                ==> r is Ok,
            r is Ok ==> {
                let u = r->Ok_0;
                &&& u.name@ == name@
                &&& u.email@ == email@
                &&& u.active == match active { Some(a) => a, None => true }
                &&& u.updated_at is None
                &&& u.encryption_key@.len() == NONCE_LEN + KEY_LEN + TAG_LEN
                &&& usable_key(u.encryption_key@, master_key@) is Ok
            },
    {
        let password = match password {
            Some(p) => p,
            None => return Err(LedgerError::BadRequest),
        };
        let password = match hash_password(password.as_str()) {
            Ok(h) => h,
            Err(_) => return Err(LedgerError::PasswordHashError),
        };
        let user_key = generate_random_key();
        let active = match active {
            Some(a) => a,
            None => true,
        };
        User::from_parts(new_time_ordered_id(), name, email, active, password, user_key.as_slice(), master_key)
    }

    /// A new user made from `user_create`.
    pub fn try_from_create(user_create: UserCreate, master_key: &[u8]) -> (r: Result<Self, LedgerError>)
        ensures
            user_create.password is None ==> r == Err::<User, _>(LedgerError::BadRequest),
            user_create.password is Some && user_create.password->0@.len() <= MAX_PASSWORD_CHARS
                && master_key@.len() == KEY_LEN ==> r is Ok,
            r is Ok ==> r->Ok_0.name@ == user_create.name@ && r->Ok_0.email@ == user_create.email@
                && usable_key(r->Ok_0.encryption_key@, master_key@) is Ok,
    {
        User::new(user_create.name, user_create.email, user_create.active, user_create.password, master_key)
    }
}

} // verus!
