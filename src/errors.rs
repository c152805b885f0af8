//! The error taxonomy of ledger operations.
use crate::encrypted_field::{decrypted_amount, EncryptedField, EncryptionError};
use crate::keys::{unwrapped_key, KeyManagementError};
use crate::crypto::KEY_LEN;
use vstd::prelude::*;

verus! {

/// Why a ledger operation failed. Every failure leaves the store unchanged.
#[derive(Debug, Clone, Copy, PartialEq, Eq, Structural)]
pub enum LedgerError {
    /// An account or a user that the operation names does not exist.
    NotFound,
    /// The actor may not perform the operation on the account.
    Forbidden,
    /// The request is incomplete (a transfer without a source account, a
    /// user without a password).
    BadRequest,
    /// A debit would take a balance below zero.
    InsufficientFunds,
    /// A credit would take a balance past the largest representable amount.
    BalanceOverflow,
    /// Key material or ciphertext could not be authenticated or decoded.
    EncryptionError,
    /// A key is not 32 bytes long.
    InvalidKeyLength,
    /// The store refused a write (an identifier already taken).
    StoreError,
    /// The password could not be hashed.
    PasswordHashError,
}

pub open spec fn key_error(e: KeyManagementError) -> LedgerError {
    match e {
        KeyManagementError::EncryptionError => LedgerError::EncryptionError,
        KeyManagementError::InvalidKeyLength => LedgerError::InvalidKeyLength,
    }
}

pub open spec fn field_error(e: EncryptionError) -> LedgerError {
    match e {
        EncryptionError::SerializationError => LedgerError::EncryptionError,
        EncryptionError::EncryptionError => LedgerError::EncryptionError,
        EncryptionError::InvalidKeyLength => LedgerError::InvalidKeyLength,
    }
}

pub fn from_key_error(e: KeyManagementError) -> (r: LedgerError)
    ensures
        r == key_error(e),
{
    match e {
        KeyManagementError::EncryptionError => LedgerError::EncryptionError,
        KeyManagementError::InvalidKeyLength => LedgerError::InvalidKeyLength,
    }
}

pub fn from_field_error(e: EncryptionError) -> (r: LedgerError)
    ensures
        r == field_error(e),
{
    match e {
        EncryptionError::SerializationError => LedgerError::EncryptionError,
        EncryptionError::EncryptionError => LedgerError::EncryptionError,
        EncryptionError::InvalidKeyLength => LedgerError::InvalidKeyLength,
    }
}

/// The key that a user's wrapped key yields under the master key, if it is
/// usable for sealing (32 bytes long).
pub open spec fn usable_key(wrapped: Seq<u8>, master_key: Seq<u8>) -> Result<Seq<u8>, LedgerError> {
    match unwrapped_key(wrapped, master_key) {
        Ok(k) => if k.len() == KEY_LEN {
            Ok(k)
        } else {
            Err(LedgerError::InvalidKeyLength)
        },
        Err(e) => Err(key_error(e)),
    }
}

/// The amount that `f` holds for the user whose wrapped key is `wrapped`.
pub open spec fn sealed_amount(f: EncryptedField, wrapped: Seq<u8>, master_key: Seq<u8>) -> Result<u64, LedgerError> {
    match usable_key(wrapped, master_key) {
        Ok(k) => match decrypted_amount(f, k) {
            Ok(v) => Ok(v),
            Err(e) => Err(field_error(e)),
        },
        Err(e) => Err(e),
    }
}

} // verus!
