//! A ledger whose monetary values are stored only in encrypted form.
//!
//! Every balance and every transaction amount is sealed with AES-256-GCM under
//! the key of the user that owns the account; that user key is itself stored
//! wrapped under a process-wide master key. The ledger operations decrypt,
//! check and re-encrypt balances, and either commit every change of an
//! operation or none.
//!
//! Amounts are unsigned integers counted in the currency's smallest unit, so
//! that balance arithmetic is exact.
pub mod crypto;
pub mod encrypted_field;
pub mod keys;
pub mod errors;
pub mod user;
pub mod account;
pub mod transaction;
pub mod repositories;
pub mod ledger;
pub mod services;
pub mod http;
pub mod pool;
