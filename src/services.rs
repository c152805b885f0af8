//! The operations that the surrounding application calls, one service per
//! kind of record. Each service holds the master key it works with.
pub mod account;
pub mod transaction;
pub mod user;
