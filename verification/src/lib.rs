//! Request validation and result shaping for a ledger query gateway.
//!
//! The gateway answers account, token, transaction and fee questions by
//! forwarding them to a remote ledger node. This crate holds the part that
//! decides: it checks textual addresses and signatures, derives associated
//! token accounts, says which remote call to make and at which commitment
//! level, and turns what the node returned into the value or the failure
//! that the caller sees. The remote call itself is made by the caller.

pub mod address;
pub mod associated;
pub mod balance;
pub mod envelope;
pub mod error;
pub mod fee;
pub mod history;
pub mod remote;
pub mod transaction;
