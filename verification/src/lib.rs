//! A verified model of a signer-scoped on-chain counter.
//!
//! One record type, `BaseAccount`, holds a 64-bit count and the public
//! identity that created it. Three entry points operate on it: an
//! initializer that seeds the record, an incrementer, and a decrementer
//! that rejects underflow. A `Ledger` models the transaction host that
//! resolves records by derived address and commits or rolls back each
//! unit of work atomically.

pub mod account;
pub mod address;
pub mod identity;
pub mod ledger;
