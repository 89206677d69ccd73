//! A minimal in-memory account ledger: value-transfer transactions are
//! validated and executed against a keyed store of accounts, with
//! per-account sequence numbers enforcing gapless ordering and replay
//! protection, and a solvency check refusing any transfer the sender
//! cannot cover.
//!
//! [`account`] holds the data types, [`store`] the identifier-to-account
//! mapping, [`engine`] the validator and executor with their exact
//! contracts, and [`laws`] the proved global properties: balances never
//! go negative, value is conserved, sequences advance by exactly one per
//! accepted send, and an executed transaction can never execute twice.
pub mod account;
pub mod engine;
pub mod laws;
pub mod store;
