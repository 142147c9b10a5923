//! A verified core for a multisig treasury program: vault membership and
//! thresholds, proposal voting, and four disbursement strategies (batch
//! payments, direct transfer, payment streaming, cliff vesting).
//!
//! The host runtime owns accounts, signatures, token transfers and the clock;
//! this library holds the decision and arithmetic logic, stated over plain
//! values and proved.
pub mod address;
pub mod arith;
pub mod batch;
pub mod codec;
pub mod errors;
pub mod keys;
pub mod proposal;
pub mod stream;
pub mod vault;
pub mod vesting;
