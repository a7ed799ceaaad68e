//! Accounting core of a token incentive platform: checked arithmetic, tier
//! classification, the stake ledger and reward accrual, proof rewards with an
//! expiry, and a governance proposal state machine.
//!
//! Time, caller identity and value transfers are supplied by the caller: every
//! transition takes the current timestamp and the verified signer as plain
//! values, and returns the amount that the caller must move.
pub mod types;
pub mod math;
pub mod validation;
pub mod staking;
pub mod instructions;
pub mod rewards;
pub mod governance;
