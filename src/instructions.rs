//! Combined transitions on a stake: withdrawal with an implicit claim, and the
//! slot-based payout.
pub mod claim;
pub mod unstake;
