//! The economic core of a crash betting game: the bet ledger with its payout
//! arithmetic, the liquidity staking pool, and the integer parts of the crash
//! curve. Every amount and multiplier is an unsigned integer in basis points
//! (10000 = 1.0000x).

pub mod accounts;
pub mod admin;
pub mod crash;
pub mod errors;
pub mod events;
pub mod ledger;
pub mod pool;
pub mod staking;
pub mod state;
pub mod vrf;
