use vstd::prelude::*;

verus! {

/// A bet was accepted.
#[derive(Clone, Copy, Debug, PartialEq, Eq)]
pub struct BetPlaced {
    pub player: [u8; 32],
    pub amount: u64,
    pub game_id: u64,
    pub auto_cashout: Option<u64>,
}

/// A new round was opened and its randomness asked for.
#[derive(Clone, Copy, Debug, PartialEq, Eq)]
pub struct VrfRequested {
    pub game_id: u64,
}

/// A round received its crash point.
#[derive(Clone, Copy, Debug, PartialEq, Eq)]
pub struct GameResolved {
    pub game_id: u64,
    pub crash_multiplier: u64,
}

/// A bet was cashed out; `payout` is what the player receives after the
/// house fee.
#[derive(Clone, Copy, Debug, PartialEq, Eq)]
pub struct Cashout {
    pub player: [u8; 32],
    pub game_id: u64,
    pub multiplier: u64,
    pub payout: u64,
}

/// Liquidity was added; `amount` is the position's stake afterwards.
#[derive(Clone, Copy, Debug, PartialEq, Eq)]
pub struct LpStaked {
    pub staker: [u8; 32],
    pub amount: u64,
}

/// Liquidity was withdrawn; `amount` is what left the position.
#[derive(Clone, Copy, Debug, PartialEq, Eq)]
pub struct LpUnstaked {
    pub staker: [u8; 32],
    pub amount: u64,
}

/// A position claimed `amount` of rewards.
#[derive(Clone, Copy, Debug, PartialEq, Eq)]
pub struct RewardsClaimed {
    pub staker: [u8; 32],
    pub amount: u64,
}

} // verus!
