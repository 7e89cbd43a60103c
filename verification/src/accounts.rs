use vstd::prelude::*;
use crate::state::{Bet, Casino, Game, Stake};

verus! {

/// What setting up the casino works on.
#[derive(Clone, Copy, Debug, PartialEq, Eq)]
pub struct Initialize {
    pub casino: Casino,
    /// Who sets the casino up, and owns it from then on.
    pub authority: [u8; 32],
    /// The address bump of the casino record.
    pub casino_bump: u8,
}

/// What placing a bet works on.
#[derive(Clone, Copy, Debug, PartialEq, Eq)]
pub struct PlaceBet {
    pub casino: Casino,
    /// The record that receives the new bet.
    pub bet: Bet,
    pub player: [u8; 32],
    /// The address bump of the bet record.
    pub bet_bump: u8,
}

/// What opening the next round works on.
#[derive(Clone, Copy, Debug, PartialEq, Eq)]
pub struct RequestCrashVrf {
    pub casino: Casino,
}

/// What giving a round its crash point works on.
#[derive(Clone, Copy, Debug, PartialEq, Eq)]
pub struct ResolveCrash {
    pub casino: Casino,
    pub game: Game,
}

/// What resolving a bet works on: the house, the bet, and the round it was
/// placed on.
#[derive(Clone, Copy, Debug, PartialEq, Eq)]
pub struct Cashout {
    pub casino: Casino,
    pub game: Game,
    pub bet: Bet,
}

/// What adding liquidity works on.
#[derive(Clone, Copy, Debug, PartialEq, Eq)]
pub struct StakeLp {
    pub casino: Casino,
    pub stake: Stake,
    pub staker: [u8; 32],
    /// The address bump of the stake record.
    pub stake_bump: u8,
}

/// What withdrawing liquidity works on.
#[derive(Clone, Copy, Debug, PartialEq, Eq)]
pub struct UnstakeLp {
    pub casino: Casino,
    pub stake: Stake,
}

/// What claiming rewards works on.
#[derive(Clone, Copy, Debug, PartialEq, Eq)]
pub struct ClaimRewards {
    pub casino: Casino,
    pub stake: Stake,
}

/// What changing the configuration works on.
#[derive(Clone, Copy, Debug, PartialEq, Eq)]
pub struct UpdateConfig {
    pub casino: Casino,
    /// Who asks for the change.
    pub authority: [u8; 32],
}

} // verus!
