use vstd::prelude::*;
use crate::crash::valid_crash_multiplier;
use crate::staking::staker_share;

verus! {

/// Where a bet stands. `Pending` is where every bet starts; the other two
/// are final.
#[derive(Clone, Copy, Debug, PartialEq, Eq, Structural)]
pub enum BetStatus {
    Pending,
    CashedOut,
    Lost,
}

/// The house: its configuration and its running totals.
#[derive(Clone, Copy, Debug, PartialEq, Eq)]
pub struct Casino {
    /// Who may change the configuration.
    pub authority: [u8; 32],
    /// The part of every cash-out that the house keeps, in basis points.
    pub house_edge_bps: u16,
    pub min_bet: u64,
    pub max_bet: u64,
    pub is_paused: bool,
    pub bump: u8,
    /// The round that bets are currently placed on.
    pub current_game_id: u64,
    /// The sum of all bets ever placed.
    pub total_volume: u64,
    /// The sum of all house fees ever collected.
    pub total_fees: u64,
    /// The sum of all stakes in the pool.
    pub total_staked: u64,
}

/// One player's bet on one round.
#[derive(Clone, Copy, Debug, PartialEq, Eq)]
pub struct Bet {
    pub player: [u8; 32],
    pub amount: u64,
    /// The multiplier, in basis points, at which the bet cashes out by itself.
    pub auto_cashout_multiplier: Option<u64>,
    pub status: BetStatus,
    pub game_id: u64,
    /// The multiplier the bet was cashed out at, once it was.
    pub cashout_multiplier: Option<u64>,
    pub bump: u8,
}

/// One round of the game.
#[derive(Clone, Copy, Debug, PartialEq, Eq)]
pub struct Game {
    pub game_id: u64,
    /// The crash point in basis points; meaningful once `is_resolved`.
    pub crash_multiplier: u64,
    pub is_resolved: bool,
}

/// One staker's position in the liquidity pool.
#[derive(Clone, Copy, Debug, PartialEq, Eq)]
pub struct Stake {
    pub staker: [u8; 32],
    pub amount: u64,
    /// All rewards this position has claimed so far.
    pub claimed_rewards: u64,
    pub bump: u8,
}

impl BetStatus {
    /// A bet that was cashed out or lost never changes again.
    pub open spec fn is_final(self) -> bool {
        self != BetStatus::Pending
    }
}

impl Bet {
    /// The record holds no bet yet: nothing was staked on it and nothing
    /// resolved.
    pub open spec fn is_unused(self) -> bool {
        &&& self.status == BetStatus::Pending
        &&& self.amount == 0
        &&& self.cashout_multiplier is None
    }

    /// A bet records a cash-out multiplier exactly when it was cashed out.
    pub open spec fn well_formed(self) -> bool {
        self.status == BetStatus::CashedOut <==> self.cashout_multiplier is Some
    }

    /// The bet did not cash out above the crash point of `game`, as far as
    /// that point is known.
    pub open spec fn within_crash(self, game: Game) -> bool {
        game.is_resolved ==> match self.cashout_multiplier {
            Some(multiplier) => multiplier <= game.crash_multiplier,
            None => true,
        }
    }
}

impl Game {
    /// A resolved round has its crash point between 1.01x and 100x.
    pub open spec fn well_formed(self) -> bool {
        self.is_resolved ==> valid_crash_multiplier(self.crash_multiplier)
    }
}

impl Stake {
    /// The position has claimed no more than its share of the fees that
    /// `casino` has collected.
    pub open spec fn within_share(self, casino: Casino) -> bool {
        self.claimed_rewards <= staker_share(self.amount, casino.total_staked, casino.total_fees)
    }
}

impl Bet {
    /// Whether the record holds no bet yet.
    pub fn unused(&self) -> (unused: bool)
        ensures
            unused == self.is_unused(),
    {
        self.status == BetStatus::Pending && self.amount == 0 && self.cashout_multiplier.is_none()
    }
}

/// Whether two identities are the same. An identity is an opaque token of
/// 32 bytes; nothing but equality is ever asked of it.
pub fn same_identity(a: &[u8; 32], b: &[u8; 32]) -> (same: bool)
    ensures
        same == (a@ == b@),
{
    let mut i: usize = 0;
    while i < 32
        invariant
            i <= 32,
            forall|j: int| 0 <= j < i ==> a@[j] == b@[j],
        decreases 32 - i,
    {
        if a[i] != b[i] {
            return false;
        }
        i += 1;
    }
    assert(a@ =~= b@);
    true
}

} // verus!
