use vstd::prelude::*;
use crate::accounts::{ClaimRewards, StakeLp, UnstakeLp};
use crate::errors::CasinoError;
use crate::events::{LpStaked, LpUnstaked, RewardsClaimed};
use crate::staking::{calculate_pending_rewards, pending_rewards, share_overflows, staker_share};
use crate::state::{Casino, Stake};

verus! {

/// Why `amount` cannot be staked, if it cannot. The checks come in this
/// order, and the first that fails decides.
pub open spec fn stake_lp_error(pre: StakeLp, amount: u64) -> Option<CasinoError> {
    if pre.casino.is_paused {
        Some(CasinoError::GamePaused)
    } else if amount == 0 {
        Some(CasinoError::InvalidStakeAmount)
    } else if pre.stake.amount + amount > u64::MAX {
        Some(CasinoError::MathOverflow)
    } else if pre.casino.total_staked + amount > u64::MAX {
        Some(CasinoError::MathOverflow)
    } else {
        None
    }
}

/// The records after `amount` was staked: position and pool have both grown
/// by it. An empty position is taken over by the staker; one that holds a
/// stake keeps its owner.
pub open spec fn stake_lp_state(pre: StakeLp, amount: u64) -> StakeLp {
    StakeLp {
        casino: Casino { total_staked: (pre.casino.total_staked + amount) as u64, ..pre.casino },
        stake: if pre.stake.amount == 0 {
            Stake { staker: pre.staker, amount, bump: pre.stake_bump, ..pre.stake }
        } else {
            Stake { amount: (pre.stake.amount + amount) as u64, ..pre.stake }
        },
        ..pre
    }
}

/// Adds `amount` to the staker's position and to the pool. On success the
/// caller moves `amount` from the staker into the staking vault; the event
/// carries the position's stake after the addition. On any error nothing
/// has changed.
pub fn stake_lp(ctx: &mut StakeLp, amount: u64) -> (r: Result<LpStaked, CasinoError>)
    ensures
        match r {
            Ok(event) => {
                &&& stake_lp_error(*old(ctx), amount) is None
                &&& *final(ctx) == stake_lp_state(*old(ctx), amount)
                &&& event == (LpStaked {
                    staker: final(ctx).stake.staker,
                    amount: final(ctx).stake.amount,
                })
            },
            Err(e) => {
                &&& stake_lp_error(*old(ctx), amount) == Some(e)
                &&& *final(ctx) == *old(ctx)
            },
        },
{
    if ctx.casino.is_paused {
        return Err(CasinoError::GamePaused);
    }
    if amount == 0 {
        return Err(CasinoError::InvalidStakeAmount);
    }
    let staked: u64 = match ctx.stake.amount.checked_add(amount) {
        Some(staked) => staked,
        None => {
            return Err(CasinoError::MathOverflow);
        },
    };
    let total_staked: u64 = match ctx.casino.total_staked.checked_add(amount) {
        Some(total) => total,
        None => {
            return Err(CasinoError::MathOverflow);
        },
    };
    if ctx.stake.amount == 0 {
        ctx.stake.staker = ctx.staker;
        ctx.stake.bump = ctx.stake_bump;
    }
    ctx.stake.amount = staked;
    ctx.casino.total_staked = total_staked;
    Ok(LpStaked { staker: ctx.stake.staker, amount: ctx.stake.amount })
}

/// Why `amount` cannot be unstaked, if it cannot. The checks come in this
/// order, and the first that fails decides.
pub open spec fn unstake_lp_error(pre: UnstakeLp, amount: u64) -> Option<CasinoError> {
    if pre.casino.is_paused {
        Some(CasinoError::GamePaused)
    } else if amount == 0 {
        Some(CasinoError::InvalidStakeAmount)
    } else if pre.stake.amount < amount {
        Some(CasinoError::InsufficientStake)
    } else if pre.casino.total_staked < amount {
        Some(CasinoError::MathOverflow)
    } else {
        None
    }
}

/// The records after `amount` was unstaked: position and pool have both
/// shrunk by it.
pub open spec fn unstake_lp_state(pre: UnstakeLp, amount: u64) -> UnstakeLp {
    UnstakeLp {
        casino: Casino { total_staked: (pre.casino.total_staked - amount) as u64, ..pre.casino },
        stake: Stake { amount: (pre.stake.amount - amount) as u64, ..pre.stake },
    }
}

/// Takes `amount` out of the staker's position and out of the pool. On
/// success the caller moves `amount` from the staking vault back to the
/// staker. On any error nothing has changed.
pub fn unstake_lp(ctx: &mut UnstakeLp, amount: u64) -> (r: Result<LpUnstaked, CasinoError>)
    ensures
        match r {
            Ok(event) => {
                &&& unstake_lp_error(*old(ctx), amount) is None
                &&& *final(ctx) == unstake_lp_state(*old(ctx), amount)
                &&& event == (LpUnstaked { staker: old(ctx).stake.staker, amount })
            },
            Err(e) => {
                &&& unstake_lp_error(*old(ctx), amount) == Some(e)
                &&& *final(ctx) == *old(ctx)
            },
        },
{
    if ctx.casino.is_paused {
        return Err(CasinoError::GamePaused);
    }
    if amount == 0 {
        return Err(CasinoError::InvalidStakeAmount);
    }
    if ctx.stake.amount < amount {
        return Err(CasinoError::InsufficientStake);
    }
    let total_staked: u64 = match ctx.casino.total_staked.checked_sub(amount) {
        Some(total) => total,
        None => {
            return Err(CasinoError::MathOverflow);
        },
    };
    ctx.stake.amount = ctx.stake.amount - amount;
    ctx.casino.total_staked = total_staked;
    Ok(LpUnstaked { staker: ctx.stake.staker, amount })
}

/// What the position can claim from the pool now.
pub open spec fn claimable(pre: ClaimRewards) -> int {
    pending_rewards(
        pre.stake.amount,
        pre.casino.total_staked,
        pre.casino.total_fees,
        pre.stake.claimed_rewards,
    )
}

/// Why the position cannot claim, if it cannot. The checks come in this
/// order, and the first that fails decides.
pub open spec fn claim_rewards_error(pre: ClaimRewards) -> Option<CasinoError> {
    if pre.stake.amount == 0 || pre.casino.total_staked == 0 {
        Some(CasinoError::NoStake)
    } else if share_overflows(pre.stake.amount, pre.casino.total_staked, pre.casino.total_fees) {
        Some(CasinoError::MathOverflow)
    } else if claimable(pre) < 0 {
        Some(CasinoError::MathOverflow)
    } else if claimable(pre) == 0 {
        Some(CasinoError::NoRewards)
    } else {
        None
    }
}

/// The records after a claim: the position has claimed its whole share.
pub open spec fn claim_rewards_state(pre: ClaimRewards) -> ClaimRewards {
    ClaimRewards {
        casino: pre.casino,
        stake: Stake {
            claimed_rewards: staker_share(
                pre.stake.amount,
                pre.casino.total_staked,
                pre.casino.total_fees,
            ) as u64,
            ..pre.stake
        },
    }
}

/// Claims everything the position is entitled to and has not claimed yet.
/// On success the position has claimed its whole share, the caller pays the
/// claimed amount out of the vault, and the event carries that amount. On
/// any error nothing has changed.
pub fn claim_rewards(ctx: &mut ClaimRewards) -> (r: Result<RewardsClaimed, CasinoError>)
    ensures
        match r {
            Ok(event) => {
                &&& claim_rewards_error(*old(ctx)) is None
                &&& *final(ctx) == claim_rewards_state(*old(ctx))
                &&& event == (RewardsClaimed {
                    staker: old(ctx).stake.staker,
                    amount: claimable(*old(ctx)) as u64,
                })
            },
            Err(e) => {
                &&& claim_rewards_error(*old(ctx)) == Some(e)
                &&& *final(ctx) == *old(ctx)
            },
        },
{
    if ctx.stake.amount == 0 || ctx.casino.total_staked == 0 {
        return Err(CasinoError::NoStake);
    }
    let pending: u64 = match calculate_pending_rewards(
        ctx.stake.amount,
        ctx.casino.total_staked,
        ctx.casino.total_fees,
        ctx.stake.claimed_rewards,
    ) {
        Ok(pending) => pending,
        Err(e) => {
            return Err(e);
        },
    };
    if pending == 0 {
        return Err(CasinoError::NoRewards);
    }
    let claimed: u64 = match ctx.stake.claimed_rewards.checked_add(pending) {
        Some(claimed) => claimed,
        None => {
            return Err(CasinoError::MathOverflow);
        },
    };
    ctx.stake.claimed_rewards = claimed;
    Ok(RewardsClaimed { staker: ctx.stake.staker, amount: pending })
}

/// Position and pool move together: staking and unstaking change the
/// position's stake and the pool's total by the same amount, so the total
/// stays the sum of all positions.
pub proof fn lemma_stake_and_pool_move_together(
    staking: StakeLp,
    unstaking: UnstakeLp,
    amount: u64,
)
    ensures
        stake_lp_error(staking, amount) is None ==> {
            let post = stake_lp_state(staking, amount);
            &&& post.stake.amount == staking.stake.amount + amount
            &&& post.casino.total_staked == staking.casino.total_staked + amount
        },
        unstake_lp_error(unstaking, amount) is None ==> {
            let post = unstake_lp_state(unstaking, amount);
            &&& post.stake.amount == unstaking.stake.amount - amount
            &&& post.casino.total_staked == unstaking.casino.total_staked - amount
        },
{
}

/// A claim pays out exactly what was pending, and nothing twice: after a
/// successful claim the position has claimed its whole share and no more,
/// its claimed total has grown, and a second claim right away is rejected
/// with `NoRewards`.
pub proof fn lemma_claim_pays_once(pre: ClaimRewards)
    requires
        claim_rewards_error(pre) is None,
    ensures
        ({
            let post = claim_rewards_state(pre);
            &&& post.stake.claimed_rewards == pre.stake.claimed_rewards + claimable(pre)
            &&& post.stake.claimed_rewards > pre.stake.claimed_rewards
            &&& post.stake.within_share(post.casino)
            &&& claim_rewards_error(post) == Some(CasinoError::NoRewards)
        }),
{
    let share = staker_share(pre.stake.amount, pre.casino.total_staked, pre.casino.total_fees);
    assert(share <= pre.stake.amount * pre.casino.total_fees) by (nonlinear_arith)
        requires
            share == (pre.stake.amount * pre.casino.total_fees) / (pre.casino.total_staked as int),
            pre.casino.total_staked > 0,
    ;
}

} // verus!
