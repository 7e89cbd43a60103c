use vstd::prelude::*;
use crate::errors::CasinoError;

verus! {

/// The part of all collected fees that a stake is entitled to: the fees
/// times the staker's fraction of the pool, rounded down. An empty pool
/// entitles nobody to anything.
pub open spec fn staker_share(staker_amount: u64, total_staked: u64, total_fees: u64) -> int {
    if total_staked == 0 {
        0
    } else {
        (staker_amount * total_fees) / (total_staked as int)
    }
}

/// Whether the share cannot be computed in 64 bits: the product of stake
/// and fees leaves the range.
pub open spec fn share_overflows(staker_amount: u64, total_staked: u64, total_fees: u64) -> bool {
    total_staked != 0 && staker_amount * total_fees > u64::MAX
}

/// What a staker can claim now: the share less what was claimed before.
/// Negative only when the books are wrong.
pub open spec fn pending_rewards(
    staker_amount: u64,
    total_staked: u64,
    total_fees: u64,
    claimed_rewards: u64,
) -> int {
    staker_share(staker_amount, total_staked, total_fees) - claimed_rewards
}

/// Computes a staker's share of the total fees.
pub fn calculate_staker_share(staker_amount: u64, total_staked: u64, total_fees: u64) -> (r: Result<
    u64,
    CasinoError,
>)
    ensures
        match r {
            Ok(share) => !share_overflows(staker_amount, total_staked, total_fees) && share
                == staker_share(staker_amount, total_staked, total_fees),
            Err(e) => e == CasinoError::MathOverflow && share_overflows(
                staker_amount,
                total_staked,
                total_fees,
            ),
        },
{
    if total_staked == 0 {
        return Ok(0);
    }
    match staker_amount.checked_mul(total_fees) {
        Some(product) => {
            let share: u64 = product / total_staked;
            Ok(share)
        },
        None => Err(CasinoError::MathOverflow),
    }
}

/// Computes what a staker can claim now. Fails with `MathOverflow` when the
/// share cannot be computed, or when more was claimed than the share allows.
pub fn calculate_pending_rewards(
    staker_amount: u64,
    total_staked: u64,
    total_fees: u64,
    claimed_rewards: u64,
) -> (r: Result<u64, CasinoError>)
    ensures
        match r {
            Ok(pending) => {
                &&& !share_overflows(staker_amount, total_staked, total_fees)
                &&& pending == pending_rewards(
                    staker_amount,
                    total_staked,
                    total_fees,
                    claimed_rewards,
                )
            },
            Err(e) => {
                &&& e == CasinoError::MathOverflow
                &&& (share_overflows(staker_amount, total_staked, total_fees) || pending_rewards(
                    staker_amount,
                    total_staked,
                    total_fees,
                    claimed_rewards,
                ) < 0)
            },
        },
{
    let total_share: u64 = match calculate_staker_share(staker_amount, total_staked, total_fees) {
        Ok(share) => share,
        Err(e) => {
            return Err(e);
        },
    };
    match total_share.checked_sub(claimed_rewards) {
        Some(pending) => Ok(pending),
        None => Err(CasinoError::MathOverflow),
    }
}

/// With nothing staked anywhere and nothing claimed, nothing is pending,
/// whatever the fees are, and the computation cannot fail.
pub proof fn lemma_empty_pool_owes_nothing(total_fees: u64)
    ensures
        !share_overflows(0, 0, total_fees),
        pending_rewards(0, 0, total_fees, 0) == 0,
{
}

/// A share never shrinks while fees accumulate: with stake and pool
/// unchanged, more fees give at least the same share.
pub proof fn lemma_share_grows_with_fees(
    staker_amount: u64,
    total_staked: u64,
    fees_before: u64,
    fees_after: u64,
)
    requires
        fees_before <= fees_after,
    ensures
        staker_share(staker_amount, total_staked, fees_before) <= staker_share(
            staker_amount,
            total_staked,
            fees_after,
        ),
{
    if total_staked != 0 {
        assert((staker_amount * fees_before) / (total_staked as int) <= (staker_amount
            * fees_after) / (total_staked as int)) by (nonlinear_arith)
            requires
                fees_before <= fees_after,
                total_staked > 0,
        ;
    }
}

/// No stake earns more than the pool collected: a stake that is part of the
/// pool has a share of at most the total fees.
pub proof fn lemma_share_within_fees(staker_amount: u64, total_staked: u64, total_fees: u64)
    requires
        staker_amount <= total_staked,
    ensures
        0 <= staker_share(staker_amount, total_staked, total_fees) <= total_fees,
{
    if total_staked != 0 {
        assert(0 <= (staker_amount * total_fees) / (total_staked as int) <= total_fees)
            by (nonlinear_arith)
            requires
                staker_amount <= total_staked,
                total_staked > 0,
        ;
    }
}

} // verus!
