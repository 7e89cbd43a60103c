use solana_crash_game::errors::CasinoError;
use solana_crash_game::staking::{calculate_pending_rewards, calculate_staker_share};

#[test]
fn test_staker_share_calculation() {
    // 50% stake should get 50% of fees
    let share = calculate_staker_share(100, 200, 1000).unwrap();
    assert_eq!(share, 500);

    // 25% stake should get 25% of fees
    let share = calculate_staker_share(50, 200, 1000).unwrap();
    assert_eq!(share, 250);
}

#[test]
fn test_pending_rewards() {
    let pending = calculate_pending_rewards(100, 200, 1000, 300).unwrap();
    assert_eq!(pending, 200); // 500 total - 300 claimed = 200 pending
}

#[test]
fn pending_rewards_with_nothing_claimed_is_the_share() {
    assert_eq!(calculate_pending_rewards(100, 200, 1000, 0), Ok(500));
    assert_eq!(calculate_pending_rewards(50, 200, 1000, 0), Ok(250));
}

#[test]
fn empty_pool_owes_nothing() {
    assert_eq!(calculate_staker_share(0, 0, 0), Ok(0));
    assert_eq!(calculate_staker_share(0, 0, u64::MAX), Ok(0));
    assert_eq!(calculate_staker_share(5, 0, 1000), Ok(0));
    assert_eq!(calculate_pending_rewards(0, 0, 0, 0), Ok(0));
    assert_eq!(calculate_pending_rewards(0, 0, 123_456_789, 0), Ok(0));
    assert_eq!(calculate_pending_rewards(0, 0, u64::MAX, 0), Ok(0));
}

#[test]
fn share_rounds_down() {
    assert_eq!(calculate_staker_share(1, 3, 10), Ok(3));
    assert_eq!(calculate_staker_share(2, 3, 10), Ok(6));
    assert_eq!(calculate_staker_share(1, 3, 2), Ok(0));
    assert_eq!(calculate_staker_share(7, 7, 999), Ok(999));
}

#[test]
fn share_product_overflow_is_reported() {
    assert_eq!(calculate_staker_share(u64::MAX, 1, 2), Err(CasinoError::MathOverflow));
    assert_eq!(calculate_staker_share(1 << 32, 1 << 40, 1 << 32), Err(CasinoError::MathOverflow));
    assert_eq!(calculate_staker_share(u64::MAX, u64::MAX, 1), Ok(1));
    assert_eq!(
        calculate_pending_rewards(u64::MAX, 1, 2, 0),
        Err(CasinoError::MathOverflow)
    );
}

#[test]
fn claiming_more_than_the_share_is_a_fault() {
    assert_eq!(calculate_pending_rewards(100, 200, 1000, 501), Err(CasinoError::MathOverflow));
    assert_eq!(calculate_pending_rewards(100, 200, 1000, 500), Ok(0));
    assert_eq!(calculate_pending_rewards(0, 0, 1000, 1), Err(CasinoError::MathOverflow));
}

#[test]
fn share_grows_with_fees() {
    let mut last = 0;
    for fees in [0u64, 1, 2, 3, 10, 1000, 1_000_000] {
        let share = calculate_staker_share(3, 7, fees).unwrap();
        assert!(share >= last);
        assert!(share <= fees);
        last = share;
    }
}
