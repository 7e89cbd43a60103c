use solana_crash_game::crash::{
    cap_at_crash, clamp_crash_multiplier, vrf_seed_value, MAX_CRASH_MULTIPLIER,
    MIN_CRASH_MULTIPLIER,
};
use solana_crash_game::errors::CasinoError;
use solana_crash_game::vrf::extract_vrf_bytes;

/// The crash curve in floating point, between the two integer steps.
fn curve_bps(value: u64) -> u64 {
    let normalized = (value as f64) / (u64::MAX as f64);
    let crash_value = 1.0 - (-normalized * 5.0).exp();
    (10100.0 + (crash_value * 989900.0)) as u64
}

fn calculate_crash_multiplier(vrf_result: [u8; 32]) -> u64 {
    clamp_crash_multiplier(curve_bps(vrf_seed_value(&vrf_result)))
}

/// The growth curve in floating point, before the cap.
fn growth_bps(elapsed_seconds: f64, crash_multiplier: u64) -> u64 {
    let rate = ((crash_multiplier as f64) / 10000.0).ln() / 30.0;
    ((elapsed_seconds * rate).exp() * 10000.0) as u64
}

#[test]
fn test_crash_multiplier_range() {
    // Test minimum (all zeros)
    let min_vrf = [0u8; 32];
    let min_mult = calculate_crash_multiplier(min_vrf);
    assert!(min_mult >= 10100); // At least 1.01x

    // Test maximum (all 0xFF)
    let max_vrf = [0xFFu8; 32];
    let max_mult = calculate_crash_multiplier(max_vrf);
    assert!(max_mult <= 1000000); // At most 100x
}

#[test]
fn boundary_seeds_map_near_the_ends() {
    let low = calculate_crash_multiplier([0u8; 32]);
    let high = calculate_crash_multiplier([0xFFu8; 32]);
    assert_eq!(low, 10100);
    assert_eq!(high, 993330);
    assert!(low < high);
}

#[test]
fn same_seed_same_multiplier() {
    let mut seed = [0u8; 32];
    for (i, byte) in seed.iter_mut().enumerate() {
        *byte = (i * 37 + 11) as u8;
    }
    assert_eq!(calculate_crash_multiplier(seed), calculate_crash_multiplier(seed));
    assert_eq!(vrf_seed_value(&seed), vrf_seed_value(&seed));
}

#[test]
fn seed_value_is_little_endian() {
    let mut seed = [0u8; 32];
    seed[0] = 1;
    assert_eq!(vrf_seed_value(&seed), 1);
    seed[1] = 2;
    assert_eq!(vrf_seed_value(&seed), 0x0201);
    let seed: [u8; 32] = [
        0x01, 0x23, 0x45, 0x67, 0x89, 0xAB, 0xCD, 0xEF, 9, 9, 9, 9, 9, 9, 9, 9, 9, 9, 9, 9, 9, 9,
        9, 9, 9, 9, 9, 9, 9, 9, 9, 9,
    ];
    assert_eq!(vrf_seed_value(&seed), 0xEFCD_AB89_6745_2301);
    assert_eq!(
        vrf_seed_value(&seed),
        u64::from_le_bytes([0x01, 0x23, 0x45, 0x67, 0x89, 0xAB, 0xCD, 0xEF])
    );
    assert_eq!(vrf_seed_value(&[0u8; 32]), 0);
    assert_eq!(vrf_seed_value(&[0xFFu8; 32]), u64::MAX);
}

#[test]
fn seed_value_ignores_the_tail() {
    let mut a = [0u8; 32];
    let mut b = [0xEEu8; 32];
    for i in 0..8 {
        a[i] = (200 + i) as u8;
        b[i] = (200 + i) as u8;
    }
    assert_eq!(vrf_seed_value(&a), vrf_seed_value(&b));
}

#[test]
fn larger_seed_values_never_crash_earlier() {
    let values: [u64; 9] = [
        0,
        1,
        255,
        256,
        1 << 32,
        u64::MAX / 4,
        u64::MAX / 2,
        u64::MAX - 1,
        u64::MAX,
    ];
    let mut last = 0;
    for value in values {
        let mut seed = [0x5Au8; 32];
        seed[0..8].copy_from_slice(&value.to_le_bytes());
        assert_eq!(vrf_seed_value(&seed), value);
        let multiplier = calculate_crash_multiplier(seed);
        assert!(multiplier >= last);
        last = multiplier;
    }
    assert_eq!(calculate_crash_multiplier([0u8; 32]), 10100);
    // Half of the range: 10100 + (1 - e^-2.5) * 989900 = 918744.06
    let mut middle = [0u8; 32];
    middle[0..8].copy_from_slice(&(u64::MAX / 2).to_le_bytes());
    assert_eq!(calculate_crash_multiplier(middle), 918744);
}

#[test]
fn clamp_holds_the_range() {
    assert_eq!(MIN_CRASH_MULTIPLIER, 10100);
    assert_eq!(MAX_CRASH_MULTIPLIER, 1000000);
    assert_eq!(clamp_crash_multiplier(0), 10100);
    assert_eq!(clamp_crash_multiplier(10099), 10100);
    assert_eq!(clamp_crash_multiplier(10100), 10100);
    assert_eq!(clamp_crash_multiplier(10101), 10101);
    assert_eq!(clamp_crash_multiplier(15000), 15000);
    assert_eq!(clamp_crash_multiplier(999999), 999999);
    assert_eq!(clamp_crash_multiplier(1000000), 1000000);
    assert_eq!(clamp_crash_multiplier(1000001), 1000000);
    assert_eq!(clamp_crash_multiplier(u64::MAX), 1000000);
}

#[test]
fn every_byte_pattern_stays_in_range() {
    for byte in 0..=255u8 {
        let multiplier = calculate_crash_multiplier([byte; 32]);
        assert!(multiplier >= 10100);
        assert!(multiplier <= 1000000);
    }
}

#[test]
fn cap_never_exceeds_the_crash_point() {
    assert_eq!(cap_at_crash(12000, 15000), 12000);
    assert_eq!(cap_at_crash(15000, 15000), 15000);
    assert_eq!(cap_at_crash(15001, 15000), 15000);
    assert_eq!(cap_at_crash(u64::MAX, 10100), 10100);
    assert_eq!(cap_at_crash(0, 0), 0);
}

#[test]
fn displayed_multiplier_stays_below_the_crash_point() {
    for crash in [10100u64, 15000, 20000, 123456, 1000000] {
        for elapsed in [0.0f64, 0.5, 1.0, 15.0, 29.9, 30.0, 30.1, 60.0, 1000.0, 1.0e9] {
            let shown = cap_at_crash(growth_bps(elapsed, crash), crash);
            assert!(shown <= crash);
        }
        assert_eq!(cap_at_crash(growth_bps(0.0, crash), crash), 10000);
        assert_eq!(cap_at_crash(growth_bps(1.0e9, crash), crash), crash);
    }
}

#[test]
fn extract_takes_a_seed_of_32_bytes() {
    let mut delivered = Vec::new();
    for i in 0..32u8 {
        delivered.push(i.wrapping_mul(7).wrapping_add(3));
    }
    let seed = extract_vrf_bytes(&delivered).unwrap();
    for i in 0..32 {
        assert_eq!(seed[i], delivered[i]);
    }
    assert_eq!(extract_vrf_bytes(&[7u8; 32]), Ok([7u8; 32]));
    assert_eq!(extract_vrf_bytes(&[0u8; 32]), Ok([0u8; 32]));
}

#[test]
fn extract_rejects_short_input() {
    assert_eq!(extract_vrf_bytes(&[]), Err(CasinoError::InvalidVrfResult));
    assert_eq!(extract_vrf_bytes(&[7u8; 1]), Err(CasinoError::InvalidVrfResult));
    assert_eq!(extract_vrf_bytes(&[7u8; 31]), Err(CasinoError::InvalidVrfResult));
}

#[test]
fn extract_rejects_long_input() {
    assert_eq!(extract_vrf_bytes(&[7u8; 33]), Err(CasinoError::InvalidVrfResult));
    assert_eq!(extract_vrf_bytes(&[7u8; 40]), Err(CasinoError::InvalidVrfResult));
    assert_eq!(extract_vrf_bytes(&[7u8; 64]), Err(CasinoError::InvalidVrfResult));
    let mut delivered = Vec::new();
    for i in 0..40u8 {
        delivered.push(i);
    }
    assert_eq!(extract_vrf_bytes(&delivered), Err(CasinoError::InvalidVrfResult));
    assert!(extract_vrf_bytes(&delivered[0..32]).is_ok());
}

#[test]
fn error_messages() {
    assert_eq!(CasinoError::GamePaused.message(), "Game is currently paused");
    assert_eq!(CasinoError::InvalidBetAmount.message(), "Invalid bet amount");
    assert_eq!(CasinoError::InvalidBetStatus.message(), "Invalid bet status");
    assert_eq!(CasinoError::GameAlreadyCrashed.message(), "Game has already crashed");
    assert_eq!(CasinoError::MathOverflow.message(), "Math overflow");
    assert_eq!(CasinoError::Unauthorized.message(), "Unauthorized");
    assert_eq!(CasinoError::InvalidStakeAmount.message(), "Invalid stake amount");
    assert_eq!(CasinoError::InsufficientStake.message(), "Insufficient stake");
    assert_eq!(CasinoError::NoStake.message(), "No stake found");
    assert_eq!(CasinoError::NoRewards.message(), "No rewards to claim");
    assert_eq!(CasinoError::InvalidVrfResult.message(), "Invalid VRF result");
}
