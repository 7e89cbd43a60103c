use vstd::prelude::*;

verus! {

/// The lowest crash multiplier a round can have: 1.01x.
pub const MIN_CRASH_MULTIPLIER: u64 = 10100;

/// The highest crash multiplier a round can have: 100.00x.
pub const MAX_CRASH_MULTIPLIER: u64 = 1000000;

/// Whether `multiplier` is a crash multiplier a resolved round may carry.
pub open spec fn valid_crash_multiplier(multiplier: u64) -> bool {
    MIN_CRASH_MULTIPLIER <= multiplier <= MAX_CRASH_MULTIPLIER
}

/// The number that a seed stands for: its first eight bytes read as a
/// little-endian unsigned integer. The remaining bytes play no part.
pub open spec fn seed_value(seed: Seq<u8>) -> nat
    recommends
        seed.len() >= 8,
{
    (seed[0] as nat) + (seed[1] as nat) * 0x100 + (seed[2] as nat) * 0x1_0000 + (seed[3] as nat)
        * 0x100_0000 + (seed[4] as nat) * 0x1_0000_0000 + (seed[5] as nat) * 0x100_0000_0000 + (
    seed[6] as nat) * 0x1_0000_0000_0000 + (seed[7] as nat) * 0x100_0000_0000_0000
}

/// `raw` brought into the range of crash multipliers.
pub open spec fn clamped_multiplier(raw: u64) -> u64 {
    if raw < MIN_CRASH_MULTIPLIER {
        MIN_CRASH_MULTIPLIER
    } else if raw > MAX_CRASH_MULTIPLIER {
        MAX_CRASH_MULTIPLIER
    } else {
        raw
    }
}

/// The multiplier to display while a round runs: the curve's value, held at
/// the crash point once the curve has reached it.
pub open spec fn capped_multiplier(multiplier_bps: u64, crash_multiplier: u64) -> u64 {
    if multiplier_bps <= crash_multiplier {
        multiplier_bps
    } else {
        crash_multiplier
    }
}

/// Reads the entropy of a round out of its 32-byte seed.
pub fn vrf_seed_value(vrf_result: &[u8; 32]) -> (value: u64)
    ensures
        value == seed_value(vrf_result@),
{
    let b0: u64 = vrf_result[0] as u64;
    let b1: u64 = vrf_result[1] as u64;
    let b2: u64 = vrf_result[2] as u64;
    let b3: u64 = vrf_result[3] as u64;
    let b4: u64 = vrf_result[4] as u64;
    let b5: u64 = vrf_result[5] as u64;
    let b6: u64 = vrf_result[6] as u64;
    let b7: u64 = vrf_result[7] as u64;
    b0 + b1 * 0x100 + b2 * 0x1_0000 + b3 * 0x100_0000 + b4 * 0x1_0000_0000 + b5 * 0x100_0000_0000
        + b6 * 0x1_0000_0000_0000 + b7 * 0x100_0000_0000_0000
}

/// Brings the curve's output, in basis points, into `[1.01x, 100x]`. The
/// crash multiplier of every round passes through here, whatever the curve
/// computed at the edges of its domain.
pub fn clamp_crash_multiplier(multiplier_bps: u64) -> (multiplier: u64)
    ensures
        multiplier == clamped_multiplier(multiplier_bps),
        valid_crash_multiplier(multiplier),
{
    if multiplier_bps < MIN_CRASH_MULTIPLIER {
        MIN_CRASH_MULTIPLIER
    } else if multiplier_bps > MAX_CRASH_MULTIPLIER {
        MAX_CRASH_MULTIPLIER
    } else {
        multiplier_bps
    }
}

/// Holds the displayed multiplier at the crash point: a round never shows a
/// value that its crash multiplier did not reach.
pub fn cap_at_crash(multiplier_bps: u64, crash_multiplier: u64) -> (shown: u64)
    ensures
        shown == capped_multiplier(multiplier_bps, crash_multiplier),
        shown <= crash_multiplier,
{
    if multiplier_bps <= crash_multiplier {
        multiplier_bps
    } else {
        crash_multiplier
    }
}

/// Clamping changes nothing on a multiplier that is already in range, so a
/// clamped value stays as it is however often it is clamped again.
pub proof fn lemma_clamp_is_idempotent(raw: u64)
    ensures
        valid_crash_multiplier(raw) ==> clamped_multiplier(raw) == raw,
        clamped_multiplier(clamped_multiplier(raw)) == clamped_multiplier(raw),
{
}

/// A larger curve output never gives a smaller crash multiplier.
pub proof fn lemma_clamp_is_monotonic(low: u64, high: u64)
    requires
        low <= high,
    ensures
        clamped_multiplier(low) <= clamped_multiplier(high),
{
}

/// Only the first eight bytes of a seed count: seeds that agree on them
/// stand for the same number.
pub proof fn lemma_seed_value_reads_eight_bytes(a: Seq<u8>, b: Seq<u8>)
    requires
        a.len() >= 8,
        b.len() >= 8,
        a.subrange(0, 8) == b.subrange(0, 8),
    ensures
        seed_value(a) == seed_value(b),
        seed_value(a) <= u64::MAX,
{
    assert forall|i: int| 0 <= i < 8 implies a[i] == b[i] by {
        assert(a.subrange(0, 8)[i] == a[i]);
        assert(b.subrange(0, 8)[i] == b[i]);
    }
}

/// Reading the seed and clamping keep the order of seeds. Whatever curve
/// stands between the two steps, as long as it never falls while its input
/// grows, a seed with a larger value gets no smaller crash multiplier.
pub proof fn lemma_crash_multiplier_keeps_order(
    curve: spec_fn(u64) -> u64,
    low: Seq<u8>,
    high: Seq<u8>,
)
    requires
        low.len() >= 8,
        high.len() >= 8,
        seed_value(low) <= seed_value(high),
        forall|x: u64, y: u64| #![trigger curve(x), curve(y)] x <= y ==> curve(x) <= curve(y),
    ensures
        seed_value(high) <= u64::MAX,
        clamped_multiplier(curve(seed_value(low) as u64)) <= clamped_multiplier(
            curve(seed_value(high) as u64),
        ),
{
    let x = seed_value(low) as u64;
    let y = seed_value(high) as u64;
    assert(x <= y);
    assert(curve(x) <= curve(y));
    lemma_clamp_is_monotonic(curve(x), curve(y));
}

} // verus!
