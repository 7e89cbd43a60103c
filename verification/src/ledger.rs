use vstd::prelude::*;
use crate::accounts::{Cashout, PlaceBet, RequestCrashVrf, ResolveCrash};
use crate::crash::{clamp_crash_multiplier, clamped_multiplier};
use crate::errors::CasinoError;
use crate::events::{BetPlaced, GameResolved, VrfRequested};
use crate::state::{Bet, BetStatus, Casino, Game};

verus! {

/// One whole in basis points: 10000 stands for 1.0000x, or for 100%.
pub const BPS_SCALE: u64 = 10000;

/// What a bet of `amount` is worth at `multiplier`, before the house fee,
/// rounded down.
pub open spec fn gross_payout(amount: u64, multiplier: u64) -> int {
    (amount * multiplier) / 10000
}

/// What the house keeps of a cash-out: its edge on the gross payout, rounded
/// down.
pub open spec fn house_fee(amount: u64, multiplier: u64, house_edge_bps: u16) -> int {
    (gross_payout(amount, multiplier) * house_edge_bps) / 10000
}

/// What the player receives: the gross payout less the house fee.
pub open spec fn net_payout(amount: u64, multiplier: u64, house_edge_bps: u16) -> int {
    gross_payout(amount, multiplier) - house_fee(amount, multiplier, house_edge_bps)
}

/// Whether the payout cannot be computed: a product leaves the range of
/// `u64`, or the fee exceeds the payout it is taken from.
pub open spec fn payout_overflows(amount: u64, multiplier: u64, house_edge_bps: u16) -> bool {
    ||| amount * multiplier > u64::MAX
    ||| gross_payout(amount, multiplier) * house_edge_bps > u64::MAX
    ||| net_payout(amount, multiplier, house_edge_bps) < 0
}

/// Computes what a cash-out of `amount` at `multiplier` pays: the player's
/// net payout first, the house fee second.
pub fn calculate_payout(amount: u64, multiplier: u64, house_edge_bps: u16) -> (r: Result<
    (u64, u64),
    CasinoError,
>)
    ensures
        match r {
            Ok((net, fee)) => {
                &&& !payout_overflows(amount, multiplier, house_edge_bps)
                &&& net == net_payout(amount, multiplier, house_edge_bps)
                &&& fee == house_fee(amount, multiplier, house_edge_bps)
            },
            Err(e) => e == CasinoError::MathOverflow && payout_overflows(
                amount,
                multiplier,
                house_edge_bps,
            ),
        },
{
    let gross: u64 = match amount.checked_mul(multiplier) {
        Some(product) => product / BPS_SCALE,
        None => {
            return Err(CasinoError::MathOverflow);
        },
    };
    let fee: u64 = match gross.checked_mul(house_edge_bps as u64) {
        Some(product) => product / BPS_SCALE,
        None => {
            return Err(CasinoError::MathOverflow);
        },
    };
    match gross.checked_sub(fee) {
        Some(net) => Ok((net, fee)),
        None => Err(CasinoError::MathOverflow),
    }
}

/// Why a cash-out at `multiplier` is rejected, if it is. The checks come in
/// this order, and the first that fails decides.
pub open spec fn cashout_error(pre: Cashout, multiplier: u64) -> Option<CasinoError> {
    if pre.bet.status != BetStatus::Pending {
        Some(CasinoError::InvalidBetStatus)
    } else if pre.game.is_resolved && multiplier > pre.game.crash_multiplier {
        Some(CasinoError::GameAlreadyCrashed)
    } else if payout_overflows(pre.bet.amount, multiplier, pre.casino.house_edge_bps) {
        Some(CasinoError::MathOverflow)
    } else if pre.casino.total_fees + house_fee(
        pre.bet.amount,
        multiplier,
        pre.casino.house_edge_bps,
    ) > u64::MAX {
        Some(CasinoError::MathOverflow)
    } else {
        None
    }
}

/// The records after a cash-out at `multiplier`: the bet is cashed out at
/// that multiplier, and the house has collected its fee.
pub open spec fn cashout_state(pre: Cashout, multiplier: u64) -> Cashout {
    Cashout {
        casino: Casino {
            total_fees: (pre.casino.total_fees + house_fee(
                pre.bet.amount,
                multiplier,
                pre.casino.house_edge_bps,
            )) as u64,
            ..pre.casino
        },
        game: pre.game,
        bet: Bet {
            status: BetStatus::CashedOut,
            cashout_multiplier: Some(multiplier),
            ..pre.bet
        },
    }
}

/// What a cash-out at `multiplier` announces.
pub open spec fn cashout_event(pre: Cashout, multiplier: u64) -> crate::events::Cashout {
    crate::events::Cashout {
        player: pre.bet.player,
        game_id: pre.bet.game_id,
        multiplier,
        payout: net_payout(pre.bet.amount, multiplier, pre.casino.house_edge_bps) as u64,
    }
}

/// Cashes a pending bet out at `multiplier_at_cashout`. While the round is
/// unresolved any multiplier is taken; once it is resolved, only one up to
/// its crash point. On success the event carries the net payout that is due
/// to the player. On any error nothing has changed.
pub fn cashout(ctx: &mut Cashout, multiplier_at_cashout: u64) -> (r: Result<
    crate::events::Cashout,
    CasinoError,
>)
    ensures
        match r {
            Ok(event) => {
                &&& cashout_error(*old(ctx), multiplier_at_cashout) is None
                &&& *final(ctx) == cashout_state(*old(ctx), multiplier_at_cashout)
                &&& event == cashout_event(*old(ctx), multiplier_at_cashout)
            },
            Err(e) => {
                &&& cashout_error(*old(ctx), multiplier_at_cashout) == Some(e)
                &&& *final(ctx) == *old(ctx)
            },
        },
{
    if !(ctx.bet.status == BetStatus::Pending) {
        return Err(CasinoError::InvalidBetStatus);
    }
    if ctx.game.is_resolved && multiplier_at_cashout > ctx.game.crash_multiplier {
        return Err(CasinoError::GameAlreadyCrashed);
    }
    let (net, fee): (u64, u64) = match calculate_payout(
        ctx.bet.amount,
        multiplier_at_cashout,
        ctx.casino.house_edge_bps,
    ) {
        Ok(payout) => payout,
        Err(e) => {
            return Err(e);
        },
    };
    let total_fees: u64 = match ctx.casino.total_fees.checked_add(fee) {
        Some(total) => total,
        None => {
            return Err(CasinoError::MathOverflow);
        },
    };
    ctx.bet.status = BetStatus::CashedOut;
    ctx.bet.cashout_multiplier = Some(multiplier_at_cashout);
    ctx.casino.total_fees = total_fees;
    Ok(
        crate::events::Cashout {
            player: ctx.bet.player,
            game_id: ctx.bet.game_id,
            multiplier: multiplier_at_cashout,
            payout: net,
        },
    )
}

/// Why a bet of `amount` is rejected, if it is. The checks come in this
/// order, and the first that fails decides. A record that already holds a
/// bet, whether pending, cashed out or lost, takes no other.
pub open spec fn place_bet_error(pre: PlaceBet, amount: u64) -> Option<CasinoError> {
    if !pre.bet.is_unused() {
        Some(CasinoError::InvalidBetStatus)
    } else if pre.casino.is_paused {
        Some(CasinoError::GamePaused)
    } else if !(pre.casino.min_bet <= amount <= pre.casino.max_bet) {
        Some(CasinoError::InvalidBetAmount)
    } else if pre.casino.total_volume + amount > u64::MAX {
        Some(CasinoError::MathOverflow)
    } else {
        None
    }
}

/// The records after a bet of `amount` was accepted: the bet record holds a
/// pending bet of the player on the current round, and the house's volume
/// has grown by the amount.
pub open spec fn place_bet_state(
    pre: PlaceBet,
    amount: u64,
    auto_cashout_multiplier: Option<u64>,
) -> PlaceBet {
    PlaceBet {
        casino: Casino { total_volume: (pre.casino.total_volume + amount) as u64, ..pre.casino },
        bet: Bet {
            player: pre.player,
            amount,
            auto_cashout_multiplier,
            status: BetStatus::Pending,
            game_id: pre.casino.current_game_id,
            cashout_multiplier: None,
            bump: pre.bet_bump,
        },
        ..pre
    }
}

/// Accepts a bet of `amount` on the current round, to be cashed out by
/// itself at `auto_cashout_multiplier` where one is given. The amount has to
/// lie within the configured bounds and the game must not be paused. A bet
/// is created in a record of its own: on a record that already holds a bet
/// `InvalidBetStatus` comes back, and that bet stays as it is. On success
/// the caller moves `amount` from the player into the vault. On any error
/// nothing has changed.
pub fn place_bet(ctx: &mut PlaceBet, amount: u64, auto_cashout_multiplier: Option<u64>) -> (r:
    Result<BetPlaced, CasinoError>)
    ensures
        match r {
            Ok(event) => {
                &&& place_bet_error(*old(ctx), amount) is None
                &&& *final(ctx) == place_bet_state(*old(ctx), amount, auto_cashout_multiplier)
                &&& event == (BetPlaced {
                    player: old(ctx).player,
                    amount,
                    game_id: old(ctx).casino.current_game_id,
                    auto_cashout: auto_cashout_multiplier,
                })
            },
            Err(e) => {
                &&& place_bet_error(*old(ctx), amount) == Some(e)
                &&& *final(ctx) == *old(ctx)
            },
        },
{
    if !ctx.bet.unused() {
        return Err(CasinoError::InvalidBetStatus);
    }
    if ctx.casino.is_paused {
        return Err(CasinoError::GamePaused);
    }
    if !(amount >= ctx.casino.min_bet && amount <= ctx.casino.max_bet) {
        return Err(CasinoError::InvalidBetAmount);
    }
    let total_volume: u64 = match ctx.casino.total_volume.checked_add(amount) {
        Some(total) => total,
        None => {
            return Err(CasinoError::MathOverflow);
        },
    };
    ctx.bet = Bet {
        player: ctx.player,
        amount,
        auto_cashout_multiplier,
        status: BetStatus::Pending,
        game_id: ctx.casino.current_game_id,
        cashout_multiplier: None,
        bump: ctx.bet_bump,
    };
    ctx.casino.total_volume = total_volume;
    Ok(
        BetPlaced {
            player: ctx.bet.player,
            amount: ctx.bet.amount,
            game_id: ctx.bet.game_id,
            auto_cashout: auto_cashout_multiplier,
        },
    )
}

/// Why the next round cannot be opened, if it cannot.
pub open spec fn request_crash_vrf_error(pre: RequestCrashVrf) -> Option<CasinoError> {
    if pre.casino.is_paused {
        Some(CasinoError::GamePaused)
    } else if pre.casino.current_game_id + 1 > u64::MAX {
        Some(CasinoError::MathOverflow)
    } else {
        None
    }
}

/// Opens the next round: the current round's number goes up by one, and the
/// event names the new round, for which randomness is now to be asked. On
/// any error nothing has changed.
pub fn request_crash_vrf(ctx: &mut RequestCrashVrf) -> (r: Result<VrfRequested, CasinoError>)
    ensures
        match r {
            Ok(event) => {
                &&& request_crash_vrf_error(*old(ctx)) is None
                &&& *final(ctx) == (RequestCrashVrf {
                    casino: Casino {
                        current_game_id: (old(ctx).casino.current_game_id + 1) as u64,
                        ..old(ctx).casino
                    },
                })
                &&& event == (VrfRequested { game_id: (old(ctx).casino.current_game_id + 1) as u64 })
            },
            Err(e) => {
                &&& request_crash_vrf_error(*old(ctx)) == Some(e)
                &&& *final(ctx) == *old(ctx)
            },
        },
{
    if ctx.casino.is_paused {
        return Err(CasinoError::GamePaused);
    }
    let next: u64 = match ctx.casino.current_game_id.checked_add(1) {
        Some(next) => next,
        None => {
            return Err(CasinoError::MathOverflow);
        },
    };
    ctx.casino.current_game_id = next;
    Ok(VrfRequested { game_id: next })
}

/// Gives a round its crash point. `curve_multiplier_bps` is what the crash
/// curve made of the round's seed; it is clamped into `[1.01x, 100x]` here,
/// so that every resolved round carries a valid crash multiplier. A round
/// is resolved once: the record must not be resolved yet. While the game is
/// paused nothing changes and `GamePaused` comes back.
pub fn resolve_crash(ctx: &mut ResolveCrash, curve_multiplier_bps: u64) -> (r: Result<
    GameResolved,
    CasinoError,
>)
    requires
        !old(ctx).game.is_resolved,
    ensures
        match r {
            Ok(event) => {
                &&& !old(ctx).casino.is_paused
                &&& *final(ctx) == (ResolveCrash {
                    casino: old(ctx).casino,
                    game: Game {
                        crash_multiplier: clamped_multiplier(curve_multiplier_bps),
                        is_resolved: true,
                        ..old(ctx).game
                    },
                })
                &&& final(ctx).game.well_formed()
                &&& event == (GameResolved {
                    game_id: old(ctx).casino.current_game_id,
                    crash_multiplier: clamped_multiplier(curve_multiplier_bps),
                })
            },
            Err(e) => {
                &&& e == CasinoError::GamePaused
                &&& old(ctx).casino.is_paused
                &&& *final(ctx) == *old(ctx)
            },
        },
{
    if ctx.casino.is_paused {
        return Err(CasinoError::GamePaused);
    }
    let crash_multiplier: u64 = clamp_crash_multiplier(curve_multiplier_bps);
    ctx.game.crash_multiplier = crash_multiplier;
    ctx.game.is_resolved = true;
    Ok(GameResolved { game_id: ctx.casino.current_game_id, crash_multiplier })
}

/// The multiplier at which a bet cashes out by itself in a resolved round:
/// its auto-cashout multiplier, where it has one that the round reached.
pub open spec fn auto_cashout_of(pre: Cashout) -> Option<u64> {
    match pre.bet.auto_cashout_multiplier {
        Some(multiplier) => if multiplier <= pre.game.crash_multiplier {
            Some(multiplier)
        } else {
            None
        },
        None => None,
    }
}

/// Why a bet cannot be settled against its resolved round, if it cannot: it
/// is not pending, or its automatic cash-out fails as a requested one would.
pub open spec fn settle_bet_error(pre: Cashout) -> Option<CasinoError> {
    if pre.bet.status != BetStatus::Pending {
        Some(CasinoError::InvalidBetStatus)
    } else {
        match auto_cashout_of(pre) {
            Some(multiplier) => cashout_error(pre, multiplier),
            None => None,
        }
    }
}

/// The records after a bet was settled against its resolved round: cashed
/// out at its auto-cashout multiplier where the round reached it, lost
/// otherwise.
pub open spec fn settle_bet_state(pre: Cashout) -> Cashout {
    match auto_cashout_of(pre) {
        Some(multiplier) => cashout_state(pre, multiplier),
        None => Cashout { bet: Bet { status: BetStatus::Lost, ..pre.bet }, ..pre },
    }
}

/// What settling a bet announces: its automatic cash-out, or nothing where
/// the bet is lost.
pub open spec fn settle_bet_event(pre: Cashout) -> Option<crate::events::Cashout> {
    match auto_cashout_of(pre) {
        Some(multiplier) => Some(cashout_event(pre, multiplier)),
        None => None,
    }
}

/// Settles a bet that is still pending when its round has been resolved. A
/// bet with an auto-cashout multiplier that the round reached is cashed out
/// at exactly that multiplier, as if the player had asked for it; the event
/// then carries the payout. Every other bet is lost and pays nothing. On any
/// error nothing has changed.
pub fn settle_bet(ctx: &mut Cashout) -> (r: Result<Option<crate::events::Cashout>, CasinoError>)
    requires
        old(ctx).game.is_resolved,
    ensures
        match r {
            Ok(event) => {
                &&& settle_bet_error(*old(ctx)) is None
                &&& *final(ctx) == settle_bet_state(*old(ctx))
                &&& event == settle_bet_event(*old(ctx))
            },
            Err(e) => {
                &&& settle_bet_error(*old(ctx)) == Some(e)
                &&& *final(ctx) == *old(ctx)
            },
        },
{
    if !(ctx.bet.status == BetStatus::Pending) {
        return Err(CasinoError::InvalidBetStatus);
    }
    match ctx.bet.auto_cashout_multiplier {
        Some(multiplier) => {
            if multiplier <= ctx.game.crash_multiplier {
                return match cashout(ctx, multiplier) {
                    Ok(event) => Ok(Some(event)),
                    Err(e) => Err(e),
                };
            }
        },
        None => {},
    }
    ctx.bet.status = BetStatus::Lost;
    Ok(None)
}

/// The house fee is a part of the gross payout: with an edge of at most
/// 100% the fee never exceeds what it is taken from, so the net payout is
/// never negative and never more than the gross payout.
pub proof fn lemma_fee_within_payout(amount: u64, multiplier: u64, house_edge_bps: u16)
    requires
        house_edge_bps <= BPS_SCALE,
    ensures
        0 <= house_fee(amount, multiplier, house_edge_bps) <= gross_payout(amount, multiplier),
        0 <= net_payout(amount, multiplier, house_edge_bps) <= gross_payout(amount, multiplier),
{
    let gross = gross_payout(amount, multiplier);
    assert(0 <= amount * multiplier) by (nonlinear_arith);
    assert(0 <= gross * house_edge_bps <= gross * 10000) by (nonlinear_arith)
        requires
            0 <= gross,
            0 <= house_edge_bps <= 10000,
    ;
}

/// A bet is resolved once. Whichever way a pending bet is resolved, it ends
/// cashed out or lost; from there every further cash-out and every further
/// settlement is rejected with `InvalidBetStatus`, and so is placing a new
/// bet in its record. So a bet never ends both cashed out and lost, and
/// never returns to pending.
pub proof fn lemma_bet_resolves_once(
    pre: Cashout,
    multiplier: u64,
    later: u64,
    placing: PlaceBet,
    amount: u64,
)
    ensures
        cashout_error(pre, multiplier) is None ==> {
            let post = cashout_state(pre, multiplier);
            &&& pre.bet.status == BetStatus::Pending
            &&& post.bet.status == BetStatus::CashedOut
            &&& cashout_error(post, later) == Some(CasinoError::InvalidBetStatus)
            &&& settle_bet_error(post) == Some(CasinoError::InvalidBetStatus)
            &&& (placing.bet == post.bet ==> place_bet_error(placing, amount) == Some(
                CasinoError::InvalidBetStatus,
            ))
        },
        settle_bet_error(pre) is None ==> {
            let post = settle_bet_state(pre);
            &&& pre.bet.status == BetStatus::Pending
            &&& post.bet.status.is_final()
            &&& (post.bet.status == BetStatus::Lost <==> auto_cashout_of(pre) is None)
            &&& cashout_error(post, later) == Some(CasinoError::InvalidBetStatus)
            &&& settle_bet_error(post) == Some(CasinoError::InvalidBetStatus)
            &&& (placing.bet == post.bet ==> place_bet_error(placing, amount) == Some(
                CasinoError::InvalidBetStatus,
            ))
        },
{
}

/// A bet in a final state stays as it is: no cash-out and no settlement is
/// accepted on it, and no new bet is placed over it.
pub proof fn lemma_final_bet_is_frozen(
    pre: Cashout,
    multiplier: u64,
    placing: PlaceBet,
    amount: u64,
)
    requires
        pre.bet.status.is_final(),
        placing.bet == pre.bet,
    ensures
        cashout_error(pre, multiplier) == Some(CasinoError::InvalidBetStatus),
        settle_bet_error(pre) == Some(CasinoError::InvalidBetStatus),
        place_bet_error(placing, amount) == Some(CasinoError::InvalidBetStatus),
{
}

/// A bet that was placed is not placed over: once a bet with something at
/// stake stands in a record, every further placement in that record is
/// rejected with `InvalidBetStatus`, whatever the state of the game.
pub proof fn lemma_placed_bet_is_kept(
    pre: PlaceBet,
    amount: u64,
    auto_cashout_multiplier: Option<u64>,
    again: u64,
)
    requires
        place_bet_error(pre, amount) is None,
        amount > 0,
    ensures
        place_bet_error(place_bet_state(pre, amount, auto_cashout_multiplier), again) == Some(
            CasinoError::InvalidBetStatus,
        ),
{
}

/// The bet ledger keeps its records consistent. A placed bet is pending
/// with no cash-out multiplier recorded; a resolved bet records one exactly
/// when it was cashed out; and a bet resolved against a resolved round did
/// not cash out above that round's crash point.
pub proof fn lemma_ledger_keeps_bets_well_formed(
    placing: PlaceBet,
    amount: u64,
    auto_cashout_multiplier: Option<u64>,
    pre: Cashout,
    multiplier: u64,
)
    requires
        pre.bet.well_formed(),
    ensures
        place_bet_state(placing, amount, auto_cashout_multiplier).bet.well_formed(),
        place_bet_state(placing, amount, auto_cashout_multiplier).bet.status
            == BetStatus::Pending,
        cashout_error(pre, multiplier) is None ==> {
            &&& cashout_state(pre, multiplier).bet.well_formed()
            &&& cashout_state(pre, multiplier).bet.within_crash(pre.game)
        },
        settle_bet_error(pre) is None ==> {
            &&& settle_bet_state(pre).bet.well_formed()
            &&& settle_bet_state(pre).bet.within_crash(pre.game)
        },
{
}

/// Fees only accumulate: a cash-out never lowers the total of collected
/// fees, and raises it by exactly the house fee of that cash-out.
pub proof fn lemma_cashout_collects_fee(pre: Cashout, multiplier: u64)
    requires
        cashout_error(pre, multiplier) is None,
    ensures
        cashout_state(pre, multiplier).casino.total_fees == pre.casino.total_fees + house_fee(
            pre.bet.amount,
            multiplier,
            pre.casino.house_edge_bps,
        ),
        cashout_state(pre, multiplier).casino.total_fees >= pre.casino.total_fees,
        cashout_event(pre, multiplier).payout + house_fee(
            pre.bet.amount,
            multiplier,
            pre.casino.house_edge_bps,
        ) == gross_payout(pre.bet.amount, multiplier),
{
    let gross = gross_payout(pre.bet.amount, multiplier);
    assert(0 <= pre.bet.amount * multiplier) by (nonlinear_arith);
    assert(0 <= gross * pre.casino.house_edge_bps) by (nonlinear_arith)
        requires
            0 <= gross,
    ;
}

} // verus!
