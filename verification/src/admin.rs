use vstd::prelude::*;
use crate::accounts::{Initialize, UpdateConfig};
use crate::errors::CasinoError;
use crate::state::{same_identity, Casino};

verus! {

/// Sets the casino up: the caller becomes its authority, the configuration
/// is taken as given, the game is open, and volume and fees start at zero.
/// The round counter and the pool total are left as the record holds them.
pub fn initialize(ctx: &mut Initialize, house_edge_bps: u16, min_bet: u64, max_bet: u64) -> (r:
    Result<(), CasinoError>)
    ensures
        r is Ok,
        *final(ctx) == (Initialize {
            casino: Casino {
                authority: old(ctx).authority,
                house_edge_bps,
                min_bet,
                max_bet,
                is_paused: false,
                bump: old(ctx).casino_bump,
                total_volume: 0,
                total_fees: 0,
                ..old(ctx).casino
            },
            ..*old(ctx)
        }),
{
    ctx.casino.authority = ctx.authority;
    ctx.casino.house_edge_bps = house_edge_bps;
    ctx.casino.min_bet = min_bet;
    ctx.casino.max_bet = max_bet;
    ctx.casino.is_paused = false;
    ctx.casino.bump = ctx.casino_bump;
    ctx.casino.total_volume = 0;
    ctx.casino.total_fees = 0;
    Ok(())
}

/// Whether the one who asks is the casino's authority.
pub open spec fn authorized(pre: UpdateConfig) -> bool {
    pre.authority@ == pre.casino.authority@
}

/// Changes the house edge. Only the casino's authority may; for anyone else
/// nothing changes and `Unauthorized` comes back.
pub fn update_house_edge(ctx: &mut UpdateConfig, new_house_edge_bps: u16) -> (r: Result<
    (),
    CasinoError,
>)
    ensures
        match r {
            Ok(_) => {
                &&& authorized(*old(ctx))
                &&& *final(ctx) == (UpdateConfig {
                    casino: Casino { house_edge_bps: new_house_edge_bps, ..old(ctx).casino },
                    ..*old(ctx)
                })
            },
            Err(e) => {
                &&& e == CasinoError::Unauthorized
                &&& !authorized(*old(ctx))
                &&& *final(ctx) == *old(ctx)
            },
        },
{
    if !same_identity(&ctx.authority, &ctx.casino.authority) {
        return Err(CasinoError::Unauthorized);
    }
    ctx.casino.house_edge_bps = new_house_edge_bps;
    Ok(())
}

/// Pauses or reopens the game. Only the casino's authority may; for anyone
/// else nothing changes and `Unauthorized` comes back.
pub fn set_pause(ctx: &mut UpdateConfig, is_paused: bool) -> (r: Result<(), CasinoError>)
    ensures
        match r {
            Ok(_) => {
                &&& authorized(*old(ctx))
                &&& *final(ctx) == (UpdateConfig {
                    casino: Casino { is_paused, ..old(ctx).casino },
                    ..*old(ctx)
                })
            },
            Err(e) => {
                &&& e == CasinoError::Unauthorized
                &&& !authorized(*old(ctx))
                &&& *final(ctx) == *old(ctx)
            },
        },
{
    if !same_identity(&ctx.authority, &ctx.casino.authority) {
        return Err(CasinoError::Unauthorized);
    }
    ctx.casino.is_paused = is_paused;
    Ok(())
}

} // verus!
