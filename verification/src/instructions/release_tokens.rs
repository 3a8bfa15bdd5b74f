use vstd::prelude::*;

use anchor_lang::prelude::Pubkey;

use crate::errors::PresaleError;
use crate::pubkey::keys_equal;
use crate::state::PresaleState;

verus! {

/// What a release from the reserve reads and writes.
#[derive(Clone, Copy, Debug, PartialEq, Eq)]
pub struct ReleaseFromReserve {
    /// The signer of the instruction.
    pub admin: Pubkey,
    pub state: PresaleState,
}

/// The outcome of releasing `amount` reserved tokens at `now`: refused unless
/// the signer is the admin, the presale is over and the reserve holds the
/// amount; else the amount moves from the reserve to the released tranche.
pub open spec fn release_outcome(ctx: ReleaseFromReserve, amount: u64, now: i64) -> Result<
    ReleaseFromReserve,
    PresaleError,
> {
    let state = ctx.state;
    if ctx.admin != state.admin {
        Err(PresaleError::Unauthorized)
    } else if now <= state.presale_end_ts {
        Err(PresaleError::PresaleEnded)
    } else if state.reserved_supply < amount {
        Err(PresaleError::InsufficientUnlockedReserve)
    } else {
        Ok(
            ReleaseFromReserve {
                state: PresaleState {
                    reserved_supply: (state.reserved_supply - amount) as u64,
                    released_from_reserve: (state.released_from_reserve + amount) as u64,
                    ..state
                },
                ..ctx
            },
        )
    }
}

/// Whether a release would add past the range of the released tranche's
/// counter, which aborts the instruction.
pub open spec fn release_overflows(ctx: ReleaseFromReserve, amount: u64, now: i64) -> bool {
    &&& release_outcome(ctx, amount, now) is Ok
    &&& ctx.state.released_from_reserve + amount > u64::MAX
}

/// Whether releasing `amount` at `now` would abort on the released tranche's
/// counter; the caller stops the instruction there, as the counter's
/// overflow check does.
pub fn release_aborts(ctx: &ReleaseFromReserve, amount: u64, now: i64) -> (r: bool)
    ensures
        r == release_overflows(*ctx, amount, now),
{
    keys_equal(&ctx.admin, &ctx.state.admin) && now > ctx.state.presale_end_ts
        && ctx.state.reserved_supply >= amount && ctx.state.released_from_reserve.checked_add(
        amount,
    ).is_none()
}

/// Moves `amount` tokens from the reserve to the tranche sold after the
/// presale.
pub fn release_tokens(ctx: &mut ReleaseFromReserve, amount: u64, now: i64) -> (r: Result<
    (),
    PresaleError,
>)
    requires
        !release_overflows(*old(ctx), amount, now),
    ensures
        match release_outcome(*old(ctx), amount, now) {
            Ok(next) => r == Ok::<(), PresaleError>(()) && *final(ctx) == next,
            Err(e) => r == Err::<(), PresaleError>(e) && *final(ctx) == *old(ctx),
        },
{
    if !keys_equal(&ctx.admin, &ctx.state.admin) {
        return Err(PresaleError::Unauthorized);
    }
    if !(now > ctx.state.presale_end_ts) {
        return Err(PresaleError::PresaleEnded);
    }
    if !(ctx.state.reserved_supply >= amount) {
        return Err(PresaleError::InsufficientUnlockedReserve);
    }
    ctx.state.reserved_supply = ctx.state.reserved_supply - amount;
    ctx.state.released_from_reserve = ctx.state.released_from_reserve + amount;
    Ok(())
}

} // verus!
