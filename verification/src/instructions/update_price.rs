use vstd::prelude::*;

use anchor_lang::prelude::Pubkey;

use crate::errors::PresaleError;
use crate::events::PriceUpdated;
use crate::pubkey::keys_equal;
use crate::state::PresaleState;

verus! {

/// What a price change reads and writes.
#[derive(Clone, Copy, Debug, PartialEq, Eq)]
pub struct UpdatePrice {
    /// The signer of the instruction.
    pub admin: Pubkey,
    pub state: PresaleState,
}

/// The outcome of setting the price to `new_price` at `now`: refused while
/// paused, then unless the signer is the admin; else the price is replaced
/// and the change is logged.
pub open spec fn update_price_outcome(ctx: UpdatePrice, new_price: u64, now: i64) -> Result<
    (UpdatePrice, PriceUpdated),
    PresaleError,
> {
    if ctx.state.paused {
        Err(PresaleError::PresalePaused)
    } else if ctx.admin != ctx.state.admin {
        Err(PresaleError::Unauthorized)
    } else {
        Ok(
            (
                UpdatePrice {
                    state: PresaleState { token_price_usdt: new_price, ..ctx.state },
                    ..ctx
                },
                PriceUpdated {
                    admin: ctx.admin,
                    old_price: ctx.state.token_price_usdt,
                    new_price,
                    timestamp: now,
                },
            ),
        )
    }
}

/// Sets the price per whole token, and returns the event to log.
pub fn update_price(ctx: &mut UpdatePrice, new_price: u64, now: i64) -> (r: Result<
    PriceUpdated,
    PresaleError,
>)
    ensures
        match update_price_outcome(*old(ctx), new_price, now) {
            Ok((next, event)) => r == Ok::<PriceUpdated, PresaleError>(event) && *final(ctx)
                == next,
            Err(e) => r == Err::<PriceUpdated, PresaleError>(e) && *final(ctx) == *old(ctx),
        },
{
    if ctx.state.paused {
        return Err(PresaleError::PresalePaused);
    }
    if !keys_equal(&ctx.admin, &ctx.state.admin) {
        return Err(PresaleError::Unauthorized);
    }
    let old_price = ctx.state.token_price_usdt;
    ctx.state.token_price_usdt = new_price;
    Ok(PriceUpdated { admin: ctx.admin, old_price, new_price, timestamp: now })
}

} // verus!
