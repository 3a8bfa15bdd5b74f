//! The program's entry points: each makes the account checks its accounts
//! carry, then runs the instruction's handler.

use vstd::prelude::*;

use crate::errors::InstructionError;
use crate::events::PriceUpdated;
use crate::instructions::buy_tokens::{checked_buy_outcome, BuyTokens, Purchase};
use crate::instructions::initialize::{initial_state, Initialize};
use crate::instructions::release_tokens::{release_outcome, release_overflows, ReleaseFromReserve};
use crate::instructions::update_price::{update_price_outcome, UpdatePrice};
use crate::state::PresaleState;

verus! {

/// Sets up the sale: refused when an account check fails, else the new state.
pub fn initialize(
    ctx: &Initialize,
    token_price_usdt: u64,
    presale_duration_secs: i64,
    daily_withdraw_limit: u64,
    now: i64,
) -> (r: Result<PresaleState, InstructionError>)
    requires
        ctx.constraint_failure() is None ==> i64::MIN <= now + presale_duration_secs <= i64::MAX,
    ensures
        r == (match ctx.constraint_failure() {
            Some(e) => Err(InstructionError::Constraint(e)),
            None => Ok::<PresaleState, InstructionError>(
                initial_state(
                    *ctx,
                    token_price_usdt,
                    presale_duration_secs,
                    daily_withdraw_limit,
                    now,
                ),
            ),
        }),
{
    match ctx.check_accounts() {
        Err(e) => Err(InstructionError::Constraint(e)),
        Ok(()) => Ok(
            crate::instructions::initialize::initialize(
                ctx,
                token_price_usdt,
                presale_duration_secs,
                daily_withdraw_limit,
                now,
            ),
        ),
    }
}

/// Sells tokens for `usdt_amount` USDT at `now`: refused when an account
/// check fails, so the payment only ever goes to the sale's treasury and the
/// tokens only ever leave the sale's vault.
pub fn buy_tokens(ctx: &mut BuyTokens, usdt_amount: u64, now: i64) -> (r: Result<
    Purchase,
    InstructionError,
>)
    ensures
        match checked_buy_outcome(*old(ctx), usdt_amount, now) {
            Ok((next, purchase)) => r == Ok::<Purchase, InstructionError>(purchase)
                && *final(ctx) == next,
            Err(e) => r == Err::<Purchase, InstructionError>(e) && *final(ctx) == *old(ctx),
        },
{
    if let Err(e) = ctx.check_accounts() {
        return Err(InstructionError::Constraint(e));
    }
    match crate::instructions::buy_tokens::buy_tokens(ctx, usdt_amount, now) {
        Ok(purchase) => Ok(purchase),
        Err(e) => Err(InstructionError::Presale(e)),
    }
}

/// Releases `amount` reserved tokens for sale after the presale.
pub fn release_from_reserve(ctx: &mut ReleaseFromReserve, amount: u64, now: i64) -> (r: Result<
    (),
    InstructionError,
>)
    requires
        !release_overflows(*old(ctx), amount, now),
    ensures
        match release_outcome(*old(ctx), amount, now) {
            Ok(next) => r == Ok::<(), InstructionError>(()) && *final(ctx) == next,
            Err(e) => r == Err::<(), InstructionError>(InstructionError::Presale(e))
                && *final(ctx) == *old(ctx),
        },
{
    match crate::instructions::release_tokens::release_tokens(ctx, amount, now) {
        Ok(()) => Ok(()),
        Err(e) => Err(InstructionError::Presale(e)),
    }
}

/// Sets the price per whole token to `new_price`.
pub fn update_price(ctx: &mut UpdatePrice, new_price: u64, now: i64) -> (r: Result<
    PriceUpdated,
    InstructionError,
>)
    ensures
        match update_price_outcome(*old(ctx), new_price, now) {
            Ok((next, event)) => r == Ok::<PriceUpdated, InstructionError>(event) && *final(ctx)
                == next,
            Err(e) => r == Err::<PriceUpdated, InstructionError>(InstructionError::Presale(e))
                && *final(ctx) == *old(ctx),
        },
{
    match crate::instructions::update_price::update_price(ctx, new_price, now) {
        Ok(event) => Ok(event),
        Err(e) => Err(InstructionError::Presale(e)),
    }
}

} // verus!
