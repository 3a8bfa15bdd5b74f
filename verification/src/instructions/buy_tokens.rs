use vstd::prelude::*;

use anchor_lang::prelude::Pubkey;

use crate::constants::{MAX_TOKENS_PER_WALLET, MIN_TOKENS_PER_BUY, TOKEN_DECIMALS};
use crate::errors::{ConstraintError, InstructionError, PresaleError};
use crate::pubkey::keys_equal;
use crate::state::{PresaleState, TokenAccount, UserPurchase};

verus! {

/// What a purchase reads and writes.
#[derive(Clone, Copy, Debug, PartialEq, Eq)]
pub struct BuyTokens {
    /// The wallet that pays and receives.
    pub buyer: Pubkey,
    /// The wallet's purchase record; all zero when it is created by this
    /// purchase.
    pub user_purchase: UserPurchase,
    /// Bump seed of the purchase record's address.
    pub user_purchase_bump: u8,
    /// The buyer's USDT account, which pays.
    pub buyer_usdt: TokenAccount,
    /// The admin-owned treasury, which receives the payment.
    pub treasury_usdt: TokenAccount,
    /// The program vault, which hands out the sale tokens.
    pub vault: TokenAccount,
    /// The buyer's account of the sale token, which receives them.
    pub buyer_token: TokenAccount,
    pub state: PresaleState,
}

impl BuyTokens {
    /// The first account check that fails, in declaration order: the buyer
    /// must pay in USDT, the payment must go to the sale's treasury, the
    /// tokens must come from the sale's vault, and the buyer's receiving
    /// account must hold the sale token.
    pub open spec fn constraint_failure(self) -> Option<ConstraintError> {
        if self.buyer_usdt.mint != self.state.usdt_mint {
            Some(ConstraintError::ConstraintRaw)
        } else if self.treasury_usdt.key != self.state.treasury {
            Some(ConstraintError::ConstraintRaw)
        } else if self.vault.key != self.state.vault {
            Some(ConstraintError::ConstraintRaw)
        } else if self.buyer_token.mint != self.state.token_mint {
            Some(ConstraintError::ConstraintRaw)
        } else {
            None
        }
    }

    /// The account checks made before the purchase runs.
    pub fn check_accounts(&self) -> (r: Result<(), ConstraintError>)
        ensures
            r == (match self.constraint_failure() {
                Some(e) => Err(e),
                None => Ok::<(), ConstraintError>(()),
            }),
    {
        if !keys_equal(&self.buyer_usdt.mint, &self.state.usdt_mint) {
            return Err(ConstraintError::ConstraintRaw);
        }
        if !keys_equal(&self.treasury_usdt.key, &self.state.treasury) {
            return Err(ConstraintError::ConstraintRaw);
        }
        if !keys_equal(&self.vault.key, &self.state.vault) {
            return Err(ConstraintError::ConstraintRaw);
        }
        if !keys_equal(&self.buyer_token.mint, &self.state.token_mint) {
            return Err(ConstraintError::ConstraintRaw);
        }
        Ok(())
    }
}

/// The two transfers an accepted purchase makes: `usdt_amount` from the
/// buyer to the treasury, and `tokens` from the vault to the buyer.
#[derive(Clone, Copy, Debug, PartialEq, Eq)]
pub struct Purchase {
    pub usdt_amount: u64,
    pub tokens: u64,
}

/// Tokens bought for `usdt_amount` at `price` USDT units per whole token,
/// rounded down, and kept to the low 64 bits as a `u64` cast keeps them.
pub open spec fn tokens_for(usdt_amount: u64, price: u64) -> u64
    recommends
        price > 0,
{
    ((usdt_amount * TOKEN_DECIMALS / (price as int)) % 0x1_0000_0000_0000_0000) as u64
}

/// Whether a purchase at `now` draws from the presale tranche (until the end
/// time, inclusive) or from the released reserve (after it).
pub open spec fn in_presale(state: PresaleState, now: i64) -> bool {
    now <= state.presale_end_ts
}

/// The outcome of a purchase: the error it is refused with, or the accounts
/// after it and the transfers it makes.
pub open spec fn buy_outcome(ctx: BuyTokens, usdt_amount: u64, now: i64) -> Result<
    (BuyTokens, Purchase),
    PresaleError,
> {
    let state = ctx.state;
    let user = ctx.user_purchase;
    if state.paused {
        Err(PresaleError::PresalePaused)
    } else if usdt_amount == 0 {
        Err(PresaleError::InvalidAmount)
    } else if state.token_price_usdt == 0 {
        Err(PresaleError::InvalidPrice)
    } else {
        let tokens = tokens_for(usdt_amount, state.token_price_usdt);
        let new_total = user.total_bought + tokens;
        if tokens < MIN_TOKENS_PER_BUY {
            Err(PresaleError::BelowMinimum)
        } else if new_total > u64::MAX {
            Err(PresaleError::Overflow)
        } else if new_total > MAX_TOKENS_PER_WALLET {
            Err(PresaleError::WalletLimitExceeded)
        } else if in_presale(state, now) && state.presale_supply < tokens {
            Err(PresaleError::InsufficientPresaleSupply)
        } else if !in_presale(state, now) && state.released_from_reserve < tokens {
            Err(PresaleError::InsufficientUnlockedReserve)
        } else {
            let first = user.total_bought == 0;
            let user_after = UserPurchase {
                buyer: if first { ctx.buyer } else { user.buyer },
                total_bought: new_total as u64,
                bump: if first { ctx.user_purchase_bump } else { user.bump },
            };
            let state_after = if in_presale(state, now) {
                PresaleState { presale_supply: (state.presale_supply - tokens) as u64, ..state }
            } else {
                PresaleState {
                    released_from_reserve: (state.released_from_reserve - tokens) as u64,
                    ..state
                }
            };
            Ok(
                (
                    BuyTokens { user_purchase: user_after, state: state_after, ..ctx },
                    Purchase { usdt_amount, tokens },
                ),
            )
        }
    }
}

/// The outcome of the whole purchase instruction: the account checks, then
/// the purchase itself.
pub open spec fn checked_buy_outcome(ctx: BuyTokens, usdt_amount: u64, now: i64) -> Result<
    (BuyTokens, Purchase),
    InstructionError,
> {
    match ctx.constraint_failure() {
        Some(e) => Err(InstructionError::Constraint(e)),
        None => match buy_outcome(ctx, usdt_amount, now) {
            Ok(done) => Ok(done),
            Err(e) => Err(InstructionError::Presale(e)),
        },
    }
}

/// Sells tokens for `usdt_amount` USDT at time `now`.
///
/// All checks come before any write, so a refused purchase leaves the
/// accounts as they were, as the runtime's rollback of a failed instruction
/// does.
pub fn buy_tokens(ctx: &mut BuyTokens, usdt_amount: u64, now: i64) -> (r: Result<
    Purchase,
    PresaleError,
>)
    ensures
        match buy_outcome(*old(ctx), usdt_amount, now) {
            Ok((next, purchase)) => r == Ok::<Purchase, PresaleError>(purchase) && *final(ctx)
                == next,
            Err(e) => r == Err::<Purchase, PresaleError>(e) && *final(ctx) == *old(ctx),
        },
{
    if ctx.state.paused {
        return Err(PresaleError::PresalePaused);
    }
    if usdt_amount == 0 {
        return Err(PresaleError::InvalidAmount);
    }
    let wide_amount: u128 = usdt_amount as u128;
    let wide_decimals: u128 = TOKEN_DECIMALS as u128;
    assert(wide_amount * wide_decimals <= u128::MAX) by (nonlinear_arith)
        requires
            wide_amount <= u64::MAX,
            wide_decimals == 1_000_000,
    ;
    let product: u128 = match wide_amount.checked_mul(wide_decimals) {
        Some(p) => p,
        None => {
            return Err(PresaleError::Overflow);
        },
    };
    let quotient: u128 = match product.checked_div(ctx.state.token_price_usdt as u128) {
        Some(q) => q,
        None => {
            return Err(PresaleError::InvalidPrice);
        },
    };
    let tokens: u64 = quotient as u64;
    assert(quotient as u64 == quotient % 0x1_0000_0000_0000_0000) by (bit_vector);
    assert(tokens == tokens_for(usdt_amount, ctx.state.token_price_usdt));
    if tokens < MIN_TOKENS_PER_BUY {
        return Err(PresaleError::BelowMinimum);
    }
    let new_total: u64 = match ctx.user_purchase.total_bought.checked_add(tokens) {
        Some(t) => t,
        None => {
            return Err(PresaleError::Overflow);
        },
    };
    if new_total > MAX_TOKENS_PER_WALLET {
        return Err(PresaleError::WalletLimitExceeded);
    }
    let presale_open = now <= ctx.state.presale_end_ts;
    if presale_open {
        if ctx.state.presale_supply < tokens {
            return Err(PresaleError::InsufficientPresaleSupply);
        }
    } else {
        if ctx.state.released_from_reserve < tokens {
            return Err(PresaleError::InsufficientUnlockedReserve);
        }
    }
    if ctx.user_purchase.total_bought == 0 {
        ctx.user_purchase.buyer = ctx.buyer;
        ctx.user_purchase.bump = ctx.user_purchase_bump;
    }
    ctx.user_purchase.total_bought = new_total;
    if presale_open {
        ctx.state.presale_supply = ctx.state.presale_supply - tokens;
    } else {
        ctx.state.released_from_reserve = ctx.state.released_from_reserve - tokens;
    }
    Ok(Purchase { usdt_amount, tokens })
}

} // verus!
