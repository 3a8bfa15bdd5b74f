use vstd::prelude::*;

use anchor_lang::prelude::Pubkey;

use crate::constants::TOTAL_SUPPLY;
use crate::errors::ConstraintError;
use crate::pubkey::keys_equal;
use crate::state::{PresaleState, TokenAccount};

verus! {

/// What setting up the sale reads.
#[derive(Clone, Copy, Debug, PartialEq, Eq)]
pub struct Initialize {
    /// The signer, who becomes the admin.
    pub admin: Pubkey,
    /// The mint of the token on sale.
    pub token_mint: Pubkey,
    /// The mint of the currency paid.
    pub usdt_mint: Pubkey,
    /// The address of the state account being created.
    pub state_key: Pubkey,
    /// Bump seed of that address.
    pub state_bump: u8,
    /// Holds the tokens on sale; the whole supply is minted into it.
    pub vault: TokenAccount,
    /// Receives the USDT paid.
    pub treasury: TokenAccount,
}

/// Tokens on sale before the presale ends: a tenth of the supply.
pub open spec fn presale_share(total: u64) -> u64 {
    (total / 10) as u64
}

impl Initialize {
    /// The first account check that fails, in declaration order: the vault
    /// must hold the sale token and belong to the state account, and the
    /// treasury must hold USDT and belong to the admin.
    pub open spec fn constraint_failure(self) -> Option<ConstraintError> {
        if self.vault.mint != self.token_mint || self.vault.owner != self.state_key {
            Some(ConstraintError::ConstraintRaw)
        } else if self.treasury.mint != self.usdt_mint || self.treasury.owner != self.admin {
            Some(ConstraintError::ConstraintRaw)
        } else {
            None
        }
    }

    /// The account checks made before the instruction runs.
    pub fn check_accounts(&self) -> (r: Result<(), ConstraintError>)
        ensures
            r == (match self.constraint_failure() {
                Some(e) => Err(e),
                None => Ok::<(), ConstraintError>(()),
            }),
    {
        if !keys_equal(&self.vault.mint, &self.token_mint) {
            return Err(ConstraintError::ConstraintRaw);
        }
        if !keys_equal(&self.vault.owner, &self.state_key) {
            return Err(ConstraintError::ConstraintRaw);
        }
        if !keys_equal(&self.treasury.mint, &self.usdt_mint) {
            return Err(ConstraintError::ConstraintRaw);
        }
        if !keys_equal(&self.treasury.owner, &self.admin) {
            return Err(ConstraintError::ConstraintRaw);
        }
        Ok(())
    }
}

/// The state a new sale starts in at `now`.
pub open spec fn initial_state(
    ctx: Initialize,
    price_usdt: u64,
    presale_duration_secs: i64,
    daily_withdraw_limit: u64,
    now: i64,
) -> PresaleState {
    PresaleState {
        admin: ctx.admin,
        token_mint: ctx.token_mint,
        usdt_mint: ctx.usdt_mint,
        vault: ctx.vault.key,
        treasury: ctx.treasury.key,
        total_supply: TOTAL_SUPPLY,
        presale_supply: presale_share(TOTAL_SUPPLY),
        reserved_supply: (TOTAL_SUPPLY - presale_share(TOTAL_SUPPLY)) as u64,
        released_from_reserve: 0,
        token_price_usdt: price_usdt,
        presale_end_ts: (now + presale_duration_secs) as i64,
        paused: false,
        daily_withdraw_limit,
        withdrawn_today: 0,
        last_withdraw_ts: now,
        bump: ctx.state_bump,
    }
}

/// Whether setting up the sale at `now` would abort computing the end time;
/// the caller stops the instruction there, as the overflow check does.
pub fn initialize_aborts(presale_duration_secs: i64, now: i64) -> (r: bool)
    ensures
        r == !(i64::MIN <= now + presale_duration_secs <= i64::MAX),
{
    now.checked_add(presale_duration_secs).is_none()
}

/// Sets up the sale at `now`. The caller mints `total_supply` tokens into the
/// vault and then gives up the mint's authority, so no token is ever minted
/// again.
pub fn initialize(
    ctx: &Initialize,
    price_usdt: u64,
    presale_duration_secs: i64,
    daily_withdraw_limit: u64,
    now: i64,
) -> (state: PresaleState)
    requires
        i64::MIN <= now + presale_duration_secs <= i64::MAX,
    ensures
        state == initial_state(*ctx, price_usdt, presale_duration_secs, daily_withdraw_limit, now),
{
    let total_supply: u64 = 100_000_000u64 * 1_000_000;
    let presale_supply: u64 = total_supply / 10;
    let reserved_supply: u64 = total_supply - presale_supply;
    PresaleState {
        admin: ctx.admin,
        token_mint: ctx.token_mint,
        usdt_mint: ctx.usdt_mint,
        vault: ctx.vault.key,
        treasury: ctx.treasury.key,
        total_supply,
        presale_supply,
        reserved_supply,
        released_from_reserve: 0,
        token_price_usdt: price_usdt,
        presale_end_ts: now + presale_duration_secs,
        paused: false,
        daily_withdraw_limit,
        withdrawn_today: 0,
        last_withdraw_ts: now,
        bump: ctx.state_bump,
    }
}

} // verus!
