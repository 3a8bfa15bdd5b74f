use anchor_lang::prelude::Pubkey;
use token_presale::constants::{MAX_TOKENS_PER_WALLET, MIN_TOKENS_PER_BUY, TOTAL_SUPPLY};
use token_presale::errors::{ConstraintError, InstructionError, PresaleError};
use token_presale::instructions::buy_tokens::{buy_tokens, BuyTokens, Purchase};
use token_presale::state::{PresaleState, TokenAccount, UserPurchase};
use token_presale::token_presale as program;

fn key(b: u8) -> Pubkey {
    Pubkey::new_from_array([b; 32])
}

fn sale() -> PresaleState {
    PresaleState {
        admin: key(1),
        token_mint: key(2),
        usdt_mint: key(3),
        vault: key(4),
        treasury: key(5),
        total_supply: TOTAL_SUPPLY,
        presale_supply: 10_000_000_000_000,
        reserved_supply: 90_000_000_000_000,
        released_from_reserve: 0,
        token_price_usdt: 100_000,
        presale_end_ts: 1_000,
        paused: false,
        daily_withdraw_limit: 5_000_000,
        withdrawn_today: 0,
        last_withdraw_ts: 0,
        bump: 254,
    }
}

fn new_wallet() -> UserPurchase {
    UserPurchase { buyer: Pubkey::default(), total_bought: 0, bump: 0 }
}

fn accounts() -> BuyTokens {
    BuyTokens {
        buyer: key(9),
        user_purchase: new_wallet(),
        user_purchase_bump: 253,
        buyer_usdt: TokenAccount { key: key(20), mint: key(3), owner: key(9), amount: 50_000_000 },
        treasury_usdt: TokenAccount { key: key(5), mint: key(3), owner: key(1), amount: 0 },
        vault: TokenAccount { key: key(4), mint: key(2), owner: key(6), amount: TOTAL_SUPPLY },
        buyer_token: TokenAccount { key: key(21), mint: key(2), owner: key(9), amount: 0 },
        state: sale(),
    }
}

fn refused(ctx: BuyTokens, usdt_amount: u64, now: i64, expected: PresaleError) {
    let mut after = ctx;
    assert_eq!(buy_tokens(&mut after, usdt_amount, now), Err(expected));
    assert_eq!(after, ctx);
}

#[test]
fn presale_purchase_takes_from_presale_tranche() {
    let mut ctx = accounts();
    let r = buy_tokens(&mut ctx, 1_000_000, 500);
    assert_eq!(r, Ok(Purchase { usdt_amount: 1_000_000, tokens: 10_000_000 }));
    assert_eq!(ctx.state.presale_supply, 10_000_000_000_000 - 10_000_000);
    assert_eq!(ctx.state.released_from_reserve, 0);
    assert_eq!(ctx.state.reserved_supply, 90_000_000_000_000);
    assert_eq!(ctx.user_purchase.total_bought, 10_000_000);
}

#[test]
fn end_time_itself_is_still_presale() {
    let mut ctx = accounts();
    assert!(buy_tokens(&mut ctx, 1_000_000, 1_000).is_ok());
    assert_eq!(ctx.state.presale_supply, 10_000_000_000_000 - 10_000_000);
}

#[test]
fn purchase_after_end_takes_from_released_reserve() {
    let mut ctx = accounts();
    ctx.state.released_from_reserve = 50_000_000;
    let r = buy_tokens(&mut ctx, 2_000_000, 1_001);
    assert_eq!(r, Ok(Purchase { usdt_amount: 2_000_000, tokens: 20_000_000 }));
    assert_eq!(ctx.state.released_from_reserve, 30_000_000);
    assert_eq!(ctx.state.presale_supply, 10_000_000_000_000);
}

#[test]
fn token_count_rounds_down() {
    let mut ctx = accounts();
    ctx.state.token_price_usdt = 300_000;
    let r = buy_tokens(&mut ctx, 3_100_000, 0);
    assert_eq!(r, Ok(Purchase { usdt_amount: 3_100_000, tokens: 10_333_333 }));
}

#[test]
fn token_count_exact_division() {
    let mut ctx = accounts();
    ctx.state.token_price_usdt = 250_000;
    let r = buy_tokens(&mut ctx, 3_000_000, 0);
    assert_eq!(r, Ok(Purchase { usdt_amount: 3_000_000, tokens: 12_000_000 }));
}

#[test]
fn token_count_keeps_low_64_bits() {
    // At a price of one unit, 18446744073720 USDT units buy 2^64 + 10448384
    // token units, which the cast to u64 keeps as 10448384.
    let mut ctx = accounts();
    ctx.state.token_price_usdt = 1;
    let r = buy_tokens(&mut ctx, 18_446_744_073_720, 0);
    assert_eq!(r, Ok(Purchase { usdt_amount: 18_446_744_073_720, tokens: 10_448_384 }));
}

#[test]
fn first_purchase_records_the_wallet() {
    let mut ctx = accounts();
    buy_tokens(&mut ctx, 1_000_000, 0).unwrap();
    assert_eq!(ctx.user_purchase.buyer, key(9));
    assert_eq!(ctx.user_purchase.bump, 253);
    // A later purchase keeps the record's owner and bump.
    ctx.buyer = key(10);
    ctx.user_purchase_bump = 7;
    buy_tokens(&mut ctx, 1_000_000, 0).unwrap();
    assert_eq!(ctx.user_purchase.buyer, key(9));
    assert_eq!(ctx.user_purchase.bump, 253);
    assert_eq!(ctx.user_purchase.total_bought, 20_000_000);
}

#[test]
fn purchase_accounting_removes_exactly_the_tokens_sold() {
    let mut ctx = accounts();
    let before = ctx.state.presale_supply + ctx.state.reserved_supply + ctx.state.released_from_reserve;
    let p = buy_tokens(&mut ctx, 7_300_000, 10).unwrap();
    let after = ctx.state.presale_supply + ctx.state.reserved_supply + ctx.state.released_from_reserve;
    assert_eq!(p.tokens, 73_000_000);
    assert_eq!(before - after, p.tokens);
    assert!(p.tokens * ctx.state.token_price_usdt <= 7_300_000 * 1_000_000);
}

#[test]
fn wallet_cap_is_reachable_but_not_passable() {
    let mut ctx = accounts();
    ctx.user_purchase.total_bought = MAX_TOKENS_PER_WALLET - MIN_TOKENS_PER_BUY;
    assert!(buy_tokens(&mut ctx, 1_000_000, 0).is_ok());
    assert_eq!(ctx.user_purchase.total_bought, MAX_TOKENS_PER_WALLET);
    refused(ctx, 1_000_000, 0, PresaleError::WalletLimitExceeded);
}

#[test]
fn paused_sale_refuses_purchases() {
    let mut ctx = accounts();
    ctx.state.paused = true;
    refused(ctx, 1_000_000, 0, PresaleError::PresalePaused);
}

#[test]
fn zero_payment_is_refused() {
    refused(accounts(), 0, 0, PresaleError::InvalidAmount);
}

#[test]
fn zero_price_is_refused() {
    let mut ctx = accounts();
    ctx.state.token_price_usdt = 0;
    refused(ctx, 1_000_000, 0, PresaleError::InvalidPrice);
}

#[test]
fn purchase_below_minimum_is_refused() {
    refused(accounts(), 999_999, 0, PresaleError::BelowMinimum);
}

#[test]
fn wallet_total_past_u64_is_refused_as_overflow() {
    let mut ctx = accounts();
    ctx.user_purchase.total_bought = u64::MAX - 5;
    refused(ctx, 1_000_000, 0, PresaleError::Overflow);
}

#[test]
fn presale_tranche_cannot_go_below_zero() {
    let mut ctx = accounts();
    ctx.state.presale_supply = 9_999_999;
    refused(ctx, 1_000_000, 0, PresaleError::InsufficientPresaleSupply);
}

#[test]
fn released_tranche_cannot_go_below_zero() {
    refused(accounts(), 1_000_000, 1_001, PresaleError::InsufficientUnlockedReserve);
}

#[test]
fn program_entry_point_reports_presale_errors() {
    let mut ctx = accounts();
    ctx.state.paused = true;
    let before = ctx;
    assert_eq!(
        program::buy_tokens(&mut ctx, 1_000_000, 0),
        Err(InstructionError::Presale(PresaleError::PresalePaused))
    );
    assert_eq!(ctx, before);
    let mut ok = accounts();
    assert_eq!(
        program::buy_tokens(&mut ok, 1_000_000, 0),
        Ok(Purchase { usdt_amount: 1_000_000, tokens: 10_000_000 })
    );
}

fn refused_by_checks(ctx: BuyTokens) {
    assert_eq!(ctx.check_accounts(), Err(ConstraintError::ConstraintRaw));
    let mut after = ctx;
    assert_eq!(
        program::buy_tokens(&mut after, 1_000_000, 0),
        Err(InstructionError::Constraint(ConstraintError::ConstraintRaw))
    );
    assert_eq!(after, ctx);
}

#[test]
fn sale_accounts_pass_the_checks() {
    assert_eq!(accounts().check_accounts(), Ok(()));
}

#[test]
fn payment_into_another_account_is_refused() {
    let mut ctx = accounts();
    ctx.treasury_usdt.key = key(20);
    refused_by_checks(ctx);
}

#[test]
fn tokens_from_another_vault_are_refused() {
    let mut ctx = accounts();
    ctx.vault.key = key(22);
    refused_by_checks(ctx);
}

#[test]
fn payment_in_another_currency_is_refused() {
    let mut ctx = accounts();
    ctx.buyer_usdt.mint = key(2);
    refused_by_checks(ctx);
}

#[test]
fn receiving_account_of_another_token_is_refused() {
    let mut ctx = accounts();
    ctx.buyer_token.mint = key(3);
    refused_by_checks(ctx);
}
