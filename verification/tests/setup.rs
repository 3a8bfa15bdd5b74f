use anchor_lang::prelude::Pubkey;
use token_presale::constants::TOTAL_SUPPLY;
use token_presale::errors::{ConstraintError, InstructionError};
use token_presale::instructions::initialize::{initialize, initialize_aborts, Initialize};
use token_presale::state::TokenAccount;
use token_presale::token_presale as program;

fn key(b: u8) -> Pubkey {
    Pubkey::new_from_array([b; 32])
}

fn accounts() -> Initialize {
    Initialize {
        admin: key(1),
        token_mint: key(2),
        usdt_mint: key(3),
        state_key: key(6),
        state_bump: 255,
        vault: TokenAccount { key: key(4), mint: key(2), owner: key(6), amount: 0 },
        treasury: TokenAccount { key: key(5), mint: key(3), owner: key(1), amount: 0 },
    }
}

#[test]
fn initialize_splits_the_supply() {
    let s = initialize(&accounts(), 100_000, 3_600, 5_000_000, 1_700_000_000);
    assert_eq!(s.total_supply, 100_000_000_000_000);
    assert_eq!(s.total_supply, TOTAL_SUPPLY);
    assert_eq!(s.presale_supply, 10_000_000_000_000);
    assert_eq!(s.reserved_supply, 90_000_000_000_000);
    assert_eq!(s.released_from_reserve, 0);
    assert_eq!(s.presale_supply + s.reserved_supply + s.released_from_reserve, s.total_supply);
    assert_eq!(s.token_price_usdt, 100_000);
    assert_eq!(s.presale_end_ts, 1_700_003_600);
    assert_eq!(s.daily_withdraw_limit, 5_000_000);
    assert_eq!(s.withdrawn_today, 0);
    assert_eq!(s.last_withdraw_ts, 1_700_000_000);
    assert!(!s.paused);
    assert_eq!(s.admin, key(1));
    assert_eq!(s.token_mint, key(2));
    assert_eq!(s.usdt_mint, key(3));
    assert_eq!(s.vault, key(4));
    assert_eq!(s.treasury, key(5));
    assert_eq!(s.bump, 255);
}

#[test]
fn negative_duration_ends_the_presale_early() {
    let s = initialize(&accounts(), 1, -10, 0, 100);
    assert_eq!(s.presale_end_ts, 90);
}

#[test]
fn program_initialize_accepts_matching_accounts() {
    let r = program::initialize(&accounts(), 100_000, 3_600, 5_000_000, 1_000);
    assert_eq!(r, Ok(initialize(&accounts(), 100_000, 3_600, 5_000_000, 1_000)));
}

#[test]
fn vault_of_another_mint_is_refused() {
    let mut ctx = accounts();
    ctx.vault.mint = key(3);
    assert_eq!(ctx.check_accounts(), Err(ConstraintError::ConstraintRaw));
    assert_eq!(
        program::initialize(&ctx, 1, 1, 1, 1),
        Err(InstructionError::Constraint(ConstraintError::ConstraintRaw))
    );
}

#[test]
fn vault_not_owned_by_state_is_refused() {
    let mut ctx = accounts();
    ctx.vault.owner = key(1);
    assert_eq!(ctx.check_accounts(), Err(ConstraintError::ConstraintRaw));
}

#[test]
fn treasury_of_another_mint_is_refused() {
    let mut ctx = accounts();
    ctx.treasury.mint = key(2);
    assert_eq!(ctx.check_accounts(), Err(ConstraintError::ConstraintRaw));
}

#[test]
fn treasury_not_owned_by_admin_is_refused() {
    let mut ctx = accounts();
    ctx.treasury.owner = key(6);
    assert_eq!(ctx.check_accounts(), Err(ConstraintError::ConstraintRaw));
    assert_eq!(accounts().check_accounts(), Ok(()));
}

#[test]
fn end_time_past_i64_aborts() {
    assert!(initialize_aborts(1, i64::MAX));
    assert!(initialize_aborts(-1, i64::MIN));
    assert!(!initialize_aborts(3_600, 1_700_000_000));
    assert!(!initialize_aborts(0, i64::MAX));
}
