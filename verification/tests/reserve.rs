use anchor_lang::prelude::Pubkey;
use token_presale::constants::TOTAL_SUPPLY;
use token_presale::errors::{InstructionError, PresaleError};
use token_presale::instructions::release_tokens::{release_aborts, release_tokens, ReleaseFromReserve};
use token_presale::state::PresaleState;
use token_presale::token_presale as program;

fn key(b: u8) -> Pubkey {
    Pubkey::new_from_array([b; 32])
}

fn sale() -> PresaleState {
    PresaleState {
        admin: key(1),
        token_mint: key(2),
        usdt_mint: key(3),
        vault: key(4),
        treasury: key(5),
        total_supply: TOTAL_SUPPLY,
        presale_supply: 10_000_000_000_000,
        reserved_supply: 90_000_000_000_000,
        released_from_reserve: 0,
        token_price_usdt: 100_000,
        presale_end_ts: 1_000,
        paused: false,
        daily_withdraw_limit: 5_000_000,
        withdrawn_today: 0,
        last_withdraw_ts: 0,
        bump: 254,
    }
}

fn refused(ctx: ReleaseFromReserve, amount: u64, now: i64, expected: PresaleError) {
    let mut after = ctx;
    assert_eq!(release_tokens(&mut after, amount, now), Err(expected));
    assert_eq!(after, ctx);
}

#[test]
fn release_after_end_moves_reserve_to_sale() {
    let mut ctx = ReleaseFromReserve { admin: key(1), state: sale() };
    assert_eq!(release_tokens(&mut ctx, 40_000_000, 1_001), Ok(()));
    assert_eq!(ctx.state.reserved_supply, 90_000_000_000_000 - 40_000_000);
    assert_eq!(ctx.state.released_from_reserve, 40_000_000);
    assert_eq!(ctx.state.presale_supply, 10_000_000_000_000);
    let unsold = ctx.state.presale_supply + ctx.state.reserved_supply + ctx.state.released_from_reserve;
    assert_eq!(unsold, TOTAL_SUPPLY);
}

#[test]
fn whole_reserve_can_be_released() {
    let mut ctx = ReleaseFromReserve { admin: key(1), state: sale() };
    assert_eq!(release_tokens(&mut ctx, 90_000_000_000_000, 5_000), Ok(()));
    assert_eq!(ctx.state.reserved_supply, 0);
    assert_eq!(ctx.state.released_from_reserve, 90_000_000_000_000);
}

#[test]
fn release_by_other_signer_is_unauthorized() {
    refused(ReleaseFromReserve { admin: key(7), state: sale() }, 1, 1_001, PresaleError::Unauthorized);
}

#[test]
fn release_until_end_is_refused() {
    refused(ReleaseFromReserve { admin: key(1), state: sale() }, 1, 1_000, PresaleError::PresaleEnded);
    refused(ReleaseFromReserve { admin: key(1), state: sale() }, 1, 0, PresaleError::PresaleEnded);
}

#[test]
fn release_beyond_reserve_is_refused() {
    refused(
        ReleaseFromReserve { admin: key(1), state: sale() },
        90_000_000_000_001,
        1_001,
        PresaleError::InsufficientUnlockedReserve,
    );
}

#[test]
fn program_release_from_reserve() {
    let mut ctx = ReleaseFromReserve { admin: key(7), state: sale() };
    assert_eq!(
        program::release_from_reserve(&mut ctx, 1, 2_000),
        Err(InstructionError::Presale(PresaleError::Unauthorized))
    );
    let mut ok = ReleaseFromReserve { admin: key(1), state: sale() };
    assert_eq!(program::release_from_reserve(&mut ok, 1, 2_000), Ok(()));
    assert_eq!(ok.state.released_from_reserve, 1);
}

#[test]
fn release_past_counter_range_aborts() {
    let mut state = sale();
    state.released_from_reserve = u64::MAX - 1;
    state.reserved_supply = 5;
    assert!(release_aborts(&ReleaseFromReserve { admin: key(1), state }, 2, 1_001));
    assert!(!release_aborts(&ReleaseFromReserve { admin: key(1), state }, 1, 1_001));
    // A release refused earlier never reaches the addition.
    assert!(!release_aborts(&ReleaseFromReserve { admin: key(7), state }, 2, 1_001));
    assert!(!release_aborts(&ReleaseFromReserve { admin: key(1), state }, 2, 1_000));
    assert!(!release_aborts(&ReleaseFromReserve { admin: key(1), state }, 6, 1_001));
    assert!(!release_aborts(&ReleaseFromReserve { admin: key(1), state: sale() }, 90_000_000_000_000, 1_001));
}
