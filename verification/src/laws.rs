//! Properties of the program that span its instructions: the token
//! accounting, the caps, who may do what, and when.

use vstd::prelude::*;

use crate::constants::{MAX_TOKENS_PER_WALLET, MIN_TOKENS_PER_BUY, TOKEN_DECIMALS, TOTAL_SUPPLY};
use crate::errors::{ConstraintError, InstructionError, PresaleError};
use crate::instructions::buy_tokens::{
    buy_outcome,
    checked_buy_outcome,
    in_presale,
    tokens_for,
    BuyTokens,
};
use crate::instructions::initialize::{initial_state, Initialize};
use crate::instructions::pause::{pause_outcome, Pause};
use crate::instructions::release_tokens::{release_outcome, release_overflows, ReleaseFromReserve};
use crate::instructions::unpause::{unpause_outcome, Unpause};
use crate::instructions::update_price::{update_price_outcome, UpdatePrice};
use crate::instructions::withdraw_usdt::{
    checked_withdraw_outcome,
    window_expired,
    withdraw_outcome,
    WithdrawUsdt,
};
use crate::events::{DailyWithdraw, PriceUpdated, UsdtWithdrawn};
use crate::state::PresaleState;

verus! {

/// Whether two states agree on everything but the token tranches and the
/// withdrawal window.
pub open spec fn same_sale(a: PresaleState, b: PresaleState) -> bool {
    &&& a.admin == b.admin
    &&& a.token_mint == b.token_mint
    &&& a.usdt_mint == b.usdt_mint
    &&& a.vault == b.vault
    &&& a.treasury == b.treasury
    &&& a.total_supply == b.total_supply
    &&& a.token_price_usdt == b.token_price_usdt
    &&& a.presale_end_ts == b.presale_end_ts
    &&& a.paused == b.paused
    &&& a.daily_withdraw_limit == b.daily_withdraw_limit
    &&& a.bump == b.bump
}

/// A new sale has minted the whole supply, a tenth of it on presale and the
/// rest in the reserve, nothing released, nothing withdrawn, not paused; its
/// state is consistent whatever the arguments.
pub proof fn initial_state_is_consistent(
    ctx: Initialize,
    price_usdt: u64,
    presale_duration_secs: i64,
    daily_withdraw_limit: u64,
    now: i64,
)
    ensures
        ({
            let s = initial_state(ctx, price_usdt, presale_duration_secs, daily_withdraw_limit, now);
            &&& s.consistent()
            &&& s.total_supply == TOTAL_SUPPLY
            &&& s.unsold() == TOTAL_SUPPLY
            &&& s.presale_supply == TOTAL_SUPPLY / 10
            &&& s.reserved_supply == TOTAL_SUPPLY - TOTAL_SUPPLY / 10
            &&& s.released_from_reserve == 0
            &&& !s.paused
            &&& s.withdrawn_today == 0
            &&& s.admin == ctx.admin
        }),
{
}

/// An accepted purchase hands out exactly the tokens it takes from the
/// unsold supply, from the presale tranche until the end time and from the
/// released reserve after it; it never hands out more than the USDT paid
/// buys at the price, nor fewer than the minimum; it adds them to the
/// wallet's total, which stays within the cap; and it keeps the state
/// consistent.
pub proof fn purchase_accounting(ctx: BuyTokens, usdt_amount: u64, now: i64)
    requires
        buy_outcome(ctx, usdt_amount, now) is Ok,
    ensures
        ({
            let (next, purchase) = buy_outcome(ctx, usdt_amount, now)->Ok_0;
            &&& purchase.usdt_amount == usdt_amount
            &&& purchase.tokens >= MIN_TOKENS_PER_BUY
            &&& purchase.tokens * ctx.state.token_price_usdt <= usdt_amount * TOKEN_DECIMALS
            &&& next.state.unsold() == ctx.state.unsold() - purchase.tokens
            &&& next.state.reserved_supply == ctx.state.reserved_supply
            &&& (in_presale(ctx.state, now) ==> next.state.presale_supply
                == ctx.state.presale_supply - purchase.tokens
                && next.state.released_from_reserve == ctx.state.released_from_reserve)
            &&& (!in_presale(ctx.state, now) ==> next.state.released_from_reserve
                == ctx.state.released_from_reserve - purchase.tokens
                && next.state.presale_supply == ctx.state.presale_supply)
            &&& next.user_purchase.total_bought == ctx.user_purchase.total_bought + purchase.tokens
            &&& next.user_purchase.total_bought <= MAX_TOKENS_PER_WALLET
            &&& same_sale(next.state, ctx.state)
            &&& next.state.withdrawn_today == ctx.state.withdrawn_today
            &&& next.state.last_withdraw_ts == ctx.state.last_withdraw_ts
            &&& (ctx.state.consistent() ==> next.state.consistent())
        }),
{
    let price = ctx.state.token_price_usdt;
    let paid = usdt_amount * TOKEN_DECIMALS;
    let q = paid / (price as int);
    assert(q * price <= paid) by (nonlinear_arith)
        requires
            price > 0,
            paid >= 0,
            q == paid / (price as int),
    ;
    assert(q % 0x1_0000_0000_0000_0000 <= q) by (nonlinear_arith)
        requires
            q >= 0,
    ;
    let t = tokens_for(usdt_amount, price);
    assert(t * price <= q * price) by (nonlinear_arith)
        requires
            t <= q,
            price >= 0,
    ;
}

/// A purchase instruction goes through only between the sale's own
/// accounts: the buyer pays in USDT into the sale's treasury, and the tokens
/// leave the sale's vault into an account of the sale token. Any other
/// treasury, vault or mint is refused with nothing changed.
pub proof fn purchase_moves_funds_between_sale_accounts(ctx: BuyTokens, usdt_amount: u64, now: i64)
    ensures
        checked_buy_outcome(ctx, usdt_amount, now) is Ok ==> {
            &&& ctx.buyer_usdt.mint == ctx.state.usdt_mint
            &&& ctx.treasury_usdt.key == ctx.state.treasury
            &&& ctx.vault.key == ctx.state.vault
            &&& ctx.buyer_token.mint == ctx.state.token_mint
            &&& checked_buy_outcome(ctx, usdt_amount, now) == match buy_outcome(
                ctx,
                usdt_amount,
                now,
            ) {
                Ok(done) => Ok::<(BuyTokens, crate::instructions::buy_tokens::Purchase), InstructionError>(done),
                Err(e) => Err(InstructionError::Presale(e)),
            }
        },
        ctx.treasury_usdt.key != ctx.state.treasury || ctx.vault.key != ctx.state.vault
            || ctx.buyer_usdt.mint != ctx.state.usdt_mint || ctx.buyer_token.mint
            != ctx.state.token_mint ==> checked_buy_outcome(ctx, usdt_amount, now) == Err::<
            (BuyTokens, crate::instructions::buy_tokens::Purchase),
            InstructionError,
        >(InstructionError::Constraint(ConstraintError::ConstraintRaw)),
{
}

/// A release moves tokens from the reserve to the released tranche and
/// changes nothing else: the unsold supply stays the same, and a consistent
/// state stays consistent.
pub proof fn release_accounting(ctx: ReleaseFromReserve, amount: u64, now: i64)
    requires
        release_outcome(ctx, amount, now) is Ok,
    ensures
        ({
            let next = release_outcome(ctx, amount, now)->Ok_0;
            &&& next.state.reserved_supply == ctx.state.reserved_supply - amount
            &&& ctx.state.released_from_reserve + amount <= u64::MAX ==> next.state.released_from_reserve
                == ctx.state.released_from_reserve + amount
            &&& next.state.presale_supply == ctx.state.presale_supply
            &&& (ctx.state.consistent() ==> next.state.unsold() == ctx.state.unsold()
                && next.state.consistent())
            &&& same_sale(next.state, ctx.state)
        }),
{
}

/// In a consistent state a release never overflows: the released tranche
/// and the reserve together fit in the supply.
pub proof fn consistent_release_fits(ctx: ReleaseFromReserve, amount: u64, now: i64)
    requires
        ctx.state.consistent(),
    ensures
        !release_overflows(ctx, amount, now),
{
}

/// Only after the presale's end time, and only by the admin, can reserved
/// tokens be released.
pub proof fn release_needs_admin_after_end(ctx: ReleaseFromReserve, amount: u64, now: i64)
    ensures
        ctx.admin != ctx.state.admin ==> release_outcome(ctx, amount, now) == Err::<
            ReleaseFromReserve,
            PresaleError,
        >(PresaleError::Unauthorized),
        ctx.admin == ctx.state.admin && now <= ctx.state.presale_end_ts ==> release_outcome(
            ctx,
            amount,
            now,
        ) == Err::<ReleaseFromReserve, PresaleError>(PresaleError::PresaleEnded),
{
}

/// While the sale is paused, every purchase and every price change is
/// refused as paused.
pub proof fn paused_refuses_sales_and_prices(
    buy: BuyTokens,
    usdt_amount: u64,
    price: UpdatePrice,
    new_price: u64,
    now: i64,
)
    ensures
        buy.state.paused ==> buy_outcome(buy, usdt_amount, now) == Err::<
            (BuyTokens, crate::instructions::buy_tokens::Purchase),
            PresaleError,
        >(PresaleError::PresalePaused),
        price.state.paused ==> update_price_outcome(price, new_price, now) == Err::<
            (UpdatePrice, crate::events::PriceUpdated),
            PresaleError,
        >(PresaleError::PresalePaused),
{
}

/// Only the admin can change the price, pause, resume or withdraw: any
/// other signer is refused.
pub proof fn admin_only(
    price: UpdatePrice,
    new_price: u64,
    now: i64,
    pause: Pause,
    unpause: Unpause,
    withdraw: WithdrawUsdt,
)
    ensures
        !price.state.paused && price.admin != price.state.admin ==> update_price_outcome(
            price,
            new_price,
            now,
        ) == Err::<(UpdatePrice, crate::events::PriceUpdated), PresaleError>(
            PresaleError::Unauthorized,
        ),
        pause.admin != pause.state.admin ==> pause.constraint_failure() == Some(
            ConstraintError::ConstraintHasOne,
        ),
        unpause.admin != unpause.state.admin ==> unpause.constraint_failure() == Some(
            ConstraintError::ConstraintHasOne,
        ),
        withdraw.admin != withdraw.state.admin ==> withdraw.constraint_failure() == Some(
            ConstraintError::ConstraintHasOne,
        ),
{
}

/// Pausing and then resuming gives back the state as it was, apart from the
/// flag, which ends up cleared; pausing twice is pausing once; and neither
/// touches the accounting or the consistency of the state.
pub proof fn pause_then_unpause(ctx: Pause)
    ensures
        unpause_outcome(Unpause { state: pause_outcome(ctx).state, admin: ctx.admin }).state
            == (PresaleState { paused: false, ..ctx.state }),
        pause_outcome(pause_outcome(ctx)) == pause_outcome(ctx),
        pause_outcome(ctx).state.paused,
        pause_outcome(ctx).state.unsold() == ctx.state.unsold(),
        ctx.state.consistent() ==> pause_outcome(ctx).state.consistent(),
        ctx.state.consistent() ==> unpause_outcome(Unpause { state: ctx.state, admin: ctx.admin }).state.consistent(),
        !unpause_outcome(Unpause { state: ctx.state, admin: ctx.admin }).state.paused,
{
}

/// A price change replaces the price and nothing else in the state.
pub proof fn price_change_only_sets_price(ctx: UpdatePrice, new_price: u64, now: i64)
    requires
        update_price_outcome(ctx, new_price, now) is Ok,
    ensures
        ({
            let (next, event) = update_price_outcome(ctx, new_price, now)->Ok_0;
            &&& next.state == PresaleState { token_price_usdt: new_price, ..ctx.state }
            &&& event.old_price == ctx.state.token_price_usdt
            &&& event.new_price == new_price
            &&& (ctx.state.consistent() ==> next.state.consistent())
        }),
{
}

/// An accepted withdrawal keeps the window's total within the daily limit,
/// adds to the total of a running window, starts a new window once a day has
/// passed, and leaves the token accounting alone.
pub proof fn withdrawal_within_daily_limit(ctx: WithdrawUsdt, amount: u64, now: i64)
    requires
        withdraw_outcome(ctx, amount, now) is Ok,
    ensures
        ({
            let (next, withdrawal) = withdraw_outcome(ctx, amount, now)->Ok_0;
            &&& next.state.withdrawn_today <= next.state.daily_withdraw_limit
            &&& withdrawal.amount == amount
            &&& withdrawal.daily_withdraw.withdrawn_today == next.state.withdrawn_today
            &&& (!window_expired(ctx.state, now) ==> next.state.withdrawn_today
                == ctx.state.withdrawn_today + amount && next.state.last_withdraw_ts
                == ctx.state.last_withdraw_ts)
            &&& (window_expired(ctx.state, now) ==> next.state.withdrawn_today == amount
                && next.state.last_withdraw_ts == now)
            &&& next.state.unsold() == ctx.state.unsold()
            &&& same_sale(next.state, ctx.state)
            &&& (ctx.state.consistent() ==> next.state.consistent())
        }),
{
}

/// A new sale's state, field by field: the whole supply of 100,000,000
/// tokens (six decimals) minted, a tenth of it on presale and the rest
/// reserved; the presale ends `presale_duration_secs` after `now`, whatever
/// the duration; the price and the daily limit are the arguments; the
/// withdrawal window begins at `now` with nothing withdrawn; sales are not
/// paused; and the keys are those of the accounts given.
pub proof fn initial_state_fields(
    ctx: Initialize,
    price_usdt: u64,
    presale_duration_secs: i64,
    daily_withdraw_limit: u64,
    now: i64,
)
    requires
        i64::MIN <= now + presale_duration_secs <= i64::MAX,
    ensures
        ({
            let s = initial_state(ctx, price_usdt, presale_duration_secs, daily_withdraw_limit, now);
            &&& s.presale_end_ts == now + presale_duration_secs
            &&& s.token_price_usdt == price_usdt
            &&& s.daily_withdraw_limit == daily_withdraw_limit
            &&& s.last_withdraw_ts == now
            &&& s.withdrawn_today == 0
            &&& !s.paused
            &&& s.total_supply == 100_000_000_000_000
            &&& s.presale_supply == 10_000_000_000_000
            &&& s.reserved_supply == 90_000_000_000_000
            &&& s.released_from_reserve == 0
            &&& s.admin == ctx.admin
            &&& s.token_mint == ctx.token_mint
            &&& s.usdt_mint == ctx.usdt_mint
            &&& s.vault == ctx.vault.key
            &&& s.treasury == ctx.treasury.key
            &&& s.bump == ctx.state_bump
        }),
{
}

/// Which purchases go through, and what they hand out. With `count` the
/// whole tokens' smallest units that `usdt_amount` buys at the price,
/// `usdt_amount * 1_000_000 / price` rounded down and kept to its low 64
/// bits: a purchase is accepted exactly when the sale is not paused, the
/// payment and the price are not zero, `count` reaches the minimum, the
/// wallet's total with `count` stays within the cap, and the tranche in use
/// (the presale one until the end time, the released reserve after it)
/// holds `count`. An accepted purchase hands out exactly `count`, the full
/// amount the payment buys, and adds it to the wallet's total; a purchase
/// whose full count would take the wallet past the cap is refused as such.
pub proof fn purchase_hands_out_what_is_paid_for(ctx: BuyTokens, usdt_amount: u64, now: i64)
    ensures
        ({
            let price = ctx.state.token_price_usdt;
            let paid = usdt_amount * 1_000_000;
            let full = paid / (price as int);
            let count = full % 0x1_0000_0000_0000_0000;
            let total = ctx.user_purchase.total_bought + count;
            let tranche = if now <= ctx.state.presale_end_ts {
                ctx.state.presale_supply
            } else {
                ctx.state.released_from_reserve
            };
            &&& (buy_outcome(ctx, usdt_amount, now) is Ok <==> {
                &&& !ctx.state.paused
                &&& usdt_amount > 0
                &&& price > 0
                &&& count >= MIN_TOKENS_PER_BUY
                &&& total <= MAX_TOKENS_PER_WALLET
                &&& tranche >= count
            })
            &&& (buy_outcome(ctx, usdt_amount, now) is Ok ==> {
                let (next, purchase) = buy_outcome(ctx, usdt_amount, now)->Ok_0;
                &&& purchase.usdt_amount == usdt_amount
                &&& purchase.tokens == count
                &&& next.user_purchase.total_bought == total
                &&& next.user_purchase.buyer == if ctx.user_purchase.total_bought == 0 {
                    ctx.buyer
                } else {
                    ctx.user_purchase.buyer
                }
                &&& next.user_purchase.bump == if ctx.user_purchase.total_bought == 0 {
                    ctx.user_purchase_bump
                } else {
                    ctx.user_purchase.bump
                }
                &&& next.state == if now <= ctx.state.presale_end_ts {
                    PresaleState { presale_supply: (ctx.state.presale_supply - count) as u64, ..ctx.state }
                } else {
                    PresaleState {
                        released_from_reserve: (ctx.state.released_from_reserve - count) as u64,
                        ..ctx.state
                    }
                }
                &&& next.buyer == ctx.buyer
                &&& next.user_purchase_bump == ctx.user_purchase_bump
                &&& next.buyer_usdt == ctx.buyer_usdt
                &&& next.treasury_usdt == ctx.treasury_usdt
                &&& next.vault == ctx.vault
                &&& next.buyer_token == ctx.buyer_token
                &&& (full < 0x1_0000_0000_0000_0000 ==> purchase.tokens * price <= paid < (
                purchase.tokens + 1) * price)
            })
            &&& (!ctx.state.paused && usdt_amount > 0 && price > 0 && count >= MIN_TOKENS_PER_BUY
                && MAX_TOKENS_PER_WALLET < total <= u64::MAX ==> buy_outcome(ctx, usdt_amount, now)
                == Err::<(BuyTokens, crate::instructions::buy_tokens::Purchase), PresaleError>(
                PresaleError::WalletLimitExceeded,
            ))
        }),
{
    let price = ctx.state.token_price_usdt;
    let paid = usdt_amount * 1_000_000;
    if price > 0 {
        let full = paid / (price as int);
        assert(full * price <= paid < (full + 1) * price) by (nonlinear_arith)
            requires
                price > 0,
                paid >= 0,
                full == paid / (price as int),
        ;
        assert(0 <= full < 0x1_0000_0000_0000_0000 ==> full % 0x1_0000_0000_0000_0000 == full)
            by (nonlinear_arith);
        assert(tokens_for(usdt_amount, price) == full % 0x1_0000_0000_0000_0000) by (nonlinear_arith)
            requires
                full >= 0,
                full == usdt_amount * TOKEN_DECIMALS / (price as int),
                TOKEN_DECIMALS == 1_000_000,
                tokens_for(usdt_amount, price) == ((usdt_amount * TOKEN_DECIMALS / (price as int))
                    % 0x1_0000_0000_0000_0000) as u64,
        ;
    }
}

/// Which releases go through: exactly those by the admin, after the end
/// time, of an amount the reserve holds. An accepted one takes the amount
/// from the reserve and adds it to the released tranche, and changes
/// nothing else.
pub proof fn release_accepted_exactly_when_allowed(ctx: ReleaseFromReserve, amount: u64, now: i64)
    ensures
        release_outcome(ctx, amount, now) is Ok <==> ctx.admin == ctx.state.admin && now
            > ctx.state.presale_end_ts && ctx.state.reserved_supply >= amount,
        ctx.admin == ctx.state.admin && now > ctx.state.presale_end_ts
            && ctx.state.reserved_supply < amount ==> release_outcome(ctx, amount, now) == Err::<
            ReleaseFromReserve,
            PresaleError,
        >(PresaleError::InsufficientUnlockedReserve),
        release_outcome(ctx, amount, now) is Ok && ctx.state.released_from_reserve + amount
            <= u64::MAX ==> release_outcome(ctx, amount, now)->Ok_0 == (ReleaseFromReserve {
            state: PresaleState {
                reserved_supply: (ctx.state.reserved_supply - amount) as u64,
                released_from_reserve: (ctx.state.released_from_reserve + amount) as u64,
                ..ctx.state
            },
            ..ctx
        }),
{
}

/// Which price changes go through: exactly those by the admin while the
/// sale is not paused, at any time; an accepted one sets the price and
/// nothing else, and logs the old and new price with the signer and time.
pub proof fn price_change_accepted_exactly_when_allowed(
    ctx: UpdatePrice,
    new_price: u64,
    now: i64,
)
    ensures
        update_price_outcome(ctx, new_price, now) is Ok <==> !ctx.state.paused && ctx.admin
            == ctx.state.admin,
        !ctx.state.paused && ctx.admin == ctx.state.admin ==> update_price_outcome(
            ctx,
            new_price,
            now,
        ) == Ok::<(UpdatePrice, PriceUpdated), PresaleError>(
            (
                UpdatePrice {
                    state: PresaleState { token_price_usdt: new_price, ..ctx.state },
                    ..ctx
                },
                PriceUpdated {
                    admin: ctx.admin,
                    old_price: ctx.state.token_price_usdt,
                    new_price,
                    timestamp: now,
                },
            ),
        ),
{
}

/// The daily window, in terms of the time since it began. A non-zero
/// withdrawal the treasury covers is accepted:
/// - once 86,400 seconds or more have passed since the window began, however
///   many, exactly when the amount alone is within the daily limit; the
///   window then starts over at `now` with just this amount;
/// - before that, exactly when the window's total with the amount is within
///   the limit; the amount is then added to the window's total.
/// A refused one is refused for the limit; a zero amount, or one above the
/// treasury's balance, is refused as such first.
pub proof fn withdrawal_window_rules(ctx: WithdrawUsdt, amount: u64, now: i64)
    ensures
        ({
            let s = ctx.state;
            let elapsed = now - s.last_withdraw_ts;
            let covered = 0 < amount <= ctx.treasury.amount;
            let out = withdraw_outcome(ctx, amount, now);
            &&& (amount == 0 ==> out == Err::<
                (WithdrawUsdt, crate::instructions::withdraw_usdt::Withdrawal),
                PresaleError,
            >(PresaleError::InvalidAmount))
            &&& (amount > ctx.treasury.amount && amount > 0 ==> out == Err::<
                (WithdrawUsdt, crate::instructions::withdraw_usdt::Withdrawal),
                PresaleError,
            >(PresaleError::InsufficientTreasuryBalance))
            &&& (covered && elapsed >= 86_400 ==> (out is Ok <==> amount <= s.daily_withdraw_limit))
            &&& (covered && elapsed >= 86_400 && out is Ok ==> {
                let (next, w) = out->Ok_0;
                &&& next.state == PresaleState {
                    withdrawn_today: amount,
                    last_withdraw_ts: now,
                    ..s
                }
                &&& w.amount == amount
                &&& w.usdt_withdrawn == UsdtWithdrawn { admin: ctx.admin, amount, timestamp: now }
                &&& w.daily_withdraw == DailyWithdraw {
                    admin: ctx.admin,
                    amount,
                    withdrawn_today: amount,
                    timestamp: now,
                }
                &&& next == WithdrawUsdt { state: next.state, ..ctx }
            })
            &&& (covered && elapsed < 86_400 ==> (out is Ok <==> s.withdrawn_today + amount
                <= s.daily_withdraw_limit))
            &&& (covered && elapsed < 86_400 && out is Ok ==> {
                let (next, w) = out->Ok_0;
                &&& next.state.withdrawn_today == s.withdrawn_today + amount
                &&& next.state == PresaleState {
                    withdrawn_today: next.state.withdrawn_today,
                    ..s
                }
                &&& w.amount == amount
                &&& w.usdt_withdrawn == UsdtWithdrawn { admin: ctx.admin, amount, timestamp: now }
                &&& w.daily_withdraw == DailyWithdraw {
                    admin: ctx.admin,
                    amount,
                    withdrawn_today: next.state.withdrawn_today,
                    timestamp: now,
                }
                &&& next == WithdrawUsdt { state: next.state, ..ctx }
            })
            &&& (covered && out is Err ==> out == Err::<
                (WithdrawUsdt, crate::instructions::withdraw_usdt::Withdrawal),
                PresaleError,
            >(PresaleError::DailyWithdrawLimitExceeded))
        }),
{
}

/// The account checks of each instruction, stated on the keys themselves.
/// A new sale needs a vault of the sale token owned by the state account
/// and a USDT treasury owned by the admin. A purchase needs the buyer to pay
/// in USDT into the sale's treasury, and the tokens to come from the sale's
/// vault into an account of the sale token. Pausing and resuming need the
/// signer to be the state's admin. A withdrawal needs the signer to be the
/// admin, the treasury to be the sale's and the admin's, and the
/// destination to hold the treasury's mint and belong to the admin. A failed
/// signer link is reported as a `has_one` failure, any other as a raw one.
pub proof fn account_checks_are_exact(
    init: Initialize,
    buy: BuyTokens,
    pause: Pause,
    unpause: Unpause,
    withdraw: WithdrawUsdt,
)
    ensures
        init.constraint_failure() is None <==> {
            &&& init.vault.mint == init.token_mint
            &&& init.vault.owner == init.state_key
            &&& init.treasury.mint == init.usdt_mint
            &&& init.treasury.owner == init.admin
        },
        init.constraint_failure() is Some ==> init.constraint_failure() == Some(
            ConstraintError::ConstraintRaw,
        ),
        buy.constraint_failure() is None <==> {
            &&& buy.buyer_usdt.mint == buy.state.usdt_mint
            &&& buy.treasury_usdt.key == buy.state.treasury
            &&& buy.vault.key == buy.state.vault
            &&& buy.buyer_token.mint == buy.state.token_mint
        },
        buy.constraint_failure() is Some ==> buy.constraint_failure() == Some(
            ConstraintError::ConstraintRaw,
        ),
        pause.constraint_failure() == if pause.state.admin == pause.admin {
            None
        } else {
            Some(ConstraintError::ConstraintHasOne)
        },
        unpause.constraint_failure() == if unpause.state.admin == unpause.admin {
            None
        } else {
            Some(ConstraintError::ConstraintHasOne)
        },
        withdraw.constraint_failure() is None <==> {
            &&& withdraw.state.admin == withdraw.admin
            &&& withdraw.treasury.key == withdraw.state.treasury
            &&& withdraw.treasury.owner == withdraw.admin
            &&& withdraw.destination.mint == withdraw.treasury.mint
            &&& withdraw.destination.owner == withdraw.admin
        },
        withdraw.constraint_failure() is Some ==> withdraw.constraint_failure() == Some(
            if withdraw.state.admin != withdraw.admin {
                ConstraintError::ConstraintHasOne
            } else {
                ConstraintError::ConstraintRaw
            },
        ),
{
}

/// Pausing sets the pause flag and nothing else; resuming clears it and
/// nothing else.
pub proof fn pause_and_unpause_touch_only_the_flag(p: Pause, u: Unpause)
    ensures
        pause_outcome(p) == (Pause { state: PresaleState { paused: true, ..p.state }, admin: p.admin }),
        unpause_outcome(u) == (Unpause {
            state: PresaleState { paused: false, ..u.state },
            admin: u.admin,
        }),
{
}

/// A whole withdrawal instruction goes through only after its account
/// checks pass, and then does exactly what the withdrawal does.
pub proof fn checked_withdrawal_checks_first(ctx: WithdrawUsdt, amount: u64, now: i64)
    ensures
        checked_withdraw_outcome(ctx, amount, now) is Ok ==> {
            &&& ctx.state.admin == ctx.admin
            &&& ctx.treasury.key == ctx.state.treasury
            &&& ctx.treasury.owner == ctx.admin
            &&& ctx.destination.mint == ctx.treasury.mint
            &&& ctx.destination.owner == ctx.admin
            &&& checked_withdraw_outcome(ctx, amount, now)->Ok_0 == withdraw_outcome(
                ctx,
                amount,
                now,
            )->Ok_0
        },
        ctx.constraint_failure() is None ==> (checked_withdraw_outcome(ctx, amount, now) is Ok
            <==> withdraw_outcome(ctx, amount, now) is Ok),
        ctx.constraint_failure() is Some ==> checked_withdraw_outcome(ctx, amount, now)
            == Err::<(WithdrawUsdt, crate::instructions::withdraw_usdt::Withdrawal), InstructionError>(
            InstructionError::Constraint(ctx.constraint_failure()->0),
        ),
{
}

/// Why a purchase is refused, checked in this order: a paused sale, a zero
/// payment, a zero price, a count below the minimum, a wallet total past
/// the range of its counter, a wallet total past the cap, and a tranche
/// (the presale one until the end time, the released reserve after it)
/// that does not hold the count. `count` is `usdt_amount * 1_000_000 /
/// price` rounded down and kept to its low 64 bits.
pub proof fn purchase_refusal_reasons(ctx: BuyTokens, usdt_amount: u64, now: i64)
    ensures
        ({
            let s = ctx.state;
            let price = s.token_price_usdt;
            let count = (usdt_amount * 1_000_000 / (price as int)) % 0x1_0000_0000_0000_0000;
            let total = ctx.user_purchase.total_bought + count;
            let out = buy_outcome(ctx, usdt_amount, now);
            let refused = |e: PresaleError|
                out == Err::<(BuyTokens, crate::instructions::buy_tokens::Purchase), PresaleError>(
                    e,
                );
            &&& (s.paused ==> refused(PresaleError::PresalePaused))
            &&& (!s.paused && usdt_amount == 0 ==> refused(PresaleError::InvalidAmount))
            &&& (!s.paused && usdt_amount > 0 && price == 0 ==> refused(PresaleError::InvalidPrice))
            &&& (!s.paused && usdt_amount > 0 && price > 0 && count < MIN_TOKENS_PER_BUY ==> refused(
                PresaleError::BelowMinimum,
            ))
            &&& (!s.paused && usdt_amount > 0 && price > 0 && count >= MIN_TOKENS_PER_BUY && total
                > u64::MAX ==> refused(PresaleError::Overflow))
            &&& (!s.paused && usdt_amount > 0 && price > 0 && count >= MIN_TOKENS_PER_BUY && total
                <= MAX_TOKENS_PER_WALLET && now <= s.presale_end_ts && s.presale_supply < count
                ==> refused(PresaleError::InsufficientPresaleSupply))
            &&& (!s.paused && usdt_amount > 0 && price > 0 && count >= MIN_TOKENS_PER_BUY && total
                <= MAX_TOKENS_PER_WALLET && now > s.presale_end_ts && s.released_from_reserve
                < count ==> refused(PresaleError::InsufficientUnlockedReserve))
        }),
{
    let price = ctx.state.token_price_usdt;
    if price > 0 {
        assert(tokens_for(usdt_amount, price) == (usdt_amount * 1_000_000 / (price as int))
            % 0x1_0000_0000_0000_0000) by (nonlinear_arith)
            requires
                usdt_amount * 1_000_000 / (price as int) >= 0,
                TOKEN_DECIMALS == 1_000_000,
                tokens_for(usdt_amount, price) == ((usdt_amount * TOKEN_DECIMALS / (price as int))
                    % 0x1_0000_0000_0000_0000) as u64,
        ;
    }
}

} // verus!
