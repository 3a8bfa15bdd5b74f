use vstd::prelude::*;

use anchor_lang::prelude::Pubkey;

use crate::constants::WITHDRAW_WINDOW_SECS;
use crate::errors::{ConstraintError, InstructionError, PresaleError};
use crate::events::{DailyWithdraw, UsdtWithdrawn};
use crate::pubkey::keys_equal;
use crate::state::{PresaleState, TokenAccount};

verus! {

/// What a treasury withdrawal reads and writes.
#[derive(Clone, Copy, Debug, PartialEq, Eq)]
pub struct WithdrawUsdt {
    pub state: PresaleState,
    /// The signer of the instruction.
    pub admin: Pubkey,
    /// The USDT account the sale's proceeds were paid into.
    pub treasury: TokenAccount,
    /// Where the withdrawn USDT goes.
    pub destination: TokenAccount,
}

/// The transfer an accepted withdrawal makes, `amount` from the treasury to
/// the destination, and the two events it logs.
#[derive(Clone, Copy, Debug, PartialEq, Eq)]
pub struct Withdrawal {
    pub amount: u64,
    pub usdt_withdrawn: UsdtWithdrawn,
    pub daily_withdraw: DailyWithdraw,
}

impl WithdrawUsdt {
    /// The first account check that fails, in the order the accounts are
    /// declared: the state must name the signer as admin, the treasury must be
    /// the state's and the signer's, and the destination must hold the same
    /// mint and belong to the signer.
    pub open spec fn constraint_failure(self) -> Option<ConstraintError> {
        if self.state.admin != self.admin {
            Some(ConstraintError::ConstraintHasOne)
        } else if self.treasury.key != self.state.treasury {
            Some(ConstraintError::ConstraintRaw)
        } else if self.treasury.owner != self.admin {
            Some(ConstraintError::ConstraintRaw)
        } else if self.destination.mint != self.treasury.mint {
            Some(ConstraintError::ConstraintRaw)
        } else if self.destination.owner != self.admin {
            Some(ConstraintError::ConstraintRaw)
        } else {
            None
        }
    }

    /// The account checks made before the instruction runs.
    pub fn check_accounts(&self) -> (r: Result<(), ConstraintError>)
        ensures
            r == (match self.constraint_failure() {
                Some(e) => Err(e),
                None => Ok::<(), ConstraintError>(()),
            }),
    {
        if !keys_equal(&self.state.admin, &self.admin) {
            return Err(ConstraintError::ConstraintHasOne);
        }
        if !keys_equal(&self.treasury.key, &self.state.treasury) {
            return Err(ConstraintError::ConstraintRaw);
        }
        if !keys_equal(&self.treasury.owner, &self.admin) {
            return Err(ConstraintError::ConstraintRaw);
        }
        if !keys_equal(&self.destination.mint, &self.treasury.mint) {
            return Err(ConstraintError::ConstraintRaw);
        }
        if !keys_equal(&self.destination.owner, &self.admin) {
            return Err(ConstraintError::ConstraintRaw);
        }
        Ok(())
    }
}

/// Whether the window of the last withdrawal has run out by `now`.
pub open spec fn window_expired(state: PresaleState, now: i64) -> bool {
    now - state.last_withdraw_ts >= WITHDRAW_WINDOW_SECS
}

/// What was withdrawn in the window that holds `now`, before this withdrawal.
pub open spec fn withdrawn_in_window(state: PresaleState, now: i64) -> int {
    if window_expired(state, now) {
        0
    } else {
        state.withdrawn_today as int
    }
}

/// Whether the checks before the window arithmetic pass.
pub open spec fn withdraw_reaches_window(ctx: WithdrawUsdt, amount: u64) -> bool {
    amount > 0 && ctx.treasury.amount >= amount
}

/// Whether a withdrawal aborts in its arithmetic: the time since the window
/// began, or the window's total with this amount, falls outside its type.
pub open spec fn withdraw_overflows(ctx: WithdrawUsdt, amount: u64, now: i64) -> bool {
    withdraw_reaches_window(ctx, amount) && {
        ||| now - ctx.state.last_withdraw_ts < i64::MIN
        ||| now - ctx.state.last_withdraw_ts > i64::MAX
        ||| withdrawn_in_window(ctx.state, now) + amount > u64::MAX
    }
}

/// Whether withdrawing `amount` at `now` would abort in its arithmetic; the
/// caller stops the instruction there, as the overflow checks do.
pub fn withdraw_aborts(ctx: &WithdrawUsdt, amount: u64, now: i64) -> (r: bool)
    ensures
        r == withdraw_overflows(*ctx, amount, now),
{
    if !(amount > 0 && ctx.treasury.amount >= amount) {
        return false;
    }
    let elapsed: i128 = now as i128 - ctx.state.last_withdraw_ts as i128;
    if elapsed < i64::MIN as i128 || elapsed > i64::MAX as i128 {
        return true;
    }
    let window_total: u64 = if elapsed >= WITHDRAW_WINDOW_SECS as i128 {
        0
    } else {
        ctx.state.withdrawn_today
    };
    window_total.checked_add(amount).is_none()
}

/// The outcome of withdrawing `amount` USDT at `now`: refused for a zero
/// amount, an amount above the treasury's balance, or one that would take
/// the window's total past the daily limit; else the window starts over at
/// `now` when a day has passed since it began, the amount is added to it, and
/// the withdrawal is logged.
pub open spec fn withdraw_outcome(ctx: WithdrawUsdt, amount: u64, now: i64) -> Result<
    (WithdrawUsdt, Withdrawal),
    PresaleError,
> {
    let state = ctx.state;
    if amount == 0 {
        Err(PresaleError::InvalidAmount)
    } else if ctx.treasury.amount < amount {
        Err(PresaleError::InsufficientTreasuryBalance)
    } else {
        let total = withdrawn_in_window(state, now) + amount;
        if total > state.daily_withdraw_limit {
            Err(PresaleError::DailyWithdrawLimitExceeded)
        } else {
            let state_after = PresaleState {
                withdrawn_today: total as u64,
                last_withdraw_ts: if window_expired(state, now) {
                    now
                } else {
                    state.last_withdraw_ts
                },
                ..state
            };
            Ok(
                (
                    WithdrawUsdt { state: state_after, ..ctx },
                    Withdrawal {
                        amount,
                        usdt_withdrawn: UsdtWithdrawn { admin: ctx.admin, amount, timestamp: now },
                        daily_withdraw: DailyWithdraw {
                            admin: ctx.admin,
                            amount,
                            withdrawn_today: total as u64,
                            timestamp: now,
                        },
                    },
                ),
            )
        }
    }
}

/// Withdraws `amount` USDT from the treasury within the daily limit.
///
/// All checks come before any write, so a refused withdrawal leaves the
/// accounts as they were, as the runtime's rollback of a failed instruction
/// does.
pub fn withdraw_usdt(ctx: &mut WithdrawUsdt, amount: u64, now: i64) -> (r: Result<
    Withdrawal,
    PresaleError,
>)
    requires
        !withdraw_overflows(*old(ctx), amount, now),
    ensures
        match withdraw_outcome(*old(ctx), amount, now) {
            Ok((next, withdrawal)) => r == Ok::<Withdrawal, PresaleError>(withdrawal)
                && *final(ctx) == next,
            Err(e) => r == Err::<Withdrawal, PresaleError>(e) && *final(ctx) == *old(ctx),
        },
{
    if !(amount > 0) {
        return Err(PresaleError::InvalidAmount);
    }
    if !(ctx.treasury.amount >= amount) {
        return Err(PresaleError::InsufficientTreasuryBalance);
    }
    let expired = now - ctx.state.last_withdraw_ts >= WITHDRAW_WINDOW_SECS;
    let window_total: u64 = if expired {
        0
    } else {
        ctx.state.withdrawn_today
    };
    if !(window_total + amount <= ctx.state.daily_withdraw_limit) {
        return Err(PresaleError::DailyWithdrawLimitExceeded);
    }
    let withdrawn_today: u64 = match window_total.checked_add(amount) {
        Some(t) => t,
        None => {
            return Err(PresaleError::Overflow);
        },
    };
    if expired {
        ctx.state.last_withdraw_ts = now;
    }
    ctx.state.withdrawn_today = withdrawn_today;
    Ok(
        Withdrawal {
            amount,
            usdt_withdrawn: UsdtWithdrawn { admin: ctx.admin, amount, timestamp: now },
            daily_withdraw: DailyWithdraw {
                admin: ctx.admin,
                amount,
                withdrawn_today,
                timestamp: now,
            },
        },
    )
}

/// The outcome of the whole withdrawal instruction: the account checks, then
/// the withdrawal itself.
pub open spec fn checked_withdraw_outcome(ctx: WithdrawUsdt, amount: u64, now: i64) -> Result<
    (WithdrawUsdt, Withdrawal),
    InstructionError,
> {
    match ctx.constraint_failure() {
        Some(e) => Err(InstructionError::Constraint(e)),
        None => match withdraw_outcome(ctx, amount, now) {
            Ok(done) => Ok(done),
            Err(e) => Err(InstructionError::Presale(e)),
        },
    }
}

/// Makes the withdrawal's account checks, then withdraws `amount` USDT.
pub fn checked_withdraw_usdt(ctx: &mut WithdrawUsdt, amount: u64, now: i64) -> (r: Result<
    Withdrawal,
    InstructionError,
>)
    requires
        old(ctx).constraint_failure() is None ==> !withdraw_overflows(*old(ctx), amount, now),
    ensures
        match checked_withdraw_outcome(*old(ctx), amount, now) {
            Ok((next, withdrawal)) => r == Ok::<Withdrawal, InstructionError>(withdrawal)
                && *final(ctx) == next,
            Err(e) => r == Err::<Withdrawal, InstructionError>(e) && *final(ctx) == *old(ctx),
        },
{
    if let Err(e) = ctx.check_accounts() {
        return Err(InstructionError::Constraint(e));
    }
    match withdraw_usdt(ctx, amount, now) {
        Ok(withdrawal) => Ok(withdrawal),
        Err(e) => Err(InstructionError::Presale(e)),
    }
}

} // verus!
