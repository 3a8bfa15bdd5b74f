use vstd::prelude::*;

use anchor_lang::prelude::Pubkey;

verus! {

/// Logged for a purchase.
#[derive(Clone, Copy, Debug, PartialEq, Eq)]
pub struct TokensPurchased {
    pub buyer: Pubkey,
    pub usdt_amount: u64,
    pub tokens_amount: u64,
    pub timestamp: i64,
}

/// Logged when USDT leaves the treasury.
#[derive(Clone, Copy, Debug, PartialEq, Eq)]
pub struct UsdtWithdrawn {
    pub admin: Pubkey,
    pub amount: u64,
    pub timestamp: i64,
}

/// Logged when sales are stopped.
#[derive(Clone, Copy, Debug, PartialEq, Eq)]
pub struct PresalePaused {
    pub admin: Pubkey,
    pub timestamp: i64,
}

/// Logged when sales resume.
#[derive(Clone, Copy, Debug, PartialEq, Eq)]
pub struct PresaleUnpaused {
    pub admin: Pubkey,
    pub timestamp: i64,
}

/// Logged when the admin sets a new price.
#[derive(Clone, Copy, Debug, PartialEq, Eq)]
pub struct PriceUpdated {
    pub admin: Pubkey,
    pub old_price: u64,
    pub new_price: u64,
    pub timestamp: i64,
}

/// Logged with each withdrawal, with the amount withdrawn in the current
/// window so far.
#[derive(Clone, Copy, Debug, PartialEq, Eq)]
pub struct DailyWithdraw {
    pub admin: Pubkey,
    pub amount: u64,
    pub withdrawn_today: u64,
    pub timestamp: i64,
}

} // verus!
