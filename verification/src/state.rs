use vstd::prelude::*;

use anchor_lang::prelude::Pubkey;

verus! {

/// The program's one global account.
#[derive(Clone, Copy, Debug, PartialEq, Eq)]
pub struct PresaleState {
    pub admin: Pubkey,
    pub token_mint: Pubkey,
    pub usdt_mint: Pubkey,
    pub vault: Pubkey,
    pub treasury: Pubkey,
    pub total_supply: u64,
    /// Tokens still for sale until the presale ends.
    pub presale_supply: u64,
    /// Tokens locked until the admin releases them.
    pub reserved_supply: u64,
    /// Released tokens, for sale once the presale has ended.
    pub released_from_reserve: u64,
    /// Smallest USDT units per whole token.
    pub token_price_usdt: u64,
    pub presale_end_ts: i64,
    pub paused: bool,
    pub daily_withdraw_limit: u64,
    /// USDT withdrawn since `last_withdraw_ts`.
    pub withdrawn_today: u64,
    /// Start of the current withdrawal window.
    pub last_withdraw_ts: i64,
    pub bump: u8,
}

/// What one wallet has bought.
#[derive(Clone, Copy, Debug, PartialEq, Eq)]
pub struct UserPurchase {
    pub buyer: Pubkey,
    /// In smallest token units.
    pub total_bought: u64,
    pub bump: u8,
}

impl PresaleState {
    /// Tokens that are still the program's to sell or release.
    pub open spec fn unsold(self) -> int {
        self.presale_supply + self.reserved_supply + self.released_from_reserve
    }

    /// What every reachable state satisfies: the tranches never hold more
    /// than was minted, and the window's withdrawals stay within the limit.
    pub open spec fn consistent(self) -> bool {
        &&& self.unsold() <= self.total_supply
        &&& self.withdrawn_today <= self.daily_withdraw_limit
    }
}

/// The plain view of a token account that the program reads.
#[derive(Clone, Copy, Debug, PartialEq, Eq)]
pub struct TokenAccount {
    /// The account's own address.
    pub key: Pubkey,
    pub mint: Pubkey,
    pub owner: Pubkey,
    pub amount: u64,
}

} // verus!
