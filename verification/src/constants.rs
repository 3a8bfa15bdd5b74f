use vstd::prelude::*;

verus! {

/// Smallest token units per whole token.
pub const TOKEN_DECIMALS: u64 = 1_000_000;

/// Lifetime cap of tokens one wallet may buy, in smallest units.
pub const MAX_TOKENS_PER_WALLET: u64 = 50_000 * TOKEN_DECIMALS;

/// Smallest purchase, in smallest token units.
pub const MIN_TOKENS_PER_BUY: u64 = 10 * TOKEN_DECIMALS;

/// Every token that will ever exist, minted once at initialization.
pub const TOTAL_SUPPLY: u64 = 100_000_000 * TOKEN_DECIMALS;

/// Length of the window after which the daily withdrawal count starts over.
pub const WITHDRAW_WINDOW_SECS: i64 = 86_400;

} // verus!
