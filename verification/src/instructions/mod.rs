//! One module per instruction: the accounts it reads, its outcome as a spec
//! function, and the handler proved to compute that outcome.

pub mod buy_tokens;
pub mod initialize;
pub mod pause;
pub mod release_tokens;
pub mod unpause;
pub mod update_price;
pub mod withdraw_usdt;
