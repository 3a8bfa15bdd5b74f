//! A token presale program: a fixed supply split into a presale tranche and a
//! reserve, sold for USDT at an admin-set price with a per-wallet cap, plus a
//! treasury withdrawal limited per day.
//!
//! Every instruction is a function from the accounts it reads (and the
//! current time, where it needs one) to either the updated accounts and the
//! transfers to perform, or the error the program answers with. A refused
//! instruction leaves every account as it was.

pub mod constants;
pub mod errors;
pub mod events;
pub mod instructions;
pub mod pubkey;
pub mod state;
pub mod token_presale;
pub mod laws;
