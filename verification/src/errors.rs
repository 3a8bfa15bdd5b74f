use vstd::prelude::*;

verus! {

/// The errors the program answers with, numbered from 6000 in this order.
#[derive(Clone, Copy, Debug, PartialEq, Eq, Structural)]
pub enum PresaleError {
    PresaleEnded,
    InsufficientPresaleSupply,
    InsufficientUnlockedReserve,
    Unauthorized,
    InvalidAmount,
    WalletLimitExceeded,
    BelowMinimum,
    Overflow,
    InvalidPrice,
    InsufficientTreasuryBalance,
    PresalePaused,
    DailyWithdrawLimitExceeded,
}

/// First number of the program's own errors; those below it belong to the
/// framework.
pub const ERROR_CODE_OFFSET: u32 = 6000;

/// Position of an error in the declaration of `PresaleError`.
pub open spec fn error_index(e: PresaleError) -> u32 {
    match e {
        PresaleError::PresaleEnded => 0,
        PresaleError::InsufficientPresaleSupply => 1,
        PresaleError::InsufficientUnlockedReserve => 2,
        PresaleError::Unauthorized => 3,
        PresaleError::InvalidAmount => 4,
        PresaleError::WalletLimitExceeded => 5,
        PresaleError::BelowMinimum => 6,
        PresaleError::Overflow => 7,
        PresaleError::InvalidPrice => 8,
        PresaleError::InsufficientTreasuryBalance => 9,
        PresaleError::PresalePaused => 10,
        PresaleError::DailyWithdrawLimitExceeded => 11,
    }
}

/// The message each error is reported with.
pub open spec fn error_message(e: PresaleError) -> Seq<char> {
    match e {
        PresaleError::PresaleEnded => "Presale has ended"@,
        PresaleError::InsufficientPresaleSupply => "Insufficient presale supply"@,
        PresaleError::InsufficientUnlockedReserve => "Insufficient unlocked reserve"@,
        PresaleError::Unauthorized => "Unauthorized"@,
        PresaleError::InvalidAmount => "Invalid amount"@,
        PresaleError::WalletLimitExceeded => "Wallet purchase limit exceeded"@,
        PresaleError::BelowMinimum => "Purchase below minimum"@,
        PresaleError::Overflow => "Math overflow"@,
        PresaleError::InvalidPrice => "Invalid price"@,
        PresaleError::InsufficientTreasuryBalance => "Insufficient treasury balance"@,
        PresaleError::PresalePaused => "Presale is paused"@,
        PresaleError::DailyWithdrawLimitExceeded => "Daily withdraw limit exceeded"@,
    }
}

impl PresaleError {
    /// The error number reported to clients: the offset plus the position.
    pub fn code(&self) -> (c: u32)
        ensures
            c == ERROR_CODE_OFFSET + error_index(*self),
    {
        let index: u32 = match self {
            PresaleError::PresaleEnded => 0,
            PresaleError::InsufficientPresaleSupply => 1,
            PresaleError::InsufficientUnlockedReserve => 2,
            PresaleError::Unauthorized => 3,
            PresaleError::InvalidAmount => 4,
            PresaleError::WalletLimitExceeded => 5,
            PresaleError::BelowMinimum => 6,
            PresaleError::Overflow => 7,
            PresaleError::InvalidPrice => 8,
            PresaleError::InsufficientTreasuryBalance => 9,
            PresaleError::PresalePaused => 10,
            PresaleError::DailyWithdrawLimitExceeded => 11,
        };
        ERROR_CODE_OFFSET + index
    }

    /// The human-readable message of the error.
    pub fn message(&self) -> (m: &'static str)
        ensures
            m@ == error_message(*self),
    {
        match self {
            PresaleError::PresaleEnded => "Presale has ended",
            PresaleError::InsufficientPresaleSupply => "Insufficient presale supply",
            PresaleError::InsufficientUnlockedReserve => "Insufficient unlocked reserve",
            PresaleError::Unauthorized => "Unauthorized",
            PresaleError::InvalidAmount => "Invalid amount",
            PresaleError::WalletLimitExceeded => "Wallet purchase limit exceeded",
            PresaleError::BelowMinimum => "Purchase below minimum",
            PresaleError::Overflow => "Math overflow",
            PresaleError::InvalidPrice => "Invalid price",
            PresaleError::InsufficientTreasuryBalance => "Insufficient treasury balance",
            PresaleError::PresalePaused => "Presale is paused",
            PresaleError::DailyWithdrawLimitExceeded => "Daily withdraw limit exceeded",
        }
    }
}

/// Account checks that the framework makes before an instruction runs.
#[derive(Clone, Copy, Debug, PartialEq, Eq, Structural)]
pub enum ConstraintError {
    /// A `has_one` link between two accounts does not hold.
    ConstraintHasOne,
    /// A written-out constraint on an account does not hold.
    ConstraintRaw,
}

/// What an instruction can fail with: a failed account check, or one of the
/// program's own errors.
#[derive(Clone, Copy, Debug, PartialEq, Eq, Structural)]
pub enum InstructionError {
    Constraint(ConstraintError),
    Presale(PresaleError),
}

} // verus!
