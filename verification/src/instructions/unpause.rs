use vstd::prelude::*;

use anchor_lang::prelude::Pubkey;

use crate::errors::{ConstraintError, InstructionError, PresaleError};
use crate::pubkey::keys_equal;
use crate::state::PresaleState;

verus! {

/// What resuming sales reads and writes.
#[derive(Clone, Copy, Debug, PartialEq, Eq)]
pub struct Unpause {
    pub state: PresaleState,
    /// The signer of the instruction.
    pub admin: Pubkey,
}

impl Unpause {
    /// The account check made before the instruction runs fails unless the
    /// state names the signer as its admin.
    pub open spec fn constraint_failure(self) -> Option<ConstraintError> {
        if self.state.admin != self.admin {
            Some(ConstraintError::ConstraintHasOne)
        } else {
            None
        }
    }

    /// The account check made before the instruction runs.
    pub fn check_accounts(&self) -> (r: Result<(), ConstraintError>)
        ensures
            r == (match self.constraint_failure() {
                Some(e) => Err(e),
                None => Ok::<(), ConstraintError>(()),
            }),
    {
        if keys_equal(&self.state.admin, &self.admin) {
            Ok(())
        } else {
            Err(ConstraintError::ConstraintHasOne)
        }
    }
}

/// The accounts after resuming sales: the same, with the pause flag cleared.
pub open spec fn unpause_outcome(ctx: Unpause) -> Unpause {
    Unpause { state: PresaleState { paused: false, ..ctx.state }, ..ctx }
}

/// Lets sales and price changes resume.
pub fn unpause(ctx: &mut Unpause) -> (r: Result<(), PresaleError>)
    ensures
        r == Ok::<(), PresaleError>(()),
        *final(ctx) == unpause_outcome(*old(ctx)),
{
    ctx.state.paused = false;
    Ok(())
}

/// Makes the account check, then lets sales resume: refused, with nothing changed,
/// unless the signer is the admin.
pub fn checked_unpause(ctx: &mut Unpause) -> (r: Result<(), InstructionError>)
    ensures
        match old(ctx).constraint_failure() {
            Some(e) => r == Err::<(), InstructionError>(InstructionError::Constraint(e))
                && *final(ctx) == *old(ctx),
            None => r == Ok::<(), InstructionError>(()) && *final(ctx) == unpause_outcome(*old(ctx)),
        },
{
    if let Err(e) = ctx.check_accounts() {
        return Err(InstructionError::Constraint(e));
    }
    match unpause(ctx) {
        Ok(()) => Ok(()),
        Err(e) => Err(InstructionError::Presale(e)),
    }
}

} // verus!
