use vstd::prelude::*;

use anchor_lang::prelude::Pubkey;

use crate::errors::{ConstraintError, InstructionError, PresaleError};
use crate::pubkey::keys_equal;
use crate::state::PresaleState;

verus! {

/// What stopping sales reads and writes.
#[derive(Clone, Copy, Debug, PartialEq, Eq)]
pub struct Pause {
    pub state: PresaleState,
    /// The signer of the instruction.
    pub admin: Pubkey,
}

impl Pause {
    /// The account check made before the instruction runs fails unless the
    /// state names the signer as its admin.
    pub open spec fn constraint_failure(self) -> Option<ConstraintError> {
        if self.state.admin != self.admin {
            Some(ConstraintError::ConstraintHasOne)
        } else {
            None
        }
    }

    /// The account check made before the instruction runs.
    pub fn check_accounts(&self) -> (r: Result<(), ConstraintError>)
        ensures
            r == (match self.constraint_failure() {
                Some(e) => Err(e),
                None => Ok::<(), ConstraintError>(()),
            }),
    {
        if keys_equal(&self.state.admin, &self.admin) {
            Ok(())
        } else {
            Err(ConstraintError::ConstraintHasOne)
        }
    }
}

/// The accounts after stopping sales: the same, with the pause flag set.
pub open spec fn pause_outcome(ctx: Pause) -> Pause {
    Pause { state: PresaleState { paused: true, ..ctx.state }, ..ctx }
}

/// Stops sales and price changes.
pub fn pause(ctx: &mut Pause) -> (r: Result<(), PresaleError>)
    ensures
        r == Ok::<(), PresaleError>(()),
        *final(ctx) == pause_outcome(*old(ctx)),
{
    ctx.state.paused = true;
    Ok(())
}

/// Makes the account check, then stops sales: refused, with nothing changed,
/// unless the signer is the admin.
pub fn checked_pause(ctx: &mut Pause) -> (r: Result<(), InstructionError>)
    ensures
        match old(ctx).constraint_failure() {
            Some(e) => r == Err::<(), InstructionError>(InstructionError::Constraint(e))
                && *final(ctx) == *old(ctx),
            None => r == Ok::<(), InstructionError>(()) && *final(ctx) == pause_outcome(*old(ctx)),
        },
{
    if let Err(e) = ctx.check_accounts() {
        return Err(InstructionError::Constraint(e));
    }
    match pause(ctx) {
        Ok(()) => Ok(()),
        Err(e) => Err(InstructionError::Presale(e)),
    }
}

} // verus!
