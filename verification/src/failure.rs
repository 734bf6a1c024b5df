//! The ways in which creating a tree fails, and the check that gates it.

use anchor_lang::solana_program::program_error::ProgramError;
use vstd::prelude::*;

verus! {

/// The error with which a delegated call comes back. The library never looks
/// inside a value of this type: it hands the value on as it received it.
#[verifier::external_type_specification]
#[verifier::external_body]
pub struct ExProgramError(ProgramError);

/// Why a tree was not created.
#[derive(Debug, PartialEq, Eq)]
pub enum TreeInitializationFailure {
    /// The requesting party holds less than the minimum balance. Found
    /// before any call is issued.
    InsufficientFunds,
    /// The ledger refused to allocate the account for the tree's state. Holds
    /// the error of that call, unchanged.
    AllocationFailed(ProgramError),
    /// The tree engine refused to initialise the tree, or the call to it
    /// failed. Holds the error of that call, unchanged.
    DelegatedCallFailed(ProgramError),
}

/// Checks that a spendable balance reaches the minimum that creating a tree
/// asks for. Nothing but the two numbers is compared.
pub fn validate_balance(balance: u64, minimum: u64) -> (checked: Result<
    (),
    TreeInitializationFailure,
>)
    ensures
        balance >= minimum ==> checked is Ok,
        balance < minimum ==> checked == Err::<(), _>(TreeInitializationFailure::InsufficientFunds),
{
    if balance < minimum {
        Err(TreeInitializationFailure::InsufficientFunds)
    } else {
        Ok(())
    }
}

} // verus!
