//! A stored counter and the operation that resets it. Creating a tree does
//! not read it.

use crate::call::Identity;
use crate::failure::TreeInitializationFailure;
use vstd::prelude::*;

verus! {

/// A single stored number.
#[derive(Clone, Copy, Debug, PartialEq, Eq)]
pub struct Counter {
    pub count: u64,
}

/// What resetting the counter works on: the counter, and the identities of
/// who pays and of the ledger's allocation service.
#[derive(Clone, Copy, Debug, PartialEq, Eq)]
pub struct Initialize {
    pub counter: Counter,
    pub payer: Identity,
    pub system_program: Identity,
}

/// Sets the stored counter to zero and leaves everything else as it was.
/// It never fails.
pub fn initialize(accounts: &mut Initialize) -> (done: Result<(), TreeInitializationFailure>)
    ensures
        done is Ok,
        *final(accounts) == (Initialize { counter: Counter { count: 0 }, ..*old(accounts) }),
{
    accounts.counter.count = 0;
    Ok(())
}

} // verus!
