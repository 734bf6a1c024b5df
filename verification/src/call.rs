//! Identities, account references and encoded calls.

use vstd::prelude::*;

verus! {

/// An opaque handle that names a storage location or a service on the ledger.
#[derive(Clone, Copy, Debug, PartialEq, Eq, Hash)]
pub struct Identity {
    pub bytes: [u8; 32],
}

impl View for Identity {
    type V = Seq<u8>;

    open spec fn view(&self) -> Seq<u8> {
        self.bytes@
    }
}

/// An account handed to a delegated call, with what the call may do to it.
#[derive(Clone, Copy, Debug, PartialEq, Eq)]
pub struct AccountRef {
    pub identity: Identity,
    pub is_writable: bool,
    pub is_signing: bool,
}

impl AccountRef {
    /// A reference to an account that the call may write to.
    pub fn new(identity: Identity, is_signing: bool) -> (account: AccountRef)
        ensures
            account == (AccountRef { identity, is_writable: true, is_signing }),
    {
        AccountRef { identity, is_writable: true, is_signing }
    }
}

/// A request to another service: whom it is for, the accounts it names, in
/// the order in which the service indexes them, and its payload.
#[derive(Clone, Debug, PartialEq, Eq)]
pub struct EncodedCall {
    pub target: Identity,
    pub accounts: Vec<AccountRef>,
    pub payload: Vec<u8>,
}

/// What an [`EncodedCall`] holds, as mathematical sequences.
pub ghost struct CallModel {
    pub target: Identity,
    pub accounts: Seq<AccountRef>,
    pub payload: Seq<u8>,
}

impl View for EncodedCall {
    type V = CallModel;

    open spec fn view(&self) -> CallModel {
        CallModel { target: self.target, accounts: self.accounts@, payload: self.payload@ }
    }
}

} // verus!
