//! The request to create a tree, and the call to the tree engine built from it.

use crate::call::{AccountRef, CallModel, EncodedCall, Identity};
use crate::config::TreeConfig;
use crate::payload::{encode_payload, payload_bytes};
use vstd::prelude::*;

verus! {

/// The identities that take part in creating one tree. The caller supplies
/// all of them; who owns which account is left to the services to enforce.
#[derive(Clone, Copy, Debug, PartialEq, Eq)]
pub struct CreateTree {
    /// The account to allocate for the tree's state.
    pub new_account: Identity,
    /// Who pays for the new account.
    pub payer: Identity,
    /// The ledger's allocation service.
    pub system_program: Identity,
    /// The authority over the tree.
    pub tree_authority: Identity,
    /// The account in which the tree engine stores the tree.
    pub merkle_tree: Identity,
    /// The requesting party.
    pub tree_creator: Identity,
    /// The logging service.
    pub log_wrapper: Identity,
    /// The tree engine.
    pub compression_program: Identity,
}

/// The accounts of the call that creates a tree. The tree engine finds an
/// account by its position, so the order is part of the contract.
pub open spec fn tree_init_account_refs(request: CreateTree) -> Seq<AccountRef> {
    seq![
        AccountRef { identity: request.tree_authority, is_writable: true, is_signing: false },
        AccountRef { identity: request.merkle_tree, is_writable: true, is_signing: true },
        AccountRef { identity: request.payer, is_writable: true, is_signing: true },
        AccountRef { identity: request.tree_creator, is_writable: true, is_signing: false },
        AccountRef { identity: request.log_wrapper, is_writable: true, is_signing: false },
        AccountRef { identity: request.compression_program, is_writable: true, is_signing: false },
    ]
}

/// The call that asks the tree engine to create a tree.
pub open spec fn tree_init_call(request: CreateTree, config: TreeConfig) -> CallModel {
    CallModel {
        target: request.compression_program,
        accounts: tree_init_account_refs(request),
        payload: payload_bytes(config.discriminator, config.params),
    }
}

/// The identities whose live accounts go with the call that creates a
/// tree: those that the call names, in the same order.
pub open spec fn tree_init_handle_ids(request: CreateTree) -> Seq<Identity> {
    seq![
        request.tree_authority,
        request.merkle_tree,
        request.payer,
        request.tree_creator,
        request.log_wrapper,
        request.compression_program,
    ]
}

/// Lists the identities whose live accounts go with the call that creates a
/// tree.
pub fn tree_init_handles(request: &CreateTree) -> (handles: Vec<Identity>)
    ensures
        handles@ == tree_init_handle_ids(*request),
{
    let mut handles: Vec<Identity> = Vec::with_capacity(6);
    handles.push(request.tree_authority);
    handles.push(request.merkle_tree);
    handles.push(request.payer);
    handles.push(request.tree_creator);
    handles.push(request.log_wrapper);
    handles.push(request.compression_program);
    assert(handles@ =~= tree_init_handle_ids(*request));
    handles
}

/// Lists the accounts of the call that creates a tree, in the order in which
/// the tree engine indexes them.
pub fn tree_init_accounts(request: &CreateTree) -> (accounts: Vec<AccountRef>)
    ensures
        accounts@ == tree_init_account_refs(*request),
{
    let mut accounts: Vec<AccountRef> = Vec::with_capacity(6);
    accounts.push(AccountRef::new(request.tree_authority, false));
    accounts.push(AccountRef::new(request.merkle_tree, true));
    accounts.push(AccountRef::new(request.payer, true));
    accounts.push(AccountRef::new(request.tree_creator, false));
    accounts.push(AccountRef::new(request.log_wrapper, false));
    accounts.push(AccountRef::new(request.compression_program, false));
    assert(accounts@ =~= tree_init_account_refs(*request));
    accounts
}

/// Builds the call that asks the tree engine to create a tree. Nothing is
/// sent: the call is a value.
pub fn build_tree_init_call(request: &CreateTree, config: &TreeConfig) -> (call: EncodedCall)
    ensures
        call@ == tree_init_call(*request, *config),
{
    EncodedCall {
        target: request.compression_program,
        accounts: tree_init_accounts(request),
        payload: encode_payload(&config.discriminator, &config.params),
    }
}

} // verus!
