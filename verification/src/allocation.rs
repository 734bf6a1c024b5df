//! The call that asks the ledger to allocate the account for a tree's state.

use crate::call::{AccountRef, CallModel, EncodedCall, Identity};
use crate::config::TreeConfig;
use crate::request::CreateTree;
use anchor_lang::solana_program::pubkey::Pubkey;
use anchor_lang::solana_program::system_instruction;
use vstd::prelude::*;

verus! {

/// The payload with which the ledger's allocation service is asked to create
/// an account: the funding in lamports, the size in bytes and the bytes of
/// the owner's identity, in the service's own encoding.
pub uninterp spec fn create_account_data(lamports: u64, space: u64, owner: Seq<u8>) -> Seq<u8>;

/// The bytes of the identity of the ledger's allocation service.
pub const ALLOCATION_SERVICE_ID: [u8; 32] = [
    0, 0, 0, 0, 0, 0, 0, 0, 0, 0, 0, 0, 0, 0, 0, 0,
    0, 0, 0, 0, 0, 0, 0, 0, 0, 0, 0, 0, 0, 0, 0, 0,
];

/// The identity of the ledger's allocation service: thirty-two zero bytes.
pub open spec fn allocation_service() -> Identity {
    Identity { bytes: ALLOCATION_SERVICE_ID }
}

/// The call that allocates the account for a tree's state: paid for by the
/// payer, funded with the minimum balance, of the configured size and owned
/// by the tree engine, so that only the engine may write to it later.
pub open spec fn allocation_call(request: CreateTree, config: TreeConfig) -> CallModel {
    CallModel {
        target: allocation_service(),
        accounts: seq![
            AccountRef { identity: request.payer, is_writable: true, is_signing: true },
            AccountRef { identity: request.new_account, is_writable: true, is_signing: true },
        ],
        payload: create_account_data(
            config.minimum_lamports,
            config.space,
            request.compression_program@,
        ),
    }
}

/// Calls `system_instruction::create_account` of `anchor_lang::solana_program`
/// and copies the instruction that it returns, field by field. Believed of
/// it, not proved: the instruction is addressed to the system program, whose
/// address is thirty-two zero bytes; it names the funding account and then
/// the new account, both writable and signing; and its data depends on the
/// funding, the size and the owner alone.
#[verifier::external_body]
fn system_create_account(
    from: &Identity,
    to: &Identity,
    lamports: u64,
    space: u64,
    owner: &Identity,
) -> (call: EncodedCall)
    ensures
        call.target == allocation_service(),
        call.accounts@ == seq![
            AccountRef { identity: *from, is_writable: true, is_signing: true },
            AccountRef { identity: *to, is_writable: true, is_signing: true },
        ],
        call.payload@ == create_account_data(lamports, space, owner@),
{
    let from_key = Pubkey::new_from_array(from.bytes);
    let to_key = Pubkey::new_from_array(to.bytes);
    let owner_key = Pubkey::new_from_array(owner.bytes);
    let ix = system_instruction::create_account(&from_key, &to_key, lamports, space, &owner_key);
    let mut accounts = Vec::new();
    for meta in ix.accounts.iter() {
        let identity = Identity { bytes: meta.pubkey.to_bytes() };
        accounts.push(AccountRef { identity, is_writable: meta.is_writable, is_signing: meta.is_signer });
    }
    EncodedCall { target: Identity { bytes: ix.program_id.to_bytes() }, accounts, payload: ix.data }
}

/// The identities whose live accounts go with the allocation call: the new
/// account, the payer and the allocation service.
pub open spec fn allocation_handle_ids(request: CreateTree) -> Seq<Identity> {
    seq![request.new_account, request.payer, request.system_program]
}

/// Lists the identities whose live accounts go with the allocation call.
pub fn allocation_handles(request: &CreateTree) -> (handles: Vec<Identity>)
    ensures
        handles@ == allocation_handle_ids(*request),
{
    let mut handles: Vec<Identity> = Vec::with_capacity(3);
    handles.push(request.new_account);
    handles.push(request.payer);
    handles.push(request.system_program);
    assert(handles@ =~= allocation_handle_ids(*request));
    handles
}

/// Builds the call that asks the ledger to allocate the account for the
/// tree's state. Nothing is sent: the call is a value.
pub fn build_allocation_call(request: &CreateTree, config: &TreeConfig) -> (call: EncodedCall)
    ensures
        call@ == allocation_call(*request, *config),
{
    system_create_account(
        &request.payer,
        &request.new_account,
        config.minimum_lamports,
        config.space,
        &request.compression_program,
    )
}

} // verus!
