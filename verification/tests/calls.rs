use anchor_lang::solana_program::instruction::AccountMeta;
use anchor_lang::solana_program::pubkey::Pubkey;
use anchor_lang::solana_program::system_instruction;
use tree::allocation::{allocation_handles, build_allocation_call, ALLOCATION_SERVICE_ID};
use tree::call::{AccountRef, EncodedCall, Identity};
use tree::config::TreeConfig;
use tree::payload::{encode_payload, TreeParameters};
use tree::request::{build_tree_init_call, tree_init_accounts, tree_init_handles, CreateTree};

fn id(tag: u8) -> Identity {
    let mut bytes = [tag; 32];
    bytes[31] = 0xa0;
    Identity { bytes }
}

fn sample_request() -> CreateTree {
    CreateTree {
        new_account: id(1),
        payer: id(2),
        system_program: Identity { bytes: [0; 32] },
        tree_authority: id(3),
        merkle_tree: id(4),
        tree_creator: id(5),
        log_wrapper: id(6),
        compression_program: id(7),
    }
}

fn writable(identity: Identity, is_signing: bool) -> AccountRef {
    AccountRef { identity, is_writable: true, is_signing }
}

#[test]
fn account_ref_new_is_writable() {
    assert_eq!(
        AccountRef::new(id(9), true),
        AccountRef { identity: id(9), is_writable: true, is_signing: true }
    );
    assert_eq!(
        AccountRef::new(id(9), false),
        AccountRef { identity: id(9), is_writable: true, is_signing: false }
    );
}

#[test]
fn account_ref_new_agrees_with_account_meta_new() {
    for signing in [false, true] {
        let account = AccountRef::new(id(9), signing);
        let meta = AccountMeta::new(Pubkey::new_from_array(id(9).bytes), signing);
        assert_eq!(account.identity.bytes, meta.pubkey.to_bytes());
        assert_eq!(account.is_signing, meta.is_signer);
        assert_eq!(account.is_writable, meta.is_writable);
    }
}

#[test]
fn tree_init_accounts_keep_their_order() {
    let request = sample_request();
    assert_eq!(
        tree_init_accounts(&request),
        vec![
            writable(id(3), false),
            writable(id(4), true),
            writable(id(2), true),
            writable(id(5), false),
            writable(id(6), false),
            writable(id(7), false),
        ]
    );
}

#[test]
fn tree_init_accounts_do_not_depend_on_the_order_of_supply() {
    let forwards = sample_request();
    let backwards = CreateTree {
        compression_program: id(7),
        log_wrapper: id(6),
        tree_creator: id(5),
        merkle_tree: id(4),
        tree_authority: id(3),
        system_program: Identity { bytes: [0; 32] },
        payer: id(2),
        new_account: id(1),
    };
    assert_eq!(tree_init_accounts(&forwards), tree_init_accounts(&backwards));
    let accounts = tree_init_accounts(&backwards);
    assert_eq!(accounts.len(), 6);
    assert_eq!(accounts[0].identity, backwards.tree_authority);
    assert_eq!(accounts[1].identity, backwards.merkle_tree);
    assert_eq!(accounts[2].identity, backwards.payer);
    assert_eq!(accounts[3].identity, backwards.tree_creator);
    assert_eq!(accounts[4].identity, backwards.log_wrapper);
    assert_eq!(accounts[5].identity, backwards.compression_program);
}

#[test]
fn tree_init_accounts_sign_only_for_storage_and_payer() {
    let accounts = tree_init_accounts(&sample_request());
    let signing: Vec<bool> = accounts.iter().map(|a| a.is_signing).collect();
    assert_eq!(signing, vec![false, true, true, false, false, false]);
    assert!(accounts.iter().all(|a| a.is_writable));
}

#[test]
fn tree_init_accounts_with_one_identity_in_every_role() {
    let one = id(8);
    let request = CreateTree {
        new_account: one,
        payer: one,
        system_program: one,
        tree_authority: one,
        merkle_tree: one,
        tree_creator: one,
        log_wrapper: one,
        compression_program: one,
    };
    let accounts = tree_init_accounts(&request);
    assert_eq!(accounts.len(), 6);
    assert!(accounts.iter().all(|a| a.identity == one));
}

#[test]
fn tree_init_call_targets_the_tree_engine() {
    let request = sample_request();
    let config = TreeConfig::default();
    let call = build_tree_init_call(&request, &config);
    assert_eq!(
        call,
        EncodedCall {
            target: id(7),
            accounts: tree_init_accounts(&request),
            payload: vec![165, 83, 136, 142, 89, 202, 47, 220, 5, 0, 0, 0, 0, 1, 0, 0, 0],
        }
    );
}

#[test]
fn tree_init_call_carries_the_configured_parameters() {
    let request = sample_request();
    let config = TreeConfig {
        minimum_lamports: 1,
        space: 31_800,
        params: TreeParameters { max_depth: 20, max_buffer_size: 1024, is_public: true },
        discriminator: [9, 8, 7, 6, 5, 4, 3, 2],
    };
    let call = build_tree_init_call(&request, &config);
    assert_eq!(call.payload, encode_payload(&config.discriminator, &config.params));
    assert_eq!(call.payload, vec![9, 8, 7, 6, 5, 4, 3, 2, 20, 0, 0, 0, 0, 4, 0, 0, 1]);
}

#[test]
fn tree_init_handles_follow_the_accounts() {
    let request = sample_request();
    let handles = tree_init_handles(&request);
    assert_eq!(handles, vec![id(3), id(4), id(2), id(5), id(6), id(7)]);
    let named: Vec<Identity> = tree_init_accounts(&request).iter().map(|a| a.identity).collect();
    assert_eq!(handles, named);
}

#[test]
fn allocation_call_is_byte_exact() {
    let request = sample_request();
    let call = build_allocation_call(&request, &TreeConfig::default());
    assert_eq!(call.target, Identity { bytes: [0; 32] });
    assert_eq!(call.target.bytes, ALLOCATION_SERVICE_ID);
    assert_eq!(call.accounts, vec![writable(id(2), true), writable(id(1), true)]);
    let mut payload = vec![0u8, 0, 0, 0];
    payload.extend_from_slice(&[0x88, 0x13, 0, 0, 0, 0, 0, 0]);
    payload.extend_from_slice(&[0x80, 0, 0, 0, 0, 0, 0, 0]);
    payload.extend_from_slice(&id(7).bytes);
    assert_eq!(call.payload, payload);
}

#[test]
fn allocation_call_is_the_instruction_of_the_system_interface() {
    let request = sample_request();
    let config = TreeConfig { minimum_lamports: 1_000_000, space: 4096, ..TreeConfig::default() };
    let call = build_allocation_call(&request, &config);
    let ix = system_instruction::create_account(
        &Pubkey::new_from_array(request.payer.bytes),
        &Pubkey::new_from_array(request.new_account.bytes),
        1_000_000,
        4096,
        &Pubkey::new_from_array(request.compression_program.bytes),
    );
    assert_eq!(call.target.bytes, ix.program_id.to_bytes());
    assert_eq!(call.payload, ix.data);
    assert_eq!(call.accounts.len(), ix.accounts.len());
    for (account, meta) in call.accounts.iter().zip(ix.accounts.iter()) {
        assert_eq!(account.identity.bytes, meta.pubkey.to_bytes());
        assert_eq!(account.is_signing, meta.is_signer);
        assert_eq!(account.is_writable, meta.is_writable);
    }
}

#[test]
fn allocation_call_depends_on_funding_size_and_owner() {
    let request = sample_request();
    let base = build_allocation_call(&request, &TreeConfig::default());
    let funded = build_allocation_call(
        &request,
        &TreeConfig { minimum_lamports: 5001, ..TreeConfig::default() },
    );
    let sized =
        build_allocation_call(&request, &TreeConfig { space: 129, ..TreeConfig::default() });
    let owned = build_allocation_call(
        &CreateTree { compression_program: id(8), ..request },
        &TreeConfig::default(),
    );
    assert_ne!(base.payload, funded.payload);
    assert_ne!(base.payload, sized.payload);
    assert_ne!(base.payload, owned.payload);
    assert_eq!(base.accounts, owned.accounts);
}

#[test]
fn allocation_handles_are_new_account_payer_and_service() {
    let request = sample_request();
    assert_eq!(allocation_handles(&request), vec![id(1), id(2), Identity { bytes: [0; 32] }]);
}
