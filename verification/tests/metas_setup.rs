use my_token_program::errors::HookError;
use my_token_program::metas::AccountMetaEntry;
use my_token_program::metas::ExtraAccount;
use my_token_program::metas::InitializeExtraAccountMetaList;
use my_token_program::metas::extra_account_metas_seeds;
use my_token_program::metas::extra_account_signer_seeds;
use my_token_program::metas::initialize_extra_account_meta_list;
use my_token_program::metas::system_program_id;
use my_token_program::metas::verify_extra_account_address;
use solana_program::pubkey::Pubkey;
use spl_tlv_account_resolution::account::ExtraAccountMeta;
use spl_tlv_account_resolution::state::ExtraAccountMetaList;
use spl_transfer_hook_interface::instruction::ExecuteInstruction;

fn setup_accounts(counter_key: Vec<u8>) -> InitializeExtraAccountMetaList {
    InitializeExtraAccountMetaList {
        counter: counter_key,
        mint: vec![3; 32],
        authority: vec![4; 32],
    }
}

fn untouched_account() -> ExtraAccount {
    ExtraAccount { owner: system_program_id(), data: Vec::new() }
}

#[test]
fn system_program_id_is_thirty_two_zero_bytes() {
    assert_eq!(system_program_id(), vec![0u8; 32]);
}

#[test]
fn setup_writes_the_expected_single_entry_list() {
    let counter_key = vec![7u8; 32];
    let mut account = untouched_account();
    let program_id = vec![9u8; 32];
    let result = initialize_extra_account_meta_list(
        &setup_accounts(counter_key.clone()),
        &mut account,
        &program_id,
    );
    assert_eq!(result, Ok(()));
    assert_eq!(account.owner, program_id);
    assert_eq!(account.data.len(), 51);

    // The serialized list must match what the resolution library itself
    // writes for the same single descriptor.
    let expected_meta = ExtraAccountMeta {
        discriminator: 0,
        address_config: [7u8; 32],
        is_signer: false.into(),
        is_writable: true.into(),
    };
    let mut expected = vec![0u8; ExtraAccountMetaList::size_of(1).unwrap()];
    ExtraAccountMetaList::init::<ExecuteInstruction>(&mut expected, &[expected_meta]).unwrap();
    assert_eq!(account.data, expected);

    // The list is stored under the published execute tag, and the single
    // entry references the counter as a writable non-signer.
    assert_eq!(&account.data[0..8], &[105u8, 37, 101, 197, 75, 251, 102, 26]);
    assert_eq!(&account.data[17..49], counter_key.as_slice());
    assert_eq!(account.data[49], 0);
    assert_eq!(account.data[50], 1);
}

#[test]
fn setup_fails_on_second_run_for_the_same_identity() {
    let mut account = untouched_account();
    let program_id = vec![9u8; 32];
    let accounts = setup_accounts(vec![7u8; 32]);
    assert_eq!(
        initialize_extra_account_meta_list(&accounts, &mut account, &program_id),
        Ok(())
    );
    let written = account.data.clone();
    assert_eq!(
        initialize_extra_account_meta_list(&accounts, &mut account, &program_id),
        Err(HookError::AccountAlreadyInitialized)
    );
    assert_eq!(account.data, written);
    assert_eq!(account.owner, program_id);
}

#[test]
fn setup_refuses_an_account_this_program_does_not_get_from_the_system() {
    let program_id = vec![9u8; 32];
    let accounts = setup_accounts(vec![7u8; 32]);

    let mut holds_data = ExtraAccount { owner: system_program_id(), data: vec![0u8; 4] };
    assert_eq!(
        initialize_extra_account_meta_list(&accounts, &mut holds_data, &program_id),
        Err(HookError::AccountAlreadyInitialized)
    );
    assert_eq!(holds_data.data, vec![0u8; 4]);

    let mut foreign_owner = ExtraAccount { owner: vec![9u8; 32], data: Vec::new() };
    assert_eq!(
        initialize_extra_account_meta_list(&accounts, &mut foreign_owner, &program_id),
        Err(HookError::AccountAlreadyInitialized)
    );
    assert_eq!(foreign_owner.data.len(), 0);
}

#[test]
fn derived_address_matches_independent_derivation() {
    let mint = vec![3u8; 32];
    let program_id = vec![9u8; 32];
    let program = Pubkey::new_from_array([9u8; 32]);
    let (expected, _bump) = Pubkey::find_program_address(
        &[b"extra-account-metas", mint.as_slice()],
        &program,
    );
    let expected_bytes = expected.to_bytes().to_vec();
    assert_eq!(
        verify_extra_account_address(&expected_bytes, &mint, &program_id),
        Ok(())
    );
    let mut wrong = expected_bytes.clone();
    wrong[0] = wrong[0].wrapping_add(1);
    assert_eq!(
        verify_extra_account_address(&wrong, &mint, &program_id),
        Err(HookError::AddressMismatch)
    );
}

#[test]
fn derivation_seeds_are_the_label_and_the_mint() {
    let mint = vec![3u8; 32];
    let seeds = extra_account_metas_seeds(&mint);
    assert_eq!(seeds.len(), 2);
    assert_eq!(seeds[0], b"extra-account-metas".to_vec());
    assert_eq!(seeds[1], mint);

    let signer_seeds = extra_account_signer_seeds(&mint, 254);
    assert_eq!(signer_seeds.len(), 3);
    assert_eq!(signer_seeds[0], b"extra-account-metas".to_vec());
    assert_eq!(signer_seeds[1], mint);
    assert_eq!(signer_seeds[2], vec![254u8]);
}

#[test]
fn descriptor_entry_fields_are_plain_values() {
    let entry = AccountMetaEntry {
        discriminator: 0,
        address_config: vec![7u8; 32],
        is_signer: false,
        is_writable: true,
    };
    assert_eq!(entry.address_config.len(), 32);
    assert!(!entry.is_signer);
    assert!(entry.is_writable);
}
