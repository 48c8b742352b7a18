use my_token_program::counter::Counter;
use my_token_program::counter::Initialize;
use my_token_program::counter::initialize;
use my_token_program::dispatch::execute_ix_tag_le;
use my_token_program::dispatch::fallback;
use my_token_program::dispatch::ix_data_is_execute;
use my_token_program::dispatch::read_le_u64;
use my_token_program::errors::HookError;
use my_token_program::flag::check_token_account_is_transferring;
use my_token_program::hook::TransferHook;
use my_token_program::hook::transfer_hook;
#[allow(deprecated)]
use spl_token_2022::extension::BaseStateWithExtensionsMut;
#[allow(deprecated)]
use spl_token_2022::extension::ExtensionType;
#[allow(deprecated)]
use spl_token_2022::extension::StateWithExtensionsMut;
use spl_token_2022::extension::transfer_hook::TransferHookAccount;
#[allow(deprecated)]
use spl_token_2022::state::Account;
#[allow(deprecated)]
use spl_token_2022::state::AccountState;

/// Builds the raw bytes of an extended token account whose transfer-hook
/// flag is set or cleared.
#[allow(deprecated)]
fn token_account_bytes(transferring: bool) -> Vec<u8> {
    let len = ExtensionType::try_calculate_account_len::<Account>(&[
        ExtensionType::TransferHookAccount,
    ])
    .unwrap();
    let mut buf = vec![0u8; len];
    let mut state = StateWithExtensionsMut::<Account>::unpack_uninitialized(&mut buf).unwrap();
    let extension = state.init_extension::<TransferHookAccount>(true).unwrap();
    extension.transferring = transferring.into();
    state.base.state = AccountState::Initialized;
    state.pack_base();
    state.init_account_type().unwrap();
    buf
}

fn hook_accounts(source_data: Vec<u8>, destination_data: Vec<u8>) -> TransferHook {
    TransferHook {
        source: vec![1; 32],
        mint: vec![2; 32],
        destination: vec![3; 32],
        authority: vec![4; 32],
        extra_account: vec![5; 32],
        source_data,
        destination_data,
    }
}

fn fresh_counter() -> Counter {
    initialize(&Initialize { authority: vec![8; 32] })
}

#[test]
fn initialize_sets_owner_and_zero_count() {
    let counter = initialize(&Initialize { authority: vec![8; 32] });
    assert_eq!(counter.owner, vec![8; 32]);
    assert_eq!(counter.count, 0);
}

#[test]
fn check_accepts_only_transferring_accounts() {
    assert!(check_token_account_is_transferring(&token_account_bytes(true)).is_ok());
    assert_eq!(
        check_token_account_is_transferring(&token_account_bytes(false)),
        Err(HookError::CalledOutsideTransfer)
    );
    assert!(matches!(
        check_token_account_is_transferring(&vec![0u8; 10]),
        Err(HookError::External(_))
    ));
}

#[test]
fn hook_counts_each_valid_transfer() {
    let accounts = hook_accounts(token_account_bytes(true), token_account_bytes(true));
    let mut counter = fresh_counter();
    for expected in 1..=5u64 {
        assert!(transfer_hook(&accounts, &mut counter, 10).is_ok());
        assert_eq!(counter.count, expected);
    }
    assert_eq!(counter.owner, vec![8; 32]);
}

#[test]
fn hook_rejects_source_outside_transfer() {
    let accounts = hook_accounts(token_account_bytes(false), token_account_bytes(true));
    let mut counter = fresh_counter();
    assert_eq!(
        transfer_hook(&accounts, &mut counter, 10),
        Err(HookError::CalledOutsideTransfer)
    );
    assert_eq!(counter.count, 0);
}

#[test]
fn hook_rejects_destination_outside_transfer() {
    let accounts = hook_accounts(token_account_bytes(true), token_account_bytes(false));
    let mut counter = fresh_counter();
    assert_eq!(
        transfer_hook(&accounts, &mut counter, 10),
        Err(HookError::CalledOutsideTransfer)
    );
    assert_eq!(counter.count, 0);
}

#[test]
fn hook_propagates_undecodable_account_error() {
    let accounts = hook_accounts(vec![0u8; 3], token_account_bytes(true));
    let mut counter = fresh_counter();
    assert!(matches!(
        transfer_hook(&accounts, &mut counter, 10),
        Err(HookError::External(_))
    ));
    assert_eq!(counter.count, 0);
}

#[test]
fn fallback_execute_tag_behaves_as_direct_call() {
    let accounts = hook_accounts(token_account_bytes(true), token_account_bytes(true));
    let mut ix_data = execute_ix_tag_le();
    ix_data.extend_from_slice(&10u64.to_le_bytes());

    let mut direct = fresh_counter();
    let direct_result = transfer_hook(&accounts, &mut direct, 10);
    let mut routed = fresh_counter();
    let routed_result = fallback(&accounts, &mut routed, &ix_data);

    assert_eq!(direct_result, routed_result);
    assert_eq!(direct.count, routed.count);
    assert_eq!(routed.count, 1);
}

#[test]
fn fallback_execute_tag_fails_like_direct_call_outside_transfer() {
    let accounts = hook_accounts(token_account_bytes(false), token_account_bytes(true));
    let mut ix_data = execute_ix_tag_le();
    ix_data.extend_from_slice(&7u64.to_le_bytes());
    let mut counter = fresh_counter();
    assert_eq!(
        fallback(&accounts, &mut counter, &ix_data),
        Err(HookError::CalledOutsideTransfer)
    );
    assert_eq!(counter.count, 0);
}

#[test]
fn fallback_rejects_unknown_tag() {
    let accounts = hook_accounts(token_account_bytes(true), token_account_bytes(true));
    let mut counter = fresh_counter();
    let mut ix_data = vec![0u8; 16];
    ix_data[0] = 1;
    assert_eq!(
        fallback(&accounts, &mut counter, &ix_data),
        Err(HookError::InvalidInstructionData)
    );
    assert_eq!(
        fallback(&accounts, &mut counter, &vec![105u8, 37]),
        Err(HookError::InvalidInstructionData)
    );
    assert_eq!(counter.count, 0);
}

#[test]
fn fallback_rejects_missing_amount() {
    let accounts = hook_accounts(token_account_bytes(true), token_account_bytes(true));
    let mut counter = fresh_counter();
    let ix_data = execute_ix_tag_le();
    assert_eq!(
        fallback(&accounts, &mut counter, &ix_data),
        Err(HookError::InstructionDidNotDeserialize)
    );
    assert_eq!(counter.count, 0);
}

#[test]
fn execute_tag_recognised_exactly() {
    let tag = execute_ix_tag_le();
    assert_eq!(tag, vec![105u8, 37, 101, 197, 75, 251, 102, 26]);
    assert!(ix_data_is_execute(&tag));
    let mut other = tag.clone();
    other[7] = 27;
    assert!(!ix_data_is_execute(&other));
}

#[test]
fn read_le_u64_reads_least_significant_byte_first() {
    let data = vec![0x78u8, 0x56, 0x34, 0x12, 0, 0, 0, 0];
    assert_eq!(read_le_u64(&data, 0), 0x12345678);
    let mut prefixed = vec![0xffu8, 0xff];
    prefixed.extend_from_slice(&u64::MAX.to_le_bytes());
    assert_eq!(read_le_u64(&prefixed, 2), u64::MAX);
    assert_eq!(read_le_u64(&vec![1, 0, 0, 0, 0, 0, 0, 0], 0), 1);
}
