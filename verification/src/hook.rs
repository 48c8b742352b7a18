use vstd::prelude::*;
use crate::counter::Counter;
use crate::errors::HookError;
use crate::flag::check_token_account_is_transferring;
use crate::flag::transferring_flag_of;

verus! {

/// The accounts the transfer-hook instruction receives from the runtime:
/// the two token accounts of the enclosing transfer as raw byte records,
/// and the addresses of the remaining accounts of the instruction.
pub struct TransferHook {
    /// Address of the source token account.
    pub source: Vec<u8>,
    /// Address of the mint the transfer belongs to.
    pub mint: Vec<u8>,
    /// Address of the destination token account.
    pub destination: Vec<u8>,
    /// Address of the transfer's authority.
    pub authority: Vec<u8>,
    /// Address of the derived account that lists the extra accounts.
    pub extra_account: Vec<u8>,
    /// Raw bytes of the source token account.
    pub source_data: Vec<u8>,
    /// Raw bytes of the destination token account.
    pub destination_data: Vec<u8>,
}

/// The hook lets a transfer proceed exactly when both token accounts
/// decode and carry an active in-flight-transfer flag.
pub open spec fn hook_ok(source_flag: Option<bool>, destination_flag: Option<bool>) -> bool {
    source_flag == Some(true) && destination_flag == Some(true)
}

/// The count the counter holds after one hook invocation: one more on a
/// transfer the hook lets proceed, unchanged on one it rejects.
pub open spec fn count_after(
    count: u64,
    source_flag: Option<bool>,
    destination_flag: Option<bool>,
) -> u64 {
    if hook_ok(source_flag, destination_flag) {
        (count + 1) as u64
    } else {
        count
    }
}

/// The count the counter holds after a run of hook invocations, each
/// described by the flags its two token accounts decode to.
pub open spec fn count_after_all(count: u64, events: Seq<(Option<bool>, Option<bool>)>) -> u64
    decreases events.len(),
{
    if events.len() == 0 {
        count
    } else {
        count_after_all(count_after(count, events[0].0, events[0].1), events.drop_first())
    }
}

/// Gates one in-flight transfer: verifies that both token accounts are
/// marked as transferring, and counts the transfer on success. A transfer
/// the hook rejects leaves the counter untouched. The amount is observed
/// only; the hook moves no funds.
pub fn transfer_hook(accounts: &TransferHook, counter: &mut Counter, amount: u64) -> (r: Result<
    (),
    HookError,
>)
    requires
        old(counter).count < u64::MAX,
    ensures
        final(counter).owner@ == old(counter).owner@,
        final(counter).count == count_after(
            old(counter).count,
            transferring_flag_of(accounts.source_data@),
            transferring_flag_of(accounts.destination_data@),
        ),
        r is Ok <==> hook_ok(
            transferring_flag_of(accounts.source_data@),
            transferring_flag_of(accounts.destination_data@),
        ),
        transferring_flag_of(accounts.source_data@) == Some(false) ==> r == Err::<(), HookError>(
            HookError::CalledOutsideTransfer,
        ),
        transferring_flag_of(accounts.source_data@) is None ==> r matches Err(
            HookError::External(_),
        ),
        transferring_flag_of(accounts.source_data@) == Some(true)
            && transferring_flag_of(accounts.destination_data@) == Some(false) ==> r == Err::<
            (),
            HookError,
        >(HookError::CalledOutsideTransfer),
        transferring_flag_of(accounts.source_data@) == Some(true)
            && transferring_flag_of(accounts.destination_data@) is None ==> r matches Err(
            HookError::External(_),
        ),
{
    check_token_account_is_transferring(&accounts.source_data)?;
    check_token_account_is_transferring(&accounts.destination_data)?;
    counter.count = counter.count + 1;
    Ok(())
}

} // verus!
