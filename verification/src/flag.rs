use vstd::prelude::*;
use crate::errors::HookError;
#[allow(deprecated)]
use spl_token_2022::extension::BaseStateWithExtensions;

verus! {

/// The in-flight-transfer flag embedded in a raw token-account record, as
/// the token program's own decoder reads it: `Some(flag)` when the bytes
/// decode to an extended token account that carries the flag, `None` when
/// they do not decode to one.
pub uninterp spec fn transferring_flag_of(data: Seq<u8>) -> Option<bool>;

/// Relies on `spl_token_2022_interface::extension::StateWithExtensions::
/// <Account>::unpack` and `BaseStateWithExtensions::get_extension::
/// <TransferHookAccount>`: both read the byte buffer alone, so the flag is
/// a function of the bytes. On any error of either, the propagated numeric
/// code is returned.
#[verifier::external_body]
#[allow(deprecated)]
fn read_transferring_flag(data: &Vec<u8>) -> (r: Result<bool, u64>)
    ensures
        match r {
            Ok(flag) => transferring_flag_of(data@) == Some(flag),
            Err(_) => transferring_flag_of(data@) is None,
        },
{
    let state = match spl_token_2022::extension::StateWithExtensions::<
        spl_token_2022::state::Account,
    >::unpack(data.as_slice()) {
        Ok(state) => state,
        Err(e) => return Err(u64::from(e)),
    };
    match state.get_extension::<spl_token_2022::extension::transfer_hook::TransferHookAccount>() {
        Ok(extension) => Ok(bool::from(extension.transferring)),
        Err(e) => Err(u64::from(e)),
    }
}

/// Accepts a raw token-account record only while the enclosing transfer is
/// in flight: the embedded flag must decode and be set. A decoded but
/// unset flag is the integrity failure; bytes that do not decode propagate
/// the decoder's error.
pub fn check_token_account_is_transferring(data: &Vec<u8>) -> (r: Result<(), HookError>)
    ensures
        r is Ok <==> transferring_flag_of(data@) == Some(true),
        transferring_flag_of(data@) == Some(false) ==> r == Err::<(), HookError>(
            HookError::CalledOutsideTransfer,
        ),
        transferring_flag_of(data@) is None ==> r matches Err(HookError::External(_)),
{
    match read_transferring_flag(data) {
        Ok(true) => Ok(()),
        Ok(false) => Err(HookError::CalledOutsideTransfer),
        Err(code) => Err(HookError::External(code)),
    }
}

} // verus!
