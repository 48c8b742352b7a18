use vstd::prelude::*;
use crate::counter::Counter;
use crate::errors::HookError;
use crate::flag::transferring_flag_of;
use crate::hook::TransferHook;
use crate::hook::count_after;
use crate::hook::hook_ok;
use crate::hook::transfer_hook;

verus! {

/// The externally published 8-byte tag that selects the hook's execute
/// call: the leading bytes of the hash of the interface's execute name.
pub open spec fn execute_tag() -> Seq<u8> {
    seq![105u8, 37u8, 101u8, 197u8, 75u8, 251u8, 102u8, 26u8]
}

/// The published execute tag as a value callers can prepend to
/// instruction data.
pub fn execute_ix_tag_le() -> (r: Vec<u8>)
    ensures
        r@ == execute_tag(),
{
    let mut tag: Vec<u8> = Vec::new();
    tag.push(105);
    tag.push(37);
    tag.push(101);
    tag.push(197);
    tag.push(75);
    tag.push(251);
    tag.push(102);
    tag.push(26);
    proof {
        assert(tag@ =~= execute_tag());
    }
    tag
}

/// Instruction data that selects the execute call: at least eight bytes,
/// and the first eight are the published tag.
pub open spec fn is_execute_tagged(ix_data: Seq<u8>) -> bool {
    ix_data.len() >= 8 && ix_data.subrange(0, 8) == execute_tag()
}

/// An unsigned 64-bit integer read least-significant byte first from the
/// eight bytes of `data` starting at `offset`.
pub open spec fn le_u64_at(data: Seq<u8>, offset: int) -> int {
    data[offset] + data[offset + 1] * 0x100 + data[offset + 2] * 0x1_0000 + data[offset + 3]
        * 0x100_0000 + data[offset + 4] * 0x1_0000_0000 + data[offset + 5] * 0x100_0000_0000
        + data[offset + 6] * 0x1_0000_0000_0000 + data[offset + 7] * 0x100_0000_0000_0000
}

/// Reads a little-endian unsigned 64-bit integer from `data` at `offset`.
pub fn read_le_u64(data: &Vec<u8>, offset: usize) -> (r: u64)
    requires
        offset + 8 <= data@.len(),
    ensures
        r == le_u64_at(data@, offset as int),
{
    let len: usize = data.len();
    assert(offset + 8 <= len);
    (data[offset] as u64) + (data[offset + 1] as u64) * 0x100 + (data[offset + 2] as u64)
        * 0x1_0000 + (data[offset + 3] as u64) * 0x100_0000 + (data[offset + 4] as u64)
        * 0x1_0000_0000 + (data[offset + 5] as u64) * 0x100_0000_0000 + (data[offset + 6] as u64)
        * 0x1_0000_0000_0000 + (data[offset + 7] as u64) * 0x100_0000_0000_0000
}

/// Decides whether raw instruction data selects the execute call.
pub fn ix_data_is_execute(ix_data: &Vec<u8>) -> (r: bool)
    ensures
        r == is_execute_tagged(ix_data@),
{
    if ix_data.len() < 8 {
        return false;
    }
    let r = ix_data[0] == 105 && ix_data[1] == 37 && ix_data[2] == 101 && ix_data[3] == 197
        && ix_data[4] == 75 && ix_data[5] == 251 && ix_data[6] == 102 && ix_data[7] == 26;
    proof {
        if r {
            assert(ix_data@.subrange(0, 8) =~= execute_tag());
        } else {
            assert(ix_data@.subrange(0, 8) != execute_tag()) by {
                let prefix = ix_data@.subrange(0, 8);
                if prefix == execute_tag() {
                    assert(prefix[0] == 105 && prefix[1] == 37 && prefix[2] == 101 && prefix[3]
                        == 197 && prefix[4] == 75 && prefix[5] == 251 && prefix[6] == 102
                        && prefix[7] == 26);
                }
            }
        }
    }
    r
}

/// The count the counter holds after one raw entry call: only a call
/// carrying the published tag and a full amount reaches the hook and can
/// count a transfer.
pub open spec fn fallback_count_after(
    count: u64,
    source_flag: Option<bool>,
    destination_flag: Option<bool>,
    ix_data: Seq<u8>,
) -> u64 {
    if is_execute_tagged(ix_data) && ix_data.len() >= 16 {
        count_after(count, source_flag, destination_flag)
    } else {
        count
    }
}

/// Whether one raw entry call succeeds: it must carry the published tag,
/// a full amount, and token accounts the hook accepts.
pub open spec fn fallback_accepts(
    source_flag: Option<bool>,
    destination_flag: Option<bool>,
    ix_data: Seq<u8>,
) -> bool {
    is_execute_tagged(ix_data) && ix_data.len() >= 16 && hook_ok(source_flag, destination_flag)
}

/// Demultiplexes a raw entry call by its leading 8-byte tag: the published
/// execute tag routes to the transfer hook with the amount read from the
/// following eight bytes; any other leading bytes are rejected without
/// touching the counter.
pub fn fallback(accounts: &TransferHook, counter: &mut Counter, ix_data: &Vec<u8>) -> (r: Result<
    (),
    HookError,
>)
    requires
        old(counter).count < u64::MAX,
    ensures
        final(counter).owner@ == old(counter).owner@,
        final(counter).count == fallback_count_after(
            old(counter).count,
            transferring_flag_of(accounts.source_data@),
            transferring_flag_of(accounts.destination_data@),
            ix_data@,
        ),
        r is Ok <==> fallback_accepts(
            transferring_flag_of(accounts.source_data@),
            transferring_flag_of(accounts.destination_data@),
            ix_data@,
        ),
        !is_execute_tagged(ix_data@) ==> r == Err::<(), HookError>(
            HookError::InvalidInstructionData,
        ),
        is_execute_tagged(ix_data@) && ix_data@.len() < 16 ==> r == Err::<(), HookError>(
            HookError::InstructionDidNotDeserialize,
        ),
        is_execute_tagged(ix_data@) && ix_data@.len() >= 16 && transferring_flag_of(
            accounts.source_data@,
        ) == Some(false) ==> r == Err::<(), HookError>(HookError::CalledOutsideTransfer),
        is_execute_tagged(ix_data@) && ix_data@.len() >= 16 && transferring_flag_of(
            accounts.source_data@,
        ) == Some(true) && transferring_flag_of(accounts.destination_data@) == Some(false) ==> r
            == Err::<(), HookError>(HookError::CalledOutsideTransfer),
{
    if !ix_data_is_execute(ix_data) {
        return Err(HookError::InvalidInstructionData);
    }
    if ix_data.len() < 16 {
        return Err(HookError::InstructionDidNotDeserialize);
    }
    let amount = read_le_u64(ix_data, 8);
    transfer_hook(accounts, counter, amount)
}

} // verus!
