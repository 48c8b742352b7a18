use vstd::prelude::*;

verus! {

/// The failures an instruction of this program can report.
///
/// A failure coming back from an outside program call is propagated
/// verbatim as its numeric error code in `External`.
#[derive(Clone, Copy, Debug, PartialEq, Eq, Structural)]
pub enum HookError {
    /// The transfer hook ran while the token accounts were not marked as
    /// being in the middle of a transfer.
    CalledOutsideTransfer,
    /// The fallback dispatcher saw an instruction tag it does not serve.
    InvalidInstructionData,
    /// The bytes after a recognised instruction tag were too short to
    /// carry the instruction's argument.
    InstructionDidNotDeserialize,
    /// The derived account for the extra account metas was already
    /// allocated or assigned.
    AccountAlreadyInitialized,
    /// A caller-supplied derived address does not match the address
    /// recomputed from its seeds.
    AddressMismatch,
    /// An error code propagated from an outside program call.
    External(u64),
}

} // verus!
