use vstd::prelude::*;

verus! {

/// The persisted record behind the transfer-hook gate: who created it and
/// how many transfers the hook has observed.
pub struct Counter {
    /// The identity of the account that created the counter.
    pub owner: Vec<u8>,
    /// How many times the transfer hook has run to completion.
    pub count: u64,
}

/// The accounts the counter-creation instruction receives.
pub struct Initialize {
    /// The signer that will own the new counter.
    pub authority: Vec<u8>,
}

/// Creates the counter record for `accounts.authority`: the authority owns
/// it and its count starts at zero.
pub fn initialize(accounts: &Initialize) -> (counter: Counter)
    ensures
        counter.owner@ == accounts.authority@,
        counter.count == 0,
{
    Counter { owner: accounts.authority.clone(), count: 0 }
}

} // verus!
