use vstd::prelude::*;
use crate::address_eq;
use crate::errors::HookError;

verus! {

/// One account-reference descriptor of the extra-account list: how the
/// runtime finds one additional account a transfer must supply.
pub struct AccountMetaEntry {
    /// Zero marks a fixed address; other values select derivation rules.
    pub discriminator: u8,
    /// The address itself, or the bytes the address is derived from.
    pub address_config: Vec<u8>,
    /// Whether the account must sign.
    pub is_signer: bool,
    /// Whether the account must be writable.
    pub is_writable: bool,
}

/// The plain-value view of one descriptor: discriminator, address bytes,
/// signer flag, writable flag.
pub open spec fn meta_view(meta: AccountMetaEntry) -> (u8, Seq<u8>, bool, bool) {
    (meta.discriminator, meta.address_config@, meta.is_signer, meta.is_writable)
}

/// The exact bytes the external account-resolution consumer expects for a
/// serialized descriptor list, as the list serializer of the resolution
/// library writes them.
pub uninterp spec fn meta_list_bytes(metas: Seq<(u8, Seq<u8>, bool, bool)>) -> Seq<u8>;

/// Relies on `spl_tlv_account_resolution::state::ExtraAccountMetaList::
/// size_of`: the byte size of a serialized list is a 16-byte header plus
/// 35 bytes per descriptor, and the computation fails only when that sum
/// overflows `usize`.
#[verifier::external_body]
fn meta_list_size(num_items: usize) -> (r: Result<usize, u64>)
    ensures
        r matches Ok(size) ==> size == 16 + 35 * num_items,
        num_items <= 1000 ==> r is Ok,
{
    spl_tlv_account_resolution::state::ExtraAccountMetaList::size_of(num_items).map_err(u64::from)
}

/// Relies on `spl_tlv_account_resolution::state::ExtraAccountMetaList::
/// init` with the execute instruction of the transfer-hook interface: on a
/// zeroed buffer of exactly the computed size it writes the serialized
/// list, a function of the descriptors alone, and reports no error.
#[verifier::external_body]
fn meta_list_init(data: &mut Vec<u8>, metas: &Vec<AccountMetaEntry>) -> (r: Result<(), u64>)
    requires
        forall|i: int| 0 <= i < old(data)@.len() ==> old(data)@[i] == 0,
        old(data)@.len() == 16 + 35 * metas@.len(),
        metas@.len() <= 1000,
        forall|i: int| 0 <= i < metas@.len() ==> #[trigger] metas@[i].address_config@.len() == 32,
    ensures
        r is Ok,
        final(data)@ == meta_list_bytes(metas@.map_values(|m: AccountMetaEntry| meta_view(m))),
        final(data)@.len() == old(data)@.len(),
{
    let mut converted = Vec::with_capacity(metas.len());
    for meta in metas.iter() {
        converted.push(spl_tlv_account_resolution::account::ExtraAccountMeta {
            discriminator: meta.discriminator,
            address_config: meta.address_config.as_slice().try_into().unwrap(),
            is_signer: meta.is_signer.into(),
            is_writable: meta.is_writable.into(),
        });
    }
    spl_tlv_account_resolution::state::ExtraAccountMetaList::init::<
        spl_transfer_hook_interface::instruction::ExecuteInstruction,
    >(data.as_mut_slice(), &converted).map_err(u64::from)
}

/// The identity of the system program: thirty-two zero bytes.
pub open spec fn system_program_id_spec() -> Seq<u8> {
    Seq::new(32, |i: int| 0u8)
}

/// The identity of the system program as a value.
pub fn system_program_id() -> (r: Vec<u8>)
    ensures
        r@ == system_program_id_spec(),
{
    let mut id: Vec<u8> = Vec::new();
    let mut i: usize = 0;
    while i < 32
        invariant
            i <= 32,
            id@.len() == i,
            forall|j: int| 0 <= j < i ==> id@[j] == 0,
        decreases 32 - i,
    {
        id.push(0);
        i += 1;
    }
    proof {
        assert(id@ =~= system_program_id_spec());
    }
    id
}

/// The derived account this program writes the descriptor list into: who
/// owns it and what it holds. A never-touched account is owned by the
/// system program and holds no data.
pub struct ExtraAccount {
    /// The program that owns the account.
    pub owner: Vec<u8>,
    /// The account's data.
    pub data: Vec<u8>,
}

/// An account the system program still owns and that holds no data: the
/// only state the setup instruction can allocate into.
pub open spec fn untouched(account: ExtraAccount) -> bool {
    account.owner@ == system_program_id_spec() && account.data@.len() == 0
}

/// The accounts the one-time setup instruction receives.
pub struct InitializeExtraAccountMetaList {
    /// Address of the counter account the descriptor list points at.
    pub counter: Vec<u8>,
    /// Address of the mint whose transfers the hook gates.
    pub mint: Vec<u8>,
    /// Address of the authority paying for the setup.
    pub authority: Vec<u8>,
}

/// The one-entry descriptor list the setup writes: the counter account,
/// fixed address, not a signer, writable.
pub open spec fn counter_meta_list(counter_key: Seq<u8>) -> Seq<(u8, Seq<u8>, bool, bool)> {
    seq![(0u8, counter_key, false, true)]
}

/// Writes the descriptor list for `accounts.mint` once: allocates the
/// derived account, assigns it to this program, and serializes the
/// one-entry list referencing the counter. Fails, leaving the account
/// untouched, when the account was already allocated or assigned, so a
/// second run for the same mint identity cannot succeed.
pub fn initialize_extra_account_meta_list(
    accounts: &InitializeExtraAccountMetaList,
    extra_account: &mut ExtraAccount,
    program_id: &Vec<u8>,
) -> (r: Result<(), HookError>)
    requires
        accounts.counter@.len() == 32,
    ensures
        r is Ok <==> untouched(*old(extra_account)),
        r is Ok ==> final(extra_account).owner@ == program_id@,
        r is Ok ==> final(extra_account).data@ == meta_list_bytes(
            counter_meta_list(accounts.counter@),
        ),
        r is Ok ==> final(extra_account).data@.len() == 51,
        r is Err ==> final(extra_account).owner@ == old(extra_account).owner@,
        r is Err ==> final(extra_account).data@ == old(extra_account).data@,
        r is Err ==> r == Err::<(), HookError>(HookError::AccountAlreadyInitialized),
{
    // The system program refuses to allocate an account that already has
    // data or that it no longer owns.
    let sys = system_program_id();
    if !(address_eq(&extra_account.owner, &sys) && extra_account.data.len() == 0) {
        return Err(HookError::AccountAlreadyInitialized);
    }
    let mut metas: Vec<AccountMetaEntry> = Vec::new();
    metas.push(
        AccountMetaEntry {
            discriminator: 0,
            address_config: accounts.counter.clone(),
            is_signer: false,
            is_writable: true,
        },
    );
    let size = match meta_list_size(metas.len()) {
        Ok(size) => size,
        Err(code) => {
            return Err(HookError::External(code));
        },
    };
    // Allocation leaves the account holding `size` zeroed bytes, and the
    // assignment hands its ownership to this program.
    let mut data: Vec<u8> = Vec::new();
    while data.len() < size
        invariant
            data@.len() <= size,
            forall|j: int| 0 <= j < data@.len() ==> data@[j] == 0,
        decreases size - data@.len(),
    {
        data.push(0);
    }
    extra_account.owner = program_id.clone();
    match meta_list_init(&mut data, &metas) {
        Ok(()) => {},
        Err(code) => {
            return Err(HookError::External(code));
        },
    }
    proof {
        assert(metas@.map_values(|m: AccountMetaEntry| meta_view(m)) =~~= counter_meta_list(
            accounts.counter@,
        ));
    }
    extra_account.data = data;
    Ok(())
}

/// The namespace label of the derived extra-account address.
pub open spec fn extra_metas_seed_label() -> Seq<u8> {
    seq![
        101u8, 120u8, 116u8, 114u8, 97u8, 45u8, 97u8, 99u8, 99u8, 111u8, 117u8, 110u8, 116u8,
        45u8, 109u8, 101u8, 116u8, 97u8, 115u8,
    ]
}

/// The namespace label as a value.
pub fn extra_metas_label() -> (r: Vec<u8>)
    ensures
        r@ == extra_metas_seed_label(),
{
    let mut label: Vec<u8> = Vec::new();
    label.push(101);
    label.push(120);
    label.push(116);
    label.push(114);
    label.push(97);
    label.push(45);
    label.push(97);
    label.push(99);
    label.push(99);
    label.push(111);
    label.push(117);
    label.push(110);
    label.push(116);
    label.push(45);
    label.push(109);
    label.push(101);
    label.push(116);
    label.push(97);
    label.push(115);
    proof {
        assert(label@ =~= extra_metas_seed_label());
    }
    label
}

/// The seeds the extra-account address is derived from: the namespace
/// label and the mint's identity.
pub open spec fn extra_metas_seeds_view(mint: Seq<u8>) -> Seq<Seq<u8>> {
    seq![extra_metas_seed_label(), mint]
}

/// Builds the derivation seeds for the extra-account address of `mint`.
pub fn extra_account_metas_seeds(mint: &Vec<u8>) -> (r: Vec<Vec<u8>>)
    ensures
        r@.map_values(|s: Vec<u8>| s@) == extra_metas_seeds_view(mint@),
{
    let mut seeds: Vec<Vec<u8>> = Vec::new();
    seeds.push(extra_metas_label());
    seeds.push(mint.clone());
    proof {
        assert(seeds@.map_values(|s: Vec<u8>| s@) =~~= extra_metas_seeds_view(mint@));
    }
    seeds
}

/// Builds the seeds the setup instruction signs its allocation with: the
/// derivation seeds followed by the bump byte.
pub fn extra_account_signer_seeds(mint: &Vec<u8>, bump_seed: u8) -> (r: Vec<Vec<u8>>)
    ensures
        r@.map_values(|s: Vec<u8>| s@) == extra_metas_seeds_view(mint@).push(seq![bump_seed]),
{
    let mut seeds = extra_account_metas_seeds(mint);
    let mut bump: Vec<u8> = Vec::new();
    bump.push(bump_seed);
    seeds.push(bump);
    proof {
        assert(seeds@.map_values(|s: Vec<u8>| s@) =~~= extra_metas_seeds_view(mint@).push(
            seq![bump_seed],
        ));
    }
    seeds
}

/// The derived address and bump a seed list and a program identity map
/// to, as the platform's address derivation computes them: `None` when no
/// bump yields a valid address.
pub uninterp spec fn pda_of(seeds: Seq<Seq<u8>>, program_id: Seq<u8>) -> Option<(Seq<u8>, u8)>;

/// Relies on `solana_program::pubkey::Pubkey::try_find_program_address`:
/// the derivation hashes the seeds and the program identity alone, and a
/// found address is thirty-two bytes.
#[verifier::external_body]
fn find_derived_address(seeds: &Vec<Vec<u8>>, program_id: &Vec<u8>) -> (r: Option<(Vec<u8>, u8)>)
    requires
        program_id@.len() == 32,
    ensures
        match r {
            Some(pair) => pda_of(seeds@.map_values(|s: Vec<u8>| s@), program_id@) == Some(
                (pair.0@, pair.1),
            ) && pair.0@.len() == 32,
            None => pda_of(seeds@.map_values(|s: Vec<u8>| s@), program_id@) is None,
        },
{
    let seed_slices: Vec<&[u8]> = seeds.iter().map(|s| s.as_slice()).collect();
    let program = solana_program::pubkey::Pubkey::try_from(program_id.as_slice()).unwrap();
    solana_program::pubkey::Pubkey::try_find_program_address(&seed_slices, &program).map(
        |(key, bump)| (key.to_bytes().to_vec(), bump),
    )
}

/// Recomputes the extra-account address for `mint` under `program_id` and
/// compares it with the caller-supplied address, rather than trusting the
/// caller: accepts exactly when they match.
pub fn verify_extra_account_address(
    extra_account_key: &Vec<u8>,
    mint: &Vec<u8>,
    program_id: &Vec<u8>,
) -> (r: Result<(), HookError>)
    requires
        program_id@.len() == 32,
    ensures
        r is Ok <==> (pda_of(extra_metas_seeds_view(mint@), program_id@) matches Some(pair)
            && pair.0 == extra_account_key@),
        r is Err ==> r == Err::<(), HookError>(HookError::AddressMismatch),
{
    let seeds = extra_account_metas_seeds(mint);
    match find_derived_address(&seeds, program_id) {
        Some(pair) => {
            if address_eq(&pair.0, extra_account_key) {
                Ok(())
            } else {
                Err(HookError::AddressMismatch)
            }
        },
        None => Err(HookError::AddressMismatch),
    }
}

} // verus!
