use vstd::prelude::*;

verus! {

/// The transient argument of the metadata-creation instruction.
pub struct InitTokenParams {
    /// Display name of the token.
    pub name: String,
    /// Ticker symbol of the token.
    pub symbol: String,
    /// Where the token's off-chain description lives.
    pub uri: String,
    /// Decimal precision of the mint.
    pub decimals: u8,
}

/// The accounts the metadata-creation instruction receives.
pub struct InitToken {
    /// Address of the metadata account being created.
    pub metadata: Vec<u8>,
    /// Address of the mint the metadata describes.
    pub mint: Vec<u8>,
    /// Address of the account paying for the creation.
    pub payer: Vec<u8>,
    /// Address of the external metadata program.
    pub token_metadata_program: Vec<u8>,
}

/// The fixed-shape metadata record this program registers: the caller's
/// texts, no seller fee, no creators, no collection, no uses.
pub struct MetadataRecord {
    /// Display name of the token.
    pub name: String,
    /// Ticker symbol of the token.
    pub symbol: String,
    /// Where the token's off-chain description lives.
    pub uri: String,
    /// Royalty in basis points; this program always registers zero.
    pub seller_fee_basis_points: u16,
    /// Whether a creator list is attached; this program attaches none.
    pub has_creators: bool,
    /// Whether a collection is attached; this program attaches none.
    pub has_collection: bool,
    /// Whether a use rule is attached; this program attaches none.
    pub has_uses: bool,
}

/// One delegated call to the external metadata program, with the mint as
/// its own update and mint authority.
pub struct MetadataCpi {
    /// The metadata program the call is delegated to.
    pub program: Vec<u8>,
    /// Address of the metadata account being created.
    pub metadata: Vec<u8>,
    /// Address of the mint the metadata describes.
    pub mint: Vec<u8>,
    /// Address of the account paying for the creation.
    pub payer: Vec<u8>,
    /// The record the program is asked to persist.
    pub data: MetadataRecord,
    /// Whether the record may change later; this program says no.
    pub is_mutable: bool,
    /// Whether the update authority signs; the mint signs by derivation.
    pub update_authority_is_signer: bool,
}

/// Shapes the one-shot metadata-creation call: the caller's texts and
/// decimals go in unchanged, every optional attachment stays empty, the
/// seller fee is zero, and the record is immutable.
pub fn init_token(accounts: &InitToken, params: InitTokenParams) -> (r: MetadataCpi)
    ensures
        r.program@ == accounts.token_metadata_program@,
        r.metadata@ == accounts.metadata@,
        r.mint@ == accounts.mint@,
        r.payer@ == accounts.payer@,
        r.data.name@ == params.name@,
        r.data.symbol@ == params.symbol@,
        r.data.uri@ == params.uri@,
        r.data.seller_fee_basis_points == 0,
        !r.data.has_creators,
        !r.data.has_collection,
        !r.data.has_uses,
        !r.is_mutable,
        r.update_authority_is_signer,
{
    MetadataCpi {
        program: accounts.token_metadata_program.clone(),
        metadata: accounts.metadata.clone(),
        mint: accounts.mint.clone(),
        payer: accounts.payer.clone(),
        data: MetadataRecord {
            name: params.name,
            symbol: params.symbol,
            uri: params.uri,
            seller_fee_basis_points: 0,
            has_creators: false,
            has_collection: false,
            has_uses: false,
        },
        is_mutable: false,
        update_authority_is_signer: true,
    }
}

/// The namespace label the mint's own address is derived from.
pub open spec fn mint_seed_label() -> Seq<u8> {
    seq![109u8, 105u8, 110u8, 116u8]
}

/// Builds the seeds the metadata-creation call signs with: the mint's
/// namespace label and the bump byte.
pub fn mint_signer_seeds(bump_seed: u8) -> (r: Vec<Vec<u8>>)
    ensures
        r@.map_values(|s: Vec<u8>| s@) == seq![mint_seed_label(), seq![bump_seed]],
{
    let mut label: Vec<u8> = Vec::new();
    label.push(109);
    label.push(105);
    label.push(110);
    label.push(116);
    let mut bump: Vec<u8> = Vec::new();
    bump.push(bump_seed);
    let mut seeds: Vec<Vec<u8>> = Vec::new();
    seeds.push(label);
    seeds.push(bump);
    proof {
        assert(seeds@.map_values(|s: Vec<u8>| s@) =~~= seq![mint_seed_label(), seq![bump_seed]]);
    }
    seeds
}

} // verus!
