use vstd::prelude::*;

use crate::pubkey::Pubkey;

verus! {

/// The accounts of the instruction that creates a token with metadata, as the
/// program reads them.
#[derive(Clone, Copy, Debug)]
pub struct CreateTokenMint {
    /// The signer who pays, and who becomes mint, freeze and update authority.
    pub payer: Pubkey,
    /// The new mint.
    pub mint_account: Pubkey,
}

/// A creator listed in token metadata, with its share of royalties in percent.
#[derive(Clone, Copy, Debug)]
pub struct Creator {
    pub address: Pubkey,
    pub verified: bool,
    pub share: u8,
}

/// The collection a token belongs to.
#[derive(Clone, Copy, Debug)]
pub struct Collection {
    pub verified: bool,
    pub key: Pubkey,
}

/// How a token with uses is consumed.
#[derive(Clone, Copy, Debug, PartialEq, Eq, Structural)]
pub enum UseMethod {
    Burn,
    Multiple,
    Single,
}

/// The uses a token carries.
#[derive(Clone, Copy, Debug)]
pub struct Uses {
    pub use_method: UseMethod,
    pub remaining: u64,
    pub total: u64,
}

/// The details of a collection token.
#[derive(Clone, Copy, Debug)]
pub enum CollectionDetails {
    V1 { size: u64 },
    V2 { padding: [u8; 8] },
}

/// The metadata record that the instruction asks the metadata program to create.
#[derive(Debug)]
pub struct TokenMetadata {
    pub mint: Pubkey,
    pub mint_authority: Pubkey,
    pub update_authority: Pubkey,
    pub payer: Pubkey,
    pub name: String,
    pub symbol: String,
    pub uri: String,
    pub seller_fee_basis_points: u16,
    pub is_mutable: bool,
    pub update_authority_is_signer: bool,
    pub creators: Option<Vec<Creator>>,
    pub collection: Option<Collection>,
    pub uses: Option<Uses>,
    pub collection_details: Option<CollectionDetails>,
}

/// The metadata for a new token named `token_name` with symbol `token_symbol`
/// and metadata `token_uri`: the payer is its mint and update authority and
/// signs, it takes no seller fee, it names no creators, collection, uses or
/// collection details, and it cannot be changed later.
pub fn create_token_mint(
    ctx: &CreateTokenMint,
    _token_decimals: u8,
    token_name: String,
    token_symbol: String,
    token_uri: String,
) -> (m: TokenMetadata)
    ensures
        m.mint == ctx.mint_account,
        m.mint_authority == ctx.payer,
        m.update_authority == ctx.payer,
        m.payer == ctx.payer,
        m.name@ == token_name@,
        m.symbol@ == token_symbol@,
        m.uri@ == token_uri@,
        m.seller_fee_basis_points == 0,
        !m.is_mutable,
        m.update_authority_is_signer,
        m.creators is None,
        m.collection is None,
        m.uses is None,
        m.collection_details is None,
{
    TokenMetadata {
        mint: ctx.mint_account,
        mint_authority: ctx.payer,
        update_authority: ctx.payer,
        payer: ctx.payer,
        name: token_name,
        symbol: token_symbol,
        uri: token_uri,
        seller_fee_basis_points: 0,
        is_mutable: false,
        update_authority_is_signer: true,
        creators: None,
        collection: None,
        uses: None,
        collection_details: None,
    }
}

} // verus!
