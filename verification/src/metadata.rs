//! The descriptive record of an asset, as it is hashed into a leaf.

use vstd::prelude::*;

use crate::pubkey::Pubkey;

verus! {

/// One party with a share in the proceeds of the asset.
#[derive(Clone, Copy, Debug, PartialEq, Eq, Hash)]
pub struct Creator {
    pub address: Pubkey,
    /// Set only by the creator itself: nobody vouches for somebody else.
    pub verified: bool,
    /// Percentage of the proceeds; the shares of a record add up to 100.
    pub share: u8,
}

/// The collection that an asset claims to belong to.
#[derive(Clone, Copy, Debug, PartialEq, Eq, Hash)]
pub struct Collection {
    pub verified: bool,
    pub key: Pubkey,
}

/// How an asset with a use counter is consumed.
#[derive(Clone, Copy, Debug, PartialEq, Eq, Structural, Hash)]
pub enum UseMethod {
    Burn,
    Multiple,
    Single,
}

/// The use counter of an asset.
#[derive(Clone, Copy, Debug, PartialEq, Eq, Structural, Hash)]
pub struct Uses {
    pub use_method: UseMethod,
    pub remaining: u64,
    pub total: u64,
}

/// The token program that a decompressed asset is issued under.
#[derive(Clone, Copy, Debug, PartialEq, Eq, Structural, Hash)]
pub enum TokenProgramVersion {
    Original,
    Token2022,
}

/// The kind of token that a decompressed asset becomes.
#[derive(Clone, Copy, Debug, PartialEq, Eq, Structural, Hash)]
pub enum TokenStandard {
    NonFungible,
    FungibleAsset,
    Fungible,
    NonFungibleEdition,
}

/// Everything that describes an asset. Its hash is part of the leaf.
#[derive(Clone, Debug, PartialEq, Eq)]
pub struct MetadataArgs {
    pub name: String,
    pub symbol: String,
    pub uri: String,
    /// Royalty in basis points, at most 10000.
    pub seller_fee_basis_points: u16,
    /// Once set, stays set.
    pub primary_sale_happened: bool,
    /// Once cleared, stays cleared, and the record with it.
    pub is_mutable: bool,
    pub edition_nonce: Option<u8>,
    pub token_standard: Option<TokenStandard>,
    pub collection: Option<Collection>,
    pub uses: Option<Uses>,
    pub token_program_version: TokenProgramVersion,
    pub creators: Vec<Creator>,
}

/// A metadata record as a mathematical value: texts as sequences of
/// characters, the creator list as a sequence.
pub struct MetadataView {
    pub name: Seq<char>,
    pub symbol: Seq<char>,
    pub uri: Seq<char>,
    pub seller_fee_basis_points: u16,
    pub primary_sale_happened: bool,
    pub is_mutable: bool,
    pub edition_nonce: Option<u8>,
    pub token_standard: Option<TokenStandard>,
    pub collection: Option<Collection>,
    pub uses: Option<Uses>,
    pub token_program_version: TokenProgramVersion,
    pub creators: Seq<Creator>,
}

impl View for MetadataArgs {
    type V = MetadataView;

    open spec fn view(&self) -> MetadataView {
        MetadataView {
            name: self.name@,
            symbol: self.symbol@,
            uri: self.uri@,
            seller_fee_basis_points: self.seller_fee_basis_points,
            primary_sale_happened: self.primary_sale_happened,
            is_mutable: self.is_mutable,
            edition_nonce: self.edition_nonce,
            token_standard: self.token_standard,
            collection: self.collection,
            uses: self.uses,
            token_program_version: self.token_program_version,
            creators: self.creators@,
        }
    }
}

/// The last creator of the list that carries the address, if any.
pub open spec fn creator_at(creators: Seq<Creator>, address: Pubkey) -> Option<Creator>
    decreases creators.len(),
{
    if creators.len() == 0 {
        None
    } else if creators.last().address == address {
        Some(creators.last())
    } else {
        creator_at(creators.drop_last(), address)
    }
}

/// Looks an address up in a creator list; of several entries with the same
/// address the last one counts.
pub fn find_creator(creators: &Vec<Creator>, address: &Pubkey) -> (found: Option<Creator>)
    ensures
        found == creator_at(creators@, *address),
{
    let mut at: usize = creators.len();
    proof {
        assert(creators@.take(at as int) =~= creators@);
    }
    while at > 0
        invariant
            at <= creators.len(),
            creator_at(creators@, *address) == creator_at(creators@.take(at as int), *address),
        decreases at,
    {
        at -= 1;
        let candidate = creators[at];
        proof {
            let prefix = creators@.take(at + 1);
            assert(prefix.last() == creators@[at as int]);
            assert(prefix.drop_last() =~= creators@.take(at as int));
        }
        if candidate.address == *address {
            return Some(candidate);
        }
    }
    proof {
        assert(creators@.take(0).len() == 0);
    }
    None
}

} // verus!
