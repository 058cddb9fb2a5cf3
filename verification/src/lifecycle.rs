//! The life of a leaf: minted, passed on, delegated, and in the end burned,
//! or redeemed and then restored or decompressed.
//!
//! No operation here touches the tree. Each one takes the contents that the
//! caller claims for a leaf, decides whether the signer may do what it asks,
//! and works out what the tree engine is to verify and swap. Whether the
//! claimed contents are the committed ones is the engine's verdict.

use vstd::prelude::*;

use crate::error::BubblegumError;
use crate::hashing::creators_digest;
use crate::hashing::hash_creators;
use crate::hashing::hash_metadata;
use crate::hashing::metadata_digest;
use crate::leaf::leaf_digest;
use crate::leaf::leaf_hash;
use crate::leaf::LeafSchema;
use crate::leaf::LeafView;
use crate::leaf::Version;
use crate::metadata::creator_at;
use crate::metadata::find_creator;
use crate::metadata::Creator;
use crate::metadata::MetadataArgs;
use crate::metadata::MetadataView;
use crate::pubkey::Pubkey;
use crate::request::consume;
use crate::request::MintRequest;
use crate::request::MintRequestView;
use crate::tree::TreeConfig;
use crate::tree::TreeConfigView;
use crate::update_metadata::assert_creator_flags;
use crate::update_metadata::assert_first_record_valid;
use crate::update_metadata::creator_flags_error;
use crate::update_metadata::first_record_outcome;

verus! {

// ---------------------------------------------------------------------------
// What goes to the tree engine and what comes back
// ---------------------------------------------------------------------------

/// The node of a position that holds no leaf: thirty-two zero bytes.
pub open spec fn empty_node() -> Seq<u8> {
    Seq::new(32, |i: int| 0u8)
}

/// The node of a position that holds no leaf.
pub fn empty_node_bytes() -> (node: [u8; 32])
    ensures
        node@ == empty_node(),
{
    let node = [0u8; 32];
    proof {
        assert(node@ =~= empty_node());
    }
    node
}

/// One request to the tree engine.
#[derive(Clone, Copy, Debug, PartialEq, Eq)]
pub enum TreeInstruction {
    /// Append `leaf` at the next free position.
    Append { leaf: [u8; 32] },
    /// Verify that `previous_leaf` is committed at `index` and put
    /// `new_leaf` in its place.
    Replace { index: u32, previous_leaf: [u8; 32], new_leaf: [u8; 32] },
    /// Verify that `previous_leaf` is committed at `index` and empty the
    /// position.
    Remove { index: u32, previous_leaf: [u8; 32] },
}

/// A request to the tree engine as a mathematical value.
pub enum TreeInstructionView {
    Append { leaf: Seq<u8> },
    Replace { index: u32, previous_leaf: Seq<u8>, new_leaf: Seq<u8> },
    Remove { index: u32, previous_leaf: Seq<u8> },
}

impl View for TreeInstruction {
    type V = TreeInstructionView;

    open spec fn view(&self) -> TreeInstructionView {
        match *self {
            TreeInstruction::Append { leaf } => TreeInstructionView::Append { leaf: leaf@ },
            TreeInstruction::Replace {
                index,
                previous_leaf,
                new_leaf,
            } => TreeInstructionView::Replace {
                index,
                previous_leaf: previous_leaf@,
                new_leaf: new_leaf@,
            },
            TreeInstruction::Remove { index, previous_leaf } => TreeInstructionView::Remove {
                index,
                previous_leaf: previous_leaf@,
            },
        }
    }
}

/// The request that swaps the leaf `before` at `index` for the leaf `after`.
pub open spec fn replacement(index: u32, before: LeafView, after: LeafView) -> TreeInstructionView {
    TreeInstructionView::Replace {
        index,
        previous_leaf: leaf_digest(before),
        new_leaf: leaf_digest(after),
    }
}

/// The request that takes the leaf `before` out of the tree at `index`.
pub open spec fn removal(index: u32, before: LeafView) -> TreeInstructionView {
    TreeInstructionView::Remove { index, previous_leaf: leaf_digest(before) }
}

/// The request that puts the leaf `after` back at the emptied `index`.
pub open spec fn restoration(index: u32, after: LeafView) -> TreeInstructionView {
    TreeInstructionView::Replace { index, previous_leaf: empty_node(), new_leaf: leaf_digest(after) }
}

// ---------------------------------------------------------------------------
// Who may act on a leaf
// ---------------------------------------------------------------------------

/// Whether the signer is the owner of the leaf or its delegate.
pub open spec fn acts_for(leaf: LeafView, signer: Pubkey) -> bool {
    signer == leaf.owner || signer == leaf.delegate
}

/// Whether the signer is the owner of the leaf or its delegate.
pub fn is_leaf_authority(leaf: &LeafSchema, signer: &Pubkey) -> (allowed: bool)
    ensures
        allowed == acts_for(leaf@, *signer),
{
    *signer == leaf.owner || *signer == leaf.delegate
}

// ---------------------------------------------------------------------------
// Transfer and delegate
// ---------------------------------------------------------------------------

/// A leaf after one operation, with the request that commits it.
#[derive(Clone, Copy, Debug, PartialEq, Eq)]
pub struct LeafUpdate {
    pub leaf: LeafSchema,
    pub instruction: TreeInstruction,
}

/// The leaf in the hands of `new_owner`. A delegate does not pass on with
/// the asset: the new owner is its own delegate.
pub open spec fn transferred(leaf: LeafView, new_owner: Pubkey) -> LeafView {
    LeafView { owner: new_owner, delegate: new_owner, ..leaf }
}

/// The leaf with `new_delegate` acting for its owner.
pub open spec fn delegated(leaf: LeafView, new_delegate: Pubkey) -> LeafView {
    LeafView { delegate: new_delegate, ..leaf }
}

/// Passes the asset on to `new_owner`. The owner may do so, and so may the
/// delegate.
pub fn transfer(leaf: &LeafSchema, index: u32, signer: &Pubkey, new_owner: Pubkey) -> (outcome:
    Result<LeafUpdate, BubblegumError>)
    ensures
        match outcome {
            Ok(update) => {
                &&& acts_for(leaf@, *signer)
                &&& update.leaf@ == transferred(leaf@, new_owner)
                &&& update.instruction@ == replacement(index, leaf@, update.leaf@)
            },
            Err(e) => !acts_for(leaf@, *signer) && e == BubblegumError::AssetOwnerMismatch,
        },
{
    if !is_leaf_authority(leaf, signer) {
        return Err(BubblegumError::AssetOwnerMismatch);
    }
    let next = leaf.held_by(new_owner, new_owner);
    let instruction = TreeInstruction::Replace {
        index,
        previous_leaf: leaf_hash(leaf),
        new_leaf: leaf_hash(&next),
    };
    Ok(LeafUpdate { leaf: next, instruction })
}

/// Names `new_delegate` to act for the owner. Only the owner may do so.
pub fn delegate(leaf: &LeafSchema, index: u32, signer: &Pubkey, new_delegate: Pubkey) -> (outcome:
    Result<LeafUpdate, BubblegumError>)
    ensures
        match outcome {
            Ok(update) => {
                &&& *signer == leaf@.owner
                &&& update.leaf@ == delegated(leaf@, new_delegate)
                &&& update.instruction@ == replacement(index, leaf@, update.leaf@)
            },
            Err(e) => *signer != leaf@.owner && e == BubblegumError::AssetOwnerMismatch,
        },
{
    if *signer != leaf.owner {
        return Err(BubblegumError::AssetOwnerMismatch);
    }
    let next = leaf.held_by(leaf.owner, new_delegate);
    let instruction = TreeInstruction::Replace {
        index,
        previous_leaf: leaf_hash(leaf),
        new_leaf: leaf_hash(&next),
    };
    Ok(LeafUpdate { leaf: next, instruction })
}

/// An asset that is passed on and passed back is with its owner again, who
/// is then its own delegate; handle, nonce and digests are what they were at
/// every step. Where the owner was its own delegate before, as after a mint
/// that names no delegate, the leaf is the very same again.
pub proof fn transfer_there_and_back(leaf: LeafView, other: Pubkey)
    ensures
        ({
            let there = transferred(leaf, other);
            let back = transferred(there, leaf.owner);
            &&& there.owner == other && there.delegate == other
            &&& there.nonce == leaf.nonce && there.id == leaf.id
            &&& back.owner == leaf.owner && back.delegate == leaf.owner
            &&& back.nonce == leaf.nonce && back.id == leaf.id
            &&& back.data_hash == leaf.data_hash && back.creator_hash == leaf.creator_hash
            &&& leaf.delegate == leaf.owner ==> back == leaf && leaf_digest(back) == leaf_digest(leaf)
        }),
{
}

// ---------------------------------------------------------------------------
// Burn
// ---------------------------------------------------------------------------

/// Destroys the asset: its position is emptied for good. The owner may do
/// so, and so may the delegate.
pub fn burn(leaf: &LeafSchema, index: u32, signer: &Pubkey) -> (outcome: Result<
    TreeInstruction,
    BubblegumError,
>)
    ensures
        match outcome {
            Ok(instruction) => acts_for(leaf@, *signer) && instruction@ == removal(index, leaf@),
            Err(e) => !acts_for(leaf@, *signer) && e == BubblegumError::AssetOwnerMismatch,
        },
{
    if !is_leaf_authority(leaf, signer) {
        return Err(BubblegumError::AssetOwnerMismatch);
    }
    Ok(TreeInstruction::Remove { index, previous_leaf: leaf_hash(leaf) })
}

// ---------------------------------------------------------------------------
// Redeem, cancel, decompress
// ---------------------------------------------------------------------------

/// What is kept of a leaf while it is out of the tree: its contents, and
/// where and under which root it was taken out.
#[derive(Clone, Copy, Debug, PartialEq, Eq)]
pub struct Voucher {
    pub leaf_schema: LeafSchema,
    pub index: u32,
    pub root: [u8; 32],
}

/// A voucher as a mathematical value.
pub struct VoucherView {
    pub leaf_schema: LeafView,
    pub index: u32,
    pub root: Seq<u8>,
}

impl View for Voucher {
    type V = VoucherView;

    open spec fn view(&self) -> VoucherView {
        VoucherView { leaf_schema: self.leaf_schema@, index: self.index, root: self.root@ }
    }
}

/// A redeemed leaf: the voucher that stands for it, with the request that
/// takes it out of the tree.
#[derive(Clone, Copy, Debug, PartialEq, Eq)]
pub struct Redemption {
    pub voucher: Voucher,
    pub instruction: TreeInstruction,
}

/// Takes the asset out of the tree against a voucher. The owner may do so,
/// and so may the delegate.
pub fn redeem(leaf: &LeafSchema, index: u32, root: [u8; 32], signer: &Pubkey) -> (outcome: Result<
    Redemption,
    BubblegumError,
>)
    ensures
        match outcome {
            Ok(redemption) => {
                &&& acts_for(leaf@, *signer)
                &&& redemption.voucher@ == (VoucherView { leaf_schema: leaf@, index, root: root@ })
                &&& redemption.instruction@ == removal(index, leaf@)
            },
            Err(e) => !acts_for(leaf@, *signer) && e == BubblegumError::AssetOwnerMismatch,
        },
{
    if !is_leaf_authority(leaf, signer) {
        return Err(BubblegumError::AssetOwnerMismatch);
    }
    let voucher = Voucher { leaf_schema: *leaf, index, root };
    let instruction = TreeInstruction::Remove { index, previous_leaf: leaf_hash(leaf) };
    Ok(Redemption { voucher, instruction })
}

/// Puts a redeemed asset back where it was, as it was. The owner named in
/// the voucher may do so, and so may the delegate named there.
pub fn cancel_redeem(voucher: &Voucher, signer: &Pubkey) -> (outcome: Result<
    LeafUpdate,
    BubblegumError,
>)
    ensures
        match outcome {
            Ok(update) => {
                &&& acts_for(voucher@.leaf_schema, *signer)
                &&& update.leaf@ == voucher@.leaf_schema
                &&& update.instruction@ == restoration(voucher@.index, voucher@.leaf_schema)
            },
            Err(e) => !acts_for(voucher@.leaf_schema, *signer) && e
                == BubblegumError::AssetOwnerMismatch,
        },
{
    if !is_leaf_authority(&voucher.leaf_schema, signer) {
        return Err(BubblegumError::AssetOwnerMismatch);
    }
    let instruction = TreeInstruction::Replace {
        index: voucher.index,
        previous_leaf: empty_node_bytes(),
        new_leaf: leaf_hash(&voucher.leaf_schema),
    };
    Ok(LeafUpdate { leaf: voucher.leaf_schema, instruction })
}

/// A leaf that is redeemed and then restored is committed again with the
/// hash it had, at the index it had: what the restoration puts in is what
/// the redemption took out.
pub proof fn redeem_then_cancel_restores(leaf: LeafView, index: u32, root: Seq<u8>)
    ensures
        ({
            let voucher = VoucherView { leaf_schema: leaf, index, root };
            &&& removal(index, leaf) == TreeInstructionView::Remove {
                index,
                previous_leaf: leaf_digest(leaf),
            }
            &&& restoration(voucher.index, voucher.leaf_schema) == TreeInstructionView::Replace {
                index,
                previous_leaf: empty_node(),
                new_leaf: leaf_digest(leaf),
            }
        }),
{
}

/// The order to issue a redeemed asset as a token of its own.
#[derive(Clone, Copy, Debug, PartialEq, Eq)]
pub struct AssetOrder {
    /// Handle of the asset that is issued.
    pub asset: Pubkey,
    /// Who receives it.
    pub recipient: Pubkey,
    /// How many units are issued: always one.
    pub amount: u64,
    /// How far a unit divides: not at all.
    pub decimals: u8,
}

/// Whether a metadata record is the one that the leaf commits to.
pub open spec fn describes(metadata: MetadataView, leaf: LeafView) -> bool {
    metadata_digest(metadata) == leaf.data_hash && creators_digest(metadata.creators)
        == leaf.creator_hash
}

/// Whether a metadata record is the one that the leaf commits to.
pub fn metadata_matches_leaf(metadata: &MetadataArgs, leaf: &LeafSchema) -> (matches: bool)
    ensures
        matches == describes(metadata@, leaf@),
{
    let data_hash = hash_metadata(metadata);
    let creator_hash = hash_creators(&metadata.creators);
    leaf.commits_to(&data_hash, &creator_hash)
}

/// Turns a redeemed asset into a token of its own: one unit, indivisible,
/// for the owner named in the voucher. Only that owner may ask for it, and
/// the metadata supplied must be what the leaf commits to.
pub fn decompress(voucher: &Voucher, metadata: &MetadataArgs, signer: &Pubkey) -> (outcome: Result<
    AssetOrder,
    BubblegumError,
>)
    ensures
        match outcome {
            Ok(order) => {
                &&& *signer == voucher@.leaf_schema.owner
                &&& describes(metadata@, voucher@.leaf_schema)
                &&& order == (AssetOrder {
                    asset: voucher@.leaf_schema.id,
                    recipient: voucher@.leaf_schema.owner,
                    amount: 1,
                    decimals: 0,
                })
            },
            Err(e) => {
                if *signer != voucher@.leaf_schema.owner {
                    e == BubblegumError::AssetOwnerMismatch
                } else {
                    !describes(metadata@, voucher@.leaf_schema) && e
                        == BubblegumError::HashingMismatch
                }
            },
        },
{
    if *signer != voucher.leaf_schema.owner {
        return Err(BubblegumError::AssetOwnerMismatch);
    }
    if !metadata_matches_leaf(metadata, &voucher.leaf_schema) {
        return Err(BubblegumError::HashingMismatch);
    }
    Ok(
        AssetOrder {
            asset: voucher.leaf_schema.id,
            recipient: voucher.leaf_schema.owner,
            amount: 1,
            decimals: 0,
        },
    )
}

// ---------------------------------------------------------------------------
// The engine's answer
// ---------------------------------------------------------------------------

/// What the tree engine answers to a request.
#[derive(Clone, Copy, Debug, PartialEq, Eq)]
pub enum TreeResponse {
    /// The request was carried out: the position it touched, and the root
    /// that the tree has now.
    Committed { index: u32, root: [u8; 32] },
    /// The proof did not fit the tree as it stands. Nothing was changed.
    Rejected,
}

/// The root that the tree has after a request, or the failure of the
/// request where the engine refused it.
pub fn confirm(response: &TreeResponse) -> (outcome: Result<[u8; 32], BubblegumError>)
    ensures
        match *response {
            TreeResponse::Committed { index, root } => outcome == Ok::<[u8; 32], BubblegumError>(
                root,
            ),
            TreeResponse::Rejected => outcome == Err::<[u8; 32], BubblegumError>(
                BubblegumError::LeafProofRejected,
            ),
        },
{
    match response {
        TreeResponse::Committed { index: _, root } => Ok(*root),
        TreeResponse::Rejected => Err(BubblegumError::LeafProofRejected),
    }
}

// ---------------------------------------------------------------------------
// Mint
// ---------------------------------------------------------------------------

/// The leaf of an asset at its mint. Where no delegate is named the owner is
/// its own.
pub open spec fn minted(
    id: Pubkey,
    owner: Pubkey,
    delegate: Option<Pubkey>,
    nonce: u64,
    metadata: MetadataView,
) -> LeafView {
    LeafView {
        version: Version::V1,
        id,
        owner,
        delegate: match delegate {
            Some(named) => named,
            None => owner,
        },
        nonce,
        data_hash: metadata_digest(metadata),
        creator_hash: creators_digest(metadata.creators),
    }
}

/// Why `mint_authority` may not mint an asset with this metadata on `tree`,
/// if it may not: the request is somebody else's, or the request or the tree
/// has no room for one more, or the metadata cannot be a first record.
pub open spec fn mint_refusal(
    config: TreeConfigView,
    request: MintRequestView,
    tree: Pubkey,
    mint_authority: Pubkey,
    metadata: MetadataView,
) -> Option<BubblegumError> {
    if !(request.tree == tree && request.mint_authority == mint_authority) {
        Some(BubblegumError::MintRequestKeyMismatch)
    } else if !request.can_consume(1, config.room()) {
        Some(BubblegumError::InsufficientMintCapacity)
    } else {
        match first_record_outcome(metadata, mint_authority) {
            Err(e) => Some(e),
            Ok(_) => None,
        }
    }
}

/// Prepares the mint of an asset on `tree`: the new leaf, with the request
/// that appends it. The leaf takes the tree's mint count as its nonce.
/// Nothing is counted yet: that is for `complete_mint`, once the engine has
/// appended the leaf.
pub fn mint(
    config: &TreeConfig,
    request: &MintRequest,
    tree: &Pubkey,
    mint_authority: &Pubkey,
    id: Pubkey,
    owner: Pubkey,
    delegate: Option<Pubkey>,
    metadata: &MetadataArgs,
) -> (outcome: Result<LeafUpdate, BubblegumError>)
    ensures
        match outcome {
            Ok(update) => {
                &&& mint_refusal(config@, request@, *tree, *mint_authority, metadata@) is None
                &&& update.leaf@ == minted(
                    id,
                    owner,
                    delegate,
                    config@.num_minted as u64,
                    metadata@,
                )
                &&& update.instruction@ == TreeInstructionView::Append {
                    leaf: leaf_digest(update.leaf@),
                }
            },
            Err(e) => mint_refusal(config@, request@, *tree, *mint_authority, metadata@) == Some(
                e,
            ),
        },
{
    if !request.is_for(tree, mint_authority) {
        return Err(BubblegumError::MintRequestKeyMismatch);
    }
    if !request.has_mint_capacity(1) || !config.has_room_for(1) {
        return Err(BubblegumError::InsufficientMintCapacity);
    }
    match assert_first_record_valid(metadata, mint_authority) {
        Ok(()) => {},
        Err(e) => {
            return Err(e);
        },
    }
    let leaf = LeafSchema::new_v1(
        id,
        owner,
        delegate,
        config.num_minted(),
        hash_metadata(metadata),
        hash_creators(&metadata.creators),
    );
    let instruction = TreeInstruction::Append { leaf: leaf_hash(&leaf) };
    Ok(LeafUpdate { leaf, instruction })
}

/// An asset that is minted without a named delegate, passed on and passed
/// back has the leaf of its mint again: the same owner, who is its own
/// delegate, and the same nonce, which no transfer touches.
pub proof fn mint_transfer_there_and_back(
    id: Pubkey,
    owner: Pubkey,
    nonce: u64,
    metadata: MetadataView,
    other: Pubkey,
)
    ensures
        ({
            let leaf = minted(id, owner, None, nonce, metadata);
            let there = transferred(leaf, other);
            let back = transferred(there, owner);
            &&& leaf.owner == owner && leaf.delegate == owner && leaf.nonce == nonce
            &&& there.owner == other && there.delegate == other && there.nonce == nonce
            &&& back == leaf
        }),
{
}

/// Why the mint of `leaf` cannot be counted, if it cannot: the engine
/// refused to append it, or the leaf was prepared for another mint count
/// than the tree has now, or the room has gone in the meantime.
pub open spec fn completion_refusal(
    config: TreeConfigView,
    request: MintRequestView,
    leaf: LeafView,
    response: TreeResponse,
) -> Option<BubblegumError> {
    if response is Rejected {
        Some(BubblegumError::LeafProofRejected)
    } else if leaf.nonce != config.num_minted {
        Some(BubblegumError::LeafStateMismatch)
    } else if !request.can_consume(1, config.room()) {
        Some(BubblegumError::InsufficientMintCapacity)
    } else {
        None
    }
}

/// Counts a mint that the engine has answered: one more against the
/// request, one more on the tree, both or neither. A mint that the engine
/// refused is not counted. Where the mint counts, the position that the
/// engine gave the leaf is handed back.
pub fn complete_mint(
    config: &mut TreeConfig,
    request: &mut MintRequest,
    leaf: &LeafSchema,
    response: &TreeResponse,
) -> (outcome: Result<u32, BubblegumError>)
    ensures
        match outcome {
            Ok(position) => {
                &&& completion_refusal(old(config)@, old(request)@, leaf@, *response) is None
                &&& *response matches TreeResponse::Committed { index, root } && position == index
                &&& final(request)@ == old(request)@.consumed_by(1)
                &&& final(config)@ == old(config)@.with_minted(1)
            },
            Err(e) => {
                &&& completion_refusal(old(config)@, old(request)@, leaf@, *response) == Some(e)
                &&& final(request)@ == old(request)@
                &&& final(config)@ == old(config)@
            },
        },
        final(request)@.within_quota(),
{
    let fits = request.has_mint_capacity(1) && config.has_room_for(1);
    let position = match response {
        TreeResponse::Committed { index, root: _ } => *index,
        TreeResponse::Rejected => {
            return Err(BubblegumError::LeafProofRejected);
        },
    };
    if leaf.nonce != config.num_minted() {
        return Err(BubblegumError::LeafStateMismatch);
    }
    if !fits {
        return Err(BubblegumError::InsufficientMintCapacity);
    }
    match consume(config, request, 1) {
        Ok(()) => Ok(position),
        Err(e) => Err(e),
    }
}

// ---------------------------------------------------------------------------
// A creator vouches for the asset, or no longer does
// ---------------------------------------------------------------------------

/// The creator list with the flag of `address` set to `verified`.
pub open spec fn with_flag(creators: Seq<Creator>, address: Pubkey, verified: bool) -> Seq<Creator> {
    Seq::new(
        creators.len(),
        |i: int|
            if creators[i].address == address {
                Creator { verified, ..creators[i] }
            } else {
                creators[i]
            },
    )
}

/// The metadata with the flag of the creator `address` set to `verified`.
pub open spec fn reattested(metadata: MetadataView, address: Pubkey, verified: bool) -> MetadataView {
    MetadataView { creators: with_flag(metadata.creators, address, verified), ..metadata }
}

/// The leaf that commits to other metadata and is otherwise the same.
pub open spec fn redescribed(leaf: LeafView, metadata: MetadataView) -> LeafView {
    LeafView {
        data_hash: metadata_digest(metadata),
        creator_hash: creators_digest(metadata.creators),
        ..leaf
    }
}

/// Why `signer` may not set the flag of `creator` on this asset, if it may
/// not: the metadata is not what the leaf commits to, or it names no such
/// creator, or the flag is not the signer's to set.
pub open spec fn attestation_refusal(
    leaf: LeafView,
    metadata: MetadataView,
    creator: Pubkey,
    verified: bool,
    signer: Pubkey,
) -> Option<BubblegumError> {
    if !describes(metadata, leaf) {
        Some(BubblegumError::HashingMismatch)
    } else if creator_at(metadata.creators, creator) is None {
        Some(BubblegumError::CreatorNotFound)
    } else {
        creator_flags_error(
            with_flag(metadata.creators, creator, verified),
            metadata.creators,
            signer,
            true,
        )
    }
}

/// An asset whose metadata has changed: the new metadata, the leaf that
/// commits to it, and the request that commits the leaf.
#[derive(Clone, Debug, PartialEq, Eq)]
pub struct Reattestation {
    pub metadata: MetadataArgs,
    pub leaf: LeafSchema,
    pub instruction: TreeInstruction,
}

/// The creator list with the flag of `address` set to `verified`.
pub fn set_flag(creators: &Vec<Creator>, address: &Pubkey, verified: bool) -> (changed: Vec<Creator>)
    ensures
        changed@ == with_flag(creators@, *address, verified),
{
    let mut changed: Vec<Creator> = Vec::new();
    let mut at: usize = 0;
    while at < creators.len()
        invariant
            at <= creators.len(),
            changed@ == with_flag(creators@, *address, verified).take(at as int),
        decreases creators.len() - at,
    {
        let creator = creators[at];
        if creator.address == *address {
            changed.push(Creator { address: creator.address, verified, share: creator.share });
        } else {
            changed.push(creator);
        }
        at += 1;
        proof {
            assert(changed@ =~= with_flag(creators@, *address, verified).take(at as int));
        }
    }
    proof {
        assert(changed@ =~= with_flag(creators@, *address, verified));
    }
    changed
}

/// Sets the verified flag of `creator` on an asset and commits the asset
/// anew. A creator speaks only for itself: the signer has to be the creator
/// whose flag changes.
pub fn set_creator_verified(
    leaf: &LeafSchema,
    index: u32,
    metadata: &MetadataArgs,
    creator: &Pubkey,
    verified: bool,
    signer: &Pubkey,
) -> (outcome: Result<Reattestation, BubblegumError>)
    ensures
        match outcome {
            Ok(done) => {
                &&& attestation_refusal(leaf@, metadata@, *creator, verified, *signer) is None
                &&& done.metadata@ == reattested(metadata@, *creator, verified)
                &&& done.leaf@ == redescribed(leaf@, done.metadata@)
                &&& done.instruction@ == replacement(index, leaf@, done.leaf@)
            },
            Err(e) => attestation_refusal(leaf@, metadata@, *creator, verified, *signer) == Some(
                e,
            ),
        },
{
    if !metadata_matches_leaf(metadata, leaf) {
        return Err(BubblegumError::HashingMismatch);
    }
    if find_creator(&metadata.creators, creator).is_none() {
        return Err(BubblegumError::CreatorNotFound);
    }
    let creators = set_flag(&metadata.creators, creator, verified);
    match assert_creator_flags(&creators, &metadata.creators, signer, true) {
        Ok(()) => {},
        Err(e) => {
            return Err(e);
        },
    }
    let changed = MetadataArgs {
        name: metadata.name.clone(),
        symbol: metadata.symbol.clone(),
        uri: metadata.uri.clone(),
        seller_fee_basis_points: metadata.seller_fee_basis_points,
        primary_sale_happened: metadata.primary_sale_happened,
        is_mutable: metadata.is_mutable,
        edition_nonce: metadata.edition_nonce,
        token_standard: metadata.token_standard,
        collection: metadata.collection,
        uses: metadata.uses,
        token_program_version: metadata.token_program_version,
        creators,
    };
    let next = leaf.with_hashes(hash_metadata(&changed), hash_creators(&changed.creators));
    let instruction = TreeInstruction::Replace {
        index,
        previous_leaf: leaf_hash(leaf),
        new_leaf: leaf_hash(&next),
    };
    Ok(Reattestation { metadata: changed, leaf: next, instruction })
}

/// A creator vouches for the asset.
pub fn verify_creator(leaf: &LeafSchema, index: u32, metadata: &MetadataArgs, creator: &Pubkey) -> (outcome:
    Result<Reattestation, BubblegumError>)
    ensures
        match outcome {
            Ok(done) => {
                &&& attestation_refusal(leaf@, metadata@, *creator, true, *creator) is None
                &&& done.metadata@ == reattested(metadata@, *creator, true)
                &&& done.leaf@ == redescribed(leaf@, done.metadata@)
                &&& done.instruction@ == replacement(index, leaf@, done.leaf@)
            },
            Err(e) => attestation_refusal(leaf@, metadata@, *creator, true, *creator) == Some(e),
        },
{
    set_creator_verified(leaf, index, metadata, creator, true, creator)
}

/// A creator withdraws from vouching for the asset.
pub fn unverify_creator(leaf: &LeafSchema, index: u32, metadata: &MetadataArgs, creator: &Pubkey) -> (outcome:
    Result<Reattestation, BubblegumError>)
    ensures
        match outcome {
            Ok(done) => {
                &&& attestation_refusal(leaf@, metadata@, *creator, false, *creator) is None
                &&& done.metadata@ == reattested(metadata@, *creator, false)
                &&& done.leaf@ == redescribed(leaf@, done.metadata@)
                &&& done.instruction@ == replacement(index, leaf@, done.leaf@)
            },
            Err(e) => attestation_refusal(leaf@, metadata@, *creator, false, *creator) == Some(e),
        },
{
    set_creator_verified(leaf, index, metadata, creator, false, creator)
}

} // verus!
