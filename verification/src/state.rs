//! The states that a position of the tree goes through, and the steps
//! between them.
//!
//! A position starts out unminted. A mint makes it active; an active leaf is
//! passed on, delegated or vouched for and stays active, is burned and
//! leaves the position unminted for good, or is redeemed. A redeemed leaf is
//! restored and active again, or decompressed, which is final. Nothing else
//! is a step.
//!
//! The steps here start from a leaf that is there. The mint that puts it
//! there is prepared and counted against the quota of its authority, by
//! `mint` and `complete_mint`.

use vstd::prelude::*;

use crate::error::BubblegumError;
use crate::leaf::LeafSchema;
use crate::leaf::LeafView;
use crate::lifecycle::acts_for;
use crate::lifecycle::attestation_refusal;
use crate::lifecycle::burn;
use crate::lifecycle::cancel_redeem;
use crate::lifecycle::decompress;
use crate::lifecycle::delegate;
use crate::lifecycle::delegated;
use crate::lifecycle::describes;
use crate::lifecycle::reattested;
use crate::lifecycle::redeem;
use crate::lifecycle::redescribed;
use crate::lifecycle::removal;
use crate::lifecycle::replacement;
use crate::lifecycle::restoration;
use crate::lifecycle::set_creator_verified;
use crate::lifecycle::transfer;
use crate::lifecycle::transferred;
use crate::lifecycle::AssetOrder;
use crate::lifecycle::TreeInstruction;
use crate::lifecycle::TreeInstructionView;
use crate::lifecycle::Voucher;
use crate::lifecycle::VoucherView;
use crate::metadata::MetadataArgs;
use crate::pubkey::Pubkey;

verus! {

/// Where a position of the tree stands, with the contents that the caller
/// claims for it.
#[derive(Clone, Copy, Debug, PartialEq, Eq)]
pub enum LeafState {
    /// The position holds no leaf: none was minted there yet, or the one
    /// that was has been burned.
    Unminted,
    /// The position holds a leaf.
    Active { leaf: LeafSchema, index: u32 },
    /// The leaf has been taken out against a voucher.
    Redeemed { voucher: Voucher },
    /// The asset lives on as a token of its own.
    Decompressed,
}

/// A state as a mathematical value.
pub enum LeafStateView {
    Unminted,
    Active { leaf: LeafView, index: u32 },
    Redeemed { voucher: VoucherView },
    Decompressed,
}

impl View for LeafState {
    type V = LeafStateView;

    open spec fn view(&self) -> LeafStateView {
        match *self {
            LeafState::Unminted => LeafStateView::Unminted,
            LeafState::Active { leaf, index } => LeafStateView::Active { leaf: leaf@, index },
            LeafState::Redeemed { voucher } => LeafStateView::Redeemed { voucher: voucher@ },
            LeafState::Decompressed => LeafStateView::Decompressed,
        }
    }
}

/// What a signer asks for.
#[derive(Clone, Debug, PartialEq, Eq)]
pub enum LeafOperation {
    Transfer { new_owner: Pubkey },
    Delegate { new_delegate: Pubkey },
    /// Set the verified flag of `creator`; `metadata` is what the leaf
    /// commits to.
    SetCreatorVerified { metadata: MetadataArgs, creator: Pubkey, verified: bool },
    Burn,
    /// Take the leaf out of the tree, whose root is `root` at this moment.
    Redeem { root: [u8; 32] },
    CancelRedeem,
    /// Issue the asset as a token; `metadata` is what the leaf commits to.
    Decompress { metadata: MetadataArgs },
}

/// What a step asks of the outside world.
#[derive(Clone, Copy, Debug, PartialEq, Eq)]
pub enum Effect {
    /// A request to the tree engine.
    Tree(TreeInstruction),
    /// An order to the issuer of tokens.
    Issue(AssetOrder),
}

/// An effect as a mathematical value.
pub enum EffectView {
    Tree(TreeInstructionView),
    Issue(AssetOrder),
}

impl View for Effect {
    type V = EffectView;

    open spec fn view(&self) -> EffectView {
        match *self {
            Effect::Tree(instruction) => EffectView::Tree(instruction@),
            Effect::Issue(order) => EffectView::Issue(order),
        }
    }
}

/// One step: the state that follows, and what has to happen outside for the
/// step to count.
#[derive(Clone, Copy, Debug, PartialEq, Eq)]
pub struct Transition {
    pub next: LeafState,
    pub effect: Effect,
}

/// A step as a mathematical value.
pub struct TransitionView {
    pub next: LeafStateView,
    pub effect: EffectView,
}

impl View for Transition {
    type V = TransitionView;

    open spec fn view(&self) -> TransitionView {
        TransitionView { next: self.next@, effect: self.effect@ }
    }
}

/// The step that `operation` makes from `state` when `signer` asks for it,
/// or the reason why it makes none.
pub open spec fn step_outcome(state: LeafStateView, signer: Pubkey, operation: LeafOperation) -> Result<
    TransitionView,
    BubblegumError,
> {
    match (state, operation) {
        (LeafStateView::Active { leaf, index }, LeafOperation::Transfer { new_owner }) => {
            if acts_for(leaf, signer) {
                Ok(
                    TransitionView {
                        next: LeafStateView::Active { leaf: transferred(leaf, new_owner), index },
                        effect: EffectView::Tree(
                            replacement(index, leaf, transferred(leaf, new_owner)),
                        ),
                    },
                )
            } else {
                Err(BubblegumError::AssetOwnerMismatch)
            }
        },
        (LeafStateView::Active { leaf, index }, LeafOperation::Delegate { new_delegate }) => {
            if signer == leaf.owner {
                Ok(
                    TransitionView {
                        next: LeafStateView::Active { leaf: delegated(leaf, new_delegate), index },
                        effect: EffectView::Tree(
                            replacement(index, leaf, delegated(leaf, new_delegate)),
                        ),
                    },
                )
            } else {
                Err(BubblegumError::AssetOwnerMismatch)
            }
        },
        (
            LeafStateView::Active { leaf, index },
            LeafOperation::SetCreatorVerified { metadata, creator, verified },
        ) => {
            match attestation_refusal(leaf, metadata@, creator, verified, signer) {
                Some(e) => Err(e),
                None => {
                    let next = redescribed(leaf, reattested(metadata@, creator, verified));
                    Ok(
                        TransitionView {
                            next: LeafStateView::Active { leaf: next, index },
                            effect: EffectView::Tree(replacement(index, leaf, next)),
                        },
                    )
                },
            }
        },
        (LeafStateView::Active { leaf, index }, LeafOperation::Burn) => {
            if acts_for(leaf, signer) {
                Ok(
                    TransitionView {
                        next: LeafStateView::Unminted,
                        effect: EffectView::Tree(removal(index, leaf)),
                    },
                )
            } else {
                Err(BubblegumError::AssetOwnerMismatch)
            }
        },
        (LeafStateView::Active { leaf, index }, LeafOperation::Redeem { root }) => {
            if acts_for(leaf, signer) {
                Ok(
                    TransitionView {
                        next: LeafStateView::Redeemed {
                            voucher: VoucherView { leaf_schema: leaf, index, root: root@ },
                        },
                        effect: EffectView::Tree(removal(index, leaf)),
                    },
                )
            } else {
                Err(BubblegumError::AssetOwnerMismatch)
            }
        },
        (LeafStateView::Redeemed { voucher }, LeafOperation::CancelRedeem) => {
            if acts_for(voucher.leaf_schema, signer) {
                Ok(
                    TransitionView {
                        next: LeafStateView::Active {
                            leaf: voucher.leaf_schema,
                            index: voucher.index,
                        },
                        effect: EffectView::Tree(restoration(voucher.index, voucher.leaf_schema)),
                    },
                )
            } else {
                Err(BubblegumError::AssetOwnerMismatch)
            }
        },
        (LeafStateView::Redeemed { voucher }, LeafOperation::Decompress { metadata }) => {
            if signer != voucher.leaf_schema.owner {
                Err(BubblegumError::AssetOwnerMismatch)
            } else if !describes(metadata@, voucher.leaf_schema) {
                Err(BubblegumError::HashingMismatch)
            } else {
                Ok(
                    TransitionView {
                        next: LeafStateView::Decompressed,
                        effect: EffectView::Issue(
                            AssetOrder {
                                asset: voucher.leaf_schema.id,
                                recipient: voucher.leaf_schema.owner,
                                amount: 1,
                                decimals: 0,
                            },
                        ),
                    },
                )
            }
        },
        _ => Err(BubblegumError::LeafStateMismatch),
    }
}

/// Works out the step that `operation` makes from `state` when `signer`
/// asks for it. An operation that the state has no step for is refused as
/// such, whoever asks.
pub fn step(state: &LeafState, signer: &Pubkey, operation: &LeafOperation) -> (outcome: Result<
    Transition,
    BubblegumError,
>)
    ensures
        match outcome {
            Ok(transition) => step_outcome(state@, *signer, *operation) == Ok::<
                TransitionView,
                BubblegumError,
            >(transition@),
            Err(e) => step_outcome(state@, *signer, *operation) == Err::<
                TransitionView,
                BubblegumError,
            >(e),
        },
{
    match state {
        LeafState::Active { leaf, index } => {
            match operation {
                LeafOperation::Transfer { new_owner } => {
                    match transfer(leaf, *index, signer, *new_owner) {
                        Ok(update) => Ok(
                            Transition {
                                next: LeafState::Active { leaf: update.leaf, index: *index },
                                effect: Effect::Tree(update.instruction),
                            },
                        ),
                        Err(e) => Err(e),
                    }
                },
                LeafOperation::Delegate { new_delegate } => {
                    match delegate(leaf, *index, signer, *new_delegate) {
                        Ok(update) => Ok(
                            Transition {
                                next: LeafState::Active { leaf: update.leaf, index: *index },
                                effect: Effect::Tree(update.instruction),
                            },
                        ),
                        Err(e) => Err(e),
                    }
                },
                LeafOperation::SetCreatorVerified { metadata, creator, verified } => {
                    match set_creator_verified(
                        leaf,
                        *index,
                        metadata,
                        creator,
                        *verified,
                        signer,
                    ) {
                        Ok(done) => Ok(
                            Transition {
                                next: LeafState::Active { leaf: done.leaf, index: *index },
                                effect: Effect::Tree(done.instruction),
                            },
                        ),
                        Err(e) => Err(e),
                    }
                },
                LeafOperation::Burn => {
                    match burn(leaf, *index, signer) {
                        Ok(instruction) => Ok(
                            Transition {
                                next: LeafState::Unminted,
                                effect: Effect::Tree(instruction),
                            },
                        ),
                        Err(e) => Err(e),
                    }
                },
                LeafOperation::Redeem { root } => {
                    match redeem(leaf, *index, *root, signer) {
                        Ok(redemption) => Ok(
                            Transition {
                                next: LeafState::Redeemed { voucher: redemption.voucher },
                                effect: Effect::Tree(redemption.instruction),
                            },
                        ),
                        Err(e) => Err(e),
                    }
                },
                _ => Err(BubblegumError::LeafStateMismatch),
            }
        },
        LeafState::Redeemed { voucher } => {
            match operation {
                LeafOperation::CancelRedeem => {
                    match cancel_redeem(voucher, signer) {
                        Ok(update) => Ok(
                            Transition {
                                next: LeafState::Active { leaf: update.leaf, index: voucher.index },
                                effect: Effect::Tree(update.instruction),
                            },
                        ),
                        Err(e) => Err(e),
                    }
                },
                LeafOperation::Decompress { metadata } => {
                    match decompress(voucher, metadata, signer) {
                        Ok(order) => Ok(
                            Transition { next: LeafState::Decompressed, effect: Effect::Issue(order) },
                        ),
                        Err(e) => Err(e),
                    }
                },
                _ => Err(BubblegumError::LeafStateMismatch),
            }
        },
        _ => Err(BubblegumError::LeafStateMismatch),
    }
}

/// The asset that a state speaks of, as its handle and its nonce.
pub open spec fn asset_of(state: LeafStateView) -> Option<(Pubkey, u64)> {
    match state {
        LeafStateView::Active { leaf, index } => Some((leaf.id, leaf.nonce)),
        LeafStateView::Redeemed { voucher } => Some(
            (voucher.leaf_schema.id, voucher.leaf_schema.nonce),
        ),
        _ => None,
    }
}

/// The position in the tree that a state speaks of.
pub open spec fn position_of(state: LeafStateView) -> Option<u32> {
    match state {
        LeafStateView::Active { leaf, index } => Some(index),
        LeafStateView::Redeemed { voucher } => Some(voucher.index),
        _ => None,
    }
}

/// No step gives an asset another handle, another nonce or another
/// position: where a step leaves an asset at all, it is the one that was
/// there, where it was.
pub proof fn step_keeps_identity(state: LeafStateView, signer: Pubkey, operation: LeafOperation)
    ensures
        step_outcome(state, signer, operation) matches Ok(transition) ==> {
            &&& asset_of(transition.next) is Some ==> asset_of(transition.next) == asset_of(state)
            &&& position_of(transition.next) is Some ==> position_of(transition.next)
                == position_of(state)
        },
{
}

/// From a position without a leaf, and from a decompressed asset, no step
/// leads anywhere.
pub proof fn unminted_and_decompressed_are_final(
    state: LeafStateView,
    signer: Pubkey,
    operation: LeafOperation,
)
    requires
        state is Unminted || state is Decompressed,
    ensures
        step_outcome(state, signer, operation) == Err::<TransitionView, BubblegumError>(
            BubblegumError::LeafStateMismatch,
        ),
{
}

} // verus!
