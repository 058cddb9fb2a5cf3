//! The mint quota of one authority on one tree.
//!
//! An authority mints against a request that the tree's delegate has
//! approved up to some count. The record only ever grows: approval raises
//! what is approved, a mint raises what is consumed, and what is consumed
//! never passes what is approved.

use vstd::prelude::*;

use crate::error::BubblegumError;
use crate::pubkey::Pubkey;
use crate::tree::TreeConfig;

verus! {

/// A mint request as a mathematical value.
pub struct MintRequestView {
    pub tree: Pubkey,
    pub mint_authority: Pubkey,
    pub approved: nat,
    pub consumed: nat,
}

/// The quota of one authority on one tree.
#[derive(Clone, Copy, Debug, PartialEq, Eq)]
pub struct MintRequest {
    tree: Pubkey,
    mint_authority: Pubkey,
    approved: u64,
    consumed: u64,
}

impl View for MintRequest {
    type V = MintRequestView;

    closed spec fn view(&self) -> MintRequestView {
        MintRequestView {
            tree: self.tree,
            mint_authority: self.mint_authority,
            approved: self.approved as nat,
            consumed: self.consumed as nat,
        }
    }
}

/// One call on a mint request.
pub enum QuotaCall {
    /// The tree's delegate approves this many further mints.
    Approve(u64),
    /// This many mints are made against the request, on a tree with the
    /// given room.
    Consume { count: u64, room: nat },
}

impl MintRequestView {
    /// What is approved and not yet consumed.
    pub open spec fn left(self) -> int {
        self.approved - self.consumed
    }

    /// The invariant of every request: no more is consumed than approved,
    /// and both counts fit their eight bytes.
    pub open spec fn within_quota(self) -> bool {
        self.consumed <= self.approved <= u64::MAX
    }

    /// The request after an approval of `delta` more mints. The count stops
    /// at the largest that fits.
    pub open spec fn approved_by(self, delta: u64) -> MintRequestView {
        MintRequestView {
            approved: if self.approved + delta > u64::MAX {
                u64::MAX as nat
            } else {
                (self.approved + delta) as nat
            },
            ..self
        }
    }

    /// Whether `count` mints fit both the request and a tree with `room`
    /// left.
    pub open spec fn can_consume(self, count: u64, room: int) -> bool {
        count <= self.left() && count <= room
    }

    /// The request after `count` mints.
    pub open spec fn consumed_by(self, count: u64) -> MintRequestView {
        MintRequestView { consumed: (self.consumed + count) as nat, ..self }
    }

    /// The request after one call: an approval always counts, mints count
    /// only where they fit, and a call that is refused changes nothing.
    pub open spec fn after(self, call: QuotaCall) -> MintRequestView {
        match call {
            QuotaCall::Approve(delta) => self.approved_by(delta),
            QuotaCall::Consume { count, room } => {
                if self.can_consume(count, room as int) {
                    self.consumed_by(count)
                } else {
                    self
                }
            },
        }
    }

    /// The request after a sequence of calls, first to last.
    pub open spec fn after_all(self, calls: Seq<QuotaCall>) -> MintRequestView
        decreases calls.len(),
    {
        if calls.len() == 0 {
            self
        } else {
            self.after_all(calls.drop_last()).after(calls.last())
        }
    }
}

/// Whatever is approved and consumed, in whatever order: what is consumed
/// never exceeds what is approved, neither count ever shrinks, and the
/// request stays with its tree and its authority.
pub proof fn consumed_never_exceeds_approved(request: MintRequestView, calls: Seq<QuotaCall>)
    requires
        request.within_quota(),
    ensures
        request.after_all(calls).within_quota(),
        request.consumed <= request.after_all(calls).consumed,
        request.approved <= request.after_all(calls).approved,
        request.after_all(calls).tree == request.tree,
        request.after_all(calls).mint_authority == request.mint_authority,
    decreases calls.len(),
{
    if calls.len() > 0 {
        consumed_never_exceeds_approved(request, calls.drop_last());
    }
}

impl MintRequest {
    #[verifier::type_invariant]
    spec fn bounded(self) -> bool {
        self.consumed <= self.approved
    }

    /// Opens the request of `mint_authority` on `tree`, approved for
    /// `initial_capacity` mints, or for none where no capacity is given.
    /// Only who runs the tree, its creator or its delegate, may do so.
    pub fn create(
        config: &TreeConfig,
        tree: Pubkey,
        mint_authority: Pubkey,
        initial_capacity: Option<u64>,
        signer: &Pubkey,
    ) -> (outcome: Result<MintRequest, BubblegumError>)
        ensures
            match outcome {
                Ok(request) => {
                    &&& config@.is_run_by(*signer)
                    &&& request@ == (MintRequestView {
                        tree,
                        mint_authority,
                        approved: match initial_capacity {
                            Some(capacity) => capacity as nat,
                            None => 0,
                        },
                        consumed: 0,
                    })
                },
                Err(e) => !config@.is_run_by(*signer) && e == BubblegumError::PublicKeyMismatch,
            },
    {
        if !config.is_run_by(signer) {
            return Err(BubblegumError::PublicKeyMismatch);
        }
        let approved = match initial_capacity {
            Some(capacity) => capacity,
            None => 0,
        };
        Ok(MintRequest { tree, mint_authority, approved, consumed: 0 })
    }

    /// The request of `mint_authority` on `tree`, opened now unless it is
    /// there already, and whether it was opened now. A request that is there
    /// is handed back as it is, whoever asks; one that is not is opened as
    /// `create` opens it. A request that is there but is somebody else's is an
    /// error.
    pub fn upsert(
        existing: Option<MintRequest>,
        config: &TreeConfig,
        tree: Pubkey,
        mint_authority: Pubkey,
        initial_capacity: Option<u64>,
        signer: &Pubkey,
    ) -> (outcome: Result<(MintRequest, bool), BubblegumError>)
        ensures
            match existing {
                Some(found) => {
                    if found@.tree == tree && found@.mint_authority == mint_authority {
                        outcome == Ok::<(MintRequest, bool), BubblegumError>((found, false))
                    } else {
                        outcome == Err::<(MintRequest, bool), BubblegumError>(
                            BubblegumError::MintRequestKeyMismatch,
                        )
                    }
                },
                None => match outcome {
                    Ok((request, created)) => {
                        &&& created
                        &&& config@.is_run_by(*signer)
                        &&& request@ == (MintRequestView {
                            tree,
                            mint_authority,
                            approved: match initial_capacity {
                                Some(capacity) => capacity as nat,
                                None => 0,
                            },
                            consumed: 0,
                        })
                    },
                    Err(e) => !config@.is_run_by(*signer) && e
                        == BubblegumError::PublicKeyMismatch,
                },
            },
    {
        match existing {
            Some(found) => {
                if found.is_for(&tree, &mint_authority) {
                    Ok((found, false))
                } else {
                    Err(BubblegumError::MintRequestKeyMismatch)
                }
            },
            None => {
                match MintRequest::create(config, tree, mint_authority, initial_capacity, signer) {
                    Ok(request) => Ok((request, true)),
                    Err(e) => Err(e),
                }
            },
        }
    }

    /// The request with the given contents, if they make one: no more may be
    /// consumed than is approved.
    pub fn from_parts(tree: Pubkey, mint_authority: Pubkey, approved: u64, consumed: u64) -> (request:
        Option<MintRequest>)
        ensures
            request is Some <==> consumed <= approved,
            request matches Some(r) ==> r@ == (MintRequestView {
                tree,
                mint_authority,
                approved: approved as nat,
                consumed: consumed as nat,
            }),
    {
        if consumed <= approved {
            Some(MintRequest { tree, mint_authority, approved, consumed })
        } else {
            None
        }
    }

    /// The tree that the request is for.
    pub fn tree(&self) -> (tree: Pubkey)
        ensures
            tree == self@.tree,
    {
        self.tree
    }

    /// The authority that mints against the request.
    pub fn mint_authority(&self) -> (authority: Pubkey)
        ensures
            authority == self@.mint_authority,
    {
        self.mint_authority
    }

    /// How many mints have been approved in all.
    pub fn approved(&self) -> (approved: u64)
        ensures
            approved == self@.approved,
            self@.within_quota(),
    {
        proof {
            use_type_invariant(self);
        }
        self.approved
    }

    /// How many mints have been made; never more than are approved.
    pub fn consumed(&self) -> (consumed: u64)
        ensures
            consumed == self@.consumed,
            self@.within_quota(),
    {
        proof {
            use_type_invariant(self);
        }
        self.consumed
    }

    /// Whether `count` more mints are approved.
    pub fn has_mint_capacity(&self, count: u64) -> (fits: bool)
        ensures
            fits == (count <= self@.left()),
            self@.within_quota(),
    {
        proof {
            use_type_invariant(self);
        }
        count <= self.approved - self.consumed
    }

    /// Whether the request is the one of `mint_authority` on `tree`.
    pub fn is_for(&self, tree: &Pubkey, mint_authority: &Pubkey) -> (matches: bool)
        ensures
            matches == (self@.tree == *tree && self@.mint_authority == *mint_authority),
    {
        self.tree == *tree && self.mint_authority == *mint_authority
    }

    /// Approves `delta` further mints. Only the tree's delegate may do so;
    /// for anyone else the request stays as it is. The approved count stops
    /// at the largest that fits.
    pub fn approve(&mut self, config: &TreeConfig, signer: &Pubkey, delta: u64) -> (outcome: Result<
        (),
        BubblegumError,
    >)
        ensures
            match outcome {
                Ok(()) => {
                    &&& *signer == config@.tree_delegate
                    &&& final(self)@ == old(self)@.after(QuotaCall::Approve(delta))
                },
                Err(e) => {
                    &&& *signer != config@.tree_delegate
                    &&& e == BubblegumError::PublicKeyMismatch
                    &&& final(self)@ == old(self)@
                },
            },
            final(self)@.within_quota(),
    {
        proof {
            use_type_invariant(&*self);
        }
        if *signer != config.tree_delegate() {
            return Err(BubblegumError::PublicKeyMismatch);
        }
        self.approved = self.approved.saturating_add(delta);
        Ok(())
    }
}

/// Counts `count` mints against the request and the tree at once. They are
/// counted only if both have room: the request in what is approved and not
/// yet consumed, the tree in its capacity. Otherwise neither changes.
pub fn consume(config: &mut TreeConfig, request: &mut MintRequest, count: u64) -> (outcome: Result<
    (),
    BubblegumError,
>)
    ensures
        match outcome {
            Ok(()) => {
                &&& old(request)@.can_consume(count, old(config)@.room())
                &&& final(request)@ == old(request)@.consumed_by(count)
                &&& final(config)@ == old(config)@.with_minted(count as nat)
            },
            Err(e) => {
                &&& !old(request)@.can_consume(count, old(config)@.room())
                &&& e == BubblegumError::InsufficientMintCapacity
                &&& final(request)@ == old(request)@
                &&& final(config)@ == old(config)@
            },
        },
        final(request)@ == old(request)@.after(
            QuotaCall::Consume { count, room: old(config)@.room() as nat },
        ),
        final(request)@.within_quota(),
{
    proof {
        use_type_invariant(&*request);
    }
    if !request.has_mint_capacity(count) || !config.has_room_for(count) {
        return Err(BubblegumError::InsufficientMintCapacity);
    }
    request.consumed = request.consumed + count;
    config.record_mints(count);
    Ok(())
}

} // verus!
