//! The record of a tree: who runs it and how much of it is used.

use vstd::prelude::*;

use crate::error::BubblegumError;
use crate::pubkey::Pubkey;

verus! {

/// A tree record as a mathematical value.
pub struct TreeConfigView {
    pub tree_creator: Pubkey,
    pub tree_delegate: Pubkey,
    pub total_mint_capacity: nat,
    pub num_minted: nat,
}

/// The record of one tree. It never counts more mints than the tree has
/// room for.
#[derive(Clone, Copy, Debug, PartialEq, Eq)]
pub struct TreeConfig {
    tree_creator: Pubkey,
    tree_delegate: Pubkey,
    total_mint_capacity: u64,
    num_minted: u64,
}

impl View for TreeConfig {
    type V = TreeConfigView;

    closed spec fn view(&self) -> TreeConfigView {
        TreeConfigView {
            tree_creator: self.tree_creator,
            tree_delegate: self.tree_delegate,
            total_mint_capacity: self.total_mint_capacity as nat,
            num_minted: self.num_minted as nat,
        }
    }
}

impl TreeConfigView {
    /// Whether the principal runs the tree: as its creator or as its
    /// delegate.
    pub open spec fn is_run_by(self, principal: Pubkey) -> bool {
        principal == self.tree_creator || principal == self.tree_delegate
    }

    /// The room that is left in the tree.
    pub open spec fn room(self) -> int {
        self.total_mint_capacity - self.num_minted
    }

    /// The record after `count` more mints.
    pub open spec fn with_minted(self, count: nat) -> TreeConfigView {
        TreeConfigView { num_minted: self.num_minted + count, ..self }
    }

    /// The record with another delegate.
    pub open spec fn with_delegate(self, delegate: Pubkey) -> TreeConfigView {
        TreeConfigView { tree_delegate: delegate, ..self }
    }
}

impl TreeConfig {
    #[verifier::type_invariant]
    spec fn within_capacity(self) -> bool {
        self.num_minted <= self.total_mint_capacity
    }

    /// The record of a new tree: run by its creator alone, nothing minted.
    pub fn new(tree_creator: Pubkey, total_mint_capacity: u64) -> (config: TreeConfig)
        ensures
            config@ == (TreeConfigView {
                tree_creator,
                tree_delegate: tree_creator,
                total_mint_capacity: total_mint_capacity as nat,
                num_minted: 0,
            }),
    {
        TreeConfig { tree_creator, tree_delegate: tree_creator, total_mint_capacity, num_minted: 0 }
    }

    /// The record with the given contents, if they make one: the count of
    /// mints must not exceed the capacity.
    pub fn from_parts(
        tree_creator: Pubkey,
        tree_delegate: Pubkey,
        total_mint_capacity: u64,
        num_minted: u64,
    ) -> (config: Option<TreeConfig>)
        ensures
            config is Some <==> num_minted <= total_mint_capacity,
            config matches Some(c) ==> c@ == (TreeConfigView {
                tree_creator,
                tree_delegate,
                total_mint_capacity: total_mint_capacity as nat,
                num_minted: num_minted as nat,
            }),
    {
        if num_minted <= total_mint_capacity {
            Some(TreeConfig { tree_creator, tree_delegate, total_mint_capacity, num_minted })
        } else {
            None
        }
    }

    /// The principal that created the tree.
    pub fn tree_creator(&self) -> (creator: Pubkey)
        ensures
            creator == self@.tree_creator,
    {
        self.tree_creator
    }

    /// The principal that approves mint requests on the creator's behalf.
    pub fn tree_delegate(&self) -> (delegate: Pubkey)
        ensures
            delegate == self@.tree_delegate,
    {
        self.tree_delegate
    }

    /// How many leaves the tree has room for.
    pub fn total_mint_capacity(&self) -> (capacity: u64)
        ensures
            capacity == self@.total_mint_capacity,
    {
        self.total_mint_capacity
    }

    /// How many leaves have been minted so far; never more than the tree has
    /// room for.
    pub fn num_minted(&self) -> (minted: u64)
        ensures
            minted == self@.num_minted,
            minted <= self@.total_mint_capacity,
    {
        proof {
            use_type_invariant(self);
        }
        self.num_minted
    }

    /// Whether the tree has room for `count` more leaves.
    pub fn has_room_for(&self, count: u64) -> (fits: bool)
        ensures
            fits == (count <= self@.room()),
            0 <= self@.room(),
    {
        proof {
            use_type_invariant(self);
        }
        count <= self.total_mint_capacity - self.num_minted
    }

    /// Whether the principal runs the tree: as its creator or as its
    /// delegate.
    pub fn is_run_by(&self, principal: &Pubkey) -> (runs: bool)
        ensures
            runs == self@.is_run_by(*principal),
    {
        *principal == self.tree_creator || *principal == self.tree_delegate
    }

    /// Counts `count` more mints. The caller has made sure that they fit.
    pub(crate) fn record_mints(&mut self, count: u64)
        requires
            count <= old(self)@.room(),
        ensures
            final(self)@ == old(self)@.with_minted(count as nat),
    {
        proof {
            use_type_invariant(&*self);
        }
        self.num_minted = self.num_minted + count;
    }

    /// Hands the delegate's role to `new_delegate`. Only the creator of the
    /// tree may do so; for anyone else the record stays as it is.
    pub fn set_tree_delegate(&mut self, signer: &Pubkey, new_delegate: Pubkey) -> (outcome: Result<
        (),
        BubblegumError,
    >)
        ensures
            match outcome {
                Ok(()) => {
                    &&& *signer == old(self)@.tree_creator
                    &&& final(self)@ == old(self)@.with_delegate(new_delegate)
                },
                Err(e) => {
                    &&& *signer != old(self)@.tree_creator
                    &&& e == BubblegumError::PublicKeyMismatch
                    &&& final(self)@ == old(self)@
                },
            },
    {
        proof {
            use_type_invariant(&*self);
        }
        if *signer != self.tree_creator {
            return Err(BubblegumError::PublicKeyMismatch);
        }
        self.tree_delegate = new_delegate;
        Ok(())
    }
}

} // verus!
