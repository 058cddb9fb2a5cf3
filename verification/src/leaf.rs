//! The leaf record: the unit that the tree commits to.

use vstd::bytes::lemma_auto_spec_u64_to_from_le_bytes;
use vstd::bytes::spec_u64_to_le_bytes;
use vstd::bytes::u64_to_le_bytes;
use vstd::prelude::*;

use crate::error::BubblegumError;
use crate::hashing::bytes_of;
use crate::hashing::keccak256;
use crate::hashing::keccak_hashv;
use crate::pubkey::same_bytes;
use crate::pubkey::Pubkey;

verus! {

/// The layout that a leaf is hashed in.
#[derive(Clone, Copy, Debug, PartialEq, Eq, Structural, Hash)]
pub enum Version {
    V1,
}

impl Version {
    /// The byte that stands for the version in the hash.
    pub open spec fn tag(self) -> u8 {
        match self {
            Version::V1 => 1,
        }
    }

    /// The byte that stands for the version in the hash.
    pub fn to_bytes(&self) -> (byte: u8)
        ensures
            byte == self.tag(),
    {
        match self {
            Version::V1 => 1,
        }
    }

    /// The version that a byte stands for. Only versions that this library
    /// can hash are known.
    pub fn from_byte(byte: u8) -> (version: Result<Version, BubblegumError>)
        ensures
            match version {
                Ok(v) => v.tag() == byte,
                Err(e) => e == BubblegumError::UnsupportedSchemaVersion && forall|v: Version|
                    v.tag() != byte,
            },
    {
        if byte == 1 {
            Ok(Version::V1)
        } else {
            Err(BubblegumError::UnsupportedSchemaVersion)
        }
    }
}

/// The whole state of one asset. Only its hash is stored, in the tree; the
/// record itself travels with every operation on the asset.
#[derive(Clone, Copy, Debug, PartialEq, Eq, Hash)]
pub struct LeafSchema {
    pub version: Version,
    /// Handle of the asset; never changes.
    pub id: Pubkey,
    pub owner: Pubkey,
    /// The owner itself unless the owner has named somebody else.
    pub delegate: Pubkey,
    /// The tree's mint count when the asset was minted; never changes.
    pub nonce: u64,
    /// Digest of the asset's metadata.
    pub data_hash: [u8; 32],
    /// Digest of the asset's creator list.
    pub creator_hash: [u8; 32],
}

/// A leaf as a mathematical value: its two digests as sequences of bytes.
pub struct LeafView {
    pub version: Version,
    pub id: Pubkey,
    pub owner: Pubkey,
    pub delegate: Pubkey,
    pub nonce: u64,
    pub data_hash: Seq<u8>,
    pub creator_hash: Seq<u8>,
}

impl View for LeafSchema {
    type V = LeafView;

    open spec fn view(&self) -> LeafView {
        LeafView {
            version: self.version,
            id: self.id,
            owner: self.owner,
            delegate: self.delegate,
            nonce: self.nonce,
            data_hash: self.data_hash@,
            creator_hash: self.creator_hash@,
        }
    }
}

/// What is hashed for a leaf: seven segments, one per field, the nonce in
/// eight bytes little-endian.
pub open spec fn leaf_segments(leaf: LeafView) -> Seq<Seq<u8>> {
    seq![
        seq![leaf.version.tag()],
        leaf.id.bytes@,
        leaf.owner.bytes@,
        leaf.delegate.bytes@,
        spec_u64_to_le_bytes(leaf.nonce),
        leaf.data_hash,
        leaf.creator_hash,
    ]
}

/// The hash of a leaf.
pub open spec fn leaf_digest(leaf: LeafView) -> Seq<u8> {
    keccak256(leaf_segments(leaf))
}

/// The bytes that are hashed for a leaf: its segments, one after the other.
pub open spec fn leaf_preimage(leaf: LeafView) -> Seq<u8> {
    leaf_segments(leaf).flatten()
}

/// The bytes that are hashed for a leaf, field by field: 169 of them for a
/// leaf whose digests have thirty-two.
pub proof fn leaf_preimage_layout(leaf: LeafView)
    ensures
        leaf_preimage(leaf) == seq![leaf.version.tag()] + leaf.id.bytes@ + leaf.owner.bytes@
            + leaf.delegate.bytes@ + spec_u64_to_le_bytes(leaf.nonce) + leaf.data_hash
            + leaf.creator_hash,
{
    reveal_with_fuel(Seq::flatten, 8);
    let segments = leaf_segments(leaf);
    let s1 = segments.drop_first();
    let s2 = s1.drop_first();
    let s3 = s2.drop_first();
    let s4 = s3.drop_first();
    let s5 = s4.drop_first();
    let s6 = s5.drop_first();
    let s7 = s6.drop_first();
    assert(s7.len() == 0);
    assert(s6.flatten() =~= leaf.creator_hash);
    assert(s5.flatten() =~= leaf.data_hash + leaf.creator_hash);
    assert(s4.flatten() =~= spec_u64_to_le_bytes(leaf.nonce) + leaf.data_hash + leaf.creator_hash);
    assert(s3.flatten() =~= leaf.delegate.bytes@ + spec_u64_to_le_bytes(leaf.nonce) + leaf.data_hash
        + leaf.creator_hash);
    assert(s2.flatten() =~= leaf.owner.bytes@ + leaf.delegate.bytes@ + spec_u64_to_le_bytes(
        leaf.nonce,
    ) + leaf.data_hash + leaf.creator_hash);
    assert(s1.flatten() =~= leaf.id.bytes@ + leaf.owner.bytes@ + leaf.delegate.bytes@
        + spec_u64_to_le_bytes(leaf.nonce) + leaf.data_hash + leaf.creator_hash);
    assert(segments.flatten() =~= seq![leaf.version.tag()] + leaf.id.bytes@ + leaf.owner.bytes@
        + leaf.delegate.bytes@ + spec_u64_to_le_bytes(leaf.nonce) + leaf.data_hash
        + leaf.creator_hash);
}

/// Equal leaves have equal hashes; and no two different leaves give the hash
/// function the same bytes, so that a leaf's hash commits to every one of its
/// fields as far as the hash function itself is free of collisions.
pub proof fn leaf_hash_commits_to_leaf(left: LeafSchema, right: LeafSchema)
    ensures
        left == right ==> leaf_digest(left@) == leaf_digest(right@),
        leaf_preimage(left@) == leaf_preimage(right@) <==> left == right,
{
    if leaf_preimage(left@) == leaf_preimage(right@) {
        leaf_preimage_layout(left@);
        leaf_preimage_layout(right@);
        lemma_auto_spec_u64_to_from_le_bytes();
        let l = leaf_preimage(left@);
        let r = leaf_preimage(right@);
        assert(l[0] == left.version.tag() && r[0] == right.version.tag());
        assert(left.version == right.version);
        assert(l.subrange(1, 33) =~= left.id.bytes@ && r.subrange(1, 33) =~= right.id.bytes@);
        assert(left.id.bytes =~= right.id.bytes);
        assert(l.subrange(33, 65) =~= left.owner.bytes@ && r.subrange(33, 65)
            =~= right.owner.bytes@);
        assert(left.owner.bytes =~= right.owner.bytes);
        assert(l.subrange(65, 97) =~= left.delegate.bytes@ && r.subrange(65, 97)
            =~= right.delegate.bytes@);
        assert(left.delegate.bytes =~= right.delegate.bytes);
        assert(l.subrange(97, 105) =~= spec_u64_to_le_bytes(left.nonce) && r.subrange(97, 105)
            =~= spec_u64_to_le_bytes(right.nonce));
        assert(left.nonce == right.nonce);
        assert(l.subrange(105, 137) =~= left.data_hash@ && r.subrange(105, 137)
            =~= right.data_hash@);
        assert(left.data_hash =~= right.data_hash);
        assert(l.subrange(137, 169) =~= left.creator_hash@ && r.subrange(137, 169)
            =~= right.creator_hash@);
        assert(left.creator_hash =~= right.creator_hash);
    }
}

/// Two leaf records are the same exactly when they are the same as
/// mathematical values.
pub proof fn leaf_view_is_faithful(left: LeafSchema, right: LeafSchema)
    ensures
        left@ == right@ <==> left == right,
{
    if left@ == right@ {
        assert(left.data_hash =~= right.data_hash);
        assert(left.creator_hash =~= right.creator_hash);
    }
}

impl LeafSchema {
    /// The leaf of an asset in the current layout. Where no delegate is
    /// named the owner is its own.
    pub fn new_v1(
        id: Pubkey,
        owner: Pubkey,
        delegate: Option<Pubkey>,
        nonce: u64,
        data_hash: [u8; 32],
        creator_hash: [u8; 32],
    ) -> (leaf: LeafSchema)
        ensures
            leaf == (LeafSchema {
                version: Version::V1,
                id,
                owner,
                delegate: match delegate {
                    Some(named) => named,
                    None => owner,
                },
                nonce,
                data_hash,
                creator_hash,
            }),
    {
        let delegate = match delegate {
            Some(named) => named,
            None => owner,
        };
        LeafSchema { version: Version::V1, id, owner, delegate, nonce, data_hash, creator_hash }
    }

    /// The leaf in other hands: `owner` owns it and `delegate` acts for the
    /// owner; everything else stays.
    pub fn held_by(&self, owner: Pubkey, delegate: Pubkey) -> (leaf: LeafSchema)
        ensures
            leaf == (LeafSchema { owner, delegate, ..*self }),
    {
        LeafSchema {
            version: self.version,
            id: self.id,
            owner,
            delegate,
            nonce: self.nonce,
            data_hash: self.data_hash,
            creator_hash: self.creator_hash,
        }
    }

    /// The leaf with other digests: it commits to other metadata and is
    /// otherwise the same.
    pub fn with_hashes(&self, data_hash: [u8; 32], creator_hash: [u8; 32]) -> (leaf: LeafSchema)
        ensures
            leaf == (LeafSchema { data_hash, creator_hash, ..*self }),
    {
        LeafSchema {
            version: self.version,
            id: self.id,
            owner: self.owner,
            delegate: self.delegate,
            nonce: self.nonce,
            data_hash,
            creator_hash,
        }
    }

    /// Whether the leaf commits to these two digests.
    pub fn commits_to(&self, data_hash: &[u8; 32], creator_hash: &[u8; 32]) -> (commits: bool)
        ensures
            commits == (self.data_hash == *data_hash && self.creator_hash == *creator_hash),
            commits == (self@.data_hash == data_hash@ && self@.creator_hash == creator_hash@),
    {
        same_bytes(&self.data_hash, data_hash) && same_bytes(&self.creator_hash, creator_hash)
    }

    /// Hashes the leaf: Keccak-256 over version, id, owner, delegate, nonce,
    /// metadata digest and creator digest, each a segment of its own.
    pub fn to_node(&self) -> (digest: [u8; 32])
        ensures
            digest@ == leaf_digest(self@),
    {
        leaf_hash(self)
    }
}

/// Writes what is hashed for a leaf: version, id, owner, delegate, nonce,
/// metadata digest and creator digest, each a segment of its own.
pub fn serialize_leaf(leaf: &LeafSchema) -> (segments: Vec<Vec<u8>>)
    ensures
        segments.deep_view() == leaf_segments(leaf@),
{
    let mut segments: Vec<Vec<u8>> = Vec::new();
    let mut version: Vec<u8> = Vec::new();
    version.push(leaf.version.to_bytes());
    segments.push(version);
    segments.push(bytes_of(&leaf.id.bytes));
    segments.push(bytes_of(&leaf.owner.bytes));
    segments.push(bytes_of(&leaf.delegate.bytes));
    segments.push(u64_to_le_bytes(leaf.nonce));
    segments.push(bytes_of(&leaf.data_hash));
    segments.push(bytes_of(&leaf.creator_hash));
    proof {
        assert(segments@[0]@ =~= seq![leaf.version.tag()]);
        assert(segments.deep_view() =~~= leaf_segments(leaf@));
    }
    segments
}

/// Hashes a leaf: Keccak-256 over version, id, owner, delegate, nonce,
/// metadata digest and creator digest, each a segment of its own.
pub fn leaf_hash(leaf: &LeafSchema) -> (digest: [u8; 32])
    ensures
        digest@ == leaf_digest(leaf@),
{
    let segments = serialize_leaf(leaf);
    keccak_hashv(&segments)
}

} // verus!
