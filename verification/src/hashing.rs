//! Digests of metadata and of creator lists.
//!
//! What is hashed is part of the commitment: a record hashes to the same
//! digest only while the layout below stays as it is.

use vstd::bytes::spec_u16_to_le_bytes;
use vstd::bytes::spec_u64_to_le_bytes;
use vstd::bytes::u16_to_le_bytes;
use vstd::bytes::u64_to_le_bytes;
use vstd::prelude::*;
use vstd::slice::slice_to_vec;
use vstd::utf8::encode_utf8;

use crate::metadata::Collection;
use crate::metadata::Creator;
use crate::metadata::MetadataArgs;
use crate::metadata::MetadataView;
use crate::metadata::TokenProgramVersion;
use crate::metadata::TokenStandard;
use crate::metadata::UseMethod;
use crate::metadata::Uses;

verus! {

/// The Keccak-256 digest of the given segments, taken one after the other.
pub uninterp spec fn keccak256(segments: Seq<Seq<u8>>) -> Seq<u8>;

/// Calls `anchor_lang::solana_program::keccak::hashv` on the segments, in
/// order, and returns the bytes of the `Hash` it gives. That function feeds
/// each segment to one Keccak-256 hasher and finalizes it, so the digest
/// depends on the segments alone; nothing more is claimed of it here.
#[verifier::external_body]
pub(crate) fn keccak_hashv(segments: &Vec<Vec<u8>>) -> (digest: [u8; 32])
    ensures
        digest@ == keccak256(segments.deep_view()),
{
    let slices: Vec<&[u8]> = segments.iter().map(|segment| segment.as_slice()).collect();
    anchor_lang::solana_program::keccak::hashv(&slices).to_bytes()
}

/// The bytes of an array as a vector.
pub(crate) fn bytes_of(array: &[u8; 32]) -> (bytes: Vec<u8>)
    ensures
        bytes@ == array@,
{
    slice_to_vec(array.as_slice())
}

// ---------------------------------------------------------------------------
// The layout
// ---------------------------------------------------------------------------

/// A flag as one byte.
pub open spec fn encode_flag(flag: bool) -> Seq<u8> {
    seq![if flag { 1u8 } else { 0u8 }]
}

/// A text as the number of its UTF-8 bytes, in eight bytes little-endian,
/// followed by those bytes.
pub open spec fn encode_text(text: Seq<char>) -> Seq<u8> {
    spec_u64_to_le_bytes(encode_utf8(text).len() as u64) + encode_utf8(text)
}

/// A creator as its address, its flag and its share: thirty-four bytes.
pub open spec fn encode_creator(creator: Creator) -> Seq<u8> {
    creator.address.bytes@ + encode_flag(creator.verified) + seq![creator.share]
}

/// The creators of a list, one after the other.
pub open spec fn encode_creators(creators: Seq<Creator>) -> Seq<u8>
    decreases creators.len(),
{
    if creators.len() == 0 {
        Seq::empty()
    } else {
        encode_creators(creators.drop_last()) + encode_creator(creators.last())
    }
}

impl UseMethod {
    /// The byte that stands for the method.
    pub open spec fn tag(self) -> u8 {
        match self {
            UseMethod::Burn => 0,
            UseMethod::Multiple => 1,
            UseMethod::Single => 2,
        }
    }

    /// The byte that stands for the method.
    pub fn to_byte(&self) -> (byte: u8)
        ensures
            byte == self.tag(),
    {
        match self {
            UseMethod::Burn => 0,
            UseMethod::Multiple => 1,
            UseMethod::Single => 2,
        }
    }
}

impl TokenStandard {
    /// The byte that stands for the standard.
    pub open spec fn tag(self) -> u8 {
        match self {
            TokenStandard::NonFungible => 0,
            TokenStandard::FungibleAsset => 1,
            TokenStandard::Fungible => 2,
            TokenStandard::NonFungibleEdition => 3,
        }
    }

    /// The byte that stands for the standard.
    pub fn to_byte(&self) -> (byte: u8)
        ensures
            byte == self.tag(),
    {
        match self {
            TokenStandard::NonFungible => 0,
            TokenStandard::FungibleAsset => 1,
            TokenStandard::Fungible => 2,
            TokenStandard::NonFungibleEdition => 3,
        }
    }
}

impl TokenProgramVersion {
    /// The byte that stands for the version.
    pub open spec fn tag(self) -> u8 {
        match self {
            TokenProgramVersion::Original => 0,
            TokenProgramVersion::Token2022 => 1,
        }
    }

    /// The byte that stands for the version.
    pub fn to_byte(&self) -> (byte: u8)
        ensures
            byte == self.tag(),
    {
        match self {
            TokenProgramVersion::Original => 0,
            TokenProgramVersion::Token2022 => 1,
        }
    }
}

/// An optional edition nonce in two bytes: whether it is there, then its
/// value or zero.
pub open spec fn encode_edition_nonce(nonce: Option<u8>) -> Seq<u8> {
    match nonce {
        Some(value) => seq![1u8, value],
        None => seq![0u8, 0u8],
    }
}

/// An optional token standard in two bytes: whether it is there, then its
/// tag or zero.
pub open spec fn encode_token_standard(standard: Option<TokenStandard>) -> Seq<u8> {
    match standard {
        Some(value) => seq![1u8, value.tag()],
        None => seq![0u8, 0u8],
    }
}

/// Width of an optional collection reference.
pub const COLLECTION_WIDTH: usize = 34;

/// Width of an optional use record.
pub const USES_WIDTH: usize = 18;

/// An optional collection reference in thirty-four bytes: whether it is
/// there, then flag and key, or zeros.
pub open spec fn encode_collection(collection: Option<Collection>) -> Seq<u8> {
    match collection {
        Some(value) => seq![1u8] + encode_flag(value.verified) + value.key.bytes@,
        None => Seq::new(COLLECTION_WIDTH as nat, |i: int| 0u8),
    }
}

/// An optional use record in eighteen bytes: whether it is there, then
/// method, uses left and uses in all, or zeros.
pub open spec fn encode_uses(uses: Option<Uses>) -> Seq<u8> {
    match uses {
        Some(value) => seq![1u8, value.use_method.tag()] + spec_u64_to_le_bytes(value.remaining)
            + spec_u64_to_le_bytes(value.total),
        None => Seq::new(USES_WIDTH as nat, |i: int| 0u8),
    }
}

/// The canonical bytes of a metadata record: its fields in their declared
/// order, every optional field at the same width whether it is there or not.
pub open spec fn encode_metadata(metadata: MetadataView) -> Seq<u8> {
    encode_text(metadata.name) + encode_text(metadata.symbol) + encode_text(metadata.uri)
        + spec_u16_to_le_bytes(metadata.seller_fee_basis_points) + encode_flag(
        metadata.primary_sale_happened,
    ) + encode_flag(metadata.is_mutable) + encode_edition_nonce(metadata.edition_nonce)
        + encode_token_standard(metadata.token_standard) + seq![
        metadata.token_program_version.tag(),
    ] + encode_collection(metadata.collection) + encode_uses(metadata.uses) + spec_u64_to_le_bytes(
        metadata.creators.len() as u64,
    ) + encode_creators(metadata.creators)
}

/// Whether every length of the record fits the eight bytes that it is written
/// in. Every record that is held in memory does.
pub open spec fn is_writable(metadata: MetadataView) -> bool {
    &&& encode_utf8(metadata.name).len() <= u64::MAX
    &&& encode_utf8(metadata.symbol).len() <= u64::MAX
    &&& encode_utf8(metadata.uri).len() <= u64::MAX
    &&& metadata.creators.len() <= u64::MAX
}

/// The digest of a metadata record: one segment, its canonical bytes.
pub open spec fn metadata_digest(metadata: MetadataView) -> Seq<u8> {
    keccak256(seq![encode_metadata(metadata)])
}

/// The segments of a creator list: one per creator, in list order.
pub open spec fn creator_segments(creators: Seq<Creator>) -> Seq<Seq<u8>> {
    Seq::new(creators.len(), |i: int| encode_creator(creators[i]))
}

/// The digest of a creator list. The order of the list is part of it.
pub open spec fn creators_digest(creators: Seq<Creator>) -> Seq<u8> {
    keccak256(creator_segments(creators))
}

// ---------------------------------------------------------------------------
// Writing the layout
// ---------------------------------------------------------------------------

fn put_flag(out: &mut Vec<u8>, flag: bool)
    ensures
        final(out)@ == old(out)@ + encode_flag(flag),
{
    out.push(if flag { 1u8 } else { 0u8 });
    proof {
        assert(out@ =~= old(out)@ + encode_flag(flag));
    }
}

fn put_bytes(out: &mut Vec<u8>, bytes: &[u8])
    ensures
        final(out)@ == old(out)@ + bytes@,
{
    out.extend_from_slice(bytes);
}

fn put_u64(out: &mut Vec<u8>, value: u64)
    ensures
        final(out)@ == old(out)@ + spec_u64_to_le_bytes(value),
{
    let bytes = u64_to_le_bytes(value);
    out.extend_from_slice(bytes.as_slice());
}

fn put_zeros(out: &mut Vec<u8>, count: usize)
    ensures
        final(out)@ == old(out)@ + Seq::new(count as nat, |i: int| 0u8),
{
    let mut done: usize = 0;
    while done < count
        invariant
            done <= count,
            out@ == old(out)@ + Seq::new(done as nat, |i: int| 0u8),
        decreases count - done,
    {
        out.push(0u8);
        done += 1;
        proof {
            assert(out@ =~= old(out)@ + Seq::new(done as nat, |i: int| 0u8));
        }
    }
}

fn put_text(out: &mut Vec<u8>, text: &String)
    ensures
        final(out)@ == old(out)@ + encode_text(text@),
        encode_utf8(text@).len() <= u64::MAX,
{
    let bytes = text.as_str().as_bytes();
    put_u64(out, bytes.len() as u64);
    put_bytes(out, bytes);
    proof {
        assert(out@ =~= old(out)@ + encode_text(text@));
    }
}

fn put_creator(out: &mut Vec<u8>, creator: &Creator)
    ensures
        final(out)@ == old(out)@ + encode_creator(*creator),
{
    put_bytes(out, creator.address.bytes.as_slice());
    put_flag(out, creator.verified);
    out.push(creator.share);
    proof {
        assert(out@ =~= old(out)@ + encode_creator(*creator));
    }
}

fn put_creators(out: &mut Vec<u8>, creators: &Vec<Creator>)
    ensures
        final(out)@ == old(out)@ + encode_creators(creators@),
{
    let mut at: usize = 0;
    proof {
        assert(out@ =~= old(out)@ + encode_creators(creators@.take(0)));
    }
    while at < creators.len()
        invariant
            at <= creators.len(),
            out@ == old(out)@ + encode_creators(creators@.take(at as int)),
        decreases creators.len() - at,
    {
        put_creator(out, &creators[at]);
        proof {
            let longer = creators@.take(at + 1);
            assert(longer.drop_last() =~= creators@.take(at as int));
            assert(longer.last() == creators@[at as int]);
            assert(out@ =~= old(out)@ + encode_creators(longer));
        }
        at += 1;
    }
    proof {
        assert(creators@.take(at as int) =~= creators@);
    }
}

fn put_edition_nonce(out: &mut Vec<u8>, nonce: &Option<u8>)
    ensures
        final(out)@ == old(out)@ + encode_edition_nonce(*nonce),
{
    match nonce {
        Some(value) => {
            out.push(1u8);
            out.push(*value);
        },
        None => {
            out.push(0u8);
            out.push(0u8);
        },
    }
    proof {
        assert(out@ =~= old(out)@ + encode_edition_nonce(*nonce));
    }
}

fn put_token_standard(out: &mut Vec<u8>, standard: &Option<TokenStandard>)
    ensures
        final(out)@ == old(out)@ + encode_token_standard(*standard),
{
    match standard {
        Some(value) => {
            out.push(1u8);
            out.push(value.to_byte());
        },
        None => {
            out.push(0u8);
            out.push(0u8);
        },
    }
    proof {
        assert(out@ =~= old(out)@ + encode_token_standard(*standard));
    }
}

fn put_collection(out: &mut Vec<u8>, collection: &Option<Collection>)
    ensures
        final(out)@ == old(out)@ + encode_collection(*collection),
{
    match collection {
        Some(value) => {
            out.push(1u8);
            put_flag(out, value.verified);
            put_bytes(out, value.key.bytes.as_slice());
            proof {
                assert(out@ =~= old(out)@ + encode_collection(*collection));
            }
        },
        None => {
            put_zeros(out, COLLECTION_WIDTH);
        },
    }
}

fn put_uses(out: &mut Vec<u8>, uses: &Option<Uses>)
    ensures
        final(out)@ == old(out)@ + encode_uses(*uses),
{
    match uses {
        Some(value) => {
            out.push(1u8);
            out.push(value.use_method.to_byte());
            put_u64(out, value.remaining);
            put_u64(out, value.total);
            proof {
                assert(out@ =~= old(out)@ + encode_uses(*uses));
            }
        },
        None => {
            put_zeros(out, USES_WIDTH);
        },
    }
}

/// Writes a metadata record in its canonical layout. Every record that is
/// held in memory can be written: its lengths fit the bytes they go into.
pub fn serialize_metadata(metadata: &MetadataArgs) -> (bytes: Vec<u8>)
    ensures
        bytes@ == encode_metadata(metadata@),
        is_writable(metadata@),
{
    let mut out: Vec<u8> = Vec::new();
    put_text(&mut out, &metadata.name);
    put_text(&mut out, &metadata.symbol);
    put_text(&mut out, &metadata.uri);
    let fee = u16_to_le_bytes(metadata.seller_fee_basis_points);
    put_bytes(&mut out, fee.as_slice());
    put_flag(&mut out, metadata.primary_sale_happened);
    put_flag(&mut out, metadata.is_mutable);
    put_edition_nonce(&mut out, &metadata.edition_nonce);
    put_token_standard(&mut out, &metadata.token_standard);
    out.push(metadata.token_program_version.to_byte());
    put_collection(&mut out, &metadata.collection);
    put_uses(&mut out, &metadata.uses);
    put_u64(&mut out, metadata.creators.len() as u64);
    put_creators(&mut out, &metadata.creators);
    proof {
        assert(out@ =~= encode_metadata(metadata@));
    }
    out
}

/// Hashes a metadata record: Keccak-256 over its canonical bytes.
pub fn hash_metadata(metadata: &MetadataArgs) -> (digest: [u8; 32])
    ensures
        digest@ == metadata_digest(metadata@),
        is_writable(metadata@),
{
    let mut segments: Vec<Vec<u8>> = Vec::new();
    segments.push(serialize_metadata(metadata));
    proof {
        assert(segments.deep_view() =~~= seq![encode_metadata(metadata@)]);
    }
    keccak_hashv(&segments)
}

/// Writes the segments of a creator list: one per creator, in list order,
/// each made of address, flag and share.
pub fn serialize_creators(creators: &Vec<Creator>) -> (segments: Vec<Vec<u8>>)
    ensures
        segments.deep_view() == creator_segments(creators@),
{
    let mut segments: Vec<Vec<u8>> = Vec::new();
    let mut at: usize = 0;
    while at < creators.len()
        invariant
            at <= creators.len(),
            segments@.len() == at,
            forall|i: int| 0 <= i < at ==> (#[trigger] segments@[i])@ == encode_creator(creators@[i]),
        decreases creators.len() - at,
    {
        let mut segment: Vec<u8> = Vec::new();
        put_creator(&mut segment, &creators[at]);
        proof {
            assert(segment@ =~= encode_creator(creators@[at as int]));
        }
        segments.push(segment);
        at += 1;
    }
    proof {
        assert(segments.deep_view() =~~= creator_segments(creators@));
    }
    segments
}

/// Hashes a creator list: Keccak-256 over one segment per creator, in list
/// order, each made of address, flag and share.
pub fn hash_creators(creators: &Vec<Creator>) -> (digest: [u8; 32])
    ensures
        digest@ == creators_digest(creators@),
{
    let segments = serialize_creators(creators);
    keccak_hashv(&segments)
}

} // verus!
