//! The layout of a metadata record is canonical: no two records are written
//! in the same bytes.

use vstd::bytes::lemma_auto_spec_u16_to_from_le_bytes;
use vstd::bytes::lemma_auto_spec_u64_to_from_le_bytes;
use vstd::bytes::spec_u16_to_le_bytes;
use vstd::bytes::spec_u64_to_le_bytes;
use vstd::prelude::*;
use vstd::utf8::encode_utf8;
use vstd::utf8::encode_utf8_decode_utf8;

use crate::hashing::creator_segments;
use crate::hashing::encode_collection;
use crate::hashing::encode_creator;
use crate::hashing::encode_creators;
use crate::hashing::encode_edition_nonce;
use crate::hashing::encode_flag;
use crate::hashing::encode_metadata;
use crate::hashing::encode_text;
use crate::hashing::encode_token_standard;
use crate::hashing::encode_uses;
use crate::hashing::is_writable;
use crate::metadata::Collection;
use crate::metadata::Creator;
use crate::metadata::MetadataView;
use crate::metadata::TokenStandard;
use crate::metadata::Uses;

verus! {

/// Two byte strings that start with pieces of the same length are equal only
/// if the pieces are, and what follows them.
proof fn same_prefix(a: Seq<u8>, after_a: Seq<u8>, b: Seq<u8>, after_b: Seq<u8>)
    requires
        a + after_a == b + after_b,
        a.len() == b.len(),
    ensures
        a == b,
        after_a == after_b,
{
    let whole = a + after_a;
    assert(a =~= whole.subrange(0, a.len() as int));
    assert(b =~= (b + after_b).subrange(0, b.len() as int));
    assert(after_a =~= whole.subrange(a.len() as int, whole.len() as int));
    assert(after_b =~= (b + after_b).subrange(b.len() as int, (b + after_b).len() as int));
}

/// A text can be read back from the front of what it was written into.
proof fn same_text(a: Seq<char>, after_a: Seq<u8>, b: Seq<char>, after_b: Seq<u8>)
    requires
        encode_text(a) + after_a == encode_text(b) + after_b,
        encode_utf8(a).len() <= u64::MAX,
        encode_utf8(b).len() <= u64::MAX,
    ensures
        a == b,
        after_a == after_b,
{
    lemma_auto_spec_u64_to_from_le_bytes();
    let length_a = spec_u64_to_le_bytes(encode_utf8(a).len() as u64);
    let length_b = spec_u64_to_le_bytes(encode_utf8(b).len() as u64);
    assert(encode_text(a) + after_a =~= length_a + (encode_utf8(a) + after_a));
    assert(encode_text(b) + after_b =~= length_b + (encode_utf8(b) + after_b));
    same_prefix(length_a, encode_utf8(a) + after_a, length_b, encode_utf8(b) + after_b);
    assert(encode_utf8(a).len() as u64 == encode_utf8(b).len() as u64);
    same_prefix(encode_utf8(a), after_a, encode_utf8(b), after_b);
    encode_utf8_decode_utf8(a);
    encode_utf8_decode_utf8(b);
}

/// Creator lists of the same length are written in the same bytes only if
/// they are the same.
proof fn same_creators(a: Seq<Creator>, b: Seq<Creator>)
    requires
        a.len() == b.len(),
        encode_creators(a) == encode_creators(b),
    ensures
        a == b,
    decreases a.len(),
{
    if a.len() > 0 {
        creators_length(a.drop_last());
        creators_length(b.drop_last());
        let last_a = encode_creator(a.last());
        let last_b = encode_creator(b.last());
        same_prefix(encode_creators(a.drop_last()), last_a, encode_creators(b.drop_last()), last_b);
        same_creators(a.drop_last(), b.drop_last());
        assert(last_a.subrange(0, 32) =~= a.last().address.bytes@);
        assert(last_b.subrange(0, 32) =~= b.last().address.bytes@);
        assert(a.last().address.bytes =~= b.last().address.bytes);
        assert(last_a[32] == last_b[32]);
        assert(last_a[33] == last_b[33]);
        assert(a.last() == b.last());
        assert(a =~= a.drop_last().push(a.last()));
        assert(b =~= b.drop_last().push(b.last()));
    } else {
        assert(a =~= b);
    }
}

/// A creator list takes thirty-four bytes for each creator.
proof fn creators_length(creators: Seq<Creator>)
    ensures
        encode_creators(creators).len() == 34 * creators.len(),
    decreases creators.len(),
{
    if creators.len() > 0 {
        creators_length(creators.drop_last());
    }
}

proof fn same_edition_nonce(a: Option<u8>, b: Option<u8>)
    requires
        encode_edition_nonce(a) == encode_edition_nonce(b),
    ensures
        a == b,
{
    assert(encode_edition_nonce(a)[0] == encode_edition_nonce(b)[0]);
    assert(encode_edition_nonce(a)[1] == encode_edition_nonce(b)[1]);
}

proof fn same_token_standard(a: Option<TokenStandard>, b: Option<TokenStandard>)
    requires
        encode_token_standard(a) == encode_token_standard(b),
    ensures
        a == b,
{
    assert(encode_token_standard(a)[0] == encode_token_standard(b)[0]);
    assert(encode_token_standard(a)[1] == encode_token_standard(b)[1]);
}

proof fn same_collection(a: Option<Collection>, b: Option<Collection>)
    requires
        encode_collection(a) == encode_collection(b),
    ensures
        a == b,
{
    let bytes_a = encode_collection(a);
    let bytes_b = encode_collection(b);
    assert(bytes_a[0] == bytes_b[0]);
    if let Some(left) = a {
        let right = b->Some_0;
        assert(bytes_a[1] == bytes_b[1]);
        assert(bytes_a.subrange(2, 34) =~= left.key.bytes@);
        assert(bytes_b.subrange(2, 34) =~= right.key.bytes@);
        assert(left.key.bytes =~= right.key.bytes);
    }
}

proof fn same_uses(a: Option<Uses>, b: Option<Uses>)
    requires
        encode_uses(a) == encode_uses(b),
    ensures
        a == b,
{
    lemma_auto_spec_u64_to_from_le_bytes();
    let bytes_a = encode_uses(a);
    let bytes_b = encode_uses(b);
    assert(bytes_a[0] == bytes_b[0]);
    if let Some(left) = a {
        let right = b->Some_0;
        assert(bytes_a[1] == bytes_b[1]);
        assert(bytes_a.subrange(2, 10) =~= spec_u64_to_le_bytes(left.remaining));
        assert(bytes_b.subrange(2, 10) =~= spec_u64_to_le_bytes(right.remaining));
        assert(bytes_a.subrange(10, 18) =~= spec_u64_to_le_bytes(left.total));
        assert(bytes_b.subrange(10, 18) =~= spec_u64_to_le_bytes(right.total));
    }
}

/// What is written after the three texts of a record.
spec fn after_texts(metadata: MetadataView) -> Seq<u8> {
    spec_u16_to_le_bytes(metadata.seller_fee_basis_points) + (encode_flag(
        metadata.primary_sale_happened,
    ) + (encode_flag(metadata.is_mutable) + (encode_edition_nonce(metadata.edition_nonce) + (
    encode_token_standard(metadata.token_standard) + (seq![metadata.token_program_version.tag()] + (
    encode_collection(metadata.collection) + (encode_uses(metadata.uses) + (spec_u64_to_le_bytes(
        metadata.creators.len() as u64,
    ) + encode_creators(metadata.creators)))))))))
}

/// Writing one piece after two is writing two after one.
proof fn regroup(a: Seq<u8>, b: Seq<u8>, c: Seq<u8>)
    ensures
        (a + b) + c == a + (b + c),
{
    assert((a + b) + c =~= a + (b + c));
}

proof fn texts_come_first(metadata: MetadataView)
    ensures
        encode_metadata(metadata) == encode_text(metadata.name) + (encode_text(metadata.symbol) + (
        encode_text(metadata.uri) + after_texts(metadata))),
{
    let t1 = encode_text(metadata.name);
    let t2 = encode_text(metadata.symbol);
    let t3 = encode_text(metadata.uri);
    let f4 = spec_u16_to_le_bytes(metadata.seller_fee_basis_points);
    let f5 = encode_flag(metadata.primary_sale_happened);
    let f6 = encode_flag(metadata.is_mutable);
    let f7 = encode_edition_nonce(metadata.edition_nonce);
    let f8 = encode_token_standard(metadata.token_standard);
    let f9 = seq![metadata.token_program_version.tag()];
    let f10 = encode_collection(metadata.collection);
    let f11 = encode_uses(metadata.uses);
    let f12 = spec_u64_to_le_bytes(metadata.creators.len() as u64);
    let f13 = encode_creators(metadata.creators);
    let p2 = t1 + t2;
    let p3 = p2 + t3;
    let p4 = p3 + f4;
    let p5 = p4 + f5;
    let p6 = p5 + f6;
    let p7 = p6 + f7;
    let p8 = p7 + f8;
    let p9 = p8 + f9;
    let p10 = p9 + f10;
    let p11 = p10 + f11;
    let p12 = p11 + f12;
    assert(encode_metadata(metadata) == p12 + f13);
    let q12 = f12 + f13;
    let q11 = f11 + q12;
    let q10 = f10 + q11;
    let q9 = f9 + q10;
    let q8 = f8 + q9;
    let q7 = f7 + q8;
    let q6 = f6 + q7;
    let q5 = f5 + q6;
    let q4 = f4 + q5;
    let q3 = t3 + q4;
    let q2 = t2 + q3;
    assert(after_texts(metadata) == q4);
    regroup(p11, f12, f13);
    regroup(p10, f11, q12);
    regroup(p9, f10, q11);
    regroup(p8, f9, q10);
    regroup(p7, f8, q9);
    regroup(p6, f7, q8);
    regroup(p5, f6, q7);
    regroup(p4, f5, q6);
    regroup(p3, f4, q5);
    regroup(p2, t3, q4);
    regroup(t1, t2, q3);
}

/// The layout of a metadata record is canonical: two records are written in
/// the same bytes exactly when they are the same record. So the digest of a
/// record commits to every one of its fields as far as the hash function
/// itself is free of collisions.
pub proof fn metadata_layout_is_canonical(left: MetadataView, right: MetadataView)
    requires
        is_writable(left),
        is_writable(right),
    ensures
        encode_metadata(left) == encode_metadata(right) <==> left == right,
{
    if encode_metadata(left) == encode_metadata(right) {
        lemma_auto_spec_u16_to_from_le_bytes();
        lemma_auto_spec_u64_to_from_le_bytes();
        texts_come_first(left);
        texts_come_first(right);
        same_text(
            left.name,
            encode_text(left.symbol) + (encode_text(left.uri) + after_texts(left)),
            right.name,
            encode_text(right.symbol) + (encode_text(right.uri) + after_texts(right)),
        );
        same_text(
            left.symbol,
            encode_text(left.uri) + after_texts(left),
            right.symbol,
            encode_text(right.uri) + after_texts(right),
        );
        same_text(left.uri, after_texts(left), right.uri, after_texts(right));

        let l9 = encode_creators(left.creators);
        let r9 = encode_creators(right.creators);
        let l8 = spec_u64_to_le_bytes(left.creators.len() as u64) + l9;
        let r8 = spec_u64_to_le_bytes(right.creators.len() as u64) + r9;
        let l7 = encode_uses(left.uses) + l8;
        let r7 = encode_uses(right.uses) + r8;
        let l6 = encode_collection(left.collection) + l7;
        let r6 = encode_collection(right.collection) + r7;
        let l5 = seq![left.token_program_version.tag()] + l6;
        let r5 = seq![right.token_program_version.tag()] + r6;
        let l4 = encode_token_standard(left.token_standard) + l5;
        let r4 = encode_token_standard(right.token_standard) + r5;
        let l3 = encode_edition_nonce(left.edition_nonce) + l4;
        let r3 = encode_edition_nonce(right.edition_nonce) + r4;
        let l2 = encode_flag(left.is_mutable) + l3;
        let r2 = encode_flag(right.is_mutable) + r3;
        let l1 = encode_flag(left.primary_sale_happened) + l2;
        let r1 = encode_flag(right.primary_sale_happened) + r2;
        assert(after_texts(left) == spec_u16_to_le_bytes(left.seller_fee_basis_points) + l1);
        assert(after_texts(right) == spec_u16_to_le_bytes(right.seller_fee_basis_points) + r1);

        same_prefix(
            spec_u16_to_le_bytes(left.seller_fee_basis_points),
            l1,
            spec_u16_to_le_bytes(right.seller_fee_basis_points),
            r1,
        );
        assert(left.seller_fee_basis_points == right.seller_fee_basis_points);
        same_prefix(
            encode_flag(left.primary_sale_happened),
            l2,
            encode_flag(right.primary_sale_happened),
            r2,
        );
        assert(encode_flag(left.primary_sale_happened)[0] == encode_flag(
            right.primary_sale_happened,
        )[0]);
        same_prefix(encode_flag(left.is_mutable), l3, encode_flag(right.is_mutable), r3);
        assert(encode_flag(left.is_mutable)[0] == encode_flag(right.is_mutable)[0]);
        same_prefix(
            encode_edition_nonce(left.edition_nonce),
            l4,
            encode_edition_nonce(right.edition_nonce),
            r4,
        );
        same_edition_nonce(left.edition_nonce, right.edition_nonce);
        same_prefix(
            encode_token_standard(left.token_standard),
            l5,
            encode_token_standard(right.token_standard),
            r5,
        );
        same_token_standard(left.token_standard, right.token_standard);
        same_prefix(
            seq![left.token_program_version.tag()],
            l6,
            seq![right.token_program_version.tag()],
            r6,
        );
        assert(seq![left.token_program_version.tag()][0] == seq![
            right.token_program_version.tag(),
        ][0]);
        assert(left.token_program_version == right.token_program_version);
        same_prefix(
            encode_collection(left.collection),
            l7,
            encode_collection(right.collection),
            r7,
        );
        same_collection(left.collection, right.collection);
        same_prefix(encode_uses(left.uses), l8, encode_uses(right.uses), r8);
        same_uses(left.uses, right.uses);
        same_prefix(
            spec_u64_to_le_bytes(left.creators.len() as u64),
            l9,
            spec_u64_to_le_bytes(right.creators.len() as u64),
            r9,
        );
        assert(left.creators.len() as u64 == right.creators.len() as u64);
        same_creators(left.creators, right.creators);
    }
}

/// The segments of a creator list, one after the other, are the list as it
/// is written into a metadata record.
pub proof fn creator_segments_in_a_row(creators: Seq<Creator>)
    ensures
        creator_segments(creators).flatten() == encode_creators(creators),
    decreases creators.len(),
{
    let segments = creator_segments(creators);
    segments.lemma_flatten_and_flatten_alt_are_equivalent();
    if creators.len() > 0 {
        let front = creator_segments(creators.drop_last());
        assert(segments.drop_last() =~= front);
        creator_segments_in_a_row(creators.drop_last());
        front.lemma_flatten_and_flatten_alt_are_equivalent();
    }
}

/// The bytes that are hashed for a creator list are canonical: two lists
/// give the hash function the same bytes exactly when they are the same
/// list, in the same order.
pub proof fn creator_layout_is_canonical(left: Seq<Creator>, right: Seq<Creator>)
    ensures
        creator_segments(left).flatten() == creator_segments(right).flatten() <==> left == right,
{
    creator_segments_in_a_row(left);
    creator_segments_in_a_row(right);
    if encode_creators(left) == encode_creators(right) {
        creators_length(left);
        creators_length(right);
        same_creators(left, right);
    }
}

} // verus!
