//! Which changes to an asset's metadata are legal.
//!
//! A proposed record is held against the record it replaces and against the
//! authority that proposes it. The checks run in a fixed order and the first
//! one that fails names the error; nothing is changed by any of them.

use vstd::prelude::*;
use vstd::utf8::encode_utf8;

use crate::error::BubblegumError;
use crate::metadata::creator_at;
use crate::metadata::find_creator;
use crate::metadata::Collection;
use crate::metadata::Creator;
use crate::metadata::MetadataArgs;
use crate::metadata::MetadataView;
use crate::metadata::UseMethod;
use crate::metadata::Uses;
use crate::pubkey::Pubkey;

verus! {

/// Most bytes that a name may take.
pub const MAX_NAME_LENGTH: usize = 32;

/// Most bytes that a symbol may take.
pub const MAX_SYMBOL_LENGTH: usize = 10;

/// Most bytes that a uri may take.
pub const MAX_URI_LENGTH: usize = 200;

/// Most creators that a record may list.
pub const MAX_CREATOR_LIMIT: usize = 5;

/// Highest seller fee, in basis points.
pub const MAX_SELLER_FEE_BASIS_POINTS: u16 = 10000;

/// What the creator shares of a record add up to.
pub const FULL_SHARE: u8 = 100;

/// Reads `mpl_token_metadata::state::MAX_NAME_LENGTH`, which the token
/// metadata program fixes at 32.
#[verifier::external_body]
fn name_length_limit() -> (limit: usize)
    ensures
        limit == MAX_NAME_LENGTH,
{
    mpl_token_metadata::state::MAX_NAME_LENGTH
}

/// Reads `mpl_token_metadata::state::MAX_SYMBOL_LENGTH`, which the token
/// metadata program fixes at 10.
#[verifier::external_body]
fn symbol_length_limit() -> (limit: usize)
    ensures
        limit == MAX_SYMBOL_LENGTH,
{
    mpl_token_metadata::state::MAX_SYMBOL_LENGTH
}

/// Reads `mpl_token_metadata::state::MAX_URI_LENGTH`, which the token
/// metadata program fixes at 200.
#[verifier::external_body]
fn uri_length_limit() -> (limit: usize)
    ensures
        limit == MAX_URI_LENGTH,
{
    mpl_token_metadata::state::MAX_URI_LENGTH
}

/// Reads `mpl_token_metadata::state::MAX_CREATOR_LIMIT`, which the token
/// metadata program fixes at 5.
#[verifier::external_body]
fn creator_count_limit() -> (limit: usize)
    ensures
        limit == MAX_CREATOR_LIMIT,
{
    mpl_token_metadata::state::MAX_CREATOR_LIMIT
}

/// The outcome of two checks run one after the other.
pub open spec fn chain(first: Result<(), BubblegumError>, next: Result<(), BubblegumError>) -> Result<
    (),
    BubblegumError,
> {
    if first is Err {
        first
    } else {
        next
    }
}

/// The outcome of a check that reports at most one error.
pub open spec fn refuse(error: Option<BubblegumError>) -> Result<(), BubblegumError> {
    match error {
        Some(e) => Err(e),
        None => Ok(()),
    }
}

// ---------------------------------------------------------------------------
// Field limits
// ---------------------------------------------------------------------------

/// The first field of the record that is over its limit, as an error.
pub open spec fn field_limit_error(new: MetadataView) -> Option<BubblegumError> {
    if encode_utf8(new.name).len() > MAX_NAME_LENGTH {
        Some(BubblegumError::MetadataNameTooLong)
    } else if encode_utf8(new.symbol).len() > MAX_SYMBOL_LENGTH {
        Some(BubblegumError::MetadataSymbolTooLong)
    } else if encode_utf8(new.uri).len() > MAX_URI_LENGTH {
        Some(BubblegumError::MetadataUriTooLong)
    } else if new.seller_fee_basis_points > MAX_SELLER_FEE_BASIS_POINTS {
        Some(BubblegumError::MetadataBasisPointsTooHigh)
    } else {
        None
    }
}

/// Holds name, symbol and uri against their byte limits and the seller fee
/// against its ceiling.
pub fn assert_field_limits(new: &MetadataArgs) -> (outcome: Result<(), BubblegumError>)
    ensures
        outcome == refuse(field_limit_error(new@)),
{
    if new.name.as_str().as_bytes().len() > name_length_limit() {
        return Err(BubblegumError::MetadataNameTooLong);
    }
    if new.symbol.as_str().as_bytes().len() > symbol_length_limit() {
        return Err(BubblegumError::MetadataSymbolTooLong);
    }
    if new.uri.as_str().as_bytes().len() > uri_length_limit() {
        return Err(BubblegumError::MetadataUriTooLong);
    }
    if new.seller_fee_basis_points > MAX_SELLER_FEE_BASIS_POINTS {
        return Err(BubblegumError::MetadataBasisPointsTooHigh);
    }
    Ok(())
}

// ---------------------------------------------------------------------------
// The creator list by itself
// ---------------------------------------------------------------------------

/// The sum of all shares of the list.
pub open spec fn share_total(creators: Seq<Creator>) -> int
    decreases creators.len(),
{
    if creators.len() == 0 {
        0
    } else {
        share_total(creators.drop_last()) + creators.last().share
    }
}

/// No two creators of the list carry the same address.
pub open spec fn distinct_addresses(creators: Seq<Creator>) -> bool {
    forall|i: int, j: int|
        0 <= i < j < creators.len() ==> creators[i].address != creators[j].address
}

/// What is wrong with a creator list taken by itself, if anything.
pub open spec fn creator_list_error(creators: Seq<Creator>) -> Option<BubblegumError> {
    if creators.len() > MAX_CREATOR_LIMIT {
        Some(BubblegumError::CreatorsTooLong)
    } else if creators.len() == 0 {
        Some(BubblegumError::NoCreatorsPresent)
    } else if !distinct_addresses(creators) {
        Some(BubblegumError::DuplicateCreatorAddress)
    } else if share_total(creators) > u8::MAX {
        Some(BubblegumError::NumericalOverflowError)
    } else if share_total(creators) != FULL_SHARE {
        Some(BubblegumError::CreatorShareTotalMustBe100)
    } else {
        None
    }
}

/// A shorter list has no more shares than a longer one that starts with it.
pub proof fn share_total_grows(creators: Seq<Creator>, upto: int)
    requires
        0 <= upto <= creators.len(),
    ensures
        0 <= share_total(creators.take(upto)) <= share_total(creators),
    decreases creators.len() - upto,
{
    if upto == creators.len() {
        assert(creators.take(upto) =~= creators);
        share_total_is_natural(creators);
    } else {
        share_total_grows(creators, upto + 1);
        let longer = creators.take(upto + 1);
        assert(longer.drop_last() =~= creators.take(upto));
        share_total_is_natural(creators.take(upto));
    }
}

/// Shares never add up to less than nothing.
pub proof fn share_total_is_natural(creators: Seq<Creator>)
    ensures
        0 <= share_total(creators),
    decreases creators.len(),
{
    if creators.len() > 0 {
        share_total_is_natural(creators.drop_last());
    }
}

/// Whether no two creators of the list carry the same address.
pub fn has_distinct_addresses(creators: &Vec<Creator>) -> (distinct: bool)
    ensures
        distinct == distinct_addresses(creators@),
{
    let mut upper: usize = 0;
    while upper < creators.len()
        invariant
            upper <= creators.len(),
            forall|i: int, j: int|
                0 <= i < j < upper ==> creators@[i].address != creators@[j].address,
        decreases creators.len() - upper,
    {
        let mut lower: usize = 0;
        while lower < upper
            invariant
                lower <= upper < creators.len(),
                forall|i: int| 0 <= i < lower ==> creators@[i].address != creators@[upper as int].address,
            decreases upper - lower,
        {
            if creators[lower].address == creators[upper].address {
                return false;
            }
            lower += 1;
        }
        upper += 1;
    }
    true
}

/// Checks a creator list taken by itself: between one and five entries, no
/// address twice, shares that add up to exactly one hundred.
///
/// The list passes exactly when all of that holds; which error a failing list
/// gets is settled by `creator_list_error`.
pub fn assert_creator_list(creators: &Vec<Creator>) -> (outcome: Result<(), BubblegumError>)
    ensures
        outcome == refuse(creator_list_error(creators@)),
        outcome is Ok <==> 0 < creators@.len() <= MAX_CREATOR_LIMIT && distinct_addresses(creators@)
            && share_total(creators@) == FULL_SHARE,
{
    if creators.len() > creator_count_limit() {
        return Err(BubblegumError::CreatorsTooLong);
    }
    if creators.len() == 0 {
        return Err(BubblegumError::NoCreatorsPresent);
    }
    if !has_distinct_addresses(creators) {
        return Err(BubblegumError::DuplicateCreatorAddress);
    }
    let mut total: u8 = 0;
    let mut at: usize = 0;
    while at < creators.len()
        invariant
            at <= creators.len(),
            0 < creators@.len() <= MAX_CREATOR_LIMIT,
            distinct_addresses(creators@),
            total == share_total(creators@.take(at as int)),
        decreases creators.len() - at,
    {
        proof {
            assert(creators@.take(at + 1).drop_last() =~= creators@.take(at as int));
            share_total_grows(creators@, at + 1);
        }
        match total.checked_add(creators[at].share) {
            Some(sum) => {
                total = sum;
            },
            None => {
                return Err(BubblegumError::NumericalOverflowError);
            },
        }
        at += 1;
    }
    proof {
        assert(creators@.take(at as int) =~= creators@);
    }
    if total != FULL_SHARE {
        return Err(BubblegumError::CreatorShareTotalMustBe100);
    }
    Ok(())
}

// ---------------------------------------------------------------------------
// The verified flags of the creators
// ---------------------------------------------------------------------------

/// Whether the acting authority may set the flag of this address as it likes:
/// it has signed, and the address is its own.
pub open spec fn speaks_for(address: Pubkey, authority: Pubkey, authority_is_signer: bool) -> bool {
    authority_is_signer && address == authority
}

/// What is wrong with the verified flag of one proposed creator, if anything.
///
/// The authority answers for its own entry. Any other entry keeps the flag
/// that the previous list has for its address; an address that is new to the
/// list starts unverified.
pub open spec fn flag_change_error(
    creator: Creator,
    old: Seq<Creator>,
    authority: Pubkey,
    authority_is_signer: bool,
) -> Option<BubblegumError> {
    if speaks_for(creator.address, authority, authority_is_signer) {
        None
    } else {
        match creator_at(old, creator.address) {
            Some(existing) => {
                if creator.verified && !existing.verified {
                    Some(BubblegumError::CannotVerifyAnotherCreator)
                } else if !creator.verified && existing.verified {
                    Some(BubblegumError::CannotUnverifyAnotherCreator)
                } else {
                    None
                }
            },
            None => {
                if creator.verified {
                    Some(BubblegumError::CannotVerifyAnotherCreator)
                } else {
                    None
                }
            },
        }
    }
}

/// The error of the first proposed creator, in list order, whose flag is not
/// in order.
pub open spec fn first_flag_error(
    new: Seq<Creator>,
    old: Seq<Creator>,
    authority: Pubkey,
    authority_is_signer: bool,
) -> Option<BubblegumError>
    decreases new.len(),
{
    if new.len() == 0 {
        None
    } else {
        match flag_change_error(new.first(), old, authority, authority_is_signer) {
            Some(e) => Some(e),
            None => first_flag_error(new.drop_first(), old, authority, authority_is_signer),
        }
    }
}

/// Whether the previous entry at `at` is a verified creator, not the
/// authority's own, that the proposed list no longer names.
pub open spec fn is_dropped_verified(
    new: Seq<Creator>,
    old: Seq<Creator>,
    authority: Pubkey,
    authority_is_signer: bool,
    at: int,
) -> bool {
    &&& !speaks_for(old[at].address, authority, authority_is_signer)
    &&& creator_at(new, old[at].address) is None
    &&& creator_at(old, old[at].address) matches Some(existing) && existing.verified
}

/// Whether the proposed list silently drops a verified creator.
pub open spec fn drops_verified_creator(
    new: Seq<Creator>,
    old: Seq<Creator>,
    authority: Pubkey,
    authority_is_signer: bool,
) -> bool {
    exists|at: int|
        0 <= at < old.len() && #[trigger] is_dropped_verified(
            new,
            old,
            authority,
            authority_is_signer,
            at,
        )
}

/// What is wrong with the verified flags of a proposed list, if anything:
/// first the flags of the entries it has, then the entries it has lost.
pub open spec fn creator_flags_error(
    new: Seq<Creator>,
    old: Seq<Creator>,
    authority: Pubkey,
    authority_is_signer: bool,
) -> Option<BubblegumError> {
    match first_flag_error(new, old, authority, authority_is_signer) {
        Some(e) => Some(e),
        None => {
            if drops_verified_creator(new, old, authority, authority_is_signer) {
                Some(BubblegumError::CannotUnverifyAnotherCreator)
            } else {
                None
            }
        },
    }
}

/// No entry of a proposed list is at fault exactly when none of them is,
/// taken one by one.
pub proof fn first_flag_error_none(
    new: Seq<Creator>,
    old: Seq<Creator>,
    authority: Pubkey,
    authority_is_signer: bool,
)
    ensures
        first_flag_error(new, old, authority, authority_is_signer) is None <==> forall|i: int|
            0 <= i < new.len() ==> flag_change_error(
                #[trigger] new[i],
                old,
                authority,
                authority_is_signer,
            ) is None,
    decreases new.len(),
{
    if new.len() > 0 {
        let rest = new.drop_first();
        first_flag_error_none(rest, old, authority, authority_is_signer);
        if first_flag_error(new, old, authority, authority_is_signer) is None {
            assert forall|i: int| 0 <= i < new.len() implies flag_change_error(
                #[trigger] new[i],
                old,
                authority,
                authority_is_signer,
            ) is None by {
                if i > 0 {
                    assert(new[i] == rest[i - 1]);
                }
            }
        } else if flag_change_error(new.first(), old, authority, authority_is_signer) is None {
            let i = choose|i: int|
                0 <= i < rest.len() && !(flag_change_error(
                    #[trigger] rest[i],
                    old,
                    authority,
                    authority_is_signer,
                ) is None);
            assert(new[i + 1] == rest[i]);
        }
    }
}

/// Checks the verified flag of one proposed creator.
pub fn assert_flag_change(
    creator: &Creator,
    old: &Vec<Creator>,
    authority: &Pubkey,
    authority_is_signer: bool,
) -> (outcome: Result<(), BubblegumError>)
    ensures
        outcome == refuse(flag_change_error(*creator, old@, *authority, authority_is_signer)),
{
    if authority_is_signer && creator.address == *authority {
        return Ok(());
    }
    match find_creator(old, &creator.address) {
        Some(existing) => {
            if creator.verified && !existing.verified {
                Err(BubblegumError::CannotVerifyAnotherCreator)
            } else if !creator.verified && existing.verified {
                Err(BubblegumError::CannotUnverifyAnotherCreator)
            } else {
                Ok(())
            }
        },
        None => {
            if creator.verified {
                Err(BubblegumError::CannotVerifyAnotherCreator)
            } else {
                Ok(())
            }
        },
    }
}

/// Checks the verified flags of a proposed creator list against the list it
/// replaces.
///
/// A creator may set or clear only its own flag, and only as the signing
/// authority. Every other entry keeps the flag it had; an address that the
/// previous list does not name comes in unverified; a verified entry of the
/// previous list is not dropped by anyone but itself.
pub fn assert_creator_flags(
    new: &Vec<Creator>,
    old: &Vec<Creator>,
    authority: &Pubkey,
    authority_is_signer: bool,
) -> (outcome: Result<(), BubblegumError>)
    ensures
        outcome == refuse(creator_flags_error(new@, old@, *authority, authority_is_signer)),
        outcome is Ok <==> (forall|i: int|
            0 <= i < new@.len() ==> flag_change_error(
                #[trigger] new@[i],
                old@,
                *authority,
                authority_is_signer,
            ) is None) && !drops_verified_creator(new@, old@, *authority, authority_is_signer),
{
    let mut at: usize = 0;
    proof {
        assert(new@.skip(0) =~= new@);
        first_flag_error_none(new@, old@, *authority, authority_is_signer);
    }
    while at < new.len()
        invariant
            at <= new.len(),
            first_flag_error(new@, old@, *authority, authority_is_signer) == first_flag_error(
                new@.skip(at as int),
                old@,
                *authority,
                authority_is_signer,
            ),
        decreases new.len() - at,
    {
        proof {
            let rest = new@.skip(at as int);
            assert(rest.first() == new@[at as int]);
            assert(rest.drop_first() =~= new@.skip(at + 1));
        }
        match assert_flag_change(&new[at], old, authority, authority_is_signer) {
            Ok(()) => {},
            Err(e) => {
                return Err(e);
            },
        }
        at += 1;
    }
    let mut seen: usize = 0;
    while seen < old.len()
        invariant
            seen <= old.len(),
            first_flag_error(new@, old@, *authority, authority_is_signer) is None,
            forall|k: int|
                0 <= k < seen ==> !is_dropped_verified(
                    new@,
                    old@,
                    *authority,
                    authority_is_signer,
                    k,
                ),
        decreases old.len() - seen,
    {
        let address = old[seen].address;
        if !(authority_is_signer && address == *authority) {
            if find_creator(new, &address).is_none() {
                match find_creator(old, &address) {
                    Some(existing) => {
                        if existing.verified {
                            proof {
                                assert(is_dropped_verified(
                                    new@,
                                    old@,
                                    *authority,
                                    authority_is_signer,
                                    seen as int,
                                ));
                            }
                            return Err(BubblegumError::CannotUnverifyAnotherCreator);
                        }
                    },
                    None => {},
                }
            }
        }
        seen += 1;
    }
    Ok(())
}

// ---------------------------------------------------------------------------
// The record's own data
// ---------------------------------------------------------------------------

/// The outcome of checking the proposed record's own data: field limits, the
/// creator list by itself, and then, unless creators are written directly, the
/// verified flags against the previous list.
pub open spec fn data_valid_outcome(
    new: MetadataView,
    authority: Pubkey,
    old: MetadataView,
    allow_direct_creator_writes: bool,
    authority_is_signer: bool,
) -> Result<(), BubblegumError> {
    chain(
        refuse(field_limit_error(new)),
        chain(
            refuse(creator_list_error(new.creators)),
            if allow_direct_creator_writes {
                Ok(())
            } else {
                refuse(
                    creator_flags_error(new.creators, old.creators, authority, authority_is_signer),
                )
            },
        ),
    )
}

/// Checks the proposed record's own data against the previous record and the
/// acting authority.
///
/// With `allow_direct_creator_writes` the verified flags are taken as they
/// come, which is for metadata from a fully trusted source; the shares must
/// add up all the same.
pub fn assert_data_valid(
    new: &MetadataArgs,
    update_authority: &Pubkey,
    old: &MetadataArgs,
    allow_direct_creator_writes: bool,
    update_authority_is_signer: bool,
) -> (outcome: Result<(), BubblegumError>)
    ensures
        outcome == data_valid_outcome(
            new@,
            *update_authority,
            old@,
            allow_direct_creator_writes,
            update_authority_is_signer,
        ),
{
    match assert_field_limits(new) {
        Ok(()) => {},
        Err(e) => {
            return Err(e);
        },
    }
    match assert_creator_list(&new.creators) {
        Ok(()) => {},
        Err(e) => {
            return Err(e);
        },
    }
    if allow_direct_creator_writes {
        return Ok(());
    }
    assert_creator_flags(&new.creators, &old.creators, update_authority, update_authority_is_signer)
}

// ---------------------------------------------------------------------------
// Collection
// ---------------------------------------------------------------------------

/// Whether a collection reference is present and marked verified.
pub open spec fn is_verified_collection(collection: Option<Collection>) -> bool {
    collection matches Some(c) && c.verified
}

/// The outcome of checking that an incoming collection does not claim a
/// verification that the existing one does not already have. For an edition
/// the check is waived.
pub open spec fn collection_update_outcome(
    edition: bool,
    existing: Option<Collection>,
    incoming: Option<Collection>,
) -> Result<(), BubblegumError> {
    if is_verified_collection(incoming) && incoming != existing && !edition {
        Err(BubblegumError::CollectionCannotBeVerifiedInThisInstruction)
    } else {
        Ok(())
    }
}

/// Checks that an incoming collection is not newly marked verified: a
/// verified incoming reference has to be the existing one, key and flag.
pub fn assert_collection_update_is_valid(
    edition: bool,
    existing: &Option<Collection>,
    incoming: &Option<Collection>,
) -> (outcome: Result<(), BubblegumError>)
    ensures
        outcome == collection_update_outcome(edition, *existing, *incoming),
{
    let is_incoming_verified_true = match incoming {
        Some(collection) => collection.verified,
        None => false,
    };
    let is_incoming_data_valid = !is_incoming_verified_true || match (existing, incoming) {
        (Some(current), Some(proposed)) => proposed.verified == current.verified && proposed.key
            == current.key,
        _ => false,
    };
    if !is_incoming_data_valid && !edition {
        return Err(BubblegumError::CollectionCannotBeVerifiedInThisInstruction);
    }
    Ok(())
}

/// The outcome of replacing the collection reference of a record: a
/// verification is never asserted here, and a verified reference is never
/// removed or replaced here.
pub open spec fn collection_change_outcome(
    existing: Option<Collection>,
    incoming: Option<Collection>,
) -> Result<(), BubblegumError> {
    chain(
        collection_update_outcome(false, existing, incoming),
        if is_verified_collection(existing) && incoming != existing {
            Err(BubblegumError::CannotUpdateVerifiedCollection)
        } else {
            Ok(())
        },
    )
}

/// Checks the collection reference of a proposed record against the one it
/// replaces.
pub fn assert_collection_change(existing: &Option<Collection>, incoming: &Option<Collection>) -> (outcome:
    Result<(), BubblegumError>)
    ensures
        outcome == collection_change_outcome(*existing, *incoming),
{
    match assert_collection_update_is_valid(false, existing, incoming) {
        Ok(()) => {},
        Err(e) => {
            return Err(e);
        },
    }
    match existing {
        Some(current) => {
            if current.verified {
                let unchanged = match incoming {
                    Some(proposed) => proposed.verified && proposed.key == current.key,
                    None => false,
                };
                if !unchanged {
                    return Err(BubblegumError::CannotUpdateVerifiedCollection);
                }
            }
            Ok(())
        },
        None => Ok(()),
    }
}

// ---------------------------------------------------------------------------
// Uses
// ---------------------------------------------------------------------------

/// Whether the counters of a use record agree with its method: a single use
/// has exactly one use and has it left, a multiple use has at least two and no
/// more left than it has.
pub open spec fn use_is_coherent(uses: Uses) -> bool {
    match uses.use_method {
        UseMethod::Single => uses.total == 1 && uses.remaining == 1,
        UseMethod::Multiple => uses.total >= 2 && uses.total >= uses.remaining,
        UseMethod::Burn => true,
    }
}

/// Whether an asset has been used at least once.
pub open spec fn has_been_used(uses: Uses) -> bool {
    uses.total != uses.remaining
}

/// The outcome of replacing the use record `current` by `incoming`. Once an
/// asset has been used, its method and its counters are frozen.
pub open spec fn valid_use_outcome(incoming: Option<Uses>, current: Option<Uses>) -> Result<
    (),
    BubblegumError,
> {
    match incoming {
        Some(i) => {
            if !use_is_coherent(i) {
                Err(BubblegumError::InvalidUseMethod)
            } else {
                match current {
                    Some(c) => {
                        if !has_been_used(c) {
                            Ok(())
                        } else if i.use_method != c.use_method {
                            Err(BubblegumError::CannotChangeUseMethodAfterFirstUse)
                        } else if i.total != c.total || i.remaining != c.remaining {
                            Err(BubblegumError::CannotChangeUsesAfterFirstUse)
                        } else {
                            Ok(())
                        }
                    },
                    None => Ok(()),
                }
            }
        },
        None => Ok(()),
    }
}

/// Checks an incoming use record by itself and against the current one.
pub fn assert_valid_use(incoming_use: &Option<Uses>, current_use: &Option<Uses>) -> (outcome: Result<
    (),
    BubblegumError,
>)
    ensures
        outcome == valid_use_outcome(*incoming_use, *current_use),
{
    if let Some(i) = incoming_use {
        if i.use_method == UseMethod::Single && (i.total != 1 || i.remaining != 1) {
            return Err(BubblegumError::InvalidUseMethod);
        }
        if i.use_method == UseMethod::Multiple && (i.total < 2 || i.total < i.remaining) {
            return Err(BubblegumError::InvalidUseMethod);
        }
    }
    match (incoming_use, current_use) {
        (Some(incoming), Some(current)) => {
            if incoming.use_method != current.use_method && current.total != current.remaining {
                return Err(BubblegumError::CannotChangeUseMethodAfterFirstUse);
            }
            if incoming.total != current.total && current.total != current.remaining {
                return Err(BubblegumError::CannotChangeUsesAfterFirstUse);
            }
            if incoming.remaining != current.remaining && current.total != current.remaining {
                return Err(BubblegumError::CannotChangeUsesAfterFirstUse);
            }
            Ok(())
        },
        _ => Ok(()),
    }
}

// ---------------------------------------------------------------------------
// The two one-way flags
// ---------------------------------------------------------------------------

/// The outcome of changing the primary sale flag: it may be set, never
/// cleared.
pub open spec fn primary_sale_outcome(new: bool, old: bool) -> Result<(), BubblegumError> {
    if new || !old {
        Ok(())
    } else {
        Err(BubblegumError::PrimarySaleCanOnlyBeFlippedToTrue)
    }
}

/// Checks a change of the primary sale flag.
pub fn assert_primary_sale_change(new: bool, old: bool) -> (outcome: Result<(), BubblegumError>)
    ensures
        outcome == primary_sale_outcome(new, old),
{
    if new || !old {
        Ok(())
    } else {
        Err(BubblegumError::PrimarySaleCanOnlyBeFlippedToTrue)
    }
}

/// The outcome of changing the mutability flag: it may be cleared, never set
/// again.
pub open spec fn mutability_outcome(new: bool, old: bool) -> Result<(), BubblegumError> {
    if !new || old {
        Ok(())
    } else {
        Err(BubblegumError::IsMutableCanOnlyBeFlippedToFalse)
    }
}

/// Checks a change of the mutability flag.
pub fn assert_mutability_change(new: bool, old: bool) -> (outcome: Result<(), BubblegumError>)
    ensures
        outcome == mutability_outcome(new, old),
{
    if !new || old {
        Ok(())
    } else {
        Err(BubblegumError::IsMutableCanOnlyBeFlippedToFalse)
    }
}

// ---------------------------------------------------------------------------
// A record that replaces nothing
// ---------------------------------------------------------------------------

/// The outcome of proposing `new` for an asset that does not exist yet, as
/// `authority`: the checks of an update that need no previous record, held
/// against no creators, no collection and no use record.
pub open spec fn first_record_outcome(new: MetadataView, authority: Pubkey) -> Result<
    (),
    BubblegumError,
> {
    chain(
        refuse(field_limit_error(new)),
        chain(
            refuse(creator_list_error(new.creators)),
            chain(
                refuse(creator_flags_error(new.creators, Seq::empty(), authority, true)),
                chain(
                    collection_change_outcome(None, new.collection),
                    valid_use_outcome(new.uses, None),
                ),
            ),
        ),
    )
}

/// Decides whether `new` may be the first record of an asset that
/// `authority` mints. No creator comes in verified but the authority itself,
/// and no collection comes in verified at all.
pub fn assert_first_record_valid(new: &MetadataArgs, authority: &Pubkey) -> (outcome: Result<
    (),
    BubblegumError,
>)
    ensures
        outcome == first_record_outcome(new@, *authority),
{
    match assert_field_limits(new) {
        Ok(()) => {},
        Err(e) => {
            return Err(e);
        },
    }
    match assert_creator_list(&new.creators) {
        Ok(()) => {},
        Err(e) => {
            return Err(e);
        },
    }
    let nobody: Vec<Creator> = Vec::new();
    match assert_creator_flags(&new.creators, &nobody, authority, true) {
        Ok(()) => {},
        Err(e) => {
            return Err(e);
        },
    }
    match assert_collection_change(&None, &new.collection) {
        Ok(()) => {},
        Err(e) => {
            return Err(e);
        },
    }
    assert_valid_use(&new.uses, &None)
}

// ---------------------------------------------------------------------------
// The whole update
// ---------------------------------------------------------------------------

/// The outcome of proposing `new` in place of `old` as `authority`: the first
/// failure in the fixed order of the checks, or success if there is none.
pub open spec fn update_outcome(new: MetadataView, old: MetadataView, authority: Pubkey) -> Result<
    (),
    BubblegumError,
> {
    if !old.is_mutable {
        Err(BubblegumError::DataIsImmutable)
    } else {
        chain(
            data_valid_outcome(new, authority, old, false, true),
            chain(
                collection_change_outcome(old.collection, new.collection),
                chain(
                    valid_use_outcome(new.uses, old.uses),
                    chain(
                        primary_sale_outcome(new.primary_sale_happened, old.primary_sale_happened),
                        mutability_outcome(new.is_mutable, old.is_mutable),
                    ),
                ),
            ),
        )
    }
}

/// Decides whether `new` may replace `old` when `update_authority` asks for
/// it. Nothing is written: on `Ok` the caller commits the hash of `new`.
///
/// In order: the old record must be mutable; name, symbol, uri and seller fee
/// must be within their limits; the creator list must be well formed and its
/// shares add up to one hundred; verified flags may change only for the
/// authority's own entry; a collection is neither newly verified nor, once
/// verified, removed or replaced; the use record must be coherent and, once
/// used, unchanged; the primary sale flag is not cleared; the mutability flag
/// is not set again.
pub fn process_update_metadata_accounts_v2(
    new: &MetadataArgs,
    old: &MetadataArgs,
    update_authority: &Pubkey,
) -> (outcome: Result<(), BubblegumError>)
    ensures
        outcome == update_outcome(new@, old@, *update_authority),
{
    if !old.is_mutable {
        return Err(BubblegumError::DataIsImmutable);
    }
    match assert_data_valid(new, update_authority, old, false, true) {
        Ok(()) => {},
        Err(e) => {
            return Err(e);
        },
    }
    match assert_collection_change(&old.collection, &new.collection) {
        Ok(()) => {},
        Err(e) => {
            return Err(e);
        },
    }
    match assert_valid_use(&new.uses, &old.uses) {
        Ok(()) => {},
        Err(e) => {
            return Err(e);
        },
    }
    match assert_primary_sale_change(new.primary_sale_happened, old.primary_sale_happened) {
        Ok(()) => {},
        Err(e) => {
            return Err(e);
        },
    }
    assert_mutability_change(new.is_mutable, old.is_mutable)
}

} // verus!
