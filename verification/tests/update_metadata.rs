use bubblegum::update_metadata::assert_collection_change;
use bubblegum::update_metadata::assert_collection_update_is_valid;
use bubblegum::update_metadata::assert_creator_flags;
use bubblegum::update_metadata::assert_creator_list;
use bubblegum::update_metadata::assert_data_valid;
use bubblegum::update_metadata::assert_field_limits;
use bubblegum::update_metadata::assert_first_record_valid;
use bubblegum::update_metadata::assert_flag_change;
use bubblegum::update_metadata::assert_mutability_change;
use bubblegum::update_metadata::assert_primary_sale_change;
use bubblegum::update_metadata::assert_valid_use;
use bubblegum::update_metadata::has_distinct_addresses;
use bubblegum::update_metadata::process_update_metadata_accounts_v2;
use bubblegum::update_metadata::MAX_CREATOR_LIMIT;
use bubblegum::update_metadata::MAX_NAME_LENGTH;
use bubblegum::update_metadata::MAX_SYMBOL_LENGTH;
use bubblegum::update_metadata::MAX_URI_LENGTH;
use bubblegum::BubblegumError;
use bubblegum::Collection;
use bubblegum::Creator;
use bubblegum::ErrorKind;
use bubblegum::MetadataArgs;
use bubblegum::Pubkey;
use bubblegum::TokenProgramVersion;
use bubblegum::UseMethod;
use bubblegum::Uses;

fn key(byte: u8) -> Pubkey {
    Pubkey::new_from_array([byte; 32])
}

fn creator(byte: u8, verified: bool, share: u8) -> Creator {
    Creator { address: key(byte), verified, share }
}

fn four_creators(shares: [u8; 4]) -> Vec<Creator> {
    vec![
        creator(1, false, shares[0]),
        creator(2, false, shares[1]),
        creator(3, false, shares[2]),
        creator(4, false, shares[3]),
    ]
}

fn metadata() -> MetadataArgs {
    MetadataArgs {
        name: "test".to_owned(),
        symbol: "tst".to_owned(),
        uri: "www.solana.pos".to_owned(),
        seller_fee_basis_points: 0,
        primary_sale_happened: false,
        is_mutable: true,
        edition_nonce: None,
        token_standard: None,
        collection: None,
        uses: None,
        token_program_version: TokenProgramVersion::Original,
        creators: four_creators([20, 20, 20, 40]),
    }
}

fn uses(use_method: UseMethod, remaining: u64, total: u64) -> Option<Uses> {
    Some(Uses { use_method, remaining, total })
}

fn collection(byte: u8, verified: bool) -> Option<Collection> {
    Some(Collection { verified, key: key(byte) })
}

// ---- the whole update ----

#[test]
fn unchanged_record_is_a_legal_update() {
    let old = metadata();
    let new = metadata();
    assert_eq!(process_update_metadata_accounts_v2(&new, &old, &key(9)), Ok(()));
}

#[test]
fn immutable_record_refuses_any_update() {
    let mut old = metadata();
    old.is_mutable = false;
    let new = metadata();
    assert_eq!(
        process_update_metadata_accounts_v2(&new, &old, &key(9)),
        Err(BubblegumError::DataIsImmutable)
    );
    // Even a record that is wrong in other ways is refused for this reason first.
    let mut broken = metadata();
    broken.creators = vec![];
    assert_eq!(
        process_update_metadata_accounts_v2(&broken, &old, &key(9)),
        Err(BubblegumError::DataIsImmutable)
    );
}

#[test]
fn mutability_can_be_cleared_but_not_set_again() {
    let old = metadata();
    let mut frozen = metadata();
    frozen.is_mutable = false;
    // true -> false is a legal update.
    assert_eq!(process_update_metadata_accounts_v2(&frozen, &old, &key(9)), Ok(()));
    // The flag by itself may not go back.
    assert_eq!(
        assert_mutability_change(true, false),
        Err(BubblegumError::IsMutableCanOnlyBeFlippedToFalse)
    );
    // Through the whole update the frozen record answers first.
    let thawed = metadata();
    assert_eq!(
        process_update_metadata_accounts_v2(&thawed, &frozen, &key(9)),
        Err(BubblegumError::DataIsImmutable)
    );
}

#[test]
fn mutability_flag_transitions() {
    assert_eq!(assert_mutability_change(true, true), Ok(()));
    assert_eq!(assert_mutability_change(false, true), Ok(()));
    assert_eq!(assert_mutability_change(false, false), Ok(()));
    assert_eq!(
        assert_mutability_change(true, false),
        Err(BubblegumError::IsMutableCanOnlyBeFlippedToFalse)
    );
}

#[test]
fn primary_sale_flag_transitions() {
    assert_eq!(assert_primary_sale_change(false, false), Ok(()));
    assert_eq!(assert_primary_sale_change(true, false), Ok(()));
    assert_eq!(assert_primary_sale_change(true, true), Ok(()));
    assert_eq!(
        assert_primary_sale_change(false, true),
        Err(BubblegumError::PrimarySaleCanOnlyBeFlippedToTrue)
    );
}

#[test]
fn primary_sale_cannot_be_cleared_by_an_update() {
    let mut old = metadata();
    old.primary_sale_happened = true;
    let new = metadata();
    assert_eq!(
        process_update_metadata_accounts_v2(&new, &old, &key(9)),
        Err(BubblegumError::PrimarySaleCanOnlyBeFlippedToTrue)
    );
    let mut sold = metadata();
    sold.primary_sale_happened = true;
    assert_eq!(process_update_metadata_accounts_v2(&sold, &metadata(), &key(9)), Ok(()));
}

#[test]
fn checks_run_in_their_fixed_order() {
    // Everything is wrong with this record; the errors come out one by one
    // as the earlier faults are mended.
    let mut old = metadata();
    old.primary_sale_happened = true;
    old.collection = collection(7, true);
    old.uses = uses(UseMethod::Multiple, 1, 5);
    old.creators[0].verified = true;

    let mut new = metadata();
    new.name = "n".repeat(MAX_NAME_LENGTH + 1);
    new.creators = four_creators([20, 20, 20, 41]);
    new.creators[1].verified = true;
    new.collection = None;
    new.uses = uses(UseMethod::Single, 2, 2);
    new.primary_sale_happened = false;

    let authority = key(9);
    let run = |new: &MetadataArgs| process_update_metadata_accounts_v2(new, &old, &authority);

    assert_eq!(run(&new), Err(BubblegumError::MetadataNameTooLong));
    new.name = "test".to_owned();
    assert_eq!(run(&new), Err(BubblegumError::CreatorShareTotalMustBe100));
    new.creators[3].share = 40;
    // Creator 1 lost its flag before creator 2 gained one.
    assert_eq!(run(&new), Err(BubblegumError::CannotUnverifyAnotherCreator));
    new.creators[0].verified = true;
    assert_eq!(run(&new), Err(BubblegumError::CannotVerifyAnotherCreator));
    new.creators[1].verified = false;
    assert_eq!(run(&new), Err(BubblegumError::CannotUpdateVerifiedCollection));
    new.collection = collection(7, true);
    assert_eq!(run(&new), Err(BubblegumError::InvalidUseMethod));
    new.uses = uses(UseMethod::Burn, 1, 5);
    assert_eq!(run(&new), Err(BubblegumError::CannotChangeUseMethodAfterFirstUse));
    new.uses = uses(UseMethod::Multiple, 1, 5);
    assert_eq!(run(&new), Err(BubblegumError::PrimarySaleCanOnlyBeFlippedToTrue));
    new.primary_sale_happened = true;
    assert_eq!(run(&new), Ok(()));
}

// ---- field limits ----

#[test]
fn name_is_held_to_its_limit() {
    let mut new = metadata();
    new.name = "n".repeat(32);
    assert_eq!(assert_field_limits(&new), Ok(()));
    new.name = "n".repeat(33);
    assert_eq!(assert_field_limits(&new), Err(BubblegumError::MetadataNameTooLong));
    assert_eq!(MAX_NAME_LENGTH, 32);
}

#[test]
fn name_limit_counts_bytes_not_characters() {
    let mut new = metadata();
    // Sixteen characters of two bytes each fit, seventeen do not.
    new.name = "é".repeat(16);
    assert_eq!(assert_field_limits(&new), Ok(()));
    new.name = "é".repeat(17);
    assert_eq!(assert_field_limits(&new), Err(BubblegumError::MetadataNameTooLong));
}

#[test]
fn symbol_is_held_to_its_limit() {
    let mut new = metadata();
    new.symbol = "s".repeat(10);
    assert_eq!(assert_field_limits(&new), Ok(()));
    new.symbol = "s".repeat(11);
    assert_eq!(assert_field_limits(&new), Err(BubblegumError::MetadataSymbolTooLong));
    assert_eq!(MAX_SYMBOL_LENGTH, 10);
}

#[test]
fn uri_is_held_to_its_limit() {
    let mut new = metadata();
    new.uri = "u".repeat(200);
    assert_eq!(assert_field_limits(&new), Ok(()));
    new.uri = "u".repeat(201);
    assert_eq!(assert_field_limits(&new), Err(BubblegumError::MetadataUriTooLong));
    assert_eq!(MAX_URI_LENGTH, 200);
}

#[test]
fn seller_fee_is_held_to_its_ceiling() {
    let mut new = metadata();
    new.seller_fee_basis_points = 10000;
    assert_eq!(assert_field_limits(&new), Ok(()));
    new.seller_fee_basis_points = 10001;
    assert_eq!(assert_field_limits(&new), Err(BubblegumError::MetadataBasisPointsTooHigh));
}

#[test]
fn field_limits_are_checked_name_first() {
    let mut new = metadata();
    new.name = "n".repeat(40);
    new.symbol = "s".repeat(40);
    new.uri = "u".repeat(400);
    new.seller_fee_basis_points = 20000;
    assert_eq!(assert_field_limits(&new), Err(BubblegumError::MetadataNameTooLong));
    new.name = String::new();
    assert_eq!(assert_field_limits(&new), Err(BubblegumError::MetadataSymbolTooLong));
    new.symbol = String::new();
    assert_eq!(assert_field_limits(&new), Err(BubblegumError::MetadataUriTooLong));
    new.uri = String::new();
    assert_eq!(assert_field_limits(&new), Err(BubblegumError::MetadataBasisPointsTooHigh));
}

// ---- the creator list by itself ----

#[test]
fn shares_of_one_hundred_pass() {
    assert_eq!(assert_creator_list(&four_creators([20, 20, 20, 40])), Ok(()));
    assert_eq!(assert_creator_list(&vec![creator(1, false, 100)]), Ok(()));
    assert_eq!(
        assert_creator_list(&vec![creator(1, false, 0), creator(2, true, 100)]),
        Ok(())
    );
}

#[test]
fn shares_off_one_hundred_fail() {
    assert_eq!(
        assert_creator_list(&four_creators([20, 20, 20, 41])),
        Err(BubblegumError::CreatorShareTotalMustBe100)
    );
    assert_eq!(
        assert_creator_list(&four_creators([20, 20, 20, 39])),
        Err(BubblegumError::CreatorShareTotalMustBe100)
    );
    assert_eq!(
        assert_creator_list(&vec![creator(1, false, 255)]),
        Err(BubblegumError::CreatorShareTotalMustBe100)
    );
}

#[test]
fn shares_beyond_a_byte_overflow() {
    assert_eq!(
        assert_creator_list(&vec![creator(1, false, 200), creator(2, false, 56)]),
        Err(BubblegumError::NumericalOverflowError)
    );
    // 255 is the last sum that is merely wrong.
    assert_eq!(
        assert_creator_list(&vec![creator(1, false, 200), creator(2, false, 55)]),
        Err(BubblegumError::CreatorShareTotalMustBe100)
    );
    // A sum that would wrap around to one hundred is still an overflow.
    assert_eq!(
        assert_creator_list(&vec![creator(1, false, 200), creator(2, false, 156)]),
        Err(BubblegumError::NumericalOverflowError)
    );
}

#[test]
fn duplicate_address_fails() {
    let mut creators = four_creators([20, 20, 20, 40]);
    creators[3].address = creators[0].address;
    assert_eq!(assert_creator_list(&creators), Err(BubblegumError::DuplicateCreatorAddress));
    assert!(!has_distinct_addresses(&creators));
    assert!(has_distinct_addresses(&four_creators([1, 2, 3, 4])));
    assert!(has_distinct_addresses(&vec![]));
}

#[test]
fn empty_creator_list_fails() {
    assert_eq!(assert_creator_list(&vec![]), Err(BubblegumError::NoCreatorsPresent));
}

#[test]
fn creator_list_is_held_to_its_limit() {
    let five: Vec<Creator> = (1..=5).map(|i| creator(i, false, 20)).collect();
    assert_eq!(assert_creator_list(&five), Ok(()));
    let mut six: Vec<Creator> = (1..=6).map(|i| creator(i, false, 20)).collect();
    six[5].share = 0;
    assert_eq!(assert_creator_list(&six), Err(BubblegumError::CreatorsTooLong));
    assert_eq!(MAX_CREATOR_LIMIT, 5);
}

#[test]
fn creator_list_passes_exactly_when_well_formed() {
    // Every list of up to three creators over two addresses and a few shares.
    let shares = [0u8, 40, 60, 100, 200];
    let mut lists: Vec<Vec<Creator>> = vec![vec![]];
    let mut frontier: Vec<Vec<Creator>> = vec![vec![]];
    for _ in 0..3 {
        let mut next = vec![];
        for list in &frontier {
            for address in 1..=2u8 {
                for share in shares {
                    let mut longer = list.clone();
                    longer.push(creator(address, false, share));
                    next.push(longer);
                }
            }
        }
        lists.extend(next.iter().cloned());
        frontier = next;
    }
    assert_eq!(lists.len(), 1 + 10 + 100 + 1000);
    for list in &lists {
        let sum: u32 = list.iter().map(|c| c.share as u32).sum();
        let mut distinct = true;
        for i in 0..list.len() {
            for j in 0..i {
                if list[i].address == list[j].address {
                    distinct = false;
                }
            }
        }
        let well_formed = !list.is_empty() && list.len() <= 5 && distinct && sum == 100;
        assert_eq!(assert_creator_list(list).is_ok(), well_formed);
    }
}

// ---- verified flags ----

#[test]
fn creator_sets_and_clears_its_own_flag() {
    let old = four_creators([20, 20, 20, 40]);
    let mut new = old.clone();
    new[2].verified = true;
    assert_eq!(assert_creator_flags(&new, &old, &key(3), true), Ok(()));
    // and clears it again
    assert_eq!(assert_creator_flags(&old, &new, &key(3), true), Ok(()));
}

#[test]
fn nobody_sets_the_flag_of_another() {
    let old = four_creators([20, 20, 20, 40]);
    let mut new = old.clone();
    new[2].verified = true;
    assert_eq!(
        assert_creator_flags(&new, &old, &key(1), true),
        Err(BubblegumError::CannotVerifyAnotherCreator)
    );
    assert_eq!(
        assert_creator_flags(&new, &old, &key(9), true),
        Err(BubblegumError::CannotVerifyAnotherCreator)
    );
}

#[test]
fn nobody_clears_the_flag_of_another() {
    let mut old = four_creators([20, 20, 20, 40]);
    old[2].verified = true;
    let new = four_creators([20, 20, 20, 40]);
    assert_eq!(
        assert_creator_flags(&new, &old, &key(1), true),
        Err(BubblegumError::CannotUnverifyAnotherCreator)
    );
}

#[test]
fn authority_that_has_not_signed_speaks_for_nobody() {
    let old = four_creators([20, 20, 20, 40]);
    let mut new = old.clone();
    new[2].verified = true;
    assert_eq!(
        assert_creator_flags(&new, &old, &key(3), false),
        Err(BubblegumError::CannotVerifyAnotherCreator)
    );
    assert_eq!(
        assert_flag_change(&new[2], &old, &key(3), false),
        Err(BubblegumError::CannotVerifyAnotherCreator)
    );
    assert_eq!(assert_flag_change(&new[2], &old, &key(3), true), Ok(()));
}

#[test]
fn new_address_comes_in_unverified() {
    let old = vec![creator(1, false, 100)];
    let mut new = vec![creator(1, false, 50), creator(2, true, 50)];
    assert_eq!(
        assert_creator_flags(&new, &old, &key(1), true),
        Err(BubblegumError::CannotVerifyAnotherCreator)
    );
    // unless it is the authority's own
    assert_eq!(assert_creator_flags(&new, &old, &key(2), true), Ok(()));
    new[1].verified = false;
    assert_eq!(assert_creator_flags(&new, &old, &key(1), true), Ok(()));
}

#[test]
fn verified_creator_is_not_dropped_by_another() {
    let old = vec![creator(1, true, 50), creator(2, false, 50)];
    let new = vec![creator(2, false, 100)];
    assert_eq!(
        assert_creator_flags(&new, &old, &key(2), true),
        Err(BubblegumError::CannotUnverifyAnotherCreator)
    );
    // It may drop itself.
    assert_eq!(assert_creator_flags(&new, &old, &key(1), true), Ok(()));
    // An unverified creator may be dropped by anyone.
    let new = vec![creator(1, true, 100)];
    assert_eq!(assert_creator_flags(&new, &old, &key(9), true), Ok(()));
}

#[test]
fn flags_of_existing_entries_are_checked_before_dropped_ones() {
    let old = vec![creator(1, true, 50), creator(2, false, 50)];
    let new = vec![creator(2, true, 100)];
    assert_eq!(
        assert_creator_flags(&new, &old, &key(9), true),
        Err(BubblegumError::CannotVerifyAnotherCreator)
    );
}

#[test]
fn last_entry_counts_where_the_old_list_repeats_an_address() {
    let old = vec![creator(1, true, 50), creator(1, false, 50)];
    let new = vec![creator(1, false, 100)];
    assert_eq!(assert_creator_flags(&new, &old, &key(9), true), Ok(()));
    let new = vec![creator(1, true, 100)];
    assert_eq!(
        assert_creator_flags(&new, &old, &key(9), true),
        Err(BubblegumError::CannotVerifyAnotherCreator)
    );
}

#[test]
fn direct_creator_writes_skip_the_flags_but_not_the_shares() {
    let old = metadata();
    let mut new = metadata();
    new.creators[0].verified = true;
    let authority = key(9);
    assert_eq!(
        assert_data_valid(&new, &authority, &old, false, true),
        Err(BubblegumError::CannotVerifyAnotherCreator)
    );
    assert_eq!(assert_data_valid(&new, &authority, &old, true, true), Ok(()));
    new.creators[0].share = 21;
    assert_eq!(
        assert_data_valid(&new, &authority, &old, true, true),
        Err(BubblegumError::CreatorShareTotalMustBe100)
    );
}

#[test]
fn creator_list_is_judged_before_the_flags() {
    let old = metadata();
    let mut new = metadata();
    new.creators[0].verified = true;
    new.creators[0].share = 21;
    assert_eq!(
        assert_data_valid(&new, &key(9), &old, false, true),
        Err(BubblegumError::CreatorShareTotalMustBe100)
    );
}

// ---- collection ----

#[test]
fn collection_is_never_newly_verified() {
    assert_eq!(
        assert_collection_update_is_valid(false, &None, &collection(7, true)),
        Err(BubblegumError::CollectionCannotBeVerifiedInThisInstruction)
    );
    assert_eq!(
        assert_collection_update_is_valid(false, &collection(7, false), &collection(7, true)),
        Err(BubblegumError::CollectionCannotBeVerifiedInThisInstruction)
    );
    assert_eq!(
        assert_collection_update_is_valid(false, &collection(8, true), &collection(7, true)),
        Err(BubblegumError::CollectionCannotBeVerifiedInThisInstruction)
    );
    assert_eq!(
        assert_collection_update_is_valid(false, &collection(7, true), &collection(7, true)),
        Ok(())
    );
    assert_eq!(assert_collection_update_is_valid(false, &None, &collection(7, false)), Ok(()));
    assert_eq!(assert_collection_update_is_valid(false, &collection(7, true), &None), Ok(()));
    assert_eq!(assert_collection_update_is_valid(false, &None, &None), Ok(()));
}

#[test]
fn edition_waives_the_collection_check() {
    assert_eq!(assert_collection_update_is_valid(true, &None, &collection(7, true)), Ok(()));
}

#[test]
fn verified_collection_is_neither_removed_nor_replaced() {
    let verified = collection(7, true);
    assert_eq!(
        assert_collection_change(&verified, &None),
        Err(BubblegumError::CannotUpdateVerifiedCollection)
    );
    assert_eq!(
        assert_collection_change(&verified, &collection(8, false)),
        Err(BubblegumError::CannotUpdateVerifiedCollection)
    );
    assert_eq!(
        assert_collection_change(&verified, &collection(7, false)),
        Err(BubblegumError::CannotUpdateVerifiedCollection)
    );
    assert_eq!(
        assert_collection_change(&verified, &collection(8, true)),
        Err(BubblegumError::CollectionCannotBeVerifiedInThisInstruction)
    );
    assert_eq!(assert_collection_change(&verified, &verified), Ok(()));
}

#[test]
fn unverified_collection_changes_freely() {
    let unverified = collection(7, false);
    assert_eq!(assert_collection_change(&unverified, &None), Ok(()));
    assert_eq!(assert_collection_change(&unverified, &collection(8, false)), Ok(()));
    assert_eq!(assert_collection_change(&None, &collection(8, false)), Ok(()));
    assert_eq!(assert_collection_change(&None, &None), Ok(()));
    assert_eq!(
        assert_collection_change(&unverified, &collection(7, true)),
        Err(BubblegumError::CollectionCannotBeVerifiedInThisInstruction)
    );
}

// ---- uses ----

#[test]
fn single_use_has_exactly_one_use_left() {
    assert_eq!(assert_valid_use(&uses(UseMethod::Single, 1, 1), &None), Ok(()));
    assert_eq!(
        assert_valid_use(&uses(UseMethod::Single, 1, 2), &None),
        Err(BubblegumError::InvalidUseMethod)
    );
    assert_eq!(
        assert_valid_use(&uses(UseMethod::Single, 0, 1), &None),
        Err(BubblegumError::InvalidUseMethod)
    );
}

#[test]
fn multiple_use_has_at_least_two_and_no_more_left_than_it_has() {
    assert_eq!(assert_valid_use(&uses(UseMethod::Multiple, 2, 2), &None), Ok(()));
    assert_eq!(assert_valid_use(&uses(UseMethod::Multiple, 0, 2), &None), Ok(()));
    assert_eq!(
        assert_valid_use(&uses(UseMethod::Multiple, 1, 1), &None),
        Err(BubblegumError::InvalidUseMethod)
    );
    assert_eq!(
        assert_valid_use(&uses(UseMethod::Multiple, 3, 2), &None),
        Err(BubblegumError::InvalidUseMethod)
    );
}

#[test]
fn burn_use_takes_any_counters() {
    assert_eq!(assert_valid_use(&uses(UseMethod::Burn, 0, 0), &None), Ok(()));
    assert_eq!(assert_valid_use(&uses(UseMethod::Burn, 9, 3), &None), Ok(()));
}

#[test]
fn unused_asset_may_change_its_uses() {
    let current = uses(UseMethod::Multiple, 5, 5);
    assert_eq!(assert_valid_use(&uses(UseMethod::Single, 1, 1), &current), Ok(()));
    assert_eq!(assert_valid_use(&uses(UseMethod::Multiple, 3, 9), &current), Ok(()));
    assert_eq!(assert_valid_use(&None, &current), Ok(()));
}

#[test]
fn used_asset_keeps_its_method() {
    let current = uses(UseMethod::Multiple, 4, 5);
    assert_eq!(
        assert_valid_use(&uses(UseMethod::Burn, 4, 5), &current),
        Err(BubblegumError::CannotChangeUseMethodAfterFirstUse)
    );
    assert_eq!(
        assert_valid_use(&uses(UseMethod::Single, 1, 1), &current),
        Err(BubblegumError::CannotChangeUseMethodAfterFirstUse)
    );
}

#[test]
fn used_asset_keeps_its_counters() {
    let current = uses(UseMethod::Multiple, 4, 5);
    assert_eq!(
        assert_valid_use(&uses(UseMethod::Multiple, 4, 6), &current),
        Err(BubblegumError::CannotChangeUsesAfterFirstUse)
    );
    assert_eq!(
        assert_valid_use(&uses(UseMethod::Multiple, 3, 5), &current),
        Err(BubblegumError::CannotChangeUsesAfterFirstUse)
    );
    assert_eq!(assert_valid_use(&uses(UseMethod::Multiple, 4, 5), &current), Ok(()));
    // Taking the use record away is no change to it.
    assert_eq!(assert_valid_use(&None, &current), Ok(()));
}

#[test]
fn incoherent_use_is_refused_before_it_is_compared() {
    let current = uses(UseMethod::Multiple, 4, 5);
    assert_eq!(
        assert_valid_use(&uses(UseMethod::Single, 4, 5), &current),
        Err(BubblegumError::InvalidUseMethod)
    );
}

// ---- a first record ----

#[test]
fn first_record_takes_no_verified_creator_but_the_minter() {
    let mut new = metadata();
    assert_eq!(assert_first_record_valid(&new, &key(9)), Ok(()));
    new.creators[1].verified = true;
    assert_eq!(
        assert_first_record_valid(&new, &key(9)),
        Err(BubblegumError::CannotVerifyAnotherCreator)
    );
    assert_eq!(assert_first_record_valid(&new, &key(2)), Ok(()));
}

#[test]
fn first_record_takes_no_verified_collection() {
    let mut new = metadata();
    new.collection = collection(7, false);
    assert_eq!(assert_first_record_valid(&new, &key(9)), Ok(()));
    new.collection = collection(7, true);
    assert_eq!(
        assert_first_record_valid(&new, &key(9)),
        Err(BubblegumError::CollectionCannotBeVerifiedInThisInstruction)
    );
}

#[test]
fn first_record_may_be_immutable_and_sold() {
    let mut new = metadata();
    new.is_mutable = false;
    new.primary_sale_happened = true;
    assert_eq!(assert_first_record_valid(&new, &key(9)), Ok(()));
}

#[test]
fn first_record_needs_coherent_uses() {
    let mut new = metadata();
    new.uses = uses(UseMethod::Single, 1, 1);
    assert_eq!(assert_first_record_valid(&new, &key(9)), Ok(()));
    new.uses = uses(UseMethod::Single, 2, 2);
    assert_eq!(
        assert_first_record_valid(&new, &key(9)),
        Err(BubblegumError::InvalidUseMethod)
    );
}

// ---- classes of failure ----

#[test]
fn failures_fall_into_their_classes() {
    assert_eq!(BubblegumError::CreatorShareTotalMustBe100.kind(), ErrorKind::Validation);
    assert_eq!(BubblegumError::MetadataNameTooLong.kind(), ErrorKind::Validation);
    assert_eq!(BubblegumError::InvalidUseMethod.kind(), ErrorKind::Validation);
    assert_eq!(BubblegumError::UnsupportedSchemaVersion.kind(), ErrorKind::Validation);
    assert_eq!(BubblegumError::AssetOwnerMismatch.kind(), ErrorKind::Authorization);
    assert_eq!(BubblegumError::PublicKeyMismatch.kind(), ErrorKind::Authorization);
    assert_eq!(BubblegumError::CannotVerifyAnotherCreator.kind(), ErrorKind::Authorization);
    assert_eq!(BubblegumError::MintRequestKeyMismatch.kind(), ErrorKind::Authorization);
    assert_eq!(BubblegumError::InsufficientMintCapacity.kind(), ErrorKind::QuotaExceeded);
    assert_eq!(BubblegumError::MintRequestNotApproved.kind(), ErrorKind::QuotaExceeded);
    assert_eq!(BubblegumError::HashingMismatch.kind(), ErrorKind::ProofMismatch);
    assert_eq!(BubblegumError::LeafProofRejected.kind(), ErrorKind::ProofMismatch);
    assert_eq!(BubblegumError::LeafStateMismatch.kind(), ErrorKind::State);
    assert_eq!(BubblegumError::DataIsImmutable.kind(), ErrorKind::State);
    assert_eq!(BubblegumError::MintRequestDiscriminatorMismatch.kind(), ErrorKind::State);
    assert_eq!(BubblegumError::CloseMintRequestError.kind(), ErrorKind::State);
}

#[test]
fn failures_say_what_they_are() {
    assert_eq!(BubblegumError::AssetOwnerMismatch.message(), "Asset Owner Does not match");
    assert_eq!(
        BubblegumError::CreatorShareTotalMustBe100.message(),
        "Creator shares must sum to 100"
    );
    assert_eq!(
        BubblegumError::DuplicateCreatorAddress.message(),
        "No duplicate creator addresses in metadata"
    );
    assert_eq!(
        BubblegumError::MetadataBasisPointsTooHigh.message(),
        "Basis points in metadata cannot exceed 10000"
    );
    assert_eq!(
        BubblegumError::InsufficientMintCapacity.message(),
        "Not enough unapproved mints left"
    );
    assert_eq!(
        BubblegumError::CloseMintRequestError.message(),
        "Something went wrong closing mint request"
    );
}
