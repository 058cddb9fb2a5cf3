use bubblegum::hashing::hash_creators;
use bubblegum::hashing::hash_metadata;
use bubblegum::leaf::leaf_hash;
use bubblegum::lifecycle::AssetOrder;
use bubblegum::lifecycle::TreeInstruction;
use bubblegum::lifecycle::Voucher;
use bubblegum::state::step;
use bubblegum::state::Effect;
use bubblegum::state::LeafOperation;
use bubblegum::state::LeafState;
use bubblegum::state::Transition;
use bubblegum::BubblegumError;
use bubblegum::Creator;
use bubblegum::ErrorKind;
use bubblegum::LeafSchema;
use bubblegum::MetadataArgs;
use bubblegum::Pubkey;
use bubblegum::TokenProgramVersion;
use bubblegum::Version;

fn key(byte: u8) -> Pubkey {
    Pubkey::new_from_array([byte; 32])
}

const OWNER: u8 = 20;
const DELEGATE: u8 = 21;
const STRANGER: u8 = 22;
const ASSET: u8 = 30;
const ROOT: [u8; 32] = [77; 32];
const INDEX: u32 = 11;

fn metadata() -> MetadataArgs {
    MetadataArgs {
        name: "test".to_owned(),
        symbol: "tst".to_owned(),
        uri: "www.solana.pos".to_owned(),
        seller_fee_basis_points: 0,
        primary_sale_happened: false,
        is_mutable: false,
        edition_nonce: None,
        token_standard: None,
        collection: None,
        uses: None,
        token_program_version: TokenProgramVersion::Original,
        creators: vec![Creator { address: key(1), verified: false, share: 100 }],
    }
}

fn leaf() -> LeafSchema {
    let record = metadata();
    LeafSchema {
        version: Version::V1,
        id: key(ASSET),
        owner: key(OWNER),
        delegate: key(DELEGATE),
        nonce: 5,
        data_hash: hash_metadata(&record),
        creator_hash: hash_creators(&record.creators),
    }
}

fn active() -> LeafState {
    LeafState::Active { leaf: leaf(), index: INDEX }
}

fn redeemed() -> LeafState {
    LeafState::Redeemed { voucher: Voucher { leaf_schema: leaf(), index: INDEX, root: ROOT } }
}

fn every_operation() -> Vec<LeafOperation> {
    vec![
        LeafOperation::Transfer { new_owner: key(STRANGER) },
        LeafOperation::Delegate { new_delegate: key(STRANGER) },
        LeafOperation::SetCreatorVerified { metadata: metadata(), creator: key(1), verified: true },
        LeafOperation::Burn,
        LeafOperation::Redeem { root: ROOT },
        LeafOperation::CancelRedeem,
        LeafOperation::Decompress { metadata: metadata() },
    ]
}

#[test]
fn active_leaf_is_transferred_and_stays_active() {
    let moved = LeafSchema { owner: key(STRANGER), delegate: key(STRANGER), ..leaf() };
    assert_eq!(
        step(&active(), &key(OWNER), &LeafOperation::Transfer { new_owner: key(STRANGER) }),
        Ok(Transition {
            next: LeafState::Active { leaf: moved, index: INDEX },
            effect: Effect::Tree(TreeInstruction::Replace {
                index: INDEX,
                previous_leaf: leaf_hash(&leaf()),
                new_leaf: leaf_hash(&moved),
            }),
        })
    );
}

#[test]
fn active_leaf_is_delegated_and_stays_active() {
    let lent = LeafSchema { delegate: key(STRANGER), ..leaf() };
    assert_eq!(
        step(&active(), &key(OWNER), &LeafOperation::Delegate { new_delegate: key(STRANGER) }),
        Ok(Transition {
            next: LeafState::Active { leaf: lent, index: INDEX },
            effect: Effect::Tree(TreeInstruction::Replace {
                index: INDEX,
                previous_leaf: leaf_hash(&leaf()),
                new_leaf: leaf_hash(&lent),
            }),
        })
    );
}

#[test]
fn vouched_leaf_stays_active_with_new_digests() {
    let operation =
        LeafOperation::SetCreatorVerified { metadata: metadata(), creator: key(1), verified: true };
    let mut vouched = metadata();
    vouched.creators[0].verified = true;
    let described = LeafSchema {
        data_hash: hash_metadata(&vouched),
        creator_hash: hash_creators(&vouched.creators),
        ..leaf()
    };
    assert_eq!(
        step(&active(), &key(1), &operation),
        Ok(Transition {
            next: LeafState::Active { leaf: described, index: INDEX },
            effect: Effect::Tree(TreeInstruction::Replace {
                index: INDEX,
                previous_leaf: leaf_hash(&leaf()),
                new_leaf: leaf_hash(&described),
            }),
        })
    );
    // Neither the owner nor anyone else vouches in the creator's name.
    assert_eq!(
        step(&active(), &key(OWNER), &operation),
        Err(BubblegumError::CannotVerifyAnotherCreator)
    );
}

#[test]
fn burned_leaf_leaves_its_position_unminted() {
    assert_eq!(
        step(&active(), &key(DELEGATE), &LeafOperation::Burn),
        Ok(Transition {
            next: LeafState::Unminted,
            effect: Effect::Tree(TreeInstruction::Remove {
                index: INDEX,
                previous_leaf: leaf_hash(&leaf()),
            }),
        })
    );
}

#[test]
fn redeemed_leaf_waits_in_its_voucher() {
    assert_eq!(
        step(&active(), &key(OWNER), &LeafOperation::Redeem { root: ROOT }),
        Ok(Transition {
            next: redeemed(),
            effect: Effect::Tree(TreeInstruction::Remove {
                index: INDEX,
                previous_leaf: leaf_hash(&leaf()),
            }),
        })
    );
}

#[test]
fn cancelled_redemption_is_active_again() {
    assert_eq!(
        step(&redeemed(), &key(OWNER), &LeafOperation::CancelRedeem),
        Ok(Transition {
            next: active(),
            effect: Effect::Tree(TreeInstruction::Replace {
                index: INDEX,
                previous_leaf: [0; 32],
                new_leaf: leaf_hash(&leaf()),
            }),
        })
    );
}

#[test]
fn decompressed_asset_is_issued_once() {
    let operation = LeafOperation::Decompress { metadata: metadata() };
    let issued = step(&redeemed(), &key(OWNER), &operation).unwrap();
    assert_eq!(
        issued,
        Transition {
            next: LeafState::Decompressed,
            effect: Effect::Issue(AssetOrder {
                asset: key(ASSET),
                recipient: key(OWNER),
                amount: 1,
                decimals: 0,
            }),
        }
    );
    // A second time there is nothing left to decompress.
    let again = step(&issued.next, &key(OWNER), &operation).unwrap_err();
    assert_eq!(again, BubblegumError::LeafStateMismatch);
    assert_eq!(again.kind(), ErrorKind::State);
}

#[test]
fn no_step_leads_out_of_unminted_or_decompressed() {
    for state in [LeafState::Unminted, LeafState::Decompressed] {
        for operation in every_operation() {
            for signer in [OWNER, DELEGATE, STRANGER] {
                assert_eq!(
                    step(&state, &key(signer), &operation),
                    Err(BubblegumError::LeafStateMismatch)
                );
            }
        }
    }
}

#[test]
fn active_leaf_is_neither_cancelled_nor_decompressed() {
    assert_eq!(
        step(&active(), &key(OWNER), &LeafOperation::CancelRedeem),
        Err(BubblegumError::LeafStateMismatch)
    );
    assert_eq!(
        step(&active(), &key(OWNER), &LeafOperation::Decompress { metadata: metadata() }),
        Err(BubblegumError::LeafStateMismatch)
    );
}

#[test]
fn redeemed_leaf_is_neither_transferred_nor_burned() {
    for operation in every_operation().into_iter().take(5) {
        assert_eq!(
            step(&redeemed(), &key(OWNER), &operation),
            Err(BubblegumError::LeafStateMismatch)
        );
    }
}

#[test]
fn stranger_takes_no_step() {
    for operation in every_operation().into_iter().take(5) {
        let refusal = match operation {
            LeafOperation::SetCreatorVerified { .. } => BubblegumError::CannotVerifyAnotherCreator,
            _ => BubblegumError::AssetOwnerMismatch,
        };
        assert_eq!(step(&active(), &key(STRANGER), &operation), Err(refusal));
    }
    for operation in every_operation().into_iter().skip(5) {
        assert_eq!(
            step(&redeemed(), &key(STRANGER), &operation),
            Err(BubblegumError::AssetOwnerMismatch)
        );
    }
}

#[test]
fn steps_keep_handle_nonce_and_position() {
    // Walk every path of four steps from an active leaf, as the owner of the
    // moment, and look at every state on the way.
    let mut frontier = vec![active()];
    for _ in 0..4 {
        let mut reached = vec![];
        for state in &frontier {
            let signer = match state {
                LeafState::Active { leaf, .. } => leaf.owner,
                LeafState::Redeemed { voucher } => voucher.leaf_schema.owner,
                _ => key(OWNER),
            };
            for operation in every_operation() {
                if let Ok(transition) = step(state, &signer, &operation) {
                    match transition.next {
                        LeafState::Active { leaf, index } => {
                            assert_eq!((leaf.id, leaf.nonce, index), (key(ASSET), 5, INDEX));
                        },
                        LeafState::Redeemed { voucher } => {
                            assert_eq!(voucher.leaf_schema.id, key(ASSET));
                            assert_eq!(voucher.leaf_schema.nonce, 5);
                            assert_eq!(voucher.index, INDEX);
                        },
                        _ => {},
                    }
                    reached.push(transition.next);
                }
            }
        }
        assert!(!reached.is_empty());
        frontier = reached;
    }
}
