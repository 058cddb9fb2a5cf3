//! The failures that an operation on a compressed asset can report.

use vstd::prelude::*;

verus! {

/// Every way in which an operation can be refused.
///
/// No operation reports a failure after it has changed anything: a value of
/// this type always means that the inputs were left as they were.
#[derive(Clone, Copy, Debug, PartialEq, Eq, Structural, Hash)]
pub enum BubblegumError {
    /// The signer is neither the owner nor the delegate of the asset.
    AssetOwnerMismatch,
    /// The signer is not the principal that the tree names for this operation.
    PublicKeyMismatch,
    /// The supplied contents do not hash to what the leaf commits to.
    HashingMismatch,
    /// The leaf schema version byte is not one this library knows.
    UnsupportedSchemaVersion,
    /// The creator shares do not add up to one hundred.
    CreatorShareTotalMustBe100,
    /// Two creators carry the same address.
    DuplicateCreatorAddress,
    /// There are more creators than a record may hold.
    CreatorsTooLong,
    /// The name is longer than a record may hold.
    MetadataNameTooLong,
    /// The symbol is longer than a record may hold.
    MetadataSymbolTooLong,
    /// The uri is longer than a record may hold.
    MetadataUriTooLong,
    /// The seller fee exceeds ten thousand basis points.
    MetadataBasisPointsTooHigh,
    /// The request or the tree has no mint capacity left.
    InsufficientMintCapacity,
    /// The mint request has never been approved.
    MintRequestNotApproved,
    /// The mint request belongs to another tree or another authority.
    MintRequestKeyMismatch,
    /// The stored mint request does not carry the expected tag.
    MintRequestDiscriminatorMismatch,
    /// The mint request could not be closed.
    CloseMintRequestError,
    /// The previous record forbids any further change.
    DataIsImmutable,
    /// The creator list is empty.
    NoCreatorsPresent,
    /// Adding up the creator shares left the range of a byte.
    NumericalOverflowError,
    /// A creator was marked verified by someone other than itself.
    CannotVerifyAnotherCreator,
    /// A verified creator was cleared or dropped by someone other than itself.
    CannotUnverifyAnotherCreator,
    /// A verified collection was removed or replaced.
    CannotUpdateVerifiedCollection,
    /// A collection was newly marked verified.
    CollectionCannotBeVerifiedInThisInstruction,
    /// The use method does not agree with its counters.
    InvalidUseMethod,
    /// The use method was changed after the asset had been used.
    CannotChangeUseMethodAfterFirstUse,
    /// The use counters were changed after the asset had been used.
    CannotChangeUsesAfterFirstUse,
    /// The primary sale flag was cleared.
    PrimarySaleCanOnlyBeFlippedToTrue,
    /// The mutability flag was set again after it had been cleared.
    IsMutableCanOnlyBeFlippedToFalse,
    /// The named creator is not in the creator list.
    CreatorNotFound,
    /// The commitment tree refused the proof for the claimed leaf.
    LeafProofRejected,
    /// The leaf or voucher is not in the state that the operation needs.
    LeafStateMismatch,
}

/// The classes of failure, by what the caller has to do about them.
#[derive(Clone, Copy, Debug, PartialEq, Eq, Structural, Hash)]
pub enum ErrorKind {
    /// Malformed metadata; resubmit corrected input.
    Validation,
    /// Wrong signer; resubmit with the right principal.
    Authorization,
    /// Capacity exhausted; obtain further approval.
    QuotaExceeded,
    /// Contents or root are stale; refetch and retry.
    ProofMismatch,
    /// Wrong lifecycle state; a retry with the same input cannot succeed.
    State,
}

impl BubblegumError {
    /// The class of the failure.
    pub open spec fn spec_kind(self) -> ErrorKind {
        match self {
            BubblegumError::AssetOwnerMismatch
            | BubblegumError::PublicKeyMismatch
            | BubblegumError::MintRequestKeyMismatch
            | BubblegumError::CannotVerifyAnotherCreator
            | BubblegumError::CannotUnverifyAnotherCreator
            | BubblegumError::CannotUpdateVerifiedCollection
            | BubblegumError::CollectionCannotBeVerifiedInThisInstruction => ErrorKind::Authorization,
            BubblegumError::InsufficientMintCapacity
            | BubblegumError::MintRequestNotApproved => ErrorKind::QuotaExceeded,
            BubblegumError::HashingMismatch
            | BubblegumError::LeafProofRejected => ErrorKind::ProofMismatch,
            BubblegumError::MintRequestDiscriminatorMismatch
            | BubblegumError::CloseMintRequestError
            | BubblegumError::DataIsImmutable
            | BubblegumError::LeafStateMismatch => ErrorKind::State,
            BubblegumError::UnsupportedSchemaVersion
            | BubblegumError::CreatorShareTotalMustBe100
            | BubblegumError::DuplicateCreatorAddress
            | BubblegumError::CreatorsTooLong
            | BubblegumError::MetadataNameTooLong
            | BubblegumError::MetadataSymbolTooLong
            | BubblegumError::MetadataUriTooLong
            | BubblegumError::MetadataBasisPointsTooHigh
            | BubblegumError::NoCreatorsPresent
            | BubblegumError::NumericalOverflowError
            | BubblegumError::InvalidUseMethod
            | BubblegumError::CannotChangeUseMethodAfterFirstUse
            | BubblegumError::CannotChangeUsesAfterFirstUse
            | BubblegumError::PrimarySaleCanOnlyBeFlippedToTrue
            | BubblegumError::IsMutableCanOnlyBeFlippedToFalse
            | BubblegumError::CreatorNotFound => ErrorKind::Validation,
        }
    }

    /// The class of the failure.
    pub fn kind(&self) -> (kind: ErrorKind)
        ensures
            kind == self.spec_kind(),
    {
        match self {
            BubblegumError::AssetOwnerMismatch
            | BubblegumError::PublicKeyMismatch
            | BubblegumError::MintRequestKeyMismatch
            | BubblegumError::CannotVerifyAnotherCreator
            | BubblegumError::CannotUnverifyAnotherCreator
            | BubblegumError::CannotUpdateVerifiedCollection
            | BubblegumError::CollectionCannotBeVerifiedInThisInstruction => ErrorKind::Authorization,
            BubblegumError::InsufficientMintCapacity
            | BubblegumError::MintRequestNotApproved => ErrorKind::QuotaExceeded,
            BubblegumError::HashingMismatch
            | BubblegumError::LeafProofRejected => ErrorKind::ProofMismatch,
            BubblegumError::MintRequestDiscriminatorMismatch
            | BubblegumError::CloseMintRequestError
            | BubblegumError::DataIsImmutable
            | BubblegumError::LeafStateMismatch => ErrorKind::State,
            BubblegumError::UnsupportedSchemaVersion
            | BubblegumError::CreatorShareTotalMustBe100
            | BubblegumError::DuplicateCreatorAddress
            | BubblegumError::CreatorsTooLong
            | BubblegumError::MetadataNameTooLong
            | BubblegumError::MetadataSymbolTooLong
            | BubblegumError::MetadataUriTooLong
            | BubblegumError::MetadataBasisPointsTooHigh
            | BubblegumError::NoCreatorsPresent
            | BubblegumError::NumericalOverflowError
            | BubblegumError::InvalidUseMethod
            | BubblegumError::CannotChangeUseMethodAfterFirstUse
            | BubblegumError::CannotChangeUsesAfterFirstUse
            | BubblegumError::PrimarySaleCanOnlyBeFlippedToTrue
            | BubblegumError::IsMutableCanOnlyBeFlippedToFalse
            | BubblegumError::CreatorNotFound => ErrorKind::Validation,
        }
    }

    /// What the failure says of itself.
    pub open spec fn spec_message(self) -> Seq<char> {
        match self {
            BubblegumError::AssetOwnerMismatch => "Asset Owner Does not match"@,
            BubblegumError::PublicKeyMismatch => "PublicKeyMismatch"@,
            BubblegumError::HashingMismatch => "Hashing Mismatch Within Leaf Schema"@,
            BubblegumError::UnsupportedSchemaVersion => "Unsupported Schema Version"@,
            BubblegumError::CreatorShareTotalMustBe100 => "Creator shares must sum to 100"@,
            BubblegumError::DuplicateCreatorAddress => "No duplicate creator addresses in metadata"@,
            BubblegumError::CreatorsTooLong => "Creators list too long"@,
            BubblegumError::MetadataNameTooLong => "Name in metadata is too long"@,
            BubblegumError::MetadataSymbolTooLong => "Symbol in metadata is too long"@,
            BubblegumError::MetadataUriTooLong => "Uri in metadata is too long"@,
            BubblegumError::MetadataBasisPointsTooHigh => "Basis points in metadata cannot exceed 10000"@,
            BubblegumError::InsufficientMintCapacity => "Not enough unapproved mints left"@,
            BubblegumError::MintRequestNotApproved => "Mint request not approved"@,
            BubblegumError::MintRequestKeyMismatch => "Mint authority key does not match request"@,
            BubblegumError::MintRequestDiscriminatorMismatch => "Mint request data has incorrect disciminator"@,
            BubblegumError::CloseMintRequestError => "Something went wrong closing mint request"@,
            BubblegumError::DataIsImmutable => "Metadata is immutable"@,
            BubblegumError::NoCreatorsPresent => "Metadata must name at least one creator"@,
            BubblegumError::NumericalOverflowError => "Creator shares overflowed"@,
            BubblegumError::CannotVerifyAnotherCreator => "A creator can only be verified by itself"@,
            BubblegumError::CannotUnverifyAnotherCreator => "A creator can only be unverified by itself"@,
            BubblegumError::CannotUpdateVerifiedCollection => "A verified collection cannot be removed or replaced"@,
            BubblegumError::CollectionCannotBeVerifiedInThisInstruction => "Collection cannot be verified in this instruction"@,
            BubblegumError::InvalidUseMethod => "Use method does not agree with its counters"@,
            BubblegumError::CannotChangeUseMethodAfterFirstUse => "Use method cannot change after the first use"@,
            BubblegumError::CannotChangeUsesAfterFirstUse => "Uses cannot change after the first use"@,
            BubblegumError::PrimarySaleCanOnlyBeFlippedToTrue => "Primary sale can only be flipped to true"@,
            BubblegumError::IsMutableCanOnlyBeFlippedToFalse => "Is mutable can only be flipped to false"@,
            BubblegumError::CreatorNotFound => "Creator is not in the creator list"@,
            BubblegumError::LeafProofRejected => "The tree refused the proof for the leaf"@,
            BubblegumError::LeafStateMismatch => "The leaf is not in the state that the operation needs"@,
        }
    }

    /// What the failure says of itself.
    pub fn message(&self) -> (text: &'static str)
        ensures
            text@ == self.spec_message(),
    {
        match self {
            BubblegumError::AssetOwnerMismatch => "Asset Owner Does not match",
            BubblegumError::PublicKeyMismatch => "PublicKeyMismatch",
            BubblegumError::HashingMismatch => "Hashing Mismatch Within Leaf Schema",
            BubblegumError::UnsupportedSchemaVersion => "Unsupported Schema Version",
            BubblegumError::CreatorShareTotalMustBe100 => "Creator shares must sum to 100",
            BubblegumError::DuplicateCreatorAddress => "No duplicate creator addresses in metadata",
            BubblegumError::CreatorsTooLong => "Creators list too long",
            BubblegumError::MetadataNameTooLong => "Name in metadata is too long",
            BubblegumError::MetadataSymbolTooLong => "Symbol in metadata is too long",
            BubblegumError::MetadataUriTooLong => "Uri in metadata is too long",
            BubblegumError::MetadataBasisPointsTooHigh => "Basis points in metadata cannot exceed 10000",
            BubblegumError::InsufficientMintCapacity => "Not enough unapproved mints left",
            BubblegumError::MintRequestNotApproved => "Mint request not approved",
            BubblegumError::MintRequestKeyMismatch => "Mint authority key does not match request",
            BubblegumError::MintRequestDiscriminatorMismatch => "Mint request data has incorrect disciminator",
            BubblegumError::CloseMintRequestError => "Something went wrong closing mint request",
            BubblegumError::DataIsImmutable => "Metadata is immutable",
            BubblegumError::NoCreatorsPresent => "Metadata must name at least one creator",
            BubblegumError::NumericalOverflowError => "Creator shares overflowed",
            BubblegumError::CannotVerifyAnotherCreator => "A creator can only be verified by itself",
            BubblegumError::CannotUnverifyAnotherCreator => "A creator can only be unverified by itself",
            BubblegumError::CannotUpdateVerifiedCollection => "A verified collection cannot be removed or replaced",
            BubblegumError::CollectionCannotBeVerifiedInThisInstruction => "Collection cannot be verified in this instruction",
            BubblegumError::InvalidUseMethod => "Use method does not agree with its counters",
            BubblegumError::CannotChangeUseMethodAfterFirstUse => "Use method cannot change after the first use",
            BubblegumError::CannotChangeUsesAfterFirstUse => "Uses cannot change after the first use",
            BubblegumError::PrimarySaleCanOnlyBeFlippedToTrue => "Primary sale can only be flipped to true",
            BubblegumError::IsMutableCanOnlyBeFlippedToFalse => "Is mutable can only be flipped to false",
            BubblegumError::CreatorNotFound => "Creator is not in the creator list",
            BubblegumError::LeafProofRejected => "The tree refused the proof for the leaf",
            BubblegumError::LeafStateMismatch => "The leaf is not in the state that the operation needs",
        }
    }
}

} // verus!
