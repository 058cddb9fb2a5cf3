//! Ownership and metadata rules for compressed digital assets.
//!
//! An asset is never stored on its own: only the hash of its leaf record is
//! committed, together with all the others, in one fixed-depth hash tree. This
//! library defines the leaf record and its hash, decides which changes to an
//! asset's metadata are legal, keeps the mint quota of each authority, and
//! computes every step of a leaf's life from mint to burn or decompression.
//! The tree itself is somebody else's: each operation here yields the hashes
//! that the tree engine is to verify and swap.

pub mod canonical;
pub mod error;
pub mod hashing;
pub mod leaf;
pub mod lifecycle;
pub mod metadata;
pub mod pubkey;
pub mod request;
pub mod state;
pub mod tree;
pub mod update_metadata;

pub use crate::error::BubblegumError;
pub use crate::error::ErrorKind;
pub use crate::leaf::LeafSchema;
pub use crate::leaf::Version;
pub use crate::metadata::Collection;
pub use crate::metadata::Creator;
pub use crate::metadata::MetadataArgs;
pub use crate::metadata::TokenProgramVersion;
pub use crate::metadata::TokenStandard;
pub use crate::metadata::UseMethod;
pub use crate::metadata::Uses;
pub use crate::pubkey::Pubkey;
pub use crate::request::MintRequest;
pub use crate::tree::TreeConfig;
