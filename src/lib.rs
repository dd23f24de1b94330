//! A record store for short posts and profile links.
//!
//! Records live at addresses derived from seed bytes and a program id; each
//! one may be changed only by the identity recorded as its owner.
pub mod key;
pub mod layout;
pub mod slots;
pub mod post;
pub mod profile;

use vstd::prelude::*;

verus! {

/// The reasons for which an operation is rejected.
#[derive(Clone, Copy, Debug, PartialEq, Eq, Structural)]
pub enum ErrorCode {
    /// The topic holds more than fifty characters.
    TopicTooLong,
    /// The content holds more than two hundred and eighty characters.
    ContentTooLong,
    /// The caller is not the owner recorded in the record.
    Forbidden,
    /// No record stands at the given address.
    NotFound,
    /// A record already stands at the derived address.
    AlreadyExists,
    /// No address can be derived from the given seeds.
    InvalidSeeds,
    /// The asset to link is the default (all-zero) key.
    AssetUnchanged,
    /// The asset proof belongs to another identity than the caller.
    AssetNotOwned,
}

} // verus!
