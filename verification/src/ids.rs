//! Identifiers for feeds, folders and on-screen windows.

use vstd::prelude::*;

verus! {

/// A user-defined grouping of feeds.
#[derive(Clone, Copy, PartialEq, Eq, Structural, Debug)]
pub struct FolderId(pub u128);

/// A syndicated content source tracked by the reader.
#[derive(Clone, Copy, PartialEq, Eq, Structural, Debug)]
pub struct FeedId(pub u128);

/// Relies on uuid::Uuid::new_v4: a freshly generated random identifier.
/// The result is random, so nothing is promised of it.
#[verifier::external_body]
pub(crate) fn fresh_id() -> u128 {
    uuid::Uuid::new_v4().as_u128()
}

} // verus!
