//! The feed data the interface displays, held as plain values.
//!
//! The feed-fetching client owns the real entry model; the interface reads
//! only a handful of textual fields from it. This module holds those fields
//! directly, so the display logic can be verified over them.

use vstd::prelude::*;

verus! {

/// A single article within a feed, reduced to the fields the preview reads.
/// Timestamps are already rendered to text by whoever filled the entry in.
#[derive(Clone, Debug)]
pub struct Entry {
    pub title: Option<String>,
    pub summary: Option<String>,
    pub updated: Option<String>,
    pub links: Vec<String>,
    pub authors: Vec<String>,
}

/// The parsed content of a feed: its own header fields and its entries.
#[derive(Clone, Debug)]
pub struct FeedModel {
    pub title: Option<String>,
    pub updated: Option<String>,
    pub description: Option<String>,
    pub entries: Vec<Entry>,
}

/// A tracked feed: where it lives, and its content once it has been synced.
#[derive(Clone, Debug)]
pub struct Feed {
    pub url: String,
    pub model: Option<FeedModel>,
}

} // verus!
