//! Descriptive data attached to an order for off-chain search and filtering.
//! It is opaque to the core: no transition logic depends on it, and updating
//! it never changes the order's state.

use vstd::prelude::*;

verus! {

/// Free-form descriptive fields of an order. Intended sizes (title up to 50
/// characters, description up to 200, at most 5 tags of up to 20 characters,
/// category up to 30) are a storage-layout concern of the surrounding
/// program; the core carries the fields unexamined.
#[derive(Clone, Debug)]
pub struct OrderMetadata {
    /// Short display title.
    pub title: String,
    /// Longer free-form description.
    pub description: String,
    /// Search tags.
    pub tags: Vec<String>,
    /// Search category.
    pub category: String,
}

} // verus!
