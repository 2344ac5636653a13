//! The reference objects handed to the surrounding asset graph: each names
//! a target asset path and carries a human-readable description.

use vstd::prelude::*;

verus! {

/// An abstract view of an [`AssetReference`].
pub ghost struct AssetReferenceView {
    pub path: Seq<char>,
    pub description: Seq<char>,
}

/// A reference to another asset, as consumed by the asset graph's
/// reference walking.
pub struct AssetReference {
    /// The path of the referenced asset.
    pub path: String,
    /// A human-readable label for the reference.
    pub description: String,
}

impl View for AssetReference {
    type V = AssetReferenceView;

    open spec fn view(&self) -> AssetReferenceView {
        AssetReferenceView { path: self.path@, description: self.description@ }
    }
}

impl DeepView for AssetReference {
    type V = AssetReferenceView;

    open spec fn deep_view(&self) -> AssetReferenceView {
        self@
    }
}

} // verus!
