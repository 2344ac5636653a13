//! Output generation for a bundler dev server: content-addressed static
//! asset paths, a generated HTML entry document, and a versioned-output
//! protocol that detects whether a previously served document is stale.

use vstd::prelude::*;

pub mod chunk;
pub mod hash;
pub mod html;
pub mod module_asset;
pub mod paths;
pub mod reference;
pub mod static_asset;
pub mod version;

verus! {

/// The failures this library reports. All are typed results for the
/// caller; none aborts a surrounding process, and retrying with identical
/// inputs yields the identical outcome.
#[derive(Debug)]
pub enum OutputError {
    /// The HTML runtime script cannot be expressed relative to the
    /// generated document, so the whole generation pass fails.
    UnresolvableRelativePath,
    /// A chunk's relative path ends in neither `.js` nor `.css`; the path
    /// is carried for diagnostics.
    UnknownAssetType(String),
    /// A static asset's source content is not materialized bytes.
    UnsupportedContent,
}

} // verus!
