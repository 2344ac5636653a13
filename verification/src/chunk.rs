//! The chunk-side data model: the chunk handles supplied by the chunking
//! collaborator, grouped per entry point, and the `(relative path, chunk id)`
//! pairs recorded for fingerprinting a generated document.

use vstd::prelude::*;

verus! {

/// An abstract view of a [`ChunkPathEntry`].
#[verifier::ext_equal]
pub ghost struct ChunkPathEntryView {
    pub relative_path: Seq<char>,
    pub chunk_id: Seq<char>,
}

/// One chunk referenced by a generated HTML document: the relative path
/// used in the emitted tag, and an opaque identifier used for
/// fingerprinting and for the stylesheet tag's diagnostic attribute.
/// The order of a `ChunkPathEntry` sequence is significant: it determines
/// both render order and the version fingerprint.
pub struct ChunkPathEntry {
    pub relative_path: String,
    pub chunk_id: String,
}

impl View for ChunkPathEntry {
    type V = ChunkPathEntryView;

    open spec fn view(&self) -> ChunkPathEntryView {
        ChunkPathEntryView { relative_path: self.relative_path@, chunk_id: self.chunk_id@ }
    }
}

impl DeepView for ChunkPathEntry {
    type V = ChunkPathEntryView;

    open spec fn deep_view(&self) -> ChunkPathEntryView {
        self@
    }
}

impl Clone for ChunkPathEntry {
    fn clone(&self) -> (r: Self)
        ensures
            r@ == self@,
    {
        ChunkPathEntry {
            relative_path: self.relative_path.clone(),
            chunk_id: self.chunk_id.clone(),
        }
    }
}

/// An abstract view of a [`DevHtmlChunk`].
#[verifier::ext_equal]
pub ghost struct DevHtmlChunkView {
    pub id: Seq<char>,
    pub relative_path: Option<Seq<char>>,
}

/// A chunk handle as the chunking collaborator exposes it: a stable opaque
/// identifier, and the chunk's path relative to the generated document's
/// directory — `None` when the chunk's path cannot be expressed relative
/// to that directory.
pub struct DevHtmlChunk {
    pub id: String,
    pub relative_path: Option<String>,
}

impl View for DevHtmlChunk {
    type V = DevHtmlChunkView;

    open spec fn view(&self) -> DevHtmlChunkView {
        DevHtmlChunkView {
            id: self.id@,
            relative_path: match self.relative_path {
                Some(p) => Some(p@),
                None => None,
            },
        }
    }
}

impl DeepView for DevHtmlChunk {
    type V = DevHtmlChunkView;

    open spec fn deep_view(&self) -> DevHtmlChunkView {
        self@
    }
}

/// An ordered collection of chunks that load together for one entry point.
pub struct ChunkGroup {
    pub chunks: Vec<DevHtmlChunk>,
}

impl View for ChunkGroup {
    type V = Seq<DevHtmlChunkView>;

    open spec fn view(&self) -> Seq<DevHtmlChunkView> {
        self.chunks.deep_view()
    }
}

impl DeepView for ChunkGroup {
    type V = Seq<DevHtmlChunkView>;

    open spec fn deep_view(&self) -> Seq<DevHtmlChunkView> {
        self@
    }
}

} // verus!
