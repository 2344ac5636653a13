//! Content-addressed static assets: a source file's bytes resolve to an
//! output path of the form `{md4 of content, base16}.{ext}`, so that the
//! path changes exactly when the content does.

use vstd::prelude::*;

use crate::OutputError;
use crate::hash::{encode_base16, hash_md4, md4_of, spec_hex_bytes};
use crate::paths::{extension, spec_extension};
use crate::reference::AssetReference;

verus! {

/// Source file content: either materialized bytes, or unavailable (a
/// missing file or a directory), which no static asset can be built from.
pub enum FileContent {
    Content(Vec<u8>),
    NotFound,
}

impl View for FileContent {
    type V = Option<Seq<u8>>;

    open spec fn view(&self) -> Option<Seq<u8>> {
        match self {
            FileContent::Content(bytes) => Some(bytes@),
            FileContent::NotFound => None,
        }
    }
}

/// An abstract view of a [`SourceAsset`].
pub ghost struct SourceAssetView {
    pub path: Seq<char>,
    pub content: Option<Seq<u8>>,
}

/// A source file as supplied by the surrounding asset graph: its path and
/// its byte content.
pub struct SourceAsset {
    pub path: String,
    pub content: FileContent,
}

impl View for SourceAsset {
    type V = SourceAssetView;

    open spec fn view(&self) -> SourceAssetView {
        SourceAssetView { path: self.path@, content: self.content@ }
    }
}

/// The output path for a static asset with byte content `content` and file
/// extension `ext`: the base-16 MD4 digest of the bytes, with the extension
/// appended when there is one. The hash covers only the bytes, never the
/// path.
pub open spec fn spec_output_path(content: Seq<u8>, ext: Option<Seq<char>>) -> Seq<char> {
    match ext {
        Some(e) => spec_hex_bytes(md4_of(content)) + seq!['.'] + e,
        None => spec_hex_bytes(md4_of(content)),
    }
}

/// The output path for a static asset whose source sits at `path` with byte
/// content `content`.
pub open spec fn spec_asset_output_path(path: Seq<char>, content: Seq<u8>) -> Seq<char> {
    spec_output_path(content, spec_extension(path))
}

/// A static asset: a source file that is copied verbatim to a
/// content-addressed output path.
pub struct StaticAsset {
    pub source: SourceAsset,
}

impl StaticAsset {
    /// Resolves the content-addressed output path of this asset. Fails with
    /// [`OutputError::UnsupportedContent`] exactly when the source content
    /// is not materialized bytes.
    pub fn path(&self) -> (r: Result<String, OutputError>)
        ensures
            r is Ok <==> self.source.content is Content,
            r matches Ok(p) ==> self.source.content matches FileContent::Content(bytes)
                && p@ == spec_asset_output_path(self.source.path@, bytes@),
            r is Err ==> r matches Err(OutputError::UnsupportedContent),
    {
        match &self.source.content {
            FileContent::Content(bytes) => {
                let digest = hash_md4(bytes);
                let b16 = encode_base16(&digest);
                match extension(self.source.path.as_str()) {
                    Some(ext) => {
                        let mut r = b16;
                        r.append(".");
                        r.append(ext.as_str());
                        proof {
                            reveal_strlit(".");
                            assert(r@ =~= spec_asset_output_path(
                                self.source.path@,
                                bytes@,
                            ));
                        }
                        Ok(r)
                    },
                    None => Ok(b16),
                }
            },
            FileContent::NotFound => Err(OutputError::UnsupportedContent),
        }
    }

    /// The asset's content: the source bytes, passed through unchanged.
    pub fn content(&self) -> (r: &FileContent)
        ensures
            r == &self.source.content,
    {
        &self.source.content
    }

    /// A static asset references nothing further.
    pub fn references(&self) -> (r: Vec<AssetReference>)
        ensures
            r@.len() == 0,
    {
        Vec::new()
    }
}

/// Law: resolving the same byte content twice yields the same digest and,
/// under the same source path, the same output path.
pub proof fn lemma_static_path_deterministic(c1: Seq<u8>, c2: Seq<u8>, p: Seq<char>)
    requires
        c1 == c2,
    ensures
        md4_of(c1) == md4_of(c2),
        spec_asset_output_path(p, c1) == spec_asset_output_path(p, c2),
{
}

/// Law: the output path is addressed by content alone; source paths with
/// equal extensions give equal output paths for the same bytes.
pub proof fn lemma_static_path_content_addressed(p1: Seq<char>, p2: Seq<char>, c: Seq<u8>)
    requires
        spec_extension(p1) == spec_extension(p2),
    ensures
        spec_asset_output_path(p1, c) == spec_asset_output_path(p2, c),
{
}

} // verus!
