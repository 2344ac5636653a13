//! Adapters that make a static asset consumable from module code: an
//! ES-module chunk item whose emitted code exports the asset's resolved
//! URL, and a CSS embed whose rewritten form is that same URL. Both carry
//! a reference labelled `static(url) {output_path}` for the asset graph.

use vstd::prelude::*;

use crate::OutputError;
use crate::hash::{hex_digit_str, spec_hex_digit};
use crate::reference::AssetReference;
use crate::static_asset::{FileContent, SourceAsset, StaticAsset, spec_asset_output_path};

verus! {

/// The JSON escape of one character, as a JSON string literal encodes it:
/// quote and backslash escaped, the common control characters as two-character
/// escapes, any other control character as `\u00XX`, everything else verbatim.
pub open spec fn spec_json_escape_char(c: char) -> Seq<char> {
    if c == '"' {
        seq!['\\', '"']
    } else if c == '\\' {
        seq!['\\', '\\']
    } else if c == '\u{8}' {
        seq!['\\', 'b']
    } else if c == '\t' {
        seq!['\\', 't']
    } else if c == '\n' {
        seq!['\\', 'n']
    } else if c == '\u{c}' {
        seq!['\\', 'f']
    } else if c == '\r' {
        seq!['\\', 'r']
    } else if (c as u32) < 0x20 {
        seq!['\\', 'u', '0', '0',
            spec_hex_digit((c as u32 / 16) as int),
            spec_hex_digit((c as u32 % 16) as int),
        ]
    } else {
        seq![c]
    }
}

/// The JSON escape of a character sequence.
pub open spec fn spec_json_escape(s: Seq<char>) -> Seq<char>
    decreases s.len(),
{
    if s.len() == 0 {
        Seq::empty()
    } else {
        spec_json_escape(s.drop_last()) + spec_json_escape_char(s.last())
    }
}

/// `s` as a JSON string literal: double quotes around the escaped body.
pub open spec fn spec_stringify_str(s: Seq<char>) -> Seq<char> {
    seq!['"'] + spec_json_escape(s) + seq!['"']
}

/// Renders `s` as a JSON string literal, for embedding in emitted module
/// code.
pub fn stringify_str(s: &str) -> (r: String)
    ensures
        r@ == spec_stringify_str(s@),
{
    proof {
        reveal_strlit("\"");
        reveal_strlit("\\\"");
        reveal_strlit("\\\\");
        reveal_strlit("\\b");
        reveal_strlit("\\t");
        reveal_strlit("\\n");
        reveal_strlit("\\f");
        reveal_strlit("\\r");
        reveal_strlit("\\u00");
    }
    let mut r = String::new();
    r.append("\"");
    let n = s.unicode_len();
    let mut i: usize = 0;
    while i < n
        invariant
            i <= n,
            n == s@.len(),
            r@ == seq!['"'] + spec_json_escape(s@.take(i as int)),
        decreases n - i,
    {
        proof {
            reveal_strlit("\\\"");
            reveal_strlit("\\\\");
            reveal_strlit("\\b");
            reveal_strlit("\\t");
            reveal_strlit("\\n");
            reveal_strlit("\\f");
            reveal_strlit("\\r");
            reveal_strlit("\\u00");
        }
        let c = s.get_char(i);
        if c == '"' {
            r.append("\\\"");
        } else if c == '\\' {
            r.append("\\\\");
        } else if c == '\u{8}' {
            r.append("\\b");
        } else if c == '\t' {
            r.append("\\t");
        } else if c == '\n' {
            r.append("\\n");
        } else if c == '\u{c}' {
            r.append("\\f");
        } else if c == '\r' {
            r.append("\\r");
        } else if (c as u32) < 0x20 {
            r.append("\\u00");
            let v: u32 = c as u32;
            let hi: u8 = (v / 16) as u8;
            let lo: u8 = (v % 16) as u8;
            r.append(hex_digit_str(hi));
            r.append(hex_digit_str(lo));
        } else {
            let piece = s.substring_char(i, i + 1);
            r.append(piece);
        }
        proof {
            assert(s@.take(i + 1).drop_last() =~= s@.take(i as int));
            assert(s@.take(i + 1).last() == s@[i as int]);
            assert(r@ =~= seq!['"'] + spec_json_escape(s@.take(i + 1)));
        }
        i += 1;
    }
    r.append("\"");
    proof {
        assert(s@.take(n as int) =~= s@);
        assert(r@ =~= spec_stringify_str(s@));
    }
    r
}

/// An ES module whose only observable export is the resolved URL of a
/// static asset.
pub struct StaticModuleAsset {
    pub source: SourceAsset,
}

/// The chunk item emitted for a [`StaticModuleAsset`]: its code exports the
/// asset's root-relative URL, not the asset bytes.
pub struct ModuleChunkItem {
    pub static_asset: StaticAsset,
}

/// The CSS embed emitted for a [`StaticModuleAsset`]: its rewritten form is
/// the asset's resolved path.
pub struct StaticCssEmbed {
    pub static_asset: StaticAsset,
}

impl Clone for FileContent {
    fn clone(&self) -> (r: Self)
        ensures
            r@ == self@,
    {
        match self {
            FileContent::Content(bytes) => {
                let cloned_bytes = bytes.clone();
                proof {
                    assert(cloned_bytes@ =~= bytes@);
                }
                FileContent::Content(cloned_bytes)
            },
            FileContent::NotFound => FileContent::NotFound,
        }
    }
}

impl Clone for SourceAsset {
    fn clone(&self) -> (r: Self)
        ensures
            r@ == self@,
    {
        SourceAsset { path: self.path.clone(), content: self.content.clone() }
    }
}

/// The single asset-graph reference produced for a resolved static asset:
/// it targets the output path and is labelled `static(url) {output_path}`.
fn static_asset_reference(asset: &StaticAsset) -> (r: Result<AssetReference, OutputError>)
    ensures
        r is Ok <==> asset.source.content is Content,
        r matches Ok(reference) ==> asset.source.content matches FileContent::Content(bytes)
            && reference@.path == spec_asset_output_path(asset.source.path@, bytes@)
            && reference@.description == "static(url) "@ + spec_asset_output_path(
            asset.source.path@,
            bytes@,
        ),
        r is Err ==> r matches Err(OutputError::UnsupportedContent),
{
    match asset.path() {
        Ok(output_path) => {
            let mut description = String::new();
            description.append("static(url) ");
            description.append(output_path.as_str());
            Ok(AssetReference { path: output_path, description })
        },
        Err(e) => Err(e),
    }
}

impl StaticModuleAsset {
    /// Wraps a source file as a static-asset module.
    pub fn new(source: SourceAsset) -> (r: Self)
        ensures
            r.source == source,
    {
        StaticModuleAsset { source }
    }

    /// The static asset resolved from this module's source. Every adapter
    /// of one module derives its asset from the same source, so their
    /// output paths agree.
    pub fn static_asset(&self) -> (r: StaticAsset)
        ensures
            r.source@ == self.source@,
    {
        StaticAsset { source: self.source.clone() }
    }

    /// The module's own path: the source path, unchanged.
    pub fn path(&self) -> (r: &String)
        ensures
            r == &self.source.path,
    {
        &self.source.path
    }

    /// The module's content: the source bytes, unchanged.
    pub fn content(&self) -> (r: &FileContent)
        ensures
            r == &self.source.content,
    {
        &self.source.content
    }

    /// The module itself references nothing; references appear on its
    /// chunk item and CSS embed.
    pub fn references(&self) -> (r: Vec<AssetReference>)
        ensures
            r@.len() == 0,
    {
        Vec::new()
    }

    /// The chunk item for ES-module consumers.
    pub fn as_chunk_item(&self) -> (r: ModuleChunkItem)
        ensures
            r.static_asset.source@ == self.source@,
    {
        ModuleChunkItem { static_asset: self.static_asset() }
    }

    /// The embed for CSS consumers.
    pub fn as_css_embed(&self) -> (r: StaticCssEmbed)
        ensures
            r.static_asset.source@ == self.source@,
    {
        StaticCssEmbed { static_asset: self.static_asset() }
    }

    /// A human-readable label for this module: `{source path} (static)`.
    pub fn to_string(&self) -> (r: String)
        ensures
            r@ == self.source.path@ + " (static)"@,
    {
        let mut r = self.source.path.clone();
        r.append(" (static)");
        r
    }
}

/// The emitted code of a static-asset chunk item: it exports the asset's
/// root-relative URL as a JSON string literal.
pub open spec fn spec_module_code(output_path: Seq<char>) -> Seq<char> {
    "__turbopack_export_value__("@ + spec_stringify_str(seq!['/'] + output_path) + ");"@
}

impl ModuleChunkItem {
    /// The chunk item's references: exactly one, to the resolved asset,
    /// labelled `static(url) {output_path}`.
    pub fn references(&self) -> (r: Result<Vec<AssetReference>, OutputError>)
        ensures
            r is Ok <==> self.static_asset.source.content is Content,
            r matches Ok(refs) ==> self.static_asset.source.content
                matches FileContent::Content(bytes) && refs@.len() == 1
                && refs@[0]@.path == spec_asset_output_path(
                self.static_asset.source.path@,
                bytes@,
            )
                && refs@[0]@.description == "static(url) "@ + spec_asset_output_path(
                self.static_asset.source.path@,
                bytes@,
            ),
            r is Err ==> r matches Err(OutputError::UnsupportedContent),
    {
        match static_asset_reference(&self.static_asset) {
            Ok(reference) => {
                let mut refs = Vec::new();
                refs.push(reference);
                Ok(refs)
            },
            Err(e) => Err(e),
        }
    }

    /// The emitted module code. The exported value is the string
    /// `/{output_path}`: the leading slash forces root-relative resolution
    /// wherever the module is imported from.
    pub fn content(&self) -> (r: Result<String, OutputError>)
        ensures
            r is Ok <==> self.static_asset.source.content is Content,
            r matches Ok(code) ==> self.static_asset.source.content matches FileContent::Content(
                bytes,
            ) && code@ == spec_module_code(
                spec_asset_output_path(self.static_asset.source.path@, bytes@),
            ),
            r is Err ==> r matches Err(OutputError::UnsupportedContent),
    {
        match self.static_asset.path() {
            Ok(output_path) => {
                let mut url = String::new();
                url.append("/");
                url.append(output_path.as_str());
                let quoted = stringify_str(url.as_str());
                let mut code = String::new();
                code.append("__turbopack_export_value__(");
                code.append(quoted.as_str());
                code.append(");");
                proof {
                    reveal_strlit("/");
                    assert(url@ =~= seq!['/'] + output_path@);
                }
                Ok(code)
            },
            Err(e) => Err(e),
        }
    }
}

impl StaticCssEmbed {
    /// The embed's references: exactly one, to the resolved asset,
    /// labelled `static(url) {output_path}`.
    pub fn references(&self) -> (r: Result<Vec<AssetReference>, OutputError>)
        ensures
            r is Ok <==> self.static_asset.source.content is Content,
            r matches Ok(refs) ==> self.static_asset.source.content
                matches FileContent::Content(bytes) && refs@.len() == 1
                && refs@[0]@.path == spec_asset_output_path(
                self.static_asset.source.path@,
                bytes@,
            )
                && refs@[0]@.description == "static(url) "@ + spec_asset_output_path(
                self.static_asset.source.path@,
                bytes@,
            ),
            r is Err ==> r matches Err(OutputError::UnsupportedContent),
    {
        match static_asset_reference(&self.static_asset) {
            Ok(reference) => {
                let mut refs = Vec::new();
                refs.push(reference);
                Ok(refs)
            },
            Err(e) => Err(e),
        }
    }

    /// The asset whose resolved path replaces the original CSS reference.
    pub fn embeddable_asset(&self) -> (r: &StaticAsset)
        ensures
            r == &self.static_asset,
    {
        &self.static_asset
    }
}

} // verus!
