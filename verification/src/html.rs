//! The HTML entry document of the dev server: generated from an ordered
//! collection of chunk groups, it references every JS and CSS chunk plus a
//! runtime script that is always loaded first, and records the ordered
//! `(relative path, chunk id)` pairs its version fingerprint is computed
//! from.

use vstd::prelude::*;

use crate::OutputError;
use crate::chunk::{ChunkGroup, ChunkPathEntry, ChunkPathEntryView, DevHtmlChunkView};
use crate::paths::{sibling_path, spec_dir_prefix};
use crate::reference::{AssetReference, AssetReferenceView};
use crate::version::{DevHtmlAssetVersion, UpdateResult, diff, spec_fingerprint};

verus! {

/// Whether `s` ends with `suffix`.
pub open spec fn spec_has_suffix(s: Seq<char>, suffix: Seq<char>) -> bool {
    s.len() >= suffix.len() && s.subrange(s.len() - suffix.len(), s.len() as int) == suffix
}

/// Whether a relative path names a script chunk.
pub open spec fn spec_is_js(path: Seq<char>) -> bool {
    spec_has_suffix(path, ".js"@)
}

/// Whether a relative path names a stylesheet chunk.
pub open spec fn spec_is_css(path: Seq<char>) -> bool {
    spec_has_suffix(path, ".css"@)
}

/// Whether an entry can be rendered at all: every chunk must be a script
/// or a stylesheet.
pub open spec fn spec_classifies(e: ChunkPathEntryView) -> bool {
    spec_is_js(e.relative_path) || spec_is_css(e.relative_path)
}

fn has_suffix(s: &str, suffix: &str) -> (r: bool)
    ensures
        r == spec_has_suffix(s@, suffix@),
{
    let n = s.unicode_len();
    let m = suffix.unicode_len();
    if m > n {
        return false;
    }
    let mut k: usize = 0;
    while k < m
        invariant
            k <= m,
            m <= n,
            n == s@.len(),
            m == suffix@.len(),
            forall|j: int| 0 <= j < k ==> s@[n - m + j] == suffix@[j],
        decreases m - k,
    {
        let sc = s.get_char(n - m + k);
        let tc = suffix.get_char(k);
        if sc != tc {
            proof {
                let tail = s@.subrange(n - m, n as int);
                assert(tail[k as int] != suffix@[k as int]);
            }
            return false;
        }
        k += 1;
    }
    proof {
        assert(s@.subrange(n - m, n as int) =~= suffix@);
    }
    true
}

/// The script tag emitted for a chunk or runtime path.
pub open spec fn spec_script_tag(path: Seq<char>) -> Seq<char> {
    "<script src=\""@ + path + "\"></script>"@
}

/// The stylesheet link tag emitted for a CSS chunk; it carries the chunk
/// id in a `data-turbopack-chunk-id` attribute for the client runtime's
/// hot-swap bookkeeping.
pub open spec fn spec_link_tag(e: ChunkPathEntryView) -> Seq<char> {
    "<link data-turbopack-chunk-id=\""@ + e.chunk_id + "\" rel=\"stylesheet\" href=\""@
        + e.relative_path + "\">"@
}

fn script_tag(path: &str) -> (r: String)
    ensures
        r@ == spec_script_tag(path@),
{
    let mut r = String::new();
    r.append("<script src=\"");
    r.append(path);
    r.append("\"></script>");
    proof {
        assert(r@ =~= spec_script_tag(path@));
    }
    r
}

fn link_tag(chunk_id: &str, path: &str) -> (r: String)
    ensures
        r@ == spec_link_tag(ChunkPathEntryView { relative_path: path@, chunk_id: chunk_id@ }),
{
    let mut r = String::new();
    r.append("<link data-turbopack-chunk-id=\"");
    r.append(chunk_id);
    r.append("\" rel=\"stylesheet\" href=\"");
    r.append(path);
    r.append("\">");
    proof {
        assert(r@ =~= spec_link_tag(
            ChunkPathEntryView { relative_path: path@, chunk_id: chunk_id@ },
        ));
    }
    r
}

/// `parts` joined by `sep`; the empty list joins to the empty string.
pub open spec fn spec_join(parts: Seq<Seq<char>>, sep: Seq<char>) -> Seq<char>
    decreases parts.len(),
{
    if parts.len() == 0 {
        Seq::empty()
    } else if parts.len() == 1 {
        parts[0]
    } else {
        spec_join(parts.drop_last(), sep) + sep + parts.last()
    }
}

fn join_lines(parts: &Vec<String>) -> (r: String)
    ensures
        r@ == spec_join(parts.deep_view(), "\n"@),
{
    let mut r = String::new();
    let mut i: usize = 0;
    while i < parts.len()
        invariant
            i <= parts@.len(),
            parts.deep_view().len() == parts@.len(),
            r@ == spec_join(parts.deep_view().take(i as int), "\n"@),
        decreases parts@.len() - i,
    {
        if i > 0 {
            r.append("\n");
        }
        r.append(parts[i].as_str());
        proof {
            let taken = parts.deep_view().take(i + 1);
            assert(taken.drop_last() =~= parts.deep_view().take(i as int));
            assert(taken.last() == parts.deep_view()[i as int]);
            assert(r@ =~= spec_join(taken, "\n"@));
        }
        i += 1;
    }
    proof {
        assert(parts.deep_view().take(parts.deep_view().len() as int) =~= parts.deep_view());
    }
    r
}

/// The stylesheet link tags of an entry sequence, in entry order.
pub open spec fn spec_css_tags(entries: Seq<ChunkPathEntryView>) -> Seq<Seq<char>>
    decreases entries.len(),
{
    if entries.len() == 0 {
        Seq::empty()
    } else {
        spec_css_tags(entries.drop_last()) + if spec_is_css(entries.last().relative_path) {
            seq![spec_link_tag(entries.last())]
        } else {
            Seq::empty()
        }
    }
}

/// The chunk script tags of an entry sequence, in entry order, without the
/// runtime script.
pub open spec fn spec_js_tags(entries: Seq<ChunkPathEntryView>) -> Seq<Seq<char>>
    decreases entries.len(),
{
    if entries.len() == 0 {
        Seq::empty()
    } else {
        spec_js_tags(entries.drop_last()) + if spec_is_js(entries.last().relative_path) {
            seq![spec_script_tag(entries.last().relative_path)]
        } else {
            Seq::empty()
        }
    }
}

/// All script tags of a generated document: the runtime script
/// unconditionally first, then the chunk scripts in entry order.
pub open spec fn spec_script_tags(
    runtime_path: Seq<char>,
    entries: Seq<ChunkPathEntryView>,
) -> Seq<Seq<char>> {
    seq![spec_script_tag(runtime_path)] + spec_js_tags(entries)
}

/// The complete generated HTML document: a minimal static skeleton with
/// the stylesheet links in its head and all scripts at the end of its
/// body, each list newline-joined.
pub open spec fn spec_html_document(
    runtime_path: Seq<char>,
    entries: Seq<ChunkPathEntryView>,
) -> Seq<char> {
    "<!DOCTYPE html>\n<html>\n<head>\n"@ + spec_join(spec_css_tags(entries), "\n"@)
        + "\n</head>\n<body>\n<div id=root></div>\n"@ + spec_join(
        spec_script_tags(runtime_path, entries),
        "\n"@,
    ) + "\n</body>\n</html>"@
}

/// A script path is never also a stylesheet path.
proof fn lemma_js_not_css(p: Seq<char>)
    requires
        spec_is_js(p),
    ensures
        !spec_is_css(p),
{
    reveal_strlit(".js");
    reveal_strlit(".css");
    if spec_is_css(p) {
        let a = p.subrange(p.len() - 3, p.len() as int);
        let b = p.subrange(p.len() - 4, p.len() as int);
        assert(a[1] == p[p.len() - 2]);
        assert(b[2] == p[p.len() - 2]);
        assert(false);
    }
}

/// The renderable content of a generated HTML document: the ordered entry
/// sequence it references and the document-relative path of the runtime
/// script. The same entry sequence also determines the document's version
/// fingerprint.
pub struct DevHtmlAssetContent {
    pub chunk_paths: Vec<ChunkPathEntry>,
    pub html_runtime_path: String,
}

impl DevHtmlAssetContent {
    /// Bundles an ordered entry sequence and a runtime path as renderable
    /// document content.
    pub fn new(chunk_paths: Vec<ChunkPathEntry>, html_runtime_path: String) -> (r: Self)
        ensures
            r.chunk_paths == chunk_paths,
            r.html_runtime_path == html_runtime_path,
    {
        DevHtmlAssetContent { chunk_paths, html_runtime_path }
    }

    /// Renders the HTML document. Succeeds exactly when every entry is a
    /// script or a stylesheet; otherwise fails with
    /// [`OutputError::UnknownAssetType`] naming the first entry that is
    /// neither, and produces no partial document.
    pub fn content(&self) -> (r: Result<String, OutputError>)
        ensures
            r is Ok <==> (forall|i: int|
                0 <= i < self.chunk_paths.deep_view().len() ==> spec_classifies(
                    #[trigger] self.chunk_paths.deep_view()[i],
                )),
            r matches Ok(html) ==> html@ == spec_html_document(
                self.html_runtime_path@,
                self.chunk_paths.deep_view(),
            ),
            r matches Err(e) ==> e matches OutputError::UnknownAssetType(p) && exists|i: int|
                0 <= i < self.chunk_paths.deep_view().len() && !spec_classifies(
                    #[trigger] self.chunk_paths.deep_view()[i],
                ) && p@ == self.chunk_paths.deep_view()[i].relative_path && (forall|j: int|
                    0 <= j < i ==> spec_classifies(#[trigger] self.chunk_paths.deep_view()[j])),
    {
        let ghost entries = self.chunk_paths.deep_view();
        let mut scripts: Vec<String> = Vec::new();
        let mut stylesheets: Vec<String> = Vec::new();

        // The HTML runtime MUST be the first script to be loaded.
        scripts.push(script_tag(self.html_runtime_path.as_str()));

        let mut i: usize = 0;
        while i < self.chunk_paths.len()
            invariant
                i <= self.chunk_paths@.len(),
                entries == self.chunk_paths.deep_view(),
                entries.len() == self.chunk_paths@.len(),
                forall|j: int| 0 <= j < i ==> spec_classifies(#[trigger] entries[j]),
                scripts.deep_view() == spec_script_tags(
                    self.html_runtime_path@,
                    entries.take(i as int),
                ),
                stylesheets.deep_view() == spec_css_tags(entries.take(i as int)),
            decreases self.chunk_paths@.len() - i,
        {
            let entry = &self.chunk_paths[i];
            let ghost taken = entries.take(i + 1);
            proof {
                assert(taken.drop_last() =~= entries.take(i as int));
                assert(taken.last() == entries[i as int]);
            }
            if has_suffix(entry.relative_path.as_str(), ".js") {
                let tag = script_tag(entry.relative_path.as_str());
                let ghost pre = scripts.deep_view();
                scripts.push(tag);
                proof {
                    lemma_js_not_css(entries[i as int].relative_path);
                    assert(scripts.deep_view() =~= pre.push(
                        spec_script_tag(entries[i as int].relative_path),
                    ));
                    assert(scripts.deep_view() =~= spec_script_tags(
                        self.html_runtime_path@,
                        taken,
                    ));
                    assert(stylesheets.deep_view() =~= spec_css_tags(taken));
                }
            } else if has_suffix(entry.relative_path.as_str(), ".css") {
                let tag = link_tag(entry.chunk_id.as_str(), entry.relative_path.as_str());
                let ghost pre = stylesheets.deep_view();
                stylesheets.push(tag);
                proof {
                    assert(stylesheets.deep_view() =~= pre.push(
                        spec_link_tag(entries[i as int]),
                    ));
                    assert(scripts.deep_view() =~= spec_script_tags(
                        self.html_runtime_path@,
                        taken,
                    ));
                    assert(stylesheets.deep_view() =~= spec_css_tags(taken));
                }
            } else {
                proof {
                    assert(!spec_classifies(entries[i as int]));
                }
                return Err(OutputError::UnknownAssetType(entry.relative_path.clone()));
            }
            i += 1;
        }
        proof {
            assert(entries.take(entries.len() as int) =~= entries);
        }

        let stylesheet_block = join_lines(&stylesheets);
        let script_block = join_lines(&scripts);
        let mut html = String::new();
        html.append("<!DOCTYPE html>\n<html>\n<head>\n");
        html.append(stylesheet_block.as_str());
        html.append("\n</head>\n<body>\n<div id=root></div>\n");
        html.append(script_block.as_str());
        html.append("\n</body>\n</html>");
        proof {
            assert(html@ =~= spec_html_document(self.html_runtime_path@, entries));
        }
        Ok(html)
    }

    /// The version of this content: it owns a copy of the entry sequence
    /// and is regenerated in full from it, never updated incrementally.
    pub fn version(&self) -> (r: DevHtmlAssetVersion)
        ensures
            r.chunk_paths.deep_view() == self.chunk_paths.deep_view(),
    {
        let mut chunk_paths: Vec<ChunkPathEntry> = Vec::new();
        let mut i: usize = 0;
        while i < self.chunk_paths.len()
            invariant
                i <= self.chunk_paths@.len(),
                chunk_paths.deep_view() =~= self.chunk_paths.deep_view().take(i as int),
            decreases self.chunk_paths@.len() - i,
        {
            let entry = self.chunk_paths[i].clone();
            let ghost pre = chunk_paths.deep_view();
            chunk_paths.push(entry);
            proof {
                assert(chunk_paths.deep_view() =~= pre.push(
                    self.chunk_paths.deep_view()[i as int],
                ));
                assert(chunk_paths.deep_view() =~= self.chunk_paths.deep_view().take(i + 1));
            }
            i += 1;
        }
        proof {
            let deep = self.chunk_paths.deep_view();
            assert(deep.take(deep.len() as int) =~= deep);
        }
        DevHtmlAssetVersion { chunk_paths }
    }

    /// Evaluates whether output served under `from_version` is still
    /// current. Fingerprint equality is the sole criterion: equal
    /// fingerprints report no change, different fingerprints report an
    /// unsupported structural change carrying both fingerprints.
    pub fn update(&self, from_version: &DevHtmlAssetVersion) -> (r: UpdateResult)
        ensures
            r is NoChange <==> spec_fingerprint(self.chunk_paths.deep_view())
                == spec_fingerprint(from_version.chunk_paths.deep_view()),
            r matches UpdateResult::Unsupported { from_version: f, to_version: t }
                ==> spec_fingerprint(self.chunk_paths.deep_view()) != spec_fingerprint(
                from_version.chunk_paths.deep_view(),
            ) && f@ == spec_fingerprint(from_version.chunk_paths.deep_view()) && t@
                == spec_fingerprint(self.chunk_paths.deep_view()),
    {
        let to_id = self.version().id();
        let from_id = from_version.id();
        diff(&from_id, &to_id)
    }
}

/// An abstract view of a [`DevHtmlAsset`].
#[verifier::ext_equal]
pub ghost struct DevHtmlAssetView {
    pub path: Seq<char>,
    pub chunk_groups: Seq<Seq<DevHtmlChunkView>>,
    pub runtime_relative_path: Option<Seq<char>>,
}

/// The HTML entry point of the dev server: an ordered collection of chunk
/// groups to reference, the document's own path, and the runtime script's
/// path relative to the document's directory — `None` when the path
/// abstraction cannot express it, which fails generation.
pub struct DevHtmlAsset {
    pub path: String,
    pub chunk_groups: Vec<ChunkGroup>,
    pub runtime_relative_path: Option<String>,
}

impl View for DevHtmlAsset {
    type V = DevHtmlAssetView;

    open spec fn view(&self) -> DevHtmlAssetView {
        DevHtmlAssetView {
            path: self.path@,
            chunk_groups: self.chunk_groups.deep_view(),
            runtime_relative_path: match self.runtime_relative_path {
                Some(p) => Some(p@),
                None => None,
            },
        }
    }
}

/// The `(relative path, chunk id)` entries contributed by one chunk
/// group, in chunk order; a chunk whose path has no document-relative
/// form is skipped.
pub open spec fn spec_group_entries(chunks: Seq<DevHtmlChunkView>) -> Seq<ChunkPathEntryView>
    decreases chunks.len(),
{
    if chunks.len() == 0 {
        Seq::empty()
    } else {
        spec_group_entries(chunks.drop_last()) + match chunks.last().relative_path {
            Some(rp) => seq![
                ChunkPathEntryView { relative_path: rp, chunk_id: chunks.last().id },
            ],
            None => Seq::empty(),
        }
    }
}

/// The entries of all chunk groups, in supplied group order.
pub open spec fn spec_collect_entries(
    groups: Seq<Seq<DevHtmlChunkView>>,
) -> Seq<ChunkPathEntryView>
    decreases groups.len(),
{
    if groups.len() == 0 {
        Seq::empty()
    } else {
        spec_collect_entries(groups.drop_last()) + spec_group_entries(groups.last())
    }
}

/// The reference emitted for one chunk: it targets the chunk by its
/// identifier and is labelled `chunk {id}`.
pub open spec fn spec_chunk_ref(c: DevHtmlChunkView) -> AssetReferenceView {
    AssetReferenceView { path: c.id, description: "chunk "@ + c.id }
}

/// The references of one chunk group, in chunk order.
pub open spec fn spec_group_refs(chunks: Seq<DevHtmlChunkView>) -> Seq<AssetReferenceView>
    decreases chunks.len(),
{
    if chunks.len() == 0 {
        Seq::empty()
    } else {
        spec_group_refs(chunks.drop_last()).push(spec_chunk_ref(chunks.last()))
    }
}

/// The references of all chunk groups, in supplied group order.
pub open spec fn spec_chunk_refs(groups: Seq<Seq<DevHtmlChunkView>>) -> Seq<AssetReferenceView>
    decreases groups.len(),
{
    if groups.len() == 0 {
        Seq::empty()
    } else {
        spec_chunk_refs(groups.drop_last()) + spec_group_refs(groups.last())
    }
}

impl DevHtmlAsset {
    /// Creates a new dev HTML asset.
    pub fn new(
        path: String,
        chunk_groups: Vec<ChunkGroup>,
        runtime_relative_path: Option<String>,
    ) -> (r: Self)
        ensures
            r.path == path,
            r.chunk_groups == chunk_groups,
            r.runtime_relative_path == runtime_relative_path,
    {
        DevHtmlAsset { path, chunk_groups, runtime_relative_path }
    }

    /// The document's own path, unchanged.
    pub fn path(&self) -> (r: &String)
        ensures
            r == &self.path,
    {
        &self.path
    }

    /// The reference to the runtime script asset, which lives at the
    /// conventional subpath beside the document; labelled
    /// `html-runtime {path}`.
    pub fn html_runtime_reference(&self) -> (r: AssetReference)
        ensures
            r@.path == spec_dir_prefix(self.path@) + "_turbopack/html-runtime.js"@,
            r@.description == "html-runtime "@ + spec_dir_prefix(self.path@)
                + "_turbopack/html-runtime.js"@,
    {
        let runtime_path = sibling_path(self.path.as_str(), "_turbopack/html-runtime.js");
        let mut description = String::new();
        description.append("html-runtime ");
        description.append(runtime_path.as_str());
        proof {
            assert(description@ =~= "html-runtime "@ + spec_dir_prefix(self.path@)
                + "_turbopack/html-runtime.js"@);
        }
        AssetReference { path: runtime_path, description }
    }

    /// The references of the generated document: one per chunk, in group
    /// order, followed by the runtime script reference.
    pub fn references(&self) -> (r: Vec<AssetReference>)
        ensures
            r.deep_view() == spec_chunk_refs(self.chunk_groups.deep_view()).push(
                AssetReferenceView {
                    path: spec_dir_prefix(self.path@) + "_turbopack/html-runtime.js"@,
                    description: "html-runtime "@ + spec_dir_prefix(self.path@)
                        + "_turbopack/html-runtime.js"@,
                },
            ),
    {
        let ghost groups = self.chunk_groups.deep_view();
        let mut refs: Vec<AssetReference> = Vec::new();
        let mut g: usize = 0;
        while g < self.chunk_groups.len()
            invariant
                g <= self.chunk_groups@.len(),
                groups == self.chunk_groups.deep_view(),
                groups.len() == self.chunk_groups@.len(),
                refs.deep_view() == spec_chunk_refs(groups.take(g as int)),
            decreases self.chunk_groups@.len() - g,
        {
            let group = &self.chunk_groups[g];
            let ghost chunks = groups[g as int];
            proof {
                assert(group.deep_view() == chunks);
            }
            let mut c: usize = 0;
            while c < group.chunks.len()
                invariant
                    c <= group.chunks@.len(),
                    chunks == group.deep_view(),
                    chunks.len() == group.chunks@.len(),
                    refs.deep_view() == spec_chunk_refs(groups.take(g as int))
                        + spec_group_refs(chunks.take(c as int)),
                decreases group.chunks@.len() - c,
            {
                let chunk = &group.chunks[c];
                let mut description = String::new();
                description.append("chunk ");
                description.append(chunk.id.as_str());
                let reference = AssetReference { path: chunk.id.clone(), description };
                let ghost pre = refs.deep_view();
                refs.push(reference);
                proof {
                    let taken = chunks.take(c + 1);
                    assert(taken.drop_last() =~= chunks.take(c as int));
                    assert(taken.last() == chunks[c as int]);
                    assert(refs.deep_view() =~= pre.push(spec_chunk_ref(chunks[c as int])));
                    assert(refs.deep_view() =~= spec_chunk_refs(groups.take(g as int))
                        + spec_group_refs(taken));
                }
                c += 1;
            }
            proof {
                let taken = groups.take(g + 1);
                assert(chunks.take(chunks.len() as int) =~= chunks);
                assert(taken.drop_last() =~= groups.take(g as int));
                assert(taken.last() == groups[g as int]);
                assert(refs.deep_view() =~= spec_chunk_refs(taken));
            }
            g += 1;
        }
        proof {
            assert(groups.take(groups.len() as int) =~= groups);
        }
        let runtime_reference = self.html_runtime_reference();
        refs.push(runtime_reference);
        proof {
            assert(refs.deep_view() =~= spec_chunk_refs(groups).push(
                AssetReferenceView {
                    path: spec_dir_prefix(self.path@) + "_turbopack/html-runtime.js"@,
                    description: "html-runtime "@ + spec_dir_prefix(self.path@)
                        + "_turbopack/html-runtime.js"@,
                },
            ));
        }
        refs
    }

    /// Collects the ordered `(relative path, chunk id)` entries of every
    /// chunk group — skipping chunks without a document-relative path —
    /// and pairs them with the runtime path as renderable content. Fails
    /// with [`OutputError::UnresolvableRelativePath`] exactly when the
    /// runtime script has no document-relative path.
    pub fn html_content(&self) -> (r: Result<DevHtmlAssetContent, OutputError>)
        ensures
            r is Ok <==> self.runtime_relative_path is Some,
            r matches Ok(content) ==> self.runtime_relative_path matches Some(rt)
                && content.html_runtime_path@ == rt@ && content.chunk_paths.deep_view()
                == spec_collect_entries(self.chunk_groups.deep_view()),
            r is Err ==> r matches Err(OutputError::UnresolvableRelativePath),
    {
        let runtime = match &self.runtime_relative_path {
            Some(rt) => rt.clone(),
            None => {
                return Err(OutputError::UnresolvableRelativePath);
            },
        };
        let ghost groups = self.chunk_groups.deep_view();
        let mut chunk_paths: Vec<ChunkPathEntry> = Vec::new();
        let mut g: usize = 0;
        while g < self.chunk_groups.len()
            invariant
                g <= self.chunk_groups@.len(),
                groups == self.chunk_groups.deep_view(),
                groups.len() == self.chunk_groups@.len(),
                chunk_paths.deep_view() == spec_collect_entries(groups.take(g as int)),
            decreases self.chunk_groups@.len() - g,
        {
            let group = &self.chunk_groups[g];
            let ghost chunks = groups[g as int];
            proof {
                assert(group.deep_view() == chunks);
            }
            let mut c: usize = 0;
            while c < group.chunks.len()
                invariant
                    c <= group.chunks@.len(),
                    chunks == group.deep_view(),
                    chunks.len() == group.chunks@.len(),
                    chunk_paths.deep_view() == spec_collect_entries(groups.take(g as int))
                        + spec_group_entries(chunks.take(c as int)),
                decreases group.chunks@.len() - c,
            {
                let chunk = &group.chunks[c];
                let ghost taken = chunks.take(c + 1);
                proof {
                    assert(taken.drop_last() =~= chunks.take(c as int));
                    assert(taken.last() == chunks[c as int]);
                }
                match &chunk.relative_path {
                    Some(rp) => {
                        let entry = ChunkPathEntry {
                            relative_path: rp.clone(),
                            chunk_id: chunk.id.clone(),
                        };
                        let ghost pre = chunk_paths.deep_view();
                        chunk_paths.push(entry);
                        proof {
                            assert(refs_entry_view(chunks[c as int]) matches Some(ev)
                                && chunk_paths.deep_view() =~= pre.push(ev));
                            assert(chunk_paths.deep_view() =~= spec_collect_entries(
                                groups.take(g as int),
                            ) + spec_group_entries(taken));
                        }
                    },
                    None => {
                        proof {
                            assert(spec_group_entries(taken) =~= spec_group_entries(
                                chunks.take(c as int),
                            ));
                        }
                    },
                }
                c += 1;
            }
            proof {
                let taken = groups.take(g + 1);
                assert(chunks.take(chunks.len() as int) =~= chunks);
                assert(taken.drop_last() =~= groups.take(g as int));
                assert(taken.last() == groups[g as int]);
                assert(chunk_paths.deep_view() =~= spec_collect_entries(taken));
            }
            g += 1;
        }
        proof {
            assert(groups.take(groups.len() as int) =~= groups);
        }
        Ok(DevHtmlAssetContent::new(chunk_paths, runtime))
    }

    /// Generates the full HTML document in one pass. Succeeds exactly when
    /// the runtime path is expressible and every collected entry is a
    /// script or a stylesheet.
    pub fn content(&self) -> (r: Result<String, OutputError>)
        ensures
            r is Ok <==> (self.runtime_relative_path is Some && forall|i: int|
                0 <= i < spec_collect_entries(self.chunk_groups.deep_view()).len()
                    ==> spec_classifies(
                    #[trigger] spec_collect_entries(self.chunk_groups.deep_view())[i],
                )),
            r matches Ok(html) ==> self.runtime_relative_path matches Some(rt) && html@
                == spec_html_document(
                rt@,
                spec_collect_entries(self.chunk_groups.deep_view()),
            ),
            self.runtime_relative_path is None ==> r matches Err(
                OutputError::UnresolvableRelativePath,
            ),
            self.runtime_relative_path is Some ==> (r matches Err(e) ==> e matches
                OutputError::UnknownAssetType(p) && exists|i: int|
                0 <= i < spec_collect_entries(self.chunk_groups.deep_view()).len()
                    && !spec_classifies(
                    #[trigger] spec_collect_entries(self.chunk_groups.deep_view())[i],
                ) && p@ == spec_collect_entries(self.chunk_groups.deep_view())[i].relative_path
                    && (forall|j: int|
                    0 <= j < i ==> spec_classifies(
                        #[trigger] spec_collect_entries(self.chunk_groups.deep_view())[j],
                    ))),
    {
        match self.html_content() {
            Ok(content) => content.content(),
            Err(e) => Err(e),
        }
    }
}

/// The HTML runtime asset: the fixed, framework-provided client script
/// that every generated document loads first. Its bytes are baked into
/// the embedding dev server binary; this library only places and
/// references it.
pub struct HtmlRuntimeAsset {
    pub path: String,
}

impl HtmlRuntimeAsset {
    /// Wraps the runtime script's path as an asset handle.
    pub fn new(path: String) -> (r: Self)
        ensures
            r.path == path,
    {
        HtmlRuntimeAsset { path }
    }

    /// The runtime asset's path, unchanged.
    pub fn path(&self) -> (r: &String)
        ensures
            r == &self.path,
    {
        &self.path
    }

    /// The runtime script references nothing further.
    pub fn references(&self) -> (r: Vec<AssetReference>)
        ensures
            r@.len() == 0,
    {
        Vec::new()
    }
}

/// The entry a chunk contributes to the fingerprinted sequence, when it
/// contributes one.
pub open spec fn refs_entry_view(c: DevHtmlChunkView) -> Option<ChunkPathEntryView> {
    match c.relative_path {
        Some(rp) => Some(ChunkPathEntryView { relative_path: rp, chunk_id: c.id }),
        None => None,
    }
}

/// Law: in every generated document the runtime script tag stands at
/// index 0 of the script tag list, whatever the chunk input order.
pub proof fn lemma_runtime_script_first(
    runtime_path: Seq<char>,
    entries: Seq<ChunkPathEntryView>,
)
    ensures
        spec_script_tags(runtime_path, entries).len() >= 1,
        spec_script_tags(runtime_path, entries)[0] == spec_script_tag(runtime_path),
{
}

} // verus!
