use dev_output::OutputError;
use dev_output::chunk::{ChunkGroup, ChunkPathEntry, DevHtmlChunk};
use dev_output::hash::{encode_base16, encode_hex};
use dev_output::html::{DevHtmlAsset, DevHtmlAssetContent, HtmlRuntimeAsset};
use dev_output::module_asset::{StaticModuleAsset, stringify_str};
use dev_output::paths::{extension, sibling_path};
use dev_output::static_asset::{FileContent, SourceAsset, StaticAsset};
use dev_output::version::{UpdateResult, diff};

fn entry(relative_path: &str, chunk_id: &str) -> ChunkPathEntry {
    ChunkPathEntry {
        relative_path: relative_path.to_string(),
        chunk_id: chunk_id.to_string(),
    }
}

fn chunk(id: &str, relative_path: Option<&str>) -> DevHtmlChunk {
    DevHtmlChunk {
        id: id.to_string(),
        relative_path: relative_path.map(|p| p.to_string()),
    }
}

fn static_asset(path: &str, bytes: &[u8]) -> StaticAsset {
    StaticAsset {
        source: SourceAsset {
            path: path.to_string(),
            content: FileContent::Content(bytes.to_vec()),
        },
    }
}

fn content_of(entries: Vec<ChunkPathEntry>) -> DevHtmlAssetContent {
    DevHtmlAssetContent::new(entries, "_turbopack/html-runtime.js".to_string())
}

#[test]
fn hashing_is_deterministic() {
    let a = static_asset("img/logo.png", b"fixed content").path().unwrap();
    let b = static_asset("img/logo.png", b"fixed content").path().unwrap();
    assert_eq!(a, b);
}

#[test]
fn output_path_changes_with_single_byte_mutations() {
    let base: Vec<u8> = b"some static asset content".to_vec();
    let base_path = static_asset("a.png", &base).path().unwrap();
    for i in 0..base.len() {
        let mut mutated = base.clone();
        mutated[i] ^= 0x01;
        let mutated_path = static_asset("a.png", &mutated).path().unwrap();
        assert_ne!(base_path, mutated_path, "mutation at byte {} went unnoticed", i);
    }
}

#[test]
fn unchanged_content_keeps_output_path_across_resolutions() {
    let bytes = b"unchanged";
    let first = static_asset("x/y.svg", bytes).path().unwrap();
    for _ in 0..5 {
        assert_eq!(static_asset("x/y.svg", bytes).path().unwrap(), first);
    }
}

#[test]
fn static_asset_path_uses_md4_of_content_and_extension() {
    // MD4("abc") = a448017aaf21d8525fc10ae87aa6729d (RFC 1320 test vector).
    let path = static_asset("dir/a.png", b"abc").path().unwrap();
    assert_eq!(path, "a448017aaf21d8525fc10ae87aa6729d.png");
}

#[test]
fn static_asset_path_without_extension_is_bare_hash() {
    // MD4("") = 31d6cfe0d16ae931b73c59d7e0c089c0 (RFC 1320 test vector).
    let path = static_asset("README", b"").path().unwrap();
    assert_eq!(path, "31d6cfe0d16ae931b73c59d7e0c089c0");
}

#[test]
fn static_asset_path_ignores_source_directory_and_name() {
    let a = static_asset("img/one.png", b"same bytes").path().unwrap();
    let b = static_asset("elsewhere/other.png", b"same bytes").path().unwrap();
    assert_eq!(a, b);
    assert!(a.ends_with(".png"));
}

#[test]
fn unsupported_content_fails_resolution() {
    let asset = StaticAsset {
        source: SourceAsset {
            path: "a.png".to_string(),
            content: FileContent::NotFound,
        },
    };
    assert!(matches!(asset.path(), Err(OutputError::UnsupportedContent)));
}

#[test]
fn extension_is_final_component_suffix() {
    assert_eq!(extension("a/b.png"), Some("png".to_string()));
    assert_eq!(extension("archive.tar.gz"), Some("gz".to_string()));
    assert_eq!(extension("README"), None);
    assert_eq!(extension(".gitignore"), None);
    assert_eq!(extension("dir/.hidden"), None);
    assert_eq!(extension("trailing."), None);
    assert_eq!(extension("a.b/c"), None);
}

#[test]
fn encode_hex_pads_to_sixteen_digits() {
    assert_eq!(encode_hex(0), "0000000000000000");
    assert_eq!(encode_hex(0x0123456789abcdef), "0123456789abcdef");
    assert_eq!(encode_hex(u64::MAX), "ffffffffffffffff");
}

#[test]
fn encode_base16_is_two_lowercase_digits_per_byte() {
    assert_eq!(encode_base16(&vec![]), "");
    assert_eq!(encode_base16(&vec![0x00, 0x0f, 0xa5, 0xff]), "000fa5ff");
}

#[test]
fn stringify_str_escapes_like_a_json_string_literal() {
    assert_eq!(stringify_str("plain"), "\"plain\"");
    assert_eq!(stringify_str("a\"b\\c"), "\"a\\\"b\\\\c\"");
    assert_eq!(stringify_str("line\nbreak\tand\rmore"), "\"line\\nbreak\\tand\\rmore\"");
    assert_eq!(stringify_str("\u{8}\u{c}"), "\"\\b\\f\"");
    assert_eq!(stringify_str("\u{1}\u{1f}"), "\"\\u0001\\u001f\"");
}

#[test]
fn module_chunk_item_exports_root_relative_url() {
    let module = StaticModuleAsset::new(SourceAsset {
        path: "img.png".to_string(),
        content: FileContent::Content(b"abc".to_vec()),
    });
    let code = module.as_chunk_item().content().unwrap();
    assert_eq!(
        code,
        "__turbopack_export_value__(\"/a448017aaf21d8525fc10ae87aa6729d.png\");"
    );
}

#[test]
fn adapters_share_one_resolved_output_path() {
    let module = StaticModuleAsset::new(SourceAsset {
        path: "style/bg.jpg".to_string(),
        content: FileContent::Content(b"image bytes".to_vec()),
    });
    let from_chunk_item = module.as_chunk_item().static_asset.path().unwrap();
    let from_css_embed = module.as_css_embed().static_asset.path().unwrap();
    assert_eq!(from_chunk_item, from_css_embed);
}

#[test]
fn static_references_carry_the_resolved_path_label() {
    let module = StaticModuleAsset::new(SourceAsset {
        path: "img.png".to_string(),
        content: FileContent::Content(b"abc".to_vec()),
    });
    let refs = module.as_chunk_item().references().unwrap();
    assert_eq!(refs.len(), 1);
    assert_eq!(refs[0].path, "a448017aaf21d8525fc10ae87aa6729d.png");
    assert_eq!(refs[0].description, "static(url) a448017aaf21d8525fc10ae87aa6729d.png");
    let css_refs = module.as_css_embed().references().unwrap();
    assert_eq!(css_refs.len(), 1);
    assert_eq!(css_refs[0].description, "static(url) a448017aaf21d8525fc10ae87aa6729d.png");
}

#[test]
fn module_to_string_labels_the_source() {
    let module = StaticModuleAsset::new(SourceAsset {
        path: "img/logo.svg".to_string(),
        content: FileContent::Content(vec![]),
    });
    assert_eq!(module.to_string(), "img/logo.svg (static)");
}

#[test]
fn html_generation_scenario() {
    let groups = vec![ChunkGroup {
        chunks: vec![
            chunk("c1", Some("app.js")),
            chunk("c2", Some("app.css")),
        ],
    }];
    let asset = DevHtmlAsset::new(
        "index.html".to_string(),
        groups,
        Some("_turbopack/html-runtime.js".to_string()),
    );
    let content = asset.html_content().unwrap();
    let pairs: Vec<(String, String)> = content
        .chunk_paths
        .iter()
        .map(|e| (e.relative_path.clone(), e.chunk_id.clone()))
        .collect();
    assert_eq!(
        pairs,
        vec![
            ("app.js".to_string(), "c1".to_string()),
            ("app.css".to_string(), "c2".to_string()),
        ]
    );
    let html = content.content().unwrap();
    assert_eq!(
        html,
        "<!DOCTYPE html>\n<html>\n<head>\n\
         <link data-turbopack-chunk-id=\"c2\" rel=\"stylesheet\" href=\"app.css\">\n\
         </head>\n<body>\n<div id=root></div>\n\
         <script src=\"_turbopack/html-runtime.js\"></script>\n\
         <script src=\"app.js\"></script>\n\
         </body>\n</html>"
    );
    assert_eq!(asset.content().unwrap(), html);
}

#[test]
fn empty_chunk_list_still_renders_runtime_script() {
    let html = content_of(vec![]).content().unwrap();
    assert_eq!(
        html,
        "<!DOCTYPE html>\n<html>\n<head>\n\n</head>\n<body>\n<div id=root></div>\n\
         <script src=\"_turbopack/html-runtime.js\"></script>\n</body>\n</html>"
    );
}

#[test]
fn runtime_script_is_always_first() {
    let html = content_of(vec![
        entry("z.js", "c9"),
        entry("a.css", "c1"),
        entry("a.js", "c2"),
    ])
    .content()
    .unwrap();
    let first_script = html.find("<script").unwrap();
    let runtime_tag = "<script src=\"_turbopack/html-runtime.js\"></script>";
    assert_eq!(&html[first_script..first_script + runtime_tag.len()], runtime_tag);
    assert!(html.matches("<script src=\"").count() == 3);
}

#[test]
fn unknown_asset_type_fails_generation() {
    let result = content_of(vec![entry("app.js", "c1"), entry("app.txt", "c2")]).content();
    match result {
        Err(OutputError::UnknownAssetType(path)) => assert_eq!(path, "app.txt"),
        other => panic!("expected UnknownAssetType, got {:?}", other),
    }
}

#[test]
fn unresolvable_runtime_path_fails_generation() {
    let asset = DevHtmlAsset::new(
        "index.html".to_string(),
        vec![ChunkGroup { chunks: vec![chunk("c1", Some("app.js"))] }],
        None,
    );
    assert!(matches!(asset.html_content(), Err(OutputError::UnresolvableRelativePath)));
    assert!(matches!(asset.content(), Err(OutputError::UnresolvableRelativePath)));
}

#[test]
fn chunks_without_relative_path_are_skipped() {
    let asset = DevHtmlAsset::new(
        "index.html".to_string(),
        vec![ChunkGroup {
            chunks: vec![
                chunk("outside", None),
                chunk("c1", Some("app.js")),
            ],
        }],
        Some("_turbopack/html-runtime.js".to_string()),
    );
    let content = asset.html_content().unwrap();
    assert_eq!(content.chunk_paths.len(), 1);
    assert_eq!(content.chunk_paths[0].chunk_id, "c1");
}

#[test]
fn dev_html_references_list_chunks_then_runtime() {
    let asset = DevHtmlAsset::new(
        "pages/index.html".to_string(),
        vec![
            ChunkGroup { chunks: vec![chunk("c1", Some("app.js"))] },
            ChunkGroup { chunks: vec![chunk("c2", Some("app.css"))] },
        ],
        Some("_turbopack/html-runtime.js".to_string()),
    );
    let refs = asset.references();
    assert_eq!(refs.len(), 3);
    assert_eq!(refs[0].path, "c1");
    assert_eq!(refs[0].description, "chunk c1");
    assert_eq!(refs[1].path, "c2");
    assert_eq!(refs[2].path, "pages/_turbopack/html-runtime.js");
    assert_eq!(refs[2].description, "html-runtime pages/_turbopack/html-runtime.js");
}

#[test]
fn runtime_asset_sits_beside_the_document() {
    assert_eq!(
        sibling_path("a/b/index.html", "_turbopack/html-runtime.js"),
        "a/b/_turbopack/html-runtime.js"
    );
    assert_eq!(
        sibling_path("index.html", "_turbopack/html-runtime.js"),
        "_turbopack/html-runtime.js"
    );
    let runtime = HtmlRuntimeAsset::new("a/_turbopack/html-runtime.js".to_string());
    assert_eq!(runtime.path(), "a/_turbopack/html-runtime.js");
    assert!(runtime.references().is_empty());
}

#[test]
fn fingerprint_is_deterministic_and_sixteen_hex_digits() {
    let version = content_of(vec![entry("app.js", "c1")]).version();
    let first = version.id();
    let second = version.id();
    assert_eq!(first, second);
    assert_eq!(first.len(), 16);
    assert!(first.chars().all(|c| c.is_ascii_hexdigit() && !c.is_ascii_uppercase()));
}

#[test]
fn equal_entry_sequences_fingerprint_identically() {
    let a = content_of(vec![entry("app.js", "c1"), entry("app.css", "c2")]).version().id();
    let b = content_of(vec![entry("app.js", "c1"), entry("app.css", "c2")]).version().id();
    assert_eq!(a, b);
}

#[test]
fn different_entries_or_order_fingerprint_differently() {
    let base = content_of(vec![entry("app.js", "c1"), entry("app.css", "c2")]).version().id();
    let other_id = content_of(vec![entry("app.js", "c9"), entry("app.css", "c2")])
        .version()
        .id();
    let other_path =
        content_of(vec![entry("main.js", "c1"), entry("app.css", "c2")]).version().id();
    let swapped = content_of(vec![entry("app.css", "c2"), entry("app.js", "c1")])
        .version()
        .id();
    assert_ne!(base, other_id);
    assert_ne!(base, other_path);
    assert_ne!(base, swapped);
}

#[test]
fn diff_of_equal_fingerprints_is_no_change() {
    let f = content_of(vec![entry("app.js", "c1")]).version().id();
    let r = diff(&f, &f);
    assert!(matches!(r, UpdateResult::NoChange));
    assert!(r.reason().is_none());
}

#[test]
fn diff_of_different_fingerprints_is_unsupported() {
    let f1 = "0000000000000000".to_string();
    let f2 = "0000000000000001".to_string();
    match diff(&f1, &f2) {
        UpdateResult::Unsupported { from_version, to_version } => {
            assert_eq!(from_version, f1);
            assert_eq!(to_version, f2);
        },
        other => panic!("expected Unsupported, got {:?}", other),
    }
    assert!(diff(&f1, &f2).reason().is_some());
}

#[test]
fn update_from_same_version_is_no_change() {
    let content = content_of(vec![entry("app.js", "c1"), entry("app.css", "c2")]);
    let previous = content.version();
    assert!(matches!(content.update(&previous), UpdateResult::NoChange));
}

#[test]
fn update_from_different_version_is_unsupported() {
    let content = content_of(vec![entry("app.js", "c1")]);
    let previous = content_of(vec![entry("app.js", "c1"), entry("app.css", "c2")]).version();
    let to_expected = content.version().id();
    let from_expected = previous.id();
    match content.update(&previous) {
        UpdateResult::Unsupported { from_version, to_version } => {
            assert_eq!(from_version, from_expected);
            assert_eq!(to_version, to_expected);
        },
        other => panic!("expected Unsupported, got {:?}", other),
    }
}
