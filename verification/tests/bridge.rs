//! The module bridge end to end: reference discovery, content emission, and
//! the degraded output for documents that fail to compile.

use turbopack_mdx::{
    compile_to_synthetic, unparseable_stub, BridgeError, DocumentSource, MdxModuleAsset,
    SourceContent,
};

fn asset(content: SourceContent) -> MdxModuleAsset {
    let source = DocumentSource { path: b"pages/doc.mdx".to_vec(), content };
    MdxModuleAsset::new(source, 7, Vec::new())
}

#[test]
fn valid_document_round_trips_through_discovery_and_emission() {
    let asset = asset(SourceContent::Bytes(b"# Title\n\nSome *text*.".to_vec()));
    let synthetic = asset.analyze().unwrap();
    assert_eq!(synthetic.path, b"pages/doc.mdx".to_vec());
    assert!(!synthetic.code.is_empty());

    let item = asset.as_chunk_item(9);
    let code = item.content().unwrap();
    assert!(!code.is_empty());
    let text = String::from_utf8(code).unwrap();
    assert!(text.contains("Title"));
}

#[test]
fn broken_expression_discovery_errs_and_emission_emits_the_stub() {
    let asset = asset(SourceContent::Bytes(b"{1 +".to_vec()));
    match asset.analyze() {
        Err(BridgeError::Compiler { message }) => assert!(!message.is_empty()),
        _ => panic!("discovery over a broken document must fail with the compiler's message"),
    }

    let item = asset.as_chunk_item(9);
    let code = item.content().unwrap();
    let text = String::from_utf8(code.clone()).unwrap();
    assert!(text.contains("pages/doc.mdx"));
    assert!(text.contains("MODULE_UNPARSEABLE"));
    assert_eq!(code, unparseable_stub(&b"pages/doc.mdx".to_vec()));
}

#[test]
fn stub_is_the_exact_documented_script() {
    let stub = unparseable_stub(&b"a.mdx".to_vec());
    let expected = "const e = new Error(\"Could not parse module 'a.mdx'\");\n\
                    e.code = 'MODULE_UNPARSEABLE';\nthrow e;";
    assert_eq!(String::from_utf8(stub).unwrap(), expected);
}

#[test]
fn absent_content_is_a_content_read_failure_everywhere() {
    let asset = asset(SourceContent::NotFound);
    assert!(matches!(asset.analyze(), Err(BridgeError::ContentAbsent)));
    let item = asset.as_chunk_item(9);
    assert!(matches!(item.content(), Err(BridgeError::ContentAbsent)));
}

#[test]
fn redirect_and_undecodable_content_are_hard_errors() {
    let redirected = asset(SourceContent::Redirect);
    assert!(matches!(redirected.analyze(), Err(BridgeError::UnexpectedContent)));
    let item = redirected.as_chunk_item(9);
    assert!(matches!(item.content(), Err(BridgeError::UnexpectedContent)));

    let binary = asset(SourceContent::Bytes(vec![0xff, 0x00]));
    assert!(matches!(binary.analyze(), Err(BridgeError::Decode)));
    let item = binary.as_chunk_item(9);
    assert!(matches!(item.content(), Err(BridgeError::Decode)));
}

#[test]
fn both_entry_points_share_one_compile_and_wrap() {
    let asset = asset(SourceContent::Bytes(b"# Title".to_vec()));
    let from_analyze = asset.analyze().unwrap();
    let direct = compile_to_synthetic(&DocumentSource {
        path: b"pages/doc.mdx".to_vec(),
        content: SourceContent::Bytes(b"# Title".to_vec()),
    })
    .unwrap();
    assert_eq!(from_analyze.path, direct.path);
    assert_eq!(from_analyze.code, direct.code);

    let item = asset.as_chunk_item(9);
    assert_eq!(item.content().unwrap(), direct.code);
}

#[test]
fn synthetic_source_keeps_the_original_path_and_asset_getters_agree() {
    let asset = asset(SourceContent::Bytes(b"# Title".to_vec()));
    assert_eq!(asset.path(), &b"pages/doc.mdx".to_vec());
    assert_eq!(asset.origin_path(), &b"pages/doc.mdx".to_vec());
    assert_eq!(asset.context(), 7);
    let item = asset.as_chunk_item(9);
    assert_eq!(item.chunking_context(), 9);
    assert_eq!(item.description(), b"pages/doc.mdx (mdx)".to_vec());
}
