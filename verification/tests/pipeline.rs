//! The whole pipeline over real documents: content dispatch, the grammar
//! capability, and the transform chain.

use turbopack_mdx::hygiene::ScopeAllocator;
use turbopack_mdx::parse::{parse, ParseResult};
use turbopack_mdx::transform::Transform;
use turbopack_mdx::{DocumentSource, SourceContent};

fn doc(content: SourceContent) -> DocumentSource {
    DocumentSource { path: b"pages/doc.mdx".to_vec(), content }
}

#[test]
fn valid_document_parses_to_a_nonempty_ast() {
    let source = doc(SourceContent::Bytes(b"# Title\n\nSome *text*.".to_vec()));
    let mut alloc = ScopeAllocator::new();
    let result = parse(&source, &Vec::new(), &mut alloc).unwrap();
    match result {
        ParseResult::Parsed { program, comments } => {
            assert!(!program.body.is_empty());
            assert_eq!(comments.len(), 0);
        },
        _ => panic!("a valid document must parse"),
    }
}

#[test]
fn broken_expression_is_unparseable() {
    let source = doc(SourceContent::Bytes(b"{1 +".to_vec()));
    let mut alloc = ScopeAllocator::new();
    let result = parse(&source, &Vec::new(), &mut alloc).unwrap();
    assert!(matches!(result, ParseResult::Unparseable));
}

#[test]
fn not_found_maps_to_not_found_and_nothing_else() {
    let mut alloc = ScopeAllocator::new();
    let absent = parse(&doc(SourceContent::NotFound), &Vec::new(), &mut alloc).unwrap();
    assert!(matches!(absent, ParseResult::NotFound));
    let broken = parse(&doc(SourceContent::Bytes(b"{1 +".to_vec())), &Vec::new(), &mut alloc)
        .unwrap();
    assert!(!matches!(broken, ParseResult::NotFound));
    assert!(!absent.cache_eq(&broken));
}

#[test]
fn redirect_is_unparseable() {
    let mut alloc = ScopeAllocator::new();
    let result = parse(&doc(SourceContent::Redirect), &Vec::new(), &mut alloc).unwrap();
    assert!(matches!(result, ParseResult::Unparseable));
}

#[test]
fn undecodable_bytes_are_unparseable() {
    let mut alloc = ScopeAllocator::new();
    let source = doc(SourceContent::Bytes(vec![0xff, 0xfe, 0x20]));
    let result = parse(&source, &Vec::new(), &mut alloc).unwrap();
    assert!(matches!(result, ParseResult::Unparseable));
}

#[test]
fn transform_chain_runs_over_the_compiled_rendering() {
    let source = doc(SourceContent::Bytes(b"# Title".to_vec()));
    let mut alloc = ScopeAllocator::new();
    let transforms = vec![Transform::Rename {
        from: b"_createMdxContent".to_vec(),
        to: b"_renderedMdxContent".to_vec(),
    }];
    let result = parse(&source, &transforms, &mut alloc).unwrap();
    match result {
        ParseResult::Parsed { program, .. } => {
            let text = String::from_utf8(program.body).unwrap();
            assert!(text.contains("_renderedMdxContent"));
            assert!(!text.contains("_createMdxContent"));
        },
        _ => panic!("a valid document must parse"),
    }
}

#[test]
fn failing_transform_is_a_hard_error_not_a_sentinel() {
    let source = doc(SourceContent::Bytes(b"# Title".to_vec()));
    let mut alloc = ScopeAllocator::new();
    let transforms = vec![Transform::RequireAbsent { ident: b"MDXContent".to_vec() }];
    let err = parse(&source, &transforms, &mut alloc).unwrap_err();
    assert_eq!(err.detail, b"MDXContent".to_vec());
}

#[test]
fn two_parses_of_identical_content_are_never_cache_equal() {
    let source = doc(SourceContent::Bytes(b"# Title\n\nSome *text*.".to_vec()));
    let mut alloc = ScopeAllocator::new();
    let first = parse(&source, &Vec::new(), &mut alloc).unwrap();
    let second = parse(&source, &Vec::new(), &mut alloc).unwrap();
    assert!(matches!(first, ParseResult::Parsed { .. }));
    assert!(!first.cache_eq(&second));
    assert!(!second.cache_eq(&first));
}
