//! The transform chain executor: declared order is load-bearing, and any
//! failure aborts the chain.

use turbopack_mdx::hygiene::{CommentStore, ScopeAllocator};
use turbopack_mdx::transform::{apply_chain, apply_transform, ModuleAst, Transform,
    TransformContext};

fn context() -> TransformContext {
    let mut alloc = ScopeAllocator::new();
    let scopes = alloc.fresh_pair();
    TransformContext::new(CommentStore::new(), scopes, b"pages/doc.mdx".to_vec())
}

fn rename(from: &[u8], to: &[u8]) -> Transform {
    Transform::Rename { from: from.to_vec(), to: to.to_vec() }
}

fn require_absent(ident: &[u8]) -> Transform {
    Transform::RequireAbsent { ident: ident.to_vec() }
}

#[test]
fn rename_then_check_succeeds() {
    let ctx = context();
    let chain = vec![rename(b"x", b"y"), require_absent(b"x")];
    let ast = ModuleAst { body: b"x + x".to_vec() };
    let out = apply_chain(&chain, ast, &ctx).unwrap();
    assert_eq!(out.body, b"y + y".to_vec());
}

#[test]
fn check_then_rename_fails() {
    let ctx = context();
    let chain = vec![require_absent(b"x"), rename(b"x", b"y")];
    let ast = ModuleAst { body: b"x + x".to_vec() };
    let err = apply_chain(&chain, ast, &ctx).unwrap_err();
    assert_eq!(err.detail, b"x".to_vec());
}

#[test]
fn later_transform_sees_earlier_output() {
    let ctx = context();
    let chain = vec![rename(b"a", b"b"), rename(b"b", b"c")];
    let ast = ModuleAst { body: b"a b".to_vec() };
    let out = apply_chain(&chain, ast, &ctx).unwrap();
    assert_eq!(out.body, b"c c".to_vec());
}

#[test]
fn empty_chain_returns_the_ast_unchanged() {
    let ctx = context();
    let ast = ModuleAst { body: b"unchanged".to_vec() };
    let out = apply_chain(&Vec::new(), ast, &ctx).unwrap();
    assert_eq!(out.body, b"unchanged".to_vec());
}

#[test]
fn single_transform_matches_the_chain_of_one() {
    let ctx = context();
    let t = rename(b"x", b"y");
    let direct = apply_transform(&t, ModuleAst { body: b"x!".to_vec() }, &ctx).unwrap();
    let chained = apply_chain(&vec![t], ModuleAst { body: b"x!".to_vec() }, &ctx).unwrap();
    assert_eq!(direct.body, chained.body);
}

#[test]
fn context_carries_distinct_scopes_and_name_hash() {
    let ctx = context();
    assert_ne!(ctx.scopes.unresolved, ctx.scopes.top_level);
    assert_eq!(ctx.logical_name, b"pages/doc.mdx".to_vec());
    assert_eq!(ctx.content_hash, turbopack_mdx::text::fnv1a(&b"pages/doc.mdx".to_vec()));
}
