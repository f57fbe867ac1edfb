//! The compilation pipeline and its cacheable tri-state result.
//!
//! A document either compiles to a transformed module AST, is structurally
//! unparseable, or has no content at all. The three states are first-class,
//! comparable values so that a memoizing build system can cache them.

use vstd::prelude::*;
use crate::compiler::{check_utf8, compile_mdx, mdx_compile, utf8_ok};
use crate::hygiene::{Comment, CommentStore, ScopeAllocator};
use crate::text::clone_bytes;
use crate::transform::{apply_chain, chain_spec, ModuleAst, Transform, TransformContext,
    TransformError};
use crate::{DocumentSource, SourceContent};

verus! {

/// The pipeline's result, the unit the external memoization runtime caches.
#[derive(Debug)]
pub enum ParseResult {
    /// A transformed module AST together with the comment store.
    Parsed { program: ModuleAst, comments: CommentStore },
    /// The document could not become a module AST: a structural parse
    /// failure and an interop failure are deliberately merged, since
    /// downstream consumers act identically on either.
    Unparseable,
    /// The document source reported absent content: nothing to compile, as
    /// opposed to a failure to compile.
    NotFound,
}

/// How the cache compares two pipeline results. Two successes never compare
/// equal — even structurally identical ones — so any re-parse forces
/// downstream invalidation, trading redundant recomputation for correctness
/// under AST-identity ambiguity. The sentinels compare by variant alone.
pub open spec fn cache_eq_spec(a: ParseResult, b: ParseResult) -> bool {
    match (a, b) {
        (ParseResult::Parsed { .. }, ParseResult::Parsed { .. }) => false,
        (ParseResult::Unparseable, ParseResult::Unparseable) => true,
        (ParseResult::NotFound, ParseResult::NotFound) => true,
        _ => false,
    }
}

impl ParseResult {
    /// The cache-comparison function: deliberately not reflexive on the
    /// success variant (see `cache_eq_spec`).
    pub fn cache_eq(&self, other: &ParseResult) -> (r: bool)
        ensures
            r == cache_eq_spec(*self, *other),
    {
        match (self, other) {
            (ParseResult::Parsed { .. }, ParseResult::Parsed { .. }) => false,
            (ParseResult::Unparseable, ParseResult::Unparseable) => true,
            (ParseResult::NotFound, ParseResult::NotFound) => true,
            _ => false,
        }
    }
}

/// Two successful results are never cache-equal, in either order, whatever
/// they hold: a successful re-parse always invalidates downstream consumers.
pub proof fn lemma_ok_never_cache_equal(a: ParseResult, b: ParseResult)
    requires
        a is Parsed,
        b is Parsed,
    ensures
        !cache_eq_spec(a, b),
        !cache_eq_spec(b, a),
{
}

/// The sentinels compare reflexively and never across variants: `NotFound`
/// is never confused with `Unparseable`.
pub proof fn lemma_sentinels_compare_by_variant(a: ParseResult, b: ParseResult)
    requires
        !(a is Parsed),
        !(b is Parsed),
    ensures
        cache_eq_spec(a, b) <==> (a is Unparseable == b is Unparseable),
        cache_eq_spec(a, a),
{
}

/// The content is readable text that the grammar accepts.
pub open spec fn content_compiles(c: SourceContent) -> bool {
    c matches SourceContent::Bytes(b) && utf8_ok(b@) && mdx_compile(b@) is Ok
}

/// Compiles readable document text and runs the transform chain over it,
/// minting the invocation's hygiene scopes and migrating the comments
/// discovered during parsing into a fresh store.
pub fn parse_content(
    text: Vec<u8>,
    parsed_comments: &Vec<Comment>,
    logical_name: &Vec<u8>,
    transforms: &Vec<Transform>,
    alloc: &mut ScopeAllocator,
) -> (r: Result<ParseResult, TransformError>)
    requires
        utf8_ok(text@),
        old(alloc).next_id() + 2 <= u64::MAX,
    ensures
        mdx_compile(text@) is Err ==> r == Ok::<ParseResult, TransformError>(ParseResult::Unparseable)
            && final(alloc).next_id() == old(alloc).next_id(),
        mdx_compile(text@) matches Ok(code) ==> {
            &&& final(alloc).next_id() == old(alloc).next_id() + 2
            &&& (r is Ok) == (chain_spec(transforms@, code) is Ok)
            &&& (r matches Ok(pr) ==> pr matches ParseResult::Parsed { program, comments }
                && chain_spec(transforms@, code) matches Ok(b) && program@ == b
                && comments@ == parsed_comments@.map(|i: int, c: Comment| c@))
            &&& (r matches Err(e) ==> chain_spec(transforms@, code) matches Err(d)
                && e.detail@ == d)
        },
{
    match compile_mdx(&text) {
        Err(_) => Ok(ParseResult::Unparseable),
        Ok(code) => {
            let scopes = alloc.fresh_pair();
            let comments = CommentStore::migrate(parsed_comments);
            let ctx = TransformContext::new(comments, scopes, clone_bytes(logical_name));
            let ast = ModuleAst { body: code };
            match apply_chain(transforms, ast, &ctx) {
                Ok(program) => Ok(ParseResult::Parsed { program, comments: ctx.comments }),
                Err(e) => Err(e),
            }
        },
    }
}

/// The whole pipeline for one document: dispatch on the reported content,
/// then compile and transform. Absent content is the `NotFound` sentinel; a
/// redirect, undecodable bytes, and grammar violations are all `Unparseable`;
/// only a transform failure is a hard error.
pub fn parse(
    source: &DocumentSource,
    transforms: &Vec<Transform>,
    alloc: &mut ScopeAllocator,
) -> (r: Result<ParseResult, TransformError>)
    requires
        old(alloc).next_id() + 2 <= u64::MAX,
    ensures
        (r == Ok::<ParseResult, TransformError>(ParseResult::NotFound)) <==> source.content is NotFound,
        source.content is Redirect ==> r == Ok::<ParseResult, TransformError>(ParseResult::Unparseable),
        source.content matches SourceContent::Bytes(b) ==> {
            let compiled = mdx_compile(b@);
            &&& (!utf8_ok(b@) ==> r == Ok::<ParseResult, TransformError>(ParseResult::Unparseable))
            &&& (utf8_ok(b@) && compiled is Err ==> r == Ok::<ParseResult, TransformError>(ParseResult::Unparseable))
            &&& (utf8_ok(b@) && compiled is Ok ==> {
                let code = compiled->Ok_0;
                &&& (r is Ok) == (chain_spec(transforms@, code) is Ok)
                &&& (r matches Ok(pr) ==> pr matches ParseResult::Parsed { program, comments }
                    && chain_spec(transforms@, code) matches Ok(b2) && program@ == b2
                    && comments@ == Seq::<(u64, Seq<u8>)>::empty())
                &&& (r matches Err(e) ==> chain_spec(transforms@, code) matches Err(d)
                    && e.detail@ == d)
            })
        },
        r matches Ok(pr) && pr is Unparseable ==> !(source.content is NotFound)
            && !content_compiles(source.content),
        content_compiles(source.content) ==> final(alloc).next_id() == old(alloc).next_id() + 2,
        !content_compiles(source.content) ==> final(alloc).next_id() == old(alloc).next_id(),
{
    match &source.content {
        SourceContent::Redirect => Ok(ParseResult::Unparseable),
        SourceContent::NotFound => Ok(ParseResult::NotFound),
        SourceContent::Bytes(bytes) => {
            if !check_utf8(bytes) {
                Ok(ParseResult::Unparseable)
            } else {
                let no_comments: Vec<Comment> = Vec::new();
                assert(no_comments@.map(|i: int, c: Comment| c@)
                    =~= Seq::<(u64, Seq<u8>)>::empty());
                let text = clone_bytes(bytes);
                parse_content(text, &no_comments, &source.path, transforms, alloc)
            }
        },
    }
}

} // verus!
