//! The transform chain executor and its shared context.
//!
//! Transforms are applied strictly in declared order — each one sees the
//! output of the one before it — and any failure aborts the whole chain:
//! a partially transformed AST is unsafe to cache, so the failure surfaces
//! as a hard error rather than a sentinel.

use vstd::prelude::*;
use crate::hygiene::{CommentStore, HygieneScopes};
use crate::text::{clone_bytes, contains_exec, contains_seq, fnv1a, fnv1a_spec, replace_all,
    replace_all_spec};

verus! {

/// The transformable program representation threaded through the chain: the
/// module-dialect rendering of the document, owned by one invocation.
#[derive(Debug)]
pub struct ModuleAst {
    pub body: Vec<u8>,
}

impl View for ModuleAst {
    type V = Seq<u8>;

    open spec fn view(&self) -> Seq<u8> {
        self.body@
    }
}

/// One source-to-source pass over the module AST.
#[derive(Debug)]
pub enum Transform {
    /// Renames every occurrence of one identifier to another.
    Rename { from: Vec<u8>, to: Vec<u8> },
    /// Fails when the identifier still occurs, for passes that rely on an
    /// earlier pass having removed it.
    RequireAbsent { ident: Vec<u8> },
}

/// A transform failure. Fatal to the invocation: never downgraded to a
/// cacheable sentinel.
#[derive(Debug)]
pub struct TransformError {
    /// The identifier the failing transform objected to.
    pub detail: Vec<u8>,
}

/// The context shared by every transform in one chain: the comment store,
/// the invocation's two hygiene scopes, and the document's logical name with
/// its content-addressed hash.
#[derive(Debug)]
pub struct TransformContext {
    pub comments: CommentStore,
    pub scopes: HygieneScopes,
    pub logical_name: Vec<u8>,
    pub content_hash: u64,
}

/// A well-formed context keeps the two hygiene scopes distinct and the hash
/// tied to the logical name.
pub open spec fn context_wf(ctx: TransformContext) -> bool {
    &&& ctx.scopes.unresolved != ctx.scopes.top_level
    &&& ctx.content_hash == fnv1a_spec(ctx.logical_name@)
}

impl TransformContext {
    pub fn new(comments: CommentStore, scopes: HygieneScopes, logical_name: Vec<u8>) -> (r: Self)
        requires
            scopes.unresolved != scopes.top_level,
        ensures
            r.comments == comments,
            r.scopes == scopes,
            r.logical_name@ == logical_name@,
            r.content_hash == fnv1a_spec(logical_name@),
            context_wf(r),
    {
        let content_hash = fnv1a(&logical_name);
        TransformContext { comments, scopes, logical_name, content_hash }
    }
}

/// What one transform yields on a given AST body.
pub open spec fn apply_spec(t: Transform, body: Seq<u8>) -> Result<Seq<u8>, Seq<u8>> {
    match t {
        Transform::Rename { from, to } => Ok(replace_all_spec(body, from@, to@)),
        Transform::RequireAbsent { ident } => if contains_seq(body, ident@) {
            Err(ident@)
        } else {
            Ok(body)
        },
    }
}

/// What a whole chain yields: the transforms folded over the body in
/// declared order, stopping at the first failure.
pub open spec fn chain_spec(ts: Seq<Transform>, body: Seq<u8>) -> Result<Seq<u8>, Seq<u8>>
    decreases ts.len(),
{
    if ts.len() == 0 {
        Ok(body)
    } else {
        match apply_spec(ts[0], body) {
            Ok(next) => chain_spec(ts.drop_first(), next),
            Err(e) => Err(e),
        }
    }
}

/// Chains compose sequentially: running one chain and then another is
/// running their concatenation, so a later transform always sees the output
/// of everything declared before it, and an early failure short-circuits
/// whatever follows.
pub proof fn lemma_chain_composes(ts1: Seq<Transform>, ts2: Seq<Transform>, body: Seq<u8>)
    ensures
        chain_spec(ts1 + ts2, body) == (match chain_spec(ts1, body) {
            Ok(mid) => chain_spec(ts2, mid),
            Err(e) => Err(e),
        }),
    decreases ts1.len(),
{
    if ts1.len() == 0 {
        assert(ts1 + ts2 =~= ts2);
    } else {
        assert((ts1 + ts2)[0] == ts1[0]);
        assert((ts1 + ts2).drop_first() =~= ts1.drop_first() + ts2);
        match apply_spec(ts1[0], body) {
            Ok(next) => lemma_chain_composes(ts1.drop_first(), ts2, next),
            Err(_) => {},
        }
    }
}

/// Applies one transform to the AST under the shared context.
pub fn apply_transform(t: &Transform, ast: ModuleAst, _ctx: &TransformContext) -> (r: Result<
    ModuleAst,
    TransformError,
>)
    ensures
        (r is Ok) == (apply_spec(*t, ast@) is Ok),
        r matches Ok(out) ==> apply_spec(*t, ast@) matches Ok(b) && out@ == b,
        r matches Err(e) ==> apply_spec(*t, ast@) matches Err(d) && e.detail@ == d,
{
    match t {
        Transform::Rename { from, to } => {
            let body = replace_all(&ast.body, from, to);
            Ok(ModuleAst { body })
        },
        Transform::RequireAbsent { ident } => {
            if contains_exec(&ast.body, ident) {
                Err(TransformError { detail: clone_bytes(ident) })
            } else {
                Ok(ast)
            }
        },
    }
}

/// Applies the transforms strictly in declared order — transform `i + 1`
/// sees the output of transform `i` — and aborts the whole chain on the
/// first failure.
pub fn apply_chain(transforms: &Vec<Transform>, ast: ModuleAst, ctx: &TransformContext) -> (r:
    Result<ModuleAst, TransformError>)
    ensures
        (r is Ok) == (chain_spec(transforms@, ast@) is Ok),
        r matches Ok(out) ==> chain_spec(transforms@, ast@) matches Ok(b) && out@ == b,
        r matches Err(e) ==> chain_spec(transforms@, ast@) matches Err(d) && e.detail@ == d,
{
    let mut cur = ast;
    let mut i: usize = 0;
    assert(transforms@.subrange(0, transforms@.len() as int) =~= transforms@);
    while i < transforms.len()
        invariant
            0 <= i <= transforms@.len(),
            chain_spec(transforms@, ast@) == chain_spec(
                transforms@.subrange(i as int, transforms@.len() as int),
                cur@,
            ),
        decreases transforms@.len() - i,
    {
        let ghost rest = transforms@.subrange(i as int, transforms@.len() as int);
        proof {
            assert(rest[0] == transforms@[i as int]);
            assert(rest.drop_first() =~= transforms@.subrange(i + 1, transforms@.len() as int));
        }
        let t = &transforms[i];
        match apply_transform(t, cur, ctx) {
            Ok(next) => {
                cur = next;
            },
            Err(e) => {
                return Err(e);
            },
        }
        i = i + 1;
    }
    assert(transforms@.subrange(transforms@.len() as int, transforms@.len() as int)
        =~= Seq::<Transform>::empty());
    Ok(cur)
}

} // verus!
