//! Hygiene-scope allocation and the comment store.
//!
//! Every invocation of the pipeline mints exactly one `unresolved` scope and
//! one `top-level` scope; reusing a scope across two concurrently compiled
//! documents would corrupt hygiene decisions, so minting is explicit: a
//! `ScopeAllocator` value is threaded through, never ambient state.

use vstd::prelude::*;
use crate::text::clone_bytes;

verus! {

/// The two identifier scopes minted once per pipeline invocation. Every
/// transform in one chain sees the same pair, and no two invocations that
/// draw from one allocator ever see overlapping pairs.
#[derive(Clone, Copy, PartialEq, Eq, Structural, Debug)]
pub struct HygieneScopes {
    /// Scope of identifiers left unresolved for the surrounding module graph.
    pub unresolved: u64,
    /// Scope of the document's own top-level bindings.
    pub top_level: u64,
}

/// A minted pair is two consecutive identifiers; consecutive pairs can
/// therefore never overlap.
pub open spec fn is_minted_pair(h: HygieneScopes) -> bool {
    h.top_level == h.unresolved + 1
}

/// Mints hygiene scopes. The next unused identifier only ever grows, so
/// every pair handed out is disjoint from every earlier one.
#[derive(Debug)]
pub struct ScopeAllocator {
    next: u64,
}

impl ScopeAllocator {
    /// The next identifier this allocator would hand out.
    pub closed spec fn next_id(&self) -> u64 {
        self.next
    }

    pub fn new() -> (r: Self)
        ensures
            r.next_id() == 0,
    {
        ScopeAllocator { next: 0 }
    }

    /// Mints the two scopes of one pipeline invocation.
    pub fn fresh_pair(&mut self) -> (r: HygieneScopes)
        requires
            old(self).next_id() + 2 <= u64::MAX,
        ensures
            is_minted_pair(r),
            r.unresolved != r.top_level,
            r.unresolved == old(self).next_id(),
            r.top_level == old(self).next_id() + 1,
            final(self).next_id() == old(self).next_id() + 2,
    {
        let unresolved = self.next;
        let top_level = self.next + 1;
        self.next = self.next + 2;
        HygieneScopes { unresolved, top_level }
    }
}

/// Scopes minted by two invocations — concurrent or not, for the same
/// document or different ones — are always distinct values: the earlier
/// pair lies strictly below everything the allocator hands out later.
pub proof fn lemma_scope_pairs_disjoint(a: HygieneScopes, b: HygieneScopes)
    requires
        is_minted_pair(a),
        is_minted_pair(b),
        a.unresolved + 2 <= b.unresolved,
    ensures
        a.unresolved != b.unresolved,
        a.unresolved != b.top_level,
        a.top_level != b.unresolved,
        a.top_level != b.top_level,
        a.unresolved != a.top_level,
        b.unresolved != b.top_level,
{
}

/// One comment discovered during parsing: its byte offset in the original
/// text and its text.
#[derive(Debug)]
pub struct Comment {
    pub pos: u64,
    pub text: Vec<u8>,
}

impl View for Comment {
    type V = (u64, Seq<u8>);

    open spec fn view(&self) -> (u64, Seq<u8>) {
        (self.pos, self.text@)
    }
}

/// Comment texts keyed by their original byte offset, in source order.
/// Shared by the transform chain and, later, by code emission.
#[derive(Debug)]
pub struct CommentStore {
    entries: Vec<Comment>,
}

impl View for CommentStore {
    type V = Seq<(u64, Seq<u8>)>;

    closed spec fn view(&self) -> Seq<(u64, Seq<u8>)> {
        self.entries@.map(|i: int, c: Comment| c@)
    }
}

impl CommentStore {
    pub fn new() -> (r: Self)
        ensures
            r@ == Seq::<(u64, Seq<u8>)>::empty(),
    {
        let r = CommentStore { entries: Vec::new() };
        assert(r@ =~= Seq::<(u64, Seq<u8>)>::empty());
        r
    }

    /// Appends one comment under its byte offset, after everything already
    /// stored: source order is preserved.
    pub fn add_leading(&mut self, pos: u64, text: Vec<u8>)
        ensures
            final(self)@ == old(self)@ + seq![(pos, text@)],
    {
        let ghost t = text@;
        self.entries.push(Comment { pos, text });
        assert(self@ =~= old(self)@ + seq![(pos, t)]);
    }

    /// The stored comment at one position, in insertion order: its byte
    /// offset and its text.
    pub fn entry(&self, i: usize) -> (r: (u64, &Vec<u8>))
        requires
            i < self@.len(),
        ensures
            r.0 == self@[i as int].0,
            r.1@ == self@[i as int].1,
    {
        let c = &self.entries[i];
        (c.pos, &c.text)
    }

    /// How many comments are stored.
    pub fn len(&self) -> (r: usize)
        ensures
            r == self@.len(),
    {
        self.entries.len()
    }

    /// Migrates the comments discovered during parsing into a fresh store,
    /// each keyed by its original byte offset, preserving source order.
    pub fn migrate(comments: &Vec<Comment>) -> (r: Self)
        ensures
            r@ == comments@.map(|i: int, c: Comment| c@),
    {
        let mut store = CommentStore::new();
        let mut i: usize = 0;
        assert(store@ =~= comments@.subrange(0, 0).map(|j: int, c: Comment| c@));
        while i < comments.len()
            invariant
                0 <= i <= comments@.len(),
                store@ == comments@.subrange(0, i as int).map(|j: int, c: Comment| c@),
            decreases comments@.len() - i,
        {
            let c = &comments[i];
            let text = clone_bytes(&c.text);
            store.add_leading(c.pos, text);
            assert(store@ =~= comments@.subrange(0, i + 1).map(|j: int, c: Comment| c@));
            i = i + 1;
        }
        assert(comments@.subrange(0, comments@.len() as int) =~= comments@);
        store
    }
}

} // verus!
