//! Cursor-paginated retrieval of block children.
//!
//! The remote API hands back one batch of results at a time together with an
//! optional continuation token; absence of a token means end-of-sequence.
//! `ChildFetch` accumulates the batches in received order and counts the
//! remote calls, so the caller's loop only performs the remote call and hands
//! each batch in.

use vstd::prelude::*;

use crate::block::Block;

verus! {

/// One result batch plus an optional continuation token.
#[derive(Debug, PartialEq, Eq)]
pub struct CursorPage<T> {
    /// The batch of results, in the order the server returned them.
    pub results: Vec<T>,
    /// The continuation token; absence means end-of-sequence.
    pub next_cursor: Option<String>,
}

/// The concatenation of every batch of a run, in received order.
pub open spec fn batches_concat(pages: Seq<CursorPage<Block>>) -> Seq<Block>
    decreases pages.len(),
{
    if pages.len() == 0 {
        Seq::empty()
    } else {
        pages[0].results@ + batches_concat(pages.drop_first())
    }
}

/// The accumulated sequence after absorbing every page of a run, in order,
/// starting from what was already collected.
pub open spec fn absorb_all(init: Seq<Block>, pages: Seq<CursorPage<Block>>) -> Seq<Block>
    decreases pages.len(),
{
    if pages.len() == 0 {
        init
    } else {
        absorb_all(init + pages[0].results@, pages.drop_first())
    }
}

/// How many pages of a run carry a continuation token.
pub open spec fn cursor_hops(pages: Seq<CursorPage<Block>>) -> nat
    decreases pages.len(),
{
    if pages.len() == 0 {
        0
    } else {
        (if pages[0].next_cursor is Some {
            1nat
        } else {
            0nat
        }) + cursor_hops(pages.drop_first())
    }
}

/// A complete run as the server reports one: every page but the last carries
/// a continuation token, and the last does not.
pub open spec fn complete_run(pages: Seq<CursorPage<Block>>) -> bool {
    &&& pages.len() > 0
    &&& pages.last().next_cursor is None
    &&& forall|i: int| 0 <= i < pages.len() - 1 ==> pages[i].next_cursor is Some
}

/// Accumulator for one paginated children fetch: the blocks collected so far,
/// in received order, and the number of remote calls absorbed.
pub struct ChildFetch {
    /// Every block received so far, batches laid end to end in received
    /// order.
    pub collected: Vec<Block>,
    /// How many result pages have been absorbed; one per remote call.
    pub calls: u64,
}

impl ChildFetch {
    /// A fetch that has received nothing and made no call.
    pub fn new() -> (r: ChildFetch)
        ensures
            r.collected@ == Seq::<Block>::empty(),
            r.calls == 0,
    {
        ChildFetch { collected: Vec::new(), calls: 0 }
    }

    /// Absorbs one result page: appends its batch to what is collected, in
    /// received order, counts the call, and hands back the continuation
    /// token. A token present means the caller must fetch again; absence
    /// means the run is complete.
    pub fn absorb(&mut self, page: CursorPage<Block>) -> (cont: Option<String>)
        requires
            old(self).calls < u64::MAX,
        ensures
            final(self).collected@ == old(self).collected@ + page.results@,
            final(self).calls == old(self).calls + 1,
            cont == page.next_cursor,
    {
        let CursorPage { mut results, next_cursor } = page;
        self.collected.append(&mut results);
        self.calls = self.calls + 1;
        next_cursor
    }

    /// Hands out everything collected, ending the fetch.
    pub fn into_blocks(self) -> (r: Vec<Block>)
        ensures
            r@ == self.collected@,
    {
        self.collected
    }
}

/// Absorbing a run of pages starting from an already-collected prefix yields
/// that prefix followed by the concatenation of every batch, in received
/// order.
pub proof fn lemma_absorb_all_concat(init: Seq<Block>, pages: Seq<CursorPage<Block>>)
    ensures
        absorb_all(init, pages) == init + batches_concat(pages),
    decreases pages.len(),
{
    if pages.len() == 0 {
        assert(init + batches_concat(pages) =~= init);
    } else {
        lemma_absorb_all_concat(init + pages[0].results@, pages.drop_first());
        assert(init + pages[0].results@ + batches_concat(pages.drop_first()) =~= init + (
        pages[0].results@ + batches_concat(pages.drop_first())));
    }
}

/// Over a complete run, the fetcher's output is the concatenation of every
/// batch in received order, and the number of calls made — one per page — is
/// the number of continuation-token hops plus one.
pub proof fn lemma_fetch_run(pages: Seq<CursorPage<Block>>)
    requires
        complete_run(pages),
    ensures
        absorb_all(Seq::empty(), pages) == batches_concat(pages),
        pages.len() == cursor_hops(pages) + 1,
    decreases pages.len(),
{
    lemma_absorb_all_concat(Seq::empty(), pages);
    assert(Seq::empty() + batches_concat(pages) =~= batches_concat(pages));
    if pages.len() == 1 {
        assert(cursor_hops(pages.drop_first()) == 0);
    } else {
        assert(pages[0].next_cursor is Some);
        assert(pages.drop_first().last() == pages.last());
        assert(forall|i: int|
            0 <= i < pages.drop_first().len() - 1 ==> pages.drop_first()[i] == pages[i + 1]);
        lemma_fetch_run(pages.drop_first());
    }
}

} // verus!
