//! Rich-text spans and their plain-text rendering.
//!
//! A span is one styled run of text; only its plain-text projection is used
//! downstream. Rendering a sequence of spans concatenates the projections in
//! sequence order, with no separator and no styling markers.

use vstd::prelude::*;

verus! {

/// One styled run of text within a block's textual content.
#[derive(Debug, Clone, PartialEq, Eq)]
pub struct RichSpan {
    /// The plain-text projection of the run, styling dropped.
    pub plain_text: String,
}

/// The plain-text concatenation of a sequence of spans, in sequence order.
pub open spec fn spans_text(spans: Seq<RichSpan>) -> Seq<char>
    decreases spans.len(),
{
    if spans.len() == 0 {
        Seq::empty()
    } else {
        spans_text(spans.drop_last()) + spans.last().plain_text@
    }
}

/// The total length of the plain-text content of a sequence of spans.
pub open spec fn spans_total_len(spans: Seq<RichSpan>) -> nat
    decreases spans.len(),
{
    if spans.len() == 0 {
        0
    } else {
        spans_total_len(spans.drop_last()) + spans.last().plain_text@.len()
    }
}

/// Renders spans to their plain-text concatenation, in order, with nothing
/// inserted and nothing dropped. An empty sequence yields an empty string.
pub fn render_rich_text(spans: &Vec<RichSpan>) -> (r: String)
    ensures
        r@ == spans_text(spans@),
{
    let mut r = String::new();
    let mut i: usize = 0;
    while i < spans.len()
        invariant
            i <= spans.len(),
            r@ == spans_text(spans@.subrange(0, i as int)),
        decreases spans.len() - i,
    {
        r.append(spans[i].plain_text.as_str());
        proof {
            assert(spans@.subrange(0, i + 1 as int).drop_last() == spans@.subrange(0, i as int));
            assert(spans@.subrange(0, i + 1 as int).last() == spans@[i as int]);
        }
        i = i + 1;
    }
    proof {
        assert(spans@.subrange(0, spans@.len() as int) == spans@);
    }
    r
}

/// Rendering spans is order-preserving: the text of two sequences of spans
/// laid end to end is the text of the first followed by the text of the
/// second.
pub proof fn lemma_spans_text_additive(a: Seq<RichSpan>, b: Seq<RichSpan>)
    ensures
        spans_text(a + b) == spans_text(a) + spans_text(b),
    decreases b.len(),
{
    if b.len() == 0 {
        assert(a + b == a);
        assert(spans_text(a) + Seq::<char>::empty() == spans_text(a));
    } else {
        lemma_spans_text_additive(a, b.drop_last());
        assert((a + b).drop_last() == a + b.drop_last());
        assert((a + b).last() == b.last());
        assert(spans_text(a) + spans_text(b.drop_last()) + b.last().plain_text@ == spans_text(a)
            + spans_text(b));
    }
}

/// Rendering spans is length-additive: no span's content is dropped, so the
/// rendered length is the sum of the spans' plain-text lengths.
pub proof fn lemma_spans_text_length(spans: Seq<RichSpan>)
    ensures
        spans_text(spans).len() == spans_total_len(spans),
    decreases spans.len(),
{
    if spans.len() > 0 {
        lemma_spans_text_length(spans.drop_last());
    }
}

} // verus!
