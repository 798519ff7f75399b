use vstd::prelude::*;
use crate::symbols::EdgeSet;

verus! {

/// How many times the first line glyph repeats on an edge of `span` cells: the middle
/// glyph then sits at cell `span / 2`.
pub open spec fn lead_run(span: nat) -> nat {
    if span >= 2 { (span / 2 - 1) as nat } else { 0 }
}

/// How many times the second line glyph repeats, so that the edge fills `span` cells;
/// zero where the span leaves no room.
pub open spec fn trail_run(span: nat) -> nat {
    if span >= 3 { (span - 3 - lead_run(span)) as nat } else { 0 }
}

/// `n` copies of `c`.
pub open spec fn repeat(c: char, n: nat) -> Seq<char> {
    Seq::new(n, |_i: int| c)
}

/// The first half of an edge: its start, the first line, and the middle glyph.
pub open spec fn first_half_spec(set: EdgeSet, span: nat) -> Seq<char> {
    seq![set.start] + repeat(set.rep_1, lead_run(span)) + seq![set.center]
}

/// The second half of an edge: the second line and its end.
pub open spec fn second_half_spec(set: EdgeSet, span: nat) -> Seq<char> {
    repeat(set.rep_2, trail_run(span)) + seq![set.end]
}

/// The glyphs of an edge of `span` cells.
pub open spec fn segment_text(set: EdgeSet, span: nat) -> Seq<char> {
    seq![set.start] + repeat(set.rep_1, lead_run(span)) + seq![set.center] + repeat(set.rep_2, trail_run(span))
        + seq![set.end]
}

/// How long an edge's text is: its span, but never under three glyphs.
pub proof fn lemma_segment_len(set: EdgeSet, span: nat)
    ensures
        segment_text(set, span).len() == if span >= 3 { span } else { 3 },
        first_half_spec(set, span).len() == lead_run(span) + 2,
{
}

fn push_repeat(out: &mut Vec<char>, c: char, n: usize)
    ensures
        final(out)@ == old(out)@ + repeat(c, n as nat),
{
    let ghost start = out@;
    let mut i: usize = 0;
    while i < n
        invariant
            i <= n,
            out@ == start + repeat(c, i as nat),
        decreases n - i,
    {
        out.push(c);
        i = i + 1;
        assert(out@ =~= start + repeat(c, i as nat));
    }
}

fn lead_run_exec(span: usize) -> (k: usize)
    ensures
        k == lead_run(span as nat),
{
    if span >= 2 { span / 2 - 1 } else { 0 }
}

fn trail_run_exec(span: usize) -> (k: usize)
    ensures
        k == trail_run(span as nat),
{
    if span >= 3 { span - 3 - lead_run_exec(span) } else { 0 }
}

/// Synthesizes the glyphs of one edge of `span` cells: its start, the first line up to
/// the middle cell, the middle glyph, the second line, and its end. Edges shorter
/// than three cells keep the three glyphs with both lines empty.
pub fn build_segment(set: &EdgeSet, span: usize) -> (r: Vec<char>)
    ensures
        r@ == segment_text(*set, span as nat),
        span >= 3 ==> r@.len() == span,
        span < 3 ==> r@.len() == 3,
        r@[0] == set.start,
        r@.last() == set.end,
{
    let mut out: Vec<char> = Vec::new();
    out.push(set.start);
    push_repeat(&mut out, set.rep_1, lead_run_exec(span));
    out.push(set.center);
    push_repeat(&mut out, set.rep_2, trail_run_exec(span));
    out.push(set.end);
    proof {
        lemma_segment_len(*set, span as nat);
    }
    out
}

/// Synthesizes an edge as two halves: the first runs from the start to the middle
/// glyph, the second from after it to the end.
pub fn split_segment(set: &EdgeSet, span: usize) -> (r: (Vec<char>, Vec<char>))
    ensures
        r.0@ == first_half_spec(*set, span as nat),
        r.1@ == second_half_spec(*set, span as nat),
{
    let mut first: Vec<char> = Vec::new();
    first.push(set.start);
    push_repeat(&mut first, set.rep_1, lead_run_exec(span));
    first.push(set.center);
    let mut second: Vec<char> = Vec::new();
    push_repeat(&mut second, set.rep_2, trail_run_exec(span));
    second.push(set.end);
    proof {
        assert(second@ =~= second_half_spec(*set, span as nat));
    }
    (first, second)
}

/// An edge of at least four cells is exactly as long as its span, and starts and
/// ends with its two corner glyphs.
pub proof fn lemma_segment_spans_edge(set: EdgeSet, span: nat)
    requires
        span >= 4,
    ensures
        segment_text(set, span).len() == span,
        segment_text(set, span)[0] == set.start,
        segment_text(set, span)[span - 1] == set.end,
{
    lemma_segment_len(set, span);
}

/// The two halves of a split edge, laid one after the other, cover exactly the cells
/// of the whole edge: no cell twice, none left out. The middle glyph is the last
/// glyph of the first half, and the second half holds no middle position.
pub proof fn lemma_split_coverage(set: EdgeSet, span: nat)
    ensures
        first_half_spec(set, span) + second_half_spec(set, span) == segment_text(set, span),
        first_half_spec(set, span).len() + second_half_spec(set, span).len() == segment_text(set, span).len(),
        span >= 3 ==> first_half_spec(set, span).len() + second_half_spec(set, span).len() == span,
        first_half_spec(set, span).last() == set.center,
        first_half_spec(set, span).len() == lead_run(span) + 2,
{
    assert(first_half_spec(set, span) + second_half_spec(set, span) =~= segment_text(set, span));
    lemma_segment_len(set, span);
}

} // verus!
