use vstd::prelude::*;
use crate::color::{colorize_widths_spec, cell_width, gradient_text, GradientError, GradientSpec, Rgb};
use crate::layout::{Cell, Rect};
use crate::segment::{build_segment, first_half_spec, lemma_split_coverage, second_half_spec, segment_text, split_segment};
use crate::symbols::{plain_segment_set, EdgeSet, SegmentSet};

verus! {

/// A gradient that is attached but has fewer than two colors.
pub open spec fn insufficient(g: Option<GradientSpec>) -> bool {
    g is Some && g->0.colors@.len() < 2
}

/// The color a glyph of `text` gets: none without a gradient, else its place on the
/// gradient spread over the text's columns.
pub open spec fn glyph_color(g: Option<GradientSpec>, text: Seq<char>, i: int) -> Option<Rgb> {
    match g {
        None => None,
        Some(g) => Some(
            colorize_widths_spec(g.colors@, g.factor as nat, text.map_values(|c: char| cell_width(c)))[i],
        ),
    }
}

/// The cells of a run of glyphs from `(x, y)`, along a row or down a column, cut
/// after `limit` cells.
pub open spec fn run_spec(text: Seq<char>, g: Option<GradientSpec>, x: u16, y: u16, vertical: bool, limit: nat) -> Seq<Cell> {
    Seq::new(run_len(text, limit), |i: int| run_cell(text, g, x, y, vertical, i))
}

/// How many glyphs of a run are drawn: all of them, or the first `limit`.
pub open spec fn run_len(text: Seq<char>, limit: nat) -> nat {
    if text.len() < limit { text.len() } else { limit }
}

/// The cell of the `i`-th glyph of a run.
pub open spec fn run_cell(text: Seq<char>, g: Option<GradientSpec>, x: u16, y: u16, vertical: bool, i: int) -> Cell {
    Cell {
        x: if vertical { x } else { (x + i) as u16 },
        y: if vertical { (y + i) as u16 } else { y },
        symbol: text[i],
        fg: glyph_color(g, text, i),
    }
}

/// Lays a run of glyphs out as cells, colored by the gradient if one is attached.
/// Fails exactly when the attached gradient has fewer than two colors.
pub fn run_cells(text: &Vec<char>, g: &Option<GradientSpec>, x: u16, y: u16, vertical: bool, limit: u16) -> (r:
    Result<Vec<Cell>, GradientError>)
    requires
        text@.len() <= usize::MAX / 2,
        vertical ==> y + limit <= u16::MAX,
        !vertical ==> x + limit <= u16::MAX,
    ensures
        insufficient(*g) <==> r is Err,
        r is Err ==> r == Err::<Vec<Cell>, GradientError>(GradientError::InsufficientColors),
        r matches Ok(v) ==> v@ == run_spec(text@, *g, x, y, vertical, limit as nat),
{
    let n: usize = if text.len() < limit as usize { text.len() } else { limit as usize };
    let ghost want = run_spec(text@, *g, x, y, vertical, limit as nat);
    assert(want.len() == n);
    let mut out: Vec<Cell> = Vec::new();
    match g {
        None => {
            let mut i: usize = 0;
            while i < n
                invariant
                    i <= n,
                    n == want.len(),
                    n <= text@.len(),
                    n <= limit,
                    g is None,
                    want == run_spec(text@, *g, x, y, vertical, limit as nat),
                    vertical ==> y + limit <= u16::MAX,
                    !vertical ==> x + limit <= u16::MAX,
                    out@.len() == i,
                    forall|j: int| 0 <= j < i ==> out@[j] == want[j],
                decreases n - i,
            {
                let cx: u16 = if vertical { x } else { x + i as u16 };
                let cy: u16 = if vertical { y + i as u16 } else { y };
                out.push(Cell { x: cx, y: cy, symbol: text[i], fg: None });
                assert(out@[i as int] == want[i as int]);
                i = i + 1;
            }
        },
        Some(grad) => {
            let colored = match gradient_text(grad, text) {
                Ok(v) => v,
                Err(e) => {
                    return Err(e);
                },
            };
            let mut i: usize = 0;
            while i < n
                invariant
                    i <= n,
                    n == want.len(),
                    n <= text@.len(),
                    n <= limit,
                    *g == Some(*grad),
                    colored@.len() == text@.len(),
                    forall|k: int| 0 <= k < colored@.len() ==> colored@[k] == (text@[k],
                        colorize_widths_spec(grad.colors@, grad.factor as nat,
                            text@.map_values(|c: char| cell_width(c)))[k]),
                    want == run_spec(text@, *g, x, y, vertical, limit as nat),
                    vertical ==> y + limit <= u16::MAX,
                    !vertical ==> x + limit <= u16::MAX,
                    out@.len() == i,
                    forall|j: int| 0 <= j < i ==> out@[j] == want[j],
                decreases n - i,
            {
                let cx: u16 = if vertical { x } else { x + i as u16 };
                let cy: u16 = if vertical { y + i as u16 } else { y };
                let (ch, c) = colored[i];
                out.push(Cell { x: cx, y: cy, symbol: ch, fg: Some(c) });
                assert(out@[i as int] == want[i as int]);
                i = i + 1;
            }
        },
    }
    assert(out@ =~= want);
    Ok(out)
}


/// One edge of a border: its glyphs, an optional gradient, and whether it is drawn.
/// A split edge is drawn as two halves, the first colored by `gradient`, the second
/// by `second_gradient`.
#[derive(Clone, Debug)]
pub struct BorderSegment {
    pub should_be_rendered: bool,
    pub symbol_set: EdgeSet,
    pub gradient: Option<GradientSpec>,
    pub split: bool,
    pub second_gradient: Option<GradientSpec>,
}

/// A drawn, unsplit edge with the given glyphs and no gradient.
pub open spec fn fresh_segment(set: EdgeSet) -> BorderSegment {
    BorderSegment { should_be_rendered: true, symbol_set: set, gradient: None, split: false, second_gradient: None }
}

impl BorderSegment {
    /// A drawn, unsplit edge with the given glyphs and no gradient.
    pub fn new(set: EdgeSet) -> (r: BorderSegment)
        ensures
            r == fresh_segment(set),
    {
        BorderSegment { should_be_rendered: true, symbol_set: set, gradient: None, split: false, second_gradient: None }
    }
}

/// Whether drawing an edge fails: it is drawn and one of its gradients has too few colors.
pub open spec fn edge_fails(seg: BorderSegment) -> bool {
    seg.should_be_rendered && (insufficient(seg.gradient) || (seg.split && insufficient(seg.second_gradient)))
}

/// The cells of an edge of `span` cells starting at `(x, y)`.
pub open spec fn edge_spec(seg: BorderSegment, x: u16, y: u16, vertical: bool, span: nat) -> Seq<Cell> {
    if !seg.should_be_rendered {
        Seq::empty()
    } else if !seg.split {
        run_spec(segment_text(seg.symbol_set, span), seg.gradient, x, y, vertical, span)
    } else {
        let first = first_half_spec(seg.symbol_set, span);
        let n1 = first.len();
        if n1 >= span {
            run_spec(first, seg.gradient, x, y, vertical, span)
        } else {
            run_spec(first, seg.gradient, x, y, vertical, span) + run_spec(
                second_half_spec(seg.symbol_set, span),
                seg.second_gradient,
                if vertical { x } else { (x + n1) as u16 },
                if vertical { (y + n1) as u16 } else { y },
                vertical,
                (span - n1) as nat,
            )
        }
    }
}

/// Drawn as two halves, an edge of at least three cells puts the second half's first
/// cell right after the first half's last one: together the halves write the same
/// glyphs at the same cells as the whole edge, no cell twice and none left out.
pub proof fn lemma_split_edge_cells(seg: BorderSegment, x: u16, y: u16, vertical: bool, span: nat)
    requires
        seg.should_be_rendered,
        span >= 3,
        vertical ==> y + span <= u16::MAX,
        !vertical ==> x + span <= u16::MAX,
    ensures
        ({
            let halves = edge_spec(BorderSegment { split: true, ..seg }, x, y, vertical, span);
            let whole = edge_spec(BorderSegment { split: false, ..seg }, x, y, vertical, span);
            &&& halves.len() == span
            &&& whole.len() == span
            &&& forall|i: int| 0 <= i < span ==> {
                &&& #[trigger] halves[i].x == whole[i].x
                &&& halves[i].y == whole[i].y
                &&& halves[i].symbol == whole[i].symbol
            }
        }),
{
    let set = seg.symbol_set;
    let first = first_half_spec(set, span);
    let second = second_half_spec(set, span);
    let full = segment_text(set, span);
    lemma_split_coverage(set, span);
    let n1 = first.len();
    assert(n1 < span);
    let a = run_spec(first, seg.gradient, x, y, vertical, span);
    let b = run_spec(
        second,
        seg.second_gradient,
        if vertical { x } else { (x + n1) as u16 },
        if vertical { (y + n1) as u16 } else { y },
        vertical,
        (span - n1) as nat,
    );
    let halves = edge_spec(BorderSegment { split: true, ..seg }, x, y, vertical, span);
    let whole = edge_spec(BorderSegment { split: false, ..seg }, x, y, vertical, span);
    assert(halves == a + b);
    assert(whole == run_spec(full, seg.gradient, x, y, vertical, span));
    assert forall|i: int| 0 <= i < span implies {
        &&& #[trigger] halves[i].x == whole[i].x
        &&& halves[i].y == whole[i].y
        &&& halves[i].symbol == whole[i].symbol
    } by {
        if i < n1 {
            assert(halves[i] == a[i]);
            assert(full[i] == first[i]);
        } else {
            assert(halves[i] == b[i - n1]);
            assert(full[i] == second[i - n1]);
        }
    }
}

/// Lays an edge of `span` cells out from `(x, y)`, along a row or down a column.
/// Fails exactly when the edge is drawn with a gradient of fewer than two colors.
pub fn edge_cells(seg: &BorderSegment, x: u16, y: u16, vertical: bool, span: u16) -> (r: Result<Vec<Cell>, GradientError>)
    requires
        vertical ==> y + span <= u16::MAX,
        !vertical ==> x + span <= u16::MAX,
    ensures
        edge_fails(*seg) <==> r is Err,
        r is Err ==> r == Err::<Vec<Cell>, GradientError>(GradientError::InsufficientColors),
        r matches Ok(v) ==> v@ == edge_spec(*seg, x, y, vertical, span as nat),
{
    if !seg.should_be_rendered {
        return Ok(Vec::new());
    }
    if !seg.split {
        let text = build_segment(&seg.symbol_set, span as usize);
        return run_cells(&text, &seg.gradient, x, y, vertical, span);
    }
    let (first, second) = split_segment(&seg.symbol_set, span as usize);
    proof {
        lemma_split_coverage(seg.symbol_set, span as nat);
    }
    let mut cells = run_cells(&first, &seg.gradient, x, y, vertical, span)?;
    let n1 = first.len();
    if n1 >= span as usize {
        match &seg.second_gradient {
            Some(g2) => {
                if g2.colors.len() < 2 {
                    return Err(GradientError::InsufficientColors);
                }
            },
            None => {},
        }
        return Ok(cells);
    }
    let n1 = n1 as u16;
    let sx: u16 = if vertical { x } else { x + n1 };
    let sy: u16 = if vertical { y + n1 } else { y };
    let mut rest = run_cells(&second, &seg.second_gradient, sx, sy, vertical, span - n1)?;
    cells.append(&mut rest);
    Ok(cells)
}


/// The four edges of a border.
#[derive(Clone, Debug)]
pub struct BorderSegments {
    pub top: BorderSegment,
    pub bottom: BorderSegment,
    pub left: BorderSegment,
    pub right: BorderSegment,
}

impl BorderSegments {
    /// Four drawn edges with the plain glyphs.
    pub open spec fn new_spec() -> BorderSegments {
        BorderSegments {
            top: fresh_segment(plain_segment_set().top),
            bottom: fresh_segment(plain_segment_set().bottom),
            left: fresh_segment(plain_segment_set().left),
            right: fresh_segment(plain_segment_set().right),
        }
    }

    /// Four drawn edges with the host's plain glyphs.
    pub fn new() -> (r: BorderSegments)
        ensures
            r == BorderSegments::new_spec(),
    {
        let set = SegmentSet::plain();
        BorderSegments {
            top: BorderSegment::new(set.top),
            bottom: BorderSegment::new(set.bottom),
            left: BorderSegment::new(set.left),
            right: BorderSegment::new(set.right),
        }
    }

    /// The same edges drawing the glyphs of `set`; nothing else changes.
    pub fn from_segment_set(self, set: SegmentSet) -> (r: BorderSegments)
        ensures
            r.top == (BorderSegment { symbol_set: set.top, ..self.top }),
            r.bottom == (BorderSegment { symbol_set: set.bottom, ..self.bottom }),
            r.left == (BorderSegment { symbol_set: set.left, ..self.left }),
            r.right == (BorderSegment { symbol_set: set.right, ..self.right }),
    {
        let mut r = self;
        r.top.symbol_set = set.top;
        r.bottom.symbol_set = set.bottom;
        r.left.symbol_set = set.left;
        r.right.symbol_set = set.right;
        r
    }
}

impl Default for BorderSegments {
    fn default() -> (r: Self)
        ensures
            r == BorderSegments::new_spec(),
    {
        BorderSegments::new()
    }
}

/// Whether drawing the border fails: one of its edges fails.
pub open spec fn border_fails(b: BorderSegments) -> bool {
    edge_fails(b.left) || edge_fails(b.right) || edge_fails(b.top) || edge_fails(b.bottom)
}

/// The cells of a border on `area`: left and right edges down the first and last
/// columns, then top and bottom edges along the first and last rows. An empty area
/// gets none.
pub open spec fn border_spec(b: BorderSegments, area: Rect) -> Seq<Cell> {
    if area.width == 0 || area.height == 0 {
        Seq::empty()
    } else {
        edge_spec(b.left, area.x, area.y, true, area.height as nat)
            + edge_spec(b.right, (area.x + area.width - 1) as u16, area.y, true, area.height as nat)
            + edge_spec(b.top, area.x, area.y, false, area.width as nat)
            + edge_spec(b.bottom, area.x, (area.y + area.height - 1) as u16, false, area.width as nat)
    }
}

/// Lays the border out on `area`. Fails exactly when a drawn edge has a gradient of
/// fewer than two colors.
pub fn border_cells(b: &BorderSegments, area: Rect) -> (r: Result<Vec<Cell>, GradientError>)
    requires
        area.wf(),
    ensures
        border_fails(*b) <==> r is Err,
        r is Err ==> r == Err::<Vec<Cell>, GradientError>(GradientError::InsufficientColors),
        r matches Ok(v) ==> v@ == border_spec(*b, area),
{
    let left = edge_cells(&b.left, area.x, area.y, true, area.height);
    let right = edge_cells(&b.right, if area.width > 0 { area.x + area.width - 1 } else { area.x }, area.y, true, area.height);
    let top = edge_cells(&b.top, area.x, area.y, false, area.width);
    let bottom = edge_cells(&b.bottom, area.x, if area.height > 0 { area.y + area.height - 1 } else { area.y }, false, area.width);
    let mut out = left?;
    let mut right = right?;
    let mut top = top?;
    let mut bottom = bottom?;
    if area.width == 0 || area.height == 0 {
        return Ok(Vec::new());
    }
    out.append(&mut right);
    out.append(&mut top);
    out.append(&mut bottom);
    Ok(out)
}

} // verus!
