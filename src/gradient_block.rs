use vstd::prelude::*;
use crate::border_segment::{border_cells, border_fails, border_spec, insufficient, BorderSegments};
use crate::color::{GradientError, Rgb};
use crate::fill::{fill_fails, fill_glyphs, fill_spec, Fill};
use crate::layout::{inner_spec, Cell, Margin, Padding, Rect};
use crate::title::{title_cells, title_spec, Title};

verus! {

/// A bordered block with an optional fill and titles, each part optionally drawn
/// with a color gradient.
#[derive(Clone, Debug)]
pub struct GradientBlock {
    pub fill: Fill,
    pub titles: Vec<Title>,
    pub bg: Option<Rgb>,
    pub border_segments: BorderSegments,
    pub padding: Padding,
    pub margin: Margin,
}

impl Default for GradientBlock {
    fn default() -> (r: Self)
        ensures
            r.fill.fill_string is None && r.fill.gradient is None,
            r.titles@.len() == 0,
            r.bg is None,
            r.border_segments == BorderSegments::new_spec(),
            r.padding == (Padding { left: 0, right: 0, top: 0, bottom: 0 }),
            r.margin == (Margin { horizontal: 0, vertical: 0 }),
    {
        GradientBlock::new()
    }
}

/// What one render pass draws, in order: the fill as a wrapped paragraph under
/// everything, then `cells` one after the other, the titles' cells from
/// `title_start` on, then the background color over the area.
#[derive(Clone, Debug)]
pub struct RenderPlan {
    pub fill: Vec<(char, Option<Rgb>)>,
    pub cells: Vec<Cell>,
    pub title_start: usize,
    pub bg: Option<Rgb>,
}

/// Whether some title has a gradient of too few colors.
pub open spec fn titles_fail(ts: Seq<Title>) -> bool {
    exists|i: int| 0 <= i < ts.len() && #[trigger] insufficient(ts[i].gradient)
}

/// The cells of the titles, each title after the ones before it.
pub open spec fn titles_spec(ts: Seq<Title>, area: Rect, padding: Padding, margin: Margin) -> Seq<Cell>
    decreases ts.len(),
{
    if ts.len() == 0 {
        Seq::empty()
    } else {
        titles_spec(ts.drop_last(), area, padding, margin) + title_spec(ts.last(), area, padding, margin)
    }
}

/// Whether a render pass fails: the fill, a drawn edge or a title has a gradient of
/// fewer than two colors.
pub open spec fn render_fails(b: GradientBlock) -> bool {
    fill_fails(b.fill) || border_fails(b.border_segments) || titles_fail(b.titles@)
}

/// Whether `area` is small enough for every glyph of a render pass to be counted.
pub open spec fn renderable(b: GradientBlock, area: Rect) -> bool {
    &&& area.wf()
    &&& (area.width as int) * (area.height as int) <= usize::MAX / 2
    &&& forall|i: int| 0 <= i < b.titles@.len() ==> #[trigger] b.titles@[i].text@.len() <= usize::MAX / 2
}

impl GradientBlock {
    /// A block with a plain border on all four edges, no fill and no titles.
    pub fn new() -> (r: GradientBlock)
        ensures
            r.fill.fill_string is None && r.fill.gradient is None,
            r.titles@.len() == 0,
            r.bg is None,
            r.border_segments == BorderSegments::new_spec(),
            r.padding == (Padding { left: 0, right: 0, top: 0, bottom: 0 }),
            r.margin == (Margin { horizontal: 0, vertical: 0 }),
    {
        GradientBlock {
            fill: Fill::new(),
            titles: Vec::new(),
            bg: None,
            border_segments: BorderSegments::new(),
            padding: Padding::zero(),
            margin: Margin::new(0, 0),
        }
    }

    /// Plans one render pass on `area`: the fill first, then the border on the area
    /// less its margin, then the titles, so that a later glyph covers an earlier one.
    /// Fails, before anything is drawn, exactly when the fill, a drawn edge or a title
    /// has a gradient of fewer than two colors.
    pub fn render(&self, area: Rect) -> (r: Result<RenderPlan, GradientError>)
        requires
            renderable(*self, area),
        ensures
            render_fails(*self) <==> r is Err,
            r is Err ==> r == Err::<RenderPlan, GradientError>(GradientError::InsufficientColors),
            r matches Ok(p) ==> {
                let border = border_spec(self.border_segments, inner_spec(area, self.margin));
                &&& p.fill@ == fill_spec(self.fill, area)
                &&& p.cells@ == border + titles_spec(self.titles@, area, self.padding, self.margin)
                &&& p.title_start == border.len()
                &&& p.bg == self.bg
            },
    {
        let fill = fill_glyphs(&self.fill, area)?;
        let inner = area.inner(self.margin);
        let mut cells = border_cells(&self.border_segments, inner)?;
        let title_start = cells.len();
        let ghost border = cells@;
        let mut i: usize = 0;
        while i < self.titles.len()
            invariant
                i <= self.titles@.len(),
                renderable(*self, area),
                !fill_fails(self.fill),
                !border_fails(self.border_segments),
                forall|k: int| 0 <= k < i ==> !insufficient(#[trigger] self.titles@[k].gradient),
                border.len() == title_start,
                cells@ == border + titles_spec(self.titles@.take(i as int), area, self.padding, self.margin),
            decreases self.titles@.len() - i,
        {
            let t = &self.titles[i];
            let mut more = title_cells(t, area, self.padding, self.margin)?;
            proof {
                assert(self.titles@.take(i + 1).drop_last() =~= self.titles@.take(i as int));
            }
            cells.append(&mut more);
            i = i + 1;
        }
        assert(self.titles@.take(self.titles@.len() as int) =~= self.titles@);
        Ok(RenderPlan { fill, cells, title_start, bg: self.bg })
    }
}


/// The glyphs on screen after `cells` are written, one after the other, over
/// `canvas`: a later glyph replaces an earlier one at the same cell.
pub open spec fn paint(canvas: Map<(u16, u16), char>, cells: Seq<Cell>) -> Map<(u16, u16), char>
    decreases cells.len(),
{
    if cells.len() == 0 {
        canvas
    } else {
        paint(canvas, cells.drop_last()).insert((cells.last().x, cells.last().y), cells.last().symbol)
    }
}

proof fn lemma_paint_append(canvas: Map<(u16, u16), char>, a: Seq<Cell>, b: Seq<Cell>)
    ensures
        paint(canvas, a + b) == paint(paint(canvas, a), b),
    decreases b.len(),
{
    if b.len() == 0 {
        assert(a + b =~= a);
    } else {
        assert((a + b).drop_last() =~= a + b.drop_last());
        lemma_paint_append(canvas, a, b.drop_last());
    }
}

proof fn lemma_paint_covered(c1: Map<(u16, u16), char>, c2: Map<(u16, u16), char>, b: Seq<Cell>, j: int)
    requires
        0 <= j < b.len(),
    ensures
        paint(c1, b).contains_key((b[j].x, b[j].y)),
        paint(c1, b)[(b[j].x, b[j].y)] == paint(c2, b)[(b[j].x, b[j].y)],
    decreases b.len(),
{
    if j < b.len() - 1 {
        lemma_paint_covered(c1, c2, b.drop_last(), j);
    }
}

/// Wherever a title puts a glyph, the screen shows the titles' glyph there, whatever
/// the fill drew before and whatever the border drew: titles are written last.
pub proof fn lemma_titles_drawn_last(b: GradientBlock, area: Rect, plan: RenderPlan, fill_canvas: Map<(u16, u16), char>, j: int)
    requires
        plan.cells@ == border_spec(b.border_segments, inner_spec(area, b.margin))
            + titles_spec(b.titles@, area, b.padding, b.margin),
        plan.title_start == border_spec(b.border_segments, inner_spec(area, b.margin)).len(),
        plan.title_start <= j < plan.cells@.len(),
    ensures
        ({
            let titles = plan.cells@.subrange(plan.title_start as int, plan.cells@.len() as int);
            let at = (plan.cells@[j].x, plan.cells@[j].y);
            paint(fill_canvas, plan.cells@)[at] == paint(Map::empty(), titles)[at]
        }),
{
    let border = border_spec(b.border_segments, inner_spec(area, b.margin));
    let titles = titles_spec(b.titles@, area, b.padding, b.margin);
    assert(plan.cells@.subrange(plan.title_start as int, plan.cells@.len() as int) =~= titles);
    lemma_paint_append(fill_canvas, border, titles);
    let k = j - plan.title_start;
    assert(plan.cells@[j] == titles[k]);
    lemma_paint_covered(paint(fill_canvas, border), Map::empty(), titles, k);
}

} // verus!
