use vstd::prelude::*;
use crate::border_segment::{glyph_color, insufficient};
use crate::color::{cell_width, cell_width_of, gradient_text, width_sum, GradientError, GradientSpec, Rgb};
use crate::layout::{title_x, title_x_spec, title_y, title_y_spec, Alignment, Cell, Margin, Padding, Position, Rect};

verus! {

/// A title: its text, where it sits along which edge, and an optional gradient.
#[derive(Clone, Debug)]
pub struct Title {
    pub text: Vec<char>,
    pub alignment: Alignment,
    pub position: Position,
    pub gradient: Option<GradientSpec>,
}

/// The column widths of a title's cells.
pub open spec fn title_widths(t: Title) -> Seq<usize> {
    t.text@.map_values(|c: char| cell_width(c))
}

/// A title's width in columns, capped at the widest row a terminal can hold.
pub open spec fn title_width(t: Title) -> int {
    let w = width_sum(title_widths(t));
    if w > u16::MAX { u16::MAX as int } else { w as int }
}

/// How many leading cells, from cell `i` on, start left of column `right` when the
/// title starts at column `x0`.
pub open spec fn fits_from(ws: Seq<usize>, x0: int, right: int, i: nat) -> nat
    decreases ws.len() - i,
{
    if i >= ws.len() {
        ws.len()
    } else if x0 + width_sum(ws.take(i as int)) >= right {
        i
    } else {
        fits_from(ws, x0, right, i + 1)
    }
}

/// The cell of the `i`-th glyph of a title that starts at `(x0, y0)`.
pub open spec fn title_cell(t: Title, x0: int, y0: int, i: int) -> Cell {
    Cell {
        x: (x0 + width_sum(title_widths(t).take(i))) as u16,
        y: y0 as u16,
        symbol: t.text@[i],
        fg: glyph_color(t.gradient, t.text@, i),
    }
}

/// The cells of a title on `area`: its glyphs from its anchor on, each at the column
/// its predecessors end at, up to the area's right edge.
pub open spec fn title_spec(t: Title, area: Rect, padding: Padding, margin: Margin) -> Seq<Cell> {
    let x0 = title_x_spec(area, t.alignment, title_width(t), padding, margin);
    let y0 = title_y_spec(area, t.position, padding, margin);
    Seq::new(fits_from(title_widths(t), x0, area.x + area.width, 0), |i: int| title_cell(t, x0, y0, i))
}

proof fn lemma_fits_from_le(ws: Seq<usize>, x0: int, right: int, i: nat)
    requires
        i <= ws.len(),
    ensures
        i <= fits_from(ws, x0, right, i) <= ws.len(),
    decreases ws.len() - i,
{
    if i < ws.len() && x0 + width_sum(ws.take(i as int)) < right {
        lemma_fits_from_le(ws, x0, right, i + 1);
    }
}

proof fn lemma_width_sum_step(ws: Seq<usize>, i: int)
    requires
        0 <= i < ws.len(),
    ensures
        width_sum(ws.take(i + 1)) == width_sum(ws.take(i)) + ws[i],
{
    assert(ws.take(i + 1).drop_last() =~= ws.take(i));
}

proof fn lemma_width_sum_bound(ws: Seq<usize>, i: int)
    requires
        0 <= i <= ws.len(),
        forall|k: int| 0 <= k < ws.len() ==> ws[k] <= 2,
    ensures
        width_sum(ws.take(i)) <= 2 * i,
    decreases i,
{
    if i > 0 {
        lemma_width_sum_bound(ws, i - 1);
        lemma_width_sum_step(ws, i - 1);
    }
}

/// Lays a title out on `area`. Fails exactly when its gradient has fewer than two
/// colors.
pub fn title_cells(t: &Title, area: Rect, padding: Padding, margin: Margin) -> (r: Result<Vec<Cell>, GradientError>)
    requires
        area.wf(),
        t.text@.len() <= usize::MAX / 2,
    ensures
        insufficient(t.gradient) <==> r is Err,
        r is Err ==> r == Err::<Vec<Cell>, GradientError>(GradientError::InsufficientColors),
        r matches Ok(v) ==> v@ == title_spec(*t, area, padding, margin),
{
    let ghost ws = title_widths(*t);
    let n = t.text.len();
    let mut widths: Vec<usize> = Vec::new();
    let mut total: usize = 0;
    let mut i: usize = 0;
    while i < n
        invariant
            i <= n,
            n == t.text@.len(),
            n <= usize::MAX / 2,
            ws == title_widths(*t),
            widths@ == ws.take(i as int),
            total == width_sum(ws.take(i as int)),
            total <= 2 * i,
        decreases n - i,
    {
        let w = cell_width_of(t.text[i]);
        proof {
            lemma_width_sum_step(ws, i as int);
        }
        widths.push(w);
        total = total + w;
        i = i + 1;
        assert(widths@ =~= ws.take(i as int));
    }
    assert(ws.take(n as int) =~= ws);
    let tw: u16 = if total > u16::MAX as usize { u16::MAX } else { total as u16 };
    let x0 = title_x(area, t.alignment, tw, padding, margin);
    let y0 = title_y(area, t.position, padding, margin);
    let right = area.right();
    let ghost want = title_spec(*t, area, padding, margin);
    let colored: Option<Vec<(char, Rgb)>> = match &t.gradient {
        Some(g) => Some(gradient_text(g, &t.text)?),
        None => None,
    };
    let mut out: Vec<Cell> = Vec::new();
    let mut off: usize = 0;
    i = 0;
    proof {
        lemma_fits_from_le(ws, x0 as int, right as int, 0);
    }
    while i < n && x0 < right && off < (right - x0) as usize
        invariant
            i <= n,
            n == t.text@.len(),
            widths@ == ws,
            ws == title_widths(*t),
            forall|k: int| 0 <= k < ws.len() ==> ws[k] <= 2,
            n <= usize::MAX / 2,
            off == width_sum(ws.take(i as int)),
            right == area.x + area.width,
            x0 == title_x_spec(area, t.alignment, title_width(*t), padding, margin),
            y0 == title_y_spec(area, t.position, padding, margin),
            want == title_spec(*t, area, padding, margin),
            fits_from(ws, x0 as int, right as int, i as nat) == fits_from(ws, x0 as int, right as int, 0),
            i <= fits_from(ws, x0 as int, right as int, 0),
            t.gradient is None ==> colored is None,
            t.gradient is Some ==> (colored matches Some(cv) && cv@.len() == n
                && forall|k: int| 0 <= k < n ==> cv@[k] == (t.text@[k], glyph_color(t.gradient, t.text@, k)->0)),
            out@.len() == i,
            forall|k: int| 0 <= k < i ==> out@[k] == want[k],
        decreases n - i,
    {
        proof {
            lemma_width_sum_step(ws, i as int);
            lemma_width_sum_bound(ws, i as int);
            assert(fits_from(ws, x0 as int, right as int, i as nat) == fits_from(ws, x0 as int, right as int, (i + 1) as nat));
            lemma_fits_from_le(ws, x0 as int, right as int, (i + 1) as nat);
            assert(want.len() == fits_from(ws, x0 as int, right as int, 0));
        }
        let cx: u16 = x0 + off as u16;
        let fg: Option<Rgb> = match &colored {
            Some(cv) => Some(cv[i].1),
            None => None,
        };
        out.push(Cell { x: cx, y: y0, symbol: t.text[i], fg });
        assert(out@[i as int] == want[i as int]);
        off = off + widths[i];
        i = i + 1;
    }
    proof {
        if i < n {
            assert(fits_from(ws, x0 as int, right as int, i as nat) == i);
        }
    }
    assert(out@ =~= want);
    Ok(out)
}


/// A title for each gradient variation of a theme.
#[derive(Clone, Debug)]
pub struct TitleSet {
    pub up: Title,
    pub down: Title,
    pub left: Title,
    pub right: Title,
    pub top_left: Title,
    pub top_right: Title,
    pub bottom_left: Title,
    pub bottom_right: Title,
    pub double_corners_right: Title,
    pub double_corners_left: Title,
    pub vertical: Title,
    pub horizontal: Title,
    pub misc1: Title,
    pub misc2: Title,
}

/// A centred title on the top edge with the given text, in one solid color.
pub open spec fn is_theme_title(t: Title, text: Seq<char>, color: Rgb) -> bool {
    &&& t.text@ == text
    &&& t.alignment == Alignment::Center
    &&& t.position == Position::Top
    &&& t.gradient matches Some(g) && g.colors@ == seq![color, color] && g.factor == 1
}

/// A centred title on the top edge with the given text, in one solid color.
pub fn theme_title(text: Vec<char>, color: Rgb) -> (t: Title)
    ensures
        is_theme_title(t, text@, color),
{
    Title {
        text,
        alignment: Alignment::Center,
        position: Position::Top,
        gradient: Some(GradientSpec { colors: vec![color, color], factor: 1 }),
    }
}

} // verus!
