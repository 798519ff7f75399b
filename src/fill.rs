use vstd::prelude::*;
use crate::border_segment::{glyph_color, insufficient};
use crate::color::{cell_width, gradient_text, lemma_ramp_ends, lemma_unit_widths, GradientError, GradientSpec, Rgb};
use crate::layout::Rect;

verus! {

/// The optional background text of a block, repeated over its area.
#[derive(Clone, Debug)]
pub struct Fill {
    pub fill_string: Option<String>,
    pub gradient: Option<GradientSpec>,
}

impl Fill {
    /// No fill text and no gradient.
    pub fn new() -> (r: Fill)
        ensures
            r.fill_string is None,
            r.gradient is None,
    {
        Fill { fill_string: None, gradient: None }
    }
}

/// The fill text, if there is any to draw.
pub open spec fn fill_source(f: Fill) -> Seq<char> {
    match f.fill_string {
        Some(s) => s@,
        None => Seq::empty(),
    }
}

/// Whether drawing the fill fails: it has text and a gradient of too few colors.
pub open spec fn fill_fails(f: Fill) -> bool {
    fill_source(f).len() > 0 && insufficient(f.gradient)
}

/// The number of cells the fill covers: one glyph per cell of the area.
pub open spec fn fill_len(f: Fill, area: Rect) -> nat {
    if fill_source(f).len() == 0 { 0 } else { (area.width * area.height) as nat }
}

/// The `i`-th glyph of the fill: its text repeated from the start.
pub open spec fn fill_char(src: Seq<char>, i: int) -> char {
    src[i % (src.len() as int)]
}

/// The fill text repeated over the area's cells.
pub open spec fn fill_text(f: Fill, area: Rect) -> Seq<char> {
    Seq::new(fill_len(f, area), |i: int| fill_char(fill_source(f), i))
}

/// A glyph of the fill with its color.
pub open spec fn fill_glyph(f: Fill, area: Rect, i: int) -> (char, Option<Rgb>) {
    (fill_text(f, area)[i], glyph_color(f.gradient, fill_text(f, area), i))
}

/// The glyphs of the fill, each with its color.
pub open spec fn fill_spec(f: Fill, area: Rect) -> Seq<(char, Option<Rgb>)> {
    Seq::new(fill_len(f, area), |i: int| fill_glyph(f, area, i))
}

/// A fill of one-column characters over two or more cells, with a gradient of at
/// least two colors and a positive exponent, starts on the gradient's first color
/// and ends on its last.
pub proof fn lemma_fill_ramp_ends(f: Fill, area: Rect)
    requires
        f.gradient matches Some(g) && g.colors@.len() >= 2 && g.factor >= 1,
        fill_len(f, area) >= 2,
        forall|k: int| 0 <= k < fill_source(f).len() ==> cell_width(#[trigger] fill_source(f)[k]) == 1,
    ensures
        fill_spec(f, area)[0].1 == Some(f.gradient->0.colors@[0]),
        fill_spec(f, area)[fill_len(f, area) - 1].1 == Some(f.gradient->0.colors@.last()),
{
    let g = f.gradient->0;
    let text = fill_text(f, area);
    let ws = text.map_values(|c: char| cell_width(c));
    let src = fill_source(f);
    assert forall|k: int| 0 <= k < ws.len() implies ws[k] == 1 by {
        assert(text[k] == src[k % (src.len() as int)]);
    }
    lemma_unit_widths(g.colors@, g.factor as nat, ws);
    lemma_ramp_ends(g.colors@, g.factor as nat, text.len());
}

fn string_chars(s: &String) -> (r: Vec<char>)
    ensures
        r@ == s@,
{
    let t = s.as_str();
    let n = t.unicode_len();
    let mut out: Vec<char> = Vec::new();
    let mut i: usize = 0;
    while i < n
        invariant
            i <= n,
            n == t@.len(),
            t@ == s@,
            out@ == s@.take(i as int),
        decreases n - i,
    {
        out.push(t.get_char(i));
        i = i + 1;
        assert(out@ =~= s@.take(i as int));
    }
    assert(s@.take(n as int) =~= s@);
    out
}

/// The fill's glyphs for `area`: its text repeated to one glyph per cell, colored by
/// its gradient if it has one. Fails exactly when there is text to draw and the
/// gradient has fewer than two colors.
pub fn fill_glyphs(f: &Fill, area: Rect) -> (r: Result<Vec<(char, Option<Rgb>)>, GradientError>)
    requires
        (area.width as int) * (area.height as int) <= usize::MAX / 2,
    ensures
        fill_fails(*f) <==> r is Err,
        r is Err ==> r == Err::<Vec<(char, Option<Rgb>)>, GradientError>(GradientError::InsufficientColors),
        r matches Ok(v) ==> v@ == fill_spec(*f, area),
{
    let src: Vec<char> = match &f.fill_string {
        Some(s) => string_chars(s),
        None => Vec::new(),
    };
    assert(src@ == fill_source(*f));
    if src.len() == 0 {
        assert(fill_spec(*f, area) =~= Seq::<(char, Option<Rgb>)>::empty());
        return Ok(Vec::new());
    }
    let total: usize = (area.width as usize) * (area.height as usize);
    let ghost text = fill_text(*f, area);
    let mut chars: Vec<char> = Vec::new();
    let mut i: usize = 0;
    while i < total
        invariant
            i <= total,
            total == fill_len(*f, area),
            src@ == fill_source(*f),
            src@.len() > 0,
            text == fill_text(*f, area),
            chars@ == text.take(i as int),
        decreases total - i,
    {
        chars.push(src[i % src.len()]);
        i = i + 1;
        assert(chars@ =~= text.take(i as int));
    }
    assert(text.take(total as int) =~= text);
    let mut out: Vec<(char, Option<Rgb>)> = Vec::new();
    match &f.gradient {
        None => {
            let mut j: usize = 0;
            while j < total
                invariant
                    j <= total,
                    total == fill_len(*f, area),
                    chars@ == text,
                    text == fill_text(*f, area),
                    f.gradient is None,
                    out@.len() == j,
                    forall|k: int| 0 <= k < j ==> out@[k] == fill_glyph(*f, area, k),
                decreases total - j,
            {
                out.push((chars[j], None));
                j = j + 1;
            }
        },
        Some(g) => {
            let colored = gradient_text(g, &chars)?;
            let mut j: usize = 0;
            while j < total
                invariant
                    j <= total,
                    total == fill_len(*f, area),
                    chars@ == text,
                    text == fill_text(*f, area),
                    f.gradient == Some(*g),
                    colored@.len() == text.len(),
                    forall|k: int| 0 <= k < colored@.len() ==> colored@[k] == (text[k], glyph_color(f.gradient, text, k)->0),
                    out@.len() == j,
                    forall|k: int| 0 <= k < j ==> out@[k] == fill_glyph(*f, area, k),
                decreases total - j,
            {
                let (ch, c) = colored[j];
                out.push((ch, Some(c)));
                j = j + 1;
            }
        },
    }
    assert(out@ =~= fill_spec(*f, area));
    Ok(out)
}

} // verus!
