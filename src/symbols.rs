use vstd::prelude::*;

verus! {

/// The five glyphs of one edge: `start + rep_1... + center + rep_2... + end`.
#[derive(Clone, Copy, Debug, PartialEq, Eq, Structural)]
pub struct EdgeSet {
    pub start: char,
    pub rep_1: char,
    pub center: char,
    pub rep_2: char,
    pub end: char,
}

/// The glyph sets of the four edges of a border.
#[derive(Clone, Copy, Debug, PartialEq, Eq, Structural)]
pub struct SegmentSet {
    pub top: EdgeSet,
    pub bottom: EdgeSet,
    pub right: EdgeSet,
    pub left: EdgeSet,
}

/// The four corner glyphs of a border.
#[derive(Clone, Copy, Debug, PartialEq, Eq, Structural)]
pub struct Corners {
    pub bottom_right: char,
    pub bottom_left: char,
    pub top_left: char,
    pub top_right: char,
}

/// A border style as the host framework writes it: one glyph string per part.
#[derive(Clone, Debug)]
pub struct LineSet {
    pub top_left: String,
    pub top_right: String,
    pub bottom_left: String,
    pub bottom_right: String,
    pub vertical_left: String,
    pub vertical_right: String,
    pub horizontal_top: String,
    pub horizontal_bottom: String,
}

/// The glyphs a `LineSet` holds, each exactly one character.
pub open spec fn line_set_is(
    s: LineSet,
    corners: Corners,
    vertical: char,
    horizontal: char,
) -> bool {
    &&& s.top_left@ == seq![corners.top_left]
    &&& s.top_right@ == seq![corners.top_right]
    &&& s.bottom_left@ == seq![corners.bottom_left]
    &&& s.bottom_right@ == seq![corners.bottom_right]
    &&& s.vertical_left@ == seq![vertical]
    &&& s.vertical_right@ == seq![vertical]
    &&& s.horizontal_top@ == seq![horizontal]
    &&& s.horizontal_bottom@ == seq![horizontal]
}

/// Relies on ratatui's `symbols::border::PLAIN`: single lines with square corners.
#[verifier::external_body]
fn ratatui_plain() -> (r: LineSet)
    ensures
        line_set_is(r, Corners { bottom_right: '┘', bottom_left: '└', top_left: '┌', top_right: '┐' }, '│', '─'),
{
    let s = ratatui::symbols::border::PLAIN;
    LineSet {
        top_left: s.top_left.to_string(),
        top_right: s.top_right.to_string(),
        bottom_left: s.bottom_left.to_string(),
        bottom_right: s.bottom_right.to_string(),
        vertical_left: s.vertical_left.to_string(),
        vertical_right: s.vertical_right.to_string(),
        horizontal_top: s.horizontal_top.to_string(),
        horizontal_bottom: s.horizontal_bottom.to_string(),
    }
}

/// Relies on ratatui's `symbols::border::ROUNDED`: single lines with rounded corners.
#[verifier::external_body]
fn ratatui_rounded() -> (r: LineSet)
    ensures
        line_set_is(r, Corners { bottom_right: '╯', bottom_left: '╰', top_left: '╭', top_right: '╮' }, '│', '─'),
{
    let s = ratatui::symbols::border::ROUNDED;
    LineSet {
        top_left: s.top_left.to_string(),
        top_right: s.top_right.to_string(),
        bottom_left: s.bottom_left.to_string(),
        bottom_right: s.bottom_right.to_string(),
        vertical_left: s.vertical_left.to_string(),
        vertical_right: s.vertical_right.to_string(),
        horizontal_top: s.horizontal_top.to_string(),
        horizontal_bottom: s.horizontal_bottom.to_string(),
    }
}

/// Relies on ratatui's `symbols::border::DOUBLE`: double lines.
#[verifier::external_body]
fn ratatui_double() -> (r: LineSet)
    ensures
        line_set_is(r, Corners { bottom_right: '╝', bottom_left: '╚', top_left: '╔', top_right: '╗' }, '║', '═'),
{
    let s = ratatui::symbols::border::DOUBLE;
    LineSet {
        top_left: s.top_left.to_string(),
        top_right: s.top_right.to_string(),
        bottom_left: s.bottom_left.to_string(),
        bottom_right: s.bottom_right.to_string(),
        vertical_left: s.vertical_left.to_string(),
        vertical_right: s.vertical_right.to_string(),
        horizontal_top: s.horizontal_top.to_string(),
        horizontal_bottom: s.horizontal_bottom.to_string(),
    }
}

/// Relies on ratatui's `symbols::border::THICK`: thick lines.
#[verifier::external_body]
fn ratatui_thick() -> (r: LineSet)
    ensures
        line_set_is(r, Corners { bottom_right: '┛', bottom_left: '┗', top_left: '┏', top_right: '┓' }, '┃', '━'),
{
    let s = ratatui::symbols::border::THICK;
    LineSet {
        top_left: s.top_left.to_string(),
        top_right: s.top_right.to_string(),
        bottom_left: s.bottom_left.to_string(),
        bottom_right: s.bottom_right.to_string(),
        vertical_left: s.vertical_left.to_string(),
        vertical_right: s.vertical_right.to_string(),
        horizontal_top: s.horizontal_top.to_string(),
        horizontal_bottom: s.horizontal_bottom.to_string(),
    }
}

impl LineSet {
    /// The host's plain style.
    pub fn plain() -> (r: LineSet)
        ensures
            line_set_is(r, Corners { bottom_right: '┘', bottom_left: '└', top_left: '┌', top_right: '┐' }, '│', '─'),
    {
        ratatui_plain()
    }

    /// The host's rounded style.
    pub fn rounded() -> (r: LineSet)
        ensures
            line_set_is(r, Corners { bottom_right: '╯', bottom_left: '╰', top_left: '╭', top_right: '╮' }, '│', '─'),
    {
        ratatui_rounded()
    }

    /// The host's double-line style.
    pub fn double() -> (r: LineSet)
        ensures
            line_set_is(r, Corners { bottom_right: '╝', bottom_left: '╚', top_left: '╔', top_right: '╗' }, '║', '═'),
    {
        ratatui_double()
    }

    /// The host's thick style.
    pub fn thick() -> (r: LineSet)
        ensures
            line_set_is(r, Corners { bottom_right: '┛', bottom_left: '┗', top_left: '┏', top_right: '┓' }, '┃', '━'),
    {
        ratatui_thick()
    }
}

/// The glyph a string stands for: its only character, or a space when it holds
/// none or several.
pub open spec fn glyph_of(s: Seq<char>) -> char {
    if s.len() == 1 { s[0] } else { ' ' }
}

/// The glyph a string stands for, as `glyph_of` states.
pub fn parse_glyph(s: &String) -> (c: char)
    ensures
        c == glyph_of(s@),
{
    let t = s.as_str();
    if t.unicode_len() == 1 {
        t.get_char(0)
    } else {
        ' '
    }
}

/// Every glyph of an edge set to one character.
pub open spec fn uniform_set(c: char) -> EdgeSet {
    EdgeSet { start: c, rep_1: c, center: c, rep_2: c, end: c }
}

/// The edge sets a host style gives: corners at the ends, its line in between.
pub open spec fn from_line_set_spec(s: LineSet) -> SegmentSet {
    let top = glyph_of(s.horizontal_top@);
    let bottom = glyph_of(s.horizontal_bottom@);
    let right = glyph_of(s.vertical_right@);
    let left = glyph_of(s.vertical_left@);
    let top_right = glyph_of(s.top_right@);
    let top_left = glyph_of(s.top_left@);
    let bottom_right = glyph_of(s.bottom_right@);
    let bottom_left = glyph_of(s.bottom_left@);
    SegmentSet {
        top: EdgeSet { start: top_left, rep_1: top, center: top, rep_2: top, end: top_right },
        bottom: EdgeSet { start: bottom_left, rep_1: bottom, center: bottom, rep_2: bottom, end: bottom_right },
        right: EdgeSet { start: top_right, rep_1: right, center: right, rep_2: right, end: bottom_right },
        left: EdgeSet { start: top_left, rep_1: left, center: left, rep_2: left, end: bottom_left },
    }
}

/// The edge sets of the plain style.
pub open spec fn plain_segment_set() -> SegmentSet {
    SegmentSet {
        top: EdgeSet { start: '┌', rep_1: '─', center: '─', rep_2: '─', end: '┐' },
        bottom: EdgeSet { start: '└', rep_1: '─', center: '─', rep_2: '─', end: '┘' },
        right: EdgeSet { start: '┐', rep_1: '│', center: '│', rep_2: '│', end: '┘' },
        left: EdgeSet { start: '┌', rep_1: '│', center: '│', rep_2: '│', end: '└' },
    }
}

impl SegmentSet {
    /// The edge sets of the plain style.
    pub fn plain() -> (r: SegmentSet)
        ensures
            r == plain_segment_set(),
    {
        SegmentSet::from_ratatui_set(LineSet::plain())
    }

    /// The edge sets of a host border style.
    pub fn from_ratatui_set(set: LineSet) -> (r: SegmentSet)
        ensures
            r == from_line_set_spec(set),
    {
        let top = parse_glyph(&set.horizontal_top);
        let bottom = parse_glyph(&set.horizontal_bottom);
        let right = parse_glyph(&set.vertical_right);
        let left = parse_glyph(&set.vertical_left);
        let top_right = parse_glyph(&set.top_right);
        let top_left = parse_glyph(&set.top_left);
        let bottom_right = parse_glyph(&set.bottom_right);
        let bottom_left = parse_glyph(&set.bottom_left);
        SegmentSet {
            top: EdgeSet { start: top_left, rep_1: top, center: top, rep_2: top, end: top_right },
            bottom: EdgeSet { start: bottom_left, rep_1: bottom, center: bottom, rep_2: bottom, end: bottom_right },
            right: EdgeSet { start: top_right, rep_1: right, center: right, rep_2: right, end: bottom_right },
            left: EdgeSet { start: top_left, rep_1: left, center: left, rep_2: left, end: bottom_left },
        }
    }

    /// Every glyph a space: a border to be drawn glyph by glyph.
    pub fn empty() -> (r: SegmentSet)
        ensures
            r == (SegmentSet {
                top: uniform_set(' '),
                bottom: uniform_set(' '),
                right: uniform_set(' '),
                left: uniform_set(' '),
            }),
    {
        let s = EdgeSet { start: ' ', rep_1: ' ', center: ' ', rep_2: ' ', end: ' ' };
        SegmentSet { top: s, bottom: s, right: s, left: s }
    }

    /// The four corners this set draws, read from the top and bottom edges.
    pub fn corners(&self) -> (r: Corners)
        ensures
            r == (Corners {
                bottom_right: self.bottom.end,
                bottom_left: self.bottom.start,
                top_left: self.top.start,
                top_right: self.top.end,
            }),
    {
        Corners {
            bottom_right: self.bottom.end,
            bottom_left: self.bottom.start,
            top_left: self.top.start,
            top_right: self.top.end,
        }
    }
}


/// Plain top-left corner, used where a palette sets none.
pub const DEFAULT_TOP_LEFT: char = '┌';
/// Plain top-right corner, used where a palette sets none.
pub const DEFAULT_TOP_RIGHT: char = '┐';
/// Plain bottom-left corner, used where a palette sets none.
pub const DEFAULT_BOTTOM_LEFT: char = '└';
/// Plain bottom-right corner, used where a palette sets none.
pub const DEFAULT_BOTTOM_RIGHT: char = '┘';
/// Plain horizontal line, used where a palette sets none.
pub const DEFAULT_HORIZONTAL: char = '─';
/// Plain vertical line, used where a palette sets none.
pub const DEFAULT_VERTICAL: char = '│';

/// A palette of optional glyphs: corners, the line of each edge, the glyph at the
/// middle of each edge, and the line of each half edge. A glyph left out falls back
/// to a more general one, and at last to the plain style.
#[derive(Clone, Copy, Debug, PartialEq, Eq, Structural)]
pub struct BorderSymbolsSet {
    pub top_left: Option<char>,
    pub top_right: Option<char>,
    pub bottom_left: Option<char>,
    pub bottom_right: Option<char>,
    pub top_horizontal: Option<char>,
    pub bottom_horizontal: Option<char>,
    pub left_vertical: Option<char>,
    pub right_vertical: Option<char>,
    pub top_center: Option<char>,
    pub bottom_center: Option<char>,
    pub left_center: Option<char>,
    pub right_center: Option<char>,
    pub top_horizontal_left: Option<char>,
    pub top_horizontal_right: Option<char>,
    pub bottom_horizontal_left: Option<char>,
    pub bottom_horizontal_right: Option<char>,
    pub top_vertical_left: Option<char>,
    pub bottom_vertical_left: Option<char>,
    pub top_vertical_right: Option<char>,
    pub bottom_vertical_right: Option<char>,
}

/// The glyph if set, else the fallback.
pub open spec fn or_else(o: Option<char>, fallback: char) -> char {
    match o {
        Some(c) => c,
        None => fallback,
    }
}

fn pick(o: Option<char>, fallback: char) -> (c: char)
    ensures
        c == or_else(o, fallback),
{
    match o {
        Some(c) => c,
        None => fallback,
    }
}

/// The edge sets a palette draws once every fallback is applied.
pub open spec fn resolve_spec(p: BorderSymbolsSet) -> SegmentSet {
    let top = or_else(p.top_horizontal, DEFAULT_HORIZONTAL);
    let bottom = or_else(p.bottom_horizontal, DEFAULT_HORIZONTAL);
    let left = or_else(p.left_vertical, DEFAULT_VERTICAL);
    let right = or_else(p.right_vertical, DEFAULT_VERTICAL);
    let top_left = or_else(p.top_left, DEFAULT_TOP_LEFT);
    let top_right = or_else(p.top_right, DEFAULT_TOP_RIGHT);
    let bottom_left = or_else(p.bottom_left, DEFAULT_BOTTOM_LEFT);
    let bottom_right = or_else(p.bottom_right, DEFAULT_BOTTOM_RIGHT);
    SegmentSet {
        top: EdgeSet {
            start: top_left,
            rep_1: or_else(p.top_horizontal_left, top),
            center: or_else(p.top_center, top),
            rep_2: or_else(p.top_horizontal_right, top),
            end: top_right,
        },
        bottom: EdgeSet {
            start: bottom_left,
            rep_1: or_else(p.bottom_horizontal_left, bottom),
            center: or_else(p.bottom_center, bottom),
            rep_2: or_else(p.bottom_horizontal_right, bottom),
            end: bottom_right,
        },
        right: EdgeSet {
            start: top_right,
            rep_1: or_else(p.top_vertical_right, right),
            center: or_else(p.right_center, right),
            rep_2: or_else(p.bottom_vertical_right, right),
            end: bottom_right,
        },
        left: EdgeSet {
            start: top_left,
            rep_1: or_else(p.top_vertical_left, left),
            center: or_else(p.left_center, left),
            rep_2: or_else(p.bottom_vertical_left, left),
            end: bottom_left,
        },
    }
}

/// A palette with only the line of each edge set.
pub open spec fn only_lines(p: BorderSymbolsSet) -> bool {
    &&& p.top_horizontal is Some && p.bottom_horizontal is Some
    &&& p.left_vertical is Some && p.right_vertical is Some
    &&& p.top_left is None && p.top_right is None && p.bottom_left is None && p.bottom_right is None
    &&& p.top_center is None && p.bottom_center is None && p.left_center is None && p.right_center is None
    &&& p.top_horizontal_left is None && p.top_horizontal_right is None
    &&& p.bottom_horizontal_left is None && p.bottom_horizontal_right is None
    &&& p.top_vertical_left is None && p.bottom_vertical_left is None
    &&& p.top_vertical_right is None && p.bottom_vertical_right is None
}

impl BorderSymbolsSet {
    /// A palette with nothing set: it draws the plain style.
    pub fn new() -> (r: BorderSymbolsSet)
        ensures
            r.top_left is None && r.top_right is None && r.bottom_left is None && r.bottom_right is None,
            r.top_horizontal is None && r.bottom_horizontal is None,
            r.left_vertical is None && r.right_vertical is None,
            r.top_center is None && r.bottom_center is None && r.left_center is None && r.right_center is None,
            r.top_horizontal_left is None && r.top_horizontal_right is None,
            r.bottom_horizontal_left is None && r.bottom_horizontal_right is None,
            r.top_vertical_left is None && r.bottom_vertical_left is None,
            r.top_vertical_right is None && r.bottom_vertical_right is None,
    {
        BorderSymbolsSet {
            top_left: None,
            top_right: None,
            bottom_left: None,
            bottom_right: None,
            top_horizontal: None,
            bottom_horizontal: None,
            left_vertical: None,
            right_vertical: None,
            top_center: None,
            bottom_center: None,
            left_center: None,
            right_center: None,
            top_horizontal_left: None,
            top_horizontal_right: None,
            bottom_horizontal_left: None,
            bottom_horizontal_right: None,
            top_vertical_left: None,
            bottom_vertical_left: None,
            top_vertical_right: None,
            bottom_vertical_right: None,
        }
    }

    /// The edge sets this palette draws: each missing glyph falls back to the line of
    /// its edge, and each missing line or corner to the plain style.
    pub fn resolve(&self) -> (r: SegmentSet)
        ensures
            r == resolve_spec(*self),
    {
        let top = pick(self.top_horizontal, DEFAULT_HORIZONTAL);
        let bottom = pick(self.bottom_horizontal, DEFAULT_HORIZONTAL);
        let left = pick(self.left_vertical, DEFAULT_VERTICAL);
        let right = pick(self.right_vertical, DEFAULT_VERTICAL);
        let top_left = pick(self.top_left, DEFAULT_TOP_LEFT);
        let top_right = pick(self.top_right, DEFAULT_TOP_RIGHT);
        let bottom_left = pick(self.bottom_left, DEFAULT_BOTTOM_LEFT);
        let bottom_right = pick(self.bottom_right, DEFAULT_BOTTOM_RIGHT);
        SegmentSet {
            top: EdgeSet {
                start: top_left,
                rep_1: pick(self.top_horizontal_left, top),
                center: pick(self.top_center, top),
                rep_2: pick(self.top_horizontal_right, top),
                end: top_right,
            },
            bottom: EdgeSet {
                start: bottom_left,
                rep_1: pick(self.bottom_horizontal_left, bottom),
                center: pick(self.bottom_center, bottom),
                rep_2: pick(self.bottom_horizontal_right, bottom),
                end: bottom_right,
            },
            right: EdgeSet {
                start: top_right,
                rep_1: pick(self.top_vertical_right, right),
                center: pick(self.right_center, right),
                rep_2: pick(self.bottom_vertical_right, right),
                end: bottom_right,
            },
            left: EdgeSet {
                start: top_left,
                rep_1: pick(self.top_vertical_left, left),
                center: pick(self.left_center, left),
                rep_2: pick(self.bottom_vertical_left, left),
                end: bottom_left,
            },
        }
    }
}

/// A palette that sets only the line of each edge draws the plain corners, and each
/// edge's line serves as that edge's middle glyph and as the line of both its halves.
pub proof fn lemma_fallback_chain(p: BorderSymbolsSet)
    requires
        only_lines(p),
    ensures
        ({
            let r = resolve_spec(p);
            &&& r.top.start == DEFAULT_TOP_LEFT && r.left.start == DEFAULT_TOP_LEFT
            &&& r.top.end == DEFAULT_TOP_RIGHT && r.right.start == DEFAULT_TOP_RIGHT
            &&& r.bottom.start == DEFAULT_BOTTOM_LEFT && r.left.end == DEFAULT_BOTTOM_LEFT
            &&& r.bottom.end == DEFAULT_BOTTOM_RIGHT && r.right.end == DEFAULT_BOTTOM_RIGHT
            &&& r.top == (EdgeSet { start: DEFAULT_TOP_LEFT, rep_1: p.top_horizontal->0,
                center: p.top_horizontal->0, rep_2: p.top_horizontal->0, end: DEFAULT_TOP_RIGHT })
            &&& r.bottom == (EdgeSet { start: DEFAULT_BOTTOM_LEFT, rep_1: p.bottom_horizontal->0,
                center: p.bottom_horizontal->0, rep_2: p.bottom_horizontal->0, end: DEFAULT_BOTTOM_RIGHT })
            &&& r.left == (EdgeSet { start: DEFAULT_TOP_LEFT, rep_1: p.left_vertical->0,
                center: p.left_vertical->0, rep_2: p.left_vertical->0, end: DEFAULT_BOTTOM_LEFT })
            &&& r.right == (EdgeSet { start: DEFAULT_TOP_RIGHT, rep_1: p.right_vertical->0,
                center: p.right_vertical->0, rep_2: p.right_vertical->0, end: DEFAULT_BOTTOM_RIGHT })
        }),
{
}

} // verus!
