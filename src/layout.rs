use vstd::prelude::*;
use crate::color::Rgb;

verus! {

/// A rectangle of terminal cells, as the host hands it over: it never reaches past
/// the last addressable row or column.
#[derive(Clone, Copy, Debug, PartialEq, Eq, Structural)]
pub struct Rect {
    pub x: u16,
    pub y: u16,
    pub width: u16,
    pub height: u16,
}

impl Rect {
    pub open spec fn wf(&self) -> bool {
        &&& self.x + self.width <= u16::MAX
        &&& self.y + self.height <= u16::MAX
    }

    /// A rectangle, shrunk where it would reach past the last cell.
    pub fn new(x: u16, y: u16, width: u16, height: u16) -> (r: Rect)
        ensures
            r.wf(),
            r.x == x && r.y == y,
            r.width == if x + width <= u16::MAX { width as int } else { u16::MAX - x },
            r.height == if y + height <= u16::MAX { height as int } else { u16::MAX - y },
    {
        let w: u16 = if width <= u16::MAX - x { width } else { u16::MAX - x };
        let h: u16 = if height <= u16::MAX - y { height } else { u16::MAX - y };
        Rect { x, y, width: w, height: h }
    }

    /// The first column right of the rectangle.
    pub fn right(&self) -> (r: u16)
        requires
            self.wf(),
        ensures
            r == self.x + self.width,
    {
        self.x + self.width
    }

    /// The first row below the rectangle.
    pub fn bottom(&self) -> (r: u16)
        requires
            self.wf(),
        ensures
            r == self.y + self.height,
    {
        self.y + self.height
    }

    /// The rectangle with `margin` taken off each side; empty where the margins meet.
    pub fn inner(&self, margin: Margin) -> (r: Rect)
        requires
            self.wf(),
        ensures
            r.wf(),
            r == inner_spec(*self, margin),
    {
        let mh = margin.horizontal as u32;
        let mv = margin.vertical as u32;
        if (self.width as u32) < 2 * mh || (self.height as u32) < 2 * mv {
            Rect { x: self.x, y: self.y, width: 0, height: 0 }
        } else {
            Rect {
                x: self.x + margin.horizontal,
                y: self.y + margin.vertical,
                width: self.width - 2 * margin.horizontal,
                height: self.height - 2 * margin.vertical,
            }
        }
    }
}

pub open spec fn inner_spec(a: Rect, m: Margin) -> Rect {
    if a.width < 2 * m.horizontal || a.height < 2 * m.vertical {
        Rect { x: a.x, y: a.y, width: 0, height: 0 }
    } else {
        Rect {
            x: (a.x + m.horizontal) as u16,
            y: (a.y + m.vertical) as u16,
            width: (a.width - 2 * m.horizontal) as u16,
            height: (a.height - 2 * m.vertical) as u16,
        }
    }
}

/// Space kept between an edge and its titles.
#[derive(Clone, Copy, Debug, PartialEq, Eq, Structural)]
pub struct Padding {
    pub left: u16,
    pub right: u16,
    pub top: u16,
    pub bottom: u16,
}

/// Space kept between the area and the border.
#[derive(Clone, Copy, Debug, PartialEq, Eq, Structural)]
pub struct Margin {
    pub horizontal: u16,
    pub vertical: u16,
}

impl Padding {
    pub fn zero() -> (r: Padding)
        ensures
            r == (Padding { left: 0, right: 0, top: 0, bottom: 0 }),
    {
        Padding { left: 0, right: 0, top: 0, bottom: 0 }
    }
}

impl Margin {
    pub fn new(horizontal: u16, vertical: u16) -> (r: Margin)
        ensures
            r == (Margin { horizontal, vertical }),
    {
        Margin { horizontal, vertical }
    }
}

/// Where a title sits along its edge.
#[derive(Clone, Copy, Debug, PartialEq, Eq, Structural)]
pub enum Alignment {
    Left,
    Center,
    Right,
}

/// Which edge a title sits on.
#[derive(Clone, Copy, Debug, PartialEq, Eq, Structural)]
pub enum Position {
    Top,
    Bottom,
}

/// One glyph written at one cell, with an optional foreground color.
#[derive(Clone, Copy, Debug, PartialEq, Eq, Structural)]
pub struct Cell {
    pub x: u16,
    pub y: u16,
    pub symbol: char,
    pub fg: Option<Rgb>,
}

/// `a - b`, or 0 where `b` is larger.
pub open spec fn sat_sub(a: int, b: int) -> int {
    if a >= b { a - b } else { 0 }
}

/// `a + b`, or the largest `u16` where the sum is larger.
pub open spec fn sat_add(a: int, b: int) -> int {
    if a + b <= u16::MAX { a + b } else { u16::MAX as int }
}

/// The column a title of `text_width` columns starts at.
pub open spec fn title_x_spec(area: Rect, alignment: Alignment, text_width: int, padding: Padding, margin: Margin) -> int {
    let base = match alignment {
        Alignment::Left => sat_add(area.x as int, padding.left as int),
        Alignment::Right => sat_sub(sat_sub(area.x + area.width, text_width), padding.right as int),
        Alignment::Center => sat_add(
            sat_sub(sat_sub(area.x + area.width / 2, text_width / 2), padding.right as int),
            padding.left as int,
        ),
    };
    at_least(sat_add(base, (margin.horizontal / 2) as int), area.x as int)
}

/// The row a title on the given edge sits at.
pub open spec fn title_y_spec(area: Rect, position: Position, padding: Padding, margin: Margin) -> int {
    match position {
        Position::Top => sat_add(sat_add(area.y as int, padding.top as int), margin.vertical as int),
        Position::Bottom => at_least(
            sat_sub(sat_sub(area.y + area.height, padding.bottom as int), margin.vertical as int),
            area.y as int,
        ),
    }
}

/// `a`, or `floor` where `a` is smaller.
pub open spec fn at_least(a: int, floor: int) -> int {
    if a >= floor { a } else { floor }
}

fn sat_sub_u16(a: u16, b: u16) -> (r: u16)
    ensures
        r == sat_sub(a as int, b as int),
{
    if a >= b { a - b } else { 0 }
}

fn at_least_u16(a: u16, floor: u16) -> (r: u16)
    ensures
        r == at_least(a as int, floor as int),
{
    if a >= floor { a } else { floor }
}

fn sat_add_u16(a: u16, b: u16) -> (r: u16)
    ensures
        r == sat_add(a as int, b as int),
{
    if a <= u16::MAX - b { a + b } else { u16::MAX }
}

/// The column a title starts at: after the left padding, before the right padding,
/// or centred on the area, then moved right by half the horizontal margin. It never
/// lies left of the area, nor past the last column.
pub fn title_x(area: Rect, alignment: Alignment, text_width: u16, padding: Padding, margin: Margin) -> (r: u16)
    requires
        area.wf(),
    ensures
        r == title_x_spec(area, alignment, text_width as int, padding, margin),
        r >= area.x,
{
    let base = match alignment {
        Alignment::Left => sat_add_u16(area.x, padding.left),
        Alignment::Right => sat_sub_u16(sat_sub_u16(area.right(), text_width), padding.right),
        Alignment::Center => sat_add_u16(
            sat_sub_u16(sat_sub_u16(area.x + area.width / 2, text_width / 2), padding.right),
            padding.left,
        ),
    };
    at_least_u16(sat_add_u16(base, margin.horizontal / 2), area.x)
}

/// The row a title sits at: the top padding and vertical margin below the area's
/// first row, or the bottom padding and vertical margin above its bottom edge
/// (`y + height`). It never lies above the area.
pub fn title_y(area: Rect, position: Position, padding: Padding, margin: Margin) -> (r: u16)
    requires
        area.wf(),
    ensures
        r == title_y_spec(area, position, padding, margin),
        r >= area.y,
{
    match position {
        Position::Top => sat_add_u16(sat_add_u16(area.y, padding.top), margin.vertical),
        Position::Bottom => at_least_u16(
            sat_sub_u16(sat_sub_u16(area.bottom(), padding.bottom), margin.vertical),
            area.y,
        ),
    }
}

} // verus!
