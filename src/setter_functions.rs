use vstd::prelude::*;
use crate::border_segment::{BorderSegment, BorderSegments};
use crate::color::GradientSpec;
use crate::enums::{style_set, BorderStyle};
use crate::flags::{Borders, CenterFlags, CornerFlags};
use crate::gradient::GradientVariation;
use crate::gradient_block::GradientBlock;
use crate::layout::{Margin, Padding, Position};
use crate::symbols::{resolve_spec, BorderSymbolsSet, EdgeSet, SegmentSet};
use crate::title::Title;

verus! {

/// The block with the glyphs of its four edges replaced.
pub open spec fn with_sets(b: GradientBlock, top: EdgeSet, bottom: EdgeSet, left: EdgeSet, right: EdgeSet) -> GradientBlock {
    GradientBlock {
        border_segments: BorderSegments {
            top: BorderSegment { symbol_set: top, ..b.border_segments.top },
            bottom: BorderSegment { symbol_set: bottom, ..b.border_segments.bottom },
            left: BorderSegment { symbol_set: left, ..b.border_segments.left },
            right: BorderSegment { symbol_set: right, ..b.border_segments.right },
        },
        ..b
    }
}

/// The block with its edges replaced.
pub open spec fn with_segments(b: GradientBlock, segs: BorderSegments) -> GradientBlock {
    GradientBlock { border_segments: segs, ..b }
}

/// `c`, or a space where `blank` holds.
pub open spec fn blank_if(c: char, blank: bool) -> char {
    if blank { ' ' } else { c }
}

fn blank_if_exec(c: char, blank: bool) -> (r: char)
    ensures
        r == blank_if(c, blank),
{
    if blank { ' ' } else { c }
}

/// The edges with only the chosen ones drawn; with `corners`, the corner glyphs an
/// undrawn edge shares with its neighbours become spaces.
pub open spec fn apply_borders(s: BorderSegments, b: Borders, corners: bool) -> BorderSegments {
    BorderSegments {
        top: BorderSegment {
            should_be_rendered: s.top.should_be_rendered && b.top,
            symbol_set: EdgeSet {
                start: blank_if(s.top.symbol_set.start, corners && !b.left),
                end: blank_if(s.top.symbol_set.end, corners && !b.right),
                ..s.top.symbol_set
            },
            ..s.top
        },
        bottom: BorderSegment {
            should_be_rendered: s.bottom.should_be_rendered && b.bottom,
            symbol_set: EdgeSet {
                start: blank_if(s.bottom.symbol_set.start, corners && !b.left),
                end: blank_if(s.bottom.symbol_set.end, corners && !b.right),
                ..s.bottom.symbol_set
            },
            ..s.bottom
        },
        left: BorderSegment {
            should_be_rendered: s.left.should_be_rendered && b.left,
            symbol_set: EdgeSet {
                start: blank_if(s.left.symbol_set.start, corners && !b.top),
                end: blank_if(s.left.symbol_set.end, corners && !b.bottom),
                ..s.left.symbol_set
            },
            ..s.left
        },
        right: BorderSegment {
            should_be_rendered: s.right.should_be_rendered && b.right,
            symbol_set: EdgeSet {
                start: blank_if(s.right.symbol_set.start, corners && !b.top),
                end: blank_if(s.right.symbol_set.end, corners && !b.bottom),
                ..s.right.symbol_set
            },
            ..s.right
        },
    }
}

/// The edges with the corners left out of `c` turned to spaces, on both edges that
/// meet there.
pub open spec fn apply_corners(s: BorderSegments, c: CornerFlags) -> BorderSegments {
    BorderSegments {
        top: BorderSegment {
            symbol_set: EdgeSet {
                start: blank_if(s.top.symbol_set.start, !c.top_left),
                end: blank_if(s.top.symbol_set.end, !c.top_right),
                ..s.top.symbol_set
            },
            ..s.top
        },
        bottom: BorderSegment {
            symbol_set: EdgeSet {
                start: blank_if(s.bottom.symbol_set.start, !c.bottom_left),
                end: blank_if(s.bottom.symbol_set.end, !c.bottom_right),
                ..s.bottom.symbol_set
            },
            ..s.bottom
        },
        left: BorderSegment {
            symbol_set: EdgeSet {
                start: blank_if(s.left.symbol_set.start, !c.top_left),
                end: blank_if(s.left.symbol_set.end, !c.bottom_left),
                ..s.left.symbol_set
            },
            ..s.left
        },
        right: BorderSegment {
            symbol_set: EdgeSet {
                start: blank_if(s.right.symbol_set.start, !c.top_right),
                end: blank_if(s.right.symbol_set.end, !c.bottom_right),
                ..s.right.symbol_set
            },
            ..s.right
        },
    }
}

/// The edges with the middle glyphs left out of `c` turned to spaces.
pub open spec fn apply_centers(s: BorderSegments, c: CenterFlags) -> BorderSegments {
    BorderSegments {
        top: BorderSegment {
            symbol_set: EdgeSet { center: blank_if(s.top.symbol_set.center, !c.top), ..s.top.symbol_set },
            ..s.top
        },
        bottom: BorderSegment {
            symbol_set: EdgeSet { center: blank_if(s.bottom.symbol_set.center, !c.bottom), ..s.bottom.symbol_set },
            ..s.bottom
        },
        left: BorderSegment {
            symbol_set: EdgeSet { center: blank_if(s.left.symbol_set.center, !c.left), ..s.left.symbol_set },
            ..s.left
        },
        right: BorderSegment {
            symbol_set: EdgeSet { center: blank_if(s.right.symbol_set.center, !c.right), ..s.right.symbol_set },
            ..s.right
        },
    }
}

impl GradientBlock {
    /// Sets the top-right corner.
    pub fn top_right(self, symb: char) -> (r: Self)
        ensures
            r == with_sets(
                self,
                EdgeSet { end: symb, ..self.border_segments.top.symbol_set },
                self.border_segments.bottom.symbol_set,
                self.border_segments.left.symbol_set,
                EdgeSet { start: symb, ..self.border_segments.right.symbol_set },
            ),
    {
        let mut r = self;
        r.border_segments.right.symbol_set.start = symb;
        r.border_segments.top.symbol_set.end = symb;
        r
    }
    /// Sets the top-left corner.
    pub fn top_left(self, symb: char) -> (r: Self)
        ensures
            r == with_sets(
                self,
                EdgeSet { start: symb, ..self.border_segments.top.symbol_set },
                self.border_segments.bottom.symbol_set,
                EdgeSet { start: symb, ..self.border_segments.left.symbol_set },
                self.border_segments.right.symbol_set,
            ),
    {
        let mut r = self;
        r.border_segments.left.symbol_set.start = symb;
        r.border_segments.top.symbol_set.start = symb;
        r
    }
    /// Sets the bottom-right corner.
    pub fn bottom_right(self, symb: char) -> (r: Self)
        ensures
            r == with_sets(
                self,
                self.border_segments.top.symbol_set,
                EdgeSet { end: symb, ..self.border_segments.bottom.symbol_set },
                self.border_segments.left.symbol_set,
                EdgeSet { end: symb, ..self.border_segments.right.symbol_set },
            ),
    {
        let mut r = self;
        r.border_segments.bottom.symbol_set.end = symb;
        r.border_segments.right.symbol_set.end = symb;
        r
    }
    /// Sets the bottom-left corner.
    pub fn bottom_left(self, symb: char) -> (r: Self)
        ensures
            r == with_sets(
                self,
                self.border_segments.top.symbol_set,
                EdgeSet { start: symb, ..self.border_segments.bottom.symbol_set },
                EdgeSet { end: symb, ..self.border_segments.left.symbol_set },
                self.border_segments.right.symbol_set,
            ),
    {
        let mut r = self;
        r.border_segments.bottom.symbol_set.start = symb;
        r.border_segments.left.symbol_set.end = symb;
        r
    }
    /// Sets the line of the bottom edge.
    pub fn bottom_horizontal_symbol(self, symb: char) -> (r: Self)
        ensures
            r == with_sets(
                self,
                self.border_segments.top.symbol_set,
                EdgeSet { rep_1: symb, rep_2: symb, ..self.border_segments.bottom.symbol_set },
                self.border_segments.left.symbol_set,
                self.border_segments.right.symbol_set,
            ),
    {
        let mut r = self;
        r.border_segments.bottom.symbol_set.rep_1 = symb;
        r.border_segments.bottom.symbol_set.rep_2 = symb;
        r
    }
    /// Sets the line of the top edge.
    pub fn top_horizontal_symbol(self, symb: char) -> (r: Self)
        ensures
            r == with_sets(
                self,
                EdgeSet { rep_1: symb, rep_2: symb, ..self.border_segments.top.symbol_set },
                self.border_segments.bottom.symbol_set,
                self.border_segments.left.symbol_set,
                self.border_segments.right.symbol_set,
            ),
    {
        let mut r = self;
        r.border_segments.top.symbol_set.rep_1 = symb;
        r.border_segments.top.symbol_set.rep_2 = symb;
        r
    }
    /// Sets the line of the right edge.
    pub fn right_vertical_symbol(self, symb: char) -> (r: Self)
        ensures
            r == with_sets(
                self,
                self.border_segments.top.symbol_set,
                self.border_segments.bottom.symbol_set,
                self.border_segments.left.symbol_set,
                EdgeSet { rep_1: symb, rep_2: symb, ..self.border_segments.right.symbol_set },
            ),
    {
        let mut r = self;
        r.border_segments.right.symbol_set.rep_1 = symb;
        r.border_segments.right.symbol_set.rep_2 = symb;
        r
    }
    /// Sets the line of the left edge.
    pub fn left_vertical_symbol(self, symb: char) -> (r: Self)
        ensures
            r == with_sets(
                self,
                self.border_segments.top.symbol_set,
                self.border_segments.bottom.symbol_set,
                EdgeSet { rep_1: symb, rep_2: symb, ..self.border_segments.left.symbol_set },
                self.border_segments.right.symbol_set,
            ),
    {
        let mut r = self;
        r.border_segments.left.symbol_set.rep_1 = symb;
        r.border_segments.left.symbol_set.rep_2 = symb;
        r
    }
    /// Sets the middle glyph of the top edge.
    pub fn top_center_symbol(self, symb: char) -> (r: Self)
        ensures
            r == with_sets(
                self,
                EdgeSet { center: symb, ..self.border_segments.top.symbol_set },
                self.border_segments.bottom.symbol_set,
                self.border_segments.left.symbol_set,
                self.border_segments.right.symbol_set,
            ),
    {
        let mut r = self;
        r.border_segments.top.symbol_set.center = symb;
        r
    }
    /// Sets the middle glyph of the bottom edge.
    pub fn bottom_center_symbol(self, symb: char) -> (r: Self)
        ensures
            r == with_sets(
                self,
                self.border_segments.top.symbol_set,
                EdgeSet { center: symb, ..self.border_segments.bottom.symbol_set },
                self.border_segments.left.symbol_set,
                self.border_segments.right.symbol_set,
            ),
    {
        let mut r = self;
        r.border_segments.bottom.symbol_set.center = symb;
        r
    }
    /// Sets the middle glyph of the left edge.
    pub fn left_center_symbol(self, symb: char) -> (r: Self)
        ensures
            r == with_sets(
                self,
                self.border_segments.top.symbol_set,
                self.border_segments.bottom.symbol_set,
                EdgeSet { center: symb, ..self.border_segments.left.symbol_set },
                self.border_segments.right.symbol_set,
            ),
    {
        let mut r = self;
        r.border_segments.left.symbol_set.center = symb;
        r
    }
    /// Sets the middle glyph of the right edge.
    pub fn right_center_symbol(self, symb: char) -> (r: Self)
        ensures
            r == with_sets(
                self,
                self.border_segments.top.symbol_set,
                self.border_segments.bottom.symbol_set,
                self.border_segments.left.symbol_set,
                EdgeSet { center: symb, ..self.border_segments.right.symbol_set },
            ),
    {
        let mut r = self;
        r.border_segments.right.symbol_set.center = symb;
        r
    }
    /// Sets the line of the right half of the top edge.
    pub fn top_horizontal_right_symbol(self, symb: char) -> (r: Self)
        ensures
            r == with_sets(
                self,
                EdgeSet { rep_2: symb, ..self.border_segments.top.symbol_set },
                self.border_segments.bottom.symbol_set,
                self.border_segments.left.symbol_set,
                self.border_segments.right.symbol_set,
            ),
    {
        let mut r = self;
        r.border_segments.top.symbol_set.rep_2 = symb;
        r
    }
    /// Sets the line of the right half of the bottom edge.
    pub fn bottom_horizontal_right_symbol(self, symb: char) -> (r: Self)
        ensures
            r == with_sets(
                self,
                self.border_segments.top.symbol_set,
                EdgeSet { rep_2: symb, ..self.border_segments.bottom.symbol_set },
                self.border_segments.left.symbol_set,
                self.border_segments.right.symbol_set,
            ),
    {
        let mut r = self;
        r.border_segments.bottom.symbol_set.rep_2 = symb;
        r
    }
    /// Sets the line of the left half of the top edge.
    pub fn top_horizontal_left_symbol(self, symb: char) -> (r: Self)
        ensures
            r == with_sets(
                self,
                EdgeSet { rep_1: symb, ..self.border_segments.top.symbol_set },
                self.border_segments.bottom.symbol_set,
                self.border_segments.left.symbol_set,
                self.border_segments.right.symbol_set,
            ),
    {
        let mut r = self;
        r.border_segments.top.symbol_set.rep_1 = symb;
        r
    }
    /// Sets the line of the left half of the bottom edge.
    pub fn bottom_horizontal_left_symbol(self, symb: char) -> (r: Self)
        ensures
            r == with_sets(
                self,
                self.border_segments.top.symbol_set,
                EdgeSet { rep_1: symb, ..self.border_segments.bottom.symbol_set },
                self.border_segments.left.symbol_set,
                self.border_segments.right.symbol_set,
            ),
    {
        let mut r = self;
        r.border_segments.bottom.symbol_set.rep_1 = symb;
        r
    }
    /// Sets the line of the upper half of the right edge.
    pub fn top_vertical_right_symbol(self, symb: char) -> (r: Self)
        ensures
            r == with_sets(
                self,
                self.border_segments.top.symbol_set,
                self.border_segments.bottom.symbol_set,
                self.border_segments.left.symbol_set,
                EdgeSet { rep_1: symb, ..self.border_segments.right.symbol_set },
            ),
    {
        let mut r = self;
        r.border_segments.right.symbol_set.rep_1 = symb;
        r
    }
    /// Sets the line of the lower half of the right edge.
    pub fn bottom_vertical_right_symbol(self, symb: char) -> (r: Self)
        ensures
            r == with_sets(
                self,
                self.border_segments.top.symbol_set,
                self.border_segments.bottom.symbol_set,
                self.border_segments.left.symbol_set,
                EdgeSet { rep_2: symb, ..self.border_segments.right.symbol_set },
            ),
    {
        let mut r = self;
        r.border_segments.right.symbol_set.rep_2 = symb;
        r
    }
    /// Sets the line of the upper half of the left edge.
    pub fn top_vertical_left_symbol(self, symb: char) -> (r: Self)
        ensures
            r == with_sets(
                self,
                self.border_segments.top.symbol_set,
                self.border_segments.bottom.symbol_set,
                EdgeSet { rep_1: symb, ..self.border_segments.left.symbol_set },
                self.border_segments.right.symbol_set,
            ),
    {
        let mut r = self;
        r.border_segments.left.symbol_set.rep_1 = symb;
        r
    }
    /// Sets the line of the lower half of the left edge.
    pub fn bottom_vertical_left_symbol(self, symb: char) -> (r: Self)
        ensures
            r == with_sets(
                self,
                self.border_segments.top.symbol_set,
                self.border_segments.bottom.symbol_set,
                EdgeSet { rep_2: symb, ..self.border_segments.left.symbol_set },
                self.border_segments.right.symbol_set,
            ),
    {
        let mut r = self;
        r.border_segments.left.symbol_set.rep_2 = symb;
        r
    }

    /// Sets the gradient of the top edge (of its first half when split).
    pub fn top_gradient(self, gradient: GradientSpec) -> (r: Self)
        ensures
            r == with_segments(
                self,
                BorderSegments {
                    top: BorderSegment { gradient: Some(gradient), ..self.border_segments.top },
                    ..self.border_segments
                },
            ),
    {
        let mut r = self;
        r.border_segments.top.gradient = Some(gradient);
        r
    }
    /// Sets the gradient of the second half of the top edge.
    pub fn top_second_gradient(self, gradient: GradientSpec) -> (r: Self)
        ensures
            r == with_segments(
                self,
                BorderSegments {
                    top: BorderSegment { second_gradient: Some(gradient), ..self.border_segments.top },
                    ..self.border_segments
                },
            ),
    {
        let mut r = self;
        r.border_segments.top.second_gradient = Some(gradient);
        r
    }
    /// Sets the gradient of the bottom edge (of its first half when split).
    pub fn bottom_gradient(self, gradient: GradientSpec) -> (r: Self)
        ensures
            r == with_segments(
                self,
                BorderSegments {
                    bottom: BorderSegment { gradient: Some(gradient), ..self.border_segments.bottom },
                    ..self.border_segments
                },
            ),
    {
        let mut r = self;
        r.border_segments.bottom.gradient = Some(gradient);
        r
    }
    /// Sets the gradient of the second half of the bottom edge.
    pub fn bottom_second_gradient(self, gradient: GradientSpec) -> (r: Self)
        ensures
            r == with_segments(
                self,
                BorderSegments {
                    bottom: BorderSegment { second_gradient: Some(gradient), ..self.border_segments.bottom },
                    ..self.border_segments
                },
            ),
    {
        let mut r = self;
        r.border_segments.bottom.second_gradient = Some(gradient);
        r
    }
    /// Sets the gradient of the left edge (of its first half when split).
    pub fn left_gradient(self, gradient: GradientSpec) -> (r: Self)
        ensures
            r == with_segments(
                self,
                BorderSegments {
                    left: BorderSegment { gradient: Some(gradient), ..self.border_segments.left },
                    ..self.border_segments
                },
            ),
    {
        let mut r = self;
        r.border_segments.left.gradient = Some(gradient);
        r
    }
    /// Sets the gradient of the second half of the left edge.
    pub fn left_second_gradient(self, gradient: GradientSpec) -> (r: Self)
        ensures
            r == with_segments(
                self,
                BorderSegments {
                    left: BorderSegment { second_gradient: Some(gradient), ..self.border_segments.left },
                    ..self.border_segments
                },
            ),
    {
        let mut r = self;
        r.border_segments.left.second_gradient = Some(gradient);
        r
    }
    /// Sets the gradient of the right edge (of its first half when split).
    pub fn right_gradient(self, gradient: GradientSpec) -> (r: Self)
        ensures
            r == with_segments(
                self,
                BorderSegments {
                    right: BorderSegment { gradient: Some(gradient), ..self.border_segments.right },
                    ..self.border_segments
                },
            ),
    {
        let mut r = self;
        r.border_segments.right.gradient = Some(gradient);
        r
    }
    /// Sets the gradient of the second half of the right edge.
    pub fn right_second_gradient(self, gradient: GradientSpec) -> (r: Self)
        ensures
            r == with_segments(
                self,
                BorderSegments {
                    right: BorderSegment { second_gradient: Some(gradient), ..self.border_segments.right },
                    ..self.border_segments
                },
            ),
    {
        let mut r = self;
        r.border_segments.right.second_gradient = Some(gradient);
        r
    }

    /// Sets the gradient of the right edge.
    pub fn set_right_ln_gradient(self, gradient: GradientSpec) -> (r: Self)
        ensures
            r == with_segments(
                self,
                BorderSegments {
                    right: BorderSegment { gradient: Some(gradient), ..self.border_segments.right },
                    ..self.border_segments
                },
            ),
    {
        self.right_gradient(gradient)
    }

    /// Replaces the right edge.
    pub fn right(self, seg: BorderSegment) -> (r: Self)
        ensures
            r == with_segments(self, BorderSegments { right: seg, ..self.border_segments }),
    {
        let mut r = self;
        r.border_segments.right = seg;
        r
    }
    /// Sets the gradient of the left edge.
    pub fn set_left_ln_gradient(self, gradient: GradientSpec) -> (r: Self)
        ensures
            r == with_segments(
                self,
                BorderSegments {
                    left: BorderSegment { gradient: Some(gradient), ..self.border_segments.left },
                    ..self.border_segments
                },
            ),
    {
        self.left_gradient(gradient)
    }

    /// Replaces the left edge.
    pub fn left(self, seg: BorderSegment) -> (r: Self)
        ensures
            r == with_segments(self, BorderSegments { left: seg, ..self.border_segments }),
    {
        let mut r = self;
        r.border_segments.left = seg;
        r
    }
    /// Sets the gradient of the top edge.
    pub fn set_top_ln_gradient(self, gradient: GradientSpec) -> (r: Self)
        ensures
            r == with_segments(
                self,
                BorderSegments {
                    top: BorderSegment { gradient: Some(gradient), ..self.border_segments.top },
                    ..self.border_segments
                },
            ),
    {
        self.top_gradient(gradient)
    }

    /// Replaces the top edge.
    pub fn top(self, seg: BorderSegment) -> (r: Self)
        ensures
            r == with_segments(self, BorderSegments { top: seg, ..self.border_segments }),
    {
        let mut r = self;
        r.border_segments.top = seg;
        r
    }
    /// Sets the gradient of the bottom edge.
    pub fn set_bottom_ln_gradient(self, gradient: GradientSpec) -> (r: Self)
        ensures
            r == with_segments(
                self,
                BorderSegments {
                    bottom: BorderSegment { gradient: Some(gradient), ..self.border_segments.bottom },
                    ..self.border_segments
                },
            ),
    {
        self.bottom_gradient(gradient)
    }

    /// Replaces the bottom edge.
    pub fn bottom(self, seg: BorderSegment) -> (r: Self)
        ensures
            r == with_segments(self, BorderSegments { bottom: seg, ..self.border_segments }),
    {
        let mut r = self;
        r.border_segments.bottom = seg;
        r
    }
    /// Selects a border style, as `with_border_style` does.
    pub fn border_style(self, style: BorderStyle) -> (r: Self)
        ensures
            r == with_sets(self, style_set(style).top, style_set(style).bottom, style_set(style).left, style_set(style).right),
    {
        self.with_border_style(style)
    }

    /// Selects a border style, as `with_border_style` does.
    pub fn set_border_style(self, style: BorderStyle) -> (r: Self)
        ensures
            r == with_sets(self, style_set(style).top, style_set(style).bottom, style_set(style).left, style_set(style).right),
    {
        self.with_border_style(style)
    }

    /// Sets the fill text, as `fill` does.
    pub fn fill_string(self, fill: String) -> (r: Self)
        ensures
            r.fill.fill_string == Some(fill),
            r.fill.gradient == self.fill.gradient,
            r == (GradientBlock { fill: r.fill, ..self }),
    {
        self.fill(fill)
    }

    /// Sets the gradients of all four edges.
    pub fn with_gradient(self, gradient: GradientVariation) -> (r: Self)
        ensures
            r == with_segments(
                self,
                BorderSegments {
                    top: BorderSegment { gradient: Some(gradient.top), ..self.border_segments.top },
                    bottom: BorderSegment { gradient: Some(gradient.bottom), ..self.border_segments.bottom },
                    left: BorderSegment { gradient: Some(gradient.left), ..self.border_segments.left },
                    right: BorderSegment { gradient: Some(gradient.right), ..self.border_segments.right },
                },
            ),
    {
        let mut r = self;
        r.border_segments.right.gradient = Some(gradient.right);
        r.border_segments.left.gradient = Some(gradient.left);
        r.border_segments.top.gradient = Some(gradient.top);
        r.border_segments.bottom.gradient = Some(gradient.bottom);
        r
    }

    /// Draws each chosen edge as two halves, the others whole.
    pub fn split(self, edges: Borders) -> (r: Self)
        ensures
            r == with_segments(
                self,
                BorderSegments {
                    top: BorderSegment { split: edges.top, ..self.border_segments.top },
                    bottom: BorderSegment { split: edges.bottom, ..self.border_segments.bottom },
                    left: BorderSegment { split: edges.left, ..self.border_segments.left },
                    right: BorderSegment { split: edges.right, ..self.border_segments.right },
                },
            ),
    {
        let mut r = self;
        r.border_segments.top.split = edges.top;
        r.border_segments.bottom.split = edges.bottom;
        r.border_segments.left.split = edges.left;
        r.border_segments.right.split = edges.right;
        r
    }

    /// Sets the margin between the area and the border.
    pub fn margin(self, horizontal: u16, vertical: u16) -> (r: Self)
        ensures
            r == (GradientBlock { margin: Margin { horizontal, vertical }, ..self }),
    {
        let mut r = self;
        r.margin = Margin::new(horizontal, vertical);
        r
    }

    /// Sets the horizontal margin.
    pub fn horizontal_margin(self, margin: u16) -> (r: Self)
        ensures
            r == (GradientBlock { margin: Margin { horizontal: margin, ..self.margin }, ..self }),
    {
        let mut r = self;
        r.margin.horizontal = margin;
        r
    }

    /// Sets the vertical margin.
    pub fn vertical_margin(self, margin: u16) -> (r: Self)
        ensures
            r == (GradientBlock { margin: Margin { vertical: margin, ..self.margin }, ..self }),
    {
        let mut r = self;
        r.margin.vertical = margin;
        r
    }

    /// Sets the left padding of the titles.
    pub fn left_padding(self, padding: u16) -> (r: Self)
        ensures
            r == (GradientBlock { padding: Padding { left: padding, ..self.padding }, ..self }),
    {
        let mut r = self;
        r.padding.left = padding;
        r
    }
    /// Sets the right padding of the titles.
    pub fn right_padding(self, padding: u16) -> (r: Self)
        ensures
            r == (GradientBlock { padding: Padding { right: padding, ..self.padding }, ..self }),
    {
        let mut r = self;
        r.padding.right = padding;
        r
    }
    /// Sets the top padding of the titles.
    pub fn top_padding(self, padding: u16) -> (r: Self)
        ensures
            r == (GradientBlock { padding: Padding { top: padding, ..self.padding }, ..self }),
    {
        let mut r = self;
        r.padding.top = padding;
        r
    }
    /// Sets the bottom padding of the titles.
    pub fn bottom_padding(self, padding: u16) -> (r: Self)
        ensures
            r == (GradientBlock { padding: Padding { bottom: padding, ..self.padding }, ..self }),
    {
        let mut r = self;
        r.padding.bottom = padding;
        r
    }

    /// Draws only the chosen edges; with `corners`, the corners an undrawn edge
    /// shares become spaces.
    pub fn borders(self, borders: Borders, corners: bool) -> (r: Self)
        ensures
            r == with_segments(self, apply_borders(self.border_segments, borders, corners)),
    {
        let mut r = self;
        r.border_segments.right.should_be_rendered = r.border_segments.right.should_be_rendered && borders.right;
        r.border_segments.left.should_be_rendered = r.border_segments.left.should_be_rendered && borders.left;
        r.border_segments.top.should_be_rendered = r.border_segments.top.should_be_rendered && borders.top;
        r.border_segments.bottom.should_be_rendered = r.border_segments.bottom.should_be_rendered && borders.bottom;
        r.border_segments.top.symbol_set.start = blank_if_exec(r.border_segments.top.symbol_set.start, corners && !borders.left);
        r.border_segments.top.symbol_set.end = blank_if_exec(r.border_segments.top.symbol_set.end, corners && !borders.right);
        r.border_segments.bottom.symbol_set.start = blank_if_exec(r.border_segments.bottom.symbol_set.start, corners && !borders.left);
        r.border_segments.bottom.symbol_set.end = blank_if_exec(r.border_segments.bottom.symbol_set.end, corners && !borders.right);
        r.border_segments.left.symbol_set.start = blank_if_exec(r.border_segments.left.symbol_set.start, corners && !borders.top);
        r.border_segments.left.symbol_set.end = blank_if_exec(r.border_segments.left.symbol_set.end, corners && !borders.bottom);
        r.border_segments.right.symbol_set.start = blank_if_exec(r.border_segments.right.symbol_set.start, corners && !borders.top);
        r.border_segments.right.symbol_set.end = blank_if_exec(r.border_segments.right.symbol_set.end, corners && !borders.bottom);
        r
    }

    /// Keeps only the chosen corner glyphs; the others become spaces.
    pub fn corners(self, corners: CornerFlags) -> (r: Self)
        ensures
            r == with_segments(self, apply_corners(self.border_segments, corners)),
    {
        let mut r = self;
        r.border_segments.top.symbol_set.start = blank_if_exec(r.border_segments.top.symbol_set.start, !corners.top_left);
        r.border_segments.top.symbol_set.end = blank_if_exec(r.border_segments.top.symbol_set.end, !corners.top_right);
        r.border_segments.bottom.symbol_set.start = blank_if_exec(r.border_segments.bottom.symbol_set.start, !corners.bottom_left);
        r.border_segments.bottom.symbol_set.end = blank_if_exec(r.border_segments.bottom.symbol_set.end, !corners.bottom_right);
        r.border_segments.left.symbol_set.start = blank_if_exec(r.border_segments.left.symbol_set.start, !corners.top_left);
        r.border_segments.left.symbol_set.end = blank_if_exec(r.border_segments.left.symbol_set.end, !corners.bottom_left);
        r.border_segments.right.symbol_set.start = blank_if_exec(r.border_segments.right.symbol_set.start, !corners.top_right);
        r.border_segments.right.symbol_set.end = blank_if_exec(r.border_segments.right.symbol_set.end, !corners.bottom_right);
        r
    }

    /// Keeps only the chosen middle glyphs; the others become spaces.
    pub fn center_symbols(self, symbols: CenterFlags) -> (r: Self)
        ensures
            r == with_segments(self, apply_centers(self.border_segments, symbols)),
    {
        let mut r = self;
        r.border_segments.top.symbol_set.center = blank_if_exec(r.border_segments.top.symbol_set.center, !symbols.top);
        r.border_segments.bottom.symbol_set.center = blank_if_exec(r.border_segments.bottom.symbol_set.center, !symbols.bottom);
        r.border_segments.left.symbol_set.center = blank_if_exec(r.border_segments.left.symbol_set.center, !symbols.left);
        r.border_segments.right.symbol_set.center = blank_if_exec(r.border_segments.right.symbol_set.center, !symbols.right);
        r
    }

    /// Selects a border style; it replaces every glyph of the four edges.
    pub fn with_border_style(self, style: BorderStyle) -> (r: Self)
        ensures
            r == with_sets(self, style_set(style).top, style_set(style).bottom, style_set(style).left, style_set(style).right),
    {
        let set = style.segment_set();
        let mut r = self;
        r.border_segments = r.border_segments.from_segment_set(set);
        r
    }

    /// Draws the given edge sets.
    pub fn with_set(self, set: SegmentSet) -> (r: Self)
        ensures
            r == with_sets(self, set.top, set.bottom, set.left, set.right),
    {
        self.with_border_style(BorderStyle::CustomSet(set))
    }

    /// Draws what a palette resolves to.
    pub fn border_symbols(self, symbols: BorderSymbolsSet) -> (r: Self)
        ensures
            r == with_sets(self, resolve_spec(symbols).top, resolve_spec(symbols).bottom,
                resolve_spec(symbols).left, resolve_spec(symbols).right),
    {
        self.with_border_style(BorderStyle::Palette(symbols))
    }

    /// Adds a title on the top edge.
    pub fn title_top(self, title: Title) -> (r: Self)
        ensures
            r.titles@ == self.titles@.push(Title { position: Position::Top, ..title }),
            r == (GradientBlock { titles: r.titles, ..self }),
    {
        let mut r = self;
        let mut t = title;
        t.position = Position::Top;
        r.titles.push(t);
        r
    }

    /// Adds a title on the bottom edge.
    pub fn title_bottom(self, title: Title) -> (r: Self)
        ensures
            r.titles@ == self.titles@.push(Title { position: Position::Bottom, ..title }),
            r == (GradientBlock { titles: r.titles, ..self }),
    {
        let mut r = self;
        let mut t = title;
        t.position = Position::Bottom;
        r.titles.push(t);
        r
    }

    /// Adds a title where it says it sits.
    pub fn title(self, title: Title) -> (r: Self)
        ensures
            r.titles@ == self.titles@.push(title),
            r == (GradientBlock { titles: r.titles, ..self }),
    {
        let mut r = self;
        r.titles.push(title);
        r
    }

    /// Replaces the titles.
    pub fn titles(self, titles: Vec<Title>) -> (r: Self)
        ensures
            r == (GradientBlock { titles, ..self }),
    {
        let mut r = self;
        r.titles = titles;
        r
    }

    /// Sets the fill text.
    pub fn fill(self, fill: String) -> (r: Self)
        ensures
            r.fill.fill_string == Some(fill),
            r.fill.gradient == self.fill.gradient,
            r == (GradientBlock { fill: r.fill, ..self }),
    {
        let mut r = self;
        r.fill.fill_string = Some(fill);
        r
    }

    /// Sets the gradient of the fill.
    pub fn fill_gradient(self, gradient: GradientSpec) -> (r: Self)
        ensures
            r.fill.gradient == Some(gradient),
            r.fill.fill_string == self.fill.fill_string,
            r == (GradientBlock { fill: r.fill, ..self }),
    {
        let mut r = self;
        r.fill.gradient = Some(gradient);
        r
    }
}

} // verus!
