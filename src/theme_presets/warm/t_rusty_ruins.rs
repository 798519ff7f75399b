use vstd::prelude::*;
use crate::color::{GradientSpec, Rgb};
use crate::gradient::{is_ramp, ramp, GradientTheme, GradientVariation};
use crate::title::{is_theme_title, theme_title, TitleSet};

verus! {

/// The rusty ruins palette, darkest first; any other number gives the first color.
pub open spec fn palette(k: int) -> Rgb {
    if k == 2 {
        Rgb { r: 229, g: 110, b: 85 }
    } else if k == 3 {
        Rgb { r: 246, g: 180, b: 100 }
    } else {
        Rgb { r: 134, g: 56, b: 44 }
    }
}

/// Color `k` of the palette.
pub fn color(k: u8) -> (c: Rgb)
    ensures
        c == palette(k as int),
{
    if k == 2 {
        Rgb { r: 229, g: 110, b: 85 }
    } else if k == 3 {
        Rgb { r: 246, g: 180, b: 100 }
    } else {
        Rgb { r: 134, g: 56, b: 44 }
    }
}

/// One color of the palette, repeated so that it makes a ramp.
pub fn solid(col_num: u8) -> (g: GradientSpec)
    ensures
        is_ramp(g, seq![palette(col_num as int), palette(col_num as int)]),
{
    ramp(vec![color(col_num), color(col_num)])
}

/// The colors of `d_to_l`.
pub open spec fn d_to_l_colors() -> Seq<Rgb> {
    seq![palette(1), palette(2), palette(3)]
}

/// Dark to light.
pub fn d_to_l() -> (g: GradientSpec)
    ensures
        is_ramp(g, d_to_l_colors()),
{
    ramp(vec![color(1), color(2), color(3)])
}

/// The colors of `l_to_d`.
pub open spec fn l_to_d_colors() -> Seq<Rgb> {
    seq![palette(3), palette(2), palette(1)]
}

/// Light to dark.
pub fn l_to_d() -> (g: GradientSpec)
    ensures
        is_ramp(g, l_to_d_colors()),
{
    ramp(vec![color(3), color(2), color(1)])
}

/// The colors of `d_to_l_d`.
pub open spec fn d_to_l_d_colors() -> Seq<Rgb> {
    seq![palette(1), palette(1), palette(2), palette(3)]
}

/// Dark to light, lingering on the darkest color.
pub fn d_to_l_d() -> (g: GradientSpec)
    ensures
        is_ramp(g, d_to_l_d_colors()),
{
    ramp(vec![color(1), color(1), color(2), color(3)])
}

/// The colors of `l_to_d_d`.
pub open spec fn l_to_d_d_colors() -> Seq<Rgb> {
    seq![palette(3), palette(2), palette(1), palette(1)]
}

/// Light to dark, lingering on the darkest color.
pub fn l_to_d_d() -> (g: GradientSpec)
    ensures
        is_ramp(g, l_to_d_d_colors()),
{
    ramp(vec![color(3), color(2), color(1), color(1)])
}

/// The colors of `horizontal_g`.
pub open spec fn horizontal_g_colors() -> Seq<Rgb> {
    seq![palette(1), palette(2), palette(3), palette(3), palette(2), palette(1)]
}

/// Dark to light and back, for a horizontal sweep.
pub fn horizontal_g() -> (g: GradientSpec)
    ensures
        is_ramp(g, horizontal_g_colors()),
{
    ramp(vec![color(1), color(2), color(3), color(3), color(2), color(1)])
}

/// The colors of `vertical_g`.
pub open spec fn vertical_g_colors() -> Seq<Rgb> {
    seq![palette(1), palette(2), palette(3), palette(2), palette(1)]
}

/// Dark to light and back, for a vertical sweep.
pub fn vertical_g() -> (g: GradientSpec)
    ensures
        is_ramp(g, vertical_g_colors()),
{
    ramp(vec![color(1), color(2), color(3), color(2), color(1)])
}

/// The edge ramps of `bottom_right`.
pub open spec fn is_bottom_right(v: GradientVariation) -> bool {
    &&& is_ramp(v.top, seq![palette(1), palette(1)])
    &&& is_ramp(v.bottom, d_to_l_colors())
    &&& is_ramp(v.left, seq![palette(1), palette(1)])
    &&& is_ramp(v.right, d_to_l_colors())
}

/// Light gathering at the bottom-right corner.
pub fn bottom_right() -> (v: GradientVariation)
    ensures
        is_bottom_right(v),
{
    GradientVariation {
        top: solid(1),
        bottom: d_to_l(),
        left: solid(1),
        right: d_to_l(),
    }
}

/// The edge ramps of `bottom_left`.
pub open spec fn is_bottom_left(v: GradientVariation) -> bool {
    &&& is_ramp(v.top, seq![palette(1), palette(1)])
    &&& is_ramp(v.bottom, l_to_d_colors())
    &&& is_ramp(v.left, d_to_l_colors())
    &&& is_ramp(v.right, seq![palette(1), palette(1)])
}

/// Light gathering at the bottom-left corner.
pub fn bottom_left() -> (v: GradientVariation)
    ensures
        is_bottom_left(v),
{
    GradientVariation {
        top: solid(1),
        bottom: l_to_d(),
        left: d_to_l(),
        right: solid(1),
    }
}

/// The edge ramps of `top_left`.
pub open spec fn is_top_left(v: GradientVariation) -> bool {
    &&& is_ramp(v.top, l_to_d_colors())
    &&& is_ramp(v.bottom, seq![palette(1), palette(1)])
    &&& is_ramp(v.left, l_to_d_colors())
    &&& is_ramp(v.right, seq![palette(1), palette(1)])
}

/// Light gathering at the top-left corner.
pub fn top_left() -> (v: GradientVariation)
    ensures
        is_top_left(v),
{
    GradientVariation {
        top: l_to_d(),
        bottom: solid(1),
        left: l_to_d(),
        right: solid(1),
    }
}

/// The edge ramps of `top_right`.
pub open spec fn is_top_right(v: GradientVariation) -> bool {
    &&& is_ramp(v.top, d_to_l_colors())
    &&& is_ramp(v.bottom, seq![palette(1), palette(1)])
    &&& is_ramp(v.left, seq![palette(1), palette(1)])
    &&& is_ramp(v.right, l_to_d_colors())
}

/// Light gathering at the top-right corner.
pub fn top_right() -> (v: GradientVariation)
    ensures
        is_top_right(v),
{
    GradientVariation {
        top: d_to_l(),
        bottom: solid(1),
        left: solid(1),
        right: l_to_d(),
    }
}

/// The edge ramps of `up`.
pub open spec fn is_up(v: GradientVariation) -> bool {
    &&& is_ramp(v.top, seq![palette(3), palette(3)])
    &&& is_ramp(v.bottom, seq![palette(1), palette(1)])
    &&& is_ramp(v.left, l_to_d_colors())
    &&& is_ramp(v.right, l_to_d_colors())
}

/// Light at the top.
pub fn up() -> (v: GradientVariation)
    ensures
        is_up(v),
{
    GradientVariation {
        top: solid(3),
        bottom: solid(1),
        left: l_to_d(),
        right: l_to_d(),
    }
}

/// The edge ramps of `down`.
pub open spec fn is_down(v: GradientVariation) -> bool {
    &&& is_ramp(v.top, seq![palette(1), palette(1)])
    &&& is_ramp(v.bottom, seq![palette(3), palette(3)])
    &&& is_ramp(v.left, d_to_l_colors())
    &&& is_ramp(v.right, d_to_l_colors())
}

/// Light at the bottom.
pub fn down() -> (v: GradientVariation)
    ensures
        is_down(v),
{
    GradientVariation {
        top: solid(1),
        bottom: solid(3),
        left: d_to_l(),
        right: d_to_l(),
    }
}

/// The edge ramps of `right`.
pub open spec fn is_right(v: GradientVariation) -> bool {
    &&& is_ramp(v.top, d_to_l_colors())
    &&& is_ramp(v.bottom, d_to_l_colors())
    &&& is_ramp(v.left, seq![palette(1), palette(1)])
    &&& is_ramp(v.right, seq![palette(3), palette(3)])
}

/// Light at the right.
pub fn right() -> (v: GradientVariation)
    ensures
        is_right(v),
{
    GradientVariation {
        top: d_to_l(),
        bottom: d_to_l(),
        left: solid(1),
        right: solid(3),
    }
}

/// The edge ramps of `left`.
pub open spec fn is_left(v: GradientVariation) -> bool {
    &&& is_ramp(v.top, l_to_d_colors())
    &&& is_ramp(v.bottom, l_to_d_colors())
    &&& is_ramp(v.left, seq![palette(3), palette(3)])
    &&& is_ramp(v.right, seq![palette(1), palette(1)])
}

/// Light at the left.
pub fn left() -> (v: GradientVariation)
    ensures
        is_left(v),
{
    GradientVariation {
        top: l_to_d(),
        bottom: l_to_d(),
        left: solid(3),
        right: solid(1),
    }
}

/// The edge ramps of `horizontal`.
pub open spec fn is_horizontal(v: GradientVariation) -> bool {
    &&& is_ramp(v.top, horizontal_g_colors())
    &&& is_ramp(v.bottom, horizontal_g_colors())
    &&& is_ramp(v.left, seq![palette(1), palette(1)])
    &&& is_ramp(v.right, seq![palette(1), palette(1)])
}

/// Light in the middle of the top and bottom edges.
pub fn horizontal() -> (v: GradientVariation)
    ensures
        is_horizontal(v),
{
    GradientVariation {
        top: horizontal_g(),
        bottom: horizontal_g(),
        left: solid(1),
        right: solid(1),
    }
}

/// The edge ramps of `vertical`.
pub open spec fn is_vertical(v: GradientVariation) -> bool {
    &&& is_ramp(v.top, seq![palette(1), palette(1)])
    &&& is_ramp(v.bottom, seq![palette(1), palette(1)])
    &&& is_ramp(v.left, vertical_g_colors())
    &&& is_ramp(v.right, vertical_g_colors())
}

/// Light in the middle of the left and right edges.
pub fn vertical() -> (v: GradientVariation)
    ensures
        is_vertical(v),
{
    GradientVariation {
        top: solid(1),
        bottom: solid(1),
        left: vertical_g(),
        right: vertical_g(),
    }
}

/// The edge ramps of `double_corners_right`.
pub open spec fn is_double_corners_right(v: GradientVariation) -> bool {
    &&& is_ramp(v.top, d_to_l_colors())
    &&& is_ramp(v.bottom, l_to_d_colors())
    &&& is_ramp(v.left, d_to_l_d_colors())
    &&& is_ramp(v.right, l_to_d_d_colors())
}

/// Light at the top-right and bottom-left corners.
pub fn double_corners_right() -> (v: GradientVariation)
    ensures
        is_double_corners_right(v),
{
    GradientVariation {
        top: d_to_l(),
        bottom: l_to_d(),
        left: d_to_l_d(),
        right: l_to_d_d(),
    }
}

/// The edge ramps of `double_corners_left`.
pub open spec fn is_double_corners_left(v: GradientVariation) -> bool {
    &&& is_ramp(v.top, l_to_d_colors())
    &&& is_ramp(v.bottom, d_to_l_colors())
    &&& is_ramp(v.left, l_to_d_d_colors())
    &&& is_ramp(v.right, d_to_l_d_colors())
}

/// Light at the top-left and bottom-right corners.
pub fn double_corners_left() -> (v: GradientVariation)
    ensures
        is_double_corners_left(v),
{
    GradientVariation {
        top: l_to_d(),
        bottom: d_to_l(),
        left: l_to_d_d(),
        right: d_to_l_d(),
    }
}

/// The edge ramps of `misc1`.
pub open spec fn is_misc1(v: GradientVariation) -> bool {
    &&& is_ramp(v.top, seq![palette(1), palette(2), palette(3), palette(2)])
    &&& is_ramp(v.bottom, seq![palette(2), palette(2), palette(3)])
    &&& is_ramp(v.left, seq![palette(1), palette(2)])
    &&& is_ramp(v.right, seq![palette(2), palette(3)])
}

/// A mixed variation.
pub fn misc1() -> (v: GradientVariation)
    ensures
        is_misc1(v),
{
    GradientVariation {
        top: ramp(vec![color(1), color(2), color(3), color(2)]),
        bottom: ramp(vec![color(2), color(2), color(3)]),
        left: ramp(vec![color(1), color(2)]),
        right: ramp(vec![color(2), color(3)]),
    }
}

/// The edge ramps of `misc2`.
pub open spec fn is_misc2(v: GradientVariation) -> bool {
    &&& is_ramp(v.top, seq![palette(3), palette(2)])
    &&& is_ramp(v.bottom, seq![palette(2), palette(2)])
    &&& is_ramp(v.left, seq![palette(3), palette(2)])
    &&& is_ramp(v.right, seq![palette(2), palette(1), palette(2)])
}

/// Another mixed variation.
pub fn misc2() -> (v: GradientVariation)
    ensures
        is_misc2(v),
{
    GradientVariation {
        top: ramp(vec![color(3), color(2)]),
        bottom: solid(2),
        left: ramp(vec![color(3), color(2)]),
        right: ramp(vec![color(2), color(1), color(2)]),
    }
}

/// A title for each variation, in the palette's second color.
pub fn titles() -> (t: TitleSet)
    ensures
        is_theme_title(t.up, seq!['U', 'p'], palette(2)),
        is_theme_title(t.down, seq!['D', 'o', 'w', 'n'], palette(2)),
        is_theme_title(t.left, seq!['L', 'e', 'f', 't'], palette(2)),
        is_theme_title(t.right, seq!['R', 'i', 'g', 'h', 't'], palette(2)),
        is_theme_title(t.top_left, seq!['T', 'o', 'p', ' ', 'L', 'e', 'f', 't'], palette(2)),
        is_theme_title(t.top_right, seq!['T', 'o', 'p', ' ', 'R', 'i', 'g', 'h', 't'], palette(2)),
        is_theme_title(t.bottom_left, seq!['B', 'o', 't', 't', 'o', 'm', ' ', 'L', 'e', 'f', 't'], palette(2)),
        is_theme_title(t.bottom_right, seq!['B', 'o', 't', 't', 'o', 'm', ' ', 'R', 'i', 'g', 'h', 't'], palette(2)),
        is_theme_title(t.double_corners_right, seq!['T', 'w', 'o', ' ', 'C', 'o', 'r', 'n', 'e', 'r', 's', ' ', 'R', 'i', 'g', 'h', 't'], palette(2)),
        is_theme_title(t.double_corners_left, seq!['T', 'w', 'o', ' ', 'C', 'o', 'r', 'n', 'e', 'r', 's', ' ', 'L', 'e', 'f', 't'], palette(2)),
        is_theme_title(t.vertical, seq!['V', 'e', 'r', 't', 'i', 'c', 'a', 'l'], palette(2)),
        is_theme_title(t.horizontal, seq!['H', 'o', 'r', 'i', 'z', 'o', 'n', 't', 'a', 'l'], palette(2)),
        is_theme_title(t.misc1, seq!['M', 'i', 's', 'c', ' ', '1'], palette(2)),
        is_theme_title(t.misc2, seq!['M', 'i', 's', 'c', ' ', '2'], palette(2)),
{
    TitleSet {
        up: theme_title(vec!['U', 'p'], color(2)),
        down: theme_title(vec!['D', 'o', 'w', 'n'], color(2)),
        left: theme_title(vec!['L', 'e', 'f', 't'], color(2)),
        right: theme_title(vec!['R', 'i', 'g', 'h', 't'], color(2)),
        top_left: theme_title(vec!['T', 'o', 'p', ' ', 'L', 'e', 'f', 't'], color(2)),
        top_right: theme_title(vec!['T', 'o', 'p', ' ', 'R', 'i', 'g', 'h', 't'], color(2)),
        bottom_left: theme_title(vec!['B', 'o', 't', 't', 'o', 'm', ' ', 'L', 'e', 'f', 't'], color(2)),
        bottom_right: theme_title(vec!['B', 'o', 't', 't', 'o', 'm', ' ', 'R', 'i', 'g', 'h', 't'], color(2)),
        double_corners_right: theme_title(vec!['T', 'w', 'o', ' ', 'C', 'o', 'r', 'n', 'e', 'r', 's', ' ', 'R', 'i', 'g', 'h', 't'], color(2)),
        double_corners_left: theme_title(vec!['T', 'w', 'o', ' ', 'C', 'o', 'r', 'n', 'e', 'r', 's', ' ', 'L', 'e', 'f', 't'], color(2)),
        vertical: theme_title(vec!['V', 'e', 'r', 't', 'i', 'c', 'a', 'l'], color(2)),
        horizontal: theme_title(vec!['H', 'o', 'r', 'i', 'z', 'o', 'n', 't', 'a', 'l'], color(2)),
        misc1: theme_title(vec!['M', 'i', 's', 'c', ' ', '1'], color(2)),
        misc2: theme_title(vec!['M', 'i', 's', 'c', ' ', '2'], color(2)),
    }
}

/// Every variation of the palette.
pub fn full() -> (t: GradientTheme)
    ensures
        is_bottom_right(t.bottom_right),
        is_bottom_left(t.bottom_left),
        is_top_left(t.top_left),
        is_top_right(t.top_right),
        is_up(t.up),
        is_down(t.down),
        is_right(t.right),
        is_left(t.left),
        is_horizontal(t.horizontal),
        is_vertical(t.vertical),
        is_double_corners_right(t.double_corners_right),
        is_double_corners_left(t.double_corners_left),
        is_misc1(t.misc1),
        is_misc2(t.misc2),
{
    GradientTheme {
        bottom_right: bottom_right(),
        bottom_left: bottom_left(),
        top_left: top_left(),
        top_right: top_right(),
        up: up(),
        down: down(),
        right: right(),
        left: left(),
        horizontal: horizontal(),
        vertical: vertical(),
        double_corners_right: double_corners_right(),
        double_corners_left: double_corners_left(),
        misc1: misc1(),
        misc2: misc2(),
    }
}

} // verus!
