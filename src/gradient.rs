use vstd::prelude::*;
use crate::color::{GradientSpec, Rgb};

verus! {

/// A gradient for each of the four edges of a border.
#[derive(Clone, Debug)]
pub struct GradientVariation {
    pub left: GradientSpec,
    pub right: GradientSpec,
    pub bottom: GradientSpec,
    pub top: GradientSpec,
}

/// A family of edge gradients built from one palette.
#[derive(Clone, Debug)]
pub struct GradientTheme {
    pub top_left: GradientVariation,
    pub top_right: GradientVariation,
    pub bottom_left: GradientVariation,
    pub bottom_right: GradientVariation,
    pub double_corners_right: GradientVariation,
    pub double_corners_left: GradientVariation,
    pub vertical: GradientVariation,
    pub horizontal: GradientVariation,
    pub up: GradientVariation,
    pub down: GradientVariation,
    pub left: GradientVariation,
    pub right: GradientVariation,
    pub misc1: GradientVariation,
    pub misc2: GradientVariation,
}

/// A ramp over the given colors with no easing.
pub open spec fn is_ramp(g: GradientSpec, colors: Seq<Rgb>) -> bool {
    g.colors@ == colors && g.factor == 1
}

/// A linear ramp over `colors`.
pub fn ramp(colors: Vec<Rgb>) -> (g: GradientSpec)
    ensures
        is_ramp(g, colors@),
{
    GradientSpec { colors, factor: 1 }
}

} // verus!
