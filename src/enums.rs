use vstd::prelude::*;
use crate::symbols::{from_line_set_spec, resolve_spec, uniform_set, BorderSymbolsSet, LineSet, SegmentSet};

verus! {

/// A choice of border glyphs.
#[derive(Clone, Debug)]
pub enum BorderStyle {
    /// Every glyph a space, to be set one by one.
    NewSet,
    /// Edge sets given whole.
    CustomSet(SegmentSet),
    /// One of the host's border styles.
    RatatuiSet(LineSet),
    /// A palette of optional glyphs, resolved through its fallbacks.
    Palette(BorderSymbolsSet),
}

/// The edge sets a style selects.
pub open spec fn style_set(style: BorderStyle) -> SegmentSet {
    match style {
        BorderStyle::NewSet => SegmentSet {
            top: uniform_set(' '),
            bottom: uniform_set(' '),
            right: uniform_set(' '),
            left: uniform_set(' '),
        },
        BorderStyle::CustomSet(s) => s,
        BorderStyle::RatatuiSet(l) => from_line_set_spec(l),
        BorderStyle::Palette(p) => resolve_spec(p),
    }
}

impl BorderStyle {
    /// The edge sets this style selects.
    pub fn segment_set(self) -> (r: SegmentSet)
        ensures
            r == style_set(self),
    {
        match self {
            BorderStyle::NewSet => SegmentSet::empty(),
            BorderStyle::CustomSet(s) => s,
            BorderStyle::RatatuiSet(l) => SegmentSet::from_ratatui_set(l),
            BorderStyle::Palette(p) => p.resolve(),
        }
    }
}

} // verus!
