use vstd::prelude::*;

verus! {

/// Which edges of a border are drawn.
#[derive(Clone, Copy, Debug, PartialEq, Eq, Structural)]
pub struct Borders {
    pub top: bool,
    pub right: bool,
    pub bottom: bool,
    pub left: bool,
}

impl Borders {
    /// All four edges.
    pub fn all() -> (r: Borders)
        ensures
            r == (Borders { top: true, right: true, bottom: true, left: true }),
    {
        Borders { top: true, right: true, bottom: true, left: true }
    }

    /// No edge.
    pub fn none() -> (r: Borders)
        ensures
            r == (Borders { top: false, right: false, bottom: false, left: false }),
    {
        Borders { top: false, right: false, bottom: false, left: false }
    }
}

/// Which corners of a border keep their glyph.
#[derive(Clone, Copy, Debug, PartialEq, Eq, Structural)]
pub struct CornerFlags {
    pub top_right: bool,
    pub top_left: bool,
    pub bottom_left: bool,
    pub bottom_right: bool,
}

impl CornerFlags {
    /// All four corners.
    pub fn all() -> (r: CornerFlags)
        ensures
            r == (CornerFlags { top_right: true, top_left: true, bottom_left: true, bottom_right: true }),
    {
        CornerFlags { top_right: true, top_left: true, bottom_left: true, bottom_right: true }
    }

    /// No corner.
    pub fn none() -> (r: CornerFlags)
        ensures
            r == (CornerFlags { top_right: false, top_left: false, bottom_left: false, bottom_right: false }),
    {
        CornerFlags { top_right: false, top_left: false, bottom_left: false, bottom_right: false }
    }
}

/// Which edges keep their middle glyph.
#[derive(Clone, Copy, Debug, PartialEq, Eq, Structural)]
pub struct CenterFlags {
    pub top: bool,
    pub bottom: bool,
    pub left: bool,
    pub right: bool,
}

impl CenterFlags {
    /// All four middle glyphs.
    pub fn all() -> (r: CenterFlags)
        ensures
            r == (CenterFlags { top: true, bottom: true, left: true, right: true }),
    {
        CenterFlags { top: true, bottom: true, left: true, right: true }
    }

    /// No middle glyph.
    pub fn none() -> (r: CenterFlags)
        ensures
            r == (CenterFlags { top: false, bottom: false, left: false, right: false }),
    {
        CenterFlags { top: false, bottom: false, left: false, right: false }
    }
}

} // verus!
