//! A bordered terminal block whose edges, titles and fill can be drawn with color
//! gradients. The library computes what a render pass writes, cell by cell: the
//! glyphs of each edge from a glyph set and the area, the color of each glyph from
//! a gradient, and where each title sits. The host framework writes the result
//! into its buffer.

pub mod color;
pub mod symbols;
pub mod segment;
pub mod layout;
pub mod border_segment;
pub mod fill;
pub mod title;
pub mod gradient_block;
pub mod flags;
pub mod border_styles;
pub mod enums;
pub mod setter_functions;
pub mod gradient;
pub mod theme_presets;
