use tui_gradient_block::border_styles::misc1;
use tui_gradient_block::color::{GradientError, GradientSpec, Rgb};
use tui_gradient_block::enums::BorderStyle;
use tui_gradient_block::fill::{fill_glyphs, Fill};
use tui_gradient_block::flags::{Borders, CenterFlags, CornerFlags};
use tui_gradient_block::gradient_block::GradientBlock;
use tui_gradient_block::layout::{title_x, title_y, Alignment, Cell, Margin, Padding, Position, Rect};
use tui_gradient_block::symbols::{EdgeSet, LineSet, SegmentSet};
use tui_gradient_block::theme_presets::cool::t_minty_green;
use tui_gradient_block::theme_presets::dark::t_midnight_blurple;
use tui_gradient_block::theme_presets::warm::t_rusty_ruins;
use tui_gradient_block::title::Title;

fn title(text: &str, alignment: Alignment) -> Title {
    Title { text: text.chars().collect(), alignment, position: Position::Top, gradient: None }
}

fn last_at(cells: &[Cell], x: u16, y: u16) -> Option<Cell> {
    cells.iter().rev().find(|c| c.x == x && c.y == y).copied()
}

#[test]
fn disabling_right_border_blanks_its_corners() {
    let b = GradientBlock::new().borders(Borders { top: true, right: false, bottom: true, left: true }, true);
    let s = &b.border_segments;
    assert!(!s.right.should_be_rendered);
    assert!(s.top.should_be_rendered && s.bottom.should_be_rendered && s.left.should_be_rendered);
    assert_eq!(s.top.symbol_set, EdgeSet { start: '┌', rep_1: '─', center: '─', rep_2: '─', end: ' ' });
    assert_eq!(s.bottom.symbol_set, EdgeSet { start: '└', rep_1: '─', center: '─', rep_2: '─', end: ' ' });
    assert_eq!(s.left.symbol_set.start, '┌');
}

#[test]
fn disabling_all_borders_draws_none() {
    let b = GradientBlock::new().borders(Borders::none(), false);
    let plan = b.render(Rect::new(0, 0, 10, 5)).unwrap();
    assert!(plan.cells.is_empty());
}

#[test]
fn centered_title_anchor() {
    let area = Rect::new(0, 0, 21, 3);
    assert_eq!(title_x(area, Alignment::Center, 5, Padding::zero(), Margin::new(0, 0)), 8);
    let shifted = Rect::new(4, 0, 21, 3);
    assert_eq!(title_x(shifted, Alignment::Center, 5, Padding::zero(), Margin::new(0, 0)), 12);
}

#[test]
fn left_and_right_title_anchors() {
    let area = Rect::new(2, 1, 20, 6);
    let pad = Padding { left: 3, right: 1, top: 1, bottom: 2 };
    assert_eq!(title_x(area, Alignment::Left, 4, pad, Margin::new(0, 0)), 5);
    assert_eq!(title_x(area, Alignment::Right, 4, pad, Margin::new(0, 0)), 17);
    assert_eq!(title_x(area, Alignment::Right, 40, pad, Margin::new(0, 0)), 2);
    assert_eq!(title_x(area, Alignment::Left, 4, pad, Margin::new(4, 0)), 7);
    assert_eq!(title_y(area, Position::Top, pad, Margin::new(0, 1)), 3);
    assert_eq!(title_y(area, Position::Bottom, pad, Margin::new(0, 0)), 5);
    assert_eq!(title_y(Rect::new(0, 0, 10, 5), Position::Bottom, Padding::zero(), Margin::new(0, 0)), 5);
    assert_eq!(title_y(Rect::new(0, 0, 10, 5), Position::Bottom, Padding::zero(), Margin::new(0, 1)), 4);
    assert_eq!(title_y(Rect::new(0, 0, 5, 1), Position::Bottom, pad, Margin::new(0, 3)), 0);
}

#[test]
fn titles_never_start_outside_the_area_origin() {
    let area = Rect::new(10, 7, 5, 3);
    let pad = Padding { left: 0, right: 4, top: 0, bottom: 9 };
    assert_eq!(title_x(area, Alignment::Right, 10, Padding::zero(), Margin::new(0, 0)), 10);
    assert_eq!(title_x(area, Alignment::Center, 30, pad, Margin::new(0, 0)), 10);
    assert_eq!(title_y(area, Position::Bottom, pad, Margin::new(0, 2)), 7);
}

#[test]
fn solid_outside_the_palette_takes_the_first_color() {
    let first = Rgb { r: 32, g: 25, b: 71 };
    assert_eq!(t_midnight_blurple::solid(4).colors, vec![first; 2]);
    assert_eq!(t_midnight_blurple::solid(0).colors, vec![first; 2]);
    assert_eq!(t_midnight_blurple::solid(3).colors, vec![Rgb { r: 145, g: 82, b: 255 }; 2]);
    assert_eq!(t_rusty_ruins::solid(9).colors, vec![Rgb { r: 134, g: 56, b: 44 }; 2]);
    assert_eq!(t_minty_green::solid(5).colors, vec![Rgb { r: 168, g: 225, b: 212 }; 2]);
}

#[test]
fn render_draws_border_then_titles() {
    let b = GradientBlock::new().fill(String::from("xy")).title_top(title("T", Alignment::Left));
    let plan = b.render(Rect::new(0, 0, 6, 4)).unwrap();
    assert_eq!(plan.fill.len(), 24);
    assert_eq!(plan.fill[0].0, 'x');
    assert_eq!(plan.fill[3].0, 'y');
    assert_eq!(plan.title_start, 4 + 4 + 6 + 6);
    let t = last_at(&plan.cells, 0, 0).unwrap();
    assert_eq!(t.symbol, 'T');
    assert!(plan.cells[..plan.title_start].iter().any(|c| c.x == 0 && c.y == 0 && c.symbol == '┌'));
    assert_eq!(last_at(&plan.cells, 5, 0).unwrap().symbol, '┐');
    assert_eq!(last_at(&plan.cells, 5, 3).unwrap().symbol, '┘');
    assert_eq!(last_at(&plan.cells, 0, 2).unwrap().symbol, '│');
}

#[test]
fn top_row_of_render() {
    let plan = GradientBlock::new().render(Rect::new(1, 1, 7, 3)).unwrap();
    let row: String = (1..8u16).map(|x| last_at(&plan.cells, x, 1).unwrap().symbol).collect();
    assert_eq!(row, "┌─────┐");
    let bottom: String = (1..8u16).map(|x| last_at(&plan.cells, x, 3).unwrap().symbol).collect();
    assert_eq!(bottom, "└─────┘");
}

#[test]
fn bad_gradient_fails_the_whole_render() {
    let one = GradientSpec { colors: vec![Rgb { r: 1, g: 2, b: 3 }], factor: 1 };
    let b = GradientBlock::new().top_gradient(one.clone());
    assert_eq!(b.render(Rect::new(0, 0, 8, 4)).err(), Some(GradientError::InsufficientColors));
    let hidden = GradientBlock::new().top_gradient(one.clone()).borders(
        Borders { top: false, right: true, bottom: true, left: true },
        false,
    );
    assert!(hidden.render(Rect::new(0, 0, 8, 4)).is_ok());
    let mut t = title("T", Alignment::Center);
    t.gradient = Some(one.clone());
    assert!(GradientBlock::new().title_bottom(t).render(Rect::new(0, 0, 8, 4)).is_err());
    let f = GradientBlock::new().fill(String::from("ab")).fill_gradient(one);
    assert!(f.render(Rect::new(0, 0, 8, 4)).is_err());
}

#[test]
fn gradient_border_colors_cells() {
    let g = GradientSpec { colors: vec![Rgb { r: 0, g: 0, b: 0 }, Rgb { r: 200, g: 0, b: 0 }], factor: 1 };
    let plan = GradientBlock::new().top_gradient(g).render(Rect::new(0, 0, 5, 3)).unwrap();
    let first = last_at(&plan.cells, 0, 0).unwrap();
    let last = last_at(&plan.cells, 4, 0).unwrap();
    assert_eq!(first.fg, Some(Rgb { r: 0, g: 0, b: 0 }));
    assert_eq!(last.fg, Some(Rgb { r: 200, g: 0, b: 0 }));
    assert_eq!(last_at(&plan.cells, 0, 2).unwrap().fg, None);
}

#[test]
fn split_edge_draws_two_halves() {
    let a = GradientSpec { colors: vec![Rgb { r: 9, g: 9, b: 9 }, Rgb { r: 9, g: 9, b: 9 }], factor: 1 };
    let z = GradientSpec { colors: vec![Rgb { r: 1, g: 1, b: 1 }, Rgb { r: 1, g: 1, b: 1 }], factor: 1 };
    let b = GradientBlock::new()
        .top_center_symbol('*')
        .top_gradient(a)
        .top_second_gradient(z)
        .split(Borders { top: true, right: false, bottom: false, left: false });
    let plan = b.render(Rect::new(0, 0, 7, 3)).unwrap();
    let row: String = (0..7u16).map(|x| last_at(&plan.cells, x, 0).unwrap().symbol).collect();
    assert_eq!(row, "┌──*──┐");
    assert_eq!(last_at(&plan.cells, 3, 0).unwrap().fg, Some(Rgb { r: 9, g: 9, b: 9 }));
    assert_eq!(last_at(&plan.cells, 4, 0).unwrap().fg, Some(Rgb { r: 1, g: 1, b: 1 }));
}

#[test]
fn title_is_cut_at_the_right_edge() {
    let b = GradientBlock::new().title_top(title("abcdef", Alignment::Right));
    let plan = b.render(Rect::new(0, 0, 4, 3)).unwrap();
    let titles = &plan.cells[plan.title_start..];
    assert_eq!(titles.len(), 4);
    assert_eq!(titles[0].x, 0);
}

#[test]
fn empty_area_draws_nothing() {
    let plan = GradientBlock::new().render(Rect::new(3, 3, 0, 0)).unwrap();
    assert!(plan.cells.is_empty());
}

#[test]
fn margin_moves_the_border_in() {
    let plan = GradientBlock::new().margin(1, 1).render(Rect::new(0, 0, 6, 5)).unwrap();
    assert_eq!(last_at(&plan.cells, 1, 1).unwrap().symbol, '┌');
    assert!(last_at(&plan.cells, 0, 0).is_none());
}

#[test]
fn style_selection_replaces_every_glyph() {
    let b = GradientBlock::new().top_left('#').with_border_style(BorderStyle::RatatuiSet(LineSet::double()));
    assert_eq!(b.border_segments.top.symbol_set.start, '╔');
    let n = GradientBlock::new().with_border_style(BorderStyle::NewSet);
    assert_eq!(n.border_segments.left.symbol_set, EdgeSet { start: ' ', rep_1: ' ', center: ' ', rep_2: ' ', end: ' ' });
    let m = GradientBlock::new().with_set(misc1());
    assert_eq!(m.border_segments.top.symbol_set.center, '+');
    assert_eq!(SegmentSet::empty().top.start, ' ');
}

#[test]
fn symbol_setters_touch_both_edges_of_a_corner() {
    let b = GradientBlock::new().top_right('#').bottom_left('@').left_vertical_symbol('!').bottom_center_symbol('=');
    let s = &b.border_segments;
    assert_eq!(s.top.symbol_set.end, '#');
    assert_eq!(s.right.symbol_set.start, '#');
    assert_eq!(s.bottom.symbol_set.start, '@');
    assert_eq!(s.left.symbol_set.end, '@');
    assert_eq!(s.left.symbol_set.rep_1, '!');
    assert_eq!(s.left.symbol_set.rep_2, '!');
    assert_eq!(s.bottom.symbol_set.center, '=');
}

#[test]
fn corner_and_center_flags() {
    let b = GradientBlock::new().corners(CornerFlags { top_right: true, top_left: false, bottom_left: true, bottom_right: true });
    assert_eq!(b.border_segments.top.symbol_set.start, ' ');
    assert_eq!(b.border_segments.left.symbol_set.start, ' ');
    assert_eq!(b.border_segments.top.symbol_set.end, '┐');
    let c = GradientBlock::new().top_center_symbol('*').center_symbols(CenterFlags::none());
    assert_eq!(c.border_segments.top.symbol_set.center, ' ');
    let all = GradientBlock::new().corners(CornerFlags::all()).center_symbols(CenterFlags::all());
    assert_eq!(all.border_segments.bottom.symbol_set.end, '┘');
}

#[test]
fn fill_repeats_over_the_area() {
    let mut f = Fill::new();
    f.fill_string = Some(String::from("ab"));
    let glyphs = fill_glyphs(&f, Rect::new(0, 0, 3, 2)).unwrap();
    let text: String = glyphs.iter().map(|g| g.0).collect();
    assert_eq!(text, "ababab");
    assert!(glyphs.iter().all(|g| g.1.is_none()));
    assert!(fill_glyphs(&Fill::new(), Rect::new(0, 0, 3, 2)).unwrap().is_empty());
}

#[test]
fn theme_presets_use_their_palettes() {
    let v = t_minty_green::bottom_right();
    assert_eq!(v.right.colors.len(), 5);
    assert_eq!(v.right.colors[0], Rgb { r: 0, g: 158, b: 119 });
    assert_eq!(v.top.colors, vec![Rgb { r: 0, g: 158, b: 119 }; 2]);
    let d = t_midnight_blurple::up();
    assert_eq!(d.top.colors, vec![Rgb { r: 145, g: 82, b: 255 }; 2]);
    let w = t_rusty_ruins::full();
    assert_eq!(w.horizontal.top.colors.len(), 6);
    assert_eq!(w.left.left.colors[0], Rgb { r: 246, g: 180, b: 100 });
    let plan = GradientBlock::new().with_gradient(t_rusty_ruins::vertical()).render(Rect::new(0, 0, 9, 9));
    assert!(plan.is_ok());
}

#[test]
fn area_at_the_last_cells_is_shrunk() {
    let a = Rect::new(65530, 65530, 100, 100);
    assert_eq!((a.width, a.height), (5, 5));
    let plan = GradientBlock::new().title_top(title("abcdefgh", Alignment::Left)).render(a).unwrap();
    assert!(plan.cells.iter().all(|c| c.x >= 65530 && c.y >= 65530));
    assert_eq!(last_at(&plan.cells, 65534, 65534).unwrap().symbol, '┘');
}

#[test]
fn widest_row_renders() {
    let plan = GradientBlock::new().render(Rect::new(0, 0, u16::MAX, 3)).unwrap();
    assert_eq!(plan.cells.len(), 3 + 3 + 65535 + 65535);
    assert_eq!(last_at(&plan.cells, 65534, 0).unwrap().symbol, '┐');
    assert_eq!(last_at(&plan.cells, 32767, 0).unwrap().symbol, '─');
}

#[test]
fn narrow_areas_clip_the_edges() {
    let plan = GradientBlock::new().render(Rect::new(0, 0, 2, 2)).unwrap();
    let top: String = (0..2u16).map(|x| last_at(&plan.cells, x, 0).unwrap().symbol).collect();
    assert_eq!(top, "┌─");
    let bottom: String = (0..2u16).map(|x| last_at(&plan.cells, x, 1).unwrap().symbol).collect();
    assert_eq!(bottom, "└─");
    let one = GradientBlock::new().render(Rect::new(0, 0, 1, 1)).unwrap();
    assert_eq!(one.cells.len(), 4);
}

#[test]
fn gradient_fill_runs_from_first_to_last_color() {
    let mut f = Fill::new();
    f.fill_string = Some(String::from("ab"));
    f.gradient = Some(GradientSpec { colors: vec![Rgb { r: 255, g: 0, b: 0 }, Rgb { r: 0, g: 0, b: 255 }], factor: 2 });
    let glyphs = fill_glyphs(&f, Rect::new(0, 0, 3, 2)).unwrap();
    assert_eq!(glyphs.len(), 6);
    assert_eq!(glyphs[0], ('a', Some(Rgb { r: 255, g: 0, b: 0 })));
    assert_eq!(glyphs[5], ('b', Some(Rgb { r: 0, g: 0, b: 255 })));
}

#[test]
fn bottom_title_sits_on_the_bottom_edge_row() {
    let mut t = title("B", Alignment::Left);
    t.position = Position::Bottom;
    let plan = GradientBlock::new().title(t).bottom_padding(1).render(Rect::new(0, 0, 6, 4)).unwrap();
    let cell = plan.cells[plan.title_start];
    assert_eq!((cell.x, cell.y, cell.symbol), (0, 3, 'B'));
    assert_eq!(last_at(&plan.cells, 0, 3).unwrap().symbol, 'B');
}
