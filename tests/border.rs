use tui_gradient_block::segment::{build_segment, split_segment};
use tui_gradient_block::symbols::{BorderSymbolsSet, EdgeSet, LineSet, SegmentSet};

fn chars(s: &str) -> Vec<char> {
    s.chars().collect()
}

#[test]
fn plain_top_edge_of_seven() {
    let set = SegmentSet::plain();
    assert_eq!(build_segment(&set.top, 7), chars("┌─────┐"));
}

#[test]
fn plain_top_edge_of_three() {
    let set = SegmentSet::plain();
    assert_eq!(build_segment(&set.top, 3), chars("┌─┐"));
}

#[test]
fn tiny_edges_do_not_panic() {
    let set = SegmentSet::plain();
    assert_eq!(build_segment(&set.top, 0), chars("┌─┐"));
    assert_eq!(build_segment(&set.top, 1), chars("┌─┐"));
    assert_eq!(build_segment(&set.top, 2), chars("┌─┐"));
}

#[test]
fn edge_length_matches_span() {
    let set = EdgeSet { start: '<', rep_1: '-', center: '*', rep_2: '=', end: '>' };
    for span in 4..40usize {
        let text = build_segment(&set, span);
        assert_eq!(text.len(), span);
        assert_eq!(text[0], '<');
        assert_eq!(text[span - 1], '>');
        assert_eq!(text[span / 2], '*');
    }
}

#[test]
fn split_halves_cover_the_edge() {
    let set = EdgeSet { start: '<', rep_1: '-', center: '*', rep_2: '=', end: '>' };
    for span in 3..30usize {
        let (first, second) = split_segment(&set, span);
        let mut joined = first.clone();
        joined.extend(second.iter().copied());
        assert_eq!(joined, build_segment(&set, span));
        assert_eq!(first.len() + second.len(), span);
        assert_eq!(*first.last().unwrap(), '*');
        assert_eq!(first.iter().filter(|c| **c == '*').count(), 1);
        assert!(!second.contains(&'*'));
    }
}

#[test]
fn odd_and_even_edges() {
    let set = EdgeSet { start: '<', rep_1: '-', center: '*', rep_2: '=', end: '>' };
    assert_eq!(build_segment(&set, 8), chars("<---*==>"));
    assert_eq!(build_segment(&set, 9), chars("<---*===>"));
    assert_eq!(build_segment(&set, 4), chars("<-*>"));
}

#[test]
fn palette_with_only_lines_uses_plain_corners() {
    let mut p = BorderSymbolsSet::new();
    p.top_horizontal = Some('=');
    p.bottom_horizontal = Some('~');
    p.left_vertical = Some('!');
    p.right_vertical = Some('|');
    let s = p.resolve();
    assert_eq!(s.top, EdgeSet { start: '┌', rep_1: '=', center: '=', rep_2: '=', end: '┐' });
    assert_eq!(s.bottom, EdgeSet { start: '└', rep_1: '~', center: '~', rep_2: '~', end: '┘' });
    assert_eq!(s.left, EdgeSet { start: '┌', rep_1: '!', center: '!', rep_2: '!', end: '└' });
    assert_eq!(s.right, EdgeSet { start: '┐', rep_1: '|', center: '|', rep_2: '|', end: '┘' });
}

#[test]
fn empty_palette_draws_plain() {
    assert_eq!(BorderSymbolsSet::new().resolve(), SegmentSet::plain());
}

#[test]
fn host_styles_are_read_glyph_by_glyph() {
    let d = SegmentSet::from_ratatui_set(LineSet::double());
    assert_eq!(d.top, EdgeSet { start: '╔', rep_1: '═', center: '═', rep_2: '═', end: '╗' });
    assert_eq!(d.left.end, '╚');
    let t = SegmentSet::from_ratatui_set(LineSet::thick());
    assert_eq!(t.right, EdgeSet { start: '┓', rep_1: '┃', center: '┃', rep_2: '┃', end: '┛' });
    let r = SegmentSet::from_ratatui_set(LineSet::rounded());
    assert_eq!(r.bottom.start, '╰');
    assert_eq!(r.corners().top_right, '╮');
}

#[test]
fn unreadable_glyph_becomes_space() {
    let mut l = LineSet::plain();
    l.top_left = String::from("ab");
    l.top_right = String::new();
    let s = SegmentSet::from_ratatui_set(l);
    assert_eq!(s.top.start, ' ');
    assert_eq!(s.top.end, ' ');
}
