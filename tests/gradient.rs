use tui_gradient_block::color::{
    colorize, colorize_widths, gradient_text, interpolate, GradientError, GradientSpec, Rgb, T_SCALE,
};

const RED: Rgb = Rgb { r: 255, g: 0, b: 0 };
const BLUE: Rgb = Rgb { r: 0, g: 0, b: 255 };

fn red_to_blue(factor: u32) -> GradientSpec {
    GradientSpec { colors: vec![RED, BLUE], factor }
}

#[test]
fn two_color_ramp_over_three_cells() {
    let colors = colorize(&red_to_blue(1), 3).unwrap();
    assert_eq!(colors, vec![RED, Rgb { r: 128, g: 0, b: 128 }, BLUE]);
}

#[test]
fn gradient_text_pairs_characters_with_colors() {
    let text: Vec<char> = "ABC".chars().collect();
    let cells = gradient_text(&red_to_blue(1), &text).unwrap();
    assert_eq!(cells, vec![('A', RED), ('B', Rgb { r: 128, g: 0, b: 128 }), ('C', BLUE)]);
}

#[test]
fn single_color_is_rejected_for_any_length() {
    let spec = GradientSpec { colors: vec![Rgb { r: 10, g: 10, b: 10 }], factor: 1 };
    for n in 0..6 {
        assert_eq!(colorize(&spec, n), Err(GradientError::InsufficientColors));
    }
    let empty = GradientSpec { colors: vec![], factor: 1 };
    assert_eq!(colorize(&empty, 4), Err(GradientError::InsufficientColors));
    let text: Vec<char> = "abc".chars().collect();
    assert_eq!(gradient_text(&spec, &text), Err(GradientError::InsufficientColors));
}

#[test]
fn colorize_gives_one_color_per_cell() {
    let spec = GradientSpec { colors: vec![RED, BLUE, Rgb { r: 0, g: 255, b: 0 }], factor: 2 };
    for n in [0usize, 1, 2, 7, 100] {
        assert_eq!(colorize(&spec, n).unwrap().len(), n);
    }
}

#[test]
fn empty_run_gives_no_colors() {
    assert_eq!(colorize(&red_to_blue(1), 0), Ok(vec![]));
    assert_eq!(gradient_text(&red_to_blue(1), &vec![]), Ok(vec![]));
}

#[test]
fn one_cell_takes_the_first_color() {
    assert_eq!(colorize(&red_to_blue(1), 1), Ok(vec![RED]));
}

#[test]
fn interpolation_boundaries() {
    let a = Rgb { r: 12, g: 200, b: 33 };
    let b = Rgb { r: 240, g: 7, b: 99 };
    for factor in 1..5 {
        assert_eq!(interpolate(a, b, 0, factor), a);
        assert_eq!(interpolate(a, b, T_SCALE, factor), b);
    }
}

#[test]
fn easing_factor_keeps_start_color_longer() {
    assert_eq!(interpolate(RED, BLUE, T_SCALE / 2, 1), Rgb { r: 128, g: 0, b: 128 });
    assert_eq!(interpolate(RED, BLUE, T_SCALE / 2, 2), Rgb { r: 191, g: 0, b: 64 });
}

#[test]
fn three_colors_make_two_bands() {
    let green = Rgb { r: 0, g: 255, b: 0 };
    let spec = GradientSpec { colors: vec![RED, green, BLUE], factor: 1 };
    let colors = colorize(&spec, 5).unwrap();
    assert_eq!(colors[0], RED);
    assert_eq!(colors[2], green);
    assert_eq!(colors[4], BLUE);
}

#[test]
fn widths_weight_positions() {
    let colors = colorize_widths(&red_to_blue(1), &vec![2, 1, 1]).unwrap();
    assert_eq!(colors, vec![RED, Rgb { r: 85, g: 0, b: 170 }, BLUE]);
}

#[test]
fn wide_characters_take_two_columns() {
    let wide: Vec<char> = vec!['漢', 'a', 'b'];
    let narrow: Vec<char> = vec!['x', 'a', 'b'];
    let w = gradient_text(&red_to_blue(1), &wide).unwrap();
    let n = gradient_text(&red_to_blue(1), &narrow).unwrap();
    assert_eq!(w[1], ('a', Rgb { r: 85, g: 0, b: 170 }));
    assert_eq!(n[1], ('a', Rgb { r: 128, g: 0, b: 128 }));
}

#[test]
fn error_message_names_the_rule() {
    let m = GradientError::InsufficientColors.message();
    assert_eq!(m, "a gradient needs at least two colors; repeat the same color for a solid fill");
}
