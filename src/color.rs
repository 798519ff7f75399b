use vstd::prelude::*;

verus! {

/// Fixed-point scale of an interpolation parameter: `T_SCALE` stands for 1.
pub const T_SCALE: u64 = 65536;

/// An 8-bit-per-channel color.
#[derive(Clone, Copy, Debug, PartialEq, Eq, Structural)]
pub struct Rgb {
    pub r: u8,
    pub g: u8,
    pub b: u8,
}

/// `t^factor` in fixed point, each product rounded down.
pub open spec fn power_fixed(t: nat, factor: nat) -> nat
    decreases factor,
{
    if factor == 0 {
        T_SCALE as nat
    } else {
        power_fixed(t, (factor - 1) as nat) * t / (T_SCALE as nat)
    }
}

/// One channel blended with weight `w` (out of `T_SCALE`) on `e`, rounded half up.
pub open spec fn blend_channel(s: u8, e: u8, w: nat) -> int {
    ((T_SCALE - w) * s + w * e + T_SCALE / 2) / (T_SCALE as int)
}

/// The color between `a` and `b` at fixed-point position `t`, eased by `t^factor`.
pub open spec fn interpolate_spec(a: Rgb, b: Rgb, t: nat, factor: nat) -> Rgb {
    let w = power_fixed(t, factor);
    Rgb {
        r: blend_channel(a.r, b.r, w) as u8,
        g: blend_channel(a.g, b.g, w) as u8,
        b: blend_channel(a.b, b.b, w) as u8,
    }
}

pub proof fn lemma_power_fixed_bounded(t: nat, factor: nat)
    requires
        t <= T_SCALE,
    ensures
        power_fixed(t, factor) <= T_SCALE,
    decreases factor,
{
    if factor > 0 {
        let p = power_fixed(t, (factor - 1) as nat);
        lemma_power_fixed_bounded(t, (factor - 1) as nat);
        assert(p * t <= T_SCALE * T_SCALE) by (nonlinear_arith)
            requires p <= T_SCALE, t <= T_SCALE;
        assert(p * t / (T_SCALE as nat) <= T_SCALE) by (nonlinear_arith)
            requires p * t <= T_SCALE * T_SCALE;
    }
}

proof fn lemma_blend_bounded(s: u8, e: u8, w: nat)
    requires
        w <= T_SCALE,
    ensures
        0 <= blend_channel(s, e, w) <= 255,
        (T_SCALE - w) * s + w * e + T_SCALE / 2 <= 255 * T_SCALE + T_SCALE / 2,
{
    let a = (T_SCALE - w) as int;
    assert(a * s <= a * 255) by (nonlinear_arith)
        requires 0 <= a, s <= 255;
    assert(w * e <= w * 255) by (nonlinear_arith)
        requires 0 <= w, e <= 255;
    assert(a * s >= 0 && w * e >= 0) by (nonlinear_arith)
        requires 0 <= a, 0 <= w;
    let num = a * s + w * e + T_SCALE / 2;
    assert(num / (T_SCALE as int) <= 255) by (nonlinear_arith)
        requires num <= 255 * T_SCALE + T_SCALE / 2;
}

/// The fixed-point power `t^factor`, computed exactly as `power_fixed` states.
fn power_fixed_exec(t: u64, factor: u32) -> (r: u64)
    requires
        t <= T_SCALE,
    ensures
        r == power_fixed(t as nat, factor as nat),
        r <= T_SCALE,
{
    let mut p: u64 = T_SCALE;
    let mut k: u32 = 0;
    while k < factor
        invariant
            k <= factor,
            t <= T_SCALE,
            p == power_fixed(t as nat, k as nat),
            p <= T_SCALE,
        decreases factor - k,
    {
        proof {
            assert(p * t <= T_SCALE * T_SCALE) by (nonlinear_arith)
                requires p <= T_SCALE, t <= T_SCALE;
            lemma_power_fixed_bounded(t as nat, (k + 1) as nat);
        }
        p = p * t / T_SCALE;
        k = k + 1;
    }
    p
}

fn blend_channel_exec(s: u8, e: u8, w: u64) -> (r: u8)
    requires
        w <= T_SCALE,
    ensures
        r as int == blend_channel(s, e, w as nat),
{
    proof {
        lemma_blend_bounded(s, e, w as nat);
    }
    let num: u64 = (T_SCALE - w) * (s as u64) + w * (e as u64) + T_SCALE / 2;
    (num / T_SCALE) as u8
}

/// Blends `start` into `end` at position `t` (a fixed-point fraction of `T_SCALE`),
/// with `t` raised to `factor` first: each channel is
/// `round((1 - t') * start + t' * end)` with `t' = t^factor`.
pub fn interpolate(start: Rgb, end: Rgb, t: u64, factor: u32) -> (c: Rgb)
    requires
        t <= T_SCALE,
    ensures
        c == interpolate_spec(start, end, t as nat, factor as nat),
{
    let w = power_fixed_exec(t, factor);
    Rgb {
        r: blend_channel_exec(start.r, end.r, w),
        g: blend_channel_exec(start.g, end.g, w),
        b: blend_channel_exec(start.b, end.b, w),
    }
}


/// The interpolation parameter 0 gives the start color for any positive factor,
/// and the full parameter `T_SCALE` gives the end color for any factor.
pub proof fn lemma_interpolate_boundaries(a: Rgb, b: Rgb, factor: nat)
    ensures
        factor > 0 ==> interpolate_spec(a, b, 0, factor) == a,
        interpolate_spec(a, b, T_SCALE as nat, factor) == b,
{
    lemma_power_fixed_at_zero(factor);
    lemma_power_fixed_at_one(factor);
    lemma_blend_at_ends(a.r, b.r);
    lemma_blend_at_ends(a.g, b.g);
    lemma_blend_at_ends(a.b, b.b);
}

proof fn lemma_power_fixed_at_zero(factor: nat)
    ensures
        factor > 0 ==> power_fixed(0, factor) == 0,
{
    if factor > 0 {
        assert(power_fixed(0, (factor - 1) as nat) * 0 == 0);
    }
}

proof fn lemma_power_fixed_at_one(factor: nat)
    ensures
        power_fixed(T_SCALE as nat, factor) == T_SCALE,
    decreases factor,
{
    if factor > 0 {
        lemma_power_fixed_at_one((factor - 1) as nat);
        let k = T_SCALE as nat;
        assert(k * k / k == k) by (nonlinear_arith)
            requires k == 65536;
    }
}

proof fn lemma_blend_at_ends(s: u8, e: u8)
    ensures
        blend_channel(s, e, 0) == s,
        blend_channel(s, e, T_SCALE as nat) == e,
{
    let k = T_SCALE as int;
    assert((k * s + k / 2) / k == s) by (nonlinear_arith)
        requires k == 65536, 0 <= s <= 255;
    assert((k * e + k / 2) / k == e) by (nonlinear_arith)
        requires k == 65536, 0 <= e <= 255;
    assert((T_SCALE - 0) * s + 0 * e == k * s);
    assert((T_SCALE - T_SCALE) * s + T_SCALE * e == k * e);
}


/// An ordered color ramp with an easing exponent. The exponent is a whole number:
/// 1 blends linearly, larger values keep the start color longer.
#[derive(Clone, Debug)]
pub struct GradientSpec {
    pub colors: Vec<Rgb>,
    pub factor: u32,
}

/// The one way resolving a gradient can fail.
#[derive(Clone, Copy, Debug, PartialEq, Eq, Structural)]
pub enum GradientError {
    /// A gradient needs at least two colors (repeat a color for a solid run).
    InsufficientColors,
}

impl GradientError {
    /// The message shown to the user.
    pub fn message(&self) -> (r: &'static str)
        ensures
            r@ == "a gradient needs at least two colors; repeat the same color for a solid fill"@,
    {
        "a gradient needs at least two colors; repeat the same color for a solid fill"
    }
}

/// Number of color bands of a ramp: one fewer than its colors.
pub open spec fn bands(colors: Seq<Rgb>) -> nat {
    (colors.len() - 1) as nat
}

/// Which band the cell at `offset` (of `0..=last`) falls in, clamped to the last band.
pub open spec fn band_of(nb: nat, offset: nat, last: nat) -> nat {
    let d = if last == 0 { 1nat } else { last };
    let o = if offset > last { last } else { offset };
    if (o * nb) / d >= nb { (nb - 1) as nat } else { (o * nb) / d }
}

/// The fixed-point position of the cell at `offset` within its band.
pub open spec fn position_in_band(nb: nat, offset: nat, last: nat) -> nat {
    let d = if last == 0 { 1nat } else { last };
    let o = if offset > last { last } else { offset };
    (((o * nb - band_of(nb, offset, last) * d) * T_SCALE) / (d as int)) as nat
}

/// The color of the cell that starts `offset` columns into a run whose last column is
/// `last`: the run is cut into equal bands, one per pair of neighbouring colors, the
/// first column taking the first color and the last column the last color.
pub open spec fn gradient_color(colors: Seq<Rgb>, factor: nat, offset: nat, last: nat) -> Rgb {
    let nb = bands(colors);
    let k = band_of(nb, offset, last);
    interpolate_spec(colors[k as int], colors[k + 1int], position_in_band(nb, offset, last), factor)
}

/// The colors of `n` cells of width one.
pub open spec fn colorize_spec(colors: Seq<Rgb>, factor: nat, n: nat) -> Seq<Rgb> {
    let last: nat = if n == 0 { 0 } else { (n - 1) as nat };
    Seq::new(n, |i: int| gradient_color(colors, factor, i as nat, last))
}

proof fn lemma_band_bounds(nb: nat, offset: nat, last: nat)
    requires
        nb >= 1,
    ensures
        band_of(nb, offset, last) < nb,
        ({
            let d = if last == 0 { 1nat } else { last };
            let o = if offset > last { last } else { offset };
            &&& band_of(nb, offset, last) * d <= o * nb
            &&& o * nb - band_of(nb, offset, last) * d <= d
        }),
        position_in_band(nb, offset, last) <= T_SCALE,
{
    let d: nat = if last == 0 { 1nat } else { last };
    let o: nat = if offset > last { last } else { offset };
    let p = o * nb;
    let k = band_of(nb, offset, last);
    assert(p <= d * nb) by (nonlinear_arith)
        requires o <= d, p == o * nb, 0 <= nb;
    assert((p / d) * d <= p && p - (p / d) * d < d) by (nonlinear_arith)
        requires d > 0, p >= 0;
    if p / d >= nb {
        assert(k == nb - 1);
        assert(k * d <= p && p - k * d <= d) by (nonlinear_arith)
            requires k == nb - 1, p <= d * nb, (p / d) * d <= p, p / d >= nb, d > 0;
    } else {
        assert(k == p / d);
    }
    let q = p - k * d;
    assert(q * T_SCALE / (d as int) <= T_SCALE) by (nonlinear_arith)
        requires 0 <= q <= d, d > 0;
}

/// The color of the cell that starts `offset` columns into a run whose last column is `last`.
fn color_at(colors: &Vec<Rgb>, factor: u32, offset: usize, last: usize) -> (c: Rgb)
    requires
        colors@.len() >= 2,
    ensures
        c == gradient_color(colors@, factor as nat, offset as nat, last as nat),
{
    let nb: usize = colors.len() - 1;
    let d: usize = if last == 0 { 1 } else { last };
    let o: usize = if offset > last { last } else { offset };
    proof {
        lemma_band_bounds(nb as nat, offset as nat, last as nat);
        assert((o as nat) * (nb as nat) <= (usize::MAX as nat) * (usize::MAX as nat)) by (nonlinear_arith)
            requires o <= usize::MAX, nb <= usize::MAX;
        assert((usize::MAX as nat) * (usize::MAX as nat) < u128::MAX) by (nonlinear_arith)
            requires usize::MAX <= u64::MAX;
    }
    let p: u128 = (o as u128) * (nb as u128);
    let q: u128 = p / (d as u128);
    let k: usize = if q >= nb as u128 { nb - 1 } else { q as usize };
    proof {
        assert((k as nat) * (d as nat) <= p);
        assert(p - (k as nat) * (d as nat) <= d);
    }
    let rem: u128 = p - (k as u128) * (d as u128);
    proof {
        assert(rem * (T_SCALE as nat) <= (usize::MAX as nat) * 65536) by (nonlinear_arith)
            requires rem <= usize::MAX;
        assert((usize::MAX as nat) * 65536 < u128::MAX) by (nonlinear_arith)
            requires usize::MAX <= u64::MAX;
    }
    let t: u128 = rem * (T_SCALE as u128) / (d as u128);
    interpolate(colors[k], colors[k + 1], t as u64, factor)
}

/// Over two or more cells, the first cell takes the ramp's first color and the last
/// cell its last color.
pub proof fn lemma_ramp_ends(colors: Seq<Rgb>, factor: nat, n: nat)
    requires
        colors.len() >= 2,
        factor > 0,
        n >= 2,
    ensures
        colorize_spec(colors, factor, n)[0] == colors[0],
        colorize_spec(colors, factor, n)[n - 1] == colors.last(),
{
    let nb = bands(colors);
    let last = (n - 1) as nat;
    assert(band_of(nb, 0, last) == 0) by {
        assert(0 * nb == 0);
    }
    assert(position_in_band(nb, 0, last) == 0) by {
        assert(0 * nb == 0);
        assert((0 * T_SCALE) / (last as int) == 0);
    }
    lemma_interpolate_boundaries(colors[0], colors[1], factor);
    assert((last * nb) / last == nb) by (nonlinear_arith)
        requires last > 0;
    assert(band_of(nb, last, last) == nb - 1);
    assert(last * nb - (nb - 1) * last == last) by (nonlinear_arith)
        requires last > 0, nb >= 1;
    assert((last * T_SCALE) / (last as int) == T_SCALE) by (nonlinear_arith)
        requires last > 0;
    assert(position_in_band(nb, last, last) == T_SCALE);
    lemma_interpolate_boundaries(colors[nb - 1], colors[nb as int], factor);
}

/// Resolves a gradient over `n` cells of width one: fails with `InsufficientColors`
/// exactly when the ramp has fewer than two colors, else gives `n` colors.
pub fn colorize(spec: &GradientSpec, n: usize) -> (r: Result<Vec<Rgb>, GradientError>)
    ensures
        spec.colors@.len() < 2 <==> r is Err,
        r is Err ==> r == Err::<Vec<Rgb>, GradientError>(GradientError::InsufficientColors),
        r matches Ok(v) ==> v@ == colorize_spec(spec.colors@, spec.factor as nat, n as nat),
        r matches Ok(v) ==> v@.len() == n,
{
    if spec.colors.len() < 2 {
        return Err(GradientError::InsufficientColors);
    }
    let last: usize = if n == 0 { 0 } else { n - 1 };
    let mut out: Vec<Rgb> = Vec::new();
    let mut i: usize = 0;
    while i < n
        invariant
            i <= n,
            spec.colors@.len() >= 2,
            last as nat == (if n == 0 { 0 } else { (n - 1) as nat }),
            out@.len() == i,
            forall|j: int| 0 <= j < i ==> out@[j] == colorize_spec(spec.colors@, spec.factor as nat, n as nat)[j],
        decreases n - i,
    {
        let c = color_at(&spec.colors, spec.factor, i, last);
        out.push(c);
        i = i + 1;
    }
    assert(out@ =~= colorize_spec(spec.colors@, spec.factor as nat, n as nat));
    Ok(out)
}


/// Total columns of a run of cells with the given widths.
pub open spec fn width_sum(ws: Seq<usize>) -> nat
    decreases ws.len(),
{
    if ws.len() == 0 {
        0
    } else {
        width_sum(ws.drop_last()) + (ws.last() as nat)
    }
}

/// The colors of cells with the given column widths: each cell takes the color of the
/// column it starts at.
pub open spec fn colorize_widths_spec(colors: Seq<Rgb>, factor: nat, ws: Seq<usize>) -> Seq<Rgb> {
    let total = width_sum(ws);
    let last: nat = if total == 0 { 0 } else { (total - 1) as nat };
    Seq::new(ws.len(), |i: int| gradient_color(colors, factor, width_sum(ws.take(i)), last))
}

proof fn lemma_width_sum_prefix(ws: Seq<usize>, i: int)
    requires
        0 <= i < ws.len(),
    ensures
        width_sum(ws.take(i + 1)) == width_sum(ws.take(i)) + ws[i],
        width_sum(ws.take(i + 1)) <= width_sum(ws),
    decreases ws.len(),
{
    assert(ws.take(i + 1).drop_last() =~= ws.take(i));
    if i + 1 < ws.len() {
        lemma_width_sum_prefix(ws.drop_last(), i);
        assert(ws.drop_last().take(i + 1) =~= ws.take(i + 1));
        assert(ws.drop_last().take(i) =~= ws.take(i));
    } else {
        assert(ws.take(i + 1) =~= ws);
    }
}

/// Resolves a gradient over cells of the given column widths (a wide character takes
/// two columns): fails with `InsufficientColors` exactly when the ramp has fewer than
/// two colors, else gives one color per cell.
pub fn colorize_widths(spec: &GradientSpec, widths: &Vec<usize>) -> (r: Result<Vec<Rgb>, GradientError>)
    requires
        width_sum(widths@) <= usize::MAX,
    ensures
        spec.colors@.len() < 2 <==> r is Err,
        r is Err ==> r == Err::<Vec<Rgb>, GradientError>(GradientError::InsufficientColors),
        r matches Ok(v) ==> v@ == colorize_widths_spec(spec.colors@, spec.factor as nat, widths@),
{
    if spec.colors.len() < 2 {
        return Err(GradientError::InsufficientColors);
    }
    let ghost ws = widths@;
    let mut total: usize = 0;
    let mut i: usize = 0;
    while i < widths.len()
        invariant
            i <= ws.len(),
            ws == widths@,
            width_sum(ws) <= usize::MAX,
            total as nat == width_sum(ws.take(i as int)),
        decreases ws.len() - i,
    {
        proof {
            lemma_width_sum_prefix(ws, i as int);
        }
        total = total + widths[i];
        i = i + 1;
    }
    assert(ws.take(ws.len() as int) =~= ws);
    let last: usize = if total == 0 { 0 } else { total - 1 };
    let ghost want = colorize_widths_spec(spec.colors@, spec.factor as nat, ws);
    let mut out: Vec<Rgb> = Vec::new();
    let mut offset: usize = 0;
    i = 0;
    while i < widths.len()
        invariant
            i <= ws.len(),
            ws == widths@,
            spec.colors@.len() >= 2,
            width_sum(ws) <= usize::MAX,
            total as nat == width_sum(ws),
            last as nat == (if total == 0 { 0 } else { (total - 1) as nat }),
            offset as nat == width_sum(ws.take(i as int)),
            want == colorize_widths_spec(spec.colors@, spec.factor as nat, ws),
            out@.len() == i,
            forall|j: int| 0 <= j < i ==> out@[j] == want[j],
        decreases ws.len() - i,
    {
        let c = color_at(&spec.colors, spec.factor, offset, last);
        out.push(c);
        proof {
            lemma_width_sum_prefix(ws, i as int);
        }
        offset = offset + widths[i];
        i = i + 1;
    }
    assert(out@ =~= want);
    Ok(out)
}

proof fn lemma_unit_width_sum(ws: Seq<usize>, i: int)
    requires
        0 <= i <= ws.len(),
        forall|k: int| 0 <= k < ws.len() ==> ws[k] == 1,
    ensures
        width_sum(ws.take(i)) == i,
    decreases i,
{
    if i > 0 {
        lemma_unit_width_sum(ws, i - 1);
        assert(ws.take(i).drop_last() =~= ws.take(i - 1));
    }
}

/// Cells all one column wide are colored as `colorize` colors that many cells.
pub proof fn lemma_unit_widths(colors: Seq<Rgb>, factor: nat, ws: Seq<usize>)
    requires
        forall|k: int| 0 <= k < ws.len() ==> ws[k] == 1,
    ensures
        colorize_widths_spec(colors, factor, ws) == colorize_spec(colors, factor, ws.len()),
{
    lemma_unit_width_sum(ws, ws.len() as int);
    assert(ws.take(ws.len() as int) =~= ws);
    assert forall|i: int| 0 <= i < ws.len() implies width_sum(ws.take(i)) == i by {
        lemma_unit_width_sum(ws, i);
    }
    assert(colorize_widths_spec(colors, factor, ws) =~= colorize_spec(colors, factor, ws.len()));
}

/// Columns a character takes on a terminal, as the host's text model measures it.
pub uninterp spec fn display_width(c: char) -> nat;

/// Relies on ratatui's `Span::width`: the display width of a one-character span.
#[verifier::external_body]
fn char_width(c: char) -> (w: usize)
    ensures
        w as nat == display_width(c),
{
    ratatui::text::Span::raw(c.to_string()).width()
}

/// Columns a cell holding `c` takes: its display width, at most two.
pub open spec fn cell_width(c: char) -> usize {
    if display_width(c) > 2 { 2 } else { display_width(c) as usize }
}

/// Columns a cell holding `c` takes, as `cell_width` states.
pub fn cell_width_of(c: char) -> (w: usize)
    ensures
        w == cell_width(c),
{
    let w = char_width(c);
    if w > 2 { 2 } else { w }
}

/// Pairs each character of `text` with its gradient color, cells weighted by their
/// column widths. Fails with `InsufficientColors` exactly when the ramp has fewer
/// than two colors.
pub fn gradient_text(spec: &GradientSpec, text: &Vec<char>) -> (r: Result<Vec<(char, Rgb)>, GradientError>)
    requires
        text@.len() <= usize::MAX / 2,
    ensures
        spec.colors@.len() < 2 <==> r is Err,
        r is Err ==> r == Err::<Vec<(char, Rgb)>, GradientError>(GradientError::InsufficientColors),
        r matches Ok(v) ==> {
            let want = colorize_widths_spec(spec.colors@, spec.factor as nat, text@.map_values(|c: char| cell_width(c)));
            &&& v@.len() == text@.len()
            &&& forall|i: int| 0 <= i < v@.len() ==> v@[i] == (text@[i], want[i])
        },
{
    let mut widths: Vec<usize> = Vec::new();
    let mut i: usize = 0;
    while i < text.len()
        invariant
            i <= text@.len(),
            text@.len() <= usize::MAX / 2,
            widths@ =~= text@.take(i as int).map_values(|c: char| cell_width(c)),
            width_sum(widths@) <= 2 * i,
        decreases text@.len() - i,
    {
        let w2 = cell_width_of(text[i]);
        proof {
            assert(widths@.push(w2).drop_last() =~= widths@);
        }
        widths.push(w2);
        i = i + 1;
        assert(widths@ =~= text@.take(i as int).map_values(|c: char| cell_width(c)));
    }
    assert(text@.take(text@.len() as int) =~= text@);
    let colors = colorize_widths(spec, &widths)?;
    let mut out: Vec<(char, Rgb)> = Vec::new();
    let mut j: usize = 0;
    while j < text.len()
        invariant
            j <= text@.len(),
            colors@.len() == text@.len(),
            out@.len() == j,
            forall|k: int| 0 <= k < j ==> out@[k] == (text@[k], colors@[k]),
        decreases text@.len() - j,
    {
        out.push((text[j], colors[j]));
        j = j + 1;
    }
    Ok(out)
}

} // verus!
