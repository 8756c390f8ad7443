//! Horizontal layout of the chart: the width of the plot inside the widget,
//! the column of each sample, and the sample nearest to a pointer.

use vstd::prelude::*;
use vstd::arithmetic::div_mod::lemma_fundamental_div_mod;
use crate::fixed::lemma_div_bounds;
use crate::fixed::lemma_div_monotone;
use crate::fixed::round_div;

verus! {

/// Space to the left of the plot, in pixels; the axis is a widget of its own.
pub const LEFT_MARGIN: i64 = 0;

/// Space to the right of the plot, in pixels.
pub const RIGHT_MARGIN: i64 = 16;

/// Width that the widget asks for per sample, in pixels.
pub const SAMPLE_WIDTH: i64 = 60;

/// Least width that the widget asks for, in pixels.
pub const MIN_WIDTH: i64 = 100;

/// Height that the widget asks for, in pixels.
pub const CHART_HEIGHT: i32 = 260;

/// Width of the plot in pixels inside a widget `width` pixels wide: what the
/// margins leave, and one pixel at least.
pub open spec fn plot_width(width: int) -> int {
    if width - LEFT_MARGIN - RIGHT_MARGIN < 1 {
        1
    } else {
        width - LEFT_MARGIN - RIGHT_MARGIN
    }
}

/// Column of sample `i` of `count`, in thousandths of a pixel, on a plot
/// `plot` pixels wide: the samples are spread evenly from edge to edge, and a
/// single one stands in the middle.
pub open spec fn column(plot: int, count: int, i: int) -> int {
    if count <= 1 {
        LEFT_MARGIN * 1000 + (plot * 1000) / 2
    } else {
        LEFT_MARGIN * 1000 + (plot * 1000 * i) / (count - 1)
    }
}

/// All columns of a plot.
pub open spec fn columns(plot: int, count: int) -> Seq<int> {
    Seq::new(count as nat, |i: int| column(plot, count, i))
}

/// Distance between two columns in thousandths of a pixel; none for fewer
/// than two samples.
pub open spec fn column_step(plot: int, count: int) -> int {
    if count <= 1 {
        0
    } else {
        (plot * 1000) / (count - 1)
    }
}

/// Width in pixels that a chart of `count` samples asks for.
pub open spec fn requested_width(count: int) -> int {
    if count * SAMPLE_WIDTH < MIN_WIDTH {
        MIN_WIDTH as int
    } else if count * SAMPLE_WIDTH > i32::MAX {
        i32::MAX as int
    } else {
        count * SAMPLE_WIDTH
    }
}

/// The sample nearest to a pointer at `pointer_x`, on a plot that starts at
/// `plot_left` and is `plot_width` wide, all in pixels: the pointer's
/// distance from the left edge in column steps, rounded to the nearest whole
/// number, and brought into `0 ..= count - 1`. A plot without width has every
/// pointer on sample 0.
pub open spec fn nearest(pointer_x: int, plot_left: int, plot_width: int, count: int) -> int {
    if plot_width <= 0 || count <= 1 {
        0
    } else {
        let raw = round_div((pointer_x - plot_left) * (count - 1), plot_width);
        if raw < 0 {
            0
        } else if raw > count - 1 {
            count - 1
        } else {
            raw
        }
    }
}

/// Width of the plot in pixels.
pub fn plot_width_px(width: i32) -> (plot: i64)
    ensures
        plot == plot_width(width as int),
        1 <= plot <= i32::MAX,
{
    let inner: i64 = width as i64 - LEFT_MARGIN - RIGHT_MARGIN;
    if inner < 1 {
        1
    } else {
        inner
    }
}

/// Width in pixels that a chart of `count` samples asks for.
pub fn min_width(count: usize) -> (width: i32)
    ensures
        width == requested_width(count as int),
{
    if count < 2 {
        100
    } else if count > 35_791_394 {
        i32::MAX
    } else {
        (count as i64 * SAMPLE_WIDTH) as i32
    }
}

/// Columns of `count` samples on a plot `plot` pixels wide.
pub fn x_positions(plot: i64, count: usize) -> (xs: Vec<i64>)
    requires
        1 <= plot <= i32::MAX,
    ensures
        xs.len() == count,
        xs@.map_values(|x: i64| x as int) == columns(plot as int, count as int),
        forall|i: int| 0 <= i < count ==> 0 <= #[trigger] xs@[i] <= plot * 1000,
{
    let mut xs: Vec<i64> = Vec::new();
    if count == 1 {
        xs.push(LEFT_MARGIN * 1000 + (plot * 1000) / 2);
        assert(xs@.map_values(|x: i64| x as int) =~= columns(plot as int, count as int));
        return xs;
    }
    let wide: i128 = plot as i128 * 1000;
    let mut i: usize = 0;
    while i < count
        invariant
            i <= count,
            count != 1,
            1 <= plot <= i32::MAX,
            wide == plot * 1000,
            xs.len() == i,
            forall|j: int| 0 <= j < i ==> xs@[j] as int == column(plot as int, count as int, j),
            forall|j: int| 0 <= j < i ==> 0 <= #[trigger] xs@[j] <= plot * 1000,
        decreases count - i,
    {
        let last: i128 = (count - 1) as i128;
        proof {
            let num = plot * 1000 * i;
            assert(0 <= num <= plot * 1000 * (count - 1)) by (nonlinear_arith)
                requires
                    num == plot * 1000 * i,
                    plot >= 1,
                    0 <= i <= count - 1,
            ;
            lemma_div_monotone(0, num, count - 1);
            lemma_div_monotone(num, plot * 1000 * (count - 1), count - 1);
            vstd::arithmetic::div_mod::lemma_div_multiples_vanish(plot * 1000, count - 1);
            assert(plot * 1000 * (count - 1) == (count - 1) * (plot * 1000)) by (nonlinear_arith);
            assert(0int / (count - 1) == 0);
        }
        assert(wide * (i as i128) == plot * 1000 * i) by (nonlinear_arith)
            requires
                wide == plot * 1000,
        ;
        assert(0 <= plot * 1000 * i <= 0x7fff_ffff * 1000 * 0xffff_ffff_ffff_ffff)
            by (nonlinear_arith)
            requires
                1 <= plot <= 0x7fff_ffff,
                0 <= i <= 0xffff_ffff_ffff_ffff,
        ;
        let x: i64 = match (wide * (i as i128)).checked_div_euclid(last) {
            Some(q) => q as i64,
            None => 0,
        };
        xs.push(LEFT_MARGIN * 1000 + x);
        i += 1;
    }
    assert(xs@.map_values(|x: i64| x as int) =~= columns(plot as int, count as int));
    xs
}

/// Distance between two columns in thousandths of a pixel.
pub fn x_step(plot: i64, count: usize) -> (step: i64)
    requires
        1 <= plot <= i32::MAX,
    ensures
        step == column_step(plot as int, count as int),
        0 <= step <= plot * 1000,
{
    if count <= 1 {
        0
    } else {
        proof {
            lemma_div_bounds(plot * 1000, count - 1);
        }
        match (plot as i128 * 1000).checked_div_euclid((count - 1) as i128) {
            Some(q) => q as i64,
            None => 0,
        }
    }
}

/// The sample nearest to the pointer, or none where there is no sample.
pub fn nearest_index(pointer_x: i32, plot_left: i32, plot_width: i32, point_count: usize) -> (hit:
    Option<usize>)
    ensures
        point_count == 0 ==> hit is None,
        point_count > 0 ==> hit == Some(
            nearest(
                pointer_x as int,
                plot_left as int,
                plot_width as int,
                point_count as int,
            ) as usize,
        ),
        hit is Some ==> hit->0 < point_count,
{
    if point_count == 0 {
        return None;
    }
    if plot_width <= 0 || point_count == 1 {
        return Some(0);
    }
    let last: i128 = (point_count - 1) as i128;
    let offset: i128 = pointer_x as i128 - plot_left as i128;
    assert(-0x1_0000_0000 * 0x1_0000_0000_0000_0000 <= offset * last <= 0x1_0000_0000
        * 0x1_0000_0000_0000_0000) by (nonlinear_arith)
        requires
            -0x1_0000_0000 <= offset <= 0x1_0000_0000,
            0 <= last <= 0x1_0000_0000_0000_0000,
    ;
    let scaled: i128 = offset * last;
    let numerator: i128 = 2 * scaled + plot_width as i128;
    let denominator: i128 = 2 * (plot_width as i128);
    proof {
        lemma_fundamental_div_mod(numerator as int, denominator as int);
        lemma_div_bounds(numerator as int, denominator as int);
    }
    let raw: i128 = match numerator.checked_div_euclid(denominator) {
        Some(q) => q,
        None => 0,
    };
    assert(raw == round_div((pointer_x - plot_left) * (point_count - 1), plot_width as int));
    if raw < 0 {
        Some(0)
    } else if raw > last {
        Some(point_count - 1)
    } else {
        Some(raw as usize)
    }
}

/// The columns run from left to right: a later sample is never to the left
/// of an earlier one.
pub proof fn lemma_columns_ordered(plot: int, count: int, i: int, j: int)
    requires
        plot >= 1,
        0 <= i <= j < count,
    ensures
        column(plot, count, i) <= column(plot, count, j),
{
    if count > 1 {
        assert(plot * 1000 * i <= plot * 1000 * j) by (nonlinear_arith)
            requires
                plot >= 1,
                0 <= i <= j,
        ;
        lemma_div_monotone(plot * 1000 * i, plot * 1000 * j, count - 1);
    }
}

/// The first column of two or more is on the left edge of the plot, the
/// last on the right edge.
pub proof fn lemma_columns_span(plot: int, count: int)
    requires
        plot >= 1,
        count >= 2,
    ensures
        column(plot, count, 0) == LEFT_MARGIN * 1000,
        column(plot, count, count - 1) == LEFT_MARGIN * 1000 + plot * 1000,
{
    assert(plot * 1000 * 0 == 0);
    assert(0int / (count - 1) == 0);
    vstd::arithmetic::div_mod::lemma_div_multiples_vanish(plot * 1000, count - 1);
    assert(plot * 1000 * (count - 1) == (count - 1) * (plot * 1000)) by (nonlinear_arith);
}

/// Whatever the pointer, the nearest sample is one of the samples.
pub proof fn lemma_nearest_in_range(pointer_x: int, plot_left: int, plot_width: int, count: int)
    requires
        count >= 1,
    ensures
        0 <= nearest(pointer_x, plot_left, plot_width, count) <= count - 1,
{
}

/// A pointer on the left edge of the plot is on the first sample, one on the
/// right edge on the last.
pub proof fn lemma_nearest_ends(plot_left: int, plot_width: int, count: int)
    requires
        plot_width > 0,
        count >= 1,
    ensures
        nearest(plot_left, plot_left, plot_width, count) == 0,
        nearest(plot_left + plot_width, plot_left, plot_width, count) == count - 1,
{
    if count > 1 {
        let last = count - 1;
        assert((plot_left - plot_left) * last == 0);
        lemma_fundamental_div_mod(plot_width, 2 * plot_width);
        assert(plot_width / (2 * plot_width) == 0) by (nonlinear_arith)
            requires
                plot_width > 0,
                plot_width == (2 * plot_width) * (plot_width / (2 * plot_width)) + plot_width % (2
                    * plot_width),
                0 <= plot_width % (2 * plot_width) < 2 * plot_width,
        ;
        let num = 2 * (plot_width * last) + plot_width;
        lemma_fundamental_div_mod(num, 2 * plot_width);
        assert(num / (2 * plot_width) == last) by (nonlinear_arith)
            requires
                plot_width > 0,
                num == 2 * (plot_width * last) + plot_width,
                num == (2 * plot_width) * (num / (2 * plot_width)) + num % (2 * plot_width),
                0 <= num % (2 * plot_width) < 2 * plot_width,
        ;
        assert((plot_left + plot_width - plot_left) * last == plot_width * last);
    }
}

/// A pointer further to the right is never on an earlier sample.
pub proof fn lemma_nearest_monotone(a: int, b: int, plot_left: int, plot_width: int, count: int)
    requires
        a <= b,
    ensures
        nearest(a, plot_left, plot_width, count) <= nearest(b, plot_left, plot_width, count),
{
    if plot_width > 0 && count > 1 {
        let last = count - 1;
        assert((a - plot_left) * last <= (b - plot_left) * last) by (nonlinear_arith)
            requires
                a <= b,
                last >= 0,
        ;
        lemma_div_monotone(
            2 * ((a - plot_left) * last) + plot_width,
            2 * ((b - plot_left) * last) + plot_width,
            2 * plot_width,
        );
    }
}

} // verus!
