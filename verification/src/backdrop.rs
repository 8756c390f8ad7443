//! The static layer of the chart: what lies behind the curve and changes only
//! with the size of the widget and the series. It is described here as plain
//! geometry, in thousandths of a pixel; painting it is left to the caller,
//! who can keep the painted surface in a `RenderCache`.

use vstd::prelude::*;
use crate::clock::day_number;
use crate::clock::day_of;
use crate::clock::fmt_time;
use crate::clock::formatted_time;
use crate::clock::is_night_at;
use crate::clock::is_night_hour;
use crate::clock::pattern_from;
use crate::clock::time_pattern;
use crate::layout::column;
use crate::layout::column_step;
use crate::layout::plot_width;
use crate::layout::plot_width_px;
use crate::layout::x_positions;
use crate::layout::x_step;
use crate::layout::LEFT_MARGIN;
use crate::layout::RIGHT_MARGIN;
use crate::scale::lemma_ticks;
use crate::scale::YAxisMetrics;
use crate::scale::TICK_STEP;
use crate::weather::Hourly;
use crate::weather::valid_sample;
use crate::weather::valid_series;
use crate::weather::TIME_LIMIT;

verus! {

/// Thousandths of the plot height at which the precipitation band ends.
pub const PRECIP_BAND_END: i64 = 960;

/// Distance of the time labels from the lower edge of the widget, in pixels.
pub const LABEL_INSET: i64 = 8;

/// Columns wider than this, in thousandths of a pixel, get the shading in
/// blocks of three.
pub const BLOCK_MIN_STEP: i64 = 20_000;

/// Least width of a shaded area, in thousandths of a pixel.
pub const MIN_SHADE: i64 = 1000;

/// An upright rectangle in thousandths of a pixel.
#[derive(Debug, Clone, Copy, PartialEq, Eq, Structural)]
pub struct Rect {
    pub x: i64,
    pub y: i64,
    pub width: i64,
    pub height: i64,
}

/// What the static layer draws for one sample.
#[derive(Debug, Clone)]
pub struct ColumnMark {
    /// Column of the sample.
    pub x: i64,
    /// Area shaded for the hour, darker at night.
    pub shade: Rect,
    pub night: bool,
    /// Whether a new day starts here, which gets an upright line.
    pub new_day: bool,
    /// Time of day, to be centred on the column.
    pub label: String,
    /// Whether the hour is over, which fades the label.
    pub past: bool,
}

/// The static layer as geometry.
#[derive(Debug, Clone)]
pub struct StaticLayer {
    /// With no sample there is only a centred message to draw.
    pub no_data: bool,
    pub columns: Vec<ColumnMark>,
    /// Shading in blocks of three samples.
    pub blocks: Vec<Rect>,
    /// Rows of the grid lines, one for each tick.
    pub grid_rows: Vec<i64>,
    /// Rows of the fainter lines halfway between two ticks.
    pub minor_rows: Vec<i64>,
    /// Where the grid lines start and end.
    pub line_left: i64,
    pub line_right: i64,
    /// Where the shading and the day lines start and end.
    pub band_top: i64,
    pub band_bottom: i64,
    /// Baseline of the time labels.
    pub label_row: i64,
}

/// The pattern of the time labels.
pub open spec fn label_pattern() -> Seq<char> {
    seq!['%', 'H', ':', '%', 'M']
}

/// Lower end of the precipitation band.
pub open spec fn band_bottom(m: YAxisMetrics) -> int {
    m.temp_top + (m.plot_height / 1000) * PRECIP_BAND_END
}

/// Width of the area shaded for one sample.
pub open spec fn shade_step(plot: int, count: int) -> int {
    if count == 1 {
        plot * 1000
    } else {
        column_step(plot, count)
    }
}

/// The wider of `w` and the least width of a shaded area.
pub open spec fn shade_width(w: int) -> int {
    if w < MIN_SHADE {
        MIN_SHADE as int
    } else {
        w
    }
}

/// Area shaded for sample `i`.
pub open spec fn shade_rect(m: YAxisMetrics, plot: int, count: int, i: int) -> Rect {
    Rect {
        x: column(plot, count, i) as i64,
        y: m.temp_top,
        width: shade_width(shade_step(plot, count)) as i64,
        height: (band_bottom(m) - m.temp_top) as i64,
    }
}

/// Block `k` of the shading in threes: from sample `3k` to sample `3k + 3`,
/// or to the last sample where there is none.
pub open spec fn block_rect(m: YAxisMetrics, plot: int, count: int, k: int) -> Rect {
    let to = if 3 * k + 3 < count {
        3 * k + 3
    } else {
        count - 1
    };
    Rect {
        x: column(plot, count, 3 * k) as i64,
        y: m.temp_top,
        width: shade_width(column(plot, count, to) - column(plot, count, 3 * k)) as i64,
        height: (band_bottom(m) - m.temp_top) as i64,
    }
}

/// The blocks of a layer: none where the columns are narrow, else one for
/// every third sample.
pub open spec fn block_rects(m: YAxisMetrics, plot: int, count: int) -> Seq<Rect> {
    if shade_step(plot, count) > BLOCK_MIN_STEP {
        Seq::new(((count + 2) / 3) as nat, |k: int| block_rect(m, plot, count, k))
    } else {
        Seq::empty()
    }
}

/// Rows of the grid lines.
pub open spec fn grid_rows(m: YAxisMetrics) -> Seq<int> {
    Seq::new(m.ticks@.len(), |k: int| m.y_of(m.ticks@[k] as int))
}

/// Rows of the lines halfway between two ticks, from the lowest up.
pub open spec fn minor_rows(m: YAxisMetrics) -> Seq<int> {
    Seq::new(
        (m.temp_range / TICK_STEP) as nat,
        |k: int| m.y_of(m.grid_min + TICK_STEP / 2 + k * TICK_STEP),
    )
}

/// Whether `mark` is what the static layer draws for sample `i`.
pub open spec fn is_column_mark(
    mark: ColumnMark,
    data: Seq<Hourly>,
    tz: int,
    m: YAxisMetrics,
    plot: int,
    now_local: int,
    i: int,
) -> bool {
    &&& mark.x == column(plot, data.len() as int, i)
    &&& mark.shade == shade_rect(m, plot, data.len() as int, i)
    &&& mark.night == is_night_hour(data[i].dt + tz)
    &&& mark.new_day == (i > 0 && day_of(data[i].dt + tz) != day_of(data[i - 1].dt + tz))
    &&& mark.label@ == formatted_time(data[i].dt as int, tz, label_pattern())
    &&& mark.past == (data[i].dt + tz < now_local)
}

/// Whether `layer` is the static layer of a chart of the series `data`, at
/// the offset `tz`, on the scale `m`, in a widget of `width` by `height`
/// pixels, painted at the time `now`.
pub open spec fn is_static_layer(
    layer: StaticLayer,
    data: Seq<Hourly>,
    tz: int,
    m: YAxisMetrics,
    width: int,
    height: int,
    now: int,
) -> bool {
    let plot = plot_width(width);
    &&& layer.no_data == (data.len() == 0)
    &&& layer.line_left == LEFT_MARGIN * 1000
    &&& layer.line_right == (width - RIGHT_MARGIN) * 1000
    &&& layer.band_top == m.temp_top
    &&& layer.band_bottom == band_bottom(m)
    &&& layer.label_row == (height - LABEL_INSET) * 1000
    &&& if data.len() == 0 {
        &&& layer.columns@.len() == 0
        &&& layer.blocks@.len() == 0
        &&& layer.grid_rows@.len() == 0
        &&& layer.minor_rows@.len() == 0
    } else {
        &&& layer.columns@.len() == data.len()
        &&& forall|i: int|
            0 <= i < data.len() ==> is_column_mark(
                #[trigger] layer.columns@[i],
                data,
                tz,
                m,
                plot,
                now + tz,
                i,
            )
        &&& layer.blocks@ == block_rects(m, plot, data.len() as int)
        &&& layer.grid_rows@.map_values(|y: i64| y as int) == grid_rows(m)
        &&& layer.minor_rows@.map_values(|y: i64| y as int) == minor_rows(m)
    }
}

/// The pattern of the time labels is one that the formatter accepts.
pub proof fn lemma_label_pattern()
    ensures
        "%H:%M"@ == label_pattern(),
        time_pattern(label_pattern()),
{
    reveal_strlit("%H:%M");
    assert("%H:%M"@ =~= label_pattern());
    reveal_with_fuel(pattern_from, 6);
}

/// The wider of `w` and the least width of a shaded area.
fn at_least_shade(w: i64) -> (r: i64)
    ensures
        r == shade_width(w as int),
{
    if w < MIN_SHADE {
        MIN_SHADE
    } else {
        w
    }
}

/// Rows of the grid lines of a scale.
pub fn grid_lines(m: &YAxisMetrics) -> (rows: Vec<i64>)
    requires
        m.wf(),
    ensures
        rows@.map_values(|y: i64| y as int) == grid_rows(*m),
{
    let mut rows: Vec<i64> = Vec::new();
    let mut k: usize = 0;
    while k < m.ticks.len()
        invariant
            k <= m.ticks.len(),
            m.wf(),
            rows.len() == k,
            forall|j: int| 0 <= j < k ==> rows@[j] as int == m.y_of(m.ticks@[j] as int),
        decreases m.ticks.len() - k,
    {
        let t: i64 = m.ticks[k];
        proof {
            lemma_ticks(*m);
        }
        rows.push(m.temp_to_y(t));
        k += 1;
    }
    assert(rows@.map_values(|y: i64| y as int) =~= grid_rows(*m));
    rows
}

/// Rows of the lines halfway between two ticks.
pub fn minor_grid_lines(m: &YAxisMetrics) -> (rows: Vec<i64>)
    requires
        m.wf(),
    ensures
        rows@.map_values(|y: i64| y as int) == minor_rows(*m),
{
    let mut rows: Vec<i64> = Vec::new();
    if m.temp_range < TICK_STEP {
        // the unit scale has no room for a line between its ticks
        assert(rows@.map_values(|y: i64| y as int) =~= minor_rows(*m));
        return rows;
    }
    let mut t: i64 = m.grid_min + TICK_STEP / 2;
    proof {
        vstd::arithmetic::div_mod::lemma_fundamental_div_mod(m.temp_range as int, TICK_STEP as int);
        assert(m.temp_range % TICK_STEP == 0);
    }
    while t <= m.grid_max
        invariant
            m.wf(),
            m.temp_range == TICK_STEP * (m.temp_range / TICK_STEP),
            t == m.grid_min + TICK_STEP / 2 + rows.len() * TICK_STEP,
            rows.len() <= m.temp_range / TICK_STEP,
            forall|j: int|
                0 <= j < rows.len() ==> rows@[j] as int == m.y_of(
                    m.grid_min + TICK_STEP / 2 + j * TICK_STEP,
                ),
        decreases m.grid_max - t + TICK_STEP,
    {
        rows.push(m.temp_to_y(t));
        t = t + TICK_STEP;
    }
    assert(rows.len() == m.temp_range / TICK_STEP);
    assert(rows@.map_values(|y: i64| y as int) =~= minor_rows(*m));
    rows
}

/// The shading in blocks of three samples.
fn shade_blocks(m: &YAxisMetrics, plot: i64, count: usize, xs: &Vec<i64>) -> (blocks: Vec<Rect>)
    requires
        m.wf(),
        1 <= plot <= i32::MAX,
        count > 0,
        xs.len() == count,
        forall|i: int| 0 <= i < count ==> #[trigger] xs@[i] == column(plot as int, count as int, i),
        forall|i: int| 0 <= i < count ==> 0 <= #[trigger] xs@[i] <= plot * 1000,
    ensures
        blocks@ == block_rects(*m, plot as int, count as int),
{
    let mut blocks: Vec<Rect> = Vec::new();
    let step: i64 = if count == 1 {
        plot * 1000
    } else {
        x_step(plot, count)
    };
    if step <= BLOCK_MIN_STEP {
        assert(blocks@ =~= block_rects(*m, plot as int, count as int));
        return blocks;
    }
    let height: i64 = (m.plot_height / 1000) * PRECIP_BAND_END;
    let total: usize = if count % 3 == 0 {
        count / 3
    } else {
        count / 3 + 1
    };
    assert(total == (count + 2) / 3);
    let mut k: usize = 0;
    while k < total
        invariant
            m.wf(),
            1 <= plot <= i32::MAX,
            xs.len() == count,
            forall|j: int|
                0 <= j < count ==> #[trigger] xs@[j] == column(plot as int, count as int, j),
            forall|j: int| 0 <= j < count ==> 0 <= #[trigger] xs@[j] <= plot * 1000,
            height == band_bottom(*m) - m.temp_top,
            total == (count + 2) / 3,
            k <= total,
            blocks.len() == k,
            forall|j: int|
                0 <= j < k ==> blocks@[j] == block_rect(*m, plot as int, count as int, j),
        decreases total - k,
    {
        let from: usize = 3 * k;
        let to: usize = if count - from > 3 {
            from + 3
        } else {
            count - 1
        };
        let rect = Rect {
            x: xs[from],
            y: m.temp_top,
            width: at_least_shade(xs[to] - xs[from]),
            height,
        };
        blocks.push(rect);
        k += 1;
    }
    assert(blocks@ =~= block_rects(*m, plot as int, count as int));
    blocks
}

/// What the static layer draws for each sample.
fn column_marks(
    data: &[Hourly],
    tz_offset: i32,
    m: &YAxisMetrics,
    plot: i64,
    xs: &Vec<i64>,
    now: i64,
) -> (marks: Vec<ColumnMark>)
    requires
        valid_series(data@),
        m.wf(),
        1 <= plot <= i32::MAX,
        data.len() > 0,
        xs.len() == data.len(),
        forall|i: int|
            0 <= i < data.len() ==> #[trigger] xs@[i] == column(plot as int, data.len() as int, i),
        -TIME_LIMIT <= now <= TIME_LIMIT,
    ensures
        marks.len() == data.len(),
        forall|i: int|
            0 <= i < data.len() ==> is_column_mark(
                #[trigger] marks@[i],
                data@,
                tz_offset as int,
                *m,
                plot as int,
                now + tz_offset,
                i,
            ),
{
    let count = data.len();
    let tz: i64 = tz_offset as i64;
    let step: i64 = if count == 1 {
        plot * 1000
    } else {
        x_step(plot, count)
    };
    let width: i64 = at_least_shade(step);
    let height: i64 = (m.plot_height / 1000) * PRECIP_BAND_END;
    let mut marks: Vec<ColumnMark> = Vec::new();
    let mut i: usize = 0;
    while i < count
        invariant
            valid_series(data@),
            m.wf(),
            count == data.len(),
            xs.len() == count,
            forall|j: int|
                0 <= j < count ==> #[trigger] xs@[j] == column(plot as int, count as int, j),
            -TIME_LIMIT <= now <= TIME_LIMIT,
            tz == tz_offset,
            width == shade_width(shade_step(plot as int, count as int)),
            height == band_bottom(*m) - m.temp_top,
            i <= count,
            marks.len() == i,
            forall|j: int|
                0 <= j < i ==> is_column_mark(
                    #[trigger] marks@[j],
                    data@,
                    tz_offset as int,
                    *m,
                    plot as int,
                    now + tz_offset,
                    j,
                ),
        decreases count - i,
    {
        let dt: i64 = data[i].dt;
        assert(valid_sample(data@[i as int]));
        let new_day: bool = if i == 0 {
            false
        } else {
            assert(valid_sample(data@[i - 1]));
            day_number(dt, tz) != day_number(data[i - 1].dt, tz)
        };
        proof {
            lemma_label_pattern();
        }
        let mark = ColumnMark {
            x: xs[i],
            shade: Rect { x: xs[i], y: m.temp_top, width, height },
            night: is_night_at(dt, tz),
            new_day,
            label: fmt_time(dt, tz, "%H:%M"),
            past: dt + tz < now + tz,
        };
        marks.push(mark);
        i += 1;
    }
    marks
}

/// The static layer of a chart of `data`, at the offset `tz_offset`, on the
/// scale `m`, in a widget of `width` by `height` pixels, painted at the time
/// `now` in seconds since the epoch.
pub fn static_layer(
    data: &[Hourly],
    tz_offset: i32,
    m: &YAxisMetrics,
    width: i32,
    height: i32,
    now: i64,
) -> (layer: StaticLayer)
    requires
        valid_series(data@),
        m.wf(),
        -TIME_LIMIT <= now <= TIME_LIMIT,
    ensures
        is_static_layer(
            layer,
            data@,
            tz_offset as int,
            *m,
            width as int,
            height as int,
            now as int,
        ),
{
    let plot: i64 = plot_width_px(width);
    let line_left: i64 = LEFT_MARGIN * 1000;
    let line_right: i64 = (width as i64 - RIGHT_MARGIN) * 1000;
    let band_top: i64 = m.temp_top;
    let band_bottom: i64 = m.temp_top + (m.plot_height / 1000) * PRECIP_BAND_END;
    let label_row: i64 = (height as i64 - LABEL_INSET) * 1000;
    if data.len() == 0 {
        return StaticLayer {
            no_data: true,
            columns: Vec::new(),
            blocks: Vec::new(),
            grid_rows: Vec::new(),
            minor_rows: Vec::new(),
            line_left,
            line_right,
            band_top,
            band_bottom,
            label_row,
        };
    }
    let xs = x_positions(plot, data.len());
    assert forall|i: int| 0 <= i < data.len() implies #[trigger] xs@[i] == column(
        plot as int,
        data.len() as int,
        i,
    ) by {
        assert(xs@.map_values(|x: i64| x as int)[i] == xs@[i] as int);
    }
    let columns = column_marks(data, tz_offset, m, plot, &xs, now);
    let blocks = shade_blocks(m, plot, data.len(), &xs);
    let grid_rows = grid_lines(m);
    let minor_rows = minor_grid_lines(m);
    StaticLayer {
        no_data: false,
        columns,
        blocks,
        grid_rows,
        minor_rows,
        line_left,
        line_right,
        band_top,
        band_bottom,
        label_row,
    }
}

} // verus!
