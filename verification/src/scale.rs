//! The vertical scale of the hourly chart: a padded temperature domain on a
//! grid of five degrees, its tick values, and the map from a temperature to a
//! pixel row. A series without samples gets the unit scale, from 0 to one
//! degree. The chart and its separate axis widget both read one
//! `YAxisMetrics`, so they cannot disagree.

use vstd::prelude::*;
use vstd::arithmetic::div_mod::lemma_fundamental_div_mod;
use crate::fixed::div_floor;
use crate::fixed::mul_div;
use crate::fixed::mul_div_floor;
use crate::fixed::lemma_div_bounds;
use crate::fixed::lemma_div_monotone;
use crate::weather::Hourly;
use crate::weather::valid_series;
use crate::weather::valid_sample;
use crate::spline::COORD_LIMIT;
use crate::weather::TEMP_LIMIT;

verus! {

/// Distance between two ticks, in thousandths of a degree.
pub const TICK_STEP: i64 = 5_000;

/// Margin added below the lowest and above the highest reading before the
/// domain is rounded out to the grid.
pub const DOMAIN_PAD: i64 = 2_000;

/// Smallest span of the domain; a narrower one is widened by one step on each side.
pub const MIN_SPAN: i64 = 10_000;

/// Space above the plot, in pixels.
pub const TOP_MARGIN: i64 = 24;

/// Space below the plot, in pixels, where the time labels go.
pub const BOTTOM_MARGIN: i64 = 48;

/// Thousandths of the plot height that the temperature band takes.
pub const TEMP_BAND: i64 = 700;

/// Largest magnitude of a temperature that `temp_to_y` maps.
pub const DOMAIN_LIMIT: i64 = 2_000_000_000;

/// Largest magnitude of an end of the domain: the limit of the readings and
/// room for the padding and the rounding.
pub const GRID_LIMIT: i64 = 1_000_020_000;

/// Upper end of the unit scale, which a series without samples gets: one degree.
pub const UNIT_SPAN: i64 = 1_000;

/// Domain, ticks and plot rows of the temperature scale. Temperatures are in
/// thousandths of a degree, rows in thousandths of a pixel from the top.
#[derive(Debug, Clone)]
pub struct YAxisMetrics {
    pub grid_min: i64,
    pub grid_max: i64,
    pub temp_range: i64,
    /// Tick values from `grid_max` down to `grid_min`.
    pub ticks: Vec<i64>,
    pub temp_top: i64,
    pub temp_bot: i64,
    pub plot_height: i64,
}

/// Lowest temperature of a series; 0 for an empty one.
pub open spec fn min_temp(s: Seq<Hourly>) -> int
    decreases s.len(),
{
    if s.len() == 0 {
        0
    } else if s.len() == 1 {
        s[0].temp as int
    } else {
        let rest = min_temp(s.drop_last());
        if s.last().temp < rest {
            s.last().temp as int
        } else {
            rest
        }
    }
}

/// Highest temperature of a series; 0 for an empty one.
pub open spec fn max_temp(s: Seq<Hourly>) -> int
    decreases s.len(),
{
    if s.len() == 0 {
        0
    } else if s.len() == 1 {
        s[0].temp as int
    } else {
        let rest = max_temp(s.drop_last());
        if s.last().temp > rest {
            s.last().temp as int
        } else {
            rest
        }
    }
}

/// Largest multiple of the tick step that is not above `v`.
pub open spec fn grid_floor(v: int) -> int {
    (v / TICK_STEP as int) * TICK_STEP
}

/// Smallest multiple of the tick step that is not below `v`.
pub open spec fn grid_ceil(v: int) -> int {
    ((v + TICK_STEP - 1) / TICK_STEP as int) * TICK_STEP
}

/// Whether the padded readings, rounded out to the grid, span less than the minimum.
pub open spec fn is_narrow(lo: int, hi: int) -> bool {
    grid_ceil(hi + DOMAIN_PAD) - grid_floor(lo - DOMAIN_PAD) < MIN_SPAN
}

/// Lower end of the domain for readings between `lo` and `hi`.
pub open spec fn domain_min(lo: int, hi: int) -> int {
    if is_narrow(lo, hi) {
        grid_floor(lo - DOMAIN_PAD) - TICK_STEP
    } else {
        grid_floor(lo - DOMAIN_PAD)
    }
}

/// Upper end of the domain for readings between `lo` and `hi`.
pub open spec fn domain_max(lo: int, hi: int) -> int {
    if is_narrow(lo, hi) {
        grid_ceil(hi + DOMAIN_PAD) + TICK_STEP
    } else {
        grid_ceil(hi + DOMAIN_PAD)
    }
}

/// Lower end of the scale of a series: 0 for a series without samples, else
/// the lower end of the domain of its readings.
pub open spec fn scale_min(s: Seq<Hourly>) -> int {
    if s.len() == 0 {
        0
    } else {
        domain_min(min_temp(s), max_temp(s))
    }
}

/// Upper end of the scale of a series: one degree for a series without
/// samples, else the upper end of the domain of its readings.
pub open spec fn scale_max(s: Seq<Hourly>) -> int {
    if s.len() == 0 {
        UNIT_SPAN as int
    } else {
        domain_max(min_temp(s), max_temp(s))
    }
}

/// Whether a domain is the unit range from 0 to one degree.
pub open spec fn is_unit(grid_min: int, grid_max: int) -> bool {
    grid_min == 0 && grid_max == UNIT_SPAN
}

/// Tick values of a domain, highest first.
pub open spec fn tick_values(grid_min: int, grid_max: int) -> Seq<int> {
    Seq::new(((grid_max - grid_min) / TICK_STEP as int + 1) as nat, |i: int| grid_max - i * TICK_STEP)
}

/// Whether `ticks` holds the tick values of a domain, highest first.
pub open spec fn is_ticks(ticks: Seq<i64>, grid_min: int, grid_max: int) -> bool {
    &&& ticks.len() == (grid_max - grid_min) / TICK_STEP as int + 1
    &&& forall|k: int| 0 <= k < ticks.len() ==> #[trigger] ticks[k] == grid_max - k * TICK_STEP
}

/// Height of the plot in pixels for a widget of `total_height` pixels.
pub open spec fn plot_pixels(total_height: int) -> int {
    if total_height - TOP_MARGIN - BOTTOM_MARGIN < 1 {
        1
    } else {
        total_height - TOP_MARGIN - BOTTOM_MARGIN
    }
}

/// Row of `temp` on a scale whose upper end `grid_max` is at row `top` and
/// whose lower end is `range` below, at row `bot`.
pub open spec fn scale_y(grid_max: int, range: int, top: int, bot: int, temp: int) -> int {
    top + mul_div(grid_max - temp, bot - top, range)
}

impl YAxisMetrics {
    /// A scale whose fields agree with each other and are small enough to
    /// compute with. It is either the unit scale, from 0 to one degree with a
    /// tick on each end, or a scale on the grid: its ends are multiples of
    /// the step, it spans ten degrees or more, and it has a tick on every step.
    pub open spec fn wf(&self) -> bool {
        &&& -GRID_LIMIT <= self.grid_min
        &&& self.grid_max <= GRID_LIMIT
        &&& self.temp_range == self.grid_max - self.grid_min
        &&& if is_unit(self.grid_min as int, self.grid_max as int) {
            self.ticks@ == seq![UNIT_SPAN, 0i64]
        } else {
            &&& self.grid_min % TICK_STEP == 0
            &&& self.grid_max % TICK_STEP == 0
            &&& self.temp_range >= MIN_SPAN
            &&& is_ticks(self.ticks@, self.grid_min as int, self.grid_max as int)
        }
        &&& 1000 <= self.plot_height <= 1000 * i32::MAX
        &&& self.plot_height % 1000 == 0
        &&& self.temp_top == TOP_MARGIN * 1000
        &&& self.temp_bot == self.temp_top + (self.plot_height / 1000) * TEMP_BAND
    }

    /// Row of `temp` on this scale.
    pub open spec fn y_of(&self, temp: int) -> int {
        scale_y(
            self.grid_max as int,
            self.temp_range as int,
            self.temp_top as int,
            self.temp_bot as int,
            temp,
        )
    }

    /// The scale for a series drawn in a widget `total_height` pixels high.
    /// The readings are padded by two degrees and rounded out to multiples of
    /// five; a domain of less than ten degrees grows by five on each side. A
    /// series without samples gets the unit scale, from 0 to one degree.
    pub fn new(hourly_data: &[Hourly], total_height: i32, _forecast_hours: usize) -> (m: Self)
        requires
            valid_series(hourly_data@),
        ensures
            m.wf(),
            m.grid_min == scale_min(hourly_data@),
            m.grid_max == scale_max(hourly_data@),
            hourly_data@.len() == 0 ==> m.grid_min == 0 && m.grid_max == UNIT_SPAN && m.temp_range
                == UNIT_SPAN,
            hourly_data@.len() > 0 ==> m.temp_range >= MIN_SPAN,
            m.plot_height == 1000 * plot_pixels(total_height as int),
    {
        let height: i64 = total_height as i64;
        let plot_px: i64 = if height - TOP_MARGIN - BOTTOM_MARGIN < 1 {
            1
        } else {
            height - TOP_MARGIN - BOTTOM_MARGIN
        };
        let temp_top: i64 = TOP_MARGIN * 1000;
        let temp_bot: i64 = temp_top + plot_px * TEMP_BAND;
        let plot_height: i64 = plot_px * 1000;
        assert(plot_height / 1000 == plot_px);

        if hourly_data.len() == 0 {
            let mut ticks: Vec<i64> = Vec::new();
            ticks.push(UNIT_SPAN);
            ticks.push(0);
            assert(ticks@ =~= seq![UNIT_SPAN, 0i64]);
            return YAxisMetrics {
                grid_min: 0,
                grid_max: UNIT_SPAN,
                temp_range: UNIT_SPAN,
                ticks,
                temp_top,
                temp_bot,
                plot_height,
            };
        }
        let (lo, hi) = temp_extent(hourly_data);
        proof {
            lemma_extent_bounds(hourly_data@);
        }
        let base_min: i64 = div_floor(lo - DOMAIN_PAD, TICK_STEP) * TICK_STEP;
        let base_max: i64 = div_floor(hi + DOMAIN_PAD + TICK_STEP - 1, TICK_STEP) * TICK_STEP;
        proof {
            lemma_grid_round(lo - DOMAIN_PAD);
            lemma_grid_round(hi + DOMAIN_PAD);
        }
        let mut grid_min: i64 = base_min;
        let mut grid_max: i64 = base_max;
        if grid_max - grid_min < MIN_SPAN {
            grid_min = grid_min - TICK_STEP;
            grid_max = grid_max + TICK_STEP;
        }
        let temp_range: i64 = grid_max - grid_min;
        let ticks = descending_ticks(grid_min, grid_max);
        YAxisMetrics { grid_min, grid_max, temp_range, ticks, temp_top, temp_bot, plot_height }
    }

    /// Row of a temperature: `grid_max` is at `temp_top`, `grid_min` at
    /// `temp_bot`, and the rows between are shared out evenly, rounded down.
    pub fn temp_to_y(&self, temp: i64) -> (y: i64)
        requires
            self.wf(),
            -DOMAIN_LIMIT <= temp <= DOMAIN_LIMIT,
        ensures
            y == self.y_of(temp as int),
    {
        let rise: i64 = self.grid_max - temp;
        let band: i64 = self.temp_bot - self.temp_top;
        proof {
            lemma_scaled_fits(rise as int, band as int, self.temp_range as int);
        }
        self.temp_top + mul_div_floor(rise, band, self.temp_range)
    }
}

/// On a scale with a positive span whose lower end is not above its upper
/// end on screen, a higher temperature is never drawn below a lower one.
pub proof fn lemma_scale_monotone(grid_max: int, range: int, top: int, bot: int, a: int, b: int)
    requires
        range > 0,
        top <= bot,
        a <= b,
    ensures
        scale_y(grid_max, range, top, bot, b) <= scale_y(grid_max, range, top, bot, a),
{
    let band = bot - top;
    assert((grid_max - b) * band <= (grid_max - a) * band) by (nonlinear_arith)
        requires
            a <= b,
            band >= 0,
    ;
    lemma_div_monotone((grid_max - b) * band, (grid_max - a) * band, range);
}

/// The same for a well-formed scale: `y_of` falls as the temperature rises.
pub proof fn lemma_y_of_monotone(m: YAxisMetrics, a: int, b: int)
    requires
        m.wf(),
        a <= b,
    ensures
        m.y_of(b) <= m.y_of(a),
{
    lemma_scale_monotone(
        m.grid_max as int,
        m.temp_range as int,
        m.temp_top as int,
        m.temp_bot as int,
        a,
        b,
    );
}

/// The upper end of the domain is drawn at `temp_top`, the lower end at `temp_bot`.
pub proof fn lemma_y_of_ends(m: YAxisMetrics)
    requires
        m.wf(),
    ensures
        m.y_of(m.grid_max as int) == m.temp_top,
        m.y_of(m.grid_min as int) == m.temp_bot,
{
    let band = m.temp_bot - m.temp_top;
    let range = m.temp_range as int;
    assert(0 * band == 0);
    assert((0 * band) / range == 0);
    vstd::arithmetic::div_mod::lemma_div_multiples_vanish(band, range);
    assert(range * band == band * range) by (nonlinear_arith);
}

/// The domain that `YAxisMetrics::new` computes holds every reading of the
/// series, so each is drawn between `temp_top` and `temp_bot`.
pub proof fn lemma_readings_in_band(data: Seq<Hourly>, m: YAxisMetrics, i: int)
    requires
        valid_series(data),
        m.wf(),
        m.grid_min == scale_min(data),
        m.grid_max == scale_max(data),
        0 <= i < data.len(),
    ensures
        m.grid_min <= data[i].temp <= m.grid_max,
        m.temp_top <= m.y_of(data[i].temp as int) <= m.temp_bot,
{
    lemma_extent_bounds(data);
    lemma_grid_round(min_temp(data) - DOMAIN_PAD);
    lemma_grid_round(max_temp(data) + DOMAIN_PAD);
    lemma_y_of_ends(m);
    lemma_y_of_monotone(m, data[i].temp as int, m.grid_max as int);
    lemma_y_of_monotone(m, m.grid_min as int, data[i].temp as int);
}

/// Each tick of a well-formed scale lies in its domain, and the ticks of a
/// scale on the grid are its tick values.
pub proof fn lemma_ticks(m: YAxisMetrics)
    requires
        m.wf(),
    ensures
        !is_unit(m.grid_min as int, m.grid_max as int) ==> m.ticks@.map_values(|t: i64| t as int)
            == tick_values(m.grid_min as int, m.grid_max as int),
        forall|k: int| 0 <= k < m.ticks@.len() ==> m.grid_min <= #[trigger] m.ticks@[k] <= m.grid_max,
{
    if !is_unit(m.grid_min as int, m.grid_max as int) {
        let span = m.grid_max - m.grid_min;
        lemma_fundamental_div_mod(span, TICK_STEP as int);
        assert forall|k: int| 0 <= k < m.ticks@.len() implies m.grid_min <= #[trigger] m.ticks@[k]
            <= m.grid_max by {
            assert(m.ticks@[k] == m.grid_max - k * TICK_STEP);
        }
        assert(m.ticks@.map_values(|t: i64| t as int) =~= tick_values(
            m.grid_min as int,
            m.grid_max as int,
        ));
    }
}

/// A product of a temperature difference and a band height, divided by a
/// domain span, stays inside 64 bits.
pub proof fn lemma_scaled_fits(rise: int, band: int, range: int)
    requires
        -3_100_000_000 <= rise <= 3_100_000_000,
        0 <= band <= TEMP_BAND * i32::MAX,
        range >= UNIT_SPAN,
    ensures
        -4_700_000_000_000_000_000 <= mul_div(rise, band, range) <= 4_700_000_000_000_000_000,
{
    let p = rise * band;
    assert(-4_660_039_513_990_000_000_000 <= p <= 4_660_039_513_990_000_000_000)
        by (nonlinear_arith)
        requires
            -3_100_000_000 <= rise <= 3_100_000_000,
            0 <= band <= 1_503_238_552_900,
            p == rise * band,
    ;
    lemma_fundamental_div_mod(p, range);
    let q = p / range;
    let r = p % range;
    assert(q <= 4_700_000_000_000_000_000) by (nonlinear_arith)
        requires
            p == range * q + r,
            0 <= r,
            range >= 1_000,
            p <= 4_660_039_513_990_000_000_000,
    ;
    assert(q >= -4_700_000_000_000_000_000) by (nonlinear_arith)
        requires
            p == range * q + r,
            r < range,
            range >= 1_000,
            p >= -4_660_039_513_990_000_000_000,
    ;
}

/// The row of a reading within the temperature limit is within the
/// coordinate limit, on any well-formed scale.
pub proof fn lemma_row_in_limit(m: YAxisMetrics, temp: int)
    requires
        m.wf(),
        -TEMP_LIMIT <= temp <= TEMP_LIMIT,
    ensures
        -COORD_LIMIT <= m.y_of(temp) <= COORD_LIMIT,
{
    let rise = m.grid_max - temp;
    let band = m.temp_bot - m.temp_top;
    let range = m.temp_range as int;
    let p = rise * band;
    assert(-3_006_507_170_571_058_000_000 <= p <= 3_006_507_170_571_058_000_000)
        by (nonlinear_arith)
        requires
            -2_000_020_000 <= rise <= 2_000_020_000,
            0 <= band <= 1_503_238_552_900,
            p == rise * band,
    ;
    lemma_fundamental_div_mod(p, range);
    let q = p / range;
    let r = p % range;
    assert(q <= 3_100_000_000_000_000_000) by (nonlinear_arith)
        requires
            p == range * q + r,
            0 <= r,
            range >= 1_000,
            p <= 3_006_507_170_571_058_000_000,
    ;
    assert(q >= -3_100_000_000_000_000_000) by (nonlinear_arith)
        requires
            p == range * q + r,
            r < range,
            range >= 1_000,
            p >= -3_006_507_170_571_058_000_000,
    ;
}

/// Rounding out to the grid yields multiples of the step that bracket the value.
pub proof fn lemma_grid_round(v: int)
    ensures
        grid_floor(v) % (TICK_STEP as int) == 0,
        grid_ceil(v) % (TICK_STEP as int) == 0,
        grid_floor(v) <= v < grid_floor(v) + TICK_STEP,
        grid_ceil(v) - TICK_STEP < v <= grid_ceil(v),
{
    let step = TICK_STEP as int;
    lemma_fundamental_div_mod(v, step);
    lemma_fundamental_div_mod(v + step - 1, step);
    vstd::arithmetic::div_mod::lemma_mod_multiples_basic(v / step, step);
    vstd::arithmetic::div_mod::lemma_mod_multiples_basic((v + step - 1) / step, step);
}

/// The extent of a valid series is inside the temperature limits, and no
/// reading lies outside it.
pub proof fn lemma_extent_bounds(s: Seq<Hourly>)
    requires
        valid_series(s),
    ensures
        -TEMP_LIMIT <= min_temp(s) <= TEMP_LIMIT,
        -TEMP_LIMIT <= max_temp(s) <= TEMP_LIMIT,
        min_temp(s) <= max_temp(s),
        forall|i: int| 0 <= i < s.len() ==> min_temp(s) <= (#[trigger] s[i]).temp <= max_temp(s),
    decreases s.len(),
{
    if s.len() == 0 {
    } else if s.len() == 1 {
        assert(valid_sample(s[0]));
    } else {
        let rest = s.drop_last();
        assert forall|i: int| 0 <= i < rest.len() implies valid_sample(#[trigger] rest[i]) by {
            assert(rest[i] == s[i]);
        }
        lemma_extent_bounds(rest);
        assert(valid_sample(s[s.len() - 1]));
        assert forall|i: int| 0 <= i < s.len() implies min_temp(s) <= (#[trigger] s[i]).temp
            <= max_temp(s) by {
            if i < s.len() - 1 {
                assert(rest[i] == s[i]);
            }
        }
    }
}

/// The extent of a series that is not empty is made of readings of the series.
pub proof fn lemma_extent_attained(s: Seq<Hourly>)
    requires
        s.len() > 0,
    ensures
        exists|i: int| 0 <= i < s.len() && (#[trigger] s[i]).temp == min_temp(s),
        exists|i: int| 0 <= i < s.len() && (#[trigger] s[i]).temp == max_temp(s),
    decreases s.len(),
{
    if s.len() == 1 {
        assert(s[0].temp == min_temp(s));
        assert(s[0].temp == max_temp(s));
    } else {
        let rest = s.drop_last();
        lemma_extent_attained(rest);
        let lo = choose|i: int| 0 <= i < rest.len() && (#[trigger] rest[i]).temp == min_temp(rest);
        let hi = choose|i: int| 0 <= i < rest.len() && (#[trigger] rest[i]).temp == max_temp(rest);
        assert(rest[lo] == s[lo]);
        assert(rest[hi] == s[hi]);
        let last = s.len() - 1;
        if s.last().temp < min_temp(rest) {
            assert(s[last].temp == min_temp(s));
        } else {
            assert(s[lo].temp == min_temp(s));
        }
        if s.last().temp > max_temp(rest) {
            assert(s[last].temp == max_temp(s));
        } else {
            assert(s[hi].temp == max_temp(s));
        }
    }
}

/// Lowest and highest temperature of a series, or 0 and 0 for an empty one.
fn temp_extent(data: &[Hourly]) -> (r: (i64, i64))
    ensures
        r.0 == min_temp(data@),
        r.1 == max_temp(data@),
{
    if data.len() == 0 {
        return (0, 0);
    }
    let mut lo: i64 = data[0].temp;
    let mut hi: i64 = data[0].temp;
    let mut i: usize = 1;
    assert(data@.take(1).len() == 1);
    while i < data.len()
        invariant
            1 <= i <= data.len(),
            lo == min_temp(data@.take(i as int)),
            hi == max_temp(data@.take(i as int)),
        decreases data.len() - i,
    {
        let t = data[i].temp;
        proof {
            let next = data@.take(i + 1);
            assert(next.drop_last() == data@.take(i as int));
            assert(next.last() == data@[i as int]);
        }
        if t < lo {
            lo = t;
        }
        if t > hi {
            hi = t;
        }
        i += 1;
    }
    assert(data@.take(data.len() as int) == data@);
    (lo, hi)
}

/// The multiples of the step from `grid_max` down to `grid_min`.
fn descending_ticks(grid_min: i64, grid_max: i64) -> (ticks: Vec<i64>)
    requires
        -GRID_LIMIT <= grid_min <= grid_max <= GRID_LIMIT,
        grid_min % TICK_STEP == 0,
        grid_max % TICK_STEP == 0,
    ensures
        is_ticks(ticks@, grid_min as int, grid_max as int),
{
    let mut ticks: Vec<i64> = Vec::new();
    let mut t: i64 = grid_max;
    let ghost count: int = (grid_max - grid_min) / (TICK_STEP as int) + 1;
    proof {
        lemma_fundamental_div_mod(grid_max - grid_min, TICK_STEP as int);
        lemma_div_bounds(grid_max - grid_min, TICK_STEP as int);
        assert((grid_max - grid_min) % (TICK_STEP as int) == 0);
    }
    while t >= grid_min
        invariant
            grid_min - TICK_STEP <= t <= grid_max,
            -GRID_LIMIT <= grid_min,
            grid_max <= GRID_LIMIT,
            count == (grid_max - grid_min) / (TICK_STEP as int) + 1,
            grid_max - grid_min == TICK_STEP * (count - 1),
            t == grid_max - ticks.len() * TICK_STEP,
            ticks.len() <= count,
            forall|j: int| 0 <= j < ticks.len() ==> ticks@[j] == grid_max - j * TICK_STEP,
        decreases t - grid_min + TICK_STEP,
    {
        ticks.push(t);
        t = t - TICK_STEP;
    }
    assert(ticks.len() == count);
    ticks
}

} // verus!
