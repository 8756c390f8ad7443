//! The dynamic layer of the chart: the temperature curve with the ribbon
//! below it, the precipitation bars with their labels, a dot on every sample
//! and the line that marks the present. It is drawn anew on every frame from
//! the values that the animation shows at that moment.

use vstd::prelude::*;
use vstd::string::StringExecFns;
use crate::anim::gap;
use crate::anim::ints;
use crate::anim::pops_ok;
use crate::anim::rows_ok;
use crate::anim::AnimState;
use crate::anim::AnimView;
use crate::backdrop::band_bottom;
use crate::backdrop::Rect;
use crate::backdrop::PRECIP_BAND_END;
use crate::fixed::lemma_div_monotone;
use crate::fixed::mul_div;
use crate::fixed::mul_div_floor;
use crate::layout::column;
use crate::layout::columns;
use crate::layout::plot_width;
use crate::layout::plot_width_px;
use crate::layout::x_positions;
use crate::scale::YAxisMetrics;
use crate::spline::build_smooth_path;
use crate::spline::smooth_path;
use crate::spline::PathStep;
use crate::spline::COORD_LIMIT;
use crate::text::decimal;
use crate::text::percent;
use crate::text::percent_of;
use crate::text::push_decimal;
use crate::weather::clamped_pop;
use crate::weather::pop_of;
use crate::weather::valid_sample;
use crate::weather::valid_series;
use crate::weather::Hourly;
use crate::weather::TIME_LIMIT;

verus! {

/// Width of a precipitation bar, in thousandths of a pixel.
pub const BAR_WIDTH: i64 = 8000;

/// Probabilities below this, in thousandths, get no label.
pub const POP_LABEL_MIN: i64 = 50;

/// Distance of the labels below the precipitation band, in thousandths of a pixel.
pub const POP_LABEL_DROP: i64 = 14_000;

/// Thousandths of the temperature band at which the ribbon ends.
pub const RIBBON_DEPTH: i64 = 850;

/// Seconds around a single sample within which the present is marked on it.
pub const NOW_WINDOW: i64 = 3600;

/// Strength of a precipitation bar's colour.
#[derive(Debug, Clone, Copy, PartialEq, Eq, Structural)]
pub enum PrecipTier {
    /// Up to 20 %.
    Faint,
    /// Up to 50 %.
    Light,
    /// Up to 80 %.
    Medium,
    /// Above 80 %.
    Strong,
}

/// A precipitation bar.
#[derive(Debug, Clone, Copy, PartialEq, Eq, Structural)]
pub struct Bar {
    pub area: Rect,
    pub tier: PrecipTier,
}

/// A percentage below a bar, to be centred on `x`.
#[derive(Debug, Clone)]
pub struct PopLabel {
    pub x: i64,
    pub y: i64,
    pub text: String,
}

/// The dynamic layer as geometry, in thousandths of a pixel.
#[derive(Debug, Clone)]
pub struct Overlay {
    /// Column of each sample.
    pub xs: Vec<i64>,
    /// Row of each sample as the animation shows it now; the dots go here.
    pub ys: Vec<i64>,
    /// The curve through the samples.
    pub curve: Vec<PathStep>,
    /// Highest row of the curve, where the ribbon's gradient starts.
    pub ribbon_top: i64,
    /// Row on which the ribbon ends while the chart is in transition.
    pub ribbon_base: i64,
    /// Whether the chart is idle, so that the ribbon's end swells with the phase.
    pub breathing: bool,
    /// Idle time in milliseconds.
    pub phase_ms: u64,
    /// For each sample its bar, if its probability is above zero.
    pub bars: Vec<Option<Bar>>,
    /// For each sample its label, if its probability is 5 % or more.
    pub pop_labels: Vec<Option<PopLabel>>,
    /// Column of the present, if it falls between two samples.
    pub now_x: Option<i64>,
    /// Rows between which the line of the present runs.
    pub guide_top: i64,
    pub guide_bottom: i64,
}

/// Rows of the samples of a series on a scale.
pub open spec fn target_rows(data: Seq<Hourly>, m: YAxisMetrics) -> Seq<int> {
    Seq::new(data.len(), |i: int| m.y_of(data[i].temp as int))
}

/// Probabilities of precipitation of a series, clamped.
pub open spec fn target_pops(data: Seq<Hourly>) -> Seq<int> {
    Seq::new(data.len(), |i: int| pop_of(data[i]))
}

/// Colour strength for a probability in thousandths.
pub open spec fn tier_of(pop: int) -> PrecipTier {
    if pop <= 200 {
        PrecipTier::Faint
    } else if pop <= 500 {
        PrecipTier::Light
    } else if pop <= 800 {
        PrecipTier::Medium
    } else {
        PrecipTier::Strong
    }
}

/// Height of a bar for certain precipitation: the band below the temperature
/// band, and one pixel at least.
pub open spec fn bar_room(m: YAxisMetrics) -> int {
    if band_bottom(m) - m.temp_bot < 1000 {
        1000
    } else {
        band_bottom(m) - m.temp_bot
    }
}

/// The bar of a sample in column `x` whose probability is shown as `pop`
/// thousandths: none for zero, else one that stands on the lower end of the
/// band and is as high as the probability's share of the room.
pub open spec fn bar_for(pop: int, x: int, m: YAxisMetrics) -> Option<Bar> {
    if pop <= 0 {
        None
    } else {
        let height = mul_div(bar_room(m), pop, 1000);
        Some(
            Bar {
                area: Rect {
                    x: (x - BAR_WIDTH / 2) as i64,
                    y: (band_bottom(m) - height) as i64,
                    width: BAR_WIDTH,
                    height: height as i64,
                },
                tier: tier_of(pop),
            },
        )
    }
}

/// Whether `label` is the label of a sample in column `x` with the
/// probability `pop`.
pub open spec fn is_pop_label(label: Option<PopLabel>, pop: int, x: int, m: YAxisMetrics) -> bool {
    if pop < POP_LABEL_MIN {
        label is None
    } else {
        &&& label is Some
        &&& label->0.x == x
        &&& label->0.y == band_bottom(m) + POP_LABEL_DROP
        &&& label->0.text@ == decimal(percent_of(pop) as nat) + seq!['%']
    }
}

/// Whether the present falls between two samples at `t0` and `t1`.
pub open spec fn brackets(t0: int, t1: int, now: int) -> bool {
    t0 <= now <= t1 && t1 > t0
}

/// The column of the present between the columns `x0` and `x1` of two
/// samples that bracket it.
pub open spec fn between(x0: int, x1: int, t0: int, t1: int, now: int) -> int {
    x0 + mul_div(x1 - x0, now - t0, t1 - t0)
}

/// The column of the present, looking from sample `k` on for the first two
/// neighbours that bracket it.
pub open spec fn now_from(data: Seq<Hourly>, tz: int, xs: Seq<int>, now_local: int, k: int) -> Option<
    int,
>
    decreases data.len() - k,
{
    if k < 0 || k + 1 >= data.len() {
        None
    } else if brackets(data[k].dt + tz, data[k + 1].dt + tz, now_local) {
        Some(between(xs[k], xs[k + 1], data[k].dt + tz, data[k + 1].dt + tz, now_local))
    } else {
        now_from(data, tz, xs, now_local, k + 1)
    }
}

/// The column of the present. A single sample marks it if it is within the
/// hour; otherwise it lies between the first two neighbours that bracket it.
pub open spec fn now_column(data: Seq<Hourly>, tz: int, xs: Seq<int>, now_local: int) -> Option<int> {
    if data.len() == 1 {
        if gap(now_local, data[0].dt + tz) <= NOW_WINDOW {
            Some(xs[0])
        } else {
            None
        }
    } else {
        now_from(data, tz, xs, now_local, 0)
    }
}

/// The least of a row of numbers; 0 for an empty row.
pub open spec fn lowest(s: Seq<int>) -> int
    decreases s.len(),
{
    if s.len() == 0 {
        0
    } else if s.len() == 1 {
        s[0]
    } else {
        let rest = lowest(s.drop_last());
        if s.last() < rest {
            s.last()
        } else {
            rest
        }
    }
}

/// Row on which the ribbon ends.
pub open spec fn ribbon_base(m: YAxisMetrics) -> int {
    m.temp_top + mul_div(m.temp_bot - m.temp_top, RIBBON_DEPTH as int, 1000)
}

/// Whether `o` is the dynamic layer of a chart of the series `data`, at the
/// offset `tz`, on the scale `m`, in a widget `width` pixels wide, for the
/// animation state `a`, at the time `now`.
pub open spec fn is_overlay(
    o: Overlay,
    data: Seq<Hourly>,
    tz: int,
    m: YAxisMetrics,
    width: int,
    a: AnimView,
    now: int,
) -> bool {
    let xs = columns(plot_width(width), data.len() as int);
    &&& ints(o.xs@) == xs
    &&& ints(o.ys@) == a.shown_y()
    &&& o.curve@ == smooth_path(o.xs@, o.ys@)
    &&& o.ribbon_top == lowest(a.shown_y())
    &&& o.ribbon_base == ribbon_base(m)
    &&& o.breathing == !a.animating
    &&& o.phase_ms == a.ribbon_phase
    &&& o.guide_top == m.temp_top
    &&& o.guide_bottom == band_bottom(m)
    &&& o.bars@.len() == data.len()
    &&& forall|i: int|
        0 <= i < data.len() ==> #[trigger] o.bars@[i] == bar_for(a.shown_pop()[i], xs[i], m)
    &&& o.pop_labels@.len() == data.len()
    &&& forall|i: int|
        0 <= i < data.len() ==> is_pop_label(#[trigger] o.pop_labels@[i], pop_of(data[i]), xs[i], m)
    &&& match o.now_x {
        Some(x) => now_column(data, tz, xs, now + tz) == Some(x as int),
        None => now_column(data, tz, xs, now + tz) is None,
    }
}

/// Rows and probabilities that the chart moves towards.
pub fn chart_targets(data: &[Hourly], m: &YAxisMetrics) -> (t: (Vec<i64>, Vec<i64>))
    requires
        valid_series(data@),
        m.wf(),
    ensures
        t.0.len() == data.len(),
        t.1.len() == data.len(),
        ints(t.0@) == target_rows(data@, *m),
        ints(t.1@) == target_pops(data@),
        rows_ok(ints(t.0@)),
        pops_ok(ints(t.1@)),
{
    let mut ys: Vec<i64> = Vec::new();
    let mut pops: Vec<i64> = Vec::new();
    let mut i: usize = 0;
    while i < data.len()
        invariant
            valid_series(data@),
            m.wf(),
            i <= data.len(),
            ys.len() == i,
            pops.len() == i,
            forall|j: int| 0 <= j < i ==> ys@[j] as int == m.y_of(data@[j].temp as int),
            forall|j: int| 0 <= j < i ==> -COORD_LIMIT <= #[trigger] ys@[j] <= COORD_LIMIT,
            forall|j: int| 0 <= j < i ==> pops@[j] as int == pop_of(data@[j]),
        decreases data.len() - i,
    {
        assert(valid_sample(data@[i as int]));
        proof {
            crate::scale::lemma_row_in_limit(*m, data@[i as int].temp as int);
        }
        ys.push(m.temp_to_y(data[i].temp));
        pops.push(clamped_pop(&data[i]));
        i += 1;
    }
    assert(ints(ys@) =~= target_rows(data@, *m));
    assert(ints(pops@) =~= target_pops(data@));
    (ys, pops)
}

/// Colour strength for a probability in thousandths.
pub fn precip_tier(pop: i64) -> (tier: PrecipTier)
    ensures
        tier == tier_of(pop as int),
{
    if pop <= 200 {
        PrecipTier::Faint
    } else if pop <= 500 {
        PrecipTier::Light
    } else if pop <= 800 {
        PrecipTier::Medium
    } else {
        PrecipTier::Strong
    }
}

/// The bars of the samples.
fn precip_bars(pops: &Vec<i64>, xs: &Vec<i64>, m: &YAxisMetrics) -> (bars: Vec<Option<Bar>>)
    requires
        m.wf(),
        pops.len() == xs.len(),
        pops_ok(ints(pops@)),
        forall|i: int| 0 <= i < xs.len() ==> 0 <= #[trigger] xs@[i] <= 1000 * i32::MAX,
    ensures
        bars.len() == xs.len(),
        forall|i: int|
            0 <= i < xs.len() ==> #[trigger] bars@[i] == bar_for(pops@[i] as int, xs@[i] as int, *m),
{
    let bottom: i64 = m.temp_top + (m.plot_height / 1000) * PRECIP_BAND_END;
    let room: i64 = if bottom - m.temp_bot < 1000 {
        1000
    } else {
        bottom - m.temp_bot
    };
    let mut bars: Vec<Option<Bar>> = Vec::new();
    let mut i: usize = 0;
    while i < xs.len()
        invariant
            m.wf(),
            pops.len() == xs.len(),
            pops_ok(ints(pops@)),
            forall|j: int| 0 <= j < xs.len() ==> 0 <= #[trigger] xs@[j] <= 1000 * i32::MAX,
            bottom == band_bottom(*m),
            room == bar_room(*m),
            i <= xs.len(),
            bars.len() == i,
            forall|j: int|
                0 <= j < i ==> #[trigger] bars@[j] == bar_for(pops@[j] as int, xs@[j] as int, *m),
        decreases xs.len() - i,
    {
        let pop: i64 = pops[i];
        assert(0 <= ints(pops@)[i as int] <= 1000);
        if pop <= 0 {
            bars.push(None);
        } else {
            proof {
                assert(0 <= room * pop <= room * 1000) by (nonlinear_arith)
                    requires
                        room >= 0,
                        0 <= pop <= 1000,
                ;
                lemma_div_monotone(0, room * pop, 1000);
                lemma_div_monotone(room * pop, room * 1000, 1000);
                assert((room * 1000) / 1000 == room);
            }
            let height: i64 = mul_div_floor(room, pop, 1000);
            bars.push(
                Some(
                    Bar {
                        area: Rect {
                            x: xs[i] - BAR_WIDTH / 2,
                            y: bottom - height,
                            width: BAR_WIDTH,
                            height,
                        },
                        tier: precip_tier(pop),
                    },
                ),
            );
        }
        i += 1;
    }
    bars
}

/// The percentages below the bars.
fn pop_labels(data: &[Hourly], xs: &Vec<i64>, m: &YAxisMetrics) -> (labels: Vec<Option<PopLabel>>)
    requires
        m.wf(),
        data.len() == xs.len(),
    ensures
        labels.len() == data.len(),
        forall|i: int|
            0 <= i < data.len() ==> is_pop_label(
                #[trigger] labels@[i],
                pop_of(data@[i]),
                xs@[i] as int,
                *m,
            ),
{
    let row: i64 = m.temp_top + (m.plot_height / 1000) * PRECIP_BAND_END + POP_LABEL_DROP;
    let mut labels: Vec<Option<PopLabel>> = Vec::new();
    let mut i: usize = 0;
    while i < data.len()
        invariant
            m.wf(),
            data.len() == xs.len(),
            row == band_bottom(*m) + POP_LABEL_DROP,
            i <= data.len(),
            labels.len() == i,
            forall|j: int|
                0 <= j < i ==> is_pop_label(
                    #[trigger] labels@[j],
                    pop_of(data@[j]),
                    xs@[j] as int,
                    *m,
                ),
        decreases data.len() - i,
    {
        let pop: i64 = clamped_pop(&data[i]);
        if pop < POP_LABEL_MIN {
            labels.push(None);
        } else {
            let mut text = String::new();
            push_decimal(&mut text, percent(pop) as u64);
            proof {
                reveal_strlit("%");
            }
            text.append("%");
            assert(text@ =~= decimal(percent_of(pop as int) as nat) + seq!['%']);
            labels.push(Some(PopLabel { x: xs[i], y: row, text }));
        }
        i += 1;
    }
    labels
}

/// The least of a row of numbers.
fn lowest_of(rows: &Vec<i64>) -> (low: i64)
    ensures
        low == lowest(ints(rows@)),
{
    if rows.len() == 0 {
        return 0;
    }
    let mut low: i64 = rows[0];
    let mut i: usize = 1;
    assert(ints(rows@).take(1).len() == 1);
    while i < rows.len()
        invariant
            1 <= i <= rows.len(),
            low == lowest(ints(rows@).take(i as int)),
        decreases rows.len() - i,
    {
        proof {
            let next = ints(rows@).take(i + 1);
            assert(next.drop_last() == ints(rows@).take(i as int));
            assert(next.last() == rows@[i as int]);
        }
        if rows[i] < low {
            low = rows[i];
        }
        i += 1;
    }
    assert(ints(rows@).take(rows.len() as int) == ints(rows@));
    low
}

/// The column of the present.
fn now_marker(data: &[Hourly], tz_offset: i32, xs: &Vec<i64>, now: i64) -> (x: Option<i64>)
    requires
        valid_series(data@),
        data.len() == xs.len(),
        forall|i: int| 0 <= i < xs.len() ==> 0 <= #[trigger] xs@[i] <= 1000 * i32::MAX,
        -TIME_LIMIT <= now <= TIME_LIMIT,
    ensures
        match x {
            Some(x) => now_column(data@, tz_offset as int, ints(xs@), now + tz_offset) == Some(
                x as int,
            ),
            None => now_column(data@, tz_offset as int, ints(xs@), now + tz_offset) is None,
        },
{
    let tz: i64 = tz_offset as i64;
    let now_local: i64 = now + tz;
    let count = data.len();
    if count == 0 {
        return None;
    }
    if count == 1 {
        assert(valid_sample(data@[0]));
        let t0: i64 = data[0].dt + tz;
        let apart: i64 = if now_local >= t0 {
            now_local - t0
        } else {
            t0 - now_local
        };
        if apart <= NOW_WINDOW {
            return Some(xs[0]);
        }
        return None;
    }
    let mut k: usize = 0;
    while k + 1 < count
        invariant
            valid_series(data@),
            count == data.len(),
            count == xs.len(),
            count >= 2,
            forall|i: int| 0 <= i < xs.len() ==> 0 <= #[trigger] xs@[i] <= 1000 * i32::MAX,
            tz == tz_offset,
            now_local == now + tz_offset,
            -TIME_LIMIT <= now <= TIME_LIMIT,
            k < count,
            now_column(data@, tz_offset as int, ints(xs@), now_local as int) == now_from(
                data@,
                tz_offset as int,
                ints(xs@),
                now_local as int,
                k as int,
            ),
        decreases count - k,
    {
        assert(valid_sample(data@[k as int]));
        assert(valid_sample(data@[k + 1]));
        let t0: i64 = data[k].dt + tz;
        let t1: i64 = data[k + 1].dt + tz;
        if now_local >= t0 && now_local <= t1 && t1 > t0 {
            let run: i64 = xs[k + 1] - xs[k];
            proof {
                let part = now_local - t0;
                let whole = t1 - t0;
                if run >= 0 {
                    assert(0 <= run * part <= run * whole) by (nonlinear_arith)
                        requires
                            run >= 0,
                            0 <= part <= whole,
                    ;
                    lemma_div_monotone(0, run * part, whole);
                    lemma_div_monotone(run * part, run * whole, whole);
                } else {
                    assert(run * whole <= run * part <= 0) by (nonlinear_arith)
                        requires
                            run < 0,
                            0 <= part <= whole,
                    ;
                    lemma_div_monotone(run * part, 0, whole);
                    lemma_div_monotone(run * whole, run * part, whole);
                }
                vstd::arithmetic::div_mod::lemma_div_multiples_vanish(run as int, whole);
                assert(run * whole == whole * run) by (nonlinear_arith);
                assert(0int / whole == 0);
                assert(ints(xs@)[k as int] == xs@[k as int]);
                assert(ints(xs@)[k + 1] == xs@[k + 1]);
            }
            let along: i64 = mul_div_floor(run, now_local - t0, t1 - t0);
            return Some(xs[k] + along);
        }
        k += 1;
    }
    None
}

/// The dynamic layer of a chart for this frame. The targets of the series
/// are handed to the animation first, which may start a transition; the layer
/// then shows what the animation shows. With no sample the layer is empty and
/// the animation is left alone.
pub fn overlay(
    data: &[Hourly],
    tz_offset: i32,
    m: &YAxisMetrics,
    width: i32,
    anim: &mut AnimState,
    now: i64,
    now_ms: u64,
) -> (o: Overlay)
    requires
        valid_series(data@),
        m.wf(),
        old(anim).wf(),
        -TIME_LIMIT <= now <= TIME_LIMIT,
    ensures
        final(anim).wf(),
        data.len() == 0 ==> final(anim)@ == old(anim)@,
        data.len() > 0 ==> final(anim)@ == old(anim)@.retarget(
            target_rows(data@, *m),
            target_pops(data@),
            now_ms as int,
        ),
        data.len() > 0 ==> is_overlay(
            o,
            data@,
            tz_offset as int,
            *m,
            width as int,
            final(anim)@,
            now as int,
        ),
        data.len() == 0 ==> o.xs@.len() == 0 && o.ys@.len() == 0 && o.curve@.len() == 0
            && o.bars@.len() == 0 && o.pop_labels@.len() == 0 && o.now_x is None,
        data.len() == 0 ==> o.ribbon_top == 0 && o.ribbon_base == ribbon_base(*m) && o.breathing
            == !old(anim)@.animating && o.phase_ms == old(anim)@.ribbon_phase && o.guide_top
            == m.temp_top && o.guide_bottom == band_bottom(*m),
{
    let base: i64 = m.temp_top + mul_div_floor(m.temp_bot - m.temp_top, RIBBON_DEPTH, 1000);
    let guide_top: i64 = m.temp_top;
    let guide_bottom: i64 = m.temp_top + (m.plot_height / 1000) * PRECIP_BAND_END;
    if data.len() == 0 {
        return Overlay {
            xs: Vec::new(),
            ys: Vec::new(),
            curve: Vec::new(),
            ribbon_top: 0,
            ribbon_base: base,
            breathing: !anim.animating,
            phase_ms: anim.ribbon_phase,
            bars: Vec::new(),
            pop_labels: Vec::new(),
            now_x: None,
            guide_top,
            guide_bottom,
        };
    }
    let plot: i64 = plot_width_px(width);
    let xs = x_positions(plot, data.len());
    let (y_targets, pop_targets) = chart_targets(data, m);
    anim.retarget(y_targets.as_slice(), pop_targets.as_slice(), now_ms);
    let ys = anim.displayed_y();
    let pops = anim.displayed_pop();
    proof {
        assert forall|i: int| 0 <= i < xs.len() implies -COORD_LIMIT <= #[trigger] xs@[i]
            <= COORD_LIMIT by {}
        assert forall|i: int| 0 <= i < ys.len() implies -COORD_LIMIT <= #[trigger] ys@[i]
            <= COORD_LIMIT by {
            assert(ints(ys@)[i] == ys@[i]);
        }
        assert(ints(ys@).len() == ys@.len());
        assert(ints(pops@).len() == pops@.len());
    }
    let curve = build_smooth_path(xs.as_slice(), ys.as_slice());
    let ribbon_top = lowest_of(&ys);
    let bars = precip_bars(&pops, &xs, m);
    let pop_labels = pop_labels(data, &xs, m);
    let now_x = now_marker(data, tz_offset, &xs, now);
    proof {
        assert forall|i: int| 0 <= i < data.len() implies #[trigger] bars@[i] == bar_for(
            anim@.shown_pop()[i],
            columns(plot as int, data.len() as int)[i],
            *m,
        ) by {
            assert(ints(pops@)[i] == pops@[i]);
            assert(ints(xs@)[i] == xs@[i]);
        }
        assert forall|i: int| 0 <= i < data.len() implies is_pop_label(
            #[trigger] pop_labels@[i],
            pop_of(data@[i]),
            columns(plot as int, data.len() as int)[i],
            *m,
        ) by {
            assert(ints(xs@)[i] == xs@[i]);
        }
    }
    Overlay {
        xs,
        ys,
        curve,
        ribbon_top,
        ribbon_base: base,
        breathing: !anim.animating,
        phase_ms: anim.ribbon_phase,
        bars,
        pop_labels,
        now_x,
        guide_top,
        guide_bottom,
    }
}

} // verus!
