//! The hourly chart as a widget without a toolkit: it owns the series, the
//! animation clock and the cache of its static layer, answers the frame
//! clock and the pointer, and says for each frame what is to be painted. Its
//! vertical axis is a second widget that reads the same scale.

use vstd::prelude::*;
use vstd::string::StringExecFns;
use crate::anim::ints;
use crate::anim::AnimState;
use crate::anim::TRANSITION_MS;
use crate::backdrop::label_pattern;
use crate::backdrop::lemma_label_pattern;
use crate::backdrop::is_static_layer;
use crate::backdrop::static_layer;
use crate::backdrop::StaticLayer;
use crate::cache::shared;
use crate::cache::RenderCache;
use crate::clock::fmt_time;
use crate::clock::formatted_time;
use crate::clock::pattern_from;
use crate::clock::time_pattern;
use crate::layout::min_width;
use crate::layout::nearest;
use crate::layout::nearest_index;
use crate::layout::plot_width;
use crate::layout::plot_width_px;
use crate::layout::requested_width;
use crate::layout::CHART_HEIGHT;
use crate::layout::LEFT_MARGIN;
use crate::overlay::is_overlay;
use crate::overlay::overlay;
use crate::overlay::target_pops;
use crate::overlay::target_rows;
use crate::overlay::Overlay;
use crate::scale::lemma_ticks;
use crate::scale::YAxisMetrics;
use crate::text::decimal;
use crate::text::percent;
use crate::text::percent_of;
use crate::text::push_decimal;
use crate::text::push_rounded;
use crate::text::rounded_label;
use crate::weather::clamped_pop;
use crate::weather::pop_of;
use crate::weather::valid_sample;
use crate::weather::valid_series;
use crate::weather::Hourly;
use crate::weather::TIME_LIMIT;

verus! {

/// Width of the axis widget in pixels.
pub const AXIS_WIDTH: i32 = 48;

/// Distance of the tick marks' start from the right edge of the axis, in pixels.
pub const TICK_START: i64 = 6;

/// Distance of the tick marks' end from the right edge of the axis, in pixels.
pub const TICK_END: i64 = 2;

/// Distance of the labels' right end from the right edge of the axis, in pixels.
pub const TICK_LABEL_GAP: i64 = 8;

/// The hourly chart.
pub struct HourlyPlot<S> {
    pub data: Vec<Hourly>,
    pub tz_offset: i32,
    pub anim: AnimState,
    pub cache: RenderCache<S>,
    /// The sample that the pointer is on, if it is over the chart.
    pub hover: Option<usize>,
}

/// What marks the sample under the pointer: an upright line through its
/// column, a highlight on its dot, and a label beside it.
#[derive(Debug, Clone)]
pub struct HoverMark {
    pub index: usize,
    /// Column of the sample.
    pub x: i64,
    /// Row of the sample as the animation shows it now.
    pub y: i64,
    /// Temperature and time of the sample.
    pub label: String,
}

/// What to paint for one frame of the chart.
pub struct Frame<'a, S> {
    /// The rasterised static layer, to be painted first. None where
    /// rasterising failed; `repaint` is then to be painted in its place.
    pub background: Option<&'a S>,
    /// The static layer as geometry, where it had to be rasterised for this frame.
    pub repaint: Option<StaticLayer>,
    /// The dynamic layer, to be painted on top.
    pub overlay: Overlay,
    /// The mark of the sample under the pointer, to be painted last.
    pub hover: Option<HoverMark>,
}

/// One tick of the axis: a short line at `row` and a label to its left.
#[derive(Debug, Clone)]
pub struct TickMark {
    pub row: i64,
    pub line_from: i64,
    pub line_to: i64,
    /// Where the label's text ends.
    pub label_right: i64,
    pub label: String,
}

/// The vertical axis of the chart.
pub struct YAxis {
    pub metrics: YAxisMetrics,
}

/// The pattern of the time in a tooltip.
pub open spec fn tooltip_pattern() -> Seq<char> {
    seq!['%', 'I', ':', '%', 'M', ' ', '%', 'p']
}

/// The longer description of the first condition of a sample, or nothing.
pub open spec fn description_of(h: Hourly) -> Seq<char> {
    if h.weather@.len() > 0 {
        match h.weather@[0].description {
            Some(d) => d@,
            None => Seq::empty(),
        }
    } else {
        Seq::empty()
    }
}

/// The tooltip of a sample: its time in bold, its temperature in whole
/// degrees, its probability of precipitation in per cent, and its
/// description in italics, each on a line of its own.
pub open spec fn tooltip_text(h: Hourly, tz: int) -> Seq<char> {
    "<b>"@ + formatted_time(h.dt as int, tz, tooltip_pattern()) + "</b>\n"@ + rounded_label(
        h.temp as int,
    ) + "°\nPrecip: "@ + decimal(percent_of(pop_of(h)) as nat) + "%\n<i>"@ + description_of(h)
        + "</i>"@
}

/// The label beside the sample under the pointer: its temperature in whole
/// degrees and its time of day.
pub open spec fn hover_text(h: Hourly, tz: int) -> Seq<char> {
    rounded_label(h.temp as int) + "° "@ + formatted_time(h.dt as int, tz, label_pattern())
}

/// Whether `mark` marks the sample that `hover` names, in the columns `xs`
/// and on the rows `ys`: none where no sample is named or the series has no
/// such sample.
pub open spec fn is_hover_mark(
    mark: Option<HoverMark>,
    hover: Option<usize>,
    data: Seq<Hourly>,
    tz: int,
    xs: Seq<i64>,
    ys: Seq<i64>,
) -> bool {
    if hover is Some && hover->0 < data.len() {
        &&& mark is Some
        &&& mark->0.index == hover->0
        &&& mark->0.x == xs[hover->0 as int]
        &&& mark->0.y == ys[hover->0 as int]
        &&& mark->0.label@ == hover_text(data[hover->0 as int], tz)
    } else {
        mark is None
    }
}

/// Whether `mark` is the tick of the value `t` on an axis `width` pixels wide.
pub open spec fn is_tick_mark(mark: TickMark, m: YAxisMetrics, width: int, t: int) -> bool {
    &&& mark.row == m.y_of(t)
    &&& mark.line_from == (width - TICK_START) * 1000
    &&& mark.line_to == (width - TICK_END) * 1000
    &&& mark.label_right == (width - TICK_LABEL_GAP) * 1000
    &&& mark.label@ == rounded_label(t) + "°"@
}

/// The pattern of the tooltip's time is one that the formatter accepts.
pub proof fn lemma_tooltip_pattern()
    ensures
        "%I:%M %p"@ == tooltip_pattern(),
        time_pattern(tooltip_pattern()),
{
    reveal_strlit("%I:%M %p");
    assert("%I:%M %p"@ =~= tooltip_pattern());
    reveal_with_fuel(pattern_from, 8);
}

/// The tooltip of a sample.
pub fn tooltip_markup(h: &Hourly, tz_offset: i32) -> (text: String)
    requires
        valid_sample(*h),
    ensures
        text@ == tooltip_text(*h, tz_offset as int),
{
    proof {
        lemma_tooltip_pattern();
    }
    let time = fmt_time(h.dt, tz_offset as i64, "%I:%M %p");
    let mut text = String::from_str("<b>");
    text.append(time.as_str());
    text.append("</b>\n");
    push_rounded(&mut text, h.temp);
    text.append("°\nPrecip: ");
    push_decimal(&mut text, percent(clamped_pop(h)) as u64);
    text.append("%\n<i>");
    if h.weather.len() > 0 {
        match &h.weather[0].description {
            Some(d) => {
                text.append(d.as_str());
            },
            None => {},
        }
    }
    text.append("</i>");
    assert(text@ =~= tooltip_text(*h, tz_offset as int));
    text
}

/// A chart of the series `hourly` at the UTC offset `tz_offset`, not yet
/// painted: without shown values, idle, with an empty cache.
pub fn create_hourly_graph_plot<S>(hourly: Vec<Hourly>, _forecast_hours: usize, tz_offset: i32) -> (plot:
    HourlyPlot<S>)
    requires
        valid_series(hourly@),
    ensures
        plot.wf(),
        plot.data == hourly,
        plot.tz_offset == tz_offset,
        plot.anim@.curr_y.len() == 0,
        plot.anim@.progress == TRANSITION_MS,
        !plot.anim@.animating,
        plot.anim@.last_tick == 0,
        plot.anim@.ribbon_phase == 0,
        plot.cache.surface is None,
        plot.cache.width == -1,
        plot.cache.height == -1,
        plot.hover is None,
{
    HourlyPlot {
        data: hourly,
        tz_offset,
        anim: AnimState::new(),
        cache: RenderCache::new(),
        hover: None,
    }
}

/// The axis widget for a scale.
pub fn create_hourly_y_axis(metrics: YAxisMetrics) -> (axis: YAxis)
    ensures
        axis.metrics == metrics,
{
    YAxis { metrics }
}

impl<S> HourlyPlot<S> {
    /// The series is valid and the animation state well formed.
    pub open spec fn wf(&self) -> bool {
        &&& valid_series(self.data@)
        &&& self.anim.wf()
    }

    /// Size in pixels that the widget asks for: sixty pixels for each sample,
    /// a hundred at least, and a fixed height.
    pub fn size_request(&self) -> (size: (i32, i32))
        ensures
            size.0 == requested_width(self.data@.len() as int),
            size.1 == CHART_HEIGHT,
    {
        (min_width(self.data.len()), CHART_HEIGHT)
    }

    /// A tick of the frame clock at `now_ms`. Returns whether to repaint.
    pub fn tick(&mut self, now_ms: u64) -> (redraw: bool)
        requires
            old(self).wf(),
        ensures
            final(self).wf(),
            final(self).data == old(self).data,
            final(self).tz_offset == old(self).tz_offset,
            final(self).cache == old(self).cache,
            final(self).hover == old(self).hover,
            final(self).anim@ == old(self).anim@.tick(now_ms as int),
            redraw == !old(self).anim@.skips(now_ms as int),
    {
        self.anim.tick(now_ms)
    }

    /// The pointer has moved to `x` in a widget `width` pixels wide: the
    /// nearest sample is the one to mark. Returns whether that is another
    /// sample than before, so that a repaint is due.
    pub fn pointer_moved(&mut self, x: i32, width: i32) -> (changed: bool)
        ensures
            final(self).data == old(self).data,
            final(self).tz_offset == old(self).tz_offset,
            final(self).anim == old(self).anim,
            final(self).cache == old(self).cache,
            old(self).data@.len() == 0 ==> final(self).hover is None,
            old(self).data@.len() > 0 ==> final(self).hover == Some(
                nearest(
                    x as int,
                    LEFT_MARGIN as int,
                    plot_width(width as int),
                    old(self).data@.len() as int,
                ) as usize,
            ),
            changed == (final(self).hover != old(self).hover),
    {
        let plot: i64 = plot_width_px(width);
        let hit = nearest_index(x, LEFT_MARGIN as i32, plot as i32, self.data.len());
        let changed = match (hit, self.hover) {
            (Some(a), Some(b)) => a != b,
            (None, None) => false,
            _ => true,
        };
        self.hover = hit;
        changed
    }

    /// The pointer has left the chart: no sample is marked. Returns whether
    /// one was, so that a repaint is due.
    pub fn pointer_left(&mut self) -> (changed: bool)
        ensures
            final(self).data == old(self).data,
            final(self).tz_offset == old(self).tz_offset,
            final(self).anim == old(self).anim,
            final(self).cache == old(self).cache,
            final(self).hover is None,
            changed == old(self).hover is Some,
    {
        let changed = self.hover.is_some();
        self.hover = None;
        changed
    }

    /// The mark of the sample under the pointer.
    fn hover_mark(&self, xs: &Vec<i64>, ys: &Vec<i64>) -> (mark: Option<HoverMark>)
        requires
            valid_series(self.data@),
            xs.len() == self.data.len(),
            ys.len() == self.data.len(),
        ensures
            is_hover_mark(mark, self.hover, self.data@, self.tz_offset as int, xs@, ys@),
    {
        match self.hover {
            Some(i) => {
                if i < self.data.len() {
                    let h = &self.data[i];
                    assert(valid_sample(self.data@[i as int]));
                    proof {
                        lemma_label_pattern();
                    }
                    let mut label = String::new();
                    push_rounded(&mut label, h.temp);
                    label.append("° ");
                    label.append(fmt_time(h.dt, self.tz_offset as i64, "%H:%M").as_str());
                    assert(label@ =~= hover_text(self.data@[i as int], self.tz_offset as int));
                    Some(HoverMark { index: i, x: xs[i], y: ys[i], label })
                } else {
                    None
                }
            },
            None => None,
        }
    }

    /// The tooltip for a pointer at `x` in a widget `width` pixels wide: that
    /// of the nearest sample, or none where there is no sample.
    pub fn query_tooltip(&self, x: i32, width: i32) -> (tip: Option<String>)
        requires
            self.wf(),
        ensures
            self.data@.len() == 0 ==> tip is None,
            self.data@.len() > 0 ==> tip is Some && tip->0@ == tooltip_text(
                self.data@[nearest(
                    x as int,
                    LEFT_MARGIN as int,
                    plot_width(width as int),
                    self.data@.len() as int,
                )],
                self.tz_offset as int,
            ),
    {
        let plot: i64 = plot_width_px(width);
        match nearest_index(x, LEFT_MARGIN as i32, plot as i32, self.data.len()) {
            Some(i) => {
                assert(valid_sample(self.data@[i as int]));
                Some(tooltip_markup(&self.data[i], self.tz_offset))
            },
            None => None,
        }
    }

    /// One frame of the chart in a widget of `width` by `height` pixels, at
    /// the time `now` in seconds since the epoch and `now_ms` on the frame
    /// clock.
    ///
    /// The static layer comes from the cache where it holds a surface of this
    /// size. Otherwise the layer is computed and handed to `rasterise`, and
    /// what that returns replaces the cache's entry; where it returns
    /// nothing, the cache is left empty and the frame carries no background,
    /// so that the caller paints the layer itself. The dynamic layer is
    /// computed in every frame.
    pub fn draw<F: FnOnce(&StaticLayer) -> Option<S>>(
        &mut self,
        m: &YAxisMetrics,
        width: i32,
        height: i32,
        now: i64,
        now_ms: u64,
        rasterise: F,
    ) -> (frame: Frame<'_, S>)
        requires
            old(self).wf(),
            m.wf(),
            -TIME_LIMIT <= now <= TIME_LIMIT,
            forall|layer: StaticLayer|
                is_static_layer(
                    layer,
                    old(self).data@,
                    old(self).tz_offset as int,
                    *m,
                    width as int,
                    height as int,
                    now as int,
                ) ==> rasterise.requires((&layer,)),
        ensures
            final(self).wf(),
            final(self).data == old(self).data,
            final(self).tz_offset == old(self).tz_offset,
            final(self).hover == old(self).hover,
            is_hover_mark(
                frame.hover,
                old(self).hover,
                old(self).data@,
                old(self).tz_offset as int,
                frame.overlay.xs@,
                frame.overlay.ys@,
            ),
            old(self).data@.len() == 0 ==> final(self).anim@ == old(self).anim@,
            old(self).data@.len() > 0 ==> final(self).anim@ == old(self).anim@.retarget(
                target_rows(old(self).data@, *m),
                target_pops(old(self).data@),
                now_ms as int,
            ),
            old(self).data@.len() > 0 ==> is_overlay(
                frame.overlay,
                old(self).data@,
                old(self).tz_offset as int,
                *m,
                width as int,
                final(self).anim@,
                now as int,
            ),
            old(self).data@.len() == 0 ==> frame.overlay.xs@.len() == 0
                && frame.overlay.ys@.len() == 0 && frame.overlay.curve@.len() == 0
                && frame.overlay.bars@.len() == 0 && frame.overlay.pop_labels@.len() == 0
                && frame.overlay.now_x is None,
            old(self).cache.holds(width as int, height as int) ==> {
                &&& final(self).cache == old(self).cache
                &&& frame.background == Some(&old(self).cache.surface->0)
                &&& frame.repaint is None
            },
            !old(self).cache.holds(width as int, height as int) ==> {
                &&& frame.repaint is Some
                &&& is_static_layer(
                    frame.repaint->0,
                    old(self).data@,
                    old(self).tz_offset as int,
                    *m,
                    width as int,
                    height as int,
                    now as int,
                )
                &&& rasterise.ensures((&frame.repaint->0,), final(self).cache.surface)
                &&& final(self).cache.surface is Some ==> final(self).cache.width == width
                    && final(self).cache.height == height
                &&& final(self).cache.surface is None ==> final(self).cache.width == -1
                    && final(self).cache.height == -1
                &&& frame.background == shared(&final(self).cache.surface)
            },
    {
        let overlay = overlay(
            self.data.as_slice(),
            self.tz_offset,
            m,
            width,
            &mut self.anim,
            now,
            now_ms,
        );
        proof {
            if self.data@.len() > 0 {
                assert(ints(overlay.xs@).len() == overlay.xs@.len());
                assert(ints(overlay.ys@).len() == overlay.ys@.len());
            }
        }
        let hover = if self.data.len() > 0 {
            self.hover_mark(&overlay.xs, &overlay.ys)
        } else {
            None
        };
        if self.cache.surface.is_some() && self.cache.width == width && self.cache.height
            == height {
            return Frame { background: self.cache.surface.as_ref(), repaint: None, overlay, hover };
        }
        let layer = static_layer(self.data.as_slice(), self.tz_offset, m, width, height, now);
        match rasterise(&layer) {
            Some(surface) => {
                self.cache.store(width, height, surface);
            },
            None => {
                self.cache.invalidate();
            },
        }
        Frame { background: self.cache.surface.as_ref(), repaint: Some(layer), overlay, hover }
    }
}

impl YAxis {
    /// The ticks of the axis in a widget `width` pixels wide, highest first.
    pub fn draw(&self, width: i32) -> (marks: Vec<TickMark>)
        requires
            self.metrics.wf(),
        ensures
            marks.len() == self.metrics.ticks@.len(),
            forall|k: int|
                0 <= k < marks.len() ==> is_tick_mark(
                    #[trigger] marks@[k],
                    self.metrics,
                    width as int,
                    self.metrics.ticks@[k] as int,
                ),
    {
        let wide: i64 = width as i64;
        let mut marks: Vec<TickMark> = Vec::new();
        let mut k: usize = 0;
        while k < self.metrics.ticks.len()
            invariant
                self.metrics.wf(),
                wide == width,
                k <= self.metrics.ticks.len(),
                marks.len() == k,
                forall|j: int|
                    0 <= j < k ==> is_tick_mark(
                        #[trigger] marks@[j],
                        self.metrics,
                        width as int,
                        self.metrics.ticks@[j] as int,
                    ),
            decreases self.metrics.ticks.len() - k,
        {
            let t: i64 = self.metrics.ticks[k];
            proof {
                lemma_ticks(self.metrics);
            }
            let mut label = String::new();
            push_rounded(&mut label, t);
            label.append("°");
            assert(label@ =~= rounded_label(t as int) + "°"@);
            marks.push(
                TickMark {
                    row: self.metrics.temp_to_y(t),
                    line_from: (wide - TICK_START) * 1000,
                    line_to: (wide - TICK_END) * 1000,
                    label_right: (wide - TICK_LABEL_GAP) * 1000,
                    label,
                },
            );
            k += 1;
        }
        marks
    }
}

} // verus!
