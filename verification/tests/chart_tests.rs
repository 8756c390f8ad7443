use redweather::anim::{AnimState, IDLE_FRAME_MS, TRANSITION_MS};
use redweather::backdrop::{static_layer, Rect};
use redweather::cache::RenderCache;
use redweather::graph::{
    create_hourly_graph_plot, create_hourly_y_axis, tooltip_markup, HourlyPlot,
};
use redweather::layout::{min_width, nearest_index, plot_width_px, x_positions, x_step};
use redweather::overlay::{chart_targets, overlay, precip_tier, PrecipTier};
use redweather::scale::YAxisMetrics;
use redweather::spline::{build_smooth_path, PathStep, Point};
use redweather::weather::{
    clamped_pop, clamped_sample, clamped_series, is_valid_series, Hourly, WeatherDesc,
};

fn hour(dt: i64, temp: i64, pop: Option<i64>) -> Hourly {
    Hourly {
        dt,
        temp,
        pressure: None,
        humidity: None,
        uvi: None,
        pop,
        wind_speed: None,
        wind_deg: None,
        weather: vec![WeatherDesc {
            main: Some("Clouds".into()),
            description: Some("broken clouds".into()),
        }],
    }
}

/// Four hours from 22:13 UTC on, with the temperatures 50, 55, 52 and 60
/// degrees and the probabilities 0, 30, 70 and 90 per cent.
fn four_hours() -> Vec<Hourly> {
    vec![
        hour(1_700_000_000, 50_000, Some(0)),
        hour(1_700_003_600, 55_000, Some(300)),
        hour(1_700_007_200, 52_000, Some(700)),
        hour(1_700_010_800, 60_000, Some(900)),
    ]
}

// ---------------------------------------------------------------- scale

#[test]
fn scale_pads_and_rounds_out_to_five_degrees() {
    let data = four_hours();
    let m = YAxisMetrics::new(&data, 220, 24);
    assert_eq!(m.grid_min, 45_000);
    assert_eq!(m.grid_max, 65_000);
    assert_eq!(m.temp_range, 20_000);
    assert_eq!(m.ticks, vec![65_000, 60_000, 55_000, 50_000, 45_000]);
    assert_eq!(m.plot_height, 148_000);
    assert_eq!(m.temp_top, 24_000);
    assert_eq!(m.temp_bot, 127_600);
}

#[test]
fn scale_maps_the_domain_onto_the_band() {
    let m = YAxisMetrics::new(&four_hours(), 220, 24);
    assert_eq!(m.temp_to_y(65_000), 24_000);
    assert_eq!(m.temp_to_y(45_000), 127_600);
    assert_eq!(m.temp_to_y(55_000), 75_800);
    assert_eq!(m.temp_to_y(60_000), 49_900);
    assert_eq!(m.temp_to_y(52_000), 91_340);
    assert_eq!(m.temp_to_y(50_000), 101_700);
    // outside the domain the line goes on
    assert_eq!(m.temp_to_y(70_000), -1_900);
    assert_eq!(m.temp_to_y(40_000), 153_500);
}

#[test]
fn scale_is_monotone_on_a_rising_series() {
    let data: Vec<Hourly> =
        (0..40).map(|i| hour(1_700_000_000 + 3600 * i, -20_000 + 1_370 * i, None)).collect();
    let m = YAxisMetrics::new(&data, 260, 24);
    let mut last = i64::MAX;
    for h in &data {
        let y = m.temp_to_y(h.temp);
        assert!(y <= last);
        assert!(m.temp_top <= y && y <= m.temp_bot);
        last = y;
    }
}

#[test]
fn scale_of_a_narrow_series_grows_by_a_step_each_way() {
    let m = YAxisMetrics::new(&[hour(0, 52_500, None)], 260, 24);
    assert_eq!((m.grid_min, m.grid_max, m.temp_range), (45_000, 60_000, 15_000));
    assert_eq!(m.ticks, vec![60_000, 55_000, 50_000, 45_000]);
    // a flat series on the grid spans ten degrees after padding and stays
    let flat = YAxisMetrics::new(&[hour(0, 50_000, None), hour(1, 50_000, None)], 260, 24);
    assert_eq!((flat.grid_min, flat.grid_max), (45_000, 55_000));
}

#[test]
fn scale_of_an_empty_series_is_the_unit_range() {
    let m = YAxisMetrics::new(&[], 220, 24);
    assert_eq!((m.grid_min, m.grid_max, m.temp_range), (0, 1_000, 1_000));
    assert_eq!(m.ticks, vec![1_000, 0]);
    assert_eq!(m.plot_height, 148_000);
    assert_eq!(m.temp_top, 24_000);
    assert_eq!(m.temp_bot, 127_600);
    assert_eq!(m.temp_to_y(1_000), 24_000);
    assert_eq!(m.temp_to_y(0), 127_600);
    assert_eq!(m.temp_to_y(500), 75_800);
    // a reading far from the unit range still has a row
    assert_eq!(m.temp_to_y(72_500), 24_000 - 7_407_400);
    assert_eq!(m.temp_to_y(-2_000_000_000), 24_000 + 207_200_103_600);
    let tall = YAxisMetrics::new(&[], i32::MAX, 24);
    assert_eq!((tall.grid_min, tall.grid_max, tall.temp_range), (0, 1_000, 1_000));
    assert_eq!(tall.temp_to_y(2_000_000_000), 24_000 - 3_006_475_501_761_497_500);
    // the axis of the unit range has a tick on each end and no line between
    let marks = create_hourly_y_axis(m.clone()).draw(48);
    let labels: Vec<&str> = marks.iter().map(|t| t.label.as_str()).collect();
    assert_eq!(labels, vec!["1°", "0°"]);
    let layer = static_layer(&four_hours(), 0, &m, 320, 220, 0);
    assert_eq!(layer.grid_rows, vec![24_000, 127_600]);
    assert!(layer.minor_rows.is_empty());
}

#[test]
fn scale_below_zero() {
    let m = YAxisMetrics::new(&[hour(0, -12_300, None), hour(1, -1_000, None)], 260, 24);
    assert_eq!((m.grid_min, m.grid_max), (-15_000, 5_000));
    assert_eq!(m.ticks, vec![5_000, 0, -5_000, -10_000, -15_000]);
}

#[test]
fn scale_in_a_widget_without_room() {
    for h in [0, 72, 73, -5, i32::MIN] {
        let m = YAxisMetrics::new(&four_hours(), h, 24);
        assert_eq!(m.plot_height, 1_000);
        assert_eq!(m.temp_bot, 24_700);
        assert_eq!(m.temp_to_y(45_000), 24_700);
    }
    let tall = YAxisMetrics::new(&four_hours(), i32::MAX, 24);
    assert_eq!(tall.plot_height, (i32::MAX as i64 - 72) * 1000);
    assert_eq!(tall.temp_to_y(45_000), tall.temp_bot);
}

#[test]
fn series_limits() {
    assert!(is_valid_series(&four_hours()));
    assert!(is_valid_series(&[]));
    assert!(is_valid_series(&[hour(4_000_000_000_000, 1_000_000_000, None)]));
    assert!(!is_valid_series(&[hour(0, 1_000_000_001, None)]));
    assert!(!is_valid_series(&[hour(0, 0, None), hour(-4_000_000_000_001, 0, None)]));
    assert_eq!(clamped_pop(&hour(0, 0, None)), 0);
    assert_eq!(clamped_pop(&hour(0, 0, Some(-3))), 0);
    assert_eq!(clamped_pop(&hour(0, 0, Some(1_001))), 1_000);
    assert_eq!(clamped_pop(&hour(0, 0, Some(454))), 454);
}

// --------------------------------------------------------------- layout

#[test]
fn columns_are_spread_from_edge_to_edge() {
    assert_eq!(plot_width_px(320), 304);
    assert_eq!(plot_width_px(16), 1);
    assert_eq!(plot_width_px(-20), 1);
    assert_eq!(x_positions(304, 4), vec![0, 101_333, 202_666, 304_000]);
    assert_eq!(x_positions(304, 1), vec![152_000]);
    assert_eq!(x_positions(304, 0), Vec::<i64>::new());
    assert_eq!(x_positions(1, 3), vec![0, 500, 1_000]);
    assert_eq!(x_step(304, 4), 101_333);
    assert_eq!(x_step(304, 1), 0);
    assert_eq!(x_step(304, 0), 0);
}

#[test]
fn requested_width_is_sixty_pixels_a_sample() {
    assert_eq!(min_width(0), 100);
    assert_eq!(min_width(1), 100);
    assert_eq!(min_width(2), 120);
    assert_eq!(min_width(24), 1_440);
    assert_eq!(min_width(35_791_394), 2_147_483_640);
    assert_eq!(min_width(35_791_395), i32::MAX);
    assert_eq!(min_width(usize::MAX), i32::MAX);
}

#[test]
fn hit_test_boundary() {
    assert_eq!(nearest_index(0, 0, 400, 5), Some(0));
    assert_eq!(nearest_index(399, 0, 400, 5), Some(4));
    assert_eq!(nearest_index(400, 0, 400, 5), Some(4));
    assert_eq!(nearest_index(-1, 0, 400, 5), Some(0));
    assert_eq!(nearest_index(-5_000, 0, 400, 5), Some(0));
    assert_eq!(nearest_index(401, 0, 400, 5), Some(4));
    assert_eq!(nearest_index(i32::MAX, 0, 400, 5), Some(4));
    assert_eq!(nearest_index(i32::MIN, 0, 400, 5), Some(0));
}

#[test]
fn hit_test_rounds_to_the_nearest_column() {
    // columns at 0, 100, 200, 300, 400
    assert_eq!(nearest_index(49, 0, 400, 5), Some(0));
    assert_eq!(nearest_index(50, 0, 400, 5), Some(1));
    assert_eq!(nearest_index(149, 0, 400, 5), Some(1));
    assert_eq!(nearest_index(150, 0, 400, 5), Some(2));
    assert_eq!(nearest_index(251, 0, 400, 5), Some(3));
    // a plot that starts further right
    assert_eq!(nearest_index(149, 100, 400, 5), Some(0));
    assert_eq!(nearest_index(150, 100, 400, 5), Some(1));
}

#[test]
fn hit_test_without_samples_or_width() {
    assert_eq!(nearest_index(10, 0, 400, 0), None);
    assert_eq!(nearest_index(10, 0, 400, 1), Some(0));
    assert_eq!(nearest_index(390, 0, 400, 1), Some(0));
    assert_eq!(nearest_index(390, 0, 0, 5), Some(0));
    assert_eq!(nearest_index(390, 0, -7, 5), Some(0));
    assert_eq!(nearest_index(3, 0, 1, usize::MAX), Some(usize::MAX - 1));
}

// --------------------------------------------------------------- spline

#[test]
fn smooth_path_of_nothing_and_of_one_point() {
    assert_eq!(build_smooth_path(&[], &[]), vec![]);
    assert_eq!(
        build_smooth_path(&[5_000], &[7_000]),
        vec![PathStep::MoveTo(Point { x: 5_000, y: 7_000 })]
    );
}

#[test]
fn smooth_path_of_two_points_is_a_straight_segment() {
    let path = build_smooth_path(&[0, 60_000], &[12_000, 72_000]);
    assert_eq!(
        path,
        vec![
            PathStep::MoveTo(Point { x: 0, y: 12_000 }),
            PathStep::CurveTo {
                c1: Point { x: 0, y: 12_000 },
                c2: Point { x: 60_000, y: 72_000 },
                end: Point { x: 60_000, y: 72_000 },
            },
        ]
    );
    assert_eq!(
        build_smooth_path(&[0, 6], &[0, 12]),
        vec![
            PathStep::MoveTo(Point { x: 0, y: 0 }),
            PathStep::CurveTo {
                c1: Point { x: 0, y: 0 },
                c2: Point { x: 6, y: 12 },
                end: Point { x: 6, y: 12 },
            },
        ]
    );
    // also where they are one point, or out of order
    assert_eq!(
        build_smooth_path(&[5, 5], &[1, 1])[1],
        PathStep::CurveTo {
            c1: Point { x: 5, y: 1 },
            c2: Point { x: 5, y: 1 },
            end: Point { x: 5, y: 1 },
        }
    );
    assert_eq!(
        build_smooth_path(&[9, 2], &[0, 0])[1],
        PathStep::CurveTo {
            c1: Point { x: 9, y: 0 },
            c2: Point { x: 2, y: 0 },
            end: Point { x: 2, y: 0 },
        }
    );
}

fn controls_of(step: PathStep) -> (Point, Point) {
    match step {
        PathStep::CurveTo { c1, c2, .. } => (c1, c2),
        PathStep::MoveTo(p) => (p, p),
    }
}

fn cubic(p0: i64, c1: i64, c2: i64, p3: i64, num: i128, den: i128) -> i128 {
    let u = den - num;
    u * u * u * p0 as i128
        + 3 * u * u * num * c1 as i128
        + 3 * u * num * num * c2 as i128
        + num * num * num * p3 as i128
}

#[test]
fn smooth_path_never_turns_back_on_uneven_points() {
    // a step of 100 px and then one of 1 px: left alone, the second segment
    // would lean out to 116.833 px, beyond its end
    let xs = [0, 100_000, 101_000];
    let ys = [50_000, 10_000, 90_000];
    let path = build_smooth_path(&xs, &ys);
    assert_eq!(
        path[1],
        PathStep::CurveTo {
            c1: Point { x: 16_666, y: 43_333 },
            c2: Point { x: 83_167, y: 3_334 },
            end: Point { x: 100_000, y: 10_000 },
        }
    );
    assert_eq!(
        path[2],
        PathStep::CurveTo {
            c1: Point { x: 101_000, y: 16_666 },
            c2: Point { x: 101_000, y: 76_667 },
            end: Point { x: 101_000, y: 90_000 },
        }
    );
    for xs in [
        vec![0, 100_000, 101_000],
        vec![0, 1, 1_000_000, 1_000_001, 1_000_002],
        vec![-7, -7, -7, 500],
        vec![0, 0, 0],
        vec![i64::MIN / 4, 0, 1, i64::MAX / 4],
        vec![0, 10, 1_000, 1_010, 100_000, 100_010],
    ] {
        let ys = vec![0; xs.len()];
        let path = build_smooth_path(&xs, &ys);
        for i in 0..xs.len() - 1 {
            let (c1, c2) = controls_of(path[i + 1]);
            assert!(xs[i] <= c1.x && c1.x <= c2.x && c2.x <= xs[i + 1], "{:?} at {}", xs, i);
        }
    }
    // and so the columns of the curve itself never fall
    let xs = [0, 100_000, 101_000, 300_000];
    let path = build_smooth_path(&xs, &[0; 4]);
    for i in 0..3 {
        let (c1, c2) = controls_of(path[i + 1]);
        let mut last = i128::MIN;
        for num in 0..=64 {
            let x = cubic(xs[i], c1.x, c2.x, xs[i + 1], num, 64);
            assert!(x >= last);
            last = x;
        }
        assert_eq!(last, 64 * 64 * 64 * xs[i + 1] as i128);
    }
}

#[test]
fn smooth_path_holds_back_only_the_columns() {
    // the rows lean freely; where a segment runs from right to left, its
    // control columns are brought to its end
    let path = build_smooth_path(&[0, 600, 0], &[0, 600, 0]);
    assert_eq!(
        path[1],
        PathStep::CurveTo {
            c1: Point { x: 100, y: 100 },
            c2: Point { x: 600, y: 600 },
            end: Point { x: 600, y: 600 },
        }
    );
    assert_eq!(
        path[2],
        PathStep::CurveTo {
            c1: Point { x: 0, y: 600 },
            c2: Point { x: 0, y: 100 },
            end: Point { x: 0, y: 0 },
        }
    );
}

#[test]
fn smooth_path_passes_through_every_point() {
    let xs = [0, 60_000, 120_000, 180_000, 240_000];
    let ys = [90_000, 30_000, 75_000, 10_000, 10_000];
    let path = build_smooth_path(&xs, &ys);
    assert_eq!(path.len(), 5);
    for i in 0..5 {
        let end = match path[i] {
            PathStep::MoveTo(p) => p,
            PathStep::CurveTo { end, .. } => end,
        };
        assert_eq!(end, Point { x: xs[i], y: ys[i] });
    }
    assert!(matches!(path[0], PathStep::MoveTo(_)));
    // the controls lean on the neighbours: a sixth of the chord across each point
    assert_eq!(
        path[1],
        PathStep::CurveTo {
            c1: Point { x: 10_000, y: 80_000 },
            c2: Point { x: 40_000, y: 32_500 },
            end: Point { x: 60_000, y: 30_000 },
        }
    );
    assert_eq!(
        path[2],
        PathStep::CurveTo {
            c1: Point { x: 80_000, y: 27_500 },
            c2: Point { x: 100_000, y: 78_334 },
            end: Point { x: 120_000, y: 75_000 },
        }
    );
    assert_eq!(
        path[4],
        PathStep::CurveTo {
            c1: Point { x: 200_000, y: -834 },
            c2: Point { x: 230_000, y: 10_000 },
            end: Point { x: 240_000, y: 10_000 },
        }
    );
}

#[test]
fn smooth_path_rounds_a_sixth_down() {
    // a chord of -7 gives a control offset of floor(-7/6) = -2
    let path = build_smooth_path(&[0, 7, 14], &[7, 0, -7]);
    assert_eq!(
        path[1],
        PathStep::CurveTo {
            c1: Point { x: 1, y: 5 },
            c2: Point { x: 5, y: 3 },
            end: Point { x: 7, y: 0 },
        }
    );
    assert_eq!(
        path[2],
        PathStep::CurveTo {
            c1: Point { x: 9, y: -3 },
            c2: Point { x: 13, y: -5 },
            end: Point { x: 14, y: -7 },
        }
    );
}

// ------------------------------------------------------------ animation

#[test]
fn animation_first_targets_are_shown_at_once() {
    let mut a = AnimState::new();
    assert_eq!(a.progress, TRANSITION_MS);
    assert!(!a.animating);
    a.retarget(&[100, 200], &[0, 500], 42);
    assert_eq!(a.progress, TRANSITION_MS);
    assert!(!a.animating);
    assert_eq!(a.prev_y, vec![100, 200]);
    assert_eq!(a.curr_y, vec![100, 200]);
    assert_eq!(a.prev_pop, vec![0, 500]);
    assert_eq!(a.curr_pop, vec![0, 500]);
    assert_eq!(a.last_tick, 0);
    assert_eq!(a.displayed_y(), vec![100, 200]);
    assert_eq!(a.displayed_pop(), vec![0, 500]);
}

#[test]
fn animation_ignores_changes_within_the_tolerance() {
    let mut a = AnimState::new();
    a.retarget(&[1_000, 2_000], &[100, 500], 0);
    assert!(!a.differs(&[1_100, 1_900], &[110, 490]));
    a.retarget(&[1_100, 1_900], &[110, 490], 5);
    assert!(!a.animating);
    assert_eq!(a.curr_y, vec![1_000, 2_000]);
    assert_eq!(a.curr_pop, vec![100, 500]);
    assert!(a.differs(&[1_101, 2_000], &[100, 500]));
    assert!(a.differs(&[1_000, 2_000], &[100, 511]));
    assert!(a.differs(&[1_000, 2_000], &[89, 500]));
    assert!(a.differs(&[1_000], &[100]));
    assert!(a.differs(&[], &[]));
}

#[test]
fn animation_converges() {
    let mut a = AnimState::new();
    a.retarget(&[0, 80_000], &[0, 1_000], 0);
    a.retarget(&[40_000, 0], &[1_000, 0], 1_000);
    assert!(a.animating);
    assert_eq!(a.progress, 0);
    assert_eq!(a.last_tick, 1_000);
    assert_eq!(a.prev_y, vec![0, 80_000]);
    assert_eq!(a.displayed_y(), vec![0, 80_000]);

    assert!(a.tick(1_100));
    assert_eq!(a.progress, 100);
    assert!(a.animating);
    assert_eq!(a.displayed_y(), vec![10_000, 60_000]);
    assert_eq!(a.displayed_pop(), vec![250, 750]);

    assert!(a.tick(1_250));
    assert_eq!(a.progress, 250);
    assert_eq!(a.displayed_y(), vec![25_000, 30_000]);

    assert!(a.tick(1_400));
    assert_eq!(a.progress, 400);
    assert!(!a.animating);
    assert_eq!(a.displayed_y(), vec![40_000, 0]);
    assert_eq!(a.displayed_pop(), vec![1_000, 0]);
    assert_eq!(a.ribbon_phase, 0);
}

#[test]
fn animation_converges_whatever_the_steps() {
    for steps in [vec![400u64], vec![1; 400], vec![399, 1], vec![7, 90, 3, 500], vec![u64::MAX]] {
        let mut a = AnimState::new();
        a.retarget(&[5, -5], &[0, 0], 0);
        a.retarget(&[-77_777, 123_456], &[333, 1_000], 0);
        assert!(a.animating);
        for s in steps {
            a.advance(s);
        }
        assert_eq!(a.progress, TRANSITION_MS);
        assert!(!a.animating);
        assert_eq!(a.displayed_y(), vec![-77_777, 123_456]);
        assert_eq!(a.displayed_pop(), vec![333, 1_000]);
    }
}

#[test]
fn animation_rounds_down_on_the_way() {
    let mut a = AnimState::new();
    a.retarget(&[0, 0], &[0, 0], 0);
    a.retarget(&[1_000, -1_000], &[0, 0], 0);
    a.advance(1);
    // 1000 / 400 = 2.5
    assert_eq!(a.displayed_y(), vec![2, -3]);
    a.advance(398);
    assert_eq!(a.displayed_y(), vec![997, -998]);
}

#[test]
fn animation_restarts_from_what_is_on_screen() {
    let mut a = AnimState::new();
    a.retarget(&[0], &[0], 0);
    a.retarget(&[40_000], &[1_000], 0);
    a.advance(100);
    assert_eq!(a.displayed_y(), vec![10_000]);
    a.retarget(&[90_000], &[0], 100);
    assert!(a.animating);
    assert_eq!(a.progress, 0);
    assert_eq!(a.prev_y, vec![10_000]);
    assert_eq!(a.prev_pop, vec![250]);
    assert_eq!(a.displayed_y(), vec![10_000]);
    a.advance(200);
    assert_eq!(a.displayed_y(), vec![50_000]);
}

#[test]
fn animation_takes_a_series_of_another_length() {
    let mut a = AnimState::new();
    a.retarget(&[10, 20, 30], &[1, 2, 3], 0);
    a.retarget(&[10, 20, 30, 40, 50], &[1, 2, 3, 4, 5], 9);
    assert!(a.animating);
    assert_eq!(a.prev_y, vec![10, 20, 30, 40, 50]);
    assert_eq!(a.curr_y, vec![10, 20, 30, 40, 50]);
    a.advance(400);
    a.retarget(&[500], &[0], 10);
    assert!(a.animating);
    assert_eq!(a.prev_y, vec![10]);
    assert_eq!(a.prev_pop, vec![1]);
    assert_eq!(a.curr_y, vec![500]);
    a.advance(200);
    assert_eq!(a.displayed_y(), vec![255]);
}

#[test]
fn idle_ticks_feed_the_phase_and_are_throttled() {
    let mut a = AnimState::new();
    a.retarget(&[0], &[0], 0);
    assert!(!a.tick(IDLE_FRAME_MS - 1));
    assert_eq!(a.last_tick, 0);
    assert_eq!(a.ribbon_phase, 0);
    assert!(a.tick(IDLE_FRAME_MS));
    assert_eq!(a.last_tick, 33);
    assert_eq!(a.ribbon_phase, 33);
    assert!(!a.tick(40));
    assert!(a.tick(100));
    assert_eq!(a.ribbon_phase, 100);
    // a clock that goes back counts as no time
    assert!(!a.tick(50));
    assert_eq!(a.last_tick, 100);
    // the phase wraps
    a.ribbon_phase = u64::MAX;
    a.advance(2);
    assert_eq!(a.ribbon_phase, 1);
    assert_eq!(a.progress, TRANSITION_MS);
}

#[test]
fn a_transition_is_never_throttled() {
    let mut a = AnimState::new();
    a.retarget(&[0], &[0], 0);
    a.retarget(&[9_000], &[0], 1_000);
    assert!(a.tick(1_001));
    assert_eq!(a.progress, 1);
    assert!(a.tick(1_001));
    assert_eq!(a.progress, 1);
    assert!(a.tick(999));
    assert_eq!(a.progress, 1);
    assert_eq!(a.last_tick, 999);
}

// ---------------------------------------------------------------- cache

#[test]
fn cache_rasterises_once_per_size() {
    let mut cache: RenderCache<String> = RenderCache::new();
    let mut built = 0;
    for (w, h) in [(320, 220), (320, 220), (320, 220), (321, 220), (321, 220), (321, 221), (320, 220)] {
        let got = cache
            .get_or_build(w, h, |w, h| {
                built += 1;
                Some(format!("{}x{}", w, h))
            })
            .cloned();
        assert_eq!(got, Some(format!("{}x{}", w, h)));
    }
    assert_eq!(built, 4);
    assert_eq!((cache.width, cache.height), (320, 220));
}

#[test]
fn cache_hit_returns_the_stored_surface() {
    let mut cache: RenderCache<u32> = RenderCache::new();
    assert_eq!(cache.lookup(10, 10), None);
    assert_eq!(cache.get_or_build(10, 10, |_, _| Some(1)), Some(&1));
    assert_eq!(cache.get_or_build(10, 10, |_, _| Some(2)), Some(&1));
    assert_eq!(cache.lookup(10, 10), Some(&1));
    assert_eq!(cache.lookup(10, 11), None);
    assert_eq!(cache.lookup(11, 10), None);
    cache.store(11, 10, 7);
    assert_eq!(cache.lookup(11, 10), Some(&7));
    assert_eq!(cache.lookup(10, 10), None);
    cache.invalidate();
    assert_eq!(cache.lookup(11, 10), None);
    assert_eq!((cache.width, cache.height), (-1, -1));
    // the size of an empty cache is no hit
    assert_eq!(RenderCache::<u32>::new().lookup(-1, -1), None);
}

#[test]
fn cache_is_left_empty_where_rasterising_fails() {
    let mut cache: RenderCache<u32> = RenderCache::new();
    assert_eq!(cache.get_or_build(10, 10, |_, _| Some(1)), Some(&1));
    assert_eq!(cache.get_or_build(20, 20, |_, _| None), None);
    assert!(cache.surface.is_none());
    assert_eq!((cache.width, cache.height), (-1, -1));
    assert_eq!(cache.get_or_build(10, 10, |_, _| Some(3)), Some(&3));
}

// --------------------------------------------------------------- layers

#[test]
fn static_layer_of_four_hours() {
    let data = four_hours();
    let m = YAxisMetrics::new(&data, 220, 24);
    let layer = static_layer(&data, 0, &m, 320, 220, 1_700_005_000);
    assert!(!layer.no_data);
    assert_eq!(layer.line_left, 0);
    assert_eq!(layer.line_right, 304_000);
    assert_eq!(layer.band_top, 24_000);
    assert_eq!(layer.band_bottom, 166_080);
    assert_eq!(layer.label_row, 212_000);
    assert_eq!(layer.grid_rows, vec![24_000, 49_900, 75_800, 101_700, 127_600]);
    assert_eq!(layer.minor_rows, vec![114_650, 88_750, 62_850, 36_950]);
    assert_eq!(
        layer.blocks,
        vec![
            Rect { x: 0, y: 24_000, width: 304_000, height: 142_080 },
            Rect { x: 304_000, y: 24_000, width: 1_000, height: 142_080 },
        ]
    );
    assert_eq!(layer.columns.len(), 4);
    let xs = [0, 101_333, 202_666, 304_000];
    let labels = ["22:13", "23:13", "00:13", "01:13"];
    for i in 0..4 {
        let c = &layer.columns[i];
        assert_eq!(c.x, xs[i]);
        assert_eq!(c.shade, Rect { x: xs[i], y: 24_000, width: 101_333, height: 142_080 });
        assert_eq!(c.label, labels[i]);
        assert!(c.night);
        assert_eq!(c.new_day, i == 2);
        assert_eq!(c.past, i < 2);
    }
}

#[test]
fn static_layer_knows_day_from_night() {
    // 05:59, 06:00, 17:59 and 18:00 local time, at an offset of two hours
    let data: Vec<Hourly> = [3 * 3600 + 59 * 60, 4 * 3600, 15 * 3600 + 59 * 60, 16 * 3600]
        .iter()
        .map(|t| hour(1_699_920_000 + t, 10_000, None))
        .collect();
    let m = YAxisMetrics::new(&data, 260, 24);
    let layer = static_layer(&data, 7_200, &m, 400, 260, 0);
    let nights: Vec<bool> = layer.columns.iter().map(|c| c.night).collect();
    assert_eq!(nights, vec![true, false, false, true]);
    let labels: Vec<&str> = layer.columns.iter().map(|c| c.label.as_str()).collect();
    assert_eq!(labels, vec!["05:59", "06:00", "17:59", "18:00"]);
    assert!(layer.columns.iter().all(|c| !c.new_day && !c.past));
}

#[test]
fn static_layer_before_the_epoch() {
    // an hour before 1970 that is not on the hour has a negative hour of the
    // day and counts as night
    let data = vec![hour(-12 * 3600 - 1, 0, None), hour(-12 * 3600, 0, None), hour(-1, 0, None)];
    let m = YAxisMetrics::new(&data, 260, 24);
    let layer = static_layer(&data, 0, &m, 400, 260, 0);
    let nights: Vec<bool> = layer.columns.iter().map(|c| c.night).collect();
    assert_eq!(nights, vec![true, true, true]);
    // all three fall on day 0, which runs from -86399 to 86399
    assert!(layer.columns.iter().all(|c| !c.new_day));
    assert!(layer.columns.iter().all(|c| c.past));
    assert_eq!(layer.columns[2].label, "23:59");
}

#[test]
fn static_layer_with_narrow_columns_has_no_blocks() {
    let data: Vec<Hourly> = (0..24).map(|i| hour(1_700_000_000 + 3600 * i, 10_000, None)).collect();
    let m = YAxisMetrics::new(&data, 260, 24);
    // 476 px of plot for 23 steps: 20.695 px a step, and blocks
    let wide = static_layer(&data, 0, &m, 492, 260, 0);
    assert_eq!(wide.blocks.len(), 8);
    assert_eq!(wide.blocks[7].x, wide.columns[21].x);
    assert_eq!(wide.blocks[7].width, wide.columns[23].x - wide.columns[21].x);
    // 460 px: exactly 20 px a step, and none
    let narrow = static_layer(&data, 0, &m, 476, 260, 0);
    assert_eq!(narrow.columns[1].x, 20_000);
    assert!(narrow.blocks.is_empty());
}

#[test]
fn static_layer_of_a_single_hour() {
    let data = vec![hour(1_700_000_000, 50_000, None)];
    let m = YAxisMetrics::new(&data, 220, 24);
    let layer = static_layer(&data, 0, &m, 320, 220, 0);
    assert_eq!(layer.columns.len(), 1);
    assert_eq!(layer.columns[0].x, 152_000);
    assert_eq!(layer.columns[0].shade.width, 304_000);
    assert_eq!(layer.blocks, vec![Rect { x: 152_000, y: 24_000, width: 1_000, height: 142_080 }]);
}

#[test]
fn empty_dataset_is_harmless() {
    let data: Vec<Hourly> = vec![];
    let m = YAxisMetrics::new(&data, 220, 24);
    let layer = static_layer(&data, 0, &m, 320, 220, 0);
    assert!(layer.no_data);
    assert!(layer.columns.is_empty());
    assert!(layer.blocks.is_empty());
    assert!(layer.grid_rows.is_empty());
    assert!(layer.minor_rows.is_empty());

    let mut anim = AnimState::new();
    let o = overlay(&data, 0, &m, 320, &mut anim, 0, 0);
    assert!(o.xs.is_empty() && o.ys.is_empty() && o.curve.is_empty());
    assert!(o.bars.is_empty() && o.pop_labels.is_empty());
    assert_eq!(o.now_x, None);
    assert!(anim.curr_y.is_empty());
    assert!(!anim.animating);

    let mut plot: HourlyPlot<()> = create_hourly_graph_plot(data, 24, 0);
    assert_eq!(plot.query_tooltip(10, 320), None);
    assert_eq!(plot.size_request(), (100, 260));
    assert!(!plot.tick(5));
    assert!(plot.tick(50));
    let frame = plot.draw(&m, 320, 220, 0, 60, |layer| {
        assert!(layer.no_data);
        Some(())
    });
    assert!(frame.background.is_some());
    assert!(frame.repaint.unwrap().no_data);
    assert!(frame.overlay.curve.is_empty());
    // sizes that make no sense do no harm either
    for (w, h) in [(0, 0), (-1, -1), (i32::MIN, i32::MAX), (i32::MAX, i32::MIN)] {
        let m = YAxisMetrics::new(&plot.data, h, 24);
        let frame = plot.draw(&m, w, h, 0, 70, |_| None);
        assert!(frame.background.is_none());
    }
}

#[test]
fn overlay_of_four_hours_on_first_paint() {
    let data = four_hours();
    let m = YAxisMetrics::new(&data, 220, 24);
    let mut anim = AnimState::new();
    let o = overlay(&data, 0, &m, 320, &mut anim, 1_700_001_800, 500);
    // shown at once, without a transition
    assert_eq!(anim.progress, TRANSITION_MS);
    assert!(!anim.animating);
    assert_eq!(anim.prev_y, anim.curr_y);
    assert!(o.breathing);
    assert_eq!(o.phase_ms, 0);

    assert_eq!(o.xs, vec![0, 101_333, 202_666, 304_000]);
    assert_eq!(o.ys, vec![101_700, 75_800, 91_340, 49_900]);
    assert_eq!(o.curve, build_smooth_path(&o.xs, &o.ys));
    assert_eq!(o.curve.len(), 4);
    assert_eq!(o.ribbon_top, 49_900);
    assert_eq!(o.ribbon_base, 112_060);

    assert_eq!(o.bars.len(), 4);
    assert_eq!(o.bars[0], None);
    let bar = o.bars[1].unwrap();
    assert_eq!(bar.area, Rect { x: 97_333, y: 154_536, width: 8_000, height: 11_544 });
    assert_eq!(bar.tier, PrecipTier::Light);
    let bar = o.bars[2].unwrap();
    assert_eq!(bar.area, Rect { x: 198_666, y: 139_144, width: 8_000, height: 26_936 });
    assert_eq!(bar.tier, PrecipTier::Medium);
    let bar = o.bars[3].unwrap();
    assert_eq!(bar.area, Rect { x: 300_000, y: 131_448, width: 8_000, height: 34_632 });
    assert_eq!(bar.tier, PrecipTier::Strong);

    assert!(o.pop_labels[0].is_none());
    let texts: Vec<&str> =
        o.pop_labels[1..].iter().map(|l| l.as_ref().unwrap().text.as_str()).collect();
    assert_eq!(texts, vec!["30%", "70%", "90%"]);
    let l = o.pop_labels[1].as_ref().unwrap();
    assert_eq!((l.x, l.y), (101_333, 180_080));

    // half an hour into the first hour
    assert_eq!(o.now_x, Some(50_666));
}

#[test]
fn overlay_starts_a_transition_when_the_series_changes() {
    let data = four_hours();
    let m = YAxisMetrics::new(&data, 220, 24);
    let mut anim = AnimState::new();
    overlay(&data, 0, &m, 320, &mut anim, 0, 1_000);
    assert!(!anim.animating);

    // the same series again changes nothing
    overlay(&data, 0, &m, 320, &mut anim, 0, 1_016);
    assert!(!anim.animating);
    assert_eq!(anim.last_tick, 0);

    let mut changed = four_hours();
    changed[0].temp = 52_000;
    let o = overlay(&changed, 0, &m, 320, &mut anim, 0, 1_032);
    assert!(anim.animating);
    assert_eq!(anim.progress, 0);
    assert_eq!(anim.last_tick, 1_032);
    assert!(!o.breathing);
    // still where it was
    assert_eq!(o.ys, vec![101_700, 75_800, 91_340, 49_900]);

    assert!(anim.tick(1_232));
    let o = overlay(&changed, 0, &m, 320, &mut anim, 0, 1_232);
    assert_eq!(o.ys, vec![96_520, 75_800, 91_340, 49_900]);
    assert!(anim.tick(1_431));
    assert!(anim.animating);
    assert!(anim.tick(1_432));
    assert!(!anim.animating);
    assert_eq!(anim.progress, TRANSITION_MS);
    let o = overlay(&changed, 0, &m, 320, &mut anim, 0, 1_432);
    assert_eq!(o.ys, vec![91_340, 75_800, 91_340, 49_900]);
    assert!(o.breathing);
}

#[test]
fn overlay_bars_follow_the_transition() {
    let mut data = four_hours();
    let m = YAxisMetrics::new(&data, 220, 24);
    let mut anim = AnimState::new();
    overlay(&data, 0, &m, 320, &mut anim, 0, 0);
    data[0].pop = Some(1_000);
    data[1].pop = None;
    let o = overlay(&data, 0, &m, 320, &mut anim, 0, 0);
    assert_eq!(o.bars[0], None);
    assert_eq!(o.bars[1].unwrap().area.height, 11_544);
    // the labels do not wait
    assert_eq!(o.pop_labels[0].as_ref().unwrap().text, "100%");
    assert!(o.pop_labels[1].is_none());
    anim.advance(200);
    let o = overlay(&data, 0, &m, 320, &mut anim, 0, 200);
    assert_eq!(o.bars[0].unwrap().area.height, 19_240);
    assert_eq!(o.bars[0].unwrap().tier, PrecipTier::Light);
    assert_eq!(o.bars[1].unwrap().area.height, 5_772);
    assert_eq!(o.bars[1].unwrap().tier, PrecipTier::Faint);
    anim.advance(200);
    let o = overlay(&data, 0, &m, 320, &mut anim, 0, 400);
    assert_eq!(o.bars[0].unwrap().area.height, 38_480);
    assert_eq!(o.bars[0].unwrap().tier, PrecipTier::Strong);
    assert_eq!(o.bars[1], None);
}

#[test]
fn precipitation_tiers() {
    assert_eq!(precip_tier(1), PrecipTier::Faint);
    assert_eq!(precip_tier(200), PrecipTier::Faint);
    assert_eq!(precip_tier(201), PrecipTier::Light);
    assert_eq!(precip_tier(500), PrecipTier::Light);
    assert_eq!(precip_tier(501), PrecipTier::Medium);
    assert_eq!(precip_tier(800), PrecipTier::Medium);
    assert_eq!(precip_tier(801), PrecipTier::Strong);
    assert_eq!(precip_tier(1_000), PrecipTier::Strong);
}

#[test]
fn pop_labels_start_at_five_per_cent() {
    let mut data = four_hours();
    for (h, p) in data.iter_mut().zip([49, 50, 125, 135]) {
        h.pop = Some(p);
    }
    let m = YAxisMetrics::new(&data, 220, 24);
    let o = overlay(&data, 0, &m, 320, &mut AnimState::new(), 0, 0);
    assert!(o.pop_labels[0].is_none());
    assert_eq!(o.pop_labels[1].as_ref().unwrap().text, "5%");
    // a tie goes to the even neighbour
    assert_eq!(o.pop_labels[2].as_ref().unwrap().text, "12%");
    assert_eq!(o.pop_labels[3].as_ref().unwrap().text, "14%");
}

#[test]
fn now_marker_lies_between_the_hours_that_bracket_it() {
    let data = four_hours();
    let m = YAxisMetrics::new(&data, 220, 24);
    let at = |now: i64, tz: i32| overlay(&data, tz, &m, 320, &mut AnimState::new(), now, 0).now_x;
    assert_eq!(at(1_700_000_000, 0), Some(0));
    assert_eq!(at(1_700_003_600, 0), Some(101_333));
    assert_eq!(at(1_700_003_601, 0), Some(101_361));
    assert_eq!(at(1_700_010_800, 0), Some(304_000));
    assert_eq!(at(1_699_999_999, 0), None);
    assert_eq!(at(1_700_010_801, 0), None);
    // the offset moves the samples and the present alike
    assert_eq!(at(1_700_001_800, -18_000), Some(50_666));
}

#[test]
fn now_marker_skips_hours_out_of_order() {
    let mut data = four_hours();
    data[1].dt = data[0].dt;
    let m = YAxisMetrics::new(&data, 220, 24);
    let o = overlay(&data, 0, &m, 320, &mut AnimState::new(), 1_700_000_000, 0);
    // the first pair is no interval; the second starts at the same time
    assert_eq!(o.now_x, Some(101_333));
}

#[test]
fn now_marker_of_a_single_hour() {
    let data = vec![hour(1_700_000_000, 50_000, None)];
    let m = YAxisMetrics::new(&data, 220, 24);
    let at = |now: i64| overlay(&data, 0, &m, 320, &mut AnimState::new(), now, 0).now_x;
    assert_eq!(at(1_700_000_000), Some(152_000));
    assert_eq!(at(1_700_003_600), Some(152_000));
    assert_eq!(at(1_699_996_400), Some(152_000));
    assert_eq!(at(1_700_003_601), None);
    assert_eq!(at(1_699_996_399), None);
}

#[test]
fn single_sample_renders_without_division_by_zero() {
    let data = vec![hour(1_700_000_000, 50_000, Some(400))];
    let m = YAxisMetrics::new(&data, 220, 24);
    let o = overlay(&data, 0, &m, 320, &mut AnimState::new(), 0, 0);
    assert_eq!(o.xs, vec![152_000]);
    assert_eq!(o.curve, vec![PathStep::MoveTo(Point { x: 152_000, y: o.ys[0] })]);
    assert_eq!(o.bars[0].unwrap().area.x, 148_000);
    let plot: HourlyPlot<()> = create_hourly_graph_plot(data, 24, 0);
    assert!(plot.query_tooltip(-40, 320).is_some());
    assert!(plot.query_tooltip(4_000, 0).is_some());
}

#[test]
fn targets_are_the_rows_of_the_temperatures() {
    let data = four_hours();
    let m = YAxisMetrics::new(&data, 220, 24);
    let (ys, pops) = chart_targets(&data, &m);
    assert_eq!(ys, vec![101_700, 75_800, 91_340, 49_900]);
    assert_eq!(pops, vec![0, 300, 700, 900]);
}

// --------------------------------------------------------------- widget

#[test]
fn a_new_chart_is_idle_at_time_zero() {
    let plot: HourlyPlot<()> = create_hourly_graph_plot(four_hours(), 24, -18_000);
    assert_eq!(plot.tz_offset, -18_000);
    assert_eq!(plot.data.len(), 4);
    assert!(plot.anim.curr_y.is_empty() && plot.anim.prev_y.is_empty());
    assert!(plot.anim.curr_pop.is_empty() && plot.anim.prev_pop.is_empty());
    assert_eq!(plot.anim.progress, TRANSITION_MS);
    assert!(!plot.anim.animating);
    assert_eq!(plot.anim.last_tick, 0);
    assert_eq!(plot.anim.ribbon_phase, 0);
    assert!(plot.cache.surface.is_none());
    assert_eq!((plot.cache.width, plot.cache.height), (-1, -1));
    assert_eq!(plot.hover, None);
}

#[test]
fn samples_are_brought_within_the_limits() {
    let good = four_hours();
    let same = clamped_series(good.clone());
    assert_eq!(same.len(), 4);
    for (a, b) in good.iter().zip(same.iter()) {
        assert_eq!((a.dt, a.temp, a.pop), (b.dt, b.temp, b.pop));
        assert_eq!(a.weather[0].description, b.weather[0].description);
    }
    let wild = clamped_sample(hour(i64::MAX, i64::MIN, Some(i64::MAX)));
    assert_eq!((wild.dt, wild.temp), (4_000_000_000_000, -1_000_000_000));
    assert_eq!(wild.pop, Some(i64::MAX));
    assert_eq!(wild.weather.len(), 1);
    let wild = clamped_series(vec![hour(i64::MIN, i64::MAX, None), hour(5, 6, None)]);
    assert!(is_valid_series(&wild));
    assert_eq!((wild[0].dt, wild[0].temp), (-4_000_000_000_000, 1_000_000_000));
    assert_eq!((wild[1].dt, wild[1].temp), (5, 6));
    // what was out of range can be drawn
    let m = YAxisMetrics::new(&wild, 220, 24);
    let o = overlay(&wild, 0, &m, 320, &mut AnimState::new(), 0, 0);
    assert_eq!(o.ys, vec![24_000, 127_599]);
}

#[test]
fn tooltip_of_the_nearest_hour() {
    let plot: HourlyPlot<()> = create_hourly_graph_plot(four_hours(), 24, 0);
    assert_eq!(
        plot.query_tooltip(0, 320),
        Some("<b>10:13 PM</b>\n50°\nPrecip: 0%\n<i>broken clouds</i>".to_string())
    );
    // 304 px of plot: the second column is at 101.3 px
    assert_eq!(
        plot.query_tooltip(100, 320),
        Some("<b>11:13 PM</b>\n55°\nPrecip: 30%\n<i>broken clouds</i>".to_string())
    );
    assert_eq!(
        plot.query_tooltip(9_999, 320),
        Some("<b>01:13 AM</b>\n60°\nPrecip: 90%\n<i>broken clouds</i>".to_string())
    );
}

#[test]
fn tooltip_rounds_and_keeps_the_sign() {
    let mut h = hour(1_684_929_490, -400, Some(455));
    h.weather.clear();
    assert_eq!(tooltip_markup(&h, -18_000), "<b>06:58 AM</b>\n-0°\nPrecip: 46%\n<i></i>");
    h.temp = -12_500;
    h.pop = Some(445);
    h.weather = vec![WeatherDesc { main: None, description: None }];
    assert_eq!(tooltip_markup(&h, -18_000), "<b>06:58 AM</b>\n-13°\nPrecip: 44%\n<i></i>");
    h.temp = 71_499;
    h.pop = Some(7_000);
    assert_eq!(tooltip_markup(&h, 0), "<b>11:58 AM</b>\n71°\nPrecip: 100%\n<i></i>");
}

#[test]
fn draw_rasterises_the_static_layer_once_per_size() {
    let data = four_hours();
    let m = YAxisMetrics::new(&data, 220, 24);
    let mut plot: HourlyPlot<usize> = create_hourly_graph_plot(data, 24, 0);
    let mut built = 0;
    for (i, (w, h)) in [(320, 220), (320, 220), (400, 220), (400, 220), (400, 221)].iter().enumerate()
    {
        let frame = plot.draw(&m, *w, *h, 1_700_000_000, 16 * i as u64, |layer| {
            built += 1;
            Some(layer.columns.len() * 1000 + built)
        });
        let fresh = i == 0 || i == 2 || i == 4;
        assert_eq!(frame.repaint.is_some(), fresh);
        assert!(frame.background.is_some());
        assert_eq!(frame.overlay.ys.len(), 4);
    }
    assert_eq!(built, 3);
    assert_eq!(plot.cache.surface, Some(4003));
}

#[test]
fn draw_falls_back_to_the_layer_where_rasterising_fails() {
    let data = four_hours();
    let m = YAxisMetrics::new(&data, 220, 24);
    let mut plot: HourlyPlot<u8> = create_hourly_graph_plot(data, 24, 0);
    let frame = plot.draw(&m, 320, 220, 0, 0, |_| None);
    assert!(frame.background.is_none());
    assert_eq!(frame.repaint.unwrap().columns.len(), 4);
    assert_eq!(frame.overlay.curve.len(), 4);
    assert!(plot.cache.surface.is_none());
    // and tries again on the next frame
    let frame = plot.draw(&m, 320, 220, 0, 16, |_| Some(9));
    assert_eq!(frame.background, Some(&9));
}

#[test]
fn draw_then_replace_the_series() {
    let m = YAxisMetrics::new(&four_hours(), 220, 24);
    let mut plot: HourlyPlot<()> = create_hourly_graph_plot(four_hours(), 24, 0);
    plot.draw(&m, 320, 220, 0, 0, |_| Some(()));
    assert_eq!(plot.anim.progress, TRANSITION_MS);
    assert!(!plot.anim.animating);

    plot.data[0].temp = 52_000;
    plot.draw(&m, 320, 220, 0, 16, |_| Some(()));
    assert!(plot.anim.animating);
    assert_eq!(plot.anim.progress, 0);
    let mut now = 16;
    let mut frames = 0;
    while plot.anim.animating {
        now += 16;
        assert!(plot.tick(now));
        frames += 1;
    }
    assert_eq!(frames, 25);
    assert_eq!(plot.anim.progress, TRANSITION_MS);
    let frame = plot.draw(&m, 320, 220, 0, now, |_| Some(()));
    assert_eq!(frame.overlay.ys[0], 91_340);
}

#[test]
fn hover_marks_the_sample_under_the_pointer() {
    let m = YAxisMetrics::new(&four_hours(), 220, 24);
    let mut plot: HourlyPlot<()> = create_hourly_graph_plot(four_hours(), 24, 0);
    assert_eq!(plot.hover, None);
    let frame = plot.draw(&m, 320, 220, 0, 0, |_| Some(()));
    assert!(frame.hover.is_none());

    assert!(plot.pointer_moved(100, 320));
    assert_eq!(plot.hover, Some(1));
    // still on the same sample: nothing to repaint
    assert!(!plot.pointer_moved(120, 320));
    assert!(plot.pointer_moved(153, 320));
    assert_eq!(plot.hover, Some(2));
    let frame = plot.draw(&m, 320, 220, 0, 16, |_| Some(()));
    let mark = frame.hover.unwrap();
    assert_eq!((mark.index, mark.x, mark.y), (2, 202_666, 91_340));
    assert_eq!(mark.label, "52° 00:13");

    assert!(plot.pointer_moved(-400, 320));
    assert_eq!(plot.hover, Some(0));
    assert!(plot.pointer_moved(i32::MAX, 320));
    assert_eq!(plot.hover, Some(3));

    assert!(plot.pointer_left());
    assert!(!plot.pointer_left());
    assert_eq!(plot.hover, None);
    assert!(plot.draw(&m, 320, 220, 0, 32, |_| Some(())).hover.is_none());
}

#[test]
fn hover_follows_the_transition_and_survives_a_shorter_series() {
    let m = YAxisMetrics::new(&four_hours(), 220, 24);
    let mut plot: HourlyPlot<()> = create_hourly_graph_plot(four_hours(), 24, 0);
    plot.draw(&m, 320, 220, 0, 0, |_| Some(()));
    plot.pointer_moved(0, 320);
    plot.data[0].temp = 52_000;
    plot.draw(&m, 320, 220, 0, 0, |_| Some(()));
    plot.tick(200);
    let frame = plot.draw(&m, 320, 220, 0, 200, |_| Some(()));
    let mark = frame.hover.unwrap();
    // the dot is half way; the label says where it is going
    assert_eq!(mark.y, 96_520);
    assert_eq!(mark.label, "52° 22:13");

    plot.pointer_moved(9_000, 320);
    assert_eq!(plot.hover, Some(3));
    plot.data.truncate(2);
    let frame = plot.draw(&m, 320, 220, 0, 300, |_| Some(()));
    assert!(frame.hover.is_none());
    plot.data.clear();
    assert!(plot.pointer_moved(10, 320));
    assert_eq!(plot.hover, None);
}

#[test]
fn axis_ticks() {
    let m = YAxisMetrics::new(&[hour(0, -3_000, None), hour(1, 4_000, None)], 220, 24);
    let axis = create_hourly_y_axis(m);
    let marks = axis.draw(48);
    let labels: Vec<&str> = marks.iter().map(|t| t.label.as_str()).collect();
    assert_eq!(labels, vec!["10°", "5°", "0°", "-5°"]);
    let rows: Vec<i64> = marks.iter().map(|t| t.row).collect();
    assert_eq!(rows, vec![24_000, 58_533, 93_066, 127_600]);
    for t in &marks {
        assert_eq!((t.line_from, t.line_to, t.label_right), (42_000, 46_000, 40_000));
    }
}
