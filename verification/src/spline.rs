//! A smooth curve through an ordered row of points: one cubic segment between
//! each pair of neighbours, its control points taken from the points before
//! and after, the first and last point standing in for a missing neighbour.
//! The control points are kept between the ends of their segment from left to
//! right, so that the curve never turns back, however unevenly the points are
//! spaced. Two points alone are joined by a straight segment.

use vstd::prelude::*;
use crate::fixed::clamp;
use crate::fixed::clamp_int;
use crate::fixed::div_floor;
use crate::fixed::lemma_div_bounds;

verus! {

/// Largest magnitude of a coordinate that the path builder accepts.
pub const COORD_LIMIT: i64 = 4_000_000_000_000_000_000;

/// A position in thousandths of a pixel.
#[derive(Debug, Clone, Copy, PartialEq, Eq, Structural)]
pub struct Point {
    pub x: i64,
    pub y: i64,
}

/// One drawing step of a path.
#[derive(Debug, Clone, Copy, PartialEq, Eq, Structural)]
pub enum PathStep {
    /// Start a new stroke at the point.
    MoveTo(Point),
    /// A cubic curve from the current point to `end`, bent by `c1` and `c2`.
    CurveTo { c1: Point, c2: Point, end: Point },
}

/// Every coordinate of `s` is within the limit.
pub open spec fn coords_bounded(s: Seq<i64>) -> bool {
    forall|i: int| 0 <= i < s.len() ==> -COORD_LIMIT <= #[trigger] s[i] <= COORD_LIMIT
}

/// The coordinate at `i`, or at the nearest end of the row where `i` is outside it.
pub open spec fn knot(s: Seq<i64>, i: int) -> int {
    if i < 0 {
        s[0] as int
    } else if i >= s.len() {
        s[s.len() - 1] as int
    } else {
        s[i] as int
    }
}

/// Where the segment that leaves point `i` leans at its start: a sixth of
/// the way from the point before to the point after, added to the point.
pub open spec fn control_out(s: Seq<i64>, i: int) -> int {
    knot(s, i) + (knot(s, i + 1) - knot(s, i - 1)) / 6
}

/// Where the segment that arrives at point `i + 1` leans at its end.
pub open spec fn control_in(s: Seq<i64>, i: int) -> int {
    knot(s, i + 1) - (knot(s, i + 2) - knot(s, i)) / 6
}

/// Column of the first control point of the segment from point `i` to point
/// `i + 1`: where the segment leans, but not beyond the segment's ends.
pub open spec fn control_out_x(xs: Seq<i64>, i: int) -> int {
    clamp_int(control_out(xs, i), xs[i] as int, xs[i + 1] as int)
}

/// Column of the second control point of the segment from point `i` to point
/// `i + 1`: where the segment leans, but neither before the first control
/// point nor beyond the segment's end.
pub open spec fn control_in_x(xs: Seq<i64>, i: int) -> int {
    clamp_int(control_in(xs, i), control_out_x(xs, i), xs[i + 1] as int)
}

/// The segment from point `i` to point `i + 1`. Between the only two points
/// of a path it is straight, with its control points on its ends.
pub open spec fn segment(xs: Seq<i64>, ys: Seq<i64>, i: int) -> PathStep {
    if xs.len() == 2 {
        PathStep::CurveTo {
            c1: Point { x: xs[0], y: ys[0] },
            c2: Point { x: xs[1], y: ys[1] },
            end: Point { x: xs[1], y: ys[1] },
        }
    } else {
        PathStep::CurveTo {
            c1: Point { x: control_out_x(xs, i) as i64, y: control_out(ys, i) as i64 },
            c2: Point { x: control_in_x(xs, i) as i64, y: control_in(ys, i) as i64 },
            end: Point { x: xs[i + 1], y: ys[i + 1] },
        }
    }
}

/// The path through the points `(xs[i], ys[i])`: nothing for no point, else a
/// move to the first point and one segment to each further point.
pub open spec fn smooth_path(xs: Seq<i64>, ys: Seq<i64>) -> Seq<PathStep> {
    Seq::new(
        xs.len(),
        |i: int|
            if i == 0 {
                PathStep::MoveTo(Point { x: xs[0], y: ys[0] })
            } else {
                segment(xs, ys, i - 1)
            },
    )
}

/// Where the pen is after a step.
pub open spec fn step_end(step: PathStep) -> Point {
    match step {
        PathStep::MoveTo(p) => p,
        PathStep::CurveTo { c1, c2, end } => end,
    }
}

/// `den³` times the value at `num / den` of the cubic that runs from `from` to
/// `to` with control values `c1` and `c2`.
pub open spec fn cubic_at(from: int, c1: int, c2: int, to: int, num: int, den: int) -> int {
    let u = den - num;
    u * u * u * from + 3 * (u * u * num) * c1 + 3 * (u * num * num) * c2 + num * num * num * to
}

/// The smooth path through the given points.
pub fn build_smooth_path(xs: &[i64], ys: &[i64]) -> (path: Vec<PathStep>)
    requires
        xs.len() == ys.len(),
        coords_bounded(xs@),
        coords_bounded(ys@),
    ensures
        path@ == smooth_path(xs@, ys@),
{
    let n = xs.len();
    let mut path: Vec<PathStep> = Vec::new();
    if n == 0 {
        assert(path@ =~= smooth_path(xs@, ys@));
        return path;
    }
    path.push(PathStep::MoveTo(Point { x: xs[0], y: ys[0] }));
    if n == 2 {
        let end = Point { x: xs[1], y: ys[1] };
        path.push(PathStep::CurveTo { c1: Point { x: xs[0], y: ys[0] }, c2: end, end });
        assert(path@ =~= smooth_path(xs@, ys@));
        return path;
    }
    let mut i: usize = 0;
    while i + 1 < n
        invariant
            n == xs.len(),
            n == ys.len(),
            n > 0,
            n != 2,
            i < n,
            coords_bounded(xs@),
            coords_bounded(ys@),
            path.len() == i + 1,
            forall|k: int| 0 <= k <= i ==> path@[k] == smooth_path(xs@, ys@)[k],
        decreases n - i,
    {
        let c1_x: i64 = clamp(leaving(xs, i), xs[i], xs[i + 1]);
        let c2_x: i64 = clamp(arriving(xs, i), c1_x, xs[i + 1]);
        let c1 = Point { x: c1_x, y: leaving(ys, i) };
        let c2 = Point { x: c2_x, y: arriving(ys, i) };
        path.push(PathStep::CurveTo { c1, c2, end: Point { x: xs[i + 1], y: ys[i + 1] } });
        i += 1;
    }
    assert(path@ =~= smooth_path(xs@, ys@));
    path
}

/// First control coordinate of the segment from `i` to `i + 1`.
fn leaving(s: &[i64], i: usize) -> (c: i64)
    requires
        i + 1 < s.len(),
        coords_bounded(s@),
    ensures
        c == control_out(s@, i as int),
{
    let before: i64 = if i == 0 {
        s[0]
    } else {
        s[i - 1]
    };
    proof {
        lemma_div_bounds(s@[i + 1] - before, 6);
    }
    s[i] + div_floor(s[i + 1] - before, 6)
}

/// Second control coordinate of the segment from `i` to `i + 1`.
fn arriving(s: &[i64], i: usize) -> (c: i64)
    requires
        i + 1 < s.len(),
        coords_bounded(s@),
    ensures
        c == control_in(s@, i as int),
{
    let after: i64 = if i + 2 >= s.len() {
        s[s.len() - 1]
    } else {
        s[i + 2]
    };
    proof {
        lemma_div_bounds(after - s@[i as int], 6);
    }
    s[i + 1] - div_floor(after - s[i], 6)
}

/// A cubic starts at its first point and ends at its last, whatever its
/// control values.
pub proof fn lemma_cubic_ends(from: int, c1: int, c2: int, to: int, den: int)
    ensures
        cubic_at(from, c1, c2, to, 0, den) == den * den * den * from,
        cubic_at(from, c1, c2, to, den, den) == den * den * den * to,
{
    assert(cubic_at(from, c1, c2, to, 0, den) == den * den * den * from) by (nonlinear_arith)
        requires
            cubic_at(from, c1, c2, to, 0, den) == (den - 0) * (den - 0) * (den - 0) * from + 3 * ((den
                - 0) * (den - 0) * 0) * c1 + 3 * ((den - 0) * 0 * 0) * c2 + 0 * 0 * 0 * to,
    ;
    assert(cubic_at(from, c1, c2, to, den, den) == den * den * den * to) by (nonlinear_arith)
        requires
            cubic_at(from, c1, c2, to, den, den) == (den - den) * (den - den) * (den - den) * from
                + 3 * ((den - den) * (den - den) * den) * c1 + 3 * ((den - den) * den * den) * c2
                + den * den * den * to,
    ;
}

/// The path has one step for each point, and step `i` leaves the pen exactly
/// on point `i`.
pub proof fn lemma_path_visits_points(xs: Seq<i64>, ys: Seq<i64>, i: int)
    requires
        xs.len() == ys.len(),
        0 <= i < xs.len(),
    ensures
        smooth_path(xs, ys).len() == xs.len(),
        step_end(smooth_path(xs, ys)[i]) == (Point { x: xs[i], y: ys[i] }),
{
}

/// The curve itself passes through the points: segment `i + 1` of the path,
/// which starts where step `i` ended, is at point `i` for the parameter 0 and
/// at point `i + 1` for the parameter 1, in both coordinates.
pub proof fn lemma_path_interpolates(xs: Seq<i64>, ys: Seq<i64>, i: int, den: int)
    requires
        xs.len() == ys.len(),
        0 <= i,
        i + 1 < xs.len(),
    ensures
        smooth_path(xs, ys)[i + 1] is CurveTo,
        ({
            let from = step_end(smooth_path(xs, ys)[i]);
            let step = smooth_path(xs, ys)[i + 1];
            let c1 = step->c1;
            let c2 = step->c2;
            let to = step->end;
            &&& cubic_at(from.x as int, c1.x as int, c2.x as int, to.x as int, 0, den) == den * den
                * den * xs[i]
            &&& cubic_at(from.y as int, c1.y as int, c2.y as int, to.y as int, 0, den) == den * den
                * den * ys[i]
            &&& cubic_at(from.x as int, c1.x as int, c2.x as int, to.x as int, den, den) == den
                * den * den * xs[i + 1]
            &&& cubic_at(from.y as int, c1.y as int, c2.y as int, to.y as int, den, den) == den
                * den * den * ys[i + 1]
        }),
{
    let from = step_end(smooth_path(xs, ys)[i]);
    let step = smooth_path(xs, ys)[i + 1];
    assert(step == segment(xs, ys, i));
    lemma_path_visits_points(xs, ys, i);
    lemma_cubic_ends(from.x as int, step->c1.x as int, step->c2.x as int, step->end.x as int, den);
    lemma_cubic_ends(from.y as int, step->c1.y as int, step->c2.y as int, step->end.y as int, den);
}

/// Whether the coordinates run from left to right: none is below the one
/// before it.
pub open spec fn non_decreasing(s: Seq<i64>) -> bool {
    forall|i: int| 0 <= i && i + 1 < s.len() ==> #[trigger] s[i] <= s[i + 1]
}

/// Whether every step from one coordinate to the next is at least `lo` and
/// at most `hi`.
pub open spec fn steps_within(s: Seq<i64>, lo: int, hi: int) -> bool {
    forall|i: int| 0 <= i && i + 1 < s.len() ==> lo <= #[trigger] s[i + 1] - s[i] <= hi
}

/// The curve does not turn back: where the points run from left to right,
/// however they are spaced, the control points of each segment lie between
/// the segment's ends, in order.
pub proof fn lemma_controls_in_order(xs: Seq<i64>, ys: Seq<i64>, i: int)
    requires
        xs.len() == ys.len(),
        non_decreasing(xs),
        0 <= i,
        i + 1 < xs.len(),
    ensures
        smooth_path(xs, ys)[i + 1] is CurveTo,
        xs[i] <= smooth_path(xs, ys)[i + 1]->c1.x <= smooth_path(xs, ys)[i + 1]->c2.x <= xs[i
            + 1],
{
    assert(smooth_path(xs, ys)[i + 1] == segment(xs, ys, i));
    assert(xs[i] <= xs[i + 1]);
}

/// Two points alone are joined by a straight segment: its control points
/// are its ends.
pub proof fn lemma_two_points_straight(xs: Seq<i64>, ys: Seq<i64>)
    requires
        xs.len() == 2,
        ys.len() == 2,
    ensures
        smooth_path(xs, ys) == seq![
            PathStep::MoveTo(Point { x: xs[0], y: ys[0] }),
            PathStep::CurveTo {
                c1: Point { x: xs[0], y: ys[0] },
                c2: Point { x: xs[1], y: ys[1] },
                end: Point { x: xs[1], y: ys[1] },
            },
        ],
{
    assert(smooth_path(xs, ys) =~= seq![
        PathStep::MoveTo(Point { x: xs[0], y: ys[0] }),
        PathStep::CurveTo {
            c1: Point { x: xs[0], y: ys[0] },
            c2: Point { x: xs[1], y: ys[1] },
            end: Point { x: xs[1], y: ys[1] },
        },
    ]);
}

/// Where the points are spaced nearly evenly from left to right, no step
/// being more than one and a half times another, every control point stands
/// where its segment leans: nothing had to be held back.
pub proof fn lemma_even_spacing_leans_freely(xs: Seq<i64>, lo: int, hi: int, i: int)
    requires
        0 <= lo,
        2 * hi <= 3 * lo,
        steps_within(xs, lo, hi),
        0 <= i,
        i + 1 < xs.len(),
    ensures
        control_out_x(xs, i) == control_out(xs, i),
        control_in_x(xs, i) == control_in(xs, i),
{
    let gap = xs[i + 1] - xs[i];
    assert(lo <= gap <= hi);
    let before = knot(xs, i + 1) - knot(xs, i - 1);
    let after = knot(xs, i + 2) - knot(xs, i);
    if i > 0 {
        assert(lo <= xs[(i - 1) + 1] - xs[i - 1] <= hi);
    }
    if i + 2 < xs.len() {
        assert(lo <= xs[(i + 1) + 1] - xs[i + 1] <= hi);
    }
    assert(0 <= before <= 2 * hi);
    assert(0 <= after <= 2 * hi);
    lemma_div_bounds(before, 6);
    lemma_div_bounds(after, 6);
    vstd::arithmetic::div_mod::lemma_fundamental_div_mod(before, 6);
    vstd::arithmetic::div_mod::lemma_fundamental_div_mod(after, 6);
}

/// Share of a cubic's rise that its first control value has given by
/// `num / den`, times `den³`.
pub open spec fn rise_one(num: int, den: int) -> int {
    den * den * den - (den - num) * (den - num) * (den - num)
}

/// Share that its second control value has given.
pub open spec fn rise_two(num: int, den: int) -> int {
    3 * den * (num * num) - 2 * (num * num * num)
}

/// Share that its end has given.
pub open spec fn rise_three(num: int, den: int) -> int {
    num * num * num
}

/// A cubic is its start plus the steps from each of its four values to the
/// next, each step weighted by a share that grows from nothing to all.
pub proof fn lemma_cubic_by_rises(from: int, c1: int, c2: int, to: int, num: int, den: int)
    ensures
        cubic_at(from, c1, c2, to, num, den) == den * den * den * from + (c1 - from) * rise_one(
            num,
            den,
        ) + (c2 - c1) * rise_two(num, den) + (to - c2) * rise_three(num, den),
{
    let u = den - num;
    let n3 = num * num * num;
    let u3 = u * u * u;
    let d3 = den * den * den;
    let a = u * u * num;
    let b = u * num * num;
    assert(d3 == u3 + 3 * a + 3 * b + n3) by (nonlinear_arith)
        requires
            u == den - num,
            n3 == num * num * num,
            u3 == u * u * u,
            d3 == den * den * den,
            a == u * u * num,
            b == u * num * num,
    ;
    assert(3 * den * (num * num) - 2 * n3 == 3 * b + n3) by (nonlinear_arith)
        requires
            u == den - num,
            n3 == num * num * num,
            b == u * num * num,
    ;
    let r1 = d3 - u3;
    let r2 = 3 * b + n3;
    assert(rise_one(num, den) == r1);
    assert(rise_two(num, den) == r2);
    assert((3 * a) * c1 == 3 * (a * c1)) by (nonlinear_arith);
    assert((3 * b) * c2 == 3 * (b * c2)) by (nonlinear_arith);
    assert(d3 * from == u3 * from + 3 * (a * from) + 3 * (b * from) + n3 * from)
        by (nonlinear_arith)
        requires
            d3 == u3 + 3 * a + 3 * b + n3,
    ;
    assert((c1 - from) * r1 == 3 * (a * c1) + 3 * (b * c1) + n3 * c1 - 3 * (a * from) - 3 * (b
        * from) - n3 * from) by (nonlinear_arith)
        requires
            r1 == 3 * a + 3 * b + n3,
    ;
    assert((c2 - c1) * r2 == 3 * (b * c2) + n3 * c2 - 3 * (b * c1) - n3 * c1)
        by (nonlinear_arith)
        requires
            r2 == 3 * b + n3,
    ;
    assert((to - c2) * n3 == n3 * to - n3 * c2) by (nonlinear_arith);
}

/// Each share grows with the parameter.
pub proof fn lemma_rises_grow(a: int, b: int, den: int)
    requires
        0 <= a <= b <= den,
    ensures
        rise_one(a, den) <= rise_one(b, den),
        rise_two(a, den) <= rise_two(b, den),
        rise_three(a, den) <= rise_three(b, den),
{
    let ua = den - a;
    let ub = den - b;
    assert(ub * ub * ub <= ua * ua * ua) by (nonlinear_arith)
        requires
            0 <= ub <= ua,
    ;
    assert(a * a * a <= b * b * b) by (nonlinear_arith)
        requires
            0 <= a <= b,
    ;
    let d = b - a;
    assert(3 * den * (b * b) - 2 * (b * b * b) - (3 * den * (a * a) - 2 * (a * a * a)) == d * (3
        * den * (a + b) - 2 * (a * a + a * b + b * b))) by (nonlinear_arith)
        requires
            d == b - a,
    ;
    assert(3 * den * (a + b) - 2 * (a * a + a * b + b * b) >= 0) by (nonlinear_arith)
        requires
            0 <= a <= b <= den,
    ;
    assert(d * (3 * den * (a + b) - 2 * (a * a + a * b + b * b)) >= 0) by (nonlinear_arith)
        requires
            d >= 0,
            3 * den * (a + b) - 2 * (a * a + a * b + b * b) >= 0,
    ;
}

/// A cubic whose four values are in order never falls: its value at a later
/// parameter is not below its value at an earlier one.
pub proof fn lemma_cubic_never_falls(
    from: int,
    c1: int,
    c2: int,
    to: int,
    a: int,
    b: int,
    den: int,
)
    requires
        from <= c1 <= c2 <= to,
        0 <= a <= b <= den,
    ensures
        cubic_at(from, c1, c2, to, a, den) <= cubic_at(from, c1, c2, to, b, den),
{
    lemma_cubic_by_rises(from, c1, c2, to, a, den);
    lemma_cubic_by_rises(from, c1, c2, to, b, den);
    lemma_rises_grow(a, b, den);
    assert((c1 - from) * rise_one(a, den) <= (c1 - from) * rise_one(b, den)) by (nonlinear_arith)
        requires
            c1 - from >= 0,
            rise_one(a, den) <= rise_one(b, den),
    ;
    assert((c2 - c1) * rise_two(a, den) <= (c2 - c1) * rise_two(b, den)) by (nonlinear_arith)
        requires
            c2 - c1 >= 0,
            rise_two(a, den) <= rise_two(b, den),
    ;
    assert((to - c2) * rise_three(a, den) <= (to - c2) * rise_three(b, den)) by (nonlinear_arith)
        requires
            to - c2 >= 0,
            rise_three(a, den) <= rise_three(b, den),
    ;
}

/// The curve is monotonic in x: on a path through points that run from left
/// to right, the column of each segment at a later parameter is not to the
/// left of its column at an earlier one.
pub proof fn lemma_path_never_turns_back(
    xs: Seq<i64>,
    ys: Seq<i64>,
    i: int,
    a: int,
    b: int,
    den: int,
)
    requires
        xs.len() == ys.len(),
        non_decreasing(xs),
        0 <= i,
        i + 1 < xs.len(),
        0 <= a <= b <= den,
    ensures
        ({
            let step = smooth_path(xs, ys)[i + 1];
            cubic_at(xs[i] as int, step->c1.x as int, step->c2.x as int, step->end.x as int, a, den)
                <= cubic_at(
                xs[i] as int,
                step->c1.x as int,
                step->c2.x as int,
                step->end.x as int,
                b,
                den,
            )
        }),
{
    lemma_controls_in_order(xs, ys, i);
    let step = smooth_path(xs, ys)[i + 1];
    assert(step == segment(xs, ys, i));
    lemma_cubic_never_falls(
        xs[i] as int,
        step->c1.x as int,
        step->c2.x as int,
        step->end.x as int,
        a,
        b,
        den,
    );
}

} // verus!
