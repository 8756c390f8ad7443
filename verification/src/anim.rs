//! The animation clock of the chart. A change of the drawn values starts a
//! transition that carries each value from where it is shown to its new
//! target over a fixed time; between transitions an idle phase keeps running,
//! which the painter turns into a slow swell of the ribbon.
//!
//! Time is counted in whole milliseconds, so a finished transition shows the
//! targets exactly.

use vstd::prelude::*;
use vstd::arithmetic::div_mod::lemma_div_multiples_vanish;
use crate::fixed::lemma_div_monotone;
use crate::fixed::mul_div;
use crate::fixed::mul_div_floor;
use crate::spline::COORD_LIMIT;

verus! {

/// Length of a transition in milliseconds.
pub const TRANSITION_MS: u64 = 400;

/// While idle, ticks that come sooner than this after the last one are skipped.
pub const IDLE_FRAME_MS: u64 = 33;

/// Two rows nearer than this, in thousandths of a pixel, count as the same.
pub const Y_EPSILON: i64 = 100;

/// Two probabilities nearer than this, in thousandths, count as the same.
pub const POP_EPSILON: i64 = 10;

/// What the chart remembers between frames.
#[derive(Debug, Clone)]
pub struct AnimState {
    /// Rows from which the running transition started.
    pub prev_y: Vec<i64>,
    /// Rows that the transition ends on.
    pub curr_y: Vec<i64>,
    pub prev_pop: Vec<i64>,
    pub curr_pop: Vec<i64>,
    /// Milliseconds of the transition that have passed, at most `TRANSITION_MS`.
    pub progress: u64,
    pub animating: bool,
    /// Time of the last tick that was not skipped, in milliseconds.
    pub last_tick: u64,
    /// Idle time in milliseconds, wrapping at 2^64.
    pub ribbon_phase: u64,
}

/// The state as mathematics.
pub struct AnimView {
    pub prev_y: Seq<int>,
    pub curr_y: Seq<int>,
    pub prev_pop: Seq<int>,
    pub curr_pop: Seq<int>,
    pub progress: int,
    pub animating: bool,
    pub last_tick: int,
    pub ribbon_phase: int,
}

/// The value shown `progress` milliseconds into a transition from `from` to `to`.
pub open spec fn lerp(from: int, to: int, progress: int) -> int {
    from + mul_div(to - from, progress, TRANSITION_MS as int)
}

/// The values shown `progress` milliseconds into a transition, one for each target.
pub open spec fn shown(prev: Seq<int>, curr: Seq<int>, progress: int) -> Seq<int> {
    Seq::new(curr.len(), |i: int| lerp(prev[i], curr[i], progress))
}

/// `shown` cut or lengthened to the length of `targets`; a position that had
/// no value starts on its target.
pub open spec fn carried_over(shown: Seq<int>, targets: Seq<int>) -> Seq<int> {
    Seq::new(
        targets.len(),
        |i: int|
            if i < shown.len() {
                shown[i]
            } else {
                targets[i]
            },
    )
}

/// Distance between two numbers.
pub open spec fn gap(a: int, b: int) -> int {
    if a >= b {
        a - b
    } else {
        b - a
    }
}

/// Rows within the coordinate limit.
pub open spec fn rows_ok(s: Seq<int>) -> bool {
    forall|i: int| 0 <= i < s.len() ==> -COORD_LIMIT <= #[trigger] s[i] <= COORD_LIMIT
}

/// Probabilities within `0..=1000`.
pub open spec fn pops_ok(s: Seq<int>) -> bool {
    forall|i: int| 0 <= i < s.len() ==> 0 <= #[trigger] s[i] <= 1000
}

/// The integers of a row of machine numbers.
pub open spec fn ints(s: Seq<i64>) -> Seq<int> {
    s.map_values(|v: i64| v as int)
}

impl AnimView {
    /// The four rows are of one length and within their limits, and the state
    /// is in transition exactly while the progress is short of the full time.
    pub open spec fn wf(self) -> bool {
        &&& self.prev_y.len() == self.curr_y.len()
        &&& self.prev_pop.len() == self.curr_y.len()
        &&& self.curr_pop.len() == self.curr_y.len()
        &&& rows_ok(self.prev_y)
        &&& rows_ok(self.curr_y)
        &&& pops_ok(self.prev_pop)
        &&& pops_ok(self.curr_pop)
        &&& 0 <= self.progress <= TRANSITION_MS
        &&& self.animating == (self.progress < TRANSITION_MS)
        &&& 0 <= self.last_tick <= u64::MAX
        &&& 0 <= self.ribbon_phase <= u64::MAX
    }

    /// The rows to draw now.
    pub open spec fn shown_y(self) -> Seq<int> {
        shown(self.prev_y, self.curr_y, self.progress)
    }

    /// The probabilities to draw now.
    pub open spec fn shown_pop(self) -> Seq<int> {
        shown(self.prev_pop, self.curr_pop, self.progress)
    }

    /// The state after `elapsed` milliseconds have passed. A transition moves
    /// on and ends when the full time is reached; otherwise the idle phase grows.
    pub open spec fn advance(self, elapsed: int) -> AnimView {
        if self.animating {
            let progress = if self.progress + elapsed >= TRANSITION_MS {
                TRANSITION_MS as int
            } else {
                self.progress + elapsed
            };
            AnimView { progress, animating: progress < TRANSITION_MS, ..self }
        } else {
            AnimView {
                ribbon_phase: (self.ribbon_phase + elapsed) % 0x1_0000_0000_0000_0000,
                ..self
            }
        }
    }

    /// Milliseconds between the last tick and `now`; none if the clock went back.
    pub open spec fn since_last(self, now: int) -> int {
        if now >= self.last_tick {
            now - self.last_tick
        } else {
            0
        }
    }

    /// Whether a tick at `now` is skipped: the chart is idle and the last tick
    /// was less than a frame ago.
    pub open spec fn skips(self, now: int) -> bool {
        !self.animating && self.since_last(now) < IDLE_FRAME_MS
    }

    /// The state after a tick at `now`.
    pub open spec fn tick(self, now: int) -> AnimView {
        if self.skips(now) {
            self
        } else {
            AnimView { last_tick: now, ..self }.advance(self.since_last(now))
        }
    }

    /// Whether the targets differ from the current ones: in number, or at some
    /// position by more than the tolerance.
    pub open spec fn differs(self, ys: Seq<int>, pops: Seq<int>) -> bool {
        ||| self.curr_y.len() != ys.len()
        ||| exists|i: int|
            0 <= i < ys.len() && (gap(ys[i], self.curr_y[i]) > Y_EPSILON || gap(
                pops[i],
                self.curr_pop[i],
            ) > POP_EPSILON)
    }

    /// The state after the painter has computed the targets `ys` and `pops`
    /// at time `now`. A state without values takes the targets and shows
    /// them at once. Targets that differ start a transition from what is shown
    /// now. Targets that do not differ change nothing.
    pub open spec fn retarget(self, ys: Seq<int>, pops: Seq<int>, now: int) -> AnimView {
        if self.curr_y.len() == 0 {
            AnimView {
                prev_y: ys,
                curr_y: ys,
                prev_pop: pops,
                curr_pop: pops,
                progress: TRANSITION_MS as int,
                animating: false,
                ..self
            }
        } else if self.differs(ys, pops) {
            AnimView {
                prev_y: carried_over(self.shown_y(), ys),
                curr_y: ys,
                prev_pop: carried_over(self.shown_pop(), pops),
                curr_pop: pops,
                progress: 0,
                animating: true,
                last_tick: now,
                ..self
            }
        } else {
            self
        }
    }

    /// The state after each of `steps` has passed in turn.
    pub open spec fn advance_all(self, steps: Seq<int>) -> AnimView
        decreases steps.len(),
    {
        if steps.len() == 0 {
            self
        } else {
            self.advance_all(steps.drop_last()).advance(steps.last())
        }
    }
}

/// Sum of the steps.
pub open spec fn total(steps: Seq<int>) -> int
    decreases steps.len(),
{
    if steps.len() == 0 {
        0
    } else {
        total(steps.drop_last()) + steps.last()
    }
}

impl View for AnimState {
    type V = AnimView;

    open spec fn view(&self) -> AnimView {
        AnimView {
            prev_y: ints(self.prev_y@),
            curr_y: ints(self.curr_y@),
            prev_pop: ints(self.prev_pop@),
            curr_pop: ints(self.curr_pop@),
            progress: self.progress as int,
            animating: self.animating,
            last_tick: self.last_tick as int,
            ribbon_phase: self.ribbon_phase as int,
        }
    }
}

/// A shown value lies between the value it left and its target; it is the
/// former at the start and the latter at the end.
pub proof fn lemma_lerp_between(from: int, to: int, progress: int)
    requires
        0 <= progress <= TRANSITION_MS,
    ensures
        from <= to ==> from <= lerp(from, to, progress) <= to,
        to <= from ==> to <= lerp(from, to, progress) <= from,
        lerp(from, to, 0) == from,
        lerp(from, to, TRANSITION_MS as int) == to,
{
    let d = to - from;
    let full = TRANSITION_MS as int;
    assert(d * 0 == 0);
    assert((d * 0) / full == 0);
    lemma_div_multiples_vanish(d, full);
    assert(d * full == full * d) by (nonlinear_arith);
    if d >= 0 {
        assert(0 <= d * progress <= d * full) by (nonlinear_arith)
            requires
                d >= 0,
                0 <= progress <= full,
        ;
        lemma_div_monotone(0, d * progress, full);
        lemma_div_monotone(d * progress, d * full, full);
    }
    if d <= 0 {
        assert(d * full <= d * progress <= 0) by (nonlinear_arith)
            requires
                d <= 0,
                0 <= progress <= full,
        ;
        lemma_div_monotone(d * progress, 0, full);
        lemma_div_monotone(d * full, d * progress, full);
    }
}

impl AnimState {
    /// See `AnimView::wf`.
    pub open spec fn wf(&self) -> bool {
        self@.wf()
    }

    /// A state without values, idle, at time 0.
    pub fn new() -> (s: Self)
        ensures
            s.wf(),
            s@.curr_y.len() == 0,
            s@.progress == TRANSITION_MS,
            !s@.animating,
            s@.last_tick == 0,
            s@.ribbon_phase == 0,
    {
        AnimState {
            prev_y: Vec::new(),
            curr_y: Vec::new(),
            prev_pop: Vec::new(),
            curr_pop: Vec::new(),
            progress: TRANSITION_MS,
            animating: false,
            last_tick: 0,
            ribbon_phase: 0,
        }
    }

    /// Lets `elapsed_ms` milliseconds pass.
    pub fn advance(&mut self, elapsed_ms: u64)
        requires
            old(self).wf(),
        ensures
            final(self).wf(),
            final(self)@ == old(self)@.advance(elapsed_ms as int),
    {
        if self.animating {
            if elapsed_ms >= TRANSITION_MS - self.progress {
                self.progress = TRANSITION_MS;
            } else {
                self.progress = self.progress + elapsed_ms;
            }
            self.animating = self.progress < TRANSITION_MS;
        } else {
            self.ribbon_phase = self.ribbon_phase.wrapping_add(elapsed_ms);
        }
    }

    /// A tick of the frame clock at `now_ms`. Returns whether a repaint is
    /// due; it is not where the tick was skipped.
    pub fn tick(&mut self, now_ms: u64) -> (redraw: bool)
        requires
            old(self).wf(),
        ensures
            final(self).wf(),
            final(self)@ == old(self)@.tick(now_ms as int),
            redraw == !old(self)@.skips(now_ms as int),
    {
        let elapsed: u64 = if now_ms >= self.last_tick {
            now_ms - self.last_tick
        } else {
            0
        };
        if !self.animating && elapsed < IDLE_FRAME_MS {
            return false;
        }
        self.last_tick = now_ms;
        self.advance(elapsed);
        true
    }

    /// The rows to draw now.
    pub fn displayed_y(&self) -> (rows: Vec<i64>)
        requires
            self.wf(),
        ensures
            ints(rows@) == self@.shown_y(),
            rows_ok(ints(rows@)),
    {
        let rows = blend(&self.prev_y, &self.curr_y, self.progress);
        proof {
            lemma_shown_bounded(self@.prev_y, self@.curr_y, self@.progress, COORD_LIMIT as int);
        }
        rows
    }

    /// The probabilities to draw now.
    pub fn displayed_pop(&self) -> (pops: Vec<i64>)
        requires
            self.wf(),
        ensures
            ints(pops@) == self@.shown_pop(),
            pops_ok(ints(pops@)),
    {
        let pops = blend(&self.prev_pop, &self.curr_pop, self.progress);
        proof {
            lemma_shown_in_range(self@.prev_pop, self@.curr_pop, self@.progress, 0, 1000);
        }
        pops
    }

    /// Whether the targets differ from the current ones.
    pub fn differs(&self, ys: &[i64], pops: &[i64]) -> (d: bool)
        requires
            self.wf(),
            ys.len() == pops.len(),
            rows_ok(ints(ys@)),
            pops_ok(ints(pops@)),
        ensures
            d == self@.differs(ints(ys@), ints(pops@)),
    {
        if self.curr_y.len() != ys.len() {
            return true;
        }
        let mut i: usize = 0;
        while i < ys.len()
            invariant
                i <= ys.len(),
                ys.len() == pops.len(),
                self.curr_y.len() == ys.len(),
                self.curr_pop.len() == ys.len(),
                self.wf(),
                rows_ok(ints(ys@)),
                pops_ok(ints(pops@)),
                forall|j: int|
                    0 <= j < i ==> !(gap(ints(ys@)[j], self@.curr_y[j]) > Y_EPSILON || gap(
                        ints(pops@)[j],
                        self@.curr_pop[j],
                    ) > POP_EPSILON),
            decreases ys.len() - i,
        {
            assert(-COORD_LIMIT <= ints(ys@)[i as int] <= COORD_LIMIT);
            assert(-COORD_LIMIT <= self@.curr_y[i as int] <= COORD_LIMIT);
            assert(0 <= ints(pops@)[i as int] <= 1000);
            assert(0 <= self@.curr_pop[i as int] <= 1000);
            if distance(ys[i], self.curr_y[i]) > Y_EPSILON || distance(pops[i], self.curr_pop[i])
                > POP_EPSILON {
                return true;
            }
            i += 1;
        }
        false
    }

    /// Takes the targets that the painter has computed at `now_ms`.
    pub fn retarget(&mut self, ys: &[i64], pops: &[i64], now_ms: u64)
        requires
            old(self).wf(),
            ys.len() == pops.len(),
            rows_ok(ints(ys@)),
            pops_ok(ints(pops@)),
        ensures
            final(self).wf(),
            final(self)@ == old(self)@.retarget(ints(ys@), ints(pops@), now_ms as int),
    {
        if self.curr_y.len() == 0 {
            self.prev_y = copy_of(ys);
            self.curr_y = copy_of(ys);
            self.prev_pop = copy_of(pops);
            self.curr_pop = copy_of(pops);
            self.progress = TRANSITION_MS;
            self.animating = false;
        } else if self.differs(ys, pops) {
            let from_y = self.displayed_y();
            let from_pop = self.displayed_pop();
            self.prev_y = carry_over(&from_y, ys);
            self.prev_pop = carry_over(&from_pop, pops);
            self.curr_y = copy_of(ys);
            self.curr_pop = copy_of(pops);
            self.progress = 0;
            self.animating = true;
            self.last_tick = now_ms;
        }
    }
}

/// Distance between two numbers that are far from the ends of the 64-bit range.
fn distance(a: i64, b: i64) -> (d: i64)
    requires
        -COORD_LIMIT <= a <= COORD_LIMIT,
        -COORD_LIMIT <= b <= COORD_LIMIT,
    ensures
        d == gap(a as int, b as int),
{
    if a >= b {
        a - b
    } else {
        b - a
    }
}

/// A copy of a row.
fn copy_of(s: &[i64]) -> (v: Vec<i64>)
    ensures
        v@ == s@,
{
    let mut v: Vec<i64> = Vec::new();
    let mut i: usize = 0;
    while i < s.len()
        invariant
            i <= s.len(),
            v@ == s@.take(i as int),
        decreases s.len() - i,
    {
        v.push(s[i]);
        assert(s@.take(i + 1) =~= s@.take(i as int).push(s@[i as int]));
        i += 1;
    }
    assert(s@.take(s.len() as int) =~= s@);
    v
}

/// `shown` cut or lengthened to the length of `targets`.
fn carry_over(shown: &Vec<i64>, targets: &[i64]) -> (v: Vec<i64>)
    ensures
        ints(v@) == carried_over(ints(shown@), ints(targets@)),
{
    let mut v: Vec<i64> = Vec::new();
    let mut i: usize = 0;
    while i < targets.len()
        invariant
            i <= targets.len(),
            v.len() == i,
            forall|j: int|
                0 <= j < i ==> v@[j] as int == carried_over(ints(shown@), ints(targets@))[j],
        decreases targets.len() - i,
    {
        if i < shown.len() {
            v.push(shown[i]);
        } else {
            v.push(targets[i]);
        }
        i += 1;
    }
    assert(ints(v@) =~= carried_over(ints(shown@), ints(targets@)));
    v
}

/// The values shown `progress` milliseconds into a transition from `prev` to `curr`.
fn blend(prev: &Vec<i64>, curr: &Vec<i64>, progress: u64) -> (out: Vec<i64>)
    requires
        prev.len() == curr.len(),
        progress <= TRANSITION_MS,
        rows_ok(ints(prev@)),
        rows_ok(ints(curr@)),
    ensures
        ints(out@) == shown(ints(prev@), ints(curr@), progress as int),
{
    let mut out: Vec<i64> = Vec::new();
    let mut i: usize = 0;
    while i < curr.len()
        invariant
            i <= curr.len(),
            prev.len() == curr.len(),
            progress <= TRANSITION_MS,
            rows_ok(ints(prev@)),
            rows_ok(ints(curr@)),
            out.len() == i,
            forall|j: int|
                0 <= j < i ==> out@[j] as int == lerp(
                    prev@[j] as int,
                    curr@[j] as int,
                    progress as int,
                ),
        decreases curr.len() - i,
    {
        let from = prev[i];
        let to = curr[i];
        assert(-COORD_LIMIT <= ints(prev@)[i as int] <= COORD_LIMIT);
        assert(-COORD_LIMIT <= ints(curr@)[i as int] <= COORD_LIMIT);
        proof {
            lemma_lerp_between(from as int, to as int, progress as int);
        }
        let step = mul_div_floor(to - from, progress as i64, TRANSITION_MS as i64);
        out.push(from + step);
        i += 1;
    }
    assert(ints(out@) =~= shown(ints(prev@), ints(curr@), progress as int));
    out
}

/// Shown values stay within a symmetric limit that both rows keep.
pub proof fn lemma_shown_bounded(prev: Seq<int>, curr: Seq<int>, progress: int, limit: int)
    requires
        prev.len() == curr.len(),
        0 <= progress <= TRANSITION_MS,
        forall|i: int| 0 <= i < prev.len() ==> -limit <= #[trigger] prev[i] <= limit,
        forall|i: int| 0 <= i < curr.len() ==> -limit <= #[trigger] curr[i] <= limit,
    ensures
        forall|i: int|
            0 <= i < curr.len() ==> -limit <= #[trigger] shown(prev, curr, progress)[i] <= limit,
{
    lemma_shown_in_range(prev, curr, progress, -limit, limit);
}

/// Shown values stay within a range that both rows keep.
pub proof fn lemma_shown_in_range(prev: Seq<int>, curr: Seq<int>, progress: int, lo: int, hi: int)
    requires
        prev.len() == curr.len(),
        0 <= progress <= TRANSITION_MS,
        forall|i: int| 0 <= i < prev.len() ==> lo <= #[trigger] prev[i] <= hi,
        forall|i: int| 0 <= i < curr.len() ==> lo <= #[trigger] curr[i] <= hi,
    ensures
        forall|i: int|
            0 <= i < curr.len() ==> lo <= #[trigger] shown(prev, curr, progress)[i] <= hi,
{
    assert forall|i: int| 0 <= i < curr.len() implies lo <= #[trigger] shown(
        prev,
        curr,
        progress,
    )[i] <= hi by {
        assert(lo <= prev[i] <= hi);
        assert(lo <= curr[i] <= hi);
        lemma_lerp_between(prev[i], curr[i], progress);
    }
}

/// Passing time changes neither the targets nor where the transition started,
/// keeps the state well formed, and moves the progress by the time that
/// passed, up to the full length.
pub proof fn lemma_advance_all(s: AnimView, steps: Seq<int>)
    requires
        s.wf(),
        forall|i: int| 0 <= i < steps.len() ==> #[trigger] steps[i] >= 0,
    ensures
        s.advance_all(steps).wf(),
        total(steps) >= 0,
        s.advance_all(steps).progress == if s.progress + total(steps) >= TRANSITION_MS {
            TRANSITION_MS as int
        } else {
            s.progress + total(steps)
        },
        s.advance_all(steps).prev_y == s.prev_y,
        s.advance_all(steps).curr_y == s.curr_y,
        s.advance_all(steps).prev_pop == s.prev_pop,
        s.advance_all(steps).curr_pop == s.curr_pop,
        s.advance_all(steps).last_tick == s.last_tick,
    decreases steps.len(),
{
    if steps.len() > 0 {
        let head = steps.drop_last();
        assert forall|i: int| 0 <= i < head.len() implies #[trigger] head[i] >= 0 by {
            assert(head[i] == steps[i]);
        }
        lemma_advance_all(s, head);
        assert(steps.last() == steps[steps.len() - 1]);
    }
}

/// A finished transition shows its targets exactly.
pub proof fn lemma_finished_shows_targets(s: AnimView)
    requires
        s.wf(),
        s.progress == TRANSITION_MS,
    ensures
        s.shown_y() == s.curr_y,
        s.shown_pop() == s.curr_pop,
{
    assert forall|i: int| 0 <= i < s.curr_y.len() implies s.shown_y()[i] == s.curr_y[i] by {
        lemma_lerp_between(s.prev_y[i], s.curr_y[i], s.progress);
    }
    assert forall|i: int| 0 <= i < s.curr_pop.len() implies s.shown_pop()[i] == s.curr_pop[i] by {
        lemma_lerp_between(s.prev_pop[i], s.curr_pop[i], s.progress);
    }
    assert(s.shown_y() =~= s.curr_y);
    assert(s.shown_pop() =~= s.curr_pop);
}

/// A transition that has just started shows the values it started from.
pub proof fn lemma_started_shows_origin(s: AnimView)
    requires
        s.wf(),
        s.progress == 0,
    ensures
        s.shown_y() == s.prev_y,
        s.shown_pop() == s.prev_pop,
{
    assert forall|i: int| 0 <= i < s.curr_y.len() implies s.shown_y()[i] == s.prev_y[i] by {
        lemma_lerp_between(s.prev_y[i], s.curr_y[i], s.progress);
    }
    assert forall|i: int| 0 <= i < s.curr_pop.len() implies s.shown_pop()[i] == s.prev_pop[i] by {
        lemma_lerp_between(s.prev_pop[i], s.curr_pop[i], s.progress);
    }
    assert(s.shown_y() =~= s.prev_y);
    assert(s.shown_pop() =~= s.prev_pop);
}

/// Convergence: from the start of a transition, steps of time that are not
/// negative and add up to the length of a transition or more leave the state
/// idle, at full progress, showing exactly its targets.
pub proof fn lemma_transition_completes(s: AnimView, steps: Seq<int>)
    requires
        s.wf(),
        s.animating,
        s.progress == 0,
        forall|i: int| 0 <= i < steps.len() ==> #[trigger] steps[i] >= 0,
        total(steps) >= TRANSITION_MS,
    ensures
        s.advance_all(steps).progress == TRANSITION_MS,
        !s.advance_all(steps).animating,
        s.advance_all(steps).shown_y() == s.curr_y,
        s.advance_all(steps).shown_pop() == s.curr_pop,
{
    lemma_advance_all(s, steps);
    lemma_finished_shows_targets(s.advance_all(steps));
}

/// A new target that arrives in the middle of a transition restarts it from
/// the values on screen, so nothing jumps: right after `retarget` the state
/// shows what it showed before, at every position that it had.
pub proof fn lemma_retarget_is_seamless(s: AnimView, ys: Seq<int>, pops: Seq<int>, now: int, i: int)
    requires
        s.wf(),
        ys.len() == pops.len(),
        rows_ok(ys),
        pops_ok(pops),
        0 <= now <= u64::MAX,
        s.curr_y.len() > 0,
        0 <= i < ys.len(),
        i < s.curr_y.len(),
    ensures
        s.retarget(ys, pops, now).wf(),
        s.retarget(ys, pops, now).shown_y()[i] == s.shown_y()[i],
        s.retarget(ys, pops, now).shown_pop()[i] == s.shown_pop()[i],
{
    let r = s.retarget(ys, pops, now);
    lemma_shown_bounded(s.prev_y, s.curr_y, s.progress, COORD_LIMIT as int);
    lemma_shown_in_range(s.prev_pop, s.curr_pop, s.progress, 0, 1000);
    if s.differs(ys, pops) {
        lemma_lerp_between(r.prev_y[i], r.curr_y[i], 0);
        lemma_lerp_between(r.prev_pop[i], r.curr_pop[i], 0);
    }
}

} // verus!
