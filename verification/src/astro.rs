//! The sun on its way across the sky: a half circle from sunrise on the left
//! to sunset on the right, with the sun where the present time puts it.

use vstd::prelude::*;
use crate::clock::fmt_time;
use crate::clock::formatted_time;
use crate::fixed::mul_div;
use crate::fixed::mul_div_floor;
use crate::formatting::lemma_bar_patterns;
use crate::spline::Point;
use crate::weather::time_ok;
use crate::weather::OFFSET_LIMIT;
use crate::weather::TIME_LIMIT;

verus! {

/// Height that the widget asks for, in pixels.
pub const SUN_HEIGHT: i32 = 120;

/// Space below the horizon for the labels, in thousandths of a pixel.
pub const HORIZON_INSET: i64 = 25_000;

/// Space between the arc and the edges of the widget, in thousandths of a pixel.
pub const ARC_INSET: i64 = 40_000;

/// Distance of the times below the horizon, in thousandths of a pixel.
pub const TIME_DROP: i64 = 20_000;

/// Distance of the words below the horizon, in thousandths of a pixel.
pub const WORD_DROP: i64 = 35_000;

/// How far to the left of the arc's end a word starts, in thousandths of a pixel.
pub const WORD_SHIFT: i64 = 10_000;

/// The sun widget.
#[derive(Debug, Clone, Copy, PartialEq, Eq, Structural)]
pub struct SunWidget {
    pub sunrise: i64,
    pub sunset: i64,
    pub current: i64,
    pub tz: i64,
}

/// The face of the sun widget, in thousandths of a pixel and of a degree.
#[derive(Debug, Clone)]
pub struct SunFace {
    /// Middle of the horizon.
    pub center: Point,
    pub radius: i64,
    /// Where on the arc the sun stands: 180 degrees is sunrise, 0 is sunset.
    pub sun_angle: i64,
    /// The time of sunrise, to be centred here.
    pub rise_at: Point,
    pub rise_text: String,
    /// The time of sunset, to be centred here.
    pub set_at: Point,
    pub set_text: String,
    /// Where the words "Sunrise" and "Sunset" start.
    pub rise_word_at: Point,
    pub set_word_at: Point,
}

/// Share of the day that has passed, in thousandths: none before sunrise,
/// all after sunset.
pub open spec fn day_progress(sunrise: int, sunset: int, current: int) -> int {
    if current < sunrise {
        0
    } else if current > sunset {
        1000
    } else if sunset == sunrise {
        0
    } else {
        mul_div(current - sunrise, 1000, sunset - sunrise)
    }
}

/// Radius of the arc in a widget of `width` by `height` pixels.
pub open spec fn arc_radius(width: int, height: int) -> int {
    (if width < 2 * height {
        width
    } else {
        2 * height
    }) * 500 - ARC_INSET
}

/// Whether `face` is the face of the widget `w` in a widget area of `width`
/// by `height` pixels: none where the area leaves no room for the arc.
pub open spec fn is_sun_face(face: Option<SunFace>, w: SunWidget, width: int, height: int) -> bool {
    let radius = arc_radius(width, height);
    let cx = width * 500;
    let cy = height * 1000 - HORIZON_INSET;
    if radius <= 0 {
        face is None
    } else {
        &&& face is Some
        &&& face->0.center == Point { x: cx as i64, y: cy as i64 }
        &&& face->0.radius == radius
        &&& face->0.sun_angle == 180 * (1000 - day_progress(
            w.sunrise as int,
            w.sunset as int,
            w.current as int,
        ))
        &&& face->0.rise_at == Point { x: (cx - radius) as i64, y: (cy + TIME_DROP) as i64 }
        &&& face->0.rise_text@ == formatted_time(w.sunrise as int, w.tz as int, "%H:%M"@)
        &&& face->0.set_at == Point { x: (cx + radius) as i64, y: (cy + TIME_DROP) as i64 }
        &&& face->0.set_text@ == formatted_time(w.sunset as int, w.tz as int, "%H:%M"@)
        &&& face->0.rise_word_at == Point {
            x: (cx - radius - WORD_SHIFT) as i64,
            y: (cy + WORD_DROP) as i64,
        }
        &&& face->0.set_word_at == Point {
            x: (cx + radius - WORD_SHIFT) as i64,
            y: (cy + WORD_DROP) as i64,
        }
    }
}

/// A sun widget for a day from `sunrise` to `sunset`, seen at `current`, at
/// the UTC offset `tz`.
pub fn create_sun_widget(sunrise: i64, sunset: i64, current: i64, tz: i64) -> (w: SunWidget)
    ensures
        w == (SunWidget { sunrise, sunset, current, tz }),
{
    SunWidget { sunrise, sunset, current, tz }
}

impl SunWidget {
    /// The times are within the limits.
    pub open spec fn wf(&self) -> bool {
        &&& time_ok(self.sunrise)
        &&& time_ok(self.sunset)
        &&& time_ok(self.current)
        &&& -OFFSET_LIMIT <= self.tz <= OFFSET_LIMIT
    }

    /// Whether the times are within the limits.
    pub fn is_valid(&self) -> (ok: bool)
        ensures
            ok == self.wf(),
    {
        -TIME_LIMIT <= self.sunrise && self.sunrise <= TIME_LIMIT && -TIME_LIMIT <= self.sunset
            && self.sunset <= TIME_LIMIT && -TIME_LIMIT <= self.current && self.current
            <= TIME_LIMIT && -OFFSET_LIMIT <= self.tz && self.tz <= OFFSET_LIMIT
    }

    /// The widget with its times and its offset brought within the limits; a
    /// valid widget comes back as it is.
    pub fn clamped(&self) -> (w: SunWidget)
        ensures
            w.wf(),
            w.sunrise == crate::weather::limited(self.sunrise, TIME_LIMIT),
            w.sunset == crate::weather::limited(self.sunset, TIME_LIMIT),
            w.current == crate::weather::limited(self.current, TIME_LIMIT),
            w.tz == crate::weather::limited(self.tz, OFFSET_LIMIT),
            self.wf() ==> w == *self,
    {
        SunWidget {
            sunrise: crate::fixed::clamp(self.sunrise, -TIME_LIMIT, TIME_LIMIT),
            sunset: crate::fixed::clamp(self.sunset, -TIME_LIMIT, TIME_LIMIT),
            current: crate::fixed::clamp(self.current, -TIME_LIMIT, TIME_LIMIT),
            tz: crate::fixed::clamp(self.tz, -OFFSET_LIMIT, OFFSET_LIMIT),
        }
    }

    /// Share of the day that has passed, in thousandths.
    pub fn progress(&self) -> (p: i64)
        requires
            self.wf(),
        ensures
            p == day_progress(self.sunrise as int, self.sunset as int, self.current as int),
            0 <= p <= 1000,
    {
        if self.current < self.sunrise {
            0
        } else if self.current > self.sunset {
            1000
        } else if self.sunset == self.sunrise {
            0
        } else {
            proof {
                let part = self.current - self.sunrise;
                let span = self.sunset - self.sunrise;
                assert(0 <= part * 1000 <= span * 1000);
                crate::fixed::lemma_div_monotone(0, part * 1000, span);
                crate::fixed::lemma_div_monotone(part * 1000, span * 1000, span);
                vstd::arithmetic::div_mod::lemma_div_multiples_vanish(1000, span);
                assert(span * 1000 == 1000 * span);
                assert(0int / span == 0);
            }
            mul_div_floor(self.current - self.sunrise, 1000, self.sunset - self.sunrise)
        }
    }

    /// The face of the widget in an area of `width` by `height` pixels.
    pub fn face(&self, width: i32, height: i32) -> (face: Option<SunFace>)
        requires
            self.wf(),
        ensures
            is_sun_face(face, *self, width as int, height as int),
    {
        let wide: i64 = width as i64;
        let high: i64 = height as i64;
        let side: i64 = if wide < 2 * high {
            wide
        } else {
            2 * high
        };
        let radius: i64 = side * 500 - ARC_INSET;
        if radius <= 0 {
            return None;
        }
        let cx: i64 = wide * 500;
        let cy: i64 = high * 1000 - HORIZON_INSET;
        proof {
            lemma_bar_patterns();
        }
        Some(
            SunFace {
                center: Point { x: cx, y: cy },
                radius,
                sun_angle: 180 * (1000 - self.progress()),
                rise_at: Point { x: cx - radius, y: cy + TIME_DROP },
                rise_text: fmt_time(self.sunrise, self.tz, "%H:%M"),
                set_at: Point { x: cx + radius, y: cy + TIME_DROP },
                set_text: fmt_time(self.sunset, self.tz, "%H:%M"),
                rise_word_at: Point { x: cx - radius - WORD_SHIFT, y: cy + WORD_DROP },
                set_word_at: Point { x: cx + radius - WORD_SHIFT, y: cy + WORD_DROP },
            },
        )
    }
}

} // verus!
