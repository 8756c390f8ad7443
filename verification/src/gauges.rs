//! Circular gauges: an arc that fills with a value, and a compass with a
//! needle. A gauge has no animation; its face is a function of its value and
//! of the size of the widget, and the painted face is kept in a `RenderCache`.
//! Lengths are in thousandths of a pixel, angles in thousandths of a degree,
//! measured clockwise from the positive x axis.

use vstd::prelude::*;
use crate::cache::shared;
use crate::cache::RenderCache;
use crate::fixed::clamp;
use crate::fixed::clamp_int;
use crate::spline::Point;

verus! {

/// Space between the gauge and the nearer edges of the widget, in thousandths of a pixel.
pub const GAUGE_INSET: i64 = 5000;

/// Where the arc starts: 135 degrees.
pub const ARC_START: i64 = 135_000;

/// What the arc spans: 270 degrees.
pub const ARC_SPAN: i64 = 270_000;

/// Thousandths of the radius that the ring is wide.
pub const RING_SHARE: i64 = 200;

/// Thousandths of the radius that the disc behind the text takes.
pub const HUB_SHARE: i64 = 380;

/// Thousandths of the radius that the text is high.
pub const TEXT_SHARE: i64 = 350;

/// Thousandths of the radius that the compass letters are high.
pub const LETTER_SHARE: i64 = 300;

/// Thousandths of the radius that the needle is long.
pub const NEEDLE_SHARE: i64 = 900;

/// Thousandths of the radius that the needle is wide.
pub const NEEDLE_WIDTH_SHARE: i64 = 80;

/// Thousandths of the radius of the dot on the needle's tip.
pub const TIP_SHARE: i64 = 100;

/// Least height of text, in thousandths of a pixel.
pub const MIN_TEXT: i64 = 8000;

/// Least radius of the disc behind the text, in thousandths of a pixel.
pub const MIN_HUB: i64 = 1000;

/// A colour.
#[derive(Debug, Clone, Copy, PartialEq, Eq, Structural)]
pub struct Rgb {
    pub r: u8,
    pub g: u8,
    pub b: u8,
}

/// The face of an arc gauge.
#[derive(Debug, Clone)]
pub struct ArcFace {
    pub center: Point,
    pub radius: i64,
    /// Width of the track and of the arc on it.
    pub track_width: i64,
    /// The track runs from `start_angle` to `end_angle`.
    pub start_angle: i64,
    pub end_angle: i64,
    /// The arc runs from `start_angle` to `value_angle`.
    pub value_angle: i64,
    /// The arc's colour runs from `color_start` at `gradient_from` to
    /// `color_end` at `gradient_to`.
    pub gradient_from: Point,
    pub gradient_to: Point,
    pub color_start: Rgb,
    pub color_end: Rgb,
    /// Radius of the disc behind the text.
    pub hub_radius: i64,
    pub font_size: i64,
    /// To be centred on `center`.
    pub text: String,
}

/// One of the four letters on the ring of the compass.
#[derive(Debug, Clone, Copy, PartialEq, Eq, Structural)]
pub struct Cardinal {
    pub letter: char,
    /// The letter is to be centred here.
    pub at: Point,
}

/// The face of a compass gauge.
#[derive(Debug, Clone)]
pub struct CompassFace {
    pub center: Point,
    pub radius: i64,
    pub ring_width: i64,
    pub letter_size: i64,
    /// East, south, west and north, in this order.
    pub letters: Vec<Cardinal>,
    /// Direction of the needle, from 0 up to 360 degrees; 270 degrees points up.
    pub needle_angle: i64,
    pub needle_length: i64,
    pub needle_width: i64,
    pub tip_radius: i64,
    pub hub_radius: i64,
    pub font_size: i64,
    pub text: String,
}

/// An arc gauge.
pub struct ArcGauge<S> {
    /// The value in thousandths; it is shown clamped to `0..=1000`.
    pub value: i64,
    pub text: String,
    pub color_start: Rgb,
    pub color_end: Rgb,
    pub cache: RenderCache<S>,
}

/// A compass gauge.
pub struct CompassGauge<S> {
    /// Direction in degrees; 0 points up, 90 to the right.
    pub degrees: i64,
    pub text: String,
    pub cache: RenderCache<S>,
}

/// Radius of a gauge in a widget of `width` by `height` pixels: half the
/// shorter side, less the inset.
pub open spec fn gauge_radius(width: int, height: int) -> int {
    (if width < height {
        width
    } else {
        height
    }) * 500 - GAUGE_INSET
}

/// `share` thousandths of `radius`.
pub open spec fn share_of(radius: int, share: int) -> int {
    (radius * share) / 1000
}

/// The larger of two numbers.
pub open spec fn at_least(v: int, least: int) -> int {
    if v < least {
        least
    } else {
        v
    }
}

/// Where the arc of a gauge with the value `value` ends.
pub open spec fn value_angle(value: int) -> int {
    ARC_START + (clamp_int(value, 0, 1000) * ARC_SPAN) / 1000
}

/// Direction of the needle for a wind from `degrees`.
pub open spec fn needle_angle(degrees: int) -> int {
    ((degrees - 90) % 360) * 1000
}

/// The four letters of a compass with the given centre and radius.
pub open spec fn cardinals(center: Point, radius: int) -> Seq<Cardinal> {
    let reach = radius - share_of(radius, RING_SHARE as int);
    seq![
        Cardinal { letter: 'E', at: Point { x: (center.x + reach) as i64, y: center.y } },
        Cardinal { letter: 'S', at: Point { x: center.x, y: (center.y + reach) as i64 } },
        Cardinal { letter: 'W', at: Point { x: (center.x - reach) as i64, y: center.y } },
        Cardinal { letter: 'N', at: Point { x: center.x, y: (center.y - reach) as i64 } },
    ]
}

/// Whether `face` is the face of an arc gauge with the given value, text and
/// colours in a widget of `width` by `height` pixels: none where the widget
/// is too small for a positive radius.
pub open spec fn is_arc_face(
    face: Option<ArcFace>,
    value: int,
    text: Seq<char>,
    color_start: Rgb,
    color_end: Rgb,
    width: int,
    height: int,
) -> bool {
    let radius = gauge_radius(width, height);
    if radius <= 0 {
        face is None
    } else {
        &&& face is Some
        &&& face->0.center == Point { x: (width * 500) as i64, y: (height * 500) as i64 }
        &&& face->0.radius == radius
        &&& face->0.track_width == share_of(radius, RING_SHARE as int)
        &&& face->0.start_angle == ARC_START
        &&& face->0.end_angle == ARC_START + ARC_SPAN
        &&& face->0.value_angle == value_angle(value)
        &&& face->0.gradient_from == Point {
            x: (width * 500 - radius) as i64,
            y: (height * 500 - radius) as i64,
        }
        &&& face->0.gradient_to == Point {
            x: (width * 500 + radius) as i64,
            y: (height * 500 + radius) as i64,
        }
        &&& face->0.color_start == color_start
        &&& face->0.color_end == color_end
        &&& face->0.hub_radius == at_least(share_of(radius, HUB_SHARE as int), MIN_HUB as int)
        &&& face->0.font_size == at_least(share_of(radius, TEXT_SHARE as int), MIN_TEXT as int)
        &&& face->0.text@ == text
    }
}

/// Whether `face` is the face of a compass gauge for the direction
/// `degrees` with the given text in a widget of `width` by `height` pixels.
pub open spec fn is_compass_face(
    face: Option<CompassFace>,
    degrees: int,
    text: Seq<char>,
    width: int,
    height: int,
) -> bool {
    let radius = gauge_radius(width, height);
    if radius <= 0 {
        face is None
    } else {
        let center = Point { x: (width * 500) as i64, y: (height * 500) as i64 };
        &&& face is Some
        &&& face->0.center == center
        &&& face->0.radius == radius
        &&& face->0.ring_width == share_of(radius, RING_SHARE as int)
        &&& face->0.letter_size == at_least(share_of(radius, LETTER_SHARE as int), MIN_TEXT as int)
        &&& face->0.letters@ == cardinals(center, radius)
        &&& face->0.needle_angle == needle_angle(degrees)
        &&& face->0.needle_length == share_of(radius, NEEDLE_SHARE as int)
        &&& face->0.needle_width == share_of(radius, NEEDLE_WIDTH_SHARE as int)
        &&& face->0.tip_radius == share_of(radius, TIP_SHARE as int)
        &&& face->0.hub_radius == at_least(share_of(radius, HUB_SHARE as int), MIN_HUB as int)
        &&& face->0.font_size == at_least(share_of(radius, TEXT_SHARE as int), MIN_TEXT as int)
        &&& face->0.text@ == text
    }
}

/// Radius of a gauge in thousandths of a pixel.
pub fn radius_for(width: i32, height: i32) -> (radius: i64)
    ensures
        radius == gauge_radius(width as int, height as int),
{
    let side: i64 = if width < height {
        width as i64
    } else {
        height as i64
    };
    side * 500 - GAUGE_INSET
}

/// `share` thousandths of a positive radius.
fn share(radius: i64, thousandths: i64) -> (part: i64)
    requires
        0 < radius <= 500 * i32::MAX,
        0 <= thousandths <= 1000,
    ensures
        part == share_of(radius as int, thousandths as int),
        0 <= part <= radius,
{
    assert(0 <= radius * thousandths <= radius * 1000) by (nonlinear_arith)
        requires
            radius > 0,
            0 <= thousandths <= 1000,
    ;
    (radius * thousandths) / 1000
}

/// The larger of two numbers.
fn no_less(v: i64, least: i64) -> (r: i64)
    ensures
        r == at_least(v as int, least as int),
{
    if v < least {
        least
    } else {
        v
    }
}

/// The face of an arc gauge in a widget of `width` by `height` pixels, or
/// none where the widget is too small to draw in.
pub fn arc_face(
    value: i64,
    text: &str,
    color_start: Rgb,
    color_end: Rgb,
    width: i32,
    height: i32,
) -> (face: Option<ArcFace>)
    ensures
        is_arc_face(face, value as int, text@, color_start, color_end, width as int, height as int),
{
    let radius: i64 = radius_for(width, height);
    if radius <= 0 {
        return None;
    }
    let cx: i64 = width as i64 * 500;
    let cy: i64 = height as i64 * 500;
    let shown: i64 = clamp(value, 0, 1000);
    Some(
        ArcFace {
            center: Point { x: cx, y: cy },
            radius,
            track_width: share(radius, RING_SHARE),
            start_angle: ARC_START,
            end_angle: ARC_START + ARC_SPAN,
            value_angle: ARC_START + (shown * ARC_SPAN) / 1000,
            gradient_from: Point { x: cx - radius, y: cy - radius },
            gradient_to: Point { x: cx + radius, y: cy + radius },
            color_start,
            color_end,
            hub_radius: no_less(share(radius, HUB_SHARE), MIN_HUB),
            font_size: no_less(share(radius, TEXT_SHARE), MIN_TEXT),
            text: text.to_owned(),
        },
    )
}

/// The face of a compass gauge in a widget of `width` by `height` pixels, or
/// none where the widget is too small to draw in.
pub fn compass_face(degrees: i64, text: &str, width: i32, height: i32) -> (face: Option<CompassFace>)
    ensures
        is_compass_face(face, degrees as int, text@, width as int, height as int),
{
    let radius: i64 = radius_for(width, height);
    if radius <= 0 {
        return None;
    }
    let cx: i64 = width as i64 * 500;
    let cy: i64 = height as i64 * 500;
    let center = Point { x: cx, y: cy };
    let reach: i64 = radius - share(radius, RING_SHARE);
    let mut letters: Vec<Cardinal> = Vec::new();
    letters.push(Cardinal { letter: 'E', at: Point { x: cx + reach, y: cy } });
    letters.push(Cardinal { letter: 'S', at: Point { x: cx, y: cy + reach } });
    letters.push(Cardinal { letter: 'W', at: Point { x: cx - reach, y: cy } });
    letters.push(Cardinal { letter: 'N', at: Point { x: cx, y: cy - reach } });
    assert(letters@ =~= cardinals(center, radius as int));
    let turned: i64 = match (degrees as i128 - 90).checked_rem_euclid(360) {
        Some(r) => r as i64,
        None => 0,
    };
    Some(
        CompassFace {
            center,
            radius,
            ring_width: share(radius, RING_SHARE),
            letter_size: no_less(share(radius, LETTER_SHARE), MIN_TEXT),
            letters,
            needle_angle: turned * 1000,
            needle_length: share(radius, NEEDLE_SHARE),
            needle_width: share(radius, NEEDLE_WIDTH_SHARE),
            tip_radius: share(radius, TIP_SHARE),
            hub_radius: no_less(share(radius, HUB_SHARE), MIN_HUB),
            font_size: no_less(share(radius, TEXT_SHARE), MIN_TEXT),
            text: text.to_owned(),
        },
    )
}

/// An arc gauge for a value in thousandths, with the text in its middle and
/// the two colours between which the arc runs.
pub fn create_arc_gauge<S>(value_normalized: i64, text: String, color_start: Rgb, color_end: Rgb) -> (gauge:
    ArcGauge<S>)
    ensures
        gauge.value == value_normalized,
        gauge.text == text,
        gauge.color_start == color_start,
        gauge.color_end == color_end,
        gauge.cache.surface is None,
{
    ArcGauge { value: value_normalized, text, color_start, color_end, cache: RenderCache::new() }
}

/// A compass gauge for a wind from `degrees`, with the text in its middle.
pub fn create_compass_gauge<S>(degrees: i64, speed_text: String) -> (gauge: CompassGauge<S>)
    ensures
        gauge.degrees == degrees,
        gauge.text == speed_text,
        gauge.cache.surface is None,
{
    CompassGauge { degrees, text: speed_text, cache: RenderCache::new() }
}

impl<S> ArcGauge<S> {
    /// The face of the gauge in a widget of `width` by `height` pixels.
    pub fn face(&self, width: i32, height: i32) -> (face: Option<ArcFace>)
        ensures
            is_arc_face(
                face,
                self.value as int,
                self.text@,
                self.color_start,
                self.color_end,
                width as int,
                height as int,
            ),
    {
        arc_face(
            self.value,
            self.text.as_str(),
            self.color_start,
            self.color_end,
            width,
            height,
        )
    }

    /// The painted gauge for a widget of `width` by `height` pixels. A
    /// surface of that size in the cache is returned as it is. Otherwise the
    /// face is handed to `rasterise`, and what that returns replaces the
    /// cache's entry; where it returns nothing the cache is left empty.
    pub fn draw<F: FnOnce(&Option<ArcFace>) -> Option<S>>(
        &mut self,
        width: i32,
        height: i32,
        rasterise: F,
    ) -> (painted: Option<&S>)
        requires
            forall|face: Option<ArcFace>|
                is_arc_face(
                    face,
                    old(self).value as int,
                    old(self).text@,
                    old(self).color_start,
                    old(self).color_end,
                    width as int,
                    height as int,
                ) ==> rasterise.requires((&face,)),
        ensures
            final(self).value == old(self).value,
            final(self).text == old(self).text,
            final(self).color_start == old(self).color_start,
            final(self).color_end == old(self).color_end,
            old(self).cache.holds(width as int, height as int) ==> final(self).cache == old(
                self,
            ).cache && painted == Some(&old(self).cache.surface->0),
            !old(self).cache.holds(width as int, height as int) ==> {
                &&& exists|face: Option<ArcFace>|
                    is_arc_face(
                        face,
                        old(self).value as int,
                        old(self).text@,
                        old(self).color_start,
                        old(self).color_end,
                        width as int,
                        height as int,
                    ) && #[trigger] rasterise.ensures((&face,), final(self).cache.surface)
                &&& final(self).cache.surface is Some ==> final(self).cache.width == width
                    && final(self).cache.height == height
                &&& final(self).cache.surface is None ==> final(self).cache.width == -1
                    && final(self).cache.height == -1
                &&& painted == shared(&final(self).cache.surface)
            },
    {
        if self.cache.surface.is_some() && self.cache.width == width && self.cache.height
            == height {
            return self.cache.surface.as_ref();
        }
        let face = arc_face(
            self.value,
            self.text.as_str(),
            self.color_start,
            self.color_end,
            width,
            height,
        );
        match rasterise(&face) {
            Some(surface) => {
                self.cache.store(width, height, surface);
            },
            None => {
                self.cache.invalidate();
            },
        }
        self.cache.surface.as_ref()
    }
}

impl<S> CompassGauge<S> {
    /// The face of the gauge in a widget of `width` by `height` pixels.
    pub fn face(&self, width: i32, height: i32) -> (face: Option<CompassFace>)
        ensures
            is_compass_face(face, self.degrees as int, self.text@, width as int, height as int),
    {
        compass_face(self.degrees, self.text.as_str(), width, height)
    }

    /// The painted gauge for a widget of `width` by `height` pixels; see
    /// `ArcGauge::draw`.
    pub fn draw<F: FnOnce(&Option<CompassFace>) -> Option<S>>(
        &mut self,
        width: i32,
        height: i32,
        rasterise: F,
    ) -> (painted: Option<&S>)
        requires
            forall|face: Option<CompassFace>|
                is_compass_face(
                    face,
                    old(self).degrees as int,
                    old(self).text@,
                    width as int,
                    height as int,
                ) ==> rasterise.requires((&face,)),
        ensures
            final(self).degrees == old(self).degrees,
            final(self).text == old(self).text,
            old(self).cache.holds(width as int, height as int) ==> final(self).cache == old(
                self,
            ).cache && painted == Some(&old(self).cache.surface->0),
            !old(self).cache.holds(width as int, height as int) ==> {
                &&& exists|face: Option<CompassFace>|
                    is_compass_face(
                        face,
                        old(self).degrees as int,
                        old(self).text@,
                        width as int,
                        height as int,
                    ) && #[trigger] rasterise.ensures((&face,), final(self).cache.surface)
                &&& final(self).cache.surface is Some ==> final(self).cache.width == width
                    && final(self).cache.height == height
                &&& final(self).cache.surface is None ==> final(self).cache.width == -1
                    && final(self).cache.height == -1
                &&& painted == shared(&final(self).cache.surface)
            },
    {
        if self.cache.surface.is_some() && self.cache.width == width && self.cache.height
            == height {
            return self.cache.surface.as_ref();
        }
        let face = compass_face(self.degrees, self.text.as_str(), width, height);
        match rasterise(&face) {
            Some(surface) => {
                self.cache.store(width, height, surface);
            },
            None => {
                self.cache.invalidate();
            },
        }
        self.cache.surface.as_ref()
    }
}

} // verus!
