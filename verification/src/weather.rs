//! Forecast records as the chart and the text formatters read them. Fractional
//! readings are whole thousandths: `71_200` is 71.2 degrees, `300` is a
//! precipitation probability of 30 %.

use vstd::prelude::*;
use vstd::std_specs::iter::IteratorSpec;
use crate::fixed::clamp;
use crate::fixed::clamp_int;

verus! {

/// Largest magnitude of a temperature, in thousandths of a degree, that the
/// scale arithmetic accepts.
pub const TEMP_LIMIT: i64 = 1_000_000_000;

/// Largest magnitude of a timestamp, in seconds, that the calendar arithmetic
/// accepts.
pub const TIME_LIMIT: i64 = 4_000_000_000_000;

/// Largest magnitude of a UTC offset in seconds; every 32-bit offset is within it.
pub const OFFSET_LIMIT: i64 = 2_147_483_648;

/// A named weather condition with its longer description.
#[derive(Debug, Clone)]
pub struct WeatherDesc {
    pub main: Option<String>,
    pub description: Option<String>,
}

/// One hour of forecast.
#[derive(Debug, Clone)]
pub struct Hourly {
    /// Seconds since the epoch.
    pub dt: i64,
    /// Thousandths of a degree.
    pub temp: i64,
    pub pressure: Option<i64>,
    pub humidity: Option<u8>,
    /// Thousandths of a UV index point.
    pub uvi: Option<i64>,
    /// Probability of precipitation in thousandths.
    pub pop: Option<i64>,
    /// Thousandths of a speed unit.
    pub wind_speed: Option<i64>,
    pub wind_deg: Option<i64>,
    pub weather: Vec<WeatherDesc>,
}

/// A place. Latitude and longitude are in millionths of a degree.
#[derive(Debug, Clone)]
pub struct Location {
    pub lat: i64,
    pub lon: i64,
    pub label: String,
}

/// The weather now. Fractional readings are in thousandths.
#[derive(Debug, Clone)]
pub struct Current {
    pub dt: i64,
    pub temp: i64,
    pub feels_like: Option<i64>,
    pub pressure: Option<i64>,
    pub humidity: Option<u8>,
    pub uvi: Option<i64>,
    /// Metres.
    pub visibility: Option<u32>,
    pub wind_speed: Option<i64>,
    pub wind_deg: Option<i64>,
    pub sunrise: Option<i64>,
    pub sunset: Option<i64>,
    pub weather: Vec<WeatherDesc>,
}

/// Temperatures of a day, in thousandths of a degree.
#[derive(Debug, Clone)]
pub struct TempRange {
    pub day: Option<i64>,
    pub min: Option<i64>,
    pub max: Option<i64>,
}

/// One day of forecast.
#[derive(Debug, Clone)]
pub struct Daily {
    pub dt: i64,
    pub sunrise: Option<i64>,
    pub sunset: Option<i64>,
    pub temp: TempRange,
    pub pressure: Option<i64>,
    pub humidity: Option<u8>,
    pub uvi: Option<i64>,
    pub pop: Option<i64>,
    pub weather: Vec<WeatherDesc>,
}

/// What the weather service answers.
#[derive(Debug, Clone)]
pub struct ApiResponse {
    pub timezone_offset: i64,
    pub current: Current,
    pub hourly: Vec<Hourly>,
    pub daily: Vec<Daily>,
}

/// A sample whose temperature and timestamp are within the limits.
pub open spec fn valid_sample(h: Hourly) -> bool {
    &&& -TEMP_LIMIT <= h.temp <= TEMP_LIMIT
    &&& -TIME_LIMIT <= h.dt <= TIME_LIMIT
}

/// A series of valid samples.
pub open spec fn valid_series(s: Seq<Hourly>) -> bool {
    forall|i: int| 0 <= i < s.len() ==> valid_sample(#[trigger] s[i])
}

/// A series without samples is valid: nothing that takes a valid series
/// rules out the empty one.
pub proof fn lemma_empty_series_valid()
    ensures
        valid_series(Seq::<Hourly>::empty()),
{
}

/// Probability of precipitation of a sample, an absent one counting as zero,
/// brought into `0..=1000`.
pub open spec fn pop_of(h: Hourly) -> int {
    match h.pop {
        Some(p) => if p < 0 {
            0
        } else if p > 1000 {
            1000
        } else {
            p as int
        },
        None => 0,
    }
}

/// Whether every sample of `data` is within the limits.
pub fn is_valid_series(data: &[Hourly]) -> (ok: bool)
    ensures
        ok == valid_series(data@),
{
    let mut i: usize = 0;
    while i < data.len()
        invariant
            i <= data.len(),
            forall|j: int| 0 <= j < i ==> valid_sample(#[trigger] data@[j]),
        decreases data.len() - i,
    {
        let h = &data[i];
        if h.temp < -TEMP_LIMIT || h.temp > TEMP_LIMIT || h.dt < -TIME_LIMIT || h.dt > TIME_LIMIT {
            assert(!valid_sample(data@[i as int]));
            return false;
        }
        i += 1;
    }
    true
}

/// Probability of precipitation of a sample in thousandths, clamped.
pub fn clamped_pop(h: &Hourly) -> (p: i64)
    ensures
        p == pop_of(*h),
        0 <= p <= 1000,
{
    match h.pop {
        Some(p) => if p < 0 {
            0
        } else if p > 1000 {
            1000
        } else {
            p
        },
        None => 0,
    }
}

/// A timestamp within the limit.
pub open spec fn time_ok(t: i64) -> bool {
    -TIME_LIMIT <= t <= TIME_LIMIT
}

/// A timestamp within the limit, or none.
pub open spec fn opt_time_ok(t: Option<i64>) -> bool {
    match t {
        Some(t) => time_ok(t),
        None => true,
    }
}

/// A reading in thousandths within the limit that holds for temperatures.
pub open spec fn reading_ok(v: i64) -> bool {
    -TEMP_LIMIT <= v <= TEMP_LIMIT
}

/// A reading within the limit, or none.
pub open spec fn opt_reading_ok(v: Option<i64>) -> bool {
    match v {
        Some(v) => reading_ok(v),
        None => true,
    }
}

/// Present weather whose times and readings are within the limits.
pub open spec fn valid_current(c: Current) -> bool {
    &&& time_ok(c.dt)
    &&& reading_ok(c.temp)
    &&& opt_reading_ok(c.feels_like)
    &&& opt_reading_ok(c.uvi)
    &&& opt_reading_ok(c.wind_speed)
    &&& opt_time_ok(c.sunrise)
    &&& opt_time_ok(c.sunset)
}

/// A day whose times and temperatures are within the limits.
pub open spec fn valid_day(d: Daily) -> bool {
    &&& time_ok(d.dt)
    &&& opt_time_ok(d.sunrise)
    &&& opt_time_ok(d.sunset)
    &&& opt_reading_ok(d.temp.day)
    &&& opt_reading_ok(d.temp.min)
    &&& opt_reading_ok(d.temp.max)
}

/// Days that are all valid.
pub open spec fn valid_days(s: Seq<Daily>) -> bool {
    forall|i: int| 0 <= i < s.len() ==> valid_day(#[trigger] s[i])
}

/// An answer whose offset, times and readings are all within the limits.
pub open spec fn valid_response(r: ApiResponse) -> bool {
    &&& -OFFSET_LIMIT <= r.timezone_offset <= OFFSET_LIMIT
    &&& valid_current(r.current)
    &&& valid_series(r.hourly@)
    &&& valid_days(r.daily@)
}

fn time_in_limit(t: i64) -> (ok: bool)
    ensures
        ok == time_ok(t),
{
    -TIME_LIMIT <= t && t <= TIME_LIMIT
}

fn opt_time_in_limit(t: Option<i64>) -> (ok: bool)
    ensures
        ok == opt_time_ok(t),
{
    match t {
        Some(t) => time_in_limit(t),
        None => true,
    }
}

fn opt_reading_in_limit(v: Option<i64>) -> (ok: bool)
    ensures
        ok == opt_reading_ok(v),
{
    match v {
        Some(v) => -TEMP_LIMIT <= v && v <= TEMP_LIMIT,
        None => true,
    }
}

/// Whether every time and reading of the answer is within the limits.
pub fn is_valid_response(r: &ApiResponse) -> (ok: bool)
    ensures
        ok == valid_response(*r),
{
    if r.timezone_offset < -OFFSET_LIMIT || r.timezone_offset > OFFSET_LIMIT {
        return false;
    }
    let c = &r.current;
    if !(time_in_limit(c.dt) && -TEMP_LIMIT <= c.temp && c.temp <= TEMP_LIMIT
        && opt_reading_in_limit(c.feels_like) && opt_reading_in_limit(c.uvi)
        && opt_reading_in_limit(c.wind_speed) && opt_time_in_limit(c.sunrise)
        && opt_time_in_limit(c.sunset)) {
        return false;
    }
    if !is_valid_series(r.hourly.as_slice()) {
        return false;
    }
    let mut i: usize = 0;
    while i < r.daily.len()
        invariant
            i <= r.daily.len(),
            forall|j: int| 0 <= j < i ==> valid_day(#[trigger] r.daily@[j]),
        decreases r.daily.len() - i,
    {
        let d = &r.daily[i];
        if !(time_in_limit(d.dt) && opt_time_in_limit(d.sunrise) && opt_time_in_limit(d.sunset)
            && opt_reading_in_limit(d.temp.day) && opt_reading_in_limit(d.temp.min)
            && opt_reading_in_limit(d.temp.max)) {
            assert(!valid_day(r.daily@[i as int]));
            return false;
        }
        i += 1;
    }
    true
}

/// A number brought within `-limit ..= limit`.
pub open spec fn limited(v: i64, limit: i64) -> i64 {
    clamp_int(v as int, -limit, limit as int) as i64
}

/// A number brought within `-limit ..= limit`, or none.
pub open spec fn opt_limited(v: Option<i64>, limit: i64) -> Option<i64> {
    match v {
        Some(v) => Some(limited(v, limit)),
        None => None,
    }
}

/// The sample with its time and its temperature brought within the limits.
pub open spec fn sample_within(h: Hourly) -> Hourly {
    Hourly { dt: limited(h.dt, TIME_LIMIT), temp: limited(h.temp, TEMP_LIMIT), ..h }
}

/// The present weather with its times and readings brought within the limits.
pub open spec fn current_within(c: Current) -> Current {
    Current {
        dt: limited(c.dt, TIME_LIMIT),
        temp: limited(c.temp, TEMP_LIMIT),
        feels_like: opt_limited(c.feels_like, TEMP_LIMIT),
        uvi: opt_limited(c.uvi, TEMP_LIMIT),
        wind_speed: opt_limited(c.wind_speed, TEMP_LIMIT),
        sunrise: opt_limited(c.sunrise, TIME_LIMIT),
        sunset: opt_limited(c.sunset, TIME_LIMIT),
        ..c
    }
}

/// The day with its times and temperatures brought within the limits.
pub open spec fn day_within(d: Daily) -> Daily {
    Daily {
        dt: limited(d.dt, TIME_LIMIT),
        sunrise: opt_limited(d.sunrise, TIME_LIMIT),
        sunset: opt_limited(d.sunset, TIME_LIMIT),
        temp: TempRange {
            day: opt_limited(d.temp.day, TEMP_LIMIT),
            min: opt_limited(d.temp.min, TEMP_LIMIT),
            max: opt_limited(d.temp.max, TEMP_LIMIT),
        },
        ..d
    }
}

/// A number brought within `-limit ..= limit`.
fn limit_to(v: i64, limit: i64) -> (r: i64)
    requires
        0 <= limit,
    ensures
        r == limited(v, limit),
        -limit <= r <= limit,
        -limit <= v <= limit ==> r == v,
{
    clamp(v, -limit, limit)
}

/// A number brought within `-limit ..= limit`, or none.
fn opt_limit_to(v: Option<i64>, limit: i64) -> (r: Option<i64>)
    requires
        0 <= limit,
    ensures
        r == opt_limited(v, limit),
{
    match v {
        Some(v) => Some(limit_to(v, limit)),
        None => None,
    }
}

/// The sample with its time and its temperature brought within the limits;
/// a valid sample comes back as it is.
pub fn clamped_sample(h: Hourly) -> (c: Hourly)
    ensures
        c == sample_within(h),
        valid_sample(c),
        valid_sample(h) ==> c == h,
{
    let dt = limit_to(h.dt, TIME_LIMIT);
    let temp = limit_to(h.temp, TEMP_LIMIT);
    Hourly { dt, temp, ..h }
}

/// The series with every sample brought within the limits.
pub fn clamped_series(data: Vec<Hourly>) -> (out: Vec<Hourly>)
    ensures
        out@ == data@.map_values(|h: Hourly| sample_within(h)),
        valid_series(out@),
        valid_series(data@) ==> out@ == data@,
{
    let mut out: Vec<Hourly> = Vec::new();
    for h in it: data.into_iter()
        invariant
            it.seq() == data@,
            out.len() == it.index(),
            forall|j: int| 0 <= j < out.len() ==> out@[j] == sample_within(data@[j]),
            forall|j: int| 0 <= j < out.len() ==> valid_sample(#[trigger] out@[j]),
    {
        out.push(clamped_sample(h));
    }
    assert(out@ =~= data@.map_values(|h: Hourly| sample_within(h)));
    proof {
        if valid_series(data@) {
            assert forall|j: int| 0 <= j < out.len() implies out@[j] == data@[j] by {
                assert(valid_sample(data@[j]));
            }
            assert(out@ =~= data@);
        }
    }
    out
}

/// The answer with its offset, times and readings brought within the limits.
pub fn clamped_response(r: ApiResponse) -> (out: ApiResponse)
    ensures
        valid_response(out),
        out.timezone_offset == limited(r.timezone_offset, OFFSET_LIMIT),
        out.current == current_within(r.current),
        out.hourly@ == r.hourly@.map_values(|h: Hourly| sample_within(h)),
        out.daily@ == r.daily@.map_values(|d: Daily| day_within(d)),
{
    let ApiResponse { timezone_offset, current, hourly, daily } = r;
    let current = Current {
        dt: limit_to(current.dt, TIME_LIMIT),
        temp: limit_to(current.temp, TEMP_LIMIT),
        feels_like: opt_limit_to(current.feels_like, TEMP_LIMIT),
        uvi: opt_limit_to(current.uvi, TEMP_LIMIT),
        wind_speed: opt_limit_to(current.wind_speed, TEMP_LIMIT),
        sunrise: opt_limit_to(current.sunrise, TIME_LIMIT),
        sunset: opt_limit_to(current.sunset, TIME_LIMIT),
        ..current
    };
    let mut days: Vec<Daily> = Vec::new();
    for d in it: daily.into_iter()
        invariant
            it.seq() == daily@,
            days.len() == it.index(),
            forall|j: int| 0 <= j < days.len() ==> days@[j] == day_within(daily@[j]),
            forall|j: int| 0 <= j < days.len() ==> valid_day(#[trigger] days@[j]),
    {
        let day = Daily {
            dt: limit_to(d.dt, TIME_LIMIT),
            sunrise: opt_limit_to(d.sunrise, TIME_LIMIT),
            sunset: opt_limit_to(d.sunset, TIME_LIMIT),
            temp: TempRange {
                day: opt_limit_to(d.temp.day, TEMP_LIMIT),
                min: opt_limit_to(d.temp.min, TEMP_LIMIT),
                max: opt_limit_to(d.temp.max, TEMP_LIMIT),
            },
            ..d
        };
        days.push(day);
    }
    assert(days@ =~= daily@.map_values(|d: Daily| day_within(d)));
    ApiResponse {
        timezone_offset: limit_to(timezone_offset, OFFSET_LIMIT),
        current,
        hourly: clamped_series(hourly),
        daily: days,
    }
}

} // verus!
