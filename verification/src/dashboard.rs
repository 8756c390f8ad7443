//! What the dashboard shows beside the chart: the readings of its four
//! gauges with their captions, the cards of the coming hours and days, and
//! the colour that a temperature is written in.

use vstd::prelude::*;
use vstd::string::StringExecFns;
use vstd::string::StrSliceExecFns;
use crate::clock::day_number;
use crate::clock::day_of;
use crate::clock::fmt_time;
use crate::clock::formatted_time;
use crate::clock::pattern_from;
use crate::clock::time_pattern;
use crate::config::Units;
use crate::fixed::clamp;
use crate::fixed::clamp_int;
use crate::fixed::lemma_div_bounds;
use crate::fixed::mul_div;
use crate::fixed::mul_div_floor;
use crate::formatting::or_zero;
use crate::formatting::speed_unit;
use crate::formatting::temp_unit;
use crate::text::decimal;
use crate::text::div_half_even;
use crate::text::one_decimal;
use crate::text::percent;
use crate::text::percent_of;
use crate::text::percent_rounded;
use crate::text::push_decimal;
use crate::text::push_one_decimal;
use crate::text::push_rounded;
use crate::text::push_signed;
use crate::text::push_tenths;
use crate::text::round_half_even;
use crate::text::round_tenth;
use crate::text::rounded_label;
use crate::text::signed_decimal;
use crate::text::tenths_label;
use crate::utils::deg_to_dir;
use crate::utils::sector;
use crate::utils::sector_name;
use crate::weather::opt_time_ok;
use crate::weather::time_ok;
use crate::weather::valid_current;
use crate::weather::valid_day;
use crate::weather::valid_days;
use crate::weather::ApiResponse;
use crate::weather::Current;
use crate::weather::Daily;
use crate::weather::WeatherDesc;
use crate::weather::OFFSET_LIMIT;

verus! {

/// UV index, in thousandths, at which the UV gauge is full.
pub const MAX_UVI: i64 = 11_000;

/// Humidity in per cent from which on the air feels muggy.
pub const HUMIDITY_MUGGY: u8 = 70;

/// Humidity in per cent from which on the air is comfortable.
pub const HUMIDITY_COMFORTABLE: u8 = 40;

/// Fewest and most days that the daily section shows.
pub const FEWEST_DAYS: usize = 5;

pub const MOST_DAYS: usize = 12;

/// What a gauge shows: a value, the text in its middle, the caption below it
/// and the detail for its tooltip. The value of an arc gauge is in
/// thousandths of a full arc, that of the compass in degrees.
#[derive(Debug, Clone)]
pub struct GaugeReading {
    pub value: i64,
    pub text: String,
    pub caption: String,
    pub detail: String,
}

/// Five times the temperature in thousandths of a degree Fahrenheit.
pub open spec fn fahrenheit_fifths(temp: int, units: Units) -> int {
    match units {
        Units::Metric => 9 * temp + 160_000,
        Units::Imperial => 5 * temp,
    }
}

/// The colour that a temperature is written in: cyan below freezing, indigo
/// below 50 °F, yellow below 70 °F, orange below 85 °F, and red from there on.
pub open spec fn heat_color(temp: int, units: Units) -> Seq<char> {
    let f = fahrenheit_fifths(temp, units);
    if f < 160_000 {
        "#7dd3fc"@
    } else if f < 250_000 {
        "#818cf8"@
    } else if f < 350_000 {
        "#fbbf24"@
    } else if f < 425_000 {
        "#f97316"@
    } else {
        "#ef4444"@
    }
}

/// Sunrise and sunset both, or none.
pub open spec fn both(rise: Option<i64>, set: Option<i64>) -> Option<(i64, i64)> {
    match (rise, set) {
        (Some(r), Some(s)) => Some((r, s)),
        _ => None,
    }
}

/// Sunrise and sunset of the first day from `i` on that falls on the day
/// `bucket` and has both.
pub open spec fn sun_from(daily: Seq<Daily>, tz: int, bucket: int, i: int) -> Option<(i64, i64)>
    decreases daily.len() - i,
{
    if i < 0 || i >= daily.len() {
        None
    } else if day_of(daily[i].dt + tz) == bucket && both(daily[i].sunrise, daily[i].sunset)
        is Some {
        both(daily[i].sunrise, daily[i].sunset)
    } else {
        sun_from(daily, tz, bucket, i + 1)
    }
}

/// Sunrise and sunset for the day that the time `dt` falls on: those of the
/// first forecast day on that day that has both, else those of the present.
pub open spec fn sun_window(dt: int, data: ApiResponse) -> Option<(i64, i64)> {
    match sun_from(
        data.daily@,
        data.timezone_offset as int,
        day_of(dt + data.timezone_offset),
        0,
    ) {
        Some(w) => Some(w),
        None => both(data.current.sunrise, data.current.sunset),
    }
}

/// Humidity in per cent; 0 for none.
pub open spec fn humidity_of(h: Option<u8>) -> int {
    match h {
        Some(h) => h as int,
        None => 0,
    }
}

/// What the air feels like at a humidity.
pub open spec fn humidity_note(h: int) -> Seq<char> {
    if h >= HUMIDITY_MUGGY {
        "Feels muggy"@
    } else if h >= HUMIDITY_COMFORTABLE {
        "Comfortable"@
    } else {
        "Dry air"@
    }
}

/// What to do about a UV index in thousandths.
pub open spec fn uv_note(uvi: int) -> Seq<char> {
    if uvi >= 8000 {
        "Very high - protect skin"@
    } else if uvi >= 6000 {
        "High - limit midday sun"@
    } else if uvi >= 3000 {
        "Moderate UV"@
    } else {
        "Low UV risk"@
    }
}

/// Whether the sun's times make a day: both given, and the set after the rise.
pub open spec fn has_daylight(rise: int, set: int) -> bool {
    rise > 0 && set > 0 && set > rise
}

/// Share of the daylight that has passed at `dt`, in thousandths.
pub open spec fn daylight_progress(dt: int, rise: int, set: int) -> int {
    if rise > 0 && set > rise {
        clamp_int(mul_div(dt - rise, 1000, set - rise), 0, 1000)
    } else {
        0
    }
}

/// A span of seconds in hours with one decimal place.
pub open spec fn hours_label(secs: int) -> Seq<char> {
    one_decimal(round_half_even(secs, 360) as nat)
}

/// The text in the middle of the daylight gauge.
pub open spec fn daylight_text(dt: int, rise: int, set: int) -> Seq<char> {
    if rise == 0 || set == 0 || set <= rise {
        "—"@
    } else if dt < rise {
        hours_label(rise - dt) + "h to dawn"@
    } else if dt > set {
        "Night"@
    } else {
        hours_label(set - dt) + "h"@
    }
}

/// The caption of the daylight gauge.
pub open spec fn daylight_caption(rise: int, set: int, tz: int) -> Seq<char> {
    if has_daylight(rise, set) {
        "↑ "@ + formatted_time(rise, tz, "%I:%M %p"@) + "  |  ↓ "@ + formatted_time(
            set,
            tz,
            "%I:%M %p"@,
        )
    } else {
        "Sun times unavailable"@
    }
}

/// The tooltip of a gauge's card.
pub open spec fn card_tooltip(title: Seq<char>, caption: Seq<char>, detail: Seq<char>) -> Seq<char> {
    if detail.len() == 0 {
        title + " • "@ + caption
    } else {
        title + " • "@ + caption + " • "@ + detail
    }
}

/// Number of days that the daily section shows for a setting.
pub open spec fn days_shown(setting: int) -> int {
    clamp_int(setting, FEWEST_DAYS as int, MOST_DAYS as int)
}

/// The temperatures of a day's card: the high in its colour, large, and the
/// low in pale blue.
pub open spec fn day_markup(hi: int, lo: int, units: Units) -> Seq<char> {
    "<span foreground='"@ + heat_color(crate::text::round_units(hi) * 1000, units)
        + "' weight='bold' size='x-large'>"@ + rounded_label(hi)
        + "°</span><span foreground='#93c5fd' weight='light'> / </span><span foreground='#93c5fd' size='medium'>"@
        + rounded_label(lo) + "°</span>"@
}

/// The style class that gives card `index` its glow.
pub open spec fn neon_class(index: int) -> Seq<char> {
    "tokyo-card-neon-"@ + decimal((index % 6) as nat)
}

/// The present temperature in its colour.
pub open spec fn hero_markup(temp: int, units: Units) -> Seq<char> {
    "<span foreground='"@ + heat_color(temp, units) + "'>"@ + rounded_label(temp) + temp_unit(units)
        + "</span>"@
}

/// The line that says how the temperature feels.
pub open spec fn feels_line(c: Current, units: Units) -> Seq<char> {
    "Feels like "@ + rounded_label(
        match c.feels_like {
            Some(f) => f as int,
            None => c.temp as int,
        },
    ) + temp_unit(units)
}

/// The patterns that the dashboard formats times with are ones that the
/// formatter accepts.
pub proof fn lemma_dashboard_patterns()
    ensures
        time_pattern("%I:%M %p"@),
        time_pattern("%H:%M"@),
        time_pattern("%a"@),
        time_pattern("%A, %B %d %Y"@),
{
    reveal_strlit("%I:%M %p");
    reveal_strlit("%H:%M");
    reveal_strlit("%a");
    reveal_strlit("%A, %B %d %Y");
    reveal_with_fuel(pattern_from, 14);
}

/// The colour that a temperature in thousandths of a degree is written in.
pub fn get_temp_color(temp: i64, units: Units) -> (color: &'static str)
    ensures
        color@ == heat_color(temp as int, units),
{
    let f: i128 = match units {
        Units::Metric => 9 * (temp as i128) + 160_000,
        Units::Imperial => 5 * (temp as i128),
    };
    if f < 160_000 {
        "#7dd3fc"
    } else if f < 250_000 {
        "#818cf8"
    } else if f < 350_000 {
        "#fbbf24"
    } else if f < 425_000 {
        "#f97316"
    } else {
        "#ef4444"
    }
}

/// Sunrise and sunset both, or none.
fn zip(rise: Option<i64>, set: Option<i64>) -> (w: Option<(i64, i64)>)
    ensures
        w == both(rise, set),
{
    match (rise, set) {
        (Some(r), Some(s)) => Some((r, s)),
        _ => None,
    }
}

/// Sunrise and sunset for the day that the time `dt` falls on.
pub fn sun_window_for(dt: i64, data: &ApiResponse) -> (window: Option<(i64, i64)>)
    requires
        time_ok(dt),
        -OFFSET_LIMIT <= data.timezone_offset <= OFFSET_LIMIT,
        valid_days(data.daily@),
    ensures
        window == sun_window(dt as int, *data),
{
    let bucket: i64 = day_number(dt, data.timezone_offset);
    let mut i: usize = 0;
    while i < data.daily.len()
        invariant
            -OFFSET_LIMIT <= data.timezone_offset <= OFFSET_LIMIT,
            valid_days(data.daily@),
            bucket == day_of(dt + data.timezone_offset),
            i <= data.daily.len(),
            sun_from(data.daily@, data.timezone_offset as int, bucket as int, 0) == sun_from(
                data.daily@,
                data.timezone_offset as int,
                bucket as int,
                i as int,
            ),
        decreases data.daily.len() - i,
    {
        let d = &data.daily[i];
        assert(valid_day(data.daily@[i as int]));
        if day_number(d.dt, data.timezone_offset) == bucket {
            match zip(d.sunrise, d.sunset) {
                Some(w) => {
                    return Some(w);
                },
                None => {},
            }
        }
        i += 1;
    }
    zip(data.current.sunrise, data.current.sunset)
}

/// The humidity gauge: full at 100 %.
pub fn humidity_gauge(humidity: Option<u8>) -> (g: GaugeReading)
    ensures
        g.value == clamp_int(humidity_of(humidity) * 10, 0, 1000),
        g.text@ == decimal(humidity_of(humidity) as nat) + "%"@,
        g.caption@ == humidity_note(humidity_of(humidity)),
        g.detail@ == "Rel. humidity: "@ + decimal(humidity_of(humidity) as nat) + "%"@,
{
    let h: u8 = match humidity {
        Some(h) => h,
        None => 0,
    };
    let mut text = String::new();
    push_decimal(&mut text, h as u64);
    text.append("%");
    let caption = if h >= HUMIDITY_MUGGY {
        "Feels muggy"
    } else if h >= HUMIDITY_COMFORTABLE {
        "Comfortable"
    } else {
        "Dry air"
    };
    let mut detail = String::from_str("Rel. humidity: ");
    push_decimal(&mut detail, h as u64);
    detail.append("%");
    assert(text@ =~= decimal(h as nat) + "%"@);
    assert(detail@ =~= "Rel. humidity: "@ + decimal(h as nat) + "%"@);
    GaugeReading {
        value: clamp(h as i64 * 10, 0, 1000),
        text,
        caption: String::from_str(caption),
        detail,
    }
}

/// The UV gauge: full at an index of 11.
pub fn uv_gauge(uvi: Option<i64>) -> (g: GaugeReading)
    requires
        crate::weather::opt_reading_ok(uvi),
    ensures
        g.value == clamp_int(mul_div(or_zero(uvi), 1000, MAX_UVI as int), 0, 1000),
        g.text@ == tenths_label(or_zero(uvi)),
        g.caption@ == uv_note(or_zero(uvi)),
        g.detail@ == "UV "@ + tenths_label(or_zero(uvi)),
{
    let u: i64 = match uvi {
        Some(u) => u,
        None => 0,
    };
    let mut text = String::new();
    push_tenths(&mut text, u);
    let caption = if u >= 8000 {
        "Very high - protect skin"
    } else if u >= 6000 {
        "High - limit midday sun"
    } else if u >= 3000 {
        "Moderate UV"
    } else {
        "Low UV risk"
    };
    let mut detail = String::from_str("UV ");
    push_tenths(&mut detail, u);
    proof {
        lemma_div_bounds(u * 1000, MAX_UVI as int);
    }
    let share: i64 = mul_div_floor(u, 1000, MAX_UVI);
    assert(text@ =~= tenths_label(u as int));
    assert(detail@ =~= "UV "@ + tenths_label(u as int));
    GaugeReading {
        value: clamp(share, 0, 1000),
        text,
        caption: String::from_str(caption),
        detail,
    }
}

/// The wind gauge: a compass that points where the wind comes from.
pub fn wind_gauge(wind_speed: Option<i64>, wind_deg: Option<i64>, units: Units) -> (g: GaugeReading)
    requires
        crate::weather::opt_reading_ok(wind_speed),
    ensures
        g.value == or_zero(wind_deg),
        g.text@ == rounded_label(or_zero(wind_speed)) + " "@ + speed_unit(units),
        g.caption@ == sector_name(sector(or_zero(wind_deg))) + " winds"@,
        g.detail@ == rounded_label(or_zero(wind_speed)) + " "@ + speed_unit(units) + " @ "@
            + signed_decimal(or_zero(wind_deg)) + "°"@,
{
    let speed: i64 = match wind_speed {
        Some(s) => s,
        None => 0,
    };
    let degrees: i64 = match wind_deg {
        Some(d) => d,
        None => 0,
    };
    let unit = match units {
        Units::Imperial => "mph",
        Units::Metric => "m/s",
    };
    let mut text = String::new();
    push_rounded(&mut text, speed);
    text.append(" ");
    text.append(unit);
    let mut caption = deg_to_dir(wind_deg);
    caption.append(" winds");
    let mut detail = text.clone();
    detail.append(" @ ");
    push_signed(&mut detail, degrees);
    detail.append("°");
    assert(text@ =~= rounded_label(speed as int) + " "@ + speed_unit(units));
    assert(detail@ =~= rounded_label(speed as int) + " "@ + speed_unit(units) + " @ "@
        + signed_decimal(degrees as int) + "°"@);
    GaugeReading { value: degrees, text, caption, detail }
}

/// A span of seconds in hours with one decimal place.
fn push_hours(out: &mut String, secs: i64)
    requires
        0 <= secs,
    ensures
        final(out)@ == old(out)@ + hours_label(secs as int),
{
    push_one_decimal(out, div_half_even(secs as u64, 360));
}

/// The daylight gauge: how much of the day between sunrise and sunset has
/// passed, and how long the light lasts or is in coming.
pub fn daylight_gauge(current: &Current, tz_offset: i64) -> (g: GaugeReading)
    requires
        valid_current(*current),
        -OFFSET_LIMIT <= tz_offset <= OFFSET_LIMIT,
    ensures
        g.value == daylight_progress(
            current.dt as int,
            or_zero(current.sunrise),
            or_zero(current.sunset),
        ),
        g.text@ == daylight_text(
            current.dt as int,
            or_zero(current.sunrise),
            or_zero(current.sunset),
        ),
        g.caption@ == daylight_caption(
            or_zero(current.sunrise),
            or_zero(current.sunset),
            tz_offset as int,
        ),
        g.detail@ == "Sun progress"@,
{
    let rise: i64 = match current.sunrise {
        Some(t) => t,
        None => 0,
    };
    let set: i64 = match current.sunset {
        Some(t) => t,
        None => 0,
    };
    let dt: i64 = current.dt;
    proof {
        lemma_dashboard_patterns();
    }
    let caption = if rise > 0 && set > 0 && set > rise {
        let mut s = String::from_str("↑ ");
        s.append(fmt_time(rise, tz_offset, "%I:%M %p").as_str());
        s.append("  |  ↓ ");
        s.append(fmt_time(set, tz_offset, "%I:%M %p").as_str());
        assert(s@ =~= daylight_caption(rise as int, set as int, tz_offset as int));
        s
    } else {
        String::from_str("Sun times unavailable")
    };
    let value: i64 = if rise > 0 && set > rise {
        proof {
            let span = set - rise;
            let part = (dt - rise) * 1000;
            assert(-16_000_000_000_000_000 <= part <= 16_000_000_000_000_000);
            lemma_div_bounds(part, span);
        }
        clamp(mul_div_floor(dt - rise, 1000, set - rise), 0, 1000)
    } else {
        0
    };
    let mut text = String::new();
    if rise == 0 || set == 0 || set <= rise {
        text.append("—");
    } else if dt < rise {
        push_hours(&mut text, rise - dt);
        text.append("h to dawn");
    } else if dt > set {
        text.append("Night");
    } else {
        push_hours(&mut text, set - dt);
        text.append("h");
    }
    assert(text@ =~= daylight_text(dt as int, rise as int, set as int));
    GaugeReading { value, text, caption, detail: String::from_str("Sun progress") }
}

/// The tooltip of a gauge's card: its title, its caption and, where there
/// is one, its detail.
pub fn gauge_tooltip(title: &str, caption: &str, detail: &str) -> (tip: String)
    ensures
        tip@ == card_tooltip(title@, caption@, detail@),
{
    let mut tip = String::from_str(title);
    tip.append(" • ");
    tip.append(caption);
    if detail.unicode_len() > 0 {
        tip.append(" • ");
        tip.append(detail);
    }
    assert(tip@ =~= card_tooltip(title@, caption@, detail@));
    tip
}

/// Number of days that the daily section shows: the setting, but five at
/// least and twelve at most.
pub fn shown_days(forecast_days: usize) -> (n: usize)
    ensures
        n == days_shown(forecast_days as int),
{
    if forecast_days < FEWEST_DAYS {
        FEWEST_DAYS
    } else if forecast_days > MOST_DAYS {
        MOST_DAYS
    } else {
        forecast_days
    }
}

/// The temperatures of a day's card.
pub fn day_card_markup(hi: i64, lo: i64, units: Units) -> (markup: String)
    requires
        crate::weather::reading_ok(hi),
        crate::weather::reading_ok(lo),
    ensures
        markup@ == day_markup(hi as int, lo as int, units),
{
    let whole: i64 = if hi >= 0 {
        (hi + 500) / 1000
    } else {
        -((-hi + 500) / 1000)
    };
    let mut markup = String::from_str("<span foreground='");
    markup.append(get_temp_color(whole * 1000, units));
    markup.append("' weight='bold' size='x-large'>");
    push_rounded(&mut markup, hi);
    markup.append(
        "°</span><span foreground='#93c5fd' weight='light'> / </span><span foreground='#93c5fd' size='medium'>",
    );
    push_rounded(&mut markup, lo);
    markup.append("°</span>");
    assert(markup@ =~= day_markup(hi as int, lo as int, units));
    markup
}

/// The style class that gives the card at `index` its glow; there are six.
pub fn card_neon_class(index: usize) -> (class: String)
    ensures
        class@ == neon_class(index as int),
{
    let mut class = String::from_str("tokyo-card-neon-");
    push_decimal(&mut class, (index % 6) as u64);
    class
}

/// The chance of precipitation on a day's card, where it is above zero.
pub fn day_pop_badge(pop: Option<i64>) -> (badge: Option<String>)
    ensures
        or_zero(pop) <= 0 ==> badge is None,
        or_zero(pop) > 0 ==> badge is Some && badge->0@ == decimal(
            round_tenth(or_zero(pop)) as nat,
        ) + "%"@,
{
    let p: i64 = match pop {
        Some(p) => p,
        None => 0,
    };
    if p > 0 {
        let mut s = String::new();
        push_decimal(&mut s, percent_rounded(p) as u64);
        s.append("%");
        assert(s@ =~= decimal(round_tenth(p as int) as nat) + "%"@);
        Some(s)
    } else {
        None
    }
}

/// The chance of precipitation on an hour's card, where it is above zero.
pub fn hour_pop_badge(pop: Option<i64>) -> (badge: Option<String>)
    ensures
        or_zero(pop) <= 0 ==> badge is None,
        or_zero(pop) > 0 ==> badge is Some && badge->0@ == "POP "@ + decimal(
            percent_of(or_zero(pop)) as nat,
        ) + "%"@,
{
    let p: i64 = match pop {
        Some(p) => p,
        None => 0,
    };
    if p > 0 {
        let mut s = String::from_str("POP ");
        push_decimal(&mut s, percent(p) as u64);
        s.append("%");
        assert(s@ =~= "POP "@ + decimal(percent_of(p as int) as nat) + "%"@);
        Some(s)
    } else {
        None
    }
}

/// Whether the list of hours gets a separator before the hour at `dt`: the
/// hour before it, at `prev`, fell on another day.
pub fn starts_new_day(prev: Option<i64>, dt: i64, tz_offset: i64) -> (split: bool)
    requires
        opt_time_ok(prev),
        time_ok(dt),
        -OFFSET_LIMIT <= tz_offset <= OFFSET_LIMIT,
    ensures
        split == match prev {
            Some(p) => day_of(p + tz_offset) != day_of(dt + tz_offset),
            None => false,
        },
{
    match prev {
        Some(p) => day_number(p, tz_offset) != day_number(dt, tz_offset),
        None => false,
    }
}

/// The present temperature in its colour.
pub fn current_temp_markup(temp: i64, units: Units) -> (markup: String)
    requires
        crate::weather::reading_ok(temp),
    ensures
        markup@ == hero_markup(temp as int, units),
{
    let mut markup = String::from_str("<span foreground='");
    markup.append(get_temp_color(temp, units));
    markup.append("'>");
    push_rounded(&mut markup, temp);
    markup.append(
        match units {
            Units::Imperial => "°F",
            Units::Metric => "°C",
        },
    );
    markup.append("</span>");
    assert(markup@ =~= hero_markup(temp as int, units));
    markup
}

/// The line that says how the temperature feels; the temperature itself
/// where the answer does not say.
pub fn feels_like_text(current: &Current, units: Units) -> (line: String)
    requires
        valid_current(*current),
    ensures
        line@ == feels_line(*current, units),
{
    let feels: i64 = match current.feels_like {
        Some(f) => f,
        None => current.temp,
    };
    let mut line = String::from_str("Feels like ");
    push_rounded(&mut line, feels);
    line.append(
        match units {
            Units::Imperial => "°F",
            Units::Metric => "°C",
        },
    );
    assert(line@ =~= feels_line(*current, units));
    line
}

/// The date in the dashboard's header.
pub fn header_date(dt: i64, tz_offset: i64) -> (date: String)
    requires
        time_ok(dt),
        -OFFSET_LIMIT <= tz_offset <= OFFSET_LIMIT,
    ensures
        date@ == formatted_time(dt as int, tz_offset as int, "%A, %B %d %Y"@),
{
    proof {
        lemma_dashboard_patterns();
    }
    fmt_time(dt, tz_offset, "%A, %B %d %Y")
}

/// A temperature in whole degrees with the degree sign.
pub fn degrees_label(temp: i64) -> (label: String)
    requires
        crate::weather::reading_ok(temp),
    ensures
        label@ == rounded_label(temp as int) + "°"@,
{
    let mut label = String::new();
    push_rounded(&mut label, temp);
    label.append("°");
    label
}

/// The weekday of a day's card, in capitals.
pub fn day_label(dt: i64, tz_offset: i64) -> (label: String)
    requires
        time_ok(dt),
        -OFFSET_LIMIT <= tz_offset <= OFFSET_LIMIT,
    ensures
        label@ == crate::utils::uppercase(formatted_time(dt as int, tz_offset as int, "%a"@)),
{
    proof {
        lemma_dashboard_patterns();
    }
    crate::utils::to_upper(fmt_time(dt, tz_offset, "%a").as_str())
}

/// The highest and the lowest temperature of a day: its maximum, else its
/// day temperature, else 0; and its minimum, else 0.
pub fn daily_high_low(d: &Daily) -> (r: (i64, i64))
    ensures
        r.0 == crate::formatting::day_high(*d),
        r.1 == or_zero(d.temp.min),
{
    let hi: i64 = match d.temp.max {
        Some(t) => t,
        None => match d.temp.day {
            Some(t) => t,
            None => 0,
        },
    };
    let lo: i64 = match d.temp.min {
        Some(t) => t,
        None => 0,
    };
    (hi, lo)
}

/// What the present weather is called: the name of the condition, else its
/// description, else nothing.
pub fn condition_title(desc: &WeatherDesc) -> (title: String)
    ensures
        title@ == match desc.main {
            Some(m) => m@,
            None => match desc.description {
                Some(d) => d@,
                None => Seq::<char>::empty(),
            },
        },
{
    match &desc.main {
        Some(m) => m.clone(),
        None => match &desc.description {
            Some(d) => d.clone(),
            None => String::new(),
        },
    }
}

} // verus!
