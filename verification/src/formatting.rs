//! Text for the status bar: markup lines for the present weather, the coming
//! hours and the coming days.

use vstd::prelude::*;
use vstd::string::StringExecFns;
use crate::clock::fmt_time;
use crate::clock::formatted_time;
use crate::clock::pattern_from;
use crate::clock::time_pattern;
use crate::config::ColorsResolved;
use crate::config::TempBand;
use crate::config::UiConfigResolved;
use crate::config::Units;
use crate::fixed::div_round;
use crate::fixed::round_div;
use crate::text::decimal;
use crate::text::join_lines;
use crate::text::joined;
use crate::text::pad_right;
use crate::text::percent_rounded;
use crate::text::push_decimal;
use crate::text::push_padded;
use crate::text::push_rounded;
use crate::text::push_signed;
use crate::text::round_tenth;
use crate::text::round_units;
use crate::text::rounded_label;
use crate::text::signed_decimal;
use crate::text::texts;
use crate::utils::band_from;
use crate::utils::can_shorten;
use crate::utils::deg_to_dir;
use crate::utils::escape_pango;
use crate::utils::escaped;
use crate::utils::icon_for;
use crate::utils::is_short_form;
use crate::utils::lowercase;
use crate::utils::pick_icon;
use crate::utils::sector;
use crate::utils::sector_name;
use crate::utils::short_desc;
use crate::utils::spark;
use crate::utils::sparkline;
use crate::utils::temp_color;
use crate::utils::text_or_empty;
use crate::utils::uvi_color;
use crate::utils::uvi_color_of;
use crate::weather::valid_day;
use crate::weather::valid_days;
use crate::weather::valid_response;
use crate::weather::valid_sample;
use crate::weather::valid_series;
use crate::weather::ApiResponse;
use crate::weather::Current;
use crate::weather::Daily;
use crate::weather::Hourly;
use crate::weather::WeatherDesc;
use crate::weather::OFFSET_LIMIT;

verus! {

/// Hours that the hourly section lists at most.
pub const HOURS_SHOWN: usize = 12;

/// Days that the daily section lists at most.
pub const DAYS_SHOWN: usize = 5;

/// A line wrapped in a span that sets its colour and font size.
pub open spec fn styled(line: Seq<char>, color: Seq<char>, font_size: int) -> Seq<char> {
    "<span foreground='"@ + color + "' font='"@ + decimal(font_size as nat) + "'>"@ + line
        + "</span>"@
}

/// A heading in the header colour, bold.
pub open spec fn heading(title: Seq<char>, color: Seq<char>, font_size: int) -> Seq<char> {
    "<span foreground='"@ + color + "' font='"@ + decimal(font_size as nat) + "' weight='bold'>"@
        + title + "</span>"@
}

/// Sign of the temperature unit.
pub open spec fn temp_unit(units: Units) -> Seq<char> {
    match units {
        Units::Imperial => "°F"@,
        Units::Metric => "°C"@,
    }
}

/// Name of the speed unit.
pub open spec fn speed_unit(units: Units) -> Seq<char> {
    match units {
        Units::Imperial => "mph"@,
        Units::Metric => "m/s"@,
    }
}

/// Name of the distance unit.
pub open spec fn dist_unit(units: Units) -> Seq<char> {
    match units {
        Units::Imperial => "mi"@,
        Units::Metric => "km"@,
    }
}

/// The icon of the first of the conditions; without any, that of a clear sky.
pub open spec fn condition_icon(weather: Seq<WeatherDesc>) -> Seq<char> {
    if weather.len() > 0 {
        icon_for(
            lowercase(text_or_empty(weather[0].main)),
            lowercase(text_or_empty(weather[0].description)),
        )
    } else {
        icon_for(lowercase("Clear"@), lowercase("Clear"@))
    }
}

/// The icon of the first of the conditions; without any, a question mark.
pub open spec fn forecast_icon(weather: Seq<WeatherDesc>) -> Seq<char> {
    if weather.len() > 0 {
        icon_for(
            lowercase(text_or_empty(weather[0].main)),
            lowercase(text_or_empty(weather[0].description)),
        )
    } else {
        "❓"@
    }
}

/// The description of the present weather: that of the first condition if it
/// has one, `N/A` if it has none, and `Clear` without any condition.
pub open spec fn present_description(weather: Seq<WeatherDesc>) -> Seq<char> {
    if weather.len() > 0 {
        match weather[0].description {
            Some(d) => d@,
            None => "N/A"@,
        }
    } else {
        "Clear"@
    }
}

/// A probability in thousandths as a whole percentage; 0 for none.
pub open spec fn whole_percent(pop: Option<i64>) -> int {
    match pop {
        Some(p) => round_tenth(p as int),
        None => 0,
    }
}

/// A reading, or 0 for none.
pub open spec fn or_zero(v: Option<i64>) -> int {
    match v {
        Some(v) => v as int,
        None => 0,
    }
}

/// Visibility in whole miles or kilometres; ten kilometres where none is given.
pub open spec fn visibility_of(metres: Option<u32>, units: Units) -> int {
    let m = match metres {
        Some(m) => m as int,
        None => 10_000,
    };
    match units {
        Units::Imperial => round_div(m * 100, 160_934),
        Units::Metric => round_div(m, 1000),
    }
}

/// A time of day, or a dash where there is none.
pub open spec fn clock_or_dash(t: Option<i64>, tz: int) -> Seq<char> {
    match t {
        Some(t) => formatted_time(t as int, tz, "%H:%M"@),
        None => "-:-"@,
    }
}

/// The colour of a temperature rounded to whole degrees.
pub open spec fn rounded_color(temp: int, bands: Seq<TempBand>) -> Seq<char> {
    band_from(bands, round_units(temp) * 1000, 0)
}

/// The short text for the bar.
pub open spec fn bar_text(data: ApiResponse, bands: Seq<TempBand>, units: Units) -> Seq<char> {
    "| "@ + condition_icon(data.current.weather@) + " <span foreground='"@ + rounded_color(
        data.current.temp as int,
        bands,
    ) + "'>"@ + rounded_label(data.current.temp as int) + temp_unit(units) + "</span>"@
}

/// The line that names the place.
pub open spec fn place_line(label: Seq<char>) -> Seq<char> {
    "🌍 <b>"@ + escaped(label) + "</b>"@
}

/// The line with the temperature and the description.
pub open spec fn temperature_line(data: ApiResponse, bands: Seq<TempBand>, units: Units) -> Seq<
    char,
> {
    condition_icon(data.current.weather@) + " <span foreground='"@ + rounded_color(
        data.current.temp as int,
        bands,
    ) + "' size='large'>"@ + rounded_label(data.current.temp as int) + temp_unit(units)
        + "</span>  "@ + escaped(present_description(data.current.weather@))
}

/// How the temperature feels, or a dash.
pub open spec fn feels_text(feels: Option<i64>) -> Seq<char> {
    match feels {
        Some(f) => rounded_label(f as int) + "°"@,
        None => "—"@,
    }
}

/// The line with the felt temperature, the humidity and the UV index.
pub open spec fn comfort_line(c: Current) -> Seq<char> {
    "Feels like "@ + feels_text(c.feels_like) + " • Hum "@ + decimal(
        match c.humidity {
            Some(h) => h as nat,
            None => 0,
        },
    ) + "% • UV <span foreground='"@ + uvi_color_of(or_zero(c.uvi)) + "'>"@ + rounded_label(
        or_zero(c.uvi),
    ) + "</span>"@
}

/// The line with the wind and the chance of rain in the coming hour.
pub open spec fn wind_line(data: ApiResponse, units: Units) -> Seq<char> {
    "Wind "@ + rounded_label(or_zero(data.current.wind_speed)) + " "@ + speed_unit(units) + " "@
        + sector_name(sector(or_zero(data.current.wind_deg))) + " • Rain "@ + signed_decimal(
        if data.hourly@.len() > 0 {
            whole_percent(data.hourly@[0].pop)
        } else {
            0
        },
    ) + "%"@
}

/// The line with sunrise, sunset, visibility and pressure.
pub open spec fn sky_line(data: ApiResponse, units: Units) -> Seq<char> {
    "🌅 "@ + clock_or_dash(data.current.sunrise, data.timezone_offset as int) + "  🌇 "@
        + clock_or_dash(data.current.sunset, data.timezone_offset as int) + " • 👁️ "@ + decimal(
        visibility_of(data.current.visibility, units) as nat,
    ) + dist_unit(units) + " • 🌪️ "@ + signed_decimal(or_zero(data.current.pressure)) + "hPa"@
}

/// The five lines about the present weather.
pub open spec fn current_lines(
    data: ApiResponse,
    label: Seq<char>,
    bands: Seq<TempBand>,
    units: Units,
) -> Seq<Seq<char>> {
    seq![
        place_line(label),
        temperature_line(data, bands, units),
        comfort_line(data.current),
        wind_line(data, units),
        sky_line(data, units),
    ]
}

/// The chance of precipitation behind a drop, or nothing for none.
pub open spec fn precip_text(pop: Option<i64>) -> Seq<char> {
    if whole_percent(pop) > 0 {
        "💧"@ + decimal(whole_percent(pop) as nat) + "%"@
    } else {
        Seq::empty()
    }
}

/// Whether `d` is what a forecast line says of the conditions: the short
/// form of the first condition's description, or a dash.
pub open spec fn is_forecast_note(d: Seq<char>, weather: Seq<WeatherDesc>, max_len: int) -> bool {
    if weather.len() > 0 && weather[0].description is Some {
        exists|short: Seq<char>| #[trigger]
            is_short_form(short, weather[0].description->0@, max_len) && d == escaped(short)
    } else {
        d == escaped("—"@)
    }
}

/// Whether the description that a forecast line shows can be cut to `max_len` bytes.
pub open spec fn note_fits(weather: Seq<WeatherDesc>, max_len: int) -> bool {
    weather.len() > 0 && weather[0].description is Some ==> can_shorten(
        weather[0].description->0@,
        max_len,
    )
}

/// Whether `line` is the forecast line of an hour.
pub open spec fn is_hour_line(
    line: Seq<char>,
    h: Hourly,
    tz: int,
    ui: UiConfigResolved,
    bands: Seq<TempBand>,
) -> bool {
    exists|note: Seq<char>| #[trigger]
        is_forecast_note(note, h.weather@, ui.max_desc_len as int) && line == pad_right(
            formatted_time(h.dt as int, tz, "%-I%p"@),
            4,
        ) + " <span foreground='"@ + rounded_color(h.temp as int, bands) + "' font='"@ + decimal(
            ui.font_size as nat,
        ) + "'>"@ + rounded_label(h.temp as int) + "°</span> "@ + forecast_icon(h.weather@)
            + " "@ + pad_right(note, 12) + " "@ + precip_text(h.pop)
}

/// The highest temperature of a day: its maximum, else its day temperature, else 0.
pub open spec fn day_high(d: Daily) -> int {
    match d.temp.max {
        Some(t) => t as int,
        None => or_zero(d.temp.day),
    }
}

/// Whether `line` is the forecast line of a day.
pub open spec fn is_day_line(
    line: Seq<char>,
    d: Daily,
    tz: int,
    ui: UiConfigResolved,
    bands: Seq<TempBand>,
) -> bool {
    exists|note: Seq<char>| #[trigger]
        is_forecast_note(note, d.weather@, ui.max_desc_len as int) && line == pad_right(
            formatted_time(d.dt as int, tz, "%a"@),
            3,
        ) + " <span foreground='"@ + rounded_color(day_high(d), bands) + "' font='"@ + decimal(
            ui.font_size as nat,
        ) + "'>"@ + rounded_label(day_high(d)) + "°</span>/<span foreground='"@ + rounded_color(
            or_zero(d.temp.min),
            bands,
        ) + "' font='"@ + decimal(ui.font_size as nat) + "'>"@ + rounded_label(
            or_zero(d.temp.min),
        ) + "°</span> "@ + forecast_icon(d.weather@) + " "@ + pad_right(note, 12) + " "@
            + precip_text(d.pop)
}

/// The lesser of two counts.
pub open spec fn at_most(n: int, cap: int) -> int {
    if n < cap {
        n
    } else {
        cap
    }
}

/// The temperatures of the first hours, for the sparkline.
pub open spec fn first_temps(hourly: Seq<Hourly>) -> Seq<i64> {
    Seq::new(at_most(hourly.len() as int, HOURS_SHOWN as int) as nat, |i: int| hourly[i].temp)
}

/// The patterns that the text for the bar formats times with are ones that
/// the formatter accepts.
pub proof fn lemma_bar_patterns()
    ensures
        time_pattern("%H:%M"@),
        time_pattern("%-I%p"@),
        time_pattern("%a"@),
{
    reveal_strlit("%H:%M");
    reveal_strlit("%-I%p");
    reveal_strlit("%a");
    reveal_with_fuel(pattern_from, 6);
}

/// Wraps each line in a span that sets its colour and font size.
pub fn wrap_with_style(lines: Vec<String>, color: &str, font_size: u8) -> (out: Vec<String>)
    ensures
        out@.len() == lines@.len(),
        forall|i: int|
            0 <= i < lines@.len() ==> (#[trigger] out@[i])@ == styled(
                lines@[i]@,
                color@,
                font_size as int,
            ),
{
    let mut out: Vec<String> = Vec::new();
    let mut i: usize = 0;
    while i < lines.len()
        invariant
            i <= lines.len(),
            out.len() == i,
            forall|j: int|
                0 <= j < i ==> (#[trigger] out@[j])@ == styled(
                    lines@[j]@,
                    color@,
                    font_size as int,
                ),
        decreases lines.len() - i,
    {
        let mut s = String::from_str("<span foreground='");
        s.append(color);
        s.append("' font='");
        push_decimal(&mut s, font_size as u64);
        s.append("'>");
        s.append(lines[i].as_str());
        s.append("</span>");
        assert(s@ =~= styled(lines@[i as int]@, color@, font_size as int));
        out.push(s);
        i += 1;
    }
    out
}

/// A probability as a whole percentage.
fn percent_or_zero(pop: Option<i64>) -> (p: i64)
    ensures
        p == whole_percent(pop),
{
    match pop {
        Some(p) => percent_rounded(p),
        None => 0,
    }
}

/// The icon of the present weather.
fn present_icon(weather: &Vec<WeatherDesc>) -> (icon: &'static str)
    ensures
        icon@ == condition_icon(weather@),
{
    if weather.len() > 0 {
        pick_icon(&weather[0])
    } else {
        let clear = WeatherDesc {
            main: Some(String::from_str("Clear")),
            description: Some(String::from_str("Clear")),
        };
        pick_icon(&clear)
    }
}

/// The icon of a forecast.
fn icon_or_unknown(weather: &Vec<WeatherDesc>) -> (icon: &'static str)
    ensures
        icon@ == forecast_icon(weather@),
{
    if weather.len() > 0 {
        pick_icon(&weather[0])
    } else {
        "❓"
    }
}

/// The colour of a temperature rounded to whole degrees.
fn color_of_rounded(temp: i64, bands: &[TempBand]) -> (color: String)
    requires
        -2_000_000_000 <= temp <= 2_000_000_000,
    ensures
        color@ == rounded_color(temp as int, bands@),
{
    let whole: i64 = if temp >= 0 {
        (temp + 500) / 1000
    } else {
        -((-temp + 500) / 1000)
    };
    temp_color(whole * 1000, bands)
}

/// A time of day, or a dash where there is none.
fn clock_text(t: Option<i64>, tz: i64) -> (s: String)
    requires
        crate::weather::opt_time_ok(t),
        -OFFSET_LIMIT <= tz <= OFFSET_LIMIT,
    ensures
        s@ == clock_or_dash(t, tz as int),
{
    proof {
        lemma_bar_patterns();
    }
    match t {
        Some(t) => fmt_time(t, tz, "%H:%M"),
        None => String::from_str("-:-"),
    }
}

/// The text for the bar and the five lines about the present weather.
pub fn format_current_weather(
    data: &ApiResponse,
    location_label: &str,
    temp_bands: &[TempBand],
    units: Units,
) -> (out: (String, Vec<String>))
    requires
        valid_response(*data),
    ensures
        out.0@ == bar_text(*data, temp_bands@, units),
        texts(out.1@) == current_lines(*data, location_label@, temp_bands@, units),
{
    let (degree, speed, distance) = match units {
        Units::Imperial => ("°F", "mph", "mi"),
        Units::Metric => ("°C", "m/s", "km"),
    };
    let c = &data.current;
    let icon = present_icon(&c.weather);
    let color = color_of_rounded(c.temp, temp_bands);

    let mut text = String::from_str("| ");
    text.append(icon);
    text.append(" <span foreground='");
    text.append(color.as_str());
    text.append("'>");
    push_rounded(&mut text, c.temp);
    text.append(degree);
    text.append("</span>");
    assert(text@ =~= bar_text(*data, temp_bands@, units));

    let mut place = String::from_str("🌍 <b>");
    place.append(escape_pango(location_label).as_str());
    place.append("</b>");
    assert(place@ =~= place_line(location_label@));

    let safe_desc = if c.weather.len() > 0 {
        match &c.weather[0].description {
            Some(d) => escape_pango(d.as_str()),
            None => escape_pango("N/A"),
        }
    } else {
        escape_pango("Clear")
    };
    let mut temperature = String::from_str(icon);
    temperature.append(" <span foreground='");
    temperature.append(color.as_str());
    temperature.append("' size='large'>");
    push_rounded(&mut temperature, c.temp);
    temperature.append(degree);
    temperature.append("</span>  ");
    temperature.append(safe_desc.as_str());
    assert(temperature@ =~= temperature_line(*data, temp_bands@, units));

    let uvi: i64 = match c.uvi {
        Some(u) => u,
        None => 0,
    };
    let mut comfort = String::from_str("Feels like ");
    match c.feels_like {
        Some(f) => {
            push_rounded(&mut comfort, f);
            comfort.append("°");
        },
        None => {
            comfort.append("—");
        },
    }
    assert(comfort@ =~= "Feels like "@ + feels_text(c.feels_like));
    comfort.append(" • Hum ");
    push_decimal(
        &mut comfort,
        match c.humidity {
            Some(h) => h as u64,
            None => 0,
        },
    );
    comfort.append("% • UV <span foreground='");
    comfort.append(uvi_color(uvi));
    comfort.append("'>");
    push_rounded(&mut comfort, uvi);
    comfort.append("</span>");
    assert(comfort@ =~= comfort_line(data.current));

    let wind_speed: i64 = match c.wind_speed {
        Some(w) => w,
        None => 0,
    };
    let rain: i64 = if data.hourly.len() > 0 {
        percent_or_zero(data.hourly[0].pop)
    } else {
        0
    };
    let mut wind = String::from_str("Wind ");
    push_rounded(&mut wind, wind_speed);
    wind.append(" ");
    wind.append(speed);
    wind.append(" ");
    wind.append(deg_to_dir(c.wind_deg).as_str());
    wind.append(" • Rain ");
    push_signed(&mut wind, rain);
    wind.append("%");
    assert(wind@ =~= wind_line(*data, units));

    let metres: i64 = match c.visibility {
        Some(m) => m as i64,
        None => 10_000,
    };
    let visibility: i64 = match units {
        Units::Imperial => div_round(metres * 100, 160_934),
        Units::Metric => div_round(metres, 1000),
    };
    proof {
        crate::fixed::lemma_div_bounds(2 * (metres * 100) + 160_934, 321_868int);
        crate::fixed::lemma_div_bounds(2 * metres + 1000, 2000int);
    }
    let mut sky = String::from_str("🌅 ");
    sky.append(clock_text(c.sunrise, data.timezone_offset).as_str());
    sky.append("  🌇 ");
    sky.append(clock_text(c.sunset, data.timezone_offset).as_str());
    sky.append(" • 👁️ ");
    push_decimal(&mut sky, visibility as u64);
    sky.append(distance);
    sky.append(" • 🌪️ ");
    push_signed(
        &mut sky,
        match c.pressure {
            Some(p) => p,
            None => 0,
        },
    );
    sky.append("hPa");
    assert(sky@ =~= sky_line(*data, units));

    let mut lines: Vec<String> = Vec::new();
    lines.push(place);
    lines.push(temperature);
    lines.push(comfort);
    lines.push(wind);
    lines.push(sky);
    assert(texts(lines@) =~= current_lines(*data, location_label@, temp_bands@, units));
    (text, lines)
}

/// Whether the description that a forecast line shows can be cut to `max_len` bytes.
pub fn note_can_be_cut(weather: &Vec<WeatherDesc>, max_len: usize) -> (ok: bool)
    ensures
        ok == note_fits(weather@, max_len as int),
{
    if weather.len() > 0 {
        match &weather[0].description {
            Some(d) => crate::utils::can_shorten_text(d.as_str(), max_len),
            None => true,
        }
    } else {
        true
    }
}

/// Whether `format_hourly_forecast` accepts the descriptions of the hours.
pub fn hourly_notes_fit(hourly: &[Hourly], max_len: usize) -> (ok: bool)
    ensures
        ok == (forall|i: int|
            0 <= i < hourly@.len() && i < HOURS_SHOWN ==> note_fits(
                (#[trigger] hourly@[i]).weather@,
                max_len as int,
            )),
{
    let count: usize = if hourly.len() < HOURS_SHOWN {
        hourly.len()
    } else {
        HOURS_SHOWN
    };
    let mut i: usize = 0;
    while i < count
        invariant
            count == at_most(hourly@.len() as int, HOURS_SHOWN as int),
            i <= count,
            forall|k: int| 0 <= k < i ==> note_fits((#[trigger] hourly@[k]).weather@, max_len as int),
        decreases count - i,
    {
        if !note_can_be_cut(&hourly[i].weather, max_len) {
            assert(!note_fits(hourly@[i as int].weather@, max_len as int));
            return false;
        }
        i += 1;
    }
    true
}

/// Whether `format_daily_forecast` accepts the descriptions of the days.
pub fn daily_notes_fit(daily: &[Daily], max_len: usize) -> (ok: bool)
    ensures
        ok == (forall|i: int|
            0 <= i < daily@.len() && i < DAYS_SHOWN ==> note_fits(
                (#[trigger] daily@[i]).weather@,
                max_len as int,
            )),
{
    let count: usize = if daily.len() < DAYS_SHOWN {
        daily.len()
    } else {
        DAYS_SHOWN
    };
    let mut i: usize = 0;
    while i < count
        invariant
            count == at_most(daily@.len() as int, DAYS_SHOWN as int),
            i <= count,
            forall|k: int| 0 <= k < i ==> note_fits((#[trigger] daily@[k]).weather@, max_len as int),
        decreases count - i,
    {
        if !note_can_be_cut(&daily[i].weather, max_len) {
            assert(!note_fits(daily@[i as int].weather@, max_len as int));
            return false;
        }
        i += 1;
    }
    true
}

/// The text for the bar and its tooltip, for any answer: none where a time
/// or a reading is outside the limits, or where a description cannot be cut
/// without splitting a character.
pub fn try_format_popup_text(
    data: &ApiResponse,
    location_label: &str,
    ui: &UiConfigResolved,
    colors: &ColorsResolved,
    temp_bands: &[TempBand],
    units: Units,
) -> (out: Option<(String, String)>)
    ensures
        out is Some == (valid_response(*data) && (forall|i: int|
            0 <= i < data.hourly@.len() && i < HOURS_SHOWN ==> note_fits(
                (#[trigger] data.hourly@[i]).weather@,
                ui.max_desc_len as int,
            )) && (forall|i: int|
            0 <= i < data.daily@.len() && i < DAYS_SHOWN ==> note_fits(
                (#[trigger] data.daily@[i]).weather@,
                ui.max_desc_len as int,
            ))),
        match out {
            Some(pair) => {
                &&& pair.0@ == bar_text(*data, temp_bands@, units)
                &&& exists|lines: Seq<Seq<char>>| #[trigger]
                    is_popup_lines(lines, *data, location_label@, *ui, *colors, temp_bands@, units)
                        && pair.1@ == joined(lines)
            },
            None => true,
        },
{
    if crate::weather::is_valid_response(data) && hourly_notes_fit(
        data.hourly.as_slice(),
        ui.max_desc_len,
    ) && daily_notes_fit(data.daily.as_slice(), ui.max_desc_len) {
        Some(format_popup_text(data, location_label, ui, colors, temp_bands, units))
    } else {
        None
    }
}

/// What a forecast line says of the conditions.
fn forecast_note(weather: &Vec<WeatherDesc>, max_len: usize) -> (note: String)
    requires
        note_fits(weather@, max_len as int),
    ensures
        is_forecast_note(note@, weather@, max_len as int),
{
    if weather.len() > 0 {
        match &weather[0].description {
            Some(d) => {
                let short = short_desc(d.as_str(), max_len);
                return escape_pango(short.as_str());
            },
            None => {},
        }
    }
    escape_pango("—")
}

/// The chance of precipitation behind a drop, or nothing for none.
fn precip_note(pop: Option<i64>) -> (s: String)
    ensures
        s@ == precip_text(pop),
{
    let p: i64 = percent_or_zero(pop);
    let mut s = String::new();
    if p > 0 {
        s.append("💧");
        push_decimal(&mut s, p as u64);
        s.append("%");
        assert(s@ =~= precip_text(pop));
    }
    s
}

/// One line for each of the first twelve hours: the hour, the temperature in
/// its colour, the icon, the description cut short, and the chance of
/// precipitation. The descriptions must be ones that can be cut.
pub fn format_hourly_forecast(
    hourly: &[Hourly],
    timezone_offset: i64,
    ui: &UiConfigResolved,
    temp_bands: &[TempBand],
) -> (lines: Vec<String>)
    requires
        valid_series(hourly@),
        -OFFSET_LIMIT <= timezone_offset <= OFFSET_LIMIT,
        forall|i: int|
            0 <= i < hourly@.len() && i < HOURS_SHOWN ==> note_fits(
                (#[trigger] hourly@[i]).weather@,
                ui.max_desc_len as int,
            ),
    ensures
        lines@.len() == at_most(hourly@.len() as int, HOURS_SHOWN as int),
        forall|i: int|
            0 <= i < lines@.len() ==> is_hour_line(
                (#[trigger] lines@[i])@,
                hourly@[i],
                timezone_offset as int,
                *ui,
                temp_bands@,
            ),
{
    let count: usize = if hourly.len() < HOURS_SHOWN {
        hourly.len()
    } else {
        HOURS_SHOWN
    };
    let mut lines: Vec<String> = Vec::new();
    let mut i: usize = 0;
    while i < count
        invariant
            valid_series(hourly@),
            -OFFSET_LIMIT <= timezone_offset <= OFFSET_LIMIT,
            forall|k: int|
                0 <= k < hourly@.len() && k < HOURS_SHOWN ==> note_fits(
                    (#[trigger] hourly@[k]).weather@,
                    ui.max_desc_len as int,
                ),
            count == at_most(hourly@.len() as int, HOURS_SHOWN as int),
            i <= count,
            lines.len() == i,
            forall|k: int|
                0 <= k < i ==> is_hour_line(
                    (#[trigger] lines@[k])@,
                    hourly@[k],
                    timezone_offset as int,
                    *ui,
                    temp_bands@,
                ),
        decreases count - i,
    {
        let h = &hourly[i];
        assert(valid_sample(hourly@[i as int]));
        proof {
            lemma_bar_patterns();
        }
        let label = fmt_time(h.dt, timezone_offset, "%-I%p");
        let note = forecast_note(&h.weather, ui.max_desc_len);
        let mut line = String::new();
        push_padded(&mut line, label.as_str(), 4);
        line.append(" <span foreground='");
        line.append(color_of_rounded(h.temp, temp_bands).as_str());
        line.append("' font='");
        push_decimal(&mut line, ui.font_size as u64);
        line.append("'>");
        push_rounded(&mut line, h.temp);
        line.append("°</span> ");
        line.append(icon_or_unknown(&h.weather));
        line.append(" ");
        push_padded(&mut line, note.as_str(), 12);
        line.append(" ");
        line.append(precip_note(h.pop).as_str());
        assert(line@ =~= pad_right(
            formatted_time(h.dt as int, timezone_offset as int, "%-I%p"@),
            4,
        ) + " <span foreground='"@ + rounded_color(h.temp as int, temp_bands@) + "' font='"@
            + decimal(ui.font_size as nat) + "'>"@ + rounded_label(h.temp as int) + "°</span> "@
            + forecast_icon(h.weather@) + " "@ + pad_right(note@, 12) + " "@ + precip_text(h.pop));
        lines.push(line);
        i += 1;
    }
    lines
}

/// One line for each of the first five days: the weekday, the highest and the
/// lowest temperature in their colours, the icon, the description cut short,
/// and the chance of precipitation. The descriptions must be ones that can be cut.
pub fn format_daily_forecast(
    daily: &[Daily],
    timezone_offset: i64,
    ui: &UiConfigResolved,
    temp_bands: &[TempBand],
) -> (lines: Vec<String>)
    requires
        valid_days(daily@),
        -OFFSET_LIMIT <= timezone_offset <= OFFSET_LIMIT,
        forall|i: int|
            0 <= i < daily@.len() && i < DAYS_SHOWN ==> note_fits(
                (#[trigger] daily@[i]).weather@,
                ui.max_desc_len as int,
            ),
    ensures
        lines@.len() == at_most(daily@.len() as int, DAYS_SHOWN as int),
        forall|i: int|
            0 <= i < lines@.len() ==> is_day_line(
                (#[trigger] lines@[i])@,
                daily@[i],
                timezone_offset as int,
                *ui,
                temp_bands@,
            ),
{
    let count: usize = if daily.len() < DAYS_SHOWN {
        daily.len()
    } else {
        DAYS_SHOWN
    };
    let mut lines: Vec<String> = Vec::new();
    let mut i: usize = 0;
    while i < count
        invariant
            valid_days(daily@),
            -OFFSET_LIMIT <= timezone_offset <= OFFSET_LIMIT,
            forall|k: int|
                0 <= k < daily@.len() && k < DAYS_SHOWN ==> note_fits(
                    (#[trigger] daily@[k]).weather@,
                    ui.max_desc_len as int,
                ),
            count == at_most(daily@.len() as int, DAYS_SHOWN as int),
            i <= count,
            lines.len() == i,
            forall|k: int|
                0 <= k < i ==> is_day_line(
                    (#[trigger] lines@[k])@,
                    daily@[k],
                    timezone_offset as int,
                    *ui,
                    temp_bands@,
                ),
        decreases count - i,
    {
        let d = &daily[i];
        assert(valid_day(daily@[i as int]));
        proof {
            lemma_bar_patterns();
        }
        let hi: i64 = match d.temp.max {
            Some(t) => t,
            None => match d.temp.day {
                Some(t) => t,
                None => 0,
            },
        };
        let lo: i64 = match d.temp.min {
            Some(t) => t,
            None => 0,
        };
        let day = fmt_time(d.dt, timezone_offset, "%a");
        let note = forecast_note(&d.weather, ui.max_desc_len);
        let mut line = String::new();
        push_padded(&mut line, day.as_str(), 3);
        line.append(" <span foreground='");
        line.append(color_of_rounded(hi, temp_bands).as_str());
        line.append("' font='");
        push_decimal(&mut line, ui.font_size as u64);
        line.append("'>");
        push_rounded(&mut line, hi);
        line.append("°</span>/<span foreground='");
        line.append(color_of_rounded(lo, temp_bands).as_str());
        line.append("' font='");
        push_decimal(&mut line, ui.font_size as u64);
        line.append("'>");
        push_rounded(&mut line, lo);
        line.append("°</span> ");
        line.append(icon_or_unknown(&d.weather));
        line.append(" ");
        push_padded(&mut line, note.as_str(), 12);
        line.append(" ");
        line.append(precip_note(d.pop).as_str());
        assert(line@ =~= pad_right(formatted_time(d.dt as int, timezone_offset as int, "%a"@), 3)
            + " <span foreground='"@ + rounded_color(day_high(*d), temp_bands@) + "' font='"@
            + decimal(ui.font_size as nat) + "'>"@ + rounded_label(day_high(*d))
            + "°</span>/<span foreground='"@ + rounded_color(or_zero(d.temp.min), temp_bands@)
            + "' font='"@ + decimal(ui.font_size as nat) + "'>"@ + rounded_label(
            or_zero(d.temp.min),
        ) + "°</span> "@ + forecast_icon(d.weather@) + " "@ + pad_right(note@, 12) + " "@
            + precip_text(d.pop));
        lines.push(line);
        i += 1;
    }
    lines
}

/// Whether `line` is the forecast line of an hour, wrapped in the text colour.
pub open spec fn is_styled_hour(
    line: Seq<char>,
    h: Hourly,
    tz: int,
    ui: UiConfigResolved,
    colors: ColorsResolved,
    bands: Seq<TempBand>,
) -> bool {
    exists|raw: Seq<char>| #[trigger]
        is_hour_line(raw, h, tz, ui, bands) && line == styled(
            raw,
            colors.text@,
            ui.font_size as int,
        )
}

/// Whether `line` is the forecast line of a day, wrapped in the text colour.
pub open spec fn is_styled_day(
    line: Seq<char>,
    d: Daily,
    tz: int,
    ui: UiConfigResolved,
    colors: ColorsResolved,
    bands: Seq<TempBand>,
) -> bool {
    exists|raw: Seq<char>| #[trigger]
        is_day_line(raw, d, tz, ui, bands) && line == styled(raw, colors.text@, ui.font_size as int)
}

/// Whether `lines` are the lines of the tooltip: the five lines about the
/// present weather, a blank line, the heading of the hours with the
/// sparkline of their temperatures, a line for each hour, a blank line, the
/// heading of the days, and a line for each day. Each line but the blank ones
/// and the headings is wrapped in the text colour.
pub open spec fn is_popup_lines(
    lines: Seq<Seq<char>>,
    data: ApiResponse,
    label: Seq<char>,
    ui: UiConfigResolved,
    colors: ColorsResolved,
    bands: Seq<TempBand>,
    units: Units,
) -> bool {
    let hours = at_most(data.hourly@.len() as int, HOURS_SHOWN as int);
    let days = at_most(data.daily@.len() as int, DAYS_SHOWN as int);
    let tz = data.timezone_offset as int;
    let size = ui.font_size as int;
    &&& lines.len() == 9 + hours + days
    &&& forall|k: int|
        0 <= k < 5 ==> #[trigger] lines[k] == styled(
            current_lines(data, label, bands, units)[k],
            colors.text@,
            size,
        )
    &&& lines[5] == Seq::<char>::empty()
    &&& lines[6] == heading("HOURS "@ + spark(first_temps(data.hourly@)), colors.header@, size)
    &&& forall|k: int|
        7 <= k < 7 + hours ==> is_styled_hour(
            #[trigger] lines[k],
            data.hourly@[k - 7],
            tz,
            ui,
            colors,
            bands,
        )
    &&& lines[7 + hours] == Seq::<char>::empty()
    &&& lines[8 + hours] == heading("DAYS"@, colors.header@, size)
    &&& forall|k: int|
        9 + hours <= k < 9 + hours + days ==> is_styled_day(
            #[trigger] lines[k],
            data.daily@[k - 9 - hours],
            tz,
            ui,
            colors,
            bands,
        )
}

/// A heading in the header colour, bold.
fn heading_line(title: &str, color: &str, font_size: u8) -> (s: String)
    ensures
        s@ == heading(title@, color@, font_size as int),
{
    let mut s = String::from_str("<span foreground='");
    s.append(color);
    s.append("' font='");
    push_decimal(&mut s, font_size as u64);
    s.append("' weight='bold'>");
    s.append(title);
    s.append("</span>");
    assert(s@ =~= heading(title@, color@, font_size as int));
    s
}

/// The temperatures of the first hours.
fn leading_temps(hourly: &Vec<Hourly>) -> (temps: Vec<i64>)
    ensures
        temps@ == first_temps(hourly@),
{
    let count: usize = if hourly.len() < HOURS_SHOWN {
        hourly.len()
    } else {
        HOURS_SHOWN
    };
    let mut temps: Vec<i64> = Vec::new();
    let mut i: usize = 0;
    while i < count
        invariant
            count == at_most(hourly@.len() as int, HOURS_SHOWN as int),
            i <= count,
            temps.len() == i,
            forall|k: int| 0 <= k < i ==> temps@[k] == hourly@[k].temp,
        decreases count - i,
    {
        temps.push(hourly[i].temp);
        i += 1;
    }
    assert(temps@ =~= first_temps(hourly@));
    temps
}

/// Moves the lines of `from` to the end of `to`.
fn extend(to: &mut Vec<String>, from: Vec<String>)
    ensures
        texts(final(to)@) == texts(old(to)@) + texts(from@),
{
    let mut i: usize = 0;
    assert(texts(to@) =~= texts(old(to)@) + texts(from@).take(0));
    while i < from.len()
        invariant
            i <= from.len(),
            texts(to@) == texts(old(to)@) + texts(from@).take(i as int),
        decreases from.len() - i,
    {
        let ghost before = texts(to@);
        to.push(from[i].clone());
        assert(texts(to@) =~= before.push(from@[i as int]@));
        assert(texts(from@).take(i + 1) =~= texts(from@).take(i as int).push(from@[i as int]@));
        assert(texts(to@) =~= texts(old(to)@) + texts(from@).take(i + 1));
        i += 1;
    }
    assert(texts(from@).take(from.len() as int) =~= texts(from@));
}

/// The text for the bar and the tooltip that goes with it.
pub fn format_popup_text(
    data: &ApiResponse,
    location_label: &str,
    ui: &UiConfigResolved,
    colors: &ColorsResolved,
    temp_bands: &[TempBand],
    units: Units,
) -> (out: (String, String))
    requires
        valid_response(*data),
        forall|i: int|
            0 <= i < data.hourly@.len() && i < HOURS_SHOWN ==> note_fits(
                (#[trigger] data.hourly@[i]).weather@,
                ui.max_desc_len as int,
            ),
        forall|i: int|
            0 <= i < data.daily@.len() && i < DAYS_SHOWN ==> note_fits(
                (#[trigger] data.daily@[i]).weather@,
                ui.max_desc_len as int,
            ),
    ensures
        out.0@ == bar_text(*data, temp_bands@, units),
        exists|lines: Seq<Seq<char>>| #[trigger]
            is_popup_lines(lines, *data, location_label@, *ui, *colors, temp_bands@, units)
                && out.1@ == joined(lines),
{
    let (text, current) = format_current_weather(data, location_label, temp_bands, units);
    let hourly = format_hourly_forecast(
        data.hourly.as_slice(),
        data.timezone_offset,
        ui,
        temp_bands,
    );
    let daily = format_daily_forecast(data.daily.as_slice(), data.timezone_offset, ui, temp_bands);
    let temps = leading_temps(&data.hourly);
    let sparks = sparkline(temps.as_slice());
    let mut hours_title = String::from_str("HOURS ");
    hours_title.append(sparks.as_str());

    let ghost current_texts = texts(current@);
    let ghost hourly_texts = texts(hourly@);
    let ghost daily_texts = texts(daily@);
    let ghost hours = hourly@.len() as int;
    let ghost days = daily@.len() as int;

    let styled_current = wrap_with_style(current, colors.text.as_str(), ui.font_size);
    let styled_hourly = wrap_with_style(hourly, colors.text.as_str(), ui.font_size);
    let styled_daily = wrap_with_style(daily, colors.text.as_str(), ui.font_size);
    let hours_heading = heading_line(hours_title.as_str(), colors.header.as_str(), ui.font_size);
    let days_heading = heading_line("DAYS", colors.header.as_str(), ui.font_size);
    let ghost expected = texts(styled_current@) + seq![Seq::<char>::empty()] + seq![
        hours_heading@,
    ] + texts(styled_hourly@) + seq![Seq::<char>::empty()] + seq![days_heading@] + texts(
        styled_daily@,
    );

    let mut all: Vec<String> = Vec::new();
    assert(texts(all@) =~= Seq::<Seq<char>>::empty());
    extend(&mut all, styled_current);
    let ghost step1 = texts(all@);
    all.push(String::new());
    let ghost step2 = texts(all@);
    assert(step2 =~= step1.push(Seq::<char>::empty()));
    all.push(hours_heading);
    let ghost step3 = texts(all@);
    assert(step3 =~= step2.push(hours_heading@));
    extend(&mut all, styled_hourly);
    let ghost step4 = texts(all@);
    all.push(String::new());
    let ghost step5 = texts(all@);
    assert(step5 =~= step4.push(Seq::<char>::empty()));
    all.push(days_heading);
    let ghost step6 = texts(all@);
    assert(step6 =~= step5.push(days_heading@));
    extend(&mut all, styled_daily);
    assert(texts(all@) =~= expected);
    let tooltip = join_lines(&all);
    proof {
        let lines = texts(all@);
        let size = ui.font_size as int;
        assert(current_texts.len() == 5);
        assert(texts(styled_current@).len() == 5);
        assert(texts(styled_hourly@).len() == hours);
        assert(texts(styled_daily@).len() == days);
        assert forall|k: int| 0 <= k < 5 implies #[trigger] lines[k] == styled(
            current_lines(*data, location_label@, temp_bands@, units)[k],
            colors.text@,
            size,
        ) by {
            assert(current_texts[k] == current_lines(*data, location_label@, temp_bands@, units)[k]);
            assert(lines[k] == texts(styled_current@)[k]);
            assert(texts(styled_current@)[k] == styled_current@[k]@);
        }
        assert forall|k: int| 7 <= k < 7 + hours implies is_styled_hour(
            #[trigger] lines[k],
            data.hourly@[k - 7],
            data.timezone_offset as int,
            *ui,
            *colors,
            temp_bands@,
        ) by {
            let raw = hourly_texts[k - 7];
            assert(is_hour_line(
                raw,
                data.hourly@[k - 7],
                data.timezone_offset as int,
                *ui,
                temp_bands@,
            ));
            assert(lines[k] == texts(styled_hourly@)[k - 7]);
            assert(texts(styled_hourly@)[k - 7] == styled_hourly@[k - 7]@);
            assert(lines[k] == styled(raw, colors.text@, size));
        }
        assert forall|k: int| 9 + hours <= k < 9 + hours + days implies is_styled_day(
            #[trigger] lines[k],
            data.daily@[k - 9 - hours],
            data.timezone_offset as int,
            *ui,
            *colors,
            temp_bands@,
        ) by {
            let raw = daily_texts[k - 9 - hours];
            assert(is_day_line(
                raw,
                data.daily@[k - 9 - hours],
                data.timezone_offset as int,
                *ui,
                temp_bands@,
            ));
            assert(lines[k] == texts(styled_daily@)[k - 9 - hours]);
            assert(texts(styled_daily@)[k - 9 - hours] == styled_daily@[k - 9 - hours]@);
            assert(lines[k] == styled(raw, colors.text@, size));
        }
        assert(lines[6] == hours_heading@);
        assert(lines[8 + hours] == days_heading@);
        assert(lines[5] =~= Seq::<char>::empty());
        assert(lines[7 + hours] =~= Seq::<char>::empty());
        assert(is_popup_lines(
            lines,
            *data,
            location_label@,
            *ui,
            *colors,
            temp_bands@,
            units,
        ));
    }
    (text, tooltip)
}

/// Number of characters of a markup text that are shown: those outside of
/// tags. A `<` opens a tag, the next `>` closes it, and a `>` outside of a
/// tag counts as a character.
pub open spec fn shown_chars(s: Seq<char>) -> (int, bool)
    decreases s.len(),
{
    if s.len() == 0 {
        (0, false)
    } else {
        let (count, in_tag) = shown_chars(s.drop_last());
        let c = s.last();
        if c == '<' {
            (count, true)
        } else if c == '>' && in_tag {
            (count, false)
        } else if !in_tag {
            (count + 1, in_tag)
        } else {
            (count, in_tag)
        }
    }
}

/// Number of characters of a markup text that are shown.
pub fn visible_len(s: &str) -> (n: usize)
    ensures
        n == shown_chars(s@).0,
{
    let chars = crate::utils::chars_of(s);
    let mut in_tag: bool = false;
    let mut count: usize = 0;
    let mut i: usize = 0;
    assert(s@.take(0) =~= Seq::<char>::empty());
    while i < chars.len()
        invariant
            chars@ == s@,
            i <= chars.len(),
            count <= i,
            (count as int, in_tag) == shown_chars(s@.take(i as int)),
        decreases chars.len() - i,
    {
        let c: char = chars[i];
        proof {
            let next = s@.take(i + 1);
            assert(next.drop_last() =~= s@.take(i as int));
            assert(next.last() == c);
        }
        if c == '<' {
            in_tag = true;
        } else if c == '>' && in_tag {
            in_tag = false;
        } else if !in_tag {
            count += 1;
        }
        i += 1;
    }
    assert(s@.take(chars.len() as int) =~= s@);
    count
}

} // verus!
