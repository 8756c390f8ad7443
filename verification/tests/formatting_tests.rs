use redweather::config::{ColorsResolved, TempBand, UiConfigResolved, Units};
use redweather::formatting::{
    format_current_weather, format_daily_forecast, format_hourly_forecast, format_popup_text,
    visible_len, wrap_with_style,
};
use redweather::weather::{
    is_valid_response, ApiResponse, Current, Daily, Hourly, TempRange, WeatherDesc,
};

fn desc(main: &str, description: &str) -> Vec<WeatherDesc> {
    vec![WeatherDesc { main: Some(main.into()), description: Some(description.into()) }]
}

fn sample() -> ApiResponse {
    ApiResponse {
        timezone_offset: -18_000,
        current: Current {
            dt: 1_684_929_490,
            temp: 72_500,
            feels_like: Some(71_000),
            pressure: Some(1015),
            humidity: Some(53),
            uvi: Some(5_200),
            visibility: Some(10_000),
            wind_speed: Some(8_500),
            wind_deg: Some(220),
            sunrise: Some(1_684_900_000),
            sunset: Some(1_684_950_000),
            weather: desc("Clouds", "scattered clouds"),
        },
        hourly: vec![Hourly {
            dt: 1_684_933_200,
            temp: 71_200,
            pressure: None,
            humidity: None,
            uvi: None,
            pop: Some(125),
            wind_speed: None,
            wind_deg: None,
            weather: desc("Rain", "light rain"),
        }],
        daily: vec![Daily {
            dt: 1_684_951_200,
            sunrise: None,
            sunset: None,
            temp: TempRange { day: Some(70_000), min: Some(65_000), max: Some(75_000) },
            pressure: None,
            humidity: None,
            uvi: None,
            pop: None,
            weather: desc("Clear", "clear sky"),
        }],
    }
}

fn ui() -> UiConfigResolved {
    UiConfigResolved::from_config(&None)
}

fn bands() -> Vec<TempBand> {
    TempBand::from_config(&None)
}

#[test]
fn wrap_with_style_wraps_each_line() {
    assert_eq!(
        wrap_with_style(vec!["a".to_string(), String::new(), "<b>x</b>".to_string()], "#fff", 9),
        vec![
            "<span foreground='#fff' font='9'>a</span>",
            "<span foreground='#fff' font='9'></span>",
            "<span foreground='#fff' font='9'><b>x</b></span>",
        ]
    );
    assert_eq!(wrap_with_style(vec![], "#fff", 9), Vec::<String>::new());
    assert_eq!(
        wrap_with_style(vec!["z".to_string()], "", 255),
        vec!["<span foreground='' font='255'>z</span>"]
    );
    assert_eq!(
        wrap_with_style(vec!["z".to_string()], "red", 0),
        vec!["<span foreground='red' font='0'>z</span>"]
    );
}

#[test]
fn current_weather_lines() {
    let data = sample();
    assert!(is_valid_response(&data));
    let (text, lines) = format_current_weather(&data, "Derby, KS", &bands(), Units::Imperial);
    assert_eq!(text, "| ☁️ <span foreground='#81c8be'>73°F</span>");
    assert_eq!(
        lines,
        vec![
            "🌍 <b>Derby, KS</b>",
            "☁️ <span foreground='#81c8be' size='large'>73°F</span>  scattered clouds",
            "Feels like 71° • Hum 53% • UV <span foreground='#ebcb8b'>5</span>",
            "Wind 9 mph SW • Rain 13%",
            "🌅 22:46  🌇 12:40 • 👁️ 6mi • 🌪️ 1015hPa",
        ]
    );
}

#[test]
fn current_weather_in_metric_with_gaps() {
    let mut data = sample();
    data.current = Current {
        dt: 0,
        temp: -3_500,
        feels_like: None,
        pressure: None,
        humidity: None,
        uvi: None,
        visibility: None,
        wind_speed: None,
        wind_deg: None,
        sunrise: None,
        sunset: None,
        weather: vec![],
    };
    data.hourly.clear();
    let (text, lines) = format_current_weather(&data, "R&B <Town>", &[], Units::Metric);
    assert_eq!(text, "| ☀️ <span foreground='#ffffff'>-4°C</span>");
    assert_eq!(
        lines,
        vec![
            "🌍 <b>R&amp;B &lt;Town&gt;</b>",
            "☀️ <span foreground='#ffffff' size='large'>-4°C</span>  Clear",
            "Feels like — • Hum 0% • UV <span foreground='#a3be8c'>0</span>",
            "Wind 0 m/s N • Rain 0%",
            "🌅 -:-  🌇 -:- • 👁️ 10km • 🌪️ 0hPa",
        ]
    );
    data.current.weather = vec![WeatherDesc { main: Some("Mist".into()), description: None }];
    data.current.visibility = Some(804);
    let (_, lines) = format_current_weather(&data, "", &[], Units::Imperial);
    assert_eq!(lines[1], "❓ <span foreground='#ffffff' size='large'>-4°F</span>  N/A");
    // 804 m are just short of half a mile; 805 m are just over
    assert!(lines[4].contains("👁️ 0mi"));
    data.current.visibility = Some(805);
    let (_, lines) = format_current_weather(&data, "", &[], Units::Imperial);
    assert!(lines[4].contains("👁️ 1mi"));
    data.current.visibility = Some(1_500);
    let (_, lines) = format_current_weather(&data, "", &[], Units::Metric);
    assert!(lines[4].contains("👁️ 2km"));
}

#[test]
fn hourly_forecast_lines() {
    let data = sample();
    let lines = format_hourly_forecast(&data.hourly, data.timezone_offset, &ui(), &bands());
    assert_eq!(
        lines,
        vec!["8AM  <span foreground='#81c8be' font='9'>71°</span> 🌧️ light rain   💧13%"]
    );
}

#[test]
fn hourly_forecast_shows_twelve_hours_at_most() {
    let mut data = sample();
    let first = data.hourly[0].clone();
    data.hourly = (0..30)
        .map(|i| {
            let mut h = first.clone();
            h.dt += 3_600 * i;
            h.temp = 50_000 + 1_000 * i;
            h
        })
        .collect();
    let lines = format_hourly_forecast(&data.hourly, data.timezone_offset, &ui(), &bands());
    assert_eq!(lines.len(), 12);
    assert!(lines[0].starts_with("8AM  <span foreground='#8caaee' font='9'>50°</span>"));
    assert!(lines[2].starts_with("10AM <span foreground='#8caaee' font='9'>52°</span>"));
    assert!(lines[11].starts_with("7PM  <span foreground='#85c1dc' font='9'>61°</span>"));
    assert_eq!(format_hourly_forecast(&[], 0, &ui(), &bands()), Vec::<String>::new());
}

#[test]
fn forecast_lines_cut_and_escape_the_description() {
    let mut data = sample();
    data.hourly[0].weather = desc("Rain", "  heavy <intensity> rain & wind ");
    data.hourly[0].pop = Some(4);
    let lines = format_hourly_forecast(&data.hourly, data.timezone_offset, &ui(), &bands());
    // cut to ten bytes, then escaped, then padded to twelve characters
    assert_eq!(
        lines[0],
        "8AM  <span foreground='#81c8be' font='9'>71°</span> 🌧️ heavy &lt;int "
    );
    data.hourly[0].weather = vec![WeatherDesc { main: Some("Rain".into()), description: None }];
    let wide = UiConfigResolved { font_size: 12, max_desc_len: 3 };
    let lines = format_hourly_forecast(&data.hourly, data.timezone_offset, &wide, &bands());
    assert_eq!(
        lines[0],
        "8AM  <span foreground='#81c8be' font='12'>71°</span> 🌧️ —            "
    );
    data.hourly[0].weather.clear();
    let lines = format_hourly_forecast(&data.hourly, data.timezone_offset, &wide, &bands());
    assert_eq!(
        lines[0],
        "8AM  <span foreground='#81c8be' font='12'>71°</span> ❓ —            "
    );
}

#[test]
fn daily_forecast_lines() {
    let data = sample();
    let lines = format_daily_forecast(&data.daily, data.timezone_offset, &ui(), &bands());
    assert_eq!(
        lines,
        vec!["Wed <span foreground='#81c8be' font='9'>75°</span>/<span foreground='#99d1db' font='9'>65°</span> ☀️ clear sky    "]
    );
    let mut more = data.daily.clone();
    for i in 1..8 {
        let mut d = data.daily[0].clone();
        d.dt += 86_400 * i;
        d.temp = TempRange { day: Some(40_400), min: None, max: None };
        d.pop = Some(1_000);
        more.push(d);
    }
    let lines = format_daily_forecast(&more, data.timezone_offset, &ui(), &bands());
    assert_eq!(lines.len(), 5);
    assert_eq!(
        lines[1],
        "Thu <span foreground='#8caaee' font='9'>40°</span>/<span foreground='#8caaee' font='9'>0°</span> ☀️ clear sky    💧100%"
    );
}

#[test]
fn popup_text() {
    let data = sample();
    let colors = ColorsResolved::from_config(&None);
    let (text, tooltip) =
        format_popup_text(&data, "Derby, KS", &ui(), &colors, &bands(), Units::Imperial);
    assert_eq!(text, "| ☁️ <span foreground='#81c8be'>73°F</span>");
    let w = |s: &str| format!("<span foreground='#ffffff' font='9'>{}</span>", s);
    let expected = vec![
        w("🌍 <b>Derby, KS</b>"),
        w("☁️ <span foreground='#81c8be' size='large'>73°F</span>  scattered clouds"),
        w("Feels like 71° • Hum 53% • UV <span foreground='#ebcb8b'>5</span>"),
        w("Wind 9 mph SW • Rain 13%"),
        w("🌅 22:46  🌇 12:40 • 👁️ 6mi • 🌪️ 1015hPa"),
        String::new(),
        "<span foreground='#f4b8e4' font='9' weight='bold'>HOURS ▄</span>".to_string(),
        w("8AM  <span foreground='#81c8be' font='9'>71°</span> 🌧️ light rain   💧13%"),
        String::new(),
        "<span foreground='#f4b8e4' font='9' weight='bold'>DAYS</span>".to_string(),
        w("Wed <span foreground='#81c8be' font='9'>75°</span>/<span foreground='#99d1db' font='9'>65°</span> ☀️ clear sky    "),
    ];
    assert_eq!(tooltip, expected.join("\n"));
}

#[test]
fn popup_text_without_forecasts() {
    let mut data = sample();
    data.hourly.clear();
    data.daily.clear();
    let colors = ColorsResolved { header: "#123456".into(), text: "#abcdef".into() };
    let (_, tooltip) = format_popup_text(&data, "X", &ui(), &colors, &bands(), Units::Imperial);
    let lines: Vec<&str> = tooltip.split('\n').collect();
    assert_eq!(lines.len(), 9);
    assert_eq!(lines[0], "<span foreground='#abcdef' font='9'>🌍 <b>X</b></span>");
    assert_eq!(lines[5], "");
    assert_eq!(lines[6], "<span foreground='#123456' font='9' weight='bold'>HOURS </span>");
    assert_eq!(lines[7], "");
    assert_eq!(lines[8], "<span foreground='#123456' font='9' weight='bold'>DAYS</span>");
}

#[test]
fn popup_sparkline_follows_the_first_twelve_hours() {
    let mut data = sample();
    let first = data.hourly[0].clone();
    data.hourly = (0..14)
        .map(|i| {
            let mut h = first.clone();
            h.dt += 3_600 * i;
            h.temp = if i < 12 { 1_000 * (i % 8) } else { 900_000 };
            h
        })
        .collect();
    let colors = ColorsResolved::from_config(&None);
    let (_, tooltip) = format_popup_text(&data, "X", &ui(), &colors, &bands(), Units::Imperial);
    let lines: Vec<&str> = tooltip.split('\n').collect();
    assert_eq!(
        lines[6],
        "<span foreground='#f4b8e4' font='9' weight='bold'>HOURS  ▂▃▄▅▆▇█ ▂▃▄</span>"
    );
    assert_eq!(lines.len(), 5 + 2 + 12 + 2 + 1);
}

#[test]
fn visible_length_skips_tags() {
    assert_eq!(visible_len(""), 0);
    assert_eq!(visible_len("abc"), 3);
    assert_eq!(visible_len("<b>abc</b>"), 3);
    assert_eq!(visible_len("<span foreground='#fff'>73°F</span> ok"), 7);
    assert_eq!(visible_len("a > b"), 5);
    assert_eq!(visible_len("a < b"), 2);
    assert_eq!(visible_len("<<>>"), 1);
    assert_eq!(visible_len("🌍 <b>é</b>"), 3);
}
