use redweather::config::TempBand;
use redweather::utils::{
    deg_to_dir, escape_pango, is_white_space, pick_icon, short_desc, sparkline, temp_color,
    trim_text, try_short_desc, uvi_color,
};
use redweather::weather::WeatherDesc;

#[test]
fn test_deg_to_dir() {
    assert_eq!(deg_to_dir(Some(0)), "N");
    assert_eq!(deg_to_dir(Some(45)), "NE");
    assert_eq!(deg_to_dir(Some(90)), "E");
    assert_eq!(deg_to_dir(Some(135)), "SE");
    assert_eq!(deg_to_dir(Some(180)), "S");
    assert_eq!(deg_to_dir(Some(225)), "SW");
    assert_eq!(deg_to_dir(Some(270)), "W");
    assert_eq!(deg_to_dir(Some(315)), "NW");
    assert_eq!(deg_to_dir(Some(360)), "N");
    assert_eq!(deg_to_dir(None), "N");
}

#[test]
fn deg_to_dir_sector_edges() {
    assert_eq!(deg_to_dir(Some(22)), "N");
    assert_eq!(deg_to_dir(Some(23)), "NE");
    assert_eq!(deg_to_dir(Some(67)), "NE");
    assert_eq!(deg_to_dir(Some(68)), "E");
    assert_eq!(deg_to_dir(Some(337)), "NW");
    assert_eq!(deg_to_dir(Some(338)), "N");
    assert_eq!(deg_to_dir(Some(-22)), "N");
    assert_eq!(deg_to_dir(Some(-23)), "N");
    assert_eq!(deg_to_dir(Some(-400)), "N");
    assert_eq!(deg_to_dir(Some(405)), "NE");
    assert_eq!(deg_to_dir(Some(i64::MAX)), deg_to_dir(Some(i64::MAX)));
    assert_eq!(deg_to_dir(Some(i64::MIN)), "N");
}

#[test]
fn test_pick_icon() {
    let thunder = WeatherDesc {
        main: Some("Thunderstorm".into()),
        description: Some("thunderstorm with rain".into()),
    };
    assert_eq!(pick_icon(&thunder), "⛈️");

    let snow = WeatherDesc {
        main: Some("Snow".into()),
        description: Some("light snow".into()),
    };
    assert_eq!(pick_icon(&snow), "❄️");

    let rain = WeatherDesc {
        main: Some("Rain".into()),
        description: Some("moderate rain".into()),
    };
    assert_eq!(pick_icon(&rain), "🌧️");

    let clear = WeatherDesc {
        main: Some("Clear".into()),
        description: Some("clear sky".into()),
    };
    assert_eq!(pick_icon(&clear), "☀️");

    let clouds = WeatherDesc {
        main: Some("Clouds".into()),
        description: Some("broken clouds".into()),
    };
    assert_eq!(pick_icon(&clouds), "☁️");
}

#[test]
fn pick_icon_lowers_the_case_and_falls_back() {
    let shouting = WeatherDesc { main: Some("RAIN".into()), description: None };
    assert_eq!(pick_icon(&shouting), "🌧️");
    let fog = WeatherDesc { main: Some("Atmosphere".into()), description: Some("Mist".into()) };
    assert_eq!(pick_icon(&fog), "🌫️");
    let sleet = WeatherDesc { main: Some("Sleet".into()), description: None };
    assert_eq!(pick_icon(&sleet), "❄️");
    let drizzle = WeatherDesc { main: None, description: Some("light drizzle".into()) };
    assert_eq!(pick_icon(&drizzle), "🌧️");
    let sun = WeatherDesc { main: None, description: Some("sunny".into()) };
    assert_eq!(pick_icon(&sun), "☀️");
    let nothing = WeatherDesc { main: None, description: None };
    assert_eq!(pick_icon(&nothing), "❓");
    let odd = WeatherDesc { main: Some("Ash".into()), description: Some("volcanic ash".into()) };
    assert_eq!(pick_icon(&odd), "❓");
    // thunder wins over rain, wherever it stands
    let both = WeatherDesc { main: Some("Rain".into()), description: Some("thunder".into()) };
    assert_eq!(pick_icon(&both), "⛈️");
}

#[test]
fn test_temp_color() {
    let bands = vec![
        TempBand { max: 50_000, color: "#blue".into() },
        TempBand { max: 70_000, color: "#green".into() },
        TempBand { max: 90_000, color: "#orange".into() },
        TempBand { max: 500_000, color: "#red".into() },
    ];

    assert_eq!(temp_color(40_000, &bands), "#blue");
    assert_eq!(temp_color(60_000, &bands), "#green");
    assert_eq!(temp_color(80_000, &bands), "#orange");
    assert_eq!(temp_color(100_000, &bands), "#red");
}

#[test]
fn temp_color_edges() {
    let bands = vec![
        TempBand { max: 50_000, color: "#blue".into() },
        TempBand { max: 70_000, color: "#green".into() },
    ];
    assert_eq!(temp_color(50_000, &bands), "#blue");
    assert_eq!(temp_color(50_001, &bands), "#green");
    assert_eq!(temp_color(70_001, &bands), "#green");
    assert_eq!(temp_color(0, &[]), "#ffffff");
}

#[test]
fn test_short_desc() {
    assert_eq!(short_desc("partly cloudy", 10), "partly clo");
    assert_eq!(short_desc("clear", 10), "clear");
    assert_eq!(short_desc("  cloudy  ", 10), "cloudy");
}

#[test]
fn short_desc_cuts_by_bytes() {
    assert_eq!(short_desc("\t light rain\n", 5), "light");
    assert_eq!(short_desc("   ", 3), "");
    assert_eq!(short_desc("", 0), "");
    assert_eq!(short_desc("abc", 0), "");
    // two bytes for the first character: a cut after it is fine
    assert_eq!(short_desc("éa", 2), "é");
    assert_eq!(try_short_desc("éa", 2), Some("é".to_string()));
    // a cut inside it is not
    assert_eq!(try_short_desc("éa", 1), None);
    assert_eq!(try_short_desc("partly cloudy", 10), Some("partly clo".to_string()));
    assert_eq!(try_short_desc("  éa  ", 10), Some("éa".to_string()));
}

#[test]
fn white_space_is_what_the_standard_library_trims() {
    let mut count = 0;
    for code in 0..=0x10_FFFF_u32 {
        if let Some(c) = char::from_u32(code) {
            assert_eq!(is_white_space(c), c.is_whitespace(), "U+{:04X}", code);
            if is_white_space(c) {
                count += 1;
            }
        }
    }
    assert_eq!(count, 25);
    for text in ["", " ", "  a  ", "\u{2003}a\u{85}b\u{2029}", "\u{200b} a", "a\tb\n", " \u{feff} "] {
        assert_eq!(trim_text(text), text.trim());
    }
}

#[test]
fn test_sparkline() {
    let data = vec![10_000, 20_000, 30_000, 40_000, 50_000, 60_000, 70_000, 80_000];
    let sl = sparkline(&data);
    assert_eq!(sl.chars().count(), 8);
    // Should start low and end high
    assert!(sl.starts_with(' '));
    assert!(sl.ends_with('█'));
}

#[test]
fn sparkline_levels() {
    assert_eq!(sparkline(&[]), "");
    assert_eq!(sparkline(&[5, 5, 5]), "▄▄▄");
    assert_eq!(sparkline(&[7]), "▄");
    assert_eq!(sparkline(&[0, 7]), " █");
    assert_eq!(sparkline(&[0, 1, 2, 3, 4, 5, 6, 7]), " ▂▃▄▅▆▇█");
    // a half rounds up: 1/2 of the span is 3.5 sevenths
    assert_eq!(sparkline(&[0, 1, 2]), " ▅█");
    assert_eq!(sparkline(&[i64::MIN, 0, i64::MAX]), " ▅█");
}

#[test]
fn test_uvi_color() {
    assert_eq!(uvi_color(1_000), "#a3be8c");
    assert_eq!(uvi_color(12_000), "#b48ead");
}

#[test]
fn uvi_color_steps() {
    assert_eq!(uvi_color(2_999), "#a3be8c");
    assert_eq!(uvi_color(3_000), "#ebcb8b");
    assert_eq!(uvi_color(5_999), "#ebcb8b");
    assert_eq!(uvi_color(6_000), "#d08770");
    assert_eq!(uvi_color(8_000), "#bf616a");
    assert_eq!(uvi_color(10_999), "#bf616a");
    assert_eq!(uvi_color(11_000), "#b48ead");
    assert_eq!(uvi_color(-5), "#a3be8c");
}

#[test]
fn test_escape_pango() {
    assert_eq!(escape_pango("Safe"), "Safe");
    assert_eq!(escape_pango("R&B"), "R&amp;B");
    assert_eq!(escape_pango("<tag>"), "&lt;tag&gt;");
    assert_eq!(escape_pango("'Quote'"), "&apos;Quote&apos;");
}

#[test]
fn escape_pango_all_five() {
    assert_eq!(escape_pango("\"a\" & <b>'c'"), "&quot;a&quot; &amp; &lt;b&gt;&apos;c&apos;");
    assert_eq!(escape_pango(""), "");
    assert_eq!(escape_pango("&amp;"), "&amp;amp;");
    assert_eq!(escape_pango("日本 & ☀"), "日本 &amp; ☀");
}
