use redweather::config::{
    migrate_legacy_location_section, set_location_preset, upsert_preset, Config, LegacyLocation,
    LocationPreset, Units,
};
use redweather::service::{
    after_failure, cache_file, cache_key, coordinate_text, direct_label, is_fresh, preset_location,
    preset_name, units_from_id, units_param, zip_label, zip_query, Retry, CACHE_MAX_AGE_SECS,
    MAX_RETRIES,
};
use redweather::utils::{same_text, trim_text};

fn preset(name: &str, lat: i64, label: &str) -> LocationPreset {
    LocationPreset { name: name.into(), lat, lon: -lat, label: label.into() }
}

fn names(c: &Config) -> Vec<String> {
    c.location_presets.as_ref().map_or(vec![], |v| v.iter().map(|p| p.name.clone()).collect())
}

#[test]
fn test_cache_path_sanitization() {
    let key = "37.545_-97.268";
    let path = cache_file(key);
    assert!(path.contains("cache_37_545__97_268"));
}

#[test]
fn cache_file_keeps_letters_and_digits() {
    assert_eq!(cache_file("37.545_-97.268"), ".cache/redweather/cache_37_545__97_268.json");
    assert_eq!(cache_file(""), ".cache/redweather/cache_.json");
    assert_eq!(cache_file("Zürich/../8001"), ".cache/redweather/cache_Zürich____8001.json");
    assert_eq!(cache_file("a b\tc"), ".cache/redweather/cache_a_b_c.json");
}

#[test]
fn cache_keys_have_three_places() {
    assert_eq!(cache_key(37_545_000, -97_268_000), "37.545_-97.268");
    assert_eq!(cache_key(0, 0), "0.000_0.000");
    assert_eq!(cache_key(37_545_500, 37_544_500), "37.546_37.544");
    assert_eq!(cache_key(37_545_501, 37_545_499), "37.546_37.545");
    assert_eq!(cache_key(-400, 999_600), "-0.000_1.000");
    assert_eq!(cache_key(-90_000_000, 180_000_000), "-90.000_180.000");
    assert_eq!(cache_key(5_000, 50), "0.005_0.000");
    assert_eq!(cache_key(i64::MIN, i64::MAX), "-9223372036854.776_9223372036854.776");
}

#[test]
fn coordinates_as_the_service_reads_them() {
    assert_eq!(coordinate_text(37_545_000), "37.545");
    assert_eq!(coordinate_text(-97_268_000), "-97.268");
    assert_eq!(coordinate_text(40_000_000), "40");
    assert_eq!(coordinate_text(0), "0");
    assert_eq!(coordinate_text(1), "0.000001");
    assert_eq!(coordinate_text(-500_000), "-0.5");
    assert_eq!(coordinate_text(12_340_560), "12.34056");
    assert_eq!(coordinate_text(100_000), "0.1");
    assert_eq!(coordinate_text(1_010_101), "1.010101");
    assert_eq!(coordinate_text(i64::MIN), "-9223372036854.775808");
    assert_eq!(coordinate_text(i64::MAX), "9223372036854.775807");
}

#[test]
fn cached_answers_stay_fresh_for_ten_minutes() {
    assert_eq!(CACHE_MAX_AGE_SECS, 600);
    assert!(is_fresh(1_000, 1_000));
    assert!(is_fresh(1_000, 1_600));
    assert!(!is_fresh(1_000, 1_601));
    assert!(is_fresh(2_000, 1_000));
    assert!(!is_fresh(i64::MIN, i64::MAX));
    assert!(is_fresh(i64::MAX, i64::MIN));
}

#[test]
fn failed_requests_back_off() {
    assert_eq!(MAX_RETRIES, 3);
    assert_eq!(after_failure(0), Retry::Wait(500));
    assert_eq!(after_failure(1), Retry::Wait(1_000));
    assert_eq!(after_failure(2), Retry::GiveUp);
    assert_eq!(after_failure(3), Retry::GiveUp);
    assert_eq!(after_failure(u32::MAX), Retry::GiveUp);
}

#[test]
fn unit_names() {
    assert_eq!(units_param(Units::Imperial), "imperial");
    assert_eq!(units_param(Units::Metric), "metric");
    assert_eq!(units_from_id("metric"), Units::Metric);
    assert_eq!(units_from_id("imperial"), Units::Imperial);
    assert_eq!(units_from_id("Metric"), Units::Imperial);
    assert_eq!(units_from_id("metric "), Units::Imperial);
    assert_eq!(units_from_id(""), Units::Imperial);
    assert!(same_text("", ""));
    assert!(same_text("é", "é"));
    assert!(!same_text("a", "ab"));
    assert!(!same_text("ab", "ac"));
}

#[test]
fn postal_codes_and_labels() {
    assert_eq!(zip_query("67037"), "67037,US");
    assert_eq!(zip_query("E1 6AN,GB"), "E1 6AN,GB");
    assert_eq!(zip_query(","), ",");
    assert_eq!(zip_query(""), ",US");
    let s = |x: &str| Some(x.to_string());
    assert_eq!(zip_label("67037", s("Derby"), s("US")), "Derby, US");
    assert_eq!(zip_label("67037", None, s("US")), "ZIP 67037, US");
    assert_eq!(zip_label("67037", s("Derby"), None), "Derby");
    assert_eq!(zip_label("67037", None, None), "ZIP 67037");
    assert_eq!(direct_label("wichita", s("Wichita"), s("US"), s("Kansas")), "Wichita, US (Kansas)");
    assert_eq!(direct_label("wichita", None, None, s("Kansas")), "wichita (Kansas)");
    assert_eq!(direct_label("wichita", None, s("US"), None), "wichita, US");
    assert_eq!(direct_label("wichita", None, None, None), "wichita");
}

#[test]
fn preset_names_come_from_labels() {
    assert_eq!(preset_name("Wichita, US"), "Wichita");
    assert_eq!(preset_name("  Derby "), "Derby");
    assert_eq!(preset_name("New York , US (New York)"), "New York");
    assert_eq!(preset_name(", x"), "");
    assert_eq!(preset_name(""), "");
    assert_eq!(preset_name("Zürich,CH"), "Zürich");
    assert_eq!(trim_text("\u{a0}\u{3000} a b \r\n"), "a b");
    assert_eq!(trim_text("\u{200b}a"), "\u{200b}a");
}

#[test]
fn configuration_points_to_a_place() {
    let mut c = Config::default();
    assert!(preset_location(&c).is_none());
    c.location_presets = Some(vec![]);
    c.active_preset = Some("home".into());
    assert!(preset_location(&c).is_none());
    c.location_presets =
        Some(vec![preset("work", 1, "Work"), preset("home", 2, "Home"), preset("home", 3, "Again")]);
    let loc = preset_location(&c).unwrap();
    assert_eq!((loc.lat, loc.lon, loc.label.as_str()), (2, -2, "Home"));
    c.active_preset = Some("away".into());
    let loc = preset_location(&c).unwrap();
    assert_eq!((loc.lat, loc.label.as_str()), (1, "Work"));
    c.active_preset = None;
    assert_eq!(preset_location(&c).unwrap().label, "Work");
}

#[test]
fn upsert_adds_a_preset_once() {
    let mut c = Config::default();
    assert!(upsert_preset(&mut c, preset("home", 1, "Home")));
    assert_eq!(names(&c), vec!["home"]);
    assert_eq!(c.active_preset.as_deref(), Some("home"));
    // the name is taken: nothing changes, and the entry is not overwritten
    assert!(!upsert_preset(&mut c, preset("home", 9, "Other")));
    assert_eq!(names(&c), vec!["home"]);
    assert_eq!(c.location_presets.as_ref().unwrap()[0].lat, 1);
    assert!(upsert_preset(&mut c, preset("work", 2, "Work")));
    assert_eq!(names(&c), vec!["home", "work"]);
    assert_eq!(c.active_preset.as_deref(), Some("home"));
    // without an active preset the first one becomes it
    c.active_preset = None;
    assert!(upsert_preset(&mut c, preset("work", 3, "Work")));
    assert_eq!(names(&c), vec!["home", "work"]);
    assert_eq!(c.active_preset.as_deref(), Some("home"));
    let mut empty = Config::default();
    empty.location_presets = Some(vec![]);
    empty.active_preset = Some("gone".into());
    assert!(upsert_preset(&mut empty, preset("a", 1, "A")));
    assert_eq!(empty.active_preset.as_deref(), Some("gone"));
}

#[test]
fn saving_a_place_replaces_its_preset_and_activates_it() {
    let mut c = Config::default();
    c.units = Units::Metric;
    set_location_preset(&mut c, preset("home", 1, "Home"));
    set_location_preset(&mut c, preset("work", 2, "Work"));
    assert_eq!(names(&c), vec!["home", "work"]);
    assert_eq!(c.active_preset.as_deref(), Some("work"));
    set_location_preset(&mut c, preset("home", 5, "New home"));
    assert_eq!(names(&c), vec!["home", "work"]);
    let first = &c.location_presets.as_ref().unwrap()[0];
    assert_eq!((first.lat, first.lon, first.label.as_str()), (5, -5, "New home"));
    assert_eq!(c.active_preset.as_deref(), Some("home"));
    assert_eq!(c.units, Units::Metric);
}

#[test]
fn an_old_location_section_becomes_a_preset() {
    let legacy = |lat: Option<i64>, lon: Option<i64>, label: Option<&str>| {
        Some(LegacyLocation { lat, lon, label: label.map(String::from) })
    };
    let mut c = Config::default();
    assert!(!migrate_legacy_location_section(&mut c, None));
    assert!(!migrate_legacy_location_section(&mut c, legacy(Some(1), None, None)));
    assert!(!migrate_legacy_location_section(&mut c, legacy(None, Some(1), Some("x"))));
    assert!(c.location_presets.is_none());
    assert!(migrate_legacy_location_section(&mut c, legacy(Some(37_545_000), Some(-97_268_000), None)));
    let p = &c.location_presets.as_ref().unwrap()[0];
    assert_eq!((p.name.as_str(), p.lat, p.lon), ("imported", 37_545_000, -97_268_000));
    assert_eq!(p.label, "Imported location");
    assert_eq!(c.active_preset.as_deref(), Some("imported"));
    // presets exist: nothing is imported
    assert!(!migrate_legacy_location_section(&mut c, legacy(Some(1), Some(2), Some("x"))));
    assert_eq!(names(&c), vec!["imported"]);
    let mut named = Config::default();
    named.location_presets = Some(vec![]);
    named.active_preset = Some("home".into());
    assert!(migrate_legacy_location_section(&mut named, legacy(Some(1), Some(2), Some("Derby"))));
    assert_eq!(named.location_presets.as_ref().unwrap()[0].label, "Derby");
    assert_eq!(named.active_preset.as_deref(), Some("home"));
}
