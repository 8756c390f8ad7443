use redweather::config::{
    ColorsConfig, ColorsResolved, Config, DashboardConfig, DashboardConfigResolved, TempBand,
    UiConfig, UiConfigResolved, Units,
};

#[test]
fn test_ui_config_resolved_defaults() {
    let config = UiConfigResolved::from_config(&None);
    assert_eq!(config.font_size, 9);
    assert_eq!(config.max_desc_len, 10);

    let custom = Some(UiConfig { font_size: Some(12), max_desc_len: Some(20) });
    let config = UiConfigResolved::from_config(&custom);
    assert_eq!(config.font_size, 12);
    assert_eq!(config.max_desc_len, 20);
}

#[test]
fn test_colors_resolved_defaults() {
    let colors = ColorsResolved::from_config(&None);
    assert_eq!(colors.header, "#f4b8e4");
    assert_eq!(colors.text, "#ffffff");

    let custom = Some(ColorsConfig { header: Some("#123456".into()), text: Some("#abcdef".into()) });
    let colors = ColorsResolved::from_config(&custom);
    assert_eq!(colors.header, "#123456");
    assert_eq!(colors.text, "#abcdef");
}

#[test]
fn test_temp_bands_defaults() {
    let bands = TempBand::from_config(&None);
    assert_eq!(bands.len(), 9);
    assert_eq!(bands[0].max, 59_000);
    assert_eq!(bands[8].max, 500_000);
}

#[test]
fn temp_bands_from_file_or_default() {
    let empty = TempBand::from_config(&Some(vec![]));
    assert_eq!(empty.len(), 9);
    assert_eq!(empty[3].color, "#81c8be");
    let own = TempBand::from_config(&Some(vec![TempBand { max: 1_000, color: "#000".into() }]));
    assert_eq!(own.len(), 1);
    assert_eq!(own[0].max, 1_000);
    assert_eq!(own[0].color, "#000");
}

#[test]
fn partial_sections_fall_back_field_by_field() {
    let ui = UiConfigResolved::from_config(&Some(UiConfig { font_size: None, max_desc_len: Some(4) }));
    assert_eq!(ui.font_size, 9);
    assert_eq!(ui.max_desc_len, 4);
    let colors =
        ColorsResolved::from_config(&Some(ColorsConfig { header: None, text: Some("#111".into()) }));
    assert_eq!(colors.header, "#f4b8e4");
    assert_eq!(colors.text, "#111");
}

#[test]
fn dashboard_defaults() {
    let r = DashboardConfigResolved::from_config(&None);
    assert!(r.show_hourly_graph);
    assert_eq!(r.forecast_hours, 24);
    assert_eq!(r.forecast_days, 7);
    assert_eq!(r.window_width, 500);
    assert_eq!(r.window_height, 700);
}

#[test]
fn dashboard_zero_counts_mean_default() {
    let c = DashboardConfig {
        show_hourly_graph: false,
        forecast_hours: 0,
        forecast_days: 3,
        window_width: Some(800),
        window_height: None,
    };
    let r = DashboardConfigResolved::from_config(&Some(c));
    assert!(!r.show_hourly_graph);
    assert_eq!(r.forecast_hours, 24);
    assert_eq!(r.forecast_days, 3);
    assert_eq!(r.window_width, 800);
    assert_eq!(r.window_height, 700);
}

#[test]
fn default_values() {
    assert_eq!(Units::default(), Units::Imperial);
    let d = DashboardConfig::default();
    assert!(d.show_hourly_graph);
    assert_eq!(d.forecast_hours, 24);
    assert_eq!(d.forecast_days, 7);
    assert_eq!(d.window_width, None);
    assert_eq!(d.window_height, None);
    let c = Config::default();
    assert_eq!(c.units, Units::Imperial);
    assert!(c.location_presets.is_none());
    assert!(c.active_preset.is_none());
    assert!(c.dashboard.is_none());
}
