//! Settings as they come from the configuration file, and the same with the
//! defaults filled in.

use vstd::prelude::*;
use vstd::string::StringExecFns;

verus! {

/// Unit system for temperature and speed.
#[derive(Debug, Clone, Copy, PartialEq, Eq, Structural)]
pub enum Units {
    Imperial,
    Metric,
}

impl Default for Units {
    fn default() -> (u: Self)
        ensures
            u == Units::Imperial,
    {
        Units::Imperial
    }
}

/// A colour for temperatures up to `max`, in thousandths of a degree.
#[derive(Debug, Clone)]
pub struct TempBand {
    pub max: i64,
    pub color: String,
}

/// What the configuration file says about the text.
#[derive(Debug, Clone)]
pub struct UiConfig {
    pub font_size: Option<u8>,
    pub max_desc_len: Option<usize>,
}

/// What the configuration file says about colours.
#[derive(Debug, Clone)]
pub struct ColorsConfig {
    pub header: Option<String>,
    pub text: Option<String>,
}

/// A named place. Latitude and longitude are in millionths of a degree.
#[derive(Debug, Clone)]
pub struct LocationPreset {
    pub name: String,
    pub lat: i64,
    pub lon: i64,
    pub label: String,
}

/// What the configuration file says about the dashboard. A count of zero
/// stands for "not given".
#[derive(Debug, Clone)]
pub struct DashboardConfig {
    pub show_hourly_graph: bool,
    pub forecast_hours: usize,
    pub forecast_days: usize,
    pub window_width: Option<i32>,
    pub window_height: Option<i32>,
}

impl Default for DashboardConfig {
    fn default() -> (c: Self)
        ensures
            c.show_hourly_graph,
            c.forecast_hours == 24,
            c.forecast_days == 7,
            c.window_width is None,
            c.window_height is None,
    {
        DashboardConfig {
            show_hourly_graph: true,
            forecast_hours: 24,
            forecast_days: 7,
            window_width: None,
            window_height: None,
        }
    }
}

/// The configuration file.
#[derive(Debug, Clone)]
pub struct Config {
    pub units: Units,
    pub location_presets: Option<Vec<LocationPreset>>,
    pub active_preset: Option<String>,
    pub ui: Option<UiConfig>,
    pub colors: Option<ColorsConfig>,
    pub temp_bands: Option<Vec<TempBand>>,
    pub dashboard: Option<DashboardConfig>,
}

impl Default for Config {
    fn default() -> (c: Self)
        ensures
            c.units == Units::Imperial,
            c.location_presets is None,
            c.active_preset is None,
            c.ui is None,
            c.colors is None,
            c.temp_bands is None,
            c.dashboard is None,
    {
        Config {
            units: Units::Imperial,
            location_presets: None,
            active_preset: None,
            ui: None,
            colors: None,
            temp_bands: None,
            dashboard: None,
        }
    }
}

/// Dashboard settings with the defaults filled in.
#[derive(Debug, Clone)]
pub struct DashboardConfigResolved {
    pub show_hourly_graph: bool,
    pub forecast_hours: usize,
    pub forecast_days: usize,
    pub window_width: i32,
    pub window_height: i32,
}

/// Text settings with the defaults filled in.
#[derive(Debug, Clone)]
pub struct UiConfigResolved {
    pub font_size: u8,
    pub max_desc_len: usize,
}

/// Colours with the defaults filled in.
#[derive(Debug, Clone)]
pub struct ColorsResolved {
    pub header: String,
    pub text: String,
}

/// `v`, or `default` where `v` is zero.
pub open spec fn or_default(v: usize, default: usize) -> usize {
    if v == 0 {
        default
    } else {
        v
    }
}

impl DashboardConfigResolved {
    /// The dashboard settings: 24 hours and 7 days where the file gives no
    /// count or zero, a window of 500 by 700 where it gives no size, and the
    /// hourly graph shown where there is no dashboard section at all.
    pub fn from_config(c: &Option<DashboardConfig>) -> (r: Self)
        ensures
            r.show_hourly_graph == match c {
                Some(c) => c.show_hourly_graph,
                None => true,
            },
            r.forecast_hours == match c {
                Some(c) => or_default(c.forecast_hours, 24),
                None => 24,
            },
            r.forecast_days == match c {
                Some(c) => or_default(c.forecast_days, 7),
                None => 7,
            },
            r.window_width == match c {
                Some(c) => match c.window_width {
                    Some(w) => w,
                    None => 500,
                },
                None => 500,
            },
            r.window_height == match c {
                Some(c) => match c.window_height {
                    Some(h) => h,
                    None => 700,
                },
                None => 700,
            },
    {
        let defaults = DashboardConfig::default();
        match c {
            Some(c) => DashboardConfigResolved {
                show_hourly_graph: c.show_hourly_graph,
                forecast_hours: if c.forecast_hours == 0 {
                    defaults.forecast_hours
                } else {
                    c.forecast_hours
                },
                forecast_days: if c.forecast_days == 0 {
                    defaults.forecast_days
                } else {
                    c.forecast_days
                },
                window_width: match c.window_width {
                    Some(w) => w,
                    None => 500,
                },
                window_height: match c.window_height {
                    Some(h) => h,
                    None => 700,
                },
            },
            None => DashboardConfigResolved {
                show_hourly_graph: defaults.show_hourly_graph,
                forecast_hours: defaults.forecast_hours,
                forecast_days: defaults.forecast_days,
                window_width: 500,
                window_height: 700,
            },
        }
    }
}

impl UiConfigResolved {
    /// The text settings: a font size of 9 and descriptions of up to 10
    /// bytes where the file does not say.
    pub fn from_config(ui: &Option<UiConfig>) -> (r: Self)
        ensures
            r.font_size == match ui {
                Some(u) => match u.font_size {
                    Some(s) => s,
                    None => 9,
                },
                None => 9,
            },
            r.max_desc_len == match ui {
                Some(u) => match u.max_desc_len {
                    Some(n) => n,
                    None => 10,
                },
                None => 10,
            },
    {
        match ui {
            Some(u) => UiConfigResolved {
                font_size: match u.font_size {
                    Some(s) => s,
                    None => 9,
                },
                max_desc_len: match u.max_desc_len {
                    Some(n) => n,
                    None => 10,
                },
            },
            None => UiConfigResolved { font_size: 9, max_desc_len: 10 },
        }
    }
}

impl ColorsResolved {
    /// The colours: `#f4b8e4` for headers and `#ffffff` for text where the
    /// file does not say.
    pub fn from_config(c: &Option<ColorsConfig>) -> (r: Self)
        ensures
            r.header@ == match c {
                Some(c) => match c.header {
                    Some(h) => h@,
                    None => "#f4b8e4"@,
                },
                None => "#f4b8e4"@,
            },
            r.text@ == match c {
                Some(c) => match c.text {
                    Some(t) => t@,
                    None => "#ffffff"@,
                },
                None => "#ffffff"@,
            },
    {
        let header = match c {
            Some(c) => match &c.header {
                Some(h) => h.clone(),
                None => String::from_str("#f4b8e4"),
            },
            None => String::from_str("#f4b8e4"),
        };
        let text = match c {
            Some(c) => match &c.text {
                Some(t) => t.clone(),
                None => String::from_str("#ffffff"),
            },
            None => String::from_str("#ffffff"),
        };
        ColorsResolved { header, text }
    }
}

/// The bands as plain values: the upper limit and the colour of each.
pub open spec fn bands_view(bands: Seq<TempBand>) -> Seq<(int, Seq<char>)> {
    Seq::new(bands.len(), |i: int| (bands[i].max as int, bands[i].color@))
}

/// The bands that are used where the file gives none.
pub open spec fn default_bands() -> Seq<(int, Seq<char>)> {
    seq![
        (59_000int, "#8caaee"@),
        (64_000int, "#85c1dc"@),
        (70_000int, "#99d1db"@),
        (75_000int, "#81c8be"@),
        (81_000int, "#a6d189"@),
        (86_000int, "#e5c890"@),
        (90_000int, "#ef9f76"@),
        (92_000int, "#ea999c"@),
        (500_000int, "#e78284"@),
    ]
}

impl TempBand {
    /// The temperature bands of the file, or the default palette where the
    /// file gives none or an empty list.
    pub fn from_config(b: &Option<Vec<TempBand>>) -> (bands: Vec<TempBand>)
        ensures
            bands_view(bands@) == match b {
                Some(v) => if v@.len() > 0 {
                    bands_view(v@)
                } else {
                    default_bands()
                },
                None => default_bands(),
            },
    {
        match b {
            Some(v) => {
                if v.len() > 0 {
                    return copy_bands(v);
                }
            },
            None => {},
        }
        let mut bands: Vec<TempBand> = Vec::new();
        bands.push(TempBand { max: 59_000, color: String::from_str("#8caaee") });
        bands.push(TempBand { max: 64_000, color: String::from_str("#85c1dc") });
        bands.push(TempBand { max: 70_000, color: String::from_str("#99d1db") });
        bands.push(TempBand { max: 75_000, color: String::from_str("#81c8be") });
        bands.push(TempBand { max: 81_000, color: String::from_str("#a6d189") });
        bands.push(TempBand { max: 86_000, color: String::from_str("#e5c890") });
        bands.push(TempBand { max: 90_000, color: String::from_str("#ef9f76") });
        bands.push(TempBand { max: 92_000, color: String::from_str("#ea999c") });
        bands.push(TempBand { max: 500_000, color: String::from_str("#e78284") });
        assert(bands_view(bands@) =~= default_bands());
        bands
    }
}

/// A copy of a list of bands.
fn copy_bands(v: &Vec<TempBand>) -> (bands: Vec<TempBand>)
    ensures
        bands_view(bands@) == bands_view(v@),
{
    let mut bands: Vec<TempBand> = Vec::new();
    let mut i: usize = 0;
    while i < v.len()
        invariant
            i <= v.len(),
            bands.len() == i,
            forall|j: int|
                0 <= j < i ==> bands@[j].max == v@[j].max && bands@[j].color@ == v@[j].color@,
        decreases v.len() - i,
    {
        bands.push(TempBand { max: v[i].max, color: v[i].color.clone() });
        i += 1;
    }
    assert(bands_view(bands@) =~= bands_view(v@));
    bands
}

/// A place as it stood in the configuration file before there were presets.
#[derive(Debug, Clone)]
pub struct LegacyLocation {
    pub lat: Option<i64>,
    pub lon: Option<i64>,
    pub label: Option<String>,
}

/// A preset as plain values: name, latitude, longitude, label.
pub open spec fn preset_view(p: LocationPreset) -> (Seq<char>, int, int, Seq<char>) {
    (p.name@, p.lat as int, p.lon as int, p.label@)
}

/// Presets as plain values.
pub open spec fn presets_view(presets: Seq<LocationPreset>) -> Seq<(Seq<char>, int, int, Seq<char>)> {
    Seq::new(presets.len(), |i: int| preset_view(presets[i]))
}

/// The presets of a configuration, none counting as an empty list.
pub open spec fn presets_of(c: Config) -> Seq<(Seq<char>, int, int, Seq<char>)> {
    match c.location_presets {
        Some(v) => presets_view(v@),
        None => Seq::empty(),
    }
}

/// The name of the active preset.
pub open spec fn active_of(c: Config) -> Option<Seq<char>> {
    match c.active_preset {
        Some(a) => Some(a@),
        None => None,
    }
}

/// Position of the first preset from `i` on that has the name, or the
/// number of presets where none has.
pub open spec fn position_from(
    presets: Seq<(Seq<char>, int, int, Seq<char>)>,
    name: Seq<char>,
    i: int,
) -> int
    decreases presets.len() - i,
{
    if i < 0 || i >= presets.len() {
        presets.len() as int
    } else if presets[i].0 == name {
        i
    } else {
        position_from(presets, name, i + 1)
    }
}

/// The presets after `preset` was added unless its name was taken.
pub open spec fn with_preset(
    presets: Seq<(Seq<char>, int, int, Seq<char>)>,
    preset: (Seq<char>, int, int, Seq<char>),
) -> Seq<(Seq<char>, int, int, Seq<char>)> {
    if position_from(presets, preset.0, 0) < presets.len() {
        presets
    } else {
        presets.push(preset)
    }
}

/// The presets after `preset` took the place of the first one of its name,
/// or was added where there was none.
pub open spec fn with_preset_replaced(
    presets: Seq<(Seq<char>, int, int, Seq<char>)>,
    preset: (Seq<char>, int, int, Seq<char>),
) -> Seq<(Seq<char>, int, int, Seq<char>)> {
    let at = position_from(presets, preset.0, 0);
    if at < presets.len() {
        presets.update(at, preset)
    } else {
        presets.push(preset)
    }
}

/// Position of the first preset that has the name, or the number of presets.
fn find_preset(presets: &Vec<LocationPreset>, name: &String) -> (at: usize)
    ensures
        at == position_from(presets_view(presets@), name@, 0),
        at <= presets.len(),
{
    let mut i: usize = 0;
    while i < presets.len()
        invariant
            i <= presets.len(),
            position_from(presets_view(presets@), name@, 0) == position_from(
                presets_view(presets@),
                name@,
                i as int,
            ),
        decreases presets.len() - i,
    {
        if presets[i].name == *name {
            return i;
        }
        i += 1;
    }
    presets.len()
}

/// Adds a preset unless one of its name is there, and makes the first preset
/// the active one where none is. Returns whether anything changed.
pub fn upsert_preset(config: &mut Config, preset: LocationPreset) -> (changed: bool)
    ensures
        presets_of(*final(config)) == with_preset(presets_of(*old(config)), preset_view(preset)),
        final(config).location_presets is Some,
        active_of(*final(config)) == match active_of(*old(config)) {
            Some(a) => Some(a),
            None => Some(presets_of(*final(config))[0].0),
        },
        changed == (presets_of(*final(config)) != presets_of(*old(config)) || active_of(
            *old(config),
        ) is None),
        final(config).units == old(config).units,
        final(config).ui == old(config).ui,
        final(config).colors == old(config).colors,
        final(config).temp_bands == old(config).temp_bands,
        final(config).dashboard == old(config).dashboard,
{
    let mut changed = false;
    let ghost before = presets_of(*config);
    let mut presets: Vec<LocationPreset> = match config.location_presets.take() {
        Some(v) => v,
        None => Vec::new(),
    };
    assert(presets_view(presets@) =~= before);
    let at = find_preset(&presets, &preset.name);
    if at == presets.len() {
        presets.push(preset);
        assert(presets_view(presets@) =~= before.push(preset_view(preset)));
        changed = true;
    }
    if config.active_preset.is_none() {
        config.active_preset = Some(presets[0].name.clone());
        changed = true;
    }
    config.location_presets = Some(presets);
    changed
}

/// Adds a preset, or puts it in the place of the first one of its name, and
/// makes it the active one.
pub fn set_location_preset(config: &mut Config, preset: LocationPreset)
    ensures
        presets_of(*final(config)) == with_preset_replaced(
            presets_of(*old(config)),
            preset_view(preset),
        ),
        final(config).location_presets is Some,
        active_of(*final(config)) == Some(preset.name@),
        final(config).units == old(config).units,
        final(config).ui == old(config).ui,
        final(config).colors == old(config).colors,
        final(config).temp_bands == old(config).temp_bands,
        final(config).dashboard == old(config).dashboard,
{
    let ghost before = presets_of(*config);
    let mut presets: Vec<LocationPreset> = match config.location_presets.take() {
        Some(v) => v,
        None => Vec::new(),
    };
    assert(presets_view(presets@) =~= before);
    let name = preset.name.clone();
    let at = find_preset(&presets, &preset.name);
    if at < presets.len() {
        presets.set(at, preset);
        assert(presets_view(presets@) =~= before.update(at as int, preset_view(preset)));
    } else {
        presets.push(preset);
        assert(presets_view(presets@) =~= before.push(preset_view(preset)));
    }
    config.location_presets = Some(presets);
    config.active_preset = Some(name);
}

/// Turns the place that an old configuration file held into the preset
/// `imported`, if it has both coordinates and there is no preset yet.
/// Returns whether anything changed.
pub fn migrate_legacy_location_section(config: &mut Config, legacy_location: Option<LegacyLocation>) -> (changed:
    bool)
    ensures
        changed == (legacy_location is Some && legacy_location->0.lat is Some
            && legacy_location->0.lon is Some && presets_of(*old(config)).len() == 0),
        !changed ==> *final(config) == *old(config),
        changed ==> presets_of(*final(config)) == seq![
            (
                "imported"@,
                legacy_location->0.lat->0 as int,
                legacy_location->0.lon->0 as int,
                match legacy_location->0.label {
                    Some(l) => l@,
                    None => "Imported location"@,
                },
            ),
        ],
        changed ==> active_of(*final(config)) == match active_of(*old(config)) {
            Some(a) => Some(a),
            None => Some("imported"@),
        },
        final(config).units == old(config).units,
        final(config).ui == old(config).ui,
        final(config).colors == old(config).colors,
        final(config).temp_bands == old(config).temp_bands,
        final(config).dashboard == old(config).dashboard,
{
    let legacy = match legacy_location {
        Some(l) => l,
        None => {
            return false;
        },
    };
    let (lat, lon) = match (legacy.lat, legacy.lon) {
        (Some(lat), Some(lon)) => (lat, lon),
        _ => {
            return false;
        },
    };
    let taken = match &config.location_presets {
        Some(v) => v.len() > 0,
        None => false,
    };
    if taken {
        return false;
    }
    let label = match legacy.label {
        Some(l) => l,
        None => String::from_str("Imported location"),
    };
    let preset = LocationPreset { name: String::from_str("imported"), lat, lon, label };
    let ghost view = preset_view(preset);
    proof {
        assert(presets_of(*config) =~= Seq::empty());
    }
    let changed = upsert_preset(config, preset);
    assert(presets_of(*config) =~= seq![view]);
    changed
}

} // verus!
