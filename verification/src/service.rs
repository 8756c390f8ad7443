//! Rules around the weather service: what is asked of it, how its places are
//! labelled, how long an answer is kept, and when a failed request is tried
//! again. The requests themselves are made elsewhere.

use vstd::prelude::*;
use vstd::string::StringExecFns;
use vstd::string::StrSliceExecFns;
use crate::config::Config;
use crate::config::LocationPreset;
use crate::config::Units;
use crate::text::decimal;
use crate::text::digit_char;
use crate::text::push_decimal;
use crate::utils::chars_of;
use crate::utils::push_char;
use crate::utils::same_text;
use crate::utils::trim_text;
use crate::utils::trimmed;
use crate::weather::Location;

verus! {

/// Seconds for which a cached answer counts as fresh.
pub const CACHE_MAX_AGE_SECS: i64 = 600;

/// Requests that are made before giving up.
pub const MAX_RETRIES: u32 = 3;

/// Milliseconds to wait after the first failure; the wait doubles from one
/// failure to the next.
pub const RETRY_BASE_DELAY_MS: u64 = 500;

/// What to do after a request has failed.
#[derive(Debug, Clone, Copy, PartialEq, Eq, Structural)]
pub enum Retry {
    /// Wait this many milliseconds, then ask again.
    Wait(u64),
    /// Report the last failure.
    GiveUp,
}

/// Whether the standard library counts a character as a letter or a digit.
pub uninterp spec fn alphanumeric(c: char) -> bool;

/// A cache key with everything but letters and digits replaced by underscores.
pub open spec fn safe_key(key: Seq<char>) -> Seq<char> {
    Seq::new(
        key.len(),
        |i: int|
            if alphanumeric(key[i]) {
                key[i]
            } else {
                '_'
            },
    )
}

/// Two to the power of a small number.
pub open spec fn doubled(times: int) -> int
    decreases times,
{
    if times <= 0 {
        1
    } else {
        2 * doubled(times - 1)
    }
}

/// What to do after request number `attempt`, counted from 0, has failed.
pub open spec fn retry_after(attempt: int) -> Retry {
    if attempt + 1 < MAX_RETRIES {
        Retry::Wait((RETRY_BASE_DELAY_MS * doubled(attempt)) as u64)
    } else {
        Retry::GiveUp
    }
}

/// Position of the first comma from `i` on, or the length of the text.
pub open spec fn comma_from(s: Seq<char>, i: int) -> int
    decreases s.len() - i,
{
    if i < 0 || i >= s.len() {
        s.len() as int
    } else if s[i] == ',' {
        i
    } else {
        comma_from(s, i + 1)
    }
}

/// The label of a place that was found by its postal code.
pub open spec fn zip_label_of(zip: Seq<char>, name: Option<String>, country: Option<String>) -> Seq<
    char,
> {
    let place = match name {
        Some(n) => n@,
        None => "ZIP "@ + zip,
    };
    match country {
        Some(c) => place + ", "@ + c@,
        None => place,
    }
}

/// The label of a place that was found by its name.
pub open spec fn direct_label_of(
    query: Seq<char>,
    name: Option<String>,
    country: Option<String>,
    state: Option<String>,
) -> Seq<char> {
    let place = match name {
        Some(n) => n@,
        None => query,
    };
    let with_country = match country {
        Some(c) => place + ", "@ + c@,
        None => place,
    };
    match state {
        Some(s) => with_country + " ("@ + s@ + ")"@,
        None => with_country,
    }
}

/// Whether a character is a letter or a digit.
///
/// Not verified: the body is the call `char::is_alphanumeric`, whose result,
/// which depends on the character alone, gets the name `alphanumeric`.
#[verifier::external_body]
pub(crate) fn is_alphanumeric(c: char) -> (b: bool)
    ensures
        b == alphanumeric(c),
{
    c.is_alphanumeric()
}

/// Path of the cache file for a key, below the home directory.
pub fn cache_file(cache_key: &str) -> (path: String)
    ensures
        path@ == ".cache/redweather/cache_"@ + safe_key(cache_key@) + ".json"@,
{
    let chars = chars_of(cache_key);
    let mut path = String::from_str(".cache/redweather/cache_");
    let mut i: usize = 0;
    assert(safe_key(cache_key@).take(0) =~= Seq::<char>::empty());
    while i < chars.len()
        invariant
            chars@ == cache_key@,
            i <= chars.len(),
            path@ == ".cache/redweather/cache_"@ + safe_key(cache_key@).take(i as int),
        decreases chars.len() - i,
    {
        let c: char = chars[i];
        let kept: char = if is_alphanumeric(c) {
            c
        } else {
            '_'
        };
        push_char(&mut path, kept);
        assert(safe_key(cache_key@).take(i + 1) =~= safe_key(cache_key@).take(i as int).push(kept));
        i += 1;
    }
    assert(safe_key(cache_key@).take(chars.len() as int) =~= safe_key(cache_key@));
    path.append(".json");
    path
}

/// Whether an answer fetched at `fetched_at` is still fresh at `now`.
pub fn is_fresh(fetched_at: i64, now: i64) -> (fresh: bool)
    ensures
        fresh == (now - fetched_at <= CACHE_MAX_AGE_SECS),
{
    now as i128 - fetched_at as i128 <= CACHE_MAX_AGE_SECS as i128
}

/// What to do after request number `attempt`, counted from 0, has failed:
/// wait 500 ms after the first failure and 1000 ms after the second, and give
/// up after the third.
pub fn after_failure(attempt: u32) -> (step: Retry)
    ensures
        step == retry_after(attempt as int),
{
    proof {
        reveal_with_fuel(doubled, 3);
    }
    if attempt == 0 {
        Retry::Wait(RETRY_BASE_DELAY_MS)
    } else if attempt == 1 {
        Retry::Wait(2 * RETRY_BASE_DELAY_MS)
    } else {
        Retry::GiveUp
    }
}

/// What the service calls a unit system.
pub fn units_param(units: Units) -> (name: &'static str)
    ensures
        name@ == match units {
            Units::Imperial => "imperial"@,
            Units::Metric => "metric"@,
        },
{
    match units {
        Units::Imperial => "imperial",
        Units::Metric => "metric",
    }
}

/// The unit system that a name stands for: metric for `metric`, imperial
/// for anything else.
pub fn units_from_id(id: &str) -> (units: Units)
    ensures
        units == if id@ == "metric"@ {
            Units::Metric
        } else {
            Units::Imperial
        },
{
    if same_text(id, "metric") {
        Units::Metric
    } else {
        Units::Imperial
    }
}

/// Position of the first comma, or the length of the text.
fn find_comma(chars: &Vec<char>) -> (at: usize)
    ensures
        at == comma_from(chars@, 0),
        at <= chars.len(),
{
    let mut i: usize = 0;
    while i < chars.len()
        invariant
            i <= chars.len(),
            comma_from(chars@, 0) == comma_from(chars@, i as int),
        decreases chars.len() - i,
    {
        if chars[i] == ',' {
            return i;
        }
        i += 1;
    }
    chars.len()
}

/// The postal code as the service wants it: with the country, which is the
/// United States where the code names none.
pub fn zip_query(zip: &str) -> (param: String)
    ensures
        param@ == if comma_from(zip@, 0) < zip@.len() {
            zip@
        } else {
            zip@ + ",US"@
        },
{
    let chars = chars_of(zip);
    let mut param = String::from_str(zip);
    if find_comma(&chars) == chars.len() {
        param.append(",US");
    }
    param
}

/// The label of a place that was found by its postal code: its name, or the
/// code where it has none, and its country.
pub fn zip_label(zip: &str, name: Option<String>, country: Option<String>) -> (label: String)
    ensures
        label@ == zip_label_of(zip@, name, country),
{
    let mut label = match name {
        Some(n) => n,
        None => {
            let mut s = String::from_str("ZIP ");
            s.append(zip);
            s
        },
    };
    match country {
        Some(c) => {
            label.append(", ");
            label.append(c.as_str());
        },
        None => {},
    }
    assert(label@ =~= zip_label_of(zip@, name, country));
    label
}

/// The label of a place that was found by its name: its name, or the query
/// where it has none, its country, and its state in brackets.
pub fn direct_label(
    query: &str,
    name: Option<String>,
    country: Option<String>,
    state: Option<String>,
) -> (label: String)
    ensures
        label@ == direct_label_of(query@, name, country, state),
{
    let mut label = match name {
        Some(n) => n,
        None => String::from_str(query),
    };
    match country {
        Some(c) => {
            label.append(", ");
            label.append(c.as_str());
        },
        None => {},
    }
    match state {
        Some(s) => {
            label.append(" (");
            label.append(s.as_str());
            label.append(")");
        },
        None => {},
    }
    assert(label@ =~= direct_label_of(query@, name, country, state));
    label
}

/// The name under which a place is saved: its label up to the first comma,
/// without the white space around it.
pub fn preset_name(label: &str) -> (name: String)
    ensures
        name@ == trimmed(label@.take(comma_from(label@, 0))),
{
    let chars = chars_of(label);
    let end = find_comma(&chars);
    let mut head = String::new();
    let mut i: usize = 0;
    assert(label@.take(0) =~= Seq::<char>::empty());
    while i < end
        invariant
            chars@ == label@,
            end <= chars.len(),
            i <= end,
            head@ == label@.take(i as int),
        decreases end - i,
    {
        push_char(&mut head, chars[i]);
        assert(label@.take(i + 1) =~= label@.take(i as int).push(label@[i as int]));
        i += 1;
    }
    trim_text(head.as_str())
}

/// Position of the first preset from `i` on that has the name.
pub open spec fn named_from(presets: Seq<LocationPreset>, name: Seq<char>, i: int) -> Option<int>
    decreases presets.len() - i,
{
    if i < 0 || i >= presets.len() {
        None
    } else if presets[i].name@ == name {
        Some(i)
    } else {
        named_from(presets, name, i + 1)
    }
}

/// Which preset the configuration points to: the first one with the active
/// name, else the first one, and none where there is no preset.
pub open spec fn chosen_preset(c: Config) -> Option<int> {
    match c.location_presets {
        None => None,
        Some(presets) => {
            let named = match c.active_preset {
                Some(a) => named_from(presets@, a@, 0),
                None => None,
            };
            if named is Some {
                named
            } else if presets@.len() > 0 {
                Some(0)
            } else {
                None
            }
        },
    }
}

/// Position of the first preset that has the name.
fn find_named(presets: &Vec<LocationPreset>, name: &String) -> (at: Option<usize>)
    ensures
        match at {
            Some(i) => named_from(presets@, name@, 0) == Some(i as int) && i < presets.len(),
            None => named_from(presets@, name@, 0) is None,
        },
{
    let mut i: usize = 0;
    while i < presets.len()
        invariant
            i <= presets.len(),
            named_from(presets@, name@, 0) == named_from(presets@, name@, i as int),
        decreases presets.len() - i,
    {
        if presets[i].name == *name {
            return Some(i);
        }
        i += 1;
    }
    None
}

/// The place that the configuration points to.
pub fn preset_location(cfg: &Config) -> (loc: Option<Location>)
    ensures
        loc is Some == chosen_preset(*cfg) is Some,
        loc is Some ==> {
            let p = cfg.location_presets->0@[chosen_preset(*cfg)->0];
            loc->0.lat == p.lat && loc->0.lon == p.lon && loc->0.label@ == p.label@
        },
{
    match &cfg.location_presets {
        None => None,
        Some(presets) => {
            let named = match &cfg.active_preset {
                Some(active) => find_named(presets, active),
                None => None,
            };
            let at: usize = match named {
                Some(i) => i,
                None => 0,
            };
            if at < presets.len() {
                let p = &presets[at];
                Some(Location { lat: p.lat, lon: p.lon, label: p.label.clone() })
            } else {
                None
            }
        },
    }
}

/// The decimal places of `rest` counted in units of `unit`, a power of ten,
/// without zeros at the end.
pub open spec fn fraction_from(rest: nat, unit: nat) -> Seq<char>
    decreases unit,
{
    if rest == 0 || unit == 0 {
        Seq::empty()
    } else {
        seq![digit_char((rest / unit) as int)] + fraction_from(rest % unit, unit / 10)
    }
}

/// Millionths as a decimal number with as many places as it needs.
pub open spec fn coordinate(micro: int) -> Seq<char> {
    let size = if micro < 0 {
        -micro
    } else {
        micro
    };
    let sign = if micro < 0 {
        seq!['-']
    } else {
        Seq::<char>::empty()
    };
    let point = if size % 1_000_000 == 0 {
        Seq::<char>::empty()
    } else {
        seq!['.']
    };
    sign + decimal((size / 1_000_000) as nat) + point + fraction_from(
        (size % 1_000_000) as nat,
        100_000,
    )
}

/// Millionths as a decimal number with three places, rounded to the
/// nearest, a tie going to the even neighbour.
pub open spec fn three_places(micro: int) -> Seq<char> {
    let size = if micro < 0 {
        -micro
    } else {
        micro
    };
    let sign = if micro < 0 {
        seq!['-']
    } else {
        Seq::<char>::empty()
    };
    let milli = crate::text::round_half_even(size, 1000);
    sign + decimal((milli / 1000) as nat) + seq![
        '.',
        digit_char((milli / 100) % 10),
        digit_char((milli / 10) % 10),
        digit_char(milli % 10),
    ]
}

/// The character of a digit.
fn digit(d: u64) -> (c: char)
    requires
        d < 10,
    ensures
        c == digit_char(d as int),
{
    if d == 0 {
        '0'
    } else if d == 1 {
        '1'
    } else if d == 2 {
        '2'
    } else if d == 3 {
        '3'
    } else if d == 4 {
        '4'
    } else if d == 5 {
        '5'
    } else if d == 6 {
        '6'
    } else if d == 7 {
        '7'
    } else if d == 8 {
        '8'
    } else {
        '9'
    }
}

/// The size of a number.
fn magnitude(v: i64) -> (m: u64)
    ensures
        m == if v < 0 {
            -v
        } else {
            v as int
        },
{
    if v == i64::MIN {
        0x8000_0000_0000_0000
    } else if v < 0 {
        (-v) as u64
    } else {
        v as u64
    }
}

/// A coordinate in millionths of a degree as the service reads it.
pub fn coordinate_text(micro: i64) -> (text: String)
    ensures
        text@ == coordinate(micro as int),
{
    let size: u64 = magnitude(micro);
    let mut text = String::new();
    if micro < 0 {
        push_char(&mut text, '-');
    }
    push_decimal(&mut text, size / 1_000_000);
    let mut rest: u64 = size % 1_000_000;
    if rest != 0 {
        push_char(&mut text, '.');
    }
    let ghost head = text@;
    let mut unit: u64 = 100_000;
    assert(head + fraction_from(rest as nat, unit as nat) =~= coordinate(micro as int));
    while rest != 0 && unit != 0
        invariant
            unit == 100_000 || unit == 10_000 || unit == 1000 || unit == 100 || unit == 10
                || unit == 1 || unit == 0,
            rest < 10 * unit || rest == 0,
            text@ + fraction_from(rest as nat, unit as nat) == coordinate(micro as int),
        decreases unit,
    {
        let ghost before = text@;
        push_char(&mut text, digit(rest / unit));
        assert(before + fraction_from(rest as nat, unit as nat) =~= text@ + fraction_from(
            (rest % unit) as nat,
            (unit / 10) as nat,
        ));
        rest = rest % unit;
        unit = unit / 10;
    }
    assert(fraction_from(rest as nat, unit as nat) =~= Seq::<char>::empty());
    assert(text@ =~= coordinate(micro as int));
    text
}

/// Appends millionths with three decimal places.
fn push_three_places(out: &mut String, micro: i64)
    ensures
        final(out)@ == old(out)@ + three_places(micro as int),
{
    let size: u64 = magnitude(micro);
    let whole: u64 = size / 1000;
    let rest: u64 = size % 1000;
    let milli: u64 = if 2 * rest > 1000 || (2 * rest == 1000 && whole % 2 != 0) {
        whole + 1
    } else {
        whole
    };
    if micro < 0 {
        push_char(out, '-');
    }
    push_decimal(out, milli / 1000);
    push_char(out, '.');
    push_char(out, digit((milli / 100) % 10));
    push_char(out, digit((milli / 10) % 10));
    push_char(out, digit(milli % 10));
    assert(final(out)@ =~= old(out)@ + three_places(micro as int));
}

/// The key under which the answer for a place is cached: its latitude and
/// longitude with three decimal places.
pub fn cache_key(lat: i64, lon: i64) -> (key: String)
    ensures
        key@ == three_places(lat as int) + seq!['_'] + three_places(lon as int),
{
    let mut key = String::new();
    push_three_places(&mut key, lat);
    push_char(&mut key, '_');
    push_three_places(&mut key, lon);
    assert(key@ =~= three_places(lat as int) + seq!['_'] + three_places(lon as int));
    key
}

} // verus!
