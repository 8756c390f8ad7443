//! Small helpers for showing weather: compass names, icons, colours, and text
//! made safe for markup.

use vstd::prelude::*;
use vstd::string::StringExecFns;
use vstd::string::StrSliceExecFns;
use vstd::string::StringSliceAdditionalSpecFns;
use vstd::std_specs::iter::IteratorSpec;
use vstd::utf8::encode_utf8;
use vstd::utf8::is_char_boundary;
use crate::config::TempBand;
use crate::weather::WeatherDesc;

verus! {

broadcast use vstd::string::group_string_axioms;

/// Number of the compass sector that a direction in degrees falls into:
/// sector 0 is centred on north, and each sector is 45 degrees wide. A
/// direction more than 22 degrees below zero counts as north.
pub open spec fn sector(deg: int) -> int {
    if 2 * deg + 45 < 0 {
        0
    } else {
        ((2 * deg + 45) / 90) % 8
    }
}

/// Name of a compass sector.
pub open spec fn sector_name(i: int) -> Seq<char> {
    if i == 0 {
        "N"@
    } else if i == 1 {
        "NE"@
    } else if i == 2 {
        "E"@
    } else if i == 3 {
        "SE"@
    } else if i == 4 {
        "S"@
    } else if i == 5 {
        "SW"@
    } else if i == 6 {
        "W"@
    } else {
        "NW"@
    }
}

/// What a character becomes in markup text.
pub open spec fn escape_of(c: char) -> Seq<char> {
    if c == '&' {
        "&amp;"@
    } else if c == '<' {
        "&lt;"@
    } else if c == '>' {
        "&gt;"@
    } else if c == '\'' {
        "&apos;"@
    } else if c == '"' {
        "&quot;"@
    } else {
        seq![c]
    }
}

/// A text with each of `& < > ' "` replaced by its entity.
pub open spec fn escaped(s: Seq<char>) -> Seq<char>
    decreases s.len(),
{
    if s.len() == 0 {
        Seq::empty()
    } else {
        escaped(s.drop_last()) + escape_of(s.last())
    }
}

/// The characters of a text.
pub fn chars_of(s: &str) -> (v: Vec<char>)
    ensures
        v@ == s@,
{
    let mut v: Vec<char> = Vec::new();
    let all = s.chars();
    for c in it: all
        invariant
            it.seq() == s@,
            v@ == s@.take(it.index()),
    {
        assert(s@.take(it.index() + 1) =~= s@.take(it.index()).push(c));
        v.push(c);
    }
    assert(s@.take(s@.len() as int) =~= s@);
    v
}

/// Compass name of a wind direction in degrees; north where there is none.
pub fn deg_to_dir(deg: Option<i64>) -> (dir: String)
    ensures
        dir@ == sector_name(
            sector(
                match deg {
                    Some(d) => d as int,
                    None => 0,
                },
            ),
        ),
{
    let d: i128 = match deg {
        Some(d) => d as i128,
        None => 0,
    };
    let doubled: i128 = 2 * d + 45;
    let idx: i128 = if doubled < 0 {
        0
    } else {
        (doubled / 90) % 8
    };
    let name = if idx == 0 {
        "N"
    } else if idx == 1 {
        "NE"
    } else if idx == 2 {
        "E"
    } else if idx == 3 {
        "SE"
    } else if idx == 4 {
        "S"
    } else if idx == 5 {
        "SW"
    } else if idx == 6 {
        "W"
    } else {
        "NW"
    };
    String::from_str(name)
}

/// The entity or character that stands for `c` in markup text.
fn escape_char(c: char) -> (s: &'static str)
    requires
        c == '&' || c == '<' || c == '>' || c == '\'' || c == '"',
    ensures
        s@ == escape_of(c),
{
    if c == '&' {
        "&amp;"
    } else if c == '<' {
        "&lt;"
    } else if c == '>' {
        "&gt;"
    } else if c == '\'' {
        "&apos;"
    } else {
        "&quot;"
    }
}

/// The text with the characters that markup gives a meaning to replaced by
/// their entities.
pub fn escape_pango(input: &str) -> (out: String)
    ensures
        out@ == escaped(input@),
{
    let chars = chars_of(input);
    let mut out = String::new();
    let mut i: usize = 0;
    while i < chars.len()
        invariant
            chars@ == input@,
            i <= chars.len(),
            out@ == escaped(input@.take(i as int)),
        decreases chars.len() - i,
    {
        let c: char = chars[i];
        proof {
            let next = input@.take(i + 1);
            assert(next.drop_last() =~= input@.take(i as int));
            assert(next.last() == c);
        }
        if c == '&' || c == '<' || c == '>' || c == '\'' || c == '"' {
            out.append(escape_char(c));
        } else {
            push_char(&mut out, c);
        }
        i += 1;
    }
    assert(input@.take(chars.len() as int) =~= input@);
    out
}

/// Appends one character.
///
/// Not verified: the body is the call `String::push`, of which the standard
/// library says that it appends the given character to the end of the string.
#[verifier::external_body]
pub(crate) fn push_char(out: &mut String, c: char)
    ensures
        final(out)@ == old(out)@.push(c),
{
    out.push(c);
}

/// Whether a character is white space: one of the characters to which
/// Unicode gives the property White_Space. These are tab to carriage return,
/// the space, the next-line sign, the no-break space, the ogham space mark,
/// the spaces from en quad to hair space, the line and the paragraph
/// separator, the narrow no-break space, the medium mathematical space and
/// the ideographic space.
pub open spec fn white_space(c: char) -> bool {
    let u = c as u32;
    (0x9 <= u <= 0xD) || u == 0x20 || u == 0x85 || u == 0xA0 || u == 0x1680 || (0x2000 <= u
        <= 0x200A) || u == 0x2028 || u == 0x2029 || u == 0x202F || u == 0x205F || u == 0x3000
}

/// A text in lower case, as the standard library makes it.
pub uninterp spec fn lowercase(s: Seq<char>) -> Seq<char>;

/// A text in upper case, as the standard library makes it.
pub uninterp spec fn uppercase(s: Seq<char>) -> Seq<char>;

/// Position of the first character from `i` on that is not white space.
pub open spec fn lead_from(s: Seq<char>, i: int) -> int
    decreases s.len() - i,
{
    if 0 <= i < s.len() && white_space(s[i]) {
        lead_from(s, i + 1)
    } else {
        i
    }
}

/// Position after the last character before `j` that is not white space.
pub open spec fn trail_to(s: Seq<char>, j: int) -> int
    decreases j,
{
    if 0 < j <= s.len() && white_space(s[j - 1]) {
        trail_to(s, j - 1)
    } else {
        j
    }
}

/// A text without the white space at its start and end.
pub open spec fn trimmed(s: Seq<char>) -> Seq<char> {
    let from = lead_from(s, 0);
    let to = trail_to(s, s.len() as int);
    if from >= to {
        Seq::empty()
    } else {
        s.subrange(from, to)
    }
}

/// Whether the trimmed text fits into `max_len` bytes or can be cut there
/// without splitting a character.
pub open spec fn can_shorten(s: Seq<char>, max_len: int) -> bool {
    encode_utf8(trimmed(s)).len() <= max_len || is_char_boundary(encode_utf8(trimmed(s)), max_len)
}

/// Whether `what` is the short form of `s`: the trimmed text, cut after
/// `max_len` bytes where it is longer.
pub open spec fn is_short_form(what: Seq<char>, s: Seq<char>, max_len: int) -> bool {
    if encode_utf8(trimmed(s)).len() <= max_len {
        what == trimmed(s)
    } else {
        encode_utf8(what) == encode_utf8(trimmed(s)).subrange(0, max_len)
    }
}

/// Whether `part` occurs in `whole`.
pub open spec fn has_part(whole: Seq<char>, part: Seq<char>) -> bool {
    exists|i: int|
        0 <= i && i + part.len() <= whole.len() && #[trigger] whole.subrange(
            i,
            i + part.len() as int,
        ) == part
}

/// The icon for a condition whose name is `main` and whose description is
/// `full`, both in lower case. The first of these that is found decides:
/// thunder, snow or sleet, rain or drizzle, fog or mist or haze, cloud or
/// overcast, clear or sun.
pub open spec fn icon_for(main: Seq<char>, full: Seq<char>) -> Seq<char> {
    if has_part(main, "thunder"@) || has_part(full, "thunder"@) {
        "⛈️"@
    } else if has_part(main, "snow"@) || has_part(full, "snow"@) || has_part(main, "sleet"@) {
        "❄️"@
    } else if has_part(main, "rain"@) || has_part(full, "rain"@) || has_part(full, "drizzle"@) {
        "🌧️"@
    } else if has_part(full, "fog"@) || has_part(full, "mist"@) || has_part(full, "haze"@) {
        "🌫️"@
    } else if has_part(main, "cloud"@) || has_part(full, "cloud"@) || has_part(
        full,
        "overcast"@,
    ) {
        "☁️"@
    } else if has_part(main, "clear"@) || has_part(full, "clear"@) || has_part(full, "sun"@) {
        "☀️"@
    } else {
        "❓"@
    }
}

/// The text of an optional string; nothing for none.
pub open spec fn text_or_empty(o: Option<String>) -> Seq<char> {
    match o {
        Some(s) => s@,
        None => Seq::empty(),
    }
}

/// The colour of the first band from `i` on that reaches up to `temp`.
pub open spec fn band_from(bands: Seq<TempBand>, temp: int, i: int) -> Seq<char>
    decreases bands.len() - i,
{
    if i < 0 || i >= bands.len() {
        if bands.len() > 0 {
            bands.last().color@
        } else {
            "#ffffff"@
        }
    } else if temp <= bands[i].max {
        bands[i].color@
    } else {
        band_from(bands, temp, i + 1)
    }
}

/// The colour for a UV index in thousandths.
pub open spec fn uvi_color_of(uvi: int) -> Seq<char> {
    if uvi < 3000 {
        "#a3be8c"@
    } else if uvi < 6000 {
        "#ebcb8b"@
    } else if uvi < 8000 {
        "#d08770"@
    } else if uvi < 11000 {
        "#bf616a"@
    } else {
        "#b48ead"@
    }
}

/// The block character of height `i`, from blank to full.
pub open spec fn block_char(i: int) -> char {
    if i <= 0 {
        ' '
    } else if i == 1 {
        '▂'
    } else if i == 2 {
        '▃'
    } else if i == 3 {
        '▄'
    } else if i == 4 {
        '▅'
    } else if i == 5 {
        '▆'
    } else if i == 6 {
        '▇'
    } else {
        '█'
    }
}

/// The least of the values of a row; 0 for an empty one.
pub open spec fn least(s: Seq<i64>) -> int
    decreases s.len(),
{
    if s.len() == 0 {
        0
    } else if s.len() == 1 {
        s[0] as int
    } else if s.last() < least(s.drop_last()) {
        s.last() as int
    } else {
        least(s.drop_last())
    }
}

/// The greatest of the values of a row; 0 for an empty one.
pub open spec fn greatest(s: Seq<i64>) -> int
    decreases s.len(),
{
    if s.len() == 0 {
        0
    } else if s.len() == 1 {
        s[0] as int
    } else if s.last() > greatest(s.drop_last()) {
        s.last() as int
    } else {
        greatest(s.drop_last())
    }
}

/// Height of the block for `v` in a row that spans `lo` to `hi`: the middle
/// height for a flat row, else the share of the span in sevenths, rounded to
/// the nearest.
pub open spec fn block_level(v: int, lo: int, hi: int) -> int {
    if hi == lo {
        3
    } else {
        (14 * (v - lo) + (hi - lo)) / (2 * (hi - lo))
    }
}

/// The row of blocks for a row of values.
pub open spec fn spark(values: Seq<i64>) -> Seq<char> {
    Seq::new(
        values.len(),
        |i: int| block_char(block_level(values[i] as int, least(values), greatest(values))),
    )
}

/// Whether a character is white space.
pub fn is_white_space(c: char) -> (b: bool)
    ensures
        b == white_space(c),
{
    let u: u32 = c as u32;
    (0x9 <= u && u <= 0xD) || u == 0x20 || u == 0x85 || u == 0xA0 || u == 0x1680 || (0x2000 <= u
        && u <= 0x200A) || u == 0x2028 || u == 0x2029 || u == 0x202F || u == 0x205F || u == 0x3000
}

/// A text in upper case.
///
/// Not verified: the body is the call `str::to_uppercase`, whose result,
/// which depends on the text alone, gets the name `uppercase`.
#[verifier::external_body]
pub(crate) fn to_upper(s: &str) -> (up: String)
    ensures
        up@ == uppercase(s@),
{
    s.to_uppercase()
}

/// A text in lower case.
///
/// Not verified: the body is the call `str::to_lowercase`, whose result,
/// which depends on the text alone, gets the name `lowercase`.
#[verifier::external_body]
pub(crate) fn to_lower(s: &str) -> (low: String)
    ensures
        low@ == lowercase(s@),
{
    s.to_lowercase()
}

/// The text without the white space at its start and end.
pub fn trim_text(desc: &str) -> (t: String)
    ensures
        t@ == trimmed(desc@),
{
    let chars = chars_of(desc);
    let n = chars.len();
    let mut from: usize = 0;
    while from < n && is_white_space(chars[from])
        invariant
            chars@ == desc@,
            n == chars.len(),
            from <= n,
            lead_from(desc@, 0) == lead_from(desc@, from as int),
        decreases n - from,
    {
        from += 1;
    }
    let mut to: usize = n;
    while to > 0 && is_white_space(chars[to - 1])
        invariant
            chars@ == desc@,
            n == chars.len(),
            to <= n,
            trail_to(desc@, n as int) == trail_to(desc@, to as int),
        decreases to,
    {
        to -= 1;
    }
    let mut t = String::new();
    if from >= to {
        return t;
    }
    let mut i: usize = from;
    while i < to
        invariant
            chars@ == desc@,
            from <= i <= to,
            to <= chars.len(),
            t@ == desc@.subrange(from as int, i as int),
        decreases to - i,
    {
        push_char(&mut t, chars[i]);
        assert(desc@.subrange(from as int, i + 1) =~= desc@.subrange(from as int, i as int).push(
            desc@[i as int],
        ));
        i += 1;
    }
    t
}

/// The description without the white space around it, cut after `max_len`
/// bytes where it is longer. The cut must not fall inside a character.
pub fn short_desc(desc: &str, max_len: usize) -> (d: String)
    requires
        can_shorten(desc@, max_len as int),
    ensures
        is_short_form(d@, desc@, max_len as int),
{
    let t = trim_text(desc);
    if t.as_str().as_bytes().len() > max_len {
        let (head, _) = t.as_str().split_at(max_len);
        let d = head.to_owned();
        assert(encode_utf8(d@) =~= encode_utf8(trimmed(desc@)).subrange(0, max_len as int));
        d
    } else {
        t
    }
}

/// Whether `short_desc` accepts the text: trimmed, it fits into `max_len`
/// bytes or can be cut there without splitting a character.
pub fn can_shorten_text(desc: &str, max_len: usize) -> (ok: bool)
    ensures
        ok == can_shorten(desc@, max_len as int),
{
    let t = trim_text(desc);
    t.as_str().as_bytes().len() <= max_len || t.as_str().is_char_boundary(max_len)
}

/// As `short_desc`, for any text: none where the cut would fall inside a
/// character.
pub fn try_short_desc(desc: &str, max_len: usize) -> (d: Option<String>)
    ensures
        d is Some == can_shorten(desc@, max_len as int),
        d is Some ==> is_short_form(d->0@, desc@, max_len as int),
{
    if can_shorten_text(desc, max_len) {
        Some(short_desc(desc, max_len))
    } else {
        None
    }
}

/// Whether `part` occurs in `whole`.
pub fn contains_text(whole: &Vec<char>, part: &str) -> (found: bool)
    ensures
        found == has_part(whole@, part@),
{
    let needle = chars_of(part);
    let n = whole.len();
    let k = needle.len();
    if k > n {
        return false;
    }
    let mut i: usize = 0;
    while i <= n - k
        invariant
            needle@ == part@,
            n == whole.len(),
            k == needle.len(),
            k <= n,
            i <= n - k + 1,
            forall|j: int| 0 <= j < i ==> #[trigger] whole@.subrange(j, j + k) != part@,
        decreases n - k + 1 - i,
    {
        let mut j: usize = 0;
        while j < k && whole[i + j] == needle[j]
            invariant
                needle@ == part@,
                n == whole.len(),
                k == needle.len(),
                i + k <= n,
                j <= k,
                forall|m: int| 0 <= m < j ==> whole@[i + m] == needle@[m],
            decreases k - j,
        {
            j += 1;
        }
        if j == k {
            assert(whole@.subrange(i as int, i + k) =~= part@);
            return true;
        }
        assert(whole@.subrange(i as int, i + k)[j as int] != part@[j as int]);
        i += 1;
    }
    false
}

/// The icon for a weather condition; a question mark where nothing matches.
pub fn pick_icon(desc: &WeatherDesc) -> (icon: &'static str)
    ensures
        icon@ == icon_for(
            lowercase(text_or_empty(desc.main)),
            lowercase(text_or_empty(desc.description)),
        ),
{
    let main_low = match &desc.main {
        Some(s) => to_lower(s.as_str()),
        None => to_lower(""),
    };
    let full_low = match &desc.description {
        Some(s) => to_lower(s.as_str()),
        None => to_lower(""),
    };
    proof {
        reveal_strlit("");
        assert(""@ =~= Seq::<char>::empty());
    }
    let main = chars_of(main_low.as_str());
    let full = chars_of(full_low.as_str());
    if contains_text(&main, "thunder") || contains_text(&full, "thunder") {
        "⛈️"
    } else if contains_text(&main, "snow") || contains_text(&full, "snow") || contains_text(
        &main,
        "sleet",
    ) {
        "❄️"
    } else if contains_text(&main, "rain") || contains_text(&full, "rain") || contains_text(
        &full,
        "drizzle",
    ) {
        "🌧️"
    } else if contains_text(&full, "fog") || contains_text(&full, "mist") || contains_text(
        &full,
        "haze",
    ) {
        "🌫️"
    } else if contains_text(&main, "cloud") || contains_text(&full, "cloud") || contains_text(
        &full,
        "overcast",
    ) {
        "☁️"
    } else if contains_text(&main, "clear") || contains_text(&full, "clear") || contains_text(
        &full,
        "sun",
    ) {
        "☀️"
    } else {
        "❓"
    }
}

/// The colour of a temperature in thousandths of a degree: that of the first
/// band that reaches up to it, else that of the last band, and white where
/// there is no band.
pub fn temp_color(temp: i64, bands: &[TempBand]) -> (color: String)
    ensures
        color@ == band_from(bands@, temp as int, 0),
{
    let mut i: usize = 0;
    while i < bands.len()
        invariant
            i <= bands.len(),
            band_from(bands@, temp as int, 0) == band_from(bands@, temp as int, i as int),
        decreases bands.len() - i,
    {
        if temp <= bands[i].max {
            return bands[i].color.clone();
        }
        i += 1;
    }
    if bands.len() > 0 {
        bands[bands.len() - 1].color.clone()
    } else {
        String::from_str("#ffffff")
    }
}

/// The colour for a UV index in thousandths: green below 3, yellow below 6,
/// orange below 8, red below 11, and purple from there on.
pub fn uvi_color(uvi: i64) -> (color: &'static str)
    ensures
        color@ == uvi_color_of(uvi as int),
{
    if uvi < 3000 {
        "#a3be8c"
    } else if uvi < 6000 {
        "#ebcb8b"
    } else if uvi < 8000 {
        "#d08770"
    } else if uvi < 11000 {
        "#bf616a"
    } else {
        "#b48ead"
    }
}

/// The least and the greatest value of a row.
fn extent(values: &[i64]) -> (r: (i64, i64))
    requires
        values.len() > 0,
    ensures
        r.0 == least(values@),
        r.1 == greatest(values@),
        r.0 <= r.1,
        forall|i: int| 0 <= i < values.len() ==> r.0 <= #[trigger] values@[i] <= r.1,
{
    let mut lo: i64 = values[0];
    let mut hi: i64 = values[0];
    let mut i: usize = 1;
    assert(values@.take(1).len() == 1);
    while i < values.len()
        invariant
            1 <= i <= values.len(),
            lo == least(values@.take(i as int)),
            hi == greatest(values@.take(i as int)),
            lo <= hi,
            forall|j: int| 0 <= j < i ==> lo <= #[trigger] values@[j] <= hi,
        decreases values.len() - i,
    {
        proof {
            let next = values@.take(i + 1);
            assert(next.drop_last() == values@.take(i as int));
            assert(next.last() == values@[i as int]);
        }
        if values[i] < lo {
            lo = values[i];
        }
        if values[i] > hi {
            hi = values[i];
        }
        i += 1;
    }
    assert(values@.take(values.len() as int) == values@);
    (lo, hi)
}

/// The block character of a height.
fn block(level: i128) -> (c: char)
    ensures
        c == block_char(level as int),
{
    if level <= 0 {
        ' '
    } else if level == 1 {
        '▂'
    } else if level == 2 {
        '▃'
    } else if level == 3 {
        '▄'
    } else if level == 4 {
        '▅'
    } else if level == 5 {
        '▆'
    } else if level == 6 {
        '▇'
    } else {
        '█'
    }
}

/// A row of block characters that follows the values: the least is blank,
/// the greatest a full block, and a flat row is of middle height throughout.
pub fn sparkline(values: &[i64]) -> (out: String)
    ensures
        out@ == spark(values@),
{
    let mut out = String::new();
    if values.len() == 0 {
        assert(out@ =~= spark(values@));
        return out;
    }
    let (lo, hi) = extent(values);
    let span: i128 = hi as i128 - lo as i128;
    let mut i: usize = 0;
    while i < values.len()
        invariant
            i <= values.len(),
            lo == least(values@),
            hi == greatest(values@),
            span == hi - lo,
            span >= 0,
            forall|j: int| 0 <= j < values.len() ==> lo <= #[trigger] values@[j] <= hi,
            out@.len() == i,
            forall|j: int| 0 <= j < i ==> out@[j] == spark(values@)[j],
        decreases values.len() - i,
    {
        let level: i128 = if span == 0 {
            3
        } else {
            let above: i128 = values[i] as i128 - lo as i128;
            (14 * above + span) / (2 * span)
        };
        push_char(&mut out, block(level));
        i += 1;
    }
    assert(out@ =~= spark(values@));
    out
}

/// Whether two texts are the same.
pub fn same_text(a: &str, b: &str) -> (same: bool)
    ensures
        same == (a@ == b@),
{
    let x = chars_of(a);
    let y = chars_of(b);
    if x.len() != y.len() {
        return false;
    }
    let mut i: usize = 0;
    while i < x.len()
        invariant
            x@ == a@,
            y@ == b@,
            x.len() == y.len(),
            i <= x.len(),
            forall|j: int| 0 <= j < i ==> x@[j] == y@[j],
        decreases x.len() - i,
    {
        if x[i] != y[i] {
            return false;
        }
        i += 1;
    }
    assert(a@ =~= b@);
    true
}

} // verus!
