//! Building text: whole numbers in decimal, and rounding thousandths the way
//! the labels show them.

use vstd::prelude::*;
use vstd::string::StringExecFns;
use vstd::string::StrSliceExecFns;

verus! {

/// The character of a decimal digit.
pub open spec fn digit_char(d: int) -> char {
    if d == 0 {
        '0'
    } else if d == 1 {
        '1'
    } else if d == 2 {
        '2'
    } else if d == 3 {
        '3'
    } else if d == 4 {
        '4'
    } else if d == 5 {
        '5'
    } else if d == 6 {
        '6'
    } else if d == 7 {
        '7'
    } else if d == 8 {
        '8'
    } else {
        '9'
    }
}

/// A natural number in decimal, without leading zeros.
pub open spec fn decimal(n: nat) -> Seq<char>
    decreases n,
{
    if n < 10 {
        seq![digit_char(n as int)]
    } else {
        decimal(n / 10).push(digit_char((n % 10) as int))
    }
}

/// An integer in decimal, with a minus sign where it is negative.
pub open spec fn signed_decimal(v: int) -> Seq<char> {
    if v < 0 {
        seq!['-'] + decimal((-v) as nat)
    } else {
        decimal(v as nat)
    }
}

/// Thousandths rounded to whole units, a half going away from zero.
pub open spec fn round_units(milli: int) -> int {
    if milli >= 0 {
        (milli + 500) / 1000
    } else {
        -((-milli + 500) / 1000)
    }
}

/// A reading in thousandths as a label of whole units. A negative reading
/// keeps its sign even where it rounds to zero.
pub open spec fn rounded_label(milli: int) -> Seq<char> {
    if milli < 0 {
        seq!['-'] + decimal(((-milli + 500) / 1000) as nat)
    } else {
        decimal(((milli + 500) / 1000) as nat)
    }
}

/// Thousandths as a whole percentage, rounded to the nearest, a tie going to
/// the even neighbour.
pub open spec fn percent_of(milli: int) -> int {
    let whole = milli / 10;
    let rest = milli % 10;
    if rest > 5 || (rest == 5 && whole % 2 != 0) {
        whole + 1
    } else {
        whole
    }
}

/// The text of one digit.
fn digit_str(d: u64) -> (s: &'static str)
    requires
        d < 10,
    ensures
        s@ == seq![digit_char(d as int)],
{
    proof {
        reveal_strlit("0");
        reveal_strlit("1");
        reveal_strlit("2");
        reveal_strlit("3");
        reveal_strlit("4");
        reveal_strlit("5");
        reveal_strlit("6");
        reveal_strlit("7");
        reveal_strlit("8");
        reveal_strlit("9");
    }
    let s = if d == 0 {
        "0"
    } else if d == 1 {
        "1"
    } else if d == 2 {
        "2"
    } else if d == 3 {
        "3"
    } else if d == 4 {
        "4"
    } else if d == 5 {
        "5"
    } else if d == 6 {
        "6"
    } else if d == 7 {
        "7"
    } else if d == 8 {
        "8"
    } else {
        "9"
    };
    assert(s@ =~= seq![digit_char(d as int)]);
    s
}

/// Appends `n` in decimal.
pub fn push_decimal(out: &mut String, n: u64)
    ensures
        final(out)@ == old(out)@ + decimal(n as nat),
    decreases n,
{
    if n >= 10 {
        push_decimal(out, n / 10);
    }
    out.append(digit_str(n % 10));
    assert(final(out)@ =~= old(out)@ + decimal(n as nat));
}

/// Appends `v` in decimal, with its sign.
pub fn push_signed(out: &mut String, v: i64)
    ensures
        final(out)@ == old(out)@ + signed_decimal(v as int),
{
    if v < 0 {
        proof {
            reveal_strlit("-");
        }
        out.append("-");
        let magnitude: u64 = if v == i64::MIN {
            0x8000_0000_0000_0000
        } else {
            (-v) as u64
        };
        push_decimal(out, magnitude);
        assert(final(out)@ =~= old(out)@ + signed_decimal(v as int));
    } else {
        push_decimal(out, v as u64);
    }
}

/// Appends a reading in thousandths as a label of whole units.
pub fn push_rounded(out: &mut String, milli: i64)
    requires
        -i64::MAX + 500 < milli < i64::MAX - 500,
    ensures
        final(out)@ == old(out)@ + rounded_label(milli as int),
{
    if milli < 0 {
        proof {
            reveal_strlit("-");
        }
        out.append("-");
        push_decimal(out, ((-milli + 500) / 1000) as u64);
        assert(final(out)@ =~= old(out)@ + rounded_label(milli as int));
    } else {
        push_decimal(out, ((milli + 500) / 1000) as u64);
    }
}

/// Thousandths as a whole percentage; see `percent_of`.
pub fn percent(milli: i64) -> (p: i64)
    requires
        0 <= milli,
    ensures
        p == percent_of(milli as int),
{
    let whole = milli / 10;
    let rest = milli % 10;
    if rest > 5 || (rest == 5 && whole % 2 != 0) {
        whole + 1
    } else {
        whole
    }
}

/// Thousandths as a whole percentage, a half going away from zero.
pub open spec fn round_tenth(milli: int) -> int {
    if milli >= 0 {
        (milli + 5) / 10
    } else {
        -((-milli + 5) / 10)
    }
}

/// `width - len` spaces, or none where the text is as long as the width.
pub open spec fn padding(len: int, width: int) -> Seq<char> {
    if len >= width {
        Seq::empty()
    } else {
        Seq::new((width - len) as nat, |i: int| ' ')
    }
}

/// A text followed by spaces up to a width in characters.
pub open spec fn pad_right(s: Seq<char>, width: int) -> Seq<char> {
    s + padding(s.len() as int, width)
}

/// The lines with a line break between each two.
pub open spec fn joined(lines: Seq<Seq<char>>) -> Seq<char>
    decreases lines.len(),
{
    if lines.len() == 0 {
        Seq::empty()
    } else if lines.len() == 1 {
        lines[0]
    } else {
        joined(lines.drop_last()) + seq!['\n'] + lines.last()
    }
}

/// The texts of a row of strings.
pub open spec fn texts(lines: Seq<String>) -> Seq<Seq<char>> {
    Seq::new(lines.len(), |i: int| lines[i]@)
}

/// Thousandths as a whole percentage, a half going away from zero.
pub fn percent_rounded(milli: i64) -> (p: i64)
    ensures
        p == round_tenth(milli as int),
{
    let wide: i128 = milli as i128;
    if wide >= 0 {
        ((wide + 5) / 10) as i64
    } else {
        (-((-wide + 5) / 10)) as i64
    }
}

/// Appends a text and then spaces up to a width in characters.
pub fn push_padded(out: &mut String, s: &str, width: usize)
    ensures
        final(out)@ == old(out)@ + pad_right(s@, width as int),
{
    out.append(s);
    let len = s.unicode_len();
    let mut i: usize = len;
    proof {
        reveal_strlit(" ");
        assert(out@ =~= old(out)@ + s@ + Seq::new(0nat, |k: int| ' '));
    }
    while i < width
        invariant
            len == s@.len(),
            len <= i,
            len < width ==> i <= width,
            len >= width ==> i == len,
            " "@ == seq![' '],
            out@ == old(out)@ + s@ + Seq::new((i - len) as nat, |k: int| ' '),
        decreases width - i,
    {
        out.append(" ");
        assert(out@ =~= old(out)@ + s@ + Seq::new((i + 1 - len) as nat, |k: int| ' '));
        i += 1;
    }
    assert(out@ =~= old(out)@ + pad_right(s@, width as int));
}

/// The lines with a line break between each two.
pub fn join_lines(lines: &Vec<String>) -> (out: String)
    ensures
        out@ == joined(texts(lines@)),
{
    let mut out = String::new();
    let mut i: usize = 0;
    proof {
        reveal_strlit("\n");
        assert(texts(lines@).take(0) =~= Seq::<Seq<char>>::empty());
    }
    while i < lines.len()
        invariant
            i <= lines.len(),
            out@ == joined(texts(lines@).take(i as int)),
            "\n"@ == seq!['\n'],
        decreases lines.len() - i,
    {
        proof {
            let next = texts(lines@).take(i + 1);
            assert(next.drop_last() =~= texts(lines@).take(i as int));
            assert(next.last() == lines@[i as int]@);
        }
        if i > 0 {
            out.append("\n");
        }
        out.append(lines[i].as_str());
        i += 1;
    }
    assert(texts(lines@).take(lines.len() as int) =~= texts(lines@));
    out
}

/// `n / d` for a natural `n`, rounded to the nearest whole number, a tie
/// going to the even neighbour.
pub open spec fn round_half_even(n: int, d: int) -> int {
    let q = n / d;
    let r = n % d;
    if 2 * r > d || (2 * r == d && q % 2 != 0) {
        q + 1
    } else {
        q
    }
}

/// A number of tenths with one decimal place.
pub open spec fn one_decimal(tenths: nat) -> Seq<char> {
    decimal(tenths / 10) + seq!['.'] + seq![digit_char((tenths % 10) as int)]
}

/// A reading in thousandths with one decimal place, with a minus sign where
/// it is below zero.
pub open spec fn tenths_label(milli: int) -> Seq<char> {
    if milli < 0 {
        seq!['-'] + one_decimal(round_half_even(-milli, 100) as nat)
    } else {
        one_decimal(round_half_even(milli, 100) as nat)
    }
}

/// `n / d` rounded to the nearest whole number, a tie going to the even neighbour.
pub fn div_half_even(n: u64, d: u64) -> (q: u64)
    requires
        0 < d <= 1_000_000,
        n <= 0x7fff_ffff_ffff_ffff,
    ensures
        q == round_half_even(n as int, d as int),
{
    let q: u64 = n / d;
    let r: u64 = n % d;
    if 2 * r > d || (2 * r == d && q % 2 != 0) {
        q + 1
    } else {
        q
    }
}

/// Appends a number of tenths with one decimal place.
pub fn push_one_decimal(out: &mut String, tenths: u64)
    ensures
        final(out)@ == old(out)@ + one_decimal(tenths as nat),
{
    push_decimal(out, tenths / 10);
    proof {
        reveal_strlit(".");
    }
    out.append(".");
    out.append(digit_str(tenths % 10));
    assert(final(out)@ =~= old(out)@ + one_decimal(tenths as nat));
}

/// Appends a reading in thousandths with one decimal place.
pub fn push_tenths(out: &mut String, milli: i64)
    requires
        -i64::MAX < milli,
    ensures
        final(out)@ == old(out)@ + tenths_label(milli as int),
{
    if milli < 0 {
        proof {
            reveal_strlit("-");
        }
        out.append("-");
        push_one_decimal(out, div_half_even((-milli) as u64, 100));
        assert(final(out)@ =~= old(out)@ + tenths_label(milli as int));
    } else {
        push_one_decimal(out, div_half_even(milli as u64, 100));
    }
}

} // verus!
