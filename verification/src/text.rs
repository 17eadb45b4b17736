//! Character-level text helpers: whitespace, trimming, the first non-blank
//! line of a text, and decimal numbers.

use vstd::prelude::*;
use vstd::string::*;
use unicode_width::UnicodeWidthStr;

verus! {

pub assume_specification[ String::push ](string: &mut String, ch: char)
    ensures
        final(string)@ == old(string)@.push(ch),
;

/// The characters of `s`, in order.
pub fn chars_of(s: &str) -> (r: Vec<char>)
    ensures
        r@ == s@,
{
    let mut out: Vec<char> = Vec::new();
    for c in it: s.chars()
        invariant
            out@ == it.seq().take(it.index() as int),
            it.seq() == s@,
    {
        out.push(c);
    }
    out
}

/// A `String` holding `chars[lo..hi]`.
pub fn string_from_range(chars: &Vec<char>, lo: usize, hi: usize) -> (r: String)
    requires
        lo <= hi <= chars@.len(),
    ensures
        r@ == chars@.subrange(lo as int, hi as int),
{
    let mut out = String::new();
    let mut i = lo;
    while i < hi
        invariant
            lo <= i <= hi <= chars@.len(),
            out@ == chars@.subrange(lo as int, i as int),
        decreases hi - i,
    {
        out.push(chars[i]);
        i = i + 1;
    }
    out
}

/// Unicode `White_Space`, the property that `char::is_whitespace` tests.
pub open spec fn is_white_space(c: char) -> bool {
    ||| '\t' <= c <= '\r'
    ||| c == ' '
    ||| c == '\u{85}'
    ||| c == '\u{A0}'
    ||| c == '\u{1680}'
    ||| '\u{2000}' <= c <= '\u{200A}'
    ||| c == '\u{2028}'
    ||| c == '\u{2029}'
    ||| c == '\u{202F}'
    ||| c == '\u{205F}'
    ||| c == '\u{3000}'
}

/// Whether `c` is Unicode white space.
pub fn is_whitespace(c: char) -> (r: bool)
    ensures
        r == is_white_space(c),
{
    ('\t' <= c && c <= '\r') || c == ' ' || c == '\u{85}' || c == '\u{A0}' || c == '\u{1680}'
        || ('\u{2000}' <= c && c <= '\u{200A}') || c == '\u{2028}' || c == '\u{2029}'
        || c == '\u{202F}' || c == '\u{205F}' || c == '\u{3000}'
}

/// `s` without its leading white space.
pub open spec fn trim_start(s: Seq<char>) -> Seq<char>
    decreases s.len(),
{
    if s.len() > 0 && is_white_space(s[0]) {
        trim_start(s.drop_first())
    } else {
        s
    }
}

/// `s` without its trailing white space.
pub open spec fn trim_end(s: Seq<char>) -> Seq<char>
    decreases s.len(),
{
    if s.len() > 0 && is_white_space(s.last()) {
        trim_end(s.drop_last())
    } else {
        s
    }
}

/// `s` without leading and trailing white space, as `str::trim` gives it.
pub open spec fn trim(s: Seq<char>) -> Seq<char> {
    trim_end(trim_start(s))
}

/// Bounds `(a, b)` with `chars[a..b]` the trimmed `chars[lo..hi]`.
pub fn trim_bounds(chars: &Vec<char>, lo: usize, hi: usize) -> (r: (usize, usize))
    requires
        lo <= hi <= chars@.len(),
    ensures
        lo <= r.0 <= r.1 <= hi,
        chars@.subrange(r.0 as int, r.1 as int) == trim(chars@.subrange(lo as int, hi as int)),
{
    let ghost s = chars@.subrange(lo as int, hi as int);
    let mut a = lo;
    while a < hi && is_whitespace(chars[a])
        invariant
            lo <= a <= hi <= chars@.len(),
            s == chars@.subrange(lo as int, hi as int),
            trim_start(s) == trim_start(chars@.subrange(a as int, hi as int)),
        decreases hi - a,
    {
        assert(chars@.subrange(a as int, hi as int).drop_first() =~= chars@.subrange(
            a + 1,
            hi as int,
        ));
        a = a + 1;
    }
    assert(trim_start(s) == chars@.subrange(a as int, hi as int));
    let mut b = hi;
    while b > a && is_whitespace(chars[b - 1])
        invariant
            lo <= a <= b <= hi <= chars@.len(),
            trim_start(s) == chars@.subrange(a as int, hi as int),
            trim(s) == trim_end(chars@.subrange(a as int, b as int)),
        decreases b - a,
    {
        assert(chars@.subrange(a as int, b as int).drop_last() =~= chars@.subrange(
            a as int,
            b - 1,
        ));
        b = b - 1;
    }
    (a, b)
}

/// The index of the first line feed in `s` at or after `from`, or `s.len()`.
pub open spec fn line_end(s: Seq<char>, from: int) -> int
    decreases s.len() - from,
{
    if from >= s.len() {
        s.len() as int
    } else if s[from] == '\n' {
        from
    } else {
        line_end(s, from + 1)
    }
}

/// A line ends at or after where it starts.
pub proof fn lemma_line_end_bounds(s: Seq<char>, from: int)
    requires
        0 <= from,
    ensures
        from <= s.len() ==> from <= line_end(s, from) <= s.len(),
        from < s.len() ==> line_end(s, from) < s.len() ==> s[line_end(s, from)] == '\n',
    decreases s.len() - from,
{
    if from < s.len() && s[from] != '\n' {
        lemma_line_end_bounds(s, from + 1);
    }
}

/// The first line of `s`, from `from` on, that holds more than white space,
/// trimmed; empty when there is none. Lines end at a line feed; a carriage
/// return before it is white space and goes with the trimming.
pub open spec fn first_nonblank_line_from(s: Seq<char>, from: int) -> Seq<char>
    decreases s.len() - from,
    via first_nonblank_line_from_decreases
{
    if from < 0 || from >= s.len() {
        Seq::empty()
    } else {
        let e = line_end(s, from);
        let t = trim(s.subrange(from, e));
        if t.len() > 0 {
            t
        } else if e >= s.len() {
            Seq::empty()
        } else {
            first_nonblank_line_from(s, e + 1)
        }
    }
}

#[via_fn]
proof fn first_nonblank_line_from_decreases(s: Seq<char>, from: int) {
    if 0 <= from < s.len() {
        lemma_line_end_bounds(s, from);
    }
}

/// The first non-blank line of `s`, trimmed (empty when every line is blank).
pub open spec fn first_nonblank_line(s: Seq<char>) -> Seq<char> {
    first_nonblank_line_from(s, 0)
}

/// The first line of `text` that is not blank, trimmed; empty when there is none.
pub fn first_line(text: &str) -> (r: String)
    ensures
        r@ == first_nonblank_line(text@),
{
    let chars = chars_of(text);
    let n = chars.len();
    let mut from: usize = 0;
    while from < n
        invariant
            n == chars@.len(),
            chars@ == text@,
            from <= n,
            first_nonblank_line(text@) == first_nonblank_line_from(text@, from as int),
        decreases n - from,
    {
        let mut e = from;
        while e < n && chars[e] != '\n'
            invariant
                n == chars@.len(),
                from <= e <= n,
                line_end(chars@, from as int) == line_end(chars@, e as int),
            decreases n - e,
        {
            e = e + 1;
        }
        let (a, b) = trim_bounds(&chars, from, e);
        proof {
            lemma_line_end_bounds(chars@, from as int);
        }
        if a < b {
            return string_from_range(&chars, a, b);
        }
        if e == n {
            return String::new();
        }
        from = e + 1;
    }
    String::new()
}

/// The decimal digit for `d < 10`.
pub open spec fn digit_char(d: nat) -> char {
    if d == 0 {
        '0'
    } else if d == 1 {
        '1'
    } else if d == 2 {
        '2'
    } else if d == 3 {
        '3'
    } else if d == 4 {
        '4'
    } else if d == 5 {
        '5'
    } else if d == 6 {
        '6'
    } else if d == 7 {
        '7'
    } else if d == 8 {
        '8'
    } else {
        '9'
    }
}

/// The decimal representation of `n`, without leading zeros.
pub open spec fn decimal(n: nat) -> Seq<char>
    decreases n,
{
    if n < 10 {
        seq![digit_char(n)]
    } else {
        decimal(n / 10).push(digit_char(n % 10))
    }
}

fn digit(d: usize) -> (c: char)
    requires
        d < 10,
    ensures
        c == digit_char(d as nat),
{
    if d == 0 {
        '0'
    } else if d == 1 {
        '1'
    } else if d == 2 {
        '2'
    } else if d == 3 {
        '3'
    } else if d == 4 {
        '4'
    } else if d == 5 {
        '5'
    } else if d == 6 {
        '6'
    } else if d == 7 {
        '7'
    } else if d == 8 {
        '8'
    } else {
        '9'
    }
}

/// `n` written in decimal, as `format!("{n}")` writes it.
pub fn decimal_string(n: usize) -> (r: String)
    ensures
        r@ == decimal(n as nat),
    decreases n,
{
    if n < 10 {
        let mut s = String::new();
        s.push(digit(n));
        s
    } else {
        let mut s = decimal_string(n / 10);
        s.push(digit(n % 10));
        s
    }
}

/// Whether `c` is an ASCII decimal digit.
pub open spec fn is_digit(c: char) -> bool {
    '0' <= c <= '9'
}

/// Whether `s` begins with an RFC 3339 date-time up to the minutes:
/// `YYYY-MM-DD`, a `T`, `t` or space, then `hh:mm`.
pub open spec fn is_rfc3339_prefix(s: Seq<char>) -> bool {
    &&& s.len() >= 16
    &&& is_digit(s[0]) && is_digit(s[1]) && is_digit(s[2]) && is_digit(s[3])
    &&& s[4] == '-'
    &&& is_digit(s[5]) && is_digit(s[6])
    &&& s[7] == '-'
    &&& is_digit(s[8]) && is_digit(s[9])
    &&& (s[10] == 'T' || s[10] == 't' || s[10] == ' ')
    &&& is_digit(s[11]) && is_digit(s[12])
    &&& s[13] == ':'
    &&& is_digit(s[14]) && is_digit(s[15])
}

/// `HH:MM` out of an RFC 3339 timestamp; `None` for anything else.
pub open spec fn clock_of(at: Seq<char>) -> Option<Seq<char>> {
    if is_rfc3339_prefix(at) {
        Some(at.subrange(11, 16))
    } else {
        None
    }
}

/// Any timestamp of the form `YYYY-MM-DDThh:mm…`, with any digits in any
/// place and `T`, `t` or a space between date and time, gives its `hh:mm`;
/// and whatever gives a time has that form.
pub proof fn law_clock_reads_any_timestamp(s: Seq<char>)
    ensures
        ({
            let shaped = s.len() >= 16 && (forall|i: int|
                0 <= i < 16 && i != 4 && i != 7 && i != 10 && i != 13 ==> '0' <= #[trigger] s[i]
                    <= '9') && s[4] == '-' && s[7] == '-' && (s[10] == 'T' || s[10] == 't' || s[10]
                == ' ') && s[13] == ':';
            &&& shaped ==> clock_of(s) == Some(s.subrange(11, 16))
            &&& !shaped ==> clock_of(s) is None
        }),
{
    if s.len() >= 16 {
        assert('0' <= s[0] <= '9' ==> is_digit(s[0]));
        assert(is_digit(s[1]) == ('0' <= s[1] <= '9'));
        assert(is_digit(s[2]) == ('0' <= s[2] <= '9'));
        assert(is_digit(s[3]) == ('0' <= s[3] <= '9'));
        assert(is_digit(s[5]) == ('0' <= s[5] <= '9'));
        assert(is_digit(s[6]) == ('0' <= s[6] <= '9'));
        assert(is_digit(s[8]) == ('0' <= s[8] <= '9'));
        assert(is_digit(s[9]) == ('0' <= s[9] <= '9'));
        assert(is_digit(s[11]) == ('0' <= s[11] <= '9'));
        assert(is_digit(s[12]) == ('0' <= s[12] <= '9'));
        assert(is_digit(s[14]) == ('0' <= s[14] <= '9'));
        assert(is_digit(s[15]) == ('0' <= s[15] <= '9'));
    }
}

fn is_ascii_digit(c: char) -> (r: bool)
    ensures
        r == is_digit(c),
{
    '0' <= c && c <= '9'
}

/// `HH:MM` out of an RFC 3339 timestamp; anything else gives `None`.
pub fn clock(at: &str) -> (r: Option<String>)
    ensures
        match r {
            Some(t) => clock_of(at@) == Some(t@),
            None => clock_of(at@) is None,
        },
{
    let c = chars_of(at);
    if c.len() < 16 {
        return None;
    }
    let shaped = is_ascii_digit(c[0]) && is_ascii_digit(c[1]) && is_ascii_digit(c[2])
        && is_ascii_digit(c[3]) && c[4] == '-' && is_ascii_digit(c[5]) && is_ascii_digit(c[6])
        && c[7] == '-' && is_ascii_digit(c[8]) && is_ascii_digit(c[9]) && (c[10] == 'T' || c[10]
        == 't' || c[10] == ' ') && is_ascii_digit(c[11]) && is_ascii_digit(c[12]) && c[13] == ':'
        && is_ascii_digit(c[14]) && is_ascii_digit(c[15]);
    if !shaped {
        return None;
    }
    Some(string_from_range(&c, 11, 16))
}

/// The display width, in terminal columns, that the `unicode-width` crate
/// gives a string (`UnicodeWidthStr::width`).
pub uninterp spec fn display_width(s: Seq<char>) -> usize;

/// Every character of `s` is printable ASCII (space to tilde).
pub open spec fn is_printable_ascii(s: Seq<char>) -> bool {
    forall|i: int| 0 <= i < s.len() ==> ' ' <= #[trigger] s[i] <= '~'
}

/// Calls `unicode_width::UnicodeWidthStr::width` on `s`. Its result is named
/// `display_width` of the characters; the crate's source gives each printable
/// ASCII character one column, so such a string is as wide as it is long.
/// Nothing else is stated of the width tables.
#[verifier::external_body]
pub(crate) fn str_width(s: &str) -> (w: usize)
    ensures
        w == display_width(s@),
        is_printable_ascii(s@) ==> w == s@.len(),
{
    s.width()
}

/// The number of characters that `fit` keeps of `s`: the first `j` at which
/// the kept prefix, widened by one column, reaches `width`, or all of them.
pub open spec fn fit_cut(s: Seq<char>, width: usize, j: int) -> int
    decreases s.len() - j,
{
    if j >= s.len() {
        s.len() as int
    } else if display_width(s.take(j)) + 1 >= width {
        j
    } else {
        fit_cut(s, width, j + 1)
    }
}

/// `s` when it is at most `width` columns wide; otherwise the prefix that
/// `fit_cut` keeps, followed by an ellipsis.
pub open spec fn fit_of(s: Seq<char>, width: usize) -> Seq<char> {
    if display_width(s) <= width {
        s
    } else {
        s.take(fit_cut(s, width, 0)).push('\u{2026}')
    }
}

proof fn lemma_fit_cut(s: Seq<char>, width: usize, j: int)
    requires
        0 <= j <= s.len(),
    ensures
        j <= fit_cut(s, width, j) <= s.len(),
        fit_cut(s, width, j) < s.len() ==> display_width(s.take(fit_cut(s, width, j))) + 1
            >= width,
        forall|i: int|
            j <= i < fit_cut(s, width, j) ==> display_width(#[trigger] s.take(i)) + 1 < width,
    decreases s.len() - j,
{
    if j < s.len() && display_width(s.take(j)) + 1 < width {
        lemma_fit_cut(s, width, j + 1);
    }
}

/// What `fit` gives back: the text itself when it fits; otherwise a prefix of
/// it and an ellipsis, where every shorter prefix leaves a column to spare and
/// the prefix kept, unless it is the whole text, does not.
pub proof fn law_fit_shape(s: Seq<char>, width: usize)
    ensures
        display_width(s) <= width ==> fit_of(s, width) == s,
        display_width(s) > width ==> {
            let cut = fit_cut(s, width, 0);
            &&& 0 <= cut <= s.len()
            &&& fit_of(s, width) == s.take(cut).push('\u{2026}')
            &&& forall|i: int| 0 <= i < cut ==> display_width(#[trigger] s.take(i)) + 1 < width
            &&& cut < s.len() ==> display_width(s.take(cut)) + 1 >= width
        },
{
    lemma_fit_cut(s, width, 0);
}

/// `text` cut to fit `width` columns, with an ellipsis where it was cut.
pub fn fit(text: &str, width: usize) -> (r: String)
    ensures
        r@ == fit_of(text@, width),
{
    if str_width(text) <= width {
        return text.to_owned();
    }
    let chars = chars_of(text);
    let n = chars.len();
    let mut out = String::new();
    let mut j: usize = 0;
    while j < n
        invariant_except_break
            fit_cut(text@, width, 0) == fit_cut(text@, width, j as int),
        invariant
            n == chars@.len(),
            chars@ == text@,
            j <= n,
            out@ == text@.take(j as int),
        ensures
            fit_cut(text@, width, 0) == j,
        decreases n - j,
    {
        let w = str_width(out.as_str());
        if width == 0 || w >= width - 1 {
            break;
        }
        out.push(chars[j]);
        j = j + 1;
        assert(out@ =~= text@.take(j as int));
    }
    out.push('\u{2026}');
    out
}

} // verus!
