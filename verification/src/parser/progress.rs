//! Reading FFmpeg's progress lines (`frame= ... fps= ... time= ...`) and the
//! `Duration:` line of its input report.
//!
//! The values FFmpeg prints with a decimal point (frame rate, bit rate, time,
//! speed, sizes in kB or MB) are handed on as text; the surrounding program
//! reads them as floating-point numbers.

use crate::domain::media_info::opt_view;
use crate::quantity::FloatBits;
use crate::text::{
    chars_of, contains_str, find_str, first_occurrence, is_digit, is_white_space, occurs_in,
    parse_unsigned, parsed_unsigned, str_eq, string_from_chars,
    strip_suffixes, strip_suffixes_of, trim_chars, trimmed, white_space,
};
use vstd::prelude::*;

verus! {

/// The first position at or after `i` that does not hold white space, or the
/// length of `s`.
pub open spec fn blank_end(s: Seq<char>, i: int) -> int
    decreases s.len() - i,
{
    if 0 <= i < s.len() && is_white_space(s[i]) {
        blank_end(s, i + 1)
    } else {
        i
    }
}

/// The first position at or after `i` that holds white space, or the length of `s`.
pub open spec fn token_end(s: Seq<char>, i: int) -> int
    decreases s.len() - i,
{
    if 0 <= i < s.len() && !is_white_space(s[i]) {
        token_end(s, i + 1)
    } else {
        i
    }
}

/// The value of `key` in a progress line: the word that follows the first
/// occurrence of `key`, after any white space FFmpeg pads it with, up to the
/// next white space (empty when nothing follows).
pub open spec fn extracted(line: Seq<char>, key: Seq<char>) -> Option<Seq<char>> {
    match first_occurrence(key, line) {
        None => None,
        Some(k) => {
            let start = blank_end(line, k + key.len());
            Some(line.subrange(start, token_end(line, start)))
        },
    }
}

/// Returns the value of `key` in a progress line.
pub fn extract_value(line: &str, key: &str) -> (res: Option<String>)
    ensures
        opt_view(res) == extracted(line@, key@),
{
    let lv = chars_of(line);
    let kv = chars_of(key);
    let k = match find_str(&lv, &kv) {
        Some(k) => k,
        None => return None,
    };
    assert(k + kv@.len() <= lv@.len());
    let mut i: usize = k + kv.len();
    while i < lv.len() && white_space(lv[i])
        invariant
            k + kv@.len() <= i <= lv@.len(),
            blank_end(lv@, (k + kv@.len()) as int) == blank_end(lv@, i as int),
        decreases lv@.len() - i,
    {
        i = i + 1;
    }
    let start = i;
    while i < lv.len() && !white_space(lv[i])
        invariant
            start <= i <= lv@.len(),
            token_end(lv@, start as int) == token_end(lv@, i as int),
        decreases lv@.len() - i,
    {
        i = i + 1;
    }
    Some(string_from_chars(&lv, start, i))
}

/// A duration as the `Duration:` line gives it.
#[derive(Debug, Clone, Copy, PartialEq, Eq, Structural)]
pub struct DurationStamp {
    pub hours: u64,
    pub minutes: u64,
    pub seconds: u64,
    pub centis: u64,
}

/// The value of a field: the number it holds, or 0 when it holds none.
pub open spec fn field_value(s: Seq<char>) -> u64 {
    match parsed_unsigned(s, u64::MAX as nat) {
        Some(v) => v as u64,
        None => 0,
    }
}

/// The value of the two ASCII digits at `i` and `i + 1` of `s`.
pub open spec fn pair_value(s: Seq<char>, i: int) -> u64 {
    ((s[i] as int - '0' as int) * 10 + (s[i + 1] as int - '0' as int)) as u64
}

/// Whether `s` holds a stamp `dd:dd:dd.dd` of ASCII digits starting at `j`.
pub open spec fn stamp_at(s: Seq<char>, j: int) -> bool {
    &&& 0 <= j && j + 11 <= s.len()
    &&& is_digit(s[j]) && is_digit(s[j + 1]) && s[j + 2] == ':'
    &&& is_digit(s[j + 3]) && is_digit(s[j + 4]) && s[j + 5] == ':'
    &&& is_digit(s[j + 6]) && is_digit(s[j + 7]) && s[j + 8] == '.'
    &&& is_digit(s[j + 9]) && is_digit(s[j + 10])
}

/// The duration a `Duration:` label at `k` introduces: the label, any white
/// space, then hours, minutes, seconds and hundredths as `dd:dd:dd.dd`.
pub open spec fn duration_at(s: Seq<char>, k: int) -> Option<DurationStamp> {
    let j = blank_end(s, k + 9);
    if 0 <= k && k + 9 <= s.len() && s.subrange(k, k + 9) == "Duration:"@ && stamp_at(s, j) {
        Some(DurationStamp {
            hours: pair_value(s, j),
            minutes: pair_value(s, j + 3),
            seconds: pair_value(s, j + 6),
            centis: pair_value(s, j + 9),
        })
    } else {
        None
    }
}

/// The duration introduced by the first `Duration:` label at or after `k`
/// that is followed by a stamp.
pub open spec fn duration_from(s: Seq<char>, k: int) -> Option<DurationStamp>
    decreases s.len() - k,
{
    if k < 0 || k + 9 > s.len() {
        None
    } else {
        match duration_at(s, k) {
            Some(d) => Some(d),
            None => duration_from(s, k + 1),
        }
    }
}

/// The duration on a `Duration:` line, if `line` is one: the stamp after the
/// first `Duration:` label that is followed by one.
pub open spec fn duration_of(line: Seq<char>) -> Option<DurationStamp> {
    duration_from(line, 0)
}

/// The value of an ASCII digit.
fn digit_value(c: char) -> (res: u64)
    requires
        is_digit(c),
    ensures
        res == c as int - '0' as int,
{
    (c as u64) - 48
}

/// Returns the value of the two digits at `i` and `i + 1`.
fn read_pair(v: &Vec<char>, i: usize) -> (res: u64)
    requires
        i + 1 < v@.len(),
        is_digit(v@[i as int]),
        is_digit(v@[i + 1]),
    ensures
        res == pair_value(v@, i as int),
{
    let n = v.len();
    assert(i + 1 < n);
    digit_value(v[i]) * 10 + digit_value(v[i + 1])
}

/// Returns the duration a `Duration:` label at `k` introduces, if it is one.
fn duration_at_position(v: &Vec<char>, k: usize) -> (res: Option<DurationStamp>)
    requires
        k + 9 <= v@.len(),
    ensures
        res == duration_at(v@, k as int),
{
    proof {
        reveal_strlit("Duration:");
    }
    let n = v.len();
    assert(k + 9 <= n);
    let label = v[k] == 'D' && v[k + 1] == 'u' && v[k + 2] == 'r' && v[k + 3] == 'a' && v[k + 4]
        == 't' && v[k + 5] == 'i' && v[k + 6] == 'o' && v[k + 7] == 'n' && v[k + 8] == ':';
    if !label {
        assert(v@.subrange(k as int, k + 9) != "Duration:"@) by {
            let t = v@.subrange(k as int, k + 9);
            if t == "Duration:"@ {
                assert(t[0] == 'D' && t[1] == 'u' && t[2] == 'r' && t[3] == 'a' && t[4] == 't');
                assert(t[5] == 'i' && t[6] == 'o' && t[7] == 'n' && t[8] == ':');
            }
        }
        return None;
    }
    assert(v@.subrange(k as int, k + 9) =~= "Duration:"@);
    let mut j: usize = k + 9;
    while j < v.len() && white_space(v[j])
        invariant
            k + 9 <= j <= v@.len(),
            blank_end(v@, (k + 9) as int) == blank_end(v@, j as int),
        decreases v@.len() - j,
    {
        j = j + 1;
    }
    if j > v.len() || v.len() - j < 11 {
        return None;
    }
    let stamp = is_digit_char(v[j]) && is_digit_char(v[j + 1]) && v[j + 2] == ':'
        && is_digit_char(v[j + 3]) && is_digit_char(v[j + 4]) && v[j + 5] == ':'
        && is_digit_char(v[j + 6]) && is_digit_char(v[j + 7]) && v[j + 8] == '.'
        && is_digit_char(v[j + 9]) && is_digit_char(v[j + 10]);
    if !stamp {
        return None;
    }
    Some(DurationStamp {
        hours: read_pair(v, j),
        minutes: read_pair(v, j + 3),
        seconds: read_pair(v, j + 6),
        centis: read_pair(v, j + 9),
    })
}

/// Returns whether `c` is an ASCII digit.
fn is_digit_char(c: char) -> (res: bool)
    ensures
        res == is_digit(c),
{
    '0' <= c && c <= '9'
}

/// Reads the value of a field.
fn read_field(s: &String) -> (res: u64)
    ensures
        res == field_value(s@),
{
    match parse_unsigned(s.as_str(), u64::MAX) {
        Some(v) => v,
        None => 0,
    }
}

/// Returns the duration on a `Duration:` line, if `line` is one.
pub fn parse_duration_line(line: &str) -> (res: Option<DurationStamp>)
    ensures
        res == duration_of(line@),
{
    let v = chars_of(line);
    let mut k: usize = 0;
    while k < v.len() && v.len() - k >= 9
        invariant
            v@ == line@,
            duration_from(v@, 0) == duration_from(v@, k as int),
        decreases v@.len() - k,
    {
        match duration_at_position(&v, k) {
            Some(d) => return Some(d),
            None => {},
        }
        k = k + 1;
    }
    None
}

/// The fields of a progress line, as text where FFmpeg prints decimals.
#[derive(Debug)]
pub struct ProgressFields {
    pub frame: u64,
    pub fps: Option<String>,
    pub bitrate: Option<String>,
    pub size: Option<String>,
    pub time: Option<String>,
    pub speed: Option<String>,
}

/// The value of `key`, trimmed and without trailing repetitions of `suffix`.
pub open spec fn field_text(line: Seq<char>, key: Seq<char>, suffix: Seq<char>) -> Option<Seq<char>> {
    match extracted(line, key) {
        Some(v) => Some(strip_suffixes(trimmed(v), suffix)),
        None => None,
    }
}

/// The frame count of a progress line, 0 when it has none.
pub open spec fn frame_of(line: Seq<char>) -> u64 {
    match extracted(line, "frame="@) {
        Some(v) => field_value(trimmed(v)),
        None => 0,
    }
}

/// Whether `f` holds the fields of the progress line `line`.
pub open spec fn fields_of(line: Seq<char>, f: ProgressFields) -> bool {
    &&& f.frame == frame_of(line)
    &&& opt_view(f.fps) == field_text(line, "fps="@, ""@)
    &&& opt_view(f.bitrate) == field_text(line, "bitrate="@, "kbits/s"@)
    &&& opt_view(f.size) == field_text(line, "size="@, ""@)
    &&& opt_view(f.time) == field_text(line, "time="@, ""@)
    &&& opt_view(f.speed) == field_text(line, "speed="@, "x"@)
}

/// What a line FFmpeg printed tells.
#[derive(Debug)]
pub enum LineReading {
    /// The duration of the input.
    Duration(DurationStamp),
    /// Progress of the encoding.
    Progress(ProgressFields),
    /// Nothing of interest.
    Other,
}

/// Returns the value of `key`, trimmed and without trailing repetitions of `suffix`.
fn read_text(line: &str, key: &str, suffix: &str) -> (res: Option<String>)
    ensures
        opt_view(res) == field_text(line@, key@, suffix@),
{
    match extract_value(line, key) {
        Some(v) => {
            let vv = chars_of(v.as_str());
            let t = trim_chars(&vv);
            let sv = chars_of(suffix);
            let stripped = strip_suffixes_of(&t, &sv);
            let r = string_from_chars(&stripped, 0, stripped.len());
            assert(r@ =~= stripped@);
            Some(r)
        },
        None => None,
    }
}

/// Reads a line FFmpeg printed: a `Duration:` line gives the duration; a
/// line with `frame=` or `time=` gives progress; any other line nothing.
pub fn read_line(line: &str) -> (res: LineReading)
    ensures
        duration_of(line@) matches Some(d) ==> res == LineReading::Duration(d),
        duration_of(line@) is None && !occurs_in("frame="@, line@) && !occurs_in("time="@, line@)
            ==> res is Other,
        duration_of(line@) is None && (occurs_in("frame="@, line@) || occurs_in("time="@, line@))
            ==> (res matches LineReading::Progress(f) && fields_of(line@, f)),
{
    match parse_duration_line(line) {
        Some(d) => return LineReading::Duration(d),
        None => {},
    }
    if !contains_str(line, "frame=") && !contains_str(line, "time=") {
        return LineReading::Other;
    }
    let frame = match extract_value(line, "frame=") {
        Some(v) => {
            let vv = chars_of(v.as_str());
            let t = trim_chars(&vv);
            let ts = string_from_chars(&t, 0, t.len());
            assert(ts@ =~= t@);
            read_field(&ts)
        },
        None => 0,
    };
    LineReading::Progress(ProgressFields {
        frame,
        fps: read_text(line, "fps=", ""),
        bitrate: read_text(line, "bitrate=", "kbits/s"),
        size: read_text(line, "size=", ""),
        time: read_text(line, "time=", ""),
        speed: read_text(line, "speed=", "x"),
    })
}

/// What a size field holds: not available, a number of kB or MB (as text,
/// to be read as a decimal), a number of bytes, or nothing readable.
#[derive(Debug)]
pub enum SizeReading {
    NotAvailable,
    KiloBytes(String),
    MegaBytes(String),
    Bytes(u64),
    Unreadable,
}

/// Whether `s` ends with `suffix`.
pub open spec fn has_suffix(s: Seq<char>, suffix: Seq<char>) -> bool {
    suffix.len() <= s.len() && s.skip(s.len() - suffix.len()) == suffix
}

/// Returns what the size field `s` holds; a kB or MB amount is given as its
/// number, trimmed.
pub fn read_size(s: &str) -> (res: SizeReading)
    ensures
        ({
            let t = trimmed(s@);
            &&& t == "N/A"@ ==> res is NotAvailable
            &&& t != "N/A"@ && has_suffix(t, "kB"@) ==> (res matches SizeReading::KiloBytes(n)
                && n@ == trimmed(t.take(t.len() - 2)))
            &&& t != "N/A"@ && !has_suffix(t, "kB"@) && has_suffix(t, "MB"@) ==> (res matches SizeReading::MegaBytes(n)
                && n@ == trimmed(t.take(t.len() - 2)))
            &&& t != "N/A"@ && !has_suffix(t, "kB"@) && !has_suffix(t, "MB"@) ==> match parsed_unsigned(t, u64::MAX as nat) {
                Some(v) => res == SizeReading::Bytes(v as u64),
                None => res is Unreadable,
            }
        }),
{
    let sv = chars_of(s);
    let t = trim_chars(&sv);
    let ts = string_from_chars(&t, 0, t.len());
    assert(ts@ =~= t@);
    if str_eq(ts.as_str(), "N/A") {
        return SizeReading::NotAvailable;
    }
    let n = t.len();
    if n >= 2 && t[n - 2] == 'k' && t[n - 1] == 'B' {
        proof {
            reveal_strlit("kB");
            assert(t@.skip(n - 2) =~= "kB"@);
        }
        let head = string_from_chars(&t, 0, n - 2);
        let hv = chars_of(head.as_str());
        let ht = trim_chars(&hv);
        assert(head@ =~= t@.take(n - 2));
        let r = string_from_chars(&ht, 0, ht.len());
        assert(r@ =~= ht@);
        return SizeReading::KiloBytes(r);
    }
    proof {
        reveal_strlit("kB");
        if has_suffix(t@, "kB"@) {
            assert(t@.skip(n - 2)[0] == 'k' && t@.skip(n - 2)[1] == 'B');
        }
    }
    if n >= 2 && t[n - 2] == 'M' && t[n - 1] == 'B' {
        proof {
            reveal_strlit("MB");
            assert(t@.skip(n - 2) =~= "MB"@);
        }
        let head = string_from_chars(&t, 0, n - 2);
        let hv = chars_of(head.as_str());
        let ht = trim_chars(&hv);
        assert(head@ =~= t@.take(n - 2));
        let r = string_from_chars(&ht, 0, ht.len());
        assert(r@ =~= ht@);
        return SizeReading::MegaBytes(r);
    }
    proof {
        reveal_strlit("MB");
        if has_suffix(t@, "MB"@) {
            assert(t@.skip(n - 2)[0] == 'M' && t@.skip(n - 2)[1] == 'B');
        }
    }
    match parse_unsigned(ts.as_str(), u64::MAX) {
        Some(v) => SizeReading::Bytes(v),
        None => SizeReading::Unreadable,
    }
}

/// The three parts of a time field split at its colons, unless it is
/// negative, `N/A`, or does not have exactly two colons.
pub open spec fn time_parts(s: Seq<char>) -> Option<(Seq<char>, Seq<char>, Seq<char>)> {
    if (s.len() > 0 && s[0] == '-') || s == "N/A"@ {
        None
    } else {
        match first_occurrence(":"@, s) {
            None => None,
            Some(i) => {
                let rest = s.skip(i + 1);
                match first_occurrence(":"@, rest) {
                    None => None,
                    Some(j) => {
                        let last = rest.skip(j + 1);
                        if first_occurrence(":"@, last) is Some {
                            None
                        } else {
                            Some((s.take(i), rest.take(j), last))
                        }
                    },
                }
            },
        }
    }
}

/// Returns the hours, minutes and seconds of a time field, as text.
pub fn read_time(s: &str) -> (res: Option<(String, String, String)>)
    ensures
        match time_parts(s@) {
            Some((h, m, sec)) => res matches Some((a, b, c)) && a@ == h && b@ == m && c@ == sec,
            None => res is None,
        },
{
    let v = chars_of(s);
    if (v.len() > 0 && v[0] == '-') || str_eq(s, "N/A") {
        return None;
    }
    let colon: Vec<char> = vec![':'];
    assert(colon@ =~= ":"@) by {
        reveal_strlit(":");
    }
    let i = match find_str(&v, &colon) {
        Some(i) => i,
        None => return None,
    };
    let rest = chars_after(&v, i + 1);
    let j = match find_str(&rest, &colon) {
        Some(j) => j,
        None => return None,
    };
    let last = chars_after(&rest, j + 1);
    if find_str(&last, &colon).is_some() {
        return None;
    }
    let c = string_from_chars(&last, 0, last.len());
    assert(c@ =~= last@);
    Some((string_from_chars(&v, 0, i), string_from_chars(&rest, 0, j), c))
}

/// The characters of `v` from position `k` on.
fn chars_after(v: &Vec<char>, k: usize) -> (res: Vec<char>)
    requires
        k <= v@.len(),
    ensures
        res@ == v@.skip(k as int),
{
    let mut res: Vec<char> = Vec::new();
    let mut i: usize = k;
    while i < v.len()
        invariant
            k <= i <= v@.len(),
            res@ == v@.subrange(k as int, i as int),
        decreases v@.len() - i,
    {
        res.push(v[i]);
        i = i + 1;
        assert(res@ =~= v@.subrange(k as int, i as int));
    }
    assert(res@ =~= v@.skip(k as int));
    res
}

/// What the progress of a job is measured against: the duration of its input,
/// once known.
#[derive(Debug, Clone, Copy)]
pub struct ProgressParser {
    pub duration: Option<FloatBits>,
}

impl ProgressParser {
    /// A parser that does not know the duration yet.
    pub fn new() -> (res: Self)
        ensures
            res.duration is None,
    {
        ProgressParser { duration: None }
    }

    /// A parser that knows the duration.
    pub fn with_duration(duration: FloatBits) -> (res: Self)
        ensures
            res.duration == Some(duration),
    {
        ProgressParser { duration: Some(duration) }
    }

    /// Records the duration.
    pub fn set_duration(&mut self, duration: FloatBits)
        ensures
            final(self).duration == Some(duration),
    {
        self.duration = Some(duration);
    }
}

impl Default for ProgressParser {
    fn default() -> (res: Self)
        ensures
            res.duration is None,
    {
        ProgressParser::new()
    }
}

} // verus!
