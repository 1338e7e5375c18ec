//! Text helpers: decimal rendering, trimming, searching and joining,
//! each stated over the character sequence that a string views as.

use vstd::prelude::*;

verus! {

// ---------------------------------------------------------------------------
// Trusted single-character edits of a `String`.
// ---------------------------------------------------------------------------

/// `String::push`: appends one character at the end of the string.
#[verifier::external_body]
pub fn push_char(s: &mut String, c: char)
    ensures
        final(s)@ == old(s)@.push(c),
{
    s.push(c);
}

/// `String::pop`: removes the last character and hands it back, or gives
/// `None` and leaves the string as it was when it is empty.
#[verifier::external_body]
pub fn pop_char(s: &mut String) -> (res: Option<char>)
    ensures
        old(s)@.len() == 0 ==> res.is_none() && final(s)@ == old(s)@,
        old(s)@.len() > 0 ==> res == Some(old(s)@.last()) && final(s)@ == old(s)@.drop_last(),
{
    s.pop()
}

// ---------------------------------------------------------------------------
// Decimal rendering of integers.
// ---------------------------------------------------------------------------

/// The ASCII character of a decimal digit.
pub open spec fn digit_char(d: nat) -> char {
    ((48 + d) as u8) as char
}

/// The decimal rendering of a natural number, without leading zeros.
pub open spec fn nat_text(n: nat) -> Seq<char>
    decreases n,
{
    if n < 10 {
        seq![digit_char(n)]
    } else {
        nat_text(n / 10).push(digit_char(n % 10))
    }
}

/// The decimal rendering of a number is a run of digits, with no leading
/// zero unless the number is 0, whose value is the number.
pub proof fn law_nat_text_is_decimal(n: nat)
    ensures
        nat_text(n).len() > 0,
        forall|i: int| 0 <= i < nat_text(n).len() ==> is_digit(#[trigger] nat_text(n)[i]),
        digits_value(nat_text(n)) == n,
        n > 0 ==> nat_text(n)[0] != '0',
        n == 0 ==> nat_text(n) == seq!['0'],
    decreases n,
{
    let d = n % 10;
    assert(digit_char(d) as int - '0' as int == d) by {
        assert(d < 10);
        assert(((48 + d) as u8) as char as int == 48 + d);
    }
    assert(n == (n / 10) * 10 + d);
    let t = nat_text(n);
    assert(t.last() == digit_char(d));
    assert(digits_value(t) == digits_value(t.drop_last()) * 10 + d);
    if n >= 10 {
        law_nat_text_is_decimal(n / 10);
        assert(t.drop_last() == nat_text(n / 10));
        assert(forall|i: int| 0 <= i < t.len() - 1 ==> t[i] == nat_text(n / 10)[i]);
    } else {
        assert(t.drop_last() =~= Seq::<char>::empty());
        assert(digits_value(t.drop_last()) == 0);
    }
}

/// The decimal rendering of an integer: a minus sign before negative values.
pub open spec fn int_text(v: int) -> Seq<char> {
    if v < 0 {
        seq!['-'] + nat_text((-v) as nat)
    } else {
        nat_text(v as nat)
    }
}

fn digit(d: u64) -> (c: char)
    requires
        d < 10,
    ensures
        c == digit_char(d as nat),
{
    let b: u8 = 48u8 + (d as u8);
    b as char
}

/// Appends the decimal rendering of `n`.
pub fn push_u64(s: &mut String, n: u64)
    ensures
        final(s)@ == old(s)@ + nat_text(n as nat),
    decreases n,
{
    if n >= 10 {
        push_u64(s, n / 10);
    }
    let c = digit(n % 10);
    push_char(s, c);
    assert(final(s)@ =~= old(s)@ + nat_text(n as nat));
}

/// Appends the decimal rendering of `v`, with a minus sign when negative.
pub fn push_i64(s: &mut String, v: i64)
    ensures
        final(s)@ == old(s)@ + int_text(v as int),
{
    if v < 0 {
        push_char(s, '-');
        let m: i64 = -(v + 1);
        let a: u64 = (m as u64) + 1;
        push_u64(s, a);
        assert(final(s)@ =~= old(s)@ + int_text(v as int));
    } else {
        push_u64(s, v as u64);
    }
}

/// The decimal rendering of `n` as a new string.
pub fn u64_text(n: u64) -> (res: String)
    ensures
        res@ == nat_text(n as nat),
{
    let mut s = String::new();
    push_u64(&mut s, n);
    assert(s@ =~= nat_text(n as nat));
    s
}

// ---------------------------------------------------------------------------
// Characters of a string slice.
// ---------------------------------------------------------------------------

/// The characters of `s`, in order.
pub fn chars_of(s: &str) -> (res: Vec<char>)
    ensures
        res@ == s@,
{
    let n = s.unicode_len();
    let mut v: Vec<char> = Vec::new();
    let mut i: usize = 0;
    while i < n
        invariant
            n == s@.len(),
            i <= n,
            v@ == s@.subrange(0, i as int),
        decreases n - i,
    {
        let c = s.get_char(i);
        v.push(c);
        i = i + 1;
        assert(v@ =~= s@.subrange(0, i as int));
    }
    assert(v@ =~= s@);
    v
}

} // verus!

verus! {

// ---------------------------------------------------------------------------
// Comparison and case mapping.
// ---------------------------------------------------------------------------

/// Whether two string slices hold the same characters.
pub fn str_eq(a: &str, b: &str) -> (res: bool)
    ensures
        res == (a@ == b@),
{
    let n = a.unicode_len();
    let m = b.unicode_len();
    if n != m {
        return false;
    }
    let mut i: usize = 0;
    while i < n
        invariant
            n == a@.len(),
            m == b@.len(),
            n == m,
            i <= n,
            forall|j: int| 0 <= j < i ==> a@[j] == b@[j],
        decreases n - i,
    {
        if a.get_char(i) != b.get_char(i) {
            return false;
        }
        i = i + 1;
    }
    assert(a@ =~= b@);
    true
}

/// The ASCII lowercase of a character; other characters are unchanged.
pub open spec fn ascii_lower(c: char) -> char {
    if 'A' <= c && c <= 'Z' {
        ((c as u32) + 32) as char
    } else {
        c
    }
}

/// Whether every character of `s` is ASCII.
pub open spec fn all_ascii(s: Seq<char>) -> bool {
    forall|i: int| 0 <= i < s.len() ==> (s[i] as u32) < 128
}

/// What `str::to_lowercase` gives for a string: its Unicode lowercase form,
/// which maps characters one by one except where the mapping depends on the
/// context (a capital sigma at the end of a word becomes a final sigma).
pub uninterp spec fn unicode_lowercase(s: Seq<char>) -> Seq<char>;

/// `str::to_lowercase`. Its result is named by `unicode_lowercase`; on an
/// ASCII string it maps `A`..`Z` to `a`..`z` and keeps every other character,
/// which is all that is stated of it beyond the name.
#[verifier::external_body]
pub fn to_lowercase(s: &str) -> (res: String)
    ensures
        res@ == unicode_lowercase(s@),
        all_ascii(s@) ==> res@ == s@.map_values(|c: char| ascii_lower(c)),
{
    s.to_lowercase()
}

} // verus!

verus! {

// ---------------------------------------------------------------------------
// Joining.
// ---------------------------------------------------------------------------

/// The parts written one after another with `sep` between each two of them.
pub open spec fn join(parts: Seq<Seq<char>>, sep: Seq<char>) -> Seq<char>
    decreases parts.len(),
{
    if parts.len() == 0 {
        seq![]
    } else if parts.len() == 1 {
        parts[0]
    } else {
        join(parts.drop_last(), sep) + sep + parts.last()
    }
}

/// Appends a string slice.
pub fn push_str(s: &mut String, t: &str)
    ensures
        final(s)@ == old(s)@ + t@,
{
    s.append(t);
}

/// The strings of `parts` joined with `sep` between each two of them.
pub fn join_strings(parts: &Vec<String>, sep: &str) -> (res: String)
    ensures
        res@ == join(parts@.map_values(|p: String| p@), sep@),
{
    let ghost views = parts@.map_values(|p: String| p@);
    let mut res = String::new();
    let mut i: usize = 0;
    while i < parts.len()
        invariant
            i <= parts.len(),
            views == parts@.map_values(|p: String| p@),
            res@ == join(views.take(i as int), sep@),
        decreases parts.len() - i,
    {
        if i > 0 {
            res.append(sep);
        }
        res.append(parts[i].as_str());
        assert(views.take(i + 1).drop_last() =~= views.take(i as int));
        i = i + 1;
    }
    assert(views.take(parts.len() as int) =~= views);
    res
}

} // verus!

verus! {

/// The character sequences of a list of strings.
pub open spec fn views(v: Seq<String>) -> Seq<Seq<char>> {
    v.map_values(|s: String| s@)
}

/// A new string holding the characters of `s`.
pub fn string_of(s: &str) -> (res: String)
    ensures
        res@ == s@,
{
    String::from_str(s)
}

/// Whether `s` holds the character `c`.
pub fn has_char(s: &str, c: char) -> (res: bool)
    ensures
        res == s@.contains(c),
{
    let n = s.unicode_len();
    let mut i: usize = 0;
    while i < n
        invariant
            n == s@.len(),
            i <= n,
            forall|j: int| 0 <= j < i ==> s@[j] != c,
        decreases n - i,
    {
        if s.get_char(i) == c {
            assert(s@[i as int] == c);
            return true;
        }
        i = i + 1;
    }
    false
}

/// Appends copies of the strings of `src` at the end of `dst`.
pub fn extend_strings(dst: &mut Vec<String>, src: &Vec<String>)
    ensures
        views(final(dst)@) == views(old(dst)@) + views(src@),
{
    let mut i: usize = 0;
    while i < src.len()
        invariant
            i <= src.len(),
            views(dst@) == views(old(dst)@) + views(src@.take(i as int)),
        decreases src.len() - i,
    {
        let ghost prev = dst@;
        dst.push(src[i].clone());
        assert(views(dst@) =~= views(prev).push(src@[i as int]@));
        assert(views(src@.take(i + 1)) =~= views(src@.take(i as int)).push(src@[i as int]@));
        assert(views(dst@) =~= views(old(dst)@) + views(src@.take(i + 1)));
        i = i + 1;
    }
    assert(src@.take(i as int) =~= src@);
}

} // verus!

verus! {

/// Whether `pat` occurs in `s` as a contiguous run of characters.
pub open spec fn occurs_in(pat: Seq<char>, s: Seq<char>) -> bool {
    exists|k: int| 0 <= k && k + pat.len() <= s.len() && #[trigger] s.subrange(k, k + pat.len()) == pat
}

/// Whether `pat` occurs at position `k` of `s`.
fn occurs_at(pat: &Vec<char>, s: &Vec<char>, k: usize) -> (res: bool)
    requires
        k + pat@.len() <= s@.len(),
        s@.len() <= usize::MAX,
    ensures
        res == (s@.subrange(k as int, k + pat@.len()) == pat@),
{
    let mut j: usize = 0;
    while j < pat.len()
        invariant
            k + pat@.len() <= s@.len(),
            s@.len() <= usize::MAX,
            j <= pat@.len(),
            forall|m: int| 0 <= m < j ==> s@[k + m] == pat@[m],
        decreases pat@.len() - j,
    {
        if s[k + j] != pat[j] {
            assert(s@.subrange(k as int, k + pat@.len())[j as int] != pat@[j as int]);
            return false;
        }
        j = j + 1;
    }
    assert(s@.subrange(k as int, k + pat@.len()) =~= pat@);
    true
}

/// Whether `pat` occurs in `s`.
pub fn occurs(pat: &Vec<char>, s: &Vec<char>) -> (res: bool)
    ensures
        res == occurs_in(pat@, s@),
{
    if pat.len() > s.len() {
        return false;
    }
    if pat.len() == 0 {
        assert(s@.subrange(0int, 0int + pat@.len()) =~= pat@);
        return true;
    }
    let last = s.len() - pat.len();
    let mut k: usize = 0;
    while k <= last
        invariant
            last + pat@.len() == s@.len(),
            s@.len() <= usize::MAX,
            pat@.len() > 0,
            k <= last + 1,
            forall|m: int| 0 <= m < k ==> #[trigger] s@.subrange(m, m + pat@.len()) != pat@,
        decreases last + 1 - k,
    {
        if occurs_at(pat, s, k) {
            return true;
        }
        k = k + 1;
    }
    false
}

} // verus!

verus! {

/// Lexicographic order on character sequences, by code point; a proper prefix
/// comes first. This is the order in which `String`s compare.
pub open spec fn text_less(a: Seq<char>, b: Seq<char>) -> bool
    decreases a.len(),
{
    if b.len() == 0 {
        false
    } else if a.len() == 0 {
        true
    } else if a[0] != b[0] {
        a[0] < b[0]
    } else {
        text_less(a.drop_first(), b.drop_first())
    }
}

/// No text comes before itself, and of two texts at most one comes first.
pub proof fn lemma_text_less_asymmetric(a: Seq<char>, b: Seq<char>)
    ensures
        text_less(a, b) ==> !text_less(b, a),
    decreases a.len(),
{
    if a.len() > 0 && b.len() > 0 && a[0] == b[0] {
        lemma_text_less_asymmetric(a.drop_first(), b.drop_first());
    }
}

/// The order of texts is transitive.
pub proof fn lemma_text_less_transitive(a: Seq<char>, b: Seq<char>, c: Seq<char>)
    requires
        text_less(a, b),
        text_less(b, c),
    ensures
        text_less(a, c),
    decreases a.len(),
{
    if a.len() > 0 && b.len() > 0 && c.len() > 0 && a[0] == b[0] && b[0] == c[0] {
        lemma_text_less_transitive(a.drop_first(), b.drop_first(), c.drop_first());
    }
}

/// Two texts of which neither comes first are equal.
pub proof fn lemma_text_less_total(a: Seq<char>, b: Seq<char>)
    ensures
        text_less(a, b) || text_less(b, a) || a == b,
    decreases a.len(),
{
    if a.len() > 0 && b.len() > 0 && a[0] == b[0] {
        lemma_text_less_total(a.drop_first(), b.drop_first());
        if a.drop_first() == b.drop_first() {
            assert(a =~= seq![a[0]] + a.drop_first());
            assert(b =~= seq![b[0]] + b.drop_first());
        }
    } else if a.len() == 0 && b.len() == 0 {
        assert(a =~= b);
    }
}

/// Whether `a` comes before `b` in the order of texts.
pub fn text_lt(a: &Vec<char>, b: &Vec<char>) -> (res: bool)
    ensures
        res == text_less(a@, b@),
{
    let mut i: usize = 0;
    assert(a@.skip(0) =~= a@);
    assert(b@.skip(0) =~= b@);
    while i < a.len() && i < b.len()
        invariant
            i <= a@.len(),
            i <= b@.len(),
            text_less(a@, b@) == text_less(a@.skip(i as int), b@.skip(i as int)),
        decreases a@.len() - i,
    {
        if a[i] != b[i] {
            return a[i] < b[i];
        }
        assert(a@.skip(i as int).drop_first() =~= a@.skip(i + 1));
        assert(b@.skip(i as int).drop_first() =~= b@.skip(i + 1));
        i = i + 1;
    }
    i < b.len()
}

} // verus!

verus! {

/// Whether `pat` occurs in `s`.
pub fn contains_str(s: &str, pat: &str) -> (res: bool)
    ensures
        res == occurs_in(pat@, s@),
{
    let pv = chars_of(pat);
    let sv = chars_of(s);
    occurs(&pv, &sv)
}

/// The first line of a text, as `str::lines` yields it: the characters before
/// the first line feed, without a carriage return just before it; the whole
/// text when it holds no line feed; nothing for an empty text.
pub open spec fn first_line(s: Seq<char>) -> Option<Seq<char>> {
    if s.len() == 0 {
        None
    } else if s.contains('\n') {
        let k = choose|k: int| 0 <= k < s.len() && s[k] == '\n' && forall|j: int| 0 <= j < k ==> s[j] != '\n';
        let l = s.take(k);
        Some(if l.len() > 0 && l.last() == '\r' { l.drop_last() } else { l })
    } else {
        Some(s)
    }
}

/// Returns the first line of `s`, if it has one.
pub fn first_line_of(s: &str) -> (res: Option<String>)
    ensures
        res matches Some(l) ==> first_line(s@) == Some(l@),
        res is None ==> first_line(s@) is None,
{
    let n = s.unicode_len();
    if n == 0 {
        return None;
    }
    let mut line = String::new();
    let mut i: usize = 0;
    while i < n
        invariant
            n == s@.len(),
            i <= n,
            line@ == s@.take(i as int),
            forall|j: int| 0 <= j < i ==> s@[j] != '\n',
        decreases n - i,
    {
        let c = s.get_char(i);
        if c == '\n' {
            assert(s@.contains('\n'));
            let ghost k = choose|k: int| 0 <= k < s@.len() && s@[k] == '\n' && forall|j: int| 0 <= j < k ==> s@[j] != '\n';
            assert(k == i as int) by {
                if k < i {
                } else if k > i {
                }
            }
            if i > 0 && s.get_char(i - 1) == '\r' {
                let _ = pop_char(&mut line);
                assert(line@ =~= s@.take(i as int).drop_last());
            }
            return Some(line);
        }
        push_char(&mut line, c);
        i = i + 1;
        assert(line@ =~= s@.take(i as int));
    }
    assert(!s@.contains('\n'));
    assert(line@ =~= s@);
    Some(line)
}

} // verus!

verus! {

// ---------------------------------------------------------------------------
// Unsigned decimal numbers, as `str::parse` reads them for unsigned integers:
// an optional `+`, then one or more ASCII digits, within the type's range.
// ---------------------------------------------------------------------------

/// Whether `c` is an ASCII decimal digit.
pub open spec fn is_digit(c: char) -> bool {
    '0' <= c && c <= '9'
}

/// The value of a run of decimal digits.
pub open spec fn digits_value(s: Seq<char>) -> nat
    decreases s.len(),
{
    if s.len() == 0 {
        0
    } else {
        digits_value(s.drop_last()) * 10 + ((s.last() as int - '0' as int) as nat)
    }
}

/// `s` without a leading `+`.
pub open spec fn sign_stripped(s: Seq<char>) -> Seq<char> {
    if s.len() > 0 && s[0] == '+' { s.drop_first() } else { s }
}

/// The digits of an unsigned number written as `s`, if `s` is one.
pub open spec fn unsigned_digits(s: Seq<char>) -> Option<Seq<char>> {
    let d = sign_stripped(s);
    if d.len() > 0 && forall|i: int| 0 <= i < d.len() ==> is_digit(#[trigger] d[i]) {
        Some(d)
    } else {
        None
    }
}

/// The number written as `s`, if it is one and does not exceed `max`.
pub open spec fn parsed_unsigned(s: Seq<char>, max: nat) -> Option<nat> {
    match unsigned_digits(s) {
        Some(d) => if digits_value(d) <= max { Some(digits_value(d)) } else { None },
        None => None,
    }
}

/// A longer run of digits is worth at least as much as its prefix.
proof fn lemma_digits_value_grows(s: Seq<char>, k: int)
    requires
        0 <= k <= s.len(),
        forall|i: int| 0 <= i < s.len() ==> is_digit(#[trigger] s[i]),
    ensures
        digits_value(s.take(k)) <= digits_value(s),
    decreases s.len(),
{
    if k < s.len() {
        let t = s.drop_last();
        assert(t.take(k) =~= s.take(k));
        lemma_digits_value_grows(t, k);
    } else {
        assert(s.take(k) =~= s);
    }
}

/// Reads an unsigned number not above `max` from `s`.
pub fn parse_unsigned(s: &str, max: u64) -> (res: Option<u64>)
    ensures
        res matches Some(v) ==> parsed_unsigned(s@, max as nat) == Some(v as nat),
        res is None ==> parsed_unsigned(s@, max as nat) is None,
{
    let n = s.unicode_len();
    let start: usize = if n > 0 && s.get_char(0) == '+' { 1 } else { 0 };
    let ghost d = sign_stripped(s@);
    assert(d =~= s@.subrange(start as int, n as int));
    if start >= n {
        return None;
    }
    let mut acc: u64 = 0;
    let mut i: usize = start;
    while i < n
        invariant
            n == s@.len(),
            start <= i <= n,
            start < n,
            d == s@.subrange(start as int, n as int),
            d == sign_stripped(s@),
            forall|j: int| 0 <= j < i - start ==> is_digit(#[trigger] d[j]),
            acc as nat == digits_value(d.take(i - start)),
            acc <= max,
        decreases n - i,
    {
        let c = s.get_char(i);
        assert(c == d[i - start]);
        if !('0' <= c && c <= '9') {
            assert(!is_digit(d[i - start]));
            assert(!(forall|j: int| 0 <= j < d.len() ==> is_digit(#[trigger] d[j])));
            assert(unsigned_digits(s@) is None);
            return None;
        }
        let dv: u64 = (c as u64) - 48;
        assert(d.take(i - start + 1).drop_last() =~= d.take(i - start));
        let next: Option<u64> = match acc.checked_mul(10) {
            Some(m) => m.checked_add(dv),
            None => None,
        };
        match next {
            Some(v) if v <= max => {
                acc = v;
            },
            _ => {
                proof {
                    let t = d.take(i - start + 1);
                    assert(t.last() == c);
                    assert(digits_value(t) == acc * 10 + dv);
                    assert(digits_value(t) > max);
                    if forall|j: int| 0 <= j < d.len() ==> is_digit(#[trigger] d[j]) {
                        lemma_digits_value_grows(d, i - start + 1);
                        assert(unsigned_digits(s@) == Some(d));
                    } else {
                        assert(unsigned_digits(s@) is None);
                    }
                }
                return None;
            },
        }
        i = i + 1;
    }
    assert(d.take(n - start) =~= d);
    Some(acc)
}

} // verus!

verus! {

/// Whether `c` has the Unicode `White_Space` property, as `char::is_whitespace`
/// tests it.
pub open spec fn is_white_space(c: char) -> bool {
    ||| ('\u{9}' <= c && c <= '\u{d}')
    ||| c == ' '
    ||| c == '\u{85}'
    ||| c == '\u{a0}'
    ||| c == '\u{1680}'
    ||| ('\u{2000}' <= c && c <= '\u{200a}')
    ||| c == '\u{2028}'
    ||| c == '\u{2029}'
    ||| c == '\u{202f}'
    ||| c == '\u{205f}'
    ||| c == '\u{3000}'
}

/// Whether `s` holds nothing but white space, so that trimming it leaves it empty.
pub open spec fn is_blank(s: Seq<char>) -> bool {
    forall|i: int| 0 <= i < s.len() ==> is_white_space(#[trigger] s[i])
}

/// Returns whether `c` is white space.
pub fn white_space(c: char) -> (res: bool)
    ensures
        res == is_white_space(c),
{
    ('\u{9}' <= c && c <= '\u{d}') || c == ' ' || c == '\u{85}' || c == '\u{a0}' || c == '\u{1680}'
        || ('\u{2000}' <= c && c <= '\u{200a}') || c == '\u{2028}' || c == '\u{2029}'
        || c == '\u{202f}' || c == '\u{205f}' || c == '\u{3000}'
}

/// Returns whether `s` holds nothing but white space.
pub fn blank(s: &str) -> (res: bool)
    ensures
        res == is_blank(s@),
{
    let n = s.unicode_len();
    let mut i: usize = 0;
    while i < n
        invariant
            n == s@.len(),
            i <= n,
            forall|j: int| 0 <= j < i ==> is_white_space(#[trigger] s@[j]),
        decreases n - i,
    {
        if !white_space(s.get_char(i)) {
            return false;
        }
        i = i + 1;
    }
    true
}

} // verus!

verus! {

// ---------------------------------------------------------------------------
// Searching and trimming text, as `str::find`, `str::trim` and
// `str::trim_end_matches` do (positions count characters).
// ---------------------------------------------------------------------------

/// The first position at or after `k` where `pat` occurs in `s`.
pub open spec fn occurrence_from(pat: Seq<char>, s: Seq<char>, k: int) -> Option<int>
    decreases s.len() + 1 - k,
{
    if k < 0 || k + pat.len() > s.len() {
        None
    } else if s.subrange(k, k + pat.len()) == pat {
        Some(k)
    } else {
        occurrence_from(pat, s, k + 1)
    }
}

/// The first position where `pat` occurs in `s`.
pub open spec fn first_occurrence(pat: Seq<char>, s: Seq<char>) -> Option<int> {
    occurrence_from(pat, s, 0)
}

/// Returns the first position where `pat` occurs in `s`.
pub fn find_str(s: &Vec<char>, pat: &Vec<char>) -> (res: Option<usize>)
    ensures
        res matches Some(k) ==> first_occurrence(pat@, s@) == Some(k as int) && k + pat@.len() <= s@.len(),
        res is None ==> first_occurrence(pat@, s@) is None,
{
    let mut k: usize = 0;
    while pat.len() <= s.len() && k <= s.len() - pat.len()
        invariant
            occurrence_from(pat@, s@, 0) == occurrence_from(pat@, s@, k as int),
        decreases s@.len() + 1 - k,
    {
        let mut j: usize = 0;
        let mut same = true;
        while j < pat.len()
            invariant
                k + pat@.len() <= s@.len(),
                s@.len() == s.len(),
                j <= pat@.len(),
                same == forall|m: int| 0 <= m < j ==> s@[k + m] == pat@[m],
            decreases pat@.len() - j,
        {
            if s[k + j] != pat[j] {
                same = false;
            }
            j = j + 1;
        }
        if same {
            assert(s@.subrange(k as int, k + pat@.len()) =~= pat@);
            return Some(k);
        }
        assert(s@.subrange(k as int, k + pat@.len()) != pat@) by {
            let m = choose|m: int| 0 <= m < pat@.len() && s@[k + m] != pat@[m];
            assert(s@.subrange(k as int, k + pat@.len())[m] != pat@[m]);
        }
        k = k + 1;
    }
    assert(occurrence_from(pat@, s@, k as int) is None);
    None
}

/// `s` without its leading white space.
pub open spec fn trim_start(s: Seq<char>) -> Seq<char>
    decreases s.len(),
{
    if s.len() > 0 && is_white_space(s[0]) { trim_start(s.drop_first()) } else { s }
}

/// `s` without its trailing white space.
pub open spec fn trim_end(s: Seq<char>) -> Seq<char>
    decreases s.len(),
{
    if s.len() > 0 && is_white_space(s.last()) { trim_end(s.drop_last()) } else { s }
}

/// `s` without leading and trailing white space.
pub open spec fn trimmed(s: Seq<char>) -> Seq<char> {
    trim_end(trim_start(s))
}

/// `s` without every trailing repetition of `pat`.
pub open spec fn strip_suffixes(s: Seq<char>, pat: Seq<char>) -> Seq<char>
    decreases s.len(),
{
    if pat.len() > 0 && pat.len() <= s.len() && s.skip(s.len() - pat.len()) == pat {
        strip_suffixes(s.take(s.len() - pat.len()), pat)
    } else {
        s
    }
}

/// A new string of the characters of `v` from `a` up to `b`.
pub fn string_from_chars(v: &Vec<char>, a: usize, b: usize) -> (res: String)
    requires
        a <= b <= v@.len(),
    ensures
        res@ == v@.subrange(a as int, b as int),
{
    let mut s = String::new();
    let mut i: usize = a;
    while i < b
        invariant
            a <= i <= b,
            b <= v@.len(),
            s@ == v@.subrange(a as int, i as int),
        decreases b - i,
    {
        push_char(&mut s, v[i]);
        i = i + 1;
        assert(s@ =~= v@.subrange(a as int, i as int));
    }
    s
}

/// The characters of `v` without leading and trailing white space.
pub fn trim_chars(v: &Vec<char>) -> (res: Vec<char>)
    ensures
        res@ == trimmed(v@),
{
    let mut a: usize = 0;
    assert(v@.skip(0) =~= v@);
    while a < v.len() && white_space(v[a])
        invariant
            a <= v@.len(),
            trim_start(v@) == trim_start(v@.skip(a as int)),
        decreases v@.len() - a,
    {
        assert(v@.skip(a as int).drop_first() =~= v@.skip(a + 1));
        a = a + 1;
    }
    let ghost st = v@.skip(a as int);
    assert(trim_start(v@) == st);
    let mut b: usize = v.len();
    while b > a && white_space(v[b - 1])
        invariant
            a <= b <= v@.len(),
            st == v@.skip(a as int),
            trim_end(st) == trim_end(v@.subrange(a as int, b as int)),
        decreases b - a,
    {
        assert(v@.subrange(a as int, b as int).drop_last() =~= v@.subrange(a as int, b - 1));
        b = b - 1;
    }
    assert(st =~= v@.subrange(a as int, v@.len() as int)) ;
    let mut res: Vec<char> = Vec::new();
    let mut i: usize = a;
    while i < b
        invariant
            a <= i <= b,
            b <= v@.len(),
            res@ == v@.subrange(a as int, i as int),
        decreases b - i,
    {
        res.push(v[i]);
        i = i + 1;
        assert(res@ =~= v@.subrange(a as int, i as int));
    }
    res
}

/// The characters of `v` without every trailing repetition of `pat`.
pub fn strip_suffixes_of(v: &Vec<char>, pat: &Vec<char>) -> (res: Vec<char>)
    ensures
        res@ == strip_suffixes(v@, pat@),
{
    let mut n: usize = v.len();
    assert(v@.take(n as int) =~= v@);
    while pat.len() > 0 && pat.len() <= n && ends_with_at(v, pat, n)
        invariant
            n <= v@.len(),
            strip_suffixes(v@, pat@) == strip_suffixes(v@.take(n as int), pat@),
        decreases n,
    {
        assert(v@.take(n as int).skip(n - pat@.len()) =~= v@.subrange(n - pat@.len(), n as int));
        assert(v@.take(n as int).take(n - pat@.len()) =~= v@.take(n - pat@.len()));
        n = n - pat.len();
    }
    proof {
        if pat@.len() > 0 && pat@.len() <= n {
            assert(v@.take(n as int).skip(n - pat@.len()) =~= v@.subrange(n - pat@.len(), n as int));
        }
        assert(v@.take(n as int).take(n as int) =~= v@.take(n as int));
    }
    let mut res: Vec<char> = Vec::new();
    let mut i: usize = 0;
    while i < n
        invariant
            i <= n <= v@.len(),
            res@ == v@.take(i as int),
        decreases n - i,
    {
        res.push(v[i]);
        i = i + 1;
        assert(res@ =~= v@.take(i as int));
    }
    res
}

/// Whether `pat` occurs in `v` just before position `n`.
fn ends_with_at(v: &Vec<char>, pat: &Vec<char>, n: usize) -> (res: bool)
    requires
        pat@.len() <= n <= v@.len(),
    ensures
        res == (v@.subrange(n - pat@.len(), n as int) == pat@),
{
    let start = n - pat.len();
    let mut j: usize = 0;
    while j < pat.len()
        invariant
            start + pat@.len() == n,
            n <= v@.len(),
            j <= pat@.len(),
            forall|m: int| 0 <= m < j ==> v@[start + m] == pat@[m],
        decreases pat@.len() - j,
    {
        if v[start + j] != pat[j] {
            assert(v@.subrange(start as int, n as int)[j as int] != pat@[j as int]);
            return false;
        }
        j = j + 1;
    }
    assert(v@.subrange(start as int, n as int) =~= pat@);
    true
}

} // verus!
