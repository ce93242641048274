//! Text as sequences of characters: trimming, lines, search, decimal numbers.
//!
//! The specifications are recursive functions on `Seq<char>`. The executable
//! functions work on a vector of characters and a pair of bounds, so that a
//! caller can cut one text into lines and fields without copying.

use vstd::prelude::*;

verus! {

/// Whether `c` is white space in the sense of Unicode's `White_Space`
/// property, by which strings are trimmed.
pub open spec fn spec_is_whitespace(c: char) -> bool {
    let u = c as u32;
    ||| 0x09 <= u <= 0x0D
    ||| u == 0x20
    ||| u == 0x85
    ||| u == 0xA0
    ||| u == 0x1680
    ||| 0x2000 <= u <= 0x200A
    ||| u == 0x2028
    ||| u == 0x2029
    ||| u == 0x202F
    ||| u == 0x205F
    ||| u == 0x3000
}

/// `s` without its leading white space.
pub open spec fn spec_trim_start(s: Seq<char>) -> Seq<char>
    decreases s.len(),
{
    if s.len() > 0 && spec_is_whitespace(s[0]) {
        spec_trim_start(s.drop_first())
    } else {
        s
    }
}

/// `s` without its trailing white space.
pub open spec fn spec_trim_end(s: Seq<char>) -> Seq<char>
    decreases s.len(),
{
    if s.len() > 0 && spec_is_whitespace(s.last()) {
        spec_trim_end(s.drop_last())
    } else {
        s
    }
}

/// `s` without leading and trailing white space.
pub open spec fn spec_trim(s: Seq<char>) -> Seq<char> {
    spec_trim_end(spec_trim_start(s))
}

/// The index of the first `c` in `s`, or the length of `s` if there is none.
pub open spec fn spec_first_index(s: Seq<char>, c: char) -> int
    decreases s.len(),
{
    if s.len() == 0 || s[0] == c {
        0
    } else {
        1 + spec_first_index(s.drop_first(), c)
    }
}

/// A line without the carriage return that may end it.
pub open spec fn spec_strip_cr(line: Seq<char>) -> Seq<char> {
    if line.len() > 0 && line.last() == '\r' {
        line.drop_last()
    } else {
        line
    }
}

/// The lines of `s`. A line ends at a line feed, which is dropped together
/// with a carriage return directly before it. What follows the last line feed
/// is a line of its own unless it is empty, and is kept as it stands.
pub open spec fn spec_lines(s: Seq<char>) -> Seq<Seq<char>>
    decreases s.len(),
{
    if s.len() == 0 {
        Seq::empty()
    } else {
        let n = spec_first_index(s, '\n');
        if 0 <= n < s.len() {
            seq![spec_strip_cr(s.subrange(0, n))] + spec_lines(s.subrange(n + 1, s.len() as int))
        } else {
            seq![s]
        }
    }
}

/// Whether `needle` stands in `hay` at index `i`.
pub open spec fn spec_occurs_at(hay: Seq<char>, needle: Seq<char>, i: int) -> bool {
    &&& 0 <= i
    &&& i + needle.len() <= hay.len()
    &&& hay.subrange(i, i + needle.len()) == needle
}

/// Whether `needle` stands somewhere in `hay`.
pub open spec fn spec_contains(hay: Seq<char>, needle: Seq<char>) -> bool {
    exists|i: int| spec_occurs_at(hay, needle, i)
}

/// Whether `s` begins with `prefix`.
pub open spec fn spec_starts_with(s: Seq<char>, prefix: Seq<char>) -> bool {
    spec_occurs_at(s, prefix, 0)
}

/// Whether `c` is one of the ten decimal digits.
pub open spec fn spec_is_digit(c: char) -> bool {
    '0' <= c <= '9'
}

/// Whether `s` holds decimal digits only.
pub open spec fn spec_all_digits(s: Seq<char>) -> bool {
    forall|i: int| 0 <= i < s.len() ==> spec_is_digit(#[trigger] s[i])
}

/// The number that the decimal digits `s` write; 0 for the empty sequence.
pub open spec fn spec_decimal_value(s: Seq<char>) -> nat
    decreases s.len(),
{
    if s.len() == 0 {
        0
    } else {
        (10 * spec_decimal_value(s.drop_last()) + (s.last() as int - '0' as int)) as nat
    }
}

/// What `s` means as an unsigned decimal number of at most `max`: one or more
/// digits whose value does not exceed `max`. Leading zeros are accepted.
pub open spec fn spec_parse_digits(s: Seq<char>, max: nat) -> Option<nat> {
    if s.len() > 0 && spec_all_digits(s) && spec_decimal_value(s) <= max {
        Some(spec_decimal_value(s))
    } else {
        None
    }
}

/// `s` without one leading plus sign.
pub open spec fn spec_strip_plus(s: Seq<char>) -> Seq<char> {
    if s.len() > 0 && s[0] == '+' {
        s.drop_first()
    } else {
        s
    }
}

/// The character that writes the digit `d`.
pub open spec fn spec_digit_char(d: nat) -> char
    recommends
        d < 10,
{
    ('0' as u8 + d) as char
}

/// `n` in decimal, without leading zeros.
pub open spec fn spec_decimal(n: nat) -> Seq<char>
    decreases n,
{
    if n < 10 {
        seq![spec_digit_char(n)]
    } else {
        spec_decimal(n / 10).push(spec_digit_char(n % 10))
    }
}

/// The integer `n` in decimal, with a minus sign where it is negative.
pub open spec fn spec_signed_decimal(n: int) -> Seq<char> {
    if n < 0 {
        seq!['-'] + spec_decimal((-n) as nat)
    } else {
        spec_decimal(n as nat)
    }
}

/// Leading white space ends at `a`: then trimming the start cuts at `a`.
proof fn lemma_trim_start_at(s: Seq<char>, a: int)
    requires
        0 <= a <= s.len(),
        forall|j: int| 0 <= j < a ==> spec_is_whitespace(#[trigger] s[j]),
        a == s.len() || !spec_is_whitespace(s[a]),
    ensures
        spec_trim_start(s) == s.subrange(a, s.len() as int),
    decreases a,
{
    if a == 0 {
        assert(s.subrange(0, s.len() as int) =~= s);
    } else {
        let t = s.drop_first();
        assert forall|j: int| 0 <= j < a - 1 implies spec_is_whitespace(#[trigger] t[j]) by {
            assert(t[j] == s[j + 1]);
        }
        lemma_trim_start_at(t, a - 1);
        assert(t.subrange(a - 1, t.len() as int) =~= s.subrange(a, s.len() as int));
    }
}

/// Trailing white space begins at `b`: then trimming the end cuts at `b`.
proof fn lemma_trim_end_at(s: Seq<char>, b: int)
    requires
        0 <= b <= s.len(),
        forall|j: int| b <= j < s.len() ==> spec_is_whitespace(#[trigger] s[j]),
        b == 0 || !spec_is_whitespace(s[b - 1]),
    ensures
        spec_trim_end(s) == s.subrange(0, b),
    decreases s.len() - b,
{
    if b == s.len() {
        assert(s.subrange(0, b) =~= s);
    } else {
        let t = s.drop_last();
        assert forall|j: int| b <= j < t.len() implies spec_is_whitespace(#[trigger] t[j]) by {
            assert(t[j] == s[j]);
        }
        lemma_trim_end_at(t, b);
        assert(t.subrange(0, b) =~= s.subrange(0, b));
    }
}

/// No `c` stands before `n`, and one stands at `n` unless `n` is the length:
/// then `n` is the first index of `c`.
proof fn lemma_first_index_at(s: Seq<char>, c: char, n: int)
    requires
        0 <= n <= s.len(),
        forall|j: int| 0 <= j < n ==> #[trigger] s[j] != c,
        n == s.len() || s[n] == c,
    ensures
        spec_first_index(s, c) == n,
    decreases n,
{
    if n > 0 {
        let t = s.drop_first();
        assert forall|j: int| 0 <= j < n - 1 implies #[trigger] t[j] != c by {
            assert(t[j] == s[j + 1]);
        }
        lemma_first_index_at(t, c, n - 1);
    }
}

/// The value of a sequence of digits is at least the value of each of its
/// beginnings.
proof fn lemma_decimal_value_grows(s: Seq<char>, i: int)
    requires
        0 <= i <= s.len(),
        spec_all_digits(s),
    ensures
        spec_decimal_value(s.subrange(0, i)) <= spec_decimal_value(s),
    decreases s.len() - i,
{
    if i == s.len() {
        assert(s.subrange(0, i) =~= s);
    } else {
        let t = s.drop_last();
        assert(spec_all_digits(t)) by {
            assert forall|j: int| 0 <= j < t.len() implies spec_is_digit(#[trigger] t[j]) by {
                assert(t[j] == s[j]);
            }
        }
        lemma_decimal_value_grows(t, i);
        assert(t.subrange(0, i) =~= s.subrange(0, i));
        assert(spec_is_digit(s[s.len() - 1]));
    }
}

/// The characters of `s`, in a vector.
pub fn to_chars(s: &str) -> (chars: Vec<char>)
    ensures
        chars@ == s@,
{
    let mut chars: Vec<char> = Vec::new();
    for c in it: s.chars()
        invariant
            chars@ == it.seq().take(it.index()),
            it.seq() == s@,
    {
        chars.push(c);
    }
    chars
}

/// Whether `c` is white space.
pub fn is_whitespace(c: char) -> (yes: bool)
    ensures
        yes == spec_is_whitespace(c),
{
    let u: u32 = c as u32;
    (0x09 <= u && u <= 0x0D) || u == 0x20 || u == 0x85 || u == 0xA0 || u == 0x1680 || (0x2000 <= u
        && u <= 0x200A) || u == 0x2028 || u == 0x2029 || u == 0x202F || u == 0x205F || u == 0x3000
}

/// The bounds of `chars[lo..hi]` trimmed.
pub(crate) fn trim_bounds(chars: &Vec<char>, lo: usize, hi: usize) -> (bounds: (usize, usize))
    requires
        lo <= hi <= chars.len(),
    ensures
        lo <= bounds.0 <= bounds.1 <= hi,
        chars@.subrange(bounds.0 as int, bounds.1 as int) == spec_trim(
            chars@.subrange(lo as int, hi as int),
        ),
{
    let mut a: usize = lo;
    while a < hi && is_whitespace(chars[a])
        invariant
            lo <= a <= hi <= chars.len(),
            forall|j: int| lo <= j < a ==> spec_is_whitespace(#[trigger] chars@[j]),
        decreases hi - a,
    {
        a += 1;
    }
    let mut b: usize = hi;
    while b > a && is_whitespace(chars[b - 1])
        invariant
            a <= b <= hi <= chars.len(),
            forall|j: int| b <= j < hi ==> spec_is_whitespace(#[trigger] chars@[j]),
        decreases b - a,
    {
        b -= 1;
    }
    proof {
        let whole = chars@.subrange(lo as int, hi as int);
        assert forall|j: int| 0 <= j < a - lo implies spec_is_whitespace(#[trigger] whole[j]) by {
            assert(whole[j] == chars@[lo + j]);
        }
        lemma_trim_start_at(whole, a - lo);
        let tail = chars@.subrange(a as int, hi as int);
        assert(whole.subrange(a - lo, whole.len() as int) =~= tail);
        assert forall|j: int| b - a <= j < tail.len() implies spec_is_whitespace(
            #[trigger] tail[j],
        ) by {
            assert(tail[j] == chars@[a + j]);
        }
        lemma_trim_end_at(tail, b - a);
        assert(tail.subrange(0, b - a) =~= chars@.subrange(a as int, b as int));
    }
    (a, b)
}

/// The index of the first `c` in `chars[lo..hi]`, or `hi` if there is none.
pub(crate) fn find_char(chars: &Vec<char>, lo: usize, hi: usize, c: char) -> (at: usize)
    requires
        lo <= hi <= chars.len(),
    ensures
        lo <= at <= hi,
        at - lo == spec_first_index(chars@.subrange(lo as int, hi as int), c),
        forall|j: int| lo <= j < at ==> #[trigger] chars@[j] != c,
        at < hi ==> chars@[at as int] == c,
{
    let mut at: usize = lo;
    while at < hi && chars[at] != c
        invariant
            lo <= at <= hi <= chars.len(),
            forall|j: int| lo <= j < at ==> #[trigger] chars@[j] != c,
        decreases hi - at,
    {
        at += 1;
    }
    proof {
        let part = chars@.subrange(lo as int, hi as int);
        assert forall|j: int| 0 <= j < at - lo implies #[trigger] part[j] != c by {
            assert(part[j] == chars@[lo + j]);
        }
        lemma_first_index_at(part, c, at - lo);
    }
    at
}

/// The lines that a list of bounds cuts out of `chars`.
pub open spec fn spec_cut(chars: Seq<char>, bounds: Seq<(usize, usize)>) -> Seq<Seq<char>> {
    Seq::new(bounds.len(), |i: int| chars.subrange(bounds[i].0 as int, bounds[i].1 as int))
}

/// The bounds of the lines of `chars`.
pub(crate) fn line_bounds(chars: &Vec<char>) -> (bounds: Vec<(usize, usize)>)
    ensures
        spec_cut(chars@, bounds@) == spec_lines(chars@),
        forall|i: int|
            0 <= i < bounds.len() ==> (#[trigger] bounds@[i]).0 <= bounds@[i].1 <= chars.len(),
{
    let n = chars.len();
    let mut bounds: Vec<(usize, usize)> = Vec::new();
    let mut start: usize = 0;
    proof {
        assert(chars@.subrange(0, n as int) =~= chars@);
        assert(spec_cut(chars@, bounds@) + spec_lines(chars@) =~= spec_lines(chars@));
    }
    while start < n
        invariant
            start <= n,
            n == chars.len(),
            spec_lines(chars@) == spec_cut(chars@, bounds@) + spec_lines(
                chars@.subrange(start as int, n as int),
            ),
            forall|i: int|
                0 <= i < bounds.len() ==> (#[trigger] bounds@[i]).0 <= bounds@[i].1 <= chars.len(),
        decreases n - start,
    {
        let ghost before = bounds@;
        let ghost rest = chars@.subrange(start as int, n as int);
        let feed = find_char(chars, start, n, '\n');
        if feed < n {
            let end = if feed > start && chars[feed - 1] == '\r' {
                feed - 1
            } else {
                feed
            };
            bounds.push((start, end));
            proof {
                let line = rest.subrange(0, feed - start);
                assert(line =~= chars@.subrange(start as int, feed as int));
                assert(spec_strip_cr(line) =~= chars@.subrange(start as int, end as int));
                assert(rest.subrange(feed - start + 1, rest.len() as int) =~= chars@.subrange(
                    feed + 1,
                    n as int,
                ));
                assert(spec_cut(chars@, bounds@) =~= spec_cut(chars@, before) + seq![
                    spec_strip_cr(line),
                ]);
                assert(spec_lines(chars@) =~= spec_cut(chars@, bounds@) + spec_lines(
                    chars@.subrange(feed + 1, n as int),
                ));
            }
            start = feed + 1;
        } else {
            bounds.push((start, n));
            proof {
                assert(spec_lines(rest) =~= seq![rest]);
                assert(spec_cut(chars@, bounds@) =~= spec_cut(chars@, before) + seq![rest]);
                assert(chars@.subrange(n as int, n as int) =~= Seq::<char>::empty());
                assert(spec_lines(chars@) =~= spec_cut(chars@, bounds@) + spec_lines(
                    chars@.subrange(n as int, n as int),
                ));
            }
            start = n;
        }
    }
    proof {
        assert(chars@.subrange(n as int, n as int) =~= Seq::<char>::empty());
        assert(spec_lines(chars@) =~= spec_cut(chars@, bounds@));
    }
    bounds
}

/// Whether `needle` stands in `hay[lo..hi]` at index `at` of `hay`.
pub(crate) fn occurs_at(hay: &Vec<char>, lo: usize, hi: usize, needle: &Vec<char>, at: usize) -> (yes:
    bool)
    requires
        lo <= at <= hi <= hay.len(),
    ensures
        yes == spec_occurs_at(hay@.subrange(lo as int, hi as int), needle@, at - lo),
{
    let m = needle.len();
    if m > hi - at {
        return false;
    }
    let mut j: usize = 0;
    while j < m && hay[at + j] == needle[j]
        invariant
            j <= m,
            m == needle.len(),
            at + m <= hi <= hay.len(),
            forall|t: int| 0 <= t < j ==> hay@[at + t] == #[trigger] needle@[t],
        decreases m - j,
    {
        j += 1;
    }
    proof {
        let part = hay@.subrange(lo as int, hi as int).subrange(at - lo, at - lo + m);
        if j == m {
            assert(part =~= needle@);
        } else {
            assert(part[j as int] == hay@[at + j]);
        }
    }
    j == m
}

/// Whether `needle` stands somewhere in `hay[lo..hi]`.
pub(crate) fn occurs(hay: &Vec<char>, lo: usize, hi: usize, needle: &Vec<char>) -> (yes: bool)
    requires
        lo <= hi <= hay.len(),
    ensures
        yes == spec_contains(hay@.subrange(lo as int, hi as int), needle@),
{
    let ghost part = hay@.subrange(lo as int, hi as int);
    let mut at: usize = lo;
    while at <= hi
        invariant
            lo <= at <= hi + 1,
            hi <= hay.len(),
            part == hay@.subrange(lo as int, hi as int),
            forall|k: int| 0 <= k < at - lo ==> !spec_occurs_at(part, needle@, k),
        decreases hi + 1 - at,
    {
        if occurs_at(hay, lo, hi, needle, at) {
            assert(spec_occurs_at(part, needle@, at - lo));
            return true;
        }
        if at == hi {
            assert forall|k: int| !spec_occurs_at(part, needle@, k) by {
                if 0 <= k <= hi - lo {
                    assert(k < at - lo || k == at - lo);
                }
            }
            return false;
        }
        at += 1;
    }
    false
}

/// The value of `c` as a decimal digit, if it is one.
pub fn digit_value(c: char) -> (value: Option<u8>)
    ensures
        spec_is_digit(c) ==> value == Some((c as int - '0' as int) as u8),
        !spec_is_digit(c) ==> value is None,
{
    let u: u32 = c as u32;
    if 48 <= u && u <= 57 {
        Some((u - 48) as u8)
    } else {
        None
    }
}

/// The value of the digits `chars[lo..hi]`, where they are one or more
/// digits that write a number of at most `max`.
pub(crate) fn parse_digits(chars: &Vec<char>, lo: usize, hi: usize, max: u32) -> (value: Option<u32>)
    requires
        lo <= hi <= chars.len(),
    ensures
        match spec_parse_digits(chars@.subrange(lo as int, hi as int), max as nat) {
            Some(n) => value == Some(n as u32),
            None => value is None,
        },
{
    let ghost digits = chars@.subrange(lo as int, hi as int);
    if lo == hi {
        return None;
    }
    let mut acc: u64 = 0;
    let mut i: usize = lo;
    while i < hi
        invariant
            lo <= i <= hi <= chars.len(),
            digits == chars@.subrange(lo as int, hi as int),
            acc <= max,
            acc == spec_decimal_value(digits.subrange(0, i - lo)),
            spec_all_digits(digits.subrange(0, i - lo)),
        decreases hi - i,
    {
        let c = chars[i];
        let ghost shorter = digits.subrange(0, i - lo);
        let ghost longer = digits.subrange(0, i - lo + 1);
        proof {
            assert(longer.drop_last() =~= shorter);
            assert(longer.last() == digits[i - lo]);
            assert(digits[i - lo] == c);
        }
        match digit_value(c) {
            None => {
                return None;
            },
            Some(d) => {
                acc = acc * 10 + d as u64;
            },
        }
        proof {
            assert(spec_all_digits(longer)) by {
                assert forall|j: int| 0 <= j < longer.len() implies spec_is_digit(
                    #[trigger] longer[j],
                ) by {
                    if j < shorter.len() {
                        assert(longer[j] == shorter[j]);
                    }
                }
            }
        }
        if acc > max as u64 {
            proof {
                if spec_all_digits(digits) {
                    lemma_decimal_value_grows(digits, i - lo + 1);
                }
            }
            return None;
        }
        i += 1;
    }
    proof {
        assert(digits.subrange(0, hi - lo) =~= digits);
    }
    Some(acc as u32)
}

/// The string of one digit.
pub(crate) fn digit_str(d: u8) -> (s: &'static str)
    requires
        d < 10,
    ensures
        s@ == seq![spec_digit_char(d as nat)],
{
    proof {
        reveal_strlit("0");
        reveal_strlit("1");
        reveal_strlit("2");
        reveal_strlit("3");
        reveal_strlit("4");
        reveal_strlit("5");
        reveal_strlit("6");
        reveal_strlit("7");
        reveal_strlit("8");
        reveal_strlit("9");
    }
    let s = match d {
        0 => "0",
        1 => "1",
        2 => "2",
        3 => "3",
        4 => "4",
        5 => "5",
        6 => "6",
        7 => "7",
        8 => "8",
        _ => "9",
    };
    assert(s@ =~= seq![spec_digit_char(d as nat)]);
    s
}

/// Appends `n` in decimal to `out`.
pub fn push_decimal(out: &mut String, n: u64)
    ensures
        final(out)@ == old(out)@ + spec_decimal(n as nat),
    decreases n,
{
    if n >= 10 {
        push_decimal(out, n / 10);
    }
    out.append(digit_str((n % 10) as u8));
    proof {
        if n >= 10 {
            assert(old(out)@ + spec_decimal((n / 10) as nat) + seq![
                spec_digit_char((n % 10) as nat),
            ] =~= old(out)@ + spec_decimal(n as nat));
        }
    }
}

/// Appends the integer `n` in decimal to `out`.
pub fn push_signed_decimal(out: &mut String, n: i64)
    ensures
        final(out)@ == old(out)@ + spec_signed_decimal(n as int),
{
    if n < 0 {
        proof {
            reveal_strlit("-");
        }
        out.append("-");
        let magnitude: u64 = if n == i64::MIN {
            9223372036854775808
        } else {
            (-n) as u64
        };
        push_decimal(out, magnitude);
        assert(old(out)@ + "-"@ + spec_decimal(magnitude as nat) =~= old(out)@
            + spec_signed_decimal(n as int));
    } else {
        push_decimal(out, n as u64);
    }
}

/// `s` without leading and trailing white space.
pub fn trim(s: &str) -> (trimmed: String)
    ensures
        trimmed@ == spec_trim(s@),
{
    let chars = to_chars(s);
    let (a, b) = trim_bounds(&chars, 0, chars.len());
    assert(chars@.subrange(0, chars.len() as int) =~= chars@);
    String::from_str(s.substring_char(a, b))
}

/// The lines of `s`.
pub fn lines(s: &str) -> (out: Vec<String>)
    ensures
        out.deep_view() == spec_lines(s@),
{
    let chars = to_chars(s);
    let bounds = line_bounds(&chars);
    let mut out: Vec<String> = Vec::new();
    let mut i: usize = 0;
    while i < bounds.len()
        invariant
            i <= bounds.len(),
            chars@ == s@,
            out.len() == i,
            forall|k: int|
                0 <= k < bounds.len() ==> (#[trigger] bounds@[k]).0 <= bounds@[k].1 <= chars.len(),
            forall|k: int| 0 <= k < i ==> (#[trigger] out@[k])@ == spec_cut(chars@, bounds@)[k],
        decreases bounds.len() - i,
    {
        let (a, b) = bounds[i];
        out.push(String::from_str(s.substring_char(a, b)));
        i += 1;
    }
    assert(out.deep_view() =~= spec_cut(chars@, bounds@));
    out
}

/// Whether `needle` stands somewhere in `hay`.
pub fn contains(hay: &str, needle: &str) -> (yes: bool)
    ensures
        yes == spec_contains(hay@, needle@),
{
    let h = to_chars(hay);
    let n = to_chars(needle);
    assert(h@.subrange(0, h.len() as int) =~= h@);
    occurs(&h, 0, h.len(), &n)
}

/// Whether `a` and `b` are the same text.
pub fn equal(a: &str, b: &str) -> (yes: bool)
    ensures
        yes == (a@ == b@),
{
    let left = to_chars(a);
    let right = to_chars(b);
    if left.len() != right.len() {
        return false;
    }
    assert(left@.subrange(0, left.len() as int) =~= left@);
    occurs_at(&left, 0, left.len(), &right, 0)
}

/// Whether `s` begins with `prefix`.
pub fn starts_with(s: &str, prefix: &str) -> (yes: bool)
    ensures
        yes == spec_starts_with(s@, prefix@),
{
    let h = to_chars(s);
    let p = to_chars(prefix);
    assert(h@.subrange(0, h.len() as int) =~= h@);
    occurs_at(&h, 0, h.len(), &p, 0)
}

} // verus!
