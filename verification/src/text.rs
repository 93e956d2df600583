//! Text in fields: splitting at a separator, trimming, decimal numbers.
//!
//! Positions and lengths count characters, not bytes. Reaching a character by its
//! position walks the text from its start, so the functions here are meant for short
//! texts: a setting, a line of data.

use vstd::prelude::*;

verus! {

/// The characters with the Unicode property `White_Space`.
pub open spec fn is_whitespace(c: char) -> bool {
    let u = c as u32;
    ||| 0x09 <= u <= 0x0D
    ||| u == 0x20
    ||| u == 0x85
    ||| u == 0xA0
    ||| u == 0x1680
    ||| 0x2000 <= u <= 0x200A
    ||| u == 0x2028
    ||| u == 0x2029
    ||| u == 0x202F
    ||| u == 0x205F
    ||| u == 0x3000
}

/// The ASCII digits.
pub open spec fn is_digit(c: char) -> bool {
    0x30 <= c as u32 <= 0x39
}

/// What is taken off the ends of a field.
#[derive(Clone, Copy, Debug, PartialEq, Eq, Structural)]
pub enum Trim {
    /// Whitespace.
    Whitespace,
    /// Everything but ASCII digits.
    NonDigits,
}

impl Trim {
    /// Whether `c` is a character that is taken off.
    pub open spec fn takes(self, c: char) -> bool {
        match self {
            Trim::Whitespace => is_whitespace(c),
            Trim::NonDigits => !is_digit(c),
        }
    }

    /// Whether `c` is a character that is taken off.
    pub fn takes_char(&self, c: char) -> (r: bool)
        ensures
            r == self.takes(c),
    {
        let u = c as u32;
        match self {
            Trim::Whitespace => (0x09 <= u && u <= 0x0D) || u == 0x20 || u == 0x85 || u == 0xA0 || u
                == 0x1680 || (0x2000 <= u && u <= 0x200A) || u == 0x2028 || u == 0x2029 || u
                == 0x202F || u == 0x205F || u == 0x3000,
            Trim::NonDigits => u < 0x30 || u > 0x39,
        }
    }
}

/// `s` without the characters of the kind `trim` that it starts with.
pub open spec fn trim_start(s: Seq<char>, trim: Trim) -> Seq<char>
    decreases s.len(),
{
    if s.len() > 0 && trim.takes(s[0]) {
        trim_start(s.drop_first(), trim)
    } else {
        s
    }
}

/// `s` without the characters of the kind `trim` that it ends with.
pub open spec fn trim_end(s: Seq<char>, trim: Trim) -> Seq<char>
    decreases s.len(),
{
    if s.len() > 0 && trim.takes(s.last()) {
        trim_end(s.drop_last(), trim)
    } else {
        s
    }
}

/// `s` without the characters of the kind `trim` at either end.
pub open spec fn trimmed(s: Seq<char>, trim: Trim) -> Seq<char> {
    trim_end(trim_start(s, trim), trim)
}

/// Whether `s` is made of ASCII digits only.
pub open spec fn all_digits(s: Seq<char>) -> bool {
    forall|i: int| 0 <= i < s.len() ==> is_digit(#[trigger] s[i])
}

/// The number that a string of ASCII digits is the decimal form of.
pub open spec fn decimal_value(s: Seq<char>) -> int
    decreases s.len(),
{
    if s.len() == 0 {
        0
    } else {
        10 * decimal_value(s.drop_last()) + (s.last() as u32 - 0x30)
    }
}

/// `s` without a leading plus sign.
pub open spec fn without_plus(s: Seq<char>) -> Seq<char> {
    if s.len() > 0 && s[0] == '+' {
        s.drop_first()
    } else {
        s
    }
}

/// The number up to `max` that `s` is the decimal form of: an optional plus sign, then
/// at least one ASCII digit. Leading zeros are allowed.
pub open spec fn parse_decimal(s: Seq<char>, max: int) -> Option<int> {
    let digits = without_plus(s);
    if digits.len() > 0 && all_digits(digits) && decimal_value(digits) <= max {
        Some(decimal_value(digits))
    } else {
        None
    }
}

/// The number of characters from `start` up to the next `separator` or the end of `s`.
pub open spec fn run_len(s: Seq<char>, separator: char, start: int) -> nat
    decreases s.len() - start,
{
    if start < 0 || start >= s.len() || s[start] == separator {
        0
    } else {
        1 + run_len(s, separator, start + 1)
    }
}

/// The end of the field that starts at `start`: the position of the next `separator`,
/// or the length of `s` where there is none.
pub open spec fn field_end(s: Seq<char>, separator: char, start: int) -> int {
    start + run_len(s, separator, start)
}

/// Finds the end of the field that starts at `start`.
pub(crate) fn find_field_end(s: &str, separator: char, start: usize) -> (end: usize)
    requires
        start <= s@.len(),
    ensures
        end == field_end(s@, separator, start as int),
        start <= end <= s@.len(),
        end < s@.len() ==> s@[end as int] == separator,
{
    let n = s.unicode_len();
    let mut end = start;
    while end < n
        invariant
            start <= end <= n,
            n == s@.len(),
            run_len(s@, separator, start as int) == (end - start) + run_len(
                s@,
                separator,
                end as int,
            ),
        ensures
            start <= end <= n,
            run_len(s@, separator, start as int) == end - start,
            end < n ==> s@[end as int] == separator,
        decreases n - end,
    {
        if s.get_char(end) == separator {
            break;
        }
        end += 1;
    }
    end
}

/// Finds what is left of the stretch from `start` up to `end` when the characters of
/// the kind `trim` are taken off its ends.
pub(crate) fn trim_range(s: &str, start: usize, end: usize, trim: Trim) -> (r: (usize, usize))
    requires
        start <= end <= s@.len(),
    ensures
        start <= r.0 <= r.1 <= end,
        s@.subrange(r.0 as int, r.1 as int) == trimmed(
            s@.subrange(start as int, end as int),
            trim,
        ),
{
    let mut a = start;
    while a < end
        invariant
            start <= a <= end <= s@.len(),
            trim_start(s@.subrange(start as int, end as int), trim) == trim_start(
                s@.subrange(a as int, end as int),
                trim,
            ),
        ensures
            start <= a <= end,
            trim_start(s@.subrange(start as int, end as int), trim) == s@.subrange(
                a as int,
                end as int,
            ),
        decreases end - a,
    {
        if !trim.takes_char(s.get_char(a)) {
            break;
        }
        assert(s@.subrange(a as int, end as int).drop_first() =~= s@.subrange(
            a as int + 1,
            end as int,
        ));
        a += 1;
    }
    let mut b = end;
    while a < b
        invariant
            a <= b <= end <= s@.len(),
            trim_end(s@.subrange(a as int, end as int), trim) == trim_end(
                s@.subrange(a as int, b as int),
                trim,
            ),
        ensures
            a <= b <= end,
            trim_end(s@.subrange(a as int, end as int), trim) == s@.subrange(a as int, b as int),
        decreases b - a,
    {
        if !trim.takes_char(s.get_char(b - 1)) {
            break;
        }
        assert(s@.subrange(a as int, b as int).drop_last() =~= s@.subrange(
            a as int,
            b as int - 1,
        ));
        b -= 1;
    }
    (a, b)
}

/// Reads the stretch from `start` up to `end` as a decimal number of at most `max`.
pub(crate) fn parse_decimal_range(s: &str, start: usize, end: usize, max: u32) -> (r: Option<u32>)
    requires
        start <= end <= s@.len(),
        max < 0x1000_0000,
    ensures
        r is Some <==> parse_decimal(s@.subrange(start as int, end as int), max as int) is Some,
        r is Some ==> r->0 == parse_decimal(s@.subrange(start as int, end as int), max as int)->0,
{
    let ghost field = s@.subrange(start as int, end as int);
    if start == end {
        return None;
    }
    let mut i = start;
    if s.get_char(start) == '+' {
        i = start + 1;
    }
    let ghost digits = s@.subrange(i as int, end as int);
    assert(digits =~= without_plus(field));
    if i == end {
        return None;
    }
    let mut value: u32 = 0;
    let mut k = i;
    while k < end
        invariant
            i <= k <= end <= s@.len(),
            max < 0x1000_0000,
            digits == s@.subrange(i as int, end as int),
            digits == without_plus(s@.subrange(start as int, end as int)),
            all_digits(s@.subrange(i as int, k as int)),
            0 <= decimal_value(s@.subrange(i as int, k as int)),
            value <= max + 1,
            value == if decimal_value(s@.subrange(i as int, k as int)) <= max {
                decimal_value(s@.subrange(i as int, k as int))
            } else {
                max + 1
            },
        decreases end - k,
    {
        let u = s.get_char(k) as u32;
        if u < 0x30 || u > 0x39 {
            assert(!is_digit(digits[k - i]));
            return None;
        }
        proof {
            let longer = s@.subrange(i as int, k as int + 1);
            assert(longer.drop_last() =~= s@.subrange(i as int, k as int));
            assert(longer.last() == s@[k as int]);
        }
        let next: u32 = value * 10 + (u - 0x30);
        value = if next > max {
            max + 1
        } else {
            next
        };
        k += 1;
    }
    assert(s@.subrange(i as int, k as int) == digits);
    if value > max {
        None
    } else {
        Some(value)
    }
}

} // verus!
