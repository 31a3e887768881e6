//! Decimal digits and the numbers that they stand for.

use vstd::prelude::*;
use crate::text::chars_of;

verus! {

pub open spec fn is_digit(c: char) -> bool {
    '0' <= c && c <= '9'
}

/// The number that the decimal digit `c` stands for.
pub open spec fn digit_value(c: char) -> int {
    c as int - '0' as int
}

/// The decimal digit for `d`, where `0 <= d <= 9`.
pub open spec fn digit_char(d: int) -> char {
    (d + '0' as int) as char
}

pub open spec fn all_digits(s: Seq<char>) -> bool {
    forall|i: int| 0 <= i < s.len() ==> is_digit(#[trigger] s[i])
}

/// The number that a sequence of decimal digits stands for, most
/// significant digit first. Leading zeros do not count.
pub open spec fn decimal_value(digits: Seq<char>) -> int
    decreases digits.len(),
{
    if digits.len() == 0 {
        0
    } else {
        10 * decimal_value(digits.drop_last()) + digit_value(digits.last())
    }
}

/// The first index at or after `from` at which `s` has no decimal digit:
/// the end of the run of digits that starts at `from`.
pub open spec fn digits_end(s: Seq<char>, from: int) -> int
    decreases s.len() - from,
{
    if 0 <= from < s.len() && is_digit(s[from]) {
        digits_end(s, from + 1)
    } else {
        from
    }
}

pub(crate) fn is_digit_char(c: char) -> (b: bool)
    ensures
        b == is_digit(c),
{
    '0' <= c && c <= '9'
}

/// `value` if it is at most `cap`, else `cap + 1`.
pub open spec fn capped(value: int, cap: int) -> int {
    if value <= cap {
        value
    } else {
        cap + 1
    }
}

/// Reads the run of decimal digits of `chars` that starts at `from`.
/// Returns the index after the run, and the value of the digits as long as
/// it is at most `cap`: any larger value is reported as `cap + 1`.
pub(crate) fn read_number(chars: &Vec<char>, from: usize, cap: u64) -> (r: (usize, u64))
    requires
        from <= chars.len(),
        cap <= u32::MAX,
    ensures
        r.0 == digits_end(chars@, from as int),
        from <= r.0 <= chars.len(),
        all_digits(chars@.subrange(from as int, r.0 as int)),
        r.1 == capped(decimal_value(chars@.subrange(from as int, r.0 as int)), cap as int),
{
    let mut i: usize = from;
    let mut value: u64 = 0;
    assert(chars@.subrange(from as int, from as int) =~= Seq::<char>::empty());
    while i < chars.len() && is_digit_char(chars[i])
        invariant
            from <= i <= chars.len(),
            cap <= u32::MAX,
            digits_end(chars@, from as int) == digits_end(chars@, i as int),
            all_digits(chars@.subrange(from as int, i as int)),
            0 <= decimal_value(chars@.subrange(from as int, i as int)),
            value == capped(decimal_value(chars@.subrange(from as int, i as int)), cap as int),
        decreases chars.len() - i,
    {
        let digit: u64 = (chars[i] as u32 - '0' as u32) as u64;
        proof {
            let longer = chars@.subrange(from as int, i + 1);
            assert(longer.drop_last() =~= chars@.subrange(from as int, i as int));
            assert(longer.last() == chars@[i as int]);
        }
        if value <= cap {
            value = value * 10 + digit;
            if value > cap {
                value = cap + 1;
            }
        }
        i += 1;
    }
    (i, value)
}

/// The decimal digit for `d`.
pub(crate) fn digit_to_char(d: u32) -> (c: char)
    requires
        d <= 9,
    ensures
        c == digit_char(d as int),
{
    (d as u8 + 48u8) as char
}

/// The digits of `s`: all but a minus sign in front.
pub open spec fn integer_digits(s: Seq<char>) -> Seq<char> {
    if s.len() > 0 && s[0] == '-' {
        s.skip(1)
    } else {
        s
    }
}

/// `s` is an integer in decimal: at least one digit, with or without a
/// minus sign in front, and nothing else.
pub open spec fn is_integer(s: Seq<char>) -> bool {
    integer_digits(s).len() > 0 && all_digits(integer_digits(s))
}

/// The integer that `s` stands for.
pub open spec fn integer_value(s: Seq<char>) -> int {
    if s.len() > 0 && s[0] == '-' {
        -decimal_value(integer_digits(s))
    } else {
        decimal_value(integer_digits(s))
    }
}

/// Reads `text` as an integer in decimal. Succeeds exactly where `text`
/// is one and its value is that of some `i32`.
pub fn parse_i32(text: &str) -> (r: Option<i32>)
    ensures
        r == if is_integer(text@) && i32::MIN <= integer_value(text@) <= i32::MAX {
            Some(integer_value(text@) as i32)
        } else {
            None
        },
{
    let chars = chars_of(text);
    let negative = chars.len() > 0 && chars[0] == '-';
    let start: usize = if negative {
        1
    } else {
        0
    };
    let (end, value) = read_number(&chars, start, 0x8000_0000);
    proof {
        lemma_digits_end(chars@, start as int);
        assert(integer_digits(chars@) =~= chars@.subrange(start as int, chars.len() as int));
        if end < chars.len() {
            assert(chars@[end as int] == integer_digits(chars@)[end - start]);
        }
    }
    if end == start || end != chars.len() {
        return None;
    }
    if negative {
        if value > 0x8000_0000 {
            None
        } else {
            Some((0 - value as i64) as i32)
        }
    } else if value > 0x7fff_ffff {
        None
    } else {
        Some(value as i32)
    }
}

/// The run of digits that starts at `from` ends inside `s`, holds digits
/// only, and is followed by no digit.
pub proof fn lemma_digits_end(s: Seq<char>, from: int)
    requires
        0 <= from <= s.len(),
    ensures
        from <= digits_end(s, from) <= s.len(),
        all_digits(s.subrange(from, digits_end(s, from))),
        digits_end(s, from) < s.len() ==> !is_digit(s[digits_end(s, from)]),
    decreases s.len() - from,
{
    if from < s.len() && is_digit(s[from]) {
        lemma_digits_end(s, from + 1);
        let end = digits_end(s, from);
        assert forall|i: int| 0 <= i < end - from implies is_digit(
            #[trigger] s.subrange(from, end)[i],
        ) by {
            if i > 0 {
                assert(s.subrange(from, end)[i] == s.subrange(from + 1, end)[i - 1]);
            }
        }
    }
}

/// A stretch of digits that no digit follows is the run of digits that
/// starts where it starts.
pub proof fn lemma_digits_run(s: Seq<char>, from: int, to: int)
    requires
        0 <= from <= to <= s.len(),
        all_digits(s.subrange(from, to)),
        to < s.len() ==> !is_digit(s[to]),
    ensures
        digits_end(s, from) == to,
    decreases to - from,
{
    if from < to {
        assert(s[from] == s.subrange(from, to)[0]);
        assert forall|i: int| 0 <= i < to - (from + 1) implies is_digit(
            #[trigger] s.subrange(from + 1, to)[i],
        ) by {
            assert(s.subrange(from + 1, to)[i] == s.subrange(from, to)[i + 1]);
        }
        lemma_digits_run(s, from + 1, to);
    }
}

/// Digits stand for a number that is not negative.
pub proof fn lemma_decimal_value_bounds(digits: Seq<char>)
    requires
        all_digits(digits),
    ensures
        0 <= decimal_value(digits),
        digits.len() > 0 ==> decimal_value(digits) % 10 == digit_value(digits.last()),
        digits.len() > 0 ==> decimal_value(digits) / 10 == decimal_value(digits.drop_last()),
    decreases digits.len(),
{
    if digits.len() > 0 {
        assert(is_digit(digits[digits.len() - 1]));
        assert forall|i: int| 0 <= i < digits.drop_last().len() implies is_digit(
            #[trigger] digits.drop_last()[i],
        ) by {
            assert(digits.drop_last()[i] == digits[i]);
        }
        lemma_decimal_value_bounds(digits.drop_last());
    }
}

/// The digit of a number from 0 to 9 is a decimal digit that stands for
/// that number.
pub proof fn lemma_digit_char(d: int)
    requires
        0 <= d <= 9,
    ensures
        is_digit(digit_char(d)),
        digit_value(digit_char(d)) == d,
{
}

/// One digit stands for its own value.
pub proof fn lemma_one_digit(c: char)
    ensures
        decimal_value(seq![c]) == digit_value(c),
{
    assert(seq![c].drop_last() =~= Seq::<char>::empty());
    reveal_with_fuel(decimal_value, 2);
}

/// Two digits stand for ten times the first and once the second.
pub proof fn lemma_two_digits(tens: char, ones: char)
    ensures
        decimal_value(seq![tens, ones]) == 10 * digit_value(tens) + digit_value(ones),
{
    assert(seq![tens, ones].drop_last() =~= seq![tens]);
    lemma_one_digit(tens);
}

} // verus!
