//! What holds of the version codec as a whole: the grammar that the
//! decoder accepts, that encoding and decoding undo each other, and that
//! codes order as versions do.

use vstd::prelude::*;
use crate::codec::{
    is_patch_letter, is_version_code, is_version_string, is_well_formed, major_digits, major_end,
    minor_digits, patch_letter, patch_of, patch_value, suffix, version_code_of,
    version_string_of,
};
use crate::decimal::{
    all_digits, decimal_value, digit_char, is_digit, lemma_decimal_value_bounds, lemma_digit_char,
    lemma_digits_end, lemma_digits_run, lemma_one_digit, lemma_two_digits,
};

verus! {

/// `s` is spelled `v` or `V`, then `major`, a dot, `minor` and `tail`,
/// where `major` and `minor` are digits, at least one each, and `tail` is
/// nothing or one lowercase letter.
pub open spec fn spells(s: Seq<char>, major: Seq<char>, minor: Seq<char>, tail: Seq<char>) -> bool {
    &&& major.len() > 0 && all_digits(major)
    &&& minor.len() > 0 && all_digits(minor)
    &&& tail.len() == 0 || (tail.len() == 1 && is_patch_letter(tail[0]))
    &&& s.len() > 0 && (s[0] == 'v' || s[0] == 'V')
    &&& s.skip(1) == major + seq!['.'] + minor + tail
}

/// A well-formed text is spelled by its own parts.
pub proof fn lemma_well_formed_is_spelled(s: Seq<char>)
    requires
        is_well_formed(s),
    ensures
        spells(s, major_digits(s), minor_digits(s), suffix(s)),
{
    lemma_digits_end(s, 1);
    lemma_digits_end(s, major_end(s) + 1);
    assert(s.skip(1) =~= major_digits(s) + seq!['.'] + minor_digits(s) + suffix(s));
}

/// The grammar: a text that is spelled as a version string is
/// well-formed, and in one way only.
pub proof fn lemma_spelled_is_well_formed(
    s: Seq<char>,
    major: Seq<char>,
    minor: Seq<char>,
    tail: Seq<char>,
)
    requires
        spells(s, major, minor, tail),
    ensures
        is_well_formed(s),
        major_digits(s) == major,
        minor_digits(s) == minor,
        suffix(s) == tail,
{
    let rest = major + seq!['.'] + minor + tail;
    let dot = 1 + major.len() as int;
    let end = dot + 1 + minor.len() as int;
    assert(s.len() == 1 + rest.len());
    assert forall|i: int| 1 <= i < s.len() implies s[i] == rest[i - 1] by {
        assert(s[i] == s.skip(1)[i - 1]);
    }
    assert(s[dot] == '.');
    assert(s.subrange(1, dot) =~= major);
    lemma_digits_run(s, 1, dot);
    assert(s.subrange(dot + 1, end) =~= minor);
    if end < s.len() {
        assert(s[end] == tail[0]);
    }
    lemma_digits_run(s, dot + 1, end);
    assert(s.subrange(end, s.len() as int) =~= tail);
}

/// The letter of a patch number from 1 to 26 is a lowercase letter that
/// stands for that number.
pub proof fn lemma_patch_letter(p: int)
    requires
        1 <= p <= 26,
    ensures
        is_patch_letter(patch_letter(p)),
        patch_value(patch_letter(p)) == p,
{
}

/// A code is made of its places: the patch in the last two decimal
/// places, the minor version in the two before them, and the major
/// version above those.
pub proof fn lemma_code_places(code: int)
    requires
        0 <= code,
    ensures
        code == (code / 10000) * 10000 + (code / 100 % 100) * 100 + code % 100,
        0 <= code / 10000,
        0 <= code / 100 % 100 <= 99,
        0 <= code % 100 <= 99,
{
    vstd::arithmetic::div_mod::lemma_div_denominator(code, 100, 100);
}

/// Decoding undoes encoding: the string written for a version code is a
/// version string, and its code is the code it was written for.
pub proof fn lemma_decode_inverts_encode(code: int)
    requires
        is_version_code(code),
    ensures
        is_version_string(version_string_of(code)),
        version_code_of(version_string_of(code)) == code,
{
    let s = version_string_of(code);
    let (high, low, patch) = (code / 10000, code / 100 % 100, code % 100);
    let major = seq![digit_char(high)];
    let minor = seq![digit_char(low / 10), digit_char(low % 10)];
    let tail = if patch == 0 {
        Seq::<char>::empty()
    } else {
        seq![patch_letter(patch)]
    };
    lemma_code_places(code);
    lemma_digit_char(high);
    lemma_digit_char(low / 10);
    lemma_digit_char(low % 10);
    if patch != 0 {
        lemma_patch_letter(patch);
    }
    assert(s.skip(1) =~= major + seq!['.'] + minor + tail);
    lemma_spelled_is_well_formed(s, major, minor, tail);
    lemma_one_digit(digit_char(high));
    lemma_two_digits(digit_char(low / 10), digit_char(low % 10));
}

/// The last `width` digits of `digits`, with zeros in front where
/// `digits` has fewer.
pub open spec fn last_digits(digits: Seq<char>, width: nat) -> Seq<char> {
    (Seq::new(width, |i: int| '0') + digits).skip(digits.len() as int)
}

/// The form in which the vendor prints the well-formed version string
/// `s`: capital `V`, the last digit of the major version, a dot, the last
/// two digits of the minor version, and the patch letter if there is one.
pub open spec fn normal_form(s: Seq<char>) -> Seq<char> {
    seq!['V'] + last_digits(major_digits(s), 1) + seq!['.'] + last_digits(minor_digits(s), 2)
        + suffix(s)
}

/// Round trip: the code of a version string is a version code, and
/// encoding it gives the string back in the vendor's form. Nothing is
/// lost by it: the digits that the form leaves out are leading zeros.
pub proof fn lemma_encode_inverts_decode(s: Seq<char>)
    requires
        is_version_string(s),
    ensures
        is_version_code(version_code_of(s)),
        version_string_of(version_code_of(s)) == normal_form(s),
        decimal_value(last_digits(major_digits(s), 1)) == decimal_value(major_digits(s)),
        decimal_value(last_digits(minor_digits(s), 2)) == decimal_value(minor_digits(s)),
{
    let major = major_digits(s);
    let minor = minor_digits(s);
    let tail = suffix(s);
    let code = version_code_of(s);
    lemma_well_formed_is_spelled(s);
    lemma_decimal_value_bounds(major);
    lemma_decimal_value_bounds(major.drop_last());
    lemma_decimal_value_bounds(minor);
    lemma_decimal_value_bounds(minor.drop_last());
    if minor.len() > 1 {
        lemma_decimal_value_bounds(minor.drop_last().drop_last());
    }
    let m = decimal_value(major);
    let n = decimal_value(minor);
    let p = patch_of(s);
    assert(0 <= p <= 26);
    assert(code / 10000 == m && code / 100 % 100 == n && code % 100 == p) by {
        lemma_code_places(code);
    }
    assert(is_digit(major.last()) && is_digit(minor.last()));
    let major_last = seq![major.last()];
    assert(last_digits(major, 1) =~= major_last);
    lemma_one_digit(major.last());
    let tens = if minor.len() > 1 {
        minor[minor.len() - 2]
    } else {
        '0'
    };
    if minor.len() > 1 {
        assert(minor.drop_last().last() == tens);
        assert(is_digit(tens));
    }
    let minor_last = seq![tens, minor.last()];
    assert(last_digits(minor, 2) =~= minor_last);
    lemma_two_digits(tens, minor.last());
    assert(digit_char(n / 10) == tens);
    if p != 0 {
        assert(tail =~= seq![patch_letter(p)]);
    }
    assert(version_string_of(code) =~= normal_form(s));
}

/// A version string in the vendor's own form comes back unchanged.
pub proof fn lemma_normal_form_is_fixed(s: Seq<char>)
    requires
        is_version_string(s),
        s[0] == 'V',
        major_digits(s).len() == 1,
        minor_digits(s).len() == 2,
    ensures
        version_string_of(version_code_of(s)) == s,
{
    lemma_encode_inverts_decode(s);
    lemma_well_formed_is_spelled(s);
    assert(last_digits(major_digits(s), 1) =~= major_digits(s));
    assert(last_digits(minor_digits(s), 2) =~= minor_digits(s));
    assert(s =~= seq!['V'] + s.skip(1));
}

/// The version of `a` was released before that of `b`: first by major
/// version, then by minor version, then by patch.
pub open spec fn released_before(a: Seq<char>, b: Seq<char>) -> bool {
    let (major_a, major_b) = (decimal_value(major_digits(a)), decimal_value(major_digits(b)));
    let (minor_a, minor_b) = (decimal_value(minor_digits(a)), decimal_value(minor_digits(b)));
    major_a < major_b || (major_a == major_b && (minor_a < minor_b || (minor_a == minor_b
        && patch_of(a) < patch_of(b))))
}

/// Monotonicity: codes order as the versions were released, and two
/// version strings have one code only if they name one version.
pub proof fn lemma_codes_order_as_versions(a: Seq<char>, b: Seq<char>)
    requires
        is_version_string(a),
        is_version_string(b),
    ensures
        released_before(a, b) <==> version_code_of(a) < version_code_of(b),
        version_code_of(a) == version_code_of(b) <==> (decimal_value(major_digits(a))
            == decimal_value(major_digits(b)) && decimal_value(minor_digits(a)) == decimal_value(
            minor_digits(b),
        ) && patch_of(a) == patch_of(b)),
{
    lemma_well_formed_is_spelled(a);
    lemma_well_formed_is_spelled(b);
    lemma_decimal_value_bounds(major_digits(a));
    lemma_decimal_value_bounds(major_digits(b));
    lemma_decimal_value_bounds(minor_digits(a));
    lemma_decimal_value_bounds(minor_digits(b));
}

} // verus!
