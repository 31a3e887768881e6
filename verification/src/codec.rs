//! Codec between vendor version strings such as `V7.94a` and integer
//! version codes such as `79401`.
//!
//! A version string is `v` or `V`, the major version in decimal digits, a
//! dot, the minor version in decimal digits, and at most one lowercase
//! letter for the patch: no letter is patch 0, `a` is patch 1, `z` is patch
//! 26. Its code is `major * 10000 + minor * 100 + patch`. The code has room
//! for one decimal digit of major version and two of minor version; a
//! string or an integer outside that room is rejected, never cut to fit.

use vstd::prelude::*;
use crate::decimal::{decimal_value, digit_char, digit_to_char, digits_end, read_number};
use crate::error::Error;
use crate::text::chars_of;

verus! {

/// Integer form of a version: `major * 10000 + minor * 100 + patch`.
/// Codes order as the versions they stand for were released.
pub type VersionCode = i32;

/// Largest major version that a code has room for.
pub const MAX_MAJOR: u64 = 9;

/// Largest minor version that a code has room for.
pub const MAX_MINOR: u64 = 99;

/// Largest patch number that has a letter: `z`.
pub const MAX_PATCH: u64 = 26;

pub open spec fn is_patch_letter(c: char) -> bool {
    'a' <= c && c <= 'z'
}

/// The patch number that the letter `c` stands for: `a` is 1.
pub open spec fn patch_value(c: char) -> int {
    c as int - 'a' as int + 1
}

/// The letter for patch number `p`, where `1 <= p <= 26`.
pub open spec fn patch_letter(p: int) -> char {
    (p - 1 + 'a' as int) as char
}

/// Index of the character after the major version's digits.
pub open spec fn major_end(s: Seq<char>) -> int {
    digits_end(s, 1)
}

/// Index of the character after the minor version's digits.
pub open spec fn minor_end(s: Seq<char>) -> int {
    digits_end(s, major_end(s) + 1)
}

/// `s` has the shape of a version string: `v` or `V`, digits, a dot,
/// digits, and then nothing or one lowercase letter.
pub open spec fn is_well_formed(s: Seq<char>) -> bool {
    &&& s.len() >= 1
    &&& (s[0] == 'v' || s[0] == 'V')
    &&& 1 < major_end(s) < s.len()
    &&& s[major_end(s)] == '.'
    &&& major_end(s) + 1 < minor_end(s)
    &&& (minor_end(s) == s.len() || (minor_end(s) + 1 == s.len() && is_patch_letter(
        s[minor_end(s)],
    )))
}

/// The digits of the major version of a well-formed `s`.
pub open spec fn major_digits(s: Seq<char>) -> Seq<char> {
    s.subrange(1, major_end(s))
}

/// The digits of the minor version of a well-formed `s`.
pub open spec fn minor_digits(s: Seq<char>) -> Seq<char> {
    s.subrange(major_end(s) + 1, minor_end(s))
}

/// What follows the minor version of a well-formed `s`: nothing, or the
/// patch letter.
pub open spec fn suffix(s: Seq<char>) -> Seq<char> {
    s.subrange(minor_end(s), s.len() as int)
}

/// The patch number of a well-formed `s`.
pub open spec fn patch_of(s: Seq<char>) -> int {
    if suffix(s).len() == 0 {
        0
    } else {
        patch_value(suffix(s)[0])
    }
}

/// `s` is a version string whose major and minor version fit a code.
pub open spec fn is_version_string(s: Seq<char>) -> bool {
    &&& is_well_formed(s)
    &&& decimal_value(major_digits(s)) <= MAX_MAJOR
    &&& decimal_value(minor_digits(s)) <= MAX_MINOR
}

/// The code of the version string `s`.
pub open spec fn version_code_of(s: Seq<char>) -> int {
    decimal_value(major_digits(s)) * 10000 + decimal_value(minor_digits(s)) * 100 + patch_of(s)
}

/// `code` is the code of some version string: one decimal digit of major
/// version, two of minor version, and a patch number that has a letter.
pub open spec fn is_version_code(code: int) -> bool {
    0 <= code && code / 10000 <= MAX_MAJOR && code % 100 <= MAX_PATCH
}

/// The version string of `code`, in the form that the vendor prints:
/// capital `V`, one digit, a dot, two digits, and the patch letter if the
/// patch is not 0.
pub open spec fn version_string_of(code: int) -> Seq<char> {
    let (major, minor, patch) = (code / 10000, code / 100 % 100, code % 100);
    let head = seq!['V', digit_char(major), '.', digit_char(minor / 10), digit_char(minor % 10)];
    if patch == 0 {
        head
    } else {
        head.push(patch_letter(patch))
    }
}

/// Decodes a version string into its code.
///
/// Succeeds exactly on the version strings whose major version is at
/// most 9 and whose minor version is at most 99; every other text is
/// `MalformedVersion`.
pub fn version_string_to_number(version: &str) -> (r: Result<VersionCode, Error>)
    ensures
        is_version_string(version@) ==> (r matches Ok(code) && code == version_code_of(version@)
            && is_version_code(code as int)),
        !is_version_string(version@) ==> r == Err::<VersionCode, Error>(Error::MalformedVersion),
{
    let chars = chars_of(version);
    let n = chars.len();
    if n == 0 || !(chars[0] == 'v' || chars[0] == 'V') {
        return Err(Error::MalformedVersion);
    }
    let (dot, major) = read_number(&chars, 1, MAX_MAJOR);
    if dot == 1 || dot == n || chars[dot] != '.' {
        return Err(Error::MalformedVersion);
    }
    let (end, minor) = read_number(&chars, dot + 1, MAX_MINOR);
    if end == dot + 1 {
        return Err(Error::MalformedVersion);
    }
    let patch: u64 = if end == n {
        0
    } else if end + 1 == n && 'a' <= chars[end] && chars[end] <= 'z' {
        (chars[end] as u32 - 'a' as u32 + 1) as u64
    } else {
        return Err(Error::MalformedVersion);
    };
    if major > MAX_MAJOR || minor > MAX_MINOR {
        return Err(Error::MalformedVersion);
    }
    Ok((major * 10000 + minor * 100 + patch) as i32)
}

/// Whether `code` is the code of a version string.
pub fn is_encodable(code: VersionCode) -> (ok: bool)
    ensures
        ok == is_version_code(code as int),
{
    0 <= code && code / 10000 <= 9 && code % 100 <= 26
}

fn patch_to_char(p: u32) -> (c: char)
    requires
        1 <= p <= MAX_PATCH,
    ensures
        c == patch_letter(p as int),
{
    (p as u8 + 96u8) as char
}

/// Encodes a version code as the version string that the vendor prints.
///
/// Succeeds exactly on the codes of version strings. A code with a major
/// version above 9 or a patch number above 26 is `CodeOutOfRange`, and so
/// is a negative one: no letter or digit is made up for it.
pub fn version_number_to_string(version: VersionCode) -> (r: Result<String, Error>)
    ensures
        is_version_code(version as int) ==> (r matches Ok(text) && text@ == version_string_of(
            version as int,
        )),
        !is_version_code(version as int) ==> (r matches Err(e) && e == Error::CodeOutOfRange),
{
    if !is_encodable(version) {
        return Err(Error::CodeOutOfRange);
    }
    let code: u32 = version as u32;
    let minor: u32 = code / 100 % 100;
    let patch: u32 = code % 100;
    let mut text = String::new();
    text.push('V');
    text.push(digit_to_char(code / 10000));
    text.push('.');
    text.push(digit_to_char(minor / 10));
    text.push(digit_to_char(minor % 10));
    if patch != 0 {
        text.push(patch_to_char(patch));
    }
    Ok(text)
}

} // verus!
