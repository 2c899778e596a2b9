//! The field decoder: from attribute text to typed scalars.

use vstd::prelude::*;
use crate::text::{
    all_digits, chars_of, decimal_value, digit_value, is_digit, is_digit_char,
    lemma_decimal_value_prefix,
};

verus! {

/// The integer that `s` spells: an optional sign where `signed` allows `-`,
/// then one or more decimal digits. `None` for any other text.
pub open spec fn numeral(s: Seq<char>, signed: bool) -> Option<int> {
    if s.len() == 0 {
        None
    } else if s[0] == '+' {
        if s.len() > 1 && all_digits(s.skip(1)) {
            Some(decimal_value(s.skip(1)) as int)
        } else {
            None
        }
    } else if s[0] == '-' && signed {
        if s.len() > 1 && all_digits(s.skip(1)) {
            Some(-(decimal_value(s.skip(1)) as int))
        } else {
            None
        }
    } else if all_digits(s) {
        Some(decimal_value(s) as int)
    } else {
        None
    }
}

/// The signed 64-bit integer that `s` spells, if it spells one.
pub open spec fn decode_i64(s: Seq<char>) -> Option<i64> {
    match numeral(s, true) {
        Some(v) => if i64::MIN <= v <= i64::MAX {
            Some(v as i64)
        } else {
            None
        },
        None => None,
    }
}

/// The unsigned 32-bit integer that `s` spells, if it spells one.
pub open spec fn decode_u32(s: Seq<char>) -> Option<u32> {
    match numeral(s, false) {
        Some(v) => if v <= u32::MAX {
            Some(v as u32)
        } else {
            None
        },
        None => None,
    }
}

/// The flag that `s` spells: true for the exact text `true`, false for
/// everything else.
pub open spec fn decode_bool(s: Seq<char>) -> bool {
    s == "true"@
}

/// Reads the digits `s[from..]` as a number no larger than `limit`.
///
/// `None` when there is no digit, when a character is not a digit, or when
/// the number exceeds `limit`.
fn magnitude(s: &Vec<char>, from: usize, limit: u64) -> (r: Option<u64>)
    requires
        from <= s.len(),
    ensures
        r is Some <==> from < s.len() && all_digits(s@.skip(from as int)) && decimal_value(
            s@.skip(from as int),
        ) <= limit,
        r matches Some(v) ==> v == decimal_value(s@.skip(from as int)),
{
    let ghost digits = s@.skip(from as int);
    if from == s.len() {
        return None;
    }
    let mut acc: u64 = 0;
    let mut i: usize = from;
    while i < s.len()
        invariant
            from <= i <= s.len(),
            digits == s@.skip(from as int),
            all_digits(digits.take(i - from)),
            acc == decimal_value(digits.take(i - from)),
            acc <= limit,
        decreases s.len() - i,
    {
        let c = s[i];
        assert(digits[i - from] == c);
        if !is_digit_char(c) {
            return None;
        }
        let d: u64 = (c as u32 - '0' as u32) as u64;
        assert(d == digit_value(c));
        assert(digits.take(i - from + 1).drop_last() =~= digits.take(i - from));
        assert(decimal_value(digits.take(i - from + 1)) == acc * 10 + d);
        proof {
            lemma_decimal_value_prefix(digits, i - from + 1);
        }
        if d > limit || acc > (limit - d) / 10 {
            assert(acc * 10 + d > limit);
            return None;
        }
        acc = acc * 10 + d;
        i = i + 1;
    }
    assert(digits.take(i - from) =~= digits);
    Some(acc)
}

/// Decodes a signed 64-bit integer.
pub fn parse_i64(s: &str) -> (r: Option<i64>)
    ensures
        r == decode_i64(s@),
{
    let v = chars_of(s);
    if v.len() == 0 {
        return None;
    }
    if v[0] == '-' {
        match magnitude(&v, 1, 0x8000_0000_0000_0000u64) {
            Some(m) => {
                if m == 0x8000_0000_0000_0000u64 {
                    Some(i64::MIN)
                } else {
                    Some(-(m as i64))
                }
            },
            None => None,
        }
    } else if v[0] == '+' {
        match magnitude(&v, 1, 0x7fff_ffff_ffff_ffffu64) {
            Some(m) => Some(m as i64),
            None => None,
        }
    } else {
        assert(v@.skip(0) =~= v@);
        match magnitude(&v, 0, 0x7fff_ffff_ffff_ffffu64) {
            Some(m) => Some(m as i64),
            None => None,
        }
    }
}

/// Decodes an unsigned 32-bit integer.
pub fn parse_u32(s: &str) -> (r: Option<u32>)
    ensures
        r == decode_u32(s@),
{
    let v = chars_of(s);
    if v.len() == 0 {
        return None;
    }
    if v[0] == '+' {
        match magnitude(&v, 1, 0xffff_ffffu64) {
            Some(m) => Some(m as u32),
            None => None,
        }
    } else {
        assert(v@.skip(0) =~= v@);
        match magnitude(&v, 0, 0xffff_ffffu64) {
            Some(m) => Some(m as u32),
            None => None,
        }
    }
}

/// Decodes a flag: only the exact text `true` is true.
pub fn parse_bool(s: &str) -> (r: bool)
    ensures
        r == decode_bool(s@),
{
    proof {
        reveal_strlit("true");
    }
    let v = chars_of(s);
    let r = v.len() == 4 && v[0] == 't' && v[1] == 'r' && v[2] == 'u' && v[3] == 'e';
    assert(r == (v@ =~= "true"@));
    r
}

/// The instant that `text` denotes, in milliseconds since 1970-01-01T00:00:00Z,
/// when `text` is a date and time with offset in the RFC 3339 format; `None`
/// for any other text.
pub uninterp spec fn rfc3339_millis(text: Seq<char>) -> Option<i64>;

/// Calls `chrono::DateTime::parse_from_rfc3339` and, where that succeeds,
/// `DateTime::timestamp_millis` on the value it gave.
///
/// The contract only gives the outcome a name: the same text always yields the
/// same outcome, and nothing else is claimed of it.
#[verifier::external_body]
fn rfc3339_to_millis(s: &str) -> (r: Option<i64>)
    ensures
        r == rfc3339_millis(s@),
{
    match chrono::DateTime::parse_from_rfc3339(s) {
        Ok(instant) => Some(instant.timestamp_millis()),
        Err(_) => None,
    }
}

/// Decodes a timestamp with offset into milliseconds since the epoch.
pub fn parse_timestamp(s: &str) -> (r: Option<i64>)
    ensures
        r == rfc3339_millis(s@),
{
    rfc3339_to_millis(s)
}

/// Whether `c` is the letter written `small` or `capital`.
pub open spec fn is_letter(c: char, small: char, capital: char) -> bool {
    c == small || c == capital
}

/// Whether `c` is a plus or a minus sign.
pub open spec fn is_sign(c: char) -> bool {
    c == '+' || c == '-'
}

/// The first position at or after `from` that holds no decimal digit.
pub open spec fn digits_end(s: Seq<char>, from: int) -> int
    decreases s.len() - from,
{
    if 0 <= from < s.len() && is_digit(s[from]) {
        digits_end(s, from + 1)
    } else {
        from
    }
}

/// Whether `s[from..]` is an exponent: an optional sign and one or more digits.
pub open spec fn is_exponent(s: Seq<char>, from: int) -> bool {
    let first = if from < s.len() && is_sign(s[from]) {
        from + 1
    } else {
        from
    };
    first < s.len() && digits_end(s, first) == s.len()
}

/// Whether `s[from..]` is a decimal number: digits with at most one point
/// among them, at least one digit in all, and an optional exponent marked by
/// `e` or `E`.
pub open spec fn is_decimal_number(s: Seq<char>, from: int) -> bool {
    let whole_end = digits_end(s, from);
    let point = whole_end < s.len() && s[whole_end] == '.';
    let mantissa_end = if point {
        digits_end(s, whole_end + 1)
    } else {
        whole_end
    };
    let digits = if point {
        mantissa_end - from - 1
    } else {
        mantissa_end - from
    };
    digits > 0 && (mantissa_end == s.len() || (is_letter(s[mantissa_end], 'e', 'E')
        && is_exponent(s, mantissa_end + 1)))
}

/// Whether `s[from..]` is `inf`, `infinity` or `nan` in any mix of cases.
pub open spec fn is_special_number(s: Seq<char>, from: int) -> bool {
    let inf = is_letter(s[from], 'i', 'I') && is_letter(s[from + 1], 'n', 'N') && is_letter(
        s[from + 2],
        'f',
        'F',
    );
    let nan = is_letter(s[from], 'n', 'N') && is_letter(s[from + 1], 'a', 'A') && is_letter(
        s[from + 2],
        'n',
        'N',
    );
    let inity = is_letter(s[from + 3], 'i', 'I') && is_letter(s[from + 4], 'n', 'N') && is_letter(
        s[from + 5],
        'i',
        'I',
    ) && is_letter(s[from + 6], 't', 'T') && is_letter(s[from + 7], 'y', 'Y');
    (s.len() - from == 3 && (inf || nan)) || (s.len() - from == 8 && inf && inity)
}

/// Whether `s` is a floating-point literal: an optional sign followed by a
/// decimal number or by one of the special words.
pub open spec fn is_float_literal(s: Seq<char>) -> bool {
    let from: int = if s.len() > 0 && is_sign(s[0]) {
        1
    } else {
        0
    };
    from < s.len() && (is_decimal_number(s, from) || is_special_number(s, from))
}

fn letter(c: char, small: char, capital: char) -> (r: bool)
    ensures
        r == is_letter(c, small, capital),
{
    c == small || c == capital
}

fn scan_digits(s: &Vec<char>, from: usize) -> (end: usize)
    requires
        from <= s.len(),
    ensures
        end == digits_end(s@, from as int),
        from <= end <= s.len(),
{
    let mut i: usize = from;
    while i < s.len() && is_digit_char(s[i])
        invariant
            from <= i <= s.len(),
            digits_end(s@, from as int) == digits_end(s@, i as int),
        decreases s.len() - i,
    {
        i = i + 1;
    }
    i
}

fn exponent_at(s: &Vec<char>, from: usize) -> (r: bool)
    requires
        from <= s.len(),
    ensures
        r == is_exponent(s@, from as int),
{
    let first: usize = if from < s.len() && (s[from] == '+' || s[from] == '-') {
        from + 1
    } else {
        from
    };
    first < s.len() && scan_digits(s, first) == s.len()
}

fn decimal_number_at(s: &Vec<char>, from: usize) -> (r: bool)
    requires
        from <= s.len(),
    ensures
        r == is_decimal_number(s@, from as int),
{
    let whole_end = scan_digits(s, from);
    let point = whole_end < s.len() && s[whole_end] == '.';
    let mantissa_end = if point {
        scan_digits(s, whole_end + 1)
    } else {
        whole_end
    };
    let digits = if point {
        mantissa_end - from - 1
    } else {
        mantissa_end - from
    };
    if digits == 0 {
        false
    } else if mantissa_end == s.len() {
        true
    } else {
        letter(s[mantissa_end], 'e', 'E') && exponent_at(s, mantissa_end + 1)
    }
}

fn special_number_at(s: &Vec<char>, from: usize) -> (r: bool)
    requires
        from <= s.len(),
    ensures
        r == is_special_number(s@, from as int),
{
    let n = s.len() - from;
    if n == 3 {
        let inf = letter(s[from], 'i', 'I') && letter(s[from + 1], 'n', 'N') && letter(
            s[from + 2],
            'f',
            'F',
        );
        let nan = letter(s[from], 'n', 'N') && letter(s[from + 1], 'a', 'A') && letter(
            s[from + 2],
            'n',
            'N',
        );
        inf || nan
    } else if n == 8 {
        letter(s[from], 'i', 'I') && letter(s[from + 1], 'n', 'N') && letter(s[from + 2], 'f', 'F')
            && letter(s[from + 3], 'i', 'I') && letter(s[from + 4], 'n', 'N') && letter(
            s[from + 5],
            'i',
            'I',
        ) && letter(s[from + 6], 't', 'T') && letter(s[from + 7], 'y', 'Y')
    } else {
        false
    }
}

/// A coordinate in decimal degrees, kept as the floating-point literal that
/// the source wrote for it.
#[derive(Debug, PartialEq, Eq)]
pub struct Coordinate {
    text: String,
}

impl View for Coordinate {
    type V = Seq<char>;

    closed spec fn view(&self) -> Seq<char> {
        self.text@
    }
}

impl Coordinate {
    #[verifier::type_invariant]
    spec fn well_formed(self) -> bool {
        is_float_literal(self.text@)
    }

    /// Decodes a coordinate: accepts exactly the floating-point literals.
    pub fn parse(s: &str) -> (r: Option<Coordinate>)
        ensures
            r is Some <==> is_float_literal(s@),
            r matches Some(c) ==> c@ == s@,
    {
        let v = chars_of(s);
        let from: usize = if v.len() > 0 && (v[0] == '+' || v[0] == '-') {
            1
        } else {
            0
        };
        if from < v.len() && (decimal_number_at(&v, from) || special_number_at(&v, from)) {
            Some(Coordinate { text: s.to_owned() })
        } else {
            None
        }
    }

    /// The literal, which is always a floating-point literal.
    pub fn as_str(&self) -> (r: &str)
        ensures
            r@ == self@,
            is_float_literal(r@),
    {
        proof {
            use_type_invariant(self);
        }
        self.text.as_str()
    }

    /// A copy of this coordinate.
    pub fn duplicate(&self) -> (r: Coordinate)
        ensures
            r@ == self@,
    {
        proof {
            use_type_invariant(self);
        }
        Coordinate { text: self.text.clone() }
    }
}

} // verus!
