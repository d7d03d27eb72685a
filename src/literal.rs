//! Numeric literals: `0x`, `0o` and `0b` prefixes select the radix,
//! anything else is decimal.

use vstd::prelude::*;
use std::num::ParseIntError;

verus! {

/// `std::num::ParseIntError`, carried opaque as the cause of a bad literal.
#[verifier::external_type_specification]
#[verifier::external_body]
pub struct ExParseIntError(ParseIntError);

/// The value of a digit character: `0-9`, then `a-z` (or `A-Z`) from ten.
/// Any other character gets a value that no radix admits.
pub open spec fn digit_value(c: char) -> nat {
    if '0' <= c && c <= '9' {
        (c as nat - '0' as nat) as nat
    } else if 'a' <= c && c <= 'z' {
        (c as nat - 'a' as nat + 10) as nat
    } else if 'A' <= c && c <= 'Z' {
        (c as nat - 'A' as nat + 10) as nat
    } else {
        99
    }
}

pub open spec fn all_digits(s: Seq<char>, radix: nat) -> bool {
    forall|i: int| 0 <= i < s.len() ==> #[trigger] digit_value(s[i]) < radix
}

/// The number that a string of digits writes, most significant first.
pub open spec fn digits_value(s: Seq<char>, radix: nat) -> nat
    decreases s.len(),
{
    if s.len() == 0 {
        0
    } else {
        digits_value(s.drop_last(), radix) * radix + digit_value(s.last())
    }
}

/// What `u16::from_str_radix` accepts: an optional `+`, then one or more
/// digits of the radix, whose value fits in 16 bits.
pub open spec fn radix_number(s: Seq<char>, radix: nat) -> Option<u16> {
    let d = if s.len() > 0 && s[0] == '+' { s.skip(1) } else { s };
    if d.len() > 0 && all_digits(d, radix) && digits_value(d, radix) < 0x10000 {
        Some(digits_value(d, radix) as u16)
    } else {
        None
    }
}

/// The value of a numeric literal, or `None` where it is malformed or too
/// large for 16 bits.
pub open spec fn literal_value(s: Seq<char>) -> Option<u16> {
    if s.len() >= 2 && s[0] == '0' && s[1] == 'x' {
        radix_number(s.skip(2), 16)
    } else if s.len() >= 2 && s[0] == '0' && s[1] == 'o' {
        radix_number(s.skip(2), 8)
    } else if s.len() >= 2 && s[0] == '0' && s[1] == 'b' {
        radix_number(s.skip(2), 2)
    } else {
        radix_number(s, 10)
    }
}

/// Relies on `u16::from_str_radix`: it accepts an optional `+` followed by
/// at least one digit of the radix (letters in either case), and fails on
/// anything else and on values past `u16::MAX`. It panics on a radix
/// outside `2..=36`.
#[verifier::external_body]
fn u16_from_str_radix(src: &str, radix: u32) -> (r: Result<u16, ParseIntError>)
    requires
        2 <= radix <= 36,
    ensures
        r is Ok <==> radix_number(src@, radix as nat) is Some,
        r is Ok ==> radix_number(src@, radix as nat) == Some(r->Ok_0),
{
    u16::from_str_radix(src, radix)
}

/// Parses a numeric literal into a 16-bit value.
pub fn parse_u16(text: &str) -> (r: Result<u16, ParseIntError>)
    ensures
        r is Ok <==> literal_value(text@) is Some,
        r is Ok ==> literal_value(text@) == Some(r->Ok_0),
{
    let n = text.unicode_len();
    if n >= 2 && text.get_char(0) == '0' {
        let second = text.get_char(1);
        let rest = text.substring_char(2, n);
        assert(rest@ == text@.skip(2));
        if second == 'x' {
            return u16_from_str_radix(rest, 16);
        } else if second == 'o' {
            return u16_from_str_radix(rest, 8);
        } else if second == 'b' {
            return u16_from_str_radix(rest, 2);
        }
    }
    u16_from_str_radix(text, 10)
}

} // verus!
