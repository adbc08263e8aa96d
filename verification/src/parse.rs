//! Reading dates, instants, decimals, large integers and object ids from
//! text, and writing them.
//!
//! The parsers and writers are those of chrono, rust_decimal, bson and std.
//! What a date, an instant or a decimal parser makes of a text takes pages to
//! say, and so does how they are written, so those results have names; an
//! object id is 24 hex digits and an integer is written and read in decimal,
//! which is said here.

use crate::value::Date;
use crate::value::DateTime;
use crate::value::Decimal;
use chrono::Datelike;
use std::str::FromStr;
use vstd::prelude::*;

verus! {

/// The date that chrono's `NaiveDate::parse_from_str` reads from a text in a
/// format, where it reads one.
pub uninterp spec fn date_of_text(text: Seq<char>, format: Seq<char>) -> Option<Date>;

/// The instant that chrono's `DateTime::parse_from_rfc3339` reads from a
/// text, where it reads one.
pub uninterp spec fn datetime_of_text(text: Seq<char>) -> Option<DateTime>;

/// The decimal that rust_decimal's `Decimal::from_str` reads from a text,
/// where it reads one.
pub uninterp spec fn decimal_of_text(text: Seq<char>) -> Option<Decimal>;

/// The digit that a character is.
pub open spec fn digit_value(c: char) -> Option<nat> {
    let n = c as int;
    if 48 <= n <= 57 {
        Some((n - 48) as nat)
    } else {
        None
    }
}

/// The number that a text of decimal digits, and of at least one, stands
/// for.
pub open spec fn digits_value(text: Seq<char>) -> Option<nat>
    decreases text.len(),
{
    if text.len() == 0 {
        None
    } else {
        match digit_value(text.last()) {
            None => None,
            Some(d) => if text.len() == 1 {
                Some(d)
            } else {
                match digits_value(text.drop_last()) {
                    Some(n) => Some(10 * n + d),
                    None => None,
                }
            },
        }
    }
}

/// The integer that a text stands for: decimal digits, after a plus or a
/// minus sign or none.
pub open spec fn integer_of_text(text: Seq<char>) -> Option<int> {
    if text.len() > 0 && text[0] == '-' {
        match digits_value(text.drop_first()) {
            Some(n) => Some(-(n as int)),
            None => None,
        }
    } else if text.len() > 0 && text[0] == '+' {
        match digits_value(text.drop_first()) {
            Some(n) => Some(n as int),
            None => None,
        }
    } else {
        match digits_value(text) {
            Some(n) => Some(n as int),
            None => None,
        }
    }
}

/// The signed integer of 128 bits that a text stands for.
pub open spec fn signed_of_text(text: Seq<char>) -> Option<i128> {
    match integer_of_text(text) {
        Some(i) => if i128::MIN <= i <= i128::MAX {
            Some(i as i128)
        } else {
            None
        },
        None => None,
    }
}

/// The unsigned integer of 128 bits that a text stands for. A minus sign is
/// not accepted, not even before zero.
pub open spec fn unsigned_of_text(text: Seq<char>) -> Option<u128> {
    if text.len() > 0 && text[0] == '-' {
        None
    } else {
        match integer_of_text(text) {
            Some(i) => if i <= u128::MAX {
                Some(i as u128)
            } else {
                None
            },
            None => None,
        }
    }
}

/// The value of a hex digit, of either case.
pub open spec fn hex_value(c: char) -> Option<nat> {
    let n = c as int;
    if 48 <= n <= 57 {
        Some((n - 48) as nat)
    } else if 65 <= n <= 70 {
        Some((n - 55) as nat)
    } else if 97 <= n <= 102 {
        Some((n - 87) as nat)
    } else {
        None
    }
}

/// Whether a text is an object id: 24 hex digits.
pub open spec fn is_object_id_text(text: Seq<char>) -> bool {
    text.len() == 24 && forall|i: int| 0 <= i < 24 ==> hex_value(#[trigger] text[i]) is Some
}

/// The 12 bytes that the 24 hex digits of an object id stand for, each byte
/// from two digits, the high one first.
pub open spec fn object_id_bytes(text: Seq<char>) -> Seq<u8> {
    Seq::new(
        12,
        |i: int| (16 * hex_value(text[2 * i]).unwrap() + hex_value(text[2 * i + 1]).unwrap()) as u8,
    )
}

/// Reads a date in a format of chrono's.
///
/// Trusted: `NaiveDate::parse_from_str` returns the date it read or an error;
/// year, month and day are those of the date.
#[verifier::external_body]
pub(crate) fn parse_date(text: &str, format: &str) -> (r: Option<Date>)
    ensures
        r == date_of_text(text@, format@),
{
    chrono::NaiveDate::parse_from_str(text, format).ok().map(
        |d| Date { year: d.year(), month: d.month(), day: d.day() },
    )
}

/// Reads an instant written as RFC 3339 asks.
///
/// Trusted: `DateTime::parse_from_rfc3339` returns the instant it read or an
/// error; `timestamp` and `timestamp_subsec_nanos` give the instant in UTC,
/// whatever offset the text had.
#[verifier::external_body]
pub(crate) fn parse_datetime(text: &str) -> (r: Option<DateTime>)
    ensures
        r == datetime_of_text(text@),
{
    chrono::DateTime::parse_from_rfc3339(text).ok().map(
        |d| DateTime { seconds: d.timestamp(), nanos: d.timestamp_subsec_nanos() },
    )
}

/// Reads a decimal.
///
/// Trusted: `Decimal::from_str` returns the decimal it read or an error;
/// `mantissa` and `scale` are the two parts of the decimal.
#[verifier::external_body]
pub(crate) fn parse_decimal(text: &str) -> (r: Option<Decimal>)
    ensures
        r == decimal_of_text(text@),
{
    rust_decimal::Decimal::from_str(text).ok().map(
        |d| Decimal { mantissa: d.mantissa(), scale: d.scale() },
    )
}

/// Reads a signed integer of up to 128 bits.
///
/// Trusted: `i128::from_str` reads decimal digits after a plus or a minus
/// sign or none, and fails on an empty text, on a sign alone, on any other
/// character and on a number that 128 bits do not hold.
#[verifier::external_body]
pub(crate) fn parse_signed(text: &str) -> (r: Option<i128>)
    ensures
        r == signed_of_text(text@),
{
    i128::from_str(text).ok()
}

/// Reads an unsigned integer of up to 128 bits.
///
/// Trusted: `u128::from_str` reads decimal digits after a plus sign or none,
/// and fails on an empty text, on a sign alone, on a minus sign, on any other
/// character and on a number that 128 bits do not hold.
#[verifier::external_body]
pub(crate) fn parse_unsigned(text: &str) -> (r: Option<u128>)
    ensures
        r == unsigned_of_text(text@),
{
    u128::from_str(text).ok()
}

/// Reads an object id.
///
/// Trusted: bson's `ObjectId::parse_str` decodes the text as hex, two digits
/// of either case to a byte, and accepts it where that gives 12 bytes;
/// `bytes` hands them out.
#[verifier::external_body]
pub(crate) fn parse_object_id(text: &str) -> (r: Option<[u8; 12]>)
    ensures
        match r {
            Some(b) => is_object_id_text(text@) && b@ == object_id_bytes(text@),
            None => !is_object_id_text(text@),
        },
{
    bson::oid::ObjectId::parse_str(text).ok().map(|o| o.bytes())
}

/// How chrono writes a date, where year, month and day are a date.
pub uninterp spec fn text_of_date(date: Date) -> Option<Seq<char>>;

/// How chrono writes an instant as RFC 3339 asks, where seconds and
/// nanoseconds are an instant.
pub uninterp spec fn text_of_datetime(instant: DateTime) -> Option<Seq<char>>;

/// How rust_decimal writes a decimal, where mantissa and scale are a decimal.
pub uninterp spec fn text_of_decimal(decimal: Decimal) -> Option<Seq<char>>;

/// The decimal digits of a natural number, without leading zeros.
pub open spec fn decimal_text(n: nat) -> Seq<char>
    decreases n,
{
    if n < 10 {
        seq![digit_char(n)]
    } else {
        decimal_text(n / 10).push(digit_char(n % 10))
    }
}

/// The character for a digit below ten.
pub open spec fn digit_char(d: nat) -> char {
    if d == 0 {
        '0'
    } else if d == 1 {
        '1'
    } else if d == 2 {
        '2'
    } else if d == 3 {
        '3'
    } else if d == 4 {
        '4'
    } else if d == 5 {
        '5'
    } else if d == 6 {
        '6'
    } else if d == 7 {
        '7'
    } else if d == 8 {
        '8'
    } else {
        '9'
    }
}

/// The lower case hex digit of a number below sixteen.
pub open spec fn hex_digit(n: nat) -> char {
    if n < 10 {
        digit_char(n)
    } else if n == 10 {
        'a'
    } else if n == 11 {
        'b'
    } else if n == 12 {
        'c'
    } else if n == 13 {
        'd'
    } else if n == 14 {
        'e'
    } else {
        'f'
    }
}

/// Bytes in hex: two lower case digits for each byte, the high one first.
pub open spec fn hex_text(bytes: Seq<u8>) -> Seq<char> {
    Seq::new(
        2 * bytes.len(),
        |i: int|
            if i % 2 == 0 {
                hex_digit((bytes[i / 2] / 16) as nat)
            } else {
                hex_digit((bytes[i / 2] % 16) as nat)
            },
    )
}

/// An integer in decimal, with a minus sign where it is below zero.
pub open spec fn integer_text(i: int) -> Seq<char> {
    if i < 0 {
        seq!['-'] + decimal_text((-i) as nat)
    } else {
        decimal_text(i as nat)
    }
}

/// Writes a date.
///
/// Trusted: `NaiveDate::from_ymd_opt` gives the date of a year, month and
/// day or nothing, and `Display` writes it.
#[verifier::external_body]
pub(crate) fn write_date(date: Date) -> (r: Option<String>)
    ensures
        match r {
            Some(s) => text_of_date(date) == Some(s@),
            None => text_of_date(date) is None,
        },
{
    chrono::NaiveDate::from_ymd_opt(date.year, date.month, date.day).map(|d| d.to_string())
}

/// Writes an instant as RFC 3339 asks.
///
/// Trusted: `DateTime::from_timestamp` gives the instant in UTC of seconds
/// and nanoseconds or nothing, and `to_rfc3339` writes it.
#[verifier::external_body]
pub(crate) fn write_datetime(instant: DateTime) -> (r: Option<String>)
    ensures
        match r {
            Some(s) => text_of_datetime(instant) == Some(s@),
            None => text_of_datetime(instant) is None,
        },
{
    chrono::DateTime::from_timestamp(instant.seconds, instant.nanos).map(|d| d.to_rfc3339())
}

/// Writes a decimal.
///
/// Trusted: `Decimal::try_from_i128_with_scale` gives the decimal of a
/// mantissa and a scale or an error, and `Display` writes it.
#[verifier::external_body]
pub(crate) fn write_decimal(decimal: Decimal) -> (r: Option<String>)
    ensures
        match r {
            Some(s) => text_of_decimal(decimal) == Some(s@),
            None => text_of_decimal(decimal) is None,
        },
{
    rust_decimal::Decimal::try_from_i128_with_scale(decimal.mantissa, decimal.scale).ok().map(
        |d| d.to_string(),
    )
}

/// Writes an object id.
///
/// Trusted: bson's `ObjectId::to_hex` writes each of the 12 bytes as two
/// lower case hex digits.
#[verifier::external_body]
pub(crate) fn write_object_id(bytes: &[u8; 12]) -> (s: String)
    ensures
        s@ == hex_text(bytes@),
{
    bson::oid::ObjectId::from_bytes(*bytes).to_hex()
}

/// Writes a signed integer of up to 128 bits.
///
/// Trusted: `Display` for `i128` writes the decimal digits without leading
/// zeros, after a minus sign where the integer is below zero.
#[verifier::external_body]
pub(crate) fn write_signed(i: i128) -> (s: String)
    ensures
        s@ == integer_text(i as int),
{
    i.to_string()
}

/// Writes an unsigned integer of up to 128 bits.
///
/// Trusted: `Display` for `u128` writes the decimal digits without leading
/// zeros.
#[verifier::external_body]
pub(crate) fn write_unsigned(u: u128) -> (s: String)
    ensures
        s@ == integer_text(u as int),
{
    u.to_string()
}

} // verus!
