//! Decoding of single fixed-width fields into values.
use vstd::prelude::*;

use crate::error::Error;
use crate::text::{numeral_up_to, parse_decimal};

verus! {

/// A type that a fixed-width field can be decoded into.
pub trait FromField: Sized {
    /// `s` is a field that decodes.
    spec fn decodable(s: Seq<char>) -> bool;

    /// `v` is the value of the decodable field `s`.
    spec fn decodes(s: Seq<char>, v: Self) -> bool;

    /// `e` is the error for the field `s` that does not decode.
    spec fn rejects(s: Seq<char>, e: Error) -> bool;

    fn from_field(s: &str) -> (r: Result<Self, Error>)
        ensures
            r is Ok <==> Self::decodable(s@),
            r matches Ok(v) ==> Self::decodes(s@, v),
            r matches Err(e) ==> Self::rejects(s@, e),
    ;
}

/// The characters `s[a..b]`, cut off where `s` ends.
pub open spec fn part(s: Seq<char>, a: int, b: int) -> Seq<char> {
    let n = s.len() as int;
    s.subrange(if a < n { a } else { n }, if b < n { b } else { n })
}

/// The characters `s[a..b]`, cut off where `s` ends.
pub fn part_of(s: &str, a: usize, b: usize) -> (r: &str)
    requires
        a <= b,
    ensures
        r@ == part(s@, a as int, b as int),
{
    let n = s.unicode_len();
    let x = if a < n { a } else { n };
    let y = if b < n { b } else { n };
    s.substring_char(x, y)
}

/// `e` reports the field `s` as not a number.
pub open spec fn not_a_number(s: Seq<char>, e: Error) -> bool {
    e matches Error::ParseInt(t) && t@ == s
}

/// Reads the field `s` as a number of at most `max`.
pub fn parse_number(s: &str, max: u64) -> (r: Result<u64, Error>)
    ensures
        r matches Ok(v) ==> numeral_up_to(s@, max as nat) == Some(v as nat),
        r is Err ==> numeral_up_to(s@, max as nat) is None,
        r matches Err(e) ==> not_a_number(s@, e),
{
    match parse_decimal(s) {
        Some(v) => {
            if v <= max {
                Ok(v)
            } else {
                Err(Error::ParseInt(s.to_owned()))
            }
        },
        None => Err(Error::ParseInt(s.to_owned())),
    }
}

impl FromField for u8 {
    open spec fn decodable(s: Seq<char>) -> bool {
        numeral_up_to(s, u8::MAX as nat) is Some
    }

    open spec fn decodes(s: Seq<char>, v: u8) -> bool {
        numeral_up_to(s, u8::MAX as nat) == Some(v as nat)
    }

    open spec fn rejects(s: Seq<char>, e: Error) -> bool {
        not_a_number(s, e)
    }

    fn from_field(s: &str) -> (r: Result<u8, Error>) {
        match parse_number(s, u8::MAX as u64) {
            Ok(v) => Ok(v as u8),
            Err(e) => Err(e),
        }
    }
}

impl FromField for u16 {
    open spec fn decodable(s: Seq<char>) -> bool {
        numeral_up_to(s, u16::MAX as nat) is Some
    }

    open spec fn decodes(s: Seq<char>, v: u16) -> bool {
        numeral_up_to(s, u16::MAX as nat) == Some(v as nat)
    }

    open spec fn rejects(s: Seq<char>, e: Error) -> bool {
        not_a_number(s, e)
    }

    fn from_field(s: &str) -> (r: Result<u16, Error>) {
        match parse_number(s, u16::MAX as u64) {
            Ok(v) => Ok(v as u16),
            Err(e) => Err(e),
        }
    }
}

impl FromField for u32 {
    open spec fn decodable(s: Seq<char>) -> bool {
        numeral_up_to(s, u32::MAX as nat) is Some
    }

    open spec fn decodes(s: Seq<char>, v: u32) -> bool {
        numeral_up_to(s, u32::MAX as nat) == Some(v as nat)
    }

    open spec fn rejects(s: Seq<char>, e: Error) -> bool {
        not_a_number(s, e)
    }

    fn from_field(s: &str) -> (r: Result<u32, Error>) {
        match parse_number(s, u32::MAX as u64) {
            Ok(v) => Ok(v as u32),
            Err(e) => Err(e),
        }
    }
}

impl FromField for u64 {
    open spec fn decodable(s: Seq<char>) -> bool {
        numeral_up_to(s, u64::MAX as nat) is Some
    }

    open spec fn decodes(s: Seq<char>, v: u64) -> bool {
        numeral_up_to(s, u64::MAX as nat) == Some(v as nat)
    }

    open spec fn rejects(s: Seq<char>, e: Error) -> bool {
        not_a_number(s, e)
    }

    fn from_field(s: &str) -> (r: Result<u64, Error>) {
        parse_number(s, u64::MAX)
    }
}

} // verus!
