//! Errors of the decoder and of key parsing.
use vstd::prelude::*;

verus! {

/// Why a line could not be decoded into a record.
#[derive(Debug)]
pub enum Error {
    /// Reading the underlying source failed; holds the reader's message.
    Io(String),
    /// A fixed-width field that must be a number is not one; holds the field.
    ParseInt(String),
    /// A date field is a number but names no day of the calendar; holds the field.
    InvalidDate(String),
    /// The record type code is none of the known ones.
    InvalidType(u8),
    /// A category code ("Textkennzeichen") is none of the known ones.
    InvalidTextkennzeichen(u8),
    /// A key field could not be parsed.
    ParseKey(ParseKeyError),
}

/// Why a key string could not be parsed.
#[derive(Debug)]
pub enum ParseKeyError {
    /// The string has `got` characters where the key has `expected`.
    InvalidLength { expected: usize, got: usize, s: String },
    /// The string holds a character that is not a decimal digit.
    NonNumeric(String),
}

impl ParseKeyError {
    /// The error for a key string `s` that should have `expected` characters.
    pub fn invalid_length(s: &str, expected: usize) -> (r: Self)
        ensures
            r matches ParseKeyError::InvalidLength { expected: e, got, s: t } && e == expected
                && got == s@.len() && t@ == s@,
    {
        ParseKeyError::InvalidLength { expected, got: s.unicode_len(), s: s.to_owned() }
    }

    /// The error for a key string `s` that holds a non-digit.
    pub fn non_numeric(s: &str) -> (r: Self)
        ensures
            r matches ParseKeyError::NonNumeric(t) && t@ == s@,
    {
        ParseKeyError::NonNumeric(s.to_owned())
    }
}

} // verus!
