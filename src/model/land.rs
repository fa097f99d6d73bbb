//! States ("Laender"), the top level of the hierarchy.
use vstd::prelude::*;

use crate::error::{Error, ParseKeyError};
use crate::field::FromField;
use crate::model::datum::Datum;
use crate::model::key::{
    check_key_text, component, component_value, key_error_for, key_text_ok, lemma_component_text,
    lemma_pow10_small, Schluessel,
};
use crate::text::{all_digits, push_zero_padded, zero_padded};

verus! {

/// Key of a state: two digits.
#[derive(Copy, Clone, Debug, PartialEq, Eq, Structural, PartialOrd, Ord, Hash)]
pub struct LandSchluessel {
    pub land: u8,
}

impl LandSchluessel {
    pub fn new(land: u8) -> (r: Self)
        ensures
            r.land == land,
    {
        Self { land }
    }

    /// The key that the first 2 digits of `s` spell.
    pub open spec fn from_digits(s: Seq<char>) -> Self {
        LandSchluessel { land: component(s, 0, 2) as u8 }
    }

    /// The canonical string form: each component zero-padded to its width.
    pub open spec fn text(&self) -> Seq<char> {
        zero_padded(self.land as nat, 2)
    }

    /// Parses the 2-digit string form.
    pub fn parse(s: &str) -> (r: Result<Self, ParseKeyError>)
        ensures
            r is Ok <==> key_text_ok(s@, 2),
            r matches Ok(k) ==> k == Self::from_digits(s@),
            r matches Err(e) ==> key_error_for(s@, 2, e),
    {
        match check_key_text(s, 2) {
            Err(e) => Err(e),
            Ok(()) => Ok(Self::read_digits(s)),
        }
    }

    /// The key that the first 2 characters of `s`, all digits, spell.
    pub(crate) fn read_digits(s: &str) -> (r: Self)
        requires
            all_digits(s@),
            2 <= s@.len(),
        ensures
            r == Self::from_digits(s@),
    {
        proof {
            lemma_pow10_small();
        }
        Self::new(component_value(s, 0, 2) as u8)
    }

    /// The canonical string form.
    pub fn to_string(&self) -> (r: String)
        ensures
            r@ == self.text(),
    {
        let mut s = String::new();
        push_zero_padded(&mut s, self.land as u64, 2);
        s
    }

    /// Round trip: the key that a string of digits spells renders back to
    /// those digits.
    pub proof fn lemma_text_from_digits(s: Seq<char>)
        requires
            all_digits(s),
            2 <= s.len(),
        ensures
            Self::from_digits(s).text() == s.subrange(0, 2),
    {
        lemma_pow10_small();
        lemma_component_text(s, 0, 2);
    }
}

impl Schluessel for LandSchluessel {
    open spec fn rank(&self) -> int {
        self.land as int
    }

    open spec fn rank_limit() -> int {
        256
    }

    fn code(&self) -> (r: u64) {
        assert(self.rank() == self.land as int);
        self.land as u64
    }

    proof fn lemma_rank_injective(a: Self, b: Self) {
    }
}

impl FromField for LandSchluessel {
    open spec fn decodable(s: Seq<char>) -> bool {
        key_text_ok(s, 2)
    }

    open spec fn decodes(s: Seq<char>, v: Self) -> bool {
        v == Self::from_digits(s)
    }

    open spec fn rejects(s: Seq<char>, e: Error) -> bool {
        e matches Error::ParseKey(k) && key_error_for(s, 2, k)
    }

    fn from_field(s: &str) -> (r: Result<Self, Error>) {
        match Self::parse(s) {
            Ok(k) => Ok(k),
            Err(e) => Err(Error::ParseKey(e)),
        }
    }
}

impl core::str::FromStr for LandSchluessel {
    type Err = ParseKeyError;

    fn from_str(s: &str) -> Result<Self, ParseKeyError> {
        Self::parse(s)
    }
}


/// A state record.
#[derive(Clone, Debug)]
pub struct LandDaten {
    /// Effective date of the record.
    pub gebietsstand: Datum,
    pub schluessel: LandSchluessel,
    /// Name of the state (e.g. `Saarland`).
    pub name: String,
    /// Seat of the state government.
    pub sitz_regierung: String,
}

} // verus!
