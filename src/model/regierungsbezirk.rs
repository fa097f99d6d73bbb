//! Government districts ("Regierungsbezirke"), the second level.
use vstd::prelude::*;

use crate::error::{Error, ParseKeyError};
use crate::field::FromField;
use crate::model::datum::Datum;
use crate::model::key::{
    check_key_text, component, component_value, key_error_for, key_text_ok, lemma_component_text,
    lemma_pow10_small, Schluessel,
};
use crate::model::land::LandSchluessel;
use crate::text::{all_digits, push_zero_padded, zero_padded};

verus! {

/// Key of a government district: the state key and one digit.
#[derive(Copy, Clone, Debug, PartialEq, Eq, Structural, PartialOrd, Ord, Hash)]
pub struct RegierungsbezirkSchluessel {
    pub land: LandSchluessel,
    pub regierungsbezirk: u8,
}

impl RegierungsbezirkSchluessel {
    pub fn new(land: LandSchluessel, regierungsbezirk: u8) -> (r: Self)
        ensures
            r.land == land,
            r.regierungsbezirk == regierungsbezirk,
    {
        Self { land, regierungsbezirk }
    }

    /// The key that the first 3 digits of `s` spell.
    pub open spec fn from_digits(s: Seq<char>) -> Self {
        RegierungsbezirkSchluessel {
            land: LandSchluessel::from_digits(s),
            regierungsbezirk: component(s, 2, 3) as u8,
        }
    }

    /// The canonical string form: each component zero-padded to its width.
    pub open spec fn text(&self) -> Seq<char> {
        self.land.text() + zero_padded(self.regierungsbezirk as nat, 1)
    }

    /// Parses the 3-digit string form.
    pub fn parse(s: &str) -> (r: Result<Self, ParseKeyError>)
        ensures
            r is Ok <==> key_text_ok(s@, 3),
            r matches Ok(k) ==> k == Self::from_digits(s@),
            r matches Err(e) ==> key_error_for(s@, 3, e),
    {
        match check_key_text(s, 3) {
            Err(e) => Err(e),
            Ok(()) => Ok(Self::read_digits(s)),
        }
    }

    /// The key that the first 3 characters of `s`, all digits, spell.
    pub(crate) fn read_digits(s: &str) -> (r: Self)
        requires
            all_digits(s@),
            3 <= s@.len(),
        ensures
            r == Self::from_digits(s@),
    {
        proof {
            lemma_pow10_small();
        }
        Self::new(LandSchluessel::read_digits(s), component_value(s, 2, 3) as u8)
    }

    /// The canonical string form.
    pub fn to_string(&self) -> (r: String)
        ensures
            r@ == self.text(),
    {
        let mut s = self.land.to_string();
        push_zero_padded(&mut s, self.regierungsbezirk as u64, 1);
        s
    }

    /// Round trip: the key that a string of digits spells renders back to
    /// those digits.
    pub proof fn lemma_text_from_digits(s: Seq<char>)
        requires
            all_digits(s),
            3 <= s.len(),
        ensures
            Self::from_digits(s).text() == s.subrange(0, 3),
    {
        lemma_pow10_small();
        LandSchluessel::lemma_text_from_digits(s);
        lemma_component_text(s, 2, 3);
        assert(s.subrange(0, 3) =~= s.subrange(0, 2) + s.subrange(2, 3));
    }
}

impl Schluessel for RegierungsbezirkSchluessel {
    open spec fn rank(&self) -> int {
        self.land.rank() * 256 + self.regierungsbezirk as int
    }

    open spec fn rank_limit() -> int {
        65536
    }

    fn code(&self) -> (r: u64) {
        proof {
            LandSchluessel::lemma_rank_injective(self.land, self.land);
        }
        let p = self.land.code();
        assert(p as int == self.land.rank());
        let r = p * 256 + self.regierungsbezirk as u64;
        assert(r as int == p as int * 256 + self.regierungsbezirk as int);
        assert(self.rank() == self.land.rank() * 256 + self.regierungsbezirk as int);
        r
    }

    proof fn lemma_rank_injective(a: Self, b: Self) {
        LandSchluessel::lemma_rank_injective(a.land, b.land);
    }
}

impl FromField for RegierungsbezirkSchluessel {
    open spec fn decodable(s: Seq<char>) -> bool {
        key_text_ok(s, 3)
    }

    open spec fn decodes(s: Seq<char>, v: Self) -> bool {
        v == Self::from_digits(s)
    }

    open spec fn rejects(s: Seq<char>, e: Error) -> bool {
        e matches Error::ParseKey(k) && key_error_for(s, 3, k)
    }

    fn from_field(s: &str) -> (r: Result<Self, Error>) {
        match Self::parse(s) {
            Ok(k) => Ok(k),
            Err(e) => Err(Error::ParseKey(e)),
        }
    }
}

impl core::str::FromStr for RegierungsbezirkSchluessel {
    type Err = ParseKeyError;

    fn from_str(s: &str) -> Result<Self, ParseKeyError> {
        Self::parse(s)
    }
}

impl From<RegierungsbezirkSchluessel> for LandSchluessel {
    fn from(k: RegierungsbezirkSchluessel) -> Self {
        k.land
    }
}

impl vstd::std_specs::convert::FromSpecImpl<RegierungsbezirkSchluessel> for LandSchluessel {
    open spec fn obeys_from_spec() -> bool {
        true
    }

    open spec fn from_spec(k: RegierungsbezirkSchluessel) -> Self {
        k.land
    }
}

/// A government-district record.
#[derive(Clone, Debug)]
pub struct RegierungsbezirkDaten {
    /// Effective date of the record.
    pub gebietsstand: Datum,
    pub schluessel: RegierungsbezirkSchluessel,
    pub name: String,
    /// Seat of the administration.
    pub sitz_verwaltung: String,
}

} // verus!
