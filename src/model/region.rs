//! Regions, a level of one state only, beside the districts.
use vstd::prelude::*;

use crate::error::{Error, ParseKeyError};
use crate::field::FromField;
use crate::model::datum::Datum;
use crate::model::key::{
    check_key_text, component, component_value, key_error_for, key_text_ok, lemma_component_text,
    lemma_pow10_small, Schluessel,
};
use crate::model::land::LandSchluessel;
use crate::model::regierungsbezirk::RegierungsbezirkSchluessel;
use crate::text::{all_digits, push_zero_padded, zero_padded};

verus! {

/// Key of a region: the government-district key and one digit.
#[derive(Copy, Clone, Debug, PartialEq, Eq, Structural, PartialOrd, Ord, Hash)]
pub struct RegionSchluessel {
    pub regierungsbezirk: RegierungsbezirkSchluessel,
    pub region: u8,
}

impl RegionSchluessel {
    pub fn new(regierungsbezirk: RegierungsbezirkSchluessel, region: u8) -> (r: Self)
        ensures
            r.regierungsbezirk == regierungsbezirk,
            r.region == region,
    {
        Self { regierungsbezirk, region }
    }

    /// The key that the first 4 digits of `s` spell.
    pub open spec fn from_digits(s: Seq<char>) -> Self {
        RegionSchluessel {
            regierungsbezirk: RegierungsbezirkSchluessel::from_digits(s),
            region: component(s, 3, 4) as u8,
        }
    }

    /// The canonical string form: each component zero-padded to its width.
    pub open spec fn text(&self) -> Seq<char> {
        self.regierungsbezirk.text() + zero_padded(self.region as nat, 1)
    }

    /// Parses the 4-digit string form.
    pub fn parse(s: &str) -> (r: Result<Self, ParseKeyError>)
        ensures
            r is Ok <==> key_text_ok(s@, 4),
            r matches Ok(k) ==> k == Self::from_digits(s@),
            r matches Err(e) ==> key_error_for(s@, 4, e),
    {
        match check_key_text(s, 4) {
            Err(e) => Err(e),
            Ok(()) => Ok(Self::read_digits(s)),
        }
    }

    /// The key that the first 4 characters of `s`, all digits, spell.
    pub(crate) fn read_digits(s: &str) -> (r: Self)
        requires
            all_digits(s@),
            4 <= s@.len(),
        ensures
            r == Self::from_digits(s@),
    {
        proof {
            lemma_pow10_small();
        }
        Self::new(RegierungsbezirkSchluessel::read_digits(s), component_value(s, 3, 4) as u8)
    }

    /// The canonical string form.
    pub fn to_string(&self) -> (r: String)
        ensures
            r@ == self.text(),
    {
        let mut s = self.regierungsbezirk.to_string();
        push_zero_padded(&mut s, self.region as u64, 1);
        s
    }

    /// Round trip: the key that a string of digits spells renders back to
    /// those digits.
    pub proof fn lemma_text_from_digits(s: Seq<char>)
        requires
            all_digits(s),
            4 <= s.len(),
        ensures
            Self::from_digits(s).text() == s.subrange(0, 4),
    {
        lemma_pow10_small();
        RegierungsbezirkSchluessel::lemma_text_from_digits(s);
        lemma_component_text(s, 3, 4);
        assert(s.subrange(0, 4) =~= s.subrange(0, 3) + s.subrange(3, 4));
    }
}

impl Schluessel for RegionSchluessel {
    open spec fn rank(&self) -> int {
        self.regierungsbezirk.rank() * 256 + self.region as int
    }

    open spec fn rank_limit() -> int {
        16777216
    }

    fn code(&self) -> (r: u64) {
        proof {
            RegierungsbezirkSchluessel::lemma_rank_injective(self.regierungsbezirk, self.regierungsbezirk);
        }
        let p = self.regierungsbezirk.code();
        assert(p as int == self.regierungsbezirk.rank());
        let r = p * 256 + self.region as u64;
        assert(r as int == p as int * 256 + self.region as int);
        assert(self.rank() == self.regierungsbezirk.rank() * 256 + self.region as int);
        r
    }

    proof fn lemma_rank_injective(a: Self, b: Self) {
        RegierungsbezirkSchluessel::lemma_rank_injective(a.regierungsbezirk, b.regierungsbezirk);
    }
}

impl FromField for RegionSchluessel {
    open spec fn decodable(s: Seq<char>) -> bool {
        key_text_ok(s, 4)
    }

    open spec fn decodes(s: Seq<char>, v: Self) -> bool {
        v == Self::from_digits(s)
    }

    open spec fn rejects(s: Seq<char>, e: Error) -> bool {
        e matches Error::ParseKey(k) && key_error_for(s, 4, k)
    }

    fn from_field(s: &str) -> (r: Result<Self, Error>) {
        match Self::parse(s) {
            Ok(k) => Ok(k),
            Err(e) => Err(Error::ParseKey(e)),
        }
    }
}

impl core::str::FromStr for RegionSchluessel {
    type Err = ParseKeyError;

    fn from_str(s: &str) -> Result<Self, ParseKeyError> {
        Self::parse(s)
    }
}

impl From<RegionSchluessel> for RegierungsbezirkSchluessel {
    fn from(k: RegionSchluessel) -> Self {
        k.regierungsbezirk
    }
}

impl vstd::std_specs::convert::FromSpecImpl<RegionSchluessel> for RegierungsbezirkSchluessel {
    open spec fn obeys_from_spec() -> bool {
        true
    }

    open spec fn from_spec(k: RegionSchluessel) -> Self {
        k.regierungsbezirk
    }
}

impl From<RegionSchluessel> for LandSchluessel {
    fn from(k: RegionSchluessel) -> Self {
        k.regierungsbezirk.land
    }
}

impl vstd::std_specs::convert::FromSpecImpl<RegionSchluessel> for LandSchluessel {
    open spec fn obeys_from_spec() -> bool {
        true
    }

    open spec fn from_spec(k: RegionSchluessel) -> Self {
        k.regierungsbezirk.land
    }
}

/// A region record.
#[derive(Clone, Debug)]
pub struct RegionDaten {
    /// Effective date of the record.
    pub gebietsstand: Datum,
    pub schluessel: RegionSchluessel,
    pub name: String,
    /// Seat of the administration.
    pub sitz_verwaltung: String,
}

} // verus!
