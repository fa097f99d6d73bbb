//! Districts ("Kreise"), the third level.
use vstd::prelude::*;

use crate::error::{Error, ParseKeyError};
use crate::field::FromField;
use crate::model::datum::Datum;
use crate::model::key::{
    check_key_text, component, component_value, key_error_for, key_text_ok, lemma_component_text,
    lemma_pow10_small, Schluessel,
};
use crate::model::land::LandSchluessel;
use crate::model::regierungsbezirk::RegierungsbezirkSchluessel;
use crate::text::{all_digits, push_zero_padded, zero_padded};

verus! {

/// Key of a district: the government-district key and two digits.
#[derive(Copy, Clone, Debug, PartialEq, Eq, Structural, PartialOrd, Ord, Hash)]
pub struct KreisSchluessel {
    pub regierungsbezirk: RegierungsbezirkSchluessel,
    pub kreis: u8,
}

impl KreisSchluessel {
    pub fn new(regierungsbezirk: RegierungsbezirkSchluessel, kreis: u8) -> (r: Self)
        ensures
            r.regierungsbezirk == regierungsbezirk,
            r.kreis == kreis,
    {
        Self { regierungsbezirk, kreis }
    }

    /// The key that the first 5 digits of `s` spell.
    pub open spec fn from_digits(s: Seq<char>) -> Self {
        KreisSchluessel {
            regierungsbezirk: RegierungsbezirkSchluessel::from_digits(s),
            kreis: component(s, 3, 5) as u8,
        }
    }

    /// The canonical string form: each component zero-padded to its width.
    pub open spec fn text(&self) -> Seq<char> {
        self.regierungsbezirk.text() + zero_padded(self.kreis as nat, 2)
    }

    /// Parses the 5-digit string form.
    pub fn parse(s: &str) -> (r: Result<Self, ParseKeyError>)
        ensures
            r is Ok <==> key_text_ok(s@, 5),
            r matches Ok(k) ==> k == Self::from_digits(s@),
            r matches Err(e) ==> key_error_for(s@, 5, e),
    {
        match check_key_text(s, 5) {
            Err(e) => Err(e),
            Ok(()) => Ok(Self::read_digits(s)),
        }
    }

    /// The key that the first 5 characters of `s`, all digits, spell.
    pub(crate) fn read_digits(s: &str) -> (r: Self)
        requires
            all_digits(s@),
            5 <= s@.len(),
        ensures
            r == Self::from_digits(s@),
    {
        proof {
            lemma_pow10_small();
        }
        Self::new(RegierungsbezirkSchluessel::read_digits(s), component_value(s, 3, 5) as u8)
    }

    /// The canonical string form.
    pub fn to_string(&self) -> (r: String)
        ensures
            r@ == self.text(),
    {
        let mut s = self.regierungsbezirk.to_string();
        push_zero_padded(&mut s, self.kreis as u64, 2);
        s
    }

    /// Round trip: the key that a string of digits spells renders back to
    /// those digits.
    pub proof fn lemma_text_from_digits(s: Seq<char>)
        requires
            all_digits(s),
            5 <= s.len(),
        ensures
            Self::from_digits(s).text() == s.subrange(0, 5),
    {
        lemma_pow10_small();
        RegierungsbezirkSchluessel::lemma_text_from_digits(s);
        lemma_component_text(s, 3, 5);
        assert(s.subrange(0, 5) =~= s.subrange(0, 3) + s.subrange(3, 5));
    }
}

impl Schluessel for KreisSchluessel {
    open spec fn rank(&self) -> int {
        self.regierungsbezirk.rank() * 256 + self.kreis as int
    }

    open spec fn rank_limit() -> int {
        16777216
    }

    fn code(&self) -> (r: u64) {
        proof {
            RegierungsbezirkSchluessel::lemma_rank_injective(self.regierungsbezirk, self.regierungsbezirk);
        }
        let p = self.regierungsbezirk.code();
        assert(p as int == self.regierungsbezirk.rank());
        let r = p * 256 + self.kreis as u64;
        assert(r as int == p as int * 256 + self.kreis as int);
        assert(self.rank() == self.regierungsbezirk.rank() * 256 + self.kreis as int);
        r
    }

    proof fn lemma_rank_injective(a: Self, b: Self) {
        RegierungsbezirkSchluessel::lemma_rank_injective(a.regierungsbezirk, b.regierungsbezirk);
    }
}

impl FromField for KreisSchluessel {
    open spec fn decodable(s: Seq<char>) -> bool {
        key_text_ok(s, 5)
    }

    open spec fn decodes(s: Seq<char>, v: Self) -> bool {
        v == Self::from_digits(s)
    }

    open spec fn rejects(s: Seq<char>, e: Error) -> bool {
        e matches Error::ParseKey(k) && key_error_for(s, 5, k)
    }

    fn from_field(s: &str) -> (r: Result<Self, Error>) {
        match Self::parse(s) {
            Ok(k) => Ok(k),
            Err(e) => Err(Error::ParseKey(e)),
        }
    }
}

impl core::str::FromStr for KreisSchluessel {
    type Err = ParseKeyError;

    fn from_str(s: &str) -> Result<Self, ParseKeyError> {
        Self::parse(s)
    }
}

impl From<KreisSchluessel> for RegierungsbezirkSchluessel {
    fn from(k: KreisSchluessel) -> Self {
        k.regierungsbezirk
    }
}

impl vstd::std_specs::convert::FromSpecImpl<KreisSchluessel> for RegierungsbezirkSchluessel {
    open spec fn obeys_from_spec() -> bool {
        true
    }

    open spec fn from_spec(k: KreisSchluessel) -> Self {
        k.regierungsbezirk
    }
}

impl From<KreisSchluessel> for LandSchluessel {
    fn from(k: KreisSchluessel) -> Self {
        k.regierungsbezirk.land
    }
}

impl vstd::std_specs::convert::FromSpecImpl<KreisSchluessel> for LandSchluessel {
    open spec fn obeys_from_spec() -> bool {
        true
    }

    open spec fn from_spec(k: KreisSchluessel) -> Self {
        k.regierungsbezirk.land
    }
}

impl KreisSchluessel {
    /// The district `kreis` of a state without government districts: the
    /// government-district digit is 0.
    pub fn new_land(land: LandSchluessel, kreis: u8) -> (r: Self)
        ensures
            r.regierungsbezirk.land == land,
            r.regierungsbezirk.regierungsbezirk == 0,
            r.kreis == kreis,
    {
        Self { regierungsbezirk: RegierungsbezirkSchluessel::new(land, 0), kreis }
    }
}

/// A district record.
#[derive(Clone, Debug)]
pub struct KreisDaten {
    /// Effective date of the record.
    pub gebietsstand: Datum,
    pub schluessel: KreisSchluessel,
    pub name: String,
    /// Seat of the administration.
    pub sitz_verwaltung: String,
    /// Kind of district.
    pub textkennzeichen: KreisTextkennzeichen,
}

/// Kind of a district.
#[derive(Copy, Clone, Debug, PartialEq, Eq, Structural, Hash)]
pub enum KreisTextkennzeichen {
    KreisfreieStadt,
    Stadtkreis,
    Kreis,
    Landkreis,
    Regionalverband,
}

impl KreisTextkennzeichen {
    /// The category that code `n` stands for, if any.
    pub open spec fn of_code(n: u8) -> Option<Self> {
        if n == 41 {
            Some(KreisTextkennzeichen::KreisfreieStadt)
        } else if n == 42 {
            Some(KreisTextkennzeichen::Stadtkreis)
        } else if n == 43 {
            Some(KreisTextkennzeichen::Kreis)
        } else if n == 44 {
            Some(KreisTextkennzeichen::Landkreis)
        } else if n == 45 {
            Some(KreisTextkennzeichen::Regionalverband)
        } else {
            None
        }
    }

    /// Reads a category code.
    pub fn from_code(n: u8) -> (r: Result<Self, Error>)
        ensures
            r matches Ok(k) ==> Self::of_code(n) == Some(k),
            r matches Err(e) ==> Self::of_code(n) is None && e == Error::InvalidTextkennzeichen(n),
    {
        match n {
            41 => Ok(KreisTextkennzeichen::KreisfreieStadt),
            42 => Ok(KreisTextkennzeichen::Stadtkreis),
            43 => Ok(KreisTextkennzeichen::Kreis),
            44 => Ok(KreisTextkennzeichen::Landkreis),
            45 => Ok(KreisTextkennzeichen::Regionalverband),
            _ => Err(Error::InvalidTextkennzeichen(n)),
        }
    }
}

impl core::convert::TryFrom<u8> for KreisTextkennzeichen {
    type Error = Error;

    fn try_from(n: u8) -> Result<Self, Error> {
        Self::from_code(n)
    }
}

impl vstd::std_specs::convert::TryFromSpecImpl<u8> for KreisTextkennzeichen {
    open spec fn obeys_try_from_spec() -> bool {
        true
    }

    open spec fn try_from_spec(n: u8) -> Result<Self, Error> {
        match Self::of_code(n) {
            Some(k) => Ok(k),
            None => Err(Error::InvalidTextkennzeichen(n)),
        }
    }
}

} // verus!
