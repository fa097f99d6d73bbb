//! Municipality associations ("Gemeindeverbaende"), the fourth level.
use vstd::prelude::*;

use crate::error::{Error, ParseKeyError};
use crate::field::FromField;
use crate::model::datum::Datum;
use crate::model::key::{
    check_key_text, component, component_value, key_error_for, key_text_ok, lemma_component_text,
    lemma_pow10_small, Schluessel,
};
use crate::model::kreis::KreisSchluessel;
use crate::model::land::LandSchluessel;
use crate::model::regierungsbezirk::RegierungsbezirkSchluessel;
use crate::text::{all_digits, push_zero_padded, zero_padded};

verus! {

/// Key of a municipality association: the district key and four digits.
#[derive(Copy, Clone, Debug, PartialEq, Eq, Structural, PartialOrd, Ord, Hash)]
pub struct GemeindeverbandSchluessel {
    pub kreis: KreisSchluessel,
    pub gemeindeverband: u16,
}

impl GemeindeverbandSchluessel {
    pub fn new(kreis: KreisSchluessel, gemeindeverband: u16) -> (r: Self)
        ensures
            r.kreis == kreis,
            r.gemeindeverband == gemeindeverband,
    {
        Self { kreis, gemeindeverband }
    }

    /// The key that the first 9 digits of `s` spell.
    pub open spec fn from_digits(s: Seq<char>) -> Self {
        GemeindeverbandSchluessel {
            kreis: KreisSchluessel::from_digits(s),
            gemeindeverband: component(s, 5, 9) as u16,
        }
    }

    /// The canonical string form: each component zero-padded to its width.
    pub open spec fn text(&self) -> Seq<char> {
        self.kreis.text() + zero_padded(self.gemeindeverband as nat, 4)
    }

    /// Parses the 9-digit string form.
    pub fn parse(s: &str) -> (r: Result<Self, ParseKeyError>)
        ensures
            r is Ok <==> key_text_ok(s@, 9),
            r matches Ok(k) ==> k == Self::from_digits(s@),
            r matches Err(e) ==> key_error_for(s@, 9, e),
    {
        match check_key_text(s, 9) {
            Err(e) => Err(e),
            Ok(()) => Ok(Self::read_digits(s)),
        }
    }

    /// The key that the first 9 characters of `s`, all digits, spell.
    pub(crate) fn read_digits(s: &str) -> (r: Self)
        requires
            all_digits(s@),
            9 <= s@.len(),
        ensures
            r == Self::from_digits(s@),
    {
        proof {
            lemma_pow10_small();
        }
        Self::new(KreisSchluessel::read_digits(s), component_value(s, 5, 9) as u16)
    }

    /// The canonical string form.
    pub fn to_string(&self) -> (r: String)
        ensures
            r@ == self.text(),
    {
        let mut s = self.kreis.to_string();
        push_zero_padded(&mut s, self.gemeindeverband as u64, 4);
        s
    }

    /// Round trip: the key that a string of digits spells renders back to
    /// those digits.
    pub proof fn lemma_text_from_digits(s: Seq<char>)
        requires
            all_digits(s),
            9 <= s.len(),
        ensures
            Self::from_digits(s).text() == s.subrange(0, 9),
    {
        lemma_pow10_small();
        KreisSchluessel::lemma_text_from_digits(s);
        lemma_component_text(s, 5, 9);
        assert(s.subrange(0, 9) =~= s.subrange(0, 5) + s.subrange(5, 9));
    }
}

impl Schluessel for GemeindeverbandSchluessel {
    open spec fn rank(&self) -> int {
        self.kreis.rank() * 65536 + self.gemeindeverband as int
    }

    open spec fn rank_limit() -> int {
        1099511627776
    }

    fn code(&self) -> (r: u64) {
        proof {
            KreisSchluessel::lemma_rank_injective(self.kreis, self.kreis);
        }
        let p = self.kreis.code();
        assert(p as int == self.kreis.rank());
        let r = p * 65536 + self.gemeindeverband as u64;
        assert(r as int == p as int * 65536 + self.gemeindeverband as int);
        assert(self.rank() == self.kreis.rank() * 65536 + self.gemeindeverband as int);
        r
    }

    proof fn lemma_rank_injective(a: Self, b: Self) {
        KreisSchluessel::lemma_rank_injective(a.kreis, b.kreis);
    }
}

impl FromField for GemeindeverbandSchluessel {
    open spec fn decodable(s: Seq<char>) -> bool {
        key_text_ok(s, 9)
    }

    open spec fn decodes(s: Seq<char>, v: Self) -> bool {
        v == Self::from_digits(s)
    }

    open spec fn rejects(s: Seq<char>, e: Error) -> bool {
        e matches Error::ParseKey(k) && key_error_for(s, 9, k)
    }

    fn from_field(s: &str) -> (r: Result<Self, Error>) {
        match Self::parse(s) {
            Ok(k) => Ok(k),
            Err(e) => Err(Error::ParseKey(e)),
        }
    }
}

impl core::str::FromStr for GemeindeverbandSchluessel {
    type Err = ParseKeyError;

    fn from_str(s: &str) -> Result<Self, ParseKeyError> {
        Self::parse(s)
    }
}

impl From<GemeindeverbandSchluessel> for KreisSchluessel {
    fn from(k: GemeindeverbandSchluessel) -> Self {
        k.kreis
    }
}

impl vstd::std_specs::convert::FromSpecImpl<GemeindeverbandSchluessel> for KreisSchluessel {
    open spec fn obeys_from_spec() -> bool {
        true
    }

    open spec fn from_spec(k: GemeindeverbandSchluessel) -> Self {
        k.kreis
    }
}

impl From<GemeindeverbandSchluessel> for RegierungsbezirkSchluessel {
    fn from(k: GemeindeverbandSchluessel) -> Self {
        k.kreis.regierungsbezirk
    }
}

impl vstd::std_specs::convert::FromSpecImpl<GemeindeverbandSchluessel> for RegierungsbezirkSchluessel {
    open spec fn obeys_from_spec() -> bool {
        true
    }

    open spec fn from_spec(k: GemeindeverbandSchluessel) -> Self {
        k.kreis.regierungsbezirk
    }
}

impl From<GemeindeverbandSchluessel> for LandSchluessel {
    fn from(k: GemeindeverbandSchluessel) -> Self {
        k.kreis.regierungsbezirk.land
    }
}

impl vstd::std_specs::convert::FromSpecImpl<GemeindeverbandSchluessel> for LandSchluessel {
    open spec fn obeys_from_spec() -> bool {
        true
    }

    open spec fn from_spec(k: GemeindeverbandSchluessel) -> Self {
        k.kreis.regierungsbezirk.land
    }
}

/// A municipality-association record.
#[derive(Clone, Debug)]
pub struct GemeindeverbandDaten {
    /// Effective date of the record.
    pub gebietsstand: Datum,
    pub schluessel: GemeindeverbandSchluessel,
    pub name: String,
    /// Seat of the administration; `None` where the field is blank.
    pub sitz_verwaltung: Option<String>,
    /// Kind of association.
    pub textkennzeichen: GemeindeverbandTextkennzeichen,
}

/// Kind of a municipality association.
#[derive(Copy, Clone, Debug, PartialEq, Eq, Structural, Hash)]
pub enum GemeindeverbandTextkennzeichen {
    VerbandsfreieGemeinde,
    Amt,
    Samtgemeinde,
    Verbandsgemeinde,
    Verwaltungsgemeinschaft,
    Kirchspielslandgemeinde,
    Verwaltungsverband,
    VGTraegermodell,
    ErfuellendeGemeinde,
}

impl GemeindeverbandTextkennzeichen {
    /// The category that code `n` stands for, if any.
    pub open spec fn of_code(n: u8) -> Option<Self> {
        if n == 50 {
            Some(GemeindeverbandTextkennzeichen::VerbandsfreieGemeinde)
        } else if n == 51 {
            Some(GemeindeverbandTextkennzeichen::Amt)
        } else if n == 52 {
            Some(GemeindeverbandTextkennzeichen::Samtgemeinde)
        } else if n == 53 {
            Some(GemeindeverbandTextkennzeichen::Verbandsgemeinde)
        } else if n == 54 {
            Some(GemeindeverbandTextkennzeichen::Verwaltungsgemeinschaft)
        } else if n == 55 {
            Some(GemeindeverbandTextkennzeichen::Kirchspielslandgemeinde)
        } else if n == 56 {
            Some(GemeindeverbandTextkennzeichen::Verwaltungsverband)
        } else if n == 57 {
            Some(GemeindeverbandTextkennzeichen::VGTraegermodell)
        } else if n == 58 {
            Some(GemeindeverbandTextkennzeichen::ErfuellendeGemeinde)
        } else {
            None
        }
    }

    /// Reads a category code.
    pub fn from_code(n: u8) -> (r: Result<Self, Error>)
        ensures
            r matches Ok(k) ==> Self::of_code(n) == Some(k),
            r matches Err(e) ==> Self::of_code(n) is None && e == Error::InvalidTextkennzeichen(n),
    {
        match n {
            50 => Ok(GemeindeverbandTextkennzeichen::VerbandsfreieGemeinde),
            51 => Ok(GemeindeverbandTextkennzeichen::Amt),
            52 => Ok(GemeindeverbandTextkennzeichen::Samtgemeinde),
            53 => Ok(GemeindeverbandTextkennzeichen::Verbandsgemeinde),
            54 => Ok(GemeindeverbandTextkennzeichen::Verwaltungsgemeinschaft),
            55 => Ok(GemeindeverbandTextkennzeichen::Kirchspielslandgemeinde),
            56 => Ok(GemeindeverbandTextkennzeichen::Verwaltungsverband),
            57 => Ok(GemeindeverbandTextkennzeichen::VGTraegermodell),
            58 => Ok(GemeindeverbandTextkennzeichen::ErfuellendeGemeinde),
            _ => Err(Error::InvalidTextkennzeichen(n)),
        }
    }
}

impl core::convert::TryFrom<u8> for GemeindeverbandTextkennzeichen {
    type Error = Error;

    fn try_from(n: u8) -> Result<Self, Error> {
        Self::from_code(n)
    }
}

impl vstd::std_specs::convert::TryFromSpecImpl<u8> for GemeindeverbandTextkennzeichen {
    open spec fn obeys_try_from_spec() -> bool {
        true
    }

    open spec fn try_from_spec(n: u8) -> Result<Self, Error> {
        match Self::of_code(n) {
            Some(k) => Ok(k),
            None => Err(Error::InvalidTextkennzeichen(n)),
        }
    }
}

} // verus!
