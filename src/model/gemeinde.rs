//! Municipalities ("Gemeinden"), the lowest level, with their short-form key.
use vstd::prelude::*;

use crate::error::{Error, ParseKeyError};
use crate::field::{not_a_number, parse_number, part, part_of, FromField};
use crate::model::datum::Datum;
use crate::model::gemeindeverband::GemeindeverbandSchluessel;
use crate::model::key::{
    check_key_text, component, component_value, key_error_for, key_text_ok, lemma_component_text,
    lemma_pow10_small, Schluessel,
};
use crate::model::kreis::KreisSchluessel;
use crate::model::land::LandSchluessel;
use crate::model::regierungsbezirk::RegierungsbezirkSchluessel;
use crate::text::{all_digits, all_spaces, is_blank, numeral_up_to, push_zero_padded, zero_padded};

verus! {

/// Short-form key of a municipality: the district key and the three-digit
/// municipality number, without the association.
#[derive(Copy, Clone, Debug, PartialEq, Eq, Structural, PartialOrd, Ord, Hash)]
pub struct RegionalSchluessel {
    pub kreis: KreisSchluessel,
    pub gemeinde: u16,
}

impl RegionalSchluessel {
    pub fn new(kreis: KreisSchluessel, gemeinde: u16) -> (r: Self)
        ensures
            r.kreis == kreis,
            r.gemeinde == gemeinde,
    {
        Self { kreis, gemeinde }
    }

    /// The key that the first 8 digits of `s` spell.
    pub open spec fn from_digits(s: Seq<char>) -> Self {
        RegionalSchluessel {
            kreis: KreisSchluessel::from_digits(s),
            gemeinde: component(s, 5, 8) as u16,
        }
    }

    /// The canonical string form: each component zero-padded to its width.
    pub open spec fn text(&self) -> Seq<char> {
        self.kreis.text() + zero_padded(self.gemeinde as nat, 3)
    }

    /// Parses the 8-digit string form.
    pub fn parse(s: &str) -> (r: Result<Self, ParseKeyError>)
        ensures
            r is Ok <==> key_text_ok(s@, 8),
            r matches Ok(k) ==> k == Self::from_digits(s@),
            r matches Err(e) ==> key_error_for(s@, 8, e),
    {
        match check_key_text(s, 8) {
            Err(e) => Err(e),
            Ok(()) => Ok(Self::read_digits(s)),
        }
    }

    /// The key that the first 8 characters of `s`, all digits, spell.
    pub(crate) fn read_digits(s: &str) -> (r: Self)
        requires
            all_digits(s@),
            8 <= s@.len(),
        ensures
            r == Self::from_digits(s@),
    {
        proof {
            lemma_pow10_small();
        }
        Self::new(KreisSchluessel::read_digits(s), component_value(s, 5, 8) as u16)
    }

    /// The canonical string form.
    pub fn to_string(&self) -> (r: String)
        ensures
            r@ == self.text(),
    {
        let mut s = self.kreis.to_string();
        push_zero_padded(&mut s, self.gemeinde as u64, 3);
        s
    }

    /// Round trip: the key that a string of digits spells renders back to
    /// those digits.
    pub proof fn lemma_text_from_digits(s: Seq<char>)
        requires
            all_digits(s),
            8 <= s.len(),
        ensures
            Self::from_digits(s).text() == s.subrange(0, 8),
    {
        lemma_pow10_small();
        KreisSchluessel::lemma_text_from_digits(s);
        lemma_component_text(s, 5, 8);
        assert(s.subrange(0, 8) =~= s.subrange(0, 5) + s.subrange(5, 8));
    }
}

impl Schluessel for RegionalSchluessel {
    open spec fn rank(&self) -> int {
        self.kreis.rank() * 65536 + self.gemeinde as int
    }

    open spec fn rank_limit() -> int {
        1099511627776
    }

    fn code(&self) -> (r: u64) {
        proof {
            KreisSchluessel::lemma_rank_injective(self.kreis, self.kreis);
        }
        let p = self.kreis.code();
        assert(p as int == self.kreis.rank());
        let r = p * 65536 + self.gemeinde as u64;
        assert(r as int == p as int * 65536 + self.gemeinde as int);
        assert(self.rank() == self.kreis.rank() * 65536 + self.gemeinde as int);
        r
    }

    proof fn lemma_rank_injective(a: Self, b: Self) {
        KreisSchluessel::lemma_rank_injective(a.kreis, b.kreis);
    }
}

impl FromField for RegionalSchluessel {
    open spec fn decodable(s: Seq<char>) -> bool {
        key_text_ok(s, 8)
    }

    open spec fn decodes(s: Seq<char>, v: Self) -> bool {
        v == Self::from_digits(s)
    }

    open spec fn rejects(s: Seq<char>, e: Error) -> bool {
        e matches Error::ParseKey(k) && key_error_for(s, 8, k)
    }

    fn from_field(s: &str) -> (r: Result<Self, Error>) {
        match Self::parse(s) {
            Ok(k) => Ok(k),
            Err(e) => Err(Error::ParseKey(e)),
        }
    }
}

impl core::str::FromStr for RegionalSchluessel {
    type Err = ParseKeyError;

    fn from_str(s: &str) -> Result<Self, ParseKeyError> {
        Self::parse(s)
    }
}

impl From<RegionalSchluessel> for KreisSchluessel {
    fn from(k: RegionalSchluessel) -> Self {
        k.kreis
    }
}

impl vstd::std_specs::convert::FromSpecImpl<RegionalSchluessel> for KreisSchluessel {
    open spec fn obeys_from_spec() -> bool {
        true
    }

    open spec fn from_spec(k: RegionalSchluessel) -> Self {
        k.kreis
    }
}

impl From<RegionalSchluessel> for RegierungsbezirkSchluessel {
    fn from(k: RegionalSchluessel) -> Self {
        k.kreis.regierungsbezirk
    }
}

impl vstd::std_specs::convert::FromSpecImpl<RegionalSchluessel> for RegierungsbezirkSchluessel {
    open spec fn obeys_from_spec() -> bool {
        true
    }

    open spec fn from_spec(k: RegionalSchluessel) -> Self {
        k.kreis.regierungsbezirk
    }
}

impl From<RegionalSchluessel> for LandSchluessel {
    fn from(k: RegionalSchluessel) -> Self {
        k.kreis.regierungsbezirk.land
    }
}

impl vstd::std_specs::convert::FromSpecImpl<RegionalSchluessel> for LandSchluessel {
    open spec fn obeys_from_spec() -> bool {
        true
    }

    open spec fn from_spec(k: RegionalSchluessel) -> Self {
        k.kreis.regierungsbezirk.land
    }
}

/// Key of a municipality: the association key and three digits.
#[derive(Copy, Clone, Debug, PartialEq, Eq, Structural, PartialOrd, Ord, Hash)]
pub struct GemeindeSchluessel {
    pub gemeindeverband: GemeindeverbandSchluessel,
    pub gemeinde: u16,
}

impl GemeindeSchluessel {
    pub fn new(gemeindeverband: GemeindeverbandSchluessel, gemeinde: u16) -> (r: Self)
        ensures
            r.gemeindeverband == gemeindeverband,
            r.gemeinde == gemeinde,
    {
        Self { gemeindeverband, gemeinde }
    }

    /// The key that the first 12 digits of `s` spell.
    pub open spec fn from_digits(s: Seq<char>) -> Self {
        GemeindeSchluessel {
            gemeindeverband: GemeindeverbandSchluessel::from_digits(s),
            gemeinde: component(s, 9, 12) as u16,
        }
    }

    /// The canonical string form: each component zero-padded to its width.
    pub open spec fn text(&self) -> Seq<char> {
        self.gemeindeverband.text() + zero_padded(self.gemeinde as nat, 3)
    }

    /// Parses the 12-digit string form.
    pub fn parse(s: &str) -> (r: Result<Self, ParseKeyError>)
        ensures
            r is Ok <==> key_text_ok(s@, 12),
            r matches Ok(k) ==> k == Self::from_digits(s@),
            r matches Err(e) ==> key_error_for(s@, 12, e),
    {
        match check_key_text(s, 12) {
            Err(e) => Err(e),
            Ok(()) => Ok(Self::read_digits(s)),
        }
    }

    /// The key that the first 12 characters of `s`, all digits, spell.
    pub(crate) fn read_digits(s: &str) -> (r: Self)
        requires
            all_digits(s@),
            12 <= s@.len(),
        ensures
            r == Self::from_digits(s@),
    {
        proof {
            lemma_pow10_small();
        }
        Self::new(GemeindeverbandSchluessel::read_digits(s), component_value(s, 9, 12) as u16)
    }

    /// The canonical string form.
    pub fn to_string(&self) -> (r: String)
        ensures
            r@ == self.text(),
    {
        let mut s = self.gemeindeverband.to_string();
        push_zero_padded(&mut s, self.gemeinde as u64, 3);
        s
    }

    /// Round trip: the key that a string of digits spells renders back to
    /// those digits.
    pub proof fn lemma_text_from_digits(s: Seq<char>)
        requires
            all_digits(s),
            12 <= s.len(),
        ensures
            Self::from_digits(s).text() == s.subrange(0, 12),
    {
        lemma_pow10_small();
        GemeindeverbandSchluessel::lemma_text_from_digits(s);
        lemma_component_text(s, 9, 12);
        assert(s.subrange(0, 12) =~= s.subrange(0, 9) + s.subrange(9, 12));
    }
}

impl Schluessel for GemeindeSchluessel {
    open spec fn rank(&self) -> int {
        self.gemeindeverband.rank() * 65536 + self.gemeinde as int
    }

    open spec fn rank_limit() -> int {
        72057594037927936
    }

    fn code(&self) -> (r: u64) {
        proof {
            GemeindeverbandSchluessel::lemma_rank_injective(self.gemeindeverband, self.gemeindeverband);
        }
        let p = self.gemeindeverband.code();
        assert(p as int == self.gemeindeverband.rank());
        let r = p * 65536 + self.gemeinde as u64;
        assert(r as int == p as int * 65536 + self.gemeinde as int);
        assert(self.rank() == self.gemeindeverband.rank() * 65536 + self.gemeinde as int);
        r
    }

    proof fn lemma_rank_injective(a: Self, b: Self) {
        GemeindeverbandSchluessel::lemma_rank_injective(a.gemeindeverband, b.gemeindeverband);
    }
}

impl FromField for GemeindeSchluessel {
    open spec fn decodable(s: Seq<char>) -> bool {
        key_text_ok(s, 12)
    }

    open spec fn decodes(s: Seq<char>, v: Self) -> bool {
        v == Self::from_digits(s)
    }

    open spec fn rejects(s: Seq<char>, e: Error) -> bool {
        e matches Error::ParseKey(k) && key_error_for(s, 12, k)
    }

    fn from_field(s: &str) -> (r: Result<Self, Error>) {
        match Self::parse(s) {
            Ok(k) => Ok(k),
            Err(e) => Err(Error::ParseKey(e)),
        }
    }
}

impl core::str::FromStr for GemeindeSchluessel {
    type Err = ParseKeyError;

    fn from_str(s: &str) -> Result<Self, ParseKeyError> {
        Self::parse(s)
    }
}

impl From<GemeindeSchluessel> for GemeindeverbandSchluessel {
    fn from(k: GemeindeSchluessel) -> Self {
        k.gemeindeverband
    }
}

impl vstd::std_specs::convert::FromSpecImpl<GemeindeSchluessel> for GemeindeverbandSchluessel {
    open spec fn obeys_from_spec() -> bool {
        true
    }

    open spec fn from_spec(k: GemeindeSchluessel) -> Self {
        k.gemeindeverband
    }
}

impl From<GemeindeSchluessel> for KreisSchluessel {
    fn from(k: GemeindeSchluessel) -> Self {
        k.gemeindeverband.kreis
    }
}

impl vstd::std_specs::convert::FromSpecImpl<GemeindeSchluessel> for KreisSchluessel {
    open spec fn obeys_from_spec() -> bool {
        true
    }

    open spec fn from_spec(k: GemeindeSchluessel) -> Self {
        k.gemeindeverband.kreis
    }
}

impl From<GemeindeSchluessel> for RegierungsbezirkSchluessel {
    fn from(k: GemeindeSchluessel) -> Self {
        k.gemeindeverband.kreis.regierungsbezirk
    }
}

impl vstd::std_specs::convert::FromSpecImpl<GemeindeSchluessel> for RegierungsbezirkSchluessel {
    open spec fn obeys_from_spec() -> bool {
        true
    }

    open spec fn from_spec(k: GemeindeSchluessel) -> Self {
        k.gemeindeverband.kreis.regierungsbezirk
    }
}

impl From<GemeindeSchluessel> for LandSchluessel {
    fn from(k: GemeindeSchluessel) -> Self {
        k.gemeindeverband.kreis.regierungsbezirk.land
    }
}

impl vstd::std_specs::convert::FromSpecImpl<GemeindeSchluessel> for LandSchluessel {
    open spec fn obeys_from_spec() -> bool {
        true
    }

    open spec fn from_spec(k: GemeindeSchluessel) -> Self {
        k.gemeindeverband.kreis.regierungsbezirk.land
    }
}

impl RegionalSchluessel {
    /// The full key of this municipality within association `gemeindeverband`.
    pub fn to_gemeinde_schluessel(self, gemeindeverband: u16) -> (r: GemeindeSchluessel)
        ensures
            r.gemeindeverband.kreis == self.kreis,
            r.gemeindeverband.gemeindeverband == gemeindeverband,
            r.gemeinde == self.gemeinde,
    {
        GemeindeSchluessel::from_regional_schluessel(self, gemeindeverband)
    }
}

impl GemeindeSchluessel {
    /// The full key of the municipality `regional_schluessel` within
    /// association `gemeindeverband`.
    pub fn from_regional_schluessel(regional_schluessel: RegionalSchluessel, gemeindeverband: u16) -> (r:
        Self)
        ensures
            r.gemeindeverband.kreis == regional_schluessel.kreis,
            r.gemeindeverband.gemeindeverband == gemeindeverband,
            r.gemeinde == regional_schluessel.gemeinde,
    {
        Self {
            gemeindeverband: GemeindeverbandSchluessel::new(regional_schluessel.kreis, gemeindeverband),
            gemeinde: regional_schluessel.gemeinde,
        }
    }

    /// The short-form key: the same municipality without its association.
    pub open spec fn regional(&self) -> RegionalSchluessel {
        RegionalSchluessel { kreis: self.gemeindeverband.kreis, gemeinde: self.gemeinde }
    }
}

impl From<GemeindeSchluessel> for RegionalSchluessel {
    fn from(k: GemeindeSchluessel) -> Self {
        RegionalSchluessel { kreis: k.gemeindeverband.kreis, gemeinde: k.gemeinde }
    }
}

impl vstd::std_specs::convert::FromSpecImpl<GemeindeSchluessel> for RegionalSchluessel {
    open spec fn obeys_from_spec() -> bool {
        true
    }

    open spec fn from_spec(k: GemeindeSchluessel) -> Self {
        k.regional()
    }
}

/// A municipality record.
#[derive(Clone, Debug)]
pub struct GemeindeDaten {
    /// Effective date of the record.
    pub gebietsstand: Datum,
    pub schluessel: GemeindeSchluessel,
    pub name: String,
    /// Kind of municipality.
    pub textkennzeichen: GemeindeTextkennzeichen,
    /// Area in hectares.
    pub area: u64,
    pub population_total: u64,
    pub population_male: u64,
    /// Postal code.
    pub plz: String,
    /// Whether the municipality has this postal code alone.
    pub plz_unambiguous: bool,
    /// Tax-office district.
    pub finanzamtbezirk: Option<u16>,
    /// Court districts.
    pub gerichtbarkeit: Option<Gerichtbarkeit>,
    /// Labor-agency district.
    pub arbeitsargenturbezirk: Option<u32>,
    /// Parliamentary constituencies.
    pub bundestagswahlkreise: Option<Bundestagswahlkreise>,
}

impl GemeindeDaten {
    /// The short-form key of this municipality.
    pub fn regional_schluessel(&self) -> (r: RegionalSchluessel)
        ensures
            r == self.schluessel.regional(),
    {
        RegionalSchluessel::from(self.schluessel)
    }
}

/// The court districts of a municipality.
#[derive(Clone, Debug)]
pub struct Gerichtbarkeit {
    /// Higher regional court: one character.
    pub oberlandesgericht: String,
    /// Regional court: one character.
    pub landgericht: String,
    /// Local court: two characters.
    pub amtsgericht: String,
}

impl FromField for Gerichtbarkeit {
    open spec fn decodable(s: Seq<char>) -> bool {
        true
    }

    open spec fn decodes(s: Seq<char>, v: Self) -> bool {
        &&& v.oberlandesgericht@ == part(s, 0, 1)
        &&& v.landgericht@ == part(s, 1, 2)
        &&& v.amtsgericht@ == part(s, 2, 4)
    }

    open spec fn rejects(s: Seq<char>, e: Error) -> bool {
        false
    }

    fn from_field(s: &str) -> (r: Result<Self, Error>) {
        Ok(Gerichtbarkeit {
            oberlandesgericht: part_of(s, 0, 1).to_owned(),
            landgericht: part_of(s, 1, 2).to_owned(),
            amtsgericht: part_of(s, 2, 4).to_owned(),
        })
    }
}

impl core::str::FromStr for Gerichtbarkeit {
    type Err = Error;

    fn from_str(s: &str) -> Result<Self, Error> {
        Self::from_field(s)
    }
}

/// The parliamentary constituencies of a municipality: one, or a range that
/// may have gaps.
#[derive(Clone, Debug, PartialEq, Eq, Structural)]
pub enum Bundestagswahlkreise {
    Single(u16),
    Range(u16, u16),
}

impl Bundestagswahlkreise {
    /// The first constituency: the first three characters.
    pub open spec fn von(s: Seq<char>) -> Seq<char> {
        part(s, 0, 3)
    }

    /// The last constituency of a range: what follows, or blank.
    pub open spec fn bis(s: Seq<char>) -> Seq<char> {
        part(s, 3, s.len() as int)
    }
}

impl FromField for Bundestagswahlkreise {
    open spec fn decodable(s: Seq<char>) -> bool {
        &&& numeral_up_to(Self::von(s), u16::MAX as nat) is Some
        &&& (all_spaces(Self::bis(s)) || numeral_up_to(Self::bis(s), u16::MAX as nat) is Some)
    }

    open spec fn decodes(s: Seq<char>, v: Self) -> bool {
        match v {
            Bundestagswahlkreise::Single(a) => numeral_up_to(Self::von(s), u16::MAX as nat) == Some(
                a as nat,
            ) && all_spaces(Self::bis(s)),
            Bundestagswahlkreise::Range(a, b) => numeral_up_to(Self::von(s), u16::MAX as nat)
                == Some(a as nat) && !all_spaces(Self::bis(s)) && numeral_up_to(
                Self::bis(s),
                u16::MAX as nat,
            ) == Some(b as nat),
        }
    }

    open spec fn rejects(s: Seq<char>, e: Error) -> bool {
        if numeral_up_to(Self::von(s), u16::MAX as nat) is None {
            not_a_number(Self::von(s), e)
        } else {
            not_a_number(Self::bis(s), e)
        }
    }

    fn from_field(s: &str) -> (r: Result<Self, Error>) {
        let von = match parse_number(part_of(s, 0, 3), u16::MAX as u64) {
            Ok(v) => v as u16,
            Err(e) => return Err(e),
        };
        let n = s.unicode_len();
        let bis = part_of(s, 3, if n < 3 { 3 } else { n });
        assert(bis@ =~= Self::bis(s@));
        if is_blank(bis) {
            Ok(Bundestagswahlkreise::Single(von))
        } else {
            match parse_number(bis, u16::MAX as u64) {
                Ok(b) => Ok(Bundestagswahlkreise::Range(von, b as u16)),
                Err(e) => Err(e),
            }
        }
    }
}

impl core::str::FromStr for Bundestagswahlkreise {
    type Err = Error;

    fn from_str(s: &str) -> Result<Self, Error> {
        Self::from_field(s)
    }
}

/// Kind of a municipality.
#[derive(Copy, Clone, Debug, PartialEq, Eq, Structural, Hash)]
pub enum GemeindeTextkennzeichen {
    Markt,
    KreisfreieStadt,
    Stadtkreis,
    Stadt,
    KreisangehoerigeGemeinde,
    GemeindefreiesGebietBewohnt,
    GemeindefreiesGebietUnbewohnt,
    GrosseKreisstadt,
}

impl GemeindeTextkennzeichen {
    /// The category that code `n` stands for, if any.
    pub open spec fn of_code(n: u8) -> Option<Self> {
        if n == 60 {
            Some(GemeindeTextkennzeichen::Markt)
        } else if n == 61 {
            Some(GemeindeTextkennzeichen::KreisfreieStadt)
        } else if n == 62 {
            Some(GemeindeTextkennzeichen::Stadtkreis)
        } else if n == 63 {
            Some(GemeindeTextkennzeichen::Stadt)
        } else if n == 64 {
            Some(GemeindeTextkennzeichen::KreisangehoerigeGemeinde)
        } else if n == 65 {
            Some(GemeindeTextkennzeichen::GemeindefreiesGebietBewohnt)
        } else if n == 66 {
            Some(GemeindeTextkennzeichen::GemeindefreiesGebietUnbewohnt)
        } else if n == 67 {
            Some(GemeindeTextkennzeichen::GrosseKreisstadt)
        } else {
            None
        }
    }

    /// Reads a category code.
    pub fn from_code(n: u8) -> (r: Result<Self, Error>)
        ensures
            r matches Ok(k) ==> Self::of_code(n) == Some(k),
            r matches Err(e) ==> Self::of_code(n) is None && e == Error::InvalidTextkennzeichen(n),
    {
        match n {
            60 => Ok(GemeindeTextkennzeichen::Markt),
            61 => Ok(GemeindeTextkennzeichen::KreisfreieStadt),
            62 => Ok(GemeindeTextkennzeichen::Stadtkreis),
            63 => Ok(GemeindeTextkennzeichen::Stadt),
            64 => Ok(GemeindeTextkennzeichen::KreisangehoerigeGemeinde),
            65 => Ok(GemeindeTextkennzeichen::GemeindefreiesGebietBewohnt),
            66 => Ok(GemeindeTextkennzeichen::GemeindefreiesGebietUnbewohnt),
            67 => Ok(GemeindeTextkennzeichen::GrosseKreisstadt),
            _ => Err(Error::InvalidTextkennzeichen(n)),
        }
    }
}

impl core::convert::TryFrom<u8> for GemeindeTextkennzeichen {
    type Error = Error;

    fn try_from(n: u8) -> Result<Self, Error> {
        Self::from_code(n)
    }
}

impl vstd::std_specs::convert::TryFromSpecImpl<u8> for GemeindeTextkennzeichen {
    open spec fn obeys_try_from_spec() -> bool {
        true
    }

    open spec fn try_from_spec(n: u8) -> Result<Self, Error> {
        match Self::of_code(n) {
            Some(k) => Ok(k),
            None => Err(Error::InvalidTextkennzeichen(n)),
        }
    }
}

} // verus!
