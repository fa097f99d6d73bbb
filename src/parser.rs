//! The line decoder: a cursor over the fixed-width fields of one line, and
//! the per-kind layouts that turn a line into a record.
use vstd::prelude::*;

use crate::error::Error;
use crate::field::{part, FromField};
use crate::model::datensatz::Datensatz;
use crate::model::datum::Datum;
use crate::model::gemeinde::{
    Bundestagswahlkreise, GemeindeDaten, GemeindeSchluessel, GemeindeTextkennzeichen, Gerichtbarkeit,
    RegionalSchluessel,
};
use crate::model::gemeindeverband::{
    GemeindeverbandDaten, GemeindeverbandSchluessel, GemeindeverbandTextkennzeichen,
};
use crate::model::kreis::{KreisDaten, KreisSchluessel, KreisTextkennzeichen};
use crate::model::land::{LandDaten, LandSchluessel};
use crate::model::regierungsbezirk::{RegierungsbezirkDaten, RegierungsbezirkSchluessel};
use crate::model::region::{RegionDaten, RegionSchluessel};
use crate::text::{all_spaces, is_blank, numeral_up_to, trim_spaces, trimmed};

verus! {

/// Reads fixed-width fields from one line, left to right. Widths count
/// characters, not bytes.
pub struct FieldReader<'a> {
    line: &'a str,
    pos: usize,
    len: usize,
}

impl<'a> FieldReader<'a> {
    /// The characters of the line.
    pub closed spec fn line(&self) -> Seq<char> {
        self.line@
    }

    /// How many characters have been consumed.
    pub closed spec fn pos(&self) -> int {
        self.pos as int
    }

    pub closed spec fn wf(&self) -> bool {
        self.pos <= self.len && self.len == self.line@.len()
    }

    /// A reader at the start of `line`, which holds no line terminator.
    pub fn new(line: &'a str) -> (r: Self)
        ensures
            r.wf(),
            r.line() == line@,
            r.pos() == 0,
    {
        FieldReader { line, pos: 0, len: line.unicode_len() }
    }

    /// The position after consuming `n` more characters.
    pub open spec fn advanced(&self, n: int) -> int {
        if self.pos() + n <= self.line().len() {
            self.pos() + n
        } else {
            self.line().len() as int
        }
    }

    /// Reads the next field of `n` characters; fewer where the line ends.
    pub fn next(&mut self, n: usize) -> (r: &'a str)
        requires
            old(self).wf(),
        ensures
            final(self).wf(),
            final(self).line() == old(self).line(),
            final(self).pos() == old(self).advanced(n as int),
            r@ == part(old(self).line(), old(self).pos(), old(self).pos() + n),
            old(self).pos() + n > old(self).line().len() ==> r@ == old(self).line().subrange(
                old(self).pos(),
                old(self).line().len() as int,
            ),
    {
        let end = if n <= self.len - self.pos {
            self.pos + n
        } else {
            self.len
        };
        let s = self.line.substring_char(self.pos, end);
        self.pos = end;
        s
    }

    /// Reads the next field of `n` characters; `None` where it is blank.
    pub fn next_opt(&mut self, n: usize) -> (r: Option<&'a str>)
        requires
            old(self).wf(),
        ensures
            final(self).wf(),
            final(self).line() == old(self).line(),
            final(self).pos() == old(self).advanced(n as int),
            ({
                let f = part(old(self).line(), old(self).pos(), old(self).pos() + n);
                match r {
                    None => all_spaces(f),
                    Some(s) => !all_spaces(f) && s@ == f,
                }
            }),
    {
        let s = self.next(n);
        if is_blank(s) {
            None
        } else {
            Some(s)
        }
    }

    /// Reads the next field of `n` characters and decodes it.
    pub fn parse_next<T: FromField>(&mut self, n: usize) -> (r: Result<T, Error>)
        requires
            old(self).wf(),
        ensures
            final(self).wf(),
            final(self).line() == old(self).line(),
            final(self).pos() == old(self).advanced(n as int),
            ({
                let f = part(old(self).line(), old(self).pos(), old(self).pos() + n);
                &&& r is Ok <==> T::decodable(f)
                &&& r matches Ok(v) ==> T::decodes(f, v)
                &&& r matches Err(e) ==> T::rejects(f, e)
            }),
    {
        T::from_field(self.next(n))
    }

    /// Reads the next field of `n` characters; `None` where it is blank,
    /// else its decoded value.
    pub fn parse_next_opt<T: FromField>(&mut self, n: usize) -> (r: Result<Option<T>, Error>)
        requires
            old(self).wf(),
        ensures
            final(self).wf(),
            final(self).line() == old(self).line(),
            final(self).pos() == old(self).advanced(n as int),
            ({
                let f = part(old(self).line(), old(self).pos(), old(self).pos() + n);
                &&& r is Ok <==> optional_decodable::<T>(f)
                &&& r matches Ok(v) ==> optional_decodes(f, v)
                &&& r matches Err(e) ==> T::rejects(f, e)
            }),
    {
        match self.next_opt(n) {
            None => Ok(None),
            Some(s) => match T::from_field(s) {
                Ok(v) => Ok(Some(v)),
                Err(e) => Err(e),
            },
        }
    }

    /// Skips `n` characters.
    pub fn skip(&mut self, n: usize)
        requires
            old(self).wf(),
        ensures
            final(self).wf(),
            final(self).line() == old(self).line(),
            final(self).pos() == old(self).advanced(n as int),
    {
        self.next(n);
    }
}

/// A field that may be blank decodes: it is blank or decodes as `T`.
pub open spec fn optional_decodable<T: FromField>(f: Seq<char>) -> bool {
    all_spaces(f) || T::decodable(f)
}

/// `v` is what the field `f` that may be blank holds.
pub open spec fn optional_decodes<T: FromField>(f: Seq<char>, v: Option<T>) -> bool {
    match v {
        None => all_spaces(f),
        Some(x) => !all_spaces(f) && T::decodes(f, x),
    }
}


/// Reads a date field `YYYYMMDD`.
pub fn parse_date(s: &str) -> (r: Result<Datum, Error>)
    ensures
        r is Ok <==> Datum::decodable(s@),
        r matches Ok(d) ==> Datum::decodes(s@, d),
        r matches Err(e) ==> Datum::rejects(s@, e),
{
    Datum::from_field(s)
}

/// The field of `w` characters at `a` in line `l`, cut off where the line ends.
pub open spec fn field(l: Seq<char>, a: int, w: int) -> Seq<char> {
    part(l, a, a + w)
}

/// The reader's position after the two-character type code.
pub open spec fn after_code(l: Seq<char>) -> int {
    if l.len() < 2 {
        l.len() as int
    } else {
        2
    }
}

/// The type code of line `l`, where it is a number.
pub open spec fn type_code(l: Seq<char>) -> nat {
    numeral_up_to(field(l, 0, 2), u8::MAX as nat)->0
}

// State: date(8) key(2), 10 unused, name(50), seat(50).
pub open spec fn land_ok(l: Seq<char>) -> bool {
    Datum::decodable(field(l, 2, 8)) && LandSchluessel::decodable(field(l, 10, 2))
}

pub open spec fn land_decodes(l: Seq<char>, v: LandDaten) -> bool {
    &&& Datum::decodes(field(l, 2, 8), v.gebietsstand)
    &&& LandSchluessel::decodes(field(l, 10, 2), v.schluessel)
    &&& v.name@ == trimmed(field(l, 22, 50))
    &&& v.sitz_regierung@ == trimmed(field(l, 72, 50))
}

pub open spec fn land_rejects(l: Seq<char>, e: Error) -> bool {
    if !Datum::decodable(field(l, 2, 8)) {
        Datum::rejects(field(l, 2, 8), e)
    } else {
        LandSchluessel::rejects(field(l, 10, 2), e)
    }
}

// Government district: date(8) key(3), 9 unused, name(50), seat(50).
pub open spec fn regierungsbezirk_ok(l: Seq<char>) -> bool {
    Datum::decodable(field(l, 2, 8)) && RegierungsbezirkSchluessel::decodable(field(l, 10, 3))
}

pub open spec fn regierungsbezirk_decodes(l: Seq<char>, v: RegierungsbezirkDaten) -> bool {
    &&& Datum::decodes(field(l, 2, 8), v.gebietsstand)
    &&& RegierungsbezirkSchluessel::decodes(field(l, 10, 3), v.schluessel)
    &&& v.name@ == trimmed(field(l, 22, 50))
    &&& v.sitz_verwaltung@ == trimmed(field(l, 72, 50))
}

pub open spec fn regierungsbezirk_rejects(l: Seq<char>, e: Error) -> bool {
    if !Datum::decodable(field(l, 2, 8)) {
        Datum::rejects(field(l, 2, 8), e)
    } else {
        RegierungsbezirkSchluessel::rejects(field(l, 10, 3), e)
    }
}

// Region: date(8) key(4), name(50), seat(50).
pub open spec fn region_ok(l: Seq<char>) -> bool {
    Datum::decodable(field(l, 2, 8)) && RegionSchluessel::decodable(field(l, 10, 4))
}

pub open spec fn region_decodes(l: Seq<char>, v: RegionDaten) -> bool {
    &&& Datum::decodes(field(l, 2, 8), v.gebietsstand)
    &&& RegionSchluessel::decodes(field(l, 10, 4), v.schluessel)
    &&& v.name@ == trimmed(field(l, 14, 50))
    &&& v.sitz_verwaltung@ == trimmed(field(l, 64, 50))
}

pub open spec fn region_rejects(l: Seq<char>, e: Error) -> bool {
    if !Datum::decodable(field(l, 2, 8)) {
        Datum::rejects(field(l, 2, 8), e)
    } else {
        RegionSchluessel::rejects(field(l, 10, 4), e)
    }
}

/// The category code at `a` is a number that names a category of `K`.
pub open spec fn category_ok(l: Seq<char>, a: int, known: spec_fn(u8) -> bool) -> bool {
    u8::decodable(field(l, a, 2)) && known(numeral_up_to(field(l, a, 2), u8::MAX as nat)->0 as u8)
}

/// `e` is the error for the category code at `a` that `category_ok` refuses.
pub open spec fn category_rejects(l: Seq<char>, a: int, e: Error) -> bool {
    if !u8::decodable(field(l, a, 2)) {
        u8::rejects(field(l, a, 2), e)
    } else {
        e == Error::InvalidTextkennzeichen(numeral_up_to(field(l, a, 2), u8::MAX as nat)->0 as u8)
    }
}

/// The category code at `a`, where it is a number.
pub open spec fn category_code(l: Seq<char>, a: int) -> u8 {
    numeral_up_to(field(l, a, 2), u8::MAX as nat)->0 as u8
}

pub open spec fn kreis_category(n: u8) -> bool {
    KreisTextkennzeichen::of_code(n) is Some
}

// District: date(8) key(5), 7 unused, name(50), seat(50), category(2).
pub open spec fn kreis_ok(l: Seq<char>) -> bool {
    &&& Datum::decodable(field(l, 2, 8))
    &&& KreisSchluessel::decodable(field(l, 10, 5))
    &&& category_ok(l, 122, |n: u8| kreis_category(n))
}

pub open spec fn kreis_decodes(l: Seq<char>, v: KreisDaten) -> bool {
    &&& Datum::decodes(field(l, 2, 8), v.gebietsstand)
    &&& KreisSchluessel::decodes(field(l, 10, 5), v.schluessel)
    &&& v.name@ == trimmed(field(l, 22, 50))
    &&& v.sitz_verwaltung@ == trimmed(field(l, 72, 50))
    &&& KreisTextkennzeichen::of_code(category_code(l, 122)) == Some(v.textkennzeichen)
}

pub open spec fn kreis_rejects(l: Seq<char>, e: Error) -> bool {
    if !Datum::decodable(field(l, 2, 8)) {
        Datum::rejects(field(l, 2, 8), e)
    } else if !KreisSchluessel::decodable(field(l, 10, 5)) {
        KreisSchluessel::rejects(field(l, 10, 5), e)
    } else {
        category_rejects(l, 122, e)
    }
}

pub open spec fn gemeindeverband_category(n: u8) -> bool {
    GemeindeverbandTextkennzeichen::of_code(n) is Some
}

// Municipality association: date(8) district key(5), 3 unused,
// association(4), name(50), seat(50), category(2).
pub open spec fn gemeindeverband_ok(l: Seq<char>) -> bool {
    &&& Datum::decodable(field(l, 2, 8))
    &&& KreisSchluessel::decodable(field(l, 10, 5))
    &&& u16::decodable(field(l, 18, 4))
    &&& category_ok(l, 122, |n: u8| gemeindeverband_category(n))
}

/// `v` is the text of a field that may be blank: `None` where it is.
pub open spec fn optional_text(f: Seq<char>, v: Option<String>) -> bool {
    match v {
        None => trimmed(f).len() == 0,
        Some(t) => trimmed(f).len() > 0 && t@ == trimmed(f),
    }
}

pub open spec fn gemeindeverband_decodes(l: Seq<char>, v: GemeindeverbandDaten) -> bool {
    &&& Datum::decodes(field(l, 2, 8), v.gebietsstand)
    &&& KreisSchluessel::decodes(field(l, 10, 5), v.schluessel.kreis)
    &&& u16::decodes(field(l, 18, 4), v.schluessel.gemeindeverband)
    &&& v.name@ == trimmed(field(l, 22, 50))
    &&& optional_text(field(l, 72, 50), v.sitz_verwaltung)
    &&& GemeindeverbandTextkennzeichen::of_code(category_code(l, 122)) == Some(v.textkennzeichen)
}

pub open spec fn gemeindeverband_rejects(l: Seq<char>, e: Error) -> bool {
    if !Datum::decodable(field(l, 2, 8)) {
        Datum::rejects(field(l, 2, 8), e)
    } else if !KreisSchluessel::decodable(field(l, 10, 5)) {
        KreisSchluessel::rejects(field(l, 10, 5), e)
    } else if !u16::decodable(field(l, 18, 4)) {
        u16::rejects(field(l, 18, 4), e)
    } else {
        category_rejects(l, 122, e)
    }
}

pub open spec fn gemeinde_category(n: u8) -> bool {
    GemeindeTextkennzeichen::of_code(n) is Some
}

// Municipality: date(8) short key(8) association(4) name(50), 50 unused,
// category(2), 4 unused, area(11) population(11) male population(11),
// 4 unused, postal code(5), ambiguity mark(5), 2 unused, tax office(4),
// courts(4), labor agency(5), constituencies(6).
pub open spec fn gemeinde_ok(l: Seq<char>) -> bool {
    &&& Datum::decodable(field(l, 2, 8))
    &&& RegionalSchluessel::decodable(field(l, 10, 8))
    &&& u16::decodable(field(l, 18, 4))
    &&& category_ok(l, 122, |n: u8| gemeinde_category(n))
    &&& u64::decodable(field(l, 128, 11))
    &&& u64::decodable(field(l, 139, 11))
    &&& u64::decodable(field(l, 150, 11))
    &&& optional_decodable::<u16>(field(l, 177, 4))
    &&& optional_decodable::<Gerichtbarkeit>(field(l, 181, 4))
    &&& optional_decodable::<u32>(field(l, 185, 5))
    &&& optional_decodable::<Bundestagswahlkreise>(field(l, 190, 6))
}

pub open spec fn gemeinde_decodes(l: Seq<char>, v: GemeindeDaten) -> bool {
    &&& Datum::decodes(field(l, 2, 8), v.gebietsstand)
    &&& RegionalSchluessel::decodes(field(l, 10, 8), v.schluessel.regional())
    &&& u16::decodes(field(l, 18, 4), v.schluessel.gemeindeverband.gemeindeverband)
    &&& v.name@ == trimmed(field(l, 22, 50))
    &&& GemeindeTextkennzeichen::of_code(category_code(l, 122)) == Some(v.textkennzeichen)
    &&& u64::decodes(field(l, 128, 11), v.area)
    &&& u64::decodes(field(l, 139, 11), v.population_total)
    &&& u64::decodes(field(l, 150, 11), v.population_male)
    &&& v.plz@ == field(l, 165, 5)
    &&& v.plz_unambiguous == all_spaces(field(l, 170, 5))
    &&& optional_decodes(field(l, 177, 4), v.finanzamtbezirk)
    &&& optional_decodes(field(l, 181, 4), v.gerichtbarkeit)
    &&& optional_decodes(field(l, 185, 5), v.arbeitsargenturbezirk)
    &&& optional_decodes(field(l, 190, 6), v.bundestagswahlkreise)
}

pub open spec fn gemeinde_rejects(l: Seq<char>, e: Error) -> bool {
    if !Datum::decodable(field(l, 2, 8)) {
        Datum::rejects(field(l, 2, 8), e)
    } else if !RegionalSchluessel::decodable(field(l, 10, 8)) {
        RegionalSchluessel::rejects(field(l, 10, 8), e)
    } else if !u16::decodable(field(l, 18, 4)) {
        u16::rejects(field(l, 18, 4), e)
    } else if !category_ok(l, 122, |n: u8| gemeinde_category(n)) {
        category_rejects(l, 122, e)
    } else if !u64::decodable(field(l, 128, 11)) {
        u64::rejects(field(l, 128, 11), e)
    } else if !u64::decodable(field(l, 139, 11)) {
        u64::rejects(field(l, 139, 11), e)
    } else if !u64::decodable(field(l, 150, 11)) {
        u64::rejects(field(l, 150, 11), e)
    } else if !optional_decodable::<u16>(field(l, 177, 4)) {
        u16::rejects(field(l, 177, 4), e)
    } else if !optional_decodable::<Gerichtbarkeit>(field(l, 181, 4)) {
        Gerichtbarkeit::rejects(field(l, 181, 4), e)
    } else if !optional_decodable::<u32>(field(l, 185, 5)) {
        u32::rejects(field(l, 185, 5), e)
    } else {
        Bundestagswahlkreise::rejects(field(l, 190, 6), e)
    }
}

/// The line `l` (without terminator) decodes into a record.
pub open spec fn record_ok(l: Seq<char>) -> bool {
    &&& u8::decodable(field(l, 0, 2))
    &&& {
        let c = type_code(l);
        if c == 10 {
            land_ok(l)
        } else if c == 20 {
            regierungsbezirk_ok(l)
        } else if c == 30 {
            region_ok(l)
        } else if c == 40 {
            kreis_ok(l)
        } else if c == 50 {
            gemeindeverband_ok(l)
        } else if c == 60 {
            gemeinde_ok(l)
        } else {
            false
        }
    }
}

/// `d` is the record that line `l` (without terminator) holds.
pub open spec fn record_decodes(l: Seq<char>, d: Datensatz) -> bool {
    &&& u8::decodable(field(l, 0, 2))
    &&& match d {
        Datensatz::Land(v) => type_code(l) == 10 && land_decodes(l, v),
        Datensatz::Regierungsbezirk(v) => type_code(l) == 20 && regierungsbezirk_decodes(l, v),
        Datensatz::Region(v) => type_code(l) == 30 && region_decodes(l, v),
        Datensatz::Kreis(v) => type_code(l) == 40 && kreis_decodes(l, v),
        Datensatz::Gemeindeverband(v) => type_code(l) == 50 && gemeindeverband_decodes(l, v),
        Datensatz::Gemeinde(v) => type_code(l) == 60 && gemeinde_decodes(l, v),
    }
}

/// `e` is the error for the line `l` (without terminator) that does not decode.
pub open spec fn record_rejects(l: Seq<char>, e: Error) -> bool {
    if !u8::decodable(field(l, 0, 2)) {
        u8::rejects(field(l, 0, 2), e)
    } else {
        let c = type_code(l);
        if c == 10 {
            land_rejects(l, e)
        } else if c == 20 {
            regierungsbezirk_rejects(l, e)
        } else if c == 30 {
            region_rejects(l, e)
        } else if c == 40 {
            kreis_rejects(l, e)
        } else if c == 50 {
            gemeindeverband_rejects(l, e)
        } else if c == 60 {
            gemeinde_rejects(l, e)
        } else {
            e == Error::InvalidType(c as u8)
        }
    }
}

fn decode_land(fields: &mut FieldReader) -> (r: Result<LandDaten, Error>)
    requires
        old(fields).wf(),
        old(fields).pos() == after_code(old(fields).line()),
    ensures
        r is Ok <==> land_ok(old(fields).line()),
        r matches Ok(v) ==> land_decodes(old(fields).line(), v),
        r matches Err(e) ==> land_rejects(old(fields).line(), e),
{
    let gebietsstand = match fields.parse_next::<Datum>(8) {
        Ok(v) => v,
        Err(e) => return Err(e),
    };
    let schluessel = match fields.parse_next::<LandSchluessel>(2) {
        Ok(v) => v,
        Err(e) => return Err(e),
    };
    fields.skip(10);
    let name = trim_spaces(fields.next(50)).to_owned();
    let sitz_regierung = trim_spaces(fields.next(50)).to_owned();
    Ok(LandDaten { gebietsstand, schluessel, name, sitz_regierung })
}

fn decode_regierungsbezirk(fields: &mut FieldReader) -> (r: Result<RegierungsbezirkDaten, Error>)
    requires
        old(fields).wf(),
        old(fields).pos() == after_code(old(fields).line()),
    ensures
        r is Ok <==> regierungsbezirk_ok(old(fields).line()),
        r matches Ok(v) ==> regierungsbezirk_decodes(old(fields).line(), v),
        r matches Err(e) ==> regierungsbezirk_rejects(old(fields).line(), e),
{
    let gebietsstand = match fields.parse_next::<Datum>(8) {
        Ok(v) => v,
        Err(e) => return Err(e),
    };
    let schluessel = match fields.parse_next::<RegierungsbezirkSchluessel>(3) {
        Ok(v) => v,
        Err(e) => return Err(e),
    };
    fields.skip(9);
    let name = trim_spaces(fields.next(50)).to_owned();
    let sitz_verwaltung = trim_spaces(fields.next(50)).to_owned();
    Ok(RegierungsbezirkDaten { gebietsstand, schluessel, name, sitz_verwaltung })
}

fn decode_region(fields: &mut FieldReader) -> (r: Result<RegionDaten, Error>)
    requires
        old(fields).wf(),
        old(fields).pos() == after_code(old(fields).line()),
    ensures
        r is Ok <==> region_ok(old(fields).line()),
        r matches Ok(v) ==> region_decodes(old(fields).line(), v),
        r matches Err(e) ==> region_rejects(old(fields).line(), e),
{
    let gebietsstand = match fields.parse_next::<Datum>(8) {
        Ok(v) => v,
        Err(e) => return Err(e),
    };
    let schluessel = match fields.parse_next::<RegionSchluessel>(4) {
        Ok(v) => v,
        Err(e) => return Err(e),
    };
    let name = trim_spaces(fields.next(50)).to_owned();
    let sitz_verwaltung = trim_spaces(fields.next(50)).to_owned();
    Ok(RegionDaten { gebietsstand, schluessel, name, sitz_verwaltung })
}

fn decode_kreis(fields: &mut FieldReader) -> (r: Result<KreisDaten, Error>)
    requires
        old(fields).wf(),
        old(fields).pos() == after_code(old(fields).line()),
    ensures
        r is Ok <==> kreis_ok(old(fields).line()),
        r matches Ok(v) ==> kreis_decodes(old(fields).line(), v),
        r matches Err(e) ==> kreis_rejects(old(fields).line(), e),
{
    let ghost l = fields.line();
    let gebietsstand = match fields.parse_next::<Datum>(8) {
        Ok(v) => v,
        Err(e) => return Err(e),
    };
    let schluessel = match fields.parse_next::<KreisSchluessel>(5) {
        Ok(v) => v,
        Err(e) => return Err(e),
    };
    fields.skip(7);
    let name = trim_spaces(fields.next(50)).to_owned();
    let sitz_verwaltung = trim_spaces(fields.next(50)).to_owned();
    let code = match fields.parse_next::<u8>(2) {
        Ok(v) => v,
        Err(e) => return Err(e),
    };
    let textkennzeichen = match KreisTextkennzeichen::from_code(code) {
        Ok(v) => v,
        Err(e) => return Err(e),
    };
    assert(category_code(l, 122) == code);
    Ok(KreisDaten { gebietsstand, schluessel, name, sitz_verwaltung, textkennzeichen })
}

fn decode_gemeindeverband(fields: &mut FieldReader) -> (r: Result<GemeindeverbandDaten, Error>)
    requires
        old(fields).wf(),
        old(fields).pos() == after_code(old(fields).line()),
    ensures
        r is Ok <==> gemeindeverband_ok(old(fields).line()),
        r matches Ok(v) ==> gemeindeverband_decodes(old(fields).line(), v),
        r matches Err(e) ==> gemeindeverband_rejects(old(fields).line(), e),
{
    let ghost l = fields.line();
    let gebietsstand = match fields.parse_next::<Datum>(8) {
        Ok(v) => v,
        Err(e) => return Err(e),
    };
    let kreis = match fields.parse_next::<KreisSchluessel>(5) {
        Ok(v) => v,
        Err(e) => return Err(e),
    };
    fields.skip(3);
    let gemeindeverband = match fields.parse_next::<u16>(4) {
        Ok(v) => v,
        Err(e) => return Err(e),
    };
    let name = trim_spaces(fields.next(50)).to_owned();
    let seat = trim_spaces(fields.next(50));
    let sitz_verwaltung = if seat.unicode_len() == 0 {
        None
    } else {
        Some(seat.to_owned())
    };
    let code = match fields.parse_next::<u8>(2) {
        Ok(v) => v,
        Err(e) => return Err(e),
    };
    let textkennzeichen = match GemeindeverbandTextkennzeichen::from_code(code) {
        Ok(v) => v,
        Err(e) => return Err(e),
    };
    assert(category_code(l, 122) == code);
    Ok(GemeindeverbandDaten {
        gebietsstand,
        schluessel: GemeindeverbandSchluessel::new(kreis, gemeindeverband),
        name,
        sitz_verwaltung,
        textkennzeichen,
    })
}

fn decode_gemeinde(fields: &mut FieldReader) -> (r: Result<GemeindeDaten, Error>)
    requires
        old(fields).wf(),
        old(fields).pos() == after_code(old(fields).line()),
    ensures
        r is Ok <==> gemeinde_ok(old(fields).line()),
        r matches Ok(v) ==> gemeinde_decodes(old(fields).line(), v),
        r matches Err(e) ==> gemeinde_rejects(old(fields).line(), e),
{
    let ghost l = fields.line();
    let gebietsstand = match fields.parse_next::<Datum>(8) {
        Ok(v) => v,
        Err(e) => return Err(e),
    };
    let regional = match fields.parse_next::<RegionalSchluessel>(8) {
        Ok(v) => v,
        Err(e) => return Err(e),
    };
    let gemeindeverband = match fields.parse_next::<u16>(4) {
        Ok(v) => v,
        Err(e) => return Err(e),
    };
    let name = trim_spaces(fields.next(50)).to_owned();
    fields.skip(50);
    let code = match fields.parse_next::<u8>(2) {
        Ok(v) => v,
        Err(e) => return Err(e),
    };
    let textkennzeichen = match GemeindeTextkennzeichen::from_code(code) {
        Ok(v) => v,
        Err(e) => return Err(e),
    };
    assert(category_code(l, 122) == code);
    fields.skip(4);
    let area = match fields.parse_next::<u64>(11) {
        Ok(v) => v,
        Err(e) => return Err(e),
    };
    let population_total = match fields.parse_next::<u64>(11) {
        Ok(v) => v,
        Err(e) => return Err(e),
    };
    let population_male = match fields.parse_next::<u64>(11) {
        Ok(v) => v,
        Err(e) => return Err(e),
    };
    fields.skip(4);
    let plz = fields.next(5).to_owned();
    let plz_unambiguous = fields.next_opt(5).is_none();
    fields.skip(2);
    let finanzamtbezirk = match fields.parse_next_opt::<u16>(4) {
        Ok(v) => v,
        Err(e) => return Err(e),
    };
    let gerichtbarkeit = match fields.parse_next_opt::<Gerichtbarkeit>(4) {
        Ok(v) => v,
        Err(e) => return Err(e),
    };
    let arbeitsargenturbezirk = match fields.parse_next_opt::<u32>(5) {
        Ok(v) => v,
        Err(e) => return Err(e),
    };
    let bundestagswahlkreise = match fields.parse_next_opt::<Bundestagswahlkreise>(6) {
        Ok(v) => v,
        Err(e) => return Err(e),
    };
    Ok(GemeindeDaten {
        gebietsstand,
        schluessel: GemeindeSchluessel::from_regional_schluessel(regional, gemeindeverband),
        name,
        textkennzeichen,
        area,
        population_total,
        population_male,
        plz,
        plz_unambiguous,
        finanzamtbezirk,
        gerichtbarkeit,
        arbeitsargenturbezirk,
        bundestagswahlkreise,
    })
}

/// Decodes one line, whose terminator is already removed, into a record.
pub fn parse_fields(line: &str) -> (r: Result<Datensatz, Error>)
    ensures
        r is Ok <==> record_ok(line@),
        r matches Ok(d) ==> record_decodes(line@, d),
        r matches Err(e) ==> record_rejects(line@, e),
{
    let mut fields = FieldReader::new(line);
    let ty = match fields.parse_next::<u8>(2) {
        Ok(v) => v,
        Err(e) => return Err(e),
    };
    assert(type_code(line@) == ty);
    match ty {
        10 => match decode_land(&mut fields) {
            Ok(v) => Ok(Datensatz::Land(v)),
            Err(e) => Err(e),
        },
        20 => match decode_regierungsbezirk(&mut fields) {
            Ok(v) => Ok(Datensatz::Regierungsbezirk(v)),
            Err(e) => Err(e),
        },
        30 => match decode_region(&mut fields) {
            Ok(v) => Ok(Datensatz::Region(v)),
            Err(e) => Err(e),
        },
        40 => match decode_kreis(&mut fields) {
            Ok(v) => Ok(Datensatz::Kreis(v)),
            Err(e) => Err(e),
        },
        50 => match decode_gemeindeverband(&mut fields) {
            Ok(v) => Ok(Datensatz::Gemeindeverband(v)),
            Err(e) => Err(e),
        },
        60 => match decode_gemeinde(&mut fields) {
            Ok(v) => Ok(Datensatz::Gemeinde(v)),
            Err(e) => Err(e),
        },
        _ => Err(Error::InvalidType(ty)),
    }
}

/// `l` without one trailing line terminator: `"\r\n"`, `"\n"` or `"\r"`.
pub open spec fn without_terminator(l: Seq<char>) -> Seq<char> {
    if l.len() >= 2 && l[l.len() - 2] == '\r' && l[l.len() - 1] == '\n' {
        l.subrange(0, l.len() - 2)
    } else if l.len() >= 1 && (l[l.len() - 1] == '\n' || l[l.len() - 1] == '\r') {
        l.subrange(0, l.len() - 1)
    } else {
        l
    }
}

/// Removes one trailing line terminator.
pub fn strip_line_terminator(line: &str) -> (r: &str)
    ensures
        r@ == without_terminator(line@),
{
    let n = line.unicode_len();
    if n >= 2 && line.get_char(n - 2) == '\r' && line.get_char(n - 1) == '\n' {
        line.substring_char(0, n - 2)
    } else if n >= 1 && (line.get_char(n - 1) == '\n' || line.get_char(n - 1) == '\r') {
        line.substring_char(0, n - 1)
    } else {
        line
    }
}

/// Decodes one physical line, terminator included or not, into a record.
pub fn parse_record(line: &str) -> (r: Result<Datensatz, Error>)
    ensures
        r is Ok <==> record_ok(without_terminator(line@)),
        r matches Ok(d) ==> record_decodes(without_terminator(line@), d),
        r matches Err(e) ==> record_rejects(without_terminator(line@), e),
{
    parse_fields(strip_line_terminator(line))
}

/// The views of a sequence of lines.
pub open spec fn line_views(lines: Seq<String>) -> Seq<Seq<char>> {
    lines.map_values(|l: String| l@)
}

/// A forward-only decoder over the lines of a data set: each call of
/// `parse_line` decodes the next line.
pub struct Parser {
    lines: Vec<String>,
    next: usize,
}

impl Parser {
    /// The lines not decoded yet.
    pub closed spec fn remaining(&self) -> Seq<Seq<char>> {
        line_views(self.lines@).subrange(self.next as int, self.lines@.len() as int)
    }

    pub closed spec fn wf(&self) -> bool {
        self.next <= self.lines@.len()
    }

    /// A decoder over `lines`, in order.
    pub fn new(lines: Vec<String>) -> (r: Self)
        ensures
            r.wf(),
            r.remaining() == line_views(lines@),
    {
        let r = Parser { lines, next: 0 };
        assert(r.remaining() =~= line_views(r.lines@));
        r
    }

    /// Decodes the next line. `Ok(None)` once every line has been read;
    /// a line that does not decode gives its error.
    pub fn parse_line(&mut self) -> (r: Result<Option<Datensatz>, Error>)
        requires
            old(self).wf(),
        ensures
            final(self).wf(),
            old(self).remaining().len() == 0 ==> (r matches Ok(None)) && final(self).remaining()
                == old(self).remaining(),
            old(self).remaining().len() > 0 ==> {
                let l = without_terminator(old(self).remaining()[0]);
                &&& final(self).remaining() == old(self).remaining().drop_first()
                &&& r is Ok <==> record_ok(l)
                &&& r matches Ok(d) ==> (d matches Some(x) && record_decodes(l, x))
                &&& r matches Err(e) ==> record_rejects(l, e)
            },
    {
        if self.next >= self.lines.len() {
            return Ok(None);
        }
        let i = self.next;
        let r = parse_record(self.lines[i].as_str());
        self.next = i + 1;
        assert(self.remaining() =~= old(self).remaining().drop_first());
        match r {
            Ok(d) => Ok(Some(d)),
            Err(e) => Err(e),
        }
    }
}

} // verus!
