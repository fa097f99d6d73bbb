//! One decoded line: a record of any of the six kinds.
use vstd::prelude::*;

use crate::model::datum::Datum;
use crate::model::gemeinde::GemeindeDaten;
use crate::model::gemeindeverband::GemeindeverbandDaten;
use crate::model::kreis::KreisDaten;
use crate::model::land::LandDaten;
use crate::model::regierungsbezirk::RegierungsbezirkDaten;
use crate::model::region::RegionDaten;

verus! {

/// A record of the data set, tagged with its kind.
#[derive(Clone, Debug)]
pub enum Datensatz {
    Land(LandDaten),
    Regierungsbezirk(RegierungsbezirkDaten),
    Region(RegionDaten),
    Kreis(KreisDaten),
    Gemeindeverband(GemeindeverbandDaten),
    Gemeinde(GemeindeDaten),
}

impl Datensatz {
    /// The effective date of the record.
    pub open spec fn spec_gebietsstand(&self) -> Datum {
        match self {
            Datensatz::Land(d) => d.gebietsstand,
            Datensatz::Regierungsbezirk(d) => d.gebietsstand,
            Datensatz::Region(d) => d.gebietsstand,
            Datensatz::Kreis(d) => d.gebietsstand,
            Datensatz::Gemeindeverband(d) => d.gebietsstand,
            Datensatz::Gemeinde(d) => d.gebietsstand,
        }
    }

    /// The name of the unit.
    pub open spec fn spec_name(&self) -> Seq<char> {
        match self {
            Datensatz::Land(d) => d.name@,
            Datensatz::Regierungsbezirk(d) => d.name@,
            Datensatz::Region(d) => d.name@,
            Datensatz::Kreis(d) => d.name@,
            Datensatz::Gemeindeverband(d) => d.name@,
            Datensatz::Gemeinde(d) => d.name@,
        }
    }

    /// Returns the effective date ("Gebietsstand") of the record.
    pub fn gebietsstand(&self) -> (r: &Datum)
        ensures
            *r == self.spec_gebietsstand(),
    {
        match self {
            Datensatz::Land(d) => &d.gebietsstand,
            Datensatz::Regierungsbezirk(d) => &d.gebietsstand,
            Datensatz::Region(d) => &d.gebietsstand,
            Datensatz::Kreis(d) => &d.gebietsstand,
            Datensatz::Gemeindeverband(d) => &d.gebietsstand,
            Datensatz::Gemeinde(d) => &d.gebietsstand,
        }
    }

    /// Returns the name of the unit.
    pub fn name(&self) -> (r: &str)
        ensures
            r@ == self.spec_name(),
    {
        match self {
            Datensatz::Land(d) => d.name.as_str(),
            Datensatz::Regierungsbezirk(d) => d.name.as_str(),
            Datensatz::Region(d) => d.name.as_str(),
            Datensatz::Kreis(d) => d.name.as_str(),
            Datensatz::Gemeindeverband(d) => d.name.as_str(),
            Datensatz::Gemeinde(d) => d.name.as_str(),
        }
    }
}

} // verus!
