//! The in-memory index: one ordered table per kind of record, point lookup by
//! a key of the same or a finer level, full enumeration, and enumeration of
//! the descendants of a key through one range scan.
use core::ops::RangeInclusive;
use vstd::prelude::*;

use crate::error::Error;
use crate::model::datensatz::Datensatz;
use crate::model::gemeinde::{GemeindeDaten, GemeindeSchluessel, RegionalSchluessel};
use crate::model::gemeindeverband::{GemeindeverbandDaten, GemeindeverbandSchluessel};
use crate::model::key::{lemma_block, Schluessel};
use crate::model::kreis::{KreisDaten, KreisSchluessel};
use crate::model::land::{LandDaten, LandSchluessel};
use crate::model::regierungsbezirk::{RegierungsbezirkDaten, RegierungsbezirkSchluessel};
use crate::model::region::{RegionDaten, RegionSchluessel};
use crate::parser::{record_decodes, record_ok, record_rejects, without_terminator, Parser};
use crate::table::{lists, Record, Table};

verus! {

/// Relies on `RangeInclusive::start`: the lower bound the range was made with.
pub assume_specification<Idx>[ RangeInclusive::<Idx>::start ](r: &RangeInclusive<Idx>) -> (s: &Idx)
    ensures
        *s == r@.start,
;

/// Relies on `RangeInclusive::end`: the upper bound the range was made with.
pub assume_specification<Idx>[ RangeInclusive::<Idx>::end ](r: &RangeInclusive<Idx>) -> (s: &Idx)
    ensures
        *s == r@.end,
;

/// What is stored under `k` in `m`, if anything.
pub open spec fn entry<K, V>(m: Map<K, V>, k: K) -> Option<V> {
    if m.contains_key(k) {
        Some(m[k])
    } else {
        None
    }
}

/// The association of a municipality, stored under its short-form key.
pub struct GemeindeverbandZuordnung {
    pub regional: RegionalSchluessel,
    pub gemeindeverband: u16,
}

impl Record for GemeindeverbandZuordnung {
    type Key = RegionalSchluessel;

    open spec fn key(&self) -> RegionalSchluessel {
        self.regional
    }

    fn code(&self) -> (r: u64) {
        self.regional.code()
    }
}

/// The contents of a database: the records of each kind by key, and the
/// association of each municipality by its short-form key.
pub struct DatabaseView {
    pub laender: Map<LandSchluessel, LandDaten>,
    pub regierungsbezirke: Map<RegierungsbezirkSchluessel, RegierungsbezirkDaten>,
    pub regionen: Map<RegionSchluessel, RegionDaten>,
    pub kreise: Map<KreisSchluessel, KreisDaten>,
    pub gemeindeverbaende: Map<GemeindeverbandSchluessel, GemeindeverbandDaten>,
    pub gemeinden: Map<GemeindeSchluessel, GemeindeDaten>,
    pub gemeindeverband_schluessel: Map<RegionalSchluessel, u16>,
}

impl DatabaseView {
    pub open spec fn empty() -> Self {
        DatabaseView {
            laender: Map::empty(),
            regierungsbezirke: Map::empty(),
            regionen: Map::empty(),
            kreise: Map::empty(),
            gemeindeverbaende: Map::empty(),
            gemeinden: Map::empty(),
            gemeindeverband_schluessel: Map::empty(),
        }
    }

    /// The contents after storing `d` under its key, replacing what was there.
    pub open spec fn with(self, d: Datensatz) -> Self {
        match d {
            Datensatz::Land(v) => DatabaseView { laender: self.laender.insert(v.schluessel, v), ..self },
            Datensatz::Regierungsbezirk(v) => DatabaseView {
                regierungsbezirke: self.regierungsbezirke.insert(v.schluessel, v),
                ..self
            },
            Datensatz::Region(v) => DatabaseView { regionen: self.regionen.insert(v.schluessel, v), ..self },
            Datensatz::Kreis(v) => DatabaseView { kreise: self.kreise.insert(v.schluessel, v), ..self },
            Datensatz::Gemeindeverband(v) => DatabaseView {
                gemeindeverbaende: self.gemeindeverbaende.insert(v.schluessel, v),
                ..self
            },
            Datensatz::Gemeinde(v) => DatabaseView {
                gemeinden: self.gemeinden.insert(v.schluessel, v),
                gemeindeverband_schluessel: self.gemeindeverband_schluessel.insert(
                    v.schluessel.regional(),
                    v.schluessel.gemeindeverband.gemeindeverband,
                ),
                ..self
            },
        }
    }

    /// The contents after storing the records of `ds` in order.
    pub open spec fn with_all(self, ds: Seq<Datensatz>) -> Self
        decreases ds.len(),
    {
        if ds.len() == 0 {
            self
        } else {
            self.with_all(ds.drop_last()).with(ds.last())
        }
    }

    /// The full key of the municipality with short-form key `k`, where its
    /// association is known.
    pub open spec fn resolve(self, k: RegionalSchluessel) -> Option<GemeindeSchluessel> {
        if self.gemeindeverband_schluessel.contains_key(k) {
            Some(
                GemeindeSchluessel {
                    gemeindeverband: GemeindeverbandSchluessel {
                        kreis: k.kreis,
                        gemeindeverband: self.gemeindeverband_schluessel[k],
                    },
                    gemeinde: k.gemeinde,
                },
            )
        } else {
            None
        }
    }
}

/// An in-memory database of the records of a data set.
pub struct Database {
    laender: Table<LandDaten>,
    regierungsbezirke: Table<RegierungsbezirkDaten>,
    regionen: Table<RegionDaten>,
    kreise: Table<KreisDaten>,
    gemeindeverbaende: Table<GemeindeverbandDaten>,
    gemeinden: Table<GemeindeDaten>,
    gemeindeverband_schluessel: Table<GemeindeverbandZuordnung>,
}

impl View for Database {
    type V = DatabaseView;

    closed spec fn view(&self) -> DatabaseView {
        DatabaseView {
            laender: self.laender@,
            regierungsbezirke: self.regierungsbezirke@,
            regionen: self.regionen@,
            kreise: self.kreise@,
            gemeindeverbaende: self.gemeindeverbaende@,
            gemeinden: self.gemeinden@,
            gemeindeverband_schluessel: self.gemeindeverband_schluessel@.map_values(
                |z: GemeindeverbandZuordnung| z.gemeindeverband,
            ),
        }
    }
}

impl Database {
    /// Every table keeps its rows in key order.
    pub closed spec fn wf(&self) -> bool {
        &&& self.laender.wf()
        &&& self.regierungsbezirke.wf()
        &&& self.regionen.wf()
        &&& self.kreise.wf()
        &&& self.gemeindeverbaende.wf()
        &&& self.gemeinden.wf()
        &&& self.gemeindeverband_schluessel.wf()
    }

    /// An empty database.
    pub fn new() -> (r: Self)
        ensures
            r.wf(),
            r@ == DatabaseView::empty(),
    {
        let r = Database {
            laender: Table::new(),
            regierungsbezirke: Table::new(),
            regionen: Table::new(),
            kreise: Table::new(),
            gemeindeverbaende: Table::new(),
            gemeinden: Table::new(),
            gemeindeverband_schluessel: Table::new(),
        };
        assert(r@.gemeindeverband_schluessel =~= Map::<RegionalSchluessel, u16>::empty());
        r
    }

    /// Builds a database from the lines of `parser`, in order. Stops at the
    /// first line that does not decode and returns its error.
    pub fn from_parser(parser: Parser) -> (r: Result<Database, Error>)
        requires
            parser.wf(),
        ensures
            (r is Ok) == (forall|i: int|
                0 <= i < parser.remaining().len() ==> record_ok(
                    #[trigger] without_terminator(parser.remaining()[i]),
                )),
            r matches Ok(db) ==> db.wf(),
            r matches Ok(db) ==> exists|ds: Seq<Datensatz>|
                {
                    &&& ds.len() == parser.remaining().len()
                    &&& forall|i: int|
                        0 <= i < ds.len() ==> record_decodes(
                            without_terminator(parser.remaining()[i]),
                            #[trigger] ds[i],
                        )
                    &&& db@ == DatabaseView::empty().with_all(ds)
                },
            r matches Err(e) ==> exists|k: int|
                {
                    &&& 0 <= k < parser.remaining().len()
                    &&& forall|i: int|
                        0 <= i < k ==> record_ok(#[trigger] without_terminator(parser.remaining()[i]))
                    &&& record_rejects(without_terminator(parser.remaining()[k]), e)
                },
    {
        let ghost lines = parser.remaining();
        let mut source = parser;
        let mut db = Database::new();
        let ghost mut ds: Seq<Datensatz> = Seq::empty();
        loop
            invariant
                lines == parser.remaining(),
                source.wf(),
                db.wf(),
                ds.len() <= lines.len(),
                source.remaining() == lines.subrange(ds.len() as int, lines.len() as int),
                forall|i: int| 0 <= i < ds.len() ==> record_ok(#[trigger] without_terminator(lines[i])),
                forall|i: int|
                    0 <= i < ds.len() ==> record_decodes(without_terminator(lines[i]), #[trigger] ds[i]),
                db@ == DatabaseView::empty().with_all(ds),
            decreases lines.len() - ds.len(),
        {
            let ghost before = source.remaining();
            match source.parse_line() {
                Ok(Some(d)) => {
                    proof {
                        assert(before[0] == lines[ds.len() as int]);
                        let ds2 = ds.push(d);
                        assert(ds2.drop_last() =~= ds);
                        assert(source.remaining() =~= lines.subrange(ds2.len() as int, lines.len() as int));
                    }
                    db.insert(d);
                    proof {
                        ds = ds.push(d);
                    }
                },
                Ok(None) => {
                    assert(ds.len() == lines.len());
                    return Ok(db);
                },
                Err(e) => {
                    proof {
                        let k = ds.len() as int;
                        assert(before[0] == lines[k]);
                        assert(!record_ok(without_terminator(lines[k])));
                    }
                    return Err(e);
                },
            }
        }
    }

    /// Stores a record under its key, replacing any record stored there. A
    /// municipality also records its association under its short-form key.
    pub fn insert(&mut self, datensatz: Datensatz)
        requires
            old(self).wf(),
        ensures
            final(self).wf(),
            final(self)@ == old(self)@.with(datensatz),
    {
        let ghost before = self@;
        match datensatz {
            Datensatz::Land(v) => self.laender.insert(v),
            Datensatz::Regierungsbezirk(v) => self.regierungsbezirke.insert(v),
            Datensatz::Region(v) => self.regionen.insert(v),
            Datensatz::Kreis(v) => self.kreise.insert(v),
            Datensatz::Gemeindeverband(v) => self.gemeindeverbaende.insert(v),
            Datensatz::Gemeinde(v) => {
                let z = GemeindeverbandZuordnung {
                    regional: v.regional_schluessel(),
                    gemeindeverband: v.schluessel.gemeindeverband.gemeindeverband,
                };
                self.gemeindeverband_schluessel.insert(z);
                self.gemeinden.insert(v);
                assert(self@.gemeindeverband_schluessel =~= before.gemeindeverband_schluessel.insert(
                    z.regional,
                    z.gemeindeverband,
                ));
            },
        }
        assert(self@ == before.with(datensatz));
    }

    /// The full key of the municipality with short-form key
    /// `regional_schluessel`; `None` where no such municipality was stored.
    pub fn regional_to_gemeinde_schluessel(&self, regional_schluessel: RegionalSchluessel) -> (r:
        Option<GemeindeSchluessel>)
        requires
            self.wf(),
        ensures
            r == self@.resolve(regional_schluessel),
    {
        match self.gemeindeverband_schluessel.get(&regional_schluessel) {
            Some(z) => Some(regional_schluessel.to_gemeinde_schluessel(z.gemeindeverband)),
            None => None,
        }
    }

    /// The record of kind `V` that key `k` names: `k` is a key of `V`'s level
    /// or of a finer one, which names the record above it.
    pub fn get<K, V: Lookup<K>>(&self, k: K) -> (r: Option<&V>)
        requires
            self.wf(),
        ensures
            r matches Some(v) ==> V::found(k, self@) == Some(*v),
            r is None ==> V::found(k, self@) is None,
    {
        V::lookup(k, self)
    }

    /// All records of kind `V`, in ascending key order.
    pub fn all<V: IterAll>(&self) -> (r: &[V])
        requires
            self.wf(),
        ensures
            lists(r@, V::stored(self@)),
    {
        V::iter_all(self)
    }

    /// The records of kind `V` below key `k`, in ascending key order.
    pub fn children<K: IntoRangeKey<V::Key>, V: IterChildrenOf>(&self, k: K) -> (r: &[V])
        requires
            self.wf(),
        ensures
            lists(r@, below(V::stored(self@), k)),
    {
        V::iter_children_of(self, k)
    }
}

impl Default for Database {
    fn default() -> (r: Self)
        ensures
            r.wf(),
            r@ == DatabaseView::empty(),
    {
        Self::new()
    }
}

/// The entries of `m` whose keys lie below `key`.
pub open spec fn below<R: Record, K: IntoRangeKey<R::Key>>(m: Map<R::Key, R>, key: K) -> Map<
    R::Key,
    R,
> {
    m.restrict(Set::new(|t: R::Key| key.covers(t)))
}

/// `a` and `b` are records of one kind with one key.
pub open spec fn same_slot(a: Datensatz, b: Datensatz) -> bool {
    match (a, b) {
        (Datensatz::Land(x), Datensatz::Land(y)) => x.schluessel == y.schluessel,
        (Datensatz::Regierungsbezirk(x), Datensatz::Regierungsbezirk(y)) => x.schluessel
            == y.schluessel,
        (Datensatz::Region(x), Datensatz::Region(y)) => x.schluessel == y.schluessel,
        (Datensatz::Kreis(x), Datensatz::Kreis(y)) => x.schluessel == y.schluessel,
        (Datensatz::Gemeindeverband(x), Datensatz::Gemeindeverband(y)) => x.schluessel
            == y.schluessel,
        (Datensatz::Gemeinde(x), Datensatz::Gemeinde(y)) => x.schluessel == y.schluessel,
        _ => false,
    }
}

/// Last write wins: storing two records of one kind under one key, one after
/// the other, leaves the database as storing the second alone would.
pub proof fn lemma_last_write_wins(db: DatabaseView, first: Datensatz, second: Datensatz)
    requires
        same_slot(first, second),
    ensures
        db.with(first).with(second) == db.with(second),
{
    match (first, second) {
        (Datensatz::Land(x), Datensatz::Land(y)) => {
            assert(db.with(first).with(second).laender =~= db.with(second).laender);
        },
        (Datensatz::Regierungsbezirk(x), Datensatz::Regierungsbezirk(y)) => {
            assert(db.with(first).with(second).regierungsbezirke =~= db.with(
                second,
            ).regierungsbezirke);
        },
        (Datensatz::Region(x), Datensatz::Region(y)) => {
            assert(db.with(first).with(second).regionen =~= db.with(second).regionen);
        },
        (Datensatz::Kreis(x), Datensatz::Kreis(y)) => {
            assert(db.with(first).with(second).kreise =~= db.with(second).kreise);
        },
        (Datensatz::Gemeindeverband(x), Datensatz::Gemeindeverband(y)) => {
            assert(db.with(first).with(second).gemeindeverbaende =~= db.with(
                second,
            ).gemeindeverbaende);
        },
        (Datensatz::Gemeinde(x), Datensatz::Gemeinde(y)) => {
            assert(db.with(first).with(second).gemeinden =~= db.with(second).gemeinden);
            assert(db.with(first).with(second).gemeindeverband_schluessel =~= db.with(
                second,
            ).gemeindeverband_schluessel);
        },
        _ => {},
    }
}

/// Containment: a record stored in the database is among the children of
/// `key` that `children` returns exactly when the record's key lies below
/// `key`, i.e. its leading components are `key`'s.
pub proof fn lemma_children_contain_exactly_descendants<V: IterChildrenOf, K: IntoRangeKey<V::Key>>(
    db: DatabaseView,
    key: K,
    children: Seq<V>,
    b: V,
)
    requires
        lists(children, below(V::stored(db), key)),
        V::stored(db).contains_key(b.key()),
        V::stored(db)[b.key()] == b,
    ensures
        children.contains(b) <==> key.covers(b.key()),
{
    let m = below(V::stored(db), key);
    if children.contains(b) {
        let i = choose|i: int| 0 <= i < children.len() && children[i] == b;
        assert(m.contains_key(children[i].key()));
    }
    if key.covers(b.key()) {
        assert(m.contains_key(b.key()));
        let i = choose|i: int| 0 <= i < children.len() && (#[trigger] children[i]).key() == b.key();
        assert(m[children[i].key()] == children[i]);
        assert(children[i] == b);
    }
}

/// Completeness: what `children` returns for `key` lies below `key` and is
/// stored, comes in ascending key order, and misses no stored record below
/// `key`.
pub proof fn lemma_children_complete<V: IterChildrenOf, K: IntoRangeKey<V::Key>>(
    db: DatabaseView,
    key: K,
    children: Seq<V>,
)
    requires
        lists(children, below(V::stored(db), key)),
    ensures
        forall|i: int|
            0 <= i < children.len() ==> key.covers((#[trigger] children[i]).key()) && V::stored(
                db,
            ).contains_key(children[i].key()) && V::stored(db)[children[i].key()] == children[i],
        forall|i: int, j: int|
            0 <= i < j < children.len() ==> (#[trigger] children[i]).key().rank() < (
            #[trigger] children[j]).key().rank(),
        forall|k: V::Key|
            V::stored(db).contains_key(k) && #[trigger] key.covers(k) ==> exists|i: int|
                0 <= i < children.len() && (#[trigger] children[i]).key() == k,
{
    let m = below(V::stored(db), key);
    assert forall|k: V::Key| V::stored(db).contains_key(k) && #[trigger] key.covers(k) implies exists|
        i: int,
    | 0 <= i < children.len() && (#[trigger] children[i]).key() == k by {
        assert(m.contains_key(k));
    }
}

/// A key whose descendants of key type `T` form one range of keys.
pub trait IntoRangeKey<T: Schluessel>: Sized {
    /// `t` lies below this key: its leading components are this key's.
    spec fn covers(&self, t: T) -> bool;

    /// The range of keys of type `T` that holds exactly the keys below this one.
    fn into_range_key(self) -> (r: RangeInclusive<T>)
        ensures
            !r@.exhausted,
            forall|t: T| #[trigger]
                self.covers(t) <==> r@.start.rank() <= t.rank() <= r@.end.rank(),
    ;
}

/// Lookup of a record of this kind by a key of type `K`.
pub trait Lookup<K>: Sized {
    /// The record that `key` names in `db`, if one is stored.
    spec fn found(key: K, db: DatabaseView) -> Option<Self>;

    fn lookup(key: K, db: &Database) -> (r: Option<&Self>)
        requires
            db.wf(),
        ensures
            r matches Some(v) ==> Self::found(key, db@) == Some(*v),
            r is None ==> Self::found(key, db@) is None,
    ;
}

/// Enumeration of all records of this kind.
pub trait IterAll: Record {
    /// The records of this kind in `db`, by key.
    spec fn stored(db: DatabaseView) -> Map<Self::Key, Self>;

    fn iter_all(db: &Database) -> (r: &[Self])
        requires
            db.wf(),
        ensures
            lists(r@, Self::stored(db@)),
    ;
}

/// Enumeration of the records of this kind below a key of a coarser level.
pub trait IterChildrenOf: IterAll {
    fn iter_children_of<K: IntoRangeKey<Self::Key>>(db: &Database, key: K) -> (r: &[Self])
        requires
            db.wf(),
        ensures
            lists(r@, below(Self::stored(db@), key)),
    ;
}

impl Lookup<RegionalSchluessel> for GemeindeDaten {
    open spec fn found(key: RegionalSchluessel, db: DatabaseView) -> Option<Self> {
        match db.resolve(key) {
            Some(k) => entry(db.gemeinden, k),
            None => None,
        }
    }

    fn lookup(key: RegionalSchluessel, db: &Database) -> (r: Option<&Self>) {
        match db.regional_to_gemeinde_schluessel(key) {
            Some(k) => db.gemeinden.get(&k),
            None => None,
        }
    }
}

/// The Regierungsbezirke within a Land.
impl IntoRangeKey<RegierungsbezirkSchluessel> for LandSchluessel {
    open spec fn covers(&self, t: RegierungsbezirkSchluessel) -> bool {
        t.land == *self
    }

    fn into_range_key(self) -> (r: RangeInclusive<RegierungsbezirkSchluessel>) {
        let low = RegierungsbezirkSchluessel::new(self, u8::MIN);
        let high = RegierungsbezirkSchluessel::new(self, u8::MAX);
        proof {
            assert(low.rank() == self.rank() * 256);
            assert(high.rank() == self.rank() * 256 + 255);
            assert forall|t: RegierungsbezirkSchluessel| #[trigger] self.covers(t) <==> low.rank() <= t.rank() <= high.rank() by {
                LandSchluessel::lemma_rank_injective(t.land, self);
                lemma_block(t.land.rank(), t.rank() - t.land.rank() * 256, self.rank(), 256);
            }
        }
        RangeInclusive::new(low, high)
    }
}

/// The Regionen within a Land.
impl IntoRangeKey<RegionSchluessel> for LandSchluessel {
    open spec fn covers(&self, t: RegionSchluessel) -> bool {
        t.regierungsbezirk.land == *self
    }

    fn into_range_key(self) -> (r: RangeInclusive<RegionSchluessel>) {
        let low = RegionSchluessel::new(RegierungsbezirkSchluessel::new(self, u8::MIN), u8::MIN);
        let high = RegionSchluessel::new(RegierungsbezirkSchluessel::new(self, u8::MAX), u8::MAX);
        proof {
            assert(low.rank() == self.rank() * 65536);
            assert(high.rank() == self.rank() * 65536 + 65535);
            assert forall|t: RegionSchluessel| #[trigger] self.covers(t) <==> low.rank() <= t.rank() <= high.rank() by {
                LandSchluessel::lemma_rank_injective(t.regierungsbezirk.land, self);
                lemma_block(t.regierungsbezirk.land.rank(), t.rank() - t.regierungsbezirk.land.rank() * 65536, self.rank(), 65536);
            }
        }
        RangeInclusive::new(low, high)
    }
}

/// The Kreise within a Land.
impl IntoRangeKey<KreisSchluessel> for LandSchluessel {
    open spec fn covers(&self, t: KreisSchluessel) -> bool {
        t.regierungsbezirk.land == *self
    }

    fn into_range_key(self) -> (r: RangeInclusive<KreisSchluessel>) {
        let low = KreisSchluessel::new(RegierungsbezirkSchluessel::new(self, u8::MIN), u8::MIN);
        let high = KreisSchluessel::new(RegierungsbezirkSchluessel::new(self, u8::MAX), u8::MAX);
        proof {
            assert(low.rank() == self.rank() * 65536);
            assert(high.rank() == self.rank() * 65536 + 65535);
            assert forall|t: KreisSchluessel| #[trigger] self.covers(t) <==> low.rank() <= t.rank() <= high.rank() by {
                LandSchluessel::lemma_rank_injective(t.regierungsbezirk.land, self);
                lemma_block(t.regierungsbezirk.land.rank(), t.rank() - t.regierungsbezirk.land.rank() * 65536, self.rank(), 65536);
            }
        }
        RangeInclusive::new(low, high)
    }
}

/// The Gemeindeverbaende within a Land.
impl IntoRangeKey<GemeindeverbandSchluessel> for LandSchluessel {
    open spec fn covers(&self, t: GemeindeverbandSchluessel) -> bool {
        t.kreis.regierungsbezirk.land == *self
    }

    fn into_range_key(self) -> (r: RangeInclusive<GemeindeverbandSchluessel>) {
        let low = GemeindeverbandSchluessel::new(KreisSchluessel::new(RegierungsbezirkSchluessel::new(self, u8::MIN), u8::MIN), u16::MIN);
        let high = GemeindeverbandSchluessel::new(KreisSchluessel::new(RegierungsbezirkSchluessel::new(self, u8::MAX), u8::MAX), u16::MAX);
        proof {
            assert(low.rank() == self.rank() * 4294967296);
            assert(high.rank() == self.rank() * 4294967296 + 4294967295);
            assert forall|t: GemeindeverbandSchluessel| #[trigger] self.covers(t) <==> low.rank() <= t.rank() <= high.rank() by {
                LandSchluessel::lemma_rank_injective(t.kreis.regierungsbezirk.land, self);
                lemma_block(t.kreis.regierungsbezirk.land.rank(), t.rank() - t.kreis.regierungsbezirk.land.rank() * 4294967296, self.rank(), 4294967296);
            }
        }
        RangeInclusive::new(low, high)
    }
}

/// The Gemeinden within a Land.
impl IntoRangeKey<GemeindeSchluessel> for LandSchluessel {
    open spec fn covers(&self, t: GemeindeSchluessel) -> bool {
        t.gemeindeverband.kreis.regierungsbezirk.land == *self
    }

    fn into_range_key(self) -> (r: RangeInclusive<GemeindeSchluessel>) {
        let low = GemeindeSchluessel::new(GemeindeverbandSchluessel::new(KreisSchluessel::new(RegierungsbezirkSchluessel::new(self, u8::MIN), u8::MIN), u16::MIN), u16::MIN);
        let high = GemeindeSchluessel::new(GemeindeverbandSchluessel::new(KreisSchluessel::new(RegierungsbezirkSchluessel::new(self, u8::MAX), u8::MAX), u16::MAX), u16::MAX);
        proof {
            assert(low.rank() == self.rank() * 281474976710656);
            assert(high.rank() == self.rank() * 281474976710656 + 281474976710655);
            assert forall|t: GemeindeSchluessel| #[trigger] self.covers(t) <==> low.rank() <= t.rank() <= high.rank() by {
                LandSchluessel::lemma_rank_injective(t.gemeindeverband.kreis.regierungsbezirk.land, self);
                lemma_block(t.gemeindeverband.kreis.regierungsbezirk.land.rank(), t.rank() - t.gemeindeverband.kreis.regierungsbezirk.land.rank() * 281474976710656, self.rank(), 281474976710656);
            }
        }
        RangeInclusive::new(low, high)
    }
}

/// The Regionen within a Regierungsbezirk.
impl IntoRangeKey<RegionSchluessel> for RegierungsbezirkSchluessel {
    open spec fn covers(&self, t: RegionSchluessel) -> bool {
        t.regierungsbezirk == *self
    }

    fn into_range_key(self) -> (r: RangeInclusive<RegionSchluessel>) {
        let low = RegionSchluessel::new(self, u8::MIN);
        let high = RegionSchluessel::new(self, u8::MAX);
        proof {
            assert(low.rank() == self.rank() * 256);
            assert(high.rank() == self.rank() * 256 + 255);
            assert forall|t: RegionSchluessel| #[trigger] self.covers(t) <==> low.rank() <= t.rank() <= high.rank() by {
                RegierungsbezirkSchluessel::lemma_rank_injective(t.regierungsbezirk, self);
                lemma_block(t.regierungsbezirk.rank(), t.rank() - t.regierungsbezirk.rank() * 256, self.rank(), 256);
            }
        }
        RangeInclusive::new(low, high)
    }
}

/// The Kreise within a Regierungsbezirk.
impl IntoRangeKey<KreisSchluessel> for RegierungsbezirkSchluessel {
    open spec fn covers(&self, t: KreisSchluessel) -> bool {
        t.regierungsbezirk == *self
    }

    fn into_range_key(self) -> (r: RangeInclusive<KreisSchluessel>) {
        let low = KreisSchluessel::new(self, u8::MIN);
        let high = KreisSchluessel::new(self, u8::MAX);
        proof {
            assert(low.rank() == self.rank() * 256);
            assert(high.rank() == self.rank() * 256 + 255);
            assert forall|t: KreisSchluessel| #[trigger] self.covers(t) <==> low.rank() <= t.rank() <= high.rank() by {
                RegierungsbezirkSchluessel::lemma_rank_injective(t.regierungsbezirk, self);
                lemma_block(t.regierungsbezirk.rank(), t.rank() - t.regierungsbezirk.rank() * 256, self.rank(), 256);
            }
        }
        RangeInclusive::new(low, high)
    }
}

/// The Gemeindeverbaende within a Regierungsbezirk.
impl IntoRangeKey<GemeindeverbandSchluessel> for RegierungsbezirkSchluessel {
    open spec fn covers(&self, t: GemeindeverbandSchluessel) -> bool {
        t.kreis.regierungsbezirk == *self
    }

    fn into_range_key(self) -> (r: RangeInclusive<GemeindeverbandSchluessel>) {
        let low = GemeindeverbandSchluessel::new(KreisSchluessel::new(self, u8::MIN), u16::MIN);
        let high = GemeindeverbandSchluessel::new(KreisSchluessel::new(self, u8::MAX), u16::MAX);
        proof {
            assert(low.rank() == self.rank() * 16777216);
            assert(high.rank() == self.rank() * 16777216 + 16777215);
            assert forall|t: GemeindeverbandSchluessel| #[trigger] self.covers(t) <==> low.rank() <= t.rank() <= high.rank() by {
                RegierungsbezirkSchluessel::lemma_rank_injective(t.kreis.regierungsbezirk, self);
                lemma_block(t.kreis.regierungsbezirk.rank(), t.rank() - t.kreis.regierungsbezirk.rank() * 16777216, self.rank(), 16777216);
            }
        }
        RangeInclusive::new(low, high)
    }
}

/// The Gemeinden within a Regierungsbezirk.
impl IntoRangeKey<GemeindeSchluessel> for RegierungsbezirkSchluessel {
    open spec fn covers(&self, t: GemeindeSchluessel) -> bool {
        t.gemeindeverband.kreis.regierungsbezirk == *self
    }

    fn into_range_key(self) -> (r: RangeInclusive<GemeindeSchluessel>) {
        let low = GemeindeSchluessel::new(GemeindeverbandSchluessel::new(KreisSchluessel::new(self, u8::MIN), u16::MIN), u16::MIN);
        let high = GemeindeSchluessel::new(GemeindeverbandSchluessel::new(KreisSchluessel::new(self, u8::MAX), u16::MAX), u16::MAX);
        proof {
            assert(low.rank() == self.rank() * 1099511627776);
            assert(high.rank() == self.rank() * 1099511627776 + 1099511627775);
            assert forall|t: GemeindeSchluessel| #[trigger] self.covers(t) <==> low.rank() <= t.rank() <= high.rank() by {
                RegierungsbezirkSchluessel::lemma_rank_injective(t.gemeindeverband.kreis.regierungsbezirk, self);
                lemma_block(t.gemeindeverband.kreis.regierungsbezirk.rank(), t.rank() - t.gemeindeverband.kreis.regierungsbezirk.rank() * 1099511627776, self.rank(), 1099511627776);
            }
        }
        RangeInclusive::new(low, high)
    }
}

/// The Gemeindeverbaende within a Kreis.
impl IntoRangeKey<GemeindeverbandSchluessel> for KreisSchluessel {
    open spec fn covers(&self, t: GemeindeverbandSchluessel) -> bool {
        t.kreis == *self
    }

    fn into_range_key(self) -> (r: RangeInclusive<GemeindeverbandSchluessel>) {
        let low = GemeindeverbandSchluessel::new(self, u16::MIN);
        let high = GemeindeverbandSchluessel::new(self, u16::MAX);
        proof {
            assert(low.rank() == self.rank() * 65536);
            assert(high.rank() == self.rank() * 65536 + 65535);
            assert forall|t: GemeindeverbandSchluessel| #[trigger] self.covers(t) <==> low.rank() <= t.rank() <= high.rank() by {
                KreisSchluessel::lemma_rank_injective(t.kreis, self);
                lemma_block(t.kreis.rank(), t.rank() - t.kreis.rank() * 65536, self.rank(), 65536);
            }
        }
        RangeInclusive::new(low, high)
    }
}

/// The Gemeinden within a Kreis.
impl IntoRangeKey<GemeindeSchluessel> for KreisSchluessel {
    open spec fn covers(&self, t: GemeindeSchluessel) -> bool {
        t.gemeindeverband.kreis == *self
    }

    fn into_range_key(self) -> (r: RangeInclusive<GemeindeSchluessel>) {
        let low = GemeindeSchluessel::new(GemeindeverbandSchluessel::new(self, u16::MIN), u16::MIN);
        let high = GemeindeSchluessel::new(GemeindeverbandSchluessel::new(self, u16::MAX), u16::MAX);
        proof {
            assert(low.rank() == self.rank() * 4294967296);
            assert(high.rank() == self.rank() * 4294967296 + 4294967295);
            assert forall|t: GemeindeSchluessel| #[trigger] self.covers(t) <==> low.rank() <= t.rank() <= high.rank() by {
                KreisSchluessel::lemma_rank_injective(t.gemeindeverband.kreis, self);
                lemma_block(t.gemeindeverband.kreis.rank(), t.rank() - t.gemeindeverband.kreis.rank() * 4294967296, self.rank(), 4294967296);
            }
        }
        RangeInclusive::new(low, high)
    }
}

/// The Gemeinden within a Gemeindeverband.
impl IntoRangeKey<GemeindeSchluessel> for GemeindeverbandSchluessel {
    open spec fn covers(&self, t: GemeindeSchluessel) -> bool {
        t.gemeindeverband == *self
    }

    fn into_range_key(self) -> (r: RangeInclusive<GemeindeSchluessel>) {
        let low = GemeindeSchluessel::new(self, u16::MIN);
        let high = GemeindeSchluessel::new(self, u16::MAX);
        proof {
            assert(low.rank() == self.rank() * 65536);
            assert(high.rank() == self.rank() * 65536 + 65535);
            assert forall|t: GemeindeSchluessel| #[trigger] self.covers(t) <==> low.rank() <= t.rank() <= high.rank() by {
                GemeindeverbandSchluessel::lemma_rank_injective(t.gemeindeverband, self);
                lemma_block(t.gemeindeverband.rank(), t.rank() - t.gemeindeverband.rank() * 65536, self.rank(), 65536);
            }
        }
        RangeInclusive::new(low, high)
    }
}

impl Lookup<LandSchluessel> for LandDaten {
    open spec fn found(key: LandSchluessel, db: DatabaseView) -> Option<Self> {
        entry(db.laender, key)
    }

    fn lookup(key: LandSchluessel, db: &Database) -> (r: Option<&Self>) {
        db.laender.get(&key)
    }
}

impl Lookup<RegierungsbezirkSchluessel> for LandDaten {
    open spec fn found(key: RegierungsbezirkSchluessel, db: DatabaseView) -> Option<Self> {
        entry(db.laender, key.land)
    }

    fn lookup(key: RegierungsbezirkSchluessel, db: &Database) -> (r: Option<&Self>) {
        db.laender.get(&key.land)
    }
}

impl Lookup<RegionSchluessel> for LandDaten {
    open spec fn found(key: RegionSchluessel, db: DatabaseView) -> Option<Self> {
        entry(db.laender, key.regierungsbezirk.land)
    }

    fn lookup(key: RegionSchluessel, db: &Database) -> (r: Option<&Self>) {
        db.laender.get(&key.regierungsbezirk.land)
    }
}

impl Lookup<KreisSchluessel> for LandDaten {
    open spec fn found(key: KreisSchluessel, db: DatabaseView) -> Option<Self> {
        entry(db.laender, key.regierungsbezirk.land)
    }

    fn lookup(key: KreisSchluessel, db: &Database) -> (r: Option<&Self>) {
        db.laender.get(&key.regierungsbezirk.land)
    }
}

impl Lookup<GemeindeverbandSchluessel> for LandDaten {
    open spec fn found(key: GemeindeverbandSchluessel, db: DatabaseView) -> Option<Self> {
        entry(db.laender, key.kreis.regierungsbezirk.land)
    }

    fn lookup(key: GemeindeverbandSchluessel, db: &Database) -> (r: Option<&Self>) {
        db.laender.get(&key.kreis.regierungsbezirk.land)
    }
}

impl Lookup<GemeindeSchluessel> for LandDaten {
    open spec fn found(key: GemeindeSchluessel, db: DatabaseView) -> Option<Self> {
        entry(db.laender, key.gemeindeverband.kreis.regierungsbezirk.land)
    }

    fn lookup(key: GemeindeSchluessel, db: &Database) -> (r: Option<&Self>) {
        db.laender.get(&key.gemeindeverband.kreis.regierungsbezirk.land)
    }
}

impl Lookup<RegierungsbezirkSchluessel> for RegierungsbezirkDaten {
    open spec fn found(key: RegierungsbezirkSchluessel, db: DatabaseView) -> Option<Self> {
        entry(db.regierungsbezirke, key)
    }

    fn lookup(key: RegierungsbezirkSchluessel, db: &Database) -> (r: Option<&Self>) {
        db.regierungsbezirke.get(&key)
    }
}

impl Lookup<RegionSchluessel> for RegierungsbezirkDaten {
    open spec fn found(key: RegionSchluessel, db: DatabaseView) -> Option<Self> {
        entry(db.regierungsbezirke, key.regierungsbezirk)
    }

    fn lookup(key: RegionSchluessel, db: &Database) -> (r: Option<&Self>) {
        db.regierungsbezirke.get(&key.regierungsbezirk)
    }
}

impl Lookup<KreisSchluessel> for RegierungsbezirkDaten {
    open spec fn found(key: KreisSchluessel, db: DatabaseView) -> Option<Self> {
        entry(db.regierungsbezirke, key.regierungsbezirk)
    }

    fn lookup(key: KreisSchluessel, db: &Database) -> (r: Option<&Self>) {
        db.regierungsbezirke.get(&key.regierungsbezirk)
    }
}

impl Lookup<GemeindeverbandSchluessel> for RegierungsbezirkDaten {
    open spec fn found(key: GemeindeverbandSchluessel, db: DatabaseView) -> Option<Self> {
        entry(db.regierungsbezirke, key.kreis.regierungsbezirk)
    }

    fn lookup(key: GemeindeverbandSchluessel, db: &Database) -> (r: Option<&Self>) {
        db.regierungsbezirke.get(&key.kreis.regierungsbezirk)
    }
}

impl Lookup<GemeindeSchluessel> for RegierungsbezirkDaten {
    open spec fn found(key: GemeindeSchluessel, db: DatabaseView) -> Option<Self> {
        entry(db.regierungsbezirke, key.gemeindeverband.kreis.regierungsbezirk)
    }

    fn lookup(key: GemeindeSchluessel, db: &Database) -> (r: Option<&Self>) {
        db.regierungsbezirke.get(&key.gemeindeverband.kreis.regierungsbezirk)
    }
}

impl Lookup<RegionSchluessel> for RegionDaten {
    open spec fn found(key: RegionSchluessel, db: DatabaseView) -> Option<Self> {
        entry(db.regionen, key)
    }

    fn lookup(key: RegionSchluessel, db: &Database) -> (r: Option<&Self>) {
        db.regionen.get(&key)
    }
}

impl Lookup<KreisSchluessel> for KreisDaten {
    open spec fn found(key: KreisSchluessel, db: DatabaseView) -> Option<Self> {
        entry(db.kreise, key)
    }

    fn lookup(key: KreisSchluessel, db: &Database) -> (r: Option<&Self>) {
        db.kreise.get(&key)
    }
}

impl Lookup<GemeindeverbandSchluessel> for KreisDaten {
    open spec fn found(key: GemeindeverbandSchluessel, db: DatabaseView) -> Option<Self> {
        entry(db.kreise, key.kreis)
    }

    fn lookup(key: GemeindeverbandSchluessel, db: &Database) -> (r: Option<&Self>) {
        db.kreise.get(&key.kreis)
    }
}

impl Lookup<GemeindeSchluessel> for KreisDaten {
    open spec fn found(key: GemeindeSchluessel, db: DatabaseView) -> Option<Self> {
        entry(db.kreise, key.gemeindeverband.kreis)
    }

    fn lookup(key: GemeindeSchluessel, db: &Database) -> (r: Option<&Self>) {
        db.kreise.get(&key.gemeindeverband.kreis)
    }
}

impl Lookup<GemeindeverbandSchluessel> for GemeindeverbandDaten {
    open spec fn found(key: GemeindeverbandSchluessel, db: DatabaseView) -> Option<Self> {
        entry(db.gemeindeverbaende, key)
    }

    fn lookup(key: GemeindeverbandSchluessel, db: &Database) -> (r: Option<&Self>) {
        db.gemeindeverbaende.get(&key)
    }
}

impl Lookup<GemeindeSchluessel> for GemeindeverbandDaten {
    open spec fn found(key: GemeindeSchluessel, db: DatabaseView) -> Option<Self> {
        entry(db.gemeindeverbaende, key.gemeindeverband)
    }

    fn lookup(key: GemeindeSchluessel, db: &Database) -> (r: Option<&Self>) {
        db.gemeindeverbaende.get(&key.gemeindeverband)
    }
}

impl Lookup<GemeindeSchluessel> for GemeindeDaten {
    open spec fn found(key: GemeindeSchluessel, db: DatabaseView) -> Option<Self> {
        entry(db.gemeinden, key)
    }

    fn lookup(key: GemeindeSchluessel, db: &Database) -> (r: Option<&Self>) {
        db.gemeinden.get(&key)
    }
}
impl Record for LandDaten {
    type Key = LandSchluessel;

    open spec fn key(&self) -> LandSchluessel {
        self.schluessel
    }

    fn code(&self) -> (r: u64) {
        self.schluessel.code()
    }
}

impl IterAll for LandDaten {
    open spec fn stored(db: DatabaseView) -> Map<LandSchluessel, Self> {
        db.laender
    }

    fn iter_all(db: &Database) -> (r: &[Self]) {
        db.laender.rows()
    }
}

impl Record for RegierungsbezirkDaten {
    type Key = RegierungsbezirkSchluessel;

    open spec fn key(&self) -> RegierungsbezirkSchluessel {
        self.schluessel
    }

    fn code(&self) -> (r: u64) {
        self.schluessel.code()
    }
}

impl IterAll for RegierungsbezirkDaten {
    open spec fn stored(db: DatabaseView) -> Map<RegierungsbezirkSchluessel, Self> {
        db.regierungsbezirke
    }

    fn iter_all(db: &Database) -> (r: &[Self]) {
        db.regierungsbezirke.rows()
    }
}

impl IterChildrenOf for RegierungsbezirkDaten {
    fn iter_children_of<K: IntoRangeKey<RegierungsbezirkSchluessel>>(db: &Database, key: K) -> (r: &[Self]) {
        let range = key.into_range_key();
        let low = range.start().code();
        let high = range.end().code();
        let r = db.regierungsbezirke.range(low, high);
        proof {
            assert(Set::new(|t: RegierungsbezirkSchluessel| low <= t.rank() <= high) =~= Set::new(
                |t: RegierungsbezirkSchluessel| key.covers(t),
            ));
        }
        r
    }
}

impl Record for RegionDaten {
    type Key = RegionSchluessel;

    open spec fn key(&self) -> RegionSchluessel {
        self.schluessel
    }

    fn code(&self) -> (r: u64) {
        self.schluessel.code()
    }
}

impl IterAll for RegionDaten {
    open spec fn stored(db: DatabaseView) -> Map<RegionSchluessel, Self> {
        db.regionen
    }

    fn iter_all(db: &Database) -> (r: &[Self]) {
        db.regionen.rows()
    }
}

impl IterChildrenOf for RegionDaten {
    fn iter_children_of<K: IntoRangeKey<RegionSchluessel>>(db: &Database, key: K) -> (r: &[Self]) {
        let range = key.into_range_key();
        let low = range.start().code();
        let high = range.end().code();
        let r = db.regionen.range(low, high);
        proof {
            assert(Set::new(|t: RegionSchluessel| low <= t.rank() <= high) =~= Set::new(
                |t: RegionSchluessel| key.covers(t),
            ));
        }
        r
    }
}

impl Record for KreisDaten {
    type Key = KreisSchluessel;

    open spec fn key(&self) -> KreisSchluessel {
        self.schluessel
    }

    fn code(&self) -> (r: u64) {
        self.schluessel.code()
    }
}

impl IterAll for KreisDaten {
    open spec fn stored(db: DatabaseView) -> Map<KreisSchluessel, Self> {
        db.kreise
    }

    fn iter_all(db: &Database) -> (r: &[Self]) {
        db.kreise.rows()
    }
}

impl IterChildrenOf for KreisDaten {
    fn iter_children_of<K: IntoRangeKey<KreisSchluessel>>(db: &Database, key: K) -> (r: &[Self]) {
        let range = key.into_range_key();
        let low = range.start().code();
        let high = range.end().code();
        let r = db.kreise.range(low, high);
        proof {
            assert(Set::new(|t: KreisSchluessel| low <= t.rank() <= high) =~= Set::new(
                |t: KreisSchluessel| key.covers(t),
            ));
        }
        r
    }
}

impl Record for GemeindeverbandDaten {
    type Key = GemeindeverbandSchluessel;

    open spec fn key(&self) -> GemeindeverbandSchluessel {
        self.schluessel
    }

    fn code(&self) -> (r: u64) {
        self.schluessel.code()
    }
}

impl IterAll for GemeindeverbandDaten {
    open spec fn stored(db: DatabaseView) -> Map<GemeindeverbandSchluessel, Self> {
        db.gemeindeverbaende
    }

    fn iter_all(db: &Database) -> (r: &[Self]) {
        db.gemeindeverbaende.rows()
    }
}

impl IterChildrenOf for GemeindeverbandDaten {
    fn iter_children_of<K: IntoRangeKey<GemeindeverbandSchluessel>>(db: &Database, key: K) -> (r: &[Self]) {
        let range = key.into_range_key();
        let low = range.start().code();
        let high = range.end().code();
        let r = db.gemeindeverbaende.range(low, high);
        proof {
            assert(Set::new(|t: GemeindeverbandSchluessel| low <= t.rank() <= high) =~= Set::new(
                |t: GemeindeverbandSchluessel| key.covers(t),
            ));
        }
        r
    }
}

impl Record for GemeindeDaten {
    type Key = GemeindeSchluessel;

    open spec fn key(&self) -> GemeindeSchluessel {
        self.schluessel
    }

    fn code(&self) -> (r: u64) {
        self.schluessel.code()
    }
}

impl IterAll for GemeindeDaten {
    open spec fn stored(db: DatabaseView) -> Map<GemeindeSchluessel, Self> {
        db.gemeinden
    }

    fn iter_all(db: &Database) -> (r: &[Self]) {
        db.gemeinden.rows()
    }
}

impl IterChildrenOf for GemeindeDaten {
    fn iter_children_of<K: IntoRangeKey<GemeindeSchluessel>>(db: &Database, key: K) -> (r: &[Self]) {
        let range = key.into_range_key();
        let low = range.start().code();
        let high = range.end().code();
        let r = db.gemeinden.range(low, high);
        proof {
            assert(Set::new(|t: GemeindeSchluessel| low <= t.rank() <= high) =~= Set::new(
                |t: GemeindeSchluessel| key.covers(t),
            ));
        }
        r
    }
}
} // verus!
