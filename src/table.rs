//! An ordered table of records: a vector kept in ascending key order, with
//! point lookup, replacement on equal keys, and contiguous range scans.
use vstd::prelude::*;

use crate::model::key::Schluessel;

verus! {

/// A record stored under a composite key.
pub trait Record: Sized {
    type Key: Schluessel;

    /// The key the record is stored under.
    spec fn key(&self) -> Self::Key;

    /// The rank of the record's key.
    fn code(&self) -> (r: u64)
        ensures
            r as int == self.key().rank(),
    ;
}

/// `s` lists the entries of `m` in ascending key order, each once.
pub open spec fn lists<R: Record>(s: Seq<R>, m: Map<R::Key, R>) -> bool {
    &&& forall|i: int, j: int|
        0 <= i < j < s.len() ==> (#[trigger] s[i]).key().rank() < (#[trigger] s[j]).key().rank()
    &&& forall|i: int|
        0 <= i < s.len() ==> m.contains_key((#[trigger] s[i]).key()) && m[s[i].key()] == s[i]
    &&& forall|k: R::Key|
        #[trigger] m.contains_key(k) ==> exists|i: int| 0 <= i < s.len() && (#[trigger] s[i]).key() == k
}

/// The entries of `m` whose key ranks lie in `low..=high`.
pub open spec fn within<R: Record>(m: Map<R::Key, R>, low: int, high: int) -> Map<R::Key, R> {
    m.restrict(Set::new(|k: R::Key| low <= k.rank() <= high))
}

pub struct Table<R: Record> {
    rows: Vec<R>,
    entries: Ghost<Map<R::Key, R>>,
}

impl<R: Record> Table<R> {
    /// The rows list the entries, in ascending key order.
    pub closed spec fn wf(&self) -> bool {
        lists(self.rows@, self.entries@)
    }

    /// The records, by key.
    pub closed spec fn view(&self) -> Map<R::Key, R> {
        self.entries@
    }

    pub fn new() -> (r: Self)
        ensures
            r.wf(),
            r@ == Map::<R::Key, R>::empty(),
    {
        Table { rows: Vec::new(), entries: Ghost(Map::empty()) }
    }

    /// The first position whose rank is at least `code`.
    fn lower_bound(&self, code: u64) -> (i: usize)
        requires
            self.wf(),
        ensures
            i <= self.rows@.len(),
            forall|j: int| 0 <= j < i ==> self.rows@[j].key().rank() < code,
            forall|j: int| i <= j < self.rows@.len() ==> self.rows@[j].key().rank() >= code,
    {
        let mut lo: usize = 0;
        let mut hi: usize = self.rows.len();
        while lo < hi
            invariant
                lo <= hi <= self.rows@.len(),
                lists(self.rows@, self.entries@),
                forall|j: int| 0 <= j < lo ==> self.rows@[j].key().rank() < code,
                forall|j: int| hi <= j < self.rows@.len() ==> self.rows@[j].key().rank() >= code,
            decreases hi - lo,
        {
            let mid = lo + (hi - lo) / 2;
            if self.rows[mid].code() < code {
                assert forall|j: int| 0 <= j <= mid implies self.rows@[j].key().rank() < code by {
                    if j < mid {
                        assert(self.rows@[j].key().rank() < self.rows@[mid as int].key().rank());
                    }
                }
                lo = mid + 1;
            } else {
                assert forall|j: int| mid <= j < self.rows@.len() implies self.rows@[j].key().rank()
                    >= code by {
                    if j > mid {
                        assert(self.rows@[mid as int].key().rank() < self.rows@[j].key().rank());
                    }
                }
                hi = mid;
            }
        }
        lo
    }

    /// The first position whose rank exceeds `code`.
    fn upper_bound(&self, code: u64) -> (i: usize)
        requires
            self.wf(),
        ensures
            i <= self.rows@.len(),
            forall|j: int| 0 <= j < i ==> self.rows@[j].key().rank() <= code,
            forall|j: int| i <= j < self.rows@.len() ==> self.rows@[j].key().rank() > code,
    {
        let mut lo: usize = 0;
        let mut hi: usize = self.rows.len();
        while lo < hi
            invariant
                lo <= hi <= self.rows@.len(),
                lists(self.rows@, self.entries@),
                forall|j: int| 0 <= j < lo ==> self.rows@[j].key().rank() <= code,
                forall|j: int| hi <= j < self.rows@.len() ==> self.rows@[j].key().rank() > code,
            decreases hi - lo,
        {
            let mid = lo + (hi - lo) / 2;
            if self.rows[mid].code() <= code {
                assert forall|j: int| 0 <= j <= mid implies self.rows@[j].key().rank() <= code by {
                    if j < mid {
                        assert(self.rows@[j].key().rank() < self.rows@[mid as int].key().rank());
                    }
                }
                lo = mid + 1;
            } else {
                assert forall|j: int| mid <= j < self.rows@.len() implies self.rows@[j].key().rank()
                    > code by {
                    if j > mid {
                        assert(self.rows@[mid as int].key().rank() < self.rows@[j].key().rank());
                    }
                }
                hi = mid;
            }
        }
        lo
    }

    /// The record stored under `k`.
    pub fn get(&self, k: &R::Key) -> (r: Option<&R>)
        requires
            self.wf(),
        ensures
            r matches Some(v) ==> self@.contains_key(*k) && self@[*k] == *v,
            r is None ==> !self@.contains_key(*k),
    {
        let code = k.code();
        let i = self.lower_bound(code);
        if i < self.rows.len() && self.rows[i].code() == code {
            proof {
                R::Key::lemma_rank_injective(self.rows@[i as int].key(), *k);
            }
            Some(&self.rows[i])
        } else {
            proof {
                if self.entries@.contains_key(*k) {
                    let j = choose|j: int| 0 <= j < self.rows@.len() && self.rows@[j].key() == *k;
                    assert(self.rows@[j].key() == *k);
                    if i < self.rows@.len() && j != i {
                        assert(self.rows@[i as int].key().rank() < self.rows@[j].key().rank());
                    }
                }
            }
            None
        }
    }

    /// Stores `v` under its key, replacing what was stored there.
    pub fn insert(&mut self, v: R)
        requires
            old(self).wf(),
        ensures
            final(self).wf(),
            final(self)@ == old(self)@.insert(v.key(), v),
    {
        let code = v.code();
        let i = self.lower_bound(code);
        let ghost k = v.key();
        let ghost old_rows = self.rows@;
        let ghost old_entries = self.entries@;
        if i < self.rows.len() && self.rows[i].code() == code {
            proof {
                R::Key::lemma_rank_injective(old_rows[i as int].key(), k);
            }
            self.rows.set(i, v);
            let ghost new_rows = self.rows@;
            proof {
                assert(new_rows == old_rows.update(i as int, v));
                let m = old_entries.insert(k, v);
                assert forall|x: int, y: int| 0 <= x < y < new_rows.len() implies (
                #[trigger] new_rows[x]).key().rank() < (#[trigger] new_rows[y]).key().rank() by {
                    assert(old_rows[x].key().rank() < old_rows[y].key().rank());
                }
                assert forall|x: int| 0 <= x < new_rows.len() implies m.contains_key(
                    (#[trigger] new_rows[x]).key(),
                ) && m[new_rows[x].key()] == new_rows[x] by {
                    if x != i {
                        assert(old_entries.contains_key(old_rows[x].key()));
                        if old_rows[x].key() == k {
                            assert(old_rows[x].key().rank() == old_rows[i as int].key().rank());
                            if x < i {
                                assert(old_rows[x].key().rank() < old_rows[i as int].key().rank());
                            } else {
                                assert(old_rows[i as int].key().rank() < old_rows[x].key().rank());
                            }
                        }
                    }
                }
                assert forall|kk: R::Key| #[trigger] m.contains_key(kk) implies exists|x: int|
                    0 <= x < new_rows.len() && (#[trigger] new_rows[x]).key() == kk by {
                    if kk == k {
                        assert(new_rows[i as int].key() == kk);
                    } else {
                        let x = choose|x: int| 0 <= x < old_rows.len() && old_rows[x].key() == kk;
                        assert(old_rows[x].key() == kk);
                        assert(new_rows[x].key() == kk);
                    }
                }
            }
            self.entries = Ghost(old_entries.insert(k, v));
        } else {
            self.rows.insert(i, v);
            let ghost new_rows = self.rows@;
            proof {
                assert(new_rows == old_rows.insert(i as int, v));
                let m = old_entries.insert(k, v);
                assert forall|x: int| 0 <= x < old_rows.len() implies old_rows[x].key() != k by {
                    if x != i {
                        if x < i {
                            assert(old_rows[x].key().rank() < code);
                        } else {
                            assert(old_rows[x].key().rank() >= code);
                            if (i as int) < x {
                                assert(old_rows[i as int].key().rank() < old_rows[x].key().rank());
                            }
                        }
                    }
                }
                assert forall|x: int, y: int| 0 <= x < y < new_rows.len() implies (
                #[trigger] new_rows[x]).key().rank() < (#[trigger] new_rows[y]).key().rank() by {
                    if y < i {
                        assert(old_rows[x].key().rank() < old_rows[y].key().rank());
                    } else if y == i {
                    } else if x < i {
                        assert(old_rows[y - 1].key().rank() >= code);
                        if x < i {
                            assert(old_rows[x].key().rank() < code);
                        }
                    } else if x == i {
                        assert(old_rows[y - 1].key().rank() >= code);
                        assert(old_rows[y - 1].key() != k);
                        if old_rows[y - 1].key().rank() == code {
                            R::Key::lemma_rank_injective(old_rows[y - 1].key(), k);
                        }
                    } else {
                        assert(old_rows[x - 1].key().rank() < old_rows[y - 1].key().rank());
                    }
                }
                assert forall|x: int| 0 <= x < new_rows.len() implies m.contains_key(
                    (#[trigger] new_rows[x]).key(),
                ) && m[new_rows[x].key()] == new_rows[x] by {
                    if x < i {
                        assert(old_entries.contains_key(old_rows[x].key()));
                    } else if x > i {
                        assert(old_entries.contains_key(old_rows[x - 1].key()));
                    }
                }
                assert forall|kk: R::Key| #[trigger] m.contains_key(kk) implies exists|x: int|
                    0 <= x < new_rows.len() && (#[trigger] new_rows[x]).key() == kk by {
                    if kk == k {
                        assert(new_rows[i as int].key() == kk);
                    } else {
                        let x = choose|x: int| 0 <= x < old_rows.len() && old_rows[x].key() == kk;
                        assert(old_rows[x].key() == kk);
                        if x < i {
                            assert(new_rows[x].key() == kk);
                        } else {
                            assert(new_rows[x + 1].key() == kk);
                        }
                    }
                }
            }
            self.entries = Ghost(old_entries.insert(k, v));
        }
    }

    /// All records, in ascending key order.
    pub fn rows(&self) -> (r: &[R])
        requires
            self.wf(),
        ensures
            lists(r@, self@),
    {
        self.rows.as_slice()
    }

    /// The records whose key ranks lie in `low..=high`, in ascending key order.
    pub fn range(&self, low: u64, high: u64) -> (r: &[R])
        requires
            self.wf(),
        ensures
            lists(r@, within(self@, low as int, high as int)),
    {
        let a = self.lower_bound(low);
        let b = self.upper_bound(high);
        let b = if b < a {
            a
        } else {
            b
        };
        let r = vstd::slice::slice_subrange(self.rows.as_slice(), a, b);
        proof {
            let rows = self.rows@;
            let m = within(self.entries@, low as int, high as int);
            assert forall|x: int| 0 <= x < r@.len() implies m.contains_key((#[trigger] r@[x]).key())
                && m[r@[x].key()] == r@[x] by {
                assert(r@[x] == rows[a + x]);
                assert(self.entries@.contains_key(rows[a + x].key()));
            }
            assert forall|x: int, y: int| 0 <= x < y < r@.len() implies (#[trigger] r@[x]).key().rank()
                < (#[trigger] r@[y]).key().rank() by {
                assert(rows[a + x].key().rank() < rows[a + y].key().rank());
            }
            assert forall|kk: R::Key| #[trigger] m.contains_key(kk) implies exists|x: int|
                0 <= x < r@.len() && (#[trigger] r@[x]).key() == kk by {
                let j = choose|j: int| 0 <= j < rows.len() && rows[j].key() == kk;
                assert(rows[j].key() == kk);
                assert(r@[j - a] == rows[j]);
            }
        }
        r
    }
}

} // verus!
