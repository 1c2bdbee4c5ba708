//! The migration catalog: every schema change known to a build, in the one
//! order in which a store may receive them.

use crate::error::{CatalogDefect, MigrationError};
use crate::record::Migration;
use vstd::prelude::*;

verus! {

/// Some record of `records` carries `version`.
pub open spec fn present(records: Seq<Migration>, version: int) -> bool {
    exists|i: int| 0 <= i < records.len() && (#[trigger] records[i]).version == version
}

/// Two records of `records`, at different places, carry `version`.
pub open spec fn duplicated(records: Seq<Migration>, version: int) -> bool {
    exists|i: int, j: int|
        0 <= i < j < records.len() && (#[trigger] records[i]).version == version && (
        #[trigger] records[j]).version == version
}

/// One record of `records`, and no second one, carries `version`.
pub open spec fn exactly_once(records: Seq<Migration>, version: int) -> bool {
    present(records, version) && !duplicated(records, version)
}

/// The records, in whatever order they were declared, number their changes
/// 1, 2, .., n without a gap and without a duplicate.
pub open spec fn complete(records: Seq<Migration>) -> bool {
    forall|v: int| 1 <= v <= records.len() ==> #[trigger] exactly_once(records, v)
}

/// The record at place `i` carries version `i + 1`: the versions start at 1,
/// ascend strictly and leave no gap.
pub open spec fn in_version_order(records: Seq<Migration>) -> bool {
    forall|i: int| 0 <= i < records.len() ==> (#[trigger] records[i]).version == i + 1
}

/// A complete set of records has one arrangement in version order: two
/// lists in version order, each as long as the set and made of its records,
/// are the same list.
pub proof fn lemma_order_is_unique(records: Seq<Migration>, a: Seq<Migration>, b: Seq<Migration>)
    requires
        complete(records),
        a.len() == records.len(),
        b.len() == records.len(),
        in_version_order(a),
        in_version_order(b),
        forall|i: int| 0 <= i < a.len() ==> records.contains(#[trigger] a[i]),
        forall|i: int| 0 <= i < b.len() ==> records.contains(#[trigger] b[i]),
    ensures
        a == b,
{
    assert forall|i: int| 0 <= i < a.len() implies a[i] == b[i] by {
        assert(records.contains(a[i]));
        assert(records.contains(b[i]));
        let p = choose|p: int| 0 <= p < records.len() && records[p] == a[i];
        let q = choose|q: int| 0 <= q < records.len() && records[q] == b[i];
        assert(exactly_once(records, i + 1));
        if p < q {
            assert(records[p].version == i + 1 && records[q].version == i + 1);
        } else if q < p {
            assert(records[q].version == i + 1 && records[p].version == i + 1);
        }
    }
    assert(a =~= b);
}

/// The test that `records_above` applies: a version above `marker`.
pub open spec fn above(marker: int) -> spec_fn(Migration) -> bool {
    |record: Migration| record.version > marker
}

/// The records of `list` whose version is above `marker`, in the order of
/// the list: what a store with that marker has yet to receive.
pub open spec fn records_above(list: Seq<Migration>, marker: int) -> Seq<Migration> {
    list.filter(above(marker))
}

/// In a list in version order, the records above a marker are the records
/// that follow the first `marker` ones.
pub proof fn lemma_records_above_is_suffix(list: Seq<Migration>, marker: int)
    requires
        in_version_order(list),
        0 <= marker,
    ensures
        records_above(list, marker) == if marker <= list.len() {
            list.skip(marker)
        } else {
            Seq::<Migration>::empty()
        },
    decreases list.len(),
{
    reveal(Seq::filter);
    if list.len() > 0 {
        let front = list.drop_last();
        lemma_records_above_is_suffix(front, marker);
        if marker < list.len() {
            assert(list.skip(marker) =~= front.skip(marker).push(list.last()));
        } else if marker == list.len() {
            assert(list.skip(marker) =~= Seq::<Migration>::empty());
        }
    } else if marker == 0 {
        assert(list.skip(marker) =~= Seq::<Migration>::empty());
    }
}

/// How often a version occurs among some records.
enum Occurrence {
    Absent,
    Once(usize),
    Repeated,
}

/// Looks for the records that carry `version`.
fn locate(records: &Vec<Migration>, version: i64) -> (found: Occurrence)
    ensures
        match found {
            Occurrence::Absent => !present(records@, version as int),
            Occurrence::Once(i) => i < records.len() && records[i as int].version == version
                && exactly_once(records@, version as int),
            Occurrence::Repeated => duplicated(records@, version as int),
        },
{
    let mut first: Option<usize> = None;
    let mut j: usize = 0;
    while j < records.len()
        invariant
            j <= records.len(),
            match first {
                Some(f) => f < j && records[f as int].version == version && forall|k: int|
                    0 <= k < j && k != f ==> (#[trigger] records[k]).version != version,
                None => forall|k: int| 0 <= k < j ==> (#[trigger] records[k]).version != version,
            },
        decreases records.len() - j,
    {
        if records[j].version == version {
            if first.is_some() {
                return Occurrence::Repeated;
            }
            first = Some(j);
        }
        j += 1;
    }
    match first {
        Some(f) => Occurrence::Once(f),
        None => Occurrence::Absent,
    }
}

/// The ordered list of every schema change known to a build.
///
/// A catalog is valid by construction: its records carry the versions
/// 1, 2, .., n in this order, whatever the order in which they were declared.
pub struct Catalog {
    records: Vec<Migration>,
}

impl View for Catalog {
    type V = Seq<Migration>;

    /// The records of the catalog, oldest first.
    closed spec fn view(&self) -> Seq<Migration> {
        self.records@
    }
}

impl Catalog {
    /// What every catalog keeps to: its records are in version order.
    #[verifier::type_invariant]
    pub open spec fn ordered(self) -> bool {
        in_version_order(self@)
    }

    /// Builds the catalog of `records`, or names their first defect.
    ///
    /// The records may be declared in any order. They form a catalog when
    /// they are `complete`; the catalog then holds the same records in
    /// ascending order of version.
    pub fn new(records: Vec<Migration>) -> (built: Result<Catalog, CatalogDefect>)
        requires
            records.len() <= i64::MAX,
        ensures
            built is Ok <==> complete(records@),
            match built {
                Ok(catalog) => {
                    &&& complete(records@)
                    &&& catalog@.len() == records.len()
                    &&& in_version_order(catalog@)
                    &&& forall|i: int|
                        0 <= i < catalog@.len() ==> records@.contains(#[trigger] catalog@[i])
                },
                Err(CatalogDefect::MissingVersion(v)) => {
                    &&& 1 <= v <= records.len()
                    &&& !present(records@, v as int)
                    &&& forall|w: int| 1 <= w < v ==> #[trigger] exactly_once(records@, w)
                },
                Err(CatalogDefect::DuplicateVersion(v)) => {
                    &&& 1 <= v <= records.len()
                    &&& duplicated(records@, v as int)
                    &&& forall|w: int| 1 <= w < v ==> #[trigger] exactly_once(records@, w)
                },
            },
    {
        let n: usize = records.len();
        let mut placed: Vec<Migration> = Vec::new();
        let mut done: usize = 0;
        while done < n
            invariant
                n == records.len(),
                n <= i64::MAX,
                done <= n,
                placed.len() == done,
                in_version_order(placed@),
                forall|i: int| 0 <= i < placed.len() ==> records@.contains(#[trigger] placed@[i]),
                forall|w: int| 1 <= w <= done ==> #[trigger] exactly_once(records@, w),
            decreases n - done,
        {
            let wanted: i64 = (done + 1) as i64;
            match locate(&records, wanted) {
                Occurrence::Absent => {
                    assert(!exactly_once(records@, wanted as int));
                    return Err(CatalogDefect::MissingVersion(wanted));
                },
                Occurrence::Repeated => {
                    assert(!exactly_once(records@, wanted as int));
                    return Err(CatalogDefect::DuplicateVersion(wanted));
                },
                Occurrence::Once(at) => {
                    let record: Migration = records[at];
                    placed.push(record);
                    assert(records@[at as int] == record);
                },
            }
            done += 1;
        }
        Ok(Catalog { records: placed })
    }

    /// The full sequence of records, oldest first.
    pub fn list(&self) -> (list: Vec<Migration>)
        ensures
            list@ == self@,
            in_version_order(list@),
    {
        proof {
            use_type_invariant(self);
        }
        let mut list: Vec<Migration> = Vec::new();
        let mut i: usize = 0;
        while i < self.records.len()
            invariant
                i <= self.records.len(),
                list@ == self.records@.take(i as int),
            decreases self.records.len() - i,
        {
            list.push(self.records[i]);
            i += 1;
            assert(list@ =~= self.records@.take(i as int));
        }
        assert(list@ =~= self.records@);
        list
    }

    /// The highest version of the catalog, which is also the number of its
    /// records; 0 for a catalog without records.
    pub fn max_version(&self) -> (max: i64)
        ensures
            max == self@.len(),
            in_version_order(self@),
    {
        proof {
            use_type_invariant(self);
        }
        let n: usize = self.records.len();
        if n == 0 {
            0
        } else {
            self.records[n - 1].version
        }
    }

    /// The record that carries `version`, if the catalog has one.
    pub fn get(&self, version: i64) -> (found: Option<Migration>)
        ensures
            found is Some <==> 1 <= version <= self@.len(),
            found matches Some(record) ==> record == self@[version - 1] && record.version
                == version,
    {
        proof {
            use_type_invariant(self);
        }
        let n: usize = self.records.len();
        if n == 0 || version < 1 || version > self.records[n - 1].version {
            None
        } else {
            Some(self.records[(version - 1) as usize])
        }
    }

    /// What a store with this marker has yet to receive: the records whose
    /// version is above the marker, oldest first.
    ///
    /// A marker that no history of this catalog could have left behind is a
    /// version skew, and nothing is handed out.
    pub fn pending(&self, marker: i64) -> (plan: Result<Vec<Migration>, MigrationError>)
        ensures
            match plan {
                Ok(records) => {
                    &&& 0 <= marker <= self@.len()
                    &&& records@ == records_above(self@, marker as int)
                    &&& records@ == self@.skip(marker as int)
                },
                Err(error) => {
                    &&& marker < 0 || marker > self@.len()
                    &&& error == (MigrationError::VersionSkew {
                        marker,
                        max: self@.len() as i64,
                    })
                },
            },
    {
        proof {
            use_type_invariant(self);
        }
        let max: i64 = self.max_version();
        if marker < 0 || marker > max {
            return Err(MigrationError::VersionSkew { marker, max });
        }
        let n: usize = self.records.len();
        let mut records: Vec<Migration> = Vec::new();
        let mut i: usize = marker as usize;
        while i < n
            invariant
                n == self.records.len(),
                0 <= marker <= i <= n,
                records@ == self.records@.subrange(marker as int, i as int),
            decreases n - i,
        {
            records.push(self.records[i]);
            i += 1;
            assert(records@ =~= self.records@.subrange(marker as int, i as int));
        }
        proof {
            lemma_records_above_is_suffix(self.records@, marker as int);
        }
        Ok(records)
    }
}

} // verus!
