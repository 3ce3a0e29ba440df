use crate::table::str_eq;
use crate::Effectiveness;
use vstd::prelude::*;

verus! {

/// One classification, keyed by (table identity, workload name, injection
/// name).
#[derive(Debug)]
pub struct ResultEntry {
    pub table_name: String,
    pub workload: String,
    pub injection: String,
    pub effectiveness: Effectiveness,
}

/// Mathematical value of a `ResultEntry`.
pub ghost struct ResultEntryV {
    pub table_name: Seq<char>,
    pub workload: Seq<char>,
    pub injection: Seq<char>,
    pub effectiveness: Effectiveness,
}

impl View for ResultEntry {
    type V = ResultEntryV;

    open spec fn view(&self) -> ResultEntryV {
        ResultEntryV {
            table_name: self.table_name@,
            workload: self.workload@,
            injection: self.injection@,
            effectiveness: self.effectiveness,
        }
    }
}

/// Whether some entry already carries the given key.
pub open spec fn spec_has_key(
    entries: Seq<ResultEntryV>,
    table_name: Seq<char>,
    workload: Seq<char>,
    injection: Seq<char>,
) -> bool {
    exists|i: int|
        0 <= i < entries.len() && (#[trigger] entries[i]).table_name == table_name
            && entries[i].workload == workload && entries[i].injection == injection
}

/// How many entries carry the given injection and category.
pub open spec fn spec_count_matching(
    entries: Seq<ResultEntryV>,
    injection: Seq<char>,
    e: Effectiveness,
) -> nat
    decreases entries.len(),
{
    if entries.len() == 0 {
        0
    } else {
        spec_count_matching(entries.drop_last(), injection, e) + if entries.last().injection
            == injection && entries.last().effectiveness == e {
            1nat
        } else {
            0nat
        }
    }
}

/// The run-scoped map from result key to effectiveness.  Created fresh per
/// run, written incrementally, read once at the end; a key already present
/// is never overwritten.
#[derive(Debug)]
pub struct ResultMap {
    entries: Vec<ResultEntry>,
}

impl View for ResultMap {
    type V = Seq<ResultEntryV>;

    closed spec fn view(&self) -> Seq<ResultEntryV> {
        Seq::new(self.entries@.len(), |i: int| self.entries@[i]@)
    }
}

impl ResultMap {
    /// An empty map.
    pub fn new() -> (r: Self)
        ensures
            r@ == Seq::<ResultEntryV>::empty(),
    {
        let r = ResultMap { entries: Vec::new() };
        proof {
            assert(r@ =~= Seq::<ResultEntryV>::empty());
        }
        r
    }

    /// How many entries the map holds.
    pub fn len(&self) -> (r: usize)
        ensures
            r == self@.len(),
    {
        self.entries.len()
    }

    /// Whether the map already holds the given key.
    pub fn contains_key(&self, table_name: &str, workload: &str, injection: &str) -> (r: bool)
        ensures
            r == spec_has_key(self@, table_name@, workload@, injection@),
    {
        let mut i: usize = 0;
        while i < self.entries.len()
            invariant
                i <= self.entries@.len(),
                self@.len() == self.entries@.len(),
                forall|k: int|
                    0 <= k < i ==> !((#[trigger] self@[k]).table_name == table_name@
                        && self@[k].workload == workload@ && self@[k].injection == injection@),
            decreases self.entries@.len() - i,
        {
            let e = &self.entries[i];
            proof {
                assert(self@[i as int] == self.entries@[i as int]@);
            }
            if str_eq(&e.table_name, table_name) && str_eq(&e.workload, workload) && str_eq(
                &e.injection,
                injection,
            ) {
                return true;
            }
            i = i + 1;
        }
        false
    }

    /// Records one classification.  A fresh key is appended and `true`
    /// comes back; a key already present leaves the map unchanged and
    /// `false` comes back.
    pub fn insert(&mut self, entry: ResultEntry) -> (r: bool)
        ensures
            if spec_has_key(
                old(self)@,
                entry@.table_name,
                entry@.workload,
                entry@.injection,
            ) {
                final(self)@ == old(self)@ && !r
            } else {
                final(self)@ == old(self)@.push(entry@) && r
            },
    {
        if self.contains_key(
            entry.table_name.as_str(),
            entry.workload.as_str(),
            entry.injection.as_str(),
        ) {
            return false;
        }
        self.entries.push(entry);
        proof {
            assert(self@ =~= old(self)@.push(entry@));
        }
        true
    }

    /// How many entries carry the given injection and category.
    pub fn count_matching(&self, injection: &str, e: Effectiveness) -> (r: usize)
        ensures
            r == spec_count_matching(self@, injection@, e),
    {
        let ghost entries = self@;
        let mut count: usize = 0;
        let mut i: usize = 0;
        while i < self.entries.len()
            invariant
                i <= self.entries@.len(),
                entries == self@,
                entries.len() == self.entries@.len(),
                count == spec_count_matching(entries.take(i as int), injection@, e),
                count <= i,
            decreases self.entries@.len() - i,
        {
            let en = &self.entries[i];
            proof {
                assert(entries[i as int] == self.entries@[i as int]@);
                assert(entries.take(i + 1 as int).drop_last() =~= entries.take(i as int));
                assert(entries.take(i + 1 as int).last() == entries[i as int]);
            }
            let same_eff = matches!(
                (&en.effectiveness, &e),
                (Effectiveness::Success, Effectiveness::Success)
                | (Effectiveness::OtherError, Effectiveness::OtherError)
                | (Effectiveness::Failure, Effectiveness::Failure)
                | (Effectiveness::Consistent, Effectiveness::Consistent)
            );
            if str_eq(&en.injection, injection) && same_eff {
                count = count + 1;
            }
            i = i + 1;
        }
        proof {
            assert(entries.take(entries.len() as int) =~= entries);
        }
        count
    }
}

/// One aggregated row: for an injection kind, how many (table, workload)
/// trials fell into each category.
#[derive(Debug)]
pub struct InjectionCounts {
    pub injection: String,
    pub success: usize,
    pub other_error: usize,
    pub failure: usize,
    pub consistent: usize,
}

/// Tallies the completed map: one row per canonical injection kind, with
/// the count of entries in each of the four categories.
pub fn aggregate(results: &ResultMap) -> (r: Vec<InjectionCounts>)
    ensures
        r@.len() == crate::spec_injections().len(),
        forall|k: int|
            0 <= k < r@.len() ==> {
                &&& (#[trigger] r@[k]).injection@ == crate::spec_injections()[k]
                &&& r@[k].success == spec_count_matching(
                    results@,
                    crate::spec_injections()[k],
                    Effectiveness::Success,
                )
                &&& r@[k].other_error == spec_count_matching(
                    results@,
                    crate::spec_injections()[k],
                    Effectiveness::OtherError,
                )
                &&& r@[k].failure == spec_count_matching(
                    results@,
                    crate::spec_injections()[k],
                    Effectiveness::Failure,
                )
                &&& r@[k].consistent == spec_count_matching(
                    results@,
                    crate::spec_injections()[k],
                    Effectiveness::Consistent,
                )
            },
{
    let injections = crate::available_injections();
    let mut out: Vec<InjectionCounts> = Vec::new();
    let mut k: usize = 0;
    while k < injections.len()
        invariant
            k <= injections@.len(),
            injections@.len() == crate::spec_injections().len(),
            forall|j: int| 0 <= j < injections@.len() ==> injections@[j]@
                == crate::spec_injections()[j],
            out@.len() == k,
            forall|j: int|
                0 <= j < k ==> {
                    &&& (#[trigger] out@[j]).injection@ == crate::spec_injections()[j]
                    &&& out@[j].success == spec_count_matching(
                        results@,
                        crate::spec_injections()[j],
                        Effectiveness::Success,
                    )
                    &&& out@[j].other_error == spec_count_matching(
                        results@,
                        crate::spec_injections()[j],
                        Effectiveness::OtherError,
                    )
                    &&& out@[j].failure == spec_count_matching(
                        results@,
                        crate::spec_injections()[j],
                        Effectiveness::Failure,
                    )
                    &&& out@[j].consistent == spec_count_matching(
                        results@,
                        crate::spec_injections()[j],
                        Effectiveness::Consistent,
                    )
                },
        decreases injections@.len() - k,
    {
        let inj = injections[k];
        let row = InjectionCounts {
            injection: String::from_str(inj),
            success: results.count_matching(inj, Effectiveness::Success),
            other_error: results.count_matching(inj, Effectiveness::OtherError),
            failure: results.count_matching(inj, Effectiveness::Failure),
            consistent: results.count_matching(inj, Effectiveness::Consistent),
        };
        out.push(row);
        k = k + 1;
    }
    out
}

} // verus!
