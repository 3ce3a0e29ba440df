use crate::table::{
    Collation, Column, ColumnType, ColumnV, Index, IndexColumn, IndexColumnV, IndexV, Table,
    TableV, Uniqueness, spec_cols_distinct, spec_count_primary, spec_is_primary,
    spec_ixcol_prefix_ok, spec_optimized, spec_prefix_ok, spec_references_ok,
    spec_table_constraints, spec_udec, u64_dec,
};
use vstd::prelude::*;

verus! {

/// The schema space is a nested Cartesian product: a column type for `c1`
/// and for `c2` (five choices each), then for each of the two indices a
/// prefix length for each of its two columns (two choices each) and a
/// uniqueness kind (four choices).  A candidate is addressed by one number
/// below 6400 in mixed radix [5, 5, 2, 2, 4, 2, 2, 4].
pub const CANDIDATE_SPACE: u64 = 6400;

/// The column type encoded by a radix-five digit.
pub open spec fn spec_column_type_of(d: int) -> ColumnType {
    if d == 0 {
        ColumnType::Int
    } else if d == 1 {
        ColumnType::Varchar(None)
    } else if d == 2 {
        ColumnType::Varchar(Some(Collation::UnicodeCi))
    } else if d == 3 {
        ColumnType::Varchar(Some(Collation::GeneralCi))
    } else {
        ColumnType::Varchar(Some(Collation::Bin))
    }
}

/// The prefix length encoded by a radix-two digit: none, or three.
pub open spec fn spec_length_of(d: int) -> Option<u32> {
    if d == 0 {
        None
    } else {
        Some(3u32)
    }
}

/// The uniqueness kind encoded by a radix-four digit.
pub open spec fn spec_uniqueness_of(d: int) -> Uniqueness {
    if d == 0 {
        Uniqueness::NonUnique
    } else if d == 1 {
        Uniqueness::Unique
    } else if d == 2 {
        Uniqueness::ClusteredPrimary
    } else {
        Uniqueness::NonClusteredPrimary
    }
}

/// The raw choices a candidate number stands for, before filtering.
pub ghost struct CandidateV {
    /// Type of column c1.
    pub ct1: ColumnType,
    /// Type of column c2.
    pub ct2: ColumnType,
    /// Prefix length of index i1 on c1.
    pub l1a: Option<u32>,
    /// Prefix length of index i1 on c2.
    pub l1b: Option<u32>,
    /// Uniqueness of index i1.
    pub u1: Uniqueness,
    /// Prefix length of index i2 on c2.
    pub l2a: Option<u32>,
    /// Prefix length of index i2 on c1.
    pub l2b: Option<u32>,
    /// Uniqueness of index i2.
    pub u2: Uniqueness,
}

/// Mixed-radix decoding of a candidate number.
pub open spec fn spec_candidate(i: int) -> CandidateV {
    let ct1 = spec_column_type_of(i / 1280);
    let r1 = i % 1280;
    let ct2 = spec_column_type_of(r1 / 256);
    let r2 = r1 % 256;
    let l1a = spec_length_of(r2 / 128);
    let r3 = r2 % 128;
    let l1b = spec_length_of(r3 / 64);
    let r4 = r3 % 64;
    let u1 = spec_uniqueness_of(r4 / 16);
    let r5 = r4 % 16;
    let l2a = spec_length_of(r5 / 8);
    let r6 = r5 % 8;
    let l2b = spec_length_of(r6 / 4);
    let u2 = spec_uniqueness_of(r6 % 4);
    CandidateV { ct1, ct2, l1a, l1b, u1, l2a, l2b, u2 }
}

/// A prefix length is legal only over a string column.
pub open spec fn spec_length_ok(l: Option<u32>, t: ColumnType) -> bool {
    l is Some ==> t is Varchar
}

/// Whether the candidate passes the structural filter: every prefix length
/// sits over a string column, and the two indices are not both primary.
pub open spec fn spec_candidate_ok(i: int) -> bool {
    let c = spec_candidate(i);
    &&& spec_length_ok(c.l1a, c.ct1)
    &&& spec_length_ok(c.l1b, c.ct2)
    &&& spec_length_ok(c.l2a, c.ct2)
    &&& spec_length_ok(c.l2b, c.ct1)
    &&& !(spec_is_primary(c.u1) && spec_is_primary(c.u2))
}

/// The table a valid candidate yields, named after how many valid
/// candidates came before it.
pub open spec fn spec_candidate_table(i: int, n: int) -> TableV {
    let c = spec_candidate(i);
    TableV {
        name: "t"@ + spec_udec(n),
        cols: seq![
            ColumnV { name: "c1"@, column_type: c.ct1 },
            ColumnV { name: "c2"@, column_type: c.ct2 },
        ],
        indices: seq![
            IndexV {
                name: "i1"@,
                columns: seq![
                    IndexColumnV { name: "c1"@, length: c.l1a },
                    IndexColumnV { name: "c2"@, length: c.l1b },
                ],
                unique: c.u1,
            },
            IndexV {
                name: "i2"@,
                columns: seq![
                    IndexColumnV { name: "c2"@, length: c.l2a },
                    IndexColumnV { name: "c1"@, length: c.l2b },
                ],
                unique: c.u2,
            },
        ],
    }
}

/// How many candidates below `i` pass the filter.
pub open spec fn spec_num_valid_before(i: int) -> nat
    decreases i,
{
    if i <= 0 {
        0
    } else {
        spec_num_valid_before(i - 1) + if spec_candidate_ok(i - 1) {
            1nat
        } else {
            0nat
        }
    }
}

proof fn lemma_num_valid_le(i: int)
    requires
        0 <= i,
    ensures
        spec_num_valid_before(i) <= i,
    decreases i,
{
    if i > 0 {
        lemma_num_valid_le(i - 1);
    }
}

/// What holds of every table the enumerator yields: two columns, two
/// indices of two columns each, every index column referencing a declared
/// column, distinct column names, the structural constraints, and the
/// pruned column orders (c1, c2) for i1 and (c2, c1) for i2.
pub open spec fn spec_enumerated_table_ok(t: TableV) -> bool {
    &&& t.cols.len() == 2
    &&& t.indices.len() == 2
    &&& forall|i: int| 0 <= i < t.indices.len() ==> #[trigger] t.indices[i].columns.len() == 2
    &&& spec_references_ok(t)
    &&& spec_cols_distinct(t)
    &&& spec_table_constraints(t)
    &&& spec_optimized(t)
}

proof fn lemma_candidate_table_ok(i: int, n: int)
    requires
        0 <= i < 6400,
        spec_candidate_ok(i),
        0 <= n,
    ensures
        spec_enumerated_table_ok(spec_candidate_table(i, n)),
{
    let t = spec_candidate_table(i, n);
    let c = spec_candidate(i);
    reveal_strlit("c1");
    reveal_strlit("c2");
    assert("c1"@ != "c2"@) by {
        assert("c1"@[1] == '1');
        assert("c2"@[1] == '2');
    }
    assert(spec_references_ok(t)) by {
        assert forall|a: int, b: int|
            0 <= a < t.indices.len() && 0 <= b < t.indices[a].columns.len() implies exists|k: int|
            0 <= k < t.cols.len() && #[trigger] t.cols[k].name == #[trigger] t.indices[
                a
            ].columns[b].name by {
            if t.indices[a].columns[b].name == "c1"@ {
                assert(t.cols[0].name == t.indices[a].columns[b].name);
            } else {
                assert(t.indices[a].columns[b].name == "c2"@);
                assert(t.cols[1].name == t.indices[a].columns[b].name);
            }
        }
    }
    assert(spec_count_primary(t.indices) <= 1) by {
        let s2 = t.indices;
        let s1 = s2.drop_last();
        assert(s1 =~= seq![s2[0]]);
        assert(s1.drop_last() =~= Seq::<IndexV>::empty());
        assert(spec_count_primary(s1.drop_last()) == 0);
        assert(s1.last() == s2[0]);
        assert(s1.last().unique == c.u1);
        assert(spec_count_primary(s1) == if spec_is_primary(c.u1) {
            1nat
        } else {
            0nat
        });
        assert(s2.last() == s2[1]);
        assert(s2.last().unique == c.u2);
        assert(spec_count_primary(s2) == spec_count_primary(s1) + if spec_is_primary(c.u2) {
            1nat
        } else {
            0nat
        });
    }
    assert(spec_prefix_ok(t)) by {
        assert forall|a: int, b: int|
            0 <= a < t.indices.len() && 0 <= b < t.indices[a].columns.len() implies
            spec_ixcol_prefix_ok(t, t.indices[a].columns[b]) by {
            let ic = t.indices[a].columns[b];
            if ic.length is Some {
                assert forall|k: int|
                    0 <= k < t.cols.len() && t.cols[k].name == ic.name implies t.cols[
                    k
                ].column_type is Varchar by {
                    if a == 0 && b == 0 {
                        assert(spec_length_ok(c.l1a, c.ct1));
                    } else if a == 0 && b == 1 {
                        assert(spec_length_ok(c.l1b, c.ct2));
                    } else if a == 1 && b == 0 {
                        assert(spec_length_ok(c.l2a, c.ct2));
                    } else {
                        assert(spec_length_ok(c.l2b, c.ct1));
                    }
                }
            }
        }
    }
}

fn column_type_of(d: u64) -> (r: ColumnType)
    ensures
        r == spec_column_type_of(d as int),
{
    if d == 0 {
        ColumnType::Int
    } else if d == 1 {
        ColumnType::Varchar(None)
    } else if d == 2 {
        ColumnType::Varchar(Some(Collation::UnicodeCi))
    } else if d == 3 {
        ColumnType::Varchar(Some(Collation::GeneralCi))
    } else {
        ColumnType::Varchar(Some(Collation::Bin))
    }
}

fn length_of(d: u64) -> (r: Option<u32>)
    ensures
        r == spec_length_of(d as int),
{
    if d == 0 {
        None
    } else {
        Some(3u32)
    }
}

fn uniqueness_of(d: u64) -> (r: Uniqueness)
    ensures
        r == spec_uniqueness_of(d as int),
{
    if d == 0 {
        Uniqueness::NonUnique
    } else if d == 1 {
        Uniqueness::Unique
    } else if d == 2 {
        Uniqueness::ClusteredPrimary
    } else {
        Uniqueness::NonClusteredPrimary
    }
}

fn length_ok(l: &Option<u32>, t: &ColumnType) -> (r: bool)
    ensures
        r == spec_length_ok(*l, *t),
{
    match l {
        None => true,
        Some(_) => matches!(t, ColumnType::Varchar(_)),
    }
}

/// A lazy, forward-only walk over the pruned schema space.  Re-running it
/// always yields the same tables in the same order.
pub struct TableEnumerator {
    pos: u64,
    count: u64,
}

impl TableEnumerator {
    /// The next candidate number to look at.
    pub closed spec fn spec_pos(self) -> int {
        self.pos as int
    }

    /// How many tables have been yielded so far.
    pub closed spec fn spec_count(self) -> int {
        self.count as int
    }

    /// The enumerator's invariant: the yield count always equals the number
    /// of valid candidates already passed.
    pub open spec fn wf(self) -> bool {
        &&& 0 <= self.spec_pos() <= 6400
        &&& self.spec_count() == spec_num_valid_before(self.spec_pos())
    }

    /// A fresh enumerator at the start of the space.
    pub fn new() -> (r: Self)
        ensures
            r.wf(),
            r.spec_pos() == 0,
    {
        TableEnumerator { pos: 0, count: 0 }
    }

    /// The next structurally valid table, or nothing once the space is
    /// exhausted.  Invalid candidates are skipped silently; every yielded
    /// table is the first valid candidate at or past the previous position
    /// and carries the next generated name.
    pub fn next(&mut self) -> (r: Option<Table>)
        requires
            old(self).wf(),
        ensures
            final(self).wf(),
            old(self).spec_pos() <= final(self).spec_pos(),
            match r {
                None => {
                    &&& final(self).spec_pos() == 6400
                    &&& final(self).spec_count() == old(self).spec_count()
                    &&& forall|j: int|
                        old(self).spec_pos() <= j < 6400 ==> !spec_candidate_ok(j)
                },
                Some(t) => {
                    &&& old(self).spec_pos() < final(self).spec_pos() <= 6400
                    &&& spec_candidate_ok(final(self).spec_pos() - 1)
                    &&& forall|j: int|
                        old(self).spec_pos() <= j < final(self).spec_pos() - 1
                            ==> !spec_candidate_ok(j)
                    &&& t@ == spec_candidate_table(
                        final(self).spec_pos() - 1,
                        old(self).spec_count(),
                    )
                    &&& final(self).spec_count() == old(self).spec_count() + 1
                    &&& spec_enumerated_table_ok(t@)
                },
            },
    {
        let ghost pos0 = self.spec_pos();
        let ghost count0 = self.spec_count();
        while self.pos < CANDIDATE_SPACE
            invariant
                pos0 == old(self).spec_pos(),
                count0 == old(self).spec_count(),
                pos0 <= self.spec_pos() <= 6400,
                self.spec_count() == count0,
                self.spec_count() == spec_num_valid_before(self.spec_pos()),
                forall|j: int| pos0 <= j < self.spec_pos() ==> !spec_candidate_ok(j),
            decreases 6400 - self.spec_pos(),
        {
            let i = self.pos;
            let ct1 = column_type_of(i / 1280);
            let r1 = i % 1280;
            let ct2 = column_type_of(r1 / 256);
            let r2 = r1 % 256;
            let l1a = length_of(r2 / 128);
            let r3 = r2 % 128;
            let l1b = length_of(r3 / 64);
            let r4 = r3 % 64;
            let u1 = uniqueness_of(r4 / 16);
            let r5 = r4 % 16;
            let l2a = length_of(r5 / 8);
            let r6 = r5 % 8;
            let l2b = length_of(r6 / 4);
            let u2 = uniqueness_of(r6 % 4);
            proof {
                let c = spec_candidate(i as int);
                assert(ct1 == c.ct1);
                assert(ct2 == c.ct2);
                assert(l1a == c.l1a);
                assert(l1b == c.l1b);
                assert(u1 == c.u1);
                assert(l2a == c.l2a);
                assert(l2b == c.l2b);
                assert(u2 == c.u2);
            }
            let ok = length_ok(&l1a, &ct1) && length_ok(&l1b, &ct2) && length_ok(&l2a, &ct2)
                && length_ok(&l2b, &ct1) && !(u1.is_primary() && u2.is_primary());
            proof {
                assert(ok == spec_candidate_ok(i as int));
            }
            if ok {
                proof {
                    lemma_num_valid_le(i as int);
                }
                let mut name = String::from_str("t");
                let num = u64_dec(self.count);
                name.append(num.as_str());

                let mut cols: Vec<Column> = Vec::new();
                cols.push(Column { name: String::from_str("c1"), column_type: ct1 });
                cols.push(Column { name: String::from_str("c2"), column_type: ct2 });

                let mut i1_cols: Vec<IndexColumn> = Vec::new();
                i1_cols.push(IndexColumn { name: String::from_str("c1"), length: l1a });
                i1_cols.push(IndexColumn { name: String::from_str("c2"), length: l1b });
                let mut i2_cols: Vec<IndexColumn> = Vec::new();
                i2_cols.push(IndexColumn { name: String::from_str("c2"), length: l2a });
                i2_cols.push(IndexColumn { name: String::from_str("c1"), length: l2b });

                let mut indices: Vec<Index> = Vec::new();
                indices.push(Index { name: String::from_str("i1"), columns: i1_cols, unique: u1 });
                indices.push(Index { name: String::from_str("i2"), columns: i2_cols, unique: u2 });

                let t = Table { name, cols, indices };
                let ghost yielded = spec_candidate_table(i as int, count0);
                proof {
                    assert(t@.cols =~= yielded.cols);
                    assert(t@.indices[0].columns =~= yielded.indices[0].columns);
                    assert(t@.indices[1].columns =~= yielded.indices[1].columns);
                    assert(t@.indices =~= yielded.indices);
                    assert(t@ == yielded);
                    lemma_candidate_table_ok(i as int, count0);
                }
                self.pos = i + 1;
                self.count = self.count + 1;
                return Some(t);
            }
            self.pos = i + 1;
        }
        None
    }
}

} // verus!
