use vstd::prelude::*;

verus! {

/// The collations a VARCHAR column may carry.
#[derive(Clone, Copy, Debug, PartialEq, Eq, Structural)]
pub enum Collation {
    UnicodeCi,
    GeneralCi,
    Bin,
}

/// The type of a table column: an integer, or a short string with an
/// optional collation.
#[derive(Clone, Copy, Debug, PartialEq, Eq, Structural)]
pub enum ColumnType {
    Int,
    Varchar(Option<Collation>),
}

/// A value of one column in a row.
#[derive(Debug)]
pub enum Datum {
    Int(i64),
    Str(String),
}

/// Mathematical value of a `Datum`.
pub ghost enum DatumV {
    Int(int),
    Str(Seq<char>),
}

impl View for Datum {
    type V = DatumV;

    open spec fn view(&self) -> DatumV {
        match self {
            Datum::Int(x) => DatumV::Int(*x as int),
            Datum::Str(s) => DatumV::Str(s@),
        }
    }
}

/// The digit character for a value below ten.
pub open spec fn spec_digit(d: int) -> char {
    if d == 0 {
        '0'
    } else if d == 1 {
        '1'
    } else if d == 2 {
        '2'
    } else if d == 3 {
        '3'
    } else if d == 4 {
        '4'
    } else if d == 5 {
        '5'
    } else if d == 6 {
        '6'
    } else if d == 7 {
        '7'
    } else if d == 8 {
        '8'
    } else {
        '9'
    }
}

/// Decimal rendering of a nonnegative integer, most significant digit first.
pub open spec fn spec_udec(n: int) -> Seq<char>
    decreases n,
{
    if n < 10 {
        seq![spec_digit(n)]
    } else {
        spec_udec(n / 10).push(spec_digit(n % 10))
    }
}

fn digit_str(d: u64) -> (r: &'static str)
    requires
        d < 10,
    ensures
        r@ =~= seq![spec_digit(d as int)],
{
    let r: &'static str = if d == 0 {
        proof { reveal_strlit("0"); }
        "0"
    } else if d == 1 {
        proof { reveal_strlit("1"); }
        "1"
    } else if d == 2 {
        proof { reveal_strlit("2"); }
        "2"
    } else if d == 3 {
        proof { reveal_strlit("3"); }
        "3"
    } else if d == 4 {
        proof { reveal_strlit("4"); }
        "4"
    } else if d == 5 {
        proof { reveal_strlit("5"); }
        "5"
    } else if d == 6 {
        proof { reveal_strlit("6"); }
        "6"
    } else if d == 7 {
        proof { reveal_strlit("7"); }
        "7"
    } else if d == 8 {
        proof { reveal_strlit("8"); }
        "8"
    } else {
        proof { reveal_strlit("9"); }
        "9"
    };
    r
}

/// Decimal rendering of a `u64`.
pub fn u64_dec(n: u64) -> (r: String)
    ensures
        r@ == spec_udec(n as int),
    decreases n,
{
    let d: u64 = n % 10;
    let ds = digit_str(d);
    if n < 10 {
        let mut s = String::new();
        s.append(ds);
        assert(s@ =~= spec_udec(n as int));
        s
    } else {
        let mut s = u64_dec(n / 10);
        s.append(ds);
        assert(s@ =~= spec_udec(n as int));
        s
    }
}

impl Datum {
    /// The canonical seed value for a column of the given type.
    pub fn new(column_type: &ColumnType) -> (r: Self)
        ensures
            r@ == spec_datum_new(*column_type),
    {
        match column_type {
            ColumnType::Int => Datum::Int(10),
            ColumnType::Varchar(_) => Datum::Str(String::from_str("hello")),
        }
    }

    /// The successor value: integers grow by one, strings gain a fixed
    /// marker, so the result never equals the input.
    pub fn next(self) -> (r: Self)
        requires
            self@ matches DatumV::Int(x) ==> x < i64::MAX,
        ensures
            r@ == spec_datum_next(self@),
    {
        match self {
            Datum::Int(x) => Datum::Int(x + 1),
            Datum::Str(mut x) => {
                x.append(" x");
                Datum::Str(x)
            },
        }
    }

    /// The bare textual form of the value, with no quoting.
    pub fn to_string(&self) -> (r: String)
        requires
            self@ matches DatumV::Int(x) ==> 0 <= x,
        ensures
            r@ == spec_datum_string(self@),
    {
        match self {
            Datum::Int(x) => u64_dec(*x as u64),
            Datum::Str(x) => x.clone(),
        }
    }
}

pub open spec fn spec_datum_new(t: ColumnType) -> DatumV {
    match t {
        ColumnType::Int => DatumV::Int(10),
        ColumnType::Varchar(_) => DatumV::Str("hello"@),
    }
}

pub open spec fn spec_datum_next(d: DatumV) -> DatumV {
    match d {
        DatumV::Int(x) => DatumV::Int(x + 1),
        DatumV::Str(s) => DatumV::Str(s + " x"@),
    }
}

/// Bare textual form of a datum: decimal digits for an integer, the string
/// itself for a string.
pub open spec fn spec_datum_string(d: DatumV) -> Seq<char> {
    match d {
        DatumV::Int(x) => spec_udec(x),
        DatumV::Str(s) => s,
    }
}

/// How an index relates to row storage and to duplicate keys.
#[derive(Clone, Copy, Debug, PartialEq, Eq, Structural)]
pub enum Uniqueness {
    NonUnique,
    Unique,
    ClusteredPrimary,
    NonClusteredPrimary,
}

pub open spec fn spec_is_primary(u: Uniqueness) -> bool {
    u == Uniqueness::ClusteredPrimary || u == Uniqueness::NonClusteredPrimary
}

impl Uniqueness {
    /// Whether this index kind is one of the two primary kinds.
    pub fn is_primary(&self) -> (r: bool)
        ensures
            r == spec_is_primary(*self),
    {
        matches!(self, Uniqueness::ClusteredPrimary | Uniqueness::NonClusteredPrimary)
    }
}

/// A table column: a positional name and a type.
#[derive(Debug)]
pub struct Column {
    pub name: String,
    pub column_type: ColumnType,
}

pub ghost struct ColumnV {
    pub name: Seq<char>,
    pub column_type: ColumnType,
}

impl View for Column {
    type V = ColumnV;

    open spec fn view(&self) -> ColumnV {
        ColumnV { name: self.name@, column_type: self.column_type }
    }
}

/// One column of an index: the referenced column's name and an optional
/// prefix length.
#[derive(Debug)]
pub struct IndexColumn {
    pub name: String,
    pub length: Option<u32>,
}

pub ghost struct IndexColumnV {
    pub name: Seq<char>,
    pub length: Option<u32>,
}

impl View for IndexColumn {
    type V = IndexColumnV;

    open spec fn view(&self) -> IndexColumnV {
        IndexColumnV { name: self.name@, length: self.length }
    }
}

/// A secondary or primary index over the table's columns.
#[derive(Debug)]
pub struct Index {
    pub name: String,
    pub columns: Vec<IndexColumn>,
    pub unique: Uniqueness,
}

pub ghost struct IndexV {
    pub name: Seq<char>,
    pub columns: Seq<IndexColumnV>,
    pub unique: Uniqueness,
}

impl View for Index {
    type V = IndexV;

    open spec fn view(&self) -> IndexV {
        IndexV {
            name: self.name@,
            columns: Seq::new(self.columns@.len(), |i: int| self.columns@[i]@),
            unique: self.unique,
        }
    }
}

/// A generated table definition.
#[derive(Debug)]
pub struct Table {
    pub name: String,
    pub cols: Vec<Column>,
    pub indices: Vec<Index>,
}

pub ghost struct TableV {
    pub name: Seq<char>,
    pub cols: Seq<ColumnV>,
    pub indices: Seq<IndexV>,
}

impl View for Table {
    type V = TableV;

    open spec fn view(&self) -> TableV {
        TableV {
            name: self.name@,
            cols: Seq::new(self.cols@.len(), |i: int| self.cols@[i]@),
            indices: Seq::new(self.indices@.len(), |i: int| self.indices@[i]@),
        }
    }
}

/// The DDL name of a collation.
pub open spec fn spec_collation_sql(c: Collation) -> Seq<char> {
    match c {
        Collation::UnicodeCi => "utf8mb4_unicode_ci"@,
        Collation::GeneralCi => "utf8mb4_general_ci"@,
        Collation::Bin => "utf8mb4_bin"@,
    }
}

/// The DDL text of a column type.
pub open spec fn spec_column_type_sql(t: ColumnType) -> Seq<char> {
    match t {
        ColumnType::Int => "INT"@,
        ColumnType::Varchar(None) => "VARCHAR(10)"@,
        ColumnType::Varchar(Some(c)) => "VARCHAR(10) COLLATE "@ + spec_collation_sql(c),
    }
}

impl ColumnType {
    /// The DDL text of this column type.
    pub fn to_string(&self) -> (r: String)
        ensures
            r@ == spec_column_type_sql(*self),
    {
        match self {
            ColumnType::Int => String::from_str("INT"),
            ColumnType::Varchar(None) => String::from_str("VARCHAR(10)"),
            ColumnType::Varchar(Some(c)) => {
                let mut s = String::from_str("VARCHAR(10) COLLATE ");
                match c {
                    Collation::UnicodeCi => s.append("utf8mb4_unicode_ci"),
                    Collation::GeneralCi => s.append("utf8mb4_general_ci"),
                    Collation::Bin => s.append("utf8mb4_bin"),
                }
                s
            },
        }
    }
}

/// `name type` for one column of the CREATE statement.
pub open spec fn spec_column_clause(c: ColumnV) -> Seq<char> {
    c.name + " "@ + spec_column_type_sql(c.column_type)
}

/// `name` or `name(length)` for one column of an index clause.
pub open spec fn spec_index_column_sql(c: IndexColumnV) -> Seq<char> {
    match c.length {
        None => c.name,
        Some(l) => c.name + "("@ + spec_udec(l as int) + ")"@,
    }
}

/// The keyword before `KEY`: nothing, UNIQUE, or PRIMARY.
pub open spec fn spec_unique_keyword(u: Uniqueness) -> Seq<char> {
    match u {
        Uniqueness::NonUnique => Seq::empty(),
        Uniqueness::Unique => "UNIQUE"@,
        Uniqueness::ClusteredPrimary => "PRIMARY"@,
        Uniqueness::NonClusteredPrimary => "PRIMARY"@,
    }
}

/// The suffix after the column list: ` CLUSTERED` for a clustered primary.
pub open spec fn spec_clustered_suffix(u: Uniqueness) -> Seq<char> {
    match u {
        Uniqueness::ClusteredPrimary => " CLUSTERED"@,
        _ => Seq::empty(),
    }
}

/// The given parts joined with `, `.
pub open spec fn spec_join_comma(parts: Seq<Seq<char>>) -> Seq<char>
    decreases parts.len(),
{
    if parts.len() == 0 {
        Seq::empty()
    } else if parts.len() == 1 {
        parts[0]
    } else {
        spec_join_comma(parts.drop_last()) + ", "@ + parts.last()
    }
}

/// The full index clause of the CREATE statement.
pub open spec fn spec_index_clause(ix: IndexV) -> Seq<char> {
    spec_unique_keyword(ix.unique) + " KEY "@ + ix.name + " ("@ + spec_join_comma(
        Seq::new(ix.columns.len(), |i: int| spec_index_column_sql(ix.columns[i])),
    ) + ")"@ + spec_clustered_suffix(ix.unique)
}

/// All clauses of the CREATE statement: column clauses, then index clauses.
pub open spec fn spec_table_clauses(t: TableV) -> Seq<Seq<char>> {
    Seq::new(t.cols.len(), |i: int| spec_column_clause(t.cols[i])) + Seq::new(
        t.indices.len(),
        |i: int| spec_index_clause(t.indices[i]),
    )
}

/// The deterministic DDL text that creates the table.
pub open spec fn spec_create_statement(t: TableV) -> Seq<char> {
    "CREATE TABLE "@ + t.name + " ("@ + spec_join_comma(spec_table_clauses(t)) + ")"@
}

/// The DDL text that drops the table if it exists.
pub open spec fn spec_drop_statement(t: TableV) -> Seq<char> {
    "DROP TABLE IF EXISTS "@ + t.name
}

fn column_clause(c: &Column) -> (r: String)
    ensures
        r@ == spec_column_clause(c@),
{
    let mut s = c.name.clone();
    s.append(" ");
    let t = c.column_type.to_string();
    s.append(t.as_str());
    s
}

fn index_column_sql(c: &IndexColumn) -> (r: String)
    ensures
        r@ == spec_index_column_sql(c@),
{
    let mut s = c.name.clone();
    match c.length {
        None => {},
        Some(l) => {
            s.append("(");
            let d = u64_dec(l as u64);
            s.append(d.as_str());
            s.append(")");
        },
    }
    s
}

fn index_clause(ix: &Index) -> (r: String)
    ensures
        r@ == spec_index_clause(ix@),
{
    let ghost parts = Seq::new(ix@.columns.len(), |i: int| spec_index_column_sql(ix@.columns[i]));
    let mut s = match ix.unique {
        Uniqueness::NonUnique => String::new(),
        Uniqueness::Unique => String::from_str("UNIQUE"),
        Uniqueness::ClusteredPrimary => String::from_str("PRIMARY"),
        Uniqueness::NonClusteredPrimary => String::from_str("PRIMARY"),
    };
    s.append(" KEY ");
    s.append(ix.name.as_str());
    s.append(" (");
    let mut joined = String::new();
    let mut i: usize = 0;
    while i < ix.columns.len()
        invariant
            i <= ix.columns.len(),
            parts == Seq::new(ix@.columns.len(), |k: int| spec_index_column_sql(ix@.columns[k])),
            parts.len() == ix.columns.len(),
            joined@ == spec_join_comma(parts.take(i as int)),
        decreases ix.columns.len() - i,
    {
        if i > 0 {
            joined.append(", ");
        }
        let part = index_column_sql(&ix.columns[i]);
        joined.append(part.as_str());
        proof {
            assert(parts.take(i + 1 as int).drop_last() =~= parts.take(i as int));
            assert(parts.take(i + 1 as int).last() == parts[i as int]);
        }
        i = i + 1;
    }
    proof {
        assert(parts.take(parts.len() as int) =~= parts);
    }
    s.append(joined.as_str());
    s.append(")");
    match ix.unique {
        Uniqueness::ClusteredPrimary => s.append(" CLUSTERED"),
        _ => {},
    }
    s
}

impl Table {
    /// The deterministic DDL text that creates the table.
    pub fn create_statement(&self) -> (r: String)
        ensures
            r@ == spec_create_statement(self@),
    {
        let ghost parts = spec_table_clauses(self@);
        let mut s = String::from_str("CREATE TABLE ");
        s.append(self.name.as_str());
        s.append(" (");
        let mut joined = String::new();
        let ghost ncols = self@.cols.len();
        let mut i: usize = 0;
        while i < self.cols.len()
            invariant
                i <= self.cols.len(),
                parts == spec_table_clauses(self@),
                ncols == self@.cols.len(),
                self@.cols.len() == self.cols@.len(),
                parts.len() == self@.cols.len() + self@.indices.len(),
                joined@ == spec_join_comma(parts.take(i as int)),
            decreases self.cols.len() - i,
        {
            proof {
                assert(parts[i as int] == spec_column_clause(self@.cols[i as int]));
            }
            if i > 0 {
                joined.append(", ");
            }
            let part = column_clause(&self.cols[i]);
            joined.append(part.as_str());
            proof {
                assert(parts.take(i + 1 as int).drop_last() =~= parts.take(i as int));
                assert(parts.take(i + 1 as int).last() == parts[i as int]);
            }
            i = i + 1;
        }
        let mut j: usize = 0;
        while j < self.indices.len()
            invariant
                j <= self.indices.len(),
                parts == spec_table_clauses(self@),
                ncols == self@.cols.len(),
                self@.cols.len() == self.cols@.len(),
                self@.indices.len() == self.indices@.len(),
                parts.len() == self@.cols.len() + self@.indices.len(),
                joined@ == spec_join_comma(parts.take(ncols + j as int)),
            decreases self.indices.len() - j,
        {
            proof {
                assert(parts[ncols + j as int] == spec_index_clause(self@.indices[j as int]));
            }
            if self.cols.len() > 0 || j > 0 {
                joined.append(", ");
            } else {
                proof {
                    assert(ncols + j as int == 0);
                }
            }
            let part = index_clause(&self.indices[j]);
            joined.append(part.as_str());
            proof {
                assert(parts.take(ncols + j + 1 as int).drop_last() =~= parts.take(
                    ncols + j as int,
                ));
                assert(parts.take(ncols + j + 1 as int).last() == parts[ncols + j as int]);
            }
            j = j + 1;
        }
        proof {
            assert(parts.take(parts.len() as int) =~= parts);
        }
        s.append(joined.as_str());
        s.append(")");
        s
    }

    /// The DDL text that drops the table if it exists.
    pub fn drop_statement(&self) -> (r: String)
        ensures
            r@ == spec_drop_statement(self@),
    {
        let mut s = String::from_str("DROP TABLE IF EXISTS ");
        s.append(self.name.as_str());
        s
    }
}

/// Every index column references a declared table column.
pub open spec fn spec_references_ok(t: TableV) -> bool {
    forall|i: int, j: int|
        0 <= i < t.indices.len() && 0 <= j < t.indices[i].columns.len() ==> exists|k: int|
            0 <= k < t.cols.len() && #[trigger] t.cols[k].name == #[trigger] t.indices[
                i
            ].columns[j].name
}

/// No two table columns share a name.
pub open spec fn spec_cols_distinct(t: TableV) -> bool {
    forall|k1: int, k2: int|
        0 <= k1 < k2 < t.cols.len() ==> t.cols[k1].name != t.cols[k2].name
}

/// How many of the given indices are of a primary kind.
pub open spec fn spec_count_primary(s: Seq<IndexV>) -> nat
    decreases s.len(),
{
    if s.len() == 0 {
        0
    } else {
        spec_count_primary(s.drop_last()) + if spec_is_primary(s.last().unique) {
            1nat
        } else {
            0nat
        }
    }
}

/// No index spans more than two columns.
pub open spec fn spec_index_width_ok(t: TableV) -> bool {
    forall|i: int| 0 <= i < t.indices.len() ==> t.indices[i].columns.len() <= 2
}

/// An index column may carry a prefix length only if every table column of
/// that name is a string column.
pub open spec fn spec_ixcol_prefix_ok(t: TableV, c: IndexColumnV) -> bool {
    c.length is Some ==> forall|k: int|
        0 <= k < t.cols.len() && t.cols[k].name == c.name ==> t.cols[k].column_type is Varchar
}

/// No index column carries a prefix length over an integer column.
pub open spec fn spec_prefix_ok(t: TableV) -> bool {
    forall|i: int, j: int|
        0 <= i < t.indices.len() && 0 <= j < t.indices[i].columns.len()
            ==> spec_ixcol_prefix_ok(t, t.indices[i].columns[j])
}

/// The structural invariants a candidate table must satisfy to be yielded:
/// at most one primary index, no index wider than two columns, and prefix
/// lengths only over string columns.
pub open spec fn spec_table_constraints(t: TableV) -> bool {
    spec_count_primary(t.indices) <= 1 && spec_index_width_ok(t) && spec_prefix_ok(t)
}

/// Whether `a` holds exactly the text `b`.
pub(crate) fn str_eq(a: &String, b: &str) -> (r: bool)
    ensures
        r == (a@ == b@),
{
    let bs = String::from_str(b);
    *a == bs
}

fn ixcol_prefix_ok(cols: &Vec<Column>, c: &IndexColumn) -> (r: bool)
    requires
        forall|k1: int, k2: int|
            0 <= k1 < k2 < cols@.len() ==> cols@[k1]@.name != cols@[k2]@.name,
        exists|k: int| 0 <= k < cols@.len() && cols@[k]@.name == c@.name,
    ensures
        r == (c@.length is Some ==> forall|k: int|
            0 <= k < cols@.len() && cols@[k]@.name == c@.name ==> cols@[k]@.column_type
                is Varchar),
{
    if c.length.is_none() {
        return true;
    }
    let mut k: usize = 0;
    while k < cols.len()
        invariant
            k <= cols@.len(),
            forall|m: int| 0 <= m < k ==> cols@[m]@.name != c@.name,
            forall|k1: int, k2: int|
                0 <= k1 < k2 < cols@.len() ==> cols@[k1]@.name != cols@[k2]@.name,
            exists|m: int| 0 <= m < cols@.len() && cols@[m]@.name == c@.name,
            c@.length is Some,
        decreases cols@.len() - k,
    {
        if str_eq(&cols[k].name, c.name.as_str()) {
            let ok = matches!(cols[k].column_type, ColumnType::Varchar(_));
            proof {
                assert forall|m: int|
                    0 <= m < cols@.len() && cols@[m]@.name == c@.name implies m
                    == k as int by {
                    if m != k as int {
                        if m < k as int {
                            assert(cols@[m]@.name != cols@[k as int]@.name);
                        } else {
                            assert(cols@[k as int]@.name != cols@[m]@.name);
                        }
                    }
                }
            }
            return ok;
        }
        k = k + 1;
    }
    proof {
        assert(false);
    }
    false
}

impl Table {
    /// Whether the table satisfies the structural invariants of the schema
    /// space: at most one primary index, indices at most two columns wide,
    /// and prefix lengths only over string columns.
    pub fn constraint_satisfied(&self) -> (r: bool)
        requires
            spec_references_ok(self@),
            spec_cols_distinct(self@),
        ensures
            r == spec_table_constraints(self@),
    {
        let ghost tv = self@;
        let mut primaries: usize = 0;
        let mut i: usize = 0;
        while i < self.indices.len()
            invariant
                i <= self.indices@.len(),
                tv == self@,
                tv.indices.len() == self.indices@.len(),
                primaries == spec_count_primary(tv.indices.take(i as int)),
                primaries <= i,
            decreases self.indices@.len() - i,
        {
            proof {
                assert(tv.indices.take(i + 1 as int).drop_last() =~= tv.indices.take(i as int));
                assert(tv.indices.take(i + 1 as int).last() == tv.indices[i as int]);
            }
            if self.indices[i].unique.is_primary() {
                primaries = primaries + 1;
            }
            i = i + 1;
        }
        proof {
            assert(tv.indices.take(tv.indices.len() as int) =~= tv.indices);
        }
        let at_most_one_primary = primaries <= 1;

        let mut width_ok = true;
        let mut i: usize = 0;
        while i < self.indices.len()
            invariant
                i <= self.indices@.len(),
                tv == self@,
                tv.indices.len() == self.indices@.len(),
                width_ok == (forall|m: int| 0 <= m < i ==> tv.indices[m].columns.len() <= 2),
            decreases self.indices@.len() - i,
        {
            let wide = self.indices[i].columns.len() > 2;
            proof {
                assert(tv.indices[i as int].columns.len() == self.indices@[i as int]@.columns.len());
            }
            if wide {
                width_ok = false;
            }
            proof {
                if width_ok {
                    assert forall|m: int| 0 <= m < i + 1 implies tv.indices[m].columns.len()
                        <= 2 by {
                        if m < i as int {
                            assert(tv.indices[m].columns.len() <= 2);
                        }
                    }
                }
            }
            i = i + 1;
        }

        let mut prefix_ok = true;
        let mut i: usize = 0;
        while i < self.indices.len()
            invariant
                i <= self.indices@.len(),
                tv == self@,
                tv.indices.len() == self.indices@.len(),
                spec_references_ok(tv),
                spec_cols_distinct(tv),
                prefix_ok == (forall|m: int, j: int|
                    0 <= m < i && 0 <= j < tv.indices[m].columns.len() ==> spec_ixcol_prefix_ok(
                        tv,
                        tv.indices[m].columns[j],
                    )),
            decreases self.indices@.len() - i,
        {
            let ix = &self.indices[i];
            let mut j: usize = 0;
            while j < ix.columns.len()
                invariant
                    j <= ix.columns@.len(),
                    tv == self@,
                    i < tv.indices.len(),
                    tv.indices.len() == self.indices@.len(),
                    ix@ == tv.indices[i as int],
                    ix@.columns.len() == ix.columns@.len(),
                    spec_references_ok(tv),
                    spec_cols_distinct(tv),
                    prefix_ok == ((forall|m: int, j2: int|
                        0 <= m < i && 0 <= j2 < tv.indices[m].columns.len()
                            ==> spec_ixcol_prefix_ok(tv, tv.indices[m].columns[j2])) && (
                    forall|j2: int|
                        0 <= j2 < j ==> spec_ixcol_prefix_ok(
                            tv,
                            tv.indices[i as int].columns[j2],
                        ))),
                decreases ix.columns@.len() - j,
            {
                proof {
                    assert(tv.indices[i as int].columns[j as int] == ix.columns@[j as int]@);
                    assert(exists|k: int|
                        0 <= k < tv.cols.len() && tv.cols[k].name == tv.indices[
                            i as int
                        ].columns[j as int].name);
                    assert forall|k1: int, k2: int|
                        0 <= k1 < k2 < self.cols@.len() implies self.cols@[k1]@.name
                        != self.cols@[k2]@.name by {
                        assert(tv.cols[k1] == self.cols@[k1]@);
                        assert(tv.cols[k2] == self.cols@[k2]@);
                    }
                    assert forall|k: int|
                        0 <= k < self.cols@.len() implies self.cols@[k]@ == tv.cols[k] by {}
                }
                if !ixcol_prefix_ok(&self.cols, &ix.columns[j]) {
                    prefix_ok = false;
                }
                j = j + 1;
            }
            i = i + 1;
        }
        at_most_one_primary && width_ok && prefix_ok
    }

    /// The symmetry-pruning rule: the first index reads the columns in
    /// declaration order, the second in reverse order.
    pub fn optimized(&self) -> (r: bool)
        requires
            self@.indices.len() >= 2,
            self@.indices[0].columns.len() >= 2,
            self@.indices[1].columns.len() >= 2,
        ensures
            r == spec_optimized(self@),
    {
        if !str_eq(&self.indices[0].columns[0].name, "c1") {
            return false;
        }
        if !str_eq(&self.indices[0].columns[1].name, "c2") {
            return false;
        }
        if !str_eq(&self.indices[1].columns[0].name, "c2") {
            return false;
        }
        if !str_eq(&self.indices[1].columns[1].name, "c1") {
            return false;
        }
        true
    }
}

/// The first index references (c1, c2) and the second (c2, c1).
pub open spec fn spec_optimized(t: TableV) -> bool {
    &&& t.indices[0].columns[0].name == "c1"@
    &&& t.indices[0].columns[1].name == "c2"@
    &&& t.indices[1].columns[0].name == "c2"@
    &&& t.indices[1].columns[1].name == "c1"@
}

/// An ordered list of datums matching a table's columns.
#[derive(Debug)]
pub struct Row {
    cols: Vec<Datum>,
}

impl View for Row {
    type V = Seq<DatumV>;

    closed spec fn view(&self) -> Seq<DatumV> {
        Seq::new(self.cols@.len(), |i: int| self.cols@[i]@)
    }
}

/// The canonical seed row for the given columns.
pub open spec fn spec_row_new(cols: Seq<ColumnV>) -> Seq<DatumV> {
    Seq::new(cols.len(), |i: int| spec_datum_new(cols[i].column_type))
}

/// The successor row: every datum replaced by its successor.
pub open spec fn spec_row_next(r: Seq<DatumV>) -> Seq<DatumV> {
    Seq::new(r.len(), |i: int| spec_datum_next(r[i]))
}

/// Every integer datum of the row is nonnegative.
pub open spec fn spec_row_nonneg(r: Seq<DatumV>) -> bool {
    forall|i: int| 0 <= i < r.len() ==> (#[trigger] r[i] matches DatumV::Int(x) ==> 0 <= x)
}

/// Every integer datum of the row has room for a successor.
pub open spec fn spec_row_below_max(r: Seq<DatumV>) -> bool {
    forall|i: int| 0 <= i < r.len() ==> (#[trigger] r[i] matches DatumV::Int(x) ==> x < i64::MAX)
}

/// SQL literal form of one datum: digits for an integer, a quoted string
/// for a string.
pub open spec fn spec_datum_literal(d: DatumV) -> Seq<char> {
    match d {
        DatumV::Int(x) => spec_udec(x),
        DatumV::Str(s) => "'"@ + s + "'"@,
    }
}

/// The row as a comma-separated list of SQL literals.
pub open spec fn spec_row_literals(r: Seq<DatumV>) -> Seq<char> {
    spec_join_comma_plain(Seq::new(r.len(), |i: int| spec_datum_literal(r[i])))
}

/// The given parts joined with `,`.
pub open spec fn spec_join_comma_plain(parts: Seq<Seq<char>>) -> Seq<char>
    decreases parts.len(),
{
    if parts.len() == 0 {
        Seq::empty()
    } else if parts.len() == 1 {
        parts[0]
    } else {
        spec_join_comma_plain(parts.drop_last()) + ","@ + parts.last()
    }
}

impl Row {
    /// The canonical seed row for the given columns.
    pub fn new(cols: &Vec<Column>) -> (r: Self)
        ensures
            r@ == spec_row_new(Seq::new(cols@.len(), |i: int| cols@[i]@)),
    {
        let mut ds: Vec<Datum> = Vec::new();
        let mut i: usize = 0;
        while i < cols.len()
            invariant
                i <= cols@.len(),
                ds@.len() == i,
                forall|k: int|
                    0 <= k < i ==> ds@[k]@ == spec_datum_new(cols@[k]@.column_type),
            decreases cols@.len() - i,
        {
            ds.push(Datum::new(&cols[i].column_type));
            i = i + 1;
        }
        let r = Row { cols: ds };
        proof {
            assert(r@ =~= spec_row_new(Seq::new(cols@.len(), |i: int| cols@[i]@)));
        }
        r
    }

    /// The successor row: integers grow by one, strings gain a fixed marker.
    pub fn next(self) -> (r: Self)
        requires
            spec_row_below_max(self@),
        ensures
            r@ == spec_row_next(self@),
    {
        let ghost orig = self@;
        let mut rest = self.cols;
        let mut out: Vec<Datum> = Vec::new();
        while rest.len() > 0
            invariant
                out@.len() + rest@.len() == orig.len(),
                forall|k: int| 0 <= k < out@.len() ==> out@[k]@ == spec_datum_next(orig[k]),
                forall|k: int|
                    0 <= k < rest@.len() ==> rest@[k]@ == orig[out@.len() + k],
                spec_row_below_max(orig),
            decreases rest@.len(),
        {
            let d = rest.remove(0);
            proof {
                assert(d@ == orig[out@.len() as int]);
            }
            out.push(d.next());
        }
        let r = Row { cols: out };
        proof {
            assert(r@ =~= spec_row_next(orig));
        }
        r
    }

    /// The row as a comma-separated list of SQL literals.
    pub fn to_string(&self) -> (r: String)
        requires
            spec_row_nonneg(self@),
        ensures
            r@ == spec_row_literals(self@),
    {
        let ghost parts = Seq::new(self@.len(), |i: int| spec_datum_literal(self@[i]));
        let mut s = String::new();
        let mut i: usize = 0;
        while i < self.cols.len()
            invariant
                i <= self.cols@.len(),
                parts == Seq::new(self@.len(), |k: int| spec_datum_literal(self@[k])),
                parts.len() == self.cols@.len(),
                self@.len() == self.cols@.len(),
                spec_row_nonneg(self@),
                s@ == spec_join_comma_plain(parts.take(i as int)),
            decreases self.cols@.len() - i,
        {
            if i > 0 {
                s.append(",");
            }
            proof {
                assert(self.cols@[i as int]@ == self@[i as int]);
            }
            let lit = datum_literal(&self.cols[i]);
            s.append(lit.as_str());
            proof {
                assert(parts.take(i + 1 as int).drop_last() =~= parts.take(i as int));
                assert(parts.take(i + 1 as int).last() == parts[i as int]);
            }
            i = i + 1;
        }
        proof {
            assert(parts.take(parts.len() as int) =~= parts);
        }
        s
    }
}

fn datum_literal(d: &Datum) -> (r: String)
    requires
        d@ matches DatumV::Int(x) ==> 0 <= x,
    ensures
        r@ == spec_datum_literal(d@),
{
    match d {
        Datum::Int(x) => u64_dec(*x as u64),
        Datum::Str(x) => {
            let mut s = String::from_str("'");
            s.append(x.as_str());
            s.append("'");
            s
        },
    }
}

/// The canonical seed row is well formed: its integers are nonnegative and
/// have room for a successor, and so are the successor row's.
pub proof fn lemma_row_new_wf(cols: Seq<ColumnV>)
    ensures
        spec_row_nonneg(spec_row_new(cols)),
        spec_row_below_max(spec_row_new(cols)),
        spec_row_nonneg(spec_row_next(spec_row_new(cols))),
        spec_row_below_max(spec_row_next(spec_row_new(cols))),
{
    let r = spec_row_new(cols);
    assert forall|i: int| 0 <= i < r.len() implies (#[trigger] r[i] matches DatumV::Int(x) ==> 0
        <= x < i64::MAX) by {
        assert(r[i] == spec_datum_new(cols[i].column_type));
    }
    let n = spec_row_next(r);
    assert forall|i: int| 0 <= i < n.len() implies (#[trigger] n[i] matches DatumV::Int(x) ==> 0
        <= x < i64::MAX) by {
        assert(n[i] == spec_datum_next(r[i]));
        assert(r[i] == spec_datum_new(cols[i].column_type));
    }
}

/// The successor row differs from its origin in every column: an integer
/// grows by exactly one, and a string gains the fixed marker, which
/// lengthens it.
pub proof fn lemma_row_successor_distinct(r: Seq<DatumV>)
    ensures
        spec_row_next(r).len() == r.len(),
        forall|i: int| 0 <= i < r.len() ==> spec_row_next(r)[i] != r[i],
{
    reveal_strlit(" x");
    assert forall|i: int| 0 <= i < r.len() implies spec_row_next(r)[i] != r[i] by {
        assert(spec_row_next(r)[i] == spec_datum_next(r[i]));
        match r[i] {
            DatumV::Int(_) => {},
            DatumV::Str(s) => {
                assert((s + " x"@).len() == s.len() + 2);
            },
        }
    }
}

impl Table {
    /// The canonical seed row for this table.
    pub fn new_row(&self) -> (r: Row)
        ensures
            r@ == spec_row_new(self@.cols),
    {
        let r = Row::new(&self.cols);
        proof {
            assert(Seq::new(self.cols@.len(), |i: int| self.cols@[i]@) =~= self@.cols);
        }
        r
    }
}

} // verus!
