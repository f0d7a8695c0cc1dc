//! The text that the HTTP front end exchanges with the database: the SQL
//! it sends to dump and load a table's statistics, the plan it follows to
//! load a dump, the rendering of query results, and the decoding of an oid
//! from its raw column bytes.

use vstd::prelude::*;
use crate::text::{decimal_string, decimal_text, push_char};

verus! {

/// The query that finds a table's oid and column count by its name.
pub open spec fn class_lookup_query_text(relname: Seq<char>) -> Seq<char> {
    "SELECT oid, relnatts from pg_class where relname='"@ + relname + "'"@
}

/// The query that dumps a table's `pg_class` row.
pub open spec fn class_dump_query_text(oid: i32) -> Seq<char> {
    "SELECT pg_class_dump("@ + decimal_text(oid as int) + ")"@
}

/// The query that dumps the `pg_statistic` row of one column.
pub open spec fn statistic_dump_query_text(oid: i32, attnum: i16) -> Seq<char> {
    "SELECT pg_statistic_dump("@ + decimal_text(oid as int) + ", CAST ("@ + decimal_text(attnum as int)
        + " as SMALLINT))"@
}

/// The query that dumps the `pg_attribute` row of one column.
pub open spec fn attribute_dump_query_text(oid: i32, attnum: i16) -> Seq<char> {
    "SELECT pg_attribute_dump("@ + decimal_text(oid as int) + ", "@ + decimal_text(attnum as int) + ")"@
}

/// The query that loads a dumped `pg_class` row.
pub open spec fn class_load_query_text(dump: Seq<char>) -> Seq<char> {
    "SELECT pg_class_load('"@ + dump + "')"@
}

/// The query that loads a dumped `pg_statistic` row.
pub open spec fn statistic_load_query_text(dump: Seq<char>) -> Seq<char> {
    "SELECT pg_statistic_load('"@ + dump + "')"@
}

/// The query that loads a dumped `pg_attribute` row.
pub open spec fn attribute_load_query_text(dump: Seq<char>) -> Seq<char> {
    "SELECT pg_attribute_load('"@ + dump + "')"@
}

/// Builds the query that finds a table's oid and column count by its name.
pub fn class_lookup_query(relname: &str) -> (r: String)
    ensures
        r@ == class_lookup_query_text(relname@),
{
    let mut q = String::from_str("SELECT oid, relnatts from pg_class where relname='");
    q.append(relname);
    q.append("'");
    q
}

/// Builds the query that dumps a table's `pg_class` row.
pub fn class_dump_query(oid: i32) -> (r: String)
    ensures
        r@ == class_dump_query_text(oid),
{
    let mut q = String::from_str("SELECT pg_class_dump(");
    let n = decimal_string(oid as i64);
    q.append(n.as_str());
    q.append(")");
    q
}

/// Builds the query that dumps the `pg_statistic` row of column `attnum`.
pub fn statistic_dump_query(oid: i32, attnum: i16) -> (r: String)
    ensures
        r@ == statistic_dump_query_text(oid, attnum),
{
    let mut q = String::from_str("SELECT pg_statistic_dump(");
    let n = decimal_string(oid as i64);
    q.append(n.as_str());
    q.append(", CAST (");
    let a = decimal_string(attnum as i64);
    q.append(a.as_str());
    q.append(" as SMALLINT))");
    q
}

/// Builds the query that dumps the `pg_attribute` row of column `attnum`.
pub fn attribute_dump_query(oid: i32, attnum: i16) -> (r: String)
    ensures
        r@ == attribute_dump_query_text(oid, attnum),
{
    let mut q = String::from_str("SELECT pg_attribute_dump(");
    let n = decimal_string(oid as i64);
    q.append(n.as_str());
    q.append(", ");
    let a = decimal_string(attnum as i64);
    q.append(a.as_str());
    q.append(")");
    q
}

/// The per-column dump queries of a table with `relnatts` columns: for
/// each column number from 1 to `relnatts`, in order, the `pg_statistic`
/// query and the `pg_attribute` query.
pub fn column_dump_queries(oid: i32, relnatts: i16) -> (r: (Vec<String>, Vec<String>))
    requires
        relnatts < i16::MAX,
    ensures
        r.0@.len() == (if relnatts > 0 { relnatts as int } else { 0 }),
        r.1@.len() == r.0@.len(),
        forall|i: int|
            0 <= i < r.0@.len() ==> #[trigger] r.0@[i]@ == statistic_dump_query_text(oid, (i + 1) as i16),
        forall|i: int|
            0 <= i < r.1@.len() ==> #[trigger] r.1@[i]@ == attribute_dump_query_text(oid, (i + 1) as i16),
{
    let mut stats: Vec<String> = Vec::new();
    let mut atts: Vec<String> = Vec::new();
    let mut i: i16 = 1;
    while i <= relnatts
        invariant
            1 <= i,
            relnatts < i16::MAX,
            i <= (if relnatts > 0 { relnatts + 1 } else { 1 }),
            stats@.len() == i - 1,
            atts@.len() == i - 1,
            forall|j: int|
                0 <= j < stats@.len() ==> #[trigger] stats@[j]@ == statistic_dump_query_text(
                    oid,
                    (j + 1) as i16,
                ),
            forall|j: int|
                0 <= j < atts@.len() ==> #[trigger] atts@[j]@ == attribute_dump_query_text(
                    oid,
                    (j + 1) as i16,
                ),
        decreases relnatts + 1 - i,
    {
        stats.push(statistic_dump_query(oid, i));
        atts.push(attribute_dump_query(oid, i));
        i = i + 1;
    }
    (stats, atts)
}

/// A dump of one table: its `pg_class` row, and the `pg_statistic` and
/// `pg_attribute` rows of its columns, each as JSON text.
pub struct TableDump {
    pub class_info: String,
    pub stats_info: Vec<String>,
    pub atts_info: Vec<String>,
}

/// The catalog a load step writes to.
#[derive(Debug, Clone, Copy, PartialEq, Eq, Structural)]
pub enum LoadTarget {
    Class,
    Statistic,
    Attribute,
}

/// One query of a load, and the catalog it writes to.
pub struct LoadStep {
    pub target: LoadTarget,
    pub query: String,
}

/// The reply sent when a step of a load reports failure.
pub open spec fn load_failure_text(t: LoadTarget) -> Seq<char> {
    match t {
        LoadTarget::Class => "Failed to load pg_class column\n"@,
        LoadTarget::Statistic => "Failed to a load pg_statistic\n"@,
        LoadTarget::Attribute => "Failed to a load pg_attribute\n"@,
    }
}

/// The reply sent when a step of a load reports failure.
pub fn load_failure_message(t: LoadTarget) -> (r: &'static str)
    ensures
        r@ == load_failure_text(t),
{
    match t {
        LoadTarget::Class => "Failed to load pg_class column\n",
        LoadTarget::Statistic => "Failed to a load pg_statistic\n",
        LoadTarget::Attribute => "Failed to a load pg_attribute\n",
    }
}

/// The reply sent when every step of a load succeeded.
pub fn load_success_message() -> (r: &'static str)
    ensures
        r@ == "Successfully loaded data\n"@,
{
    "Successfully loaded data\n"
}

/// The steps of loading a dump, to be run in order until one fails: the
/// `pg_class` row first, then each `pg_statistic` row, then each
/// `pg_attribute` row.
pub fn load_steps(dump: &TableDump) -> (r: Vec<LoadStep>)
    ensures
        r@.len() == 1 + dump.stats_info@.len() + dump.atts_info@.len(),
        r@[0].target == LoadTarget::Class,
        r@[0].query@ == class_load_query_text(dump.class_info@),
        forall|i: int|
            0 <= i < dump.stats_info@.len() ==> {
                &&& (#[trigger] r@[1 + i]).target == LoadTarget::Statistic
                &&& r@[1 + i].query@ == statistic_load_query_text(dump.stats_info@[i]@)
            },
        forall|i: int|
            0 <= i < dump.atts_info@.len() ==> {
                &&& (#[trigger] r@[1 + dump.stats_info@.len() + i]).target == LoadTarget::Attribute
                &&& r@[1 + dump.stats_info@.len() + i].query@ == attribute_load_query_text(
                    dump.atts_info@[i]@,
                )
            },
{
    let mut steps: Vec<LoadStep> = Vec::new();
    let mut q = String::from_str("SELECT pg_class_load('");
    q.append(dump.class_info.as_str());
    q.append("')");
    steps.push(LoadStep { target: LoadTarget::Class, query: q });
    let mut i: usize = 0;
    while i < dump.stats_info.len()
        invariant
            i <= dump.stats_info@.len(),
            steps@.len() == 1 + i,
            steps@[0].target == LoadTarget::Class,
            steps@[0].query@ == class_load_query_text(dump.class_info@),
            forall|j: int|
                0 <= j < i ==> {
                    &&& (#[trigger] steps@[1 + j]).target == LoadTarget::Statistic
                    &&& steps@[1 + j].query@ == statistic_load_query_text(dump.stats_info@[j]@)
                },
        decreases dump.stats_info@.len() - i,
    {
        let mut q = String::from_str("SELECT pg_statistic_load('");
        q.append(dump.stats_info[i].as_str());
        q.append("')");
        steps.push(LoadStep { target: LoadTarget::Statistic, query: q });
        i = i + 1;
    }
    let n = dump.stats_info.len();
    let mut i: usize = 0;
    while i < dump.atts_info.len()
        invariant
            n == dump.stats_info@.len(),
            i <= dump.atts_info@.len(),
            steps@.len() == 1 + n + i,
            steps@[0].target == LoadTarget::Class,
            steps@[0].query@ == class_load_query_text(dump.class_info@),
            forall|j: int|
                0 <= j < n ==> {
                    &&& (#[trigger] steps@[1 + j]).target == LoadTarget::Statistic
                    &&& steps@[1 + j].query@ == statistic_load_query_text(dump.stats_info@[j]@)
                },
            forall|j: int|
                0 <= j < i ==> {
                    &&& (#[trigger] steps@[1 + n + j]).target == LoadTarget::Attribute
                    &&& steps@[1 + n + j].query@ == attribute_load_query_text(dump.atts_info@[j]@)
                },
        decreases dump.atts_info@.len() - i,
    {
        let mut q = String::from_str("SELECT pg_attribute_load('");
        q.append(dump.atts_info[i].as_str());
        q.append("')");
        steps.push(LoadStep { target: LoadTarget::Attribute, query: q });
        i = i + 1;
    }
    steps
}

/// One result cell as it is printed: its text, or `NULL`, then a tab.
pub open spec fn spi_cell_text(cell: Option<String>) -> Seq<char> {
    match cell {
        Some(s) => s@ + seq!['\t'],
        None => "NULL"@ + seq!['\t'],
    }
}

/// The cells of one result row, printed one after the other.
pub open spec fn spi_cells_text(cells: Seq<Option<String>>) -> Seq<char>
    decreases cells.len(),
{
    if cells.len() == 0 {
        Seq::empty()
    } else {
        spi_cells_text(cells.drop_last()) + spi_cell_text(cells.last())
    }
}

/// Result rows as they are printed: each row's cells, then a newline.
pub open spec fn spi_rows_text(rows: Seq<Vec<Option<String>>>) -> Seq<char>
    decreases rows.len(),
{
    if rows.len() == 0 {
        Seq::empty()
    } else {
        spi_rows_text(rows.drop_last()) + spi_cells_text(rows.last()@) + seq!['\n']
    }
}

/// Prints the rows of a query result: every cell followed by a tab, a
/// missing value as `NULL`, and every row followed by a newline.
pub fn format_spi_rows(rows: &Vec<Vec<Option<String>>>) -> (r: String)
    ensures
        r@ == spi_rows_text(rows@),
{
    let mut out = String::new();
    let mut i: usize = 0;
    while i < rows.len()
        invariant
            i <= rows@.len(),
            out@ == spi_rows_text(rows@.take(i as int)),
        decreases rows@.len() - i,
    {
        let row = &rows[i];
        let ghost start = out@;
        let mut j: usize = 0;
        while j < row.len()
            invariant
                j <= row@.len(),
                out@ == start + spi_cells_text(row@.take(j as int)),
            decreases row@.len() - j,
        {
            match &row[j] {
                Some(s) => out.append(s.as_str()),
                None => out.append("NULL"),
            }
            push_char(&mut out, '\t');
            assert(row@.take(j + 1).drop_last() =~= row@.take(j as int));
            assert(out@ =~= start + spi_cells_text(row@.take(j + 1)));
            j = j + 1;
        }
        assert(row@.take(j as int) =~= row@);
        push_char(&mut out, '\n');
        assert(rows@.take(i + 1).drop_last() =~= rows@.take(i as int));
        assert(out@ =~= spi_rows_text(rows@.take(i + 1)));
        i = i + 1;
    }
    assert(rows@.take(i as int) =~= rows@);
    out
}

/// The `i32` whose big-endian two's-complement bytes are `b0 b1 b2 b3`.
pub open spec fn be_i32(b0: u8, b1: u8, b2: u8, b3: u8) -> int {
    let u = b0 * 16777216 + b1 * 65536 + b2 * 256 + b3;
    if u >= 2147483648 {
        u - 4294967296
    } else {
        u
    }
}

/// Reads an oid column from its raw bytes: the first four bytes, taken as
/// a big-endian `i32`.
pub fn oid_from_row_bytes(bytes: &[u8]) -> (r: i32)
    requires
        bytes@.len() >= 4,
    ensures
        r as int == be_i32(bytes@[0], bytes@[1], bytes@[2], bytes@[3]),
{
    let u: u32 = (bytes[0] as u32) * 16777216 + (bytes[1] as u32) * 65536 + (bytes[2] as u32) * 256
        + (bytes[3] as u32);
    if u >= 2147483648 {
        let low: i32 = (u - 2147483648) as i32;
        low - 2147483647 - 1
    } else {
        u as i32
    }
}


/// Every result cell is printed as its text, or as `NULL` when it has no
/// value, followed by one tab; every row is printed as its cells in order
/// followed by one newline, after the rows before it.
pub proof fn law_spi_rendering(cell: Option<String>, rows: Seq<Vec<Option<String>>>, row: Vec<Option<String>>)
    ensures
        cell matches Some(s) ==> spi_cell_text(cell) == s@.push('\t'),
        cell is None ==> spi_cell_text(cell) == seq!['N', 'U', 'L', 'L', '\t'],
        spi_rows_text(rows.push(row)) == spi_rows_text(rows) + spi_cells_text(row@) + seq!['\n'],
        spi_cells_text(row@.push(cell)) == spi_cells_text(row@) + spi_cell_text(cell),
        spi_rows_text(Seq::empty()) == Seq::<char>::empty(),
{
    reveal_strlit("NULL");
    assert(rows.push(row).drop_last() =~= rows);
    assert(row@.push(cell).drop_last() =~= row@);
    if cell is Some {
        assert(cell->0@ + seq!['\t'] =~= cell->0@.push('\t'));
    } else {
        assert("NULL"@ + seq!['\t'] =~= seq!['N', 'U', 'L', 'L', '\t']);
    }
}

} // verus!
