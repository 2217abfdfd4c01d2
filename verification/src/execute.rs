//! Query execution model. SQL is dispatched in two phases — first as a
//! row-producing query, and only if the driver rejects that as a
//! command — and the command-form error is the one surfaced when both
//! fail. Result rows are normalized into one uniform tabular shape by a
//! typed extraction in a fixed priority order; a command yields exactly
//! one synthetic `affected_rows` column, which keeps it distinguishable
//! from a query that merely matched zero rows.
//!
//! The driver round-trips themselves are asynchronous engine I/O and live
//! with the caller; it reports what each cell decoded as (a `CellProbe`)
//! and what each phase returned, and every decision about those outcomes
//! is made here.

use vstd::prelude::*;
use vstd::string::StringExecFns;
use crate::config::opt_str_view;
use crate::strutil::contains_keyword;
use crate::strutil::contains_kw;
use crate::strutil::starts_with_keyword;
use crate::strutil::starts_with_kw;
use crate::strutil::str_eq;
use crate::strutil::strip_trailing;
use crate::strutil::strip_trailing_char;
use crate::strutil::trim_sql;
use crate::strutil::trimmed;

verus! {

/// One typed value of a normalized result cell. An eight-byte
/// floating-point wire value is carried as its raw bit pattern and never
/// interpreted here; timestamps arrive already rendered to their
/// canonical text form.
#[derive(Debug)]
pub enum SqlValue {
    Null,
    Bool(bool),
    Int(i64),
    UInt(u64),
    Float(u64),
    Text(String),
}

/// The mathematical shape of a `SqlValue`.
pub enum SqlValueV {
    Null,
    Bool(bool),
    Int(i64),
    UInt(u64),
    Float(u64),
    Text(Seq<char>),
}

impl View for SqlValue {
    type V = SqlValueV;

    open spec fn view(&self) -> SqlValueV {
        match self {
            SqlValue::Null => SqlValueV::Null,
            SqlValue::Bool(b) => SqlValueV::Bool(*b),
            SqlValue::Int(i) => SqlValueV::Int(*i),
            SqlValue::UInt(n) => SqlValueV::UInt(*n),
            SqlValue::Float(bits) => SqlValueV::Float(*bits),
            SqlValue::Text(s) => SqlValueV::Text(s@),
        }
    }
}

/// What the driver offered for one cell, each attempt made independently:
/// text, 64-bit integer, floating point (as its bit pattern), boolean,
/// then the two timestamp representations rendered to text.
#[derive(Debug)]
pub struct CellProbe {
    pub text: Option<String>,
    pub int64: Option<i64>,
    pub float_bits: Option<u64>,
    pub boolean: Option<bool>,
    pub ts_local: Option<String>,
    pub ts_utc: Option<String>,
}

/// The mathematical shape of a `CellProbe`.
pub struct CellProbeV {
    pub text: Option<Seq<char>>,
    pub int64: Option<i64>,
    pub float_bits: Option<u64>,
    pub boolean: Option<bool>,
    pub ts_local: Option<Seq<char>>,
    pub ts_utc: Option<Seq<char>>,
}

impl View for CellProbe {
    type V = CellProbeV;

    open spec fn view(&self) -> CellProbeV {
        CellProbeV {
            text: opt_str_view(self.text),
            int64: self.int64,
            float_bits: self.float_bits,
            boolean: self.boolean,
            ts_local: opt_str_view(self.ts_local),
            ts_utc: opt_str_view(self.ts_utc),
        }
    }
}

/// The strict decode priority: text first, then 64-bit integer, then
/// floating point (so that integral floats are not misreported), then
/// boolean, then the two timestamp forms last; a cell that decodes as
/// none of them is null.
pub open spec fn spec_decode_cell(p: CellProbeV) -> SqlValueV {
    if p.text is Some {
        SqlValueV::Text(p.text.unwrap())
    } else if p.int64 is Some {
        SqlValueV::Int(p.int64.unwrap())
    } else if p.float_bits is Some {
        SqlValueV::Float(p.float_bits.unwrap())
    } else if p.boolean is Some {
        SqlValueV::Bool(p.boolean.unwrap())
    } else if p.ts_local is Some {
        SqlValueV::Text(p.ts_local.unwrap())
    } else if p.ts_utc is Some {
        SqlValueV::Text(p.ts_utc.unwrap())
    } else {
        SqlValueV::Null
    }
}

/// Decodes one cell by the strict priority order.
pub fn decode_cell(p: &CellProbe) -> (r: SqlValue)
    ensures
        r@ == spec_decode_cell(p@),
{
    match &p.text {
        Some(s) => SqlValue::Text(s.clone()),
        None => match &p.int64 {
            Some(n) => SqlValue::Int(*n),
            None => match &p.float_bits {
                Some(bits) => SqlValue::Float(*bits),
                None => match &p.boolean {
                    Some(b) => SqlValue::Bool(*b),
                    None => match &p.ts_local {
                        Some(s) => SqlValue::Text(s.clone()),
                        None => match &p.ts_utc {
                            Some(s) => SqlValue::Text(s.clone()),
                            None => SqlValue::Null,
                        },
                    },
                },
            },
        },
    }
}

/// What the protocol engine's driver offered for one cell, in its own
/// priority order: text, 32-bit integer, 64-bit integer, floating point,
/// boolean.
#[derive(Debug)]
pub struct MssqlCellProbe {
    pub text: Option<String>,
    pub int32: Option<i32>,
    pub int64: Option<i64>,
    pub float_bits: Option<u64>,
    pub boolean: Option<bool>,
}

/// The mathematical shape of a `MssqlCellProbe`.
pub struct MssqlCellProbeV {
    pub text: Option<Seq<char>>,
    pub int32: Option<i32>,
    pub int64: Option<i64>,
    pub float_bits: Option<u64>,
    pub boolean: Option<bool>,
}

impl View for MssqlCellProbe {
    type V = MssqlCellProbeV;

    open spec fn view(&self) -> MssqlCellProbeV {
        MssqlCellProbeV {
            text: opt_str_view(self.text),
            int32: self.int32,
            int64: self.int64,
            float_bits: self.float_bits,
            boolean: self.boolean,
        }
    }
}

/// The protocol engine's decode priority.
pub open spec fn spec_decode_mssql_cell(p: MssqlCellProbeV) -> SqlValueV {
    if p.text is Some {
        SqlValueV::Text(p.text.unwrap())
    } else if p.int32 is Some {
        SqlValueV::Int(p.int32.unwrap() as i64)
    } else if p.int64 is Some {
        SqlValueV::Int(p.int64.unwrap())
    } else if p.float_bits is Some {
        SqlValueV::Float(p.float_bits.unwrap())
    } else if p.boolean is Some {
        SqlValueV::Bool(p.boolean.unwrap())
    } else {
        SqlValueV::Null
    }
}

/// Decodes one protocol-engine cell by its priority order.
pub fn decode_mssql_cell(p: &MssqlCellProbe) -> (r: SqlValue)
    ensures
        r@ == spec_decode_mssql_cell(p@),
{
    match &p.text {
        Some(s) => SqlValue::Text(s.clone()),
        None => match &p.int32 {
            Some(n) => SqlValue::Int(*n as i64),
            None => match &p.int64 {
                Some(n) => SqlValue::Int(*n),
                None => match &p.float_bits {
                    Some(bits) => SqlValue::Float(*bits),
                    None => match &p.boolean {
                        Some(b) => SqlValue::Bool(*b),
                        None => SqlValue::Null,
                    },
                },
            },
        },
    }
}

/// The uniform tabular result: ordered column names and rows of typed
/// values. Every row has exactly as many values as there are columns; a
/// result with no columns and no rows means "statement executed, no
/// tabular output".
#[derive(Debug)]
pub struct QueryResult {
    pub columns: Vec<String>,
    pub rows: Vec<Vec<SqlValue>>,
}

impl QueryResult {
    /// Every row is as wide as the column list.
    pub open spec fn wf(&self) -> bool {
        forall|i: int| 0 <= i < self.rows@.len() ==> #[trigger] self.rows@[i]@.len()
            == self.columns@.len()
    }
}

/// The cell of a normalized row at column `j`: the decoded probe when the
/// driver offered one, null when the row was shorter than the column
/// list.
pub open spec fn spec_norm_cell(row: Seq<CellProbe>, j: int) -> SqlValueV {
    if 0 <= j < row.len() {
        spec_decode_cell(row[j]@)
    } else {
        SqlValueV::Null
    }
}

/// The protocol-engine counterpart of `spec_norm_cell`.
pub open spec fn spec_norm_mssql_cell(row: Seq<MssqlCellProbe>, j: int) -> SqlValueV {
    if 0 <= j < row.len() {
        spec_decode_mssql_cell(row[j]@)
    } else {
        SqlValueV::Null
    }
}

/// Normalizes the rows a query produced: each row is decoded cell by cell
/// in the strict priority order and padded with nulls to the width of the
/// column list.
pub fn normalize_rows(columns: Vec<String>, probes: &Vec<Vec<CellProbe>>) -> (r: QueryResult)
    ensures
        r.wf(),
        r.columns == columns,
        r.rows@.len() == probes@.len(),
        forall|i: int, j: int|
            0 <= i < probes@.len() && 0 <= j < columns@.len() ==> #[trigger] r.rows@[i]@[j]@
                == spec_norm_cell(probes@[i]@, j),
{
    let ncols = columns.len();
    let nrows = probes.len();
    let mut rows: Vec<Vec<SqlValue>> = Vec::new();
    let mut i: usize = 0;
    while i < nrows
        invariant
            ncols == columns@.len(),
            nrows == probes@.len(),
            i <= nrows,
            rows@.len() == i,
            forall|x: int| 0 <= x < i ==> #[trigger] rows@[x]@.len() == ncols,
            forall|x: int, j: int|
                0 <= x < i && 0 <= j < ncols ==> #[trigger] rows@[x]@[j]@ == spec_norm_cell(
                    probes@[x]@,
                    j,
                ),
        decreases nrows - i,
    {
        let prow = &probes[i];
        let plen = prow.len();
        let mut row: Vec<SqlValue> = Vec::new();
        let mut j: usize = 0;
        while j < ncols
            invariant
                plen == probes@[i as int]@.len(),
                prow@ == probes@[i as int]@,
                i < probes@.len(),
                j <= ncols,
                row@.len() == j,
                forall|jj: int|
                    0 <= jj < j ==> #[trigger] row@[jj]@ == spec_norm_cell(probes@[i as int]@, jj),
            decreases ncols - j,
        {
            let v = if j < plen {
                decode_cell(&prow[j])
            } else {
                SqlValue::Null
            };
            row.push(v);
            j = j + 1;
        }
        rows.push(row);
        i = i + 1;
    }
    QueryResult { columns, rows }
}

/// The command-result shape: exactly one synthetic `affected_rows` column
/// holding the engine-reported mutation count.
pub fn command_result(count: u64) -> (r: QueryResult)
    ensures
        r.wf(),
        r.columns@.len() == 1,
        r.columns@[0]@ == "affected_rows"@,
        r.rows@.len() == 1,
        r.rows@[0]@.len() == 1,
        r.rows@[0]@[0]@ == SqlValueV::UInt(count),
{
    let mut columns: Vec<String> = Vec::new();
    columns.push("affected_rows".to_owned());
    let mut row: Vec<SqlValue> = Vec::new();
    row.push(SqlValue::UInt(count));
    let mut rows: Vec<Vec<SqlValue>> = Vec::new();
    rows.push(row);
    QueryResult { columns, rows }
}

/// The synthetic success status reported for a non-query statement on the
/// protocol engine, which has no reliable mutation-count API. The
/// asymmetry with `command_result` is deliberate: callers that need a
/// precise count can detect the engine that cannot supply one.
pub fn status_result() -> (r: QueryResult)
    ensures
        r.wf(),
        r.columns@.len() == 1,
        r.columns@[0]@ == "status"@,
        r.rows@.len() == 1,
        r.rows@[0]@.len() == 1,
        r.rows@[0]@[0]@ == SqlValueV::Text("\u{6267}\u{884c}\u{6210}\u{529f}"@),
{
    let mut columns: Vec<String> = Vec::new();
    columns.push("status".to_owned());
    let mut row: Vec<SqlValue> = Vec::new();
    row.push(SqlValue::Text("\u{6267}\u{884c}\u{6210}\u{529f}".to_owned()));
    let mut rows: Vec<Vec<SqlValue>> = Vec::new();
    rows.push(row);
    QueryResult { columns, rows }
}

/// Assembles the protocol engine's result: with column metadata the rows
/// are normalized as usual; a statement that produced no column metadata
/// was a non-query and yields the synthetic status result.
pub fn mssql_query_result(columns: Vec<String>, probes: &Vec<Vec<MssqlCellProbe>>) -> (r:
    QueryResult)
    ensures
        r.wf(),
        columns@.len() == 0 ==> r.columns@.len() == 1 && r.columns@[0]@ == "status"@
            && r.rows@.len() == 1 && r.rows@[0]@.len() == 1 && r.rows@[0]@[0]@ == SqlValueV::Text(
            "\u{6267}\u{884c}\u{6210}\u{529f}"@,
        ),
        columns@.len() > 0 ==> r.columns == columns && r.rows@.len() == probes@.len() && forall|
            i: int,
            j: int,
        |
            0 <= i < probes@.len() && 0 <= j < columns@.len() ==> #[trigger] r.rows@[i]@[j]@
                == spec_norm_mssql_cell(probes@[i]@, j),
{
    if columns.len() == 0 {
        status_result()
    } else {
        let ncols = columns.len();
        let nrows = probes.len();
        let mut rows: Vec<Vec<SqlValue>> = Vec::new();
        let mut i: usize = 0;
        while i < nrows
            invariant
                ncols == columns@.len(),
                nrows == probes@.len(),
                i <= nrows,
                rows@.len() == i,
                forall|x: int| 0 <= x < i ==> #[trigger] rows@[x]@.len() == ncols,
                forall|x: int, j: int|
                    0 <= x < i && 0 <= j < ncols ==> #[trigger] rows@[x]@[j]@
                        == spec_norm_mssql_cell(probes@[x]@, j),
            decreases nrows - i,
        {
            let prow = &probes[i];
            let plen = prow.len();
            let mut row: Vec<SqlValue> = Vec::new();
            let mut j: usize = 0;
            while j < ncols
                invariant
                    plen == probes@[i as int]@.len(),
                    prow@ == probes@[i as int]@,
                    i < probes@.len(),
                    j <= ncols,
                    row@.len() == j,
                    forall|jj: int|
                        0 <= jj < j ==> #[trigger] row@[jj]@ == spec_norm_mssql_cell(
                            probes@[i as int]@,
                            jj,
                        ),
                decreases ncols - j,
            {
                let v = if j < plen {
                    decode_mssql_cell(&prow[j])
                } else {
                    SqlValue::Null
                };
                row.push(v);
                j = j + 1;
            }
            rows.push(row);
            i = i + 1;
        }
        QueryResult { columns, rows }
    }
}

/// A 64-bit integer reinterpreted as an unsigned mutation count, the way
/// the history extractor reads it: two's-complement wrapping.
pub open spec fn spec_i64_wrap_u64(i: i64) -> u64 {
    if i >= 0 {
        i as u64
    } else {
        (i + 0x8000000000000000 + 0x8000000000000000) as u64
    }
}

/// The mutation count a cell holds, when it holds one.
pub open spec fn spec_cell_as_count(v: SqlValueV) -> Option<u64> {
    match v {
        SqlValueV::UInt(n) => Some(n),
        SqlValueV::Int(i) => Some(spec_i64_wrap_u64(i)),
        _ => None,
    }
}

/// The rows-affected figure reported to the history log for a result:
/// nothing for an empty result, the synthetic count for the
/// command-result shape, and otherwise the number of rows returned.
pub open spec fn spec_extract_rows_affected(q: QueryResult) -> Option<u64> {
    if q.rows@.len() == 0 {
        None
    } else if q.columns@.len() == 1 && q.columns@[0]@ == "affected_rows"@ {
        if q.rows@[0]@.len() > 0 {
            spec_cell_as_count(q.rows@[0]@[0]@)
        } else {
            None
        }
    } else {
        Some(q.rows@.len() as u64)
    }
}

/// Extracts the rows-affected figure for the history log.
pub fn extract_rows_affected(q: &QueryResult) -> (r: Option<u64>)
    ensures
        r == spec_extract_rows_affected(*q),
{
    if q.rows.len() == 0 {
        return None;
    }
    let is_command = q.columns.len() == 1 && str_eq(q.columns[0].as_str(), "affected_rows");
    if is_command {
        let first = &q.rows[0];
        if first.len() > 0 {
            match &first[0] {
                SqlValue::UInt(n) => Some(*n),
                SqlValue::Int(i) => {
                    let wide: i128 = *i as i128;
                    let wrapped: u64 = if wide >= 0 {
                        wide as u64
                    } else {
                        (wide + 0x8000000000000000i128 + 0x8000000000000000i128) as u64
                    };
                    Some(wrapped)
                },
                _ => None,
            }
        } else {
            None
        }
    } else {
        Some(q.rows.len() as u64)
    }
}

/// The probe statement used to recover column metadata when a query
/// legitimately returned zero rows: only a select without its own row
/// limit is re-issued, with an explicit zero-row constraint appended. A
/// statement that already constrains its row count, or that is not a
/// row-producing query at all, yields no probe and must not be re-run.
pub open spec fn spec_probe_sql(s: Seq<char>) -> Option<Seq<char>> {
    let t = trimmed(s);
    if starts_with_kw(t, "select"@, "SELECT"@) && !contains_kw(t, "limit"@, "LIMIT"@) {
        Some(trimmed(strip_trailing(s, ';')) + " LIMIT 0"@)
    } else {
        None
    }
}

/// Builds the column-metadata probe statement for a query that returned
/// zero rows, or nothing when the statement must not be re-issued.
pub fn column_probe_sql(sql: &str) -> (r: Option<String>)
    ensures
        opt_str_view(r) == spec_probe_sql(sql@),
{
    proof {
        reveal_strlit("select");
        reveal_strlit("SELECT");
        reveal_strlit("limit");
        reveal_strlit("LIMIT");
    }
    let t = trim_sql(sql);
    let is_select = starts_with_keyword(t, "select", "SELECT");
    let no_limit = !contains_keyword(t, "limit", "LIMIT");
    if is_select && no_limit {
        let s1 = strip_trailing_char(sql, ';');
        let s2 = trim_sql(s1);
        let mut out: String = s2.to_owned();
        out.append(" LIMIT 0");
        Some(out)
    } else {
        None
    }
}

/// Settles the second phase of the two-phase dispatch: the SQL was
/// rejected as a query and was re-run as a command. A successful command
/// yields the `affected_rows` shape; a failed one surfaces the
/// command-form error, which carries the more specific message.
pub fn command_fallback_result(outcome: Result<u64, String>) -> (r: Result<QueryResult, String>)
    ensures
        match outcome {
            Ok(n) => r is Ok && {
                let q = r->Ok_0;
                q.wf() && q.columns@.len() == 1 && q.columns@[0]@ == "affected_rows"@
                    && q.rows@.len() == 1 && q.rows@[0]@.len() == 1 && q.rows@[0]@[0]@
                    == SqlValueV::UInt(n)
            },
            Err(e) => r is Err && r->Err_0@ == "SQL execution failed: "@ + e@,
        },
{
    match outcome {
        Ok(n) => Ok(command_result(n)),
        Err(e) => {
            let mut m: String = "SQL execution failed: ".to_owned();
            m.append(e.as_str());
            Err(m)
        },
    }
}

/// The command-result shape, over views.
pub open spec fn spec_is_command_shape(cols: Seq<Seq<char>>, nrows: int) -> bool {
    cols.len() == 1 && cols[0] == "affected_rows"@ && nrows == 1
}

/// The shape of a query that matched zero rows, over views.
pub open spec fn spec_is_empty_query_shape(cols: Seq<Seq<char>>, nrows: int) -> bool {
    cols.len() > 0 && nrows == 0
}

/// Law (command-vs-query disambiguation): the command-result shape and
/// the zero-row query shape are mutually exclusive, so the two zero-row
/// cases stay distinguishable for every caller.
pub proof fn lemma_zero_row_shapes_distinct(cols: Seq<Seq<char>>, nrows: int)
    ensures
        !(spec_is_command_shape(cols, nrows) && spec_is_empty_query_shape(cols, nrows)),
{
}

} // verus!
