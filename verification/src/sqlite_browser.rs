//! The text of the queries that the database browser sends, and what it
//! shows of what comes back.

use crate::chars::{decimal, decimal_text, replace_char, replaced, trim, trimmed};
use crate::text::{str_eq, str_starts_with, text_starts_with};
use crate::trusted::{hex_encode, hex_text, to_uppercase, uppercase};
use vstd::prelude::*;

verus! {

/// A column of a table.
#[derive(Debug, Clone)]
pub struct SqliteColumn {
    pub cid: i64,
    pub name: String,
    pub column_type: String,
    pub notnull: bool,
    pub dflt_value: Option<String>,
    pub pk: bool,
}

/// How many rows of a table are shown where no limit is given.
pub const DEFAULT_ROW_LIMIT: i64 = 100;

/// A name as an SQL identifier: in double quotes, each double quote within
/// it doubled.
pub open spec fn quoted(name: Seq<char>) -> Seq<char> {
    "\""@ + replaced(name, '"', "\"\""@, name.len()) + "\""@
}

/// Whether a query reads: once trimmed and in upper case it starts with
/// `SELECT`, `PRAGMA` or `EXPLAIN`.
pub open spec fn reads(query: Seq<char>) -> bool {
    starts_as_read(uppercase(trimmed(query)))
}

/// Whether a query, given trimmed and in upper case, starts with `SELECT`,
/// `PRAGMA` or `EXPLAIN`.
pub open spec fn starts_as_read(upper: Seq<char>) -> bool {
    text_starts_with(upper, "SELECT"@) || text_starts_with(upper, "PRAGMA"@) || text_starts_with(
        upper,
        "EXPLAIN"@,
    )
}

/// A name as an SQL identifier.
pub fn quote_identifier(name: &str) -> (r: String)
    ensures
        r@ == quoted(name@),
{
    let mut r = String::from_str("\"");
    r.append(replace_char(name, '"', "\"\"").as_str());
    r.append("\"");
    r
}

/// The query that counts the rows of a table.
pub fn count_query(table: &str) -> (r: String)
    ensures
        r@ == "SELECT COUNT(*) FROM "@ + quoted(table@),
{
    String::from_str("SELECT COUNT(*) FROM ").concat(quote_identifier(table).as_str())
}

/// The query that describes the columns of a table.
pub fn table_info_query(table: &str) -> (r: String)
    ensures
        r@ == "PRAGMA table_info("@ + quoted(table@) + ")"@,
{
    let mut r = String::from_str("PRAGMA table_info(");
    r.append(quote_identifier(table).as_str());
    r.append(")");
    r
}

/// The query that lists the indexes of a table.
pub fn index_list_query(table: &str) -> (r: String)
    ensures
        r@ == "PRAGMA index_list("@ + quoted(table@) + ")"@,
{
    let mut r = String::from_str("PRAGMA index_list(");
    r.append(quote_identifier(table).as_str());
    r.append(")");
    r
}

/// The query that lists the columns of an index.
pub fn index_info_query(index: &str) -> (r: String)
    ensures
        r@ == "PRAGMA index_info("@ + quoted(index@) + ")"@,
{
    let mut r = String::from_str("PRAGMA index_info(");
    r.append(quote_identifier(index).as_str());
    r.append(")");
    r
}

/// The query that reads one page of a table: a hundred rows from the start
/// unless a limit and an offset are given.
pub fn table_data_query(table: &str, limit: Option<i64>, offset: Option<i64>) -> (r: String)
    ensures
        r@ == "SELECT * FROM "@ + quoted(table@) + " LIMIT "@ + decimal(
            match limit {
                Some(n) => n as int,
                None => DEFAULT_ROW_LIMIT as int,
            },
        ) + " OFFSET "@ + decimal(
            match offset {
                Some(n) => n as int,
                None => 0,
            },
        ),
{
    let limit = match limit {
        Some(n) => n,
        None => DEFAULT_ROW_LIMIT,
    };
    let offset = match offset {
        Some(n) => n,
        None => 0,
    };
    let mut r = String::from_str("SELECT * FROM ");
    r.append(quote_identifier(table).as_str());
    r.append(" LIMIT ");
    r.append(decimal_text(limit).as_str());
    r.append(" OFFSET ");
    r.append(decimal_text(offset).as_str());
    r
}

/// Whether a query, given trimmed and in upper case, reads.
pub fn is_read_statement(upper: &str) -> (r: bool)
    ensures
        r == starts_as_read(upper@),
{
    str_starts_with(upper, "SELECT") || str_starts_with(upper, "PRAGMA") || str_starts_with(
        upper,
        "EXPLAIN",
    )
}

/// Whether a query reads, so that its rows are to be fetched; any other
/// query is run for the number of rows it changes.
pub fn is_read_query(query: &str) -> (r: bool)
    ensures
        r == reads(query@),
{
    let upper = to_uppercase(trim(query).as_str());
    is_read_statement(upper.as_str())
}

/// Whether the rows of an entry of the schema are counted: those of a table,
/// not those of a view.
pub fn counts_rows(table_type: &str) -> (r: bool)
    ensures
        r == (table_type@ == "table"@),
{
    str_eq(table_type, "table")
}

/// How a blob is shown: as an SQL literal of its bytes in hexadecimal.
pub fn blob_literal(bytes: &[u8]) -> (r: String)
    ensures
        r@ == "x'"@ + hex_text(bytes@) + "'"@,
{
    let mut r = String::from_str("x'");
    r.append(hex_encode(bytes).as_str());
    r.append("'");
    r
}

impl SqliteColumn {
    /// The column that a row of the table description stands for: no type
    /// reads as empty, and the two flags are set where their number is not
    /// zero.
    pub fn new(
        cid: i64,
        name: String,
        column_type: Option<String>,
        notnull: i32,
        dflt_value: Option<String>,
        pk: i32,
    ) -> (r: SqliteColumn)
        ensures
            r.cid == cid,
            r.name == name,
            r.column_type@ == match column_type {
                Some(t) => t@,
                None => Seq::empty(),
            },
            r.notnull == (notnull != 0),
            r.dflt_value == dflt_value,
            r.pk == (pk != 0),
    {
        SqliteColumn {
            cid,
            name,
            column_type: match column_type {
                Some(t) => t,
                None => String::new(),
            },
            notnull: notnull != 0,
            dflt_value,
            pk: pk != 0,
        }
    }
}

} // verus!
