//! The kind of the values in a result column: numbers, dates, or anything
//! else. Dates are recognised by the date parsers of `chrono`.

use vstd::prelude::*;
use crate::chart::ColumnType;
use crate::json::{JsonValue, JsonValueView};
use crate::parser::{QueryResult, row_view};

verus! {

/// What `chrono::DateTime::parse_from_rfc3339` reads from a string, as
/// milliseconds since the epoch (`None` when it does not parse).
pub uninterp spec fn rfc3339_millis(s: Seq<char>) -> Option<i64>;

/// What `chrono::DateTime::parse_from_str` reads from a string with a
/// format, as milliseconds since the epoch.
pub uninterp spec fn offset_datetime_millis(s: Seq<char>, fmt: Seq<char>) -> Option<i64>;

/// What `chrono::NaiveDateTime::parse_from_str` reads from a string with a
/// format, as milliseconds since the epoch taken in UTC.
pub uninterp spec fn naive_datetime_millis(s: Seq<char>, fmt: Seq<char>) -> Option<i64>;

/// What `chrono::NaiveDate::parse_from_str` reads from a string with a
/// format, as milliseconds since the epoch at midnight UTC of that day.
pub uninterp spec fn naive_date_millis(s: Seq<char>, fmt: Seq<char>) -> Option<i64>;

/// Calls `chrono::DateTime::parse_from_rfc3339` and `timestamp_millis` on
/// what it returns; the result is the name `rfc3339_millis` of the string.
#[verifier::external_body]
fn parse_rfc3339_millis(s: &str) -> (r: Option<i64>)
    ensures
        r == rfc3339_millis(s@),
{
    chrono::DateTime::parse_from_rfc3339(s).ok().map(|dt| dt.timestamp_millis())
}

/// Calls `chrono::DateTime::parse_from_str` and `timestamp_millis` on what
/// it returns; the result is the name `offset_datetime_millis` of the
/// arguments.
#[verifier::external_body]
fn parse_offset_datetime_millis(s: &str, fmt: &str) -> (r: Option<i64>)
    ensures
        r == offset_datetime_millis(s@, fmt@),
{
    chrono::DateTime::parse_from_str(s, fmt).ok().map(|dt| dt.timestamp_millis())
}

/// Calls `chrono::NaiveDateTime::parse_from_str`, then `and_utc` and
/// `timestamp_millis` on what it returns; the result is the name
/// `naive_datetime_millis` of the arguments.
#[verifier::external_body]
fn parse_naive_datetime_millis(s: &str, fmt: &str) -> (r: Option<i64>)
    ensures
        r == naive_datetime_millis(s@, fmt@),
{
    chrono::NaiveDateTime::parse_from_str(s, fmt).ok().map(|dt| dt.and_utc().timestamp_millis())
}

/// Calls `chrono::NaiveDate::parse_from_str`, then `and_hms_opt(0, 0, 0)`
/// (always present), `and_utc` and `timestamp_millis`; the result is the
/// name `naive_date_millis` of the arguments.
#[verifier::external_body]
fn parse_naive_date_millis(s: &str, fmt: &str) -> (r: Option<i64>)
    ensures
        r == naive_date_millis(s@, fmt@),
{
    chrono::NaiveDate::parse_from_str(s, fmt).ok().and_then(|d| d.and_hms_opt(0, 0, 0)).map(
        |dt| dt.and_utc().timestamp_millis(),
    )
}

/// The date a string denotes, as milliseconds since the epoch: the first
/// reading that succeeds among RFC 3339, `YYYY-MM-DD HH:MM:SS.fff +HH:MM`,
/// `YYYY-MM-DD HH:MM:SS`, `YYYY-MM-DD HH:MM:SS.fff` and `YYYY-MM-DD`.
pub open spec fn parse_date(s: Seq<char>) -> Option<i64> {
    match rfc3339_millis(s) {
        Some(m) => Some(m),
        None => match offset_datetime_millis(s, "%Y-%m-%d %H:%M:%S%.f %:z"@) {
            Some(m) => Some(m),
            None => match naive_datetime_millis(s, "%Y-%m-%d %H:%M:%S"@) {
                Some(m) => Some(m),
                None => match naive_datetime_millis(s, "%Y-%m-%d %H:%M:%S%.f"@) {
                    Some(m) => Some(m),
                    None => naive_date_millis(s, "%Y-%m-%d"@),
                },
            },
        },
    }
}

/// Try to parse a string as a date/datetime, returning epoch milliseconds.
pub fn try_parse_date(s: &str) -> (r: Option<i64>)
    ensures
        r == parse_date(s@),
{
    if let Some(m) = parse_rfc3339_millis(s) {
        return Some(m);
    }
    if let Some(m) = parse_offset_datetime_millis(s, "%Y-%m-%d %H:%M:%S%.f %:z") {
        return Some(m);
    }
    if let Some(m) = parse_naive_datetime_millis(s, "%Y-%m-%d %H:%M:%S") {
        return Some(m);
    }
    if let Some(m) = parse_naive_datetime_millis(s, "%Y-%m-%d %H:%M:%S%.f") {
        return Some(m);
    }
    parse_naive_date_millis(s, "%Y-%m-%d")
}

/// The value of a row in a column, when the row has that column.
pub open spec fn cell_at(row: Seq<JsonValueView>, col: int) -> Option<JsonValueView> {
    if 0 <= col < row.len() {
        Some(row[col])
    } else {
        None
    }
}

/// Among the rows' values in a column: how many are not null, how many are
/// numbers, and how many are strings that read as dates.
pub open spec fn column_counts(rows: Seq<Seq<JsonValueView>>, col: int) -> (nat, nat, nat)
    decreases rows.len(),
{
    if rows.len() == 0 {
        (0, 0, 0)
    } else {
        let c = column_counts(rows.drop_last(), col);
        match cell_at(rows.last(), col) {
            None => c,
            Some(JsonValueView::Null) => c,
            Some(JsonValueView::Number(_, _)) => (c.0 + 1, c.1 + 1, c.2),
            Some(JsonValueView::String(s)) => (
                c.0 + 1,
                c.1,
                if parse_date(s) is Some {
                    c.2 + 1
                } else {
                    c.2
                },
            ),
            Some(_) => (c.0 + 1, c.1, c.2),
        }
    }
}

/// The kind of a column from its counts: categorical when it has no
/// values, numeric when every value is a number, date when at least one
/// value and nine tenths of the values (rounded down) are dates, and
/// categorical otherwise.
pub open spec fn kind_of_counts(c: (nat, nat, nat)) -> ColumnType {
    if c.0 == 0 {
        ColumnType::Categorical
    } else if c.1 == c.0 {
        ColumnType::Numeric
    } else if c.2 >= c.0 * 9 / 10 && c.2 > 0 {
        ColumnType::Date
    } else {
        ColumnType::Categorical
    }
}

/// The rows of a result, as seen by contracts.
pub open spec fn result_rows(result: QueryResult) -> Seq<Seq<JsonValueView>> {
    result.rows@.map_values(|r: Vec<JsonValue>| row_view(r))
}

proof fn lemma_counts_bounded(rows: Seq<Seq<JsonValueView>>, col: int)
    ensures
        column_counts(rows, col).0 <= rows.len(),
        column_counts(rows, col).1 <= column_counts(rows, col).0,
        column_counts(rows, col).2 <= column_counts(rows, col).0,
    decreases rows.len(),
{
    if rows.len() > 0 {
        lemma_counts_bounded(rows.drop_last(), col);
    }
}

/// Detect the type of a column by scanning all non-null values.
pub fn detect_column_type(result: &QueryResult, col_index: usize) -> (r: ColumnType)
    ensures
        r == kind_of_counts(column_counts(result_rows(*result), col_index as int)),
{
    let ghost rows = result_rows(*result);
    let mut non_null: usize = 0;
    let mut numeric: usize = 0;
    let mut dates: usize = 0;
    let mut i: usize = 0;
    while i < result.rows.len()
        invariant
            i <= result.rows@.len(),
            rows == result_rows(*result),
            (non_null as nat, numeric as nat, dates as nat) == column_counts(rows.take(i as int), col_index as int),
        decreases result.rows@.len() - i,
    {
        proof {
            assert(rows.take(i + 1).drop_last() =~= rows.take(i as int));
            lemma_counts_bounded(rows.take(i as int), col_index as int);
        }
        let row = &result.rows[i];
        assert(rows.take(i + 1).last() == row_view(*row));
        if col_index < row.len() {
            assert(row_view(*row)[col_index as int] == row@[col_index as int]@);
            match &row[col_index] {
                JsonValue::Null => {},
                JsonValue::Number(_) => {
                    non_null += 1;
                    numeric += 1;
                },
                JsonValue::String(s) => {
                    non_null += 1;
                    if try_parse_date(s.as_str()).is_some() {
                        dates += 1;
                    }
                },
                _ => {
                    non_null += 1;
                },
            }
        }
        i += 1;
    }
    assert(rows.take(result.rows@.len() as int) =~= rows);
    column_type_of_counts(non_null, numeric, dates)
}

/// The kind of a column from how many of its values are not null, are
/// numbers, and are strings that read as dates (see `kind_of_counts`).
pub fn column_type_of_counts(non_null: usize, numeric: usize, dates: usize) -> (r: ColumnType)
    ensures
        r == kind_of_counts((non_null as nat, numeric as nat, dates as nat)),
{
    if non_null == 0 {
        return ColumnType::Categorical;
    }
    if numeric == non_null {
        return ColumnType::Numeric;
    }
    let threshold: usize = non_null - (non_null / 10 + if non_null % 10 != 0 { 1 } else { 0 });
    assert(threshold == non_null * 9 / 10) by (nonlinear_arith)
        requires
            threshold == non_null - (non_null / 10 + if non_null % 10 != 0 { 1usize } else { 0usize }),
    ;
    if dates >= threshold && dates > 0 {
        return ColumnType::Date;
    }
    ColumnType::Categorical
}

/// Detect types for all columns in a query result: each column name with
/// the kind of its values.
pub fn detect_all_column_types(result: &QueryResult) -> (r: Vec<(String, ColumnType)>)
    ensures
        r@.len() == result.columns@.len(),
        forall|i: int|
            0 <= i < r@.len() ==> (#[trigger] r@[i]).0@ == result.columns@[i]@ && r@[i].1
                == kind_of_counts(column_counts(result_rows(*result), i)),
{
    let mut out: Vec<(String, ColumnType)> = Vec::new();
    let mut i: usize = 0;
    while i < result.columns.len()
        invariant
            i <= result.columns@.len(),
            out@.len() == i,
            forall|j: int|
                0 <= j < i ==> (#[trigger] out@[j]).0@ == result.columns@[j]@ && out@[j].1
                    == kind_of_counts(column_counts(result_rows(*result), j)),
        decreases result.columns@.len() - i,
    {
        let kind = detect_column_type(result, i);
        out.push((result.columns[i].clone(), kind));
        i += 1;
    }
    out
}

} // verus!
