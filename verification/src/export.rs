//! Query results written out as CSV text: a header line of column names,
//! then one line per row. A cell that holds a comma, a double quote or a
//! line break is put in double quotes, with each double quote doubled.

use vstd::prelude::*;
use crate::config::strings_view;
use crate::json::{csv_text, format_csv_value, JsonValue};
use crate::parser::QueryResult;
use crate::text::{chars_to_string, str_chars};

verus! {

/// A character that makes a cell need quotes.
pub open spec fn special_char(c: char) -> bool {
    c == ',' || c == '"' || c == '\n'
}

/// The cell holds a comma, a double quote or a line break.
pub open spec fn needs_quotes(s: Seq<char>) -> bool {
    exists|j: int| 0 <= j < s.len() && special_char(#[trigger] s[j])
}

/// The text with each double quote doubled.
pub open spec fn doubled_quotes(s: Seq<char>) -> Seq<char>
    decreases s.len(),
{
    if s.len() == 0 {
        Seq::empty()
    } else {
        doubled_quotes(s.drop_last()) + if s.last() == '"' {
            seq!['"', '"']
        } else {
            seq![s.last()]
        }
    }
}

/// How a cell is written.
pub open spec fn csv_field(s: Seq<char>) -> Seq<char> {
    if needs_quotes(s) {
        seq!['"'] + doubled_quotes(s) + seq!['"']
    } else {
        s
    }
}

/// The texts joined by commas.
pub open spec fn comma_join(cells: Seq<Seq<char>>) -> Seq<char>
    decreases cells.len(),
{
    if cells.len() == 0 {
        Seq::empty()
    } else if cells.len() == 1 {
        cells[0]
    } else {
        comma_join(cells.drop_last()) + seq![','] + cells.last()
    }
}

/// One line of the file: the cells, each written as a field, joined by
/// commas, and a line break.
pub open spec fn csv_line(cells: Seq<Seq<char>>) -> Seq<char> {
    comma_join(cells.map_values(|c: Seq<char>| csv_field(c))) + seq!['\n']
}

/// The cell texts of a row of values.
pub open spec fn value_cells(row: Seq<JsonValue>) -> Seq<Seq<char>> {
    row.map_values(|v: JsonValue| csv_text(v@))
}

/// The lines of the rows, in order.
pub open spec fn csv_rows(rows: Seq<Vec<JsonValue>>) -> Seq<char>
    decreases rows.len(),
{
    if rows.len() == 0 {
        Seq::empty()
    } else {
        csv_rows(rows.drop_last()) + csv_line(value_cells(rows.last()@))
    }
}

/// The whole file: the header line, then the rows.
pub open spec fn csv_document(columns: Seq<Seq<char>>, rows: Seq<Vec<JsonValue>>) -> Seq<char> {
    csv_line(columns) + csv_rows(rows)
}

fn has_special(s: &Vec<char>) -> (r: bool)
    ensures
        r == needs_quotes(s@),
{
    let mut i: usize = 0;
    while i < s.len()
        invariant
            i <= s@.len(),
            forall|j: int| 0 <= j < i ==> !special_char(#[trigger] s@[j]),
        decreases s@.len() - i,
    {
        let c = s[i];
        if c == ',' || c == '"' || c == '\n' {
            assert(special_char(s@[i as int]));
            return true;
        }
        i += 1;
    }
    false
}

fn push_field(out: &mut Vec<char>, s: &Vec<char>)
    ensures
        final(out)@ == old(out)@ + csv_field(s@),
{
    if !has_special(s) {
        let mut i: usize = 0;
        let ghost base = out@;
        while i < s.len()
            invariant
                i <= s@.len(),
                out@ == base + s@.take(i as int),
            decreases s@.len() - i,
        {
            out.push(s[i]);
            assert(s@.take(i + 1) =~= s@.take(i as int).push(s@[i as int]));
            i += 1;
        }
        assert(s@.take(s@.len() as int) =~= s@);
        return;
    }
    let ghost start = out@;
    out.push('"');
    let ghost base = out@;
    let mut i: usize = 0;
    while i < s.len()
        invariant
            i <= s@.len(),
            out@ == base + doubled_quotes(s@.take(i as int)),
        decreases s@.len() - i,
    {
        let c = s[i];
        out.push(c);
        if c == '"' {
            out.push('"');
        }
        assert(s@.take(i + 1).drop_last() =~= s@.take(i as int));
        i += 1;
    }
    assert(s@.take(s@.len() as int) =~= s@);
    out.push('"');
    assert(out@ =~= start + (seq!['"'] + doubled_quotes(s@) + seq!['"']));
}

fn push_line(out: &mut Vec<char>, cells: &Vec<Vec<char>>)
    ensures
        final(out)@ == old(out)@ + csv_line(cells@.map_values(|c: Vec<char>| c@)),
{
    let ghost base = out@;
    let ghost texts = cells@.map_values(|c: Vec<char>| c@);
    let ghost fields = texts.map_values(|c: Seq<char>| csv_field(c));
    let mut i: usize = 0;
    while i < cells.len()
        invariant
            i <= cells@.len(),
            texts == cells@.map_values(|c: Vec<char>| c@),
            fields == texts.map_values(|c: Seq<char>| csv_field(c)),
            out@ == base + comma_join(fields.take(i as int)),
        decreases cells@.len() - i,
    {
        assert(fields.take(i + 1).drop_last() =~= fields.take(i as int));
        assert(fields.take(i + 1).last() == csv_field(cells@[i as int]@));
        if i > 0 {
            out.push(',');
        } else {
            assert(fields.take(1) =~= seq![fields[0]]);
        }
        push_field(out, &cells[i]);
        i += 1;
    }
    assert(fields.take(cells@.len() as int) =~= fields);
    out.push('\n');
}

fn header_cells(columns: &Vec<String>) -> (r: Vec<Vec<char>>)
    ensures
        r@.map_values(|c: Vec<char>| c@) == strings_view(columns@),
{
    let mut r: Vec<Vec<char>> = Vec::new();
    let mut i: usize = 0;
    while i < columns.len()
        invariant
            i <= columns@.len(),
            r@.len() == i,
            forall|j: int| 0 <= j < i ==> (#[trigger] r@[j])@ == columns@[j]@,
        decreases columns@.len() - i,
    {
        r.push(str_chars(columns[i].as_str()));
        i += 1;
    }
    assert(r@.map_values(|c: Vec<char>| c@) =~= strings_view(columns@));
    r
}

fn row_cells(row: &Vec<JsonValue>) -> (r: Vec<Vec<char>>)
    ensures
        r@.map_values(|c: Vec<char>| c@) == value_cells(row@),
{
    let mut r: Vec<Vec<char>> = Vec::new();
    let mut i: usize = 0;
    while i < row.len()
        invariant
            i <= row@.len(),
            r@.len() == i,
            forall|j: int| 0 <= j < i ==> (#[trigger] r@[j])@ == csv_text(row@[j]@),
        decreases row@.len() - i,
    {
        let text = format_csv_value(&row[i]);
        r.push(str_chars(text.as_str()));
        i += 1;
    }
    assert(r@.map_values(|c: Vec<char>| c@) =~= value_cells(row@));
    r
}

/// The CSV text of a result: its column names, then its rows.
pub fn csv_export(result: &QueryResult) -> (r: String)
    ensures
        r@ == csv_document(strings_view(result.columns@), result.rows@),
{
    let mut out: Vec<char> = Vec::new();
    let header = header_cells(&result.columns);
    push_line(&mut out, &header);
    let ghost head = out@;
    let mut i: usize = 0;
    while i < result.rows.len()
        invariant
            i <= result.rows@.len(),
            out@ == head + csv_rows(result.rows@.take(i as int)),
        decreases result.rows@.len() - i,
    {
        assert(result.rows@.take(i + 1).drop_last() =~= result.rows@.take(i as int));
        let cells = row_cells(&result.rows[i]);
        push_line(&mut out, &cells);
        i += 1;
    }
    assert(result.rows@.take(result.rows@.len() as int) =~= result.rows@);
    chars_to_string(out.as_slice())
}

} // verus!
