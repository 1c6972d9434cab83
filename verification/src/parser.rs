//! Catalog and query-result records read from the JSON output of `snow sql`.

use vstd::prelude::*;
use crate::json::{
    json_text_records, parse_json_document, JsonDocument, JsonRecord, JsonValue, JsonValueView, document_records, record_get,
    record_get_str, record_lookup, record_lookup_str, record_view,
};
use crate::text::str_to_string;

verus! {

/// A database of the catalog.
#[derive(Debug)]
pub struct Database {
    pub name: String,
}

/// A schema within a database.
#[derive(Debug)]
pub struct Schema {
    pub name: String,
    pub database: String,
}

/// A table or view within a schema, with the metadata the catalog reports.
#[derive(Debug)]
pub struct Table {
    pub name: String,
    pub database: String,
    pub schema: String,
    /// `TABLE` or `VIEW`.
    pub kind: String,
    pub row_count: Option<i64>,
    pub bytes: Option<i64>,
    pub created: Option<String>,
    pub clustering_key: Option<String>,
    pub auto_clustering: Option<bool>,
    pub comment: Option<String>,
    pub owner: Option<String>,
}

/// A column of a table.
#[derive(Debug)]
pub struct Column {
    pub name: String,
    pub data_type: String,
    pub nullable: bool,
}

/// The result of a query: column names and, for each row, one value per
/// column.
#[derive(Debug, Clone)]
pub struct QueryResult {
    pub columns: Vec<String>,
    pub rows: Vec<Vec<JsonValue>>,
    pub row_count: usize,
    pub elapsed_ms: u64,
}

/// The mathematical content of a [`Schema`].
pub struct SchemaView {
    pub name: Seq<char>,
    pub database: Seq<char>,
}

/// The mathematical content of a [`Table`].
pub struct TableView {
    pub name: Seq<char>,
    pub database: Seq<char>,
    pub schema: Seq<char>,
    pub kind: Seq<char>,
    pub row_count: Option<i64>,
    pub bytes: Option<i64>,
    pub created: Option<Seq<char>>,
    pub clustering_key: Option<Seq<char>>,
    pub auto_clustering: Option<bool>,
    pub comment: Option<Seq<char>>,
    pub owner: Option<Seq<char>>,
}

/// The mathematical content of a [`Column`].
pub struct ColumnView {
    pub name: Seq<char>,
    pub data_type: Seq<char>,
    pub nullable: bool,
}

/// The view of an optional string.
pub open spec fn opt_view(o: Option<String>) -> Option<Seq<char>> {
    match o {
        Some(s) => Some(s@),
        None => None,
    }
}

impl View for Database {
    type V = Seq<char>;

    open spec fn view(&self) -> Seq<char> {
        self.name@
    }
}

impl View for Schema {
    type V = SchemaView;

    open spec fn view(&self) -> SchemaView {
        SchemaView { name: self.name@, database: self.database@ }
    }
}

impl View for Table {
    type V = TableView;

    open spec fn view(&self) -> TableView {
        TableView {
            name: self.name@,
            database: self.database@,
            schema: self.schema@,
            kind: self.kind@,
            row_count: self.row_count,
            bytes: self.bytes,
            created: opt_view(self.created),
            clustering_key: opt_view(self.clustering_key),
            auto_clustering: self.auto_clustering,
            comment: opt_view(self.comment),
            owner: opt_view(self.owner),
        }
    }
}

impl View for Column {
    type V = ColumnView;

    open spec fn view(&self) -> ColumnView {
        ColumnView { name: self.name@, data_type: self.data_type@, nullable: self.nullable }
    }
}

/// Copies an optional string.
pub fn clone_opt_string(o: &Option<String>) -> (r: Option<String>)
    ensures
        opt_view(r) == opt_view(*o),
{
    match o {
        Some(s) => Some(s.clone()),
        None => None,
    }
}

impl Clone for Database {
    fn clone(&self) -> (r: Self)
        ensures
            r@ == self@,
    {
        Database { name: self.name.clone() }
    }
}

impl Clone for Schema {
    fn clone(&self) -> (r: Self)
        ensures
            r@ == self@,
    {
        Schema { name: self.name.clone(), database: self.database.clone() }
    }
}

impl Clone for Table {
    fn clone(&self) -> (r: Self)
        ensures
            r@ == self@,
    {
        Table {
            name: self.name.clone(),
            database: self.database.clone(),
            schema: self.schema.clone(),
            kind: self.kind.clone(),
            row_count: self.row_count,
            bytes: self.bytes,
            created: clone_opt_string(&self.created),
            clustering_key: clone_opt_string(&self.clustering_key),
            auto_clustering: self.auto_clustering,
            comment: clone_opt_string(&self.comment),
            owner: clone_opt_string(&self.owner),
        }
    }
}

impl Clone for Column {
    fn clone(&self) -> (r: Self)
        ensures
            r@ == self@,
    {
        Column {
            name: self.name.clone(),
            data_type: self.data_type.clone(),
            nullable: self.nullable,
        }
    }
}

/// Copies a list of columns.
pub fn clone_columns(v: &Vec<Column>) -> (r: Vec<Column>)
    ensures
        r@.map_values(|c: Column| c@) == v@.map_values(|c: Column| c@),
{
    let mut r: Vec<Column> = Vec::new();
    let mut i: usize = 0;
    while i < v.len()
        invariant
            i <= v@.len(),
            r@.len() == i,
            r@.map_values(|c: Column| c@) == v@.take(i as int).map_values(|c: Column| c@),
        decreases v@.len() - i,
    {
        let c = v[i].clone();
        let ghost prev = r@;
        r.push(c);
        assert(v@.take(i + 1) =~= v@.take(i as int).push(v@[i as int]));
        assert forall|j: int| 0 <= j < i implies r@[j]@ == v@[j]@ by {
            assert(prev.map_values(|c: Column| c@)[j] == v@.take(i as int).map_values(
                |c: Column| c@,
            )[j]);
        }
        assert(r@.map_values(|c: Column| c@) =~= v@.take(i + 1).map_values(|c: Column| c@));
        i += 1;
    }
    assert(v@.take(v@.len() as int) =~= v@);
    r
}

/// Copies a list of strings.
pub fn clone_strings(v: &Vec<String>) -> (r: Vec<String>)
    ensures
        r@.map_values(|s: String| s@) == v@.map_values(|s: String| s@),
{
    let mut r: Vec<String> = Vec::new();
    let mut i: usize = 0;
    while i < v.len()
        invariant
            i <= v@.len(),
            r@.len() == i,
            r@.map_values(|s: String| s@) == v@.take(i as int).map_values(|s: String| s@),
        decreases v@.len() - i,
    {
        let c = v[i].clone();
        let ghost prev = r@;
        r.push(c);
        assert(v@.take(i + 1) =~= v@.take(i as int).push(v@[i as int]));
        assert forall|j: int| 0 <= j < i implies r@[j]@ == v@[j]@ by {
            assert(prev.map_values(|s: String| s@)[j] == v@.take(i as int).map_values(
                |s: String| s@,
            )[j]);
        }
        assert(r@.map_values(|s: String| s@) =~= v@.take(i + 1).map_values(|s: String| s@));
        i += 1;
    }
    assert(v@.take(v@.len() as int) =~= v@);
    r
}

/// The record type of the parser's input, as seen by contracts.
pub type RecordView = Option<Seq<(Seq<char>, JsonValueView)>>;

/// The database named by a record of `SHOW DATABASES` output: its `name`
/// field, when that field is a string.
pub open spec fn database_of(rec: RecordView) -> Option<Seq<char>> {
    record_get_str(rec, "name"@)
}

/// The databases listed by `SHOW DATABASES` output: one for each record
/// with a string `name`, in order.
pub open spec fn spec_parse_databases(doc: JsonDocument) -> Seq<Seq<char>> {
    records_databases(document_records(doc))
}

/// The database names among the records.
pub open spec fn records_databases(recs: Seq<RecordView>) -> Seq<Seq<char>> {
    recs.filter_map(|r: RecordView| database_of(r))
}

/// Parse `JSON_EXT` output from `snow sql` for SHOW DATABASES.
pub fn databases_from_document(doc: &JsonDocument) -> (r: Vec<Database>)
    ensures
        r@.map_values(|d: Database| d@) == spec_parse_databases(*doc),
{
    let mut out: Vec<Database> = Vec::new();
    match doc {
        JsonDocument::Array(rows) => {
            let ghost recs = rows@.map_values(|r: JsonRecord| record_view(r));
            let mut i: usize = 0;
            while i < rows.len()
                invariant
                    i <= rows@.len(),
                    recs == rows@.map_values(|r: JsonRecord| record_view(r)),
                    out@.map_values(|d: Database| d@) == recs.take(i as int).filter_map(
                        |r: RecordView| database_of(r),
                    ),
                decreases rows@.len() - i,
            {
                assert(recs.take(i + 1).drop_last() =~= recs.take(i as int));
                match record_lookup_str(&rows[i], "name") {
                    Some(name) => {
                        out.push(Database { name: name.clone() });
                    },
                    None => {},
                }
                assert(out@.map_values(|d: Database| d@) =~= recs.take(i + 1).filter_map(
                    |r: RecordView| database_of(r),
                ));
                i += 1;
            }
            assert(recs.take(rows@.len() as int) =~= recs);
        },
        JsonDocument::Other => {
            assert(out@.map_values(|d: Database| d@) =~= spec_parse_databases(*doc));
        },
    }
    out
}

/// The column described by a record of `DESCRIBE TABLE` output: present
/// when the record has a string `name`; its type is the string `type` field
/// (`UNKNOWN` when absent) and it is nullable unless `null?` is a string
/// other than `Y`.
pub open spec fn described_column(rec: RecordView) -> Option<ColumnView> {
    match record_get_str(rec, "name"@) {
        Some(name) => Some(
            ColumnView {
                name: name,
                data_type: match record_get_str(rec, "type"@) {
                    Some(t) => t,
                    None => "UNKNOWN"@,
                },
                nullable: match record_get_str(rec, "null?"@) {
                    Some(n) => n == "Y"@,
                    None => true,
                },
            },
        ),
        None => None,
    }
}

/// The columns listed by `DESCRIBE TABLE` output, in order.
pub open spec fn spec_parse_columns(doc: JsonDocument) -> Seq<ColumnView> {
    records_columns(document_records(doc))
}

/// The described columns among the records.
pub open spec fn records_columns(recs: Seq<RecordView>) -> Seq<ColumnView> {
    recs.filter_map(|r: RecordView| described_column(r))
}

/// Parse `JSON_EXT` output from `snow sql` for DESCRIBE TABLE.
pub fn columns_from_document(doc: &JsonDocument) -> (r: Vec<Column>)
    ensures
        r@.map_values(|c: Column| c@) == spec_parse_columns(*doc),
{
    let mut out: Vec<Column> = Vec::new();
    match doc {
        JsonDocument::Array(rows) => {
            let ghost recs = rows@.map_values(|r: JsonRecord| record_view(r));
            let mut i: usize = 0;
            while i < rows.len()
                invariant
                    i <= rows@.len(),
                    recs == rows@.map_values(|r: JsonRecord| record_view(r)),
                    out@.map_values(|c: Column| c@) == recs.take(i as int).filter_map(
                        |r: RecordView| described_column(r),
                    ),
                decreases rows@.len() - i,
            {
                assert(recs.take(i + 1).drop_last() =~= recs.take(i as int));
                let row = &rows[i];
                match record_lookup_str(row, "name") {
                    Some(name) => {
                        let data_type = match record_lookup_str(row, "type") {
                            Some(t) => t.clone(),
                            None => str_to_string("UNKNOWN"),
                        };
                        let nullable = match record_lookup_str(row, "null?") {
                            Some(n) => crate::text::str_eq(n.as_str(), "Y"),
                            None => true,
                        };
                        out.push(Column { name: name.clone(), data_type, nullable });
                    },
                    None => {},
                }
                assert(out@.map_values(|c: Column| c@) =~= recs.take(i + 1).filter_map(
                    |r: RecordView| described_column(r),
                ));
                i += 1;
            }
            assert(recs.take(rows@.len() as int) =~= recs);
        },
        JsonDocument::Other => {
            assert(out@.map_values(|c: Column| c@) =~= spec_parse_columns(*doc));
        },
    }
    out
}

/// The column names of a query result: the field names of the first
/// record, when it is an object; none otherwise.
pub open spec fn result_columns(doc: JsonDocument) -> Seq<Seq<char>> {
    records_result_columns(document_records(doc))
}

/// The column names of a result: the field names of the first record, in
/// order.
pub open spec fn records_result_columns(recs: Seq<RecordView>) -> Seq<Seq<char>> {
    if recs.len() > 0 {
        match recs[0] {
            Some(fields) => fields.map_values(|f: (Seq<char>, JsonValueView)| f.0),
            None => Seq::empty(),
        }
    } else {
        Seq::empty()
    }
}

/// The value of a record in a column: the field of that name, or null.
pub open spec fn cell_value(rec: RecordView, col: Seq<char>) -> JsonValueView {
    match record_get(rec, col) {
        Some(v) => v,
        None => JsonValueView::Null,
    }
}

/// The view of a result row.
pub open spec fn row_view(row: Vec<JsonValue>) -> Seq<JsonValueView> {
    row@.map_values(|v: JsonValue| v@)
}

/// Parse generic query results from `JSON_EXT` format: the columns are the
/// field names of the first record, each record becomes a row holding its
/// value in each column (null where it has none), and `row_count` counts the
/// records.
pub fn query_result_from_document(doc: &JsonDocument, elapsed_ms: u64) -> (r: QueryResult)
    ensures
        r.columns@.map_values(|s: String| s@) == result_columns(*doc),
        r.rows@.len() == document_records(*doc).len(),
        forall|i: int|
            0 <= i < r.rows@.len() ==> #[trigger] row_view(r.rows@[i]) == result_columns(
                *doc,
            ).map_values(|c: Seq<char>| cell_value(document_records(*doc)[i], c)),
        r.row_count == r.rows@.len(),
        r.elapsed_ms == elapsed_ms,
{
    let mut columns: Vec<String> = Vec::new();
    let mut rows: Vec<Vec<JsonValue>> = Vec::new();
    match doc {
        JsonDocument::Array(recs) => {
            let ghost rv = recs@.map_values(|r: JsonRecord| record_view(r));
            if recs.len() > 0 {
                match &recs[0] {
                    JsonRecord::Object(fields) => {
                        let mut k: usize = 0;
                        while k < fields.len()
                            invariant
                                k <= fields@.len(),
                                columns@.len() == k,
                                columns@.map_values(|s: String| s@) == fields@.take(
                                    k as int,
                                ).map_values(|f: (String, JsonValue)| f.0@),
                            decreases fields@.len() - k,
                        {
                            let name = fields[k].0.clone();
                            let ghost prev = columns@;
                            columns.push(name);
                            assert forall|j: int| 0 <= j < k implies columns@[j]@ == fields@[j].0@ by {
                                assert(prev.map_values(|s: String| s@)[j] == fields@.take(
                                    k as int,
                                ).map_values(|f: (String, JsonValue)| f.0@)[j]);
                            }
                            assert(fields@.take(k + 1) =~= fields@.take(k as int).push(
                                fields@[k as int],
                            ));
                            assert(columns@.map_values(|s: String| s@) =~= fields@.take(
                                k + 1,
                            ).map_values(|f: (String, JsonValue)| f.0@));
                            k += 1;
                        }
                        assert(fields@.take(fields@.len() as int) =~= fields@);
                        assert(columns@.map_values(|s: String| s@) =~= result_columns(*doc));
                    },
                    JsonRecord::Other => {
                        assert(columns@.map_values(|s: String| s@) =~= result_columns(*doc));
                    },
                }
            } else {
                assert(columns@.map_values(|s: String| s@) =~= result_columns(*doc));
            }
            let ghost cols = columns@.map_values(|s: String| s@);
            let mut i: usize = 0;
            while i < recs.len()
                invariant
                    i <= recs@.len(),
                    rv == recs@.map_values(|r: JsonRecord| record_view(r)),
                    rv == document_records(*doc),
                    cols == columns@.map_values(|s: String| s@),
                    cols == result_columns(*doc),
                    rows@.len() == i,
                    forall|j: int|
                        0 <= j < i ==> #[trigger] row_view(rows@[j]) == cols.map_values(
                            |c: Seq<char>| cell_value(rv[j], c),
                        ),
                decreases recs@.len() - i,
            {
                let mut row: Vec<JsonValue> = Vec::new();
                let mut k: usize = 0;
                while k < columns.len()
                    invariant
                        k <= columns@.len(),
                        i < recs@.len(),
                        rv == recs@.map_values(|r: JsonRecord| record_view(r)),
                        cols == columns@.map_values(|s: String| s@),
                        row@.len() == k,
                        row_view(row) == cols.take(k as int).map_values(
                            |c: Seq<char>| cell_value(rv[i as int], c),
                        ),
                    decreases columns@.len() - k,
                {
                    let v = match record_lookup(&recs[i], columns[k].as_str()) {
                        Some(v) => v.clone(),
                        None => JsonValue::Null,
                    };
                    let ghost prev = row@;
                    row.push(v);
                    assert forall|j: int| 0 <= j < k implies row@[j]@ == cell_value(
                        rv[i as int],
                        cols[j],
                    ) by {
                        assert(prev.map_values(|v: JsonValue| v@)[j] == cols.take(
                            k as int,
                        ).map_values(|c: Seq<char>| cell_value(rv[i as int], c))[j]);
                    }
                    assert(row@[k as int]@ == cell_value(rv[i as int], cols[k as int]));
                    assert(cols.take(k + 1) =~= cols.take(k as int).push(cols[k as int]));
                    assert(row_view(row) =~= cols.take(k + 1).map_values(
                        |c: Seq<char>| cell_value(rv[i as int], c),
                    ));
                    k += 1;
                }
                assert(cols.take(cols.len() as int) =~= cols);
                rows.push(row);
                i += 1;
            }
        },
        JsonDocument::Other => {
            assert(columns@.map_values(|s: String| s@) =~= result_columns(*doc));
        },
    }
    let row_count = rows.len();
    QueryResult { columns, rows, row_count, elapsed_ms }
}

/// Columns grouped by their `SCHEMA.TABLE` key, one entry per key.
pub type ColumnsByTable = Vec<(String, Vec<Column>)>;

/// A string field of a catalog record, or `default` when it is missing or
/// not a string.
pub open spec fn str_field_or(rec: RecordView, key: Seq<char>, default: Seq<char>) -> Seq<char> {
    match record_get_str(rec, key) {
        Some(s) => s,
        None => default,
    }
}

/// The schema a catalog record belongs to (`SCHEMA_NAME`, empty when absent).
pub open spec fn row_schema(rec: RecordView) -> Seq<char> {
    str_field_or(rec, "SCHEMA_NAME"@, Seq::empty())
}

/// The table a catalog record belongs to (`TABLE_NAME`, empty when absent).
pub open spec fn row_table_name(rec: RecordView) -> Seq<char> {
    str_field_or(rec, "TABLE_NAME"@, Seq::empty())
}

/// The key under which a record's table is listed: its schema and table name.
#[verifier::opaque]
pub open spec fn table_key(rec: RecordView) -> (Seq<char>, Seq<char>) {
    (row_schema(rec), row_table_name(rec))
}

/// The key `SCHEMA.TABLE` under which a record's column is grouped.
#[verifier::opaque]
pub open spec fn group_key(rec: RecordView) -> Seq<char> {
    row_schema(rec) + "."@ + row_table_name(rec)
}

/// The column a catalog record describes: `COLUMN_NAME` (empty when absent),
/// `DATA_TYPE` (`UNKNOWN` when absent), nullable unless `IS_NULLABLE` is a
/// string other than `YES`.
#[verifier::opaque]
pub open spec fn row_column(rec: RecordView) -> ColumnView {
    ColumnView {
        name: str_field_or(rec, "COLUMN_NAME"@, Seq::empty()),
        data_type: str_field_or(rec, "DATA_TYPE"@, "UNKNOWN"@),
        nullable: match record_get_str(rec, "IS_NULLABLE"@) {
            Some(s) => s == "YES"@,
            None => true,
        },
    }
}

/// A count field: an integer number, or a string holding one.
pub open spec fn json_count(v: Option<JsonValueView>) -> Option<i64> {
    match v {
        Some(JsonValueView::Number(_, n)) => n,
        Some(JsonValueView::String(s)) => crate::text::spec_parse_i64(s),
        _ => None,
    }
}

/// A flag field: a boolean, or a string that reads `yes` or `true` in any
/// case, or exactly `ON` (any other string reads as false).
pub open spec fn json_flag(v: Option<JsonValueView>) -> Option<bool> {
    match v {
        Some(JsonValueView::Bool(b)) => Some(b),
        Some(JsonValueView::String(s)) => Some(
            crate::text::eq_ignore_ascii_case(s, "yes"@) || crate::text::eq_ignore_ascii_case(
                s,
                "true"@,
            ) || s == "ON"@,
        ),
        _ => None,
    }
}

/// A text field that is left out when it is empty.
pub open spec fn nonempty(o: Option<Seq<char>>) -> Option<Seq<char>> {
    match o {
        Some(s) => if s.len() > 0 {
            Some(s)
        } else {
            None
        },
        None => None,
    }
}

/// The kind of a record's table: `VIEW` when `TABLE_TYPE` (default `TABLE`)
/// contains `VIEW`, `TABLE` otherwise.
pub open spec fn row_kind(rec: RecordView) -> Seq<char> {
    if crate::text::seq_contains(str_field_or(rec, "TABLE_TYPE"@, "TABLE"@), "VIEW"@) {
        "VIEW"@
    } else {
        "TABLE"@
    }
}

/// The table described by a catalog record of database `db`.
#[verifier::opaque]
pub open spec fn row_table(rec: RecordView, db: Seq<char>) -> TableView {
    TableView {
        name: row_table_name(rec),
        database: db,
        schema: row_schema(rec),
        kind: row_kind(rec),
        row_count: json_count(record_get(rec, "ROW_COUNT"@)),
        bytes: json_count(record_get(rec, "BYTES"@)),
        created: record_get_str(rec, "CREATED"@),
        clustering_key: nonempty(record_get_str(rec, "CLUSTERING_KEY"@)),
        auto_clustering: json_flag(record_get(rec, "AUTO_CLUSTERING_ON"@)),
        comment: nonempty(record_get_str(rec, "COMMENT"@)),
        owner: nonempty(record_get_str(rec, "TABLE_OWNER"@)),
    }
}

/// The order of table keys: by schema, then by table name.
pub open spec fn key_lt(a: (Seq<char>, Seq<char>), b: (Seq<char>, Seq<char>)) -> bool {
    crate::text::seq_lt(a.0, b.0) || (a.0 == b.0 && crate::text::seq_lt(a.1, b.1))
}

/// The key of a table.
pub open spec fn key_of(t: TableView) -> (Seq<char>, Seq<char>) {
    (t.schema, t.name)
}

/// Record `k` is the first of `recs` with its table key.
pub open spec fn first_with_key(recs: Seq<RecordView>, k: int) -> bool {
    0 <= k < recs.len() && forall|j: int| 0 <= j < k ==> table_key(recs[j]) != table_key(recs[k])
}

/// The columns of the records whose group key is `key`, in order.
pub open spec fn columns_with_key(recs: Seq<RecordView>, key: Seq<char>) -> Seq<ColumnView>
    decreases recs.len(),
{
    if recs.len() == 0 {
        Seq::empty()
    } else {
        let rest = columns_with_key(recs.drop_last(), key);
        if group_key(recs.last()) == key {
            rest.push(row_column(recs.last()))
        } else {
            rest
        }
    }
}

proof fn lemma_key_lt_facts(a: (Seq<char>, Seq<char>), b: (Seq<char>, Seq<char>), c: (
    Seq<char>,
    Seq<char>,
))
    ensures
        !key_lt(a, a),
        a != b ==> key_lt(a, b) || key_lt(b, a),
        !(key_lt(a, b) && key_lt(b, a)),
        key_lt(a, b) && key_lt(b, c) ==> key_lt(a, c),
{
    crate::text::lemma_seq_lt_irreflexive(a.0);
    crate::text::lemma_seq_lt_irreflexive(a.1);
    crate::text::lemma_seq_lt_total(a.0, b.0);
    crate::text::lemma_seq_lt_total(a.1, b.1);
    if key_lt(a, b) && key_lt(b, c) {
        if crate::text::seq_lt(a.0, b.0) && crate::text::seq_lt(b.0, c.0) {
            crate::text::lemma_seq_lt_transitive(a.0, b.0, c.0);
        }
        if crate::text::seq_lt(a.1, b.1) && crate::text::seq_lt(b.1, c.1) {
            crate::text::lemma_seq_lt_transitive(a.1, b.1, c.1);
        }
    }
}

/// A string field of a record, or `default`.
fn field_or(rec: &JsonRecord, key: &str, default: &str) -> (r: String)
    ensures
        r@ == str_field_or(record_view(*rec), key@, default@),
{
    match record_lookup_str(rec, key) {
        Some(s) => s.clone(),
        None => str_to_string(default),
    }
}

/// The table key of a record, as character vectors.
fn record_key(rec: &JsonRecord) -> (r: (Vec<char>, Vec<char>))
    ensures
        (r.0@, r.1@) == table_key(record_view(*rec)),
{
    reveal(table_key);
    let s = field_or(rec, "SCHEMA_NAME", "");
    let t = field_or(rec, "TABLE_NAME", "");
    proof {
        reveal_strlit("");
        assert(""@ =~= Seq::<char>::empty());
    }
    (crate::text::str_chars(s.as_str()), crate::text::str_chars(t.as_str()))
}

/// Compares two table keys.
fn compare_keys(a: &(Vec<char>, Vec<char>), b: &(Vec<char>, Vec<char>)) -> (r: crate::text::Cmp3)
    ensures
        (r is Less) == key_lt((a.0@, a.1@), (b.0@, b.1@)),
        (r is Equal) == ((a.0@, a.1@) == (b.0@, b.1@)),
        (r is Greater) == key_lt((b.0@, b.1@), (a.0@, a.1@)),
{
    proof {
        crate::text::lemma_seq_lt_irreflexive(a.0@);
        crate::text::lemma_seq_lt_irreflexive(a.1@);
        crate::text::lemma_seq_lt_total(a.0@, b.0@);
        crate::text::lemma_seq_lt_total(a.1@, b.1@);
    }
    match crate::text::compare_chars(a.0.as_slice(), b.0.as_slice()) {
        crate::text::Cmp3::Equal => crate::text::compare_chars(a.1.as_slice(), b.1.as_slice()),
        other => other,
    }
}

/// The column a catalog record describes.
fn record_column(rec: &JsonRecord) -> (r: Column)
    ensures
        r@ == row_column(record_view(*rec)),
{
    reveal(row_column);
    let name = field_or(rec, "COLUMN_NAME", "");
    let data_type = field_or(rec, "DATA_TYPE", "UNKNOWN");
    proof {
        reveal_strlit("");
        assert(""@ =~= Seq::<char>::empty());
    }
    let nullable = match record_lookup_str(rec, "IS_NULLABLE") {
        Some(s) => crate::text::str_eq(s.as_str(), "YES"),
        None => true,
    };
    Column { name, data_type, nullable }
}

/// A count field of a record.
fn count_field(rec: &JsonRecord, key: &str) -> (r: Option<i64>)
    ensures
        r == json_count(record_get(record_view(*rec), key@)),
{
    match record_lookup(rec, key) {
        Some(JsonValue::Number(n)) => n.as_i64,
        Some(JsonValue::String(s)) => crate::text::parse_i64(s.as_str()),
        _ => None,
    }
}

/// A flag field of a record.
fn flag_field(rec: &JsonRecord, key: &str) -> (r: Option<bool>)
    ensures
        r == json_flag(record_get(record_view(*rec), key@)),
{
    match record_lookup(rec, key) {
        Some(JsonValue::Bool(b)) => Some(*b),
        Some(JsonValue::String(s)) => Some(
            crate::text::str_eq_ignore_ascii_case(s.as_str(), "yes")
                || crate::text::str_eq_ignore_ascii_case(s.as_str(), "true")
                || crate::text::str_eq(s.as_str(), "ON"),
        ),
        _ => None,
    }
}

/// A text field of a record, left out when empty.
fn nonempty_field(rec: &JsonRecord, key: &str) -> (r: Option<String>)
    ensures
        opt_view(r) == nonempty(record_get_str(record_view(*rec), key@)),
{
    match record_lookup_str(rec, key) {
        Some(s) => {
            if s.as_str().unicode_len() > 0 {
                Some(s.clone())
            } else {
                None
            }
        },
        None => None,
    }
}

/// The table a catalog record of database `db` describes.
fn record_table(rec: &JsonRecord, db: &str) -> (r: Table)
    ensures
        r@ == row_table(record_view(*rec), db@),
{
    reveal(row_table);
    let name = field_or(rec, "TABLE_NAME", "");
    let schema = field_or(rec, "SCHEMA_NAME", "");
    let table_type = field_or(rec, "TABLE_TYPE", "TABLE");
    proof {
        reveal_strlit("");
        assert(""@ =~= Seq::<char>::empty());
    }
    let kind = if crate::text::str_contains(table_type.as_str(), "VIEW") {
        str_to_string("VIEW")
    } else {
        str_to_string("TABLE")
    };
    let created = match record_lookup_str(rec, "CREATED") {
        Some(s) => Some(s.clone()),
        None => None,
    };
    Table {
        name,
        database: str_to_string(db),
        schema,
        kind,
        row_count: count_field(rec, "ROW_COUNT"),
        bytes: count_field(rec, "BYTES"),
        created,
        clustering_key: nonempty_field(rec, "CLUSTERING_KEY"),
        auto_clustering: flag_field(rec, "AUTO_CLUSTERING_ON"),
        comment: nonempty_field(rec, "COMMENT"),
        owner: nonempty_field(rec, "TABLE_OWNER"),
    }
}

/// The records of a document's array.
pub open spec fn records_of(rows: Seq<JsonRecord>) -> Seq<RecordView> {
    rows.map_values(|r: JsonRecord| record_view(r))
}

/// The keys are in strictly increasing order.
pub open spec fn keys_sorted(keys: Seq<(Seq<char>, Seq<char>)>) -> bool {
    forall|a: int, b: int| 0 <= a < b < keys.len() ==> key_lt(#[trigger] keys[a], #[trigger] keys[b])
}

/// The view of a list of table keys.
pub open spec fn keys_view(keys: Seq<(Vec<char>, Vec<char>)>) -> Seq<(Seq<char>, Seq<char>)> {
    keys.map_values(|k: (Vec<char>, Vec<char>)| (k.0@, k.1@))
}

/// The view of a list of tables.
pub open spec fn tables_view(ts: Seq<Table>) -> Seq<TableView> {
    ts.map_values(|t: Table| t@)
}

/// The keys of a list of tables.
pub open spec fn table_keys(tv: Seq<TableView>) -> Seq<(Seq<char>, Seq<char>)> {
    tv.map_values(|t: TableView| key_of(t))
}

/// Table `t` is described by the first record (among the first `n`) with
/// its key.
pub open spec fn described_by_first(recs: Seq<RecordView>, n: int, db: Seq<char>, t: TableView) -> bool {
    exists|k: int| #![trigger first_with_key(recs, k)]
        0 <= k < n && first_with_key(recs, k) && t == row_table(recs[k], db)
}

/// Some table of `tv` has key `key`.
pub open spec fn has_key(tv: Seq<TableView>, key: (Seq<char>, Seq<char>)) -> bool {
    exists|a: int| #![trigger tv[a]] 0 <= a < tv.len() && key_of(tv[a]) == key
}

/// The tables of `recs` listed in `tv` are exactly one per distinct key of
/// the first `n` records, in key order, each described by the first record
/// with its key.
#[verifier::opaque]
pub open spec fn tables_ok(
    recs: Seq<RecordView>,
    n: int,
    db: Seq<char>,
    tv: Seq<TableView>,
) -> bool {
    &&& keys_sorted(table_keys(tv))
    &&& forall|a: int| 0 <= a < tv.len() ==> described_by_first(recs, n, db, #[trigger] tv[a])
    &&& forall|k: int| 0 <= k < n ==> has_key(tv, #[trigger] table_key(recs[k]))
}

proof fn lemma_row_table_key(rec: RecordView, db: Seq<char>)
    ensures
        key_of(row_table(rec, db)) == table_key(rec),
{
    reveal(row_table);
    reveal(table_key);
}

/// Finds where key `x` belongs in sorted `keys`: the first position whose
/// key does not come before `x`, and whether the key there is `x`.
fn find_key_position(keys: &Vec<(Vec<char>, Vec<char>)>, x: &(Vec<char>, Vec<char>)) -> (r: (
    usize,
    bool,
))
    requires
        keys_sorted(keys_view(keys@)),
    ensures
        r.0 <= keys@.len(),
        forall|a: int| 0 <= a < r.0 ==> key_lt(#[trigger] keys_view(keys@)[a], (x.0@, x.1@)),
        forall|a: int|
            r.0 <= a < keys@.len() ==> !key_lt(#[trigger] keys_view(keys@)[a], (x.0@, x.1@)),
        r.1 == (r.0 < keys@.len() && keys_view(keys@)[r.0 as int] == (x.0@, x.1@)),
{
    let ghost kv = keys_view(keys@);
    let ghost xv = (x.0@, x.1@);
    let mut lo: usize = 0;
    let mut hi: usize = keys.len();
    while lo < hi
        invariant
            lo <= hi <= keys@.len(),
            kv == keys_view(keys@),
            keys_sorted(kv),
            xv == (x.0@, x.1@),
            forall|a: int| 0 <= a < lo ==> key_lt(#[trigger] kv[a], xv),
            forall|a: int| hi <= a < kv.len() ==> !key_lt(#[trigger] kv[a], xv),
        decreases hi - lo,
    {
        let mid = lo + (hi - lo) / 2;
        match compare_keys(&keys[mid], x) {
            crate::text::Cmp3::Less => {
                assert forall|a: int| 0 <= a < mid + 1 implies key_lt(#[trigger] kv[a], xv) by {
                    if a < mid {
                        lemma_key_lt_facts(kv[a], kv[mid as int], xv);
                    }
                }
                lo = mid + 1;
            },
            _ => {
                assert forall|a: int| mid <= a < kv.len() implies !key_lt(#[trigger] kv[a], xv) by {
                    lemma_key_lt_facts(kv[mid as int], kv[a], xv);
                    lemma_key_lt_facts(xv, kv[mid as int], kv[a]);
                    lemma_key_lt_facts(kv[a], xv, kv[mid as int]);
                }
                hi = mid;
            },
        }
    }
    let found = lo < keys.len() && match compare_keys(&keys[lo], x) {
        crate::text::Cmp3::Equal => true,
        _ => false,
    };
    (lo, found)
}

proof fn lemma_tables_found(recs: Seq<RecordView>, i: int, db: Seq<char>, tv: Seq<TableView>, p: int)
    requires
        0 <= i < recs.len(),
        tables_ok(recs, i, db, tv),
        0 <= p < tv.len(),
        key_of(tv[p]) == table_key(recs[i]),
    ensures
        tables_ok(recs, i + 1, db, tv),
{
    reveal(tables_ok);
    assert(has_key(tv, table_key(recs[i])));
    assert forall|a: int| 0 <= a < tv.len() implies described_by_first(recs, i + 1, db, #[trigger] tv[a]) by {
        assert(described_by_first(recs, i, db, tv[a]));
        let k = choose|k: int| #![trigger first_with_key(recs, k)]
            0 <= k < i && first_with_key(recs, k) && tv[a] == row_table(recs[k], db);
        assert(first_with_key(recs, k));
    }
}

proof fn lemma_keys_sorted_insert(kv: Seq<(Seq<char>, Seq<char>)>, p: int, xv: (Seq<char>, Seq<char>))
    requires
        keys_sorted(kv),
        0 <= p <= kv.len(),
        forall|a: int| 0 <= a < p ==> key_lt(#[trigger] kv[a], xv),
        forall|a: int| p <= a < kv.len() ==> !key_lt(#[trigger] kv[a], xv),
        p < kv.len() ==> kv[p] != xv,
    ensures
        keys_sorted(kv.insert(p, xv)),
{
    let nkv = kv.insert(p, xv);
    assert forall|a: int, b: int| 0 <= a < b < nkv.len() implies key_lt(
        #[trigger] nkv[a],
        #[trigger] nkv[b],
    ) by {
        if b < p {
            assert(key_lt(kv[a], kv[b]));
        } else if b == p {
        } else if a < p {
            lemma_key_lt_facts(xv, kv[p], kv[p]);
            lemma_key_lt_facts(kv[p], xv, xv);
            if b - 1 > p {
                assert(key_lt(kv[p], kv[b - 1]));
                lemma_key_lt_facts(xv, kv[p], kv[b - 1]);
            }
            lemma_key_lt_facts(kv[a], xv, kv[b - 1]);
        } else if a == p {
            lemma_key_lt_facts(xv, kv[p], kv[p]);
            lemma_key_lt_facts(kv[p], xv, xv);
            if b - 1 > p {
                assert(key_lt(kv[p], kv[b - 1]));
                lemma_key_lt_facts(xv, kv[p], kv[b - 1]);
            }
        } else {
            assert(key_lt(kv[a - 1], kv[b - 1]));
        }
    }
}

proof fn lemma_tables_sorted(recs: Seq<RecordView>, n: int, db: Seq<char>, tv: Seq<TableView>)
    requires
        tables_ok(recs, n, db, tv),
    ensures
        keys_sorted(table_keys(tv)),
{
    reveal(tables_ok);
}

proof fn lemma_new_key_first(
    recs: Seq<RecordView>,
    i: int,
    tv: Seq<TableView>,
    p: int,
)
    requires
        0 <= i < recs.len(),
        keys_sorted(table_keys(tv)),
        forall|k: int| 0 <= k < i ==> has_key(tv, #[trigger] table_key(recs[k])),
        0 <= p <= tv.len(),
        forall|a: int| 0 <= a < p ==> key_lt(#[trigger] table_keys(tv)[a], table_key(recs[i])),
        forall|a: int|
            p <= a < tv.len() ==> !key_lt(#[trigger] table_keys(tv)[a], table_key(recs[i])),
        p < tv.len() ==> table_keys(tv)[p] != table_key(recs[i]),
    ensures
        first_with_key(recs, i),
{
    let kv = table_keys(tv);
    let xv = table_key(recs[i]);
    assert forall|a: int| 0 <= a < kv.len() implies kv[a] != xv by {
        if a < p {
            lemma_key_lt_facts(kv[a], xv, xv);
        } else if a > p {
            assert(key_lt(kv[p], kv[a]));
        }
    }
    assert forall|j: int| 0 <= j < i implies table_key(recs[j]) != table_key(recs[i]) by {
        assert(has_key(tv, table_key(recs[j])));
        let a = choose|a: int| #![trigger tv[a]] 0 <= a < tv.len() && key_of(tv[a]) == table_key(recs[j]);
        assert(kv[a] == key_of(tv[a]));
    }
}

proof fn lemma_described_insert(
    recs: Seq<RecordView>,
    i: int,
    db: Seq<char>,
    tv: Seq<TableView>,
    p: int,
)
    requires
        0 <= i < recs.len(),
        first_with_key(recs, i),
        0 <= p <= tv.len(),
        forall|a: int| 0 <= a < tv.len() ==> described_by_first(recs, i, db, #[trigger] tv[a]),
    ensures
        forall|a: int| 0 <= a < tv.len() + 1 ==> described_by_first(recs, i + 1, db, #[trigger] tv.insert(p, row_table(recs[i], db))[a]),
{
    let ntv = tv.insert(p, row_table(recs[i], db));
    assert forall|a: int| 0 <= a < ntv.len() implies described_by_first(recs, i + 1, db, #[trigger] ntv[a]) by {
        if a == p {
            assert(ntv[a] == row_table(recs[i], db));
        } else {
            let b = if a < p { a } else { a - 1 };
            assert(ntv[a] == tv[b]);
            assert(described_by_first(recs, i, db, tv[b]));
            let k = choose|k: int| #![trigger first_with_key(recs, k)]
                0 <= k < i && first_with_key(recs, k) && tv[b] == row_table(recs[k], db);
            assert(first_with_key(recs, k));
        }
    }
}

proof fn lemma_has_key_insert(
    recs: Seq<RecordView>,
    i: int,
    db: Seq<char>,
    tv: Seq<TableView>,
    p: int,
)
    requires
        0 <= i < recs.len(),
        0 <= p <= tv.len(),
        forall|k: int| 0 <= k < i ==> has_key(tv, #[trigger] table_key(recs[k])),
    ensures
        forall|k: int| 0 <= k < i + 1 ==> has_key(tv.insert(p, row_table(recs[i], db)), #[trigger] table_key(recs[k])),
{
    let ntv = tv.insert(p, row_table(recs[i], db));
    lemma_row_table_key(recs[i], db);
    assert forall|k: int| 0 <= k < i + 1 implies has_key(ntv, #[trigger] table_key(recs[k])) by {
        if k == i {
            assert(key_of(ntv[p]) == table_key(recs[k]));
        } else {
            assert(has_key(tv, table_key(recs[k])));
            let a = choose|a: int| #![trigger tv[a]] 0 <= a < tv.len() && key_of(tv[a]) == table_key(recs[k]);
            if a < p {
                assert(ntv[a] == tv[a]);
            } else {
                assert(ntv[a + 1] == tv[a]);
            }
        }
    }
}

proof fn lemma_tables_ok_elim(recs: Seq<RecordView>, n: int, db: Seq<char>, tv: Seq<TableView>)
    requires
        tables_ok(recs, n, db, tv),
    ensures
        keys_sorted(table_keys(tv)),
        forall|a: int| 0 <= a < tv.len() ==> described_by_first(recs, n, db, #[trigger] tv[a]),
        forall|k: int| 0 <= k < n ==> has_key(tv, #[trigger] table_key(recs[k])),
{
    reveal(tables_ok);
}

proof fn lemma_tables_ok_intro(recs: Seq<RecordView>, n: int, db: Seq<char>, tv: Seq<TableView>)
    requires
        keys_sorted(table_keys(tv)),
        forall|a: int| 0 <= a < tv.len() ==> described_by_first(recs, n, db, #[trigger] tv[a]),
        forall|k: int| 0 <= k < n ==> has_key(tv, #[trigger] table_key(recs[k])),
    ensures
        tables_ok(recs, n, db, tv),
{
    reveal(tables_ok);
}

#[verifier::spinoff_prover]
#[verifier::rlimit(40)]
proof fn lemma_tables_insert(
    recs: Seq<RecordView>,
    i: int,
    db: Seq<char>,
    tv: Seq<TableView>,
    p: int,
)
    requires
        0 <= i < recs.len(),
        tables_ok(recs, i, db, tv),
        0 <= p <= tv.len(),
        forall|a: int| 0 <= a < p ==> key_lt(#[trigger] table_keys(tv)[a], table_key(recs[i])),
        forall|a: int|
            p <= a < tv.len() ==> !key_lt(#[trigger] table_keys(tv)[a], table_key(recs[i])),
        p < tv.len() ==> table_keys(tv)[p] != table_key(recs[i]),
    ensures
        tables_ok(recs, i + 1, db, tv.insert(p, row_table(recs[i], db))),
{
    lemma_tables_ok_elim(recs, i, db, tv);
    let nt = row_table(recs[i], db);
    let ntv = tv.insert(p, nt);
    lemma_row_table_key(recs[i], db);
    lemma_new_key_first(recs, i, tv, p);
    lemma_described_insert(recs, i, db, tv, p);
    lemma_has_key_insert(recs, i, db, tv, p);
    assert(table_keys(ntv) =~= table_keys(tv).insert(p, table_key(recs[i])));
    lemma_keys_sorted_insert(table_keys(tv), p, table_key(recs[i]));
    lemma_tables_ok_intro(recs, i + 1, db, ntv);
}

/// Lists the tables that catalog records describe: one per distinct
/// (schema, table) key, sorted by key, each described by the first record
/// with that key.
fn collect_tables(rows: &Vec<JsonRecord>, db: &str) -> (r: Vec<Table>)
    ensures
        tables_ok(records_of(rows@), rows@.len() as int, db@, tables_view(r@)),
{
    let ghost recs = records_of(rows@);
    let mut tables: Vec<Table> = Vec::new();
    let mut keys: Vec<(Vec<char>, Vec<char>)> = Vec::new();
    let mut i: usize = 0;
    assert(keys_view(keys@) =~= table_keys(tables_view(tables@)));
    proof {
        reveal(tables_ok);
    }
    while i < rows.len()
        invariant
            i <= rows@.len(),
            recs == records_of(rows@),
            keys@.len() == tables@.len(),
            keys_view(keys@) == table_keys(tables_view(tables@)),
            tables_ok(recs, i as int, db@, tables_view(tables@)),
        decreases rows@.len() - i,
    {
        let ghost tv = tables_view(tables@);
        let x = record_key(&rows[i]);
        assert(recs[i as int] == record_view(rows@[i as int]));
        proof {
            lemma_tables_sorted(recs, i as int, db@, tv);
        }
        let (p, found) = find_key_position(&keys, &x);
        if found {
            proof {
                assert(table_keys(tv)[p as int] == key_of(tv[p as int]));
                lemma_tables_found(recs, i as int, db@, tv, p as int);
            }
        } else {
            let t = record_table(&rows[i], db);
            proof {
                lemma_tables_insert(recs, i as int, db@, tv, p as int);
            }
            let ghost kv = keys_view(keys@);
            tables.insert(p, t);
            keys.insert(p, x);
            proof {
                lemma_row_table_key(recs[i as int], db@);
                assert(keys_view(keys@) =~= kv.insert(p as int, (x.0@, x.1@)));
                assert(table_keys(tv.insert(p as int, row_table(recs[i as int], db@))) =~= table_keys(tv).insert(p as int, key_of(row_table(recs[i as int], db@))));
                assert(tables_view(tables@) =~= tv.insert(p as int, row_table(recs[i as int], db@)));
                assert(keys_view(keys@) =~= table_keys(tables_view(tables@)));
            }
        }
        i += 1;
    }
    tables
}

/// The schema component of a record's table key is its schema.
proof fn lemma_table_key_parts(rec: RecordView, db: Seq<char>)
    ensures
        table_key(rec).0 == row_schema(rec),
        row_table(rec, db).schema == row_schema(rec),
        row_table(rec, db).database == db,
{
    reveal(table_key);
    reveal(row_table);
}

/// Some table among the first `n` of `tv` lies in schema `name`.
pub open spec fn schema_in_tables(tv: Seq<TableView>, n: int, name: Seq<char>) -> bool {
    exists|b: int| #![trigger tv[b]] 0 <= b < n && tv[b].schema == name
}

/// Some schema of `sv` is named `name`.
pub open spec fn schema_listed(sv: Seq<SchemaView>, name: Seq<char>) -> bool {
    exists|x: int| #![trigger sv[x]] 0 <= x < sv.len() && sv[x].name == name
}

/// The schema names are in strictly increasing order.
pub open spec fn schemas_sorted(sv: Seq<SchemaView>) -> bool {
    forall|x: int, y: int| 0 <= x < y < sv.len() ==> crate::text::seq_lt(#[trigger] sv[x].name, #[trigger] sv[y].name)
}

/// The schemas of sorted tables: each schema that some table lies in, once,
/// in order.
fn collect_schemas(tables: &Vec<Table>, db: &str) -> (r: Vec<Schema>)
    requires
        keys_sorted(table_keys(tables_view(tables@))),
    ensures
        schemas_sorted(r@.map_values(|s: Schema| s@)),
        forall|x: int| 0 <= x < r@.len() ==> (#[trigger] r@[x]@).database == db@
            && schema_in_tables(tables_view(tables@), tables@.len() as int, r@[x]@.name),
        forall|b: int| 0 <= b < tables@.len() ==> schema_listed(r@.map_values(|s: Schema| s@), #[trigger] tables_view(tables@)[b].schema),
{
    let ghost tv = tables_view(tables@);
    let mut out: Vec<Schema> = Vec::new();
    let mut a: usize = 0;
    while a < tables.len()
        invariant
            a <= tables@.len(),
            tv == tables_view(tables@),
            keys_sorted(table_keys(tv)),
            schemas_sorted(out@.map_values(|s: Schema| s@)),
            a > 0 ==> out@.len() > 0 && out@.last()@.name == tv[a - 1].schema,
            a == 0 ==> out@.len() == 0,
            forall|x: int| 0 <= x < out@.len() ==> (#[trigger] out@[x]@).database == db@
                && schema_in_tables(tv, a as int, out@[x]@.name),
            forall|b: int| 0 <= b < a ==> schema_listed(out@.map_values(|s: Schema| s@), #[trigger] tv[b].schema),
        decreases tables@.len() - a,
    {
        let ghost sv = out@.map_values(|s: Schema| s@);
        let same = a > 0 && crate::text::str_eq(tables[a].schema.as_str(), tables[a - 1].schema.as_str());
        assert(tv[a as int].schema == tables@[a as int].schema@);
        if !same {
            let ghost prev_out = out@;
            out.push(Schema { name: tables[a].schema.clone(), database: str_to_string(db) });
            proof {
                let nsv = out@.map_values(|s: Schema| s@);
                assert(nsv =~= sv.push(SchemaView { name: tv[a as int].schema, database: db@ }));
                if a > 0 {
                    assert(table_keys(tv)[a - 1] == key_of(tv[a - 1]));
                    assert(table_keys(tv)[a as int] == key_of(tv[a as int]));
                    assert(key_lt(table_keys(tv)[a - 1], table_keys(tv)[a as int]));
                    assert(crate::text::seq_lt(tv[a - 1].schema, tv[a as int].schema));
                    assert forall|x: int, y: int| 0 <= x < y < nsv.len() implies crate::text::seq_lt(#[trigger] nsv[x].name, #[trigger] nsv[y].name) by {
                        if y == nsv.len() - 1 {
                            if x < sv.len() - 1 {
                                assert(crate::text::seq_lt(sv[x].name, sv[sv.len() - 1].name));
                                crate::text::lemma_seq_lt_transitive(sv[x].name, sv[sv.len() - 1].name, tv[a as int].schema);
                            }
                        } else {
                            assert(nsv[x] == sv[x] && nsv[y] == sv[y]);
                        }
                    }
                } else {
                    assert(schemas_sorted(nsv));
                }
                assert forall|x: int| 0 <= x < out@.len() implies (#[trigger] out@[x]@).database == db@
                    && schema_in_tables(tv, a + 1, out@[x]@.name) by {
                    if x < prev_out.len() {
                        assert(out@[x] == prev_out[x]);
                        assert(schema_in_tables(tv, a as int, prev_out[x]@.name));
                        let b = choose|b: int| #![trigger tv[b]] 0 <= b < a && tv[b].schema == prev_out[x]@.name;
                        assert(tv[b].schema == out@[x]@.name);
                    } else {
                        assert(tv[a as int].schema == out@[x]@.name);
                    }
                }
                assert forall|b: int| 0 <= b < a + 1 implies schema_listed(nsv, #[trigger] tv[b].schema) by {
                    if b < a {
                        assert(schema_listed(sv, tv[b].schema));
                        let x = choose|x: int| #![trigger sv[x]] 0 <= x < sv.len() && sv[x].name == tv[b].schema;
                        assert(nsv[x] == sv[x]);
                    } else {
                        assert(nsv[sv.len() as int].name == tv[b].schema);
                    }
                }
            }
        } else {
            proof {
                assert forall|x: int| 0 <= x < out@.len() implies (#[trigger] out@[x]@).database == db@
                    && schema_in_tables(tv, a + 1, out@[x]@.name) by {
                    assert(schema_in_tables(tv, a as int, out@[x]@.name));
                    let b = choose|b: int| #![trigger tv[b]] 0 <= b < a && tv[b].schema == out@[x]@.name;
                }
                assert forall|b: int| 0 <= b < a + 1 implies schema_listed(sv, #[trigger] tv[b].schema) by {
                    if b == a {
                        assert(sv[sv.len() - 1].name == tv[b].schema);
                    }
                }
            }
        }
        a += 1;
    }
    out
}


/// A record with group key `key` lies among the first `n` records.
pub open spec fn key_in_records(recs: Seq<RecordView>, n: int, key: Seq<char>) -> bool {
    exists|k: int| #![trigger recs[k]] 0 <= k < n && group_key(recs[k]) == key
}

/// Some entry of the groups has key `key`.
pub open spec fn key_grouped(gv: Seq<(Seq<char>, Seq<ColumnView>)>, key: Seq<char>) -> bool {
    exists|a: int| #![trigger gv[a]] 0 <= a < gv.len() && gv[a].0 == key
}

/// The view of grouped columns.
pub open spec fn groups_view(g: Seq<(String, Vec<Column>)>) -> Seq<(Seq<char>, Seq<ColumnView>)> {
    g.map_values(|e: (String, Vec<Column>)| (e.0@, e.1@.map_values(|c: Column| c@)))
}

/// The groups hold the columns of the first `n` records: one entry per
/// distinct group key among them, each with the columns of the records of
/// that key, in record order.
pub open spec fn groups_ok(recs: Seq<RecordView>, n: int, gv: Seq<(Seq<char>, Seq<ColumnView>)>) -> bool {
    &&& forall|a: int, b: int| 0 <= a < b < gv.len() ==> #[trigger] gv[a].0 != #[trigger] gv[b].0
    &&& forall|a: int| 0 <= a < gv.len() ==> (#[trigger] gv[a]).1 == columns_with_key(recs.take(n), gv[a].0)
    &&& forall|a: int| 0 <= a < gv.len() ==> key_in_records(recs, n, (#[trigger] gv[a]).0)
    &&& forall|k: int| 0 <= k < n ==> key_grouped(gv, #[trigger] group_key(recs[k]))
}

proof fn lemma_columns_without_key(recs: Seq<RecordView>, key: Seq<char>)
    requires
        forall|k: int| 0 <= k < recs.len() ==> group_key(#[trigger] recs[k]) != key,
    ensures
        columns_with_key(recs, key) == Seq::<ColumnView>::empty(),
    decreases recs.len(),
{
    if recs.len() > 0 {
        let init = recs.drop_last();
        assert forall|k: int| 0 <= k < init.len() implies group_key(#[trigger] init[k]) != key by {
            assert(init[k] == recs[k]);
        }
        lemma_columns_without_key(init, key);
        assert(group_key(recs[recs.len() - 1]) != key);
    }
}

proof fn lemma_columns_step(recs: Seq<RecordView>, i: int, key: Seq<char>)
    requires
        0 <= i < recs.len(),
    ensures
        columns_with_key(recs.take(i + 1), key) == if group_key(recs[i]) == key {
            columns_with_key(recs.take(i), key).push(row_column(recs[i]))
        } else {
            columns_with_key(recs.take(i), key)
        },
{
    assert(recs.take(i + 1).drop_last() =~= recs.take(i));
    assert(recs.take(i + 1).last() == recs[i]);
}

proof fn lemma_groups_extend(
    recs: Seq<RecordView>,
    i: int,
    gv: Seq<(Seq<char>, Seq<ColumnView>)>,
    x: int,
)
    requires
        0 <= i < recs.len(),
        groups_ok(recs, i, gv),
        0 <= x < gv.len(),
        gv[x].0 == group_key(recs[i]),
    ensures
        groups_ok(recs, i + 1, gv.update(x, (gv[x].0, gv[x].1.push(row_column(recs[i]))))),
{
    let ngv = gv.update(x, (gv[x].0, gv[x].1.push(row_column(recs[i]))));
    assert forall|a: int| 0 <= a < ngv.len() implies (#[trigger] ngv[a]).1 == columns_with_key(recs.take(i + 1), ngv[a].0) by {
        lemma_columns_step(recs, i, ngv[a].0);
        if a != x {
            assert(gv[a].0 != gv[x].0);
        }
    }
    assert forall|a: int| 0 <= a < ngv.len() implies key_in_records(recs, i + 1, (#[trigger] ngv[a]).0) by {
        assert(key_in_records(recs, i, gv[a].0));
        let k = choose|k: int| #![trigger recs[k]] 0 <= k < i && group_key(recs[k]) == gv[a].0;
        assert(group_key(recs[k]) == ngv[a].0);
    }
    assert forall|k: int| 0 <= k < i + 1 implies key_grouped(ngv, #[trigger] group_key(recs[k])) by {
        if k == i {
            assert(ngv[x].0 == group_key(recs[k]));
        } else {
            assert(key_grouped(gv, group_key(recs[k])));
            let a = choose|a: int| #![trigger gv[a]] 0 <= a < gv.len() && gv[a].0 == group_key(recs[k]);
            assert(ngv[a].0 == gv[a].0);
        }
    }
}

proof fn lemma_groups_add(
    recs: Seq<RecordView>,
    i: int,
    gv: Seq<(Seq<char>, Seq<ColumnView>)>,
)
    requires
        0 <= i < recs.len(),
        groups_ok(recs, i, gv),
        forall|a: int| 0 <= a < gv.len() ==> (#[trigger] gv[a]).0 != group_key(recs[i]),
    ensures
        groups_ok(recs, i + 1, gv.push((group_key(recs[i]), seq![row_column(recs[i])]))),
{
    let key = group_key(recs[i]);
    let ngv = gv.push((key, seq![row_column(recs[i])]));
    assert forall|k: int| 0 <= k < recs.take(i).len() implies group_key(#[trigger] recs.take(i)[k]) != key by {
        assert(recs.take(i)[k] == recs[k]);
        assert(key_grouped(gv, group_key(recs[k])));
        let a = choose|a: int| #![trigger gv[a]] 0 <= a < gv.len() && gv[a].0 == group_key(recs[k]);
    }
    lemma_columns_without_key(recs.take(i), key);
    assert forall|a: int| 0 <= a < ngv.len() implies (#[trigger] ngv[a]).1 == columns_with_key(recs.take(i + 1), ngv[a].0) by {
        lemma_columns_step(recs, i, ngv[a].0);
        if a == gv.len() {
            assert(seq![row_column(recs[i])] =~= Seq::<ColumnView>::empty().push(row_column(recs[i])));
        } else {
            assert(ngv[a] == gv[a]);
        }
    }
    assert forall|a: int, b: int| 0 <= a < b < ngv.len() implies #[trigger] ngv[a].0 != #[trigger] ngv[b].0 by {
        if b == gv.len() {
            assert(ngv[a] == gv[a]);
        } else {
            assert(ngv[a] == gv[a] && ngv[b] == gv[b]);
        }
    }
    assert forall|a: int| 0 <= a < ngv.len() implies key_in_records(recs, i + 1, (#[trigger] ngv[a]).0) by {
        if a == gv.len() {
            assert(group_key(recs[i]) == ngv[a].0);
        } else {
            assert(ngv[a] == gv[a]);
            assert(key_in_records(recs, i, gv[a].0));
            let k = choose|k: int| #![trigger recs[k]] 0 <= k < i && group_key(recs[k]) == gv[a].0;
            assert(group_key(recs[k]) == ngv[a].0);
        }
    }
    assert forall|k: int| 0 <= k < i + 1 implies key_grouped(ngv, #[trigger] group_key(recs[k])) by {
        if k == i {
            assert(ngv[gv.len() as int].0 == group_key(recs[k]));
        } else {
            assert(key_grouped(gv, group_key(recs[k])));
            let a = choose|a: int| #![trigger gv[a]] 0 <= a < gv.len() && gv[a].0 == group_key(recs[k]);
            assert(ngv[a] == gv[a]);
        }
    }
}

/// The group key of a record, as a string.
fn record_group_key(rec: &JsonRecord) -> (r: String)
    ensures
        r@ == group_key(record_view(*rec)),
{
    reveal(group_key);
    let s = field_or(rec, "SCHEMA_NAME", "");
    let t = field_or(rec, "TABLE_NAME", "");
    proof {
        reveal_strlit("");
        assert(""@ =~= Seq::<char>::empty());
    }
    let st = crate::text::concat(s.as_str(), ".");
    crate::text::concat(st.as_str(), t.as_str())
}

/// The position of the group with key `key`, searching from the most recent.
fn find_group(groups: &ColumnsByTable, key: &str) -> (r: Option<usize>)
    ensures
        match r {
            Some(x) => x < groups@.len() && groups@[x as int].0@ == key@,
            None => forall|a: int| 0 <= a < groups@.len() ==> (#[trigger] groups@[a]).0@ != key@,
        },
{
    let mut j: usize = groups.len();
    while j > 0
        invariant
            j <= groups@.len(),
            forall|a: int| j <= a < groups@.len() ==> (#[trigger] groups@[a]).0@ != key@,
        decreases j,
    {
        j -= 1;
        if crate::text::str_eq(groups[j].0.as_str(), key) {
            return Some(j);
        }
    }
    None
}

/// Groups the columns that catalog records describe by `SCHEMA.TABLE` key.
fn group_columns(rows: &Vec<JsonRecord>) -> (r: ColumnsByTable)
    ensures
        groups_ok(records_of(rows@), rows@.len() as int, groups_view(r@)),
{
    let ghost recs = records_of(rows@);
    let mut groups: ColumnsByTable = Vec::new();
    let mut i: usize = 0;
    while i < rows.len()
        invariant
            i <= rows@.len(),
            recs == records_of(rows@),
            groups_ok(recs, i as int, groups_view(groups@)),
        decreases rows@.len() - i,
    {
        assert(recs[i as int] == record_view(rows@[i as int]));
        let key = record_group_key(&rows[i]);
        let col = record_column(&rows[i]);
        let ghost gv = groups_view(groups@);
        match find_group(&groups, key.as_str()) {
            Some(x) => {
                proof {
                    assert(gv[x as int].0 == groups@[x as int].0@);
                    lemma_groups_extend(recs, i as int, gv, x as int);
                }
                let (k, mut cols) = groups.remove(x);
                let ghost old_cols = cols@;
                cols.push(col);
                groups.insert(x, (k, cols));
                proof {
                    assert(cols@.map_values(|c: Column| c@) =~= old_cols.map_values(|c: Column| c@).push(row_column(recs[i as int])));
                    assert(groups_view(groups@) =~= gv.update(x as int, (gv[x as int].0, gv[x as int].1.push(row_column(recs[i as int])))));
                }
            },
            None => {
                proof {
                    assert forall|a: int| 0 <= a < gv.len() implies (#[trigger] gv[a]).0 != group_key(recs[i as int]) by {
                        assert(gv[a].0 == groups@[a].0@);
                    }
                    lemma_groups_add(recs, i as int, gv);
                }
                let mut cols: Vec<Column> = Vec::new();
                cols.push(col);
                groups.push((key, cols));
                proof {
                    assert(cols@.map_values(|c: Column| c@) =~= seq![row_column(recs[i as int])]);
                    assert(groups_view(groups@) =~= gv.push((group_key(recs[i as int]), seq![row_column(recs[i as int])])));
                }
            },
        }
        i += 1;
    }
    groups
}

/// The columns that catalog records describe, one per record, in order.
fn collect_columns(rows: &Vec<JsonRecord>) -> (r: Vec<Column>)
    ensures
        r@.map_values(|c: Column| c@) == records_of(rows@).map_values(|rec: RecordView| row_column(rec)),
{
    let ghost recs = records_of(rows@);
    let mut out: Vec<Column> = Vec::new();
    let mut i: usize = 0;
    while i < rows.len()
        invariant
            i <= rows@.len(),
            recs == records_of(rows@),
            out@.map_values(|c: Column| c@) == recs.take(i as int).map_values(|rec: RecordView| row_column(rec)),
        decreases rows@.len() - i,
    {
        assert(recs[i as int] == record_view(rows@[i as int]));
        let c = record_column(&rows[i]);
        let ghost prev = out@;
        out.push(c);
        assert(recs.take(i + 1) =~= recs.take(i as int).push(recs[i as int]));
        assert(out@.map_values(|c: Column| c@) =~= prev.map_values(|c: Column| c@).push(row_column(recs[i as int])));
        assert(out@.map_values(|c: Column| c@) =~= recs.take(i + 1).map_values(|rec: RecordView| row_column(rec)));
        i += 1;
    }
    assert(recs.take(rows@.len() as int) =~= recs);
    out
}

/// Some record among `recs` lies in schema `name`.
pub open spec fn schema_of_record(recs: Seq<RecordView>, name: Seq<char>) -> bool {
    exists|k: int| #![trigger recs[k]] 0 <= k < recs.len() && row_schema(recs[k]) == name
}

/// The schemas of a catalog of database `db`: each schema that some record
/// lies in, once, sorted by name.
pub open spec fn schemas_ok(recs: Seq<RecordView>, db: Seq<char>, sv: Seq<SchemaView>) -> bool {
    &&& schemas_sorted(sv)
    &&& forall|x: int| 0 <= x < sv.len() ==> (#[trigger] sv[x]).database == db && schema_of_record(recs, sv[x].name)
    &&& forall|k: int| 0 <= k < recs.len() ==> schema_listed(sv, row_schema(#[trigger] recs[k]))
}

proof fn lemma_schemas_from_tables(
    recs: Seq<RecordView>,
    db: Seq<char>,
    tv: Seq<TableView>,
    sv: Seq<SchemaView>,
)
    requires
        tables_ok(recs, recs.len() as int, db, tv),
        schemas_sorted(sv),
        forall|x: int| 0 <= x < sv.len() ==> (#[trigger] sv[x]).database == db
            && schema_in_tables(tv, tv.len() as int, sv[x].name),
        forall|b: int| 0 <= b < tv.len() ==> schema_listed(sv, #[trigger] tv[b].schema),
    ensures
        schemas_ok(recs, db, sv),
{
    lemma_tables_ok_elim(recs, recs.len() as int, db, tv);
    assert forall|x: int| 0 <= x < sv.len() implies (#[trigger] sv[x]).database == db && schema_of_record(recs, sv[x].name) by {
        assert(schema_in_tables(tv, tv.len() as int, sv[x].name));
        let b = choose|b: int| #![trigger tv[b]] 0 <= b < tv.len() && tv[b].schema == sv[x].name;
        assert(described_by_first(recs, recs.len() as int, db, tv[b]));
        let k = choose|k: int| #![trigger first_with_key(recs, k)]
            0 <= k < recs.len() && first_with_key(recs, k) && tv[b] == row_table(recs[k], db);
        lemma_table_key_parts(recs[k], db);
        assert(row_schema(recs[k]) == sv[x].name);
    }
    assert forall|k: int| 0 <= k < recs.len() implies schema_listed(sv, row_schema(#[trigger] recs[k])) by {
        assert(has_key(tv, table_key(recs[k])));
        let a = choose|a: int| #![trigger tv[a]] 0 <= a < tv.len() && key_of(tv[a]) == table_key(recs[k]);
        lemma_table_key_parts(recs[k], db);
        assert(schema_listed(sv, tv[a].schema));
    }
}

/// Parse catalog data and return columns grouped by `SCHEMA.TABLE` key.
///
/// The schemas are those the records lie in, once each and sorted; the
/// tables are one per (schema, table) key, sorted by key, each described by
/// the first record with that key; the columns are one per record, in order;
/// the groups hold one entry per `SCHEMA.TABLE` key with the columns of its
/// records in order (the order of the entries is unspecified).
pub fn catalog_data_from_document(doc: &JsonDocument, db: &str) -> (r: (
    Vec<Schema>,
    Vec<Table>,
    Vec<Column>,
    ColumnsByTable,
))
    ensures
        schemas_ok(document_records(*doc), db@, r.0@.map_values(|s: Schema| s@)),
        tables_ok(
            document_records(*doc),
            document_records(*doc).len() as int,
            db@,
            tables_view(r.1@),
        ),
        r.2@.map_values(|c: Column| c@) == document_records(*doc).map_values(
            |rec: RecordView| row_column(rec),
        ),
        groups_ok(
            document_records(*doc),
            document_records(*doc).len() as int,
            groups_view(r.3@),
        ),
{
    let empty: Vec<JsonRecord> = Vec::new();
    let rows: &Vec<JsonRecord> = match doc {
        JsonDocument::Array(rows) => rows,
        JsonDocument::Other => &empty,
    };
    assert(records_of(rows@) =~= document_records(*doc));
    let tables = collect_tables(rows, db);
    proof {
        lemma_tables_sorted(records_of(rows@), rows@.len() as int, db@, tables_view(tables@));
    }
    let schemas = collect_schemas(&tables, db);
    proof {
        lemma_schemas_from_tables(
            records_of(rows@),
            db@,
            tables_view(tables@),
            schemas@.map_values(|s: Schema| s@),
        );
    }
    let columns = collect_columns(rows);
    let grouped = group_columns(rows);
    (schemas, tables, columns, grouped)
}

/// Parses the JSON text of `SHOW DATABASES` into databases; an error when
/// the text is not JSON.
pub fn parse_databases(json: &str) -> (r: Result<Vec<Database>, String>)
    ensures
        r is Err <==> json_text_records(json@) is None,
        r matches Ok(v) ==> v@.map_values(|d: Database| d@) == records_databases(json_text_records(json@).unwrap()),
{
    match parse_json_document(json) {
        Some(doc) => Ok(databases_from_document(&doc)),
        None => Err(str_to_string("the output is not valid JSON")),
    }
}

/// Parses the JSON text of `DESCRIBE TABLE` into columns; an error when the
/// text is not JSON.
pub fn parse_columns(json: &str) -> (r: Result<Vec<Column>, String>)
    ensures
        r is Err <==> json_text_records(json@) is None,
        r matches Ok(v) ==> v@.map_values(|c: Column| c@) == records_columns(json_text_records(json@).unwrap()),
{
    match parse_json_document(json) {
        Some(doc) => Ok(columns_from_document(&doc)),
        None => Err(str_to_string("the output is not valid JSON")),
    }
}

/// Parses the JSON text of a query's output into a result that took
/// `elapsed_ms`; an error when the text is not JSON.
pub fn parse_query_result(json: &str, elapsed_ms: u64) -> (r: Result<QueryResult, String>)
    ensures
        r is Err <==> json_text_records(json@) is None,
        r matches Ok(q) ==> {
            let recs = json_text_records(json@).unwrap();
            &&& q.columns@.map_values(|s: String| s@) == records_result_columns(recs)
            &&& q.rows@.len() == recs.len()
            &&& forall|i: int|
                0 <= i < q.rows@.len() ==> #[trigger] row_view(q.rows@[i]) == records_result_columns(recs).map_values(
                    |c: Seq<char>| cell_value(recs[i], c),
                )
            &&& q.row_count == q.rows@.len()
            &&& q.elapsed_ms == elapsed_ms
        },
{
    match parse_json_document(json) {
        Some(doc) => Ok(query_result_from_document(&doc, elapsed_ms)),
        None => Err(str_to_string("the output is not valid JSON")),
    }
}

/// Parses the JSON text of the catalog query of database `db` into its
/// schemas, tables, columns and the columns of each table; an error when
/// the text is not JSON.
pub fn parse_catalog_data_with_columns(json: &str, db: &str) -> (r: Result<
    (Vec<Schema>, Vec<Table>, Vec<Column>, ColumnsByTable),
    String,
>)
    ensures
        r is Err <==> json_text_records(json@) is None,
        r matches Ok(x) ==> {
            let recs = json_text_records(json@).unwrap();
            &&& schemas_ok(recs, db@, x.0@.map_values(|s: Schema| s@))
            &&& tables_ok(recs, recs.len() as int, db@, tables_view(x.1@))
            &&& x.2@.map_values(|c: Column| c@) == recs.map_values(|rec: RecordView| row_column(rec))
            &&& groups_ok(recs, recs.len() as int, groups_view(x.3@))
        },
{
    match parse_json_document(json) {
        Some(doc) => Ok(catalog_data_from_document(&doc, db)),
        None => Err(str_to_string("the output is not valid JSON")),
    }
}

/// Each table listed for a catalog holds the fields of the first record with
/// its (schema, table) key: that record's `TABLE_NAME` and `SCHEMA_NAME`
/// (empty when absent), the database asked for, the kind `VIEW` when its
/// `TABLE_TYPE` (default `TABLE`) contains `VIEW` and `TABLE` otherwise, its
/// `CREATED` string, its `ROW_COUNT` and `BYTES` counts, its
/// `AUTO_CLUSTERING_ON` flag, and its `CLUSTERING_KEY`, `COMMENT` and
/// `TABLE_OWNER` strings when they are not empty.
pub proof fn lemma_catalog_table_fields(recs: Seq<RecordView>, db: Seq<char>, tv: Seq<TableView>, a: int)
    requires
        tables_ok(recs, recs.len() as int, db, tv),
        0 <= a < tv.len(),
    ensures
        exists|k: int|
            #![trigger first_with_key(recs, k)]
            {
                &&& first_with_key(recs, k)
                &&& tv[a].name == str_field_or(recs[k], "TABLE_NAME"@, Seq::empty())
                &&& tv[a].schema == str_field_or(recs[k], "SCHEMA_NAME"@, Seq::empty())
                &&& tv[a].database == db
                &&& (tv[a].kind == "VIEW"@ || tv[a].kind == "TABLE"@)
                &&& (tv[a].kind == "VIEW"@ <==> crate::text::seq_contains(
                    str_field_or(recs[k], "TABLE_TYPE"@, "TABLE"@),
                    "VIEW"@,
                ))
                &&& tv[a].created == record_get_str(recs[k], "CREATED"@)
                &&& tv[a].row_count == json_count(record_get(recs[k], "ROW_COUNT"@))
                &&& tv[a].bytes == json_count(record_get(recs[k], "BYTES"@))
                &&& tv[a].clustering_key == nonempty(record_get_str(recs[k], "CLUSTERING_KEY"@))
                &&& tv[a].auto_clustering == json_flag(record_get(recs[k], "AUTO_CLUSTERING_ON"@))
                &&& tv[a].comment == nonempty(record_get_str(recs[k], "COMMENT"@))
                &&& tv[a].owner == nonempty(record_get_str(recs[k], "TABLE_OWNER"@))
            },
{
    reveal(tables_ok);
    reveal(row_table);
    reveal_strlit("VIEW");
    reveal_strlit("TABLE");
    assert("VIEW"@.len() != "TABLE"@.len());
    assert(described_by_first(recs, recs.len() as int, db, tv[a]));
    let k = choose|k: int| #![trigger first_with_key(recs, k)]
        0 <= k < recs.len() && first_with_key(recs, k) && tv[a] == row_table(recs[k], db);
    assert(first_with_key(recs, k));
}

} // verus!
