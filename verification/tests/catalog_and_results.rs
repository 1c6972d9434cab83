use subzero::chart::ColumnType;
use subzero::column_kind::{detect_all_column_types, detect_column_type, try_parse_date};
use subzero::json::{format_csv_value, format_value, JsonDocument, JsonNumber, JsonRecord, JsonValue};
use subzero::parser::{
    catalog_data_from_document, columns_from_document, databases_from_document, parse_catalog_data_with_columns,
    parse_columns, parse_databases, parse_query_result, query_result_from_document, QueryResult,
};
use subzero::table_layout::{compute_column_widths, truncate_to_width, truncate_with_ellipsis};

fn s(v: &str) -> JsonValue {
    JsonValue::String(v.to_string())
}

fn n(v: i64) -> JsonValue {
    JsonValue::Number(JsonNumber { text: v.to_string(), as_i64: Some(v) })
}

fn rec(fields: Vec<(&str, JsonValue)>) -> JsonRecord {
    JsonRecord::Object(fields.into_iter().map(|(k, v)| (k.to_string(), v)).collect())
}

#[test]
fn values_display_as_in_tables() {
    assert_eq!(format_value(&JsonValue::Null), "NULL");
    assert_eq!(format_value(&JsonValue::Bool(true)), "true");
    assert_eq!(format_value(&n(42)), "42");
    assert_eq!(format_value(&s("abc")), "abc");
    assert_eq!(format_value(&JsonValue::Array("[1,2]".to_string())), "[1,2]");
    assert_eq!(format_csv_value(&JsonValue::Null), "");
    assert_eq!(format_csv_value(&s("x")), "x");
}

#[test]
fn databases_are_the_string_names() {
    let doc = JsonDocument::Array(vec![
        rec(vec![("name", s("DB1")), ("owner", s("me"))]),
        rec(vec![("owner", s("nobody"))]),
        rec(vec![("name", n(3))]),
        JsonRecord::Other,
        rec(vec![("name", s("DB2"))]),
    ]);
    let dbs = databases_from_document(&doc);
    assert_eq!(dbs.iter().map(|d| d.name.clone()).collect::<Vec<_>>(), vec!["DB1", "DB2"]);
    assert!(databases_from_document(&JsonDocument::Other).is_empty());
}

#[test]
fn described_columns_default_type_and_nullability() {
    let doc = JsonDocument::Array(vec![
        rec(vec![("name", s("ID")), ("type", s("NUMBER(38,0)")), ("null?", s("N"))]),
        rec(vec![("name", s("NOTE"))]),
        rec(vec![("type", s("VARCHAR"))]),
    ]);
    let cols = columns_from_document(&doc);
    assert_eq!(cols.len(), 2);
    assert_eq!(cols[0].name, "ID");
    assert_eq!(cols[0].data_type, "NUMBER(38,0)");
    assert!(!cols[0].nullable);
    assert_eq!(cols[1].data_type, "UNKNOWN");
    assert!(cols[1].nullable);
}

#[test]
fn query_results_take_columns_from_the_first_record() {
    let doc = JsonDocument::Array(vec![
        rec(vec![("A", n(1)), ("B", s("x"))]),
        rec(vec![("B", s("y"))]),
    ]);
    let r = query_result_from_document(&doc, 12);
    assert_eq!(r.columns, vec!["A", "B"]);
    assert_eq!(r.row_count, 2);
    assert_eq!(r.elapsed_ms, 12);
    assert_eq!(format_value(&r.rows[1][0]), "NULL");
    assert_eq!(format_value(&r.rows[1][1]), "y");
}

fn catalog_row(schema: &str, table: &str, kind: &str, column: &str, nullable: &str) -> JsonRecord {
    rec(vec![
        ("SCHEMA_NAME", s(schema)),
        ("TABLE_NAME", s(table)),
        ("TABLE_TYPE", s(kind)),
        ("COLUMN_NAME", s(column)),
        ("DATA_TYPE", s("TEXT")),
        ("IS_NULLABLE", s(nullable)),
        ("ROW_COUNT", s("12")),
        ("BYTES", n(2048)),
        ("AUTO_CLUSTERING_ON", s("ON")),
        ("CLUSTERING_KEY", s("")),
    ])
}

#[test]
fn catalog_rows_group_into_schemas_tables_and_columns() {
    let doc = JsonDocument::Array(vec![
        catalog_row("PUBLIC", "ORDERS", "BASE TABLE", "ID", "NO"),
        catalog_row("PUBLIC", "ORDERS", "BASE TABLE", "TOTAL", "YES"),
        catalog_row("ANALYTICS", "V_SALES", "VIEW", "AMOUNT", "YES"),
    ]);
    let (schemas, tables, columns, groups) = catalog_data_from_document(&doc, "SHOP");
    let schema_names: Vec<_> = schemas.iter().map(|s| s.name.clone()).collect();
    assert_eq!(schema_names, vec!["ANALYTICS", "PUBLIC"]);
    assert!(schemas.iter().all(|s| s.database == "SHOP"));
    let table_names: Vec<_> = tables.iter().map(|t| t.name.clone()).collect();
    assert_eq!(table_names, vec!["V_SALES", "ORDERS"]);
    let view = &tables[0];
    assert_eq!(view.kind, "VIEW");
    assert_eq!(view.row_count, Some(12));
    assert_eq!(view.bytes, Some(2048));
    assert_eq!(view.auto_clustering, Some(true));
    assert_eq!(view.clustering_key, None);
    assert_eq!(tables[1].kind, "TABLE");
    assert_eq!(columns.len(), 3);
    assert!(!columns[0].nullable);
    assert!(columns[1].nullable);
    let mut keys: Vec<_> = groups.iter().map(|(k, c)| (k.clone(), c.len())).collect();
    keys.sort();
    assert_eq!(keys, vec![("ANALYTICS.V_SALES".to_string(), 1), ("PUBLIC.ORDERS".to_string(), 2)]);
}

#[test]
fn dates_parse_in_the_supported_formats() {
    assert_eq!(try_parse_date("1970-01-02"), Some(86_400_000));
    assert_eq!(try_parse_date("1970-01-01 00:00:01"), Some(1000));
    assert_eq!(try_parse_date("1970-01-01 00:00:01.500"), Some(1500));
    assert_eq!(try_parse_date("1970-01-01T01:00:00+01:00"), Some(0));
    assert_eq!(try_parse_date("1970-01-01 00:00:00.000 -01:00"), Some(3_600_000));
    assert_eq!(try_parse_date("yesterday"), None);
    assert_eq!(try_parse_date("2024-13-01"), None);
}

fn result(columns: Vec<&str>, rows: Vec<Vec<JsonValue>>) -> QueryResult {
    let count = rows.len();
    QueryResult { columns: columns.into_iter().map(String::from).collect(), rows, row_count: count, elapsed_ms: 0 }
}

#[test]
fn column_kinds() {
    let mut rows = Vec::new();
    for i in 0..10 {
        let date = if i < 9 { s("2024-01-05") } else { s("soon") };
        rows.push(vec![n(i), date, s("x"), JsonValue::Null]);
    }
    let r = result(vec!["N", "D", "C", "E"], rows);
    assert_eq!(detect_column_type(&r, 0), ColumnType::Numeric);
    assert_eq!(detect_column_type(&r, 1), ColumnType::Date);
    assert_eq!(detect_column_type(&r, 2), ColumnType::Categorical);
    assert_eq!(detect_column_type(&r, 3), ColumnType::Categorical);
    assert_eq!(detect_column_type(&r, 9), ColumnType::Categorical);
    let all = detect_all_column_types(&r);
    assert_eq!(all.len(), 4);
    assert_eq!(all[1].0, "D");
    assert_eq!(all[1].1, ColumnType::Date);
}

#[test]
fn too_few_dates_make_a_category() {
    let mut rows = Vec::new();
    for i in 0..10 {
        let v = if i < 8 { s("2024-01-05") } else { s("n/a") };
        rows.push(vec![v]);
    }
    let r = result(vec!["D"], rows);
    assert_eq!(detect_column_type(&r, 0), ColumnType::Categorical);
}

#[test]
fn truncation_with_ellipsis() {
    assert_eq!(truncate_with_ellipsis("short", 10), "short");
    assert_eq!(truncate_with_ellipsis("abcdefghij", 6), "abc...");
    assert_eq!(truncate_with_ellipsis("abcdef", 3), "abc");
    assert_eq!(truncate_to_width("abcdef", 5), "ab...");
}

#[test]
fn column_widths_fit_the_leading_columns() {
    let headers: Vec<String> = vec!["ID".into(), "A_LONG_HEADER".into(), "X".into()];
    let rows = vec![vec![n(123456), s("v"), s(&"z".repeat(60))]];
    let (w, end) = compute_column_widths(&headers, &rows, 0, 3, 100);
    assert_eq!(w, vec![6, 13, 40]);
    assert_eq!(end, 3);
    let (w, end) = compute_column_widths(&headers, &rows, 0, 3, 20);
    assert_eq!(w, vec![6, 13]);
    assert_eq!(end, 2);
    let (w, end) = compute_column_widths(&headers, &rows, 0, 3, 3);
    assert_eq!(w, vec![6]);
    assert_eq!(end, 1);
    let (w, end) = compute_column_widths(&headers, &rows, 2, 2, 50);
    assert!(w.is_empty());
    assert_eq!(end, 2);
}

#[test]
fn text_that_is_not_json_is_an_error() {
    assert!(parse_databases("not json").is_err());
    assert!(parse_columns("[{\"name\": ").is_err());
    assert!(parse_query_result("{", 1).is_err());
    assert!(parse_catalog_data_with_columns("", "DB").is_err());
}

#[test]
fn json_text_is_read_into_records() {
    let dbs = parse_databases(r#"[{"name": "DB1", "owner": "me"}, {"owner": "x"}, 5, {"name": "DB2"}]"#).unwrap();
    assert_eq!(dbs.iter().map(|d| d.name.clone()).collect::<Vec<_>>(), vec!["DB1", "DB2"]);
    assert!(parse_databases(r#"{"name": "DB1"}"#).unwrap().is_empty());
    let cols = parse_columns(r#"[{"name": "ID", "type": "NUMBER(38,0)", "null?": "N"}]"#).unwrap();
    assert_eq!(cols[0].data_type, "NUMBER(38,0)");
    assert!(!cols[0].nullable);
    let r = parse_query_result(r#"[{"A": 1, "B": [1, 2], "C": {"k": null}, "D": 2.5}, {"A": null}]"#, 9).unwrap();
    assert_eq!(r.columns, vec!["A", "B", "C", "D"]);
    assert_eq!(r.row_count, 2);
    assert_eq!(format_value(&r.rows[0][1]), "[1,2]");
    assert_eq!(format_value(&r.rows[0][2]), "{\"k\":null}");
    assert!(matches!(&r.rows[0][3], JsonValue::Number(n) if n.text == "2.5" && n.as_i64.is_none()));
    assert!(matches!(&r.rows[0][0], JsonValue::Number(n) if n.as_i64 == Some(1)));
    assert_eq!(format_value(&r.rows[1][0]), "NULL");
    let (schemas, tables, columns, groups) = parse_catalog_data_with_columns(
        r#"[{"SCHEMA_NAME": "S", "TABLE_NAME": "T", "TABLE_TYPE": "VIEW", "COLUMN_NAME": "C", "DATA_TYPE": "TEXT", "IS_NULLABLE": "YES"}]"#,
        "DB",
    )
    .unwrap();
    assert_eq!(schemas.len(), 1);
    assert_eq!(tables[0].kind, "VIEW");
    assert_eq!(columns.len(), 1);
    assert_eq!(groups[0].0, "S.T");
}
