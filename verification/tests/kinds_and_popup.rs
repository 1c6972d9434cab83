use subzero::action::Action;
use subzero::chart::ColumnType;
use subzero::column_kind::column_type_of_counts;
use subzero::json::{JsonNumber, JsonValue};
use subzero::keys::{KeyCode, KeyEvent};
use subzero::parser::{Database, QueryResult, Schema, Table};
use subzero::query_pane::QueryPaneState;
use subzero::row_detail::RowDetailPopup;
use subzero::search::FuzzySearch;

fn key(code: KeyCode) -> KeyEvent {
    KeyEvent::plain(code)
}

#[test]
fn column_kinds_from_counts() {
    assert_eq!(column_type_of_counts(0, 0, 0), ColumnType::Categorical);
    assert_eq!(column_type_of_counts(5, 5, 0), ColumnType::Numeric);
    assert_eq!(column_type_of_counts(10, 0, 9), ColumnType::Date);
    assert_eq!(column_type_of_counts(10, 0, 8), ColumnType::Categorical);
    assert_eq!(column_type_of_counts(1, 0, 1), ColumnType::Date);
    assert_eq!(column_type_of_counts(3, 1, 0), ColumnType::Categorical);
}

#[test]
fn a_new_result_gives_the_kind_of_each_chart_column() {
    let mut q = QueryPaneState::new(true);
    let result = QueryResult {
        columns: vec!["N".into(), "D".into(), "S".into()],
        rows: vec![
            vec![
                JsonValue::Number(JsonNumber { text: "1".into(), as_i64: Some(1) }),
                JsonValue::String("2024-01-02".into()),
                JsonValue::String("x".into()),
            ],
            vec![JsonValue::Null, JsonValue::String("2024-01-03".into()), JsonValue::Null],
        ],
        row_count: 2,
        elapsed_ms: 1,
    };
    q.update(Action::QueryResultData(result));
    let kinds: Vec<(String, ColumnType)> = q.chart.settings.column_types.clone();
    assert_eq!(kinds, vec![
        ("N".to_string(), ColumnType::Numeric),
        ("D".to_string(), ColumnType::Date),
        ("S".to_string(), ColumnType::Categorical),
    ]);
}

fn popup_in_range(p: &RowDetailPopup) -> bool {
    let n = p.filtered.len();
    p.scroll_offset <= n.saturating_sub(1) && p.filtered.iter().all(|&i| i < p.entries.len())
}

#[test]
fn the_row_detail_stays_in_range_over_every_key() {
    let mut p = RowDetailPopup::new();
    let cols: Vec<String> = (0..15).map(|i| format!("COL_{i}")).collect();
    let row: Vec<JsonValue> = (0..15).map(|i| JsonValue::String(format!("v{i}"))).collect();
    p.show(&cols, &row);
    assert!(popup_in_range(&p));
    let keys = [
        KeyCode::End, KeyCode::Char('/'), KeyCode::Char('1'), KeyCode::Backspace, KeyCode::Char('c'), KeyCode::Char('o'),
        KeyCode::Char('l'), KeyCode::Char('_'), KeyCode::Char('1'), KeyCode::Char('4'), KeyCode::Enter, KeyCode::PageDown,
        KeyCode::Down, KeyCode::Char('/'), KeyCode::Backspace, KeyCode::Backspace, KeyCode::Esc, KeyCode::PageUp, KeyCode::Home,
    ];
    for k in keys {
        assert!(p.handle_key(key(k)));
        assert!(popup_in_range(&p), "out of range after {k:?}");
    }
}

#[test]
fn search_tree_lines_stand_for_results() {
    let mut search = FuzzySearch::new();
    let dbs = vec![Database { name: "DB".into() }, Database { name: "OTHER".into() }];
    let schemas = vec![Schema { name: "S".into(), database: "DB".into() }];
    let table = Table {
        name: "T".into(),
        database: "DB".into(),
        schema: "S".into(),
        kind: "TABLE".into(),
        row_count: None,
        bytes: None,
        created: None,
        clustering_key: None,
        auto_clustering: None,
        comment: None,
        owner: None,
    };
    search.rebuild_entries(&dbs, &schemas, &vec![table]);
    let (lines, map) = search.build_tree_lines();
    assert_eq!(lines.len(), map.len());
    assert!(map.iter().flatten().all(|&p| p < search.results.len()));
    assert_eq!(lines[0].text, "DB");
    assert!(lines[0].is_header);
}
