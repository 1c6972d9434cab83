use subzero::chart::ChartConfig;
use subzero::export::csv_export;
use subzero::json::{JsonNumber, JsonValue};
use subzero::parser::QueryResult;
use subzero::query_pane::{BottomTab, QueryPaneState};
use subzero::store::{mark_run, SavedQuery};

fn saved(id: usize, title: &str) -> SavedQuery {
    SavedQuery { id, title: title.to_string(), sql: "SELECT 1".to_string(), saved_at: 5, last_run_at: None, charts: vec![] }
}

#[test]
fn csv_export_quotes_special_cells() {
    let result = QueryResult {
        columns: vec!["ID".to_string(), "NOTE, TEXT".to_string()],
        rows: vec![
            vec![JsonValue::Number(JsonNumber { text: "1".into(), as_i64: Some(1) }), JsonValue::String("say \"hi\"".into())],
            vec![JsonValue::Null, JsonValue::String("two\nlines".into())],
            vec![JsonValue::Bool(false), JsonValue::String("plain".into())],
        ],
        row_count: 3,
        elapsed_ms: 7,
    };
    assert_eq!(
        csv_export(&result),
        "ID,\"NOTE, TEXT\"\n1,\"say \"\"hi\"\"\"\n,\"two\nlines\"\nfalse,plain\n"
    );
}

#[test]
fn csv_export_of_empty_result() {
    let result = QueryResult { columns: vec![], rows: vec![], row_count: 0, elapsed_ms: 0 };
    assert_eq!(csv_export(&result), "\n");
}

#[test]
fn mark_run_sets_first_match_only() {
    let mut queries = vec![saved(1, "a"), saved(2, "b"), saved(2, "c")];
    assert!(mark_run(&mut queries, 2, 99));
    assert_eq!(queries[0].last_run_at, None);
    assert_eq!(queries[1].last_run_at, Some(99));
    assert_eq!(queries[2].last_run_at, None);
    assert!(!mark_run(&mut queries, 7, 100));
    assert_eq!(queries[1].last_run_at, Some(99));
}

#[test]
fn chart_config_completeness_and_active_tab() {
    let mut config = ChartConfig::default();
    assert!(!config.is_complete());
    config.x_column = Some("A".into());
    assert!(!config.is_complete());
    config.y_column = Some("B".into());
    assert!(config.is_complete());

    let mut pane = QueryPaneState::new(true);
    assert!(pane.active_chart_config().is_none());
    assert!(pane.create_new_chart_tab());
    assert!(matches!(pane.bottom_tab, BottomTab::Chart(0)));
    let active = pane.active_chart_config().expect("a chart tab is shown");
    assert!(active.x_column.is_none());
}
