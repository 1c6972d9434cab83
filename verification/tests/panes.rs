use subzero::action::Action;
use subzero::bars::{QuitDialog, QuitSelection, TopBar};
use subzero::chart::{Aggregation, ChartTab, ChartType, SettingsFocus as ChartField, SortOrder};
use subzero::columns_tab::ColumnsTab;
use subzero::history::{QueryHistory, SavedQueriesPane};
use subzero::json::JsonValue;
use subzero::keys::{KeyCode, KeyEvent};
use subzero::nav::Mode;
use subzero::parser::{Column, QueryResult};
use subzero::results::ResultsTable;
use subzero::row_detail::RowDetailPopup;
use subzero::store::{QueryHistoryEntry, SavedQuery};
use subzero::theme_editor::ThemeEditorPane;
use subzero::theme::ThemeConfig;

fn key(code: KeyCode) -> KeyEvent {
    KeyEvent::plain(code)
}

#[test]
fn quit_dialog_answers() {
    let mut d = QuitDialog::new();
    assert!(d.handle_key(key(KeyCode::Enter)).is_none());
    d.show();
    assert!(matches!(d.handle_key(key(KeyCode::Char('l'))), Some(Action::Render)));
    assert_eq!(d.selection, QuitSelection::No);
    assert!(matches!(d.handle_key(key(KeyCode::Char('z'))), Some(Action::NoOp)));
    assert!(matches!(d.handle_key(key(KeyCode::Enter)), Some(Action::HideQuitDialog)));
    assert!(!d.visible);
    d.show();
    assert!(matches!(d.handle_key(key(KeyCode::Char('Y'))), Some(Action::Quit)));
}

#[test]
fn top_bar_switches_modes() {
    let bar = TopBar::new();
    assert!(matches!(bar.handle_key(key(KeyCode::Char('Q'))), Some(Action::SwitchMode(Mode::Query))));
    assert!(matches!(bar.handle_key(key(KeyCode::Char('s'))), Some(Action::SwitchMode(Mode::Settings))));
    assert!(bar.handle_key(key(KeyCode::Char('x'))).is_none());
}

#[test]
fn chart_labels_and_tabs() {
    assert_eq!(ChartType::all(), vec![ChartType::Line, ChartType::VerticalBar, ChartType::HorizontalBar]);
    assert_eq!(Aggregation::NoAggregation.label(), "NONE");
    assert_eq!(Aggregation::Average.label(), "AVG");
    assert_eq!(SortOrder::Unsorted.label(), "None");
    let tab = ChartTab::new(3);
    assert_eq!(tab.label, "Chart 3");
    assert!(tab.settings_hidden);
    assert_eq!(ChartField::ChartType.next().prev(), ChartField::ChartType);
}

fn column(name: &str) -> Column {
    Column { name: name.into(), data_type: "TEXT".into(), nullable: true }
}

#[test]
fn columns_search_filters_by_name() {
    let mut tab = ColumnsTab::new();
    tab.set_columns(vec![column("ORDER_ID"), column("CUSTOMER"), column("order_date")]);
    assert_eq!(tab.filtered_indices, vec![0, 1, 2]);
    tab.activate_search();
    for c in "ORDER".chars() {
        tab.handle_key(key(KeyCode::Char(c)));
    }
    assert_eq!(tab.filtered_indices, vec![0, 2]);
    tab.handle_key(key(KeyCode::Down));
    assert_eq!(tab.selected, 1);
    tab.handle_key(key(KeyCode::Esc));
    assert!(!tab.search_active());
    assert_eq!(tab.filtered_indices.len(), 3);
}

fn result() -> QueryResult {
    QueryResult {
        columns: vec!["A".into(), "B".into()],
        rows: (0..30).map(|i| vec![JsonValue::String(format!("r{i}")), JsonValue::Null]).collect(),
        row_count: 30,
        elapsed_ms: 1,
    }
}

#[test]
fn results_table_moves_and_pages() {
    let mut t = ResultsTable::new();
    t.set_result(result());
    assert_eq!(t.formatted_cells[2][0], "r2");
    assert_eq!(t.formatted_cells[2][1], "NULL");
    t.handle_key(key(KeyCode::PageDown));
    assert_eq!(t.selected_row, 20);
    t.handle_key(key(KeyCode::End));
    assert_eq!(t.selected_row, 29);
    assert!(t.row_offset <= 29 && 29 < t.row_offset + 19);
    t.handle_key(key(KeyCode::Char('l')));
    t.handle_key(key(KeyCode::Char('l')));
    assert_eq!(t.scroll_col, 1);
    t.handle_key(key(KeyCode::Enter));
    assert!(t.row_detail.visible);
    assert!(matches!(t.handle_key(key(KeyCode::Esc)), Some(Action::Render)));
    assert!(!t.row_detail.visible);
}

#[test]
fn row_detail_lists_every_column_and_searches() {
    let mut p = RowDetailPopup::new();
    let columns = vec!["ID".to_string(), "NAME".to_string(), "MISSING".to_string()];
    let row = vec![JsonValue::String("7".into()), JsonValue::Null];
    p.show(&columns, &row);
    assert_eq!(p.entries.len(), 3);
    assert_eq!(p.entries[1], ("NAME".to_string(), "NULL".to_string(), true));
    assert_eq!(p.entries[2].1, "NULL");
    assert!(p.handle_key(key(KeyCode::Char('/'))));
    p.handle_key(key(KeyCode::Char('n')));
    p.handle_key(key(KeyCode::Char('a')));
    assert_eq!(p.filtered, vec![1]);
}

fn entry(sql: &str) -> QueryHistoryEntry {
    QueryHistoryEntry { sql: sql.into(), executed_at: 0, row_count: None, elapsed_ms: None, error: None }
}

#[test]
fn history_filter_and_load() {
    let mut h = QueryHistory::new();
    h.show(vec![entry("SELECT 1"), entry("select name from users"), entry("DELETE")]);
    assert_eq!(h.filtered.len(), 3);
    h.handle_key(key(KeyCode::Char('S')));
    assert_eq!(h.filtered, vec![0, 1]);
    h.handle_key(key(KeyCode::Backspace));
    assert_eq!(h.filtered, vec![0, 1, 2]);
    h.handle_key(key(KeyCode::Char('S')));
    h.handle_key(key(KeyCode::Char('e')));
    assert_eq!(h.filtered, vec![0, 1]);
    h.handle_key(key(KeyCode::Down));
    match h.handle_key(key(KeyCode::Enter)) {
        Some(Action::LoadQueryFromHistory(sql)) => assert_eq!(sql, "select name from users"),
        _ => panic!("expected the selected query"),
    }
    assert!(!h.visible);
}

fn saved(id: usize, title: &str) -> SavedQuery {
    SavedQuery { id, title: title.into(), sql: format!("SELECT {id}"), saved_at: 0, last_run_at: None, charts: Vec::new() }
}

#[test]
fn saved_queries_rename_and_delete() {
    let mut p = SavedQueriesPane::new();
    p.set_queries(vec![saved(1, "one"), saved(2, "two")]);
    p.toggle();
    p.handle_key(key(KeyCode::Char('j')));
    match p.handle_key(key(KeyCode::Enter)) {
        Some(Action::LoadSavedQuery { id, sql }) => {
            assert_eq!(id, 2);
            assert_eq!(sql, "SELECT 2");
        },
        _ => panic!("expected the saved query"),
    }
    p.toggle();
    p.handle_key(key(KeyCode::Char('e')));
    p.handle_key(key(KeyCode::Char('!')));
    assert!(matches!(p.handle_key(key(KeyCode::Enter)), Some(Action::PersistSavedQueries)));
    assert_eq!(p.queries[1].title, "two!");
    p.handle_key(key(KeyCode::Char('d')));
    assert!(p.delete_confirm);
    assert!(matches!(p.handle_key(key(KeyCode::Char('y'))), Some(Action::PersistSavedQueries)));
    assert_eq!(p.queries.len(), 1);
    assert_eq!(p.queries[0].id, 1);
}

#[test]
fn theme_editor_status_expires() {
    let mut t = ThemeEditorPane::new();
    t.load_from_config(ThemeConfig::default());
    t.set_status("Saved", 1000);
    assert_eq!(t.active_status(3999), Some("Saved".to_string()));
    assert_eq!(t.active_status(4000), None);
}
