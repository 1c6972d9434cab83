use subzero::action::Action;
use subzero::chart::ChartConfig;
use subzero::chart_columns::chart_columns;
use subzero::theme_editor::ThemeEditorPane;
use subzero::app_state::App;
use subzero::completion::completion_catalog;
use subzero::json::{JsonNumber, JsonValue};
use subzero::keys::{KeyCode, KeyEvent, KeyModifiers};
use subzero::nav::{Focus, Mode};
use subzero::parser::{Column, Database, QueryResult, Schema, Table};
use subzero::query_pane::{BottomTab, QueryFocus, QueryKeyOutcome, QueryPaneState};
use subzero::store::CatalogCache;
use subzero::theme::{apply, current_config, load, ThemeConfig};

fn key(code: KeyCode) -> KeyEvent {
    KeyEvent::plain(code)
}

fn ctrl(c: char) -> KeyEvent {
    KeyEvent::new(KeyCode::Char(c), KeyModifiers::control_only())
}

fn dispatch(app: &mut App, action: Action) -> Option<Action> {
    app.dispatch(action, &Vec::new(), 0, 0, ThemeConfig::default())
}

fn rows(n: usize) -> QueryResult {
    QueryResult {
        columns: vec!["N".into()],
        rows: (0..n).map(|i| vec![JsonValue::Number(JsonNumber { text: i.to_string(), as_i64: Some(i as i64) })]).collect(),
        row_count: n,
        elapsed_ms: 3,
    }
}

fn table(db: &str, schema: &str, name: &str, kind: &str) -> Table {
    Table {
        name: name.into(),
        database: db.into(),
        schema: schema.into(),
        kind: kind.into(),
        row_count: None,
        bytes: None,
        created: None,
        clustering_key: None,
        auto_clustering: None,
        comment: None,
        owner: None,
    }
}

fn results_pane() -> QueryPaneState {
    let mut q = QueryPaneState::new(true);
    q.update(Action::QueryResultData(rows(5)));
    assert_eq!(q.focus, QueryFocus::Results);
    q
}

#[test]
fn tab_from_the_results_goes_back_to_the_editor() {
    let mut app = App::new(true);
    dispatch(&mut app, Action::SwitchMode(Mode::Query));
    app.query.set_focus_results();
    app.tab_unconsumed();
    assert_eq!(app.focus, Focus::ModeContent);
    assert_eq!(app.query.focus, QueryFocus::Editor);
    app.tab_unconsumed();
    assert_eq!(app.query.focus, QueryFocus::Results);
}

#[test]
fn clearing_the_cache_empties_the_tree() {
    let mut app = App::new(true);
    dispatch(&mut app, Action::SwitchMode(Mode::Explore));
    dispatch(
        &mut app,
        Action::CatalogLoaded(
            vec![Database { name: "DB".into() }],
            vec![Schema { name: "S".into(), database: "DB".into() }],
            vec![table("DB", "S", "T", "TABLE")],
            Some(5),
        ),
    );
    assert_eq!(app.explore.tree.databases.len(), 1);
    assert!(app.explore.catalog_loaded);
    assert!(matches!(dispatch(&mut app, Action::ClearCache), Some(Action::ClearCache)));
    assert!(app.explore.tree.databases.is_empty());
    assert!(app.explore.tree.schemas.is_empty());
    assert!(app.explore.tree.tables.is_empty());
    assert!(app.explore.search.entries.is_empty());
    assert!(!app.explore.catalog_loaded);
}

#[test]
fn other_actions_go_to_the_mode_shown() {
    let mut app = App::new(true);
    dispatch(&mut app, Action::SwitchMode(Mode::Query));
    assert!(matches!(dispatch(&mut app, Action::StatusMessage("hello".into())), Some(Action::Render)));
    assert_eq!(app.query.status_message.as_deref(), Some("hello"));
    assert!(matches!(dispatch(&mut app, Action::ClearStatus), Some(Action::Render)));
    assert_eq!(app.query.status_message, None);
    dispatch(&mut app, Action::SwitchMode(Mode::Explore));
    assert!(matches!(dispatch(&mut app, Action::DatabasesLoaded(vec![Database { name: "X".into() }])), Some(Action::Render)));
    assert_eq!(app.explore.tree.databases.len(), 1);
    assert!(dispatch(&mut app, Action::StatusMessage("ignored".into())).is_none());
}

#[test]
fn results_side_keys_of_the_query_mode() {
    let mut q = results_pane();
    assert!(matches!(q.handle_key(ctrl('n'), true), QueryKeyOutcome::Prepare(Some(Action::Render))));
    assert_eq!(q.chart_tabs.len(), 1);
    assert!(q.chart_tabs[0].settings_hidden);
    assert_eq!(q.chart_tabs[0].label, "Chart 1");
    assert_eq!(q.bottom_tab, BottomTab::Chart(0));
    assert!(matches!(q.handle_key(key(KeyCode::Char('T')), true), QueryKeyOutcome::Handled(Some(Action::Render))));
    assert_eq!(q.bottom_tab, BottomTab::Results);
    assert!(matches!(q.handle_key(key(KeyCode::Char('1')), true), QueryKeyOutcome::Prepare(Some(Action::Render))));
    assert_eq!(q.bottom_tab, BottomTab::Chart(0));
    assert!(matches!(q.handle_key(ctrl('e'), true), QueryKeyOutcome::Handled(Some(Action::Render))));
    assert!(matches!(&q.title_edit, Some((0, t, o)) if t == "Chart 1" && o == "Chart 1"));
    q.handle_key(key(KeyCode::Esc), true);
    assert!(q.title_edit.is_none());
    assert!(matches!(q.handle_key(key(KeyCode::Char('D')), true), QueryKeyOutcome::Handled(Some(Action::Render))));
    assert!(q.delete_confirm);
    q.handle_key(key(KeyCode::Char('n')), true);
    assert!(!q.delete_confirm);
    assert_eq!(q.chart_tabs.len(), 1);
    q.handle_key(key(KeyCode::Char('T')), true);
    let before = q.results.selected_row;
    assert!(matches!(q.handle_key(key(KeyCode::Down), true), QueryKeyOutcome::Handled(Some(Action::Render))));
    assert_eq!(q.results.selected_row, before + 1);
    assert!(matches!(q.handle_key(key(KeyCode::Char('z')), true), QueryKeyOutcome::Handled(None)));
}

#[test]
fn saving_from_the_editor() {
    let mut app = App::new(true);
    assert!(matches!(app.save_editor_query(String::new(), 1), Action::StatusMessage(m) if m == "Nothing to save \u{2014} editor is empty"));
    assert!(app.saved_queries_pane.queries.is_empty());
    assert!(matches!(app.save_editor_query("SELECT 1".into(), 7), Action::StatusMessage(m) if m == "Query saved"));
    assert_eq!(app.saved_queries_pane.queries.len(), 1);
    assert_eq!(app.saved_queries_pane.queries[0].title, "Query 1");
    assert_eq!(app.loaded_saved_query_id, Some(1));
    app.save_editor_query("SELECT 2".into(), 8);
    assert_eq!(app.saved_queries_pane.queries.len(), 1);
    assert_eq!(app.saved_queries_pane.queries[0].sql, "SELECT 2");
    assert_eq!(app.saved_queries_pane.queries[0].saved_at, 8);
}

#[test]
fn switching_connection_forgets_the_catalog() {
    let mut app = App::new(true);
    app.explore.update(Action::DatabasesLoaded(vec![Database { name: "X".into() }]), &Vec::new(), 0);
    app.explore.detail.set_breadcrumb("X", "S", "T");
    app.explore.reset_for_connection(false);
    assert!(app.explore.tree.databases.is_empty());
    assert!(app.explore.detail.breadcrumb.is_none());
    assert!(!app.explore.catalog_loaded);
    app.explore.reset_for_connection(true);
    assert!(app.explore.catalog_loaded);
}

#[test]
fn completion_catalog_groups_by_database_and_schema() {
    let mut c = CatalogCache::empty();
    assert!(completion_catalog(&c).is_none());
    c.databases = vec![Database { name: "A".into() }, Database { name: "B".into() }];
    c.schemas = vec![
        Schema { name: "S1".into(), database: "A".into() },
        Schema { name: "S2".into(), database: "B".into() },
        Schema { name: "S3".into(), database: "A".into() },
    ];
    c.tables = vec![table("A", "S1", "T1", "TABLE"), table("B", "S2", "T2", "VIEW"), table("A", "S1", "T3", "TABLE")];
    c.columns_by_table = vec![("A.S1.T1".into(), vec![Column { name: "ID".into(), data_type: "NUMBER".into(), nullable: false }])];
    let o = completion_catalog(&c).expect("a database is held");
    assert_eq!(o.databases, vec!["A".to_string(), "B".to_string()]);
    assert_eq!(o.schemas, vec![("A".to_string(), vec!["S1".to_string(), "S3".to_string()]), ("B".to_string(), vec!["S2".to_string()])]);
    assert_eq!(o.tables.len(), 2);
    assert_eq!(o.tables[0].0, "A.S1");
    assert_eq!(o.tables[0].1, vec![("T1".to_string(), "TABLE".to_string()), ("T3".to_string(), "TABLE".to_string())]);
    assert_eq!(o.tables[1], ("B.S2".to_string(), vec![("T2".to_string(), "VIEW".to_string())]));
    assert_eq!(o.columns.len(), 1);
    assert_eq!(o.columns[0].0, "A.S1.T1");
    assert_eq!(o.columns[0].1[0].name, "ID");
}

#[test]
fn applying_the_current_config_keeps_the_theme() {
    let mut colors = load(None);
    let config = current_config(&colors);
    assert!(config.bg.starts_with('#') && config.bg.len() == 7);
    assert_eq!(config.bg, config.bg.to_lowercase());
    assert!(apply(&config, &mut colors).is_ok());
    let again = current_config(&colors);
    assert_eq!(again.bg, config.bg);
    assert_eq!(again.dialog_border, config.dialog_border);
}

#[test]
fn chart_columns_are_found_or_the_first_problem_is_named() {
    let cols = vec!["DAY".to_string(), "TOTAL".to_string(), "REGION".to_string(), "DAY".to_string()];
    let mut config = ChartConfig::default();
    assert!(matches!(chart_columns(&cols, &config), Err(e) if e == "No X column selected"));
    config.x_column = Some("DAY".into());
    assert!(matches!(chart_columns(&cols, &config), Err(e) if e == "No Y column selected"));
    config.y_column = Some("AMOUNT".into());
    assert!(matches!(chart_columns(&cols, &config),
        Err(e) if e == "Column \"AMOUNT\" not found in query results. Edit chart settings to fix."));
    config.y_column = Some("TOTAL".into());
    config.group_by = Some("CITY".into());
    assert!(matches!(chart_columns(&cols, &config), Err(e) if e == "Group By column \"CITY\" not found in query results."));
    config.group_by = Some("REGION".into());
    let c = chart_columns(&cols, &config).expect("all columns exist");
    assert_eq!((c.x, c.y, c.group), (0, 1, Some(2)));
}

#[test]
fn hex_input_is_trimmed_of_unicode_white_space() {
    assert_eq!(ThemeEditorPane::normalize_hex("  \u{3000}#ABCDEF\t\n"), "#abcdef");
    assert_eq!(ThemeEditorPane::normalize_hex("\u{a0}abc123 "), "#abc123");
}

#[test]
fn results_columns_fit_the_width() {
    let mut q = QueryPaneState::new(true);
    let result = QueryResult {
        columns: vec!["ID".into(), "A_LONG_HEADER_NAME".into(), "X".into()],
        rows: vec![vec![
            JsonValue::Number(JsonNumber { text: "1".into(), as_i64: Some(1) }),
            JsonValue::String("v".into()),
            JsonValue::String("a text of more than forty characters, long enough".into()),
        ]],
        row_count: 1,
        elapsed_ms: 1,
    };
    q.update(Action::QueryResultData(result));
    assert_eq!(q.results.shown_column_widths(200), vec![4, 18, 40]);
    assert_eq!(q.results.shown_column_widths(23), vec![4, 18]);
    assert_eq!(q.results.shown_column_widths(2), vec![4]);
    q.results.scroll_col = 2;
    assert_eq!(q.results.shown_column_widths(200), vec![40]);
}

#[test]
fn confirming_a_deletion_removes_the_chart_shown() {
    let mut q = results_pane();
    for _ in 0..3 {
        q.handle_key(ctrl('n'), true);
    }
    q.handle_key(key(KeyCode::Char('2')), true);
    assert_eq!(q.bottom_tab, BottomTab::Chart(1));
    q.handle_key(key(KeyCode::Char('D')), true);
    assert!(q.delete_confirm);
    q.handle_key(key(KeyCode::Char('y')), true);
    assert!(!q.delete_confirm);
    let labels: Vec<&str> = q.chart_tabs.iter().map(|t| t.label.as_str()).collect();
    assert_eq!(labels, vec!["Chart 1", "Chart 3"]);
    assert_eq!(q.bottom_tab, BottomTab::Chart(1));
    q.handle_key(key(KeyCode::Char('D')), true);
    q.handle_key(key(KeyCode::Char('y')), true);
    assert_eq!(q.bottom_tab, BottomTab::Chart(0));
    assert_eq!(q.chart_tabs.len(), 1);
}

#[test]
fn title_edit_and_history_take_the_keys() {
    let mut q = results_pane();
    q.handle_key(ctrl('n'), true);
    q.handle_key(ctrl('e'), true);
    q.handle_key(key(KeyCode::Backspace), true);
    q.handle_key(key(KeyCode::Char('X')), true);
    assert!(matches!(q.handle_key(key(KeyCode::Enter), true), QueryKeyOutcome::Handled(Some(Action::Render))));
    assert_eq!(q.chart_tabs[0].label, "Chart X");
    assert!(q.title_edit.is_none());
    q.update(Action::SetQueryHistory(vec![]));
    q.update(Action::ShowQueryHistory);
    assert!(q.history.visible);
    assert!(matches!(q.handle_key(key(KeyCode::Esc), true), QueryKeyOutcome::Handled(Some(Action::Render))));
    assert!(!q.history.visible);
    assert_eq!(q.chart_tabs[0].label, "Chart X");
}

#[test]
fn loading_a_saved_query_restores_its_charts_and_tasks_start_running() {
    let mut app = App::new(true);
    app.query.update(Action::QueryResultData(rows(2)));
    app.query.create_new_chart_tab();
    app.save_editor_query("SELECT 1".into(), 1);
    dispatch(&mut app, Action::NewQuery);
    assert!(app.query.chart_tabs.is_empty());
    dispatch(&mut app, Action::LoadSavedQuery { id: 1, sql: "SELECT 1".into() });
    assert_eq!(app.query.chart_tabs.len(), 1);
    assert_eq!(app.query.chart_tabs[0].label, "Chart 1");
    assert!(app.query.chart_tabs[0].settings_hidden);
    dispatch(&mut app, Action::LoadSavedQuery { id: 9, sql: "SELECT 9".into() });
    assert_eq!(app.query.chart_tabs.len(), 1);
    dispatch(&mut app, Action::CreateTask { source: "Query Execution".into(), name: "Execute: x".into() });
    let t = &app.task_manager.tasks()[0];
    assert_eq!(t.status, subzero::tasks::TaskStatus::Running);
    assert_eq!(t.name, "Execute: x");
}
