use subzero::action::Action;
use subzero::app_state::{App, KeyRoute};
use subzero::editor::{editor_key, is_normal_mode, run_query_action, EditorKeyOutcome, EditorLifecycle, NvimStatus};
use subzero::json::{JsonNumber, JsonValue};
use subzero::keys::{KeyCode, KeyEvent, KeyModifiers};
use subzero::nav::{ExploreFocus, Focus, Mode};
use subzero::parser::QueryResult;
use subzero::query_pane::{BottomTab, QueryFocus, QueryPaneState};
use subzero::settings::SettingsFocus;
use subzero::store::QueryHistoryEntry;
use subzero::tasks::{BackgroundTaskManager, TaskStatus};
use subzero::theme::ThemeConfig;
use subzero::workflow::{
    catalog_task_name, column_refresh_task_name, execute_task_name, format_relative_time, keeps_cache_file, plural,
    preview_query, refresh_parallelism, table_cache_key,
};

fn key(code: KeyCode) -> KeyEvent {
    KeyEvent::plain(code)
}

fn ctrl(c: char) -> KeyEvent {
    KeyEvent::new(KeyCode::Char(c), KeyModifiers::control_only())
}

fn dispatch(app: &mut App, action: Action) -> Option<Action> {
    app.dispatch(action, &Vec::new(), 0, 0, ThemeConfig::default())
}

fn one_row() -> QueryResult {
    QueryResult {
        columns: vec!["N".into()],
        rows: vec![vec![JsonValue::Number(JsonNumber { text: "1".into(), as_i64: Some(1) })]],
        row_count: 1,
        elapsed_ms: 3,
    }
}

#[test]
fn keys_route_by_overlay_shortcut_and_focus() {
    let mut app = App::new(true);
    assert_eq!(app.route_key(key(KeyCode::Char('q'))), KeyRoute::TopBar);
    assert_eq!(app.route_key(key(KeyCode::Enter)), KeyRoute::ToContent);
    assert_eq!(app.route_key(key(KeyCode::Tab)), KeyRoute::TabFromTopBar);
    assert_eq!(app.route_key(ctrl('d')), KeyRoute::ShowQuitDialog);
    assert_eq!(app.route_key(ctrl('b')), KeyRoute::ToggleBackgroundTasks);
    assert_eq!(app.route_key(ctrl('l')), KeyRoute::TopBar);
    app.tab_from_top_bar();
    assert_eq!(app.focus, Focus::ModeContent);
    assert_eq!(app.route_key(key(KeyCode::Esc)), KeyRoute::EscInContent);
    assert_eq!(app.route_key(key(KeyCode::Char('x'))), KeyRoute::Component);
    dispatch(&mut app, Action::ShowQuitDialog);
    assert_eq!(app.route_key(ctrl('b')), KeyRoute::QuitDialog);
}

#[test]
fn tab_walks_the_sub_panes_and_returns_to_the_top_bar() {
    let mut app = App::new(true);
    dispatch(&mut app, Action::SwitchMode(Mode::Settings));
    assert_eq!(app.mode, Mode::Settings);
    assert_eq!(app.focus, Focus::ModeContent);
    assert_eq!(app.settings.focus, SettingsFocus::Connection);
    app.tab_unconsumed();
    assert_eq!(app.settings.focus, SettingsFocus::Cache);
    app.tab_unconsumed();
    assert_eq!(app.settings.focus, SettingsFocus::Theme);
    app.tab_unconsumed();
    assert_eq!(app.focus, Focus::TopBar);
    assert!(app.top_bar.focused);
    app.back_tab();
    assert_eq!(app.focus, Focus::ModeContent);
    assert_eq!(app.settings.focus, SettingsFocus::Theme);
    app.back_tab();
    app.back_tab();
    assert_eq!(app.settings.focus, SettingsFocus::Connection);
    app.back_tab();
    assert_eq!(app.focus, Focus::TopBar);
}

#[test]
fn advance_then_retreat_returns_to_the_same_pane() {
    let mut app = App::new(true);
    dispatch(&mut app, Action::SwitchMode(Mode::Explore));
    assert!(app.advance_subpane());
    assert_eq!(app.explore.focus, ExploreFocus::Detail);
    assert!(!app.advance_subpane());
    assert!(app.retreat_subpane());
    assert_eq!(app.explore.focus, ExploreFocus::Tree);
}

#[test]
fn overlays_close_each_other() {
    let mut app = App::new(true);
    dispatch(&mut app, Action::ToggleSavedQueries);
    assert!(app.saved_queries_pane.visible);
    dispatch(&mut app, Action::ToggleBackgroundTasks);
    assert!(app.background_tasks_pane.visible);
    assert!(!app.saved_queries_pane.visible);
    dispatch(&mut app, Action::ToggleBackgroundTasks);
    assert!(!app.background_tasks_pane.visible);
}

#[test]
fn refresh_tasks_show_progress() {
    let mut app = App::new(true);
    dispatch(&mut app, Action::CreateTask { source: "Catalog Refresh".into(), name: "a".into() });
    dispatch(&mut app, Action::CreateTask { source: "Catalog Refresh".into(), name: "b".into() });
    dispatch(&mut app, Action::CreateTask { source: "Query".into(), name: "q".into() });
    assert_eq!(app.explore.tree.refresh_running, 2);
    assert_eq!(app.settings.refresh_total, 2);
    dispatch(&mut app, Action::CompleteTask(1));
    assert_eq!(app.explore.tree.refresh_running, 1);
    assert_eq!(app.explore.tree.refresh_total, 1);
}

#[test]
fn quitting_and_heartbeat() {
    let mut app = App::new(true);
    assert!(dispatch(&mut app, Action::HeartbeatResult(false)).is_some());
    assert_eq!(app.connected, Some(false));
    assert!(dispatch(&mut app, Action::Quit).is_none());
    assert!(!app.running);
}

#[test]
fn input_output_actions_go_back_to_the_caller() {
    let mut app = App::new(true);
    assert!(matches!(dispatch(&mut app, Action::ExecuteQuery("SELECT 1".into())), Some(Action::ExecuteQuery(q)) if q == "SELECT 1"));
    assert!(matches!(dispatch(&mut app, Action::ClearCache), Some(Action::ClearCache)));
    assert!(dispatch(&mut app, Action::Render).is_none());
}

#[test]
fn new_query_forgets_the_loaded_saved_query() {
    let mut app = App::new(true);
    dispatch(&mut app, Action::LoadSavedQuery { id: 4, sql: "SELECT 4".into() });
    assert_eq!(app.loaded_saved_query_id, Some(4));
    dispatch(&mut app, Action::PersistSavedQueries);
    assert_eq!(app.loaded_saved_query_id, None);
    dispatch(&mut app, Action::LoadSavedQuery { id: 4, sql: "SELECT 4".into() });
    dispatch(&mut app, Action::NewQuery);
    assert_eq!(app.loaded_saved_query_id, None);
}

#[test]
fn query_results_take_the_keyboard() {
    let mut q = QueryPaneState::new(true);
    assert!(matches!(q.update(Action::ExecuteQuery("x".into())), Some(Action::ExecuteQuery(_))));
    assert_eq!(q.bottom_tab, BottomTab::Results);
    assert!(matches!(q.update(Action::QueryResultData(one_row())), Some(Action::Render)));
    assert_eq!(q.focus, QueryFocus::Results);
    assert!(q.results.result.is_some());
    q.update(Action::QueryError("bad".into()));
    assert!(q.results.result.is_none());
    let entry = QueryHistoryEntry { sql: "SELECT 1".into(), executed_at: 1, row_count: Some(1), elapsed_ms: None, error: None };
    assert!(q.update(Action::SetQueryHistory(vec![entry])).is_none());
    assert!(matches!(q.update(Action::ShowQueryHistory), Some(Action::Render)));
    assert!(q.history.visible);
    assert_eq!(q.history.entries[0].sql, "SELECT 1");
    assert!(q.create_new_chart_tab());
    assert!(matches!(q.update(Action::NewQuery), Some(Action::NewQuery)));
    assert!(q.chart_tabs.is_empty());
    assert_eq!(q.focus, QueryFocus::Editor);
}

#[test]
fn editor_keys() {
    let k = ctrl('r');
    assert!(matches!(editor_key(k, true, true), EditorKeyOutcome::RunQuery));
    assert!(matches!(editor_key(k, false, true), EditorKeyOutcome::Ignored));
    assert!(matches!(editor_key(key(KeyCode::Tab), true, true), EditorKeyOutcome::Ignored));
    assert!(matches!(editor_key(key(KeyCode::Tab), true, false), EditorKeyOutcome::Forward));
    assert!(matches!(editor_key(ctrl('n'), true, false), EditorKeyOutcome::Forward));
    assert!(matches!(editor_key(ctrl('n'), true, true), EditorKeyOutcome::Act(Action::NewQuery)));
    assert!(matches!(run_query_action(String::new()), Action::StatusMessage(m) if m == "No SQL to execute"));
    assert!(is_normal_mode(false, Some("i"), ""));
    assert!(is_normal_mode(true, Some("n"), ""));
    assert!(!is_normal_mode(true, None, "-- INSERT --"));
}

#[test]
fn editor_gives_up_after_quick_crashes() {
    let mut e = EditorLifecycle::new();
    for t in [0u64, 100, 200] {
        e.record_spawn(t);
        e.handle_nvim_exited(t + 10);
    }
    assert!(matches!(e.status, NvimStatus::Exited(ref m) if m == "nvim crashed too many times -- switch away and back to retry"));
    e.reset_spawn_counter();
    assert_eq!(e.spawn_attempts, 0);
    e.record_spawn(10_000);
    e.handle_nvim_exited(20_000);
    assert!(matches!(e.status, NvimStatus::NotStarted));
}

#[test]
fn tasks_complete_and_count() {
    let mut m = BackgroundTaskManager::new();
    let a = m.create_task("Catalog Refresh", "db1", 10);
    let b = m.create_task("Catalog Refresh", "db2", 11);
    assert_eq!((a, b), (1, 2));
    m.start_task(a);
    assert_eq!(m.running_count("Catalog Refresh"), 1);
    assert_eq!(m.pending_or_running_count("Catalog Refresh"), 2);
    assert_eq!(m.find_running_task("Catalog Refresh", "db2"), Some(2));
    m.complete_task(a, 20);
    assert_eq!(m.tasks()[0].status, TaskStatus::Complete);
    assert_eq!(m.tasks()[0].completed_at, Some(20));
}

#[test]
fn completed_tasks_are_pruned_to_two_hundred() {
    let mut m = BackgroundTaskManager::new();
    for i in 0..205 {
        let id = m.create_task("S", &format!("t{i}"), i);
        m.complete_task(id, i);
    }
    assert_eq!(m.tasks().len(), 200);
    assert_eq!(m.tasks()[0].name, "t5");
}

#[test]
fn task_names_and_statements() {
    assert_eq!(execute_task_name("SELECT 1"), "Execute: SELECT 1");
    let long = "x".repeat(60);
    assert_eq!(execute_task_name(&long), format!("Execute: {}", "x".repeat(50)));
    assert_eq!(table_cache_key("D", "S", "T"), "D.S.T");
    assert_eq!(column_refresh_task_name("D", "S", "T"), "Refresh columns for D.S.T");
    assert_eq!(catalog_task_name("D"), "Refresh data for catalog = D");
    assert_eq!(preview_query("D", "S", "T"), "SELECT * FROM \"D\".\"S\".\"T\" LIMIT 100");
    assert!(keeps_cache_file("saved_queries.bin"));
    assert!(!keeps_cache_file("catalog_prod.bin"));
    assert_eq!(refresh_parallelism(4), 10);
    assert_eq!(refresh_parallelism(0), 1);
    assert_eq!(plural(1, "day"), "1 day");
    assert_eq!(plural(2, "day"), "2 days");
}

#[test]
fn relative_times() {
    let min = 60_000i64;
    let day = 86_400_000i64;
    assert_eq!(format_relative_time(0, 59_999), "just now");
    assert_eq!(format_relative_time(0, 1 * min), "1 min ago");
    assert_eq!(format_relative_time(0, 125 * min), "2h 5m ago");
    assert_eq!(format_relative_time(0, 3 * day), "3 days ago");
    assert_eq!(format_relative_time(0, 45 * day), "6 weeks ago");
    assert_eq!(format_relative_time(0, 100 * day), "3 months ago");
    assert_eq!(format_relative_time(0, 400 * day), "1y 1mo ago");
    assert_eq!(format_relative_time(10, 0), "just now");
}
