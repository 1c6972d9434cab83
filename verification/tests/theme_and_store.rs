use subzero::chart::ChartTab;
use subzero::config::{
    catalog_query, connection_names, default_connection_name, describe_table_query, resolve_connection,
    sort_names, ConnectionConfig, SnowflakeConfig, SnowflakeConnection, AppConfig,
};
use subzero::parser::Column;
use subzero::store::{conn_key, push_history_entry, save_query, CacheState, CatalogCache, QueryHistoryEntry, SaveOutcome, SavedQuery, MAX_HISTORY};
use subzero::theme::{apply, color_to_hex, current_config, default_colors, load, parse_hex, Color, ThemeConfig};
use subzero::theme_editor::ThemeEditorPane;

#[test]
fn hex_colours_parse_with_or_without_hash() {
    assert_eq!(parse_hex("#282828"), Some(Color::Rgb(0x28, 0x28, 0x28)));
    assert_eq!(parse_hex("FB4934"), Some(Color::Rgb(0xfb, 0x49, 0x34)));
    assert_eq!(parse_hex("#12345"), None);
    assert_eq!(parse_hex("#12345g"), None);
    assert_eq!(parse_hex(""), None);
}

#[test]
fn colours_print_as_lowercase_hex() {
    assert_eq!(color_to_hex(Color::Rgb(0xab, 0x01, 0xff)), Some("#ab01ff".to_string()));
    assert_eq!(color_to_hex(Color::Other), None);
}

#[test]
fn hex_round_trip() {
    let c = Color::Rgb(18, 52, 86);
    let text = color_to_hex(c).unwrap();
    assert_eq!(parse_hex(&text), Some(c));
}

#[test]
fn default_theme_is_the_dark_one() {
    let colors = default_colors();
    assert_eq!(colors.bg, Color::Rgb(0x28, 0x28, 0x28));
    assert_eq!(colors.red, Color::Rgb(0xfb, 0x49, 0x34));
    let config = current_config(&colors);
    assert_eq!(config.accent, "#83a598");
    assert_eq!(config.dialog_bg, "#32302f");
}

#[test]
fn invalid_theme_falls_back_to_default() {
    let mut bad = ThemeConfig::default();
    bad.fg = "not a colour".to_string();
    let colors = load(Some(bad));
    assert_eq!(colors.fg, Color::Rgb(0xd5, 0xc4, 0xa1));
    assert_eq!(load(None).fg, Color::Rgb(0xd5, 0xc4, 0xa1));
}

#[test]
fn applying_an_invalid_theme_names_the_field_and_changes_nothing() {
    let mut colors = default_colors();
    let mut config = ThemeConfig::default();
    config.green = "#00ff00".to_string();
    config.yellow = "zzz".to_string();
    let err = apply(&config, &mut colors).unwrap_err();
    assert_eq!(err, "Invalid yellow: zzz");
    assert_eq!(colors.green, Color::Rgb(0xb8, 0xbb, 0x26));
    config.yellow = "#010203".to_string();
    assert!(apply(&config, &mut colors).is_ok());
    assert_eq!(colors.green, Color::Rgb(0, 0xff, 0));
    assert_eq!(colors.yellow, Color::Rgb(1, 2, 3));
}

#[test]
fn hex_input_is_trimmed_lowercased_and_hashed() {
    assert_eq!(ThemeEditorPane::normalize_hex("  AbCdEf "), "#abcdef");
    assert_eq!(ThemeEditorPane::normalize_hex("#FFFFFF"), "#ffffff");
}

fn entry(sql: &str) -> QueryHistoryEntry {
    QueryHistoryEntry { sql: sql.to_string(), executed_at: 0, row_count: None, elapsed_ms: None, error: None }
}

#[test]
fn history_keeps_the_newest_thousand_first() {
    let mut history = Vec::new();
    for i in 0..(MAX_HISTORY + 5) {
        push_history_entry(&mut history, entry(&format!("q{i}")));
    }
    assert_eq!(history.len(), MAX_HISTORY);
    assert_eq!(history[0].sql, format!("q{}", MAX_HISTORY + 4));
    assert_eq!(history[MAX_HISTORY - 1].sql, "q5");
}

#[test]
fn connection_keys() {
    assert_eq!(conn_key(&None), "_default");
    assert_eq!(conn_key(&Some("prod".to_string())), "prod");
}

fn col(name: &str) -> Column {
    Column { name: name.to_string(), data_type: "NUMBER".to_string(), nullable: true }
}

#[test]
fn columns_read_back_after_update() {
    let mut state = CacheState::new(&None);
    assert!(state.get_columns("DB.S.T").is_none());
    let write = state.update_columns("DB.S.T", vec![col("A"), col("B")], 1000, 10);
    assert!(write);
    let got = state.get_columns("DB.S.T").unwrap();
    assert_eq!(got.len(), 2);
    assert_eq!(got[1].name, "B");
    state.mark_disk_written(10);
    assert!(!state.update_columns("DB.S.U", vec![col("C")], 1001, 500));
    assert!(state.update_columns("DB.S.U", vec![col("C")], 1002, 2010));
}

#[test]
fn switching_connection_changes_generation_and_empties_catalog() {
    let mut state = CacheState::new(&Some("a".to_string()));
    assert_eq!(state.generation(), 0);
    state.update_columns("X.Y.Z", vec![col("A")], 1, 1);
    let g = state.switch_connection(&Some("b".to_string()));
    assert_eq!(g, 1);
    assert_eq!(state.active_conn_key(), "b");
    assert!(state.get_columns("X.Y.Z").is_none());
}

#[test]
fn stale_catalog_save_is_ignored() {
    let mut state = CacheState::new(&Some("a".to_string()));
    state.switch_connection(&Some("b".to_string()));
    let mut old = CatalogCache::empty();
    old.updated_at = Some(5);
    assert!(!state.apply_saved_catalog(old, "a"));
    assert_eq!(state.catalog.updated_at, None);
    let mut fresh = CatalogCache::empty();
    fresh.updated_at = Some(7);
    assert!(state.apply_saved_catalog(fresh, "b"));
    assert_eq!(state.catalog.updated_at, Some(7));
}

#[test]
fn saving_a_new_query_numbers_it() {
    let mut queries: Vec<SavedQuery> = Vec::new();
    let out = save_query(&mut queries, None, "SELECT 1".to_string(), vec![ChartTab::new(1)], 100);
    assert!(matches!(out, SaveOutcome::Added(1)));
    let out = save_query(&mut queries, None, "SELECT 2".to_string(), Vec::new(), 200);
    assert!(matches!(out, SaveOutcome::Added(2)));
    assert_eq!(queries[1].title, "Query 2");
    let out = save_query(&mut queries, Some(1), "SELECT 3".to_string(), Vec::new(), 300);
    assert!(matches!(out, SaveOutcome::Overwritten(0)));
    assert_eq!(queries[0].sql, "SELECT 3");
    assert_eq!(queries[0].title, "Query 1");
    assert!(queries[0].charts.is_empty());
    let out = save_query(&mut queries, Some(9), "x".to_string(), Vec::new(), 400);
    assert!(matches!(out, SaveOutcome::Missing));
    assert_eq!(queries.len(), 2);
}

fn conn() -> SnowflakeConnection {
    SnowflakeConnection { account: None, user: None, warehouse: None, database: None, role: None, schema: None }
}

#[test]
fn connection_names_are_sorted_and_default_resolved() {
    let config = SnowflakeConfig {
        default_connection_name: None,
        connections: vec![("zeta".to_string(), conn()), ("alpha".to_string(), conn())],
    };
    assert_eq!(connection_names(&config), vec!["zeta".to_string(), "alpha".to_string()]);
    assert_eq!(default_connection_name(&config), Some("alpha".to_string()));
    let names = sort_names(vec!["b".to_string(), "default".to_string(), "a".to_string()]);
    assert_eq!(names, vec!["a".to_string(), "b".to_string(), "default".to_string()]);
    assert_eq!(resolve_connection(None, &names), Some("default".to_string()));
    assert_eq!(resolve_connection(Some("x".to_string()), &names), Some("x".to_string()));
    assert_eq!(resolve_connection(None, &Vec::new()), None);
}

#[test]
fn snow_arguments() {
    let app = AppConfig {
        snowflake: None,
        connection_name: Some("dev".to_string()),
        log_path: String::new(),
        cache_dir: String::new(),
        app_dir: String::new(),
    };
    let c = ConnectionConfig::from_app_config(&app);
    assert_eq!(
        c.query_args("SELECT 1"),
        vec!["sql", "--format", "JSON_EXT", "--silent", "--enhanced-exit-codes", "-c", "dev", "-q", "SELECT 1"]
            .into_iter()
            .map(String::from)
            .collect::<Vec<_>>()
    );
    let none = ConnectionConfig { connection_name: None };
    assert_eq!(none.base_args().len(), 5);
}

#[test]
fn catalog_statements() {
    assert_eq!(describe_table_query("DB", "S", "T"), "DESCRIBE TABLE \"DB\".\"S\".\"T\"");
    let q = catalog_query("DB");
    assert!(q.starts_with("SELECT\n    c.TABLE_CATALOG AS database_name,"));
    assert!(q.contains("FROM \"DB\".INFORMATION_SCHEMA.COLUMNS c\nJOIN \"DB\".INFORMATION_SCHEMA.TABLES t"));
    assert!(q.ends_with("ORDER BY c.TABLE_SCHEMA, c.TABLE_NAME, c.ORDINAL_POSITION"));
}
