use subzero::action::Action;
use subzero::detail::{DetailPanel, DetailTab};
use subzero::explore::{ExploreKeyOutcome, ExploreState};
use subzero::json::{JsonNumber, JsonValue};
use subzero::keys::{KeyCode, KeyEvent};
use subzero::nav::ExploreFocus;
use subzero::parser::{Column, Database, QueryResult, Schema, Table};
use subzero::preview_tab::PreviewTab;
use subzero::search::FuzzySearch;
use subzero::columns_tab::ColumnsTab;
use subzero::tree::{after_tree_move, catalog_tree, selected_table, tree_key, CatalogTree, TreeKey, TreeMove};

fn key(code: KeyCode) -> KeyEvent {
    KeyEvent::plain(code)
}

fn table(db: &str, schema: &str, name: &str, kind: &str) -> Table {
    Table {
        name: name.into(),
        database: db.into(),
        schema: schema.into(),
        kind: kind.into(),
        row_count: None,
        bytes: None,
        created: None,
        clustering_key: None,
        auto_clustering: None,
        comment: None,
        owner: None,
    }
}

fn schema(db: &str, name: &str) -> Schema {
    Schema { name: name.into(), database: db.into() }
}

fn path(parts: &[&str]) -> Vec<String> {
    parts.iter().map(|p| p.to_string()).collect()
}

fn result(cols: usize, rows: usize) -> QueryResult {
    let columns = (0..cols).map(|i| format!("C{i}")).collect();
    let rows = (0..rows)
        .map(|r| (0..cols).map(|_| JsonValue::Number(JsonNumber { text: r.to_string(), as_i64: Some(r as i64) })).collect())
        .collect();
    QueryResult { columns, rows, row_count: 0, elapsed_ms: 0 }
}

#[test]
fn tree_groups_tables_and_views_per_schema() {
    let dbs = vec![Database { name: "DB".into() }];
    let schemas = vec![schema("DB", "A"), schema("OTHER", "X"), schema("DB", "B")];
    let tables = vec![
        table("DB", "A", "T1", "TABLE"),
        table("DB", "A", "V1", "view"),
        table("DB", "B", "T2", "TABLE"),
        table("DB", "A", "T3", "TABLE"),
    ];
    let tree = catalog_tree(&dbs, &schemas, &tables);
    assert_eq!(tree.len(), 1);
    assert_eq!(tree[0].id, "DB");
    let a = &tree[0].schemas[0];
    assert_eq!(a.id, "DB.A");
    assert_eq!(a.groups.len(), 2);
    assert_eq!(a.groups[0].id, "DB.A.~tables");
    assert!(!a.groups[0].views);
    let leaves: Vec<_> = a.groups[0].leaves.iter().map(|l| l.id.clone()).collect();
    assert_eq!(leaves, vec!["DB.A.T1", "DB.A.T3"]);
    assert_eq!(a.groups[1].id, "DB.A.~views");
    assert_eq!(a.groups[1].leaves[0].label, "V1");
    let b = &tree[0].schemas[1];
    assert_eq!(b.label, "B");
    assert_eq!(b.groups.len(), 1);
}

#[test]
fn single_groups_open_once() {
    let mut t = CatalogTree::new();
    t.set_catalog(
        vec![Database { name: "DB".into() }],
        vec![schema("DB", "A"), schema("DB", "B")],
        vec![table("DB", "A", "T1", "TABLE"), table("DB", "A", "V1", "VIEW"), table("DB", "B", "T2", "TABLE")],
        None,
        5,
    );
    assert_eq!(t.last_refreshed, Some(5));
    let (_, open) = t.build_tree_items();
    assert_eq!(open, vec![path(&["DB", "DB.B", "DB.B.~tables"])]);
    let (_, again) = t.build_tree_items();
    assert!(again.is_empty());
}

#[test]
fn selection_paths_name_tables() {
    let p = path(&["DB", "DB.S", "DB.S.~tables", "DB.S.MY.TABLE"]);
    assert_eq!(selected_table(&p), Some(("DB".into(), "S".into(), "MY.TABLE".into())));
    assert_eq!(selected_table(&path(&["DB", "DB.S"])), None);
    assert_eq!(selected_table(&path(&["DB", "DB.S", "g", "nodots"])), None);
    assert!(matches!(
        after_tree_move(TreeMove::Down, &p),
        Action::LoadColumns { ref table, .. } if table == "MY.TABLE"
    ));
    assert!(matches!(after_tree_move(TreeMove::Left, &p), Action::Render));
    assert!(matches!(after_tree_move(TreeMove::Up, &path(&["DB"])), Action::Render));
}

#[test]
fn tree_keys() {
    assert_eq!(tree_key(key(KeyCode::Char('j'))), TreeKey::Move(TreeMove::Down));
    assert_eq!(tree_key(key(KeyCode::Enter)), TreeKey::Move(TreeMove::Toggle));
    assert_eq!(tree_key(key(KeyCode::Char('R'))), TreeKey::Refresh);
    assert_eq!(tree_key(key(KeyCode::Char('x'))), TreeKey::Ignore);
}

#[test]
fn database_catalog_replaces_only_that_database() {
    let mut t = CatalogTree::new();
    t.set_catalog(
        vec![Database { name: "A".into() }, Database { name: "B".into() }],
        vec![schema("A", "S1"), schema("B", "S2")],
        vec![table("A", "S1", "T", "TABLE"), table("B", "S2", "U", "TABLE")],
        Some(1),
        2,
    );
    let r = t.update(
        Action::DatabaseCatalogLoaded { db: "A".into(), schemas: vec![schema("A", "NEW")], tables: vec![] },
        99,
    );
    assert!(matches!(r, Some(Action::Render)));
    let names: Vec<_> = t.schemas.iter().map(|s| s.name.clone()).collect();
    assert_eq!(names, vec!["S2", "NEW"]);
    assert_eq!(t.tables.len(), 1);
    assert_eq!(t.tables[0].name, "U");
    assert_eq!(t.last_refreshed, Some(99));
    assert!(t.find_table("B", "S2", "U").is_some());
    assert!(t.find_table("A", "S1", "T").is_none());
    assert!(t.update(Action::Quit, 0).is_none());
}

#[test]
fn refresh_status_words() {
    let mut t = CatalogTree::new();
    assert_eq!(t.refresh_status(0), "Not yet loaded");
    t.set_catalog(vec![], vec![], vec![], Some(0), 0);
    assert_eq!(t.refresh_status(3 * 60_000), "Refreshed: 3 mins ago");
}

#[test]
fn preview_scrolls_and_reports_columns() {
    let mut p = PreviewTab::new();
    assert_eq!(p.status_text(), "");
    assert!(p.handle_key(key(KeyCode::Down)).is_none());
    let mut r = result(10, 3);
    r.row_count = 3;
    p.set_result(r);
    assert_eq!(p.status_text(), " 3 rows | cols 1-8 of 10 (h/l to scroll) | Enter: Row Detail");
    p.handle_key(key(KeyCode::Char('l')));
    p.handle_key(key(KeyCode::Char('l')));
    p.handle_key(key(KeyCode::Char('l')));
    assert_eq!(p.col_offset, 2);
    assert_eq!(p.status_text(), " 3 rows | cols 3-10 of 10 (h/l to scroll) | Enter: Row Detail");
    p.handle_key(key(KeyCode::Down));
    p.handle_key(key(KeyCode::Down));
    p.handle_key(key(KeyCode::Down));
    assert_eq!(p.selected_row, 2);
    p.handle_key(key(KeyCode::Enter));
    assert!(p.row_detail.visible);
    let mut small = result(2, 1);
    small.row_count = 1;
    p.set_result(small);
    assert_eq!(p.status_text(), " 1 rows | 2 columns | Enter: Row Detail");
}

#[test]
fn preview_knows_which_table_it_shows() {
    let mut p = PreviewTab::new();
    p.set_previewed_table("DB", "S", "T");
    assert!(!p.has_data_for("DB", "S", "T"));
    p.set_result(result(1, 1));
    assert!(p.has_data_for("DB", "S", "T"));
    assert!(!p.has_data_for("DB", "S", "U"));
}

#[test]
fn detail_panel_tabs_and_loads() {
    let mut d = DetailPanel::new();
    assert!(matches!(d.handle_key(key(KeyCode::Char('R'))), None));
    d.set_breadcrumb("DB", "S", "T");
    assert!(matches!(d.handle_key(key(KeyCode::Char('R'))), Some(Action::RefreshColumns { .. })));
    match d.handle_key(key(KeyCode::Char('p'))) {
        Some(Action::LoadPreview { db, schema, table }) => {
            assert_eq!((db.as_str(), schema.as_str(), table.as_str()), ("DB", "S", "T"))
        },
        _ => panic!("expected a preview load"),
    }
    assert_eq!(d.active_tab, DetailTab::Preview);
    let r = d.update(Action::PreviewLoaded { db: "DB".into(), schema: "S".into(), table: "T".into(), result: result(1, 1) });
    assert!(matches!(r, Some(Action::Render)));
    assert!(matches!(d.handle_key(key(KeyCode::Char('2'))), Some(Action::Render)));
    assert!(matches!(d.handle_key(key(KeyCode::Char('c'))), Some(Action::Render)));
    assert_eq!(d.active_tab, DetailTab::Columns);
    let cols = vec![Column { name: "ID".into(), data_type: "NUMBER".into(), nullable: false }];
    d.update(Action::ColumnsLoaded { db: "DB".into(), schema: "S".into(), table: "T".into(), columns: cols });
    assert_eq!(d.columns_tab.columns.len(), 1);
    assert!(matches!(d.handle_key(key(KeyCode::Char('/'))), Some(Action::Render)));
    assert!(d.columns_tab.search_active());
    d.handle_key(key(KeyCode::Char('p')));
    assert_eq!(d.active_tab, DetailTab::Columns);
    assert_eq!(d.columns_tab.search_query, "p");
    d.update(Action::ColumnsError { db: "DB".into(), schema: "S".into(), table: "T".into(), error: "boom".into() });
    assert_eq!(d.columns_tab.error.as_deref(), Some("boom"));
}

#[test]
fn explore_ignores_replies_for_other_tables() {
    let mut e = ExploreState::new();
    let selected = path(&["DB", "DB.S", "DB.S.~tables", "DB.S.T"]);
    let cols = vec![Column { name: "ID".into(), data_type: "NUMBER".into(), nullable: false }];
    let stale = Action::ColumnsLoaded { db: "DB".into(), schema: "S".into(), table: "OTHER".into(), columns: vec![] };
    assert!(e.update(stale, &selected, 0).is_none());
    let fresh = Action::ColumnsLoaded { db: "DB".into(), schema: "S".into(), table: "T".into(), columns: cols };
    assert!(matches!(e.update(fresh, &selected, 0), Some(Action::Render)));
    assert_eq!(e.detail.columns_tab.columns.len(), 1);
    assert_eq!(e.detail.breadcrumb, Some(("DB".into(), "S".into(), "T".into())));
}

#[test]
fn explore_search_leads_to_a_table() {
    let mut e = ExploreState::new();
    e.update(
        Action::CatalogLoaded(
            vec![Database { name: "DB".into() }],
            vec![schema("DB", "S")],
            vec![table("DB", "S", "ORDERS", "TABLE")],
            Some(0),
        ),
        &Vec::new(),
        0,
    );
    assert!(e.catalog_loaded);
    assert!(matches!(e.handle_key(key(KeyCode::Char('/'))), ExploreKeyOutcome::Done(Some(Action::Render))));
    for c in "orders".chars() {
        e.handle_key(key(KeyCode::Char(c)));
    }
    match e.handle_key(key(KeyCode::Enter)) {
        ExploreKeyOutcome::Navigate(nav, Action::LoadColumns { table, .. }) => {
            assert_eq!(table, "ORDERS");
            assert_eq!(nav.open, vec![path(&["DB"]), path(&["DB", "DB.S"]), path(&["DB", "DB.S", "DB.S.~tables"])]);
            assert_eq!(nav.select, path(&["DB", "DB.S", "DB.S.~tables", "DB.S.ORDERS"]));
        },
        _ => panic!("expected navigation to the table"),
    }
    assert!(!e.search.active);
    assert_eq!(e.detail.breadcrumb, Some(("DB".into(), "S".into(), "ORDERS".into())));
}

#[test]
fn explore_keys_reach_the_tree_or_are_left() {
    let mut e = ExploreState::new();
    assert!(matches!(e.handle_key(key(KeyCode::Down)), ExploreKeyOutcome::Tree(TreeMove::Down)));
    assert!(matches!(e.handle_key(key(KeyCode::Char('R'))), ExploreKeyOutcome::Done(Some(Action::RefreshCatalog))));
    assert!(matches!(e.handle_key(key(KeyCode::Esc)), ExploreKeyOutcome::Done(None)));
    e.focus = ExploreFocus::Detail;
    assert!(matches!(e.handle_key(key(KeyCode::Char('c'))), ExploreKeyOutcome::Done(Some(Action::Render))));
}

#[test]
fn search_marks_views_whatever_the_case_of_their_kind() {
    let mut search = FuzzySearch::new();
    let dbs = vec![Database { name: "DB".into() }];
    let schemas = vec![schema("DB", "S")];
    let tables = vec![table("DB", "S", "T1", "view"), table("DB", "S", "T2", "TABLE"), table("DB", "S", "T3", "View")];
    search.rebuild_entries(&dbs, &schemas, &tables);
    let shown: Vec<&str> = search.entries.iter().map(|e| e.display.as_str()).collect();
    assert_eq!(shown, vec!["DB", "DB / S", "DB / S / T1 (V)", "DB / S / T2", "DB / S / T3 (V)"]);
}

#[test]
fn column_search_ignores_unicode_case() {
    let mut tab = ColumnsTab::new();
    let col = |n: &str| Column { name: n.into(), data_type: "TEXT".into(), nullable: true };
    tab.set_columns(vec![col("ÀÉ_NAME"), col("OTHER"), col("MyTable_1")]);
    tab.activate_search();
    for c in "àé".chars() {
        tab.handle_key(key(KeyCode::Char(c)));
    }
    assert_eq!(tab.filtered_indices, vec![0]);
    tab.deactivate_search();
    tab.activate_search();
    for c in "MYTABLE".chars() {
        tab.handle_key(key(KeyCode::Char(c)));
    }
    assert_eq!(tab.filtered_indices, vec![2]);
}
