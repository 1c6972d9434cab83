//! The explore mode: the catalog tree, the detail panel of the selected
//! table and the search over the catalog. The tree's selection is kept by
//! the tree widget; the caller hands it in as the path of identifiers of
//! the selected node, and carries out the moves and openings that keys
//! and searches ask for.

use vstd::prelude::*;
use crate::action::Action;
use crate::detail::{DetailPanel, DetailTab};
use crate::keys::{KeyCode, KeyEvent};
use crate::nav::ExploreFocus;
use crate::parser::{Database, Schema, Table};
use crate::search::{FuzzySearch, SearchEntryView, entries_view, index_entries};
use crate::text::{str_eq, str_to_string};
use crate::tree::{
    CatalogTree, TreeKey, TreeMove, TreePath, key_meaning, dotted, dotted_id, group_suffix, has_two_dots, schema_views,
    selected_table, splits_into, string_views, table_views, tree_key,
};

verus! {

/// Where a search result leads in the tree: the nodes to open, in order,
/// and the node to select. A database is selected; a schema is opened
/// with its database and selected; a table or view is opened down to its
/// group and selected.
pub open spec fn search_navigation(e: SearchEntryView) -> (Seq<TreePath>, TreePath) {
    let sid = dotted(e.db, e.schema);
    if e.schema.len() == 0 {
        (seq![seq![e.db]], seq![e.db])
    } else {
        match e.table {
            Some(t) => {
                let gid = dotted(sid, group_suffix(e.is_view));
                (seq![seq![e.db], seq![e.db, sid], seq![e.db, sid, gid]], seq![e.db, sid, gid, dotted(sid, t)])
            },
            None => (seq![seq![e.db], seq![e.db, sid]], seq![e.db, sid]),
        }
    }
}

/// Nodes of the tree to open, in order, and the node to select.
pub struct Navigation {
    pub open: Vec<Vec<String>>,
    pub select: Vec<String>,
}

impl View for Navigation {
    type V = (Seq<TreePath>, TreePath);

    open spec fn view(&self) -> (Seq<TreePath>, TreePath) {
        (self.open@.map_values(|p: Vec<String>| string_views(p@)), string_views(self.select@))
    }
}

/// What a key of the explore mode comes to.
pub enum ExploreKeyOutcome {
    /// The key was handled, with this action to carry out.
    Done(Option<Action>),
    /// Move the tree's selection, then see `after_tree_move`.
    Tree(TreeMove),
    /// Carry out the navigation in the tree, then this action.
    Navigate(Navigation, Action),
}

/// The path of the selected node points at `db.schema.table`.
pub open spec fn selection_is(selected: Seq<String>, db: Seq<char>, schema: Seq<char>, table: Seq<char>) -> bool {
    selected.len() == 4 && splits_into(selected[3]@, db, schema, table)
}

/// The explore mode.
pub struct ExploreState {
    pub focus: ExploreFocus,
    pub app_focused: bool,
    pub tree: CatalogTree,
    pub detail: DetailPanel,
    pub search: FuzzySearch,
    pub catalog_loaded: bool,
}

fn one(a: &str) -> (r: Vec<String>)
    ensures
        string_views(r@) == seq![a@],
{
    let mut r: Vec<String> = Vec::new();
    r.push(str_to_string(a));
    assert(string_views(r@) =~= seq![a@]);
    r
}

fn two(a: &str, b: &str) -> (r: Vec<String>)
    ensures
        string_views(r@) == seq![a@, b@],
{
    let mut r = one(a);
    let ghost p = r@;
    r.push(str_to_string(b));
    assert(string_views(r@) =~= string_views(p).push(b@));
    assert(string_views(r@) =~= seq![a@, b@]);
    r
}

fn three(a: &str, b: &str, c: &str) -> (r: Vec<String>)
    ensures
        string_views(r@) == seq![a@, b@, c@],
{
    let mut r = two(a, b);
    let ghost p = r@;
    r.push(str_to_string(c));
    assert(string_views(r@) =~= string_views(p).push(c@));
    assert(string_views(r@) =~= seq![a@, b@, c@]);
    r
}

fn four(a: &str, b: &str, c: &str, d: &str) -> (r: Vec<String>)
    ensures
        string_views(r@) == seq![a@, b@, c@, d@],
{
    let mut r = three(a, b, c);
    let ghost p = r@;
    r.push(str_to_string(d));
    assert(string_views(r@) =~= string_views(p).push(d@));
    assert(string_views(r@) =~= seq![a@, b@, c@, d@]);
    r
}

/// What an action does to the explore mode, given the path of the tree's
/// selected node.
pub open spec fn explore_update_post(pre: ExploreState, post: ExploreState, action: Action, selected: Seq<String>, r: Option<Action>) -> bool {
    &&& post.focus == pre.focus
    &&& match action {
            Action::CatalogLoaded(dbs, schemas, tables, _) => (r matches Some(Action::Render))
                && post.catalog_loaded && post.tree.databases@ == dbs@
                && post.tree.schemas@ == schemas@ && post.tree.tables@ == tables@
                && entries_view(post.search.entries@) == index_entries(
                dbs@.map_values(|d: Database| d@),
                schema_views(schemas@),
                table_views(tables@),
            ),
            Action::DatabasesLoaded(dbs) => (r matches Some(Action::Render)) && post.catalog_loaded
                && post.tree.databases@ == dbs@,
            Action::ObjectsLoaded(schemas, tables) => (r matches Some(Action::Render))
                && post.tree.schemas@ == schemas@ && post.tree.tables@ == tables@
                && entries_view(post.search.entries@) == index_entries(
                pre.tree.databases@.map_values(|d: Database| d@),
                schema_views(schemas@),
                table_views(tables@),
            ),
            Action::CachedColumnsRefreshed => (r matches Some(Action::Render)) && post == pre,
            Action::CatalogError(msg) => (r matches Some(Action::Render)) && (post.tree.error matches Some(e)
                && e@ == msg@),
            Action::ColumnsLoaded { db, schema, table, columns } => if selection_is(selected, db@, schema@, table@) {
                (r matches Some(Action::Render)) && post.detail.columns_tab.columns@ == columns@
                    && post.detail.active_tab == DetailTab::Columns && (post.detail.breadcrumb matches Some(
                    b,
                ) && crate::preview_tab::triple_view(b) == (db@, schema@, table@))
            } else {
                r is None && post == pre
            },
            Action::PreviewLoaded { db, schema, table, result } => if selection_is(selected, db@, schema@, table@) {
                (r matches Some(Action::Render)) && post.detail.preview_tab.result == Some(result)
            } else {
                r is None && post == pre
            },
            Action::ColumnsError { db, schema, table, error } => if selection_is(selected, db@, schema@, table@) {
                (r matches Some(Action::Render)) && (post.detail.columns_tab.error matches Some(e) && e@
                    == error@)
            } else {
                r is None && post == pre
            },
            Action::PreviewError { db, schema, table, error } => if selection_is(selected, db@, schema@, table@) {
                (r matches Some(Action::Render)) && (post.detail.preview_tab.error matches Some(e) && e@
                    == error@)
            } else {
                r is None && post == pre
            },
            _ => r is None && post == pre,
        }
}

impl ExploreState {
    /// The tabs of the detail panel and the search results hold together.
    pub open spec fn wf(&self) -> bool {
        self.detail.wf() && self.search.wf()
    }

    pub fn new() -> (r: Self)
        ensures
            r.wf(),
            r.focus == ExploreFocus::Tree,
            r.app_focused,
            !r.catalog_loaded,
            !r.search.active,
            r.tree.databases@.len() == 0,
            r.detail.breadcrumb is None,
    {
        ExploreState {
            focus: ExploreFocus::Tree,
            app_focused: true,
            tree: CatalogTree::new(),
            detail: DetailPanel::new(),
            search: FuzzySearch::new(),
            catalog_loaded: false,
        }
    }

    /// Whether the selected node is the table `db.schema.table`: a reply
    /// about another table is stale.
    pub fn matches_selected_table(selected: &Vec<String>, db: &str, schema: &str, table: &str) -> (r: bool)
        ensures
            r == selection_is(selected@, db@, schema@, table@),
    {
        match selected_table(selected) {
            Some((a, b, c)) => {
                let r = str_eq(a.as_str(), db) && str_eq(b.as_str(), schema) && str_eq(c.as_str(), table);
                proof {
                    if selection_is(selected@, db@, schema@, table@) {
                        crate::tree::lemma_split_unique(selected@[3]@, a@, b@, c@, db@, schema@, table@);
                    }
                }
                r
            },
            None => {
                proof {
                    if selection_is(selected@, db@, schema@, table@) {
                        crate::tree::lemma_split_has_two_dots(selected@[3]@, db@, schema@, table@);
                    }
                }
                false
            },
        }
    }

    /// Leads the tree to the selected search result, closing the search.
    /// For a table or view, the detail panel is set to it and its columns
    /// are asked for; otherwise the tree is redrawn. Without a selected
    /// result nothing happens.
    pub fn navigate_to_search_result(&mut self) -> (r: Option<(Navigation, Action)>)
        requires
            old(self).wf(),
        ensures
            final(self).wf(),
            final(self).tree == old(self).tree,
            final(self).focus == old(self).focus,
            match r {
                None => old(self).search.selected >= old(self).search.results@.len() && *final(self) == *old(self),
                Some((nav, action)) => {
                    let e = old(self).search.entries@[old(self).search.results@[old(self).search.selected as int] as int]@;
                    &&& old(self).search.selected < old(self).search.results@.len()
                    &&& !final(self).search.active
                    &&& nav@ == search_navigation(e)
                    &&& match e.table {
                        Some(t) if e.schema.len() > 0 => (action matches Action::LoadColumns { db, schema, table }
                            && db@ == e.db && schema@ == e.schema && table@ == t) && (final(self).detail.breadcrumb matches Some(b)
                            && crate::preview_tab::triple_view(b) == (e.db, e.schema, t)),
                        _ => action is Render && final(self).detail == old(self).detail,
                    }
                },
            },
    {
        let (db, schema, table, is_view) = match self.search.selected_entry() {
            Some(e) => (
                str_to_string(e.db.as_str()),
                str_to_string(e.schema.as_str()),
                match &e.table {
                    Some(t) => Some(str_to_string(t.as_str())),
                    None => None,
                },
                e.is_view,
            ),
            None => {
                return None;
            },
        };
        self.search.deactivate();
        let mut open: Vec<Vec<String>> = Vec::new();
        open.push(one(db.as_str()));
        if crate::text::str_chars(schema.as_str()).len() == 0 {
            let nav = Navigation { open, select: one(db.as_str()) };
            assert(nav@.0 =~= seq![seq![db@]]);
            return Some((nav, Action::Render));
        }
        let schema_id = dotted_id(db.as_str(), schema.as_str());
        open.push(two(db.as_str(), schema_id.as_str()));
        match table {
            Some(t) => {
                let suffix = if is_view {
                    str_to_string("~views")
                } else {
                    str_to_string("~tables")
                };
                let group_id = dotted_id(schema_id.as_str(), suffix.as_str());
                let table_id = dotted_id(schema_id.as_str(), t.as_str());
                open.push(three(db.as_str(), schema_id.as_str(), group_id.as_str()));
                let select = four(db.as_str(), schema_id.as_str(), group_id.as_str(), table_id.as_str());
                let nav = Navigation { open, select };
                assert(nav@.0 =~= seq![seq![db@], seq![db@, schema_id@], seq![db@, schema_id@, group_id@]]);
                self.detail.set_breadcrumb(db.as_str(), schema.as_str(), t.as_str());
                let meta = self.tree.find_table(db.as_str(), schema.as_str(), t.as_str());
                self.detail.set_table_meta(meta);
                Some((nav, Action::LoadColumns { db, schema, table: t }))
            },
            None => {
                let nav = Navigation { open, select: two(db.as_str(), schema_id.as_str()) };
                assert(nav@.0 =~= seq![seq![db@], seq![db@, schema_id@]]);
                Some((nav, Action::Render))
            },
        }
    }

    /// Takes an action for the explore mode, with the path of the tree's
    /// selected node. Catalog loads go to the tree (a whole catalog, or all
    /// schemas and tables, also rebuild the search); replies about a table
    /// go to the detail panel only while that table is selected (loaded
    /// columns also set the panel to it and show its columns tab).
    pub fn update(&mut self, action: Action, selected: &Vec<String>, now_ms: i64) -> (r: Option<Action>)
        requires
            old(self).wf(),
        ensures
            final(self).wf(),
            explore_update_post(*old(self), *final(self), action, selected@, r),
    {
        match action {
            Action::CatalogLoaded(dbs, schemas, tables, at) => {
                self.catalog_loaded = true;
                self.search.rebuild_entries(&dbs, &schemas, &tables);
                self.tree.update(Action::CatalogLoaded(dbs, schemas, tables, at), now_ms)
            },
            Action::DatabasesLoaded(dbs) => {
                self.catalog_loaded = true;
                self.tree.update(Action::DatabasesLoaded(dbs), now_ms)
            },
            Action::ObjectsLoaded(schemas, tables) => {
                self.search.rebuild_entries(&self.tree.databases, &schemas, &tables);
                self.tree.update(Action::ObjectsLoaded(schemas, tables), now_ms)
            },
            Action::CachedColumnsRefreshed => self.tree.update(Action::CachedColumnsRefreshed, now_ms),
            Action::CatalogError(msg) => self.tree.update(Action::CatalogError(msg), now_ms),
            Action::ColumnsLoaded { db, schema, table, columns } => {
                if !Self::matches_selected_table(selected, db.as_str(), schema.as_str(), table.as_str()) {
                    return None;
                }
                self.detail.set_breadcrumb(db.as_str(), schema.as_str(), table.as_str());
                let meta = self.tree.find_table(db.as_str(), schema.as_str(), table.as_str());
                self.detail.set_table_meta(meta);
                self.detail.active_tab = DetailTab::Columns;
                self.detail.update(Action::ColumnsLoaded { db, schema, table, columns })
            },
            Action::PreviewLoaded { db, schema, table, result } => {
                if !Self::matches_selected_table(selected, db.as_str(), schema.as_str(), table.as_str()) {
                    return None;
                }
                self.detail.update(Action::PreviewLoaded { db, schema, table, result })
            },
            Action::ColumnsError { db, schema, table, error } => {
                if !Self::matches_selected_table(selected, db.as_str(), schema.as_str(), table.as_str()) {
                    return None;
                }
                self.detail.update(Action::ColumnsError { db, schema, table, error })
            },
            Action::PreviewError { db, schema, table, error } => {
                if !Self::matches_selected_table(selected, db.as_str(), schema.as_str(), table.as_str()) {
                    return None;
                }
                self.detail.update(Action::PreviewError { db, schema, table, error })
            },
            _ => None,
        }
    }

    /// Forgets the catalog and the table shown after a switch of
    /// connection. The catalog counts as loaded when the new connection has
    /// one cached (it arrives by its own action).
    pub fn reset_for_connection(&mut self, has_cached_catalog: bool)
        requires
            old(self).wf(),
        ensures
            final(self).wf(),
            final(self).tree.databases@.len() == 0,
            final(self).tree.schemas@.len() == 0,
            final(self).tree.tables@.len() == 0,
            final(self).tree.last_refreshed is None,
            !final(self).tree.loading,
            final(self).tree.error is None,
            final(self).tree.auto_opened@.len() == 0,
            final(self).detail.active_tab == DetailTab::Columns,
            final(self).detail.breadcrumb is None,
            final(self).detail.table_meta is None,
            final(self).detail.columns_tab.is_initial(),
            final(self).detail.preview_tab.is_initial(),
            final(self).catalog_loaded == has_cached_catalog,
            final(self).focus == old(self).focus,
            final(self).app_focused == old(self).app_focused,
            final(self).search == old(self).search,
    {
        self.tree.clear();
        self.detail = DetailPanel::new();
        self.catalog_loaded = has_cached_catalog;
    }

    /// A key for the explore mode. The open search takes every key (Enter
    /// leads to the selected result). Esc closes the row detail or the
    /// column search of the focused detail panel, else is left to the
    /// caller. On the tree `/` opens the search and other keys are the
    /// tree's; on the detail panel keys are the panel's.
    pub fn handle_key(&mut self, key: KeyEvent) -> (r: ExploreKeyOutcome)
        requires
            old(self).wf(),
        ensures
            final(self).wf(),
            final(self).tree == old(self).tree,
            final(self).focus == old(self).focus,
            old(self).search.active && key.code == KeyCode::Enter ==> match r {
                ExploreKeyOutcome::Navigate(nav, _) => old(self).search.selected < old(self).search.results@.len()
                    && nav@ == search_navigation(
                    old(self).search.entries@[old(self).search.results@[old(self).search.selected as int] as int]@,
                ),
                ExploreKeyOutcome::Done(a) => (a matches Some(Action::Render)) && old(self).search.selected
                    >= old(self).search.results@.len(),
                _ => false,
            },
            old(self).search.active && key.code != KeyCode::Enter ==> (r matches ExploreKeyOutcome::Done(_))
                && final(self).detail == old(self).detail,
            !old(self).search.active && key.code == KeyCode::Esc ==> (r matches ExploreKeyOutcome::Done(_))
                && final(self).search == old(self).search && (old(self).focus == ExploreFocus::Tree
                ==> (r matches ExploreKeyOutcome::Done(None)) && *final(self) == *old(self)) && (old(self).focus
                == ExploreFocus::Detail && old(self).detail.preview_tab.row_detail.visible ==> (r matches ExploreKeyOutcome::Done(
                Some(Action::Render),
            ))),
            !old(self).search.active && key.code != KeyCode::Esc && old(self).focus == ExploreFocus::Tree ==> (
            if key.code == KeyCode::Char('/') {
                (r matches ExploreKeyOutcome::Done(Some(Action::Render))) && final(self).search.active
            } else {
                final(self).search == old(self).search && final(self).detail == old(self).detail && match key_meaning(key.code) {
                    TreeKey::Move(m) => r matches ExploreKeyOutcome::Tree(mm) && mm == m,
                    TreeKey::Refresh => r matches ExploreKeyOutcome::Done(Some(Action::RefreshCatalog)),
                    TreeKey::Ignore => r matches ExploreKeyOutcome::Done(None),
                }
            }),
            !old(self).search.active && key.code != KeyCode::Esc && old(self).focus == ExploreFocus::Detail ==> (
            r matches ExploreKeyOutcome::Done(_)) && final(self).search == old(self).search,
    {
        if self.search.active {
            if key.code == KeyCode::Enter {
                return match self.navigate_to_search_result() {
                    Some((nav, action)) => ExploreKeyOutcome::Navigate(nav, action),
                    None => ExploreKeyOutcome::Done(Some(Action::Render)),
                };
            }
            return ExploreKeyOutcome::Done(self.search.handle_key(key));
        }
        if key.code == KeyCode::Esc {
            if self.focus == ExploreFocus::Detail {
                if self.detail.preview_tab.row_detail.visible {
                    self.detail.preview_tab.row_detail.handle_key(key);
                    return ExploreKeyOutcome::Done(Some(Action::Render));
                }
                if self.detail.columns_tab.search_active() {
                    self.detail.columns_tab.handle_key(key);
                    return ExploreKeyOutcome::Done(Some(Action::Render));
                }
            }
            return ExploreKeyOutcome::Done(None);
        }
        if self.focus == ExploreFocus::Tree && key.code == KeyCode::Char('/') {
            self.search.activate();
            return ExploreKeyOutcome::Done(Some(Action::Render));
        }
        match self.focus {
            ExploreFocus::Tree => match tree_key(key) {
                TreeKey::Move(m) => ExploreKeyOutcome::Tree(m),
                TreeKey::Refresh => ExploreKeyOutcome::Done(Some(Action::RefreshCatalog)),
                TreeKey::Ignore => ExploreKeyOutcome::Done(None),
            },
            ExploreFocus::Detail => ExploreKeyOutcome::Done(self.detail.handle_key(key)),
        }
    }
}

} // verus!
