//! The detail panel of the explore mode: the selected table's metadata and
//! two tabs, its columns and a preview of its rows.

use vstd::prelude::*;
use crate::action::Action;
use crate::columns_tab::ColumnsTab;
use crate::keys::{KeyCode, KeyEvent};
use crate::parser::{Column, QueryResult, Table};
use crate::preview_tab::{PreviewTab, max_col_offset, triple_view};
use crate::text::str_to_string;

verus! {

/// The tab the detail panel shows.
#[derive(Debug, Clone, Copy, PartialEq, Eq, Structural)]
pub enum DetailTab {
    Columns,
    Preview,
}

/// The detail panel.
pub struct DetailPanel {
    pub active_tab: DetailTab,
    /// The selected table: database, schema and name.
    pub breadcrumb: Option<(String, String, String)>,
    pub table_meta: Option<Table>,
    pub columns_tab: ColumnsTab,
    pub preview_tab: PreviewTab,
}

/// The key selects the columns tab.
pub open spec fn selects_columns(code: KeyCode) -> bool {
    code == KeyCode::Char('c') || code == KeyCode::Char('C') || code == KeyCode::Char('1')
}

/// The key selects the preview tab.
pub open spec fn selects_preview(code: KeyCode) -> bool {
    code == KeyCode::Char('p') || code == KeyCode::Char('P') || code == KeyCode::Char('2')
}

impl DetailPanel {
    /// What holds of the two tabs between calls.
    pub open spec fn wf(&self) -> bool {
        &&& self.columns_tab.wf()
        &&& self.preview_tab.col_offset <= max_col_offset(self.preview_tab.result)
    }

    pub fn new() -> (r: Self)
        ensures
            r.wf(),
            r.active_tab == DetailTab::Columns,
            r.breadcrumb is None,
            r.table_meta is None,
            r.columns_tab.is_initial(),
            r.preview_tab.is_initial(),
    {
        DetailPanel {
            active_tab: DetailTab::Columns,
            breadcrumb: None,
            table_meta: None,
            columns_tab: ColumnsTab::new(),
            preview_tab: PreviewTab::new(),
        }
    }

    /// Selects a table by database, schema and name.
    pub fn set_breadcrumb(&mut self, db: &str, schema: &str, table: &str)
        ensures
            final(self).breadcrumb matches Some(b) && triple_view(b) == (db@, schema@, table@),
            final(self).active_tab == old(self).active_tab,
            final(self).columns_tab == old(self).columns_tab,
            final(self).preview_tab == old(self).preview_tab,
    {
        self.breadcrumb = Some((str_to_string(db), str_to_string(schema), str_to_string(table)));
    }

    /// Sets the metadata shown above the tabs.
    pub fn set_table_meta(&mut self, table: Option<Table>)
        ensures
            final(self).table_meta == table,
            final(self).breadcrumb == old(self).breadcrumb,
            final(self).columns_tab == old(self).columns_tab,
            final(self).preview_tab == old(self).preview_tab,
    {
        self.table_meta = table;
    }

    /// Shows columns in the columns tab.
    pub fn set_columns(&mut self, columns: Vec<Column>)
        requires
            old(self).wf(),
        ensures
            final(self).wf(),
            final(self).columns_tab.columns@ == columns@,
            final(self).columns_tab.selected == 0,
            !final(self).columns_tab.loading,
            final(self).columns_tab.error is None,
            final(self).preview_tab == old(self).preview_tab,
            final(self).breadcrumb == old(self).breadcrumb,
            final(self).active_tab == old(self).active_tab,
    {
        self.columns_tab.set_columns(columns);
    }

    /// Shows rows in the preview tab.
    pub fn set_preview(&mut self, result: QueryResult)
        requires
            old(self).wf(),
        ensures
            final(self).wf(),
            final(self).preview_tab.result == Some(result),
            final(self).preview_tab.selected_row == 0,
            !final(self).preview_tab.loading,
            final(self).preview_tab.error is None,
            final(self).preview_tab.previewed_table == old(self).preview_tab.previewed_table,
            final(self).columns_tab == old(self).columns_tab,
            final(self).breadcrumb == old(self).breadcrumb,
            final(self).active_tab == old(self).active_tab,
    {
        self.preview_tab.set_result(result);
    }

    /// Shows that columns are being loaded.
    pub fn set_columns_loading(&mut self)
        requires
            old(self).wf(),
        ensures
            final(self).breadcrumb == old(self).breadcrumb,
            final(self).active_tab == old(self).active_tab,
            final(self).wf(),
            final(self).columns_tab.loading,
            final(self).columns_tab.error is None,
            final(self).columns_tab.columns@ == old(self).columns_tab.columns@,
            final(self).preview_tab == old(self).preview_tab,
    {
        self.columns_tab.set_loading();
    }

    /// Shows that rows are being loaded.
    pub fn set_preview_loading(&mut self)
        requires
            old(self).wf(),
        ensures
            final(self).breadcrumb == old(self).breadcrumb,
            final(self).active_tab == old(self).active_tab,
            final(self).wf(),
            final(self).preview_tab.loading,
            final(self).preview_tab.error is None,
            final(self).preview_tab.result == old(self).preview_tab.result,
            final(self).columns_tab == old(self).columns_tab,
    {
        self.preview_tab.set_loading();
    }

    /// Shows an error in the columns tab.
    pub fn set_columns_error(&mut self, msg: String)
        requires
            old(self).wf(),
        ensures
            final(self).breadcrumb == old(self).breadcrumb,
            final(self).active_tab == old(self).active_tab,
            final(self).wf(),
            final(self).columns_tab.error matches Some(e) && e@ == msg@,
            !final(self).columns_tab.loading,
            final(self).columns_tab.columns@ == old(self).columns_tab.columns@,
            final(self).preview_tab == old(self).preview_tab,
    {
        self.columns_tab.set_error(msg);
    }

    /// Shows an error in the preview tab.
    pub fn set_preview_error(&mut self, msg: String)
        requires
            old(self).wf(),
        ensures
            final(self).breadcrumb == old(self).breadcrumb,
            final(self).active_tab == old(self).active_tab,
            final(self).wf(),
            final(self).preview_tab.error matches Some(e) && e@ == msg@,
            !final(self).preview_tab.loading,
            final(self).preview_tab.result == old(self).preview_tab.result,
            final(self).columns_tab == old(self).columns_tab,
    {
        self.preview_tab.set_error(msg);
    }

    /// Takes a loaded or failed result for the panel: columns and rows are
    /// shown in their tabs (the rows with the table they belong to), and
    /// errors in place of them, each answered by a redraw. Other actions
    /// are not for the panel.
    pub fn update(&mut self, action: Action) -> (r: Option<Action>)
        requires
            old(self).wf(),
        ensures
            final(self).wf(),
            final(self).breadcrumb == old(self).breadcrumb,
            final(self).active_tab == old(self).active_tab,
            match action {
                Action::ColumnsLoaded { columns, .. } => r matches Some(Action::Render)
                    && final(self).columns_tab.columns@ == columns@ && final(self).preview_tab
                    == old(self).preview_tab,
                Action::PreviewLoaded { db, schema, table, result } => r matches Some(Action::Render)
                    && final(self).preview_tab.result == Some(result)
                    && (final(self).preview_tab.previewed_table matches Some(t) && triple_view(t) == (db@, schema@, table@))
                    && final(self).columns_tab == old(self).columns_tab,
                Action::ColumnsError { error, .. } => r matches Some(Action::Render)
                    && (final(self).columns_tab.error matches Some(e) && e@ == error@)
                    && final(self).preview_tab == old(self).preview_tab,
                Action::PreviewError { error, .. } => r matches Some(Action::Render)
                    && (final(self).preview_tab.error matches Some(e) && e@ == error@)
                    && final(self).columns_tab == old(self).columns_tab,
                _ => r is None && *final(self) == *old(self),
            },
    {
        match action {
            Action::ColumnsLoaded { columns, .. } => {
                self.set_columns(columns);
                Some(Action::Render)
            },
            Action::PreviewLoaded { db, schema, table, result } => {
                self.preview_tab.set_previewed_table(db.as_str(), schema.as_str(), table.as_str());
                self.set_preview(result);
                Some(Action::Render)
            },
            Action::ColumnsError { error, .. } => {
                self.set_columns_error(error);
                Some(Action::Render)
            },
            Action::PreviewError { error, .. } => {
                self.set_preview_error(error);
                Some(Action::Render)
            },
            _ => None,
        }
    }

    /// A key for the panel. `/` on the columns tab starts a column search;
    /// while one is typed every key goes to the columns tab. Otherwise
    /// `c`/`C`/`1` and `p`/`P`/`2` pick the tab (picking the preview of a
    /// selected table whose rows are not shown asks for them), `R` asks for
    /// the selected table's columns afresh, and other keys go to the tab
    /// shown.
    pub fn handle_key(&mut self, key: KeyEvent) -> (r: Option<Action>)
        requires
            old(self).wf(),
        ensures
            final(self).wf(),
            final(self).breadcrumb == old(self).breadcrumb,
            final(self).columns_tab.columns@ == old(self).columns_tab.columns@,
            final(self).preview_tab.result == old(self).preview_tab.result,
            ({
                let code = key.code;
                let searching = old(self).columns_tab.search_active_flag;
                if code == KeyCode::Char('/') && old(self).active_tab == DetailTab::Columns {
                    r matches Some(Action::Render) && final(self).columns_tab.search_active_flag
                        && final(self).columns_tab.search_query@ == Seq::<char>::empty()
                        && final(self).active_tab == old(self).active_tab
                } else if searching {
                    final(self).active_tab == old(self).active_tab
                        && final(self).preview_tab == old(self).preview_tab
                        && (code == KeyCode::Esc ==> (r matches Some(Action::Render))
                            && !final(self).columns_tab.search_active_flag)
                        && (code matches KeyCode::Char(c) ==> (r matches Some(Action::Render))
                            && final(self).columns_tab.search_query@ == old(self).columns_tab.search_query@.push(c))
                } else if selects_columns(code) {
                    r matches Some(Action::Render) && final(self).active_tab == DetailTab::Columns
                        && final(self).columns_tab == old(self).columns_tab
                        && final(self).preview_tab == old(self).preview_tab
                } else if selects_preview(code) {
                    final(self).active_tab == DetailTab::Preview
                        && final(self).columns_tab == old(self).columns_tab
                        && final(self).preview_tab == old(self).preview_tab
                        && match old(self).breadcrumb {
                        Some(b) => if old(self).preview_tab.previewed_table matches Some(t) && triple_view(t)
                            == triple_view(b) && old(self).preview_tab.result is Some {
                            r matches Some(Action::Render)
                        } else {
                            r matches Some(Action::LoadPreview { db, schema, table }) && (db@, schema@, table@)
                                == triple_view(b)
                        },
                        None => r matches Some(Action::Render),
                    }
                } else if code == KeyCode::Char('R') {
                    final(self).active_tab == old(self).active_tab
                        && final(self).columns_tab == old(self).columns_tab
                        && final(self).preview_tab == old(self).preview_tab
                        && match old(self).breadcrumb {
                        Some(b) => r matches Some(Action::RefreshColumns { db, schema, table }) && (db@, schema@, table@)
                            == triple_view(b),
                        None => r is None,
                    }
                } else {
                    final(self).active_tab == old(self).active_tab && (old(self).active_tab == DetailTab::Columns
                        ==> final(self).preview_tab == old(self).preview_tab) && (old(self).active_tab
                        == DetailTab::Preview ==> final(self).columns_tab == old(self).columns_tab)
                }
            }),
    {
        if key.code == KeyCode::Char('/') && self.active_tab == DetailTab::Columns {
            self.columns_tab.activate_search();
            return Some(Action::Render);
        }
        if self.columns_tab.search_active() {
            return self.columns_tab.handle_key(key);
        }
        match key.code {
            KeyCode::Char('c') | KeyCode::Char('C') | KeyCode::Char('1') => {
                self.active_tab = DetailTab::Columns;
                Some(Action::Render)
            },
            KeyCode::Char('p') | KeyCode::Char('P') | KeyCode::Char('2') => {
                self.active_tab = DetailTab::Preview;
                match &self.breadcrumb {
                    Some((db, schema, table)) => {
                        if !self.preview_tab.has_data_for(db.as_str(), schema.as_str(), table.as_str()) {
                            return Some(
                                Action::LoadPreview {
                                    db: str_to_string(db.as_str()),
                                    schema: str_to_string(schema.as_str()),
                                    table: str_to_string(table.as_str()),
                                },
                            );
                        }
                    },
                    None => {},
                }
                Some(Action::Render)
            },
            KeyCode::Char('R') => {
                match &self.breadcrumb {
                    Some((db, schema, table)) => Some(
                        Action::RefreshColumns {
                            db: str_to_string(db.as_str()),
                            schema: str_to_string(schema.as_str()),
                            table: str_to_string(table.as_str()),
                        },
                    ),
                    None => None,
                }
            },
            _ => match self.active_tab {
                DetailTab::Columns => self.columns_tab.handle_key(key),
                DetailTab::Preview => self.preview_tab.handle_key(key),
            },
        }
    }
}

} // verus!
