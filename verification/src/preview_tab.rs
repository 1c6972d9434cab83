//! The preview tab of the explore mode: the first rows of the selected
//! table, with a selected row, column scrolling and the row detail popup.

use vstd::prelude::*;
use crate::action::Action;
use crate::keys::{KeyCode, KeyEvent};
use crate::parser::QueryResult;
use crate::row_detail::RowDetailPopup;
use crate::text::{concat, decimal, str_eq, str_to_string, usize_to_string};

verus! {

/// Columns shown at once, at most.
pub const PREVIEW_COLUMNS: usize = 8;

/// The preview tab.
pub struct PreviewTab {
    pub result: Option<QueryResult>,
    pub selected_row: usize,
    pub row_offset: usize,
    pub col_offset: usize,
    /// Rows shown at once, header included (set when drawn).
    pub visible_height: usize,
    pub loading: bool,
    pub error: Option<String>,
    /// The table (database, schema, name) whose rows are shown.
    pub previewed_table: Option<(String, String, String)>,
    pub row_detail: RowDetailPopup,
}

/// The furthest the columns can be scrolled: all but the last eight.
pub open spec fn max_col_offset(result: Option<QueryResult>) -> int {
    match result {
        Some(r) => if r.columns@.len() > PREVIEW_COLUMNS {
            r.columns@.len() - PREVIEW_COLUMNS
        } else {
            0
        },
        None => 0,
    }
}

/// The line of the hint bar for a result scrolled to column `col_offset`.
pub open spec fn status_line(row_count: nat, total: nat, col_offset: nat) -> Seq<char> {
    let max_visible = if total < PREVIEW_COLUMNS { total } else { PREVIEW_COLUMNS as nat };
    let max_end = if col_offset + max_visible < total { col_offset + max_visible } else { total };
    if total > max_end - col_offset {
        " "@ + decimal(row_count) + " rows | cols "@ + decimal(col_offset + 1) + "-"@ + decimal(
            max_end as nat,
        ) + " of "@ + decimal(total) + " (h/l to scroll) | Enter: Row Detail"@
    } else {
        " "@ + decimal(row_count) + " rows | "@ + decimal(total) + " columns | Enter: Row Detail"@
    }
}

/// The view of a (database, schema, table) triple.
pub open spec fn triple_view(t: (String, String, String)) -> (Seq<char>, Seq<char>, Seq<char>) {
    (t.0@, t.1@, t.2@)
}

impl PreviewTab {
    /// No rows, nothing loading or failed, no table, the row detail hidden
    /// and empty, and twenty rows shown at once until drawn.
    pub open spec fn is_initial(&self) -> bool {
        &&& self.result is None
        &&& self.selected_row == 0
        &&& self.row_offset == 0
        &&& self.col_offset == 0
        &&& self.visible_height == 20
        &&& !self.loading
        &&& self.error is None
        &&& self.previewed_table is None
        &&& self.row_detail.is_initial()
    }

    pub fn new() -> (r: Self)
        ensures
            r.is_initial(),
    {
        PreviewTab {
            result: None,
            selected_row: 0,
            row_offset: 0,
            col_offset: 0,
            visible_height: 20,
            loading: false,
            error: None,
            previewed_table: None,
            row_detail: RowDetailPopup::new(),
        }
    }

    /// Shows that rows are being loaded; the rows shown so far stay.
    pub fn set_loading(&mut self)
        ensures
            final(self).loading,
            final(self).error is None,
            final(self).result == old(self).result,
            final(self).selected_row == old(self).selected_row,
            final(self).col_offset == old(self).col_offset,
            final(self).previewed_table == old(self).previewed_table,
    {
        self.loading = true;
        self.error = None;
    }

    /// Shows a result from its first row and column.
    pub fn set_result(&mut self, result: QueryResult)
        ensures
            final(self).result == Some(result),
            final(self).selected_row == 0,
            final(self).row_offset == 0,
            final(self).col_offset == 0,
            !final(self).loading,
            final(self).error is None,
            final(self).previewed_table == old(self).previewed_table,
    {
        self.result = Some(result);
        self.selected_row = 0;
        self.row_offset = 0;
        self.col_offset = 0;
        self.loading = false;
        self.error = None;
    }

    /// Shows an error; the rows shown so far stay.
    pub fn set_error(&mut self, msg: String)
        ensures
            final(self).error matches Some(e) && e@ == msg@,
            !final(self).loading,
            final(self).result == old(self).result,
            final(self).selected_row == old(self).selected_row,
            final(self).col_offset == old(self).col_offset,
            final(self).previewed_table == old(self).previewed_table,
    {
        self.error = Some(msg);
        self.loading = false;
    }

    /// Records which table the rows belong to.
    pub fn set_previewed_table(&mut self, db: &str, schema: &str, table: &str)
        ensures
            final(self).previewed_table matches Some(t) && triple_view(t) == (db@, schema@, table@),
            final(self).result == old(self).result,
            final(self).selected_row == old(self).selected_row,
            final(self).col_offset == old(self).col_offset,
    {
        self.previewed_table = Some((str_to_string(db), str_to_string(schema), str_to_string(table)));
    }

    /// Whether rows of exactly this table are shown.
    pub fn has_data_for(&self, db: &str, schema: &str, table: &str) -> (r: bool)
        ensures
            r == (self.previewed_table matches Some(t) && triple_view(t) == (db@, schema@, table@)
                && self.result is Some),
    {
        match &self.previewed_table {
            Some((pd, ps, pt)) => str_eq(pd.as_str(), db) && str_eq(ps.as_str(), schema) && str_eq(
                pt.as_str(),
                table,
            ) && self.result.is_some(),
            None => false,
        }
    }

    /// Scrolls so that the selected row is among the rows shown under the
    /// header.
    pub fn adjust_row_offset(&mut self)
        ensures
            final(self).selected_row == old(self).selected_row,
            final(self).visible_height == old(self).visible_height,
            final(self).result == old(self).result,
            final(self).col_offset == old(self).col_offset,
            final(self).row_detail == old(self).row_detail,
            final(self).previewed_table == old(self).previewed_table,
            old(self).visible_height <= 1 ==> final(self).row_offset == old(self).row_offset,
            old(self).visible_height > 1 ==> final(self).row_offset <= final(self).selected_row < final(self).row_offset
                + old(self).visible_height - 1,
    {
        let visible = if self.visible_height > 0 {
            self.visible_height - 1
        } else {
            0
        };
        if visible == 0 {
            return;
        }
        if self.selected_row < self.row_offset {
            self.row_offset = self.selected_row;
        } else if self.selected_row - self.row_offset >= visible {
            self.row_offset = self.selected_row - visible + 1;
        }
    }

    /// The hint bar's text: the row count, and either the columns shown
    /// of how many when they do not all fit, or the column count. Empty
    /// without a result.
    pub fn status_text(&self) -> (r: String)
        requires
            self.col_offset <= max_col_offset(self.result),
        ensures
            r@ == match self.result {
                Some(res) => status_line(res.row_count as nat, res.columns@.len(), self.col_offset as nat),
                None => Seq::<char>::empty(),
            },
    {
        match &self.result {
            None => String::new(),
            Some(result) => {
                let total = result.columns.len();
                let max_visible = if total < PREVIEW_COLUMNS {
                    total
                } else {
                    PREVIEW_COLUMNS
                };
                let max_end = if self.col_offset < total - max_visible {
                    self.col_offset + max_visible
                } else {
                    total
                };
                let rows = usize_to_string(result.row_count);
                let total_text = usize_to_string(total);
                if total > max_end - self.col_offset {
                    let first = usize_to_string(self.col_offset + 1);
                    let last = usize_to_string(max_end);
                    let s = concat(" ", rows.as_str());
                    let s = concat(s.as_str(), " rows | cols ");
                    let s = concat(s.as_str(), first.as_str());
                    let s = concat(s.as_str(), "-");
                    let s = concat(s.as_str(), last.as_str());
                    let s = concat(s.as_str(), " of ");
                    let s = concat(s.as_str(), total_text.as_str());
                    concat(s.as_str(), " (h/l to scroll) | Enter: Row Detail")
                } else {
                    let s = concat(" ", rows.as_str());
                    let s = concat(s.as_str(), " rows | ");
                    let s = concat(s.as_str(), total_text.as_str());
                    concat(s.as_str(), " columns | Enter: Row Detail")
                }
            },
        }
    }

    /// A key for the tab. With the row detail shown, the key goes to it.
    /// Without rows nothing happens. Otherwise Enter shows the selected
    /// row's detail, Down/`j` and Up/`k` move the selected row within the
    /// rows, and Right/`l` and Left/`h` scroll the columns.
    pub fn handle_key(&mut self, key: KeyEvent) -> (r: Option<Action>)
        requires
            old(self).col_offset <= max_col_offset(old(self).result),
        ensures
            final(self).result == old(self).result,
            final(self).previewed_table == old(self).previewed_table,
            final(self).col_offset <= max_col_offset(final(self).result),
            old(self).row_detail.visible ==> (r matches Some(Action::Render)
                && final(self).selected_row == old(self).selected_row
                && final(self).col_offset == old(self).col_offset),
            !old(self).row_detail.visible ==> match old(self).result {
                None => r is None && final(self).selected_row == old(self).selected_row
                    && final(self).col_offset == old(self).col_offset,
                Some(res) => {
                    let code = key.code;
                    let sel = old(self).selected_row as int;
                    let n = res.rows@.len() as int;
                    let col = old(self).col_offset as int;
                    if code == KeyCode::Enter {
                        r matches Some(Action::Render) && final(self).selected_row == sel
                            && final(self).col_offset == col
                            && (sel < n ==> final(self).row_detail.visible)
                    } else if code == KeyCode::Down || code == KeyCode::Char('j') {
                        r matches Some(Action::Render) && final(self).selected_row == (if sel + 1 < n { sel + 1 } else { sel })
                            && final(self).col_offset == col
                    } else if code == KeyCode::Up || code == KeyCode::Char('k') {
                        r matches Some(Action::Render) && final(self).selected_row == (if sel > 0 { sel - 1 } else { 0 })
                            && final(self).col_offset == col
                    } else if code == KeyCode::Right || code == KeyCode::Char('l') {
                        r matches Some(Action::Render) && final(self).selected_row == sel
                            && final(self).col_offset == (if col < max_col_offset(old(self).result) { col + 1 } else { col })
                    } else if code == KeyCode::Left || code == KeyCode::Char('h') {
                        r matches Some(Action::Render) && final(self).selected_row == sel
                            && final(self).col_offset == (if col > 0 { col - 1 } else { 0 })
                    } else {
                        r is None && final(self).selected_row == sel && final(self).col_offset == col
                    }
                },
            },
    {
        if self.row_detail.visible {
            self.row_detail.handle_key(key);
            return Some(Action::Render);
        }
        let (n_rows, n_cols) = match &self.result {
            Some(result) => (result.rows.len(), result.columns.len()),
            None => {
                return None;
            },
        };
        match key.code {
            KeyCode::Enter => {
                match &self.result {
                    Some(result) => {
                        if self.selected_row < result.rows.len() {
                            self.row_detail.show(&result.columns, &result.rows[self.selected_row]);
                        }
                    },
                    None => {},
                }
                Some(Action::Render)
            },
            KeyCode::Down | KeyCode::Char('j') => {
                if n_rows > 0 && self.selected_row < n_rows - 1 {
                    self.selected_row += 1;
                    self.adjust_row_offset();
                }
                Some(Action::Render)
            },
            KeyCode::Up | KeyCode::Char('k') => {
                if self.selected_row > 0 {
                    self.selected_row -= 1;
                }
                self.adjust_row_offset();
                Some(Action::Render)
            },
            KeyCode::Right | KeyCode::Char('l') => {
                let max_offset = if n_cols > PREVIEW_COLUMNS {
                    n_cols - PREVIEW_COLUMNS
                } else {
                    0
                };
                if self.col_offset < max_offset {
                    self.col_offset += 1;
                }
                Some(Action::Render)
            },
            KeyCode::Left | KeyCode::Char('h') => {
                if self.col_offset > 0 {
                    self.col_offset -= 1;
                }
                Some(Action::Render)
            },
            _ => None,
        }
    }
}

} // verus!
