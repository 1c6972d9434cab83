//! The columns tab of the explorer: the columns of the selected table, with
//! a search that filters them by name.

use vstd::prelude::*;
use crate::action::Action;
use crate::keys::{KeyCode, KeyEvent};
use crate::parser::Column;
use crate::text::{seq_contains, spec_to_lowercase, str_chars, to_lowercase};

verus! {

/// The positions of the columns whose lowercased name contains the
/// lowercased query, in order; all positions for an empty query.
pub open spec fn matching_columns(names: Seq<Seq<char>>, query: Seq<char>) -> Seq<usize>
    decreases names.len(),
{
    if names.len() == 0 {
        Seq::empty()
    } else {
        let rest = matching_columns(names.drop_last(), query);
        if query.len() == 0 || seq_contains(spec_to_lowercase(names.last()), spec_to_lowercase(query)) {
            rest.push((names.len() - 1) as usize)
        } else {
            rest
        }
    }
}

/// The matches are positions of names, and there are no more of them than
/// names.
pub proof fn lemma_matching_in_range(names: Seq<Seq<char>>, query: Seq<char>)
    requires
        names.len() <= usize::MAX,
    ensures
        matching_columns(names, query).len() <= names.len(),
        forall|i: int| 0 <= i < matching_columns(names, query).len() ==> #[trigger] matching_columns(names, query)[i] < names.len(),
    decreases names.len(),
{
    if names.len() > 0 {
        lemma_matching_in_range(names.drop_last(), query);
    }
}

/// The names of a list of columns.
pub open spec fn column_names(cols: Seq<Column>) -> Seq<Seq<char>> {
    cols.map_values(|c: Column| c.name@)
}

/// The columns tab.
pub struct ColumnsTab {
    pub columns: Vec<Column>,
    /// Positions in `columns` of the columns that match the search.
    pub filtered_indices: Vec<usize>,
    pub selected: usize,
    pub offset: usize,
    /// Rows shown at once (set when drawn).
    pub visible_height: usize,
    pub loading: bool,
    pub error: Option<String>,
    pub search_query: String,
    pub search_active_flag: bool,
}

impl ColumnsTab {
    /// The filter holds the columns that match the query.
    pub open spec fn wf(&self) -> bool {
        self.filtered_indices@ == matching_columns(column_names(self.columns@), self.search_query@)
    }

    /// No columns, nothing loading or failed, not searching, at the top,
    /// and twenty rows shown at once until drawn.
    pub open spec fn is_initial(&self) -> bool {
        &&& self.columns@.len() == 0
        &&& self.filtered_indices@.len() == 0
        &&& self.selected == 0
        &&& self.offset == 0
        &&& self.visible_height == 20
        &&& !self.loading
        &&& self.error is None
        &&& self.search_query@ == Seq::<char>::empty()
        &&& !self.search_active_flag
    }

    pub fn new() -> (r: Self)
        ensures
            r.wf(),
            r.is_initial(),
    {
        let r = ColumnsTab {
            columns: Vec::new(),
            filtered_indices: Vec::new(),
            selected: 0,
            offset: 0,
            visible_height: 20,
            loading: false,
            error: None,
            search_query: String::new(),
            search_active_flag: false,
        };
        assert(column_names(r.columns@) =~= Seq::<Seq<char>>::empty());
        r
    }

    /// Shows that columns are being loaded.
    pub fn set_loading(&mut self)
        ensures
            final(self).loading,
            final(self).error is None,
            final(self).columns@ == old(self).columns@,
            final(self).filtered_indices@ == old(self).filtered_indices@,
            final(self).search_query@ == old(self).search_query@,
    {
        self.loading = true;
        self.error = None;
    }

    /// Shows new columns, with the search cleared and the first selected.
    pub fn set_columns(&mut self, columns: Vec<Column>)
        ensures
            final(self).wf(),
            final(self).columns@ == columns@,
            final(self).selected == 0,
            final(self).offset == 0,
            !final(self).loading,
            final(self).error is None,
            final(self).search_query@ == Seq::<char>::empty(),
            !final(self).search_active_flag,
    {
        self.columns = columns;
        self.selected = 0;
        self.offset = 0;
        self.loading = false;
        self.error = None;
        self.search_query = String::new();
        self.search_active_flag = false;
        self.rebuild_filter();
    }

    /// Shows an error in place of the columns.
    pub fn set_error(&mut self, msg: String)
        ensures
            final(self).error matches Some(e) && e@ == msg@,
            !final(self).loading,
            final(self).columns@ == old(self).columns@,
            final(self).filtered_indices@ == old(self).filtered_indices@,
            final(self).search_query@ == old(self).search_query@,
            final(self).search_active_flag == old(self).search_active_flag,
    {
        self.error = Some(msg);
        self.loading = false;
    }

    /// Starts a search with an empty query.
    pub fn activate_search(&mut self)
        ensures
            final(self).wf(),
            final(self).search_active_flag,
            final(self).search_query@ == Seq::<char>::empty(),
            final(self).columns@ == old(self).columns@,
            final(self).selected == 0,
            final(self).offset == 0,
            final(self).loading == old(self).loading,
            final(self).error == old(self).error,
            final(self).visible_height == old(self).visible_height,
    {
        self.search_active_flag = true;
        self.search_query = String::new();
        self.rebuild_filter();
    }

    /// Whether a search is being typed.
    pub fn search_active(&self) -> (r: bool)
        ensures
            r == self.search_active_flag,
    {
        self.search_active_flag
    }

    /// Ends the search and shows all columns from the first.
    pub fn deactivate_search(&mut self)
        ensures
            final(self).wf(),
            !final(self).search_active_flag,
            final(self).search_query@ == Seq::<char>::empty(),
            final(self).columns@ == old(self).columns@,
            final(self).selected == 0,
            final(self).offset == 0,
    {
        self.search_active_flag = false;
        self.search_query = String::new();
        self.rebuild_filter();
        self.selected = 0;
        self.offset = 0;
    }

    /// Recomputes which columns match the query and selects the first.
    pub fn rebuild_filter(&mut self)
        ensures
            final(self).wf(),
            final(self).columns@ == old(self).columns@,
            final(self).search_query@ == old(self).search_query@,
            final(self).search_active_flag == old(self).search_active_flag,
            final(self).selected == 0,
            final(self).offset == 0,
            final(self).loading == old(self).loading,
            final(self).error == old(self).error,
            final(self).visible_height == old(self).visible_height,
    {
        let ghost names = column_names(self.columns@);
        let query_empty = str_chars(self.search_query.as_str()).len() == 0;
        let query_lower = to_lowercase(self.search_query.as_str());
        let mut out: Vec<usize> = Vec::new();
        let mut i: usize = 0;
        while i < self.columns.len()
            invariant
                i <= self.columns@.len(),
                names == column_names(self.columns@),
                query_empty == (self.search_query@.len() == 0),
                query_lower@ == spec_to_lowercase(self.search_query@),
                out@ == matching_columns(names.take(i as int), self.search_query@),
            decreases self.columns@.len() - i,
        {
            assert(names.take(i + 1).drop_last() =~= names.take(i as int));
            assert(names.take(i + 1).last() == self.columns@[i as int].name@);
            if query_empty {
                out.push(i);
            } else {
                let name_lower = to_lowercase(self.columns[i].name.as_str());
                if crate::text::str_contains(name_lower.as_str(), query_lower.as_str()) {
                    out.push(i);
                }
            }
            i += 1;
        }
        assert(names.take(self.columns@.len() as int) =~= names);
        self.filtered_indices = out;
        self.selected = 0;
        self.offset = 0;
    }

    /// Scrolls so that the selected row is among the visible ones.
    pub fn adjust_offset(&mut self)
        ensures
            final(self).selected == old(self).selected,
            final(self).visible_height == old(self).visible_height,
            final(self).filtered_indices@ == old(self).filtered_indices@,
            final(self).columns@ == old(self).columns@,
            final(self).search_query@ == old(self).search_query@,
            final(self).search_active_flag == old(self).search_active_flag,
            old(self).visible_height == 0 ==> final(self).offset == old(self).offset,
            old(self).visible_height > 0 ==> final(self).offset <= final(self).selected < final(self).offset
                + final(self).visible_height,
            old(self).visible_height > 0 && old(self).offset <= old(self).selected < old(self).offset
                + old(self).visible_height ==> final(self).offset == old(self).offset,
    {
        let visible = self.visible_height;
        if visible == 0 {
            return;
        }
        if self.selected < self.offset {
            self.offset = self.selected;
        } else if self.selected - self.offset >= visible {
            self.offset = self.selected - visible + 1;
        }
    }

    /// A key for the tab. While searching, Esc ends the search, a
    /// character extends the query, Backspace shortens it, Down and Up move
    /// the selection and other keys are swallowed. Otherwise Down/`j` and
    /// Up/`k` move the selection within the matching columns.
    pub fn handle_key(&mut self, key: KeyEvent) -> (r: Option<Action>)
        requires
            old(self).wf(),
        ensures
            final(self).wf(),
            final(self).columns@ == old(self).columns@,
            old(self).search_active_flag ==> ({
                let code = key.code;
                if code == KeyCode::Esc {
                    r matches Some(Action::Render) && !final(self).search_active_flag
                        && final(self).search_query@ == Seq::<char>::empty() && final(self).selected == 0
                        && final(self).offset == 0
                } else if let KeyCode::Char(c) = code {
                    r matches Some(Action::Render) && final(self).search_active_flag
                        && final(self).search_query@ == old(self).search_query@.push(c) && final(self).selected == 0
                        && final(self).offset == 0
                } else if code == KeyCode::Backspace {
                    r matches Some(Action::Render) && final(self).search_active_flag
                        && final(self).search_query@ == (if old(self).search_query@.len() > 0 {
                        old(self).search_query@.drop_last()
                    } else {
                        old(self).search_query@
                    }) && final(self).selected == 0 && final(self).offset == 0
                } else if code == KeyCode::Down || code == KeyCode::Up {
                    final(self).search_query@ == old(self).search_query@
                } else {
                    r is None && *final(self) == *old(self)
                }
            }),
            !old(self).search_active_flag ==> final(self).search_query@ == old(self).search_query@
                && final(self).search_active_flag == old(self).search_active_flag,
            ({
                let code = key.code;
                let navigates = !old(self).search_active_flag || code == KeyCode::Down || code == KeyCode::Up;
                let n = old(self).filtered_indices@.len();
                navigates ==> if n == 0 {
                    r is None && final(self).selected == old(self).selected
                } else if code == KeyCode::Down || code == KeyCode::Char('j') {
                    r matches Some(Action::Render) && final(self).selected == (if old(self).selected + 1 < n { old(self).selected + 1 } else { old(self).selected as int })
                } else if code == KeyCode::Up || code == KeyCode::Char('k') {
                    r matches Some(Action::Render) && final(self).selected == (if old(self).selected > 0 { old(self).selected - 1 } else { 0 })
                } else {
                    r is None && final(self).selected == old(self).selected
                }
            }),
    {
        if self.search_active_flag {
            match key.code {
                KeyCode::Esc => {
                    self.deactivate_search();
                    return Some(Action::Render);
                },
                KeyCode::Char(c) => {
                    crate::text::string_push(&mut self.search_query, c);
                    self.rebuild_filter();
                    return Some(Action::Render);
                },
                KeyCode::Backspace => {
                    let mut chars = str_chars(self.search_query.as_str());
                    if chars.len() > 0 {
                        chars.pop();
                    }
                    self.search_query = crate::text::chars_to_string(chars.as_slice());
                    self.rebuild_filter();
                    return Some(Action::Render);
                },
                KeyCode::Down | KeyCode::Up => {},
                _ => {
                    return None;
                },
            }
        }
        if self.filtered_indices.len() == 0 {
            return None;
        }
        match key.code {
            KeyCode::Down | KeyCode::Char('j') => {
                if self.selected < self.filtered_indices.len() - 1 {
                    self.selected += 1;
                    self.adjust_offset();
                }
                Some(Action::Render)
            },
            KeyCode::Up | KeyCode::Char('k') => {
                if self.selected > 0 {
                    self.selected -= 1;
                }
                self.adjust_offset();
                Some(Action::Render)
            },
            _ => None,
        }
    }
}

} // verus!
