//! The query history overlay and the saved queries overlay.

use vstd::prelude::*;
use crate::action::Action;
use crate::keys::{KeyCode, KeyEvent};
use crate::store::{QueryHistoryEntry, SavedQuery};
use crate::text::{seq_contains, spec_to_lowercase, str_chars, str_contains, to_lowercase};

verus! {

/// The rows of an overlay list visible at once.
pub const LIST_ROWS: usize = 18;

/// The positions of the history entries whose lowercased text contains
/// the lowercased filter (all of them when the lowercased filter is empty).
pub open spec fn history_matches(entries: Seq<QueryHistoryEntry>, filter: Seq<char>) -> Seq<usize>
    decreases entries.len(),
{
    if entries.len() == 0 {
        Seq::empty()
    } else {
        let rest = history_matches(entries.drop_last(), filter);
        let q = spec_to_lowercase(filter);
        if q.len() == 0 || seq_contains(spec_to_lowercase(entries.last().sql@), q) {
            rest.push((entries.len() - 1) as usize)
        } else {
            rest
        }
    }
}

/// The scroll position that keeps `selected` among the rows shown.
pub open spec fn scrolled(selected: int, offset: int) -> int {
    if selected < offset {
        selected
    } else if selected >= offset + LIST_ROWS {
        selected - (LIST_ROWS - 1)
    } else {
        offset
    }
}

/// A selection kept on one of `n` matches: the last one when it was past
/// them, and 0 when there are none.
pub open spec fn clamp_selection(sel: int, n: int) -> int {
    if sel >= n {
        if n > 0 {
            n - 1
        } else {
            0
        }
    } else {
        sel
    }
}

/// The query history overlay.
pub struct QueryHistory {
    pub visible: bool,
    pub entries: Vec<QueryHistoryEntry>,
    /// Positions of the entries that match the filter.
    pub filtered: Vec<usize>,
    pub filter_text: String,
    pub selected: usize,
    pub scroll_offset: usize,
}

/// What a key does to the history overlay.
pub open spec fn history_key_post(pre: QueryHistory, post: QueryHistory, key: KeyEvent, r: Option<Action>) -> bool {
    &&& post.entries@ == pre.entries@
    &&& !pre.visible ==> r is None
    &&& pre.visible ==> ({
            let code = key.code;
            let n = pre.filtered@.len();
            let sel = pre.selected as int;
            if code == KeyCode::Esc {
                r matches Some(Action::Render) && !post.visible
            } else if code == KeyCode::Enter {
                if sel < n {
                    (r matches Some(Action::LoadQueryFromHistory(sql))
                        && sql@ == pre.entries@[pre.filtered@[sel] as int].sql@) && !post.visible
                } else {
                    r matches Some(Action::Render) && post.visible
                }
            } else if code == KeyCode::Up {
                r matches Some(Action::Render) && post.selected == (if sel > 0 { sel - 1 } else { 0 })
            } else if code == KeyCode::Down {
                r matches Some(Action::Render) && post.selected == (if sel + 1 < n { sel + 1 } else { sel })
            } else if code == KeyCode::Backspace {
                r matches Some(Action::Render) && post.filter_text@ == (if pre.filter_text@.len() > 0 {
                    pre.filter_text@.drop_last()
                } else {
                    pre.filter_text@
                }) && post.filtered@ == history_matches(pre.entries@, post.filter_text@)
                    && post.selected == clamp_selection(sel, post.filtered@.len() as int)
                    && post.visible
            } else if let KeyCode::Char(c) = code {
                r matches Some(Action::Render) && post.filter_text@ == pre.filter_text@.push(c)
                    && post.filtered@ == history_matches(pre.entries@, post.filter_text@)
                    && post.selected == clamp_selection(sel, post.filtered@.len() as int)
                    && post.visible
            } else {
                r matches Some(Action::NoOp) && post == pre
            }
        })
}

impl QueryHistory {
    /// The filter holds entries that exist.
    pub open spec fn wf(&self) -> bool {
        forall|i: int| 0 <= i < self.filtered@.len() ==> #[trigger] self.filtered@[i] < self.entries@.len()
    }

    pub fn new() -> (r: Self)
        ensures
            r.wf(),
            !r.visible,
            r.entries@.len() == 0,
            r.filtered@.len() == 0,
            r.filter_text@ == Seq::<char>::empty(),
            r.selected == 0,
            r.scroll_offset == 0,
    {
        QueryHistory {
            visible: false,
            entries: Vec::new(),
            filtered: Vec::new(),
            filter_text: String::new(),
            selected: 0,
            scroll_offset: 0,
        }
    }

    /// Shows the overlay on the given entries, unfiltered, from the top.
    pub fn show(&mut self, entries: Vec<QueryHistoryEntry>)
        ensures
            final(self).wf(),
            final(self).visible,
            final(self).entries@ == entries@,
            final(self).filter_text@ == Seq::<char>::empty(),
            final(self).filtered@ == history_matches(entries@, Seq::empty()),
            final(self).selected == 0,
            final(self).scroll_offset == 0,
    {
        self.entries = entries;
        self.filter_text = String::new();
        self.selected = 0;
        self.scroll_offset = 0;
        self.visible = true;
        self.apply_filter();
    }

    /// Hides the overlay.
    pub fn dismiss(&mut self)
        ensures
            !final(self).visible,
            final(self).entries@ == old(self).entries@,
            final(self).filtered@ == old(self).filtered@,
            final(self).selected == old(self).selected,
    {
        self.visible = false;
    }

    /// Recomputes the entries that match the filter, keeping the selection
    /// within them.
    pub fn apply_filter(&mut self)
        ensures
            final(self).wf(),
            final(self).filtered@ == history_matches(old(self).entries@, old(self).filter_text@),
            final(self).entries@ == old(self).entries@,
            final(self).filter_text@ == old(self).filter_text@,
            final(self).visible == old(self).visible,
            final(self).scroll_offset == old(self).scroll_offset,
            final(self).selected == (if old(self).selected >= final(self).filtered@.len() {
                if final(self).filtered@.len() > 0 { final(self).filtered@.len() - 1 } else { 0 }
            } else {
                old(self).selected as int
            }),
    {
        let query = to_lowercase(self.filter_text.as_str());
        let query_empty = str_chars(query.as_str()).len() == 0;
        let mut out: Vec<usize> = Vec::new();
        let mut i: usize = 0;
        while i < self.entries.len()
            invariant
                i <= self.entries@.len(),
                query@ == spec_to_lowercase(self.filter_text@),
                query_empty == (query@.len() == 0),
                out@ == history_matches(self.entries@.take(i as int), self.filter_text@),
                forall|j: int| 0 <= j < out@.len() ==> #[trigger] out@[j] < i,
            decreases self.entries@.len() - i,
        {
            assert(self.entries@.take(i + 1).drop_last() =~= self.entries@.take(i as int));
            if query_empty {
                out.push(i);
            } else {
                let sql = to_lowercase(self.entries[i].sql.as_str());
                if str_contains(sql.as_str(), query.as_str()) {
                    out.push(i);
                }
            }
            i += 1;
        }
        assert(self.entries@.take(self.entries@.len() as int) =~= self.entries@);
        self.filtered = out;
        if self.selected >= self.filtered.len() {
            self.selected = if self.filtered.len() > 0 {
                self.filtered.len() - 1
            } else {
                0
            };
        }
    }

    /// Scrolls so that the selected entry is among the rows shown.
    pub fn adjust_scroll(&mut self)
        ensures
            final(self).scroll_offset == scrolled(old(self).selected as int, old(self).scroll_offset as int),
            final(self).selected == old(self).selected,
            final(self).entries@ == old(self).entries@,
            final(self).filtered@ == old(self).filtered@,
            final(self).filter_text@ == old(self).filter_text@,
            final(self).visible == old(self).visible,
    {
        if self.selected < self.scroll_offset {
            self.scroll_offset = self.selected;
        } else if self.selected - self.scroll_offset >= LIST_ROWS {
            self.scroll_offset = self.selected - (LIST_ROWS - 1);
        }
    }

    /// A key while the overlay is shown: Esc hides it, Enter loads the
    /// selected entry's text into the editor, Up and Down move the
    /// selection, Backspace and characters edit the filter; other keys are
    /// swallowed. Hidden, it takes no key.
    pub fn handle_key(&mut self, key: KeyEvent) -> (r: Option<Action>)
        requires
            old(self).wf(),
        ensures
            final(self).wf(),
            history_key_post(*old(self), *final(self), key, r),
    {
        if !self.visible {
            return None;
        }
        match key.code {
            KeyCode::Esc => {
                self.dismiss();
                Some(Action::Render)
            },
            KeyCode::Enter => {
                if self.selected < self.filtered.len() {
                    let idx = self.filtered[self.selected];
                    let sql = self.entries[idx].sql.clone();
                    self.dismiss();
                    Some(Action::LoadQueryFromHistory(sql))
                } else {
                    Some(Action::Render)
                }
            },
            KeyCode::Up => {
                if self.selected > 0 {
                    self.selected -= 1;
                }
                self.adjust_scroll();
                Some(Action::Render)
            },
            KeyCode::Down => {
                if self.selected < self.filtered.len() && self.filtered.len() - self.selected > 1 {
                    self.selected += 1;
                }
                self.adjust_scroll();
                Some(Action::Render)
            },
            KeyCode::Backspace => {
                let mut chars = str_chars(self.filter_text.as_str());
                if chars.len() > 0 {
                    chars.pop();
                }
                self.filter_text = crate::text::chars_to_string(chars.as_slice());
                self.apply_filter();
                Some(Action::Render)
            },
            KeyCode::Char(c) => {
                crate::text::string_push(&mut self.filter_text, c);
                self.apply_filter();
                Some(Action::Render)
            },
            _ => Some(Action::NoOp),
        }
    }
}

/// The saved queries overlay.
pub struct SavedQueriesPane {
    pub visible: bool,
    pub queries: Vec<SavedQuery>,
    pub selected: usize,
    pub scroll_offset: usize,
    pub editing_title: bool,
    pub edit_buffer: String,
    pub delete_confirm: bool,
}

impl SavedQueriesPane {
    /// The selection is on a query when there are queries, and 0 otherwise.
    pub open spec fn wf(&self) -> bool {
        if self.queries@.len() > 0 {
            self.selected < self.queries@.len()
        } else {
            self.selected == 0
        }
    }

    pub fn new() -> (r: Self)
        ensures
            r.wf(),
            !r.visible,
            r.queries@.len() == 0,
            r.selected == 0,
            r.scroll_offset == 0,
            !r.editing_title,
            r.edit_buffer@ == Seq::<char>::empty(),
            !r.delete_confirm,
    {
        SavedQueriesPane {
            visible: false,
            queries: Vec::new(),
            selected: 0,
            scroll_offset: 0,
            editing_title: false,
            edit_buffer: String::new(),
            delete_confirm: false,
        }
    }

    /// Shows or hides the overlay.
    pub fn toggle(&mut self)
        ensures
            final(self).visible == !old(self).visible,
            final(self).queries@ == old(self).queries@,
            final(self).selected == old(self).selected,
    {
        self.visible = !self.visible;
    }

    /// Replaces the queries, keeping the selection within them.
    pub fn set_queries(&mut self, queries: Vec<SavedQuery>)
        ensures
            final(self).queries@ == queries@,
            final(self).selected == (if old(self).selected >= queries@.len() {
                if queries@.len() > 0 { queries@.len() - 1 } else { 0 }
            } else {
                old(self).selected as int
            }),
            final(self).visible == old(self).visible,
    {
        self.queries = queries;
        if self.selected >= self.queries.len() {
            self.selected = if self.queries.len() > 0 {
                self.queries.len() - 1
            } else {
                0
            };
        }
    }

    /// Scrolls so that the selected query is among the rows shown.
    pub fn adjust_scroll(&mut self)
        ensures
            final(self).scroll_offset == scrolled(old(self).selected as int, old(self).scroll_offset as int),
            final(self).selected == old(self).selected,
            final(self).queries@ == old(self).queries@,
            final(self).visible == old(self).visible,
            final(self).editing_title == old(self).editing_title,
            final(self).delete_confirm == old(self).delete_confirm,
    {
        if self.selected < self.scroll_offset {
            self.scroll_offset = self.selected;
        } else if self.selected - self.scroll_offset >= LIST_ROWS {
            self.scroll_offset = self.selected - (LIST_ROWS - 1);
        }
    }

    /// A key while the overlay is shown. While a deletion is being
    /// confirmed, `y` deletes the selected query (asking for the queries to
    /// be written) and any other key cancels. While a title is edited,
    /// Enter stores it (asking for the queries to be written), Esc cancels,
    /// Backspace and characters edit it. Otherwise Esc hides the overlay,
    /// Down/`j` and Up/`k` move the selection, Enter loads the selected
    /// query, `e` edits its title and `d` asks to delete it.
    pub fn handle_key(&mut self, key: KeyEvent) -> (r: Option<Action>)
        requires
            old(self).wf(),
        ensures
            final(self).wf(),
            !old(self).visible ==> r is None && *final(self) == *old(self),
            old(self).visible && old(self).delete_confirm ==> !final(self).delete_confirm && if (key.code == KeyCode::Char('y')
                || key.code == KeyCode::Char('Y')) && old(self).queries@.len() > 0 {
                r matches Some(Action::PersistSavedQueries) && final(self).queries@ == old(self).queries@.remove(old(self).selected as int)
            } else {
                r matches Some(Action::Render) && final(self).queries@ == old(self).queries@
            },
            old(self).visible && !old(self).delete_confirm && old(self).editing_title ==> ({
                let code = key.code;
                if code == KeyCode::Enter {
                    r matches Some(Action::PersistSavedQueries) && !final(self).editing_title
                        && final(self).queries@.len() == old(self).queries@.len()
                        && (old(self).queries@.len() > 0 ==> final(self).queries@[old(self).selected as int].title@ == old(self).edit_buffer@)
                } else if code == KeyCode::Esc {
                    r matches Some(Action::Render) && !final(self).editing_title && final(self).queries@ == old(self).queries@
                } else if code == KeyCode::Backspace {
                    r matches Some(Action::Render) && final(self).editing_title && final(self).edit_buffer@ == (if old(self).edit_buffer@.len() > 0 {
                        old(self).edit_buffer@.drop_last()
                    } else {
                        old(self).edit_buffer@
                    })
                } else if let KeyCode::Char(c) = code {
                    r matches Some(Action::Render) && final(self).editing_title && final(self).edit_buffer@ == old(self).edit_buffer@.push(c)
                } else {
                    r matches Some(Action::NoOp) && *final(self) == *old(self)
                }
            }),
            old(self).visible && !old(self).delete_confirm && !old(self).editing_title ==> ({
                let code = key.code;
                let n = old(self).queries@.len();
                let sel = old(self).selected as int;
                final(self).queries@ == old(self).queries@ && if code == KeyCode::Esc {
                    r matches Some(Action::Render) && !final(self).visible
                } else if code == KeyCode::Down || code == KeyCode::Char('j') {
                    r matches Some(Action::Render) && final(self).selected == (if sel + 1 < n { sel + 1 } else { sel })
                } else if code == KeyCode::Up || code == KeyCode::Char('k') {
                    r matches Some(Action::Render) && final(self).selected == (if sel > 0 { sel - 1 } else { 0 })
                } else if code == KeyCode::Enter {
                    if n > 0 {
                        (r matches Some(Action::LoadSavedQuery { id, sql }) && id == old(self).queries@[sel].id
                            && sql@ == old(self).queries@[sel].sql@) && !final(self).visible
                    } else {
                        r matches Some(Action::Render)
                    }
                } else if code == KeyCode::Char('e') {
                    r matches Some(Action::Render) && (n > 0 ==> final(self).editing_title
                        && final(self).edit_buffer@ == old(self).queries@[sel].title@)
                } else if code == KeyCode::Char('d') {
                    r matches Some(Action::Render) && final(self).delete_confirm == (n > 0)
                } else {
                    r matches Some(Action::NoOp) && *final(self) == *old(self)
                }
            }),
    {
        if !self.visible {
            return None;
        }
        if self.delete_confirm {
            match key.code {
                KeyCode::Char('y') | KeyCode::Char('Y') => {
                    self.delete_confirm = false;
                    if self.queries.len() > 0 {
                        self.queries.remove(self.selected);
                        if self.selected >= self.queries.len() {
                            self.selected = if self.queries.len() > 0 {
                                self.queries.len() - 1
                            } else {
                                0
                            };
                        }
                        return Some(Action::PersistSavedQueries);
                    }
                    return Some(Action::Render);
                },
                _ => {
                    self.delete_confirm = false;
                    return Some(Action::Render);
                },
            }
        }
        if self.editing_title {
            match key.code {
                KeyCode::Enter => {
                    if self.selected < self.queries.len() {
                        let mut q = self.queries.remove(self.selected);
                        q.title = self.edit_buffer.clone();
                        self.queries.insert(self.selected, q);
                    }
                    self.editing_title = false;
                    return Some(Action::PersistSavedQueries);
                },
                KeyCode::Esc => {
                    self.editing_title = false;
                    return Some(Action::Render);
                },
                KeyCode::Backspace => {
                    let mut chars = str_chars(self.edit_buffer.as_str());
                    if chars.len() > 0 {
                        chars.pop();
                    }
                    self.edit_buffer = crate::text::chars_to_string(chars.as_slice());
                    return Some(Action::Render);
                },
                KeyCode::Char(c) => {
                    crate::text::string_push(&mut self.edit_buffer, c);
                    return Some(Action::Render);
                },
                _ => {
                    return Some(Action::NoOp);
                },
            }
        }
        match key.code {
            KeyCode::Esc => {
                self.visible = false;
                Some(Action::Render)
            },
            KeyCode::Down | KeyCode::Char('j') => {
                if self.queries.len() > 0 && self.selected < self.queries.len() - 1 {
                    self.selected += 1;
                }
                self.adjust_scroll();
                Some(Action::Render)
            },
            KeyCode::Up | KeyCode::Char('k') => {
                if self.selected > 0 {
                    self.selected -= 1;
                }
                self.adjust_scroll();
                Some(Action::Render)
            },
            KeyCode::Enter => {
                if self.selected < self.queries.len() {
                    let sql = self.queries[self.selected].sql.clone();
                    let id = self.queries[self.selected].id;
                    self.visible = false;
                    return Some(Action::LoadSavedQuery { id, sql });
                }
                Some(Action::Render)
            },
            KeyCode::Char('e') => {
                if self.selected < self.queries.len() {
                    self.edit_buffer = self.queries[self.selected].title.clone();
                    self.editing_title = true;
                }
                Some(Action::Render)
            },
            KeyCode::Char('d') => {
                if self.queries.len() > 0 {
                    self.delete_confirm = true;
                }
                Some(Action::Render)
            },
            _ => Some(Action::NoOp),
        }
    }
}

} // verus!
