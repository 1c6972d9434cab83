//! The row detail popup: every column of one result row with its value,
//! scrollable and searchable by column name.

use vstd::prelude::*;
use crate::columns_tab::matching_columns;
use crate::json::{JsonValue, JsonValueView, display_text, format_value};
use crate::keys::{KeyCode, KeyEvent};
use crate::text::{str_chars, str_contains, to_lowercase};

verus! {

/// One line of the popup: the column name, the value as shown, and
/// whether the value is null (or missing).
pub type DetailEntry = (String, String, bool);

/// The names of the entries.
pub open spec fn entry_names(e: Seq<DetailEntry>) -> Seq<Seq<char>> {
    e.map_values(|x: DetailEntry| x.0@)
}

/// The query the filter uses: the search text, or empty when not searching.
pub open spec fn query_of(search: Option<String>) -> Seq<char> {
    match search {
        Some(q) => q@,
        None => Seq::empty(),
    }
}

/// The entry for column `i` of a row: the column name, the value shown as
/// in tables (`NULL` when the row has no such value), and whether it is
/// null.
pub open spec fn entry_of(columns: Seq<Seq<char>>, row: Seq<JsonValueView>, i: int) -> (Seq<char>, Seq<char>, bool) {
    let v = if i < row.len() {
        row[i]
    } else {
        JsonValueView::Null
    };
    (columns[i], display_text(v), v is Null)
}

/// A scroll offset kept within `n` entries: at most the last one, and 0
/// when there are none.
pub open spec fn clamp_offset(off: int, n: int) -> int {
    if n == 0 {
        0
    } else if off < n - 1 {
        off
    } else {
        n - 1
    }
}

/// The row detail popup.
pub struct RowDetailPopup {
    pub visible: bool,
    /// All entries.
    pub entries: Vec<DetailEntry>,
    /// Positions of the entries shown.
    pub filtered: Vec<usize>,
    pub scroll_offset: usize,
    /// The search being typed, if any.
    pub search: Option<String>,
}

impl RowDetailPopup {
    /// The scroll offset is on a shown entry (0 when none is shown) and
    /// every shown position is that of an entry.
    pub open spec fn wf(&self) -> bool {
        &&& self.scroll_offset <= (if self.filtered@.len() > 0 { self.filtered@.len() - 1 } else { 0 })
        &&& self.filtered@.len() <= self.entries@.len()
        &&& forall|i: int| 0 <= i < self.filtered@.len() ==> #[trigger] self.filtered@[i] < self.entries@.len()
    }

    /// Hidden and empty, at the top, not searching.
    pub open spec fn is_initial(&self) -> bool {
        &&& !self.visible
        &&& self.entries@.len() == 0
        &&& self.filtered@.len() == 0
        &&& self.scroll_offset == 0
        &&& self.search is None
    }

    pub fn new() -> (r: Self)
        ensures
            r.is_initial(),
            r.wf(),
    {
        RowDetailPopup {
            visible: false,
            entries: Vec::new(),
            filtered: Vec::new(),
            scroll_offset: 0,
            search: None,
        }
    }

    /// Shows the popup for a row: one entry per column, all shown, from the
    /// top, not searching.
    pub fn show(&mut self, columns: &Vec<String>, row: &Vec<JsonValue>)
        ensures
            final(self).visible,
            final(self).entries@.len() == columns@.len(),
            forall|i: int| 0 <= i < columns@.len() ==> ({
                let e = #[trigger] final(self).entries@[i];
                (e.0@, e.1@, e.2) == entry_of(
                    columns@.map_values(|s: String| s@),
                    row@.map_values(|v: JsonValue| v@),
                    i,
                )
            }),
            final(self).filtered@ == matching_columns(entry_names(final(self).entries@), Seq::empty()),
            final(self).scroll_offset == 0,
            final(self).search is None,
            final(self).wf(),
    {
        proof {
            crate::columns_tab::lemma_matching_in_range(entry_names(Seq::empty()), Seq::empty());
        }
        let ghost cv = columns@.map_values(|s: String| s@);
        let ghost rv = row@.map_values(|v: JsonValue| v@);
        let mut entries: Vec<DetailEntry> = Vec::new();
        let mut i: usize = 0;
        while i < columns.len()
            invariant
                i <= columns@.len(),
                cv == columns@.map_values(|s: String| s@),
                rv == row@.map_values(|v: JsonValue| v@),
                entries@.len() == i,
                forall|j: int| 0 <= j < i ==> ({
                    let e = #[trigger] entries@[j];
                    (e.0@, e.1@, e.2) == entry_of(cv, rv, j)
                }),
            decreases columns@.len() - i,
        {
            let (formatted, is_null) = if i < row.len() {
                let v = &row[i];
                let n = match v {
                    JsonValue::Null => true,
                    _ => false,
                };
                (format_value(v), n)
            } else {
                (format_value(&JsonValue::Null), true)
            };
            entries.push((columns[i].clone(), formatted, is_null));
            i += 1;
        }
        self.entries = entries;
        self.filtered = all_positions(self.entries.len());
        proof {
            lemma_all_positions(entry_names(self.entries@));
        }
        self.scroll_offset = 0;
        self.search = None;
        self.visible = true;
    }

    /// Hides the popup and ends any search.
    pub fn dismiss(&mut self)
        ensures
            !final(self).visible,
            final(self).search is None,
            final(self).entries@ == old(self).entries@,
            final(self).filtered@ == old(self).filtered@,
            final(self).scroll_offset == old(self).scroll_offset,
    {
        self.visible = false;
        self.search = None;
    }

    /// Recomputes the entries shown. With a non-empty query, the entries
    /// whose lowercased name contains the lowercased query are shown and
    /// the scroll position is kept within them; otherwise all are shown.
    pub fn refilter(&mut self)
        ensures
            final(self).filtered@ == matching_columns(entry_names(old(self).entries@), query_of(old(self).search)),
            final(self).filtered@.len() <= final(self).entries@.len(),
            query_of(old(self).search).len() == 0 ==> final(self).filtered@.len() == final(self).entries@.len(),
            forall|i: int| 0 <= i < final(self).filtered@.len() ==> #[trigger] final(self).filtered@[i] < final(self).entries@.len(),
            final(self).entries@ == old(self).entries@,
            final(self).search == old(self).search,
            final(self).visible == old(self).visible,
            query_of(old(self).search).len() == 0 ==> final(self).scroll_offset == old(self).scroll_offset,
            query_of(old(self).search).len() > 0 ==> final(self).scroll_offset == (if final(self).filtered@.len() == 0 {
                0
            } else if old(self).scroll_offset < final(self).filtered@.len() - 1 {
                old(self).scroll_offset as int
            } else {
                final(self).filtered@.len() - 1
            }),
    {
        let count = self.entries.len();
        proof {
            crate::columns_tab::lemma_matching_in_range(entry_names(self.entries@), query_of(self.search));
        }
        let query_empty = match &self.search {
            Some(q) => str_chars(q.as_str()).len() == 0,
            None => true,
        };
        if query_empty {
            self.filtered = all_positions(count);
            proof {
                lemma_all_positions(entry_names(self.entries@));
                lemma_matching_empty_query(entry_names(self.entries@), query_of(self.search));
            }
            return;
        }
        let query = match &self.search {
            Some(q) => to_lowercase(q.as_str()),
            None => to_lowercase(""),
        };
        let ghost names = entry_names(self.entries@);
        let mut out: Vec<usize> = Vec::new();
        let mut i: usize = 0;
        while i < self.entries.len()
            invariant
                i <= self.entries@.len(),
                names == entry_names(self.entries@),
                query_of(self.search).len() > 0,
                query@ == crate::text::spec_to_lowercase(query_of(self.search)),
                out@ == matching_columns(names.take(i as int), query_of(self.search)),
            decreases self.entries@.len() - i,
        {
            assert(names.take(i + 1).drop_last() =~= names.take(i as int));
            assert(names.take(i + 1).last() == self.entries@[i as int].0@);
            let name_lower = to_lowercase(self.entries[i].0.as_str());
            if str_contains(name_lower.as_str(), query.as_str()) {
                out.push(i);
            }
            i += 1;
        }
        assert(names.take(self.entries@.len() as int) =~= names);
        self.filtered = out;
        if self.filtered.len() == 0 {
            self.scroll_offset = 0;
        } else if self.scroll_offset >= self.filtered.len() - 1 {
            self.scroll_offset = self.filtered.len() - 1;
        }
    }

    /// A key while the popup is shown; every key is taken. While searching:
    /// Esc ends the search and shows all entries from the top, Enter ends
    /// it keeping the entries shown, Backspace shortens the query (ending
    /// the search when it empties) and a character extends it. Otherwise
    /// Down/`j`, Up/`k`, PageDown, PageUp, Home and End scroll, `/` starts a
    /// search, and Esc or Enter hide the popup.
    pub fn handle_key(&mut self, key: KeyEvent) -> (r: bool)
        ensures
            r,
            old(self).wf() ==> final(self).wf(),
            final(self).entries@ == old(self).entries@,
            ({
                let code = key.code;
                let n = old(self).filtered@.len();
                let max: int = if n > 0 { n - 1 } else { 0 };
                let off = old(self).scroll_offset as int;
                match old(self).search {
                    Some(q) => if code == KeyCode::Esc {
                        final(self).search is None && final(self).scroll_offset == 0
                            && final(self).filtered@ == matching_columns(entry_names(old(self).entries@), Seq::empty())
                    } else if code == KeyCode::Enter {
                        final(self).search is None && final(self).filtered@ == old(self).filtered@
                            && final(self).scroll_offset == old(self).scroll_offset
                    } else if code == KeyCode::Backspace {
                        let nq = if q@.len() > 0 { q@.drop_last() } else { q@ };
                        query_of(final(self).search) == nq && (nq.len() == 0 ==> final(self).search is None)
                            && final(self).filtered@ == matching_columns(entry_names(old(self).entries@), nq)
                            && final(self).visible == old(self).visible
                            && final(self).scroll_offset == (if nq.len() == 0 {
                            off
                        } else {
                            clamp_offset(off, final(self).filtered@.len() as int)
                        })
                    } else if let KeyCode::Char(c) = code {
                        query_of(final(self).search) == q@.push(c) && final(self).search is Some
                            && final(self).filtered@ == matching_columns(entry_names(old(self).entries@), q@.push(c))
                            && final(self).visible == old(self).visible
                            && final(self).scroll_offset == clamp_offset(off, final(self).filtered@.len() as int)
                    } else {
                        *final(self) == *old(self)
                    },
                    None => final(self).filtered@ == old(self).filtered@ && if code == KeyCode::Down || code == KeyCode::Char('j') {
                        final(self).scroll_offset == (if off < max { off + 1 } else { off }) && final(self).search is None
                    } else if code == KeyCode::Up || code == KeyCode::Char('k') {
                        final(self).scroll_offset == (if off > 0 { off - 1 } else { 0 }) && final(self).search is None
                    } else if code == KeyCode::PageDown {
                        final(self).scroll_offset == (if off + 10 < max { off + 10 } else { max }) && final(self).search is None
                    } else if code == KeyCode::PageUp {
                        final(self).scroll_offset == (if off > 10 { off - 10 } else { 0 }) && final(self).search is None
                    } else if code == KeyCode::Home {
                        final(self).scroll_offset == 0 && final(self).search is None
                    } else if code == KeyCode::End {
                        final(self).scroll_offset == max && final(self).search is None
                    } else if code == KeyCode::Char('/') {
                        query_of(final(self).search) == Seq::<char>::empty() && final(self).search is Some
                            && final(self).scroll_offset == old(self).scroll_offset
                    } else if code == KeyCode::Esc || code == KeyCode::Enter {
                        !final(self).visible && final(self).search is None && final(self).scroll_offset == old(self).scroll_offset
                    } else {
                        *final(self) == *old(self)
                    },
                }
            }),
    {
        if self.search.is_some() {
            match key.code {
                KeyCode::Esc => {
                    self.search = None;
                    self.refilter();
                    self.scroll_offset = 0;
                    return true;
                },
                KeyCode::Enter => {
                    self.search = None;
                    return true;
                },
                KeyCode::Backspace => {
                    let q = match &self.search {
                        Some(q) => q.clone(),
                        None => String::new(),
                    };
                    let mut chars = str_chars(q.as_str());
                    if chars.len() > 0 {
                        chars.pop();
                    }
                    if chars.len() == 0 {
                        assert(chars@ =~= Seq::<char>::empty());
                        self.search = None;
                    } else {
                        self.search = Some(crate::text::chars_to_string(chars.as_slice()));
                    }
                    self.refilter();
                    return true;
                },
                KeyCode::Char(c) => {
                    let mut q = match &self.search {
                        Some(q) => q.clone(),
                        None => String::new(),
                    };
                    crate::text::string_push(&mut q, c);
                    self.search = Some(q);
                    self.refilter();
                    return true;
                },
                _ => {
                    return true;
                },
            }
        }
        let n = self.filtered.len();
        let max: usize = if n > 0 {
            n - 1
        } else {
            0
        };
        match key.code {
            KeyCode::Down | KeyCode::Char('j') => {
                if self.scroll_offset < max {
                    self.scroll_offset += 1;
                }
                true
            },
            KeyCode::Up | KeyCode::Char('k') => {
                if self.scroll_offset > 0 {
                    self.scroll_offset -= 1;
                }
                true
            },
            KeyCode::PageDown => {
                if self.scroll_offset < max && max - self.scroll_offset > 10 {
                    self.scroll_offset += 10;
                } else {
                    self.scroll_offset = max;
                }
                true
            },
            KeyCode::PageUp => {
                if self.scroll_offset > 10 {
                    self.scroll_offset -= 10;
                } else {
                    self.scroll_offset = 0;
                }
                true
            },
            KeyCode::Home => {
                self.scroll_offset = 0;
                true
            },
            KeyCode::End => {
                self.scroll_offset = max;
                true
            },
            KeyCode::Char('/') => {
                self.search = Some(String::new());
                true
            },
            KeyCode::Esc | KeyCode::Enter => {
                self.dismiss();
                true
            },
            _ => true,
        }
    }
}

/// The positions `0..n`.
fn all_positions(n: usize) -> (r: Vec<usize>)
    ensures
        r@.len() == n,
        forall|i: int| 0 <= i < n ==> #[trigger] r@[i] == i,
{
    let mut v: Vec<usize> = Vec::new();
    let mut i: usize = 0;
    while i < n
        invariant
            i <= n,
            v@.len() == i,
            forall|j: int| 0 <= j < i ==> #[trigger] v@[j] == j,
        decreases n - i,
    {
        v.push(i);
        i += 1;
    }
    v
}

proof fn lemma_all_positions(names: Seq<Seq<char>>)
    requires
        names.len() <= usize::MAX,
    ensures
        matching_columns(names, Seq::empty()).len() == names.len(),
        forall|i: int| 0 <= i < names.len() ==> #[trigger] matching_columns(names, Seq::empty())[i] == i,
    decreases names.len(),
{
    if names.len() > 0 {
        lemma_all_positions(names.drop_last());
        let rest = matching_columns(names.drop_last(), Seq::empty());
        assert(matching_columns(names, Seq::empty()) == rest.push((names.len() - 1) as usize));
        assert forall|i: int| 0 <= i < names.len() implies #[trigger] matching_columns(names, Seq::empty())[i] == i by {
            if i < names.len() - 1 {
                assert(rest[i] == i);
            }
        }
    }
}

proof fn lemma_matching_empty_query(names: Seq<Seq<char>>, q: Seq<char>)
    requires
        q.len() == 0,
    ensures
        matching_columns(names, q) == matching_columns(names, Seq::empty()),
    decreases names.len(),
{
    if names.len() > 0 {
        lemma_matching_empty_query(names.drop_last(), q);
    }
}

} // verus!
