//! The results table of the query mode: the rows of the last result, a
//! selected row, horizontal scrolling, and the detail popup of a row.

use vstd::prelude::*;
use crate::action::Action;
use crate::json::{JsonValue, JsonValueView, display_text, format_value};
use crate::keys::{KeyCode, KeyEvent};
use crate::parser::QueryResult;
use crate::row_detail::RowDetailPopup;
use crate::table_layout::{fit_count, fit_prefix, lemma_fit_count_bound, nat_widths};

verus! {

/// The rows of a page.
pub const PAGE_ROWS: usize = 20;

/// What the results table shows.
#[derive(Debug, Clone)]
pub enum ResultsState {
    Empty,
    Loading,
    Loaded,
    Error(String),
}

/// The results table.
pub struct ResultsTable {
    pub state: ResultsState,
    pub result: Option<QueryResult>,
    pub selected_row: usize,
    pub row_offset: usize,
    pub scroll_col: usize,
    pub focused: bool,
    /// Rows shown at once, header included (set when drawn).
    pub visible_height: usize,
    pub row_detail: RowDetailPopup,
    /// The cells of the result as shown, computed once per result.
    pub formatted_cells: Vec<Vec<String>>,
}

/// The last row of the result, or 0.
pub open spec fn spec_max_row(result: Option<QueryResult>) -> int {
    match result {
        Some(r) => if r.rows@.len() > 0 {
            r.rows@.len() - 1
        } else {
            0
        },
        None => 0,
    }
}

/// The last column of the result, or 0.
pub open spec fn spec_max_col(result: Option<QueryResult>) -> int {
    match result {
        Some(r) => if r.columns@.len() > 0 {
            r.columns@.len() - 1
        } else {
            0
        },
        None => 0,
    }
}

/// The cells of rows as shown.
pub open spec fn cells_view(rows: Seq<Vec<JsonValue>>) -> Seq<Seq<Seq<char>>> {
    rows.map_values(|r: Vec<JsonValue>| r@.map_values(|v: JsonValue| display_text(v@)))
}

/// The views of formatted cells.
pub open spec fn formatted_view(cells: Seq<Vec<String>>) -> Seq<Seq<Seq<char>>> {
    cells.map_values(|r: Vec<String>| r@.map_values(|s: String| s@))
}

fn format_row(row: &Vec<JsonValue>) -> (r: Vec<String>)
    ensures
        r@.map_values(|s: String| s@) == row@.map_values(|v: JsonValue| display_text(v@)),
{
    let mut out: Vec<String> = Vec::new();
    let mut i: usize = 0;
    while i < row.len()
        invariant
            i <= row@.len(),
            out@.map_values(|s: String| s@) == row@.take(i as int).map_values(|v: JsonValue| display_text(v@)),
        decreases row@.len() - i,
    {
        let ghost prev = out@;
        out.push(format_value(&row[i]));
        assert(row@.take(i + 1) =~= row@.take(i as int).push(row@[i as int]));
        assert(out@.map_values(|s: String| s@) =~= prev.map_values(|s: String| s@).push(display_text(row@[i as int]@)));
        assert(out@.map_values(|s: String| s@) =~= row@.take(i + 1).map_values(|v: JsonValue| display_text(v@)));
        i += 1;
    }
    assert(row@.take(row@.len() as int) =~= row@);
    out
}

/// What a key does to the results table.
pub open spec fn results_key_post(pre: ResultsTable, post: ResultsTable, key: KeyEvent, r: Option<Action>) -> bool {
    &&& post.result == pre.result
    &&& pre.row_detail.visible ==> (r matches Some(Action::Render)
            && post.selected_row == pre.selected_row)
    &&& !pre.row_detail.visible ==> ({
            let code = key.code;
            let sel = pre.selected_row as int;
            let maxr = spec_max_row(pre.result);
            let col = pre.scroll_col as int;
            if code == KeyCode::Enter {
                r matches Some(Action::Render) && post.selected_row == pre.selected_row && post.scroll_col == col
                    && (match pre.result {
                    Some(res) => sel < res.rows@.len() ==> post.row_detail.visible,
                    None => true,
                })
            } else if code == KeyCode::Down || code == KeyCode::Char('j') {
                r matches Some(Action::Render) && post.selected_row == (if sel < maxr { sel + 1 } else { sel }) && post.scroll_col == col
            } else if code == KeyCode::Up || code == KeyCode::Char('k') {
                r matches Some(Action::Render) && post.selected_row == (if sel > 0 { sel - 1 } else { 0 }) && post.scroll_col == col
            } else if code == KeyCode::PageDown {
                r matches Some(Action::Render) && post.selected_row == (if sel + 20 < maxr { sel + 20 } else { maxr }) && post.scroll_col == col
            } else if code == KeyCode::PageUp {
                r matches Some(Action::Render) && post.selected_row == (if sel > 20 { sel - 20 } else { 0 }) && post.scroll_col == col
            } else if code == KeyCode::Home {
                r matches Some(Action::Render) && post.selected_row == 0 && post.scroll_col == col
            } else if code == KeyCode::End {
                r matches Some(Action::Render) && post.selected_row == maxr && post.scroll_col == col
            } else if code == KeyCode::Right || code == KeyCode::Char('l') {
                r matches Some(Action::Render) && post.selected_row == sel
                    && post.scroll_col == (if col < spec_max_col(pre.result) { col + 1 } else { col })
            } else if code == KeyCode::Left || code == KeyCode::Char('h') {
                r matches Some(Action::Render) && post.selected_row == sel
                    && post.scroll_col == (if col > 0 { col - 1 } else { 0 })
            } else {
                r is None && post.selected_row == sel && post.scroll_col == col
            }
        })
}

/// The longest text of column `ci` among the given rows of cells (0 when
/// there is none).
pub open spec fn longest_cell(rows: Seq<Vec<String>>, ci: int) -> nat
    decreases rows.len(),
{
    if rows.len() == 0 {
        0
    } else {
        let rest = longest_cell(rows.drop_last(), ci);
        let row = rows.last();
        let l: nat = if 0 <= ci < row@.len() {
            row@[ci]@.len()
        } else {
            0
        };
        if l > rest {
            l
        } else {
            rest
        }
    }
}

/// Where the rows that size the columns start: the first row shown, or the
/// end when it is past the end.
pub open spec fn sample_start(n: int, offset: int) -> int {
    if offset < n {
        offset
    } else {
        n
    }
}

/// Where they end: a hundred rows later, or at the end.
pub open spec fn sample_end(n: int, offset: int) -> int {
    if sample_start(n, offset) + 100 < n {
        sample_start(n, offset) + 100
    } else {
        n
    }
}

/// The width of column `ci`: its header's length or the longest of its
/// cells in the hundred rows from the first shown (counted up to 40),
/// whichever is larger, and at least 4.
pub open spec fn result_column_width(headers: Seq<String>, cells: Seq<Vec<String>>, offset: int, ci: int) -> nat {
    let h = headers[ci]@.len();
    let d = longest_cell(cells.subrange(sample_start(cells.len() as int, offset), sample_end(cells.len() as int, offset)), ci);
    let capped = if d < 40 {
        d
    } else {
        40
    };
    let w = if h > capped {
        h
    } else {
        capped
    };
    if w > 4 {
        w
    } else {
        4
    }
}

/// The longest text of a column is at least that of each of the rows'
/// cells, and is 0 or the length of one of them.
pub proof fn lemma_longest_cell_bounds(rows: Seq<Vec<String>>, ci: int)
    ensures
        forall|k: int|
            0 <= k < rows.len() && 0 <= ci < rows[k]@.len() ==> longest_cell(rows, ci) >= (#[trigger] rows[k])@[ci]@.len(),
        longest_cell(rows, ci) == 0 || exists|k: int|
            0 <= k < rows.len() && 0 <= ci < rows[k]@.len() && longest_cell(rows, ci) == (#[trigger] rows[k])@[ci]@.len(),
    decreases rows.len(),
{
    if rows.len() > 0 {
        let prev = rows.drop_last();
        lemma_longest_cell_bounds(prev, ci);
        assert forall|k: int| 0 <= k < prev.len() implies #[trigger] rows[k] == prev[k] by {}
        if longest_cell(rows, ci) != 0 && longest_cell(rows, ci) != longest_cell(prev, ci) {
            assert(rows[rows.len() - 1] == rows.last());
        }
        if longest_cell(rows, ci) != 0 && longest_cell(rows, ci) == longest_cell(prev, ci) {
            let k = choose|k: int|
                0 <= k < prev.len() && 0 <= ci < prev[k]@.len() && longest_cell(prev, ci) == (#[trigger] prev[k])@[ci]@.len();
            assert(rows[k] == prev[k]);
        }
    }
}

/// A column of the results is at least 4 wide, at least as wide as its
/// header, and at least as wide as each of its cells in the hundred rows
/// from the first shown (a cell counted up to 40); its width is one of
/// these.
pub proof fn lemma_column_width_covers_cells(headers: Seq<String>, cells: Seq<Vec<String>>, offset: int, ci: int)
    requires
        0 <= ci < headers.len(),
        0 <= offset,
    ensures
        result_column_width(headers, cells, offset, ci) >= 4,
        result_column_width(headers, cells, offset, ci) >= headers[ci]@.len(),
        forall|k: int|
            sample_start(cells.len() as int, offset) <= k < sample_end(cells.len() as int, offset) && 0 <= ci
                < cells[k]@.len() ==> result_column_width(headers, cells, offset, ci) >= (if (#[trigger] cells[k])@[ci]@.len() < 40 {
                cells[k]@[ci]@.len()
            } else {
                40
            }),
        ({
            let w = result_column_width(headers, cells, offset, ci);
            w == 4 || w == headers[ci]@.len() || w == 40 || exists|k: int|
                sample_start(cells.len() as int, offset) <= k < sample_end(cells.len() as int, offset) && 0 <= ci
                    < cells[k]@.len() && w == (#[trigger] cells[k])@[ci]@.len()
        }),
{
    let n = cells.len() as int;
    let lo = sample_start(n, offset);
    let hi = sample_end(n, offset);
    let sample = cells.subrange(lo, hi);
    assert(0 <= lo <= hi <= n);
    lemma_longest_cell_bounds(sample, ci);
    assert forall|k: int| lo <= k < hi && 0 <= ci < cells[k]@.len() implies result_column_width(
        headers,
        cells,
        offset,
        ci,
    ) >= (if (#[trigger] cells[k])@[ci]@.len() < 40 {
        cells[k]@[ci]@.len()
    } else {
        40
    }) by {
        assert(sample[k - lo] == cells[k]);
    }
    let w = result_column_width(headers, cells, offset, ci);
    if w != 4 && w != headers[ci]@.len() && w != 40 {
        let j = choose|j: int|
            0 <= j < sample.len() && 0 <= ci < sample[j]@.len() && longest_cell(sample, ci) == (#[trigger] sample[j])@[ci]@.len();
        assert(sample[j] == cells[lo + j]);
    }
}

impl ResultsTable {
    pub fn new() -> (r: Self)
        ensures
            r.state is Empty,
            r.result is None,
            r.selected_row == 0,
            r.row_offset == 0,
            r.scroll_col == 0,
            !r.focused,
            r.visible_height == 20,
            !r.row_detail.visible,
            r.formatted_cells@.len() == 0,
    {
        ResultsTable {
            state: ResultsState::Empty,
            result: None,
            selected_row: 0,
            row_offset: 0,
            scroll_col: 0,
            focused: false,
            visible_height: 20,
            row_detail: RowDetailPopup::new(),
            formatted_cells: Vec::new(),
        }
    }

    /// Forgets the result.
    pub fn clear(&mut self)
        ensures
            final(self).state is Empty,
            final(self).result is None,
            final(self).formatted_cells@.len() == 0,
            final(self).selected_row == 0,
            final(self).row_offset == 0,
            final(self).scroll_col == 0,
            final(self).focused == old(self).focused,
    {
        self.state = ResultsState::Empty;
        self.result = None;
        self.formatted_cells = Vec::new();
        self.selected_row = 0;
        self.row_offset = 0;
        self.scroll_col = 0;
    }

    /// The widths of the columns shown, from the first one scrolled to:
    /// each column's width (see `result_column_width`), as many leading
    /// columns as fit in `available_width` with one column of gap between
    /// them, and at least one. None without a result or past its columns.
    pub fn shown_column_widths(&self, available_width: usize) -> (r: Vec<usize>)
        ensures
            match self.result {
                Some(res) => {
                    let n = res.columns@.len() as int;
                    let first = if (self.scroll_col as int) < n {
                        self.scroll_col as int
                    } else {
                        n
                    };
                    let ws = Seq::new(
                        (n - first) as nat,
                        |i: int| result_column_width(res.columns@, self.formatted_cells@, self.row_offset as int, first + i),
                    );
                    let fit = fit_count(ws, available_width as int, n - first);
                    if first == n {
                        r@.len() == 0
                    } else {
                        nat_widths(r@) == ws.take(if fit == 0 { 1 } else { fit })
                    }
                },
                None => r@.len() == 0,
            },
    {
        let res = match &self.result {
            Some(res) => res,
            None => {
                return Vec::new();
            },
        };
        let n = res.columns.len();
        let first = if self.scroll_col < n {
            self.scroll_col
        } else {
            n
        };
        if first == n {
            return Vec::new();
        }
        let cells = &self.formatted_cells;
        let total = cells.len();
        let start = if self.row_offset < total {
            self.row_offset
        } else {
            total
        };
        let end = if total - start > 100 {
            start + 100
        } else {
            total
        };
        let ghost sample = cells@.subrange(start as int, end as int);
        assert(start as int == sample_start(total as int, self.row_offset as int));
        assert(end as int == sample_end(total as int, self.row_offset as int));
        let ghost ws = Seq::new(
            (n - first) as nat,
            |i: int| result_column_width(res.columns@, cells@, self.row_offset as int, first + i),
        );
        let mut ideal: Vec<usize> = Vec::new();
        let mut c: usize = first;
        while c < n
            invariant
                first <= c <= n,
                n == res.columns@.len(),
                start <= end <= total,
                total == cells@.len(),
                sample == cells@.subrange(start as int, end as int),
                start as int == sample_start(total as int, self.row_offset as int),
                end as int == sample_end(total as int, self.row_offset as int),
                ws == Seq::new(
                    (n - first) as nat,
                    |i: int| result_column_width(res.columns@, cells@, self.row_offset as int, first + i),
                ),
                nat_widths(ideal@) == ws.take(c - first),
            decreases n - c,
        {
            let h = crate::text::str_chars(res.columns[c].as_str()).len();
            let mut d: usize = 0;
            let mut k: usize = start;
            while k < end
                invariant
                    start <= k <= end,
                    end <= total,
                    total == cells@.len(),
                    c < n,
                    d == longest_cell(cells@.subrange(start as int, k as int), c as int),
                decreases end - k,
            {
                assert(cells@.subrange(start as int, k + 1).drop_last() =~= cells@.subrange(start as int, k as int));
                let row = &cells[k];
                if c < row.len() {
                    let l = crate::text::str_chars(row[c].as_str()).len();
                    if l > d {
                        d = l;
                    }
                }
                k += 1;
            }
            let capped = if d < 40 {
                d
            } else {
                40
            };
            let w0 = if h > capped {
                h
            } else {
                capped
            };
            let w = if w0 > 4 {
                w0
            } else {
                4
            };
            assert(w as nat == ws[c - first]);
            let ghost prev = ideal@;
            ideal.push(w);
            assert(nat_widths(ideal@) =~= nat_widths(prev).push(w as nat));
            assert(ws.take(c + 1 - first) =~= ws.take(c - first).push(ws[c - first]));
            assert(nat_widths(ideal@) =~= ws.take(c + 1 - first));
            c += 1;
        }
        assert(ws.take(n - first) =~= ws);
        assert(nat_widths(ideal@) == ws);
        let r = fit_prefix(&ideal, available_width);
        proof {
            let fit = fit_count(ws, available_width as int, n - first);
            let shown = if fit == 0 { 1 } else { fit };
            lemma_fit_count_bound(ws, available_width as int, n - first);
            assert(nat_widths(ideal@.take(shown)) =~= nat_widths(ideal@).take(shown));
            assert(nat_widths(r@) =~= ws.take(if fit == 0 { 1 } else { fit }));
        }
        r
    }

    /// Shows that a query is running.
    pub fn set_loading(&mut self)
        ensures
            final(self).state is Loading,
            final(self).result is None,
            final(self).formatted_cells@.len() == 0,
            final(self).selected_row == 0,
            final(self).row_offset == 0,
            final(self).scroll_col == 0,
            final(self).focused == old(self).focused,
    {
        self.state = ResultsState::Loading;
        self.result = None;
        self.formatted_cells = Vec::new();
        self.selected_row = 0;
        self.row_offset = 0;
        self.scroll_col = 0;
    }

    /// Shows a result from its first row and column, with every cell
    /// formatted once.
    pub fn set_result(&mut self, result: QueryResult)
        ensures
            final(self).state is Loaded,
            final(self).result == Some(result),
            formatted_view(final(self).formatted_cells@) == cells_view(result.rows@),
            final(self).selected_row == 0,
            final(self).row_offset == 0,
            final(self).scroll_col == 0,
            final(self).focused == old(self).focused,
    {
        self.state = ResultsState::Loaded;
        let mut cells: Vec<Vec<String>> = Vec::new();
        let mut i: usize = 0;
        while i < result.rows.len()
            invariant
                i <= result.rows@.len(),
                formatted_view(cells@) == cells_view(result.rows@.take(i as int)),
            decreases result.rows@.len() - i,
        {
            let ghost prev = cells@;
            let row = format_row(&result.rows[i]);
            cells.push(row);
            assert(result.rows@.take(i + 1) =~= result.rows@.take(i as int).push(result.rows@[i as int]));
            assert(formatted_view(cells@) =~= formatted_view(prev).push(result.rows@[i as int]@.map_values(|v: JsonValue| display_text(v@))));
            assert(formatted_view(cells@) =~= cells_view(result.rows@.take(i + 1)));
            i += 1;
        }
        assert(result.rows@.take(result.rows@.len() as int) =~= result.rows@);
        self.formatted_cells = cells;
        self.result = Some(result);
        self.selected_row = 0;
        self.row_offset = 0;
        self.scroll_col = 0;
    }

    /// Shows an error in place of a result.
    pub fn set_error(&mut self, error: String)
        ensures
            final(self).state matches ResultsState::Error(e) && e@ == error@,
            final(self).result is None,
            final(self).formatted_cells@.len() == 0,
            final(self).selected_row == old(self).selected_row,
            final(self).scroll_col == old(self).scroll_col,
    {
        self.state = ResultsState::Error(error);
        self.result = None;
        self.formatted_cells = Vec::new();
    }

    /// The last row that can be selected.
    pub fn max_selected_row(&self) -> (r: usize)
        ensures
            r == spec_max_row(self.result),
    {
        match &self.result {
            Some(result) => if result.rows.len() > 0 {
                result.rows.len() - 1
            } else {
                0
            },
            None => 0,
        }
    }

    /// The last column that can be scrolled to.
    pub fn max_scroll_col(&self) -> (r: usize)
        ensures
            r == spec_max_col(self.result),
    {
        match &self.result {
            Some(result) => if result.columns.len() > 0 {
                result.columns.len() - 1
            } else {
                0
            },
            None => 0,
        }
    }

    /// Scrolls so that the selected row is among the rows shown under the
    /// header.
    pub fn adjust_row_offset(&mut self)
        ensures
            final(self).selected_row == old(self).selected_row,
            final(self).visible_height == old(self).visible_height,
            final(self).result == old(self).result,
            final(self).scroll_col == old(self).scroll_col,
            final(self).row_detail == old(self).row_detail,
            old(self).visible_height <= 1 ==> final(self).row_offset == old(self).row_offset,
            old(self).visible_height > 1 ==> final(self).row_offset <= final(self).selected_row < final(self).row_offset
                + old(self).visible_height - 1,
    {
        let visible = if self.visible_height > 0 {
            self.visible_height - 1
        } else {
            0
        };
        if visible == 0 {
            return;
        }
        if self.selected_row < self.row_offset {
            self.row_offset = self.selected_row;
        } else if self.selected_row - self.row_offset >= visible {
            self.row_offset = self.selected_row - visible + 1;
        }
    }

    /// A key for the table. With the row detail shown, the key goes to it.
    /// Otherwise Enter shows the selected row's detail, Down/`j`, Up/`k`,
    /// PageDown, PageUp, Home and End move the selected row within the
    /// rows, and Right/`l` and Left/`h` scroll the columns.
    pub fn handle_key(&mut self, key: KeyEvent) -> (r: Option<Action>)
        ensures

            results_key_post(*old(self), *final(self), key, r),
    {
        if self.row_detail.visible {
            self.row_detail.handle_key(key);
            return Some(Action::Render);
        }
        match key.code {
            KeyCode::Enter => {
                match &self.result {
                    Some(result) => {
                        if self.selected_row < result.rows.len() {
                            self.row_detail.show(&result.columns, &result.rows[self.selected_row]);
                        }
                    },
                    None => {},
                }
                Some(Action::Render)
            },
            KeyCode::Down | KeyCode::Char('j') => {
                if self.selected_row < self.max_selected_row() {
                    self.selected_row += 1;
                    self.adjust_row_offset();
                }
                Some(Action::Render)
            },
            KeyCode::Up | KeyCode::Char('k') => {
                if self.selected_row > 0 {
                    self.selected_row -= 1;
                }
                self.adjust_row_offset();
                Some(Action::Render)
            },
            KeyCode::PageDown => {
                let maxr = self.max_selected_row();
                if self.selected_row < maxr && maxr - self.selected_row > PAGE_ROWS {
                    self.selected_row += PAGE_ROWS;
                } else {
                    self.selected_row = maxr;
                }
                self.adjust_row_offset();
                Some(Action::Render)
            },
            KeyCode::PageUp => {
                if self.selected_row > PAGE_ROWS {
                    self.selected_row -= PAGE_ROWS;
                } else {
                    self.selected_row = 0;
                }
                self.adjust_row_offset();
                Some(Action::Render)
            },
            KeyCode::Home => {
                self.selected_row = 0;
                self.adjust_row_offset();
                Some(Action::Render)
            },
            KeyCode::End => {
                self.selected_row = self.max_selected_row();
                self.adjust_row_offset();
                Some(Action::Render)
            },
            KeyCode::Right | KeyCode::Char('l') => {
                if self.scroll_col < self.max_scroll_col() {
                    self.scroll_col += 1;
                }
                Some(Action::Render)
            },
            KeyCode::Left | KeyCode::Char('h') => {
                if self.scroll_col > 0 {
                    self.scroll_col -= 1;
                }
                Some(Action::Render)
            },
            _ => None,
        }
    }
}

} // verus!
