//! Fitting text and columns into the width of a table.

use vstd::prelude::*;
use crate::json::{JsonValue, JsonValueView, display_text};
use crate::text::{chars_to_string, str_chars};

verus! {

/// A text cut to `max` characters, ending in `...` when it was cut and
/// there is room for more than the dots.
pub open spec fn spec_truncate(s: Seq<char>, max: nat) -> Seq<char> {
    if s.len() <= max {
        s
    } else if max <= 3 {
        s.take(max as int)
    } else {
        s.take(max - 3) + "..."@
    }
}

fn truncate_chars(s: &str, max_width: usize) -> (r: String)
    ensures
        r@ == spec_truncate(s@, max_width as nat),
{
    let chars = str_chars(s);
    if chars.len() <= max_width {
        return chars_to_string(chars.as_slice());
    }
    let keep = if max_width <= 3 {
        max_width
    } else {
        max_width - 3
    };
    let mut out: Vec<char> = Vec::new();
    let mut i: usize = 0;
    while i < keep
        invariant
            i <= keep,
            keep < chars@.len(),
            out@ == chars@.take(i as int),
        decreases keep - i,
    {
        out.push(chars[i]);
        assert(chars@.take(i + 1) =~= chars@.take(i as int).push(chars@[i as int]));
        i += 1;
    }
    if max_width > 3 {
        out.push('.');
        out.push('.');
        out.push('.');
        proof {
            reveal_strlit("...");
        }
        assert(out@ =~= chars@.take(keep as int) + "..."@);
    }
    chars_to_string(out.as_slice())
}

/// Truncate a string to `max_width` characters, ending in `...` when it
/// was cut and the width leaves room for more than the dots.
pub fn truncate_with_ellipsis(s: &str, max_width: usize) -> (r: String)
    ensures
        r@ == spec_truncate(s@, max_width as nat),
{
    truncate_chars(s, max_width)
}

/// Truncate a string to fit within a given character width, adding `...`
/// if truncated.
pub fn truncate_to_width(s: &str, max_width: usize) -> (r: String)
    ensures
        r@ == spec_truncate(s@, max_width as nat),
{
    truncate_chars(s, max_width)
}

/// The widest shown value of a column among rows (0 when no row has the
/// column).
pub open spec fn max_data_len(rows: Seq<Seq<JsonValueView>>, ci: int) -> nat
    decreases rows.len(),
{
    if rows.len() == 0 {
        0
    } else {
        let rest = max_data_len(rows.drop_last(), ci);
        let row = rows.last();
        if 0 <= ci < row.len() && display_text(row[ci]).len() > rest {
            display_text(row[ci]).len()
        } else {
            rest
        }
    }
}

/// The ideal width of the `i`-th shown column: its header, or its widest
/// value among the first fifty rows capped at forty, whichever is wider,
/// and at least four.
pub open spec fn ideal_width(headers: Seq<Seq<char>>, rows: Seq<Seq<JsonValueView>>, col_start: int, i: int) -> nat {
    let header_len = if 0 <= i < headers.len() {
        headers[i].len()
    } else {
        0
    };
    let data = max_data_len(rows.take(if rows.len() < 50 { rows.len() as int } else { 50 }), col_start + i);
    let capped = if data < 40 {
        data
    } else {
        40
    };
    let w = if header_len > capped {
        header_len
    } else {
        capped
    };
    if w > 4 {
        w
    } else {
        4
    }
}

/// The total width of the first `k` columns with a one-character gap
/// between them.
pub open spec fn total_width(ws: Seq<nat>, k: int) -> int
    decreases k,
{
    if k <= 0 {
        0
    } else if k == 1 {
        ws[0] as int
    } else {
        total_width(ws, k - 1) + 1 + ws[k - 1]
    }
}

/// The most leading columns (up to `k`) that fit in `avail`.
pub open spec fn fit_count(ws: Seq<nat>, avail: int, k: int) -> int
    decreases k,
{
    if k <= 0 {
        0
    } else if total_width(ws, k) <= avail {
        k
    } else {
        fit_count(ws, avail, k - 1)
    }
}

/// The ideal widths of the `n` columns shown from `col_start`.
pub open spec fn ideal_widths(headers: Seq<Seq<char>>, rows: Seq<Seq<JsonValueView>>, col_start: int, n: nat) -> Seq<nat> {
    Seq::new(n, |i: int| ideal_width(headers, rows, col_start, i))
}

/// The views of rows of values.
pub open spec fn rows_view(rows: Seq<Vec<JsonValue>>) -> Seq<Seq<JsonValueView>> {
    rows.map_values(|r: Vec<JsonValue>| r@.map_values(|v: JsonValue| v@))
}

/// The widths as naturals.
pub open spec fn nat_widths(ws: Seq<usize>) -> Seq<nat> {
    ws.map_values(|w: usize| w as nat)
}

fn text_len(v: &JsonValue) -> (r: usize)
    ensures
        r == display_text(v@).len(),
{
    let s = crate::json::format_value(v);
    str_chars(s.as_str()).len()
}

/// Compute column widths based on header names and data content, for the
/// columns from `col_start` up to `col_end`. Headers are never cut: the
/// columns shown are the most leading ones that fit in the available width
/// (at least one). Returns the widths and the end of the columns shown.
pub fn compute_column_widths(
    headers: &Vec<String>,
    rows: &Vec<Vec<JsonValue>>,
    col_start: usize,
    col_end: usize,
    available_width: usize,
) -> (r: (Vec<usize>, usize))
    ensures
        col_end <= col_start ==> r.0@.len() == 0 && r.1 == col_start,
        col_end > col_start ==> ({
            let n = (col_end - col_start) as nat;
            let ideal = ideal_widths(headers@.map_values(|h: String| h@), rows_view(rows@), col_start as int, n);
            let fit = fit_count(ideal, available_width as int, n as int);
            let shown = if fit == 0 { 1 } else { fit };
            &&& r.0@.len() == shown
            &&& forall|i: int| 0 <= i < shown ==> #[trigger] r.0@[i] == ideal[i]
            &&& r.1 == col_start + shown
        }),
{
    if col_end <= col_start {
        return (Vec::new(), col_start);
    }
    let n = col_end - col_start;
    let ghost hv = headers@.map_values(|h: String| h@);
    let ghost rv = rows_view(rows@);
    let sample: usize = if rows.len() < 50 {
        rows.len()
    } else {
        50
    };
    let mut ideal: Vec<usize> = Vec::new();
    let mut i: usize = 0;
    while i < n
        invariant
            i <= n,
            n == col_end - col_start,
            col_end > col_start,
            hv == headers@.map_values(|h: String| h@),
            rv == rows_view(rows@),
            sample == (if rows@.len() < 50 { rows@.len() as int } else { 50 }),
            ideal@.len() == i,
            forall|j: int| 0 <= j < i ==> #[trigger] ideal@[j] == ideal_width(hv, rv, col_start as int, j),
        decreases n - i,
    {
        let ci = col_start + i;
        let header_len: usize = if i < headers.len() {
            str_chars(headers[i].as_str()).len()
        } else {
            0
        };
        let ghost srows = rv.take(sample as int);
        let mut data: usize = 0;
        let mut k: usize = 0;
        while k < sample
            invariant
                k <= sample,
                sample <= rows@.len(),
                rv == rows_view(rows@),
                srows == rv.take(sample as int),
                data == max_data_len(srows.take(k as int), ci as int),
            decreases sample - k,
        {
            assert(srows.take(k + 1).drop_last() =~= srows.take(k as int));
            assert(srows.take(k + 1).last() == rv[k as int]);
            let row = &rows[k];
            if ci < row.len() {
                assert(rv[k as int][ci as int] == row@[ci as int]@);
                let len = text_len(&row[ci]);
                if len > data {
                    data = len;
                }
            }
            k += 1;
        }
        assert(srows.take(sample as int) =~= srows);
        let capped = if data < 40 {
            data
        } else {
            40
        };
        let w0 = if header_len > capped {
            header_len
        } else {
            capped
        };
        let w = if w0 > 4 {
            w0
        } else {
            4
        };
        assert(i < headers@.len() ==> hv[i as int] == headers@[i as int]@);
        ideal.push(w);
        i += 1;
    }
    let ghost iv = ideal_widths(hv, rv, col_start as int, n as nat);
    assert(nat_widths(ideal@) =~= iv);
    let mut count: usize = n;
    while count > 0 && !fits(&ideal, count, available_width)
        invariant
            count <= n,
            ideal@.len() == n,
            fit_count(iv, available_width as int, n as int) == fit_count(iv, available_width as int, count as int),
            nat_widths(ideal@) == iv,
        decreases count,
    {
        count -= 1;
    }
    let actual = if count == 0 {
        1
    } else {
        count
    };
    let mut widths: Vec<usize> = Vec::new();
    let mut j: usize = 0;
    while j < actual
        invariant
            j <= actual,
            actual <= n,
            ideal@.len() == n,
            widths@ == ideal@.take(j as int),
        decreases actual - j,
    {
        widths.push(ideal[j]);
        assert(ideal@.take(j + 1) =~= ideal@.take(j as int).push(ideal@[j as int]));
        j += 1;
    }
    assert forall|k: int| 0 <= k < actual implies #[trigger] widths@[k] == iv[k] by {
        assert(nat_widths(ideal@)[k] == ideal@[k] as nat);
    }
    (widths, col_start + actual)
}

/// The leading widths that fit in `avail` with one column of gap between
/// them; the first one is kept even when it does not fit.
pub fn fit_prefix(ideal: &Vec<usize>, avail: usize) -> (r: Vec<usize>)
    requires
        ideal@.len() > 0,
    ensures
        ({
            let fit = fit_count(nat_widths(ideal@), avail as int, ideal@.len() as int);
            r@ == ideal@.take(if fit == 0 { 1 } else { fit })
        }),
{
    let n = ideal.len();
    let ghost iv = nat_widths(ideal@);
    let mut count: usize = n;
    while count > 0 && !fits(ideal, count, avail)
        invariant
            count <= n,
            ideal@.len() == n,
            fit_count(iv, avail as int, n as int) == fit_count(iv, avail as int, count as int),
            nat_widths(ideal@) == iv,
        decreases count,
    {
        count -= 1;
    }
    let actual = if count == 0 {
        1
    } else {
        count
    };
    let mut widths: Vec<usize> = Vec::new();
    let mut j: usize = 0;
    while j < actual
        invariant
            j <= actual,
            actual <= n,
            ideal@.len() == n,
            widths@ == ideal@.take(j as int),
        decreases actual - j,
    {
        widths.push(ideal[j]);
        assert(ideal@.take(j + 1) =~= ideal@.take(j as int).push(ideal@[j as int]));
        j += 1;
    }
    widths
}

/// No more columns fit than there are.
pub proof fn lemma_fit_count_bound(ws: Seq<nat>, avail: int, k: int)
    requires
        k >= 0,
    ensures
        0 <= fit_count(ws, avail, k) <= k,
    decreases k,
{
    if k > 0 {
        lemma_fit_count_bound(ws, avail, k - 1);
    }
}

/// Whether the first `k` widths fit in `avail` with their gaps.
fn fits(ws: &Vec<usize>, k: usize, avail: usize) -> (r: bool)
    requires
        1 <= k <= ws@.len(),
    ensures
        r == (total_width(nat_widths(ws@), k as int) <= avail),
{
    let ghost wv = nat_widths(ws@);
    let mut total: usize = ws[0];
    if total > avail {
        proof {
            lemma_total_width_grows(wv, 1, k as int);
        }
        return false;
    }
    let mut i: usize = 1;
    while i < k
        invariant
            1 <= i <= k,
            k <= ws@.len(),
            wv == nat_widths(ws@),
            total == total_width(wv, i as int),
            total <= avail,
        decreases k - i,
    {
        let w = ws[i];
        if w >= avail - total {
            proof {
                assert(total_width(wv, i + 1) == total + 1 + w);
                lemma_total_width_grows(wv, i + 1, k as int);
            }
            return false;
        }
        total = total + 1 + w;
        i += 1;
    }
    true
}

proof fn lemma_total_width_grows(ws: Seq<nat>, a: int, b: int)
    requires
        1 <= a <= b <= ws.len(),
    ensures
        total_width(ws, a) <= total_width(ws, b),
    decreases b - a,
{
    if a < b {
        lemma_total_width_grows(ws, a, b - 1);
    }
}

/// The columns counted as fitting do fit in `avail` with their gaps, and
/// one more of the first `k` would not.
pub proof fn lemma_fit_count_is_most(ws: Seq<nat>, avail: int, k: int)
    requires
        0 <= k <= ws.len(),
        0 <= avail,
    ensures
        total_width(ws, fit_count(ws, avail, k)) <= avail,
        fit_count(ws, avail, k) < k ==> total_width(ws, fit_count(ws, avail, k) + 1) > avail,
    decreases k,
{
    if k > 0 && total_width(ws, k) > avail {
        lemma_fit_count_is_most(ws, avail, k - 1);
        lemma_fit_count_bound(ws, avail, k - 1);
    }
}

} // verus!
