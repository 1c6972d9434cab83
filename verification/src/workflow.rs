//! The plain computations behind the application's actions: task names,
//! cache keys, statements, which cache files a clear keeps, how refreshed
//! columns are merged, and how old a refresh is in words.

use vstd::prelude::*;
use crate::parser::{Column, ColumnsByTable};
use crate::text::{concat, decimal, signed_decimal, str_chars, str_eq, str_to_string};

verus! {

/// The source of catalog refresh tasks.
pub open spec fn catalog_refresh_source() -> Seq<char> {
    "Catalog Refresh"@
}

/// The name of the task that runs a query: `Execute: ` and the first fifty
/// characters of the query.
pub open spec fn spec_execute_task_name(sql: Seq<char>) -> Seq<char> {
    "Execute: "@ + (if sql.len() <= 50 {
        sql
    } else {
        sql.take(50)
    })
}

/// The name of the task that runs a query.
pub fn execute_task_name(sql: &str) -> (r: String)
    ensures
        r@ == spec_execute_task_name(sql@),
{
    let chars = str_chars(sql);
    let n = if chars.len() <= 50 {
        chars.len()
    } else {
        50
    };
    let mut head: Vec<char> = Vec::new();
    let mut i: usize = 0;
    while i < n
        invariant
            i <= n,
            n <= chars@.len(),
            head@ == chars@.take(i as int),
        decreases n - i,
    {
        head.push(chars[i]);
        assert(chars@.take(i + 1) =~= chars@.take(i as int).push(chars@[i as int]));
        i += 1;
    }
    assert(chars@.len() <= 50 ==> chars@.take(n as int) =~= chars@);
    let h = crate::text::chars_to_string(head.as_slice());
    concat("Execute: ", h.as_str())
}

/// The key of a table's columns in the cache: `DB.SCHEMA.TABLE`.
pub open spec fn spec_table_key(db: Seq<char>, schema: Seq<char>, table: Seq<char>) -> Seq<char> {
    db + "."@ + schema + "."@ + table
}

/// The key of a table's columns in the cache.
pub fn table_cache_key(db: &str, schema: &str, table: &str) -> (r: String)
    ensures
        r@ == spec_table_key(db@, schema@, table@),
{
    let a = concat(db, ".");
    let b = concat(a.as_str(), schema);
    let c = concat(b.as_str(), ".");
    concat(c.as_str(), table)
}

/// The name of the task that refreshes a table's columns.
pub fn column_refresh_task_name(db: &str, schema: &str, table: &str) -> (r: String)
    ensures
        r@ == "Refresh columns for "@ + spec_table_key(db@, schema@, table@),
{
    let k = table_cache_key(db, schema, table);
    concat("Refresh columns for ", k.as_str())
}

/// The name of the task that refreshes a database's catalog.
pub fn catalog_task_name(db: &str) -> (r: String)
    ensures
        r@ == "Refresh data for catalog = "@ + db@,
{
    concat("Refresh data for catalog = ", db)
}

/// The statement that previews a table: its first hundred rows.
pub fn preview_query(db: &str, schema: &str, table: &str) -> (r: String)
    ensures
        r@ == "SELECT * FROM \""@ + db@ + "\".\""@ + schema@ + "\".\""@ + table@ + "\" LIMIT 100"@,
{
    let a = concat("SELECT * FROM \"", db);
    let b = concat(a.as_str(), "\".\"");
    let c = concat(b.as_str(), schema);
    let d = concat(c.as_str(), "\".\"");
    let e = concat(d.as_str(), table);
    concat(e.as_str(), "\" LIMIT 100")
}

/// A file of the cache directory that clearing the cache keeps: the saved
/// queries and the query history.
pub open spec fn spec_keeps_file(name: Seq<char>) -> bool {
    name == "saved_queries.bin"@ || name == "query_history.bin"@
}

/// Whether clearing the cache keeps a file.
pub fn keeps_cache_file(name: &str) -> (r: bool)
    ensures
        r == spec_keeps_file(name@),
{
    str_eq(name, "saved_queries.bin") || str_eq(name, "query_history.bin")
}

/// How many database refreshes run at once for a number of processors:
/// two and a half per processor rounded down (at most the largest
/// `usize`), at least one.
pub fn refresh_parallelism(num_cpus: usize) -> (r: usize)
    ensures
        r == (if num_cpus * 5 / 2 > usize::MAX { usize::MAX as int } else if num_cpus * 5 / 2 >= 1 { num_cpus * 5 / 2 } else { 1 }),
{
    let half = num_cpus / 2;
    let total: u128 = num_cpus as u128 * 2 + half as u128;
    assert(total == num_cpus * 5 / 2) by (nonlinear_arith)
        requires
            total == num_cpus * 2 + half,
            half == num_cpus / 2,
    ;
    if total > usize::MAX as u128 {
        return usize::MAX;
    }
    let t = total as usize;
    if t >= 1 {
        t
    } else {
        1
    }
}

/// The column groups of all databases, keyed `DB.SCHEMA.TABLE`: those of
/// `merged` with each group of a database's refresh added under its key
/// prefixed by the database (a later group replaces one with the same key).
pub open spec fn group_keys(g: Seq<(String, Vec<Column>)>) -> Seq<Seq<char>> {
    g.map_values(|e: (String, Vec<Column>)| e.0@)
}

/// Adds the column groups of a database's refresh, keyed by `SCHEMA.TABLE`,
/// under `DB.SCHEMA.TABLE`; a group with a key already held replaces it.
pub fn merge_db_columns(merged: &mut ColumnsByTable, db: &str, groups: ColumnsByTable)
    requires
        crate::store::keys_distinct(old(merged)@),
    ensures
        crate::store::keys_distinct(final(merged)@),
        forall|k: Seq<char>| #![auto] (exists|i: int| 0 <= i < groups@.len() && db@ + "."@ + groups@[i].0@ == k)
            ==> crate::store::columns_for(final(merged)@, k) is Some,
        forall|k: Seq<char>| #![auto] crate::store::columns_for(old(merged)@, k) is Some ==> crate::store::columns_for(final(merged)@, k) is Some,
{
    let mut groups = groups;
    let ghost g0 = groups@;
    let n = groups.len();
    let mut i: usize = 0;
    while i < n
        invariant
            i <= n,
            n == g0.len(),
            groups@ == g0.skip(i as int),
            crate::store::keys_distinct(merged@),
            forall|k: Seq<char>| #![auto] (exists|j: int| 0 <= j < i && db@ + "."@ + g0[j].0@ == k)
                ==> crate::store::columns_for(merged@, k) is Some,
            forall|k: Seq<char>| #![auto] crate::store::columns_for(old(merged)@, k) is Some ==> crate::store::columns_for(merged@, k) is Some,
        decreases n - i,
    {
        let (key, cols) = groups.remove(0);
        assert(groups@ =~= g0.skip(i + 1));
        let a = concat(db, ".");
        let full = concat(a.as_str(), key.as_str());
        let ghost before = merged@;
        put_group(merged, full, cols);
        i += 1;
    }
}

/// Stores a group under `key`, replacing a group with that key.
fn put_group(groups: &mut ColumnsByTable, key: String, cols: Vec<Column>)
    requires
        crate::store::keys_distinct(old(groups)@),
    ensures
        crate::store::keys_distinct(final(groups)@),
        crate::store::columns_for(final(groups)@, key@) == Some(cols@.map_values(|c: Column| c@)),
        forall|k: Seq<char>| k != key@ ==> crate::store::columns_for(final(groups)@, k) == crate::store::columns_for(old(groups)@, k),
{
    let mut state = crate::store::CacheState {
        active_conn_key: String::new(),
        generation: 0,
        catalog: crate::store::CatalogCache::empty(),
        last_disk_write: None,
    };
    std::mem::swap(&mut state.catalog.columns_by_table, groups);
    state.update_columns(key.as_str(), cols, 0, 0);
    std::mem::swap(&mut state.catalog.columns_by_table, groups);
}

/// `n unit`, with an `s` unless `n` is one.
pub open spec fn spec_plural(n: int, unit: Seq<char>) -> Seq<char> {
    signed_decimal(n) + " "@ + unit + (if n == 1 {
        Seq::empty()
    } else {
        "s"@
    })
}

/// `n unit`, with an `s` unless `n` is one.
pub fn plural(n: i64, unit: &str) -> (r: String)
    ensures
        r@ == spec_plural(n as int, unit@),
{
    let num = crate::text::i64_to_string(n);
    let a = concat(num.as_str(), " ");
    let b = concat(a.as_str(), unit);
    if n == 1 {
        proof {
            reveal_strlit("");
        }
        assert(b@ =~= spec_plural(n as int, unit@));
        b
    } else {
        concat(b.as_str(), "s")
    }
}

/// How long ago `ts` was at `now` (both milliseconds since the epoch), in
/// words: `just now` under a minute (or in the future), minutes under an
/// hour, hours and minutes under a day, days under thirty days, weeks under
/// ninety days, months (of thirty days) under a year (of 365 days), and
/// years and months beyond.
pub open spec fn spec_relative_time(ts: int, now: int) -> Seq<char> {
    let ago = now - ts;
    let mins = ago / 60000;
    let hours = ago / 3600000;
    let days = ago / 86400000;
    let weeks = days / 7;
    let months = days / 30;
    let years = days / 365;
    if ago < 60000 {
        "just now"@
    } else if hours < 1 {
        spec_plural(mins, "min"@) + " ago"@
    } else if days < 1 {
        signed_decimal(hours) + "h "@ + signed_decimal(mins % 60) + "m ago"@
    } else if months < 1 {
        spec_plural(days, "day"@) + " ago"@
    } else if months < 3 {
        spec_plural(weeks, "week"@) + " ago"@
    } else if years < 1 {
        spec_plural(months, "month"@) + " ago"@
    } else {
        signed_decimal(years) + "y "@ + signed_decimal(months % 12) + "mo ago"@
    }
}

/// How long ago a refresh was, in words.
pub fn format_relative_time(ts_ms: i64, now_ms: i64) -> (r: String)
    ensures
        r@ == spec_relative_time(ts_ms as int, now_ms as int),
{
    let ago: i128 = now_ms as i128 - ts_ms as i128;
    if ago < 60000 {
        return str_to_string("just now");
    }
    let mins: i128 = ago / 60000;
    let hours: i128 = ago / 3600000;
    let days: i128 = ago / 86400000;
    let weeks: i128 = days / 7;
    let months: i128 = days / 30;
    let years: i128 = days / 365;
    assert(0 < mins <= 0x1_0000_0000_0000_0000);
    assert(0 <= hours <= mins && 0 <= days <= hours && 0 <= weeks <= days && 0 <= months <= days && 0 <= years <= days);
    if hours < 1 {
        let p = plural(mins as i64, "min");
        return concat(p.as_str(), " ago");
    }
    if days < 1 {
        let h = crate::text::i64_to_string(hours as i64);
        let m = crate::text::i64_to_string((mins % 60) as i64);
        let a = concat(h.as_str(), "h ");
        let b = concat(a.as_str(), m.as_str());
        return concat(b.as_str(), "m ago");
    }
    if months < 1 {
        let p = plural(days as i64, "day");
        return concat(p.as_str(), " ago");
    }
    if months < 3 {
        let p = plural(weeks as i64, "week");
        return concat(p.as_str(), " ago");
    }
    if years < 1 {
        let p = plural(months as i64, "month");
        return concat(p.as_str(), " ago");
    }
    let y = crate::text::i64_to_string(years as i64);
    let m = crate::text::i64_to_string((months % 12) as i64);
    let a = concat(y.as_str(), "y ");
    let b = concat(a.as_str(), m.as_str());
    concat(b.as_str(), "mo ago")
}

} // verus!
